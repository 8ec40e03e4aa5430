//! The statements of the store, word for word. Each stands twice: as the
//! text that contracts speak of, and as the text that is handed to the
//! engine, which is proved to be the same.

use vstd::prelude::*;

verus! {

/// The table of games: an identifier that the engine assigns, a start date, an
/// end date that is missing while the game is active, and a description.
pub open spec fn create_games_text() -> Seq<char> {
    "CREATE TABLE IF NOT EXISTS game_info (id INTEGER PRIMARY KEY, start_date TEXT NOT NULL, end_date TEXT NULL, description TEXT NULL)"@
}

pub fn create_games_statement() -> (s: &'static str)
    ensures
        s@ == create_games_text(),
{
    "CREATE TABLE IF NOT EXISTS game_info (id INTEGER PRIMARY KEY, start_date TEXT NOT NULL, end_date TEXT NULL, description TEXT NULL)"
}

/// The table of transactions: game, user, amount and date, the game
/// referring to the table of games.
pub open spec fn create_transactions_text() -> Seq<char> {
    "CREATE TABLE IF NOT EXISTS game_transactions (game_id INTEGER NOT NULL, user_id TEXT NOT NULL, amount INTEGER NOT NULL, date TEXT NOT NULL, FOREIGN KEY (game_id) REFERENCES game_info(id))"@
}

pub fn create_transactions_statement() -> (s: &'static str)
    ensures
        s@ == create_transactions_text(),
{
    "CREATE TABLE IF NOT EXISTS game_transactions (game_id INTEGER NOT NULL, user_id TEXT NOT NULL, amount INTEGER NOT NULL, date TEXT NOT NULL, FOREIGN KEY (game_id) REFERENCES game_info(id))"
}

/// Every game without an end date gets the current time for one.
pub open spec fn close_games_text() -> Seq<char> {
    "UPDATE game_info SET end_date = datetime() WHERE end_date IS NULL"@
}

pub fn close_games_statement() -> (s: &'static str)
    ensures
        s@ == close_games_text(),
{
    "UPDATE game_info SET end_date = datetime() WHERE end_date IS NULL"
}

/// One more game: it starts now, has no end date, and its description is the
/// value handed over.
pub open spec fn add_game_text() -> Seq<char> {
    "INSERT INTO game_info (start_date, end_date, description) VALUES (datetime(), NULL, ?1)"@
}

pub fn add_game_statement() -> (s: &'static str)
    ensures
        s@ == add_game_text(),
{
    "INSERT INTO game_info (start_date, end_date, description) VALUES (datetime(), NULL, ?1)"
}

/// One more transaction, dated now: game, user and amount are the three
/// values handed over, in this order.
pub open spec fn add_transaction_text() -> Seq<char> {
    "INSERT INTO game_transactions (game_id, user_id, amount, date) VALUES (?1, ?2, ?3, datetime())"@
}

pub fn add_transaction_statement() -> (s: &'static str)
    ensures
        s@ == add_transaction_text(),
{
    "INSERT INTO game_transactions (game_id, user_id, amount, date) VALUES (?1, ?2, ?3, datetime())"
}

/// Every transaction, the latest first.
pub open spec fn history_text() -> Seq<char> {
    "SELECT game_id, user_id, amount, date FROM game_transactions ORDER BY date DESC"@
}

pub fn history_statement() -> (s: &'static str)
    ensures
        s@ == history_text(),
{
    "SELECT game_id, user_id, amount, date FROM game_transactions ORDER BY date DESC"
}

/// For each user the sum of the amounts, the users ascending.
pub open spec fn profit_text() -> Seq<char> {
    "SELECT user_id, SUM(amount) AS sum FROM game_transactions gt GROUP BY user_id ORDER BY user_id"@
}

pub fn profit_statement() -> (s: &'static str)
    ensures
        s@ == profit_text(),
{
    "SELECT user_id, SUM(amount) AS sum FROM game_transactions gt GROUP BY user_id ORDER BY user_id"
}

/// For each user and day the sum of the amounts, the day being the date cut
/// down to its calendar day, the latest first.
pub open spec fn profit_by_day_text() -> Seq<char> {
    "SELECT user_id, date(\"date\") AS date, sum(amount) AS total FROM game_transactions gt GROUP BY gt.user_id, date(gt.\"date\") ORDER BY gt.date DESC"@
}

pub fn profit_by_day_statement() -> (s: &'static str)
    ensures
        s@ == profit_by_day_text(),
{
    "SELECT user_id, date(\"date\") AS date, sum(amount) AS total FROM game_transactions gt GROUP BY gt.user_id, date(gt.\"date\") ORDER BY gt.date DESC"
}

} // verus!
