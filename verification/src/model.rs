//! The mathematical model: rows as plain values, the order of texts, the
//! shape of a timestamp, and what the three reports are of a given table.

use vstd::prelude::*;
use crate::statements::{
    add_game_text, add_transaction_text, close_games_text, create_games_text,
    create_transactions_text, history_text, profit_by_day_text, profit_text,
};

verus! {

/// A row of the table of games.
pub ghost struct GameRow {
    pub id: int,
    pub start_date: Seq<char>,
    pub end_date: Option<Seq<char>>,
    pub description: Option<Seq<char>>,
}

/// A row of the table of transactions.
pub ghost struct TransactionRow {
    pub game_id: int,
    pub user_id: Seq<char>,
    pub amount: int,
    pub date: Seq<char>,
}

/// A line of the profit report: a user and the sum of their amounts.
pub ghost struct ProfitRow {
    pub user_id: Seq<char>,
    pub amount: int,
}

/// A line of the daily profit report: a user, a day and the sum of the
/// user's amounts on that day.
pub ghost struct DayProfitRow {
    pub user_id: Seq<char>,
    pub date: Seq<char>,
    pub amount: int,
}

/// The order in which the database compares two texts: character by
/// character, by code point, a proper prefix first.
pub open spec fn text_lt(a: Seq<char>, b: Seq<char>) -> bool
    decreases a.len(),
{
    if b.len() == 0 {
        false
    } else if a.len() == 0 {
        true
    } else if a[0] != b[0] {
        (a[0] as int) < (b[0] as int)
    } else {
        text_lt(a.skip(1), b.skip(1))
    }
}

/// `a` comes before `b` or equals it.
pub open spec fn text_le(a: Seq<char>, b: Seq<char>) -> bool {
    a == b || text_lt(a, b)
}

pub open spec fn is_digit(c: char) -> bool {
    '0' <= c && c <= '9'
}

/// The number that the two digits at `i` and `i + 1` write.
pub open spec fn two_digits(s: Seq<char>, i: int) -> int {
    10 * ((s[i] as u32) - 48) + ((s[i + 1] as u32) - 48)
}

/// The year that the first four characters write.
pub open spec fn year_of(s: Seq<char>) -> int {
    100 * two_digits(s, 0) + two_digits(s, 2)
}

pub open spec fn is_leap_year(y: int) -> bool {
    y % 4 == 0 && (y % 100 != 0 || y % 400 == 0)
}

pub open spec fn days_in_month(y: int, m: int) -> int {
    if m == 2 {
        if is_leap_year(y) { 29 } else { 28 }
    } else if m == 4 || m == 6 || m == 9 || m == 11 {
        30
    } else {
        31
    }
}

/// A text of the shape `YYYY-MM-DD HH:MM:SS` that names a moment of the
/// calendar: what the database writes for the current time.
pub open spec fn is_timestamp(s: Seq<char>) -> bool {
    &&& s.len() == 19
    &&& forall|i: int|
        0 <= i < 19 && i != 4 && i != 7 && i != 10 && i != 13 && i != 16 ==> is_digit(#[trigger] s[i])
    &&& s[4] == '-' && s[7] == '-' && s[10] == ' ' && s[13] == ':' && s[16] == ':'
    &&& 1 <= two_digits(s, 5) <= 12
    &&& 1 <= two_digits(s, 8) <= days_in_month(year_of(s), two_digits(s, 5))
    &&& two_digits(s, 11) <= 23
    &&& two_digits(s, 14) <= 59
    &&& two_digits(s, 17) <= 59
}

/// The calendar day of a timestamp: its first ten characters, `YYYY-MM-DD`.
/// The time of day is cut off, never rounded.
pub open spec fn day_of(date: Seq<char>) -> Seq<char> {
    date.take(10)
}

/// Every transaction carries a timestamp.
pub open spec fn all_dated(rows: Seq<TransactionRow>) -> bool {
    forall|k: int| 0 <= k < rows.len() ==> is_timestamp(#[trigger] rows[k].date)
}

/// The sum of the amounts of `user`'s transactions, whatever their game.
pub open spec fn user_total(rows: Seq<TransactionRow>, user: Seq<char>) -> int
    decreases rows.len(),
{
    if rows.len() == 0 {
        0
    } else {
        user_total(rows.drop_last(), user) + if rows.last().user_id == user {
            rows.last().amount
        } else {
            0
        }
    }
}

/// The sum of the amounts of `user`'s transactions on `day`.
pub open spec fn day_total(rows: Seq<TransactionRow>, user: Seq<char>, day: Seq<char>) -> int
    decreases rows.len(),
{
    if rows.len() == 0 {
        0
    } else {
        day_total(rows.drop_last(), user, day) + if rows.last().user_id == user && day_of(
            rows.last().date,
        ) == day {
            rows.last().amount
        } else {
            0
        }
    }
}

/// The sum can be held as an amount: it lies within 64 bits.
pub open spec fn fits_amount(total: int) -> bool {
    i64::MIN <= total <= i64::MAX
}

/// Some user's total cannot be held as an amount.
pub open spec fn profit_overflows(rows: Seq<TransactionRow>) -> bool {
    exists|k: int|
        0 <= k < rows.len() && !fits_amount(user_total(rows, (#[trigger] rows[k]).user_id))
}

/// Some user's total of one day cannot be held as an amount.
pub open spec fn day_profit_overflows(rows: Seq<TransactionRow>) -> bool {
    exists|k: int|
        0 <= k < rows.len() && !fits_amount(
            day_total(rows, (#[trigger] rows[k]).user_id, day_of(rows[k].date)),
        )
}

/// `user` has at least one transaction.
pub open spec fn has_user(rows: Seq<TransactionRow>, user: Seq<char>) -> bool {
    exists|k: int| 0 <= k < rows.len() && (#[trigger] rows[k]).user_id == user
}

/// `user` has at least one transaction on `day`.
pub open spec fn has_user_day(rows: Seq<TransactionRow>, user: Seq<char>, day: Seq<char>) -> bool {
    exists|k: int|
        0 <= k < rows.len() && (#[trigger] rows[k]).user_id == user && day_of(rows[k].date) == day
}

/// The report has a line for `user`.
pub open spec fn lists_user(out: Seq<ProfitRow>, user: Seq<char>) -> bool {
    exists|i: int| 0 <= i < out.len() && (#[trigger] out[i]).user_id == user
}

/// The daily report has a line for `user` on `day`.
pub open spec fn lists_user_day(out: Seq<DayProfitRow>, user: Seq<char>, day: Seq<char>) -> bool {
    exists|i: int| 0 <= i < out.len() && (#[trigger] out[i]).user_id == user && out[i].date == day
}

/// A later transaction stands before an earlier one, as their dates
/// compare as texts.
pub open spec fn latest_first(out: Seq<TransactionRow>) -> bool {
    forall|i: int, j: int|
        0 <= i < j < out.len() ==> text_le((#[trigger] out[j]).date, (#[trigger] out[i]).date)
}

/// The users of the lines stand in strictly ascending order, as texts
/// compare.
pub open spec fn users_ascending(out: Seq<ProfitRow>) -> bool {
    forall|i: int, j: int|
        0 <= i < j < out.len() ==> text_lt((#[trigger] out[i]).user_id, (#[trigger] out[j]).user_id)
}

/// No two lines have the same user and day.
pub open spec fn distinct_days(out: Seq<DayProfitRow>) -> bool {
    forall|i: int, j: int|
        0 <= i < j < out.len() ==> !((#[trigger] out[i]).user_id == (#[trigger] out[j]).user_id
            && out[i].date == out[j].date)
}

/// `out` is the table itself, the latest transaction first. Rows of one
/// date come in any order.
pub open spec fn is_history(rows: Seq<TransactionRow>, out: Seq<TransactionRow>) -> bool {
    &&& out.to_multiset() == rows.to_multiset()
    &&& latest_first(out)
}

/// `out` is the profit report of the table: one line for each user who has
/// a transaction, with the sum of that user's amounts, the users ascending.
pub open spec fn is_profit(rows: Seq<TransactionRow>, out: Seq<ProfitRow>) -> bool {
    &&& forall|i: int|
        0 <= i < out.len() ==> has_user(rows, (#[trigger] out[i]).user_id) && out[i].amount
            == user_total(rows, out[i].user_id)
    &&& forall|k: int| 0 <= k < rows.len() ==> lists_user(out, (#[trigger] rows[k]).user_id)
    &&& users_ascending(out)
}

/// `out` groups the table by user and day: one line for each pair of a user
/// and a day on which the user has a transaction, with the sum of the
/// user's amounts on that day.
pub open spec fn is_grouped_by_day(rows: Seq<TransactionRow>, out: Seq<DayProfitRow>) -> bool {
    &&& forall|i: int|
        0 <= i < out.len() ==> has_user_day(rows, (#[trigger] out[i]).user_id, out[i].date)
            && out[i].amount == day_total(rows, out[i].user_id, out[i].date)
    &&& forall|k: int|
        0 <= k < rows.len() ==> lists_user_day(
            out,
            (#[trigger] rows[k]).user_id,
            day_of(rows[k].date),
        )
    &&& distinct_days(out)
}

/// `user` has a transaction with the date `date`.
pub open spec fn has_user_date(rows: Seq<TransactionRow>, user: Seq<char>, date: Seq<char>) -> bool {
    exists|k: int|
        0 <= k < rows.len() && (#[trigger] rows[k]).user_id == user && rows[k].date == date
}

/// The lines of `out` stand in the order of `dates`, the latest first, and
/// `dates` holds for each line the date of a transaction that the line
/// sums up.
pub open spec fn is_ordered_by(
    rows: Seq<TransactionRow>,
    out: Seq<DayProfitRow>,
    dates: Seq<Seq<char>>,
) -> bool {
    &&& dates.len() == out.len()
    &&& forall|i: int|
        0 <= i < out.len() ==> has_user_date(rows, (#[trigger] out[i]).user_id, dates[i]) && day_of(
            dates[i],
        ) == out[i].date
    &&& forall|i: int, j: int|
        0 <= i < j < dates.len() ==> text_le(#[trigger] dates[j], #[trigger] dates[i])
}

/// The lines are ordered by some date of each group, the latest first.
pub open spec fn is_ordered_by_some_date(rows: Seq<TransactionRow>, out: Seq<DayProfitRow>) -> bool {
    exists|dates: Seq<Seq<char>>| is_ordered_by(rows, out, dates)
}

/// A line of a later day stands before a line of an earlier day.
pub open spec fn latest_day_first(out: Seq<DayProfitRow>) -> bool {
    forall|i: int, j: int|
        0 <= i < j < out.len() ==> text_le((#[trigger] out[j]).date, (#[trigger] out[i]).date)
}

/// `out` is the daily profit report of the table: one line for each pair of
/// a user and a day on which the user has a transaction, with the sum of the
/// user's amounts on that day, the latest day first.
pub open spec fn is_profit_by_day(rows: Seq<TransactionRow>, out: Seq<DayProfitRow>) -> bool {
    &&& is_grouped_by_day(rows, out)
    &&& latest_day_first(out)
}

/// The game at `i` is active: it has no end date.
pub open spec fn is_active(games: Seq<GameRow>, i: int) -> bool {
    games[i].end_date is None
}

/// `after` is `before` with every active game closed: each game that had no
/// end date has a timestamp for one, the same for all of them, and nothing
/// else has changed.
pub open spec fn all_closed(before: Seq<GameRow>, after: Seq<GameRow>) -> bool {
    &&& after.len() == before.len()
    &&& forall|i: int|
        0 <= i < before.len() ==> {
            &&& (#[trigger] after[i]).id == before[i].id
            &&& after[i].start_date == before[i].start_date
            &&& after[i].description == before[i].description
            &&& before[i].end_date is Some ==> after[i].end_date == before[i].end_date
            &&& before[i].end_date is None ==> after[i].end_date is Some && is_timestamp(
                after[i].end_date->0,
            )
        }
    &&& forall|i: int, j: int|
        0 <= i < j < before.len() && before[i].end_date is None && before[j].end_date is None
            ==> (#[trigger] after[i]).end_date == (#[trigger] after[j]).end_date
}

/// The largest identifier among the games; of no game, 0.
pub open spec fn largest_id(games: Seq<GameRow>) -> int
    decreases games.len(),
{
    if games.len() == 0 {
        0
    } else if games.len() == 1 {
        games[0].id
    } else if games.last().id > largest_id(games.drop_last()) {
        games.last().id
    } else {
        largest_id(games.drop_last())
    }
}

/// `after` is `before` with one more game: an active one with the
/// identifier `id`, which no earlier game has, and the given description.
/// The first game gets 1, a later one the largest identifier and one,
/// unless that is the largest identifier there is.
pub open spec fn game_added(
    before: Seq<GameRow>,
    after: Seq<GameRow>,
    description: Seq<char>,
    id: int,
) -> bool {
    &&& after.len() == before.len() + 1
    &&& after.drop_last() == before
    &&& after.last().id == id
    &&& after.last().end_date is None
    &&& after.last().description == Some(description)
    &&& is_timestamp(after.last().start_date)
    &&& forall|k: int| 0 <= k < before.len() ==> (#[trigger] before[k]).id != id
    &&& before.len() == 0 ==> id == 1
    &&& before.len() > 0 && largest_id(before) < i64::MAX ==> id == largest_id(before) + 1
}

/// `after` is what a started game leaves of `before`: the earlier games all
/// closed, and behind them the new game, the only active one. Its
/// identifier is new, and larger than the others unless one of them is the
/// largest identifier there is.
pub open spec fn game_started(before: Seq<GameRow>, after: Seq<GameRow>, description: Seq<char>) -> bool {
    &&& after.len() == before.len() + 1
    &&& all_closed(before, after.drop_last())
    &&& after.last().description == Some(description)
    &&& is_timestamp(after.last().start_date)
    &&& forall|k: int| 0 <= k < before.len() ==> (#[trigger] before[k]).id != after.last().id
    &&& (forall|k: int| 0 <= k < before.len() ==> (#[trigger] before[k]).id < i64::MAX) ==> (forall|
        k: int,
    |
        0 <= k < before.len() ==> (#[trigger] before[k]).id < after.last().id)
    &&& forall|i: int| 0 <= i < after.len() ==> (is_active(after, i) <==> i == after.len() - 1)
}

/// `after` is `before` with one more transaction at its end, dated with a
/// timestamp.
pub open spec fn transaction_added(
    before: Seq<TransactionRow>,
    after: Seq<TransactionRow>,
    game_id: int,
    user_id: Seq<char>,
    amount: int,
) -> bool {
    &&& after.len() == before.len() + 1
    &&& after.drop_last() == before
    &&& after.last().game_id == game_id
    &&& after.last().user_id == user_id
    &&& after.last().amount == amount
    &&& is_timestamp(after.last().date)
}

/// A value handed to the engine with a statement.
pub ghost enum Value {
    Integer(int),
    Text(Seq<char>),
}

/// A unit of work as the engine gets it: the statements in their order, the
/// values bound to them, and the row identifier that the engine answered
/// with, where it was asked for one.
pub ghost struct Request {
    pub statements: Seq<Seq<char>>,
    pub values: Seq<Value>,
    pub row_id: Option<int>,
}

/// A unit of work of the store.
pub ghost enum Step {
    /// The two tables are created where they are missing.
    CreateTables,
    /// Every active game is closed.
    CloseGames,
    /// A game is added; the engine answered with `id`.
    AddGame { description: Seq<char>, id: int },
    /// A transaction is added.
    AddTransaction { game_id: int, user_id: Seq<char>, amount: int },
    /// All transactions are read.
    ReadHistory,
    /// The profit report is read.
    ReadProfit,
    /// The daily profit report is read.
    ReadProfitByDay,
}

/// A statement without values and without an answer of its own.
pub open spec fn plain_request(statement: Seq<char>) -> Request {
    Request { statements: seq![statement], values: Seq::empty(), row_id: None }
}

/// What a unit of work hands to the engine.
pub open spec fn request_of(step: Step) -> Request {
    match step {
        Step::CreateTables => Request {
            statements: seq![create_games_text(), create_transactions_text()],
            values: Seq::empty(),
            row_id: None,
        },
        Step::CloseGames => plain_request(close_games_text()),
        Step::AddGame { description, id } => Request {
            statements: seq![add_game_text()],
            values: seq![Value::Text(description)],
            row_id: Some(id),
        },
        Step::AddTransaction { game_id, user_id, amount } => Request {
            statements: seq![add_transaction_text()],
            values: seq![Value::Integer(game_id), Value::Text(user_id), Value::Integer(amount)],
            row_id: None,
        },
        Step::ReadHistory => plain_request(history_text()),
        Step::ReadProfit => plain_request(profit_text()),
        Step::ReadProfitByDay => plain_request(profit_by_day_text()),
    }
}

/// The two tables of a database, as plain values.
pub ghost struct Tables {
    pub games: Seq<GameRow>,
    pub transactions: Seq<TransactionRow>,
}

/// What a unit of work does to the tables, where nothing else writes to
/// them meanwhile: `after` is what `step` makes of `before`. Reading
/// changes nothing.
pub open spec fn step_effect(before: Tables, step: Step, after: Tables) -> bool {
    match step {
        Step::CloseGames => all_closed(before.games, after.games) && after.transactions
            == before.transactions,
        Step::AddGame { description, id } => game_added(before.games, after.games, description, id)
            && after.transactions == before.transactions,
        Step::AddTransaction { game_id, user_id, amount } => transaction_added(
            before.transactions,
            after.transactions,
            game_id,
            user_id,
            amount,
        ) && after.games == before.games,
        _ => after == before,
    }
}

/// The two units of work of a started game: the active games are closed,
/// then the new game is added.
pub open spec fn start_steps(description: Seq<char>, id: int) -> Seq<Step> {
    seq![Step::CloseGames, Step::AddGame { description, id }]
}

/// What a started game hands to the engine, in order.
pub open spec fn start_requests(description: Seq<char>, id: int) -> Seq<Request> {
    seq![request_of(Step::CloseGames), request_of(Step::AddGame { description, id })]
}

} // verus!
