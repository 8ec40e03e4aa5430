//! The store: one SQLite connection and the units of work that run on it.

use vstd::prelude::*;
use vstd::string::*;
use rusqlite::{Connection, Error};
use crate::model::{
    latest_day_first, latest_first, request_of, users_ascending, DayProfitRow, ProfitRow, Request,
    Step, TransactionRow,
};
use crate::order::{is_latest_day_first, is_latest_first, is_users_ascending};
use crate::sqlite::{
    asked, error_text, open_connection, query_profit, query_profit_by_day, query_transactions,
    run_insert, run_unit, run_with_values, texts_of,
};
use crate::statements::{
    add_game_statement, add_transaction_statement, close_games_statement,
    create_games_statement, create_transactions_statement, history_statement,
    profit_by_day_statement, profit_statement,
};

verus! {

/// A transaction as it is stored: a signed amount of the smallest unit of
/// money, booked for a user in a game at a moment.
#[derive(Clone, Debug, PartialEq, Eq)]
pub struct GameTransaction {
    pub game_id: i64,
    pub user_id: String,
    pub amount: i64,
    pub date: String,
}

/// A user and the sum of all their amounts.
#[derive(Clone, Debug, PartialEq, Eq)]
pub struct GameProfit {
    pub user_id: String,
    pub amount: i64,
}

/// A user, a calendar day and the sum of the user's amounts on that day.
#[derive(Clone, Debug, PartialEq, Eq)]
pub struct GameProfitByDay {
    pub user_id: String,
    pub date: String,
    pub amount: i64,
}

/// The one kind of failure: the database could not do what was asked.
/// `message` is the engine's own description.
#[derive(Clone, Debug, PartialEq, Eq)]
pub struct StorageError {
    pub message: String,
}

impl View for GameTransaction {
    type V = TransactionRow;

    open spec fn view(&self) -> TransactionRow {
        TransactionRow {
            game_id: self.game_id as int,
            user_id: self.user_id@,
            amount: self.amount as int,
            date: self.date@,
        }
    }
}

impl View for GameProfit {
    type V = ProfitRow;

    open spec fn view(&self) -> ProfitRow {
        ProfitRow { user_id: self.user_id@, amount: self.amount as int }
    }
}

impl View for GameProfitByDay {
    type V = DayProfitRow;

    open spec fn view(&self) -> DayProfitRow {
        DayProfitRow { user_id: self.user_id@, date: self.date@, amount: self.amount as int }
    }
}

/// The rows that a list of transactions stands for.
pub open spec fn history_of(v: Seq<GameTransaction>) -> Seq<TransactionRow> {
    Seq::new(v.len(), |i: int| v[i]@)
}

/// The lines that a profit report stands for.
pub open spec fn profits_of(v: Seq<GameProfit>) -> Seq<ProfitRow> {
    Seq::new(v.len(), |i: int| v[i]@)
}

/// The lines that a daily profit report stands for.
pub open spec fn days_of(v: Seq<GameProfitByDay>) -> Seq<DayProfitRow> {
    Seq::new(v.len(), |i: int| v[i]@)
}

/// Turns an answer of the engine into the store's own: a success stays
/// what it is, a failure becomes a `StorageError` with the engine's
/// description. Nothing is tried again.
fn from_engine<T>(answer: Result<T, Error>) -> (r: Result<T, StorageError>)
    ensures
        match answer {
            Ok(value) => r == Ok::<T, StorageError>(value),
            Err(_) => r is Err,
        },
{
    match answer {
        Ok(value) => Ok(value),
        Err(e) => Err(StorageError { message: error_text(&e) }),
    }
}

/// What the store says where the engine's rows do not stand in the order
/// that they were asked for in.
pub open spec fn out_of_order_text() -> Seq<char> {
    "the database orders its texts in another way than the store"@
}

/// The failure for rows that do not stand in the order asked for.
fn out_of_order() -> (r: StorageError)
    ensures
        r.message@ == out_of_order_text(),
{
    StorageError {
        message: String::from_str("the database orders its texts in another way than the store"),
    }
}

/// Hands on the transactions that the engine returned where they stand the
/// latest first, as texts compare, and refuses them where they do not: the
/// engine orders by the collation and encoding of the database at hand.
pub fn ordered_history(rows: Vec<GameTransaction>) -> (r: Result<
    Vec<GameTransaction>,
    StorageError,
>)
    ensures
        latest_first(history_of(rows@)) ==> r == Ok::<Vec<GameTransaction>, StorageError>(rows),
        !latest_first(history_of(rows@)) ==> (r matches Err(e) && e.message@
            == out_of_order_text()),
{
    if is_latest_first(&rows) {
        Ok(rows)
    } else {
        Err(out_of_order())
    }
}

/// Hands on the profit report that the engine returned where its users
/// stand in strictly ascending order, and refuses it where they do not.
pub fn ordered_profit(rows: Vec<GameProfit>) -> (r: Result<Vec<GameProfit>, StorageError>)
    ensures
        users_ascending(profits_of(rows@)) ==> r == Ok::<Vec<GameProfit>, StorageError>(rows),
        !users_ascending(profits_of(rows@)) ==> (r matches Err(e) && e.message@
            == out_of_order_text()),
{
    if is_users_ascending(&rows) {
        Ok(rows)
    } else {
        Err(out_of_order())
    }
}

/// Hands on the daily profit report that the engine returned where it
/// stands the latest day first, and refuses it where it does not.
pub fn ordered_profit_by_day(rows: Vec<GameProfitByDay>) -> (r: Result<
    Vec<GameProfitByDay>,
    StorageError,
>)
    ensures
        latest_day_first(days_of(rows@)) ==> r == Ok::<Vec<GameProfitByDay>, StorageError>(rows),
        !latest_day_first(days_of(rows@)) ==> (r matches Err(e) && e.message@
            == out_of_order_text()),
{
    if is_latest_day_first(&rows) {
        Ok(rows)
    } else {
        Err(out_of_order())
    }
}

/// The store. It owns the connection; every operation is one unit of work
/// on it, and every failure of the database comes back as it is, without a
/// second try.
pub struct Db {
    conn: Connection,
}

impl Db {
    /// What the engine has done for this store: each unit of work with its
    /// statements and values, the first one first. A unit that failed is
    /// not among them. It says nothing of what the database holds, which
    /// other connections may change.
    pub closed spec fn done(&self) -> Seq<Request> {
        asked(self.conn)
    }

    /// Opens the database at `path` and has its two tables created where
    /// they are missing. What a database holds that was there before is not
    /// known.
    pub fn new(path: &str) -> (r: Result<Db, StorageError>)
        ensures
            r matches Ok(db) ==> db.done() == seq![request_of(Step::CreateTables)],
    {
        match from_engine(open_connection(path)) {
            Ok(conn) => {
                let mut db = Db { conn };
                match db.initialize() {
                    Ok(()) => {
                        assert(db.done() =~= seq![request_of(Step::CreateTables)]);
                        Ok(db)
                    },
                    Err(e) => Err(e),
                }
            },
            Err(e) => Err(e),
        }
    }

    /// Has the two tables created where they are missing, both in one unit
    /// of work.
    pub fn initialize(&mut self) -> (r: Result<(), StorageError>)
        ensures
            r is Ok ==> final(self).done() == old(self).done().push(request_of(Step::CreateTables)),
            r is Err ==> final(self).done() == old(self).done(),
    {
        let statements = vec![create_games_statement(), create_transactions_statement()];
        assert(texts_of(statements@) =~= request_of(Step::CreateTables).statements);
        from_engine(run_unit(&mut self.conn, &statements))
    }

    /// Has every active game closed: each game without an end date gets
    /// the current time for one. That there is none to close is no failure.
    pub fn close_active_games(&mut self) -> (r: Result<(), StorageError>)
        ensures
            r is Ok ==> final(self).done() == old(self).done().push(request_of(Step::CloseGames)),
            r is Err ==> final(self).done() == old(self).done(),
    {
        let statements = vec![close_games_statement()];
        assert(texts_of(statements@) =~= request_of(Step::CloseGames).statements);
        from_engine(run_unit(&mut self.conn, &statements))
    }

    /// Has a new, active game stored that starts now, with the description
    /// as it is given, and returns the identifier that the engine gave it.
    pub fn new_game(&mut self, description: &str) -> (r: Result<i64, StorageError>)
        ensures
            match r {
                Ok(id) => final(self).done() == old(self).done().push(
                    request_of(Step::AddGame { description: description@, id: id as int }),
                ),
                Err(_) => final(self).done() == old(self).done(),
            },
    {
        from_engine(run_insert(&mut self.conn, add_game_statement(), description))
    }

    /// Has a transaction stored that is dated now, with game, user and
    /// amount as they are given. The game need not be active, nor is it
    /// looked up.
    pub fn save_transaction(&mut self, game_id: i64, user_id: &str, amount: i64) -> (r: Result<
        (),
        StorageError,
    >)
        ensures
            r is Ok ==> final(self).done() == old(self).done().push(
                request_of(
                    Step::AddTransaction {
                        game_id: game_id as int,
                        user_id: user_id@,
                        amount: amount as int,
                    },
                ),
            ),
            r is Err ==> final(self).done() == old(self).done(),
    {
        from_engine(
            run_with_values(&mut self.conn, add_transaction_statement(), game_id, user_id, amount),
        )
    }

    /// All transactions, the latest first. The engine is asked for them in
    /// this order and for nothing else; rows that come in another order are
    /// refused.
    pub fn get_all_transactions(&mut self) -> (r: Result<Vec<GameTransaction>, StorageError>)
        ensures
            r matches Ok(v) ==> latest_first(history_of(v@)) && final(self).done() == old(
                self,
            ).done().push(request_of(Step::ReadHistory)),
            r is Err ==> final(self).done() == old(self).done() || final(self).done() == old(
                self,
            ).done().push(request_of(Step::ReadHistory)),
    {
        match from_engine(query_transactions(&mut self.conn, history_statement())) {
            Ok(rows) => ordered_history(rows),
            Err(e) => Err(e),
        }
    }

    /// For each user the sum of their amounts over all games, as the engine
    /// computes it, the users in strictly ascending order. The engine is
    /// asked for this and for nothing else; rows that come in another order
    /// are refused.
    pub fn get_profit(&mut self) -> (r: Result<Vec<GameProfit>, StorageError>)
        ensures
            r matches Ok(v) ==> users_ascending(profits_of(v@)) && final(self).done() == old(
                self,
            ).done().push(request_of(Step::ReadProfit)),
            r is Err ==> final(self).done() == old(self).done() || final(self).done() == old(
                self,
            ).done().push(request_of(Step::ReadProfit)),
    {
        match from_engine(query_profit(&mut self.conn, profit_statement())) {
            Ok(rows) => ordered_profit(rows),
            Err(e) => Err(e),
        }
    }

    /// For each user and day the sum of the user's amounts on that day, as
    /// the engine computes it, the latest day first. The engine is asked
    /// for this and for nothing else; rows that come in another order are
    /// refused.
    pub fn get_profit_by_day(&mut self) -> (r: Result<Vec<GameProfitByDay>, StorageError>)
        ensures
            r matches Ok(v) ==> latest_day_first(days_of(v@)) && final(self).done() == old(
                self,
            ).done().push(request_of(Step::ReadProfitByDay)),
            r is Err ==> final(self).done() == old(self).done() || final(self).done() == old(
                self,
            ).done().push(request_of(Step::ReadProfitByDay)),
    {
        match from_engine(query_profit_by_day(&mut self.conn, profit_by_day_statement())) {
            Ok(rows) => ordered_profit_by_day(rows),
            Err(e) => Err(e),
        }
    }
}

} // verus!
