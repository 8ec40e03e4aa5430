//! The database engine. Everything here is believed, not proved: each
//! function hands the engine one unit of work on an SQLite connection, with
//! the statements and values that its caller gives it.
//!
//! What the database holds is not a property of a connection: another
//! connection or another process may write to the same file at any time. So
//! no contract here speaks of stored rows, nor of the rows that a query
//! returns. What a contract does say is what was handed to the engine.

use vstd::prelude::*;
use rusqlite::{Connection, Error};
use crate::model::{plain_request, Request, Value};
use crate::db::{GameProfit, GameProfitByDay, GameTransaction};

verus! {

/// An open connection to an SQLite database.
#[verifier::external_type_specification]
#[verifier::external_body]
pub struct ExConnection(rusqlite::Connection);

/// Whatever went wrong inside the database engine.
#[verifier::external_type_specification]
#[verifier::external_body]
pub struct ExError(rusqlite::Error);

/// The units of work that the functions below have handed to the engine
/// through this connection and that the engine has reported done, the
/// first one first. It is a record of calls: it says nothing of what the
/// database holds.
pub uninterp spec fn asked(conn: Connection) -> Seq<Request>;

/// The texts of the statements.
pub open spec fn texts_of(statements: Seq<&str>) -> Seq<Seq<char>> {
    Seq::new(statements.len(), |i: int| statements[i]@)
}

/// `Connection::open`: opens the database file at `path`, creating it if
/// there is none. Nothing is claimed of what the file holds. Claimed:
/// nothing has been asked through a connection that was just opened.
#[verifier::external_body]
pub(crate) fn open_connection(path: &str) -> (r: Result<Connection, Error>)
    ensures
        r matches Ok(conn) ==> asked(conn) == Seq::<Request>::empty(),
{
    Connection::open(path)
}

/// The `Display` text of an `Error`. Nothing is claimed of it.
#[verifier::external_body]
pub(crate) fn error_text(e: &Error) -> (r: String) {
    e.to_string()
}

/// `Connection::transaction`, `Connection::execute` on each statement in
/// turn, without values, and `Transaction::commit`. Claimed: on success
/// the record has one more unit, these statements; on failure none.
#[verifier::external_body]
pub(crate) fn run_unit(conn: &mut Connection, statements: &Vec<&str>) -> (r: Result<(), Error>)
    ensures
        r is Ok ==> asked(*final(conn)) == asked(*old(conn)).push(
            (Request { statements: texts_of(statements@), values: Seq::empty(), row_id: None }),
        ),
        r is Err ==> asked(*final(conn)) == asked(*old(conn)),
{
    let tx = conn.transaction()?;
    for statement in statements.iter() {
        tx.execute(statement, ())?;
    }
    tx.commit()
}

/// `Connection::transaction`, `Connection::execute` on the statement with
/// one text bound to it, `Transaction::commit`, then
/// `Connection::last_insert_rowid`. Claimed: on success the record has one
/// more unit, this statement with this text and the row identifier that is
/// returned; on failure none.
#[verifier::external_body]
pub(crate) fn run_insert(conn: &mut Connection, statement: &str, text: &str) -> (r: Result<
    i64,
    Error,
>)
    ensures
        match r {
            Ok(id) => asked(*final(conn)) == asked(*old(conn)).push(
                (Request {
                    statements: seq![statement@],
                    values: seq![Value::Text(text@)],
                    row_id: Some(id as int),
                }),
            ),
            Err(_) => asked(*final(conn)) == asked(*old(conn)),
        },
{
    let tx = conn.transaction()?;
    tx.execute(statement, [text])?;
    tx.commit()?;
    Ok(conn.last_insert_rowid())
}

/// `Connection::transaction`, `Connection::execute` on the statement with
/// an integer, a text and an integer bound to it in this order, and
/// `Transaction::commit`. Claimed: on success the record has one more
/// unit, this statement with these three values; on failure none.
#[verifier::external_body]
pub(crate) fn run_with_values(
    conn: &mut Connection,
    statement: &str,
    first: i64,
    second: &str,
    third: i64,
) -> (r: Result<(), Error>)
    ensures
        r is Ok ==> asked(*final(conn)) == asked(*old(conn)).push(
            (Request {
                statements: seq![statement@],
                values: seq![
                    Value::Integer(first as int),
                    Value::Text(second@),
                    Value::Integer(third as int),
                ],
                row_id: None,
            }),
        ),
        r is Err ==> asked(*final(conn)) == asked(*old(conn)),
{
    let tx = conn.transaction()?;
    tx.execute(statement, (first, second, third))?;
    tx.commit()
}

/// `Connection::prepare` and `Statement::query_map` on the statement, each
/// row read as an integer, a text, an integer and a text. Claimed: on
/// success the record has one more unit, this statement; on failure none.
/// Nothing is claimed of the rows.
#[verifier::external_body]
pub(crate) fn query_transactions(conn: &mut Connection, statement: &str) -> (r: Result<
    Vec<GameTransaction>,
    Error,
>)
    ensures
        r is Ok ==> asked(*final(conn)) == asked(*old(conn)).push(plain_request(statement@)),
        r is Err ==> asked(*final(conn)) == asked(*old(conn)),
{
    let tx = conn.transaction()?;
    let mut stmt = tx.prepare(statement)?;
    let iter = stmt.query_map([], |row| {
        Ok(GameTransaction { game_id: row.get(0)?, user_id: row.get(1)?, amount: row.get(2)?, date: row.get(3)? })
    })?;
    iter.collect()
}

/// `Connection::prepare` and `Statement::query_map` on the statement, each
/// row read as a text and an integer. Claimed: on success the record has
/// one more unit, this statement; on failure none. Nothing is claimed of
/// the rows.
#[verifier::external_body]
pub(crate) fn query_profit(conn: &mut Connection, statement: &str) -> (r: Result<
    Vec<GameProfit>,
    Error,
>)
    ensures
        r is Ok ==> asked(*final(conn)) == asked(*old(conn)).push(plain_request(statement@)),
        r is Err ==> asked(*final(conn)) == asked(*old(conn)),
{
    let tx = conn.transaction()?;
    let mut stmt = tx.prepare(statement)?;
    let iter = stmt.query_map([], |row| {
        Ok(GameProfit { user_id: row.get(0)?, amount: row.get(1)? })
    })?;
    iter.collect()
}

/// `Connection::prepare` and `Statement::query_map` on the statement, each
/// row read as a text, a text and an integer. Claimed: on success the
/// record has one more unit, this statement; on failure none. Nothing is
/// claimed of the rows.
#[verifier::external_body]
pub(crate) fn query_profit_by_day(conn: &mut Connection, statement: &str) -> (r: Result<
    Vec<GameProfitByDay>,
    Error,
>)
    ensures
        r is Ok ==> asked(*final(conn)) == asked(*old(conn)).push(plain_request(statement@)),
        r is Err ==> asked(*final(conn)) == asked(*old(conn)),
{
    let tx = conn.transaction()?;
    let mut stmt = tx.prepare(statement)?;
    let iter = stmt.query_map([], |row| {
        Ok(GameProfitByDay { user_id: row.get(0)?, date: row.get(1)?, amount: row.get(2)? })
    })?;
    iter.collect()
}

} // verus!
