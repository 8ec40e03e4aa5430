//! A ledger of games and of the money that players win or lose in them, kept
//! in an SQLite database.
//!
//! `model` describes tables, reports and units of work as mathematical
//! values, `statements` holds the statements of the store word for word,
//! `sqlite` hands them to the database engine, `order` decides the order of
//! texts, `db` is the store, `game` the ledger on top of it, and `laws`
//! proves what holds of the model.
//!
//! A database is shared: what it holds is never a property of one handle.
//! So the contracts of the store and of the ledger say what was handed to
//! the engine, with which values and in which order, and in which order the
//! rows of a report stand; the model says what each unit of work makes of a
//! table that nobody else writes to meanwhile.

pub mod model;
pub mod statements;
pub mod sqlite;
pub mod order;
pub mod db;
pub mod game;
pub mod laws;
