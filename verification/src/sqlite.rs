//! The calls into SQLite. Nothing in this file is proved: each contract is
//! taken on trust from the `rusqlite` crate.

use rusqlite::types::Value;
use rusqlite::Connection;
use vstd::prelude::*;

verus! {

/// An open database. Its tables live on disk and other processes write to
/// them, so no contract speaks of what they hold.
#[verifier::external_type_specification]
#[verifier::external_body]
pub struct ExConnection(Connection);

/// One value of a row or of a statement's parameters. The enum is read as
/// `rusqlite` declares it, so verified code builds and matches its variants.
#[verifier::external_type_specification]
pub struct ExValue(Value);

/// Why a call into SQLite failed: the extended result code, where the
/// failure came from SQLite itself, and the text that `rusqlite` gives its
/// error.
#[derive(Debug)]
pub struct SqlFailure {
    pub code: Option<i32>,
    pub message: String,
}

/// `Connection::open`: opens the database at `path`, creating the file when
/// it does not exist. Nothing is claimed of the outcome.
#[verifier::external_body]
pub(crate) fn open(path: &str) -> (r: Result<Connection, SqlFailure>) {
    Connection::open(path)
        .map_err(|e| SqlFailure { code: e.sqlite_extended_error_code(), message: e.to_string() })
}

/// `Connection::execute`: prepares `sql`, binds `params` to its placeholders
/// from left to right and runs it; the count of changed rows comes back.
/// Nothing is claimed of the outcome.
#[verifier::external_body]
pub(crate) fn execute(conn: &Connection, sql: &str, params: &Vec<Value>) -> (r: Result<
    usize,
    SqlFailure,
>) {
    conn.execute(sql, rusqlite::params_from_iter(params.iter()))
        .map_err(|e| SqlFailure { code: e.sqlite_extended_error_code(), message: e.to_string() })
}

/// `Connection::prepare`, `Statement::query_map` and `Row::get`: runs the
/// query `sql`, which takes no parameters, and hands out every row as the
/// list of its column values, in the order SQLite delivered them. Nothing is
/// claimed of the outcome.
#[verifier::external_body]
pub(crate) fn select(conn: &Connection, sql: &str) -> (r: Result<Vec<Vec<Value>>, SqlFailure>) {
    let rows = conn.prepare(sql).and_then(|mut stmt| {
        let width = stmt.column_count();
        let rows = stmt.query_map([], |row| (0..width).map(|i| row.get(i)).collect())?;
        rows.collect()
    });
    rows.map_err(|e| SqlFailure { code: e.sqlite_extended_error_code(), message: e.to_string() })
}

} // verus!
