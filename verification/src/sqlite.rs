//! Trusted declarations over `rusqlite`: the opaque connection type,
//! opening a store, and the one keyed-JSON query shape the reference
//! database is read with.

use vstd::prelude::*;

verus! {

#[verifier::external_type_specification]
#[verifier::external_body]
pub struct ExConnection(rusqlite::Connection);

/// Relies on rusqlite::Connection::open: opens the SQLite store at the
/// given path; any `rusqlite::Error` is reported as an absence.
#[verifier::external_body]
pub(crate) fn open_connection(path: &str) -> Option<rusqlite::Connection> {
    match rusqlite::Connection::open(path) {
        Ok(c) => Some(c),
        Err(_) => None,
    }
}

/// Relies on rusqlite::Connection::prepare_cached and
/// rusqlite::Statement::query_row, over one `select json ... where id
/// = ?1` statement: `Ok(Some)` is the JSON column of the row under the
/// key, `Ok(None)` a table without one, and `Err` any other
/// `rusqlite::Error` of the query.
#[verifier::external_body]
pub(crate) fn query_json_by_id(conn: &rusqlite::Connection, sql: &str, id: i64) -> Result<
    Option<String>,
    (),
> {
    let mut stmt = match conn.prepare_cached(sql) {
        Ok(s) => s,
        Err(_) => {
            return Err(());
        },
    };
    match stmt.query_row([id], |row| row.get(0)) {
        Ok(json) => Ok(Some(json)),
        Err(rusqlite::Error::QueryReturnedNoRows) => Ok(None),
        Err(_) => Err(()),
    }
}

} // verus!
