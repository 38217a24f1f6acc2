use vstd::prelude::*;

use crate::error::Error;
use crate::value::SqlValue;

verus! {

// ---------------------------------------------------------------------------
// Declarations of the backend's types. Verus treats their values as opaque:
// everything this layer knows about them is stated on the wrappers below.
// ---------------------------------------------------------------------------

#[verifier::external_type_specification]
#[verifier::external_body]
pub struct ExConnection(rusqlite::Connection);

#[verifier::external_type_specification]
#[verifier::external_body]
pub struct ExSavepoint<'conn>(rusqlite::Savepoint<'conn>);

#[verifier::external_type_specification]
#[verifier::external_body]
pub struct ExStatement<'conn>(rusqlite::Statement<'conn>);

#[verifier::external_type_specification]
#[verifier::external_body]
pub struct ExRow<'stmt>(rusqlite::Row<'stmt>);

#[verifier::external_type_specification]
#[verifier::external_body]
pub struct ExDynValue(rusqlite::types::Value);

// ---------------------------------------------------------------------------
// Wrappers around the backend calls. Each one holds a single call, plus the
// conversion of its arguments and result: a backend failure comes back as
// this layer's error kind carrying the backend's message. The wrappers are
// trusted, not verified: what a statement does to the database depends on the
// database itself, so the callers state only what holds of every outcome.
// ---------------------------------------------------------------------------

/// Relies on rusqlite::types::Value: it has one variant for each of ours.
#[verifier::external_body]
pub(crate) fn value_to_sql(v: &SqlValue) -> rusqlite::types::Value {
    match v {
        SqlValue::Null => rusqlite::types::Value::Null,
        SqlValue::Integer(i) => rusqlite::types::Value::Integer(*i),
        SqlValue::Text(s) => rusqlite::types::Value::Text(s.clone()),
        SqlValue::Blob(b) => rusqlite::types::Value::Blob(b.clone()),
    }
}

/// Relies on rusqlite::Row::get with rusqlite::types::Value, which hands each
/// column back in its dynamic type: one variant maps to each of ours. A
/// real-valued column has no place in this layer (it stores integers, text
/// and blobs) and is reported as an error rather than converted.
#[verifier::external_body]
pub(crate) fn row_values(row: &rusqlite::Row<'_>) -> Result<Vec<SqlValue>, Error> {
    let n = row.as_ref().column_count();
    let mut out = Vec::with_capacity(n);
    for i in 0..n {
        match row.get::<usize, rusqlite::types::Value>(i).map_err(|e| Error::DatabaseError(e.to_string()))? {
            rusqlite::types::Value::Null => out.push(SqlValue::Null),
            rusqlite::types::Value::Integer(v) => out.push(SqlValue::Integer(v)),
            rusqlite::types::Value::Text(v) => out.push(SqlValue::Text(v)),
            rusqlite::types::Value::Blob(v) => out.push(SqlValue::Blob(v)),
            rusqlite::types::Value::Real(_) => return Err(Error::DatabaseError("unsupported real-valued column".to_string())),
        }
    }
    Ok(out)
}

/// Relies on the Deref impl of rusqlite::Savepoint, which exposes the
/// connection the savepoint was opened on; statements run through it take
/// effect inside the savepoint, the innermost open transaction level.
#[verifier::external_body]
pub(crate) fn savepoint_connection<'a>(sp: &'a rusqlite::Savepoint<'_>) -> &'a rusqlite::Connection {
    sp
}

/// Relies on rusqlite::Connection::execute: it runs one mutating statement
/// with the given parameters and returns the affected-row count, or the
/// backend's error.
#[verifier::external_body]
pub(crate) fn conn_execute(
    conn: &rusqlite::Connection,
    sql: &str,
    params: &[SqlValue],
) -> Result<usize, Error> {
    conn.execute(sql, rusqlite::params_from_iter(params.iter().map(value_to_sql)))
        .map_err(|e| Error::DatabaseError(e.to_string()))
}

/// Relies on rusqlite::Connection::execute_batch: it runs a script of
/// statements that bind no parameters, stopping at the first failure.
#[verifier::external_body]
pub(crate) fn conn_execute_batch(conn: &rusqlite::Connection, sql: &str) -> Result<(), Error> {
    conn.execute_batch(sql).map_err(|e| Error::DatabaseError(e.to_string()))
}

/// Relies on rusqlite::Connection::query_one: it runs the statement and hands
/// the single resulting row to a closure that only converts it to our values,
/// failing if the statement returns no row or more than one.
#[verifier::external_body]
pub(crate) fn conn_query_one(
    conn: &rusqlite::Connection,
    sql: &str,
    params: &[SqlValue],
) -> Result<Vec<SqlValue>, Error> {
    let bound = rusqlite::params_from_iter(params.iter().map(value_to_sql));
    match conn.query_one(sql, bound, |row| Ok(row_values(row))) {
        Ok(converted) => converted,
        Err(e) => Err(Error::DatabaseError(e.to_string())),
    }
}

/// Relies on rusqlite::Connection::prepare: it compiles one statement for
/// later use, or reports the backend's error.
#[verifier::external_body]
pub(crate) fn conn_prepare<'c>(conn: &'c rusqlite::Connection, sql: &str) -> Result<
    rusqlite::Statement<'c>,
    Error,
> {
    conn.prepare(sql).map_err(|e| Error::DatabaseError(e.to_string()))
}

/// Relies on rusqlite::Connection::last_insert_rowid: it reports the rowid of
/// the most recent successful insert on this connection, or zero if there has
/// been none.
#[verifier::external_body]
pub(crate) fn conn_last_insert_rowid(conn: &rusqlite::Connection) -> i64 {
    conn.last_insert_rowid()
}

/// Relies on rusqlite::Connection::savepoint: it opens a savepoint on the
/// connection; the savepoint holds the connection borrowed for its lifetime
/// and rolls its level back when dropped without a commit.
#[verifier::external_body]
pub(crate) fn conn_savepoint<'c>(conn: &'c mut rusqlite::Connection) -> Result<
    rusqlite::Savepoint<'c>,
    Error,
> {
    conn.savepoint().map_err(|e| Error::DatabaseError(e.to_string()))
}

/// Relies on rusqlite::Savepoint::savepoint: it opens a further savepoint
/// nested inside this one, with the same borrow and rollback-on-drop
/// behaviour as one opened on the connection.
#[verifier::external_body]
pub(crate) fn sp_savepoint<'c>(sp: &'c mut rusqlite::Savepoint<'_>) -> Result<
    rusqlite::Savepoint<'c>,
    Error,
> {
    sp.savepoint().map_err(|e| Error::DatabaseError(e.to_string()))
}

/// Relies on rusqlite::Savepoint::commit: it releases the savepoint, folding
/// this level's effects into the enclosing scope, and consumes it.
#[verifier::external_body]
pub(crate) fn sp_commit(sp: rusqlite::Savepoint<'_>) -> Result<(), Error> {
    sp.commit().map_err(|e| Error::DatabaseError(e.to_string()))
}

} // verus!
