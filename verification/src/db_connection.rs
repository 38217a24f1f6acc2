use vstd::prelude::*;
use vstd::string::StringExecFns;

use crate::error::Error;
use crate::sqlite;
use crate::value::SqlValue;

verus! {

/// A handle on the database: either the root connection itself, or one open
/// savepoint nested somewhere above it. Creating a nested transaction hands
/// out a child handle that borrows this one exclusively, so the parent is
/// unusable until the child is committed or dropped; dropping a child without
/// committing rolls its level back.
///
/// The ghost `depth` records how many savepoint levels stand between this
/// handle and the root: zero for the root itself, one more for each nested
/// transaction.
pub struct DbConnection<'conn> {
    connection: UnderlyingDbConnection<'conn>,
    depth: Ghost<nat>,
}

enum UnderlyingDbConnection<'conn> {
    Connection(rusqlite::Connection),
    Savepoint(rusqlite::Savepoint<'conn>),
}

impl<'conn> DbConnection<'conn> {
    /// Whether this handle is the root connection, as opposed to an open
    /// nested transaction.
    pub closed spec fn is_root(self) -> bool {
        self.connection is Connection
    }

    /// How many savepoint levels this handle stands inside: zero at the root.
    pub closed spec fn depth(self) -> nat {
        self.depth@
    }

    /// The handle's one invariant: exactly the root stands at depth zero.
    pub open spec fn wf(self) -> bool {
        self.is_root() <==> self.depth() == 0
    }

    /// The connection everything on this handle runs against: the root
    /// connection itself, or the one underneath the open savepoint, on which
    /// statements take effect inside that savepoint's transaction level.
    fn underlying(&self) -> &rusqlite::Connection {
        match &self.connection {
            UnderlyingDbConnection::Connection(conn) => conn,
            UnderlyingDbConnection::Savepoint(sp) => sqlite::savepoint_connection(sp),
        }
    }

    /// Wrap a freshly opened backend connection as the root handle.
    pub fn new(connection: rusqlite::Connection) -> (r: DbConnection<'conn>)
        ensures
            r.is_root(),
            r.depth() == 0,
            r.wf(),
    {
        DbConnection { connection: UnderlyingDbConnection::Connection(connection), depth: Ghost(0) }
    }

    /// Direct mutable access to the underlying connection, for setup work this
    /// wrapper does not cover (such as running migrations). It succeeds
    /// exactly on the root handle: on a nested transaction it would bypass the
    /// open savepoint, so it is refused with a reported error.
    pub fn as_connection_mut(&mut self) -> (r: Result<&mut rusqlite::Connection, Error>)
        ensures
            old(self).is_root() <==> r matches Ok(_),
            r matches Err(e) ==> e.msg()
                == "Cannot get mutable connection reference while in a transaction"@ && *final(self)
                == *old(self),
            final(self).is_root() == old(self).is_root(),
            final(self).depth() == old(self).depth(),
    {
        match &mut self.connection {
            UnderlyingDbConnection::Connection(conn) => Ok(conn),
            UnderlyingDbConnection::Savepoint(_) => Err(
                Error::DatabaseError(
                    String::from_str(
                        "Cannot get mutable connection reference while in a transaction",
                    ),
                ),
            ),
        }
    }

    /// Run one mutating statement with the given parameters against whatever
    /// this handle stands for, and return the affected-row count. Any backend
    /// failure surfaces as a database error carrying the backend's message;
    /// the handle itself is left as it was either way.
    pub fn execute(&mut self, sql: &str, params: &[SqlValue]) -> (r: Result<usize, Error>)
        ensures
            *final(self) == *old(self),
    {
        sqlite::conn_execute(self.underlying(), sql, params)
    }

    /// Run a script of statements that bind no parameters, with the same
    /// failure behaviour as `execute`.
    pub fn execute_batch(&mut self, sql: &str) -> (r: Result<(), Error>)
        ensures
            *final(self) == *old(self),
    {
        sqlite::conn_execute_batch(self.underlying(), sql)
    }

    /// Run a statement expected to return exactly one row, and apply the
    /// caller's mapping to that row's columns. It fails on any backend error,
    /// when the statement returns no row or more than one, and when the
    /// mapping itself fails; on success the value returned is one the mapping
    /// allows for some row.
    pub fn query_row<T, F: FnOnce(&Vec<SqlValue>) -> Result<T, Error>>(
        &self,
        sql: &str,
        params: &[SqlValue],
        f: F,
    ) -> (r: Result<T, Error>)
        requires
            forall|v: &Vec<SqlValue>| call_requires(f, (v,)),
        ensures
            r matches Ok(t) ==> exists|row: Vec<SqlValue>|
                call_ensures(f, (&row,), Ok::<T, Error>(t)),
    {
        match sqlite::conn_query_one(self.underlying(), sql, params) {
            Ok(row) => {
                let r = f(&row);
                proof {
                    if r is Ok {
                        assert(call_ensures(f, (&row,), Ok::<T, Error>(r->Ok_0)));
                    }
                }
                r
            },
            Err(e) => Err(e),
        }
    }

    /// Compile one statement for reuse on whatever this handle stands for.
    /// A statement the backend refuses is reported as a database error with a
    /// fixed message.
    pub fn prepare(&mut self, sql: &str) -> (r: Result<rusqlite::Statement<'_>, Error>)
        ensures
            r matches Err(e) ==> e.msg() == "Error preparing db connection."@,
            *final(self) == *old(self),
    {
        match sqlite::conn_prepare(self.underlying(), sql) {
            Ok(stmt) => Ok(stmt),
            Err(_) => Err(
                Error::DatabaseError(String::from_str("Error preparing db connection.")),
            ),
        }
    }

    /// The backend-reported identifier of the most recently inserted row on
    /// this connection; zero if nothing was ever inserted.
    pub fn last_insert_rowid(&self) -> i64 {
        sqlite::conn_last_insert_rowid(self.underlying())
    }

    /// Open one new transaction level nested inside this handle, root or
    /// already scoped, and return the handle for it. The new handle borrows
    /// this one exclusively for as long as it lives, and stands one level
    /// deeper; this handle itself is left as it was.
    pub fn new_transaction(&mut self) -> (r: Result<DbConnection<'_>, Error>)
        ensures
            r matches Ok(t) ==> !t.is_root() && t.depth() == old(self).depth() + 1 && t.wf(),
            r matches Err(e) ==> e.msg() == "Error starting transaction."@,
            final(self).is_root() == old(self).is_root(),
            final(self).depth() == old(self).depth(),
    {
        let ghost d: nat = self.depth@;
        let sp_result = match &mut self.connection {
            UnderlyingDbConnection::Connection(conn) => sqlite::conn_savepoint(conn),
            UnderlyingDbConnection::Savepoint(sp) => sqlite::sp_savepoint(sp),
        };
        match sp_result {
            Ok(sp) => Ok(
                DbConnection {
                    connection: UnderlyingDbConnection::Savepoint(sp),
                    depth: Ghost(d + 1),
                },
            ),
            Err(_) => Err(Error::DatabaseError(String::from_str("Error starting transaction."))),
        }
    }

    /// Commit this transaction level, folding its effects into the enclosing
    /// scope, and consume the handle. On the root handle there is no
    /// transaction to commit: that is refused with a reported error, never a
    /// success and never a crash. On a scoped handle it succeeds unless the
    /// backend refuses the release, which is reported with a fixed message.
    pub fn commit(self) -> (r: Result<(), Error>)
        ensures
            self.is_root() ==> (r matches Err(e) && e.msg()
                == "Transaction has not been started. Cannot commit unstarted transaction."@),
            r matches Ok(_) ==> !self.is_root(),
            !self.is_root() ==> r matches Ok(_) || (r matches Err(e) && e.msg()
                == "Error committing transaction."@),
    {
        match self.connection {
            UnderlyingDbConnection::Connection(_) => Err(
                Error::DatabaseError(
                    String::from_str(
                        "Transaction has not been started. Cannot commit unstarted transaction.",
                    ),
                ),
            ),
            UnderlyingDbConnection::Savepoint(savepoint) => match sqlite::sp_commit(savepoint) {
                Ok(()) => Ok(()),
                Err(_) => Err(
                    Error::DatabaseError(String::from_str("Error committing transaction.")),
                ),
            },
        }
    }
}

} // verus!
