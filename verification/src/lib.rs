//! A nested-transaction connection wrapper for SQLite.
//!
//! One handle type, [`DbConnection`], stands for either the root connection
//! or an arbitrarily deep chain of nested transactions, implemented as
//! stacked savepoints. Opening a nested transaction hands out a child handle
//! that borrows its parent exclusively, so the parent cannot be touched while
//! the child is open; committing a child folds its level into the enclosing
//! scope, and dropping it without a commit rolls that one level back.
//!
//! The handle's state machine and its error reporting are verified; the
//! backend calls themselves stand behind a small trusted layer.

mod db_connection;
mod error;
mod sqlite;
mod value;

pub use db_connection::DbConnection;
pub use error::Error;
pub use value::SqlValue;
