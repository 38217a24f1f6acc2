use vstd::prelude::*;

verus! {

/// A value bound to, or read back from, a SQL statement: the dynamic types
/// this storage layer traffics in. Keys and counters are integers, names are
/// text, and persisted payloads are byte blobs.
#[derive(Debug, Clone, PartialEq, Eq)]
pub enum SqlValue {
    /// The SQL NULL value.
    Null,
    /// A signed 64-bit integer.
    Integer(i64),
    /// A text string.
    Text(String),
    /// A blob of bytes.
    Blob(Vec<u8>),
}

} // verus!
