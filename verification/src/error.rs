use vstd::prelude::*;
use vstd::string::StringExecFns;

verus! {

/// The one failure kind of this storage layer: a database error carrying a
/// human-readable message, built from whatever the backend reported.
#[derive(Debug)]
pub enum Error {
    DatabaseError(String),
}

impl Error {
    /// The message carried by this error, as a sequence of characters.
    pub open spec fn msg(self) -> Seq<char> {
        match self {
            Error::DatabaseError(m) => m@,
        }
    }

    /// A full description of the error, for reporting: the message under a
    /// fixed prefix that names the failing subsystem.
    pub fn describe(&self) -> (r: String)
        ensures
            r@ == "Database error: "@ + self.msg(),
    {
        let mut out = String::from_str("Database error: ");
        match self {
            Error::DatabaseError(m) => {
                out.append(m.as_str());
            },
        }
        out
    }
}

} // verus!
