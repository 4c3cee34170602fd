//! Database layer error record.
//!
//! Schema creation and migrations belong to the hosting application's SQL
//! plumbing; the library only defines the error record that layer reports.

use vstd::prelude::*;

verus! {

/// An error reported by the database layer.
#[derive(Debug)]
pub struct DbError {
    message: String,
}

impl DbError {
    /// Wrap a database failure message.
    pub fn new(message: String) -> (r: Self)
        ensures
            r.spec_message() == message@,
    {
        DbError { message }
    }

    /// The failure message.
    pub closed spec fn spec_message(&self) -> Seq<char> {
        self.message@
    }

    /// The failure message, for display.
    pub fn message(&self) -> (r: &str)
        ensures
            r@ == self.spec_message(),
    {
        self.message.as_str()
    }
}

} // verus!
