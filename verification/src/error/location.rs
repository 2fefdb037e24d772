//! Where in a SQL source text an error was found.

use vstd::prelude::*;
use vstd::string::StringSliceAdditionalSpecFns;
use vstd::utf8::is_char_boundary;

verus! {

/// The offset within a SQL source input of an [`Error`](super::Error).
#[derive(PartialEq, Eq, PartialOrd, Ord, Clone, Copy, Debug)]
pub struct ErrorLocation(i32);

impl View for ErrorLocation {
    type V = int;

    /// The byte offset into the SQL text.
    open spec fn view(&self) -> int {
        self.offset_spec() as int
    }
}

impl ErrorLocation {
    #[verifier::type_invariant]
    spec fn inv(self) -> bool {
        self.0 >= 0
    }

    /// The byte offset into the SQL text.
    pub closed spec fn offset_spec(self) -> i32 {
        self.0
    }

    /// The location at byte offset `location`, as SQLite's
    /// `sqlite3_error_offset` reports it; `None` when `location` is negative
    /// (SQLite's way of saying that no location applies).
    pub(crate) fn new(location: i32) -> (r: Option<Self>)
        ensures
            r is Some <==> location >= 0,
            r matches Some(l) ==> l@ == location,
    {
        if location >= 0 {
            Some(ErrorLocation(location))
        } else {
            None
        }
    }

    /// The byte offset of the location in the SQL text.
    pub fn offset(&self) -> (r: usize)
        ensures
            r == self@,
    {
        proof {
            use_type_invariant(self);
        }
        self.0 as usize
    }

    /// The part of `sql` before the location.
    ///
    /// The location must fall on a character boundary of `sql` (slicing at
    /// any other offset panics).
    pub fn prefix<'a>(&self, sql: &'a str) -> (r: &'a str)
        requires
            is_char_boundary(sql.spec_bytes(), self@),
        ensures
            r.spec_bytes() == sql.spec_bytes().subrange(0, self@),
    {
        let offset = self.offset();
        let (before, _) = sql.split_at(offset);
        before
    }
}

} // verus!
