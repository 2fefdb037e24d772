//! The category of an error: SQLite's primary result codes, and the
//! categories that Squire adds for its own errors.

use vstd::prelude::*;

use crate::codes::{
    SQLITE_ABORT, SQLITE_AUTH, SQLITE_BUSY, SQLITE_CANTOPEN, SQLITE_CONSTRAINT, SQLITE_CORRUPT,
    SQLITE_EMPTY, SQLITE_ERROR, SQLITE_FORMAT, SQLITE_FULL, SQLITE_INTERNAL, SQLITE_INTERRUPT,
    SQLITE_IOERR, SQLITE_LOCKED, SQLITE_MISMATCH, SQLITE_MISUSE, SQLITE_NOLFS, SQLITE_NOMEM,
    SQLITE_NOTADB, SQLITE_NOTFOUND, SQLITE_PERM, SQLITE_PROTOCOL, SQLITE_RANGE, SQLITE_READONLY,
    SQLITE_SCHEMA, SQLITE_TOOBIG, SQUIRE_ERROR_FETCH, SQUIRE_ERROR_PARAMETER, SQUIRE_ERROR_ROW,
};

use super::code::ErrorCode;

verus! {

/// The category of [`Error`](super::Error) that occurred.
///
/// Error categories correspond to a SQLite primary result code, except for
/// those defined by Squire itself ([`Fetch`](Self::Fetch),
/// [`Parameter`](Self::Parameter) and [`Row`](Self::Row)).
#[derive(PartialEq, Eq, Structural, Copy, Clone, Debug)]
pub enum ErrorCategory {
    /// A generic error code that SQLite returns when no specific error code is
    /// available.
    Unknown,
    /// An internal error (bug) in SQLite, an application-defined function,
    /// virtual table, VFS, or extension.
    Internal,
    /// The requested access mode for a newly created database could not be
    /// provided.
    Permission,
    /// An operation was aborted prior to completion, usually by application
    /// request.
    Aborted,
    /// The database file could not be written (or read) because of concurrent
    /// activity by some other database connection.
    Busy,
    /// A write operation could not continue because of a conflict within the
    /// same connection or with a connection that uses a shared cache.
    Locked,
    /// SQLite was unable to allocate all the memory it needed.
    OutOfMemory,
    /// An attempt was made to alter data for which the connection does not
    /// have write permission.
    ReadOnly,
    /// An operation was interrupted by `sqlite3_interrupt()`.
    Interrupt,
    /// The operating system reported an I/O error.
    Io,
    /// The database file has been corrupted.
    Corrupt,
    /// Used internally by SQLite.
    NotFound,
    /// A write could not complete because the disk is full.
    Full,
    /// SQLite was unable to open a file.
    CantOpen,
    /// A problem with the file locking protocol used by SQLite.
    Protocol,
    /// Not currently used by SQLite.
    Empty,
    /// The database schema has changed.
    Schema,
    /// A string or BLOB was too large.
    TooBig,
    /// An SQL constraint violation occurred.
    Constraint,
    /// A datatype mismatch occurred.
    Mismatch,
    /// SQLite was used in a way that is undefined or unsupported.
    Misuse,
    /// The system does not support files as large as the database has grown.
    LargeFile,
    /// The authorizer callback did not authorize an SQL statement.
    Authorization,
    /// Not currently used by SQLite.
    Format,
    /// A parameter or column index was out of range.
    Range,
    /// The file being opened does not appear to be an SQLite database file.
    InvalidDatabase,
    /// A column value stored in SQLite could not be read into a Rust type
    /// (defined by Squire; no SQLite result code corresponds to it).
    Fetch,
    /// A parameter could not be bound (defined by Squire; no SQLite result
    /// code corresponds to it).
    Parameter,
    /// A row could not be retrieved (defined by Squire; no SQLite result code
    /// corresponds to it).
    Row,
}

/// The category whose primary result code is the low byte of `code`
/// (`code % 256`), if there is one.
pub open spec fn category_of(code: i32) -> Option<ErrorCategory> {
    if exists|c: ErrorCategory| c.raw_code() == code % 256 {
        Some(choose|c: ErrorCategory| c.raw_code() == code % 256)
    } else {
        None
    }
}

impl ErrorCategory {
    /// The primary result code of this category.
    pub open spec fn raw_code(self) -> i32 {
        match self {
            ErrorCategory::Unknown => SQLITE_ERROR,
            ErrorCategory::Internal => SQLITE_INTERNAL,
            ErrorCategory::Permission => SQLITE_PERM,
            ErrorCategory::Aborted => SQLITE_ABORT,
            ErrorCategory::Busy => SQLITE_BUSY,
            ErrorCategory::Locked => SQLITE_LOCKED,
            ErrorCategory::OutOfMemory => SQLITE_NOMEM,
            ErrorCategory::ReadOnly => SQLITE_READONLY,
            ErrorCategory::Interrupt => SQLITE_INTERRUPT,
            ErrorCategory::Io => SQLITE_IOERR,
            ErrorCategory::Corrupt => SQLITE_CORRUPT,
            ErrorCategory::NotFound => SQLITE_NOTFOUND,
            ErrorCategory::Full => SQLITE_FULL,
            ErrorCategory::CantOpen => SQLITE_CANTOPEN,
            ErrorCategory::Protocol => SQLITE_PROTOCOL,
            ErrorCategory::Empty => SQLITE_EMPTY,
            ErrorCategory::Schema => SQLITE_SCHEMA,
            ErrorCategory::TooBig => SQLITE_TOOBIG,
            ErrorCategory::Constraint => SQLITE_CONSTRAINT,
            ErrorCategory::Mismatch => SQLITE_MISMATCH,
            ErrorCategory::Misuse => SQLITE_MISUSE,
            ErrorCategory::LargeFile => SQLITE_NOLFS,
            ErrorCategory::Authorization => SQLITE_AUTH,
            ErrorCategory::Format => SQLITE_FORMAT,
            ErrorCategory::Range => SQLITE_RANGE,
            ErrorCategory::InvalidDatabase => SQLITE_NOTADB,
            ErrorCategory::Fetch => SQUIRE_ERROR_FETCH,
            ErrorCategory::Parameter => SQUIRE_ERROR_PARAMETER,
            ErrorCategory::Row => SQUIRE_ERROR_ROW,
        }
    }

    /// The primary result code of this category.
    fn primary(self) -> (r: i32)
        ensures
            r == self.raw_code(),
    {
        match self {
            ErrorCategory::Unknown => SQLITE_ERROR,
            ErrorCategory::Internal => SQLITE_INTERNAL,
            ErrorCategory::Permission => SQLITE_PERM,
            ErrorCategory::Aborted => SQLITE_ABORT,
            ErrorCategory::Busy => SQLITE_BUSY,
            ErrorCategory::Locked => SQLITE_LOCKED,
            ErrorCategory::OutOfMemory => SQLITE_NOMEM,
            ErrorCategory::ReadOnly => SQLITE_READONLY,
            ErrorCategory::Interrupt => SQLITE_INTERRUPT,
            ErrorCategory::Io => SQLITE_IOERR,
            ErrorCategory::Corrupt => SQLITE_CORRUPT,
            ErrorCategory::NotFound => SQLITE_NOTFOUND,
            ErrorCategory::Full => SQLITE_FULL,
            ErrorCategory::CantOpen => SQLITE_CANTOPEN,
            ErrorCategory::Protocol => SQLITE_PROTOCOL,
            ErrorCategory::Empty => SQLITE_EMPTY,
            ErrorCategory::Schema => SQLITE_SCHEMA,
            ErrorCategory::TooBig => SQLITE_TOOBIG,
            ErrorCategory::Constraint => SQLITE_CONSTRAINT,
            ErrorCategory::Mismatch => SQLITE_MISMATCH,
            ErrorCategory::Misuse => SQLITE_MISUSE,
            ErrorCategory::LargeFile => SQLITE_NOLFS,
            ErrorCategory::Authorization => SQLITE_AUTH,
            ErrorCategory::Format => SQLITE_FORMAT,
            ErrorCategory::Range => SQLITE_RANGE,
            ErrorCategory::InvalidDatabase => SQLITE_NOTADB,
            ErrorCategory::Fetch => SQUIRE_ERROR_FETCH,
            ErrorCategory::Parameter => SQUIRE_ERROR_PARAMETER,
            ErrorCategory::Row => SQUIRE_ERROR_ROW,
        }
    }

    /// Find the [`ErrorCategory`] for an [`ErrorCode`].
    pub fn from_code(code: ErrorCode) -> (r: Option<Self>)
        ensures
            r == category_of(code@),
    {
        Self::from_raw_code(code.raw())
    }

    /// Find the [`ErrorCategory`] for a SQLite result code: the category of
    /// its low byte.
    pub fn from_raw_code(code: i32) -> (r: Option<Self>)
        ensures
            r == category_of(code),
    {
        let primary = code & 0xFF;
        assert(code & 0xff == code % 256) by (bit_vector);
        let r = match primary {
            SQLITE_ERROR => Some(ErrorCategory::Unknown),
            SQLITE_INTERNAL => Some(ErrorCategory::Internal),
            SQLITE_PERM => Some(ErrorCategory::Permission),
            SQLITE_ABORT => Some(ErrorCategory::Aborted),
            SQLITE_BUSY => Some(ErrorCategory::Busy),
            SQLITE_LOCKED => Some(ErrorCategory::Locked),
            SQLITE_NOMEM => Some(ErrorCategory::OutOfMemory),
            SQLITE_READONLY => Some(ErrorCategory::ReadOnly),
            SQLITE_INTERRUPT => Some(ErrorCategory::Interrupt),
            SQLITE_IOERR => Some(ErrorCategory::Io),
            SQLITE_CORRUPT => Some(ErrorCategory::Corrupt),
            SQLITE_NOTFOUND => Some(ErrorCategory::NotFound),
            SQLITE_FULL => Some(ErrorCategory::Full),
            SQLITE_CANTOPEN => Some(ErrorCategory::CantOpen),
            SQLITE_PROTOCOL => Some(ErrorCategory::Protocol),
            SQLITE_EMPTY => Some(ErrorCategory::Empty),
            SQLITE_SCHEMA => Some(ErrorCategory::Schema),
            SQLITE_TOOBIG => Some(ErrorCategory::TooBig),
            SQLITE_CONSTRAINT => Some(ErrorCategory::Constraint),
            SQLITE_MISMATCH => Some(ErrorCategory::Mismatch),
            SQLITE_MISUSE => Some(ErrorCategory::Misuse),
            SQLITE_NOLFS => Some(ErrorCategory::LargeFile),
            SQLITE_AUTH => Some(ErrorCategory::Authorization),
            SQLITE_FORMAT => Some(ErrorCategory::Format),
            SQLITE_RANGE => Some(ErrorCategory::Range),
            SQLITE_NOTADB => Some(ErrorCategory::InvalidDatabase),
            SQUIRE_ERROR_FETCH => Some(ErrorCategory::Fetch),
            SQUIRE_ERROR_PARAMETER => Some(ErrorCategory::Parameter),
            SQUIRE_ERROR_ROW => Some(ErrorCategory::Row),
            _ => None,
        };
        proof {
            match r {
                Some(found) => {
                    assert(found.raw_code() == primary);
                    lemma_category_code_unique(found, primary);
                    assert(exists|c: ErrorCategory| c.raw_code() == code % 256);
                },
                None => {
                    assert forall|c: ErrorCategory| c.raw_code() != primary by {
                        match c {
                            _ => {},
                        }
                    }
                },
            }
        }
        r
    }

    /// The [`ErrorCode`] of this category's primary result code.
    pub fn code(self) -> (r: ErrorCode)
        ensures
            r@ == self.raw_code(),
    {
        ErrorCode::define(self.primary())
    }
}

/// No two categories share a primary result code.
pub(crate) proof fn lemma_category_code_unique(found: ErrorCategory, primary: i32)
    requires
        found.raw_code() == primary,
    ensures
        forall|c: ErrorCategory| c.raw_code() == primary ==> c == found,
{
    assert forall|c: ErrorCategory| c.raw_code() == primary implies c == found by {
        match c {
            _ => {},
        }
    }
}

/// A category's own primary code has that category: the category of the
/// code [`ErrorCategory::code`] gives is the category it was called on.
pub proof fn lemma_category_roundtrip(c: ErrorCategory)
    ensures
        category_of(c.raw_code()) == Some(c),
{
    assert(c.raw_code() % 256 == c.raw_code()) by {
        match c {
            _ => {},
        }
    }
    lemma_category_code_unique(c, c.raw_code());
}

} // verus!
