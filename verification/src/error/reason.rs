//! The specific reason for an error: SQLite's extended result codes, and the
//! ones that Squire adds for its own errors.

use vstd::prelude::*;

use crate::codes::{
    SQLITE_ABORT_ROLLBACK, SQLITE_AUTH_USER, SQLITE_BUSY_RECOVERY, SQLITE_BUSY_SNAPSHOT,
    SQLITE_BUSY_TIMEOUT, SQLITE_CANTOPEN_CONVPATH, SQLITE_CANTOPEN_DIRTYWAL,
    SQLITE_CANTOPEN_FULLPATH, SQLITE_CANTOPEN_ISDIR, SQLITE_CANTOPEN_NOTEMPDIR,
    SQLITE_CANTOPEN_SYMLINK, SQLITE_CONSTRAINT_CHECK, SQLITE_CONSTRAINT_COMMITHOOK,
    SQLITE_CONSTRAINT_DATATYPE, SQLITE_CONSTRAINT_FOREIGNKEY, SQLITE_CONSTRAINT_FUNCTION,
    SQLITE_CONSTRAINT_NOTNULL, SQLITE_CONSTRAINT_PINNED, SQLITE_CONSTRAINT_PRIMARYKEY,
    SQLITE_CONSTRAINT_ROWID, SQLITE_CONSTRAINT_TRIGGER, SQLITE_CONSTRAINT_UNIQUE,
    SQLITE_CONSTRAINT_VTAB, SQLITE_CORRUPT_INDEX, SQLITE_CORRUPT_SEQUENCE, SQLITE_CORRUPT_VTAB,
    SQLITE_ERROR_MISSING_COLLSEQ, SQLITE_ERROR_RETRY, SQLITE_ERROR_SNAPSHOT, SQLITE_IOERR_ACCESS,
    SQLITE_IOERR_AUTH, SQLITE_IOERR_BEGIN_ATOMIC, SQLITE_IOERR_BLOCKED,
    SQLITE_IOERR_CHECKRESERVEDLOCK, SQLITE_IOERR_CLOSE, SQLITE_IOERR_COMMIT_ATOMIC,
    SQLITE_IOERR_CONVPATH, SQLITE_IOERR_CORRUPTFS, SQLITE_IOERR_DATA, SQLITE_IOERR_DELETE,
    SQLITE_IOERR_DELETE_NOENT, SQLITE_IOERR_DIR_CLOSE, SQLITE_IOERR_DIR_FSYNC, SQLITE_IOERR_FSTAT,
    SQLITE_IOERR_FSYNC, SQLITE_IOERR_GETTEMPPATH, SQLITE_IOERR_LOCK, SQLITE_IOERR_MMAP,
    SQLITE_IOERR_NOMEM, SQLITE_IOERR_RDLOCK, SQLITE_IOERR_READ, SQLITE_IOERR_ROLLBACK_ATOMIC,
    SQLITE_IOERR_SEEK, SQLITE_IOERR_SHMLOCK, SQLITE_IOERR_SHMMAP, SQLITE_IOERR_SHMOPEN,
    SQLITE_IOERR_SHMSIZE, SQLITE_IOERR_SHORT_READ, SQLITE_IOERR_TRUNCATE, SQLITE_IOERR_UNLOCK,
    SQLITE_IOERR_VNODE, SQLITE_IOERR_WRITE, SQLITE_LOCKED_SHAREDCACHE, SQLITE_LOCKED_VTAB,
    SQLITE_READONLY_CANTINIT, SQLITE_READONLY_CANTLOCK, SQLITE_READONLY_DBMOVED,
    SQLITE_READONLY_DIRECTORY, SQLITE_READONLY_RECOVERY, SQLITE_READONLY_ROLLBACK,
    SQUIRE_ERROR_FETCH_PARSE, SQUIRE_ERROR_FETCH_RANGE, SQUIRE_ERROR_PARAMETER_BIND,
    SQUIRE_ERROR_PARAMETER_INVALID_INDEX, SQUIRE_ERROR_PARAMETER_RANGE,
    SQUIRE_ERROR_PARAMETER_RESOLVE, SQUIRE_ERROR_ROW_NOT_RETURNED,
};

use super::category::{category_of, lemma_category_code_unique, ErrorCategory};
use super::code::ErrorCode;
use super::extended::{
    lemma_abort_error_code_unique, lemma_authorization_error_code_unique,
    lemma_busy_error_code_unique, lemma_cant_open_error_code_unique,
    lemma_constraint_error_code_unique, lemma_corrupt_error_code_unique,
    lemma_general_error_code_unique, lemma_io_error_code_unique, lemma_locked_error_code_unique,
    lemma_read_only_error_code_unique, lemma_fetch_error_code_unique,
    lemma_parameter_error_code_unique, lemma_row_error_code_unique, AbortError, AuthorizationError,
    BusyError, CantOpenError, ConstraintError, CorruptError, FetchError, GeneralError, IoError,
    LockedError, ParameterError, ReadOnlyError, RowError,
};

verus! {

/// The specific reason an error occurred: an extended result code.
#[derive(PartialEq, Eq, Structural, Copy, Clone, Debug)]
pub enum ErrorReason {
    /// Extended abort error codes.
    Aborted(AbortError),
    /// Extended authorization error codes.
    Authorization(AuthorizationError),
    /// Extended busy error codes.
    Busy(BusyError),
    /// Extended "can't open" error codes.
    CantOpen(CantOpenError),
    /// Extended constraint error codes.
    Constraint(ConstraintError),
    /// Extended corruption error codes.
    Corrupt(CorruptError),
    /// Extended general error codes.
    Error(GeneralError),
    /// Extended I/O error codes.
    Io(IoError),
    /// Extended locked error codes.
    Locked(LockedError),
    /// Extended read-only error codes.
    ReadOnly(ReadOnlyError),
    /// Extended [`ErrorCategory::Fetch`] error codes (defined by Squire).
    Fetch(FetchError),
    /// Extended [`ErrorCategory::Parameter`] error codes (defined by Squire).
    Parameter(ParameterError),
    /// Extended [`ErrorCategory::Row`] error codes (defined by Squire).
    Row(RowError),
}

/// The reason whose extended result code is `code`, if there is one.
pub open spec fn reason_of(code: i32) -> Option<ErrorReason> {
    if exists|r: ErrorReason| r.raw_code() == code {
        Some(choose|r: ErrorReason| r.raw_code() == code)
    } else {
        None
    }
}

impl ErrorReason {
    /// The extended result code of this reason.
    pub open spec fn raw_code(self) -> i32 {
        match self {
            ErrorReason::Aborted(e) => e.raw_code(),
            ErrorReason::Authorization(e) => e.raw_code(),
            ErrorReason::Busy(e) => e.raw_code(),
            ErrorReason::CantOpen(e) => e.raw_code(),
            ErrorReason::Constraint(e) => e.raw_code(),
            ErrorReason::Corrupt(e) => e.raw_code(),
            ErrorReason::Error(e) => e.raw_code(),
            ErrorReason::Io(e) => e.raw_code(),
            ErrorReason::Locked(e) => e.raw_code(),
            ErrorReason::ReadOnly(e) => e.raw_code(),
            ErrorReason::Fetch(e) => e.raw_code(),
            ErrorReason::Parameter(e) => e.raw_code(),
            ErrorReason::Row(e) => e.raw_code(),
        }
    }

    /// The category that this reason belongs to.
    pub open spec fn spec_category(self) -> ErrorCategory {
        match self {
            ErrorReason::Aborted(_) => ErrorCategory::Aborted,
            ErrorReason::Authorization(_) => ErrorCategory::Authorization,
            ErrorReason::Busy(_) => ErrorCategory::Busy,
            ErrorReason::CantOpen(_) => ErrorCategory::CantOpen,
            ErrorReason::Constraint(_) => ErrorCategory::Constraint,
            ErrorReason::Corrupt(_) => ErrorCategory::Corrupt,
            ErrorReason::Error(_) => ErrorCategory::Unknown,
            ErrorReason::Io(_) => ErrorCategory::Io,
            ErrorReason::Locked(_) => ErrorCategory::Locked,
            ErrorReason::ReadOnly(_) => ErrorCategory::ReadOnly,
            ErrorReason::Fetch(_) => ErrorCategory::Fetch,
            ErrorReason::Parameter(_) => ErrorCategory::Parameter,
            ErrorReason::Row(_) => ErrorCategory::Row,
        }
    }

    /// Returns the primary error category for this extended error code.
    pub fn category(self) -> (r: ErrorCategory)
        ensures
            r == self.spec_category(),
    {
        match self {
            ErrorReason::Aborted(_) => ErrorCategory::Aborted,
            ErrorReason::Authorization(_) => ErrorCategory::Authorization,
            ErrorReason::Busy(_) => ErrorCategory::Busy,
            ErrorReason::CantOpen(_) => ErrorCategory::CantOpen,
            ErrorReason::Constraint(_) => ErrorCategory::Constraint,
            ErrorReason::Corrupt(_) => ErrorCategory::Corrupt,
            ErrorReason::Error(_) => ErrorCategory::Unknown,
            ErrorReason::Io(_) => ErrorCategory::Io,
            ErrorReason::Locked(_) => ErrorCategory::Locked,
            ErrorReason::ReadOnly(_) => ErrorCategory::ReadOnly,
            ErrorReason::Fetch(_) => ErrorCategory::Fetch,
            ErrorReason::Parameter(_) => ErrorCategory::Parameter,
            ErrorReason::Row(_) => ErrorCategory::Row,
        }
    }

    /// Returns the underlying [`ErrorCode`].
    pub fn code(self) -> (r: ErrorCode)
        ensures
            r@ == self.raw_code(),
    {
        let code = match self {
            ErrorReason::Aborted(e) => e.code(),
            ErrorReason::Authorization(e) => e.code(),
            ErrorReason::Busy(e) => e.code(),
            ErrorReason::CantOpen(e) => e.code(),
            ErrorReason::Constraint(e) => e.code(),
            ErrorReason::Corrupt(e) => e.code(),
            ErrorReason::Error(e) => e.code(),
            ErrorReason::Io(e) => e.code(),
            ErrorReason::Locked(e) => e.code(),
            ErrorReason::ReadOnly(e) => e.code(),
            ErrorReason::Fetch(e) => e.code(),
            ErrorReason::Parameter(e) => e.code(),
            ErrorReason::Row(e) => e.code(),
        };
        proof {
            lemma_reason_code_properties(self);
        }
        ErrorCode::define(code)
    }

    /// Find the [`ErrorReason`] for an [`ErrorCode`].
    pub fn from_code(code: ErrorCode) -> (r: Option<Self>)
        ensures
            r == reason_of(code@),
    {
        Self::from_raw_code(code.raw())
    }

    /// Find the [`ErrorReason`] for a SQLite result code.
    pub fn from_raw_code(code: i32) -> (r: Option<Self>)
        ensures
            r == reason_of(code),
    {
        let r = match code {
            SQLITE_ABORT_ROLLBACK => Some(ErrorReason::Aborted(AbortError::Rollback)),
            SQLITE_AUTH_USER => Some(ErrorReason::Authorization(AuthorizationError::User)),
            SQLITE_BUSY_RECOVERY => Some(ErrorReason::Busy(BusyError::Recovery)),
            SQLITE_BUSY_SNAPSHOT => Some(ErrorReason::Busy(BusyError::Snapshot)),
            SQLITE_BUSY_TIMEOUT => Some(ErrorReason::Busy(BusyError::Timeout)),
            SQLITE_CANTOPEN_FULLPATH => Some(ErrorReason::CantOpen(CantOpenError::FullPath)),
            SQLITE_CANTOPEN_ISDIR => Some(ErrorReason::CantOpen(CantOpenError::IsDir)),
            SQLITE_CANTOPEN_NOTEMPDIR => Some(ErrorReason::CantOpen(CantOpenError::NoTempDir)),
            SQLITE_CANTOPEN_CONVPATH => Some(ErrorReason::CantOpen(CantOpenError::ConvPath)),
            SQLITE_CANTOPEN_DIRTYWAL => Some(ErrorReason::CantOpen(CantOpenError::DirtyWal)),
            SQLITE_CANTOPEN_SYMLINK => Some(ErrorReason::CantOpen(CantOpenError::Symlink)),
            SQLITE_CONSTRAINT_CHECK => Some(ErrorReason::Constraint(ConstraintError::Check)),
            SQLITE_CONSTRAINT_COMMITHOOK => Some(ErrorReason::Constraint(ConstraintError::CommitHook)),
            SQLITE_CONSTRAINT_DATATYPE => Some(ErrorReason::Constraint(ConstraintError::DataType)),
            SQLITE_CONSTRAINT_FOREIGNKEY => Some(ErrorReason::Constraint(ConstraintError::ForeignKey)),
            SQLITE_CONSTRAINT_FUNCTION => Some(ErrorReason::Constraint(ConstraintError::Function)),
            SQLITE_CONSTRAINT_NOTNULL => Some(ErrorReason::Constraint(ConstraintError::NotNull)),
            SQLITE_CONSTRAINT_PINNED => Some(ErrorReason::Constraint(ConstraintError::Pinned)),
            SQLITE_CONSTRAINT_PRIMARYKEY => Some(ErrorReason::Constraint(ConstraintError::PrimaryKey)),
            SQLITE_CONSTRAINT_ROWID => Some(ErrorReason::Constraint(ConstraintError::RowId)),
            SQLITE_CONSTRAINT_TRIGGER => Some(ErrorReason::Constraint(ConstraintError::Trigger)),
            SQLITE_CONSTRAINT_UNIQUE => Some(ErrorReason::Constraint(ConstraintError::Unique)),
            SQLITE_CONSTRAINT_VTAB => Some(ErrorReason::Constraint(ConstraintError::VTab)),
            SQLITE_CORRUPT_INDEX => Some(ErrorReason::Corrupt(CorruptError::Index)),
            SQLITE_CORRUPT_SEQUENCE => Some(ErrorReason::Corrupt(CorruptError::Sequence)),
            SQLITE_CORRUPT_VTAB => Some(ErrorReason::Corrupt(CorruptError::VTab)),
            SQLITE_ERROR_MISSING_COLLSEQ => Some(ErrorReason::Error(GeneralError::MissingCollSeq)),
            SQLITE_ERROR_RETRY => Some(ErrorReason::Error(GeneralError::Retry)),
            SQLITE_ERROR_SNAPSHOT => Some(ErrorReason::Error(GeneralError::Snapshot)),
            SQLITE_IOERR_READ => Some(ErrorReason::Io(IoError::Read)),
            SQLITE_IOERR_WRITE => Some(ErrorReason::Io(IoError::Write)),
            SQLITE_IOERR_FSYNC => Some(ErrorReason::Io(IoError::FSync)),
            SQLITE_IOERR_FSTAT => Some(ErrorReason::Io(IoError::FStat)),
            SQLITE_IOERR_TRUNCATE => Some(ErrorReason::Io(IoError::Truncate)),
            SQLITE_IOERR_UNLOCK => Some(ErrorReason::Io(IoError::Unlock)),
            SQLITE_IOERR_RDLOCK => Some(ErrorReason::Io(IoError::ReadLock)),
            SQLITE_IOERR_DELETE => Some(ErrorReason::Io(IoError::Delete)),
            SQLITE_IOERR_BLOCKED => Some(ErrorReason::Io(IoError::Blocked)),
            SQLITE_IOERR_NOMEM => Some(ErrorReason::Io(IoError::NoMem)),
            SQLITE_IOERR_ACCESS => Some(ErrorReason::Io(IoError::Access)),
            SQLITE_IOERR_CHECKRESERVEDLOCK => Some(ErrorReason::Io(IoError::CheckReservedLock)),
            SQLITE_IOERR_LOCK => Some(ErrorReason::Io(IoError::Lock)),
            SQLITE_IOERR_CLOSE => Some(ErrorReason::Io(IoError::Close)),
            SQLITE_IOERR_DIR_CLOSE => Some(ErrorReason::Io(IoError::DirClose)),
            SQLITE_IOERR_SHMOPEN => Some(ErrorReason::Io(IoError::ShmOpen)),
            SQLITE_IOERR_SHMSIZE => Some(ErrorReason::Io(IoError::ShmSize)),
            SQLITE_IOERR_SHMLOCK => Some(ErrorReason::Io(IoError::ShmLock)),
            SQLITE_IOERR_SHMMAP => Some(ErrorReason::Io(IoError::ShmMap)),
            SQLITE_IOERR_SEEK => Some(ErrorReason::Io(IoError::Seek)),
            SQLITE_IOERR_DELETE_NOENT => Some(ErrorReason::Io(IoError::DeleteNoEnt)),
            SQLITE_IOERR_MMAP => Some(ErrorReason::Io(IoError::MMap)),
            SQLITE_IOERR_GETTEMPPATH => Some(ErrorReason::Io(IoError::GetTempPath)),
            SQLITE_IOERR_CONVPATH => Some(ErrorReason::Io(IoError::ConvPath)),
            SQLITE_IOERR_VNODE => Some(ErrorReason::Io(IoError::VNode)),
            SQLITE_IOERR_AUTH => Some(ErrorReason::Io(IoError::Auth)),
            SQLITE_IOERR_BEGIN_ATOMIC => Some(ErrorReason::Io(IoError::BeginAtomic)),
            SQLITE_IOERR_COMMIT_ATOMIC => Some(ErrorReason::Io(IoError::CommitAtomic)),
            SQLITE_IOERR_ROLLBACK_ATOMIC => Some(ErrorReason::Io(IoError::RollbackAtomic)),
            SQLITE_IOERR_DATA => Some(ErrorReason::Io(IoError::Data)),
            SQLITE_IOERR_CORRUPTFS => Some(ErrorReason::Io(IoError::CorruptFS)),
            SQLITE_IOERR_SHORT_READ => Some(ErrorReason::Io(IoError::ShortRead)),
            SQLITE_IOERR_DIR_FSYNC => Some(ErrorReason::Io(IoError::DirFSync)),
            SQLITE_LOCKED_SHAREDCACHE => Some(ErrorReason::Locked(LockedError::SharedCache)),
            SQLITE_LOCKED_VTAB => Some(ErrorReason::Locked(LockedError::VTab)),
            SQLITE_READONLY_RECOVERY => Some(ErrorReason::ReadOnly(ReadOnlyError::Recovery)),
            SQLITE_READONLY_CANTLOCK => Some(ErrorReason::ReadOnly(ReadOnlyError::CantLock)),
            SQLITE_READONLY_ROLLBACK => Some(ErrorReason::ReadOnly(ReadOnlyError::Rollback)),
            SQLITE_READONLY_DBMOVED => Some(ErrorReason::ReadOnly(ReadOnlyError::DbMoved)),
            SQLITE_READONLY_CANTINIT => Some(ErrorReason::ReadOnly(ReadOnlyError::CantInit)),
            SQLITE_READONLY_DIRECTORY => Some(ErrorReason::ReadOnly(ReadOnlyError::Directory)),
            SQUIRE_ERROR_FETCH_PARSE => Some(ErrorReason::Fetch(FetchError::Parse)),
            SQUIRE_ERROR_FETCH_RANGE => Some(ErrorReason::Fetch(FetchError::Range)),
            SQUIRE_ERROR_PARAMETER_BIND => Some(ErrorReason::Parameter(ParameterError::Bind)),
            SQUIRE_ERROR_PARAMETER_RANGE => Some(ErrorReason::Parameter(ParameterError::Range)),
            SQUIRE_ERROR_PARAMETER_RESOLVE => Some(ErrorReason::Parameter(ParameterError::Resolve)),
            SQUIRE_ERROR_PARAMETER_INVALID_INDEX => Some(ErrorReason::Parameter(ParameterError::InvalidIndex)),
            SQUIRE_ERROR_ROW_NOT_RETURNED => Some(ErrorReason::Row(RowError::NotReturned)),
            _ => None,
        };
        proof {
            match r {
                Some(found) => {
                    assert(found.raw_code() == code);
                    lemma_reason_code_unique(found);
                    assert(exists|x: ErrorReason| x.raw_code() == code);
                },
                None => {
                    assert forall|x: ErrorReason| x.raw_code() != code by {
                        lemma_reason_code_properties(x);
                    }
                },
            }
        }
        r
    }
}

/// Every reason's code is non-zero and has its category's primary code as
/// its low byte.
proof fn lemma_reason_code_properties(r: ErrorReason)
    ensures
        r.raw_code() != 0,
        r.raw_code() % 256 == r.spec_category().raw_code(),
{
    match r {
        ErrorReason::Aborted(e) => match e {
            _ => {},
        },
        ErrorReason::Authorization(e) => match e {
            _ => {},
        },
        ErrorReason::Busy(e) => match e {
            _ => {},
        },
        ErrorReason::CantOpen(e) => match e {
            _ => {},
        },
        ErrorReason::Constraint(e) => match e {
            _ => {},
        },
        ErrorReason::Corrupt(e) => match e {
            _ => {},
        },
        ErrorReason::Error(e) => match e {
            _ => {},
        },
        ErrorReason::Io(e) => match e {
            _ => {},
        },
        ErrorReason::Locked(e) => match e {
            _ => {},
        },
        ErrorReason::ReadOnly(e) => match e {
            _ => {},
        },
        ErrorReason::Fetch(e) => match e {
            _ => {},
        },
        ErrorReason::Parameter(e) => match e {
            _ => {},
        },
        ErrorReason::Row(e) => match e {
            _ => {},
        },
    }
}

/// No two reasons share an extended result code.
proof fn lemma_reason_code_unique(found: ErrorReason)
    ensures
        forall|r: ErrorReason| r.raw_code() == found.raw_code() ==> r == found,
{
    assert forall|r: ErrorReason| r.raw_code() == found.raw_code() implies r == found by {
        lemma_reason_codes_equal(r, found);
    }
}

/// Two reasons with the same code are the same reason.
proof fn lemma_reason_codes_equal(r: ErrorReason, found: ErrorReason)
    requires
        r.raw_code() == found.raw_code(),
    ensures
        r == found,
{
    lemma_reason_code_properties(r);
    lemma_reason_code_properties(found);
    lemma_category_code_unique(found.spec_category(), found.raw_code() % 256);
    assert(r.spec_category() == found.spec_category());
    match (r, found) {
        (ErrorReason::Aborted(a), ErrorReason::Aborted(b)) => lemma_abort_error_code_unique(a, b),
        (ErrorReason::Authorization(a), ErrorReason::Authorization(b)) => lemma_authorization_error_code_unique(a, b),
        (ErrorReason::Busy(a), ErrorReason::Busy(b)) => lemma_busy_error_code_unique(a, b),
        (ErrorReason::CantOpen(a), ErrorReason::CantOpen(b)) => lemma_cant_open_error_code_unique(a, b),
        (ErrorReason::Constraint(a), ErrorReason::Constraint(b)) => lemma_constraint_error_code_unique(a, b),
        (ErrorReason::Corrupt(a), ErrorReason::Corrupt(b)) => lemma_corrupt_error_code_unique(a, b),
        (ErrorReason::Error(a), ErrorReason::Error(b)) => lemma_general_error_code_unique(a, b),
        (ErrorReason::Io(a), ErrorReason::Io(b)) => lemma_io_error_code_unique(a, b),
        (ErrorReason::Locked(a), ErrorReason::Locked(b)) => lemma_locked_error_code_unique(a, b),
        (ErrorReason::ReadOnly(a), ErrorReason::ReadOnly(b)) => lemma_read_only_error_code_unique(a, b),
        (ErrorReason::Fetch(a), ErrorReason::Fetch(b)) => lemma_fetch_error_code_unique(a, b),
        (ErrorReason::Parameter(a), ErrorReason::Parameter(b)) => lemma_parameter_error_code_unique(a, b),
        (ErrorReason::Row(a), ErrorReason::Row(b)) => lemma_row_error_code_unique(a, b),
        _ => {},
    }
}

/// Reading a reason's code back gives the same reason.
pub proof fn lemma_reason_roundtrip(r: ErrorReason)
    ensures
        reason_of(r.raw_code()) == Some(r),
{
    lemma_reason_code_unique(r);
}

/// A reason's category is the category of its code: the category of every
/// extended result code is the one its reason names.
pub proof fn lemma_reason_category(r: ErrorReason)
    ensures
        category_of(r.raw_code()) == Some(r.spec_category()),
{
    lemma_reason_code_properties(r);
    lemma_category_code_unique(r.spec_category(), r.raw_code() % 256);
}

} // verus!
