//! The names of result codes, built from the names of categories and
//! reasons, and the laws that tie the code tables to them.

use vstd::prelude::*;

use super::category::{category_of, ErrorCategory};
use super::code::code_name;
use super::extended::{
    AbortError, AuthorizationError, BusyError, CantOpenError, ConstraintError, CorruptError,
    FetchError, GeneralError, IoError, LockedError, ParameterError, ReadOnlyError, RowError,
};
use super::reason::{reason_of, ErrorReason};

verus! {

/// The name of the constant for a category's primary result code: SQLite's
/// `SQLITE_` names, and `SQUIRE_ERROR_` names for the categories Squire
/// adds.
pub open spec fn category_name(c: ErrorCategory) -> Seq<char> {
    match c {
        ErrorCategory::Unknown => "SQLITE_ERROR"@,
        ErrorCategory::Internal => "SQLITE_INTERNAL"@,
        ErrorCategory::Permission => "SQLITE_PERM"@,
        ErrorCategory::Aborted => "SQLITE_ABORT"@,
        ErrorCategory::Busy => "SQLITE_BUSY"@,
        ErrorCategory::Locked => "SQLITE_LOCKED"@,
        ErrorCategory::OutOfMemory => "SQLITE_NOMEM"@,
        ErrorCategory::ReadOnly => "SQLITE_READONLY"@,
        ErrorCategory::Interrupt => "SQLITE_INTERRUPT"@,
        ErrorCategory::Io => "SQLITE_IOERR"@,
        ErrorCategory::Corrupt => "SQLITE_CORRUPT"@,
        ErrorCategory::NotFound => "SQLITE_NOTFOUND"@,
        ErrorCategory::Full => "SQLITE_FULL"@,
        ErrorCategory::CantOpen => "SQLITE_CANTOPEN"@,
        ErrorCategory::Protocol => "SQLITE_PROTOCOL"@,
        ErrorCategory::Empty => "SQLITE_EMPTY"@,
        ErrorCategory::Schema => "SQLITE_SCHEMA"@,
        ErrorCategory::TooBig => "SQLITE_TOOBIG"@,
        ErrorCategory::Constraint => "SQLITE_CONSTRAINT"@,
        ErrorCategory::Mismatch => "SQLITE_MISMATCH"@,
        ErrorCategory::Misuse => "SQLITE_MISUSE"@,
        ErrorCategory::LargeFile => "SQLITE_NOLFS"@,
        ErrorCategory::Authorization => "SQLITE_AUTH"@,
        ErrorCategory::Format => "SQLITE_FORMAT"@,
        ErrorCategory::Range => "SQLITE_RANGE"@,
        ErrorCategory::InvalidDatabase => "SQLITE_NOTADB"@,
        ErrorCategory::Fetch => "SQUIRE_ERROR_FETCH"@,
        ErrorCategory::Parameter => "SQUIRE_ERROR_PARAMETER"@,
        ErrorCategory::Row => "SQUIRE_ERROR_ROW"@,
    }
}

/// The word that names a reason within its category: the name of the
/// reason's code is the category's name, `_`, and this word.
pub open spec fn reason_word(r: ErrorReason) -> Seq<char> {
    match r {
        ErrorReason::Aborted(e) => match e {
            AbortError::Rollback => "ROLLBACK"@,
        },
        ErrorReason::Authorization(e) => match e {
            AuthorizationError::User => "USER"@,
        },
        ErrorReason::Busy(e) => match e {
            BusyError::Recovery => "RECOVERY"@,
            BusyError::Snapshot => "SNAPSHOT"@,
            BusyError::Timeout => "TIMEOUT"@,
        },
        ErrorReason::CantOpen(e) => match e {
            CantOpenError::FullPath => "FULLPATH"@,
            CantOpenError::IsDir => "ISDIR"@,
            CantOpenError::NoTempDir => "NOTEMPDIR"@,
            CantOpenError::ConvPath => "CONVPATH"@,
            CantOpenError::DirtyWal => "DIRTYWAL"@,
            CantOpenError::Symlink => "SYMLINK"@,
        },
        ErrorReason::Constraint(e) => match e {
            ConstraintError::Check => "CHECK"@,
            ConstraintError::CommitHook => "COMMITHOOK"@,
            ConstraintError::DataType => "DATATYPE"@,
            ConstraintError::ForeignKey => "FOREIGNKEY"@,
            ConstraintError::Function => "FUNCTION"@,
            ConstraintError::NotNull => "NOTNULL"@,
            ConstraintError::Pinned => "PINNED"@,
            ConstraintError::PrimaryKey => "PRIMARYKEY"@,
            ConstraintError::RowId => "ROWID"@,
            ConstraintError::Trigger => "TRIGGER"@,
            ConstraintError::Unique => "UNIQUE"@,
            ConstraintError::VTab => "VTAB"@,
        },
        ErrorReason::Corrupt(e) => match e {
            CorruptError::Index => "INDEX"@,
            CorruptError::Sequence => "SEQUENCE"@,
            CorruptError::VTab => "VTAB"@,
        },
        ErrorReason::Error(e) => match e {
            GeneralError::MissingCollSeq => "MISSING_COLLSEQ"@,
            GeneralError::Retry => "RETRY"@,
            GeneralError::Snapshot => "SNAPSHOT"@,
        },
        ErrorReason::Io(e) => match e {
            IoError::Read => "READ"@,
            IoError::Write => "WRITE"@,
            IoError::FSync => "FSYNC"@,
            IoError::FStat => "FSTAT"@,
            IoError::Truncate => "TRUNCATE"@,
            IoError::Unlock => "UNLOCK"@,
            IoError::ReadLock => "RDLOCK"@,
            IoError::Delete => "DELETE"@,
            IoError::Blocked => "BLOCKED"@,
            IoError::NoMem => "NOMEM"@,
            IoError::Access => "ACCESS"@,
            IoError::CheckReservedLock => "CHECKRESERVEDLOCK"@,
            IoError::Lock => "LOCK"@,
            IoError::Close => "CLOSE"@,
            IoError::DirClose => "DIR_CLOSE"@,
            IoError::ShmOpen => "SHMOPEN"@,
            IoError::ShmSize => "SHMSIZE"@,
            IoError::ShmLock => "SHMLOCK"@,
            IoError::ShmMap => "SHMMAP"@,
            IoError::Seek => "SEEK"@,
            IoError::DeleteNoEnt => "DELETE_NOENT"@,
            IoError::MMap => "MMAP"@,
            IoError::GetTempPath => "GETTEMPPATH"@,
            IoError::ConvPath => "CONVPATH"@,
            IoError::VNode => "VNODE"@,
            IoError::Auth => "AUTH"@,
            IoError::BeginAtomic => "BEGIN_ATOMIC"@,
            IoError::CommitAtomic => "COMMIT_ATOMIC"@,
            IoError::RollbackAtomic => "ROLLBACK_ATOMIC"@,
            IoError::Data => "DATA"@,
            IoError::CorruptFS => "CORRUPTFS"@,
            IoError::ShortRead => "SHORT_READ"@,
            IoError::DirFSync => "DIR_FSYNC"@,
        },
        ErrorReason::Locked(e) => match e {
            LockedError::SharedCache => "SHAREDCACHE"@,
            LockedError::VTab => "VTAB"@,
        },
        ErrorReason::ReadOnly(e) => match e {
            ReadOnlyError::Recovery => "RECOVERY"@,
            ReadOnlyError::CantLock => "CANTLOCK"@,
            ReadOnlyError::Rollback => "ROLLBACK"@,
            ReadOnlyError::DbMoved => "DBMOVED"@,
            ReadOnlyError::CantInit => "CANTINIT"@,
            ReadOnlyError::Directory => "DIRECTORY"@,
        },
        ErrorReason::Fetch(e) => match e {
            FetchError::Parse => "PARSE"@,
            FetchError::Range => "RANGE"@,
        },
        ErrorReason::Parameter(e) => match e {
            ParameterError::Bind => "BIND"@,
            ParameterError::Range => "RANGE"@,
            ParameterError::Resolve => "RESOLVE"@,
            ParameterError::InvalidIndex => "INVALID_INDEX"@,
        },
        ErrorReason::Row(e) => match e {
            RowError::NotReturned => "NOT_RETURNED"@,
        },
    }
}

/// The name of the constant for a reason's extended result code: its
/// category's name, `_`, and the reason's own word.
pub open spec fn reason_name(r: ErrorReason) -> Seq<char> {
    category_name(r.spec_category()) + "_"@ + reason_word(r)
}

/// `true` for the reasons whose codes the library names (all but the
/// invalid parameter index and the missing row).
pub open spec fn has_code_name(r: ErrorReason) -> bool {
    &&& !(r is Row)
    &&& r != ErrorReason::Parameter(ParameterError::InvalidIndex)
}

/// Every category's primary code is the code whose name is the category's
/// name (the `Row` category's code has no name).
pub proof fn lemma_category_code_names(c: ErrorCategory)
    ensures
        c != ErrorCategory::Row ==> code_name(c.raw_code()) == Some(category_name(c)),
        c == ErrorCategory::Row ==> code_name(c.raw_code()) is None,
{
    match c {
        _ => {},
    }
}

/// The code of each Aborted reason is the code named after it.
proof fn lemma_aborted_code_names(e: AbortError)
    ensures
        has_code_name(ErrorReason::Aborted(e)) ==> code_name(ErrorReason::Aborted(e).raw_code()) == Some(
            reason_name(ErrorReason::Aborted(e)),
        ),
{
    reveal_strlit("SQLITE_ABORT");
    reveal_strlit("_");
    match e {
        AbortError::Rollback => {
            reveal_strlit("ROLLBACK");
            reveal_strlit("SQLITE_ABORT_ROLLBACK");
            assert(reason_name(ErrorReason::Aborted(e)) =~= "SQLITE_ABORT_ROLLBACK"@);
        },
    }
}

/// The code of each Authorization reason is the code named after it.
proof fn lemma_authorization_code_names(e: AuthorizationError)
    ensures
        has_code_name(ErrorReason::Authorization(e)) ==> code_name(ErrorReason::Authorization(e).raw_code()) == Some(
            reason_name(ErrorReason::Authorization(e)),
        ),
{
    reveal_strlit("SQLITE_AUTH");
    reveal_strlit("_");
    match e {
        AuthorizationError::User => {
            reveal_strlit("USER");
            reveal_strlit("SQLITE_AUTH_USER");
            assert(reason_name(ErrorReason::Authorization(e)) =~= "SQLITE_AUTH_USER"@);
        },
    }
}

/// The code of each Busy reason is the code named after it.
proof fn lemma_busy_code_names(e: BusyError)
    ensures
        has_code_name(ErrorReason::Busy(e)) ==> code_name(ErrorReason::Busy(e).raw_code()) == Some(
            reason_name(ErrorReason::Busy(e)),
        ),
{
    reveal_strlit("SQLITE_BUSY");
    reveal_strlit("_");
    match e {
        BusyError::Recovery => {
            reveal_strlit("RECOVERY");
            reveal_strlit("SQLITE_BUSY_RECOVERY");
            assert(reason_name(ErrorReason::Busy(e)) =~= "SQLITE_BUSY_RECOVERY"@);
        },
        BusyError::Snapshot => {
            reveal_strlit("SNAPSHOT");
            reveal_strlit("SQLITE_BUSY_SNAPSHOT");
            assert(reason_name(ErrorReason::Busy(e)) =~= "SQLITE_BUSY_SNAPSHOT"@);
        },
        BusyError::Timeout => {
            reveal_strlit("TIMEOUT");
            reveal_strlit("SQLITE_BUSY_TIMEOUT");
            assert(reason_name(ErrorReason::Busy(e)) =~= "SQLITE_BUSY_TIMEOUT"@);
        },
    }
}

/// The code of each CantOpen reason is the code named after it.
proof fn lemma_cant_open_code_names(e: CantOpenError)
    ensures
        has_code_name(ErrorReason::CantOpen(e)) ==> code_name(ErrorReason::CantOpen(e).raw_code()) == Some(
            reason_name(ErrorReason::CantOpen(e)),
        ),
{
    reveal_strlit("SQLITE_CANTOPEN");
    reveal_strlit("_");
    match e {
        CantOpenError::FullPath => {
            reveal_strlit("FULLPATH");
            reveal_strlit("SQLITE_CANTOPEN_FULLPATH");
            assert(reason_name(ErrorReason::CantOpen(e)) =~= "SQLITE_CANTOPEN_FULLPATH"@);
        },
        CantOpenError::IsDir => {
            reveal_strlit("ISDIR");
            reveal_strlit("SQLITE_CANTOPEN_ISDIR");
            assert(reason_name(ErrorReason::CantOpen(e)) =~= "SQLITE_CANTOPEN_ISDIR"@);
        },
        CantOpenError::NoTempDir => {
            reveal_strlit("NOTEMPDIR");
            reveal_strlit("SQLITE_CANTOPEN_NOTEMPDIR");
            assert(reason_name(ErrorReason::CantOpen(e)) =~= "SQLITE_CANTOPEN_NOTEMPDIR"@);
        },
        CantOpenError::ConvPath => {
            reveal_strlit("CONVPATH");
            reveal_strlit("SQLITE_CANTOPEN_CONVPATH");
            assert(reason_name(ErrorReason::CantOpen(e)) =~= "SQLITE_CANTOPEN_CONVPATH"@);
        },
        CantOpenError::DirtyWal => {
            reveal_strlit("DIRTYWAL");
            reveal_strlit("SQLITE_CANTOPEN_DIRTYWAL");
            assert(reason_name(ErrorReason::CantOpen(e)) =~= "SQLITE_CANTOPEN_DIRTYWAL"@);
        },
        CantOpenError::Symlink => {
            reveal_strlit("SYMLINK");
            reveal_strlit("SQLITE_CANTOPEN_SYMLINK");
            assert(reason_name(ErrorReason::CantOpen(e)) =~= "SQLITE_CANTOPEN_SYMLINK"@);
        },
    }
}

/// The code of each Constraint reason is the code named after it.
proof fn lemma_constraint_code_names(e: ConstraintError)
    ensures
        has_code_name(ErrorReason::Constraint(e)) ==> code_name(ErrorReason::Constraint(e).raw_code()) == Some(
            reason_name(ErrorReason::Constraint(e)),
        ),
{
    reveal_strlit("SQLITE_CONSTRAINT");
    reveal_strlit("_");
    match e {
        ConstraintError::Check => {
            reveal_strlit("CHECK");
            reveal_strlit("SQLITE_CONSTRAINT_CHECK");
            assert(reason_name(ErrorReason::Constraint(e)) =~= "SQLITE_CONSTRAINT_CHECK"@);
        },
        ConstraintError::CommitHook => {
            reveal_strlit("COMMITHOOK");
            reveal_strlit("SQLITE_CONSTRAINT_COMMITHOOK");
            assert(reason_name(ErrorReason::Constraint(e)) =~= "SQLITE_CONSTRAINT_COMMITHOOK"@);
        },
        ConstraintError::DataType => {
            reveal_strlit("DATATYPE");
            reveal_strlit("SQLITE_CONSTRAINT_DATATYPE");
            assert(reason_name(ErrorReason::Constraint(e)) =~= "SQLITE_CONSTRAINT_DATATYPE"@);
        },
        ConstraintError::ForeignKey => {
            reveal_strlit("FOREIGNKEY");
            reveal_strlit("SQLITE_CONSTRAINT_FOREIGNKEY");
            assert(reason_name(ErrorReason::Constraint(e)) =~= "SQLITE_CONSTRAINT_FOREIGNKEY"@);
        },
        ConstraintError::Function => {
            reveal_strlit("FUNCTION");
            reveal_strlit("SQLITE_CONSTRAINT_FUNCTION");
            assert(reason_name(ErrorReason::Constraint(e)) =~= "SQLITE_CONSTRAINT_FUNCTION"@);
        },
        ConstraintError::NotNull => {
            reveal_strlit("NOTNULL");
            reveal_strlit("SQLITE_CONSTRAINT_NOTNULL");
            assert(reason_name(ErrorReason::Constraint(e)) =~= "SQLITE_CONSTRAINT_NOTNULL"@);
        },
        ConstraintError::Pinned => {
            reveal_strlit("PINNED");
            reveal_strlit("SQLITE_CONSTRAINT_PINNED");
            assert(reason_name(ErrorReason::Constraint(e)) =~= "SQLITE_CONSTRAINT_PINNED"@);
        },
        ConstraintError::PrimaryKey => {
            reveal_strlit("PRIMARYKEY");
            reveal_strlit("SQLITE_CONSTRAINT_PRIMARYKEY");
            assert(reason_name(ErrorReason::Constraint(e)) =~= "SQLITE_CONSTRAINT_PRIMARYKEY"@);
        },
        ConstraintError::RowId => {
            reveal_strlit("ROWID");
            reveal_strlit("SQLITE_CONSTRAINT_ROWID");
            assert(reason_name(ErrorReason::Constraint(e)) =~= "SQLITE_CONSTRAINT_ROWID"@);
        },
        ConstraintError::Trigger => {
            reveal_strlit("TRIGGER");
            reveal_strlit("SQLITE_CONSTRAINT_TRIGGER");
            assert(reason_name(ErrorReason::Constraint(e)) =~= "SQLITE_CONSTRAINT_TRIGGER"@);
        },
        ConstraintError::Unique => {
            reveal_strlit("UNIQUE");
            reveal_strlit("SQLITE_CONSTRAINT_UNIQUE");
            assert(reason_name(ErrorReason::Constraint(e)) =~= "SQLITE_CONSTRAINT_UNIQUE"@);
        },
        ConstraintError::VTab => {
            reveal_strlit("VTAB");
            reveal_strlit("SQLITE_CONSTRAINT_VTAB");
            assert(reason_name(ErrorReason::Constraint(e)) =~= "SQLITE_CONSTRAINT_VTAB"@);
        },
    }
}

/// The code of each Corrupt reason is the code named after it.
proof fn lemma_corrupt_code_names(e: CorruptError)
    ensures
        has_code_name(ErrorReason::Corrupt(e)) ==> code_name(ErrorReason::Corrupt(e).raw_code()) == Some(
            reason_name(ErrorReason::Corrupt(e)),
        ),
{
    reveal_strlit("SQLITE_CORRUPT");
    reveal_strlit("_");
    match e {
        CorruptError::Index => {
            reveal_strlit("INDEX");
            reveal_strlit("SQLITE_CORRUPT_INDEX");
            assert(reason_name(ErrorReason::Corrupt(e)) =~= "SQLITE_CORRUPT_INDEX"@);
        },
        CorruptError::Sequence => {
            reveal_strlit("SEQUENCE");
            reveal_strlit("SQLITE_CORRUPT_SEQUENCE");
            assert(reason_name(ErrorReason::Corrupt(e)) =~= "SQLITE_CORRUPT_SEQUENCE"@);
        },
        CorruptError::VTab => {
            reveal_strlit("VTAB");
            reveal_strlit("SQLITE_CORRUPT_VTAB");
            assert(reason_name(ErrorReason::Corrupt(e)) =~= "SQLITE_CORRUPT_VTAB"@);
        },
    }
}

/// The code of each Error reason is the code named after it.
proof fn lemma_error_code_names(e: GeneralError)
    ensures
        has_code_name(ErrorReason::Error(e)) ==> code_name(ErrorReason::Error(e).raw_code()) == Some(
            reason_name(ErrorReason::Error(e)),
        ),
{
    reveal_strlit("SQLITE_ERROR");
    reveal_strlit("_");
    match e {
        GeneralError::MissingCollSeq => {
            reveal_strlit("MISSING_COLLSEQ");
            reveal_strlit("SQLITE_ERROR_MISSING_COLLSEQ");
            assert(reason_name(ErrorReason::Error(e)) =~= "SQLITE_ERROR_MISSING_COLLSEQ"@);
        },
        GeneralError::Retry => {
            reveal_strlit("RETRY");
            reveal_strlit("SQLITE_ERROR_RETRY");
            assert(reason_name(ErrorReason::Error(e)) =~= "SQLITE_ERROR_RETRY"@);
        },
        GeneralError::Snapshot => {
            reveal_strlit("SNAPSHOT");
            reveal_strlit("SQLITE_ERROR_SNAPSHOT");
            assert(reason_name(ErrorReason::Error(e)) =~= "SQLITE_ERROR_SNAPSHOT"@);
        },
    }
}

/// The code of each Io reason is the code named after it.
proof fn lemma_io_code_names(e: IoError)
    ensures
        has_code_name(ErrorReason::Io(e)) ==> code_name(ErrorReason::Io(e).raw_code()) == Some(
            reason_name(ErrorReason::Io(e)),
        ),
{
    reveal_strlit("SQLITE_IOERR");
    reveal_strlit("_");
    match e {
        IoError::Read => {
            reveal_strlit("READ");
            reveal_strlit("SQLITE_IOERR_READ");
            assert(reason_name(ErrorReason::Io(e)) =~= "SQLITE_IOERR_READ"@);
        },
        IoError::Write => {
            reveal_strlit("WRITE");
            reveal_strlit("SQLITE_IOERR_WRITE");
            assert(reason_name(ErrorReason::Io(e)) =~= "SQLITE_IOERR_WRITE"@);
        },
        IoError::FSync => {
            reveal_strlit("FSYNC");
            reveal_strlit("SQLITE_IOERR_FSYNC");
            assert(reason_name(ErrorReason::Io(e)) =~= "SQLITE_IOERR_FSYNC"@);
        },
        IoError::FStat => {
            reveal_strlit("FSTAT");
            reveal_strlit("SQLITE_IOERR_FSTAT");
            assert(reason_name(ErrorReason::Io(e)) =~= "SQLITE_IOERR_FSTAT"@);
        },
        IoError::Truncate => {
            reveal_strlit("TRUNCATE");
            reveal_strlit("SQLITE_IOERR_TRUNCATE");
            assert(reason_name(ErrorReason::Io(e)) =~= "SQLITE_IOERR_TRUNCATE"@);
        },
        IoError::Unlock => {
            reveal_strlit("UNLOCK");
            reveal_strlit("SQLITE_IOERR_UNLOCK");
            assert(reason_name(ErrorReason::Io(e)) =~= "SQLITE_IOERR_UNLOCK"@);
        },
        IoError::ReadLock => {
            reveal_strlit("RDLOCK");
            reveal_strlit("SQLITE_IOERR_RDLOCK");
            assert(reason_name(ErrorReason::Io(e)) =~= "SQLITE_IOERR_RDLOCK"@);
        },
        IoError::Delete => {
            reveal_strlit("DELETE");
            reveal_strlit("SQLITE_IOERR_DELETE");
            assert(reason_name(ErrorReason::Io(e)) =~= "SQLITE_IOERR_DELETE"@);
        },
        IoError::Blocked => {
            reveal_strlit("BLOCKED");
            reveal_strlit("SQLITE_IOERR_BLOCKED");
            assert(reason_name(ErrorReason::Io(e)) =~= "SQLITE_IOERR_BLOCKED"@);
        },
        IoError::NoMem => {
            reveal_strlit("NOMEM");
            reveal_strlit("SQLITE_IOERR_NOMEM");
            assert(reason_name(ErrorReason::Io(e)) =~= "SQLITE_IOERR_NOMEM"@);
        },
        IoError::Access => {
            reveal_strlit("ACCESS");
            reveal_strlit("SQLITE_IOERR_ACCESS");
            assert(reason_name(ErrorReason::Io(e)) =~= "SQLITE_IOERR_ACCESS"@);
        },
        IoError::CheckReservedLock => {
            reveal_strlit("CHECKRESERVEDLOCK");
            reveal_strlit("SQLITE_IOERR_CHECKRESERVEDLOCK");
            assert(reason_name(ErrorReason::Io(e)) =~= "SQLITE_IOERR_CHECKRESERVEDLOCK"@);
        },
        IoError::Lock => {
            reveal_strlit("LOCK");
            reveal_strlit("SQLITE_IOERR_LOCK");
            assert(reason_name(ErrorReason::Io(e)) =~= "SQLITE_IOERR_LOCK"@);
        },
        IoError::Close => {
            reveal_strlit("CLOSE");
            reveal_strlit("SQLITE_IOERR_CLOSE");
            assert(reason_name(ErrorReason::Io(e)) =~= "SQLITE_IOERR_CLOSE"@);
        },
        IoError::DirClose => {
            reveal_strlit("DIR_CLOSE");
            reveal_strlit("SQLITE_IOERR_DIR_CLOSE");
            assert(reason_name(ErrorReason::Io(e)) =~= "SQLITE_IOERR_DIR_CLOSE"@);
        },
        IoError::ShmOpen => {
            reveal_strlit("SHMOPEN");
            reveal_strlit("SQLITE_IOERR_SHMOPEN");
            assert(reason_name(ErrorReason::Io(e)) =~= "SQLITE_IOERR_SHMOPEN"@);
        },
        IoError::ShmSize => {
            reveal_strlit("SHMSIZE");
            reveal_strlit("SQLITE_IOERR_SHMSIZE");
            assert(reason_name(ErrorReason::Io(e)) =~= "SQLITE_IOERR_SHMSIZE"@);
        },
        IoError::ShmLock => {
            reveal_strlit("SHMLOCK");
            reveal_strlit("SQLITE_IOERR_SHMLOCK");
            assert(reason_name(ErrorReason::Io(e)) =~= "SQLITE_IOERR_SHMLOCK"@);
        },
        IoError::ShmMap => {
            reveal_strlit("SHMMAP");
            reveal_strlit("SQLITE_IOERR_SHMMAP");
            assert(reason_name(ErrorReason::Io(e)) =~= "SQLITE_IOERR_SHMMAP"@);
        },
        IoError::Seek => {
            reveal_strlit("SEEK");
            reveal_strlit("SQLITE_IOERR_SEEK");
            assert(reason_name(ErrorReason::Io(e)) =~= "SQLITE_IOERR_SEEK"@);
        },
        IoError::DeleteNoEnt => {
            reveal_strlit("DELETE_NOENT");
            reveal_strlit("SQLITE_IOERR_DELETE_NOENT");
            assert(reason_name(ErrorReason::Io(e)) =~= "SQLITE_IOERR_DELETE_NOENT"@);
        },
        IoError::MMap => {
            reveal_strlit("MMAP");
            reveal_strlit("SQLITE_IOERR_MMAP");
            assert(reason_name(ErrorReason::Io(e)) =~= "SQLITE_IOERR_MMAP"@);
        },
        IoError::GetTempPath => {
            reveal_strlit("GETTEMPPATH");
            reveal_strlit("SQLITE_IOERR_GETTEMPPATH");
            assert(reason_name(ErrorReason::Io(e)) =~= "SQLITE_IOERR_GETTEMPPATH"@);
        },
        IoError::ConvPath => {
            reveal_strlit("CONVPATH");
            reveal_strlit("SQLITE_IOERR_CONVPATH");
            assert(reason_name(ErrorReason::Io(e)) =~= "SQLITE_IOERR_CONVPATH"@);
        },
        IoError::VNode => {
            reveal_strlit("VNODE");
            reveal_strlit("SQLITE_IOERR_VNODE");
            assert(reason_name(ErrorReason::Io(e)) =~= "SQLITE_IOERR_VNODE"@);
        },
        IoError::Auth => {
            reveal_strlit("AUTH");
            reveal_strlit("SQLITE_IOERR_AUTH");
            assert(reason_name(ErrorReason::Io(e)) =~= "SQLITE_IOERR_AUTH"@);
        },
        IoError::BeginAtomic => {
            reveal_strlit("BEGIN_ATOMIC");
            reveal_strlit("SQLITE_IOERR_BEGIN_ATOMIC");
            assert(reason_name(ErrorReason::Io(e)) =~= "SQLITE_IOERR_BEGIN_ATOMIC"@);
        },
        IoError::CommitAtomic => {
            reveal_strlit("COMMIT_ATOMIC");
            reveal_strlit("SQLITE_IOERR_COMMIT_ATOMIC");
            assert(reason_name(ErrorReason::Io(e)) =~= "SQLITE_IOERR_COMMIT_ATOMIC"@);
        },
        IoError::RollbackAtomic => {
            reveal_strlit("ROLLBACK_ATOMIC");
            reveal_strlit("SQLITE_IOERR_ROLLBACK_ATOMIC");
            assert(reason_name(ErrorReason::Io(e)) =~= "SQLITE_IOERR_ROLLBACK_ATOMIC"@);
        },
        IoError::Data => {
            reveal_strlit("DATA");
            reveal_strlit("SQLITE_IOERR_DATA");
            assert(reason_name(ErrorReason::Io(e)) =~= "SQLITE_IOERR_DATA"@);
        },
        IoError::CorruptFS => {
            reveal_strlit("CORRUPTFS");
            reveal_strlit("SQLITE_IOERR_CORRUPTFS");
            assert(reason_name(ErrorReason::Io(e)) =~= "SQLITE_IOERR_CORRUPTFS"@);
        },
        IoError::ShortRead => {
            reveal_strlit("SHORT_READ");
            reveal_strlit("SQLITE_IOERR_SHORT_READ");
            assert(reason_name(ErrorReason::Io(e)) =~= "SQLITE_IOERR_SHORT_READ"@);
        },
        IoError::DirFSync => {
            reveal_strlit("DIR_FSYNC");
            reveal_strlit("SQLITE_IOERR_DIR_FSYNC");
            assert(reason_name(ErrorReason::Io(e)) =~= "SQLITE_IOERR_DIR_FSYNC"@);
        },
    }
}

/// The code of each Locked reason is the code named after it.
proof fn lemma_locked_code_names(e: LockedError)
    ensures
        has_code_name(ErrorReason::Locked(e)) ==> code_name(ErrorReason::Locked(e).raw_code()) == Some(
            reason_name(ErrorReason::Locked(e)),
        ),
{
    reveal_strlit("SQLITE_LOCKED");
    reveal_strlit("_");
    match e {
        LockedError::SharedCache => {
            reveal_strlit("SHAREDCACHE");
            reveal_strlit("SQLITE_LOCKED_SHAREDCACHE");
            assert(reason_name(ErrorReason::Locked(e)) =~= "SQLITE_LOCKED_SHAREDCACHE"@);
        },
        LockedError::VTab => {
            reveal_strlit("VTAB");
            reveal_strlit("SQLITE_LOCKED_VTAB");
            assert(reason_name(ErrorReason::Locked(e)) =~= "SQLITE_LOCKED_VTAB"@);
        },
    }
}

/// The code of each ReadOnly reason is the code named after it.
proof fn lemma_read_only_code_names(e: ReadOnlyError)
    ensures
        has_code_name(ErrorReason::ReadOnly(e)) ==> code_name(ErrorReason::ReadOnly(e).raw_code()) == Some(
            reason_name(ErrorReason::ReadOnly(e)),
        ),
{
    reveal_strlit("SQLITE_READONLY");
    reveal_strlit("_");
    match e {
        ReadOnlyError::Recovery => {
            reveal_strlit("RECOVERY");
            reveal_strlit("SQLITE_READONLY_RECOVERY");
            assert(reason_name(ErrorReason::ReadOnly(e)) =~= "SQLITE_READONLY_RECOVERY"@);
        },
        ReadOnlyError::CantLock => {
            reveal_strlit("CANTLOCK");
            reveal_strlit("SQLITE_READONLY_CANTLOCK");
            assert(reason_name(ErrorReason::ReadOnly(e)) =~= "SQLITE_READONLY_CANTLOCK"@);
        },
        ReadOnlyError::Rollback => {
            reveal_strlit("ROLLBACK");
            reveal_strlit("SQLITE_READONLY_ROLLBACK");
            assert(reason_name(ErrorReason::ReadOnly(e)) =~= "SQLITE_READONLY_ROLLBACK"@);
        },
        ReadOnlyError::DbMoved => {
            reveal_strlit("DBMOVED");
            reveal_strlit("SQLITE_READONLY_DBMOVED");
            assert(reason_name(ErrorReason::ReadOnly(e)) =~= "SQLITE_READONLY_DBMOVED"@);
        },
        ReadOnlyError::CantInit => {
            reveal_strlit("CANTINIT");
            reveal_strlit("SQLITE_READONLY_CANTINIT");
            assert(reason_name(ErrorReason::ReadOnly(e)) =~= "SQLITE_READONLY_CANTINIT"@);
        },
        ReadOnlyError::Directory => {
            reveal_strlit("DIRECTORY");
            reveal_strlit("SQLITE_READONLY_DIRECTORY");
            assert(reason_name(ErrorReason::ReadOnly(e)) =~= "SQLITE_READONLY_DIRECTORY"@);
        },
    }
}

/// The code of each Fetch reason is the code named after it.
proof fn lemma_fetch_code_names(e: FetchError)
    ensures
        has_code_name(ErrorReason::Fetch(e)) ==> code_name(ErrorReason::Fetch(e).raw_code()) == Some(
            reason_name(ErrorReason::Fetch(e)),
        ),
{
    reveal_strlit("SQUIRE_ERROR_FETCH");
    reveal_strlit("_");
    match e {
        FetchError::Parse => {
            reveal_strlit("PARSE");
            reveal_strlit("SQUIRE_ERROR_FETCH_PARSE");
            assert(reason_name(ErrorReason::Fetch(e)) =~= "SQUIRE_ERROR_FETCH_PARSE"@);
        },
        FetchError::Range => {
            reveal_strlit("RANGE");
            reveal_strlit("SQUIRE_ERROR_FETCH_RANGE");
            assert(reason_name(ErrorReason::Fetch(e)) =~= "SQUIRE_ERROR_FETCH_RANGE"@);
        },
    }
}

/// The code of each Parameter reason is the code named after it.
proof fn lemma_parameter_code_names(e: ParameterError)
    ensures
        has_code_name(ErrorReason::Parameter(e)) ==> code_name(ErrorReason::Parameter(e).raw_code()) == Some(
            reason_name(ErrorReason::Parameter(e)),
        ),
{
    reveal_strlit("SQUIRE_ERROR_PARAMETER");
    reveal_strlit("_");
    match e {
        ParameterError::Bind => {
            reveal_strlit("BIND");
            reveal_strlit("SQUIRE_ERROR_PARAMETER_BIND");
            assert(reason_name(ErrorReason::Parameter(e)) =~= "SQUIRE_ERROR_PARAMETER_BIND"@);
        },
        ParameterError::Range => {
            reveal_strlit("RANGE");
            reveal_strlit("SQUIRE_ERROR_PARAMETER_RANGE");
            assert(reason_name(ErrorReason::Parameter(e)) =~= "SQUIRE_ERROR_PARAMETER_RANGE"@);
        },
        ParameterError::Resolve => {
            reveal_strlit("RESOLVE");
            reveal_strlit("SQUIRE_ERROR_PARAMETER_RESOLVE");
            assert(reason_name(ErrorReason::Parameter(e)) =~= "SQUIRE_ERROR_PARAMETER_RESOLVE"@);
        },
        ParameterError::InvalidIndex => {
            reveal_strlit("INVALID_INDEX");
            reveal_strlit("SQUIRE_ERROR_PARAMETER_INVALID_INDEX");
            assert(reason_name(ErrorReason::Parameter(e)) =~= "SQUIRE_ERROR_PARAMETER_INVALID_INDEX"@);
        },
    }
}

/// The code of each Row reason is the code named after it.
proof fn lemma_row_code_names(e: RowError)
    ensures
        has_code_name(ErrorReason::Row(e)) ==> code_name(ErrorReason::Row(e).raw_code()) == Some(
            reason_name(ErrorReason::Row(e)),
        ),
{
    reveal_strlit("SQUIRE_ERROR_ROW");
    reveal_strlit("_");
    match e {
        RowError::NotReturned => {
            reveal_strlit("NOT_RETURNED");
            reveal_strlit("SQUIRE_ERROR_ROW_NOT_RETURNED");
            assert(reason_name(ErrorReason::Row(e)) =~= "SQUIRE_ERROR_ROW_NOT_RETURNED"@);
        },
    }
}

/// Every reason's code is the code whose name is the reason's name: its
/// category's name followed by the reason's own word (for the reasons the
/// library names).
pub proof fn lemma_reason_code_names(r: ErrorReason)
    ensures
        has_code_name(r) ==> code_name(r.raw_code()) == Some(reason_name(r)),
{
    match r {
        ErrorReason::Aborted(e) => lemma_aborted_code_names(e),
        ErrorReason::Authorization(e) => lemma_authorization_code_names(e),
        ErrorReason::Busy(e) => lemma_busy_code_names(e),
        ErrorReason::CantOpen(e) => lemma_cant_open_code_names(e),
        ErrorReason::Constraint(e) => lemma_constraint_code_names(e),
        ErrorReason::Corrupt(e) => lemma_corrupt_code_names(e),
        ErrorReason::Error(e) => lemma_error_code_names(e),
        ErrorReason::Io(e) => lemma_io_code_names(e),
        ErrorReason::Locked(e) => lemma_locked_code_names(e),
        ErrorReason::ReadOnly(e) => lemma_read_only_code_names(e),
        ErrorReason::Fetch(e) => lemma_fetch_code_names(e),
        ErrorReason::Parameter(e) => lemma_parameter_code_names(e),
        ErrorReason::Row(e) => lemma_row_code_names(e),
    }
}

/// The reason and category found for a code are the ones its name spells:
/// a code with a reason is named after that reason, and the low byte of a
/// code with a category is named after that category.
pub proof fn lemma_named_code_meaning(code: i32)
    ensures
        reason_of(code) matches Some(r) ==> (has_code_name(r) ==> code_name(code) == Some(
            reason_name(r),
        )),
        category_of(code) matches Some(c) ==> (c != ErrorCategory::Row ==> code_name(code % 256)
            == Some(category_name(c))),
{
    if let Some(r) = reason_of(code) {
        lemma_reason_code_names(r);
    }
    if let Some(c) = category_of(code) {
        lemma_category_code_names(c);
    }
}

} // verus!
