//! The extended result codes, grouped by the category they belong to.

use vstd::prelude::*;

use crate::codes::{
    SQLITE_ABORT_ROLLBACK, SQLITE_AUTH_USER, SQLITE_BUSY_RECOVERY, SQLITE_BUSY_SNAPSHOT,
    SQLITE_BUSY_TIMEOUT, SQLITE_CANTOPEN_CONVPATH, SQLITE_CANTOPEN_DIRTYWAL,
    SQLITE_CANTOPEN_FULLPATH, SQLITE_CANTOPEN_ISDIR, SQLITE_CANTOPEN_NOTEMPDIR,
    SQLITE_CANTOPEN_SYMLINK, SQLITE_CONSTRAINT_CHECK, SQLITE_CONSTRAINT_COMMITHOOK,
    SQLITE_CONSTRAINT_DATATYPE, SQLITE_CONSTRAINT_FOREIGNKEY, SQLITE_CONSTRAINT_FUNCTION,
    SQLITE_CONSTRAINT_NOTNULL, SQLITE_CONSTRAINT_PINNED, SQLITE_CONSTRAINT_PRIMARYKEY,
    SQLITE_CONSTRAINT_ROWID, SQLITE_CONSTRAINT_TRIGGER, SQLITE_CONSTRAINT_UNIQUE,
    SQLITE_CONSTRAINT_VTAB, SQLITE_CORRUPT_INDEX, SQLITE_CORRUPT_SEQUENCE, SQLITE_CORRUPT_VTAB,
    SQLITE_ERROR_MISSING_COLLSEQ, SQLITE_ERROR_RETRY, SQLITE_ERROR_SNAPSHOT, SQLITE_IOERR_ACCESS,
    SQLITE_IOERR_AUTH, SQLITE_IOERR_BEGIN_ATOMIC, SQLITE_IOERR_BLOCKED,
    SQLITE_IOERR_CHECKRESERVEDLOCK, SQLITE_IOERR_CLOSE, SQLITE_IOERR_COMMIT_ATOMIC,
    SQLITE_IOERR_CONVPATH, SQLITE_IOERR_CORRUPTFS, SQLITE_IOERR_DATA, SQLITE_IOERR_DELETE,
    SQLITE_IOERR_DELETE_NOENT, SQLITE_IOERR_DIR_CLOSE, SQLITE_IOERR_DIR_FSYNC, SQLITE_IOERR_FSTAT,
    SQLITE_IOERR_FSYNC, SQLITE_IOERR_GETTEMPPATH, SQLITE_IOERR_LOCK, SQLITE_IOERR_MMAP,
    SQLITE_IOERR_NOMEM, SQLITE_IOERR_RDLOCK, SQLITE_IOERR_READ, SQLITE_IOERR_ROLLBACK_ATOMIC,
    SQLITE_IOERR_SEEK, SQLITE_IOERR_SHMLOCK, SQLITE_IOERR_SHMMAP, SQLITE_IOERR_SHMOPEN,
    SQLITE_IOERR_SHMSIZE, SQLITE_IOERR_SHORT_READ, SQLITE_IOERR_TRUNCATE, SQLITE_IOERR_UNLOCK,
    SQLITE_IOERR_VNODE, SQLITE_IOERR_WRITE, SQLITE_LOCKED_SHAREDCACHE, SQLITE_LOCKED_VTAB,
    SQLITE_OPEN_NOFOLLOW, SQLITE_READONLY_CANTINIT, SQLITE_READONLY_CANTLOCK,
    SQLITE_READONLY_DBMOVED, SQLITE_READONLY_DIRECTORY, SQLITE_READONLY_RECOVERY,
    SQLITE_READONLY_ROLLBACK, SQUIRE_ERROR_FETCH_PARSE, SQUIRE_ERROR_FETCH_RANGE,
    SQUIRE_ERROR_PARAMETER_BIND, SQUIRE_ERROR_PARAMETER_INVALID_INDEX,
    SQUIRE_ERROR_PARAMETER_RANGE, SQUIRE_ERROR_PARAMETER_RESOLVE, SQUIRE_ERROR_ROW_NOT_RETURNED,
};

verus! {
/// Extended result codes of [`ErrorCategory::Aborted`](super::ErrorCategory::Aborted).
#[derive(PartialEq, Eq, Structural, Copy, Clone, Debug)]
pub enum AbortError {
    /// An SQL statement aborted because the transaction that was active when
    /// the SQL statement first started was rolled back.
    Rollback,
}

impl AbortError {
    /// The result code of this error.
    pub open spec fn raw_code(self) -> i32 {
        match self {
            AbortError::Rollback => SQLITE_ABORT_ROLLBACK,
        }
    }

    /// The result code of this error.
    pub fn code(self) -> (r: i32)
        ensures
            r == self.raw_code(),
    {
        match self {
            AbortError::Rollback => SQLITE_ABORT_ROLLBACK,
        }
    }
}

/// Extended result codes of [`ErrorCategory::Authorization`](super::ErrorCategory::Authorization).
#[derive(PartialEq, Eq, Structural, Copy, Clone, Debug)]
pub enum AuthorizationError {
    /// An operation was attempted on a database for which the logged in user
    /// lacks sufficient authorization.
    User,
}

impl AuthorizationError {
    /// The result code of this error.
    pub open spec fn raw_code(self) -> i32 {
        match self {
            AuthorizationError::User => SQLITE_AUTH_USER,
        }
    }

    /// The result code of this error.
    pub fn code(self) -> (r: i32)
        ensures
            r == self.raw_code(),
    {
        match self {
            AuthorizationError::User => SQLITE_AUTH_USER,
        }
    }
}

/// Extended result codes of [`ErrorCategory::Busy`](super::ErrorCategory::Busy).
#[derive(PartialEq, Eq, Structural, Copy, Clone, Debug)]
pub enum BusyError {
    /// Another process is busy recovering a WAL mode database file following a crash.
    Recovery,
    /// A read transaction could not be promoted to a write transaction because
    /// another connection has already written to the database.
    Snapshot,
    /// A blocking Posix advisory file lock request in the VFS layer timed out.
    Timeout,
}

impl BusyError {
    /// The result code of this error.
    pub open spec fn raw_code(self) -> i32 {
        match self {
            BusyError::Recovery => SQLITE_BUSY_RECOVERY,
            BusyError::Snapshot => SQLITE_BUSY_SNAPSHOT,
            BusyError::Timeout => SQLITE_BUSY_TIMEOUT,
        }
    }

    /// The result code of this error.
    pub fn code(self) -> (r: i32)
        ensures
            r == self.raw_code(),
    {
        match self {
            BusyError::Recovery => SQLITE_BUSY_RECOVERY,
            BusyError::Snapshot => SQLITE_BUSY_SNAPSHOT,
            BusyError::Timeout => SQLITE_BUSY_TIMEOUT,
        }
    }
}

/// Extended result codes of [`ErrorCategory::CantOpen`](super::ErrorCategory::CantOpen).
#[derive(PartialEq, Eq, Structural, Copy, Clone, Debug)]
pub enum CantOpenError {
    /// The operating system was unable to convert the filename into a full pathname.
    FullPath,
    /// A file open operation failed because the file is really a directory.
    IsDir,
    /// No longer used.
    NoTempDir,
    /// `cygwin_conv_path()` failed while trying to open a file.
    ConvPath,
    /// Not used at this time.
    DirtyWal,
    /// The database file is a symbolic link and `SQLITE_OPEN_NOFOLLOW` was used.
    Symlink,
}

impl CantOpenError {
    /// The result code of this error.
    pub open spec fn raw_code(self) -> i32 {
        match self {
            CantOpenError::FullPath => SQLITE_CANTOPEN_FULLPATH,
            CantOpenError::IsDir => SQLITE_CANTOPEN_ISDIR,
            CantOpenError::NoTempDir => SQLITE_CANTOPEN_NOTEMPDIR,
            CantOpenError::ConvPath => SQLITE_CANTOPEN_CONVPATH,
            CantOpenError::DirtyWal => SQLITE_CANTOPEN_DIRTYWAL,
            CantOpenError::Symlink => SQLITE_CANTOPEN_SYMLINK,
        }
    }

    /// The result code of this error.
    pub fn code(self) -> (r: i32)
        ensures
            r == self.raw_code(),
    {
        match self {
            CantOpenError::FullPath => SQLITE_CANTOPEN_FULLPATH,
            CantOpenError::IsDir => SQLITE_CANTOPEN_ISDIR,
            CantOpenError::NoTempDir => SQLITE_CANTOPEN_NOTEMPDIR,
            CantOpenError::ConvPath => SQLITE_CANTOPEN_CONVPATH,
            CantOpenError::DirtyWal => SQLITE_CANTOPEN_DIRTYWAL,
            CantOpenError::Symlink => SQLITE_CANTOPEN_SYMLINK,
        }
    }
}

/// Extended result codes of [`ErrorCategory::Constraint`](super::ErrorCategory::Constraint).
#[derive(PartialEq, Eq, Structural, Copy, Clone, Debug)]
pub enum ConstraintError {
    /// A CHECK constraint failed.
    Check,
    /// A commit hook callback returned non-zero, rolling back the statement.
    CommitHook,
    /// A value inconsistent with a STRICT table's declared column type was stored.
    DataType,
    /// A foreign key constraint failed.
    ForeignKey,
    /// Available for use by extension functions.
    Function,
    /// A NOT NULL constraint failed.
    NotNull,
    /// An UPDATE trigger attempted to delete the row that was being updated.
    Pinned,
    /// A PRIMARY KEY constraint failed.
    PrimaryKey,
    /// A rowid is not unique.
    RowId,
    /// A RAISE function within a trigger fired, aborting the statement.
    Trigger,
    /// A UNIQUE constraint failed.
    Unique,
    /// Available for use by application-defined virtual tables.
    VTab,
}

impl ConstraintError {
    /// The result code of this error.
    pub open spec fn raw_code(self) -> i32 {
        match self {
            ConstraintError::Check => SQLITE_CONSTRAINT_CHECK,
            ConstraintError::CommitHook => SQLITE_CONSTRAINT_COMMITHOOK,
            ConstraintError::DataType => SQLITE_CONSTRAINT_DATATYPE,
            ConstraintError::ForeignKey => SQLITE_CONSTRAINT_FOREIGNKEY,
            ConstraintError::Function => SQLITE_CONSTRAINT_FUNCTION,
            ConstraintError::NotNull => SQLITE_CONSTRAINT_NOTNULL,
            ConstraintError::Pinned => SQLITE_CONSTRAINT_PINNED,
            ConstraintError::PrimaryKey => SQLITE_CONSTRAINT_PRIMARYKEY,
            ConstraintError::RowId => SQLITE_CONSTRAINT_ROWID,
            ConstraintError::Trigger => SQLITE_CONSTRAINT_TRIGGER,
            ConstraintError::Unique => SQLITE_CONSTRAINT_UNIQUE,
            ConstraintError::VTab => SQLITE_CONSTRAINT_VTAB,
        }
    }

    /// The result code of this error.
    pub fn code(self) -> (r: i32)
        ensures
            r == self.raw_code(),
    {
        match self {
            ConstraintError::Check => SQLITE_CONSTRAINT_CHECK,
            ConstraintError::CommitHook => SQLITE_CONSTRAINT_COMMITHOOK,
            ConstraintError::DataType => SQLITE_CONSTRAINT_DATATYPE,
            ConstraintError::ForeignKey => SQLITE_CONSTRAINT_FOREIGNKEY,
            ConstraintError::Function => SQLITE_CONSTRAINT_FUNCTION,
            ConstraintError::NotNull => SQLITE_CONSTRAINT_NOTNULL,
            ConstraintError::Pinned => SQLITE_CONSTRAINT_PINNED,
            ConstraintError::PrimaryKey => SQLITE_CONSTRAINT_PRIMARYKEY,
            ConstraintError::RowId => SQLITE_CONSTRAINT_ROWID,
            ConstraintError::Trigger => SQLITE_CONSTRAINT_TRIGGER,
            ConstraintError::Unique => SQLITE_CONSTRAINT_UNIQUE,
            ConstraintError::VTab => SQLITE_CONSTRAINT_VTAB,
        }
    }
}

/// Extended result codes of [`ErrorCategory::Corrupt`](super::ErrorCategory::Corrupt).
#[derive(PartialEq, Eq, Structural, Copy, Clone, Debug)]
pub enum CorruptError {
    /// An entry is or was missing from an index.
    Index,
    /// The schema of the `sqlite_sequence` table is corrupt.
    Sequence,
    /// Content in a virtual table is corrupt.
    VTab,
}

impl CorruptError {
    /// The result code of this error.
    pub open spec fn raw_code(self) -> i32 {
        match self {
            CorruptError::Index => SQLITE_CORRUPT_INDEX,
            CorruptError::Sequence => SQLITE_CORRUPT_SEQUENCE,
            CorruptError::VTab => SQLITE_CORRUPT_VTAB,
        }
    }

    /// The result code of this error.
    pub fn code(self) -> (r: i32)
        ensures
            r == self.raw_code(),
    {
        match self {
            CorruptError::Index => SQLITE_CORRUPT_INDEX,
            CorruptError::Sequence => SQLITE_CORRUPT_SEQUENCE,
            CorruptError::VTab => SQLITE_CORRUPT_VTAB,
        }
    }
}

/// Extended result codes of [`ErrorCategory::Unknown`](super::ErrorCategory::Unknown).
#[derive(PartialEq, Eq, Structural, Copy, Clone, Debug)]
pub enum GeneralError {
    /// A collating sequence named in an SQL statement could not be located.
    MissingCollSeq,
    /// Used internally to make `sqlite3_prepare_v2()` try again.
    Retry,
    /// A historical database snapshot could not be opened.
    Snapshot,
}

impl GeneralError {
    /// The result code of this error.
    pub open spec fn raw_code(self) -> i32 {
        match self {
            GeneralError::MissingCollSeq => SQLITE_ERROR_MISSING_COLLSEQ,
            GeneralError::Retry => SQLITE_ERROR_RETRY,
            GeneralError::Snapshot => SQLITE_ERROR_SNAPSHOT,
        }
    }

    /// The result code of this error.
    pub fn code(self) -> (r: i32)
        ensures
            r == self.raw_code(),
    {
        match self {
            GeneralError::MissingCollSeq => SQLITE_ERROR_MISSING_COLLSEQ,
            GeneralError::Retry => SQLITE_ERROR_RETRY,
            GeneralError::Snapshot => SQLITE_ERROR_SNAPSHOT,
        }
    }
}

/// Extended result codes of [`ErrorCategory::Io`](super::ErrorCategory::Io).
#[derive(PartialEq, Eq, Structural, Copy, Clone, Debug)]
pub enum IoError {
    /// I/O error while reading from a file on disk.
    Read,
    /// I/O error while writing into a file on disk.
    Write,
    /// I/O error while flushing content into persistent storage.
    FSync,
    /// I/O error while invoking `fstat()` on a file.
    FStat,
    /// I/O error while truncating a file.
    Truncate,
    /// I/O error within the xUnlock method.
    Unlock,
    /// I/O error within the xLock method while obtaining a read lock.
    ReadLock,
    /// I/O error within the xDelete method.
    Delete,
    /// No longer used.
    Blocked,
    /// The VFS layer could not allocate sufficient memory.
    NoMem,
    /// I/O error within the xAccess method.
    Access,
    /// I/O error within the xCheckReservedLock method.
    CheckReservedLock,
    /// I/O error in the advisory file locking logic.
    Lock,
    /// I/O error within the xClose method.
    Close,
    /// No longer used.
    DirClose,
    /// I/O error while opening a new shared memory segment.
    ShmOpen,
    /// I/O error while enlarging a "shm" file.
    ShmSize,
    /// No longer used.
    ShmLock,
    /// I/O error while mapping a shared memory segment.
    ShmMap,
    /// I/O error while seeking a file descriptor.
    Seek,
    /// The file being deleted does not exist.
    DeleteNoEnt,
    /// I/O error while mapping or unmapping part of the database file.
    MMap,
    /// No suitable directory for temporary files could be found.
    GetTempPath,
    /// `cygwin_conv_path()` failed.
    ConvPath,
    /// Code reserved for use by extensions.
    VNode,
    /// Code reserved for use by extensions.
    Auth,
    /// Error on the BEGIN_ATOMIC_WRITE file-control.
    BeginAtomic,
    /// Error on the COMMIT_ATOMIC_WRITE file-control.
    CommitAtomic,
    /// Error on the ROLLBACK_ATOMIC_WRITE file-control.
    RollbackAtomic,
    /// A page checksum of the database file is incorrect.
    Data,
    /// A seek or read fell outside the file's boundary.
    CorruptFS,
    /// A read could not obtain as many bytes as requested.
    ShortRead,
    /// I/O error while invoking `fsync()` on a directory.
    DirFSync,
}

impl IoError {
    /// The result code of this error.
    pub open spec fn raw_code(self) -> i32 {
        match self {
            IoError::Read => SQLITE_IOERR_READ,
            IoError::Write => SQLITE_IOERR_WRITE,
            IoError::FSync => SQLITE_IOERR_FSYNC,
            IoError::FStat => SQLITE_IOERR_FSTAT,
            IoError::Truncate => SQLITE_IOERR_TRUNCATE,
            IoError::Unlock => SQLITE_IOERR_UNLOCK,
            IoError::ReadLock => SQLITE_IOERR_RDLOCK,
            IoError::Delete => SQLITE_IOERR_DELETE,
            IoError::Blocked => SQLITE_IOERR_BLOCKED,
            IoError::NoMem => SQLITE_IOERR_NOMEM,
            IoError::Access => SQLITE_IOERR_ACCESS,
            IoError::CheckReservedLock => SQLITE_IOERR_CHECKRESERVEDLOCK,
            IoError::Lock => SQLITE_IOERR_LOCK,
            IoError::Close => SQLITE_IOERR_CLOSE,
            IoError::DirClose => SQLITE_IOERR_DIR_CLOSE,
            IoError::ShmOpen => SQLITE_IOERR_SHMOPEN,
            IoError::ShmSize => SQLITE_IOERR_SHMSIZE,
            IoError::ShmLock => SQLITE_IOERR_SHMLOCK,
            IoError::ShmMap => SQLITE_IOERR_SHMMAP,
            IoError::Seek => SQLITE_IOERR_SEEK,
            IoError::DeleteNoEnt => SQLITE_IOERR_DELETE_NOENT,
            IoError::MMap => SQLITE_IOERR_MMAP,
            IoError::GetTempPath => SQLITE_IOERR_GETTEMPPATH,
            IoError::ConvPath => SQLITE_IOERR_CONVPATH,
            IoError::VNode => SQLITE_IOERR_VNODE,
            IoError::Auth => SQLITE_IOERR_AUTH,
            IoError::BeginAtomic => SQLITE_IOERR_BEGIN_ATOMIC,
            IoError::CommitAtomic => SQLITE_IOERR_COMMIT_ATOMIC,
            IoError::RollbackAtomic => SQLITE_IOERR_ROLLBACK_ATOMIC,
            IoError::Data => SQLITE_IOERR_DATA,
            IoError::CorruptFS => SQLITE_IOERR_CORRUPTFS,
            IoError::ShortRead => SQLITE_IOERR_SHORT_READ,
            IoError::DirFSync => SQLITE_IOERR_DIR_FSYNC,
        }
    }

    /// The result code of this error.
    pub fn code(self) -> (r: i32)
        ensures
            r == self.raw_code(),
    {
        match self {
            IoError::Read => SQLITE_IOERR_READ,
            IoError::Write => SQLITE_IOERR_WRITE,
            IoError::FSync => SQLITE_IOERR_FSYNC,
            IoError::FStat => SQLITE_IOERR_FSTAT,
            IoError::Truncate => SQLITE_IOERR_TRUNCATE,
            IoError::Unlock => SQLITE_IOERR_UNLOCK,
            IoError::ReadLock => SQLITE_IOERR_RDLOCK,
            IoError::Delete => SQLITE_IOERR_DELETE,
            IoError::Blocked => SQLITE_IOERR_BLOCKED,
            IoError::NoMem => SQLITE_IOERR_NOMEM,
            IoError::Access => SQLITE_IOERR_ACCESS,
            IoError::CheckReservedLock => SQLITE_IOERR_CHECKRESERVEDLOCK,
            IoError::Lock => SQLITE_IOERR_LOCK,
            IoError::Close => SQLITE_IOERR_CLOSE,
            IoError::DirClose => SQLITE_IOERR_DIR_CLOSE,
            IoError::ShmOpen => SQLITE_IOERR_SHMOPEN,
            IoError::ShmSize => SQLITE_IOERR_SHMSIZE,
            IoError::ShmLock => SQLITE_IOERR_SHMLOCK,
            IoError::ShmMap => SQLITE_IOERR_SHMMAP,
            IoError::Seek => SQLITE_IOERR_SEEK,
            IoError::DeleteNoEnt => SQLITE_IOERR_DELETE_NOENT,
            IoError::MMap => SQLITE_IOERR_MMAP,
            IoError::GetTempPath => SQLITE_IOERR_GETTEMPPATH,
            IoError::ConvPath => SQLITE_IOERR_CONVPATH,
            IoError::VNode => SQLITE_IOERR_VNODE,
            IoError::Auth => SQLITE_IOERR_AUTH,
            IoError::BeginAtomic => SQLITE_IOERR_BEGIN_ATOMIC,
            IoError::CommitAtomic => SQLITE_IOERR_COMMIT_ATOMIC,
            IoError::RollbackAtomic => SQLITE_IOERR_ROLLBACK_ATOMIC,
            IoError::Data => SQLITE_IOERR_DATA,
            IoError::CorruptFS => SQLITE_IOERR_CORRUPTFS,
            IoError::ShortRead => SQLITE_IOERR_SHORT_READ,
            IoError::DirFSync => SQLITE_IOERR_DIR_FSYNC,
        }
    }
}

/// Extended result codes of [`ErrorCategory::Locked`](super::ErrorCategory::Locked).
#[derive(PartialEq, Eq, Structural, Copy, Clone, Debug)]
pub enum LockedError {
    /// A record is used by another connection in shared cache mode.
    SharedCache,
    /// Available for use by extensions.
    VTab,
}

impl LockedError {
    /// The result code of this error.
    pub open spec fn raw_code(self) -> i32 {
        match self {
            LockedError::SharedCache => SQLITE_LOCKED_SHAREDCACHE,
            LockedError::VTab => SQLITE_LOCKED_VTAB,
        }
    }

    /// The result code of this error.
    pub fn code(self) -> (r: i32)
        ensures
            r == self.raw_code(),
    {
        match self {
            LockedError::SharedCache => SQLITE_LOCKED_SHAREDCACHE,
            LockedError::VTab => SQLITE_LOCKED_VTAB,
        }
    }
}

/// Extended result codes of [`ErrorCategory::ReadOnly`](super::ErrorCategory::ReadOnly).
#[derive(PartialEq, Eq, Structural, Copy, Clone, Debug)]
pub enum ReadOnlyError {
    /// A WAL database needs recovery, which requires write access.
    Recovery,
    /// The shared-memory file of a WAL database is read-only.
    CantLock,
    /// A hot journal needs to be rolled back but the database is read-only.
    Rollback,
    /// The database file has been moved since it was opened.
    DbMoved,
    /// The shared memory region of a WAL database is unusable.
    CantInit,
    /// No journal file can be created in the database's directory.
    Directory,
}

impl ReadOnlyError {
    /// The result code of this error.
    pub open spec fn raw_code(self) -> i32 {
        match self {
            ReadOnlyError::Recovery => SQLITE_READONLY_RECOVERY,
            ReadOnlyError::CantLock => SQLITE_READONLY_CANTLOCK,
            ReadOnlyError::Rollback => SQLITE_READONLY_ROLLBACK,
            ReadOnlyError::DbMoved => SQLITE_READONLY_DBMOVED,
            ReadOnlyError::CantInit => SQLITE_READONLY_CANTINIT,
            ReadOnlyError::Directory => SQLITE_READONLY_DIRECTORY,
        }
    }

    /// The result code of this error.
    pub fn code(self) -> (r: i32)
        ensures
            r == self.raw_code(),
    {
        match self {
            ReadOnlyError::Recovery => SQLITE_READONLY_RECOVERY,
            ReadOnlyError::CantLock => SQLITE_READONLY_CANTLOCK,
            ReadOnlyError::Rollback => SQLITE_READONLY_ROLLBACK,
            ReadOnlyError::DbMoved => SQLITE_READONLY_DBMOVED,
            ReadOnlyError::CantInit => SQLITE_READONLY_CANTINIT,
            ReadOnlyError::Directory => SQLITE_READONLY_DIRECTORY,
        }
    }
}

/// An error reading a SQLite column value into its Rust type (defined by
/// Squire; no SQLite result code corresponds to it).
#[derive(PartialEq, Eq, Structural, Copy, Clone, Debug)]
pub enum FetchError {
    /// The value stored in SQLite cannot be parsed into the desired type.
    Parse,
    /// The value stored in SQLite is out of the range of the destination type.
    Range,
}

impl FetchError {
    /// The result code of this error.
    pub open spec fn raw_code(self) -> i32 {
        match self {
            FetchError::Parse => SQUIRE_ERROR_FETCH_PARSE,
            FetchError::Range => SQUIRE_ERROR_FETCH_RANGE,
        }
    }

    /// The result code of this error.
    pub fn code(self) -> (r: i32)
        ensures
            r == self.raw_code(),
    {
        match self {
            FetchError::Parse => SQUIRE_ERROR_FETCH_PARSE,
            FetchError::Range => SQUIRE_ERROR_FETCH_RANGE,
        }
    }
}

/// An error passing prepared statement parameters to SQLite (defined by
/// Squire; no SQLite result code corresponds to it).
#[derive(PartialEq, Eq, Structural, Copy, Clone, Debug)]
pub enum ParameterError {
    /// Converting a value into a bindable value failed.
    Bind,
    /// The value is out of range for the SQLite type it would be bound as.
    Range,
    /// Resolving parameter indexes failed.
    Resolve,
    /// A parameter index was zero or negative.
    InvalidIndex,
}

impl ParameterError {
    /// The result code of this error.
    pub open spec fn raw_code(self) -> i32 {
        match self {
            ParameterError::Bind => SQUIRE_ERROR_PARAMETER_BIND,
            ParameterError::Range => SQUIRE_ERROR_PARAMETER_RANGE,
            ParameterError::Resolve => SQUIRE_ERROR_PARAMETER_RESOLVE,
            ParameterError::InvalidIndex => SQUIRE_ERROR_PARAMETER_INVALID_INDEX,
        }
    }

    /// The result code of this error.
    pub fn code(self) -> (r: i32)
        ensures
            r == self.raw_code(),
    {
        match self {
            ParameterError::Bind => SQUIRE_ERROR_PARAMETER_BIND,
            ParameterError::Range => SQUIRE_ERROR_PARAMETER_RANGE,
            ParameterError::Resolve => SQUIRE_ERROR_PARAMETER_RESOLVE,
            ParameterError::InvalidIndex => SQUIRE_ERROR_PARAMETER_INVALID_INDEX,
        }
    }
}

/// An error retrieving a row from SQLite (defined by Squire; no SQLite
/// result code corresponds to it).
#[derive(PartialEq, Eq, Structural, Copy, Clone, Debug)]
pub enum RowError {
    /// The query didn't return a row.
    NotReturned,
}

impl RowError {
    /// The result code of this error.
    pub open spec fn raw_code(self) -> i32 {
        match self {
            RowError::NotReturned => SQUIRE_ERROR_ROW_NOT_RETURNED,
        }
    }

    /// The result code of this error.
    pub fn code(self) -> (r: i32)
        ensures
            r == self.raw_code(),
    {
        match self {
            RowError::NotReturned => SQUIRE_ERROR_ROW_NOT_RETURNED,
        }
    }
}

/// No two [`AbortError`] values share a result code.
pub(crate) proof fn lemma_abort_error_code_unique(a: AbortError, b: AbortError)
    requires
        a.raw_code() == b.raw_code(),
    ensures
        a == b,
{
    match a {
        _ => match b {
            _ => {},
        },
    }
}

/// No two [`AuthorizationError`] values share a result code.
pub(crate) proof fn lemma_authorization_error_code_unique(a: AuthorizationError, b: AuthorizationError)
    requires
        a.raw_code() == b.raw_code(),
    ensures
        a == b,
{
    match a {
        _ => match b {
            _ => {},
        },
    }
}

/// No two [`BusyError`] values share a result code.
pub(crate) proof fn lemma_busy_error_code_unique(a: BusyError, b: BusyError)
    requires
        a.raw_code() == b.raw_code(),
    ensures
        a == b,
{
    match a {
        _ => match b {
            _ => {},
        },
    }
}

/// No two [`CantOpenError`] values share a result code.
pub(crate) proof fn lemma_cant_open_error_code_unique(a: CantOpenError, b: CantOpenError)
    requires
        a.raw_code() == b.raw_code(),
    ensures
        a == b,
{
    match a {
        _ => match b {
            _ => {},
        },
    }
}

/// No two [`ConstraintError`] values share a result code.
pub(crate) proof fn lemma_constraint_error_code_unique(a: ConstraintError, b: ConstraintError)
    requires
        a.raw_code() == b.raw_code(),
    ensures
        a == b,
{
    match a {
        _ => match b {
            _ => {},
        },
    }
}

/// No two [`CorruptError`] values share a result code.
pub(crate) proof fn lemma_corrupt_error_code_unique(a: CorruptError, b: CorruptError)
    requires
        a.raw_code() == b.raw_code(),
    ensures
        a == b,
{
    match a {
        _ => match b {
            _ => {},
        },
    }
}

/// No two [`GeneralError`] values share a result code.
pub(crate) proof fn lemma_general_error_code_unique(a: GeneralError, b: GeneralError)
    requires
        a.raw_code() == b.raw_code(),
    ensures
        a == b,
{
    match a {
        _ => match b {
            _ => {},
        },
    }
}

/// No two [`IoError`] values share a result code.
pub(crate) proof fn lemma_io_error_code_unique(a: IoError, b: IoError)
    requires
        a.raw_code() == b.raw_code(),
    ensures
        a == b,
{
    match a {
        _ => match b {
            _ => {},
        },
    }
}

/// No two [`LockedError`] values share a result code.
pub(crate) proof fn lemma_locked_error_code_unique(a: LockedError, b: LockedError)
    requires
        a.raw_code() == b.raw_code(),
    ensures
        a == b,
{
    match a {
        _ => match b {
            _ => {},
        },
    }
}

/// No two [`ReadOnlyError`] values share a result code.
pub(crate) proof fn lemma_read_only_error_code_unique(a: ReadOnlyError, b: ReadOnlyError)
    requires
        a.raw_code() == b.raw_code(),
    ensures
        a == b,
{
    match a {
        _ => match b {
            _ => {},
        },
    }
}

/// No two [`FetchError`] values share a result code.
pub(crate) proof fn lemma_fetch_error_code_unique(a: FetchError, b: FetchError)
    requires
        a.raw_code() == b.raw_code(),
    ensures
        a == b,
{
    match a {
        _ => match b {
            _ => {},
        },
    }
}

/// No two [`ParameterError`] values share a result code.
pub(crate) proof fn lemma_parameter_error_code_unique(a: ParameterError, b: ParameterError)
    requires
        a.raw_code() == b.raw_code(),
    ensures
        a == b,
{
    match a {
        _ => match b {
            _ => {},
        },
    }
}

/// No two [`RowError`] values share a result code.
pub(crate) proof fn lemma_row_error_code_unique(a: RowError, b: RowError)
    requires
        a.raw_code() == b.raw_code(),
    ensures
        a == b,
{
    match a {
        _ => match b {
            _ => {},
        },
    }
}

} // verus!
