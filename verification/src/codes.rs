//! Numeric constants of the SQLite C interface that the library decides on:
//! result codes, `sqlite3_open_v2` flags and `sqlite3_prepare_v3` flags, and
//! the result codes that Squire adds for its own errors.

use vstd::prelude::*;

verus! {

/// Successful result.
pub const SQLITE_OK: i32 = 0;
/// Generic error.
pub const SQLITE_ERROR: i32 = 1;
/// Internal logic error in SQLite.
pub const SQLITE_INTERNAL: i32 = 2;
/// Access permission denied.
pub const SQLITE_PERM: i32 = 3;
/// Callback routine requested an abort.
pub const SQLITE_ABORT: i32 = 4;
/// The database file is locked.
pub const SQLITE_BUSY: i32 = 5;
/// A table in the database is locked.
pub const SQLITE_LOCKED: i32 = 6;
/// A `malloc()` failed.
pub const SQLITE_NOMEM: i32 = 7;
/// Attempt to write a readonly database.
pub const SQLITE_READONLY: i32 = 8;
/// Operation terminated by `sqlite3_interrupt()`.
pub const SQLITE_INTERRUPT: i32 = 9;
/// Some kind of disk I/O error occurred.
pub const SQLITE_IOERR: i32 = 10;
/// The database disk image is malformed.
pub const SQLITE_CORRUPT: i32 = 11;
/// Unknown opcode in `sqlite3_file_control()`.
pub const SQLITE_NOTFOUND: i32 = 12;
/// Insertion failed because database is full.
pub const SQLITE_FULL: i32 = 13;
/// Unable to open the database file.
pub const SQLITE_CANTOPEN: i32 = 14;
/// Database lock protocol error.
pub const SQLITE_PROTOCOL: i32 = 15;
/// Internal use only.
pub const SQLITE_EMPTY: i32 = 16;
/// The database schema changed.
pub const SQLITE_SCHEMA: i32 = 17;
/// String or BLOB exceeds size limit.
pub const SQLITE_TOOBIG: i32 = 18;
/// Abort due to constraint violation.
pub const SQLITE_CONSTRAINT: i32 = 19;
/// Data type mismatch.
pub const SQLITE_MISMATCH: i32 = 20;
/// Library used incorrectly.
pub const SQLITE_MISUSE: i32 = 21;
/// Uses OS features not supported on host.
pub const SQLITE_NOLFS: i32 = 22;
/// Authorization denied.
pub const SQLITE_AUTH: i32 = 23;
/// Not used.
pub const SQLITE_FORMAT: i32 = 24;
/// Second parameter to `sqlite3_bind` out of range.
pub const SQLITE_RANGE: i32 = 25;
/// File opened that is not a database file.
pub const SQLITE_NOTADB: i32 = 26;
/// `sqlite3_step()` has another row ready.
pub const SQLITE_ROW: i32 = 100;
/// `sqlite3_step()` has finished executing.
pub const SQLITE_DONE: i32 = 101;

pub const SQLITE_ERROR_MISSING_COLLSEQ: i32 = 0x0101; // SQLITE_ERROR | 1 << 8
pub const SQLITE_ERROR_RETRY: i32 = 0x0201; // SQLITE_ERROR | 2 << 8
pub const SQLITE_ERROR_SNAPSHOT: i32 = 0x0301; // SQLITE_ERROR | 3 << 8
pub const SQLITE_IOERR_READ: i32 = 0x010a; // SQLITE_IOERR | 1 << 8
pub const SQLITE_IOERR_SHORT_READ: i32 = 0x020a; // SQLITE_IOERR | 2 << 8
pub const SQLITE_IOERR_WRITE: i32 = 0x030a; // SQLITE_IOERR | 3 << 8
pub const SQLITE_IOERR_FSYNC: i32 = 0x040a; // SQLITE_IOERR | 4 << 8
pub const SQLITE_IOERR_DIR_FSYNC: i32 = 0x050a; // SQLITE_IOERR | 5 << 8
pub const SQLITE_IOERR_TRUNCATE: i32 = 0x060a; // SQLITE_IOERR | 6 << 8
pub const SQLITE_IOERR_FSTAT: i32 = 0x070a; // SQLITE_IOERR | 7 << 8
pub const SQLITE_IOERR_UNLOCK: i32 = 0x080a; // SQLITE_IOERR | 8 << 8
pub const SQLITE_IOERR_RDLOCK: i32 = 0x090a; // SQLITE_IOERR | 9 << 8
pub const SQLITE_IOERR_DELETE: i32 = 0x0a0a; // SQLITE_IOERR | 10 << 8
pub const SQLITE_IOERR_BLOCKED: i32 = 0x0b0a; // SQLITE_IOERR | 11 << 8
pub const SQLITE_IOERR_NOMEM: i32 = 0x0c0a; // SQLITE_IOERR | 12 << 8
pub const SQLITE_IOERR_ACCESS: i32 = 0x0d0a; // SQLITE_IOERR | 13 << 8
pub const SQLITE_IOERR_CHECKRESERVEDLOCK: i32 = 0x0e0a; // SQLITE_IOERR | 14 << 8
pub const SQLITE_IOERR_LOCK: i32 = 0x0f0a; // SQLITE_IOERR | 15 << 8
pub const SQLITE_IOERR_CLOSE: i32 = 0x100a; // SQLITE_IOERR | 16 << 8
pub const SQLITE_IOERR_DIR_CLOSE: i32 = 0x110a; // SQLITE_IOERR | 17 << 8
pub const SQLITE_IOERR_SHMOPEN: i32 = 0x120a; // SQLITE_IOERR | 18 << 8
pub const SQLITE_IOERR_SHMSIZE: i32 = 0x130a; // SQLITE_IOERR | 19 << 8
pub const SQLITE_IOERR_SHMLOCK: i32 = 0x140a; // SQLITE_IOERR | 20 << 8
pub const SQLITE_IOERR_SHMMAP: i32 = 0x150a; // SQLITE_IOERR | 21 << 8
pub const SQLITE_IOERR_SEEK: i32 = 0x160a; // SQLITE_IOERR | 22 << 8
pub const SQLITE_IOERR_DELETE_NOENT: i32 = 0x170a; // SQLITE_IOERR | 23 << 8
pub const SQLITE_IOERR_MMAP: i32 = 0x180a; // SQLITE_IOERR | 24 << 8
pub const SQLITE_IOERR_GETTEMPPATH: i32 = 0x190a; // SQLITE_IOERR | 25 << 8
pub const SQLITE_IOERR_CONVPATH: i32 = 0x1a0a; // SQLITE_IOERR | 26 << 8
pub const SQLITE_IOERR_VNODE: i32 = 0x1b0a; // SQLITE_IOERR | 27 << 8
pub const SQLITE_IOERR_AUTH: i32 = 0x1c0a; // SQLITE_IOERR | 28 << 8
pub const SQLITE_IOERR_BEGIN_ATOMIC: i32 = 0x1d0a; // SQLITE_IOERR | 29 << 8
pub const SQLITE_IOERR_COMMIT_ATOMIC: i32 = 0x1e0a; // SQLITE_IOERR | 30 << 8
pub const SQLITE_IOERR_ROLLBACK_ATOMIC: i32 = 0x1f0a; // SQLITE_IOERR | 31 << 8
pub const SQLITE_IOERR_DATA: i32 = 0x200a; // SQLITE_IOERR | 32 << 8
pub const SQLITE_IOERR_CORRUPTFS: i32 = 0x210a; // SQLITE_IOERR | 33 << 8
pub const SQLITE_LOCKED_SHAREDCACHE: i32 = 0x0106; // SQLITE_LOCKED | 1 << 8
pub const SQLITE_LOCKED_VTAB: i32 = 0x0206; // SQLITE_LOCKED | 2 << 8
pub const SQLITE_BUSY_RECOVERY: i32 = 0x0105; // SQLITE_BUSY | 1 << 8
pub const SQLITE_BUSY_SNAPSHOT: i32 = 0x0205; // SQLITE_BUSY | 2 << 8
pub const SQLITE_BUSY_TIMEOUT: i32 = 0x0305; // SQLITE_BUSY | 3 << 8
pub const SQLITE_CANTOPEN_NOTEMPDIR: i32 = 0x010e; // SQLITE_CANTOPEN | 1 << 8
pub const SQLITE_CANTOPEN_ISDIR: i32 = 0x020e; // SQLITE_CANTOPEN | 2 << 8
pub const SQLITE_CANTOPEN_FULLPATH: i32 = 0x030e; // SQLITE_CANTOPEN | 3 << 8
pub const SQLITE_CANTOPEN_CONVPATH: i32 = 0x040e; // SQLITE_CANTOPEN | 4 << 8
pub const SQLITE_CANTOPEN_DIRTYWAL: i32 = 0x050e; // SQLITE_CANTOPEN | 5 << 8
pub const SQLITE_CANTOPEN_SYMLINK: i32 = 0x060e; // SQLITE_CANTOPEN | 6 << 8
pub const SQLITE_CORRUPT_VTAB: i32 = 0x010b; // SQLITE_CORRUPT | 1 << 8
pub const SQLITE_CORRUPT_SEQUENCE: i32 = 0x020b; // SQLITE_CORRUPT | 2 << 8
pub const SQLITE_CORRUPT_INDEX: i32 = 0x030b; // SQLITE_CORRUPT | 3 << 8
pub const SQLITE_READONLY_RECOVERY: i32 = 0x0108; // SQLITE_READONLY | 1 << 8
pub const SQLITE_READONLY_CANTLOCK: i32 = 0x0208; // SQLITE_READONLY | 2 << 8
pub const SQLITE_READONLY_ROLLBACK: i32 = 0x0308; // SQLITE_READONLY | 3 << 8
pub const SQLITE_READONLY_DBMOVED: i32 = 0x0408; // SQLITE_READONLY | 4 << 8
pub const SQLITE_READONLY_CANTINIT: i32 = 0x0508; // SQLITE_READONLY | 5 << 8
pub const SQLITE_READONLY_DIRECTORY: i32 = 0x0608; // SQLITE_READONLY | 6 << 8
pub const SQLITE_ABORT_ROLLBACK: i32 = 0x0204; // SQLITE_ABORT | 2 << 8
pub const SQLITE_CONSTRAINT_CHECK: i32 = 0x0113; // SQLITE_CONSTRAINT | 1 << 8
pub const SQLITE_CONSTRAINT_COMMITHOOK: i32 = 0x0213; // SQLITE_CONSTRAINT | 2 << 8
pub const SQLITE_CONSTRAINT_FOREIGNKEY: i32 = 0x0313; // SQLITE_CONSTRAINT | 3 << 8
pub const SQLITE_CONSTRAINT_FUNCTION: i32 = 0x0413; // SQLITE_CONSTRAINT | 4 << 8
pub const SQLITE_CONSTRAINT_NOTNULL: i32 = 0x0513; // SQLITE_CONSTRAINT | 5 << 8
pub const SQLITE_CONSTRAINT_PRIMARYKEY: i32 = 0x0613; // SQLITE_CONSTRAINT | 6 << 8
pub const SQLITE_CONSTRAINT_TRIGGER: i32 = 0x0713; // SQLITE_CONSTRAINT | 7 << 8
pub const SQLITE_CONSTRAINT_UNIQUE: i32 = 0x0813; // SQLITE_CONSTRAINT | 8 << 8
pub const SQLITE_CONSTRAINT_VTAB: i32 = 0x0913; // SQLITE_CONSTRAINT | 9 << 8
pub const SQLITE_CONSTRAINT_ROWID: i32 = 0x0a13; // SQLITE_CONSTRAINT | 10 << 8
pub const SQLITE_CONSTRAINT_PINNED: i32 = 0x0b13; // SQLITE_CONSTRAINT | 11 << 8
pub const SQLITE_CONSTRAINT_DATATYPE: i32 = 0x0c13; // SQLITE_CONSTRAINT | 12 << 8
pub const SQLITE_AUTH_USER: i32 = 0x0117; // SQLITE_AUTH | 1 << 8

/// The bit that marks a result code as defined by Squire rather than SQLite.
pub const SQUIRE_ERROR: i32 = 0xc0;
/// Squire's category of column-fetch errors.
pub const SQUIRE_ERROR_FETCH: i32 = 0x00c1; // SQUIRE_ERROR | 1
pub const SQUIRE_ERROR_FETCH_PARSE: i32 = 0x01c1; // SQUIRE_ERROR_FETCH | 1 << 8
pub const SQUIRE_ERROR_FETCH_RANGE: i32 = 0x02c1; // SQUIRE_ERROR_FETCH | 2 << 8
/// Squire's category of parameter-binding errors.
pub const SQUIRE_ERROR_PARAMETER: i32 = 0x00c2; // SQUIRE_ERROR | 2
pub const SQUIRE_ERROR_PARAMETER_BIND: i32 = 0x01c2; // SQUIRE_ERROR_PARAMETER | 1 << 8
pub const SQUIRE_ERROR_PARAMETER_RANGE: i32 = 0x02c2; // SQUIRE_ERROR_PARAMETER | 2 << 8
pub const SQUIRE_ERROR_PARAMETER_RESOLVE: i32 = 0x03c2; // SQUIRE_ERROR_PARAMETER | 3 << 8
pub const SQUIRE_ERROR_PARAMETER_INVALID_INDEX: i32 = 0x04c2; // SQUIRE_ERROR_PARAMETER | 4 << 8
/// Squire's category of row-retrieval errors.
pub const SQUIRE_ERROR_ROW: i32 = 0x00c3; // SQUIRE_ERROR | 3
pub const SQUIRE_ERROR_ROW_NOT_RETURNED: i32 = 0x01c3; // SQUIRE_ERROR_ROW | 1 << 8

pub const SQLITE_OPEN_READONLY: i32 = 0x0000_0001;
pub const SQLITE_OPEN_READWRITE: i32 = 0x0000_0002;
pub const SQLITE_OPEN_CREATE: i32 = 0x0000_0004;
pub const SQLITE_OPEN_URI: i32 = 0x0000_0040;
pub const SQLITE_OPEN_MEMORY: i32 = 0x0000_0080;
pub const SQLITE_OPEN_NOMUTEX: i32 = 0x0000_8000;
pub const SQLITE_OPEN_FULLMUTEX: i32 = 0x0001_0000;
pub const SQLITE_OPEN_NOFOLLOW: i32 = 0x0100_0000;
/// Extended result codes are reported for the connection.
pub const SQLITE_OPEN_EXRESCODE: i32 = 0x0200_0000;

pub const SQLITE_PREPARE_PERSISTENT: u32 = 0x01;
pub const SQLITE_PREPARE_NO_VTAB: u32 = 0x04;
pub const SQLITE_PREPARE_DONT_LOG: u32 = 0x10;

} // verus!
