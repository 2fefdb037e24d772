//! Result codes: the raw numbers SQLite (and Squire) return.

use vstd::prelude::*;

use crate::hex::{hex_chars, push_hex_padded, zero_padded};

use crate::codes::{
    SQLITE_ABORT, SQLITE_ABORT_ROLLBACK, SQLITE_AUTH, SQLITE_AUTH_USER, SQLITE_BUSY,
    SQLITE_BUSY_RECOVERY, SQLITE_BUSY_SNAPSHOT, SQLITE_BUSY_TIMEOUT, SQLITE_CANTOPEN,
    SQLITE_CANTOPEN_CONVPATH, SQLITE_CANTOPEN_DIRTYWAL, SQLITE_CANTOPEN_FULLPATH,
    SQLITE_CANTOPEN_ISDIR, SQLITE_CANTOPEN_NOTEMPDIR, SQLITE_CANTOPEN_SYMLINK, SQLITE_CONSTRAINT,
    SQLITE_CONSTRAINT_CHECK, SQLITE_CONSTRAINT_COMMITHOOK, SQLITE_CONSTRAINT_DATATYPE,
    SQLITE_CONSTRAINT_FOREIGNKEY, SQLITE_CONSTRAINT_FUNCTION, SQLITE_CONSTRAINT_NOTNULL,
    SQLITE_CONSTRAINT_PINNED, SQLITE_CONSTRAINT_PRIMARYKEY, SQLITE_CONSTRAINT_ROWID,
    SQLITE_CONSTRAINT_TRIGGER, SQLITE_CONSTRAINT_UNIQUE, SQLITE_CONSTRAINT_VTAB, SQLITE_CORRUPT,
    SQLITE_CORRUPT_INDEX, SQLITE_CORRUPT_SEQUENCE, SQLITE_CORRUPT_VTAB, SQLITE_EMPTY, SQLITE_ERROR,
    SQLITE_ERROR_MISSING_COLLSEQ, SQLITE_ERROR_RETRY, SQLITE_ERROR_SNAPSHOT, SQLITE_FORMAT,
    SQLITE_FULL, SQLITE_INTERNAL, SQLITE_INTERRUPT, SQLITE_IOERR, SQLITE_IOERR_ACCESS,
    SQLITE_IOERR_AUTH, SQLITE_IOERR_BEGIN_ATOMIC, SQLITE_IOERR_BLOCKED,
    SQLITE_IOERR_CHECKRESERVEDLOCK, SQLITE_IOERR_CLOSE, SQLITE_IOERR_COMMIT_ATOMIC,
    SQLITE_IOERR_CONVPATH, SQLITE_IOERR_CORRUPTFS, SQLITE_IOERR_DATA, SQLITE_IOERR_DELETE,
    SQLITE_IOERR_DELETE_NOENT, SQLITE_IOERR_DIR_CLOSE, SQLITE_IOERR_DIR_FSYNC, SQLITE_IOERR_FSTAT,
    SQLITE_IOERR_FSYNC, SQLITE_IOERR_GETTEMPPATH, SQLITE_IOERR_LOCK, SQLITE_IOERR_MMAP,
    SQLITE_IOERR_NOMEM, SQLITE_IOERR_RDLOCK, SQLITE_IOERR_READ, SQLITE_IOERR_ROLLBACK_ATOMIC,
    SQLITE_IOERR_SEEK, SQLITE_IOERR_SHMLOCK, SQLITE_IOERR_SHMMAP, SQLITE_IOERR_SHMOPEN,
    SQLITE_IOERR_SHMSIZE, SQLITE_IOERR_SHORT_READ, SQLITE_IOERR_TRUNCATE, SQLITE_IOERR_UNLOCK,
    SQLITE_IOERR_VNODE, SQLITE_IOERR_WRITE, SQLITE_LOCKED, SQLITE_LOCKED_SHAREDCACHE,
    SQLITE_LOCKED_VTAB, SQLITE_MISMATCH, SQLITE_MISUSE, SQLITE_NOLFS, SQLITE_NOMEM, SQLITE_NOTADB,
    SQLITE_NOTFOUND, SQLITE_PERM, SQLITE_PROTOCOL, SQLITE_RANGE, SQLITE_READONLY,
    SQLITE_READONLY_CANTINIT, SQLITE_READONLY_CANTLOCK, SQLITE_READONLY_DBMOVED,
    SQLITE_READONLY_DIRECTORY, SQLITE_READONLY_RECOVERY, SQLITE_READONLY_ROLLBACK, SQLITE_SCHEMA,
    SQLITE_TOOBIG, SQUIRE_ERROR, SQUIRE_ERROR_FETCH, SQUIRE_ERROR_FETCH_PARSE,
    SQUIRE_ERROR_FETCH_RANGE, SQUIRE_ERROR_PARAMETER, SQUIRE_ERROR_PARAMETER_BIND,
    SQUIRE_ERROR_PARAMETER_INVALID_INDEX, SQUIRE_ERROR_PARAMETER_RANGE,
    SQUIRE_ERROR_PARAMETER_RESOLVE,
};

verus! {

/// A SQLite error result code (never zero).
///
/// `ErrorCode` can also represent an error returned by Squire.
#[derive(PartialEq, Eq, Structural, Copy, Clone, Debug)]
pub struct ErrorCode(i32);

/// `true` when a result code is one that Squire defines: one of the bits
/// `0xc0` of its low byte is set, that is, its low byte is at least `0x40`.
pub open spec fn is_squire_code(code: i32) -> bool {
    code % 256 >= 0x40
}

/// The name of the constant for a result code, if the library knows it:
/// `SQLITE_` followed by SQLite's name for its codes, `SQUIRE_ERROR` and
/// a suffix for those Squire defines.
pub open spec fn code_name(code: i32) -> Option<Seq<char>> {
    match code {
        SQLITE_ABORT => Some("SQLITE_ABORT"@),
        SQLITE_AUTH => Some("SQLITE_AUTH"@),
        SQLITE_BUSY => Some("SQLITE_BUSY"@),
        SQLITE_CANTOPEN => Some("SQLITE_CANTOPEN"@),
        SQLITE_CONSTRAINT => Some("SQLITE_CONSTRAINT"@),
        SQLITE_CORRUPT => Some("SQLITE_CORRUPT"@),
        SQLITE_EMPTY => Some("SQLITE_EMPTY"@),
        SQLITE_ERROR => Some("SQLITE_ERROR"@),
        SQLITE_FORMAT => Some("SQLITE_FORMAT"@),
        SQLITE_FULL => Some("SQLITE_FULL"@),
        SQLITE_INTERNAL => Some("SQLITE_INTERNAL"@),
        SQLITE_INTERRUPT => Some("SQLITE_INTERRUPT"@),
        SQLITE_IOERR => Some("SQLITE_IOERR"@),
        SQLITE_LOCKED => Some("SQLITE_LOCKED"@),
        SQLITE_MISMATCH => Some("SQLITE_MISMATCH"@),
        SQLITE_MISUSE => Some("SQLITE_MISUSE"@),
        SQLITE_NOLFS => Some("SQLITE_NOLFS"@),
        SQLITE_NOMEM => Some("SQLITE_NOMEM"@),
        SQLITE_NOTADB => Some("SQLITE_NOTADB"@),
        SQLITE_NOTFOUND => Some("SQLITE_NOTFOUND"@),
        SQLITE_PERM => Some("SQLITE_PERM"@),
        SQLITE_PROTOCOL => Some("SQLITE_PROTOCOL"@),
        SQLITE_RANGE => Some("SQLITE_RANGE"@),
        SQLITE_READONLY => Some("SQLITE_READONLY"@),
        SQLITE_SCHEMA => Some("SQLITE_SCHEMA"@),
        SQLITE_TOOBIG => Some("SQLITE_TOOBIG"@),
        SQLITE_ABORT_ROLLBACK => Some("SQLITE_ABORT_ROLLBACK"@),
        SQLITE_AUTH_USER => Some("SQLITE_AUTH_USER"@),
        SQLITE_BUSY_RECOVERY => Some("SQLITE_BUSY_RECOVERY"@),
        SQLITE_BUSY_SNAPSHOT => Some("SQLITE_BUSY_SNAPSHOT"@),
        SQLITE_BUSY_TIMEOUT => Some("SQLITE_BUSY_TIMEOUT"@),
        SQLITE_CANTOPEN_CONVPATH => Some("SQLITE_CANTOPEN_CONVPATH"@),
        SQLITE_CANTOPEN_DIRTYWAL => Some("SQLITE_CANTOPEN_DIRTYWAL"@),
        SQLITE_CANTOPEN_FULLPATH => Some("SQLITE_CANTOPEN_FULLPATH"@),
        SQLITE_CANTOPEN_ISDIR => Some("SQLITE_CANTOPEN_ISDIR"@),
        SQLITE_CANTOPEN_NOTEMPDIR => Some("SQLITE_CANTOPEN_NOTEMPDIR"@),
        SQLITE_CANTOPEN_SYMLINK => Some("SQLITE_CANTOPEN_SYMLINK"@),
        SQLITE_CONSTRAINT_CHECK => Some("SQLITE_CONSTRAINT_CHECK"@),
        SQLITE_CONSTRAINT_COMMITHOOK => Some("SQLITE_CONSTRAINT_COMMITHOOK"@),
        SQLITE_CONSTRAINT_DATATYPE => Some("SQLITE_CONSTRAINT_DATATYPE"@),
        SQLITE_CONSTRAINT_FOREIGNKEY => Some("SQLITE_CONSTRAINT_FOREIGNKEY"@),
        SQLITE_CONSTRAINT_FUNCTION => Some("SQLITE_CONSTRAINT_FUNCTION"@),
        SQLITE_CONSTRAINT_NOTNULL => Some("SQLITE_CONSTRAINT_NOTNULL"@),
        SQLITE_CONSTRAINT_PINNED => Some("SQLITE_CONSTRAINT_PINNED"@),
        SQLITE_CONSTRAINT_PRIMARYKEY => Some("SQLITE_CONSTRAINT_PRIMARYKEY"@),
        SQLITE_CONSTRAINT_ROWID => Some("SQLITE_CONSTRAINT_ROWID"@),
        SQLITE_CONSTRAINT_TRIGGER => Some("SQLITE_CONSTRAINT_TRIGGER"@),
        SQLITE_CONSTRAINT_UNIQUE => Some("SQLITE_CONSTRAINT_UNIQUE"@),
        SQLITE_CONSTRAINT_VTAB => Some("SQLITE_CONSTRAINT_VTAB"@),
        SQLITE_CORRUPT_INDEX => Some("SQLITE_CORRUPT_INDEX"@),
        SQLITE_CORRUPT_SEQUENCE => Some("SQLITE_CORRUPT_SEQUENCE"@),
        SQLITE_CORRUPT_VTAB => Some("SQLITE_CORRUPT_VTAB"@),
        SQLITE_ERROR_MISSING_COLLSEQ => Some("SQLITE_ERROR_MISSING_COLLSEQ"@),
        SQLITE_ERROR_RETRY => Some("SQLITE_ERROR_RETRY"@),
        SQLITE_ERROR_SNAPSHOT => Some("SQLITE_ERROR_SNAPSHOT"@),
        SQLITE_IOERR_ACCESS => Some("SQLITE_IOERR_ACCESS"@),
        SQLITE_IOERR_AUTH => Some("SQLITE_IOERR_AUTH"@),
        SQLITE_IOERR_BEGIN_ATOMIC => Some("SQLITE_IOERR_BEGIN_ATOMIC"@),
        SQLITE_IOERR_BLOCKED => Some("SQLITE_IOERR_BLOCKED"@),
        SQLITE_IOERR_CHECKRESERVEDLOCK => Some("SQLITE_IOERR_CHECKRESERVEDLOCK"@),
        SQLITE_IOERR_CLOSE => Some("SQLITE_IOERR_CLOSE"@),
        SQLITE_IOERR_COMMIT_ATOMIC => Some("SQLITE_IOERR_COMMIT_ATOMIC"@),
        SQLITE_IOERR_CONVPATH => Some("SQLITE_IOERR_CONVPATH"@),
        SQLITE_IOERR_CORRUPTFS => Some("SQLITE_IOERR_CORRUPTFS"@),
        SQLITE_IOERR_DATA => Some("SQLITE_IOERR_DATA"@),
        SQLITE_IOERR_DELETE => Some("SQLITE_IOERR_DELETE"@),
        SQLITE_IOERR_DELETE_NOENT => Some("SQLITE_IOERR_DELETE_NOENT"@),
        SQLITE_IOERR_DIR_CLOSE => Some("SQLITE_IOERR_DIR_CLOSE"@),
        SQLITE_IOERR_DIR_FSYNC => Some("SQLITE_IOERR_DIR_FSYNC"@),
        SQLITE_IOERR_FSTAT => Some("SQLITE_IOERR_FSTAT"@),
        SQLITE_IOERR_FSYNC => Some("SQLITE_IOERR_FSYNC"@),
        SQLITE_IOERR_GETTEMPPATH => Some("SQLITE_IOERR_GETTEMPPATH"@),
        SQLITE_IOERR_LOCK => Some("SQLITE_IOERR_LOCK"@),
        SQLITE_IOERR_MMAP => Some("SQLITE_IOERR_MMAP"@),
        SQLITE_IOERR_NOMEM => Some("SQLITE_IOERR_NOMEM"@),
        SQLITE_IOERR_RDLOCK => Some("SQLITE_IOERR_RDLOCK"@),
        SQLITE_IOERR_READ => Some("SQLITE_IOERR_READ"@),
        SQLITE_IOERR_ROLLBACK_ATOMIC => Some("SQLITE_IOERR_ROLLBACK_ATOMIC"@),
        SQLITE_IOERR_SEEK => Some("SQLITE_IOERR_SEEK"@),
        SQLITE_IOERR_SHMLOCK => Some("SQLITE_IOERR_SHMLOCK"@),
        SQLITE_IOERR_SHMMAP => Some("SQLITE_IOERR_SHMMAP"@),
        SQLITE_IOERR_SHMOPEN => Some("SQLITE_IOERR_SHMOPEN"@),
        SQLITE_IOERR_SHMSIZE => Some("SQLITE_IOERR_SHMSIZE"@),
        SQLITE_IOERR_SHORT_READ => Some("SQLITE_IOERR_SHORT_READ"@),
        SQLITE_IOERR_TRUNCATE => Some("SQLITE_IOERR_TRUNCATE"@),
        SQLITE_IOERR_UNLOCK => Some("SQLITE_IOERR_UNLOCK"@),
        SQLITE_IOERR_VNODE => Some("SQLITE_IOERR_VNODE"@),
        SQLITE_IOERR_WRITE => Some("SQLITE_IOERR_WRITE"@),
        SQLITE_LOCKED_SHAREDCACHE => Some("SQLITE_LOCKED_SHAREDCACHE"@),
        SQLITE_LOCKED_VTAB => Some("SQLITE_LOCKED_VTAB"@),
        SQLITE_READONLY_CANTINIT => Some("SQLITE_READONLY_CANTINIT"@),
        SQLITE_READONLY_CANTLOCK => Some("SQLITE_READONLY_CANTLOCK"@),
        SQLITE_READONLY_DBMOVED => Some("SQLITE_READONLY_DBMOVED"@),
        SQLITE_READONLY_DIRECTORY => Some("SQLITE_READONLY_DIRECTORY"@),
        SQLITE_READONLY_RECOVERY => Some("SQLITE_READONLY_RECOVERY"@),
        SQLITE_READONLY_ROLLBACK => Some("SQLITE_READONLY_ROLLBACK"@),
        SQUIRE_ERROR => Some("SQUIRE_ERROR"@),
        SQUIRE_ERROR_FETCH => Some("SQUIRE_ERROR_FETCH"@),
        SQUIRE_ERROR_FETCH_PARSE => Some("SQUIRE_ERROR_FETCH_PARSE"@),
        SQUIRE_ERROR_FETCH_RANGE => Some("SQUIRE_ERROR_FETCH_RANGE"@),
        SQUIRE_ERROR_PARAMETER => Some("SQUIRE_ERROR_PARAMETER"@),
        SQUIRE_ERROR_PARAMETER_BIND => Some("SQUIRE_ERROR_PARAMETER_BIND"@),
        SQUIRE_ERROR_PARAMETER_RANGE => Some("SQUIRE_ERROR_PARAMETER_RANGE"@),
        SQUIRE_ERROR_PARAMETER_RESOLVE => Some("SQUIRE_ERROR_PARAMETER_RESOLVE"@),
        _ => None,
    }
}

/// The description Squire gives of one of its own result codes; the other
/// codes are described by SQLite.
pub open spec fn squire_code_description(code: i32) -> Option<Seq<char>> {
    match code {
        SQUIRE_ERROR_FETCH => Some("error fetching column value"@),
        SQUIRE_ERROR_FETCH_PARSE => Some("error parsing column value"@),
        SQUIRE_ERROR_FETCH_RANGE => Some("column value out of range"@),
        SQUIRE_ERROR_PARAMETER => Some("error binding parameter"@),
        SQUIRE_ERROR_PARAMETER_BIND => Some("error binding parameter value"@),
        SQUIRE_ERROR_PARAMETER_RANGE => Some("parameter value out of range"@),
        SQUIRE_ERROR_PARAMETER_RESOLVE => Some("error resolving parameter index"@),
        SQUIRE_ERROR_PARAMETER_INVALID_INDEX => Some("parameter index must be > 0"@),
        _ => None,
    }
}

/// The name of a code tells where the code comes from: the name of a code
/// from SQLite starts with `SQLITE_`, that of a code Squire defines with
/// `SQUIRE_ERROR`.
pub proof fn lemma_code_name_prefix(code: i32)
    ensures
        code_name(code) matches Some(n) ==> {
            &&& !is_squire_code(code) ==> "SQLITE_"@.is_prefix_of(n)
            &&& is_squire_code(code) ==> "SQUIRE_ERROR"@.is_prefix_of(n)
        },
{
    reveal_strlit("SQLITE_");
    reveal_strlit("SQUIRE_ERROR");
    match code {
        SQLITE_ABORT => {
            reveal_strlit("SQLITE_ABORT");
        },
        SQLITE_AUTH => {
            reveal_strlit("SQLITE_AUTH");
        },
        SQLITE_BUSY => {
            reveal_strlit("SQLITE_BUSY");
        },
        SQLITE_CANTOPEN => {
            reveal_strlit("SQLITE_CANTOPEN");
        },
        SQLITE_CONSTRAINT => {
            reveal_strlit("SQLITE_CONSTRAINT");
        },
        SQLITE_CORRUPT => {
            reveal_strlit("SQLITE_CORRUPT");
        },
        SQLITE_EMPTY => {
            reveal_strlit("SQLITE_EMPTY");
        },
        SQLITE_ERROR => {
            reveal_strlit("SQLITE_ERROR");
        },
        SQLITE_FORMAT => {
            reveal_strlit("SQLITE_FORMAT");
        },
        SQLITE_FULL => {
            reveal_strlit("SQLITE_FULL");
        },
        SQLITE_INTERNAL => {
            reveal_strlit("SQLITE_INTERNAL");
        },
        SQLITE_INTERRUPT => {
            reveal_strlit("SQLITE_INTERRUPT");
        },
        SQLITE_IOERR => {
            reveal_strlit("SQLITE_IOERR");
        },
        SQLITE_LOCKED => {
            reveal_strlit("SQLITE_LOCKED");
        },
        SQLITE_MISMATCH => {
            reveal_strlit("SQLITE_MISMATCH");
        },
        SQLITE_MISUSE => {
            reveal_strlit("SQLITE_MISUSE");
        },
        SQLITE_NOLFS => {
            reveal_strlit("SQLITE_NOLFS");
        },
        SQLITE_NOMEM => {
            reveal_strlit("SQLITE_NOMEM");
        },
        SQLITE_NOTADB => {
            reveal_strlit("SQLITE_NOTADB");
        },
        SQLITE_NOTFOUND => {
            reveal_strlit("SQLITE_NOTFOUND");
        },
        SQLITE_PERM => {
            reveal_strlit("SQLITE_PERM");
        },
        SQLITE_PROTOCOL => {
            reveal_strlit("SQLITE_PROTOCOL");
        },
        SQLITE_RANGE => {
            reveal_strlit("SQLITE_RANGE");
        },
        SQLITE_READONLY => {
            reveal_strlit("SQLITE_READONLY");
        },
        SQLITE_SCHEMA => {
            reveal_strlit("SQLITE_SCHEMA");
        },
        SQLITE_TOOBIG => {
            reveal_strlit("SQLITE_TOOBIG");
        },
        SQLITE_ABORT_ROLLBACK => {
            reveal_strlit("SQLITE_ABORT_ROLLBACK");
        },
        SQLITE_AUTH_USER => {
            reveal_strlit("SQLITE_AUTH_USER");
        },
        SQLITE_BUSY_RECOVERY => {
            reveal_strlit("SQLITE_BUSY_RECOVERY");
        },
        SQLITE_BUSY_SNAPSHOT => {
            reveal_strlit("SQLITE_BUSY_SNAPSHOT");
        },
        SQLITE_BUSY_TIMEOUT => {
            reveal_strlit("SQLITE_BUSY_TIMEOUT");
        },
        SQLITE_CANTOPEN_CONVPATH => {
            reveal_strlit("SQLITE_CANTOPEN_CONVPATH");
        },
        SQLITE_CANTOPEN_DIRTYWAL => {
            reveal_strlit("SQLITE_CANTOPEN_DIRTYWAL");
        },
        SQLITE_CANTOPEN_FULLPATH => {
            reveal_strlit("SQLITE_CANTOPEN_FULLPATH");
        },
        SQLITE_CANTOPEN_ISDIR => {
            reveal_strlit("SQLITE_CANTOPEN_ISDIR");
        },
        SQLITE_CANTOPEN_NOTEMPDIR => {
            reveal_strlit("SQLITE_CANTOPEN_NOTEMPDIR");
        },
        SQLITE_CANTOPEN_SYMLINK => {
            reveal_strlit("SQLITE_CANTOPEN_SYMLINK");
        },
        SQLITE_CONSTRAINT_CHECK => {
            reveal_strlit("SQLITE_CONSTRAINT_CHECK");
        },
        SQLITE_CONSTRAINT_COMMITHOOK => {
            reveal_strlit("SQLITE_CONSTRAINT_COMMITHOOK");
        },
        SQLITE_CONSTRAINT_DATATYPE => {
            reveal_strlit("SQLITE_CONSTRAINT_DATATYPE");
        },
        SQLITE_CONSTRAINT_FOREIGNKEY => {
            reveal_strlit("SQLITE_CONSTRAINT_FOREIGNKEY");
        },
        SQLITE_CONSTRAINT_FUNCTION => {
            reveal_strlit("SQLITE_CONSTRAINT_FUNCTION");
        },
        SQLITE_CONSTRAINT_NOTNULL => {
            reveal_strlit("SQLITE_CONSTRAINT_NOTNULL");
        },
        SQLITE_CONSTRAINT_PINNED => {
            reveal_strlit("SQLITE_CONSTRAINT_PINNED");
        },
        SQLITE_CONSTRAINT_PRIMARYKEY => {
            reveal_strlit("SQLITE_CONSTRAINT_PRIMARYKEY");
        },
        SQLITE_CONSTRAINT_ROWID => {
            reveal_strlit("SQLITE_CONSTRAINT_ROWID");
        },
        SQLITE_CONSTRAINT_TRIGGER => {
            reveal_strlit("SQLITE_CONSTRAINT_TRIGGER");
        },
        SQLITE_CONSTRAINT_UNIQUE => {
            reveal_strlit("SQLITE_CONSTRAINT_UNIQUE");
        },
        SQLITE_CONSTRAINT_VTAB => {
            reveal_strlit("SQLITE_CONSTRAINT_VTAB");
        },
        SQLITE_CORRUPT_INDEX => {
            reveal_strlit("SQLITE_CORRUPT_INDEX");
        },
        SQLITE_CORRUPT_SEQUENCE => {
            reveal_strlit("SQLITE_CORRUPT_SEQUENCE");
        },
        SQLITE_CORRUPT_VTAB => {
            reveal_strlit("SQLITE_CORRUPT_VTAB");
        },
        SQLITE_ERROR_MISSING_COLLSEQ => {
            reveal_strlit("SQLITE_ERROR_MISSING_COLLSEQ");
        },
        SQLITE_ERROR_RETRY => {
            reveal_strlit("SQLITE_ERROR_RETRY");
        },
        SQLITE_ERROR_SNAPSHOT => {
            reveal_strlit("SQLITE_ERROR_SNAPSHOT");
        },
        SQLITE_IOERR_ACCESS => {
            reveal_strlit("SQLITE_IOERR_ACCESS");
        },
        SQLITE_IOERR_AUTH => {
            reveal_strlit("SQLITE_IOERR_AUTH");
        },
        SQLITE_IOERR_BEGIN_ATOMIC => {
            reveal_strlit("SQLITE_IOERR_BEGIN_ATOMIC");
        },
        SQLITE_IOERR_BLOCKED => {
            reveal_strlit("SQLITE_IOERR_BLOCKED");
        },
        SQLITE_IOERR_CHECKRESERVEDLOCK => {
            reveal_strlit("SQLITE_IOERR_CHECKRESERVEDLOCK");
        },
        SQLITE_IOERR_CLOSE => {
            reveal_strlit("SQLITE_IOERR_CLOSE");
        },
        SQLITE_IOERR_COMMIT_ATOMIC => {
            reveal_strlit("SQLITE_IOERR_COMMIT_ATOMIC");
        },
        SQLITE_IOERR_CONVPATH => {
            reveal_strlit("SQLITE_IOERR_CONVPATH");
        },
        SQLITE_IOERR_CORRUPTFS => {
            reveal_strlit("SQLITE_IOERR_CORRUPTFS");
        },
        SQLITE_IOERR_DATA => {
            reveal_strlit("SQLITE_IOERR_DATA");
        },
        SQLITE_IOERR_DELETE => {
            reveal_strlit("SQLITE_IOERR_DELETE");
        },
        SQLITE_IOERR_DELETE_NOENT => {
            reveal_strlit("SQLITE_IOERR_DELETE_NOENT");
        },
        SQLITE_IOERR_DIR_CLOSE => {
            reveal_strlit("SQLITE_IOERR_DIR_CLOSE");
        },
        SQLITE_IOERR_DIR_FSYNC => {
            reveal_strlit("SQLITE_IOERR_DIR_FSYNC");
        },
        SQLITE_IOERR_FSTAT => {
            reveal_strlit("SQLITE_IOERR_FSTAT");
        },
        SQLITE_IOERR_FSYNC => {
            reveal_strlit("SQLITE_IOERR_FSYNC");
        },
        SQLITE_IOERR_GETTEMPPATH => {
            reveal_strlit("SQLITE_IOERR_GETTEMPPATH");
        },
        SQLITE_IOERR_LOCK => {
            reveal_strlit("SQLITE_IOERR_LOCK");
        },
        SQLITE_IOERR_MMAP => {
            reveal_strlit("SQLITE_IOERR_MMAP");
        },
        SQLITE_IOERR_NOMEM => {
            reveal_strlit("SQLITE_IOERR_NOMEM");
        },
        SQLITE_IOERR_RDLOCK => {
            reveal_strlit("SQLITE_IOERR_RDLOCK");
        },
        SQLITE_IOERR_READ => {
            reveal_strlit("SQLITE_IOERR_READ");
        },
        SQLITE_IOERR_ROLLBACK_ATOMIC => {
            reveal_strlit("SQLITE_IOERR_ROLLBACK_ATOMIC");
        },
        SQLITE_IOERR_SEEK => {
            reveal_strlit("SQLITE_IOERR_SEEK");
        },
        SQLITE_IOERR_SHMLOCK => {
            reveal_strlit("SQLITE_IOERR_SHMLOCK");
        },
        SQLITE_IOERR_SHMMAP => {
            reveal_strlit("SQLITE_IOERR_SHMMAP");
        },
        SQLITE_IOERR_SHMOPEN => {
            reveal_strlit("SQLITE_IOERR_SHMOPEN");
        },
        SQLITE_IOERR_SHMSIZE => {
            reveal_strlit("SQLITE_IOERR_SHMSIZE");
        },
        SQLITE_IOERR_SHORT_READ => {
            reveal_strlit("SQLITE_IOERR_SHORT_READ");
        },
        SQLITE_IOERR_TRUNCATE => {
            reveal_strlit("SQLITE_IOERR_TRUNCATE");
        },
        SQLITE_IOERR_UNLOCK => {
            reveal_strlit("SQLITE_IOERR_UNLOCK");
        },
        SQLITE_IOERR_VNODE => {
            reveal_strlit("SQLITE_IOERR_VNODE");
        },
        SQLITE_IOERR_WRITE => {
            reveal_strlit("SQLITE_IOERR_WRITE");
        },
        SQLITE_LOCKED_SHAREDCACHE => {
            reveal_strlit("SQLITE_LOCKED_SHAREDCACHE");
        },
        SQLITE_LOCKED_VTAB => {
            reveal_strlit("SQLITE_LOCKED_VTAB");
        },
        SQLITE_READONLY_CANTINIT => {
            reveal_strlit("SQLITE_READONLY_CANTINIT");
        },
        SQLITE_READONLY_CANTLOCK => {
            reveal_strlit("SQLITE_READONLY_CANTLOCK");
        },
        SQLITE_READONLY_DBMOVED => {
            reveal_strlit("SQLITE_READONLY_DBMOVED");
        },
        SQLITE_READONLY_DIRECTORY => {
            reveal_strlit("SQLITE_READONLY_DIRECTORY");
        },
        SQLITE_READONLY_RECOVERY => {
            reveal_strlit("SQLITE_READONLY_RECOVERY");
        },
        SQLITE_READONLY_ROLLBACK => {
            reveal_strlit("SQLITE_READONLY_ROLLBACK");
        },
        SQUIRE_ERROR => {
            reveal_strlit("SQUIRE_ERROR");
        },
        SQUIRE_ERROR_FETCH => {
            reveal_strlit("SQUIRE_ERROR_FETCH");
        },
        SQUIRE_ERROR_FETCH_PARSE => {
            reveal_strlit("SQUIRE_ERROR_FETCH_PARSE");
        },
        SQUIRE_ERROR_FETCH_RANGE => {
            reveal_strlit("SQUIRE_ERROR_FETCH_RANGE");
        },
        SQUIRE_ERROR_PARAMETER => {
            reveal_strlit("SQUIRE_ERROR_PARAMETER");
        },
        SQUIRE_ERROR_PARAMETER_BIND => {
            reveal_strlit("SQUIRE_ERROR_PARAMETER_BIND");
        },
        SQUIRE_ERROR_PARAMETER_RANGE => {
            reveal_strlit("SQUIRE_ERROR_PARAMETER_RANGE");
        },
        SQUIRE_ERROR_PARAMETER_RESOLVE => {
            reveal_strlit("SQUIRE_ERROR_PARAMETER_RESOLVE");
        },
        _ => {},
    }
}

/// How a result code is written: the name of its constant, or `0x` and at
/// least four lowercase hexadecimal digits of its bits when it has no name.
pub open spec fn code_text(code: i32) -> Seq<char> {
    match code_name(code) {
        Some(name) => name,
        None => "0x"@ + zero_padded(hex_chars(code as u32 as nat), 4),
    }
}

impl View for ErrorCode {
    type V = i32;

    /// The raw result code.
    open spec fn view(&self) -> i32 {
        self.raw_value()
    }
}

impl ErrorCode {
    #[verifier::type_invariant]
    spec fn inv(self) -> bool {
        self.0 != 0
    }

    /// The raw result code.
    pub closed spec fn raw_value(self) -> i32 {
        self.0
    }

    /// The code whose raw value is `code` (meaningful when `code` is not
    /// zero).
    pub closed spec fn with_raw(code: i32) -> ErrorCode {
        ErrorCode(code)
    }

    /// A code is determined by its raw value.
    pub proof fn lemma_with_raw_view(c: ErrorCode)
        ensures
            ErrorCode::with_raw(c@) == c,
    {
    }

    /// The code made from a raw value has that raw value.
    pub proof fn lemma_raw_of_with_raw(code: i32)
        ensures
            ErrorCode::with_raw(code)@ == code,
    {
    }

    /// Wrap a return value from SQLite in an [`ErrorCode`].
    ///
    /// Returns `None` if `code` is 0.
    pub fn new(code: i32) -> (r: Option<Self>)
        ensures
            r is Some <==> code != 0,
            r matches Some(c) ==> c@ == code && c == ErrorCode::with_raw(code),
    {
        if code != 0 {
            Some(ErrorCode(code))
        } else {
            None
        }
    }

    /// Wrap a result code that is known not to be zero.
    pub(crate) fn define(code: i32) -> (r: Self)
        requires
            code != 0,
        ensures
            r@ == code,
            r == ErrorCode::with_raw(code),
    {
        ErrorCode(code)
    }

    /// The error code itself as an [`i32`].
    pub fn raw(&self) -> (r: i32)
        ensures
            r == self@,
            r != 0,
    {
        proof {
            use_type_invariant(self);
        }
        self.0
    }

    /// `true` if this error code originated from within SQLite.
    pub fn is_sqlite(&self) -> (r: bool)
        ensures
            r == !is_squire_code(self@),
    {
        !self.is_squire()
    }

    /// `true` if this error code originated from Squire, or a crate it
    /// integrates with.
    pub fn is_squire(&self) -> (r: bool)
        ensures
            r == is_squire_code(self@),
    {
        let code = self.raw();
        assert((code & 0xc0 != 0) <==> (code % 256 >= 0x40)) by (bit_vector);
        code & SQUIRE_ERROR != 0
    }
    /// The name of the error code constant: `SQLITE_` and SQLite's name for
    /// its codes, `SQUIRE_ERROR` and a suffix for those Squire defines;
    /// `None` for a code the library does not know.
    pub fn name(&self) -> (r: Option<&'static str>)
        ensures
            r is Some <==> code_name(self@) is Some,
            r matches Some(n) ==> code_name(self@) == Some(n@),
    {
        match self.raw() {
            SQLITE_ABORT => Some("SQLITE_ABORT"),
            SQLITE_AUTH => Some("SQLITE_AUTH"),
            SQLITE_BUSY => Some("SQLITE_BUSY"),
            SQLITE_CANTOPEN => Some("SQLITE_CANTOPEN"),
            SQLITE_CONSTRAINT => Some("SQLITE_CONSTRAINT"),
            SQLITE_CORRUPT => Some("SQLITE_CORRUPT"),
            SQLITE_EMPTY => Some("SQLITE_EMPTY"),
            SQLITE_ERROR => Some("SQLITE_ERROR"),
            SQLITE_FORMAT => Some("SQLITE_FORMAT"),
            SQLITE_FULL => Some("SQLITE_FULL"),
            SQLITE_INTERNAL => Some("SQLITE_INTERNAL"),
            SQLITE_INTERRUPT => Some("SQLITE_INTERRUPT"),
            SQLITE_IOERR => Some("SQLITE_IOERR"),
            SQLITE_LOCKED => Some("SQLITE_LOCKED"),
            SQLITE_MISMATCH => Some("SQLITE_MISMATCH"),
            SQLITE_MISUSE => Some("SQLITE_MISUSE"),
            SQLITE_NOLFS => Some("SQLITE_NOLFS"),
            SQLITE_NOMEM => Some("SQLITE_NOMEM"),
            SQLITE_NOTADB => Some("SQLITE_NOTADB"),
            SQLITE_NOTFOUND => Some("SQLITE_NOTFOUND"),
            SQLITE_PERM => Some("SQLITE_PERM"),
            SQLITE_PROTOCOL => Some("SQLITE_PROTOCOL"),
            SQLITE_RANGE => Some("SQLITE_RANGE"),
            SQLITE_READONLY => Some("SQLITE_READONLY"),
            SQLITE_SCHEMA => Some("SQLITE_SCHEMA"),
            SQLITE_TOOBIG => Some("SQLITE_TOOBIG"),
            SQLITE_ABORT_ROLLBACK => Some("SQLITE_ABORT_ROLLBACK"),
            SQLITE_AUTH_USER => Some("SQLITE_AUTH_USER"),
            SQLITE_BUSY_RECOVERY => Some("SQLITE_BUSY_RECOVERY"),
            SQLITE_BUSY_SNAPSHOT => Some("SQLITE_BUSY_SNAPSHOT"),
            SQLITE_BUSY_TIMEOUT => Some("SQLITE_BUSY_TIMEOUT"),
            SQLITE_CANTOPEN_CONVPATH => Some("SQLITE_CANTOPEN_CONVPATH"),
            SQLITE_CANTOPEN_DIRTYWAL => Some("SQLITE_CANTOPEN_DIRTYWAL"),
            SQLITE_CANTOPEN_FULLPATH => Some("SQLITE_CANTOPEN_FULLPATH"),
            SQLITE_CANTOPEN_ISDIR => Some("SQLITE_CANTOPEN_ISDIR"),
            SQLITE_CANTOPEN_NOTEMPDIR => Some("SQLITE_CANTOPEN_NOTEMPDIR"),
            SQLITE_CANTOPEN_SYMLINK => Some("SQLITE_CANTOPEN_SYMLINK"),
            SQLITE_CONSTRAINT_CHECK => Some("SQLITE_CONSTRAINT_CHECK"),
            SQLITE_CONSTRAINT_COMMITHOOK => Some("SQLITE_CONSTRAINT_COMMITHOOK"),
            SQLITE_CONSTRAINT_DATATYPE => Some("SQLITE_CONSTRAINT_DATATYPE"),
            SQLITE_CONSTRAINT_FOREIGNKEY => Some("SQLITE_CONSTRAINT_FOREIGNKEY"),
            SQLITE_CONSTRAINT_FUNCTION => Some("SQLITE_CONSTRAINT_FUNCTION"),
            SQLITE_CONSTRAINT_NOTNULL => Some("SQLITE_CONSTRAINT_NOTNULL"),
            SQLITE_CONSTRAINT_PINNED => Some("SQLITE_CONSTRAINT_PINNED"),
            SQLITE_CONSTRAINT_PRIMARYKEY => Some("SQLITE_CONSTRAINT_PRIMARYKEY"),
            SQLITE_CONSTRAINT_ROWID => Some("SQLITE_CONSTRAINT_ROWID"),
            SQLITE_CONSTRAINT_TRIGGER => Some("SQLITE_CONSTRAINT_TRIGGER"),
            SQLITE_CONSTRAINT_UNIQUE => Some("SQLITE_CONSTRAINT_UNIQUE"),
            SQLITE_CONSTRAINT_VTAB => Some("SQLITE_CONSTRAINT_VTAB"),
            SQLITE_CORRUPT_INDEX => Some("SQLITE_CORRUPT_INDEX"),
            SQLITE_CORRUPT_SEQUENCE => Some("SQLITE_CORRUPT_SEQUENCE"),
            SQLITE_CORRUPT_VTAB => Some("SQLITE_CORRUPT_VTAB"),
            SQLITE_ERROR_MISSING_COLLSEQ => Some("SQLITE_ERROR_MISSING_COLLSEQ"),
            SQLITE_ERROR_RETRY => Some("SQLITE_ERROR_RETRY"),
            SQLITE_ERROR_SNAPSHOT => Some("SQLITE_ERROR_SNAPSHOT"),
            SQLITE_IOERR_ACCESS => Some("SQLITE_IOERR_ACCESS"),
            SQLITE_IOERR_AUTH => Some("SQLITE_IOERR_AUTH"),
            SQLITE_IOERR_BEGIN_ATOMIC => Some("SQLITE_IOERR_BEGIN_ATOMIC"),
            SQLITE_IOERR_BLOCKED => Some("SQLITE_IOERR_BLOCKED"),
            SQLITE_IOERR_CHECKRESERVEDLOCK => Some("SQLITE_IOERR_CHECKRESERVEDLOCK"),
            SQLITE_IOERR_CLOSE => Some("SQLITE_IOERR_CLOSE"),
            SQLITE_IOERR_COMMIT_ATOMIC => Some("SQLITE_IOERR_COMMIT_ATOMIC"),
            SQLITE_IOERR_CONVPATH => Some("SQLITE_IOERR_CONVPATH"),
            SQLITE_IOERR_CORRUPTFS => Some("SQLITE_IOERR_CORRUPTFS"),
            SQLITE_IOERR_DATA => Some("SQLITE_IOERR_DATA"),
            SQLITE_IOERR_DELETE => Some("SQLITE_IOERR_DELETE"),
            SQLITE_IOERR_DELETE_NOENT => Some("SQLITE_IOERR_DELETE_NOENT"),
            SQLITE_IOERR_DIR_CLOSE => Some("SQLITE_IOERR_DIR_CLOSE"),
            SQLITE_IOERR_DIR_FSYNC => Some("SQLITE_IOERR_DIR_FSYNC"),
            SQLITE_IOERR_FSTAT => Some("SQLITE_IOERR_FSTAT"),
            SQLITE_IOERR_FSYNC => Some("SQLITE_IOERR_FSYNC"),
            SQLITE_IOERR_GETTEMPPATH => Some("SQLITE_IOERR_GETTEMPPATH"),
            SQLITE_IOERR_LOCK => Some("SQLITE_IOERR_LOCK"),
            SQLITE_IOERR_MMAP => Some("SQLITE_IOERR_MMAP"),
            SQLITE_IOERR_NOMEM => Some("SQLITE_IOERR_NOMEM"),
            SQLITE_IOERR_RDLOCK => Some("SQLITE_IOERR_RDLOCK"),
            SQLITE_IOERR_READ => Some("SQLITE_IOERR_READ"),
            SQLITE_IOERR_ROLLBACK_ATOMIC => Some("SQLITE_IOERR_ROLLBACK_ATOMIC"),
            SQLITE_IOERR_SEEK => Some("SQLITE_IOERR_SEEK"),
            SQLITE_IOERR_SHMLOCK => Some("SQLITE_IOERR_SHMLOCK"),
            SQLITE_IOERR_SHMMAP => Some("SQLITE_IOERR_SHMMAP"),
            SQLITE_IOERR_SHMOPEN => Some("SQLITE_IOERR_SHMOPEN"),
            SQLITE_IOERR_SHMSIZE => Some("SQLITE_IOERR_SHMSIZE"),
            SQLITE_IOERR_SHORT_READ => Some("SQLITE_IOERR_SHORT_READ"),
            SQLITE_IOERR_TRUNCATE => Some("SQLITE_IOERR_TRUNCATE"),
            SQLITE_IOERR_UNLOCK => Some("SQLITE_IOERR_UNLOCK"),
            SQLITE_IOERR_VNODE => Some("SQLITE_IOERR_VNODE"),
            SQLITE_IOERR_WRITE => Some("SQLITE_IOERR_WRITE"),
            SQLITE_LOCKED_SHAREDCACHE => Some("SQLITE_LOCKED_SHAREDCACHE"),
            SQLITE_LOCKED_VTAB => Some("SQLITE_LOCKED_VTAB"),
            SQLITE_READONLY_CANTINIT => Some("SQLITE_READONLY_CANTINIT"),
            SQLITE_READONLY_CANTLOCK => Some("SQLITE_READONLY_CANTLOCK"),
            SQLITE_READONLY_DBMOVED => Some("SQLITE_READONLY_DBMOVED"),
            SQLITE_READONLY_DIRECTORY => Some("SQLITE_READONLY_DIRECTORY"),
            SQLITE_READONLY_RECOVERY => Some("SQLITE_READONLY_RECOVERY"),
            SQLITE_READONLY_ROLLBACK => Some("SQLITE_READONLY_ROLLBACK"),
            SQUIRE_ERROR => Some("SQUIRE_ERROR"),
            SQUIRE_ERROR_FETCH => Some("SQUIRE_ERROR_FETCH"),
            SQUIRE_ERROR_FETCH_PARSE => Some("SQUIRE_ERROR_FETCH_PARSE"),
            SQUIRE_ERROR_FETCH_RANGE => Some("SQUIRE_ERROR_FETCH_RANGE"),
            SQUIRE_ERROR_PARAMETER => Some("SQUIRE_ERROR_PARAMETER"),
            SQUIRE_ERROR_PARAMETER_BIND => Some("SQUIRE_ERROR_PARAMETER_BIND"),
            SQUIRE_ERROR_PARAMETER_RANGE => Some("SQUIRE_ERROR_PARAMETER_RANGE"),
            SQUIRE_ERROR_PARAMETER_RESOLVE => Some("SQUIRE_ERROR_PARAMETER_RESOLVE"),
            _ => None,
        }
    }

    /// The code as text: the name of its constant, or `0x` and at least four
    /// hexadecimal digits when it has none.
    pub fn to_string(&self) -> (r: String)
        ensures
            r@ == code_text(self@),
    {
        match self.name() {
            Some(name) => name.to_owned(),
            None => {
                let mut text = String::from_str("0x");
                push_hex_padded(&mut text, self.raw() as u32, 4);
                text
            },
        }
    }

    /// The description of one of the codes Squire defines; `None` for a
    /// code whose description SQLite gives.
    pub fn squire_description(&self) -> (r: Option<&'static str>)
        ensures
            r is Some <==> squire_code_description(self@) is Some,
            r matches Some(d) ==> squire_code_description(self@) == Some(d@),
    {
        match self.raw() {
            SQUIRE_ERROR_FETCH => Some("error fetching column value"),
            SQUIRE_ERROR_FETCH_PARSE => Some("error parsing column value"),
            SQUIRE_ERROR_FETCH_RANGE => Some("column value out of range"),
            SQUIRE_ERROR_PARAMETER => Some("error binding parameter"),
            SQUIRE_ERROR_PARAMETER_BIND => Some("error binding parameter value"),
            SQUIRE_ERROR_PARAMETER_RANGE => Some("parameter value out of range"),
            SQUIRE_ERROR_PARAMETER_RESOLVE => Some("error resolving parameter index"),
            SQUIRE_ERROR_PARAMETER_INVALID_INDEX => Some("parameter index must be > 0"),
            _ => None,
        }
    }
}

impl Default for ErrorCode {
    /// The generic `SQLITE_ERROR` code.
    fn default() -> (r: Self)
        ensures
            r@ == SQLITE_ERROR,
            r == ErrorCode::with_raw(SQLITE_ERROR),
    {
        ErrorCode(SQLITE_ERROR)
    }
}

} // verus!
