//! The configuration of a connection to be opened: which database, with
//! which `sqlite3_open_v2` flags, through which virtual filesystem.

use vstd::prelude::*;

use crate::codes::{
    SQLITE_ERROR, SQLITE_OPEN_CREATE, SQLITE_OPEN_EXRESCODE, SQLITE_OPEN_FULLMUTEX,
    SQLITE_OPEN_NOFOLLOW, SQLITE_OPEN_NOMUTEX, SQLITE_OPEN_READONLY, SQLITE_OPEN_READWRITE,
    SQLITE_OPEN_MEMORY, SQLITE_OPEN_URI,
};
use crate::database::{is_location, Database, Endpoint};
use crate::error::{message_view, Error, ErrorCode};

verus! {

/// The open flags a connection starts with: read/write, creating the
/// database if it does not exist.
pub const DEFAULT_OPEN_MODE: i32 = SQLITE_OPEN_READWRITE | SQLITE_OPEN_CREATE;

/// The flags that choose how the database file is opened.
pub const FILE_OPEN_MODES: i32 = SQLITE_OPEN_READONLY | SQLITE_OPEN_READWRITE | SQLITE_OPEN_CREATE;

/// The flags that choose the threading mode of the connection.
pub const CONCURRENCY_MODES: i32 = SQLITE_OPEN_FULLMUTEX | SQLITE_OPEN_NOMUTEX;

/// `flags` with the bits of `mask` replaced by `mode`.
pub open spec fn with_mode(flags: i32, mask: i32, mode: i32) -> i32 {
    (flags & !mask) | mode
}

/// `flags` with the bits of `flag` set when `set`, cleared otherwise.
pub open spec fn with_flag(flags: i32, flag: i32, set: bool) -> i32 {
    if set {
        flags | flag
    } else {
        flags & !flag
    }
}

/// The flags `sqlite3_open_v2` is called with for a connection opened with
/// `flags`: they also ask for extended result codes.
pub fn open_v2_flags(flags: i32) -> (r: i32)
    ensures
        r == flags | SQLITE_OPEN_EXRESCODE,
{
    flags | SQLITE_OPEN_EXRESCODE
}

/// The outcome of opening a connection, given the result code of
/// `sqlite3_open_v2`, whether it handed back a connection, and that
/// connection's error message: success when SQLite reported `SQLITE_OK` and
/// made a connection; the error for the code (with the message) when it
/// made one but failed (`SQLITE_ERROR` in place of `SQLITE_OK`); the bare
/// error for the code when it could not make one at all.
pub fn open_outcome(result: i32, has_connection: bool, message: Option<String>) -> (r: Result<
    (),
    Error,
>)
    ensures
        r is Ok <==> (result == 0 && has_connection),
        has_connection && result != 0 ==> (r matches Err(e) && {
            &&& e.code_spec()@ == result
            &&& e.message_spec() == message_view(message)
            &&& e.location_spec() is None
            &&& e.integration_spec() is None
        }),
        !has_connection ==> (r matches Err(e) && e.is_bare() && e.code_spec()@ == (if result
            != 0 {
            result
        } else {
            SQLITE_ERROR
        })),
{
    if has_connection {
        if result == 0 {
            Ok(())
        } else {
            match Error::from_result(result, message) {
                Some(error) => Err(error),
                None => Err(Error::new(ErrorCode::default())),
            }
        }
    } else {
        match ErrorCode::new(result) {
            Some(code) => Err(Error::new(code)),
            None => Err(Error::new(ErrorCode::default())),
        }
    }
}

/// The configuration of a connection to be opened.
///
/// A builder starts from [`DEFAULT_OPEN_MODE`]; each setting changes only the
/// flags it is about.
#[derive(PartialEq, Eq, Debug)]
pub struct ConnectionBuilder {
    endpoint: Endpoint,
    flags: i32,
    vfs: Option<String>,
}

impl ConnectionBuilder {
    #[verifier::type_invariant]
    spec fn inv(self) -> bool {
        &&& is_location(self.endpoint.location_spec())
        &&& self.vfs matches Some(v) ==> is_location(v@)
    }

    /// Where the database lives.
    pub closed spec fn endpoint_spec(self) -> Endpoint {
        self.endpoint
    }

    /// The open flags set on the builder.
    pub closed spec fn flags_spec(self) -> i32 {
        self.flags
    }

    /// The name of the virtual filesystem to use, if one was chosen.
    pub closed spec fn vfs_spec(self) -> Option<Seq<char>> {
        match self.vfs {
            Some(v) => Some(v@),
            None => None,
        }
    }

    /// A builder for a connection to `database`, with the default flags and
    /// no virtual filesystem chosen.
    pub fn new(database: Database) -> (r: Self)
        ensures
            r.endpoint_spec() == database@,
            r.flags_spec() == DEFAULT_OPEN_MODE,
            r.vfs_spec() is None,
    {
        ConnectionBuilder { endpoint: database.into_endpoint(), flags: DEFAULT_OPEN_MODE, vfs: None }
    }

    /// The location to pass to `sqlite3_open_v2`.
    pub fn location(&self) -> (r: &str)
        ensures
            r@ == self.endpoint_spec().location_spec(),
            is_location(r@),
    {
        proof {
            use_type_invariant(self);
        }
        self.endpoint.location()
    }

    /// The flags to pass to `sqlite3_open_v2`: those set on the builder and
    /// those the endpoint calls for.
    pub fn open_flags(&self) -> (r: i32)
        ensures
            r == self.flags_spec() | self.endpoint_spec().flags_spec(),
    {
        self.flags | self.endpoint.flags()
    }

    /// The name of the virtual filesystem to pass to `sqlite3_open_v2`, if
    /// one was chosen.
    pub fn vfs_name(&self) -> (r: Option<&str>)
        ensures
            r is Some <==> self.vfs_spec() is Some,
            r matches Some(v) ==> self.vfs_spec() == Some(v@) && is_location(v@),
    {
        proof {
            use_type_invariant(self);
        }
        match &self.vfs {
            Some(vfs) => Some(vfs.as_str()),
            None => None,
        }
    }

    /// Open the connection in read-only mode.
    pub fn read_only(self) -> (r: Self)
        ensures
            r.flags_spec() == with_mode(self.flags_spec(), FILE_OPEN_MODES, SQLITE_OPEN_READONLY),
            r.endpoint_spec() == self.endpoint_spec(),
            r.vfs_spec() == self.vfs_spec(),
    {
        self.with_open_mode(SQLITE_OPEN_READONLY)
    }

    /// Open the connection in read/write mode; if `create` is true, the
    /// database is created if it does not already exist.
    pub fn read_write(self, create: bool) -> (r: Self)
        ensures
            r.flags_spec() == with_mode(
                self.flags_spec(),
                FILE_OPEN_MODES,
                if create {
                    SQLITE_OPEN_READWRITE | SQLITE_OPEN_CREATE
                } else {
                    SQLITE_OPEN_READWRITE
                },
            ),
            r.endpoint_spec() == self.endpoint_spec(),
            r.vfs_spec() == self.vfs_spec(),
    {
        self.with_open_mode(
            if create {
                SQLITE_OPEN_READWRITE | SQLITE_OPEN_CREATE
            } else {
                SQLITE_OPEN_READWRITE
            },
        )
    }

    /// Enable or disable traversing symbolic links to load a database file:
    /// following links clears `SQLITE_OPEN_NOFOLLOW`, refusing them sets it.
    pub fn follow_symbolic_links(self, follow: bool) -> (r: Self)
        ensures
            r.flags_spec() == with_flag(self.flags_spec(), SQLITE_OPEN_NOFOLLOW, !follow),
            r.endpoint_spec() == self.endpoint_spec(),
            r.vfs_spec() == self.vfs_spec(),
    {
        let flags = if follow {
            self.flags & !SQLITE_OPEN_NOFOLLOW
        } else {
            self.flags | SQLITE_OPEN_NOFOLLOW
        };
        self.with_flags(flags)
    }

    /// Enable or disable the serialized threading mode: `SQLITE_OPEN_FULLMUTEX`
    /// when enabled, `SQLITE_OPEN_NOMUTEX` otherwise.
    pub fn mutex(self, enable: bool) -> (r: Self)
        ensures
            r.flags_spec() == with_mode(
                self.flags_spec(),
                CONCURRENCY_MODES,
                if enable {
                    SQLITE_OPEN_FULLMUTEX
                } else {
                    SQLITE_OPEN_NOMUTEX
                },
            ),
            r.endpoint_spec() == self.endpoint_spec(),
            r.vfs_spec() == self.vfs_spec(),
    {
        self.with_concurrency_mode(
            if enable {
                SQLITE_OPEN_FULLMUTEX
            } else {
                SQLITE_OPEN_NOMUTEX
            },
        )
    }

    /// Enable or disable URI filename support (`SQLITE_OPEN_URI`).
    pub fn uri_filenames(self, enable: bool) -> (r: Self)
        ensures
            r.flags_spec() == with_flag(self.flags_spec(), SQLITE_OPEN_URI, enable),
            r.endpoint_spec() == self.endpoint_spec(),
            r.vfs_spec() == self.vfs_spec(),
    {
        let flags = if enable {
            self.flags | SQLITE_OPEN_URI
        } else {
            self.flags & !SQLITE_OPEN_URI
        };
        self.with_flags(flags)
    }

    /// Select the virtual filesystem named `vfs`.
    pub fn vfs(self, vfs: &str) -> (r: Self)
        requires
            is_location(vfs@),
        ensures
            r.flags_spec() == self.flags_spec(),
            r.endpoint_spec() == self.endpoint_spec(),
            r.vfs_spec() == Some(vfs@),
    {
        proof {
            use_type_invariant(&self);
        }
        ConnectionBuilder { endpoint: self.endpoint, flags: self.flags, vfs: Some(vfs.to_owned()) }
    }

    fn with_open_mode(self, mode: i32) -> (r: Self)
        ensures
            r.flags_spec() == with_mode(self.flags_spec(), FILE_OPEN_MODES, mode),
            r.endpoint_spec() == self.endpoint_spec(),
            r.vfs_spec() == self.vfs_spec(),
    {
        let flags = (self.flags & !FILE_OPEN_MODES) | mode;
        self.with_flags(flags)
    }

    fn with_concurrency_mode(self, mode: i32) -> (r: Self)
        ensures
            r.flags_spec() == with_mode(self.flags_spec(), CONCURRENCY_MODES, mode),
            r.endpoint_spec() == self.endpoint_spec(),
            r.vfs_spec() == self.vfs_spec(),
    {
        let flags = (self.flags & !CONCURRENCY_MODES) | mode;
        self.with_flags(flags)
    }

    fn with_flags(self, flags: i32) -> (r: Self)
        ensures
            r.flags_spec() == flags,
            r.endpoint_spec() == self.endpoint_spec(),
            r.vfs_spec() == self.vfs_spec(),
    {
        proof {
            use_type_invariant(&self);
        }
        ConnectionBuilder { endpoint: self.endpoint, flags, vfs: self.vfs }
    }
}

/// A mode setting decides exactly the bits of its mask and keeps every
/// other bit, whatever the flags were before.
pub proof fn lemma_with_mode(flags: i32, mask: i32, mode: i32)
    requires
        mode & !mask == 0,
    ensures
        with_mode(flags, mask, mode) & mask == mode,
        with_mode(flags, mask, mode) & !mask == flags & !mask,
{
    assert(mode & !mask == 0 ==> ((flags & !mask) | mode) & mask == mode && ((flags & !mask)
        | mode) & !mask == flags & !mask) by (bit_vector);
}

/// Of two mode settings on the same mask, the later decides.
pub proof fn lemma_with_mode_last_wins(flags: i32, mask: i32, first: i32, second: i32)
    requires
        first & !mask == 0,
    ensures
        with_mode(with_mode(flags, mask, first), mask, second) == with_mode(flags, mask, second),
{
    assert(first & !mask == 0 ==> ((((flags & !mask) | first) & !mask) | second) == ((flags
        & !mask) | second)) by (bit_vector);
}

/// Mode settings on masks that share no bit may be made in either order.
pub proof fn lemma_with_mode_commutes(flags: i32, m1: i32, a: i32, m2: i32, b: i32)
    requires
        a & !m1 == 0,
        b & !m2 == 0,
        m1 & m2 == 0,
    ensures
        with_mode(with_mode(flags, m1, a), m2, b) == with_mode(with_mode(flags, m2, b), m1, a),
{
    assert(a & !m1 == 0 && b & !m2 == 0 && m1 & m2 == 0 ==> ((((flags & !m1) | a) & !m2) | b)
        == ((((flags & !m2) | b) & !m1) | a)) by (bit_vector);
}

/// Setting or clearing a flag decides that flag and keeps every other bit.
pub proof fn lemma_with_flag(flags: i32, flag: i32, set: bool)
    ensures
        (with_flag(flags, flag, set) & flag == flag) == (set || flag == 0),
        with_flag(flags, flag, set) & !flag == flags & !flag,
{
    assert((flags | flag) & flag == flag && (flags | flag) & !flag == flags & !flag && ((flags
        & !flag) & flag == flag) == (flag == 0) && (flags & !flag) & !flag == flags & !flag)
        by (bit_vector);
}

/// The settings of a [`ConnectionBuilder`] are independent: the file open
/// mode is exactly the one last chosen by [`read_only`] or [`read_write`],
/// the threading mode the one last chosen by [`mutex`], and choosing one of
/// them keeps the other and every other flag.
///
/// [`read_only`]: ConnectionBuilder::read_only
/// [`read_write`]: ConnectionBuilder::read_write
/// [`mutex`]: ConnectionBuilder::mutex
pub proof fn lemma_builder_modes(flags: i32, create: bool, enable: bool)
    ensures
        ({
            let file = if create {
                SQLITE_OPEN_READWRITE | SQLITE_OPEN_CREATE
            } else {
                SQLITE_OPEN_READWRITE
            };
            let threading = if enable {
                SQLITE_OPEN_FULLMUTEX
            } else {
                SQLITE_OPEN_NOMUTEX
            };
            let read_only = with_mode(flags, FILE_OPEN_MODES, SQLITE_OPEN_READONLY);
            let read_write = with_mode(flags, FILE_OPEN_MODES, file);
            let both = with_mode(read_write, CONCURRENCY_MODES, threading);
            &&& read_only & FILE_OPEN_MODES == SQLITE_OPEN_READONLY
            &&& read_write & FILE_OPEN_MODES == file
            &&& with_mode(read_only, FILE_OPEN_MODES, file) == read_write
            &&& with_mode(read_write, FILE_OPEN_MODES, SQLITE_OPEN_READONLY) == read_only
            &&& both & CONCURRENCY_MODES == threading
            &&& both & FILE_OPEN_MODES == file
            &&& both == with_mode(with_mode(flags, CONCURRENCY_MODES, threading), FILE_OPEN_MODES, file)
        }),
{
    let file = if create {
        SQLITE_OPEN_READWRITE | SQLITE_OPEN_CREATE
    } else {
        SQLITE_OPEN_READWRITE
    };
    let threading = if enable {
        SQLITE_OPEN_FULLMUTEX
    } else {
        SQLITE_OPEN_NOMUTEX
    };
    assert(7i32 == 1i32 | 2i32 | 4i32 && 0x18000i32 == 0x10000i32 | 0x8000i32 && 6i32 == 2i32
        | 4i32 && 1i32 & !7i32 == 0 && 6i32 & !7i32 == 0 && 2i32 & !7i32 == 0 && 0x10000i32
        & !0x18000i32 == 0 && 0x8000i32 & !0x18000i32 == 0 && 7i32 & 0x18000i32 == 0)
        by (bit_vector);
    lemma_with_mode(flags, FILE_OPEN_MODES, SQLITE_OPEN_READONLY);
    lemma_with_mode(flags, FILE_OPEN_MODES, file);
    lemma_with_mode_last_wins(flags, FILE_OPEN_MODES, SQLITE_OPEN_READONLY, file);
    lemma_with_mode_last_wins(flags, FILE_OPEN_MODES, file, SQLITE_OPEN_READONLY);
    let read_write = with_mode(flags, FILE_OPEN_MODES, file);
    lemma_with_mode(read_write, CONCURRENCY_MODES, threading);
    let both = with_mode(read_write, CONCURRENCY_MODES, threading);
    assert(both & FILE_OPEN_MODES == file) by {
        assert(both & !CONCURRENCY_MODES == read_write & !CONCURRENCY_MODES);
        let rw = read_write;
        let b = both;
        assert(b & !0x18000i32 == rw & !0x18000i32 && rw & 7i32 == file ==> b & 7i32 == file)
            by (bit_vector);
    }
    lemma_with_mode_commutes(flags, FILE_OPEN_MODES, file, CONCURRENCY_MODES, threading);
}

/// A connection to an in-memory database, named or not, is opened with
/// `SQLITE_OPEN_MEMORY`, and one to a URI with `SQLITE_OPEN_URI`, whatever
/// else the builder was told.
pub proof fn lemma_builder_endpoint_flags(b: ConnectionBuilder)
    ensures
        b.endpoint_spec() is Memory ==> (b.flags_spec() | b.endpoint_spec().flags_spec())
            & SQLITE_OPEN_MEMORY != 0,
        b.endpoint_spec() is Uri ==> (b.flags_spec() | b.endpoint_spec().flags_spec())
            & SQLITE_OPEN_URI != 0,
{
    let f = b.flags_spec();
    assert((f | 0x80i32) & 0x80i32 != 0 && (f | 0x40i32) & 0x40i32 != 0) by (bit_vector);
}

} // verus!
