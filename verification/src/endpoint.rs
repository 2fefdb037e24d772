//! Endpoints: which SQLite database to open, described by the location,
//! flags and virtual filesystem handed to `sqlite3_open_v2`.

use vstd::prelude::*;

use crate::codes::{SQLITE_OPEN_MEMORY, SQLITE_OPEN_URI};
use crate::database::is_location;

verus! {

/// Specifies which SQLite database to open.
pub trait Endpoint: Sized {
    /// The location handed to SQLite.
    spec fn location_spec(&self) -> Seq<char>;

    /// The flags handed to SQLite.
    spec fn flags_spec(&self) -> i32;

    /// The name of the virtual filesystem handed to SQLite, if any.
    spec fn vfs_spec(&self) -> Option<Seq<char>>;

    /// The database location to pass to the SQLite `open` function.
    fn location(&self) -> (r: &str)
        ensures
            r@ == self.location_spec(),
    ;

    /// Flags to pass to the SQLite `open` function.
    fn flags(&self) -> (r: i32)
        ensures
            r == self.flags_spec(),
    ;

    /// The name of the virtual filesystem (VFS) to use.
    fn vfs(&self) -> (r: Option<&str>)
        ensures
            r is Some <==> self.vfs_spec() is Some,
            r matches Some(v) ==> self.vfs_spec() == Some(v@),
    ;
}

/// An in-memory, ephemeral SQLite database.
#[derive(PartialEq, Eq, Structural, Copy, Clone, Debug)]
pub struct Memory;

impl Endpoint for Memory {
    open spec fn location_spec(&self) -> Seq<char> {
        Seq::empty()
    }

    open spec fn flags_spec(&self) -> i32 {
        SQLITE_OPEN_MEMORY
    }

    open spec fn vfs_spec(&self) -> Option<Seq<char>> {
        None
    }

    fn location(&self) -> (r: &str) {
        proof {
            reveal_strlit("");
        }
        ""
    }

    fn flags(&self) -> (r: i32) {
        SQLITE_OPEN_MEMORY
    }

    fn vfs(&self) -> (r: Option<&str>) {
        None
    }
}

/// A database file on the local filesystem.
#[derive(PartialEq, Eq, Debug)]
pub struct Local {
    path: String,
}

impl Local {
    #[verifier::type_invariant]
    spec fn inv(self) -> bool {
        is_location(self.path@)
    }

    /// The path of the file.
    pub closed spec fn path_spec(self) -> Seq<char> {
        self.path@
    }

    /// The file at `path`.
    pub fn new(path: &str) -> (r: Self)
        requires
            is_location(path@),
        ensures
            r.path_spec() == path@,
    {
        Local { path: path.to_owned() }
    }
}

impl Endpoint for Local {
    open spec fn location_spec(&self) -> Seq<char> {
        self.path_spec()
    }

    open spec fn flags_spec(&self) -> i32 {
        0
    }

    open spec fn vfs_spec(&self) -> Option<Seq<char>> {
        None
    }

    fn location(&self) -> (r: &str) {
        self.path.as_str()
    }

    fn flags(&self) -> (r: i32) {
        0
    }

    fn vfs(&self) -> (r: Option<&str>) {
        None
    }
}

/// A SQLite database URI.
#[derive(PartialEq, Eq, Debug)]
pub struct Uri {
    uri: String,
}

impl Uri {
    #[verifier::type_invariant]
    spec fn inv(self) -> bool {
        is_location(self.uri@)
    }

    /// The text of the URI.
    pub closed spec fn uri_spec(self) -> Seq<char> {
        self.uri@
    }

    /// The database at `uri`.
    pub fn new(uri: &str) -> (r: Self)
        requires
            is_location(uri@),
        ensures
            r.uri_spec() == uri@,
    {
        Uri { uri: uri.to_owned() }
    }
}

impl Endpoint for Uri {
    open spec fn location_spec(&self) -> Seq<char> {
        self.uri_spec()
    }

    open spec fn flags_spec(&self) -> i32 {
        SQLITE_OPEN_URI
    }

    open spec fn vfs_spec(&self) -> Option<Seq<char>> {
        None
    }

    fn location(&self) -> (r: &str) {
        self.uri.as_str()
    }

    fn flags(&self) -> (r: i32) {
        SQLITE_OPEN_URI
    }

    fn vfs(&self) -> (r: Option<&str>) {
        None
    }
}

/// An endpoint opened through the virtual filesystem named `vfs`.
///
/// The location is the wrapped endpoint's; the flags are none of its own.
#[derive(PartialEq, Eq, Debug)]
pub struct Vfs<E: Endpoint> {
    endpoint: E,
    vfs: String,
}

impl<E: Endpoint> Vfs<E> {
    #[verifier::type_invariant]
    spec fn inv(self) -> bool {
        is_location(self.vfs@)
    }

    /// The wrapped endpoint.
    pub closed spec fn endpoint_spec(self) -> E {
        self.endpoint
    }

    /// The name of the virtual filesystem.
    pub closed spec fn name_spec(self) -> Seq<char> {
        self.vfs@
    }

    /// `endpoint`, opened through the virtual filesystem named `vfs`.
    pub fn new(endpoint: E, vfs: &str) -> (r: Self)
        requires
            is_location(vfs@),
        ensures
            r.endpoint_spec() == endpoint,
            r.name_spec() == vfs@,
    {
        Vfs { endpoint, vfs: vfs.to_owned() }
    }
}

impl<E: Endpoint> Endpoint for Vfs<E> {
    open spec fn location_spec(&self) -> Seq<char> {
        self.endpoint_spec().location_spec()
    }

    open spec fn flags_spec(&self) -> i32 {
        0
    }

    open spec fn vfs_spec(&self) -> Option<Seq<char>> {
        Some(self.name_spec())
    }

    fn location(&self) -> (r: &str) {
        self.endpoint.location()
    }

    fn flags(&self) -> (r: i32) {
        0
    }

    fn vfs(&self) -> (r: Option<&str>) {
        Some(self.vfs.as_str())
    }
}

} // verus!
