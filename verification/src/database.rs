//! Which SQLite database to open: a path, a URI, or an in-memory database.

use vstd::prelude::*;
use vstd::std_specs::iter::IteratorSpec;

use crate::codes::{SQLITE_OPEN_MEMORY, SQLITE_OPEN_URI};

verus! {

/// `true` when `text` can be handed to SQLite as a C string: it holds no
/// `'\0'`.
pub open spec fn is_location(text: Seq<char>) -> bool {
    forall|i: int| 0 <= i < text.len() ==> text[i] != '\0'
}

/// `true` when `text` holds no `'\0'`.
pub fn has_no_nul(text: &str) -> (r: bool)
    ensures
        r == is_location(text@),
{
    broadcast use vstd::string::axiom_spec_iter, vstd::string::next_postcondition;

    let mut chars = text.chars();
    let ghost n = text@.len();
    let ghost mut i: int = 0;
    loop
        invariant
            0 <= i <= n,
            n == text@.len(),
            chars.remaining() == text@.skip(i),
            forall|j: int| 0 <= j < i ==> text@[j] != '\0',
        decreases n - i,
    {
        match chars.next() {
            Some(c) => {
                assert(c == text@[i]);
                if c == '\0' {
                    return false;
                }
                proof {
                    i = i + 1;
                }
                assert(chars.remaining() =~= text@.skip(i));
            },
            None => {
                assert(i == n);
                return true;
            },
        }
    }
}

/// Where a database lives.
#[derive(PartialEq, Eq, Debug)]
pub enum Endpoint {
    /// A file, by its path.
    Path(String),
    /// A database URI.
    Uri(String),
    /// An in-memory database, with a name when it is shared.
    Memory(Option<String>),
}

impl Endpoint {
    /// The text of the location handed to SQLite.
    pub open spec fn location_spec(self) -> Seq<char> {
        match self {
            Endpoint::Path(location) => location@,
            Endpoint::Uri(location) => location@,
            Endpoint::Memory(Some(location)) => location@,
            Endpoint::Memory(None) => Seq::empty(),
        }
    }

    /// The `sqlite3_open_v2` flags the endpoint calls for.
    pub open spec fn flags_spec(self) -> i32 {
        match self {
            Endpoint::Path(_) => 0,
            Endpoint::Uri(_) => SQLITE_OPEN_URI,
            Endpoint::Memory(_) => SQLITE_OPEN_MEMORY,
        }
    }

    /// The location to pass to the SQLite `open` function.
    pub fn location(&self) -> (r: &str)
        ensures
            r@ == self.location_spec(),
    {
        match self {
            Endpoint::Path(location) => location.as_str(),
            Endpoint::Uri(location) => location.as_str(),
            Endpoint::Memory(Some(location)) => location.as_str(),
            Endpoint::Memory(None) => {
                proof {
                    reveal_strlit("");
                }
                ""
            },
        }
    }

    /// The flags to pass to the SQLite `open` function.
    pub fn flags(&self) -> (r: i32)
        ensures
            r == self.flags_spec(),
    {
        match self {
            Endpoint::Path(_) => 0,
            Endpoint::Uri(_) => SQLITE_OPEN_URI,
            Endpoint::Memory(_) => SQLITE_OPEN_MEMORY,
        }
    }
}

impl Clone for Endpoint {
    fn clone(&self) -> (r: Self)
        ensures
            r == *self,
    {
        match self {
            Endpoint::Path(location) => Endpoint::Path(location.clone()),
            Endpoint::Uri(location) => Endpoint::Uri(location.clone()),
            Endpoint::Memory(Some(location)) => Endpoint::Memory(Some(location.clone())),
            Endpoint::Memory(None) => Endpoint::Memory(None),
        }
    }
}

/// A SQLite database to open.
#[derive(PartialEq, Eq, Debug)]
pub struct Database {
    endpoint: Endpoint,
}

impl View for Database {
    type V = Endpoint;

    /// Where the database lives.
    open spec fn view(&self) -> Endpoint {
        self.endpoint_spec()
    }
}

impl Clone for Database {
    fn clone(&self) -> (r: Self)
        ensures
            r == *self,
    {
        proof {
            use_type_invariant(self);
        }
        Database { endpoint: self.endpoint.clone() }
    }
}

impl Database {
    #[verifier::type_invariant]
    spec fn inv(self) -> bool {
        is_location(self.endpoint.location_spec())
    }

    /// Where the database lives.
    pub closed spec fn endpoint_spec(self) -> Endpoint {
        self.endpoint
    }

    /// A private, temporary in-memory database.
    pub fn memory() -> (r: Self)
        ensures
            r@ == Endpoint::Memory(None),
    {
        Database { endpoint: Endpoint::Memory(None) }
    }

    /// An in-memory database named `name`, which connections can share.
    pub fn named(self, name: &str) -> (r: Self)
        requires
            self@ is Memory,
            is_location(name@),
        ensures
            r@ matches Endpoint::Memory(Some(n)) && n@ == name@,
    {
        Database { endpoint: Endpoint::Memory(Some(name.to_owned())) }
    }

    /// The database file at `path`.
    pub fn path(path: &str) -> (r: Self)
        requires
            is_location(path@),
        ensures
            r@ matches Endpoint::Path(p) && p@ == path@,
    {
        Database { endpoint: Endpoint::Path(path.to_owned()) }
    }

    /// The database at the URI `uri`.
    pub fn uri(uri: &str) -> (r: Self)
        requires
            is_location(uri@),
        ensures
            r@ matches Endpoint::Uri(u) && u@ == uri@,
    {
        Database { endpoint: Endpoint::Uri(uri.to_owned()) }
    }

    /// Where the database lives.
    pub fn endpoint(&self) -> (r: &Endpoint)
        ensures
            *r == self@,
            is_location(r.location_spec()),
    {
        proof {
            use_type_invariant(self);
        }
        &self.endpoint
    }

    /// Where the database lives.
    pub fn into_endpoint(self) -> (r: Endpoint)
        ensures
            r == self@,
            is_location(r.location_spec()),
    {
        proof {
            use_type_invariant(&self);
        }
        self.endpoint
    }
}

/// The flags an endpoint asks for say what kind of endpoint it is: every
/// in-memory database, named or not, asks for `SQLITE_OPEN_MEMORY`, every
/// URI for `SQLITE_OPEN_URI`, and no endpoint asks for anything else.
pub proof fn lemma_endpoint_flags(e: Endpoint)
    ensures
        (e.flags_spec() & SQLITE_OPEN_MEMORY != 0) <==> e is Memory,
        (e.flags_spec() & SQLITE_OPEN_URI != 0) <==> e is Uri,
        e.flags_spec() & !(SQLITE_OPEN_MEMORY | SQLITE_OPEN_URI) == 0,
{
    assert(0x80i32 & 0x80i32 != 0 && 0x40i32 & 0x80i32 == 0 && 0i32 & 0x80i32 == 0 && 0x40i32
        & 0x40i32 != 0 && 0x80i32 & 0x40i32 == 0 && 0i32 & 0x40i32 == 0 && 0x80i32 & !(0x80i32
        | 0x40i32) == 0 && 0x40i32 & !(0x80i32 | 0x40i32) == 0 && 0i32 & !(0x80i32 | 0x40i32)
        == 0) by (bit_vector);
}

} // verus!
