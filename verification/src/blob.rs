//! Requests for SQLite to allocate zero-filled blobs.

use vstd::prelude::*;

verus! {

/// A request for SQLite to allocate a blob of a certain size.
///
/// When a `Reservation` is bound as a statement parameter, SQLite creates a
/// `BLOB` of the requested length with every byte set to `0`.
#[derive(PartialEq, Eq, Structural, PartialOrd, Ord, Clone, Copy, Debug)]
pub struct Reservation(isize);

impl View for Reservation {
    type V = isize;

    /// The number of bytes requested.
    open spec fn view(&self) -> isize {
        self.bytes()
    }
}

impl Reservation {
    /// The number of bytes requested.
    pub closed spec fn bytes(self) -> isize {
        self.0
    }

    /// The request for `bytes` bytes.
    pub closed spec fn requesting(bytes: isize) -> Reservation {
        Reservation(bytes)
    }

    /// A request for `bytes` bytes.
    pub fn new(bytes: isize) -> (r: Self)
        ensures
            r@ == bytes,
            r == Reservation::requesting(bytes),
    {
        Reservation(bytes)
    }

    /// The number of bytes to reserve, as a [`usize`] (a negative request
    /// wraps around, as `as` does).
    pub fn len(&self) -> (r: usize)
        ensures
            r == self@ as usize,
    {
        self.0 as usize
    }

    /// The number of bytes to reserve, as an [`isize`].
    pub fn into_inner(self) -> (r: isize)
        ensures
            r == self@,
    {
        self.0
    }
}

impl From<isize> for Reservation {
    fn from(bytes: isize) -> (r: Self) {
        Reservation::new(bytes)
    }
}

impl vstd::std_specs::convert::FromSpecImpl<isize> for Reservation {
    open spec fn obeys_from_spec() -> bool {
        true
    }

    open spec fn from_spec(bytes: isize) -> Self {
        Reservation::requesting(bytes)
    }
}

impl From<i16> for Reservation {
    fn from(bytes: i16) -> (r: Self) {
        Reservation::new(bytes as isize)
    }
}

impl vstd::std_specs::convert::FromSpecImpl<i16> for Reservation {
    open spec fn obeys_from_spec() -> bool {
        true
    }

    open spec fn from_spec(bytes: i16) -> Self {
        Reservation::requesting(bytes as isize)
    }
}

impl From<u8> for Reservation {
    fn from(bytes: u8) -> (r: Self) {
        Reservation::new(bytes as isize)
    }
}

impl vstd::std_specs::convert::FromSpecImpl<u8> for Reservation {
    open spec fn obeys_from_spec() -> bool {
        true
    }

    open spec fn from_spec(bytes: u8) -> Self {
        Reservation::requesting(bytes as isize)
    }
}

} // verus!
