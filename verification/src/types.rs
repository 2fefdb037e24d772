//! Small value types: row ids and the indexes of parameters and columns.

use core::cmp::Ordering;
use core::num::NonZero;

use vstd::prelude::*;

use crate::error::{Error, ErrorReason, ParameterError};

verus! {

/// The `ROWID` of a row in a table: never zero.
#[derive(Copy, Clone, Eq, Ord, Debug)]
pub struct RowId(RowIdBits);

/// The value of a [`RowId`], never zero, kept as a `NonZero<i64>` so that an
/// `Option<RowId>` takes no more room than a `RowId`.
#[verifier::external_body]
pub struct RowIdBits(NonZero<i64>);

impl Clone for RowIdBits {
    /// Trusted: `NonZero<i64>` is `Copy`, so a clone is a copy of the same
    /// value.
    #[verifier::external_body]
    fn clone(&self) -> (r: Self)
        ensures
            r == *self,
    {
        RowIdBits(self.0)
    }
}

impl Copy for RowIdBits {
}

impl PartialEq for RowIdBits {
    /// Trusted: `NonZero<i64>` equality, which compares the held values.
    #[verifier::external_body]
    fn eq(&self, other: &Self) -> bool {
        self.0 == other.0
    }
}

impl Eq for RowIdBits {
}

impl PartialOrd for RowIdBits {
    /// Trusted: `NonZero<i64>` ordering, which orders the held values.
    #[verifier::external_body]
    fn partial_cmp(&self, other: &Self) -> Option<Ordering> {
        Some(self.0.cmp(&other.0))
    }
}

impl Ord for RowIdBits {
    /// Trusted: `NonZero<i64>` ordering, which orders the held values.
    #[verifier::external_body]
    fn cmp(&self, other: &Self) -> Ordering {
        self.0.cmp(&other.0)
    }
}

impl core::fmt::Debug for RowIdBits {
    /// Trusted: formats the held `NonZero<i64>`.
    #[verifier::external_body]
    fn fmt(&self, f: &mut core::fmt::Formatter<'_>) -> core::fmt::Result {
        self.0.fmt(f)
    }
}

/// What `NonZero::<i64>::new` holds for a `value` that is not zero.
pub uninterp spec fn nonzero_row_bits(value: i64) -> RowIdBits;

/// What `NonZero::<i64>::get` returns for `bits`.
pub uninterp spec fn nonzero_row_value(bits: RowIdBits) -> i64;

/// Trusted wrapper of `NonZero::<i64>::new`, which the standard library
/// documents as returning `Some` exactly for a value that is not zero; the
/// `NonZero` holds `value`, and `get` gives `value` back.
#[verifier::external_body]
fn wrap_row_bits(value: i64) -> (r: RowIdBits)
    requires
        value != 0,
    ensures
        r == nonzero_row_bits(value),
        nonzero_row_value(r) == value,
{
    RowIdBits(NonZero::new(value).unwrap())
}

/// Trusted wrapper of `NonZero::<i64>::get`, which returns the value the
/// `NonZero` holds: never zero, and a `NonZero` is determined by it.
#[verifier::external_body]
fn unwrap_row_bits(bits: RowIdBits) -> (r: i64)
    ensures
        r == nonzero_row_value(bits),
        r != 0,
        bits == nonzero_row_bits(r),
{
    bits.0.get()
}

impl View for RowId {
    type V = i64;

    open spec fn view(&self) -> i64 {
        self.value()
    }
}

impl RowId {
    #[verifier::type_invariant]
    spec fn inv(self) -> bool {
        self.well_formed()
    }

    /// The id itself.
    pub closed spec fn value(self) -> i64 {
        nonzero_row_value(self.0)
    }

    /// `true` for a row id the library made: its value is not zero, and
    /// its bits hold that value.
    pub closed spec fn well_formed(self) -> bool {
        &&& nonzero_row_value(self.0) != 0
        &&& self.0 == nonzero_row_bits(nonzero_row_value(self.0))
    }

    /// The row id `value`; `None` when `value` is zero.
    pub fn new(value: i64) -> (r: Option<Self>)
        ensures
            r is Some <==> value != 0,
            r matches Some(id) ==> id@ == value && id.well_formed(),
    {
        if value != 0 {
            Some(RowId(wrap_row_bits(value)))
        } else {
            None
        }
    }

    /// The id as an [`i64`] (never zero).
    pub fn into_inner(self) -> (r: i64)
        ensures
            r == self@,
            r != 0,
    {
        unwrap_row_bits(self.0)
    }
}

impl PartialEq for RowId {
    fn eq(&self, other: &Self) -> (r: bool) {
        self.into_inner() == other.into_inner()
    }
}

impl vstd::std_specs::cmp::PartialEqSpecImpl for RowId {
    open spec fn obeys_eq_spec() -> bool {
        true
    }

    open spec fn eq_spec(&self, other: &Self) -> bool {
        self@ == other@
    }
}

/// The ordering of two row ids by their values.
pub open spec fn compare_row_ids(a: i64, b: i64) -> Ordering {
    if a < b {
        Ordering::Less
    } else if a == b {
        Ordering::Equal
    } else {
        Ordering::Greater
    }
}

impl PartialOrd for RowId {
    fn partial_cmp(&self, other: &Self) -> (r: Option<Ordering>) {
        let (a, b) = (self.into_inner(), other.into_inner());
        if a < b {
            Some(Ordering::Less)
        } else if a == b {
            Some(Ordering::Equal)
        } else {
            Some(Ordering::Greater)
        }
    }
}

impl vstd::std_specs::cmp::PartialOrdSpecImpl for RowId {
    open spec fn obeys_partial_cmp_spec() -> bool {
        true
    }

    open spec fn partial_cmp_spec(&self, other: &Self) -> Option<Ordering> {
        Some(compare_row_ids(self@, other@))
    }
}

/// A row id is determined by its value, and row ids are ordered as their
/// values are.
pub proof fn lemma_row_id_by_value(a: RowId, b: RowId)
    requires
        a.well_formed(),
        b.well_formed(),
    ensures
        (a == b) <==> (a@ == b@),
        (compare_row_ids(a@, b@) == Ordering::Less) <==> a@ < b@,
        (compare_row_ids(a@, b@) == Ordering::Greater) <==> a@ > b@,
{
}

/// The index of a parameter of a prepared statement: parameters are
/// numbered from `1`.
#[derive(PartialEq, Eq, Structural, PartialOrd, Ord, Clone, Copy, Debug)]
pub struct BindIndex {
    index: i32,
}

impl View for BindIndex {
    type V = i32;

    open spec fn view(&self) -> i32 {
        self.number()
    }
}

impl BindIndex {
    #[verifier::type_invariant]
    spec fn inv(self) -> bool {
        self.index >= 1
    }

    /// The number of the parameter.
    pub closed spec fn number(self) -> i32 {
        self.index
    }

    /// The index of the first parameter, `1`.
    pub fn initial() -> (r: Self)
        ensures
            r@ == 1,
    {
        BindIndex { index: 1 }
    }

    /// The parameter index `index`; a [`ParameterError::InvalidIndex`] error
    /// when `index` is zero or negative.
    pub fn new(index: i32) -> (r: Result<Self, Error>)
        ensures
            r is Ok <==> index >= 1,
            r matches Ok(i) ==> i@ == index,
            r matches Err(e) ==> e.code_spec()@ == ParameterError::InvalidIndex.raw_code()
                && e.is_bare(),
    {
        if index >= 1 {
            Ok(BindIndex { index })
        } else {
            Err(Error::new(ErrorReason::Parameter(ParameterError::InvalidIndex).code()))
        }
    }

    /// The index as the `i32` SQLite takes.
    pub fn value(&self) -> (r: i32)
        ensures
            r == self@,
            r >= 1,
    {
        proof {
            use_type_invariant(self);
        }
        self.index
    }

    /// The index of the next parameter.
    pub fn next(&self) -> (r: Self)
        requires
            self@ < i32::MAX,
        ensures
            r@ == self@ + 1,
    {
        proof {
            use_type_invariant(self);
        }
        BindIndex { index: self.index + 1 }
    }
}

/// The index of a column of a statement's result: columns are numbered from
/// `0`.
#[derive(PartialEq, Eq, Structural, PartialOrd, Ord, Clone, Copy, Debug)]
pub struct ColumnIndex {
    index: i32,
}

impl View for ColumnIndex {
    type V = i32;

    open spec fn view(&self) -> i32 {
        self.number()
    }
}

impl ColumnIndex {
    #[verifier::type_invariant]
    spec fn inv(self) -> bool {
        self.index >= 0
    }

    /// The number of the column.
    pub closed spec fn number(self) -> i32 {
        self.index
    }

    /// The index of the first column, `0`.
    pub fn initial() -> (r: Self)
        ensures
            r@ == 0,
    {
        ColumnIndex { index: 0 }
    }

    /// The column index `index`.
    pub fn new(index: i32) -> (r: Self)
        requires
            index >= 0,
        ensures
            r@ == index,
    {
        ColumnIndex { index }
    }

    /// The index as the `i32` SQLite takes.
    pub fn value(&self) -> (r: i32)
        ensures
            r == self@,
            r >= 0,
    {
        proof {
            use_type_invariant(self);
        }
        self.index
    }

    /// The index of the next column.
    pub fn next(&self) -> (r: Self)
        requires
            self@ < i32::MAX,
        ensures
            r@ == self@ + 1,
    {
        proof {
            use_type_invariant(self);
        }
        ColumnIndex { index: self.index + 1 }
    }
}

/// An endless run of parameter indexes, from a first one upward.
pub struct BindIndexes {
    current: BindIndex,
}

impl BindIndexes {
    /// The index that [`next`](Self::next) returns.
    pub closed spec fn upcoming(self) -> i32 {
        self.current@
    }

    /// The indexes from `initial` on.
    pub fn new(initial: BindIndex) -> (r: Self)
        ensures
            r.upcoming() == initial@,
    {
        BindIndexes { current: initial }
    }

    /// The next index; the run goes on one higher.
    pub fn next(&mut self) -> (r: Option<BindIndex>)
        requires
            old(self).upcoming() < i32::MAX,
        ensures
            r matches Some(i) && i@ == old(self).upcoming(),
            final(self).upcoming() == old(self).upcoming() + 1,
    {
        let current = self.current;
        self.current = current.next();
        Some(current)
    }
}

/// A style of in-memory representation for text that SQLite recognizes, and
/// in some cases can optimize.
#[derive(PartialEq, Eq, Structural, Clone, Copy, Debug)]
pub enum StringRepresentation {
    /// A C-style string, where the content is followed by a `'\0'` byte
    /// (`SQLITE_UTF8_ZT`).
    NullTerminated,
}

impl StringRepresentation {
    /// The text encoding constant SQLite takes for this representation.
    pub open spec fn encoding(self) -> i32 {
        match self {
            StringRepresentation::NullTerminated => 0x43,
        }
    }

    /// The text encoding constant SQLite takes for this representation.
    pub fn value(self) -> (r: i32)
        ensures
            r == self.encoding(),
    {
        match self {
            StringRepresentation::NullTerminated => 0x43,
        }
    }
}

} // verus!
