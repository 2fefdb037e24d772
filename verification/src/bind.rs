//! Values that can be bound as parameters of prepared statements.

use vstd::prelude::*;

use crate::blob::Reservation;
use crate::codes::SQUIRE_ERROR_PARAMETER_BIND;
use crate::error::Error;
use crate::types::RowId;

verus! {

/// A value which can be bound as a parameter in SQLite prepared statements.
///
/// The lifetime parameter `'b` is the lifetime for which SQLite may access
/// the bound data.
pub trait Bind<'b>: Sized {
    /// A type directly handled by the SQLite parameter binding API.
    type Value;

    /// The value `self` is bound as, or `None` when it cannot be bound.
    spec fn bind_spec(&self) -> Option<Self::Value>;

    /// Convert `self` into a directly bindable value; an error when that
    /// fails.
    fn into_bind_value(self) -> (r: Result<Self::Value, Error>)
        ensures
            r is Err <==> self.bind_spec() is None,
            r matches Ok(v) ==> self.bind_spec() == Some(v),
    ;
}

impl<'b> Bind<'b> for i8 {
    type Value = i32;

    open spec fn bind_spec(&self) -> Option<i32> {
        Some(*self as i32)
    }

    fn into_bind_value(self) -> (r: Result<i32, Error>) {
        Ok(self as i32)
    }
}

impl<'b> Bind<'b> for u8 {
    type Value = i32;

    open spec fn bind_spec(&self) -> Option<i32> {
        Some(*self as i32)
    }

    fn into_bind_value(self) -> (r: Result<i32, Error>) {
        Ok(self as i32)
    }
}

impl<'b> Bind<'b> for i16 {
    type Value = i32;

    open spec fn bind_spec(&self) -> Option<i32> {
        Some(*self as i32)
    }

    fn into_bind_value(self) -> (r: Result<i32, Error>) {
        Ok(self as i32)
    }
}

impl<'b> Bind<'b> for u16 {
    type Value = i32;

    open spec fn bind_spec(&self) -> Option<i32> {
        Some(*self as i32)
    }

    fn into_bind_value(self) -> (r: Result<i32, Error>) {
        Ok(self as i32)
    }
}

impl<'b> Bind<'b> for i32 {
    type Value = i32;

    open spec fn bind_spec(&self) -> Option<i32> {
        Some(*self)
    }

    fn into_bind_value(self) -> (r: Result<i32, Error>) {
        Ok(self)
    }
}

impl<'b> Bind<'b> for u32 {
    type Value = i64;

    open spec fn bind_spec(&self) -> Option<i64> {
        Some(*self as i64)
    }

    fn into_bind_value(self) -> (r: Result<i64, Error>) {
        Ok(self as i64)
    }
}

impl<'b> Bind<'b> for i64 {
    type Value = i64;

    open spec fn bind_spec(&self) -> Option<i64> {
        Some(*self)
    }

    fn into_bind_value(self) -> (r: Result<i64, Error>) {
        Ok(self)
    }
}

impl<'b> Bind<'b> for isize {
    type Value = i64;

    open spec fn bind_spec(&self) -> Option<i64> {
        Some(*self as i64)
    }

    fn into_bind_value(self) -> (r: Result<i64, Error>) {
        Ok(self as i64)
    }
}

/// A `u64` is bound as an `i64`; one above `i64::MAX` cannot be bound.
impl<'b> Bind<'b> for u64 {
    type Value = i64;

    open spec fn bind_spec(&self) -> Option<i64> {
        if *self <= i64::MAX {
            Some(*self as i64)
        } else {
            None
        }
    }

    fn into_bind_value(self) -> (r: Result<i64, Error>)
        ensures
            r matches Err(e) ==> e.code_spec()@ == SQUIRE_ERROR_PARAMETER_BIND,
            r matches Err(e) ==> e.message_spec() == Some("u64 value cannot fit in i64 parameter"@),
            r matches Err(e) ==> e.location_spec() is None && e.integration_spec() is None,
    {
        if self <= 0x7fff_ffff_ffff_ffffu64 {
            Ok(self as i64)
        } else {
            Err(Error::bind("u64 value cannot fit in i64 parameter"))
        }
    }
}

/// A `usize` is bound as an `i64`; one above `i64::MAX` cannot be bound.
impl<'b> Bind<'b> for usize {
    type Value = i64;

    open spec fn bind_spec(&self) -> Option<i64> {
        if *self <= i64::MAX {
            Some(*self as i64)
        } else {
            None
        }
    }

    fn into_bind_value(self) -> (r: Result<i64, Error>)
        ensures
            r matches Err(e) ==> e.code_spec()@ == SQUIRE_ERROR_PARAMETER_BIND,
            r matches Err(e) ==> e.message_spec() == Some("usize value cannot fit in i64 parameter"@),
            r matches Err(e) ==> e.location_spec() is None && e.integration_spec() is None,
    {
        if self as u64 <= 0x7fff_ffff_ffff_ffffu64 {
            Ok(self as i64)
        } else {
            Err(Error::bind("usize value cannot fit in i64 parameter"))
        }
    }
}

/// A `bool` is bound as `1` (for `true`) or `0` (for `false`).
impl<'b> Bind<'b> for bool {
    type Value = i32;

    open spec fn bind_spec(&self) -> Option<i32> {
        Some(if *self { 1i32 } else { 0i32 })
    }

    fn into_bind_value(self) -> (r: Result<i32, Error>) {
        Ok(if self { 1 } else { 0 })
    }
}

/// A `char` is bound as its Unicode scalar value.
impl<'b> Bind<'b> for char {
    type Value = i32;

    open spec fn bind_spec(&self) -> Option<i32> {
        Some(*self as u32 as i32)
    }

    fn into_bind_value(self) -> (r: Result<i32, Error>) {
        Ok(self as u32 as i32)
    }
}

/// A row id is bound as its `i64` value.
impl<'b> Bind<'b> for RowId {
    type Value = i64;

    open spec fn bind_spec(&self) -> Option<i64> {
        Some(self@)
    }

    fn into_bind_value(self) -> (r: Result<i64, Error>) {
        Ok(self.into_inner())
    }
}

impl<'b> Bind<'b> for &'b str {
    type Value = &'b str;

    open spec fn bind_spec(&self) -> Option<&'b str> {
        Some(*self)
    }

    fn into_bind_value(self) -> (r: Result<&'b str, Error>) {
        Ok(self)
    }
}

impl<'b> Bind<'b> for String {
    type Value = String;

    open spec fn bind_spec(&self) -> Option<String> {
        Some(*self)
    }

    fn into_bind_value(self) -> (r: Result<String, Error>) {
        Ok(self)
    }
}

impl<'b> Bind<'b> for &'b [u8] {
    type Value = &'b [u8];

    open spec fn bind_spec(&self) -> Option<&'b [u8]> {
        Some(*self)
    }

    fn into_bind_value(self) -> (r: Result<&'b [u8], Error>) {
        Ok(self)
    }
}

impl<'b> Bind<'b> for Vec<u8> {
    type Value = Vec<u8>;

    open spec fn bind_spec(&self) -> Option<Vec<u8>> {
        Some(*self)
    }

    fn into_bind_value(self) -> (r: Result<Vec<u8>, Error>) {
        Ok(self)
    }
}

impl<'b> Bind<'b> for Reservation {
    type Value = Reservation;

    open spec fn bind_spec(&self) -> Option<Reservation> {
        Some(*self)
    }

    fn into_bind_value(self) -> (r: Result<Reservation, Error>) {
        Ok(self)
    }
}

/// `None` is bound as `NULL`; `Some(value)` as `value` is.
impl<'b, T: Bind<'b>> Bind<'b> for Option<T> {
    type Value = Option<T::Value>;

    open spec fn bind_spec(&self) -> Option<Option<T::Value>> {
        match self {
            Some(value) => match value.bind_spec() {
                Some(bound) => Some(Some(bound)),
                None => None,
            },
            None => Some(None),
        }
    }

    fn into_bind_value(self) -> (r: Result<Option<T::Value>, Error>) {
        match self {
            Some(value) => match value.into_bind_value() {
                Ok(bound) => Ok(Some(bound)),
                Err(error) => Err(error),
            },
            None => Ok(None),
        }
    }
}

/// A character is bound as its Unicode scalar value: the bound integer is
/// never negative and, as an integer, is the character's scalar value.
pub proof fn lemma_char_binds_scalar_value(c: char)
    ensures
        <char as Bind<'static>>::bind_spec(&c) matches Some(v) && v >= 0 && v as int == c as u32
            as int,
{
    let x = c as u32;
    assert(x <= 0x10ffff);
    assert(x <= 0x10ffff ==> (x as i32) as int == x as int) by (bit_vector);
}

/// An integer or a boolean is bound as the same number: every integer type
/// the library binds is widened without change (`u64` and `usize` exactly
/// when they fit in an `i64`), `true` is bound as `1` and `false` as `0`, and
/// a row id as its value.
pub proof fn lemma_numbers_bind_unchanged(
    a: i8,
    b: u8,
    c: i16,
    d: u16,
    e: i32,
    f: u32,
    g: i64,
    h: isize,
    i: u64,
    j: usize,
    k: bool,
    id: RowId,
)
    ensures
        <i8 as Bind<'static>>::bind_spec(&a) matches Some(v) && v as int == a as int,
        <u8 as Bind<'static>>::bind_spec(&b) matches Some(v) && v as int == b as int,
        <i16 as Bind<'static>>::bind_spec(&c) matches Some(v) && v as int == c as int,
        <u16 as Bind<'static>>::bind_spec(&d) matches Some(v) && v as int == d as int,
        <i32 as Bind<'static>>::bind_spec(&e) matches Some(v) && v as int == e as int,
        <u32 as Bind<'static>>::bind_spec(&f) matches Some(v) && v as int == f as int,
        <i64 as Bind<'static>>::bind_spec(&g) matches Some(v) && v as int == g as int,
        <isize as Bind<'static>>::bind_spec(&h) matches Some(v) && v as int == h as int,
        <u64 as Bind<'static>>::bind_spec(&i) is Some <==> i <= i64::MAX,
        <u64 as Bind<'static>>::bind_spec(&i) matches Some(v) ==> v as int == i as int,
        <usize as Bind<'static>>::bind_spec(&j) is Some <==> j <= i64::MAX,
        <usize as Bind<'static>>::bind_spec(&j) matches Some(v) ==> v as int == j as int,
        <bool as Bind<'static>>::bind_spec(&k) == Some(if k { 1i32 } else { 0i32 }),
        <RowId as Bind<'static>>::bind_spec(&id) == Some(id@),
{
}

} // verus!
