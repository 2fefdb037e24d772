//! Versions of the SQLite library, packed into a single non-zero `u32`.
//!
//! Bits 24..32 hold the major version, bits 12..24 the minor version and
//! bits 0..12 the patch version, so that comparing the packed values compares
//! versions component by component.

use core::cmp::Ordering;
use core::num::NonZero;

use vstd::prelude::*;
use vstd::string::StringSliceAdditionalSpecFns;

use crate::decimal::{
    all_digits, ascii_bytes, decimal_chars, decimal_value, lemma_decimal_chars,
    lemma_index_of_byte, lemma_index_of_byte_bounds, decimal_number, find_byte, index_of_byte,
    parse_decimal, push_decimal,
};

verus! {

/// Width in bits of the major component.
pub const MAJOR_WIDTH: u32 = 8;
/// Width in bits of the minor component.
pub const MINOR_WIDTH: u32 = 12;
/// Width in bits of the patch component.
pub const PATCH_WIDTH: u32 = 12;

/// `true` when `major`.`minor`.`patch` can be represented by a [`Version`]:
/// every component fits its field and not all of them are zero.
pub open spec fn valid_components(major: int, minor: int, patch: int) -> bool {
    &&& 0 <= major < 256
    &&& 0 <= minor < 4096
    &&& 0 <= patch < 4096
    &&& !(major == 0 && minor == 0 && patch == 0)
}

/// The major component stored in a packed value.
pub open spec fn packed_major(value: u32) -> u32 {
    (value & 0xFF00_0000) >> 24u32
}

/// The minor component stored in a packed value.
pub open spec fn packed_minor(value: u32) -> u32 {
    (value & 0x00FF_F000) >> 12u32
}

/// The patch component stored in a packed value.
pub open spec fn packed_patch(value: u32) -> u32 {
    value & 0x0000_0FFF
}

/// The components written by a version string `major.minor[.patch]`, read
/// from its bytes: two or three decimal numbers (each fitting in a `u32`)
/// separated by `'.'`, with nothing before or after. The patch component is
/// `0` when omitted.
pub open spec fn version_text_components(b: Seq<u8>) -> Option<(int, int, int)> {
    let i = index_of_byte(b, 46) as int;
    if i == b.len() {
        None
    } else {
        let rest = b.skip(i + 1);
        let j = index_of_byte(rest, 46) as int;
        match (decimal_number(b.take(i)), decimal_number(rest.take(j))) {
            (Some(x), Some(y)) => if j == rest.len() {
                Some((x as int, y as int, 0int))
            } else {
                let tail = rest.skip(j + 1);
                if index_of_byte(tail, 46) == tail.len() {
                    match decimal_number(tail) {
                        Some(z) => Some((x as int, y as int, z as int)),
                        None => None,
                    }
                } else {
                    None
                }
            },
            _ => None,
        }
    }
}

/// The version components that parsing `b` yields, if it is a valid version.
pub open spec fn parsed_version(b: Seq<u8>) -> Option<(int, int, int)> {
    match version_text_components(b) {
        Some(c) => if valid_components(c.0, c.1, c.2) {
            Some(c)
        } else {
            None
        },
        None => None,
    }
}

/// The components of a `SQLITE_VERSION_NUMBER`-style integer
/// (`major * 1_000_000 + minor * 1_000 + patch`), read from its bits as a
/// `u32`.
pub open spec fn number_components(num: i32) -> (int, int, int) {
    let n = (num as u32) as int;
    (n / 1_000_000, (n % 1_000_000) / 1_000, n % 1_000)
}

/// The `SQLITE_VERSION_NUMBER`-style integer for a triple of components.
pub open spec fn components_number(c: (int, int, int)) -> int {
    c.0 * 1_000_000 + c.1 * 1_000 + c.2
}

/// The text `major.minor.patch` of a version's components.
pub open spec fn version_chars(c: (int, int, int)) -> Seq<char> {
    decimal_chars(c.0 as nat) + seq!['.'] + decimal_chars(c.1 as nat) + seq!['.']
        + decimal_chars(c.2 as nat)
}

/// A version of the SQLite library.
///
/// Since SQLite 3.9.0 (2015), SQLite versions follow semantic versioning:
/// the major version changes on backward-incompatible changes, the minor
/// version on new features, and the patch version on fixes.
#[derive(Copy, Clone, Ord, Hash, Debug)]
pub struct Version(VersionBits);

/// The packed bits of a [`Version`], never zero, kept as a `NonZero<u32>` so
/// that an `Option<Version>` takes no more room than a `Version`.
#[verifier::external_body]
pub struct VersionBits(NonZero<u32>);

impl Clone for VersionBits {
    /// Trusted: `NonZero<u32>` is `Copy`, so a clone is a copy of the same
    /// value.
    #[verifier::external_body]
    fn clone(&self) -> (r: Self)
        ensures
            r == *self,
    {
        VersionBits(self.0)
    }
}

impl Copy for VersionBits {
}

impl PartialEq for VersionBits {
    /// Trusted: `NonZero<u32>` equality, which compares the held values.
    #[verifier::external_body]
    fn eq(&self, other: &Self) -> bool {
        self.0 == other.0
    }
}

impl Eq for VersionBits {
}

impl PartialOrd for VersionBits {
    /// Trusted: `NonZero<u32>` ordering, which orders the held values.
    #[verifier::external_body]
    fn partial_cmp(&self, other: &Self) -> Option<Ordering> {
        Some(self.0.cmp(&other.0))
    }
}

impl Ord for VersionBits {
    /// Trusted: `NonZero<u32>` ordering, which orders the held values.
    #[verifier::external_body]
    fn cmp(&self, other: &Self) -> Ordering {
        self.0.cmp(&other.0)
    }
}

impl core::hash::Hash for VersionBits {
    /// Trusted: hashes the held `NonZero<u32>`.
    #[verifier::external_body]
    fn hash<H: core::hash::Hasher>(&self, state: &mut H) {
        self.0.hash(state)
    }
}

/// `core::fmt::Formatter`, the destination of formatting.
#[verifier::external_type_specification]
#[verifier::external_body]
pub struct ExFormatter<'a>(core::fmt::Formatter<'a>);

/// `core::fmt::Error`, the error formatting returns.
#[verifier::external_type_specification]
#[verifier::external_body]
pub struct ExFmtError(core::fmt::Error);

impl core::fmt::Debug for VersionBits {
    /// Trusted: formats the held `NonZero<u32>`.
    #[verifier::external_body]
    fn fmt(&self, f: &mut core::fmt::Formatter<'_>) -> core::fmt::Result {
        self.0.fmt(f)
    }
}

/// What `NonZero::<u32>::new` holds for a `value` that is not zero.
pub uninterp spec fn nonzero_bits(value: u32) -> VersionBits;

/// What `NonZero::<u32>::get` returns for `bits`.
pub uninterp spec fn nonzero_value(bits: VersionBits) -> u32;

/// Trusted wrapper of `NonZero::<u32>::new`, which the standard library
/// documents as returning `Some` exactly for a value that is not zero; the
/// `NonZero` holds `value`, and `get` gives `value` back.
#[verifier::external_body]
fn wrap_bits(value: u32) -> (r: VersionBits)
    requires
        value != 0,
    ensures
        r == nonzero_bits(value),
        nonzero_value(r) == value,
{
    VersionBits(NonZero::new(value).unwrap())
}

/// Trusted wrapper of `NonZero::<u32>::get`, which returns the value the
/// `NonZero` holds: never zero, and a `NonZero` is determined by it.
#[verifier::external_body]
fn unwrap_bits(bits: VersionBits) -> (r: u32)
    ensures
        r == nonzero_value(bits),
        r != 0,
        bits == nonzero_bits(r),
{
    bits.0.get()
}

/// The error returned when a [`Version`] cannot be constructed.
#[derive(Debug, Clone, Copy, PartialEq, Eq, Structural)]
pub struct Error;

impl View for Version {
    type V = (int, int, int);

    /// The `(major, minor, patch)` components of the version.
    open spec fn view(&self) -> (int, int, int) {
        (
            packed_major(self.packed()) as int,
            packed_minor(self.packed()) as int,
            packed_patch(self.packed()) as int,
        )
    }
}

impl Version {
    /// The version with the given components (meaningful when they are
    /// [valid](valid_components)).
    pub closed spec fn from_components_spec(major: int, minor: int, patch: int) -> Version {
        Version(
            nonzero_bits(((major as u32) << 24u32) | ((minor as u32) << 12u32) | (patch as u32)),
        )
    }

    /// The packed representation of this version.
    pub closed spec fn packed(self) -> u32 {
        nonzero_value(self.0)
    }

    #[verifier::type_invariant]
    spec fn inv(self) -> bool {
        self.well_formed()
    }

    /// `true` for a version the library made: its bits are not zero, and
    /// they hold the packed value.
    pub closed spec fn well_formed(self) -> bool {
        &&& nonzero_value(self.0) != 0
        &&& self.0 == nonzero_bits(nonzero_value(self.0))
    }

    /// Create a [`Version`] from `major`.`minor`.`patch`.
    ///
    /// Returns [`Error`] if all components are zero, `major` ≥ 256, or
    /// `minor` or `patch` ≥ 4096.
    pub fn new(major: u32, minor: u32, patch: u32) -> (result: Result<Self, Error>)
        ensures
            result is Ok <==> valid_components(major as int, minor as int, patch as int),
            result matches Ok(v) ==> v@ == (major as int, minor as int, patch as int),
            result matches Err(e) ==> e == Error,
            result matches Ok(v) ==> v == Version::from_components_spec(
                major as int,
                minor as int,
                patch as int,
            ),
            result matches Ok(v) ==> v.well_formed(),
    {
        if major >= 256 || minor >= 4096 || patch >= 4096 {
            return Err(Error);
        }
        let value: u32 = (major << 24u32) | (minor << 12u32) | patch;
        assert(packed_major(value) == major && packed_minor(value) == minor
            && packed_patch(value) == patch) by (bit_vector)
            requires
                major < 256,
                minor < 4096,
                patch < 4096,
                value == (major << 24u32) | (minor << 12u32) | patch,
        ;
        assert(value == 0 <==> (major == 0 && minor == 0 && patch == 0)) by (bit_vector)
            requires
                major < 256,
                minor < 4096,
                patch < 4096,
                value == (major << 24u32) | (minor << 12u32) | patch,
        ;
        if value == 0 {
            Err(Error)
        } else {
            Ok(Version(wrap_bits(value)))
        }
    }

    /// Create a [`Version`] from `major`.`minor`.`0`.
    ///
    /// Returns [`Error`] under the same conditions as [`new`](Self::new).
    pub fn release(major: u32, minor: u32) -> (result: Result<Self, Error>)
        ensures
            result is Ok <==> valid_components(major as int, minor as int, 0),
            result matches Ok(v) ==> v@ == (major as int, minor as int, 0int),
            result matches Ok(v) ==> v.well_formed() && v == Version::from_components_spec(
                v@.0,
                v@.1,
                v@.2,
            ),
            result matches Err(e) ==> e == Error,
    {
        Self::new(major, minor, 0)
    }

    /// The packed `u32` value.
    fn value(self) -> (r: u32)
        ensures
            r == self.packed(),
    {
        unwrap_bits(self.0)
    }

    /// The SQLite major version component.
    pub fn major(self) -> (r: u32)
        ensures
            r == self@.0,
    {
        (self.value() & 0xFF00_0000) >> 24u32
    }

    /// The SQLite minor version component.
    pub fn minor(self) -> (r: u32)
        ensures
            r == self@.1,
    {
        (self.value() & 0x00FF_F000) >> 12u32
    }

    /// The SQLite patch version component.
    pub fn patch(self) -> (r: u32)
        ensures
            r == self@.2,
    {
        self.value() & 0x0000_0FFF
    }

    /// The `(major, minor, patch)` version components.
    ///
    /// The components of every version are ones that [`new`](Self::new)
    /// accepts.
    pub fn components(self) -> (r: (u32, u32, u32))
        ensures
            (r.0 as int, r.1 as int, r.2 as int) == self@,
            valid_components(self@.0, self@.1, self@.2),
    {
        proof {
            use_type_invariant(self);
            let value = self.packed();
            lemma_packed_from_components(value);
            assert(value != 0 ==> !(packed_major(value) == 0 && packed_minor(value) == 0
                && packed_patch(value) == 0)) by (bit_vector);
        }
        (self.major(), self.minor(), self.patch())
    }
}

impl Version {
    /// Create a [`Version`] from `SQLITE_VERSION_NUMBER` notation
    /// (`major * 1_000_000 + minor * 1_000 + patch`).
    ///
    /// The number's bits are read as a `u32`. Returns [`Error`] if the
    /// resulting components do not fit (see [`new`](Self::new)).
    pub fn from_number(num: i32) -> (result: Result<Self, Error>)
        ensures
            ({
                let c = number_components(num);
                &&& result is Ok <==> valid_components(c.0, c.1, c.2)
                &&& result matches Ok(v) ==> v@ == c
            }),
            result matches Ok(v) ==> v.well_formed() && v == Version::from_components_spec(
                v@.0,
                v@.1,
                v@.2,
            ),
            result matches Err(e) ==> e == Error,
    {
        let n = num as u32;
        let (major, rest) = (n / 1_000_000, n % 1_000_000);
        let (minor, patch) = (rest / 1_000, rest % 1_000);
        assert((n as int % 1_000_000) % 1_000 == n as int % 1_000) by (nonlinear_arith);
        Self::new(major, minor, patch)
    }

    /// Convert the [`Version`] to `SQLITE_VERSION_NUMBER` notation.
    pub fn to_number(self) -> (r: i32)
        ensures
            r as int == components_number(self@),
    {
        let (major, minor, patch) = self.components();
        assert(major * 1_000_000 + minor * 1_000 + patch <= 255 * 1_000_000 + 4095 * 1_000 + 4095)
            by (nonlinear_arith)
            requires
                major < 256,
                minor < 4096,
                patch < 4096,
        ;
        let number: u32 = major * 1_000_000 + minor * 1_000 + patch;
        number as i32
    }

    /// Parse a version string (`major.minor[.patch]`).
    ///
    /// The patch version defaults to `0` when omitted. Returns [`Error`] if
    /// `s` does not match `"x.y.z"` or `"x.y"`, where `x`, `y`, and `z` are
    /// integers that fit their component widths; no leading or trailing
    /// characters are accepted.
    pub fn parse(s: &str) -> (result: Result<Self, Error>)
        ensures
            result is Ok <==> parsed_version(s.spec_bytes()) is Some,
            result matches Ok(v) ==> parsed_version(s.spec_bytes()) == Some(v@),
            result matches Ok(v) ==> v.well_formed() && v == Version::from_components_spec(
                v@.0,
                v@.1,
                v@.2,
            ),
            result matches Err(e) ==> e == Error,
    {
        let bytes = s.as_bytes();
        let ghost b = bytes@;
        let n = bytes.len();
        assert(b.subrange(0, n as int) =~= b);
        let i = find_byte(bytes, 0, n, 46);
        if i == n {
            return Err(Error);
        }
        let ghost rest = b.skip(i + 1);
        assert(b.subrange(0, i as int) =~= b.take(i as int));
        assert(b.subrange(i + 1, n as int) =~= rest);
        let major = match parse_decimal(bytes, 0, i) {
            Some(major) => major,
            None => return Err(Error),
        };
        let j = find_byte(bytes, i + 1, n, 46);
        assert(b.subrange(i + 1, j as int) =~= rest.take(j - i - 1));
        let minor = match parse_decimal(bytes, i + 1, j) {
            Some(minor) => minor,
            None => return Err(Error),
        };
        let patch = if j == n {
            0
        } else {
            let ghost tail = rest.skip(j - i);
            assert(b.subrange(j + 1, n as int) =~= tail);
            let k = find_byte(bytes, j + 1, n, 46);
            if k != n {
                return Err(Error);
            }
            match parse_decimal(bytes, j + 1, n) {
                Some(patch) => patch,
                None => return Err(Error),
            }
        };
        Self::new(major, minor, patch)
    }

    /// [Parse](Self::parse) a [`Version`] that is known to be valid.
    pub fn declare(s: &str) -> (v: Self)
        requires
            parsed_version(s.spec_bytes()) is Some,
        ensures
            parsed_version(s.spec_bytes()) == Some(v@),
            v.well_formed(),
            v == Version::from_components_spec(v@.0, v@.1, v@.2),
    {
        match Self::parse(s) {
            Ok(v) => v,
            Err(_) => vstd::pervasive::unreached(),
        }
    }

    /// The text `major.minor.patch` of this version.
    pub fn to_string(&self) -> (r: String)
        ensures
            r@ == version_chars(self@),
    {
        let (major, minor, patch) = self.components();
        let mut text = String::new();
        push_decimal(&mut text, major);
        proof {
            reveal_strlit(".");
        }
        text.append(".");
        push_decimal(&mut text, minor);
        text.append(".");
        push_decimal(&mut text, patch);
        text
    }
}

impl TryFrom<(u32, u32, u32)> for Version {
    type Error = Error;

    fn try_from(components: (u32, u32, u32)) -> (result: Result<Self, Self::Error>) {
        Self::new(components.0, components.1, components.2)
    }
}

impl vstd::std_specs::convert::TryFromSpecImpl<(u32, u32, u32)> for Version {
    open spec fn obeys_try_from_spec() -> bool {
        true
    }

    open spec fn try_from_spec(c: (u32, u32, u32)) -> Result<Self, Self::Error> {
        if valid_components(c.0 as int, c.1 as int, c.2 as int) {
            Ok(Version::from_components_spec(c.0 as int, c.1 as int, c.2 as int))
        } else {
            Err(Error)
        }
    }
}

impl TryFrom<[u32; 3]> for Version {
    type Error = Error;

    fn try_from(components: [u32; 3]) -> (result: Result<Self, Self::Error>) {
        Self::new(components[0], components[1], components[2])
    }
}

impl vstd::std_specs::convert::TryFromSpecImpl<[u32; 3]> for Version {
    open spec fn obeys_try_from_spec() -> bool {
        true
    }

    open spec fn try_from_spec(c: [u32; 3]) -> Result<Self, Self::Error> {
        if valid_components(c@[0] as int, c@[1] as int, c@[2] as int) {
            Ok(Version::from_components_spec(c@[0] as int, c@[1] as int, c@[2] as int))
        } else {
            Err(Error)
        }
    }
}

impl From<Version> for (u32, u32, u32) {
    fn from(version: Version) -> (r: Self) {
        version.components()
    }
}

impl vstd::std_specs::convert::FromSpecImpl<Version> for (u32, u32, u32) {
    open spec fn obeys_from_spec() -> bool {
        true
    }

    open spec fn from_spec(v: Version) -> Self {
        (v@.0 as u32, v@.1 as u32, v@.2 as u32)
    }
}

impl From<Version> for [u32; 3] {
    fn from(version: Version) -> (r: Self) {
        [version.major(), version.minor(), version.patch()]
    }
}

impl vstd::std_specs::convert::FromSpecImpl<Version> for [u32; 3] {
    open spec fn obeys_from_spec() -> bool {
        true
    }

    open spec fn from_spec(v: Version) -> Self {
        [v@.0 as u32, v@.1 as u32, v@.2 as u32]
    }
}

impl core::str::FromStr for Version {
    type Err = Error;

    fn from_str(s: &str) -> (result: Result<Self, Self::Err>)
        ensures
            result is Ok <==> parsed_version(s.spec_bytes()) is Some,
            result matches Ok(v) ==> parsed_version(s.spec_bytes()) == Some(v@),
            result matches Ok(v) ==> v.well_formed() && v == Version::from_components_spec(
                v@.0,
                v@.1,
                v@.2,
            ),
            result matches Err(e) ==> e == Error,
    {
        Self::parse(s)
    }
}

/// A packed value is the bitwise combination of its three components.
proof fn lemma_packed_from_components(value: u32)
    ensures
        value == (packed_major(value) << 24u32) | (packed_minor(value) << 12u32) | packed_patch(
            value,
        ),
        packed_major(value) < 256,
        packed_minor(value) < 4096,
        packed_patch(value) < 4096,
{
    assert(value == (packed_major(value) << 24u32) | (packed_minor(value) << 12u32)
        | packed_patch(value)) by (bit_vector);
    assert(packed_major(value) < 256) by (bit_vector);
    assert(packed_minor(value) < 4096) by (bit_vector);
    assert(packed_patch(value) < 4096) by (bit_vector);
}

/// Two versions are equal exactly when their components are equal.
pub proof fn lemma_version_eq_iff_components(a: Version, b: Version)
    requires
        a.well_formed(),
        b.well_formed(),
    ensures
        (a == b) <==> (a@ == b@),
{
    lemma_packed_from_components(a.packed());
    lemma_packed_from_components(b.packed());
}

/// Lexicographic order on `(major, minor, patch)` triples.
pub open spec fn components_less(a: (int, int, int), b: (int, int, int)) -> bool {
    ||| a.0 < b.0
    ||| a.0 == b.0 && a.1 < b.1
    ||| a.0 == b.0 && a.1 == b.1 && a.2 < b.2
}

/// The ordering of two packed values.
pub open spec fn compare_packed(a: u32, b: u32) -> Ordering {
    if a < b {
        Ordering::Less
    } else if a == b {
        Ordering::Equal
    } else {
        Ordering::Greater
    }
}

impl PartialEq for Version {
    fn eq(&self, other: &Self) -> (r: bool) {
        self.value() == other.value()
    }
}

impl Eq for Version {
}

impl vstd::std_specs::cmp::PartialEqSpecImpl for Version {
    open spec fn obeys_eq_spec() -> bool {
        true
    }

    open spec fn eq_spec(&self, other: &Self) -> bool {
        self.packed() == other.packed()
    }
}

impl PartialOrd for Version {
    fn partial_cmp(&self, other: &Self) -> (r: Option<Ordering>) {
        let (a, b) = (self.value(), other.value());
        if a < b {
            Some(Ordering::Less)
        } else if a == b {
            Some(Ordering::Equal)
        } else {
            Some(Ordering::Greater)
        }
    }
}

impl vstd::std_specs::cmp::PartialOrdSpecImpl for Version {
    open spec fn obeys_partial_cmp_spec() -> bool {
        true
    }

    open spec fn partial_cmp_spec(&self, other: &Self) -> Option<Ordering> {
        Some(compare_packed(self.packed(), other.packed()))
    }
}

/// Versions are ordered component by component: `a < b` exactly when `a`'s
/// `(major, minor, patch)` precedes `b`'s lexicographically.
pub proof fn lemma_version_order_is_lexicographic(a: Version, b: Version)
    ensures
        (compare_packed(a.packed(), b.packed()) == Ordering::Less) <==> components_less(a@, b@),
        (compare_packed(a.packed(), b.packed()) == Ordering::Equal) <==> a@ == b@,
        (compare_packed(a.packed(), b.packed()) == Ordering::Greater) <==> components_less(b@, a@),
{
    let (x, y) = (a.packed(), b.packed());
    lemma_packed_from_components(x);
    lemma_packed_from_components(y);
    assert(x < y <==> (packed_major(x) < packed_major(y) || (packed_major(x) == packed_major(y)
        && packed_minor(x) < packed_minor(y)) || (packed_major(x) == packed_major(y)
        && packed_minor(x) == packed_minor(y) && packed_patch(x) < packed_patch(y))))
        by (bit_vector);
    assert(y < x <==> (packed_major(y) < packed_major(x) || (packed_major(y) == packed_major(x)
        && packed_minor(y) < packed_minor(x)) || (packed_major(y) == packed_major(x)
        && packed_minor(y) == packed_minor(x) && packed_patch(y) < packed_patch(x))))
        by (bit_vector);
}

/// Reading a version's `SQLITE_VERSION_NUMBER` back gives the same version,
/// for every version whose minor and patch components are below 1000 (the
/// range that notation can hold).
pub proof fn lemma_number_roundtrip(c: (int, int, int))
    requires
        valid_components(c.0, c.1, c.2),
        c.1 < 1000,
        c.2 < 1000,
    ensures
        0 <= components_number(c) <= i32::MAX,
        number_components(components_number(c) as i32) == c,
{
    let n = components_number(c);
    assert(0 <= n <= 255 * 1_000_000 + 999 * 1_000 + 999) by (nonlinear_arith)
        requires
            n == c.0 * 1_000_000 + c.1 * 1_000 + c.2,
            0 <= c.0 < 256,
            0 <= c.1 < 1000,
            0 <= c.2 < 1000,
    ;
    assert((n as i32) as u32 == n);
    assert(n / 1_000_000 == c.0 && (n % 1_000_000) / 1_000 == c.1 && n % 1_000 == c.2)
        by (nonlinear_arith)
        requires
            n == c.0 * 1_000_000 + c.1 * 1_000 + c.2,
            0 <= c.0 < 256,
            0 <= c.1 < 1000,
            0 <= c.2 < 1000,
    ;
}

/// A number that [`Version::from_number`] accepts is the
/// `SQLITE_VERSION_NUMBER` of the version it yields.
pub proof fn lemma_number_components_roundtrip(num: i32)
    requires
        valid_components(number_components(num).0, number_components(num).1, number_components(num).2),
    ensures
        components_number(number_components(num)) == num,
{
    let n = (num as u32) as int;
    let c = number_components(num);
    assert(components_number(c) == n) by (nonlinear_arith)
        requires
            c == (n / 1_000_000, (n % 1_000_000) / 1_000, n % 1_000),
            0 <= n,
    ;
    assert(n < 256 * 1_000_000) by (nonlinear_arith)
        requires
            n / 1_000_000 < 256,
            0 <= n,
    ;
    assert(num >= 0 ==> (num as u32) as int == num as int);
    assert(num < 0 ==> (num as u32) as int == num as int + 0x1_0000_0000) by (bit_vector);
}

/// The bytes of `digits + '.' + rest` place the first `'.'` right after the
/// digits.
proof fn lemma_first_dot_after_digits(digits: Seq<u8>, rest: Seq<u8>)
    requires
        all_digits(digits),
    ensures
        index_of_byte(digits + seq![46u8] + rest, 46) == digits.len(),
        (digits + seq![46u8] + rest).take(digits.len() as int) =~= digits,
        (digits + seq![46u8] + rest).skip(digits.len() + 1int) =~= rest,
{
    let b = digits + seq![46u8] + rest;
    assert forall|k: int| 0 <= k < digits.len() implies b[k] != 46 by {
        assert(b[k] == digits[k]);
    }
    lemma_index_of_byte(b, 46, digits.len() as int);
}

/// A string of digits holds no `'.'`.
proof fn lemma_no_dot_in_digits(digits: Seq<u8>)
    requires
        all_digits(digits),
    ensures
        index_of_byte(digits, 46) == digits.len(),
{
    lemma_index_of_byte(digits, 46, digits.len() as int);
}

/// Parsing the text of a version gives the version back: for every valid
/// triple of components, the bytes of `major.minor.patch` parse to that
/// triple.
pub proof fn lemma_parse_version_text(c: (int, int, int))
    requires
        valid_components(c.0, c.1, c.2),
    ensures
        parsed_version(vstd::utf8::encode_utf8(version_chars(c))) == Some(c),
{
    let (d1, d2, d3) = (decimal_chars(c.0 as nat), decimal_chars(c.1 as nat), decimal_chars(
        c.2 as nat,
    ));
    lemma_decimal_chars(c.0 as nat);
    lemma_decimal_chars(c.1 as nat);
    lemma_decimal_chars(c.2 as nat);
    let chars = version_chars(c);
    assert(chars =~= d1 + seq!['.'] + d2 + seq!['.'] + d3);
    assert(vstd::utf8::is_ascii_chars(chars)) by {
        assert forall|i: int| 0 <= i < chars.len() implies '\0' <= #[trigger] chars[i] <= '\u{7f}' by {
            if i < d1.len() {
                assert(chars[i] == d1[i]);
            } else if i == d1.len() {
            } else if i < d1.len() + 1 + d2.len() {
                assert(chars[i] == d2[i - d1.len() - 1]);
            } else if i == d1.len() + 1 + d2.len() {
            } else {
                assert(chars[i] == d3[i - d1.len() - d2.len() - 2]);
            }
        }
    }
    vstd::utf8::is_ascii_chars_encode_utf8(chars);
    let (b1, b2, b3) = (ascii_bytes(d1), ascii_bytes(d2), ascii_bytes(d3));
    let b = vstd::utf8::encode_utf8(chars);
    assert(b =~= b1 + seq![46u8] + (b2 + seq![46u8] + b3)) by {
        assert forall|i: int| 0 <= i < b.len() implies b[i] == (b1 + seq![46u8] + (b2 + seq![
            46u8,
        ] + b3))[i] by {
            assert(b[i] == chars[i] as u8);
            if i < d1.len() {
                assert(chars[i] == d1[i]);
            } else if i == d1.len() {
            } else if i < d1.len() + 1 + d2.len() {
                assert(chars[i] == d2[i - d1.len() - 1]);
            } else if i == d1.len() + 1 + d2.len() {
            } else {
                assert(chars[i] == d3[i - d1.len() - d2.len() - 2]);
            }
        }
    }
    lemma_first_dot_after_digits(b1, b2 + seq![46u8] + b3);
    lemma_first_dot_after_digits(b2, b3);
    lemma_no_dot_in_digits(b3);
    assert(decimal_number(b1) == Some(c.0 as nat));
    assert(decimal_number(b2) == Some(c.1 as nat));
    assert(decimal_number(b3) == Some(c.2 as nat));
}

/// `true` for a non-empty string of ASCII digits.
pub open spec fn is_numeral(s: Seq<u8>) -> bool {
    s.len() > 0 && all_digits(s)
}

/// The components written by numerals `a`, `b` and `c`.
pub open spec fn numeral_components(a: Seq<u8>, b: Seq<u8>, c: Seq<u8>) -> (int, int, int) {
    (decimal_value(a) as int, decimal_value(b) as int, decimal_value(c) as int)
}

/// The text `a.b.c` of three numerals parses exactly when the components
/// they write are valid, and then to those components.
pub proof fn lemma_parse_three_numerals(a: Seq<u8>, b: Seq<u8>, c: Seq<u8>)
    requires
        is_numeral(a),
        is_numeral(b),
        is_numeral(c),
    ensures
        parsed_version(a + seq![46u8] + b + seq![46u8] + c) == if valid_components(
            decimal_value(a) as int,
            decimal_value(b) as int,
            decimal_value(c) as int,
        ) {
            Some(numeral_components(a, b, c))
        } else {
            None
        },
{
    let s = a + seq![46u8] + b + seq![46u8] + c;
    assert(s =~= a + seq![46u8] + (b + seq![46u8] + c));
    lemma_first_dot_after_digits(a, b + seq![46u8] + c);
    lemma_first_dot_after_digits(b, c);
    lemma_no_dot_in_digits(c);
}

/// The text `a.b` of two numerals parses exactly when `a.b.0` is a valid
/// version, and then to those components.
pub proof fn lemma_parse_two_numerals(a: Seq<u8>, b: Seq<u8>)
    requires
        is_numeral(a),
        is_numeral(b),
    ensures
        parsed_version(a + seq![46u8] + b) == if valid_components(
            decimal_value(a) as int,
            decimal_value(b) as int,
            0,
        ) {
            Some((decimal_value(a) as int, decimal_value(b) as int, 0int))
        } else {
            None
        },
{
    lemma_first_dot_after_digits(a, b);
    lemma_no_dot_in_digits(b);
    assert(b.take(b.len() as int) =~= b);
}

/// Every text that parses is `a.b.c` or `a.b` for numerals `a`, `b`, `c`:
/// no sign, space, empty part or other text is accepted.
pub proof fn lemma_parsed_text_is_numerals(s: Seq<u8>)
    ensures
        parsed_version(s) is Some ==> {
            ||| exists|a: Seq<u8>, b: Seq<u8>, c: Seq<u8>|
                is_numeral(a) && is_numeral(b) && is_numeral(c) && s == a + seq![46u8] + b
                    + seq![46u8] + c
            ||| exists|a: Seq<u8>, b: Seq<u8>| is_numeral(a) && is_numeral(b) && s == a + seq![
                46u8,
            ] + b
        },
{
    if parsed_version(s) is Some {
        let i = index_of_byte(s, 46) as int;
        lemma_index_of_byte_bounds(s, 46);
        let a = s.take(i);
        let rest = s.skip(i + 1);
        let j = index_of_byte(rest, 46) as int;
        lemma_index_of_byte_bounds(rest, 46);
        let b = rest.take(j);
        if j == rest.len() {
            assert(b =~= rest);
            assert(s =~= a + seq![46u8] + b);
            assert(is_numeral(a) && is_numeral(b) && s == a + seq![46u8] + b);
        } else {
            let c = rest.skip(j + 1);
            assert(rest =~= b + seq![46u8] + c);
            assert(s =~= a + seq![46u8] + b + seq![46u8] + c);
            assert(is_numeral(a) && is_numeral(b) && is_numeral(c) && s == a + seq![46u8] + b
                + seq![46u8] + c);
        }
    }
}

/// [`Version::from_number`] accepts exactly the numbers from `1` to
/// `255_999_999`, and reads a non-negative number `n` as major
/// `n / 1_000_000`, minor `n / 1_000 % 1_000` and patch `n % 1_000`.
pub proof fn lemma_from_number_accepts(n: i32)
    ensures
        ({
            let c = number_components(n);
            valid_components(c.0, c.1, c.2) <==> 1 <= n <= 255_999_999
        }),
        n >= 0 ==> number_components(n) == (
            n as int / 1_000_000,
            n as int / 1_000 % 1_000,
            n as int % 1_000,
        ),
{
    assert(n >= 0 ==> n as u32 == n) by (bit_vector);
    assert(n < 0 ==> n as u32 >= 0x8000_0000u32) by (bit_vector);
    let u = (n as u32) as int;
    if n >= 0 {
        assert((u % 1_000_000) / 1_000 == u / 1_000 % 1_000) by (nonlinear_arith)
            requires
                u >= 0,
        ;
        assert(u < 256_000_000 <==> u / 1_000_000 < 256) by (nonlinear_arith)
            requires
                u >= 0,
        ;
        assert((u % 1_000_000) / 1_000 < 1_000) by (nonlinear_arith)
            requires
                u >= 0,
        ;
        assert((u / 1_000_000 == 0 && (u % 1_000_000) / 1_000 == 0 && u % 1_000 == 0) <==> u
            == 0) by (nonlinear_arith)
            requires
                u >= 0,
        ;
    } else {
        assert(u / 1_000_000 >= 256) by (nonlinear_arith)
            requires
                u >= 0x8000_0000,
        ;
    }
}

} // verus!
