//! Decimal digits: reading unsigned numbers out of byte strings and writing
//! them back as text.

use vstd::prelude::*;

verus! {

/// `true` for the ASCII bytes `'0'..='9'`.
pub open spec fn is_digit(b: u8) -> bool {
    48 <= b <= 57
}

/// `true` when every byte of `s` is a decimal digit.
pub open spec fn all_digits(s: Seq<u8>) -> bool {
    forall|i: int| 0 <= i < s.len() ==> is_digit(#[trigger] s[i])
}

/// The value of a string of decimal digits, most significant first.
pub open spec fn decimal_value(s: Seq<u8>) -> nat
    decreases s.len(),
{
    if s.len() == 0 {
        0
    } else {
        decimal_value(s.drop_last()) * 10 + (s.last() - 48) as nat
    }
}

/// The number written by `s` in base 10, as `u32::from_str_radix(s, 10)`
/// reads it when `s` does not start with a sign: `s` must be non-empty, hold
/// only digits, and denote a value that fits in a `u32`.
pub open spec fn decimal_number(s: Seq<u8>) -> Option<nat> {
    if s.len() > 0 && all_digits(s) && decimal_value(s) <= u32::MAX {
        Some(decimal_value(s))
    } else {
        None
    }
}

/// Index of the first `c` in `s`, or `s.len()` when `s` holds no `c`.
pub open spec fn index_of_byte(s: Seq<u8>, c: u8) -> nat
    decreases s.len(),
{
    if s.len() == 0 {
        0
    } else if s[0] == c {
        0
    } else {
        index_of_byte(s.drop_first(), c) + 1
    }
}

/// `index_of_byte` is the first position holding `c`, or the length.
pub proof fn lemma_index_of_byte(s: Seq<u8>, c: u8, i: int)
    requires
        0 <= i <= s.len(),
        forall|k: int| 0 <= k < i ==> s[k] != c,
        i == s.len() || s[i] == c,
    ensures
        index_of_byte(s, c) == i,
    decreases s.len(),
{
    if s.len() > 0 && s[0] != c {
        assert forall|k: int| 0 <= k < i - 1 implies s.drop_first()[k] != c by {
            assert(s.drop_first()[k] == s[k + 1]);
        }
        if i < s.len() {
            assert(s.drop_first()[i - 1] == s[i]);
        }
        lemma_index_of_byte(s.drop_first(), c, i - 1);
    }
}

/// `index_of_byte` never exceeds the length, and names a `c` when smaller.
pub proof fn lemma_index_of_byte_bounds(s: Seq<u8>, c: u8)
    ensures
        index_of_byte(s, c) <= s.len(),
        index_of_byte(s, c) < s.len() ==> s[index_of_byte(s, c) as int] == c,
        forall|k: int| 0 <= k < index_of_byte(s, c) ==> s[k] != c,
    decreases s.len(),
{
    if s.len() > 0 && s[0] != c {
        lemma_index_of_byte_bounds(s.drop_first(), c);
        assert forall|k: int| 0 <= k < index_of_byte(s, c) implies s[k] != c by {
            if k > 0 {
                assert(s[k] == s.drop_first()[k - 1]);
            }
        }
    }
}

/// The value of a prefix of digits never exceeds the value of the whole.
pub proof fn lemma_decimal_value_prefix(s: Seq<u8>, k: int)
    requires
        0 <= k <= s.len(),
        all_digits(s),
    ensures
        decimal_value(s.take(k)) <= decimal_value(s),
    decreases s.len() - k,
{
    if k < s.len() {
        lemma_decimal_value_prefix(s, k + 1);
        assert(s.take(k + 1).drop_last() =~= s.take(k));
        assert(decimal_value(s.take(k + 1)) == decimal_value(s.take(k)) * 10 + (s.take(k
            + 1).last() - 48) as nat);
    } else {
        assert(s.take(k) =~= s);
    }
}

/// Find the first `c` in `bytes[start..end]`; returns `end` when there is none.
pub fn find_byte(bytes: &[u8], start: usize, end: usize, c: u8) -> (r: usize)
    requires
        start <= end <= bytes@.len(),
    ensures
        r == start + index_of_byte(bytes@.subrange(start as int, end as int), c),
        start <= r <= end,
{
    let ghost s = bytes@.subrange(start as int, end as int);
    let mut i = start;
    while i < end
        invariant
            start <= i <= end <= bytes@.len(),
            s == bytes@.subrange(start as int, end as int),
            forall|k: int| start <= k < i ==> bytes@[k] != c,
        decreases end - i,
    {
        if bytes[i] == c {
            proof {
                lemma_index_of_byte(s, c, i - start);
            }
            return i;
        }
        i = i + 1;
    }
    proof {
        lemma_index_of_byte(s, c, end - start);
    }
    end
}

/// Read the decimal number written by `bytes[start..end]`.
///
/// Returns `None` when the range is empty, holds a byte other than a digit,
/// or denotes a value larger than `u32::MAX`.
pub fn parse_decimal(bytes: &[u8], start: usize, end: usize) -> (r: Option<u32>)
    requires
        start <= end <= bytes@.len(),
    ensures
        match r {
            Some(n) => decimal_number(bytes@.subrange(start as int, end as int)) == Some(n as nat),
            None => decimal_number(bytes@.subrange(start as int, end as int)) is None,
        },
{
    let ghost s = bytes@.subrange(start as int, end as int);
    if start == end {
        return None;
    }
    let mut i = start;
    while i < end
        invariant
            start <= i <= end <= bytes@.len(),
            s == bytes@.subrange(start as int, end as int),
            forall|k: int| start <= k < i ==> is_digit(#[trigger] bytes@[k]),
        decreases end - i,
    {
        let b = bytes[i];
        if b < 48 || b > 57 {
            assert(s[i - start] == b);
            return None;
        }
        i = i + 1;
    }
    assert(all_digits(s)) by {
        assert forall|k: int| 0 <= k < s.len() implies is_digit(#[trigger] s[k]) by {
            assert(s[k] == bytes@[start + k]);
        }
    }
    let mut value: u64 = 0;
    let mut j = start;
    while j < end
        invariant
            start <= j <= end <= bytes@.len(),
            s == bytes@.subrange(start as int, end as int),
            all_digits(s),
            value as nat == decimal_value(s.take(j - start)),
            value <= u32::MAX,
        decreases end - j,
    {
        assert(s[j - start] == bytes@[j as int]);
        let d = bytes[j] - 48;
        assert(s.take(j - start + 1).drop_last() =~= s.take(j - start));
        assert(s.take(j - start + 1).last() == bytes@[j as int]);
        let next: u64 = value * 10 + d as u64;
        if next > 0xFFFF_FFFF {
            proof {
                lemma_decimal_value_prefix(s, j - start + 1);
            }
            return None;
        }
        value = next;
        j = j + 1;
    }
    assert(s.take(end - start) =~= s);
    Some(value as u32)
}

/// The character for a digit value below ten.
pub open spec fn digit_char(d: nat) -> char {
    if d == 0 {
        '0'
    } else if d == 1 {
        '1'
    } else if d == 2 {
        '2'
    } else if d == 3 {
        '3'
    } else if d == 4 {
        '4'
    } else if d == 5 {
        '5'
    } else if d == 6 {
        '6'
    } else if d == 7 {
        '7'
    } else if d == 8 {
        '8'
    } else {
        '9'
    }
}

/// The shortest decimal text of `n`.
pub open spec fn decimal_chars(n: nat) -> Seq<char>
    decreases n,
{
    if n < 10 {
        seq![digit_char(n)]
    } else {
        decimal_chars(n / 10).push(digit_char(n % 10))
    }
}

/// The text of a single digit.
fn digit_text(d: u32) -> (r: &'static str)
    requires
        d < 10,
    ensures
        r@ == seq![digit_char(d as nat)],
{
    proof {
        reveal_strlit("0");
        reveal_strlit("1");
        reveal_strlit("2");
        reveal_strlit("3");
        reveal_strlit("4");
        reveal_strlit("5");
        reveal_strlit("6");
        reveal_strlit("7");
        reveal_strlit("8");
        reveal_strlit("9");
    }
    match d {
        0 => "0",
        1 => "1",
        2 => "2",
        3 => "3",
        4 => "4",
        5 => "5",
        6 => "6",
        7 => "7",
        8 => "8",
        _ => "9",
    }
}

/// Append the decimal text of `n` to `text`.
pub fn push_decimal(text: &mut String, n: u32)
    ensures
        final(text)@ == old(text)@ + decimal_chars(n as nat),
    decreases n,
{
    if n >= 10 {
        push_decimal(text, n / 10);
    }
    text.append(digit_text(n % 10));
    proof {
        if n >= 10 {
            assert(decimal_chars(n as nat) == decimal_chars((n / 10) as nat).push(
                digit_char((n % 10) as nat),
            ));
        }
    }
}

/// The bytes of a string of ASCII characters, one per character.
pub open spec fn ascii_bytes(chars: Seq<char>) -> Seq<u8> {
    Seq::new(chars.len(), |i: int| chars[i] as u8)
}

/// The decimal text of `n` is a non-empty string of ASCII digits whose value
/// is `n`.
pub proof fn lemma_decimal_chars(n: nat)
    ensures
        decimal_chars(n).len() > 0,
        vstd::utf8::is_ascii_chars(decimal_chars(n)),
        all_digits(ascii_bytes(decimal_chars(n))),
        decimal_value(ascii_bytes(decimal_chars(n))) == n,
    decreases n,
{
    let d = if n < 10 { n } else { n % 10 };
    assert(digit_char(d) as u8 == 48 + d && '\0' <= digit_char(d) <= '\u{7f}') by {
        if d == 0 {} else if d == 1 {} else if d == 2 {} else if d == 3 {} else if d == 4 {
        } else if d == 5 {} else if d == 6 {} else if d == 7 {} else if d == 8 {} else {}
    }
    let b = ascii_bytes(decimal_chars(n));
    if n < 10 {
        assert(b.drop_last() =~= Seq::<u8>::empty());
        assert(b[0] == 48 + d);
        assert(decimal_value(b) == decimal_value(b.drop_last()) * 10 + (b.last() - 48) as nat);
    } else {
        lemma_decimal_chars(n / 10);
        let prefix = ascii_bytes(decimal_chars(n / 10));
        assert(b.drop_last() =~= prefix);
        assert(b.last() == 48 + d);
        assert forall|i: int| 0 <= i < b.len() implies is_digit(#[trigger] b[i]) by {
            if i < b.len() - 1 {
                assert(b[i] == prefix[i]);
            }
        }
        assert(decimal_value(b) == decimal_value(b.drop_last()) * 10 + (b.last() - 48) as nat);
        assert(n == (n / 10) * 10 + n % 10);
    }
}

} // verus!
