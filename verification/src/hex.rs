//! Hexadecimal text: how result codes without a name are written.

use vstd::prelude::*;

verus! {

/// The lowercase hexadecimal digit for `d` (below 16).
pub open spec fn hex_digit_char(d: nat) -> char {
    seq!['0', '1', '2', '3', '4', '5', '6', '7', '8', '9', 'a', 'b', 'c', 'd', 'e', 'f'][d as int]
}

/// The shortest lowercase hexadecimal text of `n`.
pub open spec fn hex_chars(n: nat) -> Seq<char>
    decreases n,
{
    if n < 16 {
        seq![hex_digit_char(n)]
    } else {
        hex_chars(n / 16).push(hex_digit_char(n % 16))
    }
}

/// `text` with `'0'`s put in front until it is at least `width` long.
pub open spec fn zero_padded(text: Seq<char>, width: nat) -> Seq<char> {
    if text.len() < width {
        Seq::new((width - text.len()) as nat, |i: int| '0') + text
    } else {
        text
    }
}

/// The text of a single hexadecimal digit.
fn hex_digit_text(d: u32) -> (r: &'static str)
    requires
        d < 16,
    ensures
        r@ == seq![hex_digit_char(d as nat)],
{
    proof {
        reveal_strlit("0");
        reveal_strlit("1");
        reveal_strlit("2");
        reveal_strlit("3");
        reveal_strlit("4");
        reveal_strlit("5");
        reveal_strlit("6");
        reveal_strlit("7");
        reveal_strlit("8");
        reveal_strlit("9");
        reveal_strlit("a");
        reveal_strlit("b");
        reveal_strlit("c");
        reveal_strlit("d");
        reveal_strlit("e");
        reveal_strlit("f");
    }
    match d {
        0 => "0",
        1 => "1",
        2 => "2",
        3 => "3",
        4 => "4",
        5 => "5",
        6 => "6",
        7 => "7",
        8 => "8",
        9 => "9",
        10 => "a",
        11 => "b",
        12 => "c",
        13 => "d",
        14 => "e",
        _ => "f",
    }
}

/// Append the lowercase hexadecimal text of `n` to `text`.
pub fn push_hex(text: &mut String, n: u32)
    ensures
        final(text)@ == old(text)@ + hex_chars(n as nat),
    decreases n,
{
    if n >= 16 {
        push_hex(text, n / 16);
    }
    text.append(hex_digit_text(n % 16));
    proof {
        if n >= 16 {
            assert(hex_chars(n as nat) == hex_chars((n / 16) as nat).push(
                hex_digit_char((n % 16) as nat),
            ));
        }
    }
}

/// The number of hexadecimal digits of `n`.
pub fn hex_len(n: u32) -> (r: usize)
    ensures
        r == hex_chars(n as nat).len(),
        r <= n / 16 + 1,
    decreases n,
{
    if n >= 16 {
        let inner = hex_len(n / 16);
        assert(n / 16 / 16 + 2 <= n / 16 + 1);
        inner + 1
    } else {
        1
    }
}

/// Append the lowercase hexadecimal text of `n`, with `'0'`s in front to
/// make it at least `width` digits long.
pub fn push_hex_padded(text: &mut String, n: u32, width: usize)
    ensures
        final(text)@ == old(text)@ + zero_padded(hex_chars(n as nat), width as nat),
{
    let len = hex_len(n);
    let mut pad: usize = len;
    let ghost start = text@;
    while pad < width
        invariant
            len <= pad <= width || (pad == len && width < len),
            len == hex_chars(n as nat).len(),
            text@ == start + Seq::new((pad - len) as nat, |i: int| '0'),
        decreases width - pad,
    {
        proof {
            reveal_strlit("0");
        }
        text.append("0");
        pad = pad + 1;
        assert(text@ =~= start + Seq::new((pad - len) as nat, |i: int| '0'));
    }
    let ghost zeros = text@;
    push_hex(text, n);
    proof {
        if len < width {
            assert(pad == width);
            assert(text@ =~= start + zero_padded(hex_chars(n as nat), width as nat));
        } else {
            assert(zeros =~= start);
            assert(text@ =~= start + zero_padded(hex_chars(n as nat), width as nat));
        }
    }
}

/// The hexadecimal digit for `d` is the ASCII character `'0'` to `'9'` for
/// `d` below 10, and `'a'` to `'f'` for 10 to 15.
pub proof fn lemma_hex_digit_char(d: nat)
    requires
        d < 16,
    ensures
        d < 10 ==> hex_digit_char(d) as int == '0' as int + d,
        d >= 10 ==> hex_digit_char(d) as int == 'a' as int + (d - 10),
{
}

} // verus!
