//! Lower-case hexadecimal text, for printing addresses and protocol numbers.
use vstd::prelude::*;
use crate::wire::{high_nibble, low_nibble, read_high_nibble, read_low_nibble};

verus! {

/// The sixteen hexadecimal digits in order.
pub open spec fn hex_digits() -> Seq<char> {
    seq!['0', '1', '2', '3', '4', '5', '6', '7', '8', '9', 'a', 'b', 'c', 'd', 'e', 'f']
}

/// The hexadecimal digit for a number below 16.
pub open spec fn hex_digit(n: u8) -> char
    recommends
        n < 16,
{
    hex_digits()[n as int]
}

/// A byte as two hexadecimal digits.
pub open spec fn hex_byte(b: u8) -> Seq<char> {
    seq![hex_digit(high_nibble(b)), hex_digit(low_nibble(b))]
}

/// A 16-bit number as four hexadecimal digits.
pub open spec fn hex_word(w: u16) -> Seq<char> {
    hex_byte((w as int / 0x100) as u8) + hex_byte((w as int % 0x100) as u8)
}

/// The bytes of `s` as two hexadecimal digits each, with a colon between neighbours.
pub open spec fn hex_colon(s: Seq<u8>) -> Seq<char>
    decreases s.len(),
{
    if s.len() == 0 {
        Seq::empty()
    } else if s.len() == 1 {
        hex_byte(s[0])
    } else {
        hex_colon(s.drop_last()) + seq![':'] + hex_byte(s.last())
    }
}

/// The one-character text of a hexadecimal digit.
fn hex_digit_text(n: u8) -> (s: &'static str)
    requires
        n < 16,
    ensures
        s@ == seq![hex_digit(n)],
{
    proof {
        reveal_strlit("0");
        reveal_strlit("1");
        reveal_strlit("2");
        reveal_strlit("3");
        reveal_strlit("4");
        reveal_strlit("5");
        reveal_strlit("6");
        reveal_strlit("7");
        reveal_strlit("8");
        reveal_strlit("9");
        reveal_strlit("a");
        reveal_strlit("b");
        reveal_strlit("c");
        reveal_strlit("d");
        reveal_strlit("e");
        reveal_strlit("f");
    }
    match n {
        0 => "0",
        1 => "1",
        2 => "2",
        3 => "3",
        4 => "4",
        5 => "5",
        6 => "6",
        7 => "7",
        8 => "8",
        9 => "9",
        10 => "a",
        11 => "b",
        12 => "c",
        13 => "d",
        14 => "e",
        _ => "f",
    }
}

/// Appends the two hexadecimal digits of `b` to `out`.
pub fn push_hex_byte(out: &mut String, b: u8)
    ensures
        final(out)@ == old(out)@ + hex_byte(b),
{
    out.append(hex_digit_text(read_high_nibble(b)));
    out.append(hex_digit_text(read_low_nibble(b)));
}

/// Appends the four hexadecimal digits of `w` to `out`.
pub fn push_hex_word(out: &mut String, w: u16)
    ensures
        final(out)@ == old(out)@ + hex_word(w),
{
    assert(w >> 8 == w / 0x100 && w & 0xff == w % 0x100) by (bit_vector);
    push_hex_byte(out, (w >> 8) as u8);
    push_hex_byte(out, (w & 0xff) as u8);
}

/// Appends the bytes of `bytes` to `out`, two hexadecimal digits each, with a
/// colon between neighbours.
pub fn push_hex_colon(out: &mut String, bytes: &[u8])
    ensures
        final(out)@ == old(out)@ + hex_colon(bytes@),
{
    let mut i: usize = 0;
    while i < bytes.len()
        invariant
            i <= bytes.len(),
            out@ == old(out)@ + hex_colon(bytes@.take(i as int)),
        decreases bytes.len() - i,
    {
        if i > 0 {
            out.append(":");
        }
        push_hex_byte(out, bytes[i]);
        proof {
            reveal_strlit(":");
            let now = bytes@.take(i + 1);
            assert(now.drop_last() =~= bytes@.take(i as int));
        }
        i += 1;
    }
    assert(bytes@.take(i as int) =~= bytes@);
}

} // verus!
