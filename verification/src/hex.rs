//! Uppercase hexadecimal rendering of byte sequences.
//!
//! The key deriver renders a digest as an uppercase hex string; the first two
//! characters of that string name the shard. The rendering is defined here as
//! a spec function and implemented as verified code.

use vstd::prelude::*;
use vstd::string::StringExecFns;

verus! {

/// The uppercase hexadecimal digit for a nibble value.
pub open spec fn hex_digit(n: u8) -> char
    recommends
        n < 16,
{
    if n == 0 {
        '0'
    } else if n == 1 {
        '1'
    } else if n == 2 {
        '2'
    } else if n == 3 {
        '3'
    } else if n == 4 {
        '4'
    } else if n == 5 {
        '5'
    } else if n == 6 {
        '6'
    } else if n == 7 {
        '7'
    } else if n == 8 {
        '8'
    } else if n == 9 {
        '9'
    } else if n == 10 {
        'A'
    } else if n == 11 {
        'B'
    } else if n == 12 {
        'C'
    } else if n == 13 {
        'D'
    } else if n == 14 {
        'E'
    } else {
        'F'
    }
}

/// Uppercase hexadecimal rendering of a byte sequence: two digits per byte,
/// high nibble first.
pub open spec fn hex_chars_of(bytes: Seq<u8>) -> Seq<char> {
    Seq::new(
        bytes.len() * 2,
        |i: int|
            if i % 2 == 0 {
                hex_digit(bytes[i / 2] / 16)
            } else {
                hex_digit(bytes[i / 2] % 16)
            },
    )
}

/// Every hexadecimal digit is an ASCII character.
pub proof fn lemma_hex_digit_ascii(n: u8)
    ensures
        '0' <= hex_digit(n) && hex_digit(n) <= 'F',
        hex_digit(n) <= '\u{7f}',
        '\0' <= hex_digit(n),
{
}

/// A hexadecimal rendering is an ASCII character sequence.
pub proof fn lemma_hex_chars_ascii(bytes: Seq<u8>)
    ensures
        vstd::utf8::is_ascii_chars(hex_chars_of(bytes)),
{
    assert forall|i: int| 0 <= i < hex_chars_of(bytes).len() implies '\0'
        <= #[trigger] hex_chars_of(bytes)[i] && hex_chars_of(bytes)[i] <= '\u{7f}' by {
        if i % 2 == 0 {
            lemma_hex_digit_ascii(bytes[i / 2] / 16);
        } else {
            lemma_hex_digit_ascii(bytes[i / 2] % 16);
        }
    }
}

/// The one-character string slice for a nibble value, uppercase.
pub fn hex_digit_str(n: u8) -> (r: &'static str)
    requires
        n < 16,
    ensures
        r@.len() == 1,
        r@[0] == hex_digit(n),
{
    proof {
        reveal_strlit("0");
        reveal_strlit("1");
        reveal_strlit("2");
        reveal_strlit("3");
        reveal_strlit("4");
        reveal_strlit("5");
        reveal_strlit("6");
        reveal_strlit("7");
        reveal_strlit("8");
        reveal_strlit("9");
        reveal_strlit("A");
        reveal_strlit("B");
        reveal_strlit("C");
        reveal_strlit("D");
        reveal_strlit("E");
        reveal_strlit("F");
    }
    match n {
        0 => "0",
        1 => "1",
        2 => "2",
        3 => "3",
        4 => "4",
        5 => "5",
        6 => "6",
        7 => "7",
        8 => "8",
        9 => "9",
        10 => "A",
        11 => "B",
        12 => "C",
        13 => "D",
        14 => "E",
        _ => "F",
    }
}

/// Renders a byte slice as an uppercase hexadecimal string.
pub fn to_upper_hex(bytes: &[u8]) -> (r: String)
    ensures
        r@ == hex_chars_of(bytes@),
        r@.len() == 2 * bytes@.len(),
{
    let mut out = String::new();
    let mut i: usize = 0;
    while i < bytes.len()
        invariant
            i <= bytes@.len(),
            out@ == hex_chars_of(bytes@).take(2 * i as int),
        decreases bytes@.len() - i,
    {
        let b = bytes[i];
        let hi = b >> 4;
        let lo = b & 0x0f;
        proof {
            assert(b >> 4 == b / 16 && b & 0x0f == b % 16 && b / 16 < 16 && b % 16 < 16)
                by (bit_vector);
        }
        out.append(hex_digit_str(hi));
        out.append(hex_digit_str(lo));
        proof {
            assert(out@ =~= hex_chars_of(bytes@).take(2 * (i + 1) as int));
        }
        i = i + 1;
    }
    proof {
        assert(out@ =~= hex_chars_of(bytes@));
    }
    out
}

} // verus!
