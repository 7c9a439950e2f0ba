//! Hex decoding of header values (signature, public key).
//!
//! A hex string is well formed when it has even length and every character is
//! a hex digit; decoding then yields one byte per digit pair.

use vstd::prelude::*;

verus! {

/// True when `c` is an ASCII hex digit (`0-9`, `a-f`, `A-F`).
pub open spec fn is_hex_digit(c: char) -> bool {
    (48 <= c as u32 && c as u32 <= 57) || (97 <= c as u32 && c as u32 <= 102) || (65 <= c as u32
        && c as u32 <= 70)
}

/// Numeric value of a hex digit (meaningful only when `is_hex_digit(c)`).
pub open spec fn hex_digit_val(c: char) -> u8 {
    if 48 <= c as u32 && c as u32 <= 57 {
        (c as u32 - 48) as u8
    } else if 97 <= c as u32 && c as u32 <= 102 {
        (c as u32 - 87) as u8
    } else {
        (c as u32 - 55) as u8
    }
}

/// A decodable hex string: even length, hex digits throughout.
pub open spec fn hex_well_formed(s: Seq<char>) -> bool {
    s.len() % 2 == 0 && (forall|i: int| 0 <= i < s.len() ==> is_hex_digit(s[i]))
}

/// The bytes a well-formed hex string denotes: one byte per digit pair.
pub open spec fn hex_bytes(s: Seq<char>) -> Seq<u8> {
    Seq::new(s.len() / 2, |i: int| (hex_digit_val(s[2 * i]) * 16 + hex_digit_val(s[2 * i + 1])) as u8)
}

/// Value of one hex digit character, or `None` if it is not one.
fn hex_digit_value(c: char) -> (r: Option<u8>)
    ensures
        match r {
            Some(v) => is_hex_digit(c) && v == hex_digit_val(c),
            None => !is_hex_digit(c),
        },
{
    let u = c as u32;
    if 48 <= u && u <= 57 {
        Some((u - 48) as u8)
    } else if 97 <= u && u <= 102 {
        Some((u - 87) as u8)
    } else if 65 <= u && u <= 70 {
        Some((u - 55) as u8)
    } else {
        None
    }
}

/// Decode a hex string to bytes; `None` exactly on malformed input
/// (odd length or a non-hex character).
pub fn hex_decode(s: &str) -> (r: Option<Vec<u8>>)
    ensures
        match r {
            Some(bytes) => hex_well_formed(s@) && bytes@ == hex_bytes(s@),
            None => !hex_well_formed(s@),
        },
{
    let n = s.unicode_len();
    if n % 2 != 0 {
        return None;
    }
    let mut out: Vec<u8> = Vec::new();
    let mut i: usize = 0;
    while i < n
        invariant
            n == s@.len(),
            i % 2 == 0,
            n % 2 == 0,
            i <= n,
            forall|j: int| 0 <= j < i ==> is_hex_digit(s@[j]),
            out@.len() == i / 2,
            forall|k: int|
                0 <= k < out@.len() ==> out@[k] == (hex_digit_val(s@[2 * k]) * 16 + hex_digit_val(
                    s@[2 * k + 1],
                )) as u8,
        decreases n - i,
    {
        let c_hi = s.get_char(i);
        let c_lo = s.get_char(i + 1);
        let hi = match hex_digit_value(c_hi) {
            Some(v) => v,
            None => {
                return None;
            },
        };
        let lo = match hex_digit_value(c_lo) {
            Some(v) => v,
            None => {
                return None;
            },
        };
        out.push(hi * 16 + lo);
        i = i + 2;
    }
    proof {
        assert(out@ =~= hex_bytes(s@));
    }
    Some(out)
}

} // verus!
