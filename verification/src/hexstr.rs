//! Hexadecimal renderings of byte strings, and the inverse reading, both
//! stated exactly.

use vstd::prelude::*;
use crate::numstr::{digit_char, push_char};

verus! {

/// The lower-case hexadecimal form of a byte string: two digits per byte.
pub open spec fn hex_of(b: Seq<u8>) -> Seq<char> {
    Seq::new(
        b.len() * 2,
        |i: int|
            if i % 2 == 0 {
                digit_char((b[i / 2] / 16) as nat)
            } else {
                digit_char((b[i / 2] % 16) as nat)
            },
    )
}

/// One hexadecimal digit character for a value below 16.
pub fn hex_digit(d: u8) -> (r: char)
    requires
        d < 16,
    ensures
        r == digit_char(d as nat),
{
    if d < 10 {
        (48 + d) as char
    } else {
        (87 + d) as char
    }
}

/// Appends the hexadecimal rendering of `b`.
pub fn append_hex(s: &mut String, b: &[u8])
    ensures
        final(s)@ == old(s)@ + hex_of(b@),
{
    let mut i: usize = 0;
    while i < b.len()
        invariant
            i <= b@.len(),
            s@ == old(s)@ + hex_of(b@).take(2 * i),
        decreases b@.len() - i,
    {
        let c1 = hex_digit(b[i] / 16);
        let c2 = hex_digit(b[i] % 16);
        push_char(s, c1);
        push_char(s, c2);
        assert(s@ =~= old(s)@ + hex_of(b@).take(2 * (i + 1)));
        i = i + 1;
    }
    assert(hex_of(b@).take(2 * (b@.len() as int)) =~= hex_of(b@));
}

/// The hexadecimal rendering as a `String`.
pub fn hex_string(b: &[u8]) -> (r: String)
    ensures
        r@ == hex_of(b@),
{
    let mut s = String::new();
    append_hex(&mut s, b);
    s
}

/// The value of one hexadecimal digit character, or `None` when the
/// character is no such digit.
pub open spec fn hex_val(c: char) -> Option<u8> {
    let u = c as u32;
    if 48 <= u <= 57 {
        Some((u - 48) as u8)
    } else if 97 <= u <= 102 {
        Some((u - 87) as u8)
    } else if 65 <= u <= 70 {
        Some((u - 55) as u8)
    } else {
        None
    }
}

/// Whether every character is a hexadecimal digit.
pub open spec fn all_hex(s: Seq<char>) -> bool {
    forall|i: int| 0 <= i < s.len() ==> #[trigger] hex_val(s[i]) is Some
}

/// The bytes written by an even-length string of hexadecimal digits.
pub open spec fn hex_bytes(s: Seq<char>) -> Seq<u8> {
    Seq::new(
        s.len() / 2,
        |i: int| (hex_val(s[2 * i]).unwrap() * 16 + hex_val(s[2 * i + 1]).unwrap()) as u8,
    )
}

/// Reads a hexadecimal string into bytes; `None` exactly when the length
/// is odd or some character is no digit.
pub fn decode_hex(s: &str) -> (r: Option<Vec<u8>>)
    ensures
        match r {
            Some(v) => s@.len() % 2 == 0 && all_hex(s@) && v@ == hex_bytes(s@),
            None => s@.len() % 2 != 0 || !all_hex(s@),
        },
{
    let n = s.unicode_len();
    if n % 2 != 0 {
        return None;
    }
    let pairs = n / 2;
    let mut out: Vec<u8> = Vec::new();
    let mut j: usize = 0;
    while j < pairs
        invariant
            n == s@.len(),
            n % 2 == 0,
            pairs == n / 2,
            j <= pairs,
            forall|k: int| 0 <= k < 2 * j ==> #[trigger] hex_val(s@[k]) is Some,
            out@ == hex_bytes(s@.take(2 * j)),
        decreases pairs - j,
    {
        assert(2 * j + 1 < n);
        let c1 = s.get_char(2 * j);
        let c2 = s.get_char(2 * j + 1);
        let v1 = match hex_char_val(c1) {
            Some(v) => v,
            None => {
                return None;
            },
        };
        let v2 = match hex_char_val(c2) {
            Some(v) => v,
            None => {
                return None;
            },
        };
        out.push(v1 * 16 + v2);
        assert(out@ =~= hex_bytes(s@.take(2 * (j + 1))));
        j = j + 1;
    }
    assert(s@.take(n as int) =~= s@);
    Some(out)
}

/// The value of one hexadecimal digit character.
pub fn hex_char_val(c: char) -> (r: Option<u8>)
    ensures
        r == hex_val(c),
{
    let u = c as u32;
    if 48 <= u && u <= 57 {
        Some((u - 48) as u8)
    } else if 97 <= u && u <= 102 {
        Some((u - 87) as u8)
    } else if 65 <= u && u <= 70 {
        Some((u - 55) as u8)
    } else {
        None
    }
}

} // verus!
