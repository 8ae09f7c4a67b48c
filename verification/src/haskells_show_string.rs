//! The reference ecosystem's `Show` form of a text value.
//!
//! Printable ASCII passes through; quote and backslash are escaped; a
//! fixed table of named escapes covers the C0 control codes and DEL;
//! remaining characters get numeric escapes, octal for codes up to 127
//! and decimal above; and an empty escape `\&` is inserted wherever an
//! escape would otherwise run into the following character.

use vstd::prelude::*;
use crate::numstr::{dec_digits, oct_digits, push_char, append_dec_u64, append_oct_u32};

verus! {

/// The named abbreviation of a control character, empty when it has none.
pub open spec fn c0_abbrev(c: char) -> Seq<char> {
    let u = c as u32;
    if u == 0 {
        "NUL"@
    } else if u == 1 {
        "SOH"@
    } else if u == 2 {
        "STX"@
    } else if u == 3 {
        "ETX"@
    } else if u == 4 {
        "EOT"@
    } else if u == 5 {
        "ENQ"@
    } else if u == 6 {
        "ACK"@
    } else if u == 14 {
        "SO"@
    } else if u == 15 {
        "SI"@
    } else if u == 16 {
        "DLE"@
    } else if u == 17 {
        "DC1"@
    } else if u == 18 {
        "DC2"@
    } else if u == 19 {
        "DC3"@
    } else if u == 20 {
        "DC4"@
    } else if u == 21 {
        "NAK"@
    } else if u == 22 {
        "SYN"@
    } else if u == 23 {
        "ETB"@
    } else if u == 24 {
        "CAN"@
    } else if u == 25 {
        "EM"@
    } else if u == 26 {
        "SUB"@
    } else if u == 27 {
        "ESC"@
    } else if u == 28 {
        "FS"@
    } else if u == 29 {
        "GS"@
    } else if u == 30 {
        "RS"@
    } else if u == 31 {
        "US"@
    } else if u == 127 {
        "DEL"@
    } else {
        Seq::<char>::empty()
    }
}

/// Whether `c` is an octal digit character.
pub open spec fn is_oct_digit_char(c: char) -> bool {
    48 <= c as u32 <= 55
}

/// Whether `c` is a decimal digit character.
pub open spec fn is_dec_digit_char(c: char) -> bool {
    48 <= c as u32 <= 57
}

/// The escape of one character, given the character that follows it.
pub open spec fn esc_one(c: char, next: Option<char>) -> Seq<char> {
    let u = c as u32;
    if c == '\\' {
        "\\\\"@
    } else if c == '"' {
        "\\\""@
    } else if u == 7 {
        "\\a"@
    } else if u == 8 {
        "\\b"@
    } else if u == 12 {
        "\\f"@
    } else if u == 10 {
        "\\n"@
    } else if u == 13 {
        "\\r"@
    } else if u == 9 {
        "\\t"@
    } else if u == 11 {
        "\\v"@
    } else if 32 <= u <= 126 {
        seq![c]
    } else if u <= 6 || (14 <= u && u <= 31) || u == 127 {
        seq!['\\'] + c0_abbrev(c) + (if u == 14 && next == Some('H') {
            "\\&"@
        } else {
            Seq::<char>::empty()
        })
    } else if u <= 127 {
        seq!['\\'] + oct_digits(u as nat) + (match next {
            Some(d) => if is_oct_digit_char(d) {
                "\\&"@
            } else {
                Seq::<char>::empty()
            },
            None => Seq::<char>::empty(),
        })
    } else {
        seq!['\\'] + dec_digits(u as nat) + (match next {
            Some(d) => if is_dec_digit_char(d) {
                "\\&"@
            } else {
                Seq::<char>::empty()
            },
            None => Seq::<char>::empty(),
        })
    }
}

/// The escaped rendering of the characters of `s` from `i` on.
pub open spec fn show_from(s: Seq<char>, i: int) -> Seq<char>
    decreases s.len() - i,
{
    if i < 0 || i >= s.len() {
        Seq::<char>::empty()
    } else {
        esc_one(
            s[i],
            if i + 1 < s.len() {
                Some(s[i + 1])
            } else {
                None
            },
        ) + show_from(s, i + 1)
    }
}

/// The full `Show` form: the escaped characters between double quotes.
pub open spec fn spec_show_string(s: Seq<char>) -> Seq<char> {
    seq!['"'] + show_from(s, 0) + seq!['"']
}

/// Appends the named abbreviation of a control character.
fn append_abbrev(s: &mut String, c: char)
    requires
        c as u32 <= 6 || (14 <= c as u32 <= 31) || c as u32 == 127,
    ensures
        final(s)@ == old(s)@ + c0_abbrev(c),
{
    let u = c as u32;
    if u == 0 {
        s.append("NUL");
    } else if u == 1 {
        s.append("SOH");
    } else if u == 2 {
        s.append("STX");
    } else if u == 3 {
        s.append("ETX");
    } else if u == 4 {
        s.append("EOT");
    } else if u == 5 {
        s.append("ENQ");
    } else if u == 6 {
        s.append("ACK");
    } else if u == 14 {
        s.append("SO");
    } else if u == 15 {
        s.append("SI");
    } else if u == 16 {
        s.append("DLE");
    } else if u == 17 {
        s.append("DC1");
    } else if u == 18 {
        s.append("DC2");
    } else if u == 19 {
        s.append("DC3");
    } else if u == 20 {
        s.append("DC4");
    } else if u == 21 {
        s.append("NAK");
    } else if u == 22 {
        s.append("SYN");
    } else if u == 23 {
        s.append("ETB");
    } else if u == 24 {
        s.append("CAN");
    } else if u == 25 {
        s.append("EM");
    } else if u == 26 {
        s.append("SUB");
    } else if u == 27 {
        s.append("ESC");
    } else if u == 28 {
        s.append("FS");
    } else if u == 29 {
        s.append("GS");
    } else if u == 30 {
        s.append("RS");
    } else if u == 31 {
        s.append("US");
    } else {
        s.append("DEL");
    }
}

/// Appends the escape of one character.
fn append_esc(s: &mut String, c: char, next: Option<char>)
    ensures
        final(s)@ == old(s)@ + esc_one(c, next),
{
    let u = c as u32;
    if c == '\\' {
        s.append("\\\\");
    } else if c == '"' {
        s.append("\\\"");
    } else if u == 7 {
        s.append("\\a");
    } else if u == 8 {
        s.append("\\b");
    } else if u == 12 {
        s.append("\\f");
    } else if u == 10 {
        s.append("\\n");
    } else if u == 13 {
        s.append("\\r");
    } else if u == 9 {
        s.append("\\t");
    } else if u == 11 {
        s.append("\\v");
    } else if 32 <= u && u <= 126 {
        push_char(s, c);
        assert(final(s)@ =~= old(s)@ + esc_one(c, next));
    } else if u <= 6 || (14 <= u && u <= 31) || u == 127 {
        push_char(s, '\\');
        append_abbrev(s, c);
        let follow = u == 14 && match next {
            Some(d) => d == 'H',
            None => false,
        };
        if follow {
            s.append("\\&");
        }
        assert(final(s)@ =~= old(s)@ + esc_one(c, next));
    } else if u <= 127 {
        push_char(s, '\\');
        append_oct_u32(s, u);
        let follow = match next {
            Some(d) => 48 <= d as u32 && d as u32 <= 55,
            None => false,
        };
        if follow {
            s.append("\\&");
        }
        assert(final(s)@ =~= old(s)@ + esc_one(c, next));
    } else {
        push_char(s, '\\');
        append_dec_u64(s, u as u64);
        let follow = match next {
            Some(d) => 48 <= d as u32 && d as u32 <= 57,
            None => false,
        };
        if follow {
            s.append("\\&");
        }
        assert(final(s)@ =~= old(s)@ + esc_one(c, next));
    }
}

/// The `Show` form of a text value, exactly as specified by
/// `spec_show_string`.
pub fn haskell_show_string(s: &str) -> (r: String)
    ensures
        r@ == spec_show_string(s@),
{
    let n = s.unicode_len();
    let mut out = String::new();
    push_char(&mut out, '"');
    let mut i: usize = 0;
    while i < n
        invariant
            n == s@.len(),
            i <= n,
            out@ + show_from(s@, i as int) == seq!['"'] + show_from(s@, 0),
        decreases n - i,
    {
        let c = s.get_char(i);
        let next = if i + 1 < n {
            Some(s.get_char(i + 1))
        } else {
            None
        };
        append_esc(&mut out, c, next);
        assert(out@ + show_from(s@, i + 1) =~= seq!['"'] + show_from(s@, 0));
        i = i + 1;
    }
    push_char(&mut out, '"');
    assert(out@ =~= spec_show_string(s@));
    out
}

/// Relies on `String::from_utf8`: it succeeds exactly on valid UTF-8 and
/// returns the string those bytes spell.
#[verifier::external_body]
pub fn string_from_utf8(v: Vec<u8>) -> (r: Option<String>)
    ensures
        match r {
            Some(s) => vstd::utf8::valid_utf8(v@) && s@ == vstd::utf8::decode_utf8(v@)
                && vstd::utf8::encode_utf8(s@) == v@,
            None => !vstd::utf8::valid_utf8(v@),
        },
{
    match String::from_utf8(v) {
        Ok(s) => Some(s),
        Err(_) => None,
    }
}

/// A printable ASCII character other than quote and backslash passes
/// through unescaped, whatever follows it.
pub proof fn lemma_escape_printable(c: char, next: Option<char>)
    requires
        32 <= c as u32 <= 126,
        c != '"',
        c != '\\',
    ensures
        esc_one(c, next) == seq![c],
{
}

/// A named C0 control code (and DEL) escapes to backslash and its name,
/// with the empty escape added exactly when `SO` would run into an `H`.
pub proof fn lemma_escape_named(c: char, next: Option<char>)
    requires
        c as u32 <= 6 || (14 <= c as u32 <= 31) || c as u32 == 127,
    ensures
        esc_one(c, next) == seq!['\\'] + c0_abbrev(c) + (if c as u32 == 14 && next == Some('H') {
            "\\&"@
        } else {
            Seq::<char>::empty()
        }),
{
}

/// A character above 127 escapes to backslash and its decimal code, with
/// the empty escape added exactly when a digit follows.
pub proof fn lemma_escape_decimal(c: char, next: Option<char>)
    requires
        c as u32 > 127,
    ensures
        esc_one(c, next) == seq!['\\'] + dec_digits((c as u32) as nat) + (match next {
            Some(d) => if is_dec_digit_char(d) {
                "\\&"@
            } else {
                Seq::<char>::empty()
            },
            None => Seq::<char>::empty(),
        }),
{
}

} // verus!
