//! Decimal and octal renderings of integers, stated exactly as character
//! sequences.

use vstd::prelude::*;

verus! {

/// The character for one digit value below 16, lower case.
pub open spec fn digit_char(d: nat) -> char {
    if d < 10 {
        (48 + d) as char
    } else {
        (87 + d) as char
    }
}

/// The decimal digits of `n`, most significant first.
pub open spec fn dec_digits(n: nat) -> Seq<char>
    decreases n,
{
    if n < 10 {
        seq![digit_char(n)]
    } else {
        dec_digits(n / 10).push(digit_char(n % 10))
    }
}

/// The octal digits of `n`, most significant first.
pub open spec fn oct_digits(n: nat) -> Seq<char>
    decreases n,
{
    if n < 8 {
        seq![digit_char(n)]
    } else {
        oct_digits(n / 8).push(digit_char(n % 8))
    }
}

/// Appends one character.  Relies on `String::push`: the string grows by
/// exactly that character.
#[verifier::external_body]
pub fn push_char(s: &mut String, c: char)
    ensures
        final(s)@ == old(s)@.push(c),
{
    s.push(c);
}

/// Appends the decimal rendering of `n`.
pub fn append_dec_u64(s: &mut String, n: u64)
    ensures
        final(s)@ == old(s)@ + dec_digits(n as nat),
    decreases n,
{
    if n < 10 {
        push_char(s, (48 + (n as u8)) as char);
        assert(final(s)@ =~= old(s)@ + dec_digits(n as nat));
    } else {
        append_dec_u64(s, n / 10);
        push_char(s, (48 + ((n % 10) as u8)) as char);
        assert(final(s)@ =~= old(s)@ + dec_digits(n as nat));
    }
}

/// Appends the octal rendering of `n`.
pub fn append_oct_u32(s: &mut String, n: u32)
    ensures
        final(s)@ == old(s)@ + oct_digits(n as nat),
    decreases n,
{
    if n < 8 {
        push_char(s, (48 + (n as u8)) as char);
        assert(final(s)@ =~= old(s)@ + oct_digits(n as nat));
    } else {
        append_oct_u32(s, n / 8);
        push_char(s, (48 + ((n % 8) as u8)) as char);
        assert(final(s)@ =~= old(s)@ + oct_digits(n as nat));
    }
}

/// The rendering of a signed value: negative values are parenthesised,
/// as the reference `Show` convention prints them in argument position.
pub open spec fn show_i64(n: int) -> Seq<char> {
    if n >= 0 {
        dec_digits(n as nat)
    } else {
        seq!['(', '-'] + dec_digits((-n) as nat) + seq![')']
    }
}

/// Appends the rendering of a signed 8-bit value.
pub fn append_i8_show(s: &mut String, n: i8)
    ensures
        final(s)@ == old(s)@ + show_i64(n as int),
{
    if n >= 0 {
        append_dec_u64(s, n as u64);
    } else {
        push_char(s, '(');
        push_char(s, '-');
        let m: u64 = (-(n as i64)) as u64;
        append_dec_u64(s, m);
        push_char(s, ')');
        assert(final(s)@ =~= old(s)@ + show_i64(n as int));
    }
}

} // verus!
