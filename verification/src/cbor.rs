//! Primitive readers for the compact binary wire encoding.
//!
//! Every compound value on the wire starts with a head byte: the three
//! high bits give the major type, the five low bits an argument that is
//! either inline (< 24) or carried by the following 1, 2, 4 or 8 bytes
//! big-endian.  All readers advance a cursor over a byte slice and are
//! specified against spec functions on the byte sequence itself.

use vstd::prelude::*;

verus! {

/// A decoded head: major type, argument (`None` for indefinite length),
/// and the cursor position just after the head.
pub struct Head {
    pub major: u8,
    pub arg: Option<u64>,
    pub next: usize,
}

/// What a well-formed head at `pos` looks like, or `None` when the bytes
/// end too early or use a reserved additional-information value.
pub open spec fn spec_head(b: Seq<u8>, pos: int) -> Option<(u8, Option<u64>, int)> {
    if !(0 <= pos < b.len()) {
        None
    } else {
        let initial = b[pos];
        let major = initial / 32;
        let info = initial % 32;
        if info < 24 {
            Some((major, Some(info as u64), pos + 1))
        } else if info == 24 {
            if pos + 1 < b.len() {
                Some((major, Some(b[pos + 1] as u64), pos + 2))
            } else {
                None
            }
        } else if info == 25 {
            if pos + 2 < b.len() {
                Some((major, Some(((b[pos + 1] as u64) * 0x100 + (b[pos + 2] as u64)) as u64), pos + 3))
            } else {
                None
            }
        } else if info == 26 {
            if pos + 4 < b.len() {
                Some(
                    (
                        major,
                        Some(
                            ((b[pos + 1] as u64) * 0x1000000 + (b[pos + 2] as u64) * 0x10000 + (b[
                                pos + 3
                            ] as u64) * 0x100 + (b[pos + 4] as u64)) as u64,
                        ),
                        pos + 5,
                    ),
                )
            } else {
                None
            }
        } else if info == 27 {
            if pos + 8 < b.len() {
                Some(
                    (
                        major,
                        Some(
                            ((b[pos + 1] as u64) * 0x100000000000000 + (b[pos + 2] as u64)
                                * 0x1000000000000 + (b[pos + 3] as u64) * 0x10000000000 + (b[pos
                                + 4] as u64) * 0x100000000 + (b[pos + 5] as u64) * 0x1000000 + (b[
                                pos + 6
                            ] as u64) * 0x10000 + (b[pos + 7] as u64) * 0x100 + (b[pos + 8] as u64)) as u64,
                        ),
                        pos + 9,
                    ),
                )
            } else {
                None
            }
        } else if info == 31 {
            Some((major, None, pos + 1))
        } else {
            None
        }
    }
}

/// Reads the head at `pos`; returns `None` exactly when `spec_head` does.
pub fn read_head(b: &[u8], pos: usize) -> (r: Option<Head>)
    ensures
        match r {
            Some(h) => spec_head(b@, pos as int) == Some((h.major, h.arg, h.next as int))
                && pos < h.next <= b@.len(),
            None => spec_head(b@, pos as int) is None,
        },
{
    if pos >= b.len() {
        return None;
    }
    let initial = b[pos];
    let major = initial / 32;
    let info = initial % 32;
    if info < 24 {
        Some(Head { major, arg: Some(info as u64), next: pos + 1 })
    } else if info == 24 {
        if b.len() - pos > 1 {
            Some(Head { major, arg: Some(b[pos + 1] as u64), next: pos + 2 })
        } else {
            None
        }
    } else if info == 25 {
        if b.len() - pos > 2 {
            let v = (b[pos + 1] as u64) * 0x100 + (b[pos + 2] as u64);
            Some(Head { major, arg: Some(v), next: pos + 3 })
        } else {
            None
        }
    } else if info == 26 {
        if b.len() - pos > 4 {
            let v = (b[pos + 1] as u64) * 0x1000000 + (b[pos + 2] as u64) * 0x10000 + (b[pos
                + 3] as u64) * 0x100 + (b[pos + 4] as u64);
            Some(Head { major, arg: Some(v), next: pos + 5 })
        } else {
            None
        }
    } else if info == 27 {
        if b.len() - pos > 8 {
            let v = (b[pos + 1] as u64) * 0x100000000000000 + (b[pos + 2] as u64)
                * 0x1000000000000 + (b[pos + 3] as u64) * 0x10000000000 + (b[pos + 4] as u64)
                * 0x100000000 + (b[pos + 5] as u64) * 0x1000000 + (b[pos + 6] as u64) * 0x10000 + (
            b[pos + 7] as u64) * 0x100 + (b[pos + 8] as u64);
            Some(Head { major, arg: Some(v), next: pos + 9 })
        } else {
            None
        }
    } else if info == 31 {
        Some(Head { major, arg: None, next: pos + 1 })
    } else {
        None
    }
}


/// The array head at `pos`: its length (`None` when indefinite) and the
/// position of the first element.
pub open spec fn spec_array(b: Seq<u8>, pos: int) -> Option<(Option<u64>, int)> {
    match spec_head(b, pos) {
        Some((major, arg, next)) => if major == 4 {
            Some((arg, next))
        } else {
            None
        },
        None => None,
    }
}

/// The map head at `pos`: its pair count (`None` when indefinite) and the
/// position of the first key.
pub open spec fn spec_map(b: Seq<u8>, pos: int) -> Option<(Option<u64>, int)> {
    match spec_head(b, pos) {
        Some((major, arg, next)) => if major == 5 {
            Some((arg, next))
        } else {
            None
        },
        None => None,
    }
}

/// The tag at `pos` and the position of the tagged value.
pub open spec fn spec_tag(b: Seq<u8>, pos: int) -> Option<(u64, int)> {
    match spec_head(b, pos) {
        Some((major, arg, next)) => match arg {
            Some(v) => if major == 6 {
                Some((v, next))
            } else {
                None
            },
            None => None,
        },
        None => None,
    }
}

/// The unsigned integer at `pos`, any argument width.
pub open spec fn spec_uint(b: Seq<u8>, pos: int) -> Option<(u64, int)> {
    match spec_head(b, pos) {
        Some((major, arg, next)) => match arg {
            Some(v) => if major == 0 {
                Some((v, next))
            } else {
                None
            },
            None => None,
        },
        None => None,
    }
}

/// The byte string at `pos`: its content and the position after it.
/// Indefinite-length strings are not accepted.
pub open spec fn spec_bytes(b: Seq<u8>, pos: int) -> Option<(Seq<u8>, int)> {
    match spec_head(b, pos) {
        Some((major, arg, next)) => match arg {
            Some(len) => if major == 2 && next + len <= b.len() {
                Some((b.subrange(next, next + len), next + len))
            } else {
                None
            },
            None => None,
        },
        None => None,
    }
}

/// The text string at `pos`: its raw bytes and the position after it.
pub open spec fn spec_text(b: Seq<u8>, pos: int) -> Option<(Seq<u8>, int)> {
    match spec_head(b, pos) {
        Some((major, arg, next)) => match arg {
            Some(len) => if major == 3 && next + len <= b.len() {
                Some((b.subrange(next, next + len), next + len))
            } else {
                None
            },
            None => None,
        },
        None => None,
    }
}

/// The boolean simple value at `pos`.
pub open spec fn spec_bool(b: Seq<u8>, pos: int) -> Option<(bool, int)> {
    if 0 <= pos < b.len() && b[pos] == 0xf4 {
        Some((false, pos + 1))
    } else if 0 <= pos < b.len() && b[pos] == 0xf5 {
        Some((true, pos + 1))
    } else {
        None
    }
}

/// Whether `pos` holds the simple value `null`.
pub open spec fn spec_is_null(b: Seq<u8>, pos: int) -> bool {
    0 <= pos < b.len() && b[pos] == 0xf6
}

/// Reads an array head.
pub fn read_array(b: &[u8], pos: usize) -> (r: Option<(Option<u64>, usize)>)
    ensures
        match r {
            Some((len, p)) => spec_array(b@, pos as int) == Some((len, p as int))
                && pos < p <= b@.len(),
            None => spec_array(b@, pos as int) is None,
        },
{
    match read_head(b, pos) {
        Some(h) => if h.major == 4 {
            Some((h.arg, h.next))
        } else {
            None
        },
        None => None,
    }
}

/// Reads a map head.
pub fn read_map(b: &[u8], pos: usize) -> (r: Option<(Option<u64>, usize)>)
    ensures
        match r {
            Some((len, p)) => spec_map(b@, pos as int) == Some((len, p as int))
                && pos < p <= b@.len(),
            None => spec_map(b@, pos as int) is None,
        },
{
    match read_head(b, pos) {
        Some(h) => if h.major == 5 {
            Some((h.arg, h.next))
        } else {
            None
        },
        None => None,
    }
}

/// Reads a tag.
pub fn read_tag(b: &[u8], pos: usize) -> (r: Option<(u64, usize)>)
    ensures
        match r {
            Some((t, p)) => spec_tag(b@, pos as int) == Some((t, p as int)) && pos < p
                <= b@.len(),
            None => spec_tag(b@, pos as int) is None,
        },
{
    match read_head(b, pos) {
        Some(h) => match h.arg {
            Some(v) => if h.major == 6 {
                Some((v, h.next))
            } else {
                None
            },
            None => None,
        },
        None => None,
    }
}

/// Reads an unsigned integer of any width.
pub fn read_uint(b: &[u8], pos: usize) -> (r: Option<(u64, usize)>)
    ensures
        match r {
            Some((v, p)) => spec_uint(b@, pos as int) == Some((v, p as int)) && pos < p
                <= b@.len(),
            None => spec_uint(b@, pos as int) is None,
        },
{
    match read_head(b, pos) {
        Some(h) => match h.arg {
            Some(v) => if h.major == 0 {
                Some((v, h.next))
            } else {
                None
            },
            None => None,
        },
        None => None,
    }
}

/// Reads a byte string, copying its content out.
pub fn read_bytes(b: &[u8], pos: usize) -> (r: Option<(Vec<u8>, usize)>)
    ensures
        match r {
            Some((v, p)) => spec_bytes(b@, pos as int) == Some((v@, p as int)) && pos < p
                <= b@.len(),
            None => spec_bytes(b@, pos as int) is None,
        },
{
    match read_head(b, pos) {
        Some(h) => match h.arg {
            Some(len) => if h.major == 2 && len <= (b.len() - h.next) as u64 {
                let end = h.next + (len as usize);
                let content = vstd::slice::slice_to_vec(
                    vstd::slice::slice_subrange(b, h.next, end),
                );
                Some((content, end))
            } else {
                None
            },
            None => None,
        },
        None => None,
    }
}

/// Reads a text string, handing back its raw (not yet validated) bytes.
pub fn read_text_raw(b: &[u8], pos: usize) -> (r: Option<(Vec<u8>, usize)>)
    ensures
        match r {
            Some((v, p)) => spec_text(b@, pos as int) == Some((v@, p as int)) && pos < p
                <= b@.len(),
            None => spec_text(b@, pos as int) is None,
        },
{
    match read_head(b, pos) {
        Some(h) => match h.arg {
            Some(len) => if h.major == 3 && len <= (b.len() - h.next) as u64 {
                let end = h.next + (len as usize);
                let content = vstd::slice::slice_to_vec(
                    vstd::slice::slice_subrange(b, h.next, end),
                );
                Some((content, end))
            } else {
                None
            },
            None => None,
        },
        None => None,
    }
}

/// Reads a boolean.
pub fn read_bool(b: &[u8], pos: usize) -> (r: Option<(bool, usize)>)
    ensures
        match r {
            Some((v, p)) => spec_bool(b@, pos as int) == Some((v, p as int)) && pos < p
                <= b@.len(),
            None => spec_bool(b@, pos as int) is None,
        },
{
    if pos < b.len() && b[pos] == 0xf4 {
        Some((false, pos + 1))
    } else if pos < b.len() && b[pos] == 0xf5 {
        Some((true, pos + 1))
    } else {
        None
    }
}

/// Whether `pos` holds the simple value `null`.
pub fn at_null(b: &[u8], pos: usize) -> (r: bool)
    ensures
        r == spec_is_null(b@, pos as int),
{
    pos < b.len() && b[pos] == 0xf6
}

/// Skips one complete item of any shape, returning the position after it.
/// The contract promises progress and staying inside the buffer; what was
/// skipped is of no further interest to callers.
pub fn skip_item(b: &[u8], pos: usize) -> (r: Option<usize>)
    ensures
        match r {
            Some(p) => pos < p <= b@.len(),
            None => true,
        },
    decreases b@.len() - pos,
{
    let h = match read_head(b, pos) {
        Some(h) => h,
        None => {
            return None;
        },
    };
    if h.major == 0 || h.major == 1 || h.major == 7 {
        Some(h.next)
    } else if h.major == 2 || h.major == 3 {
        match h.arg {
            Some(len) => if len <= (b.len() - h.next) as u64 {
                Some(h.next + (len as usize))
            } else {
                None
            },
            None => None,
        }
    } else if h.major == 6 {
        skip_item(b, h.next)
    } else {
        // array or map
        let items: u64 = match h.arg {
            Some(n) => if h.major == 5 {
                if n <= 0x7fffffffffffffff {
                    2 * n
                } else {
                    return None;
                }
            } else {
                n
            },
            None => {
                // indefinite: skip until the break byte
                let mut cur = h.next;
                loop
                    invariant
                        pos < cur <= b@.len(),
                        b@.len() == b.len(),
                    decreases b@.len() - cur,
                {
                    if cur >= b.len() {
                        return None;
                    }
                    if b[cur] == 0xff {
                        return Some(cur + 1);
                    }
                    match skip_item(b, cur) {
                        Some(p) => {
                            cur = p;
                        },
                        None => {
                            return None;
                        },
                    }
                }
            },
        };
        let mut cur = h.next;
        let mut i: u64 = 0;
        while i < items
            invariant
                pos < cur <= b@.len(),
                b@.len() == b.len(),
                i <= items,
            decreases items - i,
        {
            match skip_item(b, cur) {
                Some(p) => {
                    cur = p;
                },
                None => {
                    return None;
                },
            }
            i = i + 1;
        }
        Some(cur)
    }
}

/// The unsigned value at `pos` restricted to 8-bit argument widths.
pub open spec fn spec_u8_at(b: Seq<u8>, pos: int) -> Option<(u64, int)> {
    if !(0 <= pos < b.len()) {
        None
    } else {
        let x = b[pos];
        if x < 24 {
            Some((x as u64, pos + 1))
        } else if x == 24 && pos + 1 < b.len() {
            Some((b[pos + 1] as u64, pos + 2))
        } else {
            None
        }
    }
}

/// The unsigned value at `pos` restricted to 16-bit argument widths, as
/// a discriminant is read.
pub open spec fn spec_u16_at(b: Seq<u8>, pos: int) -> Option<(u64, int)> {
    if !(0 <= pos < b.len()) {
        None
    } else {
        let x = b[pos];
        if x < 24 {
            Some((x as u64, pos + 1))
        } else if x == 24 && pos + 1 < b.len() {
            Some((b[pos + 1] as u64, pos + 2))
        } else if x == 25 && pos + 2 < b.len() {
            Some((((b[pos + 1] as u64) * 0x100 + (b[pos + 2] as u64)) as u64, pos + 3))
        } else {
            None
        }
    }
}

/// The unsigned value at `pos` restricted to 32-bit argument widths.
pub open spec fn spec_u32_at(b: Seq<u8>, pos: int) -> Option<(u64, int)> {
    if !(0 <= pos < b.len()) {
        None
    } else {
        let x = b[pos];
        if x < 24 {
            Some((x as u64, pos + 1))
        } else if x == 24 && pos + 1 < b.len() {
            Some((b[pos + 1] as u64, pos + 2))
        } else if x == 25 && pos + 2 < b.len() {
            Some((((b[pos + 1] as u64) * 0x100 + (b[pos + 2] as u64)) as u64, pos + 3))
        } else if x == 26 && pos + 4 < b.len() {
            Some(
                (
                    ((b[pos + 1] as u64) * 0x1000000 + (b[pos + 2] as u64) * 0x10000 + (b[pos
                        + 3] as u64) * 0x100 + (b[pos + 4] as u64)) as u64,
                    pos + 5,
                ),
            )
        } else {
            None
        }
    }
}

/// The signed 8-bit value at `pos`: a small unsigned value, or a small
/// negative one written under major type one.
pub open spec fn spec_i8_at(b: Seq<u8>, pos: int) -> Option<(i8, int)> {
    if !(0 <= pos < b.len()) {
        None
    } else {
        let x = b[pos];
        if x < 24 {
            Some((x as i8, pos + 1))
        } else if x == 24 && pos + 1 < b.len() && b[pos + 1] <= 127 {
            Some((b[pos + 1] as i8, pos + 2))
        } else if 0x20 <= x < 0x38 {
            Some(((-1 - ((x - 0x20) as int)) as i8, pos + 1))
        } else if x == 0x38 && pos + 1 < b.len() && b[pos + 1] <= 127 {
            Some(((-1 - (b[pos + 1] as int)) as i8, pos + 2))
        } else {
            None
        }
    }
}

/// Reads an unsigned value of 8-bit argument width.
pub fn read_u8(b: &[u8], pos: usize) -> (r: Option<(u64, usize)>)
    ensures
        match r {
            Some((v, p)) => spec_u8_at(b@, pos as int) == Some((v, p as int)) && pos < p
                <= b@.len(),
            None => spec_u8_at(b@, pos as int) is None,
        },
{
    if pos >= b.len() {
        return None;
    }
    let x = b[pos];
    if x < 24 {
        Some((x as u64, pos + 1))
    } else if x == 24 && b.len() - pos > 1 {
        Some((b[pos + 1] as u64, pos + 2))
    } else {
        None
    }
}

/// Reads an unsigned value of 16-bit argument width.
pub fn read_u16(b: &[u8], pos: usize) -> (r: Option<(u64, usize)>)
    ensures
        match r {
            Some((v, p)) => spec_u16_at(b@, pos as int) == Some((v, p as int)) && pos < p
                <= b@.len() && v <= 0xffff,
            None => spec_u16_at(b@, pos as int) is None,
        },
{
    if pos >= b.len() {
        return None;
    }
    let x = b[pos];
    if x < 24 {
        Some((x as u64, pos + 1))
    } else if x == 24 && b.len() - pos > 1 {
        Some((b[pos + 1] as u64, pos + 2))
    } else if x == 25 && b.len() - pos > 2 {
        Some(((b[pos + 1] as u64) * 0x100 + (b[pos + 2] as u64), pos + 3))
    } else {
        None
    }
}

/// Reads an unsigned value of 32-bit argument width.
pub fn read_u32(b: &[u8], pos: usize) -> (r: Option<(u64, usize)>)
    ensures
        match r {
            Some((v, p)) => spec_u32_at(b@, pos as int) == Some((v, p as int)) && pos < p
                <= b@.len() && v <= 0xffffffff,
            None => spec_u32_at(b@, pos as int) is None,
        },
{
    if pos >= b.len() {
        return None;
    }
    let x = b[pos];
    if x < 24 {
        Some((x as u64, pos + 1))
    } else if x == 24 && b.len() - pos > 1 {
        Some((b[pos + 1] as u64, pos + 2))
    } else if x == 25 && b.len() - pos > 2 {
        Some(((b[pos + 1] as u64) * 0x100 + (b[pos + 2] as u64), pos + 3))
    } else if x == 26 && b.len() - pos > 4 {
        Some(
            (
                (b[pos + 1] as u64) * 0x1000000 + (b[pos + 2] as u64) * 0x10000 + (b[pos
                    + 3] as u64) * 0x100 + (b[pos + 4] as u64),
                pos + 5,
            ),
        )
    } else {
        None
    }
}

/// Reads a signed 8-bit value.
pub fn read_i8(b: &[u8], pos: usize) -> (r: Option<(i8, usize)>)
    ensures
        match r {
            Some((v, p)) => spec_i8_at(b@, pos as int) == Some((v, p as int)) && pos < p
                <= b@.len(),
            None => spec_i8_at(b@, pos as int) is None,
        },
{
    if pos >= b.len() {
        return None;
    }
    let x = b[pos];
    if x < 24 {
        Some((x as i8, pos + 1))
    } else if x == 24 && b.len() - pos > 1 && b[pos + 1] <= 127 {
        Some((b[pos + 1] as i8, pos + 2))
    } else if 0x20 <= x && x < 0x38 {
        let m: i8 = (x - 0x20) as i8;
        Some((-1 - m, pos + 1))
    } else if x == 0x38 && b.len() - pos > 1 && b[pos + 1] <= 127 {
        let m: i8 = b[pos + 1] as i8;
        Some((-1 - m, pos + 2))
    } else {
        None
    }
}

} // verus!
