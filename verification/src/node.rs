//! The node handle: the socket and network the caller connects to, and
//! the pure part of the synchronisation estimate.

use vstd::prelude::*;

verus! {

/// A node endpoint: where to connect and which network to expect.
pub struct Node {
    pub network_magic: u64,
    pub socket: String,
}

impl Node {
    /// Creates a new `Node` instance.
    pub fn new(socket: &str, network_magic: u64) -> (r: Node)
        ensures
            r.network_magic == network_magic,
            r.socket@ == socket@,
    {
        Node { socket: String::from_str(socket), network_magic }
    }
}

/// Whether a chain tip is close enough to now to count as fully synced.
pub fn sync_is_current(now_secs: i64, slot_secs: i64, tolerance_secs: i64) -> (r: bool)
    requires
        tolerance_secs >= 0,
        -0x2000000000000000 <= now_secs <= 0x2000000000000000,
        -0x2000000000000000 <= slot_secs <= 0x2000000000000000,
    ensures
        r == (now_secs - spec_capped_slot(now_secs as int, slot_secs as int) < tolerance_secs),
{
    let capped = if slot_secs < now_secs {
        slot_secs
    } else {
        now_secs
    };
    now_secs - capped < tolerance_secs
}

/// The slot time capped at now, so a tip ahead of the clock never
/// reports more than full synchronisation.
pub open spec fn spec_capped_slot(now_secs: int, slot_secs: int) -> int {
    if slot_secs < now_secs {
        slot_secs
    } else {
        now_secs
    }
}

/// The numerator and denominator of the synchronisation ratio: seconds
/// up to the capped tip over seconds of network history.  The division
/// itself stays with the caller.
pub fn sync_ratio_parts(now_secs: i64, slot_secs: i64, start_secs: i64) -> (r: (i64, i64))
    requires
        -0x2000000000000000 <= now_secs <= 0x2000000000000000,
        -0x2000000000000000 <= slot_secs <= 0x2000000000000000,
        -0x2000000000000000 <= start_secs <= 0x2000000000000000,
    ensures
        r.0 == spec_capped_slot(now_secs as int, slot_secs as int) - start_secs,
        r.1 == now_secs - start_secs,
{
    let capped = if slot_secs < now_secs {
        slot_secs
    } else {
        now_secs
    };
    (capped - start_secs, now_secs - start_secs)
}

} // verus!
