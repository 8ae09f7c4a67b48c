//! Rendering of decoded values in the reference ecosystem's `Show` form.
//!
//! Every renderable type states its exact output as a spec-level
//! character sequence; the executable methods are proved to produce it.
//! A value in argument position is parenthesised unless its type's
//! convention says otherwise (`SNothing` and nullary constructors stay
//! bare).

use vstd::prelude::*;
use crate::haskell_types::{
    Array, Bytes, Credential, CustomSet258, DatumHash, DeltaCoin, DisplayCoin, DisplayDatumHash,
    DisplayHash, DisplayScriptHash, EpochNo, KeyHash, Mismatch, Network, RewardAccountFielded,
    SafeHash, ScriptHash, SlotNo, StakeCredential, StrictMaybe, StrictSeq, VKey,
};
use crate::numstr::{dec_digits, show_i64, push_char, append_dec_u64, append_i8_show};
use crate::hexstr::{hex_of, append_hex};
use crate::haskells_show_string::{spec_show_string, haskell_show_string};

verus! {

/// A value with a `Show`-compatible rendering.  `show` is the rendering;
/// `show_p` the rendering in argument position.
pub trait HaskellDisplay {
    spec fn show(&self) -> Seq<char>;

    open spec fn show_p(&self) -> Seq<char> {
        seq!['('] + self.show() + seq![')']
    }

    /// Whether values of this type render as bare tokens that the
    /// optionality wrappers leave unparenthesised after `SJust`.
    open spec fn primitive_show() -> bool {
        false
    }

    fn to_haskell_str(&self) -> (r: String)
        ensures
            r@ == self.show(),
    ;

    fn to_haskell_str_p(&self) -> (r: String)
        ensures
            r@ == self.show_p(),
    ;

    fn is_primitive() -> (r: bool)
        ensures
            r == Self::primitive_show(),
    ;
}

/// The parenthesised form of a rendering.
pub open spec fn parens(s: Seq<char>) -> Seq<char> {
    seq!['('] + s + seq![')']
}

/// Wraps an already rendered value in parentheses.
pub fn wrap_parens(inner: String) -> (r: String)
    ensures
        r@ == parens(inner@),
{
    let mut s = String::new();
    push_char(&mut s, '(');
    s.append(inner.as_str());
    push_char(&mut s, ')');
    assert(s@ =~= parens(inner@));
    s
}

/// The renderings of `v[i..]`, separated by `sep`.
pub open spec fn join_from<T: HaskellDisplay>(v: Seq<T>, sep: Seq<char>, i: int) -> Seq<char>
    decreases v.len() - i,
{
    if i < 0 || i >= v.len() {
        Seq::<char>::empty()
    } else if i == v.len() - 1 {
        v[i].show()
    } else {
        v[i].show() + sep + join_from(v, sep, i + 1)
    }
}

/// The renderings of all elements, separated by `sep`.
pub open spec fn join_shows<T: HaskellDisplay>(v: Seq<T>, sep: Seq<char>) -> Seq<char> {
    join_from(v, sep, 0)
}

/// Appends the renderings of `v[start..]`, separated by `sep`.
pub fn append_join_from<T: HaskellDisplay>(s: &mut String, v: &Vec<T>, sep: &str, start: usize)
    ensures
        final(s)@ == old(s)@ + join_from(v@, sep@, start as int),
{
    let n = v.len();
    let mut i = start;
    if i >= n {
        assert(final(s)@ =~= old(s)@ + join_from(v@, sep@, start as int));
        return ;
    }
    while i < n
        invariant
            start <= i <= n,
            n == v@.len(),
            s@ + join_from(v@, sep@, i as int) == old(s)@ + join_from(v@, sep@, start as int),
        decreases n - i,
    {
        let e = v[i].to_haskell_str();
        s.append(e.as_str());
        if i + 1 < n {
            s.append(sep);
        }
        assert(s@ + join_from(v@, sep@, i + 1) =~= old(s)@ + join_from(v@, sep@, start as int));
        i = i + 1;
    }
    assert(final(s)@ =~= old(s)@ + join_from(v@, sep@, start as int));
}

/// The list form `fromList [..]`: elements joined by a bare comma, as
/// the reference convention prints sets and maps.
pub open spec fn show_fromlist<T: HaskellDisplay>(v: Seq<T>) -> Seq<char> {
    "fromList ["@ + join_shows(v, ","@) + "]"@
}

/// Appends the `fromList [..]` form.
pub fn append_fromlist<T: HaskellDisplay>(s: &mut String, v: &Vec<T>)
    ensures
        final(s)@ == old(s)@ + show_fromlist(v@),
{
    s.append("fromList [");
    append_join_from(s, v, ",", 0);
    s.append("]");
    assert(final(s)@ =~= old(s)@ + show_fromlist(v@));
}

/// The non-empty-list form `x :| [..]`; an empty sequence renders as
/// `fromList []`.  Tail elements are joined by a bare comma.
pub open spec fn show_nel<T: HaskellDisplay>(v: Seq<T>) -> Seq<char> {
    if v.len() == 0 {
        "fromList []"@
    } else {
        v[0].show() + " :| ["@ + join_from(v, ","@, 1) + "]"@
    }
}

/// Appends the non-empty-list form.
pub fn append_nel<T: HaskellDisplay>(s: &mut String, v: &Vec<T>)
    ensures
        final(s)@ == old(s)@ + show_nel(v@),
{
    if v.len() == 0 {
        s.append("fromList []");
    } else {
        let e = v[0].to_haskell_str();
        s.append(e.as_str());
        s.append(" :| [");
        append_join_from(s, v, ",", 1);
        s.append("]");
        assert(final(s)@ =~= old(s)@ + show_nel(v@));
    }
}

impl HaskellDisplay for u64 {
    open spec fn primitive_show() -> bool {
        true
    }

    open spec fn show(&self) -> Seq<char> {
        dec_digits(*self as nat)
    }

    fn to_haskell_str(&self) -> (r: String) {
        let mut s = String::new();
        append_dec_u64(&mut s, *self);
        assert(s@ =~= self.show());
        s
    }

    fn to_haskell_str_p(&self) -> (r: String) {
        wrap_parens(self.to_haskell_str())
    }

    fn is_primitive() -> (r: bool) {
        true
    }
}

impl HaskellDisplay for i8 {
    open spec fn primitive_show() -> bool {
        true
    }

    open spec fn show(&self) -> Seq<char> {
        show_i64(*self as int)
    }

    fn to_haskell_str(&self) -> (r: String) {
        let mut s = String::new();
        append_i8_show(&mut s, *self);
        assert(s@ =~= self.show());
        s
    }

    fn to_haskell_str_p(&self) -> (r: String) {
        wrap_parens(self.to_haskell_str())
    }

    fn is_primitive() -> (r: bool) {
        true
    }
}

impl HaskellDisplay for String {
    open spec fn primitive_show() -> bool {
        true
    }

    open spec fn show(&self) -> Seq<char> {
        spec_show_string(self@)
    }

    fn to_haskell_str(&self) -> (r: String) {
        haskell_show_string(self.as_str())
    }

    fn to_haskell_str_p(&self) -> (r: String) {
        wrap_parens(self.to_haskell_str())
    }

    fn is_primitive() -> (r: bool) {
        true
    }
}

impl<A: HaskellDisplay, B: HaskellDisplay> HaskellDisplay for (A, B) {
    open spec fn show(&self) -> Seq<char> {
        seq!['('] + self.0.show() + seq![','] + self.1.show() + seq![')']
    }

    fn to_haskell_str(&self) -> (r: String) {
        let mut s = String::new();
        push_char(&mut s, '(');
        let a = self.0.to_haskell_str();
        s.append(a.as_str());
        push_char(&mut s, ',');
        let b = self.1.to_haskell_str();
        s.append(b.as_str());
        push_char(&mut s, ')');
        assert(s@ =~= self.show());
        s
    }

    fn to_haskell_str_p(&self) -> (r: String) {
        wrap_parens(self.to_haskell_str())
    }

    fn is_primitive() -> (r: bool) {
        false
    }
}

impl<A: HaskellDisplay, B: HaskellDisplay, C: HaskellDisplay> HaskellDisplay for (A, B, C) {
    open spec fn show(&self) -> Seq<char> {
        seq!['('] + self.0.show() + seq![' '] + self.1.show() + seq![' '] + self.2.show()
            + seq![')']
    }

    fn to_haskell_str(&self) -> (r: String) {
        let mut s = String::new();
        push_char(&mut s, '(');
        let a = self.0.to_haskell_str();
        s.append(a.as_str());
        push_char(&mut s, ' ');
        let b = self.1.to_haskell_str();
        s.append(b.as_str());
        push_char(&mut s, ' ');
        let c = self.2.to_haskell_str();
        s.append(c.as_str());
        push_char(&mut s, ')');
        assert(s@ =~= self.show());
        s
    }

    fn to_haskell_str_p(&self) -> (r: String) {
        wrap_parens(self.to_haskell_str())
    }

    fn is_primitive() -> (r: bool) {
        false
    }
}

impl<T: HaskellDisplay> HaskellDisplay for Option<T> {
    open spec fn show(&self) -> Seq<char> {
        match self {
            Some(v) => if T::primitive_show() {
                "SJust "@ + v.show()
            } else {
                "SJust "@ + parens(v.show())
            },
            None => "SNothing"@,
        }
    }

    open spec fn show_p(&self) -> Seq<char> {
        match self {
            Some(_) => parens(self.show()),
            None => "SNothing"@,
        }
    }

    fn to_haskell_str(&self) -> (r: String) {
        match self {
            Some(v) => {
                let mut s = String::new();
                s.append("SJust ");
                if T::is_primitive() {
                    let inner = v.to_haskell_str();
                    s.append(inner.as_str());
                } else {
                    let inner = wrap_parens(v.to_haskell_str());
                    s.append(inner.as_str());
                }
                assert(s@ =~= self.show());
                s
            },
            None => {
                let mut s = String::new();
                s.append("SNothing");
                s
            },
        }
    }

    fn to_haskell_str_p(&self) -> (r: String) {
        match self {
            Some(_) => wrap_parens(self.to_haskell_str()),
            None => self.to_haskell_str(),
        }
    }

    fn is_primitive() -> (r: bool) {
        false
    }
}

impl<T: HaskellDisplay> HaskellDisplay for StrictMaybe<T> {
    open spec fn show(&self) -> Seq<char> {
        match self {
            StrictMaybe::Just(v) => if T::primitive_show() {
                "SJust "@ + v.show()
            } else {
                "SJust "@ + parens(v.show())
            },
            StrictMaybe::Nothing => "SNothing"@,
        }
    }

    open spec fn show_p(&self) -> Seq<char> {
        match self {
            StrictMaybe::Just(_) => parens(self.show()),
            StrictMaybe::Nothing => "SNothing"@,
        }
    }

    fn to_haskell_str(&self) -> (r: String) {
        match self {
            StrictMaybe::Just(v) => {
                let mut s = String::new();
                s.append("SJust ");
                if T::is_primitive() {
                    let inner = v.to_haskell_str();
                    s.append(inner.as_str());
                } else {
                    let inner = wrap_parens(v.to_haskell_str());
                    s.append(inner.as_str());
                }
                assert(s@ =~= self.show());
                s
            },
            StrictMaybe::Nothing => {
                let mut s = String::new();
                s.append("SNothing");
                s
            },
        }
    }

    fn to_haskell_str_p(&self) -> (r: String) {
        match self {
            StrictMaybe::Just(_) => wrap_parens(self.to_haskell_str()),
            StrictMaybe::Nothing => self.to_haskell_str(),
        }
    }

    fn is_primitive() -> (r: bool) {
        false
    }
}

impl HaskellDisplay for DisplayCoin {
    open spec fn show(&self) -> Seq<char> {
        "Coin "@ + dec_digits(self.0 as nat)
    }

    fn to_haskell_str(&self) -> (r: String) {
        let mut s = String::new();
        s.append("Coin ");
        append_dec_u64(&mut s, self.0);
        s
    }

    fn to_haskell_str_p(&self) -> (r: String) {
        wrap_parens(self.to_haskell_str())
    }

    fn is_primitive() -> (r: bool) {
        false
    }
}

impl HaskellDisplay for DeltaCoin {
    open spec fn show(&self) -> Seq<char> {
        "DeltaCoin "@ + dec_digits(self.0 as nat)
    }

    fn to_haskell_str(&self) -> (r: String) {
        let mut s = String::new();
        s.append("DeltaCoin ");
        append_dec_u64(&mut s, self.0);
        s
    }

    fn to_haskell_str_p(&self) -> (r: String) {
        wrap_parens(self.to_haskell_str())
    }

    fn is_primitive() -> (r: bool) {
        false
    }
}

impl HaskellDisplay for EpochNo {
    open spec fn show(&self) -> Seq<char> {
        "EpochNo "@ + dec_digits(self.0 as nat)
    }

    fn to_haskell_str(&self) -> (r: String) {
        let mut s = String::new();
        s.append("EpochNo ");
        append_dec_u64(&mut s, self.0);
        s
    }

    fn to_haskell_str_p(&self) -> (r: String) {
        wrap_parens(self.to_haskell_str())
    }

    fn is_primitive() -> (r: bool) {
        false
    }
}

impl HaskellDisplay for SlotNo {
    open spec fn show(&self) -> Seq<char> {
        "SlotNo "@ + dec_digits(self.0 as nat)
    }

    fn to_haskell_str(&self) -> (r: String) {
        let mut s = String::new();
        s.append("SlotNo ");
        append_dec_u64(&mut s, self.0);
        s
    }

    fn to_haskell_str_p(&self) -> (r: String) {
        wrap_parens(self.to_haskell_str())
    }

    fn is_primitive() -> (r: bool) {
        false
    }
}

impl HaskellDisplay for KeyHash {
    open spec fn show(&self) -> Seq<char> {
        "KeyHash {unKeyHash = \""@ + hex_of(self.0@) + "\"}"@
    }

    fn to_haskell_str(&self) -> (r: String) {
        let mut s = String::new();
        s.append("KeyHash {unKeyHash = \"");
        append_hex(&mut s, self.0.as_slice());
        s.append("\"}");
        s
    }

    fn to_haskell_str_p(&self) -> (r: String) {
        wrap_parens(self.to_haskell_str())
    }

    fn is_primitive() -> (r: bool) {
        false
    }
}

impl HaskellDisplay for VKey {
    open spec fn show(&self) -> Seq<char> {
        "VKey (VerKeyEd25519DSIGN \""@ + hex_of(self.0@) + "\")"@
    }

    fn to_haskell_str(&self) -> (r: String) {
        let mut s = String::new();
        s.append("VKey (VerKeyEd25519DSIGN \"");
        append_hex(&mut s, self.0.as_slice());
        s.append("\")");
        s
    }

    fn to_haskell_str_p(&self) -> (r: String) {
        wrap_parens(self.to_haskell_str())
    }

    fn is_primitive() -> (r: bool) {
        false
    }
}

impl HaskellDisplay for SafeHash {
    open spec fn show(&self) -> Seq<char> {
        "SafeHash \""@ + hex_of(self.0@) + "\""@
    }

    fn to_haskell_str(&self) -> (r: String) {
        let mut s = String::new();
        s.append("SafeHash \"");
        append_hex(&mut s, self.0.as_slice());
        s.append("\"");
        s
    }

    fn to_haskell_str_p(&self) -> (r: String) {
        wrap_parens(self.to_haskell_str())
    }

    fn is_primitive() -> (r: bool) {
        false
    }
}

impl HaskellDisplay for ScriptHash {
    open spec fn show(&self) -> Seq<char> {
        "ScriptHash \""@ + hex_of(self.0@) + "\""@
    }

    fn to_haskell_str(&self) -> (r: String) {
        let mut s = String::new();
        s.append("ScriptHash \"");
        append_hex(&mut s, self.0.as_slice());
        s.append("\"");
        s
    }

    fn to_haskell_str_p(&self) -> (r: String) {
        wrap_parens(self.to_haskell_str())
    }

    fn is_primitive() -> (r: bool) {
        false
    }
}

impl HaskellDisplay for DisplayScriptHash {
    open spec fn show(&self) -> Seq<char> {
        "ScriptHash \""@ + hex_of(self.0@) + "\""@
    }

    fn to_haskell_str(&self) -> (r: String) {
        let mut s = String::new();
        s.append("ScriptHash \"");
        append_hex(&mut s, self.0.as_slice());
        s.append("\"");
        s
    }

    fn to_haskell_str_p(&self) -> (r: String) {
        wrap_parens(self.to_haskell_str())
    }

    fn is_primitive() -> (r: bool) {
        false
    }
}

impl HaskellDisplay for DatumHash {
    open spec fn show(&self) -> Seq<char> {
        "DatumHash \""@ + hex_of(self.0@) + "\""@
    }

    fn to_haskell_str(&self) -> (r: String) {
        let mut s = String::new();
        s.append("DatumHash \"");
        append_hex(&mut s, self.0.as_slice());
        s.append("\"");
        s
    }

    fn to_haskell_str_p(&self) -> (r: String) {
        wrap_parens(self.to_haskell_str())
    }

    fn is_primitive() -> (r: bool) {
        false
    }
}

impl HaskellDisplay for DisplayDatumHash {
    open spec fn show(&self) -> Seq<char> {
        "DatumHash (SafeHash \""@ + hex_of(self.0@) + "\")"@
    }

    fn to_haskell_str(&self) -> (r: String) {
        let mut s = String::new();
        s.append("DatumHash (SafeHash \"");
        append_hex(&mut s, self.0.as_slice());
        s.append("\")");
        s
    }

    fn to_haskell_str_p(&self) -> (r: String) {
        wrap_parens(self.to_haskell_str())
    }

    fn is_primitive() -> (r: bool) {
        false
    }
}

impl HaskellDisplay for DisplayHash {
    open spec fn show(&self) -> Seq<char> {
        "(blake2b_256: SafeHash \""@ + hex_of(self.0@) + "\")"@
    }

    fn to_haskell_str(&self) -> (r: String) {
        let mut s = String::new();
        s.append("(blake2b_256: SafeHash \"");
        append_hex(&mut s, self.0.as_slice());
        s.append("\")");
        s
    }

    fn to_haskell_str_p(&self) -> (r: String) {
        wrap_parens(self.to_haskell_str())
    }

    fn is_primitive() -> (r: bool) {
        false
    }
}

impl HaskellDisplay for Bytes {
    open spec fn show(&self) -> Seq<char> {
        seq!['"'] + hex_of(self.0@) + seq!['"']
    }

    fn to_haskell_str(&self) -> (r: String) {
        let mut s = String::new();
        push_char(&mut s, '"');
        append_hex(&mut s, self.0.as_slice());
        push_char(&mut s, '"');
        assert(s@ =~= self.show());
        s
    }

    fn to_haskell_str_p(&self) -> (r: String) {
        wrap_parens(self.to_haskell_str())
    }

    fn is_primitive() -> (r: bool) {
        false
    }
}

impl Bytes {
    /// The auxiliary-data-hash label around these bytes.
    pub open spec fn show_aux_data_hash(&self) -> Seq<char> {
        "AuxiliaryDataHash {unsafeAuxiliaryDataHash = SafeHash \""@ + hex_of(self.0@) + "\"}"@
    }

    /// Renders the auxiliary-data-hash form.
    pub fn as_aux_data_hash(&self) -> (r: String)
        ensures
            r@ == self.show_aux_data_hash(),
    {
        let mut s = String::new();
        s.append("AuxiliaryDataHash {unsafeAuxiliaryDataHash = SafeHash \"");
        append_hex(&mut s, self.0.as_slice());
        s.append("\"}");
        s
    }
}

impl HaskellDisplay for Network {
    open spec fn show(&self) -> Seq<char> {
        match self {
            Network::Mainnet => "Mainnet"@,
            Network::Testnet => "Testnet"@,
        }
    }

    fn to_haskell_str(&self) -> (r: String) {
        let mut s = String::new();
        match self {
            Network::Mainnet => s.append("Mainnet"),
            Network::Testnet => s.append("Testnet"),
        }
        s
    }

    fn to_haskell_str_p(&self) -> (r: String) {
        wrap_parens(self.to_haskell_str())
    }

    fn is_primitive() -> (r: bool) {
        false
    }
}

impl HaskellDisplay for Credential {
    open spec fn show(&self) -> Seq<char> {
        match self {
            Credential::ScriptHashObj(h) => "ScriptHashObj (ScriptHash \""@ + hex_of(h@) + "\")"@,
            Credential::KeyHashObj(h) => "KeyHashObj (KeyHash {unKeyHash = \""@ + hex_of(h@)
                + "\"})"@,
        }
    }

    fn to_haskell_str(&self) -> (r: String) {
        let mut s = String::new();
        match self {
            Credential::ScriptHashObj(h) => {
                s.append("ScriptHashObj (ScriptHash \"");
                append_hex(&mut s, h.as_slice());
                s.append("\")");
            },
            Credential::KeyHashObj(h) => {
                s.append("KeyHashObj (KeyHash {unKeyHash = \"");
                append_hex(&mut s, h.as_slice());
                s.append("\"})");
            },
        }
        s
    }

    fn to_haskell_str_p(&self) -> (r: String) {
        wrap_parens(self.to_haskell_str())
    }

    fn is_primitive() -> (r: bool) {
        false
    }
}

impl HaskellDisplay for StakeCredential {
    open spec fn show(&self) -> Seq<char> {
        match self {
            StakeCredential::AddrKeyhash(h) => "KeyHashObj (KeyHash {unKeyHash = \""@ + hex_of(h@)
                + "\"})"@,
            StakeCredential::ScriptHash(h) => "ScriptHashObj (ScriptHash \""@ + hex_of(h@)
                + "\")"@,
        }
    }

    fn to_haskell_str(&self) -> (r: String) {
        let mut s = String::new();
        match self {
            StakeCredential::AddrKeyhash(h) => {
                s.append("KeyHashObj (KeyHash {unKeyHash = \"");
                append_hex(&mut s, h.as_slice());
                s.append("\"})");
            },
            StakeCredential::ScriptHash(h) => {
                s.append("ScriptHashObj (ScriptHash \"");
                append_hex(&mut s, h.as_slice());
                s.append("\")");
            },
        }
        s
    }

    fn to_haskell_str_p(&self) -> (r: String) {
        wrap_parens(self.to_haskell_str())
    }

    fn is_primitive() -> (r: bool) {
        false
    }
}

impl HaskellDisplay for RewardAccountFielded {
    open spec fn show(&self) -> Seq<char> {
        "RewardAccount {raNetwork = "@ + self.ra_network.show() + ", raCredential = "@
            + self.ra_credential.show() + "}"@
    }

    fn to_haskell_str(&self) -> (r: String) {
        let mut s = String::new();
        s.append("RewardAccount {raNetwork = ");
        let n = self.ra_network.to_haskell_str();
        s.append(n.as_str());
        s.append(", raCredential = ");
        let c = self.ra_credential.to_haskell_str();
        s.append(c.as_str());
        s.append("}");
        s
    }

    fn to_haskell_str_p(&self) -> (r: String) {
        wrap_parens(self.to_haskell_str())
    }

    fn is_primitive() -> (r: bool) {
        false
    }
}

impl<T: HaskellDisplay> HaskellDisplay for Mismatch<T> {
    open spec fn show(&self) -> Seq<char> {
        "Mismatch {mismatchSupplied = "@ + self.0.show() + ", mismatchExpected = "@ + self.1.show()
            + "}"@
    }

    fn to_haskell_str(&self) -> (r: String) {
        let mut s = String::new();
        s.append("Mismatch {mismatchSupplied = ");
        let a = self.0.to_haskell_str();
        s.append(a.as_str());
        s.append(", mismatchExpected = ");
        let b = self.1.to_haskell_str();
        s.append(b.as_str());
        s.append("}");
        s
    }

    fn to_haskell_str_p(&self) -> (r: String) {
        wrap_parens(self.to_haskell_str())
    }

    fn is_primitive() -> (r: bool) {
        false
    }
}

impl<T: HaskellDisplay> HaskellDisplay for CustomSet258<T> {
    open spec fn show(&self) -> Seq<char> {
        show_fromlist(self.0@)
    }

    fn to_haskell_str(&self) -> (r: String) {
        let mut s = String::new();
        append_fromlist(&mut s, &self.0);
        assert(s@ =~= self.show());
        s
    }

    fn to_haskell_str_p(&self) -> (r: String) {
        wrap_parens(self.to_haskell_str())
    }

    fn is_primitive() -> (r: bool) {
        false
    }
}

impl<T: HaskellDisplay> HaskellDisplay for Array<T> {
    open spec fn show(&self) -> Seq<char> {
        seq!['['] + join_shows(self.0@, ", "@) + seq![']']
    }

    fn to_haskell_str(&self) -> (r: String) {
        let mut s = String::new();
        push_char(&mut s, '[');
        append_join_from(&mut s, &self.0, ", ", 0);
        push_char(&mut s, ']');
        assert(s@ =~= self.show());
        s
    }

    fn to_haskell_str_p(&self) -> (r: String) {
        wrap_parens(self.to_haskell_str())
    }

    fn is_primitive() -> (r: bool) {
        false
    }
}

impl<T: HaskellDisplay> HaskellDisplay for StrictSeq<T> {
    open spec fn show(&self) -> Seq<char> {
        "StrictSeq {fromStrict = "@ + show_fromlist(self.0@) + "}"@
    }

    fn to_haskell_str(&self) -> (r: String) {
        let mut s = String::new();
        s.append("StrictSeq {fromStrict = ");
        append_fromlist(&mut s, &self.0);
        s.append("}");
        s
    }

    fn to_haskell_str_p(&self) -> (r: String) {
        wrap_parens(self.to_haskell_str())
    }

    fn is_primitive() -> (r: bool) {
        false
    }
}

} // verus!
