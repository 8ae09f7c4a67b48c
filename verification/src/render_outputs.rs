//! Rendering of addresses, values, scripts, and transaction outputs.
//!
//! Time locks nest through plain recursion, so their renderings are
//! stated by mutually recursive spec functions.  Shapes the wire decoder
//! does not reconstruct in full render as clearly marked placeholders
//! rather than failing.

use vstd::prelude::*;
use crate::haskell_types::{
    Network, RewardAccountFielded, SerializableTxIn, SerializableTxOut, Utxo, DisplayAddress, AddressBytes,
    DisplayPolicyId, DisplayAssetName, AssetBundle, MultiAsset, MaryValue, DisplayValue,
    TimelockRaw, Timelock, EraScript, DisplayDatum, DatumEnum, BabbageTxOut, CollectError,
    StrictMaybe, StakeCredential,
};
use crate::haskell_display::{HaskellDisplay, parens, wrap_parens, show_fromlist, append_fromlist, show_nel, append_nel};
use crate::numstr::{dec_digits, push_char, append_dec_u64};
use crate::hexstr::{hex_of, append_hex};

verus! {

broadcast use vstd::std_specs::vec::axiom_vec_index_decreases;

impl HaskellDisplay for SerializableTxIn {
    open spec fn show(&self) -> Seq<char> {
        self.0.show()
    }

    fn to_haskell_str(&self) -> (r: String) {
        self.0.to_haskell_str()
    }

    fn to_haskell_str_p(&self) -> (r: String) {
        wrap_parens(self.to_haskell_str())
    }

    fn is_primitive() -> (r: bool) {
        false
    }
}

impl HaskellDisplay for SerializableTxOut {
    open spec fn show(&self) -> Seq<char> {
        "TxOut { ... }"@
    }

    fn to_haskell_str(&self) -> (r: String) {
        let mut s = String::new();
        s.append("TxOut { ... }");
        s
    }

    fn to_haskell_str_p(&self) -> (r: String) {
        wrap_parens(self.to_haskell_str())
    }

    fn is_primitive() -> (r: bool) {
        false
    }
}

impl HaskellDisplay for Utxo {
    open spec fn show(&self) -> Seq<char> {
        "UTxO "@ + parens(show_nel(self.0@))
    }

    fn to_haskell_str(&self) -> (r: String) {
        let mut s = String::new();
        s.append("UTxO ");
        push_char(&mut s, '(');
        append_nel(&mut s, &self.0);
        push_char(&mut s, ')');
        assert(s@ =~= self.show());
        s
    }

    fn to_haskell_str_p(&self) -> (r: String) {
        wrap_parens(self.to_haskell_str())
    }

    fn is_primitive() -> (r: bool) {
        false
    }
}

impl Utxo {
    /// The legacy record form embedded by the UTxO failure rendering.
    pub open spec fn show_record(&self) -> Seq<char> {
        "Utxo("@ + show_nel(self.0@) + ")"@
    }

    /// Renders the legacy record form.
    pub fn to_record_str(&self) -> (r: String)
        ensures
            r@ == self.show_record(),
    {
        let mut s = String::new();
        s.append("Utxo(");
        append_nel(&mut s, &self.0);
        s.append(")");
        s
    }
}

impl HaskellDisplay for DisplayPolicyId {
    open spec fn show(&self) -> Seq<char> {
        "PolicyID {policyID = ScriptHash \""@ + hex_of(self.0@) + "\"}"@
    }

    fn to_haskell_str(&self) -> (r: String) {
        let mut s = String::new();
        s.append("PolicyID {policyID = ScriptHash \"");
        append_hex(&mut s, self.0.as_slice());
        s.append("\"}");
        s
    }

    fn to_haskell_str_p(&self) -> (r: String) {
        wrap_parens(self.to_haskell_str())
    }

    fn is_primitive() -> (r: bool) {
        false
    }
}

impl HaskellDisplay for DisplayAssetName {
    open spec fn show(&self) -> Seq<char> {
        seq!['"'] + hex_of(self.0@) + seq!['"']
    }

    fn to_haskell_str(&self) -> (r: String) {
        let mut s = String::new();
        push_char(&mut s, '"');
        append_hex(&mut s, self.0.as_slice());
        push_char(&mut s, '"');
        assert(s@ =~= self.show());
        s
    }

    fn to_haskell_str_p(&self) -> (r: String) {
        wrap_parens(self.to_haskell_str())
    }

    fn is_primitive() -> (r: bool) {
        false
    }
}

impl HaskellDisplay for AssetBundle {
    open spec fn show(&self) -> Seq<char> {
        show_fromlist(self.0@)
    }

    fn to_haskell_str(&self) -> (r: String) {
        let mut s = String::new();
        append_fromlist(&mut s, &self.0);
        assert(s@ =~= self.show());
        s
    }

    fn to_haskell_str_p(&self) -> (r: String) {
        wrap_parens(self.to_haskell_str())
    }

    fn is_primitive() -> (r: bool) {
        false
    }
}

impl HaskellDisplay for MultiAsset {
    open spec fn show(&self) -> Seq<char> {
        "MultiAsset ("@ + show_fromlist(self.0@) + ")"@
    }

    fn to_haskell_str(&self) -> (r: String) {
        let mut s = String::new();
        s.append("MultiAsset (");
        append_fromlist(&mut s, &self.0);
        s.append(")");
        s
    }

    fn to_haskell_str_p(&self) -> (r: String) {
        wrap_parens(self.to_haskell_str())
    }

    fn is_primitive() -> (r: bool) {
        false
    }
}

impl HaskellDisplay for MaryValue {
    open spec fn show(&self) -> Seq<char> {
        "MaryValue (Coin "@ + dec_digits(self.0.0 as nat) + ")"@
    }

    fn to_haskell_str(&self) -> (r: String) {
        let mut s = String::new();
        s.append("MaryValue (Coin ");
        append_dec_u64(&mut s, self.0.0);
        s.append(")");
        s
    }

    fn to_haskell_str_p(&self) -> (r: String) {
        wrap_parens(self.to_haskell_str())
    }

    fn is_primitive() -> (r: bool) {
        false
    }
}

impl HaskellDisplay for DisplayValue {
    open spec fn show(&self) -> Seq<char> {
        "Value { ... }"@
    }

    fn to_haskell_str(&self) -> (r: String) {
        let mut s = String::new();
        s.append("Value { ... }");
        s
    }

    fn to_haskell_str_p(&self) -> (r: String) {
        wrap_parens(self.to_haskell_str())
    }

    fn is_primitive() -> (r: bool) {
        false
    }
}

impl HaskellDisplay for CollectError {
    open spec fn show(&self) -> Seq<char> {
        "CollectError { ... }"@
    }

    fn to_haskell_str(&self) -> (r: String) {
        let mut s = String::new();
        s.append("CollectError { ... }");
        s
    }

    fn to_haskell_str_p(&self) -> (r: String) {
        wrap_parens(self.to_haskell_str())
    }

    fn is_primitive() -> (r: bool) {
        false
    }
}

/// The rendering of a time lock: its shape and the hash of its encoding.
pub open spec fn show_timelock(t: Timelock) -> Seq<char>
    decreases t, 0int,
{
    "TimelockConstr "@ + show_timelock_raw(t.raw) + " (blake2b_256: SafeHash \""@ + hex_of(
        t.memo.0@,
    ) + "\")"@
}

/// The rendering of a time lock's shape.
pub open spec fn show_timelock_raw(r: TimelockRaw) -> Seq<char>
    decreases r, 3int,
{
    match r {
        TimelockRaw::Signature(kh) => "Signature ("@ + kh.show() + ")"@,
        TimelockRaw::AllOf(v) => "AllOf ("@ + show_timelocks_nel(v) + ")"@,
        TimelockRaw::AnyOf(v) => "AnyOf ("@ + show_timelocks_nel(v) + ")"@,
        TimelockRaw::MOfN(m, v) => "MOfN "@ + dec_digits(m as nat)
            + " (StrictSeq {fromStrict = fromList ["@ + show_timelocks_join(v, ","@, 0) + "]})"@,
        TimelockRaw::TimeStart(s) => "TimeStart ("@ + s.show() + ")"@,
        TimelockRaw::TimeExpire(s) => "TimeExpire ("@ + s.show() + ")"@,
    }
}

/// The non-empty-list rendering of nested time locks.
pub open spec fn show_timelocks_nel(v: Vec<Timelock>) -> Seq<char>
    decreases v, 2int,
{
    if v@.len() == 0 {
        "fromList []"@
    } else {
        show_timelock(v[0]) + " :| ["@ + show_timelocks_join(v, ","@, 1) + "]"@
    }
}

/// The renderings of `v[i..]`, separated by `sep`.
pub open spec fn show_timelocks_join(v: Vec<Timelock>, sep: Seq<char>, i: int) -> Seq<char>
    decreases v, 1int, v@.len() - i,
{
    if i < 0 || i >= v@.len() {
        Seq::<char>::empty()
    } else if i == v@.len() - 1 {
        show_timelock(v[i])
    } else {
        show_timelock(v[i]) + sep + show_timelocks_join(v, sep, i + 1)
    }
}

/// Renders one time lock.
pub fn render_timelock(t: &Timelock) -> (r: String)
    ensures
        r@ == show_timelock(*t),
    decreases *t, 0int,
{
    let mut s = String::new();
    s.append("TimelockConstr ");
    let raw = render_timelock_raw(&t.raw);
    s.append(raw.as_str());
    s.append(" (blake2b_256: SafeHash \"");
    append_hex(&mut s, t.memo.0.as_slice());
    s.append("\")");
    s
}

/// Renders one time lock shape.
pub fn render_timelock_raw(r: &TimelockRaw) -> (out: String)
    ensures
        out@ == show_timelock_raw(*r),
    decreases *r, 3int,
{
    let mut s = String::new();
    match r {
        TimelockRaw::Signature(kh) => {
            s.append("Signature (");
            let v = kh.to_haskell_str();
            s.append(v.as_str());
            s.append(")");
        },
        TimelockRaw::AllOf(v) => {
            s.append("AllOf (");
            append_timelocks_nel(&mut s, v);
            s.append(")");
        },
        TimelockRaw::AnyOf(v) => {
            s.append("AnyOf (");
            append_timelocks_nel(&mut s, v);
            s.append(")");
        },
        TimelockRaw::MOfN(m, v) => {
            s.append("MOfN ");
            append_dec_u64(&mut s, *m);
            s.append(" (StrictSeq {fromStrict = fromList [");
            append_timelocks_join(&mut s, v, ",", 0);
            s.append("]})");
        },
        TimelockRaw::TimeStart(sl) => {
            s.append("TimeStart (");
            let v = sl.to_haskell_str();
            s.append(v.as_str());
            s.append(")");
        },
        TimelockRaw::TimeExpire(sl) => {
            s.append("TimeExpire (");
            let v = sl.to_haskell_str();
            s.append(v.as_str());
            s.append(")");
        },
    }
    s
}

/// Appends the non-empty-list rendering of nested time locks.
pub fn append_timelocks_nel(s: &mut String, v: &Vec<Timelock>)
    ensures
        final(s)@ == old(s)@ + show_timelocks_nel(*v),
    decreases *v, 2int,
{
    if v.len() == 0 {
        s.append("fromList []");
    } else {
        let e = render_timelock(&v[0]);
        s.append(e.as_str());
        s.append(" :| [");
        append_timelocks_join(s, v, ",", 1);
        s.append("]");
        assert(final(s)@ =~= old(s)@ + show_timelocks_nel(*v));
    }
}

/// Appends the renderings of `v[i..]`, separated by `sep`.
pub fn append_timelocks_join(s: &mut String, v: &Vec<Timelock>, sep: &str, i: usize)
    ensures
        final(s)@ == old(s)@ + show_timelocks_join(*v, sep@, i as int),
    decreases *v, 1int, v@.len() - i,
{
    if i >= v.len() {
        assert(final(s)@ =~= old(s)@ + show_timelocks_join(*v, sep@, i as int));
    } else if i == v.len() - 1 {
        let e = render_timelock(&v[i]);
        s.append(e.as_str());
        assert(final(s)@ =~= old(s)@ + show_timelocks_join(*v, sep@, i as int));
    } else {
        let e = render_timelock(&v[i]);
        s.append(e.as_str());
        s.append(sep);
        append_timelocks_join(s, v, sep, i + 1);
        assert(final(s)@ =~= old(s)@ + show_timelocks_join(*v, sep@, i as int));
    }
}

impl HaskellDisplay for Timelock {
    open spec fn show(&self) -> Seq<char> {
        show_timelock(*self)
    }

    fn to_haskell_str(&self) -> (r: String) {
        render_timelock(self)
    }

    fn to_haskell_str_p(&self) -> (r: String) {
        wrap_parens(self.to_haskell_str())
    }

    fn is_primitive() -> (r: bool) {
        false
    }
}

impl HaskellDisplay for EraScript {
    open spec fn show(&self) -> Seq<char> {
        match self {
            EraScript::Native(t) => "TimelockScript "@ + show_timelock(*t),
            EraScript::PlutusV1(h) => "PlutusScript PlutusV1 "@ + h.show(),
            EraScript::PlutusV2(h) => "PlutusScript PlutusV2 "@ + h.show(),
            EraScript::PlutusV3(h) => "PlutusScript PlutusV3 "@ + h.show(),
        }
    }

    fn to_haskell_str(&self) -> (r: String) {
        let mut s = String::new();
        match self {
            EraScript::Native(t) => {
                s.append("TimelockScript ");
                let v = render_timelock(t);
                s.append(v.as_str());
            },
            EraScript::PlutusV1(h) => {
                s.append("PlutusScript PlutusV1 ");
                let v = h.to_haskell_str();
                s.append(v.as_str());
            },
            EraScript::PlutusV2(h) => {
                s.append("PlutusScript PlutusV2 ");
                let v = h.to_haskell_str();
                s.append(v.as_str());
            },
            EraScript::PlutusV3(h) => {
                s.append("PlutusScript PlutusV3 ");
                let v = h.to_haskell_str();
                s.append(v.as_str());
            },
        }
        s
    }

    fn to_haskell_str_p(&self) -> (r: String) {
        wrap_parens(self.to_haskell_str())
    }

    fn is_primitive() -> (r: bool) {
        false
    }
}

impl HaskellDisplay for DisplayDatum {
    open spec fn show(&self) -> Seq<char> {
        "Datum { ... }"@
    }

    fn to_haskell_str(&self) -> (r: String) {
        let mut s = String::new();
        s.append("Datum { ... }");
        s
    }

    fn to_haskell_str_p(&self) -> (r: String) {
        wrap_parens(self.to_haskell_str())
    }

    fn is_primitive() -> (r: bool) {
        false
    }
}

impl HaskellDisplay for DatumEnum {
    open spec fn show(&self) -> Seq<char> {
        match self {
            DatumEnum::DatumHash(h) => h.show(),
            DatumEnum::Datum(d) => d.show(),
            DatumEnum::NoDatum => "NoDatum"@,
        }
    }

    fn to_haskell_str(&self) -> (r: String) {
        match self {
            DatumEnum::DatumHash(h) => h.to_haskell_str(),
            DatumEnum::Datum(d) => d.to_haskell_str(),
            DatumEnum::NoDatum => {
                let mut s = String::new();
                s.append("NoDatum");
                s
            },
        }
    }

    fn to_haskell_str_p(&self) -> (r: String) {
        wrap_parens(self.to_haskell_str())
    }

    fn is_primitive() -> (r: bool) {
        false
    }
}

/// The unparenthesised optional form used inside output tuples.
pub open spec fn show_in_map<T: HaskellDisplay>(m: StrictMaybe<T>) -> Seq<char> {
    match m {
        StrictMaybe::Just(v) => "SJust "@ + v.show(),
        StrictMaybe::Nothing => "SNothing"@,
    }
}

/// Appends the unparenthesised optional form.
pub fn append_in_map<T: HaskellDisplay>(s: &mut String, m: &StrictMaybe<T>)
    ensures
        final(s)@ == old(s)@ + show_in_map::<T>(*m),
{
    match m {
        StrictMaybe::Just(v) => {
            s.append("SJust ");
            let inner = v.to_haskell_str();
            s.append(inner.as_str());
        },
        StrictMaybe::Nothing => {
            s.append("SNothing");
        },
    }
}

/// The network of a shelley address header nibble.
pub open spec fn show_addr_network(net: u8) -> Seq<char> {
    if net == 1 {
        "Mainnet"@
    } else if net == 0 {
        "Testnet"@
    } else {
        "Other "@ + dec_digits(net as nat)
    }
}

/// The credential label of a payment or delegation hash.
pub open spec fn show_addr_credential(is_script: bool, h: Seq<u8>) -> Seq<char> {
    if is_script {
        "ScriptHashObj (ScriptHash \""@ + hex_of(h) + "\")"@
    } else {
        "KeyHashObj (KeyHash {unKeyHash = \""@ + hex_of(h) + "\"})"@
    }
}

/// The rendering of a raw address: shelley addresses are rebuilt from
/// their header and hashes; other shapes render as explicit placeholders.
pub open spec fn show_address(b: Seq<u8>) -> Seq<char> {
    if b.len() == 0 {
        "Address { ... }"@
    } else {
        let header = b[0];
        let typ = header / 16;
        let net = header % 16;
        if typ <= 3 && b.len() >= 57 {
            "Addr "@ + show_addr_network(net) + " ("@ + show_addr_credential(
                typ % 2 == 1,
                b.subrange(1, 29),
            ) + ") (StakeRefBase ("@ + show_addr_credential(typ / 2 % 2 == 1, b.subrange(29, 57))
                + "))"@
        } else if (typ == 6 || typ == 7) && b.len() >= 29 {
            "Addr "@ + show_addr_network(net) + " ("@ + show_addr_credential(
                typ % 2 == 1,
                b.subrange(1, 29),
            ) + ") (StakeRefBase ())"@
        } else if (typ == 4 || typ == 5) && b.len() >= 29 {
            "Addr "@ + show_addr_network(net) + " ("@ + show_addr_credential(
                typ % 2 == 1,
                b.subrange(1, 29),
            ) + ") (StakeRefBase (DelegationPointer ( ... )))"@
        } else if typ == 8 {
            "AddrBootstrap (BootstrapAddress { ... })"@
        } else if typ == 14 || typ == 15 {
            hex_of(b)
        } else {
            "Address { ... }"@
        }
    }
}

/// Appends the credential label of a payment or delegation hash.
fn append_addr_credential(s: &mut String, is_script: bool, h: &[u8])
    ensures
        final(s)@ == old(s)@ + show_addr_credential(is_script, h@),
{
    if is_script {
        s.append("ScriptHashObj (ScriptHash \"");
        append_hex(s, h);
        s.append("\")");
    } else {
        s.append("KeyHashObj (KeyHash {unKeyHash = \"");
        append_hex(s, h);
        s.append("\"})");
    }
}

impl HaskellDisplay for DisplayAddress {
    open spec fn show(&self) -> Seq<char> {
        show_address(self.0@)
    }

    fn to_haskell_str(&self) -> (r: String) {
        let mut s = String::new();
        let b = self.0.as_slice();
        if b.len() == 0 {
            s.append("Address { ... }");
            assert(s@ =~= self.show());
            return s;
        }
        let header = b[0];
        let typ = header / 16;
        let net = header % 16;
        if typ <= 3 && b.len() >= 57 {
            s.append("Addr ");
            if net == 1 {
                s.append("Mainnet");
            } else if net == 0 {
                s.append("Testnet");
            } else {
                s.append("Other ");
                append_dec_u64(&mut s, net as u64);
            }
            s.append(" (");
            append_addr_credential(&mut s, typ % 2 == 1, vstd::slice::slice_subrange(b, 1, 29));
            s.append(") (StakeRefBase (");
            append_addr_credential(
                &mut s,
                typ / 2 % 2 == 1,
                vstd::slice::slice_subrange(b, 29, 57),
            );
            s.append("))");
            assert(s@ =~= self.show());
        } else if (typ == 6 || typ == 7) && b.len() >= 29 {
            s.append("Addr ");
            if net == 1 {
                s.append("Mainnet");
            } else if net == 0 {
                s.append("Testnet");
            } else {
                s.append("Other ");
                append_dec_u64(&mut s, net as u64);
            }
            s.append(" (");
            append_addr_credential(&mut s, typ % 2 == 1, vstd::slice::slice_subrange(b, 1, 29));
            s.append(") (StakeRefBase ())");
            assert(s@ =~= self.show());
        } else if (typ == 4 || typ == 5) && b.len() >= 29 {
            s.append("Addr ");
            if net == 1 {
                s.append("Mainnet");
            } else if net == 0 {
                s.append("Testnet");
            } else {
                s.append("Other ");
                append_dec_u64(&mut s, net as u64);
            }
            s.append(" (");
            append_addr_credential(&mut s, typ % 2 == 1, vstd::slice::slice_subrange(b, 1, 29));
            s.append(") (StakeRefBase (DelegationPointer ( ... )))");
            assert(s@ =~= self.show());
        } else if typ == 8 {
            s.append("AddrBootstrap (BootstrapAddress { ... })");
            assert(s@ =~= self.show());
        } else if typ == 14 || typ == 15 {
            append_hex(&mut s, b);
            assert(s@ =~= self.show());
        } else {
            s.append("Address { ... }");
            assert(s@ =~= self.show());
        }
        s
    }

    fn to_haskell_str_p(&self) -> (r: String) {
        wrap_parens(self.to_haskell_str())
    }

    fn is_primitive() -> (r: bool) {
        false
    }
}

/// The network bit of a reward-account byte string.
pub open spec fn spec_account_network(b: Seq<u8>) -> Network
    recommends
        b.len() >= 1,
{
    if b[0] % 2 == 1 {
        Network::Mainnet
    } else {
        Network::Testnet
    }
}

/// Whether bit four of the header byte selects a script credential.
pub open spec fn spec_account_is_script(b: Seq<u8>) -> bool
    recommends
        b.len() >= 1,
{
    (b[0] / 16) % 2 == 1
}

/// Whether a credential value is the one the header and hash bytes spell.
pub open spec fn credential_matches(c: StakeCredential, b: Seq<u8>) -> bool {
    match c {
        StakeCredential::ScriptHash(h) => spec_account_is_script(b) && h@ == b.subrange(1, 29),
        StakeCredential::AddrKeyhash(h) => !spec_account_is_script(b) && h@ == b.subrange(1, 29),
    }
}

/// Splits a reward-account byte string into its network and credential.
pub fn get_network_and_credentials(bytes: &[u8]) -> (r: (Network, StakeCredential))
    requires
        bytes@.len() >= 29,
    ensures
        r.0 == spec_account_network(bytes@),
        credential_matches(r.1, bytes@),
{
    let network = if bytes[0] % 2 == 1 {
        Network::Mainnet
    } else {
        Network::Testnet
    };
    let hash = vstd::slice::slice_to_vec(vstd::slice::slice_subrange(bytes, 1, 29));
    let credential = if (bytes[0] / 16) % 2 == 1 {
        StakeCredential::ScriptHash(hash)
    } else {
        StakeCredential::AddrKeyhash(hash)
    };
    (network, credential)
}

impl RewardAccountFielded {
    /// Builds a reward account from its hex form; `None` when the text
    /// is not hex or spells fewer than the header and hash bytes.
    pub fn new(hex_input: String) -> (r: Option<RewardAccountFielded>)
        ensures
            match r {
                Some(acc) => hex_input@.len() % 2 == 0 && crate::hexstr::all_hex(hex_input@)
                    && crate::hexstr::hex_bytes(hex_input@).len() >= 29 && acc.ra_network
                    == spec_account_network(crate::hexstr::hex_bytes(hex_input@))
                    && credential_matches(
                    acc.ra_credential,
                    crate::hexstr::hex_bytes(hex_input@),
                ),
                None => hex_input@.len() % 2 != 0 || !crate::hexstr::all_hex(hex_input@)
                    || crate::hexstr::hex_bytes(hex_input@).len() < 29,
            },
    {
        match crate::hexstr::decode_hex(hex_input.as_str()) {
            Some(bytes) => {
                if bytes.len() < 29 {
                    return None;
                }
                let (ra_network, ra_credential) = get_network_and_credentials(bytes.as_slice());
                Some(RewardAccountFielded { ra_network, ra_credential })
            },
            None => None,
        }
    }
}

impl HaskellDisplay for AddressBytes {
    open spec fn show(&self) -> Seq<char> {
        if self.0@.len() >= 29 {
            "Addr "@ + spec_account_network(self.0@).show() + " ("@ + show_addr_credential(
                spec_account_is_script(self.0@),
                self.0@.subrange(1, 29),
            ) + ")"@
        } else {
            "Addr { ... }"@
        }
    }

    fn to_haskell_str(&self) -> (r: String) {
        let mut s = String::new();
        if self.0.len() >= 29 {
            let (network, credential) = get_network_and_credentials(self.0.as_slice());
            s.append("Addr ");
            let n = network.to_haskell_str();
            s.append(n.as_str());
            s.append(" (");
            let c = credential.to_haskell_str();
            s.append(c.as_str());
            s.append(")");
        } else {
            s.append("Addr { ... }");
        }
        s
    }

    fn to_haskell_str_p(&self) -> (r: String) {
        wrap_parens(self.to_haskell_str())
    }

    fn is_primitive() -> (r: bool) {
        false
    }
}

impl HaskellDisplay for BabbageTxOut {
    open spec fn show(&self) -> Seq<char> {
        match self {
            BabbageTxOut::TxOutCompactRefScript(addr, pair, datum, script) => seq!['('] + addr.show()
                + seq![','] + pair.0.show() + " ("@ + pair.1.show() + ")"@ + seq![','] + datum.show()
                + seq![','] + show_in_map::<EraScript>(*script) + seq![')'],
            _ => "HaskellDisplay not implemented yet"@,
        }
    }

    fn to_haskell_str(&self) -> (r: String) {
        match self {
            BabbageTxOut::TxOutCompactRefScript(addr, pair, datum, script) => {
                let mut s = String::new();
                push_char(&mut s, '(');
                let a = addr.to_haskell_str();
                s.append(a.as_str());
                push_char(&mut s, ',');
                let v = pair.0.to_haskell_str();
                s.append(v.as_str());
                s.append(" (");
                let m = pair.1.to_haskell_str();
                s.append(m.as_str());
                s.append(")");
                push_char(&mut s, ',');
                let d = datum.to_haskell_str();
                s.append(d.as_str());
                push_char(&mut s, ',');
                append_in_map(&mut s, script);
                push_char(&mut s, ')');
                assert(s@ =~= self.show());
                s
            },
            _ => {
                let mut s = String::new();
                s.append("HaskellDisplay not implemented yet");
                assert(s@ =~= self.show());
                s
            },
        }
    }

    fn to_haskell_str_p(&self) -> (r: String) {
        wrap_parens(self.to_haskell_str())
    }

    fn is_primitive() -> (r: bool) {
        false
    }
}

} // verus!
