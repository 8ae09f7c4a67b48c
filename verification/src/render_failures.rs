//! Rendering of the failure taxonomy itself.
//!
//! Each enum context renders its variants with the constructor names and
//! punctuation of the reference pretty-printer, character for character.
//! The UTxO context wraps another instance of itself, so its rendering is
//! a recursive function of its own.

use vstd::prelude::*;
use crate::haskell_types::{
    StrictMaybe, TagMismatchDescription, FailureDescription, ConwayUtxosPredFailure,
    ConwayUtxoPredFailure, ConwayUtxoWPredFailure, ConwayGovPredFailure, ConwayCertsPredFailure,
    ConwayCertPredFailure, ShelleyPoolPredFailure, ConwayGovCertPredFailure,
    ConwayDelegPredFailure, ApplyConwayTxPredError, ShelleyBasedEra, Delegatee, ConwayDelegCert,
    ConwayTxCert,
};
use crate::haskell_display::{
    HaskellDisplay, parens, wrap_parens, join_shows, show_fromlist, append_fromlist, show_nel,
    append_nel, append_join_from,
};
use crate::numstr::{dec_digits, push_char, append_dec_u64, append_i8_show};
use crate::haskells_show_string::spec_show_string;

verus! {

/// Renders a pair in the reference tuple form.
pub fn display_tuple<A: HaskellDisplay, B: HaskellDisplay>(t: &(A, B)) -> (r: String)
    ensures
        r@ == t.show(),
{
    t.to_haskell_str()
}

/// Renders pairs joined by single spaces.
pub fn display_tuple_vec<A: HaskellDisplay, B: HaskellDisplay>(vec: &Vec<(A, B)>) -> (r: String)
    ensures
        r@ == join_shows(vec@, " "@),
{
    let mut s = String::new();
    append_join_from(&mut s, vec, " ", 0);
    assert(s@ =~= join_shows(vec@, " "@));
    s
}

/// Renders a triple in the reference space-separated form.
pub fn display_triple<A: HaskellDisplay, B: HaskellDisplay, C: HaskellDisplay>(
    t: &(A, B, C),
) -> (r: String)
    ensures
        r@ == t.show(),
{
    t.to_haskell_str()
}

/// Renders triples joined by single spaces.
pub fn display_triple_vec<A: HaskellDisplay, B: HaskellDisplay, C: HaskellDisplay>(
    vec: &Vec<(A, B, C)>,
) -> (r: String)
    ensures
        r@ == join_shows(vec@, " "@),
{
    let mut s = String::new();
    append_join_from(&mut s, vec, " ", 0);
    assert(s@ =~= join_shows(vec@, " "@));
    s
}

/// Renders key-value pairs as a `fromList [..]` of pair tuples.
pub fn display_hashmap<K: HaskellDisplay, V: HaskellDisplay>(map: &Vec<(K, V)>) -> (r: String)
    ensures
        r@ == show_fromlist(map@),
{
    let mut s = String::new();
    append_fromlist(&mut s, map);
    assert(s@ =~= show_fromlist(map@));
    s
}

/// Renders the optionality wrapper: `SJust (<v>)` or `SNothing`.
pub fn display_strict_maybe<T: HaskellDisplay>(maybe: &StrictMaybe<T>) -> (r: String)
    ensures
        r@ == maybe.show(),
{
    maybe.to_haskell_str()
}

impl HaskellDisplay for Delegatee {
    open spec fn show(&self) -> Seq<char> {
        "Delegatee not implemented"@
    }

    fn to_haskell_str(&self) -> (r: String) {
        let mut s = String::new();
        s.append("Delegatee not implemented");
        s
    }

    fn to_haskell_str_p(&self) -> (r: String) {
        wrap_parens(self.to_haskell_str())
    }

    fn is_primitive() -> (r: bool) {
        false
    }
}

impl HaskellDisplay for ConwayDelegCert {
    open spec fn show(&self) -> Seq<char> {
        match self {
            ConwayDelegCert::ConwayRegCert(sc, coin) => "ConwayRegCert "@ + parens(sc.show()) + " "@
                + coin.show(),
            ConwayDelegCert::ConwayUnRegCert(sc, coin) => "ConwayUnRegCert "@ + parens(sc.show())
                + " "@ + coin.show(),
            ConwayDelegCert::ConwayDelegCert(sc, d) => "ConwayDelegCert "@ + parens(sc.show())
                + " "@ + d.show(),
            ConwayDelegCert::ConwayRegDelegCert(sc, _d, coin) => "ConwayRegDelegCert "@ + parens(
                sc.show(),
            ) + " "@ + coin.show(),
        }
    }

    fn to_haskell_str(&self) -> (r: String) {
        let mut s = String::new();
        match self {
            ConwayDelegCert::ConwayRegCert(sc, coin) => {
                s.append("ConwayRegCert ");
                let a = wrap_parens(sc.to_haskell_str());
                s.append(a.as_str());
                s.append(" ");
                let b = coin.to_haskell_str();
                s.append(b.as_str());
            },
            ConwayDelegCert::ConwayUnRegCert(sc, coin) => {
                s.append("ConwayUnRegCert ");
                let a = wrap_parens(sc.to_haskell_str());
                s.append(a.as_str());
                s.append(" ");
                let b = coin.to_haskell_str();
                s.append(b.as_str());
            },
            ConwayDelegCert::ConwayDelegCert(sc, d) => {
                s.append("ConwayDelegCert ");
                let a = wrap_parens(sc.to_haskell_str());
                s.append(a.as_str());
                s.append(" ");
                let b = d.to_haskell_str();
                s.append(b.as_str());
            },
            ConwayDelegCert::ConwayRegDelegCert(sc, _d, coin) => {
                s.append("ConwayRegDelegCert ");
                let a = wrap_parens(sc.to_haskell_str());
                s.append(a.as_str());
                s.append(" ");
                let b = coin.to_haskell_str();
                s.append(b.as_str());
            },
        }
        s
    }

    fn to_haskell_str_p(&self) -> (r: String) {
        wrap_parens(self.to_haskell_str())
    }

    fn is_primitive() -> (r: bool) {
        false
    }
}

impl HaskellDisplay for ConwayTxCert {
    open spec fn show(&self) -> Seq<char> {
        match self {
            ConwayTxCert::ConwayTxCertDeleg(c) => "ConwayTxCertDeleg "@ + parens(c.show()),
            ConwayTxCert::ConwayTxCertPool(_c) => "ConwayTxCertPool ( ... )"@,
            ConwayTxCert::ConwayTxCertGov(_c) => "ConwayTxCertGov ( ... )"@,
        }
    }

    fn to_haskell_str(&self) -> (r: String) {
        let mut s = String::new();
        match self {
            ConwayTxCert::ConwayTxCertDeleg(c) => {
                s.append("ConwayTxCertDeleg ");
                let a = wrap_parens(c.to_haskell_str());
                s.append(a.as_str());
            },
            ConwayTxCert::ConwayTxCertPool(_c) => {
                s.append("ConwayTxCertPool ( ... )");
            },
            ConwayTxCert::ConwayTxCertGov(_c) => {
                s.append("ConwayTxCertGov ( ... )");
            },
        }
        s
    }

    fn to_haskell_str_p(&self) -> (r: String) {
        wrap_parens(self.to_haskell_str())
    }

    fn is_primitive() -> (r: bool) {
        false
    }
}

impl HaskellDisplay for FailureDescription {
    open spec fn show(&self) -> Seq<char> {
        match self {
            FailureDescription::PlutusFailure(msg, b) => "PlutusFailure "@ + spec_show_string(msg@)
                + " "@ + b.show(),
        }
    }

    fn to_haskell_str(&self) -> (r: String) {
        match self {
            FailureDescription::PlutusFailure(msg, b) => {
                let mut s = String::new();
                s.append("PlutusFailure ");
                let a = msg.to_haskell_str();
                s.append(a.as_str());
                s.append(" ");
                let c = b.to_haskell_str();
                s.append(c.as_str());
                assert(s@ =~= self.show());
                s
            },
        }
    }

    fn to_haskell_str_p(&self) -> (r: String) {
        wrap_parens(self.to_haskell_str())
    }

    fn is_primitive() -> (r: bool) {
        false
    }
}

impl HaskellDisplay for TagMismatchDescription {
    open spec fn show(&self) -> Seq<char> {
        match self {
            TagMismatchDescription::PassedUnexpectedly => "PassedUnexpectedly"@,
            TagMismatchDescription::FailedUnexpectedly(v) => "FailedUnexpectedly "@ + parens(
                show_nel(v@),
            ),
        }
    }

    fn to_haskell_str(&self) -> (r: String) {
        let mut s = String::new();
        match self {
            TagMismatchDescription::PassedUnexpectedly => {
                s.append("PassedUnexpectedly");
            },
            TagMismatchDescription::FailedUnexpectedly(v) => {
                s.append("FailedUnexpectedly ");
                push_char(&mut s, '(');
                append_nel(&mut s, v);
                push_char(&mut s, ')');
                assert(s@ =~= self.show());
            },
        }
        s
    }

    fn to_haskell_str_p(&self) -> (r: String) {
        wrap_parens(self.to_haskell_str())
    }

    fn is_primitive() -> (r: bool) {
        false
    }
}

impl HaskellDisplay for ConwayUtxosPredFailure {
    open spec fn show(&self) -> Seq<char> {
        match self {
            ConwayUtxosPredFailure::ValidationTagMismatch(is_valid, desc) => {
                "ValidationTagMismatch (IsValid "@ + (if *is_valid {
                    "True"@
                } else {
                    "False"@
                }) + ") "@ + parens(desc.show())
            },
            ConwayUtxosPredFailure::CollectErrors(errors) => "CollectErrors "@ + errors.show(),
        }
    }

    fn to_haskell_str(&self) -> (r: String) {
        let mut s = String::new();
        match self {
            ConwayUtxosPredFailure::ValidationTagMismatch(is_valid, desc) => {
                s.append("ValidationTagMismatch (IsValid ");
                if *is_valid {
                    s.append("True");
                } else {
                    s.append("False");
                }
                s.append(") ");
                let d = wrap_parens(desc.to_haskell_str());
                s.append(d.as_str());
                assert(s@ =~= self.show());
            },
            ConwayUtxosPredFailure::CollectErrors(errors) => {
                s.append("CollectErrors ");
                let e = errors.to_haskell_str();
                s.append(e.as_str());
            },
        }
        s
    }

    fn to_haskell_str_p(&self) -> (r: String) {
        wrap_parens(self.to_haskell_str())
    }

    fn is_primitive() -> (r: bool) {
        false
    }
}

/// The rendering of one UTxO-rule failure; recursive because the state
/// sub-rule variant wraps another failure of the same family.
pub open spec fn show_utxo_failure(f: ConwayUtxoPredFailure) -> Seq<char>
    decreases f,
{
    match f {
        ConwayUtxoPredFailure::UtxosFailure(e) => "UtxosFailure ("@ + show_utxo_failure(*e)
            + ")"@,
        ConwayUtxoPredFailure::BadInputsUTxO(v) => "BadInputsUTxO ("@ + show_nel(v@) + ")"@,
        ConwayUtxoPredFailure::OutsideValidityIntervalUTxO(vi, slot) => {
            "OutsideValidityIntervalUTxO ("@ + vi.show_record() + ", "@ + dec_digits(
                slot.0 as nat,
            ) + ")"@
        },
        ConwayUtxoPredFailure::MaxTxSizeUTxO(a, b) => "MaxTxSizeUTxO ("@ + dec_digits(a as nat)
            + ") ("@ + dec_digits(b as nat) + ")"@,
        ConwayUtxoPredFailure::InputSetEmptyUTxO() => "InputSetEmptyUTxO"@,
        ConwayUtxoPredFailure::FeeTooSmallUTxO(a, b) => "FeeTooSmallUTxO ("@ + a.show() + ") ("@
            + b.show() + ")"@,
        ConwayUtxoPredFailure::ValueNotConservedUTxO(a, b) => "ValueNotConservedUTxO ("@ + a.show()
            + ") ("@ + b.show() + ")"@,
        ConwayUtxoPredFailure::WrongNetwork(net, addrs) => "WrongNetwork ("@ + net.show() + ") (["@
            + join_shows(addrs@, ", "@) + "])"@,
        ConwayUtxoPredFailure::WrongNetworkWithdrawal(net, accs) => "WrongNetworkWithdrawal ("@
            + net.show() + ") ("@ + show_nel(accs@) + ")"@,
        ConwayUtxoPredFailure::OutputTooSmallUTxO(outs) => "OutputTooSmallUTxO "@ + outs.show(),
        ConwayUtxoPredFailure::OutputBootAddrAttrsTooBig(outs) => "OutputBootAddrAttrsTooBig "@
            + outs.show(),
        ConwayUtxoPredFailure::OutputTooBigUTxO(v) => "OutputTooBigUTxO ("@ + join_shows(v@, " "@)
            + ")"@,
        ConwayUtxoPredFailure::InsufficientCollateral(d, c) => "InsufficientCollateral ("@
            + d.show() + ") ("@ + c.show() + ")"@,
        ConwayUtxoPredFailure::ScriptsNotPaidUTxO(utxo) => "ScriptsNotPaidUTxO ("@
            + utxo.show_record() + ")"@,
        ConwayUtxoPredFailure::ExUnitsTooBigUTxO(a, b) => "ExUnitsTooBigUTxO ("@ + a.show()
            + ") ("@ + b.show() + ")"@,
        ConwayUtxoPredFailure::CollateralContainsNonADA(v) => "CollateralContainsNonADA ("@
            + v.show() + ")"@,
        ConwayUtxoPredFailure::WrongNetworkInTxBody(a, b) => "WrongNetworkInTxBody ("@ + a.show()
            + ") ("@ + b.show() + ")"@,
        ConwayUtxoPredFailure::OutsideForecast(slot) => "OutsideForecast ("@ + dec_digits(
            slot.0 as nat,
        ) + ")"@,
        ConwayUtxoPredFailure::TooManyCollateralInputs(a, b) => "TooManyCollateralInputs ("@
            + dec_digits(a as nat) + ") ("@ + dec_digits(b as nat) + ")"@,
        ConwayUtxoPredFailure::NoCollateralInputs() => "NoCollateralInputs"@,
        ConwayUtxoPredFailure::IncorrectTotalCollateralField(a, b) => {
            "IncorrectTotalCollateralField ("@ + a.show() + ", "@ + b.show() + ")"@
        },
        ConwayUtxoPredFailure::BabbageOutputTooSmallUTxO(v) => "BabbageOutputTooSmallUTxO ("@
            + join_shows(v@, " "@) + ")"@,
        ConwayUtxoPredFailure::BabbageNonDisjointRefInputs(v) => "BabbageNonDisjointRefInputs ("@
            + show_nel(v@) + ")"@,
    }
}

/// Renders one UTxO-rule failure.
pub fn render_utxo_failure(f: &ConwayUtxoPredFailure) -> (r: String)
    ensures
        r@ == show_utxo_failure(*f),
    decreases *f,
{
    let mut s = String::new();
    match f {
        ConwayUtxoPredFailure::UtxosFailure(e) => {
            s.append("UtxosFailure (");
            let inner = render_utxo_failure(&**e);
            s.append(inner.as_str());
            s.append(")");
        },
        ConwayUtxoPredFailure::BadInputsUTxO(v) => {
            s.append("BadInputsUTxO (");
            append_nel(&mut s, v);
            s.append(")");
        },
        ConwayUtxoPredFailure::OutsideValidityIntervalUTxO(vi, slot) => {
            s.append("OutsideValidityIntervalUTxO (");
            let a = vi.to_record_str();
            s.append(a.as_str());
            s.append(", ");
            append_dec_u64(&mut s, slot.0);
            s.append(")");
        },
        ConwayUtxoPredFailure::MaxTxSizeUTxO(a, b) => {
            s.append("MaxTxSizeUTxO (");
            append_dec_u64(&mut s, *a);
            s.append(") (");
            append_dec_u64(&mut s, *b);
            s.append(")");
        },
        ConwayUtxoPredFailure::InputSetEmptyUTxO() => {
            s.append("InputSetEmptyUTxO");
        },
        ConwayUtxoPredFailure::FeeTooSmallUTxO(a, b) => {
            s.append("FeeTooSmallUTxO (");
            let x = a.to_haskell_str();
            s.append(x.as_str());
            s.append(") (");
            let y = b.to_haskell_str();
            s.append(y.as_str());
            s.append(")");
        },
        ConwayUtxoPredFailure::ValueNotConservedUTxO(a, b) => {
            s.append("ValueNotConservedUTxO (");
            let x = a.to_haskell_str();
            s.append(x.as_str());
            s.append(") (");
            let y = b.to_haskell_str();
            s.append(y.as_str());
            s.append(")");
        },
        ConwayUtxoPredFailure::WrongNetwork(net, addrs) => {
            s.append("WrongNetwork (");
            let x = net.to_haskell_str();
            s.append(x.as_str());
            s.append(") ([");
            append_join_from(&mut s, addrs, ", ", 0);
            s.append("])");
        },
        ConwayUtxoPredFailure::WrongNetworkWithdrawal(net, accs) => {
            s.append("WrongNetworkWithdrawal (");
            let x = net.to_haskell_str();
            s.append(x.as_str());
            s.append(") (");
            append_nel(&mut s, accs);
            s.append(")");
        },
        ConwayUtxoPredFailure::OutputTooSmallUTxO(outs) => {
            s.append("OutputTooSmallUTxO ");
            let x = outs.to_haskell_str();
            s.append(x.as_str());
        },
        ConwayUtxoPredFailure::OutputBootAddrAttrsTooBig(outs) => {
            s.append("OutputBootAddrAttrsTooBig ");
            let x = outs.to_haskell_str();
            s.append(x.as_str());
        },
        ConwayUtxoPredFailure::OutputTooBigUTxO(v) => {
            s.append("OutputTooBigUTxO (");
            append_join_from(&mut s, v, " ", 0);
            s.append(")");
        },
        ConwayUtxoPredFailure::InsufficientCollateral(d, c) => {
            s.append("InsufficientCollateral (");
            let x = d.to_haskell_str();
            s.append(x.as_str());
            s.append(") (");
            let y = c.to_haskell_str();
            s.append(y.as_str());
            s.append(")");
        },
        ConwayUtxoPredFailure::ScriptsNotPaidUTxO(utxo) => {
            s.append("ScriptsNotPaidUTxO (");
            let x = utxo.to_record_str();
            s.append(x.as_str());
            s.append(")");
        },
        ConwayUtxoPredFailure::ExUnitsTooBigUTxO(a, b) => {
            s.append("ExUnitsTooBigUTxO (");
            let x = a.to_haskell_str();
            s.append(x.as_str());
            s.append(") (");
            let y = b.to_haskell_str();
            s.append(y.as_str());
            s.append(")");
        },
        ConwayUtxoPredFailure::CollateralContainsNonADA(v) => {
            s.append("CollateralContainsNonADA (");
            let x = v.to_haskell_str();
            s.append(x.as_str());
            s.append(")");
        },
        ConwayUtxoPredFailure::WrongNetworkInTxBody(a, b) => {
            s.append("WrongNetworkInTxBody (");
            let x = a.to_haskell_str();
            s.append(x.as_str());
            s.append(") (");
            let y = b.to_haskell_str();
            s.append(y.as_str());
            s.append(")");
        },
        ConwayUtxoPredFailure::OutsideForecast(slot) => {
            s.append("OutsideForecast (");
            append_dec_u64(&mut s, slot.0);
            s.append(")");
        },
        ConwayUtxoPredFailure::TooManyCollateralInputs(a, b) => {
            s.append("TooManyCollateralInputs (");
            append_dec_u64(&mut s, *a);
            s.append(") (");
            append_dec_u64(&mut s, *b);
            s.append(")");
        },
        ConwayUtxoPredFailure::NoCollateralInputs() => {
            s.append("NoCollateralInputs");
        },
        ConwayUtxoPredFailure::IncorrectTotalCollateralField(a, b) => {
            s.append("IncorrectTotalCollateralField (");
            let x = a.to_haskell_str();
            s.append(x.as_str());
            s.append(", ");
            let y = b.to_haskell_str();
            s.append(y.as_str());
            s.append(")");
        },
        ConwayUtxoPredFailure::BabbageOutputTooSmallUTxO(v) => {
            s.append("BabbageOutputTooSmallUTxO (");
            append_join_from(&mut s, v, " ", 0);
            s.append(")");
        },
        ConwayUtxoPredFailure::BabbageNonDisjointRefInputs(v) => {
            s.append("BabbageNonDisjointRefInputs (");
            append_nel(&mut s, v);
            s.append(")");
        },
    }
    assert(s@ =~= show_utxo_failure(*f));
    s
}

impl HaskellDisplay for ConwayUtxoPredFailure {
    open spec fn show(&self) -> Seq<char> {
        show_utxo_failure(*self)
    }

    fn to_haskell_str(&self) -> (r: String) {
        render_utxo_failure(self)
    }

    fn to_haskell_str_p(&self) -> (r: String) {
        wrap_parens(self.to_haskell_str())
    }

    fn is_primitive() -> (r: bool) {
        false
    }
}

impl HaskellDisplay for ConwayUtxoWPredFailure {
    open spec fn show(&self) -> Seq<char> {
        match self {
            ConwayUtxoWPredFailure::UtxoFailure(e) => "(UtxoFailure "@ + show_utxo_failure(*e)
                + ")"@,
            ConwayUtxoWPredFailure::InvalidWitnessesUTXOW(v) => "(InvalidWitnessesUTXOW "@
                + v.show() + ")"@,
            ConwayUtxoWPredFailure::MissingVKeyWitnessesUTXOW(set) => "(MissingVKeyWitnessesUTXOW ("@
                + set.show() + "))"@,
            ConwayUtxoWPredFailure::MissingScriptWitnessesUTXOW(set) => {
                "(MissingScriptWitnessesUTXOW ("@ + set.show() + "))"@
            },
            ConwayUtxoWPredFailure::ScriptWitnessNotValidatingUTXOW(set) => {
                "(ScriptWitnessNotValidatingUTXOW ("@ + set.show() + "))"@
            },
            ConwayUtxoWPredFailure::MissingTxBodyMetadataHash(b) => "(MissingTxBodyMetadataHash ("@
                + b.show_aux_data_hash() + "))"@,
            ConwayUtxoWPredFailure::MissingTxMetadata(b) => "(MissingTxMetadata ("@
                + b.show_aux_data_hash() + "))"@,
            ConwayUtxoWPredFailure::ConflictingMetadataHash(a, b) => "(ConflictingMetadataHash ("@
                + a.show_aux_data_hash() + ") ("@ + b.show_aux_data_hash() + "))"@,
            ConwayUtxoWPredFailure::InvalidMetadata() => "InvalidMetadata"@,
            ConwayUtxoWPredFailure::ExtraneousScriptWitnessesUTXOW(set) => {
                "(ExtraneousScriptWitnessesUTXOW ("@ + set.show() + "))"@
            },
            ConwayUtxoWPredFailure::MissingRedeemers(v) => "(MissingRedeemers "@ + v.show() + ")"@,
            ConwayUtxoWPredFailure::MissingRequiredDatums(a, b) => "(MissingRequiredDatums ("@
                + show_nel(a@) + ") ("@ + show_nel(b@) + "))"@,
            ConwayUtxoWPredFailure::NotAllowedSupplementalDatums(a, b) => {
                "(NotAllowedSupplementalDatums ("@ + a.show() + ") ("@ + b.show() + "))"@
            },
            ConwayUtxoWPredFailure::PPViewHashesDontMatch(a, b) => "(PPViewHashesDontMatch "@
                + a.show_p() + " "@ + b.show_p() + ")"@,
            ConwayUtxoWPredFailure::UnspendableUTxONoDatumHash(set) => {
                "(UnspendableUTxONoDatumHash ("@ + set.show() + "))"@
            },
            ConwayUtxoWPredFailure::ExtraRedeemers(v) => "(ExtraRedeemers "@ + v.show() + ")"@,
            ConwayUtxoWPredFailure::MalformedScriptWitnesses(set) => "(MalformedScriptWitnesses ("@
                + set.show() + "))"@,
            ConwayUtxoWPredFailure::MalformedReferenceScripts(set) => {
                "(MalformedReferenceScripts ("@ + set.show() + "))"@
            },
        }
    }

    fn to_haskell_str(&self) -> (r: String) {
        let mut s = String::new();
        match self {
            ConwayUtxoWPredFailure::UtxoFailure(e) => {
                s.append("(UtxoFailure ");
                let x = render_utxo_failure(e);
                s.append(x.as_str());
                s.append(")");
            },
            ConwayUtxoWPredFailure::InvalidWitnessesUTXOW(v) => {
                s.append("(InvalidWitnessesUTXOW ");
                let x = v.to_haskell_str();
                s.append(x.as_str());
                s.append(")");
            },
            ConwayUtxoWPredFailure::MissingVKeyWitnessesUTXOW(set) => {
                s.append("(MissingVKeyWitnessesUTXOW (");
                let x = set.to_haskell_str();
                s.append(x.as_str());
                s.append("))");
            },
            ConwayUtxoWPredFailure::MissingScriptWitnessesUTXOW(set) => {
                s.append("(MissingScriptWitnessesUTXOW (");
                let x = set.to_haskell_str();
                s.append(x.as_str());
                s.append("))");
            },
            ConwayUtxoWPredFailure::ScriptWitnessNotValidatingUTXOW(set) => {
                s.append("(ScriptWitnessNotValidatingUTXOW (");
                let x = set.to_haskell_str();
                s.append(x.as_str());
                s.append("))");
            },
            ConwayUtxoWPredFailure::MissingTxBodyMetadataHash(b) => {
                s.append("(MissingTxBodyMetadataHash (");
                let x = b.as_aux_data_hash();
                s.append(x.as_str());
                s.append("))");
            },
            ConwayUtxoWPredFailure::MissingTxMetadata(b) => {
                s.append("(MissingTxMetadata (");
                let x = b.as_aux_data_hash();
                s.append(x.as_str());
                s.append("))");
            },
            ConwayUtxoWPredFailure::ConflictingMetadataHash(a, b) => {
                s.append("(ConflictingMetadataHash (");
                let x = a.as_aux_data_hash();
                s.append(x.as_str());
                s.append(") (");
                let y = b.as_aux_data_hash();
                s.append(y.as_str());
                s.append("))");
            },
            ConwayUtxoWPredFailure::InvalidMetadata() => {
                s.append("InvalidMetadata");
            },
            ConwayUtxoWPredFailure::ExtraneousScriptWitnessesUTXOW(set) => {
                s.append("(ExtraneousScriptWitnessesUTXOW (");
                let x = set.to_haskell_str();
                s.append(x.as_str());
                s.append("))");
            },
            ConwayUtxoWPredFailure::MissingRedeemers(v) => {
                s.append("(MissingRedeemers ");
                let x = v.to_haskell_str();
                s.append(x.as_str());
                s.append(")");
            },
            ConwayUtxoWPredFailure::MissingRequiredDatums(a, b) => {
                s.append("(MissingRequiredDatums (");
                append_nel(&mut s, a);
                s.append(") (");
                append_nel(&mut s, b);
                s.append("))");
            },
            ConwayUtxoWPredFailure::NotAllowedSupplementalDatums(a, b) => {
                s.append("(NotAllowedSupplementalDatums (");
                let x = a.to_haskell_str();
                s.append(x.as_str());
                s.append(") (");
                let y = b.to_haskell_str();
                s.append(y.as_str());
                s.append("))");
            },
            ConwayUtxoWPredFailure::PPViewHashesDontMatch(a, b) => {
                s.append("(PPViewHashesDontMatch ");
                let x = a.to_haskell_str_p();
                s.append(x.as_str());
                s.append(" ");
                let y = b.to_haskell_str_p();
                s.append(y.as_str());
                s.append(")");
            },
            ConwayUtxoWPredFailure::UnspendableUTxONoDatumHash(set) => {
                s.append("(UnspendableUTxONoDatumHash (");
                let x = set.to_haskell_str();
                s.append(x.as_str());
                s.append("))");
            },
            ConwayUtxoWPredFailure::ExtraRedeemers(v) => {
                s.append("(ExtraRedeemers ");
                let x = v.to_haskell_str();
                s.append(x.as_str());
                s.append(")");
            },
            ConwayUtxoWPredFailure::MalformedScriptWitnesses(set) => {
                s.append("(MalformedScriptWitnesses (");
                let x = set.to_haskell_str();
                s.append(x.as_str());
                s.append("))");
            },
            ConwayUtxoWPredFailure::MalformedReferenceScripts(set) => {
                s.append("(MalformedReferenceScripts (");
                let x = set.to_haskell_str();
                s.append(x.as_str());
                s.append("))");
            },
        }
        assert(s@ =~= self.show());
        s
    }

    fn to_haskell_str_p(&self) -> (r: String) {
        wrap_parens(self.to_haskell_str())
    }

    fn is_primitive() -> (r: bool) {
        false
    }
}

impl HaskellDisplay for ConwayGovPredFailure {
    open spec fn show(&self) -> Seq<char> {
        match self {
            ConwayGovPredFailure::GovActionsDoNotExist(v) => "GovActionsDoNotExist ("@ + show_nel(
                v@,
            ) + ")"@,
            ConwayGovPredFailure::MalformedProposal(act) => "MalformedProposal "@ + act.show_p(),
            ConwayGovPredFailure::ProposalProcedureNetworkIdMismatch(ra, n) => {
                "ProposalProcedureNetworkIdMismatch ("@ + ra.show() + ") "@ + n.show()
            },
            ConwayGovPredFailure::TreasuryWithdrawalsNetworkIdMismatch(set, n) => {
                "TreasuryWithdrawalsNetworkIdMismatch ("@ + set.show() + ") "@ + n.show()
            },
            ConwayGovPredFailure::ProposalDepositIncorrect(a, b) => "ProposalDepositIncorrect ("@
                + a.show() + ") ("@ + b.show() + ")"@,
            ConwayGovPredFailure::DisallowedVoters(v) => "DisallowedVoters ("@ + show_nel(v@)
                + ")"@,
            ConwayGovPredFailure::ConflictingCommitteeUpdate(set) => "ConflictingCommitteeUpdate ("@
                + set.show() + ")"@,
            ConwayGovPredFailure::ExpirationEpochTooSmall(m) => "ExpirationEpochTooSmall ("@
                + show_fromlist(m@) + ")"@,
            ConwayGovPredFailure::InvalidPrevGovActionId(pp) => "InvalidPrevGovActionId ("@
                + pp.show() + ")"@,
            ConwayGovPredFailure::VotingOnExpiredGovAction(v) => "VotingOnExpiredGovAction ("@
                + show_nel(v@) + ")"@,
            ConwayGovPredFailure::ProposalCantFollow(a, p1, p2) => "ProposalCantFollow "@
                + a.show_p() + " ("@ + p1.show() + ") ("@ + p2.show() + ")"@,
            ConwayGovPredFailure::InvalidPolicyHash(a, b) => "InvalidPolicyHash "@ + a.show_p()
                + " "@ + b.show_p(),
            ConwayGovPredFailure::DisallowedProposalDuringBootstrap(pp) => {
                "DisallowedProposalDuringBootstrap ("@ + pp.show() + ")"@
            },
            ConwayGovPredFailure::DisallowedVotesDuringBootstrap(v) => {
                "DisallowedVotesDuringBootstrap ("@ + show_nel(v@) + ")"@
            },
            ConwayGovPredFailure::VotersDoNotExist(v) => "VotersDoNotExist ("@ + show_nel(v@)
                + ")"@,
            ConwayGovPredFailure::ZeroTreasuryWithdrawals(act) => "ZeroTreasuryWithdrawals "@
                + act.show_p(),
            ConwayGovPredFailure::ProposalReturnAccountDoesNotExist(ra) => {
                "ProposalReturnAccountDoesNotExist ("@ + ra.show() + ")"@
            },
            ConwayGovPredFailure::TreasuryWithdrawalReturnAccountsDoNotExist(v) => {
                "TreasuryWithdrawalReturnAccountsDoNotExist ("@ + show_nel(v@) + ")"@
            },
        }
    }

    fn to_haskell_str(&self) -> (r: String) {
        let mut s = String::new();
        match self {
            ConwayGovPredFailure::GovActionsDoNotExist(v) => {
                s.append("GovActionsDoNotExist (");
                append_nel(&mut s, v);
                s.append(")");
            },
            ConwayGovPredFailure::MalformedProposal(act) => {
                s.append("MalformedProposal ");
                let x = act.to_haskell_str_p();
                s.append(x.as_str());
            },
            ConwayGovPredFailure::ProposalProcedureNetworkIdMismatch(ra, n) => {
                s.append("ProposalProcedureNetworkIdMismatch (");
                let x = ra.to_haskell_str();
                s.append(x.as_str());
                s.append(") ");
                let y = n.to_haskell_str();
                s.append(y.as_str());
            },
            ConwayGovPredFailure::TreasuryWithdrawalsNetworkIdMismatch(set, n) => {
                s.append("TreasuryWithdrawalsNetworkIdMismatch (");
                let x = set.to_haskell_str();
                s.append(x.as_str());
                s.append(") ");
                let y = n.to_haskell_str();
                s.append(y.as_str());
            },
            ConwayGovPredFailure::ProposalDepositIncorrect(a, b) => {
                s.append("ProposalDepositIncorrect (");
                let x = a.to_haskell_str();
                s.append(x.as_str());
                s.append(") (");
                let y = b.to_haskell_str();
                s.append(y.as_str());
                s.append(")");
            },
            ConwayGovPredFailure::DisallowedVoters(v) => {
                s.append("DisallowedVoters (");
                append_nel(&mut s, v);
                s.append(")");
            },
            ConwayGovPredFailure::ConflictingCommitteeUpdate(set) => {
                s.append("ConflictingCommitteeUpdate (");
                let x = set.to_haskell_str();
                s.append(x.as_str());
                s.append(")");
            },
            ConwayGovPredFailure::ExpirationEpochTooSmall(m) => {
                s.append("ExpirationEpochTooSmall (");
                append_fromlist(&mut s, m);
                s.append(")");
            },
            ConwayGovPredFailure::InvalidPrevGovActionId(pp) => {
                s.append("InvalidPrevGovActionId (");
                let x = pp.to_haskell_str();
                s.append(x.as_str());
                s.append(")");
            },
            ConwayGovPredFailure::VotingOnExpiredGovAction(v) => {
                s.append("VotingOnExpiredGovAction (");
                append_nel(&mut s, v);
                s.append(")");
            },
            ConwayGovPredFailure::ProposalCantFollow(a, p1, p2) => {
                s.append("ProposalCantFollow ");
                let x = a.to_haskell_str_p();
                s.append(x.as_str());
                s.append(" (");
                let y = p1.to_haskell_str();
                s.append(y.as_str());
                s.append(") (");
                let z = p2.to_haskell_str();
                s.append(z.as_str());
                s.append(")");
            },
            ConwayGovPredFailure::InvalidPolicyHash(a, b) => {
                s.append("InvalidPolicyHash ");
                let x = a.to_haskell_str_p();
                s.append(x.as_str());
                s.append(" ");
                let y = b.to_haskell_str_p();
                s.append(y.as_str());
            },
            ConwayGovPredFailure::DisallowedProposalDuringBootstrap(pp) => {
                s.append("DisallowedProposalDuringBootstrap (");
                let x = pp.to_haskell_str();
                s.append(x.as_str());
                s.append(")");
            },
            ConwayGovPredFailure::DisallowedVotesDuringBootstrap(v) => {
                s.append("DisallowedVotesDuringBootstrap (");
                append_nel(&mut s, v);
                s.append(")");
            },
            ConwayGovPredFailure::VotersDoNotExist(v) => {
                s.append("VotersDoNotExist (");
                append_nel(&mut s, v);
                s.append(")");
            },
            ConwayGovPredFailure::ZeroTreasuryWithdrawals(act) => {
                s.append("ZeroTreasuryWithdrawals ");
                let x = act.to_haskell_str_p();
                s.append(x.as_str());
            },
            ConwayGovPredFailure::ProposalReturnAccountDoesNotExist(ra) => {
                s.append("ProposalReturnAccountDoesNotExist (");
                let x = ra.to_haskell_str();
                s.append(x.as_str());
                s.append(")");
            },
            ConwayGovPredFailure::TreasuryWithdrawalReturnAccountsDoNotExist(v) => {
                s.append("TreasuryWithdrawalReturnAccountsDoNotExist (");
                append_nel(&mut s, v);
                s.append(")");
            },
        }
        assert(s@ =~= self.show());
        s
    }

    fn to_haskell_str_p(&self) -> (r: String) {
        wrap_parens(self.to_haskell_str())
    }

    fn is_primitive() -> (r: bool) {
        false
    }
}

impl HaskellDisplay for ConwayDelegPredFailure {
    open spec fn show(&self) -> Seq<char> {
        match self {
            ConwayDelegPredFailure::IncorrectDepositDELEG(c) => "IncorrectDepositDELEG ("@
                + c.show() + ")"@,
            ConwayDelegPredFailure::StakeKeyRegisteredDELEG(cred) => "StakeKeyRegisteredDELEG ("@
                + cred.show() + ")"@,
            ConwayDelegPredFailure::StakeKeyNotRegisteredDELEG(cred) => {
                "StakeKeyNotRegisteredDELEG ("@ + cred.show() + ")"@
            },
            ConwayDelegPredFailure::StakeKeyHasNonZeroRewardAccountBalanceDELEG(c) => {
                "StakeKeyHasNonZeroRewardAccountBalanceDELEG ("@ + c.show() + ")"@
            },
            ConwayDelegPredFailure::DelegateeDRepNotRegisteredDELEG(cred) => {
                "DelegateeDRepNotRegisteredDELEG ("@ + cred.show() + ")"@
            },
            ConwayDelegPredFailure::DelegateeStakePoolNotRegisteredDELEG(kh) => {
                "DelegateeStakePoolNotRegisteredDELEG ("@ + kh.show() + ")"@
            },
        }
    }

    fn to_haskell_str(&self) -> (r: String) {
        let mut s = String::new();
        match self {
            ConwayDelegPredFailure::IncorrectDepositDELEG(c) => {
                s.append("IncorrectDepositDELEG (");
                let x = c.to_haskell_str();
                s.append(x.as_str());
                s.append(")");
            },
            ConwayDelegPredFailure::StakeKeyRegisteredDELEG(cred) => {
                s.append("StakeKeyRegisteredDELEG (");
                let x = cred.to_haskell_str();
                s.append(x.as_str());
                s.append(")");
            },
            ConwayDelegPredFailure::StakeKeyNotRegisteredDELEG(cred) => {
                s.append("StakeKeyNotRegisteredDELEG (");
                let x = cred.to_haskell_str();
                s.append(x.as_str());
                s.append(")");
            },
            ConwayDelegPredFailure::StakeKeyHasNonZeroRewardAccountBalanceDELEG(c) => {
                s.append("StakeKeyHasNonZeroRewardAccountBalanceDELEG (");
                let x = c.to_haskell_str();
                s.append(x.as_str());
                s.append(")");
            },
            ConwayDelegPredFailure::DelegateeDRepNotRegisteredDELEG(cred) => {
                s.append("DelegateeDRepNotRegisteredDELEG (");
                let x = cred.to_haskell_str();
                s.append(x.as_str());
                s.append(")");
            },
            ConwayDelegPredFailure::DelegateeStakePoolNotRegisteredDELEG(kh) => {
                s.append("DelegateeStakePoolNotRegisteredDELEG (");
                let x = kh.to_haskell_str();
                s.append(x.as_str());
                s.append(")");
            },
        }
        assert(s@ =~= self.show());
        s
    }

    fn to_haskell_str_p(&self) -> (r: String) {
        wrap_parens(self.to_haskell_str())
    }

    fn is_primitive() -> (r: bool) {
        false
    }
}

impl HaskellDisplay for ShelleyPoolPredFailure {
    open spec fn show(&self) -> Seq<char> {
        match self {
            ShelleyPoolPredFailure::StakePoolNotRegisteredOnKeyPOOL(kh) => {
                "StakePoolNotRegisteredOnKeyPOOL "@ + kh.show_p()
            },
            ShelleyPoolPredFailure::StakePoolRetirementWrongEpochPOOL(m1, m2) => {
                "StakePoolRetirementWrongEpochPOOL "@ + m1.show_p() + " "@ + m2.show_p()
            },
            ShelleyPoolPredFailure::StakePoolCostTooLowPOOL(m) => "StakePoolCostTooLowPOOL "@
                + m.show_p(),
            ShelleyPoolPredFailure::WrongNetworkPOOL(m, kh) => "WrongNetworkPOOL "@ + m.show_p()
                + " "@ + kh.show_p(),
            ShelleyPoolPredFailure::PoolMedataHashTooBig(kh, size) => "PoolMedataHashTooBig "@
                + kh.show_p() + " "@ + dec_digits(*size as nat),
        }
    }

    fn to_haskell_str(&self) -> (r: String) {
        let mut s = String::new();
        match self {
            ShelleyPoolPredFailure::StakePoolNotRegisteredOnKeyPOOL(kh) => {
                s.append("StakePoolNotRegisteredOnKeyPOOL ");
                let x = kh.to_haskell_str_p();
                s.append(x.as_str());
            },
            ShelleyPoolPredFailure::StakePoolRetirementWrongEpochPOOL(m1, m2) => {
                s.append("StakePoolRetirementWrongEpochPOOL ");
                let x = m1.to_haskell_str_p();
                s.append(x.as_str());
                s.append(" ");
                let y = m2.to_haskell_str_p();
                s.append(y.as_str());
            },
            ShelleyPoolPredFailure::StakePoolCostTooLowPOOL(m) => {
                s.append("StakePoolCostTooLowPOOL ");
                let x = m.to_haskell_str_p();
                s.append(x.as_str());
            },
            ShelleyPoolPredFailure::WrongNetworkPOOL(m, kh) => {
                s.append("WrongNetworkPOOL ");
                let x = m.to_haskell_str_p();
                s.append(x.as_str());
                s.append(" ");
                let y = kh.to_haskell_str_p();
                s.append(y.as_str());
            },
            ShelleyPoolPredFailure::PoolMedataHashTooBig(kh, size) => {
                s.append("PoolMedataHashTooBig ");
                let x = kh.to_haskell_str_p();
                s.append(x.as_str());
                s.append(" ");
                append_dec_u64(&mut s, *size);
            },
        }
        assert(s@ =~= self.show());
        s
    }

    fn to_haskell_str_p(&self) -> (r: String) {
        wrap_parens(self.to_haskell_str())
    }

    fn is_primitive() -> (r: bool) {
        false
    }
}

impl HaskellDisplay for ConwayGovCertPredFailure {
    open spec fn show(&self) -> Seq<char> {
        match self {
            ConwayGovCertPredFailure::ConwayDRepAlreadyRegistered(cred) => {
                "ConwayDRepAlreadyRegistered ("@ + cred.show() + ")"@
            },
            ConwayGovCertPredFailure::ConwayDRepNotRegistered(cred) => {
                "ConwayDRepNotRegistered ("@ + cred.show() + ")"@
            },
            ConwayGovCertPredFailure::ConwayDRepIncorrectDeposit(a, b) => {
                "ConwayDRepIncorrectDeposit ("@ + a.show() + ") ("@ + b.show() + ")"@
            },
            ConwayGovCertPredFailure::ConwayCommitteeHasPreviouslyResigned(cred) => {
                "ConwayCommitteeHasPreviouslyResigned ("@ + cred.show() + ")"@
            },
            ConwayGovCertPredFailure::ConwayDRepIncorrectRefund(a, b) => {
                "ConwayDRepIncorrectRefund ("@ + a.show() + ") ("@ + b.show() + ")"@
            },
            ConwayGovCertPredFailure::ConwayCommitteeIsUnknown(cred) => {
                "ConwayCommitteeIsUnknown ("@ + cred.show() + ")"@
            },
        }
    }

    fn to_haskell_str(&self) -> (r: String) {
        let mut s = String::new();
        match self {
            ConwayGovCertPredFailure::ConwayDRepAlreadyRegistered(cred) => {
                s.append("ConwayDRepAlreadyRegistered (");
                let x = cred.to_haskell_str();
                s.append(x.as_str());
                s.append(")");
            },
            ConwayGovCertPredFailure::ConwayDRepNotRegistered(cred) => {
                s.append("ConwayDRepNotRegistered (");
                let x = cred.to_haskell_str();
                s.append(x.as_str());
                s.append(")");
            },
            ConwayGovCertPredFailure::ConwayDRepIncorrectDeposit(a, b) => {
                s.append("ConwayDRepIncorrectDeposit (");
                let x = a.to_haskell_str();
                s.append(x.as_str());
                s.append(") (");
                let y = b.to_haskell_str();
                s.append(y.as_str());
                s.append(")");
            },
            ConwayGovCertPredFailure::ConwayCommitteeHasPreviouslyResigned(cred) => {
                s.append("ConwayCommitteeHasPreviouslyResigned (");
                let x = cred.to_haskell_str();
                s.append(x.as_str());
                s.append(")");
            },
            ConwayGovCertPredFailure::ConwayDRepIncorrectRefund(a, b) => {
                s.append("ConwayDRepIncorrectRefund (");
                let x = a.to_haskell_str();
                s.append(x.as_str());
                s.append(") (");
                let y = b.to_haskell_str();
                s.append(y.as_str());
                s.append(")");
            },
            ConwayGovCertPredFailure::ConwayCommitteeIsUnknown(cred) => {
                s.append("ConwayCommitteeIsUnknown (");
                let x = cred.to_haskell_str();
                s.append(x.as_str());
                s.append(")");
            },
        }
        assert(s@ =~= self.show());
        s
    }

    fn to_haskell_str_p(&self) -> (r: String) {
        wrap_parens(self.to_haskell_str())
    }

    fn is_primitive() -> (r: bool) {
        false
    }
}

impl HaskellDisplay for ConwayCertPredFailure {
    open spec fn show(&self) -> Seq<char> {
        match self {
            ConwayCertPredFailure::DelegFailure(e) => "DelegFailure ("@ + e.show() + ")"@,
            ConwayCertPredFailure::PoolFailure(e) => "PoolFailure ("@ + e.show() + ")"@,
            ConwayCertPredFailure::GovCertFailure(e) => "GovCertFailure ("@ + e.show() + ")"@,
        }
    }

    fn to_haskell_str(&self) -> (r: String) {
        let mut s = String::new();
        match self {
            ConwayCertPredFailure::DelegFailure(e) => {
                s.append("DelegFailure (");
                let x = e.to_haskell_str();
                s.append(x.as_str());
                s.append(")");
            },
            ConwayCertPredFailure::PoolFailure(e) => {
                s.append("PoolFailure (");
                let x = e.to_haskell_str();
                s.append(x.as_str());
                s.append(")");
            },
            ConwayCertPredFailure::GovCertFailure(e) => {
                s.append("GovCertFailure (");
                let x = e.to_haskell_str();
                s.append(x.as_str());
                s.append(")");
            },
        }
        assert(s@ =~= self.show());
        s
    }

    fn to_haskell_str_p(&self) -> (r: String) {
        wrap_parens(self.to_haskell_str())
    }

    fn is_primitive() -> (r: bool) {
        false
    }
}

impl HaskellDisplay for ConwayCertsPredFailure {
    open spec fn show(&self) -> Seq<char> {
        match self {
            ConwayCertsPredFailure::WithdrawalsNotInRewardsCERTS(m) => {
                "WithdrawalsNotInRewardsCERTS ("@ + show_fromlist(m@) + ")"@
            },
            ConwayCertsPredFailure::CertFailure(e) => "CertFailure ("@ + e.show() + ")"@,
        }
    }

    fn to_haskell_str(&self) -> (r: String) {
        let mut s = String::new();
        match self {
            ConwayCertsPredFailure::WithdrawalsNotInRewardsCERTS(m) => {
                s.append("WithdrawalsNotInRewardsCERTS (");
                append_fromlist(&mut s, m);
                s.append(")");
            },
            ConwayCertsPredFailure::CertFailure(e) => {
                s.append("CertFailure (");
                let x = e.to_haskell_str();
                s.append(x.as_str());
                s.append(")");
            },
        }
        assert(s@ =~= self.show());
        s
    }

    fn to_haskell_str_p(&self) -> (r: String) {
        wrap_parens(self.to_haskell_str())
    }

    fn is_primitive() -> (r: bool) {
        false
    }
}

impl HaskellDisplay for ApplyConwayTxPredError {
    open spec fn show(&self) -> Seq<char> {
        match self {
            ApplyConwayTxPredError::ConwayUtxowFailure(e) => "ConwayUtxowFailure "@ + e.show(),
            ApplyConwayTxPredError::ConwayCertsFailure(e) => "ConwayCertsFailure ("@ + e.show()
                + ")"@,
            ApplyConwayTxPredError::ConwayGovFailure(e) => "ConwayGovFailure ("@ + e.show() + ")"@,
            ApplyConwayTxPredError::ConwayWdrlNotDelegatedToDRep(v) => {
                "ConwayWdrlNotDelegatedToDRep ("@ + show_nel(v@) + ")"@
            },
            ApplyConwayTxPredError::ConwayTreasuryValueMismatch(a, b) => {
                "ConwayTreasuryValueMismatch ("@ + a.show() + ") ("@ + b.show() + ")"@
            },
            ApplyConwayTxPredError::ConwayTxRefScriptsSizeTooBig(a, b) => {
                "ConwayTxRefScriptsSizeTooBig "@ + a.show() + " "@ + b.show()
            },
            ApplyConwayTxPredError::ConwayMempoolFailure(msg) => "ConwayMempoolFailure "@
                + spec_show_string(msg@),
        }
    }

    fn to_haskell_str(&self) -> (r: String) {
        let mut s = String::new();
        match self {
            ApplyConwayTxPredError::ConwayUtxowFailure(e) => {
                s.append("ConwayUtxowFailure ");
                let x = e.to_haskell_str();
                s.append(x.as_str());
            },
            ApplyConwayTxPredError::ConwayCertsFailure(e) => {
                s.append("ConwayCertsFailure (");
                let x = e.to_haskell_str();
                s.append(x.as_str());
                s.append(")");
            },
            ApplyConwayTxPredError::ConwayGovFailure(e) => {
                s.append("ConwayGovFailure (");
                let x = e.to_haskell_str();
                s.append(x.as_str());
                s.append(")");
            },
            ApplyConwayTxPredError::ConwayWdrlNotDelegatedToDRep(v) => {
                s.append("ConwayWdrlNotDelegatedToDRep (");
                append_nel(&mut s, v);
                s.append(")");
            },
            ApplyConwayTxPredError::ConwayTreasuryValueMismatch(a, b) => {
                s.append("ConwayTreasuryValueMismatch (");
                let x = a.to_haskell_str();
                s.append(x.as_str());
                s.append(") (");
                let y = b.to_haskell_str();
                s.append(y.as_str());
                s.append(")");
            },
            ApplyConwayTxPredError::ConwayTxRefScriptsSizeTooBig(a, b) => {
                s.append("ConwayTxRefScriptsSizeTooBig ");
                append_i8_show(&mut s, *a);
                s.append(" ");
                append_i8_show(&mut s, *b);
            },
            ApplyConwayTxPredError::ConwayMempoolFailure(msg) => {
                s.append("ConwayMempoolFailure ");
                let x = msg.to_haskell_str();
                s.append(x.as_str());
            },
        }
        assert(s@ =~= self.show());
        s
    }

    fn to_haskell_str_p(&self) -> (r: String) {
        wrap_parens(self.to_haskell_str())
    }

    fn is_primitive() -> (r: bool) {
        false
    }
}

impl HaskellDisplay for ShelleyBasedEra {
    open spec fn show(&self) -> Seq<char> {
        match self {
            ShelleyBasedEra::ShelleyBasedEraShelley => "ShelleyBasedEraShelley"@,
            ShelleyBasedEra::ShelleyBasedEraAllegra => "ShelleyBasedEraAllegra"@,
            ShelleyBasedEra::ShelleyBasedEraMary => "ShelleyBasedEraMary"@,
            ShelleyBasedEra::ShelleyBasedEraAlonzo => "ShelleyBasedEraAlonzo"@,
            ShelleyBasedEra::ShelleyBasedEraBabbage => "ShelleyBasedEraBabbage"@,
            ShelleyBasedEra::ShelleyBasedEraConway => "ShelleyBasedEraConway"@,
        }
    }

    fn to_haskell_str(&self) -> (r: String) {
        let mut s = String::new();
        match self {
            ShelleyBasedEra::ShelleyBasedEraShelley => s.append("ShelleyBasedEraShelley"),
            ShelleyBasedEra::ShelleyBasedEraAllegra => s.append("ShelleyBasedEraAllegra"),
            ShelleyBasedEra::ShelleyBasedEraMary => s.append("ShelleyBasedEraMary"),
            ShelleyBasedEra::ShelleyBasedEraAlonzo => s.append("ShelleyBasedEraAlonzo"),
            ShelleyBasedEra::ShelleyBasedEraBabbage => s.append("ShelleyBasedEraBabbage"),
            ShelleyBasedEra::ShelleyBasedEraConway => s.append("ShelleyBasedEraConway"),
        }
        s
    }

    fn to_haskell_str_p(&self) -> (r: String) {
        wrap_parens(self.to_haskell_str())
    }

    fn is_primitive() -> (r: bool) {
        false
    }
}

} // verus!
