//! Rendering of script purposes, voters, and governance actions.

use vstd::prelude::*;
use crate::haskell_types::{
    AsIx, AsItem, PlutusPurpose, PurposeAs, ConwayPlutusPurpose, TransactionInput, GovActionId,
    ValidityInterval, SlotNo, Voter, Anchor, Constitution, GovAction, ProposalProcedure,
};
use crate::haskell_display::{HaskellDisplay, parens, wrap_parens, show_fromlist, append_fromlist};
use crate::numstr::{dec_digits, push_char, append_dec_u64};
use crate::hexstr::{hex_of, append_hex};

verus! {

impl HaskellDisplay for AsIx {
    open spec fn show(&self) -> Seq<char> {
        "AsIx {unAsIx = "@ + dec_digits(self.0 as nat) + "}"@
    }

    fn to_haskell_str(&self) -> (r: String) {
        let mut s = String::new();
        s.append("AsIx {unAsIx = ");
        append_dec_u64(&mut s, self.0 as u64);
        s.append("}");
        s
    }

    fn to_haskell_str_p(&self) -> (r: String) {
        wrap_parens(self.to_haskell_str())
    }

    fn is_primitive() -> (r: bool) {
        false
    }
}

impl<T: HaskellDisplay> HaskellDisplay for AsItem<T> {
    open spec fn show(&self) -> Seq<char> {
        "AsItem {unAsItem = "@ + self.0.show() + "}"@
    }

    fn to_haskell_str(&self) -> (r: String) {
        let mut s = String::new();
        s.append("AsItem {unAsItem = ");
        let inner = self.0.to_haskell_str();
        s.append(inner.as_str());
        s.append("}");
        s
    }

    fn to_haskell_str_p(&self) -> (r: String) {
        wrap_parens(self.to_haskell_str())
    }

    fn is_primitive() -> (r: bool) {
        false
    }
}

impl HaskellDisplay for PlutusPurpose {
    open spec fn show(&self) -> Seq<char> {
        match self {
            PlutusPurpose::Spending(ix) => "ConwaySpending ("@ + ix.show() + ")"@,
            PlutusPurpose::Minting(ix) => "ConwayMinting ("@ + ix.show() + ")"@,
            PlutusPurpose::Certifying(ix) => "ConwayCertifying ("@ + ix.show() + ")"@,
            PlutusPurpose::Rewarding(ix) => "ConwayRewarding ("@ + ix.show() + ")"@,
            PlutusPurpose::Voting(ix) => "ConwayVoting ("@ + ix.show() + ")"@,
            PlutusPurpose::Proposing(ix) => "ConwayProposing ("@ + ix.show() + ")"@,
        }
    }

    fn to_haskell_str(&self) -> (r: String) {
        let mut s = String::new();
        match self {
            PlutusPurpose::Spending(ix) => {
                s.append("ConwaySpending (");
                let v = ix.to_haskell_str();
                s.append(v.as_str());
                s.append(")");
            },
            PlutusPurpose::Minting(ix) => {
                s.append("ConwayMinting (");
                let v = ix.to_haskell_str();
                s.append(v.as_str());
                s.append(")");
            },
            PlutusPurpose::Certifying(ix) => {
                s.append("ConwayCertifying (");
                let v = ix.to_haskell_str();
                s.append(v.as_str());
                s.append(")");
            },
            PlutusPurpose::Rewarding(ix) => {
                s.append("ConwayRewarding (");
                let v = ix.to_haskell_str();
                s.append(v.as_str());
                s.append(")");
            },
            PlutusPurpose::Voting(ix) => {
                s.append("ConwayVoting (");
                let v = ix.to_haskell_str();
                s.append(v.as_str());
                s.append(")");
            },
            PlutusPurpose::Proposing(ix) => {
                s.append("ConwayProposing (");
                let v = ix.to_haskell_str();
                s.append(v.as_str());
                s.append(")");
            },
        }
        s
    }

    fn to_haskell_str_p(&self) -> (r: String) {
        wrap_parens(self.to_haskell_str())
    }

    fn is_primitive() -> (r: bool) {
        false
    }
}

impl HaskellDisplay for PurposeAs {
    open spec fn show(&self) -> Seq<char> {
        match self {
            PurposeAs::Ix(i) => dec_digits(*i as nat),
            PurposeAs::Item(b) => b.show(),
        }
    }

    fn to_haskell_str(&self) -> (r: String) {
        match self {
            PurposeAs::Ix(i) => {
                let mut s = String::new();
                append_dec_u64(&mut s, *i);
                assert(s@ =~= self.show());
                s
            },
            PurposeAs::Item(b) => b.to_haskell_str(),
        }
    }

    fn to_haskell_str_p(&self) -> (r: String) {
        wrap_parens(self.to_haskell_str())
    }

    fn is_primitive() -> (r: bool) {
        false
    }
}

impl HaskellDisplay for ConwayPlutusPurpose {
    open spec fn show(&self) -> Seq<char> {
        match self {
            ConwayPlutusPurpose::ConwaySpending(p) => "ConwaySpending ("@ + p.show() + ")"@,
            ConwayPlutusPurpose::ConwayMinting(p) => "ConwayMinting ("@ + p.show() + ")"@,
            ConwayPlutusPurpose::ConwayCertifying(p) => "ConwayCertifying ("@ + p.show() + ")"@,
            ConwayPlutusPurpose::ConwayRewarding(p) => "ConwayRewarding ("@ + p.show() + ")"@,
            ConwayPlutusPurpose::ConwayVoting(p) => "ConwayVoting ("@ + p.show() + ")"@,
            ConwayPlutusPurpose::ConwayProposing(p) => "ConwayProposing ("@ + p.show() + ")"@,
        }
    }

    fn to_haskell_str(&self) -> (r: String) {
        let mut s = String::new();
        match self {
            ConwayPlutusPurpose::ConwaySpending(p) => {
                s.append("ConwaySpending (");
                let v = p.to_haskell_str();
                s.append(v.as_str());
                s.append(")");
            },
            ConwayPlutusPurpose::ConwayMinting(p) => {
                s.append("ConwayMinting (");
                let v = p.to_haskell_str();
                s.append(v.as_str());
                s.append(")");
            },
            ConwayPlutusPurpose::ConwayCertifying(p) => {
                s.append("ConwayCertifying (");
                let v = p.to_haskell_str();
                s.append(v.as_str());
                s.append(")");
            },
            ConwayPlutusPurpose::ConwayRewarding(p) => {
                s.append("ConwayRewarding (");
                let v = p.to_haskell_str();
                s.append(v.as_str());
                s.append(")");
            },
            ConwayPlutusPurpose::ConwayVoting(p) => {
                s.append("ConwayVoting (");
                let v = p.to_haskell_str();
                s.append(v.as_str());
                s.append(")");
            },
            ConwayPlutusPurpose::ConwayProposing(p) => {
                s.append("ConwayProposing (");
                let v = p.to_haskell_str();
                s.append(v.as_str());
                s.append(")");
            },
        }
        s
    }

    fn to_haskell_str_p(&self) -> (r: String) {
        wrap_parens(self.to_haskell_str())
    }

    fn is_primitive() -> (r: bool) {
        false
    }
}

impl HaskellDisplay for TransactionInput {
    open spec fn show(&self) -> Seq<char> {
        "TxIn (TxId {unTxId = SafeHash \""@ + hex_of(self.transaction_id@)
            + "\"}) (TxIx {unTxIx = "@ + dec_digits(self.index as nat) + "})"@
    }

    fn to_haskell_str(&self) -> (r: String) {
        let mut s = String::new();
        s.append("TxIn (TxId {unTxId = SafeHash \"");
        append_hex(&mut s, self.transaction_id.as_slice());
        s.append("\"}) (TxIx {unTxIx = ");
        append_dec_u64(&mut s, self.index);
        s.append("})");
        s
    }

    fn to_haskell_str_p(&self) -> (r: String) {
        wrap_parens(self.to_haskell_str())
    }

    fn is_primitive() -> (r: bool) {
        false
    }
}

/// The label around a governance action's index.
pub open spec fn show_gov_action_ix(index: u32) -> Seq<char> {
    "GovActionIx {unGovActionIx = "@ + dec_digits(index as nat) + "}"@
}

/// Renders the label around a governance action's index.
pub fn display_governance_action_id_index(index: &u32) -> (r: String)
    ensures
        r@ == show_gov_action_ix(*index),
{
    let mut s = String::new();
    s.append("GovActionIx {unGovActionIx = ");
    append_dec_u64(&mut s, *index as u64);
    s.append("}");
    s
}

impl HaskellDisplay for GovActionId {
    open spec fn show(&self) -> Seq<char> {
        "GovActionId {gaidTxId = TxId {unTxId = SafeHash \""@ + hex_of(self.transaction_id@)
            + "\"}, gaidGovActionIx = "@ + show_gov_action_ix(self.action_index) + "}"@
    }

    fn to_haskell_str(&self) -> (r: String) {
        let mut s = String::new();
        s.append("GovActionId {gaidTxId = TxId {unTxId = SafeHash \"");
        append_hex(&mut s, self.transaction_id.as_slice());
        s.append("\"}, gaidGovActionIx = ");
        let ix = display_governance_action_id_index(&self.action_index);
        s.append(ix.as_str());
        s.append("}");
        s
    }

    fn to_haskell_str_p(&self) -> (r: String) {
        wrap_parens(self.to_haskell_str())
    }

    fn is_primitive() -> (r: bool) {
        false
    }
}

/// A bare optional value: the value's rendering, or `None`.
pub open spec fn show_display_option<T: HaskellDisplay>(o: Option<T>) -> Seq<char> {
    match o {
        Some(v) => v.show(),
        None => "None"@,
    }
}

/// Renders a bare optional value.
pub fn display_option<T: HaskellDisplay>(opt: &Option<T>) -> (r: String)
    ensures
        r@ == show_display_option::<T>(*opt),
{
    match opt {
        Some(v) => v.to_haskell_str(),
        None => {
            let mut s = String::new();
            s.append("None");
            s
        },
    }
}

impl HaskellDisplay for ValidityInterval {
    open spec fn show(&self) -> Seq<char> {
        "(ValidityInterval {invalidBefore = "@ + self.invalid_before.show()
            + ", invalidHereafter = "@ + self.invalid_hereafter.show() + "})"@
    }

    fn to_haskell_str(&self) -> (r: String) {
        let mut s = String::new();
        s.append("(ValidityInterval {invalidBefore = ");
        let a = self.invalid_before.to_haskell_str();
        s.append(a.as_str());
        s.append(", invalidHereafter = ");
        let b = self.invalid_hereafter.to_haskell_str();
        s.append(b.as_str());
        s.append("})");
        s
    }

    fn to_haskell_str_p(&self) -> (r: String) {
        wrap_parens(self.to_haskell_str())
    }

    fn is_primitive() -> (r: bool) {
        false
    }
}

impl ValidityInterval {
    /// The record form the UTxO failure rendering embeds.
    pub open spec fn show_record(&self) -> Seq<char> {
        "ValidityInterval { invalid_before: "@ + show_display_option::<SlotNo>(self.invalid_before)
            + ", invalid_hereafter: "@ + show_display_option::<SlotNo>(self.invalid_hereafter)
            + " }"@
    }

    /// Renders the record form.
    pub fn to_record_str(&self) -> (r: String)
        ensures
            r@ == self.show_record(),
    {
        let mut s = String::new();
        s.append("ValidityInterval { invalid_before: ");
        let a = display_option(&self.invalid_before);
        s.append(a.as_str());
        s.append(", invalid_hereafter: ");
        let b = display_option(&self.invalid_hereafter);
        s.append(b.as_str());
        s.append(" }");
        s
    }
}

impl HaskellDisplay for Voter {
    open spec fn show(&self) -> Seq<char> {
        match self {
            Voter::ConstitutionalCommitteeKey(h) => "CommitteeVoter (KeyHashObj (KeyHash {unKeyHash = \""@
                + hex_of(h@) + "\"}))"@,
            Voter::ConstitutionalCommitteeScript(h) => "CommitteeVoter (ScriptHashObj (ScriptHash \""@
                + hex_of(h@) + "\"))"@,
            Voter::DRepKey(h) => "DRepVoter (KeyHashObj (KeyHash {unKeyHash = \""@ + hex_of(h@)
                + "\"}))"@,
            Voter::DRepScript(h) => "DRepVoter (ScriptHashObj (ScriptHash \""@ + hex_of(h@)
                + "\"))"@,
            Voter::StakePoolKey(h) => "StakePoolVoter (KeyHash {unKeyHash = \""@ + hex_of(h@)
                + "\"})"@,
        }
    }

    fn to_haskell_str(&self) -> (r: String) {
        let mut s = String::new();
        match self {
            Voter::ConstitutionalCommitteeKey(h) => {
                s.append("CommitteeVoter (KeyHashObj (KeyHash {unKeyHash = \"");
                append_hex(&mut s, h.as_slice());
                s.append("\"}))");
            },
            Voter::ConstitutionalCommitteeScript(h) => {
                s.append("CommitteeVoter (ScriptHashObj (ScriptHash \"");
                append_hex(&mut s, h.as_slice());
                s.append("\"))");
            },
            Voter::DRepKey(h) => {
                s.append("DRepVoter (KeyHashObj (KeyHash {unKeyHash = \"");
                append_hex(&mut s, h.as_slice());
                s.append("\"}))");
            },
            Voter::DRepScript(h) => {
                s.append("DRepVoter (ScriptHashObj (ScriptHash \"");
                append_hex(&mut s, h.as_slice());
                s.append("\"))");
            },
            Voter::StakePoolKey(h) => {
                s.append("StakePoolVoter (KeyHash {unKeyHash = \"");
                append_hex(&mut s, h.as_slice());
                s.append("\"})");
            },
        }
        s
    }

    fn to_haskell_str_p(&self) -> (r: String) {
        wrap_parens(self.to_haskell_str())
    }

    fn is_primitive() -> (r: bool) {
        false
    }
}

impl HaskellDisplay for Anchor {
    open spec fn show(&self) -> Seq<char> {
        "Anchor {anchorUrl = Url {urlToText = \""@ + self.url@ + "\"}, anchorDataHash = SafeHash \""@
            + hex_of(self.content_hash@) + "\"}"@
    }

    fn to_haskell_str(&self) -> (r: String) {
        let mut s = String::new();
        s.append("Anchor {anchorUrl = Url {urlToText = \"");
        s.append(self.url.as_str());
        s.append("\"}, anchorDataHash = SafeHash \"");
        append_hex(&mut s, self.content_hash.as_slice());
        s.append("\"}");
        s
    }

    fn to_haskell_str_p(&self) -> (r: String) {
        wrap_parens(self.to_haskell_str())
    }

    fn is_primitive() -> (r: bool) {
        false
    }
}

impl HaskellDisplay for Constitution {
    open spec fn show(&self) -> Seq<char> {
        "Constitution {constitutionAnchor = "@ + self.anchor.show() + ", constitutionScript = "@
            + self.guardrail_script.show() + "}"@
    }

    fn to_haskell_str(&self) -> (r: String) {
        let mut s = String::new();
        s.append("Constitution {constitutionAnchor = ");
        let a = self.anchor.to_haskell_str();
        s.append(a.as_str());
        s.append(", constitutionScript = ");
        let b = self.guardrail_script.to_haskell_str();
        s.append(b.as_str());
        s.append("}");
        s
    }

    fn to_haskell_str_p(&self) -> (r: String) {
        wrap_parens(self.to_haskell_str())
    }

    fn is_primitive() -> (r: bool) {
        false
    }
}

impl HaskellDisplay for GovAction {
    open spec fn show(&self) -> Seq<char> {
        match self {
            GovAction::ParameterChange(a, b, c) => "ParameterChange "@ + a.show_p() + " "@
                + b.show() + " "@ + c.show(),
            GovAction::HardForkInitiation(a, b) => "HardForkInitiation "@ + a.show_p() + " ("@
                + b.show() + ")"@,
            GovAction::TreasuryWithdrawals(kvs, b) => "TreasuryWithdrawals "@ + parens(
                show_fromlist(kvs@),
            ) + " "@ + b.show_p(),
            GovAction::NoConfidence(a) => "NoConfidence "@ + a.show_p(),
            GovAction::UpdateCommittee(a, b, c, d) => "UpdateCommittee "@ + a.show_p() + " "@
                + b.show_p() + " "@ + parens(show_fromlist(c@)) + " "@ + d.show_p(),
            GovAction::NewConstitution(a, c) => "NewConstitution ("@ + a.show() + ") ("@ + c.show()
                + ")"@,
            GovAction::Information => "InfoAction"@,
        }
    }

    open spec fn show_p(&self) -> Seq<char> {
        match self {
            GovAction::Information => "InfoAction"@,
            _ => parens(self.show()),
        }
    }

    fn to_haskell_str(&self) -> (r: String) {
        let mut s = String::new();
        match self {
            GovAction::ParameterChange(a, b, c) => {
                s.append("ParameterChange ");
                let x = a.to_haskell_str_p();
                s.append(x.as_str());
                s.append(" ");
                let y = b.to_haskell_str();
                s.append(y.as_str());
                s.append(" ");
                let z = c.to_haskell_str();
                s.append(z.as_str());
                assert(s@ =~= self.show());
            },
            GovAction::HardForkInitiation(a, b) => {
                s.append("HardForkInitiation ");
                let x = a.to_haskell_str_p();
                s.append(x.as_str());
                s.append(" (");
                let y = b.to_haskell_str();
                s.append(y.as_str());
                s.append(")");
                assert(s@ =~= self.show());
            },
            GovAction::TreasuryWithdrawals(kvs, b) => {
                s.append("TreasuryWithdrawals ");
                push_char(&mut s, '(');
                append_fromlist(&mut s, kvs);
                push_char(&mut s, ')');
                s.append(" ");
                let y = b.to_haskell_str_p();
                s.append(y.as_str());
                assert(s@ =~= self.show());
            },
            GovAction::NoConfidence(a) => {
                s.append("NoConfidence ");
                let x = a.to_haskell_str_p();
                s.append(x.as_str());
                assert(s@ =~= self.show());
            },
            GovAction::UpdateCommittee(a, b, c, d) => {
                s.append("UpdateCommittee ");
                let x = a.to_haskell_str_p();
                s.append(x.as_str());
                s.append(" ");
                let y = b.to_haskell_str_p();
                s.append(y.as_str());
                s.append(" ");
                push_char(&mut s, '(');
                append_fromlist(&mut s, c);
                push_char(&mut s, ')');
                s.append(" ");
                let z = d.to_haskell_str_p();
                s.append(z.as_str());
                assert(s@ =~= self.show());
            },
            GovAction::NewConstitution(a, c) => {
                s.append("NewConstitution (");
                let x = a.to_haskell_str();
                s.append(x.as_str());
                s.append(") (");
                let y = c.to_haskell_str();
                s.append(y.as_str());
                s.append(")");
                assert(s@ =~= self.show());
            },
            GovAction::Information => {
                s.append("InfoAction");
            },
        }
        s
    }

    fn to_haskell_str_p(&self) -> (r: String) {
        match self {
            GovAction::Information => self.to_haskell_str(),
            _ => wrap_parens(self.to_haskell_str()),
        }
    }

    fn is_primitive() -> (r: bool) {
        false
    }
}

impl HaskellDisplay for ProposalProcedure {
    open spec fn show(&self) -> Seq<char> {
        "ProposalProcedure {pProcDeposit = Coin "@ + dec_digits(self.deposit as nat)
            + ", pProcReturnAddr = "@ + self.reward_account.show() + ", pProcGovAction = "@
            + self.gov_action.show() + ", pProcAnchor = "@ + self.anchor.show() + "}"@
    }

    fn to_haskell_str(&self) -> (r: String) {
        let mut s = String::new();
        s.append("ProposalProcedure {pProcDeposit = Coin ");
        append_dec_u64(&mut s, self.deposit);
        s.append(", pProcReturnAddr = ");
        let a = self.reward_account.to_haskell_str();
        s.append(a.as_str());
        s.append(", pProcGovAction = ");
        let b = self.gov_action.to_haskell_str();
        s.append(b.as_str());
        s.append(", pProcAnchor = ");
        let c = self.anchor.to_haskell_str();
        s.append(c.as_str());
        s.append("}");
        s
    }

    fn to_haskell_str_p(&self) -> (r: String) {
        wrap_parens(self.to_haskell_str())
    }

    fn is_primitive() -> (r: bool) {
        false
    }
}

} // verus!
