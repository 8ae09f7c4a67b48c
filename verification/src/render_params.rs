//! Rendering of protocol parameters and execution budgets.
//!
//! Optional fields follow the reference convention: a present plain
//! number renders bare after `SJust`, a present compound value in
//! parentheses, and some fields carry their own wrapper label.

use vstd::prelude::*;
use crate::haskell_types::{
    RationalNumber, ExUnits, DisplayExUnits, ExUnitPrices, PoolVotingThresholds,
    DRepVotingThresholds, CostModels, ProtocolParamUpdate, ProtocolVersion,
};
use crate::haskell_display::{HaskellDisplay, parens, wrap_parens};
use crate::numstr::{dec_digits, append_dec_u64};

verus! {

impl HaskellDisplay for RationalNumber {
    open spec fn show(&self) -> Seq<char> {
        dec_digits(self.numerator as nat) + " % "@ + dec_digits(self.denominator as nat)
    }

    fn to_haskell_str(&self) -> (r: String) {
        let mut s = String::new();
        append_dec_u64(&mut s, self.numerator);
        s.append(" % ");
        append_dec_u64(&mut s, self.denominator);
        s
    }

    fn to_haskell_str_p(&self) -> (r: String) {
        wrap_parens(self.to_haskell_str())
    }

    fn is_primitive() -> (r: bool) {
        false
    }
}

impl HaskellDisplay for ExUnits {
    open spec fn show(&self) -> Seq<char> {
        "WrapExUnits {unWrapExUnits = ExUnits' {exUnitsMem' = "@ + dec_digits(self.mem as nat)
            + ", exUnitsSteps' = "@ + dec_digits(self.steps as nat) + "}}"@
    }

    fn to_haskell_str(&self) -> (r: String) {
        let mut s = String::new();
        s.append("WrapExUnits {unWrapExUnits = ExUnits' {exUnitsMem' = ");
        append_dec_u64(&mut s, self.mem);
        s.append(", exUnitsSteps' = ");
        append_dec_u64(&mut s, self.steps);
        s.append("}}");
        s
    }

    fn to_haskell_str_p(&self) -> (r: String) {
        wrap_parens(self.to_haskell_str())
    }

    fn is_primitive() -> (r: bool) {
        false
    }
}

impl HaskellDisplay for DisplayExUnits {
    open spec fn show(&self) -> Seq<char> {
        "ExUnits { mem: "@ + dec_digits(self.0.mem as nat) + ", steps: "@ + dec_digits(
            self.0.steps as nat,
        ) + " }"@
    }

    fn to_haskell_str(&self) -> (r: String) {
        let mut s = String::new();
        s.append("ExUnits { mem: ");
        append_dec_u64(&mut s, self.0.mem);
        s.append(", steps: ");
        append_dec_u64(&mut s, self.0.steps);
        s.append(" }");
        s
    }

    fn to_haskell_str_p(&self) -> (r: String) {
        wrap_parens(self.to_haskell_str())
    }

    fn is_primitive() -> (r: bool) {
        false
    }
}

impl HaskellDisplay for ExUnitPrices {
    open spec fn show(&self) -> Seq<char> {
        "Prices {prMem = "@ + self.mem_price.show() + ", prSteps = "@ + self.step_price.show()
            + "}"@
    }

    fn to_haskell_str(&self) -> (r: String) {
        let mut s = String::new();
        s.append("Prices {prMem = ");
        let a = self.mem_price.to_haskell_str();
        s.append(a.as_str());
        s.append(", prSteps = ");
        let b = self.step_price.to_haskell_str();
        s.append(b.as_str());
        s.append("}");
        s
    }

    fn to_haskell_str_p(&self) -> (r: String) {
        wrap_parens(self.to_haskell_str())
    }

    fn is_primitive() -> (r: bool) {
        false
    }
}

impl HaskellDisplay for PoolVotingThresholds {
    open spec fn show(&self) -> Seq<char> {
        "PoolVotingThresholds {pvtMotionNoConfidence = "@ + self.motion_no_confidence.show()
            + ", pvtCommitteeNormal = "@ + self.committee_normal.show()
            + ", pvtCommitteeNoConfidence = "@ + self.committee_no_confidence.show()
            + ", pvtHardForkInitiation = "@ + self.hard_fork_initiation.show()
            + ", pvtPPSecurityGroup = "@ + self.security_voting_threshold.show() + "}"@
    }

    fn to_haskell_str(&self) -> (r: String) {
        let mut s = String::new();
        s.append("PoolVotingThresholds {pvtMotionNoConfidence = ");
        let a = self.motion_no_confidence.to_haskell_str();
        s.append(a.as_str());
        s.append(", pvtCommitteeNormal = ");
        let b = self.committee_normal.to_haskell_str();
        s.append(b.as_str());
        s.append(", pvtCommitteeNoConfidence = ");
        let c = self.committee_no_confidence.to_haskell_str();
        s.append(c.as_str());
        s.append(", pvtHardForkInitiation = ");
        let d = self.hard_fork_initiation.to_haskell_str();
        s.append(d.as_str());
        s.append(", pvtPPSecurityGroup = ");
        let e = self.security_voting_threshold.to_haskell_str();
        s.append(e.as_str());
        s.append("}");
        s
    }

    fn to_haskell_str_p(&self) -> (r: String) {
        wrap_parens(self.to_haskell_str())
    }

    fn is_primitive() -> (r: bool) {
        false
    }
}

impl HaskellDisplay for DRepVotingThresholds {
    open spec fn show(&self) -> Seq<char> {
        "DRepVotingThresholds {dvtMotionNoConfidence = "@ + self.motion_no_confidence.show()
            + ", dvtCommitteeNormal = "@ + self.committee_normal.show()
            + ", dvtCommitteeNoConfidence = "@ + self.committee_no_confidence.show()
            + ", dvtUpdateToConstitution = "@ + self.update_constitution.show()
            + ", dvtHardForkInitiation = "@ + self.hard_fork_initiation.show()
            + ", dvtPPNetworkGroup = "@ + self.pp_network_group.show()
            + ", dvtPPEconomicGroup = "@ + self.pp_economic_group.show()
            + ", dvtPPTechnicalGroup = "@ + self.pp_technical_group.show() + ", dvtPPGovGroup = "@
            + self.pp_governance_group.show() + ", dvtTreasuryWithdrawal = "@
            + self.treasury_withdrawal.show() + "}"@
    }

    fn to_haskell_str(&self) -> (r: String) {
        let mut s = String::new();
        s.append("DRepVotingThresholds {dvtMotionNoConfidence = ");
        let a = self.motion_no_confidence.to_haskell_str();
        s.append(a.as_str());
        s.append(", dvtCommitteeNormal = ");
        let b = self.committee_normal.to_haskell_str();
        s.append(b.as_str());
        s.append(", dvtCommitteeNoConfidence = ");
        let c = self.committee_no_confidence.to_haskell_str();
        s.append(c.as_str());
        s.append(", dvtUpdateToConstitution = ");
        let d = self.update_constitution.to_haskell_str();
        s.append(d.as_str());
        s.append(", dvtHardForkInitiation = ");
        let e = self.hard_fork_initiation.to_haskell_str();
        s.append(e.as_str());
        s.append(", dvtPPNetworkGroup = ");
        let f = self.pp_network_group.to_haskell_str();
        s.append(f.as_str());
        s.append(", dvtPPEconomicGroup = ");
        let g = self.pp_economic_group.to_haskell_str();
        s.append(g.as_str());
        s.append(", dvtPPTechnicalGroup = ");
        let h = self.pp_technical_group.to_haskell_str();
        s.append(h.as_str());
        s.append(", dvtPPGovGroup = ");
        let i = self.pp_governance_group.to_haskell_str();
        s.append(i.as_str());
        s.append(", dvtTreasuryWithdrawal = ");
        let j = self.treasury_withdrawal.to_haskell_str();
        s.append(j.as_str());
        s.append("}");
        s
    }

    fn to_haskell_str_p(&self) -> (r: String) {
        wrap_parens(self.to_haskell_str())
    }

    fn is_primitive() -> (r: bool) {
        false
    }
}

impl HaskellDisplay for CostModels {
    open spec fn show(&self) -> Seq<char> {
        "CostModels { ... }"@
    }

    fn to_haskell_str(&self) -> (r: String) {
        let mut s = String::new();
        s.append("CostModels { ... }");
        s
    }

    fn to_haskell_str_p(&self) -> (r: String) {
        wrap_parens(self.to_haskell_str())
    }

    fn is_primitive() -> (r: bool) {
        false
    }
}

impl HaskellDisplay for ProtocolVersion {
    open spec fn show(&self) -> Seq<char> {
        "ProtVer {pvMajor = Version "@ + dec_digits(self.0 as nat) + ", pvMinor = "@ + dec_digits(
            self.1 as nat,
        ) + "}"@
    }

    fn to_haskell_str(&self) -> (r: String) {
        let mut s = String::new();
        s.append("ProtVer {pvMajor = Version ");
        append_dec_u64(&mut s, self.0);
        s.append(", pvMinor = ");
        append_dec_u64(&mut s, self.1);
        s.append("}");
        s
    }

    fn to_haskell_str_p(&self) -> (r: String) {
        wrap_parens(self.to_haskell_str())
    }

    fn is_primitive() -> (r: bool) {
        false
    }
}

/// A present plain number after `SJust`, with no parentheses.
pub open spec fn show_opt_u64(o: Option<u64>) -> Seq<char> {
    match o {
        Some(v) => "SJust "@ + dec_digits(v as nat),
        None => "SNothing"@,
    }
}

/// Appends the plain-number optional form.
pub fn append_opt_u64(s: &mut String, o: &Option<u64>)
    ensures
        final(s)@ == old(s)@ + show_opt_u64(*o),
{
    match o {
        Some(v) => {
            s.append("SJust ");
            append_dec_u64(s, *v);
        },
        None => {
            s.append("SNothing");
        },
    }
}

/// A present coin after `SJust`, under the `Coin` label.
pub open spec fn show_opt_coin(o: Option<u64>) -> Seq<char> {
    match o {
        Some(v) => "SJust (Coin "@ + dec_digits(v as nat) + ")"@,
        None => "SNothing"@,
    }
}

/// Appends the optional-coin form.
pub fn append_opt_coin(s: &mut String, o: &Option<u64>)
    ensures
        final(s)@ == old(s)@ + show_opt_coin(*o),
{
    match o {
        Some(v) => {
            s.append("SJust (Coin ");
            append_dec_u64(s, *v);
            s.append(")");
        },
        None => {
            s.append("SNothing");
        },
    }
}

/// A present epoch count after `SJust`, under the `EpochInterval` label.
pub open spec fn show_opt_epoch_interval(o: Option<u64>) -> Seq<char> {
    match o {
        Some(v) => "SJust (EpochInterval "@ + dec_digits(v as nat) + ")"@,
        None => "SNothing"@,
    }
}

/// Appends the optional-epoch-interval form.
pub fn append_opt_epoch_interval(s: &mut String, o: &Option<u64>)
    ensures
        final(s)@ == old(s)@ + show_opt_epoch_interval(*o),
{
    match o {
        Some(v) => {
            s.append("SJust (EpochInterval ");
            append_dec_u64(s, *v);
            s.append(")");
        },
        None => {
            s.append("SNothing");
        },
    }
}

/// A present compound value after `SJust`, in parentheses.
pub open spec fn show_opt<T: HaskellDisplay>(o: Option<T>) -> Seq<char> {
    match o {
        Some(v) => "SJust "@ + parens(v.show()),
        None => "SNothing"@,
    }
}

/// Appends the parenthesised optional form.
pub fn append_opt<T: HaskellDisplay>(s: &mut String, o: &Option<T>)
    ensures
        final(s)@ == old(s)@ + show_opt::<T>(*o),
{
    match o {
        Some(v) => {
            s.append("SJust ");
            let inner = wrap_parens(v.to_haskell_str());
            s.append(inner.as_str());
        },
        None => {
            s.append("SNothing");
        },
    }
}

impl HaskellDisplay for ProtocolParamUpdate {
    open spec fn show(&self) -> Seq<char> {
        "(PParamsUpdate (ConwayPParams {cppMinFeeA = "@ + show_opt_coin(self.minfee_a)
            + ", cppMinFeeB = "@ + show_opt_coin(self.minfee_b) + ", cppMaxBBSize = "@
            + show_opt_u64(self.max_block_body_size) + ", cppMaxTxSize = "@ + show_opt_u64(
            self.max_transaction_size,
        ) + ", cppMaxBHSize = "@ + show_opt_u64(self.max_block_header_size) + ", cppKeyDeposit = "@
            + show_opt_coin(self.key_deposit) + ", cppPoolDeposit = "@ + show_opt_coin(
            self.pool_deposit,
        ) + ", cppEMax = "@ + show_opt_epoch_interval(self.maximum_epoch) + ", cppNOpt = "@
            + show_opt_u64(self.desired_number_of_stake_pools) + ", cppA0 = "@ + show_opt(
            self.pool_pledge_influence,
        ) + ", cppRho = "@ + show_opt(self.expansion_rate) + ", cppTau = "@ + show_opt(
            self.treasury_growth_rate,
        ) + ", cppProtocolVersion = NoUpdate, cppMinPoolCost = "@ + show_opt_coin(
            self.min_pool_cost,
        ) + ", cppCoinsPerUTxOByte = "@ + show_opt_coin(self.ada_per_utxo_byte)
            + ", cppCostModels = "@ + show_opt(self.cost_models_for_script_languages)
            + ", cppPrices = "@ + show_opt(self.execution_costs) + ", cppMaxTxExUnits = "@
            + show_opt(self.max_tx_ex_units) + ", cppMaxBlockExUnits = "@ + show_opt(
            self.max_block_ex_units,
        ) + ", cppMaxValSize = "@ + show_opt_u64(self.max_value_size)
            + ", cppCollateralPercentage = "@ + show_opt_u64(self.collateral_percentage)
            + ", cppMaxCollateralInputs = "@ + show_opt_u64(self.max_collateral_inputs)
            + ", cppPoolVotingThresholds = "@ + show_opt(self.pool_voting_thresholds)
            + ", cppDRepVotingThresholds = "@ + show_opt(self.drep_voting_thresholds)
            + ", cppCommitteeMinSize = "@ + show_opt_u64(self.min_committee_size)
            + ", cppCommitteeMaxTermLength = "@ + show_opt_epoch_interval(self.committee_term_limit)
            + ", cppGovActionLifetime = "@ + show_opt_u64(self.governance_action_validity_period)
            + ", cppGovActionDeposit = "@ + show_opt_coin(self.governance_action_deposit)
            + ", cppDRepDeposit = "@ + show_opt_coin(self.drep_deposit) + ", cppDRepActivity = "@
            + show_opt_epoch_interval(self.drep_inactivity_period)
            + ", cppMinFeeRefScriptCostPerByte = "@ + show_opt(self.minfee_refscript_cost_per_byte)
            + "}))"@
    }

    fn to_haskell_str(&self) -> (r: String) {
        let mut s = String::new();
        s.append("(PParamsUpdate (ConwayPParams {cppMinFeeA = ");
        append_opt_coin(&mut s, &self.minfee_a);
        s.append(", cppMinFeeB = ");
        append_opt_coin(&mut s, &self.minfee_b);
        s.append(", cppMaxBBSize = ");
        append_opt_u64(&mut s, &self.max_block_body_size);
        s.append(", cppMaxTxSize = ");
        append_opt_u64(&mut s, &self.max_transaction_size);
        s.append(", cppMaxBHSize = ");
        append_opt_u64(&mut s, &self.max_block_header_size);
        s.append(", cppKeyDeposit = ");
        append_opt_coin(&mut s, &self.key_deposit);
        s.append(", cppPoolDeposit = ");
        append_opt_coin(&mut s, &self.pool_deposit);
        s.append(", cppEMax = ");
        append_opt_epoch_interval(&mut s, &self.maximum_epoch);
        s.append(", cppNOpt = ");
        append_opt_u64(&mut s, &self.desired_number_of_stake_pools);
        s.append(", cppA0 = ");
        append_opt(&mut s, &self.pool_pledge_influence);
        s.append(", cppRho = ");
        append_opt(&mut s, &self.expansion_rate);
        s.append(", cppTau = ");
        append_opt(&mut s, &self.treasury_growth_rate);
        s.append(", cppProtocolVersion = NoUpdate, cppMinPoolCost = ");
        append_opt_coin(&mut s, &self.min_pool_cost);
        s.append(", cppCoinsPerUTxOByte = ");
        append_opt_coin(&mut s, &self.ada_per_utxo_byte);
        s.append(", cppCostModels = ");
        append_opt(&mut s, &self.cost_models_for_script_languages);
        s.append(", cppPrices = ");
        append_opt(&mut s, &self.execution_costs);
        s.append(", cppMaxTxExUnits = ");
        append_opt(&mut s, &self.max_tx_ex_units);
        s.append(", cppMaxBlockExUnits = ");
        append_opt(&mut s, &self.max_block_ex_units);
        s.append(", cppMaxValSize = ");
        append_opt_u64(&mut s, &self.max_value_size);
        s.append(", cppCollateralPercentage = ");
        append_opt_u64(&mut s, &self.collateral_percentage);
        s.append(", cppMaxCollateralInputs = ");
        append_opt_u64(&mut s, &self.max_collateral_inputs);
        s.append(", cppPoolVotingThresholds = ");
        append_opt(&mut s, &self.pool_voting_thresholds);
        s.append(", cppDRepVotingThresholds = ");
        append_opt(&mut s, &self.drep_voting_thresholds);
        s.append(", cppCommitteeMinSize = ");
        append_opt_u64(&mut s, &self.min_committee_size);
        s.append(", cppCommitteeMaxTermLength = ");
        append_opt_epoch_interval(&mut s, &self.committee_term_limit);
        s.append(", cppGovActionLifetime = ");
        append_opt_u64(&mut s, &self.governance_action_validity_period);
        s.append(", cppGovActionDeposit = ");
        append_opt_coin(&mut s, &self.governance_action_deposit);
        s.append(", cppDRepDeposit = ");
        append_opt_coin(&mut s, &self.drep_deposit);
        s.append(", cppDRepActivity = ");
        append_opt_epoch_interval(&mut s, &self.drep_inactivity_period);
        s.append(", cppMinFeeRefScriptCostPerByte = ");
        append_opt(&mut s, &self.minfee_refscript_cost_per_byte);
        s.append("}))");
        s
    }

    fn to_haskell_str_p(&self) -> (r: String) {
        wrap_parens(self.to_haskell_str())
    }

    fn is_primitive() -> (r: bool) {
        false
    }
}

} // verus!
