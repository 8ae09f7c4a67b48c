//! Structured decode failures.
//!
//! A malformed payload is never papered over: every failure names the
//! enum context it arose in and, for an unknown discriminant, the value
//! that was read.  The published discriminant table of every context
//! lives here as one spec-level function.

use vstd::prelude::*;
use crate::numstr::{dec_digits, append_dec_u64};

verus! {

/// The enum context a decode failure arose in.
#[derive(Clone, Copy, Debug, PartialEq, Eq, Structural)]
pub enum DecodeContext {
    ApplyTxPredError,
    ShelleyPoolPredFailure,
    ConwayUtxosPredFailure,
    ConwayUtxoWPredFailure,
    ConwayUtxoPredFailure,
    ConwayGovPredFailure,
    ConwayCertsPredFailure,
    ConwayPlutusPurpose,
    ConwayCertPredFailure,
    ConwayGovCertPredFailure,
    ConwayDelegPredFailure,
    TagMismatchDescription,
    FailureDescription,
    Network,
    Credential,
    ShelleyBasedEra,
    PlutusPurpose,
    PurposeAs,
    BabbageTxOut,
    EraScript,
    Timelock,
    CustomSet258,
    CborBytes,
    DatumEnum,
    RewardAccount,
    Voter,
    GovAction,
    Certificate,
}

/// The discriminants the wire protocol publishes for each context.
/// Decoding any value outside this set is a hard failure.
pub open spec fn known_discriminant(ctx: DecodeContext, d: u64) -> bool {
    match ctx {
        DecodeContext::ApplyTxPredError => 1 <= d <= 7,
        DecodeContext::ShelleyPoolPredFailure => d == 0 || d == 1 || d == 3 || d == 4 || d == 5,
        DecodeContext::ConwayUtxosPredFailure => d <= 1,
        DecodeContext::ConwayUtxoWPredFailure => d <= 17,
        DecodeContext::ConwayUtxoPredFailure => d <= 22,
        DecodeContext::ConwayGovPredFailure => d <= 17,
        DecodeContext::ConwayCertsPredFailure => d <= 1,
        DecodeContext::ConwayPlutusPurpose => d <= 5,
        DecodeContext::ConwayCertPredFailure => 1 <= d <= 3,
        DecodeContext::ConwayGovCertPredFailure => d <= 5,
        DecodeContext::ConwayDelegPredFailure => 1 <= d <= 6,
        DecodeContext::TagMismatchDescription => d <= 1,
        DecodeContext::FailureDescription => d == 1,
        DecodeContext::Network => d <= 1,
        DecodeContext::Credential => d <= 1,
        DecodeContext::ShelleyBasedEra => 1 <= d <= 6,
        DecodeContext::PlutusPurpose => d <= 5,
        DecodeContext::PurposeAs => false,
        DecodeContext::BabbageTxOut => false,
        DecodeContext::EraScript => d <= 3,
        DecodeContext::Timelock => d <= 5,
        DecodeContext::CustomSet258 => false,
        DecodeContext::CborBytes => false,
        DecodeContext::DatumEnum => d <= 1,
        DecodeContext::RewardAccount => false,
        DecodeContext::Voter => d <= 4,
        DecodeContext::GovAction => d <= 6,
        DecodeContext::Certificate => d <= 17,
    }
}

/// A structured decode failure.
#[derive(Clone, Copy, Debug)]
pub enum DecodeError {
    /// A discriminant outside the published set of its context.
    UnknownDiscriminant { context: DecodeContext, value: u64 },
    /// A wire tag other than the one the context demands.
    UnexpectedWireTag { context: DecodeContext, tag: u64 },
    /// A value of the wrong wire type for its position.
    UnexpectedType { context: DecodeContext },
    /// A compound value with a field count no variant defines.
    UnexpectedFieldCount { context: DecodeContext, count: u64 },
    /// Self-wrapping values nested beyond the defensive depth bound.
    NestingTooDeep,
    /// The payload ended before the value did.
    Truncated,
    /// A text value that is not valid UTF-8.
    InvalidText,
}

/// The name a context is reported under.
pub open spec fn spec_context_name(ctx: DecodeContext) -> Seq<char> {
    match ctx {
        DecodeContext::ApplyTxPredError => "ApplyTxPredError"@,
        DecodeContext::ShelleyPoolPredFailure => "ShelleyPoolPredFailure"@,
        DecodeContext::ConwayUtxosPredFailure => "ConwayUtxosPredFailure"@,
        DecodeContext::ConwayUtxoWPredFailure => "ConwayUtxoWPredFailure"@,
        DecodeContext::ConwayUtxoPredFailure => "ConwayUtxoPredFailure"@,
        DecodeContext::ConwayGovPredFailure => "ConwayGovPredFailure"@,
        DecodeContext::ConwayCertsPredFailure => "ConwayCertsPredFailure"@,
        DecodeContext::ConwayPlutusPurpose => "ConwayPlutusPurpose"@,
        DecodeContext::ConwayCertPredFailure => "ConwayCertPredFailure"@,
        DecodeContext::ConwayGovCertPredFailure => "ConwayGovCertPredFailure"@,
        DecodeContext::ConwayDelegPredFailure => "ConwayDelegPredFailure"@,
        DecodeContext::TagMismatchDescription => "TagMismatchDescription"@,
        DecodeContext::FailureDescription => "FailureDescription"@,
        DecodeContext::Network => "Network"@,
        DecodeContext::Credential => "Credential"@,
        DecodeContext::ShelleyBasedEra => "ShelleyBasedEra"@,
        DecodeContext::PlutusPurpose => "PlutusPurpose"@,
        DecodeContext::PurposeAs => "PurposeAs"@,
        DecodeContext::BabbageTxOut => "BabbageTxOut"@,
        DecodeContext::EraScript => "EraScript"@,
        DecodeContext::Timelock => "Timelock"@,
        DecodeContext::CustomSet258 => "CustomSet258"@,
        DecodeContext::CborBytes => "CborBytes"@,
        DecodeContext::DatumEnum => "DatumEnum"@,
        DecodeContext::RewardAccount => "RewardAccount"@,
        DecodeContext::Voter => "Voter"@,
        DecodeContext::GovAction => "GovAction"@,
        DecodeContext::Certificate => "Certificate"@,
    }
}

/// The wording each context reports an unknown discriminant with.
pub open spec fn spec_unknown_noun(ctx: DecodeContext) -> Seq<char> {
    match ctx {
        DecodeContext::ConwayGovPredFailure => "unknown era while decoding "@,
        DecodeContext::ShelleyBasedEra => "unknown era while decoding "@,
        DecodeContext::ConwayDelegPredFailure => "unknown error code while decoding "@,
        DecodeContext::Network => "unknown network while decoding "@,
        DecodeContext::Credential => "unknown tag while decoding "@,
        DecodeContext::PlutusPurpose => "unknown purpose while decoding "@,
        DecodeContext::EraScript => "unknown index while decoding "@,
        DecodeContext::Timelock => "unknown index while decoding "@,
        _ => "unknown error tag while decoding "@,
    }
}

/// The diagnostic line of a decode failure.
pub open spec fn spec_error_message(e: DecodeError) -> Seq<char> {
    match e {
        DecodeError::UnknownDiscriminant { context, value } => spec_unknown_noun(context)
            + spec_context_name(context) + ": "@ + dec_digits(value as nat),
        DecodeError::UnexpectedWireTag { context, tag } => "unexpected tag while decoding "@
            + spec_context_name(context) + ": "@ + dec_digits(tag as nat),
        DecodeError::UnexpectedType { context } => "unknown datatype while decoding "@
            + spec_context_name(context),
        DecodeError::UnexpectedFieldCount { context, count } => {
            "unexpected number of fields while decoding "@ + spec_context_name(context) + ": "@
                + dec_digits(count as nat)
        },
        DecodeError::NestingTooDeep => "nesting too deep"@,
        DecodeError::Truncated => "unexpected end of input"@,
        DecodeError::InvalidText => "invalid text encoding"@,
    }
}

/// Renders the name a context is reported under.
pub fn context_name(ctx: &DecodeContext) -> (r: String)
    ensures
        r@ == spec_context_name(*ctx),
{
    let mut s = String::new();
    match ctx {
        DecodeContext::ApplyTxPredError => s.append("ApplyTxPredError"),
        DecodeContext::ShelleyPoolPredFailure => s.append("ShelleyPoolPredFailure"),
        DecodeContext::ConwayUtxosPredFailure => s.append("ConwayUtxosPredFailure"),
        DecodeContext::ConwayUtxoWPredFailure => s.append("ConwayUtxoWPredFailure"),
        DecodeContext::ConwayUtxoPredFailure => s.append("ConwayUtxoPredFailure"),
        DecodeContext::ConwayGovPredFailure => s.append("ConwayGovPredFailure"),
        DecodeContext::ConwayCertsPredFailure => s.append("ConwayCertsPredFailure"),
        DecodeContext::ConwayPlutusPurpose => s.append("ConwayPlutusPurpose"),
        DecodeContext::ConwayCertPredFailure => s.append("ConwayCertPredFailure"),
        DecodeContext::ConwayGovCertPredFailure => s.append("ConwayGovCertPredFailure"),
        DecodeContext::ConwayDelegPredFailure => s.append("ConwayDelegPredFailure"),
        DecodeContext::TagMismatchDescription => s.append("TagMismatchDescription"),
        DecodeContext::FailureDescription => s.append("FailureDescription"),
        DecodeContext::Network => s.append("Network"),
        DecodeContext::Credential => s.append("Credential"),
        DecodeContext::ShelleyBasedEra => s.append("ShelleyBasedEra"),
        DecodeContext::PlutusPurpose => s.append("PlutusPurpose"),
        DecodeContext::PurposeAs => s.append("PurposeAs"),
        DecodeContext::BabbageTxOut => s.append("BabbageTxOut"),
        DecodeContext::EraScript => s.append("EraScript"),
        DecodeContext::Timelock => s.append("Timelock"),
        DecodeContext::CustomSet258 => s.append("CustomSet258"),
        DecodeContext::CborBytes => s.append("CborBytes"),
        DecodeContext::DatumEnum => s.append("DatumEnum"),
        DecodeContext::RewardAccount => s.append("RewardAccount"),
        DecodeContext::Voter => s.append("Voter"),
        DecodeContext::GovAction => s.append("GovAction"),
        DecodeContext::Certificate => s.append("Certificate"),
    }
    s
}

impl DecodeError {
    /// The diagnostic line of this failure, exactly as specified.
    pub fn message(&self) -> (r: String)
        ensures
            r@ == spec_error_message(*self),
    {
        let mut s = String::new();
        match self {
            DecodeError::UnknownDiscriminant { context, value } => {
                match context {
                    DecodeContext::ConwayGovPredFailure => s.append("unknown era while decoding "),
                    DecodeContext::ShelleyBasedEra => s.append("unknown era while decoding "),
                    DecodeContext::ConwayDelegPredFailure => s.append(
                        "unknown error code while decoding ",
                    ),
                    DecodeContext::Network => s.append("unknown network while decoding "),
                    DecodeContext::Credential => s.append("unknown tag while decoding "),
                    DecodeContext::PlutusPurpose => s.append("unknown purpose while decoding "),
                    DecodeContext::EraScript => s.append("unknown index while decoding "),
                    DecodeContext::Timelock => s.append("unknown index while decoding "),
                    _ => s.append("unknown error tag while decoding "),
                }
                let n = context_name(context);
                s.append(n.as_str());
                s.append(": ");
                append_dec_u64(&mut s, *value);
                assert(s@ =~= spec_error_message(*self));
            },
            DecodeError::UnexpectedWireTag { context, tag } => {
                s.append("unexpected tag while decoding ");
                let n = context_name(context);
                s.append(n.as_str());
                s.append(": ");
                append_dec_u64(&mut s, *tag);
                assert(s@ =~= spec_error_message(*self));
            },
            DecodeError::UnexpectedType { context } => {
                s.append("unknown datatype while decoding ");
                let n = context_name(context);
                s.append(n.as_str());
                assert(s@ =~= spec_error_message(*self));
            },
            DecodeError::UnexpectedFieldCount { context, count } => {
                s.append("unexpected number of fields while decoding ");
                let n = context_name(context);
                s.append(n.as_str());
                s.append(": ");
                append_dec_u64(&mut s, *count);
                assert(s@ =~= spec_error_message(*self));
            },
            DecodeError::NestingTooDeep => {
                s.append("nesting too deep");
            },
            DecodeError::Truncated => {
                s.append("unexpected end of input");
            },
            DecodeError::InvalidText => {
                s.append("invalid text encoding");
            },
        }
        s
    }
}

} // verus!
