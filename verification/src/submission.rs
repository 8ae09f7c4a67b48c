//! The submission façade: from a rejection payload to the envelope the
//! HTTP layer returns.
//!
//! A decode failure here means the taxonomy has drifted from the node,
//! not that the transaction was invalid; the two outcomes are kept as
//! distinct results so the caller can log them apart.

use vstd::prelude::*;
use crate::haskell_types::{
    TxValidationError, TxSubmitFail, TxCmdError, TxValidationErrorInCardanoMode,
};
use crate::codec::{decode_tx_validation_error, disc_of, spec_disc, era_of, first_failure_pos, apply_error_sound};
use crate::cbor::spec_array;
use crate::err::{DecodeContext, DecodeError, known_discriminant};
use crate::json::spec_submit_fail_json;

verus! {

/// Strips the fixed two-byte envelope prefix the session layer leaves in
/// front of a rejection reason; `None` exactly when the payload is too
/// short to carry it.
pub fn strip_rejection_prefix(reason: &[u8]) -> (r: Option<Vec<u8>>)
    ensures
        match r {
            Some(v) => reason@.len() >= 2 && v@ == reason@.skip(2),
            None => reason@.len() < 2,
        },
{
    if reason.len() < 2 {
        None
    } else {
        let v = vstd::slice::slice_to_vec(vstd::slice::slice_subrange(reason, 2, reason.len()));
        assert(v@ =~= reason@.skip(2));
        Some(v)
    }
}

/// Whether a decoded tree carries exactly the era the payload's wrapper
/// spells; only the era-wrapped form is ever built.
pub open spec fn decoded_era_matches(b: Seq<u8>, v: TxValidationError) -> bool {
    match v {
        TxValidationError::ShelleyTxValidationError { error: _, era } => spec_array(b, 0)
            matches Some((_l, p0)) && (spec_disc(b, p0) matches Some((d, _p1)) && 1 <= d <= 6
            && era == era_of(d)),
        TxValidationError::ByronTxValidationError { .. } => false,
    }
}

/// Whether a decoded tree's single failure is the one the payload's
/// bytes spell, when the failure list holds exactly one element.
pub open spec fn single_failure_pinned(b: Seq<u8>, v: TxValidationError) -> bool {
    first_failure_pos(b) matches Some(fp) ==> (v matches
        TxValidationError::ShelleyTxValidationError { error, era: _ } && error.0@.len() == 1
        && exists|end: int| apply_error_sound(b, fp, #[trigger] error.0@[0], end))
}

/// Whether a payload's failure list is empty: the smallest well-formed
/// rejection, on which decoding owes success.
pub open spec fn empty_failure_payload(b: Seq<u8>) -> bool {
    spec_array(b, 0) matches Some((_l, p0)) && (spec_disc(b, p0) matches Some((d, p1)) && 1 <= d
        <= 6 && (spec_array(b, p1) matches Some((l2, _p2)) && l2 == Some(0u64)))
}

/// Decodes a rejection payload into the validation-error tree.  The
/// decoder only builds the era-wrapped form; the decoded era is pinned
/// to the wire; an unknown discriminant in the outermost context is
/// always refused; and the smallest well-formed rejection owes success.
pub fn try_decode_error(buffer: &[u8]) -> (r: Result<TxValidationError, DecodeError>)
    ensures
        r matches Ok(v) ==> v is ShelleyTxValidationError,
        r matches Ok(v) ==> decoded_era_matches(buffer@, v),
        r matches Ok(v) ==> single_failure_pinned(buffer@, v),
        spec_array(buffer@, 0) matches Some((_l, p)) ==> (disc_of(buffer@, p) matches Some(d)
            ==> (known_discriminant(DecodeContext::ShelleyBasedEra, d) || r is Err)),
        empty_failure_payload(buffer@) ==> (r matches Ok(v) && (v matches
            TxValidationError::ShelleyTxValidationError { error, era: _ } && error.0@.len() == 0)),
{
    match decode_tx_validation_error(buffer, 0) {
        Ok((v, _end)) => Ok(v),
        Err(e) => Err(e),
    }
}

/// Wraps a decoded validation error in the envelope of the submission
/// API, layer by layer.
pub fn generate_error_response(error: TxValidationError) -> (r: TxSubmitFail)
    ensures
        r == TxSubmitFail::TxSubmitFail(
            TxCmdError::TxCmdTxSubmitValidationError(
                TxValidationErrorInCardanoMode::TxValidationErrorInCardanoMode(error),
            ),
        ),
{
    TxSubmitFail::TxSubmitFail(
        TxCmdError::TxCmdTxSubmitValidationError(
            TxValidationErrorInCardanoMode::TxValidationErrorInCardanoMode(error),
        ),
    )
}

/// Decodes a rejection payload and renders the full envelope; the error
/// side carries the structured decode failure.  The rendered text is the
/// envelope of a tree whose era the payload's wrapper spells, and the
/// smallest well-formed rejection owes success.
pub fn rejection_to_json(buffer: &[u8]) -> (r: Result<String, DecodeError>)
    ensures
        r matches Ok(s) ==> exists|e: TxValidationError|
            decoded_era_matches(buffer@, e) && single_failure_pinned(buffer@, e) && s@
                == spec_submit_fail_json(
                TxSubmitFail::TxSubmitFail(
                    TxCmdError::TxCmdTxSubmitValidationError(
                        TxValidationErrorInCardanoMode::TxValidationErrorInCardanoMode(e),
                    ),
                ),
            ),
        empty_failure_payload(buffer@) ==> r is Ok,
{
    let decoded = try_decode_error(buffer)?;
    let ghost witness = decoded;
    let response = generate_error_response(decoded);
    let rendered = response.to_json();
    proof {
        assert(decoded_era_matches(buffer@, witness) && single_failure_pinned(buffer@, witness)
            && rendered@ == spec_submit_fail_json(
            TxSubmitFail::TxSubmitFail(
                TxCmdError::TxCmdTxSubmitValidationError(
                    TxValidationErrorInCardanoMode::TxValidationErrorInCardanoMode(witness),
                ),
            ),
        ));
    }
    Ok(rendered)
}

} // verus!
