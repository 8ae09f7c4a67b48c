//! Crate-level laws, stated once and proved from the contracts the
//! modules export.

use vstd::prelude::*;
use crate::haskell_types::{StrictMaybe, TxValidationError, TxSubmitFail};
use crate::haskell_display::{HaskellDisplay, parens};
use crate::json::{spec_validation_error_json, spec_submit_fail_json};

verus! {

/// Optionality renders by its two-state convention alone: an absent
/// value is exactly `SNothing`, a present one exactly `SJust <v>`, the
/// value parenthesised unless its type renders as a bare token.
/// Together with the wrapper decoders' contracts — a zero-length array
/// decodes to the absent value, a one-element array to the present value
/// — this closes the round trip from wire optionality to its rendering.
pub proof fn lemma_optionality_rendering<T: HaskellDisplay>(m: StrictMaybe<T>)
    ensures
        m is Nothing ==> m.show() == "SNothing"@,
        m matches StrictMaybe::Just(v) ==> m.show() == (if T::primitive_show() {
            "SJust "@ + v.show()
        } else {
            "SJust "@ + parens(v.show())
        }),
{
}

/// Rendering is a pure function of the decoded tree: any two renderings
/// of the same value are identical.  The executable renderers ensure
/// their output equals these spec-level functions of the tree alone, so
/// calling them twice cannot differ.
pub proof fn lemma_rendering_pure(e: TxValidationError, r1: Seq<char>, r2: Seq<char>)
    requires
        r1 == spec_validation_error_json(e),
        r2 == spec_validation_error_json(e),
    ensures
        r1 == r2,
{
}

/// The same purity holds of the whole envelope.
pub proof fn lemma_envelope_pure(e: TxSubmitFail, r1: Seq<char>, r2: Seq<char>)
    requires
        r1 == spec_submit_fail_json(e),
        r2 == spec_submit_fail_json(e),
    ensures
        r1 == r2,
{
}

} // verus!
