//! The JSON envelope of the submission API.
//!
//! The envelope nests string discriminator fields around an array of the
//! rendered failure strings.  Field names and nesting mirror the
//! external API contract and are fixed here as literals.

use vstd::prelude::*;
use crate::haskell_types::{
    ApplyConwayTxPredError, ApplyTxError, ShelleyBasedEra, TxValidationError, EraMismatch,
    TxSubmitFail, TxCmdError, TxValidationErrorInCardanoMode,
};
use crate::haskell_display::HaskellDisplay;
use crate::numstr::{digit_char, push_char};

verus! {

/// The escape of one character inside a JSON string.
pub open spec fn json_esc_char(c: char) -> Seq<char> {
    let u = c as u32;
    if c == '"' {
        "\\\""@
    } else if c == '\\' {
        "\\\\"@
    } else if u == 8 {
        "\\b"@
    } else if u == 12 {
        "\\f"@
    } else if u == 10 {
        "\\n"@
    } else if u == 13 {
        "\\r"@
    } else if u == 9 {
        "\\t"@
    } else if u < 32 {
        "\\u00"@ + seq![digit_char((u / 16) as nat), digit_char((u % 16) as nat)]
    } else {
        seq![c]
    }
}

/// The escaped characters of `s` from `i` on.
pub open spec fn json_escaped_from(s: Seq<char>, i: int) -> Seq<char>
    decreases s.len() - i,
{
    if i < 0 || i >= s.len() {
        Seq::<char>::empty()
    } else {
        json_esc_char(s[i]) + json_escaped_from(s, i + 1)
    }
}

/// A JSON string literal: the escaped characters between double quotes.
pub open spec fn spec_json_string(s: Seq<char>) -> Seq<char> {
    seq!['"'] + json_escaped_from(s, 0) + seq!['"']
}

/// Appends the escape of one character.
fn append_json_esc(out: &mut String, c: char)
    ensures
        final(out)@ == old(out)@ + json_esc_char(c),
{
    let u = c as u32;
    if c == '"' {
        out.append("\\\"");
    } else if c == '\\' {
        out.append("\\\\");
    } else if u == 8 {
        out.append("\\b");
    } else if u == 12 {
        out.append("\\f");
    } else if u == 10 {
        out.append("\\n");
    } else if u == 13 {
        out.append("\\r");
    } else if u == 9 {
        out.append("\\t");
    } else if u < 32 {
        out.append("\\u00");
        let d1 = ((u / 16) as u8) + 48;
        push_char(out, d1 as char);
        let r = (u % 16) as u8;
        if r < 10 {
            push_char(out, (48 + r) as char);
        } else {
            push_char(out, (87 + r) as char);
        }
        assert(final(out)@ =~= old(out)@ + json_esc_char(c));
    } else {
        push_char(out, c);
        assert(final(out)@ =~= old(out)@ + json_esc_char(c));
    }
}

/// Appends a JSON string literal.
pub fn append_json_string(out: &mut String, s: &str)
    ensures
        final(out)@ == old(out)@ + spec_json_string(s@),
{
    let n = s.unicode_len();
    push_char(out, '"');
    let mut i: usize = 0;
    while i < n
        invariant
            n == s@.len(),
            i <= n,
            out@ + json_escaped_from(s@, i as int) == old(out)@ + seq!['"'] + json_escaped_from(
                s@,
                0,
            ),
        decreases n - i,
    {
        let c = s.get_char(i);
        append_json_esc(out, c);
        assert(out@ + json_escaped_from(s@, i + 1) =~= old(out)@ + seq!['"'] + json_escaped_from(
            s@,
            0,
        ));
        i = i + 1;
    }
    push_char(out, '"');
    assert(final(out)@ =~= old(out)@ + spec_json_string(s@));
}

/// The JSON array elements of the rendered failures from `i` on.
pub open spec fn spec_errors_json_from(v: Seq<ApplyConwayTxPredError>, i: int) -> Seq<char>
    decreases v.len() - i,
{
    if i < 0 || i >= v.len() {
        Seq::<char>::empty()
    } else if i == v.len() - 1 {
        spec_json_string(v[i].show())
    } else {
        spec_json_string(v[i].show()) + seq![','] + spec_errors_json_from(v, i + 1)
    }
}

/// The JSON form of all reported failures: rendered strings in an array.
pub open spec fn spec_apply_tx_error_json(e: ApplyTxError) -> Seq<char> {
    seq!['['] + spec_errors_json_from(e.0@, 0) + seq![']']
}

/// Appends the failure array.
pub fn append_apply_tx_error_json(out: &mut String, e: &ApplyTxError)
    ensures
        final(out)@ == old(out)@ + spec_apply_tx_error_json(*e),
{
    push_char(out, '[');
    let n = e.0.len();
    let mut i: usize = 0;
    while i < n
        invariant
            n == e.0@.len(),
            i <= n,
            out@ + spec_errors_json_from(e.0@, i as int) == old(out)@ + seq!['[']
                + spec_errors_json_from(e.0@, 0),
        decreases n - i,
    {
        let rendered = e.0[i].to_haskell_str();
        append_json_string(out, rendered.as_str());
        if i + 1 < n {
            push_char(out, ',');
        }
        assert(out@ + spec_errors_json_from(e.0@, i + 1) =~= old(out)@ + seq!['[']
            + spec_errors_json_from(e.0@, 0));
        i = i + 1;
    }
    push_char(out, ']');
    assert(final(out)@ =~= old(out)@ + spec_apply_tx_error_json(*e));
}

/// The JSON form of the decoded validation error: its kind, the failure
/// array, and for post-byron eras the era name.
pub open spec fn spec_validation_error_json(e: TxValidationError) -> Seq<char> {
    match e {
        TxValidationError::ByronTxValidationError { error } => {
            "{\"kind\":\"ByronTxValidationError\",\"error\":"@ + spec_apply_tx_error_json(error)
                + "}"@
        },
        TxValidationError::ShelleyTxValidationError { error, era } => {
            "{\"kind\":\"ShelleyTxValidationError\",\"error\":"@ + spec_apply_tx_error_json(error)
                + ",\"era\":\""@ + era.show() + "\"}"@
        },
    }
}

/// Appends the validation-error object.
pub fn append_validation_error_json(out: &mut String, e: &TxValidationError)
    ensures
        final(out)@ == old(out)@ + spec_validation_error_json(*e),
{
    match e {
        TxValidationError::ByronTxValidationError { error } => {
            out.append("{\"kind\":\"ByronTxValidationError\",\"error\":");
            append_apply_tx_error_json(out, error);
            out.append("}");
        },
        TxValidationError::ShelleyTxValidationError { error, era } => {
            out.append("{\"kind\":\"ShelleyTxValidationError\",\"error\":");
            append_apply_tx_error_json(out, error);
            out.append(",\"era\":\"");
            let name = era.to_haskell_str();
            out.append(name.as_str());
            out.append("\"}");
        },
    }
    assert(final(out)@ =~= old(out)@ + spec_validation_error_json(*e));
}

/// The JSON form of the mode wrapper.
pub open spec fn spec_in_mode_json(e: TxValidationErrorInCardanoMode) -> Seq<char> {
    match e {
        TxValidationErrorInCardanoMode::TxValidationErrorInCardanoMode(inner) => {
            "{\"tag\":\"TxValidationErrorInCardanoMode\",\"contents\":"@
                + spec_validation_error_json(inner) + "}"@
        },
        TxValidationErrorInCardanoMode::EraMismatch(m) => {
            "{\"tag\":\"EraMismatch\",\"contents\":{\"ledger\":"@ + spec_json_string(m.ledger@)
                + ",\"other\":"@ + spec_json_string(m.other@) + "}}"@
        },
    }
}

/// Appends the mode wrapper object.
pub fn append_in_mode_json(out: &mut String, e: &TxValidationErrorInCardanoMode)
    ensures
        final(out)@ == old(out)@ + spec_in_mode_json(*e),
{
    match e {
        TxValidationErrorInCardanoMode::TxValidationErrorInCardanoMode(inner) => {
            out.append("{\"tag\":\"TxValidationErrorInCardanoMode\",\"contents\":");
            append_validation_error_json(out, inner);
            out.append("}");
        },
        TxValidationErrorInCardanoMode::EraMismatch(m) => {
            out.append("{\"tag\":\"EraMismatch\",\"contents\":{\"ledger\":");
            append_json_string(out, m.ledger.as_str());
            out.append(",\"other\":");
            append_json_string(out, m.other.as_str());
            out.append("}}");
        },
    }
    assert(final(out)@ =~= old(out)@ + spec_in_mode_json(*e));
}

/// The JSON array of reader failures from `i` on.
pub open spec fn spec_read_errors_json_from(v: Seq<String>, i: int) -> Seq<char>
    decreases v.len() - i,
{
    if i < 0 || i >= v.len() {
        Seq::<char>::empty()
    } else if i == v.len() - 1 {
        spec_json_string(v[i]@)
    } else {
        spec_json_string(v[i]@) + seq![','] + spec_read_errors_json_from(v, i + 1)
    }
}

/// The JSON form of the command-level failure.
pub open spec fn spec_cmd_error_json(e: TxCmdError) -> Seq<char> {
    match e {
        TxCmdError::SocketEnvError(s) => "{\"tag\":\"SocketEnvError\",\"contents\":"@
            + spec_json_string(s@) + "}"@,
        TxCmdError::TxReadError(v) => "{\"tag\":\"TxReadError\",\"contents\":["@
            + spec_read_errors_json_from(v@, 0) + "]}"@,
        TxCmdError::TxCmdTxSubmitValidationError(inner) => {
            "{\"tag\":\"TxCmdTxSubmitValidationError\",\"contents\":"@ + spec_in_mode_json(inner)
                + "}"@
        },
    }
}

/// Appends the command-level failure object.
pub fn append_cmd_error_json(out: &mut String, e: &TxCmdError)
    ensures
        final(out)@ == old(out)@ + spec_cmd_error_json(*e),
{
    match e {
        TxCmdError::SocketEnvError(s) => {
            out.append("{\"tag\":\"SocketEnvError\",\"contents\":");
            append_json_string(out, s.as_str());
            out.append("}");
        },
        TxCmdError::TxReadError(v) => {
            out.append("{\"tag\":\"TxReadError\",\"contents\":[");
            let n = v.len();
            let mut i: usize = 0;
            while i < n
                invariant
                    n == v@.len(),
                    i <= n,
                    out@ + spec_read_errors_json_from(v@, i as int) == old(out)@
                        + "{\"tag\":\"TxReadError\",\"contents\":["@ + spec_read_errors_json_from(
                        v@,
                        0,
                    ),
                decreases n - i,
            {
                append_json_string(out, v[i].as_str());
                if i + 1 < n {
                    push_char(out, ',');
                }
                assert(out@ + spec_read_errors_json_from(v@, i + 1) =~= old(out)@
                    + "{\"tag\":\"TxReadError\",\"contents\":["@ + spec_read_errors_json_from(
                    v@,
                    0,
                ));
                i = i + 1;
            }
            out.append("]}");
        },
        TxCmdError::TxCmdTxSubmitValidationError(inner) => {
            out.append("{\"tag\":\"TxCmdTxSubmitValidationError\",\"contents\":");
            append_in_mode_json(out, inner);
            out.append("}");
        },
    }
    assert(final(out)@ =~= old(out)@ + spec_cmd_error_json(*e));
}

/// The JSON form of the outer failure envelope.
pub open spec fn spec_submit_fail_json(e: TxSubmitFail) -> Seq<char> {
    match e {
        TxSubmitFail::TxSubmitDecodeHex => "{\"tag\":\"TxSubmitDecodeHex\"}"@,
        TxSubmitFail::TxSubmitEmpty => "{\"tag\":\"TxSubmitEmpty\"}"@,
        TxSubmitFail::TxSubmitDecodeFail(s) => "{\"tag\":\"TxSubmitDecodeFail\",\"contents\":"@
            + spec_json_string(s@) + "}"@,
        TxSubmitFail::TxSubmitBadTx(s) => "{\"tag\":\"TxSubmitBadTx\",\"contents\":"@
            + spec_json_string(s@) + "}"@,
        TxSubmitFail::TxSubmitFail(inner) => "{\"tag\":\"TxSubmitFail\",\"contents\":"@
            + spec_cmd_error_json(inner) + "}"@,
    }
}

impl TxSubmitFail {
    /// Renders the whole envelope, exactly as specified.
    pub fn to_json(&self) -> (r: String)
        ensures
            r@ == spec_submit_fail_json(*self),
    {
        let mut out = String::new();
        match self {
            TxSubmitFail::TxSubmitDecodeHex => {
                out.append("{\"tag\":\"TxSubmitDecodeHex\"}");
            },
            TxSubmitFail::TxSubmitEmpty => {
                out.append("{\"tag\":\"TxSubmitEmpty\"}");
            },
            TxSubmitFail::TxSubmitDecodeFail(s) => {
                out.append("{\"tag\":\"TxSubmitDecodeFail\",\"contents\":");
                append_json_string(&mut out, s.as_str());
                out.append("}");
            },
            TxSubmitFail::TxSubmitBadTx(s) => {
                out.append("{\"tag\":\"TxSubmitBadTx\",\"contents\":");
                append_json_string(&mut out, s.as_str());
                out.append("}");
            },
            TxSubmitFail::TxSubmitFail(inner) => {
                out.append("{\"tag\":\"TxSubmitFail\",\"contents\":");
                append_cmd_error_json(&mut out, inner);
                out.append("}");
            },
        }
        assert(out@ =~= spec_submit_fail_json(*self));
        out
    }
}

} // verus!
