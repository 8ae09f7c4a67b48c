//! Discriminant exhaustiveness: every published discriminant of every
//! enum context decodes, and every value outside the set is refused with
//! a structured failure naming the context and the value.

use tx_submit_errors::codec::{
    decode_apply_error, decode_cert_failure, decode_certs_failure, decode_conway_plutus_purpose,
    decode_credential, decode_deleg_failure, decode_era_script, decode_failure_description,
    decode_gov_action, decode_gov_cert_failure, decode_gov_failure, decode_network,
    decode_plutus_purpose, decode_pool_failure, decode_shelley_based_era, decode_tag_mismatch,
    decode_timelock_raw, decode_utxo_failure, decode_utxos_failure, decode_utxow_failure,
    decode_voter,
};
use tx_submit_errors::err::{DecodeContext, DecodeError};
use tx_submit_errors::hexstr::decode_hex;
use tx_submit_errors::codec::decode_set_keyhash;
use tx_submit_errors::codec::decode_purpose_as;
use tx_submit_errors::haskell_types::PurposeAs;
use tx_submit_errors::codec::decode_maybe_safehash;
use tx_submit_errors::haskell_display::HaskellDisplay;
use tx_submit_errors::haskell_types::StrictMaybe;
use tx_submit_errors::codec::decode_datum_enum;
use tx_submit_errors::codec::decode_embedded_bytes;

fn hx(s: &str) -> Vec<u8> {
    decode_hex(s).expect("valid hex")
}

fn disc_hex(d: u64) -> String {
    if d < 24 {
        format!("{:02x}", d)
    } else {
        format!("18{:02x}", d)
    }
}

// a 29-byte reward account: mainnet, key-hash credential
const RA: &str = "581de100000000000000000000000000000000000000000000000000000000";

fn payload(d: u64, fields: &str) -> Vec<u8> {
    hx(&format!("82{}{}", disc_hex(d), fields))
}

fn check_context<T, F>(decoder: F, ctx: DecodeContext, cases: &[(u64, &str)], bad: &[u64])
where
    F: Fn(&[u8], usize) -> Result<(T, usize), DecodeError>,
{
    for (d, fields) in cases.iter().copied() {
        let bytes = payload(d, fields);
        match decoder(&bytes, 0) {
            Ok(_) => {}
            Err(e) => panic!("published discriminant {} refused: {}", d, e.message()),
        }
    }
    for d in bad.iter() {
        let bytes = payload(*d, "");
        match decoder(&bytes, 0) {
            Err(DecodeError::UnknownDiscriminant { context, value }) => {
                assert_eq!(context, ctx);
                assert_eq!(value, *d);
            }
            Ok(_) => panic!("discriminant {} accepted outside the published set", d),
            Err(e) => panic!("wrong failure for {}: {}", d, e.message()),
        }
    }
}

#[test]
fn apply_tx_pred_error_discriminants() {
    let cases: [(u64, &str); 7] = [
        (1, "8208"),
        (2, "8200a0"),
        (3, "820080"),
        (4, "80"),
        (5, "0000"),
        (6, "0000"),
        (7, "60"),
    ];
    let bad: [u64; 3] = [0, 8, 99];
    check_context(decode_apply_error, DecodeContext::ApplyTxPredError, &cases, &bad);
}

#[test]
fn utxow_discriminants() {
    let cases: [(u64, &str); 18] = [
        (0, "8204"),
        (1, "80"),
        (2, "d9010280"),
        (3, "d9010280"),
        (4, "d9010280"),
        (5, "4101"),
        (6, "4101"),
        (7, "41014101"),
        (8, ""),
        (9, "d9010280"),
        (10, "80"),
        (11, "8080"),
        (12, "d9010280d9010280"),
        (13, "8080"),
        (14, "d9010280"),
        (15, "80"),
        (16, "d9010280"),
        (17, "d9010280"),
    ];
    let bad: [u64; 2] = [18, 99];
    check_context(decode_utxow_failure, DecodeContext::ConwayUtxoWPredFailure, &cases, &bad);
}

#[test]
fn utxo_discriminants() {
    let cases: [(u64, &str); 23] = [
        (0, "8204"),
        (1, "80"),
        (2, "82808000"),
        (3, "0000"),
        (4, ""),
        (5, "0000"),
        (6, "0000"),
        (7, "0080"),
        (8, "0080"),
        (9, "80"),
        (10, "80"),
        (11, "80"),
        (12, "0000"),
        (13, "80"),
        (14, "820000820000"),
        (15, "00"),
        (16, "0000"),
        (17, "00"),
        (18, "0000"),
        (19, ""),
        (20, "0000"),
        (21, "80"),
        (22, "80"),
    ];
    let bad: [u64; 2] = [23, 99];
    check_context(decode_utxo_failure, DecodeContext::ConwayUtxoPredFailure, &cases, &bad);
}

#[test]
fn gov_discriminants() {
    let pp = format!("8400{}820682604101", RA);
    let cases: Vec<(u64, String)> = vec![
        (0, "80".to_string()),
        (1, "8206".to_string()),
        (2, format!("{}00", RA)),
        (3, "d901028000".to_string()),
        (4, "0000".to_string()),
        (5, "80".to_string()),
        (6, "d9010280".to_string()),
        (7, "a0".to_string()),
        (8, pp.clone()),
        (9, "80".to_string()),
        (10, "80820000820000".to_string()),
        (11, "8080".to_string()),
        (12, pp),
        (13, "80".to_string()),
        (14, "80".to_string()),
        (15, "8206".to_string()),
        (16, RA.to_string()),
        (17, "80".to_string()),
    ];
    for (d, fields) in cases.iter() {
        let bytes = payload(*d, fields);
        match decode_gov_failure(&bytes, 0) {
            Ok(_) => {}
            Err(e) => panic!("published discriminant {} refused: {}", d, e.message()),
        }
    }
    for d in [18u64, 99].iter() {
        let bytes = payload(*d, "");
        match decode_gov_failure(&bytes, 0) {
            Err(DecodeError::UnknownDiscriminant { context, value }) => {
                assert_eq!(context, DecodeContext::ConwayGovPredFailure);
                assert_eq!(value, *d);
            }
            _ => panic!("discriminant {} mishandled", d),
        }
    }
}

#[test]
fn certs_and_cert_discriminants() {
    let certs_cases: [(u64, &str); 2] = [(0, "a0"), (1, "8201820100")];
    let certs_bad: [u64; 2] = [2, 99];
    check_context(decode_certs_failure, DecodeContext::ConwayCertsPredFailure, &certs_cases, &certs_bad);

    let cert_cases: [(u64, &str); 3] = [(1, "820100"), (2, "82004101"), (3, "820082004101")];
    let cert_bad: [u64; 3] = [0, 4, 99];
    check_context(decode_cert_failure, DecodeContext::ConwayCertPredFailure, &cert_cases, &cert_bad);
}

#[test]
fn gov_cert_discriminants() {
    let cases: [(u64, &str); 6] = [
        (0, "82004101"),
        (1, "82004101"),
        (2, "0000"),
        (3, "82004101"),
        (4, "0000"),
        (5, "82004101"),
    ];
    let bad: [u64; 2] = [6, 99];
    check_context(decode_gov_cert_failure, DecodeContext::ConwayGovCertPredFailure, &cases, &bad);
}

#[test]
fn deleg_discriminants() {
    let cases: [(u64, &str); 6] = [
        (1, "00"),
        (2, "82004101"),
        (3, "82004101"),
        (4, "00"),
        (5, "82004101"),
        (6, "4101"),
    ];
    let bad: [u64; 3] = [0, 7, 99];
    check_context(decode_deleg_failure, DecodeContext::ConwayDelegPredFailure, &cases, &bad);
}

#[test]
fn pool_discriminants_skip_the_retired_slot() {
    let cases: [(u64, &str); 5] = [
        (0, "4101"),
        (1, "000000"),
        (3, "0000"),
        (4, "00004101"),
        (5, "410100"),
    ];
    let bad: [u64; 3] = [2, 6, 99];
    check_context(decode_pool_failure, DecodeContext::ShelleyPoolPredFailure, &cases, &bad);
}

#[test]
fn utxos_and_tag_mismatch_discriminants() {
    let utxos_cases: [(u64, &str); 2] = [(0, "f58200"), (1, "80")];
    let utxos_bad: [u64; 2] = [2, 99];
    check_context(decode_utxos_failure, DecodeContext::ConwayUtxosPredFailure, &utxos_cases, &utxos_bad);

    let tm_cases: [(u64, &str); 2] = [(0, ""), (1, "80")];
    let tm_bad: [u64; 2] = [2, 99];
    check_context(decode_tag_mismatch, DecodeContext::TagMismatchDescription, &tm_cases, &tm_bad);

    let fd_cases: [(u64, &str); 1] = [(1, "604101")];
    let fd_bad: [u64; 3] = [0, 2, 99];
    check_context(decode_failure_description, DecodeContext::FailureDescription, &fd_cases, &fd_bad);
}

#[test]
fn purpose_script_voter_and_action_discriminants() {
    let purpose_cases: [(u64, &str); 6] =
        [(0, "00"), (1, "00"), (2, "00"), (3, "00"), (4, "00"), (5, "00")];
    let purpose_bad: [u64; 2] = [6, 99];
    check_context(decode_plutus_purpose, DecodeContext::PlutusPurpose, &purpose_cases, &purpose_bad);
    check_context(decode_conway_plutus_purpose, DecodeContext::ConwayPlutusPurpose, &purpose_cases, &purpose_bad);

    let script_cases: [(u64, &str); 4] = [(0, "82004101"), (1, "4101"), (2, "4101"), (3, "4101")];
    let script_bad: [u64; 2] = [4, 99];
    check_context(decode_era_script, DecodeContext::EraScript, &script_cases, &script_bad);

    let lock_cases: [(u64, &str); 6] =
        [(0, "4101"), (1, "80"), (2, "80"), (3, "0080"), (4, "00"), (5, "00")];
    let lock_bad: [u64; 2] = [6, 99];
    check_context(decode_timelock_raw, DecodeContext::Timelock, &lock_cases, &lock_bad);

    let voter_cases: [(u64, &str); 5] =
        [(0, "4101"), (1, "4101"), (2, "4101"), (3, "4101"), (4, "4101")];
    let voter_bad: [u64; 2] = [5, 99];
    check_context(decode_voter, DecodeContext::Voter, &voter_cases, &voter_bad);

    let action_cases: [(u64, &str); 7] = [
        (0, "f6a0f6"),
        (1, "f6820000"),
        (2, "a0f6"),
        (3, "f6"),
        (4, "f6d9010280a0d81e820101"),
        (5, "f68282604101f6"),
        (6, ""),
    ];
    let action_bad: [u64; 2] = [7, 99];
    check_context(decode_gov_action, DecodeContext::GovAction, &action_cases, &action_bad);
}

#[test]
fn datum_discriminants_are_hard() {
    let cases: [(u64, &str); 2] = [(0, "4101"), (1, "00")];
    let bad: [u64; 2] = [2, 99];
    check_context(decode_datum_enum, DecodeContext::DatumEnum, &cases, &bad);
}

#[test]
fn purpose_probe_accepts_every_integer_width() {
    // a 16-bit-wide index must take the index path, same as a small one
    match decode_purpose_as(&hx("190100"), 0) {
        Ok((PurposeAs::Ix(256), 3)) => {}
        _ => panic!("wide index probe failed"),
    }
    match decode_purpose_as(&hx("1a00010000"), 0) {
        Ok((PurposeAs::Ix(65536), 5)) => {}
        _ => panic!("wider index probe failed"),
    }
}

#[test]
fn embedded_document_names_its_own_context() {
    // tag 259 instead of the embedded-document marker
    match decode_embedded_bytes(&hx("d9010340"), 0) {
        Err(DecodeError::UnexpectedWireTag { context, tag }) => {
            assert_eq!(context, DecodeContext::CborBytes);
            assert_eq!(tag, 259);
            let e = DecodeError::UnexpectedWireTag { context, tag };
            assert_eq!(e.message(), "unexpected tag while decoding CborBytes: 259");
        }
        _ => panic!("wrong tag must fail with the embedded-document context"),
    }
    // the right tag reads the wrapped bytes
    let (inner, end) = decode_embedded_bytes(&hx("d81841ab"), 0).unwrap();
    assert_eq!(inner, vec![0xab]);
    assert_eq!(end, 4);
}

#[test]
fn pathological_nesting_fails_instead_of_recursing_away() {
    // a UTxO-state failure wrapping itself far beyond the depth bound
    let mut bytes = Vec::new();
    for _ in 0..4096 {
        bytes.extend_from_slice(&[0x82, 0x00]);
    }
    bytes.extend_from_slice(&[0x82, 0x04]);
    match decode_utxo_failure(&bytes, 0) {
        Err(DecodeError::NestingTooDeep) => {}
        _ => panic!("deep nesting must fail decoding"),
    }
    // moderate nesting still decodes
    let mut shallow = Vec::new();
    for _ in 0..16 {
        shallow.extend_from_slice(&[0x82, 0x00]);
    }
    shallow.extend_from_slice(&[0x82, 0x04]);
    assert!(decode_utxo_failure(&shallow, 0).is_ok());
}

#[test]
fn era_and_bare_contexts() {
    for d in 1u64..=6 {
        let bytes = payload(d, "");
        assert!(decode_shelley_based_era(&bytes, 0).is_ok());
    }
    for d in [0u64, 7, 99] {
        let bytes = payload(d, "");
        match decode_shelley_based_era(&bytes, 0) {
            Err(DecodeError::UnknownDiscriminant { context, value }) => {
                assert_eq!(context, DecodeContext::ShelleyBasedEra);
                assert_eq!(value, d);
            }
            _ => panic!("era {} mishandled", d),
        }
    }

    assert!(decode_network(&[0x00], 0).is_ok());
    assert!(decode_network(&[0x01], 0).is_ok());
    match decode_network(&[0x02], 0) {
        Err(DecodeError::UnknownDiscriminant { context, value }) => {
            assert_eq!(context, DecodeContext::Network);
            assert_eq!(value, 2);
        }
        _ => panic!("network 2 mishandled"),
    }

    assert!(decode_credential(&hx("82004101"), 0).is_ok());
    assert!(decode_credential(&hx("82014101"), 0).is_ok());
    match decode_credential(&hx("82024101"), 0) {
        Err(DecodeError::UnknownDiscriminant { context, value }) => {
            assert_eq!(context, DecodeContext::Credential);
            assert_eq!(value, 2);
        }
        _ => panic!("credential 2 mishandled"),
    }
}

#[test]
fn unknown_discriminant_in_full_payload_names_context_and_value() {
    // tag 99 where the failure context expects a published discriminant
    let bytes = hx("818206818218630a");
    let result = tx_submit_errors::submission::try_decode_error(&bytes);
    match result {
        Err(DecodeError::UnknownDiscriminant { context, value }) => {
            assert_eq!(context, DecodeContext::ApplyTxPredError);
            assert_eq!(value, 99);
        }
        _ => panic!("unknown discriminant must fail decoding"),
    }
}

#[test]
fn failure_messages_name_their_context() {
    let e = DecodeError::UnknownDiscriminant {
        context: DecodeContext::ApplyTxPredError,
        value: 99,
    };
    assert_eq!(
        e.message(),
        "unknown error tag while decoding ApplyTxPredError: 99"
    );
    let e = DecodeError::UnknownDiscriminant {
        context: DecodeContext::ConwayGovPredFailure,
        value: 18,
    };
    assert_eq!(e.message(), "unknown era while decoding ConwayGovPredFailure: 18");
    let e = DecodeError::UnknownDiscriminant {
        context: DecodeContext::ConwayDelegPredFailure,
        value: 7,
    };
    assert_eq!(
        e.message(),
        "unknown error code while decoding ConwayDelegPredFailure: 7"
    );
    let e = DecodeError::UnknownDiscriminant {
        context: DecodeContext::Network,
        value: 2,
    };
    assert_eq!(e.message(), "unknown network while decoding Network: 2");
    let e = DecodeError::UnexpectedWireTag {
        context: DecodeContext::CustomSet258,
        tag: 259,
    };
    assert_eq!(e.message(), "unexpected tag while decoding CustomSet258: 259");
}

#[test]
fn finite_set_refuses_the_wrong_tag() {
    // tag 259 instead of the finite-set marker
    let bytes = hx("d9010380");
    match decode_set_keyhash(&bytes, 0) {
        Err(DecodeError::UnexpectedWireTag { context, tag }) => {
            assert_eq!(context, DecodeContext::CustomSet258);
            assert_eq!(tag, 259);
        }
        _ => panic!("wrong tag must fail decoding"),
    }
}

#[test]
fn truncated_payloads_are_refused() {
    assert!(tx_submit_errors::submission::try_decode_error(&[]).is_err());
    assert!(tx_submit_errors::submission::try_decode_error(&hx("8182")).is_err());
    assert!(tx_submit_errors::submission::try_decode_error(&hx("81820681")).is_err());
}

#[test]
fn ambiguous_purpose_field_is_probed_not_consumed() {
    // a small integer is an index
    match decode_purpose_as(&hx("05"), 0) {
        Ok((PurposeAs::Ix(5), 1)) => {}
        _ => panic!("index probe failed"),
    }
    // a byte string is an item
    match decode_purpose_as(&hx("4101"), 0) {
        Ok((PurposeAs::Item(b), 2)) => assert_eq!(b.0, vec![0x01]),
        _ => panic!("item probe failed"),
    }
    // anything else is refused with the probing context
    match decode_purpose_as(&hx("80"), 0) {
        Err(DecodeError::UnexpectedType { context }) => {
            assert_eq!(context, DecodeContext::PurposeAs);
            let e = DecodeError::UnexpectedType { context };
            assert_eq!(e.message(), "unknown datatype while decoding PurposeAs");
        }
        _ => panic!("probe must refuse other types"),
    }
}

#[test]
fn optionality_wrapper_round_trip() {
    // a zero-length array decodes to the absent value
    let (absent, end) = decode_maybe_safehash(&hx("80"), 0).unwrap();
    assert_eq!(end, 1);
    assert!(matches!(absent, StrictMaybe::Nothing));
    assert_eq!(absent.to_haskell_str(), "SNothing");
    // a one-element array decodes to the present value
    let (present, end) = decode_maybe_safehash(&hx("814101"), 0).unwrap();
    assert_eq!(end, 3);
    assert!(matches!(present, StrictMaybe::Just(_)));
    assert_eq!(present.to_haskell_str(), "SJust (SafeHash \"01\")");
    assert_eq!(present.to_haskell_str_p(), "(SJust (SafeHash \"01\"))");
    assert_eq!(absent.to_haskell_str_p(), "SNothing");
}
