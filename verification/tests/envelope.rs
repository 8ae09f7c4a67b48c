//! The JSON envelope: exact bytes for the reference scenario, and
//! structural agreement with a parsed JSON value.

use tx_submit_errors::hexstr::decode_hex;
use tx_submit_errors::submission::{
    generate_error_response, rejection_to_json, strip_rejection_prefix, try_decode_error,
};
use tx_submit_errors::haskell_types::{TxCmdError, TxSubmitFail, TxValidationErrorInCardanoMode};
use tx_submit_errors::haskell_display::HaskellDisplay;
use tx_submit_errors::codec::decode_shelley_based_era;

#[test]
fn treasury_mismatch_envelope_bytes() {
    let bytes = decode_hex("8182068183051a000de7561a00080fd6").unwrap();
    let rendered = rejection_to_json(&bytes).expect("payload decodes");
    assert_eq!(
        rendered,
        "{\"tag\":\"TxSubmitFail\",\"contents\":{\"tag\":\"TxCmdTxSubmitValidationError\",\"contents\":{\"tag\":\"TxValidationErrorInCardanoMode\",\"contents\":{\"kind\":\"ShelleyTxValidationError\",\"error\":[\"ConwayTreasuryValueMismatch (Coin 911190) (Coin 528342)\"],\"era\":\"ShelleyBasedEraConway\"}}}}"
    );
}

#[test]
fn envelope_is_valid_json_with_expected_shape() {
    let bytes = decode_hex("8182068183051a000de7561a00080fd6").unwrap();
    let rendered = rejection_to_json(&bytes).expect("payload decodes");
    let value: serde_json::Value = serde_json::from_str(&rendered).expect("well-formed JSON");
    assert_eq!(value["tag"], "TxSubmitFail");
    assert_eq!(value["contents"]["tag"], "TxCmdTxSubmitValidationError");
    assert_eq!(
        value["contents"]["contents"]["tag"],
        "TxValidationErrorInCardanoMode"
    );
    let inner = &value["contents"]["contents"]["contents"];
    assert_eq!(inner["kind"], "ShelleyTxValidationError");
    assert_eq!(inner["era"], "ShelleyBasedEraConway");
    let errors = inner["error"].as_array().expect("error array");
    assert_eq!(errors.len(), 1);
    assert_eq!(
        errors[0],
        "ConwayTreasuryValueMismatch (Coin 911190) (Coin 528342)"
    );
}

#[test]
fn envelope_escapes_quotes_in_rendered_strings() {
    // a key-hash rendering carries quotes; they must arrive escaped and
    // survive a JSON round trip unchanged
    let bytes =
        decode_hex("81820681820481581c22782faa6bd0c54048b6176eb0cc2f4aa6c56818b3b9075e480e4cbf")
            .unwrap();
    let rendered = rejection_to_json(&bytes).expect("payload decodes");
    let value: serde_json::Value = serde_json::from_str(&rendered).expect("well-formed JSON");
    let errors = value["contents"]["contents"]["contents"]["error"]
        .as_array()
        .unwrap();
    assert_eq!(
        errors[0],
        "ConwayWdrlNotDelegatedToDRep (KeyHash {unKeyHash = \"22782faa6bd0c54048b6176eb0cc2f4aa6c56818b3b9075e480e4cbf\"} :| [])"
    );
}

#[test]
fn envelope_two_errors_in_order() {
    let bytes = decode_hex("8182068283051a0006144d1a0007f68283051a000ab04e1a0003c428").unwrap();
    let rendered = rejection_to_json(&bytes).expect("payload decodes");
    let value: serde_json::Value = serde_json::from_str(&rendered).unwrap();
    let errors = value["contents"]["contents"]["contents"]["error"]
        .as_array()
        .unwrap();
    assert_eq!(
        errors[0],
        "ConwayTreasuryValueMismatch (Coin 398413) (Coin 521858)"
    );
    assert_eq!(
        errors[1],
        "ConwayTreasuryValueMismatch (Coin 700494) (Coin 246824)"
    );
}

#[test]
fn generate_error_response_wraps_layer_by_layer() {
    let bytes = decode_hex("8182068183051a000de7561a00080fd6").unwrap();
    let decoded = try_decode_error(&bytes).unwrap();
    let response = generate_error_response(decoded);
    match response {
        TxSubmitFail::TxSubmitFail(TxCmdError::TxCmdTxSubmitValidationError(
            TxValidationErrorInCardanoMode::TxValidationErrorInCardanoMode(_),
        )) => {}
        _ => panic!("wrong envelope nesting"),
    }
}

#[test]
fn strip_prefix_drops_exactly_two_bytes() {
    let stripped = strip_rejection_prefix(&[0x82, 0x02, 0x81, 0x82]).unwrap();
    assert_eq!(stripped, vec![0x81, 0x82]);
    assert!(strip_rejection_prefix(&[0x82]).is_none());
    assert!(strip_rejection_prefix(&[]).is_none());
    assert_eq!(strip_rejection_prefix(&[0x01, 0x02]).unwrap(), Vec::<u8>::new());
}

#[test]
fn rendering_envelope_twice_is_identical() {
    let bytes = decode_hex("8182068183051a000de7561a00080fd6").unwrap();
    let first = rejection_to_json(&bytes).unwrap();
    let second = rejection_to_json(&bytes).unwrap();
    assert_eq!(first, second);
}

#[test]
fn eras_render_their_names() {
    let names = [
        (0x01u8, "ShelleyBasedEraShelley"),
        (0x02, "ShelleyBasedEraAllegra"),
        (0x03, "ShelleyBasedEraMary"),
        (0x04, "ShelleyBasedEraAlonzo"),
        (0x05, "ShelleyBasedEraBabbage"),
        (0x06, "ShelleyBasedEraConway"),
    ];
    for (tag, name) in names {
        let bytes = vec![0x82, tag];
        let (era, _) = decode_shelley_based_era(&bytes, 0).expect("published era");
        assert_eq!(era.to_haskell_str(), *name);
    }
}

#[test]
fn empty_failure_list_decodes_and_renders() {
    // the smallest well-formed rejection: an era wrapper and no failures
    let bytes = decode_hex("81820680").unwrap();
    let rendered = rejection_to_json(&bytes).expect("empty failure list decodes");
    assert_eq!(
        rendered,
        "{\"tag\":\"TxSubmitFail\",\"contents\":{\"tag\":\"TxCmdTxSubmitValidationError\",\"contents\":{\"tag\":\"TxValidationErrorInCardanoMode\",\"contents\":{\"kind\":\"ShelleyTxValidationError\",\"error\":[],\"era\":\"ShelleyBasedEraConway\"}}}}"
    );
}
