//! The text escaper, one check per code point class, and the numeric
//! helpers it builds on.

use tx_submit_errors::haskells_show_string::haskell_show_string;
use tx_submit_errors::hexstr::{decode_hex, hex_string};
use tx_submit_errors::hashing::blake2b_256;
use tx_submit_errors::codec::decode_era_script;
use tx_submit_errors::haskell_display::HaskellDisplay;

#[test]
fn printable_ascii_passes_through() {
    assert_eq!(haskell_show_string("hello world 123 ~!"), "\"hello world 123 ~!\"");
}

#[test]
fn quote_and_backslash_are_escaped() {
    assert_eq!(haskell_show_string("a\"b"), "\"a\\\"b\"");
    assert_eq!(haskell_show_string("a\\b"), "\"a\\\\b\"");
}

#[test]
fn short_escapes_for_common_controls() {
    assert_eq!(haskell_show_string("\n"), "\"\\n\"");
    assert_eq!(haskell_show_string("\r"), "\"\\r\"");
    assert_eq!(haskell_show_string("\t"), "\"\\t\"");
    assert_eq!(haskell_show_string("\u{7}"), "\"\\a\"");
    assert_eq!(haskell_show_string("\u{8}"), "\"\\b\"");
    assert_eq!(haskell_show_string("\u{b}"), "\"\\v\"");
    assert_eq!(haskell_show_string("\u{c}"), "\"\\f\"");
}

#[test]
fn named_c0_controls() {
    assert_eq!(haskell_show_string("\u{0}"), "\"\\NUL\"");
    assert_eq!(haskell_show_string("\u{1}"), "\"\\SOH\"");
    assert_eq!(haskell_show_string("\u{e}"), "\"\\SO\"");
    assert_eq!(haskell_show_string("\u{1b}"), "\"\\ESC\"");
    assert_eq!(haskell_show_string("\u{1f}"), "\"\\US\"");
}

#[test]
fn del_is_named() {
    assert_eq!(haskell_show_string("\u{7f}"), "\"\\DEL\"");
}

#[test]
fn wide_characters_use_decimal_escapes() {
    assert_eq!(haskell_show_string("\u{221a}"), "\"\\8730\"");
    assert_eq!(haskell_show_string("\u{e0}"), "\"\\224\"");
}

#[test]
fn empty_escape_disambiguates_so_before_h() {
    assert_eq!(haskell_show_string("\u{e}H"), "\"\\SO\\&H\"");
    // any other follower needs no marker
    assert_eq!(haskell_show_string("\u{e}I"), "\"\\SOI\"");
    // other named escapes never take the marker, even before H
    assert_eq!(haskell_show_string("\u{f}H"), "\"\\SIH\"");
}

#[test]
fn empty_escape_disambiguates_decimal_before_digit() {
    assert_eq!(haskell_show_string("\u{221a}5"), "\"\\8730\\&5\"");
    assert_eq!(haskell_show_string("\u{221a}x"), "\"\\8730x\"");
}

#[test]
fn hex_rendering_round_trip() {
    assert_eq!(hex_string(&[0x00, 0xff, 0x1a]), "00ff1a");
    assert_eq!(hex_string(&[]), "");
    assert_eq!(decode_hex("00ff1a").unwrap(), vec![0x00, 0xff, 0x1a]);
    assert_eq!(decode_hex("00FF1A").unwrap(), vec![0x00, 0xff, 0x1a]);
    assert!(decode_hex("0").is_none());
    assert!(decode_hex("zz").is_none());
    assert_eq!(decode_hex("").unwrap(), Vec::<u8>::new());
}

#[test]
fn digest_wrapper_matches_known_vector() {
    let digest = blake2b_256(&[]);
    assert_eq!(digest.len(), 32);
    assert_eq!(
        hex_string(&digest),
        "0e5751c026e543b2e8ab2eb06099daa1d1e5df47778f7787faab45cdf12fe3a8"
    );
}

#[test]
fn timelock_rendering_carries_the_memo_digest() {
    // a native script holding one signature lock
    let bytes = decode_hex("820082004101").unwrap();
    let (script, end) = decode_era_script(&bytes, 0).expect("script decodes");
    assert_eq!(end, bytes.len());
    let digest = hex_string(&blake2b_256(&bytes[2..]));
    let expected = format!(
        "TimelockScript TimelockConstr Signature (KeyHash {{unKeyHash = \"01\"}}) (blake2b_256: SafeHash \"{}\")",
        digest
    );
    assert_eq!(script.to_haskell_str(), expected);
}
