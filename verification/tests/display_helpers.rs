//! The free rendering helpers for pairs, triples, maps, and optional
//! values.

use tx_submit_errors::haskell_display::HaskellDisplay;
use tx_submit_errors::haskell_types::{DisplayCoin, EpochNo, Mismatch, StrictMaybe};
use tx_submit_errors::render_failures::{
    display_hashmap, display_strict_maybe, display_triple, display_triple_vec, display_tuple,
    display_tuple_vec,
};
use tx_submit_errors::render_gov::{display_governance_action_id_index, display_option};

#[test]
fn tuples_and_triples() {
    assert_eq!(display_tuple(&(EpochNo(1), DisplayCoin(2))), "(EpochNo 1,Coin 2)");
    assert_eq!(
        display_tuple_vec(&vec![(EpochNo(1), DisplayCoin(2)), (EpochNo(3), DisplayCoin(4))]),
        "(EpochNo 1,Coin 2) (EpochNo 3,Coin 4)"
    );
    assert_eq!(
        display_triple(&(1u64, 2u64, DisplayCoin(3))),
        "(1 2 Coin 3)"
    );
    assert_eq!(
        display_triple_vec(&vec![(1u64, 2u64, DisplayCoin(3))]),
        "(1 2 Coin 3)"
    );
}

#[test]
fn maps_join_entries_with_bare_commas() {
    assert_eq!(
        display_hashmap(&vec![(EpochNo(1), DisplayCoin(2)), (EpochNo(3), DisplayCoin(4))]),
        "fromList [(EpochNo 1,Coin 2),(EpochNo 3,Coin 4)]"
    );
    assert_eq!(display_hashmap::<EpochNo, DisplayCoin>(&vec![]), "fromList []");
}

#[test]
fn optional_forms() {
    assert_eq!(
        display_strict_maybe(&StrictMaybe::Just(DisplayCoin(7))),
        "SJust (Coin 7)"
    );
    assert_eq!(display_strict_maybe(&StrictMaybe::<DisplayCoin>::Nothing), "SNothing");
    assert_eq!(display_option(&Some(EpochNo(7))), "EpochNo 7");
    assert_eq!(display_option(&None::<EpochNo>), "None");
}

#[test]
fn mismatch_record_labels() {
    assert_eq!(
        Mismatch(EpochNo(1), EpochNo(2)).to_haskell_str(),
        "Mismatch {mismatchSupplied = EpochNo 1, mismatchExpected = EpochNo 2}"
    );
    assert_eq!(
        Mismatch(EpochNo(1), EpochNo(2)).to_haskell_str_p(),
        "(Mismatch {mismatchSupplied = EpochNo 1, mismatchExpected = EpochNo 2})"
    );
}

#[test]
fn governance_action_index_label() {
    assert_eq!(
        display_governance_action_id_index(&3),
        "GovActionIx {unGovActionIx = 3}"
    );
}
