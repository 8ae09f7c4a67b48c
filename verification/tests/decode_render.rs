//! End-to-end checks: wire payloads decoded and rendered against
//! expected reference strings.

use tx_submit_errors::haskell_display::HaskellDisplay;
use tx_submit_errors::haskell_types::TxValidationError;
use tx_submit_errors::hexstr::decode_hex;
use tx_submit_errors::submission::try_decode_error;
use tx_submit_errors::haskell_types::{Network, RewardAccountFielded, StakeCredential};

fn hx(s: &str) -> Vec<u8> {
    decode_hex(s).expect("valid hex")
}

fn render_errors(payload_hex: &str) -> Vec<String> {
    let bytes = hx(payload_hex);
    let decoded = try_decode_error(&bytes).expect("payload decodes");
    match decoded {
        TxValidationError::ShelleyTxValidationError { error, .. } => {
            error.0.iter().map(|e| e.to_haskell_str()).collect()
        }
        TxValidationError::ByronTxValidationError { error } => {
            error.0.iter().map(|e| e.to_haskell_str()).collect()
        }
    }
}

#[test]
fn treasury_value_mismatch() {
    let errors = render_errors("8182068183051a000de7561a00080fd6");
    assert_eq!(
        errors,
        vec!["ConwayTreasuryValueMismatch (Coin 911190) (Coin 528342)".to_string()]
    );
}

#[test]
fn wdrl_not_delegated_single_key() {
    let errors =
        render_errors("81820681820481581c22782faa6bd0c54048b6176eb0cc2f4aa6c56818b3b9075e480e4cbf");
    assert_eq!(
        errors,
        vec![
            "ConwayWdrlNotDelegatedToDRep (KeyHash {unKeyHash = \"22782faa6bd0c54048b6176eb0cc2f4aa6c56818b3b9075e480e4cbf\"} :| [])"
                .to_string()
        ]
    );
}

#[test]
fn wdrl_not_delegated_two_keys() {
    let errors = render_errors(
        "81820681820482581cc665e067f9c5af2973d41f470db5e85c1f3495958d9ce9f458117a02581cd16ff9615b0f243f73576a54d7b0ee5fd3f1a827899c50191d3cb9b4",
    );
    assert_eq!(
        errors,
        vec![
            "ConwayWdrlNotDelegatedToDRep (KeyHash {unKeyHash = \"c665e067f9c5af2973d41f470db5e85c1f3495958d9ce9f458117a02\"} :| [KeyHash {unKeyHash = \"d16ff9615b0f243f73576a54d7b0ee5fd3f1a827899c50191d3cb9b4\"}])"
                .to_string()
        ]
    );
}

#[test]
fn ref_scripts_size_too_big() {
    let errors = render_errors("8182068183060001");
    assert_eq!(errors, vec!["ConwayTxRefScriptsSizeTooBig 0 1".to_string()]);
}

#[test]
fn ref_scripts_size_negative_renders_parenthesised() {
    let errors = render_errors("818206828306012083051a000218a31a000594fd");
    assert_eq!(
        errors,
        vec![
            "ConwayTxRefScriptsSizeTooBig 1 (-1)".to_string(),
            "ConwayTreasuryValueMismatch (Coin 137379) (Coin 365821)".to_string(),
        ]
    );
}

#[test]
fn mempool_failure_ascii() {
    let errors = render_errors("8182068182076162");
    assert_eq!(errors, vec!["ConwayMempoolFailure \"b\"".to_string()]);
}

#[test]
fn mempool_failure_wide_char_decimal_escape() {
    let errors = render_errors("81820681820763e684b9");
    assert_eq!(errors, vec!["ConwayMempoolFailure \"\\24889\"".to_string()]);
}

#[test]
fn missing_vkey_witnesses() {
    let errors = render_errors(
        "8182068182018202d9010281581c615ba1eac6d914f3e9f0460095bd98ecaf0c54e25039cdfbea8d6783",
    );
    assert_eq!(
        errors,
        vec![
            "ConwayUtxowFailure (MissingVKeyWitnessesUTXOW (fromList [KeyHash {unKeyHash = \"615ba1eac6d914f3e9f0460095bd98ecaf0c54e25039cdfbea8d6783\"}]))"
                .to_string()
        ]
    );
}

#[test]
fn malformed_script_witnesses_empty_set() {
    let errors = render_errors("8182068182018210d9010280");
    assert_eq!(
        errors,
        vec!["ConwayUtxowFailure (MalformedScriptWitnesses (fromList []))".to_string()]
    );
}

#[test]
fn insufficient_collateral_and_extraneous_witnesses() {
    let errors = render_errors("8182068282018200830c1a000d8a871a000b075682018209d9010280");
    assert_eq!(
        errors,
        vec![
            "ConwayUtxowFailure (UtxoFailure InsufficientCollateral (DeltaCoin 887431) (Coin 722774))"
                .to_string(),
            "ConwayUtxowFailure (ExtraneousScriptWitnessesUTXOW (fromList []))".to_string(),
        ]
    );
}

#[test]
fn cert_failure_deleg_drep_not_registered() {
    let errors = render_errors(
        "8182068182028201820182058200581cb2f0655ce3475b94e5d46d3333f02849a53df7a6fbe82edca31c768d",
    );
    assert_eq!(
        errors,
        vec![
            "ConwayCertsFailure (CertFailure (DelegFailure (DelegateeDRepNotRegisteredDELEG (KeyHashObj (KeyHash {unKeyHash = \"b2f0655ce3475b94e5d46d3333f02849a53df7a6fbe82edca31c768d\"})))))"
                .to_string()
        ]
    );
}

#[test]
fn withdrawals_not_in_rewards_one_entry() {
    let errors = render_errors(
        "8182068182028200a1581de180c1af75f8e788b08272ee30e8d87bc776e4bfc47adb0da175bf26ac1a000212eb",
    );
    assert_eq!(
        errors,
        vec![
            "ConwayCertsFailure (WithdrawalsNotInRewardsCERTS (fromList [(RewardAccount {raNetwork = Mainnet, raCredential = KeyHashObj (KeyHash {unKeyHash = \"80c1af75f8e788b08272ee30e8d87bc776e4bfc47adb0da175bf26ac\"})},Coin 135915)]))"
                .to_string()
        ]
    );
}

#[test]
fn withdrawals_not_in_rewards_empty_map() {
    let errors = render_errors("8182068182028200a0");
    assert_eq!(
        errors,
        vec!["ConwayCertsFailure (WithdrawalsNotInRewardsCERTS (fromList []))".to_string()]
    );
}

#[test]
fn withdrawals_script_credential() {
    let errors = render_errors(
        "8182068182028200a1581df143b29c77a36b9524cf908490eac5798394492f480ed39c16cd46ba851a0006d022",
    );
    assert_eq!(
        errors,
        vec![
            "ConwayCertsFailure (WithdrawalsNotInRewardsCERTS (fromList [(RewardAccount {raNetwork = Mainnet, raCredential = ScriptHashObj (ScriptHash \"43b29c77a36b9524cf908490eac5798394492f480ed39c16cd46ba85\")},Coin 446498)]))"
                .to_string()
        ]
    );
}

#[test]
fn voters_do_not_exist_and_empty_mempool_failure() {
    let errors = render_errors(
        "818206828203820e818202581c6405197a2f6592f55ba348f14d540f35caf3a1dedf1d40cd8e474e04820760",
    );
    assert_eq!(
        errors,
        vec![
            "ConwayGovFailure (VotersDoNotExist (DRepVoter (KeyHashObj (KeyHash {unKeyHash = \"6405197a2f6592f55ba348f14d540f35caf3a1dedf1d40cd8e474e04\"})) :| []))"
                .to_string(),
            "ConwayMempoolFailure \"\"".to_string(),
        ]
    );
}

#[test]
fn pp_view_hashes_dont_match_present_and_absent() {
    let errors = render_errors(
        "818206818201830d815820722303d3f0c4127f8f7179faeef6c5865c686cd3833a90a2742e1c52e5403e2d80",
    );
    assert_eq!(
        errors,
        vec![
            "ConwayUtxowFailure (PPViewHashesDontMatch (SJust (SafeHash \"722303d3f0c4127f8f7179faeef6c5865c686cd3833a90a2742e1c52e5403e2d\")) SNothing)"
                .to_string()
        ]
    );
}

#[test]
fn expiration_epoch_too_small_empty_and_nonempty() {
    let errors = render_errors("8182068282076082038207a0");
    assert_eq!(
        errors,
        vec![
            "ConwayMempoolFailure \"\"".to_string(),
            "ConwayGovFailure (ExpirationEpochTooSmall (fromList []))".to_string(),
        ]
    );
    let errors = render_errors(
        "8182068182038207a18201581cff5c52bb623f42d8d4a48bc9393011167c82650799fe2057d0ffe17800",
    );
    assert_eq!(
        errors,
        vec![
            "ConwayGovFailure (ExpirationEpochTooSmall (fromList [(ScriptHashObj (ScriptHash \"ff5c52bb623f42d8d4a48bc9393011167c82650799fe2057d0ffe178\"),EpochNo 0)]))"
                .to_string()
        ]
    );
}

#[test]
fn indefinite_failure_list_decodes() {
    let errors = render_errors("8182069f820760ff");
    assert_eq!(errors, vec!["ConwayMempoolFailure \"\"".to_string()]);
}

#[test]
fn nonempty_list_tails_join_with_bare_commas() {
    let errors = render_errors(
        "81820681820483581c22782faa6bd0c54048b6176eb0cc2f4aa6c56818b3b9075e480e4cbf581cc665e067f9c5af2973d41f470db5e85c1f3495958d9ce9f458117a02581cd16ff9615b0f243f73576a54d7b0ee5fd3f1a827899c50191d3cb9b4",
    );
    assert_eq!(
        errors,
        vec![
            "ConwayWdrlNotDelegatedToDRep (KeyHash {unKeyHash = \"22782faa6bd0c54048b6176eb0cc2f4aa6c56818b3b9075e480e4cbf\"} :| [KeyHash {unKeyHash = \"c665e067f9c5af2973d41f470db5e85c1f3495958d9ce9f458117a02\"},KeyHash {unKeyHash = \"d16ff9615b0f243f73576a54d7b0ee5fd3f1a827899c50191d3cb9b4\"}])"
                .to_string()
        ]
    );
}

#[test]
fn map_pairs_join_with_bare_commas() {
    let errors = render_errors(
        "8182068182038207a28201581cff5c52bb623f42d8d4a48bc9393011167c82650799fe2057d0ffe178008200581c22782faa6bd0c54048b6176eb0cc2f4aa6c56818b3b9075e480e4cbf01",
    );
    assert_eq!(
        errors,
        vec![
            "ConwayGovFailure (ExpirationEpochTooSmall (fromList [(ScriptHashObj (ScriptHash \"ff5c52bb623f42d8d4a48bc9393011167c82650799fe2057d0ffe178\"),EpochNo 0),(KeyHashObj (KeyHash {unKeyHash = \"22782faa6bd0c54048b6176eb0cc2f4aa6c56818b3b9075e480e4cbf\"}),EpochNo 1)]))"
                .to_string()
        ]
    );
}

#[test]
fn rendering_is_idempotent() {
    let bytes = hx("8182068183051a000de7561a00080fd6");
    let decoded = try_decode_error(&bytes).expect("payload decodes");
    let (first, second) = match &decoded {
        TxValidationError::ShelleyTxValidationError { error, .. } => (
            error.0[0].to_haskell_str(),
            error.0[0].to_haskell_str(),
        ),
        _ => unreachable!(),
    };
    assert_eq!(first, second);
}

#[test]
fn reward_account_from_hex() {
    let account = RewardAccountFielded::new(
        "e180c1af75f8e788b08272ee30e8d87bc776e4bfc47adb0da175bf26ac".to_string(),
    )
    .expect("valid account");
    assert!(matches!(account.ra_network, Network::Mainnet));
    match account.ra_credential {
        StakeCredential::AddrKeyhash(h) => assert_eq!(h.len(), 28),
        _ => panic!("key-hash credential expected"),
    }
    assert!(RewardAccountFielded::new("zz".to_string()).is_none());
    assert!(RewardAccountFielded::new("e180".to_string()).is_none());
}

#[test]
fn extra_redeemers_voting_purpose() {
    let errors = render_errors("818206818201820f81820401");
    assert_eq!(
        errors,
        vec!["ConwayUtxowFailure (ExtraRedeemers [ConwayVoting (AsIx {unAsIx = 1})])".to_string()]
    );
}

#[test]
fn voting_on_expired_gov_action_with_stake_pool_voter() {
    let errors = render_errors(
        "81820682820761528203820981828204581c5e5b6fe689a2a0b842304c912712328aa704b6c49d15e8b60e6d979882582094259fb315f35d28860159dd35231ce60ee3f99d905f9e6519731a505540bb4e01",
    );
    assert_eq!(
        errors,
        vec![
            "ConwayMempoolFailure \"R\"".to_string(),
            "ConwayGovFailure (VotingOnExpiredGovAction ((StakePoolVoter (KeyHash {unKeyHash = \"5e5b6fe689a2a0b842304c912712328aa704b6c49d15e8b60e6d9798\"}),GovActionId {gaidTxId = TxId {unTxId = SafeHash \"94259fb315f35d28860159dd35231ce60ee3f99d905f9e6519731a505540bb4e\"}, gaidGovActionIx = GovActionIx {unGovActionIx = 1}}) :| []))"
                .to_string(),
        ]
    );
}

#[test]
fn invalid_policy_hash_both_present() {
    let errors = render_errors(
        "818206828203830b81581c1588aa1e2f8ed73cdf28cbf7d06241099f44f3747b50708ecc22799081581cb20a46886f87fd81f4b51689734a786f10e683e65aa6f989dc547739820481581c7fab8efda7ee7d6b04955d250f1473970ece5476871b12de0b9435ab",
    );
    assert_eq!(
        errors,
        vec![
            "ConwayGovFailure (InvalidPolicyHash (SJust (ScriptHash \"1588aa1e2f8ed73cdf28cbf7d06241099f44f3747b50708ecc227990\")) (SJust (ScriptHash \"b20a46886f87fd81f4b51689734a786f10e683e65aa6f989dc547739\")))"
                .to_string(),
            "ConwayWdrlNotDelegatedToDRep (KeyHash {unKeyHash = \"7fab8efda7ee7d6b04955d250f1473970ece5476871b12de0b9435ab\"} :| [])"
                .to_string(),
        ]
    );
}

#[test]
fn malformed_proposal_hard_fork_initiation() {
    let errors = render_errors(
        "818206828203820183018258203d417a35bce157152945acfe78da6938f3ade318bed839ad70d62cd827abf4470082070182076169",
    );
    assert_eq!(
        errors,
        vec![
            "ConwayGovFailure (MalformedProposal (HardForkInitiation (SJust (GovActionId {gaidTxId = TxId {unTxId = SafeHash \"3d417a35bce157152945acfe78da6938f3ade318bed839ad70d62cd827abf447\"}, gaidGovActionIx = GovActionIx {unGovActionIx = 0}})) (ProtVer {pvMajor = Version 7, pvMinor = 1})))"
                .to_string(),
            "ConwayMempoolFailure \"i\"".to_string(),
        ]
    );
}

#[test]
fn gov_actions_do_not_exist_two_identifiers() {
    let errors = render_errors(
        "8182068182038200828258206d3a5b92857fd4ec3de160e62f194525286882ef073e27c4aa6e3e21f33e0dc100825820e015c9d455993f68e65ce4201f19ef00e24807b686682f1f0248b50d3369dcdf00",
    );
    assert_eq!(
        errors,
        vec![
            "ConwayGovFailure (GovActionsDoNotExist (GovActionId {gaidTxId = TxId {unTxId = SafeHash \"6d3a5b92857fd4ec3de160e62f194525286882ef073e27c4aa6e3e21f33e0dc1\"}, gaidGovActionIx = GovActionIx {unGovActionIx = 0}} :| [GovActionId {gaidTxId = TxId {unTxId = SafeHash \"e015c9d455993f68e65ce4201f19ef00e24807b686682f1f0248b50d3369dcdf\"}, gaidGovActionIx = GovActionIx {unGovActionIx = 0}}]))"
                .to_string()
        ]
    );
}

#[test]
fn zero_treasury_withdrawals_no_confidence() {
    let errors = render_errors(
        "818206818203820f8203825820bce7857d66684c376526dd9431a81b9a456fbcc26064c56c43efa05e4e99440101",
    );
    assert_eq!(
        errors,
        vec![
            "ConwayGovFailure (ZeroTreasuryWithdrawals (NoConfidence (SJust (GovActionId {gaidTxId = TxId {unTxId = SafeHash \"bce7857d66684c376526dd9431a81b9a456fbcc26064c56c43efa05e4e994401\"}, gaidGovActionIx = GovActionIx {unGovActionIx = 1}}))))"
                .to_string()
        ]
    );
}

#[test]
fn two_byte_coin_width_is_accepted() {
    let errors = render_errors(
        "8182068282028200a1581df143b29c77a36b9524cf908490eac5798394492f480ed39c16cd46ba851a0006d02283051a0005df2c19b453",
    );
    assert_eq!(errors.len(), 2);
    assert_eq!(
        errors[1],
        "ConwayTreasuryValueMismatch (Coin 384812) (Coin 46163)"
    );
}
