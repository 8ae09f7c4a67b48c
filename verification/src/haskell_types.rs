//! The failure taxonomy: every enum context of the wire format, with
//! plain-valued fields.  Hashes and byte strings are held as raw bytes;
//! each wrapper type selects the label its role is rendered under.
//!
//! Discriminants are not globally unique: the same small integer means a
//! different variant in every enum context, so each context keeps its own
//! decoding and rendering.

use vstd::prelude::*;

verus! {

/// A coin amount, rendered as `Coin <n>`.
pub struct DisplayCoin(pub u64);

/// A coin difference, rendered as `DeltaCoin <n>`.
pub struct DeltaCoin(pub u64);

/// An epoch number, rendered as `EpochNo <n>`.
pub struct EpochNo(pub u64);

/// A slot number, rendered as `SlotNo <n>`.
pub struct SlotNo(pub u64);

/// A verification-key hash, rendered as `KeyHash {unKeyHash = "<hex>"}`.
pub struct KeyHash(pub Vec<u8>);

/// A verification key, rendered as `VKey (VerKeyEd25519DSIGN "<hex>")`.
pub struct VKey(pub Vec<u8>);

/// A hash under the safe-hash wrapper, rendered as `SafeHash "<hex>"`.
pub struct SafeHash(pub Vec<u8>);

/// A script hash, rendered as `ScriptHash "<hex>"`.
pub struct ScriptHash(pub Vec<u8>);

/// A script hash in optional positions, rendered as `ScriptHash "<hex>"`.
pub struct DisplayScriptHash(pub Vec<u8>);

/// A datum hash, rendered as `DatumHash "<hex>"`.
pub struct DatumHash(pub Vec<u8>);

/// A datum hash inside an output, rendered as `DatumHash (SafeHash "<hex>")`.
pub struct DisplayDatumHash(pub Vec<u8>);

/// A memoisation hash, rendered as `(blake2b_256: SafeHash "<hex>")`.
pub struct DisplayHash(pub Vec<u8>);

/// An uninterpreted byte string, rendered as `"<hex>"`.
pub struct Bytes(pub Vec<u8>);

/// A raw address byte string.
pub type Addr = Bytes;

/// A reference to a transaction output.
pub struct TransactionInput {
    pub transaction_id: Vec<u8>,
    pub index: u64,
}

/// A governance action identifier.
pub struct GovActionId {
    pub transaction_id: Vec<u8>,
    pub action_index: u32,
}

/// The network an address or account belongs to.
pub enum Network {
    Mainnet,
    Testnet,
}

/// A credential as decoded from its own two-variant context.
pub enum Credential {
    ScriptHashObj(Vec<u8>),
    KeyHashObj(Vec<u8>),
}

/// A stake credential: a key hash or a script hash.
pub enum StakeCredential {
    AddrKeyhash(Vec<u8>),
    ScriptHash(Vec<u8>),
}

/// A reward account split into the fields the rendering needs.
pub struct RewardAccountFielded {
    pub ra_network: Network,
    pub ra_credential: StakeCredential,
}

/// A pair of same-typed values: what was supplied and what was expected.
pub struct Mismatch<T>(pub T, pub T);

/// The optionality convention of the wire format: present or absent,
/// rendered `SJust`/`SNothing`.  Encoded as a zero- or one-element array.
pub enum StrictMaybe<T> {
    Just(T),
    Nothing,
}

/// A finite set: an ordered sequence marked on the wire by tag 258.
/// Order is preserved exactly as read.
pub struct CustomSet258<T>(pub Vec<T>);

/// A plain sequence rendered in bracket-list form.
pub struct Array<T>(pub Vec<T>);

/// A strict sequence, rendered as `StrictSeq {fromStrict = fromList [..]}`.
pub struct StrictSeq<T>(pub Vec<T>);

/// A redeemer pointer index.
pub struct AsIx(pub u16);

/// A referenced item, rendered as `AsItem {unAsItem = <x>}`.
pub struct AsItem<T>(pub T);

/// A script purpose carrying a pointer index.
pub enum PlutusPurpose {
    Spending(AsIx),
    Minting(AsIx),
    Certifying(AsIx),
    Rewarding(AsIx),
    Voting(AsIx),
    Proposing(AsIx),
}

/// The one ambiguous field of the format: an index or an item, told apart
/// by probing the next value's wire type.
pub enum PurposeAs {
    Ix(u64),
    Item(Bytes),
}

/// A script purpose carrying an index or an item.
pub enum ConwayPlutusPurpose {
    ConwaySpending(PurposeAs),
    ConwayMinting(PurposeAs),
    ConwayCertifying(PurposeAs),
    ConwayRewarding(PurposeAs),
    ConwayVoting(PurposeAs),
    ConwayProposing(PurposeAs),
}

/// The validity window of a transaction.
pub struct ValidityInterval {
    pub invalid_before: Option<SlotNo>,
    pub invalid_hereafter: Option<SlotNo>,
}

/// A protocol version pair.
pub struct ProtocolVersion(pub u64, pub u64);

/// A rational number, rendered as `<num> % <den>`.
pub struct RationalNumber {
    pub numerator: u64,
    pub denominator: u64,
}

/// Execution budget, rendered under the `WrapExUnits` wrapper.
pub struct ExUnits {
    pub mem: u64,
    pub steps: u64,
}

/// Execution budget rendered in record form.
pub struct DisplayExUnits(pub ExUnits);

/// Prices of execution units.
pub struct ExUnitPrices {
    pub mem_price: RationalNumber,
    pub step_price: RationalNumber,
}

/// Stake-pool voting thresholds.
pub struct PoolVotingThresholds {
    pub motion_no_confidence: RationalNumber,
    pub committee_normal: RationalNumber,
    pub committee_no_confidence: RationalNumber,
    pub hard_fork_initiation: RationalNumber,
    pub security_voting_threshold: RationalNumber,
}

/// Delegate-representative voting thresholds.
pub struct DRepVotingThresholds {
    pub motion_no_confidence: RationalNumber,
    pub committee_normal: RationalNumber,
    pub committee_no_confidence: RationalNumber,
    pub update_constitution: RationalNumber,
    pub hard_fork_initiation: RationalNumber,
    pub pp_network_group: RationalNumber,
    pub pp_economic_group: RationalNumber,
    pub pp_technical_group: RationalNumber,
    pub pp_governance_group: RationalNumber,
    pub treasury_withdrawal: RationalNumber,
}

/// Cost models; their content is consumed but not retained, and the
/// rendering is an explicit placeholder.
pub struct CostModels;

/// A protocol parameter update: every field optional, keyed on the wire.
pub struct ProtocolParamUpdate {
    pub minfee_a: Option<u64>,
    pub minfee_b: Option<u64>,
    pub max_block_body_size: Option<u64>,
    pub max_transaction_size: Option<u64>,
    pub max_block_header_size: Option<u64>,
    pub key_deposit: Option<u64>,
    pub pool_deposit: Option<u64>,
    pub maximum_epoch: Option<u64>,
    pub desired_number_of_stake_pools: Option<u64>,
    pub pool_pledge_influence: Option<RationalNumber>,
    pub expansion_rate: Option<RationalNumber>,
    pub treasury_growth_rate: Option<RationalNumber>,
    pub min_pool_cost: Option<u64>,
    pub ada_per_utxo_byte: Option<u64>,
    pub cost_models_for_script_languages: Option<CostModels>,
    pub execution_costs: Option<ExUnitPrices>,
    pub max_tx_ex_units: Option<ExUnits>,
    pub max_block_ex_units: Option<ExUnits>,
    pub max_value_size: Option<u64>,
    pub collateral_percentage: Option<u64>,
    pub max_collateral_inputs: Option<u64>,
    pub pool_voting_thresholds: Option<PoolVotingThresholds>,
    pub drep_voting_thresholds: Option<DRepVotingThresholds>,
    pub min_committee_size: Option<u64>,
    pub committee_term_limit: Option<u64>,
    pub governance_action_validity_period: Option<u64>,
    pub governance_action_deposit: Option<u64>,
    pub drep_deposit: Option<u64>,
    pub drep_inactivity_period: Option<u64>,
    pub minfee_refscript_cost_per_byte: Option<RationalNumber>,
}

/// One voter of a governance action.
pub enum Voter {
    ConstitutionalCommitteeKey(Vec<u8>),
    ConstitutionalCommitteeScript(Vec<u8>),
    DRepKey(Vec<u8>),
    DRepScript(Vec<u8>),
    StakePoolKey(Vec<u8>),
}

/// An anchor: a URL and the hash of the document behind it.
pub struct Anchor {
    pub url: String,
    pub content_hash: Vec<u8>,
}

/// A constitution: its anchor and an optional guardrail script.
pub struct Constitution {
    pub anchor: Anchor,
    pub guardrail_script: StrictMaybe<ScriptHash>,
}

/// A governance action.
pub enum GovAction {
    ParameterChange(StrictMaybe<GovActionId>, Box<ProtocolParamUpdate>, StrictMaybe<ScriptHash>),
    HardForkInitiation(StrictMaybe<GovActionId>, ProtocolVersion),
    TreasuryWithdrawals(Vec<(RewardAccountFielded, DisplayCoin)>, StrictMaybe<ScriptHash>),
    NoConfidence(StrictMaybe<GovActionId>),
    UpdateCommittee(
        StrictMaybe<GovActionId>,
        CustomSet258<Credential>,
        Vec<(Credential, EpochNo)>,
        RationalNumber,
    ),
    NewConstitution(StrictMaybe<GovActionId>, Constitution),
    Information,
}

/// A proposal procedure.
pub struct ProposalProcedure {
    pub deposit: u64,
    pub reward_account: RewardAccountFielded,
    pub gov_action: GovAction,
    pub anchor: Anchor,
}

/// A transaction input of the legacy output encoding.
pub struct SerializableTxIn(pub TransactionInput);

/// A transaction output kept as raw bytes; rendered as a placeholder.
pub struct SerializableTxOut(pub Bytes);

/// A set of unspent outputs.
pub struct Utxo(pub Vec<(SerializableTxIn, SerializableTxOut)>);

/// A compacted address; not decoded further.
pub struct CompactAddr();

/// A compacted value; not decoded further.
pub struct CompactForm();

/// The packed tail of a 28-byte address hash.
pub struct Addr28Extra(pub u64, pub u64, pub u64, pub u64);

/// A packed 32-byte data hash.
pub struct DataHash32(pub u64, pub u64, pub u64, pub u64);

/// An address held as raw bytes and rendered from its header fields.
pub struct DisplayAddress(pub Vec<u8>);

/// Address bytes rendered through network and credential.
pub struct AddressBytes(pub Vec<u8>);

/// A policy identifier, rendered as `PolicyID {policyID = ScriptHash ..}`.
pub struct DisplayPolicyId(pub Vec<u8>);

/// An asset name, rendered as `"<hex>"`.
pub struct DisplayAssetName(pub Vec<u8>);

/// The assets under one policy, order preserved as read.
pub struct AssetBundle(pub Vec<(DisplayAssetName, u64)>);

/// Assets grouped by policy, order preserved as read.
pub struct MultiAsset(pub Vec<(DisplayPolicyId, AssetBundle)>);

/// A value of the mark era: a plain coin amount.
pub struct MaryValue(pub DisplayCoin);

/// A full value; its content is consumed but not retained, and the
/// rendering is an explicit placeholder.
pub struct DisplayValue;

/// The raw shape of a time lock script.
pub enum TimelockRaw {
    Signature(KeyHash),
    AllOf(Vec<Timelock>),
    AnyOf(Vec<Timelock>),
    MOfN(u64, Vec<Timelock>),
    TimeStart(SlotNo),
    TimeExpire(SlotNo),
}

/// A time lock script together with the hash of its own encoding.
pub struct Timelock {
    pub raw: TimelockRaw,
    pub memo: DisplayHash,
}

/// A script of any era.
pub enum EraScript {
    Native(Timelock),
    PlutusV1(ScriptHash),
    PlutusV2(ScriptHash),
    PlutusV3(ScriptHash),
}

/// An inline datum kept as raw bytes; rendered as a placeholder.
pub struct DisplayDatum(pub Bytes);

/// The datum attached to an output.
pub enum DatumEnum {
    DatumHash(DisplayDatumHash),
    Datum(DisplayDatum),
    NoDatum,
}

/// A transaction output of the babbage encoding.  Only the reference
/// script shape is decoded in full; the rest render as placeholders.
pub enum BabbageTxOut {
    TxOutCompact(CompactAddr, CompactForm),
    TxOutCompactDH(CompactAddr, CompactForm, DataHash32),
    TxOutCompactDatum(CompactAddr, CompactForm, Bytes),
    TxOutCompactRefScript(DisplayAddress, (MaryValue, MultiAsset), DatumEnum, StrictMaybe<EraScript>),
    TxOutAddrHash28AdaOnly(Credential, Addr28Extra, CompactForm),
    TxOutAddrHash28AdaOnlyDataHash32(Credential, Addr28Extra, CompactForm, DataHash32),
    NotImplemented,
}

/// A collection error; rendered as a placeholder.
pub struct CollectError;

/// The target of a delegation; rendered as a placeholder.
pub enum Delegatee {
    DelegStake(Vec<u8>),
    DelegVote(Bytes),
    DelegStakeVote(Vec<u8>, Bytes),
}

/// A stake-pool certificate; rendered as a placeholder.
pub struct PoolCert(pub String);

/// A governance certificate; rendered as a placeholder.
pub struct ConwayGovCert(pub String);

/// A delegation certificate.
pub enum ConwayDelegCert {
    ConwayRegCert(StakeCredential, Option<DisplayCoin>),
    ConwayUnRegCert(StakeCredential, Option<DisplayCoin>),
    ConwayDelegCert(StakeCredential, Delegatee),
    ConwayRegDelegCert(StakeCredential, Delegatee, DisplayCoin),
}

/// A transaction certificate.
pub enum ConwayTxCert {
    ConwayTxCertDeleg(ConwayDelegCert),
    ConwayTxCertPool(PoolCert),
    ConwayTxCertGov(ConwayGovCert),
}

/// Why a script validation tag was wrong.
pub enum TagMismatchDescription {
    PassedUnexpectedly,
    FailedUnexpectedly(Vec<FailureDescription>),
}

/// The description of one script failure.
pub enum FailureDescription {
    PlutusFailure(String, Bytes),
}

/// Predicate failures of the UTxO-state sub-rules.
pub enum ConwayUtxosPredFailure {
    ValidationTagMismatch(bool, TagMismatchDescription),
    CollectErrors(Array<CollectError>),
}

/// Predicate failures of the UTxO rules.
pub enum ConwayUtxoPredFailure {
    UtxosFailure(Box<ConwayUtxoPredFailure>),
    BadInputsUTxO(Vec<SerializableTxIn>),
    OutsideValidityIntervalUTxO(ValidityInterval, SlotNo),
    MaxTxSizeUTxO(u64, u64),
    InputSetEmptyUTxO(),
    FeeTooSmallUTxO(DisplayCoin, DisplayCoin),
    ValueNotConservedUTxO(DisplayValue, DisplayValue),
    WrongNetwork(Network, Vec<Addr>),
    WrongNetworkWithdrawal(Network, Vec<RewardAccountFielded>),
    OutputTooSmallUTxO(Array<BabbageTxOut>),
    OutputBootAddrAttrsTooBig(Array<SerializableTxOut>),
    OutputTooBigUTxO(Vec<(u64, u64, SerializableTxOut)>),
    InsufficientCollateral(DeltaCoin, DisplayCoin),
    ScriptsNotPaidUTxO(Utxo),
    ExUnitsTooBigUTxO(DisplayExUnits, DisplayExUnits),
    CollateralContainsNonADA(DisplayValue),
    WrongNetworkInTxBody(Network, Network),
    OutsideForecast(SlotNo),
    TooManyCollateralInputs(u64, u64),
    NoCollateralInputs(),
    IncorrectTotalCollateralField(DisplayCoin, DisplayCoin),
    BabbageOutputTooSmallUTxO(Vec<(SerializableTxOut, DisplayCoin)>),
    BabbageNonDisjointRefInputs(Vec<SerializableTxIn>),
}

/// Predicate failures of the witnessing rules.
pub enum ConwayUtxoWPredFailure {
    UtxoFailure(ConwayUtxoPredFailure),
    InvalidWitnessesUTXOW(Array<VKey>),
    MissingVKeyWitnessesUTXOW(CustomSet258<KeyHash>),
    MissingScriptWitnessesUTXOW(CustomSet258<ScriptHash>),
    ScriptWitnessNotValidatingUTXOW(CustomSet258<ScriptHash>),
    MissingTxBodyMetadataHash(Bytes),
    MissingTxMetadata(Bytes),
    ConflictingMetadataHash(Bytes, Bytes),
    InvalidMetadata(),
    ExtraneousScriptWitnessesUTXOW(CustomSet258<ScriptHash>),
    MissingRedeemers(Array<(PlutusPurpose, ScriptHash)>),
    MissingRequiredDatums(Vec<DatumHash>, Vec<DatumHash>),
    NotAllowedSupplementalDatums(CustomSet258<SafeHash>, CustomSet258<SafeHash>),
    PPViewHashesDontMatch(StrictMaybe<SafeHash>, StrictMaybe<SafeHash>),
    UnspendableUTxONoDatumHash(CustomSet258<TransactionInput>),
    ExtraRedeemers(Array<PlutusPurpose>),
    MalformedScriptWitnesses(CustomSet258<ScriptHash>),
    MalformedReferenceScripts(CustomSet258<ScriptHash>),
}

/// Predicate failures of the governance rules.
pub enum ConwayGovPredFailure {
    GovActionsDoNotExist(Vec<GovActionId>),
    MalformedProposal(GovAction),
    ProposalProcedureNetworkIdMismatch(RewardAccountFielded, Network),
    TreasuryWithdrawalsNetworkIdMismatch(CustomSet258<RewardAccountFielded>, Network),
    ProposalDepositIncorrect(DisplayCoin, DisplayCoin),
    DisallowedVoters(Vec<(Voter, GovActionId)>),
    ConflictingCommitteeUpdate(CustomSet258<Credential>),
    ExpirationEpochTooSmall(Vec<(StakeCredential, EpochNo)>),
    InvalidPrevGovActionId(ProposalProcedure),
    VotingOnExpiredGovAction(Vec<(Voter, GovActionId)>),
    ProposalCantFollow(StrictMaybe<GovActionId>, ProtocolVersion, ProtocolVersion),
    InvalidPolicyHash(StrictMaybe<DisplayScriptHash>, StrictMaybe<DisplayScriptHash>),
    DisallowedProposalDuringBootstrap(ProposalProcedure),
    DisallowedVotesDuringBootstrap(Vec<(Voter, GovActionId)>),
    VotersDoNotExist(Vec<Voter>),
    ZeroTreasuryWithdrawals(GovAction),
    ProposalReturnAccountDoesNotExist(RewardAccountFielded),
    TreasuryWithdrawalReturnAccountsDoNotExist(Vec<RewardAccountFielded>),
}

/// Predicate failures of the certificates group.
pub enum ConwayCertsPredFailure {
    WithdrawalsNotInRewardsCERTS(Vec<(RewardAccountFielded, DisplayCoin)>),
    CertFailure(ConwayCertPredFailure),
}

/// Predicate failures of one certificate.
pub enum ConwayCertPredFailure {
    DelegFailure(ConwayDelegPredFailure),
    PoolFailure(ShelleyPoolPredFailure),
    GovCertFailure(ConwayGovCertPredFailure),
}

/// Predicate failures of the stake-pool rules.
pub enum ShelleyPoolPredFailure {
    StakePoolNotRegisteredOnKeyPOOL(KeyHash),
    StakePoolRetirementWrongEpochPOOL(Mismatch<EpochNo>, Mismatch<EpochNo>),
    StakePoolCostTooLowPOOL(Mismatch<DisplayCoin>),
    WrongNetworkPOOL(Mismatch<Network>, KeyHash),
    PoolMedataHashTooBig(KeyHash, u64),
}

/// Predicate failures of the governance-certificate rules.
pub enum ConwayGovCertPredFailure {
    ConwayDRepAlreadyRegistered(Credential),
    ConwayDRepNotRegistered(Credential),
    ConwayDRepIncorrectDeposit(DisplayCoin, DisplayCoin),
    ConwayCommitteeHasPreviouslyResigned(Credential),
    ConwayDRepIncorrectRefund(DisplayCoin, DisplayCoin),
    ConwayCommitteeIsUnknown(Credential),
}

/// Predicate failures of the delegation rules.
pub enum ConwayDelegPredFailure {
    IncorrectDepositDELEG(DisplayCoin),
    StakeKeyRegisteredDELEG(Credential),
    StakeKeyNotRegisteredDELEG(Credential),
    StakeKeyHasNonZeroRewardAccountBalanceDELEG(DisplayCoin),
    DelegateeDRepNotRegisteredDELEG(Credential),
    DelegateeStakePoolNotRegisteredDELEG(KeyHash),
}

/// One failure of applying a transaction.
pub enum ApplyConwayTxPredError {
    ConwayUtxowFailure(ConwayUtxoWPredFailure),
    ConwayCertsFailure(ConwayCertsPredFailure),
    ConwayGovFailure(ConwayGovPredFailure),
    ConwayWdrlNotDelegatedToDRep(Vec<KeyHash>),
    ConwayTreasuryValueMismatch(DisplayCoin, DisplayCoin),
    ConwayTxRefScriptsSizeTooBig(i8, i8),
    ConwayMempoolFailure(String),
}

/// All failures of applying one transaction.
pub struct ApplyTxError(pub Vec<ApplyConwayTxPredError>);

/// The era a failing transaction was validated under.
pub enum ShelleyBasedEra {
    ShelleyBasedEraShelley,
    ShelleyBasedEraAllegra,
    ShelleyBasedEraMary,
    ShelleyBasedEraAlonzo,
    ShelleyBasedEraBabbage,
    ShelleyBasedEraConway,
}

/// The outermost decoded value of a rejection payload.
pub enum TxValidationError {
    ByronTxValidationError { error: ApplyTxError },
    ShelleyTxValidationError { error: ApplyTxError, era: ShelleyBasedEra },
}

/// A ledger/block era disagreement, reported verbatim in the envelope.
pub struct EraMismatch {
    pub ledger: String,
    pub other: String,
}

/// The submission API's outer failure envelope.
pub enum TxSubmitFail {
    TxSubmitDecodeHex,
    TxSubmitEmpty,
    TxSubmitDecodeFail(String),
    TxSubmitBadTx(String),
    TxSubmitFail(TxCmdError),
}

/// The command-level failure inside the envelope.
pub enum TxCmdError {
    SocketEnvError(String),
    TxReadError(Vec<String>),
    TxCmdTxSubmitValidationError(TxValidationErrorInCardanoMode),
}

/// The mode wrapper around a validation error.
pub enum TxValidationErrorInCardanoMode {
    TxValidationErrorInCardanoMode(TxValidationError),
    EraMismatch(EraMismatch),
}

} // verus!
