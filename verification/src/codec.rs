//! The wire decoder: helpers that demand one wire shape and report a
//! structured failure otherwise, and the decoders of the primitive
//! wrapper values.  Every reader returns the decoded value and the
//! cursor position after it.

use vstd::prelude::*;
use crate::cbor::{
    spec_array, spec_map, spec_tag, spec_uint, spec_bytes, spec_text, spec_bool, spec_u8_at,
    spec_u16_at, spec_u32_at, spec_i8_at, read_array, read_map, read_tag, read_uint, read_bytes,
    read_text_raw, read_bool, read_u8, read_u16, read_u32, read_i8, skip_item, at_null,
    spec_is_null,
};
use crate::err::{DecodeContext, DecodeError, known_discriminant};
use crate::haskell_types::{
    DisplayCoin, DeltaCoin, EpochNo, SlotNo, KeyHash, VKey, SafeHash, ScriptHash,
    DisplayScriptHash, DatumHash, Bytes, TransactionInput, GovActionId, Network, Credential,
    StakeCredential, RewardAccountFielded, Voter, PlutusPurpose, ConwayPlutusPurpose, PurposeAs,
    AsIx, SerializableTxIn, SerializableTxOut, CustomSet258, StrictMaybe, ValidityInterval,
    RationalNumber, ExUnits, ExUnitPrices, PoolVotingThresholds, DRepVotingThresholds, CostModels,
    ProtocolParamUpdate, ProtocolVersion, Anchor, Constitution, GovAction, ProposalProcedure,
    FailureDescription, TagMismatchDescription, DisplayAssetName, DisplayPolicyId, AssetBundle,
    MultiAsset, DisplayAddress, MaryValue, DisplayValue, Timelock, TimelockRaw, EraScript,
    DatumEnum, DisplayDatumHash, DisplayDatum, DisplayHash, BabbageTxOut, ConwayTxCert,
    ConwayDelegCert, Delegatee, PoolCert, CollectError, ConwayUtxosPredFailure, ConwayUtxoPredFailure,
    ConwayUtxoWPredFailure, ConwayGovPredFailure, ConwayCertsPredFailure, ConwayCertPredFailure,
    ShelleyPoolPredFailure, ConwayGovCertPredFailure, ConwayDelegPredFailure,
    ApplyConwayTxPredError, ApplyTxError, ShelleyBasedEra, TxValidationError, Array, Mismatch,
    Utxo, DisplayExUnits,
};
use crate::haskells_show_string::string_from_utf8;
use crate::hashing::{blake2b_256, blake2b256_of};
use crate::render_outputs::{spec_account_network, credential_matches, get_network_and_credentials};

verus! {

/// The defensive bound on self-wrapping recursion: a payload nesting a
/// value inside itself more deeply than this fails decoding instead of
/// exhausting the call stack.
pub const MAX_NESTING_DEPTH: u32 = 1024;

/// Demands an array head.
pub fn want_array(b: &[u8], pos: usize, ctx: DecodeContext) -> (r: Result<
    (Option<u64>, usize),
    DecodeError,
>)
    ensures
        match r {
            Ok((len, p)) => spec_array(b@, pos as int) == Some((len, p as int)) && pos < p
                <= b@.len(),
            Err(e) => spec_array(b@, pos as int) is None && e == (DecodeError::UnexpectedType {
                context: ctx,
            }),
        },
{
    match read_array(b, pos) {
        Some((len, p)) => Ok((len, p)),
        None => Err(DecodeError::UnexpectedType { context: ctx }),
    }
}

/// Demands a map head.
pub fn want_map(b: &[u8], pos: usize, ctx: DecodeContext) -> (r: Result<
    (Option<u64>, usize),
    DecodeError,
>)
    ensures
        match r {
            Ok((len, p)) => spec_map(b@, pos as int) == Some((len, p as int)) && pos < p
                <= b@.len(),
            Err(e) => spec_map(b@, pos as int) is None && e == (DecodeError::UnexpectedType {
                context: ctx,
            }),
        },
{
    match read_map(b, pos) {
        Some((len, p)) => Ok((len, p)),
        None => Err(DecodeError::UnexpectedType { context: ctx }),
    }
}

/// Demands a tag.
pub fn want_tag(b: &[u8], pos: usize, ctx: DecodeContext) -> (r: Result<(u64, usize), DecodeError>)
    ensures
        match r {
            Ok((t, p)) => spec_tag(b@, pos as int) == Some((t, p as int)) && pos < p <= b@.len(),
            Err(e) => spec_tag(b@, pos as int) is None && e == (DecodeError::UnexpectedType {
                context: ctx,
            }),
        },
{
    match read_tag(b, pos) {
        Some((t, p)) => Ok((t, p)),
        None => Err(DecodeError::UnexpectedType { context: ctx }),
    }
}

/// Demands an unsigned integer of any width.
pub fn want_u64(b: &[u8], pos: usize, ctx: DecodeContext) -> (r: Result<(u64, usize), DecodeError>)
    ensures
        match r {
            Ok((v, p)) => spec_uint(b@, pos as int) == Some((v, p as int)) && pos < p <= b@.len(),
            Err(e) => spec_uint(b@, pos as int) is None && e == (DecodeError::UnexpectedType {
                context: ctx,
            }),
        },
{
    match read_uint(b, pos) {
        Some((v, p)) => Ok((v, p)),
        None => Err(DecodeError::UnexpectedType { context: ctx }),
    }
}

/// Demands an unsigned integer of discriminant width.
pub fn want_u16(b: &[u8], pos: usize, ctx: DecodeContext) -> (r: Result<(u64, usize), DecodeError>)
    ensures
        match r {
            Ok((v, p)) => spec_u16_at(b@, pos as int) == Some((v, p as int)) && pos < p
                <= b@.len() && v <= 0xffff,
            Err(e) => spec_u16_at(b@, pos as int) is None && e == (DecodeError::UnexpectedType {
                context: ctx,
            }),
        },
{
    match read_u16(b, pos) {
        Some((v, p)) => Ok((v, p)),
        None => Err(DecodeError::UnexpectedType { context: ctx }),
    }
}

/// Demands an unsigned integer of byte width.
pub fn want_u8(b: &[u8], pos: usize, ctx: DecodeContext) -> (r: Result<(u64, usize), DecodeError>)
    ensures
        match r {
            Ok((v, p)) => spec_u8_at(b@, pos as int) == Some((v, p as int)) && pos < p <= b@.len(),
            Err(e) => spec_u8_at(b@, pos as int) is None && e == (DecodeError::UnexpectedType {
                context: ctx,
            }),
        },
{
    match read_u8(b, pos) {
        Some((v, p)) => Ok((v, p)),
        None => Err(DecodeError::UnexpectedType { context: ctx }),
    }
}

/// Demands an unsigned integer of 32-bit width.
pub fn want_u32(b: &[u8], pos: usize, ctx: DecodeContext) -> (r: Result<(u64, usize), DecodeError>)
    ensures
        match r {
            Ok((v, p)) => spec_u32_at(b@, pos as int) == Some((v, p as int)) && pos < p
                <= b@.len() && v <= 0xffffffff,
            Err(e) => spec_u32_at(b@, pos as int) is None && e == (DecodeError::UnexpectedType {
                context: ctx,
            }),
        },
{
    match read_u32(b, pos) {
        Some((v, p)) => Ok((v, p)),
        None => Err(DecodeError::UnexpectedType { context: ctx }),
    }
}

/// Demands a signed 8-bit integer.
pub fn want_i8(b: &[u8], pos: usize, ctx: DecodeContext) -> (r: Result<(i8, usize), DecodeError>)
    ensures
        match r {
            Ok((v, p)) => spec_i8_at(b@, pos as int) == Some((v, p as int)) && pos < p <= b@.len(),
            Err(e) => spec_i8_at(b@, pos as int) is None && e == (DecodeError::UnexpectedType {
                context: ctx,
            }),
        },
{
    match read_i8(b, pos) {
        Some((v, p)) => Ok((v, p)),
        None => Err(DecodeError::UnexpectedType { context: ctx }),
    }
}

/// Demands a byte string.
pub fn want_bytes(b: &[u8], pos: usize, ctx: DecodeContext) -> (r: Result<
    (Vec<u8>, usize),
    DecodeError,
>)
    ensures
        match r {
            Ok((v, p)) => spec_bytes(b@, pos as int) == Some((v@, p as int)) && pos < p
                <= b@.len(),
            Err(e) => spec_bytes(b@, pos as int) is None && e == (DecodeError::UnexpectedType {
                context: ctx,
            }),
        },
{
    match read_bytes(b, pos) {
        Some((v, p)) => Ok((v, p)),
        None => Err(DecodeError::UnexpectedType { context: ctx }),
    }
}

/// Demands a boolean.
pub fn want_bool(b: &[u8], pos: usize, ctx: DecodeContext) -> (r: Result<
    (bool, usize),
    DecodeError,
>)
    ensures
        match r {
            Ok((v, p)) => spec_bool(b@, pos as int) == Some((v, p as int)) && pos < p <= b@.len(),
            Err(e) => spec_bool(b@, pos as int) is None && e == (DecodeError::UnexpectedType {
                context: ctx,
            }),
        },
{
    match read_bool(b, pos) {
        Some((v, p)) => Ok((v, p)),
        None => Err(DecodeError::UnexpectedType { context: ctx }),
    }
}

/// Demands a text string and decodes its UTF-8.
pub fn want_text(b: &[u8], pos: usize, ctx: DecodeContext) -> (r: Result<
    (String, usize),
    DecodeError,
>)
    ensures
        match r {
            Ok((v, p)) => spec_text(b@, pos as int) matches Some((raw, q)) && p == q
                && vstd::utf8::valid_utf8(raw) && v@ == vstd::utf8::decode_utf8(raw) && pos < p
                <= b@.len(),
            Err(e) => (spec_text(b@, pos as int) is None && e == (DecodeError::UnexpectedType {
                context: ctx,
            })) || (spec_text(b@, pos as int) matches Some((raw, _)) && !vstd::utf8::valid_utf8(
                raw,
            ) && e == DecodeError::InvalidText),
        },
{
    match read_text_raw(b, pos) {
        Some((raw, p)) => match string_from_utf8(raw) {
            Some(s) => Ok((s, p)),
            None => Err(DecodeError::InvalidText),
        },
        None => Err(DecodeError::UnexpectedType { context: ctx }),
    }
}

/// The discriminant that opens a compound value, together with the
/// position of the first field after it: the array head followed by a
/// small unsigned integer.
pub open spec fn spec_disc(b: Seq<u8>, pos: int) -> Option<(u64, int)> {
    match spec_array(b, pos) {
        Some((_len, p)) => spec_u16_at(b, p),
        None => None,
    }
}

/// The discriminant alone.
pub open spec fn disc_of(b: Seq<u8>, pos: int) -> Option<u64> {
    match spec_disc(b, pos) {
        Some((d, _)) => Some(d),
        None => None,
    }
}

/// Reads the array head and discriminant of a compound value.
pub fn read_disc(b: &[u8], pos: usize, ctx: DecodeContext) -> (r: Result<
    (u64, usize),
    DecodeError,
>)
    ensures
        match r {
            Ok((d, p)) => disc_of(b@, pos as int) == Some(d) && spec_disc(b@, pos as int)
                == Some((d, p as int)) && pos < p <= b@.len(),
            Err(e) => disc_of(b@, pos as int) is None && e == (DecodeError::UnexpectedType {
                context: ctx,
            }),
        },
{
    let (_len, p) = want_array(b, pos, ctx)?;
    let (d, q) = want_u16(b, p, ctx)?;
    Ok((d, q))
}

/// Reads a coin amount.
pub fn decode_coin(b: &[u8], pos: usize) -> (r: Result<(DisplayCoin, usize), DecodeError>)
    ensures
        match r {
            Ok((v, p)) => spec_uint(b@, pos as int) == Some((v.0, p as int)) && pos < p
                <= b@.len(),
            Err(_) => spec_uint(b@, pos as int) is None,
        },
{
    let (v, p) = want_u64(b, pos, DecodeContext::ApplyTxPredError)?;
    Ok((DisplayCoin(v), p))
}

/// Reads a coin difference.
pub fn decode_delta_coin(b: &[u8], pos: usize) -> (r: Result<(DeltaCoin, usize), DecodeError>)
    ensures
        match r {
            Ok((v, p)) => spec_uint(b@, pos as int) == Some((v.0, p as int)) && pos < p
                <= b@.len(),
            Err(_) => spec_uint(b@, pos as int) is None,
        },
{
    let (v, p) = want_u64(b, pos, DecodeContext::ConwayUtxoPredFailure)?;
    Ok((DeltaCoin(v), p))
}

/// Reads an epoch number.
pub fn decode_epoch(b: &[u8], pos: usize) -> (r: Result<(EpochNo, usize), DecodeError>)
    ensures
        match r {
            Ok((v, p)) => spec_uint(b@, pos as int) == Some((v.0, p as int)) && pos < p
                <= b@.len(),
            Err(_) => spec_uint(b@, pos as int) is None,
        },
{
    let (v, p) = want_u64(b, pos, DecodeContext::ShelleyPoolPredFailure)?;
    Ok((EpochNo(v), p))
}

/// Reads a slot number.
pub fn decode_slot(b: &[u8], pos: usize) -> (r: Result<(SlotNo, usize), DecodeError>)
    ensures
        match r {
            Ok((v, p)) => spec_uint(b@, pos as int) == Some((v.0, p as int)) && pos < p
                <= b@.len(),
            Err(_) => spec_uint(b@, pos as int) is None,
        },
{
    let (v, p) = want_u64(b, pos, DecodeContext::ConwayUtxoPredFailure)?;
    Ok((SlotNo(v), p))
}

/// Reads a key hash.
pub fn decode_keyhash(b: &[u8], pos: usize) -> (r: Result<(KeyHash, usize), DecodeError>)
    ensures
        match r {
            Ok((v, p)) => spec_bytes(b@, pos as int) == Some((v.0@, p as int)) && pos < p
                <= b@.len(),
            Err(_) => spec_bytes(b@, pos as int) is None,
        },
{
    let (v, p) = want_bytes(b, pos, DecodeContext::ApplyTxPredError)?;
    Ok((KeyHash(v), p))
}

/// Reads a verification key.
pub fn decode_vkey(b: &[u8], pos: usize) -> (r: Result<(VKey, usize), DecodeError>)
    ensures
        match r {
            Ok((v, p)) => spec_bytes(b@, pos as int) == Some((v.0@, p as int)) && pos < p
                <= b@.len(),
            Err(_) => spec_bytes(b@, pos as int) is None,
        },
{
    let (v, p) = want_bytes(b, pos, DecodeContext::ConwayUtxoWPredFailure)?;
    Ok((VKey(v), p))
}

/// Reads a safe hash.
pub fn decode_safehash(b: &[u8], pos: usize) -> (r: Result<(SafeHash, usize), DecodeError>)
    ensures
        match r {
            Ok((v, p)) => spec_bytes(b@, pos as int) == Some((v.0@, p as int)) && pos < p
                <= b@.len(),
            Err(_) => spec_bytes(b@, pos as int) is None,
        },
{
    let (v, p) = want_bytes(b, pos, DecodeContext::ConwayUtxoWPredFailure)?;
    Ok((SafeHash(v), p))
}

/// Reads a script hash.
pub fn decode_scripthash(b: &[u8], pos: usize) -> (r: Result<(ScriptHash, usize), DecodeError>)
    ensures
        match r {
            Ok((v, p)) => spec_bytes(b@, pos as int) == Some((v.0@, p as int)) && pos < p
                <= b@.len(),
            Err(_) => spec_bytes(b@, pos as int) is None,
        },
{
    let (v, p) = want_bytes(b, pos, DecodeContext::ConwayUtxoWPredFailure)?;
    Ok((ScriptHash(v), p))
}

/// Reads a script hash in optional positions.
pub fn decode_display_scripthash(b: &[u8], pos: usize) -> (r: Result<
    (DisplayScriptHash, usize),
    DecodeError,
>)
    ensures
        match r {
            Ok((v, p)) => spec_bytes(b@, pos as int) == Some((v.0@, p as int)) && pos < p
                <= b@.len(),
            Err(_) => spec_bytes(b@, pos as int) is None,
        },
{
    let (v, p) = want_bytes(b, pos, DecodeContext::ConwayGovPredFailure)?;
    Ok((DisplayScriptHash(v), p))
}

/// Reads a datum hash.
pub fn decode_datumhash(b: &[u8], pos: usize) -> (r: Result<(DatumHash, usize), DecodeError>)
    ensures
        match r {
            Ok((v, p)) => spec_bytes(b@, pos as int) == Some((v.0@, p as int)) && pos < p
                <= b@.len(),
            Err(_) => spec_bytes(b@, pos as int) is None,
        },
{
    let (v, p) = want_bytes(b, pos, DecodeContext::ConwayUtxoWPredFailure)?;
    Ok((DatumHash(v), p))
}

/// Reads an uninterpreted byte string.
pub fn decode_bytes_value(b: &[u8], pos: usize) -> (r: Result<(Bytes, usize), DecodeError>)
    ensures
        match r {
            Ok((v, p)) => spec_bytes(b@, pos as int) == Some((v.0@, p as int)) && pos < p
                <= b@.len(),
            Err(_) => spec_bytes(b@, pos as int) is None,
        },
{
    let (v, p) = want_bytes(b, pos, DecodeContext::ConwayUtxoWPredFailure)?;
    Ok((Bytes(v), p))
}

/// The wire components of a transaction input: the producing
/// transaction's hash, the output index, and the end position.
pub open spec fn sparse_txin(b: Seq<u8>, pos: int) -> Option<(Seq<u8>, u64, int)> {
    match spec_array(b, pos) {
        Some((_len, p1)) => match spec_bytes(b, p1) {
            Some((h, p2)) => match spec_uint(b, p2) {
                Some((ix, p3)) => Some((h, ix, p3)),
                None => None,
            },
            None => None,
        },
        None => None,
    }
}

/// Reads a transaction input: the producing transaction and the index.
pub fn decode_txin(b: &[u8], pos: usize) -> (r: Result<(TransactionInput, usize), DecodeError>)
    ensures
        r matches Ok((_, p)) ==> pos < p <= b@.len(),
        match sparse_txin(b@, pos as int) {
            Some((h, ix, end)) => r matches Ok(t) && t.1 == end && t.0.transaction_id@ == h
                && t.0.index == ix,
            None => r is Err,
        },
{
    let (_len, p1) = want_array(b, pos, DecodeContext::ConwayUtxoPredFailure)?;
    let (h, p2) = want_bytes(b, p1, DecodeContext::ConwayUtxoPredFailure)?;
    let (ix, p3) = want_u64(b, p2, DecodeContext::ConwayUtxoPredFailure)?;
    Ok((TransactionInput { transaction_id: h, index: ix }, p3))
}

/// The wire components of a governance action identifier.
pub open spec fn sparse_gov_action_id(b: Seq<u8>, pos: int) -> Option<(Seq<u8>, u64, int)> {
    match spec_array(b, pos) {
        Some((_len, p1)) => match spec_bytes(b, p1) {
            Some((h, p2)) => match spec_u32_at(b, p2) {
                Some((ix, p3)) => Some((h, ix, p3)),
                None => None,
            },
            None => None,
        },
        None => None,
    }
}

/// Reads a governance action identifier.
pub fn decode_gov_action_id(b: &[u8], pos: usize) -> (r: Result<(GovActionId, usize), DecodeError>)
    ensures
        r matches Ok((_, p)) ==> pos < p <= b@.len(),
        match sparse_gov_action_id(b@, pos as int) {
            Some((h, ix, end)) => r matches Ok(t) && t.1 == end && t.0.transaction_id@ == h
                && t.0.action_index == ix,
            None => r is Err,
        },
{
    let (_len, p1) = want_array(b, pos, DecodeContext::ConwayGovPredFailure)?;
    let (h, p2) = want_bytes(b, p1, DecodeContext::ConwayGovPredFailure)?;
    let (ix, p3) = want_u32(b, p2, DecodeContext::ConwayGovPredFailure)?;
    Ok((GovActionId { transaction_id: h, action_index: ix as u32 }, p3))
}


/// The wire components of a credential: its kind discriminant and hash.
pub open spec fn sparse_credential(b: Seq<u8>, pos: int) -> Option<(u64, Seq<u8>, int)> {
    match spec_disc(b, pos) {
        Some((d, p)) => if d <= 1 {
            match spec_bytes(b, p) {
                Some((h, q)) => Some((d, h, q)),
                None => None,
            }
        } else {
            None
        },
        None => None,
    }
}

/// Whether a credential value is the one a kind and hash spell.
pub open spec fn credential_is(c: Credential, kind: u64, h: Seq<u8>) -> bool {
    match c {
        Credential::KeyHashObj(x) => kind == 0 && x@ == h,
        Credential::ScriptHashObj(x) => kind == 1 && x@ == h,
    }
}

/// The network a published network discriminant selects.
pub open spec fn net_of(d: u64) -> Network
    recommends
        d <= 1,
{
    if d == 0 {
        Network::Testnet
    } else {
        Network::Mainnet
    }
}

/// The network discriminant at `pos`, as its strict-width read gives it.
pub open spec fn sparse_network(b: Seq<u8>, pos: int) -> Option<(Network, int)> {
    match spec_u16_at(b, pos) {
        Some((d, p)) => if d <= 1 {
            Some((net_of(d), p))
        } else {
            None
        },
        None => None,
    }
}

/// Reads a network discriminant, which stands bare on the wire.
pub fn decode_network(b: &[u8], pos: usize) -> (r: Result<(Network, usize), DecodeError>)
    ensures
        match r {
            Ok((v, p)) => spec_u16_at(b@, pos as int) matches Some((d, q)) && p == q && d <= 1 && v
                == (if d == 0 {
                Network::Testnet
            } else {
                Network::Mainnet
            }) && pos < p <= b@.len(),
            Err(e) => spec_u16_at(b@, pos as int) matches Some((d, _)) ==> (d > 1 && e
                == (DecodeError::UnknownDiscriminant { context: DecodeContext::Network, value: d })),
        },
{
    let (d, p) = want_u16(b, pos, DecodeContext::Network)?;
    if d == 0 {
        Ok((Network::Testnet, p))
    } else if d == 1 {
        Ok((Network::Mainnet, p))
    } else {
        Err(DecodeError::UnknownDiscriminant { context: DecodeContext::Network, value: d })
    }
}

/// Reads a credential: a key-hash or script-hash object.
pub fn decode_credential(b: &[u8], pos: usize) -> (r: Result<(Credential, usize), DecodeError>)
    ensures
        r matches Ok((_, p)) ==> pos < p <= b@.len(),
        disc_of(b@, pos as int) matches Some(d) ==> (d <= 1 || (r matches Err(e) && e
            == (DecodeError::UnknownDiscriminant {
            context: DecodeContext::Credential,
            value: d,
        }))),
        r matches Ok(_) ==> (disc_of(b@, pos as int) matches Some(d) && d <= 1),
        spec_disc(b@, pos as int) matches Some((d, p)) ==> (d <= 1 ==> match spec_bytes(b@, p) {
            Some((h, q)) => r matches Ok(t) && t.1 == q && (match t.0 {
                Credential::KeyHashObj(x) => d == 0 && x@ == h,
                Credential::ScriptHashObj(x) => d == 1 && x@ == h,
            }),
            None => r is Err,
        }),
{
    let (d, p) = read_disc(b, pos, DecodeContext::Credential)?;
    if d == 0 {
        let (h, q) = want_bytes(b, p, DecodeContext::Credential)?;
        Ok((Credential::KeyHashObj(h), q))
    } else if d == 1 {
        let (h, q) = want_bytes(b, p, DecodeContext::Credential)?;
        Ok((Credential::ScriptHashObj(h), q))
    } else {
        Err(DecodeError::UnknownDiscriminant { context: DecodeContext::Credential, value: d })
    }
}

/// Reads a stake credential.
pub fn decode_stake_credential(b: &[u8], pos: usize) -> (r: Result<
    (StakeCredential, usize),
    DecodeError,
>)
    ensures
        r matches Ok((_, p)) ==> pos < p <= b@.len(),
        disc_of(b@, pos as int) matches Some(d) ==> (d <= 1 || (r matches Err(e) && e
            == (DecodeError::UnknownDiscriminant {
            context: DecodeContext::Credential,
            value: d,
        }))),
        r matches Ok(_) ==> (disc_of(b@, pos as int) matches Some(d) && d <= 1),
        spec_disc(b@, pos as int) matches Some((d, p)) ==> (d <= 1 ==> match spec_bytes(b@, p) {
            Some((h, q)) => r matches Ok(t) && t.1 == q && (match t.0 {
                StakeCredential::AddrKeyhash(x) => d == 0 && x@ == h,
                StakeCredential::ScriptHash(x) => d == 1 && x@ == h,
            }),
            None => r is Err,
        }),
{
    let (d, p) = read_disc(b, pos, DecodeContext::Credential)?;
    if d == 0 {
        let (h, q) = want_bytes(b, p, DecodeContext::Credential)?;
        Ok((StakeCredential::AddrKeyhash(h), q))
    } else if d == 1 {
        let (h, q) = want_bytes(b, p, DecodeContext::Credential)?;
        Ok((StakeCredential::ScriptHash(h), q))
    } else {
        Err(DecodeError::UnknownDiscriminant { context: DecodeContext::Credential, value: d })
    }
}

/// Reads a reward account: a byte string whose first byte carries the
/// network and credential kind.
pub fn decode_reward_account(b: &[u8], pos: usize) -> (r: Result<
    (RewardAccountFielded, usize),
    DecodeError,
>)
    ensures
        r matches Ok((_, p)) ==> pos < p <= b@.len(),
        match spec_bytes(b@, pos as int) {
            Some((raw, q)) => if raw.len() >= 29 {
                r matches Ok(t) && t.1 == q && t.0.ra_network == spec_account_network(raw)
                    && credential_matches(t.0.ra_credential, raw)
            } else {
                r is Err
            },
            None => r is Err,
        },
{
    let (raw, p) = want_bytes(b, pos, DecodeContext::RewardAccount)?;
    if raw.len() < 29 {
        return Err(DecodeError::UnexpectedType { context: DecodeContext::RewardAccount });
    }
    let (network, credential) = get_network_and_credentials(raw.as_slice());
    Ok((RewardAccountFielded { ra_network: network, ra_credential: credential }, p))
}

/// Reads a sequence of key hashes, definite or indefinite length.
#[verifier::loop_isolation(false)]
pub fn decode_keyhash_list(b: &[u8], pos: usize) -> (r: Result<(Vec<KeyHash>, usize), DecodeError>)
    ensures
        r matches Ok((_, p)) ==> pos < p <= b@.len(),
        spec_array(b@, pos as int) matches Some((len, q)) ==> (len == Some(0u64) ==> (r matches
            Ok(t) && t.0@.len() == 0 && t.1 == q)),
        spec_array(b@, pos as int) is None ==> r is Err,
{
    let (len_opt, start) = want_array(b, pos, DecodeContext::ApplyTxPredError)?;
    let mut out: Vec<KeyHash> = Vec::new();
    let mut cur = start;
    match len_opt {
        Some(n) => {
            let mut i: u64 = 0;
            while i < n
                invariant
                    pos < cur <= b@.len(),
                    n == 0 ==> out@.len() == 0 && cur == start,
                decreases n - i,
            {
                match decode_keyhash(b, cur) {
                    Ok((v, p)) => {
                        out.push(v);
                        cur = p;
                    },
                    Err(e) => {
                        return Err(e);
                    },
                }
                i = i + 1;
            }
        },
        None => {
            loop
                invariant
                    pos < cur <= b@.len(),
                decreases b@.len() - cur,
            {
                if cur >= b.len() {
                    return Err(DecodeError::Truncated);
                }
                if b[cur] == 0xff {
                    cur = cur + 1;
                    break ;
                }
                match decode_keyhash(b, cur) {
                    Ok((v, p)) => {
                        out.push(v);
                        cur = p;
                    },
                    Err(e) => {
                        return Err(e);
                    },
                }
            }
        },
    }
    Ok((out, cur))
}

/// Reads a sequence of governance action identifiers, definite or indefinite length.
#[verifier::loop_isolation(false)]
pub fn decode_gov_action_id_list(b: &[u8], pos: usize) -> (r: Result<(Vec<GovActionId>, usize), DecodeError>)
    ensures
        r matches Ok((_, p)) ==> pos < p <= b@.len(),
        spec_array(b@, pos as int) matches Some((len, q)) ==> (len == Some(0u64) ==> (r matches
            Ok(t) && t.0@.len() == 0 && t.1 == q)),
        spec_array(b@, pos as int) is None ==> r is Err,
{
    let (len_opt, start) = want_array(b, pos, DecodeContext::ConwayGovPredFailure)?;
    let mut out: Vec<GovActionId> = Vec::new();
    let mut cur = start;
    match len_opt {
        Some(n) => {
            let mut i: u64 = 0;
            while i < n
                invariant
                    pos < cur <= b@.len(),
                    n == 0 ==> out@.len() == 0 && cur == start,
                decreases n - i,
            {
                match decode_gov_action_id(b, cur) {
                    Ok((v, p)) => {
                        out.push(v);
                        cur = p;
                    },
                    Err(e) => {
                        return Err(e);
                    },
                }
                i = i + 1;
            }
        },
        None => {
            loop
                invariant
                    pos < cur <= b@.len(),
                decreases b@.len() - cur,
            {
                if cur >= b.len() {
                    return Err(DecodeError::Truncated);
                }
                if b[cur] == 0xff {
                    cur = cur + 1;
                    break ;
                }
                match decode_gov_action_id(b, cur) {
                    Ok((v, p)) => {
                        out.push(v);
                        cur = p;
                    },
                    Err(e) => {
                        return Err(e);
                    },
                }
            }
        },
    }
    Ok((out, cur))
}

/// Reads a sequence of voter and action pairs, definite or indefinite length.
#[verifier::loop_isolation(false)]
pub fn decode_voter_gaid_list(b: &[u8], pos: usize) -> (r: Result<(Vec<(Voter, GovActionId)>, usize), DecodeError>)
    ensures
        r matches Ok((_, p)) ==> pos < p <= b@.len(),
        spec_array(b@, pos as int) matches Some((len, q)) ==> (len == Some(0u64) ==> (r matches
            Ok(t) && t.0@.len() == 0 && t.1 == q)),
        spec_array(b@, pos as int) is None ==> r is Err,
{
    let (len_opt, start) = want_array(b, pos, DecodeContext::ConwayGovPredFailure)?;
    let mut out: Vec<(Voter, GovActionId)> = Vec::new();
    let mut cur = start;
    match len_opt {
        Some(n) => {
            let mut i: u64 = 0;
            while i < n
                invariant
                    pos < cur <= b@.len(),
                    n == 0 ==> out@.len() == 0 && cur == start,
                decreases n - i,
            {
                match decode_voter_gaid_pair(b, cur) {
                    Ok((v, p)) => {
                        out.push(v);
                        cur = p;
                    },
                    Err(e) => {
                        return Err(e);
                    },
                }
                i = i + 1;
            }
        },
        None => {
            loop
                invariant
                    pos < cur <= b@.len(),
                decreases b@.len() - cur,
            {
                if cur >= b.len() {
                    return Err(DecodeError::Truncated);
                }
                if b[cur] == 0xff {
                    cur = cur + 1;
                    break ;
                }
                match decode_voter_gaid_pair(b, cur) {
                    Ok((v, p)) => {
                        out.push(v);
                        cur = p;
                    },
                    Err(e) => {
                        return Err(e);
                    },
                }
            }
        },
    }
    Ok((out, cur))
}

/// Reads a sequence of voters, definite or indefinite length.
#[verifier::loop_isolation(false)]
pub fn decode_voter_list(b: &[u8], pos: usize) -> (r: Result<(Vec<Voter>, usize), DecodeError>)
    ensures
        r matches Ok((_, p)) ==> pos < p <= b@.len(),
        spec_array(b@, pos as int) matches Some((len, q)) ==> (len == Some(0u64) ==> (r matches
            Ok(t) && t.0@.len() == 0 && t.1 == q)),
        spec_array(b@, pos as int) is None ==> r is Err,
{
    let (len_opt, start) = want_array(b, pos, DecodeContext::ConwayGovPredFailure)?;
    let mut out: Vec<Voter> = Vec::new();
    let mut cur = start;
    match len_opt {
        Some(n) => {
            let mut i: u64 = 0;
            while i < n
                invariant
                    pos < cur <= b@.len(),
                    n == 0 ==> out@.len() == 0 && cur == start,
                decreases n - i,
            {
                match decode_voter(b, cur) {
                    Ok((v, p)) => {
                        out.push(v);
                        cur = p;
                    },
                    Err(e) => {
                        return Err(e);
                    },
                }
                i = i + 1;
            }
        },
        None => {
            loop
                invariant
                    pos < cur <= b@.len(),
                decreases b@.len() - cur,
            {
                if cur >= b.len() {
                    return Err(DecodeError::Truncated);
                }
                if b[cur] == 0xff {
                    cur = cur + 1;
                    break ;
                }
                match decode_voter(b, cur) {
                    Ok((v, p)) => {
                        out.push(v);
                        cur = p;
                    },
                    Err(e) => {
                        return Err(e);
                    },
                }
            }
        },
    }
    Ok((out, cur))
}

/// Reads a sequence of reward accounts, definite or indefinite length.
#[verifier::loop_isolation(false)]
pub fn decode_reward_account_list(b: &[u8], pos: usize) -> (r: Result<(Vec<RewardAccountFielded>, usize), DecodeError>)
    ensures
        r matches Ok((_, p)) ==> pos < p <= b@.len(),
        spec_array(b@, pos as int) matches Some((len, q)) ==> (len == Some(0u64) ==> (r matches
            Ok(t) && t.0@.len() == 0 && t.1 == q)),
        spec_array(b@, pos as int) is None ==> r is Err,
{
    let (len_opt, start) = want_array(b, pos, DecodeContext::ConwayGovPredFailure)?;
    let mut out: Vec<RewardAccountFielded> = Vec::new();
    let mut cur = start;
    match len_opt {
        Some(n) => {
            let mut i: u64 = 0;
            while i < n
                invariant
                    pos < cur <= b@.len(),
                    n == 0 ==> out@.len() == 0 && cur == start,
                decreases n - i,
            {
                match decode_reward_account(b, cur) {
                    Ok((v, p)) => {
                        out.push(v);
                        cur = p;
                    },
                    Err(e) => {
                        return Err(e);
                    },
                }
                i = i + 1;
            }
        },
        None => {
            loop
                invariant
                    pos < cur <= b@.len(),
                decreases b@.len() - cur,
            {
                if cur >= b.len() {
                    return Err(DecodeError::Truncated);
                }
                if b[cur] == 0xff {
                    cur = cur + 1;
                    break ;
                }
                match decode_reward_account(b, cur) {
                    Ok((v, p)) => {
                        out.push(v);
                        cur = p;
                    },
                    Err(e) => {
                        return Err(e);
                    },
                }
            }
        },
    }
    Ok((out, cur))
}

/// Reads a sequence of datum hashes, definite or indefinite length.
#[verifier::loop_isolation(false)]
pub fn decode_datumhash_list(b: &[u8], pos: usize) -> (r: Result<(Vec<DatumHash>, usize), DecodeError>)
    ensures
        r matches Ok((_, p)) ==> pos < p <= b@.len(),
        spec_array(b@, pos as int) matches Some((len, q)) ==> (len == Some(0u64) ==> (r matches
            Ok(t) && t.0@.len() == 0 && t.1 == q)),
        spec_array(b@, pos as int) is None ==> r is Err,
{
    let (len_opt, start) = want_array(b, pos, DecodeContext::ConwayUtxoWPredFailure)?;
    let mut out: Vec<DatumHash> = Vec::new();
    let mut cur = start;
    match len_opt {
        Some(n) => {
            let mut i: u64 = 0;
            while i < n
                invariant
                    pos < cur <= b@.len(),
                    n == 0 ==> out@.len() == 0 && cur == start,
                decreases n - i,
            {
                match decode_datumhash(b, cur) {
                    Ok((v, p)) => {
                        out.push(v);
                        cur = p;
                    },
                    Err(e) => {
                        return Err(e);
                    },
                }
                i = i + 1;
            }
        },
        None => {
            loop
                invariant
                    pos < cur <= b@.len(),
                decreases b@.len() - cur,
            {
                if cur >= b.len() {
                    return Err(DecodeError::Truncated);
                }
                if b[cur] == 0xff {
                    cur = cur + 1;
                    break ;
                }
                match decode_datumhash(b, cur) {
                    Ok((v, p)) => {
                        out.push(v);
                        cur = p;
                    },
                    Err(e) => {
                        return Err(e);
                    },
                }
            }
        },
    }
    Ok((out, cur))
}

/// Reads a sequence of transaction inputs, definite or indefinite length.
#[verifier::loop_isolation(false)]
pub fn decode_txin_list(b: &[u8], pos: usize) -> (r: Result<(Vec<SerializableTxIn>, usize), DecodeError>)
    ensures
        r matches Ok((_, p)) ==> pos < p <= b@.len(),
        spec_array(b@, pos as int) matches Some((len, q)) ==> (len == Some(0u64) ==> (r matches
            Ok(t) && t.0@.len() == 0 && t.1 == q)),
        spec_array(b@, pos as int) is None ==> r is Err,
{
    let (len_opt, start) = want_array(b, pos, DecodeContext::ConwayUtxoPredFailure)?;
    let mut out: Vec<SerializableTxIn> = Vec::new();
    let mut cur = start;
    match len_opt {
        Some(n) => {
            let mut i: u64 = 0;
            while i < n
                invariant
                    pos < cur <= b@.len(),
                    n == 0 ==> out@.len() == 0 && cur == start,
                decreases n - i,
            {
                match decode_stxin(b, cur) {
                    Ok((v, p)) => {
                        out.push(v);
                        cur = p;
                    },
                    Err(e) => {
                        return Err(e);
                    },
                }
                i = i + 1;
            }
        },
        None => {
            loop
                invariant
                    pos < cur <= b@.len(),
                decreases b@.len() - cur,
            {
                if cur >= b.len() {
                    return Err(DecodeError::Truncated);
                }
                if b[cur] == 0xff {
                    cur = cur + 1;
                    break ;
                }
                match decode_stxin(b, cur) {
                    Ok((v, p)) => {
                        out.push(v);
                        cur = p;
                    },
                    Err(e) => {
                        return Err(e);
                    },
                }
            }
        },
    }
    Ok((out, cur))
}

/// Reads a sequence of verification keys, definite or indefinite length.
#[verifier::loop_isolation(false)]
pub fn decode_vkey_list(b: &[u8], pos: usize) -> (r: Result<(Vec<VKey>, usize), DecodeError>)
    ensures
        r matches Ok((_, p)) ==> pos < p <= b@.len(),
        spec_array(b@, pos as int) matches Some((len, q)) ==> (len == Some(0u64) ==> (r matches
            Ok(t) && t.0@.len() == 0 && t.1 == q)),
        spec_array(b@, pos as int) is None ==> r is Err,
{
    let (len_opt, start) = want_array(b, pos, DecodeContext::ConwayUtxoWPredFailure)?;
    let mut out: Vec<VKey> = Vec::new();
    let mut cur = start;
    match len_opt {
        Some(n) => {
            let mut i: u64 = 0;
            while i < n
                invariant
                    pos < cur <= b@.len(),
                    n == 0 ==> out@.len() == 0 && cur == start,
                decreases n - i,
            {
                match decode_vkey(b, cur) {
                    Ok((v, p)) => {
                        out.push(v);
                        cur = p;
                    },
                    Err(e) => {
                        return Err(e);
                    },
                }
                i = i + 1;
            }
        },
        None => {
            loop
                invariant
                    pos < cur <= b@.len(),
                decreases b@.len() - cur,
            {
                if cur >= b.len() {
                    return Err(DecodeError::Truncated);
                }
                if b[cur] == 0xff {
                    cur = cur + 1;
                    break ;
                }
                match decode_vkey(b, cur) {
                    Ok((v, p)) => {
                        out.push(v);
                        cur = p;
                    },
                    Err(e) => {
                        return Err(e);
                    },
                }
            }
        },
    }
    Ok((out, cur))
}

/// Reads a sequence of script purposes, definite or indefinite length.
#[verifier::loop_isolation(false)]
pub fn decode_plutus_purpose_list(b: &[u8], pos: usize) -> (r: Result<(Vec<PlutusPurpose>, usize), DecodeError>)
    ensures
        r matches Ok((_, p)) ==> pos < p <= b@.len(),
        spec_array(b@, pos as int) matches Some((len, q)) ==> (len == Some(0u64) ==> (r matches
            Ok(t) && t.0@.len() == 0 && t.1 == q)),
        spec_array(b@, pos as int) is None ==> r is Err,
{
    let (len_opt, start) = want_array(b, pos, DecodeContext::ConwayUtxoWPredFailure)?;
    let mut out: Vec<PlutusPurpose> = Vec::new();
    let mut cur = start;
    match len_opt {
        Some(n) => {
            let mut i: u64 = 0;
            while i < n
                invariant
                    pos < cur <= b@.len(),
                    n == 0 ==> out@.len() == 0 && cur == start,
                decreases n - i,
            {
                match decode_plutus_purpose(b, cur) {
                    Ok((v, p)) => {
                        out.push(v);
                        cur = p;
                    },
                    Err(e) => {
                        return Err(e);
                    },
                }
                i = i + 1;
            }
        },
        None => {
            loop
                invariant
                    pos < cur <= b@.len(),
                decreases b@.len() - cur,
            {
                if cur >= b.len() {
                    return Err(DecodeError::Truncated);
                }
                if b[cur] == 0xff {
                    cur = cur + 1;
                    break ;
                }
                match decode_plutus_purpose(b, cur) {
                    Ok((v, p)) => {
                        out.push(v);
                        cur = p;
                    },
                    Err(e) => {
                        return Err(e);
                    },
                }
            }
        },
    }
    Ok((out, cur))
}

/// Reads a sequence of purpose and script pairs, definite or indefinite length.
#[verifier::loop_isolation(false)]
pub fn decode_purpose_script_list(b: &[u8], pos: usize) -> (r: Result<(Vec<(PlutusPurpose, ScriptHash)>, usize), DecodeError>)
    ensures
        r matches Ok((_, p)) ==> pos < p <= b@.len(),
        spec_array(b@, pos as int) matches Some((len, q)) ==> (len == Some(0u64) ==> (r matches
            Ok(t) && t.0@.len() == 0 && t.1 == q)),
        spec_array(b@, pos as int) is None ==> r is Err,
{
    let (len_opt, start) = want_array(b, pos, DecodeContext::ConwayUtxoWPredFailure)?;
    let mut out: Vec<(PlutusPurpose, ScriptHash)> = Vec::new();
    let mut cur = start;
    match len_opt {
        Some(n) => {
            let mut i: u64 = 0;
            while i < n
                invariant
                    pos < cur <= b@.len(),
                    n == 0 ==> out@.len() == 0 && cur == start,
                decreases n - i,
            {
                match decode_purpose_script_pair(b, cur) {
                    Ok((v, p)) => {
                        out.push(v);
                        cur = p;
                    },
                    Err(e) => {
                        return Err(e);
                    },
                }
                i = i + 1;
            }
        },
        None => {
            loop
                invariant
                    pos < cur <= b@.len(),
                decreases b@.len() - cur,
            {
                if cur >= b.len() {
                    return Err(DecodeError::Truncated);
                }
                if b[cur] == 0xff {
                    cur = cur + 1;
                    break ;
                }
                match decode_purpose_script_pair(b, cur) {
                    Ok((v, p)) => {
                        out.push(v);
                        cur = p;
                    },
                    Err(e) => {
                        return Err(e);
                    },
                }
            }
        },
    }
    Ok((out, cur))
}

/// Reads a sequence of failure descriptions, definite or indefinite length.
#[verifier::loop_isolation(false)]
pub fn decode_failure_description_list(b: &[u8], pos: usize) -> (r: Result<(Vec<FailureDescription>, usize), DecodeError>)
    ensures
        r matches Ok((_, p)) ==> pos < p <= b@.len(),
        spec_array(b@, pos as int) matches Some((len, q)) ==> (len == Some(0u64) ==> (r matches
            Ok(t) && t.0@.len() == 0 && t.1 == q)),
        spec_array(b@, pos as int) is None ==> r is Err,
{
    let (len_opt, start) = want_array(b, pos, DecodeContext::TagMismatchDescription)?;
    let mut out: Vec<FailureDescription> = Vec::new();
    let mut cur = start;
    match len_opt {
        Some(n) => {
            let mut i: u64 = 0;
            while i < n
                invariant
                    pos < cur <= b@.len(),
                    n == 0 ==> out@.len() == 0 && cur == start,
                decreases n - i,
            {
                match decode_failure_description(b, cur) {
                    Ok((v, p)) => {
                        out.push(v);
                        cur = p;
                    },
                    Err(e) => {
                        return Err(e);
                    },
                }
                i = i + 1;
            }
        },
        None => {
            loop
                invariant
                    pos < cur <= b@.len(),
                decreases b@.len() - cur,
            {
                if cur >= b.len() {
                    return Err(DecodeError::Truncated);
                }
                if b[cur] == 0xff {
                    cur = cur + 1;
                    break ;
                }
                match decode_failure_description(b, cur) {
                    Ok((v, p)) => {
                        out.push(v);
                        cur = p;
                    },
                    Err(e) => {
                        return Err(e);
                    },
                }
            }
        },
    }
    Ok((out, cur))
}

/// Reads a sequence of oversize output triples, definite or indefinite length.
#[verifier::loop_isolation(false)]
pub fn decode_txout_triple_list(b: &[u8], pos: usize) -> (r: Result<(Vec<(u64, u64, SerializableTxOut)>, usize), DecodeError>)
    ensures
        r matches Ok((_, p)) ==> pos < p <= b@.len(),
        spec_array(b@, pos as int) matches Some((len, q)) ==> (len == Some(0u64) ==> (r matches
            Ok(t) && t.0@.len() == 0 && t.1 == q)),
        spec_array(b@, pos as int) is None ==> r is Err,
{
    let (len_opt, start) = want_array(b, pos, DecodeContext::ConwayUtxoPredFailure)?;
    let mut out: Vec<(u64, u64, SerializableTxOut)> = Vec::new();
    let mut cur = start;
    match len_opt {
        Some(n) => {
            let mut i: u64 = 0;
            while i < n
                invariant
                    pos < cur <= b@.len(),
                    n == 0 ==> out@.len() == 0 && cur == start,
                decreases n - i,
            {
                match decode_txout_triple(b, cur) {
                    Ok((v, p)) => {
                        out.push(v);
                        cur = p;
                    },
                    Err(e) => {
                        return Err(e);
                    },
                }
                i = i + 1;
            }
        },
        None => {
            loop
                invariant
                    pos < cur <= b@.len(),
                decreases b@.len() - cur,
            {
                if cur >= b.len() {
                    return Err(DecodeError::Truncated);
                }
                if b[cur] == 0xff {
                    cur = cur + 1;
                    break ;
                }
                match decode_txout_triple(b, cur) {
                    Ok((v, p)) => {
                        out.push(v);
                        cur = p;
                    },
                    Err(e) => {
                        return Err(e);
                    },
                }
            }
        },
    }
    Ok((out, cur))
}

/// Reads a sequence of output and coin pairs, definite or indefinite length.
#[verifier::loop_isolation(false)]
pub fn decode_txout_coin_list(b: &[u8], pos: usize) -> (r: Result<(Vec<(SerializableTxOut, DisplayCoin)>, usize), DecodeError>)
    ensures
        r matches Ok((_, p)) ==> pos < p <= b@.len(),
        spec_array(b@, pos as int) matches Some((len, q)) ==> (len == Some(0u64) ==> (r matches
            Ok(t) && t.0@.len() == 0 && t.1 == q)),
        spec_array(b@, pos as int) is None ==> r is Err,
{
    let (len_opt, start) = want_array(b, pos, DecodeContext::ConwayUtxoPredFailure)?;
    let mut out: Vec<(SerializableTxOut, DisplayCoin)> = Vec::new();
    let mut cur = start;
    match len_opt {
        Some(n) => {
            let mut i: u64 = 0;
            while i < n
                invariant
                    pos < cur <= b@.len(),
                    n == 0 ==> out@.len() == 0 && cur == start,
                decreases n - i,
            {
                match decode_txout_coin_pair(b, cur) {
                    Ok((v, p)) => {
                        out.push(v);
                        cur = p;
                    },
                    Err(e) => {
                        return Err(e);
                    },
                }
                i = i + 1;
            }
        },
        None => {
            loop
                invariant
                    pos < cur <= b@.len(),
                decreases b@.len() - cur,
            {
                if cur >= b.len() {
                    return Err(DecodeError::Truncated);
                }
                if b[cur] == 0xff {
                    cur = cur + 1;
                    break ;
                }
                match decode_txout_coin_pair(b, cur) {
                    Ok((v, p)) => {
                        out.push(v);
                        cur = p;
                    },
                    Err(e) => {
                        return Err(e);
                    },
                }
            }
        },
    }
    Ok((out, cur))
}

/// Reads a sequence of input and output pairs, definite or indefinite length.
#[verifier::loop_isolation(false)]
pub fn decode_utxo_pair_list(b: &[u8], pos: usize) -> (r: Result<(Vec<(SerializableTxIn, SerializableTxOut)>, usize), DecodeError>)
    ensures
        r matches Ok((_, p)) ==> pos < p <= b@.len(),
        spec_array(b@, pos as int) matches Some((len, q)) ==> (len == Some(0u64) ==> (r matches
            Ok(t) && t.0@.len() == 0 && t.1 == q)),
        spec_array(b@, pos as int) is None ==> r is Err,
{
    let (len_opt, start) = want_array(b, pos, DecodeContext::ConwayUtxoPredFailure)?;
    let mut out: Vec<(SerializableTxIn, SerializableTxOut)> = Vec::new();
    let mut cur = start;
    match len_opt {
        Some(n) => {
            let mut i: u64 = 0;
            while i < n
                invariant
                    pos < cur <= b@.len(),
                    n == 0 ==> out@.len() == 0 && cur == start,
                decreases n - i,
            {
                match decode_utxo_pair(b, cur) {
                    Ok((v, p)) => {
                        out.push(v);
                        cur = p;
                    },
                    Err(e) => {
                        return Err(e);
                    },
                }
                i = i + 1;
            }
        },
        None => {
            loop
                invariant
                    pos < cur <= b@.len(),
                decreases b@.len() - cur,
            {
                if cur >= b.len() {
                    return Err(DecodeError::Truncated);
                }
                if b[cur] == 0xff {
                    cur = cur + 1;
                    break ;
                }
                match decode_utxo_pair(b, cur) {
                    Ok((v, p)) => {
                        out.push(v);
                        cur = p;
                    },
                    Err(e) => {
                        return Err(e);
                    },
                }
            }
        },
    }
    Ok((out, cur))
}

/// Reads a sequence of script hashes, definite or indefinite length.
#[verifier::loop_isolation(false)]
pub fn decode_scripthash_list(b: &[u8], pos: usize) -> (r: Result<(Vec<ScriptHash>, usize), DecodeError>)
    ensures
        r matches Ok((_, p)) ==> pos < p <= b@.len(),
        spec_array(b@, pos as int) matches Some((len, q)) ==> (len == Some(0u64) ==> (r matches
            Ok(t) && t.0@.len() == 0 && t.1 == q)),
        spec_array(b@, pos as int) is None ==> r is Err,
{
    let (len_opt, start) = want_array(b, pos, DecodeContext::ConwayUtxoWPredFailure)?;
    let mut out: Vec<ScriptHash> = Vec::new();
    let mut cur = start;
    match len_opt {
        Some(n) => {
            let mut i: u64 = 0;
            while i < n
                invariant
                    pos < cur <= b@.len(),
                    n == 0 ==> out@.len() == 0 && cur == start,
                decreases n - i,
            {
                match decode_scripthash(b, cur) {
                    Ok((v, p)) => {
                        out.push(v);
                        cur = p;
                    },
                    Err(e) => {
                        return Err(e);
                    },
                }
                i = i + 1;
            }
        },
        None => {
            loop
                invariant
                    pos < cur <= b@.len(),
                decreases b@.len() - cur,
            {
                if cur >= b.len() {
                    return Err(DecodeError::Truncated);
                }
                if b[cur] == 0xff {
                    cur = cur + 1;
                    break ;
                }
                match decode_scripthash(b, cur) {
                    Ok((v, p)) => {
                        out.push(v);
                        cur = p;
                    },
                    Err(e) => {
                        return Err(e);
                    },
                }
            }
        },
    }
    Ok((out, cur))
}

/// Reads a sequence of safe hashes, definite or indefinite length.
#[verifier::loop_isolation(false)]
pub fn decode_safehash_list(b: &[u8], pos: usize) -> (r: Result<(Vec<SafeHash>, usize), DecodeError>)
    ensures
        r matches Ok((_, p)) ==> pos < p <= b@.len(),
        spec_array(b@, pos as int) matches Some((len, q)) ==> (len == Some(0u64) ==> (r matches
            Ok(t) && t.0@.len() == 0 && t.1 == q)),
        spec_array(b@, pos as int) is None ==> r is Err,
{
    let (len_opt, start) = want_array(b, pos, DecodeContext::ConwayUtxoWPredFailure)?;
    let mut out: Vec<SafeHash> = Vec::new();
    let mut cur = start;
    match len_opt {
        Some(n) => {
            let mut i: u64 = 0;
            while i < n
                invariant
                    pos < cur <= b@.len(),
                    n == 0 ==> out@.len() == 0 && cur == start,
                decreases n - i,
            {
                match decode_safehash(b, cur) {
                    Ok((v, p)) => {
                        out.push(v);
                        cur = p;
                    },
                    Err(e) => {
                        return Err(e);
                    },
                }
                i = i + 1;
            }
        },
        None => {
            loop
                invariant
                    pos < cur <= b@.len(),
                decreases b@.len() - cur,
            {
                if cur >= b.len() {
                    return Err(DecodeError::Truncated);
                }
                if b[cur] == 0xff {
                    cur = cur + 1;
                    break ;
                }
                match decode_safehash(b, cur) {
                    Ok((v, p)) => {
                        out.push(v);
                        cur = p;
                    },
                    Err(e) => {
                        return Err(e);
                    },
                }
            }
        },
    }
    Ok((out, cur))
}

/// Reads a sequence of transaction inputs, definite or indefinite length.
#[verifier::loop_isolation(false)]
pub fn decode_txinput_list(b: &[u8], pos: usize) -> (r: Result<(Vec<TransactionInput>, usize), DecodeError>)
    ensures
        r matches Ok((_, p)) ==> pos < p <= b@.len(),
        spec_array(b@, pos as int) matches Some((len, q)) ==> (len == Some(0u64) ==> (r matches
            Ok(t) && t.0@.len() == 0 && t.1 == q)),
        spec_array(b@, pos as int) is None ==> r is Err,
{
    let (len_opt, start) = want_array(b, pos, DecodeContext::ConwayUtxoWPredFailure)?;
    let mut out: Vec<TransactionInput> = Vec::new();
    let mut cur = start;
    match len_opt {
        Some(n) => {
            let mut i: u64 = 0;
            while i < n
                invariant
                    pos < cur <= b@.len(),
                    n == 0 ==> out@.len() == 0 && cur == start,
                decreases n - i,
            {
                match decode_txin(b, cur) {
                    Ok((v, p)) => {
                        out.push(v);
                        cur = p;
                    },
                    Err(e) => {
                        return Err(e);
                    },
                }
                i = i + 1;
            }
        },
        None => {
            loop
                invariant
                    pos < cur <= b@.len(),
                decreases b@.len() - cur,
            {
                if cur >= b.len() {
                    return Err(DecodeError::Truncated);
                }
                if b[cur] == 0xff {
                    cur = cur + 1;
                    break ;
                }
                match decode_txin(b, cur) {
                    Ok((v, p)) => {
                        out.push(v);
                        cur = p;
                    },
                    Err(e) => {
                        return Err(e);
                    },
                }
            }
        },
    }
    Ok((out, cur))
}

/// Reads a sequence of credentials, definite or indefinite length.
#[verifier::loop_isolation(false)]
pub fn decode_credential_list(b: &[u8], pos: usize) -> (r: Result<(Vec<Credential>, usize), DecodeError>)
    ensures
        r matches Ok((_, p)) ==> pos < p <= b@.len(),
        spec_array(b@, pos as int) matches Some((len, q)) ==> (len == Some(0u64) ==> (r matches
            Ok(t) && t.0@.len() == 0 && t.1 == q)),
        spec_array(b@, pos as int) is None ==> r is Err,
{
    let (len_opt, start) = want_array(b, pos, DecodeContext::ConwayGovPredFailure)?;
    let mut out: Vec<Credential> = Vec::new();
    let mut cur = start;
    match len_opt {
        Some(n) => {
            let mut i: u64 = 0;
            while i < n
                invariant
                    pos < cur <= b@.len(),
                    n == 0 ==> out@.len() == 0 && cur == start,
                decreases n - i,
            {
                match decode_credential(b, cur) {
                    Ok((v, p)) => {
                        out.push(v);
                        cur = p;
                    },
                    Err(e) => {
                        return Err(e);
                    },
                }
                i = i + 1;
            }
        },
        None => {
            loop
                invariant
                    pos < cur <= b@.len(),
                decreases b@.len() - cur,
            {
                if cur >= b.len() {
                    return Err(DecodeError::Truncated);
                }
                if b[cur] == 0xff {
                    cur = cur + 1;
                    break ;
                }
                match decode_credential(b, cur) {
                    Ok((v, p)) => {
                        out.push(v);
                        cur = p;
                    },
                    Err(e) => {
                        return Err(e);
                    },
                }
            }
        },
    }
    Ok((out, cur))
}

/// Reads a map of reward accounts to coins, keeping wire order.
#[verifier::loop_isolation(false)]
pub fn decode_withdrawal_map(b: &[u8], pos: usize) -> (r: Result<(Vec<(RewardAccountFielded, DisplayCoin)>, usize), DecodeError>)
    ensures
        r matches Ok((_, p)) ==> pos < p <= b@.len(),
        spec_map(b@, pos as int) matches Some((len, q)) ==> (len == Some(0u64) ==> (r matches
            Ok(t) && t.0@.len() == 0 && t.1 == q)),
        spec_map(b@, pos as int) is None ==> r is Err,
{
    let (len_opt, start) = want_map(b, pos, DecodeContext::ConwayCertsPredFailure)?;
    let mut out: Vec<(RewardAccountFielded, DisplayCoin)> = Vec::new();
    let mut cur = start;
    match len_opt {
        Some(n) => {
            let mut i: u64 = 0;
            while i < n
                invariant
                    pos < cur <= b@.len(),
                    n == 0 ==> out@.len() == 0 && cur == start,
                decreases n - i,
            {
                let (k, p1) = decode_reward_account(b, cur)?;
                let (v, p2) = decode_coin(b, p1)?;
                out.push((k, v));
                cur = p2;
                i = i + 1;
            }
        },
        None => {
            loop
                invariant
                    pos < cur <= b@.len(),
                decreases b@.len() - cur,
            {
                if cur >= b.len() {
                    return Err(DecodeError::Truncated);
                }
                if b[cur] == 0xff {
                    cur = cur + 1;
                    break ;
                }
                let (k, p1) = decode_reward_account(b, cur)?;
                let (v, p2) = decode_coin(b, p1)?;
                out.push((k, v));
                cur = p2;
            }
        },
    }
    Ok((out, cur))
}

/// Reads a map of stake credentials to epochs, keeping wire order.
#[verifier::loop_isolation(false)]
pub fn decode_expiration_map(b: &[u8], pos: usize) -> (r: Result<(Vec<(StakeCredential, EpochNo)>, usize), DecodeError>)
    ensures
        r matches Ok((_, p)) ==> pos < p <= b@.len(),
        spec_map(b@, pos as int) matches Some((len, q)) ==> (len == Some(0u64) ==> (r matches
            Ok(t) && t.0@.len() == 0 && t.1 == q)),
        spec_map(b@, pos as int) is None ==> r is Err,
{
    let (len_opt, start) = want_map(b, pos, DecodeContext::ConwayGovPredFailure)?;
    let mut out: Vec<(StakeCredential, EpochNo)> = Vec::new();
    let mut cur = start;
    match len_opt {
        Some(n) => {
            let mut i: u64 = 0;
            while i < n
                invariant
                    pos < cur <= b@.len(),
                    n == 0 ==> out@.len() == 0 && cur == start,
                decreases n - i,
            {
                let (k, p1) = decode_stake_credential(b, cur)?;
                let (v, p2) = decode_epoch(b, p1)?;
                out.push((k, v));
                cur = p2;
                i = i + 1;
            }
        },
        None => {
            loop
                invariant
                    pos < cur <= b@.len(),
                decreases b@.len() - cur,
            {
                if cur >= b.len() {
                    return Err(DecodeError::Truncated);
                }
                if b[cur] == 0xff {
                    cur = cur + 1;
                    break ;
                }
                let (k, p1) = decode_stake_credential(b, cur)?;
                let (v, p2) = decode_epoch(b, p1)?;
                out.push((k, v));
                cur = p2;
            }
        },
    }
    Ok((out, cur))
}

/// Reads a map of committee credentials to epochs, keeping wire order.
#[verifier::loop_isolation(false)]
pub fn decode_committee_map(b: &[u8], pos: usize) -> (r: Result<(Vec<(Credential, EpochNo)>, usize), DecodeError>)
    ensures
        r matches Ok((_, p)) ==> pos < p <= b@.len(),
        spec_map(b@, pos as int) matches Some((len, q)) ==> (len == Some(0u64) ==> (r matches
            Ok(t) && t.0@.len() == 0 && t.1 == q)),
        spec_map(b@, pos as int) is None ==> r is Err,
{
    let (len_opt, start) = want_map(b, pos, DecodeContext::GovAction)?;
    let mut out: Vec<(Credential, EpochNo)> = Vec::new();
    let mut cur = start;
    match len_opt {
        Some(n) => {
            let mut i: u64 = 0;
            while i < n
                invariant
                    pos < cur <= b@.len(),
                    n == 0 ==> out@.len() == 0 && cur == start,
                decreases n - i,
            {
                let (k, p1) = decode_credential(b, cur)?;
                let (v, p2) = decode_epoch(b, p1)?;
                out.push((k, v));
                cur = p2;
                i = i + 1;
            }
        },
        None => {
            loop
                invariant
                    pos < cur <= b@.len(),
                decreases b@.len() - cur,
            {
                if cur >= b.len() {
                    return Err(DecodeError::Truncated);
                }
                if b[cur] == 0xff {
                    cur = cur + 1;
                    break ;
                }
                let (k, p1) = decode_credential(b, cur)?;
                let (v, p2) = decode_epoch(b, p1)?;
                out.push((k, v));
                cur = p2;
            }
        },
    }
    Ok((out, cur))
}

/// Reads a map of asset names to amounts, keeping wire order.
#[verifier::loop_isolation(false)]
pub fn decode_asset_map(b: &[u8], pos: usize) -> (r: Result<(Vec<(DisplayAssetName, u64)>, usize), DecodeError>)
    ensures
        r matches Ok((_, p)) ==> pos < p <= b@.len(),
        spec_map(b@, pos as int) matches Some((len, q)) ==> (len == Some(0u64) ==> (r matches
            Ok(t) && t.0@.len() == 0 && t.1 == q)),
        spec_map(b@, pos as int) is None ==> r is Err,
{
    let (len_opt, start) = want_map(b, pos, DecodeContext::BabbageTxOut)?;
    let mut out: Vec<(DisplayAssetName, u64)> = Vec::new();
    let mut cur = start;
    match len_opt {
        Some(n) => {
            let mut i: u64 = 0;
            while i < n
                invariant
                    pos < cur <= b@.len(),
                    n == 0 ==> out@.len() == 0 && cur == start,
                decreases n - i,
            {
                let (k, p1) = decode_asset_name(b, cur)?;
                let (v, p2) = decode_u64_value(b, p1)?;
                out.push((k, v));
                cur = p2;
                i = i + 1;
            }
        },
        None => {
            loop
                invariant
                    pos < cur <= b@.len(),
                decreases b@.len() - cur,
            {
                if cur >= b.len() {
                    return Err(DecodeError::Truncated);
                }
                if b[cur] == 0xff {
                    cur = cur + 1;
                    break ;
                }
                let (k, p1) = decode_asset_name(b, cur)?;
                let (v, p2) = decode_u64_value(b, p1)?;
                out.push((k, v));
                cur = p2;
            }
        },
    }
    Ok((out, cur))
}

/// Reads a map of policies to their assets, keeping wire order.
#[verifier::loop_isolation(false)]
pub fn decode_policy_map(b: &[u8], pos: usize) -> (r: Result<(Vec<(DisplayPolicyId, AssetBundle)>, usize), DecodeError>)
    ensures
        r matches Ok((_, p)) ==> pos < p <= b@.len(),
        spec_map(b@, pos as int) matches Some((len, q)) ==> (len == Some(0u64) ==> (r matches
            Ok(t) && t.0@.len() == 0 && t.1 == q)),
        spec_map(b@, pos as int) is None ==> r is Err,
{
    let (len_opt, start) = want_map(b, pos, DecodeContext::BabbageTxOut)?;
    let mut out: Vec<(DisplayPolicyId, AssetBundle)> = Vec::new();
    let mut cur = start;
    match len_opt {
        Some(n) => {
            let mut i: u64 = 0;
            while i < n
                invariant
                    pos < cur <= b@.len(),
                    n == 0 ==> out@.len() == 0 && cur == start,
                decreases n - i,
            {
                let (k, p1) = decode_policy_id(b, cur)?;
                let (v, p2) = decode_asset_bundle(b, p1)?;
                out.push((k, v));
                cur = p2;
                i = i + 1;
            }
        },
        None => {
            loop
                invariant
                    pos < cur <= b@.len(),
                decreases b@.len() - cur,
            {
                if cur >= b.len() {
                    return Err(DecodeError::Truncated);
                }
                if b[cur] == 0xff {
                    cur = cur + 1;
                    break ;
                }
                let (k, p1) = decode_policy_id(b, cur)?;
                let (v, p2) = decode_asset_bundle(b, p1)?;
                out.push((k, v));
                cur = p2;
            }
        },
    }
    Ok((out, cur))
}

/// Reads a finite set of key hashes: the fixed wire tag, then the elements
/// in order.
pub fn decode_set_keyhash(b: &[u8], pos: usize) -> (r: Result<(CustomSet258<KeyHash>, usize), DecodeError>)
    ensures
        r matches Ok((_, p)) ==> pos < p <= b@.len(),
        spec_tag(b@, pos as int) matches Some((t, _)) ==> (t == 258 || (r matches Err(e) && e
            == (DecodeError::UnexpectedWireTag { context: DecodeContext::CustomSet258, tag: t }))),
        spec_tag(b@, pos as int) matches Some((tg, q)) ==> (tg == 258 ==> (spec_array(b@, q)
            matches Some((len, q2)) ==> (len == Some(0u64) ==> (r matches Ok(t) && t.0.0@.len()
            == 0 && t.1 == q2)))),
{
    let (t, p) = want_tag(b, pos, DecodeContext::CustomSet258)?;
    if t != 258 {
        return Err(DecodeError::UnexpectedWireTag { context: DecodeContext::CustomSet258, tag: t });
    }
    let (items, q) = decode_keyhash_list(b, p)?;
    Ok((CustomSet258(items), q))
}

/// Reads a finite set of script hashes: the fixed wire tag, then the elements
/// in order.
pub fn decode_set_scripthash(b: &[u8], pos: usize) -> (r: Result<(CustomSet258<ScriptHash>, usize), DecodeError>)
    ensures
        r matches Ok((_, p)) ==> pos < p <= b@.len(),
        spec_tag(b@, pos as int) matches Some((t, _)) ==> (t == 258 || (r matches Err(e) && e
            == (DecodeError::UnexpectedWireTag { context: DecodeContext::CustomSet258, tag: t }))),
        spec_tag(b@, pos as int) matches Some((tg, q)) ==> (tg == 258 ==> (spec_array(b@, q)
            matches Some((len, q2)) ==> (len == Some(0u64) ==> (r matches Ok(t) && t.0.0@.len()
            == 0 && t.1 == q2)))),
{
    let (t, p) = want_tag(b, pos, DecodeContext::CustomSet258)?;
    if t != 258 {
        return Err(DecodeError::UnexpectedWireTag { context: DecodeContext::CustomSet258, tag: t });
    }
    let (items, q) = decode_scripthash_list(b, p)?;
    Ok((CustomSet258(items), q))
}

/// Reads a finite set of safe hashes: the fixed wire tag, then the elements
/// in order.
pub fn decode_set_safehash(b: &[u8], pos: usize) -> (r: Result<(CustomSet258<SafeHash>, usize), DecodeError>)
    ensures
        r matches Ok((_, p)) ==> pos < p <= b@.len(),
        spec_tag(b@, pos as int) matches Some((t, _)) ==> (t == 258 || (r matches Err(e) && e
            == (DecodeError::UnexpectedWireTag { context: DecodeContext::CustomSet258, tag: t }))),
        spec_tag(b@, pos as int) matches Some((tg, q)) ==> (tg == 258 ==> (spec_array(b@, q)
            matches Some((len, q2)) ==> (len == Some(0u64) ==> (r matches Ok(t) && t.0.0@.len()
            == 0 && t.1 == q2)))),
{
    let (t, p) = want_tag(b, pos, DecodeContext::CustomSet258)?;
    if t != 258 {
        return Err(DecodeError::UnexpectedWireTag { context: DecodeContext::CustomSet258, tag: t });
    }
    let (items, q) = decode_safehash_list(b, p)?;
    Ok((CustomSet258(items), q))
}

/// Reads a finite set of transaction inputs: the fixed wire tag, then the elements
/// in order.
pub fn decode_set_txin(b: &[u8], pos: usize) -> (r: Result<(CustomSet258<TransactionInput>, usize), DecodeError>)
    ensures
        r matches Ok((_, p)) ==> pos < p <= b@.len(),
        spec_tag(b@, pos as int) matches Some((t, _)) ==> (t == 258 || (r matches Err(e) && e
            == (DecodeError::UnexpectedWireTag { context: DecodeContext::CustomSet258, tag: t }))),
        spec_tag(b@, pos as int) matches Some((tg, q)) ==> (tg == 258 ==> (spec_array(b@, q)
            matches Some((len, q2)) ==> (len == Some(0u64) ==> (r matches Ok(t) && t.0.0@.len()
            == 0 && t.1 == q2)))),
{
    let (t, p) = want_tag(b, pos, DecodeContext::CustomSet258)?;
    if t != 258 {
        return Err(DecodeError::UnexpectedWireTag { context: DecodeContext::CustomSet258, tag: t });
    }
    let (items, q) = decode_txinput_list(b, p)?;
    Ok((CustomSet258(items), q))
}

/// Reads a finite set of reward accounts: the fixed wire tag, then the elements
/// in order.
pub fn decode_set_reward_account(b: &[u8], pos: usize) -> (r: Result<(CustomSet258<RewardAccountFielded>, usize), DecodeError>)
    ensures
        r matches Ok((_, p)) ==> pos < p <= b@.len(),
        spec_tag(b@, pos as int) matches Some((t, _)) ==> (t == 258 || (r matches Err(e) && e
            == (DecodeError::UnexpectedWireTag { context: DecodeContext::CustomSet258, tag: t }))),
        spec_tag(b@, pos as int) matches Some((tg, q)) ==> (tg == 258 ==> (spec_array(b@, q)
            matches Some((len, q2)) ==> (len == Some(0u64) ==> (r matches Ok(t) && t.0.0@.len()
            == 0 && t.1 == q2)))),
{
    let (t, p) = want_tag(b, pos, DecodeContext::CustomSet258)?;
    if t != 258 {
        return Err(DecodeError::UnexpectedWireTag { context: DecodeContext::CustomSet258, tag: t });
    }
    let (items, q) = decode_reward_account_list(b, p)?;
    Ok((CustomSet258(items), q))
}

/// Reads a finite set of credentials: the fixed wire tag, then the elements
/// in order.
pub fn decode_set_credential(b: &[u8], pos: usize) -> (r: Result<(CustomSet258<Credential>, usize), DecodeError>)
    ensures
        r matches Ok((_, p)) ==> pos < p <= b@.len(),
        spec_tag(b@, pos as int) matches Some((t, _)) ==> (t == 258 || (r matches Err(e) && e
            == (DecodeError::UnexpectedWireTag { context: DecodeContext::CustomSet258, tag: t }))),
        spec_tag(b@, pos as int) matches Some((tg, q)) ==> (tg == 258 ==> (spec_array(b@, q)
            matches Some((len, q2)) ==> (len == Some(0u64) ==> (r matches Ok(t) && t.0.0@.len()
            == 0 && t.1 == q2)))),
{
    let (t, p) = want_tag(b, pos, DecodeContext::CustomSet258)?;
    if t != 258 {
        return Err(DecodeError::UnexpectedWireTag { context: DecodeContext::CustomSet258, tag: t });
    }
    let (items, q) = decode_credential_list(b, p)?;
    Ok((CustomSet258(items), q))
}

/// Reads a transaction input under its list wrapper type.
pub fn decode_stxin(b: &[u8], pos: usize) -> (r: Result<(SerializableTxIn, usize), DecodeError>)
    ensures
        r matches Ok((_, p)) ==> pos < p <= b@.len(),
{
    let (v, p) = decode_txin(b, pos)?;
    Ok((SerializableTxIn(v), p))
}

/// Reads a transaction output without interpreting it, keeping its raw
/// bytes for diagnostics.
pub fn decode_stxout(b: &[u8], pos: usize) -> (r: Result<(SerializableTxOut, usize), DecodeError>)
    ensures
        r matches Ok((_, p)) ==> pos < p <= b@.len(),
{
    match skip_item(b, pos) {
        Some(p) => {
            let raw = vstd::slice::slice_to_vec(vstd::slice::slice_subrange(b, pos, p));
            Ok((SerializableTxOut(Bytes(raw)), p))
        },
        None => Err(DecodeError::Truncated),
    }
}

/// Reads one voter.
pub fn decode_voter(b: &[u8], pos: usize) -> (r: Result<(Voter, usize), DecodeError>)
    ensures
        r matches Ok((_, p)) ==> pos < p <= b@.len(),
        disc_of(b@, pos as int) matches Some(d) ==> (known_discriminant(DecodeContext::Voter, d)
            || (r matches Err(e) && e == (DecodeError::UnknownDiscriminant {
            context: DecodeContext::Voter,
            value: d,
        }))),
        r matches Ok(_) ==> (disc_of(b@, pos as int) matches Some(d) && known_discriminant(
            DecodeContext::Voter,
            d,
        )),
        spec_disc(b@, pos as int) matches Some((d, p)) ==> (d <= 4 ==> match spec_bytes(b@, p) {
            Some((h, q)) => r matches Ok(t) && t.1 == q && (match t.0 {
                Voter::ConstitutionalCommitteeKey(x) => d == 0 && x@ == h,
                Voter::ConstitutionalCommitteeScript(x) => d == 1 && x@ == h,
                Voter::DRepKey(x) => d == 2 && x@ == h,
                Voter::DRepScript(x) => d == 3 && x@ == h,
                Voter::StakePoolKey(x) => d == 4 && x@ == h,
            }),
            None => r is Err,
        }),
{
    let (d, p) = read_disc(b, pos, DecodeContext::Voter)?;
    if d > 4 {
        return Err(DecodeError::UnknownDiscriminant { context: DecodeContext::Voter, value: d });
    }
    let (h, q) = want_bytes(b, p, DecodeContext::Voter)?;
    if d == 0 {
        Ok((Voter::ConstitutionalCommitteeKey(h), q))
    } else if d == 1 {
        Ok((Voter::ConstitutionalCommitteeScript(h), q))
    } else if d == 2 {
        Ok((Voter::DRepKey(h), q))
    } else if d == 3 {
        Ok((Voter::DRepScript(h), q))
    } else if d == 4 {
        Ok((Voter::StakePoolKey(h), q))
    } else {
        Err(DecodeError::UnknownDiscriminant { context: DecodeContext::Voter, value: d })
    }
}

/// Reads a voter together with the action voted on.
pub fn decode_voter_gaid_pair(b: &[u8], pos: usize) -> (r: Result<
    ((Voter, GovActionId), usize),
    DecodeError,
>)
    ensures
        r matches Ok((_, p)) ==> pos < p <= b@.len(),
{
    let (_len, p0) = want_array(b, pos, DecodeContext::ConwayGovPredFailure)?;
    let (v, p1) = decode_voter(b, p0)?;
    let (g, p2) = decode_gov_action_id(b, p1)?;
    Ok(((v, g), p2))
}

/// Reads a script purpose carrying a pointer index.
pub fn decode_plutus_purpose(b: &[u8], pos: usize) -> (r: Result<
    (PlutusPurpose, usize),
    DecodeError,
>)
    ensures
        r matches Ok((_, p)) ==> pos < p <= b@.len(),
        disc_of(b@, pos as int) matches Some(d) ==> (known_discriminant(
            DecodeContext::PlutusPurpose,
            d,
        ) || (r matches Err(e) && e == (DecodeError::UnknownDiscriminant {
            context: DecodeContext::PlutusPurpose,
            value: d,
        }))),
        r matches Ok(_) ==> (disc_of(b@, pos as int) matches Some(d) && known_discriminant(
            DecodeContext::PlutusPurpose,
            d,
        )),
        spec_disc(b@, pos as int) matches Some((d, p)) ==> (d <= 5 ==> match spec_u16_at(b@, p) {
            Some((ix, q)) => r matches Ok(t) && t.1 == q && t.0 == (if d == 0 {
                PlutusPurpose::Spending(AsIx(ix as u16))
            } else if d == 1 {
                PlutusPurpose::Minting(AsIx(ix as u16))
            } else if d == 2 {
                PlutusPurpose::Certifying(AsIx(ix as u16))
            } else if d == 3 {
                PlutusPurpose::Rewarding(AsIx(ix as u16))
            } else if d == 4 {
                PlutusPurpose::Voting(AsIx(ix as u16))
            } else {
                PlutusPurpose::Proposing(AsIx(ix as u16))
            }),
            None => r is Err,
        }),
{
    let (d, p) = read_disc(b, pos, DecodeContext::PlutusPurpose)?;
    if d > 5 {
        return Err(
            DecodeError::UnknownDiscriminant { context: DecodeContext::PlutusPurpose, value: d },
        );
    }
    let (ix, q) = want_u16(b, p, DecodeContext::PlutusPurpose)?;
    let as_ix = AsIx(ix as u16);
    if d == 0 {
        Ok((PlutusPurpose::Spending(as_ix), q))
    } else if d == 1 {
        Ok((PlutusPurpose::Minting(as_ix), q))
    } else if d == 2 {
        Ok((PlutusPurpose::Certifying(as_ix), q))
    } else if d == 3 {
        Ok((PlutusPurpose::Rewarding(as_ix), q))
    } else if d == 4 {
        Ok((PlutusPurpose::Voting(as_ix), q))
    } else if d == 5 {
        Ok((PlutusPurpose::Proposing(as_ix), q))
    } else {
        Err(DecodeError::UnknownDiscriminant { context: DecodeContext::PlutusPurpose, value: d })
    }
}

/// Reads the one ambiguous field of the format by probing the next
/// value's wire type without consuming it: an unsigned integer of any
/// width is an index, a byte string an item, and anything else is
/// refused.
pub fn decode_purpose_as(b: &[u8], pos: usize) -> (r: Result<(PurposeAs, usize), DecodeError>)
    ensures
        r matches Ok((_, p)) ==> pos < p <= b@.len(),
        0 <= pos < b@.len() && b@[pos as int] <= 0x1b ==> (match spec_uint(b@, pos as int) {
            Some((v, p)) => r matches Ok(t) && t.0 == PurposeAs::Ix(v) && t.1 == p,
            None => r is Err,
        }),
        r matches Ok((v, q)) ==> (0 <= pos < b@.len() && ((v is Ix && b@[pos as int] <= 0x1b) || (
        v matches PurposeAs::Item(x) && 0x40 <= b@[pos as int] <= 0x5b && spec_bytes(
            b@,
            pos as int,
        ) == Some((x.0@, q as int))))),
{
    if pos >= b.len() {
        return Err(DecodeError::Truncated);
    }
    let probe = b[pos];
    if probe <= 0x1b {
        let (v, p) = want_u64(b, pos, DecodeContext::PurposeAs)?;
        Ok((PurposeAs::Ix(v), p))
    } else if 0x40 <= probe && probe <= 0x5b {
        let (v, p) = want_bytes(b, pos, DecodeContext::PurposeAs)?;
        Ok((PurposeAs::Item(Bytes(v)), p))
    } else {
        Err(DecodeError::UnexpectedType { context: DecodeContext::PurposeAs })
    }
}

/// Reads a script purpose carrying an index or an item.
pub fn decode_conway_plutus_purpose(b: &[u8], pos: usize) -> (r: Result<
    (ConwayPlutusPurpose, usize),
    DecodeError,
>)
    ensures
        r matches Ok((_, p)) ==> pos < p <= b@.len(),
        disc_of(b@, pos as int) matches Some(d) ==> (known_discriminant(
            DecodeContext::ConwayPlutusPurpose,
            d,
        ) || (r matches Err(e) && e == (DecodeError::UnknownDiscriminant {
            context: DecodeContext::ConwayPlutusPurpose,
            value: d,
        }))),
        r matches Ok(_) ==> (disc_of(b@, pos as int) matches Some(d) && known_discriminant(
            DecodeContext::ConwayPlutusPurpose,
            d,
        )),
        spec_disc(b@, pos as int) matches Some((d, p)) ==> (d <= 5 ==> {
            &&& (0 <= p < b@.len() && b@[p] <= 0x1b) ==> match spec_uint(b@, p) {
                Some((v, end)) => r matches Ok(t) && t.1 == end && conway_purpose_payload(t.0)
                    == PurposeAs::Ix(v) && conway_purpose_disc(t.0) == d,
                None => r is Err,
            }
            &&& (r matches Ok(t) ==> conway_purpose_disc(t.0) == d)
        }),
{
    let (d, p) = read_disc(b, pos, DecodeContext::ConwayPlutusPurpose)?;
    if d > 5 {
        return Err(
            DecodeError::UnknownDiscriminant {
                context: DecodeContext::ConwayPlutusPurpose,
                value: d,
            },
        );
    }
    let (pa, q) = decode_purpose_as(b, p)?;
    if d == 0 {
        Ok((ConwayPlutusPurpose::ConwaySpending(pa), q))
    } else if d == 1 {
        Ok((ConwayPlutusPurpose::ConwayMinting(pa), q))
    } else if d == 2 {
        Ok((ConwayPlutusPurpose::ConwayCertifying(pa), q))
    } else if d == 3 {
        Ok((ConwayPlutusPurpose::ConwayRewarding(pa), q))
    } else if d == 4 {
        Ok((ConwayPlutusPurpose::ConwayVoting(pa), q))
    } else if d == 5 {
        Ok((ConwayPlutusPurpose::ConwayProposing(pa), q))
    } else {
        Err(
            DecodeError::UnknownDiscriminant {
                context: DecodeContext::ConwayPlutusPurpose,
                value: d,
            },
        )
    }
}

/// Reads a purpose together with the script it points at.
pub fn decode_purpose_script_pair(b: &[u8], pos: usize) -> (r: Result<
    ((PlutusPurpose, ScriptHash), usize),
    DecodeError,
>)
    ensures
        r matches Ok((_, p)) ==> pos < p <= b@.len(),
{
    let (_len, p0) = want_array(b, pos, DecodeContext::ConwayUtxoWPredFailure)?;
    let (a, p1) = decode_plutus_purpose(b, p0)?;
    let (h, p2) = decode_scripthash(b, p1)?;
    Ok(((a, h), p2))
}

/// Reads an oversize-output triple.
pub fn decode_txout_triple(b: &[u8], pos: usize) -> (r: Result<
    ((u64, u64, SerializableTxOut), usize),
    DecodeError,
>)
    ensures
        r matches Ok((_, p)) ==> pos < p <= b@.len(),
{
    let (_len, p0) = want_array(b, pos, DecodeContext::ConwayUtxoPredFailure)?;
    let (a, p1) = want_u64(b, p0, DecodeContext::ConwayUtxoPredFailure)?;
    let (c, p2) = want_u64(b, p1, DecodeContext::ConwayUtxoPredFailure)?;
    let (o, p3) = decode_stxout(b, p2)?;
    Ok(((a, c, o), p3))
}

/// Reads an undersize output together with its minimum value.
pub fn decode_txout_coin_pair(b: &[u8], pos: usize) -> (r: Result<
    ((SerializableTxOut, DisplayCoin), usize),
    DecodeError,
>)
    ensures
        r matches Ok((_, p)) ==> pos < p <= b@.len(),
{
    let (_len, p0) = want_array(b, pos, DecodeContext::ConwayUtxoPredFailure)?;
    let (o, p1) = decode_stxout(b, p0)?;
    let (c, p2) = decode_coin(b, p1)?;
    Ok(((o, c), p2))
}

/// Reads one unspent-output entry.
pub fn decode_utxo_pair(b: &[u8], pos: usize) -> (r: Result<
    ((SerializableTxIn, SerializableTxOut), usize),
    DecodeError,
>)
    ensures
        r matches Ok((_, p)) ==> pos < p <= b@.len(),
{
    let (_len, p0) = want_array(b, pos, DecodeContext::ConwayUtxoPredFailure)?;
    let (i, p1) = decode_stxin(b, p0)?;
    let (o, p2) = decode_stxout(b, p1)?;
    Ok(((i, o), p2))
}

/// Reads an asset name.
pub fn decode_asset_name(b: &[u8], pos: usize) -> (r: Result<
    (DisplayAssetName, usize),
    DecodeError,
>)
    ensures
        r matches Ok((_, p)) ==> pos < p <= b@.len(),
{
    let (v, p) = want_bytes(b, pos, DecodeContext::BabbageTxOut)?;
    Ok((DisplayAssetName(v), p))
}

/// Reads a policy identifier.
pub fn decode_policy_id(b: &[u8], pos: usize) -> (r: Result<(DisplayPolicyId, usize), DecodeError>)
    ensures
        r matches Ok((_, p)) ==> pos < p <= b@.len(),
{
    let (v, p) = want_bytes(b, pos, DecodeContext::BabbageTxOut)?;
    Ok((DisplayPolicyId(v), p))
}

/// Reads a bare amount.
pub fn decode_u64_value(b: &[u8], pos: usize) -> (r: Result<(u64, usize), DecodeError>)
    ensures
        r matches Ok((_, p)) ==> pos < p <= b@.len(),
{
    let (v, p) = want_u64(b, pos, DecodeContext::BabbageTxOut)?;
    Ok((v, p))
}

/// Reads the assets under one policy.
pub fn decode_asset_bundle(b: &[u8], pos: usize) -> (r: Result<(AssetBundle, usize), DecodeError>)
    ensures
        r matches Ok((_, p)) ==> pos < p <= b@.len(),
{
    let (m, p) = decode_asset_map(b, pos)?;
    Ok((AssetBundle(m), p))
}

/// Reads a multi-asset value grouped by policy.
pub fn decode_multiasset(b: &[u8], pos: usize) -> (r: Result<(MultiAsset, usize), DecodeError>)
    ensures
        r matches Ok((_, p)) ==> pos < p <= b@.len(),
{
    let (m, p) = decode_policy_map(b, pos)?;
    Ok((MultiAsset(m), p))
}

/// Reads the optionality wrapper around a safe hash: absent as a
/// zero-length array, present as a one-element array.
pub fn decode_maybe_safehash(b: &[u8], pos: usize) -> (r: Result<
    (StrictMaybe<SafeHash>, usize),
    DecodeError,
>)
    ensures
        r matches Ok((_, p)) ==> pos < p <= b@.len(),
        spec_array(b@, pos as int) matches Some((len, q)) ==> match len {
            Some(n) => if n == 0 {
                r matches Ok(t) && t.0 is Nothing && t.1 == q
            } else {
                match spec_bytes(b@, q) {
                    Some((h, end)) => r matches Ok(t) && t.1 == end && (t.0 matches
                        StrictMaybe::Just(v) && v.0@ == h),
                    None => r is Err,
                }
            },
            None => r matches Ok(t) && t.0 is Nothing && t.1 == q,
        },
        spec_array(b@, pos as int) is None ==> r is Err,
{
    let (len, p) = want_array(b, pos, DecodeContext::ConwayUtxoWPredFailure)?;
    match len {
        Some(n) => if n > 0 {
            let (h, q) = decode_safehash(b, p)?;
            Ok((StrictMaybe::Just(h), q))
        } else {
            Ok((StrictMaybe::Nothing, p))
        },
        None => Ok((StrictMaybe::Nothing, p)),
    }
}

/// Reads the optionality wrapper around a script hash.
pub fn decode_maybe_display_scripthash(b: &[u8], pos: usize) -> (r: Result<
    (StrictMaybe<DisplayScriptHash>, usize),
    DecodeError,
>)
    ensures
        r matches Ok((_, p)) ==> pos < p <= b@.len(),
        spec_array(b@, pos as int) matches Some((len, q)) ==> match len {
            Some(n) => if n == 0 {
                r matches Ok(t) && t.0 is Nothing && t.1 == q
            } else {
                match spec_bytes(b@, q) {
                    Some((h, end)) => r matches Ok(t) && t.1 == end && (t.0 matches
                        StrictMaybe::Just(v) && v.0@ == h),
                    None => r is Err,
                }
            },
            None => r matches Ok(t) && t.0 is Nothing && t.1 == q,
        },
        spec_array(b@, pos as int) is None ==> r is Err,
{
    let (len, p) = want_array(b, pos, DecodeContext::ConwayGovPredFailure)?;
    match len {
        Some(n) => if n > 0 {
            let (h, q) = decode_display_scripthash(b, p)?;
            Ok((StrictMaybe::Just(h), q))
        } else {
            Ok((StrictMaybe::Nothing, p))
        },
        None => Ok((StrictMaybe::Nothing, p)),
    }
}

/// Reads the optionality wrapper around a governance action identifier.
pub fn decode_maybe_gov_action_id(b: &[u8], pos: usize) -> (r: Result<
    (StrictMaybe<GovActionId>, usize),
    DecodeError,
>)
    ensures
        r matches Ok((_, p)) ==> pos < p <= b@.len(),
        spec_array(b@, pos as int) matches Some((len, q)) ==> match len {
            Some(n) => if n == 0 {
                r matches Ok(t) && t.0 is Nothing && t.1 == q
            } else {
                match sparse_gov_action_id(b@, q) {
                    Some((h, ix, end)) => r matches Ok(t) && t.1 == end && (t.0 matches
                        StrictMaybe::Just(g) && g.transaction_id@ == h && g.action_index == ix),
                    None => r is Err,
                }
            },
            None => r matches Ok(t) && t.0 is Nothing && t.1 == q,
        },
        spec_array(b@, pos as int) is None ==> r is Err,
{
    let (len, p) = want_array(b, pos, DecodeContext::ConwayGovPredFailure)?;
    match len {
        Some(n) => if n > 0 {
            let (g, q) = decode_gov_action_id(b, p)?;
            Ok((StrictMaybe::Just(g), q))
        } else {
            Ok((StrictMaybe::Nothing, p))
        },
        None => Ok((StrictMaybe::Nothing, p)),
    }
}

/// Reads a governance action identifier that may be `null` on the wire.
pub fn decode_nullable_gaid(b: &[u8], pos: usize) -> (r: Result<
    (StrictMaybe<GovActionId>, usize),
    DecodeError,
>)
    ensures
        r matches Ok((_, p)) ==> pos < p <= b@.len(),
        spec_is_null(b@, pos as int) ==> (r matches Ok(t) && t.0 is Nothing && t.1 == pos + 1),
        !spec_is_null(b@, pos as int) ==> match sparse_gov_action_id(b@, pos as int) {
            Some((h, ix, end)) => r matches Ok(t) && t.1 == end && (t.0 matches StrictMaybe::Just(g)
                && g.transaction_id@ == h && g.action_index == ix),
            None => r is Err,
        },
{
    if at_null(b, pos) {
        let n = b.len();
        assert(pos < n);
        Ok((StrictMaybe::Nothing, pos + 1))
    } else {
        let (g, p) = decode_gov_action_id(b, pos)?;
        Ok((StrictMaybe::Just(g), p))
    }
}

/// Reads a script hash that may be `null` on the wire.
pub fn decode_nullable_scripthash(b: &[u8], pos: usize) -> (r: Result<
    (StrictMaybe<ScriptHash>, usize),
    DecodeError,
>)
    ensures
        r matches Ok((_, p)) ==> pos < p <= b@.len(),
        spec_is_null(b@, pos as int) ==> (r matches Ok(t) && t.0 is Nothing && t.1 == pos + 1),
        !spec_is_null(b@, pos as int) ==> match spec_bytes(b@, pos as int) {
            Some((h, end)) => r matches Ok(t) && t.1 == end && (t.0 matches StrictMaybe::Just(x)
                && x.0@ == h),
            None => r is Err,
        },
{
    if at_null(b, pos) {
        let n = b.len();
        assert(pos < n);
        Ok((StrictMaybe::Nothing, pos + 1))
    } else {
        let (h, p) = decode_scripthash(b, pos)?;
        Ok((StrictMaybe::Just(h), p))
    }
}

/// One optional slot of the validity window: present exactly when its
/// array holds one element.
pub open spec fn sparse_optional_slot(b: Seq<u8>, pos: int) -> Option<(Option<SlotNo>, int)> {
    match spec_array(b, pos) {
        Some((len, p)) => match len {
            Some(n) => if n == 1 {
                match spec_uint(b, p) {
                    Some((v, q)) => Some((Some(SlotNo(v)), q)),
                    None => None,
                }
            } else {
                Some((None, p))
            },
            None => Some((None, p)),
        },
        None => None,
    }
}

/// The wire components of the validity window.
pub open spec fn sparse_validity_interval(b: Seq<u8>, pos: int) -> Option<(ValidityInterval, int)> {
    match spec_array(b, pos) {
        Some((_len, p0)) => match sparse_optional_slot(b, p0) {
            Some((invalid_before, p1)) => match sparse_optional_slot(b, p1) {
                Some((invalid_hereafter, p2)) => Some(
                    (ValidityInterval { invalid_before, invalid_hereafter }, p2),
                ),
                None => None,
            },
            None => None,
        },
        None => None,
    }
}

/// Reads the validity window: two inner arrays of zero or one slot each.
pub fn decode_validity_interval(b: &[u8], pos: usize) -> (r: Result<
    (ValidityInterval, usize),
    DecodeError,
>)
    ensures
        r matches Ok((_, p)) ==> pos < p <= b@.len(),
        match sparse_validity_interval(b@, pos as int) {
            Some((v, end)) => r matches Ok(t) && t.0 == v && t.1 == end,
            None => r is Err,
        },
{
    let (_len, p0) = want_array(b, pos, DecodeContext::ConwayUtxoPredFailure)?;
    let (len1, p1) = want_array(b, p0, DecodeContext::ConwayUtxoPredFailure)?;
    let (invalid_before, p2) = match len1 {
        Some(n) => if n == 1 {
            let (s, q) = decode_slot(b, p1)?;
            (Some(s), q)
        } else {
            (None, p1)
        },
        None => (None, p1),
    };
    let (len2, p3) = want_array(b, p2, DecodeContext::ConwayUtxoPredFailure)?;
    let (invalid_hereafter, p4) = match len2 {
        Some(n) => if n == 1 {
            let (s, q) = decode_slot(b, p3)?;
            (Some(s), q)
        } else {
            (None, p3)
        },
        None => (None, p3),
    };
    Ok((ValidityInterval { invalid_before, invalid_hereafter }, p4))
}

/// The wire components of a rational number.
pub open spec fn sparse_rational(b: Seq<u8>, pos: int) -> Option<(RationalNumber, int)> {
    match spec_tag(b, pos) {
        Some((_t, p0)) => match spec_array(b, p0) {
            Some((_len, p1)) => match spec_uint(b, p1) {
                Some((n, p2)) => match spec_uint(b, p2) {
                    Some((d, p3)) => Some((RationalNumber { numerator: n, denominator: d }, p3)),
                    None => None,
                },
                None => None,
            },
            None => None,
        },
        None => None,
    }
}

/// Reads a rational number: its wire tag, then numerator and denominator.
/// The tag value is not checked, as the upstream decoder leaves it open.
pub fn decode_rational(b: &[u8], pos: usize) -> (r: Result<(RationalNumber, usize), DecodeError>)
    ensures
        r matches Ok((_, p)) ==> pos < p <= b@.len(),
        match sparse_rational(b@, pos as int) {
            Some((v, end)) => r matches Ok(t) && t.0 == v && t.1 == end,
            None => r is Err,
        },
{
    let (_t, p0) = want_tag(b, pos, DecodeContext::GovAction)?;
    let (_len, p1) = want_array(b, p0, DecodeContext::GovAction)?;
    let (n, p2) = want_u64(b, p1, DecodeContext::GovAction)?;
    let (d, p3) = want_u64(b, p2, DecodeContext::GovAction)?;
    Ok((RationalNumber { numerator: n, denominator: d }, p3))
}

/// The wire components of an execution budget.
pub open spec fn sparse_exunits(b: Seq<u8>, pos: int) -> Option<(ExUnits, int)> {
    match spec_array(b, pos) {
        Some((_len, p0)) => match spec_uint(b, p0) {
            Some((mem, p1)) => match spec_uint(b, p1) {
                Some((steps, p2)) => Some((ExUnits { mem, steps }, p2)),
                None => None,
            },
            None => None,
        },
        None => None,
    }
}

/// Reads an execution budget.
pub fn decode_exunits(b: &[u8], pos: usize) -> (r: Result<(ExUnits, usize), DecodeError>)
    ensures
        r matches Ok((_, p)) ==> pos < p <= b@.len(),
        match sparse_exunits(b@, pos as int) {
            Some((v, end)) => r matches Ok(t) && t.0 == v && t.1 == end,
            None => r is Err,
        },
{
    let (_len, p0) = want_array(b, pos, DecodeContext::GovAction)?;
    let (mem, p1) = want_u64(b, p0, DecodeContext::GovAction)?;
    let (steps, p2) = want_u64(b, p1, DecodeContext::GovAction)?;
    Ok((ExUnits { mem, steps }, p2))
}

/// Reads execution-unit prices.
pub fn decode_exunit_prices(b: &[u8], pos: usize) -> (r: Result<(ExUnitPrices, usize), DecodeError>)
    ensures
        r matches Ok((_, p)) ==> pos < p <= b@.len(),
{
    let (_len, p0) = want_array(b, pos, DecodeContext::GovAction)?;
    let (mem_price, p1) = decode_rational(b, p0)?;
    let (step_price, p2) = decode_rational(b, p1)?;
    Ok((ExUnitPrices { mem_price, step_price }, p2))
}

/// Reads the stake-pool voting thresholds.
pub fn decode_pool_thresholds(b: &[u8], pos: usize) -> (r: Result<
    (PoolVotingThresholds, usize),
    DecodeError,
>)
    ensures
        r matches Ok((_, p)) ==> pos < p <= b@.len(),
{
    let (_len, p0) = want_array(b, pos, DecodeContext::GovAction)?;
    let (a, p1) = decode_rational(b, p0)?;
    let (c, p2) = decode_rational(b, p1)?;
    let (d, p3) = decode_rational(b, p2)?;
    let (e, p4) = decode_rational(b, p3)?;
    let (f, p5) = decode_rational(b, p4)?;
    Ok(
        (
            PoolVotingThresholds {
                motion_no_confidence: a,
                committee_normal: c,
                committee_no_confidence: d,
                hard_fork_initiation: e,
                security_voting_threshold: f,
            },
            p5,
        ),
    )
}

/// Reads the delegate-representative voting thresholds.
pub fn decode_drep_thresholds(b: &[u8], pos: usize) -> (r: Result<
    (DRepVotingThresholds, usize),
    DecodeError,
>)
    ensures
        r matches Ok((_, p)) ==> pos < p <= b@.len(),
{
    let (_len, p0) = want_array(b, pos, DecodeContext::GovAction)?;
    let (a, p1) = decode_rational(b, p0)?;
    let (c, p2) = decode_rational(b, p1)?;
    let (d, p3) = decode_rational(b, p2)?;
    let (e, p4) = decode_rational(b, p3)?;
    let (f, p5) = decode_rational(b, p4)?;
    let (g, p6) = decode_rational(b, p5)?;
    let (h, p7) = decode_rational(b, p6)?;
    let (i, p8) = decode_rational(b, p7)?;
    let (j, p9) = decode_rational(b, p8)?;
    let (k, p10) = decode_rational(b, p9)?;
    Ok(
        (
            DRepVotingThresholds {
                motion_no_confidence: a,
                committee_normal: c,
                committee_no_confidence: d,
                update_constitution: e,
                hard_fork_initiation: f,
                pp_network_group: g,
                pp_economic_group: h,
                pp_technical_group: i,
                pp_governance_group: j,
                treasury_withdrawal: k,
            },
            p10,
        ),
    )
}

/// The wire components of a protocol version pair.
pub open spec fn sparse_protocol_version(b: Seq<u8>, pos: int) -> Option<(ProtocolVersion, int)> {
    match spec_array(b, pos) {
        Some((_len, p0)) => match spec_uint(b, p0) {
            Some((major, p1)) => match spec_uint(b, p1) {
                Some((minor, p2)) => Some((ProtocolVersion(major, minor), p2)),
                None => None,
            },
            None => None,
        },
        None => None,
    }
}

/// Reads a protocol version pair.
pub fn decode_protocol_version(b: &[u8], pos: usize) -> (r: Result<
    (ProtocolVersion, usize),
    DecodeError,
>)
    ensures
        r matches Ok((_, p)) ==> pos < p <= b@.len(),
        match sparse_protocol_version(b@, pos as int) {
            Some((v, end)) => r matches Ok(t) && t.0 == v && t.1 == end,
            None => r is Err,
        },
{
    let (_len, p0) = want_array(b, pos, DecodeContext::GovAction)?;
    let (major, p1) = want_u64(b, p0, DecodeContext::GovAction)?;
    let (minor, p2) = want_u64(b, p1, DecodeContext::GovAction)?;
    Ok((ProtocolVersion(major, minor), p2))
}

/// Reads an anchor: a URL and a document hash.
pub fn decode_anchor(b: &[u8], pos: usize) -> (r: Result<(Anchor, usize), DecodeError>)
    ensures
        r matches Ok((_, p)) ==> pos < p <= b@.len(),
{
    let (_len, p0) = want_array(b, pos, DecodeContext::GovAction)?;
    let (url, p1) = want_text(b, p0, DecodeContext::GovAction)?;
    let (h, p2) = want_bytes(b, p1, DecodeContext::GovAction)?;
    Ok((Anchor { url, content_hash: h }, p2))
}

/// Reads a constitution.
pub fn decode_constitution(b: &[u8], pos: usize) -> (r: Result<(Constitution, usize), DecodeError>)
    ensures
        r matches Ok((_, p)) ==> pos < p <= b@.len(),
{
    let (_len, p0) = want_array(b, pos, DecodeContext::GovAction)?;
    let (anchor, p1) = decode_anchor(b, p0)?;
    let (guardrail_script, p2) = decode_nullable_scripthash(b, p1)?;
    Ok((Constitution { anchor, guardrail_script }, p2))
}

/// Reads a protocol parameter update: a map of optional fields keyed by
/// small integers; unknown keys are consumed and dropped.
#[verifier::loop_isolation(false)]
pub fn decode_pparam_update(b: &[u8], pos: usize) -> (r: Result<
    (ProtocolParamUpdate, usize),
    DecodeError,
>)
    ensures
        r matches Ok((_, p)) ==> pos < p <= b@.len(),
        spec_map(b@, pos as int) matches Some((len, q)) ==> (len == Some(0u64) ==> (r matches
            Ok(t) && t.1 == q)),
        spec_map(b@, pos as int) is None ==> r is Err,
{
    let (len_opt, start) = want_map(b, pos, DecodeContext::GovAction)?;
    let mut upd = ProtocolParamUpdate {
        minfee_a: None,
        minfee_b: None,
        max_block_body_size: None,
        max_transaction_size: None,
        max_block_header_size: None,
        key_deposit: None,
        pool_deposit: None,
        maximum_epoch: None,
        desired_number_of_stake_pools: None,
        pool_pledge_influence: None,
        expansion_rate: None,
        treasury_growth_rate: None,
        min_pool_cost: None,
        ada_per_utxo_byte: None,
        cost_models_for_script_languages: None,
        execution_costs: None,
        max_tx_ex_units: None,
        max_block_ex_units: None,
        max_value_size: None,
        collateral_percentage: None,
        max_collateral_inputs: None,
        pool_voting_thresholds: None,
        drep_voting_thresholds: None,
        min_committee_size: None,
        committee_term_limit: None,
        governance_action_validity_period: None,
        governance_action_deposit: None,
        drep_deposit: None,
        drep_inactivity_period: None,
        minfee_refscript_cost_per_byte: None,
    };
    let mut cur = start;
    let mut remaining: u64 = match len_opt {
        Some(n) => n,
        None => 0,
    };
    let indefinite = matches!(len_opt, None);
    loop
        invariant
            pos < cur <= b@.len(),
            len_opt == Some(0u64) ==> cur == start && remaining == 0,
        decreases b@.len() - cur + remaining,
    {
        if indefinite {
            if cur >= b.len() {
                return Err(DecodeError::Truncated);
            }
            if b[cur] == 0xff {
                cur = cur + 1;
                break ;
            }
        } else {
            if remaining == 0 {
                break ;
            }
            remaining = remaining - 1;
        }
        let (key, pk) = want_u8(b, cur, DecodeContext::GovAction)?;
        let next: usize;
        if key == 0 {
            let (v, q) = want_u64(b, pk, DecodeContext::GovAction)?;
            upd.minfee_a = Some(v);
            next = q;
        } else if key == 1 {
            let (v, q) = want_u64(b, pk, DecodeContext::GovAction)?;
            upd.minfee_b = Some(v);
            next = q;
        } else if key == 2 {
            let (v, q) = want_u64(b, pk, DecodeContext::GovAction)?;
            upd.max_block_body_size = Some(v);
            next = q;
        } else if key == 3 {
            let (v, q) = want_u64(b, pk, DecodeContext::GovAction)?;
            upd.max_transaction_size = Some(v);
            next = q;
        } else if key == 4 {
            let (v, q) = want_u64(b, pk, DecodeContext::GovAction)?;
            upd.max_block_header_size = Some(v);
            next = q;
        } else if key == 5 {
            let (v, q) = want_u64(b, pk, DecodeContext::GovAction)?;
            upd.key_deposit = Some(v);
            next = q;
        } else if key == 6 {
            let (v, q) = want_u64(b, pk, DecodeContext::GovAction)?;
            upd.pool_deposit = Some(v);
            next = q;
        } else if key == 7 {
            let (v, q) = want_u64(b, pk, DecodeContext::GovAction)?;
            upd.maximum_epoch = Some(v);
            next = q;
        } else if key == 8 {
            let (v, q) = want_u64(b, pk, DecodeContext::GovAction)?;
            upd.desired_number_of_stake_pools = Some(v);
            next = q;
        } else if key == 9 {
            let (v, q) = decode_rational(b, pk)?;
            upd.pool_pledge_influence = Some(v);
            next = q;
        } else if key == 10 {
            let (v, q) = decode_rational(b, pk)?;
            upd.expansion_rate = Some(v);
            next = q;
        } else if key == 11 {
            let (v, q) = decode_rational(b, pk)?;
            upd.treasury_growth_rate = Some(v);
            next = q;
        } else if key == 16 {
            let (v, q) = want_u64(b, pk, DecodeContext::GovAction)?;
            upd.min_pool_cost = Some(v);
            next = q;
        } else if key == 17 {
            let (v, q) = want_u64(b, pk, DecodeContext::GovAction)?;
            upd.ada_per_utxo_byte = Some(v);
            next = q;
        } else if key == 18 {
            match skip_item(b, pk) {
                Some(q) => {
                    upd.cost_models_for_script_languages = Some(CostModels);
                    next = q;
                },
                None => {
                    return Err(DecodeError::Truncated);
                },
            }
        } else if key == 19 {
            let (v, q) = decode_exunit_prices(b, pk)?;
            upd.execution_costs = Some(v);
            next = q;
        } else if key == 20 {
            let (v, q) = decode_exunits(b, pk)?;
            upd.max_tx_ex_units = Some(v);
            next = q;
        } else if key == 21 {
            let (v, q) = decode_exunits(b, pk)?;
            upd.max_block_ex_units = Some(v);
            next = q;
        } else if key == 22 {
            let (v, q) = want_u64(b, pk, DecodeContext::GovAction)?;
            upd.max_value_size = Some(v);
            next = q;
        } else if key == 23 {
            let (v, q) = want_u64(b, pk, DecodeContext::GovAction)?;
            upd.collateral_percentage = Some(v);
            next = q;
        } else if key == 24 {
            let (v, q) = want_u64(b, pk, DecodeContext::GovAction)?;
            upd.max_collateral_inputs = Some(v);
            next = q;
        } else if key == 25 {
            let (v, q) = decode_pool_thresholds(b, pk)?;
            upd.pool_voting_thresholds = Some(v);
            next = q;
        } else if key == 26 {
            let (v, q) = decode_drep_thresholds(b, pk)?;
            upd.drep_voting_thresholds = Some(v);
            next = q;
        } else if key == 27 {
            let (v, q) = want_u64(b, pk, DecodeContext::GovAction)?;
            upd.min_committee_size = Some(v);
            next = q;
        } else if key == 28 {
            let (v, q) = want_u64(b, pk, DecodeContext::GovAction)?;
            upd.committee_term_limit = Some(v);
            next = q;
        } else if key == 29 {
            let (v, q) = want_u64(b, pk, DecodeContext::GovAction)?;
            upd.governance_action_validity_period = Some(v);
            next = q;
        } else if key == 30 {
            let (v, q) = want_u64(b, pk, DecodeContext::GovAction)?;
            upd.governance_action_deposit = Some(v);
            next = q;
        } else if key == 31 {
            let (v, q) = want_u64(b, pk, DecodeContext::GovAction)?;
            upd.drep_deposit = Some(v);
            next = q;
        } else if key == 32 {
            let (v, q) = want_u64(b, pk, DecodeContext::GovAction)?;
            upd.drep_inactivity_period = Some(v);
            next = q;
        } else if key == 33 {
            let (v, q) = decode_rational(b, pk)?;
            upd.minfee_refscript_cost_per_byte = Some(v);
            next = q;
        } else {
            match skip_item(b, pk) {
                Some(q) => {
                    next = q;
                },
                None => {
                    return Err(DecodeError::Truncated);
                },
            }
        }
        cur = next;
    }
    Ok((upd, cur))
}


/// The optional governance action identifier written as `null` or inline.
pub open spec fn sparse_nullable_gaid(b: Seq<u8>, pos: int) -> Option<
    (Option<(Seq<u8>, u64)>, int),
> {
    if spec_is_null(b, pos) {
        Some((None, pos + 1))
    } else {
        match sparse_gov_action_id(b, pos) {
            Some((h, ix, end)) => Some((Some((h, ix)), end)),
            None => None,
        }
    }
}

/// Whether an optional action identifier is the one the wire spells.
pub open spec fn maybe_gaid_is(m: StrictMaybe<GovActionId>, o: Option<(Seq<u8>, u64)>) -> bool {
    match m {
        StrictMaybe::Just(g) => o matches Some((h, ix)) && g.transaction_id@ == h && g.action_index
            == ix,
        StrictMaybe::Nothing => o is None,
    }
}

/// Whether a stake credential is the one a kind and hash spell.
pub open spec fn stake_credential_is(c: StakeCredential, kind: u64, h: Seq<u8>) -> bool {
    match c {
        StakeCredential::AddrKeyhash(x) => kind == 0 && x@ == h,
        StakeCredential::ScriptHash(x) => kind == 1 && x@ == h,
    }
}

/// The published discriminant of each governance action.
pub open spec fn gov_action_disc(v: GovAction) -> u64 {
    match v {
        GovAction::ParameterChange(_, _, _) => 0,
        GovAction::HardForkInitiation(_, _) => 1,
        GovAction::TreasuryWithdrawals(_, _) => 2,
        GovAction::NoConfidence(_) => 3,
        GovAction::UpdateCommittee(_, _, _, _) => 4,
        GovAction::NewConstitution(_, _) => 5,
        GovAction::Information => 6,
    }
}

/// The published discriminant of each purpose variant, and its payload.
pub open spec fn conway_purpose_disc(v: ConwayPlutusPurpose) -> u64 {
    match v {
        ConwayPlutusPurpose::ConwaySpending(_) => 0,
        ConwayPlutusPurpose::ConwayMinting(_) => 1,
        ConwayPlutusPurpose::ConwayCertifying(_) => 2,
        ConwayPlutusPurpose::ConwayRewarding(_) => 3,
        ConwayPlutusPurpose::ConwayVoting(_) => 4,
        ConwayPlutusPurpose::ConwayProposing(_) => 5,
    }
}

/// The index-or-item payload of a purpose.
pub open spec fn conway_purpose_payload(v: ConwayPlutusPurpose) -> PurposeAs {
    match v {
        ConwayPlutusPurpose::ConwaySpending(p) => p,
        ConwayPlutusPurpose::ConwayMinting(p) => p,
        ConwayPlutusPurpose::ConwayCertifying(p) => p,
        ConwayPlutusPurpose::ConwayRewarding(p) => p,
        ConwayPlutusPurpose::ConwayVoting(p) => p,
        ConwayPlutusPurpose::ConwayProposing(p) => p,
    }
}

/// Reads a governance action.
pub fn decode_gov_action(b: &[u8], pos: usize) -> (r: Result<(GovAction, usize), DecodeError>)
    ensures
        r matches Ok((_, p)) ==> pos < p <= b@.len(),
        disc_of(b@, pos as int) matches Some(d) ==> (known_discriminant(
            DecodeContext::GovAction,
            d,
        ) || (r matches Err(e) && e == (DecodeError::UnknownDiscriminant {
            context: DecodeContext::GovAction,
            value: d,
        }))),
        r matches Ok(_) ==> (disc_of(b@, pos as int) matches Some(d) && known_discriminant(
            DecodeContext::GovAction,
            d,
        )),
        spec_disc(b@, pos as int) matches Some((d, p)) ==> {
            &&& d == 6 ==> (r matches Ok(t) && t.1 == p && t.0 == GovAction::Information)
            &&& d == 3 ==> match sparse_nullable_gaid(b@, p) {
                Some((o, end)) => r matches Ok(t) && t.1 == end && (t.0 matches
                    GovAction::NoConfidence(m) && maybe_gaid_is(m, o)),
                None => r is Err,
            }
            &&& d == 1 ==> match sparse_nullable_gaid(b@, p) {
                Some((o, p1)) => match sparse_protocol_version(b@, p1) {
                    Some((v, end)) => r matches Ok(t) && t.1 == end && (t.0 matches
                        GovAction::HardForkInitiation(m, pv) && maybe_gaid_is(m, o) && pv == v),
                    None => r is Err,
                },
                None => r is Err,
            }
            &&& (r matches Ok(t) ==> gov_action_disc(t.0) == d)
        },
{
    let (d, p) = read_disc(b, pos, DecodeContext::GovAction)?;
    if d == 0 {
        let (a, p1) = decode_nullable_gaid(b, p)?;
        let (upd, p2) = decode_pparam_update(b, p1)?;
        let (h, p3) = decode_nullable_scripthash(b, p2)?;
        Ok((GovAction::ParameterChange(a, Box::new(upd), h), p3))
    } else if d == 1 {
        let (a, p1) = decode_nullable_gaid(b, p)?;
        let (v, p2) = decode_protocol_version(b, p1)?;
        Ok((GovAction::HardForkInitiation(a, v), p2))
    } else if d == 2 {
        let (m, p1) = decode_withdrawal_map(b, p)?;
        let (h, p2) = decode_nullable_scripthash(b, p1)?;
        Ok((GovAction::TreasuryWithdrawals(m, h), p2))
    } else if d == 3 {
        let (a, p1) = decode_nullable_gaid(b, p)?;
        Ok((GovAction::NoConfidence(a), p1))
    } else if d == 4 {
        let (a, p1) = decode_nullable_gaid(b, p)?;
        let (removed, p2) = decode_set_credential(b, p1)?;
        let (added, p3) = decode_committee_map(b, p2)?;
        let (threshold, p4) = decode_rational(b, p3)?;
        Ok((GovAction::UpdateCommittee(a, removed, added, threshold), p4))
    } else if d == 5 {
        let (a, p1) = decode_nullable_gaid(b, p)?;
        let (c, p2) = decode_constitution(b, p1)?;
        Ok((GovAction::NewConstitution(a, c), p2))
    } else if d == 6 {
        Ok((GovAction::Information, p))
    } else {
        Err(DecodeError::UnknownDiscriminant { context: DecodeContext::GovAction, value: d })
    }
}

/// Reads a proposal procedure.
pub fn decode_proposal_procedure(b: &[u8], pos: usize) -> (r: Result<
    (ProposalProcedure, usize),
    DecodeError,
>)
    ensures
        r matches Ok((_, p)) ==> pos < p <= b@.len(),
{
    let (_len, p0) = want_array(b, pos, DecodeContext::ConwayGovPredFailure)?;
    let (deposit, p1) = want_u64(b, p0, DecodeContext::ConwayGovPredFailure)?;
    let (reward_account, p2) = decode_reward_account(b, p1)?;
    let (gov_action, p3) = decode_gov_action(b, p2)?;
    let (anchor, p4) = decode_anchor(b, p3)?;
    Ok((ProposalProcedure { deposit, reward_account, gov_action, anchor }, p4))
}

/// Reads the description of one script failure.
pub fn decode_failure_description(b: &[u8], pos: usize) -> (r: Result<
    (FailureDescription, usize),
    DecodeError,
>)
    ensures
        r matches Ok((_, p)) ==> pos < p <= b@.len(),
        disc_of(b@, pos as int) matches Some(d) ==> (known_discriminant(
            DecodeContext::FailureDescription,
            d,
        ) || (r matches Err(e) && e == (DecodeError::UnknownDiscriminant {
            context: DecodeContext::FailureDescription,
            value: d,
        }))),
        r matches Ok(_) ==> (disc_of(b@, pos as int) matches Some(d) && known_discriminant(
            DecodeContext::FailureDescription,
            d,
        )),
        spec_disc(b@, pos as int) matches Some((d, p)) ==> (d == 1 ==> match spec_text(b@, p) {
            Some((raw, p1)) => if vstd::utf8::valid_utf8(raw) {
                match spec_bytes(b@, p1) {
                    Some((h, end)) => r matches Ok(t) && t.1 == end && (t.0 matches
                        FailureDescription::PlutusFailure(m, x) && m@ == vstd::utf8::decode_utf8(
                        raw,
                    ) && x.0@ == h),
                    None => r is Err,
                }
            } else {
                r is Err
            },
            None => r is Err,
        }),
{
    let (d, p) = read_disc(b, pos, DecodeContext::FailureDescription)?;
    if d == 1 {
        let (msg, p1) = want_text(b, p, DecodeContext::FailureDescription)?;
        let (raw, p2) = decode_bytes_value(b, p1)?;
        Ok((FailureDescription::PlutusFailure(msg, raw), p2))
    } else {
        Err(
            DecodeError::UnknownDiscriminant {
                context: DecodeContext::FailureDescription,
                value: d,
            },
        )
    }
}

/// Reads why a validation tag was wrong.
pub fn decode_tag_mismatch(b: &[u8], pos: usize) -> (r: Result<
    (TagMismatchDescription, usize),
    DecodeError,
>)
    ensures
        r matches Ok((_, p)) ==> pos < p <= b@.len(),
        disc_of(b@, pos as int) matches Some(d) ==> (known_discriminant(
            DecodeContext::TagMismatchDescription,
            d,
        ) || (r matches Err(e) && e == (DecodeError::UnknownDiscriminant {
            context: DecodeContext::TagMismatchDescription,
            value: d,
        }))),
        r matches Ok(_) ==> (disc_of(b@, pos as int) matches Some(d) && known_discriminant(
            DecodeContext::TagMismatchDescription,
            d,
        )),
        spec_disc(b@, pos as int) matches Some((d, p)) ==> {
            &&& d == 0 ==> r == Ok::<_, DecodeError>(
                (TagMismatchDescription::PassedUnexpectedly, p as usize),
            )
            &&& (r matches Ok(t) ==> match t.0 {
                TagMismatchDescription::PassedUnexpectedly => d == 0,
                TagMismatchDescription::FailedUnexpectedly(_) => d == 1,
            })
        },
{
    let (d, p) = read_disc(b, pos, DecodeContext::TagMismatchDescription)?;
    if d == 0 {
        Ok((TagMismatchDescription::PassedUnexpectedly, p))
    } else if d == 1 {
        let (v, q) = decode_failure_description_list(b, p)?;
        Ok((TagMismatchDescription::FailedUnexpectedly(v), q))
    } else {
        Err(
            DecodeError::UnknownDiscriminant {
                context: DecodeContext::TagMismatchDescription,
                value: d,
            },
        )
    }
}

/// Reads a raw address into its display wrapper.
pub fn decode_display_address(b: &[u8], pos: usize) -> (r: Result<
    (DisplayAddress, usize),
    DecodeError,
>)
    ensures
        r matches Ok((_, p)) ==> pos < p <= b@.len(),
{
    let (v, p) = want_bytes(b, pos, DecodeContext::BabbageTxOut)?;
    Ok((DisplayAddress(v), p))
}

/// Reads a coin-only value of the mark era.
pub fn decode_maryvalue(b: &[u8], pos: usize) -> (r: Result<(MaryValue, usize), DecodeError>)
    ensures
        r matches Ok((_, p)) ==> pos < p <= b@.len(),
{
    let (v, p) = want_u64(b, pos, DecodeContext::BabbageTxOut)?;
    Ok((MaryValue(DisplayCoin(v)), p))
}

/// Consumes a full value without retaining it.
pub fn decode_value_placeholder(b: &[u8], pos: usize) -> (r: Result<
    (DisplayValue, usize),
    DecodeError,
>)
    ensures
        r matches Ok((_, p)) ==> pos < p <= b@.len(),
{
    match skip_item(b, pos) {
        Some(p) => Ok((DisplayValue, p)),
        None => Err(DecodeError::Truncated),
    }
}

/// Reads an embedded document: the fixed wire tag, then the byte string
/// holding an independently decodable document.
pub fn decode_embedded_bytes(b: &[u8], pos: usize) -> (r: Result<(Vec<u8>, usize), DecodeError>)
    ensures
        match r {
            Ok((v, p)) => spec_tag(b@, pos as int) matches Some((t, q)) && t == 24 && spec_bytes(
                b@,
                q,
            ) == Some((v@, p as int)) && pos < p <= b@.len(),
            Err(_) => true,
        },
        spec_tag(b@, pos as int) matches Some((t, q)) ==> (if t != 24 {
            r matches Err(e) && e == (DecodeError::UnexpectedWireTag {
                context: DecodeContext::CborBytes,
                tag: t,
            })
        } else {
            match spec_bytes(b@, q) {
                Some(_) => r is Ok,
                None => r is Err,
            }
        }),
{
    let (t, p) = want_tag(b, pos, DecodeContext::CborBytes)?;
    if t != 24 {
        return Err(DecodeError::UnexpectedWireTag { context: DecodeContext::CborBytes, tag: t });
    }
    let (v, q) = want_bytes(b, p, DecodeContext::CborBytes)?;
    Ok((v, q))
}

/// Reads a time lock, memoising the hash of its own encoding.
fn decode_timelock_bounded(b: &[u8], pos: usize, depth: u32) -> (r: Result<
    (Timelock, usize),
    DecodeError,
>)
    ensures
        r matches Ok((t, p)) ==> pos < p <= b@.len() && t.memo.0@ == blake2b256_of(
            b@.subrange(pos as int, p as int),
        ),
    decreases b@.len() - pos, 2int,
{
    let (raw, p) = decode_timelock_raw_bounded(b, pos, depth)?;
    let raw_bytes = vstd::slice::slice_subrange(b, pos, p);
    let memo = DisplayHash(blake2b_256(raw_bytes));
    Ok((Timelock { raw, memo }, p))
}

/// Reads the shape of a time lock, descending into nested locks only
/// while the depth budget lasts.
fn decode_timelock_raw_bounded(b: &[u8], pos: usize, depth: u32) -> (r: Result<(TimelockRaw, usize), DecodeError>)
    ensures
        r matches Ok((_, p)) ==> pos < p <= b@.len(),
        disc_of(b@, pos as int) matches Some(d) ==> (known_discriminant(DecodeContext::Timelock, d)
            || (r matches Err(e) && e == (DecodeError::UnknownDiscriminant {
            context: DecodeContext::Timelock,
            value: d,
        }))),
        r matches Ok(_) ==> (disc_of(b@, pos as int) matches Some(d) && known_discriminant(
            DecodeContext::Timelock,
            d,
        )),
    decreases b@.len() - pos, 1int,
{
    let (d, p) = read_disc(b, pos, DecodeContext::Timelock)?;
    if d == 0 {
        let (h, q) = want_bytes(b, p, DecodeContext::Timelock)?;
        Ok((TimelockRaw::Signature(KeyHash(h)), q))
    } else if d == 1 {
        if depth == 0 {
            return Err(DecodeError::NestingTooDeep);
        }
        let (v, q) = decode_timelock_list_bounded(b, p, depth - 1)?;
        Ok((TimelockRaw::AllOf(v), q))
    } else if d == 2 {
        if depth == 0 {
            return Err(DecodeError::NestingTooDeep);
        }
        let (v, q) = decode_timelock_list_bounded(b, p, depth - 1)?;
        Ok((TimelockRaw::AnyOf(v), q))
    } else if d == 3 {
        if depth == 0 {
            return Err(DecodeError::NestingTooDeep);
        }
        let (m, p1) = want_u8(b, p, DecodeContext::Timelock)?;
        let (v, q) = decode_timelock_list_bounded(b, p1, depth - 1)?;
        Ok((TimelockRaw::MOfN(m, v), q))
    } else if d == 4 {
        let (sl, q) = want_u64(b, p, DecodeContext::Timelock)?;
        Ok((TimelockRaw::TimeStart(SlotNo(sl)), q))
    } else if d == 5 {
        let (sl, q) = want_u64(b, p, DecodeContext::Timelock)?;
        Ok((TimelockRaw::TimeExpire(SlotNo(sl)), q))
    } else {
        Err(DecodeError::UnknownDiscriminant { context: DecodeContext::Timelock, value: d })
    }
}

/// Reads a sequence of nested time locks.
#[verifier::loop_isolation(false)]
fn decode_timelock_list_bounded(b: &[u8], pos: usize, depth: u32) -> (r: Result<
    (Vec<Timelock>, usize),
    DecodeError,
>)
    ensures
        r matches Ok((_, p)) ==> pos < p <= b@.len(),
        spec_array(b@, pos as int) matches Some((len, q)) ==> (len == Some(0u64) ==> (r matches
            Ok(t) && t.0@.len() == 0 && t.1 == q)),
        spec_array(b@, pos as int) is None ==> r is Err,
    decreases b@.len() - pos, 0int,
{
    let (len_opt, start) = want_array(b, pos, DecodeContext::Timelock)?;
    let mut out: Vec<Timelock> = Vec::new();
    let mut cur = start;
    match len_opt {
        Some(n) => {
            let mut i: u64 = 0;
            while i < n
                invariant
                    pos < cur <= b@.len(),
                    n == 0 ==> out@.len() == 0 && cur == start,
                decreases n - i,
            {
                match decode_timelock_bounded(b, cur, depth) {
                    Ok((v, p)) => {
                        out.push(v);
                        cur = p;
                    },
                    Err(e) => {
                        return Err(e);
                    },
                }
                i = i + 1;
            }
        },
        None => {
            loop
                invariant
                    pos < cur <= b@.len(),
                decreases b@.len() - cur,
            {
                if cur >= b.len() {
                    return Err(DecodeError::Truncated);
                }
                if b[cur] == 0xff {
                    cur = cur + 1;
                    break ;
                }
                match decode_timelock_bounded(b, cur, depth) {
                    Ok((v, p)) => {
                        out.push(v);
                        cur = p;
                    },
                    Err(e) => {
                        return Err(e);
                    },
                }
            }
        },
    }
    Ok((out, cur))
}

/// Reads a time lock, memoising the hash of its own encoding.  Nesting
/// beyond the defensive bound fails decoding.
pub fn decode_timelock(b: &[u8], pos: usize) -> (r: Result<(Timelock, usize), DecodeError>)
    ensures
        r matches Ok((t, p)) ==> pos < p <= b@.len() && t.memo.0@ == blake2b256_of(
            b@.subrange(pos as int, p as int),
        ),
{
    decode_timelock_bounded(b, pos, MAX_NESTING_DEPTH)
}

/// Reads the shape of a time lock.
pub fn decode_timelock_raw(b: &[u8], pos: usize) -> (r: Result<(TimelockRaw, usize), DecodeError>)
    ensures
        r matches Ok((_, p)) ==> pos < p <= b@.len(),
        disc_of(b@, pos as int) matches Some(d) ==> (known_discriminant(DecodeContext::Timelock, d)
            || (r matches Err(e) && e == (DecodeError::UnknownDiscriminant {
            context: DecodeContext::Timelock,
            value: d,
        }))),
        r matches Ok(_) ==> (disc_of(b@, pos as int) matches Some(d) && known_discriminant(
            DecodeContext::Timelock,
            d,
        )),
{
    decode_timelock_raw_bounded(b, pos, MAX_NESTING_DEPTH)
}

/// Reads a sequence of nested time locks.
#[verifier::loop_isolation(false)]
pub fn decode_timelock_list(b: &[u8], pos: usize) -> (r: Result<
    (Vec<Timelock>, usize),
    DecodeError,
>)
    ensures
        r matches Ok((_, p)) ==> pos < p <= b@.len(),
{
    decode_timelock_list_bounded(b, pos, MAX_NESTING_DEPTH)
}

/// Reads a script of any era.
pub fn decode_era_script(b: &[u8], pos: usize) -> (r: Result<(EraScript, usize), DecodeError>)
    ensures
        r matches Ok((_, p)) ==> pos < p <= b@.len(),
        disc_of(b@, pos as int) matches Some(d) ==> (known_discriminant(DecodeContext::EraScript, d)
            || (r matches Err(e) && e == (DecodeError::UnknownDiscriminant {
            context: DecodeContext::EraScript,
            value: d,
        }))),
        r matches Ok(_) ==> (disc_of(b@, pos as int) matches Some(d) && known_discriminant(
            DecodeContext::EraScript,
            d,
        )),
        spec_disc(b@, pos as int) matches Some((d, p)) ==> {
            &&& (1 <= d <= 3) ==> match spec_bytes(b@, p) {
                Some((h, end)) => r matches Ok(t) && t.1 == end && (match t.0 {
                    EraScript::PlutusV1(x) => d == 1 && x.0@ == h,
                    EraScript::PlutusV2(x) => d == 2 && x.0@ == h,
                    EraScript::PlutusV3(x) => d == 3 && x.0@ == h,
                    EraScript::Native(_) => false,
                }),
                None => r is Err,
            }
            &&& (r matches Ok(t) ==> match t.0 {
                EraScript::Native(_) => d == 0,
                EraScript::PlutusV1(_) => d == 1,
                EraScript::PlutusV2(_) => d == 2,
                EraScript::PlutusV3(_) => d == 3,
            })
        },
{
    let (d, p) = read_disc(b, pos, DecodeContext::EraScript)?;
    if d == 0 {
        let (t, q) = decode_timelock(b, p)?;
        Ok((EraScript::Native(t), q))
    } else if d == 1 {
        let (h, q) = decode_scripthash(b, p)?;
        Ok((EraScript::PlutusV1(h), q))
    } else if d == 2 {
        let (h, q) = decode_scripthash(b, p)?;
        Ok((EraScript::PlutusV2(h), q))
    } else if d == 3 {
        let (h, q) = decode_scripthash(b, p)?;
        Ok((EraScript::PlutusV3(h), q))
    } else {
        Err(DecodeError::UnknownDiscriminant { context: DecodeContext::EraScript, value: d })
    }
}

/// Reads the datum attached to an output.  An unlisted discriminant is
/// a hard failure, never a silently absent datum.
pub fn decode_datum_enum(b: &[u8], pos: usize) -> (r: Result<(DatumEnum, usize), DecodeError>)
    ensures
        r matches Ok((_, p)) ==> pos < p <= b@.len(),
        disc_of(b@, pos as int) matches Some(d) ==> (known_discriminant(DecodeContext::DatumEnum, d)
            || (r matches Err(e) && e == (DecodeError::UnknownDiscriminant {
            context: DecodeContext::DatumEnum,
            value: d,
        }))),
        r matches Ok(_) ==> (disc_of(b@, pos as int) matches Some(d) && known_discriminant(
            DecodeContext::DatumEnum,
            d,
        )),
        spec_disc(b@, pos as int) matches Some((d, p)) ==> (d == 0 ==> match spec_bytes(b@, p) {
            Some((h, q)) => r matches Ok(t) && t.1 == q && (t.0 matches DatumEnum::DatumHash(x)
                && x.0@ == h),
            None => r is Err,
        }),
{
    let (d, p) = read_disc(b, pos, DecodeContext::DatumEnum)?;
    if d == 0 {
        let (h, q) = want_bytes(b, p, DecodeContext::DatumEnum)?;
        Ok((DatumEnum::DatumHash(DisplayDatumHash(h)), q))
    } else if d == 1 {
        match skip_item(b, p) {
            Some(q) => {
                let raw = vstd::slice::slice_to_vec(vstd::slice::slice_subrange(b, p, q));
                Ok((DatumEnum::Datum(DisplayDatum(Bytes(raw))), q))
            },
            None => Err(DecodeError::Truncated),
        }
    } else {
        Err(DecodeError::UnknownDiscriminant { context: DecodeContext::DatumEnum, value: d })
    }
}

/// Reads a transaction output of the babbage encoding.  Only the
/// four-field map is rebuilt in full; smaller maps are left as the
/// unimplemented placeholder.
pub fn decode_babbage_txout(b: &[u8], pos: usize) -> (r: Result<(BabbageTxOut, usize), DecodeError>)
    ensures
        r matches Ok((_, p)) ==> pos < p <= b@.len(),
{
    let (len_opt, p0) = want_map(b, pos, DecodeContext::BabbageTxOut)?;
    match len_opt {
        Some(n) => if n == 2 || n == 3 {
            // shapes that are not rebuilt still consume their entries,
            // so the cursor leaves the value entirely
            if n > 0x7fffffffffffffff {
                return Err(DecodeError::Truncated);
            }
            let entries: u64 = 2 * n;
            let mut cur = p0;
            let mut i: u64 = 0;
            while i < entries
                invariant
                    pos < cur <= b@.len(),
                decreases entries - i,
            {
                match skip_item(b, cur) {
                    Some(q) => {
                        cur = q;
                    },
                    None => {
                        return Err(DecodeError::Truncated);
                    },
                }
                i = i + 1;
            }
            Ok((BabbageTxOut::NotImplemented, cur))
        } else if n == 4 {
            let (_k0, p1) = want_u8(b, p0, DecodeContext::BabbageTxOut)?;
            let (addr, p2) = decode_display_address(b, p1)?;
            let (_k1, p3) = want_u8(b, p2, DecodeContext::BabbageTxOut)?;
            let (_vlen, p4) = want_array(b, p3, DecodeContext::BabbageTxOut)?;
            let (value, p5) = decode_maryvalue(b, p4)?;
            let (assets, p6) = decode_multiasset(b, p5)?;
            let (_k2, p7) = want_u8(b, p6, DecodeContext::BabbageTxOut)?;
            let (datum, p8) = decode_datum_enum(b, p7)?;
            let (_k3, p9) = want_u8(b, p8, DecodeContext::BabbageTxOut)?;
            let (inner, p10) = decode_embedded_bytes(b, p9)?;
            let (script, _end) = decode_era_script(inner.as_slice(), 0)?;
            Ok(
                (
                    BabbageTxOut::TxOutCompactRefScript(
                        addr,
                        (value, assets),
                        datum,
                        StrictMaybe::Just(script),
                    ),
                    p10,
                ),
            )
        } else {
            Err(DecodeError::UnexpectedFieldCount { context: DecodeContext::BabbageTxOut, count: n })
        },
        None => {
            // indefinite map: consume every entry up to the break byte
            let mut cur = p0;
            loop
                invariant
                    pos < cur <= b@.len(),
                decreases b@.len() - cur,
            {
                if cur >= b.len() {
                    return Err(DecodeError::Truncated);
                }
                if b[cur] == 0xff {
                    cur = cur + 1;
                    break ;
                }
                match skip_item(b, cur) {
                    Some(q) => {
                        cur = q;
                    },
                    None => {
                        return Err(DecodeError::Truncated);
                    },
                }
            }
            Ok((BabbageTxOut::NotImplemented, cur))
        },
    }
}

/// Reads a transaction certificate, keeping only the shapes the error
/// taxonomy reports in full and consuming the rest.
#[verifier::loop_isolation(false)]
pub fn decode_conway_tx_cert(b: &[u8], pos: usize) -> (r: Result<(ConwayTxCert, usize), DecodeError>)
    ensures
        r matches Ok((_, p)) ==> pos < p <= b@.len(),
        disc_of(b@, pos as int) matches Some(d) ==> (known_discriminant(
            DecodeContext::Certificate,
            d,
        ) || (r matches Err(e) && e == (DecodeError::UnknownDiscriminant {
            context: DecodeContext::Certificate,
            value: d,
        }))),
        r matches Ok(_) ==> (disc_of(b@, pos as int) matches Some(d) && known_discriminant(
            DecodeContext::Certificate,
            d,
        )),
        spec_disc(b@, pos as int) matches Some((d, p)) ==> {
            &&& (d == 0 || d == 1) ==> match sparse_credential(b@, p) {
                Some((k, h, end)) => r matches Ok(t) && t.1 == end && (match t.0 {
                    ConwayTxCert::ConwayTxCertDeleg(c) => match c {
                        ConwayDelegCert::ConwayRegCert(sc, o) => d == 0 && stake_credential_is(
                            sc,
                            k,
                            h,
                        ) && o is None,
                        ConwayDelegCert::ConwayUnRegCert(sc, o) => d == 1 && stake_credential_is(
                            sc,
                            k,
                            h,
                        ) && o is None,
                        _ => false,
                    },
                    _ => false,
                }),
                None => r is Err,
            }
            &&& d == 2 ==> match sparse_credential(b@, p) {
                Some((k, h, p1)) => match spec_bytes(b@, p1) {
                    Some((h2, end)) => r matches Ok(t) && t.1 == end && (match t.0 {
                        ConwayTxCert::ConwayTxCertDeleg(c) => match c {
                            ConwayDelegCert::ConwayDelegCert(sc, dl) => stake_credential_is(
                                sc,
                                k,
                                h,
                            ) && (dl matches Delegatee::DelegStake(x) && x@ == h2),
                            _ => false,
                        },
                        _ => false,
                    }),
                    None => r is Err,
                },
                None => r is Err,
            }
        },
{
    let (len_opt, p0) = want_array(b, pos, DecodeContext::Certificate)?;
    let (d, p) = want_u16(b, p0, DecodeContext::Certificate)?;
    if d == 0 {
        let (sc, q) = decode_stake_credential(b, p)?;
        Ok((ConwayTxCert::ConwayTxCertDeleg(ConwayDelegCert::ConwayRegCert(sc, None)), q))
    } else if d == 1 {
        let (sc, q) = decode_stake_credential(b, p)?;
        Ok((ConwayTxCert::ConwayTxCertDeleg(ConwayDelegCert::ConwayUnRegCert(sc, None)), q))
    } else if d == 2 {
        let (sc, p1) = decode_stake_credential(b, p)?;
        let (h, q) = want_bytes(b, p1, DecodeContext::Certificate)?;
        Ok(
            (
                ConwayTxCert::ConwayTxCertDeleg(
                    ConwayDelegCert::ConwayDelegCert(sc, Delegatee::DelegStake(h)),
                ),
                q,
            ),
        )
    } else if d <= 17 {
        // remaining certificate shapes: consume the fields and keep a
        // placeholder, as the reporting for them is not worked out
        let mut cur = p;
        match len_opt {
            Some(n) => {
                let mut i: u64 = 1;
                while i < n
                    invariant
                        pos < cur <= b@.len(),
                    decreases n - i,
                {
                    match skip_item(b, cur) {
                        Some(q) => {
                            cur = q;
                        },
                        None => {
                            return Err(DecodeError::Truncated);
                        },
                    }
                    i = i + 1;
                }
            },
            None => {
                loop
                    invariant
                        pos < cur <= b@.len(),
                    decreases b@.len() - cur,
                {
                    if cur >= b.len() {
                        return Err(DecodeError::Truncated);
                    }
                    if b[cur] == 0xff {
                        cur = cur + 1;
                        break ;
                    }
                    match skip_item(b, cur) {
                        Some(q) => {
                            cur = q;
                        },
                        None => {
                            return Err(DecodeError::Truncated);
                        },
                    }
                }
            },
        }
        let mut name = String::new();
        name.append("certificate kind ");
        crate::numstr::append_dec_u64(&mut name, d);
        Ok((ConwayTxCert::ConwayTxCertPool(PoolCert(name)), cur))
    } else {
        Err(DecodeError::UnknownDiscriminant { context: DecodeContext::Certificate, value: d })
    }
}

/// Reads a sequence of raw addresses, definite or indefinite length.
#[verifier::loop_isolation(false)]
pub fn decode_addr_list(b: &[u8], pos: usize) -> (r: Result<(Vec<Bytes>, usize), DecodeError>)
    ensures
        r matches Ok((_, p)) ==> pos < p <= b@.len(),
        spec_array(b@, pos as int) matches Some((len, q)) ==> (len == Some(0u64) ==> (r matches
            Ok(t) && t.0@.len() == 0 && t.1 == q)),
        spec_array(b@, pos as int) is None ==> r is Err,
{
    let (len_opt, start) = want_array(b, pos, DecodeContext::ConwayUtxoPredFailure)?;
    let mut out: Vec<Bytes> = Vec::new();
    let mut cur = start;
    match len_opt {
        Some(n) => {
            let mut i: u64 = 0;
            while i < n
                invariant
                    pos < cur <= b@.len(),
                    n == 0 ==> out@.len() == 0 && cur == start,
                decreases n - i,
            {
                match decode_bytes_value(b, cur) {
                    Ok((v, p)) => {
                        out.push(v);
                        cur = p;
                    },
                    Err(e) => {
                        return Err(e);
                    },
                }
                i = i + 1;
            }
        },
        None => {
            loop
                invariant
                    pos < cur <= b@.len(),
                decreases b@.len() - cur,
            {
                if cur >= b.len() {
                    return Err(DecodeError::Truncated);
                }
                if b[cur] == 0xff {
                    cur = cur + 1;
                    break ;
                }
                match decode_bytes_value(b, cur) {
                    Ok((v, p)) => {
                        out.push(v);
                        cur = p;
                    },
                    Err(e) => {
                        return Err(e);
                    },
                }
            }
        },
    }
    Ok((out, cur))
}

/// Reads a sequence of uninterpreted outputs, definite or indefinite length.
#[verifier::loop_isolation(false)]
pub fn decode_stxout_list(b: &[u8], pos: usize) -> (r: Result<(Vec<SerializableTxOut>, usize), DecodeError>)
    ensures
        r matches Ok((_, p)) ==> pos < p <= b@.len(),
        spec_array(b@, pos as int) matches Some((len, q)) ==> (len == Some(0u64) ==> (r matches
            Ok(t) && t.0@.len() == 0 && t.1 == q)),
        spec_array(b@, pos as int) is None ==> r is Err,
{
    let (len_opt, start) = want_array(b, pos, DecodeContext::ConwayUtxoPredFailure)?;
    let mut out: Vec<SerializableTxOut> = Vec::new();
    let mut cur = start;
    match len_opt {
        Some(n) => {
            let mut i: u64 = 0;
            while i < n
                invariant
                    pos < cur <= b@.len(),
                    n == 0 ==> out@.len() == 0 && cur == start,
                decreases n - i,
            {
                match decode_stxout(b, cur) {
                    Ok((v, p)) => {
                        out.push(v);
                        cur = p;
                    },
                    Err(e) => {
                        return Err(e);
                    },
                }
                i = i + 1;
            }
        },
        None => {
            loop
                invariant
                    pos < cur <= b@.len(),
                decreases b@.len() - cur,
            {
                if cur >= b.len() {
                    return Err(DecodeError::Truncated);
                }
                if b[cur] == 0xff {
                    cur = cur + 1;
                    break ;
                }
                match decode_stxout(b, cur) {
                    Ok((v, p)) => {
                        out.push(v);
                        cur = p;
                    },
                    Err(e) => {
                        return Err(e);
                    },
                }
            }
        },
    }
    Ok((out, cur))
}

/// Reads a sequence of outputs of the babbage encoding, definite or indefinite length.
#[verifier::loop_isolation(false)]
pub fn decode_babbage_txout_list(b: &[u8], pos: usize) -> (r: Result<(Vec<BabbageTxOut>, usize), DecodeError>)
    ensures
        r matches Ok((_, p)) ==> pos < p <= b@.len(),
        spec_array(b@, pos as int) matches Some((len, q)) ==> (len == Some(0u64) ==> (r matches
            Ok(t) && t.0@.len() == 0 && t.1 == q)),
        spec_array(b@, pos as int) is None ==> r is Err,
{
    let (len_opt, start) = want_array(b, pos, DecodeContext::ConwayUtxoPredFailure)?;
    let mut out: Vec<BabbageTxOut> = Vec::new();
    let mut cur = start;
    match len_opt {
        Some(n) => {
            let mut i: u64 = 0;
            while i < n
                invariant
                    pos < cur <= b@.len(),
                    n == 0 ==> out@.len() == 0 && cur == start,
                decreases n - i,
            {
                match decode_babbage_txout(b, cur) {
                    Ok((v, p)) => {
                        out.push(v);
                        cur = p;
                    },
                    Err(e) => {
                        return Err(e);
                    },
                }
                i = i + 1;
            }
        },
        None => {
            loop
                invariant
                    pos < cur <= b@.len(),
                decreases b@.len() - cur,
            {
                if cur >= b.len() {
                    return Err(DecodeError::Truncated);
                }
                if b[cur] == 0xff {
                    cur = cur + 1;
                    break ;
                }
                match decode_babbage_txout(b, cur) {
                    Ok((v, p)) => {
                        out.push(v);
                        cur = p;
                    },
                    Err(e) => {
                        return Err(e);
                    },
                }
            }
        },
    }
    Ok((out, cur))
}

/// Reads a sequence of transaction-application failures, definite or indefinite length.
#[verifier::loop_isolation(false)]
pub fn decode_apply_error_list(b: &[u8], pos: usize) -> (r: Result<(Vec<ApplyConwayTxPredError>, usize), DecodeError>)
    ensures
        r matches Ok((_, p)) ==> pos < p <= b@.len(),
        spec_array(b@, pos as int) matches Some((len, q)) ==> (len == Some(0u64) ==> (r matches
            Ok(t) && t.0@.len() == 0 && t.1 == q)),
        spec_array(b@, pos as int) matches Some((len, q)) ==> (len == Some(1u64) ==> (r matches
            Ok(t) ==> (t.0@.len() == 1 && apply_error_sound(b@, q, t.0@[0], t.1 as int)))),
        spec_array(b@, pos as int) is None ==> r is Err,
{
    let (len_opt, start) = want_array(b, pos, DecodeContext::ApplyTxPredError)?;
    let mut out: Vec<ApplyConwayTxPredError> = Vec::new();
    let mut cur = start;
    match len_opt {
        Some(n) => {
            let mut i: u64 = 0;
            while i < n
                invariant
                    pos < cur <= b@.len(),
                    n == 0 ==> out@.len() == 0 && cur == start,
                    i == 0 ==> cur == start,
                    i <= n,
                    out@.len() == i as int,
                    n == 1 && i == 1 ==> out@.len() == 1 && apply_error_sound(
                        b@,
                        start as int,
                        out@[0],
                        cur as int,
                    ),
                decreases n - i,
            {
                match decode_apply_error(b, cur) {
                    Ok((v, p)) => {
                        out.push(v);
                        cur = p;
                    },
                    Err(e) => {
                        return Err(e);
                    },
                }
                i = i + 1;
            }
        },
        None => {
            loop
                invariant
                    pos < cur <= b@.len(),
                decreases b@.len() - cur,
            {
                if cur >= b.len() {
                    return Err(DecodeError::Truncated);
                }
                if b[cur] == 0xff {
                    cur = cur + 1;
                    break ;
                }
                match decode_apply_error(b, cur) {
                    Ok((v, p)) => {
                        out.push(v);
                        cur = p;
                    },
                    Err(e) => {
                        return Err(e);
                    },
                }
            }
        },
    }
    Ok((out, cur))
}


/// The optional hash field of the witnessing context: absent as an empty
/// (or indefinite) array, present as one byte string.
pub open spec fn sparse_maybe_bytes(b: Seq<u8>, pos: int) -> Option<(Option<Seq<u8>>, int)> {
    match spec_array(b, pos) {
        Some((len, q)) => match len {
            Some(n) => if n == 0 {
                Some((None, q))
            } else {
                match spec_bytes(b, q) {
                    Some((h, end)) => Some((Some(h), end)),
                    None => None,
                }
            },
            None => Some((None, q)),
        },
        None => None,
    }
}

/// Whether an optional safe hash is the one an optional byte string spells.
pub open spec fn maybe_safehash_is(m: StrictMaybe<SafeHash>, o: Option<Seq<u8>>) -> bool {
    match m {
        StrictMaybe::Just(v) => o matches Some(h) && v.0@ == h,
        StrictMaybe::Nothing => o is None,
    }
}

/// Whether an optional script hash is the one an optional byte string spells.
pub open spec fn maybe_scripthash_is(m: StrictMaybe<DisplayScriptHash>, o: Option<Seq<u8>>) -> bool {
    match m {
        StrictMaybe::Just(v) => o matches Some(h) && v.0@ == h,
        StrictMaybe::Nothing => o is None,
    }
}

/// The published discriminant of each transaction-application variant.
pub open spec fn apply_variant_disc(v: ApplyConwayTxPredError) -> u64 {
    match v {
        ApplyConwayTxPredError::ConwayUtxowFailure(_) => 1,
        ApplyConwayTxPredError::ConwayCertsFailure(_) => 2,
        ApplyConwayTxPredError::ConwayGovFailure(_) => 3,
        ApplyConwayTxPredError::ConwayWdrlNotDelegatedToDRep(_) => 4,
        ApplyConwayTxPredError::ConwayTreasuryValueMismatch(_, _) => 5,
        ApplyConwayTxPredError::ConwayTxRefScriptsSizeTooBig(_, _) => 6,
        ApplyConwayTxPredError::ConwayMempoolFailure(_) => 7,
    }
}

/// The published discriminant of each witnessing variant.
pub open spec fn utxow_variant_disc(v: ConwayUtxoWPredFailure) -> u64 {
    match v {
        ConwayUtxoWPredFailure::UtxoFailure(_) => 0,
        ConwayUtxoWPredFailure::InvalidWitnessesUTXOW(_) => 1,
        ConwayUtxoWPredFailure::MissingVKeyWitnessesUTXOW(_) => 2,
        ConwayUtxoWPredFailure::MissingScriptWitnessesUTXOW(_) => 3,
        ConwayUtxoWPredFailure::ScriptWitnessNotValidatingUTXOW(_) => 4,
        ConwayUtxoWPredFailure::MissingTxBodyMetadataHash(_) => 5,
        ConwayUtxoWPredFailure::MissingTxMetadata(_) => 6,
        ConwayUtxoWPredFailure::ConflictingMetadataHash(_, _) => 7,
        ConwayUtxoWPredFailure::InvalidMetadata() => 8,
        ConwayUtxoWPredFailure::ExtraneousScriptWitnessesUTXOW(_) => 9,
        ConwayUtxoWPredFailure::MissingRedeemers(_) => 10,
        ConwayUtxoWPredFailure::MissingRequiredDatums(_, _) => 11,
        ConwayUtxoWPredFailure::NotAllowedSupplementalDatums(_, _) => 12,
        ConwayUtxoWPredFailure::PPViewHashesDontMatch(_, _) => 13,
        ConwayUtxoWPredFailure::UnspendableUTxONoDatumHash(_) => 14,
        ConwayUtxoWPredFailure::ExtraRedeemers(_) => 15,
        ConwayUtxoWPredFailure::MalformedScriptWitnesses(_) => 16,
        ConwayUtxoWPredFailure::MalformedReferenceScripts(_) => 17,
    }
}

/// The published discriminant of each UTxO-rule variant.
pub open spec fn utxo_variant_disc(v: ConwayUtxoPredFailure) -> u64 {
    match v {
        ConwayUtxoPredFailure::UtxosFailure(_) => 0,
        ConwayUtxoPredFailure::BadInputsUTxO(_) => 1,
        ConwayUtxoPredFailure::OutsideValidityIntervalUTxO(_, _) => 2,
        ConwayUtxoPredFailure::MaxTxSizeUTxO(_, _) => 3,
        ConwayUtxoPredFailure::InputSetEmptyUTxO() => 4,
        ConwayUtxoPredFailure::FeeTooSmallUTxO(_, _) => 5,
        ConwayUtxoPredFailure::ValueNotConservedUTxO(_, _) => 6,
        ConwayUtxoPredFailure::WrongNetwork(_, _) => 7,
        ConwayUtxoPredFailure::WrongNetworkWithdrawal(_, _) => 8,
        ConwayUtxoPredFailure::OutputTooSmallUTxO(_) => 9,
        ConwayUtxoPredFailure::OutputBootAddrAttrsTooBig(_) => 10,
        ConwayUtxoPredFailure::OutputTooBigUTxO(_) => 11,
        ConwayUtxoPredFailure::InsufficientCollateral(_, _) => 12,
        ConwayUtxoPredFailure::ScriptsNotPaidUTxO(_) => 13,
        ConwayUtxoPredFailure::ExUnitsTooBigUTxO(_, _) => 14,
        ConwayUtxoPredFailure::CollateralContainsNonADA(_) => 15,
        ConwayUtxoPredFailure::WrongNetworkInTxBody(_, _) => 16,
        ConwayUtxoPredFailure::OutsideForecast(_) => 17,
        ConwayUtxoPredFailure::TooManyCollateralInputs(_, _) => 18,
        ConwayUtxoPredFailure::NoCollateralInputs() => 19,
        ConwayUtxoPredFailure::IncorrectTotalCollateralField(_, _) => 20,
        ConwayUtxoPredFailure::BabbageOutputTooSmallUTxO(_) => 21,
        ConwayUtxoPredFailure::BabbageNonDisjointRefInputs(_) => 22,
    }
}

/// The published discriminant of each governance variant.
pub open spec fn gov_variant_disc(v: ConwayGovPredFailure) -> u64 {
    match v {
        ConwayGovPredFailure::GovActionsDoNotExist(_) => 0,
        ConwayGovPredFailure::MalformedProposal(_) => 1,
        ConwayGovPredFailure::ProposalProcedureNetworkIdMismatch(_, _) => 2,
        ConwayGovPredFailure::TreasuryWithdrawalsNetworkIdMismatch(_, _) => 3,
        ConwayGovPredFailure::ProposalDepositIncorrect(_, _) => 4,
        ConwayGovPredFailure::DisallowedVoters(_) => 5,
        ConwayGovPredFailure::ConflictingCommitteeUpdate(_) => 6,
        ConwayGovPredFailure::ExpirationEpochTooSmall(_) => 7,
        ConwayGovPredFailure::InvalidPrevGovActionId(_) => 8,
        ConwayGovPredFailure::VotingOnExpiredGovAction(_) => 9,
        ConwayGovPredFailure::ProposalCantFollow(_, _, _) => 10,
        ConwayGovPredFailure::InvalidPolicyHash(_, _) => 11,
        ConwayGovPredFailure::DisallowedProposalDuringBootstrap(_) => 12,
        ConwayGovPredFailure::DisallowedVotesDuringBootstrap(_) => 13,
        ConwayGovPredFailure::VotersDoNotExist(_) => 14,
        ConwayGovPredFailure::ZeroTreasuryWithdrawals(_) => 15,
        ConwayGovPredFailure::ProposalReturnAccountDoesNotExist(_) => 16,
        ConwayGovPredFailure::TreasuryWithdrawalReturnAccountsDoNotExist(_) => 17,
    }
}

/// Reads a sequence of collection errors; their content is consumed but
/// not interpreted, one placeholder per element.
#[verifier::loop_isolation(false)]
pub fn decode_collect_error_list(b: &[u8], pos: usize) -> (r: Result<
    (Vec<CollectError>, usize),
    DecodeError,
>)
    ensures
        r matches Ok((_, p)) ==> pos < p <= b@.len(),
        spec_array(b@, pos as int) matches Some((len, q)) ==> (len == Some(0u64) ==> (r matches
            Ok(t) && t.0@.len() == 0 && t.1 == q)),
        spec_array(b@, pos as int) is None ==> r is Err,
{
    let (len_opt, start) = want_array(b, pos, DecodeContext::ConwayUtxosPredFailure)?;
    let mut out: Vec<CollectError> = Vec::new();
    let mut cur = start;
    match len_opt {
        Some(n) => {
            let mut i: u64 = 0;
            while i < n
                invariant
                    pos < cur <= b@.len(),
                    n == 0 ==> out@.len() == 0 && cur == start,
                decreases n - i,
            {
                match skip_item(b, cur) {
                    Some(q) => {
                        out.push(CollectError);
                        cur = q;
                    },
                    None => {
                        return Err(DecodeError::Truncated);
                    },
                }
                i = i + 1;
            }
        },
        None => {
            loop
                invariant
                    pos < cur <= b@.len(),
                decreases b@.len() - cur,
            {
                if cur >= b.len() {
                    return Err(DecodeError::Truncated);
                }
                if b[cur] == 0xff {
                    cur = cur + 1;
                    break ;
                }
                match skip_item(b, cur) {
                    Some(q) => {
                        out.push(CollectError);
                        cur = q;
                    },
                    None => {
                        return Err(DecodeError::Truncated);
                    },
                }
            }
        },
    }
    Ok((out, cur))
}

/// Reads one UTxO-state failure.
pub fn decode_utxos_failure(b: &[u8], pos: usize) -> (r: Result<
    (ConwayUtxosPredFailure, usize),
    DecodeError,
>)
    ensures
        r matches Ok((_, p)) ==> pos < p <= b@.len(),
        disc_of(b@, pos as int) matches Some(d) ==> (known_discriminant(DecodeContext::ConwayUtxosPredFailure, d) || (r matches Err(e)
            && e == (DecodeError::UnknownDiscriminant { context: DecodeContext::ConwayUtxosPredFailure, value: d }))),
        r matches Ok(_) ==> (disc_of(b@, pos as int) matches Some(d) && known_discriminant(DecodeContext::ConwayUtxosPredFailure, d)),
        spec_disc(b@, pos as int) matches Some((d, p)) ==> {
            &&& d == 0 ==> match spec_bool(b@, p) {
                Some((v, _p1)) => r matches Ok(t) ==> (t.0 matches
                    ConwayUtxosPredFailure::ValidationTagMismatch(iv, _) && iv == v),
                None => r is Err,
            }
            &&& (r matches Ok(t) ==> match t.0 {
                ConwayUtxosPredFailure::ValidationTagMismatch(_, _) => d == 0,
                ConwayUtxosPredFailure::CollectErrors(_) => d == 1,
            })
        },
{
    let (d, p) = read_disc(b, pos, DecodeContext::ConwayUtxosPredFailure)?;
    if d == 0 {
        let (is_valid, p1) = want_bool(b, p, DecodeContext::ConwayUtxosPredFailure)?;
        let (desc, p2) = decode_tag_mismatch(b, p1)?;
        Ok((ConwayUtxosPredFailure::ValidationTagMismatch(is_valid, desc), p2))
    } else if d == 1 {
        let (errors, q) = decode_collect_error_list(b, p)?;
        Ok((ConwayUtxosPredFailure::CollectErrors(Array(errors)), q))
    } else {
        Err(
            DecodeError::UnknownDiscriminant {
                context: DecodeContext::ConwayUtxosPredFailure,
                value: d,
            },
        )
    }
}

/// Reads one UTxO-rule failure; the state sub-rule variant wraps another
/// failure of the same family, descending only while the depth budget
/// lasts.
#[verifier::rlimit(100)]
fn decode_utxo_failure_bounded(b: &[u8], pos: usize, depth: u32) -> (r: Result<
    (ConwayUtxoPredFailure, usize),
    DecodeError,
>)
    ensures
        r matches Ok((_, p)) ==> pos < p <= b@.len(),
        disc_of(b@, pos as int) matches Some(d) ==> (known_discriminant(DecodeContext::ConwayUtxoPredFailure, d) || (r matches Err(e)
            && e == (DecodeError::UnknownDiscriminant { context: DecodeContext::ConwayUtxoPredFailure, value: d }))),
        r matches Ok(_) ==> (disc_of(b@, pos as int) matches Some(d) && known_discriminant(DecodeContext::ConwayUtxoPredFailure, d)),
        spec_disc(b@, pos as int) matches Some((d, p)) ==> {
            &&& d == 2 ==> match sparse_validity_interval(b@, p) {
                Some((vi, p1)) => match spec_uint(b@, p1) {
                    Some((sl, end)) => r matches Ok(t) && t.1 == end && t.0
                        == ConwayUtxoPredFailure::OutsideValidityIntervalUTxO(vi, SlotNo(sl)),
                    None => r is Err,
                },
                None => r is Err,
            }
            &&& (d == 3 || d == 18) ==> match spec_uint(b@, p) {
                Some((a, p1)) => match spec_uint(b@, p1) {
                    Some((c, end)) => r matches Ok(t) && t.1 == end && t.0 == (if d == 3 {
                        ConwayUtxoPredFailure::MaxTxSizeUTxO(a, c)
                    } else {
                        ConwayUtxoPredFailure::TooManyCollateralInputs(a, c)
                    }),
                    None => r is Err,
                },
                None => r is Err,
            }
            &&& d == 4 ==> (r matches Ok(t) && t.1 == p && t.0
                == ConwayUtxoPredFailure::InputSetEmptyUTxO())
            &&& d == 19 ==> (r matches Ok(t) && t.1 == p && t.0
                == ConwayUtxoPredFailure::NoCollateralInputs())
            &&& (d == 5 || d == 20) ==> match spec_uint(b@, p) {
                Some((a, p1)) => match spec_uint(b@, p1) {
                    Some((c, end)) => r matches Ok(t) && t.1 == end && t.0 == (if d == 5 {
                        ConwayUtxoPredFailure::FeeTooSmallUTxO(DisplayCoin(a), DisplayCoin(c))
                    } else {
                        ConwayUtxoPredFailure::IncorrectTotalCollateralField(
                            DisplayCoin(a),
                            DisplayCoin(c),
                        )
                    }),
                    None => r is Err,
                },
                None => r is Err,
            }
            &&& d == 12 ==> match spec_uint(b@, p) {
                Some((a, p1)) => match spec_uint(b@, p1) {
                    Some((c, end)) => r matches Ok(t) && t.1 == end && t.0
                        == ConwayUtxoPredFailure::InsufficientCollateral(
                        DeltaCoin(a),
                        DisplayCoin(c),
                    ),
                    None => r is Err,
                },
                None => r is Err,
            }
            &&& d == 14 ==> match sparse_exunits(b@, p) {
                Some((a, p1)) => match sparse_exunits(b@, p1) {
                    Some((c, end)) => r matches Ok(t) && t.1 == end && t.0
                        == ConwayUtxoPredFailure::ExUnitsTooBigUTxO(
                        DisplayExUnits(a),
                        DisplayExUnits(c),
                    ),
                    None => r is Err,
                },
                None => r is Err,
            }
            &&& d == 16 ==> match sparse_network(b@, p) {
                Some((a, p1)) => match sparse_network(b@, p1) {
                    Some((c, end)) => r matches Ok(t) && t.1 == end && t.0
                        == ConwayUtxoPredFailure::WrongNetworkInTxBody(a, c),
                    None => r is Err,
                },
                None => r is Err,
            }
            &&& d == 17 ==> match spec_uint(b@, p) {
                Some((sl, end)) => r matches Ok(t) && t.1 == end && t.0
                    == ConwayUtxoPredFailure::OutsideForecast(SlotNo(sl)),
                None => r is Err,
            }
            &&& (r matches Ok(t) ==> utxo_variant_disc(t.0) == d)
        },
    decreases b@.len() - pos,
{
    let (d, p) = read_disc(b, pos, DecodeContext::ConwayUtxoPredFailure)?;
    if d == 0 {
        if depth == 0 {
            return Err(DecodeError::NestingTooDeep);
        }
        let (inner, q) = decode_utxo_failure_bounded(b, p, depth - 1)?;
        Ok((ConwayUtxoPredFailure::UtxosFailure(Box::new(inner)), q))
    } else if d == 1 {
        let (v, q) = decode_txin_list(b, p)?;
        Ok((ConwayUtxoPredFailure::BadInputsUTxO(v), q))
    } else if d == 2 {
        let (vi, p1) = decode_validity_interval(b, p)?;
        let (sl, q) = decode_slot(b, p1)?;
        Ok((ConwayUtxoPredFailure::OutsideValidityIntervalUTxO(vi, sl), q))
    } else if d == 3 {
        let (a, p1) = want_u64(b, p, DecodeContext::ConwayUtxoPredFailure)?;
        let (c, q) = want_u64(b, p1, DecodeContext::ConwayUtxoPredFailure)?;
        Ok((ConwayUtxoPredFailure::MaxTxSizeUTxO(a, c), q))
    } else if d == 4 {
        Ok((ConwayUtxoPredFailure::InputSetEmptyUTxO(), p))
    } else if d == 5 {
        let (a, p1) = decode_coin(b, p)?;
        let (c, q) = decode_coin(b, p1)?;
        Ok((ConwayUtxoPredFailure::FeeTooSmallUTxO(a, c), q))
    } else if d == 6 {
        let (a, p1) = decode_value_placeholder(b, p)?;
        let (c, q) = decode_value_placeholder(b, p1)?;
        Ok((ConwayUtxoPredFailure::ValueNotConservedUTxO(a, c), q))
    } else if d == 7 {
        let (net, p1) = decode_network(b, p)?;
        let (addrs, q) = decode_addr_list(b, p1)?;
        Ok((ConwayUtxoPredFailure::WrongNetwork(net, addrs), q))
    } else if d == 8 {
        let (net, p1) = decode_network(b, p)?;
        let (accs, q) = decode_reward_account_list(b, p1)?;
        Ok((ConwayUtxoPredFailure::WrongNetworkWithdrawal(net, accs), q))
    } else if d == 9 {
        let (outs, q) = decode_babbage_txout_list(b, p)?;
        Ok((ConwayUtxoPredFailure::OutputTooSmallUTxO(Array(outs)), q))
    } else if d == 10 {
        let (outs, q) = decode_stxout_list(b, p)?;
        Ok((ConwayUtxoPredFailure::OutputBootAddrAttrsTooBig(Array(outs)), q))
    } else if d == 11 {
        let (v, q) = decode_txout_triple_list(b, p)?;
        Ok((ConwayUtxoPredFailure::OutputTooBigUTxO(v), q))
    } else if d == 12 {
        let (a, p1) = decode_delta_coin(b, p)?;
        let (c, q) = decode_coin(b, p1)?;
        Ok((ConwayUtxoPredFailure::InsufficientCollateral(a, c), q))
    } else if d == 13 {
        let (pairs, q) = decode_utxo_pair_list(b, p)?;
        Ok((ConwayUtxoPredFailure::ScriptsNotPaidUTxO(Utxo(pairs)), q))
    } else if d == 14 {
        let (a, p1) = decode_exunits(b, p)?;
        let (c, q) = decode_exunits(b, p1)?;
        Ok(
            (
                ConwayUtxoPredFailure::ExUnitsTooBigUTxO(DisplayExUnits(a), DisplayExUnits(c)),
                q,
            ),
        )
    } else if d == 15 {
        let (v, q) = decode_value_placeholder(b, p)?;
        Ok((ConwayUtxoPredFailure::CollateralContainsNonADA(v), q))
    } else if d == 16 {
        let (a, p1) = decode_network(b, p)?;
        let (c, q) = decode_network(b, p1)?;
        Ok((ConwayUtxoPredFailure::WrongNetworkInTxBody(a, c), q))
    } else if d == 17 {
        let (sl, q) = decode_slot(b, p)?;
        Ok((ConwayUtxoPredFailure::OutsideForecast(sl), q))
    } else if d == 18 {
        let (a, p1) = want_u64(b, p, DecodeContext::ConwayUtxoPredFailure)?;
        let (c, q) = want_u64(b, p1, DecodeContext::ConwayUtxoPredFailure)?;
        Ok((ConwayUtxoPredFailure::TooManyCollateralInputs(a, c), q))
    } else if d == 19 {
        Ok((ConwayUtxoPredFailure::NoCollateralInputs(), p))
    } else if d == 20 {
        let (a, p1) = decode_coin(b, p)?;
        let (c, q) = decode_coin(b, p1)?;
        Ok((ConwayUtxoPredFailure::IncorrectTotalCollateralField(a, c), q))
    } else if d == 21 {
        let (v, q) = decode_txout_coin_list(b, p)?;
        Ok((ConwayUtxoPredFailure::BabbageOutputTooSmallUTxO(v), q))
    } else if d == 22 {
        let (v, q) = decode_txin_list(b, p)?;
        Ok((ConwayUtxoPredFailure::BabbageNonDisjointRefInputs(v), q))
    } else {
        Err(
            DecodeError::UnknownDiscriminant {
                context: DecodeContext::ConwayUtxoPredFailure,
                value: d,
            },
        )
    }
}

/// Reads one UTxO-rule failure, starting with the full depth budget.
pub fn decode_utxo_failure(b: &[u8], pos: usize) -> (r: Result<
    (ConwayUtxoPredFailure, usize),
    DecodeError,
>)
    ensures
        r matches Ok((_, p)) ==> pos < p <= b@.len(),
        disc_of(b@, pos as int) matches Some(d) ==> (known_discriminant(DecodeContext::ConwayUtxoPredFailure, d) || (r matches Err(e)
            && e == (DecodeError::UnknownDiscriminant { context: DecodeContext::ConwayUtxoPredFailure, value: d }))),
        r matches Ok(_) ==> (disc_of(b@, pos as int) matches Some(d) && known_discriminant(DecodeContext::ConwayUtxoPredFailure, d)),
        spec_disc(b@, pos as int) matches Some((d, p)) ==> {
            &&& d == 2 ==> match sparse_validity_interval(b@, p) {
                Some((vi, p1)) => match spec_uint(b@, p1) {
                    Some((sl, end)) => r matches Ok(t) && t.1 == end && t.0
                        == ConwayUtxoPredFailure::OutsideValidityIntervalUTxO(vi, SlotNo(sl)),
                    None => r is Err,
                },
                None => r is Err,
            }
            &&& (d == 3 || d == 18) ==> match spec_uint(b@, p) {
                Some((a, p1)) => match spec_uint(b@, p1) {
                    Some((c, end)) => r matches Ok(t) && t.1 == end && t.0 == (if d == 3 {
                        ConwayUtxoPredFailure::MaxTxSizeUTxO(a, c)
                    } else {
                        ConwayUtxoPredFailure::TooManyCollateralInputs(a, c)
                    }),
                    None => r is Err,
                },
                None => r is Err,
            }
            &&& d == 4 ==> (r matches Ok(t) && t.1 == p && t.0
                == ConwayUtxoPredFailure::InputSetEmptyUTxO())
            &&& d == 19 ==> (r matches Ok(t) && t.1 == p && t.0
                == ConwayUtxoPredFailure::NoCollateralInputs())
            &&& (d == 5 || d == 20) ==> match spec_uint(b@, p) {
                Some((a, p1)) => match spec_uint(b@, p1) {
                    Some((c, end)) => r matches Ok(t) && t.1 == end && t.0 == (if d == 5 {
                        ConwayUtxoPredFailure::FeeTooSmallUTxO(DisplayCoin(a), DisplayCoin(c))
                    } else {
                        ConwayUtxoPredFailure::IncorrectTotalCollateralField(
                            DisplayCoin(a),
                            DisplayCoin(c),
                        )
                    }),
                    None => r is Err,
                },
                None => r is Err,
            }
            &&& d == 12 ==> match spec_uint(b@, p) {
                Some((a, p1)) => match spec_uint(b@, p1) {
                    Some((c, end)) => r matches Ok(t) && t.1 == end && t.0
                        == ConwayUtxoPredFailure::InsufficientCollateral(
                        DeltaCoin(a),
                        DisplayCoin(c),
                    ),
                    None => r is Err,
                },
                None => r is Err,
            }
            &&& d == 14 ==> match sparse_exunits(b@, p) {
                Some((a, p1)) => match sparse_exunits(b@, p1) {
                    Some((c, end)) => r matches Ok(t) && t.1 == end && t.0
                        == ConwayUtxoPredFailure::ExUnitsTooBigUTxO(
                        DisplayExUnits(a),
                        DisplayExUnits(c),
                    ),
                    None => r is Err,
                },
                None => r is Err,
            }
            &&& d == 16 ==> match sparse_network(b@, p) {
                Some((a, p1)) => match sparse_network(b@, p1) {
                    Some((c, end)) => r matches Ok(t) && t.1 == end && t.0
                        == ConwayUtxoPredFailure::WrongNetworkInTxBody(a, c),
                    None => r is Err,
                },
                None => r is Err,
            }
            &&& d == 17 ==> match spec_uint(b@, p) {
                Some((sl, end)) => r matches Ok(t) && t.1 == end && t.0
                    == ConwayUtxoPredFailure::OutsideForecast(SlotNo(sl)),
                None => r is Err,
            }
            &&& (r matches Ok(t) ==> utxo_variant_disc(t.0) == d)
        },
{
    decode_utxo_failure_bounded(b, pos, MAX_NESTING_DEPTH)
}

/// Reads one witnessing failure.
pub fn decode_utxow_failure(b: &[u8], pos: usize) -> (r: Result<
    (ConwayUtxoWPredFailure, usize),
    DecodeError,
>)
    ensures
        r matches Ok((_, p)) ==> pos < p <= b@.len(),
        disc_of(b@, pos as int) matches Some(d) ==> (known_discriminant(DecodeContext::ConwayUtxoWPredFailure, d) || (r matches Err(e)
            && e == (DecodeError::UnknownDiscriminant { context: DecodeContext::ConwayUtxoWPredFailure, value: d }))),
        r matches Ok(_) ==> (disc_of(b@, pos as int) matches Some(d) && known_discriminant(DecodeContext::ConwayUtxoWPredFailure, d)),
        spec_disc(b@, pos as int) matches Some((d, p)) ==> {
            &&& (d == 5 || d == 6) ==> match spec_bytes(b@, p) {
                Some((h, end)) => r matches Ok(t) && t.1 == end && (match t.0 {
                    ConwayUtxoWPredFailure::MissingTxBodyMetadataHash(x) => d == 5 && x.0@ == h,
                    ConwayUtxoWPredFailure::MissingTxMetadata(x) => d == 6 && x.0@ == h,
                    _ => false,
                }),
                None => r is Err,
            }
            &&& d == 7 ==> match spec_bytes(b@, p) {
                Some((h1, p1)) => match spec_bytes(b@, p1) {
                    Some((h2, end)) => r matches Ok(t) && t.1 == end && (t.0 matches
                        ConwayUtxoWPredFailure::ConflictingMetadataHash(x, y) && x.0@ == h1 && y.0@
                        == h2),
                    None => r is Err,
                },
                None => r is Err,
            }
            &&& d == 8 ==> r == Ok::<_, DecodeError>(
                (ConwayUtxoWPredFailure::InvalidMetadata(), p as usize),
            )
            &&& d == 13 ==> match sparse_maybe_bytes(b@, p) {
                Some((o1, p1)) => match sparse_maybe_bytes(b@, p1) {
                    Some((o2, end)) => r matches Ok(t) && t.1 == end && (t.0 matches
                        ConwayUtxoWPredFailure::PPViewHashesDontMatch(m1, m2) && maybe_safehash_is(
                        m1,
                        o1,
                    ) && maybe_safehash_is(m2, o2)),
                    None => r is Err,
                },
                None => r is Err,
            }
            &&& (r matches Ok(t) ==> utxow_variant_disc(t.0) == d)
        },
{
    let (d, p) = read_disc(b, pos, DecodeContext::ConwayUtxoWPredFailure)?;
    if d == 0 {
        let (inner, q) = decode_utxo_failure(b, p)?;
        Ok((ConwayUtxoWPredFailure::UtxoFailure(inner), q))
    } else if d == 1 {
        let (v, q) = decode_vkey_list(b, p)?;
        Ok((ConwayUtxoWPredFailure::InvalidWitnessesUTXOW(Array(v)), q))
    } else if d == 2 {
        let (v, q) = decode_set_keyhash(b, p)?;
        Ok((ConwayUtxoWPredFailure::MissingVKeyWitnessesUTXOW(v), q))
    } else if d == 3 {
        let (v, q) = decode_set_scripthash(b, p)?;
        Ok((ConwayUtxoWPredFailure::MissingScriptWitnessesUTXOW(v), q))
    } else if d == 4 {
        let (v, q) = decode_set_scripthash(b, p)?;
        Ok((ConwayUtxoWPredFailure::ScriptWitnessNotValidatingUTXOW(v), q))
    } else if d == 5 {
        let (v, q) = decode_bytes_value(b, p)?;
        Ok((ConwayUtxoWPredFailure::MissingTxBodyMetadataHash(v), q))
    } else if d == 6 {
        let (v, q) = decode_bytes_value(b, p)?;
        Ok((ConwayUtxoWPredFailure::MissingTxMetadata(v), q))
    } else if d == 7 {
        let (a, p1) = decode_bytes_value(b, p)?;
        let (c, q) = decode_bytes_value(b, p1)?;
        Ok((ConwayUtxoWPredFailure::ConflictingMetadataHash(a, c), q))
    } else if d == 8 {
        Ok((ConwayUtxoWPredFailure::InvalidMetadata(), p))
    } else if d == 9 {
        let (v, q) = decode_set_scripthash(b, p)?;
        Ok((ConwayUtxoWPredFailure::ExtraneousScriptWitnessesUTXOW(v), q))
    } else if d == 10 {
        let (v, q) = decode_purpose_script_list(b, p)?;
        Ok((ConwayUtxoWPredFailure::MissingRedeemers(Array(v)), q))
    } else if d == 11 {
        let (a, p1) = decode_datumhash_list(b, p)?;
        let (c, q) = decode_datumhash_list(b, p1)?;
        Ok((ConwayUtxoWPredFailure::MissingRequiredDatums(a, c), q))
    } else if d == 12 {
        let (a, p1) = decode_set_safehash(b, p)?;
        let (c, q) = decode_set_safehash(b, p1)?;
        Ok((ConwayUtxoWPredFailure::NotAllowedSupplementalDatums(a, c), q))
    } else if d == 13 {
        let (a, p1) = decode_maybe_safehash(b, p)?;
        let (c, q) = decode_maybe_safehash(b, p1)?;
        Ok((ConwayUtxoWPredFailure::PPViewHashesDontMatch(a, c), q))
    } else if d == 14 {
        let (v, q) = decode_set_txin(b, p)?;
        Ok((ConwayUtxoWPredFailure::UnspendableUTxONoDatumHash(v), q))
    } else if d == 15 {
        let (v, q) = decode_plutus_purpose_list(b, p)?;
        Ok((ConwayUtxoWPredFailure::ExtraRedeemers(Array(v)), q))
    } else if d == 16 {
        let (v, q) = decode_set_scripthash(b, p)?;
        Ok((ConwayUtxoWPredFailure::MalformedScriptWitnesses(v), q))
    } else if d == 17 {
        let (v, q) = decode_set_scripthash(b, p)?;
        Ok((ConwayUtxoWPredFailure::MalformedReferenceScripts(v), q))
    } else {
        Err(
            DecodeError::UnknownDiscriminant {
                context: DecodeContext::ConwayUtxoWPredFailure,
                value: d,
            },
        )
    }
}

/// Reads one governance failure.
#[verifier::rlimit(100)]
pub fn decode_gov_failure(b: &[u8], pos: usize) -> (r: Result<
    (ConwayGovPredFailure, usize),
    DecodeError,
>)
    ensures
        r matches Ok((_, p)) ==> pos < p <= b@.len(),
        disc_of(b@, pos as int) matches Some(d) ==> (known_discriminant(DecodeContext::ConwayGovPredFailure, d) || (r matches Err(e)
            && e == (DecodeError::UnknownDiscriminant { context: DecodeContext::ConwayGovPredFailure, value: d }))),
        r matches Ok(_) ==> (disc_of(b@, pos as int) matches Some(d) && known_discriminant(DecodeContext::ConwayGovPredFailure, d)),
        spec_disc(b@, pos as int) matches Some((d, p)) ==> {
            &&& d == 2 ==> match spec_bytes(b@, p) {
                Some((raw, p1)) => if raw.len() >= 29 {
                    match sparse_network(b@, p1) {
                        Some((net, end)) => r matches Ok(t) && t.1 == end && (t.0 matches
                            ConwayGovPredFailure::ProposalProcedureNetworkIdMismatch(ra, n)
                            && ra.ra_network == spec_account_network(raw) && credential_matches(
                            ra.ra_credential,
                            raw,
                        ) && n == net),
                        None => r is Err,
                    }
                } else {
                    r is Err
                },
                None => r is Err,
            }
            &&& d == 4 ==> match spec_uint(b@, p) {
                Some((a, p1)) => match spec_uint(b@, p1) {
                    Some((c, end)) => r == Ok::<_, DecodeError>(
                        (
                            ConwayGovPredFailure::ProposalDepositIncorrect(
                                DisplayCoin(a),
                                DisplayCoin(c),
                            ),
                            end as usize,
                        ),
                    ),
                    None => r is Err,
                },
                None => r is Err,
            }
            &&& d == 11 ==> match sparse_maybe_bytes(b@, p) {
                Some((o1, p1)) => match sparse_maybe_bytes(b@, p1) {
                    Some((o2, end)) => r matches Ok(t) && t.1 == end && (t.0 matches
                        ConwayGovPredFailure::InvalidPolicyHash(m1, m2) && maybe_scripthash_is(
                        m1,
                        o1,
                    ) && maybe_scripthash_is(m2, o2)),
                    None => r is Err,
                },
                None => r is Err,
            }
            &&& d == 16 ==> match spec_bytes(b@, p) {
                Some((raw, end)) => if raw.len() >= 29 {
                    r matches Ok(t) && t.1 == end && (t.0 matches
                        ConwayGovPredFailure::ProposalReturnAccountDoesNotExist(ra)
                        && ra.ra_network == spec_account_network(raw) && credential_matches(
                        ra.ra_credential,
                        raw,
                    ))
                } else {
                    r is Err
                },
                None => r is Err,
            }
            &&& (r matches Ok(t) ==> gov_variant_disc(t.0) == d)
        },
{
    let (d, p) = read_disc(b, pos, DecodeContext::ConwayGovPredFailure)?;
    if d == 0 {
        let (v, q) = decode_gov_action_id_list(b, p)?;
        Ok((ConwayGovPredFailure::GovActionsDoNotExist(v), q))
    } else if d == 1 {
        let (v, q) = decode_gov_action(b, p)?;
        Ok((ConwayGovPredFailure::MalformedProposal(v), q))
    } else if d == 2 {
        let (ra, p1) = decode_reward_account(b, p)?;
        let (net, q) = decode_network(b, p1)?;
        Ok((ConwayGovPredFailure::ProposalProcedureNetworkIdMismatch(ra, net), q))
    } else if d == 3 {
        let (set, p1) = decode_set_reward_account(b, p)?;
        let (net, q) = decode_network(b, p1)?;
        Ok((ConwayGovPredFailure::TreasuryWithdrawalsNetworkIdMismatch(set, net), q))
    } else if d == 4 {
        let (a, p1) = decode_coin(b, p)?;
        let (c, q) = decode_coin(b, p1)?;
        Ok((ConwayGovPredFailure::ProposalDepositIncorrect(a, c), q))
    } else if d == 5 {
        let (v, q) = decode_voter_gaid_list(b, p)?;
        Ok((ConwayGovPredFailure::DisallowedVoters(v), q))
    } else if d == 6 {
        let (v, q) = decode_set_credential(b, p)?;
        Ok((ConwayGovPredFailure::ConflictingCommitteeUpdate(v), q))
    } else if d == 7 {
        let (v, q) = decode_expiration_map(b, p)?;
        Ok((ConwayGovPredFailure::ExpirationEpochTooSmall(v), q))
    } else if d == 8 {
        let (v, q) = decode_proposal_procedure(b, p)?;
        Ok((ConwayGovPredFailure::InvalidPrevGovActionId(v), q))
    } else if d == 9 {
        let (v, q) = decode_voter_gaid_list(b, p)?;
        Ok((ConwayGovPredFailure::VotingOnExpiredGovAction(v), q))
    } else if d == 10 {
        let (a, p1) = decode_maybe_gov_action_id(b, p)?;
        let (v1, p2) = decode_protocol_version(b, p1)?;
        let (v2, q) = decode_protocol_version(b, p2)?;
        Ok((ConwayGovPredFailure::ProposalCantFollow(a, v1, v2), q))
    } else if d == 11 {
        let (a, p1) = decode_maybe_display_scripthash(b, p)?;
        let (c, q) = decode_maybe_display_scripthash(b, p1)?;
        Ok((ConwayGovPredFailure::InvalidPolicyHash(a, c), q))
    } else if d == 12 {
        let (v, q) = decode_proposal_procedure(b, p)?;
        Ok((ConwayGovPredFailure::DisallowedProposalDuringBootstrap(v), q))
    } else if d == 13 {
        let (v, q) = decode_voter_gaid_list(b, p)?;
        Ok((ConwayGovPredFailure::DisallowedVotesDuringBootstrap(v), q))
    } else if d == 14 {
        let (v, q) = decode_voter_list(b, p)?;
        Ok((ConwayGovPredFailure::VotersDoNotExist(v), q))
    } else if d == 15 {
        let (v, q) = decode_gov_action(b, p)?;
        Ok((ConwayGovPredFailure::ZeroTreasuryWithdrawals(v), q))
    } else if d == 16 {
        let (v, q) = decode_reward_account(b, p)?;
        Ok((ConwayGovPredFailure::ProposalReturnAccountDoesNotExist(v), q))
    } else if d == 17 {
        let (v, q) = decode_reward_account_list(b, p)?;
        Ok((ConwayGovPredFailure::TreasuryWithdrawalReturnAccountsDoNotExist(v), q))
    } else {
        Err(
            DecodeError::UnknownDiscriminant {
                context: DecodeContext::ConwayGovPredFailure,
                value: d,
            },
        )
    }
}


/// Where a delegation failure ends, when the wire parses in this
/// context; `None` exactly when decoding fails.
pub open spec fn sp_deleg_failure(b: Seq<u8>, pos: int) -> Option<int> {
    match spec_disc(b, pos) {
        Some((d, p)) => if d == 1 || d == 4 {
            match spec_uint(b, p) {
                Some((_c, end)) => Some(end),
                None => None,
            }
        } else if d == 2 || d == 3 || d == 5 {
            match sparse_credential(b, p) {
                Some((_k, _h, end)) => Some(end),
                None => None,
            }
        } else if d == 6 {
            match spec_bytes(b, p) {
                Some((_h, end)) => Some(end),
                None => None,
            }
        } else {
            None
        },
        None => None,
    }
}

/// Where a governance-certificate failure ends, when the wire parses.
pub open spec fn sp_gov_cert_failure(b: Seq<u8>, pos: int) -> Option<int> {
    match spec_disc(b, pos) {
        Some((d, p)) => if d == 0 || d == 1 || d == 3 || d == 5 {
            match sparse_credential(b, p) {
                Some((_k, _h, end)) => Some(end),
                None => None,
            }
        } else if d == 2 || d == 4 {
            match spec_uint(b, p) {
                Some((_a, p1)) => match spec_uint(b, p1) {
                    Some((_c, end)) => Some(end),
                    None => None,
                },
                None => None,
            }
        } else {
            None
        },
        None => None,
    }
}

/// Where a stake-pool failure ends, when the wire parses.
pub open spec fn sp_pool_failure(b: Seq<u8>, pos: int) -> Option<int> {
    match spec_disc(b, pos) {
        Some((d, p)) => if d == 0 {
            match spec_bytes(b, p) {
                Some((_h, end)) => Some(end),
                None => None,
            }
        } else if d == 1 {
            match spec_uint(b, p) {
                Some((_a, p1)) => match spec_uint(b, p1) {
                    Some((_c, p2)) => match spec_uint(b, p2) {
                        Some((_e, end)) => Some(end),
                        None => None,
                    },
                    None => None,
                },
                None => None,
            }
        } else if d == 3 {
            match spec_uint(b, p) {
                Some((_a, p1)) => match spec_uint(b, p1) {
                    Some((_c, end)) => Some(end),
                    None => None,
                },
                None => None,
            }
        } else if d == 4 {
            match sparse_network(b, p) {
                Some((_x, p1)) => match sparse_network(b, p1) {
                    Some((_y, p2)) => match spec_bytes(b, p2) {
                        Some((_h, end)) => Some(end),
                        None => None,
                    },
                    None => None,
                },
                None => None,
            }
        } else if d == 5 {
            match spec_bytes(b, p) {
                Some((_h, p1)) => match spec_uint(b, p1) {
                    Some((_n, end)) => Some(end),
                    None => None,
                },
                None => None,
            }
        } else {
            None
        },
        None => None,
    }
}

/// Where a certificate failure ends, when the wire parses.
pub open spec fn sp_cert_failure(b: Seq<u8>, pos: int) -> Option<int> {
    match spec_disc(b, pos) {
        Some((d, p)) => if d == 1 {
            sp_deleg_failure(b, p)
        } else if d == 2 {
            sp_pool_failure(b, p)
        } else if d == 3 {
            sp_gov_cert_failure(b, p)
        } else {
            None
        },
        None => None,
    }
}

/// Reads one delegation failure.  Every published discriminant owes
/// success when its fields parse, and the decoded variant and fields are
/// pinned to the wire.
pub fn decode_deleg_failure(b: &[u8], pos: usize) -> (r: Result<
    (ConwayDelegPredFailure, usize),
    DecodeError,
>)
    ensures
        r matches Ok((_, p)) ==> pos < p <= b@.len(),
        disc_of(b@, pos as int) matches Some(d) ==> (known_discriminant(DecodeContext::ConwayDelegPredFailure, d) || (r matches Err(e)
            && e == (DecodeError::UnknownDiscriminant { context: DecodeContext::ConwayDelegPredFailure, value: d }))),
        r matches Ok(_) ==> (disc_of(b@, pos as int) matches Some(d) && known_discriminant(DecodeContext::ConwayDelegPredFailure, d)),
        match sp_deleg_failure(b@, pos as int) {
            Some(end) => r matches Ok(t) && t.1 == end,
            None => r is Err,
        },
        spec_disc(b@, pos as int) matches Some((d, p)) ==> {
            &&& (d == 1 || d == 4) ==> match spec_uint(b@, p) {
                Some((c, end)) => r == Ok::<_, DecodeError>(
                    (
                        if d == 1 {
                            ConwayDelegPredFailure::IncorrectDepositDELEG(DisplayCoin(c))
                        } else {
                            ConwayDelegPredFailure::StakeKeyHasNonZeroRewardAccountBalanceDELEG(
                                DisplayCoin(c),
                            )
                        },
                        end as usize,
                    ),
                ),
                None => r is Err,
            }
            &&& (d == 2 || d == 3 || d == 5) ==> match sparse_credential(b@, p) {
                Some((k, h, end)) => r matches Ok(t) && t.1 == end && (match t.0 {
                    ConwayDelegPredFailure::StakeKeyRegisteredDELEG(c) => d == 2 && credential_is(
                        c,
                        k,
                        h,
                    ),
                    ConwayDelegPredFailure::StakeKeyNotRegisteredDELEG(c) => d == 3
                        && credential_is(c, k, h),
                    ConwayDelegPredFailure::DelegateeDRepNotRegisteredDELEG(c) => d == 5
                        && credential_is(c, k, h),
                    _ => false,
                }),
                None => r is Err,
            }
            &&& d == 6 ==> match spec_bytes(b@, p) {
                Some((h, end)) => r matches Ok(t) && t.1 == end && (t.0 matches
                    ConwayDelegPredFailure::DelegateeStakePoolNotRegisteredDELEG(kh) && kh.0@ == h),
                None => r is Err,
            }
        },
{
    let (d, p) = read_disc(b, pos, DecodeContext::ConwayDelegPredFailure)?;
    if d == 1 {
        let (c, q) = decode_coin(b, p)?;
        Ok((ConwayDelegPredFailure::IncorrectDepositDELEG(c), q))
    } else if d == 2 {
        let (c, q) = decode_credential(b, p)?;
        Ok((ConwayDelegPredFailure::StakeKeyRegisteredDELEG(c), q))
    } else if d == 3 {
        let (c, q) = decode_credential(b, p)?;
        Ok((ConwayDelegPredFailure::StakeKeyNotRegisteredDELEG(c), q))
    } else if d == 4 {
        let (c, q) = decode_coin(b, p)?;
        Ok((ConwayDelegPredFailure::StakeKeyHasNonZeroRewardAccountBalanceDELEG(c), q))
    } else if d == 5 {
        let (c, q) = decode_credential(b, p)?;
        Ok((ConwayDelegPredFailure::DelegateeDRepNotRegisteredDELEG(c), q))
    } else if d == 6 {
        let (h, q) = decode_keyhash(b, p)?;
        Ok((ConwayDelegPredFailure::DelegateeStakePoolNotRegisteredDELEG(h), q))
    } else {
        Err(
            DecodeError::UnknownDiscriminant {
                context: DecodeContext::ConwayDelegPredFailure,
                value: d,
            },
        )
    }
}

/// Reads one governance-certificate failure.  Every published
/// discriminant owes success when its fields parse, and the decoded
/// variant and fields are pinned to the wire.
pub fn decode_gov_cert_failure(b: &[u8], pos: usize) -> (r: Result<
    (ConwayGovCertPredFailure, usize),
    DecodeError,
>)
    ensures
        r matches Ok((_, p)) ==> pos < p <= b@.len(),
        disc_of(b@, pos as int) matches Some(d) ==> (known_discriminant(DecodeContext::ConwayGovCertPredFailure, d) || (r matches Err(e)
            && e == (DecodeError::UnknownDiscriminant { context: DecodeContext::ConwayGovCertPredFailure, value: d }))),
        r matches Ok(_) ==> (disc_of(b@, pos as int) matches Some(d) && known_discriminant(DecodeContext::ConwayGovCertPredFailure, d)),
        match sp_gov_cert_failure(b@, pos as int) {
            Some(end) => r matches Ok(t) && t.1 == end,
            None => r is Err,
        },
        spec_disc(b@, pos as int) matches Some((d, p)) ==> {
            &&& (d == 0 || d == 1 || d == 3 || d == 5) ==> match sparse_credential(b@, p) {
                Some((k, h, end)) => r matches Ok(t) && t.1 == end && (match t.0 {
                    ConwayGovCertPredFailure::ConwayDRepAlreadyRegistered(c) => d == 0
                        && credential_is(c, k, h),
                    ConwayGovCertPredFailure::ConwayDRepNotRegistered(c) => d == 1
                        && credential_is(c, k, h),
                    ConwayGovCertPredFailure::ConwayCommitteeHasPreviouslyResigned(c) => d == 3
                        && credential_is(c, k, h),
                    ConwayGovCertPredFailure::ConwayCommitteeIsUnknown(c) => d == 5
                        && credential_is(c, k, h),
                    _ => false,
                }),
                None => r is Err,
            }
            &&& (d == 2 || d == 4) ==> match spec_uint(b@, p) {
                Some((a, p1)) => match spec_uint(b@, p1) {
                    Some((c, end)) => r == Ok::<_, DecodeError>(
                        (
                            if d == 2 {
                                ConwayGovCertPredFailure::ConwayDRepIncorrectDeposit(
                                    DisplayCoin(a),
                                    DisplayCoin(c),
                                )
                            } else {
                                ConwayGovCertPredFailure::ConwayDRepIncorrectRefund(
                                    DisplayCoin(a),
                                    DisplayCoin(c),
                                )
                            },
                            end as usize,
                        ),
                    ),
                    None => r is Err,
                },
                None => r is Err,
            }
        },
{
    let (d, p) = read_disc(b, pos, DecodeContext::ConwayGovCertPredFailure)?;
    if d == 0 {
        let (c, q) = decode_credential(b, p)?;
        Ok((ConwayGovCertPredFailure::ConwayDRepAlreadyRegistered(c), q))
    } else if d == 1 {
        let (c, q) = decode_credential(b, p)?;
        Ok((ConwayGovCertPredFailure::ConwayDRepNotRegistered(c), q))
    } else if d == 2 {
        let (a, p1) = decode_coin(b, p)?;
        let (c, q) = decode_coin(b, p1)?;
        Ok((ConwayGovCertPredFailure::ConwayDRepIncorrectDeposit(a, c), q))
    } else if d == 3 {
        let (c, q) = decode_credential(b, p)?;
        Ok((ConwayGovCertPredFailure::ConwayCommitteeHasPreviouslyResigned(c), q))
    } else if d == 4 {
        let (a, p1) = decode_coin(b, p)?;
        let (c, q) = decode_coin(b, p1)?;
        Ok((ConwayGovCertPredFailure::ConwayDRepIncorrectRefund(a, c), q))
    } else if d == 5 {
        let (c, q) = decode_credential(b, p)?;
        Ok((ConwayGovCertPredFailure::ConwayCommitteeIsUnknown(c), q))
    } else {
        Err(
            DecodeError::UnknownDiscriminant {
                context: DecodeContext::ConwayGovCertPredFailure,
                value: d,
            },
        )
    }
}

/// Reads one stake-pool failure.  Every published discriminant owes
/// success when its fields parse, and the decoded variant and fields are
/// pinned to the wire.
pub fn decode_pool_failure(b: &[u8], pos: usize) -> (r: Result<
    (ShelleyPoolPredFailure, usize),
    DecodeError,
>)
    ensures
        r matches Ok((_, p)) ==> pos < p <= b@.len(),
        disc_of(b@, pos as int) matches Some(d) ==> (known_discriminant(DecodeContext::ShelleyPoolPredFailure, d) || (r matches Err(e)
            && e == (DecodeError::UnknownDiscriminant { context: DecodeContext::ShelleyPoolPredFailure, value: d }))),
        r matches Ok(_) ==> (disc_of(b@, pos as int) matches Some(d) && known_discriminant(DecodeContext::ShelleyPoolPredFailure, d)),
        match sp_pool_failure(b@, pos as int) {
            Some(end) => r matches Ok(t) && t.1 == end,
            None => r is Err,
        },
        spec_disc(b@, pos as int) matches Some((d, p)) ==> {
            &&& d == 0 ==> match spec_bytes(b@, p) {
                Some((h, end)) => r matches Ok(t) && t.1 == end && (t.0 matches
                    ShelleyPoolPredFailure::StakePoolNotRegisteredOnKeyPOOL(kh) && kh.0@ == h),
                None => r is Err,
            }
            &&& d == 1 ==> match spec_uint(b@, p) {
                Some((gt_expected, p1)) => match spec_uint(b@, p1) {
                    Some((supplied, p2)) => match spec_uint(b@, p2) {
                        Some((lt_expected, end)) => r == Ok::<_, DecodeError>(
                            (
                                ShelleyPoolPredFailure::StakePoolRetirementWrongEpochPOOL(
                                    Mismatch(EpochNo(supplied), EpochNo(gt_expected)),
                                    Mismatch(EpochNo(supplied), EpochNo(lt_expected)),
                                ),
                                end as usize,
                            ),
                        ),
                        None => r is Err,
                    },
                    None => r is Err,
                },
                None => r is Err,
            }
            &&& d == 3 ==> match spec_uint(b@, p) {
                Some((a, p1)) => match spec_uint(b@, p1) {
                    Some((c, end)) => r == Ok::<_, DecodeError>(
                        (
                            ShelleyPoolPredFailure::StakePoolCostTooLowPOOL(
                                Mismatch(DisplayCoin(a), DisplayCoin(c)),
                            ),
                            end as usize,
                        ),
                    ),
                    None => r is Err,
                },
                None => r is Err,
            }
            &&& d == 4 ==> match sparse_network(b@, p) {
                Some((expected, p1)) => match sparse_network(b@, p1) {
                    Some((supplied, p2)) => match spec_bytes(b@, p2) {
                        Some((h, end)) => r matches Ok(t) && t.1 == end && (t.0 matches
                            ShelleyPoolPredFailure::WrongNetworkPOOL(m, kh) && m == Mismatch(
                            supplied,
                            expected,
                        ) && kh.0@ == h),
                        None => r is Err,
                    },
                    None => r is Err,
                },
                None => r is Err,
            }
            &&& d == 5 ==> match spec_bytes(b@, p) {
                Some((h, p1)) => match spec_uint(b@, p1) {
                    Some((size, end)) => r matches Ok(t) && t.1 == end && (t.0 matches
                        ShelleyPoolPredFailure::PoolMedataHashTooBig(kh, sz) && kh.0@ == h && sz
                        == size),
                    None => r is Err,
                },
                None => r is Err,
            }
        },
{
    let (d, p) = read_disc(b, pos, DecodeContext::ShelleyPoolPredFailure)?;
    if d == 0 {
        let (h, q) = decode_keyhash(b, p)?;
        Ok((ShelleyPoolPredFailure::StakePoolNotRegisteredOnKeyPOOL(h), q))
    } else if d == 1 {
        let (gt_expected, p1) = decode_epoch(b, p)?;
        let (lt_supplied, p2) = decode_epoch(b, p1)?;
        let (lt_expected, q) = decode_epoch(b, p2)?;
        let supplied_again = EpochNo(lt_supplied.0);
        Ok(
            (
                ShelleyPoolPredFailure::StakePoolRetirementWrongEpochPOOL(
                    Mismatch(lt_supplied, gt_expected),
                    Mismatch(supplied_again, lt_expected),
                ),
                q,
            ),
        )
    } else if d == 3 {
        let (a, p1) = decode_coin(b, p)?;
        let (c, q) = decode_coin(b, p1)?;
        Ok((ShelleyPoolPredFailure::StakePoolCostTooLowPOOL(Mismatch(a, c)), q))
    } else if d == 4 {
        let (expected, p1) = decode_network(b, p)?;
        let (supplied, p2) = decode_network(b, p1)?;
        let (h, q) = decode_keyhash(b, p2)?;
        Ok((ShelleyPoolPredFailure::WrongNetworkPOOL(Mismatch(supplied, expected), h), q))
    } else if d == 5 {
        let (h, p1) = decode_keyhash(b, p)?;
        let (size, q) = want_u64(b, p1, DecodeContext::ShelleyPoolPredFailure)?;
        Ok((ShelleyPoolPredFailure::PoolMedataHashTooBig(h, size), q))
    } else {
        Err(
            DecodeError::UnknownDiscriminant {
                context: DecodeContext::ShelleyPoolPredFailure,
                value: d,
            },
        )
    }
}

/// Reads one certificate failure.
pub fn decode_cert_failure(b: &[u8], pos: usize) -> (r: Result<
    (ConwayCertPredFailure, usize),
    DecodeError,
>)
    ensures
        r matches Ok((_, p)) ==> pos < p <= b@.len(),
        disc_of(b@, pos as int) matches Some(d) ==> (known_discriminant(DecodeContext::ConwayCertPredFailure, d) || (r matches Err(e)
            && e == (DecodeError::UnknownDiscriminant { context: DecodeContext::ConwayCertPredFailure, value: d }))),
        r matches Ok(_) ==> (disc_of(b@, pos as int) matches Some(d) && known_discriminant(DecodeContext::ConwayCertPredFailure, d)),
        match sp_cert_failure(b@, pos as int) {
            Some(end) => r matches Ok(t) && t.1 == end,
            None => r is Err,
        },
        spec_disc(b@, pos as int) matches Some((d, p)) ==> (r matches Ok(t) ==> match t.0 {
            ConwayCertPredFailure::DelegFailure(_) => d == 1,
            ConwayCertPredFailure::PoolFailure(_) => d == 2,
            ConwayCertPredFailure::GovCertFailure(_) => d == 3,
        }),
{
    let (d, p) = read_disc(b, pos, DecodeContext::ConwayCertPredFailure)?;
    if d == 1 {
        let (v, q) = decode_deleg_failure(b, p)?;
        Ok((ConwayCertPredFailure::DelegFailure(v), q))
    } else if d == 2 {
        let (v, q) = decode_pool_failure(b, p)?;
        Ok((ConwayCertPredFailure::PoolFailure(v), q))
    } else if d == 3 {
        let (v, q) = decode_gov_cert_failure(b, p)?;
        Ok((ConwayCertPredFailure::GovCertFailure(v), q))
    } else {
        Err(
            DecodeError::UnknownDiscriminant {
                context: DecodeContext::ConwayCertPredFailure,
                value: d,
            },
        )
    }
}

/// Reads one certificates-group failure.
pub fn decode_certs_failure(b: &[u8], pos: usize) -> (r: Result<
    (ConwayCertsPredFailure, usize),
    DecodeError,
>)
    ensures
        r matches Ok((_, p)) ==> pos < p <= b@.len(),
        disc_of(b@, pos as int) matches Some(d) ==> (known_discriminant(DecodeContext::ConwayCertsPredFailure, d) || (r matches Err(e)
            && e == (DecodeError::UnknownDiscriminant { context: DecodeContext::ConwayCertsPredFailure, value: d }))),
        r matches Ok(_) ==> (disc_of(b@, pos as int) matches Some(d) && known_discriminant(DecodeContext::ConwayCertsPredFailure, d)),
        spec_disc(b@, pos as int) matches Some((d, p)) ==> {
            &&& d == 1 ==> match sp_cert_failure(b@, p) {
                Some(end) => r matches Ok(t) && t.1 == end && t.0 is CertFailure,
                None => r is Err,
            }
            &&& (r matches Ok(t) ==> match t.0 {
                ConwayCertsPredFailure::WithdrawalsNotInRewardsCERTS(_) => d == 0,
                ConwayCertsPredFailure::CertFailure(_) => d == 1,
            })
        },
{
    let (d, p) = read_disc(b, pos, DecodeContext::ConwayCertsPredFailure)?;
    if d == 0 {
        let (m, q) = decode_withdrawal_map(b, p)?;
        Ok((ConwayCertsPredFailure::WithdrawalsNotInRewardsCERTS(m), q))
    } else if d == 1 {
        let (v, q) = decode_cert_failure(b, p)?;
        Ok((ConwayCertsPredFailure::CertFailure(v), q))
    } else {
        Err(
            DecodeError::UnknownDiscriminant {
                context: DecodeContext::ConwayCertsPredFailure,
                value: d,
            },
        )
    }
}


/// What one application failure's wire form pins, one level deep: the
/// variant is the published discriminant's, the leaf variants carry the
/// decoded fields, and the nested families advance the cursor; their own
/// decoders pin their content.
pub open spec fn apply_error_sound(
    b: Seq<u8>,
    pos: int,
    e: ApplyConwayTxPredError,
    end: int,
) -> bool {
    match spec_disc(b, pos) {
        Some((d, p)) => apply_variant_disc(e) == d && match e {
            ApplyConwayTxPredError::ConwayTreasuryValueMismatch(a, c) => match spec_uint(b, p) {
                Some((x, p1)) => a == DisplayCoin(x) && match spec_uint(b, p1) {
                    Some((y, p2)) => c == DisplayCoin(y) && end == p2,
                    None => false,
                },
                None => false,
            },
            ApplyConwayTxPredError::ConwayTxRefScriptsSizeTooBig(x, y) => match spec_i8_at(b, p) {
                Some((a, p1)) => x == a && match spec_i8_at(b, p1) {
                    Some((c, p2)) => y == c && end == p2,
                    None => false,
                },
                None => false,
            },
            ApplyConwayTxPredError::ConwayMempoolFailure(m) => match spec_text(b, p) {
                Some((raw, p1)) => vstd::utf8::valid_utf8(raw) && m@ == vstd::utf8::decode_utf8(
                    raw,
                ) && end == p1,
                None => false,
            },
            _ => pos < end,
        },
        None => false,
    }
}

/// Reads one transaction-application failure.  The leaf variants are
/// pinned exactly: a treasury mismatch is the two coin amounts on the
/// wire, a size overrun the two signed sizes, a mempool failure the
/// decoded text.
pub fn decode_apply_error(b: &[u8], pos: usize) -> (r: Result<
    (ApplyConwayTxPredError, usize),
    DecodeError,
>)
    ensures
        r matches Ok((_, p)) ==> pos < p <= b@.len(),
        disc_of(b@, pos as int) matches Some(d) ==> (known_discriminant(DecodeContext::ApplyTxPredError, d) || (r matches Err(e)
            && e == (DecodeError::UnknownDiscriminant { context: DecodeContext::ApplyTxPredError, value: d }))),
        r matches Ok(_) ==> (disc_of(b@, pos as int) matches Some(d) && known_discriminant(DecodeContext::ApplyTxPredError, d)),
        spec_disc(b@, pos as int) matches Some((_d, _p)) ==> (r matches Ok(t)
            ==> apply_variant_disc(t.0) == _d),
        r matches Ok(t) ==> apply_error_sound(b@, pos as int, t.0, t.1 as int),
        spec_disc(b@, pos as int) matches Some((d, p)) ==> {
            &&& d == 5 ==> match spec_uint(b@, p) {
                Some((a, p1)) => match spec_uint(b@, p1) {
                    Some((c, p2)) => r == Ok::<_, DecodeError>(
                        (
                            ApplyConwayTxPredError::ConwayTreasuryValueMismatch(
                                DisplayCoin(a),
                                DisplayCoin(c),
                            ),
                            p2 as usize,
                        ),
                    ),
                    None => r is Err,
                },
                None => r is Err,
            }
            &&& d == 6 ==> match spec_i8_at(b@, p) {
                Some((a, p1)) => match spec_i8_at(b@, p1) {
                    Some((c, p2)) => r == Ok::<_, DecodeError>(
                        (ApplyConwayTxPredError::ConwayTxRefScriptsSizeTooBig(a, c), p2 as usize),
                    ),
                    None => r is Err,
                },
                None => r is Err,
            }
            &&& d == 7 ==> match spec_text(b@, p) {
                Some((raw, p1)) => if vstd::utf8::valid_utf8(raw) {
                    r matches Ok((v, q)) && q == p1 && (v matches
                        ApplyConwayTxPredError::ConwayMempoolFailure(msg) && msg@
                        == vstd::utf8::decode_utf8(raw))
                } else {
                    r is Err
                },
                None => r is Err,
            }
        },
{
    let (d, p) = read_disc(b, pos, DecodeContext::ApplyTxPredError)?;
    if d == 1 {
        let (v, q) = decode_utxow_failure(b, p)?;
        Ok((ApplyConwayTxPredError::ConwayUtxowFailure(v), q))
    } else if d == 2 {
        let (v, q) = decode_certs_failure(b, p)?;
        Ok((ApplyConwayTxPredError::ConwayCertsFailure(v), q))
    } else if d == 3 {
        let (v, q) = decode_gov_failure(b, p)?;
        Ok((ApplyConwayTxPredError::ConwayGovFailure(v), q))
    } else if d == 4 {
        let (v, q) = decode_keyhash_list(b, p)?;
        Ok((ApplyConwayTxPredError::ConwayWdrlNotDelegatedToDRep(v), q))
    } else if d == 5 {
        let (a, p1) = decode_coin(b, p)?;
        let (c, q) = decode_coin(b, p1)?;
        Ok((ApplyConwayTxPredError::ConwayTreasuryValueMismatch(a, c), q))
    } else if d == 6 {
        let (a, p1) = want_i8(b, p, DecodeContext::ApplyTxPredError)?;
        let (c, q) = want_i8(b, p1, DecodeContext::ApplyTxPredError)?;
        Ok((ApplyConwayTxPredError::ConwayTxRefScriptsSizeTooBig(a, c), q))
    } else if d == 7 {
        let (msg, q) = want_text(b, p, DecodeContext::ApplyTxPredError)?;
        Ok((ApplyConwayTxPredError::ConwayMempoolFailure(msg), q))
    } else {
        Err(DecodeError::UnknownDiscriminant { context: DecodeContext::ApplyTxPredError, value: d })
    }
}

/// The era a published era discriminant selects.
pub open spec fn era_of(d: u64) -> ShelleyBasedEra
    recommends
        1 <= d <= 6,
{
    if d == 1 {
        ShelleyBasedEra::ShelleyBasedEraShelley
    } else if d == 2 {
        ShelleyBasedEra::ShelleyBasedEraAllegra
    } else if d == 3 {
        ShelleyBasedEra::ShelleyBasedEraMary
    } else if d == 4 {
        ShelleyBasedEra::ShelleyBasedEraAlonzo
    } else if d == 5 {
        ShelleyBasedEra::ShelleyBasedEraBabbage
    } else {
        ShelleyBasedEra::ShelleyBasedEraConway
    }
}

/// Reads the era a failing transaction was validated under.
pub fn decode_shelley_based_era(b: &[u8], pos: usize) -> (r: Result<
    (ShelleyBasedEra, usize),
    DecodeError,
>)
    ensures
        r matches Ok((_, p)) ==> pos < p <= b@.len(),
        disc_of(b@, pos as int) matches Some(d) ==> (known_discriminant(DecodeContext::ShelleyBasedEra, d) || (r matches Err(e)
            && e == (DecodeError::UnknownDiscriminant { context: DecodeContext::ShelleyBasedEra, value: d }))),
        r matches Ok(_) ==> (disc_of(b@, pos as int) matches Some(d) && known_discriminant(DecodeContext::ShelleyBasedEra, d)),
        spec_disc(b@, pos as int) matches Some((d, p)) ==> (1 <= d <= 6 ==> (r matches Ok(t)
            && t.0 == era_of(d) && t.1 == p)),
{
    let (d, p) = read_disc(b, pos, DecodeContext::ShelleyBasedEra)?;
    if d == 1 {
        Ok((ShelleyBasedEra::ShelleyBasedEraShelley, p))
    } else if d == 2 {
        Ok((ShelleyBasedEra::ShelleyBasedEraAllegra, p))
    } else if d == 3 {
        Ok((ShelleyBasedEra::ShelleyBasedEraMary, p))
    } else if d == 4 {
        Ok((ShelleyBasedEra::ShelleyBasedEraAlonzo, p))
    } else if d == 5 {
        Ok((ShelleyBasedEra::ShelleyBasedEraBabbage, p))
    } else if d == 6 {
        Ok((ShelleyBasedEra::ShelleyBasedEraConway, p))
    } else {
        Err(DecodeError::UnknownDiscriminant { context: DecodeContext::ShelleyBasedEra, value: d })
    }
}


/// The position of the single reported failure, when the payload's
/// failure list holds exactly one element.
pub open spec fn first_failure_pos(b: Seq<u8>) -> Option<int> {
    match spec_array(b, 0) {
        Some((_l, p0)) => match spec_disc(b, p0) {
            Some((_d, p1)) => match spec_array(b, p1) {
                Some((l2, p2)) => if l2 == Some(1u64) {
                    Some(p2)
                } else {
                    None
                },
                None => None,
            },
            None => None,
        },
        None => None,
    }
}

/// Reads the outermost value of a rejection payload: the era wrapper,
/// then every reported failure.  The decoded era is pinned to the wire,
/// and a payload whose failure list is empty owes success.
pub fn decode_tx_validation_error(b: &[u8], pos: usize) -> (r: Result<
    (TxValidationError, usize),
    DecodeError,
>)
    ensures
        r matches Ok((_, p)) ==> pos < p <= b@.len(),
        r matches Ok((v, _)) ==> v is ShelleyTxValidationError,
        spec_array(b@, pos as int) matches Some((_l, p)) ==> (disc_of(b@, p) matches Some(d) ==> (
        known_discriminant(DecodeContext::ShelleyBasedEra, d) || r is Err)),
        r matches Ok((v, _)) ==> (v matches TxValidationError::ShelleyTxValidationError {
            error: _,
            era,
        } && (spec_array(b@, pos as int) matches Some((_l, p0)) && (spec_disc(b@, p0) matches Some(
            (d, _p1),
        ) && 1 <= d <= 6 && era == era_of(d)))),
        spec_array(b@, pos as int) matches Some((_l, p0)) ==> (spec_disc(b@, p0) matches Some(
            (d, p1),
        ) ==> (1 <= d <= 6 ==> (spec_array(b@, p1) matches Some((l2, p2)) ==> (l2 == Some(0u64)
            ==> (r matches Ok(t) && t.1 == p2 && (t.0 matches
            TxValidationError::ShelleyTxValidationError { error, era } && era == era_of(d)
            && error.0@.len() == 0)))))),
        pos == 0 ==> (first_failure_pos(b@) matches Some(fp) ==> (r matches Ok((v, end)) ==> (
        v matches TxValidationError::ShelleyTxValidationError { error, era: _ } && error.0@.len()
            == 1 && apply_error_sound(b@, fp, error.0@[0], end as int)))),
{
    let (_len, p0) = want_array(b, pos, DecodeContext::ShelleyBasedEra)?;
    let (era, p1) = decode_shelley_based_era(b, p0)?;
    let (errors, p2) = decode_apply_error_list(b, p1)?;
    Ok((TxValidationError::ShelleyTxValidationError { error: ApplyTxError(errors), era }, p2))
}

} // verus!
