use vstd::prelude::*;
use vstd::slice::slice_subrange;

use crate::models::error::Error;
use crate::models::primitives::{Address, TxKind, U256};
use crate::models::transaction::{TxEip1559, TxEip1559View};
use alloy_consensus::private::alloy_rlp::Error as RlpError;
use alloy_consensus::transaction::RlpEcdsaDecodableTx;

verus! {

/// `alloy_rlp::Error`, the error of the decoders. The verifier sees
/// nothing inside it.
#[verifier::external_type_specification]
#[verifier::external_body]
pub struct ExRlpError(RlpError);

/// The transaction that bytes decode to as a bare, unsigned EIP-1559
/// transaction, if they do.
pub uninterp spec fn unsigned_eip1559_decoding(bytes: Seq<u8>) -> Option<TxEip1559View>;

/// The transaction that bytes decode to as a signed EIP-1559 transaction
/// without its type tag, if they do. The signature is dropped.
pub uninterp spec fn signed_eip1559_decoding(bytes: Seq<u8>) -> Option<TxEip1559View>;

/// `TxEip1559::rlp_decode` of `alloy_consensus`: decodes the bare form of a
/// transaction. The decoded fields are copied into the library's type, the
/// access list left out.
#[verifier::external_body]
fn rlp_decode(raw_tx: &[u8]) -> (decoded: Result<TxEip1559, RlpError>)
    ensures
        match decoded {
            Ok(tx) => unsigned_eip1559_decoding(raw_tx@) == Some(tx@),
            Err(_) => unsigned_eip1559_decoding(raw_tx@) is None,
        },
{
    let mut buf = raw_tx;
    alloy_consensus::TxEip1559::rlp_decode(&mut buf).map(|tx| TxEip1559 {
        chain_id: tx.chain_id,
        nonce: tx.nonce,
        gas_limit: tx.gas_limit,
        max_fee_per_gas: tx.max_fee_per_gas,
        max_priority_fee_per_gas: tx.max_priority_fee_per_gas,
        to: tx.to.to().map_or(TxKind::Create, |to| TxKind::Call(Address(to.into_array()))),
        value: U256(tx.value.into_limbs()),
        input: tx.input.to_vec(),
    })
}

/// `TxEip1559::rlp_decode_signed` of `alloy_consensus`: decodes the signed
/// form of a transaction, after its type tag. The decoded fields are
/// copied into the library's type, signature and access list left out.
#[verifier::external_body]
fn rlp_decode_signed(raw_tx: &[u8]) -> (decoded: Result<TxEip1559, RlpError>)
    ensures
        match decoded {
            Ok(tx) => signed_eip1559_decoding(raw_tx@) == Some(tx@),
            Err(_) => signed_eip1559_decoding(raw_tx@) is None,
        },
{
    let mut buf = raw_tx;
    alloy_consensus::TxEip1559::rlp_decode_signed(&mut buf).map(|signed| signed.strip_signature()).map(|tx| TxEip1559 {
        chain_id: tx.chain_id,
        nonce: tx.nonce,
        gas_limit: tx.gas_limit,
        max_fee_per_gas: tx.max_fee_per_gas,
        max_priority_fee_per_gas: tx.max_priority_fee_per_gas,
        to: tx.to.to().map_or(TxKind::Create, |to| TxKind::Call(Address(to.into_array()))),
        value: U256(tx.value.into_limbs()),
        input: tx.input.to_vec(),
    })
}

/// The message of a decoding error, as its `Display` gives it.
#[verifier::external_body]
fn rlp_error_message(e: &RlpError) -> (message: String) {
    e.to_string()
}

/// The type tag of an EIP-1559 transaction.
pub const EIP1559_TYPE_TAG: u8 = 2;

/// Encoded bytes without the type tag of an EIP-1559 transaction, if they
/// begin with it.
pub open spec fn without_type_tag(raw_tx: Seq<u8>) -> Seq<u8> {
    if raw_tx.len() > 0 && raw_tx[0] == EIP1559_TYPE_TAG {
        raw_tx.subrange(1, raw_tx.len() as int)
    } else {
        raw_tx
    }
}

/// The transaction that bytes decode to: as the signed form, after the
/// type tag if there is one, or else as the bare form.
pub open spec fn eip1559_decoding(raw_tx: Seq<u8>) -> Option<TxEip1559View> {
    match signed_eip1559_decoding(without_type_tag(raw_tx)) {
        Some(tx) => Some(tx),
        None => unsigned_eip1559_decoding(raw_tx),
    }
}

/// Encoded bytes without the type tag of an EIP-1559 transaction, if they
/// begin with it.
pub fn strip_type_tag(raw_tx: &[u8]) -> (rest: &[u8])
    ensures
        rest@ == without_type_tag(raw_tx@),
{
    if raw_tx.len() > 0 && raw_tx[0] == EIP1559_TYPE_TAG {
        slice_subrange(raw_tx, 1, raw_tx.len())
    } else {
        raw_tx
    }
}

/// Decodes an EIP-1559 transaction from its binary encoding. The signed
/// form is tried first, the bare form if that fails; if both fail, the
/// error carries the message of the decoder of the bare form.
pub fn decode_eip1559_transaction(raw_tx: &[u8]) -> (result: Result<TxEip1559, Error>)
    ensures
        match result {
            Ok(tx) => eip1559_decoding(raw_tx@) == Some(tx@),
            Err(Error::DecodeRlpFailedBytesIntoEip1559Tx { .. }) => eip1559_decoding(raw_tx@) is None,
            Err(_) => false,
        },
{
    if let Ok(signed_tx) = decode_eip1559_transaction_signed(raw_tx) {
        Ok(signed_tx)
    } else {
        decode_eip1559_transaction_not_signed(raw_tx)
    }
}

/// Decodes the bare form of an EIP-1559 transaction.
pub fn decode_eip1559_transaction_not_signed(raw_tx: &[u8]) -> (result: Result<TxEip1559, Error>)
    ensures
        match result {
            Ok(tx) => unsigned_eip1559_decoding(raw_tx@) == Some(tx@),
            Err(Error::DecodeRlpFailedBytesIntoEip1559Tx { .. }) => unsigned_eip1559_decoding(raw_tx@)
                is None,
            Err(_) => false,
        },
{
    match rlp_decode(raw_tx) {
        Ok(tx) => Ok(tx),
        Err(e) => Err(Error::decode_rlp_decode_bytes_into_eip1559(rlp_error_message(&e))),
    }
}

/// Decodes the signed form of an EIP-1559 transaction, with or without its
/// type tag, and drops the signature.
pub fn decode_eip1559_transaction_signed(raw_tx: &[u8]) -> (result: Result<TxEip1559, Error>)
    ensures
        match result {
            Ok(tx) => signed_eip1559_decoding(without_type_tag(raw_tx@)) == Some(tx@),
            Err(Error::DecodeRlpFailedBytesIntoSignedEip1559Tx { .. }) => signed_eip1559_decoding(
                without_type_tag(raw_tx@),
            ) is None,
            Err(_) => false,
        },
{
    let buf = strip_type_tag(raw_tx);
    match rlp_decode_signed(buf) {
        Ok(tx) => Ok(tx),
        Err(e) => Err(Error::decode_rlp_decode_bytes_into_signed_eip1559(rlp_error_message(&e))),
    }
}

} // verus!
