use gastimator::decode_rlp::{
    decode_eip1559_transaction_not_signed, decode_eip1559_transaction_signed, strip_type_tag,
};
use gastimator::{
    decode_eip1559_transaction, Address, Error, Gas, RawTransaction, Transaction, TransactionKind,
    TxKind, U256,
};
use std::str::FromStr;

const SIGNED: &str = "02f87201824f4c83142ebf842d441366825208942e575fe17124f7ef2d22bbfb33cf3dbfc3f002d68711c37937e0800080c001a0152c51f0aa71d7698b486a34f8ffc9b61cc7a000c34d48e1cf9361d8973ba518a024216a87cb193b7e502ad9ddbcfc9674c40fe98bd4a7bda575ba03185621cd13";
const NOT_SIGNED: &str = "ef01824f4c83142ebf842d441366825208942e575fe17124f7ef2d22bbfb33cf3dbfc3f002d68711c37937e0800080c0";

#[test]
fn decode_rlp() {
    // https://etherscan.io/tx/0xb1869db00d08d706059ae6a167b9d89b01884606ee4dec42c19c9c6466471542
    let raw_tx_signed = hex::decode(SIGNED).unwrap();

    let tx = decode_eip1559_transaction(&raw_tx_signed).unwrap();

    let raw_tx_not_signed = hex::decode(NOT_SIGNED).unwrap();
    let tx2 = decode_eip1559_transaction(&raw_tx_not_signed).unwrap();

    assert_eq!(tx, tx2)
}

#[test]
fn decoded_fields() {
    let tx = decode_eip1559_transaction(&hex::decode(SIGNED).unwrap()).unwrap();
    assert_eq!(tx.chain_id, 1);
    assert_eq!(tx.nonce, 0x4f4c);
    assert_eq!(tx.max_priority_fee_per_gas, 0x142ebf);
    assert_eq!(tx.max_fee_per_gas, 0x2d441366);
    assert_eq!(tx.gas_limit, 0x5208);
    let to = hex::decode("2e575fe17124f7ef2d22bbfb33cf3dbfc3f002d6").unwrap();
    let to: [u8; 20] = to.try_into().unwrap();
    assert_eq!(tx.to, TxKind::Call(Address::from(to)));
    assert_eq!(tx.value, U256::from(0x11c37937e08000u64));
    assert!(tx.input.is_empty());
}

#[test]
fn signed_form_without_its_type_tag() {
    let with_tag = hex::decode(SIGNED).unwrap();
    let tx = decode_eip1559_transaction(&with_tag[1..]).unwrap();
    assert_eq!(tx, decode_eip1559_transaction(&with_tag).unwrap());
    assert_eq!(strip_type_tag(&with_tag), &with_tag[1..]);
    assert_eq!(strip_type_tag(&with_tag[1..]), &with_tag[1..]);
    assert_eq!(strip_type_tag(&[]), &[] as &[u8]);
    assert_eq!(strip_type_tag(&[2]), &[] as &[u8]);
}

#[test]
fn each_form_is_refused_by_the_other_decoder() {
    let signed = hex::decode(SIGNED).unwrap();
    let not_signed = hex::decode(NOT_SIGNED).unwrap();
    assert!(decode_eip1559_transaction_signed(&signed).is_ok());
    assert!(decode_eip1559_transaction_not_signed(&not_signed).is_ok());
    assert!(matches!(
        decode_eip1559_transaction_signed(&not_signed),
        Err(Error::DecodeRlpFailedBytesIntoSignedEip1559Tx { .. })
    ));
    assert!(matches!(
        decode_eip1559_transaction_not_signed(&signed),
        Err(Error::DecodeRlpFailedBytesIntoEip1559Tx { .. })
    ));
}

#[test]
fn undecodable_bytes_give_the_error_of_the_bare_form() {
    for bytes in [&[][..], &[0xde, 0xad][..], &[0x02][..], &[0xc0][..]] {
        match decode_eip1559_transaction(bytes) {
            Err(Error::DecodeRlpFailedBytesIntoEip1559Tx { underlying }) => {
                assert!(!underlying.is_empty())
            }
            other => panic!("unexpected {:?}", other),
        }
    }
    assert_eq!(
        decode_eip1559_transaction(&[]),
        Err(Error::DecodeRlpFailedBytesIntoEip1559Tx {
            underlying: "input too short".to_owned()
        })
    );
}

#[test]
fn transaction_from_eip1559() {
    let decoded = decode_eip1559_transaction(&hex::decode(SIGNED).unwrap()).unwrap();
    let tx = Transaction::from_eip1559(decoded.clone());
    assert_eq!(tx.nonce(), &Some(0x4f4c));
    assert_eq!(tx.from(), &None);
    assert_eq!(tx.to(), &decoded.to);
    assert_eq!(tx.value(), &decoded.value);
    assert_eq!(tx.gas_limit(), &Some(Gas::from(0x5208)));
    assert!(tx.input().is_empty());
    assert_eq!(tx.kind(), TransactionKind::NativeTokenTransfer);
    assert!(!tx.is_cacheable());

    let mut no_limit = decoded;
    no_limit.gas_limit = 0;
    no_limit.input = vec![1, 2, 3];
    let tx = Transaction::from_eip1559(no_limit);
    assert_eq!(tx.gas_limit(), &None);
    assert_eq!(tx.input(), &vec![1, 2, 3]);
}

#[test]
fn transaction_try_from_raw() {
    let raw = RawTransaction::from_str(SIGNED).unwrap();
    let tx = Transaction::try_from(raw).unwrap();
    let decoded = decode_eip1559_transaction(&hex::decode(SIGNED).unwrap()).unwrap();
    assert_eq!(tx, Transaction::from_eip1559(decoded));
    let bad = RawTransaction { rlp: vec![0xde, 0xad] };
    assert!(matches!(
        Transaction::try_from(bad),
        Err(Error::DecodeRlpFailedBytesIntoEip1559Tx { .. })
    ));
}

#[test]
fn raw_transaction_from_hex() {
    assert_eq!(
        RawTransaction::from_str("dead"),
        Ok(RawTransaction {
            rlp: vec![0xde, 0xad]
        })
    );
    assert_eq!(
        RawTransaction::from_hex("DeAd00ff"),
        Ok(RawTransaction {
            rlp: vec![0xde, 0xad, 0x00, 0xff]
        })
    );
    assert_eq!(RawTransaction::from_hex(""), Ok(RawTransaction { rlp: vec![] }));
    for bad in ["dea", "0xdead", "zz", "dé", " dead"] {
        assert_eq!(
            RawTransaction::from_hex(bad),
            Err(Error::StringNotHex {
                bad_value: bad.to_owned()
            })
        );
    }
}
