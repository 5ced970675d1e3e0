use vstd::prelude::*;

use crate::hex_text::{decoded_hex, encoded_hex};
use crate::models::error::Error;

verus! {

/// A "raw" transaction: the bytes of its binary encoding.
#[derive(Debug, Clone, PartialEq, Eq, Hash)]
pub struct RawTransaction {
    /// The encoded transaction.
    pub rlp: Vec<u8>,
}

/// `hex::decode`, its error dropped. The text is decoded two characters
/// for each byte, upper half first, digits of either case; it fails on a
/// text of odd length and on any character that is no hexadecimal digit.
#[verifier::external_body]
fn hex_decode(text: &str) -> (bytes: Option<Vec<u8>>)
    ensures
        match bytes {
            Some(decoded) => decoded_hex(text@) == Some(decoded@),
            None => decoded_hex(text@) is None,
        },
{
    hex::decode(text).ok()
}

/// `hex::encode`: two digits for each byte, upper half first, letters in
/// lower case.
#[verifier::external_body]
fn hex_encode(bytes: &[u8]) -> (text: String)
    ensures
        text@ == encoded_hex(bytes@),
{
    hex::encode(bytes)
}

impl RawTransaction {
    /// The bytes in hexadecimal, without a prefix.
    pub fn to_string(&self) -> (text: String)
        ensures
            text@ == encoded_hex(self.rlp@),
    {
        hex_encode(self.rlp.as_slice())
    }

    /// Decodes a hexadecimal text into the bytes of a raw transaction. The
    /// text that is no hexadecimal is handed back in the error.
    pub fn from_hex(s: &str) -> (result: Result<RawTransaction, Error>)
        ensures
            match result {
                Ok(raw) => decoded_hex(s@) == Some(raw.rlp@),
                Err(Error::StringNotHex { bad_value }) => decoded_hex(s@) is None && bad_value@ == s@,
                Err(_) => false,
            },
    {
        match hex_decode(s) {
            Some(rlp) => Ok(RawTransaction { rlp }),
            None => Err(Error::StringNotHex { bad_value: s.to_owned() }),
        }
    }
}

impl std::str::FromStr for RawTransaction {
    type Err = Error;

    /// Decodes a hexadecimal text into the bytes of a raw transaction.
    fn from_str(s: &str) -> (result: Result<RawTransaction, Error>)
        ensures
            match result {
                Ok(raw) => decoded_hex(s@) == Some(raw.rlp@),
                Err(Error::StringNotHex { bad_value }) => decoded_hex(s@) is None && bad_value@ == s@,
                Err(_) => false,
            },
    {
        RawTransaction::from_hex(s)
    }
}

} // verus!
