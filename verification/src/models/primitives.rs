use vstd::prelude::*;
use vstd::std_specs::convert::FromSpecImpl;

use crate::models::error::Error;

verus! {

/// A 20-byte account address.
#[derive(Debug, Clone, Copy, PartialEq, Eq, Hash, Default)]
pub struct Address(pub [u8; 20]);

impl From<[u8; 20]> for Address {
    fn from(bytes: [u8; 20]) -> (address: Address) {
        Address(bytes)
    }
}

impl FromSpecImpl<[u8; 20]> for Address {
    open spec fn obeys_from_spec() -> bool {
        true
    }

    open spec fn from_spec(bytes: [u8; 20]) -> Address {
        Address(bytes)
    }
}

/// The recipient of a transaction: a concrete address to call, or the
/// sentinel that stands for the creation of a contract.
#[derive(Debug, Clone, Copy, PartialEq, Eq, Hash, Default)]
pub enum TxKind {
    /// No recipient: the transaction creates a contract.
    #[default]
    Create,
    /// The transaction is addressed to an account.
    Call(Address),
}

impl TxKind {
    /// The address that is called, if any.
    pub fn to(&self) -> (address: Option<Address>)
        ensures
            address == match *self {
                TxKind::Create => None::<Address>,
                TxKind::Call(to) => Some(to),
            },
    {
        match self {
            TxKind::Create => None,
            TxKind::Call(to) => Some(*to),
        }
    }

    /// Whether the transaction creates a contract.
    pub fn is_create(&self) -> (r: bool)
        ensures
            r == (*self is Create),
    {
        match self {
            TxKind::Create => true,
            TxKind::Call(_) => false,
        }
    }

    /// Whether the transaction is addressed to an account.
    pub fn is_call(&self) -> (r: bool)
        ensures
            r == (*self is Call),
    {
        match self {
            TxKind::Create => false,
            TxKind::Call(_) => true,
        }
    }
}

impl From<Address> for TxKind {
    fn from(address: Address) -> (kind: TxKind) {
        TxKind::Call(address)
    }
}

impl FromSpecImpl<Address> for TxKind {
    open spec fn obeys_from_spec() -> bool {
        true
    }

    open spec fn from_spec(address: Address) -> TxKind {
        TxKind::Call(address)
    }
}

/// The number that four 64-bit limbs stand for, least significant first.
pub open spec fn limbs_value(limbs: [u64; 4]) -> nat {
    limbs[0] as nat + limbs[1] as nat * 0x1_0000_0000_0000_0000nat + limbs[2] as nat
        * 0x1_0000_0000_0000_0000_0000_0000_0000_0000nat + limbs[3] as nat
        * 0x1_0000_0000_0000_0000_0000_0000_0000_0000_0000_0000_0000_0000nat
}

/// An unsigned 256-bit integer, held as four 64-bit limbs with the least
/// significant limb first.
#[derive(Debug, Clone, Copy, PartialEq, Eq, Hash, Default)]
pub struct U256(pub [u64; 4]);

impl View for U256 {
    type V = nat;

    open spec fn view(&self) -> nat {
        limbs_value(self.0)
    }
}

impl U256 {
    /// The limbs of the number zero.
    pub open spec fn spec_zero() -> U256 {
        U256([0u64, 0u64, 0u64, 0u64])
    }

    /// The limbs of a number that fits in 64 bits.
    pub open spec fn spec_from_u64(value: u64) -> U256 {
        U256([value, 0u64, 0u64, 0u64])
    }

    /// The limbs of a number that fits in 128 bits.
    pub open spec fn spec_from_u128(value: u128) -> U256 {
        U256([(value % 0x1_0000_0000_0000_0000) as u64, (value / 0x1_0000_0000_0000_0000) as u64, 0u64, 0u64])
    }

    /// The number zero.
    pub fn zero() -> (r: U256)
        ensures
            r == Self::spec_zero(),
            r@ == 0,
    {
        U256([0, 0, 0, 0])
    }

    /// Builds the number from its limbs, least significant first.
    pub fn from_limbs(limbs: [u64; 4]) -> (r: U256)
        ensures
            r == U256(limbs),
    {
        U256(limbs)
    }

    /// The limbs of the number, least significant first.
    pub fn as_limbs(&self) -> (limbs: &[u64; 4])
        ensures
            *limbs == self.0,
    {
        &self.0
    }

    /// Whether the number is zero.
    pub fn is_zero(&self) -> (r: bool)
        ensures
            r == (self@ == 0),
    {
        self.0[0] == 0 && self.0[1] == 0 && self.0[2] == 0 && self.0[3] == 0
    }

    /// The number as a `u64`, or an error if it does not fit.
    pub fn try_into_u64(self) -> (r: Result<u64, Error>)
        ensures
            r == if self@ <= u64::MAX {
                Ok::<u64, Error>(self@ as u64)
            } else {
                Err(Error::UInt256LargerThanU64)
            },
    {
        if self.0[1] != 0 || self.0[2] != 0 || self.0[3] != 0 {
            Err(Error::UInt256LargerThanU64)
        } else {
            Ok(self.0[0])
        }
    }
}

impl From<u64> for U256 {
    fn from(value: u64) -> (r: U256)
        ensures
            r@ == value,
    {
        U256([value, 0, 0, 0])
    }
}

impl FromSpecImpl<u64> for U256 {
    open spec fn obeys_from_spec() -> bool {
        true
    }

    open spec fn from_spec(value: u64) -> U256 {
        U256::spec_from_u64(value)
    }
}

impl From<u128> for U256 {
    fn from(value: u128) -> (r: U256)
        ensures
            r@ == value,
    {
        U256([(value % 0x1_0000_0000_0000_0000) as u64, (value / 0x1_0000_0000_0000_0000) as u64, 0, 0])
    }
}

impl FromSpecImpl<u128> for U256 {
    open spec fn obeys_from_spec() -> bool {
        true
    }

    open spec fn from_spec(value: u128) -> U256 {
        U256::spec_from_u128(value)
    }
}

/// A number built from a `u64` stands for that `u64`.
pub proof fn lemma_from_u64_value(value: u64)
    ensures
        U256::spec_from_u64(value)@ == value,
{
}

} // verus!
