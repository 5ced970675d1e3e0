use vstd::prelude::*;

verus! {

/// Different classifications of transactions, based on the fields of a
/// transaction.
#[derive(Debug, Clone, Copy, PartialEq, Eq, Structural, Hash)]
pub enum TransactionKind {
    /// Only transfer of native token, with a fixed gas usage.
    NativeTokenTransfer,
    /// Creation of a contract. Gas usage depends on the size of the code
    /// and on what its constructor executes.
    ContractCreation,
    /// Call to a contract, with or without a transfer of native token.
    ContractCall { with_native_token_transfer: bool },
    /// Not a pure transfer, and neither a creation nor a call.
    Unknown,
}

impl TransactionKind {
    /// Whether this is a pure transfer of native token.
    pub fn is_native_token_transfer(&self) -> (r: bool)
        ensures
            r == (*self is NativeTokenTransfer),
    {
        match self {
            TransactionKind::NativeTokenTransfer => true,
            _ => false,
        }
    }

    /// Whether this is the creation of a contract.
    pub fn is_contract_creation(&self) -> (r: bool)
        ensures
            r == (*self is ContractCreation),
    {
        match self {
            TransactionKind::ContractCreation => true,
            _ => false,
        }
    }

    /// Whether this is a call to a contract.
    pub fn is_contract_call(&self) -> (r: bool)
        ensures
            r == (*self is ContractCall),
    {
        match self {
            TransactionKind::ContractCall { .. } => true,
            _ => false,
        }
    }

    /// Whether the transaction could not be classified.
    pub fn is_unknown(&self) -> (r: bool)
        ensures
            r == (*self is Unknown),
    {
        match self {
            TransactionKind::Unknown => true,
            _ => false,
        }
    }
}

} // verus!
