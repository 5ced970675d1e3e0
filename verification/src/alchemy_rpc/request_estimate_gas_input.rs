use vstd::prelude::*;
use vstd::std_specs::convert::FromSpecImpl;

use crate::alchemy_rpc::is_rpc_request::IsRpcRequest;
use crate::models::primitives::{Address, U256};
use crate::models::transaction::{Transaction, TransactionView};

verus! {

/// The input of the method `eth_estimateGas`. Each field is sent only
/// where it is present.
#[derive(Debug, Default)]
pub struct AlchemyEstimateGasInput {
    /// The address of the recipient of the transaction.
    to: Option<Address>,
    /// An optional gas limit.
    gas: Option<U256>,
    /// An optional gas price.
    gas_price: Option<U256>,
    /// An optional amount of native token to send with the transaction.
    value: Option<U256>,
    /// An optional payload, as used for contract calls.
    data: Option<Vec<u8>>,
}

/// What an [`AlchemyEstimateGasInput`] holds, with its payload as a
/// sequence.
pub struct AlchemyEstimateGasInputView {
    pub to: Option<Address>,
    pub gas: Option<U256>,
    pub gas_price: Option<U256>,
    pub value: Option<U256>,
    pub data: Option<Seq<u8>>,
}

impl AlchemyEstimateGasInputView {
    /// The input that stands for a transaction: the recipient if there is
    /// one, the gas limit if one is declared, the value in any case, the
    /// payload unless it is empty, and never a gas price.
    pub open spec fn from_transaction(tx: TransactionView) -> AlchemyEstimateGasInputView {
        AlchemyEstimateGasInputView {
            to: match tx.to {
                crate::models::primitives::TxKind::Create => None,
                crate::models::primitives::TxKind::Call(to) => Some(to),
            },
            gas: match tx.gas_limit {
                Some(limit) => Some(U256::spec_from_u64(limit.0)),
                None => None,
            },
            gas_price: None,
            value: Some(tx.value),
            data: if tx.input.len() == 0 {
                None
            } else {
                Some(tx.input)
            },
        }
    }
}

impl View for AlchemyEstimateGasInput {
    type V = AlchemyEstimateGasInputView;

    closed spec fn view(&self) -> AlchemyEstimateGasInputView {
        AlchemyEstimateGasInputView {
            to: self.to,
            gas: self.gas,
            gas_price: self.gas_price,
            value: self.value,
            data: match self.data {
                Some(data) => Some(data@),
                None => None,
            },
        }
    }
}

impl AlchemyEstimateGasInput {
    /// The address of the recipient of the transaction.
    pub fn to(&self) -> (to: &Option<Address>)
        ensures
            *to == self@.to,
    {
        &self.to
    }

    /// The gas limit, if any.
    pub fn gas(&self) -> (gas: &Option<U256>)
        ensures
            *gas == self@.gas,
    {
        &self.gas
    }

    /// The gas price, if any.
    pub fn gas_price(&self) -> (gas_price: &Option<U256>)
        ensures
            *gas_price == self@.gas_price,
    {
        &self.gas_price
    }

    /// The amount of native token to send, if any.
    pub fn value(&self) -> (value: &Option<U256>)
        ensures
            *value == self@.value,
    {
        &self.value
    }

    /// The payload, if any.
    pub fn data(&self) -> (data: &Option<Vec<u8>>)
        ensures
            match *data {
                Some(bytes) => self@.data == Some(bytes@),
                None => self@.data is None,
            },
    {
        &self.data
    }
}

impl From<Transaction> for AlchemyEstimateGasInput {
    /// Converts a transaction into the input of `eth_estimateGas`.
    fn from(value: Transaction) -> (input: AlchemyEstimateGasInput)
        ensures
            input@ == AlchemyEstimateGasInputView::from_transaction(value@),
    {
        let data = if value.input().len() == 0 {
            None
        } else {
            Some(value.input().clone())
        };
        let gas_limit = match value.gas_limit() {
            Some(gas) => Some(U256::from(gas.0)),
            None => None,
        };
        AlchemyEstimateGasInput {
            to: value.to().to(),
            gas: gas_limit,
            gas_price: None,
            value: Some(*value.value()),
            data,
        }
    }
}

impl FromSpecImpl<Transaction> for AlchemyEstimateGasInput {
    /// The conversion is specified over views, by the `ensures` of `from`.
    open spec fn obeys_from_spec() -> bool {
        false
    }

    open spec fn from_spec(value: Transaction) -> AlchemyEstimateGasInput {
        arbitrary()
    }
}

impl IsRpcRequest for AlchemyEstimateGasInput {
    type Param = AlchemyEstimateGasInput;

    open spec fn spec_method() -> Seq<char> {
        "eth_estimateGas"@
    }

    fn method() -> (name: String) {
        "eth_estimateGas".to_owned()
    }
}

} // verus!
