use vstd::prelude::*;
use vstd::std_specs::cmp::PartialEqSpecImpl;
use vstd::std_specs::convert::TryFromSpecImpl;

use crate::decode_rlp::{decode_eip1559_transaction, eip1559_decoding};
use crate::models::error::Error;
use crate::models::raw_transaction::RawTransaction;

use crate::models::gas::Gas;
use crate::models::primitives::{Address, TxKind, U256};
use crate::models::transaction_kind::TransactionKind;

verus! {

/// The fields of an EIP-1559 transaction that its binary encoding carries,
/// but for the access list.
#[derive(Debug, Clone, PartialEq, Eq, Hash, Default)]
pub struct TxEip1559 {
    /// Identifier of the chain the transaction is meant for.
    pub chain_id: u64,
    /// Number of transactions that the sender has made before this one.
    pub nonce: u64,
    /// Upper bound on the gas the transaction may use; zero for none.
    pub gas_limit: u64,
    /// Upper bound on the total fee per unit of gas.
    pub max_fee_per_gas: u128,
    /// Upper bound on the tip per unit of gas.
    pub max_priority_fee_per_gas: u128,
    /// The recipient.
    pub to: TxKind,
    /// The amount of native token sent along.
    pub value: U256,
    /// The payload.
    pub input: Vec<u8>,
}

/// What a decoded transaction holds, with its payload as a sequence.
pub struct TxEip1559View {
    pub chain_id: u64,
    pub nonce: u64,
    pub gas_limit: u64,
    pub max_fee_per_gas: u128,
    pub max_priority_fee_per_gas: u128,
    pub to: TxKind,
    pub value: U256,
    pub input: Seq<u8>,
}

impl View for TxEip1559 {
    type V = TxEip1559View;

    open spec fn view(&self) -> TxEip1559View {
        TxEip1559View {
            chain_id: self.chain_id,
            nonce: self.nonce,
            gas_limit: self.gas_limit,
            max_fee_per_gas: self.max_fee_per_gas,
            max_priority_fee_per_gas: self.max_priority_fee_per_gas,
            to: self.to,
            value: self.value,
            input: self.input@,
        }
    }
}

/// A transaction, as far as the estimation of its gas is concerned.
///
/// The most important fields are `to`, `value` and `input`. Fee fields are
/// left out: they bear on the price of gas, not on the amount used.
#[derive(Debug, Hash, Default)]
pub struct Transaction {
    /// Number of transactions that the sender has made before this one.
    /// Together with `from` it decides whether the transaction is
    /// cacheable.
    nonce: Option<u64>,
    /// The sender. Together with `nonce` it decides whether the
    /// transaction is cacheable.
    from: Option<Address>,
    /// The receiver of the transaction.
    to: TxKind,
    /// The amount of native token sent with the transaction.
    value: U256,
    /// The transaction is not allowed to cost more than this limit.
    gas_limit: Option<Gas>,
    /// Input data of a contract call or creation; empty for a pure
    /// transfer.
    input: Vec<u8>,
}

/// The mathematical value of a [`Transaction`]: its fields, with the
/// payload as a sequence of bytes. Two transactions are the same cache key
/// exactly when their views are equal.
pub struct TransactionView {
    pub nonce: Option<u64>,
    pub from: Option<Address>,
    pub to: TxKind,
    pub value: U256,
    pub gas_limit: Option<Gas>,
    pub input: Seq<u8>,
}

impl TransactionView {
    /// A transaction is cacheable iff both its nonce and its sender are
    /// present.
    pub open spec fn is_cacheable(self) -> bool {
        self.nonce is Some && self.from is Some
    }

    /// The declared gas limit, or the largest amount where none is
    /// declared.
    pub open spec fn gas_limit_else_max(self) -> Gas {
        match self.gas_limit {
            Some(limit) => limit,
            None => Gas(u64::MAX),
        }
    }

    /// The classification of a transaction by its shape.
    pub open spec fn kind(self) -> TransactionKind {
        if self.to is Call && self.value@ > 0 && self.input.len() == 0 {
            TransactionKind::NativeTokenTransfer
        } else if self.to is Create && self.input.len() > 0 {
            TransactionKind::ContractCreation
        } else if self.to is Call {
            TransactionKind::ContractCall { with_native_token_transfer: self.value@ > 0 }
        } else {
            TransactionKind::Unknown
        }
    }

    /// The transaction that an EIP-1559 transaction stands for: its nonce
    /// is present, its sender is not, and a gas limit of zero means that
    /// none is declared.
    pub open spec fn from_eip1559(value: TxEip1559View) -> TransactionView {
        TransactionView {
            nonce: Some(value.nonce),
            from: None,
            to: value.to,
            value: value.value,
            gas_limit: if value.gas_limit == 0 {
                None
            } else {
                Some(Gas(value.gas_limit))
            },
            input: value.input,
        }
    }
}

impl View for Transaction {
    type V = TransactionView;

    closed spec fn view(&self) -> TransactionView {
        TransactionView {
            nonce: self.nonce,
            from: self.from,
            to: self.to,
            value: self.value,
            gas_limit: self.gas_limit,
            input: self.input@,
        }
    }
}

/// Whether two sequences of bytes are the same.
fn same_bytes(a: &[u8], b: &[u8]) -> (same: bool)
    ensures
        same == (a@ == b@),
{
    if a.len() != b.len() {
        return false;
    }
    let mut i: usize = 0;
    while i < a.len()
        invariant
            a.len() == b.len(),
            i <= a.len(),
            forall|k: int| 0 <= k < i ==> a@[k] == b@[k],
        decreases a.len() - i,
    {
        if a[i] != b[i] {
            return false;
        }
        i = i + 1;
    }
    proof {
        assert(a@ =~= b@);
    }
    true
}

/// Whether two addresses are the same.
fn same_address(a: &Address, b: &Address) -> (same: bool)
    ensures
        same == (*a == *b),
{
    let same = same_bytes(a.0.as_slice(), b.0.as_slice());
    proof {
        assert(same == (a.0@ == b.0@));
        assert(a.0@ == b.0@ ==> a.0 =~= b.0);
    }
    same
}

/// Whether two optional addresses are the same.
fn same_sender(a: &Option<Address>, b: &Option<Address>) -> (same: bool)
    ensures
        same == (*a == *b),
{
    match (a, b) {
        (Some(a), Some(b)) => same_address(a, b),
        (None, None) => true,
        _ => false,
    }
}

/// Whether two recipients are the same.
fn same_recipient(a: &TxKind, b: &TxKind) -> (same: bool)
    ensures
        same == (*a == *b),
{
    match (a, b) {
        (TxKind::Call(a), TxKind::Call(b)) => same_address(a, b),
        (TxKind::Create, TxKind::Create) => true,
        _ => false,
    }
}

/// Whether two values are the same.
fn same_value(a: &U256, b: &U256) -> (same: bool)
    ensures
        same == (*a == *b),
{
    let same = a.0[0] == b.0[0] && a.0[1] == b.0[1] && a.0[2] == b.0[2] && a.0[3] == b.0[3];
    proof {
        assert(same ==> a.0 =~= b.0);
    }
    same
}

impl PartialEq for Transaction {
    /// Two transactions are equal when all their fields are.
    fn eq(&self, other: &Transaction) -> (same: bool) {
        self.nonce == other.nonce && same_sender(&self.from, &other.from) && same_recipient(
            &self.to,
            &other.to,
        ) && same_value(&self.value, &other.value) && self.gas_limit == other.gas_limit && same_bytes(
            self.input.as_slice(),
            other.input.as_slice(),
        )
    }
}

impl PartialEqSpecImpl for Transaction {
    open spec fn obeys_eq_spec() -> bool {
        true
    }

    open spec fn eq_spec(&self, other: &Transaction) -> bool {
        self@ == other@
    }
}

impl Eq for Transaction {

}

impl Clone for Transaction {
    fn clone(&self) -> (copy: Transaction)
        ensures
            copy@ == self@,
    {
        Transaction {
            nonce: self.nonce,
            from: self.from,
            to: self.to,
            value: self.value,
            gas_limit: self.gas_limit,
            input: self.input.clone(),
        }
    }
}

impl Transaction {
    /// A transaction with the given fields.
    pub fn new(
        nonce: Option<u64>,
        from: Option<Address>,
        to: TxKind,
        value: U256,
        gas_limit: Option<Gas>,
        input: Vec<u8>,
    ) -> (tx: Transaction)
        ensures
            tx@ == (TransactionView { nonce, from, to, value, gas_limit, input: input@ }),
    {
        Transaction { nonce, from, to, value, gas_limit, input }
    }

    /// The nonce, if present.
    pub fn nonce(&self) -> (nonce: &Option<u64>)
        ensures
            *nonce == self@.nonce,
    {
        &self.nonce
    }

    /// The sender, if present.
    pub fn from(&self) -> (from: &Option<Address>)
        ensures
            *from == self@.from,
    {
        &self.from
    }

    /// The receiver.
    pub fn to(&self) -> (to: &TxKind)
        ensures
            *to == self@.to,
    {
        &self.to
    }

    /// The amount of native token sent along.
    pub fn value(&self) -> (value: &U256)
        ensures
            *value == self@.value,
    {
        &self.value
    }

    /// The declared gas limit, if any.
    pub fn gas_limit(&self) -> (gas_limit: &Option<Gas>)
        ensures
            *gas_limit == self@.gas_limit,
    {
        &self.gas_limit
    }

    /// The input data.
    pub fn input(&self) -> (input: &Vec<u8>)
        ensures
            input@ == self@.input,
    {
        &self.input
    }

    /// Declares a gas limit, or withdraws it.
    pub fn set_gas_limit(&mut self, gas_limit: Option<Gas>)
        ensures
            final(self)@ == (TransactionView { gas_limit, ..old(self)@ }),
    {
        self.gas_limit = gas_limit;
    }

    /// The declared gas limit, or the largest amount where none is
    /// declared.
    pub fn gas_limit_else_max(&self) -> (limit: Gas)
        ensures
            limit == self@.gas_limit_else_max(),
    {
        match self.gas_limit {
            Some(limit) => limit,
            None => Gas::unlimited(),
        }
    }

    /// Whether the cache may be read and written for this transaction:
    /// only a transaction with both a nonce and a sender is identified well
    /// enough.
    pub fn is_cacheable(&self) -> (r: bool)
        ensures
            r == self@.is_cacheable(),
    {
        self.nonce.is_some() && self.from.is_some()
    }

    /// Classifies this transaction into a kind: a pure transfer of native
    /// token, a contract creation, a contract call, or unknown.
    pub fn kind(&self) -> (kind: TransactionKind)
        ensures
            kind == self@.kind(),
    {
        let to_is_none = self.to.to().is_none();
        let is_call = self.to.is_call();
        let is_create = self.to.is_create();
        let value_is_zero = self.value.is_zero();
        let data_is_empty = self.input.len() == 0;

        if !to_is_none && !value_is_zero && data_is_empty {
            TransactionKind::NativeTokenTransfer
        } else if is_create && !data_is_empty {
            TransactionKind::ContractCreation
        } else if is_call {
            TransactionKind::ContractCall { with_native_token_transfer: !value_is_zero }
        } else {
            TransactionKind::Unknown
        }
    }

    /// Creates a new transaction from an EIP-1559 transaction.
    pub fn from_eip1559(value: TxEip1559) -> (tx: Transaction)
        ensures
            tx@ == TransactionView::from_eip1559(value@),
    {
        let gas_limit = if value.gas_limit == 0 {
            None
        } else {
            Some(Gas(value.gas_limit))
        };
        Transaction {
            nonce: Some(value.nonce),
            from: None,
            to: value.to,
            value: value.value,
            gas_limit,
            input: value.input,
        }
    }
}

/// The bytes of the address that the samples use: twenty times `0x12`.
pub open spec fn sample_address_bytes() -> Seq<u8> {
    Seq::new(20, |i: int| 0x12u8)
}

/// The payload of the sample contract creation: 400 times `0xab`.
pub open spec fn sample_creation_input() -> Seq<u8> {
    Seq::new(400, |i: int| 0xabu8)
}

impl Transaction {
    /// A sample native token transfer with the given gas limit, if any:
    /// one unit of native token sent to the sample address.
    pub fn sample_native_token_transfer_gas_limit<L: Into<Option<Gas>>>(limit: L) -> (tx: Transaction)
        ensures
            tx@.nonce is None,
            tx@.from is None,
            tx@.to matches TxKind::Call(to) && to.0@ == sample_address_bytes(),
            tx@.value@ == 1,
            tx@.input.len() == 0,
            call_ensures(L::into, (limit,), tx@.gas_limit),
            tx@.kind() is NativeTokenTransfer,
    {
        let to = Address([0x12u8; 20]);
        proof {
            assert(to.0@ =~= sample_address_bytes());
        }
        Transaction {
            nonce: None,
            from: None,
            to: TxKind::Call(to),
            value: U256::from(1u64),
            gas_limit: limit.into(),
            input: Vec::new(),
        }
    }

    /// A sample native token transfer without a gas limit.
    pub fn sample_native_token_transfer() -> (tx: Transaction)
        ensures
            tx@.nonce is None,
            tx@.from is None,
            tx@.to matches TxKind::Call(to) && to.0@ == sample_address_bytes(),
            tx@.value@ == 1,
            tx@.input.len() == 0,
            tx@.gas_limit is None,
            tx@.kind() is NativeTokenTransfer,
            !tx@.is_cacheable(),
    {
        let to = Address([0x12u8; 20]);
        proof {
            assert(to.0@ =~= sample_address_bytes());
        }
        Transaction {
            nonce: None,
            from: None,
            to: TxKind::Call(to),
            value: U256::from(1u64),
            gas_limit: None,
            input: Vec::new(),
        }
    }

    /// A sample native token transfer that is cacheable: it has the nonce
    /// 1 and the sample address as its sender.
    pub fn sample_native_token_transfer_cachable() -> (tx: Transaction)
        ensures
            tx@.nonce == Some(1u64),
            tx@.from matches Some(from) && from.0@ == sample_address_bytes(),
            tx@.to matches TxKind::Call(to) && to.0@ == sample_address_bytes(),
            tx@.value@ == 1,
            tx@.input.len() == 0,
            tx@.gas_limit is None,
            tx@.kind() is NativeTokenTransfer,
            tx@.is_cacheable(),
    {
        let address = Address([0x12u8; 20]);
        proof {
            assert(address.0@ =~= sample_address_bytes());
        }
        Transaction {
            nonce: Some(1),
            from: Some(address),
            to: TxKind::Call(address),
            value: U256::from(1u64),
            gas_limit: None,
            input: Vec::new(),
        }
    }

    /// A sample contract creation with the given gas limit, if any: no
    /// recipient, no value, and the sample payload.
    pub fn sample_contract_creation_gas_limit<L: Into<Option<Gas>>>(limit: L) -> (tx: Transaction)
        ensures
            tx@.nonce is None,
            tx@.from is None,
            tx@.to is Create,
            tx@.value@ == 0,
            tx@.input == sample_creation_input(),
            call_ensures(L::into, (limit,), tx@.gas_limit),
            tx@.kind() is ContractCreation,
    {
        Transaction {
            nonce: None,
            from: None,
            to: TxKind::Create,
            value: U256::zero(),
            gas_limit: limit.into(),
            input: sample_creation_payload(),
        }
    }

    /// A sample contract creation without a gas limit.
    pub fn sample_contract_creation() -> (tx: Transaction)
        ensures
            tx@.nonce is None,
            tx@.from is None,
            tx@.to is Create,
            tx@.value@ == 0,
            tx@.input == sample_creation_input(),
            tx@.gas_limit is None,
            tx@.kind() is ContractCreation,
    {
        Transaction {
            nonce: None,
            from: None,
            to: TxKind::Create,
            value: U256::zero(),
            gas_limit: None,
            input: sample_creation_payload(),
        }
    }
}

/// The payload of the sample contract creation.
fn sample_creation_payload() -> (input: Vec<u8>)
    ensures
        input@ == sample_creation_input(),
{
    let mut input: Vec<u8> = Vec::new();
    let mut i: usize = 0;
    while i < 400
        invariant
            i <= 400,
            input@.len() == i,
            forall|k: int| 0 <= k < i ==> input@[k] == 0xabu8,
        decreases 400 - i,
    {
        input.push(0xab);
        i = i + 1;
    }
    proof {
        assert(input@ =~= sample_creation_input());
    }
    input
}

impl TryFrom<RawTransaction> for Transaction {
    type Error = Error;

    /// Decodes the raw bytes, and takes the transaction that the decoded
    /// one stands for.
    fn try_from(value: RawTransaction) -> (result: Result<Transaction, Error>)
        ensures
            match result {
                Ok(tx) => eip1559_decoding(value.rlp@) matches Some(decoded) && tx@
                    == TransactionView::from_eip1559(decoded),
                Err(Error::DecodeRlpFailedBytesIntoEip1559Tx { .. }) => eip1559_decoding(value.rlp@)
                    is None,
                Err(_) => false,
            },
    {
        match decode_eip1559_transaction(value.rlp.as_slice()) {
            Ok(tx) => Ok(Transaction::from_eip1559(tx)),
            Err(e) => Err(e),
        }
    }
}

impl TryFromSpecImpl<RawTransaction> for Transaction {
    /// The conversion is specified over views, by the `ensures` of
    /// `try_from`.
    open spec fn obeys_try_from_spec() -> bool {
        false
    }

    open spec fn try_from_spec(value: RawTransaction) -> Result<Transaction, Error> {
        arbitrary()
    }
}

/// Builds a [`Transaction`] field by field. A field that is not set has
/// its default: no nonce, no sender, no recipient, the value zero, no gas
/// limit, an empty payload.
#[derive(Debug, Default)]
pub struct TransactionBuilder {
    nonce: Option<u64>,
    from: Option<Address>,
    to: TxKind,
    value: U256,
    gas_limit: Option<Gas>,
    input: Vec<u8>,
}

impl View for TransactionBuilder {
    type V = TransactionView;

    closed spec fn view(&self) -> TransactionView {
        TransactionView {
            nonce: self.nonce,
            from: self.from,
            to: self.to,
            value: self.value,
            gas_limit: self.gas_limit,
            input: self.input@,
        }
    }
}

impl TransactionBuilder {
    /// A builder with every field at its default.
    pub fn new() -> (builder: TransactionBuilder)
        ensures
            builder@.nonce is None,
            builder@.from is None,
            builder@.to is Create,
            builder@.value@ == 0,
            builder@.gas_limit is None,
            builder@.input.len() == 0,
    {
        TransactionBuilder {
            nonce: None,
            from: None,
            to: TxKind::Create,
            value: U256::zero(),
            gas_limit: None,
            input: Vec::new(),
        }
    }

    /// Sets the nonce.
    pub fn nonce<T: Into<Option<u64>>>(self, nonce: T) -> (builder: TransactionBuilder)
        ensures
            exists|set: Option<u64>| #[trigger]
                call_ensures(T::into, (nonce,), set) && builder@ == (TransactionView {
                    nonce: set,
                    ..self@
                }),
    {
        self.with_nonce(nonce.into())
    }

    /// Sets the sender.
    pub fn from<T: Into<Option<Address>>>(self, from: T) -> (builder: TransactionBuilder)
        ensures
            exists|set: Option<Address>| #[trigger]
                call_ensures(T::into, (from,), set) && builder@ == (TransactionView {
                    from: set,
                    ..self@
                }),
    {
        self.with_from(from.into())
    }

    /// Sets the recipient.
    pub fn to<T: Into<TxKind>>(self, to: T) -> (builder: TransactionBuilder)
        ensures
            exists|set: TxKind| #[trigger]
                call_ensures(T::into, (to,), set) && builder@ == (TransactionView { to: set, ..self@ }),
    {
        self.with_to(to.into())
    }

    /// Sets the value.
    pub fn value<T: Into<U256>>(self, value: T) -> (builder: TransactionBuilder)
        ensures
            exists|set: U256| #[trigger]
                call_ensures(T::into, (value,), set) && builder@ == (TransactionView {
                    value: set,
                    ..self@
                }),
    {
        self.with_value(value.into())
    }

    /// Sets the gas limit.
    pub fn gas_limit<T: Into<Option<Gas>>>(self, gas_limit: T) -> (builder: TransactionBuilder)
        ensures
            exists|set: Option<Gas>| #[trigger]
                call_ensures(T::into, (gas_limit,), set) && builder@ == (TransactionView {
                    gas_limit: set,
                    ..self@
                }),
    {
        self.with_gas_limit(gas_limit.into())
    }

    /// Sets the nonce, or takes it away.
    pub fn with_nonce(self, nonce: Option<u64>) -> (builder: TransactionBuilder)
        ensures
            builder@ == (TransactionView { nonce, ..self@ }),
    {
        let mut builder = self;
        builder.nonce = nonce;
        builder
    }

    /// Sets the sender, or takes it away.
    pub fn with_from(self, from: Option<Address>) -> (builder: TransactionBuilder)
        ensures
            builder@ == (TransactionView { from, ..self@ }),
    {
        let mut builder = self;
        builder.from = from;
        builder
    }

    /// Sets the recipient.
    pub fn with_to(self, to: TxKind) -> (builder: TransactionBuilder)
        ensures
            builder@ == (TransactionView { to, ..self@ }),
    {
        let mut builder = self;
        builder.to = to;
        builder
    }

    /// Sets the value.
    pub fn with_value(self, value: U256) -> (builder: TransactionBuilder)
        ensures
            builder@ == (TransactionView { value, ..self@ }),
    {
        let mut builder = self;
        builder.value = value;
        builder
    }

    /// Sets the gas limit, or takes it away.
    pub fn with_gas_limit(self, gas_limit: Option<Gas>) -> (builder: TransactionBuilder)
        ensures
            builder@ == (TransactionView { gas_limit, ..self@ }),
    {
        let mut builder = self;
        builder.gas_limit = gas_limit;
        builder
    }

    /// Sets the payload.
    pub fn input(self, input: Vec<u8>) -> (builder: TransactionBuilder)
        ensures
            builder@ == (TransactionView { input: input@, ..self@ }),
    {
        let mut builder = self;
        builder.input = input;
        builder
    }

    /// The transaction with the fields as they were set. It never fails.
    pub fn build(self) -> (result: Result<Transaction, Error>)
        ensures
            result matches Ok(tx) && tx@ == self@,
    {
        Ok(
            Transaction {
                nonce: self.nonce,
                from: self.from,
                to: self.to,
                value: self.value,
                gas_limit: self.gas_limit,
                input: self.input,
            },
        )
    }
}

} // verus!
