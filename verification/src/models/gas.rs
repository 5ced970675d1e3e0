use vstd::prelude::*;
use vstd::std_specs::convert::FromSpecImpl;

use crate::decimal_text::{decimal_string, decimal_text};

verus! {

/// Cost of one zero byte of call data.
pub const CONTRACT_CALL_COST_PER_BYTE_ZERO: u64 = 4;

/// Cost of one non-zero byte of call data.
pub const CONTRACT_CALL_COST_PER_BYTE_NONZERO: u64 = 16;

/// Amount of gas used by a transaction.
#[derive(Debug, Clone, Copy, PartialEq, Eq, Structural, Hash, PartialOrd, Ord)]
pub struct Gas(pub u64);

impl From<u64> for Gas {
    fn from(amount: u64) -> (gas: Gas) {
        Gas(amount)
    }
}

impl FromSpecImpl<u64> for Gas {
    open spec fn obeys_from_spec() -> bool {
        true
    }

    open spec fn from_spec(amount: u64) -> Gas {
        Gas(amount)
    }
}

/// Cost of a single byte of call data.
pub open spec fn byte_cost(byte: u8) -> nat {
    if byte == 0 {
        CONTRACT_CALL_COST_PER_BYTE_ZERO as nat
    } else {
        CONTRACT_CALL_COST_PER_BYTE_NONZERO as nat
    }
}

/// Cost of a whole payload: the sum of the costs of its bytes.
pub open spec fn input_cost(input: Seq<u8>) -> nat
    decreases input.len(),
{
    if input.len() == 0 {
        0
    } else {
        input_cost(input.drop_last()) + byte_cost(input.last())
    }
}

/// The part of a contract call's minimum cost that does not depend on the
/// payload.
pub open spec fn call_base_cost(with_native_token_transfer: bool) -> nat {
    if with_native_token_transfer {
        2600
    } else {
        700
    }
}

/// A payload never costs less than any of its prefixes.
pub proof fn lemma_input_cost_monotonic(input: Seq<u8>, n: int)
    requires
        0 <= n <= input.len(),
    ensures
        input_cost(input.take(n)) <= input_cost(input),
    decreases input.len() - n,
{
    if n == input.len() {
        assert(input.take(n) =~= input);
    } else {
        lemma_input_cost_monotonic(input.drop_last(), n);
        assert(input.drop_last().take(n) =~= input.take(n));
    }
}

/// Every byte costs at least the zero-byte price and at most the non-zero
/// one, so a payload's cost lies between four and sixteen times its length.
pub proof fn lemma_input_cost_bounds(input: Seq<u8>)
    ensures
        4 * input.len() <= input_cost(input) <= 16 * input.len(),
    decreases input.len(),
{
    if input.len() > 0 {
        lemma_input_cost_bounds(input.drop_last());
    }
}

impl Gas {
    /// The largest representable amount, standing for "no declared limit".
    pub fn unlimited() -> (gas: Gas)
        ensures
            gas == Gas(u64::MAX),
    {
        Gas(u64::MAX)
    }

    /// The amount in decimal.
    pub fn to_string(&self) -> (text: String)
        ensures
            text@ == decimal_text(self.0 as nat),
    {
        decimal_string(self.0)
    }

    /// Fixed gas usage for a native token transfer.
    pub fn exact_native_token_transfer() -> (gas: Gas)
        ensures
            gas == Gas(21_000),
    {
        Gas(21_000)
    }

    /// Minimum gas usage for a contract creation.
    pub fn min_contract_creation() -> (gas: Gas)
        ensures
            gas == Gas(32_000),
    {
        Gas(32_000)
    }

    /// Base cost of a call into a contract.
    pub fn base_contract_call_cost() -> (gas: Gas)
        ensures
            gas == Gas(700),
    {
        Gas(700)
    }

    /// Minimum gas usage for a contract call: the base cost, raised by the
    /// stipend and the value-transfer surcharge when native token moves
    /// with the call, plus the cost of the payload.
    pub fn min_contract_call(input: &[u8], with_native_token_transfer: bool) -> (gas: Gas)
        requires
            call_base_cost(with_native_token_transfer) + input_cost(input@) <= u64::MAX,
        ensures
            gas.0 == call_base_cost(with_native_token_transfer) + input_cost(input@),
    {
        let base = if with_native_token_transfer {
            let stipend_receiving: u64 = 900;
            let non_zero_value_transfer: u64 = 1000;
            Gas(Self::base_contract_call_cost().0 + stipend_receiving + non_zero_value_transfer)
        } else {
            Self::base_contract_call_cost()
        };
        Gas(base.0 + Self::contract_call_cost_of_input(input))
    }

    /// Cost of the payload of a contract call, byte by byte.
    pub fn contract_call_cost_of_input(input: &[u8]) -> (cost: u64)
        requires
            input_cost(input@) <= u64::MAX,
        ensures
            cost == input_cost(input@),
    {
        let mut cost: u64 = 0;
        let mut i: usize = 0;
        while i < input.len()
            invariant
                i <= input.len(),
                cost == input_cost(input@.take(i as int)),
                input_cost(input@) <= u64::MAX,
            decreases input.len() - i,
        {
            proof {
                lemma_input_cost_monotonic(input@, i + 1);
                assert(input@.take(i + 1).drop_last() =~= input@.take(i as int));
            }
            if input[i] == 0 {
                cost = cost + CONTRACT_CALL_COST_PER_BYTE_ZERO;
            } else {
                cost = cost + CONTRACT_CALL_COST_PER_BYTE_NONZERO;
            }
            i = i + 1;
        }
        proof {
            assert(input@.take(i as int) =~= input@);
        }
        cost
    }
}

} // verus!
