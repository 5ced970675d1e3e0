use vstd::prelude::*;

use crate::decimal_text::{decimal_text, text_between};

use crate::models::gas::Gas;
use crate::models::transaction_kind::TransactionKind;

verus! {

/// Gas usage classification for a transaction.
///
/// None of the variants guarantees that the true cost equals the stated
/// value or lies within the stated range.
#[derive(Debug, Clone, Copy, PartialEq, Eq, Structural, Hash)]
pub enum GasUsage {
    /// The gas usage of the transaction is known exactly.
    Exact {
        /// Kind of transaction, identified from its fields.
        kind: TransactionKind,
        /// The exact amount of gas used by the transaction.
        gas: Gas,
    },
    /// A single best-effort value.
    Estimate {
        /// Kind of transaction, identified from its fields.
        kind: TransactionKind,
        /// Estimated gas usage.
        gas: Gas,
    },
    /// A value estimated to lie within a range.
    EstimateWithRange {
        /// Kind of transaction, identified from its fields.
        kind: TransactionKind,
        /// Low bound estimate.
        low: Gas,
        /// High bound estimate.
        high: Gas,
    },
}

impl GasUsage {
    /// The transaction kind that the usage was computed for.
    pub open spec fn spec_transaction_kind(self) -> TransactionKind {
        match self {
            GasUsage::Exact { kind, .. } => kind,
            GasUsage::Estimate { kind, .. } => kind,
            GasUsage::EstimateWithRange { kind, .. } => kind,
        }
    }

    /// Returns the transaction kind.
    pub fn transaction_kind(&self) -> (kind: &TransactionKind)
        ensures
            *kind == self.spec_transaction_kind(),
    {
        match self {
            GasUsage::Estimate { kind, .. } => kind,
            GasUsage::EstimateWithRange { kind, .. } => kind,
            GasUsage::Exact { kind, .. } => kind,
        }
    }

    /// The usage as a text: `exact(21000)`, `estimate(54321)` or
    /// `estimate_with_range(43210 - 54321)`.
    pub open spec fn spec_to_string(self) -> Seq<char> {
        match self {
            GasUsage::Exact { gas, .. } => "exact("@ + decimal_text(gas.0 as nat) + ")"@,
            GasUsage::Estimate { gas, .. } => "estimate("@ + decimal_text(gas.0 as nat) + ")"@,
            GasUsage::EstimateWithRange { low, high, .. } => "estimate_with_range("@ + (decimal_text(
                low.0 as nat,
            ) + " - "@ + decimal_text(high.0 as nat)) + ")"@,
        }
    }

    /// The usage as a text.
    pub fn to_string(&self) -> (text: String)
        ensures
            text@ == self.spec_to_string(),
    {
        match self {
            GasUsage::Exact { gas, .. } => text_between("exact(", gas.to_string().as_str(), ")"),
            GasUsage::Estimate { gas, .. } => text_between("estimate(", gas.to_string().as_str(), ")"),
            GasUsage::EstimateWithRange { low, high, .. } => {
                let range = text_between(low.to_string().as_str(), " - ", high.to_string().as_str());
                text_between("estimate_with_range(", range.as_str(), ")")
            },
        }
    }

    /// Whether the usage is exact.
    pub fn is_exact(&self) -> (r: bool)
        ensures
            r == (*self is Exact),
    {
        match self {
            GasUsage::Exact { .. } => true,
            _ => false,
        }
    }

    /// Whether the usage is a single estimate.
    pub fn is_estimate(&self) -> (r: bool)
        ensures
            r == (*self is Estimate),
    {
        match self {
            GasUsage::Estimate { .. } => true,
            _ => false,
        }
    }

    /// Whether the usage is an estimated range.
    pub fn is_estimate_with_range(&self) -> (r: bool)
        ensures
            r == (*self is EstimateWithRange),
    {
        match self {
            GasUsage::EstimateWithRange { .. } => true,
            _ => false,
        }
    }
}

} // verus!
