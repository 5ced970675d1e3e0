use vstd::prelude::*;

use crate::models::error::Error;
use crate::models::gas::Gas;
use crate::models::transaction::{Transaction, TransactionView};

verus! {

/// A source of gas estimates outside this process.
pub trait RemoteGasEstimator {
    /// Whether an estimate of the transaction may end with this result.
    /// Unless an implementation says more, any result may come.
    open spec fn may_estimate(&self, tx: TransactionView, result: Result<Gas, Error>) -> bool {
        true
    }

    /// Asks for an estimate of the gas that the transaction will use.
    fn estimate_gas(&self, tx: &Transaction) -> (result: Result<Gas, Error>)
        ensures
            self.may_estimate(tx@, result),
    ;
}

} // verus!
