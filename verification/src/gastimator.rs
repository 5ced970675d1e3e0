use vstd::prelude::*;

use crate::app_state::{
    cached_usage, entries_after_put, no_entries, only_cacheable_keys, AppState, GasEstimateResponse,
};
use crate::local_gas_estimator::LocalTxSimulator;
use crate::models::error::Error;
use crate::models::gas::Gas;
use crate::models::gas_usage::GasUsage;
use crate::models::transaction::{Transaction, TransactionView};
use crate::models::transaction_kind::TransactionKind;
use crate::remote_gas_estimator::RemoteGasEstimator;
use std::time::Instant;

verus! {

/// `std::time::Instant`, a reading of the clock. The verifier sees
/// nothing inside it.
#[verifier::external_type_specification]
#[verifier::external_body]
pub struct ExInstant(Instant);

/// `Instant::elapsed`, in whole milliseconds. The result depends on the
/// clock: nothing is claimed of it.
#[verifier::external_body]
fn elapsed_millis(start: Instant) -> (millis: u128) {
    start.elapsed().as_millis()
}

/// `Instant::now`. Nothing is claimed of the result.
#[verifier::external_body]
fn instant_now() -> (now: Instant) {
    Instant::now()
}

/// The smaller of two amounts of gas.
pub open spec fn min_gas(a: Gas, b: Gas) -> Gas {
    if a.0 <= b.0 {
        a
    } else {
        b
    }
}

/// The larger of two amounts of gas.
pub open spec fn max_gas(a: Gas, b: Gas) -> Gas {
    if a.0 >= b.0 {
        a
    } else {
        b
    }
}

/// The fixed cost of a transfer of native token.
pub open spec fn native_transfer_cost() -> Gas {
    Gas(21_000)
}

/// The answer for a transaction that needs no estimate: a native token
/// transfer costs a fixed amount, which either fits under the effective
/// gas limit or exceeds it. `None` for every other kind of transaction.
pub open spec fn native_transfer_outcome(tx: TransactionView) -> Option<Result<GasUsage, Error>> {
    if tx.kind() is NativeTokenTransfer {
        if tx.gas_limit_else_max().0 >= native_transfer_cost().0 {
            Some(Ok(GasUsage::Exact { kind: tx.kind(), gas: native_transfer_cost() }))
        } else {
            Some(
                Err(
                    Error::GasExceedsLimit {
                        estimated_cost: Some(native_transfer_cost()),
                        gas_limit: tx.gas_limit_else_max(),
                    },
                ),
            )
        }
    } else {
        None
    }
}

/// The merge policy: one answer from the outcomes of the local simulation
/// and of the remote estimate.
///
/// - Both failed, the local one because the limit is exceeded: that local
///   error, unchanged.
/// - Both failed otherwise: a coarse failure.
/// - One succeeded: its value, capped by the effective gas limit.
/// - Both succeeded: the range from the smaller to the larger value, the
///   upper end capped by the effective gas limit, the lower end not.
pub open spec fn merged_usage(
    tx: TransactionView,
    local: Result<Gas, Error>,
    remote: Result<Gas, Error>,
) -> Result<GasUsage, Error> {
    let limit = tx.gas_limit_else_max();
    let kind = tx.kind();
    match (local, remote) {
        (Err(Error::GasExceedsLimit { estimated_cost, gas_limit }), Err(_)) => Err(
            Error::GasExceedsLimit { estimated_cost, gas_limit },
        ),
        (Err(_), Err(_)) => Err(Error::FailedToCalculateGasEstimate),
        (Err(_), Ok(remote_gas)) => Ok(GasUsage::Estimate { kind, gas: min_gas(remote_gas, limit) }),
        (Ok(local_gas), Err(_)) => Ok(GasUsage::Estimate { kind, gas: min_gas(local_gas, limit) }),
        (Ok(local_gas), Ok(remote_gas)) => Ok(
            GasUsage::EstimateWithRange {
                kind,
                low: min_gas(local_gas, remote_gas),
                high: min_gas(max_gas(local_gas, remote_gas), limit),
            },
        ),
    }
}

/// Whether the two providers have to be consulted for a transaction: it is
/// no native token transfer, and the cache has no answer for it.
pub open spec fn needs_providers(entries: Map<TransactionView, GasUsage>, tx: TransactionView) -> bool {
    native_transfer_outcome(tx) is None && cached_usage(entries, tx) is None
}

/// The estimate for a transaction, and the cache after it, given the cache
/// before it and what the two providers return if they are consulted.
///
/// A native token transfer is answered at once and never cached. A cache
/// hit is answered from the cache, which stays as it is. Otherwise the two
/// outcomes are merged, and a merged usage is put in the cache.
pub open spec fn reconciled(
    entries: Map<TransactionView, GasUsage>,
    tx: TransactionView,
    local: Result<Gas, Error>,
    remote: Result<Gas, Error>,
) -> (Result<GasUsage, Error>, Map<TransactionView, GasUsage>) {
    match native_transfer_outcome(tx) {
        Some(outcome) => (outcome, entries),
        None => match cached_usage(entries, tx) {
            Some(usage) => (Ok(usage), entries),
            None => match merged_usage(tx, local, remote) {
                Ok(usage) => (Ok(usage), entries_after_put(entries, tx, usage)),
                Err(e) => (Err(e), entries),
            },
        },
    }
}

/// A native token transfer whose effective gas limit covers the fixed cost
/// is answered with exactly that cost, whatever the cache holds and the
/// providers would return.
pub proof fn lemma_native_transfer_is_exact(
    entries: Map<TransactionView, GasUsage>,
    tx: TransactionView,
    local: Result<Gas, Error>,
    remote: Result<Gas, Error>,
)
    requires
        tx.kind() is NativeTokenTransfer,
        tx.gas_limit matches Some(limit) ==> limit.0 >= 21_000,
    ensures
        reconciled(entries, tx, local, remote).0 == Ok::<GasUsage, Error>(
            GasUsage::Exact { kind: TransactionKind::NativeTokenTransfer, gas: Gas(21_000) },
        ),
        reconciled(entries, tx, local, remote).1 == entries,
{
}

/// A native token transfer whose declared gas limit is below the fixed
/// cost is refused with that cost and that limit, whatever the cache holds
/// and the providers would return.
pub proof fn lemma_native_transfer_under_limit_fails(
    entries: Map<TransactionView, GasUsage>,
    tx: TransactionView,
    local: Result<Gas, Error>,
    remote: Result<Gas, Error>,
)
    requires
        tx.kind() is NativeTokenTransfer,
        tx.gas_limit matches Some(limit) && limit.0 < 21_000,
    ensures
        reconciled(entries, tx, local, remote).0 == Err::<GasUsage, Error>(
            Error::GasExceedsLimit {
                estimated_cost: Some(Gas(21_000)),
                gas_limit: tx.gas_limit.unwrap(),
            },
        ),
        reconciled(entries, tx, local, remote).1 == entries,
{
}

/// Idempotence: once a cacheable transaction has been answered with a
/// usage, a second estimate of it gives the same usage, needs no provider
/// and leaves the cache as it is, whatever the providers would return the
/// second time.
pub proof fn lemma_second_estimate_is_the_same(
    entries: Map<TransactionView, GasUsage>,
    tx: TransactionView,
    first_local: Result<Gas, Error>,
    first_remote: Result<Gas, Error>,
    second_local: Result<Gas, Error>,
    second_remote: Result<Gas, Error>,
)
    requires
        tx.is_cacheable(),
        reconciled(entries, tx, first_local, first_remote).0 is Ok,
    ensures
        ({
            let first = reconciled(entries, tx, first_local, first_remote);
            let second = reconciled(first.1, tx, second_local, second_remote);
            &&& second.0 == first.0
            &&& second.1 == first.1
            &&& !needs_providers(first.1, tx)
        }),
{
}

/// Where the providers are not needed, the answer and the cache do not
/// depend on what they would return.
pub proof fn lemma_answer_without_providers(
    entries: Map<TransactionView, GasUsage>,
    tx: TransactionView,
    local: Result<Gas, Error>,
    remote: Result<Gas, Error>,
    other_local: Result<Gas, Error>,
    other_remote: Result<Gas, Error>,
)
    requires
        !needs_providers(entries, tx),
    ensures
        reconciled(entries, tx, local, remote) == reconciled(entries, tx, other_local, other_remote),
        reconciled(entries, tx, local, remote).1 == entries,
{
}

/// A transaction that is not cacheable neither populates the cache nor
/// consults it: the cache stays as it is, and the answer is the one that
/// any other cache would have given.
pub proof fn lemma_not_cacheable_ignores_cache(
    entries: Map<TransactionView, GasUsage>,
    other_entries: Map<TransactionView, GasUsage>,
    tx: TransactionView,
    local: Result<Gas, Error>,
    remote: Result<Gas, Error>,
)
    requires
        !tx.is_cacheable(),
    ensures
        reconciled(entries, tx, local, remote).1 == entries,
        reconciled(entries, tx, local, remote).0 == reconciled(other_entries, tx, local, remote).0,
{
}

/// A merged usage is never exact, carries the transaction's kind, and
/// reports no value above the effective gas limit but the lower end of a
/// range, which is never capped.
pub proof fn lemma_merged_usage_respects_limit(
    tx: TransactionView,
    local: Result<Gas, Error>,
    remote: Result<Gas, Error>,
)
    ensures
        match merged_usage(tx, local, remote) {
            Ok(GasUsage::Exact { .. }) => false,
            Ok(GasUsage::Estimate { kind, gas }) => kind == tx.kind() && gas.0 <= tx.gas_limit_else_max().0,
            Ok(GasUsage::EstimateWithRange { kind, low, high }) => {
                &&& kind == tx.kind()
                &&& high.0 <= tx.gas_limit_else_max().0
                &&& local is Ok && remote is Ok
                &&& low == min_gas(local->Ok_0, remote->Ok_0)
            },
            Err(Error::GasExceedsLimit { .. }) => local is Err && remote is Err && Err::<GasUsage, Error>(local->Err_0)
                == merged_usage(tx, local, remote),
            Err(e) => local is Err && remote is Err && e == Error::FailedToCalculateGasEstimate,
        },
{
}

/// Whether no entry of a cache is an exact usage.
pub open spec fn holds_no_exact_usage(entries: Map<TransactionView, GasUsage>) -> bool {
    forall|tx: TransactionView| #[trigger] entries.contains_key(tx) ==> !(entries[tx] is Exact)
}

/// An exact usage is only ever given to a native token transfer, with the
/// fixed cost, and it is never cached: a cache without exact usages still
/// has none after an estimate, and a native token transfer leaves the
/// cache as it is.
pub proof fn lemma_exact_only_for_native_transfer(
    entries: Map<TransactionView, GasUsage>,
    tx: TransactionView,
    local: Result<Gas, Error>,
    remote: Result<Gas, Error>,
)
    requires
        holds_no_exact_usage(entries),
    ensures
        reconciled(entries, tx, local, remote).0 matches Ok(GasUsage::Exact { kind, gas }) ==> {
            &&& tx.kind() is NativeTokenTransfer
            &&& kind is NativeTokenTransfer
            &&& gas == native_transfer_cost()
        },
        tx.kind() is NativeTokenTransfer ==> reconciled(entries, tx, local, remote).1 == entries,
        holds_no_exact_usage(reconciled(entries, tx, local, remote).1),
        holds_no_exact_usage(no_entries()),
{
}

/// An estimate never leaves a transaction in the cache that is not
/// cacheable: a cache that holds only cacheable transactions still does so
/// afterwards.
pub proof fn lemma_estimate_keeps_only_cacheable_keys(
    entries: Map<TransactionView, GasUsage>,
    tx: TransactionView,
    local: Result<Gas, Error>,
    remote: Result<Gas, Error>,
)
    requires
        only_cacheable_keys(entries),
    ensures
        only_cacheable_keys(reconciled(entries, tx, local, remote).1),
{
}

/// The usage that a response carries, or the error in its place.
pub open spec fn usage_of(result: Result<GasEstimateResponse, Error>) -> Result<GasUsage, Error> {
    match result {
        Ok(response) => Ok(response.spec_gas_usage()),
        Err(e) => Err(e),
    }
}

/// The usage that an optional response carries.
pub open spec fn usage_of_step(result: Result<Option<GasEstimateResponse>, Error>) -> Option<
    Result<GasUsage, Error>,
> {
    match result {
        Ok(Some(response)) => Some(Ok(response.spec_gas_usage())),
        Ok(None) => None,
        Err(e) => Some(Err(e)),
    }
}

/// The providers that an estimator consults.
pub trait GastimatorDependencies {
    type Local: LocalTxSimulator;

    type Remote: RemoteGasEstimator;

    /// The local gas estimator.
    spec fn spec_local_gas_estimator(&self) -> Self::Local;

    /// The remote gas estimator.
    spec fn spec_remote_gas_estimator(&self) -> Self::Remote;

    /// The local gas estimator.
    fn local_gas_estimator(&self) -> (local: &Self::Local)
        ensures
            *local == self.spec_local_gas_estimator(),
    ;

    /// The remote gas estimator.
    fn remote_gas_estimator(&self) -> (remote: &Self::Remote)
        ensures
            *remote == self.spec_remote_gas_estimator(),
    ;
}

/// Whether the two providers may end with these results for a
/// transaction.
pub open spec fn may_return<D: GastimatorDependencies>(
    dependencies: D,
    tx: TransactionView,
    local: Result<Gas, Error>,
    remote: Result<Gas, Error>,
) -> bool {
    &&& dependencies.spec_local_gas_estimator().may_simulate(tx, local)
    &&& dependencies.spec_remote_gas_estimator().may_estimate(tx, remote)
}

/// Dependencies of the gastimator.
pub struct Dependencies<L, R> {
    /// Local gas estimator.
    pub local_gas_estimator: L,
    /// Remote gas estimator.
    pub remote_gas_estimator: R,
}

impl<L, R> Dependencies<L, R> {
    /// The two providers as one value.
    pub fn new(local_gas_estimator: L, remote_gas_estimator: R) -> (dependencies: Self)
        ensures
            dependencies.local_gas_estimator == local_gas_estimator,
            dependencies.remote_gas_estimator == remote_gas_estimator,
    {
        Dependencies { local_gas_estimator, remote_gas_estimator }
    }
}

impl<L: LocalTxSimulator, R: RemoteGasEstimator> GastimatorDependencies for Dependencies<L, R> {
    type Local = L;

    type Remote = R;

    open spec fn spec_local_gas_estimator(&self) -> L {
        self.local_gas_estimator
    }

    open spec fn spec_remote_gas_estimator(&self) -> R {
        self.remote_gas_estimator
    }

    fn local_gas_estimator(&self) -> (local: &L) {
        &self.local_gas_estimator
    }

    fn remote_gas_estimator(&self) -> (remote: &R) {
        &self.remote_gas_estimator
    }
}

/// Estimates the gas that transactions will use, from a local simulation
/// and a remote estimate, and remembers its answers.
pub struct Gastimator<D> {
    dependencies: D,
    state: AppState,
}

impl<D> Gastimator<D> {
    /// What the cache holds.
    pub closed spec fn cache_entries(&self) -> Map<TransactionView, GasUsage> {
        self.state.cache@
    }

    /// The dependencies that the estimator was made with.
    pub closed spec fn spec_dependencies(&self) -> D {
        self.dependencies
    }

    /// Creates a new `Gastimator` with the given dependencies and an empty
    /// cache.
    pub fn with(dependencies: D) -> (gastimator: Self)
        ensures
            gastimator.cache_entries() == no_entries(),
            gastimator.spec_dependencies() == dependencies,
    {
        Gastimator { dependencies, state: AppState::default() }
    }

    /// The dependencies that the estimator was made with.
    pub fn dependencies(&self) -> (dependencies: &D)
        ensures
            *dependencies == self.spec_dependencies(),
    {
        &self.dependencies
    }

    /// If the transaction is a native token transfer, checks whether the
    /// gas limit is sufficient: the answer is the exact cost if it is, the
    /// error `GasExceedsLimit` if it is not. For every other kind of
    /// transaction there is no answer yet.
    pub fn check_native_transfer(&self, tx: &Transaction, start: Instant) -> (result: Result<
        Option<GasEstimateResponse>,
        Error,
    >)
        ensures
            usage_of_step(result) == native_transfer_outcome(tx@),
    {
        let kind = tx.kind();
        if !kind.is_native_token_transfer() {
            return Ok(None);
        }
        let exact = Gas::exact_native_token_transfer();
        let gas_limit_or_max = tx.gas_limit_else_max();
        if gas_limit_or_max.0 >= exact.0 {
            Ok(Some(Self::build_response_raw(GasUsage::Exact { kind, gas: exact }, start)))
        } else {
            Err(Error::GasExceedsLimit { estimated_cost: Some(exact), gas_limit: gas_limit_or_max })
        }
    }

    /// Answers from the cache if able: that is, if the transaction is
    /// cacheable and the cache holds a usage for it. The cache is not read
    /// for a transaction that is not cacheable.
    pub fn use_cached_value_if_able(&self, tx: &Transaction, start: Instant) -> (result: Result<
        Option<GasEstimateResponse>,
        Error,
    >)
        ensures
            result is Ok,
            usage_of_step(result) == match cached_usage(self.cache_entries(), tx@) {
                Some(usage) => Some(Ok::<GasUsage, Error>(usage)),
                None => None,
            },
    {
        if !tx.is_cacheable() {
            return Ok(None);
        }
        if let Some(cached) = self.state.cache.get(tx) {
            return Ok(Some(Self::build_response_raw(cached, start)));
        }
        Ok(None)
    }

    /// Merges the outcomes of the two providers into one answer, and puts
    /// a merged usage in the cache if the transaction is cacheable. A
    /// failure leaves the cache as it is.
    pub fn build_response(
        &mut self,
        tx: Transaction,
        local: Result<Gas, Error>,
        remote: Result<Gas, Error>,
        start: Instant,
    ) -> (result: Result<GasEstimateResponse, Error>)
        ensures
            usage_of(result) == merged_usage(tx@, local, remote),
            final(self).spec_dependencies() == old(self).spec_dependencies(),
            final(self).cache_entries() == match merged_usage(tx@, local, remote) {
                Ok(usage) => entries_after_put(old(self).cache_entries(), tx@, usage),
                Err(_) => old(self).cache_entries(),
            },
    {
        let gas_limit_or_max = tx.gas_limit_else_max();
        let kind = tx.kind();

        let merged = match (local, remote) {
            (Err(Error::GasExceedsLimit { estimated_cost, gas_limit }), Err(_)) => Err(
                Error::GasExceedsLimit { estimated_cost, gas_limit },
            ),
            (Err(_), Err(_)) => Err(Error::FailedToCalculateGasEstimate),
            (Err(_), Ok(remote)) => Ok(
                GasUsage::Estimate { kind, gas: dont_exceed_limit(remote, gas_limit_or_max) },
            ),
            (Ok(local), Err(_)) => Ok(
                GasUsage::Estimate { kind, gas: dont_exceed_limit(local, gas_limit_or_max) },
            ),
            (Ok(local), Ok(remote)) => {
                let low = dont_exceed_limit(local, remote);
                let high = dont_exceed_limit(at_least(local, remote), gas_limit_or_max);
                Ok(GasUsage::EstimateWithRange { kind, low, high })
            },
        };
        match merged {
            Ok(gas_usage) => {
                let response = Self::build_response_raw(gas_usage, start);
                if tx.is_cacheable() {
                    self.state.cache.put(tx, gas_usage);
                }
                Ok(response)
            },
            Err(e) => Err(e),
        }
    }

    /// A response with the given usage, and the time elapsed since `start`.
    pub fn build_response_raw(gas_usage: GasUsage, start: Instant) -> (response:
        GasEstimateResponse)
        ensures
            response.spec_gas_usage() == gas_usage,
    {
        GasEstimateResponse::new(gas_usage, elapsed_millis(start))
    }
}

impl<L: LocalTxSimulator, R: RemoteGasEstimator> Gastimator<Dependencies<L, R>> {
    /// Creates a new `Gastimator` with the given local and remote gas
    /// estimators and an empty cache.
    pub fn with_dependencies(local_gas_estimator: L, remote_gas_estimator: R) -> (gastimator: Self)
        ensures
            gastimator.cache_entries() == no_entries(),
            gastimator.spec_dependencies().local_gas_estimator == local_gas_estimator,
            gastimator.spec_dependencies().remote_gas_estimator == remote_gas_estimator,
    {
        Self::with(Dependencies::new(local_gas_estimator, remote_gas_estimator))
    }
}

impl<D: GastimatorDependencies> Gastimator<D> {
    /// Asks both providers for their estimate of a transaction, the local
    /// one first. Both are always asked: the merge needs both outcomes,
    /// and a failure of the first does not spare the second.
    pub fn compute_estimates(&self, tx: &Transaction) -> (estimates: (
        Result<Gas, Error>,
        Result<Gas, Error>,
    ))
        ensures
            may_return(self.spec_dependencies(), tx@, estimates.0, estimates.1),
    {
        let local = self.dependencies.local_gas_estimator().locally_simulate_tx(tx);
        let remote = self.dependencies.remote_gas_estimator().estimate_gas(tx);
        (local, remote)
    }

    /// Estimates the gas usage of `tx`.
    ///
    /// The answer and the cache afterwards are those of [`reconciled`], for
    /// the outcomes of the two providers, whatever these are. Where the
    /// providers are not needed, they are not asked, and the answer does
    /// not depend on them.
    pub fn estimate_gas(&mut self, tx: Transaction) -> (result: Result<GasEstimateResponse, Error>)
        ensures
            final(self).spec_dependencies() == old(self).spec_dependencies(),
            exists|local: Result<Gas, Error>, remote: Result<Gas, Error>|
                {
                    &&& #[trigger] reconciled(old(self).cache_entries(), tx@, local, remote) == (
                        usage_of(result),
                        final(self).cache_entries(),
                    )
                    &&& needs_providers(old(self).cache_entries(), tx@) ==> may_return(
                        old(self).spec_dependencies(),
                        tx@,
                        local,
                        remote,
                    )
                },
    {
        let start = instant_now();
        let ghost entries = self.cache_entries();
        let native = self.check_native_transfer(&tx, start);
        match native {
            Ok(Some(response)) => {
                proof {
                    let idle = Err::<Gas, Error>(Error::FailedToCalculateGasEstimate);
                    assert(reconciled(entries, tx@, idle, idle) == (
                        Ok::<GasUsage, Error>(response.spec_gas_usage()),
                        entries,
                    ));
                }
                return Ok(response);
            },
            Err(e) => {
                proof {
                    let idle = Err::<Gas, Error>(Error::FailedToCalculateGasEstimate);
                    assert(reconciled(entries, tx@, idle, idle) == (Err::<GasUsage, Error>(e), entries));
                }
                return Err(e);
            },
            Ok(None) => {},
        }
        let cached = self.use_cached_value_if_able(&tx, start);
        match cached {
            Ok(Some(response)) => {
                proof {
                    let idle = Err::<Gas, Error>(Error::FailedToCalculateGasEstimate);
                    assert(reconciled(entries, tx@, idle, idle) == (
                        Ok::<GasUsage, Error>(response.spec_gas_usage()),
                        entries,
                    ));
                }
                return Ok(response);
            },
            Err(e) => {
                return Err(e);
            },
            Ok(None) => {},
        }
        let (local, remote) = self.compute_estimates(&tx);
        let ghost tx_view = tx@;
        let result = self.build_response(tx, local, remote, start);
        proof {
            assert(reconciled(entries, tx_view, local, remote) == (usage_of(result), self.cache_entries()));
        }
        result
    }

    /// Returns an estimate of the gas used by a transaction, in one
    /// sequence: classification, the fixed cost of a native token
    /// transfer, the cache, then both providers, the merge of their
    /// outcomes and the cache write.
    pub fn estimate_gas_canonical(&mut self, tx: Transaction) -> (result: Result<
        GasEstimateResponse,
        Error,
    >)
        ensures
            final(self).spec_dependencies() == old(self).spec_dependencies(),
            exists|local: Result<Gas, Error>, remote: Result<Gas, Error>|
                {
                    &&& #[trigger] reconciled(old(self).cache_entries(), tx@, local, remote) == (
                        usage_of(result),
                        final(self).cache_entries(),
                    )
                    &&& needs_providers(old(self).cache_entries(), tx@) ==> may_return(
                        old(self).spec_dependencies(),
                        tx@,
                        local,
                        remote,
                    )
                },
    {
        let start = instant_now();
        let ghost entries = self.cache_entries();
        let ghost idle = Err::<Gas, Error>(Error::FailedToCalculateGasEstimate);
        let gas_limit = tx.gas_limit_else_max();
        let is_cacheable = tx.is_cacheable();

        let kind = tx.kind();
        if kind.is_native_token_transfer() {
            let exact = Gas::exact_native_token_transfer();
            if gas_limit.0 >= exact.0 {
                let gas_usage = GasUsage::Exact { kind, gas: exact };
                let response = GasEstimateResponse::new(gas_usage, elapsed_millis(start));
                proof {
                    assert(reconciled(entries, tx@, idle, idle) == (
                        Ok::<GasUsage, Error>(gas_usage),
                        entries,
                    ));
                }
                return Ok(response);
            } else {
                let e = Error::GasExceedsLimit { estimated_cost: Some(exact), gas_limit };
                proof {
                    assert(reconciled(entries, tx@, idle, idle) == (Err::<GasUsage, Error>(e), entries));
                }
                return Err(e);
            }
        }
        if is_cacheable {
            if let Some(cached) = self.state.cache.get(&tx) {
                let response = GasEstimateResponse::new(cached, elapsed_millis(start));
                proof {
                    assert(reconciled(entries, tx@, idle, idle) == (
                        Ok::<GasUsage, Error>(cached),
                        entries,
                    ));
                }
                return Ok(response);
            }
        }
        let (local_estimate, remote_estimate) = self.compute_estimates(&tx);

        let merged = match (local_estimate, remote_estimate) {
            (Err(Error::GasExceedsLimit { estimated_cost, gas_limit: local_gas_limit }), Err(_)) => Err(
                Error::GasExceedsLimit { estimated_cost, gas_limit: local_gas_limit },
            ),
            (Err(_), Err(_)) => Err(Error::FailedToCalculateGasEstimate),
            (Err(_), Ok(remote)) => Ok(
                GasUsage::Estimate { kind, gas: dont_exceed_limit(remote, gas_limit) },
            ),
            (Ok(local), Err(_)) => Ok(GasUsage::Estimate { kind, gas: dont_exceed_limit(local, gas_limit) }),
            (Ok(local), Ok(remote)) => {
                let low = dont_exceed_limit(local, remote);
                let high_unbound_by_limit = at_least(local, remote);
                let high = dont_exceed_limit(high_unbound_by_limit, gas_limit);
                Ok(GasUsage::EstimateWithRange { kind, low, high })
            },
        };
        proof {
            assert(merged == merged_usage(tx@, local_estimate, remote_estimate));
        }
        match merged {
            Ok(gas_usage) => {
                let ghost tx_view = tx@;
                if is_cacheable {
                    self.state.cache.put(tx, gas_usage);
                }
                let response = GasEstimateResponse::new(gas_usage, elapsed_millis(start));
                proof {
                    assert(reconciled(entries, tx_view, local_estimate, remote_estimate) == (
                        Ok::<GasUsage, Error>(gas_usage),
                        self.cache_entries(),
                    ));
                }
                Ok(response)
            },
            Err(e) => {
                proof {
                    assert(reconciled(entries, tx@, local_estimate, remote_estimate) == (
                        Err::<GasUsage, Error>(e),
                        entries,
                    ));
                }
                Err(e)
            },
        }
    }
}

/// The smaller of an amount of gas and a limit.
fn dont_exceed_limit(gas: Gas, limit: Gas) -> (capped: Gas)
    ensures
        capped == min_gas(gas, limit),
{
    if gas.0 <= limit.0 {
        gas
    } else {
        limit
    }
}

/// The larger of two amounts of gas.
fn at_least(a: Gas, b: Gas) -> (larger: Gas)
    ensures
        larger == max_gas(a, b),
{
    if a.0 >= b.0 {
        a
    } else {
        b
    }
}

} // verus!
