use vstd::prelude::*;

use crate::models::gas_usage::GasUsage;
use crate::models::transaction::{Transaction, TransactionView};
use dashmap::DashMap;
use std::hash::RandomState;

verus! {

/// `dashmap::DashMap`, a concurrent hash map. The verifier sees nothing
/// inside it.
#[verifier::external_type_specification]
#[verifier::external_body]
#[verifier::reject_recursive_types(K)]
#[verifier::reject_recursive_types(V)]
#[verifier::reject_recursive_types(S)]
pub struct ExDashMap<K, V, S>(DashMap<K, V, S>);

/// The entries that a map from transactions to gas usages holds, each
/// transaction taken by its view.
pub uninterp spec fn cache_entries(map: DashMap<Transaction, GasUsage, RandomState>) -> Map<
    TransactionView,
    GasUsage,
>;

/// The entries of an empty cache.
pub open spec fn no_entries() -> Map<TransactionView, GasUsage> {
    Map::empty()
}

/// `DashMap::new`: the new map holds no entry.
#[verifier::external_body]
fn dashmap_new() -> (created: DashMap<Transaction, GasUsage, RandomState>)
    ensures
        cache_entries(created) == no_entries(),
{
    DashMap::new()
}

/// `DashMap::get`: the value stored under a key, copied out of the map. A
/// stored key is found by a key with the same hash that is equal to it.
/// Transactions are equal exactly when their views are, and the derived
/// `Hash` goes field by field, so that is the entry under the key's view.
#[verifier::external_body]
fn dashmap_get(map: &DashMap<Transaction, GasUsage, RandomState>, key: &Transaction) -> (value:
    Option<GasUsage>)
    ensures
        value == if cache_entries(*map).contains_key(key@) {
            Some(cache_entries(*map)[key@])
        } else {
            None::<GasUsage>
        },
{
    map.get(key).map(|entry| *entry.value())
}

/// `DashMap::insert`: the value is stored under the key, in place of the
/// one that an equal key held before, which is returned; other entries
/// stay. The map is borrowed mutably, so no other thread changes it
/// meanwhile.
#[verifier::external_body]
fn dashmap_insert(
    map: &mut DashMap<Transaction, GasUsage, RandomState>,
    key: Transaction,
    value: GasUsage,
) -> (previous: Option<GasUsage>)
    ensures
        cache_entries(*final(map)) == cache_entries(*old(map)).insert(key@, value),
        previous == if cache_entries(*old(map)).contains_key(key@) {
            Some(cache_entries(*old(map))[key@])
        } else {
            None::<GasUsage>
        },
{
    map.insert(key, value)
}

/// The entry of a cache for a transaction, as far as the cache may be
/// consulted for it: none for a transaction that is not cacheable.
pub open spec fn cached_usage(entries: Map<TransactionView, GasUsage>, tx: TransactionView) -> Option<
    GasUsage,
> {
    if tx.is_cacheable() && entries.contains_key(tx) {
        Some(entries[tx])
    } else {
        None
    }
}

/// The entries of a cache after a usage was put for a transaction: stored
/// under the transaction if it is cacheable, left as they were if not.
pub open spec fn entries_after_put(
    entries: Map<TransactionView, GasUsage>,
    tx: TransactionView,
    usage: GasUsage,
) -> Map<TransactionView, GasUsage> {
    if tx.is_cacheable() {
        entries.insert(tx, usage)
    } else {
        entries
    }
}

/// Whether every transaction that has an entry is cacheable.
pub open spec fn only_cacheable_keys(entries: Map<TransactionView, GasUsage>) -> bool {
    forall|tx: TransactionView| #[trigger] entries.contains_key(tx) ==> tx.is_cacheable()
}

/// A cache that holds only cacheable transactions still does so after a
/// put, whatever the transaction: an empty cache that is only ever written
/// by puts never holds a transaction that is not cacheable.
pub proof fn lemma_put_keeps_only_cacheable_keys(
    entries: Map<TransactionView, GasUsage>,
    tx: TransactionView,
    usage: GasUsage,
)
    requires
        only_cacheable_keys(entries),
    ensures
        only_cacheable_keys(entries_after_put(entries, tx, usage)),
        only_cacheable_keys(no_entries()),
{
}

/// A put for a transaction that is not cacheable changes nothing, and no
/// entry is ever found for such a transaction, whatever the cache holds.
pub proof fn lemma_not_cacheable_bypasses_cache(
    entries: Map<TransactionView, GasUsage>,
    tx: TransactionView,
    usage: GasUsage,
)
    requires
        !tx.is_cacheable(),
    ensures
        entries_after_put(entries, tx, usage) == entries,
        cached_usage(entries, tx) is None,
{
}

/// Memoizes the gas usage last computed for a transaction, keyed by the
/// whole transaction. There is no bound on its size and no expiry.
pub struct Cache {
    map: DashMap<Transaction, GasUsage, RandomState>,
}

impl View for Cache {
    type V = Map<TransactionView, GasUsage>;

    closed spec fn view(&self) -> Map<TransactionView, GasUsage> {
        cache_entries(self.map)
    }
}

impl Cache {
    /// An empty cache.
    pub fn new() -> (cache: Cache)
        ensures
            cache@ == no_entries(),
            only_cacheable_keys(cache@),
    {
        Cache { map: dashmap_new() }
    }

    /// The usage stored for a transaction, if any.
    pub fn get(&self, tx: &Transaction) -> (usage: Option<GasUsage>)
        ensures
            usage == if self@.contains_key(tx@) {
                Some(self@[tx@])
            } else {
                None::<GasUsage>
            },
    {
        dashmap_get(&self.map, tx)
    }

    /// Stores a usage for a transaction, in place of an earlier one. Does
    /// nothing unless the transaction is cacheable.
    pub fn put(&mut self, tx: Transaction, usage: GasUsage)
        ensures
            final(self)@ == entries_after_put(old(self)@, tx@, usage),
            only_cacheable_keys(old(self)@) ==> only_cacheable_keys(final(self)@),
    {
        if tx.is_cacheable() {
            let _ = dashmap_insert(&mut self.map, tx, usage);
        }
    }

}

impl Default for Cache {
    fn default() -> (cache: Cache)
        ensures
            cache@ == no_entries(),
    {
        Cache::new()
    }
}

/// The state that requests share.
pub struct AppState {
    pub cache: Cache,
}

impl Default for AppState {
    fn default() -> (state: AppState)
        ensures
            state.cache@ == no_entries(),
    {
        AppState { cache: Cache::new() }
    }
}

/// The answer to a request for an estimate.
#[derive(Debug, Clone, Copy)]
pub struct GasEstimateResponse {
    /// The gas used by the transaction.
    gas_usage: GasUsage,
    /// Time between the arrival of the request and the answer.
    time_elapsed_in_millis: u128,
}

impl GasEstimateResponse {
    /// A response with the given usage and elapsed time.
    pub fn new(gas_usage: GasUsage, time_elapsed_in_millis: u128) -> (response: GasEstimateResponse)
        ensures
            response.spec_gas_usage() == gas_usage,
            response.spec_time_elapsed_in_millis() == time_elapsed_in_millis,
    {
        GasEstimateResponse { gas_usage, time_elapsed_in_millis }
    }

    /// The gas usage that the response reports.
    pub closed spec fn spec_gas_usage(&self) -> GasUsage {
        self.gas_usage
    }

    /// The elapsed time that the response reports, in milliseconds.
    pub closed spec fn spec_time_elapsed_in_millis(&self) -> u128 {
        self.time_elapsed_in_millis
    }

    /// The gas used by the transaction.
    pub fn gas_usage(&self) -> (gas_usage: &GasUsage)
        ensures
            *gas_usage == self.spec_gas_usage(),
    {
        &self.gas_usage
    }

    /// Time between the arrival of the request and the answer, in
    /// milliseconds.
    pub fn time_elapsed_in_millis(&self) -> (millis: &u128)
        ensures
            *millis == self.spec_time_elapsed_in_millis(),
    {
        &self.time_elapsed_in_millis
    }
}

} // verus!
