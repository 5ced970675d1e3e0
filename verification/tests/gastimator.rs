use gastimator::{
    Cache, Error, Gas, GasUsage, Gastimator, LocalTxSimulator, RemoteGasEstimator, Transaction,
    TransactionBuilder, TransactionKind, TxKind,
};
use gastimator::{Address, Dependencies, U256};
use std::cell::Cell;
use std::time::Instant;

struct FailLocal;

impl LocalTxSimulator for FailLocal {
    fn locally_simulate_tx(&self, _: &Transaction) -> Result<Gas, Error> {
        Err(Error::LocalSimulationFailed("Hardcoded failure".to_owned()))
    }
}

struct LocalTxSimulatorHardCoded(Gas);

impl LocalTxSimulator for LocalTxSimulatorHardCoded {
    fn locally_simulate_tx(&self, _: &Transaction) -> Result<Gas, Error> {
        Ok(self.0)
    }
}

struct LocalLimitExceeded;

impl LocalTxSimulator for LocalLimitExceeded {
    fn locally_simulate_tx(&self, _: &Transaction) -> Result<Gas, Error> {
        Err(Error::GasExceedsLimit {
            estimated_cost: Some(Gas::from(24648)),
            gas_limit: Gas::from(123),
        })
    }
}

struct FailRemote;

impl RemoteGasEstimator for FailRemote {
    fn estimate_gas(&self, _: &Transaction) -> Result<Gas, Error> {
        Err(Error::RemoteGasEstimateFailed(
            "Hardcoded failure".to_owned(),
        ))
    }
}

struct RemoteHardcoded(Gas);

impl RemoteGasEstimator for RemoteHardcoded {
    fn estimate_gas(&self, _: &Transaction) -> Result<Gas, Error> {
        Ok(self.0)
    }
}

struct RemoteLimitExceeded;

impl RemoteGasEstimator for RemoteLimitExceeded {
    fn estimate_gas(&self, _: &Transaction) -> Result<Gas, Error> {
        Err(Error::GasExceedsLimit {
            estimated_cost: None,
            gas_limit: Gas::from(123),
        })
    }
}

struct CountingLocal<'a>(Gas, &'a Cell<u32>);

impl LocalTxSimulator for CountingLocal<'_> {
    fn locally_simulate_tx(&self, _: &Transaction) -> Result<Gas, Error> {
        self.1.set(self.1.get() + 1);
        Ok(Gas::from(self.0 .0 + u64::from(self.1.get())))
    }
}

struct CountingRemote<'a>(Gas, &'a Cell<u32>);

impl RemoteGasEstimator for CountingRemote<'_> {
    fn estimate_gas(&self, _: &Transaction) -> Result<Gas, Error> {
        self.1.set(self.1.get() + 1);
        Ok(Gas::from(self.0 .0 + u64::from(self.1.get())))
    }
}

fn cacheable_creation() -> Transaction {
    TransactionBuilder::default()
        .nonce(7)
        .from(Address::from([0x34; 20]))
        .to(TxKind::Create)
        .input(vec![0xab; 4])
        .build()
        .unwrap()
}

#[test]
fn gastimator_fail() {
    let mut sut = Gastimator::with_dependencies(FailLocal, FailRemote);
    let res = sut.estimate_gas(Transaction::default());

    assert!(res.is_err());
}

#[test]
fn both_fail_gives_the_coarse_error() {
    let mut sut = Gastimator::with_dependencies(FailLocal, FailRemote);
    let res = sut.estimate_gas(Transaction::sample_contract_creation());
    assert_eq!(res.err(), Some(Error::FailedToCalculateGasEstimate));
    let mut sut = Gastimator::with_dependencies(FailLocal, FailRemote);
    let res = sut.estimate_gas_canonical(Transaction::sample_contract_creation());
    assert_eq!(res.err(), Some(Error::FailedToCalculateGasEstimate));
    let mut sut = Gastimator::with_dependencies(FailLocal, RemoteLimitExceeded);
    let res = sut.estimate_gas(Transaction::sample_contract_creation());
    assert_eq!(res.err(), Some(Error::FailedToCalculateGasEstimate));
}

#[test]
fn local_limit_exceeded_wins_over_remote_failure() {
    let expected = Some(Error::GasExceedsLimit {
        estimated_cost: Some(Gas::from(24648)),
        gas_limit: Gas::from(123),
    });
    let mut sut = Gastimator::with_dependencies(LocalLimitExceeded, FailRemote);
    let res = sut.estimate_gas(Transaction::sample_contract_creation_gas_limit(Gas::from(123)));
    assert_eq!(res.err(), expected);
    let mut sut = Gastimator::with_dependencies(LocalLimitExceeded, RemoteLimitExceeded);
    let res = sut.estimate_gas(Transaction::sample_contract_creation_gas_limit(Gas::from(123)));
    assert_eq!(res.err(), expected);
    let mut sut = Gastimator::with_dependencies(LocalLimitExceeded, FailRemote);
    let res =
        sut.estimate_gas_canonical(Transaction::sample_contract_creation_gas_limit(Gas::from(123)));
    assert_eq!(res.err(), expected);
}

#[test]
fn local_limit_exceeded_but_remote_ok_gives_the_remote_estimate() {
    let mut sut = Gastimator::with_dependencies(LocalLimitExceeded, RemoteHardcoded(Gas::from(100)));
    let res = sut.estimate_gas(Transaction::sample_contract_creation_gas_limit(Gas::from(123)));
    assert_eq!(
        res.unwrap().gas_usage(),
        &GasUsage::Estimate {
            kind: TransactionKind::ContractCreation,
            gas: Gas::from(100),
        }
    );
}

#[test]
fn gastimator_remote_fail_local_ok() {
    let local_estimate = Gas::from(60000);
    let mut sut =
        Gastimator::with_dependencies(LocalTxSimulatorHardCoded(local_estimate), FailRemote);
    let res = sut.estimate_gas(Transaction::sample_contract_creation());

    let expected = &GasUsage::Estimate {
        kind: TransactionKind::ContractCreation,
        gas: local_estimate,
    };
    assert_eq!(res.unwrap().gas_usage(), expected);
}

#[test]
fn gastimator_remote_ok_local_fail() {
    let remote_estimate = Gas::from(60000);
    let mut sut = Gastimator::with_dependencies(FailLocal, RemoteHardcoded(remote_estimate));
    let res = sut.estimate_gas(Transaction::sample_contract_creation());

    let expected = &GasUsage::Estimate {
        kind: TransactionKind::ContractCreation,
        gas: remote_estimate,
    };
    assert_eq!(res.unwrap().gas_usage(), expected);
}

#[test]
fn gastimator_remote_ok_local_fail_with_limit() {
    let limit = Gas::from(10000);
    let remote_estimate = Gas::from(60000);
    let mut sut = Gastimator::with_dependencies(FailLocal, RemoteHardcoded(remote_estimate));
    let res = sut.estimate_gas(Transaction::sample_native_token_transfer_gas_limit(limit));

    assert_eq!(
        res.err(),
        Some(Error::GasExceedsLimit {
            estimated_cost: Some(Gas::exact_native_token_transfer()), // not `remote_estimate`
            gas_limit: limit,
        })
    );
}

#[test]
fn single_estimate_is_capped_by_the_limit() {
    let limit = Gas::from(10000);
    let mut sut = Gastimator::with_dependencies(FailLocal, RemoteHardcoded(Gas::from(60000)));
    let res = sut.estimate_gas(Transaction::sample_contract_creation_gas_limit(limit));
    assert_eq!(
        res.unwrap().gas_usage(),
        &GasUsage::Estimate {
            kind: TransactionKind::ContractCreation,
            gas: limit,
        }
    );
    let mut sut =
        Gastimator::with_dependencies(LocalTxSimulatorHardCoded(Gas::from(60000)), FailRemote);
    let res = sut.estimate_gas_canonical(Transaction::sample_contract_creation_gas_limit(limit));
    assert_eq!(
        res.unwrap().gas_usage(),
        &GasUsage::Estimate {
            kind: TransactionKind::ContractCreation,
            gas: limit,
        }
    );
}

#[test]
fn gastimator_both_ok_gives_range() {
    let local_estimate = Gas::from(40000);
    let remote_estimate = Gas::from(60000);
    let mut sut = Gastimator::with_dependencies(
        LocalTxSimulatorHardCoded(local_estimate),
        RemoteHardcoded(remote_estimate),
    );
    let res = sut.estimate_gas(Transaction::sample_contract_creation());

    let expected = &GasUsage::EstimateWithRange {
        kind: TransactionKind::ContractCreation,
        low: local_estimate,
        high: remote_estimate,
    };
    assert_eq!(res.unwrap().gas_usage(), expected);
}

#[test]
fn gastimator_both_ok_gives_range_with_limit() {
    let local_estimate = Gas::from(40000);
    let remote_estimate = Gas::from(60000);
    let limit = Gas::from(50000);
    let mut sut = Gastimator::with_dependencies(
        LocalTxSimulatorHardCoded(local_estimate),
        RemoteHardcoded(remote_estimate),
    );
    let res = sut.estimate_gas(Transaction::sample_contract_creation_gas_limit(limit));

    let expected = &GasUsage::EstimateWithRange {
        kind: TransactionKind::ContractCreation,
        low: local_estimate,
        high: limit, // not remote_estimate
    };
    assert_eq!(res.unwrap().gas_usage(), expected);
}

#[test]
fn range_is_ordered_and_its_low_end_is_never_capped() {
    let mut sut = Gastimator::with_dependencies(
        LocalTxSimulatorHardCoded(Gas::from(60000)),
        RemoteHardcoded(Gas::from(40000)),
    );
    let res = sut.estimate_gas_canonical(Transaction::sample_contract_creation());
    assert_eq!(
        res.unwrap().gas_usage(),
        &GasUsage::EstimateWithRange {
            kind: TransactionKind::ContractCreation,
            low: Gas::from(40000),
            high: Gas::from(60000),
        }
    );
    let mut sut = Gastimator::with_dependencies(
        LocalTxSimulatorHardCoded(Gas::from(60000)),
        RemoteHardcoded(Gas::from(40000)),
    );
    let res = sut.estimate_gas(Transaction::sample_contract_creation_gas_limit(Gas::from(100)));
    assert_eq!(
        res.unwrap().gas_usage(),
        &GasUsage::EstimateWithRange {
            kind: TransactionKind::ContractCreation,
            low: Gas::from(40000),
            high: Gas::from(100),
        }
    );
}

#[test]
fn native_token_transfer_is_exact() {
    let exact = GasUsage::Exact {
        kind: TransactionKind::NativeTokenTransfer,
        gas: Gas::from(21_000),
    };
    for tx in [
        Transaction::sample_native_token_transfer(),
        Transaction::sample_native_token_transfer_gas_limit(Gas::from(21_000)),
        Transaction::sample_native_token_transfer_gas_limit(Gas::from(u64::MAX)),
        Transaction::sample_native_token_transfer_cachable(),
    ] {
        let mut sut = Gastimator::with_dependencies(FailLocal, FailRemote);
        assert_eq!(sut.estimate_gas(tx.clone()).unwrap().gas_usage(), &exact);
        assert_eq!(sut.estimate_gas_canonical(tx).unwrap().gas_usage(), &exact);
    }
}

#[test]
fn native_token_transfer_limit_too_low() {
    for limit in [1, 20_999] {
        let gas_limit = Gas::from(limit);
        let expected = Some(Error::GasExceedsLimit {
            estimated_cost: Some(Gas::from(21000)),
            gas_limit,
        });
        let tx = Transaction::sample_native_token_transfer_gas_limit(gas_limit);
        let mut sut = Gastimator::with_dependencies(
            LocalTxSimulatorHardCoded(Gas::from(5)),
            RemoteHardcoded(Gas::from(5)),
        );
        assert_eq!(sut.estimate_gas(tx.clone()).err(), expected);
        assert_eq!(sut.estimate_gas_canonical(tx.clone()).err(), expected);
        let start = Instant::now();
        assert_eq!(sut.check_native_transfer(&tx, start).err(), expected);
    }
}

#[test]
fn second_estimate_of_a_cacheable_transaction_is_the_same() {
    let calls = Cell::new(0);
    let mut sut = Gastimator::with_dependencies(
        CountingLocal(Gas::from(40000), &calls),
        CountingRemote(Gas::from(60000), &calls),
    );
    let tx = cacheable_creation();
    let first = sut.estimate_gas(tx.clone()).unwrap();
    assert_eq!(calls.get(), 2);
    let second = sut.estimate_gas(tx.clone()).unwrap();
    assert_eq!(second.gas_usage(), first.gas_usage());
    assert_eq!(calls.get(), 2);
    let third = sut.estimate_gas_canonical(tx).unwrap();
    assert_eq!(third.gas_usage(), first.gas_usage());
    assert_eq!(calls.get(), 2);
    assert_eq!(
        first.gas_usage(),
        &GasUsage::EstimateWithRange {
            kind: TransactionKind::ContractCreation,
            low: Gas::from(40001),
            high: Gas::from(60002),
        }
    );
}

#[test]
fn not_cacheable_transaction_asks_the_providers_again() {
    let calls = Cell::new(0);
    let mut sut = Gastimator::with_dependencies(
        CountingLocal(Gas::from(40000), &calls),
        CountingRemote(Gas::from(60000), &calls),
    );
    let tx = Transaction::sample_contract_creation();
    let first = sut.estimate_gas(tx.clone()).unwrap();
    let second = sut.estimate_gas(tx.clone()).unwrap();
    assert_eq!(calls.get(), 4);
    assert_ne!(second.gas_usage(), first.gas_usage());
    let start = Instant::now();
    assert!(sut.use_cached_value_if_able(&tx, start).unwrap().is_none());
}

#[test]
fn failure_is_not_cached() {
    let mut sut = Gastimator::with_dependencies(FailLocal, FailRemote);
    let tx = cacheable_creation();
    assert!(sut.estimate_gas(tx.clone()).is_err());
    let start = Instant::now();
    assert!(sut.use_cached_value_if_able(&tx, start).unwrap().is_none());
}

#[test]
fn native_transfer_is_never_cached() {
    let mut sut = Gastimator::with_dependencies(FailLocal, FailRemote);
    let tx = Transaction::sample_native_token_transfer_cachable();
    assert!(sut.estimate_gas(tx.clone()).is_ok());
    let start = Instant::now();
    assert!(sut.use_cached_value_if_able(&tx, start).unwrap().is_none());
}

#[test]
fn steps_of_the_estimate() {
    let mut sut = Gastimator::with(Dependencies::new(FailLocal, FailRemote));
    let tx = cacheable_creation();
    let start = Instant::now();
    assert!(sut.check_native_transfer(&tx, start).unwrap().is_none());
    assert!(sut.use_cached_value_if_able(&tx, start).unwrap().is_none());
    let (local, remote) = sut.compute_estimates(&tx);
    assert!(local.is_err() && remote.is_err());
    let response = sut
        .build_response(tx.clone(), Ok(Gas::from(3)), Ok(Gas::from(2)), start)
        .unwrap();
    let expected = GasUsage::EstimateWithRange {
        kind: TransactionKind::ContractCreation,
        low: Gas::from(2),
        high: Gas::from(3),
    };
    assert_eq!(response.gas_usage(), &expected);
    let cached = sut.use_cached_value_if_able(&tx, start).unwrap().unwrap();
    assert_eq!(cached.gas_usage(), &expected);
    let raw = Gastimator::<Dependencies<FailLocal, FailRemote>>::build_response_raw(expected, start);
    assert_eq!(raw.gas_usage(), &expected);
}

#[test]
fn cache_put_is_a_no_op_unless_cacheable() {
    let usage = GasUsage::Estimate {
        kind: TransactionKind::ContractCreation,
        gas: Gas::from(9),
    };
    let mut cache = Cache::new();
    let plain = Transaction::sample_contract_creation();
    cache.put(plain.clone(), usage);
    assert_eq!(cache.get(&plain), None);
    let keyed = cacheable_creation();
    assert_eq!(cache.get(&keyed), None);
    cache.put(keyed.clone(), usage);
    assert_eq!(cache.get(&keyed), Some(usage));
    let other = GasUsage::Estimate {
        kind: TransactionKind::ContractCreation,
        gas: Gas::from(10),
    };
    cache.put(keyed.clone(), other);
    assert_eq!(cache.get(&keyed), Some(other));
    let mut different = keyed.clone();
    different.set_gas_limit(Some(Gas::from(1)));
    assert_eq!(cache.get(&different), None);
    assert_eq!(Cache::default().get(&keyed), None);
    let _ = U256::zero();
}
