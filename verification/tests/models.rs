use gastimator::{
    Address, Cli, Config, Error, Gas, GasUsage, RawTransaction, ServerConfig, Transaction,
    TransactionBuilder, TransactionKind, TxKind, U256,
};

#[test]
fn uint256_as_u64() {
    let u256 = U256::from(237u64);
    let u64 = u256.try_into_u64().unwrap();
    assert_eq!(u64, 237u64)
}

#[test]
fn uint256_as_u64_too_large() {
    let u256 = U256::from(u128::MAX);
    let res = u256.try_into_u64();
    assert!(res.is_err())
}

#[test]
fn uint256_as_u64_error_variant() {
    assert_eq!(
        U256::from(u128::MAX).try_into_u64(),
        Err(Error::UInt256LargerThanU64)
    );
    assert_eq!(U256::from(u64::MAX).try_into_u64(), Ok(u64::MAX));
    assert_eq!(
        U256::from_limbs([0, 0, 0, 1]).try_into_u64(),
        Err(Error::UInt256LargerThanU64)
    );
}

#[test]
fn uint256_from_hex() {
    let sut = alloy_primitives::U256::from_str_radix(&"0x5208"[2..], 16).unwrap();
    assert_eq!(sut, alloy_primitives::U256::from(21000));
    assert_eq!(U256::from_limbs(sut.into_limbs()), U256::from(21000u64));
}

#[test]
fn uint256_limbs_agree_with_the_outside_type() {
    let ours = U256::from(u128::MAX);
    let theirs = alloy_primitives::U256::from(u128::MAX);
    assert_eq!(*ours.as_limbs(), theirs.into_limbs());
    assert!(U256::zero().is_zero());
    assert!(!U256::from(1u64).is_zero());
    assert!(!U256::from_limbs([0, 0, 1, 0]).is_zero());
}

#[test]
fn call() {
    let input = RawTransaction::from_hex("de00ad00beef").unwrap().rlp;
    let cost = Gas::contract_call_cost_of_input(&input);
    assert_eq!(cost, 2 * 4 + 4 * 16);
}

#[test]
fn gas_constants() {
    assert_eq!(Gas::exact_native_token_transfer(), Gas::from(21_000));
    assert_eq!(Gas::min_contract_creation(), Gas::from(32_000));
    assert_eq!(Gas::base_contract_call_cost(), Gas::from(700));
    assert_eq!(Gas::unlimited(), Gas::from(u64::MAX));
}

#[test]
fn min_contract_call_adds_base_and_input() {
    let input = [0xde, 0x00, 0xad, 0x00, 0xbe, 0xef];
    assert_eq!(Gas::min_contract_call(&input, false), Gas::from(700 + 72));
    assert_eq!(Gas::min_contract_call(&input, true), Gas::from(2600 + 72));
    assert_eq!(Gas::min_contract_call(&[], true), Gas::from(2600));
    assert_eq!(Gas::contract_call_cost_of_input(&[]), 0);
}

#[test]
fn is_cachable() {
    assert!(Transaction::sample_native_token_transfer_cachable().is_cacheable());
    assert!(!Transaction::sample_native_token_transfer().is_cacheable());
}

#[test]
fn cacheable_needs_both_nonce_and_sender() {
    let address = Address::from([0x12; 20]);
    let only_nonce = TransactionBuilder::default().nonce(1).build().unwrap();
    let only_sender = TransactionBuilder::default().from(address).build().unwrap();
    let both = TransactionBuilder::default()
        .nonce(1)
        .from(address)
        .build()
        .unwrap();
    assert!(!only_nonce.is_cacheable());
    assert!(!only_sender.is_cacheable());
    assert!(both.is_cacheable());
    assert!(!Transaction::default().is_cacheable());
}

#[test]
fn classifier_creation_sentinel_with_empty_input_is_unknown() {
    let tx = TransactionBuilder::default().to(TxKind::Create).build().unwrap();
    assert_eq!(tx.kind(), TransactionKind::Unknown);
    let with_value = TransactionBuilder::default()
        .to(TxKind::Create)
        .value(U256::from(1u64))
        .build()
        .unwrap();
    assert_eq!(with_value.kind(), TransactionKind::Unknown);
}

#[test]
fn classifier_call_without_value() {
    let tx = TransactionBuilder::default()
        .to(Address::from([0x12; 20]))
        .value(U256::from(0u64))
        .input(vec![0xa9, 0x05, 0x9c, 0xbb])
        .build()
        .unwrap();
    assert_eq!(
        tx.kind(),
        TransactionKind::ContractCall {
            with_native_token_transfer: false
        }
    );
}

#[test]
fn classifier_other_shapes() {
    let address = Address::from([0x12; 20]);
    let call_with_value = TransactionBuilder::default()
        .to(address)
        .value(U256::from(7u64))
        .input(vec![1])
        .build()
        .unwrap();
    assert_eq!(
        call_with_value.kind(),
        TransactionKind::ContractCall {
            with_native_token_transfer: true
        }
    );
    let empty_call = TransactionBuilder::default().to(address).build().unwrap();
    assert_eq!(
        empty_call.kind(),
        TransactionKind::ContractCall {
            with_native_token_transfer: false
        }
    );
    let high_limb = TransactionBuilder::default()
        .to(address)
        .value(U256::from_limbs([0, 0, 0, 1]))
        .build()
        .unwrap();
    assert_eq!(high_limb.kind(), TransactionKind::NativeTokenTransfer);
    assert_eq!(
        Transaction::sample_native_token_transfer().kind(),
        TransactionKind::NativeTokenTransfer
    );
    assert_eq!(
        Transaction::sample_contract_creation().kind(),
        TransactionKind::ContractCreation
    );
    assert!(TransactionKind::NativeTokenTransfer.is_native_token_transfer());
    assert!(TransactionKind::ContractCreation.is_contract_creation());
    assert!(TransactionKind::Unknown.is_unknown());
    assert!(TransactionKind::ContractCall {
        with_native_token_transfer: true
    }
    .is_contract_call());
}

#[test]
fn samples_hold_what_they_say() {
    let limit = Gas::from(10000);
    let transfer = Transaction::sample_native_token_transfer_gas_limit(limit);
    assert_eq!(transfer.gas_limit(), &Some(limit));
    assert_eq!(transfer.to(), &TxKind::Call(Address::from([0x12; 20])));
    assert_eq!(transfer.value(), &U256::from(1u64));
    assert!(transfer.input().is_empty());
    assert_eq!(transfer.gas_limit_else_max(), limit);
    let no_limit = Transaction::sample_native_token_transfer_gas_limit(None);
    assert_eq!(no_limit, Transaction::sample_native_token_transfer());
    assert_eq!(no_limit.gas_limit_else_max(), Gas::from(u64::MAX));
    let creation = Transaction::sample_contract_creation_gas_limit(limit);
    assert_eq!(creation.input(), &vec![0xab; 400]);
    assert_eq!(creation.to(), &TxKind::Create);
    assert_eq!(creation.gas_limit(), &Some(limit));
    let cachable = Transaction::sample_native_token_transfer_cachable();
    assert_eq!(cachable.nonce(), &Some(1));
    assert_eq!(cachable.from(), &Some(Address::from([0x12; 20])));
}

#[test]
fn set_gas_limit_changes_only_the_limit() {
    let mut tx = Transaction::sample_contract_creation();
    let before = tx.clone();
    tx.set_gas_limit(Some(Gas::from(123)));
    assert_eq!(tx.gas_limit(), &Some(Gas::from(123)));
    assert_eq!(tx.input(), before.input());
    tx.set_gas_limit(None);
    assert_eq!(tx, before);
}

#[test]
fn gas_usage_transaction_kind() {
    let kind = TransactionKind::ContractCreation;
    let exact = GasUsage::Exact {
        kind: TransactionKind::NativeTokenTransfer,
        gas: Gas::from(21000),
    };
    let estimate = GasUsage::Estimate {
        kind,
        gas: Gas::from(54321),
    };
    let range = GasUsage::EstimateWithRange {
        kind,
        low: Gas::from(43210),
        high: Gas::from(54321),
    };
    assert_eq!(
        exact.transaction_kind(),
        &TransactionKind::NativeTokenTransfer
    );
    assert_eq!(estimate.transaction_kind(), &kind);
    assert_eq!(range.transaction_kind(), &kind);
    assert!(exact.is_exact() && estimate.is_estimate() && range.is_estimate_with_range());
}

#[test]
fn address_with_port() {
    let server = ServerConfig::new("0.0.0.0".to_owned(), 3000);
    assert_eq!(server.address_with_port(), "0.0.0.0:3000");
    assert_eq!(server.address(), "0.0.0.0");
    assert_eq!(server.port(), 3000);
    let config = Config::new(server, "key".to_owned());
    assert_eq!(config.address_with_port(), "0.0.0.0:3000");
    assert_eq!(config.alchemy_api_key(), "key");
    assert_eq!(
        ServerConfig::new("localhost".to_owned(), 0).address_with_port(),
        "localhost:0"
    );
    assert_eq!(
        ServerConfig::new("h".to_owned(), 65535).address_with_port(),
        "h:65535"
    );
}

#[test]
fn config_from_cli_prefers_the_command_line() {
    let cli = |key: Option<&str>| Cli {
        address: "0.0.0.0".to_owned(),
        port: 3000,
        alchemy_api_key: key.map(str::to_owned),
    };
    let both = Config::from_cli(cli(Some("cli")), Some("env".to_owned())).unwrap();
    assert_eq!(both.alchemy_api_key(), "cli");
    let env = Config::from_cli(cli(None), Some("env".to_owned())).unwrap();
    assert_eq!(env.alchemy_api_key(), "env");
    assert_eq!(env.server().port(), 3000);
    assert_eq!(env.server().address(), "0.0.0.0");
    let none = Config::from_cli(cli(None), None);
    assert_eq!(none.err(), Some(Error::NoAlchemyApiKey));
    let server = ServerConfig::from(cli(None));
    assert_eq!(server.address_with_port(), "0.0.0.0:3000");
}

#[test]
fn error_constructors() {
    let m = || "cause".to_owned();
    assert_eq!(
        Error::local_simulation_failed(m()),
        Error::LocalSimulationFailed(m())
    );
    assert_eq!(
        Error::remote_gas_estimate_failed(m()),
        Error::RemoteGasEstimateFailed(m())
    );
    assert_ne!(
        Error::remote_gas_estimate_failed(m()),
        Error::local_simulation_failed(m())
    );
    assert_eq!(
        Error::alchemy_read_bytes_of_response(m()),
        Error::AlchemyReadBytesOfResponse { underlying: m() }
    );
    assert_eq!(
        Error::decode_rlp_decode_bytes_into_eip1559(m()),
        Error::DecodeRlpFailedBytesIntoEip1559Tx { underlying: m() }
    );
    assert_eq!(
        Error::decode_rlp_decode_bytes_into_signed_eip1559(m()),
        Error::DecodeRlpFailedBytesIntoSignedEip1559Tx { underlying: m() }
    );
    assert_eq!(
        Error::start(m()),
        Error::UnableToStartServer { underlying: m() }
    );
    assert_eq!(Error::bind(m()), Error::UnableToBind(m()));
    assert_eq!(
        Error::get_bound_address(m()),
        Error::UnableToGetBoundAddress(m())
    );
}

#[test]
fn builder_setters_of_plain_values() {
    let address = Address::from([9; 20]);
    let tx = TransactionBuilder::new()
        .with_nonce(Some(4))
        .with_from(Some(address))
        .with_to(TxKind::Call(address))
        .with_value(U256::from(6u64))
        .with_gas_limit(Some(Gas::from(100)))
        .input(vec![1])
        .build()
        .unwrap();
    let same = TransactionBuilder::default()
        .nonce(4)
        .from(address)
        .to(address)
        .value(U256::from(6u64))
        .gas_limit(Gas::from(100))
        .input(vec![1])
        .build()
        .unwrap();
    assert_eq!(tx, same);
    assert_eq!(tx.gas_limit(), &Some(Gas::from(100)));
    let cleared = TransactionBuilder::new()
        .gas_limit(Some(Gas::from(100)))
        .with_gas_limit(None)
        .with_nonce(None)
        .build()
        .unwrap();
    assert_eq!(cleared, Transaction::default());
}
