use gastimator::{Error, Gas, GasUsage, RawTransaction, TransactionKind, TyEq};

#[test]
fn gas_in_decimal() {
    assert_eq!(Gas::from(21000).to_string(), "21000");
    assert_eq!(Gas::from(0).to_string(), "0");
    assert_eq!(Gas::from(9).to_string(), "9");
    assert_eq!(Gas::from(10).to_string(), "10");
    assert_eq!(Gas::from(u64::MAX).to_string(), "18446744073709551615");
}

#[test]
fn gas_usage_in_words() {
    let kind = TransactionKind::ContractCreation;
    assert_eq!(
        GasUsage::Exact {
            kind: TransactionKind::NativeTokenTransfer,
            gas: Gas::exact_native_token_transfer(),
        }
        .to_string(),
        "exact(21000)"
    );
    assert_eq!(
        GasUsage::Estimate {
            kind,
            gas: Gas::from(54321),
        }
        .to_string(),
        "estimate(54321)"
    );
    assert_eq!(
        GasUsage::EstimateWithRange {
            kind,
            low: Gas::from(43210),
            high: Gas::from(54321),
        }
        .to_string(),
        "estimate_with_range(43210 - 54321)"
    );
}

#[test]
fn raw_transaction_in_hexadecimal() {
    let raw = RawTransaction {
        rlp: vec![0xde, 0xad, 0x00, 0x0f, 0xf0, 0x9a],
    };
    assert_eq!(raw.to_string(), "dead000ff09a");
    assert_eq!(RawTransaction::from_hex(&raw.to_string()), Ok(raw));
    assert_eq!(RawTransaction { rlp: vec![] }.to_string(), "");
}

#[test]
fn errors_in_words() {
    let s = || "x y".to_owned();
    let cases = vec![
        (
            Error::GasExceedsLimit {
                estimated_cost: None,
                gas_limit: Gas::from(1),
            },
            "Gas exceeds limit".to_owned(),
        ),
        (
            Error::StringNotHex { bad_value: s() },
            "String not hex: x y".to_owned(),
        ),
        (
            Error::FailedParseCliArgs { underlying: s() },
            "Failed to parse CLI arguments: x y".to_owned(),
        ),
        (
            Error::UnableToAcquireCacheLock,
            "Unable to acquire cache lock".to_owned(),
        ),
        (
            Error::UnableToStartServer { underlying: s() },
            "Unable to start server: x y".to_owned(),
        ),
        (
            Error::UnableToBind(s()),
            "Unable to bind to address: x y".to_owned(),
        ),
        (
            Error::FailedToCalculateGasEstimate,
            "Failed to calculate gas".to_owned(),
        ),
        (
            Error::LocalSimulationFailed(s()),
            "Local TX simulation failed: x y".to_owned(),
        ),
        (
            Error::RemoteGasEstimateFailed(s()),
            "Remote gas estimate failed: x y".to_owned(),
        ),
        (
            Error::UnableToGetBoundAddress(s()),
            "Failed to get bound address: x y".to_owned(),
        ),
        (
            Error::FailedToSignalReadiness,
            "Failed to signal readiness".to_owned(),
        ),
        (
            Error::NoAlchemyApiKey,
            "No Alchemy API Key provided, unable to start server. Set the `ALCHEMY_API_KEY` environment variable, e.g. `export ALCHEMY_API_KEY=your_key`, or export it in an `.envrc.secrets` file (`.envrc` already tries to load it with `direnv`).".to_owned(),
        ),
        (
            Error::AlchemySendRequest { method: s() },
            "Failed to make alchemy request, method: `x y`".to_owned(),
        ),
        (
            Error::AlchemyReadBytesOfResponse { underlying: s() },
            "Failed to read Alchemy response Bytes, underlying error: `x y`".to_owned(),
        ),
        (
            Error::AlchemyParseToResponseToType {
                kind: "K".to_owned(),
                underlying: s(),
            },
            "Failed to parse Alchemy response to type `K`, underlying error: `x y`".to_owned(),
        ),
        (
            Error::AlchemyParseAsU32,
            "Failed to parse Alchemy String response as u32".to_owned(),
        ),
        (
            Error::AlchemyParseAsBytes,
            "Failed to parse Alchemy String response as Bytes".to_owned(),
        ),
        (
            Error::UInt256LargerThanU64,
            "UInt256 larger than u64".to_owned(),
        ),
        (
            Error::DecodeRlpFailedBytesIntoEip1559Tx { underlying: s() },
            "Failed to RLP decode bytes into EIP1559 transaction, underlying error: `x y`"
                .to_owned(),
        ),
        (
            Error::DecodeRlpFailedBytesIntoSignedEip1559Tx { underlying: s() },
            "Failed to RLP decode bytes into a Signed EIP1559 transaction, underlying error: `x y`"
                .to_owned(),
        ),
    ];
    for (error, text) in cases {
        assert_eq!(error.to_string(), text);
    }
    assert!(Error::GasExceedsLimit {
        estimated_cost: None,
        gas_limit: Gas::from(1),
    }
    .is_gas_exceeds_limit());
    assert!(!Error::AlchemyParseAsU32.is_gas_exceeds_limit());
}

#[test]
fn cast_gives_the_value_back() {
    let gas: Gas = Gas::from(5).cast();
    assert_eq!(gas, Gas::from(5));
    let text: String = "same".to_owned().cast();
    assert_eq!(text, "same");
}
