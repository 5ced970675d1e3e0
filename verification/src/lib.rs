//! Gas estimation for account-based ledger transactions: classification,
//! a memoizing cache, and the reconciliation of a local simulation with a
//! remote estimate into one bounded answer.

pub mod alchemy_rpc;
pub mod app_state;
pub mod decimal_text;
pub mod decode_rlp;
pub mod gastimator;
pub mod hex_text;
pub mod local_gas_estimator;
pub mod models;
pub mod remote_gas_estimator;
pub mod std_conversions;
pub mod traits;

pub use alchemy_rpc::client::AlchemyRpcClient;
pub use alchemy_rpc::id_stepper::IdStepper;
pub use alchemy_rpc::is_rpc_request::IsRpcRequest;
pub use alchemy_rpc::request_estimate_gas_input::AlchemyEstimateGasInput;
pub use alchemy_rpc::rpc_request::RpcRequest;
pub use alchemy_rpc::rpc_response::RpcResponse;
pub use app_state::{AppState, Cache, GasEstimateResponse};
pub use decode_rlp::decode_eip1559_transaction;
pub use gastimator::{Dependencies, Gastimator, GastimatorDependencies};
pub use local_gas_estimator::{
    EngineSettings, LocalTxSimulator, RevmTxSimulator, SimulationOutcome, TransactionEnvironment,
};
pub use models::config::{Cli, Config};
pub use models::error::Error;
pub use models::gas::Gas;
pub use models::gas_usage::GasUsage;
pub use models::primitives::{Address, TxKind, U256};
pub use models::raw_transaction::RawTransaction;
pub use models::server_config::ServerConfig;
pub use models::transaction::{Transaction, TransactionBuilder, TxEip1559};
pub use models::transaction_kind::TransactionKind;
pub use remote_gas_estimator::RemoteGasEstimator;
pub use traits::ty_eq::TyEq;
