use vstd::prelude::*;

use crate::models::error::Error;
use crate::models::gas::Gas;
use crate::models::primitives::{Address, TxKind, U256};
use crate::models::transaction::{Transaction, TransactionView};
use revm::context::result::{EVMError, InvalidTransaction};
use revm::context::{Context, TxEnv};
use revm::primitives::{Address as EngineAddress, U256 as EngineU256};
use revm::database::{CacheDB, EmptyDB};
use revm::handler::{MainBuilder, MainContext, MainnetContext, MainnetEvm};
use revm::ExecuteEvm;
use std::sync::{PoisonError, RwLock};

use SimulationOutcome::{CallGasCostMoreThanGasLimit, Completed, Failed};

verus! {

/// A simulator of transactions that runs locally and returns the gas used.
///
/// When the transaction's own declared gas limit does not cover the
/// minimal executable path, an implementation fails with
/// [`Error::GasExceedsLimit`]; any other failure is an opaque simulation
/// error.
pub trait LocalTxSimulator {
    /// Whether a simulation of the transaction may end with this result.
    /// Unless an implementation says more, any result may come.
    open spec fn may_simulate(&self, tx: TransactionView, result: Result<Gas, Error>) -> bool {
        true
    }

    /// Simulates the transaction and returns the gas used.
    fn locally_simulate_tx(&self, tx: &Transaction) -> (result: Result<Gas, Error>)
        ensures
            self.may_simulate(tx@, result),
    ;
}

/// A mainnet engine of `revm` over an empty in-memory database, behind a
/// lock. The engine is hidden from the verifier.
#[verifier::external_body]
struct Engine {
    evm: RwLock<MainnetEvm<MainnetContext<CacheDB<EmptyDB>>>>,
}

/// The checks that an engine is built without.
#[derive(Debug, Clone, Copy, PartialEq, Eq, Structural)]
pub struct EngineSettings {
    /// Whether a transaction's nonce is left unchecked against the
    /// account's.
    pub disable_nonce_check: bool,
    /// Whether the sender's balance is left unchecked against the cost of
    /// the transaction.
    pub disable_balance_check: bool,
}

/// Simulates transactions locally, on an engine of its own, and remembers
/// the settings that the engine was built with.
pub struct RevmTxSimulator {
    evm: Engine,
    settings: EngineSettings,
}

/// What the engine is told of a transaction.
pub struct TransactionEnvironment {
    pub nonce: u64,
    pub caller: Address,
    pub kind: TxKind,
    pub data: Vec<u8>,
    pub gas_limit: u64,
    pub value: U256,
}

/// What the engine is told of a transaction, with the payload as a
/// sequence.
pub struct TransactionEnvironmentView {
    pub nonce: u64,
    pub caller: Address,
    pub kind: TxKind,
    pub data: Seq<u8>,
    pub gas_limit: u64,
    pub value: U256,
}

impl View for TransactionEnvironment {
    type V = TransactionEnvironmentView;

    open spec fn view(&self) -> TransactionEnvironmentView {
        TransactionEnvironmentView {
            nonce: self.nonce,
            caller: self.caller,
            kind: self.kind,
            data: self.data@,
            gas_limit: self.gas_limit,
            value: self.value,
        }
    }
}

/// How a simulation ended.
pub enum SimulationOutcome {
    /// The transaction ran, and used this much gas.
    Completed { gas_used: u64 },
    /// The transaction was refused: the gas needed before the first
    /// instruction is more than its gas limit. The message is the
    /// engine's.
    CallGasCostMoreThanGasLimit { initial_gas: u64, gas_limit: u64, message: String },
    /// The simulation failed otherwise, with this message.
    Failed { message: String },
}

/// The gas limit that the engine is given for a transaction that declares
/// none: the largest limit that it takes for one transaction.
pub const UNDECLARED_GAS_LIMIT: u64 = 16_777_216;

/// The address that stands for a missing sender: twenty zero bytes.
pub open spec fn zero_address() -> Address {
    Address(vstd::array::spec_array_fill_for_copy_type(0u8))
}

/// How the simulation of a transaction ends on an engine that was built
/// with the given settings and then used for simulations only.
pub uninterp spec fn simulated_outcome(
    settings: EngineSettings,
    nonce: u64,
    caller: Address,
    kind: TxKind,
    data: Seq<u8>,
    gas_limit: u64,
    value: U256,
) -> SimulationOutcome;

/// How the simulation of what the engine is told ends.
pub open spec fn outcome_of(settings: EngineSettings, env: TransactionEnvironmentView) -> SimulationOutcome {
    simulated_outcome(
        settings,
        env.nonce,
        env.caller,
        env.kind,
        env.data,
        env.gas_limit,
        env.value,
    )
}

/// Builds a mainnet engine over an empty in-memory database, its two
/// checks set as the settings say, behind a lock. Nothing is claimed of
/// it.
#[verifier::external_body]
fn new_engine(settings: EngineSettings) -> (engine: Engine) {
    let evm = Context::mainnet()
        .with_db(CacheDB::new(EmptyDB::default()))
        .modify_cfg_chained(|cfg| {
            cfg.disable_nonce_check = settings.disable_nonce_check;
            cfg.disable_balance_check = settings.disable_balance_check;
        })
        .build_mainnet();
    Engine { evm: RwLock::new(evm) }
}

/// `revm::context::TxEnv`, the engine's own transaction type. The
/// verifier sees nothing inside it.
#[verifier::external_type_specification]
#[verifier::external_body]
pub struct ExTxEnv(TxEnv);

/// Copies the fields into the engine's own transaction type, `TxEnv`;
/// every other field of it has its default.
#[verifier::external_body]
fn to_tx_env(env: TransactionEnvironment) -> (tx: TxEnv) {
    TxEnv {
        nonce: env.nonce,
        caller: env.caller.0.into(),
        kind: env.kind.to().map(|to| EngineAddress::from(to.0)).into(),
        data: env.data.into(),
        gas_limit: env.gas_limit,
        value: EngineU256::from_limbs(env.value.0),
        ..Default::default()
    }
}

/// Takes the engine's lock, sets the transaction with `modify_tx`, in the
/// engine's own type, and runs it with `ExecuteEvm::replay`.
///
/// A run commits nothing and clears the journal, and the database under
/// the engine is empty, so the outcome depends on the settings and on the
/// transaction alone. The lock is taken nowhere else, and is taken even if
/// poisoned. The engine refuses a transaction for its gas limit only where
/// the gas needed before the first instruction is more than the limit it
/// was given, and reports both.
#[verifier::external_body]
fn replay(simulator: &RevmTxSimulator, env: TransactionEnvironment) -> (outcome: SimulationOutcome)
    ensures
        outcome == simulated_outcome(
            simulator.spec_settings(),
            env.nonce,
            env.caller,
            env.kind,
            env.data@,
            env.gas_limit,
            env.value,
        ),
        outcome matches SimulationOutcome::CallGasCostMoreThanGasLimit { initial_gas, gas_limit, .. }
            ==> gas_limit == env.gas_limit && initial_gas > gas_limit,
{
    let tx = to_tx_env(env);
    let mut evm = simulator.evm.evm.write().unwrap_or_else(PoisonError::into_inner);
    evm.modify_tx(|t| *t = tx);
    match evm.replay() {
        Ok(done) => Completed { gas_used: done.result.tx_gas_used() },
        Err(e) => match e {
            EVMError::Transaction(InvalidTransaction::CallGasCostMoreThanGasLimit { initial_gas, gas_limit }) =>
                CallGasCostMoreThanGasLimit { initial_gas, gas_limit, message: e.to_string() },
            _ => Failed { message: e.to_string() },
        },
    }
}

/// What the outcome of a simulation means where the engine was given the
/// transaction's own gas limit: the gas used if the transaction ran;
/// `GasExceedsLimit`, with the gas needed before the first instruction as
/// the estimated cost, if it was refused for its gas limit; a failure of
/// the simulation otherwise.
pub open spec fn gas_of_outcome(outcome: SimulationOutcome) -> Result<Gas, Error> {
    match outcome {
        SimulationOutcome::Completed { gas_used } => Ok(Gas(gas_used)),
        SimulationOutcome::CallGasCostMoreThanGasLimit { initial_gas, gas_limit, .. } => Err(
            Error::GasExceedsLimit { estimated_cost: Some(Gas(initial_gas)), gas_limit: Gas(gas_limit) },
        ),
        SimulationOutcome::Failed { message } => Err(Error::LocalSimulationFailed(message)),
    }
}

/// What the outcome of a simulation means for a transaction. Only a
/// declared gas limit can be exceeded: where the transaction declares
/// none, a refusal for the limit that the engine was given in its place
/// is a failure of the simulation, with the engine's message.
pub open spec fn gas_of_simulation(limit_is_declared: bool, outcome: SimulationOutcome) -> Result<
    Gas,
    Error,
> {
    match outcome {
        SimulationOutcome::CallGasCostMoreThanGasLimit { message, .. } if !limit_is_declared => Err(
            Error::LocalSimulationFailed(message),
        ),
        _ => gas_of_outcome(outcome),
    }
}

/// What the engine is told of a transaction: a missing nonce is zero, a
/// missing sender the zero address, and a missing gas limit the largest
/// that the engine takes.
pub open spec fn environment_of(tx: TransactionView) -> TransactionEnvironmentView {
    TransactionEnvironmentView {
        nonce: match tx.nonce {
            Some(nonce) => nonce,
            None => 0,
        },
        caller: match tx.from {
            Some(from) => from,
            None => zero_address(),
        },
        kind: tx.to,
        data: tx.input,
        gas_limit: match tx.gas_limit {
            Some(limit) => limit.0,
            None => UNDECLARED_GAS_LIMIT,
        },
        value: tx.value,
    }
}

/// The result of the simulation of a transaction on an engine with the
/// given settings.
pub open spec fn simulated_gas(settings: EngineSettings, tx: TransactionView) -> Result<Gas, Error> {
    gas_of_simulation(tx.gas_limit is Some, outcome_of(settings, environment_of(tx)))
}

/// Whether a result is `GasExceedsLimit` only with the given limit as a
/// declared one, and with an estimated cost above it.
pub open spec fn exceeds_only_declared_limit(declared: Option<Gas>, result: Result<Gas, Error>) -> bool {
    result matches Err(Error::GasExceedsLimit { estimated_cost, gas_limit }) ==> {
        &&& declared == Some(gas_limit)
        &&& estimated_cost matches Some(cost) && cost.0 > gas_limit.0
    }
}

impl TransactionEnvironment {
    /// What the engine is told of a transaction.
    pub fn from_transaction(tx: &Transaction) -> (env: TransactionEnvironment)
        ensures
            env@ == environment_of(tx@),
    {
        let caller = match tx.from() {
            Some(from) => *from,
            None => Address([0u8; 20]),
        };
        TransactionEnvironment {
            nonce: match tx.nonce() {
                Some(nonce) => *nonce,
                None => 0,
            },
            caller,
            kind: *tx.to(),
            data: tx.input().clone(),
            gas_limit: match tx.gas_limit() {
                Some(limit) => limit.0,
                None => UNDECLARED_GAS_LIMIT,
            },
            value: *tx.value(),
        }
    }
}

impl RevmTxSimulator {
    /// A simulator with an engine that checks neither nonces nor
    /// balances: a transaction may come without a nonce, and no account
    /// needs funds for a simulation.
    pub fn new() -> (simulator: RevmTxSimulator)
        ensures
            simulator.spec_settings() == (EngineSettings {
                disable_nonce_check: true,
                disable_balance_check: true,
            }),
    {
        let settings = EngineSettings { disable_nonce_check: true, disable_balance_check: true };
        RevmTxSimulator { evm: new_engine(settings), settings }
    }

    /// The settings that the engine was built with.
    pub closed spec fn spec_settings(&self) -> EngineSettings {
        self.settings
    }

    /// The settings that the engine was built with.
    pub fn settings(&self) -> (settings: EngineSettings)
        ensures
            settings == self.spec_settings(),
    {
        self.settings
    }

    /// What the outcome of a simulation means where the engine was given
    /// the transaction's own gas limit.
    pub fn gas_of_outcome(outcome: SimulationOutcome) -> (result: Result<Gas, Error>)
        ensures
            result == gas_of_outcome(outcome),
    {
        match outcome {
            SimulationOutcome::Completed { gas_used } => Ok(Gas(gas_used)),
            SimulationOutcome::CallGasCostMoreThanGasLimit { initial_gas, gas_limit, .. } => Err(
                Error::GasExceedsLimit { estimated_cost: Some(Gas(initial_gas)), gas_limit: Gas(gas_limit) },
            ),
            SimulationOutcome::Failed { message } => Err(Error::local_simulation_failed(message)),
        }
    }

    /// What the outcome of a simulation means for a transaction that
    /// declares a gas limit, or for one that declares none.
    pub fn gas_of_simulation(limit_is_declared: bool, outcome: SimulationOutcome) -> (result: Result<
        Gas,
        Error,
    >)
        ensures
            result == gas_of_simulation(limit_is_declared, outcome),
    {
        match outcome {
            SimulationOutcome::CallGasCostMoreThanGasLimit { initial_gas, gas_limit, message } => {
                if limit_is_declared {
                    Err(
                        Error::GasExceedsLimit {
                            estimated_cost: Some(Gas(initial_gas)),
                            gas_limit: Gas(gas_limit),
                        },
                    )
                } else {
                    Err(Error::local_simulation_failed(message))
                }
            },
            other => Self::gas_of_outcome(other),
        }
    }

    /// Runs what the engine is told of a transaction, and says what the
    /// outcome means where the gas limit given is the transaction's own.
    /// The limit is reported as exceeded only with the limit given, and
    /// with a cost above it.
    pub fn simulate_tx(&self, env: TransactionEnvironment) -> (result: Result<Gas, Error>)
        ensures
            result == gas_of_outcome(outcome_of(self.spec_settings(), env@)),
            exceeds_only_declared_limit(Some(Gas(env.gas_limit)), result),
    {
        let outcome = replay(self, env);
        Self::gas_of_outcome(outcome)
    }
}

impl LocalTxSimulator for RevmTxSimulator {
    /// A simulation ends with the one result that the engine's outcome
    /// for the transaction means. The gas limit is reported as exceeded
    /// only for a transaction that declares one, with that limit and with
    /// a cost above it.
    open spec fn may_simulate(&self, tx: TransactionView, result: Result<Gas, Error>) -> bool {
        &&& result == simulated_gas(self.spec_settings(), tx)
        &&& exceeds_only_declared_limit(tx.gas_limit, result)
    }

    fn locally_simulate_tx(&self, tx: &Transaction) -> (result: Result<Gas, Error>) {
        let limit_is_declared = tx.gas_limit().is_some();
        let outcome = replay(self, TransactionEnvironment::from_transaction(tx));
        Self::gas_of_simulation(limit_is_declared, outcome)
    }
}

/// Equal inputs give equal results: a simulator has one result for a
/// transaction.
pub proof fn lemma_simulation_is_deterministic(
    simulator: RevmTxSimulator,
    tx: TransactionView,
    first: Result<Gas, Error>,
    second: Result<Gas, Error>,
)
    requires
        simulator.may_simulate(tx, first),
        simulator.may_simulate(tx, second),
    ensures
        first == second,
{
}

/// The gas limit is reported as exceeded only for a transaction that
/// declares one, and then with the transaction's own limit and an
/// estimated cost above it.
pub proof fn lemma_only_declared_limit_is_exceeded(
    simulator: RevmTxSimulator,
    tx: TransactionView,
    result: Result<Gas, Error>,
)
    requires
        simulator.may_simulate(tx, result),
    ensures
        tx.gas_limit is None ==> !(result matches Err(Error::GasExceedsLimit { .. })),
        result matches Err(Error::GasExceedsLimit { estimated_cost, gas_limit }) ==> {
            &&& tx.gas_limit == Some(gas_limit)
            &&& estimated_cost matches Some(cost) && cost.0 > gas_limit.0
        },
{
}

} // verus!
