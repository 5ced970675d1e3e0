//! The remote estimator's protocol: how a request is framed and how the
//! reply is read.

pub mod client;
pub mod id_stepper;
pub mod is_rpc_request;
pub mod request_estimate_gas_input;
pub mod rpc_request;
pub mod rpc_response;
