//! The data model shared by every component.

pub mod config;
pub mod error;
pub mod gas;
pub mod gas_usage;
pub mod primitives;
pub mod raw_transaction;
pub mod server_config;
pub mod transaction;
pub mod transaction_kind;
