//! Outcomes of executing a transaction in the Ethereum virtual machine: the
//! execution result itself, the errors that keep a transaction from being
//! executed at all, and the cost of the opcodes that were run.

pub mod decimal;
pub mod error;
pub mod file;
pub mod metrics;
pub mod output;
pub mod primitives;
pub mod save;

pub use crate::error::{
    EVMError, EVMResult, EVMResultGeneric, ErrorSource, InvalidHeader, InvalidTransaction,
};
pub use crate::metrics::{ExecutionMetric, OpcodeMetrics};
pub use crate::output::{
    ExecutionResult, HaltReason, OutOfGasError, Output, ResultAndState, SuccessReason,
};
pub use crate::primitives::{Address, Bytes, Log, B256, U256};
pub use crate::save::{SaveEvent, SaveStep};
