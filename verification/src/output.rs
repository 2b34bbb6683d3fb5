//! Results of transactions that were executed.

use vstd::prelude::*;

use crate::primitives::{Address, Bytes, Log};

verus! {

/// The outcome of an executed transaction, with what it left behind. Nothing
/// here looks into the state of the accounts, so that its type is left open.
#[derive(Debug, Clone, PartialEq, Eq)]
pub struct ResultAndState<State> {
    /// Status of execution
    pub result: ExecutionResult,
    /// State that got updated
    pub state: State,
    /// metrics
    pub metrics: crate::metrics::OpcodeMetrics,
}

/// Result of a transaction execution.
#[derive(Debug, Clone, PartialEq, Eq, Hash)]
pub enum ExecutionResult {
    /// Returned successfully
    Success {
        reason: SuccessReason,
        gas_used: u64,
        gas_refunded: u64,
        logs: Vec<Log>,
        output: Output,
    },
    /// Reverted by `REVERT` opcode that doesn't spend all gas.
    Revert {
        gas_used: u64,
        output: Bytes,
    },
    /// Reverted for various reasons and spend all gas.
    Halt {
        reason: HaltReason,
        /// Halting will spend all the gas, and will be equal to gas_limit.
        gas_used: u64,
    },
}

/// Output of a transaction execution.
#[derive(Debug, Clone, PartialEq, Eq, Hash)]
pub enum Output {
    Call(Bytes),
    Create(Bytes, Option<Address>),
}

/// Reason a transaction successfully completed.
#[derive(Debug, Clone, Copy, PartialEq, Eq, Hash)]
pub enum SuccessReason {
    Stop,
    Return,
    SelfDestruct,
}

/// Indicates that the EVM has experienced an exceptional halt. This causes execution to
/// immediately end with all gas being consumed.
#[derive(Debug, Clone, Copy, PartialEq, Eq, Hash)]
pub enum HaltReason {
    OutOfGas(OutOfGasError),
    OpcodeNotFound,
    InvalidFEOpcode,
    InvalidJump,
    NotActivated,
    StackUnderflow,
    StackOverflow,
    OutOfOffset,
    CreateCollision,
    PrecompileError,
    NonceOverflow,
    /// Create init code size exceeds limit (runtime).
    CreateContractSizeLimit,
    /// Error on created contract that begins with EF
    CreateContractStartingWithEF,
    /// EIP-3860: Limit and meter initcode. Initcode size limit exceeded.
    CreateInitCodeSizeLimit,
    /* Internal Halts that can be only found inside Inspector */
    OverflowPayment,
    StateChangeDuringStaticCall,
    CallNotAllowedInsideStatic,
    OutOfFunds,
    CallTooDeep,
    /* Optimism errors */
    FailedDeposit,
}

/// What ran out of gas.
#[derive(Debug, Copy, Clone, PartialEq, Eq, Hash)]
pub enum OutOfGasError {
    /// Basic OOG error
    Basic,
    /// Tried to expand past REVM limit
    MemoryLimit,
    /// Basic OOG error from memory expansion
    Memory,
    /// Precompile threw OOG error
    Precompile,
    /// When performing something that takes a U256 and casts down to a u64, if its too large this would fire
    /// i.e. in `as_usize_or_fail`
    InvalidOperand,
}

/// The data that an output holds.
pub open spec fn output_data(output: Output) -> Bytes {
    match output {
        Output::Call(data) => data,
        Output::Create(data, _) => data,
    }
}

/// The data that an execution gave back: none after a halt.
pub open spec fn result_output(result: ExecutionResult) -> Option<Bytes> {
    match result {
        ExecutionResult::Success { output, .. } => Some(output_data(output)),
        ExecutionResult::Revert { output, .. } => Some(output),
        ExecutionResult::Halt { .. } => None,
    }
}

/// The logs of an execution: none unless it was successful.
pub open spec fn result_logs(result: ExecutionResult) -> Seq<Log> {
    match result {
        ExecutionResult::Success { logs, .. } => logs@,
        _ => seq![],
    }
}

impl Output {
    /// Returns the output data of the execution output.
    pub fn into_data(self) -> (r: Bytes)
        ensures
            r == output_data(self),
    {
        match self {
            Output::Call(data) => data,
            Output::Create(data, _) => data,
        }
    }

    /// Returns the output data of the execution output.
    pub fn data(&self) -> (r: &Bytes)
        ensures
            *r == output_data(*self),
    {
        match self {
            Output::Call(data) => data,
            Output::Create(data, _) => data,
        }
    }

    /// Returns the created address, if any.
    pub fn address(&self) -> (r: Option<&Address>)
        ensures
            r == match *self {
                Output::Create(_, Some(address)) => Some(&address),
                _ => None,
            },
    {
        match self {
            Output::Call(_) => None,
            Output::Create(_, address) => address.as_ref(),
        }
    }
}

impl ExecutionResult {
    /// Returns if transaction execution is successful.
    /// 1 indicates success, 0 indicates revert.
    /// <https://eips.ethereum.org/EIPS/eip-658>
    pub fn is_success(&self) -> (r: bool)
        ensures
            r == (*self is Success),
    {
        matches!(self, Self::Success { .. })
    }

    /// Returns true if execution result is a Halt.
    pub fn is_halt(&self) -> (r: bool)
        ensures
            r == (*self is Halt),
    {
        matches!(self, Self::Halt { .. })
    }

    /// Returns the output data of the execution.
    ///
    /// Returns `None` if the execution was halted.
    pub fn output(&self) -> (r: Option<&Bytes>)
        ensures
            r == match result_output(*self) {
                Some(data) => Some(&data),
                None => None,
            },
    {
        match self {
            Self::Success { output, .. } => Some(output.data()),
            Self::Revert { output, .. } => Some(output),
            _ => None,
        }
    }

    /// Consumes the type and returns the output data of the execution.
    ///
    /// Returns `None` if the execution was halted.
    pub fn into_output(self) -> (r: Option<Bytes>)
        ensures
            r == result_output(self),
    {
        match self {
            Self::Success { output, .. } => Some(output.into_data()),
            Self::Revert { output, .. } => Some(output),
            _ => None,
        }
    }

    /// Returns the logs if execution is successful, or an empty list otherwise.
    pub fn logs(&self) -> (r: &[Log])
        ensures
            r@ == result_logs(*self),
    {
        match self {
            Self::Success { logs, .. } => logs.as_slice(),
            _ => &[],
        }
    }

    /// Consumes `self` and returns the logs if execution is successful, or an empty list otherwise.
    pub fn into_logs(self) -> (r: Vec<Log>)
        ensures
            r@ == result_logs(self),
    {
        match self {
            Self::Success { logs, .. } => logs,
            _ => Vec::new(),
        }
    }

    /// Returns the gas used.
    pub fn gas_used(&self) -> (r: u64)
        ensures
            r == match *self {
                ExecutionResult::Success { gas_used, .. } => gas_used,
                ExecutionResult::Revert { gas_used, .. } => gas_used,
                ExecutionResult::Halt { gas_used, .. } => gas_used,
            },
    {
        match *self {
            Self::Success { gas_used, .. }
            | Self::Revert { gas_used, .. }
            | Self::Halt { gas_used, .. } => gas_used,
        }
    }
}

/// An execution gives no output back if and only if it was halted, and has
/// logs only if it was successful.
pub proof fn law_result_follows_status(result: ExecutionResult)
    ensures
        result_output(result) is None <==> result is Halt,
        result_logs(result).len() > 0 ==> result is Success,
        !(result is Success && result is Halt),
{
}

/// The output of a successful execution is the data that its `Output` holds,
/// whatever its logs, its reason and its gas are, whether a contract was called
/// or created, and whether the data is borrowed or taken.
pub proof fn law_success_gives_output_data(
    reason: SuccessReason,
    gas_used: u64,
    gas_refunded: u64,
    logs: Vec<Log>,
    data: Bytes,
    address: Option<Address>,
)
    ensures
        ({
            let called = ExecutionResult::Success {
                reason,
                gas_used,
                gas_refunded,
                logs,
                output: Output::Call(data),
            };
            let created = ExecutionResult::Success {
                reason,
                gas_used,
                gas_refunded,
                logs,
                output: Output::Create(data, address),
            };
            &&& forall|r: Option<&Bytes>|
                call_ensures(ExecutionResult::output, (&called,), r) ==> r == Some(&data)
            &&& forall|r: Option<&Bytes>|
                call_ensures(ExecutionResult::output, (&created,), r) ==> r == Some(&data)
            &&& forall|r: Option<Bytes>|
                call_ensures(ExecutionResult::into_output, (called,), r) ==> r == Some(data)
            &&& forall|r: Option<Bytes>|
                call_ensures(ExecutionResult::into_output, (created,), r) ==> r == Some(data)
            &&& result_output(called) == Some(data)
            &&& result_output(created) == Some(data)
        }),
{
}

/// The output of a revert is the data that the revert holds, whatever its gas
/// is, and a halt gives none, whatever its reason and its gas are.
pub proof fn law_revert_gives_its_data(gas_used: u64, data: Bytes, reason: HaltReason)
    ensures
        ({
            let revert = ExecutionResult::Revert { gas_used, output: data };
            let halt = ExecutionResult::Halt { reason, gas_used };
            &&& forall|r: Option<&Bytes>|
                call_ensures(ExecutionResult::output, (&revert,), r) ==> r == Some(&data)
            &&& forall|r: Option<Bytes>|
                call_ensures(ExecutionResult::into_output, (revert,), r) ==> r == Some(data)
            &&& forall|r: Option<&Bytes>|
                call_ensures(ExecutionResult::output, (&halt,), r) ==> r is None
            &&& forall|r: Option<Bytes>|
                call_ensures(ExecutionResult::into_output, (halt,), r) ==> r is None
            &&& result_output(revert) == Some(data)
            &&& result_output(halt) is None
        }),
{
}

/// A successful execution has all of its logs, in their order, whatever its
/// reason, its gas and its output are, and whether the logs are borrowed or
/// taken.
pub proof fn law_success_has_all_logs(
    reason: SuccessReason,
    gas_used: u64,
    gas_refunded: u64,
    logs: Vec<Log>,
    output: Output,
)
    ensures
        ({
            let success = ExecutionResult::Success { reason, gas_used, gas_refunded, logs, output };
            &&& forall|r: &[Log]|
                call_ensures(ExecutionResult::logs, (&success,), r) ==> r@ == logs@
            &&& forall|r: Vec<Log>|
                call_ensures(ExecutionResult::into_logs, (success,), r) ==> r@ == logs@
            &&& result_logs(success) == logs@
        }),
{
}

/// A revert and a halt have no logs, whatever they hold.
pub proof fn law_failure_has_no_logs(gas_used: u64, data: Bytes, reason: HaltReason)
    ensures
        ({
            let revert = ExecutionResult::Revert { gas_used, output: data };
            let halt = ExecutionResult::Halt { reason, gas_used };
            &&& forall|r: &[Log]|
                call_ensures(ExecutionResult::logs, (&revert,), r)
                    || call_ensures(ExecutionResult::logs, (&halt,), r) ==> r@.len() == 0
            &&& forall|r: Vec<Log>|
                call_ensures(ExecutionResult::into_logs, (revert,), r)
                    || call_ensures(ExecutionResult::into_logs, (halt,), r) ==> r@.len() == 0
            &&& result_logs(revert).len() == 0
            &&& result_logs(halt).len() == 0
        }),
{
}

/// The gas that an execution has used is the number that it holds for it, and
/// its status is told by its kind alone, whatever else it holds.
pub proof fn law_gas_and_status_of_results(
    reason: SuccessReason,
    gas_used: u64,
    gas_refunded: u64,
    logs: Vec<Log>,
    output: Output,
    data: Bytes,
    halt_reason: HaltReason,
)
    ensures
        ({
            let success = ExecutionResult::Success { reason, gas_used, gas_refunded, logs, output };
            let revert = ExecutionResult::Revert { gas_used, output: data };
            let halt = ExecutionResult::Halt { reason: halt_reason, gas_used };
            &&& forall|r: u64|
                call_ensures(ExecutionResult::gas_used, (&success,), r)
                    || call_ensures(ExecutionResult::gas_used, (&revert,), r)
                    || call_ensures(ExecutionResult::gas_used, (&halt,), r) ==> r == gas_used
            &&& forall|r: bool| call_ensures(ExecutionResult::is_success, (&success,), r) ==> r
            &&& forall|r: bool|
                call_ensures(ExecutionResult::is_success, (&revert,), r)
                    || call_ensures(ExecutionResult::is_success, (&halt,), r) ==> !r
            &&& forall|r: bool| call_ensures(ExecutionResult::is_halt, (&halt,), r) ==> r
            &&& forall|r: bool|
                call_ensures(ExecutionResult::is_halt, (&success,), r)
                    || call_ensures(ExecutionResult::is_halt, (&revert,), r) ==> !r
        }),
{
}

/// The data of an output is what it was made with, and so is its address; the
/// output of a call has no address.
pub proof fn law_output_holds_what_it_was_made_with(data: Bytes, address: Address)
    ensures
        ({
            let called = Output::Call(data);
            let created = Output::Create(data, Some(address));
            let nowhere = Output::Create(data, None);
            &&& forall|r: &Bytes|
                call_ensures(Output::data, (&called,), r) || call_ensures(
                    Output::data,
                    (&created,),
                    r,
                ) || call_ensures(Output::data, (&nowhere,), r) ==> *r == data
            &&& forall|r: Bytes|
                call_ensures(Output::into_data, (called,), r) || call_ensures(
                    Output::into_data,
                    (created,),
                    r,
                ) || call_ensures(Output::into_data, (nowhere,), r) ==> r == data
            &&& forall|r: Option<&Address>|
                call_ensures(Output::address, (&created,), r) ==> r == Some(&address)
            &&& forall|r: Option<&Address>|
                call_ensures(Output::address, (&called,), r) || call_ensures(
                    Output::address,
                    (&nowhere,),
                    r,
                ) ==> r is None
            &&& output_data(called) == data
            &&& output_data(created) == data
            &&& output_data(nowhere) == data
        }),
{
}

} // verus!
