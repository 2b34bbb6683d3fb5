use evm_result::{
    Address, Bytes, ExecutionMetric, ExecutionResult, HaltReason, Log, OpcodeMetrics,
    OutOfGasError, Output, ResultAndState, SuccessReason, B256,
};

fn log(byte: u8) -> Log {
    Log {
        address: Address([byte; 20]),
        topics: vec![B256([byte; 32])],
        data: Bytes(vec![byte]),
    }
}

fn success(output: Output) -> ExecutionResult {
    ExecutionResult::Success {
        reason: SuccessReason::Return,
        gas_used: 21_000,
        gas_refunded: 100,
        logs: vec![log(1), log(2)],
        output,
    }
}

fn revert() -> ExecutionResult {
    ExecutionResult::Revert { gas_used: 30_000, output: Bytes(vec![8, 9]) }
}

fn halt() -> ExecutionResult {
    ExecutionResult::Halt {
        reason: HaltReason::OutOfGas(OutOfGasError::Basic),
        gas_used: 50_000,
    }
}

#[test]
fn status_of_each_result() {
    let call = success(Output::Call(Bytes(vec![1])));
    assert!(call.is_success());
    assert!(!call.is_halt());
    assert!(!revert().is_success());
    assert!(!revert().is_halt());
    assert!(!halt().is_success());
    assert!(halt().is_halt());
}

#[test]
fn output_of_success_is_the_data() {
    let call = success(Output::Call(Bytes(vec![1, 2, 3])));
    assert_eq!(call.output(), Some(&Bytes(vec![1, 2, 3])));
    assert_eq!(call.into_output(), Some(Bytes(vec![1, 2, 3])));
    let create = success(Output::Create(Bytes(vec![4]), Some(Address([7; 20]))));
    assert_eq!(create.output(), Some(&Bytes(vec![4])));
    assert_eq!(create.into_output(), Some(Bytes(vec![4])));
}

#[test]
fn output_of_revert_and_halt() {
    assert_eq!(revert().output(), Some(&Bytes(vec![8, 9])));
    assert_eq!(revert().into_output(), Some(Bytes(vec![8, 9])));
    assert_eq!(halt().output(), None);
    assert_eq!(halt().into_output(), None);
}

#[test]
fn logs_only_of_success() {
    let call = success(Output::Call(Bytes(vec![])));
    assert_eq!(call.logs(), &[log(1), log(2)]);
    assert_eq!(call.into_logs(), vec![log(1), log(2)]);
    assert!(revert().logs().is_empty());
    assert!(revert().into_logs().is_empty());
    assert!(halt().logs().is_empty());
    assert!(halt().into_logs().is_empty());
}

#[test]
fn gas_used_of_each_result() {
    assert_eq!(success(Output::Call(Bytes(vec![]))).gas_used(), 21_000);
    assert_eq!(revert().gas_used(), 30_000);
    assert_eq!(halt().gas_used(), 50_000);
}

#[test]
fn data_and_address_of_outputs() {
    let call = Output::Call(Bytes(vec![1]));
    assert_eq!(call.data(), &Bytes(vec![1]));
    assert_eq!(call.address(), None);
    assert_eq!(call.into_data(), Bytes(vec![1]));
    let created = Output::Create(Bytes(vec![2]), Some(Address([3; 20])));
    assert_eq!(created.data(), &Bytes(vec![2]));
    assert_eq!(created.address(), Some(&Address([3; 20])));
    assert_eq!(created.into_data(), Bytes(vec![2]));
    assert_eq!(Output::Create(Bytes(vec![]), None).address(), None);
}

#[test]
fn result_and_state_carries_its_parts() {
    let mut metrics = OpcodeMetrics::new();
    metrics.insert(1, ExecutionMetric { count: 1, total_time: 2, total_gas: 3 });
    let outcome = ResultAndState { result: revert(), state: vec![1u64], metrics };
    let same = outcome.clone();
    assert_eq!(outcome, same);
    assert_eq!(same.result.gas_used(), 30_000);
    assert_eq!(same.metrics.get(1).map(|m| m.total_gas), Some(3));
}
