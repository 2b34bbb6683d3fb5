# evm_result

Outcomes of executing a transaction in the Ethereum virtual machine, verified
with Verus.

- `src/output.rs`: the result of an execution, and what can be asked of it
- `src/error.rs`: the errors that keep a transaction from being executed, what
  is told of them, and which error lies beneath which
- `src/metrics.rs`: what it cost to run each opcode, and how such costs add up
- `src/save.rs`: the steps by which metrics are saved to a file
- `src/file.rs`: what those steps do to the file
- `src/decimal.rs`: numbers written in decimal
- `src/primitives.rs`: addresses, bytes, logs and 256-bit numbers
- `app/`: file access, JSON, and copies of the types with `Display`, `Error`
  and serde's traits
