//! A deterministic WASM execution core for a ledger node.
//!
//! Untrusted guest modules (transactions, validity predicates, matchmakers
//! and intent filters) are statically validated, instrumented with gas
//! metering and a stack-height limit, and executed against host state
//! (storage, a write log, gas meters, prefix iterators and a verifier set)
//! through a host-call table.

pub mod codec;
pub mod gas;
pub mod host;
pub mod instrument;
pub mod prefix_iter;
pub mod router;
pub mod runner;
pub mod storage;
pub mod types;
pub mod validation;
pub mod verifiers;
pub mod wasm;
pub mod write_log;

use vstd::prelude::*;

verus! {

/// Maximum operand-stack height enforced on instrumented guest modules.
pub const WASM_STACK_LIMIT: u32 = 65535;

} // verus!
