//! Static validation of untrusted guest byte code.
//!
//! Guests may only use deterministic WASM: every post-MVP proposal that
//! introduces non-determinism, ambient authority or unsupported layouts is
//! rejected, and floating point is rejected entirely, since float NaN
//! payloads differ across hosts.

use vstd::prelude::*;

verus! {

/// The feature switches this core decides over. A forbidden feature is
/// `false`; `deterministic_only` additionally strikes floating point.
pub struct VmFeatures {
    /// Reference types (`externref` and friends).
    pub reference_types: bool,
    /// Multiple return values.
    pub multi_value: bool,
    /// Bulk memory instructions.
    pub bulk_memory: bool,
    /// Module linking / component composition.
    pub module_linking: bool,
    /// SIMD vectors.
    pub simd: bool,
    /// Shared memories and atomics.
    pub threads: bool,
    /// Tail calls.
    pub tail_call: bool,
    /// More than one linear memory.
    pub multi_memory: bool,
    /// Exception handling.
    pub exceptions: bool,
    /// 64-bit memories.
    pub memory64: bool,
    /// Reject every instruction whose result can differ across hosts.
    pub deterministic_only: bool,
}

impl VmFeatures {
    /// The mask guests are validated against: everything off, determinism
    /// required.
    pub fn required() -> (r: Self)
        ensures
            !r.reference_types,
            !r.multi_value,
            !r.bulk_memory,
            !r.module_linking,
            !r.simd,
            !r.threads,
            !r.tail_call,
            !r.multi_memory,
            !r.exceptions,
            !r.memory64,
            r.deterministic_only,
    {
        VmFeatures {
            reference_types: false,
            multi_value: false,
            bulk_memory: false,
            module_linking: false,
            simd: false,
            threads: false,
            tail_call: false,
            multi_memory: false,
            exceptions: false,
            memory64: false,
            deterministic_only: true,
        }
    }
}

#[verifier::external_type_specification]
#[verifier::external_body]
/// Why the validator rejected a module.
pub struct ExBinaryReaderError(wasmparser::BinaryReaderError);

/// Whether `wasmparser` accepts the byte code under this core's required
/// feature mask. The result depends on the bytes alone.
pub uninterp spec fn wasm_validated(code: Seq<u8>) -> bool;

/// Relies on `wasmparser::Validator::validate_all` with
/// `new_with_features`: the module is checked against a fixed mask that
/// enables only the MVP with mutable globals, sign extension and
/// saturating conversions, and disables floats, reference types,
/// multi-value, bulk memory, the component model, SIMD, threads, tail
/// calls, multiple memories, exceptions and 64-bit memories. Validation
/// is a pure function of the bytes.
#[verifier::external_body]
fn run_validator(code: &[u8]) -> (r: Result<(), wasmparser::BinaryReaderError>)
    ensures
        r is Ok <==> wasm_validated(code@),
{
    let mask = wasmparser::WasmFeatures::MUTABLE_GLOBAL
        .union(wasmparser::WasmFeatures::SIGN_EXTENSION)
        .union(wasmparser::WasmFeatures::SATURATING_FLOAT_TO_INT)
        .union(wasmparser::WasmFeatures::GC_TYPES);
    let mut validator = wasmparser::Validator::new_with_features(mask);
    validator.validate_all(code).map(|_| ())
}

/// Validate untrusted guest byte code against the required feature mask.
/// Validation runs on the raw bytes before instrumentation; instrumented
/// output is trusted and is not re-validated.
pub fn validate_untrusted_wasm(wasm_code: &[u8]) -> (r: Result<
    (),
    wasmparser::BinaryReaderError,
>)
    ensures
        r is Ok <==> wasm_validated(wasm_code@),
{
    run_validator(wasm_code)
}

} // verus!
