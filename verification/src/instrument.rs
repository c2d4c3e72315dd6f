//! Instrumentation of accepted guest modules: gas metering and a
//! stack-height limit are injected before compilation.
//!
//! The module passes through four steps: decode, gas-counter injection,
//! stack-limiter injection, encode. Each outside step is deterministic,
//! so its result is named as a function of the module's serialized bytes;
//! the chain of names makes the whole rewrite a function of the input
//! bytes.

use vstd::prelude::*;

use crate::WASM_STACK_LIMIT;

verus! {

/// Cost charged by the injected meter for each page of memory growth.
pub const MEMORY_GROW_COST: u32 = 1;

/// The import module name under which the gas host function is expected.
pub const GAS_IMPORT_MODULE: &'static str = "env";

#[verifier::external_type_specification]
#[verifier::external_body]
/// A decoded WASM module of `parity-wasm`.
pub struct ExElementsModule(parity_wasm::elements::Module);

#[verifier::external_type_specification]
#[verifier::external_body]
/// A decode or encode failure of `parity-wasm`.
pub struct ExElementsError(parity_wasm::elements::Error);

/// The serialization of a decoded module: the bytes
/// `parity_wasm::elements::serialize` would produce for it.
pub uninterp spec fn module_bytes(m: parity_wasm::elements::Module) -> Seq<u8>;

/// Whether `parity-wasm` decodes the bytes as a module.
pub uninterp spec fn parity_decodes(code: Seq<u8>) -> bool;

/// The serialization of the module decoded from `code`: decoding then
/// serializing normalizes the bytes.
pub uninterp spec fn decoded_normal_form(code: Seq<u8>) -> Seq<u8>;

/// Whether the gas counter can be injected into the module serializing to
/// these bytes.
pub uninterp spec fn gas_meterable(code: Seq<u8>) -> bool;

/// The serialization of the module after gas-counter injection with the
/// given memory-grow cost.
pub uninterp spec fn gas_metered(code: Seq<u8>, grow_cost: u32) -> Seq<u8>;

/// Whether a module serializing to these bytes imports the `gas` function
/// from the `env` module.
pub uninterp spec fn imports_env_gas(code: Seq<u8>) -> bool;

/// Whether the stack limiter can be injected into the module serializing
/// to these bytes.
pub uninterp spec fn stack_limitable(code: Seq<u8>) -> bool;

/// The serialization of the module after stack-limiter injection with the
/// given height limit.
pub uninterp spec fn stack_limited(code: Seq<u8>, limit: u32) -> Seq<u8>;

/// Whether `parity-wasm` serializes the module with these bytes back to
/// them.
pub uninterp spec fn module_serializes(code: Seq<u8>) -> bool;

/// Relies on `parity_wasm::elements::deserialize_buffer`: decoding is a
/// pure function of the bytes, and the decoded module serializes to the
/// input's normal form.
#[verifier::external_body]
fn decode_module(code: &[u8]) -> (r: Result<
    parity_wasm::elements::Module,
    parity_wasm::elements::Error,
>)
    ensures
        r is Ok <==> parity_decodes(code@),
        r matches Ok(m) ==> module_bytes(m) == decoded_normal_form(code@),
{
    parity_wasm::elements::deserialize_buffer(code)
}

/// Relies on `pwasm_utils::inject_gas_counter` with
/// `rules::Set::default().with_grow_cost(grow_cost)` and the import
/// module name fixed to `GAS_IMPORT_MODULE`: it adds an import of a
/// one-argument `gas` function under that module and meters every
/// instruction; the rewrite is a pure function of the module and the
/// cost rules. The name is fixed here because the result, and so the
/// names below, depend on it.
#[verifier::external_body]
fn inject_gas_counter(
    m: parity_wasm::elements::Module,
    grow_cost: u32,
) -> (r: Result<parity_wasm::elements::Module, parity_wasm::elements::Module>)
    ensures
        r is Ok <==> gas_meterable(module_bytes(m)),
        r matches Ok(m2) ==> {
            &&& module_bytes(m2) == gas_metered(module_bytes(m), grow_cost)
            &&& imports_env_gas(module_bytes(m2))
        },
{
    let rules = pwasm_utils::rules::Set::default().with_grow_cost(grow_cost);
    pwasm_utils::inject_gas_counter(m, &rules, GAS_IMPORT_MODULE)
}

/// Relies on `pwasm_utils::stack_height::inject_limiter`: it bounds the
/// operand stack at the given height by instrumenting function bodies and
/// thunks, adds no import and removes none, and is a pure function of the
/// module and the limit.
#[verifier::external_body]
fn inject_stack_limiter(
    m: parity_wasm::elements::Module,
    limit: u32,
) -> (r: Result<parity_wasm::elements::Module, pwasm_utils::stack_height::Error>)
    ensures
        r is Ok <==> stack_limitable(module_bytes(m)),
        r matches Ok(m2) ==> {
            &&& module_bytes(m2) == stack_limited(module_bytes(m), limit)
            &&& (imports_env_gas(module_bytes(m))
                ==> imports_env_gas(module_bytes(m2)))
        },
{
    pwasm_utils::stack_height::inject_limiter(m, limit)
}

#[verifier::external_type_specification]
#[verifier::external_body]
/// A stack-limiter injection failure of `pwasm-utils`.
pub struct ExStackHeightError(pwasm_utils::stack_height::Error);

/// Relies on `parity_wasm::elements::serialize`: encoding is a pure
/// function of the module and produces its serialization.
#[verifier::external_body]
fn encode_module(m: parity_wasm::elements::Module) -> (r: Result<
    Vec<u8>,
    parity_wasm::elements::Error,
>)
    ensures
        r is Ok <==> module_serializes(module_bytes(m)),
        r matches Ok(b) ==> b@ == module_bytes(m),
{
    parity_wasm::elements::serialize(m)
}

/// Why instrumentation rejected a module.
#[derive(Debug)]
pub enum InstrumentError {
    /// The bytes did not decode as a WASM module.
    DeserializationError(parity_wasm::elements::Error),
    /// The gas counter could not be injected.
    GasMeterInjection,
    /// The stack limiter could not be injected.
    StackLimiterInjection,
    /// The instrumented module did not encode.
    SerializationError(parity_wasm::elements::Error),
}

/// The serialization of the fully instrumented form of `code`: gas
/// metering first, then the stack limit.
pub open spec fn instrumented_bytes(code: Seq<u8>) -> Seq<u8> {
    stack_limited(
        gas_metered(decoded_normal_form(code), MEMORY_GROW_COST),
        WASM_STACK_LIMIT,
    )
}

/// Every stage of the instrumentation chain goes through on `code`.
pub open spec fn instrumentable(code: Seq<u8>) -> bool {
    &&& parity_decodes(code)
    &&& gas_meterable(decoded_normal_form(code))
    &&& stack_limitable(gas_metered(decoded_normal_form(code), MEMORY_GROW_COST))
    &&& module_serializes(instrumented_bytes(code))
}

/// Inject the gas counter and the stack-height limiter into the given
/// byte code. On success the result is the instrumented serialization,
/// and the instrumented module imports `env.gas`; each stage's failure
/// surfaces as its own error.
pub fn prepare_wasm_code(code: &[u8]) -> (r: Result<Vec<u8>, InstrumentError>)
    ensures
        r is Ok <==> instrumentable(code@),
        r matches Ok(b) ==> {
            &&& b@ == instrumented_bytes(code@)
            &&& imports_env_gas(b@)
        },
        r matches Err(e) ==> match e {
            InstrumentError::DeserializationError(_) => !parity_decodes(code@),
            InstrumentError::GasMeterInjection => parity_decodes(code@)
                && !gas_meterable(decoded_normal_form(code@)),
            InstrumentError::StackLimiterInjection => parity_decodes(code@)
                && gas_meterable(decoded_normal_form(code@))
                && !stack_limitable(gas_metered(
                    decoded_normal_form(code@), MEMORY_GROW_COST)),
            InstrumentError::SerializationError(_) => parity_decodes(code@)
                && gas_meterable(decoded_normal_form(code@))
                && stack_limitable(gas_metered(
                    decoded_normal_form(code@), MEMORY_GROW_COST))
                && !module_serializes(instrumented_bytes(code@)),
        },
{
    let module = match decode_module(code) {
        Ok(m) => m,
        Err(e) => {
            return Err(InstrumentError::DeserializationError(e));
        },
    };
    let module = match inject_gas_counter(module, MEMORY_GROW_COST) {
        Ok(m) => m,
        Err(_) => {
            return Err(InstrumentError::GasMeterInjection);
        },
    };
    let module = match inject_stack_limiter(module, WASM_STACK_LIMIT) {
        Ok(m) => m,
        Err(_) => {
            return Err(InstrumentError::StackLimiterInjection);
        },
    };
    match encode_module(module) {
        Ok(b) => Ok(b),
        Err(e) => Err(InstrumentError::SerializationError(e)),
    }
}

} // verus!
