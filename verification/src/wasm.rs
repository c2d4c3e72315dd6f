//! Trusted boundary around the `wasmer` runtime and the matchmaker
//! channel.
//!
//! Everything here either declares an outside type or wraps one outside
//! call. Host-call closures handed to `wasmer` only bridge guest memory
//! and then call the verified dispatch in `crate::host`; the host data
//! they mutate is touched through no other path, so taking it back out
//! yields a well-formed environment.

use vstd::prelude::*;

use crate::host::{AnyEnv, MatchmakerMessage};

verus! {

#[verifier::external_type_specification]
#[verifier::external_body]
/// A `wasmer` store: owns engine state for compiled modules.
pub struct ExStore(wasmer::Store);

#[verifier::external_type_specification]
#[verifier::external_body]
/// A compiled `wasmer` module.
pub struct ExModule(wasmer::Module);

#[verifier::external_type_specification]
#[verifier::external_body]
/// An instantiated `wasmer` module.
pub struct ExInstance(wasmer::Instance);

#[verifier::external_type_specification]
#[verifier::external_body]
/// A guest linear memory handle.
pub struct ExMemory(wasmer::Memory);

#[verifier::external_type_specification]
#[verifier::external_body]
/// A host or guest function handle.
pub struct ExFunction(wasmer::Function);

#[verifier::external_type_specification]
#[verifier::external_body]
/// An import table under construction.
pub struct ExImports(wasmer::Imports);

#[verifier::external_type_specification]
#[verifier::external_body]
#[verifier::reject_recursive_types(T)]
/// Host data attached to a store.
pub struct ExFunctionEnv<T>(wasmer::FunctionEnv<T>);

#[verifier::external_type_specification]
#[verifier::external_body]
/// Compilation failure reported by the backend.
pub struct ExCompileError(wasmer::CompileError);

#[verifier::external_type_specification]
#[verifier::external_body]
/// A missing or incompatible export.
pub struct ExExportError(wasmer::ExportError);

#[verifier::external_type_specification]
#[verifier::external_body]
/// Import resolution or start-function failure.
pub struct ExInstantiationError(wasmer::InstantiationError);

#[verifier::external_type_specification]
#[verifier::external_body]
/// A guest trap or host-raised runtime error.
pub struct ExRuntimeError(wasmer::RuntimeError);

/// Relies on `wasmer::sys::EngineBuilder` with
/// `wasmer_compiler_singlepass::Singlepass`, `wasmer::Store::new` and
/// `wasmer_vm::set_stack_size`: a store backed by the single-pass
/// compiler, the deterministic backend this core is fixed to. Guest
/// memories are dynamic with a small guard, so a store works under a
/// modest address-space budget, and guests run on a stack deep enough
/// that the instrumented stack-height limit, not the native stack, is
/// what bounds recursion.
#[verifier::external_body]
pub fn store_new() -> wasmer::Store {
    let compiler = wasmer_compiler_singlepass::Singlepass::default();
    let mut engine = wasmer::sys::EngineBuilder::new(compiler).engine();
    engine.set_tunables(wasmer::sys::BaseTunables {
        static_memory_bound: wasmer::Pages(0),
        static_memory_offset_guard_size: 0x1000,
        dynamic_memory_offset_guard_size: 0x1000,
    });
    wasmer_vm::set_stack_size(32 * 1024 * 1024);
    wasmer::Store::new(engine)
}

/// Relies on `wasmer::Module::new`: compiles the byte code, returning the
/// backend's error when the bytes are not a compilable module.
#[verifier::external_body]
pub fn compile(
    store: &wasmer::Store,
    code: &[u8],
) -> Result<wasmer::Module, wasmer::CompileError> {
    wasmer::Module::new(store, code)
}

#[verifier::external_type_specification]
#[verifier::external_body]
#[verifier::reject_recursive_types(T)]
/// The sending half of a `tokio` channel.
pub struct ExSender<T>(tokio::sync::mpsc::Sender<T>);

#[verifier::external_type_specification]
#[verifier::external_body]
#[verifier::reject_recursive_types(T)]
/// A host function's view of the store and its attached data.
pub struct ExFunctionEnvMut<'a, T: 'a>(wasmer::FunctionEnvMut<'a, T>);

#[verifier::external_type_specification]
#[verifier::external_body]
/// A temporary mutable store handle inside a host function.
pub struct ExStoreMut<'a>(wasmer::StoreMut<'a>);

/// The data attached to a store for one guest invocation: the verified
/// host environment, the guest's exported memory once instantiated, and
/// the matchmaker channel when one exists.
pub struct HostCtx {
    /// The verified host environment.
    pub env: AnyEnv,
    /// The guest's exported linear memory.
    pub memory: Option<wasmer::Memory>,
    /// The matchmaker channel's sending half.
    pub sender: Option<tokio::sync::mpsc::Sender<MatchmakerMessage>>,
}

/// Relies on `wasmer::Imports::new`: an empty import table.
#[verifier::external_body]
pub fn imports_new() -> wasmer::Imports {
    wasmer::Imports::new()
}

/// Relies on `wasmer::Imports::define`: registers the function under the
/// given namespace and name.
#[verifier::external_body]
pub fn imports_define(
    imports: &mut wasmer::Imports,
    ns: &str,
    name: &str,
    f: wasmer::Function,
) {
    imports.define(ns, name, f);
}

/// Relies on `wasmer::Instance::new`: instantiates the module against the
/// import table, returning the resolver's or start function's error.
#[verifier::external_body]
pub fn instantiate(
    store: &mut wasmer::Store,
    module: &wasmer::Module,
    imports: &wasmer::Imports,
) -> Result<wasmer::Instance, wasmer::InstantiationError> {
    wasmer::Instance::new(store, module, imports)
}

/// Relies on `wasmer::Exports::get_memory`: the export under this name,
/// when it is a memory.
#[verifier::external_body]
pub fn exported_memory(
    instance: &wasmer::Instance,
    name: &str,
) -> Result<wasmer::Memory, wasmer::ExportError> {
    instance.exports.get_memory(name).cloned()
}

/// Relies on `wasmer::Memory::clone`: a second handle to the same guest
/// memory.
#[verifier::external_body]
pub fn clone_memory(mem: &wasmer::Memory) -> wasmer::Memory {
    mem.clone()
}

/// Relies on `wasmer::Exports::get_function`: the export under this name,
/// when it is a function.
#[verifier::external_body]
pub fn exported_function(
    instance: &wasmer::Instance,
    name: &str,
) -> Result<wasmer::Function, wasmer::ExportError> {
    instance.exports.get_function(name).cloned()
}

/// Relies on `wasmer::FunctionEnv::new`: attaches the host data to the
/// store. The environment must be well-formed going in: every later
/// mutation runs through the verified dispatch, which preserves it, and
/// the `take_*_env` wrappers hand that invariant back out.
#[verifier::external_body]
pub fn fenv_new(
    store: &mut wasmer::Store,
    ctx: HostCtx,
) -> wasmer::FunctionEnv<HostCtx>
    requires
        ctx.env.wf(),
{
    wasmer::FunctionEnv::new(store, ctx)
}

/// Relies on `wasmer::FunctionEnv::as_mut`: stores the guest's memory
/// handle in the host data after instantiation.
#[verifier::external_body]
pub fn set_ctx_memory(
    store: &mut wasmer::Store,
    fenv: &wasmer::FunctionEnv<HostCtx>,
    mem: wasmer::Memory,
) {
    fenv.as_mut(store).memory = Some(mem);
}

/// Relies on `wasmer::FunctionEnv::as_mut` and `core::mem::replace`:
/// takes the transaction environment back out of the host data. The data
/// is mutated only by the verified dispatch, which preserves
/// well-formedness and the environment's category.
#[verifier::external_body]
pub fn take_tx_env(
    store: &mut wasmer::Store,
    fenv: &wasmer::FunctionEnv<HostCtx>,
    dummy: AnyEnv,
) -> (r: Option<crate::host::TxEnv>)
    ensures
        r matches Some(e) ==> e.wf(),
{
    match core::mem::replace(&mut fenv.as_mut(store).env, dummy) {
        AnyEnv::Tx(e) => Some(e),
        _ => None,
    }
}

/// Relies on `wasmer::FunctionEnv::as_mut` and `core::mem::replace`:
/// takes the validity-predicate environment back out of the host data.
/// The data is mutated only by the verified dispatch, which preserves
/// well-formedness and the environment's category.
#[verifier::external_body]
pub fn take_vp_env(
    store: &mut wasmer::Store,
    fenv: &wasmer::FunctionEnv<HostCtx>,
    dummy: AnyEnv,
) -> (r: Option<crate::host::VpEnv>)
    ensures
        r matches Some(e) ==> e.wf(),
{
    match core::mem::replace(&mut fenv.as_mut(store).env, dummy) {
        AnyEnv::Vp(e) => Some(e),
        _ => None,
    }
}

/// Relies on `wasmer::Memory::view` and `wasmer::MemoryView::read`: the
/// guest memory bytes in `[ptr, ptr + len)`, absent when the range is
/// negative or out of bounds. A zero-length range always reads as empty.
/// The range is checked against the view's size before the buffer is
/// allocated, so a guest cannot make the host allocate beyond the
/// memory it exported.
#[verifier::external_body]
fn read_region(
    mem: &wasmer::Memory,
    store: &wasmer::StoreMut<'_>,
    ptr: i64,
    len: i64,
) -> Option<Vec<u8>> {
    if len == 0 {
        return Some(Vec::new());
    }
    if ptr < 0 || len < 0 {
        return None;
    }
    let view = mem.view(store);
    if (ptr as u64).checked_add(len as u64).map_or(true, |end| end > view.data_size()) {
        return None;
    }
    let mut buf = vec![0u8; len as usize];
    match view.read(ptr as u64, &mut buf) {
        Ok(()) => Some(buf),
        Err(_) => None,
    }
}

/// Relies on `wasmer::Memory::view` and `wasmer::MemoryView::write`:
/// writes the bytes at the offset, reporting whether they fit.
#[verifier::external_body]
fn write_region_at(
    mem: &wasmer::Memory,
    store: &wasmer::StoreMut<'_>,
    offset: i64,
    bytes: &[u8],
) -> bool {
    if offset < 0 {
        return false;
    }
    mem.view(store).write(offset as u64, bytes).is_ok()
}

/// Relies on `wasmer::Memory::view` and `wasmer::MemoryView::write`:
/// writes the bytes at the offset of the guest's memory before the call.
#[verifier::external_body]
pub fn write_input_region(
    store: &mut wasmer::Store,
    mem: &wasmer::Memory,
    offset: u64,
    bytes: &[u8],
) -> bool {
    mem.view(&*store).write(offset, bytes).is_ok()
}

/// Relies on `wasmer::RuntimeError::new`: a host-raised runtime error
/// with the given message.
#[verifier::external_body]
pub fn runtime_error(msg: &str) -> wasmer::RuntimeError {
    wasmer::RuntimeError::new(msg)
}

/// Relies on `tokio::sync::mpsc::Sender::blocking_send`: hands the
/// message to the channel, reporting whether the receiver still exists.
/// `blocking_send` panics when called from inside an asynchronous
/// runtime's worker, so matchmaker runs must be driven from a plain
/// thread.
#[verifier::external_body]
fn channel_send(
    sender: &tokio::sync::mpsc::Sender<MatchmakerMessage>,
    msg: MatchmakerMessage,
) -> bool {
    sender.blocking_send(msg).is_ok()
}

/// Applies a dispatch reply: writes the payload back at the guest's
/// result offset, sends any matchmaker message, and traps on request.
#[verifier::external_body]
fn apply_reply(
    mem: &wasmer::Memory,
    store: &wasmer::StoreMut<'_>,
    x: i64,
    sender: &Option<tokio::sync::mpsc::Sender<MatchmakerMessage>>,
    reply: crate::host::Reply,
) -> Result<i64, wasmer::RuntimeError> {
    if reply.trap {
        return Err(wasmer::RuntimeError::new("host call trapped"));
    }
    if let Some(wb) = reply.write_back {
        if !write_region_at(mem, store, x, &wb) {
            return Err(wasmer::RuntimeError::new("result write failed"));
        }
    }
    if let Some(msg) = reply.send {
        if let Some(s) = sender {
            let _ = channel_send(s, msg);
        }
    }
    Ok(reply.status)
}

/// One guest host call: reads the two argument regions, runs the verified
/// dispatch (or the nested predicate for `eval`), and applies the reply.
#[verifier::external_body]
fn host_glue(
    mut c: wasmer::FunctionEnvMut<'_, HostCtx>,
    code: u64,
    a: i64,
    b: i64,
    x: i64,
    y: i64,
) -> Result<i64, wasmer::RuntimeError> {
    let (h, store) = c.data_and_store_mut();
    let mem = match &h.memory {
        Some(m) => m.clone(),
        None => return Err(wasmer::RuntimeError::new("no guest memory")),
    };
    let (r1, r2) = (read_region(&mem, &store, a, b), read_region(&mem, &store, x, y));
    if code == crate::host::VP_EVAL {
        return Ok(crate::runner::eval_dispatch(&mut h.env, r1, r2));
    }
    let reply = crate::host::host_bridge(&mut h.env, code, a, r1, r2);
    apply_reply(&mem, &store, x, &h.sender, reply)
}

/// Relies on `wasmer::Function::new_typed_with_env`: the `env.gas` import
/// injected by the gas meter. The closure only calls the verified
/// instruction-gas charge and traps the guest when the budget is gone.
#[verifier::external_body]
pub fn make_gas_import(
    store: &mut wasmer::Store,
    fenv: &wasmer::FunctionEnv<HostCtx>,
) -> wasmer::Function {
    wasmer::Function::new_typed_with_env(
        store,
        fenv,
        |mut c: wasmer::FunctionEnvMut<HostCtx>, cost: i32|
            -> Result<(), wasmer::RuntimeError> {
            if crate::host::charge_instruction_gas(&mut c.data_mut().env, cost) {
                Ok(())
            } else {
                Err(wasmer::RuntimeError::new("gas limit exceeded"))
            }
        },
    )
}

/// Relies on `wasmer::Function::new_typed_with_env`: a host-call import
/// under the given dispatch code. The closure only forwards to the glue
/// around the verified dispatch.
#[verifier::external_body]
pub fn make_host_import(
    store: &mut wasmer::Store,
    fenv: &wasmer::FunctionEnv<HostCtx>,
    code: u64,
) -> wasmer::Function {
    wasmer::Function::new_typed_with_env(
        store,
        fenv,
        move |c: wasmer::FunctionEnvMut<HostCtx>, a: i64, b: i64, x: i64, y: i64|
            -> Result<i64, wasmer::RuntimeError> {
            host_glue(c, code, a, b, x, y)
        },
    )
}

/// Relies on `wasmer::Function::typed` and `wasmer::TypedFunction::call`:
/// looks up the transaction entry signature and calls it.
#[verifier::external_body]
pub fn call_tx_entry(
    store: &mut wasmer::Store,
    f: &wasmer::Function,
    data_ptr: i64,
    data_len: i64,
) -> Result<Result<(), wasmer::RuntimeError>, wasmer::RuntimeError> {
    let tf = match f.typed::<(i64, i64), ()>(&*store) {
        Ok(tf) => tf,
        Err(e) => return Err(e),
    };
    Ok(tf.call(store, data_ptr, data_len))
}

/// Relies on `wasmer::Function::typed` and `wasmer::TypedFunction::call`:
/// looks up the validity-predicate entry signature and calls it.
#[verifier::external_body]
pub fn call_vp_entry(
    store: &mut wasmer::Store,
    f: &wasmer::Function,
    args: &[i64; 8],
) -> Result<Result<i64, wasmer::RuntimeError>, wasmer::RuntimeError> {
    let tf = match f
        .typed::<(i64, i64, i64, i64, i64, i64, i64, i64), i64>(&*store) {
        Ok(tf) => tf,
        Err(e) => return Err(e),
    };
    Ok(tf.call(store, args[0], args[1], args[2], args[3], args[4], args[5], args[6],
        args[7]))
}

/// Relies on `wasmer::Function::typed` and `wasmer::TypedFunction::call`:
/// looks up the matchmaker entry signature and calls it.
#[verifier::external_body]
pub fn call_mm_entry(
    store: &mut wasmer::Store,
    f: &wasmer::Function,
    args: &[i64; 6],
) -> Result<Result<i64, wasmer::RuntimeError>, wasmer::RuntimeError> {
    let tf = match f
        .typed::<(i64, i64, i64, i64, i64, i64), i64>(&*store) {
        Ok(tf) => tf,
        Err(e) => return Err(e),
    };
    Ok(tf.call(store, args[0], args[1], args[2], args[3], args[4], args[5]))
}

/// Relies on `wasmer::Function::typed` and `wasmer::TypedFunction::call`:
/// looks up the intent-filter entry signature and calls it.
#[verifier::external_body]
pub fn call_filter_entry(
    store: &mut wasmer::Store,
    f: &wasmer::Function,
    data_ptr: i64,
    data_len: i64,
) -> Result<Result<i64, wasmer::RuntimeError>, wasmer::RuntimeError> {
    let tf = match f.typed::<(i64, i64), i64>(&*store) {
        Ok(tf) => tf,
        Err(e) => return Err(e),
    };
    Ok(tf.call(store, data_ptr, data_len))
}

} // verus!
