//! The four guest runners: transactions, validity predicates, matchmakers
//! and intent filters.
//!
//! Each run validates (where the category demands it), instruments,
//! compiles in a fresh single-pass store, instantiates against the
//! category's host-call table, marshals the inputs into guest memory,
//! calls the entry point, and maps the raw verdict. Using a fresh store
//! per run keeps parallel predicate runs fully isolated.

use vstd::prelude::*;

use crate::gas::{BlockGasMeter, VpGasMeter};
use crate::host::{AnyEnv, FilterEnv, MatchmakerMessage, MmEnv, TxEnv, VpEnv};
use crate::instrument::{InstrumentError, prepare_wasm_code};
use crate::prefix_iter::PrefixIterators;
use crate::storage::Storage;
use crate::types::{clone_bytes, Address, Key};
use crate::validation::{validate_untrusted_wasm, wasm_validated};
use crate::verifiers::VerifierSet;
use crate::wasm::HostCtx;
use crate::write_log::WriteLog;

verus! {

/// The transaction entry symbol.
pub const TX_ENTRYPOINT: &'static str = "_apply_tx";

/// The validity-predicate entry symbol.
pub const VP_ENTRYPOINT: &'static str = "_validate_tx";

/// The matchmaker entry symbol.
pub const MATCHMAKER_ENTRYPOINT: &'static str = "_match_intent";

/// The intent-filter entry symbol.
pub const FILTER_ENTRYPOINT: &'static str = "_validate_intent";

/// The export name of the guest's linear memory.
pub const MEMORY_EXPORT: &'static str = "memory";

/// Everything that can go wrong running a guest module.
#[derive(Debug)]
pub enum RunnerError {
    /// Marshaling input or output through guest memory failed.
    MemoryError,
    /// The stack limiter could not be injected.
    StackLimiterInjection,
    /// The byte code did not decode as a WASM module.
    DeserializationError(parity_wasm::elements::Error),
    /// The instrumented module did not encode.
    SerializationError(parity_wasm::elements::Error),
    /// The gas meter could not be injected.
    GasMeterInjection,
    /// The backend rejected the module.
    CompileError(wasmer::CompileError),
    /// The guest exports no linear memory under `memory`.
    MissingModuleMemory(wasmer::ExportError),
    /// The guest exports no entry point under the expected name.
    MissingModuleEntrypoint(wasmer::ExportError),
    /// The guest trapped, or a host call trapped it.
    RuntimeError(wasmer::RuntimeError),
    /// Import resolution or the start function failed.
    InstantiationError(wasmer::InstantiationError),
    /// The entry point exists with the wrong signature.
    UnexpectedModuleEntrypointInterface {
        /// Which entry point was looked up.
        entrypoint: &'static str,
        /// The type mismatch the runtime reported.
        error: wasmer::RuntimeError,
    },
    /// The module uses a forbidden WASM feature.
    ValidationError(wasmparser::BinaryReaderError),
}

impl RunnerError {
    /// This error is one of the instrumenter's four kinds.
    pub open spec fn is_instrument_error(self) -> bool {
        match self {
            RunnerError::DeserializationError(_) => true,
            RunnerError::GasMeterInjection => true,
            RunnerError::StackLimiterInjection => true,
            RunnerError::SerializationError(_) => true,
            _ => false,
        }
    }
}

/// Lift an instrumenter error into the runner's error type, kind for
/// kind.
fn instrument_error(e: InstrumentError) -> (r: RunnerError)
    ensures
        r.is_instrument_error(),
        e is DeserializationError <==> r is DeserializationError,
        e is GasMeterInjection <==> r is GasMeterInjection,
        e is StackLimiterInjection <==> r is StackLimiterInjection,
        e is SerializationError <==> r is SerializationError,
{
    match e {
        InstrumentError::DeserializationError(x) => RunnerError::DeserializationError(x),
        InstrumentError::GasMeterInjection => RunnerError::GasMeterInjection,
        InstrumentError::StackLimiterInjection => RunnerError::StackLimiterInjection,
        InstrumentError::SerializationError(x) => RunnerError::SerializationError(x),
    }
}

/// A validity predicate accepts exactly when its guest returned 1.
pub fn vp_verdict(ret: i64) -> (r: bool)
    ensures
        r <==> ret == 1,
{
    ret == 1
}

/// A matchmaker produced a match exactly when its guest returned 0.
pub fn match_verdict(ret: i64) -> (r: bool)
    ensures
        r <==> ret == 0,
{
    ret == 0
}

/// A filter accepts an intent exactly when its guest returned 0.
pub fn filter_verdict(ret: i64) -> (r: bool)
    ensures
        r <==> ret == 0,
{
    ret == 0
}

/// A throwaway transaction environment used while swapping host state.
fn dummy_tx_env() -> (r: TxEnv)
    ensures
        r.wf(),
{
    TxEnv::new(
        Storage::new(Vec::new(), 0, Vec::new()),
        BlockGasMeter::new(0),
    )
}

/// Register the transaction host-call table under the `env` namespace.
fn prepare_tx_imports(
    store: &mut wasmer::Store,
    fenv: &wasmer::FunctionEnv<HostCtx>,
) -> wasmer::Imports {
    let mut im = crate::wasm::imports_new();
    crate::wasm::imports_define(&mut im, "env", "gas",
        crate::wasm::make_gas_import(store, fenv));
    crate::wasm::imports_define(&mut im, "env", "read",
        crate::wasm::make_host_import(store, fenv, crate::host::TX_READ));
    crate::wasm::imports_define(&mut im, "env", "has_key",
        crate::wasm::make_host_import(store, fenv, crate::host::TX_HAS_KEY));
    crate::wasm::imports_define(&mut im, "env", "write",
        crate::wasm::make_host_import(store, fenv, crate::host::TX_WRITE));
    crate::wasm::imports_define(&mut im, "env", "delete",
        crate::wasm::make_host_import(store, fenv, crate::host::TX_DELETE));
    crate::wasm::imports_define(&mut im, "env", "iter_prefix",
        crate::wasm::make_host_import(store, fenv, crate::host::TX_ITER_PREFIX));
    crate::wasm::imports_define(&mut im, "env", "iter_next",
        crate::wasm::make_host_import(store, fenv, crate::host::TX_ITER_NEXT));
    crate::wasm::imports_define(&mut im, "env", "insert_verifier",
        crate::wasm::make_host_import(store, fenv, crate::host::TX_INSERT_VERIFIER));
    crate::wasm::imports_define(&mut im, "env", "update_validity_predicate",
        crate::wasm::make_host_import(store, fenv, crate::host::TX_UPDATE_VP));
    crate::wasm::imports_define(&mut im, "env", "init_account",
        crate::wasm::make_host_import(store, fenv, crate::host::TX_INIT_ACCOUNT));
    crate::wasm::imports_define(&mut im, "env", "get_chain_id",
        crate::wasm::make_host_import(store, fenv, crate::host::TX_GET_CHAIN_ID));
    crate::wasm::imports_define(&mut im, "env", "get_block_height",
        crate::wasm::make_host_import(store, fenv, crate::host::TX_GET_BLOCK_HEIGHT));
    crate::wasm::imports_define(&mut im, "env", "get_block_hash",
        crate::wasm::make_host_import(store, fenv, crate::host::TX_GET_BLOCK_HASH));
    crate::wasm::imports_define(&mut im, "env", "log_string",
        crate::wasm::make_host_import(store, fenv, crate::host::TX_LOG_STRING));
    im
}

/// Register the validity-predicate host-call table under the `env`
/// namespace.
fn prepare_vp_imports(
    store: &mut wasmer::Store,
    fenv: &wasmer::FunctionEnv<HostCtx>,
) -> wasmer::Imports {
    let mut im = crate::wasm::imports_new();
    crate::wasm::imports_define(&mut im, "env", "gas",
        crate::wasm::make_gas_import(store, fenv));
    crate::wasm::imports_define(&mut im, "env", "read_pre",
        crate::wasm::make_host_import(store, fenv, crate::host::VP_READ_PRE));
    crate::wasm::imports_define(&mut im, "env", "read_post",
        crate::wasm::make_host_import(store, fenv, crate::host::VP_READ_POST));
    crate::wasm::imports_define(&mut im, "env", "has_key_pre",
        crate::wasm::make_host_import(store, fenv, crate::host::VP_HAS_KEY_PRE));
    crate::wasm::imports_define(&mut im, "env", "has_key_post",
        crate::wasm::make_host_import(store, fenv, crate::host::VP_HAS_KEY_POST));
    crate::wasm::imports_define(&mut im, "env", "iter_prefix",
        crate::wasm::make_host_import(store, fenv, crate::host::VP_ITER_PREFIX));
    crate::wasm::imports_define(&mut im, "env", "iter_pre_next",
        crate::wasm::make_host_import(store, fenv, crate::host::VP_ITER_PRE_NEXT));
    crate::wasm::imports_define(&mut im, "env", "iter_post_next",
        crate::wasm::make_host_import(store, fenv, crate::host::VP_ITER_POST_NEXT));
    crate::wasm::imports_define(&mut im, "env", "get_chain_id",
        crate::wasm::make_host_import(store, fenv, crate::host::VP_GET_CHAIN_ID));
    crate::wasm::imports_define(&mut im, "env", "get_block_height",
        crate::wasm::make_host_import(store, fenv, crate::host::VP_GET_BLOCK_HEIGHT));
    crate::wasm::imports_define(&mut im, "env", "get_block_hash",
        crate::wasm::make_host_import(store, fenv, crate::host::VP_GET_BLOCK_HASH));
    crate::wasm::imports_define(&mut im, "env", "eval",
        crate::wasm::make_host_import(store, fenv, crate::host::VP_EVAL));
    crate::wasm::imports_define(&mut im, "env", "log_string",
        crate::wasm::make_host_import(store, fenv, crate::host::VP_LOG_STRING));
    im
}

/// Register the matchmaker host-call table under the `env` namespace.
fn prepare_matchmaker_imports(
    store: &mut wasmer::Store,
    fenv: &wasmer::FunctionEnv<HostCtx>,
) -> wasmer::Imports {
    let mut im = crate::wasm::imports_new();
    crate::wasm::imports_define(&mut im, "env", "gas",
        crate::wasm::make_gas_import(store, fenv));
    crate::wasm::imports_define(&mut im, "env", "send_match",
        crate::wasm::make_host_import(store, fenv, crate::host::MM_SEND_MATCH));
    crate::wasm::imports_define(&mut im, "env", "update_data",
        crate::wasm::make_host_import(store, fenv, crate::host::MM_UPDATE_DATA));
    crate::wasm::imports_define(&mut im, "env", "remove_intents",
        crate::wasm::make_host_import(store, fenv, crate::host::MM_REMOVE_INTENTS));
    crate::wasm::imports_define(&mut im, "env", "log_string",
        crate::wasm::make_host_import(store, fenv, crate::host::MM_LOG_STRING));
    im
}

/// Register the intent-filter host-call table under the `env` namespace.
fn prepare_filter_imports(
    store: &mut wasmer::Store,
    fenv: &wasmer::FunctionEnv<HostCtx>,
) -> wasmer::Imports {
    let mut im = crate::wasm::imports_new();
    crate::wasm::imports_define(&mut im, "env", "gas",
        crate::wasm::make_gas_import(store, fenv));
    crate::wasm::imports_define(&mut im, "env", "log_string",
        crate::wasm::make_host_import(store, fenv, crate::host::FILTER_LOG_STRING));
    im
}

/// Instantiate a compiled module, wire the guest memory into the host
/// data, and write the input regions at their offsets. Returns the
/// instance and its memory.
fn set_up_instance(
    store: &mut wasmer::Store,
    module: &wasmer::Module,
    imports: &wasmer::Imports,
    fenv: &wasmer::FunctionEnv<HostCtx>,
    regions: &Vec<Vec<u8>>,
) -> (r: Result<wasmer::Instance, RunnerError>)
    ensures
        r matches Err(e) ==> !(e is ValidationError) && !e.is_instrument_error()
            && !(e is CompileError),
{
    let instance = match crate::wasm::instantiate(store, module, imports) {
        Ok(i) => i,
        Err(e) => {
            return Err(RunnerError::InstantiationError(e));
        },
    };
    let memory = match crate::wasm::exported_memory(&instance, MEMORY_EXPORT) {
        Ok(m) => m,
        Err(e) => {
            return Err(RunnerError::MissingModuleMemory(e));
        },
    };
    crate::wasm::set_ctx_memory(store, fenv, crate::wasm::clone_memory(&memory));
    let mut offset: u64 = 0;
    let n = regions.len();
    let mut i: usize = 0;
    while i < n
        invariant
            n == regions@.len(),
            i <= n,
        decreases n - i,
    {
        let region = &regions[i];
        if !crate::wasm::write_input_region(store, &memory, offset, region.as_slice()) {
            return Err(RunnerError::MemoryError);
        }
        let len = region.len() as u64;
        if u64::MAX - offset < len {
            return Err(RunnerError::MemoryError);
        }
        offset = offset + len;
        i = i + 1;
    }
    Ok(instance)
}

/// Where the `j`-th region starts when the regions are laid out back to
/// back from offset 0.
spec fn region_offset(rs: Seq<Vec<u8>>, j: int) -> int
    decreases j,
{
    if j <= 0 {
        0
    } else {
        region_offset(rs, j - 1) + rs[j - 1]@.len()
    }
}

/// The `(ptr, len)` pair of each region when the regions are laid out
/// back to back from offset 0: its running offset and its length, as
/// entry-point arguments. Fails when a length or offset does not fit the
/// status-carrying `i64`.
fn region_args(regions: &Vec<Vec<u8>>) -> (r: Option<Vec<(i64, i64)>>)
    ensures
        r matches Some(v) ==> {
            &&& v@.len() == regions@.len()
            &&& forall|j: int| 0 <= j < regions@.len()
                ==> (#[trigger] v@[j]).0 == region_offset(regions@, j)
                    && v@[j].1 == regions@[j]@.len()
        },
{
    let mut args: Vec<(i64, i64)> = Vec::new();
    let mut offset: u64 = 0;
    let n = regions.len();
    let mut i: usize = 0;
    while i < n
        invariant
            n == regions@.len(),
            i <= n,
            args@.len() == i,
            offset == region_offset(regions@, i as int),
            forall|j: int| 0 <= j < i
                ==> (#[trigger] args@[j]).0 == region_offset(regions@, j)
                    && args@[j].1 == regions@[j]@.len(),
        decreases n - i,
    {
        let len = regions[i].len() as u64;
        if offset > i64::MAX as u64 || len > i64::MAX as u64 {
            return None;
        }
        if u64::MAX - offset < len {
            return None;
        }
        args.push((offset as i64, len as i64));
        proof {
            assert(region_offset(regions@, (i + 1) as int)
                == region_offset(regions@, i as int) + regions@[i as int]@.len());
        }
        offset = offset + len;
        i = i + 1;
    }
    Some(args)
}

/// Executes transactions against the ledger state.
pub struct TxRunner {}

impl TxRunner {
    /// A transaction runner.
    pub fn new() -> (r: Self) {
        TxRunner {}
    }

    /// Execute transaction code. Returns the verifiers requested by the
    /// transaction; the write log and the gas meter keep whatever the
    /// guest consumed, whether or not it succeeded.
    pub fn run(
        &self,
        storage: &Storage,
        write_log: &mut WriteLog,
        gas_meter: &mut BlockGasMeter,
        tx_code: Vec<u8>,
        tx_data: Vec<u8>,
    ) -> (r: Result<VerifierSet, RunnerError>)
        requires
            storage.wf(),
            old(write_log).wf(),
            old(gas_meter).wf(),
        ensures
            final(write_log).wf(),
            final(gas_meter).wf(),
            final(gas_meter).spec_ceiling() == old(gas_meter).spec_ceiling(),
            (r matches Err(e) && e is ValidationError) <==> !wasm_validated(tx_code@),
            wasm_validated(tx_code@) ==> (
                (r matches Err(e) && e.is_instrument_error())
                    <==> !crate::instrument::instrumentable(tx_code@)),
            (r matches Err(e) && !(e is ValidationError) && !e.is_instrument_error())
                ==> wasm_validated(tx_code@)
                    && crate::instrument::instrumentable(tx_code@),
            (r matches Err(e) && (e is ValidationError || e.is_instrument_error()
                || e is CompileError)) ==> final(write_log)@ == old(write_log)@
                && final(gas_meter).spec_used() == old(gas_meter).spec_used(),
            r matches Ok(v) ==> v.wf(),
    {
        if let Err(e) = validate_untrusted_wasm(tx_code.as_slice()) {
            return Err(RunnerError::ValidationError(e));
        }
        let prepared = match prepare_wasm_code(tx_code.as_slice()) {
            Ok(b) => b,
            Err(e) => {
                return Err(instrument_error(e));
            },
        };
        let mut store = crate::wasm::store_new();
        let module = match crate::wasm::compile(&store, prepared.as_slice()) {
            Ok(m) => m,
            Err(e) => {
                return Err(RunnerError::CompileError(e));
            },
        };
        let mut wl = WriteLog::new();
        core::mem::swap(write_log, &mut wl);
        let env = TxEnv {
            storage: storage.clone_storage(),
            write_log: wl,
            iterators: PrefixIterators::new(),
            verifiers: VerifierSet::new(),
            gas_meter: gas_meter.snapshot(),
            accounts_created: 0,
        };
        let fenv = crate::wasm::fenv_new(
            &mut store,
            HostCtx { env: AnyEnv::Tx(env), memory: None, sender: None },
        );
        let imports = prepare_tx_imports(&mut store, &fenv);
        let outcome = Self::run_with_input(&mut store, &module, &imports, &fenv, tx_data);
        let taken = crate::wasm::take_tx_env(
            &mut store,
            &fenv,
            AnyEnv::Tx(dummy_tx_env()),
        );
        match taken {
            None => Err(RunnerError::RuntimeError(crate::wasm::runtime_error(
                "transaction host state was lost",
            ))),
            Some(env_final) => {
                let mut wl2 = env_final.write_log;
                core::mem::swap(write_log, &mut wl2);
                let spent = env_final.gas_meter.used();
                let before = gas_meter.used();
                let delta: u64 = if spent >= before {
                    spent - before
                } else {
                    0
                };
                let _ = gas_meter.add(delta);
                match outcome {
                    Ok(()) => Ok(env_final.verifiers),
                    Err(e) => Err(e),
                }
            },
        }
    }

    /// Write the transaction's data into guest memory and call the entry
    /// point.
    fn run_with_input(
        store: &mut wasmer::Store,
        module: &wasmer::Module,
        imports: &wasmer::Imports,
        fenv: &wasmer::FunctionEnv<HostCtx>,
        tx_data: Vec<u8>,
    ) -> (r: Result<(), RunnerError>)
        ensures
            r matches Err(e) ==> !(e is ValidationError) && !e.is_instrument_error()
                && !(e is CompileError),
    {
        let mut regions: Vec<Vec<u8>> = Vec::new();
        regions.push(tx_data);
        let args = match region_args(&regions) {
            Some(a) => a,
            None => {
                return Err(RunnerError::MemoryError);
            },
        };
        let instance = match set_up_instance(store, module, imports, fenv, &regions) {
            Ok(i) => i,
            Err(e) => {
                return Err(e);
            },
        };
        let entry = match crate::wasm::exported_function(&instance, TX_ENTRYPOINT) {
            Ok(f) => f,
            Err(e) => {
                return Err(RunnerError::MissingModuleEntrypoint(e));
            },
        };
        let (data_ptr, data_len) = args[0];
        match crate::wasm::call_tx_entry(store, &entry, data_ptr, data_len) {
            Err(e) => Err(RunnerError::UnexpectedModuleEntrypointInterface {
                entrypoint: TX_ENTRYPOINT,
                error: e,
            }),
            Ok(Err(trap)) => Err(RunnerError::RuntimeError(trap)),
            Ok(Ok(())) => Ok(()),
        }
    }
}

/// Executes validity predicates against a transaction's outcome.
pub struct VpRunner {}

impl VpRunner {
    /// A validity-predicate runner.
    pub fn new() -> (r: Self) {
        VpRunner {}
    }

    /// Run a validity predicate over the transaction's data, code, the
    /// keys it changed in the account's sub-space, and the verifier set
    /// it computed. Only the gas meter comes back changed: the storage
    /// and write-log snapshots are read-only for the whole run.
    pub fn run(
        &self,
        vp_code: &[u8],
        tx_data: Vec<u8>,
        tx_code: Vec<u8>,
        addr: &Address,
        storage: &Storage,
        write_log: &WriteLog,
        vp_gas_meter: &mut VpGasMeter,
        storage_keys: &Vec<Key>,
        verifiers: &VerifierSet,
    ) -> (r: Result<bool, RunnerError>)
        requires
            storage.wf(),
            write_log.wf(),
            old(vp_gas_meter).wf(),
            verifiers.wf(),
        ensures
            final(vp_gas_meter).wf(),
            final(vp_gas_meter).spec_ceiling() == old(vp_gas_meter).spec_ceiling(),
            final(vp_gas_meter).spec_initial() == old(vp_gas_meter).spec_initial(),
            (r matches Err(e) && e is ValidationError) <==> !wasm_validated(vp_code@),
            wasm_validated(vp_code@) ==> (
                (r matches Err(e) && e.is_instrument_error())
                    <==> !crate::instrument::instrumentable(vp_code@)),
            (r matches Err(e) && !(e is ValidationError) && !e.is_instrument_error())
                ==> wasm_validated(vp_code@)
                    && crate::instrument::instrumentable(vp_code@),
            (r matches Err(e) && (e is ValidationError || e.is_instrument_error()
                || e is CompileError)) ==> final(vp_gas_meter).spec_used()
                == old(vp_gas_meter).spec_used(),
    {
        if let Err(e) = validate_untrusted_wasm(vp_code) {
            return Err(RunnerError::ValidationError(e));
        }
        let prepared = match prepare_wasm_code(vp_code) {
            Ok(b) => b,
            Err(e) => {
                return Err(instrument_error(e));
            },
        };
        let env = VpEnv {
            addr: Address { bytes: clone_bytes(&addr.bytes) },
            storage: storage.clone_storage(),
            write_log: write_log.clone_log(),
            iterators: PrefixIterators::new(),
            gas_meter: vp_gas_meter.snapshot(),
            tx_code,
            keys_changed: clone_keys(storage_keys),
            verifiers: verifiers.clone_set(),
        };
        let (res, env_final) = run_vp_instance(prepared.as_slice(), env, tx_data);
        if let Some(ef) = env_final {
            let spent = ef.gas_meter.used();
            let before = vp_gas_meter.used();
            let delta: u64 = if spent >= before {
                spent - before
            } else {
                0
            };
            let _ = vp_gas_meter.add(delta);
        }
        match res {
            Ok(ret) => Ok(vp_verdict(ret)),
            Err(e) => Err(e),
        }
    }
}

/// A copy of a key list.
fn clone_keys(keys: &Vec<Key>) -> (r: Vec<Key>)
    ensures
        r@.map_values(|k: Key| k@) =~= keys@.map_values(|k: Key| k@),
{
    let mut r: Vec<Key> = Vec::new();
    let n = keys.len();
    let mut i: usize = 0;
    while i < n
        invariant
            n == keys@.len(),
            i <= n,
            r@.map_values(|k: Key| k@)
                =~= keys@.map_values(|k: Key| k@).subrange(0, i as int),
        decreases n - i,
    {
        let copy = keys[i].clone_key();
        let ghost pre = r@;
        r.push(copy);
        proof {
            let f = |k: Key| k@;
            assert(pre.map_values(f).len() == i);
            let m = r@.map_values(f);
            assert(m[i as int] == keys@.map_values(f)[i as int]);
            assert forall|j: int| 0 <= j < i implies m[j]
                == keys@.map_values(f)[j] by {
                assert(r@[j] == pre[j]);
                assert(pre.map_values(f)[j] == f(pre[j]));
            }
            assert(m =~= keys@.map_values(f).subrange(0, (i + 1) as int));
        }
        i = i + 1;
    }
    proof {
        assert(keys@.map_values(|k: Key| k@).subrange(0, n as int)
            =~= keys@.map_values(|k: Key| k@));
    }
    r
}

/// Compile and run one predicate instance over an owned environment.
/// Returns the raw verdict and the environment as the run left it.
fn run_vp_instance(
    prepared_code: &[u8],
    env: VpEnv,
    tx_data: Vec<u8>,
) -> (r: (Result<i64, RunnerError>, Option<VpEnv>))
    requires
        env.wf(),
    ensures
        r.1 matches Some(e) ==> e.wf(),
        r.0 matches Err(e) ==> !(e is ValidationError) && !e.is_instrument_error(),
        r.0 matches Err(e) && e is CompileError ==> (r.1 matches Some(ef)
            && ef.gas_meter == env.gas_meter),
{
    let mut regions: Vec<Vec<u8>> = Vec::new();
    regions.push(clone_bytes(&env.addr.bytes));
    regions.push(tx_data);
    let mut keys_list: Vec<Vec<u8>> = Vec::new();
    let nk = env.keys_changed.len();
    let mut i: usize = 0;
    while i < nk
        invariant
            nk == env.keys_changed@.len(),
            i <= nk,
        decreases nk - i,
    {
        keys_list.push(clone_bytes(&env.keys_changed[i].bytes));
        i = i + 1;
    }
    let keys_region = match crate::codec::encode_list(&keys_list) {
        Some(b) => b,
        None => {
            return (Err(RunnerError::MemoryError), Some(env));
        },
    };
    regions.push(keys_region);
    let vers = env.verifiers.to_vec();
    let mut vers_list: Vec<Vec<u8>> = Vec::new();
    let nv = vers.len();
    let mut j: usize = 0;
    while j < nv
        invariant
            nv == vers@.len(),
            j <= nv,
        decreases nv - j,
    {
        vers_list.push(clone_bytes(&vers[j].bytes));
        j = j + 1;
    }
    let vers_region = match crate::codec::encode_list(&vers_list) {
        Some(b) => b,
        None => {
            return (Err(RunnerError::MemoryError), Some(env));
        },
    };
    regions.push(vers_region);
    let args = match region_args(&regions) {
        Some(a) => a,
        None => {
            return (Err(RunnerError::MemoryError), Some(env));
        },
    };
    let mut store = crate::wasm::store_new();
    let module = match crate::wasm::compile(&store, prepared_code) {
        Ok(m) => m,
        Err(e) => {
            return (Err(RunnerError::CompileError(e)), Some(env));
        },
    };
    let fenv = crate::wasm::fenv_new(
        &mut store,
        HostCtx { env: AnyEnv::Vp(env), memory: None, sender: None },
    );
    let imports = prepare_vp_imports(&mut store, &fenv);
    let outcome: Result<i64, RunnerError> = match set_up_instance(
        &mut store, &module, &imports, &fenv, &regions) {
        Err(e) => Err(e),
        Ok(instance) => {
            match crate::wasm::exported_function(&instance, VP_ENTRYPOINT) {
                Err(e) => Err(RunnerError::MissingModuleEntrypoint(e)),
                Ok(entry) => {
                    let call_args: [i64; 8] = [
                        args[0].0, args[0].1, args[1].0, args[1].1,
                        args[2].0, args[2].1, args[3].0, args[3].1,
                    ];
                    match crate::wasm::call_vp_entry(&mut store, &entry, &call_args) {
                        Err(e) => Err(RunnerError::UnexpectedModuleEntrypointInterface {
                            entrypoint: VP_ENTRYPOINT,
                            error: e,
                        }),
                        Ok(Err(trap)) => Err(RunnerError::RuntimeError(trap)),
                        Ok(Ok(ret)) => Ok(ret),
                    }
                },
            }
        },
    };
    let taken = crate::wasm::take_vp_env(
        &mut store,
        &fenv,
        AnyEnv::Filter(FilterEnv { gas_meter: BlockGasMeter::new(0) }),
    );
    (outcome, taken)
}

/// Run a nested validity predicate from inside an outer predicate's
/// `eval` host call: same snapshots, same account, same inputs, gas
/// accrued to the outer meter. Any failure is a rejection. Returns 1 for
/// accept and 0 for reject.
pub fn vp_eval(env: &mut VpEnv, vp_code: Vec<u8>, input: Vec<u8>) -> (r: i64)
    requires
        old(env).wf(),
    ensures
        final(env).wf(),
        crate::host::vp_frozen(*old(env), *final(env)),
        final(env).gas_meter.spec_used() >= old(env).gas_meter.spec_used(),
        r == 1 || r == 0,
        r == 1 ==> crate::instrument::instrumentable(vp_code@),
{
    let prepared = match prepare_wasm_code(vp_code.as_slice()) {
        Ok(b) => b,
        Err(_) => {
            return 0;
        },
    };
    let initial = env.gas_meter.initial();
    let used = env.gas_meter.used();
    let ceiling = env.gas_meter.ceiling();
    let nested = VpEnv {
        addr: Address { bytes: clone_bytes(&env.addr.bytes) },
        storage: env.storage.clone_storage(),
        write_log: env.write_log.clone_log(),
        iterators: PrefixIterators::new(),
        gas_meter: VpGasMeter::new_with_ceiling(initial + used, ceiling),
        tx_code: clone_bytes(&env.tx_code),
        keys_changed: clone_keys(&env.keys_changed),
        verifiers: env.verifiers.clone_set(),
    };
    let (res, nested_final) = run_vp_instance(prepared.as_slice(), nested, input);
    let mut charged_ok = true;
    if let Some(nf) = nested_final {
        let spent = nf.gas_meter.used();
        charged_ok = env.gas_meter.add(spent).is_ok();
    }
    if !charged_ok {
        return 0;
    }
    match res {
        Ok(ret) => {
            if vp_verdict(ret) {
                1
            } else {
                0
            }
        },
        Err(_) => 0,
    }
}

/// The `eval` host call's verified decision: run the nested predicate
/// when the environment is a predicate's and both regions were readable,
/// and reject with 0 otherwise, changing nothing.
pub fn eval_dispatch(env: &mut AnyEnv, r1: Option<Vec<u8>>, r2: Option<Vec<u8>>) -> (r: i64)
    requires
        old(env).wf(),
    ensures
        final(env).wf(),
        r == 1 || r == 0,
        *old(env) is Vp ==> *final(env) is Vp
            && crate::host::vp_frozen((*old(env))->Vp_0, (*final(env))->Vp_0)
            && (*final(env))->Vp_0.gas_meter.spec_used()
                >= (*old(env))->Vp_0.gas_meter.spec_used(),
        !(*old(env) is Vp) || r1 is None || r2 is None
            ==> r == 0 && *final(env) == *old(env),
{
    match (env, r1, r2) {
        (AnyEnv::Vp(venv), Some(code), Some(input)) => vp_eval(venv, code, input),
        _ => 0,
    }
}

/// Runs matchmaker guests over gossiped intents.
pub struct MatchmakerRunner {}

impl MatchmakerRunner {
    /// A matchmaker runner.
    pub fn new() -> (r: Self) {
        MatchmakerRunner {}
    }

    /// Run the matchmaker over its current data and one intent; matched
    /// bundles are emitted through the channel. Returns whether a match
    /// was produced. Matchmaker guests pass the same validation and
    /// instrumentation as every other runner's, so gas and the stack
    /// limit bound them too. The channel send blocks until the consumer
    /// takes the message, so this must not be driven from inside an
    /// asynchronous runtime's worker thread.
    pub fn run(
        &self,
        matchmaker_code: &[u8],
        data: Vec<u8>,
        intent_id: Vec<u8>,
        intent_data: Vec<u8>,
        tx_code: Vec<u8>,
        inject_mm_message: tokio::sync::mpsc::Sender<MatchmakerMessage>,
    ) -> (r: Result<bool, RunnerError>)
        ensures
            (r matches Err(e) && e is ValidationError)
                <==> !wasm_validated(matchmaker_code@),
            wasm_validated(matchmaker_code@) ==> (
                (r matches Err(e) && e.is_instrument_error())
                    <==> !crate::instrument::instrumentable(matchmaker_code@)),
            (r matches Err(e) && !(e is ValidationError) && !e.is_instrument_error())
                ==> wasm_validated(matchmaker_code@)
                    && crate::instrument::instrumentable(matchmaker_code@),
    {
        if let Err(e) = validate_untrusted_wasm(matchmaker_code) {
            return Err(RunnerError::ValidationError(e));
        }
        let prepared = match prepare_wasm_code(matchmaker_code) {
            Ok(b) => b,
            Err(e) => {
                return Err(instrument_error(e));
            },
        };
        let mut store = crate::wasm::store_new();
        let module = match crate::wasm::compile(&store, prepared.as_slice()) {
            Ok(m) => m,
            Err(e) => {
                return Err(RunnerError::CompileError(e));
            },
        };
        let env = MmEnv { tx_code, gas_meter: BlockGasMeter::default_meter() };
        let fenv = crate::wasm::fenv_new(
            &mut store,
            HostCtx {
                env: AnyEnv::Mm(env),
                memory: None,
                sender: Some(inject_mm_message),
            },
        );
        let imports = prepare_matchmaker_imports(&mut store, &fenv);
        let mut regions: Vec<Vec<u8>> = Vec::new();
        regions.push(data);
        regions.push(intent_id);
        regions.push(intent_data);
        let args = match region_args(&regions) {
            Some(a) => a,
            None => {
                return Err(RunnerError::MemoryError);
            },
        };
        let instance = match set_up_instance(&mut store, &module, &imports, &fenv,
            &regions) {
            Ok(i) => i,
            Err(e) => {
                return Err(e);
            },
        };
        let entry = match crate::wasm::exported_function(&instance,
            MATCHMAKER_ENTRYPOINT) {
            Ok(f) => f,
            Err(e) => {
                return Err(RunnerError::MissingModuleEntrypoint(e));
            },
        };
        let call_args: [i64; 6] = [args[0].0, args[0].1, args[1].0, args[1].1,
            args[2].0, args[2].1];
        match crate::wasm::call_mm_entry(&mut store, &entry, &call_args) {
            Err(e) => Err(RunnerError::UnexpectedModuleEntrypointInterface {
                entrypoint: MATCHMAKER_ENTRYPOINT,
                error: e,
            }),
            Ok(Err(trap)) => Err(RunnerError::RuntimeError(trap)),
            Ok(Ok(ret)) => Ok(match_verdict(ret)),
        }
    }
}

/// Runs intent filters ahead of the matchmaker.
pub struct FilterRunner {}

impl FilterRunner {
    /// An intent-filter runner.
    pub fn new() -> (r: Self) {
        FilterRunner {}
    }

    /// Run the filter over one intent's data. Returns whether the intent
    /// passed.
    pub fn run(&self, code: &[u8], intent_data: Vec<u8>) -> (r: Result<bool, RunnerError>)
        ensures
            (r matches Err(e) && e is ValidationError) <==> !wasm_validated(code@),
            wasm_validated(code@) ==> (
                (r matches Err(e) && e.is_instrument_error())
                    <==> !crate::instrument::instrumentable(code@)),
            (r matches Err(e) && !(e is ValidationError) && !e.is_instrument_error())
                ==> wasm_validated(code@)
                    && crate::instrument::instrumentable(code@),
    {
        if let Err(e) = validate_untrusted_wasm(code) {
            return Err(RunnerError::ValidationError(e));
        }
        let prepared = match prepare_wasm_code(code) {
            Ok(b) => b,
            Err(e) => {
                return Err(instrument_error(e));
            },
        };
        let mut store = crate::wasm::store_new();
        let module = match crate::wasm::compile(&store, prepared.as_slice()) {
            Ok(m) => m,
            Err(e) => {
                return Err(RunnerError::CompileError(e));
            },
        };
        let env = FilterEnv { gas_meter: BlockGasMeter::default_meter() };
        let fenv = crate::wasm::fenv_new(
            &mut store,
            HostCtx { env: AnyEnv::Filter(env), memory: None, sender: None },
        );
        let imports = prepare_filter_imports(&mut store, &fenv);
        let mut regions: Vec<Vec<u8>> = Vec::new();
        regions.push(intent_data);
        let args = match region_args(&regions) {
            Some(a) => a,
            None => {
                return Err(RunnerError::MemoryError);
            },
        };
        let instance = match set_up_instance(&mut store, &module, &imports, &fenv,
            &regions) {
            Ok(i) => i,
            Err(e) => {
                return Err(e);
            },
        };
        let entry = match crate::wasm::exported_function(&instance, FILTER_ENTRYPOINT) {
            Ok(f) => f,
            Err(e) => {
                return Err(RunnerError::MissingModuleEntrypoint(e));
            },
        };
        let (data_ptr, data_len) = args[0];
        match crate::wasm::call_filter_entry(&mut store, &entry, data_ptr, data_len) {
            Err(e) => Err(RunnerError::UnexpectedModuleEntrypointInterface {
                entrypoint: FILTER_ENTRYPOINT,
                error: e,
            }),
            Ok(Err(trap)) => Err(RunnerError::RuntimeError(trap)),
            Ok(Ok(ret)) => Ok(filter_verdict(ret)),
        }
    }
}

} // verus!
