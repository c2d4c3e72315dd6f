//! End-to-end runs of the four guest runners over hand-written modules.

use wasm_vm::gas::{BlockGasMeter, VpGasMeter};
use wasm_vm::host::MatchmakerMessage;
use wasm_vm::runner::{FilterRunner, MatchmakerRunner, RunnerError, TxRunner, VpRunner};
use wasm_vm::storage::Storage;
use wasm_vm::types::{Address, Key};
use wasm_vm::verifiers::VerifierSet;
use wasm_vm::write_log::{StorageModification, WriteLog};
use wasm_vm::WASM_STACK_LIMIT;

fn empty_storage() -> Storage {
    Storage::new(b"test-chain".to_vec(), 1, b"block-hash".to_vec())
}

/// Test that when a transaction wasm goes over the stack-height limit, the
/// execution is aborted.
#[test]
fn test_tx_stack_limiter() {
    // Because each call into `$loop` inside the wasm consumes 4 stack
    // heights, this should trigger stack limiter. If we were to subtract
    // one from this value, we should be just under the limit.
    let loops = WASM_STACK_LIMIT / 4;
    // A transaction with a recursive loop.
    let tx_code = wasmer::wat2wasm(
        format!(
            r#"
            (module
                (type (;0;) (func (param i64 i64) (result i64)))

                ;; recursive loop, the param is the number of loops
                (func $loop (param i64) (result i64)
                (if
                (result i64)
                (i64.eqz (local.get 0))
                (then (local.get 0))
                (else (call $loop (i64.sub (local.get 0) (i64.const 1))))))

                (func $apply_tx (type 0) (param i64 i64) (result i64)
                (call $loop (i64.const {})))

                (table (;0;) 1 1 funcref)
                (memory (;0;) 16)
                (global (;0;) (mut i32) (i32.const 1048576))
                (export "memory" (memory 0))
                (export "apply_tx" (func $apply_tx)))
            "#,
            loops
        )
        .as_bytes(),
    )
    .expect("unexpected error converting wat2wasm")
    .into_owned();

    let runner = TxRunner::new();
    let tx_data = vec![];
    let storage = empty_storage();
    let mut write_log = WriteLog::new();
    let mut gas_meter = BlockGasMeter::default_meter();
    let error = runner
        .run(&storage, &mut write_log, &mut gas_meter, tx_code, tx_data)
        .expect_err(
            "Expecting runtime error \"unreachable\" caused by stack-height overflow",
        );
    if let RunnerError::RuntimeError(err) = &error {
        if let Some(trap_code) = err.clone().to_trap() {
            return assert_eq!(trap_code.message(), "unreachable");
        }
    }
    println!("Failed with unexpected error");
}

/// Test that when a VP wasm goes over the stack-height limit, the execution
/// is aborted.
#[test]
fn test_vp_stack_limiter() {
    // Because each call into `$loop` inside the wasm consumes 4 stack
    // heights, this should trigger stack limiter. If we were to subtract
    // one from this value, we should be just under the limit.
    let loops = WASM_STACK_LIMIT / 4;
    // A validity predicate with a recursive loop.
    let vp_code = wasmer::wat2wasm(
        format!(
            r#"
            (module
                (type (;0;) (func (param i64 i64 i64 i64 i64 i64) (result i64)))

                ;; recursive loop, the param is the number of loops
                (func $loop (param i64) (result i64)
                (if
                (result i64)
                (i64.eqz (local.get 0))
                (then (local.get 0))
                (else (call $loop (i64.sub (local.get 0) (i64.const 1))))))

                (func $validate_tx (type 0) (param i64 i64 i64 i64 i64 i64) (result i64)
                (call $loop (i64.const {})))

                (table (;0;) 1 1 funcref)
                (memory (;0;) 16)
                (global (;0;) (mut i32) (i32.const 1048576))
                (export "memory" (memory 0))
                (export "validate_tx" (func $validate_tx)))
            "#,
            loops
        )
        .as_bytes(),
    )
    .expect("unexpected error converting wat2wasm")
    .into_owned();

    let runner = VpRunner::new();
    let tx_data = vec![];
    let tx_code = vec![];
    let storage = empty_storage();
    let addr = Address::new(b"rng seed".to_vec());
    let write_log = WriteLog::new();
    let mut gas_meter = VpGasMeter::new(0);
    let keys_changed: Vec<Key> = vec![];
    let verifiers = VerifierSet::new();
    let error = runner
        .run(
            &vp_code,
            tx_data,
            tx_code,
            &addr,
            &storage,
            &write_log,
            &mut gas_meter,
            &keys_changed,
            &verifiers,
        )
        .expect_err(
            "Expecting runtime error \"unreachable\" caused by stack-height overflow",
        );
    if let RunnerError::RuntimeError(err) = &error {
        if let Some(trap_code) = err.clone().to_trap() {
            return assert_eq!(trap_code.message(), "unreachable");
        }
    }
    println!("Failed with unexpected error");
}

fn recursive_tx_module(loops: u32) -> Vec<u8> {
    wasmer::wat2wasm(
        format!(
            r#"
            (module
                ;; two spare locals bring the frame's stack cost to
                ;; exactly 4: a spare local plus an operand height of 3
                (func $loop (param i64) (result i64) (local i64)
                (if
                (result i64)
                (i64.eqz (local.get 0))
                (then (local.get 0))
                (else (call $loop (i64.sub (local.get 0) (i64.const 1))))))

                (func $apply_tx (param i64 i64)
                (drop (call $loop (i64.const {}))))

                (memory (;0;) 16)
                (export "memory" (memory 0))
                (export "_apply_tx" (func $apply_tx)))
            "#,
            loops
        )
        .as_bytes(),
    )
    .expect("unexpected error converting wat2wasm")
    .into_owned()
}

/// A transaction whose operand stack would pass the limit traps with
/// an unreachable.
#[test]
fn tx_stack_overflow_traps_unreachable() {
    let tx_code = recursive_tx_module(WASM_STACK_LIMIT / 4);
    let runner = TxRunner::new();
    let storage = empty_storage();
    let mut write_log = WriteLog::new();
    let mut gas_meter = BlockGasMeter::default_meter();
    let error = runner
        .run(&storage, &mut write_log, &mut gas_meter, tx_code, vec![])
        .expect_err("the stack limiter must abort the run");
    match error {
        RunnerError::RuntimeError(err) => {
            let trap = err.to_trap().expect("the failure must be a trap");
            assert_eq!(trap.message(), "unreachable");
        }
        _ => panic!("expected a runtime error"),
    }
}

/// The same transaction just under the limit succeeds with an empty
/// verifier set.
#[test]
fn tx_stack_under_limit_succeeds() {
    let tx_code = recursive_tx_module(WASM_STACK_LIMIT / 4 - 1);
    let runner = TxRunner::new();
    let storage = empty_storage();
    let mut write_log = WriteLog::new();
    let mut gas_meter = BlockGasMeter::default_meter();
    let verifiers = runner
        .run(&storage, &mut write_log, &mut gas_meter, tx_code, vec![])
        .expect("just under the limit the run must succeed");
    assert_eq!(verifiers.len(), 0);
    assert!(gas_meter.used() > 0);
}

fn recursive_vp_module(loops: u32) -> Vec<u8> {
    wasmer::wat2wasm(
        format!(
            r#"
            (module
                ;; two spare locals bring the frame's stack cost to
                ;; exactly 4: a spare local plus an operand height of 3
                (func $loop (param i64) (result i64) (local i64)
                (if
                (result i64)
                (i64.eqz (local.get 0))
                (then (local.get 0))
                (else (call $loop (i64.sub (local.get 0) (i64.const 1))))))

                (func $validate_tx (param i64 i64 i64 i64 i64 i64 i64 i64) (result i64)
                (call $loop (i64.const {})))

                (memory (;0;) 16)
                (export "memory" (memory 0))
                (export "_validate_tx" (func $validate_tx)))
            "#,
            loops
        )
        .as_bytes(),
    )
    .expect("unexpected error converting wat2wasm")
    .into_owned()
}

/// A validity predicate over the stack limit traps with an unreachable.
#[test]
fn vp_stack_overflow_traps_unreachable() {
    let vp_code = recursive_vp_module(WASM_STACK_LIMIT / 4);
    let runner = VpRunner::new();
    let storage = empty_storage();
    let addr = Address::new(b"#account".to_vec());
    let write_log = WriteLog::new();
    let mut gas_meter = VpGasMeter::new(0);
    let error = runner
        .run(
            &vp_code,
            vec![],
            vec![],
            &addr,
            &storage,
            &write_log,
            &mut gas_meter,
            &vec![],
            &VerifierSet::new(),
        )
        .expect_err("the stack limiter must abort the run");
    match error {
        RunnerError::RuntimeError(err) => {
            let trap = err.to_trap().expect("the failure must be a trap");
            assert_eq!(trap.message(), "unreachable");
        }
        _ => panic!("expected a runtime error"),
    }
}

/// The validator rejects a module with a SIMD construct.
#[test]
fn validator_rejects_simd() {
    let tx_code = wasmer::wat2wasm(
        br#"
        (module
            (memory 1)
            (func $apply_tx (param i64 i64) (local v128))
            (export "memory" (memory 0))
            (export "_apply_tx" (func $apply_tx)))
        "#,
    )
    .expect("unexpected error converting wat2wasm")
    .into_owned();
    assert!(wasm_vm::validation::validate_untrusted_wasm(&tx_code).is_err());
    let runner = TxRunner::new();
    let storage = empty_storage();
    let mut write_log = WriteLog::new();
    let mut gas_meter = BlockGasMeter::default_meter();
    let error = runner
        .run(&storage, &mut write_log, &mut gas_meter, tx_code, vec![])
        .expect_err("a SIMD module must be rejected");
    assert!(matches!(error, RunnerError::ValidationError(_)));
}

/// A module that exports its memory but no transaction entry point fails
/// with a missing entry point.
#[test]
fn missing_entrypoint_is_reported() {
    let tx_code = wasmer::wat2wasm(
        br#"
        (module
            (memory 1)
            (export "memory" (memory 0)))
        "#,
    )
    .expect("unexpected error converting wat2wasm")
    .into_owned();
    let runner = TxRunner::new();
    let storage = empty_storage();
    let mut write_log = WriteLog::new();
    let mut gas_meter = BlockGasMeter::default_meter();
    let error = runner
        .run(&storage, &mut write_log, &mut gas_meter, tx_code, vec![])
        .expect_err("without an entry point the run must fail");
    assert!(matches!(error, RunnerError::MissingModuleEntrypoint(_)));
}

fn accepting_vp_module() -> Vec<u8> {
    wasmer::wat2wasm(
        br#"
        (module
            (func $validate_tx (param i64 i64 i64 i64 i64 i64 i64 i64) (result i64)
                i64.const 1)
            (memory 1)
            (export "memory" (memory 0))
            (export "_validate_tx" (func $validate_tx)))
        "#,
    )
    .expect("unexpected error converting wat2wasm")
    .into_owned()
}

/// A predicate returning 1 accepts, and the meter records at least the
/// instrumented instruction cost.
#[test]
fn vp_accept_roundtrip_meters_gas() {
    let vp_code = accepting_vp_module();
    let runner = VpRunner::new();
    let storage = empty_storage();
    let addr = Address::new(b"#account".to_vec());
    let write_log = WriteLog::new();
    let mut gas_meter = VpGasMeter::new(0);
    let accepted = runner
        .run(
            &vp_code,
            vec![],
            vec![],
            &addr,
            &storage,
            &write_log,
            &mut gas_meter,
            &vec![],
            &VerifierSet::new(),
        )
        .expect("the accepting predicate must run");
    assert!(accepted);
    assert!(gas_meter.used() >= 1);
}

/// A predicate returning 0 rejects: the verdict maps 1 to accept and
/// everything else to reject.
#[test]
fn vp_zero_verdict_rejects() {
    let vp_code = wasmer::wat2wasm(
        br#"
        (module
            (func $validate_tx (param i64 i64 i64 i64 i64 i64 i64 i64) (result i64)
                i64.const 0)
            (memory 1)
            (export "memory" (memory 0))
            (export "_validate_tx" (func $validate_tx)))
        "#,
    )
    .expect("unexpected error converting wat2wasm")
    .into_owned();
    let runner = VpRunner::new();
    let storage = empty_storage();
    let addr = Address::new(b"#account".to_vec());
    let write_log = WriteLog::new();
    let mut gas_meter = VpGasMeter::new(0);
    let accepted = runner
        .run(
            &vp_code,
            vec![],
            vec![],
            &addr,
            &storage,
            &write_log,
            &mut gas_meter,
            &vec![],
            &VerifierSet::new(),
        )
        .expect("the rejecting predicate must still run");
    assert!(!accepted);
}

/// A guest whose execution charges past the ceiling fails with a runtime
/// error.
#[test]
fn gas_exhaustion_halts_vp() {
    let vp_code = accepting_vp_module();
    let runner = VpRunner::new();
    let storage = empty_storage();
    let addr = Address::new(b"#account".to_vec());
    let write_log = WriteLog::new();
    // A tiny ceiling: the instrumented entry charges more than this.
    let mut gas_meter = VpGasMeter::new_with_ceiling(0, 0);
    let error = runner
        .run(
            &vp_code,
            vec![],
            vec![],
            &addr,
            &storage,
            &write_log,
            &mut gas_meter,
            &vec![],
            &VerifierSet::new(),
        )
        .expect_err("gas exhaustion must abort the run");
    assert!(matches!(error, RunnerError::RuntimeError(_)));
}

/// A transaction exhausting the block gas ceiling fails with a runtime
/// error and the meter is saturated.
#[test]
fn gas_exhaustion_halts_tx() {
    let tx_code = recursive_tx_module(1000);
    let runner = TxRunner::new();
    let storage = empty_storage();
    let mut write_log = WriteLog::new();
    let mut gas_meter = BlockGasMeter::new(10);
    let error = runner
        .run(&storage, &mut write_log, &mut gas_meter, tx_code, vec![])
        .expect_err("gas exhaustion must abort the run");
    assert!(matches!(error, RunnerError::RuntimeError(_)));
    assert_eq!(gas_meter.used(), 10);
}

/// A transaction writes a key, deletes another and declares a verifier;
/// the write log and verifier set coming back show exactly that.
#[test]
fn tx_host_calls_mutate_state() {
    // data layout in guest memory: inputs are written at offset 0; the
    // guest stores its own constants from offset 1024.
    let tx_code = wasmer::wat2wasm(
        br#"
        (module
            (import "env" "write" (func $write (param i64 i64 i64 i64) (result i64)))
            (import "env" "delete" (func $delete (param i64 i64 i64 i64) (result i64)))
            (import "env" "insert_verifier"
                (func $insert_verifier (param i64 i64 i64 i64) (result i64)))
            (func $apply_tx (param i64 i64)
                ;; write "aa/k" = "v1"
                (drop (call $write (i64.const 1024) (i64.const 4)
                    (i64.const 1028) (i64.const 2)))
                ;; delete "aa/d"
                (drop (call $delete (i64.const 1030) (i64.const 4)
                    (i64.const 0) (i64.const 0)))
                ;; verifier address "aa"
                (drop (call $insert_verifier (i64.const 1024) (i64.const 2)
                    (i64.const 0) (i64.const 0))))
            (memory 1)
            (data (i32.const 1024) "aa/kv1aa/d")
            (export "memory" (memory 0))
            (export "_apply_tx" (func $apply_tx)))
        "#,
    )
    .expect("unexpected error converting wat2wasm")
    .into_owned();
    let runner = TxRunner::new();
    let storage = empty_storage();
    let mut write_log = WriteLog::new();
    let mut gas_meter = BlockGasMeter::default_meter();
    let verifiers = runner
        .run(&storage, &mut write_log, &mut gas_meter, tx_code, vec![])
        .expect("the transaction must run");
    assert_eq!(verifiers.len(), 1);
    let vs = verifiers.to_vec();
    assert_eq!(vs[0].bytes, b"aa".to_vec());
    match write_log.read(&Key::new(b"aa/k".to_vec())) {
        Some(StorageModification::Write { value }) => assert_eq!(value, &b"v1".to_vec()),
        _ => panic!("expected a pending write for aa/k"),
    }
    assert!(matches!(
        write_log.read(&Key::new(b"aa/d".to_vec())),
        Some(StorageModification::Delete)
    ));
    assert!(gas_meter.used() > 0);
}

/// A predicate reads the pre-state of a key the transaction changed, and
/// the storage and write-log snapshots stay untouched.
#[test]
fn vp_reads_are_isolated() {
    let vp_code = wasmer::wat2wasm(
        br#"
        (module
            (import "env" "read_pre" (func $read_pre (param i64 i64 i64 i64) (result i64)))
            (import "env" "read_post" (func $read_post (param i64 i64 i64 i64) (result i64)))
            (func $validate_tx (param i64 i64 i64 i64 i64 i64 i64 i64) (result i64)
                ;; pre value of "aa/k" is "old" (3 bytes)
                (i64.ne (call $read_pre (i64.const 1024) (i64.const 4)
                    (i64.const 1100) (i64.const 8)) (i64.const 3))
                (if (then (unreachable)))
                ;; post value of "aa/k" is "newer" (5 bytes)
                (i64.ne (call $read_post (i64.const 1024) (i64.const 4)
                    (i64.const 1100) (i64.const 8)) (i64.const 5))
                (if (then (unreachable)))
                i64.const 1)
            (memory 1)
            (data (i32.const 1024) "aa/k")
            (export "memory" (memory 0))
            (export "_validate_tx" (func $validate_tx)))
        "#,
    )
    .expect("unexpected error converting wat2wasm")
    .into_owned();
    let mut storage = empty_storage();
    storage.write(Key::new(b"aa/k".to_vec()), b"old".to_vec());
    let mut write_log = WriteLog::new();
    write_log.write(Key::new(b"aa/k".to_vec()), b"newer".to_vec());
    let storage_before = storage.len();
    let log_before = write_log.len();
    let runner = VpRunner::new();
    let addr = Address::new(b"aa".to_vec());
    let mut gas_meter = VpGasMeter::new(0);
    let keys = vec![Key::new(b"aa/k".to_vec())];
    let accepted = runner
        .run(
            &vp_code,
            vec![],
            vec![],
            &addr,
            &storage,
            &write_log,
            &mut gas_meter,
            &keys,
            &VerifierSet::new(),
        )
        .expect("the predicate must run");
    assert!(accepted);
    assert_eq!(storage.len(), storage_before);
    assert_eq!(write_log.len(), log_before);
    match write_log.read(&Key::new(b"aa/k".to_vec())) {
        Some(StorageModification::Write { value }) => {
            assert_eq!(value, &b"newer".to_vec())
        }
        _ => panic!("the write log must be unchanged"),
    }
}

/// A matchmaker returning 0 reports a match and its `send_match` host
/// call reaches the channel.
#[test]
fn matchmaker_sends_match() {
    let mm_code = wasmer::wat2wasm(
        br#"
        (module
            (import "env" "send_match" (func $send (param i64 i64 i64 i64) (result i64)))
            (func $match_intent (param i64 i64 i64 i64 i64 i64) (result i64)
                (drop (call $send (i64.const 1024) (i64.const 2)
                    (i64.const 0) (i64.const 0)))
                i64.const 0)
            (memory 1)
            (data (i32.const 1024) "tx")
            (export "memory" (memory 0))
            (export "_match_intent" (func $match_intent)))
        "#,
    )
    .expect("unexpected error converting wat2wasm")
    .into_owned();
    let (sender, mut receiver) = tokio::sync::mpsc::channel(8);
    let runner = MatchmakerRunner::new();
    let matched = runner
        .run(
            &mm_code,
            b"data".to_vec(),
            b"id-1".to_vec(),
            b"intent".to_vec(),
            b"txcode".to_vec(),
            sender,
        )
        .expect("the matchmaker must run");
    assert!(matched);
    match receiver.try_recv().expect("one message must have been sent") {
        MatchmakerMessage::Match { tx_data, intent_ids } => {
            assert_eq!(tx_data, b"tx".to_vec());
            assert_eq!(intent_ids, Vec::<u8>::new());
        }
        _ => panic!("expected a match message"),
    }
}

/// A filter returning 0 passes the intent, one returning 1 drops it.
#[test]
fn filter_verdict_follows_return() {
    let accepting = wasmer::wat2wasm(
        br#"
        (module
            (func $validate_intent (param i64 i64) (result i64) i64.const 0)
            (memory 1)
            (export "memory" (memory 0))
            (export "_validate_intent" (func $validate_intent)))
        "#,
    )
    .expect("unexpected error converting wat2wasm")
    .into_owned();
    let rejecting = wasmer::wat2wasm(
        br#"
        (module
            (func $validate_intent (param i64 i64) (result i64) i64.const 1)
            (memory 1)
            (export "memory" (memory 0))
            (export "_validate_intent" (func $validate_intent)))
        "#,
    )
    .expect("unexpected error converting wat2wasm")
    .into_owned();
    let runner = FilterRunner::new();
    assert!(runner
        .run(&accepting, b"intent".to_vec())
        .expect("the accepting filter must run"));
    assert!(!runner
        .run(&rejecting, b"intent".to_vec())
        .expect("the rejecting filter must run"));
}


/// An entry point with the wrong signature is reported as an interface
/// mismatch, and an unresolvable import as an instantiation error.
#[test]
fn bad_interface_and_missing_import_are_reported() {
    let wrong_sig = wasmer::wat2wasm(
        br#"
        (module
            (func $apply_tx (param i32) )
            (memory 1)
            (export "memory" (memory 0))
            (export "_apply_tx" (func $apply_tx)))
        "#,
    )
    .unwrap()
    .into_owned();
    let runner = TxRunner::new();
    let storage = empty_storage();
    let mut write_log = WriteLog::new();
    let mut gas_meter = BlockGasMeter::default_meter();
    let error = runner
        .run(&storage, &mut write_log, &mut gas_meter, wrong_sig, vec![])
        .expect_err("a wrong entry signature must be rejected");
    assert!(matches!(
        error,
        RunnerError::UnexpectedModuleEntrypointInterface { .. }
    ));
    let unknown_import = wasmer::wat2wasm(
        br#"
        (module
            (import "env" "no_such_host_call" (func $nope (param i64) (result i64)))
            (func $apply_tx (param i64 i64)
                (drop (call $nope (i64.const 0))))
            (memory 1)
            (export "memory" (memory 0))
            (export "_apply_tx" (func $apply_tx)))
        "#,
    )
    .unwrap()
    .into_owned();
    let error = runner
        .run(&storage, &mut write_log, &mut gas_meter, unknown_import, vec![])
        .expect_err("an unknown import must fail instantiation");
    assert!(matches!(error, RunnerError::InstantiationError(_)));
}

/// A predicate calling the `eval` host import on bytes that are no module
/// gets a rejection back and can still accept on its own.
#[test]
fn vp_eval_host_call_reports_nested_verdict() {
    let vp_code = wasmer::wat2wasm(
        br#"
        (module
            (import "env" "eval" (func $eval (param i64 i64 i64 i64) (result i64)))
            (func $validate_tx (param i64 i64 i64 i64 i64 i64 i64 i64) (result i64)
                ;; the nested bytes are no module: the verdict must be 0,
                ;; and this predicate then accepts with 0 + 1
                (i64.add
                    (call $eval (i64.const 1024) (i64.const 4)
                        (i64.const 0) (i64.const 0))
                    (i64.const 1)))
            (memory 1)
            (data (i32.const 1024) "junk")
            (export "memory" (memory 0))
            (export "_validate_tx" (func $validate_tx)))
        "#,
    )
    .expect("unexpected error converting wat2wasm")
    .into_owned();
    let runner = VpRunner::new();
    let storage = empty_storage();
    let addr = Address::new(b"#account".to_vec());
    let write_log = WriteLog::new();
    let mut gas_meter = VpGasMeter::new(0);
    let accepted = runner
        .run(
            &vp_code,
            vec![],
            vec![],
            &addr,
            &storage,
            &write_log,
            &mut gas_meter,
            &vec![],
            &VerifierSet::new(),
        )
        .expect("the predicate must run");
    assert!(accepted);
}

/// Matchmaker guests pass the same validation as every other runner's: a
/// module with a SIMD construct is rejected before it runs.
#[test]
fn matchmaker_validates_its_guest() {
    let mm_code = wasmer::wat2wasm(
        br#"
        (module
            (memory 1)
            (func $match_intent (param i64 i64 i64 i64 i64 i64) (result i64)
                (local v128)
                i64.const 0)
            (export "memory" (memory 0))
            (export "_match_intent" (func $match_intent)))
        "#,
    )
    .expect("unexpected error converting wat2wasm")
    .into_owned();
    let (sender, _receiver) = tokio::sync::mpsc::channel(8);
    let runner = MatchmakerRunner::new();
    let error = runner
        .run(
            &mm_code,
            b"data".to_vec(),
            b"id-1".to_vec(),
            b"intent".to_vec(),
            b"txcode".to_vec(),
            sender,
        )
        .expect_err("a SIMD matchmaker must be rejected");
    assert!(matches!(error, RunnerError::ValidationError(_)));
}

/// Matchmaker guests are instrumented like every other runner's: deep
/// recursion trips the injected stack-height limiter.
#[test]
fn matchmaker_hits_the_stack_limit() {
    let mm_code = wasmer::wat2wasm(
        format!(
            r#"
            (module
                (func $loop (param i64) (result i64) (local i64)
                (if
                (result i64)
                (i64.eqz (local.get 0))
                (then (local.get 0))
                (else (call $loop (i64.sub (local.get 0) (i64.const 1))))))

                (func $match_intent (param i64 i64 i64 i64 i64 i64) (result i64)
                (call $loop (i64.const {})))

                (memory 1)
                (export "memory" (memory 0))
                (export "_match_intent" (func $match_intent)))
            "#,
            WASM_STACK_LIMIT / 4
        )
        .as_bytes(),
    )
    .expect("unexpected error converting wat2wasm")
    .into_owned();
    let (sender, _receiver) = tokio::sync::mpsc::channel(8);
    let runner = MatchmakerRunner::new();
    let error = runner
        .run(
            &mm_code,
            b"data".to_vec(),
            b"id-1".to_vec(),
            b"intent".to_vec(),
            b"txcode".to_vec(),
            sender,
        )
        .expect_err("the stack limiter must abort the run");
    match error {
        RunnerError::RuntimeError(err) => {
            let trap = err.to_trap().expect("the failure must be a trap");
            assert_eq!(trap.message(), "unreachable");
        }
        _ => panic!("expected a runtime error"),
    }
}
