//! Unit tests of the host state model, the gas meters, the framing codec
//! and the validation and instrumentation front ends.

use wasm_vm::codec;
use wasm_vm::gas::{BlockGasMeter, VpGasMeter};
use wasm_vm::host::{
    AnyEnv, charge_host_call, host_bridge, MmEnv, Reply, TxEnv, VpEnv,
    STATUS_ABSENT, TX_INSERT_VERIFIER, TX_READ, TX_WRITE, VP_READ_POST, VP_READ_PRE,
};
use wasm_vm::instrument::prepare_wasm_code;
use wasm_vm::prefix_iter::{PrefixIter, PrefixIterators};
use wasm_vm::router::find_next_slash_index;
use wasm_vm::storage::Storage;
use wasm_vm::types::{Address, Key};
use wasm_vm::validation::validate_untrusted_wasm;
use wasm_vm::verifiers::VerifierSet;
use wasm_vm::write_log::{StorageModification, WriteLog};

fn key(bytes: &[u8]) -> Key {
    Key::new(bytes.to_vec())
}

#[test]
fn gas_meter_counts_and_saturates() {
    let mut m = BlockGasMeter::new(10);
    assert!(m.add(4).is_ok());
    assert_eq!(m.used(), 4);
    assert!(m.add(6).is_ok());
    assert_eq!(m.used(), 10);
    assert!(m.add(1).is_err());
    assert_eq!(m.used(), 10);
    // once exhausted, every further positive charge fails
    assert!(m.add(1).is_err());
    assert!(m.charge3(1, 2, 3).is_err());
}

#[test]
fn vp_gas_meter_shares_the_budget() {
    let mut m = VpGasMeter::new_with_ceiling(7, 10);
    assert!(m.add(3).is_ok());
    assert_eq!(m.used(), 3);
    assert!(m.add(1).is_err());
    assert_eq!(m.used(), 3);
}

#[test]
fn write_log_overlays_and_orders_keys() {
    let mut log = WriteLog::new();
    log.write(key(b"aa/one"), b"1".to_vec());
    log.write(key(b"bb/two"), b"2".to_vec());
    log.delete(key(b"aa/three"));
    log.write(key(b"aa/one"), b"updated".to_vec());
    assert_eq!(log.len(), 3);
    match log.read(&key(b"aa/one")) {
        Some(StorageModification::Write { value }) => {
            assert_eq!(value, &b"updated".to_vec())
        }
        _ => panic!("aa/one must hold the updated write"),
    }
    assert!(matches!(
        log.read(&key(b"aa/three")),
        Some(StorageModification::Delete)
    ));
    assert!(log.read(&key(b"cc/other")).is_none());
    // keys in aa's sub-space come in first-touch order
    let keys = log.subspace_keys_changed(&Address::new(b"aa".to_vec()));
    assert_eq!(keys.len(), 2);
    assert_eq!(keys[0].bytes, b"aa/one".to_vec());
    assert_eq!(keys[1].bytes, b"aa/three".to_vec());
}

#[test]
fn storage_reads_and_prefix_matches() {
    let mut st = Storage::new(b"chain".to_vec(), 9, b"hash".to_vec());
    st.write(key(b"aa/x"), b"1".to_vec());
    st.write(key(b"ab/y"), b"2".to_vec());
    st.write(key(b"aa/z"), b"3".to_vec());
    assert_eq!(st.read(&key(b"aa/x")), Some(b"1".to_vec()));
    assert!(st.read(&key(b"aa/missing")).is_none());
    assert!(st.has_key(&key(b"ab/y")));
    assert!(!st.has_key(&key(b"ab/z")));
    let matches = st.prefix_matches(&key(b"aa"));
    assert_eq!(matches.len(), 2);
    assert_eq!(matches[0].0.bytes, b"aa/x".to_vec());
    assert_eq!(matches[1].0.bytes, b"aa/z".to_vec());
    assert_eq!(st.get_block_height(), 9);
    assert_eq!(st.get_chain_id(), b"chain".to_vec());
    assert_eq!(st.get_block_hash(), b"hash".to_vec());
}

#[test]
fn verifier_set_deduplicates_in_order() {
    let mut v = VerifierSet::new();
    v.insert(Address::new(b"a1".to_vec()));
    v.insert(Address::new(b"a2".to_vec()));
    v.insert(Address::new(b"a1".to_vec()));
    assert_eq!(v.len(), 2);
    assert!(v.contains(&Address::new(b"a2".to_vec())));
    assert!(!v.contains(&Address::new(b"a3".to_vec())));
    let all = v.to_vec();
    assert_eq!(all[0].bytes, b"a1".to_vec());
    assert_eq!(all[1].bytes, b"a2".to_vec());
}

#[test]
fn prefix_iterators_use_dense_handles() {
    let mut iters = PrefixIterators::new();
    let h0 = iters.insert(PrefixIter::new(vec![(key(b"k1"), b"v1".to_vec())]));
    let h1 = iters.insert(PrefixIter::new(vec![]));
    assert_eq!(h0, 0);
    assert_eq!(h1, 1);
    let (k, v) = iters.next(h0).expect("the first iterator holds one pair");
    assert_eq!(k.bytes, b"k1".to_vec());
    assert_eq!(v, b"v1".to_vec());
    assert!(iters.next(h0).is_none());
    assert!(iters.next(h1).is_none());
    assert!(iters.next(7).is_none());
}

#[test]
fn codec_frames_lists_and_pairs() {
    let items = vec![b"ab".to_vec(), b"".to_vec(), b"xyz".to_vec()];
    let framed = codec::encode_list(&items).expect("small items must frame");
    let expected = [
        3u8, 0, 0, 0, // count
        2, 0, 0, 0, b'a', b'b', // "ab"
        0, 0, 0, 0, // ""
        3, 0, 0, 0, b'x', b'y', b'z', // "xyz"
    ];
    assert_eq!(framed, expected.to_vec());
    let pair = codec::encode_pair(&b"k".to_vec(), &b"val".to_vec())
        .expect("small pairs must frame");
    assert_eq!(
        pair,
        vec![1u8, 0, 0, 0, b'k', 3, 0, 0, 0, b'v', b'a', b'l']
    );
}

#[test]
fn find_next_slash_index_walks_segments() {
    let path = "/a/bb/ccc";
    assert_eq!(find_next_slash_index(path, 0), 0);
    assert_eq!(find_next_slash_index(path, 1), 2);
    assert_eq!(find_next_slash_index(path, 3), 5);
    assert_eq!(find_next_slash_index(path, 6), 9);
    assert_eq!(find_next_slash_index("no-slash", 0), 8);
}

fn tx_env() -> TxEnv {
    let mut st = Storage::new(b"chain".to_vec(), 1, b"hash".to_vec());
    st.write(key(b"aa/stored"), b"base".to_vec());
    TxEnv::new(st, BlockGasMeter::new(1_000_000))
}

#[test]
fn tx_bridge_reads_through_the_log() {
    let mut env = AnyEnv::Tx(tx_env());
    // a write then a read of the same key sees the pending value
    let r = host_bridge(
        &mut env,
        TX_WRITE,
        0,
        Some(b"aa/k".to_vec()),
        Some(b"pending".to_vec()),
    );
    assert_eq!(r.status, 0);
    let r = host_bridge(
        &mut env,
        TX_READ,
        0,
        Some(b"aa/k".to_vec()),
        Some(vec![0u8; 32]),
    );
    assert_eq!(r.status, 7);
    assert_eq!(r.write_back, Some(b"pending".to_vec()));
    // an untouched key falls through to storage
    let r = host_bridge(
        &mut env,
        TX_READ,
        0,
        Some(b"aa/stored".to_vec()),
        Some(vec![0u8; 32]),
    );
    assert_eq!(r.write_back, Some(b"base".to_vec()));
    // a missing key reports absence
    let r = host_bridge(
        &mut env,
        TX_READ,
        0,
        Some(b"aa/none".to_vec()),
        Some(vec![0u8; 32]),
    );
    assert_eq!(r.status, STATUS_ABSENT);
}

#[test]
fn tx_bridge_accumulates_verifiers() {
    let mut env = AnyEnv::Tx(tx_env());
    for addr in [b"a1".to_vec(), b"a2".to_vec(), b"a1".to_vec()] {
        let r = host_bridge(&mut env, TX_INSERT_VERIFIER, 0, Some(addr), Some(vec![]));
        assert_eq!(r.status, 0);
    }
    match env {
        AnyEnv::Tx(e) => {
            assert_eq!(e.verifiers.len(), 2);
            assert!(e.verifiers.contains(&Address::new(b"a1".to_vec())));
            assert!(e.verifiers.contains(&Address::new(b"a2".to_vec())));
        }
        _ => panic!("the environment must stay a transaction's"),
    }
}

#[test]
fn bridge_charges_gas_and_traps_when_out() {
    let mut env = AnyEnv::Tx(TxEnv::new(
        Storage::new(vec![], 0, vec![]),
        BlockGasMeter::new(4),
    ));
    // base cost 1 + 2 region bytes = 3, fits under 4
    let r = host_bridge(&mut env, TX_READ, 0, Some(b"ab".to_vec()), Some(vec![]));
    assert!(!r.trap);
    // another 3 does not fit: the call traps and the meter saturates
    let r = host_bridge(&mut env, TX_READ, 0, Some(b"ab".to_vec()), Some(vec![]));
    assert!(r.trap);
    match env {
        AnyEnv::Tx(e) => assert_eq!(e.gas_meter.used(), 4),
        _ => panic!("the environment must stay a transaction's"),
    }
}

#[test]
fn charge_host_call_is_exact() {
    let mut env = AnyEnv::Mm(MmEnv {
        tx_code: vec![],
        gas_meter: BlockGasMeter::new(100),
    });
    assert!(charge_host_call(&mut env, 10, 20));
    match &env {
        AnyEnv::Mm(e) => assert_eq!(e.gas_meter.used(), 31),
        _ => panic!("the environment must stay a matchmaker's"),
    }
}

fn vp_env() -> VpEnv {
    let mut st = Storage::new(b"chain".to_vec(), 1, b"hash".to_vec());
    st.write(key(b"aa/k"), b"old".to_vec());
    let mut wl = WriteLog::new();
    wl.write(key(b"aa/k"), b"newer".to_vec());
    wl.delete(key(b"aa/gone"));
    VpEnv {
        addr: Address::new(b"aa".to_vec()),
        storage: st,
        write_log: wl,
        iterators: PrefixIterators::new(),
        gas_meter: VpGasMeter::new(0),
        tx_code: vec![],
        keys_changed: vec![key(b"aa/k")],
        verifiers: VerifierSet::new(),
    }
}

#[test]
fn vp_bridge_separates_pre_and_post() {
    let mut env = AnyEnv::Vp(vp_env());
    let r = host_bridge(&mut env, VP_READ_PRE, 0, Some(b"aa/k".to_vec()),
        Some(vec![0u8; 16]));
    assert_eq!(r.write_back, Some(b"old".to_vec()));
    let r = host_bridge(&mut env, VP_READ_POST, 0, Some(b"aa/k".to_vec()),
        Some(vec![0u8; 16]));
    assert_eq!(r.write_back, Some(b"newer".to_vec()));
    // the snapshots are untouched by the reads
    match env {
        AnyEnv::Vp(e) => {
            assert_eq!(e.storage.read(&key(b"aa/k")), Some(b"old".to_vec()));
            assert_eq!(e.write_log.len(), 2);
        }
        _ => panic!("the environment must stay a predicate's"),
    }
}

#[test]
fn vp_post_iterator_overlays_the_log() {
    // aa/k is overridden to "newer"; aa/gone is absent in post state
    let mut env2 = vp_env();
    env2.storage.write(key(b"aa/gone"), b"soon".to_vec());
    let r = env2.iter_prefix_call(b"aa/".to_vec());
    assert_eq!(r.status, 0);
    let r = env2.iter_post_next_call(0, 64);
    assert!(r.status > 0);
    let framed = r.write_back.expect("a pair must come back");
    let expected = codec::encode_pair(&b"aa/k".to_vec(), &b"newer".to_vec()).unwrap();
    assert_eq!(framed, expected);
    // the deleted key is skipped; nothing else remains
    let r = env2.iter_post_next_call(0, 64);
    assert_eq!(r.status, STATUS_ABSENT);
}

#[test]
fn reply_constructors_are_plain() {
    let r = Reply::status(5);
    assert_eq!(r.status, 5);
    assert!(!r.trap);
    let t = Reply::trap();
    assert!(t.trap);
}

#[test]
fn validation_accepts_plain_and_rejects_garbage() {
    let plain = wasmer::wat2wasm(b"(module)").unwrap().into_owned();
    assert!(validate_untrusted_wasm(&plain).is_ok());
    assert!(validate_untrusted_wasm(b"not wasm at all").is_err());
    // floating point is rejected under the deterministic mask
    let with_float = wasmer::wat2wasm(
        b"(module (func (result f32) f32.const 1))",
    )
    .unwrap()
    .into_owned();
    assert!(validate_untrusted_wasm(&with_float).is_err());
}

#[test]
fn instrumentation_rewrites_the_module() {
    let module = wasmer::wat2wasm(
        b"(module (func $f (param i64) (result i64) (i64.add (local.get 0) (i64.const 1))))",
    )
    .unwrap()
    .into_owned();
    let prepared = prepare_wasm_code(&module).expect("a plain module must instrument");
    // the rewrite injects the gas import and the stack limiter: it cannot
    // hand its input back unchanged
    assert_ne!(prepared, module);
    assert!(prepared.len() > module.len());
    // instrumentation is deterministic
    let again = prepare_wasm_code(&module).expect("a plain module must instrument");
    assert_eq!(prepared, again);
    // bytes that are no module fail at the decode stage
    assert!(prepare_wasm_code(b"junk").is_err());
}

#[test]
fn tx_bridge_update_vp_and_init_account() {
    let mut env = AnyEnv::Tx(tx_env());
    let r = host_bridge(
        &mut env,
        wasm_vm::host::TX_UPDATE_VP,
        0,
        Some(b"acct".to_vec()),
        Some(b"vp code".to_vec()),
    );
    assert_eq!(r.status, 0);
    let r = host_bridge(
        &mut env,
        wasm_vm::host::TX_INIT_ACCOUNT,
        0,
        Some(b"new vp".to_vec()),
        Some(vec![0u8; 16]),
    );
    assert_eq!(r.status, 9);
    let addr = r.write_back.expect("the new address comes back");
    // marker byte then the counter 0 in little-endian bytes
    assert_eq!(addr, vec![35u8, 0, 0, 0, 0, 0, 0, 0, 0]);
    match env {
        AnyEnv::Tx(e) => {
            match e.write_log.read(&key(b"acct/vp")) {
                Some(StorageModification::Write { value }) => {
                    assert_eq!(value, &b"vp code".to_vec())
                }
                _ => panic!("the predicate update must be pending"),
            }
            let mut vp_key = addr.clone();
            vp_key.extend_from_slice(b"/vp");
            match e.write_log.read(&Key::new(vp_key)) {
                Some(StorageModification::Write { value }) => {
                    assert_eq!(value, &b"new vp".to_vec())
                }
                _ => panic!("the new account's predicate must be pending"),
            }
        }
        _ => panic!("the environment must stay a transaction's"),
    }
}

#[test]
fn tx_bridge_iterates_storage_and_block_data() {
    let mut env = AnyEnv::Tx(tx_env());
    let r = host_bridge(
        &mut env,
        wasm_vm::host::TX_ITER_PREFIX,
        0,
        Some(b"aa/".to_vec()),
        Some(vec![]),
    );
    assert_eq!(r.status, 0);
    let r = host_bridge(
        &mut env,
        wasm_vm::host::TX_ITER_NEXT,
        0,
        Some(vec![]),
        Some(vec![0u8; 64]),
    );
    assert!(r.status > 0);
    let expected =
        codec::encode_pair(&b"aa/stored".to_vec(), &b"base".to_vec()).unwrap();
    assert_eq!(r.write_back, Some(expected));
    let r = host_bridge(
        &mut env,
        wasm_vm::host::TX_ITER_NEXT,
        0,
        Some(vec![]),
        Some(vec![0u8; 64]),
    );
    assert_eq!(r.status, STATUS_ABSENT);
    let r = host_bridge(
        &mut env,
        wasm_vm::host::TX_GET_CHAIN_ID,
        0,
        Some(vec![]),
        Some(vec![0u8; 16]),
    );
    assert_eq!(r.write_back, Some(b"chain".to_vec()));
    let r = host_bridge(
        &mut env,
        wasm_vm::host::TX_GET_BLOCK_HEIGHT,
        0,
        Some(vec![]),
        Some(vec![]),
    );
    assert_eq!(r.status, 1);
}

#[test]
fn mm_bridge_emits_update_and_remove() {
    let mut env = AnyEnv::Mm(MmEnv {
        tx_code: vec![],
        gas_meter: BlockGasMeter::new(1000),
    });
    let r = host_bridge(
        &mut env,
        wasm_vm::host::MM_UPDATE_DATA,
        0,
        Some(b"id-1".to_vec()),
        Some(b"fresh".to_vec()),
    );
    match r.send {
        Some(wasm_vm::host::MatchmakerMessage::Update { intent_id, new_data }) => {
            assert_eq!(intent_id, b"id-1".to_vec());
            assert_eq!(new_data, b"fresh".to_vec());
        }
        _ => panic!("expected an update message"),
    }
    let r = host_bridge(
        &mut env,
        wasm_vm::host::MM_REMOVE_INTENTS,
        0,
        Some(b"ids".to_vec()),
        Some(vec![]),
    );
    match r.send {
        Some(wasm_vm::host::MatchmakerMessage::Remove { intent_ids }) => {
            assert_eq!(intent_ids, b"ids".to_vec());
        }
        _ => panic!("expected a remove message"),
    }
}

#[test]
fn unknown_code_and_unreadable_region_trap() {
    let mut env = AnyEnv::Tx(tx_env());
    let r = host_bridge(&mut env, 9999, 0, Some(vec![]), Some(vec![]));
    assert!(r.trap);
    let r = host_bridge(&mut env, TX_READ, 0, None, Some(vec![]));
    assert!(r.trap);
}

#[test]
fn vp_eval_runs_a_nested_predicate() {
    let accepting = wasmer::wat2wasm(
        br#"
        (module
            (func $validate_tx (param i64 i64 i64 i64 i64 i64 i64 i64) (result i64)
                i64.const 1)
            (memory 1)
            (export "memory" (memory 0))
            (export "_validate_tx" (func $validate_tx)))
        "#,
    )
    .unwrap()
    .into_owned();
    let mut env = vp_env();
    let before = env.gas_meter.used();
    let verdict = wasm_vm::runner::vp_eval(&mut env, accepting, vec![]);
    assert_eq!(verdict, 1);
    assert!(env.gas_meter.used() > before);
    // a module that does not even decode is a rejection
    let verdict = wasm_vm::runner::vp_eval(&mut env, b"junk".to_vec(), vec![]);
    assert_eq!(verdict, 0);
}

#[test]
fn codec_decode_inverts_encode() {
    let items = vec![b"first".to_vec(), b"".to_vec(), b"third".to_vec()];
    let framed = codec::encode_list(&items).unwrap();
    let parsed = codec::decode_list(&framed).expect("a framing must parse");
    assert_eq!(parsed, items);
    // an empty list survives the trip too
    let framed = codec::encode_list(&Vec::new()).unwrap();
    assert_eq!(codec::decode_list(&framed), Some(Vec::new()));
    // truncated framings are rejected
    let framed = codec::encode_list(&items).unwrap();
    assert!(codec::decode_list(&framed[..framed.len() - 1]).is_none());
    assert!(codec::decode_list(&framed[..3]).is_none());
    // trailing bytes are rejected: the framing is the whole input
    let mut long = framed.clone();
    long.push(0);
    assert!(codec::decode_list(&long).is_none());
}

#[test]
fn commit_flushes_the_log_into_storage() {
    let mut st = Storage::new(b"chain".to_vec(), 1, b"hash".to_vec());
    st.write(key(b"aa/keep"), b"kept".to_vec());
    st.write(key(b"aa/gone"), b"dropped".to_vec());
    st.write(key(b"aa/old"), b"before".to_vec());
    let mut log = WriteLog::new();
    log.write(key(b"aa/old"), b"after".to_vec());
    log.write(key(b"aa/new"), b"fresh".to_vec());
    log.delete(key(b"aa/gone"));
    log.commit(&mut st);
    assert_eq!(st.read(&key(b"aa/keep")), Some(b"kept".to_vec()));
    assert_eq!(st.read(&key(b"aa/old")), Some(b"after".to_vec()));
    assert_eq!(st.read(&key(b"aa/new")), Some(b"fresh".to_vec()));
    assert!(st.read(&key(b"aa/gone")).is_none());
    assert_eq!(st.get_block_height(), 1);
}

#[test]
fn init_account_needs_a_nine_byte_buffer() {
    let mut env = tx_env();
    let r = env.init_account_call(b"vp".to_vec(), 8);
    assert_eq!(r.status, wasm_vm::host::STATUS_TOO_SMALL);
    let r = env.init_account_call(b"vp".to_vec(), 9);
    assert_eq!(r.status, 9);
}

#[test]
fn iterator_steps_consume_even_small_buffers() {
    let mut env = tx_env();
    let r = env.iter_prefix_call(b"aa/".to_vec());
    assert_eq!(r.status, 0);
    // the only entry does not fit a one-byte buffer and is consumed
    let r = env.iter_next_call(0, 1);
    assert_eq!(r.status, wasm_vm::host::STATUS_TOO_SMALL);
    let r = env.iter_next_call(0, 64);
    assert_eq!(r.status, wasm_vm::host::STATUS_ABSENT);
    // an unknown handle is invalid, not absent
    let r = env.iter_next_call(9, 64);
    assert_eq!(r.status, wasm_vm::host::STATUS_INVALID);
}
