//! The host-call table: typed host state and the verified dispatch that
//! every guest import funnels into.
//!
//! Each runner category owns a host environment. A host call arrives as a
//! call code, the guest's four raw `i64` arguments `(a, b, x, y)`, and the
//! two memory regions `r1 = memory[a..a+b]` and `r2 = memory[x..x+y]`
//! (absent when out of bounds). The dispatch charges gas, performs the
//! operation on the environment, and answers with a status, an optional
//! payload to write back at offset `x`, an optional matchmaker message to
//! send, or an instruction to trap the guest.
//!
//! Transaction calls may mutate the write log, the verifier set and the
//! iterators; validity-predicate calls never mutate anything but the
//! predicate's own gas meter and iterators, which makes the storage and
//! write-log snapshots read-only for the whole predicate phase.

use vstd::prelude::*;

use crate::gas::{BlockGasMeter, VpGasMeter};
use crate::prefix_iter::{PrefixIter, PrefixIterators};
use crate::storage::Storage;
use crate::types::{Address, Key};
use crate::verifiers::VerifierSet;
use crate::write_log::{log_read, read_committed, ModVal, WriteLog};

verus! {

/// Gas charged by every host call on top of its payload sizes.
pub const HOST_CALL_BASE_GAS: u64 = 1;

/// Read a storage value: `r1` is the key, `(x, y)` the result buffer.
pub const TX_READ: u64 = 1;
/// Test presence of a storage key: `r1` is the key.
pub const TX_HAS_KEY: u64 = 2;
/// Record a pending write: `r1` is the key, `r2` the value.
pub const TX_WRITE: u64 = 3;
/// Record a pending deletion: `r1` is the key.
pub const TX_DELETE: u64 = 4;
/// Open a prefix iterator over storage: `r1` is the prefix.
pub const TX_ITER_PREFIX: u64 = 5;
/// Step a prefix iterator: `a` is the handle, `(x, y)` the result buffer.
pub const TX_ITER_NEXT: u64 = 6;
/// Add an address to the verifier set: `r1` is the address.
pub const TX_INSERT_VERIFIER: u64 = 7;
/// Record a pending write of an account's validity predicate: `r1` is the
/// address, `r2` the predicate code.
pub const TX_UPDATE_VP: u64 = 8;
/// Create an account: `r1` is its validity predicate, `(x, y)` the buffer
/// receiving the new address.
pub const TX_INIT_ACCOUNT: u64 = 9;
/// Write the chain identifier into the `(x, y)` buffer.
pub const TX_GET_CHAIN_ID: u64 = 10;
/// Return the block height in the status.
pub const TX_GET_BLOCK_HEIGHT: u64 = 11;
/// Write the block hash into the `(x, y)` buffer.
pub const TX_GET_BLOCK_HASH: u64 = 12;
/// Log a guest string (`r1`); only gas is charged.
pub const TX_LOG_STRING: u64 = 13;

/// Read from storage as it was before the transaction.
pub const VP_READ_PRE: u64 = 21;
/// Read through the transaction's write log.
pub const VP_READ_POST: u64 = 22;
/// Test pre-transaction presence of a key.
pub const VP_HAS_KEY_PRE: u64 = 23;
/// Test post-transaction presence of a key.
pub const VP_HAS_KEY_POST: u64 = 24;
/// Open a prefix iterator over the pre-transaction storage.
pub const VP_ITER_PREFIX: u64 = 25;
/// Step an iterator over pre-transaction state.
pub const VP_ITER_PRE_NEXT: u64 = 26;
/// Step an iterator, overlaying the transaction's write log.
pub const VP_ITER_POST_NEXT: u64 = 27;
/// Write the chain identifier into the `(x, y)` buffer.
pub const VP_GET_CHAIN_ID: u64 = 28;
/// Return the block height in the status.
pub const VP_GET_BLOCK_HEIGHT: u64 = 29;
/// Write the block hash into the `(x, y)` buffer.
pub const VP_GET_BLOCK_HASH: u64 = 30;
/// Log a guest string (`r1`); only gas is charged.
pub const VP_LOG_STRING: u64 = 31;
/// Run a nested validity predicate: `r1` is its code, `r2` its input.
/// Dispatched by the runner, not by this module.
pub const VP_EVAL: u64 = 32;

/// Emit a matched-intents bundle: `r1` is the settlement transaction's
/// data, `r2` the framed list of intent identifiers.
pub const MM_SEND_MATCH: u64 = 41;
/// Update an intent's data: `r1` is the intent identifier, `r2` the data.
pub const MM_UPDATE_DATA: u64 = 42;
/// Remove intents: `r1` is the framed list of intent identifiers.
pub const MM_REMOVE_INTENTS: u64 = 43;
/// Log a guest string (`r1`); only gas is charged.
pub const MM_LOG_STRING: u64 = 44;

/// Log a guest string (`r1`); only gas is charged.
pub const FILTER_LOG_STRING: u64 = 51;

/// Status: the key or iterator is exhausted or absent.
pub const STATUS_ABSENT: i64 = -1;
/// Status: the result buffer is too small for the payload.
pub const STATUS_TOO_SMALL: i64 = -2;
/// Status: an argument was malformed or a handle unknown.
pub const STATUS_INVALID: i64 = -3;

/// A message from a matchmaker guest to the external intent consumer.
#[derive(Clone, Debug)]
pub enum MatchmakerMessage {
    /// A settlement transaction covering the given intents.
    Match {
        /// Data of the settlement transaction.
        tx_data: Vec<u8>,
        /// The framed identifiers of the matched intents.
        intent_ids: Vec<u8>,
    },
    /// New data for one intent.
    Update {
        /// The intent's identifier.
        intent_id: Vec<u8>,
        /// Its new data.
        new_data: Vec<u8>,
    },
    /// Intents to drop from the pool.
    Remove {
        /// The framed identifiers of the removed intents.
        intent_ids: Vec<u8>,
    },
}

/// Host state of one transaction run.
pub struct TxEnv {
    /// The ledger state, read-only for the transaction.
    pub storage: Storage,
    /// The transaction's pending mutations.
    pub write_log: WriteLog,
    /// Live prefix iterators.
    pub iterators: PrefixIterators,
    /// Addresses whose predicates must validate this transaction.
    pub verifiers: VerifierSet,
    /// The transaction's gas meter.
    pub gas_meter: BlockGasMeter,
    /// How many accounts this transaction has created.
    pub accounts_created: u64,
}

impl TxEnv {
    /// All parts are well-formed.
    pub open spec fn wf(self) -> bool {
        &&& self.storage.wf()
        &&& self.write_log.wf()
        &&& self.iterators.wf()
        &&& self.verifiers.wf()
        &&& self.gas_meter.wf()
    }

    /// A fresh environment around the given storage and meter.
    pub fn new(storage: Storage, gas_meter: BlockGasMeter) -> (r: Self)
        requires
            storage.wf(),
            gas_meter.wf(),
        ensures
            r.wf(),
            r.storage == storage,
            r.gas_meter == gas_meter,
            r.write_log@ =~= Seq::<(Seq<u8>, ModVal)>::empty(),
            r.verifiers@ =~= Seq::<Seq<u8>>::empty(),
    {
        TxEnv {
            storage,
            write_log: WriteLog::new(),
            iterators: PrefixIterators::new(),
            verifiers: VerifierSet::new(),
            gas_meter,
            accounts_created: 0,
        }
    }
}

/// Host state of one validity-predicate run.
pub struct VpEnv {
    /// The account whose predicate runs.
    pub addr: Address,
    /// The pre-transaction ledger state, read-only.
    pub storage: Storage,
    /// The transaction's write log, a read-only snapshot.
    pub write_log: WriteLog,
    /// Live prefix iterators, owned by this predicate.
    pub iterators: PrefixIterators,
    /// This predicate's gas meter.
    pub gas_meter: VpGasMeter,
    /// The transaction's code.
    pub tx_code: Vec<u8>,
    /// The keys the transaction touched in the account's sub-space.
    pub keys_changed: Vec<Key>,
    /// The verifier set the transaction computed.
    pub verifiers: VerifierSet,
}

impl VpEnv {
    /// Every pair a live iterator holds was read from the storage
    /// snapshot.
    pub open spec fn iters_consistent(self) -> bool {
        forall|i: int, j: int|
            0 <= i < self.iterators@.len()
                && 0 <= j < self.iterators@[i].spec_entries().len()
                ==> crate::storage::store_read(
                    self.storage@,
                    (#[trigger] self.iterators@[i].spec_entries()[j]).0,
                ) == Some(self.iterators@[i].spec_entries()[j].1)
    }

    /// All parts are well-formed, and the iterators mirror storage.
    pub open spec fn wf(self) -> bool {
        &&& self.storage.wf()
        &&& self.write_log.wf()
        &&& self.iterators.wf()
        &&& self.verifiers.wf()
        &&& self.gas_meter.wf()
        &&& self.iters_consistent()
    }
}

/// Everything a validity predicate may never change: all of its
/// environment except the gas meter's consumption and the iterators.
pub open spec fn vp_frozen(pre: VpEnv, post: VpEnv) -> bool {
    &&& post.storage@ == pre.storage@
    &&& post.storage.spec_chain_id() == pre.storage.spec_chain_id()
    &&& post.storage.spec_block_height() == pre.storage.spec_block_height()
    &&& post.storage.spec_block_hash() == pre.storage.spec_block_hash()
    &&& post.write_log@ == pre.write_log@
    &&& post.addr@ == pre.addr@
    &&& post.tx_code@ == pre.tx_code@
    &&& post.keys_changed@ == pre.keys_changed@
    &&& post.verifiers@ == pre.verifiers@
    &&& post.gas_meter.spec_ceiling() == pre.gas_meter.spec_ceiling()
    &&& post.gas_meter.spec_initial() == pre.gas_meter.spec_initial()
}

/// Host state of one matchmaker run.
pub struct MmEnv {
    /// The settlement transaction code handed to the matchmaker.
    pub tx_code: Vec<u8>,
    /// Internal gas meter bounding the run.
    pub gas_meter: BlockGasMeter,
}

impl MmEnv {
    /// All parts are well-formed.
    pub open spec fn wf(self) -> bool {
        self.gas_meter.wf()
    }
}

/// Host state of one intent-filter run.
pub struct FilterEnv {
    /// Internal gas meter bounding the run.
    pub gas_meter: BlockGasMeter,
}

impl FilterEnv {
    /// All parts are well-formed.
    pub open spec fn wf(self) -> bool {
        self.gas_meter.wf()
    }
}

/// The host environment of whichever runner category is executing.
pub enum AnyEnv {
    /// A transaction run.
    Tx(TxEnv),
    /// A validity-predicate run.
    Vp(VpEnv),
    /// A matchmaker run.
    Mm(MmEnv),
    /// An intent-filter run.
    Filter(FilterEnv),
}

impl AnyEnv {
    /// The contained environment is well-formed.
    pub open spec fn wf(self) -> bool {
        match self {
            AnyEnv::Tx(e) => e.wf(),
            AnyEnv::Vp(e) => e.wf(),
            AnyEnv::Mm(e) => e.wf(),
            AnyEnv::Filter(e) => e.wf(),
        }
    }
}

/// The dispatch's answer to one host call.
pub struct Reply {
    /// The `i64` handed back to the guest.
    pub status: i64,
    /// Payload to write into guest memory at offset `x`, if any.
    pub write_back: Option<Vec<u8>>,
    /// Matchmaker message to send on the channel, if any.
    pub send: Option<MatchmakerMessage>,
    /// Whether to trap the guest instead of returning.
    pub trap: bool,
}

impl Reply {
    /// A plain status answer.
    pub fn status(status: i64) -> (r: Self)
        ensures
            r.status == status,
            r.write_back is None,
            r.send is None,
            !r.trap,
    {
        Reply { status, write_back: None, send: None, trap: false }
    }

    /// An answer that traps the guest.
    pub fn trap() -> (r: Self)
        ensures
            r.trap,
            r.write_back is None,
            r.send is None,
    {
        Reply { status: 0, write_back: None, send: None, trap: true }
    }
}

/// The bytes of an optional region.
pub open spec fn opt_bytes(o: Option<Vec<u8>>) -> Option<Seq<u8>> {
    match o {
        Some(v) => Some(v@),
        None => None,
    }
}

/// How the verifier set evolves under one host call: `insert_verifier`
/// with a readable region adds that address, every other call leaves the
/// set alone.
pub open spec fn tx_verifiers_step(
    v: Set<Seq<u8>>,
    code: u64,
    r1: Option<Seq<u8>>,
) -> Set<Seq<u8>> {
    if code == TX_INSERT_VERIFIER && r1 is Some {
        v.insert(r1->0)
    } else {
        v
    }
}

/// What a transaction host call may never change: the storage snapshot
/// and the meter's ceiling.
pub open spec fn tx_base(pre: TxEnv, post: TxEnv) -> bool {
    &&& post.storage@ == pre.storage@
    &&& post.storage.spec_chain_id() == pre.storage.spec_chain_id()
    &&& post.storage.spec_block_height() == pre.storage.spec_block_height()
    &&& post.storage.spec_block_hash() == pre.storage.spec_block_hash()
    &&& post.gas_meter.spec_ceiling() == pre.gas_meter.spec_ceiling()
}

/// A transaction host call that leaves everything but the gas meter alone.
pub open spec fn tx_untouched(pre: TxEnv, post: TxEnv) -> bool {
    &&& tx_base(pre, post)
    &&& post.write_log@ == pre.write_log@
    &&& post.verifiers@ == pre.verifiers@
    &&& post.iterators@ == pre.iterators@
    &&& post.accounts_created == pre.accounts_created
    &&& post.gas_meter == pre.gas_meter
}

/// The key and value of one iterator entry both fit a `u32` length
/// field, so the pair can be framed.
pub open spec fn pair_encodable(e: (Seq<u8>, Seq<u8>)) -> bool {
    e.0.len() <= u32::MAX && e.1.len() <= u32::MAX
}

/// The framed pair fits the result buffer and the status field.
pub open spec fn pair_fits(e: (Seq<u8>, Seq<u8>), cap: int) -> bool {
    crate::codec::spec_encode_pair(e.0, e.1).len() <= cap
        && crate::codec::spec_encode_pair(e.0, e.1).len() <= i64::MAX
}

/// A stored pair that is still present after the transaction's pending
/// mutations.
pub open spec fn live_entry(
    st: Seq<(Seq<u8>, Seq<u8>)>,
    wl: Seq<(Seq<u8>, ModVal)>,
    e: (Seq<u8>, Seq<u8>),
) -> bool {
    read_committed(st, wl, e.0) is Some
}

/// What one iterator step answers, given the stepped entry `e` and the
/// buffer capacity: the framed pair when it can be framed and fits, a
/// too-small status when it cannot fit, an invalid status when it cannot
/// even be framed. The entry is consumed in every case.
pub open spec fn stepped_pair_reply(r: Reply, e: (Seq<u8>, Seq<u8>), cap: int) -> bool {
    &&& (!pair_encodable(e) ==> r.status == STATUS_INVALID && r.write_back is None)
    &&& (pair_encodable(e) && pair_fits(e, cap) ==> {
        &&& r.status == crate::codec::spec_encode_pair(e.0, e.1).len()
        &&& (r.write_back matches Some(w)
            && w@ == crate::codec::spec_encode_pair(e.0, e.1))
    })
    &&& (pair_encodable(e) && !pair_fits(e, cap)
        ==> r.status == STATUS_TOO_SMALL && r.write_back is None)
}

/// Answer a value lookup: absent, delivered, or too large for the buffer.
fn value_reply(v: Option<Vec<u8>>, cap: usize) -> (r: Reply)
    ensures
        !r.trap,
        r.send is None,
        match v {
            None => r.status == STATUS_ABSENT && r.write_back is None,
            Some(val) => {
                if val@.len() <= cap && val@.len() <= i64::MAX {
                    &&& r.status == val@.len()
                    &&& r.write_back matches Some(w) && w@ == val@
                } else {
                    &&& r.status == STATUS_TOO_SMALL
                    &&& r.write_back is None
                }
            },
        },
{
    match v {
        None => Reply::status(STATUS_ABSENT),
        Some(val) => {
            if val.len() <= cap && (val.len() as u64) <= (i64::MAX as u64) {
                let status = val.len() as i64;
                Reply { status, write_back: Some(val), send: None, trap: false }
            } else {
                Reply::status(STATUS_TOO_SMALL)
            }
        },
    }
}

impl TxEnv {
    /// The post-transaction value of `key`: the write log over storage.
    pub fn read_call(&mut self, key: Vec<u8>, cap: usize) -> (r: Reply)
        requires
            old(self).wf(),
        ensures
            final(self).wf(),
            tx_untouched(*old(self), *final(self)),
            !r.trap,
            r.send is None,
            match read_committed(old(self).storage@, old(self).write_log@, key@) {
                None => r.status == STATUS_ABSENT && r.write_back is None,
                Some(v) => {
                    if v.len() <= cap && v.len() <= i64::MAX {
                        r.status == v.len()
                            && (r.write_back matches Some(w) && w@ == v)
                    } else {
                        r.status == STATUS_TOO_SMALL && r.write_back is None
                    }
                },
            },
    {
        let k = Key::new(key);
        let v: Option<Vec<u8>> = match self.write_log.read(&k) {
            Some(m) => match m {
                crate::write_log::StorageModification::Write { value } => {
                    Some(crate::types::clone_bytes(value))
                },
                crate::write_log::StorageModification::Delete => None,
            },
            None => self.storage.read(&k),
        };
        value_reply(v, cap)
    }

    /// Whether `key` is present after the transaction's pending mutations.
    pub fn has_key_call(&mut self, key: Vec<u8>) -> (r: Reply)
        requires
            old(self).wf(),
        ensures
            final(self).wf(),
            tx_untouched(*old(self), *final(self)),
            !r.trap,
            r.send is None,
            r.write_back is None,
            r.status == 1 <==> read_committed(
                old(self).storage@, old(self).write_log@, key@) is Some,
            r.status == 0 <==> read_committed(
                old(self).storage@, old(self).write_log@, key@) is None,
    {
        let k = Key::new(key);
        let present: bool = match self.write_log.read(&k) {
            Some(m) => match m {
                crate::write_log::StorageModification::Write { .. } => true,
                crate::write_log::StorageModification::Delete => false,
            },
            None => self.storage.has_key(&k),
        };
        if present {
            Reply::status(1)
        } else {
            Reply::status(0)
        }
    }

    /// Record a pending write of `value` under `key`.
    pub fn write_call(&mut self, key: Vec<u8>, value: Vec<u8>) -> (r: Reply)
        requires
            old(self).wf(),
        ensures
            final(self).wf(),
            tx_base(*old(self), *final(self)),
            final(self).verifiers@ == old(self).verifiers@,
            final(self).iterators@ == old(self).iterators@,
            final(self).accounts_created == old(self).accounts_created,
            final(self).gas_meter == old(self).gas_meter,
            final(self).write_log.spec_read(key@) == Some(ModVal::Write(value@)),
            forall|k: Seq<u8>| k != key@ ==> final(self).write_log.spec_read(k)
                == old(self).write_log.spec_read(k),
            !r.trap && r.send is None && r.write_back is None && r.status == 0,
    {
        self.write_log.write(Key::new(key), value);
        Reply::status(0)
    }

    /// Record a pending deletion of `key`.
    pub fn delete_call(&mut self, key: Vec<u8>) -> (r: Reply)
        requires
            old(self).wf(),
        ensures
            final(self).wf(),
            tx_base(*old(self), *final(self)),
            final(self).verifiers@ == old(self).verifiers@,
            final(self).iterators@ == old(self).iterators@,
            final(self).accounts_created == old(self).accounts_created,
            final(self).gas_meter == old(self).gas_meter,
            final(self).write_log.spec_read(key@) == Some(ModVal::Delete),
            forall|k: Seq<u8>| k != key@ ==> final(self).write_log.spec_read(k)
                == old(self).write_log.spec_read(k),
            !r.trap && r.send is None && r.write_back is None && r.status == 0,
    {
        self.write_log.delete(Key::new(key));
        Reply::status(0)
    }

    /// Add an address to the verifier set.
    pub fn insert_verifier_call(&mut self, addr: Vec<u8>) -> (r: Reply)
        requires
            old(self).wf(),
        ensures
            final(self).wf(),
            tx_base(*old(self), *final(self)),
            final(self).write_log@ == old(self).write_log@,
            final(self).iterators@ == old(self).iterators@,
            final(self).accounts_created == old(self).accounts_created,
            final(self).gas_meter == old(self).gas_meter,
            final(self).verifiers.as_set()
                =~= old(self).verifiers.as_set().insert(addr@),
            !r.trap && r.send is None && r.write_back is None && r.status == 0,
    {
        self.verifiers.insert(Address::new(addr));
        Reply::status(0)
    }

    /// Open a prefix iterator over the storage snapshot.
    pub fn iter_prefix_call(&mut self, prefix: Vec<u8>) -> (r: Reply)
        requires
            old(self).wf(),
        ensures
            final(self).wf(),
            tx_base(*old(self), *final(self)),
            final(self).write_log@ == old(self).write_log@,
            final(self).verifiers@ == old(self).verifiers@,
            final(self).accounts_created == old(self).accounts_created,
            final(self).gas_meter == old(self).gas_meter,
            !r.trap && r.send is None && r.write_back is None,
            r.status >= 0 <==> old(self).iterators@.len() < i64::MAX,
            r.status >= 0 ==> {
                &&& r.status == old(self).iterators@.len()
                &&& final(self).iterators@.len() == old(self).iterators@.len() + 1
                &&& final(self).iterators@.last().spec_entries()
                    == old(self).storage@.filter(|e: (Seq<u8>, Seq<u8>)|
                        crate::types::seq_has_prefix(e.0, prefix@))
                &&& final(self).iterators@.last().spec_pos() == 0
            },
            r.status < 0 ==> final(self).iterators@ == old(self).iterators@,
    {
        if (self.iterators.len() as u64) >= (i64::MAX as u64) {
            return Reply::status(STATUS_INVALID);
        }
        let entries = self.storage.prefix_matches(&Key::new(prefix));
        let iter = PrefixIter::new(entries);
        let h = self.iterators.insert(iter);
        Reply::status(h as i64)
    }

    /// Step the iterator behind `handle`; the pair is framed into the
    /// result buffer. A pair longer than the buffer is dropped with
    /// `STATUS_TOO_SMALL`.
    pub fn iter_next_call(&mut self, handle: i64, cap: usize) -> (r: Reply)
        requires
            old(self).wf(),
        ensures
            final(self).wf(),
            tx_base(*old(self), *final(self)),
            final(self).write_log@ == old(self).write_log@,
            final(self).verifiers@ == old(self).verifiers@,
            final(self).accounts_created == old(self).accounts_created,
            final(self).gas_meter == old(self).gas_meter,
            final(self).iterators@.len() == old(self).iterators@.len(),
            !r.trap && r.send is None,
            !(0 <= handle < old(self).iterators@.len()) ==> r.status == STATUS_INVALID
                && final(self).iterators@ == old(self).iterators@,
            0 <= handle < old(self).iterators@.len() ==> {
                let it = old(self).iterators@[handle as int];
                &&& forall|j: int| 0 <= j < old(self).iterators@.len() && j != handle
                    ==> final(self).iterators@[j] == old(self).iterators@[j]
                &&& final(self).iterators@[handle as int].spec_entries()
                    == it.spec_entries()
                &&& (it.spec_pos() >= it.spec_entries().len() ==> {
                    &&& r.status == STATUS_ABSENT
                    &&& final(self).iterators@[handle as int].spec_pos()
                        == it.spec_pos()
                })
                &&& (it.spec_pos() < it.spec_entries().len() ==> {
                    &&& final(self).iterators@[handle as int].spec_pos()
                        == it.spec_pos() + 1
                    &&& stepped_pair_reply(
                        r, it.spec_entries()[it.spec_pos()], cap as int)
                })
            },
    {
        if handle < 0 || (handle as u64) >= (self.iterators.len() as u64) {
            return Reply::status(STATUS_INVALID);
        }
        match self.iterators.next(handle as u64) {
            None => Reply::status(STATUS_ABSENT),
            Some((k, v)) => {
                match crate::codec::encode_pair(&k.bytes, &v) {
                    None => Reply::status(STATUS_INVALID),
                    Some(buf) => {
                        if buf.len() <= cap && (buf.len() as u64) <= (i64::MAX as u64) {
                            let status = buf.len() as i64;
                            Reply { status, write_back: Some(buf), send: None, trap: false }
                        } else {
                            Reply::status(STATUS_TOO_SMALL)
                        }
                    },
                }
            },
        }
    }

    /// Record a pending write of `code` as the validity predicate of the
    /// account `addr`, under the `vp` key of its sub-space.
    pub fn update_vp_call(&mut self, addr: Vec<u8>, code: Vec<u8>) -> (r: Reply)
        requires
            old(self).wf(),
        ensures
            final(self).wf(),
            tx_base(*old(self), *final(self)),
            final(self).verifiers@ == old(self).verifiers@,
            final(self).iterators@ == old(self).iterators@,
            final(self).accounts_created == old(self).accounts_created,
            final(self).gas_meter == old(self).gas_meter,
            final(self).write_log.spec_read(vp_key_of(addr@))
                == Some(ModVal::Write(code@)),
            forall|k: Seq<u8>| k != vp_key_of(addr@)
                ==> final(self).write_log.spec_read(k)
                    == old(self).write_log.spec_read(k),
            !r.trap && r.send is None && r.write_back is None && r.status == 0,
    {
        let key = vp_key_bytes(addr);
        self.write_log.write(Key::new(key), code);
        Reply::status(0)
    }

    /// Create an account: its address is derived from the per-run counter,
    /// its validity predicate recorded as a pending write, and the address
    /// handed back through the result buffer.
    pub fn init_account_call(&mut self, code: Vec<u8>, cap: usize) -> (r: Reply)
        requires
            old(self).wf(),
        ensures
            final(self).wf(),
            tx_base(*old(self), *final(self)),
            final(self).verifiers@ == old(self).verifiers@,
            final(self).iterators@ == old(self).iterators@,
            final(self).gas_meter == old(self).gas_meter,
            !r.trap && r.send is None,
            r.status >= 0 <==> old(self).accounts_created < u64::MAX && cap >= 9,
            r.status >= 0 ==> {
                let addr = fresh_address(old(self).accounts_created);
                &&& final(self).accounts_created == old(self).accounts_created + 1
                &&& final(self).write_log.spec_read(vp_key_of(addr))
                    == Some(ModVal::Write(code@))
                &&& forall|k: Seq<u8>| k != vp_key_of(addr)
                    ==> final(self).write_log.spec_read(k)
                        == old(self).write_log.spec_read(k)
                &&& (r.write_back matches Some(w) && w@ == addr)
            },
            r.status < 0 ==> final(self).write_log@ == old(self).write_log@
                && final(self).accounts_created == old(self).accounts_created,
    {
        if self.accounts_created == u64::MAX {
            return Reply::status(STATUS_INVALID);
        }
        let addr = fresh_address_bytes(self.accounts_created);
        if addr.len() > cap {
            return Reply::status(STATUS_TOO_SMALL);
        }
        let key = vp_key_bytes(crate::types::clone_bytes(&addr));
        self.write_log.write(Key::new(key), code);
        self.accounts_created = self.accounts_created + 1;
        let status = addr.len() as i64;
        Reply { status, write_back: Some(addr), send: None, trap: false }
    }
}

/// The storage key holding an account's validity predicate: the address,
/// the segment separator, and the `vp` segment.
pub open spec fn vp_key_of(addr: Seq<u8>) -> Seq<u8> {
    addr + seq![47u8, 118u8, 112u8]
}

/// Build the bytes of `vp_key_of(addr)`.
pub fn vp_key_bytes(addr: Vec<u8>) -> (r: Vec<u8>)
    ensures
        r@ == vp_key_of(addr@),
{
    let ghost addr0 = addr@;
    let mut key = addr;
    key.push(47);
    key.push(118);
    key.push(112);
    proof {
        assert(key@ =~= vp_key_of(addr0));
    }
    key
}

impl VpEnv {
    /// Everything but the gas meter and the iterators is frozen, and this
    /// call also left those two alone.
    pub open spec fn untouched(pre: VpEnv, post: VpEnv) -> bool {
        &&& vp_frozen(pre, post)
        &&& post.iterators@ == pre.iterators@
        &&& post.gas_meter == pre.gas_meter
    }

    /// The pre-transaction value of `key`: storage alone.
    pub fn read_pre_call(&mut self, key: Vec<u8>, cap: usize) -> (r: Reply)
        requires
            old(self).wf(),
        ensures
            final(self).wf(),
            VpEnv::untouched(*old(self), *final(self)),
            !r.trap,
            r.send is None,
            match crate::storage::store_read(old(self).storage@, key@) {
                None => r.status == STATUS_ABSENT && r.write_back is None,
                Some(v) => {
                    if v.len() <= cap && v.len() <= i64::MAX {
                        r.status == v.len()
                            && (r.write_back matches Some(w) && w@ == v)
                    } else {
                        r.status == STATUS_TOO_SMALL && r.write_back is None
                    }
                },
            },
    {
        let k = Key::new(key);
        let v = self.storage.read(&k);
        value_reply(v, cap)
    }

    /// The post-transaction value of `key`: the write log over storage.
    pub fn read_post_call(&mut self, key: Vec<u8>, cap: usize) -> (r: Reply)
        requires
            old(self).wf(),
        ensures
            final(self).wf(),
            VpEnv::untouched(*old(self), *final(self)),
            !r.trap,
            r.send is None,
            match read_committed(old(self).storage@, old(self).write_log@, key@) {
                None => r.status == STATUS_ABSENT && r.write_back is None,
                Some(v) => {
                    if v.len() <= cap && v.len() <= i64::MAX {
                        r.status == v.len()
                            && (r.write_back matches Some(w) && w@ == v)
                    } else {
                        r.status == STATUS_TOO_SMALL && r.write_back is None
                    }
                },
            },
    {
        let k = Key::new(key);
        let v: Option<Vec<u8>> = match self.write_log.read(&k) {
            Some(m) => match m {
                crate::write_log::StorageModification::Write { value } => {
                    Some(crate::types::clone_bytes(value))
                },
                crate::write_log::StorageModification::Delete => None,
            },
            None => self.storage.read(&k),
        };
        value_reply(v, cap)
    }

    /// Whether `key` was present before the transaction.
    pub fn has_key_pre_call(&mut self, key: Vec<u8>) -> (r: Reply)
        requires
            old(self).wf(),
        ensures
            final(self).wf(),
            VpEnv::untouched(*old(self), *final(self)),
            !r.trap && r.send is None && r.write_back is None,
            r.status == 1 <==> crate::storage::store_read(
                old(self).storage@, key@) is Some,
            r.status == 0 <==> crate::storage::store_read(
                old(self).storage@, key@) is None,
    {
        let k = Key::new(key);
        if self.storage.has_key(&k) {
            Reply::status(1)
        } else {
            Reply::status(0)
        }
    }

    /// Whether `key` is present after the transaction's pending mutations.
    pub fn has_key_post_call(&mut self, key: Vec<u8>) -> (r: Reply)
        requires
            old(self).wf(),
        ensures
            final(self).wf(),
            VpEnv::untouched(*old(self), *final(self)),
            !r.trap && r.send is None && r.write_back is None,
            r.status == 1 <==> read_committed(
                old(self).storage@, old(self).write_log@, key@) is Some,
            r.status == 0 <==> read_committed(
                old(self).storage@, old(self).write_log@, key@) is None,
    {
        let k = Key::new(key);
        let present: bool = match self.write_log.read(&k) {
            Some(m) => match m {
                crate::write_log::StorageModification::Write { .. } => true,
                crate::write_log::StorageModification::Delete => false,
            },
            None => self.storage.has_key(&k),
        };
        if present {
            Reply::status(1)
        } else {
            Reply::status(0)
        }
    }

    /// Open a prefix iterator over the pre-transaction storage.
    pub fn iter_prefix_call(&mut self, prefix: Vec<u8>) -> (r: Reply)
        requires
            old(self).wf(),
        ensures
            final(self).wf(),
            vp_frozen(*old(self), *final(self)),
            final(self).gas_meter == old(self).gas_meter,
            !r.trap && r.send is None && r.write_back is None,
            r.status >= 0 <==> old(self).iterators@.len() < i64::MAX,
            r.status >= 0 ==> {
                &&& r.status == old(self).iterators@.len()
                &&& final(self).iterators@.len() == old(self).iterators@.len() + 1
                &&& final(self).iterators@.last().spec_entries()
                    == old(self).storage@.filter(|e: (Seq<u8>, Seq<u8>)|
                        crate::types::seq_has_prefix(e.0, prefix@))
                &&& final(self).iterators@.last().spec_pos() == 0
            },
            r.status < 0 ==> final(self).iterators@ == old(self).iterators@,
    {
        if (self.iterators.len() as u64) >= (i64::MAX as u64) {
            return Reply::status(STATUS_INVALID);
        }
        let ghost pred = |e: (Seq<u8>, Seq<u8>)|
            crate::types::seq_has_prefix(e.0, prefix@);
        let entries = self.storage.prefix_matches(&Key::new(prefix));
        let iter = PrefixIter::new(entries);
        proof {
            let st = self.storage@;
            assert forall|j: int| 0 <= j < iter.spec_entries().len()
                implies crate::storage::store_read(st, iter.spec_entries()[j].0)
                    == Some(iter.spec_entries()[j].1) by {
                let e = iter.spec_entries()[j];
                assert(st.filter(pred)[j] == e);
                assert(st.filter(pred).contains(e));
                st.lemma_filter_contains_rev(pred, e);
                crate::storage::lemma_store_read_of_member(st, e.0, e.1);
            }
        }
        let h = self.iterators.insert(iter);
        proof {
            assert(self.iterators@ == old(self).iterators@.push(iter));
            assert forall|i: int, j: int|
                0 <= i < self.iterators@.len()
                    && 0 <= j < self.iterators@[i].spec_entries().len()
                implies crate::storage::store_read(
                    self.storage@,
                    (self.iterators@[i].spec_entries()[j]).0,
                ) == Some(self.iterators@[i].spec_entries()[j].1) by {
                if i < old(self).iterators@.len() {
                    assert(self.iterators@[i] == old(self).iterators@[i]);
                } else {
                    assert(self.iterators@[i] == iter);
                }
            }
        }
        Reply::status(h as i64)
    }

    /// Step the iterator behind `handle` over pre-transaction state; the
    /// pair is framed into the result buffer. A pair longer than the
    /// buffer is dropped with `STATUS_TOO_SMALL`.
    pub fn iter_pre_next_call(&mut self, handle: i64, cap: usize) -> (r: Reply)
        requires
            old(self).wf(),
        ensures
            final(self).wf(),
            vp_frozen(*old(self), *final(self)),
            final(self).gas_meter == old(self).gas_meter,
            final(self).iterators@.len() == old(self).iterators@.len(),
            !r.trap && r.send is None,
            !(0 <= handle < old(self).iterators@.len()) ==> r.status == STATUS_INVALID
                && final(self).iterators@ == old(self).iterators@,
            0 <= handle < old(self).iterators@.len() ==> {
                let it = old(self).iterators@[handle as int];
                &&& forall|j: int| 0 <= j < old(self).iterators@.len() && j != handle
                    ==> final(self).iterators@[j] == old(self).iterators@[j]
                &&& final(self).iterators@[handle as int].spec_entries()
                    == it.spec_entries()
                &&& (it.spec_pos() >= it.spec_entries().len() ==> {
                    &&& r.status == STATUS_ABSENT
                    &&& final(self).iterators@[handle as int].spec_pos()
                        == it.spec_pos()
                })
                &&& (it.spec_pos() < it.spec_entries().len() ==> {
                    &&& final(self).iterators@[handle as int].spec_pos()
                        == it.spec_pos() + 1
                    &&& stepped_pair_reply(
                        r, it.spec_entries()[it.spec_pos()], cap as int)
                })
            },
    {
        if handle < 0 || (handle as u64) >= (self.iterators.len() as u64) {
            return Reply::status(STATUS_INVALID);
        }
        match self.iterators.next(handle as u64) {
            None => Reply::status(STATUS_ABSENT),
            Some((k, v)) => {
                match crate::codec::encode_pair(&k.bytes, &v) {
                    None => Reply::status(STATUS_INVALID),
                    Some(buf) => {
                        if buf.len() <= cap && (buf.len() as u64) <= (i64::MAX as u64) {
                            let status = buf.len() as i64;
                            Reply { status, write_back: Some(buf), send: None, trap: false }
                        } else {
                            Reply::status(STATUS_TOO_SMALL)
                        }
                    },
                }
            },
        }
    }

    /// Step the iterator behind `handle`, overlaying the transaction's
    /// write log: deleted keys are skipped, written keys carry their new
    /// value. Keys the transaction created are not surfaced: the iterator
    /// walks stored keys only. The first surviving entry is consumed and
    /// answered as for the pre-state stepping call; when none remains the
    /// iterator is exhausted.
    pub fn iter_post_next_call(&mut self, handle: i64, cap: usize) -> (r: Reply)
        requires
            old(self).wf(),
        ensures
            final(self).wf(),
            vp_frozen(*old(self), *final(self)),
            final(self).gas_meter == old(self).gas_meter,
            final(self).iterators@.len() == old(self).iterators@.len(),
            !r.trap && r.send is None,
            !(0 <= handle < old(self).iterators@.len()) ==> r.status == STATUS_INVALID
                && final(self).iterators@ == old(self).iterators@,
            0 <= handle < old(self).iterators@.len() ==> {
                let it = old(self).iterators@[handle as int];
                let st = old(self).storage@;
                let wl = old(self).write_log@;
                &&& forall|j: int| 0 <= j < old(self).iterators@.len() && j != handle
                    ==> final(self).iterators@[j] == old(self).iterators@[j]
                &&& final(self).iterators@[handle as int].spec_entries()
                    == it.spec_entries()
                &&& ((forall|j: int| it.spec_pos() <= j < it.spec_entries().len()
                        ==> !live_entry(st, wl, #[trigger] it.spec_entries()[j])) ==> {
                    &&& r.status == STATUS_ABSENT
                    &&& final(self).iterators@[handle as int].spec_pos()
                        == it.spec_entries().len()
                })
                &&& ((exists|j: int| it.spec_pos() <= j < it.spec_entries().len()
                        && live_entry(st, wl, #[trigger] it.spec_entries()[j]))
                    ==> (exists|j: int| {
                        &&& it.spec_pos() <= j < it.spec_entries().len()
                        &&& live_entry(st, wl, #[trigger] it.spec_entries()[j])
                        &&& (forall|j2: int| it.spec_pos() <= j2 < j
                            ==> !live_entry(st, wl, it.spec_entries()[j2]))
                        &&& final(self).iterators@[handle as int].spec_pos() == j + 1
                        &&& stepped_pair_reply(r, (it.spec_entries()[j].0,
                            read_committed(st, wl, it.spec_entries()[j].0)->0),
                            cap as int)
                    }))
            },
    {
        if handle < 0 || (handle as u64) >= (self.iterators.len() as u64) {
            return Reply::status(STATUS_INVALID);
        }
        let h = handle as u64;
        let ghost s0 = *self;
        let ghost it0 = s0.iterators@[handle as int];
        loop
            invariant
                s0 == *old(self),
                it0 == s0.iterators@[handle as int],
                self.wf(),
                vp_frozen(s0, *self),
                self.gas_meter == s0.gas_meter,
                self.iterators@.len() == s0.iterators@.len(),
                0 <= handle < s0.iterators@.len(),
                h == handle as u64,
                forall|j: int| 0 <= j < s0.iterators@.len() && j != handle
                    ==> self.iterators@[j] == s0.iterators@[j],
                self.iterators@[handle as int].spec_entries() == it0.spec_entries(),
                it0.spec_pos() <= self.iterators@[handle as int].spec_pos(),
                forall|j2: int| it0.spec_pos() <= j2
                    < self.iterators@[handle as int].spec_pos()
                    ==> !live_entry(s0.storage@, s0.write_log@,
                        #[trigger] it0.spec_entries()[j2]),
            decreases
                self.iterators@[handle as int].spec_entries().len()
                    - self.iterators@[handle as int].spec_pos(),
        {
            let ghost old_iters = self.iterators@;
            let stepped = self.iterators.next(h);
            match stepped {
                None => {
                    proof {
                        assert(old_iters[handle as int].spec_pos()
                            == it0.spec_entries().len());
                        assert(self.iterators@[handle as int].spec_pos()
                            == it0.spec_entries().len());
                        assert forall|j: int| it0.spec_pos() <= j
                            < it0.spec_entries().len()
                            implies !live_entry(s0.storage@, s0.write_log@,
                                #[trigger] it0.spec_entries()[j]) by {
                        }
                    }
                    return Reply::status(STATUS_ABSENT);
                },
                Some((k, v)) => {
                    let ghost j0 = old_iters[handle as int].spec_pos();
                    let overlaid: Option<Vec<u8>> = match self.write_log.read(&k) {
                        Some(m) => match m {
                            crate::write_log::StorageModification::Write { value } => {
                                Some(crate::types::clone_bytes(value))
                            },
                            crate::write_log::StorageModification::Delete => None,
                        },
                        None => Some(v),
                    };
                    match overlaid {
                        None => {
                            proof {
                                assert((k@, v@) == it0.spec_entries()[j0]);
                                assert(!live_entry(s0.storage@, s0.write_log@,
                                    it0.spec_entries()[j0]));
                            }
                            // deleted by the transaction: skip this key
                        },
                        Some(val) => {
                            proof {
                                let e = it0.spec_entries()[j0];
                                assert((k@, v@) == e);
                                if log_read(s0.write_log@, k@) is None {
                                    assert(crate::storage::store_read(
                                        s0.storage@, k@) == Some(v@));
                                }
                                assert(read_committed(s0.storage@, s0.write_log@, k@)
                                    == Some(val@));
                                assert(live_entry(s0.storage@, s0.write_log@, e));
                                assert(self.iterators@[handle as int].spec_pos()
                                    == j0 + 1);
                            }
                            match crate::codec::encode_pair(&k.bytes, &val) {
                                None => {
                                    return Reply::status(STATUS_INVALID);
                                },
                                Some(buf) => {
                                    if buf.len() <= cap
                                        && (buf.len() as u64) <= (i64::MAX as u64) {
                                        let status = buf.len() as i64;
                                        return Reply {
                                            status,
                                            write_back: Some(buf),
                                            send: None,
                                            trap: false,
                                        };
                                    } else {
                                        return Reply::status(STATUS_TOO_SMALL);
                                    }
                                },
                            }
                        },
                    }
                },
            }
        }
    }
}

/// Answer a block-data lookup written through the result buffer.
fn block_data_reply(v: Vec<u8>, cap: usize) -> (r: Reply)
    ensures
        !r.trap,
        r.send is None,
        if v@.len() <= cap && v@.len() <= i64::MAX {
            r.status == v@.len() && (r.write_back matches Some(w) && w@ == v@)
        } else {
            r.status == STATUS_TOO_SMALL && r.write_back is None
        },
{
    if v.len() <= cap && (v.len() as u64) <= (i64::MAX as u64) {
        let status = v.len() as i64;
        Reply { status, write_back: Some(v), send: None, trap: false }
    } else {
        Reply::status(STATUS_TOO_SMALL)
    }
}

impl TxEnv {
    /// Write the chain identifier through the result buffer.
    pub fn get_chain_id_call(&mut self, cap: usize) -> (r: Reply)
        requires
            old(self).wf(),
        ensures
            final(self).wf(),
            tx_untouched(*old(self), *final(self)),
            !r.trap && r.send is None,
            old(self).storage.spec_chain_id().len() <= cap
                && old(self).storage.spec_chain_id().len() <= i64::MAX
                ==> r.status == old(self).storage.spec_chain_id().len()
                    && (r.write_back matches Some(w)
                        && w@ == old(self).storage.spec_chain_id()),
    {
        let v = self.storage.get_chain_id();
        block_data_reply(v, cap)
    }

    /// Return the block height in the status.
    pub fn get_block_height_call(&mut self) -> (r: Reply)
        requires
            old(self).wf(),
        ensures
            final(self).wf(),
            tx_untouched(*old(self), *final(self)),
            !r.trap && r.send is None && r.write_back is None,
            old(self).storage.spec_block_height() <= i64::MAX
                ==> r.status == old(self).storage.spec_block_height(),
    {
        let h = self.storage.get_block_height();
        if h <= i64::MAX as u64 {
            Reply::status(h as i64)
        } else {
            Reply::status(STATUS_INVALID)
        }
    }

    /// Write the block hash through the result buffer.
    pub fn get_block_hash_call(&mut self, cap: usize) -> (r: Reply)
        requires
            old(self).wf(),
        ensures
            final(self).wf(),
            tx_untouched(*old(self), *final(self)),
            !r.trap && r.send is None,
            old(self).storage.spec_block_hash().len() <= cap
                && old(self).storage.spec_block_hash().len() <= i64::MAX
                ==> r.status == old(self).storage.spec_block_hash().len()
                    && (r.write_back matches Some(w)
                        && w@ == old(self).storage.spec_block_hash()),
    {
        let v = self.storage.get_block_hash();
        block_data_reply(v, cap)
    }
}

impl VpEnv {
    /// Write the chain identifier through the result buffer.
    pub fn get_chain_id_call(&mut self, cap: usize) -> (r: Reply)
        requires
            old(self).wf(),
        ensures
            final(self).wf(),
            VpEnv::untouched(*old(self), *final(self)),
            !r.trap && r.send is None,
            old(self).storage.spec_chain_id().len() <= cap
                && old(self).storage.spec_chain_id().len() <= i64::MAX
                ==> r.status == old(self).storage.spec_chain_id().len()
                    && (r.write_back matches Some(w)
                        && w@ == old(self).storage.spec_chain_id()),
    {
        let v = self.storage.get_chain_id();
        block_data_reply(v, cap)
    }

    /// Return the block height in the status.
    pub fn get_block_height_call(&mut self) -> (r: Reply)
        requires
            old(self).wf(),
        ensures
            final(self).wf(),
            VpEnv::untouched(*old(self), *final(self)),
            !r.trap && r.send is None && r.write_back is None,
            old(self).storage.spec_block_height() <= i64::MAX
                ==> r.status == old(self).storage.spec_block_height(),
    {
        let h = self.storage.get_block_height();
        if h <= i64::MAX as u64 {
            Reply::status(h as i64)
        } else {
            Reply::status(STATUS_INVALID)
        }
    }

    /// Write the block hash through the result buffer.
    pub fn get_block_hash_call(&mut self, cap: usize) -> (r: Reply)
        requires
            old(self).wf(),
        ensures
            final(self).wf(),
            VpEnv::untouched(*old(self), *final(self)),
            !r.trap && r.send is None,
            old(self).storage.spec_block_hash().len() <= cap
                && old(self).storage.spec_block_hash().len() <= i64::MAX
                ==> r.status == old(self).storage.spec_block_hash().len()
                    && (r.write_back matches Some(w)
                        && w@ == old(self).storage.spec_block_hash()),
    {
        let v = self.storage.get_block_hash();
        block_data_reply(v, cap)
    }
}

impl MmEnv {
    /// Emit a matched-intents bundle on the channel.
    pub fn send_match_call(&mut self, tx_data: Vec<u8>, intent_ids: Vec<u8>) -> (r: Reply)
        requires
            old(self).wf(),
        ensures
            final(self).wf(),
            *final(self) == *old(self),
            !r.trap && r.write_back is None && r.status == 0,
            r.send matches Some(m) && m matches MatchmakerMessage::Match {
                tx_data: d, intent_ids: ids }
                && d@ == tx_data@ && ids@ == intent_ids@,
    {
        Reply {
            status: 0,
            write_back: None,
            send: Some(MatchmakerMessage::Match { tx_data, intent_ids }),
            trap: false,
        }
    }

    /// Emit an intent-data update on the channel.
    pub fn update_data_call(&mut self, intent_id: Vec<u8>, new_data: Vec<u8>) -> (r: Reply)
        requires
            old(self).wf(),
        ensures
            final(self).wf(),
            *final(self) == *old(self),
            !r.trap && r.write_back is None && r.status == 0,
            r.send matches Some(m) && m matches MatchmakerMessage::Update {
                intent_id: id, new_data: d }
                && id@ == intent_id@ && d@ == new_data@,
    {
        Reply {
            status: 0,
            write_back: None,
            send: Some(MatchmakerMessage::Update { intent_id, new_data }),
            trap: false,
        }
    }

    /// Emit an intent-removal message on the channel.
    pub fn remove_intents_call(&mut self, intent_ids: Vec<u8>) -> (r: Reply)
        requires
            old(self).wf(),
        ensures
            final(self).wf(),
            *final(self) == *old(self),
            !r.trap && r.write_back is None && r.status == 0,
            r.send matches Some(m) && m matches MatchmakerMessage::Remove {
                intent_ids: ids } && ids@ == intent_ids@,
    {
        Reply {
            status: 0,
            write_back: None,
            send: Some(MatchmakerMessage::Remove { intent_ids }),
            trap: false,
        }
    }
}

/// Charge one host call's gas on whichever meter the environment holds:
/// the base cost plus the two region sizes. Fails, saturating the meter,
/// exactly when the total would go past the ceiling; nothing else changes.
pub fn charge_host_call(env: &mut AnyEnv, c2: u64, c3: u64) -> (ok: bool)
    requires
        old(env).wf(),
    ensures
        final(env).wf(),
        match *old(env) {
            AnyEnv::Tx(pre) => *final(env) matches AnyEnv::Tx(post) && {
                &&& tx_base(pre, post)
                &&& post.write_log@ == pre.write_log@
                &&& post.verifiers@ == pre.verifiers@
                &&& post.iterators@ == pre.iterators@
                &&& post.accounts_created == pre.accounts_created
                &&& (ok <==> pre.gas_meter.spec_used() + HOST_CALL_BASE_GAS
                    + c2 + c3 <= pre.gas_meter.spec_ceiling())
                &&& (ok ==> post.gas_meter.spec_used()
                    == pre.gas_meter.spec_used() + HOST_CALL_BASE_GAS + c2 + c3)
            },
            AnyEnv::Vp(pre) => *final(env) matches AnyEnv::Vp(post) && {
                &&& vp_frozen(pre, post)
                &&& post.iterators@ == pre.iterators@
                &&& (ok <==> pre.gas_meter.spec_initial() + pre.gas_meter.spec_used()
                    + HOST_CALL_BASE_GAS + c2 + c3 <= pre.gas_meter.spec_ceiling())
                &&& (ok ==> post.gas_meter.spec_used()
                    == pre.gas_meter.spec_used() + HOST_CALL_BASE_GAS + c2 + c3)
            },
            AnyEnv::Mm(pre) => *final(env) matches AnyEnv::Mm(post) && {
                &&& post.tx_code@ == pre.tx_code@
                &&& post.gas_meter.spec_ceiling() == pre.gas_meter.spec_ceiling()
                &&& (ok <==> pre.gas_meter.spec_used() + HOST_CALL_BASE_GAS
                    + c2 + c3 <= pre.gas_meter.spec_ceiling())
            },
            AnyEnv::Filter(pre) => *final(env) matches AnyEnv::Filter(post) && {
                &&& post.gas_meter.spec_ceiling() == pre.gas_meter.spec_ceiling()
                &&& (ok <==> pre.gas_meter.spec_used() + HOST_CALL_BASE_GAS
                    + c2 + c3 <= pre.gas_meter.spec_ceiling())
            },
        },
{
    match env {
        AnyEnv::Tx(e) => e.gas_meter.charge3(HOST_CALL_BASE_GAS, c2, c3).is_ok(),
        AnyEnv::Vp(e) => e.gas_meter.charge3(HOST_CALL_BASE_GAS, c2, c3).is_ok(),
        AnyEnv::Mm(e) => e.gas_meter.charge3(HOST_CALL_BASE_GAS, c2, c3).is_ok(),
        AnyEnv::Filter(e) => e.gas_meter.charge3(HOST_CALL_BASE_GAS, c2, c3).is_ok(),
    }
}

/// Charge the instrumented code's own gas (the `env.gas` import). Returns
/// whether the charge fit under the ceiling; a failed charge saturates the
/// meter, and the caller traps the guest.
pub fn charge_instruction_gas(env: &mut AnyEnv, cost: i32) -> (ok: bool)
    requires
        old(env).wf(),
    ensures
        final(env).wf(),
        match *old(env) {
            AnyEnv::Tx(pre) => *final(env) matches AnyEnv::Tx(post) && {
                &&& tx_base(pre, post)
                &&& post.write_log@ == pre.write_log@
                &&& post.verifiers@ == pre.verifiers@
                &&& post.iterators@ == pre.iterators@
                &&& post.accounts_created == pre.accounts_created
                &&& (ok <==> pre.gas_meter.spec_used() + gas_cost_of(cost)
                    <= pre.gas_meter.spec_ceiling())
            },
            AnyEnv::Vp(pre) => *final(env) matches AnyEnv::Vp(post) && {
                &&& vp_frozen(pre, post)
                &&& post.iterators@ == pre.iterators@
                &&& (ok <==> pre.gas_meter.spec_initial() + pre.gas_meter.spec_used()
                    + gas_cost_of(cost) <= pre.gas_meter.spec_ceiling())
            },
            AnyEnv::Mm(pre) => *final(env) matches AnyEnv::Mm(post) && {
                &&& post.tx_code@ == pre.tx_code@
                &&& post.gas_meter.spec_ceiling() == pre.gas_meter.spec_ceiling()
                &&& (ok <==> pre.gas_meter.spec_used() + gas_cost_of(cost)
                    <= pre.gas_meter.spec_ceiling())
            },
            AnyEnv::Filter(pre) => *final(env) matches AnyEnv::Filter(post) && {
                &&& post.gas_meter.spec_ceiling() == pre.gas_meter.spec_ceiling()
                &&& (ok <==> pre.gas_meter.spec_used() + gas_cost_of(cost)
                    <= pre.gas_meter.spec_ceiling())
            },
        },
{
    let c: u64 = if cost < 0 {
        0
    } else {
        cost as u64
    };
    match env {
        AnyEnv::Tx(e) => e.gas_meter.charge3(c, 0, 0).is_ok(),
        AnyEnv::Vp(e) => e.gas_meter.charge3(c, 0, 0).is_ok(),
        AnyEnv::Mm(e) => e.gas_meter.charge3(c, 0, 0).is_ok(),
        AnyEnv::Filter(e) => e.gas_meter.charge3(c, 0, 0).is_ok(),
    }
}

/// The meter cost of an instruction-gas charge: negative requests charge
/// nothing.
pub open spec fn gas_cost_of(cost: i32) -> u64 {
    if cost < 0 {
        0
    } else {
        cost as u64
    }
}

/// Dispatch one host call: trap when a region was unreadable or gas ran
/// out, else charge and run the coded operation. The `a` argument carries
/// the iterator handle for the stepping calls. Every call of a validity
/// predicate leaves the storage and write-log snapshots untouched, and
/// only `insert_verifier` ever changes the verifier set.
pub fn host_bridge(
    env: &mut AnyEnv,
    code: u64,
    a: i64,
    r1: Option<Vec<u8>>,
    r2: Option<Vec<u8>>,
) -> (r: Reply)
    requires
        old(env).wf(),
    ensures
        final(env).wf(),
        *old(env) is Tx ==> *final(env) is Tx && {
            let pre = (*old(env))->Tx_0;
            let post = (*final(env))->Tx_0;
            &&& tx_base(pre, post)
            &&& (r.trap ==> post.verifiers@ == pre.verifiers@)
            &&& (!r.trap ==> post.verifiers.as_set() =~= tx_verifiers_step(
                pre.verifiers.as_set(), code, opt_bytes(r1)))
            &&& (!r.trap && code == TX_WRITE ==> {
                let k = r1->0;
                let v = r2->0;
                &&& post.write_log.spec_read(k@) == Some(ModVal::Write(v@))
                &&& forall|q: Seq<u8>| q != k@ ==> post.write_log.spec_read(q)
                    == pre.write_log.spec_read(q)
                &&& r.status == 0
            })
            &&& (!r.trap && code == TX_DELETE ==> {
                let k = r1->0;
                &&& post.write_log.spec_read(k@) == Some(ModVal::Delete)
                &&& forall|q: Seq<u8>| q != k@ ==> post.write_log.spec_read(q)
                    == pre.write_log.spec_read(q)
                &&& r.status == 0
            })
            &&& (!r.trap && code == TX_READ ==> {
                let k = r1->0;
                &&& post.write_log@ == pre.write_log@
                &&& match read_committed(pre.storage@, pre.write_log@, k@) {
                    None => r.status == STATUS_ABSENT && r.write_back is None,
                    Some(v) => v.len() <= r2->0@.len() && v.len() <= i64::MAX
                        ==> r.status == v.len()
                            && (r.write_back matches Some(w) && w@ == v),
                }
            })
            &&& (!r.trap && code == TX_HAS_KEY ==> {
                let k = r1->0;
                &&& post.write_log@ == pre.write_log@
                &&& (r.status == 1 <==> read_committed(
                    pre.storage@, pre.write_log@, k@) is Some)
            })
        },
        *old(env) is Vp ==> *final(env) is Vp
            && vp_frozen((*old(env))->Vp_0, (*final(env))->Vp_0)
            && {
            let pre = (*old(env))->Vp_0;
            &&& (!r.trap && code == VP_READ_PRE ==> {
                let k = r1->0;
                match crate::storage::store_read(pre.storage@, k@) {
                    None => r.status == STATUS_ABSENT && r.write_back is None,
                    Some(v) => v.len() <= r2->0@.len() && v.len() <= i64::MAX
                        ==> r.status == v.len()
                            && (r.write_back matches Some(w) && w@ == v),
                }
            })
            &&& (!r.trap && code == VP_READ_POST ==> {
                let k = r1->0;
                match read_committed(pre.storage@, pre.write_log@, k@) {
                    None => r.status == STATUS_ABSENT && r.write_back is None,
                    Some(v) => v.len() <= r2->0@.len() && v.len() <= i64::MAX
                        ==> r.status == v.len()
                            && (r.write_back matches Some(w) && w@ == v),
                }
            })
        },
        *old(env) is Mm ==> *final(env) is Mm
            && (*final(env))->Mm_0.tx_code@ == (*old(env))->Mm_0.tx_code@
            && (*final(env))->Mm_0.gas_meter.spec_ceiling()
                == (*old(env))->Mm_0.gas_meter.spec_ceiling(),
        *old(env) is Filter ==> *final(env) is Filter
            && (*final(env))->Filter_0.gas_meter.spec_ceiling()
                == (*old(env))->Filter_0.gas_meter.spec_ceiling(),
        r.send is Some ==> *old(env) is Mm,
{
    let (r1v, r2v) = match (r1, r2) {
        (Some(p), Some(q)) => (p, q),
        _ => {
            return Reply::trap();
        },
    };
    let cap = r2v.len();
    let ok = charge_host_call(env, r1v.len() as u64, r2v.len() as u64);
    if !ok {
        return Reply::trap();
    }
    match env {
        AnyEnv::Tx(e) => {
            if code == TX_READ {
                e.read_call(r1v, cap)
            } else if code == TX_HAS_KEY {
                e.has_key_call(r1v)
            } else if code == TX_WRITE {
                e.write_call(r1v, r2v)
            } else if code == TX_DELETE {
                e.delete_call(r1v)
            } else if code == TX_ITER_PREFIX {
                e.iter_prefix_call(r1v)
            } else if code == TX_ITER_NEXT {
                e.iter_next_call(a, cap)
            } else if code == TX_INSERT_VERIFIER {
                e.insert_verifier_call(r1v)
            } else if code == TX_UPDATE_VP {
                e.update_vp_call(r1v, r2v)
            } else if code == TX_INIT_ACCOUNT {
                e.init_account_call(r1v, cap)
            } else if code == TX_GET_CHAIN_ID {
                e.get_chain_id_call(cap)
            } else if code == TX_GET_BLOCK_HEIGHT {
                e.get_block_height_call()
            } else if code == TX_GET_BLOCK_HASH {
                e.get_block_hash_call(cap)
            } else if code == TX_LOG_STRING {
                Reply::status(0)
            } else {
                Reply::trap()
            }
        },
        AnyEnv::Vp(e) => {
            if code == VP_READ_PRE {
                e.read_pre_call(r1v, cap)
            } else if code == VP_READ_POST {
                e.read_post_call(r1v, cap)
            } else if code == VP_HAS_KEY_PRE {
                e.has_key_pre_call(r1v)
            } else if code == VP_HAS_KEY_POST {
                e.has_key_post_call(r1v)
            } else if code == VP_ITER_PREFIX {
                e.iter_prefix_call(r1v)
            } else if code == VP_ITER_PRE_NEXT {
                e.iter_pre_next_call(a, cap)
            } else if code == VP_ITER_POST_NEXT {
                e.iter_post_next_call(a, cap)
            } else if code == VP_GET_CHAIN_ID {
                e.get_chain_id_call(cap)
            } else if code == VP_GET_BLOCK_HEIGHT {
                e.get_block_height_call()
            } else if code == VP_GET_BLOCK_HASH {
                e.get_block_hash_call(cap)
            } else if code == VP_LOG_STRING {
                Reply::status(0)
            } else {
                Reply::trap()
            }
        },
        AnyEnv::Mm(e) => {
            if code == MM_SEND_MATCH {
                e.send_match_call(r1v, r2v)
            } else if code == MM_UPDATE_DATA {
                e.update_data_call(r1v, r2v)
            } else if code == MM_REMOVE_INTENTS {
                e.remove_intents_call(r1v)
            } else if code == MM_LOG_STRING {
                Reply::status(0)
            } else {
                Reply::trap()
            }
        },
        AnyEnv::Filter(_e) => {
            if code == FILTER_LOG_STRING {
                Reply::status(0)
            } else {
                Reply::trap()
            }
        },
    }
}

/// Gas exhaustion is final for host calls too: every host call charges at
/// least the base cost, so once a transaction meter has been saturated,
/// the charge of any later host call fails and the dispatch traps the
/// guest; no further host call is served.
pub proof fn lemma_saturated_meter_rejects_host_calls(m: BlockGasMeter, c2: u64, c3: u64)
    requires
        m.wf(),
        m.spec_used() == m.spec_ceiling(),
    ensures
        m.spec_used() + HOST_CALL_BASE_GAS + c2 + c3 > m.spec_ceiling(),
{
}

/// The verifier set after a whole sequence of host calls, each given as
/// its code and first region.
pub open spec fn tx_verifiers_fold(
    v0: Set<Seq<u8>>,
    calls: Seq<(u64, Option<Seq<u8>>)>,
) -> Set<Seq<u8>>
    decreases calls.len(),
{
    if calls.len() == 0 {
        v0
    } else {
        tx_verifiers_step(
            tx_verifiers_fold(v0, calls.drop_last()),
            calls.last().0,
            calls.last().1,
        )
    }
}

/// The addresses handed to `insert_verifier` somewhere in the sequence.
pub open spec fn inserted_verifiers(calls: Seq<(u64, Option<Seq<u8>>)>) -> Set<Seq<u8>> {
    Set::new(|a: Seq<u8>|
        exists|i: int| 0 <= i < calls.len()
            && calls[i].0 == TX_INSERT_VERIFIER && calls[i].1 == Some(a))
}

/// Verifier accumulation: after any sequence of host calls, the verifier
/// set is exactly the starting set together with every address passed to
/// `insert_verifier`, whatever the order and repetition of the calls.
pub proof fn lemma_verifier_accumulation(
    v0: Set<Seq<u8>>,
    calls: Seq<(u64, Option<Seq<u8>>)>,
)
    ensures
        tx_verifiers_fold(v0, calls) =~= v0.union(inserted_verifiers(calls)),
    decreases calls.len(),
{
    if calls.len() == 0 {
        assert forall|a: Seq<u8>| !(#[trigger] inserted_verifiers(calls).contains(a)) by {
            if inserted_verifiers(calls).contains(a) {
                let i = choose|i: int| 0 <= i < calls.len()
                    && calls[i].0 == TX_INSERT_VERIFIER && calls[i].1 == Some(a);
                assert(false);
            }
        }
        assert(tx_verifiers_fold(v0, calls) =~= v0.union(inserted_verifiers(calls)));
    } else {
        let rest = calls.drop_last();
        let last = calls.last();
        lemma_verifier_accumulation(v0, rest);
        if last.0 == TX_INSERT_VERIFIER && last.1 is Some {
            let a0 = last.1->0;
            assert forall|x: Seq<u8>|
                inserted_verifiers(calls).contains(x)
                    <==> (inserted_verifiers(rest).contains(x) || x == a0) by {
                if inserted_verifiers(calls).contains(x) {
                    let i = choose|i: int| 0 <= i < calls.len()
                        && calls[i].0 == TX_INSERT_VERIFIER && calls[i].1 == Some(x);
                    if i < calls.len() - 1 {
                        assert(rest[i] == calls[i]);
                    } else {
                        assert(calls[i] == last);
                    }
                }
                if inserted_verifiers(rest).contains(x) {
                    let i = choose|i: int| 0 <= i < rest.len()
                        && rest[i].0 == TX_INSERT_VERIFIER && rest[i].1 == Some(x);
                    assert(calls[i] == rest[i]);
                }
                assert(calls[calls.len() - 1] == last);
            }
            assert(tx_verifiers_fold(v0, calls)
                =~= v0.union(inserted_verifiers(calls)));
        } else {
            assert forall|x: Seq<u8>|
                inserted_verifiers(calls).contains(x)
                    <==> inserted_verifiers(rest).contains(x) by {
                if inserted_verifiers(calls).contains(x) {
                    let i = choose|i: int| 0 <= i < calls.len()
                        && calls[i].0 == TX_INSERT_VERIFIER && calls[i].1 == Some(x);
                    assert(i < calls.len() - 1);
                    assert(rest[i] == calls[i]);
                }
                if inserted_verifiers(rest).contains(x) {
                    let i = choose|i: int| 0 <= i < rest.len()
                        && rest[i].0 == TX_INSERT_VERIFIER && rest[i].1 == Some(x);
                    assert(calls[i] == rest[i]);
                }
            }
            assert(tx_verifiers_fold(v0, calls)
                =~= v0.union(inserted_verifiers(calls)));
        }
    }
}

/// The address of the `n`-th account created in a run: a marker byte and
/// the counter in little-endian bytes.
pub open spec fn fresh_address(n: u64) -> Seq<u8> {
    seq![35u8] + vstd::bytes::spec_u64_to_le_bytes(n)
}

/// Build the bytes of `fresh_address(n)`.
pub fn fresh_address_bytes(n: u64) -> (r: Vec<u8>)
    ensures
        r@ == fresh_address(n),
        r@.len() == 9,
{
    let mut addr: Vec<u8> = Vec::new();
    addr.push(35);
    let tail = vstd::bytes::u64_to_le_bytes(n);
    crate::codec::extend_bytes(&mut addr, tail.as_slice());
    proof {
        vstd::bytes::lemma_auto_spec_u64_to_from_le_bytes();
        assert(addr@ =~= fresh_address(n));
    }
    addr
}

} // verus!
