//! In-memory overlay of pending storage mutations for one transaction.
//!
//! The log records, for each touched key, the latest pending modification:
//! a write with a value, or a deletion. A transaction runner holds the only
//! mutable reference; validity predicates see a read-only snapshot. The
//! caller flushes an accepted transaction's log to storage itself.

use vstd::prelude::*;
use vstd::pervasive::VecAdditionalExecFns;

use crate::types::{key_in_subspace, Address, Key};

verus! {

/// A pending mutation of one storage key.
#[derive(Clone, Debug)]
pub enum StorageModification {
    /// The key holds `value` after the transaction.
    Write { value: Vec<u8> },
    /// The key is absent after the transaction.
    Delete,
}

/// The mathematical value of a pending mutation.
pub enum ModVal {
    /// The key holds the given bytes.
    Write(Seq<u8>),
    /// The key is absent.
    Delete,
}

impl StorageModification {
    /// The mathematical value of this modification.
    pub open spec fn view(self) -> ModVal {
        match self {
            StorageModification::Write { value } => ModVal::Write(value@),
            StorageModification::Delete => ModVal::Delete,
        }
    }
}

/// The pending modification for `k` in the entry sequence `s`, if any.
pub open spec fn log_read(s: Seq<(Seq<u8>, ModVal)>, k: Seq<u8>) -> Option<ModVal> {
    if exists|i: int| 0 <= i < s.len() && s[i].0 == k {
        let i = choose|i: int| 0 <= i < s.len() && s[i].0 == k;
        Some(s[i].1)
    } else {
        None
    }
}

/// Each key occurs at most once in `s`.
pub open spec fn log_keys_unique(s: Seq<(Seq<u8>, ModVal)>) -> bool {
    forall|i: int, j: int| 0 <= i < j < s.len() ==> s[i].0 != s[j].0
}

/// The value of `k` after the transaction: the write log's pending
/// mutation when there is one, the stored value otherwise.
pub open spec fn read_committed(
    st: Seq<(Seq<u8>, Seq<u8>)>,
    wl: Seq<(Seq<u8>, ModVal)>,
    k: Seq<u8>,
) -> Option<Seq<u8>> {
    match log_read(wl, k) {
        Some(ModVal::Write(v)) => Some(v),
        Some(ModVal::Delete) => None,
        None => crate::storage::store_read(st, k),
    }
}

/// The overlay of pending mutations, in first-touch order.
#[derive(Clone, Debug)]
pub struct WriteLog {
    entries: Vec<(Key, StorageModification)>,
}

impl WriteLog {
    /// The recorded entries: key bytes paired with the pending
    /// modification, in first-touch order.
    pub closed spec fn view(self) -> Seq<(Seq<u8>, ModVal)> {
        self.entries@.map_values(|e: (Key, StorageModification)| (e.0@, e.1@))
    }

    /// Each key occurs at most once.
    pub open spec fn wf(self) -> bool {
        log_keys_unique(self@)
    }

    /// The pending modification for `k`, if `k` was touched.
    pub open spec fn spec_read(self, k: Seq<u8>) -> Option<ModVal> {
        log_read(self@, k)
    }

    /// An empty log.
    pub fn new() -> (r: Self)
        ensures
            r.wf(),
            r@ =~= Seq::<(Seq<u8>, ModVal)>::empty(),
    {
        WriteLog { entries: Vec::new() }
    }

    /// Index of the entry for `key`, if any.
    fn find(&self, key: &Key) -> (r: Option<usize>)
        ensures
            match r {
                Some(i) => i < self@.len() && self@[i as int].0 == key@,
                None => forall|i: int| 0 <= i < self@.len() ==> self@[i].0 != key@,
            },
    {
        let n = self.entries.len();
        let mut i: usize = 0;
        while i < n
            invariant
                n == self@.len(),
                n == self.entries@.len(),
                i <= n,
                forall|j: int| 0 <= j < i ==> self@[j].0 != key@,
            decreases n - i,
    {
            assert(self@[i as int].0 == self.entries@[i as int].0@);
            if self.entries[i].0.eq_bytes(key) {
                return Some(i);
            }
            i = i + 1;
        }
        None
    }

    /// The pending modification for `key`, if the key was touched.
    pub fn read(&self, key: &Key) -> (r: Option<&StorageModification>)
        requires
            self.wf(),
        ensures
            match r {
                Some(m) => self.spec_read(key@) == Some(m@),
                None => self.spec_read(key@) is None,
            },
    {
        match self.find(key) {
            Some(i) => {
                let m = &self.entries[i].1;
                proof {
                    let j = choose|j: int|
                        0 <= j < self@.len() && self@[j].0 == key@;
                    assert(j == i);
                    assert(self@[i as int].1 == m@);
                }
                Some(m)
            },
            None => None,
        }
    }

    /// Record that `key` holds `value` after the transaction, replacing any
    /// earlier modification of the same key.
    pub fn write(&mut self, key: Key, value: Vec<u8>)
        requires
            old(self).wf(),
        ensures
            final(self).wf(),
            final(self).spec_read(key@) == Some(ModVal::Write(value@)),
            forall|k: Seq<u8>| k != key@
                ==> final(self).spec_read(k) == old(self).spec_read(k),
            final(self)@.len() <= old(self)@.len() + 1,
    {
        self.set_entry(key, StorageModification::Write { value });
    }

    /// Record that `key` is absent after the transaction, replacing any
    /// earlier modification of the same key.
    pub fn delete(&mut self, key: Key)
        requires
            old(self).wf(),
        ensures
            final(self).wf(),
            final(self).spec_read(key@) == Some(ModVal::Delete),
            forall|k: Seq<u8>| k != key@
                ==> final(self).spec_read(k) == old(self).spec_read(k),
            final(self)@.len() <= old(self)@.len() + 1,
    {
        self.set_entry(key, StorageModification::Delete);
    }

    /// Set the entry for `key` to `m`, in place or appended.
    fn set_entry(&mut self, key: Key, m: StorageModification)
        requires
            old(self).wf(),
        ensures
            final(self).wf(),
            final(self).spec_read(key@) == Some(m@),
            forall|k: Seq<u8>| k != key@
                ==> final(self).spec_read(k) == old(self).spec_read(k),
            final(self)@.len() <= old(self)@.len() + 1,
    {
        let ghost keyv = key@;
        let ghost mv = m@;
        match self.find(&key) {
            Some(i) => {
                self.entries.set(i, (key, m));
                proof {
                    assert(self@ =~= old(self)@.update(i as int, (keyv, mv)));
                    lemma_read_after_update(old(self)@, self@, i as int, keyv, mv);
                }
            },
            None => {
                self.entries.push((key, m));
                proof {
                    assert(self@ =~= old(self)@.push((keyv, mv)));
                    lemma_read_after_push(old(self)@, self@, keyv, mv);
                }
            },
        }
    }

    /// The touched keys lying in `addr`'s sub-space, in first-touch order.
    pub fn subspace_keys_changed(&self, addr: &Address) -> (r: Vec<Key>)
        requires
            self.wf(),
        ensures
            r@.map_values(|k: Key| k@)
                =~= self@.map_values(|e: (Seq<u8>, ModVal)| e.0)
                    .filter(|k: Seq<u8>| key_in_subspace(k, addr@)),
    {
        let ghost keys = self@.map_values(|e: (Seq<u8>, ModVal)| e.0);
        let mut r: Vec<Key> = Vec::new();
        let n = self.entries.len();
        let mut i: usize = 0;
        proof {
            reveal(Seq::filter);
            assert(keys.subrange(0, 0) =~= Seq::<Seq<u8>>::empty());
        }
        while i < n
            invariant
                n == self@.len(),
                n == self.entries@.len(),
                n == keys.len(),
                i <= n,
                keys == self@.map_values(|e: (Seq<u8>, ModVal)| e.0),
                forall|j: int| 0 <= j < n ==> keys[j] == self@[j].0,
                r@.map_values(|k: Key| k@)
                    =~= keys.subrange(0, i as int)
                        .filter(|k: Seq<u8>| key_in_subspace(k, addr@)),
            decreases n - i,
        {
            let e = &self.entries[i];
            proof {
                assert(self@[i as int].0 == e.0@);
            }
            let in_sub = e.0.is_in_subspace(addr);
            if in_sub {
                r.push(e.0.clone_key());
            }
            proof {
                reveal(Seq::filter);
                let pre = keys.subrange(0, i as int);
                let cur = keys.subrange(0, (i + 1) as int);
                assert(cur.drop_last() =~= pre);
                assert(cur.last() == keys[i as int]);
                assert(r@.map_values(|k: Key| k@)
                    =~= cur.filter(|k: Seq<u8>| key_in_subspace(k, addr@)));
            }
            i = i + 1;
        }
        proof {
            assert(keys.subrange(0, n as int) =~= keys);
        }
        r
    }

    /// How many keys the log has touched.
    pub fn len(&self) -> (r: usize)
        ensures
            r == self@.len(),
    {
        self.entries.len()
    }

    /// Flush the log into storage: pending writes are stored, pending
    /// deletions remove their keys, untouched keys keep their values. The
    /// caller does this once after every validity predicate has accepted.
    pub fn commit(&self, storage: &mut crate::storage::Storage)
        requires
            self.wf(),
            old(storage).wf(),
        ensures
            final(storage).wf(),
            forall|k: Seq<u8>| final(storage).spec_read(k)
                == read_committed(old(storage)@, self@, k),
            final(storage).spec_chain_id() == old(storage).spec_chain_id(),
            final(storage).spec_block_height() == old(storage).spec_block_height(),
            final(storage).spec_block_hash() == old(storage).spec_block_hash(),
    {
        let n = self.entries.len();
        let mut i: usize = 0;
        proof {
            assert(self@.subrange(0, 0) =~= Seq::<(Seq<u8>, ModVal)>::empty());
        }
        while i < n
            invariant
                n == self@.len(),
                n == self.entries@.len(),
                i <= n,
                self.wf(),
                storage.wf(),
                storage.spec_chain_id() == old(storage).spec_chain_id(),
                storage.spec_block_height() == old(storage).spec_block_height(),
                storage.spec_block_hash() == old(storage).spec_block_hash(),
                forall|j: int| 0 <= j < n
                    ==> self@[j] == (self.entries@[j].0@, self.entries@[j].1@),
                forall|k: Seq<u8>| storage.spec_read(k)
                    == read_committed(old(storage)@, self@.subrange(0, i as int), k),
            decreases n - i,
        {
            let e = &self.entries[i];
            let ghost st_pre = *storage;
            match &e.1 {
                StorageModification::Write { value } => {
                    storage.write(e.0.clone_key(), crate::types::clone_bytes(value));
                },
                StorageModification::Delete => {
                    storage.delete(&e.0);
                },
            }
            proof {
                let pre_sub = self@.subrange(0, i as int);
                let cur_sub = self@.subrange(0, (i + 1) as int);
                let entry = self@[i as int];
                assert(cur_sub =~= pre_sub.push(entry));
                assert forall|x: int| 0 <= x < pre_sub.len()
                    implies pre_sub[x].0 != entry.0 by {
                    assert(pre_sub[x] == self@[x]);
                }
                lemma_read_after_push(pre_sub, cur_sub, entry.0, entry.1);
                assert forall|k: Seq<u8>| storage.spec_read(k)
                    == read_committed(old(storage)@, cur_sub, k) by {
                    if k == entry.0 {
                        assert(log_read(cur_sub, k) == Some(entry.1));
                    } else {
                        assert(log_read(cur_sub, k) == log_read(pre_sub, k));
                        assert(storage.spec_read(k) == st_pre.spec_read(k));
                    }
                }
            }
            i = i + 1;
        }
        proof {
            assert(self@.subrange(0, n as int) =~= self@);
        }
    }

    /// A deep copy with the same entries.
    pub fn clone_log(&self) -> (r: Self)
        ensures
            r@ == self@,
    {
        let mut entries: Vec<(Key, StorageModification)> = Vec::new();
        let n = self.entries.len();
        let mut i: usize = 0;
        while i < n
            invariant
                n == self.entries@.len(),
                n == self@.len(),
                i <= n,
                forall|j: int| 0 <= j < n
                    ==> self@[j] == (self.entries@[j].0@, self.entries@[j].1@),
                entries@.map_values(|e: (Key, StorageModification)| (e.0@, e.1@))
                    =~= self@.subrange(0, i as int),
            decreases n - i,
        {
            let e = &self.entries[i];
            let m = match &e.1 {
                StorageModification::Write { value } => StorageModification::Write {
                    value: crate::types::clone_bytes(value),
                },
                StorageModification::Delete => StorageModification::Delete,
            };
            proof {
                assert(m@ == self.entries@[i as int].1@);
            }
            let copy = (e.0.clone_key(), m);
            proof {
                assert((copy.0@, copy.1@) == self@[i as int]);
            }
            let ghost pre = entries@;
            entries.push(copy);
            proof {
                let f = |p: (Key, StorageModification)| (p.0@, p.1@);
                assert(pre.map_values(f).len() == i);
                assert(pre.len() == i);
                assert(entries@ == pre.push(copy));
                let mm = entries@.map_values(f);
                assert(mm[i as int] == self@[i as int]);
                assert forall|j: int| 0 <= j < i implies mm[j] == self@[j] by {
                    assert(entries@[j] == pre[j]);
                    assert(pre.map_values(f)[j] == f(pre[j]));
                }
                assert(mm =~= self@.subrange(0, (i + 1) as int));
            }
            i = i + 1;
        }
        proof {
            assert(self@.subrange(0, n as int) =~= self@);
        }
        WriteLog { entries }
    }
}

impl Key {
    /// A copy of this key.
    pub fn clone_key(&self) -> (r: Key)
        ensures
            r@ == self@,
    {
        Key { bytes: crate::types::clone_bytes(&self.bytes) }
    }
}

/// After updating index `i` to `(k, m)`, reading `k` gives `m` and every
/// other key reads as before.
proof fn lemma_read_after_update(
    pre: Seq<(Seq<u8>, ModVal)>,
    post: Seq<(Seq<u8>, ModVal)>,
    i: int,
    k: Seq<u8>,
    m: ModVal,
)
    requires
        0 <= i < pre.len(),
        pre[i].0 == k,
        post == pre.update(i, (k, m)),
        log_keys_unique(pre),
    ensures
        log_keys_unique(post),
        log_read(post, k) == Some(m),
        forall|q: Seq<u8>| q != k ==> log_read(post, q) == log_read(pre, q),
{
    assert(post[i].0 == k);
    assert(log_read(post, k) == Some(m)) by {
        let x = choose|x: int| 0 <= x < post.len() && post[x].0 == k;
        assert(x == i || pre[x].0 == k);
        assert(x == i);
    }
    assert forall|q: Seq<u8>| q != k implies log_read(post, q) == log_read(pre, q) by {
        assert(forall|x: int| 0 <= x < post.len() && x != i ==> post[x] == pre[x]);
        if exists|x: int| 0 <= x < pre.len() && pre[x].0 == q {
            let x = choose|x: int| 0 <= x < pre.len() && pre[x].0 == q;
            assert(x != i);
            assert(post[x].0 == q);
            let y = choose|y: int| 0 <= y < post.len() && post[y].0 == q;
            assert(y != i);
            assert(pre[y].0 == q);
            assert(x == y);
        } else {
            assert(forall|x: int| 0 <= x < post.len() ==> post[x].0 != q);
        }
    }
}

/// After pushing a fresh key `k` with `m`, reading `k` gives `m` and every
/// other key reads as before.
proof fn lemma_read_after_push(
    pre: Seq<(Seq<u8>, ModVal)>,
    post: Seq<(Seq<u8>, ModVal)>,
    k: Seq<u8>,
    m: ModVal,
)
    requires
        post == pre.push((k, m)),
        forall|x: int| 0 <= x < pre.len() ==> pre[x].0 != k,
        log_keys_unique(pre),
    ensures
        log_keys_unique(post),
        log_read(post, k) == Some(m),
        forall|q: Seq<u8>| q != k ==> log_read(post, q) == log_read(pre, q),
{
    assert(post[post.len() - 1] == (k, m));
    assert(log_read(post, k) == Some(m)) by {
        let x = choose|x: int| 0 <= x < post.len() && post[x].0 == k;
        assert(x == post.len() - 1);
    }
    assert forall|q: Seq<u8>| q != k implies log_read(post, q) == log_read(pre, q) by {
        if exists|x: int| 0 <= x < pre.len() && pre[x].0 == q {
            let x = choose|x: int| 0 <= x < pre.len() && pre[x].0 == q;
            assert(post[x].0 == q);
            let y = choose|y: int| 0 <= y < post.len() && post[y].0 == q;
            assert(y != post.len() - 1);
            assert(x == y);
        } else {
            assert(forall|x: int| 0 <= x < post.len() ==> post[x].0 != q);
        }
    }
}

} // verus!
