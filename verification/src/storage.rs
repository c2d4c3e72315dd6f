//! In-memory model of the ledger's persistent key-value state.
//!
//! The execution core borrows storage read-only (read-only-parallel during
//! the validity-predicate phase); the physical backend lives outside the
//! core, which only depends on reads, has-key queries and ordered prefix
//! iteration.

use vstd::prelude::*;
use vstd::pervasive::VecAdditionalExecFns;

use crate::types::{clone_bytes, seq_has_prefix, Key};

verus! {

/// The value stored for `k` in the entry sequence `s`, if any.
pub open spec fn store_read(s: Seq<(Seq<u8>, Seq<u8>)>, k: Seq<u8>) -> Option<Seq<u8>> {
    if exists|i: int| 0 <= i < s.len() && s[i].0 == k {
        let i = choose|i: int| 0 <= i < s.len() && s[i].0 == k;
        Some(s[i].1)
    } else {
        None
    }
}

/// Each key occurs at most once in `s`.
pub open spec fn store_keys_unique(s: Seq<(Seq<u8>, Seq<u8>)>) -> bool {
    forall|i: int, j: int| 0 <= i < j < s.len() ==> s[i].0 != s[j].0
}

/// The ledger state: stored key-value pairs plus the block data exposed to
/// guests through host calls.
#[derive(Clone, Debug)]
pub struct Storage {
    entries: Vec<(Key, Vec<u8>)>,
    chain_id: Vec<u8>,
    block_height: u64,
    block_hash: Vec<u8>,
}

impl Storage {
    /// The stored pairs of key bytes and value bytes, in insertion order.
    pub closed spec fn view(self) -> Seq<(Seq<u8>, Seq<u8>)> {
        self.entries@.map_values(|e: (Key, Vec<u8>)| (e.0@, e.1@))
    }

    /// The chain identifier exposed to guests.
    pub closed spec fn spec_chain_id(self) -> Seq<u8> {
        self.chain_id@
    }

    /// The current block height exposed to guests.
    pub closed spec fn spec_block_height(self) -> u64 {
        self.block_height
    }

    /// The current block hash exposed to guests.
    pub closed spec fn spec_block_hash(self) -> Seq<u8> {
        self.block_hash@
    }

    /// Each key occurs at most once.
    pub open spec fn wf(self) -> bool {
        store_keys_unique(self@)
    }

    /// The value stored for `k`, if any.
    pub open spec fn spec_read(self, k: Seq<u8>) -> Option<Seq<u8>> {
        store_read(self@, k)
    }

    /// Empty storage with the given block data.
    pub fn new(chain_id: Vec<u8>, block_height: u64, block_hash: Vec<u8>) -> (r: Self)
        ensures
            r.wf(),
            r@ =~= Seq::<(Seq<u8>, Seq<u8>)>::empty(),
            r.spec_chain_id() == chain_id@,
            r.spec_block_height() == block_height,
            r.spec_block_hash() == block_hash@,
    {
        Storage { entries: Vec::new(), chain_id, block_height, block_hash }
    }

    /// Index of the entry for `key`, if any.
    fn find(&self, key: &Key) -> (r: Option<usize>)
        ensures
            match r {
                Some(i) => i < self@.len() && self@[i as int].0 == key@,
                None => forall|i: int| 0 <= i < self@.len() ==> self@[i].0 != key@,
            },
    {
        let n = self.entries.len();
        let mut i: usize = 0;
        while i < n
            invariant
                n == self@.len(),
                n == self.entries@.len(),
                i <= n,
                forall|j: int| 0 <= j < i ==> self@[j].0 != key@,
            decreases n - i,
        {
            assert(self@[i as int].0 == self.entries@[i as int].0@);
            if self.entries[i].0.eq_bytes(key) {
                return Some(i);
            }
            i = i + 1;
        }
        None
    }

    /// The value stored for `key`, if any, as a fresh vector.
    pub fn read(&self, key: &Key) -> (r: Option<Vec<u8>>)
        requires
            self.wf(),
        ensures
            match r {
                Some(v) => self.spec_read(key@) == Some(v@),
                None => self.spec_read(key@) is None,
            },
    {
        match self.find(key) {
            Some(i) => {
                proof {
                    let j = choose|j: int|
                        0 <= j < self@.len() && self@[j].0 == key@;
                    assert(j == i);
                }
                Some(clone_bytes(&self.entries[i].1))
            },
            None => None,
        }
    }

    /// Whether `key` is present.
    pub fn has_key(&self, key: &Key) -> (r: bool)
        requires
            self.wf(),
        ensures
            r <==> self.spec_read(key@) is Some,
    {
        match self.find(key) {
            Some(_) => true,
            None => false,
        }
    }

    /// Store `value` under `key`, replacing any earlier value.
    pub fn write(&mut self, key: Key, value: Vec<u8>)
        requires
            old(self).wf(),
        ensures
            final(self).wf(),
            final(self).spec_read(key@) == Some(value@),
            forall|k: Seq<u8>| k != key@
                ==> final(self).spec_read(k) == old(self).spec_read(k),
            final(self).spec_chain_id() == old(self).spec_chain_id(),
            final(self).spec_block_height() == old(self).spec_block_height(),
            final(self).spec_block_hash() == old(self).spec_block_hash(),
    {
        let ghost keyv = key@;
        let ghost valv = value@;
        match self.find(&key) {
            Some(i) => {
                self.entries.set(i, (key, value));
                proof {
                    assert(self@ =~= old(self)@.update(i as int, (keyv, valv)));
                    lemma_store_read_after_update(old(self)@, self@, i as int, keyv, valv);
                }
            },
            None => {
                self.entries.push((key, value));
                proof {
                    assert(self@ =~= old(self)@.push((keyv, valv)));
                    lemma_store_read_after_push(old(self)@, self@, keyv, valv);
                }
            },
        }
    }

    /// Remove `key` and its value, if present; later keys keep their
    /// order.
    pub fn delete(&mut self, key: &Key)
        requires
            old(self).wf(),
        ensures
            final(self).wf(),
            final(self).spec_read(key@) is None,
            forall|k: Seq<u8>| k != key@
                ==> final(self).spec_read(k) == old(self).spec_read(k),
            final(self).spec_chain_id() == old(self).spec_chain_id(),
            final(self).spec_block_height() == old(self).spec_block_height(),
            final(self).spec_block_hash() == old(self).spec_block_hash(),
    {
        let ghost keyv = key@;
        match self.find(key) {
            Some(i) => {
                self.entries.remove(i);
                proof {
                    assert(self@ =~= old(self)@.remove(i as int));
                    lemma_store_read_after_remove(old(self)@, self@, i as int, keyv);
                }
            },
            None => {
                proof {
                    assert(self@ == old(self)@);
                    assert(store_read(self@, keyv) is None);
                }
            },
        }
    }

    /// The stored pairs whose key starts with `prefix`, in storage order.
    pub fn prefix_matches(&self, prefix: &Key) -> (r: Vec<(Key, Vec<u8>)>)
        requires
            self.wf(),
        ensures
            r@.map_values(|e: (Key, Vec<u8>)| (e.0@, e.1@))
                =~= self@.filter(|e: (Seq<u8>, Seq<u8>)| seq_has_prefix(e.0, prefix@)),
    {
        let mut r: Vec<(Key, Vec<u8>)> = Vec::new();
        let n = self.entries.len();
        let mut i: usize = 0;
        proof {
            reveal(Seq::filter);
            assert(self@.subrange(0, 0) =~= Seq::<(Seq<u8>, Seq<u8>)>::empty());
        }
        while i < n
            invariant
                n == self@.len(),
                n == self.entries@.len(),
                i <= n,
                forall|j: int| 0 <= j < n
                    ==> self@[j] == (self.entries@[j].0@, self.entries@[j].1@),
                r@.map_values(|e: (Key, Vec<u8>)| (e.0@, e.1@))
                    =~= self@.subrange(0, i as int)
                        .filter(|e: (Seq<u8>, Seq<u8>)| seq_has_prefix(e.0, prefix@)),
            decreases n - i,
        {
            let e = &self.entries[i];
            if e.0.has_prefix(prefix.bytes.as_slice()) {
                r.push((e.0.clone_key(), clone_bytes(&e.1)));
            }
            proof {
                reveal(Seq::filter);
                let pre = self@.subrange(0, i as int);
                let cur = self@.subrange(0, (i + 1) as int);
                assert(cur.drop_last() =~= pre);
                assert(cur.last() == self@[i as int]);
                assert(r@.map_values(|e: (Key, Vec<u8>)| (e.0@, e.1@))
                    =~= cur.filter(|e: (Seq<u8>, Seq<u8>)| seq_has_prefix(e.0, prefix@)));
            }
            i = i + 1;
        }
        proof {
            assert(self@.subrange(0, n as int) =~= self@);
        }
        r
    }

    /// The chain identifier, as a fresh vector.
    pub fn get_chain_id(&self) -> (r: Vec<u8>)
        ensures
            r@ == self.spec_chain_id(),
    {
        clone_bytes(&self.chain_id)
    }

    /// The current block height.
    pub fn get_block_height(&self) -> (r: u64)
        ensures
            r == self.spec_block_height(),
    {
        self.block_height
    }

    /// The current block hash, as a fresh vector.
    pub fn get_block_hash(&self) -> (r: Vec<u8>)
        ensures
            r@ == self.spec_block_hash(),
    {
        clone_bytes(&self.block_hash)
    }

    /// How many keys are stored.
    pub fn len(&self) -> (r: usize)
        ensures
            r == self@.len(),
    {
        self.entries.len()
    }

    /// A deep copy with the same contents and block data.
    pub fn clone_storage(&self) -> (r: Self)
        ensures
            r@ == self@,
            r.spec_chain_id() == self.spec_chain_id(),
            r.spec_block_height() == self.spec_block_height(),
            r.spec_block_hash() == self.spec_block_hash(),
    {
        let mut entries: Vec<(Key, Vec<u8>)> = Vec::new();
        let n = self.entries.len();
        let mut i: usize = 0;
        while i < n
            invariant
                n == self.entries@.len(),
                n == self@.len(),
                i <= n,
                forall|j: int| 0 <= j < n
                    ==> self@[j] == (self.entries@[j].0@, self.entries@[j].1@),
                entries@.map_values(|e: (Key, Vec<u8>)| (e.0@, e.1@))
                    =~= self@.subrange(0, i as int),
            decreases n - i,
        {
            let e = &self.entries[i];
            let copy = (e.0.clone_key(), clone_bytes(&e.1));
            proof {
                assert((copy.0@, copy.1@) == self@[i as int]);
            }
            let ghost pre = entries@;
            entries.push(copy);
            proof {
                let f = |p: (Key, Vec<u8>)| (p.0@, p.1@);
                assert(pre.map_values(f).len() == i);
                assert(pre.len() == i);
                assert(entries@ == pre.push(copy));
                let m = entries@.map_values(f);
                assert(m[i as int] == self@[i as int]);
                assert forall|j: int| 0 <= j < i implies m[j] == self@[j] by {
                    assert(entries@[j] == pre[j]);
                    assert(pre.map_values(f)[j] == f(pre[j]));
                }
                assert(m =~= self@.subrange(0, (i + 1) as int));
            }
            i = i + 1;
        }
        proof {
            assert(self@.subrange(0, n as int) =~= self@);
        }
        Storage {
            entries,
            chain_id: clone_bytes(&self.chain_id),
            block_height: self.block_height,
            block_hash: clone_bytes(&self.block_hash),
        }
    }
}

/// After removing index `i`, its key reads as absent and every other key
/// reads as before.
proof fn lemma_store_read_after_remove(
    pre: Seq<(Seq<u8>, Seq<u8>)>,
    post: Seq<(Seq<u8>, Seq<u8>)>,
    i: int,
    k: Seq<u8>,
)
    requires
        0 <= i < pre.len(),
        pre[i].0 == k,
        post == pre.remove(i),
        store_keys_unique(pre),
    ensures
        store_keys_unique(post),
        store_read(post, k) is None,
        forall|q: Seq<u8>| q != k ==> store_read(post, q) == store_read(pre, q),
{
    assert(forall|j: int| 0 <= j < i ==> post[j] == pre[j]);
    assert(forall|j: int| i <= j < post.len() ==> post[j] == pre[j + 1]);
    assert(store_read(post, k) is None) by {
        if exists|x: int| 0 <= x < post.len() && post[x].0 == k {
            let x = choose|x: int| 0 <= x < post.len() && post[x].0 == k;
            if x < i {
                assert(pre[x].0 == k);
            } else {
                assert(pre[x + 1].0 == k);
            }
            assert(false);
        }
    }
    assert forall|q: Seq<u8>| q != k implies store_read(post, q) == store_read(pre, q) by {
        if exists|x: int| 0 <= x < pre.len() && pre[x].0 == q {
            let x = choose|x: int| 0 <= x < pre.len() && pre[x].0 == q;
            assert(x != i);
            if x < i {
                assert(post[x].0 == q && post[x].1 == pre[x].1);
            } else {
                assert(post[x - 1].0 == q && post[x - 1].1 == pre[x].1);
            }
            let y = choose|y: int| 0 <= y < post.len() && post[y].0 == q;
            let y_pre: int = if y < i { y } else { y + 1 };
            assert(pre[y_pre].0 == q);
            assert(y_pre == x);
        } else {
            assert forall|x: int| 0 <= x < post.len() implies post[x].0 != q by {
                if x < i {
                    assert(post[x] == pre[x]);
                } else {
                    assert(post[x] == pre[x + 1]);
                }
            }
        }
    }
}

/// In an entry sequence with unique keys, a member pair is what its key
/// reads as.
pub proof fn lemma_store_read_of_member(s: Seq<(Seq<u8>, Seq<u8>)>, k: Seq<u8>, v: Seq<u8>)
    requires
        store_keys_unique(s),
        s.contains((k, v)),
    ensures
        store_read(s, k) == Some(v),
{
    let i = choose|i: int| 0 <= i < s.len() && s[i] == (k, v);
    assert(s[i].0 == k);
    let j = choose|j: int| 0 <= j < s.len() && s[j].0 == k;
    assert(j == i);
}

/// After updating index `i` to `(k, v)`, reading `k` gives `v` and every
/// other key reads as before.
proof fn lemma_store_read_after_update(
    pre: Seq<(Seq<u8>, Seq<u8>)>,
    post: Seq<(Seq<u8>, Seq<u8>)>,
    i: int,
    k: Seq<u8>,
    v: Seq<u8>,
)
    requires
        0 <= i < pre.len(),
        pre[i].0 == k,
        post == pre.update(i, (k, v)),
        store_keys_unique(pre),
    ensures
        store_keys_unique(post),
        store_read(post, k) == Some(v),
        forall|q: Seq<u8>| q != k ==> store_read(post, q) == store_read(pre, q),
{
    assert(post[i].0 == k);
    assert(store_read(post, k) == Some(v)) by {
        let x = choose|x: int| 0 <= x < post.len() && post[x].0 == k;
        assert(x == i || pre[x].0 == k);
        assert(x == i);
    }
    assert forall|q: Seq<u8>| q != k implies store_read(post, q) == store_read(pre, q) by {
        assert(forall|x: int| 0 <= x < post.len() && x != i ==> post[x] == pre[x]);
        if exists|x: int| 0 <= x < pre.len() && pre[x].0 == q {
            let x = choose|x: int| 0 <= x < pre.len() && pre[x].0 == q;
            assert(x != i);
            assert(post[x].0 == q);
            let y = choose|y: int| 0 <= y < post.len() && post[y].0 == q;
            assert(y != i);
            assert(pre[y].0 == q);
            assert(x == y);
        } else {
            assert(forall|x: int| 0 <= x < post.len() ==> post[x].0 != q);
        }
    }
}

/// After pushing a fresh key `k` with `v`, reading `k` gives `v` and every
/// other key reads as before.
proof fn lemma_store_read_after_push(
    pre: Seq<(Seq<u8>, Seq<u8>)>,
    post: Seq<(Seq<u8>, Seq<u8>)>,
    k: Seq<u8>,
    v: Seq<u8>,
)
    requires
        post == pre.push((k, v)),
        forall|x: int| 0 <= x < pre.len() ==> pre[x].0 != k,
        store_keys_unique(pre),
    ensures
        store_keys_unique(post),
        store_read(post, k) == Some(v),
        forall|q: Seq<u8>| q != k ==> store_read(post, q) == store_read(pre, q),
{
    assert(post[post.len() - 1] == (k, v));
    assert(store_read(post, k) == Some(v)) by {
        let x = choose|x: int| 0 <= x < post.len() && post[x].0 == k;
        assert(x == post.len() - 1);
    }
    assert forall|q: Seq<u8>| q != k implies store_read(post, q) == store_read(pre, q) by {
        if exists|x: int| 0 <= x < pre.len() && pre[x].0 == q {
            let x = choose|x: int| 0 <= x < pre.len() && pre[x].0 == q;
            assert(post[x].0 == q);
            let y = choose|y: int| 0 <= y < post.len() && post[y].0 == q;
            assert(y != post.len() - 1);
            assert(x == y);
        } else {
            assert(forall|x: int| 0 <= x < post.len() ==> post[x].0 != q);
        }
    }
}

} // verus!
