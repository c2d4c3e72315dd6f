//! Prefix iterators handed to guests as opaque handles.
//!
//! One instance lives for a single runner invocation. Handles are dense
//! unsigned integers allocated from 0; a handle is meaningless outside the
//! invocation that created it. Each iterator holds the matched key-value
//! pairs in storage order and a cursor over them.

use vstd::prelude::*;

use crate::types::Key;

verus! {

/// One live iterator: its matched pairs, in order, and the cursor position.
#[derive(Clone, Debug)]
pub struct PrefixIter {
    entries: Vec<(Key, Vec<u8>)>,
    pos: usize,
}

impl PrefixIter {
    /// The matched pairs, in order.
    pub closed spec fn spec_entries(self) -> Seq<(Seq<u8>, Seq<u8>)> {
        self.entries@.map_values(|e: (Key, Vec<u8>)| (e.0@, e.1@))
    }

    /// How many pairs were already handed out.
    pub closed spec fn spec_pos(self) -> int {
        self.pos as int
    }

    /// The cursor never runs past the matched pairs.
    pub open spec fn wf(self) -> bool {
        0 <= self.spec_pos() <= self.spec_entries().len()
    }

    /// A fresh iterator over `entries`, positioned at the start.
    pub fn new(entries: Vec<(Key, Vec<u8>)>) -> (r: Self)
        ensures
            r.wf(),
            r.spec_entries() == entries@.map_values(|e: (Key, Vec<u8>)| (e.0@, e.1@)),
            r.spec_pos() == 0,
    {
        PrefixIter { entries, pos: 0 }
    }

    /// The next pair, advancing the cursor; `None` when exhausted.
    pub fn next(&mut self) -> (r: Option<(Key, Vec<u8>)>)
        requires
            old(self).wf(),
        ensures
            final(self).wf(),
            final(self).spec_entries() == old(self).spec_entries(),
            old(self).spec_pos() < old(self).spec_entries().len() ==> {
                &&& final(self).spec_pos() == old(self).spec_pos() + 1
                &&& r matches Some(e)
                    && (e.0@, e.1@) == old(self).spec_entries()[old(self).spec_pos()]
            },
            old(self).spec_pos() >= old(self).spec_entries().len() ==> {
                &&& final(self).spec_pos() == old(self).spec_pos()
                &&& r is None
            },
    {
        if self.pos < self.entries.len() {
            let e = &self.entries[self.pos];
            let key = e.0.clone_key();
            let val = crate::types::clone_bytes(&e.1);
            self.pos = self.pos + 1;
            proof {
                assert(old(self).spec_entries()[old(self).spec_pos()]
                    == (self.entries@[old(self).spec_pos()].0@,
                        self.entries@[old(self).spec_pos()].1@));
            }
            Some((key, val))
        } else {
            None
        }
    }
}

/// All iterators of one runner invocation, addressed by dense handles
/// allocated from 0.
#[derive(Clone, Debug)]
pub struct PrefixIterators {
    iters: Vec<PrefixIter>,
}

impl PrefixIterators {
    /// The live iterators, by handle.
    pub closed spec fn view(self) -> Seq<PrefixIter> {
        self.iters@
    }

    /// Every live iterator is well-formed.
    pub open spec fn wf(self) -> bool {
        forall|i: int| 0 <= i < self@.len() ==> self@[i].wf()
    }

    /// No live iterators.
    pub fn new() -> (r: Self)
        ensures
            r.wf(),
            r@ =~= Seq::<PrefixIter>::empty(),
    {
        PrefixIterators { iters: Vec::new() }
    }

    /// Register `iter`, returning its handle: the next dense integer.
    pub fn insert(&mut self, iter: PrefixIter) -> (r: u64)
        requires
            old(self).wf(),
            iter.wf(),
            old(self)@.len() < u64::MAX,
        ensures
            final(self).wf(),
            r == old(self)@.len(),
            final(self)@ == old(self)@.push(iter),
    {
        let h = self.iters.len() as u64;
        self.iters.push(iter);
        h
    }

    /// The next pair of the iterator behind `handle`; `None` when the
    /// handle is unknown or the iterator is exhausted.
    pub fn next(&mut self, handle: u64) -> (r: Option<(Key, Vec<u8>)>)
        requires
            old(self).wf(),
        ensures
            final(self).wf(),
            final(self)@.len() == old(self)@.len(),
            handle >= old(self)@.len() ==> r is None && final(self)@ == old(self)@,
            handle < old(self)@.len() ==> {
                let it = old(self)@[handle as int];
                &&& forall|j: int| 0 <= j < old(self)@.len() && j != handle
                    ==> final(self)@[j] == old(self)@[j]
                &&& final(self)@[handle as int].spec_entries() == it.spec_entries()
                &&& (it.spec_pos() < it.spec_entries().len() ==> {
                    &&& final(self)@[handle as int].spec_pos() == it.spec_pos() + 1
                    &&& r matches Some(e)
                        && (e.0@, e.1@) == it.spec_entries()[it.spec_pos()]
                })
                &&& (it.spec_pos() >= it.spec_entries().len() ==> {
                    &&& final(self)@[handle as int].spec_pos() == it.spec_pos()
                    &&& r is None
                })
            },
    {
        if handle >= self.iters.len() as u64 {
            return None;
        }
        let i = handle as usize;
        let mut taken = PrefixIter { entries: Vec::new(), pos: 0 };
        self.iters.set_and_swap(i, &mut taken);
        let r = taken.next();
        self.iters.set_and_swap(i, &mut taken);
        r
    }

    /// How many iterators are live.
    pub fn len(&self) -> (r: usize)
        ensures
            r == self@.len(),
    {
        self.iters.len()
    }
}

} // verus!
