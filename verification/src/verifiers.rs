//! The set of addresses whose validity predicates must approve a
//! transaction.
//!
//! The set is populated by the transaction's `insert_verifier` host calls
//! and is read-only to validity predicates.

use vstd::prelude::*;

use crate::types::Address;

verus! {

/// Distinct addresses in first-insertion order.
#[derive(Clone, Debug)]
pub struct VerifierSet {
    addrs: Vec<Address>,
}

impl VerifierSet {
    /// The inserted addresses, in first-insertion order.
    pub closed spec fn view(self) -> Seq<Seq<u8>> {
        self.addrs@.map_values(|a: Address| a@)
    }

    /// The inserted addresses, as a set.
    pub open spec fn as_set(self) -> Set<Seq<u8>> {
        self@.to_set()
    }

    /// Each address occurs at most once.
    pub open spec fn wf(self) -> bool {
        forall|i: int, j: int| 0 <= i < j < self@.len() ==> self@[i] != self@[j]
    }

    /// An empty set.
    pub fn new() -> (r: Self)
        ensures
            r.wf(),
            r@ =~= Seq::<Seq<u8>>::empty(),
    {
        VerifierSet { addrs: Vec::new() }
    }

    /// Whether `addr` was inserted.
    pub fn contains(&self, addr: &Address) -> (r: bool)
        ensures
            r <==> self@.contains(addr@),
    {
        let n = self.addrs.len();
        let mut i: usize = 0;
        while i < n
            invariant
                n == self@.len(),
                n == self.addrs@.len(),
                i <= n,
                forall|j: int| 0 <= j < i ==> self@[j] != addr@,
            decreases n - i,
        {
            assert(self@[i as int] == self.addrs@[i as int]@);
            if self.addrs[i].eq_bytes(addr) {
                return true;
            }
            i = i + 1;
        }
        false
    }

    /// Insert `addr`; inserting an address twice leaves the set unchanged.
    pub fn insert(&mut self, addr: Address)
        requires
            old(self).wf(),
        ensures
            final(self).wf(),
            final(self).as_set() =~= old(self).as_set().insert(addr@),
            old(self)@.contains(addr@) ==> final(self)@ == old(self)@,
            !old(self)@.contains(addr@) ==> final(self)@ == old(self)@.push(addr@),
    {
        let ghost av = addr@;
        if !self.contains(&addr) {
            self.addrs.push(addr);
            proof {
                assert(self@ =~= old(self)@.push(av));
                assert forall|x: Seq<u8>|
                    self@.contains(x) <==> (old(self)@.contains(x) || x == av) by {
                    if self@.contains(x) {
                        let i = choose|i: int| 0 <= i < self@.len() && self@[i] == x;
                        if i < old(self)@.len() {
                            assert(old(self)@[i] == x);
                        }
                    }
                    if old(self)@.contains(x) {
                        let i = choose|i: int|
                            0 <= i < old(self)@.len() && old(self)@[i] == x;
                        assert(self@[i] == x);
                    }
                    assert(self@[self@.len() - 1] == av);
                }
                assert(self.as_set() =~= old(self).as_set().insert(av));
            }
        } else {
            proof {
                assert(old(self)@.contains(av));
                assert(self.as_set() =~= old(self).as_set().insert(av));
            }
        }
    }

    /// The addresses in first-insertion order, as fresh values.
    pub fn to_vec(&self) -> (r: Vec<Address>)
        ensures
            r@.map_values(|a: Address| a@) =~= self@,
    {
        let mut r: Vec<Address> = Vec::new();
        let n = self.addrs.len();
        let mut i: usize = 0;
        while i < n
            invariant
                n == self@.len(),
                n == self.addrs@.len(),
                i <= n,
                forall|j: int| 0 <= j < n ==> self@[j] == self.addrs@[j]@,
                r@.map_values(|a: Address| a@) =~= self@.subrange(0, i as int),
            decreases n - i,
        {
            let a = &self.addrs[i];
            let copy = Address { bytes: crate::types::clone_bytes(&a.bytes) };
            proof {
                assert(copy@ == self.addrs@[i as int]@);
            }
            let ghost pre = r@;
            r.push(copy);
            proof {
                assert(pre.map_values(|x: Address| x@).len() == i);
                assert(pre.len() == i);
                assert(r@ == pre.push(copy));
                assert(r@.len() == i + 1);
                assert(r@[i as int] == copy);
                let m = r@.map_values(|x: Address| x@);
                assert(m.len() == i + 1);
                assert(m[i as int] == r@[i as int]@);
                assert(m[i as int] == self@[i as int]);
                assert forall|j: int| 0 <= j < i implies m[j]
                    == self@.subrange(0, (i + 1) as int)[j] by {
                    assert(m[j] == r@[j]@);
                    assert(r@[j] == pre[j]);
                    assert(pre.map_values(|x: Address| x@)[j] == pre[j]@);
                    assert(pre.map_values(|x: Address| x@)[j] == self@[j]);
                }
                assert(m =~= self@.subrange(0, (i + 1) as int));
            }
            i = i + 1;
        }
        proof {
            assert(self@.subrange(0, n as int) =~= self@);
        }
        r
    }

    /// How many addresses were inserted.
    pub fn len(&self) -> (r: usize)
        ensures
            r == self@.len(),
    {
        self.addrs.len()
    }

    /// A deep copy with the same addresses in the same order.
    pub fn clone_set(&self) -> (r: Self)
        ensures
            r@ == self@,
    {
        VerifierSet { addrs: self.to_vec() }
    }
}

} // verus!
