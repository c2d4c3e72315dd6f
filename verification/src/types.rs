//! Plain data carried between the host and guest modules.
//!
//! Addresses and storage keys travel through guest linear memory as raw
//! bytes, so the core models both as byte strings. A key lies in an
//! address's sub-space when it starts with the address's bytes followed by
//! the `/` separator.

use vstd::prelude::*;

verus! {

/// Byte that separates segments of a storage key.
pub const KEY_SEGMENT_SEPARATOR: u8 = 47;

/// An account address, as raw bytes.
#[derive(Clone, Debug, PartialEq, Eq, Hash)]
pub struct Address {
    /// The raw bytes of the address.
    pub bytes: Vec<u8>,
}

impl Address {
    /// The mathematical value of this address.
    pub open spec fn view(self) -> Seq<u8> {
        self.bytes@
    }

    /// An address over the given bytes.
    pub fn new(bytes: Vec<u8>) -> (r: Self)
        ensures
            r@ == bytes@,
    {
        Address { bytes }
    }

    /// Whether two addresses hold the same bytes.
    pub fn eq_bytes(&self, other: &Address) -> (r: bool)
        ensures
            r <==> self@ == other@,
    {
        bytes_eq(&self.bytes, &other.bytes)
    }
}

/// A storage key, as raw bytes.
#[derive(Clone, Debug, PartialEq, Eq, Hash)]
pub struct Key {
    /// The raw bytes of the key.
    pub bytes: Vec<u8>,
}

impl Key {
    /// The mathematical value of this key.
    pub open spec fn view(self) -> Seq<u8> {
        self.bytes@
    }

    /// A key over the given bytes.
    pub fn new(bytes: Vec<u8>) -> (r: Self)
        ensures
            r@ == bytes@,
    {
        Key { bytes }
    }

    /// Whether two keys hold the same bytes.
    pub fn eq_bytes(&self, other: &Key) -> (r: bool)
        ensures
            r <==> self@ == other@,
    {
        bytes_eq(&self.bytes, &other.bytes)
    }

    /// Whether this key starts with the given prefix.
    pub fn has_prefix(&self, prefix: &[u8]) -> (r: bool)
        ensures
            r <==> seq_has_prefix(self@, prefix@),
    {
        bytes_have_prefix(&self.bytes, prefix)
    }

    /// Whether this key lies in the sub-space of `addr`: its bytes are the
    /// address's bytes, a `/` separator, and a non-empty rest.
    pub fn is_in_subspace(&self, addr: &Address) -> (r: bool)
        ensures
            r <==> key_in_subspace(self@, addr@),
    {
        let n = addr.bytes.len();
        let len = self.bytes.len();
        if len <= n || len - n < 2 {
            return false;
        }
        if !bytes_have_prefix(&self.bytes, addr.bytes.as_slice()) {
            return false;
        }
        self.bytes[n] == KEY_SEGMENT_SEPARATOR
    }
}

/// `key` lies in the sub-space of the address `addr`.
pub open spec fn key_in_subspace(key: Seq<u8>, addr: Seq<u8>) -> bool {
    &&& key.len() >= addr.len() + 2
    &&& seq_has_prefix(key, addr)
    &&& key[addr.len() as int] == KEY_SEGMENT_SEPARATOR
}

/// `s` starts with `prefix`.
pub open spec fn seq_has_prefix(s: Seq<u8>, prefix: Seq<u8>) -> bool {
    &&& s.len() >= prefix.len()
    &&& s.subrange(0, prefix.len() as int) == prefix
}

/// Byte-for-byte equality of two vectors.
pub fn bytes_eq(a: &Vec<u8>, b: &Vec<u8>) -> (r: bool)
    ensures
        r <==> a@ == b@,
{
    if a.len() != b.len() {
        assert(a@ != b@);
        return false;
    }
    let n = a.len();
    let mut i: usize = 0;
    while i < n
        invariant
            n == a@.len(),
            n == b@.len(),
            i <= n,
            forall|j: int| 0 <= j < i ==> a@[j] == b@[j],
        decreases n - i,
    {
        if a[i] != b[i] {
            assert(a@ != b@);
            return false;
        }
        i = i + 1;
    }
    assert(a@ =~= b@);
    true
}

/// A copy of a byte vector.
pub fn clone_bytes(a: &Vec<u8>) -> (r: Vec<u8>)
    ensures
        r@ == a@,
{
    let mut r: Vec<u8> = Vec::new();
    let n = a.len();
    let mut i: usize = 0;
    while i < n
        invariant
            n == a@.len(),
            i <= n,
            r@ =~= a@.subrange(0, i as int),
        decreases n - i,
    {
        r.push(a[i]);
        proof {
            assert(r@ =~= a@.subrange(0, (i + 1) as int));
        }
        i = i + 1;
    }
    proof {
        assert(r@ =~= a@);
    }
    r
}

/// Whether `a` starts with the bytes of `prefix`.
pub fn bytes_have_prefix(a: &Vec<u8>, prefix: &[u8]) -> (r: bool)
    ensures
        r <==> seq_has_prefix(a@, prefix@),
{
    if a.len() < prefix.len() {
        return false;
    }
    let n = prefix.len();
    let mut i: usize = 0;
    while i < n
        invariant
            n == prefix@.len(),
            a@.len() >= n,
            i <= n,
            forall|j: int| 0 <= j < i ==> a@[j] == prefix@[j],
        decreases n - i,
    {
        if a[i] != prefix[i] {
            assert(a@.subrange(0, n as int)[i as int] != prefix@[i as int]);
            return false;
        }
        i = i + 1;
    }
    assert(a@.subrange(0, n as int) =~= prefix@);
    true
}

} // verus!
