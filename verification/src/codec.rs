//! Length-prefixed framing for values that cross guest linear memory.
//!
//! A list of byte strings is framed as a little-endian `u32` count followed
//! by each item as a little-endian `u32` length and the item's bytes. A
//! key-value pair is framed as two such length-prefixed items. Guests and
//! hosts agree on this framing for the marshaled inputs and for prefix
//! iterator results.

use vstd::prelude::*;
use vstd::bytes::{
    spec_u32_from_le_bytes, spec_u32_to_le_bytes, u32_from_le_bytes, u32_to_le_bytes,
    lemma_auto_spec_u32_to_from_le_bytes,
};
use vstd::slice::{slice_subrange, slice_to_vec};

verus! {

/// One framed item: its length as little-endian `u32`, then its bytes.
pub open spec fn spec_encode_item(item: Seq<u8>) -> Seq<u8> {
    spec_u32_to_le_bytes(item.len() as u32) + item
}

/// Framed items, in order.
pub open spec fn spec_encode_items(items: Seq<Seq<u8>>) -> Seq<u8>
    decreases items.len(),
{
    if items.len() == 0 {
        Seq::empty()
    } else {
        spec_encode_item(items[0]) + spec_encode_items(items.drop_first())
    }
}

/// A framed list: the item count as little-endian `u32`, then the framed
/// items.
pub open spec fn spec_encode_list(items: Seq<Seq<u8>>) -> Seq<u8> {
    spec_u32_to_le_bytes(items.len() as u32) + spec_encode_items(items)
}

/// Every item, and the item count, fits a `u32` length field.
pub open spec fn list_encodable(items: Seq<Seq<u8>>) -> bool {
    &&& items.len() <= u32::MAX
    &&& forall|i: int| 0 <= i < items.len() ==> #[trigger] items[i].len() <= u32::MAX
}

/// Framing distributes over appending one item at the end.
proof fn lemma_encode_items_push(items: Seq<Seq<u8>>, item: Seq<u8>)
    ensures
        spec_encode_items(items.push(item))
            == spec_encode_items(items) + spec_encode_item(item),
    decreases items.len(),
{
    if items.len() == 0 {
        assert(items.push(item)[0] == item);
        assert(items.push(item).drop_first() =~= Seq::<Seq<u8>>::empty());
        assert(spec_encode_items(Seq::<Seq<u8>>::empty()) =~= Seq::<u8>::empty());
        assert(spec_encode_items(items.push(item))
            =~= spec_encode_item(item) + Seq::<u8>::empty());
        assert(spec_encode_item(item) + Seq::<u8>::empty() =~= spec_encode_item(item));
        assert(spec_encode_items(items) =~= Seq::<u8>::empty());
        assert(spec_encode_items(items) + spec_encode_item(item)
            =~= spec_encode_item(item));
    } else {
        let rest = items.drop_first();
        lemma_encode_items_push(rest, item);
        assert(items.push(item)[0] == items[0]);
        assert(items.push(item).drop_first() =~= rest.push(item));
        assert(spec_encode_items(items.push(item))
            =~= spec_encode_item(items[0]) + spec_encode_items(rest.push(item)));
        assert(spec_encode_item(items[0])
            + (spec_encode_items(rest) + spec_encode_item(item))
            =~= (spec_encode_item(items[0]) + spec_encode_items(rest))
                + spec_encode_item(item));
    }
}

/// Append `tail`'s bytes to `buf`.
pub fn extend_bytes(buf: &mut Vec<u8>, tail: &[u8])
    ensures
        final(buf)@ == old(buf)@ + tail@,
{
    let n = tail.len();
    let mut i: usize = 0;
    while i < n
        invariant
            n == tail@.len(),
            i <= n,
            buf@ =~= old(buf)@ + tail@.subrange(0, i as int),
        decreases n - i,
    {
        buf.push(tail[i]);
        proof {
            assert(buf@ =~= old(buf)@ + tail@.subrange(0, (i + 1) as int));
        }
        i = i + 1;
    }
    proof {
        assert(tail@.subrange(0, n as int) =~= tail@);
        assert(buf@ =~= old(buf)@ + tail@);
    }
}

/// Append one framed item to `buf`; fails when the item is longer than a
/// `u32` length field can carry.
pub fn encode_item_into(buf: &mut Vec<u8>, item: &Vec<u8>) -> (r: bool)
    ensures
        r <==> item@.len() <= u32::MAX,
        r ==> final(buf)@ == old(buf)@ + spec_encode_item(item@),
        !r ==> final(buf)@ == old(buf)@,
    {
    if item.len() > u32::MAX as usize {
        return false;
    }
    let len_bytes = u32_to_le_bytes(item.len() as u32);
    extend_bytes(buf, len_bytes.as_slice());
    extend_bytes(buf, item.as_slice());
    proof {
        assert(buf@ =~= old(buf)@ + spec_encode_item(item@));
    }
    true
}

/// Frame a list of byte strings; fails exactly when the count or one item
/// does not fit a `u32` length field.
pub fn encode_list(items: &Vec<Vec<u8>>) -> (r: Option<Vec<u8>>)
    ensures
        r is Some <==> list_encodable(items@.map_values(|v: Vec<u8>| v@)),
        r matches Some(buf)
            ==> buf@ == spec_encode_list(items@.map_values(|v: Vec<u8>| v@)),
{
    let ghost itemsv = items@.map_values(|v: Vec<u8>| v@);
    if items.len() > u32::MAX as usize {
        return None;
    }
    let mut buf: Vec<u8> = Vec::new();
    let len_bytes = u32_to_le_bytes(items.len() as u32);
    extend_bytes(&mut buf, len_bytes.as_slice());
    let ghost header = buf@;
    let n = items.len();
    let mut i: usize = 0;
    proof {
        assert(itemsv.subrange(0, 0) =~= Seq::<Seq<u8>>::empty());
        assert(buf@ =~= header + spec_encode_items(itemsv.subrange(0, 0)));
    }
    while i < n
        invariant
            n == items@.len(),
            n == itemsv.len(),
            i <= n,
            itemsv == items@.map_values(|v: Vec<u8>| v@),
            forall|j: int| 0 <= j < n ==> itemsv[j] == items@[j]@,
            header == spec_u32_to_le_bytes(n as u32),
            forall|j: int| 0 <= j < i ==> #[trigger] itemsv[j].len() <= u32::MAX,
            buf@ == header + spec_encode_items(itemsv.subrange(0, i as int)),
        decreases n - i,
    {
        let ok = encode_item_into(&mut buf, &items[i]);
        if !ok {
            proof {
                assert(itemsv[i as int].len() > u32::MAX);
                assert(!list_encodable(itemsv));
            }
            return None;
        }
        proof {
            let pre = itemsv.subrange(0, i as int);
            let cur = itemsv.subrange(0, (i + 1) as int);
            assert(cur =~= pre.push(itemsv[i as int]));
            lemma_encode_items_push(pre, itemsv[i as int]);
            assert(buf@ =~= header + spec_encode_items(cur));
        }
        i = i + 1;
    }
    proof {
        assert(itemsv.subrange(0, n as int) =~= itemsv);
        assert(buf@ =~= spec_encode_list(itemsv));
    }
    Some(buf)
}

/// A framed key-value pair: two framed items.
pub open spec fn spec_encode_pair(k: Seq<u8>, v: Seq<u8>) -> Seq<u8> {
    spec_encode_item(k) + spec_encode_item(v)
}

/// Frame a key-value pair; fails exactly when the key or value does not
/// fit a `u32` length field.
pub fn encode_pair(k: &Vec<u8>, v: &Vec<u8>) -> (r: Option<Vec<u8>>)
    ensures
        r is Some <==> k@.len() <= u32::MAX && v@.len() <= u32::MAX,
        r matches Some(buf) ==> buf@ == spec_encode_pair(k@, v@),
{
    let mut buf: Vec<u8> = Vec::new();
    if !encode_item_into(&mut buf, k) {
        return None;
    }
    if !encode_item_into(&mut buf, v) {
        return None;
    }
    proof {
        assert(buf@ =~= spec_encode_pair(k@, v@));
    }
    Some(buf)
}

/// What `count` framed items parse to, if the bytes carry exactly that
/// many and nothing more.
pub open spec fn spec_decode_items(bytes: Seq<u8>, count: nat) -> Option<Seq<Seq<u8>>>
    decreases count,
{
    if count == 0 {
        if bytes.len() == 0 {
            Some(Seq::empty())
        } else {
            None
        }
    } else if bytes.len() < 4 {
        None
    } else {
        let len = spec_u32_from_le_bytes(bytes.subrange(0, 4)) as int;
        if bytes.len() < 4 + len {
            None
        } else {
            match spec_decode_items(bytes.skip(4 + len), (count - 1) as nat) {
                None => None,
                Some(rest) => Some(seq![bytes.subrange(4, 4 + len)] + rest),
            }
        }
    }
}

/// What a framed list parses to, if the bytes are exactly one framing.
pub open spec fn spec_decode_list(bytes: Seq<u8>) -> Option<Seq<Seq<u8>>> {
    if bytes.len() < 4 {
        None
    } else {
        spec_decode_items(
            bytes.skip(4),
            spec_u32_from_le_bytes(bytes.subrange(0, 4)) as nat,
        )
    }
}

/// Parse a framed list back into its items; fails exactly when the bytes
/// are not one whole framing.
pub fn decode_list(bytes: &[u8]) -> (r: Option<Vec<Vec<u8>>>)
    ensures
        match r {
            Some(items) => spec_decode_list(bytes@)
                == Some(items@.map_values(|v: Vec<u8>| v@)),
            None => spec_decode_list(bytes@) is None,
        },
{
    if bytes.len() < 4 {
        return None;
    }
    let count = u32_from_le_bytes(slice_subrange(bytes, 0, 4));
    proof {
        assert(bytes@.subrange(0, 4) == bytes@.subrange(0, 4));
    }
    let mut items: Vec<Vec<u8>> = Vec::new();
    let mut off: usize = 4;
    let mut i: u32 = 0;
    proof {
        assert(bytes@.skip(4) =~= bytes@.subrange(4, bytes@.len() as int));
    }
    while i < count
        invariant
            4 <= off <= bytes@.len(),
            i <= count,
            items@.len() == i,
            spec_decode_list(bytes@) == match spec_decode_items(
                bytes@.skip(off as int), (count - i) as nat) {
                None => None::<Seq<Seq<u8>>>,
                Some(rest) => Some(items@.map_values(|v: Vec<u8>| v@) + rest),
            },
        decreases count - i,
    {
        let ghost pre_suffix = bytes@.skip(off as int);
        if bytes.len() - off < 4 {
            proof {
                assert(pre_suffix.len() < 4);
                assert(spec_decode_items(pre_suffix, (count - i) as nat) is None);
            }
            return None;
        }
        let len32 = u32_from_le_bytes(slice_subrange(bytes, off, off + 4));
        proof {
            assert(bytes@.subrange(off as int, off + 4) =~= pre_suffix.subrange(0, 4));
        }
        let len = len32 as usize;
        if bytes.len() - off - 4 < len {
            proof {
                assert(pre_suffix.len() < 4 + len);
                assert(spec_decode_items(pre_suffix, (count - i) as nat) is None);
            }
            return None;
        }
        let item = slice_to_vec(slice_subrange(bytes, off + 4, off + 4 + len));
        let ghost pre_items = items@;
        items.push(item);
        proof {
            assert(bytes@.subrange(off + 4, off + 4 + len)
                =~= pre_suffix.subrange(4, 4 + len));
            assert(bytes@.skip(off + 4 + len) =~= pre_suffix.skip(4 + len));
            let f = |v: Vec<u8>| v@;
            assert(items@ == pre_items.push(item));
            assert forall|j: int| 0 <= j < items@.len() implies
                items@.map_values(f)[j] == (pre_items.map_values(f)
                    + seq![pre_suffix.subrange(4, 4 + len)])[j] by {
                if j < pre_items.len() {
                    assert(items@[j] == pre_items[j]);
                    assert(pre_items.map_values(f)[j] == f(pre_items[j]));
                }
            }
            assert(items@.map_values(f)
                =~= pre_items.map_values(f) + seq![pre_suffix.subrange(4, 4 + len)]);
            assert forall|rest: Seq<Seq<u8>>|
                (pre_items.map_values(f) + (seq![pre_suffix.subrange(4, 4 + len)] + rest))
                    =~= (items@.map_values(f) + rest) by {}
        }
        off = off + 4 + len;
        i = i + 1;
    }
    if off != bytes.len() {
        proof {
            assert(bytes@.skip(off as int).len() != 0);
            assert(spec_decode_items(bytes@.skip(off as int), 0) is None);
        }
        return None;
    }
    proof {
        assert(bytes@.skip(off as int).len() == 0);
        assert(spec_decode_items(bytes@.skip(off as int), 0) == Some(Seq::<Seq<u8>>::empty()));
        assert(items@.map_values(|v: Vec<u8>| v@) + Seq::<Seq<u8>>::empty()
            =~= items@.map_values(|v: Vec<u8>| v@));
    }
    Some(items)
}

/// Parsing inverts framing: items that frame under the `u32` length
/// fields parse back to themselves.
pub proof fn lemma_list_roundtrip(items: Seq<Seq<u8>>)
    requires
        list_encodable(items),
    ensures
        spec_decode_list(spec_encode_list(items)) == Some(items),
{
    lemma_auto_spec_u32_to_from_le_bytes();
    let bytes = spec_encode_list(items);
    assert(bytes.subrange(0, 4) =~= spec_u32_to_le_bytes(items.len() as u32));
    assert(bytes.skip(4) =~= spec_encode_items(items));
    lemma_items_roundtrip(items);
}

/// Parsing inverts the item framing, item by item.
proof fn lemma_items_roundtrip(items: Seq<Seq<u8>>)
    requires
        list_encodable(items),
    ensures
        spec_decode_items(spec_encode_items(items), items.len() as nat) == Some(items),
    decreases items.len(),
{
    lemma_auto_spec_u32_to_from_le_bytes();
    if items.len() == 0 {
        assert(spec_encode_items(items) =~= Seq::<u8>::empty());
    } else {
        let head = items[0];
        let rest = items.drop_first();
        let bytes = spec_encode_items(items);
        assert(bytes == spec_encode_item(head) + spec_encode_items(rest));
        assert(head.len() <= u32::MAX);
        assert(spec_encode_item(head).len() == 4 + head.len());
        assert(bytes.subrange(0, 4) =~= spec_u32_to_le_bytes(head.len() as u32));
        let len = spec_u32_from_le_bytes(bytes.subrange(0, 4)) as int;
        assert(len == head.len());
        assert(bytes.len() >= 4 + len);
        assert(bytes.subrange(4, 4 + len) =~= head);
        assert(bytes.skip(4 + len) =~= spec_encode_items(rest));
        assert(list_encodable(rest)) by {
            assert(forall|j: int| 0 <= j < rest.len()
                ==> rest[j] == items[j + 1] && #[trigger] rest[j].len() <= u32::MAX);
        }
        lemma_items_roundtrip(rest);
        assert(seq![head] + rest =~= items);
    }
}

} // verus!
