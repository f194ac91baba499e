//! Small verified helpers over byte buffers: finding a byte, copying, and
//! slicing. The parser and the child-memory codec are both built on them.

use vstd::prelude::*;

verus! {

/// The position of the first occurrence of `v`, or the length when there is
/// none.
pub open spec fn first_pos(bytes: Seq<u8>, v: u8) -> int
    decreases bytes.len(),
{
    if bytes.len() == 0 {
        0
    } else if bytes[0] == v {
        0
    } else {
        1 + first_pos(bytes.drop_first(), v)
    }
}

/// `first_pos` points at an occurrence of `v` and nothing before it is `v`.
pub proof fn lemma_first_pos(bytes: Seq<u8>, v: u8)
    ensures
        0 <= first_pos(bytes, v) <= bytes.len(),
        forall|i: int| 0 <= i < first_pos(bytes, v) ==> bytes[i] != v,
        first_pos(bytes, v) < bytes.len() ==> bytes[first_pos(bytes, v)] == v,
    decreases bytes.len(),
{
    if bytes.len() == 0 {
    } else if bytes[0] == v {
    } else {
        lemma_first_pos(bytes.drop_first(), v);
        assert forall|i: int| 0 <= i < first_pos(bytes, v) implies bytes[i] != v by {
            if i >= 1 {
                assert(bytes[i] == bytes.drop_first()[i - 1]);
            }
        }
        if first_pos(bytes, v) < bytes.len() {
            assert(bytes[first_pos(bytes, v)] == bytes.drop_first()[first_pos(bytes, v) - 1]);
        }
    }
}

/// A position with no occurrence of `v` before it and `v` (or the end) at it
/// is where `first_pos` points.
pub proof fn lemma_first_pos_at(bytes: Seq<u8>, v: u8, k: int)
    requires
        0 <= k <= bytes.len(),
        forall|i: int| 0 <= i < k ==> bytes[i] != v,
        k < bytes.len() ==> bytes[k] == v,
    ensures
        first_pos(bytes, v) == k,
    decreases bytes.len(),
{
    if bytes.len() == 0 {
    } else if k == 0 {
    } else {
        assert(bytes[0] != v);
        lemma_first_pos_at(bytes.drop_first(), v, k - 1);
    }
}

/// Scans `a` from `start` for the byte `v`: the position of its first
/// occurrence at or after `start`, or the length when there is none.
pub fn find_byte(a: &Vec<u8>, v: u8, start: usize) -> (r: usize)
    requires
        start <= a@.len(),
    ensures
        start <= r <= a@.len(),
        r < a@.len() ==> a@[r as int] == v,
        forall|i: int| start <= i < r ==> a@[i] != v,
        r - start == first_pos(a@.skip(start as int), v),
{
    let mut i: usize = start;
    while i < a.len() && a[i] != v
        invariant
            start <= i <= a@.len(),
            forall|z: int| start <= z < i ==> a@[z] != v,
        decreases a@.len() - i,
    {
        i = i + 1;
    }
    proof {
        let rest = a@.skip(start as int);
        assert forall|z: int| 0 <= z < i - start implies rest[z] != v by {
            assert(rest[z] == a@[start + z]);
        }
        lemma_first_pos_at(rest, v, i - start);
    }
    i
}

/// Whether `a` is exactly the two bytes `x`, `y`.
pub fn is_pair(a: &Vec<u8>, x: u8, y: u8) -> (r: bool)
    ensures
        r == (a@ == seq![x, y]),
{
    let r = a.len() == 2 && a[0] == x && a[1] == y;
    proof {
        if r {
            assert(a@ =~= seq![x, y]);
        }
    }
    r
}

/// A fresh copy of a byte buffer.
pub fn clone_bytes(a: &Vec<u8>) -> (r: Vec<u8>)
    ensures
        r@ == a@,
{
    let mut r: Vec<u8> = Vec::new();
    let mut i: usize = 0;
    while i < a.len()
        invariant
            i <= a@.len(),
            r@ =~= a@.take(i as int),
        decreases a@.len() - i,
    {
        r.push(a[i]);
        i = i + 1;
    }
    proof {
        assert(r@ =~= a@);
    }
    r
}

/// The bytes of `a` from `from` (inclusive) to `to` (exclusive).
pub fn sub_bytes(a: &Vec<u8>, from: usize, to: usize) -> (r: Vec<u8>)
    requires
        from <= to <= a@.len(),
    ensures
        r@ == a@.subrange(from as int, to as int),
{
    let mut r: Vec<u8> = Vec::new();
    let mut i: usize = from;
    while i < to
        invariant
            from <= i <= to <= a@.len(),
            r@ =~= a@.subrange(from as int, i as int),
        decreases to - i,
    {
        r.push(a[i]);
        i = i + 1;
    }
    proof {
        assert(r@ =~= a@.subrange(from as int, to as int));
    }
    r
}

/// Appends a copy of `src` to `dst`.
pub fn append_bytes(dst: &mut Vec<u8>, src: &Vec<u8>)
    ensures
        final(dst)@ == old(dst)@ + src@,
{
    let ghost base = dst@;
    let mut i: usize = 0;
    while i < src.len()
        invariant
            i <= src@.len(),
            dst@ =~= base + src@.take(i as int),
        decreases src@.len() - i,
    {
        dst.push(src[i]);
        i = i + 1;
    }
    proof {
        assert(dst@ =~= base + src@);
    }
}

/// The views of a sequence of byte buffers.
pub open spec fn seqs_view(s: Seq<Vec<u8>>) -> Seq<Seq<u8>> {
    s.map_values(|v: Vec<u8>| v@)
}

} // verus!
