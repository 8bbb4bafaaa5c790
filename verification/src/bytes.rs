//! Little-endian integers and length-prefixed byte strings.
use vstd::prelude::*;
use vstd::bytes::{
    lemma_auto_spec_u32_to_from_le_bytes, spec_u32_from_le_bytes, spec_u32_to_le_bytes, spec_u64_to_le_bytes, u32_from_le_bytes,
    u32_to_le_bytes, u64_to_le_bytes,
};

verus! {

/// The byte string that starts at `at` in `data`: a little-endian `u32`
/// length, then that many bytes; `None` where `data` is too short for it.
pub open spec fn field_at(data: Seq<u8>, at: int) -> Option<Seq<u8>> {
    if at < 0 || at + 4 > data.len() {
        None
    } else {
        let n = spec_u32_from_le_bytes(data.subrange(at, at + 4)) as int;
        if at + 4 + n > data.len() {
            None
        } else {
            Some(data.subrange(at + 4, at + 4 + n))
        }
    }
}

/// The encoding of `s` as a length-prefixed byte string.
pub open spec fn prefixed(s: Seq<u8>) -> Seq<u8> {
    spec_u32_to_le_bytes(s.len() as u32) + s
}

/// A length-prefixed byte string reads back as itself, wherever it stands.
pub proof fn lemma_prefixed_read_back(before: Seq<u8>, s: Seq<u8>, after: Seq<u8>)
    requires
        s.len() <= u32::MAX,
    ensures
        field_at(before + prefixed(s) + after, before.len() as int) == Some(s),
{
    lemma_auto_spec_u32_to_from_le_bytes();
    let d = before + prefixed(s) + after;
    let at = before.len() as int;
    assert(d.subrange(at, at + 4) =~= spec_u32_to_le_bytes(s.len() as u32));
    assert(d.subrange(at + 4, at + 4 + s.len()) =~= s);
}

/// Reading a field after dropping the first `k` bytes is reading it `k`
/// bytes further in.
pub proof fn lemma_field_at_shift(data: Seq<u8>, k: int, at: int)
    requires
        0 <= k <= data.len(),
        0 <= at,
    ensures
        field_at(data.subrange(k, data.len() as int), at) == field_at(data, k + at),
{
    let t = data.subrange(k, data.len() as int);
    if at + 4 <= t.len() {
        assert(t.subrange(at, at + 4) =~= data.subrange(k + at, k + at + 4));
        let n = spec_u32_from_le_bytes(t.subrange(at, at + 4)) as int;
        if at + 4 + n <= t.len() {
            assert(t.subrange(at + 4, at + 4 + n) =~= data.subrange(k + at + 4, k + at + 4 + n));
        }
    }
}

/// Appends the bytes of `s` to `v`.
pub fn push_slice(v: &mut Vec<u8>, s: &[u8])
    ensures
        final(v)@ == old(v)@ + s@,
{
    let ghost start = v@;
    let mut i: usize = 0;
    while i < s.len()
        invariant
            0 <= i <= s@.len(),
            v@ == start + s@.subrange(0, i as int),
        decreases s@.len() - i,
    {
        v.push(s[i]);
        i = i + 1;
        assert(v@ =~= start + s@.subrange(0, i as int));
    }
    assert(s@.subrange(0, s@.len() as int) =~= s@);
}

/// Appends the little-endian bytes of `x` to `v`.
pub fn push_u32_le(v: &mut Vec<u8>, x: u32)
    ensures
        final(v)@ == old(v)@ + spec_u32_to_le_bytes(x),
{
    let b = u32_to_le_bytes(x);
    push_slice(v, b.as_slice());
}

/// Appends the little-endian bytes of `x` to `v`.
pub fn push_u64_le(v: &mut Vec<u8>, x: u64)
    ensures
        final(v)@ == old(v)@ + spec_u64_to_le_bytes(x),
{
    let b = u64_to_le_bytes(x);
    push_slice(v, b.as_slice());
}

/// Reads the length-prefixed byte string that starts at `at`, as
/// [`field_at`] describes it; also returns where it ends.
pub fn read_field(data: &[u8], at: usize) -> (r: Option<(&[u8], usize)>)
    ensures
        match r {
            None => field_at(data@, at as int) is None,
            Some((s, end)) => {
                &&& field_at(data@, at as int) == Some(s@)
                &&& end == at + 4 + s@.len()
            },
        },
{
    if at > data.len() || data.len() - at < 4 {
        return None;
    }
    let n = u32_from_le_bytes(&data[at..at + 4]);
    let start = at + 4;
    if n as usize > data.len() - start {
        return None;
    }
    let end = start + n as usize;
    Some((&data[start..end], end))
}

} // verus!
