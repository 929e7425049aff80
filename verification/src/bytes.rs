//! Little-endian byte serialization of the integer widths the canonical
//! encoder uses, with the lemmas that make the encoding invertible.

use vstd::prelude::*;

verus! {

/// The 8 little-endian bytes of a 64-bit value.
pub open spec fn u64_le(v: u64) -> Seq<u8> {
    seq![
        v as u8,
        (v >> 8) as u8,
        (v >> 16) as u8,
        (v >> 24) as u8,
        (v >> 32) as u8,
        (v >> 40) as u8,
        (v >> 48) as u8,
        (v >> 56) as u8,
    ]
}

/// The 64-bit value read back from 8 little-endian bytes.
pub open spec fn u64_from_le(s: Seq<u8>) -> u64 {
    (s[0] as u64)
        | ((s[1] as u64) << 8)
        | ((s[2] as u64) << 16)
        | ((s[3] as u64) << 24)
        | ((s[4] as u64) << 32)
        | ((s[5] as u64) << 40)
        | ((s[6] as u64) << 48)
        | ((s[7] as u64) << 56)
}

/// Reading back the bytes of `v` yields `v`: the encoding loses nothing.
pub proof fn lemma_u64_le_round_trip(v: u64)
    ensures
        u64_from_le(u64_le(v)) == v,
{
    assert((v as u8) as u64
        | (((v >> 8) as u8) as u64) << 8
        | (((v >> 16) as u8) as u64) << 16
        | (((v >> 24) as u8) as u64) << 24
        | (((v >> 32) as u8) as u64) << 32
        | (((v >> 40) as u8) as u64) << 40
        | (((v >> 48) as u8) as u64) << 48
        | (((v >> 56) as u8) as u64) << 56 == v) by (bit_vector);
}

/// Two 64-bit values with the same little-endian bytes are equal.
pub proof fn lemma_u64_le_injective(a: u64, b: u64)
    requires
        u64_le(a) == u64_le(b),
    ensures
        a == b,
{
    lemma_u64_le_round_trip(a);
    lemma_u64_le_round_trip(b);
}

/// Any 8 bytes are the little-endian encoding of the value read from them.
pub proof fn lemma_u64_from_le_round_trip(s: Seq<u8>)
    requires
        s.len() == 8,
    ensures
        u64_le(u64_from_le(s)) == s,
{
    let s0 = s[0];
    let s1 = s[1];
    let s2 = s[2];
    let s3 = s[3];
    let s4 = s[4];
    let s5 = s[5];
    let s6 = s[6];
    let s7 = s[7];
    let v: u64 = u64_from_le(s);
    assert(v == (s0 as u64) | ((s1 as u64) << 8) | ((s2 as u64) << 16) | ((s3 as u64) << 24)
        | ((s4 as u64) << 32) | ((s5 as u64) << 40) | ((s6 as u64) << 48)
        | ((s7 as u64) << 56));
    assert({
        let w: u64 = (s0 as u64) | ((s1 as u64) << 8) | ((s2 as u64) << 16) | ((s3 as u64) << 24)
            | ((s4 as u64) << 32) | ((s5 as u64) << 40) | ((s6 as u64) << 48)
            | ((s7 as u64) << 56);
        w as u8 == s0 && (w >> 8) as u8 == s1 && (w >> 16) as u8 == s2 && (w >> 24) as u8 == s3
            && (w >> 32) as u8 == s4 && (w >> 40) as u8 == s5 && (w >> 48) as u8 == s6
            && (w >> 56) as u8 == s7
    }) by (bit_vector);
    assert(u64_le(v) =~= s);
}

/// The 16 little-endian bytes of a 128-bit value: low half first.
pub open spec fn u128_le(v: u128) -> Seq<u8> {
    u64_le(v as u64) + u64_le((v >> 64) as u64)
}

/// Two 128-bit values with the same little-endian bytes are equal.
pub proof fn lemma_u128_le_injective(a: u128, b: u128)
    requires
        u128_le(a) == u128_le(b),
    ensures
        a == b,
{
    assert(u64_le(a as u64) == u128_le(a).take(8));
    assert(u64_le((a >> 64) as u64) == u128_le(a).skip(8));
    assert(u64_le(b as u64) == u128_le(b).take(8));
    assert(u64_le((b >> 64) as u64) == u128_le(b).skip(8));
    lemma_u64_le_injective(a as u64, b as u64);
    lemma_u64_le_injective((a >> 64) as u64, (b >> 64) as u64);
    assert(a as u64 == b as u64 && (a >> 64) as u64 == (b >> 64) as u64 ==> a == b)
        by (bit_vector);
}

/// The 128-bit value read back from 16 little-endian bytes.
pub open spec fn u128_from_le(s: Seq<u8>) -> u128 {
    (u64_from_le(s.take(8)) as u128) | ((u64_from_le(s.skip(8)) as u128) << 64)
}

/// Any 16 bytes are the little-endian encoding of the value read from them.
pub proof fn lemma_u128_from_le_round_trip(s: Seq<u8>)
    requires
        s.len() == 16,
    ensures
        u128_le(u128_from_le(s)) == s,
{
    let lo: u64 = u64_from_le(s.take(8));
    let hi: u64 = u64_from_le(s.skip(8));
    let v: u128 = u128_from_le(s);
    assert({
        let w: u128 = (lo as u128) | ((hi as u128) << 64);
        w as u64 == lo && (w >> 64) as u64 == hi
    }) by (bit_vector);
    lemma_u64_from_le_round_trip(s.take(8));
    lemma_u64_from_le_round_trip(s.skip(8));
    assert(u128_le(v) =~= s);
}

/// The 4 little-endian bytes of a 32-bit value.
pub open spec fn u32_le(v: u32) -> Seq<u8> {
    seq![v as u8, (v >> 8) as u8, (v >> 16) as u8, (v >> 24) as u8]
}

/// Two 32-bit values with the same little-endian bytes are equal.
pub proof fn lemma_u32_le_injective(a: u32, b: u32)
    requires
        u32_le(a) == u32_le(b),
    ensures
        a == b,
{
    assert(a as u8 == b as u8 && (a >> 8) as u8 == (b >> 8) as u8
        && (a >> 16) as u8 == (b >> 16) as u8 && (a >> 24) as u8 == (b >> 24) as u8
        ==> a == b) by (bit_vector);
}

/// Appends the little-endian bytes of `v` to `out`.
pub fn append_u64_le(out: &mut Vec<u8>, v: u64)
    ensures
        final(out)@ == old(out)@ + u64_le(v),
{
    out.push(#[verifier::truncate] (v as u8));
    out.push(#[verifier::truncate] ((v >> 8) as u8));
    out.push(#[verifier::truncate] ((v >> 16) as u8));
    out.push(#[verifier::truncate] ((v >> 24) as u8));
    out.push(#[verifier::truncate] ((v >> 32) as u8));
    out.push(#[verifier::truncate] ((v >> 40) as u8));
    out.push(#[verifier::truncate] ((v >> 48) as u8));
    out.push(#[verifier::truncate] ((v >> 56) as u8));
    assert(out@ =~= old(out)@ + u64_le(v));
}

/// Appends the little-endian bytes of `v` to `out`, low 64-bit half first.
pub fn append_u128_le(out: &mut Vec<u8>, v: u128)
    ensures
        final(out)@ == old(out)@ + u128_le(v),
{
    append_u64_le(out, #[verifier::truncate] (v as u64));
    append_u64_le(out, #[verifier::truncate] ((v >> 64) as u64));
    assert(out@ =~= old(out)@ + u128_le(v));
}

/// Appends the little-endian bytes of `v` to `out`.
pub fn append_u32_le(out: &mut Vec<u8>, v: u32)
    ensures
        final(out)@ == old(out)@ + u32_le(v),
{
    out.push(#[verifier::truncate] (v as u8));
    out.push(#[verifier::truncate] ((v >> 8) as u8));
    out.push(#[verifier::truncate] ((v >> 16) as u8));
    out.push(#[verifier::truncate] ((v >> 24) as u8));
    assert(out@ =~= old(out)@ + u32_le(v));
}

/// Appends a copy of `b` to `out`.
pub fn append_bytes(out: &mut Vec<u8>, b: &Vec<u8>)
    ensures
        final(out)@ == old(out)@ + b@,
{
    let mut i: usize = 0;
    while i < b.len()
        invariant
            i <= b.len(),
            out@ == old(out)@ + b@.take(i as int),
        decreases b.len() - i,
    {
        out.push(b[i]);
        i = i + 1;
        assert(out@ =~= old(out)@ + b@.take(i as int));
    }
    assert(b@.take(b@.len() as int) =~= b@);
}

/// Reads the 64-bit value stored little-endian at `off`.
pub fn read_u64_le(b: &Vec<u8>, off: usize) -> (r: u64)
    requires
        off + 8 <= b@.len(),
    ensures
        r == u64_from_le(b@.subrange(off as int, off as int + 8)),
{
    assert(off + 8 <= b.len());
    let r: u64 = (b[off] as u64)
        | ((b[off + 1] as u64) << 8)
        | ((b[off + 2] as u64) << 16)
        | ((b[off + 3] as u64) << 24)
        | ((b[off + 4] as u64) << 32)
        | ((b[off + 5] as u64) << 40)
        | ((b[off + 6] as u64) << 48)
        | ((b[off + 7] as u64) << 56);
    proof {
        let s = b@.subrange(off as int, off as int + 8);
        assert(s[0] == b@[off as int]);
        assert(s[1] == b@[off as int + 1]);
        assert(s[2] == b@[off as int + 2]);
        assert(s[3] == b@[off as int + 3]);
        assert(s[4] == b@[off as int + 4]);
        assert(s[5] == b@[off as int + 5]);
        assert(s[6] == b@[off as int + 6]);
        assert(s[7] == b@[off as int + 7]);
    }
    r
}

/// Reads the 128-bit value stored little-endian at `off`.
pub fn read_u128_le(b: &Vec<u8>, off: usize) -> (r: u128)
    requires
        off + 16 <= b@.len(),
    ensures
        r == u128_from_le(b@.subrange(off as int, off as int + 16)),
{
    assert(off + 16 <= b.len());
    let lo = read_u64_le(b, off);
    let hi = read_u64_le(b, off + 8);
    proof {
        let s = b@.subrange(off as int, off as int + 16);
        assert(s.take(8) =~= b@.subrange(off as int, off as int + 8));
        assert(s.skip(8) =~= b@.subrange(off as int + 8, off as int + 16));
    }
    (lo as u128) | ((hi as u128) << 64)
}

/// Returns a copy of the bytes of `b` from `start` (inclusive) to `end`
/// (exclusive).
pub fn bytes_range(b: &Vec<u8>, start: usize, end: usize) -> (r: Vec<u8>)
    requires
        start <= end,
        end <= b@.len(),
    ensures
        r@ == b@.subrange(start as int, end as int),
{
    let mut r: Vec<u8> = Vec::new();
    let mut i: usize = start;
    while i < end
        invariant
            start <= i <= end,
            end <= b@.len(),
            r@ == b@.subrange(start as int, i as int),
        decreases end - i,
    {
        r.push(b[i]);
        i = i + 1;
        assert(r@ =~= b@.subrange(start as int, i as int));
    }
    r
}

/// Returns a copy of `b`.
pub fn copy_bytes(b: &Vec<u8>) -> (r: Vec<u8>)
    ensures
        r@ == b@,
{
    let mut r: Vec<u8> = Vec::new();
    append_bytes(&mut r, b);
    r
}

} // verus!
