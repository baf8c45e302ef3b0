use vstd::prelude::*;

verus! {

// Big-endian views of the machine's integer widths over a byte sequence, and
// the corresponding in-place stores.  The story-file format declares every
// multi-byte integer big-endian, so these spec functions are the vocabulary of
// all memory contracts.

/// Value of the big-endian 16-bit integer whose first byte sits at offset `a`.
pub open spec fn be16(s: Seq<u8>, a: int) -> u16
    recommends
        0 <= a,
        a + 2 <= s.len(),
{
    ((s[a] as u16) << 8) | (s[a + 1] as u16)
}

/// Value of the big-endian 32-bit integer whose first byte sits at offset `a`.
pub open spec fn be32(s: Seq<u8>, a: int) -> u32
    recommends
        0 <= a,
        a + 4 <= s.len(),
{
    ((s[a] as u32) << 24) | ((s[a + 1] as u32) << 16) | ((s[a + 2] as u32) << 8) | (s[a
        + 3] as u32)
}

/// Value of the big-endian 64-bit integer whose first byte sits at offset `a`.
pub open spec fn be64(s: Seq<u8>, a: int) -> u64
    recommends
        0 <= a,
        a + 8 <= s.len(),
{
    ((s[a] as u64) << 56) | ((s[a + 1] as u64) << 48) | ((s[a + 2] as u64) << 40) | ((s[a
        + 3] as u64) << 32) | ((s[a + 4] as u64) << 24) | ((s[a + 5] as u64) << 16) | ((s[a
        + 6] as u64) << 8) | (s[a + 7] as u64)
}

/// `s` with the big-endian encoding of `x` written at offsets `a .. a + 2`.
pub open spec fn store_be16(s: Seq<u8>, a: int, x: u16) -> Seq<u8> {
    s.update(a, (x >> 8) as u8).update(a + 1, x as u8)
}

/// `s` with the big-endian encoding of `x` written at offsets `a .. a + 4`.
pub open spec fn store_be32(s: Seq<u8>, a: int, x: u32) -> Seq<u8> {
    s.update(a, (x >> 24) as u8).update(a + 1, (x >> 16) as u8).update(a + 2, (x >> 8) as u8)
        .update(a + 3, x as u8)
}

/// `s` with the big-endian encoding of `x` written at offsets `a .. a + 8`.
pub open spec fn store_be64(s: Seq<u8>, a: int, x: u64) -> Seq<u8> {
    s.update(a, (x >> 56) as u8).update(a + 1, (x >> 48) as u8).update(a + 2, (x >> 40) as u8)
        .update(a + 3, (x >> 32) as u8).update(a + 4, (x >> 24) as u8).update(
        a + 5,
        (x >> 16) as u8,
    ).update(a + 6, (x >> 8) as u8).update(a + 7, x as u8)
}

/// A 16-bit store keeps the length, touches only its two offsets, and reads
/// back as the stored value.
pub proof fn lemma_store_be16(s: Seq<u8>, a: int, x: u16)
    requires
        0 <= a,
        a + 2 <= s.len(),
    ensures
        store_be16(s, a, x).len() == s.len(),
        forall|j: int|
            0 <= j < s.len() && !(a <= j < a + 2) ==> store_be16(s, a, x)[j] == s[j],
        be16(store_be16(s, a, x), a) == x,
{
    let t = store_be16(s, a, x);
    assert(t[a] == (x >> 8) as u8);
    assert(t[a + 1] == x as u8);
    assert((((x >> 8) as u8) as u16) << 8 | ((x as u8) as u16) == x) by (bit_vector);
}

/// A 32-bit store keeps the length, touches only its four offsets, and reads
/// back as the stored value.
pub proof fn lemma_store_be32(s: Seq<u8>, a: int, x: u32)
    requires
        0 <= a,
        a + 4 <= s.len(),
    ensures
        store_be32(s, a, x).len() == s.len(),
        forall|j: int|
            0 <= j < s.len() && !(a <= j < a + 4) ==> store_be32(s, a, x)[j] == s[j],
        be32(store_be32(s, a, x), a) == x,
{
    let t = store_be32(s, a, x);
    assert(t[a] == (x >> 24) as u8);
    assert(t[a + 1] == (x >> 16) as u8);
    assert(t[a + 2] == (x >> 8) as u8);
    assert(t[a + 3] == x as u8);
    assert((((x >> 24) as u8) as u32) << 24 | (((x >> 16) as u8) as u32) << 16 | (((x
        >> 8) as u8) as u32) << 8 | ((x as u8) as u32) == x) by (bit_vector);
}

/// A 64-bit store keeps the length, touches only its eight offsets, and reads
/// back as the stored value.
pub proof fn lemma_store_be64(s: Seq<u8>, a: int, x: u64)
    requires
        0 <= a,
        a + 8 <= s.len(),
    ensures
        store_be64(s, a, x).len() == s.len(),
        forall|j: int|
            0 <= j < s.len() && !(a <= j < a + 8) ==> store_be64(s, a, x)[j] == s[j],
        be64(store_be64(s, a, x), a) == x,
{
    let t = store_be64(s, a, x);
    assert(t[a] == (x >> 56) as u8);
    assert(t[a + 1] == (x >> 48) as u8);
    assert(t[a + 2] == (x >> 40) as u8);
    assert(t[a + 3] == (x >> 32) as u8);
    assert(t[a + 4] == (x >> 24) as u8);
    assert(t[a + 5] == (x >> 16) as u8);
    assert(t[a + 6] == (x >> 8) as u8);
    assert(t[a + 7] == x as u8);
    assert((((x >> 56) as u8) as u64) << 56 | (((x >> 48) as u8) as u64) << 48 | (((x
        >> 40) as u8) as u64) << 40 | (((x >> 32) as u8) as u64) << 32 | (((x >> 24) as u8) as u64)
        << 24 | (((x >> 16) as u8) as u64) << 16 | (((x >> 8) as u8) as u64) << 8 | ((
    x as u8) as u64) == x) by (bit_vector);
}

/// Two byte sequences that agree on `a .. a + 8` carry the same 64-bit value
/// there.
pub proof fn lemma_be64_congruence(s1: Seq<u8>, s2: Seq<u8>, a: int)
    requires
        forall|j: int| a <= j < a + 8 ==> s1[j] == s2[j],
    ensures
        be64(s1, a) == be64(s2, a),
{
    assert(s1[a] == s2[a]);
    assert(s1[a + 1] == s2[a + 1]);
    assert(s1[a + 2] == s2[a + 2]);
    assert(s1[a + 3] == s2[a + 3]);
    assert(s1[a + 4] == s2[a + 4]);
    assert(s1[a + 5] == s2[a + 5]);
    assert(s1[a + 6] == s2[a + 6]);
    assert(s1[a + 7] == s2[a + 7]);
}

/// Four zero bytes carry the 32-bit value zero.
pub proof fn lemma_be32_zero(s: Seq<u8>, a: int)
    requires
        0 <= a,
        a + 4 <= s.len(),
        forall|j: int| a <= j < a + 4 ==> s[j] == 0u8,
    ensures
        be32(s, a) == 0,
{
    assert(s[a] == 0u8);
    assert(s[a + 1] == 0u8);
    assert(s[a + 2] == 0u8);
    assert(s[a + 3] == 0u8);
    assert(((0u8 as u32) << 24 | (0u8 as u32) << 16 | (0u8 as u32) << 8 | (0u8 as u32))
        == 0) by (bit_vector);
}

/// Eight zero bytes carry the 64-bit value zero.
pub proof fn lemma_be64_zero(s: Seq<u8>, a: int)
    requires
        0 <= a,
        a + 8 <= s.len(),
        forall|j: int| a <= j < a + 8 ==> s[j] == 0u8,
    ensures
        be64(s, a) == 0,
{
    assert(s[a] == 0u8);
    assert(s[a + 1] == 0u8);
    assert(s[a + 2] == 0u8);
    assert(s[a + 3] == 0u8);
    assert(s[a + 4] == 0u8);
    assert(s[a + 5] == 0u8);
    assert(s[a + 6] == 0u8);
    assert(s[a + 7] == 0u8);
    assert(((0u8 as u64) << 56 | (0u8 as u64) << 48 | (0u8 as u64) << 40 | (0u8 as u64)
        << 32 | (0u8 as u64) << 24 | (0u8 as u64) << 16 | (0u8 as u64) << 8 | (
    0u8 as u64)) == 0) by (bit_vector);
}

/// Reads the big-endian 16-bit integer at byte offset `a`.
pub fn read_be16(s: &[u8], a: usize) -> (x: u16)
    requires
        a + 2 <= s@.len(),
    ensures
        x == be16(s@, a as int),
{
    let b0 = s[a];
    let b1 = s[a + 1];
    ((b0 as u16) << 8u16) | (b1 as u16)
}

/// Reads the big-endian 32-bit integer at byte offset `a`.
pub fn read_be32(s: &[u8], a: usize) -> (x: u32)
    requires
        a + 4 <= s@.len(),
    ensures
        x == be32(s@, a as int),
{
    let b0 = s[a];
    let b1 = s[a + 1];
    let b2 = s[a + 2];
    let b3 = s[a + 3];
    ((b0 as u32) << 24u32) | ((b1 as u32) << 16u32) | ((b2 as u32) << 8u32) | (b3 as u32)
}

/// Reads the big-endian 64-bit integer at byte offset `a`.
pub fn read_be64(s: &[u8], a: usize) -> (x: u64)
    requires
        a + 8 <= s@.len(),
    ensures
        x == be64(s@, a as int),
{
    let b0 = s[a];
    let b1 = s[a + 1];
    let b2 = s[a + 2];
    let b3 = s[a + 3];
    let b4 = s[a + 4];
    let b5 = s[a + 5];
    let b6 = s[a + 6];
    let b7 = s[a + 7];
    ((b0 as u64) << 56u64) | ((b1 as u64) << 48u64) | ((b2 as u64) << 40u64) | ((b3 as u64)
        << 32u64) | ((b4 as u64) << 24u64) | ((b5 as u64) << 16u64) | ((b6 as u64) << 8u64) | (
    b7 as u64)
}

/// Writes `x` big-endian at byte offsets `a .. a + 2`.
pub fn write_be16(v: &mut Vec<u8>, a: usize, x: u16)
    requires
        a + 2 <= old(v)@.len(),
    ensures
        final(v)@ == store_be16(old(v)@, a as int, x),
{
    let _bound: usize = v.len();
    v.set(a, #[verifier::truncate] ((x >> 8u16) as u8));
    v.set(a + 1, #[verifier::truncate] (x as u8));
}

/// Writes `x` big-endian at byte offsets `a .. a + 4`.
pub fn write_be32(v: &mut Vec<u8>, a: usize, x: u32)
    requires
        a + 4 <= old(v)@.len(),
    ensures
        final(v)@ == store_be32(old(v)@, a as int, x),
{
    let _bound: usize = v.len();
    v.set(a, #[verifier::truncate] ((x >> 24u32) as u8));
    v.set(a + 1, #[verifier::truncate] ((x >> 16u32) as u8));
    v.set(a + 2, #[verifier::truncate] ((x >> 8u32) as u8));
    v.set(a + 3, #[verifier::truncate] (x as u8));
}

/// Writes `x` big-endian at byte offsets `a .. a + 8`.
pub fn write_be64(v: &mut Vec<u8>, a: usize, x: u64)
    requires
        a + 8 <= old(v)@.len(),
    ensures
        final(v)@ == store_be64(old(v)@, a as int, x),
{
    let _bound: usize = v.len();
    v.set(a, #[verifier::truncate] ((x >> 56u64) as u8));
    v.set(a + 1, #[verifier::truncate] ((x >> 48u64) as u8));
    v.set(a + 2, #[verifier::truncate] ((x >> 40u64) as u8));
    v.set(a + 3, #[verifier::truncate] ((x >> 32u64) as u8));
    v.set(a + 4, #[verifier::truncate] ((x >> 24u64) as u8));
    v.set(a + 5, #[verifier::truncate] ((x >> 16u64) as u8));
    v.set(a + 6, #[verifier::truncate] ((x >> 8u64) as u8));
    v.set(a + 7, #[verifier::truncate] (x as u8));
}

} // verus!
