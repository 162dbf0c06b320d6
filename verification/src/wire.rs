//! Little-endian fields at fixed offsets of a byte sequence, and their
//! encodings.
//!
//! Every record and the metadata block are laid out as fixed-width
//! little-endian integers and NUL-padded character arrays. The `*_at`
//! functions say what a field at an offset is, the `*_le` functions say how a
//! value is laid out, and `lemma_wire` states that each reader undoes its
//! writer.
use vstd::bytes::*;
use vstd::prelude::*;
use vstd::slice::*;

verus! {

/// The byte at `off`.
pub open spec fn u8_at(b: Seq<u8>, off: int) -> u8 {
    b[off]
}

/// The little-endian `u16` that starts at `off`.
pub open spec fn u16_at(b: Seq<u8>, off: int) -> u16 {
    spec_u16_from_le_bytes(b.subrange(off, off + 2))
}

/// The little-endian `u32` that starts at `off`.
pub open spec fn u32_at(b: Seq<u8>, off: int) -> u32 {
    spec_u32_from_le_bytes(b.subrange(off, off + 4))
}

/// The little-endian `u64` that starts at `off`.
pub open spec fn u64_at(b: Seq<u8>, off: int) -> u64 {
    spec_u64_from_le_bytes(b.subrange(off, off + 8))
}

/// The two's-complement `i8` at `off`.
pub open spec fn i8_at(b: Seq<u8>, off: int) -> i8 {
    #[verifier::truncate]
    (b[off] as i8)
}

/// The little-endian two's-complement `i16` that starts at `off`.
pub open spec fn i16_at(b: Seq<u8>, off: int) -> i16 {
    #[verifier::truncate]
    (u16_at(b, off) as i16)
}

/// The little-endian two's-complement `i32` that starts at `off`.
pub open spec fn i32_at(b: Seq<u8>, off: int) -> i32 {
    #[verifier::truncate]
    (u32_at(b, off) as i32)
}

/// The little-endian two's-complement `i64` that starts at `off`.
pub open spec fn i64_at(b: Seq<u8>, off: int) -> i64 {
    #[verifier::truncate]
    (u64_at(b, off) as i64)
}

/// The `n` characters that start at `off`, one per byte.
pub open spec fn chars_at(b: Seq<u8>, off: int, n: nat) -> Seq<i8> {
    Seq::new(n, |i: int| i8_at(b, off + i))
}

/// The array whose elements are those of `s`.
pub open spec fn array_of<T, const N: usize>(s: Seq<T>) -> [T; N] {
    choose|a: [T; N]| a@ == s
}

/// The encoding of a `u8`.
pub open spec fn u8_le(v: u8) -> Seq<u8> {
    seq![v]
}

/// The encoding of a `u16`.
pub open spec fn u16_le(v: u16) -> Seq<u8> {
    spec_u16_to_le_bytes(v)
}

/// The encoding of a `u32`.
pub open spec fn u32_le(v: u32) -> Seq<u8> {
    spec_u32_to_le_bytes(v)
}

/// The encoding of a `u64`.
pub open spec fn u64_le(v: u64) -> Seq<u8> {
    spec_u64_to_le_bytes(v)
}

/// The encoding of an `i8`.
pub open spec fn i8_le(v: i8) -> Seq<u8> {
    seq![
        #[verifier::truncate]
        (v as u8),
    ]
}

/// The encoding of an `i16`.
pub open spec fn i16_le(v: i16) -> Seq<u8> {
    spec_u16_to_le_bytes(
        #[verifier::truncate]
        (v as u16),
    )
}

/// The encoding of an `i32`.
pub open spec fn i32_le(v: i32) -> Seq<u8> {
    spec_u32_to_le_bytes(
        #[verifier::truncate]
        (v as u32),
    )
}

/// The encoding of an `i64`.
pub open spec fn i64_le(v: i64) -> Seq<u8> {
    spec_u64_to_le_bytes(
        #[verifier::truncate]
        (v as u64)
    )
}

/// The encoding of a character array: one byte per character.
pub open spec fn chars_le(s: Seq<i8>) -> Seq<u8> {
    Seq::new(
        s.len(),
        |i: int|
            #[verifier::truncate]
            (s[i] as u8),
    )
}

/// `n` zero bytes.
pub open spec fn zeros(n: nat) -> Seq<u8> {
    Seq::new(n, |i: int| 0u8)
}

/// A slice of a sequence that lies within its first part is a slice of that
/// part.
pub broadcast proof fn lemma_subrange_of_prefix(s: Seq<u8>, t: Seq<u8>, i: int, j: int)
    requires
        0 <= i <= j <= s.len(),
    ensures
        #[trigger] (s + t).subrange(i, j) == s.subrange(i, j),
{
    assert((s + t).subrange(i, j) =~= s.subrange(i, j));
}

/// The slice of a sequence that covers its last part is that part.
pub broadcast proof fn lemma_subrange_of_suffix(s: Seq<u8>, t: Seq<u8>, i: int, j: int)
    requires
        i == s.len(),
        j == s.len() + t.len(),
    ensures
        #[trigger] (s + t).subrange(i, j) == t,
{
    assert((s + t).subrange(i, j) =~= t);
}

/// A slice of a sequence that lies within its last part is a slice of that
/// part.
pub broadcast proof fn lemma_subrange_of_second(s: Seq<u8>, t: Seq<u8>, i: int, j: int)
    requires
        s.len() <= i <= j <= s.len() + t.len(),
    ensures
        #[trigger] (s + t).subrange(i, j) == t.subrange(i - s.len(), j - s.len()),
{
    assert((s + t).subrange(i, j) =~= t.subrange(i - s.len(), j - s.len()));
}

/// The slice of a sequence from its start to its end is the sequence.
pub broadcast proof fn lemma_subrange_whole(s: Seq<u8>, j: int)
    requires
        j == s.len(),
    ensures
        #[trigger] s.subrange(0, j) == s,
{
    assert(s.subrange(0, j) =~= s);
}

pub broadcast group group_wire {
    lemma_subrange_of_prefix,
    lemma_subrange_of_suffix,
    lemma_subrange_whole,
}

/// Each encoding has its field's width, and decoding it gives the value back.
pub proof fn lemma_wire()
    ensures
        forall|v: u16| #[trigger] u16_le(v).len() == 2 && spec_u16_from_le_bytes(u16_le(v)) == v,
        forall|v: u32| #[trigger] u32_le(v).len() == 4 && spec_u32_from_le_bytes(u32_le(v)) == v,
        forall|v: u64| #[trigger] u64_le(v).len() == 8 && spec_u64_from_le_bytes(u64_le(v)) == v,
        forall|v: i8|
            #![trigger i8_le(v)]
            i8_le(v).len() == 1 && i8_at(i8_le(v), 0) == v,
        forall|v: i16|
            #![trigger i16_le(v)]
            i16_le(v).len() == 2 && i16_at(i16_le(v), 0) == v,
        forall|v: i32|
            #![trigger i32_le(v)]
            i32_le(v).len() == 4 && i32_at(i32_le(v), 0) == v,
        forall|v: i64|
            #![trigger i64_le(v)]
            i64_le(v).len() == 8 && i64_at(i64_le(v), 0) == v,
        forall|v: i8| #[trigger] (((v as u8) as i8)) == v,
{
    lemma_auto_spec_u16_to_from_le_bytes();
    lemma_auto_spec_u32_to_from_le_bytes();
    lemma_auto_spec_u64_to_from_le_bytes();
    assert forall|v: i8| #[trigger] (((v as u8) as i8)) == v by {
        assert(((v as u8) as i8) == v) by (bit_vector);
    }
    assert forall|v: i16|
        #![trigger i16_le(v)]
        i16_at(i16_le(v), 0) == v by {
        broadcast use group_wire;
        assert(((v as u16) as i16) == v) by (bit_vector);
    }
    assert forall|v: i32|
        #![trigger i32_le(v)]
        i32_at(i32_le(v), 0) == v by {
        broadcast use group_wire;
        assert(((v as u32) as i32) == v) by (bit_vector);
    }
    assert forall|v: i64|
        #![trigger i64_le(v)]
        i64_at(i64_le(v), 0) == v by {
        broadcast use group_wire;
        assert(((v as u64) as i64) == v) by (bit_vector);
    }
}

/// An array is determined by its elements.
pub proof fn lemma_array_of<T, const N: usize>(a: [T; N])
    ensures
        array_of::<T, N>(a@) == a,
{
    let c = array_of::<T, N>(a@);
    assert(c@ == a@);
    assert(c =~= a);
}

pub fn read_u8(b: &[u8], off: usize) -> (v: u8)
    requires
        off < b@.len(),
    ensures
        v == u8_at(b@, off as int),
{
    b[off]
}

pub fn read_u16(b: &[u8], off: usize) -> (v: u16)
    requires
        off + 2 <= b@.len(),
    ensures
        v == u16_at(b@, off as int),
{
    let len = b.len();
    assert(off + 2 <= len);
    u16_from_le_bytes(slice_subrange(b, off, off + 2))
}

pub fn read_u32(b: &[u8], off: usize) -> (v: u32)
    requires
        off + 4 <= b@.len(),
    ensures
        v == u32_at(b@, off as int),
{
    let len = b.len();
    assert(off + 4 <= len);
    u32_from_le_bytes(slice_subrange(b, off, off + 4))
}

pub fn read_u64(b: &[u8], off: usize) -> (v: u64)
    requires
        off + 8 <= b@.len(),
    ensures
        v == u64_at(b@, off as int),
{
    let len = b.len();
    assert(off + 8 <= len);
    u64_from_le_bytes(slice_subrange(b, off, off + 8))
}

pub fn read_i8(b: &[u8], off: usize) -> (v: i8)
    requires
        off < b@.len(),
    ensures
        v == i8_at(b@, off as int),
{
    #[verifier::truncate]
    (b[off] as i8)
}

pub fn read_i16(b: &[u8], off: usize) -> (v: i16)
    requires
        off + 2 <= b@.len(),
    ensures
        v == i16_at(b@, off as int),
{
    #[verifier::truncate]
    (read_u16(b, off) as i16)
}

pub fn read_i32(b: &[u8], off: usize) -> (v: i32)
    requires
        off + 4 <= b@.len(),
    ensures
        v == i32_at(b@, off as int),
{
    #[verifier::truncate]
    (read_u32(b, off) as i32)
}

pub fn read_i64(b: &[u8], off: usize) -> (v: i64)
    requires
        off + 8 <= b@.len(),
    ensures
        v == i64_at(b@, off as int),
{
    #[verifier::truncate]
    (read_u64(b, off) as i64)
}

pub fn read_chars<const N: usize>(b: &[u8], off: usize) -> (v: [i8; N])
    requires
        off + N <= b@.len(),
    ensures
        v@ == chars_at(b@, off as int, N as nat),
        v == array_of::<i8, N>(chars_at(b@, off as int, N as nat)),
{
    let len = b.len();
    let mut v: [i8; N] = [0i8; N];
    let mut i: usize = 0;
    while i < N
        invariant
            i <= N,
            off + N <= b@.len(),
            b@.len() == len,
            forall|j: int| 0 <= j < i ==> v@[j] == i8_at(b@, off + j),
        decreases N - i,
    {
        let c = read_i8(b, off + i);
        v[i] = c;
        i += 1;
    }
    assert(v@ =~= chars_at(b@, off as int, N as nat));
    proof {
        lemma_array_of::<i8, N>(v);
    }
    v
}

pub fn put_u8(out: &mut Vec<u8>, v: u8)
    ensures
        final(out)@ == old(out)@ + u8_le(v),
{
    out.push(v);
    assert(out@ =~= old(out)@ + u8_le(v));
}

pub fn put_u16(out: &mut Vec<u8>, v: u16)
    ensures
        final(out)@ == old(out)@ + u16_le(v),
{
    let mut bytes = u16_to_le_bytes(v);
    out.append(&mut bytes);
}

pub fn put_u32(out: &mut Vec<u8>, v: u32)
    ensures
        final(out)@ == old(out)@ + u32_le(v),
{
    let mut bytes = u32_to_le_bytes(v);
    out.append(&mut bytes);
}

pub fn put_u64(out: &mut Vec<u8>, v: u64)
    ensures
        final(out)@ == old(out)@ + u64_le(v),
{
    let mut bytes = u64_to_le_bytes(v);
    out.append(&mut bytes);
}

pub fn put_i8(out: &mut Vec<u8>, v: i8)
    ensures
        final(out)@ == old(out)@ + i8_le(v),
{
    out.push(
        #[verifier::truncate]
        (v as u8),
    );
    assert(out@ =~= old(out)@ + i8_le(v));
}

pub fn put_i16(out: &mut Vec<u8>, v: i16)
    ensures
        final(out)@ == old(out)@ + i16_le(v),
{
    put_u16(
        out,
        #[verifier::truncate]
        (v as u16),
    );
}

pub fn put_i32(out: &mut Vec<u8>, v: i32)
    ensures
        final(out)@ == old(out)@ + i32_le(v),
{
    put_u32(
        out,
        #[verifier::truncate]
        (v as u32),
    );
}

pub fn put_i64(out: &mut Vec<u8>, v: i64)
    ensures
        final(out)@ == old(out)@ + i64_le(v),
{
    put_u64(
        out,
        #[verifier::truncate]
        (v as u64),
    );
}

pub fn put_chars<const N: usize>(out: &mut Vec<u8>, v: &[i8; N])
    ensures
        final(out)@ == old(out)@ + chars_le(v@),
{
    let mut i: usize = 0;
    while i < N
        invariant
            i <= N,
            out@ == old(out)@ + chars_le(v@).take(i as int),
        decreases N - i,
    {
        let c = v[i];
        out.push(
            #[verifier::truncate]
            (c as u8),
        );
        assert(out@ =~= old(out)@ + chars_le(v@).take(i + 1));
        i += 1;
    }
    assert(chars_le(v@).take(N as int) =~= chars_le(v@));
}

pub fn put_zeros(out: &mut Vec<u8>, n: usize)
    ensures
        final(out)@ == old(out)@ + zeros(n as nat),
{
    let mut i: usize = 0;
    while i < n
        invariant
            i <= n,
            out@ == old(out)@ + zeros(i as nat),
        decreases n - i,
    {
        out.push(0u8);
        assert(out@ =~= old(out)@ + zeros((i + 1) as nat));
        i += 1;
    }
}

} // verus!
