//! Text in fixed-width, NUL-padded fields.
use vstd::prelude::*;
use vstd::slice::slice_subrange;
use vstd::utf8::{decode_utf8, valid_utf8};

verus! {

/// `s` without the zero bytes at its end.
pub open spec fn trim_nuls(s: Seq<u8>) -> Seq<u8>
    decreases s.len(),
{
    if s.len() > 0 && s.last() == 0 {
        trim_nuls(s.drop_last())
    } else {
        s
    }
}

/// The text of the NUL-padded field of `n` bytes at `off`.
pub open spec fn text_at(b: Seq<u8>, off: int, n: nat) -> Seq<u8> {
    trim_nuls(b.subrange(off, off + n))
}

/// The index of the first zero byte of `s`; the length of `s` where it has
/// none.
pub open spec fn nul_index(s: Seq<u8>) -> nat
    decreases s.len(),
{
    if s.len() == 0 || s[0] == 0 {
        0
    } else {
        1 + nul_index(s.drop_first())
    }
}

/// `s` up to its first zero byte.
pub open spec fn until_nul(s: Seq<u8>) -> Seq<u8> {
    s.take(nul_index(s) as int)
}

/// An index at a zero byte with no zero byte before it is the index of the
/// first zero byte.
pub proof fn lemma_nul_index_is(s: Seq<u8>, k: nat)
    requires
        k <= s.len(),
        k < s.len() ==> s[k as int] == 0,
        forall|i: int| 0 <= i < k ==> s[i] != 0,
    ensures
        nul_index(s) == k,
    decreases s.len(),
{
    if s.len() != 0 && s[0] != 0 {
        let t = s.drop_first();
        assert forall|i: int| 0 <= i < k - 1 implies t[i] != 0 by {
            assert(t[i] == s[i + 1]);
        }
        lemma_nul_index_is(t, (k - 1) as nat);
    }
}

/// Reads a string from UTF-8 text with `core::str::from_utf8`: `None` where
/// the bytes are not UTF-8, else the string slice that the bytes encode.
#[verifier::external_body]
pub(crate) fn str_from_utf8(b: &[u8]) -> (r: Option<&str>)
    ensures
        r is Some <==> valid_utf8(b@),
        r matches Some(s) ==> s@ == decode_utf8(b@),
{
    match core::str::from_utf8(b) {
        Ok(s) => Some(s),
        Err(_) => None,
    }
}

/// The text of the NUL-padded field of `n` bytes at `off`.
pub fn read_text(b: &[u8], off: usize, n: usize) -> (t: &[u8])
    requires
        off + n <= b@.len(),
    ensures
        t@ == text_at(b@, off as int, n as nat),
{
    let total = b.len();
    let mut len: usize = n;
    let ghost whole = b@.subrange(off as int, off + n);
    assert(b@.subrange(off as int, off + len) == whole);
    while len > 0 && b[off + len - 1] == 0
        invariant
            len <= n,
            off + n <= b@.len(),
            b@.len() == total,
            whole == b@.subrange(off as int, off + n),
            trim_nuls(b@.subrange(off as int, off + len)) == trim_nuls(whole),
        decreases len,
    {
        proof {
            let s = b@.subrange(off as int, off + len);
            assert(s.last() == 0);
            assert(s.drop_last() =~= b@.subrange(off as int, off + len - 1));
        }
        len -= 1;
    }
    proof {
        let s = b@.subrange(off as int, off + len);
        assert(trim_nuls(s) == s);
    }
    slice_subrange(b, off, off + len)
}

/// Reads the NUL-padded field of `n` bytes at `off` as a string; `None`
/// where its text is not UTF-8.
pub fn read_string(b: &[u8], off: usize, n: usize) -> (r: Option<String>)
    requires
        off + n <= b@.len(),
    ensures
        r is Some <==> valid_utf8(text_at(b@, off as int, n as nat)),
        r matches Some(s) ==> s@ == decode_utf8(text_at(b@, off as int, n as nat)),
{
    match str_from_utf8(read_text(b, off, n)) {
        Some(s) => Some(s.to_owned()),
        None => None,
    }
}

} // verus!
