//! The bytes of a metadata block, and the proof that reading them gives the
//! metadata back.
use crate::enums::{SType, Schema};
use crate::metadata::{
    end_of, limit_of, list_at, list_end, list_fits, list_is_text, parse_body, parse_metadata,
    symbol_text, texts, Metadata, MetadataParse, MetadataView, DBN_VERSION, NULL_END, NULL_LIMIT,
};
use crate::text::{text_at, trim_nuls};
use crate::wire::{
    group_wire, lemma_subrange_of_second, lemma_wire, put_u16, put_u32, put_u64, put_u8,
    put_zeros, u16_at, u16_le, u32_at, u32_le, u64_at, u64_le, u8_at, u8_le, zeros,
};
use vstd::prelude::*;
use vstd::slice::slice_to_vec;
use vstd::utf8::{decode_utf8, encode_utf8};

verus! {

/// Whether `t` can stand in a NUL-padded field of `n` bytes and be read
/// back: it fits, and does not end in a zero byte.
pub open spec fn text_fits(t: Seq<u8>, n: nat) -> bool {
    t.len() <= n && (t.len() == 0 || t.last() != 0)
}

/// `t` in a NUL-padded field of `n` bytes.
pub open spec fn padded_text(t: Seq<u8>, n: nat) -> Seq<u8> {
    t + zeros((n - t.len()) as nat)
}

/// Whether every symbol of `l` can stand in a symbol field.
pub open spec fn symbols_fit(l: Seq<Seq<char>>) -> bool {
    forall|i: int| 0 <= i < l.len() ==> text_fits(#[trigger] encode_utf8(l[i]), 22)
}

/// The fields of the symbols of `l`, one after the other.
pub open spec fn symbols_wire(l: Seq<Seq<char>>) -> Seq<u8>
    decreases l.len(),
{
    if l.len() == 0 {
        Seq::empty()
    } else {
        symbols_wire(l.drop_last()) + padded_text(encode_utf8(l.last()), 22)
    }
}

/// The bytes of a symbol list: its count, then its symbols.
pub open spec fn list_wire(l: Seq<Seq<char>>) -> Seq<u8> {
    u32_le(l.len() as u32) + symbols_wire(l)
}

/// The value of the end field for `end`.
pub open spec fn end_raw(end: Option<u64>) -> u64 {
    match end {
        Some(e) => e,
        None => NULL_END,
    }
}

/// The value of the limit field for `limit`.
pub open spec fn limit_raw(limit: Option<u64>) -> u64 {
    match limit {
        Some(l) => l,
        None => NULL_LIMIT,
    }
}

/// The body's fixed fields and the length of the schema definition: a
/// hundred and four bytes.
pub open spec fn fixed_wire(m: MetadataView) -> Seq<u8> {
    padded_text(encode_utf8(m.dataset), 16) + u16_le(m.schema.code()) + u64_le(m.start) + u64_le(
        end_raw(m.end),
    ) + u64_le(limit_raw(m.limit)) + u64_le(m.record_count) + u8_le(m.stype_in.code()) + u8_le(
        m.stype_out.code(),
    ) + zeros(48) + u32_le(0)
}

/// The body of the block for `m`.
pub open spec fn body_wire(m: MetadataView) -> Seq<u8> {
    fixed_wire(m) + list_wire(m.symbols) + list_wire(m.partial) + list_wire(m.not_found)
}

/// The byte size of the body of the block for `m`.
pub open spec fn body_len(m: MetadataView) -> nat {
    (116 + 22 * (m.symbols.len() + m.partial.len() + m.not_found.len())) as nat
}

/// The block for `m`: the tag, the version, the body's length, the body.
pub open spec fn metadata_wire(m: MetadataView) -> Seq<u8> {
    seq![68u8, 66u8, 78u8, m.version] + u32_le(body_len(m) as u32) + body_wire(m)
}

/// Whether `m` can be written as a block and read back: its version is one
/// that is read, its texts fit their fields, its optional fields do not
/// hold the values that stand for none, and the body's length fits the
/// prelude.
pub open spec fn encodable(m: MetadataView) -> bool {
    &&& m.version <= DBN_VERSION
    &&& text_fits(encode_utf8(m.dataset), 16)
    &&& symbols_fit(m.symbols)
    &&& symbols_fit(m.partial)
    &&& symbols_fit(m.not_found)
    &&& m.end != Some(NULL_END)
    &&& m.limit != Some(NULL_LIMIT)
    &&& body_len(m) <= u32::MAX
}

/// Zero bytes behind a text that does not end in one are trimmed away.
pub proof fn lemma_trim_padded(t: Seq<u8>, k: nat)
    requires
        t.len() == 0 || t.last() != 0,
    ensures
        trim_nuls(t + zeros(k)) == t,
    decreases k,
{
    let s = t + zeros(k);
    if k == 0 {
        assert(s =~= t);
    } else {
        assert(s.last() == 0);
        assert(s.drop_last() =~= t + zeros((k - 1) as nat));
        lemma_trim_padded(t, (k - 1) as nat);
    }
}

/// The text read back from a padded field is the text that was put there,
/// whatever stands around the field.
pub proof fn lemma_text_round_trip(pre: Seq<u8>, t: Seq<u8>, n: nat, post: Seq<u8>)
    requires
        text_fits(t, n),
    ensures
        padded_text(t, n).len() == n,
        text_at(pre + padded_text(t, n) + post, pre.len() as int, n) == t,
{
    let b = pre + padded_text(t, n) + post;
    assert(b.subrange(pre.len() as int, (pre.len() + n) as int) =~= padded_text(t, n));
    lemma_trim_padded(t, (n - t.len()) as nat);
}

/// The fields of a run of symbols take twenty-two bytes each, and the
/// field of symbol `i` stands at `22 * i`.
pub proof fn lemma_symbols_wire(l: Seq<Seq<char>>, i: int)
    requires
        symbols_fit(l),
        0 <= i < l.len(),
    ensures
        symbols_wire(l).len() == 22 * l.len(),
        symbols_wire(l).subrange(22 * i, 22 * i + 22) == padded_text(encode_utf8(l[i]), 22),
    decreases l.len(),
{
    lemma_symbols_len(l);
    let init = l.drop_last();
    lemma_symbols_len(init);
    assert(text_fits(encode_utf8(l.last()), 22));
    let last = padded_text(encode_utf8(l.last()), 22);
    if i == l.len() - 1 {
        assert(symbols_wire(l).subrange(22 * i, 22 * i + 22) =~= last);
    } else {
        assert forall|j: int| 0 <= j < init.len() implies text_fits(
            #[trigger] encode_utf8(init[j]),
            22,
        ) by {
            assert(init[j] == l[j]);
        }
        lemma_symbols_wire(init, i);
        assert(symbols_wire(l).subrange(22 * i, 22 * i + 22) =~= symbols_wire(init).subrange(
            22 * i,
            22 * i + 22,
        ));
    }
}

/// The fields of a run of symbols take twenty-two bytes each.
pub proof fn lemma_symbols_len(l: Seq<Seq<char>>)
    requires
        symbols_fit(l),
    ensures
        symbols_wire(l).len() == 22 * l.len(),
    decreases l.len(),
{
    if l.len() > 0 {
        let init = l.drop_last();
        assert forall|j: int| 0 <= j < init.len() implies text_fits(
            #[trigger] encode_utf8(init[j]),
            22,
        ) by {
            assert(init[j] == l[j]);
        }
        lemma_symbols_len(init);
        assert(text_fits(encode_utf8(l.last()), 22));
    }
}

/// A symbol list that was written is read back as it was, whatever stands
/// around it.
pub proof fn lemma_list_round_trip(pre: Seq<u8>, l: Seq<Seq<char>>, post: Seq<u8>)
    requires
        symbols_fit(l),
        l.len() <= u32::MAX,
    ensures
        list_wire(l).len() == 4 + 22 * l.len(),
        list_fits(pre + list_wire(l) + post, pre.len() as int),
        list_is_text(pre + list_wire(l) + post, pre.len() as int),
        list_at(pre + list_wire(l) + post, pre.len() as int) == l,
        list_end(pre + list_wire(l) + post, pre.len() as int) == pre.len() + list_wire(l).len(),
{
    broadcast use {group_wire, lemma_subrange_of_second};
    broadcast use vstd::utf8::encode_utf8_valid_utf8, vstd::utf8::encode_utf8_decode_utf8;

    lemma_wire();
    lemma_symbols_len(l);
    let b = pre + list_wire(l) + post;
    let pos = pre.len() as int;
    let count = l.len() as u32;
    assert(b.subrange(pos, pos + 4) =~= u32_le(count));
    assert(u32_at(b, pos) == count);
    assert forall|i: int| 0 <= i < l.len() implies symbol_text(b, pos, i) == encode_utf8(
        l[i],
    ) by {
        lemma_symbols_wire(l, i);
        let field = padded_text(encode_utf8(l[i]), 22);
        let start = pos + 4 + 22 * i;
        assert(b.subrange(start, start + 22) =~= symbols_wire(l).subrange(22 * i, 22 * i + 22));
        lemma_text_round_trip(Seq::empty(), encode_utf8(l[i]), 22, Seq::empty());
        assert(Seq::<u8>::empty() + field + Seq::<u8>::empty() =~= field);
        assert(field.subrange(0, 22) =~= field);
    }
    assert(list_at(b, pos) =~= l);
}

/// The fixed fields that were written are read back as they were, whatever
/// follows them.
pub proof fn lemma_fixed_round_trip(m: MetadataView, post: Seq<u8>)
    requires
        text_fits(encode_utf8(m.dataset), 16),
    ensures
        fixed_wire(m).len() == 104,
        text_at(fixed_wire(m) + post, 0, 16) == encode_utf8(m.dataset),
        u16_at(fixed_wire(m) + post, 16) == m.schema.code(),
        u64_at(fixed_wire(m) + post, 18) == m.start,
        u64_at(fixed_wire(m) + post, 26) == end_raw(m.end),
        u64_at(fixed_wire(m) + post, 34) == limit_raw(m.limit),
        u64_at(fixed_wire(m) + post, 42) == m.record_count,
        u8_at(fixed_wire(m) + post, 50) == m.stype_in.code(),
        u8_at(fixed_wire(m) + post, 51) == m.stype_out.code(),
        u32_at(fixed_wire(m) + post, 100) == 0,
{
    broadcast use group_wire;

    lemma_wire();
    let d = padded_text(encode_utf8(m.dataset), 16);
    let b = fixed_wire(m) + post;
    lemma_text_round_trip(Seq::empty(), encode_utf8(m.dataset), 16, Seq::empty());
    assert(Seq::<u8>::empty() + d + Seq::<u8>::empty() =~= d);
    assert(b.subrange(0, 16) =~= d);
    assert(d.subrange(0, 16) =~= d);
}

/// Reading the body that was written for metadata gives the metadata back.
pub proof fn lemma_body_round_trip(m: MetadataView)
    requires
        encodable(m),
    ensures
        body_wire(m).len() == body_len(m),
        parse_body(m.version, body_wire(m)) == Ok::<MetadataView, crate::error::MetadataError>(m),
{
    broadcast use vstd::utf8::encode_utf8_valid_utf8, vstd::utf8::encode_utf8_decode_utf8;

    reveal(parse_body);
    let fixed = fixed_wire(m);
    let l1 = list_wire(m.symbols);
    let l2 = list_wire(m.partial);
    let l3 = list_wire(m.not_found);
    let body = body_wire(m);
    lemma_fixed_round_trip(m, l1 + l2 + l3);
    lemma_list_round_trip(fixed, m.symbols, l2 + l3);
    lemma_list_round_trip(fixed + l1, m.partial, l3);
    lemma_list_round_trip(fixed + l1 + l2, m.not_found, Seq::empty());
    assert(body == fixed + (l1 + l2 + l3)) by {
        assert(body =~= fixed + (l1 + l2 + l3));
    }
    assert(body == fixed + l1 + (l2 + l3)) by {
        assert(body =~= fixed + l1 + (l2 + l3));
    }
    assert(body == (fixed + l1 + l2) + l3 + Seq::<u8>::empty()) by {
        assert(body =~= (fixed + l1 + l2) + l3 + Seq::<u8>::empty());
    }
    let partial_at = list_end(body, 104);
    let not_found_at = list_end(body, partial_at);
    assert(partial_at == 104 + l1.len());
    assert(not_found_at == partial_at + l2.len());
    assert(end_of(end_raw(m.end)) == m.end);
    assert(limit_of(limit_raw(m.limit)) == m.limit);
    assert(Schema::of_code(m.schema.code()) == m.schema);
    assert(SType::of_code(m.stype_in.code()) == m.stype_in);
    assert(SType::of_code(m.stype_out.code()) == m.stype_out);
    assert(decode_utf8(text_at(body, 0, 16)) == m.dataset);
}

/// Reading the block that was written for metadata gives the metadata back,
/// and takes the block's bytes, whatever follows them.
pub proof fn lemma_metadata_round_trip(m: MetadataView, tail: Seq<u8>)
    requires
        encodable(m),
    ensures
        metadata_wire(m).len() == 8 + body_len(m),
        parse_metadata(metadata_wire(m) + tail) == MetadataParse::Complete(
            m,
            metadata_wire(m).len(),
        ),
{
    lemma_wire();
    lemma_body_round_trip(m);
    let body = body_wire(m);
    let w = metadata_wire(m);
    let b = w + tail;
    let len = body_len(m) as u32;
    let tag = seq![68u8, 66u8, 78u8, m.version];
    assert(tag.len() == 4);
    assert(b[0] == tag[0] && b[1] == tag[1] && b[2] == tag[2] && b[3] == tag[3]);
    assert(b.subrange(4, 8) =~= u32_le(len));
    assert(b.subrange(8, 8 + len) =~= body);
}

/// Whether `text` can stand in a NUL-padded field of `n` bytes and be read
/// back.
pub fn fits_field(text: &[u8], n: usize) -> (b: bool)
    ensures
        b == text_fits(text@, n as nat),
{
    let len = text.len();
    len <= n && (len == 0 || text[len - 1] != 0)
}

/// Appends `text` in a NUL-padded field of `n` bytes to `out`.
pub fn put_text(out: &mut Vec<u8>, text: &[u8], n: usize)
    requires
        text@.len() <= n,
    ensures
        final(out)@ == old(out)@ + padded_text(text@, n as nat),
{
    let mut copy = slice_to_vec(text);
    out.append(&mut copy);
    put_zeros(out, n - text.len());
    assert(out@ =~= old(out)@ + padded_text(text@, n as nat));
}

/// Appends the symbol list `list` to `out`, as far as its symbols fit
/// their fields; says whether all of them did.
fn put_list(out: &mut Vec<u8>, list: &Vec<String>) -> (ok: bool)
    requires
        list@.len() <= u32::MAX,
    ensures
        ok == symbols_fit(texts(list@)),
        ok ==> final(out)@ == old(out)@ + list_wire(texts(list@)),
{
    let ghost all = texts(list@);
    let count = list.len();
    put_u32(out, count as u32);
    let mut i: usize = 0;
    assert(all.take(0) =~= Seq::<Seq<char>>::empty());
    assert(out@ =~= old(out)@ + u32_le(count as u32) + symbols_wire(all.take(0)));
    while i < count
        invariant
            i <= count,
            count == list@.len(),
            all == texts(list@),
            out@ == old(out)@ + u32_le(count as u32) + symbols_wire(all.take(i as int)),
            forall|j: int| 0 <= j < i ==> text_fits(#[trigger] encode_utf8(all[j]), 22),
        decreases count - i,
    {
        let text = list[i].as_str().as_bytes();
        assert(text@ == encode_utf8(all[i as int]));
        if !fits_field(text, 22) {
            return false;
        }
        put_text(out, text, 22);
        proof {
            let t = all.take(i + 1);
            assert(t.drop_last() =~= all.take(i as int));
            assert(t.last() == all[i as int]);
            assert(out@ =~= old(out)@ + u32_le(count as u32) + symbols_wire(t));
        }
        i += 1;
    }
    assert(all.take(count as int) =~= all);
    assert(out@ =~= old(out)@ + list_wire(all));
    true
}

/// The prelude of a block: the tag, the version, and the body's length.
fn prelude(version: u8, length: u32) -> (out: Vec<u8>)
    ensures
        out@ == seq![68u8, 66u8, 78u8, version] + u32_le(length),
{
    let mut out: Vec<u8> = Vec::new();
    out.push(68u8);
    out.push(66u8);
    out.push(78u8);
    out.push(version);
    let ghost tag = out@;
    assert(tag =~= seq![68u8, 66u8, 78u8, version]);
    put_u32(&mut out, length);
    out
}

/// The values of the optional fields: `None` where one of them holds the
/// value that stands for none.
fn optional_fields(end: Option<u64>, limit: Option<u64>) -> (r: Option<(u64, u64)>)
    ensures
        end != Some(NULL_END) && limit != Some(NULL_LIMIT) ==> r == Some(
            (end_raw(end), limit_raw(limit)),
        ),
        end == Some(NULL_END) || limit == Some(NULL_LIMIT) ==> r is None,
{
    let end = match end {
        Some(e) => {
            if e == NULL_END {
                return None;
            }
            e
        },
        None => NULL_END,
    };
    let limit = match limit {
        Some(l) => {
            if l == NULL_LIMIT {
                return None;
            }
            l
        },
        None => NULL_LIMIT,
    };
    Some((end, limit))
}

impl Metadata {
    /// Appends the fixed fields and the length of the schema definition.
    fn put_fixed(&self, out: &mut Vec<u8>, end: u64, limit: u64)
        requires
            encode_utf8(self@.dataset).len() <= 16,
            end == end_raw(self@.end),
            limit == limit_raw(self@.limit),
        ensures
            final(out)@ == old(out)@ + fixed_wire(self@),
    {
        put_text(out, self.dataset.as_str().as_bytes(), 16);
        put_u16(out, self.schema.as_raw());
        put_u64(out, self.start);
        put_u64(out, end);
        put_u64(out, limit);
        put_u64(out, self.record_count);
        put_u8(out, self.stype_in.as_raw());
        put_u8(out, self.stype_out.as_raw());
        put_zeros(out, 48);
        put_u32(out, 0);
        assert(out@ =~= old(out)@ + fixed_wire(self@));
    }

    /// The byte size of the body, where it fits the prelude.
    fn body_length(&self) -> (r: Option<u32>)
        ensures
            body_len(self@) <= u32::MAX ==> r == Some(body_len(self@) as u32),
            body_len(self@) > u32::MAX ==> r is None,
    {
        let n1 = self.symbols.len();
        let n2 = self.partial.len();
        let n3 = self.not_found.len();
        if n1 > 0xffff_ffff || n2 > 0xffff_ffff || n3 > 0xffff_ffff {
            return None;
        }
        let length: u64 = 116 + 22 * (n1 as u64 + n2 as u64 + n3 as u64);
        if length > 0xffff_ffff {
            return None;
        }
        Some(length as u32)
    }

    /// The block for this metadata; `None` where it cannot be written and
    /// read back: see [`encodable`].
    pub fn encode(&self) -> (r: Option<Vec<u8>>)
        ensures
            encodable(self@) ==> r is Some && r->Some_0@ == metadata_wire(self@),
            !encodable(self@) ==> r is None,
    {
        if self.version > DBN_VERSION || !fits_field(self.dataset.as_str().as_bytes(), 16) {
            return None;
        }
        let (end, limit) = match optional_fields(self.end, self.limit) {
            Some(fields) => fields,
            None => {
                return None;
            },
        };
        let length = match self.body_length() {
            Some(length) => length,
            None => {
                return None;
            },
        };
        let mut out = prelude(self.version, length);
        let ghost head = out@;
        self.put_fixed(&mut out, end, limit);
        let ghost fixed = fixed_wire(self@);
        if !put_list(&mut out, &self.symbols) {
            return None;
        }
        let ghost l1 = list_wire(self@.symbols);
        if !put_list(&mut out, &self.partial) {
            return None;
        }
        let ghost l2 = list_wire(self@.partial);
        if !put_list(&mut out, &self.not_found) {
            return None;
        }
        let ghost l3 = list_wire(self@.not_found);
        assert(out@ == head + fixed + l1 + l2 + l3);
        assert(head + fixed + l1 + l2 + l3 =~= head + (fixed + l1 + l2 + l3));
        Some(out)
    }
}

} // verus!
