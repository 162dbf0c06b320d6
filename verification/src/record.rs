//! The record header, the catalog's contract for a schema, and the parts
//! that several schemas share.
use crate::enums::RType;
use crate::error::DbnError;
use crate::wire::{
    array_of, group_wire, i64_at, i64_le, lemma_array_of, lemma_wire, put_i64, put_u16, put_u32,
    put_u64, put_u8, put_zeros, read_i64, read_u16, read_u32, read_u64, read_u8, u16_at, u16_le,
    u32_at, u32_le, u64_at, u64_le, u8_at, u8_le, zeros,
};
use vstd::prelude::*;

pub mod definition;
pub mod gateway;
pub mod market;
pub mod venue;

pub use definition::InstrumentDefMsg;
pub use gateway::{ErrorMsg, SymbolMappingMsg, SystemMsg};
pub use market::{MboMsg, Mbp10Msg, Mbp1Msg, OhlcvMsg, TradeMsg};
pub use venue::{ImbalanceMsg, StatMsg, StatusMsg};






verus! {

/// The byte size of the header that every record starts with.
pub const HEADER_SIZE: usize = 16;

/// The number of bytes that one unit of a header's `length` stands for.
pub const LENGTH_MULTIPLIER: usize = 4;

/// The byte size of one book level.
pub const LEVEL_SIZE: usize = 32;

/// The largest byte size that a header's `length` can declare.
pub const MAX_RECORD_SIZE: usize = 1020;

/// The prefix of every record.
#[derive(Clone, Copy, Debug, PartialEq, Eq, Structural)]
pub struct RecordHeader {
    /// The record's size in units of four bytes.
    pub length: u8,
    /// The discriminant that selects the record's schema.
    pub rtype: u8,
    /// The publisher that the venue data came from.
    pub publisher_id: u16,
    /// The numeric identifier of the instrument.
    pub product_id: u32,
    /// The venue's timestamp, in nanoseconds since the UNIX epoch.
    pub ts_event: u64,
}

impl RecordHeader {
    /// The header laid out at the start of `b`.
    pub open spec fn from_wire(b: Seq<u8>) -> RecordHeader {
        RecordHeader {
            length: u8_at(b, 0),
            rtype: u8_at(b, 1),
            publisher_id: u16_at(b, 2),
            product_id: u32_at(b, 4),
            ts_event: u64_at(b, 8),
        }
    }

    /// The header's sixteen bytes.
    pub open spec fn to_wire(self) -> Seq<u8> {
        u8_le(self.length) + u8_le(self.rtype) + u16_le(self.publisher_id) + u32_le(
            self.product_id,
        ) + u64_le(self.ts_event)
    }

    /// The byte size that the header declares for its record.
    pub open spec fn size(self) -> nat {
        (self.length as nat) * 4
    }

    /// A header for a record of schema `R`: its `length` is that of the
    /// schema's layout.
    pub fn new<R: HasRType>(rtype: u8, publisher_id: u16, product_id: u32, ts_event: u64) -> (h:
        RecordHeader)
        ensures
            h.size() == R::layout_size(),
            h.length == R::layout_size() / 4,
            h.rtype == rtype,
            h.publisher_id == publisher_id,
            h.product_id == product_id,
            h.ts_event == ts_event,
    {
        proof {
            R::lemma_size();
        }
        let words = R::size() / LENGTH_MULTIPLIER;
        RecordHeader { length: words as u8, rtype, publisher_id, product_id, ts_event }
    }

    /// The byte size that the header declares for its record.
    pub fn record_size(&self) -> (n: usize)
        ensures
            n == self.size(),
            n <= MAX_RECORD_SIZE,
    {
        self.length as usize * LENGTH_MULTIPLIER
    }

    /// The catalog entry that the discriminant names, or
    /// `UnknownRecordType` where it names none.
    pub fn rtype(&self) -> (r: Result<RType, DbnError>)
        ensures
            crate::rtype::known(self.rtype) ==> r is Ok && r->Ok_0.raw() == self.rtype,
            !crate::rtype::known(self.rtype) ==> r == Err::<RType, DbnError>(
                DbnError::UnknownRecordType { rtype: self.rtype },
            ),
    {
        RType::try_from_u8(self.rtype)
    }

    /// Reads the header at the start of `b`.
    pub fn decode(b: &[u8]) -> (h: RecordHeader)
        requires
            b@.len() >= HEADER_SIZE,
        ensures
            h == RecordHeader::from_wire(b@),
    {
        RecordHeader {
            length: read_u8(b, 0),
            rtype: read_u8(b, 1),
            publisher_id: read_u16(b, 2),
            product_id: read_u32(b, 4),
            ts_event: read_u64(b, 8),
        }
    }

    /// Appends the header's sixteen bytes to `out`.
    pub fn encode(&self, out: &mut Vec<u8>)
        ensures
            final(out)@ == old(out)@ + self.to_wire(),
    {
        put_u8(out, self.length);
        put_u8(out, self.rtype);
        put_u16(out, self.publisher_id);
        put_u32(out, self.product_id);
        put_u64(out, self.ts_event);
        proof {
            lemma_wire();
            assert(out@ =~= old(out)@ + self.to_wire());
        }
    }

    /// A header's bytes are sixteen, and reading them gives the header back,
    /// whatever follows.
    pub proof fn lemma_layout(h: RecordHeader, tail: Seq<u8>)
        ensures
            h.to_wire().len() == HEADER_SIZE,
            RecordHeader::from_wire(h.to_wire() + tail) == h,
    {
        broadcast use group_wire;

        lemma_wire();
    }
}

/// The bid and the ask at one depth of a book.
#[derive(Clone, Copy, Debug, PartialEq, Eq, Structural)]
pub struct BidAskPair {
    /// The bid price.
    pub bid_px: i64,
    /// The ask price.
    pub ask_px: i64,
    /// The bid size.
    pub bid_sz: u32,
    /// The ask size.
    pub ask_sz: u32,
    /// The number of bid orders.
    pub bid_ct: u32,
    /// The number of ask orders.
    pub ask_ct: u32,
}

impl BidAskPair {
    /// The level laid out at `off`.
    pub open spec fn at(b: Seq<u8>, off: int) -> BidAskPair {
        BidAskPair {
            bid_px: i64_at(b, off),
            ask_px: i64_at(b, off + 8),
            bid_sz: u32_at(b, off + 16),
            ask_sz: u32_at(b, off + 20),
            bid_ct: u32_at(b, off + 24),
            ask_ct: u32_at(b, off + 28),
        }
    }

    /// The level's thirty-two bytes.
    pub open spec fn to_wire(self) -> Seq<u8> {
        i64_le(self.bid_px) + i64_le(self.ask_px) + u32_le(self.bid_sz) + u32_le(self.ask_sz)
            + u32_le(self.bid_ct) + u32_le(self.ask_ct)
    }

    /// Reads the level at `off`.
    pub fn decode(b: &[u8], off: usize) -> (p: BidAskPair)
        requires
            off + LEVEL_SIZE <= b@.len(),
        ensures
            p == BidAskPair::at(b@, off as int),
    {
        let len = b.len();
        BidAskPair {
            bid_px: read_i64(b, off),
            ask_px: read_i64(b, off + 8),
            bid_sz: read_u32(b, off + 16),
            ask_sz: read_u32(b, off + 20),
            bid_ct: read_u32(b, off + 24),
            ask_ct: read_u32(b, off + 28),
        }
    }

    /// Appends the level's thirty-two bytes to `out`.
    pub fn encode(&self, out: &mut Vec<u8>)
        ensures
            final(out)@ == old(out)@ + self.to_wire(),
    {
        put_i64(out, self.bid_px);
        put_i64(out, self.ask_px);
        put_u32(out, self.bid_sz);
        put_u32(out, self.ask_sz);
        put_u32(out, self.bid_ct);
        put_u32(out, self.ask_ct);
        proof {
            lemma_wire();
            assert(out@ =~= old(out)@ + self.to_wire());
        }
    }

    /// A level's bytes are thirty-two, and reading them gives the level
    /// back, whatever stands around them.
    pub proof fn lemma_layout(p: BidAskPair, pre: Seq<u8>, post: Seq<u8>)
        ensures
            p.to_wire().len() == LEVEL_SIZE,
            BidAskPair::at(pre + p.to_wire() + post, pre.len() as int) == p,
    {
        broadcast use group_wire;

        lemma_wire();
        let w = p.to_wire();
        let e = pre + w + post;
        let o = pre.len() as int;
        assert(e.subrange(o, o + 8) =~= w.subrange(0, 8));
        assert(e.subrange(o + 8, o + 8 + 8) =~= w.subrange(8, 16));
        assert(e.subrange(o + 16, o + 16 + 4) =~= w.subrange(16, 20));
        assert(e.subrange(o + 20, o + 20 + 4) =~= w.subrange(20, 24));
        assert(e.subrange(o + 24, o + 24 + 4) =~= w.subrange(24, 28));
        assert(e.subrange(o + 28, o + 28 + 4) =~= w.subrange(28, 32));
        assert(BidAskPair::at(w, 0) == p);
    }
}

/// The `n` book levels that start at `off`.
pub open spec fn levels_at(b: Seq<u8>, off: int, n: nat) -> Seq<BidAskPair> {
    Seq::new(n, |i: int| BidAskPair::at(b, off + 32 * i))
}

/// The bytes of a run of book levels, one after the other.
pub open spec fn levels_le(s: Seq<BidAskPair>) -> Seq<u8>
    decreases s.len(),
{
    if s.len() == 0 {
        Seq::empty()
    } else {
        levels_le(s.drop_last()) + s.last().to_wire()
    }
}

/// A run of levels takes thirty-two bytes for each.
pub proof fn lemma_levels_len(s: Seq<BidAskPair>)
    ensures
        levels_le(s).len() == 32 * s.len(),
    decreases s.len(),
{
    if s.len() > 0 {
        lemma_levels_len(s.drop_last());
        BidAskPair::lemma_layout(s.last(), Seq::empty(), Seq::empty());
    }
}

/// The levels read back from an encoded run are its own, whatever stands
/// around the run.
pub proof fn lemma_levels(pre: Seq<u8>, s: Seq<BidAskPair>, post: Seq<u8>)
    ensures
        levels_le(s).len() == 32 * s.len(),
        levels_at(pre + levels_le(s) + post, pre.len() as int, s.len()) == s,
    decreases s.len(),
{
    lemma_levels_len(s);
    let e = pre + levels_le(s) + post;
    let o = pre.len() as int;
    if s.len() > 0 {
        let init = s.drop_last();
        let last = s.last();
        lemma_levels_len(init);
        BidAskPair::lemma_layout(last, pre + levels_le(init), post);
        assert(e =~= (pre + levels_le(init)) + last.to_wire() + post);
        lemma_levels(pre, init, last.to_wire() + post);
        assert(e =~= pre + levels_le(init) + (last.to_wire() + post));
        assert forall|i: int| 0 <= i < s.len() implies levels_at(e, o, s.len())[i] == s[i] by {
            if i < s.len() - 1 {
                assert(levels_at(e, o, init.len())[i] == init[i]);
            }
        }
    }
    assert(levels_at(e, o, s.len()) =~= s);
}

/// Reads the `N` book levels that start at `off`.
pub fn read_levels<const N: usize>(b: &[u8], off: usize) -> (v: [BidAskPair; N])
    requires
        off + 32 * N <= b@.len(),
    ensures
        v@ == levels_at(b@, off as int, N as nat),
        v == array_of::<BidAskPair, N>(levels_at(b@, off as int, N as nat)),
{
    let len = b.len();
    let zero = BidAskPair { bid_px: 0, ask_px: 0, bid_sz: 0, ask_sz: 0, bid_ct: 0, ask_ct: 0 };
    let mut v: [BidAskPair; N] = [zero; N];
    let mut i: usize = 0;
    while i < N
        invariant
            i <= N,
            off + 32 * N <= b@.len(),
            b@.len() == len,
            forall|j: int| 0 <= j < i ==> v@[j] == BidAskPair::at(b@, off + 32 * j),
        decreases N - i,
    {
        let p = BidAskPair::decode(b, off + 32 * i);
        v[i] = p;
        i += 1;
    }
    assert(v@ =~= levels_at(b@, off as int, N as nat));
    proof {
        lemma_array_of::<BidAskPair, N>(v);
    }
    v
}

/// Appends the bytes of `N` book levels to `out`.
pub fn put_levels<const N: usize>(out: &mut Vec<u8>, v: &[BidAskPair; N])
    ensures
        final(out)@ == old(out)@ + levels_le(v@),
{
    let mut i: usize = 0;
    assert(levels_le(v@.take(0)) =~= Seq::<u8>::empty());
    assert(out@ =~= old(out)@ + levels_le(v@.take(0)));
    while i < N
        invariant
            i <= N,
            out@ == old(out)@ + levels_le(v@.take(i as int)),
        decreases N - i,
    {
        let p = v[i];
        let ghost before = out@;
        p.encode(out);
        proof {
            let t = v@.take(i + 1);
            assert(t.drop_last() =~= v@.take(i as int));
            assert(t.last() == v@[i as int]);
            assert(out@ =~= old(out)@ + levels_le(t));
        }
        i += 1;
    }
    assert(v@.take(N as int) =~= v@);
}

/// A schema of the record catalog: a fixed layout that starts with the
/// record header, and the discriminants that select it.
pub trait HasRType: Sized {
    /// Whether a record of this schema may carry the discriminant `rtype`.
    spec fn accepts(rtype: u8) -> bool;

    /// The byte size of the schema's layout.
    spec fn layout_size() -> nat;

    /// The record's header.
    spec fn hd(self) -> RecordHeader;

    /// The record laid out at the start of `b`.
    spec fn from_wire(b: Seq<u8>) -> Self;

    /// The record's layout.
    spec fn to_wire(self) -> Seq<u8>;

    /// Whether a record of this schema may carry the discriminant `rtype`.
    fn has_rtype(rtype: u8) -> (b: bool)
        ensures
            b == Self::accepts(rtype),
    ;

    /// The byte size of the schema's layout.
    fn size() -> (n: usize)
        ensures
            n == Self::layout_size(),
    ;

    /// The record's header.
    fn header(&self) -> (h: &RecordHeader)
        ensures
            *h == self.hd(),
    ;

    /// Reads the record laid out at the start of `b`.
    fn decode(b: &[u8]) -> (r: Self)
        requires
            b@.len() >= Self::layout_size(),
        ensures
            r == Self::from_wire(b@),
    ;

    /// Appends the record's layout to `out`.
    fn encode(&self, out: &mut Vec<u8>)
        ensures
            final(out)@ == old(out)@ + self.to_wire(),
    ;

    /// A layout holds the header, is made of whole units of `length`, and
    /// fits what a header can declare.
    proof fn lemma_size()
        ensures
            HEADER_SIZE <= Self::layout_size() <= MAX_RECORD_SIZE,
            Self::layout_size() % 4 == 0,
    ;

    /// A record's bytes are as many as its layout has, start with its
    /// header, and reading them gives the record back, whatever follows.
    proof fn lemma_layout(r: Self, tail: Seq<u8>)
        ensures
            r.to_wire().len() == Self::layout_size(),
            Self::from_wire(r.to_wire() + tail) == r,
            RecordHeader::from_wire(r.to_wire() + tail) == r.hd(),
    ;

    /// The header of the record laid out in `b` is the header laid out in
    /// `b`.
    proof fn lemma_header(b: Seq<u8>)
        ensures
            Self::from_wire(b).hd() == RecordHeader::from_wire(b),
    ;
}

/// A schema of the catalog itself, which leaves room for a send timestamp
/// behind its layout.
pub trait Plain: HasRType {
    /// The layout and a timestamp fit what a header can declare.
    proof fn lemma_plain()
        ensures
            Self::layout_size() + 8 <= MAX_RECORD_SIZE,
    ;
}

/// A record followed by the timestamp at which the gateway sent it.
#[derive(Clone, Copy, Debug, PartialEq, Eq)]
pub struct WithTsOut<T: Plain> {
    /// The record.
    pub rec: T,
    /// The gateway's send timestamp, in nanoseconds since the UNIX epoch.
    pub ts_out: u64,
}

impl<T: Plain> HasRType for WithTsOut<T> {
    open spec fn accepts(rtype: u8) -> bool {
        T::accepts(rtype)
    }

    open spec fn layout_size() -> nat {
        T::layout_size() + 8
    }

    open spec fn hd(self) -> RecordHeader {
        self.rec.hd()
    }

    open spec fn from_wire(b: Seq<u8>) -> Self {
        WithTsOut { rec: T::from_wire(b), ts_out: u64_at(b, T::layout_size() as int) }
    }

    open spec fn to_wire(self) -> Seq<u8> {
        self.rec.to_wire() + u64_le(self.ts_out)
    }

    fn has_rtype(rtype: u8) -> (b: bool) {
        T::has_rtype(rtype)
    }

    fn size() -> (n: usize) {
        proof {
            T::lemma_plain();
        }
        T::size() + 8
    }

    fn header(&self) -> (h: &RecordHeader) {
        self.rec.header()
    }

    fn decode(b: &[u8]) -> (r: Self) {
        proof {
            T::lemma_plain();
        }
        WithTsOut { rec: T::decode(b), ts_out: read_u64(b, T::size()) }
    }

    fn encode(&self, out: &mut Vec<u8>) {
        self.rec.encode(out);
        put_u64(out, self.ts_out);
    }

    proof fn lemma_size() {
        T::lemma_plain();
        T::lemma_size();
    }

    proof fn lemma_layout(r: Self, tail: Seq<u8>) {
        broadcast use group_wire;

        lemma_wire();
        let e = r.to_wire() + tail;
        T::lemma_layout(r.rec, u64_le(r.ts_out) + tail);
        assert(e =~= r.rec.to_wire() + (u64_le(r.ts_out) + tail));
    }

    proof fn lemma_header(b: Seq<u8>) {
        T::lemma_header(b);
    }
}

/// The zero bytes that follow a record's layout on the wire.
pub open spec fn padding<R: HasRType>(r: R) -> Seq<u8> {
    if r.hd().size() > R::layout_size() {
        zeros((r.hd().size() - R::layout_size()) as nat)
    } else {
        Seq::empty()
    }
}

/// A record on the wire: its layout, then zeros up to the size that its
/// header declares.
pub open spec fn framed<R: HasRType>(r: R) -> Seq<u8> {
    r.to_wire() + padding(r)
}

/// Whether a record can stand in a stream: its discriminant selects its
/// schema, and its header declares room for its layout.
pub open spec fn well_formed<R: HasRType>(r: R) -> bool {
    R::accepts(r.hd().rtype) && r.hd().size() >= R::layout_size()
}

/// The record's bytes on the wire.
pub fn to_bytes<R: HasRType>(r: &R) -> (out: Vec<u8>)
    ensures
        out@ == framed(*r),
{
    let mut out: Vec<u8> = Vec::new();
    r.encode(&mut out);
    let declared = r.header().record_size();
    let size = R::size();
    if declared > size {
        put_zeros(&mut out, declared - size);
    }
    assert(out@ =~= framed(*r));
    out
}

/// A well-formed record takes on the wire the size that its header declares,
/// and reading its bytes gives the record back, whatever follows.
pub proof fn lemma_framed<R: HasRType>(r: R, tail: Seq<u8>)
    requires
        well_formed(r),
    ensures
        framed(r).len() == r.hd().size(),
        R::from_wire(framed(r) + tail) == r,
        RecordHeader::from_wire(framed(r) + tail) == r.hd(),
{
    R::lemma_layout(r, padding(r) + tail);
    assert(framed(r) + tail =~= r.to_wire() + (padding(r) + tail));
}

} // verus!
