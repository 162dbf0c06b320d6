//! The resumable decoder: bytes come in chunks of any size, and each call of
//! `decode` hands out the metadata and the records that are complete so far.
//!
//! `head` says what stands at the start of the unread bytes, `scan` what a
//! pass over them yields, and `decoded` what a call of `decode` does to a
//! decoder. The laws at the end of the file are stated over these.
use crate::error::DbnError;
use crate::metadata::{
    lemma_parse_metadata_stable, parse_metadata, Decoded, Metadata, MetadataParse, MetadataView,
};
use crate::record::{RecordHeader, HEADER_SIZE};
use crate::record_enum::{min_size, record_at, RecordEnum};
use crate::record_ref::RecordRef;
use crate::rtype;
use vstd::prelude::*;
use vstd::slice::{slice_subrange, slice_to_vec};

verus! {

/// What stands at the head of the unread bytes.
#[derive(Clone, Copy, Debug, PartialEq, Eq)]
pub enum Head {
    /// Less than a header, or less than the header declares.
    Incomplete,
    /// A record of a known schema, and its size on the wire.
    Record(RecordEnum, usize),
    /// A record of an unknown schema, and its size on the wire.
    Skipped(usize),
    /// A record that declares less than its schema's layout, or less than
    /// a header.
    Truncated(DbnError),
}

/// The byte size that the header at the start of `b` declares.
pub open spec fn declared(b: Seq<u8>) -> nat {
    4 * (b[0] as nat)
}

/// Whether `b` holds all of the record at its start.
pub open spec fn head_complete(b: Seq<u8>) -> bool {
    b.len() >= HEADER_SIZE && b.len() >= declared(b)
}

/// What stands at the head of `b`.
pub open spec fn head(b: Seq<u8>) -> Head {
    if !head_complete(b) {
        Head::Incomplete
    } else if declared(b) < min_size(b[1]) {
        Head::Truncated(DbnError::TruncatedRecord { rtype: b[1], record_size: declared(b) as usize })
    } else if rtype::known(b[1]) {
        Head::Record(record_at(b.subrange(0, declared(b) as int)), declared(b) as usize)
    } else {
        Head::Skipped(declared(b) as usize)
    }
}

/// Whether the record at the head of `b` can be passed: it is complete and
/// declares at least its schema's layout.
pub open spec fn head_passes(b: Seq<u8>) -> bool {
    head_complete(b) && declared(b) >= min_size(b[1])
}

/// What a pass over unread bytes yields.
pub struct Scan {
    /// The records of known schemas, in the order of the bytes.
    pub records: Seq<RecordEnum>,
    /// The number of bytes that the pass went over.
    pub consumed: nat,
    /// Why the pass stopped, where it stopped at a truncated record.
    pub failure: Option<DbnError>,
}

/// What a pass over `b` yields: it goes from record to record until one is
/// incomplete or truncated.
pub open spec fn scan(b: Seq<u8>) -> Scan
    decreases b.len(),
{
    if !head_complete(b) {
        Scan { records: Seq::empty(), consumed: 0, failure: None }
    } else if declared(b) < min_size(b[1]) {
        Scan {
            records: Seq::empty(),
            consumed: 0,
            failure: Some(
                DbnError::TruncatedRecord { rtype: b[1], record_size: declared(b) as usize },
            ),
        }
    } else {
        let rest = scan(b.skip(declared(b) as int));
        Scan {
            records: if rtype::known(b[1]) {
                seq![record_at(b.subrange(0, declared(b) as int))] + rest.records
            } else {
                rest.records
            },
            consumed: declared(b) + rest.consumed,
            failure: rest.failure,
        }
    }
}

/// Reads what stands at the head of `b`.
pub fn next_record(b: &[u8]) -> (h: Head)
    ensures
        h == head(b@),
{
    if b.len() < HEADER_SIZE {
        return Head::Incomplete;
    }
    let header = RecordHeader::decode(b);
    let size = header.record_size();
    if b.len() < size {
        return Head::Incomplete;
    }
    if size < HEADER_SIZE {
        return Head::Truncated(
            DbnError::TruncatedRecord { rtype: header.rtype, record_size: size },
        );
    }
    let bytes = slice_subrange(b, 0, size);
    let view = RecordRef::new(bytes);
    match view.as_enum() {
        Ok(r) => Head::Record(r, size),
        Err(DbnError::UnknownRecordType { rtype: _ }) => Head::Skipped(size),
        Err(e) => Head::Truncated(e),
    }
}

/// A decoded item: the metadata once, then records.
#[derive(Clone, Debug, PartialEq, Eq)]
pub enum Item {
    /// The metadata of the stream.
    Metadata(Metadata),
    /// A record.
    Record(RecordEnum),
}

/// The mathematical content of an [`Item`].
pub enum ItemView {
    Metadata(MetadataView),
    Record(RecordEnum),
}

impl View for Item {
    type V = ItemView;

    open spec fn view(&self) -> ItemView {
        match self {
            Item::Metadata(m) => ItemView::Metadata(m@),
            Item::Record(r) => ItemView::Record(*r),
        }
    }
}

/// The contents of a list of items.
pub open spec fn item_views(v: Seq<Item>) -> Seq<ItemView> {
    Seq::new(v.len(), |i: int| v[i]@)
}

/// The records of a pass as items.
pub open spec fn record_items(r: Seq<RecordEnum>) -> Seq<ItemView> {
    Seq::new(r.len(), |i: int| ItemView::Record(r[i]))
}

/// A failure of the decoder, with the place in the stream where it stands
/// and what the call had decoded before it.
#[derive(Clone, Debug, PartialEq, Eq)]
pub struct DecodeError {
    /// The offset in the stream of the block or record that failed.
    pub offset: u64,
    /// What failed.
    pub error: DbnError,
    /// The items that the call decoded before the failure, in order.
    pub items: Vec<Item>,
}

/// The mathematical content of a [`DecodeError`].
pub struct Failure {
    pub offset: u64,
    pub error: DbnError,
    pub items: Seq<ItemView>,
}

impl View for DecodeError {
    type V = Failure;

    open spec fn view(&self) -> Failure {
        Failure { offset: self.offset, error: self.error, items: item_views(self.items@) }
    }
}

/// The state of a decoder.
pub struct DecoderView {
    /// The bytes that were written and not yet decoded.
    pub buffer: Seq<u8>,
    /// Whether the metadata was decoded.
    pub has_decoded_metadata: bool,
    /// The offset in the stream of the first byte of `buffer`; it stays at
    /// the largest `u64` once it has reached it.
    pub position: u64,
}

/// `position` moved on by `n` bytes.
pub open spec fn advanced(position: u64, n: nat) -> u64 {
    if position + n > u64::MAX {
        u64::MAX
    } else {
        (position + n) as u64
    }
}

/// A decoder at the start of a stream.
pub open spec fn fresh() -> DecoderView {
    DecoderView { buffer: Seq::empty(), has_decoded_metadata: false, position: 0 }
}

/// The state after `bytes` were written.
pub open spec fn wrote(s: DecoderView, bytes: Seq<u8>) -> DecoderView {
    DecoderView { buffer: s.buffer + bytes, ..s }
}

/// What a call of `decode` does.
pub struct Outcome {
    /// The state after the call.
    pub state: DecoderView,
    /// What the call returns.
    pub result: Result<Seq<ItemView>, Failure>,
}

/// The state after a pass that went over `n` bytes.
pub open spec fn passed(s: DecoderView, n: nat) -> DecoderView {
    DecoderView {
        buffer: s.buffer.skip(n as int),
        has_decoded_metadata: true,
        position: advanced(s.position, n),
    }
}

/// What a call returns that decoded `items` and then stopped at `failure`,
/// with the decoder at `position`: the items where the pass stopped for
/// want of bytes; the failure, with the items, where it stopped at a
/// truncated record.
pub open spec fn ended(position: u64, items: Seq<ItemView>, failure: Option<DbnError>) -> Result<
    Seq<ItemView>,
    Failure,
> {
    match failure {
        Some(error) => Err(Failure { offset: position, error, items }),
        None => Ok(items),
    }
}

/// What a call of `decode` does to a decoder in state `s`.
///
/// Before the metadata: nothing while the block is incomplete; an error,
/// and no change, where it is malformed; else the metadata and the records
/// behind it. After the metadata: the complete records, in order, without
/// those of unknown schemas. A truncated record stops the pass and stays
/// at the head of the buffer: the call that meets it returns the error,
/// which names the record's offset and carries what was decoded before it,
/// and so does every later call.
pub open spec fn decoded(s: DecoderView) -> Outcome {
    if !s.has_decoded_metadata {
        match parse_metadata(s.buffer) {
            MetadataParse::Incomplete => Outcome { state: s, result: Ok(Seq::empty()) },
            MetadataParse::Malformed(kind) => Outcome {
                state: s,
                result: Err(
                    Failure {
                        offset: s.position,
                        error: DbnError::Metadata { kind },
                        items: Seq::empty(),
                    },
                ),
            },
            MetadataParse::Complete(m, n) => {
                let pass = scan(s.buffer.skip(n as int));
                let state = passed(s, n + pass.consumed);
                Outcome {
                    state,
                    result: ended(
                        state.position,
                        seq![ItemView::Metadata(m)] + record_items(pass.records),
                        pass.failure,
                    ),
                }
            },
        }
    } else {
        let pass = scan(s.buffer);
        let state = passed(s, pass.consumed);
        Outcome { state, result: ended(state.position, record_items(pass.records), pass.failure) }
    }
}

/// The items that a call handed out, in its result or in its error.
pub open spec fn items_of(r: Result<Seq<ItemView>, Failure>) -> Seq<ItemView> {
    match r {
        Ok(v) => v,
        Err(f) => f.items,
    }
}

/// The content of what `decode` returns.
pub open spec fn result_view(r: Result<Vec<Item>, DecodeError>) -> Result<Seq<ItemView>, Failure> {
    match r {
        Ok(v) => Ok(item_views(v@)),
        Err(e) => Err(e@),
    }
}

/// A decoder for one stream. It owns the bytes that were written to it and
/// not yet decoded.
#[derive(Debug)]
pub struct DbnDecoder {
    buffer: Vec<u8>,
    has_decoded_metadata: bool,
    position: u64,
}

impl View for DbnDecoder {
    type V = DecoderView;

    closed spec fn view(&self) -> DecoderView {
        DecoderView {
            buffer: self.buffer@,
            has_decoded_metadata: self.has_decoded_metadata,
            position: self.position,
        }
    }
}

impl DbnDecoder {
    /// A decoder at the start of a stream: nothing written, the metadata
    /// awaited.
    pub fn new() -> (d: DbnDecoder)
        ensures
            d@ == fresh(),
    {
        DbnDecoder { buffer: Vec::new(), has_decoded_metadata: false, position: 0 }
    }

    /// Appends `bytes` to the buffer, and looks at none of them.
    pub fn write(&mut self, bytes: &[u8])
        ensures
            final(self)@ == wrote(old(self)@, bytes@),
    {
        let mut chunk = slice_to_vec(bytes);
        self.buffer.append(&mut chunk);
    }

    /// The bytes that were written and not yet decoded.
    pub fn buffer(&self) -> (b: &[u8])
        ensures
            b@ == self@.buffer,
    {
        self.buffer.as_slice()
    }

    /// Whether the metadata was decoded.
    pub fn has_decoded_metadata(&self) -> (b: bool)
        ensures
            b == self@.has_decoded_metadata,
    {
        self.has_decoded_metadata
    }

    /// The offset in the stream of the first byte of the buffer.
    pub fn position(&self) -> (p: u64)
        ensures
            p == self@.position,
    {
        self.position
    }

    /// Drops the first `n` bytes of the buffer, so that the unread bytes
    /// start it, and moves the position on by `n`.
    fn compact(&mut self, n: usize)
        requires
            n <= old(self)@.buffer.len(),
        ensures
            final(self)@.buffer == old(self)@.buffer.skip(n as int),
            final(self)@.position == advanced(old(self)@.position, n as nat),
            final(self)@.has_decoded_metadata == old(self)@.has_decoded_metadata,
    {
        let rest = self.buffer.split_off(n);
        self.buffer = rest;
        self.position = self.position.saturating_add(n as u64);
        assert(self.buffer@ =~= old(self)@.buffer.skip(n as int));
    }

    /// Goes over the buffer from `from`, record by record, until a record is
    /// incomplete or truncated: see [`scan`]. Adds the records of known
    /// schemas to `items`; returns the offset at which the pass stopped,
    /// and the failure where it stopped at a truncated record.
    fn pass(&self, from: usize, items: &mut Vec<Item>) -> (r: (usize, Option<DbnError>))
        requires
            from <= self@.buffer.len(),
        ensures
            item_views(final(items)@) == item_views(old(items)@) + record_items(
                scan(self@.buffer.skip(from as int)).records,
            ),
            r.0 == from + scan(self@.buffer.skip(from as int)).consumed,
            r.0 <= self@.buffer.len(),
            r.1 == scan(self@.buffer.skip(from as int)).failure,
    {
        let total = self.buffer.len();
        let ghost whole = self.buffer@;
        let ghost goal = scan(whole.skip(from as int));
        let ghost first = item_views(items@);
        let mut pos: usize = from;
        loop
            invariant
                from <= pos <= total,
                total == whole.len(),
                whole == self.buffer@,
                goal == scan(whole.skip(from as int)),
                first == item_views(old(items)@),
                item_views(items@) + record_items(scan(whole.skip(pos as int)).records) == first
                    + record_items(goal.records),
                pos + scan(whole.skip(pos as int)).consumed == from + goal.consumed,
                scan(whole.skip(pos as int)).failure == goal.failure,
            decreases total - pos,
        {
            let rest = slice_subrange(self.buffer.as_slice(), pos, total);
            let ghost before = item_views(items@);
            let ghost here = scan(rest@);
            match next_record(rest) {
                Head::Incomplete => {
                    assert(record_items(here.records) =~= Seq::empty());
                    assert(before + record_items(here.records) =~= before);
                    return (pos, None);
                },
                Head::Truncated(e) => {
                    assert(record_items(here.records) =~= Seq::empty());
                    assert(before + record_items(here.records) =~= before);
                    return (pos, Some(e));
                },
                Head::Record(r, n) => {
                    items.push(Item::Record(r));
                    proof {
                        assert(rest@.skip(n as int) =~= whole.skip(pos + n));
                        let next = scan(whole.skip(pos + n));
                        assert(item_views(items@) + record_items(next.records) =~= before
                            + record_items(here.records));
                    }
                    pos = pos + n;
                },
                Head::Skipped(n) => {
                    assert(rest@.skip(n as int) =~= whole.skip(pos + n));
                    pos = pos + n;
                },
            }
        }
    }

    /// Hands out what is complete in the buffer, and keeps the rest for the
    /// next call: see [`decoded`].
    pub fn decode(&mut self) -> (r: Result<Vec<Item>, DecodeError>)
        ensures
            final(self)@ == decoded(old(self)@).state,
            result_view(r) == decoded(old(self)@).result,
    {
        let mut items: Vec<Item> = Vec::new();
        let mut from: usize = 0;
        assert(item_views(items@) =~= Seq::empty());
        if !self.has_decoded_metadata {
            match Metadata::decode(self.buffer.as_slice()) {
                Decoded::Incomplete => {
                    return Ok(items);
                },
                Decoded::Malformed(kind) => {
                    return Err(
                        DecodeError {
                            offset: self.position,
                            error: DbnError::Metadata { kind },
                            items,
                        },
                    );
                },
                Decoded::Complete(m, n) => {
                    items.push(Item::Metadata(m));
                    assert(item_views(items@) =~= seq![ItemView::Metadata(m@)]);
                    self.has_decoded_metadata = true;
                    from = n;
                },
            }
        }
        let ghost records = scan(self@.buffer.skip(from as int)).records;
        let (to, failure) = self.pass(from, &mut items);
        self.compact(to);
        proof {
            assert(old(self)@.buffer.skip(0) =~= old(self)@.buffer);
            if old(self)@.has_decoded_metadata {
                assert(Seq::<ItemView>::empty() + record_items(records) =~= record_items(records));
            }
        }
        match failure {
            Some(error) => Err(DecodeError { offset: self.position, error, items }),
            None => Ok(items),
        }
    }
}

/// A pass stays within the bytes, and stops where no record can be passed.
pub proof fn lemma_scan_bounds(b: Seq<u8>)
    ensures
        scan(b).consumed <= b.len(),
        !head_passes(b.skip(scan(b).consumed as int)),
        scan(b).failure is Some <==> head(b.skip(scan(b).consumed as int)) is Truncated,
        scan(b).failure is Some ==> head(b.skip(scan(b).consumed as int)) == Head::Truncated(
            scan(b).failure->Some_0,
        ),
    decreases b.len(),
{
    if head_passes(b) {
        let n = declared(b) as int;
        crate::record_enum::lemma_min_size(b[1]);
        lemma_scan_bounds(b.skip(n));
        assert(b.skip(n).skip(scan(b.skip(n)).consumed as int) =~= b.skip(
            scan(b).consumed as int,
        ));
    } else {
        assert(b.skip(0) =~= b);
    }
}

/// Once the record at the head is complete, the bytes that follow change
/// nothing of what stands there.
pub proof fn lemma_head_stable(b: Seq<u8>, tail: Seq<u8>)
    requires
        head_complete(b),
    ensures
        head_complete(b + tail),
        declared(b + tail) == declared(b),
        head(b + tail) == head(b),
        (b + tail).skip(declared(b) as int) == b.skip(declared(b) as int) + tail,
{
    let e = b + tail;
    let n = declared(b) as int;
    assert(e.subrange(0, n) =~= b.subrange(0, n));
    assert(e.skip(n) =~= b.skip(n) + tail);
}

/// A pass over bytes with more bytes behind them is the pass over the
/// bytes, followed by a pass over what that one left and the further bytes.
pub proof fn lemma_scan_split(x: Seq<u8>, c: Seq<u8>)
    ensures
        ({
            let first = scan(x);
            let second = scan(x.skip(first.consumed as int) + c);
            let whole = scan(x + c);
            &&& first.consumed <= x.len()
            &&& whole.records == first.records + second.records
            &&& whole.consumed == first.consumed + second.consumed
            &&& whole.failure == second.failure
            &&& first.failure is Some ==> second.records.len() == 0 && second.consumed == 0
                && second.failure == first.failure
        }),
    decreases x.len(),
{
    let first = scan(x);
    let second = scan(x.skip(first.consumed as int) + c);
    let whole = scan(x + c);
    lemma_scan_bounds(x);
    if !head_complete(x) {
        assert(x.skip(0) + c =~= x + c);
        assert(first.records + second.records =~= second.records);
    } else {
        lemma_head_stable(x, c);
        let n = declared(x) as int;
        if declared(x) < min_size(x[1]) {
            assert(x.skip(0) + c =~= x + c);
            assert(first.records + second.records =~= second.records);
        } else {
            crate::record_enum::lemma_min_size(x[1]);
            let y = x.skip(n);
            lemma_scan_split(y, c);
            lemma_scan_bounds(y);
            assert(x.skip(first.consumed as int) =~= y.skip(scan(y).consumed as int));
            assert((x + c).subrange(0, n) =~= x.subrange(0, n));
            if rtype::known(x[1]) {
                let r = seq![record_at(x.subrange(0, n))];
                assert(whole.records =~= r + scan(y + c).records);
                assert(first.records =~= r + scan(y).records);
                assert(whole.records =~= first.records + second.records);
            }
        }
    }
}

/// Moving a position on twice is moving it on by the sum.
pub proof fn lemma_advanced(position: u64, m: nat, n: nat)
    ensures
        advanced(advanced(position, m), n) == advanced(position, m + n),
{
}

/// Dropping bytes from a sequence and then from what follows it is dropping
/// them from the whole.
pub proof fn lemma_skip_skip(b: Seq<u8>, c: Seq<u8>, i: nat, j: nat)
    requires
        i <= b.len(),
        j <= b.len() - i + c.len(),
    ensures
        (b.skip(i as int) + c).skip(j as int) == (b + c).skip((i + j) as int),
{
    assert((b.skip(i as int) + c).skip(j as int) =~= (b + c).skip((i + j) as int));
}

/// The items of two runs of records, one after the other.
pub proof fn lemma_record_items_add(p: Seq<RecordEnum>, q: Seq<RecordEnum>)
    ensures
        record_items(p + q) == record_items(p) + record_items(q),
        record_items(p).len() == p.len(),
{
    assert(record_items(p + q) =~= record_items(p) + record_items(q));
}

/// The law of [`lemma_chunking`] for a decoder that is past the metadata.
proof fn lemma_chunking_records(s: DecoderView, a: Seq<u8>, c: Seq<u8>)
    requires
        s.has_decoded_metadata,
    ensures
        ({
            let first = decoded(wrote(s, a));
            let second = decoded(wrote(first.state, c));
            let whole = decoded(wrote(s, a + c));
            &&& second.state == whole.state
            &&& items_of(first.result) + items_of(second.result) == items_of(whole.result)
        }),
{
    let b = s.buffer + a;
    let left = scan(b);
    let x = b.skip(left.consumed as int);
    let right = scan(x + c);
    let both = scan(b + c);
    let first = decoded(wrote(s, a));
    let second = decoded(wrote(first.state, c));
    let whole = decoded(wrote(s, a + c));
    assert(wrote(s, a + c).buffer == b + c) by {
        assert(s.buffer + (a + c) =~= b + c);
    }
    lemma_scan_split(b, c);
    lemma_scan_bounds(b);
    lemma_scan_bounds(x + c);
    lemma_skip_skip(b, c, left.consumed, right.consumed);
    lemma_advanced(s.position, left.consumed, right.consumed);
    lemma_record_items_add(left.records, right.records);
    lemma_record_items_add(right.records, left.records);
    assert(first.state.buffer == x);
    assert(wrote(first.state, c).buffer == x + c);
    assert(second.state == whole.state);
    if left.failure is Some {
        assert(both.records =~= left.records);
        assert(items_of(first.result) + items_of(second.result) =~= items_of(first.result));
    }
}

/// The law of [`lemma_chunking`] for a decoder that awaits the metadata.
proof fn lemma_chunking_metadata(s: DecoderView, a: Seq<u8>, c: Seq<u8>)
    requires
        !s.has_decoded_metadata,
    ensures
        ({
            let first = decoded(wrote(s, a));
            let second = decoded(wrote(first.state, c));
            let whole = decoded(wrote(s, a + c));
            &&& second.state == whole.state
            &&& items_of(first.result) + items_of(second.result) == items_of(whole.result)
        }),
{
    let b = s.buffer + a;
    let first = decoded(wrote(s, a));
    let second = decoded(wrote(first.state, c));
    let whole = decoded(wrote(s, a + c));
    assert(wrote(s, a + c).buffer == b + c) by {
        assert(s.buffer + (a + c) =~= b + c);
    }
    match parse_metadata(b) {
        MetadataParse::Incomplete => {
            assert(wrote(first.state, c) == wrote(s, a + c));
            assert(items_of(first.result) + items_of(second.result) =~= items_of(whole.result));
        },
        MetadataParse::Malformed(kind) => {
            lemma_parse_metadata_stable(b, c);
            assert(items_of(first.result) + items_of(second.result) =~= items_of(whole.result));
        },
        MetadataParse::Complete(m, n) => {
            lemma_parse_metadata_stable(b, c);
            assert(n <= b.len());
            let y = b.skip(n as int);
            let left = scan(y);
            let x = y.skip(left.consumed as int);
            let right = scan(x + c);
            let both = scan(y + c);
            assert((b + c).skip(n as int) == y + c) by {
                assert((b + c).skip(n as int) =~= y + c);
            }
            lemma_scan_split(y, c);
            lemma_scan_bounds(y);
            lemma_scan_bounds(x + c);
            assert(first.state.buffer == x) by {
                assert(b.skip((n + left.consumed) as int) =~= x);
            }
            assert(wrote(first.state, c).buffer == x + c);
            lemma_skip_skip(b, c, n + left.consumed, right.consumed);
            lemma_advanced(s.position, n + left.consumed, right.consumed);
            lemma_record_items_add(left.records, right.records);
            lemma_record_items_add(right.records, left.records);
            assert(b.skip((n + left.consumed) as int) =~= x);
            assert(second.state == whole.state);
            let head = seq![ItemView::Metadata(m)];
            assert(items_of(whole.result) == head + record_items(both.records));
            assert(items_of(first.result) == head + record_items(left.records));
            assert(items_of(second.result) == record_items(right.records));
            assert((head + record_items(left.records)) + record_items(right.records) =~= head + (
            record_items(left.records) + record_items(right.records)));
        },
    }
}

/// Decoding after each of two writes hands out, in the same order, what
/// decoding after one write of all the bytes hands out, and leaves the
/// decoder in the same state: nothing is lost at the seam and nothing comes
/// twice.
pub proof fn lemma_chunking(s: DecoderView, a: Seq<u8>, c: Seq<u8>)
    ensures
        ({
            let first = decoded(wrote(s, a));
            let second = decoded(wrote(first.state, c));
            let whole = decoded(wrote(s, a + c));
            &&& second.state == whole.state
            &&& items_of(first.result) + items_of(second.result) == items_of(whole.result)
        }),
{
    if s.has_decoded_metadata {
        lemma_chunking_records(s, a, c);
    } else {
        lemma_chunking_metadata(s, a, c);
    }
}

/// The bytes of a run of chunks, one after the other.
pub open spec fn joined(chunks: Seq<Seq<u8>>) -> Seq<u8>
    decreases chunks.len(),
{
    if chunks.len() == 0 {
        Seq::empty()
    } else {
        joined(chunks.drop_last()) + chunks.last()
    }
}

/// What a decoder in state `s` comes to, and hands out in all, when each
/// chunk is written and decoded in turn.
pub open spec fn fed(s: DecoderView, chunks: Seq<Seq<u8>>) -> (DecoderView, Seq<ItemView>)
    decreases chunks.len(),
{
    if chunks.len() == 0 {
        (s, Seq::empty())
    } else {
        let before = fed(s, chunks.drop_last());
        let step = decoded(wrote(before.0, chunks.last()));
        (step.state, before.1 + items_of(step.result))
    }
}

/// However a byte stream is cut into chunks, down to single bytes, writing
/// and decoding chunk by chunk hands out what one write and one decode of
/// the whole stream hand out, in the same order.
pub proof fn lemma_chunks(s: DecoderView, chunks: Seq<Seq<u8>>)
    requires
        chunks.len() > 0,
    ensures
        fed(s, chunks).0 == decoded(wrote(s, joined(chunks))).state,
        fed(s, chunks).1 == items_of(decoded(wrote(s, joined(chunks))).result),
    decreases chunks.len(),
{
    let init = chunks.drop_last();
    let last = chunks.last();
    if init.len() == 0 {
        assert(joined(init) =~= Seq::<u8>::empty());
        assert(joined(chunks) =~= last);
        assert(fed(s, init) == (s, Seq::<ItemView>::empty()));
        assert(Seq::<ItemView>::empty() + items_of(decoded(wrote(s, last)).result) =~= items_of(
            decoded(wrote(s, last)).result,
        ));
    } else {
        lemma_chunks(s, init);
        lemma_chunking(s, joined(init), last);
    }
}

/// The bytes of a run of records, one after the other.
pub open spec fn wire_of(records: Seq<RecordEnum>) -> Seq<u8>
    decreases records.len(),
{
    if records.len() == 0 {
        Seq::empty()
    } else {
        records.first().framed() + wire_of(records.drop_first())
    }
}

/// A pass over the bytes of well-formed records yields those records, in
/// order, and goes on with what follows them.
pub proof fn lemma_scan_wire(records: Seq<RecordEnum>, tail: Seq<u8>)
    requires
        forall|i: int| 0 <= i < records.len() ==> (#[trigger] records[i]).well_formed(),
    ensures
        scan(wire_of(records) + tail).records == records + scan(tail).records,
        scan(wire_of(records) + tail).consumed == wire_of(records).len() + scan(tail).consumed,
        scan(wire_of(records) + tail).failure == scan(tail).failure,
    decreases records.len(),
{
    if records.len() == 0 {
        assert(wire_of(records) + tail =~= tail);
        assert(records + scan(tail).records =~= scan(tail).records);
    } else {
        let r = records.first();
        let rest = records.drop_first();
        let b = wire_of(records) + tail;
        let f = r.framed();
        assert(r.well_formed());
        RecordEnum::lemma_framed(r, wire_of(rest) + tail);
        RecordEnum::lemma_framed(r, Seq::empty());
        crate::record_enum::lemma_min_size(r.hd().rtype);
        assert(b =~= f + (wire_of(rest) + tail));
        assert(b[0] == r.hd().length && b[1] == r.hd().rtype);
        assert(declared(b) == f.len());
        assert(b.subrange(0, declared(b) as int) =~= f + Seq::<u8>::empty());
        assert(b.skip(declared(b) as int) =~= wire_of(rest) + tail);
        assert forall|i: int| 0 <= i < rest.len() implies (#[trigger] rest[i]).well_formed() by {
            assert(rest[i] == records[i + 1]);
        }
        lemma_scan_wire(rest, tail);
        assert(seq![r] + (rest + scan(tail).records) =~= records + scan(tail).records);
    }
}

/// A decoder that is past the metadata and has nothing unread.
pub open spec fn awaits_records(s: DecoderView) -> bool {
    s.has_decoded_metadata && s.buffer.len() == 0
}

/// The bytes of well-formed records, cut into chunks however small and
/// decoded chunk by chunk, give those records back: each once, in order.
pub proof fn lemma_records_survive_chunking(
    s: DecoderView,
    records: Seq<RecordEnum>,
    chunks: Seq<Seq<u8>>,
)
    requires
        awaits_records(s),
        forall|i: int| 0 <= i < records.len() ==> (#[trigger] records[i]).well_formed(),
        chunks.len() > 0,
        joined(chunks) == wire_of(records),
    ensures
        fed(s, chunks).1 == record_items(records),
        awaits_records(fed(s, chunks).0),
{
    lemma_chunks(s, chunks);
    let b = wire_of(records);
    lemma_scan_wire(records, Seq::empty());
    assert(s.buffer + b =~= b + Seq::<u8>::empty());
    assert(s.buffer + b =~= b);
    assert(scan(Seq::<u8>::empty()).records =~= Seq::<RecordEnum>::empty());
    assert(records + Seq::<RecordEnum>::empty() =~= records);
}

/// Where the bytes of one well-formed record come in two writes, the first
/// decode hands out nothing, and the second hands out the record.
pub proof fn lemma_split_record(s: DecoderView, r: RecordEnum, k: int)
    requires
        awaits_records(s),
        r.well_formed(),
        0 <= k < r.framed().len(),
    ensures
        ({
            let first = decoded(wrote(s, r.framed().take(k)));
            let second = decoded(wrote(first.state, r.framed().skip(k)));
            &&& first.result == Ok::<Seq<ItemView>, Failure>(Seq::empty())
            &&& second.result == Ok::<Seq<ItemView>, Failure>(seq![ItemView::Record(r)])
        }),
{
    let f = r.framed();
    let a = f.take(k);
    let c = f.skip(k);
    let first = decoded(wrote(s, a));
    let second = decoded(wrote(first.state, c));
    RecordEnum::lemma_framed(r, Seq::empty());
    crate::record_enum::lemma_min_size(r.hd().rtype);
    assert(f + Seq::<u8>::empty() =~= f);
    assert(s.buffer + a =~= a);
    if k >= 16 {
        assert(a[0] == f[0] && a[1] == f[1]);
        assert(declared(a) == f.len());
    }
    assert(!head_complete(a));
    assert(record_items(scan(a).records) =~= Seq::empty());
    assert(a.skip(0) =~= a);
    assert(first.state.buffer + c =~= f);
    lemma_scan_wire(seq![r], Seq::empty());
    assert(seq![r].drop_first() =~= Seq::<RecordEnum>::empty());
    assert(wire_of(seq![r]) =~= f) by {
        reveal_with_fuel(wire_of, 2);
    }
    assert(wire_of(seq![r]) + Seq::<u8>::empty() =~= f);
    assert(scan(Seq::<u8>::empty()).records =~= Seq::<RecordEnum>::empty());
    assert(scan(f).records =~= seq![r]);
    assert(record_items(seq![r]) =~= seq![ItemView::Record(r)]);
}

/// A complete record of an unknown schema is passed over: the pass yields
/// what it yields of the bytes behind the record.
pub proof fn lemma_unknown_skipped(u: Seq<u8>, rest: Seq<u8>)
    requires
        u.len() >= HEADER_SIZE,
        u.len() == declared(u),
        !rtype::known(u[1]),
    ensures
        scan(u + rest).records == scan(rest).records,
        scan(u + rest).consumed == u.len() + scan(rest).consumed,
        scan(u + rest).failure == scan(rest).failure,
{
    lemma_head_stable(u, rest);
    assert((u + rest).skip(u.len() as int) =~= rest);
}

/// A record that declares less than its schema's layout stops the pass: no
/// record behind it is decoded.
pub proof fn lemma_truncated_stops(t: Seq<u8>, rest: Seq<u8>)
    requires
        head(t) is Truncated,
    ensures
        scan(t + rest).records.len() == 0,
        scan(t + rest).consumed == 0,
        scan(t + rest).failure == Some(head(t)->Truncated_0),
{
    lemma_head_stable(t, rest);
}

/// A decoder that awaits records and finds a truncated record first fails,
/// and names the record's offset in the stream.
pub proof fn lemma_truncated_fails(s: DecoderView, t: Seq<u8>, rest: Seq<u8>)
    requires
        awaits_records(s),
        head(t) is Truncated,
    ensures
        decoded(wrote(s, t + rest)).result == Err::<Seq<ItemView>, Failure>(
            Failure { offset: s.position, error: head(t)->Truncated_0, items: Seq::empty() },
        ),
{
    lemma_truncated_stops(t, rest);
    assert(s.buffer + (t + rest) =~= t + rest);
    assert(record_items(Seq::<RecordEnum>::empty()) =~= Seq::<ItemView>::empty());
    assert(scan(t + rest).records =~= Seq::<RecordEnum>::empty());
}

/// The call that meets a truncated record reports it, whatever it decoded
/// before: behind well-formed records, the error names the truncated
/// record's offset and carries those records; neither the truncated record
/// nor anything behind it is decoded.
pub proof fn lemma_truncated_reported(
    s: DecoderView,
    records: Seq<RecordEnum>,
    t: Seq<u8>,
    rest: Seq<u8>,
)
    requires
        awaits_records(s),
        forall|i: int| 0 <= i < records.len() ==> (#[trigger] records[i]).well_formed(),
        head(t) is Truncated,
    ensures
        decoded(wrote(s, wire_of(records) + t + rest)).result == Err::<Seq<ItemView>, Failure>(
            Failure {
                offset: advanced(s.position, wire_of(records).len()),
                error: head(t)->Truncated_0,
                items: record_items(records),
            },
        ),
{
    lemma_truncated_stops(t, rest);
    lemma_scan_wire(records, t + rest);
    assert(s.buffer + (wire_of(records) + t + rest) =~= wire_of(records) + (t + rest));
    assert(scan(t + rest).records =~= Seq::<RecordEnum>::empty());
    assert(records + Seq::<RecordEnum>::empty() =~= records);
}

/// The same from the start of a stream: the call that meets a truncated
/// record behind the metadata and well-formed records reports it, and
/// carries the metadata and those records.
pub proof fn lemma_truncated_stream_reported(
    m: MetadataView,
    records: Seq<RecordEnum>,
    t: Seq<u8>,
    rest: Seq<u8>,
)
    requires
        crate::metadata::encode::encodable(m),
        forall|i: int| 0 <= i < records.len() ==> (#[trigger] records[i]).well_formed(),
        head(t) is Truncated,
    ensures
        decoded(
            wrote(fresh(), crate::metadata::encode::metadata_wire(m) + wire_of(records) + t + rest),
        ).result == Err::<Seq<ItemView>, Failure>(
            Failure {
                offset: advanced(
                    0,
                    crate::metadata::encode::metadata_wire(m).len() + wire_of(records).len(),
                ),
                error: head(t)->Truncated_0,
                items: seq![ItemView::Metadata(m)] + record_items(records),
            },
        ),
{
    let block = crate::metadata::encode::metadata_wire(m);
    let behind = wire_of(records) + (t + rest);
    let b = block + wire_of(records) + t + rest;
    crate::metadata::encode::lemma_metadata_round_trip(m, behind);
    lemma_truncated_stops(t, rest);
    lemma_scan_wire(records, t + rest);
    assert(fresh().buffer + b =~= block + behind);
    assert((block + behind).skip(block.len() as int) =~= behind);
    assert(scan(t + rest).records =~= Seq::<RecordEnum>::empty());
    assert(records + Seq::<RecordEnum>::empty() =~= records);
}

/// A failure is final: once `decode` has failed, it fails in the same way,
/// at the same offset, after every further write, and hands out nothing
/// more.
pub proof fn lemma_failure_is_final(s: DecoderView, c: Seq<u8>)
    requires
        decoded(s).result is Err,
    ensures
        decoded(wrote(decoded(s).state, c)).result == Err::<Seq<ItemView>, Failure>(
            Failure {
                offset: decoded(s).result->Err_0.offset,
                error: decoded(s).result->Err_0.error,
                items: Seq::empty(),
            },
        ),
        decoded(wrote(decoded(s).state, c)).state == wrote(decoded(s).state, c),
{
    let after = decoded(s).state;
    assert(record_items(Seq::<RecordEnum>::empty()) =~= Seq::<ItemView>::empty());
    if !s.has_decoded_metadata {
        match parse_metadata(s.buffer) {
            MetadataParse::Complete(m, n) => {
                let y = s.buffer.skip(n as int);
                lemma_scan_bounds(y);
                let x = y.skip(scan(y).consumed as int);
                assert(after.buffer =~= x);
                lemma_truncated_stops(x, c);
                assert((x + c).skip(0) =~= x + c);
                assert(scan(x + c).records =~= Seq::<RecordEnum>::empty());
            },
            _ => {
                lemma_parse_metadata_stable(s.buffer, c);
            },
        }
    } else {
        lemma_scan_bounds(s.buffer);
        let x = s.buffer.skip(scan(s.buffer).consumed as int);
        lemma_truncated_stops(x, c);
        assert((x + c).skip(0) =~= x + c);
        assert(scan(x + c).records =~= Seq::<RecordEnum>::empty());
    }
}

/// A whole stream, the block of its metadata and then the bytes of its
/// well-formed records, cut into chunks however small and decoded chunk by
/// chunk from the start, gives the metadata and then the records back: each
/// once, in order.
pub proof fn lemma_stream_survives_chunking(
    m: MetadataView,
    records: Seq<RecordEnum>,
    chunks: Seq<Seq<u8>>,
)
    requires
        crate::metadata::encode::encodable(m),
        forall|i: int| 0 <= i < records.len() ==> (#[trigger] records[i]).well_formed(),
        chunks.len() > 0,
        joined(chunks) == crate::metadata::encode::metadata_wire(m) + wire_of(records),
    ensures
        fed(fresh(), chunks).1 == seq![ItemView::Metadata(m)] + record_items(records),
        awaits_records(fed(fresh(), chunks).0),
{
    let block = crate::metadata::encode::metadata_wire(m);
    let b = block + wire_of(records);
    lemma_chunks(fresh(), chunks);
    crate::metadata::encode::lemma_metadata_round_trip(m, wire_of(records));
    lemma_scan_wire(records, Seq::empty());
    assert(fresh().buffer + b =~= b);
    assert(b.skip(block.len() as int) =~= wire_of(records) + Seq::<u8>::empty());
    assert(scan(Seq::<u8>::empty()).records =~= Seq::<RecordEnum>::empty());
    assert(records + Seq::<RecordEnum>::empty() =~= records);
    assert(b.skip(b.len() as int) =~= Seq::<u8>::empty());
}

} // verus!
