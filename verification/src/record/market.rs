//! The schemas of order, trade, book and bar records.
use crate::record::{
    BidAskPair, HasRType, lemma_levels, levels_at, levels_le, Plain, put_levels, read_levels,
    RecordHeader,
};
use crate::rtype;
use crate::wire::{
    array_of, group_wire, i32_at, i32_le, i64_at, i64_le, i8_at, i8_le, lemma_array_of,
    lemma_wire, put_i32, put_i64, put_i8, put_u32, put_u64, put_u8, read_i32, read_i64, read_i8,
    read_u32, read_u64, read_u8, u32_at, u32_le, u64_at, u64_le, u8_at, u8_le,
};
use vstd::prelude::*;

verus! {

/// A market-by-order record: one event of one order.
#[derive(Clone, Copy, Debug, PartialEq, Eq)]
pub struct MboMsg {
    /// The common header.
    pub hd: RecordHeader,
    /// The venue's identifier of the order.
    pub order_id: u64,
    /// The order price, in units of 1e-9.
    pub price: i64,
    /// The order quantity.
    pub size: u32,
    /// A bit field of event and quality flags.
    pub flags: u8,
    /// The channel that the venue sent the event on.
    pub channel_id: u8,
    /// The event action.
    pub action: i8,
    /// The side of the order.
    pub side: i8,
    /// The capture-server timestamp, in nanoseconds since the UNIX epoch.
    pub ts_recv: u64,
    /// The delay from the venue to the capture server, in nanoseconds.
    pub ts_in_delta: i32,
    /// The venue's message sequence number.
    pub sequence: u32,
}

impl HasRType for MboMsg {
    open spec fn accepts(rtype: u8) -> bool {
        rtype == rtype::MBO
    }

    open spec fn layout_size() -> nat {
        56
    }

    open spec fn hd(self) -> RecordHeader {
        self.hd
    }

    open spec fn from_wire(b: Seq<u8>) -> Self {
        MboMsg {
            hd: RecordHeader::from_wire(b),
            order_id: u64_at(b, 16),
            price: i64_at(b, 24),
            size: u32_at(b, 32),
            flags: u8_at(b, 36),
            channel_id: u8_at(b, 37),
            action: i8_at(b, 38),
            side: i8_at(b, 39),
            ts_recv: u64_at(b, 40),
            ts_in_delta: i32_at(b, 48),
            sequence: u32_at(b, 52),
        }
    }

    open spec fn to_wire(self) -> Seq<u8> {
        self.hd.to_wire() + u64_le(self.order_id) + i64_le(self.price) + u32_le(self.size)
            + u8_le(self.flags) + u8_le(self.channel_id) + i8_le(self.action) + i8_le(self.side)
            + u64_le(self.ts_recv) + i32_le(self.ts_in_delta) + u32_le(self.sequence)
    }

    fn has_rtype(rtype: u8) -> (b: bool) {
        rtype == rtype::MBO
    }

    fn size() -> (n: usize) {
        56
    }

    fn header(&self) -> (h: &RecordHeader) {
        &self.hd
    }

    fn decode(b: &[u8]) -> (r: Self) {
        MboMsg {
            hd: RecordHeader::decode(b),
            order_id: read_u64(b, 16),
            price: read_i64(b, 24),
            size: read_u32(b, 32),
            flags: read_u8(b, 36),
            channel_id: read_u8(b, 37),
            action: read_i8(b, 38),
            side: read_i8(b, 39),
            ts_recv: read_u64(b, 40),
            ts_in_delta: read_i32(b, 48),
            sequence: read_u32(b, 52),
        }
    }

    fn encode(&self, out: &mut Vec<u8>) {
        self.hd.encode(out);
        put_u64(out, self.order_id);
        put_i64(out, self.price);
        put_u32(out, self.size);
        put_u8(out, self.flags);
        put_u8(out, self.channel_id);
        put_i8(out, self.action);
        put_i8(out, self.side);
        put_u64(out, self.ts_recv);
        put_i32(out, self.ts_in_delta);
        put_u32(out, self.sequence);
    }

    proof fn lemma_size() {
    }

    proof fn lemma_layout(r: Self, tail: Seq<u8>) {
        broadcast use group_wire;

        lemma_wire();
        RecordHeader::lemma_layout(r.hd, Seq::empty());
        let e = r.to_wire() + tail;
    }

    proof fn lemma_header(b: Seq<u8>) {
    }
}

impl Plain for MboMsg {
    proof fn lemma_plain() {
    }
}

/// A trade, with no book levels.
#[derive(Clone, Copy, Debug, PartialEq, Eq)]
pub struct TradeMsg {
    /// The common header.
    pub hd: RecordHeader,
    /// The price, in units of 1e-9.
    pub price: i64,
    /// The quantity.
    pub size: u32,
    /// The event action.
    pub action: i8,
    /// The side that started the event.
    pub side: i8,
    /// A bit field of event and quality flags.
    pub flags: u8,
    /// The depth of the book level that changed.
    pub depth: u8,
    /// The capture-server timestamp, in nanoseconds since the UNIX epoch.
    pub ts_recv: u64,
    /// The delay from the venue to the capture server, in nanoseconds.
    pub ts_in_delta: i32,
    /// The venue's message sequence number.
    pub sequence: u32,
    /// The top of the book, one pair for each depth.
    pub booklevel: [BidAskPair; 0],
}

impl HasRType for TradeMsg {
    open spec fn accepts(rtype: u8) -> bool {
        rtype == rtype::MBP_0
    }

    open spec fn layout_size() -> nat {
        48
    }

    open spec fn hd(self) -> RecordHeader {
        self.hd
    }

    open spec fn from_wire(b: Seq<u8>) -> Self {
        TradeMsg {
            hd: RecordHeader::from_wire(b),
            price: i64_at(b, 16),
            size: u32_at(b, 24),
            action: i8_at(b, 28),
            side: i8_at(b, 29),
            flags: u8_at(b, 30),
            depth: u8_at(b, 31),
            ts_recv: u64_at(b, 32),
            ts_in_delta: i32_at(b, 40),
            sequence: u32_at(b, 44),
            booklevel: array_of::<BidAskPair, 0>(levels_at(b, 48, 0)),
        }
    }

    open spec fn to_wire(self) -> Seq<u8> {
        self.hd.to_wire() + i64_le(self.price) + u32_le(self.size) + i8_le(self.action)
            + i8_le(self.side) + u8_le(self.flags) + u8_le(self.depth) + u64_le(self.ts_recv)
            + i32_le(self.ts_in_delta) + u32_le(self.sequence) + levels_le(self.booklevel@)
    }

    fn has_rtype(rtype: u8) -> (b: bool) {
        rtype == rtype::MBP_0
    }

    fn size() -> (n: usize) {
        48
    }

    fn header(&self) -> (h: &RecordHeader) {
        &self.hd
    }

    fn decode(b: &[u8]) -> (r: Self) {
        TradeMsg {
            hd: RecordHeader::decode(b),
            price: read_i64(b, 16),
            size: read_u32(b, 24),
            action: read_i8(b, 28),
            side: read_i8(b, 29),
            flags: read_u8(b, 30),
            depth: read_u8(b, 31),
            ts_recv: read_u64(b, 32),
            ts_in_delta: read_i32(b, 40),
            sequence: read_u32(b, 44),
            booklevel: read_levels::<0>(b, 48),
        }
    }

    fn encode(&self, out: &mut Vec<u8>) {
        self.hd.encode(out);
        put_i64(out, self.price);
        put_u32(out, self.size);
        put_i8(out, self.action);
        put_i8(out, self.side);
        put_u8(out, self.flags);
        put_u8(out, self.depth);
        put_u64(out, self.ts_recv);
        put_i32(out, self.ts_in_delta);
        put_u32(out, self.sequence);
        put_levels::<0>(out, &self.booklevel);
    }

    proof fn lemma_size() {
    }

    proof fn lemma_layout(r: Self, tail: Seq<u8>) {
        broadcast use group_wire;

        lemma_wire();
        RecordHeader::lemma_layout(r.hd, Seq::empty());
        let e = r.to_wire() + tail;
        let pre = r.hd.to_wire() + i64_le(r.price) + u32_le(r.size) + i8_le(r.action) + i8_le(r.side)
                + u8_le(r.flags) + u8_le(r.depth) + u64_le(r.ts_recv) + i32_le(r.ts_in_delta)
                + u32_le(r.sequence);
        lemma_levels(pre, r.booklevel@, tail);
        assert(e =~= pre + levels_le(r.booklevel@) + tail);
        lemma_array_of::<BidAskPair, 0>(r.booklevel);
    }

    proof fn lemma_header(b: Seq<u8>) {
    }
}

impl Plain for TradeMsg {
    proof fn lemma_plain() {
    }
}

/// A market-by-price record with the best bid and ask.
#[derive(Clone, Copy, Debug, PartialEq, Eq)]
pub struct Mbp1Msg {
    /// The common header.
    pub hd: RecordHeader,
    /// The price, in units of 1e-9.
    pub price: i64,
    /// The quantity.
    pub size: u32,
    /// The event action.
    pub action: i8,
    /// The side that started the event.
    pub side: i8,
    /// A bit field of event and quality flags.
    pub flags: u8,
    /// The depth of the book level that changed.
    pub depth: u8,
    /// The capture-server timestamp, in nanoseconds since the UNIX epoch.
    pub ts_recv: u64,
    /// The delay from the venue to the capture server, in nanoseconds.
    pub ts_in_delta: i32,
    /// The venue's message sequence number.
    pub sequence: u32,
    /// The top of the book, one pair for each depth.
    pub booklevel: [BidAskPair; 1],
}

impl HasRType for Mbp1Msg {
    open spec fn accepts(rtype: u8) -> bool {
        rtype == rtype::MBP_1
    }

    open spec fn layout_size() -> nat {
        80
    }

    open spec fn hd(self) -> RecordHeader {
        self.hd
    }

    open spec fn from_wire(b: Seq<u8>) -> Self {
        Mbp1Msg {
            hd: RecordHeader::from_wire(b),
            price: i64_at(b, 16),
            size: u32_at(b, 24),
            action: i8_at(b, 28),
            side: i8_at(b, 29),
            flags: u8_at(b, 30),
            depth: u8_at(b, 31),
            ts_recv: u64_at(b, 32),
            ts_in_delta: i32_at(b, 40),
            sequence: u32_at(b, 44),
            booklevel: array_of::<BidAskPair, 1>(levels_at(b, 48, 1)),
        }
    }

    open spec fn to_wire(self) -> Seq<u8> {
        self.hd.to_wire() + i64_le(self.price) + u32_le(self.size) + i8_le(self.action)
            + i8_le(self.side) + u8_le(self.flags) + u8_le(self.depth) + u64_le(self.ts_recv)
            + i32_le(self.ts_in_delta) + u32_le(self.sequence) + levels_le(self.booklevel@)
    }

    fn has_rtype(rtype: u8) -> (b: bool) {
        rtype == rtype::MBP_1
    }

    fn size() -> (n: usize) {
        80
    }

    fn header(&self) -> (h: &RecordHeader) {
        &self.hd
    }

    fn decode(b: &[u8]) -> (r: Self) {
        Mbp1Msg {
            hd: RecordHeader::decode(b),
            price: read_i64(b, 16),
            size: read_u32(b, 24),
            action: read_i8(b, 28),
            side: read_i8(b, 29),
            flags: read_u8(b, 30),
            depth: read_u8(b, 31),
            ts_recv: read_u64(b, 32),
            ts_in_delta: read_i32(b, 40),
            sequence: read_u32(b, 44),
            booklevel: read_levels::<1>(b, 48),
        }
    }

    fn encode(&self, out: &mut Vec<u8>) {
        self.hd.encode(out);
        put_i64(out, self.price);
        put_u32(out, self.size);
        put_i8(out, self.action);
        put_i8(out, self.side);
        put_u8(out, self.flags);
        put_u8(out, self.depth);
        put_u64(out, self.ts_recv);
        put_i32(out, self.ts_in_delta);
        put_u32(out, self.sequence);
        put_levels::<1>(out, &self.booklevel);
    }

    proof fn lemma_size() {
    }

    proof fn lemma_layout(r: Self, tail: Seq<u8>) {
        broadcast use group_wire;

        lemma_wire();
        RecordHeader::lemma_layout(r.hd, Seq::empty());
        let e = r.to_wire() + tail;
        let pre = r.hd.to_wire() + i64_le(r.price) + u32_le(r.size) + i8_le(r.action) + i8_le(r.side)
                + u8_le(r.flags) + u8_le(r.depth) + u64_le(r.ts_recv) + i32_le(r.ts_in_delta)
                + u32_le(r.sequence);
        lemma_levels(pre, r.booklevel@, tail);
        assert(e =~= pre + levels_le(r.booklevel@) + tail);
        lemma_array_of::<BidAskPair, 1>(r.booklevel);
    }

    proof fn lemma_header(b: Seq<u8>) {
    }
}

impl Plain for Mbp1Msg {
    proof fn lemma_plain() {
    }
}

/// A market-by-price record with ten book levels.
#[derive(Clone, Copy, Debug, PartialEq, Eq)]
pub struct Mbp10Msg {
    /// The common header.
    pub hd: RecordHeader,
    /// The price, in units of 1e-9.
    pub price: i64,
    /// The quantity.
    pub size: u32,
    /// The event action.
    pub action: i8,
    /// The side that started the event.
    pub side: i8,
    /// A bit field of event and quality flags.
    pub flags: u8,
    /// The depth of the book level that changed.
    pub depth: u8,
    /// The capture-server timestamp, in nanoseconds since the UNIX epoch.
    pub ts_recv: u64,
    /// The delay from the venue to the capture server, in nanoseconds.
    pub ts_in_delta: i32,
    /// The venue's message sequence number.
    pub sequence: u32,
    /// The top of the book, one pair for each depth.
    pub booklevel: [BidAskPair; 10],
}

impl HasRType for Mbp10Msg {
    open spec fn accepts(rtype: u8) -> bool {
        rtype == rtype::MBP_10
    }

    open spec fn layout_size() -> nat {
        368
    }

    open spec fn hd(self) -> RecordHeader {
        self.hd
    }

    open spec fn from_wire(b: Seq<u8>) -> Self {
        Mbp10Msg {
            hd: RecordHeader::from_wire(b),
            price: i64_at(b, 16),
            size: u32_at(b, 24),
            action: i8_at(b, 28),
            side: i8_at(b, 29),
            flags: u8_at(b, 30),
            depth: u8_at(b, 31),
            ts_recv: u64_at(b, 32),
            ts_in_delta: i32_at(b, 40),
            sequence: u32_at(b, 44),
            booklevel: array_of::<BidAskPair, 10>(levels_at(b, 48, 10)),
        }
    }

    open spec fn to_wire(self) -> Seq<u8> {
        self.hd.to_wire() + i64_le(self.price) + u32_le(self.size) + i8_le(self.action)
            + i8_le(self.side) + u8_le(self.flags) + u8_le(self.depth) + u64_le(self.ts_recv)
            + i32_le(self.ts_in_delta) + u32_le(self.sequence) + levels_le(self.booklevel@)
    }

    fn has_rtype(rtype: u8) -> (b: bool) {
        rtype == rtype::MBP_10
    }

    fn size() -> (n: usize) {
        368
    }

    fn header(&self) -> (h: &RecordHeader) {
        &self.hd
    }

    fn decode(b: &[u8]) -> (r: Self) {
        Mbp10Msg {
            hd: RecordHeader::decode(b),
            price: read_i64(b, 16),
            size: read_u32(b, 24),
            action: read_i8(b, 28),
            side: read_i8(b, 29),
            flags: read_u8(b, 30),
            depth: read_u8(b, 31),
            ts_recv: read_u64(b, 32),
            ts_in_delta: read_i32(b, 40),
            sequence: read_u32(b, 44),
            booklevel: read_levels::<10>(b, 48),
        }
    }

    fn encode(&self, out: &mut Vec<u8>) {
        self.hd.encode(out);
        put_i64(out, self.price);
        put_u32(out, self.size);
        put_i8(out, self.action);
        put_i8(out, self.side);
        put_u8(out, self.flags);
        put_u8(out, self.depth);
        put_u64(out, self.ts_recv);
        put_i32(out, self.ts_in_delta);
        put_u32(out, self.sequence);
        put_levels::<10>(out, &self.booklevel);
    }

    proof fn lemma_size() {
    }

    proof fn lemma_layout(r: Self, tail: Seq<u8>) {
        broadcast use group_wire;

        lemma_wire();
        RecordHeader::lemma_layout(r.hd, Seq::empty());
        let e = r.to_wire() + tail;
        let pre = r.hd.to_wire() + i64_le(r.price) + u32_le(r.size) + i8_le(r.action) + i8_le(r.side)
                + u8_le(r.flags) + u8_le(r.depth) + u64_le(r.ts_recv) + i32_le(r.ts_in_delta)
                + u32_le(r.sequence);
        lemma_levels(pre, r.booklevel@, tail);
        assert(e =~= pre + levels_le(r.booklevel@) + tail);
        lemma_array_of::<BidAskPair, 10>(r.booklevel);
    }

    proof fn lemma_header(b: Seq<u8>) {
    }
}

impl Plain for Mbp10Msg {
    proof fn lemma_plain() {
    }
}

/// An open, high, low, close and volume bar.
#[derive(Clone, Copy, Debug, PartialEq, Eq)]
pub struct OhlcvMsg {
    /// The common header.
    pub hd: RecordHeader,
    /// The first price of the bar, in units of 1e-9.
    pub open: i64,
    /// The highest price of the bar, in units of 1e-9.
    pub high: i64,
    /// The lowest price of the bar, in units of 1e-9.
    pub low: i64,
    /// The last price of the bar, in units of 1e-9.
    pub close: i64,
    /// The traded quantity of the bar.
    pub volume: u64,
}

impl HasRType for OhlcvMsg {
    open spec fn accepts(rtype: u8) -> bool {
        rtype == rtype::OHLCV_DEPRECATED || rtype == rtype::OHLCV_1S || rtype == rtype::OHLCV_1M
            || rtype == rtype::OHLCV_1H || rtype == rtype::OHLCV_1D
    }

    open spec fn layout_size() -> nat {
        56
    }

    open spec fn hd(self) -> RecordHeader {
        self.hd
    }

    open spec fn from_wire(b: Seq<u8>) -> Self {
        OhlcvMsg {
            hd: RecordHeader::from_wire(b),
            open: i64_at(b, 16),
            high: i64_at(b, 24),
            low: i64_at(b, 32),
            close: i64_at(b, 40),
            volume: u64_at(b, 48),
        }
    }

    open spec fn to_wire(self) -> Seq<u8> {
        self.hd.to_wire() + i64_le(self.open) + i64_le(self.high) + i64_le(self.low)
            + i64_le(self.close) + u64_le(self.volume)
    }

    fn has_rtype(rtype: u8) -> (b: bool) {
        rtype == rtype::OHLCV_DEPRECATED || rtype == rtype::OHLCV_1S || rtype == rtype::OHLCV_1M
            || rtype == rtype::OHLCV_1H || rtype == rtype::OHLCV_1D
    }

    fn size() -> (n: usize) {
        56
    }

    fn header(&self) -> (h: &RecordHeader) {
        &self.hd
    }

    fn decode(b: &[u8]) -> (r: Self) {
        OhlcvMsg {
            hd: RecordHeader::decode(b),
            open: read_i64(b, 16),
            high: read_i64(b, 24),
            low: read_i64(b, 32),
            close: read_i64(b, 40),
            volume: read_u64(b, 48),
        }
    }

    fn encode(&self, out: &mut Vec<u8>) {
        self.hd.encode(out);
        put_i64(out, self.open);
        put_i64(out, self.high);
        put_i64(out, self.low);
        put_i64(out, self.close);
        put_u64(out, self.volume);
    }

    proof fn lemma_size() {
    }

    proof fn lemma_layout(r: Self, tail: Seq<u8>) {
        broadcast use group_wire;

        lemma_wire();
        RecordHeader::lemma_layout(r.hd, Seq::empty());
        let e = r.to_wire() + tail;
    }

    proof fn lemma_header(b: Seq<u8>) {
    }
}

impl Plain for OhlcvMsg {
    proof fn lemma_plain() {
    }
}

} // verus!
