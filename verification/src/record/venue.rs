//! The schemas of status, imbalance and statistics records.
use crate::record::{HasRType, Plain, RecordHeader};
use crate::rtype;
use crate::wire::{
    array_of, chars_at, chars_le, group_wire, i32_at, i32_le, i64_at, i64_le, i8_at, i8_le,
    lemma_array_of, lemma_wire, put_chars, put_i32, put_i64, put_i8, put_u16, put_u32, put_u64,
    put_u8, read_chars, read_i32, read_i64, read_i8, read_u16, read_u32, read_u64, read_u8,
    u16_at, u16_le, u32_at, u32_le, u64_at, u64_le, u8_at, u8_le,
};
use vstd::prelude::*;

verus! {

/// A trading status update of a venue.
#[derive(Clone, Copy, Debug, PartialEq, Eq)]
pub struct StatusMsg {
    /// The common header.
    pub hd: RecordHeader,
    /// The capture-server timestamp, in nanoseconds since the UNIX epoch.
    pub ts_recv: u64,
    /// The instrument group, NUL-padded.
    pub group: [i8; 21],
    /// The trading status code.
    pub trading_status: u8,
    /// The halt reason code.
    pub halt_reason: u8,
    /// The trading event code.
    pub trading_event: u8,
}

impl HasRType for StatusMsg {
    open spec fn accepts(rtype: u8) -> bool {
        rtype == rtype::STATUS
    }

    open spec fn layout_size() -> nat {
        48
    }

    open spec fn hd(self) -> RecordHeader {
        self.hd
    }

    open spec fn from_wire(b: Seq<u8>) -> Self {
        StatusMsg {
            hd: RecordHeader::from_wire(b),
            ts_recv: u64_at(b, 16),
            group: array_of::<i8, 21>(chars_at(b, 24, 21)),
            trading_status: u8_at(b, 45),
            halt_reason: u8_at(b, 46),
            trading_event: u8_at(b, 47),
        }
    }

    open spec fn to_wire(self) -> Seq<u8> {
        self.hd.to_wire() + u64_le(self.ts_recv) + chars_le(self.group@)
            + u8_le(self.trading_status) + u8_le(self.halt_reason) + u8_le(self.trading_event)
    }

    fn has_rtype(rtype: u8) -> (b: bool) {
        rtype == rtype::STATUS
    }

    fn size() -> (n: usize) {
        48
    }

    fn header(&self) -> (h: &RecordHeader) {
        &self.hd
    }

    fn decode(b: &[u8]) -> (r: Self) {
        StatusMsg {
            hd: RecordHeader::decode(b),
            ts_recv: read_u64(b, 16),
            group: read_chars::<21>(b, 24),
            trading_status: read_u8(b, 45),
            halt_reason: read_u8(b, 46),
            trading_event: read_u8(b, 47),
        }
    }

    fn encode(&self, out: &mut Vec<u8>) {
        self.hd.encode(out);
        put_u64(out, self.ts_recv);
        put_chars::<21>(out, &self.group);
        put_u8(out, self.trading_status);
        put_u8(out, self.halt_reason);
        put_u8(out, self.trading_event);
    }

    proof fn lemma_size() {
    }

    proof fn lemma_layout(r: Self, tail: Seq<u8>) {
        broadcast use group_wire;

        lemma_wire();
        RecordHeader::lemma_layout(r.hd, Seq::empty());
        let e = r.to_wire() + tail;
        assert(chars_at(e, 24, 21) =~= r.group@);
        lemma_array_of::<i8, 21>(r.group);
    }

    proof fn lemma_header(b: Seq<u8>) {
    }
}

impl Plain for StatusMsg {
    proof fn lemma_plain() {
    }
}

/// An auction imbalance.
#[derive(Clone, Copy, Debug, PartialEq, Eq)]
pub struct ImbalanceMsg {
    /// The common header.
    pub hd: RecordHeader,
    /// The capture-server timestamp, in nanoseconds since the UNIX epoch.
    pub ts_recv: u64,
    /// The price that the imbalance figures refer to, in units of 1e-9.
    pub ref_price: i64,
    /// The projected auction time, in nanoseconds since the UNIX epoch.
    pub auction_time: u64,
    /// The clearing price of auction and continuous orders, in units of 1e-9.
    pub cont_book_clr_price: i64,
    /// The clearing price of auction orders alone, in units of 1e-9.
    pub auct_interest_clr_price: i64,
    /// Reserved.
    pub ssr_filling_price: i64,
    /// Reserved.
    pub ind_match_price: i64,
    /// Reserved.
    pub upper_collar: i64,
    /// Reserved.
    pub lower_collar: i64,
    /// The quantity that can be matched at the reference price.
    pub paired_qty: u32,
    /// The quantity left unmatched at the reference price.
    pub total_imbalance_qty: u32,
    /// Reserved.
    pub market_imbalance_qty: u32,
    /// Reserved.
    pub unpaired_qty: u32,
    /// The auction type code.
    pub auction_type: i8,
    /// The side of the imbalance.
    pub side: i8,
    /// Reserved.
    pub auction_status: u8,
    /// Reserved.
    pub freeze_status: u8,
    /// Reserved.
    pub num_extensions: u8,
    /// Reserved.
    pub unpaired_side: i8,
    /// The venue's significance code.
    pub significant_imbalance: i8,
    /// Padding.
    pub _dummy: [i8; 1],
}

impl HasRType for ImbalanceMsg {
    open spec fn accepts(rtype: u8) -> bool {
        rtype == rtype::IMBALANCE
    }

    open spec fn layout_size() -> nat {
        112
    }

    open spec fn hd(self) -> RecordHeader {
        self.hd
    }

    open spec fn from_wire(b: Seq<u8>) -> Self {
        ImbalanceMsg {
            hd: RecordHeader::from_wire(b),
            ts_recv: u64_at(b, 16),
            ref_price: i64_at(b, 24),
            auction_time: u64_at(b, 32),
            cont_book_clr_price: i64_at(b, 40),
            auct_interest_clr_price: i64_at(b, 48),
            ssr_filling_price: i64_at(b, 56),
            ind_match_price: i64_at(b, 64),
            upper_collar: i64_at(b, 72),
            lower_collar: i64_at(b, 80),
            paired_qty: u32_at(b, 88),
            total_imbalance_qty: u32_at(b, 92),
            market_imbalance_qty: u32_at(b, 96),
            unpaired_qty: u32_at(b, 100),
            auction_type: i8_at(b, 104),
            side: i8_at(b, 105),
            auction_status: u8_at(b, 106),
            freeze_status: u8_at(b, 107),
            num_extensions: u8_at(b, 108),
            unpaired_side: i8_at(b, 109),
            significant_imbalance: i8_at(b, 110),
            _dummy: array_of::<i8, 1>(chars_at(b, 111, 1)),
        }
    }

    open spec fn to_wire(self) -> Seq<u8> {
        self.hd.to_wire() + u64_le(self.ts_recv) + i64_le(self.ref_price)
            + u64_le(self.auction_time) + i64_le(self.cont_book_clr_price)
            + i64_le(self.auct_interest_clr_price) + i64_le(self.ssr_filling_price)
            + i64_le(self.ind_match_price) + i64_le(self.upper_collar) + i64_le(self.lower_collar)
            + u32_le(self.paired_qty) + u32_le(self.total_imbalance_qty)
            + u32_le(self.market_imbalance_qty) + u32_le(self.unpaired_qty)
            + i8_le(self.auction_type) + i8_le(self.side) + u8_le(self.auction_status)
            + u8_le(self.freeze_status) + u8_le(self.num_extensions) + i8_le(self.unpaired_side)
            + i8_le(self.significant_imbalance) + chars_le(self._dummy@)
    }

    fn has_rtype(rtype: u8) -> (b: bool) {
        rtype == rtype::IMBALANCE
    }

    fn size() -> (n: usize) {
        112
    }

    fn header(&self) -> (h: &RecordHeader) {
        &self.hd
    }

    fn decode(b: &[u8]) -> (r: Self) {
        ImbalanceMsg {
            hd: RecordHeader::decode(b),
            ts_recv: read_u64(b, 16),
            ref_price: read_i64(b, 24),
            auction_time: read_u64(b, 32),
            cont_book_clr_price: read_i64(b, 40),
            auct_interest_clr_price: read_i64(b, 48),
            ssr_filling_price: read_i64(b, 56),
            ind_match_price: read_i64(b, 64),
            upper_collar: read_i64(b, 72),
            lower_collar: read_i64(b, 80),
            paired_qty: read_u32(b, 88),
            total_imbalance_qty: read_u32(b, 92),
            market_imbalance_qty: read_u32(b, 96),
            unpaired_qty: read_u32(b, 100),
            auction_type: read_i8(b, 104),
            side: read_i8(b, 105),
            auction_status: read_u8(b, 106),
            freeze_status: read_u8(b, 107),
            num_extensions: read_u8(b, 108),
            unpaired_side: read_i8(b, 109),
            significant_imbalance: read_i8(b, 110),
            _dummy: read_chars::<1>(b, 111),
        }
    }

    fn encode(&self, out: &mut Vec<u8>) {
        self.hd.encode(out);
        put_u64(out, self.ts_recv);
        put_i64(out, self.ref_price);
        put_u64(out, self.auction_time);
        put_i64(out, self.cont_book_clr_price);
        put_i64(out, self.auct_interest_clr_price);
        put_i64(out, self.ssr_filling_price);
        put_i64(out, self.ind_match_price);
        put_i64(out, self.upper_collar);
        put_i64(out, self.lower_collar);
        put_u32(out, self.paired_qty);
        put_u32(out, self.total_imbalance_qty);
        put_u32(out, self.market_imbalance_qty);
        put_u32(out, self.unpaired_qty);
        put_i8(out, self.auction_type);
        put_i8(out, self.side);
        put_u8(out, self.auction_status);
        put_u8(out, self.freeze_status);
        put_u8(out, self.num_extensions);
        put_i8(out, self.unpaired_side);
        put_i8(out, self.significant_imbalance);
        put_chars::<1>(out, &self._dummy);
    }

    proof fn lemma_size() {
    }

    proof fn lemma_layout(r: Self, tail: Seq<u8>) {
        broadcast use group_wire;

        lemma_wire();
        RecordHeader::lemma_layout(r.hd, Seq::empty());
        let e = r.to_wire() + tail;
        assert(chars_at(e, 111, 1) =~= r._dummy@);
        lemma_array_of::<i8, 1>(r._dummy);
    }

    proof fn lemma_header(b: Seq<u8>) {
    }
}

impl Plain for ImbalanceMsg {
    proof fn lemma_plain() {
    }
}

/// A statistic that a venue publishes.
#[derive(Clone, Copy, Debug, PartialEq, Eq)]
pub struct StatMsg {
    /// The common header.
    pub hd: RecordHeader,
    /// The capture-server timestamp, in nanoseconds since the UNIX epoch.
    pub ts_recv: u64,
    /// The time that the statistic refers to, in nanoseconds since the UNIX epoch.
    pub ts_ref: u64,
    /// The value of a price statistic, in units of 1e-9.
    pub price: i64,
    /// The value of a quantity statistic.
    pub quantity: i32,
    /// The venue's message sequence number.
    pub sequence: u32,
    /// The delay from the venue to the capture server, in nanoseconds.
    pub ts_in_delta: i32,
    /// The kind of statistic.
    pub stat_type: u16,
    /// The channel that the venue sent the statistic on.
    pub channel_id: u16,
    /// Whether the statistic is new or deleted.
    pub update_action: u8,
    /// Further flags of the statistic.
    pub stat_flags: u8,
    /// Padding.
    pub _dummy: [i8; 6],
}

impl HasRType for StatMsg {
    open spec fn accepts(rtype: u8) -> bool {
        rtype == rtype::STATISTICS
    }

    open spec fn layout_size() -> nat {
        64
    }

    open spec fn hd(self) -> RecordHeader {
        self.hd
    }

    open spec fn from_wire(b: Seq<u8>) -> Self {
        StatMsg {
            hd: RecordHeader::from_wire(b),
            ts_recv: u64_at(b, 16),
            ts_ref: u64_at(b, 24),
            price: i64_at(b, 32),
            quantity: i32_at(b, 40),
            sequence: u32_at(b, 44),
            ts_in_delta: i32_at(b, 48),
            stat_type: u16_at(b, 52),
            channel_id: u16_at(b, 54),
            update_action: u8_at(b, 56),
            stat_flags: u8_at(b, 57),
            _dummy: array_of::<i8, 6>(chars_at(b, 58, 6)),
        }
    }

    open spec fn to_wire(self) -> Seq<u8> {
        self.hd.to_wire() + u64_le(self.ts_recv) + u64_le(self.ts_ref) + i64_le(self.price)
            + i32_le(self.quantity) + u32_le(self.sequence) + i32_le(self.ts_in_delta)
            + u16_le(self.stat_type) + u16_le(self.channel_id) + u8_le(self.update_action)
            + u8_le(self.stat_flags) + chars_le(self._dummy@)
    }

    fn has_rtype(rtype: u8) -> (b: bool) {
        rtype == rtype::STATISTICS
    }

    fn size() -> (n: usize) {
        64
    }

    fn header(&self) -> (h: &RecordHeader) {
        &self.hd
    }

    fn decode(b: &[u8]) -> (r: Self) {
        StatMsg {
            hd: RecordHeader::decode(b),
            ts_recv: read_u64(b, 16),
            ts_ref: read_u64(b, 24),
            price: read_i64(b, 32),
            quantity: read_i32(b, 40),
            sequence: read_u32(b, 44),
            ts_in_delta: read_i32(b, 48),
            stat_type: read_u16(b, 52),
            channel_id: read_u16(b, 54),
            update_action: read_u8(b, 56),
            stat_flags: read_u8(b, 57),
            _dummy: read_chars::<6>(b, 58),
        }
    }

    fn encode(&self, out: &mut Vec<u8>) {
        self.hd.encode(out);
        put_u64(out, self.ts_recv);
        put_u64(out, self.ts_ref);
        put_i64(out, self.price);
        put_i32(out, self.quantity);
        put_u32(out, self.sequence);
        put_i32(out, self.ts_in_delta);
        put_u16(out, self.stat_type);
        put_u16(out, self.channel_id);
        put_u8(out, self.update_action);
        put_u8(out, self.stat_flags);
        put_chars::<6>(out, &self._dummy);
    }

    proof fn lemma_size() {
    }

    proof fn lemma_layout(r: Self, tail: Seq<u8>) {
        broadcast use group_wire;

        lemma_wire();
        RecordHeader::lemma_layout(r.hd, Seq::empty());
        let e = r.to_wire() + tail;
        assert(chars_at(e, 58, 6) =~= r._dummy@);
        lemma_array_of::<i8, 6>(r._dummy);
    }

    proof fn lemma_header(b: Seq<u8>) {
    }
}

impl Plain for StatMsg {
    proof fn lemma_plain() {
    }
}

} // verus!
