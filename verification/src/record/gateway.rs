//! The schemas of the records that the gateway itself sends.
use crate::record::{HasRType, Plain, RecordHeader};
use crate::rtype;
use crate::wire::{
    array_of, chars_at, chars_le, group_wire, lemma_array_of, lemma_wire, put_chars, put_u64,
    read_chars, read_u64, u64_at, u64_le,
};
use vstd::prelude::*;

verus! {

/// An error from the gateway.
#[derive(Clone, Copy, Debug, PartialEq, Eq)]
pub struct ErrorMsg {
    /// The common header.
    pub hd: RecordHeader,
    /// The error text, NUL-padded.
    pub err: [i8; 64],
}

impl HasRType for ErrorMsg {
    open spec fn accepts(rtype: u8) -> bool {
        rtype == rtype::ERROR
    }

    open spec fn layout_size() -> nat {
        80
    }

    open spec fn hd(self) -> RecordHeader {
        self.hd
    }

    open spec fn from_wire(b: Seq<u8>) -> Self {
        ErrorMsg {
            hd: RecordHeader::from_wire(b),
            err: array_of::<i8, 64>(chars_at(b, 16, 64)),
        }
    }

    open spec fn to_wire(self) -> Seq<u8> {
        self.hd.to_wire() + chars_le(self.err@)
    }

    fn has_rtype(rtype: u8) -> (b: bool) {
        rtype == rtype::ERROR
    }

    fn size() -> (n: usize) {
        80
    }

    fn header(&self) -> (h: &RecordHeader) {
        &self.hd
    }

    fn decode(b: &[u8]) -> (r: Self) {
        ErrorMsg {
            hd: RecordHeader::decode(b),
            err: read_chars::<64>(b, 16),
        }
    }

    fn encode(&self, out: &mut Vec<u8>) {
        self.hd.encode(out);
        put_chars::<64>(out, &self.err);
    }

    proof fn lemma_size() {
    }

    proof fn lemma_layout(r: Self, tail: Seq<u8>) {
        broadcast use group_wire;

        lemma_wire();
        RecordHeader::lemma_layout(r.hd, Seq::empty());
        let e = r.to_wire() + tail;
        assert(chars_at(e, 16, 64) =~= r.err@);
        lemma_array_of::<i8, 64>(r.err);
    }

    proof fn lemma_header(b: Seq<u8>) {
    }
}

impl Plain for ErrorMsg {
    proof fn lemma_plain() {
    }
}

/// A mapping of one symbol to another over a time range.
#[derive(Clone, Copy, Debug, PartialEq, Eq)]
pub struct SymbolMappingMsg {
    /// The common header.
    pub hd: RecordHeader,
    /// The symbol in the input symbology, NUL-padded.
    pub stype_in_symbol: [i8; 22],
    /// The symbol in the output symbology, NUL-padded.
    pub stype_out_symbol: [i8; 22],
    /// Padding.
    pub _dummy: [i8; 4],
    /// The start of the mapping, in nanoseconds since the UNIX epoch.
    pub start_ts: u64,
    /// The end of the mapping, in nanoseconds since the UNIX epoch.
    pub end_ts: u64,
}

impl HasRType for SymbolMappingMsg {
    open spec fn accepts(rtype: u8) -> bool {
        rtype == rtype::SYMBOL_MAPPING
    }

    open spec fn layout_size() -> nat {
        80
    }

    open spec fn hd(self) -> RecordHeader {
        self.hd
    }

    open spec fn from_wire(b: Seq<u8>) -> Self {
        SymbolMappingMsg {
            hd: RecordHeader::from_wire(b),
            stype_in_symbol: array_of::<i8, 22>(chars_at(b, 16, 22)),
            stype_out_symbol: array_of::<i8, 22>(chars_at(b, 38, 22)),
            _dummy: array_of::<i8, 4>(chars_at(b, 60, 4)),
            start_ts: u64_at(b, 64),
            end_ts: u64_at(b, 72),
        }
    }

    open spec fn to_wire(self) -> Seq<u8> {
        self.hd.to_wire() + chars_le(self.stype_in_symbol@) + chars_le(self.stype_out_symbol@)
            + chars_le(self._dummy@) + u64_le(self.start_ts) + u64_le(self.end_ts)
    }

    fn has_rtype(rtype: u8) -> (b: bool) {
        rtype == rtype::SYMBOL_MAPPING
    }

    fn size() -> (n: usize) {
        80
    }

    fn header(&self) -> (h: &RecordHeader) {
        &self.hd
    }

    fn decode(b: &[u8]) -> (r: Self) {
        SymbolMappingMsg {
            hd: RecordHeader::decode(b),
            stype_in_symbol: read_chars::<22>(b, 16),
            stype_out_symbol: read_chars::<22>(b, 38),
            _dummy: read_chars::<4>(b, 60),
            start_ts: read_u64(b, 64),
            end_ts: read_u64(b, 72),
        }
    }

    fn encode(&self, out: &mut Vec<u8>) {
        self.hd.encode(out);
        put_chars::<22>(out, &self.stype_in_symbol);
        put_chars::<22>(out, &self.stype_out_symbol);
        put_chars::<4>(out, &self._dummy);
        put_u64(out, self.start_ts);
        put_u64(out, self.end_ts);
    }

    proof fn lemma_size() {
    }

    proof fn lemma_layout(r: Self, tail: Seq<u8>) {
        broadcast use group_wire;

        lemma_wire();
        RecordHeader::lemma_layout(r.hd, Seq::empty());
        let e = r.to_wire() + tail;
        assert(chars_at(e, 16, 22) =~= r.stype_in_symbol@);
        lemma_array_of::<i8, 22>(r.stype_in_symbol);
        assert(chars_at(e, 38, 22) =~= r.stype_out_symbol@);
        lemma_array_of::<i8, 22>(r.stype_out_symbol);
        assert(chars_at(e, 60, 4) =~= r._dummy@);
        lemma_array_of::<i8, 4>(r._dummy);
    }

    proof fn lemma_header(b: Seq<u8>) {
    }
}

impl Plain for SymbolMappingMsg {
    proof fn lemma_plain() {
    }
}

/// A message from the gateway that is no error.
#[derive(Clone, Copy, Debug, PartialEq, Eq)]
pub struct SystemMsg {
    /// The common header.
    pub hd: RecordHeader,
    /// The message text, NUL-padded.
    pub msg: [i8; 64],
}

impl HasRType for SystemMsg {
    open spec fn accepts(rtype: u8) -> bool {
        rtype == rtype::SYSTEM
    }

    open spec fn layout_size() -> nat {
        80
    }

    open spec fn hd(self) -> RecordHeader {
        self.hd
    }

    open spec fn from_wire(b: Seq<u8>) -> Self {
        SystemMsg {
            hd: RecordHeader::from_wire(b),
            msg: array_of::<i8, 64>(chars_at(b, 16, 64)),
        }
    }

    open spec fn to_wire(self) -> Seq<u8> {
        self.hd.to_wire() + chars_le(self.msg@)
    }

    fn has_rtype(rtype: u8) -> (b: bool) {
        rtype == rtype::SYSTEM
    }

    fn size() -> (n: usize) {
        80
    }

    fn header(&self) -> (h: &RecordHeader) {
        &self.hd
    }

    fn decode(b: &[u8]) -> (r: Self) {
        SystemMsg {
            hd: RecordHeader::decode(b),
            msg: read_chars::<64>(b, 16),
        }
    }

    fn encode(&self, out: &mut Vec<u8>) {
        self.hd.encode(out);
        put_chars::<64>(out, &self.msg);
    }

    proof fn lemma_size() {
    }

    proof fn lemma_layout(r: Self, tail: Seq<u8>) {
        broadcast use group_wire;

        lemma_wire();
        RecordHeader::lemma_layout(r.hd, Seq::empty());
        let e = r.to_wire() + tail;
        assert(chars_at(e, 16, 64) =~= r.msg@);
        lemma_array_of::<i8, 64>(r.msg);
    }

    proof fn lemma_header(b: Seq<u8>) {
    }
}

impl Plain for SystemMsg {
    proof fn lemma_plain() {
    }
}

} // verus!
