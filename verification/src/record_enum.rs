//! The closed sum of the record catalog.
use crate::record::{
    framed, lemma_framed, to_bytes, well_formed, ErrorMsg, HasRType, ImbalanceMsg,
    InstrumentDefMsg, MboMsg, Mbp10Msg, Mbp1Msg, OhlcvMsg, RecordHeader, StatMsg, StatusMsg,
    SymbolMappingMsg, SystemMsg, TradeMsg, HEADER_SIZE,
};
use crate::rtype;
use vstd::prelude::*;

verus! {

/// A record of any schema of the catalog.
#[derive(Clone, Copy, Debug, PartialEq, Eq)]
pub enum RecordEnum {
    /// A market-by-order record.
    Mbo(MboMsg),
    /// A trade.
    Trade(TradeMsg),
    /// A market-by-price record with one book level.
    Mbp1(Mbp1Msg),
    /// A market-by-price record with ten book levels.
    Mbp10(Mbp10Msg),
    /// A bar.
    Ohlcv(OhlcvMsg),
    /// A trading status update.
    Status(StatusMsg),
    /// An instrument definition.
    InstrumentDef(InstrumentDefMsg),
    /// An auction imbalance.
    Imbalance(ImbalanceMsg),
    /// A venue statistic.
    Stat(StatMsg),
    /// A gateway error.
    Error(ErrorMsg),
    /// A symbol mapping.
    SymbolMapping(SymbolMappingMsg),
    /// A gateway system message.
    System(SystemMsg),
}

/// The byte size of the layout that `rtype` selects; that of the header
/// where it selects none.
pub open spec fn min_size(rtype: u8) -> nat {
    if MboMsg::accepts(rtype) {
        MboMsg::layout_size()
    } else if TradeMsg::accepts(rtype) {
        TradeMsg::layout_size()
    } else if Mbp1Msg::accepts(rtype) {
        Mbp1Msg::layout_size()
    } else if Mbp10Msg::accepts(rtype) {
        Mbp10Msg::layout_size()
    } else if OhlcvMsg::accepts(rtype) {
        OhlcvMsg::layout_size()
    } else if StatusMsg::accepts(rtype) {
        StatusMsg::layout_size()
    } else if InstrumentDefMsg::accepts(rtype) {
        InstrumentDefMsg::layout_size()
    } else if ImbalanceMsg::accepts(rtype) {
        ImbalanceMsg::layout_size()
    } else if StatMsg::accepts(rtype) {
        StatMsg::layout_size()
    } else if ErrorMsg::accepts(rtype) {
        ErrorMsg::layout_size()
    } else if SymbolMappingMsg::accepts(rtype) {
        SymbolMappingMsg::layout_size()
    } else if SystemMsg::accepts(rtype) {
        SystemMsg::layout_size()
    } else {
        HEADER_SIZE as nat
    }
}

/// The record laid out at the start of `b`, by the schema that the
/// discriminant in `b` selects.
#[verifier::opaque]
pub open spec fn record_at(b: Seq<u8>) -> RecordEnum
    recommends
        b.len() >= HEADER_SIZE,
        rtype::known(b[1]),
{
    let rtype = b[1];
    if MboMsg::accepts(rtype) {
        RecordEnum::Mbo(MboMsg::from_wire(b))
    } else if TradeMsg::accepts(rtype) {
        RecordEnum::Trade(TradeMsg::from_wire(b))
    } else if Mbp1Msg::accepts(rtype) {
        RecordEnum::Mbp1(Mbp1Msg::from_wire(b))
    } else if Mbp10Msg::accepts(rtype) {
        RecordEnum::Mbp10(Mbp10Msg::from_wire(b))
    } else if OhlcvMsg::accepts(rtype) {
        RecordEnum::Ohlcv(OhlcvMsg::from_wire(b))
    } else if StatusMsg::accepts(rtype) {
        RecordEnum::Status(StatusMsg::from_wire(b))
    } else if InstrumentDefMsg::accepts(rtype) {
        RecordEnum::InstrumentDef(InstrumentDefMsg::from_wire(b))
    } else if ImbalanceMsg::accepts(rtype) {
        RecordEnum::Imbalance(ImbalanceMsg::from_wire(b))
    } else if StatMsg::accepts(rtype) {
        RecordEnum::Stat(StatMsg::from_wire(b))
    } else if ErrorMsg::accepts(rtype) {
        RecordEnum::Error(ErrorMsg::from_wire(b))
    } else if SymbolMappingMsg::accepts(rtype) {
        RecordEnum::SymbolMapping(SymbolMappingMsg::from_wire(b))
    } else if SystemMsg::accepts(rtype) {
        RecordEnum::System(SystemMsg::from_wire(b))
    } else {
        RecordEnum::System(SystemMsg::from_wire(b))
    }
}

/// Every known discriminant selects a layout that holds the header.
pub proof fn lemma_min_size(rtype: u8)
    ensures
        HEADER_SIZE <= min_size(rtype) <= crate::record::MAX_RECORD_SIZE,
        min_size(rtype) % 4 == 0,
{
}

impl RecordEnum {
    /// The record's header.
    pub open spec fn hd(self) -> RecordHeader {
        match self {
            RecordEnum::Mbo(r) => r.hd,
            RecordEnum::Trade(r) => r.hd,
            RecordEnum::Mbp1(r) => r.hd,
            RecordEnum::Mbp10(r) => r.hd,
            RecordEnum::Ohlcv(r) => r.hd,
            RecordEnum::Status(r) => r.hd,
            RecordEnum::InstrumentDef(r) => r.hd,
            RecordEnum::Imbalance(r) => r.hd,
            RecordEnum::Stat(r) => r.hd,
            RecordEnum::Error(r) => r.hd,
            RecordEnum::SymbolMapping(r) => r.hd,
            RecordEnum::System(r) => r.hd,
        }
    }

    /// The record on the wire: its layout, then zeros up to the size that
    /// its header declares.
    #[verifier::opaque]
    pub open spec fn framed(self) -> Seq<u8> {
        match self {
            RecordEnum::Mbo(r) => framed(r),
            RecordEnum::Trade(r) => framed(r),
            RecordEnum::Mbp1(r) => framed(r),
            RecordEnum::Mbp10(r) => framed(r),
            RecordEnum::Ohlcv(r) => framed(r),
            RecordEnum::Status(r) => framed(r),
            RecordEnum::InstrumentDef(r) => framed(r),
            RecordEnum::Imbalance(r) => framed(r),
            RecordEnum::Stat(r) => framed(r),
            RecordEnum::Error(r) => framed(r),
            RecordEnum::SymbolMapping(r) => framed(r),
            RecordEnum::System(r) => framed(r),
        }
    }

    /// Whether the record can stand in a stream: its discriminant selects
    /// its schema, and its header declares room for its layout.
    #[verifier::opaque]
    pub open spec fn well_formed(self) -> bool {
        match self {
            RecordEnum::Mbo(r) => well_formed(r),
            RecordEnum::Trade(r) => well_formed(r),
            RecordEnum::Mbp1(r) => well_formed(r),
            RecordEnum::Mbp10(r) => well_formed(r),
            RecordEnum::Ohlcv(r) => well_formed(r),
            RecordEnum::Status(r) => well_formed(r),
            RecordEnum::InstrumentDef(r) => well_formed(r),
            RecordEnum::Imbalance(r) => well_formed(r),
            RecordEnum::Stat(r) => well_formed(r),
            RecordEnum::Error(r) => well_formed(r),
            RecordEnum::SymbolMapping(r) => well_formed(r),
            RecordEnum::System(r) => well_formed(r),
        }
    }

    /// The record's header.
    pub fn header(&self) -> (h: &RecordHeader)
        ensures
            *h == self.hd(),
    {
        match self {
            RecordEnum::Mbo(r) => &r.hd,
            RecordEnum::Trade(r) => &r.hd,
            RecordEnum::Mbp1(r) => &r.hd,
            RecordEnum::Mbp10(r) => &r.hd,
            RecordEnum::Ohlcv(r) => &r.hd,
            RecordEnum::Status(r) => &r.hd,
            RecordEnum::InstrumentDef(r) => &r.hd,
            RecordEnum::Imbalance(r) => &r.hd,
            RecordEnum::Stat(r) => &r.hd,
            RecordEnum::Error(r) => &r.hd,
            RecordEnum::SymbolMapping(r) => &r.hd,
            RecordEnum::System(r) => &r.hd,
        }
    }

    /// The record's bytes on the wire.
    pub fn to_bytes(&self) -> (out: Vec<u8>)
        ensures
            out@ == self.framed(),
    {
        proof {
            reveal(RecordEnum::framed);
        }
        match self {
            RecordEnum::Mbo(r) => to_bytes(r),
            RecordEnum::Trade(r) => to_bytes(r),
            RecordEnum::Mbp1(r) => to_bytes(r),
            RecordEnum::Mbp10(r) => to_bytes(r),
            RecordEnum::Ohlcv(r) => to_bytes(r),
            RecordEnum::Status(r) => to_bytes(r),
            RecordEnum::InstrumentDef(r) => to_bytes(r),
            RecordEnum::Imbalance(r) => to_bytes(r),
            RecordEnum::Stat(r) => to_bytes(r),
            RecordEnum::Error(r) => to_bytes(r),
            RecordEnum::SymbolMapping(r) => to_bytes(r),
            RecordEnum::System(r) => to_bytes(r),
        }
    }

    /// A well-formed record takes on the wire the size that its header
    /// declares, which holds its schema's layout, and reading its bytes by
    /// its discriminant gives the record back, whatever follows.
    pub proof fn lemma_framed(r: RecordEnum, tail: Seq<u8>)
        requires
            r.well_formed(),
        ensures
            rtype::known(r.hd().rtype),
            min_size(r.hd().rtype) <= r.hd().size(),
            r.framed().len() == r.hd().size(),
            RecordHeader::from_wire(r.framed() + tail) == r.hd(),
            record_at(r.framed() + tail) == r,
    {
        reveal(record_at);
        reveal(RecordEnum::framed);
        reveal(RecordEnum::well_formed);
        crate::wire::lemma_wire();
        let e = r.framed() + tail;
        match r {
            RecordEnum::Mbo(r) => lemma_framed(r, tail),
            RecordEnum::Trade(r) => lemma_framed(r, tail),
            RecordEnum::Mbp1(r) => lemma_framed(r, tail),
            RecordEnum::Mbp10(r) => lemma_framed(r, tail),
            RecordEnum::Ohlcv(r) => lemma_framed(r, tail),
            RecordEnum::Status(r) => lemma_framed(r, tail),
            RecordEnum::InstrumentDef(r) => lemma_framed(r, tail),
            RecordEnum::Imbalance(r) => lemma_framed(r, tail),
            RecordEnum::Stat(r) => lemma_framed(r, tail),
            RecordEnum::Error(r) => lemma_framed(r, tail),
            RecordEnum::SymbolMapping(r) => lemma_framed(r, tail),
            RecordEnum::System(r) => lemma_framed(r, tail),
        }
        RecordHeader::lemma_layout(r.hd(), Seq::empty());
        assert(RecordHeader::from_wire(e).rtype == e[1]);
    }
}

} // verus!
