//! The schema of instrument definitions.
use crate::enums::{SecurityUpdateAction};
use crate::record::{HasRType, Plain, RecordHeader};
use crate::rtype;
use crate::wire::{
    array_of, chars_at, chars_le, group_wire, i16_at, i16_le, i32_at, i32_le, i64_at, i64_le,
    i8_at, i8_le, lemma_array_of, lemma_subrange_of_second, lemma_wire, put_chars, put_i16,
    put_i32, put_i64, put_i8, put_u16, put_u32, put_u64, put_u8, read_chars, read_i16, read_i32,
    read_i64, read_i8, read_u16, read_u32, read_u64, read_u8, u16_at, u16_le, u32_at, u32_le,
    u64_at, u64_le, u8_at, u8_le,
};
use vstd::prelude::*;

verus! {

/// The definition of an instrument.
#[derive(Clone, Copy, Debug, PartialEq, Eq)]
pub struct InstrumentDefMsg {
    /// The common header.
    pub hd: RecordHeader,
    /// The capture-server timestamp, in nanoseconds since the UNIX epoch.
    pub ts_recv: u64,
    /// The smallest price step, in units of 1e-9.
    pub min_price_increment: i64,
    /// The multiplier that turns a venue price into a display price.
    pub display_factor: i64,
    /// The last time of eligibility, in nanoseconds since the UNIX epoch.
    pub expiration: u64,
    /// The time of activation, in nanoseconds since the UNIX epoch.
    pub activation: u64,
    /// The highest price allowed, in units of 1e-9.
    pub high_limit_price: i64,
    /// The lowest price allowed, in units of 1e-9.
    pub low_limit_price: i64,
    /// The widest price move allowed, in units of 1e-9.
    pub max_price_variation: i64,
    /// The settlement price of the prior session, in units of 1e-9.
    pub trading_reference_price: i64,
    /// The contract size in units of measure, in units of 1e-9.
    pub unit_of_measure_qty: i64,
    /// The value of one price step, in units of 1e-9.
    pub min_price_increment_amount: i64,
    /// The ratio used in price calculations, in units of 1e-9.
    pub price_ratio: i64,
    /// A bit field of instrument eligibility flags.
    pub inst_attrib_value: i32,
    /// The identifier of the first underlying instrument.
    pub underlying_id: u32,
    /// The total cleared volume.
    pub cleared_volume: i32,
    /// The implied book depth of the price feed.
    pub market_depth_implied: i32,
    /// The outright book depth of the price feed.
    pub market_depth: i32,
    /// The market segment of the instrument.
    pub market_segment_id: u32,
    /// The largest quantity of one trade.
    pub max_trade_vol: u32,
    /// The smallest order quantity.
    pub min_lot_size: i32,
    /// The smallest quantity of a block trade.
    pub min_lot_size_block: i32,
    /// The smallest quantity of a round lot.
    pub min_lot_size_round_lot: i32,
    /// The smallest quantity of one trade.
    pub min_trade_vol: u32,
    /// The open interest.
    pub open_interest_qty: i32,
    /// The number of deliverables for each instrument.
    pub contract_multiplier: i32,
    /// The quantity by which a contract decays each day.
    pub decay_quantity: i32,
    /// The contract size before any decay.
    pub original_contract_size: i32,
    /// The identifier of a related instrument.
    pub related_security_id: u32,
    /// The session date of the reference price, in days since the UNIX epoch.
    pub trading_reference_date: u16,
    /// The channel of the instrument.
    pub appl_id: i16,
    /// The year of maturity.
    pub maturity_year: u16,
    /// The date at which a contract starts to decay.
    pub decay_start_date: u16,
    /// The channel that the venue sent the definition on.
    pub channel_id: u16,
    /// The currency of the price, NUL-padded.
    pub currency: [i8; 4],
    /// The currency of settlement, NUL-padded.
    pub settl_currency: [i8; 4],
    /// The strategy type of a spread, NUL-padded.
    pub secsubtype: [i8; 6],
    /// The venue's symbol of the instrument, NUL-padded.
    pub symbol: [i8; 22],
    /// The security group of the instrument, NUL-padded.
    pub group: [i8; 21],
    /// The exchange of the instrument, NUL-padded.
    pub exchange: [i8; 5],
    /// The underlying asset code, NUL-padded.
    pub asset: [i8; 7],
    /// The ISO classification of the instrument, NUL-padded.
    pub cfi: [i8; 7],
    /// The type of the instrument, NUL-padded.
    pub security_type: [i8; 7],
    /// The unit of measure of the contract size, NUL-padded.
    pub unit_of_measure: [i8; 31],
    /// The symbol of the first underlying instrument, NUL-padded.
    pub underlying: [i8; 21],
    /// The symbol of a related instrument, NUL-padded.
    pub related: [i8; 21],
    /// The matching algorithm of the instrument.
    pub match_algorithm: i8,
    /// The trading state of the instrument.
    pub md_security_trading_status: u8,
    /// The denominator of the price's main fraction.
    pub main_fraction: u8,
    /// The number of digits right of the tick mark.
    pub price_display_format: u8,
    /// A bit field that describes the settlement price.
    pub settl_price_type: u8,
    /// The denominator of the price's sub fraction.
    pub sub_fraction: u8,
    /// The product complex of the instrument.
    pub underlying_product: u8,
    /// What became of the definition.
    pub security_update_action: SecurityUpdateAction,
    /// The month of maturity.
    pub maturity_month: u8,
    /// The day of maturity.
    pub maturity_day: u8,
    /// The week of maturity.
    pub maturity_week: u8,
    /// Whether a user defined the instrument.
    pub user_defined_instrument: u8,
    /// The unit of the contract multiplier.
    pub contract_multiplier_unit: i8,
    /// The schedule of delivery of an energy contract.
    pub flow_schedule_type: i8,
    /// The tick rule of a spread.
    pub tick_rule: u8,
    /// Padding.
    pub _dummy: [i8; 3],
}

impl HasRType for InstrumentDefMsg {
    open spec fn accepts(rtype: u8) -> bool {
        rtype == rtype::INSTRUMENT_DEF
    }

    open spec fn layout_size() -> nat {
        360
    }

    open spec fn hd(self) -> RecordHeader {
        self.hd
    }

    open spec fn from_wire(b: Seq<u8>) -> Self {
        InstrumentDefMsg {
            hd: RecordHeader::from_wire(b),
            ts_recv: u64_at(b, 16),
            min_price_increment: i64_at(b, 24),
            display_factor: i64_at(b, 32),
            expiration: u64_at(b, 40),
            activation: u64_at(b, 48),
            high_limit_price: i64_at(b, 56),
            low_limit_price: i64_at(b, 64),
            max_price_variation: i64_at(b, 72),
            trading_reference_price: i64_at(b, 80),
            unit_of_measure_qty: i64_at(b, 88),
            min_price_increment_amount: i64_at(b, 96),
            price_ratio: i64_at(b, 104),
            inst_attrib_value: i32_at(b, 112),
            underlying_id: u32_at(b, 116),
            cleared_volume: i32_at(b, 120),
            market_depth_implied: i32_at(b, 124),
            market_depth: i32_at(b, 128),
            market_segment_id: u32_at(b, 132),
            max_trade_vol: u32_at(b, 136),
            min_lot_size: i32_at(b, 140),
            min_lot_size_block: i32_at(b, 144),
            min_lot_size_round_lot: i32_at(b, 148),
            min_trade_vol: u32_at(b, 152),
            open_interest_qty: i32_at(b, 156),
            contract_multiplier: i32_at(b, 160),
            decay_quantity: i32_at(b, 164),
            original_contract_size: i32_at(b, 168),
            related_security_id: u32_at(b, 172),
            trading_reference_date: u16_at(b, 176),
            appl_id: i16_at(b, 178),
            maturity_year: u16_at(b, 180),
            decay_start_date: u16_at(b, 182),
            channel_id: u16_at(b, 184),
            currency: array_of::<i8, 4>(chars_at(b, 186, 4)),
            settl_currency: array_of::<i8, 4>(chars_at(b, 190, 4)),
            secsubtype: array_of::<i8, 6>(chars_at(b, 194, 6)),
            symbol: array_of::<i8, 22>(chars_at(b, 200, 22)),
            group: array_of::<i8, 21>(chars_at(b, 222, 21)),
            exchange: array_of::<i8, 5>(chars_at(b, 243, 5)),
            asset: array_of::<i8, 7>(chars_at(b, 248, 7)),
            cfi: array_of::<i8, 7>(chars_at(b, 255, 7)),
            security_type: array_of::<i8, 7>(chars_at(b, 262, 7)),
            unit_of_measure: array_of::<i8, 31>(chars_at(b, 269, 31)),
            underlying: array_of::<i8, 21>(chars_at(b, 300, 21)),
            related: array_of::<i8, 21>(chars_at(b, 321, 21)),
            match_algorithm: i8_at(b, 342),
            md_security_trading_status: u8_at(b, 343),
            main_fraction: u8_at(b, 344),
            price_display_format: u8_at(b, 345),
            settl_price_type: u8_at(b, 346),
            sub_fraction: u8_at(b, 347),
            underlying_product: u8_at(b, 348),
            security_update_action: SecurityUpdateAction::of_code(u8_at(b, 349)),
            maturity_month: u8_at(b, 350),
            maturity_day: u8_at(b, 351),
            maturity_week: u8_at(b, 352),
            user_defined_instrument: u8_at(b, 353),
            contract_multiplier_unit: i8_at(b, 354),
            flow_schedule_type: i8_at(b, 355),
            tick_rule: u8_at(b, 356),
            _dummy: array_of::<i8, 3>(chars_at(b, 357, 3)),
        }
    }

    open spec fn to_wire(self) -> Seq<u8> {
        self.hd.to_wire() + self.prices_wire() + self.quantities_wire() + self.texts_wire()
            + self.traits_wire()
    }

    fn has_rtype(rtype: u8) -> (b: bool) {
        rtype == rtype::INSTRUMENT_DEF
    }

    fn size() -> (n: usize) {
        360
    }

    fn header(&self) -> (h: &RecordHeader) {
        &self.hd
    }

    fn decode(b: &[u8]) -> (r: Self) {
        InstrumentDefMsg {
            hd: RecordHeader::decode(b),
            ts_recv: read_u64(b, 16),
            min_price_increment: read_i64(b, 24),
            display_factor: read_i64(b, 32),
            expiration: read_u64(b, 40),
            activation: read_u64(b, 48),
            high_limit_price: read_i64(b, 56),
            low_limit_price: read_i64(b, 64),
            max_price_variation: read_i64(b, 72),
            trading_reference_price: read_i64(b, 80),
            unit_of_measure_qty: read_i64(b, 88),
            min_price_increment_amount: read_i64(b, 96),
            price_ratio: read_i64(b, 104),
            inst_attrib_value: read_i32(b, 112),
            underlying_id: read_u32(b, 116),
            cleared_volume: read_i32(b, 120),
            market_depth_implied: read_i32(b, 124),
            market_depth: read_i32(b, 128),
            market_segment_id: read_u32(b, 132),
            max_trade_vol: read_u32(b, 136),
            min_lot_size: read_i32(b, 140),
            min_lot_size_block: read_i32(b, 144),
            min_lot_size_round_lot: read_i32(b, 148),
            min_trade_vol: read_u32(b, 152),
            open_interest_qty: read_i32(b, 156),
            contract_multiplier: read_i32(b, 160),
            decay_quantity: read_i32(b, 164),
            original_contract_size: read_i32(b, 168),
            related_security_id: read_u32(b, 172),
            trading_reference_date: read_u16(b, 176),
            appl_id: read_i16(b, 178),
            maturity_year: read_u16(b, 180),
            decay_start_date: read_u16(b, 182),
            channel_id: read_u16(b, 184),
            currency: read_chars::<4>(b, 186),
            settl_currency: read_chars::<4>(b, 190),
            secsubtype: read_chars::<6>(b, 194),
            symbol: read_chars::<22>(b, 200),
            group: read_chars::<21>(b, 222),
            exchange: read_chars::<5>(b, 243),
            asset: read_chars::<7>(b, 248),
            cfi: read_chars::<7>(b, 255),
            security_type: read_chars::<7>(b, 262),
            unit_of_measure: read_chars::<31>(b, 269),
            underlying: read_chars::<21>(b, 300),
            related: read_chars::<21>(b, 321),
            match_algorithm: read_i8(b, 342),
            md_security_trading_status: read_u8(b, 343),
            main_fraction: read_u8(b, 344),
            price_display_format: read_u8(b, 345),
            settl_price_type: read_u8(b, 346),
            sub_fraction: read_u8(b, 347),
            underlying_product: read_u8(b, 348),
            security_update_action: SecurityUpdateAction::from_u8(read_u8(b, 349)),
            maturity_month: read_u8(b, 350),
            maturity_day: read_u8(b, 351),
            maturity_week: read_u8(b, 352),
            user_defined_instrument: read_u8(b, 353),
            contract_multiplier_unit: read_i8(b, 354),
            flow_schedule_type: read_i8(b, 355),
            tick_rule: read_u8(b, 356),
            _dummy: read_chars::<3>(b, 357),
        }
    }

    fn encode(&self, out: &mut Vec<u8>) {
        self.hd.encode(out);
        self.encode_prices(out);
        self.encode_quantities(out);
        self.encode_texts(out);
        self.encode_traits(out);
    }

    proof fn lemma_size() {
    }

    proof fn lemma_layout(r: Self, tail: Seq<u8>) {
        let e = r.to_wire() + tail;
        let hd = r.hd.to_wire();
        let prices = r.prices_wire();
        let quantities = r.quantities_wire();
        let texts = r.texts_wire();
        let traits = r.traits_wire();
        Self::lemma_section_sizes(r);
        RecordHeader::lemma_layout(r.hd, prices + quantities + texts + traits + tail);
        assert(e =~= hd + (prices + quantities + texts + traits + tail));
        Self::lemma_prices(r, hd, quantities + texts + traits + tail);
        assert(e =~= (hd) + prices + (quantities + texts + traits + tail));
        Self::lemma_quantities(r, hd + prices, texts + traits + tail);
        assert(e =~= (hd + prices) + quantities + (texts + traits + tail));
        Self::lemma_texts(r, hd + prices + quantities, traits + tail);
        assert(e =~= (hd + prices + quantities) + texts + (traits + tail));
        Self::lemma_traits(r, hd + prices + quantities + texts, tail);
        assert(e =~= (hd + prices + quantities + texts) + traits + (tail));
    }

    proof fn lemma_header(b: Seq<u8>) {
    }
}

impl InstrumentDefMsg {
    /// The bytes of the time and price fields.
    pub open spec fn prices_wire(self) -> Seq<u8> {
        u64_le(self.ts_recv) + i64_le(self.min_price_increment) + i64_le(self.display_factor)
            + u64_le(self.expiration) + u64_le(self.activation) + i64_le(self.high_limit_price)
            + i64_le(self.low_limit_price) + i64_le(self.max_price_variation)
            + i64_le(self.trading_reference_price) + i64_le(self.unit_of_measure_qty)
            + i64_le(self.min_price_increment_amount) + i64_le(self.price_ratio)
    }

    /// The bytes of the quantity, identifier and date fields.
    pub open spec fn quantities_wire(self) -> Seq<u8> {
        i32_le(self.inst_attrib_value) + u32_le(self.underlying_id) + i32_le(self.cleared_volume)
            + i32_le(self.market_depth_implied) + i32_le(self.market_depth)
            + u32_le(self.market_segment_id) + u32_le(self.max_trade_vol)
            + i32_le(self.min_lot_size) + i32_le(self.min_lot_size_block)
            + i32_le(self.min_lot_size_round_lot) + u32_le(self.min_trade_vol)
            + i32_le(self.open_interest_qty) + i32_le(self.contract_multiplier)
            + i32_le(self.decay_quantity) + i32_le(self.original_contract_size)
            + u32_le(self.related_security_id) + u16_le(self.trading_reference_date)
            + i16_le(self.appl_id) + u16_le(self.maturity_year) + u16_le(self.decay_start_date)
            + u16_le(self.channel_id)
    }

    /// The bytes of the text fields.
    pub open spec fn texts_wire(self) -> Seq<u8> {
        chars_le(self.currency@) + chars_le(self.settl_currency@) + chars_le(self.secsubtype@)
            + chars_le(self.symbol@) + chars_le(self.group@) + chars_le(self.exchange@)
            + chars_le(self.asset@) + chars_le(self.cfi@) + chars_le(self.security_type@)
            + chars_le(self.unit_of_measure@) + chars_le(self.underlying@)
            + chars_le(self.related@)
    }

    /// The bytes of the one-byte fields and the padding.
    pub open spec fn traits_wire(self) -> Seq<u8> {
        i8_le(self.match_algorithm) + u8_le(self.md_security_trading_status)
            + u8_le(self.main_fraction) + u8_le(self.price_display_format)
            + u8_le(self.settl_price_type) + u8_le(self.sub_fraction)
            + u8_le(self.underlying_product) + u8_le(self.security_update_action.code())
            + u8_le(self.maturity_month) + u8_le(self.maturity_day) + u8_le(self.maturity_week)
            + u8_le(self.user_defined_instrument) + i8_le(self.contract_multiplier_unit)
            + i8_le(self.flow_schedule_type) + u8_le(self.tick_rule) + chars_le(self._dummy@)
    }

    fn encode_prices(&self, out: &mut Vec<u8>)
        ensures
            final(out)@ == old(out)@ + self.prices_wire(),
    {
        put_u64(out, self.ts_recv);
        put_i64(out, self.min_price_increment);
        put_i64(out, self.display_factor);
        put_u64(out, self.expiration);
        put_u64(out, self.activation);
        put_i64(out, self.high_limit_price);
        put_i64(out, self.low_limit_price);
        put_i64(out, self.max_price_variation);
        put_i64(out, self.trading_reference_price);
        put_i64(out, self.unit_of_measure_qty);
        put_i64(out, self.min_price_increment_amount);
        put_i64(out, self.price_ratio);
        proof {
            assert(out@ =~= old(out)@ + self.prices_wire());
        }
    }

    fn encode_quantities(&self, out: &mut Vec<u8>)
        ensures
            final(out)@ == old(out)@ + self.quantities_wire(),
    {
        put_i32(out, self.inst_attrib_value);
        put_u32(out, self.underlying_id);
        put_i32(out, self.cleared_volume);
        put_i32(out, self.market_depth_implied);
        put_i32(out, self.market_depth);
        put_u32(out, self.market_segment_id);
        put_u32(out, self.max_trade_vol);
        put_i32(out, self.min_lot_size);
        put_i32(out, self.min_lot_size_block);
        put_i32(out, self.min_lot_size_round_lot);
        put_u32(out, self.min_trade_vol);
        put_i32(out, self.open_interest_qty);
        put_i32(out, self.contract_multiplier);
        put_i32(out, self.decay_quantity);
        put_i32(out, self.original_contract_size);
        put_u32(out, self.related_security_id);
        put_u16(out, self.trading_reference_date);
        put_i16(out, self.appl_id);
        put_u16(out, self.maturity_year);
        put_u16(out, self.decay_start_date);
        put_u16(out, self.channel_id);
        proof {
            assert(out@ =~= old(out)@ + self.quantities_wire());
        }
    }

    fn encode_texts(&self, out: &mut Vec<u8>)
        ensures
            final(out)@ == old(out)@ + self.texts_wire(),
    {
        put_chars::<4>(out, &self.currency);
        put_chars::<4>(out, &self.settl_currency);
        put_chars::<6>(out, &self.secsubtype);
        put_chars::<22>(out, &self.symbol);
        put_chars::<21>(out, &self.group);
        put_chars::<5>(out, &self.exchange);
        put_chars::<7>(out, &self.asset);
        put_chars::<7>(out, &self.cfi);
        put_chars::<7>(out, &self.security_type);
        put_chars::<31>(out, &self.unit_of_measure);
        put_chars::<21>(out, &self.underlying);
        put_chars::<21>(out, &self.related);
        proof {
            assert(out@ =~= old(out)@ + self.texts_wire());
        }
    }

    fn encode_traits(&self, out: &mut Vec<u8>)
        ensures
            final(out)@ == old(out)@ + self.traits_wire(),
    {
        put_i8(out, self.match_algorithm);
        put_u8(out, self.md_security_trading_status);
        put_u8(out, self.main_fraction);
        put_u8(out, self.price_display_format);
        put_u8(out, self.settl_price_type);
        put_u8(out, self.sub_fraction);
        put_u8(out, self.underlying_product);
        put_u8(out, self.security_update_action.as_u8());
        put_u8(out, self.maturity_month);
        put_u8(out, self.maturity_day);
        put_u8(out, self.maturity_week);
        put_u8(out, self.user_defined_instrument);
        put_i8(out, self.contract_multiplier_unit);
        put_i8(out, self.flow_schedule_type);
        put_u8(out, self.tick_rule);
        put_chars::<3>(out, &self._dummy);
        proof {
            assert(out@ =~= old(out)@ + self.traits_wire());
        }
    }

    proof fn lemma_section_sizes(r: Self)
        ensures
            r.prices_wire().len() == 96,
            r.quantities_wire().len() == 74,
            r.texts_wire().len() == 156,
            r.traits_wire().len() == 18,
    {
        lemma_wire();
    }

    proof fn lemma_prices(r: Self, pre: Seq<u8>, post: Seq<u8>)
        requires
            pre.len() == 16,
        ensures
            u64_at(pre + r.prices_wire() + post, 16) == r.ts_recv,
            i64_at(pre + r.prices_wire() + post, 24) == r.min_price_increment,
            i64_at(pre + r.prices_wire() + post, 32) == r.display_factor,
            u64_at(pre + r.prices_wire() + post, 40) == r.expiration,
            u64_at(pre + r.prices_wire() + post, 48) == r.activation,
            i64_at(pre + r.prices_wire() + post, 56) == r.high_limit_price,
            i64_at(pre + r.prices_wire() + post, 64) == r.low_limit_price,
            i64_at(pre + r.prices_wire() + post, 72) == r.max_price_variation,
            i64_at(pre + r.prices_wire() + post, 80) == r.trading_reference_price,
            i64_at(pre + r.prices_wire() + post, 88) == r.unit_of_measure_qty,
            i64_at(pre + r.prices_wire() + post, 96) == r.min_price_increment_amount,
            i64_at(pre + r.prices_wire() + post, 104) == r.price_ratio,
    {
        broadcast use {group_wire, lemma_subrange_of_second};

        lemma_wire();
        let e = pre + r.prices_wire() + post;
    }

    proof fn lemma_quantities(r: Self, pre: Seq<u8>, post: Seq<u8>)
        requires
            pre.len() == 112,
        ensures
            i32_at(pre + r.quantities_wire() + post, 112) == r.inst_attrib_value,
            u32_at(pre + r.quantities_wire() + post, 116) == r.underlying_id,
            i32_at(pre + r.quantities_wire() + post, 120) == r.cleared_volume,
            i32_at(pre + r.quantities_wire() + post, 124) == r.market_depth_implied,
            i32_at(pre + r.quantities_wire() + post, 128) == r.market_depth,
            u32_at(pre + r.quantities_wire() + post, 132) == r.market_segment_id,
            u32_at(pre + r.quantities_wire() + post, 136) == r.max_trade_vol,
            i32_at(pre + r.quantities_wire() + post, 140) == r.min_lot_size,
            i32_at(pre + r.quantities_wire() + post, 144) == r.min_lot_size_block,
            i32_at(pre + r.quantities_wire() + post, 148) == r.min_lot_size_round_lot,
            u32_at(pre + r.quantities_wire() + post, 152) == r.min_trade_vol,
            i32_at(pre + r.quantities_wire() + post, 156) == r.open_interest_qty,
            i32_at(pre + r.quantities_wire() + post, 160) == r.contract_multiplier,
            i32_at(pre + r.quantities_wire() + post, 164) == r.decay_quantity,
            i32_at(pre + r.quantities_wire() + post, 168) == r.original_contract_size,
            u32_at(pre + r.quantities_wire() + post, 172) == r.related_security_id,
            u16_at(pre + r.quantities_wire() + post, 176) == r.trading_reference_date,
            i16_at(pre + r.quantities_wire() + post, 178) == r.appl_id,
            u16_at(pre + r.quantities_wire() + post, 180) == r.maturity_year,
            u16_at(pre + r.quantities_wire() + post, 182) == r.decay_start_date,
            u16_at(pre + r.quantities_wire() + post, 184) == r.channel_id,
    {
        broadcast use {group_wire, lemma_subrange_of_second};

        lemma_wire();
        let e = pre + r.quantities_wire() + post;
    }

    proof fn lemma_texts(r: Self, pre: Seq<u8>, post: Seq<u8>)
        requires
            pre.len() == 186,
        ensures
            array_of::<i8, 4>(chars_at(pre + r.texts_wire() + post, 186, 4)) == r.currency,
            array_of::<i8, 4>(chars_at(pre + r.texts_wire() + post, 190, 4)) == r.settl_currency,
            array_of::<i8, 6>(chars_at(pre + r.texts_wire() + post, 194, 6)) == r.secsubtype,
            array_of::<i8, 22>(chars_at(pre + r.texts_wire() + post, 200, 22)) == r.symbol,
            array_of::<i8, 21>(chars_at(pre + r.texts_wire() + post, 222, 21)) == r.group,
            array_of::<i8, 5>(chars_at(pre + r.texts_wire() + post, 243, 5)) == r.exchange,
            array_of::<i8, 7>(chars_at(pre + r.texts_wire() + post, 248, 7)) == r.asset,
            array_of::<i8, 7>(chars_at(pre + r.texts_wire() + post, 255, 7)) == r.cfi,
            array_of::<i8, 7>(chars_at(pre + r.texts_wire() + post, 262, 7)) == r.security_type,
            array_of::<i8, 31>(chars_at(pre + r.texts_wire() + post, 269, 31)) == r.unit_of_measure,
            array_of::<i8, 21>(chars_at(pre + r.texts_wire() + post, 300, 21)) == r.underlying,
            array_of::<i8, 21>(chars_at(pre + r.texts_wire() + post, 321, 21)) == r.related,
    {
        broadcast use {group_wire, lemma_subrange_of_second};

        lemma_wire();
        let e = pre + r.texts_wire() + post;
        assert(chars_at(e, 186, 4) =~= r.currency@);
        lemma_array_of::<i8, 4>(r.currency);
        assert(chars_at(e, 190, 4) =~= r.settl_currency@);
        lemma_array_of::<i8, 4>(r.settl_currency);
        assert(chars_at(e, 194, 6) =~= r.secsubtype@);
        lemma_array_of::<i8, 6>(r.secsubtype);
        assert(chars_at(e, 200, 22) =~= r.symbol@);
        lemma_array_of::<i8, 22>(r.symbol);
        assert(chars_at(e, 222, 21) =~= r.group@);
        lemma_array_of::<i8, 21>(r.group);
        assert(chars_at(e, 243, 5) =~= r.exchange@);
        lemma_array_of::<i8, 5>(r.exchange);
        assert(chars_at(e, 248, 7) =~= r.asset@);
        lemma_array_of::<i8, 7>(r.asset);
        assert(chars_at(e, 255, 7) =~= r.cfi@);
        lemma_array_of::<i8, 7>(r.cfi);
        assert(chars_at(e, 262, 7) =~= r.security_type@);
        lemma_array_of::<i8, 7>(r.security_type);
        assert(chars_at(e, 269, 31) =~= r.unit_of_measure@);
        lemma_array_of::<i8, 31>(r.unit_of_measure);
        assert(chars_at(e, 300, 21) =~= r.underlying@);
        lemma_array_of::<i8, 21>(r.underlying);
        assert(chars_at(e, 321, 21) =~= r.related@);
        lemma_array_of::<i8, 21>(r.related);
    }

    proof fn lemma_traits(r: Self, pre: Seq<u8>, post: Seq<u8>)
        requires
            pre.len() == 342,
        ensures
            i8_at(pre + r.traits_wire() + post, 342) == r.match_algorithm,
            u8_at(pre + r.traits_wire() + post, 343) == r.md_security_trading_status,
            u8_at(pre + r.traits_wire() + post, 344) == r.main_fraction,
            u8_at(pre + r.traits_wire() + post, 345) == r.price_display_format,
            u8_at(pre + r.traits_wire() + post, 346) == r.settl_price_type,
            u8_at(pre + r.traits_wire() + post, 347) == r.sub_fraction,
            u8_at(pre + r.traits_wire() + post, 348) == r.underlying_product,
            SecurityUpdateAction::of_code(u8_at(pre + r.traits_wire() + post, 349))
                == r.security_update_action,
            u8_at(pre + r.traits_wire() + post, 350) == r.maturity_month,
            u8_at(pre + r.traits_wire() + post, 351) == r.maturity_day,
            u8_at(pre + r.traits_wire() + post, 352) == r.maturity_week,
            u8_at(pre + r.traits_wire() + post, 353) == r.user_defined_instrument,
            i8_at(pre + r.traits_wire() + post, 354) == r.contract_multiplier_unit,
            i8_at(pre + r.traits_wire() + post, 355) == r.flow_schedule_type,
            u8_at(pre + r.traits_wire() + post, 356) == r.tick_rule,
            array_of::<i8, 3>(chars_at(pre + r.traits_wire() + post, 357, 3)) == r._dummy,
    {
        broadcast use {group_wire, lemma_subrange_of_second};

        lemma_wire();
        let e = pre + r.traits_wire() + post;
        assert(chars_at(e, 357, 3) =~= r._dummy@);
        lemma_array_of::<i8, 3>(r._dummy);
    }
}

impl Plain for InstrumentDefMsg {
    proof fn lemma_plain() {
    }
}

} // verus!
