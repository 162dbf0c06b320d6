//! The rows of each schema of the catalog: the header's four fields, then
//! the schema's own in the order of its layout, without padding.
use crate::encode::csv::serialize::{
    column, lemma_level_width, lemma_row_join, lemma_row_step, level_cells, level_columns,
    px_cell, text_cell, ts_cell, write_px_field, write_ts_field, CsvSerialize, WriteField,
};
use crate::encode::csv::{pending_fields, Writer};
use crate::enums::SecurityUpdateAction;
use crate::pretty::{decimal, signed_decimal};
use crate::record::{
    BidAskPair, ErrorMsg, ImbalanceMsg, InstrumentDefMsg, MboMsg, Mbp10Msg, Mbp1Msg, OhlcvMsg,
    RecordHeader, StatMsg, StatusMsg, SymbolMappingMsg, SystemMsg, TradeMsg,
};
use vstd::prelude::*;

verus! {

impl CsvSerialize for MboMsg {
    open spec fn header_fields() -> Seq<Seq<u8>> {
        RecordHeader::columns(column("hd")) + Seq::empty()
            .push(column("order_id"))
            .push(column("price"))
            .push(column("size"))
            .push(column("flags"))
            .push(column("channel_id"))
            .push(column("action"))
            .push(column("side"))
            .push(column("ts_recv"))
            .push(column("ts_in_delta"))
            .push(column("sequence"))
    }

    open spec fn row_fields(&self, pretty_px: bool, pretty_ts: bool) -> Seq<Seq<u8>> {
        self.hd.cells(pretty_px, pretty_ts) + Seq::empty()
            .push(decimal(self.order_id as nat))
            .push(px_cell(self.price, pretty_px))
            .push(decimal(self.size as nat))
            .push(decimal(self.flags as nat))
            .push(decimal(self.channel_id as nat))
            .push(signed_decimal(self.action as int))
            .push(signed_decimal(self.side as int))
            .push(ts_cell(self.ts_recv, pretty_ts))
            .push(signed_decimal(self.ts_in_delta as int))
            .push(decimal(self.sequence as nat))
    }

    fn serialize_header(csv_writer: &mut Writer) -> (r: Result<(), ::csv::Error>) {
        let ghost before = pending_fields(*csv_writer);
        RecordHeader::write_header(csv_writer, "hd")?;
        let ghost start = pending_fields(*csv_writer);
        let ghost row: Seq<Seq<u8>> = Seq::empty();
        proof { lemma_row_join(start, row, row); }
        u64::write_header(csv_writer, "order_id")?;
        proof { row = lemma_row_step(start, row, column("order_id")); }
        i64::write_header(csv_writer, "price")?;
        proof { row = lemma_row_step(start, row, column("price")); }
        u32::write_header(csv_writer, "size")?;
        proof { row = lemma_row_step(start, row, column("size")); }
        u8::write_header(csv_writer, "flags")?;
        proof { row = lemma_row_step(start, row, column("flags")); }
        u8::write_header(csv_writer, "channel_id")?;
        proof { row = lemma_row_step(start, row, column("channel_id")); }
        i8::write_header(csv_writer, "action")?;
        proof { row = lemma_row_step(start, row, column("action")); }
        i8::write_header(csv_writer, "side")?;
        proof { row = lemma_row_step(start, row, column("side")); }
        u64::write_header(csv_writer, "ts_recv")?;
        proof { row = lemma_row_step(start, row, column("ts_recv")); }
        i32::write_header(csv_writer, "ts_in_delta")?;
        proof { row = lemma_row_step(start, row, column("ts_in_delta")); }
        u32::write_header(csv_writer, "sequence")?;
        proof { row = lemma_row_step(start, row, column("sequence")); }
        proof { lemma_row_join(before, RecordHeader::columns(column("hd")), row); }
        Ok(())
    }

    fn serialize_to<const PRETTY_PX: bool, const PRETTY_TS: bool>(
        &self,
        csv_writer: &mut Writer,
    ) -> (r: Result<(), ::csv::Error>) {
        let ghost before = pending_fields(*csv_writer);
        let ghost pretty_px = PRETTY_PX;
        let ghost pretty_ts = PRETTY_TS;
        self.hd.write_field::<PRETTY_PX, PRETTY_TS>(csv_writer)?;
        let ghost start = pending_fields(*csv_writer);
        let ghost row: Seq<Seq<u8>> = Seq::empty();
        proof { lemma_row_join(start, row, row); }
        self.order_id.write_field::<PRETTY_PX, PRETTY_TS>(csv_writer)?;
        proof { row = lemma_row_step(start, row, decimal(self.order_id as nat)); }
        write_px_field::<PRETTY_PX>(csv_writer, self.price)?;
        proof { row = lemma_row_step(start, row, px_cell(self.price, pretty_px)); }
        self.size.write_field::<PRETTY_PX, PRETTY_TS>(csv_writer)?;
        proof { row = lemma_row_step(start, row, decimal(self.size as nat)); }
        self.flags.write_field::<PRETTY_PX, PRETTY_TS>(csv_writer)?;
        proof { row = lemma_row_step(start, row, decimal(self.flags as nat)); }
        self.channel_id.write_field::<PRETTY_PX, PRETTY_TS>(csv_writer)?;
        proof { row = lemma_row_step(start, row, decimal(self.channel_id as nat)); }
        self.action.write_field::<PRETTY_PX, PRETTY_TS>(csv_writer)?;
        proof { row = lemma_row_step(start, row, signed_decimal(self.action as int)); }
        self.side.write_field::<PRETTY_PX, PRETTY_TS>(csv_writer)?;
        proof { row = lemma_row_step(start, row, signed_decimal(self.side as int)); }
        write_ts_field::<PRETTY_TS>(csv_writer, self.ts_recv)?;
        proof { row = lemma_row_step(start, row, ts_cell(self.ts_recv, pretty_ts)); }
        self.ts_in_delta.write_field::<PRETTY_PX, PRETTY_TS>(csv_writer)?;
        proof { row = lemma_row_step(start, row, signed_decimal(self.ts_in_delta as int)); }
        self.sequence.write_field::<PRETTY_PX, PRETTY_TS>(csv_writer)?;
        proof { row = lemma_row_step(start, row, decimal(self.sequence as nat)); }
        proof { lemma_row_join(before, self.hd.cells(pretty_px, pretty_ts), row); }
        Ok(())
    }

    proof fn lemma_columns(&self, pretty_px: bool, pretty_ts: bool) {
    }
}

impl CsvSerialize for TradeMsg {
    open spec fn header_fields() -> Seq<Seq<u8>> {
        RecordHeader::columns(column("hd")) + (Seq::empty()
            .push(column("price"))
            .push(column("size"))
            .push(column("action"))
            .push(column("side"))
            .push(column("flags"))
            .push(column("depth"))
            .push(column("ts_recv"))
            .push(column("ts_in_delta"))
            .push(column("sequence")) + level_columns(0))
    }

    open spec fn row_fields(&self, pretty_px: bool, pretty_ts: bool) -> Seq<Seq<u8>> {
        self.hd.cells(pretty_px, pretty_ts) + (Seq::empty()
            .push(px_cell(self.price, pretty_px))
            .push(decimal(self.size as nat))
            .push(signed_decimal(self.action as int))
            .push(signed_decimal(self.side as int))
            .push(decimal(self.flags as nat))
            .push(decimal(self.depth as nat))
            .push(ts_cell(self.ts_recv, pretty_ts))
            .push(signed_decimal(self.ts_in_delta as int))
            .push(decimal(self.sequence as nat)) + level_cells(self.booklevel@, pretty_px))
    }

    fn serialize_header(csv_writer: &mut Writer) -> (r: Result<(), ::csv::Error>) {
        let ghost before = pending_fields(*csv_writer);
        RecordHeader::write_header(csv_writer, "hd")?;
        let ghost start = pending_fields(*csv_writer);
        let ghost row: Seq<Seq<u8>> = Seq::empty();
        proof { lemma_row_join(start, row, row); }
        i64::write_header(csv_writer, "price")?;
        proof { row = lemma_row_step(start, row, column("price")); }
        u32::write_header(csv_writer, "size")?;
        proof { row = lemma_row_step(start, row, column("size")); }
        i8::write_header(csv_writer, "action")?;
        proof { row = lemma_row_step(start, row, column("action")); }
        i8::write_header(csv_writer, "side")?;
        proof { row = lemma_row_step(start, row, column("side")); }
        u8::write_header(csv_writer, "flags")?;
        proof { row = lemma_row_step(start, row, column("flags")); }
        u8::write_header(csv_writer, "depth")?;
        proof { row = lemma_row_step(start, row, column("depth")); }
        u64::write_header(csv_writer, "ts_recv")?;
        proof { row = lemma_row_step(start, row, column("ts_recv")); }
        i32::write_header(csv_writer, "ts_in_delta")?;
        proof { row = lemma_row_step(start, row, column("ts_in_delta")); }
        u32::write_header(csv_writer, "sequence")?;
        proof { row = lemma_row_step(start, row, column("sequence")); }
        <[BidAskPair; 0]>::write_header(csv_writer, "booklevel")?;
        proof {
            lemma_row_join(start, row, level_columns(0));
            lemma_row_join(
                before,
                RecordHeader::columns(column("hd")),
                row + level_columns(0),
            );
        }
        Ok(())
    }

    fn serialize_to<const PRETTY_PX: bool, const PRETTY_TS: bool>(
        &self,
        csv_writer: &mut Writer,
    ) -> (r: Result<(), ::csv::Error>) {
        let ghost before = pending_fields(*csv_writer);
        let ghost pretty_px = PRETTY_PX;
        let ghost pretty_ts = PRETTY_TS;
        self.hd.write_field::<PRETTY_PX, PRETTY_TS>(csv_writer)?;
        let ghost start = pending_fields(*csv_writer);
        let ghost row: Seq<Seq<u8>> = Seq::empty();
        proof { lemma_row_join(start, row, row); }
        write_px_field::<PRETTY_PX>(csv_writer, self.price)?;
        proof { row = lemma_row_step(start, row, px_cell(self.price, pretty_px)); }
        self.size.write_field::<PRETTY_PX, PRETTY_TS>(csv_writer)?;
        proof { row = lemma_row_step(start, row, decimal(self.size as nat)); }
        self.action.write_field::<PRETTY_PX, PRETTY_TS>(csv_writer)?;
        proof { row = lemma_row_step(start, row, signed_decimal(self.action as int)); }
        self.side.write_field::<PRETTY_PX, PRETTY_TS>(csv_writer)?;
        proof { row = lemma_row_step(start, row, signed_decimal(self.side as int)); }
        self.flags.write_field::<PRETTY_PX, PRETTY_TS>(csv_writer)?;
        proof { row = lemma_row_step(start, row, decimal(self.flags as nat)); }
        self.depth.write_field::<PRETTY_PX, PRETTY_TS>(csv_writer)?;
        proof { row = lemma_row_step(start, row, decimal(self.depth as nat)); }
        write_ts_field::<PRETTY_TS>(csv_writer, self.ts_recv)?;
        proof { row = lemma_row_step(start, row, ts_cell(self.ts_recv, pretty_ts)); }
        self.ts_in_delta.write_field::<PRETTY_PX, PRETTY_TS>(csv_writer)?;
        proof { row = lemma_row_step(start, row, signed_decimal(self.ts_in_delta as int)); }
        self.sequence.write_field::<PRETTY_PX, PRETTY_TS>(csv_writer)?;
        proof { row = lemma_row_step(start, row, decimal(self.sequence as nat)); }
        self.booklevel.write_field::<PRETTY_PX, PRETTY_TS>(csv_writer)?;
        proof {
            lemma_row_join(start, row, level_cells(self.booklevel@, pretty_px));
            lemma_row_join(
                before,
                self.hd.cells(pretty_px, pretty_ts),
                row + level_cells(self.booklevel@, pretty_px),
            );
        }
        Ok(())
    }

    proof fn lemma_columns(&self, pretty_px: bool, pretty_ts: bool) {
        lemma_level_width(self.booklevel@, pretty_px);
    }
}

impl CsvSerialize for Mbp1Msg {
    open spec fn header_fields() -> Seq<Seq<u8>> {
        RecordHeader::columns(column("hd")) + (Seq::empty()
            .push(column("price"))
            .push(column("size"))
            .push(column("action"))
            .push(column("side"))
            .push(column("flags"))
            .push(column("depth"))
            .push(column("ts_recv"))
            .push(column("ts_in_delta"))
            .push(column("sequence")) + level_columns(1))
    }

    open spec fn row_fields(&self, pretty_px: bool, pretty_ts: bool) -> Seq<Seq<u8>> {
        self.hd.cells(pretty_px, pretty_ts) + (Seq::empty()
            .push(px_cell(self.price, pretty_px))
            .push(decimal(self.size as nat))
            .push(signed_decimal(self.action as int))
            .push(signed_decimal(self.side as int))
            .push(decimal(self.flags as nat))
            .push(decimal(self.depth as nat))
            .push(ts_cell(self.ts_recv, pretty_ts))
            .push(signed_decimal(self.ts_in_delta as int))
            .push(decimal(self.sequence as nat)) + level_cells(self.booklevel@, pretty_px))
    }

    fn serialize_header(csv_writer: &mut Writer) -> (r: Result<(), ::csv::Error>) {
        let ghost before = pending_fields(*csv_writer);
        RecordHeader::write_header(csv_writer, "hd")?;
        let ghost start = pending_fields(*csv_writer);
        let ghost row: Seq<Seq<u8>> = Seq::empty();
        proof { lemma_row_join(start, row, row); }
        i64::write_header(csv_writer, "price")?;
        proof { row = lemma_row_step(start, row, column("price")); }
        u32::write_header(csv_writer, "size")?;
        proof { row = lemma_row_step(start, row, column("size")); }
        i8::write_header(csv_writer, "action")?;
        proof { row = lemma_row_step(start, row, column("action")); }
        i8::write_header(csv_writer, "side")?;
        proof { row = lemma_row_step(start, row, column("side")); }
        u8::write_header(csv_writer, "flags")?;
        proof { row = lemma_row_step(start, row, column("flags")); }
        u8::write_header(csv_writer, "depth")?;
        proof { row = lemma_row_step(start, row, column("depth")); }
        u64::write_header(csv_writer, "ts_recv")?;
        proof { row = lemma_row_step(start, row, column("ts_recv")); }
        i32::write_header(csv_writer, "ts_in_delta")?;
        proof { row = lemma_row_step(start, row, column("ts_in_delta")); }
        u32::write_header(csv_writer, "sequence")?;
        proof { row = lemma_row_step(start, row, column("sequence")); }
        <[BidAskPair; 1]>::write_header(csv_writer, "booklevel")?;
        proof {
            lemma_row_join(start, row, level_columns(1));
            lemma_row_join(
                before,
                RecordHeader::columns(column("hd")),
                row + level_columns(1),
            );
        }
        Ok(())
    }

    fn serialize_to<const PRETTY_PX: bool, const PRETTY_TS: bool>(
        &self,
        csv_writer: &mut Writer,
    ) -> (r: Result<(), ::csv::Error>) {
        let ghost before = pending_fields(*csv_writer);
        let ghost pretty_px = PRETTY_PX;
        let ghost pretty_ts = PRETTY_TS;
        self.hd.write_field::<PRETTY_PX, PRETTY_TS>(csv_writer)?;
        let ghost start = pending_fields(*csv_writer);
        let ghost row: Seq<Seq<u8>> = Seq::empty();
        proof { lemma_row_join(start, row, row); }
        write_px_field::<PRETTY_PX>(csv_writer, self.price)?;
        proof { row = lemma_row_step(start, row, px_cell(self.price, pretty_px)); }
        self.size.write_field::<PRETTY_PX, PRETTY_TS>(csv_writer)?;
        proof { row = lemma_row_step(start, row, decimal(self.size as nat)); }
        self.action.write_field::<PRETTY_PX, PRETTY_TS>(csv_writer)?;
        proof { row = lemma_row_step(start, row, signed_decimal(self.action as int)); }
        self.side.write_field::<PRETTY_PX, PRETTY_TS>(csv_writer)?;
        proof { row = lemma_row_step(start, row, signed_decimal(self.side as int)); }
        self.flags.write_field::<PRETTY_PX, PRETTY_TS>(csv_writer)?;
        proof { row = lemma_row_step(start, row, decimal(self.flags as nat)); }
        self.depth.write_field::<PRETTY_PX, PRETTY_TS>(csv_writer)?;
        proof { row = lemma_row_step(start, row, decimal(self.depth as nat)); }
        write_ts_field::<PRETTY_TS>(csv_writer, self.ts_recv)?;
        proof { row = lemma_row_step(start, row, ts_cell(self.ts_recv, pretty_ts)); }
        self.ts_in_delta.write_field::<PRETTY_PX, PRETTY_TS>(csv_writer)?;
        proof { row = lemma_row_step(start, row, signed_decimal(self.ts_in_delta as int)); }
        self.sequence.write_field::<PRETTY_PX, PRETTY_TS>(csv_writer)?;
        proof { row = lemma_row_step(start, row, decimal(self.sequence as nat)); }
        self.booklevel.write_field::<PRETTY_PX, PRETTY_TS>(csv_writer)?;
        proof {
            lemma_row_join(start, row, level_cells(self.booklevel@, pretty_px));
            lemma_row_join(
                before,
                self.hd.cells(pretty_px, pretty_ts),
                row + level_cells(self.booklevel@, pretty_px),
            );
        }
        Ok(())
    }

    proof fn lemma_columns(&self, pretty_px: bool, pretty_ts: bool) {
        lemma_level_width(self.booklevel@, pretty_px);
    }
}

impl CsvSerialize for Mbp10Msg {
    open spec fn header_fields() -> Seq<Seq<u8>> {
        RecordHeader::columns(column("hd")) + (Seq::empty()
            .push(column("price"))
            .push(column("size"))
            .push(column("action"))
            .push(column("side"))
            .push(column("flags"))
            .push(column("depth"))
            .push(column("ts_recv"))
            .push(column("ts_in_delta"))
            .push(column("sequence")) + level_columns(10))
    }

    open spec fn row_fields(&self, pretty_px: bool, pretty_ts: bool) -> Seq<Seq<u8>> {
        self.hd.cells(pretty_px, pretty_ts) + (Seq::empty()
            .push(px_cell(self.price, pretty_px))
            .push(decimal(self.size as nat))
            .push(signed_decimal(self.action as int))
            .push(signed_decimal(self.side as int))
            .push(decimal(self.flags as nat))
            .push(decimal(self.depth as nat))
            .push(ts_cell(self.ts_recv, pretty_ts))
            .push(signed_decimal(self.ts_in_delta as int))
            .push(decimal(self.sequence as nat)) + level_cells(self.booklevel@, pretty_px))
    }

    fn serialize_header(csv_writer: &mut Writer) -> (r: Result<(), ::csv::Error>) {
        let ghost before = pending_fields(*csv_writer);
        RecordHeader::write_header(csv_writer, "hd")?;
        let ghost start = pending_fields(*csv_writer);
        let ghost row: Seq<Seq<u8>> = Seq::empty();
        proof { lemma_row_join(start, row, row); }
        i64::write_header(csv_writer, "price")?;
        proof { row = lemma_row_step(start, row, column("price")); }
        u32::write_header(csv_writer, "size")?;
        proof { row = lemma_row_step(start, row, column("size")); }
        i8::write_header(csv_writer, "action")?;
        proof { row = lemma_row_step(start, row, column("action")); }
        i8::write_header(csv_writer, "side")?;
        proof { row = lemma_row_step(start, row, column("side")); }
        u8::write_header(csv_writer, "flags")?;
        proof { row = lemma_row_step(start, row, column("flags")); }
        u8::write_header(csv_writer, "depth")?;
        proof { row = lemma_row_step(start, row, column("depth")); }
        u64::write_header(csv_writer, "ts_recv")?;
        proof { row = lemma_row_step(start, row, column("ts_recv")); }
        i32::write_header(csv_writer, "ts_in_delta")?;
        proof { row = lemma_row_step(start, row, column("ts_in_delta")); }
        u32::write_header(csv_writer, "sequence")?;
        proof { row = lemma_row_step(start, row, column("sequence")); }
        <[BidAskPair; 10]>::write_header(csv_writer, "booklevel")?;
        proof {
            lemma_row_join(start, row, level_columns(10));
            lemma_row_join(
                before,
                RecordHeader::columns(column("hd")),
                row + level_columns(10),
            );
        }
        Ok(())
    }

    fn serialize_to<const PRETTY_PX: bool, const PRETTY_TS: bool>(
        &self,
        csv_writer: &mut Writer,
    ) -> (r: Result<(), ::csv::Error>) {
        let ghost before = pending_fields(*csv_writer);
        let ghost pretty_px = PRETTY_PX;
        let ghost pretty_ts = PRETTY_TS;
        self.hd.write_field::<PRETTY_PX, PRETTY_TS>(csv_writer)?;
        let ghost start = pending_fields(*csv_writer);
        let ghost row: Seq<Seq<u8>> = Seq::empty();
        proof { lemma_row_join(start, row, row); }
        write_px_field::<PRETTY_PX>(csv_writer, self.price)?;
        proof { row = lemma_row_step(start, row, px_cell(self.price, pretty_px)); }
        self.size.write_field::<PRETTY_PX, PRETTY_TS>(csv_writer)?;
        proof { row = lemma_row_step(start, row, decimal(self.size as nat)); }
        self.action.write_field::<PRETTY_PX, PRETTY_TS>(csv_writer)?;
        proof { row = lemma_row_step(start, row, signed_decimal(self.action as int)); }
        self.side.write_field::<PRETTY_PX, PRETTY_TS>(csv_writer)?;
        proof { row = lemma_row_step(start, row, signed_decimal(self.side as int)); }
        self.flags.write_field::<PRETTY_PX, PRETTY_TS>(csv_writer)?;
        proof { row = lemma_row_step(start, row, decimal(self.flags as nat)); }
        self.depth.write_field::<PRETTY_PX, PRETTY_TS>(csv_writer)?;
        proof { row = lemma_row_step(start, row, decimal(self.depth as nat)); }
        write_ts_field::<PRETTY_TS>(csv_writer, self.ts_recv)?;
        proof { row = lemma_row_step(start, row, ts_cell(self.ts_recv, pretty_ts)); }
        self.ts_in_delta.write_field::<PRETTY_PX, PRETTY_TS>(csv_writer)?;
        proof { row = lemma_row_step(start, row, signed_decimal(self.ts_in_delta as int)); }
        self.sequence.write_field::<PRETTY_PX, PRETTY_TS>(csv_writer)?;
        proof { row = lemma_row_step(start, row, decimal(self.sequence as nat)); }
        self.booklevel.write_field::<PRETTY_PX, PRETTY_TS>(csv_writer)?;
        proof {
            lemma_row_join(start, row, level_cells(self.booklevel@, pretty_px));
            lemma_row_join(
                before,
                self.hd.cells(pretty_px, pretty_ts),
                row + level_cells(self.booklevel@, pretty_px),
            );
        }
        Ok(())
    }

    proof fn lemma_columns(&self, pretty_px: bool, pretty_ts: bool) {
        lemma_level_width(self.booklevel@, pretty_px);
    }
}

impl CsvSerialize for OhlcvMsg {
    open spec fn header_fields() -> Seq<Seq<u8>> {
        RecordHeader::columns(column("hd")) + Seq::empty()
            .push(column("open"))
            .push(column("high"))
            .push(column("low"))
            .push(column("close"))
            .push(column("volume"))
    }

    open spec fn row_fields(&self, pretty_px: bool, pretty_ts: bool) -> Seq<Seq<u8>> {
        self.hd.cells(pretty_px, pretty_ts) + Seq::empty()
            .push(px_cell(self.open, pretty_px))
            .push(px_cell(self.high, pretty_px))
            .push(px_cell(self.low, pretty_px))
            .push(px_cell(self.close, pretty_px))
            .push(decimal(self.volume as nat))
    }

    fn serialize_header(csv_writer: &mut Writer) -> (r: Result<(), ::csv::Error>) {
        let ghost before = pending_fields(*csv_writer);
        RecordHeader::write_header(csv_writer, "hd")?;
        let ghost start = pending_fields(*csv_writer);
        let ghost row: Seq<Seq<u8>> = Seq::empty();
        proof { lemma_row_join(start, row, row); }
        i64::write_header(csv_writer, "open")?;
        proof { row = lemma_row_step(start, row, column("open")); }
        i64::write_header(csv_writer, "high")?;
        proof { row = lemma_row_step(start, row, column("high")); }
        i64::write_header(csv_writer, "low")?;
        proof { row = lemma_row_step(start, row, column("low")); }
        i64::write_header(csv_writer, "close")?;
        proof { row = lemma_row_step(start, row, column("close")); }
        u64::write_header(csv_writer, "volume")?;
        proof { row = lemma_row_step(start, row, column("volume")); }
        proof { lemma_row_join(before, RecordHeader::columns(column("hd")), row); }
        Ok(())
    }

    fn serialize_to<const PRETTY_PX: bool, const PRETTY_TS: bool>(
        &self,
        csv_writer: &mut Writer,
    ) -> (r: Result<(), ::csv::Error>) {
        let ghost before = pending_fields(*csv_writer);
        let ghost pretty_px = PRETTY_PX;
        let ghost pretty_ts = PRETTY_TS;
        self.hd.write_field::<PRETTY_PX, PRETTY_TS>(csv_writer)?;
        let ghost start = pending_fields(*csv_writer);
        let ghost row: Seq<Seq<u8>> = Seq::empty();
        proof { lemma_row_join(start, row, row); }
        write_px_field::<PRETTY_PX>(csv_writer, self.open)?;
        proof { row = lemma_row_step(start, row, px_cell(self.open, pretty_px)); }
        write_px_field::<PRETTY_PX>(csv_writer, self.high)?;
        proof { row = lemma_row_step(start, row, px_cell(self.high, pretty_px)); }
        write_px_field::<PRETTY_PX>(csv_writer, self.low)?;
        proof { row = lemma_row_step(start, row, px_cell(self.low, pretty_px)); }
        write_px_field::<PRETTY_PX>(csv_writer, self.close)?;
        proof { row = lemma_row_step(start, row, px_cell(self.close, pretty_px)); }
        self.volume.write_field::<PRETTY_PX, PRETTY_TS>(csv_writer)?;
        proof { row = lemma_row_step(start, row, decimal(self.volume as nat)); }
        proof { lemma_row_join(before, self.hd.cells(pretty_px, pretty_ts), row); }
        Ok(())
    }

    proof fn lemma_columns(&self, pretty_px: bool, pretty_ts: bool) {
    }
}

impl CsvSerialize for StatusMsg {
    open spec fn header_fields() -> Seq<Seq<u8>> {
        RecordHeader::columns(column("hd")) + Seq::empty()
            .push(column("ts_recv"))
            .push(column("group"))
            .push(column("trading_status"))
            .push(column("halt_reason"))
            .push(column("trading_event"))
    }

    open spec fn row_fields(&self, pretty_px: bool, pretty_ts: bool) -> Seq<Seq<u8>> {
        self.hd.cells(pretty_px, pretty_ts) + Seq::empty()
            .push(ts_cell(self.ts_recv, pretty_ts))
            .push(text_cell(self.group@))
            .push(decimal(self.trading_status as nat))
            .push(decimal(self.halt_reason as nat))
            .push(decimal(self.trading_event as nat))
    }

    fn serialize_header(csv_writer: &mut Writer) -> (r: Result<(), ::csv::Error>) {
        let ghost before = pending_fields(*csv_writer);
        RecordHeader::write_header(csv_writer, "hd")?;
        let ghost start = pending_fields(*csv_writer);
        let ghost row: Seq<Seq<u8>> = Seq::empty();
        proof { lemma_row_join(start, row, row); }
        u64::write_header(csv_writer, "ts_recv")?;
        proof { row = lemma_row_step(start, row, column("ts_recv")); }
        <[i8; 21]>::write_header(csv_writer, "group")?;
        proof { row = lemma_row_step(start, row, column("group")); }
        u8::write_header(csv_writer, "trading_status")?;
        proof { row = lemma_row_step(start, row, column("trading_status")); }
        u8::write_header(csv_writer, "halt_reason")?;
        proof { row = lemma_row_step(start, row, column("halt_reason")); }
        u8::write_header(csv_writer, "trading_event")?;
        proof { row = lemma_row_step(start, row, column("trading_event")); }
        proof { lemma_row_join(before, RecordHeader::columns(column("hd")), row); }
        Ok(())
    }

    fn serialize_to<const PRETTY_PX: bool, const PRETTY_TS: bool>(
        &self,
        csv_writer: &mut Writer,
    ) -> (r: Result<(), ::csv::Error>) {
        let ghost before = pending_fields(*csv_writer);
        let ghost pretty_px = PRETTY_PX;
        let ghost pretty_ts = PRETTY_TS;
        self.hd.write_field::<PRETTY_PX, PRETTY_TS>(csv_writer)?;
        let ghost start = pending_fields(*csv_writer);
        let ghost row: Seq<Seq<u8>> = Seq::empty();
        proof { lemma_row_join(start, row, row); }
        write_ts_field::<PRETTY_TS>(csv_writer, self.ts_recv)?;
        proof { row = lemma_row_step(start, row, ts_cell(self.ts_recv, pretty_ts)); }
        self.group.write_field::<PRETTY_PX, PRETTY_TS>(csv_writer)?;
        proof { row = lemma_row_step(start, row, text_cell(self.group@)); }
        self.trading_status.write_field::<PRETTY_PX, PRETTY_TS>(csv_writer)?;
        proof { row = lemma_row_step(start, row, decimal(self.trading_status as nat)); }
        self.halt_reason.write_field::<PRETTY_PX, PRETTY_TS>(csv_writer)?;
        proof { row = lemma_row_step(start, row, decimal(self.halt_reason as nat)); }
        self.trading_event.write_field::<PRETTY_PX, PRETTY_TS>(csv_writer)?;
        proof { row = lemma_row_step(start, row, decimal(self.trading_event as nat)); }
        proof { lemma_row_join(before, self.hd.cells(pretty_px, pretty_ts), row); }
        Ok(())
    }

    proof fn lemma_columns(&self, pretty_px: bool, pretty_ts: bool) {
    }
}

impl CsvSerialize for ImbalanceMsg {
    open spec fn header_fields() -> Seq<Seq<u8>> {
        RecordHeader::columns(column("hd")) + Seq::empty()
            .push(column("ts_recv"))
            .push(column("ref_price"))
            .push(column("auction_time"))
            .push(column("cont_book_clr_price"))
            .push(column("auct_interest_clr_price"))
            .push(column("ssr_filling_price"))
            .push(column("ind_match_price"))
            .push(column("upper_collar"))
            .push(column("lower_collar"))
            .push(column("paired_qty"))
            .push(column("total_imbalance_qty"))
            .push(column("market_imbalance_qty"))
            .push(column("unpaired_qty"))
            .push(column("auction_type"))
            .push(column("side"))
            .push(column("auction_status"))
            .push(column("freeze_status"))
            .push(column("num_extensions"))
            .push(column("unpaired_side"))
            .push(column("significant_imbalance"))
    }

    open spec fn row_fields(&self, pretty_px: bool, pretty_ts: bool) -> Seq<Seq<u8>> {
        self.hd.cells(pretty_px, pretty_ts) + Seq::empty()
            .push(ts_cell(self.ts_recv, pretty_ts))
            .push(px_cell(self.ref_price, pretty_px))
            .push(ts_cell(self.auction_time, pretty_ts))
            .push(px_cell(self.cont_book_clr_price, pretty_px))
            .push(px_cell(self.auct_interest_clr_price, pretty_px))
            .push(px_cell(self.ssr_filling_price, pretty_px))
            .push(px_cell(self.ind_match_price, pretty_px))
            .push(px_cell(self.upper_collar, pretty_px))
            .push(px_cell(self.lower_collar, pretty_px))
            .push(decimal(self.paired_qty as nat))
            .push(decimal(self.total_imbalance_qty as nat))
            .push(decimal(self.market_imbalance_qty as nat))
            .push(decimal(self.unpaired_qty as nat))
            .push(signed_decimal(self.auction_type as int))
            .push(signed_decimal(self.side as int))
            .push(decimal(self.auction_status as nat))
            .push(decimal(self.freeze_status as nat))
            .push(decimal(self.num_extensions as nat))
            .push(signed_decimal(self.unpaired_side as int))
            .push(signed_decimal(self.significant_imbalance as int))
    }

    fn serialize_header(csv_writer: &mut Writer) -> (r: Result<(), ::csv::Error>) {
        let ghost before = pending_fields(*csv_writer);
        RecordHeader::write_header(csv_writer, "hd")?;
        let ghost start = pending_fields(*csv_writer);
        let ghost row: Seq<Seq<u8>> = Seq::empty();
        proof { lemma_row_join(start, row, row); }
        u64::write_header(csv_writer, "ts_recv")?;
        proof { row = lemma_row_step(start, row, column("ts_recv")); }
        i64::write_header(csv_writer, "ref_price")?;
        proof { row = lemma_row_step(start, row, column("ref_price")); }
        u64::write_header(csv_writer, "auction_time")?;
        proof { row = lemma_row_step(start, row, column("auction_time")); }
        i64::write_header(csv_writer, "cont_book_clr_price")?;
        proof { row = lemma_row_step(start, row, column("cont_book_clr_price")); }
        i64::write_header(csv_writer, "auct_interest_clr_price")?;
        proof { row = lemma_row_step(start, row, column("auct_interest_clr_price")); }
        i64::write_header(csv_writer, "ssr_filling_price")?;
        proof { row = lemma_row_step(start, row, column("ssr_filling_price")); }
        i64::write_header(csv_writer, "ind_match_price")?;
        proof { row = lemma_row_step(start, row, column("ind_match_price")); }
        i64::write_header(csv_writer, "upper_collar")?;
        proof { row = lemma_row_step(start, row, column("upper_collar")); }
        i64::write_header(csv_writer, "lower_collar")?;
        proof { row = lemma_row_step(start, row, column("lower_collar")); }
        u32::write_header(csv_writer, "paired_qty")?;
        proof { row = lemma_row_step(start, row, column("paired_qty")); }
        u32::write_header(csv_writer, "total_imbalance_qty")?;
        proof { row = lemma_row_step(start, row, column("total_imbalance_qty")); }
        u32::write_header(csv_writer, "market_imbalance_qty")?;
        proof { row = lemma_row_step(start, row, column("market_imbalance_qty")); }
        u32::write_header(csv_writer, "unpaired_qty")?;
        proof { row = lemma_row_step(start, row, column("unpaired_qty")); }
        i8::write_header(csv_writer, "auction_type")?;
        proof { row = lemma_row_step(start, row, column("auction_type")); }
        i8::write_header(csv_writer, "side")?;
        proof { row = lemma_row_step(start, row, column("side")); }
        u8::write_header(csv_writer, "auction_status")?;
        proof { row = lemma_row_step(start, row, column("auction_status")); }
        u8::write_header(csv_writer, "freeze_status")?;
        proof { row = lemma_row_step(start, row, column("freeze_status")); }
        u8::write_header(csv_writer, "num_extensions")?;
        proof { row = lemma_row_step(start, row, column("num_extensions")); }
        i8::write_header(csv_writer, "unpaired_side")?;
        proof { row = lemma_row_step(start, row, column("unpaired_side")); }
        i8::write_header(csv_writer, "significant_imbalance")?;
        proof { row = lemma_row_step(start, row, column("significant_imbalance")); }
        proof { lemma_row_join(before, RecordHeader::columns(column("hd")), row); }
        Ok(())
    }

    fn serialize_to<const PRETTY_PX: bool, const PRETTY_TS: bool>(
        &self,
        csv_writer: &mut Writer,
    ) -> (r: Result<(), ::csv::Error>) {
        let ghost before = pending_fields(*csv_writer);
        let ghost pretty_px = PRETTY_PX;
        let ghost pretty_ts = PRETTY_TS;
        self.hd.write_field::<PRETTY_PX, PRETTY_TS>(csv_writer)?;
        let ghost start = pending_fields(*csv_writer);
        let ghost row: Seq<Seq<u8>> = Seq::empty();
        proof { lemma_row_join(start, row, row); }
        write_ts_field::<PRETTY_TS>(csv_writer, self.ts_recv)?;
        proof { row = lemma_row_step(start, row, ts_cell(self.ts_recv, pretty_ts)); }
        write_px_field::<PRETTY_PX>(csv_writer, self.ref_price)?;
        proof { row = lemma_row_step(start, row, px_cell(self.ref_price, pretty_px)); }
        write_ts_field::<PRETTY_TS>(csv_writer, self.auction_time)?;
        proof { row = lemma_row_step(start, row, ts_cell(self.auction_time, pretty_ts)); }
        write_px_field::<PRETTY_PX>(csv_writer, self.cont_book_clr_price)?;
        proof { row = lemma_row_step(start, row, px_cell(self.cont_book_clr_price, pretty_px)); }
        write_px_field::<PRETTY_PX>(csv_writer, self.auct_interest_clr_price)?;
        proof { row = lemma_row_step(start, row, px_cell(self.auct_interest_clr_price, pretty_px)); }
        write_px_field::<PRETTY_PX>(csv_writer, self.ssr_filling_price)?;
        proof { row = lemma_row_step(start, row, px_cell(self.ssr_filling_price, pretty_px)); }
        write_px_field::<PRETTY_PX>(csv_writer, self.ind_match_price)?;
        proof { row = lemma_row_step(start, row, px_cell(self.ind_match_price, pretty_px)); }
        write_px_field::<PRETTY_PX>(csv_writer, self.upper_collar)?;
        proof { row = lemma_row_step(start, row, px_cell(self.upper_collar, pretty_px)); }
        write_px_field::<PRETTY_PX>(csv_writer, self.lower_collar)?;
        proof { row = lemma_row_step(start, row, px_cell(self.lower_collar, pretty_px)); }
        self.paired_qty.write_field::<PRETTY_PX, PRETTY_TS>(csv_writer)?;
        proof { row = lemma_row_step(start, row, decimal(self.paired_qty as nat)); }
        self.total_imbalance_qty.write_field::<PRETTY_PX, PRETTY_TS>(csv_writer)?;
        proof { row = lemma_row_step(start, row, decimal(self.total_imbalance_qty as nat)); }
        self.market_imbalance_qty.write_field::<PRETTY_PX, PRETTY_TS>(csv_writer)?;
        proof { row = lemma_row_step(start, row, decimal(self.market_imbalance_qty as nat)); }
        self.unpaired_qty.write_field::<PRETTY_PX, PRETTY_TS>(csv_writer)?;
        proof { row = lemma_row_step(start, row, decimal(self.unpaired_qty as nat)); }
        self.auction_type.write_field::<PRETTY_PX, PRETTY_TS>(csv_writer)?;
        proof { row = lemma_row_step(start, row, signed_decimal(self.auction_type as int)); }
        self.side.write_field::<PRETTY_PX, PRETTY_TS>(csv_writer)?;
        proof { row = lemma_row_step(start, row, signed_decimal(self.side as int)); }
        self.auction_status.write_field::<PRETTY_PX, PRETTY_TS>(csv_writer)?;
        proof { row = lemma_row_step(start, row, decimal(self.auction_status as nat)); }
        self.freeze_status.write_field::<PRETTY_PX, PRETTY_TS>(csv_writer)?;
        proof { row = lemma_row_step(start, row, decimal(self.freeze_status as nat)); }
        self.num_extensions.write_field::<PRETTY_PX, PRETTY_TS>(csv_writer)?;
        proof { row = lemma_row_step(start, row, decimal(self.num_extensions as nat)); }
        self.unpaired_side.write_field::<PRETTY_PX, PRETTY_TS>(csv_writer)?;
        proof { row = lemma_row_step(start, row, signed_decimal(self.unpaired_side as int)); }
        self.significant_imbalance.write_field::<PRETTY_PX, PRETTY_TS>(csv_writer)?;
        proof { row = lemma_row_step(start, row, signed_decimal(self.significant_imbalance as int)); }
        proof { lemma_row_join(before, self.hd.cells(pretty_px, pretty_ts), row); }
        Ok(())
    }

    proof fn lemma_columns(&self, pretty_px: bool, pretty_ts: bool) {
    }
}

impl CsvSerialize for StatMsg {
    open spec fn header_fields() -> Seq<Seq<u8>> {
        RecordHeader::columns(column("hd")) + Seq::empty()
            .push(column("ts_recv"))
            .push(column("ts_ref"))
            .push(column("price"))
            .push(column("quantity"))
            .push(column("sequence"))
            .push(column("ts_in_delta"))
            .push(column("stat_type"))
            .push(column("channel_id"))
            .push(column("update_action"))
            .push(column("stat_flags"))
    }

    open spec fn row_fields(&self, pretty_px: bool, pretty_ts: bool) -> Seq<Seq<u8>> {
        self.hd.cells(pretty_px, pretty_ts) + Seq::empty()
            .push(ts_cell(self.ts_recv, pretty_ts))
            .push(ts_cell(self.ts_ref, pretty_ts))
            .push(px_cell(self.price, pretty_px))
            .push(signed_decimal(self.quantity as int))
            .push(decimal(self.sequence as nat))
            .push(signed_decimal(self.ts_in_delta as int))
            .push(decimal(self.stat_type as nat))
            .push(decimal(self.channel_id as nat))
            .push(decimal(self.update_action as nat))
            .push(decimal(self.stat_flags as nat))
    }

    fn serialize_header(csv_writer: &mut Writer) -> (r: Result<(), ::csv::Error>) {
        let ghost before = pending_fields(*csv_writer);
        RecordHeader::write_header(csv_writer, "hd")?;
        let ghost start = pending_fields(*csv_writer);
        let ghost row: Seq<Seq<u8>> = Seq::empty();
        proof { lemma_row_join(start, row, row); }
        u64::write_header(csv_writer, "ts_recv")?;
        proof { row = lemma_row_step(start, row, column("ts_recv")); }
        u64::write_header(csv_writer, "ts_ref")?;
        proof { row = lemma_row_step(start, row, column("ts_ref")); }
        i64::write_header(csv_writer, "price")?;
        proof { row = lemma_row_step(start, row, column("price")); }
        i32::write_header(csv_writer, "quantity")?;
        proof { row = lemma_row_step(start, row, column("quantity")); }
        u32::write_header(csv_writer, "sequence")?;
        proof { row = lemma_row_step(start, row, column("sequence")); }
        i32::write_header(csv_writer, "ts_in_delta")?;
        proof { row = lemma_row_step(start, row, column("ts_in_delta")); }
        u16::write_header(csv_writer, "stat_type")?;
        proof { row = lemma_row_step(start, row, column("stat_type")); }
        u16::write_header(csv_writer, "channel_id")?;
        proof { row = lemma_row_step(start, row, column("channel_id")); }
        u8::write_header(csv_writer, "update_action")?;
        proof { row = lemma_row_step(start, row, column("update_action")); }
        u8::write_header(csv_writer, "stat_flags")?;
        proof { row = lemma_row_step(start, row, column("stat_flags")); }
        proof { lemma_row_join(before, RecordHeader::columns(column("hd")), row); }
        Ok(())
    }

    fn serialize_to<const PRETTY_PX: bool, const PRETTY_TS: bool>(
        &self,
        csv_writer: &mut Writer,
    ) -> (r: Result<(), ::csv::Error>) {
        let ghost before = pending_fields(*csv_writer);
        let ghost pretty_px = PRETTY_PX;
        let ghost pretty_ts = PRETTY_TS;
        self.hd.write_field::<PRETTY_PX, PRETTY_TS>(csv_writer)?;
        let ghost start = pending_fields(*csv_writer);
        let ghost row: Seq<Seq<u8>> = Seq::empty();
        proof { lemma_row_join(start, row, row); }
        write_ts_field::<PRETTY_TS>(csv_writer, self.ts_recv)?;
        proof { row = lemma_row_step(start, row, ts_cell(self.ts_recv, pretty_ts)); }
        write_ts_field::<PRETTY_TS>(csv_writer, self.ts_ref)?;
        proof { row = lemma_row_step(start, row, ts_cell(self.ts_ref, pretty_ts)); }
        write_px_field::<PRETTY_PX>(csv_writer, self.price)?;
        proof { row = lemma_row_step(start, row, px_cell(self.price, pretty_px)); }
        self.quantity.write_field::<PRETTY_PX, PRETTY_TS>(csv_writer)?;
        proof { row = lemma_row_step(start, row, signed_decimal(self.quantity as int)); }
        self.sequence.write_field::<PRETTY_PX, PRETTY_TS>(csv_writer)?;
        proof { row = lemma_row_step(start, row, decimal(self.sequence as nat)); }
        self.ts_in_delta.write_field::<PRETTY_PX, PRETTY_TS>(csv_writer)?;
        proof { row = lemma_row_step(start, row, signed_decimal(self.ts_in_delta as int)); }
        self.stat_type.write_field::<PRETTY_PX, PRETTY_TS>(csv_writer)?;
        proof { row = lemma_row_step(start, row, decimal(self.stat_type as nat)); }
        self.channel_id.write_field::<PRETTY_PX, PRETTY_TS>(csv_writer)?;
        proof { row = lemma_row_step(start, row, decimal(self.channel_id as nat)); }
        self.update_action.write_field::<PRETTY_PX, PRETTY_TS>(csv_writer)?;
        proof { row = lemma_row_step(start, row, decimal(self.update_action as nat)); }
        self.stat_flags.write_field::<PRETTY_PX, PRETTY_TS>(csv_writer)?;
        proof { row = lemma_row_step(start, row, decimal(self.stat_flags as nat)); }
        proof { lemma_row_join(before, self.hd.cells(pretty_px, pretty_ts), row); }
        Ok(())
    }

    proof fn lemma_columns(&self, pretty_px: bool, pretty_ts: bool) {
    }
}

impl CsvSerialize for InstrumentDefMsg {
    open spec fn header_fields() -> Seq<Seq<u8>> {
        RecordHeader::columns(column("hd")) + Seq::empty()
            .push(column("ts_recv"))
            .push(column("min_price_increment"))
            .push(column("display_factor"))
            .push(column("expiration"))
            .push(column("activation"))
            .push(column("high_limit_price"))
            .push(column("low_limit_price"))
            .push(column("max_price_variation"))
            .push(column("trading_reference_price"))
            .push(column("unit_of_measure_qty"))
            .push(column("min_price_increment_amount"))
            .push(column("price_ratio"))
            .push(column("inst_attrib_value"))
            .push(column("underlying_id"))
            .push(column("cleared_volume"))
            .push(column("market_depth_implied"))
            .push(column("market_depth"))
            .push(column("market_segment_id"))
            .push(column("max_trade_vol"))
            .push(column("min_lot_size"))
            .push(column("min_lot_size_block"))
            .push(column("min_lot_size_round_lot"))
            .push(column("min_trade_vol"))
            .push(column("open_interest_qty"))
            .push(column("contract_multiplier"))
            .push(column("decay_quantity"))
            .push(column("original_contract_size"))
            .push(column("related_security_id"))
            .push(column("trading_reference_date"))
            .push(column("appl_id"))
            .push(column("maturity_year"))
            .push(column("decay_start_date"))
            .push(column("channel_id"))
            .push(column("currency"))
            .push(column("settl_currency"))
            .push(column("secsubtype"))
            .push(column("symbol"))
            .push(column("group"))
            .push(column("exchange"))
            .push(column("asset"))
            .push(column("cfi"))
            .push(column("security_type"))
            .push(column("unit_of_measure"))
            .push(column("underlying"))
            .push(column("related"))
            .push(column("match_algorithm"))
            .push(column("md_security_trading_status"))
            .push(column("main_fraction"))
            .push(column("price_display_format"))
            .push(column("settl_price_type"))
            .push(column("sub_fraction"))
            .push(column("underlying_product"))
            .push(column("security_update_action"))
            .push(column("maturity_month"))
            .push(column("maturity_day"))
            .push(column("maturity_week"))
            .push(column("user_defined_instrument"))
            .push(column("contract_multiplier_unit"))
            .push(column("flow_schedule_type"))
            .push(column("tick_rule"))
    }

    open spec fn row_fields(&self, pretty_px: bool, pretty_ts: bool) -> Seq<Seq<u8>> {
        self.hd.cells(pretty_px, pretty_ts) + Seq::empty()
            .push(ts_cell(self.ts_recv, pretty_ts))
            .push(px_cell(self.min_price_increment, pretty_px))
            .push(px_cell(self.display_factor, pretty_px))
            .push(ts_cell(self.expiration, pretty_ts))
            .push(ts_cell(self.activation, pretty_ts))
            .push(px_cell(self.high_limit_price, pretty_px))
            .push(px_cell(self.low_limit_price, pretty_px))
            .push(px_cell(self.max_price_variation, pretty_px))
            .push(px_cell(self.trading_reference_price, pretty_px))
            .push(px_cell(self.unit_of_measure_qty, pretty_px))
            .push(px_cell(self.min_price_increment_amount, pretty_px))
            .push(px_cell(self.price_ratio, pretty_px))
            .push(signed_decimal(self.inst_attrib_value as int))
            .push(decimal(self.underlying_id as nat))
            .push(signed_decimal(self.cleared_volume as int))
            .push(signed_decimal(self.market_depth_implied as int))
            .push(signed_decimal(self.market_depth as int))
            .push(decimal(self.market_segment_id as nat))
            .push(decimal(self.max_trade_vol as nat))
            .push(signed_decimal(self.min_lot_size as int))
            .push(signed_decimal(self.min_lot_size_block as int))
            .push(signed_decimal(self.min_lot_size_round_lot as int))
            .push(decimal(self.min_trade_vol as nat))
            .push(signed_decimal(self.open_interest_qty as int))
            .push(signed_decimal(self.contract_multiplier as int))
            .push(signed_decimal(self.decay_quantity as int))
            .push(signed_decimal(self.original_contract_size as int))
            .push(decimal(self.related_security_id as nat))
            .push(decimal(self.trading_reference_date as nat))
            .push(signed_decimal(self.appl_id as int))
            .push(decimal(self.maturity_year as nat))
            .push(decimal(self.decay_start_date as nat))
            .push(decimal(self.channel_id as nat))
            .push(text_cell(self.currency@))
            .push(text_cell(self.settl_currency@))
            .push(text_cell(self.secsubtype@))
            .push(text_cell(self.symbol@))
            .push(text_cell(self.group@))
            .push(text_cell(self.exchange@))
            .push(text_cell(self.asset@))
            .push(text_cell(self.cfi@))
            .push(text_cell(self.security_type@))
            .push(text_cell(self.unit_of_measure@))
            .push(text_cell(self.underlying@))
            .push(text_cell(self.related@))
            .push(signed_decimal(self.match_algorithm as int))
            .push(decimal(self.md_security_trading_status as nat))
            .push(decimal(self.main_fraction as nat))
            .push(decimal(self.price_display_format as nat))
            .push(decimal(self.settl_price_type as nat))
            .push(decimal(self.sub_fraction as nat))
            .push(decimal(self.underlying_product as nat))
            .push(seq![self.security_update_action.code()])
            .push(decimal(self.maturity_month as nat))
            .push(decimal(self.maturity_day as nat))
            .push(decimal(self.maturity_week as nat))
            .push(decimal(self.user_defined_instrument as nat))
            .push(signed_decimal(self.contract_multiplier_unit as int))
            .push(signed_decimal(self.flow_schedule_type as int))
            .push(decimal(self.tick_rule as nat))
    }

    fn serialize_header(csv_writer: &mut Writer) -> (r: Result<(), ::csv::Error>) {
        let ghost before = pending_fields(*csv_writer);
        RecordHeader::write_header(csv_writer, "hd")?;
        let ghost start = pending_fields(*csv_writer);
        let ghost row: Seq<Seq<u8>> = Seq::empty();
        proof { lemma_row_join(start, row, row); }
        u64::write_header(csv_writer, "ts_recv")?;
        proof { row = lemma_row_step(start, row, column("ts_recv")); }
        i64::write_header(csv_writer, "min_price_increment")?;
        proof { row = lemma_row_step(start, row, column("min_price_increment")); }
        i64::write_header(csv_writer, "display_factor")?;
        proof { row = lemma_row_step(start, row, column("display_factor")); }
        u64::write_header(csv_writer, "expiration")?;
        proof { row = lemma_row_step(start, row, column("expiration")); }
        u64::write_header(csv_writer, "activation")?;
        proof { row = lemma_row_step(start, row, column("activation")); }
        i64::write_header(csv_writer, "high_limit_price")?;
        proof { row = lemma_row_step(start, row, column("high_limit_price")); }
        i64::write_header(csv_writer, "low_limit_price")?;
        proof { row = lemma_row_step(start, row, column("low_limit_price")); }
        i64::write_header(csv_writer, "max_price_variation")?;
        proof { row = lemma_row_step(start, row, column("max_price_variation")); }
        i64::write_header(csv_writer, "trading_reference_price")?;
        proof { row = lemma_row_step(start, row, column("trading_reference_price")); }
        i64::write_header(csv_writer, "unit_of_measure_qty")?;
        proof { row = lemma_row_step(start, row, column("unit_of_measure_qty")); }
        i64::write_header(csv_writer, "min_price_increment_amount")?;
        proof { row = lemma_row_step(start, row, column("min_price_increment_amount")); }
        i64::write_header(csv_writer, "price_ratio")?;
        proof { row = lemma_row_step(start, row, column("price_ratio")); }
        i32::write_header(csv_writer, "inst_attrib_value")?;
        proof { row = lemma_row_step(start, row, column("inst_attrib_value")); }
        u32::write_header(csv_writer, "underlying_id")?;
        proof { row = lemma_row_step(start, row, column("underlying_id")); }
        i32::write_header(csv_writer, "cleared_volume")?;
        proof { row = lemma_row_step(start, row, column("cleared_volume")); }
        i32::write_header(csv_writer, "market_depth_implied")?;
        proof { row = lemma_row_step(start, row, column("market_depth_implied")); }
        i32::write_header(csv_writer, "market_depth")?;
        proof { row = lemma_row_step(start, row, column("market_depth")); }
        u32::write_header(csv_writer, "market_segment_id")?;
        proof { row = lemma_row_step(start, row, column("market_segment_id")); }
        u32::write_header(csv_writer, "max_trade_vol")?;
        proof { row = lemma_row_step(start, row, column("max_trade_vol")); }
        i32::write_header(csv_writer, "min_lot_size")?;
        proof { row = lemma_row_step(start, row, column("min_lot_size")); }
        i32::write_header(csv_writer, "min_lot_size_block")?;
        proof { row = lemma_row_step(start, row, column("min_lot_size_block")); }
        i32::write_header(csv_writer, "min_lot_size_round_lot")?;
        proof { row = lemma_row_step(start, row, column("min_lot_size_round_lot")); }
        u32::write_header(csv_writer, "min_trade_vol")?;
        proof { row = lemma_row_step(start, row, column("min_trade_vol")); }
        i32::write_header(csv_writer, "open_interest_qty")?;
        proof { row = lemma_row_step(start, row, column("open_interest_qty")); }
        i32::write_header(csv_writer, "contract_multiplier")?;
        proof { row = lemma_row_step(start, row, column("contract_multiplier")); }
        i32::write_header(csv_writer, "decay_quantity")?;
        proof { row = lemma_row_step(start, row, column("decay_quantity")); }
        i32::write_header(csv_writer, "original_contract_size")?;
        proof { row = lemma_row_step(start, row, column("original_contract_size")); }
        u32::write_header(csv_writer, "related_security_id")?;
        proof { row = lemma_row_step(start, row, column("related_security_id")); }
        u16::write_header(csv_writer, "trading_reference_date")?;
        proof { row = lemma_row_step(start, row, column("trading_reference_date")); }
        i16::write_header(csv_writer, "appl_id")?;
        proof { row = lemma_row_step(start, row, column("appl_id")); }
        u16::write_header(csv_writer, "maturity_year")?;
        proof { row = lemma_row_step(start, row, column("maturity_year")); }
        u16::write_header(csv_writer, "decay_start_date")?;
        proof { row = lemma_row_step(start, row, column("decay_start_date")); }
        u16::write_header(csv_writer, "channel_id")?;
        proof { row = lemma_row_step(start, row, column("channel_id")); }
        <[i8; 4]>::write_header(csv_writer, "currency")?;
        proof { row = lemma_row_step(start, row, column("currency")); }
        <[i8; 4]>::write_header(csv_writer, "settl_currency")?;
        proof { row = lemma_row_step(start, row, column("settl_currency")); }
        <[i8; 6]>::write_header(csv_writer, "secsubtype")?;
        proof { row = lemma_row_step(start, row, column("secsubtype")); }
        <[i8; 22]>::write_header(csv_writer, "symbol")?;
        proof { row = lemma_row_step(start, row, column("symbol")); }
        <[i8; 21]>::write_header(csv_writer, "group")?;
        proof { row = lemma_row_step(start, row, column("group")); }
        <[i8; 5]>::write_header(csv_writer, "exchange")?;
        proof { row = lemma_row_step(start, row, column("exchange")); }
        <[i8; 7]>::write_header(csv_writer, "asset")?;
        proof { row = lemma_row_step(start, row, column("asset")); }
        <[i8; 7]>::write_header(csv_writer, "cfi")?;
        proof { row = lemma_row_step(start, row, column("cfi")); }
        <[i8; 7]>::write_header(csv_writer, "security_type")?;
        proof { row = lemma_row_step(start, row, column("security_type")); }
        <[i8; 31]>::write_header(csv_writer, "unit_of_measure")?;
        proof { row = lemma_row_step(start, row, column("unit_of_measure")); }
        <[i8; 21]>::write_header(csv_writer, "underlying")?;
        proof { row = lemma_row_step(start, row, column("underlying")); }
        <[i8; 21]>::write_header(csv_writer, "related")?;
        proof { row = lemma_row_step(start, row, column("related")); }
        i8::write_header(csv_writer, "match_algorithm")?;
        proof { row = lemma_row_step(start, row, column("match_algorithm")); }
        u8::write_header(csv_writer, "md_security_trading_status")?;
        proof { row = lemma_row_step(start, row, column("md_security_trading_status")); }
        u8::write_header(csv_writer, "main_fraction")?;
        proof { row = lemma_row_step(start, row, column("main_fraction")); }
        u8::write_header(csv_writer, "price_display_format")?;
        proof { row = lemma_row_step(start, row, column("price_display_format")); }
        u8::write_header(csv_writer, "settl_price_type")?;
        proof { row = lemma_row_step(start, row, column("settl_price_type")); }
        u8::write_header(csv_writer, "sub_fraction")?;
        proof { row = lemma_row_step(start, row, column("sub_fraction")); }
        u8::write_header(csv_writer, "underlying_product")?;
        proof { row = lemma_row_step(start, row, column("underlying_product")); }
        SecurityUpdateAction::write_header(csv_writer, "security_update_action")?;
        proof { row = lemma_row_step(start, row, column("security_update_action")); }
        u8::write_header(csv_writer, "maturity_month")?;
        proof { row = lemma_row_step(start, row, column("maturity_month")); }
        u8::write_header(csv_writer, "maturity_day")?;
        proof { row = lemma_row_step(start, row, column("maturity_day")); }
        u8::write_header(csv_writer, "maturity_week")?;
        proof { row = lemma_row_step(start, row, column("maturity_week")); }
        u8::write_header(csv_writer, "user_defined_instrument")?;
        proof { row = lemma_row_step(start, row, column("user_defined_instrument")); }
        i8::write_header(csv_writer, "contract_multiplier_unit")?;
        proof { row = lemma_row_step(start, row, column("contract_multiplier_unit")); }
        i8::write_header(csv_writer, "flow_schedule_type")?;
        proof { row = lemma_row_step(start, row, column("flow_schedule_type")); }
        u8::write_header(csv_writer, "tick_rule")?;
        proof { row = lemma_row_step(start, row, column("tick_rule")); }
        proof { lemma_row_join(before, RecordHeader::columns(column("hd")), row); }
        Ok(())
    }

    fn serialize_to<const PRETTY_PX: bool, const PRETTY_TS: bool>(
        &self,
        csv_writer: &mut Writer,
    ) -> (r: Result<(), ::csv::Error>) {
        let ghost before = pending_fields(*csv_writer);
        let ghost pretty_px = PRETTY_PX;
        let ghost pretty_ts = PRETTY_TS;
        self.hd.write_field::<PRETTY_PX, PRETTY_TS>(csv_writer)?;
        let ghost start = pending_fields(*csv_writer);
        let ghost row: Seq<Seq<u8>> = Seq::empty();
        proof { lemma_row_join(start, row, row); }
        write_ts_field::<PRETTY_TS>(csv_writer, self.ts_recv)?;
        proof { row = lemma_row_step(start, row, ts_cell(self.ts_recv, pretty_ts)); }
        write_px_field::<PRETTY_PX>(csv_writer, self.min_price_increment)?;
        proof { row = lemma_row_step(start, row, px_cell(self.min_price_increment, pretty_px)); }
        write_px_field::<PRETTY_PX>(csv_writer, self.display_factor)?;
        proof { row = lemma_row_step(start, row, px_cell(self.display_factor, pretty_px)); }
        write_ts_field::<PRETTY_TS>(csv_writer, self.expiration)?;
        proof { row = lemma_row_step(start, row, ts_cell(self.expiration, pretty_ts)); }
        write_ts_field::<PRETTY_TS>(csv_writer, self.activation)?;
        proof { row = lemma_row_step(start, row, ts_cell(self.activation, pretty_ts)); }
        write_px_field::<PRETTY_PX>(csv_writer, self.high_limit_price)?;
        proof { row = lemma_row_step(start, row, px_cell(self.high_limit_price, pretty_px)); }
        write_px_field::<PRETTY_PX>(csv_writer, self.low_limit_price)?;
        proof { row = lemma_row_step(start, row, px_cell(self.low_limit_price, pretty_px)); }
        write_px_field::<PRETTY_PX>(csv_writer, self.max_price_variation)?;
        proof { row = lemma_row_step(start, row, px_cell(self.max_price_variation, pretty_px)); }
        write_px_field::<PRETTY_PX>(csv_writer, self.trading_reference_price)?;
        proof { row = lemma_row_step(start, row, px_cell(self.trading_reference_price, pretty_px)); }
        write_px_field::<PRETTY_PX>(csv_writer, self.unit_of_measure_qty)?;
        proof { row = lemma_row_step(start, row, px_cell(self.unit_of_measure_qty, pretty_px)); }
        write_px_field::<PRETTY_PX>(csv_writer, self.min_price_increment_amount)?;
        proof { row = lemma_row_step(start, row, px_cell(self.min_price_increment_amount, pretty_px)); }
        write_px_field::<PRETTY_PX>(csv_writer, self.price_ratio)?;
        proof { row = lemma_row_step(start, row, px_cell(self.price_ratio, pretty_px)); }
        self.inst_attrib_value.write_field::<PRETTY_PX, PRETTY_TS>(csv_writer)?;
        proof { row = lemma_row_step(start, row, signed_decimal(self.inst_attrib_value as int)); }
        self.underlying_id.write_field::<PRETTY_PX, PRETTY_TS>(csv_writer)?;
        proof { row = lemma_row_step(start, row, decimal(self.underlying_id as nat)); }
        self.cleared_volume.write_field::<PRETTY_PX, PRETTY_TS>(csv_writer)?;
        proof { row = lemma_row_step(start, row, signed_decimal(self.cleared_volume as int)); }
        self.market_depth_implied.write_field::<PRETTY_PX, PRETTY_TS>(csv_writer)?;
        proof { row = lemma_row_step(start, row, signed_decimal(self.market_depth_implied as int)); }
        self.market_depth.write_field::<PRETTY_PX, PRETTY_TS>(csv_writer)?;
        proof { row = lemma_row_step(start, row, signed_decimal(self.market_depth as int)); }
        self.market_segment_id.write_field::<PRETTY_PX, PRETTY_TS>(csv_writer)?;
        proof { row = lemma_row_step(start, row, decimal(self.market_segment_id as nat)); }
        self.max_trade_vol.write_field::<PRETTY_PX, PRETTY_TS>(csv_writer)?;
        proof { row = lemma_row_step(start, row, decimal(self.max_trade_vol as nat)); }
        self.min_lot_size.write_field::<PRETTY_PX, PRETTY_TS>(csv_writer)?;
        proof { row = lemma_row_step(start, row, signed_decimal(self.min_lot_size as int)); }
        self.min_lot_size_block.write_field::<PRETTY_PX, PRETTY_TS>(csv_writer)?;
        proof { row = lemma_row_step(start, row, signed_decimal(self.min_lot_size_block as int)); }
        self.min_lot_size_round_lot.write_field::<PRETTY_PX, PRETTY_TS>(csv_writer)?;
        proof { row = lemma_row_step(start, row, signed_decimal(self.min_lot_size_round_lot as int)); }
        self.min_trade_vol.write_field::<PRETTY_PX, PRETTY_TS>(csv_writer)?;
        proof { row = lemma_row_step(start, row, decimal(self.min_trade_vol as nat)); }
        self.open_interest_qty.write_field::<PRETTY_PX, PRETTY_TS>(csv_writer)?;
        proof { row = lemma_row_step(start, row, signed_decimal(self.open_interest_qty as int)); }
        self.contract_multiplier.write_field::<PRETTY_PX, PRETTY_TS>(csv_writer)?;
        proof { row = lemma_row_step(start, row, signed_decimal(self.contract_multiplier as int)); }
        self.decay_quantity.write_field::<PRETTY_PX, PRETTY_TS>(csv_writer)?;
        proof { row = lemma_row_step(start, row, signed_decimal(self.decay_quantity as int)); }
        self.original_contract_size.write_field::<PRETTY_PX, PRETTY_TS>(csv_writer)?;
        proof { row = lemma_row_step(start, row, signed_decimal(self.original_contract_size as int)); }
        self.related_security_id.write_field::<PRETTY_PX, PRETTY_TS>(csv_writer)?;
        proof { row = lemma_row_step(start, row, decimal(self.related_security_id as nat)); }
        self.trading_reference_date.write_field::<PRETTY_PX, PRETTY_TS>(csv_writer)?;
        proof { row = lemma_row_step(start, row, decimal(self.trading_reference_date as nat)); }
        self.appl_id.write_field::<PRETTY_PX, PRETTY_TS>(csv_writer)?;
        proof { row = lemma_row_step(start, row, signed_decimal(self.appl_id as int)); }
        self.maturity_year.write_field::<PRETTY_PX, PRETTY_TS>(csv_writer)?;
        proof { row = lemma_row_step(start, row, decimal(self.maturity_year as nat)); }
        self.decay_start_date.write_field::<PRETTY_PX, PRETTY_TS>(csv_writer)?;
        proof { row = lemma_row_step(start, row, decimal(self.decay_start_date as nat)); }
        self.channel_id.write_field::<PRETTY_PX, PRETTY_TS>(csv_writer)?;
        proof { row = lemma_row_step(start, row, decimal(self.channel_id as nat)); }
        self.currency.write_field::<PRETTY_PX, PRETTY_TS>(csv_writer)?;
        proof { row = lemma_row_step(start, row, text_cell(self.currency@)); }
        self.settl_currency.write_field::<PRETTY_PX, PRETTY_TS>(csv_writer)?;
        proof { row = lemma_row_step(start, row, text_cell(self.settl_currency@)); }
        self.secsubtype.write_field::<PRETTY_PX, PRETTY_TS>(csv_writer)?;
        proof { row = lemma_row_step(start, row, text_cell(self.secsubtype@)); }
        self.symbol.write_field::<PRETTY_PX, PRETTY_TS>(csv_writer)?;
        proof { row = lemma_row_step(start, row, text_cell(self.symbol@)); }
        self.group.write_field::<PRETTY_PX, PRETTY_TS>(csv_writer)?;
        proof { row = lemma_row_step(start, row, text_cell(self.group@)); }
        self.exchange.write_field::<PRETTY_PX, PRETTY_TS>(csv_writer)?;
        proof { row = lemma_row_step(start, row, text_cell(self.exchange@)); }
        self.asset.write_field::<PRETTY_PX, PRETTY_TS>(csv_writer)?;
        proof { row = lemma_row_step(start, row, text_cell(self.asset@)); }
        self.cfi.write_field::<PRETTY_PX, PRETTY_TS>(csv_writer)?;
        proof { row = lemma_row_step(start, row, text_cell(self.cfi@)); }
        self.security_type.write_field::<PRETTY_PX, PRETTY_TS>(csv_writer)?;
        proof { row = lemma_row_step(start, row, text_cell(self.security_type@)); }
        self.unit_of_measure.write_field::<PRETTY_PX, PRETTY_TS>(csv_writer)?;
        proof { row = lemma_row_step(start, row, text_cell(self.unit_of_measure@)); }
        self.underlying.write_field::<PRETTY_PX, PRETTY_TS>(csv_writer)?;
        proof { row = lemma_row_step(start, row, text_cell(self.underlying@)); }
        self.related.write_field::<PRETTY_PX, PRETTY_TS>(csv_writer)?;
        proof { row = lemma_row_step(start, row, text_cell(self.related@)); }
        self.match_algorithm.write_field::<PRETTY_PX, PRETTY_TS>(csv_writer)?;
        proof { row = lemma_row_step(start, row, signed_decimal(self.match_algorithm as int)); }
        self.md_security_trading_status.write_field::<PRETTY_PX, PRETTY_TS>(csv_writer)?;
        proof { row = lemma_row_step(start, row, decimal(self.md_security_trading_status as nat)); }
        self.main_fraction.write_field::<PRETTY_PX, PRETTY_TS>(csv_writer)?;
        proof { row = lemma_row_step(start, row, decimal(self.main_fraction as nat)); }
        self.price_display_format.write_field::<PRETTY_PX, PRETTY_TS>(csv_writer)?;
        proof { row = lemma_row_step(start, row, decimal(self.price_display_format as nat)); }
        self.settl_price_type.write_field::<PRETTY_PX, PRETTY_TS>(csv_writer)?;
        proof { row = lemma_row_step(start, row, decimal(self.settl_price_type as nat)); }
        self.sub_fraction.write_field::<PRETTY_PX, PRETTY_TS>(csv_writer)?;
        proof { row = lemma_row_step(start, row, decimal(self.sub_fraction as nat)); }
        self.underlying_product.write_field::<PRETTY_PX, PRETTY_TS>(csv_writer)?;
        proof { row = lemma_row_step(start, row, decimal(self.underlying_product as nat)); }
        self.security_update_action.write_field::<PRETTY_PX, PRETTY_TS>(csv_writer)?;
        proof { row = lemma_row_step(start, row, seq![self.security_update_action.code()]); }
        self.maturity_month.write_field::<PRETTY_PX, PRETTY_TS>(csv_writer)?;
        proof { row = lemma_row_step(start, row, decimal(self.maturity_month as nat)); }
        self.maturity_day.write_field::<PRETTY_PX, PRETTY_TS>(csv_writer)?;
        proof { row = lemma_row_step(start, row, decimal(self.maturity_day as nat)); }
        self.maturity_week.write_field::<PRETTY_PX, PRETTY_TS>(csv_writer)?;
        proof { row = lemma_row_step(start, row, decimal(self.maturity_week as nat)); }
        self.user_defined_instrument.write_field::<PRETTY_PX, PRETTY_TS>(csv_writer)?;
        proof { row = lemma_row_step(start, row, decimal(self.user_defined_instrument as nat)); }
        self.contract_multiplier_unit.write_field::<PRETTY_PX, PRETTY_TS>(csv_writer)?;
        proof { row = lemma_row_step(start, row, signed_decimal(self.contract_multiplier_unit as int)); }
        self.flow_schedule_type.write_field::<PRETTY_PX, PRETTY_TS>(csv_writer)?;
        proof { row = lemma_row_step(start, row, signed_decimal(self.flow_schedule_type as int)); }
        self.tick_rule.write_field::<PRETTY_PX, PRETTY_TS>(csv_writer)?;
        proof { row = lemma_row_step(start, row, decimal(self.tick_rule as nat)); }
        proof { lemma_row_join(before, self.hd.cells(pretty_px, pretty_ts), row); }
        Ok(())
    }

    proof fn lemma_columns(&self, pretty_px: bool, pretty_ts: bool) {
    }
}

impl CsvSerialize for ErrorMsg {
    open spec fn header_fields() -> Seq<Seq<u8>> {
        RecordHeader::columns(column("hd")) + Seq::empty()
            .push(column("err"))
    }

    open spec fn row_fields(&self, pretty_px: bool, pretty_ts: bool) -> Seq<Seq<u8>> {
        self.hd.cells(pretty_px, pretty_ts) + Seq::empty()
            .push(text_cell(self.err@))
    }

    fn serialize_header(csv_writer: &mut Writer) -> (r: Result<(), ::csv::Error>) {
        let ghost before = pending_fields(*csv_writer);
        RecordHeader::write_header(csv_writer, "hd")?;
        let ghost start = pending_fields(*csv_writer);
        let ghost row: Seq<Seq<u8>> = Seq::empty();
        proof { lemma_row_join(start, row, row); }
        <[i8; 64]>::write_header(csv_writer, "err")?;
        proof { row = lemma_row_step(start, row, column("err")); }
        proof { lemma_row_join(before, RecordHeader::columns(column("hd")), row); }
        Ok(())
    }

    fn serialize_to<const PRETTY_PX: bool, const PRETTY_TS: bool>(
        &self,
        csv_writer: &mut Writer,
    ) -> (r: Result<(), ::csv::Error>) {
        let ghost before = pending_fields(*csv_writer);
        let ghost pretty_px = PRETTY_PX;
        let ghost pretty_ts = PRETTY_TS;
        self.hd.write_field::<PRETTY_PX, PRETTY_TS>(csv_writer)?;
        let ghost start = pending_fields(*csv_writer);
        let ghost row: Seq<Seq<u8>> = Seq::empty();
        proof { lemma_row_join(start, row, row); }
        self.err.write_field::<PRETTY_PX, PRETTY_TS>(csv_writer)?;
        proof { row = lemma_row_step(start, row, text_cell(self.err@)); }
        proof { lemma_row_join(before, self.hd.cells(pretty_px, pretty_ts), row); }
        Ok(())
    }

    proof fn lemma_columns(&self, pretty_px: bool, pretty_ts: bool) {
    }
}

impl CsvSerialize for SymbolMappingMsg {
    open spec fn header_fields() -> Seq<Seq<u8>> {
        RecordHeader::columns(column("hd")) + Seq::empty()
            .push(column("stype_in_symbol"))
            .push(column("stype_out_symbol"))
            .push(column("start_ts"))
            .push(column("end_ts"))
    }

    open spec fn row_fields(&self, pretty_px: bool, pretty_ts: bool) -> Seq<Seq<u8>> {
        self.hd.cells(pretty_px, pretty_ts) + Seq::empty()
            .push(text_cell(self.stype_in_symbol@))
            .push(text_cell(self.stype_out_symbol@))
            .push(ts_cell(self.start_ts, pretty_ts))
            .push(ts_cell(self.end_ts, pretty_ts))
    }

    fn serialize_header(csv_writer: &mut Writer) -> (r: Result<(), ::csv::Error>) {
        let ghost before = pending_fields(*csv_writer);
        RecordHeader::write_header(csv_writer, "hd")?;
        let ghost start = pending_fields(*csv_writer);
        let ghost row: Seq<Seq<u8>> = Seq::empty();
        proof { lemma_row_join(start, row, row); }
        <[i8; 22]>::write_header(csv_writer, "stype_in_symbol")?;
        proof { row = lemma_row_step(start, row, column("stype_in_symbol")); }
        <[i8; 22]>::write_header(csv_writer, "stype_out_symbol")?;
        proof { row = lemma_row_step(start, row, column("stype_out_symbol")); }
        u64::write_header(csv_writer, "start_ts")?;
        proof { row = lemma_row_step(start, row, column("start_ts")); }
        u64::write_header(csv_writer, "end_ts")?;
        proof { row = lemma_row_step(start, row, column("end_ts")); }
        proof { lemma_row_join(before, RecordHeader::columns(column("hd")), row); }
        Ok(())
    }

    fn serialize_to<const PRETTY_PX: bool, const PRETTY_TS: bool>(
        &self,
        csv_writer: &mut Writer,
    ) -> (r: Result<(), ::csv::Error>) {
        let ghost before = pending_fields(*csv_writer);
        let ghost pretty_px = PRETTY_PX;
        let ghost pretty_ts = PRETTY_TS;
        self.hd.write_field::<PRETTY_PX, PRETTY_TS>(csv_writer)?;
        let ghost start = pending_fields(*csv_writer);
        let ghost row: Seq<Seq<u8>> = Seq::empty();
        proof { lemma_row_join(start, row, row); }
        self.stype_in_symbol.write_field::<PRETTY_PX, PRETTY_TS>(csv_writer)?;
        proof { row = lemma_row_step(start, row, text_cell(self.stype_in_symbol@)); }
        self.stype_out_symbol.write_field::<PRETTY_PX, PRETTY_TS>(csv_writer)?;
        proof { row = lemma_row_step(start, row, text_cell(self.stype_out_symbol@)); }
        write_ts_field::<PRETTY_TS>(csv_writer, self.start_ts)?;
        proof { row = lemma_row_step(start, row, ts_cell(self.start_ts, pretty_ts)); }
        write_ts_field::<PRETTY_TS>(csv_writer, self.end_ts)?;
        proof { row = lemma_row_step(start, row, ts_cell(self.end_ts, pretty_ts)); }
        proof { lemma_row_join(before, self.hd.cells(pretty_px, pretty_ts), row); }
        Ok(())
    }

    proof fn lemma_columns(&self, pretty_px: bool, pretty_ts: bool) {
    }
}

impl CsvSerialize for SystemMsg {
    open spec fn header_fields() -> Seq<Seq<u8>> {
        RecordHeader::columns(column("hd")) + Seq::empty()
            .push(column("msg"))
    }

    open spec fn row_fields(&self, pretty_px: bool, pretty_ts: bool) -> Seq<Seq<u8>> {
        self.hd.cells(pretty_px, pretty_ts) + Seq::empty()
            .push(text_cell(self.msg@))
    }

    fn serialize_header(csv_writer: &mut Writer) -> (r: Result<(), ::csv::Error>) {
        let ghost before = pending_fields(*csv_writer);
        RecordHeader::write_header(csv_writer, "hd")?;
        let ghost start = pending_fields(*csv_writer);
        let ghost row: Seq<Seq<u8>> = Seq::empty();
        proof { lemma_row_join(start, row, row); }
        <[i8; 64]>::write_header(csv_writer, "msg")?;
        proof { row = lemma_row_step(start, row, column("msg")); }
        proof { lemma_row_join(before, RecordHeader::columns(column("hd")), row); }
        Ok(())
    }

    fn serialize_to<const PRETTY_PX: bool, const PRETTY_TS: bool>(
        &self,
        csv_writer: &mut Writer,
    ) -> (r: Result<(), ::csv::Error>) {
        let ghost before = pending_fields(*csv_writer);
        let ghost pretty_px = PRETTY_PX;
        let ghost pretty_ts = PRETTY_TS;
        self.hd.write_field::<PRETTY_PX, PRETTY_TS>(csv_writer)?;
        let ghost start = pending_fields(*csv_writer);
        let ghost row: Seq<Seq<u8>> = Seq::empty();
        proof { lemma_row_join(start, row, row); }
        self.msg.write_field::<PRETTY_PX, PRETTY_TS>(csv_writer)?;
        proof { row = lemma_row_step(start, row, text_cell(self.msg@)); }
        proof { lemma_row_join(before, self.hd.cells(pretty_px, pretty_ts), row); }
        Ok(())
    }

    proof fn lemma_columns(&self, pretty_px: bool, pretty_ts: bool) {
    }
}

/// A record with ten book levels gives seventy-three fields to its row,
/// and its schema as many columns to the header row: the header's four,
/// nine of its own, and six for each level.
pub proof fn lemma_mbp10_width(record: Mbp10Msg, pretty_px: bool, pretty_ts: bool)
    ensures
        Mbp10Msg::header_fields().len() == 73,
        record.row_fields(pretty_px, pretty_ts).len() == 73,
{
    lemma_level_width(record.booklevel@, pretty_px);
}

} // verus!
