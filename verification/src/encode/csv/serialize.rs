//! The fields that each value gives to a row, and the columns that it gives
//! to the header row.
use crate::encode::csv::{pending_fields, sink_start, write_field, written_rows, Writer};
use crate::enums::{SecurityUpdateAction, UserDefinedInstrument};
use crate::pretty::{
    decimal, fmt_i64, fmt_px, fmt_ts, fmt_u64, px_text, signed_decimal, ts_text, UNDEF_PRICE,
    UNDEF_TIMESTAMP,
};
use crate::record::{BidAskPair, HasRType, Plain, RecordHeader, WithTsOut};
use crate::text::{lemma_nul_index_is, str_from_utf8, until_nul};
use crate::wire::chars_le;
use vstd::prelude::*;
use vstd::string::StringSliceAdditionalSpecFns;
use vstd::utf8::valid_utf8;

verus! {

/// Whether a call on a writer has added `fields` to the open row and
/// changed nothing else.
pub open spec fn appended(before: Writer, after: Writer, fields: Seq<Seq<u8>>) -> bool {
    &&& pending_fields(after) == pending_fields(before) + fields
    &&& written_rows(after) == written_rows(before)
    &&& sink_start(after) == sink_start(before)
}

/// The bytes of a column name.
#[verifier::opaque]
pub open spec fn column(name: &str) -> Seq<u8> {
    name.spec_bytes()
}

/// The field of a price: as a decimal number, or nothing for the price that
/// stands for none, where `pretty` is set; else as the plain integer.
#[verifier::opaque]
pub open spec fn px_cell(px: i64, pretty: bool) -> Seq<u8> {
    if pretty {
        if px == UNDEF_PRICE {
            Seq::empty()
        } else {
            px_text(px)
        }
    } else {
        signed_decimal(px as int)
    }
}

/// The field of a timestamp: as a date and time, or nothing for zero and
/// for the timestamp that stands for none, where `pretty` is set; else as
/// the plain integer.
#[verifier::opaque]
pub open spec fn ts_cell(ts: u64, pretty: bool) -> Seq<u8> {
    if pretty {
        if ts == 0 || ts == UNDEF_TIMESTAMP {
            Seq::empty()
        } else {
            ts_text(ts)
        }
    } else {
        decimal(ts as nat)
    }
}

/// The field of a character: the character itself, or nothing for NUL.
#[verifier::opaque]
pub open spec fn char_cell(c: i8) -> Seq<u8> {
    if c == 0 {
        Seq::empty()
    } else {
        chars_le(seq![c])
    }
}

/// The field of a NUL-padded text: the text up to its first NUL, or nothing
/// where that is not UTF-8.
#[verifier::opaque]
pub open spec fn text_cell(chars: Seq<i8>) -> Seq<u8> {
    if valid_utf8(until_nul(chars_le(chars))) {
        until_nul(chars_le(chars))
    } else {
        Seq::empty()
    }
}

/// The price that stands for none gives an empty field where prices are
/// written as decimal numbers, and its plain integer where they are not.
pub proof fn lemma_undefined_price_cell()
    ensures
        px_cell(UNDEF_PRICE, true) == Seq::<u8>::empty(),
        px_cell(UNDEF_PRICE, false) == decimal(9223372036854775807),
{
    reveal(px_cell);
}

/// Zero and the timestamp that stands for none give an empty field where
/// timestamps are written as dates and times, and their plain integers
/// where they are not.
pub proof fn lemma_undefined_timestamp_cell()
    ensures
        ts_cell(0, true) == Seq::<u8>::empty(),
        ts_cell(UNDEF_TIMESTAMP, true) == Seq::<u8>::empty(),
        ts_cell(0, false) == decimal(0),
        ts_cell(UNDEF_TIMESTAMP, false) == decimal(18446744073709551615),
{
    reveal(ts_cell);
}

/// For every schema, the header row has as many fields as the row of any
/// of its records, however prices and timestamps are written.
pub proof fn lemma_header_matches_rows<R: CsvSerialize>(record: R, pretty_px: bool, pretty_ts: bool)
    ensures
        R::header_fields().len() == record.row_fields(pretty_px, pretty_ts).len(),
{
    record.lemma_columns(pretty_px, pretty_ts);
}

/// Writes the field of a price: see [`px_cell`].
pub fn write_px_field<const PRETTY_PX: bool>(csv_writer: &mut Writer, px: i64) -> (r: Result<
    (),
    ::csv::Error,
>)
    ensures
        r is Ok,
        appended(*old(csv_writer), *final(csv_writer), seq![px_cell(px, PRETTY_PX)]),
{
    let ghost before = pending_fields(*csv_writer);
    proof {
        reveal(px_cell);
    }
    let r = if PRETTY_PX {
        if px == UNDEF_PRICE {
            let empty: Vec<u8> = Vec::new();
            write_field(csv_writer, empty.as_slice())
        } else {
            write_field(csv_writer, fmt_px(px).as_slice())
        }
    } else {
        write_field(csv_writer, fmt_i64(px).as_slice())
    };
    assert(before.push(px_cell(px, PRETTY_PX)) =~= before + seq![px_cell(px, PRETTY_PX)]);
    r
}

/// Writes the field of a timestamp: see [`ts_cell`].
pub fn write_ts_field<const PRETTY_TS: bool>(csv_writer: &mut Writer, ts: u64) -> (r: Result<
    (),
    ::csv::Error,
>)
    ensures
        r is Ok,
        appended(*old(csv_writer), *final(csv_writer), seq![ts_cell(ts, PRETTY_TS)]),
{
    let ghost before = pending_fields(*csv_writer);
    proof {
        reveal(ts_cell);
    }
    let r = if PRETTY_TS {
        if ts == 0 || ts == UNDEF_TIMESTAMP {
            let empty: Vec<u8> = Vec::new();
            write_field(csv_writer, empty.as_slice())
        } else {
            write_field(csv_writer, fmt_ts(ts).as_slice())
        }
    } else {
        write_field(csv_writer, fmt_u64(ts).as_slice())
    };
    assert(before.push(ts_cell(ts, PRETTY_TS)) =~= before + seq![ts_cell(ts, PRETTY_TS)]);
    r
}

/// Writes the field of a character: see [`char_cell`].
pub fn write_c_char_field(csv_writer: &mut Writer, c: i8) -> (r: Result<(), ::csv::Error>)
    ensures
        r is Ok,
        appended(*old(csv_writer), *final(csv_writer), seq![char_cell(c)]),
{
    let ghost before = pending_fields(*csv_writer);
    proof {
        reveal(char_cell);
    }
    let mut text: Vec<u8> = Vec::new();
    if c != 0 {
        text.push(
            #[verifier::truncate]
            (c as u8),
        );
    }
    assert(text@ =~= char_cell(c));
    assert(before.push(char_cell(c)) =~= before + seq![char_cell(c)]);
    write_field(csv_writer, text.as_slice())
}

/// Writes one field that holds `text`.
pub fn write_text(csv_writer: &mut Writer, text: &[u8]) -> (r: Result<(), ::csv::Error>)
    ensures
        r is Ok,
        appended(*old(csv_writer), *final(csv_writer), seq![text@]),
{
    let ghost before = pending_fields(*csv_writer);
    assert(before.push(text@) =~= before + seq![text@]);
    write_field(csv_writer, text)
}

/// A row that has taken the fields `row` behind `start` and then takes
/// `cell` has taken `row` with `cell` behind `start`. Returns `row` with
/// `cell`.
pub proof fn lemma_row_step(start: Seq<Seq<u8>>, row: Seq<Seq<u8>>, cell: Seq<u8>) -> (next: Seq<
    Seq<u8>,
>)
    ensures
        next == row.push(cell),
        (start + row) + seq![cell] == start + next,
{
    assert((start + row) + seq![cell] =~= start + row.push(cell));
    row.push(cell)
}

/// Fields that follow fields that follow others follow them all.
pub proof fn lemma_row_join(before: Seq<Seq<u8>>, head: Seq<Seq<u8>>, row: Seq<Seq<u8>>)
    ensures
        (before + head) + row == before + (head + row),
        before + Seq::<Seq<u8>>::empty() == before,
{
    assert((before + head) + row =~= before + (head + row));
    assert(before + Seq::<Seq<u8>>::empty() =~= before);
}

/// Writes one column name.
pub fn write_column(csv_writer: &mut Writer, name: &str) -> (r: Result<(), ::csv::Error>)
    ensures
        r is Ok,
        appended(*old(csv_writer), *final(csv_writer), seq![column(name)]),
{
    proof {
        reveal(column);
    }
    write_text(csv_writer, name.as_bytes())
}

/// A value that gives fields to a row, and columns to the header row.
pub trait WriteField {
    /// The columns that a value named `name` gives to the header row.
    spec fn columns(name: Seq<u8>) -> Seq<Seq<u8>>;

    /// The fields that the value gives to a row.
    spec fn cells(&self, pretty_px: bool, pretty_ts: bool) -> Seq<Seq<u8>>;

    /// Writes the columns of a value named `name`. The writer takes every
    /// field, so the call succeeds.
    fn write_header(csv_writer: &mut Writer, name: &str) -> (r: Result<(), ::csv::Error>)
        ensures
            r is Ok,
            appended(*old(csv_writer), *final(csv_writer), Self::columns(column(name))),
    ;

    /// Writes the fields of the value. The writer takes every field, so the
    /// call succeeds.
    fn write_field<const PRETTY_PX: bool, const PRETTY_TS: bool>(&self, writer: &mut Writer) -> (r:
        Result<(), ::csv::Error>)
        ensures
            r is Ok,
            appended(*old(writer), *final(writer), self.cells(PRETTY_PX, PRETTY_TS)),
    ;

    /// A value gives as many fields to a row as columns to the header row.
    proof fn lemma_width(&self, name: Seq<u8>, pretty_px: bool, pretty_ts: bool)
        ensures
            Self::columns(name).len() == self.cells(pretty_px, pretty_ts).len(),
    ;
}

/// A schema whose records can be written as rows.
pub trait CsvSerialize: HasRType {
    /// The fields of the header row.
    spec fn header_fields() -> Seq<Seq<u8>>;

    /// The fields of the record's row.
    spec fn row_fields(&self, pretty_px: bool, pretty_ts: bool) -> Seq<Seq<u8>>;

    /// Writes the fields of the header row.
    fn serialize_header(csv_writer: &mut Writer) -> (r: Result<(), ::csv::Error>)
        ensures
            r is Ok,
            appended(*old(csv_writer), *final(csv_writer), Self::header_fields()),
    ;

    /// Writes the fields of the record's row.
    fn serialize_to<const PRETTY_PX: bool, const PRETTY_TS: bool>(
        &self,
        csv_writer: &mut Writer,
    ) -> (r: Result<(), ::csv::Error>)
        ensures
            r is Ok,
            appended(
                *old(csv_writer),
                *final(csv_writer),
                self.row_fields(PRETTY_PX, PRETTY_TS),
            ),
    ;

    /// The header row has as many fields as each row of a record.
    proof fn lemma_columns(&self, pretty_px: bool, pretty_ts: bool)
        ensures
            Self::header_fields().len() == self.row_fields(pretty_px, pretty_ts).len(),
    ;
}

impl WriteField for u64 {
    open spec fn columns(name: Seq<u8>) -> Seq<Seq<u8>> {
        seq![name]
    }

    open spec fn cells(&self, pretty_px: bool, pretty_ts: bool) -> Seq<Seq<u8>> {
        seq![decimal(*self as nat)]
    }

    fn write_header(csv_writer: &mut Writer, name: &str) -> (r: Result<(), ::csv::Error>) {
        write_column(csv_writer, name)
    }

    fn write_field<const PRETTY_PX: bool, const PRETTY_TS: bool>(&self, writer: &mut Writer) -> (r:
        Result<(), ::csv::Error>) {
        write_text(writer, fmt_u64(*self).as_slice())
    }

    proof fn lemma_width(&self, name: Seq<u8>, pretty_px: bool, pretty_ts: bool) {
    }
}

impl WriteField for i64 {
    open spec fn columns(name: Seq<u8>) -> Seq<Seq<u8>> {
        seq![name]
    }

    open spec fn cells(&self, pretty_px: bool, pretty_ts: bool) -> Seq<Seq<u8>> {
        seq![signed_decimal(*self as int)]
    }

    fn write_header(csv_writer: &mut Writer, name: &str) -> (r: Result<(), ::csv::Error>) {
        write_column(csv_writer, name)
    }

    fn write_field<const PRETTY_PX: bool, const PRETTY_TS: bool>(&self, writer: &mut Writer) -> (r:
        Result<(), ::csv::Error>) {
        write_text(writer, fmt_i64(*self).as_slice())
    }

    proof fn lemma_width(&self, name: Seq<u8>, pretty_px: bool, pretty_ts: bool) {
    }
}

impl WriteField for u32 {
    open spec fn columns(name: Seq<u8>) -> Seq<Seq<u8>> {
        seq![name]
    }

    open spec fn cells(&self, pretty_px: bool, pretty_ts: bool) -> Seq<Seq<u8>> {
        seq![decimal(*self as nat)]
    }

    fn write_header(csv_writer: &mut Writer, name: &str) -> (r: Result<(), ::csv::Error>) {
        write_column(csv_writer, name)
    }

    fn write_field<const PRETTY_PX: bool, const PRETTY_TS: bool>(&self, writer: &mut Writer) -> (r:
        Result<(), ::csv::Error>) {
        let value: u64 = *self as u64;
        let text = fmt_u64(value);
        assert(text@ == decimal(*self as nat));
        assert(seq![text@] == self.cells(PRETTY_PX, PRETTY_TS));
        write_text(writer, text.as_slice())
    }

    proof fn lemma_width(&self, name: Seq<u8>, pretty_px: bool, pretty_ts: bool) {
    }
}

impl WriteField for i32 {
    open spec fn columns(name: Seq<u8>) -> Seq<Seq<u8>> {
        seq![name]
    }

    open spec fn cells(&self, pretty_px: bool, pretty_ts: bool) -> Seq<Seq<u8>> {
        seq![signed_decimal(*self as int)]
    }

    fn write_header(csv_writer: &mut Writer, name: &str) -> (r: Result<(), ::csv::Error>) {
        write_column(csv_writer, name)
    }

    fn write_field<const PRETTY_PX: bool, const PRETTY_TS: bool>(&self, writer: &mut Writer) -> (r:
        Result<(), ::csv::Error>) {
        write_text(writer, fmt_i64(*self as i64).as_slice())
    }

    proof fn lemma_width(&self, name: Seq<u8>, pretty_px: bool, pretty_ts: bool) {
    }
}

impl WriteField for u16 {
    open spec fn columns(name: Seq<u8>) -> Seq<Seq<u8>> {
        seq![name]
    }

    open spec fn cells(&self, pretty_px: bool, pretty_ts: bool) -> Seq<Seq<u8>> {
        seq![decimal(*self as nat)]
    }

    fn write_header(csv_writer: &mut Writer, name: &str) -> (r: Result<(), ::csv::Error>) {
        write_column(csv_writer, name)
    }

    fn write_field<const PRETTY_PX: bool, const PRETTY_TS: bool>(&self, writer: &mut Writer) -> (r:
        Result<(), ::csv::Error>) {
        let value: u64 = *self as u64;
        let text = fmt_u64(value);
        assert(text@ == decimal(*self as nat));
        assert(seq![text@] == self.cells(PRETTY_PX, PRETTY_TS));
        write_text(writer, text.as_slice())
    }

    proof fn lemma_width(&self, name: Seq<u8>, pretty_px: bool, pretty_ts: bool) {
    }
}

impl WriteField for i16 {
    open spec fn columns(name: Seq<u8>) -> Seq<Seq<u8>> {
        seq![name]
    }

    open spec fn cells(&self, pretty_px: bool, pretty_ts: bool) -> Seq<Seq<u8>> {
        seq![signed_decimal(*self as int)]
    }

    fn write_header(csv_writer: &mut Writer, name: &str) -> (r: Result<(), ::csv::Error>) {
        write_column(csv_writer, name)
    }

    fn write_field<const PRETTY_PX: bool, const PRETTY_TS: bool>(&self, writer: &mut Writer) -> (r:
        Result<(), ::csv::Error>) {
        write_text(writer, fmt_i64(*self as i64).as_slice())
    }

    proof fn lemma_width(&self, name: Seq<u8>, pretty_px: bool, pretty_ts: bool) {
    }
}

impl WriteField for u8 {
    open spec fn columns(name: Seq<u8>) -> Seq<Seq<u8>> {
        seq![name]
    }

    open spec fn cells(&self, pretty_px: bool, pretty_ts: bool) -> Seq<Seq<u8>> {
        seq![decimal(*self as nat)]
    }

    fn write_header(csv_writer: &mut Writer, name: &str) -> (r: Result<(), ::csv::Error>) {
        write_column(csv_writer, name)
    }

    fn write_field<const PRETTY_PX: bool, const PRETTY_TS: bool>(&self, writer: &mut Writer) -> (r:
        Result<(), ::csv::Error>) {
        let value: u64 = *self as u64;
        let text = fmt_u64(value);
        assert(text@ == decimal(*self as nat));
        assert(seq![text@] == self.cells(PRETTY_PX, PRETTY_TS));
        write_text(writer, text.as_slice())
    }

    proof fn lemma_width(&self, name: Seq<u8>, pretty_px: bool, pretty_ts: bool) {
    }
}

impl WriteField for i8 {
    open spec fn columns(name: Seq<u8>) -> Seq<Seq<u8>> {
        seq![name]
    }

    open spec fn cells(&self, pretty_px: bool, pretty_ts: bool) -> Seq<Seq<u8>> {
        seq![signed_decimal(*self as int)]
    }

    fn write_header(csv_writer: &mut Writer, name: &str) -> (r: Result<(), ::csv::Error>) {
        write_column(csv_writer, name)
    }

    fn write_field<const PRETTY_PX: bool, const PRETTY_TS: bool>(&self, writer: &mut Writer) -> (r:
        Result<(), ::csv::Error>) {
        write_text(writer, fmt_i64(*self as i64).as_slice())
    }

    proof fn lemma_width(&self, name: Seq<u8>, pretty_px: bool, pretty_ts: bool) {
    }
}

impl WriteField for bool {
    open spec fn columns(name: Seq<u8>) -> Seq<Seq<u8>> {
        seq![name]
    }

    open spec fn cells(&self, pretty_px: bool, pretty_ts: bool) -> Seq<Seq<u8>> {
        seq![if *self {
            column("true")
        } else {
            column("false")
        }]
    }

    fn write_header(csv_writer: &mut Writer, name: &str) -> (r: Result<(), ::csv::Error>) {
        write_column(csv_writer, name)
    }

    fn write_field<const PRETTY_PX: bool, const PRETTY_TS: bool>(&self, writer: &mut Writer) -> (r:
        Result<(), ::csv::Error>) {
        if *self {
            write_column(writer, "true")
        } else {
            write_column(writer, "false")
        }
    }

    proof fn lemma_width(&self, name: Seq<u8>, pretty_px: bool, pretty_ts: bool) {
    }
}

/// The field of a NUL-padded text: see [`text_cell`].
pub fn text_of<const N: usize>(chars: &[i8; N]) -> (out: Vec<u8>)
    ensures
        out@ == text_cell(chars@),
{
    let ghost bytes = chars_le(chars@);
    proof {
        reveal(text_cell);
    }
    let mut out: Vec<u8> = Vec::new();
    let mut i: usize = 0;
    assert(forall|c: i8| ((#[trigger] (c as u8)) == 0) == (c == 0)) by (bit_vector);
    while i < N && chars[i] != 0
        invariant
            i <= N,
            bytes == chars_le(chars@),
            out@ == bytes.take(i as int),
            forall|j: int| 0 <= j < i ==> bytes[j] != 0,
            forall|c: i8| ((#[trigger] (c as u8)) == 0) == (c == 0),
        decreases N - i,
    {
        let c = chars[i];
        out.push(
            #[verifier::truncate]
            (c as u8),
        );
        assert(out@ =~= bytes.take(i + 1));
        i += 1;
    }
    proof {
        lemma_nul_index_is(bytes, i as nat);
    }
    match str_from_utf8(out.as_slice()) {
        Some(_) => out,
        None => Vec::new(),
    }
}

impl<const N: usize> WriteField for [i8; N] {
    open spec fn columns(name: Seq<u8>) -> Seq<Seq<u8>> {
        seq![name]
    }

    open spec fn cells(&self, pretty_px: bool, pretty_ts: bool) -> Seq<Seq<u8>> {
        seq![text_cell(self@)]
    }

    fn write_header(csv_writer: &mut Writer, name: &str) -> (r: Result<(), ::csv::Error>) {
        write_column(csv_writer, name)
    }

    fn write_field<const PRETTY_PX: bool, const PRETTY_TS: bool>(&self, writer: &mut Writer) -> (r:
        Result<(), ::csv::Error>) {
        write_text(writer, text_of(self).as_slice())
    }

    proof fn lemma_width(&self, name: Seq<u8>, pretty_px: bool, pretty_ts: bool) {
    }
}

impl WriteField for SecurityUpdateAction {
    open spec fn columns(name: Seq<u8>) -> Seq<Seq<u8>> {
        seq![name]
    }

    open spec fn cells(&self, pretty_px: bool, pretty_ts: bool) -> Seq<Seq<u8>> {
        seq![seq![self.code()]]
    }

    fn write_header(csv_writer: &mut Writer, name: &str) -> (r: Result<(), ::csv::Error>) {
        write_column(csv_writer, name)
    }

    fn write_field<const PRETTY_PX: bool, const PRETTY_TS: bool>(&self, writer: &mut Writer) -> (r:
        Result<(), ::csv::Error>) {
        let mut text: Vec<u8> = Vec::new();
        text.push(self.as_u8());
        assert(text@ =~= seq![self.code()]);
        write_text(writer, text.as_slice())
    }

    proof fn lemma_width(&self, name: Seq<u8>, pretty_px: bool, pretty_ts: bool) {
    }
}

impl WriteField for UserDefinedInstrument {
    open spec fn columns(name: Seq<u8>) -> Seq<Seq<u8>> {
        seq![name]
    }

    open spec fn cells(&self, pretty_px: bool, pretty_ts: bool) -> Seq<Seq<u8>> {
        seq![seq![self.code()]]
    }

    fn write_header(csv_writer: &mut Writer, name: &str) -> (r: Result<(), ::csv::Error>) {
        write_column(csv_writer, name)
    }

    fn write_field<const PRETTY_PX: bool, const PRETTY_TS: bool>(&self, writer: &mut Writer) -> (r:
        Result<(), ::csv::Error>) {
        let mut text: Vec<u8> = Vec::new();
        text.push(self.as_u8());
        assert(text@ =~= seq![self.code()]);
        write_text(writer, text.as_slice())
    }

    proof fn lemma_width(&self, name: Seq<u8>, pretty_px: bool, pretty_ts: bool) {
    }
}

impl WriteField for RecordHeader {
    open spec fn columns(name: Seq<u8>) -> Seq<Seq<u8>> {
        seq![column("rtype"), column("publisher_id"), column("product_id"), column("ts_event")]
    }

    open spec fn cells(&self, pretty_px: bool, pretty_ts: bool) -> Seq<Seq<u8>> {
        seq![
            decimal(self.rtype as nat),
            decimal(self.publisher_id as nat),
            decimal(self.product_id as nat),
            ts_cell(self.ts_event, pretty_ts),
        ]
    }

    fn write_header(csv_writer: &mut Writer, name: &str) -> (r: Result<(), ::csv::Error>) {
        let ghost before = pending_fields(*csv_writer);
        write_column(csv_writer, "rtype")?;
        write_column(csv_writer, "publisher_id")?;
        write_column(csv_writer, "product_id")?;
        write_column(csv_writer, "ts_event")?;
        assert(pending_fields(*csv_writer) =~= before + Self::columns(column(name)));
        Ok(())
    }

    fn write_field<const PRETTY_PX: bool, const PRETTY_TS: bool>(&self, writer: &mut Writer) -> (r:
        Result<(), ::csv::Error>) {
        let ghost before = pending_fields(*writer);
        self.rtype.write_field::<PRETTY_PX, PRETTY_TS>(writer)?;
        self.publisher_id.write_field::<PRETTY_PX, PRETTY_TS>(writer)?;
        self.product_id.write_field::<PRETTY_PX, PRETTY_TS>(writer)?;
        write_ts_field::<PRETTY_TS>(writer, self.ts_event)?;
        assert(pending_fields(*writer) =~= before + self.cells(PRETTY_PX, PRETTY_TS));
        Ok(())
    }

    proof fn lemma_width(&self, name: Seq<u8>, pretty_px: bool, pretty_ts: bool) {
    }
}

/// The number `i` in at least two digits.
pub open spec fn two_digits(i: nat) -> Seq<u8> {
    if i < 10 {
        seq![48u8] + decimal(i)
    } else {
        decimal(i)
    }
}

/// The name of the column of the field named `name` at depth `depth` of a
/// book.
pub open spec fn level_column(name: Seq<u8>, depth: nat) -> Seq<u8> {
    name + seq![95u8] + two_digits(depth)
}

/// The columns of the book level at depth `depth`.
pub open spec fn pair_columns(depth: nat) -> Seq<Seq<u8>> {
    seq![
        level_column(column("bid_px"), depth),
        level_column(column("ask_px"), depth),
        level_column(column("bid_sz"), depth),
        level_column(column("ask_sz"), depth),
        level_column(column("bid_ct"), depth),
        level_column(column("ask_ct"), depth),
    ]
}

/// The columns of the first `n` levels of a book.
pub open spec fn level_columns(n: nat) -> Seq<Seq<u8>>
    decreases n,
{
    if n == 0 {
        Seq::empty()
    } else {
        level_columns((n - 1) as nat) + pair_columns((n - 1) as nat)
    }
}

/// The fields of one book level.
pub open spec fn pair_cells(p: BidAskPair, pretty_px: bool) -> Seq<Seq<u8>> {
    seq![
        px_cell(p.bid_px, pretty_px),
        px_cell(p.ask_px, pretty_px),
        decimal(p.bid_sz as nat),
        decimal(p.ask_sz as nat),
        decimal(p.bid_ct as nat),
        decimal(p.ask_ct as nat),
    ]
}

/// The fields of the levels of a book.
pub open spec fn level_cells(levels: Seq<BidAskPair>, pretty_px: bool) -> Seq<Seq<u8>>
    decreases levels.len(),
{
    if levels.len() == 0 {
        Seq::empty()
    } else {
        level_cells(levels.drop_last(), pretty_px) + pair_cells(levels.last(), pretty_px)
    }
}

/// A book has six columns and six fields for each level.
pub proof fn lemma_level_width(levels: Seq<BidAskPair>, pretty_px: bool)
    ensures
        level_columns(levels.len()).len() == 6 * levels.len(),
        level_cells(levels, pretty_px).len() == 6 * levels.len(),
    decreases levels.len(),
{
    if levels.len() > 0 {
        lemma_level_width(levels.drop_last(), pretty_px);
    }
}

/// Writes the column of the field named `name` at depth `depth` of a book.
fn write_level_column(csv_writer: &mut Writer, name: &str, depth: usize) -> (r: Result<
    (),
    ::csv::Error,
>)
    ensures
        r is Ok,
        appended(
            *old(csv_writer),
            *final(csv_writer),
            seq![level_column(column(name), depth as nat)],
        ),
{
    proof {
        reveal(column);
    }
    let mut text = vstd::slice::slice_to_vec(name.as_bytes());
    text.push(95u8);
    if depth < 10 {
        text.push(48u8);
    }
    crate::pretty::push_decimal(&mut text, depth as u64);
    assert(text@ =~= level_column(column(name), depth as nat));
    write_text(csv_writer, text.as_slice())
}

impl<const N: usize> WriteField for [BidAskPair; N] {
    open spec fn columns(name: Seq<u8>) -> Seq<Seq<u8>> {
        level_columns(N as nat)
    }

    open spec fn cells(&self, pretty_px: bool, pretty_ts: bool) -> Seq<Seq<u8>> {
        level_cells(self@, pretty_px)
    }

    fn write_header(csv_writer: &mut Writer, name: &str) -> (r: Result<(), ::csv::Error>) {
        let ghost before = pending_fields(*csv_writer);
        let mut i: usize = 0;
        assert(before + level_columns(0) =~= before);
        while i < N
            invariant
                i <= N,
                appended(*old(csv_writer), *csv_writer, level_columns(i as nat)),
                before == pending_fields(*old(csv_writer)),
            decreases N - i,
        {
            let ghost so_far = pending_fields(*csv_writer);
            write_level_column(csv_writer, "bid_px", i)?;
            write_level_column(csv_writer, "ask_px", i)?;
            write_level_column(csv_writer, "bid_sz", i)?;
            write_level_column(csv_writer, "ask_sz", i)?;
            write_level_column(csv_writer, "bid_ct", i)?;
            write_level_column(csv_writer, "ask_ct", i)?;
            assert(pending_fields(*csv_writer) =~= so_far + pair_columns(i as nat));
            assert(before + level_columns((i + 1) as nat) =~= (before + level_columns(i as nat))
                + pair_columns(i as nat));
            i += 1;
        }
        Ok(())
    }

    fn write_field<const PRETTY_PX: bool, const PRETTY_TS: bool>(&self, writer: &mut Writer) -> (r:
        Result<(), ::csv::Error>) {
        let ghost before = pending_fields(*writer);
        let mut i: usize = 0;
        assert(self@.take(0) =~= Seq::<BidAskPair>::empty());
        assert(before + level_cells(self@.take(0), PRETTY_PX) =~= before);
        while i < N
            invariant
                i <= N,
                appended(*old(writer), *writer, level_cells(self@.take(i as int), PRETTY_PX)),
                before == pending_fields(*old(writer)),
            decreases N - i,
        {
            let ghost so_far = pending_fields(*writer);
            let level = self[i];
            write_px_field::<PRETTY_PX>(writer, level.bid_px)?;
            write_px_field::<PRETTY_PX>(writer, level.ask_px)?;
            level.bid_sz.write_field::<PRETTY_PX, PRETTY_TS>(writer)?;
            level.ask_sz.write_field::<PRETTY_PX, PRETTY_TS>(writer)?;
            level.bid_ct.write_field::<PRETTY_PX, PRETTY_TS>(writer)?;
            level.ask_ct.write_field::<PRETTY_PX, PRETTY_TS>(writer)?;
            proof {
                let t = self@.take(i + 1);
                assert(t.drop_last() =~= self@.take(i as int));
                assert(t.last() == level);
                assert(pending_fields(*writer) =~= so_far + pair_cells(level, PRETTY_PX));
                assert(before + level_cells(t, PRETTY_PX) =~= (before + level_cells(
                    self@.take(i as int),
                    PRETTY_PX,
                )) + pair_cells(level, PRETTY_PX));
            }
            i += 1;
        }
        assert(self@.take(N as int) =~= self@);
        Ok(())
    }

    proof fn lemma_width(&self, name: Seq<u8>, pretty_px: bool, pretty_ts: bool) {
        lemma_level_width(self@, pretty_px);
    }
}

impl<T: Plain + CsvSerialize> CsvSerialize for WithTsOut<T> {
    open spec fn header_fields() -> Seq<Seq<u8>> {
        T::header_fields() + seq![column("ts_out")]
    }

    open spec fn row_fields(&self, pretty_px: bool, pretty_ts: bool) -> Seq<Seq<u8>> {
        self.rec.row_fields(pretty_px, pretty_ts) + seq![ts_cell(self.ts_out, pretty_ts)]
    }

    fn serialize_header(csv_writer: &mut Writer) -> (r: Result<(), ::csv::Error>) {
        let ghost before = pending_fields(*csv_writer);
        T::serialize_header(csv_writer)?;
        write_column(csv_writer, "ts_out")?;
        assert(pending_fields(*csv_writer) =~= before + Self::header_fields());
        Ok(())
    }

    fn serialize_to<const PRETTY_PX: bool, const PRETTY_TS: bool>(
        &self,
        csv_writer: &mut Writer,
    ) -> (r: Result<(), ::csv::Error>) {
        let ghost before = pending_fields(*csv_writer);
        self.rec.serialize_to::<PRETTY_PX, PRETTY_TS>(csv_writer)?;
        write_ts_field::<PRETTY_TS>(csv_writer, self.ts_out)?;
        assert(pending_fields(*csv_writer) =~= before + self.row_fields(PRETTY_PX, PRETTY_TS));
        Ok(())
    }

    proof fn lemma_columns(&self, pretty_px: bool, pretty_ts: bool) {
        self.rec.lemma_columns(pretty_px, pretty_ts);
    }
}

} // verus!
