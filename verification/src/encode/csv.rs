//! Records as comma-separated values.
//!
//! The text itself is written by the `csv` crate's writer over a byte
//! vector. What is proved here is which fields are handed to that writer,
//! row by row; the writer is described by the rows that it has taken. A
//! vector takes every write, so the writer fails in one way only: it
//! refuses to end a row that has another number of fields than its first
//! row has.
use crate::encode::csv::serialize::CsvSerialize;
use crate::encode::{sink_outcome, EncodeError, VecStream};
use crate::record::{HasRType, RecordHeader};
use vstd::prelude::*;

pub mod records;
pub mod serialize;

verus! {

/// The `csv` crate's writer over a byte vector, made without a header row
/// of its own.
#[verifier::external_body]
pub struct Writer {
    inner: ::csv::Writer<Vec<u8>>,
}

#[verifier::external_type_specification]
#[verifier::external_body]
pub struct ExCsvError(::csv::Error);

#[verifier::external_type_specification]
#[verifier::external_body]
pub struct ExIoError(std::io::Error);

/// The rows that the writer has taken and ended, each with its fields.
pub uninterp spec fn written_rows(w: Writer) -> Seq<Seq<Seq<u8>>>;

/// The fields that the writer has taken for the row that is not ended yet.
pub uninterp spec fn pending_fields(w: Writer) -> Seq<Seq<u8>>;

/// The bytes that the vector held when the writer was made over it.
pub uninterp spec fn sink_start(w: Writer) -> Seq<u8>;

/// The text that the `csv` crate writes for `rows`, with its default
/// delimiter, terminator and quoting.
pub uninterp spec fn csv_text(rows: Seq<Seq<Seq<u8>>>) -> Seq<u8>;

/// Whether a writer that has ended `rows` takes `row` as its next row: it
/// has ended none yet, or `row` has as many fields as its first row.
pub open spec fn takes_row(rows: Seq<Seq<Seq<u8>>>, row: Seq<Seq<u8>>) -> bool {
    rows.len() == 0 || rows[0].len() == row.len()
}

/// Makes a writer over `sink` with `csv::WriterBuilder`, switching off the
/// header row that the crate would derive by itself. The writer has taken
/// nothing yet.
#[verifier::external_body]
pub(crate) fn writer_from(sink: Vec<u8>) -> (w: Writer)
    ensures
        written_rows(w).len() == 0,
        pending_fields(w).len() == 0,
        sink_start(w) == sink@,
{
    Writer { inner: ::csv::WriterBuilder::new().has_headers(false).from_writer(sink) }
}

/// Hands one field to `csv::Writer::write_field`. The call fails only
/// where the sink refuses a write, and the sink is a vector, which takes
/// every write. The field is the last of the row that is not ended yet, and
/// nothing else has changed.
#[verifier::external_body]
pub(crate) fn write_field(w: &mut Writer, field: &[u8]) -> (r: Result<(), ::csv::Error>)
    ensures
        r is Ok,
        pending_fields(*final(w)) == pending_fields(*old(w)).push(field@),
        written_rows(*final(w)) == written_rows(*old(w)),
        sink_start(*final(w)) == sink_start(*old(w)),
{
    w.inner.write_field(field)
}

/// Ends the row with `csv::Writer::write_record` on no fields. The crate
/// checks the number of fields before it writes anything: it refuses a row
/// that has another number of fields than the first row had, and changes
/// nothing then. Otherwise the fields taken since the last end are the
/// writer's last row.
#[verifier::external_body]
pub(crate) fn end_row(w: &mut Writer) -> (r: Result<(), ::csv::Error>)
    ensures
        r is Ok <==> takes_row(written_rows(*old(w)), pending_fields(*old(w))),
        r is Ok ==> written_rows(*final(w)) == written_rows(*old(w)).push(pending_fields(*old(w))),
        r is Ok ==> pending_fields(*final(w)).len() == 0,
        r is Err ==> written_rows(*final(w)) == written_rows(*old(w)),
        r is Err ==> pending_fields(*final(w)) == pending_fields(*old(w)),
        sink_start(*final(w)) == sink_start(*old(w)),
{
    w.inner.write_record(None::<&[u8]>)
}

/// Flushes the writer's buffer into the vector with `csv::Writer::flush`,
/// which fails only where the sink does; a vector does not. The rows and
/// fields that the writer has taken stay as they are.
#[verifier::external_body]
pub(crate) fn flush(w: &mut Writer) -> (r: Result<(), std::io::Error>)
    ensures
        r is Ok,
        written_rows(*final(w)) == written_rows(*old(w)),
        pending_fields(*final(w)) == pending_fields(*old(w)),
        sink_start(*final(w)) == sink_start(*old(w)),
{
    w.inner.flush()
}

/// Takes the vector back with `csv::Writer::into_inner`, which flushes
/// first and fails only where the flush does. Where no row is open, the
/// vector holds what it held at the start and then the text of the rows.
#[verifier::external_body]
pub(crate) fn into_bytes(w: Writer) -> (r: Option<Vec<u8>>)
    ensures
        r is Some,
        pending_fields(w).len() == 0 ==> r->Some_0@ == sink_start(w) + csv_text(written_rows(w)),
{
    match w.inner.into_inner() {
        Ok(bytes) => Some(bytes),
        Err(_) => None,
    }
}

/// The message of a `csv::Error`.
#[verifier::external_body]
pub(crate) fn error_message(e: &::csv::Error) -> (s: String) {
    format!("{}", e)
}

/// The message of a `std::io::Error`.
#[verifier::external_body]
pub(crate) fn io_error_message(e: &std::io::Error) -> (s: String) {
    format!("{}", e)
}

impl Writer {
    /// A writer over `sink` that has taken nothing yet.
    pub fn from_writer(sink: Vec<u8>) -> (w: Writer)
        ensures
            written_rows(w).len() == 0,
            pending_fields(w).len() == 0,
            sink_start(w) == sink@,
    {
        writer_from(sink)
    }

    /// Ends the row: the fields taken since the last end become the
    /// writer's last row. A row that has another number of fields than the
    /// first row is refused, and nothing changes.
    pub fn end_record(&mut self) -> (r: Result<(), ::csv::Error>)
        ensures
            r is Ok <==> takes_row(written_rows(*old(self)), pending_fields(*old(self))),
            r is Ok ==> written_rows(*final(self)) == written_rows(*old(self)).push(
                pending_fields(*old(self)),
            ),
            r is Ok ==> pending_fields(*final(self)).len() == 0,
            r is Err ==> written_rows(*final(self)) == written_rows(*old(self)),
            r is Err ==> pending_fields(*final(self)) == pending_fields(*old(self)),
            sink_start(*final(self)) == sink_start(*old(self)),
    {
        end_row(self)
    }

    /// The vector with all that was written. Where no row is open, the
    /// vector holds what it held at the start and then the text of the
    /// rows.
    pub fn into_inner(self) -> (r: Option<Vec<u8>>)
        ensures
            r is Some,
            pending_fields(self).len() == 0 ==> r->Some_0@ == sink_start(self) + csv_text(
                written_rows(self),
            ),
    {
        into_bytes(self)
    }
}

/// The rows of a run of records.
pub open spec fn rows_of<R: CsvSerialize>(records: Seq<R>, pretty_px: bool, pretty_ts: bool) -> Seq<
    Seq<Seq<u8>>,
> {
    Seq::new(records.len(), |i: int| records[i].row_fields(pretty_px, pretty_ts))
}

/// How a bulk encoding ends.
pub enum BulkEnd {
    /// The header row and every record's row were written.
    Done,
    /// The header row was refused.
    HeaderRefused,
    /// The row of the record with this header was refused.
    RecordRefused { header: RecordHeader },
}

/// What a bulk encoding leaves in the writer, and how it ends.
pub struct BulkOutcome {
    /// The rows that are written and ended.
    pub rows: Seq<Seq<Seq<u8>>>,
    /// The fields of the row that is not ended.
    pub pending: Seq<Seq<u8>>,
    /// How the encoding ends.
    pub end: BulkEnd,
}

/// What a bulk encoding of `records` does to a writer that has ended `rows`
/// and holds `pending` in its open row.
///
/// The header row comes first, behind what the open row held. Where the
/// writer takes it, the rows of the records follow in order. All of them
/// have the header's number of fields, so either the writer takes them all,
/// or it refuses the first and keeps its fields in the open row.
pub open spec fn bulk_outcome<R: CsvSerialize>(
    rows: Seq<Seq<Seq<u8>>>,
    pending: Seq<Seq<u8>>,
    records: Seq<R>,
    pretty_px: bool,
    pretty_ts: bool,
) -> BulkOutcome {
    let first = pending + R::header_fields();
    let headed = rows.push(first);
    if !takes_row(rows, first) {
        BulkOutcome { rows, pending: first, end: BulkEnd::HeaderRefused }
    } else if records.len() == 0 || headed[0].len() == R::header_fields().len() {
        BulkOutcome {
            rows: headed + rows_of(records, pretty_px, pretty_ts),
            pending: Seq::empty(),
            end: BulkEnd::Done,
        }
    } else {
        BulkOutcome {
            rows: headed,
            pending: records[0].row_fields(pretty_px, pretty_ts),
            end: BulkEnd::RecordRefused { header: records[0].hd() },
        }
    }
}

/// Whether `r` is the result of a bulk encoding that ends as `end`.
pub open spec fn ends_as(r: Result<(), EncodeError>, end: BulkEnd) -> bool {
    match end {
        BulkEnd::Done => r is Ok,
        BulkEnd::HeaderRefused => r matches Err(EncodeError::Header { .. }),
        BulkEnd::RecordRefused { header } => r matches Err(EncodeError::Record { header: h, .. })
            && h == header,
    }
}

/// An encoder of records as comma-separated values into a byte vector.
pub struct Encoder {
    writer: Writer,
    pretty_px: bool,
    pretty_ts: bool,
}

impl Encoder {
    /// The rows that were written and ended.
    pub closed spec fn rows(&self) -> Seq<Seq<Seq<u8>>> {
        written_rows(self.writer)
    }

    /// The fields of the row that is not ended yet.
    pub closed spec fn pending(&self) -> Seq<Seq<u8>> {
        pending_fields(self.writer)
    }

    /// The bytes that the vector held when the encoder was made.
    pub closed spec fn start(&self) -> Seq<u8> {
        sink_start(self.writer)
    }

    /// Whether prices are written as decimal numbers.
    pub closed spec fn pretty_px(&self) -> bool {
        self.pretty_px
    }

    /// Whether timestamps are written as dates and times.
    pub closed spec fn pretty_ts(&self) -> bool {
        self.pretty_ts
    }

    /// An encoder that writes to `writer`, with prices and timestamps as
    /// plain integers.
    pub fn new(writer: Vec<u8>) -> (e: Encoder)
        ensures
            e.rows().len() == 0,
            e.pending().len() == 0,
            e.start() == writer@,
            !e.pretty_px(),
            !e.pretty_ts(),
    {
        Encoder { writer: writer_from(writer), pretty_px: false, pretty_ts: false }
    }

    /// An encoder that writes to `writer`, with prices as decimal numbers
    /// where `pretty_px` is set, and timestamps as dates and times where
    /// `pretty_ts` is set.
    pub fn with_pretty(writer: Vec<u8>, pretty_px: bool, pretty_ts: bool) -> (e: Encoder)
        ensures
            e.rows().len() == 0,
            e.pending().len() == 0,
            e.start() == writer@,
            e.pretty_px() == pretty_px,
            e.pretty_ts() == pretty_ts,
    {
        Encoder { writer: writer_from(writer), pretty_px, pretty_ts }
    }

    /// The vector with all that was written. Where no row is open, the
    /// vector holds what it held at the start and then the text of the
    /// rows.
    pub fn into_inner(self) -> (r: Option<Vec<u8>>)
        ensures
            r is Some,
            self.pending().len() == 0 ==> r->Some_0@ == self.start() + csv_text(self.rows()),
    {
        into_bytes(self.writer)
    }

    /// Hands the fields of `record` to the writer, in the encoder's
    /// rendering.
    fn serialize<R: CsvSerialize>(&mut self, record: &R) -> (r: Result<(), ::csv::Error>)
        ensures
            r is Ok,
            final(self).pending() == old(self).pending() + record.row_fields(
                old(self).pretty_px(),
                old(self).pretty_ts(),
            ),
            final(self).rows() == old(self).rows(),
            final(self).start() == old(self).start(),
            final(self).pretty_px() == old(self).pretty_px(),
            final(self).pretty_ts() == old(self).pretty_ts(),
    {
        if self.pretty_px {
            if self.pretty_ts {
                record.serialize_to::<true, true>(&mut self.writer)
            } else {
                record.serialize_to::<true, false>(&mut self.writer)
            }
        } else {
            if self.pretty_ts {
                record.serialize_to::<false, true>(&mut self.writer)
            } else {
                record.serialize_to::<false, false>(&mut self.writer)
            }
        }
    }

    /// Writes the row of `record`, and no header row.
    ///
    /// The row is what the open row held and then the record's fields.
    /// Where the writer takes it, the result is `Ok(false)`: the row was
    /// written, and the caller may go on. Where it has another number of
    /// fields than the first row, the result is an error that names the
    /// record, and the fields stay in the open row. A vector is never
    /// closed, so the result is never `Ok(true)`.
    pub fn encode_record<R: CsvSerialize>(&mut self, record: &R) -> (r: Result<bool, EncodeError>)
        ensures
            ({
                let row = old(self).pending() + record.row_fields(
                    old(self).pretty_px(),
                    old(self).pretty_ts(),
                );
                if takes_row(old(self).rows(), row) {
                    &&& r == Ok::<bool, EncodeError>(false)
                    &&& final(self).rows() == old(self).rows().push(row)
                    &&& final(self).pending().len() == 0
                } else {
                    &&& r matches Err(EncodeError::Record { header, .. }) && header == record.hd()
                    &&& final(self).rows() == old(self).rows()
                    &&& final(self).pending() == row
                }
            }),
            final(self).start() == old(self).start(),
            final(self).pretty_px() == old(self).pretty_px(),
            final(self).pretty_ts() == old(self).pretty_ts(),
    {
        let written = match self.serialize(record) {
            Ok(()) => end_row(&mut self.writer),
            Err(e) => Err(e),
        };
        match written {
            Ok(()) => sink_outcome(true, false, *record.header(), String::new()),
            Err(e) => sink_outcome(false, false, *record.header(), error_message(&e)),
        }
    }

    /// Writes the header row of schema `R`: what the open row held and then
    /// the schema's columns. Where the row has another number of fields
    /// than the first row, the result is an error, and the fields stay in
    /// the open row.
    pub fn encode_header<R: CsvSerialize>(&mut self) -> (r: Result<(), EncodeError>)
        ensures
            ({
                let row = old(self).pending() + R::header_fields();
                if takes_row(old(self).rows(), row) {
                    &&& r is Ok
                    &&& final(self).rows() == old(self).rows().push(row)
                    &&& final(self).pending().len() == 0
                } else {
                    &&& r matches Err(EncodeError::Header { .. })
                    &&& final(self).rows() == old(self).rows()
                    &&& final(self).pending() == row
                }
            }),
            final(self).start() == old(self).start(),
            final(self).pretty_px() == old(self).pretty_px(),
            final(self).pretty_ts() == old(self).pretty_ts(),
    {
        let written = match R::serialize_header(&mut self.writer) {
            Ok(()) => end_row(&mut self.writer),
            Err(e) => Err(e),
        };
        match written {
            Ok(()) => Ok(()),
            Err(e) => Err(EncodeError::Header { message: error_message(&e) }),
        }
    }

    /// Flushes what was written into the vector. What the encoder has
    /// written stays as it is.
    pub fn flush(&mut self) -> (r: Result<(), EncodeError>)
        ensures
            r is Ok,
            final(self).rows() == old(self).rows(),
            final(self).pending() == old(self).pending(),
            final(self).start() == old(self).start(),
            final(self).pretty_px() == old(self).pretty_px(),
            final(self).pretty_ts() == old(self).pretty_ts(),
    {
        match flush(&mut self.writer) {
            Ok(()) => Ok(()),
            Err(e) => Err(EncodeError::Flush { message: io_error_message(&e) }),
        }
    }

    /// Writes the header row of schema `R` and a row for each of `records`,
    /// in order, and flushes: see [`bulk_outcome`]. On an encoder that has
    /// written nothing the call succeeds.
    pub fn encode_records<R: CsvSerialize>(&mut self, records: &[R]) -> (r: Result<
        (),
        EncodeError,
    >)
        ensures
            ({
                let outcome = bulk_outcome(
                    old(self).rows(),
                    old(self).pending(),
                    records@,
                    old(self).pretty_px(),
                    old(self).pretty_ts(),
                );
                &&& ends_as(r, outcome.end)
                &&& final(self).rows() == outcome.rows
                &&& final(self).pending() == outcome.pending
            }),
            old(self).rows().len() == 0 && old(self).pending().len() == 0 ==> r is Ok,
            final(self).start() == old(self).start(),
            final(self).pretty_px() == old(self).pretty_px(),
            final(self).pretty_ts() == old(self).pretty_ts(),
    {
        let ghost px = self.pretty_px();
        let ghost ts = self.pretty_ts();
        let ghost first = self.pending() + R::header_fields();
        let ghost headed = self.rows().push(first);
        proof {
            lemma_header_first::<R>(self.rows(), self.pending());
        }
        match self.encode_header::<R>() {
            Ok(()) => {},
            Err(e) => {
                return Err(e);
            },
        }
        let mut i: usize = 0;
        assert(headed + rows_of(records@.take(0), px, ts) =~= headed);
        while i < records.len()
            invariant
                i <= records@.len(),
                self.pretty_px() == px,
                self.pretty_ts() == ts,
                px == old(self).pretty_px(),
                ts == old(self).pretty_ts(),
                first == old(self).pending() + R::header_fields(),
                headed == old(self).rows().push(first),
                takes_row(old(self).rows(), first),
                i > 0 ==> headed[0].len() == R::header_fields().len(),
                self.rows() == headed + rows_of(records@.take(i as int), px, ts),
                self.pending().len() == 0,
                self.start() == old(self).start(),
            decreases records@.len() - i,
        {
            proof {
                records@[i as int].lemma_columns(px, ts);
                let row = records@[i as int].row_fields(px, ts);
                assert(self.pending() + row =~= row);
                assert(self.rows()[0] == headed[0]);
            }
            match self.encode_record(&records[i]) {
                Ok(stop) => {
                    if stop {
                        return Ok(());
                    }
                },
                Err(e) => {
                    assert(i == 0);
                    assert(records@.take(0) =~= Seq::<R>::empty());
                    assert(headed + rows_of(records@.take(0), px, ts) =~= headed);
                    return Err(e);
                },
            }
            proof {
                let row = records@[i as int].row_fields(px, ts);
                assert(rows_of(records@.take(i + 1), px, ts) =~= rows_of(
                    records@.take(i as int),
                    px,
                    ts,
                ).push(row));
            }
            i += 1;
        }
        assert(records@.take(i as int) =~= records@);
        self.flush()
    }

    /// Writes the header row of schema `R` and a row for each record of
    /// `stream`, in order, and flushes: what [`Encoder::encode_records`]
    /// does for a slice of the same records.
    pub fn encode_stream<R: CsvSerialize>(&mut self, stream: VecStream<R>) -> (r: Result<
        (),
        EncodeError,
    >)
        ensures
            ({
                let outcome = bulk_outcome(
                    old(self).rows(),
                    old(self).pending(),
                    stream.remaining(),
                    old(self).pretty_px(),
                    old(self).pretty_ts(),
                );
                &&& ends_as(r, outcome.end)
                &&& final(self).rows() == outcome.rows
                &&& final(self).pending() == outcome.pending
            }),
            old(self).rows().len() == 0 && old(self).pending().len() == 0 ==> r is Ok,
            final(self).start() == old(self).start(),
            final(self).pretty_px() == old(self).pretty_px(),
            final(self).pretty_ts() == old(self).pretty_ts(),
    {
        let mut source = stream;
        let ghost all = source.remaining();
        let ghost px = self.pretty_px();
        let ghost ts = self.pretty_ts();
        let ghost first = self.pending() + R::header_fields();
        let ghost headed = self.rows().push(first);
        proof {
            lemma_header_first::<R>(self.rows(), self.pending());
        }
        match self.encode_header::<R>() {
            Ok(()) => {},
            Err(e) => {
                return Err(e);
            },
        }
        let ghost done: int = 0;
        assert(headed + rows_of(all.take(0), px, ts) =~= headed);
        assert(all.skip(0) =~= all);
        while !source.is_done()
            invariant
                0 <= done <= all.len(),
                source.remaining() == all.skip(done),
                all == stream.remaining(),
                self.pretty_px() == px,
                self.pretty_ts() == ts,
                px == old(self).pretty_px(),
                ts == old(self).pretty_ts(),
                first == old(self).pending() + R::header_fields(),
                headed == old(self).rows().push(first),
                takes_row(old(self).rows(), first),
                done > 0 ==> headed[0].len() == R::header_fields().len(),
                self.rows() == headed + rows_of(all.take(done), px, ts),
                self.pending().len() == 0,
                self.start() == old(self).start(),
            decreases all.len() - done,
        {
            match source.get() {
                Some(record) => {
                    proof {
                        all[done].lemma_columns(px, ts);
                        let row = all[done].row_fields(px, ts);
                        assert(self.pending() + row =~= row);
                        assert(self.rows()[0] == headed[0]);
                    }
                    match self.encode_record(record) {
                        Ok(stop) => {
                            if stop {
                                return Ok(());
                            }
                        },
                        Err(e) => {
                            assert(done == 0);
                            assert(all.take(0) =~= Seq::<R>::empty());
                            assert(headed + rows_of(all.take(0), px, ts) =~= headed);
                            return Err(e);
                        },
                    }
                    proof {
                        let row = all[done].row_fields(px, ts);
                        assert(rows_of(all.take(done + 1), px, ts) =~= rows_of(
                            all.take(done),
                            px,
                            ts,
                        ).push(row));
                    }
                },
                None => {},
            }
            source.advance();
            proof {
                assert(all.skip(done).drop_first() =~= all.skip(done + 1));
                done = done + 1;
            }
        }
        assert(all.take(done) =~= all);
        self.flush()
    }
}

/// On a writer that has taken nothing, the header row is the first row.
pub proof fn lemma_header_first<R: CsvSerialize>(rows: Seq<Seq<Seq<u8>>>, pending: Seq<Seq<u8>>)
    ensures
        rows.len() == 0 && pending.len() == 0 ==> {
            &&& takes_row(rows, pending + R::header_fields())
            &&& rows.push(pending + R::header_fields())[0].len() == R::header_fields().len()
        },
{
    if rows.len() == 0 && pending.len() == 0 {
        assert(pending + R::header_fields() =~= R::header_fields());
    }
}

/// Encoding a stream is encoding the slice of its records: on encoders in
/// the same state, both leave the same rows and end in the same way.
pub proof fn lemma_stream_as_records<R: CsvSerialize>(
    rows: Seq<Seq<Seq<u8>>>,
    pending: Seq<Seq<u8>>,
    stream: VecStream<R>,
    records: Seq<R>,
    pretty_px: bool,
    pretty_ts: bool,
)
    requires
        stream.remaining() == records,
    ensures
        bulk_outcome(rows, pending, stream.remaining(), pretty_px, pretty_ts) == bulk_outcome(
            rows,
            pending,
            records,
            pretty_px,
            pretty_ts,
        ),
{
}

/// A bulk encoding on an encoder that has written nothing writes the header
/// row and then one row for each record, in order, each with as many
/// fields as the header row.
pub proof fn lemma_bulk_on_fresh<R: CsvSerialize>(records: Seq<R>, pretty_px: bool, pretty_ts: bool)
    ensures
        ({
            let outcome = bulk_outcome(
                Seq::empty(),
                Seq::empty(),
                records,
                pretty_px,
                pretty_ts,
            );
            &&& outcome.end is Done
            &&& outcome.pending.len() == 0
            &&& outcome.rows.len() == records.len() + 1
            &&& outcome.rows[0] == R::header_fields()
            &&& forall|i: int|
                0 <= i < records.len() ==> {
                    &&& #[trigger] outcome.rows[i + 1] == records[i].row_fields(
                        pretty_px,
                        pretty_ts,
                    )
                    &&& outcome.rows[i + 1].len() == outcome.rows[0].len()
                }
        }),
{
    lemma_header_first::<R>(Seq::empty(), Seq::empty());
    let first = Seq::<Seq<u8>>::empty() + R::header_fields();
    assert(first =~= R::header_fields());
    assert forall|i: int| 0 <= i < records.len() implies records[i].row_fields(
        pretty_px,
        pretty_ts,
    ).len() == R::header_fields().len() by {
        records[i].lemma_columns(pretty_px, pretty_ts);
    }
}

} // verus!
