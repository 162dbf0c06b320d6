//! The metadata block that precedes the records of a stream.
//!
//! The block is eight bytes of prelude and a body. The prelude is the tag
//! `DBN`, the version of the format, and the body's length as a
//! little-endian `u32`. The body starts with a hundred bytes of fixed
//! fields:
//!
//! | offset | width | field                                   |
//! |--------|-------|-----------------------------------------|
//! | 0      | 16    | dataset, NUL-padded                     |
//! | 16     | 2     | schema code                             |
//! | 18     | 8     | start                                   |
//! | 26     | 8     | end; all ones where there is none       |
//! | 34     | 8     | limit; zero where there is none         |
//! | 42     | 8     | record count                            |
//! | 50     | 1     | input symbology code                    |
//! | 51     | 1     | output symbology code                   |
//! | 52     | 48    | reserved                                |
//!
//! Then come the length of a schema definition, which must be zero, and
//! three lists of symbols: those asked for, those resolved in part, and
//! those not found. A list is a `u32` count and that many NUL-padded symbols
//! of twenty-two bytes. What the body holds behind the lists is passed over.
use crate::enums::{SType, Schema};
use crate::error::MetadataError;
use crate::text::{read_string, text_at};
use crate::wire::{read_u16, read_u32, read_u64, read_u8, u16_at, u32_at, u64_at, u8_at};
use vstd::prelude::*;
use vstd::slice::slice_subrange;
use vstd::utf8::{decode_utf8, valid_utf8};

pub mod encode;

verus! {

/// The byte size of the prelude.
pub const PRELUDE_LEN: usize = 8;

/// The byte size of the body's fixed fields.
pub const FIXED_LEN: usize = 100;

/// The byte size of the dataset field.
pub const DATASET_CSTR_LEN: usize = 16;

/// The byte size of a symbol.
pub const SYMBOL_CSTR_LEN: usize = 22;

/// The latest version of the format that this library reads.
pub const DBN_VERSION: u8 = 1;

/// The value of the end field that stands for no end.
pub const NULL_END: u64 = 0xffff_ffff_ffff_ffff;

/// The value of the limit field that stands for no limit.
pub const NULL_LIMIT: u64 = 0;

/// The offset in the body of the first symbol list.
pub const LISTS_START: usize = 104;

/// What a stream says of itself before its first record.
#[derive(Clone, Debug, PartialEq, Eq)]
pub struct Metadata {
    /// The version of the format that the stream was written in.
    pub version: u8,
    /// The identifier of the dataset.
    pub dataset: String,
    /// The kind of data that the stream holds.
    pub schema: Schema,
    /// The start of the query range, in nanoseconds since the UNIX epoch.
    pub start: u64,
    /// The end of the query range, in nanoseconds since the UNIX epoch.
    pub end: Option<u64>,
    /// The largest number of records that the query asked for.
    pub limit: Option<u64>,
    /// The number of records in the stream.
    pub record_count: u64,
    /// The symbology of the symbols asked for.
    pub stype_in: SType,
    /// The symbology of the symbols in the records.
    pub stype_out: SType,
    /// The symbols asked for.
    pub symbols: Vec<String>,
    /// The symbols that were resolved for a part of the range only.
    pub partial: Vec<String>,
    /// The symbols that were not resolved.
    pub not_found: Vec<String>,
}

/// The mathematical content of a [`Metadata`].
pub struct MetadataView {
    pub version: u8,
    pub dataset: Seq<char>,
    pub schema: Schema,
    pub start: u64,
    pub end: Option<u64>,
    pub limit: Option<u64>,
    pub record_count: u64,
    pub stype_in: SType,
    pub stype_out: SType,
    pub symbols: Seq<Seq<char>>,
    pub partial: Seq<Seq<char>>,
    pub not_found: Seq<Seq<char>>,
}

impl View for Metadata {
    type V = MetadataView;

    open spec fn view(&self) -> MetadataView {
        MetadataView {
            version: self.version,
            dataset: self.dataset@,
            schema: self.schema,
            start: self.start,
            end: self.end,
            limit: self.limit,
            record_count: self.record_count,
            stype_in: self.stype_in,
            stype_out: self.stype_out,
            symbols: texts(self.symbols@),
            partial: texts(self.partial@),
            not_found: texts(self.not_found@),
        }
    }
}

/// The character sequences of a list of strings.
pub open spec fn texts(v: Seq<String>) -> Seq<Seq<char>> {
    Seq::new(v.len(), |i: int| v[i]@)
}

/// What the head of a byte sequence holds of a metadata block.
pub enum MetadataParse {
    /// Not all of the block is there yet.
    Incomplete,
    /// The block is there as far as needed to see that it is malformed.
    Malformed(MetadataError),
    /// The whole block, and the number of bytes that it takes.
    Complete(MetadataView, nat),
}

/// The offset behind the symbol list that starts at `pos`.
pub open spec fn list_end(body: Seq<u8>, pos: int) -> int {
    pos + 4 + 22 * u32_at(body, pos)
}

/// Whether the symbol list that starts at `pos` lies within the body.
pub open spec fn list_fits(body: Seq<u8>, pos: int) -> bool {
    pos + 4 <= body.len() && list_end(body, pos) <= body.len()
}

/// The text of symbol `i` of the list that starts at `pos`.
pub open spec fn symbol_text(body: Seq<u8>, pos: int, i: int) -> Seq<u8> {
    text_at(body, pos + 4 + 22 * i, 22)
}

/// Whether every symbol of the list that starts at `pos` is UTF-8.
pub open spec fn list_is_text(body: Seq<u8>, pos: int) -> bool {
    forall|i: int| 0 <= i < u32_at(body, pos) ==> valid_utf8(#[trigger] symbol_text(body, pos, i))
}

/// The symbols of the list that starts at `pos`.
pub open spec fn list_at(body: Seq<u8>, pos: int) -> Seq<Seq<char>> {
    Seq::new(u32_at(body, pos) as nat, |i: int| decode_utf8(symbol_text(body, pos, i)))
}

/// The end field's value.
pub open spec fn end_of(raw: u64) -> Option<u64> {
    if raw == NULL_END {
        None
    } else {
        Some(raw)
    }
}

/// The limit field's value.
pub open spec fn limit_of(raw: u64) -> Option<u64> {
    if raw == NULL_LIMIT {
        None
    } else {
        Some(raw)
    }
}

/// What a body of at least a hundred bytes holds, or why it is rejected.
#[verifier::opaque]
pub open spec fn parse_body(version: u8, body: Seq<u8>) -> Result<MetadataView, MetadataError> {
    let partial_at = list_end(body, 104);
    let not_found_at = list_end(body, partial_at);
    if !valid_utf8(text_at(body, 0, 16)) {
        Err(MetadataError::BadDataset)
    } else if !Schema::known(u16_at(body, 16)) {
        Err(MetadataError::UnknownSchema { code: u16_at(body, 16) })
    } else if !SType::known(u8_at(body, 50)) {
        Err(MetadataError::UnknownSType { raw: u8_at(body, 50) })
    } else if !SType::known(u8_at(body, 51)) {
        Err(MetadataError::UnknownSType { raw: u8_at(body, 51) })
    } else if body.len() < 104 {
        Err(MetadataError::ListOverrun)
    } else if u32_at(body, 100) != 0 {
        Err(MetadataError::SchemaDefinition { length: u32_at(body, 100) })
    } else if !list_fits(body, 104) {
        Err(MetadataError::ListOverrun)
    } else if !list_is_text(body, 104) {
        Err(MetadataError::BadSymbol)
    } else if !list_fits(body, partial_at) {
        Err(MetadataError::ListOverrun)
    } else if !list_is_text(body, partial_at) {
        Err(MetadataError::BadSymbol)
    } else if !list_fits(body, not_found_at) {
        Err(MetadataError::ListOverrun)
    } else if !list_is_text(body, not_found_at) {
        Err(MetadataError::BadSymbol)
    } else {
        Ok(
            MetadataView {
                version,
                dataset: decode_utf8(text_at(body, 0, 16)),
                schema: Schema::of_code(u16_at(body, 16)),
                start: u64_at(body, 18),
                end: end_of(u64_at(body, 26)),
                limit: limit_of(u64_at(body, 34)),
                record_count: u64_at(body, 42),
                stype_in: SType::of_code(u8_at(body, 50)),
                stype_out: SType::of_code(u8_at(body, 51)),
                symbols: list_at(body, 104),
                partial: list_at(body, partial_at),
                not_found: list_at(body, not_found_at),
            },
        )
    }
}

/// Whether `b` starts with the tag of the format.
pub open spec fn has_tag(b: Seq<u8>) -> bool {
    b[0] == 68 && b[1] == 66 && b[2] == 78
}

/// What the head of `b` holds of a metadata block.
pub open spec fn parse_metadata(b: Seq<u8>) -> MetadataParse {
    if b.len() < 8 {
        MetadataParse::Incomplete
    } else if !has_tag(b) {
        MetadataParse::Malformed(MetadataError::BadPrefix)
    } else if u8_at(b, 3) > DBN_VERSION {
        MetadataParse::Malformed(MetadataError::UnsupportedVersion { version: u8_at(b, 3) })
    } else if u32_at(b, 4) < 100 {
        MetadataParse::Malformed(MetadataError::TooShort { length: u32_at(b, 4) })
    } else if b.len() < 8 + u32_at(b, 4) {
        MetadataParse::Incomplete
    } else {
        match parse_body(u8_at(b, 3), b.subrange(8, 8 + u32_at(b, 4))) {
            Ok(m) => MetadataParse::Complete(m, (8 + u32_at(b, 4)) as nat),
            Err(e) => MetadataParse::Malformed(e),
        }
    }
}

/// Once a block is complete or seen to be malformed, the bytes that follow
/// change nothing.
pub proof fn lemma_parse_metadata_stable(b: Seq<u8>, tail: Seq<u8>)
    requires
        !(parse_metadata(b) is Incomplete),
    ensures
        parse_metadata(b + tail) == parse_metadata(b),
{
    broadcast use crate::wire::group_wire;

    let e = b + tail;
    assert(e.subrange(4, 8) == b.subrange(4, 8));
    assert(u32_at(e, 4) == u32_at(b, 4));
    if has_tag(b) && u8_at(b, 3) <= DBN_VERSION && u32_at(b, 4) >= 100 {
        let n: int = 8 + u32_at(b, 4);
        assert(e.subrange(8, n) == b.subrange(8, n));
    }
}

/// Reads the symbol list that starts at `pos`: the symbols and the offset
/// behind the list.
pub fn read_list(body: &[u8], pos: usize) -> (r: Result<(Vec<String>, usize), MetadataError>)
    requires
        pos <= body@.len(),
    ensures
        !list_fits(body@, pos as int) ==> r == Err::<(Vec<String>, usize), MetadataError>(
            MetadataError::ListOverrun,
        ),
        list_fits(body@, pos as int) && !list_is_text(body@, pos as int) ==> r == Err::<
            (Vec<String>, usize),
            MetadataError,
        >(MetadataError::BadSymbol),
        list_fits(body@, pos as int) && list_is_text(body@, pos as int) ==> r is Ok && texts(
            r->Ok_0.0@,
        ) == list_at(body@, pos as int) && r->Ok_0.1 == list_end(body@, pos as int),
{
    let total = body.len();
    if total - pos < 4 {
        return Err(MetadataError::ListOverrun);
    }
    let count = read_u32(body, pos);
    let room = (total - pos - 4) as u64;
    if room / 22 < count as u64 {
        return Err(MetadataError::ListOverrun);
    }
    let n = count as usize;
    let first = pos + 4;
    let mut out: Vec<String> = Vec::new();
    let mut i: usize = 0;
    while i < n
        invariant
            i <= n,
            n == u32_at(body@, pos as int),
            first == pos + 4,
            first + 22 * n <= body@.len(),
            body@.len() == total,
            out@.len() == i,
            forall|j: int|
                0 <= j < i ==> valid_utf8(#[trigger] symbol_text(body@, pos as int, j)) && out@[j]@
                    == decode_utf8(symbol_text(body@, pos as int, j)),
        decreases n - i,
    {
        match read_string(body, first + 22 * i, 22) {
            Some(s) => {
                out.push(s);
            },
            None => {
                assert(!valid_utf8(symbol_text(body@, pos as int, i as int)));
                return Err(MetadataError::BadSymbol);
            },
        }
        i += 1;
    }
    assert(texts(out@) =~= list_at(body@, pos as int));
    Ok((out, first + 22 * n))
}

impl Metadata {
    /// Reads the body of a metadata block: its fields, or why it is
    /// rejected.
    pub fn decode_body(version: u8, body: &[u8]) -> (r: Result<Metadata, MetadataError>)
        requires
            body@.len() >= FIXED_LEN,
        ensures
            match parse_body(version, body@) {
                Ok(m) => r is Ok && r->Ok_0@ == m,
                Err(e) => r == Err::<Metadata, MetadataError>(e),
            },
    {
        proof {
            reveal(parse_body);
        }
        let total = body.len();
        let dataset = match read_string(body, 0, DATASET_CSTR_LEN) {
            Some(s) => s,
            None => {
                return Err(MetadataError::BadDataset);
            },
        };
        let raw_schema = read_u16(body, 16);
        let schema = match Schema::from_raw(raw_schema) {
            Some(s) => s,
            None => {
                return Err(MetadataError::UnknownSchema { code: raw_schema });
            },
        };
        let start = read_u64(body, 18);
        let raw_end = read_u64(body, 26);
        let raw_limit = read_u64(body, 34);
        let record_count = read_u64(body, 42);
        let raw_in = read_u8(body, 50);
        let stype_in = match SType::from_raw(raw_in) {
            Some(s) => s,
            None => {
                return Err(MetadataError::UnknownSType { raw: raw_in });
            },
        };
        let raw_out = read_u8(body, 51);
        let stype_out = match SType::from_raw(raw_out) {
            Some(s) => s,
            None => {
                return Err(MetadataError::UnknownSType { raw: raw_out });
            },
        };
        if total < LISTS_START {
            return Err(MetadataError::ListOverrun);
        }
        let definition = read_u32(body, 100);
        if definition != 0 {
            return Err(MetadataError::SchemaDefinition { length: definition });
        }
        let (symbols, partial_at) = match read_list(body, LISTS_START) {
            Ok(l) => l,
            Err(e) => {
                return Err(e);
            },
        };
        let (partial, not_found_at) = match read_list(body, partial_at) {
            Ok(l) => l,
            Err(e) => {
                return Err(e);
            },
        };
        let (not_found, _end) = match read_list(body, not_found_at) {
            Ok(l) => l,
            Err(e) => {
                return Err(e);
            },
        };
        Ok(
            Metadata {
                version,
                dataset,
                schema,
                start,
                end: if raw_end == NULL_END {
                    None
                } else {
                    Some(raw_end)
                },
                limit: if raw_limit == NULL_LIMIT {
                    None
                } else {
                    Some(raw_limit)
                },
                record_count,
                stype_in,
                stype_out,
                symbols,
                partial,
                not_found,
            },
        )
    }
}

/// What [`Metadata::decode`] found at the head of a buffer.
#[derive(Debug)]
pub enum Decoded {
    /// Not all of the block is there yet.
    Incomplete,
    /// The block is malformed.
    Malformed(MetadataError),
    /// The block's content and the number of bytes that it takes.
    Complete(Metadata, usize),
}

impl Decoded {
    /// What this outcome stands for.
    pub open spec fn parse(self) -> MetadataParse {
        match self {
            Decoded::Incomplete => MetadataParse::Incomplete,
            Decoded::Malformed(e) => MetadataParse::Malformed(e),
            Decoded::Complete(m, n) => MetadataParse::Complete(m@, n as nat),
        }
    }
}

impl Metadata {
    /// Reads the metadata block at the head of `b`, as far as `b` holds it.
    pub fn decode(b: &[u8]) -> (r: Decoded)
        ensures
            r.parse() == parse_metadata(b@),
    {
        let total = b.len();
        if total < PRELUDE_LEN {
            return Decoded::Incomplete;
        }
        if b[0] != 68 || b[1] != 66 || b[2] != 78 {
            return Decoded::Malformed(MetadataError::BadPrefix);
        }
        let version = read_u8(b, 3);
        if version > DBN_VERSION {
            return Decoded::Malformed(MetadataError::UnsupportedVersion { version });
        }
        let length = read_u32(b, 4);
        if length < 100 {
            return Decoded::Malformed(MetadataError::TooShort { length });
        }
        if ((total - PRELUDE_LEN) as u64) < length as u64 {
            return Decoded::Incomplete;
        }
        let n = length as usize;
        let body = slice_subrange(b, PRELUDE_LEN, PRELUDE_LEN + n);
        match Metadata::decode_body(version, body) {
            Ok(m) => Decoded::Complete(m, PRELUDE_LEN + n),
            Err(e) => Decoded::Malformed(e),
        }
    }
}

} // verus!
