//! The failures that decoding and conversions report.
use vstd::prelude::*;

verus! {

/// Why a metadata block was rejected.
#[derive(Clone, Copy, Debug, PartialEq, Eq, Structural)]
pub enum MetadataError {
    /// The block does not start with the format's three-byte tag.
    BadPrefix,
    /// The block was written in a later version of the format.
    UnsupportedVersion { version: u8 },
    /// The declared length cannot hold the fixed fields.
    TooShort { length: u32 },
    /// The dataset identifier is not UTF-8.
    BadDataset,
    /// The schema code names no schema.
    UnknownSchema { code: u16 },
    /// A symbology code names no symbology.
    UnknownSType { raw: u8 },
    /// The block carries a schema definition.
    SchemaDefinition { length: u32 },
    /// A symbol list runs past the end of the block.
    ListOverrun,
    /// A symbol is not UTF-8.
    BadSymbol,
}

/// A failure of a conversion or of the decoder.
#[derive(Clone, Copy, Debug, PartialEq, Eq, Structural)]
pub enum DbnError {
    /// The discriminant names no entry of the record catalog.
    UnknownRecordType { rtype: u8 },
    /// The record declares fewer bytes than its schema has.
    TruncatedRecord { rtype: u8, record_size: usize },
    /// The metadata block is malformed.
    Metadata { kind: MetadataError },
    /// A raw code names no value of the wanted enumeration.
    Conversion { raw: u8 },
}

} // verus!
