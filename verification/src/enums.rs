//! The closed enumerations of the format.
use crate::error::DbnError;
use crate::rtype;
use vstd::prelude::*;

verus! {

/// An entry of the record catalog's discriminants.
#[derive(Clone, Copy, Debug, PartialEq, Eq, Structural)]
pub enum RType {
    Mbp0,
    Mbp1,
    Mbp10,
    OhlcvDeprecated,
    Ohlcv1S,
    Ohlcv1M,
    Ohlcv1H,
    Ohlcv1D,
    Status,
    InstrumentDef,
    Imbalance,
    Error,
    SymbolMapping,
    System,
    Statistics,
    Mbo,
}

impl RType {
    /// The raw discriminant of this entry.
    pub open spec fn raw(self) -> u8 {
        match self {
            RType::Mbp0 => rtype::MBP_0,
            RType::Mbp1 => rtype::MBP_1,
            RType::Mbp10 => rtype::MBP_10,
            RType::OhlcvDeprecated => rtype::OHLCV_DEPRECATED,
            RType::Ohlcv1S => rtype::OHLCV_1S,
            RType::Ohlcv1M => rtype::OHLCV_1M,
            RType::Ohlcv1H => rtype::OHLCV_1H,
            RType::Ohlcv1D => rtype::OHLCV_1D,
            RType::Status => rtype::STATUS,
            RType::InstrumentDef => rtype::INSTRUMENT_DEF,
            RType::Imbalance => rtype::IMBALANCE,
            RType::Error => rtype::ERROR,
            RType::SymbolMapping => rtype::SYMBOL_MAPPING,
            RType::System => rtype::SYSTEM,
            RType::Statistics => rtype::STATISTICS,
            RType::Mbo => rtype::MBO,
        }
    }

    /// The raw discriminant of this entry.
    pub fn as_u8(self) -> (raw: u8)
        ensures
            raw == self.raw(),
            rtype::known(raw),
    {
        match self {
            RType::Mbp0 => rtype::MBP_0,
            RType::Mbp1 => rtype::MBP_1,
            RType::Mbp10 => rtype::MBP_10,
            RType::OhlcvDeprecated => rtype::OHLCV_DEPRECATED,
            RType::Ohlcv1S => rtype::OHLCV_1S,
            RType::Ohlcv1M => rtype::OHLCV_1M,
            RType::Ohlcv1H => rtype::OHLCV_1H,
            RType::Ohlcv1D => rtype::OHLCV_1D,
            RType::Status => rtype::STATUS,
            RType::InstrumentDef => rtype::INSTRUMENT_DEF,
            RType::Imbalance => rtype::IMBALANCE,
            RType::Error => rtype::ERROR,
            RType::SymbolMapping => rtype::SYMBOL_MAPPING,
            RType::System => rtype::SYSTEM,
            RType::Statistics => rtype::STATISTICS,
            RType::Mbo => rtype::MBO,
        }
    }

    /// The catalog entry that `raw` names, or `UnknownRecordType` where it
    /// names none.
    pub fn try_from_u8(raw: u8) -> (r: Result<RType, DbnError>)
        ensures
            rtype::known(raw) ==> r is Ok && r->Ok_0.raw() == raw,
            !rtype::known(raw) ==> r == Err::<RType, DbnError>(DbnError::UnknownRecordType { rtype: raw }),
    {
        if raw == rtype::MBP_0 {
            Ok(RType::Mbp0)
        } else if raw == rtype::MBP_1 {
            Ok(RType::Mbp1)
        } else if raw == rtype::MBP_10 {
            Ok(RType::Mbp10)
        } else if raw == rtype::OHLCV_DEPRECATED {
            Ok(RType::OhlcvDeprecated)
        } else if raw == rtype::OHLCV_1S {
            Ok(RType::Ohlcv1S)
        } else if raw == rtype::OHLCV_1M {
            Ok(RType::Ohlcv1M)
        } else if raw == rtype::OHLCV_1H {
            Ok(RType::Ohlcv1H)
        } else if raw == rtype::OHLCV_1D {
            Ok(RType::Ohlcv1D)
        } else if raw == rtype::STATUS {
            Ok(RType::Status)
        } else if raw == rtype::INSTRUMENT_DEF {
            Ok(RType::InstrumentDef)
        } else if raw == rtype::IMBALANCE {
            Ok(RType::Imbalance)
        } else if raw == rtype::ERROR {
            Ok(RType::Error)
        } else if raw == rtype::SYMBOL_MAPPING {
            Ok(RType::SymbolMapping)
        } else if raw == rtype::SYSTEM {
            Ok(RType::System)
        } else if raw == rtype::STATISTICS {
            Ok(RType::Statistics)
        } else if raw == rtype::MBO {
            Ok(RType::Mbo)
        } else {
            Err(DbnError::UnknownRecordType { rtype: raw })
        }
    }
}

/// What became of an instrument definition.
#[derive(Clone, Copy, Debug, PartialEq, Eq, Structural)]
pub enum SecurityUpdateAction {
    /// A new definition.
    Add,
    /// A change to a definition.
    Modify,
    /// The removal of a definition.
    Delete,
    /// None of the others.
    Invalid,
}

impl SecurityUpdateAction {
    /// The character that stands for this action on the wire.
    pub open spec fn code(self) -> u8 {
        match self {
            SecurityUpdateAction::Add => 65,
            SecurityUpdateAction::Modify => 77,
            SecurityUpdateAction::Delete => 68,
            SecurityUpdateAction::Invalid => 126,
        }
    }

    /// The action that `raw` stands for; `Invalid` where it stands for none.
    pub open spec fn of_code(raw: u8) -> SecurityUpdateAction {
        if raw == 65 {
            SecurityUpdateAction::Add
        } else if raw == 77 {
            SecurityUpdateAction::Modify
        } else if raw == 68 {
            SecurityUpdateAction::Delete
        } else {
            SecurityUpdateAction::Invalid
        }
    }

    /// The character that stands for this action on the wire.
    pub fn as_u8(self) -> (raw: u8)
        ensures
            raw == self.code(),
            Self::of_code(raw) == self,
    {
        match self {
            SecurityUpdateAction::Add => 65,
            SecurityUpdateAction::Modify => 77,
            SecurityUpdateAction::Delete => 68,
            SecurityUpdateAction::Invalid => 126,
        }
    }

    /// The action that `raw` stands for; `Invalid` where it stands for none.
    pub fn from_u8(raw: u8) -> (a: SecurityUpdateAction)
        ensures
            a == Self::of_code(raw),
    {
        if raw == 65 {
            SecurityUpdateAction::Add
        } else if raw == 77 {
            SecurityUpdateAction::Modify
        } else if raw == 68 {
            SecurityUpdateAction::Delete
        } else {
            SecurityUpdateAction::Invalid
        }
    }
}

/// Whether an instrument was defined by a user.
#[derive(Clone, Copy, Debug, PartialEq, Eq, Structural)]
pub enum UserDefinedInstrument {
    /// Defined by the venue.
    No,
    /// Defined by a user.
    Yes,
}

impl UserDefinedInstrument {
    /// The character that stands for this value on the wire.
    pub open spec fn code(self) -> u8 {
        match self {
            UserDefinedInstrument::No => 78,
            UserDefinedInstrument::Yes => 89,
        }
    }

    /// The character that stands for this value on the wire.
    pub fn as_u8(self) -> (raw: u8)
        ensures
            raw == self.code(),
    {
        match self {
            UserDefinedInstrument::No => 78,
            UserDefinedInstrument::Yes => 89,
        }
    }

    /// The value that `raw` stands for, or `Conversion` where it stands for
    /// none.
    pub fn try_from_u8(raw: u8) -> (r: Result<UserDefinedInstrument, DbnError>)
        ensures
            raw == 78 ==> r == Ok::<UserDefinedInstrument, DbnError>(UserDefinedInstrument::No),
            raw == 89 ==> r == Ok::<UserDefinedInstrument, DbnError>(UserDefinedInstrument::Yes),
            raw != 78 && raw != 89 ==> r == Err::<UserDefinedInstrument, DbnError>(
                DbnError::Conversion { raw },
            ),
    {
        if raw == 78 {
            Ok(UserDefinedInstrument::No)
        } else if raw == 89 {
            Ok(UserDefinedInstrument::Yes)
        } else {
            Err(DbnError::Conversion { raw })
        }
    }
}

/// The kind of data that a stream holds.
#[derive(Clone, Copy, Debug, PartialEq, Eq, Structural)]
pub enum Schema {
    /// Market by order.
    Mbo,
    /// Market by price with one book level.
    Mbp1,
    /// Market by price with ten book levels.
    Mbp10,
    /// Trades with the best bid and offer before each.
    Tbbo,
    /// All trades.
    Trades,
    /// One-second bars.
    Ohlcv1S,
    /// One-minute bars.
    Ohlcv1M,
    /// Hourly bars.
    Ohlcv1H,
    /// Daily bars.
    Ohlcv1D,
    /// Instrument definitions.
    Definition,
    /// Venue statistics.
    Statistics,
    /// Trading status updates.
    Status,
    /// Auction imbalances.
    Imbalance,
}

impl Schema {
    /// The code that stands for this value on the wire.
    pub open spec fn code(self) -> u16 {
        match self {
            Schema::Mbo => 0,
            Schema::Mbp1 => 1,
            Schema::Mbp10 => 2,
            Schema::Tbbo => 3,
            Schema::Trades => 4,
            Schema::Ohlcv1S => 5,
            Schema::Ohlcv1M => 6,
            Schema::Ohlcv1H => 7,
            Schema::Ohlcv1D => 8,
            Schema::Definition => 9,
            Schema::Statistics => 10,
            Schema::Status => 11,
            Schema::Imbalance => 12,
        }
    }

    /// Whether `raw` stands for a value.
    pub open spec fn known(raw: u16) -> bool {
        raw < 13
    }

    /// The value that `raw` stands for.
    pub open spec fn of_code(raw: u16) -> Schema
        recommends
            Self::known(raw),
    {
        if raw == 0 {
            Schema::Mbo
        } else if raw == 1 {
            Schema::Mbp1
        } else if raw == 2 {
            Schema::Mbp10
        } else if raw == 3 {
            Schema::Tbbo
        } else if raw == 4 {
            Schema::Trades
        } else if raw == 5 {
            Schema::Ohlcv1S
        } else if raw == 6 {
            Schema::Ohlcv1M
        } else if raw == 7 {
            Schema::Ohlcv1H
        } else if raw == 8 {
            Schema::Ohlcv1D
        } else if raw == 9 {
            Schema::Definition
        } else if raw == 10 {
            Schema::Statistics
        } else if raw == 11 {
            Schema::Status
        } else {
            Schema::Imbalance
        }
    }

    /// The code that stands for this value on the wire.
    pub fn as_raw(self) -> (raw: u16)
        ensures
            raw == self.code(),
            Self::known(raw),
            Self::of_code(raw) == self,
    {
        match self {
            Schema::Mbo => 0,
            Schema::Mbp1 => 1,
            Schema::Mbp10 => 2,
            Schema::Tbbo => 3,
            Schema::Trades => 4,
            Schema::Ohlcv1S => 5,
            Schema::Ohlcv1M => 6,
            Schema::Ohlcv1H => 7,
            Schema::Ohlcv1D => 8,
            Schema::Definition => 9,
            Schema::Statistics => 10,
            Schema::Status => 11,
            Schema::Imbalance => 12,
        }
    }

    /// The value that `raw` stands for, or `None` where it stands for none.
    pub fn from_raw(raw: u16) -> (r: Option<Schema>)
        ensures
            Self::known(raw) ==> r == Some(Self::of_code(raw)),
            !Self::known(raw) ==> r is None,
    {
        if raw == 0 {
            Some(Schema::Mbo)
        } else if raw == 1 {
            Some(Schema::Mbp1)
        } else if raw == 2 {
            Some(Schema::Mbp10)
        } else if raw == 3 {
            Some(Schema::Tbbo)
        } else if raw == 4 {
            Some(Schema::Trades)
        } else if raw == 5 {
            Some(Schema::Ohlcv1S)
        } else if raw == 6 {
            Some(Schema::Ohlcv1M)
        } else if raw == 7 {
            Some(Schema::Ohlcv1H)
        } else if raw == 8 {
            Some(Schema::Ohlcv1D)
        } else if raw == 9 {
            Some(Schema::Definition)
        } else if raw == 10 {
            Some(Schema::Statistics)
        } else if raw == 11 {
            Some(Schema::Status)
        } else if raw == 12 {
            Some(Schema::Imbalance)
        } else {
            None
        }
    }

    /// The name of this value.
    pub fn as_str(self) -> (name: &'static str)
        ensures
            name@ == self.name(),
    {
        match self {
            Schema::Mbo => "mbo",
            Schema::Mbp1 => "mbp-1",
            Schema::Mbp10 => "mbp-10",
            Schema::Tbbo => "tbbo",
            Schema::Trades => "trades",
            Schema::Ohlcv1S => "ohlcv-1s",
            Schema::Ohlcv1M => "ohlcv-1m",
            Schema::Ohlcv1H => "ohlcv-1h",
            Schema::Ohlcv1D => "ohlcv-1d",
            Schema::Definition => "definition",
            Schema::Statistics => "statistics",
            Schema::Status => "status",
            Schema::Imbalance => "imbalance",
        }
    }

    /// The name of this value.
    pub open spec fn name(self) -> Seq<char> {
        match self {
            Schema::Mbo => "mbo"@,
            Schema::Mbp1 => "mbp-1"@,
            Schema::Mbp10 => "mbp-10"@,
            Schema::Tbbo => "tbbo"@,
            Schema::Trades => "trades"@,
            Schema::Ohlcv1S => "ohlcv-1s"@,
            Schema::Ohlcv1M => "ohlcv-1m"@,
            Schema::Ohlcv1H => "ohlcv-1h"@,
            Schema::Ohlcv1D => "ohlcv-1d"@,
            Schema::Definition => "definition"@,
            Schema::Statistics => "statistics"@,
            Schema::Status => "status"@,
            Schema::Imbalance => "imbalance"@,
        }
    }
}

/// A symbology: a way of naming instruments.
#[derive(Clone, Copy, Debug, PartialEq, Eq, Structural)]
pub enum SType {
    /// Symbology by numeric product identifier.
    ProductId,
    /// Symbology by the venue's own symbols.
    Native,
    /// Symbology by continuous and parent symbols.
    Smart,
}

impl SType {
    /// The code that stands for this value on the wire.
    pub open spec fn code(self) -> u8 {
        match self {
            SType::ProductId => 0,
            SType::Native => 1,
            SType::Smart => 2,
        }
    }

    /// Whether `raw` stands for a value.
    pub open spec fn known(raw: u8) -> bool {
        raw < 3
    }

    /// The value that `raw` stands for.
    pub open spec fn of_code(raw: u8) -> SType
        recommends
            Self::known(raw),
    {
        if raw == 0 {
            SType::ProductId
        } else if raw == 1 {
            SType::Native
        } else {
            SType::Smart
        }
    }

    /// The code that stands for this value on the wire.
    pub fn as_raw(self) -> (raw: u8)
        ensures
            raw == self.code(),
            Self::known(raw),
            Self::of_code(raw) == self,
    {
        match self {
            SType::ProductId => 0,
            SType::Native => 1,
            SType::Smart => 2,
        }
    }

    /// The value that `raw` stands for, or `None` where it stands for none.
    pub fn from_raw(raw: u8) -> (r: Option<SType>)
        ensures
            Self::known(raw) ==> r == Some(Self::of_code(raw)),
            !Self::known(raw) ==> r is None,
    {
        if raw == 0 {
            Some(SType::ProductId)
        } else if raw == 1 {
            Some(SType::Native)
        } else if raw == 2 {
            Some(SType::Smart)
        } else {
            None
        }
    }

    /// The name of this value.
    pub fn as_str(self) -> (name: &'static str)
        ensures
            name@ == self.name(),
    {
        match self {
            SType::ProductId => "product_id",
            SType::Native => "native",
            SType::Smart => "smart",
        }
    }

    /// The name of this value.
    pub open spec fn name(self) -> Seq<char> {
        match self {
            SType::ProductId => "product_id"@,
            SType::Native => "native"@,
            SType::Smart => "smart"@,
        }
    }
}

} // verus!
