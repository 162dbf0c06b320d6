//! A non-owning view of one record's bytes.
use crate::enums::RType;
use crate::error::DbnError;
use crate::record::{
    ErrorMsg, HasRType, ImbalanceMsg, InstrumentDefMsg, MboMsg, Mbp10Msg, Mbp1Msg, OhlcvMsg,
    RecordHeader, StatMsg, StatusMsg, SymbolMappingMsg, SystemMsg, TradeMsg, HEADER_SIZE,
};
use crate::record_enum::{min_size, record_at, RecordEnum};
use crate::rtype;
use vstd::prelude::*;
use vstd::slice::slice_subrange;

verus! {

/// Whether `b` can back a view: it holds a header.
pub open spec fn backs_view(b: Seq<u8>) -> bool {
    b.len() >= HEADER_SIZE
}

/// A view of the bytes of one record, of whatever schema. The view borrows
/// the bytes, so it lives no longer than they stay unchanged.
#[derive(Clone, Copy, Debug)]
pub struct RecordRef<'a> {
    bytes: &'a [u8],
}

impl<'a> View for RecordRef<'a> {
    type V = Seq<u8>;

    /// The bytes that the view reads.
    closed spec fn view(&self) -> Seq<u8> {
        self.bytes@
    }
}

impl<'a> RecordRef<'a> {
    #[verifier::type_invariant]
    closed spec fn valid(self) -> bool {
        backs_view(self.bytes@)
    }

    /// The discriminant of the viewed record.
    pub open spec fn raw_rtype(self) -> u8 {
        self@[1]
    }

    /// The byte size that the viewed record declares.
    pub open spec fn declared_size(self) -> nat {
        4 * (self@[0] as nat)
    }

    /// Whether the viewed bytes hold all that the record declares.
    pub open spec fn holds_record(self) -> bool {
        self@.len() >= self.declared_size()
    }

    /// A view of the record at the start of `buffer`. The caller sees to it
    /// that `buffer` holds a header.
    pub fn new(buffer: &'a [u8]) -> (r: RecordRef<'a>)
        requires
            backs_view(buffer@),
        ensures
            r@ == buffer@,
    {
        RecordRef { bytes: buffer }
    }

    /// A view of the record at the start of `buffer`, where `buffer` holds a
    /// header; `None` where it does not.
    pub fn try_new(buffer: &'a [u8]) -> (r: Option<RecordRef<'a>>)
        ensures
            backs_view(buffer@) ==> r is Some && r->Some_0@ == buffer@,
            !backs_view(buffer@) ==> r is None,
    {
        if buffer.len() < HEADER_SIZE {
            return None;
        }
        Some(RecordRef { bytes: buffer })
    }

    /// The header of the viewed record.
    pub fn header(&self) -> (h: RecordHeader)
        ensures
            h == RecordHeader::from_wire(self@),
            backs_view(self@),
    {
        proof {
            use_type_invariant(self);
        }
        RecordHeader::decode(self.bytes)
    }

    /// Whether the discriminant of the viewed record selects schema `T`.
    pub fn has<T: HasRType>(&self) -> (b: bool)
        ensures
            b == T::accepts(self.raw_rtype()),
    {
        T::has_rtype(self.header().rtype)
    }

    /// Whether the viewed bytes hold all that the record declares.
    pub fn is_complete(&self) -> (b: bool)
        ensures
            b == self.holds_record(),
    {
        self.bytes.len() >= self.record_size()
    }

    /// The byte size that the viewed record declares.
    pub fn record_size(&self) -> (n: usize)
        ensures
            n == self.declared_size(),
    {
        self.header().record_size()
    }

    /// The catalog entry that the discriminant names, or
    /// `UnknownRecordType` where it names none.
    pub fn rtype(&self) -> (r: Result<RType, DbnError>)
        ensures
            rtype::known(self.raw_rtype()) ==> r is Ok && r->Ok_0.raw() == self.raw_rtype(),
            !rtype::known(self.raw_rtype()) ==> r == Err::<RType, DbnError>(
                DbnError::UnknownRecordType { rtype: self.raw_rtype() },
            ),
    {
        self.header().rtype()
    }

    /// The viewed record as one of schema `T`, where its discriminant
    /// selects `T`; `None` where it selects another. A record that selects
    /// `T` and declares less than the layout of `T` is left out: such a
    /// record is corrupt.
    pub fn get<T: HasRType>(&self) -> (r: Option<T>)
        requires
            self.holds_record(),
            T::accepts(self.raw_rtype()) ==> self.declared_size() >= T::layout_size(),
        ensures
            T::accepts(self.raw_rtype()) ==> r == Some(T::from_wire(self@)),
            !T::accepts(self.raw_rtype()) ==> r is None,
    {
        if self.has::<T>() {
            Some(self.get_unchecked::<T>())
        } else {
            None
        }
    }

    /// The viewed record as one of schema `T`, where its discriminant
    /// selects `T`; `None` where it selects another; `TruncatedRecord` where
    /// it selects `T` and declares less than the layout of `T`.
    pub fn try_get<T: HasRType>(&self) -> (r: Result<Option<T>, DbnError>)
        requires
            self.holds_record(),
        ensures
            !T::accepts(self.raw_rtype()) ==> r == Ok::<Option<T>, DbnError>(None),
            T::accepts(self.raw_rtype()) && self.declared_size() >= T::layout_size() ==> r == Ok::<
                Option<T>,
                DbnError,
            >(Some(T::from_wire(self@))),
            T::accepts(self.raw_rtype()) && self.declared_size() < T::layout_size() ==> r == Err::<
                Option<T>,
                DbnError,
            >(
                DbnError::TruncatedRecord {
                    rtype: self.raw_rtype(),
                    record_size: self.declared_size() as usize,
                },
            ),
    {
        if !self.has::<T>() {
            Ok(None)
        } else if self.record_size() < T::size() {
            Err(
                DbnError::TruncatedRecord {
                    rtype: self.header().rtype,
                    record_size: self.record_size(),
                },
            )
        } else {
            Ok(Some(self.get_unchecked::<T>()))
        }
    }

    /// The viewed record as one of schema `T`, for a caller that has
    /// already seen that the discriminant selects `T` and that the record
    /// declares the layout of `T`.
    pub fn get_unchecked<T: HasRType>(&self) -> (r: T)
        requires
            self.holds_record(),
            T::accepts(self.raw_rtype()),
            self.declared_size() >= T::layout_size(),
        ensures
            r == T::from_wire(self@),
    {
        proof {
            use_type_invariant(self);
        }
        T::decode(self.bytes)
    }

    /// The viewed record as a value of the catalog's sum: `UnknownRecordType`
    /// where the discriminant names no schema, `TruncatedRecord` where the
    /// record declares less than the layout of its schema.
    pub fn as_enum(&self) -> (r: Result<RecordEnum, DbnError>)
        requires
            self.holds_record(),
        ensures
            !rtype::known(self.raw_rtype()) ==> r == Err::<RecordEnum, DbnError>(
                DbnError::UnknownRecordType { rtype: self.raw_rtype() },
            ),
            rtype::known(self.raw_rtype()) && self.declared_size() < min_size(self.raw_rtype())
                ==> r == Err::<RecordEnum, DbnError>(
                DbnError::TruncatedRecord {
                    rtype: self.raw_rtype(),
                    record_size: self.declared_size() as usize,
                },
            ),
            rtype::known(self.raw_rtype()) && self.declared_size() >= min_size(self.raw_rtype())
                ==> r == Ok::<RecordEnum, DbnError>(record_at(self@)),
    {
        proof {
            reveal(record_at);
        }
        match self.try_get::<MboMsg>()? {
            Some(r) => {
                return Ok(RecordEnum::Mbo(r));
            },
            None => {},
        }
        match self.try_get::<TradeMsg>()? {
            Some(r) => {
                return Ok(RecordEnum::Trade(r));
            },
            None => {},
        }
        match self.try_get::<Mbp1Msg>()? {
            Some(r) => {
                return Ok(RecordEnum::Mbp1(r));
            },
            None => {},
        }
        match self.try_get::<Mbp10Msg>()? {
            Some(r) => {
                return Ok(RecordEnum::Mbp10(r));
            },
            None => {},
        }
        match self.try_get::<OhlcvMsg>()? {
            Some(r) => {
                return Ok(RecordEnum::Ohlcv(r));
            },
            None => {},
        }
        match self.try_get::<StatusMsg>()? {
            Some(r) => {
                return Ok(RecordEnum::Status(r));
            },
            None => {},
        }
        match self.try_get::<InstrumentDefMsg>()? {
            Some(r) => {
                return Ok(RecordEnum::InstrumentDef(r));
            },
            None => {},
        }
        match self.try_get::<ImbalanceMsg>()? {
            Some(r) => {
                return Ok(RecordEnum::Imbalance(r));
            },
            None => {},
        }
        match self.try_get::<StatMsg>()? {
            Some(r) => {
                return Ok(RecordEnum::Stat(r));
            },
            None => {},
        }
        match self.try_get::<ErrorMsg>()? {
            Some(r) => {
                return Ok(RecordEnum::Error(r));
            },
            None => {},
        }
        match self.try_get::<SymbolMappingMsg>()? {
            Some(r) => {
                return Ok(RecordEnum::SymbolMapping(r));
            },
            None => {},
        }
        match self.try_get::<SystemMsg>()? {
            Some(r) => {
                return Ok(RecordEnum::System(r));
            },
            None => {},
        }
        Err(DbnError::UnknownRecordType { rtype: self.header().rtype })
    }

    /// The bytes of the viewed record: as many as it declares.
    pub fn as_ref(&self) -> (s: &'a [u8])
        requires
            self.holds_record(),
        ensures
            s@ == self@.subrange(0, self.declared_size() as int),
    {
        let n = self.record_size();
        slice_subrange(self.bytes, 0, n)
    }
}

} // verus!
