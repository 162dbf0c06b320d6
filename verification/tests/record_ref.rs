use dbn::error::DbnError;
use dbn::record::{
    to_bytes, ErrorMsg, HasRType, InstrumentDefMsg, MboMsg, Mbp10Msg, Mbp1Msg, OhlcvMsg,
    RecordHeader, TradeMsg,
};
use dbn::record_enum::RecordEnum;
use dbn::record_ref::RecordRef;
use dbn::rtype;

fn source_record() -> MboMsg {
    MboMsg {
        hd: RecordHeader::new::<MboMsg>(rtype::MBO, 1, 1, 0),
        order_id: 17,
        price: 0,
        size: 32,
        flags: 0,
        channel_id: 1,
        action: 'A' as i8,
        side: 'B' as i8,
        ts_recv: 0,
        ts_in_delta: 160,
        sequence: 1067,
    }
}

#[test]
fn test_header() {
    let source = source_record();
    let bytes = to_bytes(&source);
    let target = RecordRef::new(&bytes);
    assert_eq!(target.header(), source.hd);
}

#[test]
fn test_has_and_get() {
    let source = source_record();
    let bytes = to_bytes(&source);
    let target = RecordRef::new(&bytes);
    assert!(!target.has::<Mbp1Msg>());
    assert!(!target.has::<Mbp10Msg>());
    assert!(!target.has::<TradeMsg>());
    assert!(!target.has::<ErrorMsg>());
    assert!(!target.has::<OhlcvMsg>());
    assert!(!target.has::<InstrumentDefMsg>());
    assert!(target.has::<MboMsg>());
    assert_eq!(target.get_unchecked::<MboMsg>(), source);
}

#[test]
fn test_as_ref() {
    let source = source_record();
    let bytes = to_bytes(&source);
    let target = RecordRef::new(&bytes);
    let byte_slice = target.as_ref();
    assert_eq!(source.header().record_size(), byte_slice.len());
    assert_eq!(target.record_size(), byte_slice.len());
}

#[test]
fn test_get_of_another_schema_is_none() {
    let bytes = to_bytes(&source_record());
    let target = RecordRef::new(&bytes);
    assert_eq!(target.get::<TradeMsg>(), None);
    assert_eq!(target.get::<MboMsg>(), Some(source_record()));
}

#[test]
fn test_try_get_too_short() {
    let mut source = source_record();
    source.hd.length -= 1;
    let bytes = to_bytes(&source);
    let target = RecordRef::new(&bytes);
    assert_eq!(
        target.try_get::<MboMsg>(),
        Err(DbnError::TruncatedRecord { rtype: rtype::MBO, record_size: 52 })
    );
    assert_eq!(target.try_get::<TradeMsg>(), Ok(None));
}

#[test]
fn test_try_new_checks_the_buffer() {
    let bytes = to_bytes(&source_record());
    assert!(RecordRef::try_new(&bytes[..15]).is_none());
    let cut = RecordRef::try_new(&bytes[..55]).unwrap();
    assert!(!cut.is_complete());
    assert_eq!(cut.header(), source_record().hd);
    assert_eq!(cut.record_size(), 56);
    assert!(cut.has::<MboMsg>());
    let whole = RecordRef::try_new(&bytes).unwrap();
    assert!(whole.is_complete());
    assert!(RecordRef::new(&bytes[..16]).has::<MboMsg>());
}

#[test]
fn test_header_layout() {
    let bytes = to_bytes(&source_record());
    assert_eq!(bytes.len(), 56);
    assert_eq!(&bytes[..4], &[14, 0xa0, 1, 0]);
    assert_eq!(&bytes[16..24], &17u64.to_le_bytes());
}

#[test]
fn test_as_enum() {
    let source = source_record();
    let bytes = to_bytes(&source);
    let target = RecordRef::new(&bytes);
    assert_eq!(target.as_enum(), Ok(RecordEnum::Mbo(source)));
    let mut unknown = bytes.clone();
    unknown[1] = 0x77;
    assert_eq!(
        RecordRef::new(&unknown).as_enum(),
        Err(DbnError::UnknownRecordType { rtype: 0x77 })
    );
    assert_eq!(
        RecordRef::new(&unknown).rtype(),
        Err(DbnError::UnknownRecordType { rtype: 0x77 })
    );
}
