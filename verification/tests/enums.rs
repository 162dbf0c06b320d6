use dbn::enums::{RType, SType, Schema, SecurityUpdateAction, UserDefinedInstrument};
use dbn::error::DbnError;
use dbn::record::{HasRType, OhlcvMsg, RecordHeader, StatMsg};
use dbn::rtype;

#[test]
fn test_rtype_codes() {
    assert_eq!(RType::try_from_u8(0xa0), Ok(RType::Mbo));
    assert_eq!(RType::try_from_u8(0x00), Ok(RType::Mbp0));
    assert_eq!(RType::try_from_u8(0x23), Ok(RType::Ohlcv1D));
    assert_eq!(RType::try_from_u8(0x02), Err(DbnError::UnknownRecordType { rtype: 2 }));
    for raw in 0..=255u8 {
        if let Ok(r) = RType::try_from_u8(raw) {
            assert_eq!(r.as_u8(), raw);
        }
    }
}

#[test]
fn test_ohlcv_accepts_every_cadence() {
    for raw in [
        rtype::OHLCV_DEPRECATED,
        rtype::OHLCV_1S,
        rtype::OHLCV_1M,
        rtype::OHLCV_1H,
        rtype::OHLCV_1D,
    ] {
        assert!(OhlcvMsg::has_rtype(raw));
    }
    assert!(!OhlcvMsg::has_rtype(rtype::MBO));
    assert!(StatMsg::has_rtype(rtype::STATISTICS));
}

#[test]
fn test_header_of_schema() {
    let hd = RecordHeader::new::<OhlcvMsg>(rtype::OHLCV_1S, 1, 2, 3);
    assert_eq!(hd.length, 14);
    assert_eq!(hd.record_size(), 56);
    assert_eq!(hd.rtype(), Ok(RType::Ohlcv1S));
    let mut unknown = hd;
    unknown.rtype = 0x99;
    assert_eq!(unknown.rtype(), Err(DbnError::UnknownRecordType { rtype: 0x99 }));
}

#[test]
fn test_names() {
    assert_eq!(Schema::Mbp10.as_str(), "mbp-10");
    assert_eq!(Schema::Ohlcv1H.as_str(), "ohlcv-1h");
    assert_eq!(SType::ProductId.as_str(), "product_id");
    assert_eq!(Schema::from_raw(12), Some(Schema::Imbalance));
    assert_eq!(Schema::from_raw(13), None);
    assert_eq!(SType::from_raw(2), Some(SType::Smart));
    assert_eq!(SType::from_raw(3), None);
    assert_eq!(Schema::Trades.as_raw(), 4);
}

#[test]
fn test_action_codes() {
    assert_eq!(SecurityUpdateAction::from_u8(b'A'), SecurityUpdateAction::Add);
    assert_eq!(SecurityUpdateAction::from_u8(b'M'), SecurityUpdateAction::Modify);
    assert_eq!(SecurityUpdateAction::from_u8(b'D'), SecurityUpdateAction::Delete);
    assert_eq!(SecurityUpdateAction::from_u8(b'x'), SecurityUpdateAction::Invalid);
    assert_eq!(SecurityUpdateAction::Invalid.as_u8(), b'~');
    assert_eq!(UserDefinedInstrument::try_from_u8(b'Y'), Ok(UserDefinedInstrument::Yes));
    assert_eq!(UserDefinedInstrument::try_from_u8(b'N'), Ok(UserDefinedInstrument::No));
    assert_eq!(
        UserDefinedInstrument::try_from_u8(b'?'),
        Err(DbnError::Conversion { raw: b'?' })
    );
    assert_eq!(UserDefinedInstrument::Yes.as_u8(), b'Y');
}
