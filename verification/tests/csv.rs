use dbn::encode::csv::serialize::{
    write_c_char_field, write_px_field, write_text, write_ts_field, CsvSerialize, WriteField,
};
use dbn::encode::csv::{Encoder, Writer};
use dbn::encode::{sink_outcome, EncodeError, VecStream};
use dbn::enums::SecurityUpdateAction;
use dbn::pretty::{UNDEF_PRICE, UNDEF_TIMESTAMP};
use dbn::record::{
    BidAskPair, ErrorMsg, InstrumentDefMsg, MboMsg, Mbp10Msg, Mbp1Msg, OhlcvMsg, RecordHeader, StatusMsg,
    TradeMsg, WithTsOut,
};

const RECORD_HEADER: RecordHeader = RecordHeader {
    length: 30,
    rtype: 4,
    publisher_id: 1,
    product_id: 323,
    ts_event: 1658441851000000000,
};

const BID_ASK: BidAskPair = BidAskPair {
    bid_px: 372000000000000,
    ask_px: 372500000000000,
    bid_sz: 10,
    ask_sz: 5,
    bid_ct: 5,
    ask_ct: 2,
};

const HEADER_CSV: &str = "4,1,323,1658441851000000000";

const BID_ASK_CSV: &str = "372000000000000,372500000000000,10,5,5,2";

fn lines(buffer: Vec<u8>) -> Vec<String> {
    let output = String::from_utf8(buffer).expect("valid UTF-8");
    output.lines().map(|l| l.to_owned()).collect()
}

fn extract_2nd_line(buffer: Vec<u8>) -> String {
    let output = String::from_utf8(buffer).expect("valid UTF-8");
    output
        .split_once('\n')
        .expect("two lines")
        .1
        .trim_end()
        .to_owned()
}

fn mbo() -> MboMsg {
    MboMsg {
        hd: RECORD_HEADER,
        order_id: 16,
        price: 5500,
        size: 3,
        flags: 128,
        channel_id: 14,
        action: 'B' as i8,
        side: 67,
        ts_recv: 1658441891000000000,
        ts_in_delta: 22_000,
        sequence: 1_002_375,
    }
}

fn trade() -> TradeMsg {
    TradeMsg {
        hd: RECORD_HEADER,
        price: 5500,
        size: 3,
        action: 'B' as i8,
        side: 67,
        flags: 128,
        depth: 9,
        ts_recv: 1658441891000000000,
        ts_in_delta: 22_000,
        sequence: 1_002_375,
        booklevel: [],
    }
}

#[test]
fn test_tick_encode_stream() {
    let data = vec![mbo()];
    let mut encoder = Encoder::new(Vec::new());
    encoder.encode_stream(VecStream::new(data)).unwrap();
    let line = extract_2nd_line(encoder.into_inner().unwrap());
    assert_eq!(
        line,
        format!("{HEADER_CSV},16,5500,3,128,14,66,67,1658441891000000000,22000,1002375")
    );
}

#[test]
fn test_mbo1_encode_records() {
    let data = vec![Mbp1Msg {
        hd: RECORD_HEADER,
        price: 5500,
        size: 3,
        action: 'B' as i8,
        side: 67,
        flags: 128,
        depth: 9,
        ts_recv: 1658441891000000000,
        ts_in_delta: 22_000,
        sequence: 1_002_375,
        booklevel: [BID_ASK],
    }];
    let mut encoder = Encoder::new(Vec::new());
    encoder.encode_records(data.as_slice()).unwrap();
    let line = extract_2nd_line(encoder.into_inner().unwrap());
    assert_eq!(
        line,
        format!(
            "{HEADER_CSV},5500,3,66,67,128,9,1658441891000000000,22000,1002375,{BID_ASK_CSV}"
        )
    );
}

#[test]
fn test_mbo10_encode_stream() {
    let data = vec![Mbp10Msg {
        hd: RECORD_HEADER,
        price: 5500,
        size: 3,
        action: 'B' as i8,
        side: 67,
        flags: 128,
        depth: 9,
        ts_recv: 1658441891000000000,
        ts_in_delta: 22_000,
        sequence: 1_002_375,
        booklevel: std::array::from_fn(|_| BID_ASK.clone()),
    }];
    let mut encoder = Encoder::new(Vec::new());
    encoder.encode_stream(VecStream::new(data)).unwrap();
    let line = extract_2nd_line(encoder.into_inner().unwrap());
    assert_eq!(
        line,
        format!("{HEADER_CSV},5500,3,66,67,128,9,1658441891000000000,22000,1002375,{BID_ASK_CSV},{BID_ASK_CSV},{BID_ASK_CSV},{BID_ASK_CSV},{BID_ASK_CSV},{BID_ASK_CSV},{BID_ASK_CSV},{BID_ASK_CSV},{BID_ASK_CSV},{BID_ASK_CSV}")
    );
}

#[test]
fn test_trade_encode_records() {
    let data = vec![trade()];
    let mut encoder = Encoder::new(Vec::new());
    encoder.encode_records(data.as_slice()).unwrap();
    let line = extract_2nd_line(encoder.into_inner().unwrap());
    assert_eq!(
        line,
        format!("{HEADER_CSV},5500,3,66,67,128,9,1658441891000000000,22000,1002375")
    );
}

fn ohlcv() -> OhlcvMsg {
    OhlcvMsg {
        hd: RECORD_HEADER,
        open: 5000,
        high: 8000,
        low: 3000,
        close: 6000,
        volume: 55_000,
    }
}

#[test]
fn test_ohlcv_encode_stream() {
    let data = vec![ohlcv()];
    let mut encoder = Encoder::new(Vec::new());
    encoder.encode_stream(VecStream::new(data)).unwrap();
    let line = extract_2nd_line(encoder.into_inner().unwrap());
    assert_eq!(line, format!("{HEADER_CSV},5000,8000,3000,6000,55000"));
}

#[test]
fn test_status_encode_records() {
    let mut group = [0; 21];
    for (i, c) in "group".chars().enumerate() {
        group[i] = c as i8;
    }
    let data = vec![StatusMsg {
        hd: RECORD_HEADER,
        ts_recv: 1658441891000000000,
        group,
        trading_status: 3,
        halt_reason: 4,
        trading_event: 6,
    }];
    let mut encoder = Encoder::new(Vec::new());
    encoder.encode_records(data.as_slice()).unwrap();
    let line = extract_2nd_line(encoder.into_inner().unwrap());
    assert_eq!(
        line,
        format!("{HEADER_CSV},1658441891000000000,group,3,4,6")
    );
}

fn instrument_def() -> InstrumentDefMsg {
    InstrumentDefMsg {
        hd: RECORD_HEADER,
        ts_recv: 1658441891000000000,
        min_price_increment: 100,
        display_factor: 1000,
        expiration: 1698450000000000000,
        activation: 1697350000000000000,
        high_limit_price: 1_000_000,
        low_limit_price: -1_000_000,
        max_price_variation: 0,
        trading_reference_price: 500_000,
        unit_of_measure_qty: 5,
        min_price_increment_amount: 5,
        price_ratio: 10,
        inst_attrib_value: 10,
        underlying_id: 256785,
        cleared_volume: 0,
        market_depth_implied: 0,
        market_depth: 13,
        market_segment_id: 0,
        max_trade_vol: 10_000,
        min_lot_size: 1,
        min_lot_size_block: 1000,
        min_lot_size_round_lot: 100,
        min_trade_vol: 1,
        open_interest_qty: 0,
        contract_multiplier: 0,
        decay_quantity: 0,
        original_contract_size: 0,
        related_security_id: 0,
        trading_reference_date: 0,
        appl_id: 0,
        maturity_year: 0,
        decay_start_date: 0,
        channel_id: 4,
        currency: [0; 4],
        settl_currency: ['U' as i8, 'S' as i8, 'D' as i8, 0],
        secsubtype: [0; 6],
        symbol: [0; 22],
        group: [0; 21],
        exchange: [0; 5],
        asset: [0; 7],
        cfi: [0; 7],
        security_type: [0; 7],
        unit_of_measure: [0; 31],
        underlying: [0; 21],
        related: [0; 21],
        match_algorithm: 1,
        md_security_trading_status: 2,
        main_fraction: 4,
        price_display_format: 8,
        settl_price_type: 9,
        sub_fraction: 23,
        underlying_product: 10,
        security_update_action: SecurityUpdateAction::Add,
        maturity_month: 8,
        maturity_day: 9,
        maturity_week: 11,
        user_defined_instrument: 1,
        contract_multiplier_unit: 0,
        flow_schedule_type: 5,
        tick_rule: 0,
        _dummy: [0; 3],
    }
}

#[test]
fn test_instrument_def_encode_stream() {
    let data = vec![instrument_def()];
    let mut encoder = Encoder::new(Vec::new());
    encoder.encode_stream(VecStream::new(data)).unwrap();
    let line = extract_2nd_line(encoder.into_inner().unwrap());
    assert_eq!(line, format!("{HEADER_CSV},1658441891000000000,100,1000,1698450000000000000,1697350000000000000,1000000,-1000000,0,500000,5,5,10,10,256785,0,0,13,0,10000,1,1000,100,1,0,0,0,0,0,0,0,0,0,4,,USD,,,,,,,,,,,1,2,4,8,9,23,10,A,8,9,11,1,0,5,0"));
}

#[test]
fn test_write_char_nul() {
    let mut writer = Writer::from_writer(Vec::new());
    write_c_char_field(&mut writer, 0).unwrap();
    write_text(&mut writer, b"a").unwrap();
    let buffer = writer.into_inner().unwrap();
    let s = std::str::from_utf8(buffer.as_slice()).unwrap();
    assert_eq!(s, ",a");
}

#[test]
fn test_write_char() {
    let mut writer = Writer::from_writer(Vec::new());
    write_c_char_field(&mut writer, 'B' as i8).unwrap();
    write_c_char_field(&mut writer, 'T' as i8).unwrap();
    writer.end_record().unwrap();
    assert_eq!(writer.into_inner().unwrap(), b"B,T\n");
}

#[test]
fn test_header_row_of_mbo() {
    let mut encoder = Encoder::new(Vec::new());
    encoder.encode_records(&[mbo()]).unwrap();
    let out = lines(encoder.into_inner().unwrap());
    assert_eq!(out.len(), 2);
    assert_eq!(
        out[0],
        "rtype,publisher_id,product_id,ts_event,order_id,price,size,flags,channel_id,action,side,ts_recv,ts_in_delta,sequence"
    );
}

#[test]
fn test_header_row_of_mbp1_names_each_level() {
    let mut encoder = Encoder::new(Vec::new());
    encoder.encode_header::<Mbp1Msg>().unwrap();
    let out = lines(encoder.into_inner().unwrap());
    assert_eq!(
        out[0],
        "rtype,publisher_id,product_id,ts_event,price,size,action,side,flags,depth,ts_recv,ts_in_delta,sequence,bid_px_00,ask_px_00,bid_sz_00,ask_sz_00,bid_ct_00,ask_ct_00"
    );
}

#[test]
fn test_header_row_of_mbp10_ends_with_the_tenth_level() {
    let mut encoder = Encoder::new(Vec::new());
    encoder.encode_header::<Mbp10Msg>().unwrap();
    let out = lines(encoder.into_inner().unwrap());
    assert!(out[0].ends_with(",bid_px_09,ask_px_09,bid_sz_09,ask_sz_09,bid_ct_09,ask_ct_09"));
    assert_eq!(out[0].split(',').count(), 13 + 60);
}

fn column_counts<R: CsvSerialize + Clone>(record: R) -> (usize, usize) {
    let mut encoder = Encoder::new(Vec::new());
    encoder.encode_records(&[record]).unwrap();
    let out = lines(encoder.into_inner().unwrap());
    (out[0].split(',').count(), out[1].split(',').count())
}

#[test]
fn test_header_row_has_as_many_fields_as_a_row() {
    assert_eq!(column_counts(mbo()), (14, 14));
    assert_eq!(column_counts(trade()), (13, 13));
    assert_eq!(column_counts(ohlcv()), (9, 9));
    assert_eq!(column_counts(instrument_def()), (64, 64));
    assert_eq!(column_counts(WithTsOut { rec: mbo(), ts_out: 5 }), (15, 15));
}

#[test]
fn test_with_ts_out_appends_the_send_time() {
    let mut encoder = Encoder::new(Vec::new());
    encoder
        .encode_records(&[WithTsOut { rec: ohlcv(), ts_out: 1658441892000000000 }])
        .unwrap();
    let out = lines(encoder.into_inner().unwrap());
    assert!(out[0].ends_with(",volume,ts_out"));
    assert_eq!(
        out[1],
        format!("{HEADER_CSV},5000,8000,3000,6000,55000,1658441892000000000")
    );
}

#[test]
fn test_px_field_undefined_price() {
    let mut writer = Writer::from_writer(Vec::new());
    write_px_field::<true>(&mut writer, UNDEF_PRICE).unwrap();
    write_px_field::<false>(&mut writer, UNDEF_PRICE).unwrap();
    write_px_field::<true>(&mut writer, 5500).unwrap();
    write_px_field::<true>(&mut writer, -1_500_000_000).unwrap();
    write_px_field::<false>(&mut writer, -1_500_000_000).unwrap();
    writer.end_record().unwrap();
    assert_eq!(
        String::from_utf8(writer.into_inner().unwrap()).unwrap(),
        ",9223372036854775807,0.000005500,-1.500000000,-1500000000\n"
    );
}

#[test]
fn test_ts_field_undefined_timestamp() {
    let mut writer = Writer::from_writer(Vec::new());
    write_ts_field::<true>(&mut writer, 0).unwrap();
    write_ts_field::<true>(&mut writer, UNDEF_TIMESTAMP).unwrap();
    write_ts_field::<false>(&mut writer, UNDEF_TIMESTAMP).unwrap();
    write_ts_field::<false>(&mut writer, 0).unwrap();
    write_ts_field::<true>(&mut writer, 1658441851000000000).unwrap();
    writer.end_record().unwrap();
    assert_eq!(
        String::from_utf8(writer.into_inner().unwrap()).unwrap(),
        ",,18446744073709551615,0,2022-07-21T22:17:31.000000000Z\n"
    );
}

#[test]
fn test_pretty_encoder() {
    let mut encoder = Encoder::with_pretty(Vec::new(), true, true);
    let mut bar = ohlcv();
    bar.low = UNDEF_PRICE;
    encoder.encode_records(&[bar]).unwrap();
    let out = lines(encoder.into_inner().unwrap());
    assert_eq!(
        out[1],
        "4,1,323,2022-07-21T22:17:31.000000000Z,0.000005000,0.000008000,,0.000006000,55000"
    );
}

#[test]
fn test_row_of_another_width_is_refused() {
    let mut encoder = Encoder::new(Vec::new());
    encoder.encode_records(&[mbo()]).unwrap();
    match encoder.encode_record(&ohlcv()) {
        Err(EncodeError::Record { header, .. }) => assert_eq!(header, RECORD_HEADER),
        other => panic!("not refused: {:?}", other),
    }
    let out = lines(encoder.into_inner().unwrap());
    assert_eq!(out.len(), 3);
    assert_eq!(out[2], format!("{HEADER_CSV},5000,8000,3000,6000,55000"));
}

#[test]
fn test_encode_record_goes_on() {
    let mut encoder = Encoder::new(Vec::new());
    assert_eq!(encoder.encode_record(&mbo()), Ok(false));
    assert_eq!(encoder.encode_record(&mbo()), Ok(false));
    assert_eq!(encoder.flush(), Ok(()));
    let out = lines(encoder.into_inner().unwrap());
    assert_eq!(out.len(), 2);
    assert_eq!(out[0], out[1]);
}

#[test]
fn test_bulk_behind_rows_of_another_width() {
    let mut encoder = Encoder::new(Vec::new());
    encoder.encode_header::<MboMsg>().unwrap();
    // the header row of another schema is refused
    assert!(matches!(
        encoder.encode_records(&[ohlcv()]),
        Err(EncodeError::Header { .. })
    ));
    // its nine fields are still in the open row; five more make a row of
    // fourteen, which is taken, and then the first record's row is refused
    let error = ErrorMsg {
        hd: RecordHeader { rtype: 0x15, ..RECORD_HEADER },
        err: [0; 64],
    };
    match encoder.encode_records(&[error, error]) {
        Err(EncodeError::Record { header, .. }) => assert_eq!(header, error.hd),
        other => panic!("not refused: {:?}", other),
    }
    let out = lines(encoder.into_inner().unwrap());
    assert_eq!(out.len(), 3);
    assert_eq!(out[1].split(',').count(), 14);
    assert!(out[1].ends_with(",volume,rtype,publisher_id,product_id,ts_event,err"));
    assert_eq!(out[2], "21,1,323,1658441851000000000,");
}

#[test]
fn test_bulk_of_no_records_writes_the_header_row() {
    let mut encoder = Encoder::new(Vec::new());
    let none: [OhlcvMsg; 0] = [];
    assert_eq!(encoder.encode_records(&none), Ok(()));
    let out = lines(encoder.into_inner().unwrap());
    assert_eq!(out, vec!["rtype,publisher_id,product_id,ts_event,open,high,low,close,volume"]);
}

#[test]
fn test_stream_writes_what_the_slice_writes() {
    let mut second = mbo();
    second.order_id = 17;
    let records = vec![mbo(), second];
    let mut by_slice = Encoder::with_pretty(Vec::new(), true, false);
    let mut by_stream = Encoder::with_pretty(Vec::new(), true, false);
    assert_eq!(
        by_slice.encode_records(&records),
        by_stream.encode_stream(VecStream::new(records.clone()))
    );
    assert_eq!(by_slice.into_inner(), by_stream.into_inner());
}

#[test]
fn test_header_row_of_another_width_is_refused() {
    let mut encoder = Encoder::new(Vec::new());
    encoder.encode_records(&[mbo()]).unwrap();
    assert!(matches!(
        encoder.encode_header::<OhlcvMsg>(),
        Err(EncodeError::Header { .. })
    ));
    assert!(matches!(
        encoder.encode_records(&[ohlcv()]),
        Err(EncodeError::Header { .. })
    ));
}

#[test]
fn test_encode_records_of_many() {
    let mut second = mbo();
    second.order_id = 17;
    second.price = -5;
    let mut encoder = Encoder::new(b"# rows\n".to_vec());
    encoder.encode_records(&[mbo(), second]).unwrap();
    encoder.flush().unwrap();
    let out = lines(encoder.into_inner().unwrap());
    assert_eq!(out.len(), 4);
    assert_eq!(out[0], "# rows");
    assert_eq!(
        out[3],
        format!("{HEADER_CSV},17,-5,3,128,14,66,67,1658441891000000000,22000,1002375")
    );
}

#[test]
fn test_stream_hands_out_in_order() {
    let mut stream = VecStream::new(vec![1u8, 2u8]);
    assert!(!stream.is_done());
    assert_eq!(stream.get(), Some(&1));
    stream.advance();
    assert_eq!(stream.get(), Some(&2));
    stream.advance();
    assert!(stream.is_done());
    assert_eq!(stream.get(), None);
    stream.advance();
    assert_eq!(stream.get(), None);
}

#[test]
fn test_quoting_is_the_writers() {
    let mut writer = Writer::from_writer(Vec::new());
    write_text(&mut writer, b"a,b").unwrap();
    write_text(&mut writer, b"c").unwrap();
    writer.end_record().unwrap();
    assert_eq!(writer.into_inner().unwrap(), b"\"a,b\",c\n");
}

#[test]
fn test_write_field_of_integers() {
    let mut writer = Writer::from_writer(Vec::new());
    200u8.write_field::<false, false>(&mut writer).unwrap();
    (-128i8).write_field::<false, false>(&mut writer).unwrap();
    65535u16.write_field::<false, false>(&mut writer).unwrap();
    (-32768i16).write_field::<false, false>(&mut writer).unwrap();
    u32::MAX.write_field::<false, false>(&mut writer).unwrap();
    i32::MIN.write_field::<false, false>(&mut writer).unwrap();
    u64::MAX.write_field::<false, false>(&mut writer).unwrap();
    i64::MIN.write_field::<false, false>(&mut writer).unwrap();
    true.write_field::<false, false>(&mut writer).unwrap();
    writer.end_record().unwrap();
    assert_eq!(
        String::from_utf8(writer.into_inner().unwrap()).unwrap(),
        "200,-128,65535,-32768,4294967295,-2147483648,18446744073709551615,-9223372036854775808,true\n"
    );
}

#[test]
fn test_text_field_stops_at_nul() {
    let mut writer = Writer::from_writer(Vec::new());
    let text: [i8; 6] = ['a' as i8, 'b' as i8, 0, 'c' as i8, 0, 0];
    text.write_field::<false, false>(&mut writer).unwrap();
    let full: [i8; 2] = ['x' as i8, 'y' as i8];
    full.write_field::<false, false>(&mut writer).unwrap();
    let invalid: [i8; 2] = [-1, 'y' as i8];
    invalid.write_field::<false, false>(&mut writer).unwrap();
    write_text(&mut writer, b"z").unwrap();
    writer.end_record().unwrap();
    assert_eq!(writer.into_inner().unwrap(), b"ab,xy,,z\n");
}

#[test]
fn test_sink_outcome() {
    assert_eq!(sink_outcome(true, false, RECORD_HEADER, String::new()), Ok(false));
    assert_eq!(sink_outcome(true, true, RECORD_HEADER, String::new()), Ok(false));
    assert_eq!(sink_outcome(false, true, RECORD_HEADER, "closed".to_owned()), Ok(true));
    assert_eq!(
        sink_outcome(false, false, RECORD_HEADER, "disk full".to_owned()),
        Err(EncodeError::Record { header: RECORD_HEADER, message: "disk full".to_owned() })
    );
}

#[test]
fn test_book_without_levels_writes_nothing() {
    let mut writer = Writer::from_writer(Vec::new());
    let levels: [BidAskPair; 0] = [];
    assert!(<[BidAskPair; 0]>::write_header(&mut writer, "booklevel").is_ok());
    assert!(levels.write_field::<true, true>(&mut writer).is_ok());
    write_text(&mut writer, b"a").unwrap();
    writer.end_record().unwrap();
    assert_eq!(writer.into_inner().unwrap(), b"a\n");
}
