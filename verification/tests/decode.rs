use dbn::decode::{next_record, DbnDecoder, DecodeError, Head, Item};
use dbn::enums::{SType, Schema};
use dbn::error::{DbnError, MetadataError};
use dbn::metadata::{Decoded, Metadata};
use dbn::record::{
    to_bytes, ErrorMsg, HasRType, MboMsg, OhlcvMsg, RecordHeader, SymbolMappingMsg, TradeMsg,
    WithTsOut,
};
use dbn::record_enum::RecordEnum;
use dbn::rtype;

fn metadata() -> Metadata {
    Metadata {
        version: 1,
        dataset: "GLBX.MDP3".to_owned(),
        schema: Schema::Mbo,
        start: 1,
        end: Some(2),
        limit: None,
        record_count: 3,
        stype_in: SType::Native,
        stype_out: SType::ProductId,
        symbols: vec![],
        partial: vec![],
        not_found: vec![],
    }
}

fn mbo(order_id: u64) -> MboMsg {
    MboMsg {
        hd: RecordHeader::new::<MboMsg>(rtype::MBO, 1, 323, 1658441851000000000),
        order_id,
        price: 5500,
        size: 3,
        flags: 128,
        channel_id: 14,
        action: 'A' as i8,
        side: 'B' as i8,
        ts_recv: 1658441891000000000,
        ts_in_delta: -22_000,
        sequence: 1_002_375,
    }
}

fn ohlcv() -> OhlcvMsg {
    OhlcvMsg {
        hd: RecordHeader::new::<OhlcvMsg>(rtype::OHLCV_1M, 2, 7, 10),
        open: 5000,
        high: 8000,
        low: -3000,
        close: 6000,
        volume: 55_000,
    }
}

fn error_msg(text: &str) -> ErrorMsg {
    let mut err = [0i8; 64];
    for (i, c) in text.bytes().enumerate() {
        err[i] = c as i8;
    }
    ErrorMsg { hd: RecordHeader::new::<ErrorMsg>(rtype::ERROR, 0, 0, 5), err }
}

fn streaming() -> DbnDecoder {
    let mut decoder = DbnDecoder::new();
    decoder.write(&metadata().encode().unwrap());
    assert_eq!(decoder.decode(), Ok(vec![Item::Metadata(metadata())]));
    decoder
}

fn unknown_record(words: u8) -> Vec<u8> {
    let mut bytes = vec![0x5au8; words as usize * 4];
    bytes[0] = words;
    bytes[1] = 0x77;
    bytes
}

#[test]
fn test_dbn_decoder() {
    let mut stream = metadata().encode().unwrap();
    stream.extend(to_bytes(&mbo(1)));
    stream.extend(to_bytes(&mbo(2)));
    let mut decoder = DbnDecoder::new();
    decoder.write(&stream);
    let records = decoder.decode().unwrap();
    assert_eq!(records.len(), 3);
    assert_eq!(records[0], Item::Metadata(metadata()));
    assert_eq!(records[1], Item::Record(RecordEnum::Mbo(mbo(1))));
    assert_eq!(records[2], Item::Record(RecordEnum::Mbo(mbo(2))));
    assert!(decoder.buffer().is_empty());
}

#[test]
fn test_metadata_identity() {
    let metadata_bytes = metadata().encode().unwrap();
    match Metadata::decode(&metadata_bytes) {
        Decoded::Complete(decoded, taken) => {
            assert_eq!(taken, metadata_bytes.len());
            assert_eq!(decoded.dataset, "GLBX.MDP3");
            assert_eq!(decoded.schema, Schema::Mbo);
            assert_eq!(decoded.start, 1);
            assert_eq!(decoded.end, Some(2));
            assert_eq!(decoded.limit, None);
            assert_eq!(decoded.record_count, 3);
            assert_eq!(decoded.stype_in, SType::Native);
            assert_eq!(decoded.stype_out, SType::ProductId);
            assert_eq!(decoded, metadata());
        }
        other => panic!("not complete: {:?}", other),
    }
}

#[test]
fn test_metadata_layout() {
    let bytes = metadata().encode().unwrap();
    assert_eq!(bytes.len(), 8 + 116);
    assert_eq!(&bytes[..4], b"DBN\x01");
    assert_eq!(&bytes[4..8], &116u32.to_le_bytes());
    assert_eq!(&bytes[8..24], b"GLBX.MDP3\0\0\0\0\0\0\0");
    assert_eq!(&bytes[24..26], &0u16.to_le_bytes());
    assert_eq!(&bytes[26..34], &1u64.to_le_bytes());
    assert_eq!(&bytes[34..42], &2u64.to_le_bytes());
    assert_eq!(&bytes[42..50], &0u64.to_le_bytes());
    assert_eq!(&bytes[50..58], &3u64.to_le_bytes());
    assert_eq!(&bytes[58..60], &[1, 0]);
    assert!(bytes[60..].iter().all(|b| *b == 0));
}

#[test]
fn test_metadata_with_symbols_round_trips() {
    let mut m = metadata();
    m.schema = Schema::Ohlcv1D;
    m.end = None;
    m.limit = Some(10);
    m.stype_in = SType::Smart;
    m.symbols = vec!["ESH3".to_owned(), "ES.FUT".to_owned(), "".to_owned()];
    m.partial = vec!["NQ\u{e9}".to_owned()];
    m.not_found = vec!["a".repeat(22)];
    let bytes = m.encode().unwrap();
    assert_eq!(bytes.len(), 8 + 116 + 5 * 22);
    let mut with_tail = bytes.clone();
    with_tail.extend_from_slice(&[9, 9, 9]);
    match Metadata::decode(&with_tail) {
        Decoded::Complete(decoded, taken) => {
            assert_eq!(decoded, m);
            assert_eq!(taken, bytes.len());
        }
        other => panic!("not complete: {:?}", other),
    }
}

#[test]
fn test_metadata_that_cannot_be_encoded() {
    let mut m = metadata();
    m.dataset = "a".repeat(17);
    assert_eq!(m.encode(), None);
    let mut m = metadata();
    m.dataset = "XNAS\0".to_owned();
    assert_eq!(m.encode(), None);
    let mut m = metadata();
    m.symbols = vec!["b".repeat(23)];
    assert_eq!(m.encode(), None);
    let mut m = metadata();
    m.end = Some(u64::MAX);
    assert_eq!(m.encode(), None);
    let mut m = metadata();
    m.limit = Some(0);
    assert_eq!(m.encode(), None);
    let mut m = metadata();
    m.version = 2;
    assert_eq!(m.encode(), None);
}

fn malformed(bytes: &[u8]) -> MetadataError {
    match Metadata::decode(bytes) {
        Decoded::Malformed(e) => e,
        other => panic!("not malformed: {:?}", other),
    }
}

#[test]
fn test_metadata_errors() {
    let good = {
        let mut m = metadata();
        m.symbols = vec!["ESH3".to_owned()];
        m.encode().unwrap()
    };
    let mut bad = good.clone();
    bad[1] = b'X';
    assert_eq!(malformed(&bad), MetadataError::BadPrefix);
    let mut bad = good.clone();
    bad[3] = 2;
    assert_eq!(malformed(&bad), MetadataError::UnsupportedVersion { version: 2 });
    let mut bad = good.clone();
    bad[4..8].copy_from_slice(&99u32.to_le_bytes());
    assert_eq!(malformed(&bad), MetadataError::TooShort { length: 99 });
    let mut bad = good.clone();
    bad[8] = 0xff;
    assert_eq!(malformed(&bad), MetadataError::BadDataset);
    let mut bad = good.clone();
    bad[24..26].copy_from_slice(&13u16.to_le_bytes());
    assert_eq!(malformed(&bad), MetadataError::UnknownSchema { code: 13 });
    let mut bad = good.clone();
    bad[58] = 3;
    assert_eq!(malformed(&bad), MetadataError::UnknownSType { raw: 3 });
    let mut bad = good.clone();
    bad[59] = 200;
    assert_eq!(malformed(&bad), MetadataError::UnknownSType { raw: 200 });
    let mut bad = good.clone();
    bad[108..112].copy_from_slice(&5u32.to_le_bytes());
    assert_eq!(malformed(&bad), MetadataError::SchemaDefinition { length: 5 });
    let mut bad = good.clone();
    bad[112..116].copy_from_slice(&2u32.to_le_bytes());
    assert_eq!(malformed(&bad), MetadataError::ListOverrun);
    let mut bad = good.clone();
    bad[116] = 0xc0;
    assert_eq!(malformed(&bad), MetadataError::BadSymbol);
    let mut short = good[..8 + 100].to_vec();
    short[4..8].copy_from_slice(&100u32.to_le_bytes());
    assert_eq!(malformed(&short), MetadataError::ListOverrun);
}

#[test]
fn test_metadata_incomplete() {
    let good = metadata().encode().unwrap();
    for n in 0..good.len() {
        assert!(matches!(Metadata::decode(&good[..n]), Decoded::Incomplete));
    }
}

#[test]
fn test_decode_waits_for_the_metadata() {
    let block = metadata().encode().unwrap();
    let mut decoder = DbnDecoder::new();
    decoder.write(&block[..50]);
    assert_eq!(decoder.decode(), Ok(vec![]));
    assert_eq!(decoder.buffer(), &block[..50]);
    assert!(!decoder.has_decoded_metadata());
    decoder.write(&block[50..]);
    assert_eq!(decoder.decode(), Ok(vec![Item::Metadata(metadata())]));
    assert!(decoder.has_decoded_metadata());
    assert!(decoder.buffer().is_empty());
    assert_eq!(decoder.position(), block.len() as u64);
}

#[test]
fn test_malformed_metadata_fails_on_every_call() {
    let mut block = metadata().encode().unwrap();
    block[0] = b'X';
    let mut decoder = DbnDecoder::new();
    decoder.write(&block);
    let expected = Err(DecodeError {
        offset: 0,
        error: DbnError::Metadata { kind: MetadataError::BadPrefix },
        items: vec![],
    });
    assert_eq!(decoder.decode(), expected);
    assert_eq!(decoder.buffer(), &block[..]);
    assert!(!decoder.has_decoded_metadata());
    decoder.write(&to_bytes(&mbo(1)));
    assert_eq!(decoder.decode(), expected);
}

fn all_records() -> Vec<RecordEnum> {
    vec![
        RecordEnum::Mbo(mbo(1)),
        RecordEnum::Ohlcv(ohlcv()),
        RecordEnum::Error(error_msg("bad request")),
        RecordEnum::Mbo(mbo(2)),
    ]
}

fn stream_of(records: &[RecordEnum]) -> Vec<u8> {
    let mut stream = metadata().encode().unwrap();
    for r in records {
        stream.extend(r.to_bytes());
    }
    stream
}

fn expected_items(records: &[RecordEnum]) -> Vec<Item> {
    let mut items = vec![Item::Metadata(metadata())];
    items.extend(records.iter().map(|r| Item::Record(*r)));
    items
}

fn decode_in_chunks(stream: &[u8], chunk: usize) -> Vec<Item> {
    let mut decoder = DbnDecoder::new();
    let mut items = Vec::new();
    for piece in stream.chunks(chunk) {
        decoder.write(piece);
        items.extend(decoder.decode().unwrap());
    }
    assert!(decoder.buffer().is_empty());
    assert_eq!(decoder.position(), stream.len() as u64);
    items
}

#[test]
fn test_decode_byte_by_byte() {
    let records = all_records();
    let stream = stream_of(&records);
    assert_eq!(decode_in_chunks(&stream, 1), expected_items(&records));
}

#[test]
fn test_decode_in_chunks_of_every_size() {
    let records = all_records();
    let stream = stream_of(&records);
    for chunk in [2, 3, 7, 16, 55, 56, 57, 100, 1000] {
        assert_eq!(decode_in_chunks(&stream, chunk), expected_items(&records));
    }
}

#[test]
fn test_record_split_across_two_writes() {
    let bytes = to_bytes(&mbo(9));
    for k in 1..bytes.len() {
        let mut decoder = streaming();
        decoder.write(&bytes[..k]);
        assert_eq!(decoder.decode(), Ok(vec![]));
        assert_eq!(decoder.buffer(), &bytes[..k]);
        decoder.write(&bytes[k..]);
        assert_eq!(decoder.decode(), Ok(vec![Item::Record(RecordEnum::Mbo(mbo(9)))]));
        assert!(decoder.buffer().is_empty());
    }
}

#[test]
fn test_partial_suffix_is_kept() {
    let mut decoder = streaming();
    let first = to_bytes(&mbo(1));
    let second = to_bytes(&ohlcv());
    let mut bytes = first.clone();
    bytes.extend_from_slice(&second[..20]);
    decoder.write(&bytes);
    assert_eq!(decoder.decode(), Ok(vec![Item::Record(RecordEnum::Mbo(mbo(1)))]));
    assert_eq!(decoder.buffer(), &second[..20]);
    decoder.write(&second[20..]);
    assert_eq!(decoder.decode(), Ok(vec![Item::Record(RecordEnum::Ohlcv(ohlcv()))]));
}

#[test]
fn test_unknown_record_is_skipped() {
    let mut decoder = streaming();
    let mut bytes = to_bytes(&mbo(1));
    bytes.extend(unknown_record(5));
    bytes.extend(to_bytes(&mbo(2)));
    bytes.extend(unknown_record(4));
    decoder.write(&bytes);
    assert_eq!(
        decoder.decode(),
        Ok(vec![
            Item::Record(RecordEnum::Mbo(mbo(1))),
            Item::Record(RecordEnum::Mbo(mbo(2)))
        ])
    );
    assert!(decoder.buffer().is_empty());
}

#[test]
fn test_padded_record_is_decoded() {
    let mut record = mbo(3);
    record.hd.length += 2;
    let bytes = to_bytes(&record);
    assert_eq!(bytes.len(), 64);
    let mut decoder = streaming();
    decoder.write(&bytes);
    decoder.write(&to_bytes(&mbo(4)));
    assert_eq!(
        decoder.decode(),
        Ok(vec![
            Item::Record(RecordEnum::Mbo(record)),
            Item::Record(RecordEnum::Mbo(mbo(4)))
        ])
    );
}

#[test]
fn test_truncated_record_is_terminal() {
    let mut decoder = streaming();
    let start = decoder.position();
    let mut short = mbo(2);
    short.hd.length -= 1;
    let mut bytes = to_bytes(&mbo(1));
    bytes.extend(to_bytes(&short));
    bytes.extend(to_bytes(&mbo(3)));
    decoder.write(&bytes);
    let error = DbnError::TruncatedRecord { rtype: rtype::MBO, record_size: 52 };
    assert_eq!(
        decoder.decode(),
        Err(DecodeError {
            offset: start + 56,
            error,
            items: vec![Item::Record(RecordEnum::Mbo(mbo(1)))],
        })
    );
    let again = Err(DecodeError { offset: start + 56, error, items: vec![] });
    assert_eq!(decoder.decode(), again);
    decoder.write(&to_bytes(&mbo(4)));
    assert_eq!(decoder.decode(), again);
    assert_eq!(decoder.decode(), again);
}

#[test]
fn test_truncated_record_behind_the_metadata_is_reported_at_once() {
    let mut short = mbo(2);
    short.hd.length = 4;
    let block = metadata().encode().unwrap();
    let mut stream = block.clone();
    stream.extend(&to_bytes(&short)[..16]);
    stream.extend(to_bytes(&mbo(3)));
    let mut decoder = DbnDecoder::new();
    decoder.write(&stream);
    let error = DbnError::TruncatedRecord { rtype: rtype::MBO, record_size: 16 };
    assert_eq!(
        decoder.decode(),
        Err(DecodeError {
            offset: block.len() as u64,
            error,
            items: vec![Item::Metadata(metadata())],
        })
    );
    assert!(decoder.has_decoded_metadata());
    assert_eq!(
        decoder.decode(),
        Err(DecodeError { offset: block.len() as u64, error, items: vec![] })
    );
}

#[test]
fn test_record_smaller_than_a_header_is_terminal() {
    let mut decoder = streaming();
    let start = decoder.position();
    let mut bytes = unknown_record(4);
    bytes[0] = 0;
    decoder.write(&bytes);
    let expected = Err(DecodeError {
        offset: start,
        error: DbnError::TruncatedRecord { rtype: 0x77, record_size: 0 },
        items: vec![],
    });
    assert_eq!(decoder.decode(), expected);
}

#[test]
fn test_next_record() {
    let bytes = to_bytes(&mbo(1));
    assert_eq!(next_record(&bytes[..15]), Head::Incomplete);
    assert_eq!(next_record(&bytes[..55]), Head::Incomplete);
    assert_eq!(next_record(&bytes), Head::Record(RecordEnum::Mbo(mbo(1)), 56));
    assert_eq!(next_record(&unknown_record(6)), Head::Skipped(24));
    let mut short = to_bytes(&ohlcv());
    short[0] = 4;
    assert_eq!(
        next_record(&short),
        Head::Truncated(DbnError::TruncatedRecord { rtype: rtype::OHLCV_1M, record_size: 16 })
    );
}

#[test]
fn test_with_ts_out() {
    let record = WithTsOut {
        rec: TradeMsg {
            hd: RecordHeader::new::<WithTsOut<TradeMsg>>(rtype::MBP_0, 1, 2, 3),
            price: -1,
            size: 2,
            action: 'T' as i8,
            side: 'N' as i8,
            flags: 0,
            depth: 0,
            ts_recv: 4,
            ts_in_delta: 5,
            sequence: 6,
            booklevel: [],
        },
        ts_out: 77,
    };
    assert_eq!(WithTsOut::<TradeMsg>::size(), 56);
    assert_eq!(record.rec.hd.length, 14);
    let bytes = to_bytes(&record);
    assert_eq!(bytes.len(), 56);
    assert_eq!(&bytes[48..], &77u64.to_le_bytes());
    assert_eq!(WithTsOut::<TradeMsg>::decode(&bytes), record);
    let mut decoder = streaming();
    decoder.write(&bytes);
    assert_eq!(decoder.decode(), Ok(vec![Item::Record(RecordEnum::Trade(record.rec))]));
}

#[test]
fn test_symbol_mapping_round_trips() {
    let mut record = SymbolMappingMsg {
        hd: RecordHeader::new::<SymbolMappingMsg>(rtype::SYMBOL_MAPPING, 1, 2, 3),
        stype_in_symbol: [0; 22],
        stype_out_symbol: [0; 22],
        _dummy: [0; 4],
        start_ts: 10,
        end_ts: u64::MAX,
    };
    record.stype_in_symbol[0] = 'E' as i8;
    record.stype_out_symbol[21] = -1;
    let bytes = to_bytes(&record);
    assert_eq!(bytes.len(), 80);
    assert_eq!(bytes[16], b'E');
    assert_eq!(bytes[59], 0xff);
    assert_eq!(SymbolMappingMsg::decode(&bytes), record);
}
