use recordwire::codec::{decode_batch, encode_batch, DecodeError};
use recordwire::record::RecordData;
use recordwire::sender::{build_payload, make_batch};

#[test]
fn round_trip_demo_batch() {
    let batch = make_batch(3);
    let payload = encode_batch(&batch).expect("a valid batch encodes");
    let decoded = decode_batch(&payload).expect("the payload decodes");
    assert_eq!(decoded.len(), 3);
    for rec in &decoded {
        assert_eq!(rec.a, 27);
        assert_eq!(rec.b, "foo");
    }
    assert_eq!(decoded, batch);
}

#[test]
fn round_trip_keeps_values_and_order() {
    let batch = vec![
        RecordData::new(-1, String::from("first")),
        RecordData::new(0, String::from("")),
        RecordData::new(i64::MAX, String::from("third")),
        RecordData::new(i64::MIN, String::from("fourth")),
    ];
    let payload = encode_batch(&batch).expect("a valid batch encodes");
    let decoded = decode_batch(&payload).expect("the payload decodes");
    assert_eq!(decoded, batch);
}

#[test]
fn round_trip_empty_batch() {
    let batch: Vec<RecordData> = vec![];
    let payload = encode_batch(&batch).expect("an empty batch still encodes");
    assert!(!payload.is_empty());
    let decoded = decode_batch(&payload).expect("the payload decodes");
    assert!(decoded.is_empty());
}

#[test]
fn build_payload_matches_encoded_batch() {
    let payload = build_payload(2).expect("the demonstration batch encodes");
    let decoded = decode_batch(&payload).expect("the payload decodes");
    assert_eq!(decoded, make_batch(2));
}

#[test]
fn empty_payload_is_rejected() {
    let empty: Vec<u8> = vec![];
    let failure = decode_batch(&empty).expect_err("an empty payload must not decode");
    assert_eq!(failure.error, DecodeError::Decompress);
    assert!(failure.partial.is_empty());
}

#[test]
fn garbage_payload_is_rejected_by_decompression() {
    let garbage: Vec<u8> = vec![0xde, 0xad, 0xbe, 0xef, 0x00, 0x01, 0x02, 0x03];
    let failure = decode_batch(&garbage).expect_err("garbage must not decode");
    assert_eq!(failure.error, DecodeError::Decompress);
    assert!(failure.partial.is_empty());
}

#[test]
fn compressed_non_container_is_rejected_by_container_parse() {
    // Well-formed at the compression layer, nonsense at the container layer.
    let mut bytes: Vec<u8> = b"not an object container".to_vec();
    apache_avro::Codec::Zstandard(apache_avro::ZstandardSettings::default())
        .compress(&mut bytes)
        .expect("compression of plain bytes succeeds");
    let failure = decode_batch(&bytes).expect_err("a non-container must not decode");
    assert_eq!(failure.error, DecodeError::Container);
    assert!(failure.partial.is_empty());
}

#[test]
fn mid_container_failure_yields_the_clean_prefix() {
    let schema = apache_avro::Schema::parse_str(
        r#"{"type":"record","name":"test","fields":[{"name":"a","type":"long","default":42},{"name":"b","type":"string"}]}"#,
    )
    .expect("the schema parses");
    let mut writer =
        apache_avro::Writer::new(&schema, Vec::new()).expect("an in-memory writer opens");
    for (a, b) in [(1i64, "good"), (2i64, "bad!")] {
        let mut row =
            apache_avro::types::Record::new(writer.schema()).expect("the schema is a record");
        row.put("a", a);
        row.put("b", b);
        writer.append(row).expect("a valid record appends");
    }
    let mut container = writer.into_inner().expect("the container flushes");
    // The container ends with the block's 16-byte sync marker, so the byte
    // just before it is the last byte of the second record's string. 0xff is
    // never valid UTF-8, so that record fails to decode while the first
    // still parses cleanly.
    let n = container.len();
    container[n - 17] = 0xff;
    apache_avro::Codec::Zstandard(apache_avro::ZstandardSettings::default())
        .compress(&mut container)
        .expect("compression of the container succeeds");
    let failure = decode_batch(&container).expect_err("a corrupted record must not decode");
    assert_eq!(failure.error, DecodeError::Container);
    assert_eq!(failure.partial, vec![RecordData::new(1, String::from("good"))]);
}

#[test]
fn every_truncation_is_detected() {
    let payload = build_payload(2).expect("the demonstration batch encodes");
    for cut in 1..payload.len() {
        let prefix: Vec<u8> = payload[..cut].to_vec();
        assert!(
            decode_batch(&prefix).is_err(),
            "a {}-byte prefix of a {}-byte payload must not decode",
            cut,
            payload.len()
        );
    }
}

#[test]
fn payload_is_never_empty() {
    for count in [0usize, 1, 5] {
        let payload = build_payload(count).expect("the demonstration batch encodes");
        assert!(!payload.is_empty());
    }
}
