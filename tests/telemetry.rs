use ciborium::Value;
use tensleep::frank::manager::{
    decode_batch_stream, decode_record, handle_data_stream, SessionResponse, StreamEnd, StreamStep,
};
use tensleep::frank::types::{parse_record, BatchItemData};
use tensleep::wire::{decode, encode, DecodeError, WireValue};

fn cbor(v: &Value) -> Vec<u8> {
    let mut out = Vec::new();
    ciborium::into_writer(v, &mut out).unwrap();
    out
}

fn map(entries: Vec<(&str, Value)>) -> Value {
    Value::Map(entries.into_iter().map(|(k, v)| (Value::Text(k.to_string()), v)).collect())
}

fn num(n: i64) -> Value {
    Value::Integer(n.into())
}

fn text(s: &str) -> Value {
    Value::Text(s.to_string())
}

fn frz_temp(ts: i64) -> Value {
    map(vec![
        ("type", text("frzTemp")),
        ("ts", num(ts)),
        ("amb", num(2100)),
        ("hs", num(2500)),
        ("left", num(1900)),
        ("right", num(1950)),
    ])
}

fn log_record() -> Value {
    map(vec![("type", text("log")), ("ts", num(1_700_000_000)), ("msg", text("hi")), ("level", text("info"))])
}

fn entry(seq: i64, data: Vec<u8>) -> Vec<u8> {
    cbor(&map(vec![("seq", num(seq)), ("data", Value::Bytes(data))]))
}

fn decoded_reply(bytes: &[u8]) -> Value {
    ciborium::from_reader(bytes).unwrap()
}

#[test]
fn malformed_record_in_the_middle_is_skipped() {
    let mut stream = Vec::new();
    stream.extend(entry(1, cbor(&frz_temp(1_700_000_000))));
    stream.extend(entry(2, cbor(&log_record())));
    stream.extend(entry(3, vec![0xff, 0x00, 0x13]));
    stream.extend(entry(4, cbor(&frz_temp(1_700_000_010))));
    let report = decode_batch_stream(&stream);
    assert_eq!(report.end, StreamEnd::Exhausted);
    assert_eq!(report.entries.len(), 4);
    assert_eq!(report.entries.iter().filter(|e| e.record.is_some()).count(), 3);
    assert_eq!(report.entries.iter().filter(|e| e.record.is_none()).count(), 1);
    assert!(report.entries[2].record.is_none());
    assert_eq!(report.entries[2].seq, 3);
    assert_eq!(report.entries[2].data, vec![0xff, 0x00, 0x13]);
    match &report.entries[3].record {
        Some(BatchItemData::FrzTemp(f)) => {
            assert_eq!(f.ts, 1_700_000_010);
            assert_eq!(f.right, 1950);
        }
        other => panic!("unexpected {:?}", other),
    }
}

#[test]
fn record_of_unknown_type_is_a_failure() {
    let data = cbor(&map(vec![("type", text("mystery")), ("ts", num(1))]));
    assert!(decode_record(&data).is_none());
}

#[test]
fn record_with_out_of_range_field_is_a_failure() {
    let mut v = frz_temp(1_700_000_000);
    if let Value::Map(es) = &mut v {
        es[2].1 = num(70000);
    }
    assert!(decode_record(&cbor(&v)).is_none());
}

#[test]
fn record_with_timestamp_out_of_range_is_a_failure() {
    assert!(decode_record(&cbor(&frz_temp(i64::MAX))).is_none());
    assert!(decode_record(&cbor(&frz_temp(0))).is_some());
}

#[test]
fn bed_temp_and_cap_sense_records() {
    let side = |c: i64| map(vec![("cen", num(c)), ("in", num(c + 1)), ("out", num(c + 2))]);
    let bed = map(vec![
        ("type", text("bedTemp")),
        ("ts", num(5)),
        ("mcu", num(1)),
        ("amb", num(2)),
        ("hu", num(3)),
        ("left", side(10)),
        ("right", side(20)),
    ]);
    match decode_record(&cbor(&bed)) {
        Some(BatchItemData::BedTemp(b)) => {
            assert_eq!(b.left.in_, 11);
            assert_eq!(b.right.out, 22);
        }
        other => panic!("unexpected {:?}", other),
    }
    let cap_side = |s: &str| map(vec![("status", text(s)), ("cen", num(1)), ("in", num(2)), ("out", num(3))]);
    let cap = map(vec![("type", text("capSense")), ("ts", num(5)), ("left", cap_side("good")), ("right", cap_side("bad"))]);
    match decode_record(&cbor(&cap)) {
        Some(BatchItemData::CapSense(c)) => assert_eq!(c.right.status, "bad"),
        other => panic!("unexpected {:?}", other),
    }
}

#[test]
fn piezo_record() {
    let piezo = map(vec![
        ("type", text("piezo-dual")),
        ("ts", num(7)),
        ("adc", num(1)),
        ("freq", num(500)),
        ("gain", num(400)),
        ("left1", Value::Bytes(vec![1, 2])),
        ("left2", Value::Bytes(vec![3])),
        ("right1", Value::Bytes(vec![])),
        ("right2", Value::Bytes(vec![9, 9, 9])),
    ]);
    let v = match decode(&cbor(&piezo)) {
        Ok((v, _)) => v,
        Err(e) => panic!("{:?}", e.kind),
    };
    match parse_record(&v) {
        Some(BatchItemData::PiezoDual(p)) => {
            assert_eq!(p.freq, 500);
            assert_eq!(p.right2, vec![9, 9, 9]);
        }
        other => panic!("unexpected {:?}", other),
    }
}

#[test]
fn session_message_is_acknowledged() {
    let msg = cbor(&map(vec![("part", text("session")), ("proto", text("raw")), ("dev", text("abc"))]));
    match handle_data_stream(&msg) {
        StreamStep::Handled { consumed, response: SessionResponse::Session { dev, reply } } => {
            assert_eq!(consumed, msg.len());
            assert_eq!(dev, "abc");
            assert_eq!(decoded_reply(&reply), map(vec![("part", text("session")), ("proto", text("raw"))]));
        }
        other => panic!("unexpected {:?}", other),
    }
}

#[test]
fn session_without_device_ends_the_connection() {
    let msg = cbor(&map(vec![("part", text("session")), ("proto", text("raw"))]));
    assert!(matches!(handle_data_stream(&msg), StreamStep::Abort));
}

#[test]
fn batch_message_is_acknowledged_and_read() {
    let mut stream = entry(1, cbor(&log_record()));
    stream.extend(entry(2, vec![0x01]));
    let msg = cbor(&map(vec![
        ("part", text("batch")),
        ("proto", text("raw")),
        ("id", num(42)),
        ("stream", Value::Bytes(stream)),
    ]));
    let mut buffer = msg.clone();
    buffer.extend(cbor(&map(vec![("part", text("other")), ("proto", text("raw"))])));
    match handle_data_stream(&buffer) {
        StreamStep::Handled { consumed, response: SessionResponse::Batch { id, reply, report } } => {
            assert_eq!(consumed, msg.len());
            assert_eq!(id, 42);
            assert_eq!(
                decoded_reply(&reply),
                map(vec![("part", text("batch")), ("proto", text("raw")), ("id", num(42))])
            );
            let report = report.unwrap();
            assert_eq!(report.entries.len(), 2);
            assert!(report.entries[0].record.is_some());
            assert!(report.entries[1].record.is_none());
        }
        other => panic!("unexpected {:?}", other),
    }
    match handle_data_stream(&buffer[msg.len()..]) {
        StreamStep::Handled { response: SessionResponse::Unrecognized { part }, .. } => assert_eq!(part, "other"),
        other => panic!("unexpected {:?}", other),
    }
}

#[test]
fn batch_without_id_is_not_acknowledged() {
    let msg = cbor(&map(vec![("part", text("batch")), ("proto", text("raw"))]));
    assert!(matches!(
        handle_data_stream(&msg),
        StreamStep::Handled { response: SessionResponse::MissingId, .. }
    ));
}

#[test]
fn partial_and_broken_framing() {
    let msg = cbor(&map(vec![("part", text("session")), ("proto", text("raw")), ("dev", text("abc"))]));
    assert!(matches!(handle_data_stream(&msg[..msg.len() - 1]), StreamStep::NeedMore));
    assert!(matches!(handle_data_stream(&[]), StreamStep::NeedMore));
    assert!(matches!(handle_data_stream(&[0xff]), StreamStep::Abort));
    assert!(matches!(handle_data_stream(&cbor(&num(3))), StreamStep::Abort));
}

#[test]
fn broken_entry_stops_the_batch_stream() {
    let mut stream = entry(1, cbor(&log_record()));
    stream.extend(cbor(&map(vec![("seq", text("x"))])));
    stream.extend(entry(3, cbor(&log_record())));
    let report = decode_batch_stream(&stream);
    assert_eq!(report.entries.len(), 1);
    assert_eq!(report.end, StreamEnd::Broken);
}

#[test]
fn wire_values_round_trip() {
    let v = WireValue::Object(vec![
        (WireValue::Text("a".to_string()), WireValue::Int(-5)),
        (WireValue::Text("b".to_string()), WireValue::Array(vec![WireValue::Bool(true), WireValue::Null])),
        (WireValue::Text("c".to_string()), WireValue::Bytes(vec![0, 255])),
        (WireValue::Text("d".to_string()), WireValue::Int(18_446_744_073_709_551_615)),
        (WireValue::Text("e".to_string()), WireValue::Int(-18_446_744_073_709_551_616)),
        (WireValue::Text("f".to_string()), WireValue::Object(vec![(WireValue::Int(1), WireValue::Text("é".to_string()))])),
    ]);
    let bytes = encode(&v).unwrap();
    match decode(&bytes) {
        Ok((back, n)) => {
            assert_eq!(n, bytes.len());
            assert_eq!(format!("{:?}", back), format!("{:?}", v));
        }
        Err(e) => panic!("{:?}", e.kind),
    }
}

#[test]
fn wire_integers_out_of_range_do_not_encode() {
    assert!(encode(&WireValue::Int(18_446_744_073_709_551_616)).is_none());
    assert!(encode(&WireValue::Int(-18_446_744_073_709_551_617)).is_none());
}

#[test]
fn wire_decode_errors() {
    assert_eq!(decode(&[]).unwrap_err().kind, DecodeError::Eof);
    assert_eq!(decode(&[0x82, 0x01]).unwrap_err().kind, DecodeError::Eof);
    assert_eq!(decode(&[0xfb, 0, 0, 0, 0, 0, 0, 0, 0]).unwrap_err().kind, DecodeError::Unsupported);
    let failure = decode(&[0x1f, 0x02]).unwrap_err();
    assert_eq!(failure.kind, DecodeError::Malformed);
    assert_eq!(failure.bytes, vec![0x1f, 0x02]);
}
