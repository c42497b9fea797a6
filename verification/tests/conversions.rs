//! Exercises the conversion layer end to end: scalar and timestamp round
//! trips, optionality lifting, and the envelope codec's tag and payload
//! discipline.
use prost_types::{Any, Timestamp};
use s2proto::convert::{pack_any, unpack_any, Json, UtcDateTime};
use s2proto::result::ConversionError;
use s2proto::{S2ProtoPack, S2ProtoUnpack};
use serde_json::{Number, Value};

fn json_envelope(payload: &[u8]) -> Any {
    Any { type_url: "s2/json".to_string(), value: payload.to_vec() }
}

fn sample_object() -> Value {
    let mut m = serde_json::Map::new();
    m.insert("a".to_string(), Value::Number(Number::from(1)));
    m.insert(
        "b".to_string(),
        Value::Array(vec![Value::Bool(true), Value::Null]),
    );
    Value::Object(m)
}

#[test]
fn scalar_round_trip_i64() {
    let w = (-7i64).pack().unwrap();
    assert_eq!(w, -7);
    assert_eq!(i64::unpack(w).unwrap(), -7);
}

#[test]
fn scalar_round_trip_u64() {
    let w = u64::MAX.pack().unwrap();
    assert_eq!(u64::unpack(w).unwrap(), u64::MAX);
}

#[test]
fn scalar_round_trip_i32() {
    let w = i32::MIN.pack().unwrap();
    assert_eq!(i32::unpack(w).unwrap(), i32::MIN);
}

#[test]
fn scalar_round_trip_u32() {
    let w = 42u32.pack().unwrap();
    assert_eq!(u32::unpack(w).unwrap(), 42);
}

#[test]
fn scalar_round_trip_bool() {
    let w = true.pack().unwrap();
    assert_eq!(bool::unpack(w).unwrap(), true);
}

#[test]
fn scalar_round_trip_string() {
    let w = "hello".to_string().pack().unwrap();
    assert_eq!(String::unpack(w).unwrap(), "hello");
}

#[test]
fn scalar_round_trip_optional() {
    let w = Some(5i64).pack().unwrap();
    assert_eq!(Option::<i64>::unpack(w).unwrap(), Some(5));
    let w: Option<String> = None::<String>.pack().unwrap();
    assert_eq!(Option::<String>::unpack(w).unwrap(), None);
}

#[test]
fn timestamp_round_trip() {
    let t = UtcDateTime::new(19_000, 12_345, 500_000_000).unwrap();
    let w = <UtcDateTime as S2ProtoPack<Timestamp>>::pack(t).unwrap();
    assert_eq!(w.seconds, 19_000i64 * 86_400 + 12_345);
    assert_eq!(w.nanos, 500_000_000);
    assert_eq!(UtcDateTime::unpack(w).unwrap(), t);
}

#[test]
fn timestamp_round_trip_before_epoch() {
    let t = UtcDateTime::new(-1, 86_399, 999_999_999).unwrap();
    let w = <UtcDateTime as S2ProtoPack<Timestamp>>::pack(t).unwrap();
    assert_eq!(w.seconds, -1);
    assert_eq!(w.nanos, 999_999_999);
    assert_eq!(UtcDateTime::unpack(w).unwrap(), t);
}

#[test]
fn timestamp_unpack_clamps_out_of_range_nanos() {
    let low = UtcDateTime::unpack(Timestamp { seconds: 5, nanos: -3 }).unwrap();
    assert_eq!(low, UtcDateTime { days: 0, secs: 5, nanos: 0 });
    let high = UtcDateTime::unpack(Timestamp { seconds: 5, nanos: i32::MAX }).unwrap();
    assert_eq!(high, UtcDateTime { days: 0, secs: 5, nanos: 999_999_999 });
}

#[test]
fn timestamp_unpack_splits_negative_seconds() {
    let t = UtcDateTime::unpack(Timestamp { seconds: -86_401, nanos: 0 }).unwrap();
    assert_eq!(t, UtcDateTime { days: -2, secs: 86_399, nanos: 0 });
}

#[test]
fn utc_date_time_rejects_invalid_parts() {
    assert!(UtcDateTime::new(0, 86_400, 0).is_none());
    assert!(UtcDateTime::new(0, 0, 1_000_000_000).is_none());
    assert!(UtcDateTime::new(i64::MAX, 0, 0).is_none());
    assert!(UtcDateTime::new(0, 86_399, 999_999_999).is_some());
}

#[test]
fn optional_timestamp_lifting() {
    let w = None::<UtcDateTime>.pack().unwrap();
    assert_eq!(w, None);
    assert_eq!(Option::<UtcDateTime>::unpack(None).unwrap(), None);

    let t = UtcDateTime::new(3, 4, 5).unwrap();
    let w = <UtcDateTime as S2ProtoPack<Option<Timestamp>>>::pack(t).unwrap();
    assert!(w.is_some());
    assert_eq!(
        <UtcDateTime as S2ProtoUnpack<Option<Timestamp>>>::unpack(w).unwrap(),
        t
    );
}

#[test]
fn required_timestamp_absent_is_value_not_present() {
    let r = <UtcDateTime as S2ProtoUnpack<Option<Timestamp>>>::unpack(None);
    assert!(matches!(r, Err(ConversionError::ValueNotPresent)));
}

#[test]
fn required_value_absent_is_value_not_present() {
    let r = <Value as S2ProtoUnpack<Option<Any>>>::unpack(None);
    let e = r.err().unwrap();
    assert!(matches!(e, ConversionError::ValueNotPresent));
    assert_eq!(e.kind(), "value not present");
}

#[test]
fn optional_value_lifting() {
    let w = <Option<Value> as S2ProtoPack<Option<Any>>>::pack(None).unwrap();
    assert!(w.is_none());
    let w = <Option<Value> as S2ProtoPack<Option<Any>>>::pack(Some(Value::Null)).unwrap();
    let back = <Option<Value> as S2ProtoUnpack<Option<Any>>>::unpack(w).unwrap();
    assert_eq!(back, Some(Value::Null));
}

#[test]
fn envelope_scenario_exact_bytes() {
    let v = sample_object();
    let a = <Value as S2ProtoPack<Any>>::pack(v.clone()).unwrap();
    assert_eq!(a.type_url, "s2/json");
    assert_eq!(a.value, br#"{"a":1,"b":[true,null]}"#.to_vec());
    let back = <Value as S2ProtoUnpack<Any>>::unpack(a).unwrap();
    assert_eq!(back, v);
}

#[test]
fn envelope_round_trip_nested() {
    let mut inner = serde_json::Map::new();
    inner.insert("empty_list".to_string(), Value::Array(vec![]));
    inner.insert("empty_map".to_string(), Value::Object(serde_json::Map::new()));
    inner.insert("s".to_string(), Value::String("täxt".to_string()));
    let mut outer = serde_json::Map::new();
    outer.insert("inner".to_string(), Value::Object(inner));
    outer.insert("n".to_string(), Value::Number(Number::from(-12)));
    let v = Value::Object(outer);
    let a = <Value as S2ProtoPack<Any>>::pack(v.clone()).unwrap();
    let back = <Value as S2ProtoUnpack<Any>>::unpack(a).unwrap();
    assert_eq!(back, v);
}

#[test]
fn envelope_unknown_tag_is_rejected() {
    let a = Any { type_url: "other/format".to_string(), value: b"{}".to_vec() };
    let r = <Value as S2ProtoUnpack<Any>>::unpack(a);
    match r {
        Err(ConversionError::JsonTypeUrlUnknown { type_url }) => {
            assert_eq!(type_url, "other/format");
        }
        other => panic!("expected unknown tag error, got {:?}", other.is_ok()),
    }
}

#[test]
fn envelope_malformed_payload_is_rejected() {
    let a = json_envelope(b"not json");
    let r = <Value as S2ProtoUnpack<Any>>::unpack(a);
    assert!(matches!(r, Err(ConversionError::Json { .. })));
}

#[test]
fn envelope_empty_payload_is_rejected() {
    let a = json_envelope(b"");
    let r = <Value as S2ProtoUnpack<Any>>::unpack(a);
    assert!(matches!(r, Err(ConversionError::Json { .. })));
}

#[test]
fn pack_any_unpack_any_round_trip() {
    let a = pack_any(vec![1i64, 2, 3]).unwrap();
    assert_eq!(a.type_url, "s2/json");
    assert_eq!(a.value, b"[1,2,3]".to_vec());
    let back: Vec<i64> = unpack_any(a).unwrap();
    assert_eq!(back, vec![1, 2, 3]);
}

#[test]
fn unpack_any_shape_mismatch_is_json_error() {
    let a = json_envelope(b"[1,2,3]");
    let r: Result<bool, ConversionError> = unpack_any(a);
    let e = r.err().unwrap();
    assert!(matches!(e, ConversionError::Json { .. }));
    assert_eq!(e.kind(), "json codec error");
}
