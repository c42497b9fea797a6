//! Exercises the boxed wrapper: a representative serializable struct with
//! required and optional fields rides the generic envelope and comes back
//! unchanged.
use prost_types::Any;
use s2proto::convert::{pack_json_opt, unpack_json_opt, Json};
use s2proto::result::ConversionError;
use serde::de::Error as _;
use serde_json::{Number, Value};

/// A representative domain type: a required numeric field, a required text
/// field, and an optional text field.
#[derive(Clone, Debug, PartialEq)]
struct Record {
    id: i64,
    name: String,
    note: Option<String>,
}

impl serde::Serialize for Record {
    fn serialize<S: serde::Serializer>(&self, s: S) -> Result<S::Ok, S::Error> {
        let mut m = serde_json::Map::new();
        m.insert("id".to_string(), Value::Number(Number::from(self.id)));
        m.insert("name".to_string(), Value::String(self.name.clone()));
        match &self.note {
            Some(n) => m.insert("note".to_string(), Value::String(n.clone())),
            None => m.insert("note".to_string(), Value::Null),
        };
        serde::Serialize::serialize(&Value::Object(m), s)
    }
}

impl<'de> serde::Deserialize<'de> for Record {
    fn deserialize<D: serde::Deserializer<'de>>(d: D) -> Result<Self, D::Error> {
        let v: Value = serde::Deserialize::deserialize(d)?;
        let obj = v.as_object().ok_or_else(|| D::Error::custom("expected an object"))?;
        let id = obj
            .get("id")
            .and_then(Value::as_i64)
            .ok_or_else(|| D::Error::custom("missing id"))?;
        let name = obj
            .get("name")
            .and_then(Value::as_str)
            .ok_or_else(|| D::Error::custom("missing name"))?
            .to_string();
        let note = match obj.get("note") {
            Some(Value::String(s)) => Some(s.clone()),
            _ => None,
        };
        Ok(Record { id, name, note })
    }
}

fn sample() -> Record {
    Record { id: 7, name: "seven".to_string(), note: None }
}

#[test]
fn boxed_round_trip() {
    let r = sample();
    let a = Json(r.clone()).pack().unwrap();
    assert_eq!(a.type_url, "s2/json");
    let back = Json::<Record>::unpack(a).unwrap();
    assert_eq!(back.0, r);
}

#[test]
fn boxed_round_trip_with_optional_field_present() {
    let r = Record { id: -1, name: "minus".to_string(), note: Some("kept".to_string()) };
    let back = Json::<Record>::unpack(Json(r.clone()).pack().unwrap()).unwrap();
    assert_eq!(back.0, r);
}

#[test]
fn boxed_unpack_rejects_unknown_tag() {
    let a = Any { type_url: "other/format".to_string(), value: b"{}".to_vec() };
    let r = Json::<Record>::unpack(a);
    match r {
        Err(ConversionError::JsonTypeUrlUnknown { type_url }) => {
            assert_eq!(type_url, "other/format");
        }
        _ => panic!("expected unknown tag error"),
    }
}

#[test]
fn boxed_unpack_rejects_shape_mismatch() {
    let a = Any { type_url: "s2/json".to_string(), value: b"[3]".to_vec() };
    let r = Json::<Record>::unpack(a);
    assert!(matches!(r, Err(ConversionError::Json { .. })));
}

#[test]
fn optional_boxed_lifting() {
    let w = pack_json_opt::<Record>(None).unwrap();
    assert!(w.is_none());
    assert!(unpack_json_opt::<Record>(None).unwrap().is_none());

    let r = sample();
    let w = pack_json_opt(Some(Json(r.clone()))).unwrap();
    assert!(w.is_some());
    let back = unpack_json_opt::<Record>(w).unwrap().unwrap();
    assert_eq!(back.0, r);
}
