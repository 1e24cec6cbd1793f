use renfield::json::Json;
use renfield::json_eq::json_equal;

fn s(x: &str) -> Json {
    Json::Str(x.to_string())
}

fn obj(entries: Vec<(&str, Json)>) -> Json {
    Json::Object(entries.into_iter().map(|(k, v)| (k.to_string(), v)).collect())
}

#[test]
fn test_object_key_order_does_not_matter() {
    let a = obj(vec![("type", s("string")), ("description", s("d"))]);
    let b = obj(vec![("description", s("d")), ("type", s("string"))]);
    assert_eq!(a, b);
    assert!(json_equal(&a, &b));
    let c = obj(vec![("type", s("string")), ("description", s("e"))]);
    assert_ne!(a, c);
    let d = obj(vec![("type", s("string"))]);
    assert_ne!(a, d);
    assert_ne!(d, a);
}

#[test]
fn test_object_last_entry_gives_the_value() {
    let a = obj(vec![("k", Json::PosInt(1)), ("k", Json::PosInt(2))]);
    assert_eq!(a, obj(vec![("k", Json::PosInt(2))]));
    assert_ne!(a, obj(vec![("k", Json::PosInt(1))]));
}

#[test]
fn test_arrays_keep_order() {
    let a = Json::Array(vec![Json::PosInt(1), Json::PosInt(2)]);
    let b = Json::Array(vec![Json::PosInt(2), Json::PosInt(1)]);
    assert_ne!(a, b);
    assert_eq!(a, Json::Array(vec![Json::PosInt(1), Json::NegInt(2)]));
}

#[test]
fn test_numbers() {
    assert_eq!(Json::Float(0.0f64.to_bits()), Json::Float((-0.0f64).to_bits()));
    assert_ne!(Json::Float(f64::NAN.to_bits()), Json::Float(f64::NAN.to_bits()));
    assert_ne!(Json::Float(1.0f64.to_bits()), Json::PosInt(1));
    assert_eq!(Json::NegInt(-3), Json::NegInt(-3));
    assert_ne!(Json::NegInt(-3), Json::PosInt(3));
    assert_ne!(Json::Null, Json::Bool(false));
}
