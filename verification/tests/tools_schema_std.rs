use renfield::json::Json;
use renfield::tools::schema::Schema;

fn s(x: &str) -> Json {
    Json::Str(x.to_string())
}

fn integer(v: i128) -> Json {
    if v < 0 { Json::NegInt(v) } else { Json::PosInt(v as u128) }
}

fn obj(entries: Vec<(&str, Json)>) -> Json {
    Json::Object(entries.into_iter().map(|(k, v)| (k.to_string(), v)).collect())
}

#[test]
fn test_string() {
    assert_eq!(String::schema(), obj(vec![("type", s("string"))]));
}

#[test]
fn test_string_array() {
    assert_eq!(<[String]>::schema(), obj(vec![("type", s("array")), ("items", obj(vec![("type", s("string"))]))]));
}

#[test]
fn test_vector() {
    assert_eq!(
        <Vec<String>>::schema(),
        obj(vec![("type", s("array")), ("items", obj(vec![("type", s("string"))]))])
    );
    assert_eq!(
        <Vec<usize>>::schema(),
        obj(vec![
            ("type", s("array")),
            (
                "items",
                obj(vec![("type", s("integer")), ("minimum", integer(usize::MIN as i128)), ("maximum", integer(usize::MAX as i128))]),
            ),
        ])
    );
    assert_eq!(
        <Vec<Vec<i32>>>::schema(),
        obj(vec![
            ("type", s("array")),
            (
                "items",
                obj(vec![
                    ("type", s("array")),
                    (
                        "items",
                        obj(vec![("type", s("integer")), ("minimum", integer(i32::MIN as i128)), ("maximum", integer(i32::MAX as i128))]),
                    ),
                ]),
            ),
        ])
    );
}

#[test]
fn test_option() {
    assert_eq!(<Option<i32>>::schema(), i32::schema());
    assert_eq!(<Option<String>>::schema(), String::schema());
    assert_eq!(<Option<Vec<i32>>>::schema(), <Vec<i32>>::schema());
    assert_eq!(<Option<Option<i64>>>::schema(), i64::schema());
}

#[test]
fn test_fixed_arrays_and_tuples() {
    assert_eq!(
        <[bool; 3]>::schema(),
        obj(vec![
            ("type", s("array")),
            ("items", bool::schema()),
            ("minItems", integer(3)),
            ("maxItems", integer(3)),
        ])
    );
    assert_eq!(
        <(i8, String)>::schema(),
        obj(vec![("type", s("array")), ("prefixItems", Json::Array(vec![i8::schema(), String::schema()]))])
    );
    assert_eq!(<()>::schema(), obj(vec![("type", s("array")), ("maxLength", integer(0))]));
    assert_eq!(<&str>::schema(), String::schema());
    assert_eq!(<&u8>::schema(), u8::schema());
}

#[test]
fn test_schema_with_meta() {
    assert_eq!(
        u8::schema_with_meta(Some("a byte")),
        obj(vec![("type", s("integer")), ("minimum", integer(0)), ("maximum", integer(255)), ("description", s("a byte"))])
    );
    assert_eq!(u8::schema_with_meta(None), u8::schema());
    assert_eq!(
        String::schema_with_meta(Some("x")),
        obj(vec![("type", s("string")), ("description", s("x"))])
    );
}
