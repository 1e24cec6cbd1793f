use renfield::json::Json;
use renfield::tools::schema::{set_description, Schema};
use renfield::tools::tool::{enum_schema, object_schema, Field};

fn s(x: &str) -> Json {
    Json::Str(x.to_string())
}

fn obj(entries: Vec<(&str, Json)>) -> Json {
    Json::Object(entries.into_iter().map(|(k, v)| (k.to_string(), v)).collect())
}

fn f32_schema() -> Json {
    obj(vec![
        ("type", s("number")),
        ("minimum", Json::Float((f32::MIN as f64).to_bits())),
        ("maximum", Json::Float((f32::MAX as f64).to_bits())),
    ])
}

#[test]
fn test_unit() {
    assert_eq!(
        enum_schema(vec![s("Variant0"), s("variant_1"), s("Variant2")]),
        obj(vec![("enum", Json::Array(vec![s("Variant0"), s("variant_1"), s("Variant2")]))])
    );
}

#[test]
fn test_unnamed() {
    assert_eq!(
        enum_schema(vec![<(i64, String, u8)>::schema(), s("Variant1")]),
        obj(vec![("enum", Json::Array(vec![<(i64, String, u8)>::schema(), s("Variant1")]))])
    );
}

#[test]
fn test_unnamed_nested() {
    let float_triple = renfield::tools::schema::build_tuple_schema(vec![i32::schema(), String::schema(), f32_schema()]);
    let child = enum_schema(vec![<(u8,)>::schema(), float_triple]);
    let parent = enum_schema(vec![child.clone(), <(String, char, bool)>::schema()]);
    assert_eq!(parent, obj(vec![("enum", Json::Array(vec![child, <(String, char, bool)>::schema()]))]));
}

#[test]
fn test_unnamed_field_attributes() {
    let float_triple = renfield::tools::schema::build_tuple_schema(vec![i32::schema(), String::schema(), f32_schema()]);
    let child = set_description(
        enum_schema(vec![u8::schema_with_meta(Some("hello world")), float_triple.clone()]),
        Some("description"),
    );
    let parent = set_description(
        enum_schema(vec![child, <(String, char, bool)>::schema()]),
        Some("description"),
    );
    assert_eq!(
        parent,
        obj(vec![
            (
                "enum",
                Json::Array(vec![
                    obj(vec![
                        ("enum", Json::Array(vec![u8::schema_with_meta(Some("hello world")), float_triple])),
                        ("description", s("description")),
                    ]),
                    <(String, char, bool)>::schema(),
                ]),
            ),
            ("description", s("description")),
        ])
    );
}

#[test]
fn test_empty_unnamed() {
    assert_eq!(enum_schema(vec![<()>::schema()]), obj(vec![("enum", Json::Array(vec![<()>::schema()]))]));
}

#[test]
fn test_named() {
    let child = object_schema(&vec![Field {
        name: "child_field".to_string(),
        schema: u8::schema(),
        description: None,
        required: true,
    }]);
    let field = object_schema(&vec![
        Field { name: "child_field0".to_string(), schema: u8::schema(), description: None, required: true },
        Field { name: "child_field1".to_string(), schema: String::schema(), description: None, required: true },
    ]);
    assert_eq!(
        enum_schema(vec![child.clone(), field]),
        obj(vec![(
            "enum",
            Json::Array(vec![
                child,
                obj(vec![
                    ("type", s("object")),
                    (
                        "properties",
                        obj(vec![("child_field0", u8::schema()), ("child_field1", String::schema())]),
                    ),
                    ("required", Json::Array(vec![s("child_field0"), s("child_field1")])),
                ]),
            ]),
        )])
    );
}
