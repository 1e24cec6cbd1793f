use renfield::json::Json;
use renfield::tools::schema::{build_tuple_schema, set_description, Schema};
use renfield::tools::tool::{object_schema, unit_struct_schema, Field};

fn s(x: &str) -> Json {
    Json::Str(x.to_string())
}

fn obj(entries: Vec<(&str, Json)>) -> Json {
    Json::Object(entries.into_iter().map(|(k, v)| (k.to_string(), v)).collect())
}

fn names(xs: &[&str]) -> Json {
    Json::Array(xs.iter().map(|x| s(x)).collect())
}

fn field(name: &str, schema: Json, required: bool) -> Field {
    Field { name: name.to_string(), schema, description: None, required }
}

fn described(name: &str, schema: Json, desc: &str, required: bool) -> Field {
    Field { name: name.to_string(), schema, description: Some(desc.to_string()), required }
}

fn f32_schema() -> Json {
    obj(vec![
        ("type", s("number")),
        ("minimum", Json::Float((f32::MIN as f64).to_bits())),
        ("maximum", Json::Float((f32::MAX as f64).to_bits())),
    ])
}

#[test]
fn test_struct_basic() {
    let schema = object_schema(&vec![
        field("integer_type", i64::schema(), true),
        field("boolean_type", bool::schema(), true),
        field("numerical_type", f32_schema(), true),
    ]);
    assert_eq!(
        schema,
        obj(vec![
            ("type", s("object")),
            (
                "properties",
                obj(vec![
                    ("integer_type", i64::schema()),
                    ("boolean_type", bool::schema()),
                    ("numerical_type", f32_schema()),
                ]),
            ),
            ("required", names(&["integer_type", "boolean_type", "numerical_type"])),
        ])
    );
}

#[test]
fn test_struct_basic_nested() {
    let child = object_schema(&vec![
        field("child_0", obj(vec![("type", s("array")), ("items", f32_schema())]), true),
        field("child_2", i128::schema(), true),
        field("child_3", String::schema(), true),
    ]);
    let parent = object_schema(&vec![field("child", child.clone(), true), field("inner", String::schema(), true)]);
    assert_eq!(
        parent,
        obj(vec![
            ("type", s("object")),
            ("properties", obj(vec![("child", child), ("inner", String::schema())])),
            ("required", names(&["child", "inner"])),
        ])
    );
}

#[test]
fn test_struct_optional_field() {
    let schema = object_schema(&vec![
        field("bar", <Option<String>>::schema(), false),
        field("foo", String::schema(), false),
    ]);
    assert_eq!(
        schema,
        obj(vec![
            ("type", s("object")),
            ("properties", obj(vec![("bar", <Option<String>>::schema()), ("foo", String::schema())])),
        ])
    );
}

#[test]
fn test_struct_generic() {
    let foo = object_schema(&vec![field("bar", String::schema(), true)]);
    assert_eq!(
        foo,
        obj(vec![
            ("type", s("object")),
            ("properties", obj(vec![("bar", String::schema())])),
            ("required", names(&["bar"])),
        ])
    );
    let bar = object_schema(&vec![field("foo", <Option<i64>>::schema(), false)]);
    assert_eq!(
        bar,
        obj(vec![("type", s("object")), ("properties", obj(vec![("foo", i64::schema())]))])
    );
}

#[test]
fn test_struct_pointer_types() {
    let schema = object_schema(&vec![field("location", <&str>::schema(), true)]);
    assert_eq!(
        schema,
        obj(vec![
            ("type", s("object")),
            ("properties", obj(vec![("location", str::schema())])),
            ("required", names(&["location"])),
        ])
    );
}

#[test]
fn test_tuple_struct() {
    assert_eq!(
        <(i64, u32, char, String)>::schema(),
        obj(vec![
            ("type", s("array")),
            (
                "prefixItems",
                Json::Array(vec![i64::schema(), u32::schema(), char::schema(), String::schema()]),
            ),
        ])
    );
}

#[test]
fn test_tuple_struct_generics() {
    assert_eq!(
        <(&str, &String, String)>::schema(),
        obj(vec![
            ("type", s("array")),
            ("prefixItems", Json::Array(vec![str::schema(), String::schema(), String::schema()])),
        ])
    );
}

#[test]
fn test_struct_member_tuples() {
    let tuple_struct = <(i32, i32)>::schema();
    let tuple_child = build_tuple_schema(vec![f32_schema(), f32_schema()]);
    let parent = object_schema(&vec![
        field("tuple_struct", tuple_struct.clone(), true),
        field("tuple_child", tuple_child.clone(), true),
    ]);
    assert_eq!(
        parent,
        obj(vec![
            ("type", s("object")),
            ("properties", obj(vec![("tuple_struct", tuple_struct), ("tuple_child", tuple_child)])),
            ("required", names(&["tuple_struct", "tuple_child"])),
        ])
    );
}

#[test]
fn test_struct_unnamed_fields() {
    assert_eq!(<()>::schema(), obj(vec![("type", s("array")), ("maxLength", Json::PosInt(0))]));
    assert_eq!(
        i32::schema_with_meta(Some("hello")),
        set_description(i32::schema(), Some("hello"))
    );
    assert_eq!(
        <(i32, i64)>::schema(),
        obj(vec![("type", s("array")), ("prefixItems", Json::Array(vec![i32::schema(), i64::schema()]))])
    );
}

#[test]
fn test_struct_field_attributes() {
    let child = object_schema(&vec![field("CHILD-FIELD", u8::schema(), true)]);
    let parent = set_description(
        object_schema(&vec![
            field("CHILD", child, true),
            described("_other", i32::schema(), "description", true),
        ]),
        Some("description"),
    );
    assert_eq!(
        parent,
        obj(vec![
            ("type", s("object")),
            (
                "properties",
                obj(vec![
                    (
                        "CHILD",
                        obj(vec![
                            ("type", s("object")),
                            ("properties", obj(vec![("CHILD-FIELD", u8::schema())])),
                            ("required", names(&["CHILD-FIELD"])),
                        ]),
                    ),
                    ("_other", i32::schema_with_meta(Some("description"))),
                ]),
            ),
            ("required", names(&["CHILD", "_other"])),
            ("description", s("description")),
        ])
    );
}

#[test]
fn test_struct_container_attributes() {
    let schema = set_description(
        object_schema(&vec![field("my-child", i32::schema(), true), field("my-special-child", u64::schema(), true)]),
        Some("my description"),
    );
    assert_eq!(
        schema,
        obj(vec![
            ("type", s("object")),
            ("properties", obj(vec![("my-child", i32::schema()), ("my-special-child", u64::schema())])),
            ("required", names(&["my-child", "my-special-child"])),
            ("description", s("my description")),
        ])
    );
}

#[test]
fn test_overriding_attributes() {
    let schema = set_description(
        object_schema(&vec![
            described("child0", i32::schema(), "description", true),
            field("CHILD1", u64::schema(), true),
        ]),
        Some("description"),
    );
    assert_eq!(
        schema,
        obj(vec![
            ("type", s("object")),
            (
                "properties",
                obj(vec![("child0", i32::schema_with_meta(Some("description"))), ("CHILD1", u64::schema())]),
            ),
            ("required", names(&["child0", "CHILD1"])),
            ("description", s("description")),
        ])
    );
}

#[test]
fn tools_schema_struct_test_docstring_description() {
    assert_eq!(
        set_description(object_schema(&vec![]), Some("This is a description.")),
        obj(vec![
            ("type", s("object")),
            ("properties", obj(vec![])),
            ("description", s("This is a description.")),
        ])
    );
    assert_eq!(
        set_description(object_schema(&vec![]), Some("new description")),
        obj(vec![("type", s("object")), ("properties", obj(vec![])), ("description", s("new description"))])
    );
}

#[test]
fn test_repeated_field_name_replaces_property() {
    // Properties are inserted in order, so a later field of the same
    // name replaces the earlier one in place.
    let schema = object_schema(&vec![
        field("a", u8::schema(), true),
        field("b", bool::schema(), false),
        field("a", String::schema(), true),
    ]);
    assert_eq!(
        schema,
        obj(vec![
            ("type", s("object")),
            ("properties", obj(vec![("a", String::schema()), ("b", bool::schema())])),
            ("required", names(&["a", "a"])),
        ])
    );
}

#[test]
fn test_unit_struct() {
    assert_eq!(
        unit_struct_schema(),
        obj(vec![
            ("type", s("object")),
            ("properties", obj(vec![])),
            ("additionalProperties", Json::Bool(false)),
        ])
    );
}
