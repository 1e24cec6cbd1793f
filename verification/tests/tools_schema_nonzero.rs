use renfield::json::Json;
use renfield::tools::schema::{
    nonzero_i128_schema, nonzero_i16_schema, nonzero_i32_schema, nonzero_i64_schema, nonzero_i8_schema,
    nonzero_isize_schema, nonzero_u128_schema, nonzero_u16_schema, nonzero_u32_schema, nonzero_u64_schema,
    nonzero_u8_schema, nonzero_usize_schema,
};

fn s(x: &str) -> Json {
    Json::Str(x.to_string())
}

fn integer(v: i128) -> Json {
    if v < 0 { Json::NegInt(v) } else { Json::PosInt(v as u128) }
}

fn obj(entries: Vec<(&str, Json)>) -> Json {
    Json::Object(entries.into_iter().map(|(k, v)| (k.to_string(), v)).collect())
}

#[test]
fn test_nonzero_i8() {
    assert_eq!(
        nonzero_i8_schema(),
        obj(vec![
            ("type", s("integer")),
            ("not", obj(vec![("const", integer(0))])),
            ("maximum", integer(core::num::NonZeroI8::MAX.get() as i128)),
            ("minimum", integer(core::num::NonZeroI8::MIN.get() as i128)),
        ])
    );
}

#[test]
fn test_nonzero_i16() {
    assert_eq!(
        nonzero_i16_schema(),
        obj(vec![
            ("type", s("integer")),
            ("not", obj(vec![("const", integer(0))])),
            ("maximum", integer(core::num::NonZeroI16::MAX.get() as i128)),
            ("minimum", integer(core::num::NonZeroI16::MIN.get() as i128)),
        ])
    );
}

#[test]
fn test_nonzero_i32() {
    assert_eq!(
        nonzero_i32_schema(),
        obj(vec![
            ("type", s("integer")),
            ("not", obj(vec![("const", integer(0))])),
            ("maximum", integer(core::num::NonZeroI32::MAX.get() as i128)),
            ("minimum", integer(core::num::NonZeroI32::MIN.get() as i128)),
        ])
    );
}

#[test]
fn test_nonzero_i64() {
    assert_eq!(
        nonzero_i64_schema(),
        obj(vec![
            ("type", s("integer")),
            ("not", obj(vec![("const", integer(0))])),
            ("maximum", integer(core::num::NonZeroI64::MAX.get() as i128)),
            ("minimum", integer(core::num::NonZeroI64::MIN.get() as i128)),
        ])
    );
}

#[test]
fn test_nonzero_i128() {
    assert_eq!(
        nonzero_i128_schema(),
        obj(vec![
            ("type", s("integer")),
            ("not", obj(vec![("const", integer(0))])),
            ("maximum", integer(core::num::NonZeroI128::MAX.get() as i128)),
            ("minimum", integer(core::num::NonZeroI128::MIN.get() as i128)),
        ])
    );
}

#[test]
fn test_nonzero_isize() {
    assert_eq!(
        nonzero_isize_schema(),
        obj(vec![
            ("type", s("integer")),
            ("not", obj(vec![("const", integer(0))])),
            ("maximum", integer(core::num::NonZeroIsize::MAX.get() as i128)),
            ("minimum", integer(core::num::NonZeroIsize::MIN.get() as i128)),
        ])
    );
}

#[test]
fn test_nonzero_u8() {
    assert_eq!(
        nonzero_u8_schema(),
        obj(vec![
            ("type", s("integer")),
            ("not", obj(vec![("const", integer(0))])),
            ("maximum", integer(core::num::NonZeroU8::MAX.get() as i128)),
            ("minimum", integer(core::num::NonZeroU8::MIN.get() as i128)),
        ])
    );
}

#[test]
fn test_nonzero_u16() {
    assert_eq!(
        nonzero_u16_schema(),
        obj(vec![
            ("type", s("integer")),
            ("not", obj(vec![("const", integer(0))])),
            ("maximum", integer(core::num::NonZeroU16::MAX.get() as i128)),
            ("minimum", integer(core::num::NonZeroU16::MIN.get() as i128)),
        ])
    );
}

#[test]
fn test_nonzero_u32() {
    assert_eq!(
        nonzero_u32_schema(),
        obj(vec![
            ("type", s("integer")),
            ("not", obj(vec![("const", integer(0))])),
            ("maximum", integer(core::num::NonZeroU32::MAX.get() as i128)),
            ("minimum", integer(core::num::NonZeroU32::MIN.get() as i128)),
        ])
    );
}

#[test]
fn test_nonzero_u64() {
    assert_eq!(
        nonzero_u64_schema(),
        obj(vec![
            ("type", s("integer")),
            ("not", obj(vec![("const", integer(0))])),
            ("maximum", integer(core::num::NonZeroU64::MAX.get() as i128)),
            ("minimum", integer(core::num::NonZeroU64::MIN.get() as i128)),
        ])
    );
}

#[test]
fn test_nonzero_u128() {
    assert_eq!(
        nonzero_u128_schema(),
        obj(vec![
            ("type", s("integer")),
            ("not", obj(vec![("const", integer(0))])),
            ("maximum", Json::PosInt(core::num::NonZeroU128::MAX.get())),
            ("minimum", integer(core::num::NonZeroU128::MIN.get() as i128)),
        ])
    );
}

#[test]
fn test_nonzero_usize() {
    assert_eq!(
        nonzero_usize_schema(),
        obj(vec![
            ("type", s("integer")),
            ("not", obj(vec![("const", integer(0))])),
            ("maximum", integer(core::num::NonZeroUsize::MAX.get() as i128)),
            ("minimum", integer(core::num::NonZeroUsize::MIN.get() as i128)),
        ])
    );
}
