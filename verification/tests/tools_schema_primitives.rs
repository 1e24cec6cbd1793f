use renfield::json::Json;
use renfield::tools::schema::Schema;

fn s(x: &str) -> Json {
    Json::Str(x.to_string())
}

fn integer(v: i128) -> Json {
    if v < 0 { Json::NegInt(v) } else { Json::PosInt(v as u128) }
}

fn obj(entries: Vec<(&str, Json)>) -> Json {
    Json::Object(entries.into_iter().map(|(k, v)| (k.to_string(), v)).collect())
}

#[test]
fn test_i8() {
    assert_eq!(
        i8::schema(),
        obj(vec![("type", s("integer")), ("minimum", integer(i8::MIN as i128)), ("maximum", integer(i8::MAX as i128))])
    );
}

#[test]
fn test_i8_array() {
    assert_eq!(
        <[i8]>::schema(),
        obj(vec![
            ("type", s("array")),
            ("items", obj(vec![("type", s("integer")), ("minimum", integer(i8::MIN as i128)), ("maximum", integer(i8::MAX as i128))])),
        ])
    );
}

#[test]
fn test_i16() {
    assert_eq!(
        i16::schema(),
        obj(vec![("type", s("integer")), ("minimum", integer(i16::MIN as i128)), ("maximum", integer(i16::MAX as i128))])
    );
}

#[test]
fn test_i16_array() {
    assert_eq!(
        <[i16]>::schema(),
        obj(vec![
            ("type", s("array")),
            ("items", obj(vec![("type", s("integer")), ("minimum", integer(i16::MIN as i128)), ("maximum", integer(i16::MAX as i128))])),
        ])
    );
}

#[test]
fn test_i32() {
    assert_eq!(
        i32::schema(),
        obj(vec![("type", s("integer")), ("minimum", integer(i32::MIN as i128)), ("maximum", integer(i32::MAX as i128))])
    );
}

#[test]
fn test_i32_array() {
    assert_eq!(
        <[i32]>::schema(),
        obj(vec![
            ("type", s("array")),
            ("items", obj(vec![("type", s("integer")), ("minimum", integer(i32::MIN as i128)), ("maximum", integer(i32::MAX as i128))])),
        ])
    );
}

#[test]
fn test_i64() {
    assert_eq!(
        i64::schema(),
        obj(vec![("type", s("integer")), ("minimum", integer(i64::MIN as i128)), ("maximum", integer(i64::MAX as i128))])
    );
}

#[test]
fn test_i64_array() {
    assert_eq!(
        <[i64]>::schema(),
        obj(vec![
            ("type", s("array")),
            ("items", obj(vec![("type", s("integer")), ("minimum", integer(i64::MIN as i128)), ("maximum", integer(i64::MAX as i128))])),
        ])
    );
}

#[test]
fn test_i128() {
    assert_eq!(
        i128::schema(),
        obj(vec![("type", s("integer")), ("minimum", integer(i128::MIN as i128)), ("maximum", integer(i128::MAX as i128))])
    );
}

#[test]
fn test_i128_array() {
    assert_eq!(
        <[i128]>::schema(),
        obj(vec![
            ("type", s("array")),
            ("items", obj(vec![("type", s("integer")), ("minimum", integer(i128::MIN as i128)), ("maximum", integer(i128::MAX as i128))])),
        ])
    );
}

#[test]
fn test_isize() {
    assert_eq!(
        isize::schema(),
        obj(vec![("type", s("integer")), ("minimum", integer(isize::MIN as i128)), ("maximum", integer(isize::MAX as i128))])
    );
}

#[test]
fn test_isize_array() {
    assert_eq!(
        <[isize]>::schema(),
        obj(vec![
            ("type", s("array")),
            ("items", obj(vec![("type", s("integer")), ("minimum", integer(isize::MIN as i128)), ("maximum", integer(isize::MAX as i128))])),
        ])
    );
}

#[test]
fn test_u8() {
    assert_eq!(
        u8::schema(),
        obj(vec![("type", s("integer")), ("minimum", integer(u8::MIN as i128)), ("maximum", integer(u8::MAX as i128))])
    );
}

#[test]
fn test_u8_array() {
    assert_eq!(
        <[u8]>::schema(),
        obj(vec![
            ("type", s("array")),
            ("items", obj(vec![("type", s("integer")), ("minimum", integer(u8::MIN as i128)), ("maximum", integer(u8::MAX as i128))])),
        ])
    );
}

#[test]
fn test_u16() {
    assert_eq!(
        u16::schema(),
        obj(vec![("type", s("integer")), ("minimum", integer(u16::MIN as i128)), ("maximum", integer(u16::MAX as i128))])
    );
}

#[test]
fn test_u16_array() {
    assert_eq!(
        <[u16]>::schema(),
        obj(vec![
            ("type", s("array")),
            ("items", obj(vec![("type", s("integer")), ("minimum", integer(u16::MIN as i128)), ("maximum", integer(u16::MAX as i128))])),
        ])
    );
}

#[test]
fn test_u32() {
    assert_eq!(
        u32::schema(),
        obj(vec![("type", s("integer")), ("minimum", integer(u32::MIN as i128)), ("maximum", integer(u32::MAX as i128))])
    );
}

#[test]
fn test_u32_array() {
    assert_eq!(
        <[u32]>::schema(),
        obj(vec![
            ("type", s("array")),
            ("items", obj(vec![("type", s("integer")), ("minimum", integer(u32::MIN as i128)), ("maximum", integer(u32::MAX as i128))])),
        ])
    );
}

#[test]
fn test_u64() {
    assert_eq!(
        u64::schema(),
        obj(vec![("type", s("integer")), ("minimum", integer(u64::MIN as i128)), ("maximum", integer(u64::MAX as i128))])
    );
}

#[test]
fn test_u64_array() {
    assert_eq!(
        <[u64]>::schema(),
        obj(vec![
            ("type", s("array")),
            ("items", obj(vec![("type", s("integer")), ("minimum", integer(u64::MIN as i128)), ("maximum", integer(u64::MAX as i128))])),
        ])
    );
}

#[test]
fn test_u128() {
    assert_eq!(
        u128::schema(),
        obj(vec![("type", s("integer")), ("minimum", integer(u128::MIN as i128)), ("maximum", Json::PosInt(u128::MAX))])
    );
}

#[test]
fn test_u128_array() {
    assert_eq!(
        <[u128]>::schema(),
        obj(vec![
            ("type", s("array")),
            ("items", obj(vec![("type", s("integer")), ("minimum", integer(u128::MIN as i128)), ("maximum", Json::PosInt(u128::MAX))])),
        ])
    );
}

#[test]
fn test_usize() {
    assert_eq!(
        usize::schema(),
        obj(vec![("type", s("integer")), ("minimum", integer(usize::MIN as i128)), ("maximum", integer(usize::MAX as i128))])
    );
}

#[test]
fn test_usize_array() {
    assert_eq!(
        <[usize]>::schema(),
        obj(vec![
            ("type", s("array")),
            ("items", obj(vec![("type", s("integer")), ("minimum", integer(usize::MIN as i128)), ("maximum", integer(usize::MAX as i128))])),
        ])
    );
}

#[test]
fn test_bool() {
    assert_eq!(bool::schema(), obj(vec![("type", s("boolean"))]));
}

#[test]
fn test_bool_array() {
    assert_eq!(<[bool]>::schema(), obj(vec![("type", s("array")), ("items", obj(vec![("type", s("boolean"))]))]));
}

#[test]
fn test_char() {
    assert_eq!(
        char::schema(),
        obj(vec![("type", s("string")), ("minLength", integer(1)), ("maxLength", integer(1))])
    );
}

#[test]
fn test_char_array() {
    assert_eq!(<[char]>::schema(), obj(vec![("type", s("array")), ("items", char::schema())]));
}
