//! JSON schemas of Rust types.
//!
//! [`Schema::schema`] describes the values of a type by a JSON schema
//! (see the [JSON schema specification](https://json-schema.org/)).
//! Primitive types, `String`, `Vec`, `Option`, slices, arrays and
//! tuples have schemas here; `Option<T>` has the schema of `T` (a
//! field of an optional type is left out of an object's `required`
//! list by whoever builds that object schema).

use vstd::prelude::*;
use crate::json::{
    is_unique_object, lemma_lookup_unique, entries_view, insert_entry, keys_unique, lemma_object_insert, lookup, items_view, lemma_array_view, lemma_object_view, object_insert, string,
    text, Json, JsonSpec,
};

verus! {

// ---------------------------------------------------------------------
// Schema documents
// ---------------------------------------------------------------------

/// An object with the given entries.
pub open spec fn obj(entries: Seq<(Seq<char>, JsonSpec)>) -> JsonSpec {
    JsonSpec::Object(entries)
}

/// The schema of integers from `min` to `max`.
pub open spec fn integer_schema(min: int, max: int) -> JsonSpec {
    obj(
        seq![
            ("type"@, JsonSpec::Str("integer"@)),
            ("minimum"@, JsonSpec::Int(min)),
            ("maximum"@, JsonSpec::Int(max)),
        ],
    )
}

/// The schema of arrays whose items have the schema `item`.
pub open spec fn array_schema(item: JsonSpec) -> JsonSpec {
    obj(seq![("type"@, JsonSpec::Str("array"@)), ("items"@, item)])
}

/// The schema of arrays of exactly `n` items, each with the schema
/// `item`.
pub open spec fn fixed_array_schema(item: JsonSpec, n: int) -> JsonSpec {
    obj(
        seq![
            ("type"@, JsonSpec::Str("array"@)),
            ("items"@, item),
            ("minItems"@, JsonSpec::Int(n)),
            ("maxItems"@, JsonSpec::Int(n)),
        ],
    )
}

/// The schema of tuples whose items have the schemas `items`, in
/// order.
pub open spec fn tuple_schema(items: Seq<JsonSpec>) -> JsonSpec {
    obj(seq![("type"@, JsonSpec::Str("array"@)), ("prefixItems"@, JsonSpec::Array(items))])
}

/// The schema of a one-item tuple whose item has the schema `item`.
pub open spec fn single_schema(item: JsonSpec) -> JsonSpec {
    obj(
        seq![
            ("type"@, JsonSpec::Str("array"@)),
            ("items"@, JsonSpec::Array(seq![item])),
            ("minItems"@, JsonSpec::Int(1)),
            ("maxItems"@, JsonSpec::Int(1)),
        ],
    )
}

/// The schema of a string.
pub open spec fn string_schema() -> JsonSpec {
    obj(seq![("type"@, JsonSpec::Str("string"@))])
}

/// The schema of a boolean.
pub open spec fn boolean_schema() -> JsonSpec {
    obj(seq![("type"@, JsonSpec::Str("boolean"@))])
}

/// The schema of a single character: a string of length one.
pub open spec fn char_schema() -> JsonSpec {
    obj(
        seq![
            ("type"@, JsonSpec::Str("string"@)),
            ("minLength"@, JsonSpec::Int(1)),
            ("maxLength"@, JsonSpec::Int(1)),
        ],
    )
}

/// The schema of the unit type: an empty array.
pub open spec fn unit_schema() -> JsonSpec {
    obj(seq![("type"@, JsonSpec::Str("array"@)), ("maxLength"@, JsonSpec::Int(0))])
}

/// `schema` with a `description` entry set to `desc`, when there is a
/// description and the schema is an object; `schema` itself otherwise.
pub open spec fn with_description(schema: JsonSpec, desc: Option<Seq<char>>) -> JsonSpec {
    match (schema, desc) {
        (JsonSpec::Object(entries), Some(d)) => JsonSpec::Object(
            object_insert(entries, "description"@, JsonSpec::Str(d)),
        ),
        _ => schema,
    }
}

/// The meaning of an optional string argument.
pub open spec fn opt_str(s: Option<&str>) -> Option<Seq<char>> {
    match s {
        Some(d) => Some(d@),
        None => None,
    }
}

// ---------------------------------------------------------------------
// Building schema documents
// ---------------------------------------------------------------------

pub(crate) fn entry(k: &str, v: Json) -> (r: (String, Json))
    ensures
        r.0@ == k@,
        r.1 == v,
{
    (text(k), v)
}

pub(crate) fn object2(k0: &str, v0: Json, k1: &str, v1: Json) -> (r: Json)
    ensures
        r@ == obj(seq![(k0@, v0@), (k1@, v1@)]),
        k0@ != k1@ ==> is_unique_object(r@),
{
    let es = vec![entry(k0, v0), entry(k1, v1)];
    proof {
        lemma_object_view(es);
        assert(entries_view(es@) =~= seq![(k0@, v0@), (k1@, v1@)]);
    }
    Json::Object(es)
}

pub(crate) fn object3(k0: &str, v0: Json, k1: &str, v1: Json, k2: &str, v2: Json) -> (r: Json)
    ensures
        r@ == obj(seq![(k0@, v0@), (k1@, v1@), (k2@, v2@)]),
        k0@ != k1@ && k0@ != k2@ && k1@ != k2@ ==> is_unique_object(r@),
{
    let es = vec![entry(k0, v0), entry(k1, v1), entry(k2, v2)];
    proof {
        lemma_object_view(es);
        assert(entries_view(es@) =~= seq![(k0@, v0@), (k1@, v1@), (k2@, v2@)]);
    }
    Json::Object(es)
}

pub(crate) fn object4(k0: &str, v0: Json, k1: &str, v1: Json, k2: &str, v2: Json, k3: &str, v3: Json) -> (r:
    Json)
    ensures
        r@ == obj(seq![(k0@, v0@), (k1@, v1@), (k2@, v2@), (k3@, v3@)]),
        k0@ != k1@ && k0@ != k2@ && k0@ != k3@ && k1@ != k2@ && k1@ != k3@ && k2@ != k3@ ==> is_unique_object(
            r@,
        ),
{
    let es = vec![entry(k0, v0), entry(k1, v1), entry(k2, v2), entry(k3, v3)];
    proof {
        lemma_object_view(es);
        assert(entries_view(es@) =~= seq![(k0@, v0@), (k1@, v1@), (k2@, v2@), (k3@, v3@)]);
    }
    Json::Object(es)
}

/// Builds the schema of integers from `min` to `max`.
pub fn build_integer_schema(min: Json, max: Json) -> (r: Json)
    ensures
        r@ == obj(seq![("type"@, JsonSpec::Str("integer"@)), ("minimum"@, min@), ("maximum"@, max@)]),
        is_unique_object(r@),
{
    proof {
        reveal_strlit("type");
        reveal_strlit("minimum");
        reveal_strlit("maximum");
        assert("minimum"@[1] != "maximum"@[1]);
    }
    object3("type", string("integer"), "minimum", min, "maximum", max)
}

/// Builds the schema of arrays whose items have the schema `item`.
pub fn build_array_schema(item: Json) -> (r: Json)
    ensures
        r@ == array_schema(item@),
        is_unique_object(r@),
{
    proof {
        reveal_strlit("type");
        reveal_strlit("items");
        assert("type"@[0] != "items"@[0]);
    }
    object2("type", string("array"), "items", item)
}

/// Builds the schema of arrays of exactly `n` items.
pub fn build_fixed_array_schema(item: Json, n: u128) -> (r: Json)
    ensures
        r@ == fixed_array_schema(item@, n as int),
        is_unique_object(r@),
{
    proof {
        reveal_strlit("type");
        reveal_strlit("items");
        reveal_strlit("minItems");
        reveal_strlit("maxItems");
        assert("minItems"@[1] != "maxItems"@[1]);
        assert("type"@[0] != "items"@[0] && "type"@[0] != "minItems"@[0] && "type"@[0] != "maxItems"@[0]);
        assert("items"@[0] != "minItems"@[0] && "items"@[0] != "maxItems"@[0]);
    }
    object4(
        "type",
        string("array"),
        "items",
        item,
        "minItems",
        Json::PosInt(n),
        "maxItems",
        Json::PosInt(n),
    )
}

/// Builds the schema of tuples whose items have the given schemas.
pub fn build_tuple_schema(items: Vec<Json>) -> (r: Json)
    ensures
        r@ == tuple_schema(items_view(items@)),
        is_unique_object(r@),
{
    proof {
        lemma_array_view(items);
    }
    proof {
        reveal_strlit("type");
        reveal_strlit("prefixItems");
        assert("type"@[0] != "prefixItems"@[0]);
    }
    object2("type", string("array"), "prefixItems", Json::Array(items))
}

/// Sets the `description` entry of an object schema; other schemas
/// are returned as they are.
pub fn set_description(schema: Json, desc: Option<&str>) -> (r: Json)
    ensures
        r@ == with_description(schema@, opt_str(desc)),
        is_unique_object(schema@) ==> is_unique_object(r@),
{
    match desc {
        None => schema,
        Some(d) => match schema {
            Json::Object(entries) => {
                let mut entries = entries;
                proof {
                    lemma_object_view(entries);
                }
                let ghost before = entries_view(entries@);
                insert_entry(&mut entries, text("description"), string(d));
                proof {
                    lemma_object_view(entries);
                    lemma_object_insert(before, "description"@, JsonSpec::Str(d@));
                }
                Json::Object(entries)
            },
            other => other,
        },
    }
}

// ---------------------------------------------------------------------
// The Schema trait
// ---------------------------------------------------------------------

/// Generate a JSON schema for an arbitrary type.
///
/// See the [JSON schema specification](https://json-schema.org/).
pub trait Schema {
    /// The schema of the type.
    spec fn spec_schema() -> JsonSpec;

    /// Generate a JSON schema object for the type.
    fn schema() -> (r: Json)
        ensures
            r@ == Self::spec_schema(),
    ;

    /// Generate a JSON schema with additional metadata.
    ///
    /// Same as [`schema`](Schema::schema), but with a `description`
    /// entry set to `desc` when `desc` is given and the schema is an
    /// object.
    fn schema_with_meta(desc: Option<&str>) -> (r: Json)
        ensures
            r@ == with_description(Self::spec_schema(), opt_str(desc)),
    {
        set_description(Self::schema(), desc)
    }
}

impl Schema for i8 {
    open spec fn spec_schema() -> JsonSpec {
        integer_schema(i8::MIN as int, i8::MAX as int)
    }

    fn schema() -> (r: Json) {
        build_integer_schema(Json::NegInt(i8::MIN as i128), Json::PosInt(i8::MAX as u128))
    }
}

impl Schema for i16 {
    open spec fn spec_schema() -> JsonSpec {
        integer_schema(i16::MIN as int, i16::MAX as int)
    }

    fn schema() -> (r: Json) {
        build_integer_schema(Json::NegInt(i16::MIN as i128), Json::PosInt(i16::MAX as u128))
    }
}

impl Schema for i32 {
    open spec fn spec_schema() -> JsonSpec {
        integer_schema(i32::MIN as int, i32::MAX as int)
    }

    fn schema() -> (r: Json) {
        build_integer_schema(Json::NegInt(i32::MIN as i128), Json::PosInt(i32::MAX as u128))
    }
}

impl Schema for i64 {
    open spec fn spec_schema() -> JsonSpec {
        integer_schema(i64::MIN as int, i64::MAX as int)
    }

    fn schema() -> (r: Json) {
        build_integer_schema(Json::NegInt(i64::MIN as i128), Json::PosInt(i64::MAX as u128))
    }
}

impl Schema for i128 {
    open spec fn spec_schema() -> JsonSpec {
        integer_schema(i128::MIN as int, i128::MAX as int)
    }

    fn schema() -> (r: Json) {
        build_integer_schema(Json::NegInt(i128::MIN as i128), Json::PosInt(i128::MAX as u128))
    }
}

impl Schema for isize {
    open spec fn spec_schema() -> JsonSpec {
        integer_schema(isize::MIN as int, isize::MAX as int)
    }

    fn schema() -> (r: Json) {
        build_integer_schema(Json::NegInt(isize::MIN as i128), Json::PosInt(isize::MAX as u128))
    }
}

impl Schema for u8 {
    open spec fn spec_schema() -> JsonSpec {
        integer_schema(u8::MIN as int, u8::MAX as int)
    }

    fn schema() -> (r: Json) {
        build_integer_schema(Json::PosInt(u8::MIN as u128), Json::PosInt(u8::MAX as u128))
    }
}

impl Schema for u16 {
    open spec fn spec_schema() -> JsonSpec {
        integer_schema(u16::MIN as int, u16::MAX as int)
    }

    fn schema() -> (r: Json) {
        build_integer_schema(Json::PosInt(u16::MIN as u128), Json::PosInt(u16::MAX as u128))
    }
}

impl Schema for u32 {
    open spec fn spec_schema() -> JsonSpec {
        integer_schema(u32::MIN as int, u32::MAX as int)
    }

    fn schema() -> (r: Json) {
        build_integer_schema(Json::PosInt(u32::MIN as u128), Json::PosInt(u32::MAX as u128))
    }
}

impl Schema for u64 {
    open spec fn spec_schema() -> JsonSpec {
        integer_schema(u64::MIN as int, u64::MAX as int)
    }

    fn schema() -> (r: Json) {
        build_integer_schema(Json::PosInt(u64::MIN as u128), Json::PosInt(u64::MAX as u128))
    }
}

impl Schema for u128 {
    open spec fn spec_schema() -> JsonSpec {
        integer_schema(u128::MIN as int, u128::MAX as int)
    }

    fn schema() -> (r: Json) {
        build_integer_schema(Json::PosInt(u128::MIN as u128), Json::PosInt(u128::MAX as u128))
    }
}

impl Schema for usize {
    open spec fn spec_schema() -> JsonSpec {
        integer_schema(usize::MIN as int, usize::MAX as int)
    }

    fn schema() -> (r: Json) {
        build_integer_schema(Json::PosInt(usize::MIN as u128), Json::PosInt(usize::MAX as u128))
    }
}

impl Schema for bool {
    open spec fn spec_schema() -> JsonSpec {
        boolean_schema()
    }

    fn schema() -> (r: Json) {
        let es = vec![entry("type", string("boolean"))];
        proof {
            lemma_object_view(es);
            assert(entries_view(es@) =~= seq![("type"@, JsonSpec::Str("boolean"@))]);
        }
        Json::Object(es)
    }
}

impl Schema for String {
    open spec fn spec_schema() -> JsonSpec {
        string_schema()
    }

    fn schema() -> (r: Json) {
        let es = vec![entry("type", string("string"))];
        proof {
            lemma_object_view(es);
            assert(entries_view(es@) =~= seq![("type"@, JsonSpec::Str("string"@))]);
        }
        Json::Object(es)
    }
}

impl<T: Schema> Schema for Vec<T> {
    open spec fn spec_schema() -> JsonSpec {
        array_schema(T::spec_schema())
    }

    fn schema() -> (r: Json) {
        build_array_schema(T::schema())
    }
}

impl<T: Schema> Schema for Option<T> {
    open spec fn spec_schema() -> JsonSpec {
        T::spec_schema()
    }

    fn schema() -> (r: Json) {
        T::schema()
    }
}

impl<T: Schema + ?Sized> Schema for &T {
    open spec fn spec_schema() -> JsonSpec {
        T::spec_schema()
    }

    fn schema() -> (r: Json) {
        T::schema()
    }
}

impl<T: Schema> Schema for [T] {
    open spec fn spec_schema() -> JsonSpec {
        <Vec<T> as Schema>::spec_schema()
    }

    fn schema() -> (r: Json) {
        <Vec<T> as Schema>::schema()
    }
}

impl Schema for str {
    open spec fn spec_schema() -> JsonSpec {
        <String as Schema>::spec_schema()
    }

    fn schema() -> (r: Json) {
        <String as Schema>::schema()
    }
}

impl Schema for char {
    open spec fn spec_schema() -> JsonSpec {
        char_schema()
    }

    fn schema() -> (r: Json) {
        object3("type", string("string"), "minLength", Json::PosInt(1), "maxLength", Json::PosInt(1))
    }
}

impl Schema for () {
    open spec fn spec_schema() -> JsonSpec {
        unit_schema()
    }

    fn schema() -> (r: Json) {
        object2("type", string("array"), "maxLength", Json::PosInt(0))
    }
}

impl<T: Schema> Schema for (T,) {
    open spec fn spec_schema() -> JsonSpec {
        single_schema(T::spec_schema())
    }

    fn schema() -> (r: Json) {
        let item = T::schema();
        let items = vec![item];
        proof {
            lemma_array_view(items);
            assert(items_view(items@) =~= seq![item@]);
        }
        object4(
            "type",
            string("array"),
            "items",
            Json::Array(items),
            "minItems",
            Json::PosInt(1),
            "maxItems",
            Json::PosInt(1),
        )
    }
}

impl<T0: Schema, T1: Schema> Schema for (T0, T1) {
    open spec fn spec_schema() -> JsonSpec {
        tuple_schema(seq![T0::spec_schema(), T1::spec_schema()])
    }

    fn schema() -> (r: Json) {
        let s0 = T0::schema();
        let s1 = T1::schema();
        let ghost g = seq![s0@, s1@];
        let items = vec![s0, s1];
        assert(items_view(items@) =~= g);
        build_tuple_schema(items)
    }
}

impl<T0: Schema, T1: Schema, T2: Schema> Schema for (T0, T1, T2) {
    open spec fn spec_schema() -> JsonSpec {
        tuple_schema(seq![T0::spec_schema(), T1::spec_schema(), T2::spec_schema()])
    }

    fn schema() -> (r: Json) {
        let s0 = T0::schema();
        let s1 = T1::schema();
        let s2 = T2::schema();
        let ghost g = seq![s0@, s1@, s2@];
        let items = vec![s0, s1, s2];
        assert(items_view(items@) =~= g);
        build_tuple_schema(items)
    }
}

impl<T0: Schema, T1: Schema, T2: Schema, T3: Schema> Schema for (T0, T1, T2, T3) {
    open spec fn spec_schema() -> JsonSpec {
        tuple_schema(seq![T0::spec_schema(), T1::spec_schema(), T2::spec_schema(), T3::spec_schema()])
    }

    fn schema() -> (r: Json) {
        let s0 = T0::schema();
        let s1 = T1::schema();
        let s2 = T2::schema();
        let s3 = T3::schema();
        let ghost g = seq![s0@, s1@, s2@, s3@];
        let items = vec![s0, s1, s2, s3];
        assert(items_view(items@) =~= g);
        build_tuple_schema(items)
    }
}

impl<T0: Schema, T1: Schema, T2: Schema, T3: Schema, T4: Schema> Schema for (T0, T1, T2, T3, T4) {
    open spec fn spec_schema() -> JsonSpec {
        tuple_schema(seq![T0::spec_schema(), T1::spec_schema(), T2::spec_schema(), T3::spec_schema(), T4::spec_schema()])
    }

    fn schema() -> (r: Json) {
        let s0 = T0::schema();
        let s1 = T1::schema();
        let s2 = T2::schema();
        let s3 = T3::schema();
        let s4 = T4::schema();
        let ghost g = seq![s0@, s1@, s2@, s3@, s4@];
        let items = vec![s0, s1, s2, s3, s4];
        assert(items_view(items@) =~= g);
        build_tuple_schema(items)
    }
}

impl<T0: Schema, T1: Schema, T2: Schema, T3: Schema, T4: Schema, T5: Schema> Schema for (T0, T1, T2, T3, T4, T5) {
    open spec fn spec_schema() -> JsonSpec {
        tuple_schema(seq![T0::spec_schema(), T1::spec_schema(), T2::spec_schema(), T3::spec_schema(), T4::spec_schema(), T5::spec_schema()])
    }

    fn schema() -> (r: Json) {
        let s0 = T0::schema();
        let s1 = T1::schema();
        let s2 = T2::schema();
        let s3 = T3::schema();
        let s4 = T4::schema();
        let s5 = T5::schema();
        let ghost g = seq![s0@, s1@, s2@, s3@, s4@, s5@];
        let items = vec![s0, s1, s2, s3, s4, s5];
        assert(items_view(items@) =~= g);
        build_tuple_schema(items)
    }
}

impl<T0: Schema, T1: Schema, T2: Schema, T3: Schema, T4: Schema, T5: Schema, T6: Schema> Schema for (T0, T1, T2, T3, T4, T5, T6) {
    open spec fn spec_schema() -> JsonSpec {
        tuple_schema(seq![T0::spec_schema(), T1::spec_schema(), T2::spec_schema(), T3::spec_schema(), T4::spec_schema(), T5::spec_schema(), T6::spec_schema()])
    }

    fn schema() -> (r: Json) {
        let s0 = T0::schema();
        let s1 = T1::schema();
        let s2 = T2::schema();
        let s3 = T3::schema();
        let s4 = T4::schema();
        let s5 = T5::schema();
        let s6 = T6::schema();
        let ghost g = seq![s0@, s1@, s2@, s3@, s4@, s5@, s6@];
        let items = vec![s0, s1, s2, s3, s4, s5, s6];
        assert(items_view(items@) =~= g);
        build_tuple_schema(items)
    }
}

impl<T0: Schema, T1: Schema, T2: Schema, T3: Schema, T4: Schema, T5: Schema, T6: Schema, T7: Schema> Schema for (T0, T1, T2, T3, T4, T5, T6, T7) {
    open spec fn spec_schema() -> JsonSpec {
        tuple_schema(seq![T0::spec_schema(), T1::spec_schema(), T2::spec_schema(), T3::spec_schema(), T4::spec_schema(), T5::spec_schema(), T6::spec_schema(), T7::spec_schema()])
    }

    fn schema() -> (r: Json) {
        let s0 = T0::schema();
        let s1 = T1::schema();
        let s2 = T2::schema();
        let s3 = T3::schema();
        let s4 = T4::schema();
        let s5 = T5::schema();
        let s6 = T6::schema();
        let s7 = T7::schema();
        let ghost g = seq![s0@, s1@, s2@, s3@, s4@, s5@, s6@, s7@];
        let items = vec![s0, s1, s2, s3, s4, s5, s6, s7];
        assert(items_view(items@) =~= g);
        build_tuple_schema(items)
    }
}

impl<T0: Schema, T1: Schema, T2: Schema, T3: Schema, T4: Schema, T5: Schema, T6: Schema, T7: Schema, T8: Schema> Schema for (T0, T1, T2, T3, T4, T5, T6, T7, T8) {
    open spec fn spec_schema() -> JsonSpec {
        tuple_schema(seq![T0::spec_schema(), T1::spec_schema(), T2::spec_schema(), T3::spec_schema(), T4::spec_schema(), T5::spec_schema(), T6::spec_schema(), T7::spec_schema(), T8::spec_schema()])
    }

    fn schema() -> (r: Json) {
        let s0 = T0::schema();
        let s1 = T1::schema();
        let s2 = T2::schema();
        let s3 = T3::schema();
        let s4 = T4::schema();
        let s5 = T5::schema();
        let s6 = T6::schema();
        let s7 = T7::schema();
        let s8 = T8::schema();
        let ghost g = seq![s0@, s1@, s2@, s3@, s4@, s5@, s6@, s7@, s8@];
        let items = vec![s0, s1, s2, s3, s4, s5, s6, s7, s8];
        assert(items_view(items@) =~= g);
        build_tuple_schema(items)
    }
}

impl<T0: Schema, T1: Schema, T2: Schema, T3: Schema, T4: Schema, T5: Schema, T6: Schema, T7: Schema, T8: Schema, T9: Schema> Schema for (T0, T1, T2, T3, T4, T5, T6, T7, T8, T9) {
    open spec fn spec_schema() -> JsonSpec {
        tuple_schema(seq![T0::spec_schema(), T1::spec_schema(), T2::spec_schema(), T3::spec_schema(), T4::spec_schema(), T5::spec_schema(), T6::spec_schema(), T7::spec_schema(), T8::spec_schema(), T9::spec_schema()])
    }

    fn schema() -> (r: Json) {
        let s0 = T0::schema();
        let s1 = T1::schema();
        let s2 = T2::schema();
        let s3 = T3::schema();
        let s4 = T4::schema();
        let s5 = T5::schema();
        let s6 = T6::schema();
        let s7 = T7::schema();
        let s8 = T8::schema();
        let s9 = T9::schema();
        let ghost g = seq![s0@, s1@, s2@, s3@, s4@, s5@, s6@, s7@, s8@, s9@];
        let items = vec![s0, s1, s2, s3, s4, s5, s6, s7, s8, s9];
        assert(items_view(items@) =~= g);
        build_tuple_schema(items)
    }
}

impl<T0: Schema, T1: Schema, T2: Schema, T3: Schema, T4: Schema, T5: Schema, T6: Schema, T7: Schema, T8: Schema, T9: Schema, T10: Schema> Schema for (T0, T1, T2, T3, T4, T5, T6, T7, T8, T9, T10) {
    open spec fn spec_schema() -> JsonSpec {
        tuple_schema(seq![T0::spec_schema(), T1::spec_schema(), T2::spec_schema(), T3::spec_schema(), T4::spec_schema(), T5::spec_schema(), T6::spec_schema(), T7::spec_schema(), T8::spec_schema(), T9::spec_schema(), T10::spec_schema()])
    }

    fn schema() -> (r: Json) {
        let s0 = T0::schema();
        let s1 = T1::schema();
        let s2 = T2::schema();
        let s3 = T3::schema();
        let s4 = T4::schema();
        let s5 = T5::schema();
        let s6 = T6::schema();
        let s7 = T7::schema();
        let s8 = T8::schema();
        let s9 = T9::schema();
        let s10 = T10::schema();
        let ghost g = seq![s0@, s1@, s2@, s3@, s4@, s5@, s6@, s7@, s8@, s9@, s10@];
        let items = vec![s0, s1, s2, s3, s4, s5, s6, s7, s8, s9, s10];
        assert(items_view(items@) =~= g);
        build_tuple_schema(items)
    }
}

impl<T0: Schema, T1: Schema, T2: Schema, T3: Schema, T4: Schema, T5: Schema, T6: Schema, T7: Schema, T8: Schema, T9: Schema, T10: Schema, T11: Schema> Schema for (T0, T1, T2, T3, T4, T5, T6, T7, T8, T9, T10, T11) {
    open spec fn spec_schema() -> JsonSpec {
        tuple_schema(seq![T0::spec_schema(), T1::spec_schema(), T2::spec_schema(), T3::spec_schema(), T4::spec_schema(), T5::spec_schema(), T6::spec_schema(), T7::spec_schema(), T8::spec_schema(), T9::spec_schema(), T10::spec_schema(), T11::spec_schema()])
    }

    fn schema() -> (r: Json) {
        let s0 = T0::schema();
        let s1 = T1::schema();
        let s2 = T2::schema();
        let s3 = T3::schema();
        let s4 = T4::schema();
        let s5 = T5::schema();
        let s6 = T6::schema();
        let s7 = T7::schema();
        let s8 = T8::schema();
        let s9 = T9::schema();
        let s10 = T10::schema();
        let s11 = T11::schema();
        let ghost g = seq![s0@, s1@, s2@, s3@, s4@, s5@, s6@, s7@, s8@, s9@, s10@, s11@];
        let items = vec![s0, s1, s2, s3, s4, s5, s6, s7, s8, s9, s10, s11];
        assert(items_view(items@) =~= g);
        build_tuple_schema(items)
    }
}

impl<T0: Schema, T1: Schema, T2: Schema, T3: Schema, T4: Schema, T5: Schema, T6: Schema, T7: Schema, T8: Schema, T9: Schema, T10: Schema, T11: Schema, T12: Schema> Schema for (T0, T1, T2, T3, T4, T5, T6, T7, T8, T9, T10, T11, T12) {
    open spec fn spec_schema() -> JsonSpec {
        tuple_schema(seq![T0::spec_schema(), T1::spec_schema(), T2::spec_schema(), T3::spec_schema(), T4::spec_schema(), T5::spec_schema(), T6::spec_schema(), T7::spec_schema(), T8::spec_schema(), T9::spec_schema(), T10::spec_schema(), T11::spec_schema(), T12::spec_schema()])
    }

    fn schema() -> (r: Json) {
        let s0 = T0::schema();
        let s1 = T1::schema();
        let s2 = T2::schema();
        let s3 = T3::schema();
        let s4 = T4::schema();
        let s5 = T5::schema();
        let s6 = T6::schema();
        let s7 = T7::schema();
        let s8 = T8::schema();
        let s9 = T9::schema();
        let s10 = T10::schema();
        let s11 = T11::schema();
        let s12 = T12::schema();
        let ghost g = seq![s0@, s1@, s2@, s3@, s4@, s5@, s6@, s7@, s8@, s9@, s10@, s11@, s12@];
        let items = vec![s0, s1, s2, s3, s4, s5, s6, s7, s8, s9, s10, s11, s12];
        assert(items_view(items@) =~= g);
        build_tuple_schema(items)
    }
}

impl<T0: Schema, T1: Schema, T2: Schema, T3: Schema, T4: Schema, T5: Schema, T6: Schema, T7: Schema, T8: Schema, T9: Schema, T10: Schema, T11: Schema, T12: Schema, T13: Schema> Schema for (T0, T1, T2, T3, T4, T5, T6, T7, T8, T9, T10, T11, T12, T13) {
    open spec fn spec_schema() -> JsonSpec {
        tuple_schema(seq![T0::spec_schema(), T1::spec_schema(), T2::spec_schema(), T3::spec_schema(), T4::spec_schema(), T5::spec_schema(), T6::spec_schema(), T7::spec_schema(), T8::spec_schema(), T9::spec_schema(), T10::spec_schema(), T11::spec_schema(), T12::spec_schema(), T13::spec_schema()])
    }

    fn schema() -> (r: Json) {
        let s0 = T0::schema();
        let s1 = T1::schema();
        let s2 = T2::schema();
        let s3 = T3::schema();
        let s4 = T4::schema();
        let s5 = T5::schema();
        let s6 = T6::schema();
        let s7 = T7::schema();
        let s8 = T8::schema();
        let s9 = T9::schema();
        let s10 = T10::schema();
        let s11 = T11::schema();
        let s12 = T12::schema();
        let s13 = T13::schema();
        let ghost g = seq![s0@, s1@, s2@, s3@, s4@, s5@, s6@, s7@, s8@, s9@, s10@, s11@, s12@, s13@];
        let items = vec![s0, s1, s2, s3, s4, s5, s6, s7, s8, s9, s10, s11, s12, s13];
        assert(items_view(items@) =~= g);
        build_tuple_schema(items)
    }
}

impl<T0: Schema, T1: Schema, T2: Schema, T3: Schema, T4: Schema, T5: Schema, T6: Schema, T7: Schema, T8: Schema, T9: Schema, T10: Schema, T11: Schema, T12: Schema, T13: Schema, T14: Schema> Schema for (T0, T1, T2, T3, T4, T5, T6, T7, T8, T9, T10, T11, T12, T13, T14) {
    open spec fn spec_schema() -> JsonSpec {
        tuple_schema(seq![T0::spec_schema(), T1::spec_schema(), T2::spec_schema(), T3::spec_schema(), T4::spec_schema(), T5::spec_schema(), T6::spec_schema(), T7::spec_schema(), T8::spec_schema(), T9::spec_schema(), T10::spec_schema(), T11::spec_schema(), T12::spec_schema(), T13::spec_schema(), T14::spec_schema()])
    }

    fn schema() -> (r: Json) {
        let s0 = T0::schema();
        let s1 = T1::schema();
        let s2 = T2::schema();
        let s3 = T3::schema();
        let s4 = T4::schema();
        let s5 = T5::schema();
        let s6 = T6::schema();
        let s7 = T7::schema();
        let s8 = T8::schema();
        let s9 = T9::schema();
        let s10 = T10::schema();
        let s11 = T11::schema();
        let s12 = T12::schema();
        let s13 = T13::schema();
        let s14 = T14::schema();
        let ghost g = seq![s0@, s1@, s2@, s3@, s4@, s5@, s6@, s7@, s8@, s9@, s10@, s11@, s12@, s13@, s14@];
        let items = vec![s0, s1, s2, s3, s4, s5, s6, s7, s8, s9, s10, s11, s12, s13, s14];
        assert(items_view(items@) =~= g);
        build_tuple_schema(items)
    }
}

impl<T0: Schema, T1: Schema, T2: Schema, T3: Schema, T4: Schema, T5: Schema, T6: Schema, T7: Schema, T8: Schema, T9: Schema, T10: Schema, T11: Schema, T12: Schema, T13: Schema, T14: Schema, T15: Schema> Schema for (T0, T1, T2, T3, T4, T5, T6, T7, T8, T9, T10, T11, T12, T13, T14, T15) {
    open spec fn spec_schema() -> JsonSpec {
        tuple_schema(seq![T0::spec_schema(), T1::spec_schema(), T2::spec_schema(), T3::spec_schema(), T4::spec_schema(), T5::spec_schema(), T6::spec_schema(), T7::spec_schema(), T8::spec_schema(), T9::spec_schema(), T10::spec_schema(), T11::spec_schema(), T12::spec_schema(), T13::spec_schema(), T14::spec_schema(), T15::spec_schema()])
    }

    fn schema() -> (r: Json) {
        let s0 = T0::schema();
        let s1 = T1::schema();
        let s2 = T2::schema();
        let s3 = T3::schema();
        let s4 = T4::schema();
        let s5 = T5::schema();
        let s6 = T6::schema();
        let s7 = T7::schema();
        let s8 = T8::schema();
        let s9 = T9::schema();
        let s10 = T10::schema();
        let s11 = T11::schema();
        let s12 = T12::schema();
        let s13 = T13::schema();
        let s14 = T14::schema();
        let s15 = T15::schema();
        let ghost g = seq![s0@, s1@, s2@, s3@, s4@, s5@, s6@, s7@, s8@, s9@, s10@, s11@, s12@, s13@, s14@, s15@];
        let items = vec![s0, s1, s2, s3, s4, s5, s6, s7, s8, s9, s10, s11, s12, s13, s14, s15];
        assert(items_view(items@) =~= g);
        build_tuple_schema(items)
    }
}

impl<T: Schema> Schema for [T; 1] {
    open spec fn spec_schema() -> JsonSpec {
        fixed_array_schema(T::spec_schema(), 1)
    }

    fn schema() -> (r: Json) {
        build_fixed_array_schema(T::schema(), 1)
    }
}

impl<T: Schema> Schema for [T; 2] {
    open spec fn spec_schema() -> JsonSpec {
        fixed_array_schema(T::spec_schema(), 2)
    }

    fn schema() -> (r: Json) {
        build_fixed_array_schema(T::schema(), 2)
    }
}

impl<T: Schema> Schema for [T; 3] {
    open spec fn spec_schema() -> JsonSpec {
        fixed_array_schema(T::spec_schema(), 3)
    }

    fn schema() -> (r: Json) {
        build_fixed_array_schema(T::schema(), 3)
    }
}

impl<T: Schema> Schema for [T; 4] {
    open spec fn spec_schema() -> JsonSpec {
        fixed_array_schema(T::spec_schema(), 4)
    }

    fn schema() -> (r: Json) {
        build_fixed_array_schema(T::schema(), 4)
    }
}

impl<T: Schema> Schema for [T; 5] {
    open spec fn spec_schema() -> JsonSpec {
        fixed_array_schema(T::spec_schema(), 5)
    }

    fn schema() -> (r: Json) {
        build_fixed_array_schema(T::schema(), 5)
    }
}

impl<T: Schema> Schema for [T; 6] {
    open spec fn spec_schema() -> JsonSpec {
        fixed_array_schema(T::spec_schema(), 6)
    }

    fn schema() -> (r: Json) {
        build_fixed_array_schema(T::schema(), 6)
    }
}

impl<T: Schema> Schema for [T; 7] {
    open spec fn spec_schema() -> JsonSpec {
        fixed_array_schema(T::spec_schema(), 7)
    }

    fn schema() -> (r: Json) {
        build_fixed_array_schema(T::schema(), 7)
    }
}

impl<T: Schema> Schema for [T; 8] {
    open spec fn spec_schema() -> JsonSpec {
        fixed_array_schema(T::spec_schema(), 8)
    }

    fn schema() -> (r: Json) {
        build_fixed_array_schema(T::schema(), 8)
    }
}

impl<T: Schema> Schema for [T; 9] {
    open spec fn spec_schema() -> JsonSpec {
        fixed_array_schema(T::spec_schema(), 9)
    }

    fn schema() -> (r: Json) {
        build_fixed_array_schema(T::schema(), 9)
    }
}

impl<T: Schema> Schema for [T; 10] {
    open spec fn spec_schema() -> JsonSpec {
        fixed_array_schema(T::spec_schema(), 10)
    }

    fn schema() -> (r: Json) {
        build_fixed_array_schema(T::schema(), 10)
    }
}

impl<T: Schema> Schema for [T; 11] {
    open spec fn spec_schema() -> JsonSpec {
        fixed_array_schema(T::spec_schema(), 11)
    }

    fn schema() -> (r: Json) {
        build_fixed_array_schema(T::schema(), 11)
    }
}

impl<T: Schema> Schema for [T; 12] {
    open spec fn spec_schema() -> JsonSpec {
        fixed_array_schema(T::spec_schema(), 12)
    }

    fn schema() -> (r: Json) {
        build_fixed_array_schema(T::schema(), 12)
    }
}

impl<T: Schema> Schema for [T; 13] {
    open spec fn spec_schema() -> JsonSpec {
        fixed_array_schema(T::spec_schema(), 13)
    }

    fn schema() -> (r: Json) {
        build_fixed_array_schema(T::schema(), 13)
    }
}

impl<T: Schema> Schema for [T; 14] {
    open spec fn spec_schema() -> JsonSpec {
        fixed_array_schema(T::spec_schema(), 14)
    }

    fn schema() -> (r: Json) {
        build_fixed_array_schema(T::schema(), 14)
    }
}

impl<T: Schema> Schema for [T; 15] {
    open spec fn spec_schema() -> JsonSpec {
        fixed_array_schema(T::spec_schema(), 15)
    }

    fn schema() -> (r: Json) {
        build_fixed_array_schema(T::schema(), 15)
    }
}

impl<T: Schema> Schema for [T; 16] {
    open spec fn spec_schema() -> JsonSpec {
        fixed_array_schema(T::spec_schema(), 16)
    }

    fn schema() -> (r: Json) {
        build_fixed_array_schema(T::schema(), 16)
    }
}

impl<T: Schema> Schema for [T; 17] {
    open spec fn spec_schema() -> JsonSpec {
        fixed_array_schema(T::spec_schema(), 17)
    }

    fn schema() -> (r: Json) {
        build_fixed_array_schema(T::schema(), 17)
    }
}

impl<T: Schema> Schema for [T; 18] {
    open spec fn spec_schema() -> JsonSpec {
        fixed_array_schema(T::spec_schema(), 18)
    }

    fn schema() -> (r: Json) {
        build_fixed_array_schema(T::schema(), 18)
    }
}

impl<T: Schema> Schema for [T; 19] {
    open spec fn spec_schema() -> JsonSpec {
        fixed_array_schema(T::spec_schema(), 19)
    }

    fn schema() -> (r: Json) {
        build_fixed_array_schema(T::schema(), 19)
    }
}

impl<T: Schema> Schema for [T; 20] {
    open spec fn spec_schema() -> JsonSpec {
        fixed_array_schema(T::spec_schema(), 20)
    }

    fn schema() -> (r: Json) {
        build_fixed_array_schema(T::schema(), 20)
    }
}

impl<T: Schema> Schema for [T; 21] {
    open spec fn spec_schema() -> JsonSpec {
        fixed_array_schema(T::spec_schema(), 21)
    }

    fn schema() -> (r: Json) {
        build_fixed_array_schema(T::schema(), 21)
    }
}

impl<T: Schema> Schema for [T; 22] {
    open spec fn spec_schema() -> JsonSpec {
        fixed_array_schema(T::spec_schema(), 22)
    }

    fn schema() -> (r: Json) {
        build_fixed_array_schema(T::schema(), 22)
    }
}

impl<T: Schema> Schema for [T; 23] {
    open spec fn spec_schema() -> JsonSpec {
        fixed_array_schema(T::spec_schema(), 23)
    }

    fn schema() -> (r: Json) {
        build_fixed_array_schema(T::schema(), 23)
    }
}

impl<T: Schema> Schema for [T; 24] {
    open spec fn spec_schema() -> JsonSpec {
        fixed_array_schema(T::spec_schema(), 24)
    }

    fn schema() -> (r: Json) {
        build_fixed_array_schema(T::schema(), 24)
    }
}

impl<T: Schema> Schema for [T; 25] {
    open spec fn spec_schema() -> JsonSpec {
        fixed_array_schema(T::spec_schema(), 25)
    }

    fn schema() -> (r: Json) {
        build_fixed_array_schema(T::schema(), 25)
    }
}

impl<T: Schema> Schema for [T; 26] {
    open spec fn spec_schema() -> JsonSpec {
        fixed_array_schema(T::spec_schema(), 26)
    }

    fn schema() -> (r: Json) {
        build_fixed_array_schema(T::schema(), 26)
    }
}

impl<T: Schema> Schema for [T; 27] {
    open spec fn spec_schema() -> JsonSpec {
        fixed_array_schema(T::spec_schema(), 27)
    }

    fn schema() -> (r: Json) {
        build_fixed_array_schema(T::schema(), 27)
    }
}

impl<T: Schema> Schema for [T; 28] {
    open spec fn spec_schema() -> JsonSpec {
        fixed_array_schema(T::spec_schema(), 28)
    }

    fn schema() -> (r: Json) {
        build_fixed_array_schema(T::schema(), 28)
    }
}

impl<T: Schema> Schema for [T; 29] {
    open spec fn spec_schema() -> JsonSpec {
        fixed_array_schema(T::spec_schema(), 29)
    }

    fn schema() -> (r: Json) {
        build_fixed_array_schema(T::schema(), 29)
    }
}

impl<T: Schema> Schema for [T; 30] {
    open spec fn spec_schema() -> JsonSpec {
        fixed_array_schema(T::spec_schema(), 30)
    }

    fn schema() -> (r: Json) {
        build_fixed_array_schema(T::schema(), 30)
    }
}

impl<T: Schema> Schema for [T; 31] {
    open spec fn spec_schema() -> JsonSpec {
        fixed_array_schema(T::spec_schema(), 31)
    }

    fn schema() -> (r: Json) {
        build_fixed_array_schema(T::schema(), 31)
    }
}

impl<T: Schema> Schema for [T; 32] {
    open spec fn spec_schema() -> JsonSpec {
        fixed_array_schema(T::spec_schema(), 32)
    }

    fn schema() -> (r: Json) {
        build_fixed_array_schema(T::schema(), 32)
    }
}

impl Schema for core::sync::atomic::AtomicBool {
    open spec fn spec_schema() -> JsonSpec {
        <bool as Schema>::spec_schema()
    }

    fn schema() -> (r: Json) {
        <bool as Schema>::schema()
    }
}

impl Schema for core::sync::atomic::AtomicI8 {
    open spec fn spec_schema() -> JsonSpec {
        <i8 as Schema>::spec_schema()
    }

    fn schema() -> (r: Json) {
        <i8 as Schema>::schema()
    }
}

impl Schema for core::sync::atomic::AtomicI16 {
    open spec fn spec_schema() -> JsonSpec {
        <i16 as Schema>::spec_schema()
    }

    fn schema() -> (r: Json) {
        <i16 as Schema>::schema()
    }
}

impl Schema for core::sync::atomic::AtomicI32 {
    open spec fn spec_schema() -> JsonSpec {
        <i32 as Schema>::spec_schema()
    }

    fn schema() -> (r: Json) {
        <i32 as Schema>::schema()
    }
}

impl Schema for core::sync::atomic::AtomicI64 {
    open spec fn spec_schema() -> JsonSpec {
        <i64 as Schema>::spec_schema()
    }

    fn schema() -> (r: Json) {
        <i64 as Schema>::schema()
    }
}

impl Schema for core::sync::atomic::AtomicIsize {
    open spec fn spec_schema() -> JsonSpec {
        <isize as Schema>::spec_schema()
    }

    fn schema() -> (r: Json) {
        <isize as Schema>::schema()
    }
}

impl Schema for core::sync::atomic::AtomicU8 {
    open spec fn spec_schema() -> JsonSpec {
        <u8 as Schema>::spec_schema()
    }

    fn schema() -> (r: Json) {
        <u8 as Schema>::schema()
    }
}

impl Schema for core::sync::atomic::AtomicU16 {
    open spec fn spec_schema() -> JsonSpec {
        <u16 as Schema>::spec_schema()
    }

    fn schema() -> (r: Json) {
        <u16 as Schema>::schema()
    }
}

impl Schema for core::sync::atomic::AtomicU32 {
    open spec fn spec_schema() -> JsonSpec {
        <u32 as Schema>::spec_schema()
    }

    fn schema() -> (r: Json) {
        <u32 as Schema>::schema()
    }
}

impl Schema for core::sync::atomic::AtomicU64 {
    open spec fn spec_schema() -> JsonSpec {
        <u64 as Schema>::spec_schema()
    }

    fn schema() -> (r: Json) {
        <u64 as Schema>::schema()
    }
}

impl Schema for core::sync::atomic::AtomicUsize {
    open spec fn spec_schema() -> JsonSpec {
        <usize as Schema>::spec_schema()
    }

    fn schema() -> (r: Json) {
        <usize as Schema>::schema()
    }
}


// ---------------------------------------------------------------------
// Laws
// ---------------------------------------------------------------------

/// Without a description, `schema_with_meta` gives the plain schema.
pub proof fn lemma_meta_without_description<T: Schema + ?Sized>()
    ensures
        with_description(T::spec_schema(), None) == T::spec_schema(),
{
}

/// With a description, an object schema gets a `description` entry
/// holding it, and every other entry stays as it was; no key is
/// repeated afterwards if none was before.
pub proof fn lemma_meta_sets_description(schema: JsonSpec, desc: Seq<char>)
    requires
        schema is Object,
    ensures
        with_description(schema, Some(desc)) is Object,
        lookup(with_description(schema, Some(desc))->Object_0, "description"@) == Some(
            JsonSpec::Str(desc),
        ),
        forall|k: Seq<char>|
            k != "description"@ ==> #[trigger] lookup(
                with_description(schema, Some(desc))->Object_0,
                k,
            ) == lookup(schema->Object_0, k),
        keys_unique(schema->Object_0) ==> keys_unique(
            with_description(schema, Some(desc))->Object_0,
        ),
{
    lemma_object_insert(schema->Object_0, "description"@, JsonSpec::Str(desc));
}

/// A schema that is not an object is left as it is by
/// `schema_with_meta`.
pub proof fn lemma_meta_keeps_non_objects(schema: JsonSpec, desc: Option<Seq<char>>)
    requires
        !(schema is Object),
    ensures
        with_description(schema, desc) == schema,
{
}

/// `Option<T>` has the schema of `T`, however deeply it is nested.
pub proof fn lemma_option_schema<T: Schema>()
    ensures
        <Option<T> as Schema>::spec_schema() == T::spec_schema(),
        <Option<Option<T>> as Schema>::spec_schema() == T::spec_schema(),
{
}

/// A slice has the schema of a `Vec` of its items, a reference the
/// schema of what it refers to, and `str` the schema of `String`.
pub proof fn lemma_borrowed_schemas<T: Schema>()
    ensures
        <[T] as Schema>::spec_schema() == <Vec<T> as Schema>::spec_schema(),
        <&T as Schema>::spec_schema() == T::spec_schema(),
        <str as Schema>::spec_schema() == <String as Schema>::spec_schema(),
        <&str as Schema>::spec_schema() == <String as Schema>::spec_schema(),
{
}

/// An atomic type has the schema of the value it holds.
pub proof fn lemma_atomic_schemas()
    ensures
        <core::sync::atomic::AtomicBool as Schema>::spec_schema() == <bool as Schema>::spec_schema(),
        <core::sync::atomic::AtomicI8 as Schema>::spec_schema() == <i8 as Schema>::spec_schema(),
        <core::sync::atomic::AtomicI16 as Schema>::spec_schema() == <i16 as Schema>::spec_schema(),
        <core::sync::atomic::AtomicI32 as Schema>::spec_schema() == <i32 as Schema>::spec_schema(),
        <core::sync::atomic::AtomicI64 as Schema>::spec_schema() == <i64 as Schema>::spec_schema(),
        <core::sync::atomic::AtomicIsize as Schema>::spec_schema() == <isize as Schema>::spec_schema(),
        <core::sync::atomic::AtomicU8 as Schema>::spec_schema() == <u8 as Schema>::spec_schema(),
        <core::sync::atomic::AtomicU16 as Schema>::spec_schema() == <u16 as Schema>::spec_schema(),
        <core::sync::atomic::AtomicU32 as Schema>::spec_schema() == <u32 as Schema>::spec_schema(),
        <core::sync::atomic::AtomicU64 as Schema>::spec_schema() == <u64 as Schema>::spec_schema(),
        <core::sync::atomic::AtomicUsize as Schema>::spec_schema() == <usize as Schema>::spec_schema(),
{
}

/// A tuple of two or more items has the schema of an array whose
/// `prefixItems` are the schemas of its item types, in the order of the
/// tuple; a tuple of one item is an array of exactly one item of its
/// type's schema.
pub proof fn lemma_tuple_schemas<T0: Schema, T1: Schema, T2: Schema, T3: Schema, T4: Schema, T5: Schema, T6: Schema, T7: Schema, T8: Schema, T9: Schema, T10: Schema, T11: Schema, T12: Schema, T13: Schema, T14: Schema, T15: Schema>()
    ensures
        <(T0,) as Schema>::spec_schema() == JsonSpec::Object(
            seq![
                ("type"@, JsonSpec::Str("array"@)),
                ("items"@, JsonSpec::Array(seq![T0::spec_schema()])),
                ("minItems"@, JsonSpec::Int(1)),
                ("maxItems"@, JsonSpec::Int(1)),
            ],
        ),
        <(T0, T1) as Schema>::spec_schema() == JsonSpec::Object(
            seq![
                ("type"@, JsonSpec::Str("array"@)),
                ("prefixItems"@, JsonSpec::Array(seq![T0::spec_schema(), T1::spec_schema()])),
            ],
        ),
        <(T0, T1, T2) as Schema>::spec_schema() == JsonSpec::Object(
            seq![
                ("type"@, JsonSpec::Str("array"@)),
                ("prefixItems"@, JsonSpec::Array(seq![T0::spec_schema(), T1::spec_schema(), T2::spec_schema()])),
            ],
        ),
        <(T0, T1, T2, T3) as Schema>::spec_schema() == JsonSpec::Object(
            seq![
                ("type"@, JsonSpec::Str("array"@)),
                ("prefixItems"@, JsonSpec::Array(seq![T0::spec_schema(), T1::spec_schema(), T2::spec_schema(), T3::spec_schema()])),
            ],
        ),
        <(T0, T1, T2, T3, T4) as Schema>::spec_schema() == JsonSpec::Object(
            seq![
                ("type"@, JsonSpec::Str("array"@)),
                ("prefixItems"@, JsonSpec::Array(seq![T0::spec_schema(), T1::spec_schema(), T2::spec_schema(), T3::spec_schema(), T4::spec_schema()])),
            ],
        ),
        <(T0, T1, T2, T3, T4, T5) as Schema>::spec_schema() == JsonSpec::Object(
            seq![
                ("type"@, JsonSpec::Str("array"@)),
                ("prefixItems"@, JsonSpec::Array(seq![T0::spec_schema(), T1::spec_schema(), T2::spec_schema(), T3::spec_schema(), T4::spec_schema(), T5::spec_schema()])),
            ],
        ),
        <(T0, T1, T2, T3, T4, T5, T6) as Schema>::spec_schema() == JsonSpec::Object(
            seq![
                ("type"@, JsonSpec::Str("array"@)),
                ("prefixItems"@, JsonSpec::Array(seq![T0::spec_schema(), T1::spec_schema(), T2::spec_schema(), T3::spec_schema(), T4::spec_schema(), T5::spec_schema(), T6::spec_schema()])),
            ],
        ),
        <(T0, T1, T2, T3, T4, T5, T6, T7) as Schema>::spec_schema() == JsonSpec::Object(
            seq![
                ("type"@, JsonSpec::Str("array"@)),
                ("prefixItems"@, JsonSpec::Array(seq![T0::spec_schema(), T1::spec_schema(), T2::spec_schema(), T3::spec_schema(), T4::spec_schema(), T5::spec_schema(), T6::spec_schema(), T7::spec_schema()])),
            ],
        ),
        <(T0, T1, T2, T3, T4, T5, T6, T7, T8) as Schema>::spec_schema() == JsonSpec::Object(
            seq![
                ("type"@, JsonSpec::Str("array"@)),
                ("prefixItems"@, JsonSpec::Array(seq![T0::spec_schema(), T1::spec_schema(), T2::spec_schema(), T3::spec_schema(), T4::spec_schema(), T5::spec_schema(), T6::spec_schema(), T7::spec_schema(), T8::spec_schema()])),
            ],
        ),
        <(T0, T1, T2, T3, T4, T5, T6, T7, T8, T9) as Schema>::spec_schema() == JsonSpec::Object(
            seq![
                ("type"@, JsonSpec::Str("array"@)),
                ("prefixItems"@, JsonSpec::Array(seq![T0::spec_schema(), T1::spec_schema(), T2::spec_schema(), T3::spec_schema(), T4::spec_schema(), T5::spec_schema(), T6::spec_schema(), T7::spec_schema(), T8::spec_schema(), T9::spec_schema()])),
            ],
        ),
        <(T0, T1, T2, T3, T4, T5, T6, T7, T8, T9, T10) as Schema>::spec_schema() == JsonSpec::Object(
            seq![
                ("type"@, JsonSpec::Str("array"@)),
                ("prefixItems"@, JsonSpec::Array(seq![T0::spec_schema(), T1::spec_schema(), T2::spec_schema(), T3::spec_schema(), T4::spec_schema(), T5::spec_schema(), T6::spec_schema(), T7::spec_schema(), T8::spec_schema(), T9::spec_schema(), T10::spec_schema()])),
            ],
        ),
        <(T0, T1, T2, T3, T4, T5, T6, T7, T8, T9, T10, T11) as Schema>::spec_schema() == JsonSpec::Object(
            seq![
                ("type"@, JsonSpec::Str("array"@)),
                ("prefixItems"@, JsonSpec::Array(seq![T0::spec_schema(), T1::spec_schema(), T2::spec_schema(), T3::spec_schema(), T4::spec_schema(), T5::spec_schema(), T6::spec_schema(), T7::spec_schema(), T8::spec_schema(), T9::spec_schema(), T10::spec_schema(), T11::spec_schema()])),
            ],
        ),
        <(T0, T1, T2, T3, T4, T5, T6, T7, T8, T9, T10, T11, T12) as Schema>::spec_schema() == JsonSpec::Object(
            seq![
                ("type"@, JsonSpec::Str("array"@)),
                ("prefixItems"@, JsonSpec::Array(seq![T0::spec_schema(), T1::spec_schema(), T2::spec_schema(), T3::spec_schema(), T4::spec_schema(), T5::spec_schema(), T6::spec_schema(), T7::spec_schema(), T8::spec_schema(), T9::spec_schema(), T10::spec_schema(), T11::spec_schema(), T12::spec_schema()])),
            ],
        ),
        <(T0, T1, T2, T3, T4, T5, T6, T7, T8, T9, T10, T11, T12, T13) as Schema>::spec_schema() == JsonSpec::Object(
            seq![
                ("type"@, JsonSpec::Str("array"@)),
                ("prefixItems"@, JsonSpec::Array(seq![T0::spec_schema(), T1::spec_schema(), T2::spec_schema(), T3::spec_schema(), T4::spec_schema(), T5::spec_schema(), T6::spec_schema(), T7::spec_schema(), T8::spec_schema(), T9::spec_schema(), T10::spec_schema(), T11::spec_schema(), T12::spec_schema(), T13::spec_schema()])),
            ],
        ),
        <(T0, T1, T2, T3, T4, T5, T6, T7, T8, T9, T10, T11, T12, T13, T14) as Schema>::spec_schema() == JsonSpec::Object(
            seq![
                ("type"@, JsonSpec::Str("array"@)),
                ("prefixItems"@, JsonSpec::Array(seq![T0::spec_schema(), T1::spec_schema(), T2::spec_schema(), T3::spec_schema(), T4::spec_schema(), T5::spec_schema(), T6::spec_schema(), T7::spec_schema(), T8::spec_schema(), T9::spec_schema(), T10::spec_schema(), T11::spec_schema(), T12::spec_schema(), T13::spec_schema(), T14::spec_schema()])),
            ],
        ),
        <(T0, T1, T2, T3, T4, T5, T6, T7, T8, T9, T10, T11, T12, T13, T14, T15) as Schema>::spec_schema() == JsonSpec::Object(
            seq![
                ("type"@, JsonSpec::Str("array"@)),
                ("prefixItems"@, JsonSpec::Array(seq![T0::spec_schema(), T1::spec_schema(), T2::spec_schema(), T3::spec_schema(), T4::spec_schema(), T5::spec_schema(), T6::spec_schema(), T7::spec_schema(), T8::spec_schema(), T9::spec_schema(), T10::spec_schema(), T11::spec_schema(), T12::spec_schema(), T13::spec_schema(), T14::spec_schema(), T15::spec_schema()])),
            ],
        ),
{
}

/// A `Vec<T>` has the schema of an array of items with the schema of
/// `T`; an array of `N` items of type `T` has the schema of an array
/// of exactly `N` items, each with the schema of `T`.
pub proof fn lemma_fixed_array_schemas<T: Schema>()
    ensures
        <Vec<T> as Schema>::spec_schema() == JsonSpec::Object(
            seq![("type"@, JsonSpec::Str("array"@)), ("items"@, T::spec_schema())],
        ),
        <[T; 1] as Schema>::spec_schema() == JsonSpec::Object(
            seq![
                ("type"@, JsonSpec::Str("array"@)),
                ("items"@, T::spec_schema()),
                ("minItems"@, JsonSpec::Int(1)),
                ("maxItems"@, JsonSpec::Int(1)),
            ],
        ),
        <[T; 2] as Schema>::spec_schema() == JsonSpec::Object(
            seq![
                ("type"@, JsonSpec::Str("array"@)),
                ("items"@, T::spec_schema()),
                ("minItems"@, JsonSpec::Int(2)),
                ("maxItems"@, JsonSpec::Int(2)),
            ],
        ),
        <[T; 3] as Schema>::spec_schema() == JsonSpec::Object(
            seq![
                ("type"@, JsonSpec::Str("array"@)),
                ("items"@, T::spec_schema()),
                ("minItems"@, JsonSpec::Int(3)),
                ("maxItems"@, JsonSpec::Int(3)),
            ],
        ),
        <[T; 4] as Schema>::spec_schema() == JsonSpec::Object(
            seq![
                ("type"@, JsonSpec::Str("array"@)),
                ("items"@, T::spec_schema()),
                ("minItems"@, JsonSpec::Int(4)),
                ("maxItems"@, JsonSpec::Int(4)),
            ],
        ),
        <[T; 5] as Schema>::spec_schema() == JsonSpec::Object(
            seq![
                ("type"@, JsonSpec::Str("array"@)),
                ("items"@, T::spec_schema()),
                ("minItems"@, JsonSpec::Int(5)),
                ("maxItems"@, JsonSpec::Int(5)),
            ],
        ),
        <[T; 6] as Schema>::spec_schema() == JsonSpec::Object(
            seq![
                ("type"@, JsonSpec::Str("array"@)),
                ("items"@, T::spec_schema()),
                ("minItems"@, JsonSpec::Int(6)),
                ("maxItems"@, JsonSpec::Int(6)),
            ],
        ),
        <[T; 7] as Schema>::spec_schema() == JsonSpec::Object(
            seq![
                ("type"@, JsonSpec::Str("array"@)),
                ("items"@, T::spec_schema()),
                ("minItems"@, JsonSpec::Int(7)),
                ("maxItems"@, JsonSpec::Int(7)),
            ],
        ),
        <[T; 8] as Schema>::spec_schema() == JsonSpec::Object(
            seq![
                ("type"@, JsonSpec::Str("array"@)),
                ("items"@, T::spec_schema()),
                ("minItems"@, JsonSpec::Int(8)),
                ("maxItems"@, JsonSpec::Int(8)),
            ],
        ),
        <[T; 9] as Schema>::spec_schema() == JsonSpec::Object(
            seq![
                ("type"@, JsonSpec::Str("array"@)),
                ("items"@, T::spec_schema()),
                ("minItems"@, JsonSpec::Int(9)),
                ("maxItems"@, JsonSpec::Int(9)),
            ],
        ),
        <[T; 10] as Schema>::spec_schema() == JsonSpec::Object(
            seq![
                ("type"@, JsonSpec::Str("array"@)),
                ("items"@, T::spec_schema()),
                ("minItems"@, JsonSpec::Int(10)),
                ("maxItems"@, JsonSpec::Int(10)),
            ],
        ),
        <[T; 11] as Schema>::spec_schema() == JsonSpec::Object(
            seq![
                ("type"@, JsonSpec::Str("array"@)),
                ("items"@, T::spec_schema()),
                ("minItems"@, JsonSpec::Int(11)),
                ("maxItems"@, JsonSpec::Int(11)),
            ],
        ),
        <[T; 12] as Schema>::spec_schema() == JsonSpec::Object(
            seq![
                ("type"@, JsonSpec::Str("array"@)),
                ("items"@, T::spec_schema()),
                ("minItems"@, JsonSpec::Int(12)),
                ("maxItems"@, JsonSpec::Int(12)),
            ],
        ),
        <[T; 13] as Schema>::spec_schema() == JsonSpec::Object(
            seq![
                ("type"@, JsonSpec::Str("array"@)),
                ("items"@, T::spec_schema()),
                ("minItems"@, JsonSpec::Int(13)),
                ("maxItems"@, JsonSpec::Int(13)),
            ],
        ),
        <[T; 14] as Schema>::spec_schema() == JsonSpec::Object(
            seq![
                ("type"@, JsonSpec::Str("array"@)),
                ("items"@, T::spec_schema()),
                ("minItems"@, JsonSpec::Int(14)),
                ("maxItems"@, JsonSpec::Int(14)),
            ],
        ),
        <[T; 15] as Schema>::spec_schema() == JsonSpec::Object(
            seq![
                ("type"@, JsonSpec::Str("array"@)),
                ("items"@, T::spec_schema()),
                ("minItems"@, JsonSpec::Int(15)),
                ("maxItems"@, JsonSpec::Int(15)),
            ],
        ),
        <[T; 16] as Schema>::spec_schema() == JsonSpec::Object(
            seq![
                ("type"@, JsonSpec::Str("array"@)),
                ("items"@, T::spec_schema()),
                ("minItems"@, JsonSpec::Int(16)),
                ("maxItems"@, JsonSpec::Int(16)),
            ],
        ),
        <[T; 17] as Schema>::spec_schema() == JsonSpec::Object(
            seq![
                ("type"@, JsonSpec::Str("array"@)),
                ("items"@, T::spec_schema()),
                ("minItems"@, JsonSpec::Int(17)),
                ("maxItems"@, JsonSpec::Int(17)),
            ],
        ),
        <[T; 18] as Schema>::spec_schema() == JsonSpec::Object(
            seq![
                ("type"@, JsonSpec::Str("array"@)),
                ("items"@, T::spec_schema()),
                ("minItems"@, JsonSpec::Int(18)),
                ("maxItems"@, JsonSpec::Int(18)),
            ],
        ),
        <[T; 19] as Schema>::spec_schema() == JsonSpec::Object(
            seq![
                ("type"@, JsonSpec::Str("array"@)),
                ("items"@, T::spec_schema()),
                ("minItems"@, JsonSpec::Int(19)),
                ("maxItems"@, JsonSpec::Int(19)),
            ],
        ),
        <[T; 20] as Schema>::spec_schema() == JsonSpec::Object(
            seq![
                ("type"@, JsonSpec::Str("array"@)),
                ("items"@, T::spec_schema()),
                ("minItems"@, JsonSpec::Int(20)),
                ("maxItems"@, JsonSpec::Int(20)),
            ],
        ),
        <[T; 21] as Schema>::spec_schema() == JsonSpec::Object(
            seq![
                ("type"@, JsonSpec::Str("array"@)),
                ("items"@, T::spec_schema()),
                ("minItems"@, JsonSpec::Int(21)),
                ("maxItems"@, JsonSpec::Int(21)),
            ],
        ),
        <[T; 22] as Schema>::spec_schema() == JsonSpec::Object(
            seq![
                ("type"@, JsonSpec::Str("array"@)),
                ("items"@, T::spec_schema()),
                ("minItems"@, JsonSpec::Int(22)),
                ("maxItems"@, JsonSpec::Int(22)),
            ],
        ),
        <[T; 23] as Schema>::spec_schema() == JsonSpec::Object(
            seq![
                ("type"@, JsonSpec::Str("array"@)),
                ("items"@, T::spec_schema()),
                ("minItems"@, JsonSpec::Int(23)),
                ("maxItems"@, JsonSpec::Int(23)),
            ],
        ),
        <[T; 24] as Schema>::spec_schema() == JsonSpec::Object(
            seq![
                ("type"@, JsonSpec::Str("array"@)),
                ("items"@, T::spec_schema()),
                ("minItems"@, JsonSpec::Int(24)),
                ("maxItems"@, JsonSpec::Int(24)),
            ],
        ),
        <[T; 25] as Schema>::spec_schema() == JsonSpec::Object(
            seq![
                ("type"@, JsonSpec::Str("array"@)),
                ("items"@, T::spec_schema()),
                ("minItems"@, JsonSpec::Int(25)),
                ("maxItems"@, JsonSpec::Int(25)),
            ],
        ),
        <[T; 26] as Schema>::spec_schema() == JsonSpec::Object(
            seq![
                ("type"@, JsonSpec::Str("array"@)),
                ("items"@, T::spec_schema()),
                ("minItems"@, JsonSpec::Int(26)),
                ("maxItems"@, JsonSpec::Int(26)),
            ],
        ),
        <[T; 27] as Schema>::spec_schema() == JsonSpec::Object(
            seq![
                ("type"@, JsonSpec::Str("array"@)),
                ("items"@, T::spec_schema()),
                ("minItems"@, JsonSpec::Int(27)),
                ("maxItems"@, JsonSpec::Int(27)),
            ],
        ),
        <[T; 28] as Schema>::spec_schema() == JsonSpec::Object(
            seq![
                ("type"@, JsonSpec::Str("array"@)),
                ("items"@, T::spec_schema()),
                ("minItems"@, JsonSpec::Int(28)),
                ("maxItems"@, JsonSpec::Int(28)),
            ],
        ),
        <[T; 29] as Schema>::spec_schema() == JsonSpec::Object(
            seq![
                ("type"@, JsonSpec::Str("array"@)),
                ("items"@, T::spec_schema()),
                ("minItems"@, JsonSpec::Int(29)),
                ("maxItems"@, JsonSpec::Int(29)),
            ],
        ),
        <[T; 30] as Schema>::spec_schema() == JsonSpec::Object(
            seq![
                ("type"@, JsonSpec::Str("array"@)),
                ("items"@, T::spec_schema()),
                ("minItems"@, JsonSpec::Int(30)),
                ("maxItems"@, JsonSpec::Int(30)),
            ],
        ),
        <[T; 31] as Schema>::spec_schema() == JsonSpec::Object(
            seq![
                ("type"@, JsonSpec::Str("array"@)),
                ("items"@, T::spec_schema()),
                ("minItems"@, JsonSpec::Int(31)),
                ("maxItems"@, JsonSpec::Int(31)),
            ],
        ),
        <[T; 32] as Schema>::spec_schema() == JsonSpec::Object(
            seq![
                ("type"@, JsonSpec::Str("array"@)),
                ("items"@, T::spec_schema()),
                ("minItems"@, JsonSpec::Int(32)),
                ("maxItems"@, JsonSpec::Int(32)),
            ],
        ),
{
}

/// The schemas of the other primitive types: `bool` is a boolean,
/// `String` and `str` a string, `char` a string of exactly one
/// character, and `()` an empty array.
pub proof fn lemma_primitive_schemas()
    ensures
        <bool as Schema>::spec_schema() == JsonSpec::Object(seq![("type"@, JsonSpec::Str("boolean"@))]),
        <String as Schema>::spec_schema() == JsonSpec::Object(seq![("type"@, JsonSpec::Str("string"@))]),
        <str as Schema>::spec_schema() == JsonSpec::Object(seq![("type"@, JsonSpec::Str("string"@))]),
        <char as Schema>::spec_schema() == JsonSpec::Object(
            seq![
                ("type"@, JsonSpec::Str("string"@)),
                ("minLength"@, JsonSpec::Int(1)),
                ("maxLength"@, JsonSpec::Int(1)),
            ],
        ),
        <() as Schema>::spec_schema() == JsonSpec::Object(
            seq![("type"@, JsonSpec::Str("array"@)), ("maxLength"@, JsonSpec::Int(0))],
        ),
{
}

/// The schema of an integer type bounds it by the type's minimum and
/// maximum.
pub proof fn lemma_integer_schemas()
    ensures
        <i8 as Schema>::spec_schema() == JsonSpec::Object(
            seq![
                ("type"@, JsonSpec::Str("integer"@)),
                ("minimum"@, JsonSpec::Int(-128)),
                ("maximum"@, JsonSpec::Int(127)),
            ],
        ),
        <i16 as Schema>::spec_schema() == JsonSpec::Object(
            seq![
                ("type"@, JsonSpec::Str("integer"@)),
                ("minimum"@, JsonSpec::Int(-32768)),
                ("maximum"@, JsonSpec::Int(32767)),
            ],
        ),
        <i32 as Schema>::spec_schema() == JsonSpec::Object(
            seq![
                ("type"@, JsonSpec::Str("integer"@)),
                ("minimum"@, JsonSpec::Int(-2147483648)),
                ("maximum"@, JsonSpec::Int(2147483647)),
            ],
        ),
        <i64 as Schema>::spec_schema() == JsonSpec::Object(
            seq![
                ("type"@, JsonSpec::Str("integer"@)),
                ("minimum"@, JsonSpec::Int(-9223372036854775808)),
                ("maximum"@, JsonSpec::Int(9223372036854775807)),
            ],
        ),
        <i128 as Schema>::spec_schema() == JsonSpec::Object(
            seq![
                ("type"@, JsonSpec::Str("integer"@)),
                ("minimum"@, JsonSpec::Int(-170141183460469231731687303715884105728)),
                ("maximum"@, JsonSpec::Int(170141183460469231731687303715884105727)),
            ],
        ),
        <u8 as Schema>::spec_schema() == JsonSpec::Object(
            seq![
                ("type"@, JsonSpec::Str("integer"@)),
                ("minimum"@, JsonSpec::Int(0)),
                ("maximum"@, JsonSpec::Int(255)),
            ],
        ),
        <u16 as Schema>::spec_schema() == JsonSpec::Object(
            seq![
                ("type"@, JsonSpec::Str("integer"@)),
                ("minimum"@, JsonSpec::Int(0)),
                ("maximum"@, JsonSpec::Int(65535)),
            ],
        ),
        <u32 as Schema>::spec_schema() == JsonSpec::Object(
            seq![
                ("type"@, JsonSpec::Str("integer"@)),
                ("minimum"@, JsonSpec::Int(0)),
                ("maximum"@, JsonSpec::Int(4294967295)),
            ],
        ),
        <u64 as Schema>::spec_schema() == JsonSpec::Object(
            seq![
                ("type"@, JsonSpec::Str("integer"@)),
                ("minimum"@, JsonSpec::Int(0)),
                ("maximum"@, JsonSpec::Int(18446744073709551615)),
            ],
        ),
        <u128 as Schema>::spec_schema() == JsonSpec::Object(
            seq![
                ("type"@, JsonSpec::Str("integer"@)),
                ("minimum"@, JsonSpec::Int(0)),
                ("maximum"@, JsonSpec::Int(340282366920938463463374607431768211455)),
            ],
        ),
{
}


// ---------------------------------------------------------------------
// Non-zero integers
// ---------------------------------------------------------------------

/// The schema of the non-zero integers from `min` to `max`.
pub open spec fn nonzero_schema(min: int, max: int) -> JsonSpec {
    obj(
        seq![
            ("type"@, JsonSpec::Str("integer"@)),
            ("not"@, obj(seq![("const"@, JsonSpec::Int(0))])),
            ("maximum"@, JsonSpec::Int(max)),
            ("minimum"@, JsonSpec::Int(min)),
        ],
    )
}

/// The schema of the non-zero integers from `min` to `max` is an
/// integer schema with `min` as its `minimum`, `max` as its `maximum`,
/// and the value 0 excluded by `"not": {"const": 0}`; it has no other
/// entries.
pub proof fn lemma_nonzero_schema(min: int, max: int)
    ensures
        nonzero_schema(min, max) matches JsonSpec::Object(es) && es.len() == 4 && lookup(es, "type"@) == Some(
            JsonSpec::Str("integer"@),
        ) && lookup(es, "minimum"@) == Some(JsonSpec::Int(min)) && lookup(es, "maximum"@) == Some(
            JsonSpec::Int(max),
        ) && lookup(es, "not"@) == Some(JsonSpec::Object(seq![("const"@, JsonSpec::Int(0))])),
{
    reveal_strlit("type");
    reveal_strlit("not");
    reveal_strlit("minimum");
    reveal_strlit("maximum");
    assert("minimum"@[1] != "maximum"@[1]);
    assert("type"@[0] != "not"@[0] && "type"@[0] != "minimum"@[0] && "type"@[0] != "maximum"@[0]);
    assert("not"@[0] != "minimum"@[0] && "not"@[0] != "maximum"@[0]);
    let es = seq![
        ("type"@, JsonSpec::Str("integer"@)),
        ("not"@, obj(seq![("const"@, JsonSpec::Int(0))])),
        ("maximum"@, JsonSpec::Int(max)),
        ("minimum"@, JsonSpec::Int(min)),
    ];
    lemma_lookup_unique(es);
    assert(es[0].0 == "type"@);
    assert(es[1].0 == "not"@);
    assert(es[2].0 == "maximum"@);
    assert(es[3].0 == "minimum"@);
}

/// Builds the schema of the non-zero integers from `min` to `max`.
pub fn build_nonzero_schema(min: Json, max: Json) -> (r: Json)
    ensures
        r@ == obj(
            seq![
                ("type"@, JsonSpec::Str("integer"@)),
                ("not"@, obj(seq![("const"@, JsonSpec::Int(0))])),
                ("maximum"@, max@),
                ("minimum"@, min@),
            ],
        ),
        is_unique_object(r@),
{
    let zero = vec![entry("const", Json::PosInt(0))];
    proof {
        lemma_object_view(zero);
        assert(entries_view(zero@) =~= seq![("const"@, JsonSpec::Int(0))]);
    }
    proof {
        reveal_strlit("type");
        reveal_strlit("not");
        reveal_strlit("minimum");
        reveal_strlit("maximum");
        assert("minimum"@[1] != "maximum"@[1]);
        assert("type"@[0] != "not"@[0] && "type"@[0] != "minimum"@[0] && "type"@[0] != "maximum"@[0]);
        assert("not"@[0] != "minimum"@[0] && "not"@[0] != "maximum"@[0]);
    }
    object4("type", string("integer"), "not", Json::Object(zero), "maximum", max, "minimum", min)
}

/// The schema of `core::num::NonZeroI8`: the non-zero `i8` values.
pub fn nonzero_i8_schema() -> (r: Json)
    ensures
        r@ == nonzero_schema(i8::MIN as int, i8::MAX as int),
{
    build_nonzero_schema(Json::NegInt(i8::MIN as i128), Json::PosInt(i8::MAX as u128))
}

/// The schema of `core::num::NonZeroI16`: the non-zero `i16` values.
pub fn nonzero_i16_schema() -> (r: Json)
    ensures
        r@ == nonzero_schema(i16::MIN as int, i16::MAX as int),
{
    build_nonzero_schema(Json::NegInt(i16::MIN as i128), Json::PosInt(i16::MAX as u128))
}

/// The schema of `core::num::NonZeroI32`: the non-zero `i32` values.
pub fn nonzero_i32_schema() -> (r: Json)
    ensures
        r@ == nonzero_schema(i32::MIN as int, i32::MAX as int),
{
    build_nonzero_schema(Json::NegInt(i32::MIN as i128), Json::PosInt(i32::MAX as u128))
}

/// The schema of `core::num::NonZeroI64`: the non-zero `i64` values.
pub fn nonzero_i64_schema() -> (r: Json)
    ensures
        r@ == nonzero_schema(i64::MIN as int, i64::MAX as int),
{
    build_nonzero_schema(Json::NegInt(i64::MIN as i128), Json::PosInt(i64::MAX as u128))
}

/// The schema of `core::num::NonZeroI128`: the non-zero `i128` values.
pub fn nonzero_i128_schema() -> (r: Json)
    ensures
        r@ == nonzero_schema(i128::MIN as int, i128::MAX as int),
{
    build_nonzero_schema(Json::NegInt(i128::MIN), Json::PosInt(i128::MAX as u128))
}

/// The schema of `core::num::NonZeroIsize`: the non-zero `isize` values.
pub fn nonzero_isize_schema() -> (r: Json)
    ensures
        r@ == nonzero_schema(isize::MIN as int, isize::MAX as int),
{
    build_nonzero_schema(Json::NegInt(isize::MIN as i128), Json::PosInt(isize::MAX as u128))
}

/// The schema of `core::num::NonZeroU8`: the non-zero `u8` values.
pub fn nonzero_u8_schema() -> (r: Json)
    ensures
        r@ == nonzero_schema(1, u8::MAX as int),
{
    build_nonzero_schema(Json::PosInt(1), Json::PosInt(u8::MAX as u128))
}

/// The schema of `core::num::NonZeroU16`: the non-zero `u16` values.
pub fn nonzero_u16_schema() -> (r: Json)
    ensures
        r@ == nonzero_schema(1, u16::MAX as int),
{
    build_nonzero_schema(Json::PosInt(1), Json::PosInt(u16::MAX as u128))
}

/// The schema of `core::num::NonZeroU32`: the non-zero `u32` values.
pub fn nonzero_u32_schema() -> (r: Json)
    ensures
        r@ == nonzero_schema(1, u32::MAX as int),
{
    build_nonzero_schema(Json::PosInt(1), Json::PosInt(u32::MAX as u128))
}

/// The schema of `core::num::NonZeroU64`: the non-zero `u64` values.
pub fn nonzero_u64_schema() -> (r: Json)
    ensures
        r@ == nonzero_schema(1, u64::MAX as int),
{
    build_nonzero_schema(Json::PosInt(1), Json::PosInt(u64::MAX as u128))
}

/// The schema of `core::num::NonZeroU128`: the non-zero `u128` values.
pub fn nonzero_u128_schema() -> (r: Json)
    ensures
        r@ == nonzero_schema(1, u128::MAX as int),
{
    build_nonzero_schema(Json::PosInt(1), Json::PosInt(u128::MAX))
}

/// The schema of `core::num::NonZeroUsize`: the non-zero `usize` values.
pub fn nonzero_usize_schema() -> (r: Json)
    ensures
        r@ == nonzero_schema(1, usize::MAX as int),
{
    build_nonzero_schema(Json::PosInt(1), Json::PosInt(usize::MAX as u128))
}

} // verus!
