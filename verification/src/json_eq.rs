//! Equality of JSON values.
//!
//! Two values are equal as `serde_json` values are: objects are maps,
//! so the order of their entries does not matter and a key stands for
//! the value of its last entry; numbers are equal when they are the
//! same integer, or the same floating-point number.

use vstd::prelude::*;
use vstd::std_specs::cmp::PartialEqSpecImpl;
use crate::json::{entries_view, items_view, lemma_array_view, lemma_object_view, Json, JsonSpec};

verus! {

/// Whether the binary64 number with bit pattern `x` is NaN.
pub open spec fn is_nan_bits(x: u64) -> bool {
    (x & 0x7ff0_0000_0000_0000u64) == 0x7ff0_0000_0000_0000u64 && (x & 0x000f_ffff_ffff_ffffu64) != 0
}

/// Whether the binary64 numbers with bit patterns `x` and `y` are
/// equal: neither is NaN, and they are the same number (the two zeros
/// are equal).
pub open spec fn float_bits_eq(x: u64, y: u64) -> bool {
    &&& !is_nan_bits(x)
    &&& !is_nan_bits(y)
    &&& (x == y || ((x & 0x7fff_ffff_ffff_ffffu64) == 0 && (y & 0x7fff_ffff_ffff_ffffu64) == 0))
}

/// The index of the last entry with key `key` among the first `n`.
pub open spec fn last_key_from(es: Seq<(Seq<char>, JsonSpec)>, key: Seq<char>, n: int) -> Option<int>
    decreases n,
{
    if n <= 0 || n > es.len() {
        None
    } else if es[n - 1].0 == key {
        Some(n - 1)
    } else {
        last_key_from(es, key, n - 1)
    }
}

/// The index of the last entry with key `key`: the entry that gives
/// the key its value.
pub open spec fn last_key(es: Seq<(Seq<char>, JsonSpec)>, key: Seq<char>) -> Option<int> {
    last_key_from(es, key, es.len() as int)
}

/// Whether every key of `fs` is a key of `es`.
pub open spec fn keys_covered(fs: Seq<(Seq<char>, JsonSpec)>, es: Seq<(Seq<char>, JsonSpec)>) -> bool {
    forall|j: int| 0 <= j < fs.len() ==> (#[trigger] last_key(es, fs[j].0)) is Some
}

/// Whether two JSON values are equal.
pub open spec fn json_equiv(a: JsonSpec, b: JsonSpec) -> bool
    decreases a, 0int,
{
    match a {
        JsonSpec::Null => b is Null,
        JsonSpec::Bool(x) => b matches JsonSpec::Bool(y) && x == y,
        JsonSpec::Int(x) => b matches JsonSpec::Int(y) && x == y,
        JsonSpec::Float(x) => b matches JsonSpec::Float(y) && float_bits_eq(x, y),
        JsonSpec::Str(x) => b matches JsonSpec::Str(y) && x == y,
        JsonSpec::Array(xs) => match b {
            JsonSpec::Array(ys) => xs.len() == ys.len() && items_equiv_from(xs, ys, 0),
            _ => false,
        },
        JsonSpec::Object(es) => match b {
            JsonSpec::Object(fs) => entries_equiv_from(es, fs, 0) && keys_covered(fs, es),
            _ => false,
        },
    }
}

/// Whether the items of `xs` from `i` on equal those of `ys` at the
/// same places.
pub open spec fn items_equiv_from(xs: Seq<JsonSpec>, ys: Seq<JsonSpec>, i: int) -> bool
    decreases xs, xs.len() - i,
{
    if 0 <= i < xs.len() {
        proof {
            assert(decreases_to!(xs => xs[i]));
        }
        json_equiv(xs[i], ys[i]) && items_equiv_from(xs, ys, i + 1)
    } else {
        true
    }
}

/// Whether every entry of `es` from `i` on that gives its key its
/// value has a key of `fs` whose value in `fs` equals it.
pub open spec fn entries_equiv_from(
    es: Seq<(Seq<char>, JsonSpec)>,
    fs: Seq<(Seq<char>, JsonSpec)>,
    i: int,
) -> bool
    decreases es, es.len() - i,
{
    if 0 <= i < es.len() {
        proof {
            assert(decreases_to!(es => es[i]));
            assert(decreases_to!(es[i] => es[i].1));
        }
        let here = if last_key(es, es[i].0) == Some(i) {
            match last_key(fs, es[i].0) {
                Some(j) => 0 <= j < fs.len() && json_equiv(es[i].1, fs[j].1),
                None => false,
            }
        } else {
            true
        };
        here && entries_equiv_from(es, fs, i + 1)
    } else {
        true
    }
}

/// The index of the last entry with key `key`.
fn last_key_index(es: &Vec<(String, Json)>, key: &String) -> (r: Option<usize>)
    ensures
        match r {
            Some(j) => j < es@.len() && last_key(entries_view(es@), key@) == Some(j as int),
            None => last_key(entries_view(es@), key@) is None,
        },
{
    let ghost ev = entries_view(es@);
    let mut n = es.len();
    while n > 0
        invariant
            n <= es@.len(),
            ev == entries_view(es@),
            last_key(ev, key@) == last_key_from(ev, key@, n as int),
        decreases n,
    {
        if es[n - 1].0 == *key {
            return Some(n - 1);
        }
        n = n - 1;
    }
    None
}

fn float_equal(x: u64, y: u64) -> (r: bool)
    ensures
        r == float_bits_eq(x, y),
{
    let nan_x = (x & 0x7ff0_0000_0000_0000u64) == 0x7ff0_0000_0000_0000u64 && (x & 0x000f_ffff_ffff_ffffu64)
        != 0;
    let nan_y = (y & 0x7ff0_0000_0000_0000u64) == 0x7ff0_0000_0000_0000u64 && (y & 0x000f_ffff_ffff_ffffu64)
        != 0;
    !nan_x && !nan_y && (x == y || ((x & 0x7fff_ffff_ffff_ffffu64) == 0 && (y & 0x7fff_ffff_ffff_ffffu64)
        == 0))
}

/// Whether `a` and `b` are equal JSON values.
pub fn json_equal(a: &Json, b: &Json) -> (r: bool)
    ensures
        r == json_equiv(a@, b@),
    decreases a,
{
    match a {
        Json::Null => match b {
            Json::Null => true,
            _ => false,
        },
        Json::Bool(x) => match b {
            Json::Bool(y) => *x == *y,
            _ => false,
        },
        Json::PosInt(x) => match b {
            Json::PosInt(y) => *x == *y,
            Json::NegInt(y) => *y >= 0 && *x == *y as u128,
            _ => false,
        },
        Json::NegInt(x) => match b {
            Json::PosInt(y) => *x >= 0 && *x as u128 == *y,
            Json::NegInt(y) => *x == *y,
            _ => false,
        },
        Json::Float(x) => match b {
            Json::Float(y) => float_equal(*x, *y),
            _ => false,
        },
        Json::Str(x) => match b {
            Json::Str(y) => *x == *y,
            _ => false,
        },
        Json::Array(xs) => match b {
            Json::Array(ys) => {
                proof {
                    lemma_array_view(*xs);
                    lemma_array_view(*ys);
                }
                let ghost xv = items_view(xs@);
                let ghost yv = items_view(ys@);
                if xs.len() != ys.len() {
                    return false;
                }
                let mut i: usize = 0;
                while i < xs.len()
                    invariant
                        *a == Json::Array(*xs),
                        a@ == JsonSpec::Array(xv),
                        b@ == JsonSpec::Array(yv),
                        xs@.len() == ys@.len(),
                        xv == items_view(xs@),
                        yv == items_view(ys@),
                        i <= xs@.len(),
                        items_equiv_from(xv, yv, 0) == items_equiv_from(xv, yv, i as int),
                    decreases xs@.len() - i,
                {
                    proof {
                        assert(decreases_to!(*a => (*a)->Array_0));
                        assert(decreases_to!(xs => xs@));
                        assert(decreases_to!(xs@ => xs@[i as int]));
                    }
                    assert(xv[i as int] == xs@[i as int]@ && yv[i as int] == ys@[i as int]@);
                    if !json_equal(&xs[i], &ys[i]) {
                        return false;
                    }
                    i = i + 1;
                }
                true
            },
            _ => false,
        },
        Json::Object(es) => match b {
            Json::Object(fs) => {
                proof {
                    lemma_object_view(*es);
                    lemma_object_view(*fs);
                }
                let ghost ev = entries_view(es@);
                let ghost fv = entries_view(fs@);
                let mut i: usize = 0;
                while i < es.len()
                    invariant
                        *a == Json::Object(*es),
                        a@ == JsonSpec::Object(ev),
                        b@ == JsonSpec::Object(fv),
                        ev == entries_view(es@),
                        fv == entries_view(fs@),
                        i <= es@.len(),
                        entries_equiv_from(ev, fv, 0) == entries_equiv_from(ev, fv, i as int),
                    decreases es@.len() - i,
                {
                    let k = &es[i].0;
                    assert(ev[i as int].0 == k@ && ev[i as int].1 == es@[i as int].1@);
                    let own = last_key_index(es, k);
                    if own == Some(i) {
                        match last_key_index(fs, k) {
                            None => {
                                return false;
                            },
                            Some(j) => {
                                proof {
                                    assert(decreases_to!(*a => (*a)->Object_0));
                                    assert(decreases_to!(es => es@));
                                    assert(decreases_to!(es@ => es@[i as int]));
                                    assert(decreases_to!(es@[i as int] => es@[i as int].1));
                                }
                                assert(fv[j as int].1 == fs@[j as int].1@);
                                if !json_equal(&es[i].1, &fs[j].1) {
                                    return false;
                                }
                            },
                        }
                    }
                    i = i + 1;
                }
                let mut j: usize = 0;
                while j < fs.len()
                    invariant
                        a@ == JsonSpec::Object(ev),
                        b@ == JsonSpec::Object(fv),
                        ev == entries_view(es@),
                        fv == entries_view(fs@),
                        j <= fs@.len(),
                        entries_equiv_from(ev, fv, 0),
                        forall|m: int| 0 <= m < j ==> (#[trigger] last_key(ev, fv[m].0)) is Some,
                    decreases fs@.len() - j,
                {
                    assert(fv[j as int].0 == fs@[j as int].0@);
                    if last_key_index(es, &fs[j].0).is_none() {
                        assert(last_key(ev, fv[j as int].0) is None);
                        return false;
                    }
                    j = j + 1;
                }
                true
            },
            _ => false,
        },
    }
}

impl PartialEq for Json {
    fn eq(&self, other: &Self) -> (r: bool) {
        json_equal(self, other)
    }
}

impl PartialEqSpecImpl for Json {
    open spec fn obeys_eq_spec() -> bool {
        true
    }

    open spec fn eq_spec(&self, other: &Self) -> bool {
        json_equiv(self@, other@)
    }
}


// ---------------------------------------------------------------------
// Laws of equality
// ---------------------------------------------------------------------

proof fn lemma_last_key_from(es: Seq<(Seq<char>, JsonSpec)>, key: Seq<char>, n: int)
    requires
        0 <= n <= es.len(),
    ensures
        match last_key_from(es, key, n) {
            Some(i) => 0 <= i < n && es[i].0 == key && forall|j: int| i < j < n ==> #[trigger] es[j].0 != key,
            None => forall|j: int| 0 <= j < n ==> #[trigger] es[j].0 != key,
        },
    decreases n,
{
    if n > 0 && es[n - 1].0 != key {
        lemma_last_key_from(es, key, n - 1);
    }
}

/// The entry that gives a key its value is its last entry: `last_key`
/// finds an entry with the key after which no entry has it, or finds
/// none when no entry has the key.
pub proof fn lemma_last_key(es: Seq<(Seq<char>, JsonSpec)>, key: Seq<char>)
    ensures
        match last_key(es, key) {
            Some(i) => 0 <= i < es.len() && es[i].0 == key && forall|j: int|
                i < j < es.len() ==> #[trigger] es[j].0 != key,
            None => forall|j: int| 0 <= j < es.len() ==> #[trigger] es[j].0 != key,
        },
{
    lemma_last_key_from(es, key, es.len() as int);
}

/// Null, booleans, integers and strings are equal exactly when they are
/// the same value.
pub proof fn lemma_json_equal_scalars(a: JsonSpec, b: JsonSpec)
    requires
        a is Null || a is Bool || a is Int || a is Str,
    ensures
        json_equiv(a, b) <==> a == b,
{
}

/// Values of different kinds are never equal.
pub proof fn lemma_json_equal_kinds(a: JsonSpec, b: JsonSpec)
    ensures
        json_equiv(a, b) ==> {
            &&& a is Null <==> b is Null
            &&& a is Bool <==> b is Bool
            &&& a is Int <==> b is Int
            &&& a is Float <==> b is Float
            &&& a is Str <==> b is Str
            &&& a is Array <==> b is Array
            &&& a is Object <==> b is Object
        },
{
}

/// Floating-point numbers are equal when they are the same number that
/// is not NaN; the two zeros are equal, and NaN equals nothing.
pub proof fn lemma_json_equal_floats(x: u64, y: u64)
    ensures
        x == y && !is_nan_bits(x) ==> json_equiv(JsonSpec::Float(x), JsonSpec::Float(y)),
        is_nan_bits(x) || is_nan_bits(y) ==> !json_equiv(JsonSpec::Float(x), JsonSpec::Float(y)),
        x != y && !((x & 0x7fff_ffff_ffff_ffffu64) == 0 && (y & 0x7fff_ffff_ffff_ffffu64) == 0)
            ==> !json_equiv(JsonSpec::Float(x), JsonSpec::Float(y)),
        (x & 0x7fff_ffff_ffff_ffffu64) == 0 && (y & 0x7fff_ffff_ffff_ffffu64) == 0 ==> json_equiv(
            JsonSpec::Float(x),
            JsonSpec::Float(y),
        ),
{
    if (x & 0x7fff_ffff_ffff_ffffu64) == 0 {
        assert((x & 0x7fff_ffff_ffff_ffffu64) == 0 ==> !is_nan_bits(x)) by (bit_vector);
    }
    if (y & 0x7fff_ffff_ffff_ffffu64) == 0 {
        assert((y & 0x7fff_ffff_ffff_ffffu64) == 0 ==> !is_nan_bits(y)) by (bit_vector);
    }
}

proof fn lemma_items_equiv_from(xs: Seq<JsonSpec>, ys: Seq<JsonSpec>, i: int)
    requires
        0 <= i <= xs.len(),
    ensures
        items_equiv_from(xs, ys, i) <==> forall|k: int| i <= k < xs.len() ==> json_equiv(
            #[trigger] xs[k],
            ys[k],
        ),
    decreases xs.len() - i,
{
    if i < xs.len() {
        lemma_items_equiv_from(xs, ys, i + 1);
    }
}

/// Arrays are equal exactly when they have the same length and equal
/// items at every place.
pub proof fn lemma_json_equal_arrays(xs: Seq<JsonSpec>, ys: Seq<JsonSpec>)
    ensures
        json_equiv(JsonSpec::Array(xs), JsonSpec::Array(ys)) <==> (xs.len() == ys.len() && forall|k: int|
            0 <= k < xs.len() ==> json_equiv(#[trigger] xs[k], ys[k])),
{
    lemma_items_equiv_from(xs, ys, 0);
}

proof fn lemma_entries_equiv_from(es: Seq<(Seq<char>, JsonSpec)>, fs: Seq<(Seq<char>, JsonSpec)>, i: int)
    requires
        0 <= i <= es.len(),
    ensures
        entries_equiv_from(es, fs, i) <==> forall|k: int|
            i <= k < es.len() && last_key(es, (#[trigger] es[k]).0) == Some(k) ==> (last_key(
                fs,
                es[k].0,
            ) matches Some(j) && 0 <= j < fs.len() && json_equiv(es[k].1, fs[j].1)),
    decreases es.len() - i,
{
    if i < es.len() {
        lemma_entries_equiv_from(es, fs, i + 1);
    }
}

/// Whether entry `i` of `es` is the last entry of its key: the one
/// that gives the key its value.
pub open spec fn is_last_of_key(es: Seq<(Seq<char>, JsonSpec)>, i: int) -> bool {
    0 <= i < es.len() && forall|m: int| i < m < es.len() ==> #[trigger] es[m].0 != es[i].0
}

/// Whether every key of `fs` is a key of `es`.
pub open spec fn has_all_keys_of(es: Seq<(Seq<char>, JsonSpec)>, fs: Seq<(Seq<char>, JsonSpec)>) -> bool {
    forall|j: int| 0 <= j < fs.len() ==> exists|i: int| 0 <= i < es.len() && #[trigger] es[i].0 == (#[trigger] fs[j]).0
}

/// Whether the value of every key of `es` equals the value of the same
/// key in `fs`.
pub open spec fn values_found_in(es: Seq<(Seq<char>, JsonSpec)>, fs: Seq<(Seq<char>, JsonSpec)>) -> bool {
    forall|i: int|
        #[trigger] is_last_of_key(es, i) ==> exists|j: int|
            #[trigger] is_last_of_key(fs, j) && fs[j].0 == es[i].0 && json_equiv(es[i].1, fs[j].1)
}

proof fn lemma_is_last_of_key(es: Seq<(Seq<char>, JsonSpec)>, i: int)
    requires
        0 <= i < es.len(),
    ensures
        is_last_of_key(es, i) <==> last_key(es, es[i].0) == Some(i),
{
    lemma_last_key(es, es[i].0);
    if is_last_of_key(es, i) {
        let li = last_key(es, es[i].0);
        if li != Some(i) {
            let i2 = li->0;
            if i2 < i {
                assert(es[i].0 != es[i].0);
            } else {
                assert(es[i2].0 != es[i].0);
            }
        }
    }
}

proof fn lemma_objects_equal_forward(es: Seq<(Seq<char>, JsonSpec)>, fs: Seq<(Seq<char>, JsonSpec)>)
    requires
        json_equiv(JsonSpec::Object(es), JsonSpec::Object(fs)),
    ensures
        has_all_keys_of(es, fs),
        values_found_in(es, fs),
{
    lemma_entries_equiv_from(es, fs, 0);
    assert forall|j: int| 0 <= j < fs.len() implies exists|i: int|
        0 <= i < es.len() && #[trigger] es[i].0 == (#[trigger] fs[j]).0 by {
        assert(last_key(es, fs[j].0) is Some);
        lemma_last_key(es, fs[j].0);
        let i = last_key(es, fs[j].0)->0;
        assert(es[i].0 == fs[j].0);
    }
    assert forall|i: int| #[trigger] is_last_of_key(es, i) implies exists|j: int|
        #[trigger] is_last_of_key(fs, j) && fs[j].0 == es[i].0 && json_equiv(es[i].1, fs[j].1) by {
        lemma_is_last_of_key(es, i);
        assert(last_key(es, es[i].0) == Some(i));
        let j = last_key(fs, es[i].0)->0;
        lemma_last_key(fs, es[i].0);
        lemma_is_last_of_key(fs, j);
    }
}

proof fn lemma_objects_equal_backward(es: Seq<(Seq<char>, JsonSpec)>, fs: Seq<(Seq<char>, JsonSpec)>)
    requires
        has_all_keys_of(es, fs),
        values_found_in(es, fs),
    ensures
        json_equiv(JsonSpec::Object(es), JsonSpec::Object(fs)),
{
    lemma_entries_equiv_from(es, fs, 0);
    assert forall|k: int|
        0 <= k < es.len() && last_key(es, (#[trigger] es[k]).0) == Some(k) implies (last_key(
            fs,
            es[k].0,
        ) matches Some(j) && 0 <= j < fs.len() && json_equiv(es[k].1, fs[j].1)) by {
        lemma_is_last_of_key(es, k);
        assert(is_last_of_key(es, k));
        let j = choose|j: int|
            #[trigger] is_last_of_key(fs, j) && fs[j].0 == es[k].0 && json_equiv(es[k].1, fs[j].1);
        lemma_is_last_of_key(fs, j);
    }
    assert forall|j: int| 0 <= j < fs.len() implies (#[trigger] last_key(es, fs[j].0)) is Some by {
        let i = choose|i: int| 0 <= i < es.len() && #[trigger] es[i].0 == (#[trigger] fs[j]).0;
        lemma_last_key(es, fs[j].0);
        assert(es[i].0 == fs[j].0);
    }
}

/// Objects are equal exactly when they are equal as maps: every key of
/// the second is a key of the first, and the value of every key of the
/// first (given by its last entry) equals the value of that key in the
/// second.
pub proof fn lemma_json_equal_objects(es: Seq<(Seq<char>, JsonSpec)>, fs: Seq<(Seq<char>, JsonSpec)>)
    ensures
        json_equiv(JsonSpec::Object(es), JsonSpec::Object(fs)) <==> (has_all_keys_of(es, fs)
            && values_found_in(es, fs)),
{
    if json_equiv(JsonSpec::Object(es), JsonSpec::Object(fs)) {
        lemma_objects_equal_forward(es, fs);
    }
    if has_all_keys_of(es, fs) && values_found_in(es, fs) {
        lemma_objects_equal_backward(es, fs);
    }
}

} // verus!
