//! A JSON value model.
//!
//! Schemas and tool specifications are JSON documents. The library
//! builds them as [`Json`] trees, whose mathematical meaning is a
//! [`JsonSpec`] value: integers are mathematical integers, strings
//! are character sequences, and objects are association lists in
//! insertion order.

use vstd::prelude::*;

verus! {

/// The mathematical meaning of a [`Json`] value.
pub enum JsonSpec {
    Null,
    Bool(bool),
    Int(int),
    /// A floating-point number, given by its IEEE-754 binary64 bit pattern.
    Float(u64),
    Str(Seq<char>),
    Array(Seq<JsonSpec>),
    Object(Seq<(Seq<char>, JsonSpec)>),
}

/// A JSON value.
#[derive(Debug)]
pub enum Json {
    Null,
    Bool(bool),
    /// A non-negative integer.
    PosInt(u128),
    /// A negative integer.
    NegInt(i128),
    /// A floating-point number, given by its IEEE-754 binary64 bit pattern.
    Float(u64),
    Str(String),
    Array(Vec<Json>),
    Object(Vec<(String, Json)>),
}

impl Json {
    pub open spec fn spec_view(self) -> JsonSpec
        decreases self,
    {
        match self {
            Json::Null => JsonSpec::Null,
            Json::Bool(b) => JsonSpec::Bool(b),
            Json::PosInt(n) => JsonSpec::Int(n as int),
            Json::NegInt(n) => JsonSpec::Int(n as int),
            Json::Float(bits) => JsonSpec::Float(bits),
            Json::Str(s) => JsonSpec::Str(s@),
            Json::Array(items) => JsonSpec::Array(
                Seq::new(
                    items@.len(),
                    |i: int|
                        if 0 <= i < items@.len() {
                            proof {
                                assert(decreases_to!(items => items@));
                                assert(decreases_to!(items@ => items@[i]));
                            }
                            items@[i].spec_view()
                        } else {
                            JsonSpec::Null
                        },
                ),
            ),
            Json::Object(entries) => JsonSpec::Object(
                Seq::new(
                    entries@.len(),
                    |i: int|
                        if 0 <= i < entries@.len() {
                            proof {
                                assert(decreases_to!(entries => entries@));
                                assert(decreases_to!(entries@ => entries@[i]));
                                assert(decreases_to!(entries@[i] => entries@[i].1));
                            }
                            (entries@[i].0@, entries@[i].1.spec_view())
                        } else {
                            (Seq::empty(), JsonSpec::Null)
                        },
                ),
            ),
        }
    }
}

impl View for Json {
    type V = JsonSpec;

    open spec fn view(&self) -> JsonSpec {
        self.spec_view()
    }
}


/// A copy of `j`.
pub fn deep_copy(j: &Json) -> (r: Json)
    ensures
        r@ == j@,
    decreases j,
{
    match j {
        Json::Null => Json::Null,
        Json::Bool(b) => Json::Bool(*b),
        Json::PosInt(n) => Json::PosInt(*n),
        Json::NegInt(n) => Json::NegInt(*n),
        Json::Float(bits) => Json::Float(*bits),
        Json::Str(s) => Json::Str(s.clone()),
        Json::Array(items) => {
            let mut out: Vec<Json> = Vec::new();
            let mut i: usize = 0;
            while i < items.len()
                invariant
                    *j == Json::Array(*items),
                    i <= items@.len(),
                    out@.len() == i,
                    forall|k: int| 0 <= k < i ==> (#[trigger] out@[k])@ == items@[k]@,
                decreases items@.len() - i,
            {
                proof {
                    assert(decreases_to!(*j => (*j)->Array_0));
                    assert(decreases_to!(items => items@));
                    assert(decreases_to!(items@ => items@[i as int]));
                }
                let c = deep_copy(&items[i]);
                out.push(c);
                i = i + 1;
            }
            proof {
                lemma_array_view(out);
                lemma_array_view(*items);
                assert(items_view(out@) =~= items_view(items@));
            }
            Json::Array(out)
        },
        Json::Object(entries) => {
            let mut out: Vec<(String, Json)> = Vec::new();
            let mut i: usize = 0;
            while i < entries.len()
                invariant
                    *j == Json::Object(*entries),
                    i <= entries@.len(),
                    out@.len() == i,
                    forall|k: int|
                        0 <= k < i ==> (#[trigger] out@[k]).0@ == entries@[k].0@ && out@[k].1@
                            == entries@[k].1@,
                decreases entries@.len() - i,
            {
                proof {
                    assert(decreases_to!(*j => (*j)->Object_0));
                    assert(decreases_to!(entries => entries@));
                    assert(decreases_to!(entries@ => entries@[i as int]));
                    assert(decreases_to!(entries@[i as int] => entries@[i as int].1));
                }
                let k = entries[i].0.clone();
                let v = deep_copy(&entries[i].1);
                out.push((k, v));
                i = i + 1;
            }
            proof {
                lemma_object_view(out);
                lemma_object_view(*entries);
                assert(entries_view(out@) =~= entries_view(entries@));
            }
            Json::Object(out)
        },
    }
}

impl Clone for Json {
    fn clone(&self) -> (r: Self)
        ensures
            r@ == self@,
    {
        deep_copy(self)
    }
}

/// The meaning of a list of object entries.
pub open spec fn entries_view(es: Seq<(String, Json)>) -> Seq<(Seq<char>, JsonSpec)> {
    Seq::new(es.len(), |i: int| (es[i].0@, es[i].1@))
}

/// The meaning of a list of array items.
pub open spec fn items_view(items: Seq<Json>) -> Seq<JsonSpec> {
    Seq::new(items.len(), |i: int| items[i]@)
}

/// The index of the first entry with key `key`, from index `i` on.
pub open spec fn find_key_from(entries: Seq<(Seq<char>, JsonSpec)>, key: Seq<char>, i: int) -> Option<
    int,
>
    decreases entries.len() - i,
{
    if i < 0 || i >= entries.len() {
        None
    } else if entries[i].0 == key {
        Some(i)
    } else {
        find_key_from(entries, key, i + 1)
    }
}

/// The index of the first entry with key `key`.
pub open spec fn find_key(entries: Seq<(Seq<char>, JsonSpec)>, key: Seq<char>) -> Option<int> {
    find_key_from(entries, key, 0)
}

/// The value of the first entry with key `key`.
pub open spec fn lookup(entries: Seq<(Seq<char>, JsonSpec)>, key: Seq<char>) -> Option<JsonSpec> {
    match find_key(entries, key) {
        Some(i) => Some(entries[i].1),
        None => None,
    }
}

/// Whether no key occurs twice among `entries`.
pub open spec fn keys_unique(entries: Seq<(Seq<char>, JsonSpec)>) -> bool {
    forall|i: int, j: int|
        0 <= i < entries.len() && 0 <= j < entries.len() && i != j ==> #[trigger] entries[i].0
            != #[trigger] entries[j].0
}

/// Whether `j` is an object whose keys are all different, as the keys
/// of a JSON object are.
pub open spec fn is_unique_object(j: JsonSpec) -> bool {
    j matches JsonSpec::Object(es) && keys_unique(es)
}

/// Sets the entry `key` of an object to `value`: the entry keeps its
/// place if the key is present, and is appended otherwise.
pub open spec fn object_insert(
    entries: Seq<(Seq<char>, JsonSpec)>,
    key: Seq<char>,
    value: JsonSpec,
) -> Seq<(Seq<char>, JsonSpec)> {
    match find_key(entries, key) {
        Some(i) => entries.update(i, (key, value)),
        None => entries.push((key, value)),
    }
}

/// The search for a key from index `i` finds its first occurrence
/// there, or there is none.
pub proof fn lemma_find_key_from(entries: Seq<(Seq<char>, JsonSpec)>, key: Seq<char>, i: int)
    requires
        0 <= i,
    ensures
        match find_key_from(entries, key, i) {
            Some(k) => i <= k < entries.len() && entries[k].0 == key && forall|j: int|
                i <= j < k ==> #[trigger] entries[j].0 != key,
            None => forall|j: int| i <= j < entries.len() ==> #[trigger] entries[j].0 != key,
        },
    decreases entries.len() - i,
{
    if i < entries.len() && entries[i].0 != key {
        lemma_find_key_from(entries, key, i + 1);
    }
}

proof fn lemma_find_key_same_keys(
    s1: Seq<(Seq<char>, JsonSpec)>,
    s2: Seq<(Seq<char>, JsonSpec)>,
    key: Seq<char>,
    i: int,
)
    requires
        s1.len() == s2.len(),
        forall|j: int| 0 <= j < s1.len() ==> #[trigger] s1[j].0 == s2[j].0,
    ensures
        find_key_from(s1, key, i) == find_key_from(s2, key, i),
    decreases s1.len() - i,
{
    if 0 <= i < s1.len() && s1[i].0 != key {
        lemma_find_key_same_keys(s1, s2, key, i + 1);
    }
}

proof fn lemma_find_key_push(
    s: Seq<(Seq<char>, JsonSpec)>,
    e: (Seq<char>, JsonSpec),
    key: Seq<char>,
    i: int,
)
    requires
        0 <= i <= s.len(),
    ensures
        find_key_from(s.push(e), key, i) == match find_key_from(s, key, i) {
            Some(j) => Some(j),
            None => if e.0 == key {
                Some(s.len() as int)
            } else {
                None
            },
        },
    decreases s.len() - i,
{
    if i < s.len() {
        assert(s.push(e)[i] == s[i]);
        if s[i].0 != key {
            lemma_find_key_push(s, e, key, i + 1);
        }
    } else {
        assert(s.push(e)[i] == e);
        if e.0 != key {
            assert(find_key_from(s.push(e), key, i + 1) is None);
        }
    }
}

/// Object insertion sets the entry of its key and leaves the entries
/// of all other keys as they were; no key is repeated afterwards if
/// none was before.
pub proof fn lemma_object_insert(
    entries: Seq<(Seq<char>, JsonSpec)>,
    key: Seq<char>,
    value: JsonSpec,
)
    ensures
        lookup(object_insert(entries, key, value), key) == Some(value),
        forall|k: Seq<char>|
            k != key ==> #[trigger] lookup(object_insert(entries, key, value), k) == lookup(
                entries,
                k,
            ),
        keys_unique(entries) ==> keys_unique(object_insert(entries, key, value)),
        entries.len() <= object_insert(entries, key, value).len() <= entries.len() + 1,
{
    let r = object_insert(entries, key, value);
    lemma_find_key_from(entries, key, 0);
    match find_key(entries, key) {
        Some(i) => {
            lemma_find_key_from(r, key, 0);
            assert(r[i].0 == key);
            if find_key(r, key) != Some(i) {
                let j = find_key(r, key)->0;
                assert(j < i ==> r[j] == entries[j]);
            }
            assert forall|k: Seq<char>| k != key implies #[trigger] lookup(r, k) == lookup(
                entries,
                k,
            ) by {
                lemma_find_key_from(entries, k, 0);
                lemma_find_key_from(r, k, 0);
                match find_key(entries, k) {
                    Some(j) => {
                        assert(j != i);
                        assert(r[j] == entries[j]);
                        if find_key(r, k) != Some(j) {
                            let m = find_key(r, k)->0;
                            assert(m != i);
                            assert(r[m] == entries[m]);
                        }
                    },
                    None => {
                        if find_key(r, k) is Some {
                            let m = find_key(r, k)->0;
                            assert(m != i);
                            assert(r[m] == entries[m]);
                        }
                    },
                }
            }
            if keys_unique(entries) {
                assert forall|a: int, b: int|
                    0 <= a < r.len() && 0 <= b < r.len() && a != b implies #[trigger] r[a].0
                    != #[trigger] r[b].0 by {
                    assert(r[a].0 == entries[a].0);
                    assert(r[b].0 == entries[b].0);
                }
            }
        },
        None => {
            lemma_find_key_push(entries, (key, value), key, 0);
            assert forall|k: Seq<char>| k != key implies #[trigger] lookup(r, k) == lookup(
                entries,
                k,
            ) by {
                lemma_find_key_push(entries, (key, value), k, 0);
                lemma_find_key_from(entries, k, 0);
                if find_key(entries, k) is Some {
                    let j = find_key(entries, k)->0;
                    assert(r[j] == entries[j]);
                }
            }
            if keys_unique(entries) {
                assert forall|a: int, b: int|
                    0 <= a < r.len() && 0 <= b < r.len() && a != b implies #[trigger] r[a].0
                    != #[trigger] r[b].0 by {
                    if a < entries.len() && b < entries.len() {
                        assert(r[a] == entries[a]);
                        assert(r[b] == entries[b]);
                    } else if a < entries.len() {
                        assert(r[a] == entries[a]);
                        assert(entries[a].0 != key);
                    } else {
                        assert(r[b] == entries[b]);
                        assert(entries[b].0 != key);
                    }
                }
            }
        },
    }
}

/// In an object whose keys are all different, the value of each key is
/// the value of its entry, and a key without an entry has no value.
pub proof fn lemma_lookup_unique(entries: Seq<(Seq<char>, JsonSpec)>)
    requires
        keys_unique(entries),
    ensures
        forall|i: int| 0 <= i < entries.len() ==> lookup(entries, (#[trigger] entries[i]).0) == Some(entries[i].1),
        forall|k: Seq<char>|
            (forall|i: int| 0 <= i < entries.len() ==> (#[trigger] entries[i]).0 != k) ==> #[trigger] lookup(
                entries,
                k,
            ) is None,
{
    assert forall|i: int| 0 <= i < entries.len() implies lookup(entries, (#[trigger] entries[i]).0) == Some(
        entries[i].1,
    ) by {
        lemma_find_key_from(entries, entries[i].0, 0);
    }
    assert forall|k: Seq<char>|
        (forall|i: int| 0 <= i < entries.len() ==> (#[trigger] entries[i]).0 != k) implies #[trigger] lookup(
            entries,
            k,
        ) is None by {
        lemma_find_key_from(entries, k, 0);
    }
}

/// A `Json::Object` means the object of its entries' meanings.
pub proof fn lemma_object_view(es: Vec<(String, Json)>)
    ensures
        Json::Object(es)@ == JsonSpec::Object(entries_view(es@)),
{
    assert(JsonSpec::Object(entries_view(es@)) =~= Json::Object(es)@) by {
        if let JsonSpec::Object(v) = Json::Object(es)@ {
            assert(v =~= entries_view(es@));
        }
    }
}

/// A `Json::Array` means the array of its items' meanings.
pub proof fn lemma_array_view(items: Vec<Json>)
    ensures
        Json::Array(items)@ == JsonSpec::Array(items_view(items@)),
{
    if let JsonSpec::Array(v) = Json::Array(items)@ {
        assert(v =~= items_view(items@));
    }
}

/// A `String` with the characters of `s`.
pub fn text(s: &str) -> (r: String)
    ensures
        r@ == s@,
{
    broadcast use vstd::string::group_string_axioms;

    s.to_string()
}

/// The JSON string `s`.
pub fn string(s: &str) -> (r: Json)
    ensures
        r@ == JsonSpec::Str(s@),
{
    Json::Str(text(s))
}

/// Sets the entry `key` of an object's entry list to `value`, as
/// `serde_json::Map::insert` does: the entry keeps its place when the
/// key is present and is appended otherwise.
pub fn insert_entry(entries: &mut Vec<(String, Json)>, key: String, value: Json)
    ensures
        entries_view(final(entries)@) == object_insert(entries_view(old(entries)@), key@, value@),
{
    let ghost ev = entries_view(entries@);
    let n = entries.len();
    let mut i: usize = 0;
    while i < n
        invariant
            n == entries@.len(),
            i <= n,
            ev == entries_view(entries@),
            ev == entries_view(old(entries)@),
            find_key_from(ev, key@, 0) == find_key_from(ev, key@, i as int),
        decreases n - i,
    {
        if entries[i].0 == key {
            assert(ev[i as int].0 == key@);
            assert(find_key_from(ev, key@, i as int) == Some(i as int));
            entries[i] = (key, value);
            assert(entries_view(entries@) =~= ev.update(i as int, (key@, value@)));
            return;
        }
        i = i + 1;
    }
    entries.push((key, value));
    assert(entries_view(entries@) =~= ev.push((key@, value@)));
}

} // verus!
