//! Tool definitions for function calling.
//!
//! A tool is defined by its name, an optional description and the JSON
//! schema of its input arguments. Each provider expects these in a
//! document of its own shape: Anthropic under `input_schema`, Gemini
//! under `parameters`, and OpenAI, OpenRouter and Ollama under
//! `parameters` inside a `function` object tagged with
//! `"type": "function"`.

use vstd::prelude::*;
use crate::json::{
    deep_copy, entries_view, insert_entry, is_unique_object, items_view, keys_unique,
    lemma_array_view, lemma_lookup_unique, lemma_object_insert, lemma_object_view, lookup, object_insert, string, Json, JsonSpec,
};
use super::schema::{entry, obj, object2, set_description, with_description};

verus! {

/// The meaning of an optional `String`.
pub open spec fn opt_string(s: Option<String>) -> Option<Seq<char>> {
    match s {
        Some(d) => Some(d@),
        None => None,
    }
}

/// The entries `name`, `description` (where there is one) and `key`,
/// in that order.
pub open spec fn described_entries(
    name: Seq<char>,
    desc: Option<Seq<char>>,
    key: Seq<char>,
    params: JsonSpec,
) -> Seq<(Seq<char>, JsonSpec)> {
    let head = seq![("name"@, JsonSpec::Str(name))];
    let with_desc = match desc {
        Some(d) => head.push(("description"@, JsonSpec::Str(d))),
        None => head,
    };
    with_desc.push((key, params))
}

/// A tool definition.
#[derive(Debug, Clone)]
pub struct ToolInfo {
    /// Tool name; tool names tell tools apart.
    pub name: String,
    /// Instructs the model when and how to call the tool.
    pub description: Option<String>,
    /// The JSON schema of the tool's input arguments.
    pub parameters: Json,
    /// Whether the model must follow the schema exactly (OpenAI's
    /// structured outputs).
    pub strict: bool,
}

impl ToolInfo {
    /// The Anthropic tool document.
    pub open spec fn anthropic_spec(self) -> JsonSpec {
        obj(described_entries(self.name@, opt_string(self.description), "input_schema"@, self.parameters@))
    }

    /// The Gemini function declaration.
    pub open spec fn gemini_spec(self) -> JsonSpec {
        obj(described_entries(self.name@, opt_string(self.description), "parameters"@, self.parameters@))
    }

    /// The `function` object of a function tool; `strict` is set only
    /// where the provider takes it and the tool is strict.
    pub open spec fn function_spec(self, takes_strict: bool) -> JsonSpec {
        let es = described_entries(self.name@, opt_string(self.description), "parameters"@, self.parameters@);
        obj(
            if takes_strict && self.strict {
                es.push(("strict"@, JsonSpec::Bool(true)))
            } else {
                es
            },
        )
    }

    /// A function tool document.
    pub open spec fn function_tool_spec(self, takes_strict: bool) -> JsonSpec {
        obj(seq![("type"@, JsonSpec::Str("function"@)), ("function"@, self.function_spec(takes_strict))])
    }

    fn described(&self, key: &str) -> (r: Vec<(String, Json)>)
        ensures
            entries_view(r@) == described_entries(self.name@, opt_string(self.description), key@, self.parameters@),
    {
        let mut es: Vec<(String, Json)> = Vec::new();
        es.push(entry("name", Json::Str(self.name.clone())));
        match &self.description {
            Some(d) => {
                es.push(entry("description", Json::Str(d.clone())));
            },
            None => {},
        }
        es.push(entry(key, deep_copy(&self.parameters)));
        proof {
            assert(entries_view(es@) =~= described_entries(
                self.name@,
                opt_string(self.description),
                key@,
                self.parameters@,
            ));
        }
        es
    }

    fn function_object(&self, takes_strict: bool) -> (r: Json)
        ensures
            r@ == self.function_spec(takes_strict),
    {
        let mut es = self.described("parameters");
        let ghost before = es@;
        if takes_strict && self.strict {
            es.push(entry("strict", Json::Bool(true)));
            proof {
                assert(entries_view(es@) =~= entries_view(before).push(("strict"@, JsonSpec::Bool(true))));
            }
        }
        proof {
            lemma_object_view(es);
        }
        Json::Object(es)
    }

    /// The Anthropic tool document: `name`, `description` and
    /// `input_schema`.
    pub fn anthropic_tool(&self) -> (r: Json)
        ensures
            r@ == self.anthropic_spec(),
    {
        let es = self.described("input_schema");
        proof {
            lemma_object_view(es);
        }
        Json::Object(es)
    }

    /// The Gemini function declaration: `name`, `description` and
    /// `parameters`.
    pub fn gemini_tool(&self) -> (r: Json)
        ensures
            r@ == self.gemini_spec(),
    {
        let es = self.described("parameters");
        proof {
            lemma_object_view(es);
        }
        Json::Object(es)
    }

    /// The OpenAI function tool; `strict` is set when the tool is
    /// strict.
    pub fn openai_tool(&self) -> (r: Json)
        ensures
            r@ == self.function_tool_spec(true),
    {
        object2("type", string("function"), "function", self.function_object(true))
    }

    /// The OpenRouter function tool.
    pub fn openrouter_tool(&self) -> (r: Json)
        ensures
            r@ == self.function_tool_spec(false),
    {
        object2("type", string("function"), "function", self.function_object(false))
    }

    /// The Ollama function tool.
    pub fn ollama_tool(&self) -> (r: Json)
        ensures
            r@ == self.function_tool_spec(false),
    {
        object2("type", string("function"), "function", self.function_object(false))
    }
}

/// Every tool document is a JSON object whose keys are all different,
/// and so is the `function` object of a function tool.
pub proof fn lemma_tool_documents_unique(info: ToolInfo, takes_strict: bool)
    ensures
        is_unique_object(info.anthropic_spec()),
        is_unique_object(info.gemini_spec()),
        is_unique_object(info.function_spec(takes_strict)),
        is_unique_object(info.function_tool_spec(takes_strict)),
{
    reveal_strlit("name");
    reveal_strlit("description");
    reveal_strlit("input_schema");
    reveal_strlit("parameters");
    reveal_strlit("strict");
    reveal_strlit("type");
    reveal_strlit("function");
    assert("name"@[0] != "description"@[0] && "name"@[0] != "input_schema"@[0] && "name"@[0] != "parameters"@[0]
        && "name"@[0] != "strict"@[0]);
    assert("description"@[0] != "input_schema"@[0] && "description"@[0] != "parameters"@[0]
        && "description"@[0] != "strict"@[0]);
    assert("parameters"@[0] != "strict"@[0] && "type"@[0] != "function"@[0]);
    let d = opt_string(info.description);
    let p = info.parameters@;
    let n = info.name@;
    let a = described_entries(n, d, "input_schema"@, p);
    let g = described_entries(n, d, "parameters"@, p);
    assert(keys_unique(a));
    assert(keys_unique(g));
    if takes_strict && info.strict {
        let gs = g.push(("strict"@, JsonSpec::Bool(true)));
        assert forall|i: int| 0 <= i < g.len() implies (#[trigger] gs[i]).0 != "strict"@ by {
            assert(gs[i] == g[i]);
        }
        assert(keys_unique(gs));
    }
}

/// The fields of a tool document: its `name` is the tool's name, its
/// `description` the tool's description (absent when it has none), and
/// its schema key (`input_schema` for Anthropic, `parameters` for the
/// others) the parameter schema. A function tool document has type
/// `function` and holds these in its `function` object, with `strict`
/// set to true exactly when the provider takes it and the tool is
/// strict.
pub proof fn lemma_tool_document_fields(info: ToolInfo, takes_strict: bool)
    ensures
        info.anthropic_spec() matches JsonSpec::Object(es) && lookup(es, "name"@) == Some(
            JsonSpec::Str(info.name@),
        ) && lookup(es, "input_schema"@) == Some(info.parameters@) && lookup(es, "description"@) == match info.description {
            Some(d) => Some(JsonSpec::Str(d@)),
            None => None::<JsonSpec>,
        },
        info.gemini_spec() matches JsonSpec::Object(es) && lookup(es, "name"@) == Some(JsonSpec::Str(info.name@))
            && lookup(es, "parameters"@) == Some(info.parameters@) && lookup(es, "description"@) == match info.description {
            Some(d) => Some(JsonSpec::Str(d@)),
            None => None::<JsonSpec>,
        },
        info.function_tool_spec(takes_strict) matches JsonSpec::Object(os) && lookup(os, "type"@) == Some(
            JsonSpec::Str("function"@),
        ) && lookup(os, "function"@) == Some(info.function_spec(takes_strict)),
        info.function_spec(takes_strict) matches JsonSpec::Object(fs) && lookup(fs, "name"@) == Some(
            JsonSpec::Str(info.name@),
        ) && lookup(fs, "parameters"@) == Some(info.parameters@) && lookup(fs, "description"@) == match info.description {
            Some(d) => Some(JsonSpec::Str(d@)),
            None => None::<JsonSpec>,
        } && lookup(fs, "strict"@) == (if takes_strict && info.strict {
            Some(JsonSpec::Bool(true))
        } else {
            None::<JsonSpec>
        }),
{
    lemma_tool_documents_unique(info, takes_strict);
    reveal_strlit("name");
    reveal_strlit("description");
    reveal_strlit("input_schema");
    reveal_strlit("parameters");
    reveal_strlit("strict");
    reveal_strlit("type");
    reveal_strlit("function");
    assert("name"@[0] != "description"@[0] && "name"@[0] != "input_schema"@[0] && "name"@[0] != "parameters"@[0]
        && "name"@[0] != "strict"@[0]);
    assert("description"@[0] != "input_schema"@[0] && "description"@[0] != "parameters"@[0]
        && "description"@[0] != "strict"@[0]);
    assert("parameters"@[0] != "strict"@[0] && "type"@[0] != "function"@[0]);
    let d = opt_string(info.description);
    let p = info.parameters@;
    let n = info.name@;
    let a = described_entries(n, d, "input_schema"@, p);
    let g = described_entries(n, d, "parameters"@, p);
    lemma_lookup_unique(a);
    lemma_lookup_unique(g);
    assert(a[0].0 == "name"@);
    assert(g[0].0 == "name"@);
    assert(a[a.len() - 1].0 == "input_schema"@);
    assert(g[g.len() - 1].0 == "parameters"@);
    if d is Some {
        assert(a[1].0 == "description"@);
        assert(g[1].0 == "description"@);
    } else {
        assert(forall|i: int| 0 <= i < a.len() ==> (#[trigger] a[i]).0 != "description"@);
        assert(forall|i: int| 0 <= i < g.len() ==> (#[trigger] g[i]).0 != "description"@);
    }
    let fs = if takes_strict && info.strict {
        g.push(("strict"@, JsonSpec::Bool(true)))
    } else {
        g
    };
    lemma_lookup_unique(fs);
    assert(fs[0] == g[0]);
    assert(fs[g.len() - 1] == g[g.len() - 1]);
    if d is Some {
        assert(fs[1] == g[1]);
    } else {
        assert forall|i: int| 0 <= i < fs.len() implies (#[trigger] fs[i]).0 != "description"@ by {
            if i < g.len() {
                assert(fs[i] == g[i]);
            }
        }
    }
    if takes_strict && info.strict {
        assert(fs[g.len() as int].0 == "strict"@);
    } else {
        assert(forall|i: int| 0 <= i < fs.len() ==> (#[trigger] fs[i]).0 != "strict"@);
    }
    let os = seq![("type"@, JsonSpec::Str("function"@)), ("function"@, info.function_spec(takes_strict))];
    lemma_lookup_unique(os);
    assert(os[0].0 == "type"@);
    assert(os[1].0 == "function"@);
}

/// The function tool documents of the providers agree: OpenRouter and
/// Ollama take the same document, and OpenAI's differs from it only by
/// `"strict": true`, which it carries exactly when the tool is strict.
pub proof fn lemma_function_tools_agree(info: ToolInfo)
    ensures
        !info.strict ==> info.function_tool_spec(true) == info.function_tool_spec(false),
        info.strict ==> info.function_spec(true) == obj(
            described_entries(info.name@, opt_string(info.description), "parameters"@, info.parameters@).push(
                ("strict"@, JsonSpec::Bool(true)),
            ),
        ),
{
}

/// Generates LLM tool documents for a type.
///
/// Implementations return the documents that the [`ToolInfo`]
/// builders make from the type's tool definition.
pub trait Tool {
    /// Generate an Anthropic tool schema.
    fn as_anthropic_tool() -> Json;

    /// Generate an OpenAI tool schema.
    fn as_openai_tool() -> Json;

    /// Generate a Gemini tool schema.
    fn as_gemini_tool() -> Json;

    /// Generate an OpenRouter tool schema.
    fn as_openrouter_tool() -> Json;

    /// Generate an Ollama tool schema.
    fn as_ollama_tool() -> Json;
}

// ---------------------------------------------------------------------
// Object schemas of structs
// ---------------------------------------------------------------------

/// A field of an object schema.
#[derive(Debug, Clone)]
pub struct Field {
    /// Property name.
    pub name: String,
    /// The schema of the field's values.
    pub schema: Json,
    /// Field description.
    pub description: Option<String>,
    /// Whether the property is listed as required.
    pub required: bool,
}

/// The `properties` of an object schema: each field's schema with its
/// description, inserted in order (a later field replaces an earlier
/// one of the same name).
pub open spec fn properties_spec(fields: Seq<Field>) -> Seq<(Seq<char>, JsonSpec)>
    decreases fields.len(),
{
    if fields.len() == 0 {
        Seq::empty()
    } else {
        let f = fields.last();
        object_insert(
            properties_spec(fields.drop_last()),
            f.name@,
            with_description(f.schema@, opt_string(f.description)),
        )
    }
}

/// The properties of an object schema have different names: a field
/// of a name that is already there replaces its entry.
pub proof fn lemma_properties_unique(fields: Seq<Field>)
    ensures
        keys_unique(properties_spec(fields)),
    decreases fields.len(),
{
    if fields.len() > 0 {
        let f = fields.last();
        lemma_properties_unique(fields.drop_last());
        lemma_object_insert(
            properties_spec(fields.drop_last()),
            f.name@,
            with_description(f.schema@, opt_string(f.description)),
        );
    }
}

/// The properties of an object schema: the property of a field name
/// is the schema of the last field of that name, with that field's
/// description where it has one, whether or not the field is required.
pub proof fn lemma_properties_of_fields(fields: Seq<Field>, i: int)
    requires
        0 <= i < fields.len(),
        forall|j: int| i < j < fields.len() ==> (#[trigger] fields[j]).name@ != fields[i].name@,
    ensures
        lookup(properties_spec(fields), fields[i].name@) == Some(
            with_description(fields[i].schema@, opt_string(fields[i].description)),
        ),
    decreases fields.len(),
{
    let n = fields.len() as int;
    let f = fields.last();
    let rest = fields.drop_last();
    let v = with_description(f.schema@, opt_string(f.description));
    lemma_object_insert(properties_spec(rest), f.name@, v);
    if i < n - 1 {
        assert(f.name@ != fields[i].name@);
        assert forall|j: int| i < j < rest.len() implies (#[trigger] rest[j]).name@ != rest[i].name@ by {
            assert(rest[j] == fields[j]);
        }
        lemma_properties_of_fields(rest, i);
        assert(rest[i] == fields[i]);
    }
}

/// A name that no field has is not a property of the object schema.
pub proof fn lemma_properties_only_fields(fields: Seq<Field>, k: Seq<char>)
    requires
        forall|j: int| 0 <= j < fields.len() ==> (#[trigger] fields[j]).name@ != k,
    ensures
        lookup(properties_spec(fields), k) is None,
    decreases fields.len(),
{
    if fields.len() > 0 {
        let f = fields.last();
        let rest = fields.drop_last();
        lemma_object_insert(properties_spec(rest), f.name@, with_description(f.schema@, opt_string(f.description)));
        assert(f.name@ != k);
        assert forall|j: int| 0 <= j < rest.len() implies (#[trigger] rest[j]).name@ != k by {
            assert(rest[j] == fields[j]);
        }
        lemma_properties_only_fields(rest, k);
    }
}

/// The required list names exactly the required fields: each of its
/// items is the name of a required field, each required field's name
/// is in it, and it has one item per required field.
pub proof fn lemma_required_of_fields(fields: Seq<Field>)
    ensures
        forall|k: int|
            0 <= k < required_spec(fields).len() ==> exists|j: int|
                0 <= j < fields.len() && (#[trigger] fields[j]).required && #[trigger] required_spec(fields)[k]
                    == JsonSpec::Str(fields[j].name@),
        forall|j: int|
            0 <= j < fields.len() && (#[trigger] fields[j]).required ==> exists|k: int|
                0 <= k < required_spec(fields).len() && required_spec(fields)[k] == JsonSpec::Str(
                    fields[j].name@,
                ),
        required_spec(fields).len() <= fields.len(),
        (required_spec(fields).len() == 0) == (forall|j: int| 0 <= j < fields.len() ==> !(#[trigger] fields[j]).required),
    decreases fields.len(),
{
    if fields.len() > 0 {
        let f = fields.last();
        let rest = fields.drop_last();
        let n = fields.len() - 1;
        lemma_required_of_fields(rest);
        let rr = required_spec(rest);
        let r = required_spec(fields);
        assert forall|k: int| 0 <= k < r.len() implies exists|j: int|
            0 <= j < fields.len() && (#[trigger] fields[j]).required && #[trigger] r[k] == JsonSpec::Str(fields[j].name@) by {
            if k < rr.len() {
                let j = choose|j: int| 0 <= j < rest.len() && (#[trigger] rest[j]).required && rr[k] == JsonSpec::Str(rest[j].name@);
                assert(rest[j] == fields[j]);
            } else {
                assert(fields[n] == f);
            }
        }
        assert forall|j: int| 0 <= j < fields.len() && (#[trigger] fields[j]).required implies exists|k: int|
            0 <= k < r.len() && r[k] == JsonSpec::Str(fields[j].name@) by {
            if j < n {
                assert(rest[j] == fields[j]);
                let k = choose|k: int| 0 <= k < rr.len() && rr[k] == JsonSpec::Str(rest[j].name@);
                assert(r[k] == rr[k]);
            } else {
                assert(r[rr.len() as int] == JsonSpec::Str(f.name@));
            }
        }
        if r.len() == 0 {
            assert forall|j: int| 0 <= j < fields.len() implies !(#[trigger] fields[j]).required by {
                if j < n {
                    assert(rest[j] == fields[j]);
                }
            }
        }
        if forall|j: int| 0 <= j < fields.len() ==> !(#[trigger] fields[j]).required {
            assert forall|j: int| 0 <= j < rest.len() implies !(#[trigger] rest[j]).required by {
                assert(rest[j] == fields[j]);
            }
            assert(!fields[n].required);
        }
    }
}

/// The object schema of a list of fields is an object of type
/// `object` whose `properties` hold, under each field name, the schema
/// of the last field of that name with its description where it has
/// one, whether or not it is required, and no other name; its
/// `required` list, present exactly when some field is required, names
/// the required fields.
pub proof fn lemma_object_schema_of_fields(fields: Seq<Field>)
    ensures
        object_schema_spec(fields) matches JsonSpec::Object(es) && es.len() >= 2 && es[0] == (
            "type"@,
            JsonSpec::Str("object"@),
        ) && es[1] == ("properties"@, JsonSpec::Object(properties_spec(fields))),
        forall|i: int|
            0 <= i < fields.len() && (forall|j: int| i < j < fields.len() ==> (#[trigger] fields[j]).name@
                != fields[i].name@) ==> lookup(properties_spec(fields), (#[trigger] fields[i]).name@)
                == Some(with_description(fields[i].schema@, opt_string(fields[i].description))),
        forall|k: Seq<char>|
            (forall|j: int| 0 <= j < fields.len() ==> (#[trigger] fields[j]).name@ != k) ==> #[trigger] lookup(
                properties_spec(fields),
                k,
            ) is None,
        (exists|j: int| 0 <= j < fields.len() && (#[trigger] fields[j]).required) <==> (
        object_schema_spec(fields) matches JsonSpec::Object(es) && es.len() == 3 && es[2] == (
            "required"@,
            JsonSpec::Array(required_spec(fields)),
        )),
{
    assert forall|i: int|
        0 <= i < fields.len() && (forall|j: int| i < j < fields.len() ==> (#[trigger] fields[j]).name@
            != fields[i].name@) implies lookup(properties_spec(fields), (#[trigger] fields[i]).name@)
        == Some(with_description(fields[i].schema@, opt_string(fields[i].description))) by {
        lemma_properties_of_fields(fields, i);
    }
    assert forall|k: Seq<char>|
        (forall|j: int| 0 <= j < fields.len() ==> (#[trigger] fields[j]).name@ != k) implies #[trigger] lookup(
            properties_spec(fields),
            k,
        ) is None by {
        lemma_properties_only_fields(fields, k);
    }
    lemma_required_of_fields(fields);
}

/// The names of the required fields, in order.
pub open spec fn required_spec(fields: Seq<Field>) -> Seq<JsonSpec>
    decreases fields.len(),
{
    if fields.len() == 0 {
        Seq::empty()
    } else {
        let rest = required_spec(fields.drop_last());
        if fields.last().required {
            rest.push(JsonSpec::Str(fields.last().name@))
        } else {
            rest
        }
    }
}

/// The object schema of the given fields: `"type": "object"`, the
/// `properties`, and the `required` list where some field is required.
pub open spec fn object_schema_spec(fields: Seq<Field>) -> JsonSpec {
    let base = seq![("type"@, JsonSpec::Str("object"@)), ("properties"@, obj(properties_spec(fields)))];
    let req = required_spec(fields);
    obj(
        if req.len() == 0 {
            base
        } else {
            base.push(("required"@, JsonSpec::Array(req)))
        },
    )
}

fn field_description(f: &Field) -> (r: Option<&str>)
    ensures
        match r {
            Some(d) => f.description matches Some(x) && d@ == x@,
            None => f.description is None,
        },
{
    match &f.description {
        Some(d) => Some(d.as_str()),
        None => None,
    }
}

/// Builds the object schema of the given fields.
pub fn object_schema(fields: &Vec<Field>) -> (r: Json)
    ensures
        r@ == object_schema_spec(fields@),
        is_unique_object(r@),
        keys_unique(properties_spec(fields@)),
{
    proof {
        lemma_properties_unique(fields@);
        reveal_strlit("type");
        reveal_strlit("properties");
        reveal_strlit("required");
        assert("type"@[0] != "properties"@[0] && "type"@[0] != "required"@[0] && "properties"@[0]
            != "required"@[0]);
    }
    let mut props: Vec<(String, Json)> = Vec::new();
    let mut req: Vec<Json> = Vec::new();
    let mut i: usize = 0;
    while i < fields.len()
        invariant
            i <= fields@.len(),
            entries_view(props@) == properties_spec(fields@.subrange(0, i as int)),
            items_view(req@) == required_spec(fields@.subrange(0, i as int)),
        decreases fields@.len() - i,
    {
        let f = &fields[i];
        let ghost prev = fields@.subrange(0, i as int);
        let ghost next = fields@.subrange(0, i as int + 1);
        assert(next.drop_last() =~= prev);
        assert(next.last() == *f);
        let desc = field_description(f);
        let s = set_description(deep_copy(&f.schema), desc);
        insert_entry(&mut props, f.name.clone(), s);
        if f.required {
            let ghost before = req@;
            req.push(string_of(&f.name));
            assert(items_view(req@) =~= items_view(before).push(JsonSpec::Str(f.name@)));
        }
        i = i + 1;
    }
    assert(fields@.subrange(0, fields@.len() as int) =~= fields@);
    proof {
        lemma_object_view(props);
        lemma_array_view(req);
    }
    let props_obj = Json::Object(props);
    assert(items_view(req@).len() == req@.len());
    let ghost base = seq![
        ("type"@, JsonSpec::Str("object"@)),
        ("properties"@, obj(properties_spec(fields@))),
    ];
    assert(base.push(("required"@, JsonSpec::Array(items_view(req@)))) =~= seq![
        ("type"@, JsonSpec::Str("object"@)),
        ("properties"@, obj(properties_spec(fields@))),
        ("required"@, JsonSpec::Array(items_view(req@))),
    ]);
    if req.len() == 0 {
        object2("type", string("object"), "properties", props_obj)
    } else {
        super::schema::object3("type", string("object"), "properties", props_obj, "required", Json::Array(req))
    }
}

fn string_of(s: &String) -> (r: Json)
    ensures
        r@ == JsonSpec::Str(s@),
{
    Json::Str(s.clone())
}


/// The schema of an enum: the schemas of its variants under `enum`
/// (a unit variant stands for its name as a string).
pub open spec fn enum_schema_spec(variants: Seq<JsonSpec>) -> JsonSpec {
    obj(seq![("enum"@, JsonSpec::Array(variants))])
}

/// Builds the schema of an enum from the schemas of its variants.
pub fn enum_schema(variants: Vec<Json>) -> (r: Json)
    ensures
        r@ == enum_schema_spec(items_view(variants@)),
        is_unique_object(r@),
{
    proof {
        lemma_array_view(variants);
    }
    let es = vec![entry("enum", Json::Array(variants))];
    proof {
        lemma_object_view(es);
        assert(entries_view(es@) =~= seq![("enum"@, JsonSpec::Array(items_view(variants@)))]);
    }
    Json::Object(es)
}


/// The schema of a unit struct: an object without properties, and
/// without any other property allowed.
pub open spec fn unit_struct_schema_spec() -> JsonSpec {
    obj(
        seq![
            ("type"@, JsonSpec::Str("object"@)),
            ("properties"@, obj(Seq::empty())),
            ("additionalProperties"@, JsonSpec::Bool(false)),
        ],
    )
}

/// Builds the schema of a unit struct.
pub fn unit_struct_schema() -> (r: Json)
    ensures
        r@ == unit_struct_schema_spec(),
        is_unique_object(r@),
{
    let none: Vec<(String, Json)> = Vec::new();
    proof {
        lemma_object_view(none);
        assert(entries_view(none@) =~= Seq::<(Seq<char>, JsonSpec)>::empty());
        reveal_strlit("type");
        reveal_strlit("properties");
        reveal_strlit("additionalProperties");
        assert("type"@[0] != "properties"@[0] && "type"@[0] != "additionalProperties"@[0] && "properties"@[0]
            != "additionalProperties"@[0]);
    }
    super::schema::object3(
        "type",
        string("object"),
        "properties",
        Json::Object(none),
        "additionalProperties",
        Json::Bool(false),
    )
}

} // verus!
