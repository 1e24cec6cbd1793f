use renfield::json::Json;
use renfield::tools::schema::{set_description, Schema};
use renfield::tools::tool::{enum_schema, object_schema, Field, ToolInfo};

fn s(x: &str) -> Json {
    Json::Str(x.to_string())
}

fn obj(entries: Vec<(&str, Json)>) -> Json {
    Json::Object(entries.into_iter().map(|(k, v)| (k.to_string(), v)).collect())
}

fn field(name: &str, schema: Json, desc: Option<&str>, required: bool) -> Field {
    Field { name: name.to_string(), schema, description: desc.map(|d| d.to_string()), required }
}

fn tool(name: &str, desc: Option<&str>, parameters: Json, strict: bool) -> ToolInfo {
    ToolInfo { name: name.to_string(), description: desc.map(|d| d.to_string()), parameters, strict }
}

/// The schema that `f32` values have: numbers between the least and the
/// greatest finite `f32`.
fn f32_schema() -> Json {
    obj(vec![
        ("type", s("number")),
        ("minimum", Json::Float((f32::MIN as f64).to_bits())),
        ("maximum", Json::Float((f32::MAX as f64).to_bits())),
    ])
}

#[test]
fn test_anthropic_tools() {
    let params = object_schema(&vec![field(
        "ticker",
        String::schema(),
        Some("The stock ticker symbol, e.g. AAPL for Apple Inc."),
        true,
    )]);
    let info = tool("get_stock_price", Some("Get the current stock price for a given ticker symbol."), params, false);
    assert_eq!(
        info.anthropic_tool(),
        obj(vec![
            ("name", s("get_stock_price")),
            ("description", s("Get the current stock price for a given ticker symbol.")),
            (
                "input_schema",
                obj(vec![
                    ("type", s("object")),
                    (
                        "properties",
                        obj(vec![(
                            "ticker",
                            obj(vec![
                                ("type", s("string")),
                                ("description", s("The stock ticker symbol, e.g. AAPL for Apple Inc.")),
                            ]),
                        )]),
                    ),
                    ("required", Json::Array(vec![s("ticker")])),
                ]),
            ),
        ])
    );
}

#[test]
fn test_openai_tools() {
    let params = object_schema(&vec![field(
        "sign",
        String::schema(),
        Some("An astrological sign like Taurus or Aquarius"),
        true,
    )]);
    let info = tool("get_horoscope", Some("Get today's horoscope for an astrological sign."), params, false);
    assert_eq!(
        info.openai_tool(),
        obj(vec![
            ("type", s("function")),
            (
                "function",
                obj(vec![
                    ("name", s("get_horoscope")),
                    ("description", s("Get today's horoscope for an astrological sign.")),
                    (
                        "parameters",
                        obj(vec![
                            ("type", s("object")),
                            (
                                "properties",
                                obj(vec![(
                                    "sign",
                                    obj(vec![
                                        ("type", s("string")),
                                        ("description", s("An astrological sign like Taurus or Aquarius")),
                                    ]),
                                )]),
                            ),
                            ("required", Json::Array(vec![s("sign")])),
                        ]),
                    ),
                ]),
            ),
        ])
    );

    // A tool that is not strict has the same document for OpenAI as for
    // OpenRouter.
    assert_eq!(info.openai_tool(), info.openrouter_tool());

    let units = set_description(
        enum_schema(vec![s("celsius"), s("fahrenheit")]),
        Some("Units the temperature will be returned in."),
    );
    let params = object_schema(&vec![
        field("location", String::schema(), Some("City and country e.g. Bogotá, Colombia"), true),
        field("units", units, None, true),
    ]);
    let info = tool("get_weather", Some("Retrieves current weather for the given location."), params, true);
    assert_eq!(
        info.openai_tool(),
        obj(vec![
            ("type", s("function")),
            (
                "function",
                obj(vec![
                    ("name", s("get_weather")),
                    ("description", s("Retrieves current weather for the given location.")),
                    (
                        "parameters",
                        obj(vec![
                            ("type", s("object")),
                            (
                                "properties",
                                obj(vec![
                                    (
                                        "location",
                                        obj(vec![
                                            ("type", s("string")),
                                            ("description", s("City and country e.g. Bogotá, Colombia")),
                                        ]),
                                    ),
                                    (
                                        "units",
                                        obj(vec![
                                            ("enum", Json::Array(vec![s("celsius"), s("fahrenheit")])),
                                            ("description", s("Units the temperature will be returned in.")),
                                        ]),
                                    ),
                                ]),
                            ),
                            ("required", Json::Array(vec![s("location"), s("units")])),
                        ]),
                    ),
                    ("strict", Json::Bool(true)),
                ]),
            ),
        ])
    );
}

#[test]
fn test_gemini_tools() {
    let params = object_schema(&vec![field(
        "location",
        String::schema(),
        Some("The city name, e.g. San Francisco"),
        true,
    )]);
    let info = tool("get_current_temperature", Some("Gets the current temperature for a given location."), params, false);
    assert_eq!(
        info.gemini_tool(),
        obj(vec![
            ("name", s("get_current_temperature")),
            ("description", s("Gets the current temperature for a given location.")),
            (
                "parameters",
                obj(vec![
                    ("type", s("object")),
                    (
                        "properties",
                        obj(vec![(
                            "location",
                            obj(vec![("type", s("string")), ("description", s("The city name, e.g. San Francisco"))]),
                        )]),
                    ),
                    ("required", Json::Array(vec![s("location")])),
                ]),
            ),
        ])
    );

    let params = object_schema(&vec![
        field("attendees", <Vec<String>>::schema(), Some("List of people attending the meeting."), true),
        field("date", String::schema(), Some("Date of the meeting (e.g., '2024-07-29')"), true),
        field("time", String::schema(), Some("Time of the meeting (e.g., '15:00')"), true),
        field("topic", String::schema(), Some("The subject or topic of the meeting."), true),
    ]);
    let info = tool(
        "schedule_meeting",
        Some("Schedules a meeting with specified attendees at a given time and date."),
        params,
        false,
    );
    let string_array = |d: &str| {
        obj(vec![("type", s("array")), ("items", obj(vec![("type", s("string"))])), ("description", s(d))])
    };
    let string = |d: &str| obj(vec![("type", s("string")), ("description", s(d))]);
    assert_eq!(
        info.gemini_tool(),
        obj(vec![
            ("name", s("schedule_meeting")),
            ("description", s("Schedules a meeting with specified attendees at a given time and date.")),
            (
                "parameters",
                obj(vec![
                    ("type", s("object")),
                    (
                        "properties",
                        obj(vec![
                            ("attendees", string_array("List of people attending the meeting.")),
                            ("date", string("Date of the meeting (e.g., '2024-07-29')")),
                            ("time", string("Time of the meeting (e.g., '15:00')")),
                            ("topic", string("The subject or topic of the meeting.")),
                        ]),
                    ),
                    (
                        "required",
                        Json::Array(vec![s("attendees"), s("date"), s("time"), s("topic")]),
                    ),
                ]),
            ),
        ])
    );

    let values_desc = "List of numerical values corresponding to the labels (e.g., [50000, 75000, 60000]).";
    let labels_desc = "List of labels for the data points (e.g., ['Q1', 'Q2', 'Q3']).";
    let params = object_schema(&vec![
        field("title", String::schema(), Some("The title for the chart."), true),
        field("labels", <Vec<String>>::schema(), Some(labels_desc), true),
        field("values", obj(vec![("type", s("array")), ("items", f32_schema())]), Some(values_desc), true),
    ]);
    let info = tool(
        "create_bar_chart",
        Some("Creates a bar chart given a title, labels, and corresponding values."),
        params,
        false,
    );
    assert_eq!(
        info.gemini_tool(),
        obj(vec![
            ("name", s("create_bar_chart")),
            ("description", s("Creates a bar chart given a title, labels, and corresponding values.")),
            (
                "parameters",
                obj(vec![
                    ("type", s("object")),
                    (
                        "properties",
                        obj(vec![
                            ("title", string("The title for the chart.")),
                            ("labels", string_array(labels_desc)),
                            (
                                "values",
                                obj(vec![("type", s("array")), ("items", f32_schema()), ("description", s(values_desc))]),
                            ),
                        ]),
                    ),
                    ("required", Json::Array(vec![s("title"), s("labels"), s("values")])),
                ]),
            ),
        ])
    );
}

#[test]
fn test_openrouter_tools() {
    let params = object_schema(&vec![field(
        "search_terms",
        <Vec<String>>::schema(),
        Some("List of search terms to find books"),
        true,
    )]);
    let info = tool("search_gutenberg_books", Some("Search for books in the Project Gutenberg library"), params, false);
    assert_eq!(
        info.openrouter_tool(),
        obj(vec![
            ("type", s("function")),
            (
                "function",
                obj(vec![
                    ("name", s("search_gutenberg_books")),
                    ("description", s("Search for books in the Project Gutenberg library")),
                    (
                        "parameters",
                        obj(vec![
                            ("type", s("object")),
                            (
                                "properties",
                                obj(vec![(
                                    "search_terms",
                                    obj(vec![
                                        ("type", s("array")),
                                        ("items", obj(vec![("type", s("string"))])),
                                        ("description", s("List of search terms to find books")),
                                    ]),
                                )]),
                            ),
                            ("required", Json::Array(vec![s("search_terms")])),
                        ]),
                    ),
                ]),
            ),
        ])
    );

    // An `Option` field has the schema of its inner type and is not
    // required.
    let params = object_schema(&vec![
        field("query", String::schema(), None, true),
        field("field", <Option<String>>::schema(), None, false),
    ]);
    let info = tool("search_academic_papers", Some("Search for academic papers on a given topic"), params, false);
    assert_eq!(
        info.openrouter_tool(),
        obj(vec![
            ("type", s("function")),
            (
                "function",
                obj(vec![
                    ("name", s("search_academic_papers")),
                    ("description", s("Search for academic papers on a given topic")),
                    (
                        "parameters",
                        obj(vec![
                            ("type", s("object")),
                            (
                                "properties",
                                obj(vec![
                                    ("query", obj(vec![("type", s("string"))])),
                                    ("field", obj(vec![("type", s("string"))])),
                                ]),
                            ),
                            ("required", Json::Array(vec![s("query")])),
                        ]),
                    ),
                ]),
            ),
        ])
    );

    let params = object_schema(&vec![field("topic", String::schema(), None, true)]);
    let info = tool("get_latest_statistics", Some("Get latest statistics on a topic"), params, false);
    assert_eq!(
        info.openrouter_tool(),
        obj(vec![
            ("type", s("function")),
            (
                "function",
                obj(vec![
                    ("name", s("get_latest_statistics")),
                    ("description", s("Get latest statistics on a topic")),
                    (
                        "parameters",
                        obj(vec![
                            ("type", s("object")),
                            ("properties", obj(vec![("topic", obj(vec![("type", s("string"))]))])),
                            ("required", Json::Array(vec![s("topic")])),
                        ]),
                    ),
                ]),
            ),
        ])
    );
}

fn city_tool(name: &str, desc: &str) -> Json {
    obj(vec![
        ("type", s("function")),
        (
            "function",
            obj(vec![
                ("name", s(name)),
                ("description", s(desc)),
                (
                    "parameters",
                    obj(vec![
                        ("type", s("object")),
                        (
                            "properties",
                            obj(vec![(
                                "city",
                                obj(vec![("type", s("string")), ("description", s("The name of the city"))]),
                            )]),
                        ),
                        ("required", Json::Array(vec![s("city")])),
                    ]),
                ),
            ]),
        ),
    ])
}

#[test]
fn test_ollama_tools() {
    let params = object_schema(&vec![field("city", String::schema(), Some("The name of the city"), true)]);
    let info = tool("get_temperature", Some("Get the current temperature for a city"), params, false);
    assert_eq!(info.ollama_tool(), city_tool("get_temperature", "Get the current temperature for a city"));

    let params = object_schema(&vec![field("city", String::schema(), Some("The name of the city"), true)]);
    let info = tool("get_conditions", Some("Get the current weather conditions for a city"), params, false);
    assert_eq!(
        info.ollama_tool(),
        city_tool("get_conditions", "Get the current weather conditions for a city")
    );
}

#[test]
fn tools_tool_test_docstring_description() {
    let params = set_description(object_schema(&vec![]), Some("This is a description."));
    let info = tool("Foo", Some("This is a description."), params, false);
    assert_eq!(
        info.gemini_tool(),
        obj(vec![
            ("name", s("Foo")),
            ("description", s("This is a description.")),
            (
                "parameters",
                obj(vec![
                    ("type", s("object")),
                    ("properties", obj(vec![])),
                    ("description", s("This is a description.")),
                ]),
            ),
        ])
    );

    let params = set_description(object_schema(&vec![]), Some("This description is overwritten."));
    let info = tool("Bar", Some("new description"), params, false);
    assert_eq!(
        info.gemini_tool(),
        obj(vec![
            ("name", s("Bar")),
            ("description", s("new description")),
            (
                "parameters",
                obj(vec![
                    ("type", s("object")),
                    ("properties", obj(vec![])),
                    ("description", s("This description is overwritten.")),
                ]),
            ),
        ])
    );
}

#[test]
fn test_tool_without_description() {
    let info = tool("noop", None, object_schema(&vec![]), true);
    assert_eq!(
        info.anthropic_tool(),
        obj(vec![
            ("name", s("noop")),
            ("input_schema", obj(vec![("type", s("object")), ("properties", obj(vec![]))])),
        ])
    );
    // A strict tool carries `strict` for OpenAI only.
    let openai = info.openai_tool();
    let openrouter = info.openrouter_tool();
    assert_ne!(openai, openrouter);
    assert_eq!(info.ollama_tool(), openrouter);
}
