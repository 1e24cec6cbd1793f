use renfield::json::Json;
use renfield::tools::schema::{set_description, Schema};
use renfield::tools::tool::{object_schema, Field, ToolInfo};

fn s(x: &str) -> Json {
    Json::Str(x.to_string())
}

fn obj(entries: Vec<(&str, Json)>) -> Json {
    Json::Object(entries.into_iter().map(|(k, v)| (k.to_string(), v)).collect())
}

fn get<'a>(j: &'a Json, key: &str) -> Option<&'a Json> {
    match j {
        Json::Object(es) => es.iter().find(|(k, _)| k == key).map(|(_, v)| v),
        _ => None,
    }
}

fn weather_fields() -> Vec<Field> {
    vec![
        Field {
            name: "city".to_string(),
            schema: String::schema(),
            description: Some("Location city.".to_string()),
            required: true,
        },
        Field {
            name: "country".to_string(),
            schema: String::schema(),
            description: Some("Location country.".to_string()),
            required: true,
        },
    ]
}

#[test]
fn test_derive_without_attributes() {
    let info = ToolInfo {
        name: "GetWeather".to_string(),
        description: Some("Tool description.".to_string()),
        parameters: object_schema(&weather_fields()),
        strict: false,
    };
    assert_eq!(info.name, "GetWeather");
    assert!(info.description.as_deref().is_some_and(|d| d == "Tool description."));

    let schema = &info.parameters;
    assert!(get(schema, "type").is_some_and(|kind| *kind == s("object")));
    assert!(get(schema, "properties").is_some_and(|props| matches!(props, Json::Object(_))));

    let props = get(schema, "properties").unwrap();
    assert!(get(props, "city").is_some_and(|city| {
        matches!(city, Json::Object(_))
            && get(city, "type").is_some_and(|kind| *kind == s("string"))
            && get(city, "description").is_some_and(|desc| *desc == s("Location city."))
    }));
    assert!(get(props, "country").is_some_and(|country| {
        matches!(country, Json::Object(_))
            && get(country, "type").is_some_and(|kind| *kind == s("string"))
            && get(country, "description").is_some_and(|desc| *desc == s("Location country."))
    }));
}

#[test]
fn test_custom_tool_name() {
    let info = ToolInfo {
        name: "get_weather".to_string(),
        description: None,
        parameters: object_schema(&weather_fields()),
        strict: false,
    };
    let anthropic = info.anthropic_tool();
    assert_eq!(get(&anthropic, "name"), Some(&s("get_weather")));
    let gemini = info.gemini_tool();
    assert_eq!(get(&gemini, "name"), Some(&s("get_weather")));
    for doc in [info.openai_tool(), info.openrouter_tool(), info.ollama_tool()] {
        let function = get(&doc, "function").unwrap();
        assert_eq!(get(function, "name"), Some(&s("get_weather")));
    }
}

#[test]
fn test_custom_tool_description() {
    let info = ToolInfo {
        name: "get_weather".to_string(),
        description: Some("get the weather at a specific location".to_string()),
        parameters: object_schema(&weather_fields()),
        strict: false,
    };
    let anthropic = info.anthropic_tool();
    assert_eq!(get(&anthropic, "description"), Some(&s("get the weather at a specific location")));
    let ollama = info.ollama_tool();
    let function = get(&ollama, "function").unwrap();
    assert_eq!(get(function, "description"), Some(&s("get the weather at a specific location")));
    // The description of the tool is not the description of its
    // parameters.
    assert_eq!(get(&info.parameters, "description"), None);
}

#[test]
fn test_custom_field_name() {
    let fields = vec![Field {
        name: "renamed_field".to_string(),
        schema: u64::schema(),
        description: None,
        required: true,
    }];
    let schema = object_schema(&fields);
    let props = get(&schema, "properties").unwrap();
    assert_eq!(get(props, "renamed_field"), Some(&u64::schema()));
    assert_eq!(get(props, "old_field_name"), None);
    assert_eq!(get(&schema, "required"), Some(&Json::Array(vec![s("renamed_field")])));
}

#[test]
fn test_custom_field_description() {
    let fields = vec![Field {
        name: "ticker".to_string(),
        schema: String::schema(),
        description: Some("this is the field description".to_string()),
        required: true,
    }];
    let schema = object_schema(&fields);
    let props = get(&schema, "properties").unwrap();
    assert_eq!(
        get(props, "ticker"),
        Some(&obj(vec![("type", s("string")), ("description", s("this is the field description"))]))
    );
}

#[test]
fn test_tool_info_without_derive() {
    // Without tool metadata, a schema carries no description at all.
    let fields: Vec<Field> = weather_fields()
        .into_iter()
        .map(|f| Field { description: None, ..f })
        .collect();
    let schema = object_schema(&fields);
    assert_eq!(get(&schema, "description"), None);
    let props = get(&schema, "properties").unwrap();
    assert_eq!(get(props, "city"), Some(&String::schema()));
    assert_eq!(set_description(schema.clone(), None), schema);
}
