use llama_cpp_2::openai::{
    ChatMessageDeltaOaicompat, ChatMessageOaicompat, FunctionCallDeltaOaicompat,
    FunctionCallOaicompat, FunctionDefinition, OpenAIChatTemplateOptions,
    OpenAIChatTemplateParams, ToolCallDeltaOaicompat, ToolCallOaicompat, ToolChoice,
    ToolDefinition, ToolType, WireValue,
};
use serde::ser::{Serialize, SerializeMap, SerializeSeq, Serializer};
use serde_json::Value;

/// Writes a wire value with serde.
struct Json<'a>(&'a WireValue<'a>);

impl Serialize for Json<'_> {
    fn serialize<S: Serializer>(&self, serializer: S) -> Result<S::Ok, S::Error> {
        match self.0 {
            WireValue::Null => serializer.serialize_unit(),
            WireValue::Bool(b) => serializer.serialize_bool(*b),
            WireValue::Number(n) => serializer.serialize_u64(*n as u64),
            WireValue::Text(text) => serializer.serialize_str(text),
            WireValue::Json(value) => value.serialize(serializer),
            WireValue::List(items) => {
                let mut list = serializer.serialize_seq(Some(items.len()))?;
                for item in items {
                    list.serialize_element(&Json(item))?;
                }
                list.end()
            }
            WireValue::Object(members) => {
                let mut object = serializer.serialize_map(Some(members.len()))?;
                for (key, value) in members {
                    object.serialize_entry(key, &Json(value))?;
                }
                object.end()
            }
        }
    }
}

fn json(text: &str) -> Value {
    serde_json::from_str(text).expect("the text is JSON")
}

fn written(wire: &WireValue<'_>) -> String {
    serde_json::to_string(&Json(wire)).expect("a wire value can be written")
}

#[test]
fn function_tool_serializes_to_openai_shape() {
    let tool = ToolDefinition::function(
        FunctionDefinition::new(
            "get_weather",
            json(
                r#"{
                    "type": "object",
                    "properties": {
                        "location": { "type": "string" }
                    },
                    "required": ["location"]
                }"#,
            ),
        )
        .with_description("Look up the current weather")
        .with_strict(true),
    );

    let value =
        serde_json::to_value(Json(&tool.to_wire())).expect("tool definition should serialize");
    assert_eq!(
        value,
        json(
            r#"{
                "type": "function",
                "function": {
                    "name": "get_weather",
                    "description": "Look up the current weather",
                    "parameters": {
                        "type": "object",
                        "properties": {
                            "location": { "type": "string" }
                        },
                        "required": ["location"]
                    },
                    "strict": true
                }
            }"#,
        )
    );
}

#[test]
fn tool_type_defaults_to_function() {
    let tool = ToolDefinition::function(FunctionDefinition::new(
        "noop",
        json(r#"{ "type": "object" }"#),
    ));

    assert_eq!(tool.tool_type, ToolType::Function);
}

#[test]
fn default_tool_type_is_function() {
    assert_eq!(ToolType::default(), ToolType::Function);
    assert_eq!(written(&ToolType::Function.to_wire()), "\"function\"");
}

#[test]
fn typed_options_have_reasonable_defaults() {
    let options = OpenAIChatTemplateOptions::new("[]");

    assert_eq!(options.messages_json, "[]");
    assert_eq!(options.tool_choice, None);
    assert!(options.add_generation_prompt);
    assert!(options.use_jinja);
    assert!(!options.parallel_tool_calls);
    assert!(!options.parse_tool_calls);
}

#[test]
fn typed_options_leave_the_rest_unset() {
    let options = OpenAIChatTemplateOptions::new("[{}]");

    assert_eq!(options.messages_json, "[{}]");
    assert!(options.tools.is_none());
    assert_eq!(options.json_schema, None);
    assert_eq!(options.grammar, None);
    assert_eq!(options.reasoning_format, None);
    assert_eq!(options.chat_template_kwargs, None);
    assert!(!options.enable_thinking);
    assert!(!options.add_bos);
    assert!(!options.add_eos);
    assert_eq!(options.clone(), options);
}

#[test]
fn template_params_hold_raw_strings() {
    let params = OpenAIChatTemplateParams {
        messages_json: "[]",
        tools_json: Some("[]"),
        tool_choice: Some(ToolChoice::Required.as_str()),
        json_schema: None,
        grammar: None,
        reasoning_format: None,
        chat_template_kwargs: Some("{}"),
        add_generation_prompt: true,
        use_jinja: true,
        parallel_tool_calls: false,
        enable_thinking: false,
        add_bos: false,
        add_eos: false,
        parse_tool_calls: true,
    };

    assert_eq!(params.tool_choice, Some("required"));
    assert_eq!(params.clone(), params);
}

#[test]
fn tool_choice_serializes_to_expected_wire_values() {
    assert_eq!(ToolChoice::Auto.as_str(), "auto");
    assert_eq!(ToolChoice::Required.as_str(), "required");
    assert_eq!(ToolChoice::Disabled.as_str(), "none");
}

#[test]
fn tool_choice_is_written_as_its_name() {
    assert_eq!(written(&ToolChoice::Auto.to_wire()), "\"auto\"");
    assert_eq!(written(&ToolChoice::Required.to_wire()), "\"required\"");
    assert_eq!(written(&ToolChoice::Disabled.to_wire()), "\"none\"");
}

#[test]
fn tool_choice_names_tell_the_modes_apart() {
    let modes = [ToolChoice::Auto, ToolChoice::Required, ToolChoice::Disabled];
    for a in modes {
        for b in modes {
            assert_eq!(a == b, a.as_str() == b.as_str());
        }
    }
}

#[test]
fn absent_attachments_are_not_written() {
    let tool = ToolDefinition::function(FunctionDefinition::new(
        String::from("noop"),
        json(r#"{"type":"object"}"#),
    ));

    assert_eq!(
        written(&tool.to_wire()),
        r#"{"type":"function","function":{"name":"noop","parameters":{"type":"object"}}}"#
    );
}

#[test]
fn members_are_written_in_the_order_of_the_fields() {
    let tool = ToolDefinition::function(
        FunctionDefinition::new("f", json("null"))
            .with_strict(false)
            .with_description("d"),
    );

    assert_eq!(
        written(&tool.to_wire()),
        r#"{"type":"function","function":{"name":"f","description":"d","parameters":null,"strict":false}}"#
    );
}

#[test]
fn attachments_commute_and_the_last_one_counts() {
    let plain = FunctionDefinition::new("f", json("{}"));
    let a = plain.clone().with_description("d").with_strict(true);
    let b = plain
        .clone()
        .with_strict(false)
        .with_strict(true)
        .with_description("c")
        .with_description("d");

    assert_eq!(plain.description, None);
    assert_eq!(plain.strict, None);
    assert_eq!(a, b);
    assert_eq!(a.description.as_deref(), Some("d"));
    assert_eq!(a.strict, Some(true));
    assert_eq!(a.name, "f");
}

#[test]
fn tools_that_differ_are_written_differently() {
    let plain = FunctionDefinition::new("f", json("{}"));
    let tools = [
        plain.clone(),
        plain.clone().with_description(""),
        plain.clone().with_strict(false),
        plain.clone().with_strict(true),
        FunctionDefinition::new("g", json("{}")),
        FunctionDefinition::new("f", json("[]")),
    ];
    for (i, a) in tools.iter().enumerate() {
        for (j, b) in tools.iter().enumerate() {
            let a = ToolDefinition::function(a.clone());
            let b = ToolDefinition::function(b.clone());
            assert_eq!(i == j, written(&a.to_wire()) == written(&b.to_wire()));
        }
    }
}

#[test]
fn copies_of_definitions_are_equal() {
    let tool = ToolDefinition::function(
        FunctionDefinition::new("f", json(r#"{"a":[1,2.5,"x",null,true]}"#)).with_description("d"),
    );
    assert_eq!(tool.clone(), tool);
}

#[test]
fn message_is_written_with_all_its_members() {
    let message = ChatMessageOaicompat {
        role: "assistant".to_string(),
        content: None,
        reasoning_content: Some("thinking".to_string()),
        name: None,
        tool_call_id: None,
        tool_calls: vec![
            ToolCallOaicompat {
                id: Some("call_123".to_string()),
                tool_type: Some(ToolType::Function),
                function: FunctionCallOaicompat {
                    name: "get_weather".to_string(),
                    arguments: json(r#"{"location":"Paris"}"#),
                },
            },
            ToolCallOaicompat {
                id: None,
                tool_type: None,
                function: FunctionCallOaicompat {
                    name: "noop".to_string(),
                    arguments: json("\"{}\""),
                },
            },
        ],
    };

    assert_eq!(
        written(&message.to_wire()),
        concat_lines(&[
            r#"{"role":"assistant","content":null,"reasoning_content":"thinking","#,
            r#""name":null,"tool_call_id":null,"tool_calls":["#,
            r#"{"id":"call_123","type":"function","#,
            r#""function":{"name":"get_weather","arguments":{"location":"Paris"}}},"#,
            r#"{"id":null,"type":null,"function":{"name":"noop","arguments":"{}"}}]}"#,
        ])
    );
    assert_eq!(message.clone(), message);
}

#[test]
fn tool_message_is_written_with_its_content() {
    let message = ChatMessageOaicompat {
        role: "tool".to_string(),
        content: Some(json("\"22 C\"")),
        reasoning_content: None,
        name: Some("get_weather".to_string()),
        tool_call_id: Some("call_123".to_string()),
        tool_calls: Vec::new(),
    };

    assert_eq!(
        written(&message.to_wire()),
        concat_lines(&[
            r#"{"role":"tool","content":"22 C","reasoning_content":null,"#,
            r#""name":"get_weather","tool_call_id":"call_123","tool_calls":[]}"#,
        ])
    );
}

#[test]
fn delta_is_written_with_all_its_members() {
    let delta = ChatMessageDeltaOaicompat {
        role: None,
        content: Some("hi".to_string()),
        reasoning_content: None,
        tool_calls: vec![
            ToolCallDeltaOaicompat {
                index: 0,
                id: Some("call_123".to_string()),
                tool_type: Some(ToolType::Function),
                function: Some(FunctionCallDeltaOaicompat {
                    name: Some("get_weather".to_string()),
                    arguments: Some("{\"location\":\"Paris\"}".to_string()),
                }),
            },
            ToolCallDeltaOaicompat { index: 1, id: None, tool_type: None, function: None },
        ],
    };

    assert_eq!(
        written(&delta.to_wire()),
        concat_lines(&[
            r#"{"role":null,"content":"hi","reasoning_content":null,"tool_calls":["#,
            r#"{"index":0,"id":"call_123","type":"function","#,
            r#""function":{"name":"get_weather","arguments":"{\"location\":\"Paris\"}"}},"#,
            r#"{"index":1,"id":null,"type":null,"function":null}]}"#,
        ])
    );
    assert_eq!(delta.clone(), delta);
}

#[test]
fn deltas_that_differ_are_written_differently() {
    let empty = ChatMessageDeltaOaicompat {
        role: None,
        content: None,
        reasoning_content: None,
        tool_calls: Vec::new(),
    };
    let mut content = empty.clone();
    content.content = Some(String::new());
    let mut reasoning = empty.clone();
    reasoning.reasoning_content = Some(String::new());
    let deltas = [empty, content, reasoning];
    for (i, a) in deltas.iter().enumerate() {
        for (j, b) in deltas.iter().enumerate() {
            assert_eq!(i == j, written(&a.to_wire()) == written(&b.to_wire()));
        }
    }
}

fn tool(name: &str, parameters: &str) -> FunctionDefinition {
    FunctionDefinition::new(name, json(parameters))
}

#[test]
fn tool_choices_read_back() {
    for choice in [ToolChoice::Auto, ToolChoice::Required, ToolChoice::Disabled] {
        let value = choice.to_value();
        assert_eq!(value, Value::String(choice.as_str().to_string()));
        assert_eq!(ToolChoice::from_value(value), Some(choice));
    }
    assert_eq!(ToolChoice::from_value(json(r#""Auto""#)), None);
    assert_eq!(ToolChoice::from_value(json(r#"{"none": null}"#)), Some(ToolChoice::Disabled));
    assert_eq!(ToolChoice::from_value(json(r#"{"none": 1}"#)), None);
    assert_eq!(ToolChoice::from_value(json(r#"{"none": null, "auto": null}"#)), None);
    assert_eq!(ToolChoice::from_value(json("{}")), None);
    assert_eq!(ToolChoice::from_value(json("null")), None);
    assert_eq!(ToolChoice::from_value(json(r#"["auto"]"#)), None);
}

#[test]
fn tool_types_read_back() {
    assert_eq!(ToolType::Function.to_value(), json(r#""function""#));
    assert_eq!(ToolType::from_value(json(r#""function""#)), Some(ToolType::Function));
    assert_eq!(ToolType::from_value(json(r#"{"function": null}"#)), Some(ToolType::Function));
    assert_eq!(ToolType::from_value(json(r#""Function""#)), None);
    assert_eq!(ToolType::from_value(json("0")), None);
}

#[test]
fn tools_read_back() {
    let schema = r#"{"type": "object", "required": ["a"], "bound": 1.5, "n": null}"#;
    let definitions = vec![
        tool("plain", schema),
        tool("", "null"),
        tool("described", schema).with_description("what it does"),
        tool("strict", "[]").with_strict(false),
        tool("both", "true").with_description("").with_strict(true),
    ];
    for definition in definitions {
        let tool = ToolDefinition::function(definition);
        let value = tool.to_value();
        assert_eq!(
            value,
            serde_json::to_value(Json(&tool.to_wire())).expect("a wire value can be written")
        );
        assert_eq!(ToolDefinition::from_value(value), Some(tool));
    }
}

#[test]
fn tools_are_read_with_their_defaults() {
    let plain = Some(ToolDefinition::function(tool("f", "{}")));
    for text in [
        r#"{"function": {"name": "f", "parameters": {}}}"#,
        r#"{"type": "function", "function": {"name": "f", "parameters": {}}}"#,
        r#"{"function": {"parameters": {}, "name": "f", "description": null, "strict": null}}"#,
        r#"{"other": 1, "function": {"name": "f", "parameters": {}, "more": []}}"#,
        r#"["function", ["f", null, {}, null]]"#,
        r#"{"function": ["f", null, {}, null]}"#,
    ] {
        assert_eq!(ToolDefinition::from_value(json(text)), plain, "{}", text);
    }
}

#[test]
fn values_that_are_no_tools_are_not_read() {
    for text in [
        "null",
        "\"function\"",
        "{}",
        "[]",
        r#"{"type": "function"}"#,
        r#"{"type": null, "function": {"name": "f", "parameters": {}}}"#,
        r#"{"type": "tool", "function": {"name": "f", "parameters": {}}}"#,
        r#"{"function": {"parameters": {}}}"#,
        r#"{"function": {"name": "f"}}"#,
        r#"{"function": {"name": null, "parameters": {}}}"#,
        r#"{"function": {"name": "f", "parameters": {}, "description": 1}}"#,
        r#"{"function": {"name": "f", "parameters": {}, "strict": "true"}}"#,
        r#"[["f", null, {}, null]]"#,
        r#"["function", ["f", null, {}]]"#,
        r#"["function", ["f", null, {}, null, null]]"#,
        r#"["function", ["f", null, {}, null], 1]"#,
    ] {
        assert_eq!(ToolDefinition::from_value(json(text)), None, "{}", text);
    }
}

#[test]
fn messages_that_differ_are_written_differently() {
    let call = |id: Option<&str>, arguments: &str| ToolCallOaicompat {
        id: id.map(str::to_string),
        tool_type: None,
        function: FunctionCallOaicompat { name: "f".to_string(), arguments: json(arguments) },
    };
    let message = |content: Option<Value>, calls: Vec<ToolCallOaicompat>| ChatMessageOaicompat {
        role: "assistant".to_string(),
        content,
        reasoning_content: None,
        name: None,
        tool_call_id: None,
        tool_calls: calls,
    };
    let messages = vec![
        message(None, Vec::new()),
        message(Some(json("\"\"")), Vec::new()),
        message(None, vec![call(None, "{}")]),
        message(None, vec![call(Some("a"), "{}")]),
        message(None, vec![call(None, "\"{}\"")]),
        message(None, vec![call(None, "{}"), call(None, "{}")]),
    ];
    for (i, a) in messages.iter().enumerate() {
        for (j, b) in messages.iter().enumerate() {
            assert_eq!(i == j, written(&a.to_wire()) == written(&b.to_wire()));
        }
    }
    let null = message(Some(Value::Null), Vec::new());
    assert_eq!(written(&null.to_wire()), written(&messages[0].to_wire()));
    assert!(matches!(null.to_wire(), WireValue::Object(members)
        if matches!(members[1].1, WireValue::Json(Value::Null))));
}

fn concat_lines(lines: &[&str]) -> String {
    lines.concat()
}
