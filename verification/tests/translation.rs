use llm_load_balancer::json::{JsonMember, JsonValue};
use llm_load_balancer::models::{
    AnthropicContent, AnthropicContentBlock, AnthropicMessage, AnthropicRequest,
    AnthropicResponseContent, AnthropicSystem, AnthropicSystemBlock, AnthropicTool,
    AnthropicToolChoice, OpenAIChoice, OpenAIFunction, OpenAIMessage, OpenAIResponse,
    OpenAIToolCall, OpenAIUsage,
};
use llm_load_balancer::translate::{
    anthropic_to_openai_request, join_texts, map_finish_reason, openai_to_anthropic_response,
    renamed_param_name,
};

fn member(key: &str, value: JsonValue) -> JsonMember {
    JsonMember { key: key.to_string(), value }
}

fn text(s: &str) -> JsonValue {
    JsonValue::Str(s.to_string())
}

fn chat(role: &str, content: &str) -> JsonValue {
    JsonValue::Object(vec![member("role", text(role)), member("content", text(content))])
}

fn request() -> AnthropicRequest {
    AnthropicRequest {
        model: "anthro-model".to_string(),
        system: None,
        messages: vec![],
        tools: None,
        tool_choice: None,
        extra_params: vec![],
    }
}

#[test]
fn plain_request_has_model_and_messages() {
    let mut r = request();
    r.messages.push(AnthropicMessage {
        role: "user".to_string(),
        content: AnthropicContent::Text("hi".to_string()),
    });
    let out = anthropic_to_openai_request(&r);
    assert_eq!(
        out,
        JsonValue::Object(vec![
            member("model", text("anthro-model")),
            member("messages", JsonValue::Array(vec![chat("user", "hi")])),
        ])
    );
}

#[test]
fn system_blocks_join_with_blank_line_and_are_trimmed() {
    let mut r = request();
    r.system = Some(AnthropicSystem::Blocks(vec![
        AnthropicSystemBlock { block_type: "text".to_string(), text: "  first".to_string() },
        AnthropicSystemBlock { block_type: "image".to_string(), text: "skip".to_string() },
        AnthropicSystemBlock { block_type: "text".to_string(), text: "second \n".to_string() },
    ]));
    let out = anthropic_to_openai_request(&r);
    assert_eq!(
        out.get("messages"),
        Some(&JsonValue::Array(vec![chat("system", "first\n\nsecond")]))
    );
}

#[test]
fn blank_system_prompt_is_dropped() {
    let mut r = request();
    r.system = Some(AnthropicSystem::Text("   \n ".to_string()));
    let out = anthropic_to_openai_request(&r);
    assert_eq!(out.get("messages"), Some(&JsonValue::Array(vec![])));
}

#[test]
fn content_blocks_join_with_line_break() {
    let mut r = request();
    r.messages.push(AnthropicMessage {
        role: "assistant".to_string(),
        content: AnthropicContent::Blocks(vec![
            AnthropicContentBlock { block_type: "text".to_string(), text: Some("a".to_string()) },
            AnthropicContentBlock { block_type: "image".to_string(), text: None },
            AnthropicContentBlock { block_type: "text".to_string(), text: Some("b".to_string()) },
        ]),
    });
    let out = anthropic_to_openai_request(&r);
    assert_eq!(out.get("messages"), Some(&JsonValue::Array(vec![chat("assistant", "a\nb")])));
}

#[test]
fn extra_parameters_are_passed_on_and_stop_sequences_renamed() {
    let mut r = request();
    r.extra_params = vec![
        member("max_tokens", JsonValue::Int(100)),
        member("stop_sequences", JsonValue::Array(vec![text("END")])),
        member("stream", JsonValue::Bool(true)),
    ];
    let out = anthropic_to_openai_request(&r);
    assert_eq!(out.get("max_tokens"), Some(&JsonValue::Int(100)));
    assert_eq!(out.get("stop"), Some(&JsonValue::Array(vec![text("END")])));
    assert_eq!(out.get("stop_sequences"), None);
    assert_eq!(out.get("stream"), Some(&JsonValue::Bool(true)));
    assert_eq!(renamed_param_name("stop_sequences"), "stop");
    assert_eq!(renamed_param_name("top_k"), "top_k");
}

#[test]
fn tools_and_tool_choice_are_translated() {
    let mut r = request();
    r.tools = Some(vec![
        AnthropicTool {
            name: "lookup".to_string(),
            description: None,
            input_schema: JsonValue::Object(vec![member("type", text("object"))]),
        },
        AnthropicTool { name: "".to_string(), description: Some("x".to_string()), input_schema: JsonValue::Null },
    ]);
    r.tool_choice = Some(AnthropicToolChoice { choice_type: "tool".to_string(), name: Some("lookup".to_string()) });
    let out = anthropic_to_openai_request(&r);
    assert_eq!(
        out.get("tools"),
        Some(&JsonValue::Array(vec![JsonValue::Object(vec![
            member("type", text("function")),
            member(
                "function",
                JsonValue::Object(vec![
                    member("name", text("lookup")),
                    member("description", text("")),
                    member("parameters", JsonValue::Object(vec![member("type", text("object"))])),
                ])
            ),
        ])]))
    );
    assert_eq!(
        out.get("tool_choice"),
        Some(&JsonValue::Object(vec![
            member("type", text("function")),
            member("function", JsonValue::Object(vec![member("name", text("lookup"))])),
        ]))
    );
    for kind in ["auto", "any", "none"] {
        let mut r2 = request();
        r2.tool_choice = Some(AnthropicToolChoice { choice_type: kind.to_string(), name: None });
        assert_eq!(anthropic_to_openai_request(&r2).get("tool_choice"), Some(&text("auto")));
    }
    let mut r3 = request();
    r3.tool_choice = Some(AnthropicToolChoice { choice_type: "tool".to_string(), name: None });
    assert_eq!(anthropic_to_openai_request(&r3).get("tool_choice"), Some(&text("auto")));
}

#[test]
fn only_named_tools_count() {
    let mut r = request();
    r.tools = Some(vec![AnthropicTool { name: "".to_string(), description: None, input_schema: JsonValue::Null }]);
    assert_eq!(anthropic_to_openai_request(&r).get("tools"), None);
}

#[test]
fn join_texts_puts_separator_between_parts() {
    let parts = vec!["a".to_string(), "b".to_string(), "c".to_string()];
    assert_eq!(join_texts(&parts, ", "), "a, b, c");
    assert_eq!(join_texts(&vec![], ", "), "");
}

fn answer(content: Option<&str>, calls: Vec<OpenAIToolCall>, finish: &str) -> OpenAIResponse {
    OpenAIResponse {
        id: "chatcmpl-1".to_string(),
        object: "chat.completion".to_string(),
        created: 5,
        model: "m".to_string(),
        choices: vec![OpenAIChoice {
            index: 0,
            message: OpenAIMessage {
                role: "assistant".to_string(),
                content: content.map(|c| c.to_string()),
                tool_calls: calls,
            },
            finish_reason: finish.to_string(),
        }],
        usage: OpenAIUsage { prompt_tokens: 11, completion_tokens: 7, total_tokens: 18 },
    }
}

fn call(id: &str, kind: &str, name: &str, args: &str) -> OpenAIToolCall {
    OpenAIToolCall {
        id: id.to_string(),
        tool_type: kind.to_string(),
        function: OpenAIFunction { name: name.to_string(), arguments: args.to_string() },
    }
}

#[test]
fn text_answer_becomes_text_block() {
    let r = openai_to_anthropic_response(&answer(Some("hello"), vec![], "stop"), "anthro-model");
    assert_eq!(r.id, "chatcmpl-1");
    assert_eq!(r.response_type, "message");
    assert_eq!(r.role, "assistant");
    assert_eq!(r.model, "anthro-model");
    assert_eq!(r.stop_reason, "end_turn");
    assert_eq!(r.stop_sequence, None);
    assert_eq!(r.usage.input_tokens, 11);
    assert_eq!(r.usage.output_tokens, 7);
    assert_eq!(
        r.content,
        vec![AnthropicResponseContent::Text { content_type: "text".to_string(), text: "hello".to_string() }]
    );
}

#[test]
fn tool_calls_become_tool_use_blocks() {
    let r = openai_to_anthropic_response(
        &answer(
            Some(""),
            vec![
                call("c1", "function", "f", "{\"x\": 1}"),
                call("c2", "other", "g", "{}"),
                call("c3", "function", "h", "not json"),
            ],
            "tool_calls",
        ),
        "anthro-model",
    );
    assert_eq!(r.stop_reason, "tool_use");
    assert_eq!(r.content.len(), 2);
    match &r.content[0] {
        AnthropicResponseContent::ToolUse { content_type, id, name, input } => {
            assert_eq!(content_type, "tool_use");
            assert_eq!(id, "c1");
            assert_eq!(name, "f");
            let mut expected = serde_json::Map::new();
            expected.insert("x".to_string(), serde_json::Value::from(1));
            assert_eq!(input, &JsonValue::Other(serde_json::Value::Object(expected)));
        }
        other => panic!("unexpected {:?}", other),
    }
    match &r.content[1] {
        AnthropicResponseContent::ToolUse { id, input, .. } => {
            assert_eq!(id, "c3");
            assert_eq!(input, &JsonValue::Object(vec![member("raw_arguments", text("not json"))]));
        }
        other => panic!("unexpected {:?}", other),
    }
}

#[test]
fn empty_answer_gets_one_empty_text_block() {
    let mut a = answer(None, vec![], "length");
    let r = openai_to_anthropic_response(&a, "m");
    assert_eq!(r.stop_reason, "max_tokens");
    assert_eq!(
        r.content,
        vec![AnthropicResponseContent::Text { content_type: "text".to_string(), text: String::new() }]
    );
    a.choices.clear();
    let r = openai_to_anthropic_response(&a, "m");
    assert_eq!(r.stop_reason, "end_turn");
    assert_eq!(r.content.len(), 1);
}

#[test]
fn finish_reasons_map_to_stop_reasons() {
    assert_eq!(map_finish_reason("stop"), "end_turn");
    assert_eq!(map_finish_reason("length"), "max_tokens");
    assert_eq!(map_finish_reason("tool_calls"), "tool_use");
    assert_eq!(map_finish_reason("function_call"), "tool_use");
    assert_eq!(map_finish_reason("content_filter"), "stop_sequence");
    assert_eq!(map_finish_reason("weird"), "weird");
}

#[test]
fn later_choices_are_ignored() {
    let single = answer(Some("first"), vec![call("c1", "function", "f", "[1, 2]")], "stop");
    let mut several = answer(Some("first"), vec![call("c1", "function", "f", "[1, 2]")], "stop");
    let extra = answer(Some("second"), vec![], "length");
    several.choices.extend(extra.choices);
    let a = openai_to_anthropic_response(&single, "m");
    let b = openai_to_anthropic_response(&several, "m");
    assert_eq!(a, b);
    assert_eq!(b.stop_reason, "end_turn");
    assert_eq!(b.content.len(), 2);
}
