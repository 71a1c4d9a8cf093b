//! Translation between Anthropic messages requests and OpenAI chat requests,
//! and back for the answers.

use vstd::prelude::*;
use crate::json::{
    entries_of, json_text_value, member, lemma_array_view, lemma_object_view, parse_json_text, JsonMember,
    JsonValue, JsonView,
};
use crate::models::{
    AnthropicContent, AnthropicContentBlock, AnthropicMessage, AnthropicRequest, AnthropicResponse,
    AnthropicResponseContent, AnthropicSystem, AnthropicSystemBlock, AnthropicTool,
    AnthropicToolChoice, AnthropicUsage, OpenAIMessage, OpenAIResponse, OpenAIToolCall,
};
use crate::text::{same_text, trim_text, trimmed};

verus! {

/// The parts joined with `sep` between each two, as `[String]::join` does.
pub open spec fn joined(parts: Seq<Seq<char>>, sep: Seq<char>) -> Seq<char>
    decreases parts.len(),
{
    if parts.len() == 0 {
        Seq::empty()
    } else if parts.len() == 1 {
        parts[0]
    } else {
        joined(parts.drop_last(), sep) + sep + parts.last()
    }
}

/// Joins `parts` with `sep` between each two.
pub fn join_texts(parts: &Vec<String>, sep: &str) -> (r: String)
    ensures
        r@ == joined(parts@.map_values(|p: String| p@), sep@),
{
    let ghost views = parts@.map_values(|p: String| p@);
    let mut r = String::new();
    let mut i: usize = 0;
    while i < parts.len()
        invariant
            i <= parts.len(),
            views == parts@.map_values(|p: String| p@),
            r@ == joined(views.subrange(0, i as int), sep@),
        decreases parts.len() - i,
    {
        if i > 0 {
            r.append(sep);
        }
        r.append(parts[i].as_str());
        assert(views.subrange(0, i + 1).drop_last() =~= views.subrange(0, i as int));
        if i == 0 {
            assert(r@ =~= views.subrange(0, 1)[0]);
        }
        i = i + 1;
    }
    assert(views.subrange(0, i as int) =~= views);
    r
}

/// The texts of the system blocks of type `text`, in order.
pub open spec fn system_block_texts(blocks: Seq<AnthropicSystemBlock>) -> Seq<Seq<char>>
    decreases blocks.len(),
{
    if blocks.len() == 0 {
        Seq::empty()
    } else {
        let before = system_block_texts(blocks.drop_last());
        if blocks.last().block_type@ == "text"@ {
            before.push(blocks.last().text@)
        } else {
            before
        }
    }
}

/// The texts that the content blocks carry, in order.
pub open spec fn content_block_texts(blocks: Seq<AnthropicContentBlock>) -> Seq<Seq<char>>
    decreases blocks.len(),
{
    if blocks.len() == 0 {
        Seq::empty()
    } else {
        let before = content_block_texts(blocks.drop_last());
        match blocks.last().text {
            Some(t) => before.push(t@),
            None => before,
        }
    }
}

/// The system prompt as one text: text blocks are joined by a blank line.
pub open spec fn system_text(system: AnthropicSystem) -> Seq<char> {
    match system {
        AnthropicSystem::Text(t) => t@,
        AnthropicSystem::Blocks(blocks) => joined(system_block_texts(blocks@), "\n\n"@),
    }
}

/// A message's content as one text: block texts are joined by a line break.
pub open spec fn message_text(content: AnthropicContent) -> Seq<char> {
    match content {
        AnthropicContent::Text(t) => t@,
        AnthropicContent::Blocks(blocks) => joined(content_block_texts(blocks@), "\n"@),
    }
}

fn system_texts(blocks: &Vec<AnthropicSystemBlock>) -> (r: Vec<String>)
    ensures
        r@.map_values(|p: String| p@) == system_block_texts(blocks@),
{
    let mut r: Vec<String> = Vec::new();
    let mut i: usize = 0;
    while i < blocks.len()
        invariant
            i <= blocks.len(),
            r@.map_values(|p: String| p@) == system_block_texts(blocks@.subrange(0, i as int)),
        decreases blocks.len() - i,
    {
        let ghost before = r@;
        assert(blocks@.subrange(0, i + 1).drop_last() =~= blocks@.subrange(0, i as int));
        if same_text(blocks[i].block_type.as_str(), "text") {
            r.push(blocks[i].text.clone());
            assert(r@.map_values(|p: String| p@) =~= before.map_values(|p: String| p@).push(
                blocks@[i as int].text@,
            ));
        }
        i = i + 1;
    }
    assert(blocks@.subrange(0, i as int) =~= blocks@);
    r
}

fn content_texts(blocks: &Vec<AnthropicContentBlock>) -> (r: Vec<String>)
    ensures
        r@.map_values(|p: String| p@) == content_block_texts(blocks@),
{
    let mut r: Vec<String> = Vec::new();
    let mut i: usize = 0;
    while i < blocks.len()
        invariant
            i <= blocks.len(),
            r@.map_values(|p: String| p@) == content_block_texts(blocks@.subrange(0, i as int)),
        decreases blocks.len() - i,
    {
        let ghost before = r@;
        assert(blocks@.subrange(0, i + 1).drop_last() =~= blocks@.subrange(0, i as int));
        match &blocks[i].text {
            Some(t) => {
                r.push(t.clone());
                assert(r@.map_values(|p: String| p@) =~= before.map_values(|p: String| p@).push(
                    t@,
                ));
            },
            None => {},
        }
        i = i + 1;
    }
    assert(blocks@.subrange(0, i as int) =~= blocks@);
    r
}

/// The system prompt as one text.
pub fn system_prompt_text(system: &AnthropicSystem) -> (r: String)
    ensures
        r@ == system_text(*system),
{
    match system {
        AnthropicSystem::Text(t) => t.clone(),
        AnthropicSystem::Blocks(blocks) => join_texts(&system_texts(blocks), "\n\n"),
    }
}

/// A message's content as one text.
pub fn message_content_text(content: &AnthropicContent) -> (r: String)
    ensures
        r@ == message_text(*content),
{
    match content {
        AnthropicContent::Text(t) => t.clone(),
        AnthropicContent::Blocks(blocks) => join_texts(&content_texts(blocks), "\n"),
    }
}

} // verus!

verus! {

/// `{"role": role, "content": content}`
pub open spec fn chat_message(role: Seq<char>, content: Seq<char>) -> JsonView {
    JsonView::Object(seq![("role"@, JsonView::Str(role)), ("content"@, JsonView::Str(content))])
}

/// The system prompt as a leading message, when it holds more than white space.
pub open spec fn system_messages(system: Option<AnthropicSystem>) -> Seq<JsonView> {
    match system {
        Some(s) => if trimmed(system_text(s)).len() > 0 {
            seq![chat_message("system"@, trimmed(system_text(s)))]
        } else {
            Seq::empty()
        },
        None => Seq::empty(),
    }
}

/// The OpenAI messages of a request: the system prompt first, then every
/// message with its content flattened to text.
pub open spec fn prompt_messages(request: AnthropicRequest) -> Seq<JsonView> {
    system_messages(request.system) + request.messages@.map_values(
        |m: AnthropicMessage| chat_message(m.role@, message_text(m.content)),
    )
}

/// The conversation keeps its order: after at most one leading system message,
/// the k-th translated message is the role and flattened text of the k-th
/// Anthropic message, and nothing else follows.
pub proof fn law_conversation_order_kept(request: AnthropicRequest)
    ensures
        system_messages(request.system).len() <= 1,
        prompt_messages(request).len() == system_messages(request.system).len()
            + request.messages@.len(),
        forall|k: int|
            0 <= k < request.messages@.len() ==> #[trigger] prompt_messages(request)[system_messages(
                request.system,
            ).len() + k] == chat_message(
                request.messages@[k].role@,
                message_text(request.messages@[k].content),
            ),
        system_messages(request.system).len() == 1 ==> prompt_messages(request)[0]
            == system_messages(request.system)[0],
{
}

/// The name under which an Anthropic parameter is passed on.
pub open spec fn renamed_param(key: Seq<char>) -> Seq<char> {
    if key == "stop_sequences"@ {
        "stop"@
    } else {
        key
    }
}

/// `request[renamed(key)] = value` for each parameter, in order.
pub open spec fn with_params(request: JsonView, params: Seq<(Seq<char>, JsonView)>) -> JsonView
    decreases params.len(),
{
    if params.len() == 0 {
        request
    } else {
        with_params(request, params.drop_last()).with_field(
            renamed_param(params.last().0),
            params.last().1,
        )
    }
}

pub open spec fn description_text(description: Option<String>) -> Seq<char> {
    match description {
        Some(d) => d@,
        None => ""@,
    }
}

/// An OpenAI function tool for an Anthropic tool.
pub open spec fn tool_entry(tool: AnthropicTool) -> JsonView {
    JsonView::Object(
        seq![
            ("type"@, JsonView::Str("function"@)),
            ("function"@, JsonView::Object(
                seq![
                    ("name"@, JsonView::Str(tool.name@)),
                    ("description"@, JsonView::Str(description_text(tool.description))),
                    ("parameters"@, tool.input_schema@),
                ],
            )),
        ],
    )
}

/// The function tools for the tools that have a name, in order.
pub open spec fn tool_entries(tools: Seq<AnthropicTool>) -> Seq<JsonView>
    decreases tools.len(),
{
    if tools.len() == 0 {
        Seq::empty()
    } else {
        let before = tool_entries(tools.drop_last());
        if tools.last().name@.len() > 0 {
            before.push(tool_entry(tools.last()))
        } else {
            before
        }
    }
}

pub open spec fn with_tools(request: JsonView, tools: Option<Vec<AnthropicTool>>) -> JsonView {
    match tools {
        Some(ts) => if tool_entries(ts@).len() > 0 {
            request.with_field("tools"@, JsonView::Array(tool_entries(ts@)))
        } else {
            request
        },
        None => request,
    }
}

/// The OpenAI tool choice: a named function for `tool` with a name, `auto` for
/// everything else.
pub open spec fn tool_choice_entry(choice: AnthropicToolChoice) -> JsonView {
    if choice.choice_type@ == "tool"@ && choice.name is Some {
        JsonView::Object(
            seq![
                ("type"@, JsonView::Str("function"@)),
                ("function"@, JsonView::Object(seq![("name"@, JsonView::Str(choice.name->0@))])),
            ],
        )
    } else {
        JsonView::Str("auto"@)
    }
}

pub open spec fn with_tool_choice(request: JsonView, choice: Option<AnthropicToolChoice>) -> JsonView {
    match choice {
        Some(c) => request.with_field("tool_choice"@, tool_choice_entry(c)),
        None => request,
    }
}

/// The OpenAI chat request that an Anthropic messages request becomes.
pub open spec fn openai_request(request: AnthropicRequest) -> JsonView {
    let base = JsonView::Object(
        seq![
            ("model"@, JsonView::Str(request.model@)),
            ("messages"@, JsonView::Array(prompt_messages(request))),
        ],
    );
    with_tool_choice(
        with_tools(with_params(base, entries_of(request.extra_params@)), request.tools),
        request.tool_choice,
    )
}

fn object_value(members: Vec<JsonMember>) -> (v: JsonValue)
    ensures
        v@ == JsonView::Object(entries_of(members@)),
{
    proof {
        lemma_object_view(members);
    }
    JsonValue::Object(members)
}

fn array_value(items: Vec<JsonValue>) -> (v: JsonValue)
    ensures
        v@ == JsonView::Array(items@.map_values(|x: JsonValue| x@)),
{
    proof {
        lemma_array_view(items);
    }
    JsonValue::Array(items)
}

fn chat_message_value(role: String, content: String) -> (v: JsonValue)
    ensures
        v@ == chat_message(role@, content@),
{
    let mut members = Vec::new();
    members.push(member("role", JsonValue::Str(role)));
    members.push(member("content", JsonValue::Str(content)));
    let v = object_value(members);
    assert(entries_of(members@) =~= seq![
        ("role"@, JsonView::Str(role@)),
        ("content"@, JsonView::Str(content@)),
    ]);
    v
}

fn prompt_message_values(request: &AnthropicRequest) -> (r: Vec<JsonValue>)
    ensures
        r@.map_values(|x: JsonValue| x@) == prompt_messages(*request),
{
    let mut r: Vec<JsonValue> = Vec::new();
    match &request.system {
        Some(system) => {
            let text = system_prompt_text(system);
            let t = trim_text(text.as_str());
            if !t.is_empty() {
                r.push(chat_message_value(String::from_str("system"), String::from_str(t)));
            }
        },
        None => {},
    }
    let ghost start = r@.map_values(|x: JsonValue| x@);
    assert(start =~= system_messages(request.system));
    let mut i: usize = 0;
    while i < request.messages.len()
        invariant
            i <= request.messages.len(),
            r@.map_values(|x: JsonValue| x@) == start + request.messages@.subrange(
                0,
                i as int,
            ).map_values(|m: AnthropicMessage| chat_message(m.role@, message_text(m.content))),
        decreases request.messages.len() - i,
    {
        let m = &request.messages[i];
        let ghost before = r@;
        r.push(chat_message_value(m.role.clone(), message_content_text(&m.content)));
        assert(r@.map_values(|x: JsonValue| x@) =~= before.map_values(|x: JsonValue| x@).push(
            chat_message(m.role@, message_text(m.content)),
        ));
        assert(request.messages@.subrange(0, i + 1).map_values(
            |m: AnthropicMessage| chat_message(m.role@, message_text(m.content)),
        ) =~= request.messages@.subrange(0, i as int).map_values(
            |m: AnthropicMessage| chat_message(m.role@, message_text(m.content)),
        ).push(chat_message(m.role@, message_text(m.content))));
        i = i + 1;
    }
    assert(request.messages@.subrange(0, i as int) =~= request.messages@);
    r
}

} // verus!

verus! {

fn tool_entry_value(tool: &AnthropicTool) -> (v: JsonValue)
    ensures
        v@ == tool_entry(*tool),
{
    let description = match &tool.description {
        Some(d) => d.clone(),
        None => String::from_str(""),
    };
    let mut function = Vec::new();
    function.push(member("name", JsonValue::Str(tool.name.clone())));
    function.push(member("description", JsonValue::Str(description)));
    function.push(member("parameters", tool.input_schema.duplicate()));
    assert(entries_of(function@) =~= seq![
        ("name"@, JsonView::Str(tool.name@)),
        ("description"@, JsonView::Str(description_text(tool.description))),
        ("parameters"@, tool.input_schema@),
    ]);
    let function = object_value(function);
    let mut entry = Vec::new();
    entry.push(member("type", JsonValue::Str(String::from_str("function"))));
    entry.push(member("function", function));
    assert(entries_of(entry@) =~= seq![
        ("type"@, JsonView::Str("function"@)),
        ("function"@, function@),
    ]);
    object_value(entry)
}

fn tool_entry_values(tools: &Vec<AnthropicTool>) -> (r: Vec<JsonValue>)
    ensures
        r@.map_values(|x: JsonValue| x@) == tool_entries(tools@),
{
    let mut r: Vec<JsonValue> = Vec::new();
    let mut i: usize = 0;
    while i < tools.len()
        invariant
            i <= tools.len(),
            r@.map_values(|x: JsonValue| x@) == tool_entries(tools@.subrange(0, i as int)),
        decreases tools.len() - i,
    {
        let ghost before = r@;
        assert(tools@.subrange(0, i + 1).drop_last() =~= tools@.subrange(0, i as int));
        if !tools[i].name.as_str().is_empty() {
            r.push(tool_entry_value(&tools[i]));
            assert(r@.map_values(|x: JsonValue| x@) =~= before.map_values(|x: JsonValue| x@).push(
                tool_entry(tools@[i as int]),
            ));
        }
        i = i + 1;
    }
    assert(tools@.subrange(0, i as int) =~= tools@);
    r
}

fn tool_choice_value(choice: &AnthropicToolChoice) -> (v: JsonValue)
    ensures
        v@ == tool_choice_entry(*choice),
{
    if same_text(choice.choice_type.as_str(), "tool") {
        match &choice.name {
            Some(name) => {
                let mut function = Vec::new();
                function.push(member("name", JsonValue::Str(name.clone())));
                assert(entries_of(function@) =~= seq![("name"@, JsonView::Str(name@))]);
                let function = object_value(function);
                let mut entry = Vec::new();
                entry.push(member("type", JsonValue::Str(String::from_str("function"))));
                entry.push(member("function", function));
                assert(entries_of(entry@) =~= seq![
                    ("type"@, JsonView::Str("function"@)),
                    ("function"@, function@),
                ]);
                return object_value(entry);
            },
            None => {},
        }
    }
    JsonValue::Str(String::from_str("auto"))
}

/// The name under which an Anthropic parameter is passed on.
pub fn renamed_param_name(key: &str) -> (r: String)
    ensures
        r@ == renamed_param(key@),
{
    if same_text(key, "stop_sequences") {
        String::from_str("stop")
    } else {
        String::from_str(key)
    }
}

/// Translates an Anthropic messages request into an OpenAI chat request.
pub fn anthropic_to_openai_request(anthropic: &AnthropicRequest) -> (r: JsonValue)
    ensures
        r@ == openai_request(*anthropic),
        r@.is_object(),
{
    let messages = prompt_message_values(anthropic);
    let messages = array_value(messages);
    let mut base = Vec::new();
    base.push(member("model", JsonValue::Str(anthropic.model.clone())));
    base.push(member("messages", messages));
    assert(entries_of(base@) =~= seq![
        ("model"@, JsonView::Str(anthropic.model@)),
        ("messages"@, JsonView::Array(prompt_messages(*anthropic))),
    ]);
    let mut request = object_value(base);
    let ghost base_view = JsonView::Object(
        seq![
            ("model"@, JsonView::Str(anthropic.model@)),
            ("messages"@, JsonView::Array(prompt_messages(*anthropic))),
        ],
    );
    proof {
        reveal_strlit("model");
        reveal_strlit("messages");
        assert("model"@ != "messages"@) by {
            assert("model"@.len() != "messages"@.len());
        }
    }
    let params = &anthropic.extra_params;
    let ghost param_entries = entries_of(params@);
    let mut i: usize = 0;
    while i < params.len()
        invariant
            i <= params.len(),
            param_entries == entries_of(params@),
            request@ == with_params(base_view, param_entries.subrange(0, i as int)),
            request@.is_object(),
        decreases params.len() - i,
    {
        let key = renamed_param_name(params[i].key.as_str());
        request.set_field(key, params[i].value.duplicate());
        assert(param_entries.subrange(0, i + 1).drop_last() =~= param_entries.subrange(0, i as int));
        i = i + 1;
    }
    assert(param_entries.subrange(0, i as int) =~= param_entries);
    match &anthropic.tools {
        Some(tools) => {
            let entries = tool_entry_values(tools);
            if entries.len() > 0 {
                request.set_field(String::from_str("tools"), array_value(entries));
            }
        },
        None => {},
    }
    match &anthropic.tool_choice {
        Some(choice) => {
            request.set_field(String::from_str("tool_choice"), tool_choice_value(choice));
        },
        None => {},
    }
    request
}

} // verus!

verus! {

/// What one content block of an Anthropic answer is made from.
pub enum BlockPlan {
    Text(Seq<char>),
    ToolUse { id: Seq<char>, name: Seq<char>, arguments: Seq<char> },
}

/// The text of the message as a block, when it is not empty.
pub open spec fn text_blocks(message: OpenAIMessage) -> Seq<BlockPlan> {
    match message.content {
        Some(t) => if t@.len() > 0 {
            seq![BlockPlan::Text(t@)]
        } else {
            Seq::empty()
        },
        None => Seq::empty(),
    }
}

/// A tool-use block for each function call, in order.
pub open spec fn tool_blocks(calls: Seq<OpenAIToolCall>) -> Seq<BlockPlan>
    decreases calls.len(),
{
    if calls.len() == 0 {
        Seq::empty()
    } else {
        let before = tool_blocks(calls.drop_last());
        let c = calls.last();
        if c.tool_type@ == "function"@ {
            before.push(
                BlockPlan::ToolUse {
                    id: c.id@,
                    name: c.function.name@,
                    arguments: c.function.arguments@,
                },
            )
        } else {
            before
        }
    }
}

/// The blocks of the answer: from the first choice's message, and one empty
/// text block when there would be none.
pub open spec fn planned_blocks(openai: OpenAIResponse) -> Seq<BlockPlan> {
    let found = if openai.choices@.len() > 0 {
        text_blocks(openai.choices@[0].message) + tool_blocks(
            openai.choices@[0].message.tool_calls@,
        )
    } else {
        Seq::empty()
    };
    if found.len() == 0 {
        seq![BlockPlan::Text(Seq::empty())]
    } else {
        found
    }
}

/// The block is the one the plan describes; the input of a tool call is the
/// parsed arguments when they are JSON, else `{"raw_arguments": arguments}`.
pub open spec fn block_realizes(block: AnthropicResponseContent, plan: BlockPlan) -> bool {
    match plan {
        BlockPlan::Text(t) => match block {
            AnthropicResponseContent::Text { content_type, text } => content_type@ == "text"@
                && text@ == t,
            _ => false,
        },
        BlockPlan::ToolUse { id, name, arguments } => match block {
            AnthropicResponseContent::ToolUse { content_type, id: i, name: n, input } => {
                &&& content_type@ == "tool_use"@
                &&& i@ == id
                &&& n@ == name
                &&& input@ == match json_text_value(arguments) {
                    Some(parsed) => JsonView::Other(parsed),
                    None => JsonView::Object(seq![("raw_arguments"@, JsonView::Str(arguments))]),
                }
            },
            _ => false,
        },
    }
}

/// The Anthropic stop reason for an OpenAI finish reason.
pub open spec fn stop_reason_for(finish_reason: Seq<char>) -> Seq<char> {
    if finish_reason == "stop"@ {
        "end_turn"@
    } else if finish_reason == "length"@ {
        "max_tokens"@
    } else if finish_reason == "tool_calls"@ || finish_reason == "function_call"@ {
        "tool_use"@
    } else if finish_reason == "content_filter"@ {
        "stop_sequence"@
    } else {
        finish_reason
    }
}

pub open spec fn answer_stop_reason(openai: OpenAIResponse) -> Seq<char> {
    if openai.choices@.len() > 0 {
        stop_reason_for(openai.choices@[0].finish_reason@)
    } else {
        "end_turn"@
    }
}

/// The Anthropic stop reason for an OpenAI finish reason.
pub fn map_finish_reason(finish_reason: &str) -> (r: String)
    ensures
        r@ == stop_reason_for(finish_reason@),
{
    if same_text(finish_reason, "stop") {
        String::from_str("end_turn")
    } else if same_text(finish_reason, "length") {
        String::from_str("max_tokens")
    } else if same_text(finish_reason, "tool_calls") || same_text(finish_reason, "function_call") {
        String::from_str("tool_use")
    } else if same_text(finish_reason, "content_filter") {
        String::from_str("stop_sequence")
    } else {
        String::from_str(finish_reason)
    }
}

fn tool_use_block(call: &OpenAIToolCall) -> (b: AnthropicResponseContent)
    ensures
        block_realizes(
            b,
            BlockPlan::ToolUse {
                id: call.id@,
                name: call.function.name@,
                arguments: call.function.arguments@,
            },
        ),
{
    let input = match parse_json_text(call.function.arguments.as_str()) {
        Some(v) => JsonValue::Other(v),
        None => {
            let mut members = Vec::new();
            members.push(member("raw_arguments", JsonValue::Str(call.function.arguments.clone())));
            assert(entries_of(members@) =~= seq![
                ("raw_arguments"@, JsonView::Str(call.function.arguments@)),
            ]);
            object_value(members)
        },
    };
    AnthropicResponseContent::ToolUse {
        content_type: String::from_str("tool_use"),
        id: call.id.clone(),
        name: call.function.name.clone(),
        input,
    }
}

/// Translates an OpenAI chat answer into an Anthropic messages answer for
/// `model`.
pub fn openai_to_anthropic_response(openai: &OpenAIResponse, model: &str) -> (r: AnthropicResponse)
    ensures
        r.id@ == openai.id@,
        r.response_type@ == "message"@,
        r.role@ == "assistant"@,
        r.model@ == model@,
        r.stop_reason@ == answer_stop_reason(*openai),
        r.stop_sequence is None,
        r.usage.input_tokens == openai.usage.prompt_tokens,
        r.usage.output_tokens == openai.usage.completion_tokens,
        r.content@.len() == planned_blocks(*openai).len(),
        forall|i: int|
            0 <= i < r.content@.len() ==> block_realizes(
                #[trigger] r.content@[i],
                planned_blocks(*openai)[i],
            ),
{
    let mut blocks: Vec<AnthropicResponseContent> = Vec::new();
    let ghost mut plan: Seq<BlockPlan> = Seq::empty();
    if openai.choices.len() > 0 {
        let message = &openai.choices[0].message;
        match &message.content {
            Some(text) => {
                if !text.as_str().is_empty() {
                    blocks.push(
                        AnthropicResponseContent::Text {
                            content_type: String::from_str("text"),
                            text: text.clone(),
                        },
                    );
                }
            },
            None => {},
        }
        proof {
            plan = text_blocks(*message);
        }
        let calls = &message.tool_calls;
        let mut i: usize = 0;
        while i < calls.len()
            invariant
                i <= calls.len(),
                plan == text_blocks(*message) + tool_blocks(calls@.subrange(0, i as int)),
                blocks@.len() == plan.len(),
                forall|j: int| 0 <= j < blocks@.len() ==> block_realizes(#[trigger] blocks@[j], plan[j]),
            decreases calls.len() - i,
        {
            assert(calls@.subrange(0, i + 1).drop_last() =~= calls@.subrange(0, i as int));
            if same_text(calls[i].tool_type.as_str(), "function") {
                blocks.push(tool_use_block(&calls[i]));
                proof {
                    plan = plan.push(
                        BlockPlan::ToolUse {
                            id: calls@[i as int].id@,
                            name: calls@[i as int].function.name@,
                            arguments: calls@[i as int].function.arguments@,
                        },
                    );
                }
            }
            assert(plan =~= text_blocks(*message) + tool_blocks(calls@.subrange(0, i + 1)));
            i = i + 1;
        }
        assert(calls@.subrange(0, i as int) =~= calls@);
    }
    assert(plan.len() == 0 ==> planned_blocks(*openai) == seq![BlockPlan::Text(Seq::<char>::empty())]);
    assert(plan.len() > 0 ==> planned_blocks(*openai) == plan);
    if blocks.len() == 0 {
        blocks.push(
            AnthropicResponseContent::Text {
                content_type: String::from_str("text"),
                text: String::new(),
            },
        );
    }
    let stop_reason = if openai.choices.len() > 0 {
        map_finish_reason(openai.choices[0].finish_reason.as_str())
    } else {
        String::from_str("end_turn")
    };
    AnthropicResponse {
        id: openai.id.clone(),
        response_type: String::from_str("message"),
        role: String::from_str("assistant"),
        content: blocks,
        model: String::from_str(model),
        stop_reason,
        stop_sequence: None,
        usage: AnthropicUsage {
            input_tokens: openai.usage.prompt_tokens,
            output_tokens: openai.usage.completion_tokens,
        },
    }
}

} // verus!

verus! {

/// Only the first choice of an answer counts: two answers whose first choices
/// agree translate to the same blocks and the same stop reason, whatever other
/// choices follow.
pub proof fn law_later_choices_ignored(first: OpenAIResponse, second: OpenAIResponse)
    requires
        first.choices@.len() > 0,
        second.choices@.len() > 0,
        first.choices@[0] == second.choices@[0],
    ensures
        planned_blocks(first) == planned_blocks(second),
        answer_stop_reason(first) == answer_stop_reason(second),
{
}

/// Every translated answer has at least one content block.
pub proof fn law_answer_has_a_block(openai: OpenAIResponse)
    ensures
        planned_blocks(openai).len() >= 1,
{
}

} // verus!
