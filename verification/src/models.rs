//! The configuration, the provider model descriptions and the Anthropic and
//! OpenAI message shapes.

use vstd::prelude::*;
use crate::json::{JsonMember, JsonValue};

verus! {

/// The balancer's configuration: the port it listens on and its providers.
#[derive(Debug, PartialEq)]
pub struct Config {
    pub port: u16,
    pub providers: Vec<Provider>,
}

/// One extra request parameter of a provider, as JSON. `None` when the
/// configured value has no JSON form; such a parameter is never sent.
#[derive(Debug, PartialEq)]
pub struct ProviderParam {
    pub name: String,
    pub value: Option<JsonValue>,
}

/// An upstream OpenAI-compatible provider.
#[derive(Debug, PartialEq)]
pub struct Provider {
    pub base_url: String,
    pub key: String,
    pub extra_params: Vec<ProviderParam>,
}

/// A model as a provider's `/models` endpoint describes it.
#[derive(Debug, PartialEq)]
pub struct ModelInfo {
    pub id: String,
    pub object: Option<String>,
    pub created: Option<i64>,
    pub owned_by: Option<String>,
}

/// The body of a provider's `/models` answer.
#[derive(Debug, PartialEq)]
pub struct ModelsResponse {
    pub data: Vec<ModelInfo>,
    pub object: Option<String>,
}

/// A chat completion request: its model and the rest of its body.
#[derive(Debug, PartialEq)]
pub struct ChatCompletionRequest {
    pub model: String,
    pub messages: JsonValue,
}

/// The body of every error answer.
#[derive(Debug, PartialEq)]
pub struct ErrorResponse {
    pub error: String,
}

/// The form posted to choose the default model; an empty name clears it.
#[derive(Debug, PartialEq)]
pub struct SetDefaultRequest {
    pub default_model: String,
}

#[derive(Debug, PartialEq)]
pub struct AnthropicMessage {
    pub role: String,
    pub content: AnthropicContent,
}

#[derive(Debug, PartialEq)]
pub enum AnthropicContent {
    Text(String),
    Blocks(Vec<AnthropicContentBlock>),
}

#[derive(Debug, PartialEq)]
pub struct AnthropicContentBlock {
    pub block_type: String,
    pub text: Option<String>,
}

#[derive(Debug, PartialEq)]
pub enum AnthropicSystem {
    Text(String),
    Blocks(Vec<AnthropicSystemBlock>),
}

#[derive(Debug, PartialEq)]
pub struct AnthropicSystemBlock {
    pub block_type: String,
    pub text: String,
}

#[derive(Debug, PartialEq)]
pub struct AnthropicTool {
    pub name: String,
    pub description: Option<String>,
    pub input_schema: JsonValue,
}

#[derive(Debug, PartialEq)]
pub struct AnthropicToolChoice {
    pub choice_type: String,
    pub name: Option<String>,
}

/// An Anthropic messages request; `extra_params` holds every other top-level
/// member of the body, each key once.
#[derive(Debug, PartialEq)]
pub struct AnthropicRequest {
    pub model: String,
    pub system: Option<AnthropicSystem>,
    pub messages: Vec<AnthropicMessage>,
    pub tools: Option<Vec<AnthropicTool>>,
    pub tool_choice: Option<AnthropicToolChoice>,
    pub extra_params: Vec<JsonMember>,
}

#[derive(Debug, PartialEq)]
pub struct AnthropicResponse {
    pub id: String,
    pub response_type: String,
    pub role: String,
    pub content: Vec<AnthropicResponseContent>,
    pub model: String,
    pub stop_reason: String,
    pub stop_sequence: Option<String>,
    pub usage: AnthropicUsage,
}

#[derive(Debug, PartialEq)]
pub enum AnthropicResponseContent {
    Text { content_type: String, text: String },
    ToolUse { content_type: String, id: String, name: String, input: JsonValue },
}

#[derive(Debug, PartialEq)]
pub struct AnthropicUsage {
    pub input_tokens: u32,
    pub output_tokens: u32,
}

#[derive(Debug, PartialEq)]
pub struct OpenAIResponse {
    pub id: String,
    pub object: String,
    pub created: i64,
    pub model: String,
    pub choices: Vec<OpenAIChoice>,
    pub usage: OpenAIUsage,
}

#[derive(Debug, PartialEq)]
pub struct OpenAIChoice {
    pub index: u32,
    pub message: OpenAIMessage,
    pub finish_reason: String,
}

#[derive(Debug, PartialEq)]
pub struct OpenAIMessage {
    pub role: String,
    pub content: Option<String>,
    pub tool_calls: Vec<OpenAIToolCall>,
}

#[derive(Debug, PartialEq)]
pub struct OpenAIToolCall {
    pub id: String,
    pub tool_type: String,
    pub function: OpenAIFunction,
}

#[derive(Debug, PartialEq)]
pub struct OpenAIFunction {
    pub name: String,
    pub arguments: String,
}

#[derive(Debug, PartialEq)]
pub struct OpenAIUsage {
    pub prompt_tokens: u32,
    pub completion_tokens: u32,
    pub total_tokens: u32,
}

pub open spec fn opt_text(s: Option<String>) -> Option<Seq<char>> {
    match s {
        Some(t) => Some(t@),
        None => None,
    }
}

fn clone_opt_text(s: &Option<String>) -> (r: Option<String>)
    ensures
        r == *s,
{
    match s {
        Some(t) => Some(t.clone()),
        None => None,
    }
}

impl ModelInfo {
    pub fn duplicate(&self) -> (r: ModelInfo)
        ensures
            r == *self,
    {
        ModelInfo {
            id: self.id.clone(),
            object: clone_opt_text(&self.object),
            created: self.created,
            owned_by: clone_opt_text(&self.owned_by),
        }
    }
}

/// A copy of a list of models.
pub fn duplicate_models(models: &Vec<ModelInfo>) -> (r: Vec<ModelInfo>)
    ensures
        r@ == models@,
{
    let mut r: Vec<ModelInfo> = Vec::new();
    let mut i: usize = 0;
    while i < models.len()
        invariant
            i <= models.len(),
            r@ == models@.subrange(0, i as int),
        decreases models.len() - i,
    {
        r.push(models[i].duplicate());
        assert(models@.subrange(0, i + 1) =~= models@.subrange(0, i as int).push(models@[i as int]));
        i = i + 1;
    }
    assert(models@.subrange(0, i as int) =~= models@);
    r
}

} // verus!
