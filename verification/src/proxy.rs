//! What a chat request is turned into for one provider.

use vstd::prelude::*;
use crate::json::{law_field_read_after_write, JsonValue, JsonView};
use crate::models::{Provider, ProviderParam};
use crate::text::same_text;

verus! {

/// The model that a chat body names: its `model` member, when that is a string.
pub open spec fn named_model(body: JsonView) -> Option<Seq<char>> {
    match body.field("model"@) {
        Some(v) => v.as_text(),
        None => None,
    }
}

/// Whether a chat body asks for a streamed answer: its `stream` member is `true`.
pub open spec fn streaming_requested(body: JsonView) -> bool {
    match body.field("stream"@) {
        Some(v) => v.as_flag() == Some(true),
        None => false,
    }
}

/// The model named in a chat body.
pub fn requested_model(body: &JsonValue) -> (m: Option<String>)
    requires
        body@ is Object ==> body@.is_object(),
    ensures
        match m {
            Some(s) => named_model(body@) == Some(s@),
            None => named_model(body@) is None,
        },
{
    match body.get("model") {
        Some(v) => match v.as_str() {
            Some(s) => Some(s.clone()),
            None => None,
        },
        None => None,
    }
}

/// Whether a chat body asks for a streamed answer.
pub fn wants_stream(body: &JsonValue) -> (s: bool)
    requires
        body@ is Object ==> body@.is_object(),
    ensures
        s == streaming_requested(body@),
{
    match body.get("stream") {
        Some(v) => match v.as_bool() {
            Some(b) => b,
            None => false,
        },
        None => false,
    }
}

/// The configuration keys that are never passed on as request parameters.
pub open spec fn reserved_param(name: Seq<char>) -> bool {
    name == "base_url"@ || name == "key"@ || name == "model_regex"@
}

/// The body after the provider's extra parameters, in order: each one that is
/// not reserved and has a JSON form is set.
pub open spec fn with_provider_params(body: JsonView, params: Seq<ProviderParam>) -> JsonView
    decreases params.len(),
{
    if params.len() == 0 {
        body
    } else {
        let before = with_provider_params(body, params.drop_last());
        let p = params.last();
        if !reserved_param(p.name@) && p.value is Some {
            before.with_field(p.name@, p.value->0@)
        } else {
            before
        }
    }
}

/// The body sent to a provider: the client's body with the chosen model and
/// the provider's extra parameters.
pub open spec fn provider_body(body: JsonView, model: Seq<char>, provider: Provider) -> JsonView {
    with_provider_params(
        body.with_field("model"@, JsonView::Str(model)),
        provider.extra_params@,
    )
}

/// Builds the body for one attempt at `provider`.
pub fn provider_request_body(body: &JsonValue, model: &str, provider: &Provider) -> (r: JsonValue)
    requires
        body@.is_object(),
    ensures
        r@ == provider_body(body@, model@, *provider),
        r@.is_object(),
{
    let mut request = body.duplicate();
    request.set_field(String::from_str("model"), JsonValue::Str(String::from_str(model)));
    let params = &provider.extra_params;
    let ghost start = body@.with_field("model"@, JsonView::Str(model@));
    let mut i: usize = 0;
    while i < params.len()
        invariant
            i <= params.len(),
            request@ == with_provider_params(start, params@.subrange(0, i as int)),
            request@.is_object(),
        decreases params.len() - i,
    {
        assert(params@.subrange(0, i + 1).drop_last() =~= params@.subrange(0, i as int));
        let name = params[i].name.as_str();
        if !same_text(name, "base_url") && !same_text(name, "key") && !same_text(
            name,
            "model_regex",
        ) {
            match &params[i].value {
                Some(v) => {
                    request.set_field(params[i].name.clone(), v.duplicate());
                },
                None => {},
            }
        }
        i = i + 1;
    }
    assert(params@.subrange(0, i as int) =~= params@);
    request
}

/// `{base_url}/chat/completions`
pub fn chat_completions_url(provider: &Provider) -> (u: String)
    ensures
        u@ == provider.base_url@ + "/chat/completions"@,
{
    let mut u = provider.base_url.clone();
    u.append("/chat/completions");
    u
}

/// `{base_url}/models`
pub fn models_url(provider: &Provider) -> (u: String)
    ensures
        u@ == provider.base_url@ + "/models"@,
{
    let mut u = provider.base_url.clone();
    u.append("/models");
    u
}

/// The `Authorization` header value for the provider: `Bearer {key}`.
pub fn bearer_token(provider: &Provider) -> (h: String)
    ensures
        h@ == "Bearer "@ + provider.key@,
{
    let mut h = String::from_str("Bearer ");
    h.append(provider.key.as_str());
    h
}

/// The error text for a chat body without a model.
pub fn missing_model_message() -> (m: String)
    ensures
        m@ == "Missing 'model' field in request"@,
{
    String::from_str("Missing 'model' field in request")
}

} // verus!

verus! {

/// Whether a provider parameter goes into the request: it is not reserved and
/// has a JSON value.
pub open spec fn passed_on(param: ProviderParam) -> bool {
    !reserved_param(param.name@) && param.value is Some
}

proof fn lemma_params_keep_object(body: JsonView, params: Seq<ProviderParam>)
    requires
        body.is_object(),
    ensures
        with_provider_params(body, params).is_object(),
    decreases params.len(),
{
    if params.len() > 0 {
        lemma_params_keep_object(body, params.drop_last());
        let p = params.last();
        if passed_on(p) {
            law_field_read_after_write(
                with_provider_params(body, params.drop_last()),
                p.name@,
                p.value->0@,
                p.name@,
            );
        }
    }
}

proof fn lemma_params_leave_field(body: JsonView, params: Seq<ProviderParam>, key: Seq<char>)
    requires
        body.is_object(),
        forall|j: int| 0 <= j < params.len() && passed_on(#[trigger] params[j]) ==> params[j].name@ != key,
    ensures
        with_provider_params(body, params).field(key) == body.field(key),
    decreases params.len(),
{
    if params.len() > 0 {
        lemma_params_leave_field(body, params.drop_last(), key);
        lemma_params_keep_object(body, params.drop_last());
        let p = params.last();
        if passed_on(p) {
            assert(passed_on(params[params.len() - 1]));
            law_field_read_after_write(
                with_provider_params(body, params.drop_last()),
                p.name@,
                p.value->0@,
                key,
            );
        }
    }
}

proof fn lemma_params_set_field(body: JsonView, params: Seq<ProviderParam>, i: int)
    requires
        body.is_object(),
        0 <= i < params.len(),
        passed_on(params[i]),
        forall|j: int|
            i < j < params.len() && passed_on(#[trigger] params[j]) ==> params[j].name@
                != params[i].name@,
    ensures
        with_provider_params(body, params).field(params[i].name@) == Some(params[i].value->0@),
    decreases params.len(),
{
    let last = params.len() - 1;
    lemma_params_keep_object(body, params.drop_last());
    let before = with_provider_params(body, params.drop_last());
    let p = params.last();
    if i == last {
        law_field_read_after_write(before, p.name@, p.value->0@, p.name@);
    } else {
        assert(params.drop_last()[i] == params[i]);
        lemma_params_set_field(body, params.drop_last(), i);
        if passed_on(p) {
            assert(passed_on(params[last]));
            law_field_read_after_write(before, p.name@, p.value->0@, params[i].name@);
        }
    }
}

/// Every provider parameter that is not reserved and has a value is sent: the
/// body holds the value of the last such parameter of each name. Without such
/// a parameter named `model`, the body names the chosen model; every other
/// member that no such parameter names is the client's own.
pub proof fn law_provider_params_sent(body: JsonView, model: Seq<char>, provider: Provider, key: Seq<char>)
    requires
        body.is_object(),
    ensures
        forall|i: int|
            0 <= i < provider.extra_params@.len() && passed_on(#[trigger] provider.extra_params@[i])
                && (forall|j: int|
                i < j < provider.extra_params@.len() && passed_on(provider.extra_params@[j])
                    ==> provider.extra_params@[j].name@ != provider.extra_params@[i].name@)
                ==> provider_body(body, model, provider).field(provider.extra_params@[i].name@)
                == Some(provider.extra_params@[i].value->0@),
        (forall|j: int|
            0 <= j < provider.extra_params@.len() && passed_on(#[trigger] provider.extra_params@[j])
                ==> provider.extra_params@[j].name@ != key) ==> provider_body(body, model, provider).field(
            key,
        ) == if key == "model"@ {
            Some(JsonView::Str(model))
        } else {
            body.field(key)
        },
{
    let params = provider.extra_params@;
    let start = body.with_field("model"@, JsonView::Str(model));
    law_field_read_after_write(body, "model"@, JsonView::Str(model), key);
    assert forall|i: int|
        0 <= i < params.len() && passed_on(#[trigger] params[i]) && (forall|j: int|
            i < j < params.len() && passed_on(params[j]) ==> params[j].name@ != params[i].name@)
        implies with_provider_params(start, params).field(params[i].name@) == Some(
        params[i].value->0@,
    ) by {
        lemma_params_set_field(start, params, i);
    }
    if forall|j: int| 0 <= j < params.len() && passed_on(#[trigger] params[j]) ==> params[j].name@ != key {
        lemma_params_leave_field(start, params, key);
    }
}

} // verus!
