use llm_load_balancer::balancer::LoadBalancer;
use llm_load_balancer::json::{JsonMember, JsonValue};
use llm_load_balancer::models::{Config, ModelInfo, Provider, ProviderParam};
use llm_load_balancer::proxy::{bearer_token, chat_completions_url, models_url, provider_request_body, missing_model_message};
use llm_load_balancer::routing::{
    request_failure_message, status_failure_message, unparsable_answer_message,
    unreadable_body_message, FailoverStep,
};

fn provider(url: &str) -> Provider {
    Provider { base_url: url.to_string(), key: format!("key-{}", url), extra_params: vec![] }
}

fn model(id: &str) -> ModelInfo {
    ModelInfo { id: id.to_string(), object: None, created: None, owned_by: None }
}

fn balancer(n: usize) -> LoadBalancer {
    let providers = (0..n).map(|i| provider(&format!("http://p{}", i))).collect();
    LoadBalancer::new(Config { port: 7128, providers }, reqwest::Client::new())
}

#[test]
fn table_routes_each_model_to_the_last_provider_listing_it() {
    let mut lb = balancer(3);
    lb.record_fetch_results(vec![
        Some(vec![model("a"), model("shared")]),
        None,
        Some(vec![model("shared"), model("c")]),
    ]);
    assert_eq!(lb.find_provider_for_model("a"), Some(0));
    assert_eq!(lb.find_provider_for_model("shared"), Some(2));
    assert_eq!(lb.find_provider_for_model("c"), Some(2));
    assert_eq!(lb.find_provider_for_model("missing"), None);
    assert_eq!(lb.get_provider_models(1), Some(vec![]));
    assert_eq!(lb.get_provider_models(2), Some(vec![model("shared"), model("c")]));
    let mut all = lb.get_available_models();
    all.sort();
    assert_eq!(all, vec![("a".to_string(), 0), ("c".to_string(), 2), ("shared".to_string(), 2)]);
}

#[test]
fn default_is_never_looked_up() {
    let mut lb = balancer(1);
    lb.record_fetch_results(vec![Some(vec![model("default")])]);
    assert_eq!(lb.find_provider_for_model("default"), None);
}

#[test]
fn default_model_reads_back_what_was_set() {
    let mut lb = balancer(1);
    assert_eq!(lb.get_default_model(), None);
    lb.set_default_model(Some("m".to_string()));
    assert_eq!(lb.get_default_model(), Some("m".to_string()));
    lb.set_default_model(None);
    assert_eq!(lb.get_default_model(), None);
}

#[test]
fn resolution_follows_the_default_and_keeps_other_names() {
    let mut lb = balancer(2);
    lb.record_fetch_results(vec![Some(vec![model("a")]), Some(vec![model("b")])]);
    assert_eq!(lb.resolve_model("a"), "a");
    assert_eq!(lb.resolve_model("default"), "default");
    assert_eq!(lb.resolve_model("zzz"), "zzz");
    lb.set_default_model(Some("b".to_string()));
    assert_eq!(lb.resolve_model("default"), "b");
    assert_eq!(lb.resolve_model("zzz"), "zzz");
    assert_eq!(lb.resolve_model("a"), "a");
}

#[test]
fn default_without_a_chosen_model_goes_round_robin() {
    let mut lb = balancer(3);
    lb.advance_provider_index();
    let model = lb.resolve_model("default");
    let mut f = lb.begin_failover(&model);
    assert_eq!(f.known_provider, None);
    assert_eq!(lb.next_step(&mut f), FailoverStep::Send(1));
}

#[test]
fn unknown_model_is_forwarded_under_its_own_name() {
    let mut lb = balancer(2);
    lb.record_fetch_results(vec![Some(vec![model("a")]), None]);
    lb.set_default_model(Some("a".to_string()));
    let model = lb.resolve_model("zzz");
    assert_eq!(model, "zzz");
    let mut f = lb.begin_failover(&model);
    assert_eq!(f.known_provider, None);
    assert_eq!(lb.next_step(&mut f), FailoverStep::Send(0));
}

#[test]
fn round_robin_counter_wraps_over_providers() {
    let mut lb = balancer(3);
    assert_eq!(lb.get_current_provider_index(), 0);
    lb.advance_provider_index();
    lb.advance_provider_index();
    assert_eq!(lb.get_current_provider_index(), 2);
    lb.advance_provider_index();
    assert_eq!(lb.get_current_provider_index(), 0);
}

#[test]
fn known_provider_is_tried_exactly_once() {
    let mut lb = balancer(3);
    lb.record_fetch_results(vec![None, Some(vec![model("m")]), None]);
    let mut f = lb.begin_failover("m");
    assert_eq!(f.known_provider, Some(1));
    assert_eq!(lb.next_step(&mut f), FailoverStep::Send(1));
    assert_eq!(f.attempt, 1);
    lb.record_failure(&mut f, "boom".to_string());
    assert_eq!(
        lb.next_step(&mut f),
        FailoverStep::GiveUp("All providers failed. Last error: boom".to_string())
    );
}

#[test]
fn unknown_model_is_tried_on_every_provider_in_turn() {
    let mut lb = balancer(3);
    lb.advance_provider_index();
    let mut f = lb.begin_failover("anything");
    assert_eq!(f.known_provider, None);
    let mut tried = vec![];
    loop {
        match lb.next_step(&mut f) {
            FailoverStep::Send(i) => {
                tried.push(i);
                lb.record_failure(&mut f, format!("e{}", i));
            }
            FailoverStep::GiveUp(m) => {
                assert_eq!(m, "All providers failed. Last error: e0");
                break;
            }
        }
    }
    assert_eq!(tried, vec![1, 2, 0]);
}

#[test]
fn a_failed_provider_is_followed_by_the_next() {
    let mut lb = balancer(2);
    let mut f = lb.begin_failover("x");
    assert_eq!(lb.next_step(&mut f), FailoverStep::Send(0));
    lb.record_failure(&mut f, "bad body".to_string());
    assert_eq!(lb.next_step(&mut f), FailoverStep::Send(1));
    lb.record_failure(&mut f, "bad again".to_string());
    assert_eq!(
        lb.next_step(&mut f),
        FailoverStep::GiveUp("All providers failed. Last error: bad again".to_string())
    );
}

#[test]
fn successive_requests_go_round_robin() {
    let mut lb = balancer(3);
    let mut sent = vec![];
    for _ in 0..4 {
        let mut f = lb.begin_failover("x");
        match lb.next_step(&mut f) {
            FailoverStep::Send(i) => sent.push(i),
            FailoverStep::GiveUp(m) => panic!("gave up: {}", m),
        }
        lb.record_success();
    }
    assert_eq!(sent, vec![0, 1, 2, 0]);
}

#[test]
fn no_providers_means_unknown_error() {
    let mut lb = balancer(0);
    let mut f = lb.begin_failover("x");
    assert_eq!(
        lb.next_step(&mut f),
        FailoverStep::GiveUp("All providers failed. Last error: Unknown error".to_string())
    );
}

#[test]
fn failure_messages_name_the_provider() {
    assert_eq!(
        status_failure_message(12, "404 Not Found", "nope"),
        "Provider 12 returned status 404 Not Found: nope"
    );
    assert_eq!(request_failure_message(0, "timeout"), "Request to provider 0 failed: timeout");
    assert_eq!(
        unreadable_body_message(305, "eof"),
        "Failed to read response body from provider 305: eof"
    );
    assert_eq!(unparsable_answer_message("x"), "Failed to parse provider response: x");
    assert_eq!(missing_model_message(), "Missing 'model' field in request");
}

#[test]
fn provider_body_gets_model_and_extra_parameters() {
    let mut p = provider("http://up");
    p.extra_params = vec![
        ProviderParam { name: "max_tokens".to_string(), value: Some(JsonValue::Int(65536)) },
        ProviderParam { name: "model_regex".to_string(), value: Some(JsonValue::Str(".*".to_string())) },
        ProviderParam { name: "odd".to_string(), value: None },
        ProviderParam { name: "key".to_string(), value: Some(JsonValue::Str("k".to_string())) },
    ];
    let body = JsonValue::Object(vec![
        JsonMember { key: "model".to_string(), value: JsonValue::Str("default".to_string()) },
        JsonMember { key: "messages".to_string(), value: JsonValue::Array(vec![]) },
    ]);
    let out = provider_request_body(&body, "real", &p);
    assert_eq!(
        out,
        JsonValue::Object(vec![
            JsonMember { key: "model".to_string(), value: JsonValue::Str("real".to_string()) },
            JsonMember { key: "messages".to_string(), value: JsonValue::Array(vec![]) },
            JsonMember { key: "max_tokens".to_string(), value: JsonValue::Int(65536) },
        ])
    );
    assert_eq!(chat_completions_url(&p), "http://up/chat/completions");
    assert_eq!(models_url(&p), "http://up/models");
    assert_eq!(bearer_token(&p), "Bearer key-http://up");
}
