use llm_load_balancer::balancer::LoadBalancer;
use llm_load_balancer::json::{JsonMember, JsonValue};
use llm_load_balancer::listing::{list_provider_models, model_entry_value, openai_models_list, openai_models_payload};
use llm_load_balancer::models::{Config, ModelInfo, Provider, SetDefaultRequest};
use llm_load_balancer::names::{sort_models_by_name, text_precedes};
use llm_load_balancer::pages::{
    chat_page_html, generate_chat_html, requested_default, set_default_page, settings_page_html,
    CHAT_PAGE_HEAD, CHAT_PAGE_TAIL,
};
use llm_load_balancer::text::{push_decimal, replace_slashes};

fn member(key: &str, value: JsonValue) -> JsonMember {
    JsonMember { key: key.to_string(), value }
}

fn text(s: &str) -> JsonValue {
    JsonValue::Str(s.to_string())
}

fn model(id: &str) -> ModelInfo {
    ModelInfo { id: id.to_string(), object: None, created: None, owned_by: None }
}

fn balancer() -> LoadBalancer {
    let providers = vec![
        Provider { base_url: "http://a".to_string(), key: "k".to_string(), extra_params: vec![] },
        Provider { base_url: "http://b".to_string(), key: "k".to_string(), extra_params: vec![] },
    ];
    let mut lb = LoadBalancer::new(Config { port: 1, providers }, reqwest::Client::new());
    lb.record_fetch_results(vec![
        Some(vec![model("z/model"), model("alpha")]),
        Some(vec![ModelInfo {
            id: "beta".to_string(),
            object: Some("thing".to_string()),
            created: Some(42),
            owned_by: Some("me".to_string()),
        }]),
    ]);
    lb
}

#[test]
fn model_entries_fill_in_defaults() {
    assert_eq!(
        model_entry_value(&model("x")),
        JsonValue::Object(vec![
            member("id", text("x")),
            member("object", text("model")),
            member("created", JsonValue::Null),
            member("owned_by", text("Unknown")),
        ])
    );
}

#[test]
fn provider_listing_lists_every_provider() {
    let lb = balancer();
    let listing = list_provider_models(&lb);
    assert_eq!(listing.get("total_providers"), Some(&JsonValue::UInt(2)));
    assert_eq!(listing.get("object"), Some(&text("list")));
    match listing.get("data") {
        Some(JsonValue::Array(items)) => {
            assert_eq!(items.len(), 2);
            assert_eq!(items[1].get("provider_index"), Some(&JsonValue::UInt(1)));
            assert_eq!(items[1].get("base_url"), Some(&text("http://b")));
            assert_eq!(
                items[1].get("models"),
                Some(&JsonValue::Array(vec![JsonValue::Object(vec![
                    member("id", text("beta")),
                    member("object", text("thing")),
                    member("created", JsonValue::Int(42)),
                    member("owned_by", text("me")),
                ])]))
            );
        }
        other => panic!("unexpected {:?}", other),
    }
}

fn ids(listing: &JsonValue) -> Vec<String> {
    match listing.get("data") {
        Some(JsonValue::Array(items)) => items
            .iter()
            .map(|i| match i.get("id") {
                Some(JsonValue::Str(s)) => s.clone(),
                other => panic!("unexpected {:?}", other),
            })
            .collect(),
        other => panic!("unexpected {:?}", other),
    }
}

#[test]
fn openai_listing_puts_default_first() {
    let mut lb = balancer();
    let available = vec![("alpha".to_string(), 0), ("beta".to_string(), 1), ("z/model".to_string(), 0)];
    assert_eq!(ids(&openai_models_payload(&lb, &available)), vec!["alpha", "beta", "z/model"]);
    lb.set_default_model(Some("beta".to_string()));
    assert_eq!(ids(&openai_models_payload(&lb, &available)), vec!["beta", "alpha", "z/model"]);
    let all = ids(&openai_models_list(&lb));
    assert_eq!(all[0], "beta");
    assert_eq!(all.len(), 3);
}

#[test]
fn sorting_orders_names_like_string() {
    let sorted = sort_models_by_name(vec![
        ("b".to_string(), 1),
        ("a/x".to_string(), 0),
        ("B".to_string(), 2),
        ("a".to_string(), 3),
    ]);
    assert_eq!(
        sorted,
        vec![("B".to_string(), 2), ("a".to_string(), 3), ("a/x".to_string(), 0), ("b".to_string(), 1)]
    );
    assert!(text_precedes("a", "ab"));
    assert!(!text_precedes("ab", "ab"));
    assert!(text_precedes("Z", "a"));
}

#[test]
fn chat_page_shows_the_model() {
    let html = generate_chat_html("my-model");
    assert_eq!(html, format!("{}my-model{}", CHAT_PAGE_HEAD, CHAT_PAGE_TAIL));
    assert!(html.contains("<span class=\"model-badge\" id=\"current-model\">my-model</span>"));
    let mut lb = balancer();
    assert_eq!(chat_page_html(&lb), generate_chat_html("default"));
    lb.set_default_model(Some("alpha".to_string()));
    assert_eq!(chat_page_html(&lb), generate_chat_html("alpha"));
}

#[test]
fn settings_page_lists_models_sorted_with_default_checked() {
    let mut lb = balancer();
    lb.set_default_model(Some("z/model".to_string()));
    let page = set_default_page(&lb);
    let a = page.find("value=\"alpha\"").unwrap();
    let b = page.find("value=\"beta\"").unwrap();
    let z = page.find("value=\"z/model\"").unwrap();
    assert!(a < b && b < z);
    assert!(page.contains("<input type=\"radio\" id=\"z_model\" name=\"default_model\" value=\"z/model\" checked>"));
    assert!(page.contains("<input type=\"radio\" id=\"none\" name=\"default_model\" value=\"\" >"));
    assert!(page.contains("<div class=\"provider-url\">Provider: http://b</div>"));
    let unknown = settings_page_html(&lb, &vec![("ghost".to_string(), 9)]);
    assert!(unknown.contains("Provider: Unknown"));
}

#[test]
fn empty_form_clears_the_default() {
    assert_eq!(requested_default(SetDefaultRequest { default_model: String::new() }), None);
    assert_eq!(
        requested_default(SetDefaultRequest { default_model: "m".to_string() }),
        Some("m".to_string())
    );
}

#[test]
fn text_helpers() {
    assert_eq!(replace_slashes("a/b/c"), "a_b_c");
    let mut s = String::from("n=");
    push_decimal(&mut s, 1090);
    assert_eq!(s, "n=1090");
    let mut z = String::new();
    push_decimal(&mut z, 0);
    assert_eq!(z, "0");
}
