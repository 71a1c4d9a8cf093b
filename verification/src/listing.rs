//! The model listings and the small status answers of the HTTP endpoints.

use vstd::prelude::*;
use crate::balancer::{route_of, LoadBalancer};
use crate::json::{entries_of, lemma_array_view, lemma_object_view, member, JsonValue, JsonView};
use crate::models::{ModelInfo, Provider};
use crate::names::entries_view;
use crate::text::same_text;

verus! {

/// How a model is listed: `object` defaults to `model` and `owned_by` to
/// `Unknown`; a missing creation time is `null`.
pub open spec fn model_entry(m: ModelInfo) -> JsonView {
    JsonView::Object(
        seq![
            ("id"@, JsonView::Str(m.id@)),
            ("object"@, JsonView::Str(
                match m.object {
                    Some(o) => o@,
                    None => "model"@,
                },
            )),
            ("created"@, match m.created {
                Some(c) => JsonView::Int(c),
                None => JsonView::Null,
            }),
            ("owned_by"@, JsonView::Str(
                match m.owned_by {
                    Some(o) => o@,
                    None => "Unknown"@,
                },
            )),
        ],
    )
}

fn text_or(text: &Option<String>, fallback: &str) -> (r: String)
    ensures
        r@ == match *text {
            Some(t) => t@,
            None => fallback@,
        },
{
    match text {
        Some(t) => t.clone(),
        None => String::from_str(fallback),
    }
}

/// A model as the listings show it.
pub fn model_entry_value(m: &ModelInfo) -> (v: JsonValue)
    ensures
        v@ == model_entry(*m),
{
    let created = match m.created {
        Some(c) => JsonValue::Int(c),
        None => JsonValue::Null,
    };
    let mut members = Vec::new();
    members.push(member("id", JsonValue::Str(m.id.clone())));
    members.push(member("object", JsonValue::Str(text_or(&m.object, "model"))));
    members.push(member("created", created));
    members.push(member("owned_by", JsonValue::Str(text_or(&m.owned_by, "Unknown"))));
    proof {
        lemma_object_view(members);
    }
    assert(entries_of(members@) =~= match model_entry(*m) {
        JsonView::Object(e) => e,
        _ => Seq::empty(),
    });
    JsonValue::Object(members)
}

fn model_entry_values(models: &Vec<ModelInfo>) -> (r: Vec<JsonValue>)
    ensures
        r@.map_values(|x: JsonValue| x@) == models@.map_values(|m: ModelInfo| model_entry(m)),
{
    let mut r: Vec<JsonValue> = Vec::new();
    let mut i: usize = 0;
    while i < models.len()
        invariant
            i <= models.len(),
            r@.map_values(|x: JsonValue| x@) == models@.subrange(0, i as int).map_values(
                |m: ModelInfo| model_entry(m),
            ),
        decreases models.len() - i,
    {
        let ghost before = r@;
        r.push(model_entry_value(&models[i]));
        assert(r@.map_values(|x: JsonValue| x@) =~= before.map_values(|x: JsonValue| x@).push(
            model_entry(models@[i as int]),
        ));
        assert(models@.subrange(0, i + 1).map_values(|m: ModelInfo| model_entry(m))
            =~= models@.subrange(0, i as int).map_values(|m: ModelInfo| model_entry(m)).push(
            model_entry(models@[i as int]),
        ));
        i = i + 1;
    }
    assert(models@.subrange(0, i as int) =~= models@);
    r
}

/// The models a provider reported, none when it was never asked.
pub open spec fn reported_models(catalog: Map<usize, Seq<ModelInfo>>, provider: usize) -> Seq<
    ModelInfo,
> {
    if catalog.contains_key(provider) {
        catalog[provider]
    } else {
        Seq::empty()
    }
}

/// One provider in the listing of all providers.
pub open spec fn provider_entry(
    index: usize,
    provider: Provider,
    catalog: Map<usize, Seq<ModelInfo>>,
) -> JsonView {
    JsonView::Object(
        seq![
            ("provider_index"@, JsonView::UInt(index as u64)),
            ("base_url"@, JsonView::Str(provider.base_url@)),
            ("models"@, JsonView::Array(
                reported_models(catalog, index).map_values(|m: ModelInfo| model_entry(m)),
            )),
        ],
    )
}

/// The listing of every provider with its models, in configuration order.
pub open spec fn providers_listing(
    providers: Seq<Provider>,
    catalog: Map<usize, Seq<ModelInfo>>,
) -> JsonView {
    JsonView::Object(
        seq![
            ("data"@, JsonView::Array(
                Seq::new(
                    providers.len(),
                    |i: int| provider_entry(i as usize, providers[i], catalog),
                ),
            )),
            ("object"@, JsonView::Str("list"@)),
            ("total_providers"@, JsonView::UInt(providers.len() as u64)),
        ],
    )
}

/// Every provider with the models it reported.
pub fn list_provider_models(lb: &LoadBalancer) -> (v: JsonValue)
    ensures
        v@ == providers_listing(lb.config().providers@, lb.catalog()),
{
    let providers = &lb.get_config().providers;
    let mut data: Vec<JsonValue> = Vec::new();
    let mut i: usize = 0;
    while i < providers.len()
        invariant
            i <= providers.len(),
            *providers == lb.config().providers,
            data@.len() == i,
            forall|j: int|
                0 <= j < i ==> (#[trigger] data@[j])@ == provider_entry(
                    j as usize,
                    providers@[j],
                    lb.catalog(),
                ),
        decreases providers.len() - i,
    {
        let models = match lb.get_provider_models(i) {
            Some(v) => v,
            None => Vec::new(),
        };
        let entries = model_entry_values(&models);
        proof {
            lemma_array_view(entries);
        }
        let mut members = Vec::new();
        members.push(member("provider_index", JsonValue::UInt(i as u64)));
        members.push(member("base_url", JsonValue::Str(providers[i].base_url.clone())));
        members.push(member("models", JsonValue::Array(entries)));
        proof {
            lemma_object_view(members);
        }
        assert(entries_of(members@) =~= match provider_entry(i, providers@[i as int], lb.catalog()) {
            JsonView::Object(e) => e,
            _ => Seq::empty(),
        });
        data.push(JsonValue::Object(members));
        i = i + 1;
    }
    proof {
        lemma_array_view(data);
    }
    let n = providers.len();
    let mut top = Vec::new();
    top.push(member("data", JsonValue::Array(data)));
    top.push(member("object", JsonValue::Str(String::from_str("list"))));
    top.push(member("total_providers", JsonValue::UInt(n as u64)));
    proof {
        lemma_object_view(top);
    }
    assert(data@.map_values(|x: JsonValue| x@) =~= Seq::new(
        providers@.len(),
        |i: int| provider_entry(i as usize, providers@[i], lb.catalog()),
    ));
    assert(entries_of(top@) =~= match providers_listing(lb.config().providers@, lb.catalog()) {
        JsonView::Object(e) => e,
        _ => Seq::empty(),
    });
    JsonValue::Object(top)
}

} // verus!

verus! {

/// The first model of the list with this id, as `Iterator::find` gives it.
pub open spec fn first_with_id(models: Seq<ModelInfo>, id: Seq<char>) -> Option<ModelInfo>
    decreases models.len(),
{
    if models.len() == 0 {
        None
    } else if models[0].id@ == id {
        Some(models[0])
    } else {
        first_with_id(models.drop_first(), id)
    }
}

/// The listing entry for model `id` of `provider`: its first model with that id,
/// if the provider reported one.
pub open spec fn provider_model_entry(
    catalog: Map<usize, Seq<ModelInfo>>,
    provider: usize,
    id: Seq<char>,
) -> Seq<JsonView> {
    if catalog.contains_key(provider) {
        match first_with_id(catalog[provider], id) {
            Some(m) => seq![model_entry(m)],
            None => Seq::empty(),
        }
    } else {
        Seq::empty()
    }
}

/// The entry of the default model, which the listing puts first.
pub open spec fn default_entries(
    default_model: Option<Seq<char>>,
    routes: Map<Seq<char>, usize>,
    catalog: Map<usize, Seq<ModelInfo>>,
) -> Seq<JsonView> {
    match default_model {
        Some(d) => match route_of(routes, d) {
            Some(p) => provider_model_entry(catalog, p, d),
            None => Seq::empty(),
        },
        None => Seq::empty(),
    }
}

/// The entries of the other available models, in the order given.
pub open spec fn other_entries(
    available: Seq<(Seq<char>, usize)>,
    default_model: Option<Seq<char>>,
    catalog: Map<usize, Seq<ModelInfo>>,
) -> Seq<JsonView>
    decreases available.len(),
{
    if available.len() == 0 {
        Seq::empty()
    } else {
        let before = other_entries(available.drop_last(), default_model, catalog);
        let (name, provider) = available.last();
        if default_model == Some(name) {
            before
        } else {
            before + provider_model_entry(catalog, provider, name)
        }
    }
}

/// The OpenAI model listing: the default model first, then every other
/// available model.
pub open spec fn openai_models_listing(
    available: Seq<(Seq<char>, usize)>,
    default_model: Option<Seq<char>>,
    routes: Map<Seq<char>, usize>,
    catalog: Map<usize, Seq<ModelInfo>>,
) -> JsonView {
    JsonView::Object(
        seq![
            ("object"@, JsonView::Str("list"@)),
            ("data"@, JsonView::Array(
                default_entries(default_model, routes, catalog) + other_entries(
                    available,
                    default_model,
                    catalog,
                ),
            )),
        ],
    )
}

/// The listing entry for model `id` among the models of `provider`.
fn provider_model_entry_values(lb: &LoadBalancer, provider: usize, id: &str) -> (r: Vec<JsonValue>)
    ensures
        r@.map_values(|x: JsonValue| x@) == provider_model_entry(lb.catalog(), provider, id@),
{
    let mut r: Vec<JsonValue> = Vec::new();
    match lb.get_provider_models(provider) {
        Some(models) => {
            let mut i: usize = 0;
            assert(models@.skip(0) =~= models@);
            while i < models.len()
                invariant
                    i <= models.len(),
                    r@.len() == 0,
                    lb.catalog().contains_key(provider),
                    models@ == lb.catalog()[provider],
                    first_with_id(models@, id@) == first_with_id(models@.skip(i as int), id@),
                decreases models.len() - i,
            {
                assert(models@.skip(i as int)[0] == models@[i as int]);
                if same_text(models[i].id.as_str(), id) {
                    r.push(model_entry_value(&models[i]));
                    assert(r@.map_values(|x: JsonValue| x@) =~= seq![model_entry(models@[i as int])]);
                    return r;
                }
                assert(models@.skip(i as int).drop_first() =~= models@.skip(i + 1));
                i = i + 1;
            }
            assert(r@.map_values(|x: JsonValue| x@) =~= Seq::<JsonView>::empty());
        },
        None => {
            assert(r@.map_values(|x: JsonValue| x@) =~= Seq::<JsonView>::empty());
        },
    }
    r
}

fn append_values(out: &mut Vec<JsonValue>, more: Vec<JsonValue>)
    ensures
        final(out)@.map_values(|x: JsonValue| x@) == old(out)@.map_values(|x: JsonValue| x@)
            + more@.map_values(|x: JsonValue| x@),
{
    let mut more = more;
    let ghost start = out@;
    let ghost added = more@;
    out.append(&mut more);
    assert(out@.map_values(|x: JsonValue| x@) =~= start.map_values(|x: JsonValue| x@)
        + added.map_values(|x: JsonValue| x@));
}

/// The OpenAI model listing for the available models in the order given.
pub fn openai_models_payload(lb: &LoadBalancer, available: &Vec<(String, usize)>) -> (v: JsonValue)
    ensures
        v@ == openai_models_listing(
            entries_view(available@),
            lb.default_model(),
            lb.routes(),
            lb.catalog(),
        ),
{
    let default_model = lb.get_default_model();
    let mut data: Vec<JsonValue> = Vec::new();
    match &default_model {
        Some(d) => match lb.find_provider_for_model(d.as_str()) {
            Some(p) => {
                let first = provider_model_entry_values(lb, p, d.as_str());
                append_values(&mut data, first);
            },
            None => {},
        },
        None => {},
    }
    assert(data@.map_values(|x: JsonValue| x@) =~= default_entries(
        lb.default_model(),
        lb.routes(),
        lb.catalog(),
    ));
    let ghost start = data@.map_values(|x: JsonValue| x@);
    let ghost avail = entries_view(available@);
    let mut i: usize = 0;
    while i < available.len()
        invariant
            i <= available.len(),
            avail == entries_view(available@),
            crate::models::opt_text(default_model) == lb.default_model(),
            data@.map_values(|x: JsonValue| x@) == start + other_entries(
                avail.subrange(0, i as int),
                lb.default_model(),
                lb.catalog(),
            ),
        decreases available.len() - i,
    {
        assert(avail.subrange(0, i + 1).drop_last() =~= avail.subrange(0, i as int));
        assert(avail[i as int] == (available@[i as int].0@, available@[i as int].1));
        let name = available[i].0.as_str();
        let is_default = match &default_model {
            Some(d) => same_text(name, d.as_str()),
            None => false,
        };
        if !is_default {
            let more = provider_model_entry_values(lb, available[i].1, name);
            let ghost before = data@.map_values(|x: JsonValue| x@);
            append_values(&mut data, more);
            assert(data@.map_values(|x: JsonValue| x@) =~= start + other_entries(
                avail.subrange(0, i + 1),
                lb.default_model(),
                lb.catalog(),
            ));
        }
        i = i + 1;
    }
    assert(avail.subrange(0, i as int) =~= avail);
    proof {
        lemma_array_view(data);
    }
    let mut top = Vec::new();
    top.push(member("object", JsonValue::Str(String::from_str("list"))));
    top.push(member("data", JsonValue::Array(data)));
    proof {
        lemma_object_view(top);
    }
    assert(entries_of(top@) =~= match openai_models_listing(
        avail,
        lb.default_model(),
        lb.routes(),
        lb.catalog(),
    ) {
        JsonView::Object(e) => e,
        _ => Seq::empty(),
    });
    JsonValue::Object(top)
}

/// The OpenAI model listing: the default model first, then every other model
/// the table knows, in the order the table hands them out.
pub fn openai_models_list(lb: &LoadBalancer) -> (v: JsonValue)
    ensures
        exists|available: Seq<(Seq<char>, usize)>|
            #[trigger] crate::tables::lists_routes(available, lb.routes()) && v@
                == openai_models_listing(available, lb.default_model(), lb.routes(), lb.catalog()),
{
    let available = lb.get_available_models();
    let v = openai_models_payload(lb, &available);
    v
}

} // verus!

verus! {

/// The models list of a provider's `/models` answer: its `data` member, an
/// empty list when there is none.
pub open spec fn listing_data(answer: JsonView) -> JsonView {
    match answer.field("data"@) {
        Some(d) => d,
        None => JsonView::Array(Seq::empty()),
    }
}

/// The `data` member of a provider's `/models` answer, or an empty list.
pub fn models_data(answer: &JsonValue) -> (d: JsonValue)
    requires
        answer@ is Object ==> answer@.is_object(),
    ensures
        d@ == listing_data(answer@),
{
    match answer.get("data") {
        Some(d) => d.duplicate(),
        None => {
            let empty: Vec<JsonValue> = Vec::new();
            proof {
                lemma_array_view(empty);
            }
            assert(empty@.map_values(|x: JsonValue| x@) =~= Seq::<JsonView>::empty());
            JsonValue::Array(empty)
        },
    }
}

/// `{"status": "healthy", "service": "LLM Load Balancer"}`
pub open spec fn health_report() -> JsonView {
    JsonView::Object(
        seq![
            ("status"@, JsonView::Str("healthy"@)),
            ("service"@, JsonView::Str("LLM Load Balancer"@)),
        ],
    )
}

/// The answer of the health check.
pub fn health_status() -> (v: JsonValue)
    ensures
        v@ == health_report(),
{
    let mut members = Vec::new();
    members.push(member("status", JsonValue::Str(String::from_str("healthy"))));
    members.push(member("service", JsonValue::Str(String::from_str("LLM Load Balancer"))));
    proof {
        lemma_object_view(members);
    }
    assert(entries_of(members@) =~= match health_report() {
        JsonView::Object(e) => e,
        _ => Seq::empty(),
    });
    JsonValue::Object(members)
}

} // verus!

verus! {

/// `{"success": true, "message": "Models refreshed successfully"}`
pub open spec fn refresh_report() -> JsonView {
    JsonView::Object(
        seq![
            ("success"@, JsonView::Bool(true)),
            ("message"@, JsonView::Str("Models refreshed successfully"@)),
        ],
    )
}

/// The answer after the providers were asked for their models again.
pub fn refresh_status() -> (v: JsonValue)
    ensures
        v@ == refresh_report(),
{
    let mut members = Vec::new();
    members.push(member("success", JsonValue::Bool(true)));
    members.push(member("message", JsonValue::Str(String::from_str("Models refreshed successfully"))));
    proof {
        lemma_object_view(members);
    }
    assert(entries_of(members@) =~= match refresh_report() {
        JsonView::Object(e) => e,
        _ => Seq::empty(),
    });
    JsonValue::Object(members)
}

} // verus!

verus! {

/// When the chosen default model is listed by the provider that serves it,
/// the OpenAI model listing begins with that model.
pub proof fn law_default_model_listed_first(
    available: Seq<(Seq<char>, usize)>,
    default_model: Seq<char>,
    routes: Map<Seq<char>, usize>,
    catalog: Map<usize, Seq<ModelInfo>>,
    provider: usize,
)
    requires
        route_of(routes, default_model) == Some(provider),
        catalog.contains_key(provider),
        first_with_id(catalog[provider], default_model) is Some,
    ensures
        ({
            let data = default_entries(Some(default_model), routes, catalog) + other_entries(
                available,
                Some(default_model),
                catalog,
            );
            &&& data.len() > 0
            &&& data[0] == model_entry(first_with_id(catalog[provider], default_model)->0)
        }),
{
}

} // verus!
