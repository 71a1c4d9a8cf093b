//! The balancer's state: which provider serves which model, the models each
//! provider reported, the round-robin counter and the default model; how a
//! requested model is settled, and the steps of the failover loop.

use vstd::prelude::*;
use dashmap::DashMap;
use crate::models::{opt_text, Config, ModelInfo, Provider};
use crate::routing::{
    designated, next_counter, skip_to_candidate, Failover, FailoverStep,
};
use crate::tables::{
    catalog_entries, catalog_get, catalog_insert, lists_routes, new_catalog, new_route_table,
    route_entries, route_get, route_insert, route_list,
};
use crate::names::entries_view;
use crate::text::same_text;

verus! {

#[verifier::external_type_specification]
#[verifier::external_body]
pub struct ExHttpClient(reqwest::Client);

/// The routing table after the models of one provider are recorded, in order:
/// each model name maps to the provider (a later record for a name wins).
pub open spec fn routes_with(
    routes: Map<Seq<char>, usize>,
    models: Seq<ModelInfo>,
    provider: usize,
) -> Map<Seq<char>, usize>
    decreases models.len(),
{
    if models.len() == 0 {
        routes
    } else {
        routes_with(routes, models.drop_last(), provider).insert(models.last().id@, provider)
    }
}

/// The routing table after the fetch results of providers `0, 1, ...` are
/// recorded in that order; a provider that could not be asked adds nothing.
pub open spec fn routes_after(
    routes: Map<Seq<char>, usize>,
    results: Seq<Option<Vec<ModelInfo>>>,
) -> Map<Seq<char>, usize>
    decreases results.len(),
{
    if results.len() == 0 {
        routes
    } else {
        let before = routes_after(routes, results.drop_last());
        match results.last() {
            Some(models) => routes_with(before, models@, (results.len() - 1) as usize),
            None => before,
        }
    }
}

/// The catalog after the same results: every provider gets its list, an empty
/// one when it could not be asked.
pub open spec fn catalog_after(
    catalog: Map<usize, Seq<ModelInfo>>,
    results: Seq<Option<Vec<ModelInfo>>>,
) -> Map<usize, Seq<ModelInfo>>
    decreases results.len(),
{
    if results.len() == 0 {
        catalog
    } else {
        let before = catalog_after(catalog, results.drop_last());
        match results.last() {
            Some(models) => before.insert((results.len() - 1) as usize, models@),
            None => before.insert((results.len() - 1) as usize, Seq::empty()),
        }
    }
}

/// The provider that the table names for a model; the name `default` never
/// names one.
pub open spec fn route_of(routes: Map<Seq<char>, usize>, model: Seq<char>) -> Option<usize> {
    if model == "default"@ {
        None
    } else if routes.contains_key(model) {
        Some(routes[model])
    } else {
        None
    }
}

/// The model a request is served with: `default` stands for the chosen default
/// model (and stays `default` when none is chosen); any other name is kept as
/// it is. Whether a provider lists the model decides only where it is sent
/// (see `route_of`): a model that no provider lists goes round-robin.
pub open spec fn served_model(requested: Seq<char>, default_model: Option<Seq<char>>) -> Seq<char> {
    if requested == "default"@ {
        match default_model {
            Some(d) => d,
            None => requested,
        }
    } else {
        requested
    }
}

pub open spec fn step_target(step: FailoverStep) -> Option<usize> {
    match step {
        FailoverStep::Send(i) => Some(i),
        FailoverStep::GiveUp(_) => None,
    }
}

/// Routes each model of `models`, in order, to `provider`.
fn route_models(table: &mut DashMap<String, usize>, models: &Vec<ModelInfo>, provider: usize)
    ensures
        route_entries(*final(table)) == routes_with(route_entries(*old(table)), models@, provider),
{
    let mut i: usize = 0;
    while i < models.len()
        invariant
            i <= models.len(),
            route_entries(*table) == routes_with(
                route_entries(*old(table)),
                models@.subrange(0, i as int),
                provider,
            ),
        decreases models.len() - i,
    {
        let id = models[i].id.clone();
        route_insert(table, id, provider);
        assert(models@.subrange(0, i + 1).drop_last() =~= models@.subrange(0, i as int));
        i = i + 1;
    }
    assert(models@.subrange(0, i as int) =~= models@);
}

/// Recording models for a provider adds only entries that name that provider.
pub proof fn lemma_routes_with_bound(
    routes: Map<Seq<char>, usize>,
    models: Seq<ModelInfo>,
    provider: usize,
    bound: nat,
)
    requires
        forall|m: Seq<char>| #[trigger] routes.contains_key(m) ==> routes[m] < bound,
        provider < bound,
    ensures
        forall|m: Seq<char>| #[trigger] routes_with(routes, models, provider).contains_key(m)
            ==> routes_with(routes, models, provider)[m] < bound,
    decreases models.len(),
{
    if models.len() > 0 {
        let inner = routes_with(routes, models.drop_last(), provider);
        lemma_routes_with_bound(routes, models.drop_last(), provider, bound);
        assert forall|m: Seq<char>| #[trigger] routes_with(routes, models, provider).contains_key(m)
            implies routes_with(routes, models, provider)[m] < bound by {
            if m != models.last().id@ {
                assert(inner.contains_key(m));
            }
        }
    }
}

/// The balancer's state: its providers, which provider serves which model,
/// the models each provider reported, the round-robin counter and the
/// default model chosen on the settings page.
pub struct LoadBalancer {
    config: Config,
    current_provider_index: usize,
    model_to_provider: DashMap<String, usize>,
    provider_models: DashMap<usize, Vec<ModelInfo>>,
    http_client: reqwest::Client,
    default_model: Option<String>,
}

impl LoadBalancer {
    pub closed spec fn config(&self) -> Config {
        self.config
    }

    pub closed spec fn http_client(&self) -> reqwest::Client {
        self.http_client
    }

    /// Which provider serves which model.
    pub closed spec fn routes(&self) -> Map<Seq<char>, usize> {
        route_entries(self.model_to_provider)
    }

    /// The models each provider reported.
    pub closed spec fn catalog(&self) -> Map<usize, Seq<ModelInfo>> {
        catalog_entries(self.provider_models)
    }

    /// The round-robin counter.
    pub closed spec fn counter(&self) -> usize {
        self.current_provider_index
    }

    /// The default model chosen on the settings page.
    pub closed spec fn default_model(&self) -> Option<Seq<char>> {
        opt_text(self.default_model)
    }

    pub open spec fn num_providers(&self) -> nat {
        self.config().providers@.len()
    }

    /// Every provider the tables name is a configured one.
    #[verifier::type_invariant]
    spec fn names_configured_providers(self) -> bool {
        &&& forall|m: Seq<char>| #[trigger] route_entries(self.model_to_provider).contains_key(m)
            ==> route_entries(self.model_to_provider)[m] < self.config.providers@.len()
        &&& forall|p: usize| #[trigger] catalog_entries(self.provider_models).contains_key(p) ==> p
            < self.config.providers@.len()
    }

    /// A balancer over the configured providers, before any provider has been
    /// asked for its models.
    pub fn new(config: Config, http_client: reqwest::Client) -> (lb: LoadBalancer)
        ensures
            lb.config() == config,
            lb.http_client() == http_client,
            lb.routes() == Map::<Seq<char>, usize>::empty(),
            lb.catalog() == Map::<usize, Seq<ModelInfo>>::empty(),
            lb.counter() == 0,
            lb.default_model() is None,
    {
        let model_to_provider = new_route_table();
        let provider_models = new_catalog();
        assert(route_entries(model_to_provider) =~= Map::<Seq<char>, usize>::empty());
        assert(catalog_entries(provider_models) =~= Map::<usize, Seq<ModelInfo>>::empty());
        LoadBalancer {
            config,
            current_provider_index: 0,
            model_to_provider,
            provider_models,
            http_client,
            default_model: None,
        }
    }

    /// Records the answer of provider `index` to the model listing: each of its
    /// models is routed to it, and the catalog keeps its list (an empty list
    /// when the provider could not be asked).
    pub fn record_provider_models(&mut self, index: usize, models: Option<Vec<ModelInfo>>)
        requires
            index < old(self).num_providers(),
        ensures
            final(self).routes() == match models {
                Some(v) => routes_with(old(self).routes(), v@, index),
                None => old(self).routes(),
            },
            final(self).catalog() == old(self).catalog().insert(
                index,
                match models {
                    Some(v) => v@,
                    None => Seq::empty(),
                },
            ),
            final(self).config() == old(self).config(),
            final(self).http_client() == old(self).http_client(),
            final(self).counter() == old(self).counter(),
            final(self).default_model() == old(self).default_model(),
    {
        proof {
            use_type_invariant(&*self);
        }
        let ghost routes_before = self.routes();
        let ghost catalog_before = self.catalog();
        let mut table = new_route_table();
        std::mem::swap(&mut table, &mut self.model_to_provider);
        let mut catalog = new_catalog();
        std::mem::swap(&mut catalog, &mut self.provider_models);
        assert(route_entries(table) == routes_before);
        match models {
            Some(list) => {
                route_models(&mut table, &list, index);
                proof {
                    lemma_routes_with_bound(routes_before, list@, index, self.num_providers());
                }
                catalog_insert(&mut catalog, index, list);
            },
            None => {
                catalog_insert(&mut catalog, index, Vec::new());
            },
        }
        assert forall|p: usize| #[trigger] catalog_entries(catalog).contains_key(p) implies p
            < self.num_providers() by {
            if p != index {
                assert(catalog_before.contains_key(p));
            }
        }
        assert forall|m: Seq<char>| #[trigger] route_entries(table).contains_key(m) implies route_entries(
            table,
        )[m] < self.num_providers() by {
            match models {
                Some(v) => {
                    assert(routes_with(routes_before, v@, index).contains_key(m));
                },
                None => {
                    assert(routes_before.contains_key(m));
                },
            }
        }
        self.model_to_provider = table;
        self.provider_models = catalog;
    }

    /// Forgets every model the providers reported and records their new
    /// answers, the one of provider `i` at position `i`.
    pub fn refresh_models(&mut self, results: Vec<Option<Vec<ModelInfo>>>)
        requires
            results.len() == old(self).num_providers(),
        ensures
            final(self).routes() == routes_after(Map::empty(), results@),
            final(self).catalog() == catalog_after(Map::empty(), results@),
            final(self).config() == old(self).config(),
            final(self).http_client() == old(self).http_client(),
            final(self).counter() == old(self).counter(),
            final(self).default_model() == old(self).default_model(),
    {
        proof {
            use_type_invariant(&*self);
        }
        self.model_to_provider = new_route_table();
        self.provider_models = new_catalog();
        assert(self.routes() =~= Map::<Seq<char>, usize>::empty());
        assert(self.catalog() =~= Map::<usize, Seq<ModelInfo>>::empty());
        self.record_fetch_results(results);
    }

    /// Records the answers of all providers, the one of provider `i` at
    /// position `i`, in that order.
    pub fn record_fetch_results(&mut self, results: Vec<Option<Vec<ModelInfo>>>)
        requires
            results.len() == old(self).num_providers(),
        ensures
            final(self).routes() == routes_after(old(self).routes(), results@),
            final(self).catalog() == catalog_after(old(self).catalog(), results@),
            final(self).config() == old(self).config(),
            final(self).http_client() == old(self).http_client(),
            final(self).counter() == old(self).counter(),
            final(self).default_model() == old(self).default_model(),
    {
        let ghost all = results@;
        let mut rest = results;
        let mut index: usize = 0;
        let n = rest.len();
        while rest.len() > 0
            invariant
                n == all.len(),
                index + rest.len() == n,
                rest@ == all.subrange(index as int, n as int),
                self.config() == old(self).config(),
                n == self.num_providers(),
                self.http_client() == old(self).http_client(),
                self.counter() == old(self).counter(),
                self.default_model() == old(self).default_model(),
                self.routes() == routes_after(old(self).routes(), all.subrange(0, index as int)),
                self.catalog() == catalog_after(old(self).catalog(), all.subrange(0, index as int)),
            decreases rest.len(),
        {
            let next = rest.remove(0);
            assert(next == all[index as int]);
            self.record_provider_models(index, next);
            assert(all.subrange(0, index + 1).drop_last() =~= all.subrange(0, index as int));
            index = index + 1;
            assert(rest@ =~= all.subrange(index as int, n as int));
        }
        assert(all.subrange(0, n as int) =~= all);
    }

    /// The provider the round-robin counter designates.
    pub fn get_current_provider_index(&self) -> (i: usize)
        requires
            self.num_providers() > 0,
        ensures
            i == designated(self.counter(), self.num_providers()),
            i < self.num_providers(),
    {
        self.current_provider_index % self.config.providers.len()
    }

    /// Moves the round-robin counter one step (it wraps around at its maximum).
    pub fn advance_provider_index(&mut self)
        ensures
            final(self).counter() == next_counter(old(self).counter()),
            final(self).config() == old(self).config(),
            final(self).http_client() == old(self).http_client(),
            final(self).routes() == old(self).routes(),
            final(self).catalog() == old(self).catalog(),
            final(self).default_model() == old(self).default_model(),
    {
        proof {
            use_type_invariant(&*self);
        }
        if self.current_provider_index == usize::MAX {
            self.current_provider_index = 0;
        } else {
            self.current_provider_index = self.current_provider_index + 1;
        }
    }

    /// The provider that lists `model_name`; `default` is never looked up.
    pub fn find_provider_for_model(&self, model_name: &str) -> (p: Option<usize>)
        ensures
            p == route_of(self.routes(), model_name@),
            model_name@ != "default"@ && self.routes().contains_key(model_name@) ==> p == Some(
                self.routes()[model_name@],
            ),
            !self.routes().contains_key(model_name@) ==> p is None,
    {
        if same_text(model_name, "default") {
            return None;
        }
        route_get(&self.model_to_provider, model_name)
    }

    /// Every model the table knows, with its provider, each once.
    pub fn get_available_models(&self) -> (models: Vec<(String, usize)>)
        ensures
            lists_routes(entries_view(models@), self.routes()),
    {
        route_list(&self.model_to_provider)
    }

    /// The chosen default model.
    pub fn get_default_model(&self) -> (m: Option<String>)
        ensures
            opt_text(m) == self.default_model(),
    {
        match &self.default_model {
            Some(m) => Some(m.clone()),
            None => None,
        }
    }

    /// Chooses (or, with `None`, clears) the default model.
    pub fn set_default_model(&mut self, model: Option<String>)
        ensures
            final(self).default_model() == opt_text(model),
            final(self).config() == old(self).config(),
            final(self).http_client() == old(self).http_client(),
            final(self).routes() == old(self).routes(),
            final(self).catalog() == old(self).catalog(),
            final(self).counter() == old(self).counter(),
    {
        proof {
            use_type_invariant(&*self);
        }
        self.default_model = model;
    }

    pub fn get_config(&self) -> (c: &Config)
        ensures
            *c == self.config(),
    {
        &self.config
    }

    pub fn get_http_client(&self) -> (c: &reqwest::Client)
        ensures
            *c == self.http_client(),
    {
        &self.http_client
    }

    /// The provider at `index`, if there is one.
    pub fn get_provider(&self, index: usize) -> (p: Option<&Provider>)
        ensures
            match p {
                Some(provider) => index < self.num_providers() && *provider
                    == self.config().providers[index as int],
                None => index >= self.num_providers(),
            },
    {
        if index < self.config.providers.len() {
            Some(&self.config.providers[index])
        } else {
            None
        }
    }

    /// A copy of the models provider `index` reported, if it was asked.
    pub fn get_provider_models(&self, index: usize) -> (models: Option<Vec<ModelInfo>>)
        ensures
            match models {
                Some(v) => self.catalog().contains_key(index) && v@ == self.catalog()[index],
                None => !self.catalog().contains_key(index),
            },
    {
        catalog_get(&self.provider_models, index)
    }

    /// The model a request for `requested` is served with.
    pub fn resolve_model(&self, requested: &str) -> (m: String)
        ensures
            m@ == served_model(requested@, self.default_model()),
    {
        if same_text(requested, "default") {
            match self.get_default_model() {
                Some(d) => d,
                None => String::from_str(requested),
            }
        } else {
            String::from_str(requested)
        }
    }

    /// The failover loop for a request for `model`: one attempt per provider,
    /// and the provider that lists the model, if the table knows one.
    pub fn begin_failover(&self, model: &str) -> (f: Failover)
        ensures
            f.attempt == 0,
            f.num_providers == self.num_providers(),
            f.known_provider == route_of(self.routes(), model@),
            f.last_error is None,
    {
        Failover::new(self.config.providers.len(), self.find_provider_for_model(model))
    }

    /// The next step of the failover loop: providers other than the known one
    /// are skipped (each skip uses an attempt and advances the counter); the
    /// loop sends to the provider it stops at, or gives up once every attempt
    /// is used.
    pub fn next_step(&mut self, failover: &mut Failover) -> (step: FailoverStep)
        requires
            old(failover).num_providers == old(self).num_providers(),
            old(failover).attempt <= old(failover).num_providers,
        ensures
            (final(self).counter(), final(failover).attempt as nat, step_target(step))
                == skip_to_candidate(
                old(self).counter(),
                old(failover).attempt as nat,
                old(failover).num_providers as nat,
                old(failover).known_provider,
            ),
            step matches FailoverStep::Send(i) ==> i < final(self).num_providers() && (
            old(failover).known_provider matches Some(k) ==> i == k),
            step matches FailoverStep::GiveUp(m) ==> m@ == crate::routing::give_up_text(
                old(failover).last_error_text(),
            ),
            final(failover).attempt <= final(failover).num_providers,
            step is Send ==> final(failover).attempt < final(failover).num_providers,
            final(failover).num_providers == old(failover).num_providers,
            final(failover).known_provider == old(failover).known_provider,
            final(failover).last_error == old(failover).last_error,
            final(self).config() == old(self).config(),
            final(self).http_client() == old(self).http_client(),
            final(self).routes() == old(self).routes(),
            final(self).catalog() == old(self).catalog(),
            final(self).default_model() == old(self).default_model(),
    {
        let n = failover.num_providers;
        while failover.attempt < n
            invariant
                n == failover.num_providers,
                n == self.num_providers(),
                failover.attempt <= n,
                failover.num_providers == old(failover).num_providers,
                failover.known_provider == old(failover).known_provider,
                failover.last_error == old(failover).last_error,
                skip_to_candidate(self.counter(), failover.attempt as nat, n as nat, failover.known_provider)
                    == skip_to_candidate(
                    old(self).counter(),
                    old(failover).attempt as nat,
                    n as nat,
                    old(failover).known_provider,
                ),
                self.config() == old(self).config(),
                self.http_client() == old(self).http_client(),
                self.routes() == old(self).routes(),
                self.catalog() == old(self).catalog(),
                self.default_model() == old(self).default_model(),
            decreases n - failover.attempt,
        {
            let idx = self.get_current_provider_index();
            match failover.known_provider {
                Some(k) => {
                    if idx != k {
                        self.advance_provider_index();
                        failover.attempt = failover.attempt + 1;
                        continue;
                    }
                },
                None => {},
            }
            return FailoverStep::Send(idx);
        }
        FailoverStep::GiveUp(failover.give_up_message())
    }

    /// Notes a failed attempt: the failure becomes the last error, the attempt
    /// is used, and the round-robin counter moves on to the next provider.
    pub fn record_failure(&mut self, failover: &mut Failover, failure: String)
        requires
            old(failover).attempt < old(failover).num_providers,
        ensures
            final(failover).attempt == old(failover).attempt + 1,
            final(failover).last_error_text() == Some(failure@),
            final(failover).num_providers == old(failover).num_providers,
            final(failover).known_provider == old(failover).known_provider,
            final(self).counter() == next_counter(old(self).counter()),
            final(self).config() == old(self).config(),
            final(self).http_client() == old(self).http_client(),
            final(self).routes() == old(self).routes(),
            final(self).catalog() == old(self).catalog(),
            final(self).default_model() == old(self).default_model(),
    {
        failover.attempt = failover.attempt + 1;
        failover.last_error = Some(failure);
        self.advance_provider_index();
    }

    /// Notes that the request was answered: the round-robin counter moves on,
    /// so that the next request starts at the next provider.
    pub fn record_success(&mut self)
        ensures
            final(self).counter() == next_counter(old(self).counter()),
            final(self).config() == old(self).config(),
            final(self).http_client() == old(self).http_client(),
            final(self).routes() == old(self).routes(),
            final(self).catalog() == old(self).catalog(),
            final(self).default_model() == old(self).default_model(),
    {
        self.advance_provider_index();
    }
}

} // verus!

verus! {

/// Some model of the list is named `model`.
pub open spec fn lists_model(models: Seq<ModelInfo>, model: Seq<char>) -> bool {
    exists|k: int| 0 <= k < models.len() && #[trigger] models[k].id@ == model
}

/// Provider answer `answer` lists `model`.
pub open spec fn answer_lists(answer: Option<Vec<ModelInfo>>, model: Seq<char>) -> bool {
    match answer {
        Some(v) => lists_model(v@, model),
        None => false,
    }
}

proof fn lemma_routes_with_lookup(
    routes: Map<Seq<char>, usize>,
    models: Seq<ModelInfo>,
    provider: usize,
    model: Seq<char>,
)
    ensures
        routes_with(routes, models, provider).contains_key(model) <==> (routes.contains_key(model)
            || lists_model(models, model)),
        lists_model(models, model) ==> routes_with(routes, models, provider)[model] == provider,
        !lists_model(models, model) ==> routes_with(routes, models, provider)[model]
            == routes[model],
    decreases models.len(),
{
    if models.len() > 0 {
        let rest = models.drop_last();
        lemma_routes_with_lookup(routes, rest, provider, model);
        if lists_model(models, model) && models.last().id@ != model {
            let k = choose|k: int| 0 <= k < models.len() && #[trigger] models[k].id@ == model;
            assert(rest[k].id@ == model);
        }
        if lists_model(rest, model) {
            let k = choose|k: int| 0 <= k < rest.len() && #[trigger] rest[k].id@ == model;
            assert(models[k].id@ == model);
        }
        if models.last().id@ == model {
            assert(models[models.len() - 1].id@ == model);
        }
    }
}

/// The routing table that the providers' answers build.
///
/// Starting from an empty table and recording the answers of providers
/// `0, 1, ...` in that order, a model is routed exactly when some provider
/// that answered lists it, and then to the last provider that lists it.
pub proof fn law_table_routes_to_last_listing_provider(
    results: Seq<Option<Vec<ModelInfo>>>,
    model: Seq<char>,
)
    requires
        results.len() <= usize::MAX,
    ensures
        routes_after(Map::empty(), results).contains_key(model) <==> exists|i: int|
            0 <= i < results.len() && #[trigger] answer_lists(results[i], model),
        routes_after(Map::empty(), results).contains_key(model) ==> {
            let p = routes_after(Map::empty(), results)[model] as int;
            &&& 0 <= p < results.len()
            &&& answer_lists(results[p], model)
            &&& forall|j: int| p < j < results.len() ==> !#[trigger] answer_lists(results[j], model)
        },
    decreases results.len(),
{
    if results.len() > 0 {
        let rest = results.drop_last();
        let last = (results.len() - 1) as int;
        law_table_routes_to_last_listing_provider(rest, model);
        let before = routes_after(Map::empty(), rest);
        let after = routes_after(Map::empty(), results);
        assert forall|i: int| 0 <= i < rest.len() implies rest[i] == results[i] by {}
        assert(results.last() == results[last]);
        match results.last() {
            Some(v) => {
                assert(after == routes_with(before, v@, last as usize));
                lemma_routes_with_lookup(before, v@, last as usize, model);
            },
            None => {
                assert(after == before);
            },
        }
        if !answer_lists(results[last], model) {
            if exists|i: int| 0 <= i < results.len() && #[trigger] answer_lists(results[i], model) {
                let i = choose|i: int| 0 <= i < results.len() && #[trigger] answer_lists(results[i], model);
                assert(i != last);
                assert(answer_lists(rest[i], model));
            }
            if after.contains_key(model) {
                assert(after[model] == before[model]);
                let p = before[model] as int;
                assert(rest[p] == results[p]);
                assert forall|j: int| p < j < results.len() implies !#[trigger] answer_lists(
                    results[j],
                    model,
                ) by {
                    if j < last {
                        assert(rest[j] == results[j]);
                    }
                }
            }
        }
    }
}

} // verus!

verus! {

/// Exact model matching: every name the table holds, other than `default`,
/// is found with the provider the table gives it, whatever characters the
/// name holds; a name the table does not hold has no provider. A failover
/// opened for such a model therefore knows that provider.
pub proof fn law_listed_model_found_exactly(routes: Map<Seq<char>, usize>, model: Seq<char>)
    ensures
        routes.contains_key(model) && model != "default"@ ==> route_of(routes, model) == Some(
            routes[model],
        ),
        !routes.contains_key(model) ==> route_of(routes, model) is None,
        route_of(routes, model) matches Some(k) ==> routes.contains_key(model) && routes[model]
            == k,
{
}

/// A request that names a model other than `default` is served with exactly
/// that model, whether or not a provider lists it.
pub proof fn law_named_model_served_as_requested(model: Seq<char>, default_model: Option<Seq<char>>)
    requires
        model != "default"@,
    ensures
        served_model(model, default_model) == model,
{
}

/// A request for `default` is served with the chosen default model; with none
/// chosen it keeps the name `default`, which no provider is looked up for, so
/// the request goes round-robin.
pub proof fn law_default_request_uses_default_model(
    default_model: Option<Seq<char>>,
    routes: Map<Seq<char>, usize>,
)
    ensures
        served_model("default"@, default_model) == match default_model {
            Some(d) => d,
            None => "default"@,
        },
        default_model is None ==> route_of(routes, served_model("default"@, default_model)) is None,
{
}

/// A model that no provider lists is forwarded under its own name with no
/// known provider: its failover loop goes round-robin over all providers.
pub proof fn law_unknown_model_goes_round_robin(
    model: Seq<char>,
    default_model: Option<Seq<char>>,
    routes: Map<Seq<char>, usize>,
)
    requires
        model != "default"@,
        !routes.contains_key(model),
    ensures
        served_model(model, default_model) == model,
        route_of(routes, served_model(model, default_model)) is None,
{
}

/// After every provider's answer is recorded, the catalog holds each
/// provider's list as it answered it, and an empty list for a provider that
/// could not be asked.
pub proof fn law_catalog_keeps_each_answer(
    catalog: Map<usize, Seq<ModelInfo>>,
    results: Seq<Option<Vec<ModelInfo>>>,
    i: int,
)
    requires
        results.len() <= usize::MAX,
        0 <= i < results.len(),
    ensures
        catalog_after(catalog, results).contains_key(i as usize),
        catalog_after(catalog, results)[i as usize] == match results[i] {
            Some(v) => v@,
            None => Seq::empty(),
        },
    decreases results.len(),
{
    let rest = results.drop_last();
    if i < results.len() - 1 {
        law_catalog_keeps_each_answer(catalog, rest, i);
        assert(rest[i] == results[i]);
    } else {
        assert(results.last() == results[i]);
    }
}

} // verus!
