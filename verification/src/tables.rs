//! The concurrent maps that hold the model table and the catalog.

use vstd::prelude::*;
use dashmap::DashMap;
use crate::models::{duplicate_models, ModelInfo};
use crate::names::entries_view;

verus! {

#[verifier::external_type_specification]
#[verifier::external_body]
#[verifier::reject_recursive_types(K)]
#[verifier::reject_recursive_types(V)]
#[verifier::reject_recursive_types(S)]
pub struct ExDashMap<K, V, S>(DashMap<K, V, S>);

/// What a model table holds: each model name with the provider that serves it.
pub uninterp spec fn route_entries(table: DashMap<String, usize>) -> Map<Seq<char>, usize>;

/// What a catalog holds: each provider with the models it reported.
pub uninterp spec fn catalog_entries(table: DashMap<usize, Vec<ModelInfo>>) -> Map<
    usize,
    Seq<ModelInfo>,
>;

/// `DashMap::new`: an empty model table.
#[verifier::external_body]
pub fn new_route_table() -> (t: DashMap<String, usize>)
    ensures
        route_entries(t).dom().is_empty(),
{
    DashMap::new()
}

/// `DashMap::insert`: the name now maps to the provider; an earlier entry for
/// the same name is replaced.
#[verifier::external_body]
pub fn route_insert(table: &mut DashMap<String, usize>, model: String, provider: usize)
    ensures
        route_entries(*final(table)) == route_entries(*old(table)).insert(model@, provider),
{
    table.insert(model, provider);
}

/// `DashMap::get`: the provider recorded for the name, if any.
#[verifier::external_body]
pub fn route_get(table: &DashMap<String, usize>, model: &str) -> (p: Option<usize>)
    ensures
        p == (if route_entries(*table).contains_key(model@) {
            Some(route_entries(*table)[model@])
        } else {
            None
        }),
{
    table.get(model).map(|entry| *entry.value())
}

/// The list holds every entry of the table once, in some order.
pub open spec fn lists_routes(list: Seq<(Seq<char>, usize)>, routes: Map<Seq<char>, usize>) -> bool {
    &&& forall|i: int|
        0 <= i < list.len() ==> routes.contains_key(#[trigger] list[i].0) && routes[list[i].0]
            == list[i].1
    &&& forall|i: int, j: int| 0 <= i < j < list.len() ==> list[i].0 != list[j].0
    &&& forall|m: Seq<char>|
        routes.contains_key(m) ==> exists|i: int| 0 <= i < list.len() && #[trigger] list[i].0 == m
}

/// `DashMap::iter`: every entry of the table once, in an order that the
/// table's hashing decides.
#[verifier::external_body]
pub fn route_list(table: &DashMap<String, usize>) -> (entries: Vec<(String, usize)>)
    ensures
        lists_routes(entries_view(entries@), route_entries(*table)),
{
    table.iter().map(|entry| (entry.key().clone(), *entry.value())).collect()
}

/// `DashMap::new`: an empty catalog.
#[verifier::external_body]
pub fn new_catalog() -> (t: DashMap<usize, Vec<ModelInfo>>)
    ensures
        catalog_entries(t).dom().is_empty(),
{
    DashMap::new()
}

/// `DashMap::insert`: the provider's model list is now `models`.
#[verifier::external_body]
pub fn catalog_insert(
    table: &mut DashMap<usize, Vec<ModelInfo>>,
    provider: usize,
    models: Vec<ModelInfo>,
)
    ensures
        catalog_entries(*final(table)) == catalog_entries(*old(table)).insert(provider, models@),
{
    table.insert(provider, models);
}

/// `DashMap::get`: a copy of the provider's model list, if it has one.
#[verifier::external_body]
pub fn catalog_get(table: &DashMap<usize, Vec<ModelInfo>>, provider: usize) -> (models: Option<
    Vec<ModelInfo>,
>)
    ensures
        match models {
            Some(v) => catalog_entries(*table).contains_key(provider) && v@ == catalog_entries(
                *table,
            )[provider],
            None => !catalog_entries(*table).contains_key(provider),
        },
{
    table.get(&provider).map(|entry| duplicate_models(entry.value()))
}

} // verus!
