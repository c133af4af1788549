//! What the catalogs say of one concrete route: a provider at one endpoint.

use vstd::prelude::*;
use crate::api_provider::{api_kind, catalog_id, catalog_provider_id, ApiProvider};
use crate::lake::{
    bundled_catalog_offering_for_model, catalog_offering_for_model_identity, copied_names,
    identity_offering, identity_rows, lists_provider, lookup_reads_the_merge, merge_memoized,
    optional_row, overlay_view, CloudOverlay, ModelNames, ProviderLake,
};
use crate::lists::lemma_filter_ends;
use crate::live::{LiveSnapshotPartitions, LiveView};
use crate::merge::{complete_row, completed_rows, models_dev_rows};
use crate::model_list::{
    catalog_models, catalog_models_from_offerings, push_unique_rows, wire_ids, with_models,
};
use crate::offering::{
    put_rows, rows_for_provider, rows_of, with_rows, CatalogOffering, CatalogSource,
    OfferingView,
};
use crate::pair_map::{values_in_order, PairKey, PairMap};
use crate::runtime::{
    cloud_facts_apply_to_route, cloud_unlisted_offerings_for_route, from_endpoint,
    row_matches_endpoint_fingerprint, signed_facts_apply, unlisted_catalog, RouteEndpoint,
};
use crate::signed::{layer_view, SignedLayer, SignedView};
use crate::text::{list_has, same_text, texts};

verus! {

/// A provider listing that was cached for a route. A listing that was never
/// fetched has time zero.
#[derive(Debug)]
pub struct CachedRoster {
    pub fetched_at: u64,
    pub offerings: Vec<CatalogOffering>,
}

/// The rows of a cached listing that was fetched.
pub open spec fn fetched_rows(cached: Option<&CachedRoster>) -> Option<Seq<OfferingView>> {
    match cached {
        Some(roster) => if roster.fetched_at > 0 {
            Some(rows_of(roster.offerings@))
        } else {
            None
        },
        None => None,
    }
}

/// The catalog rows of a provider below the signed layer: bundled rows,
/// overridden by Models.dev rows. A live roster that was published for another
/// endpoint is not borrowed.
pub open spec fn route_source(
    live: LiveView,
    bundled: Seq<OfferingView>,
    provider: ApiProvider,
) -> Map<PairKey, OfferingView> {
    let name = catalog_id(provider);
    with_rows(
        with_rows(Map::empty(), rows_for_provider(bundled, name)),
        rows_for_provider(models_dev_rows(live), name),
    )
}

/// The catalog rows of a route without a listing of its own.
pub open spec fn route_rows_without_roster(
    live: LiveView,
    bundled: Seq<OfferingView>,
    provider: ApiProvider,
    in_signed_scope: bool,
    signed: Option<SignedView>,
) -> Seq<OfferingView> {
    match signed {
        Some(layer) => if signed_facts_apply(provider, in_signed_scope) {
            values_in_order(with_rows(Map::empty(), layer.patched))
        } else {
            values_in_order(route_source(live, bundled, provider))
        },
        None => values_in_order(route_source(live, bundled, provider)),
    }
}

/// The models of a route with a listing of its own: what it lists, in its own
/// order, then the attested ids that it does not.
pub open spec fn roster_models(
    roster: Seq<OfferingView>,
    unlisted: Map<PairKey, OfferingView>,
) -> Seq<Seq<char>> {
    with_models(
        with_models(Seq::empty(), wire_ids(roster)),
        wire_ids(values_in_order(unlisted)),
    )
}

/// The models of a concrete route.
pub open spec fn route_models(
    live: LiveView,
    bundled: Seq<OfferingView>,
    provider: ApiProvider,
    in_signed_scope: bool,
    keeps_custom_model: bool,
    roster: Option<Seq<OfferingView>>,
    signed: Option<SignedView>,
    codex: Seq<Seq<char>>,
    completion: Seq<Seq<char>>,
) -> Seq<Seq<char>> {
    if provider == ApiProvider::OpenaiCodex {
        codex
    } else {
        match roster {
            Some(rows) => roster_models(
                rows,
                unlisted_catalog(provider, in_signed_scope, signed),
            ),
            None => if provider == ApiProvider::Custom || api_kind(provider) is None
                || keeps_custom_model {
                Seq::empty()
            } else {
                let models = catalog_models(
                    route_rows_without_roster(live, bundled, provider, in_signed_scope, signed),
                );
                if models.len() == 0 && signed is None {
                    completion
                } else {
                    models
                }
            },
        }
    }
}

fn route_source_map(lake: &ProviderLake, provider: ApiProvider) -> (r: PairMap<CatalogOffering>)
    requires
        lake.wf(),
    ensures
        r.wf(),
        r@ == route_source(lake.live(), lake.bundled(), provider),
{
    let name: &str = catalog_provider_id(provider);
    let mut map: PairMap<CatalogOffering> = PairMap::new();
    let bundled: Vec<CatalogOffering> = lake.bundled_snapshot().offerings_for_provider(name);
    put_rows(&mut map, &bundled);
    let live: &LiveSnapshotPartitions = lake.live_partitions();
    match live.models_dev() {
        Some(snapshot) => {
            let rows: Vec<CatalogOffering> = snapshot.offerings_for_provider(name);
            put_rows(&mut map, &rows);
        },
        None => {
            proof {
                lemma_filter_ends(
                    Seq::<OfferingView>::empty(),
                    |row: OfferingView| row.provider == name@,
                );
                assert(Seq::<OfferingView>::empty().take(0) =~= Seq::empty());
            }
        },
    }
    map
}

/// The catalog rows of a provider below the signed layer, in key order: what the
/// signed layer is applied to.
#[must_use]
pub fn route_source_rows(lake: &ProviderLake, provider: ApiProvider) -> (r: Vec<CatalogOffering>)
    requires
        lake.wf(),
    ensures
        rows_of(r@) == values_in_order(route_source(lake.live(), lake.bundled(), provider)),
{
    route_source_map(lake, provider).into_values()
}

/// Endpoint-scoped models for pickers and inventory.
///
/// A cached provider listing is authoritative for the ids it lists and for its
/// own omissions; the only id appended after it is one that the signed layer
/// explicitly attests as unlisted. `signed` carries what the signed layer
/// answers for this route: the rows of [`route_source_rows`] with its patches
/// applied, and the rows that it makes of an empty catalog.
#[must_use]
pub fn catalog_models_for_route(
    lake: &ProviderLake,
    provider: ApiProvider,
    endpoint: &RouteEndpoint,
    cached: Option<&CachedRoster>,
    signed: Option<&SignedLayer>,
    names: &ModelNames,
) -> (r: Vec<String>)
    requires
        lake.wf(),
    ensures
        texts(r@) == route_models(
            lake.live(),
            lake.bundled(),
            provider,
            endpoint.in_signed_scope,
            endpoint.keeps_custom_model,
            fetched_rows(cached),
            layer_view(signed),
            texts(names.codex@),
            texts(names.completion@),
        ),
{
    if provider == ApiProvider::OpenaiCodex {
        return copied_names(&names.codex);
    }
    let mut models: Vec<String> = Vec::new();
    assert(texts(models@) =~= Seq::<Seq<char>>::empty());
    if let Some(roster) = cached {
        if roster.fetched_at > 0 {
            push_unique_rows(&mut models, &roster.offerings);
            let unlisted: Vec<CatalogOffering> = cloud_unlisted_offerings_for_route(
                provider,
                endpoint,
                signed,
            );
            push_unique_rows(&mut models, &unlisted);
            return models;
        }
    }
    if provider == ApiProvider::Custom || provider.kind().is_none() || endpoint.keeps_custom_model {
        return models;
    }
    let mut map: PairMap<CatalogOffering> = route_source_map(lake, provider);
    if let Some(layer) = signed {
        if cloud_facts_apply_to_route(provider, endpoint) {
            map = PairMap::new();
            put_rows(&mut map, &layer.patched);
        }
    }
    let rows: Vec<CatalogOffering> = map.into_values();
    let found: Vec<String> = catalog_models_from_offerings(&rows);
    assert(texts(found@).len() == found@.len());
    if found.len() == 0 && signed.is_none() {
        copied_names(&names.completion)
    } else {
        found
    }
}

/// The position of the first row with a wire model id.
pub open spec fn row_position(rows: Seq<OfferingView>, model: Seq<char>, from: int) -> Option<int>
    decreases rows.len() - from,
{
    if from < 0 || from >= rows.len() {
        None
    } else if rows[from].wire_model_id == model {
        Some(from)
    } else {
        row_position(rows, model, from + 1)
    }
}

/// The first row with a wire model id.
pub open spec fn exact_row(rows: Seq<OfferingView>, model: Seq<char>) -> Option<OfferingView> {
    match row_position(rows, model, 0) {
        Some(i) => Some(rows[i]),
        None => None,
    }
}

fn find_exact(rows: &Vec<CatalogOffering>, model: &str) -> (r: Option<usize>)
    ensures
        match r {
            Some(i) => i < rows.len() && row_position(rows_of(rows@), model@, 0) == Some(i as int),
            None => row_position(rows_of(rows@), model@, 0) is None,
        },
{
    let mut i: usize = 0;
    while i < rows.len()
        invariant
            i <= rows.len(),
            row_position(rows_of(rows@), model@, 0) == row_position(
                rows_of(rows@),
                model@,
                i as int,
            ),
        decreases rows.len() - i,
    {
        assert(rows_of(rows@)[i as int] == rows@[i as int]@);
        if same_text(rows[i].wire_model_id.as_str(), model) {
            return Some(i);
        }
        i += 1;
    }
    None
}

/// What a route with a listing of its own says of a model: the listed row,
/// completed where a signed layer describes the route, or else the attested row
/// that the listing omits.
pub open spec fn roster_offering(
    provider: ApiProvider,
    in_signed_scope: bool,
    roster: Seq<OfferingView>,
    signed: Option<SignedView>,
    model: Seq<char>,
) -> Option<OfferingView> {
    match row_position(roster, model, 0) {
        Some(i) => match signed {
            Some(layer) => if signed_facts_apply(provider, in_signed_scope) {
                Some(completed_rows(roster, layer.completed)[i])
            } else {
                Some(roster[i])
            },
            None => Some(roster[i]),
        },
        None => exact_row(
            values_in_order(unlisted_catalog(provider, in_signed_scope, signed)),
            model,
        ),
    }
}

/// What the merged view says of a model on a route: nothing of another
/// endpoint's listing, and the bundled row in place of a signed row that does
/// not describe the route.
pub open spec fn merged_route_offering(
    found: Option<OfferingView>,
    bundled: Option<OfferingView>,
    applies: bool,
    fingerprint: Seq<char>,
) -> Option<OfferingView> {
    match found {
        Some(row) => if row.source is CloudFacts && !applies {
            bundled
        } else if row.source is Live && !from_endpoint(row, fingerprint) {
            None
        } else {
            Some(row)
        },
        None => None,
    }
}

/// The catalog row of a model on a concrete route.
pub open spec fn route_offering(
    live: LiveView,
    bundled: Seq<OfferingView>,
    merged: Seq<OfferingView>,
    provider: ApiProvider,
    identity: Seq<char>,
    endpoint: &RouteEndpoint,
    roster: Option<Seq<OfferingView>>,
    signed: Option<SignedView>,
    model: Seq<char>,
) -> Option<OfferingView> {
    match roster {
        Some(rows) => roster_offering(provider, endpoint.in_signed_scope, rows, signed, model),
        None => if api_kind(provider) is None || endpoint.keeps_custom_model {
            None
        } else {
            merged_route_offering(
                identity_offering(
                    identity_rows(live, merged, provider, Some(identity)),
                    provider,
                    model,
                ),
                identity_offering(
                    rows_for_provider(bundled, catalog_id(provider)),
                    provider,
                    model,
                ),
                signed_facts_apply(provider, endpoint.in_signed_scope),
                endpoint.fingerprint@,
            )
        },
    }
}

/// Whether looking up a model on a concrete route reads the merged view: only
/// where neither a listing of its own nor the route itself decides.
pub open spec fn route_reads_the_merge(
    provider: ApiProvider,
    endpoint: &RouteEndpoint,
    roster: Option<Seq<OfferingView>>,
    model: Seq<char>,
) -> bool {
    roster is None && api_kind(provider) is Some && !endpoint.keeps_custom_model
        && lookup_reads_the_merge(provider, model)
}

/// Metadata from the exact route, without borrowing another endpoint's live
/// facts.
///
/// `overlay` is the cloud overlay of the merged view. `signed` carries what the
/// signed layer answers for this route: the cached listing with its
/// completions, and the rows that it makes of an empty catalog.
#[must_use]
pub fn catalog_offering_for_route(
    lake: &mut ProviderLake,
    overlay: &CloudOverlay,
    provider: ApiProvider,
    identity: &str,
    endpoint: &RouteEndpoint,
    cached: Option<&CachedRoster>,
    signed: Option<&SignedLayer>,
    model: &str,
) -> (r: Option<CatalogOffering>)
    requires
        old(lake).wf(),
    ensures
        if route_reads_the_merge(provider, endpoint, fetched_rows(cached), model@) {
            merge_memoized(*old(lake), *final(lake), overlay)
        } else {
            *final(lake) == *old(lake)
        },
        optional_row(r) == route_offering(
            old(lake).live(),
            old(lake).bundled(),
            old(lake).merged_view(overlay.generation, overlay_view(overlay)),
            provider,
            identity@,
            endpoint,
            fetched_rows(cached),
            layer_view(signed),
            model@,
        ),
{
    if let Some(roster) = cached {
        if roster.fetched_at > 0 {
            if let Some(i) = find_exact(&roster.offerings, model) {
                // A row that states only its id does not say that its limits and
                // capabilities are unknown: the signed layer completes it, and
                // anything the provider did state stays.
                if let Some(layer) = signed {
                    if cloud_facts_apply_to_route(provider, endpoint) {
                        assert(rows_of(roster.offerings@)[i as int]
                            == roster.offerings@[i as int]@);
                        return Some(complete_row(&roster.offerings[i], &layer.completed, i));
                    }
                }
                return Some(roster.offerings[i].clone());
            }
            // The listing answered and does not list this id. Falling through
            // would hand back facts for a model that it has retired.
            let unlisted: Vec<CatalogOffering> = cloud_unlisted_offerings_for_route(
                provider,
                endpoint,
                signed,
            );
            return match find_exact(&unlisted, model) {
                Some(i) => Some(unlisted[i].clone()),
                None => None,
            };
        }
    }
    if provider.kind().is_none() || endpoint.keeps_custom_model {
        return None;
    }
    let offering: CatalogOffering = match catalog_offering_for_model_identity(
        lake,
        overlay,
        provider,
        Some(identity),
        model,
    ) {
        Some(row) => row,
        None => {
            return None;
        },
    };
    let from_signed_layer: bool = match &offering.source {
        CatalogSource::CloudFacts { fetched_at: _ } => true,
        _ => false,
    };
    if from_signed_layer && !cloud_facts_apply_to_route(provider, endpoint) {
        return bundled_catalog_offering_for_model(lake, provider, model);
    }
    let from_listing: bool = match &offering.source {
        CatalogSource::Live { base_url_fingerprint: _, fetched_at: _ } => true,
        _ => false,
    };
    if from_listing && !row_matches_endpoint_fingerprint(
        &offering,
        endpoint.fingerprint.as_str(),
    ) {
        return None;
    }
    Some(offering)
}

/// One model that the configuration declares.
#[derive(Debug)]
pub struct ConfiguredModel {
    pub id: String,
    /// Whether the declaration is for the route in question.
    pub matches_route: bool,
    /// The declaration as a catalog row.
    pub offering: CatalogOffering,
}

/// The models that the configuration declares.
#[derive(Debug)]
pub struct ConfiguredModels {
    /// Whether the declarations passed validation.
    pub valid: bool,
    pub models: Vec<ConfiguredModel>,
}

/// The position of the first declaration of a model for the route.
pub open spec fn declared_position(
    models: Seq<ConfiguredModel>,
    model: Seq<char>,
    from: int,
) -> Option<int>
    decreases models.len() - from,
{
    if from < 0 || from >= models.len() {
        None
    } else if models[from].id@ == model && models[from].matches_route {
        Some(from)
    } else {
        declared_position(models, model, from + 1)
    }
}

/// The declaration that a route has for a model. Account-owned rosters keep
/// their separate authority, and declarations that failed validation declare
/// nothing.
pub open spec fn declared_for_route(
    configured: Option<&ConfiguredModels>,
    provider: ApiProvider,
    model: Seq<char>,
) -> Option<ConfiguredModel> {
    match configured {
        Some(c) => if provider != ApiProvider::OpenaiCodex && c.valid {
            match declared_position(c.models@, model, 0) {
                Some(i) => Some(c.models@[i]),
                None => None,
            }
        } else {
            None
        },
        None => None,
    }
}

/// The declaration that the configuration has for a model on this route.
#[must_use]
pub fn configured_model_for_route<'a>(
    configured: Option<&'a ConfiguredModels>,
    provider: ApiProvider,
    model: &str,
) -> (r: Option<&'a ConfiguredModel>)
    ensures
        match r {
            Some(m) => declared_for_route(configured, provider, model@) == Some(*m),
            None => declared_for_route(configured, provider, model@) is None,
        },
{
    if provider == ApiProvider::OpenaiCodex {
        return None;
    }
    let c: &ConfiguredModels = match configured {
        Some(c) => c,
        None => {
            return None;
        },
    };
    if !c.valid {
        return None;
    }
    let mut i: usize = 0;
    while i < c.models.len()
        invariant
            i <= c.models.len(),
            configured == Some(c),
            c.valid,
            provider != ApiProvider::OpenaiCodex,
            declared_position(c.models@, model@, 0) == declared_position(
                c.models@,
                model@,
                i as int,
            ),
        decreases c.models.len() - i,
    {
        if same_text(c.models[i].id.as_str(), model) && c.models[i].matches_route {
            return Some(&c.models[i]);
        }
        i += 1;
    }
    None
}

/// What is declared for a model, or what the catalog has of it.
pub open spec fn declared_or_found(
    declared: Option<ConfiguredModel>,
    found: Option<OfferingView>,
) -> Option<OfferingView> {
    match declared {
        Some(model) => Some(model.offering@),
        None => found,
    }
}

/// Config declarations take precedence, and only for the exact selected route.
#[must_use]
pub fn configured_catalog_offering_for_route(
    lake: &mut ProviderLake,
    overlay: &CloudOverlay,
    configured: Option<&ConfiguredModels>,
    provider: ApiProvider,
    identity: &str,
    endpoint: &RouteEndpoint,
    cached: Option<&CachedRoster>,
    signed: Option<&SignedLayer>,
    model: &str,
) -> (r: Option<CatalogOffering>)
    requires
        old(lake).wf(),
    ensures
        if declared_for_route(configured, provider, model@) is None && route_reads_the_merge(
            provider,
            endpoint,
            fetched_rows(cached),
            model@,
        ) {
            merge_memoized(*old(lake), *final(lake), overlay)
        } else {
            *final(lake) == *old(lake)
        },
        optional_row(r) == declared_or_found(
            declared_for_route(configured, provider, model@),
            route_offering(
                old(lake).live(),
                old(lake).bundled(),
                old(lake).merged_view(overlay.generation, overlay_view(overlay)),
                provider,
                identity@,
                endpoint,
                fetched_rows(cached),
                layer_view(signed),
                model@,
            ),
        ),
{
    match configured_model_for_route(configured, provider, model) {
        Some(declared) => Some(declared.offering.clone()),
        None => catalog_offering_for_route(
            lake,
            overlay,
            provider,
            identity,
            endpoint,
            cached,
            signed,
            model,
        ),
    }
}

/// `ids` with every id declared for the route that it does not hold yet.
pub open spec fn with_declared(ids: Seq<Seq<char>>, models: Seq<ConfiguredModel>) -> Seq<Seq<char>>
    decreases models.len(),
{
    if models.len() == 0 {
        ids
    } else {
        let init = with_declared(ids, models.drop_last());
        let m = models.last();
        if m.matches_route && !init.contains(m.id@) {
            init.push(m.id@)
        } else {
            init
        }
    }
}

/// The models of a route with those that the configuration declares for it.
pub open spec fn with_configured(
    ids: Seq<Seq<char>>,
    configured: Option<&ConfiguredModels>,
    provider: ApiProvider,
) -> Seq<Seq<char>> {
    match configured {
        Some(c) => if provider != ApiProvider::OpenaiCodex && c.valid {
            with_declared(ids, c.models@)
        } else {
            ids
        },
        None => ids,
    }
}

/// The models of a route, with those that the configuration declares for it.
#[must_use]
pub fn configured_catalog_models_for_route(
    lake: &ProviderLake,
    configured: Option<&ConfiguredModels>,
    provider: ApiProvider,
    endpoint: &RouteEndpoint,
    cached: Option<&CachedRoster>,
    signed: Option<&SignedLayer>,
    names: &ModelNames,
) -> (r: Vec<String>)
    requires
        lake.wf(),
    ensures
        texts(r@) == with_configured(
            route_models(
                lake.live(),
                lake.bundled(),
                provider,
                endpoint.in_signed_scope,
                endpoint.keeps_custom_model,
                fetched_rows(cached),
                layer_view(signed),
                texts(names.codex@),
                texts(names.completion@),
            ),
            configured,
            provider,
        ),
{
    let mut ids: Vec<String> = catalog_models_for_route(
        lake,
        provider,
        endpoint,
        cached,
        signed,
        names,
    );
    if provider != ApiProvider::OpenaiCodex {
        if let Some(c) = configured {
            if c.valid {
                let ghost start = texts(ids@);
                let mut i: usize = 0;
                assert(c.models@.take(0) =~= Seq::<ConfiguredModel>::empty());
                while i < c.models.len()
                    invariant
                        i <= c.models.len(),
                        texts(ids@) == with_declared(start, c.models@.take(i as int)),
                    decreases c.models.len() - i,
                {
                    proof {
                        assert(c.models@.take(i + 1).drop_last() =~= c.models@.take(i as int));
                        assert(c.models@.take(i + 1).last() == c.models@[i as int]);
                    }
                    let m: &ConfiguredModel = &c.models[i];
                    if m.matches_route && !list_has(&ids, m.id.as_str()) {
                        let ghost before = ids@;
                        ids.push(m.id.clone());
                        assert(texts(ids@) =~= texts(before).push(m.id@));
                    }
                    i += 1;
                }
                assert(c.models@.take(i as int) =~= c.models@);
            }
        }
    }
    ids
}

/// The models of a provider that qualifies as configured, none for any other.
pub open spec fn offered_models(
    configured_providers: Seq<ApiProvider>,
    provider: ApiProvider,
    models: Seq<Seq<char>>,
) -> Seq<Seq<char>> {
    if configured_providers.contains(provider) {
        models
    } else {
        Seq::empty()
    }
}

/// Catalog models for a provider that qualifies as configured, none for any
/// other.
#[must_use]
pub fn models_for_provider(
    lake: &ProviderLake,
    configured_providers: &Vec<ApiProvider>,
    configured: Option<&ConfiguredModels>,
    provider: ApiProvider,
    endpoint: &RouteEndpoint,
    cached: Option<&CachedRoster>,
    signed: Option<&SignedLayer>,
    names: &ModelNames,
) -> (r: Vec<String>)
    requires
        lake.wf(),
    ensures
        texts(r@) == offered_models(
            configured_providers@,
            provider,
            with_configured(
                route_models(
                    lake.live(),
                    lake.bundled(),
                    provider,
                    endpoint.in_signed_scope,
                    endpoint.keeps_custom_model,
                    fetched_rows(cached),
                    layer_view(signed),
                    texts(names.codex@),
                    texts(names.completion@),
                ),
                configured,
                provider,
            ),
        ),
{
    if lists_provider(configured_providers, provider) {
        configured_catalog_models_for_route(
            lake,
            configured,
            provider,
            endpoint,
            cached,
            signed,
            names,
        )
    } else {
        let none: Vec<String> = Vec::new();
        assert(texts(none@) =~= Seq::<Seq<char>>::empty());
        none
    }
}

} // verus!
