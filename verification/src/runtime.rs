//! The offerings that an executable route resolves against.
//!
//! Only a fresh provider-owned roster whose source fingerprint matches the
//! selected endpoint carries live facts into an executable route. Stale, failed,
//! unknown or wrong-endpoint rosters are left to the picker and replaced here by
//! the ordinary Models.dev and bundled fallback.

use vstd::prelude::*;
use crate::api_provider::{
    api_id, api_kind, catalog_id, catalog_id_for_identity, catalog_provider_id,
    catalog_provider_id_for_identity, optional_str, ApiProvider,
};
use crate::lists::{lemma_filter_ends, lemma_filter_step};
use crate::live::{
    live_partition_owner_for_route, owned_row, owner_key, route_owner, LivePartitionOwner,
    LiveSnapshotPartitions, LiveView,
};
use crate::merge::{complete_rows, completed_rows, models_dev_rows};
use crate::offering::{
    copied_rows, put_rows, rows_of, with_rows, CatalogOffering, CatalogSnapshot, CatalogSource,
    OfferingView, SourceView,
};
use crate::pair_map::{
    keys_in_order, lemma_take_push, values_in_order, PairEntry, PairKey, PairMap,
};
use crate::provider_kind::provider_id;
use crate::signed::{
    facts_for_provider, facts_of, is_attested, layer_view, scoped_facts, FactView, ModelFact,
    ModelOp, SignedLayer, SignedView,
};
use crate::text::{contains, has_text, lower, lowered, same_text, trim, trimmed};

verus! {

broadcast use vstd::string::group_string_axioms;

/// Whether a model has a capability.
#[derive(Debug, Clone, Copy, PartialEq, Eq, Structural)]
pub enum CapabilityState {
    Supported,
    Unsupported,
    Unknown,
}

/// The capability that an optional statement gives.
pub open spec fn capability_of(stated: Option<bool>) -> CapabilityState {
    match stated {
        Some(true) => CapabilityState::Supported,
        Some(false) => CapabilityState::Unsupported,
        None => CapabilityState::Unknown,
    }
}

impl CapabilityState {
    /// The capability that an optional statement gives.
    #[must_use]
    pub fn from_optional_bool(stated: Option<bool>) -> (r: CapabilityState)
        ensures
            r == capability_of(stated),
    {
        match stated {
            Some(true) => CapabilityState::Supported,
            Some(false) => CapabilityState::Unsupported,
            None => CapabilityState::Unknown,
        }
    }
}

/// One model that a route can execute.
#[derive(Debug)]
pub struct ProviderModelOffering {
    pub provider: String,
    pub wire_model_id: String,
    pub endpoint_key: String,
    pub default_for_provider: bool,
    pub context_tokens: Option<u64>,
    pub output_tokens: Option<u64>,
    pub reasoning: CapabilityState,
    /// Handle of the price, which is carried along and never read here.
    pub price: Option<u64>,
    /// Handle of further facts, which are carried along too.
    pub details: Option<u64>,
}

/// The mathematical view of a [`ProviderModelOffering`].
#[verifier::ext_equal]
pub struct RouteRow {
    pub provider: Seq<char>,
    pub wire_model_id: Seq<char>,
    pub endpoint_key: Seq<char>,
    pub default_for_provider: bool,
    pub context_tokens: Option<u64>,
    pub output_tokens: Option<u64>,
    pub reasoning: CapabilityState,
    pub price: Option<u64>,
    pub details: Option<u64>,
}

impl View for ProviderModelOffering {
    type V = RouteRow;

    open spec fn view(&self) -> RouteRow {
        RouteRow {
            provider: self.provider@,
            wire_model_id: self.wire_model_id@,
            endpoint_key: self.endpoint_key@,
            default_for_provider: self.default_for_provider,
            context_tokens: self.context_tokens,
            output_tokens: self.output_tokens,
            reasoning: self.reasoning,
            price: self.price,
            details: self.details,
        }
    }
}

impl Clone for ProviderModelOffering {
    fn clone(&self) -> (r: Self)
        ensures
            r@ == self@,
    {
        ProviderModelOffering {
            provider: self.provider.clone(),
            wire_model_id: self.wire_model_id.clone(),
            endpoint_key: self.endpoint_key.clone(),
            default_for_provider: self.default_for_provider,
            context_tokens: self.context_tokens,
            output_tokens: self.output_tokens,
            reasoning: self.reasoning,
            price: self.price,
            details: self.details,
        }
    }
}

/// The views of a list of route rows.
pub open spec fn routes_of(list: Seq<ProviderModelOffering>) -> Seq<RouteRow> {
    list.map_values(|o: ProviderModelOffering| o@)
}

/// A copy of a list of route rows.
pub fn copied_routes(rows: &Vec<ProviderModelOffering>) -> (r: Vec<ProviderModelOffering>)
    ensures
        routes_of(r@) == routes_of(rows@),
{
    let mut out: Vec<ProviderModelOffering> = Vec::new();
    let mut i: usize = 0;
    while i < rows.len()
        invariant
            i <= rows.len(),
            out.len() == i,
            forall|k: int| 0 <= k < i ==> (#[trigger] out@[k])@ == rows@[k]@,
        decreases rows.len() - i,
    {
        out.push(rows[i].clone());
        i += 1;
    }
    assert(routes_of(out@) =~= routes_of(rows@));
    out
}

/// A catalog row as a route row.
pub open spec fn route_row(row: OfferingView) -> RouteRow {
    RouteRow {
        provider: row.provider,
        wire_model_id: row.wire_model_id,
        endpoint_key: row.endpoint_key,
        default_for_provider: row.default_for_provider,
        context_tokens: match row.limit {
            Some(limit) => limit.context,
            None => None,
        },
        output_tokens: match row.limit {
            Some(limit) => limit.output,
            None => None,
        },
        reasoning: capability_of(row.reasoning),
        price: row.price,
        details: row.details,
    }
}

impl CatalogOffering {
    /// This row as a route row.
    #[must_use]
    pub fn to_offering(&self) -> (r: ProviderModelOffering)
        ensures
            r@ == route_row(self@),
    {
        let (context_tokens, output_tokens): (Option<u64>, Option<u64>) = match self.limit {
            Some(limit) => (limit.context, limit.output),
            None => (None, None),
        };
        ProviderModelOffering {
            provider: self.provider.clone(),
            wire_model_id: self.wire_model_id.clone(),
            endpoint_key: self.endpoint_key.clone(),
            default_for_provider: self.default_for_provider,
            context_tokens,
            output_tokens,
            reasoning: CapabilityState::from_optional_bool(self.reasoning),
            price: self.price,
            details: self.details,
        }
    }
}

/// The key of a route row: the provider in lower case, and the model id.
pub open spec fn route_key(row: RouteRow) -> PairKey {
    (lower(trim(row.provider)), row.wire_model_id)
}

/// `m` with `rows` put in one after the other: the last row of a key wins.
pub open spec fn with_routes(m: Map<PairKey, RouteRow>, rows: Seq<RouteRow>) -> Map<
    PairKey,
    RouteRow,
>
    decreases rows.len(),
{
    if rows.len() == 0 {
        m
    } else {
        with_routes(m, rows.drop_last()).insert(route_key(rows.last()), rows.last())
    }
}

/// `m` with each row of `rows` whose key it does not hold yet.
pub open spec fn with_missing_routes(m: Map<PairKey, RouteRow>, rows: Seq<RouteRow>) -> Map<
    PairKey,
    RouteRow,
>
    decreases rows.len(),
{
    if rows.len() == 0 {
        m
    } else {
        let init = with_missing_routes(m, rows.drop_last());
        if init.dom().contains(route_key(rows.last())) {
            init
        } else {
            init.insert(route_key(rows.last()), rows.last())
        }
    }
}

/// Catalog rows as route rows.
pub open spec fn route_rows(rows: Seq<OfferingView>) -> Seq<RouteRow> {
    rows.map_values(|row: OfferingView| route_row(row))
}

/// What is known of the endpoint of a route.
#[derive(Debug)]
pub struct RouteEndpoint {
    /// The fingerprint of the base URL.
    pub fingerprint: String,
    /// Whether the signed scope admits the base URL for the provider's kind.
    pub in_signed_scope: bool,
    /// Whether the provider keeps the model of a custom base URL, which no
    /// catalog row then describes.
    pub keeps_custom_model: bool,
}

/// Whether the signed layer describes a route: it has a canonical kind, the
/// identity that the signer names is the route's own, and the base URL is in
/// scope.
pub open spec fn signed_facts_apply(provider: ApiProvider, in_signed_scope: bool) -> bool {
    match api_kind(provider) {
        Some(kind) => provider_id(kind) == catalog_id(provider) && in_signed_scope,
        None => false,
    }
}

/// Does the signed cloud layer describe this exact route?
///
/// Catalog rows collapse regional and dual-wire variants onto a vendor primary.
/// A fact signed for the primary is not a fact about those other endpoints, so
/// only an exact identity match may consume it.
#[must_use]
pub fn cloud_facts_apply_to_route(provider: ApiProvider, endpoint: &RouteEndpoint) -> (r: bool)
    ensures
        r == signed_facts_apply(provider, endpoint.in_signed_scope),
{
    match provider.kind() {
        Some(kind) => same_text(kind.as_str(), catalog_provider_id(provider))
            && endpoint.in_signed_scope,
        None => false,
    }
}

/// The signed rows of a route that exist though the provider's roster omits
/// them.
pub open spec fn unlisted_catalog(
    provider: ApiProvider,
    in_signed_scope: bool,
    signed: Option<SignedView>,
) -> Map<PairKey, OfferingView> {
    match signed {
        Some(layer) => if signed_facts_apply(provider, in_signed_scope) {
            let rows = with_rows(Map::empty(), layer.unlisted);
            Map::new(
                |key: PairKey| rows.dom().contains(key) && layer.attested.contains(key),
                |key: PairKey| rows[key],
            )
        } else {
            Map::empty()
        },
        None => Map::empty(),
    }
}

/// Signed rows on this endpoint that the payload explicitly attests exist
/// despite the provider roster omitting them.
///
/// A roster is authoritative for every id it lists and for its own omissions.
/// The single exception is an explicit signed assertion, and the assertion
/// carries exactly the existence of that id.
#[must_use]
pub fn cloud_unlisted_offerings_for_route(
    provider: ApiProvider,
    endpoint: &RouteEndpoint,
    signed: Option<&SignedLayer>,
) -> (r: Vec<CatalogOffering>)
    ensures
        rows_of(r@) == values_in_order(
            unlisted_catalog(provider, endpoint.in_signed_scope, layer_view(signed)),
        ),
{
    let ghost want = unlisted_catalog(provider, endpoint.in_signed_scope, layer_view(signed));
    let mut out: PairMap<CatalogOffering> = PairMap::new();
    if !cloud_facts_apply_to_route(provider, endpoint) {
        assert(out@ =~= want);
        return out.into_values();
    }
    if let Some(layer) = signed {
        let mut rows: PairMap<CatalogOffering> = PairMap::new();
        put_rows(&mut rows, &layer.unlisted);
        let ghost keys = rows.keys();
        let mut i: usize = 0;
        while i < rows.len()
            invariant
                i <= keys.len(),
                rows.wf(),
                keys == rows.keys(),
                want == Map::new(
                    |key: PairKey| rows@.dom().contains(key) && layer@.attested.contains(key),
                    |key: PairKey| rows@[key],
                ),
                out.wf(),
                forall|k: PairKey| #[trigger]
                    out@.dom().contains(k) <==> want.dom().contains(k) && keys.take(
                        i as int,
                    ).contains(k),
                forall|k: PairKey| #[trigger] out@.dom().contains(k) ==> out@[k] == want[k],
            decreases keys.len() - i,
        {
            let e: &PairEntry<CatalogOffering> = rows.entry(i);
            proof {
                rows.lemma_contents();
                lemma_take_push(keys, i as int);
            }
            if is_attested(layer, e.first.as_str(), e.second.as_str()) {
                out.insert(e.first.clone(), e.second.clone(), e.value.clone());
            }
            i += 1;
        }
        proof {
            rows.lemma_contents();
            assert(keys.take(i as int) =~= keys);
        }
    }
    assert(out@ =~= want);
    out.into_values()
}

/// Whether a row is a provider's own listing at the endpoint with this
/// fingerprint.
pub open spec fn from_endpoint(row: OfferingView, fingerprint: Seq<char>) -> bool {
    match row.source {
        SourceView::Live { base_url_fingerprint, .. } => base_url_fingerprint == fingerprint,
        _ => false,
    }
}

/// Whether a row is a provider's own listing at the endpoint with this
/// fingerprint.
#[must_use]
pub fn row_matches_endpoint_fingerprint(row: &CatalogOffering, fingerprint: &str) -> (r: bool)
    ensures
        r == from_endpoint(row@, fingerprint@),
{
    match &row.source {
        CatalogSource::Live { base_url_fingerprint, fetched_at: _ } => same_text(
            base_url_fingerprint.as_str(),
            fingerprint,
        ),
        _ => false,
    }
}

/// Whether the endpoint's own fresh roster decides what the route can execute.
pub open spec fn endpoint_authoritative(
    live: LiveView,
    provider: ApiProvider,
    identity: Option<Seq<char>>,
    fingerprint: Seq<char>,
    fresh: bool,
) -> bool {
    let key = owner_key(route_owner(provider, identity));
    let name = trim(catalog_id_for_identity(provider, identity));
    &&& fresh
    &&& live.per_provider.dom().contains(key)
    &&& live.per_provider[key].len() > 0
    &&& forall|i: int|
        0 <= i < live.per_provider[key].len() ==> trim(
            (#[trigger] live.per_provider[key][i]).provider,
        ) == name && from_endpoint(live.per_provider[key][i], fingerprint)
}

/// The live rows that the route reads: the endpoint's own roster where it
/// decides, otherwise the Models.dev rows of a built-in provider.
pub open spec fn selected_rows(
    live: LiveView,
    provider: ApiProvider,
    identity: Option<Seq<char>>,
    fingerprint: Seq<char>,
    fresh: bool,
) -> Seq<OfferingView> {
    let name = trim(catalog_id_for_identity(provider, identity));
    if endpoint_authoritative(live, provider, identity, fingerprint, fresh) {
        live.per_provider[owner_key(route_owner(provider, identity))]
    } else if provider != ApiProvider::Custom {
        models_dev_rows(live).filter(|row: OfferingView| trim(row.provider) == name)
    } else {
        Seq::empty()
    }
}

/// The provider id under which the route's own roster is executed.
pub open spec fn transport_id(provider: ApiProvider, identity: Option<Seq<char>>) -> Seq<char> {
    if provider == ApiProvider::Custom {
        api_id(ApiProvider::Custom)
    } else {
        catalog_id_for_identity(provider, identity)
    }
}

/// The route's own roster, under the id under which it is executed.
pub open spec fn transported_rows(rows: Seq<OfferingView>, transport: Seq<char>) -> Seq<
    OfferingView,
> {
    rows.map_values(|row: OfferingView| owned_row(row, transport))
}

/// The rows of a list that satisfy a fresh, matching roster.
fn roster_matches(rows: &Vec<CatalogOffering>, name: &str, fingerprint: &str) -> (r: bool)
    ensures
        r == (rows.len() > 0 && forall|i: int|
            0 <= i < rows_of(rows@).len() ==> trim((#[trigger] rows_of(rows@)[i]).provider)
                == name@ && from_endpoint(rows_of(rows@)[i], fingerprint@)),
{
    let mut i: usize = 0;
    while i < rows.len()
        invariant
            i <= rows.len(),
            forall|k: int|
                0 <= k < i ==> trim((#[trigger] rows_of(rows@)[k]).provider) == name@
                    && from_endpoint(rows_of(rows@)[k], fingerprint@),
        decreases rows.len() - i,
    {
        assert(rows_of(rows@)[i as int] == rows@[i as int]@);
        if !same_text(trimmed(rows[i].provider.as_str()), name)
            || !row_matches_endpoint_fingerprint(&rows[i], fingerprint) {
            return false;
        }
        i += 1;
    }
    rows.len() > 0
}

/// The rows whose provider is `name`, in order.
pub fn rows_named(rows: &Vec<CatalogOffering>, name: &str) -> (r: Vec<CatalogOffering>)
    ensures
        rows_of(r@) == rows_of(rows@).filter(|row: OfferingView| trim(row.provider) == name@),
{
    let ghost all = rows_of(rows@);
    let ghost keep = |row: OfferingView| trim(row.provider) == name@;
    let mut out: Vec<CatalogOffering> = Vec::new();
    proof {
        lemma_filter_ends(all, keep);
        assert(rows_of(out@) =~= Seq::<OfferingView>::empty());
    }
    let mut i: usize = 0;
    while i < rows.len()
        invariant
            i <= rows.len(),
            all == rows_of(rows@),
            keep == (|row: OfferingView| trim(row.provider) == name@),
            rows_of(out@) == all.take(i as int).filter(keep),
        decreases rows.len() - i,
    {
        proof {
            assert(all[i as int] == rows@[i as int]@);
            lemma_filter_step(all, keep, i as int);
        }
        if same_text(trimmed(rows[i].provider.as_str()), name) {
            let ghost before = out@;
            out.push(rows[i].clone());
            assert(rows_of(out@) =~= rows_of(before).push(all[i as int]));
        }
        i += 1;
    }
    assert(all.take(i as int) =~= all);
    out
}

/// The live rows that a route reads, and whether the endpoint's own fresh roster
/// decides what it can execute.
#[must_use]
pub fn runtime_selected_rows(
    live: &LiveSnapshotPartitions,
    provider: ApiProvider,
    provider_identity: Option<&str>,
    endpoint: &RouteEndpoint,
    status_is_fresh: bool,
) -> (r: (bool, Vec<CatalogOffering>))
    requires
        live.wf(),
    ensures
        r.0 == endpoint_authoritative(
            live@,
            provider,
            optional_str(provider_identity),
            endpoint.fingerprint@,
            status_is_fresh,
        ),
        rows_of(r.1@) == selected_rows(
            live@,
            provider,
            optional_str(provider_identity),
            endpoint.fingerprint@,
            status_is_fresh,
        ),
{
    let catalog_name: String = catalog_provider_id_for_identity(provider, provider_identity);
    let name: &str = trimmed(catalog_name.as_str());
    let owner: LivePartitionOwner = live_partition_owner_for_route(provider, provider_identity);
    if status_is_fresh {
        if let Some(partition) = live.partition(&owner) {
            if roster_matches(&partition.offerings, name, endpoint.fingerprint.as_str()) {
                return (true, copied_rows(&partition.offerings));
            }
        }
    }
    let none: Vec<CatalogOffering> = Vec::new();
    assert(rows_of(none@) =~= Seq::<OfferingView>::empty());
    if provider != ApiProvider::Custom {
        match live.models_dev() {
            Some(snapshot) => (false, rows_named(&snapshot.offerings, name)),
            None => {
                proof {
                    lemma_filter_ends(
                        Seq::<OfferingView>::empty(),
                        |row: OfferingView| trim(row.provider) == name@,
                    );
                    assert(Seq::<OfferingView>::empty().take(0) =~= Seq::empty());
                }
                (false, none)
            },
        }
    } else {
        (false, none)
    }
}

/// The catalog rows of the lower layers on which a route without a roster of its
/// own rests, before the signed layer.
pub open spec fn unsigned_source_catalog(
    bundled: Seq<OfferingView>,
    authoritative: bool,
    selected: Seq<OfferingView>,
) -> Map<PairKey, OfferingView> {
    let base = with_rows(Map::empty(), bundled);
    if authoritative {
        base
    } else {
        with_rows(base, selected)
    }
}

/// The catalog rows of the lower layers, the signed one last where it describes
/// the route.
pub open spec fn source_catalog(
    bundled: Seq<OfferingView>,
    authoritative: bool,
    selected: Seq<OfferingView>,
    applies: bool,
    signed: Option<SignedView>,
) -> Map<PairKey, OfferingView> {
    match signed {
        Some(layer) => if !authoritative && applies {
            with_rows(Map::empty(), layer.patched)
        } else {
            unsigned_source_catalog(bundled, authoritative, selected)
        },
        None => unsigned_source_catalog(bundled, authoritative, selected),
    }
}

/// A route row after the fields that a fact states were corrected.
pub open spec fn corrected_route(
    row: RouteRow,
    source: Map<PairKey, OfferingView>,
    fact: FactView,
) -> RouteRow {
    RouteRow {
        context_tokens: match fact.context_window {
            Some(n) => Some(n),
            None => row.context_tokens,
        },
        output_tokens: match fact.max_output {
            Some(n) => Some(n),
            None => row.output_tokens,
        },
        reasoning: match fact.reasoning {
            Some(b) => capability_of(Some(b)),
            None => row.reasoning,
        },
        price: if fact.priced && source.dom().contains((fact.provider, fact.id)) {
            source[(fact.provider, fact.id)].price
        } else {
            row.price
        },
        ..row
    }
}

/// The route rows after one fact: a hidden model is gone, a stated field is
/// corrected on a row that is there, and no row is added.
pub open spec fn routes_after_fact(
    m: Map<PairKey, RouteRow>,
    source: Map<PairKey, OfferingView>,
    fact: FactView,
) -> Map<PairKey, RouteRow> {
    let key = (fact.provider, fact.id);
    match fact.op {
        ModelOp::Hide => m.remove(key),
        ModelOp::Upsert => if m.dom().contains(key) {
            m.insert(key, corrected_route(m[key], source, fact))
        } else {
            m
        },
        ModelOp::Deprecate => m,
    }
}

/// The route rows after a list of facts, one after the other.
pub open spec fn routes_after_facts(
    m: Map<PairKey, RouteRow>,
    source: Map<PairKey, OfferingView>,
    facts: Seq<FactView>,
) -> Map<PairKey, RouteRow>
    decreases facts.len(),
{
    if facts.len() == 0 {
        m
    } else {
        routes_after_fact(
            routes_after_facts(m, source, facts.drop_last()),
            source,
            facts.last(),
        )
    }
}

/// The route rows that rest on the lower layers: catalog rows, overridden by the
/// curated ones, corrected by the signed facts that describe the route.
pub open spec fn fallback_routes(
    source: Map<PairKey, OfferingView>,
    curated: Seq<RouteRow>,
    authoritative: bool,
    applies: bool,
    catalog_name: Seq<char>,
    signed: Option<SignedView>,
) -> Map<PairKey, RouteRow> {
    let base = with_routes(
        with_routes(Map::empty(), route_rows(values_in_order(source))),
        curated,
    );
    match signed {
        Some(layer) => if !authoritative && applies {
            routes_after_facts(base, source, facts_for_provider(layer.facts, catalog_name))
        } else {
            base
        },
        None => base,
    }
}

/// The route rows of other providers.
pub open spec fn foreign_routes(m: Map<PairKey, RouteRow>, transport: Seq<char>) -> Map<
    PairKey,
    RouteRow,
> {
    Map::new(
        |key: PairKey| m.dom().contains(key) && m[key].provider != transport,
        |key: PairKey| m[key],
    )
}

/// The route rows with a provider's scope replaced by its own roster, and the
/// signed rows that the roster does not list beside it.
pub open spec fn roster_routes(
    m: Map<PairKey, RouteRow>,
    transport: Seq<char>,
    roster: Seq<OfferingView>,
    unlisted: Map<PairKey, OfferingView>,
) -> Map<PairKey, RouteRow> {
    with_missing_routes(
        with_routes(foreign_routes(m, transport), route_rows(roster)),
        route_rows(values_in_order(unlisted)),
    )
}

/// The first key of `keys` whose row belongs to `name`.
pub open spec fn first_key_of(
    m: Map<PairKey, RouteRow>,
    keys: Seq<PairKey>,
    name: Seq<char>,
) -> Option<PairKey>
    decreases keys.len(),
{
    if keys.len() == 0 {
        None
    } else if m[keys[0]].provider == name {
        Some(keys[0])
    } else {
        first_key_of(m, keys.drop_first(), name)
    }
}

/// Whether a provider reports a default model.
pub open spec fn reports_default(m: Map<PairKey, RouteRow>, name: Seq<char>) -> bool {
    exists|key: PairKey| #[trigger]
        m.dom().contains(key) && m[key].provider == name && m[key].default_for_provider
}

/// The route rows with a default elected for a provider that reports none: the
/// first of its rows in key order.
pub open spec fn with_elected_default(m: Map<PairKey, RouteRow>, name: Seq<char>) -> Map<
    PairKey,
    RouteRow,
> {
    if reports_default(m, name) {
        m
    } else {
        match first_key_of(m, keys_in_order(m), name) {
            Some(key) => m.insert(key, RouteRow { default_for_provider: true, ..m[key] }),
            None => m,
        }
    }
}

/// A route row with the protocol of a Muse Spark model set to Responses.
pub open spec fn repaired_route(row: RouteRow, name: Seq<char>) -> RouteRow {
    if row.provider == name && contains(lower(row.wire_model_id), "muse-spark"@) {
        RouteRow { endpoint_key: "responses"@, ..row }
    } else {
        row
    }
}

/// The route rows of a provider whose Muse Spark models are served over
/// Responses alone.
pub open spec fn with_repaired_protocols(m: Map<PairKey, RouteRow>, name: Seq<char>) -> Map<
    PairKey,
    RouteRow,
> {
    Map::new(|key: PairKey| m.dom().contains(key), |key: PairKey| repaired_route(m[key], name))
}

/// What the route rows of a route are made from, apart from the live rows.
#[verifier::ext_equal]
pub struct RuntimeInputs {
    pub bundled: Seq<OfferingView>,
    pub curated: Seq<RouteRow>,
    pub in_signed_scope: bool,
    pub signed: Option<SignedView>,
}

/// The roster of a route, completed where a signed layer describes the route.
pub open spec fn runtime_roster(
    selected: Seq<OfferingView>,
    transport: Seq<char>,
    applies: bool,
    signed: Option<SignedView>,
) -> Seq<OfferingView> {
    let rows = transported_rows(selected, transport);
    match signed {
        Some(layer) => if applies {
            completed_rows(rows, layer.completed)
        } else {
            rows
        },
        None => rows,
    }
}

/// The route rows that a route resolves against, before the rules of single
/// providers.
pub open spec fn plain_routes(
    live: LiveView,
    provider: ApiProvider,
    identity: Option<Seq<char>>,
    fingerprint: Seq<char>,
    fresh: bool,
    inputs: RuntimeInputs,
) -> Map<PairKey, RouteRow> {
    let name = catalog_id_for_identity(provider, identity);
    let authoritative = endpoint_authoritative(live, provider, identity, fingerprint, fresh);
    let selected = selected_rows(live, provider, identity, fingerprint, fresh);
    let applies = signed_facts_apply(provider, inputs.in_signed_scope);
    let source = source_catalog(inputs.bundled, authoritative, selected, applies, inputs.signed);
    let base = fallback_routes(
        source,
        inputs.curated,
        authoritative,
        applies,
        name,
        inputs.signed,
    );
    if authoritative {
        roster_routes(
            base,
            transport_id(provider, identity),
            runtime_roster(selected, transport_id(provider, identity), applies, inputs.signed),
            unlisted_catalog(provider, inputs.in_signed_scope, inputs.signed),
        )
    } else {
        base
    }
}

/// The route rows that a route resolves against.
///
/// Ollama's tag list marks no default, so one is elected from the fresh exact
/// endpoint. OpenCode Zen serves Muse Spark over Responses alone, whatever an
/// id-only row says.
pub open spec fn runtime_routes(
    live: LiveView,
    provider: ApiProvider,
    identity: Option<Seq<char>>,
    fingerprint: Seq<char>,
    fresh: bool,
    inputs: RuntimeInputs,
) -> Map<PairKey, RouteRow> {
    let name = catalog_id_for_identity(provider, identity);
    let routes = plain_routes(live, provider, identity, fingerprint, fresh, inputs);
    if provider == ApiProvider::Ollama && endpoint_authoritative(
        live,
        provider,
        identity,
        fingerprint,
        fresh,
    ) {
        with_elected_default(routes, name)
    } else if provider == ApiProvider::OpencodeZen {
        with_repaired_protocols(routes, name)
    } else {
        routes
    }
}

fn put_route(map: &mut PairMap<ProviderModelOffering>, row: ProviderModelOffering)
    requires
        old(map).wf(),
    ensures
        final(map).wf(),
        final(map)@ == old(map)@.insert(route_key(row@), row@),
{
    let provider: String = lowered(trimmed(row.provider.as_str()));
    let model: String = row.wire_model_id.clone();
    map.insert(provider, model, row);
}

fn put_catalog_routes(map: &mut PairMap<ProviderModelOffering>, rows: &Vec<CatalogOffering>)
    requires
        old(map).wf(),
    ensures
        final(map).wf(),
        final(map)@ == with_routes(old(map)@, route_rows(rows_of(rows@))),
{
    let ghost all = route_rows(rows_of(rows@));
    let ghost start = map@;
    let mut i: usize = 0;
    assert(all.take(0) =~= Seq::<RouteRow>::empty());
    while i < rows.len()
        invariant
            i <= rows.len(),
            map.wf(),
            all == route_rows(rows_of(rows@)),
            map@ == with_routes(start, all.take(i as int)),
        decreases rows.len() - i,
    {
        put_route(map, rows[i].to_offering());
        proof {
            assert(rows_of(rows@)[i as int] == rows@[i as int]@);
            assert(all.take(i + 1).drop_last() =~= all.take(i as int));
            assert(all.take(i + 1).last() == route_row(rows@[i as int]@));
        }
        i += 1;
    }
    assert(all.take(i as int) =~= all);
}

fn put_routes(map: &mut PairMap<ProviderModelOffering>, rows: &Vec<ProviderModelOffering>)
    requires
        old(map).wf(),
    ensures
        final(map).wf(),
        final(map)@ == with_routes(old(map)@, routes_of(rows@)),
{
    let ghost all = routes_of(rows@);
    let ghost start = map@;
    let mut i: usize = 0;
    assert(all.take(0) =~= Seq::<RouteRow>::empty());
    while i < rows.len()
        invariant
            i <= rows.len(),
            map.wf(),
            all == routes_of(rows@),
            map@ == with_routes(start, all.take(i as int)),
        decreases rows.len() - i,
    {
        put_route(map, rows[i].clone());
        proof {
            assert(all.take(i + 1).drop_last() =~= all.take(i as int));
            assert(all.take(i + 1).last() == rows@[i as int]@);
        }
        i += 1;
    }
    assert(all.take(i as int) =~= all);
}

fn put_missing_routes(map: &mut PairMap<ProviderModelOffering>, rows: &Vec<CatalogOffering>)
    requires
        old(map).wf(),
    ensures
        final(map).wf(),
        final(map)@ == with_missing_routes(old(map)@, route_rows(rows_of(rows@))),
{
    let ghost all = route_rows(rows_of(rows@));
    let ghost start = map@;
    let mut i: usize = 0;
    assert(all.take(0) =~= Seq::<RouteRow>::empty());
    while i < rows.len()
        invariant
            i <= rows.len(),
            map.wf(),
            all == route_rows(rows_of(rows@)),
            map@ == with_missing_routes(start, all.take(i as int)),
        decreases rows.len() - i,
    {
        let row: ProviderModelOffering = rows[i].to_offering();
        proof {
            assert(rows_of(rows@)[i as int] == rows@[i as int]@);
            assert(all.take(i + 1).drop_last() =~= all.take(i as int));
            assert(all.take(i + 1).last() == route_row(rows@[i as int]@));
        }
        let provider: String = lowered(trimmed(row.provider.as_str()));
        if map.get(provider.as_str(), row.wire_model_id.as_str()).is_none() {
            put_route(map, row);
        }
        i += 1;
    }
    assert(all.take(i as int) =~= all);
}

fn correct_route(
    row: &ProviderModelOffering,
    source: &PairMap<CatalogOffering>,
    fact: &ModelFact,
) -> (r: ProviderModelOffering)
    requires
        source.wf(),
    ensures
        r@ == corrected_route(row@, source@, fact@),
{
    let mut out: ProviderModelOffering = row.clone();
    if let Some(context) = fact.context_window {
        out.context_tokens = Some(context);
    }
    if let Some(output) = fact.max_output {
        out.output_tokens = Some(output);
    }
    if let Some(reasoning) = fact.reasoning {
        out.reasoning = CapabilityState::from_optional_bool(Some(reasoning));
    }
    if fact.priced {
        if let Some(priced_row) = source.get(fact.provider.as_str(), fact.id.as_str()) {
            out.price = priced_row.price;
        }
    }
    out
}

fn apply_facts(
    map: &mut PairMap<ProviderModelOffering>,
    source: &PairMap<CatalogOffering>,
    facts: &Vec<ModelFact>,
)
    requires
        old(map).wf(),
        source.wf(),
    ensures
        final(map).wf(),
        final(map)@ == routes_after_facts(old(map)@, source@, facts_of(facts@)),
{
    let ghost all = facts_of(facts@);
    let ghost start = map@;
    let mut i: usize = 0;
    assert(all.take(0) =~= Seq::<FactView>::empty());
    while i < facts.len()
        invariant
            i <= facts.len(),
            map.wf(),
            source.wf(),
            all == facts_of(facts@),
            map@ == routes_after_facts(start, source@, all.take(i as int)),
        decreases facts.len() - i,
    {
        let fact: &ModelFact = &facts[i];
        proof {
            assert(all.take(i + 1).drop_last() =~= all.take(i as int));
            assert(all.take(i + 1).last() == facts@[i as int]@);
        }
        match fact.op {
            ModelOp::Hide => {
                let gone: Option<ProviderModelOffering> = map.remove(
                    fact.provider.as_str(),
                    fact.id.as_str(),
                );
            },
            ModelOp::Upsert => {
                let corrected: Option<ProviderModelOffering> = match map.get(
                    fact.provider.as_str(),
                    fact.id.as_str(),
                ) {
                    Some(row) => Some(correct_route(row, source, fact)),
                    None => None,
                };
                if let Some(row) = corrected {
                    map.insert(fact.provider.clone(), fact.id.clone(), row);
                }
            },
            ModelOp::Deprecate => {},
        }
        i += 1;
    }
    assert(all.take(i as int) =~= all);
}

fn keep_foreign_routes(map: &PairMap<ProviderModelOffering>, transport: &str) -> (r: PairMap<
    ProviderModelOffering,
>)
    requires
        map.wf(),
    ensures
        r.wf(),
        r@ == foreign_routes(map@, transport@),
{
    let ghost keys = map.keys();
    let ghost want = foreign_routes(map@, transport@);
    let mut out: PairMap<ProviderModelOffering> = PairMap::new();
    let mut i: usize = 0;
    while i < map.len()
        invariant
            i <= keys.len(),
            map.wf(),
            keys == map.keys(),
            want == foreign_routes(map@, transport@),
            out.wf(),
            forall|k: PairKey| #[trigger]
                out@.dom().contains(k) <==> want.dom().contains(k) && keys.take(
                    i as int,
                ).contains(k),
            forall|k: PairKey| #[trigger] out@.dom().contains(k) ==> out@[k] == want[k],
        decreases keys.len() - i,
    {
        let e: &PairEntry<ProviderModelOffering> = map.entry(i);
        proof {
            map.lemma_contents();
            lemma_take_push(keys, i as int);
        }
        if !same_text(e.value.provider.as_str(), transport) {
            out.insert(e.first.clone(), e.second.clone(), e.value.clone());
        }
        i += 1;
    }
    proof {
        map.lemma_contents();
        assert(keys.take(i as int) =~= keys);
        assert(out@ =~= want);
    }
    out
}

fn has_default(map: &PairMap<ProviderModelOffering>, name: &str) -> (r: bool)
    requires
        map.wf(),
    ensures
        r == reports_default(map@, name@),
{
    let ghost keys = map.keys();
    proof {
        map.lemma_contents();
    }
    let mut i: usize = 0;
    while i < map.len()
        invariant
            i <= keys.len(),
            map.wf(),
            keys == map.keys(),
            forall|k: int|
                0 <= k < i ==> !(map@[#[trigger] keys[k]].provider == name@
                    && map@[keys[k]].default_for_provider),
        decreases keys.len() - i,
    {
        let e: &PairEntry<ProviderModelOffering> = map.entry(i);
        proof {
            map.lemma_contents();
        }
        if e.value.default_for_provider && same_text(e.value.provider.as_str(), name) {
            assert(map@.dom().contains(keys[i as int]));
            return true;
        }
        i += 1;
    }
    proof {
        map.lemma_contents();
        if reports_default(map@, name@) {
            let key = choose|key: PairKey| #[trigger]
                map@.dom().contains(key) && map@[key].provider == name@
                    && map@[key].default_for_provider;
            assert(keys.contains(key));
            let j = choose|j: int| 0 <= j < keys.len() && keys[j] == key;
            assert(map@[keys[j]].provider == name@);
        }
    }
    false
}

fn elect_default(map: &mut PairMap<ProviderModelOffering>, name: &str)
    requires
        old(map).wf(),
    ensures
        final(map).wf(),
        final(map)@ == with_elected_default(old(map)@, name@),
{
    if has_default(map, name) {
        return;
    }
    let ghost keys = map.keys();
    proof {
        map.lemma_contents();
        assert(keys.skip(0) =~= keys);
    }
    let mut i: usize = 0;
    while i < map.len()
        invariant
            i <= keys.len(),
            map.wf(),
            *map == *old(map),
            keys == map.keys(),
            keys_in_order(map@) == keys,
            !reports_default(map@, name@),
            first_key_of(map@, keys, name@) == first_key_of(map@, keys.skip(i as int), name@),
        decreases keys.len() - i,
    {
        proof {
            map.lemma_contents();
            assert(keys.skip(i as int)[0] == keys[i as int]);
            assert(keys.skip(i as int).drop_first() =~= keys.skip(i + 1));
        }
        let e: &PairEntry<ProviderModelOffering> = map.entry(i);
        if same_text(e.value.provider.as_str(), name) {
            let mut row: ProviderModelOffering = e.value.clone();
            row.default_for_provider = true;
            let first: String = e.first.clone();
            let second: String = e.second.clone();
            map.insert(first, second, row);
            return;
        }
        i += 1;
    }
}

fn repair_protocols(map: &PairMap<ProviderModelOffering>, name: &str) -> (r: PairMap<
    ProviderModelOffering,
>)
    requires
        map.wf(),
    ensures
        r.wf(),
        r@ == with_repaired_protocols(map@, name@),
{
    let ghost keys = map.keys();
    let ghost want = with_repaired_protocols(map@, name@);
    let mut out: PairMap<ProviderModelOffering> = PairMap::new();
    let mut i: usize = 0;
    while i < map.len()
        invariant
            i <= keys.len(),
            map.wf(),
            keys == map.keys(),
            want == with_repaired_protocols(map@, name@),
            out.wf(),
            forall|k: PairKey| #[trigger]
                out@.dom().contains(k) <==> want.dom().contains(k) && keys.take(
                    i as int,
                ).contains(k),
            forall|k: PairKey| #[trigger] out@.dom().contains(k) ==> out@[k] == want[k],
        decreases keys.len() - i,
    {
        let e: &PairEntry<ProviderModelOffering> = map.entry(i);
        proof {
            map.lemma_contents();
            lemma_take_push(keys, i as int);
        }
        let mut row: ProviderModelOffering = e.value.clone();
        let folded: String = lowered(row.wire_model_id.as_str());
        if same_text(row.provider.as_str(), name) && has_text(folded.as_str(), "muse-spark")
            && !same_text(row.endpoint_key.as_str(), "responses") {
            row.endpoint_key = "responses".to_owned();
        }
        assert(row@ == want[keys[i as int]]);
        out.insert(e.first.clone(), e.second.clone(), row);
        i += 1;
    }
    proof {
        map.lemma_contents();
        assert(keys.take(i as int) =~= keys);
        assert(out@ =~= want);
    }
    out
}

fn transport_rows(rows: Vec<CatalogOffering>, transport: &str) -> (r: Vec<CatalogOffering>)
    ensures
        rows_of(r@) == transported_rows(rows_of(rows@), transport@),
{
    let ghost all = rows_of(rows@);
    let mut out: Vec<CatalogOffering> = Vec::new();
    for row in it: rows
        invariant
            rows_of(it.seq()) == all,
            out.len() == it.index(),
            forall|k: int|
                0 <= k < out.len() ==> (#[trigger] out@[k])@ == owned_row(all[k], transport@),
    {
        assert(all[it.index() as int] == row@);
        out.push(CatalogOffering { provider: transport.to_owned(), ..row });
    }
    assert(rows_of(out@) =~= transported_rows(all, transport@));
    out
}

/// The offerings of a route, and whether the endpoint's own roster decided them.
#[derive(Debug)]
pub struct RuntimeCatalogResolver {
    /// The offerings that the route resolver is built from, in key order.
    pub offerings: Vec<ProviderModelOffering>,
    pub endpoint_catalog_authoritative: bool,
}

/// The catalog rows of the lower layers for a route without a roster of its own:
/// what the signed layer is applied to.
#[must_use]
pub fn runtime_source_rows(
    live: &LiveSnapshotPartitions,
    bundled: &CatalogSnapshot,
    provider: ApiProvider,
    provider_identity: Option<&str>,
    endpoint: &RouteEndpoint,
    status_is_fresh: bool,
) -> (r: Vec<CatalogOffering>)
    requires
        live.wf(),
    ensures
        rows_of(r@) == values_in_order(
            unsigned_source_catalog(
                bundled@,
                endpoint_authoritative(
                    live@,
                    provider,
                    optional_str(provider_identity),
                    endpoint.fingerprint@,
                    status_is_fresh,
                ),
                selected_rows(
                    live@,
                    provider,
                    optional_str(provider_identity),
                    endpoint.fingerprint@,
                    status_is_fresh,
                ),
            ),
        ),
{
    let (authoritative, selected): (bool, Vec<CatalogOffering>) = runtime_selected_rows(
        live,
        provider,
        provider_identity,
        endpoint,
        status_is_fresh,
    );
    source_map(bundled, authoritative, &selected).into_values()
}

fn source_map(
    bundled: &CatalogSnapshot,
    authoritative: bool,
    selected: &Vec<CatalogOffering>,
) -> (r: PairMap<CatalogOffering>)
    ensures
        r.wf(),
        r@ == unsigned_source_catalog(bundled@, authoritative, rows_of(selected@)),
{
    let mut map: PairMap<CatalogOffering> = PairMap::new();
    put_rows(&mut map, &bundled.offerings);
    if !authoritative {
        put_rows(&mut map, selected);
    }
    map
}

/// Compute the offerings that a route resolves against.
///
/// `signed` carries what the signed layer answers: its facts, the rows of
/// [`runtime_source_rows`] with its patches applied, the selected roster with
/// its completions, and the rows that it makes of an empty catalog.
#[must_use]
pub fn compute_runtime_offerings(
    live: &LiveSnapshotPartitions,
    bundled: &CatalogSnapshot,
    curated: &Vec<ProviderModelOffering>,
    provider: ApiProvider,
    provider_identity: Option<&str>,
    endpoint: &RouteEndpoint,
    status_is_fresh: bool,
    signed: Option<&SignedLayer>,
) -> (r: RuntimeCatalogResolver)
    requires
        live.wf(),
    ensures
        r.endpoint_catalog_authoritative == endpoint_authoritative(
            live@,
            provider,
            optional_str(provider_identity),
            endpoint.fingerprint@,
            status_is_fresh,
        ),
        routes_of(r.offerings@) == values_in_order(
            runtime_routes(
                live@,
                provider,
                optional_str(provider_identity),
                endpoint.fingerprint@,
                status_is_fresh,
                (RuntimeInputs {
                    bundled: bundled@,
                    curated: routes_of(curated@),
                    in_signed_scope: endpoint.in_signed_scope,
                    signed: layer_view(signed),
                }),
            ),
        ),
{
    let catalog_name: String = catalog_provider_id_for_identity(provider, provider_identity);
    let (authoritative, selected): (bool, Vec<CatalogOffering>) = runtime_selected_rows(
        live,
        provider,
        provider_identity,
        endpoint,
        status_is_fresh,
    );
    let applies: bool = cloud_facts_apply_to_route(provider, endpoint);

    // Providers other than the selected one keep the bundled and curated
    // baseline: another endpoint's live roster must not alter this route's
    // ownership checks.
    let mut source: PairMap<CatalogOffering> = source_map(bundled, authoritative, &selected);
    if let Some(layer) = signed {
        if !authoritative && applies {
            source = PairMap::new();
            put_rows(&mut source, &layer.patched);
        }
    }
    let mut routes: PairMap<ProviderModelOffering> = PairMap::new();
    let source_rows: Vec<CatalogOffering> = map_values_of(&source);
    put_catalog_routes(&mut routes, &source_rows);
    // Curated transport facts win ordinary Models.dev collisions. A fresh exact
    // roster replaces its whole scope.
    put_routes(&mut routes, curated);
    // Curated transport identity is kept, and only fields that are explicitly
    // signed are applied. Hidden rows must not be resurrected here.
    if let Some(layer) = signed {
        if !authoritative && applies {
            let facts: Vec<ModelFact> = scoped_facts(&layer.facts, catalog_name.as_str());
            apply_facts(&mut routes, &source, &facts);
        }
    }
    if authoritative {
        let transport: String = if provider == ApiProvider::Custom {
            ApiProvider::Custom.as_str().to_owned()
        } else {
            catalog_name.clone()
        };
        routes = keep_foreign_routes(&routes, transport.as_str());
        let mut roster: Vec<CatalogOffering> = transport_rows(selected, transport.as_str());
        if let Some(layer) = signed {
            if applies {
                roster = complete_rows(roster, &layer.completed);
            }
        }
        put_catalog_routes(&mut routes, &roster);
        // The roster replaced its whole scope, but an id that is explicitly
        // attested as unlisted is not an id that it denied.
        let unlisted: Vec<CatalogOffering> = cloud_unlisted_offerings_for_route(
            provider,
            endpoint,
            signed,
        );
        put_missing_routes(&mut routes, &unlisted);
    }
    if provider == ApiProvider::Ollama && authoritative {
        elect_default(&mut routes, catalog_name.as_str());
    }
    if provider == ApiProvider::OpencodeZen {
        routes = repair_protocols(&routes, catalog_name.as_str());
    }
    let offerings: Vec<ProviderModelOffering> = routes.into_values();
    RuntimeCatalogResolver { offerings, endpoint_catalog_authoritative: authoritative }
}

/// Copies of the values of a map, in key order.
fn map_values_of(map: &PairMap<CatalogOffering>) -> (r: Vec<CatalogOffering>)
    requires
        map.wf(),
    ensures
        rows_of(r@) == values_in_order(map@),
{
    proof {
        map.lemma_contents();
    }
    let mut out: Vec<CatalogOffering> = Vec::new();
    let mut i: usize = 0;
    while i < map.len()
        invariant
            i <= map.keys().len(),
            map.keys().len() == map.values().len(),
            out.len() == i,
            forall|k: int| 0 <= k < i ==> (#[trigger] out@[k])@ == map.values()[k],
        decreases map.keys().len() - i,
    {
        out.push(map.entry(i).value.clone());
        i += 1;
    }
    assert(rows_of(out@) =~= map.values());
    out
}

} // verus!
