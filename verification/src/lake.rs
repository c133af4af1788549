//! The provider lake: the catalog layers behind one seam, with the merged view
//! and the route resolvers memoized per generation.
//!
//! Precedence is provider-scoped live rows, then live Models.dev rows, then the
//! bundled offline snapshot, then the compatibility names of the provider.

use vstd::prelude::*;
use crate::api_provider::{
    api_of_kind, catalog_id, catalog_id_for_identity, catalog_ids_are_trimmed,
    catalog_partition_key, catalog_provider_id, catalog_provider_id_for_identity, optional_str,
    ApiProvider,
};
use crate::lists::{lemma_filter_ends, lemma_filter_step};
use crate::live::{
    cut_rows, inferred_live_partition_owner, inferred_owner, live_after_merge, live_after_replace,
    live_after_set, live_partition_owner_for_route, owner_key, route_owner, GoModelView, GoRoster,
    LivePartitionOwner, LiveSnapshotPartitions, LiveSource, LiveView, OwnerView,
};
use crate::merge::{compute_merged_snapshot, merged_rows};
use crate::model_list::{
    catalog_models, catalog_models_from_offerings, push_unique_models, with_models,
};
use crate::offering::{
    copied_rows, rows_for_provider, rows_of, CatalogOffering, CatalogSnapshot, CatalogStatus, OfferingView,
};
use crate::pair_map::values_in_order;
use crate::provider::display_order;
use crate::provider_kind::ProviderKind;
use crate::runtime::{
    compute_runtime_offerings, copied_routes, endpoint_authoritative, plain_routes, routes_of,
    rows_named, runtime_routes, selected_rows, transport_id, ProviderModelOffering,
    RouteEndpoint, RouteRow, RuntimeCatalogResolver, RuntimeInputs,
};
use crate::signed::{layer_view, SignedLayer, SignedView};
use crate::text::{
    lower, lowered, same_ignoring_case, same_text, texts, trim, trim_keeps_the_middle, trimmed,
};

verus! {

/// The generation after `generation`. Generations wrap around.
pub open spec fn next_generation(generation: u64) -> u64 {
    if generation == u64::MAX {
        0
    } else {
        (generation + 1) as u64
    }
}

/// The state of the signed cloud layer: its generation, and the layer itself
/// with its answers, where one is published.
#[derive(Debug)]
pub struct CloudOverlay {
    pub generation: u64,
    pub layer: Option<SignedLayer>,
}

/// The view of the layer of an overlay.
pub open spec fn overlay_view(overlay: &CloudOverlay) -> Option<SignedView> {
    match overlay.layer {
        Some(layer) => Some(layer@),
        None => None,
    }
}

fn overlay_layer(overlay: &CloudOverlay) -> (r: Option<&SignedLayer>)
    ensures
        layer_view(r) == overlay_view(overlay),
{
    match &overlay.layer {
        Some(layer) => Some(layer),
        None => None,
    }
}

/// A memoized merge, tagged with the generations that it was computed from.
struct MergedEntry {
    generation: u64,
    cloud_generation: u64,
    snapshot: CatalogSnapshot,
    signed: Ghost<Option<SignedView>>,
}

/// A memoized route resolver, tagged with what it was computed from.
struct ResolverEntry {
    provider: ApiProvider,
    catalog_key: String,
    fingerprint: String,
    generation: u64,
    cloud_generation: u64,
    status_is_fresh: bool,
    endpoint_catalog_authoritative: bool,
    offerings: Vec<ProviderModelOffering>,
    inputs: Ghost<RuntimeInputs>,
    identity: Ghost<Option<Seq<char>>>,
}

/// The catalog layers and their memoized views.
pub struct ProviderLake {
    bundled: CatalogSnapshot,
    curated: Vec<ProviderModelOffering>,
    go: GoRoster,
    live: LiveSnapshotPartitions,
    generation: u64,
    merged: Option<MergedEntry>,
    resolvers: Vec<ResolverEntry>,
}

/// What a memoized route resolver is for: a provider, its partition and the
/// fingerprint of its endpoint.
pub type ResolverKey = (ApiProvider, Seq<char>, Seq<char>);

/// What a route resolver was computed from, besides the live rows.
#[verifier::ext_equal]
pub struct ResolverMemo {
    pub fresh: bool,
    pub cloud_generation: u64,
    pub inputs: RuntimeInputs,
}

spec fn entry_key(e: ResolverEntry) -> ResolverKey {
    (e.provider, e.catalog_key@, e.fingerprint@)
}

spec fn entry_memo(e: ResolverEntry) -> ResolverMemo {
    ResolverMemo {
        fresh: e.status_is_fresh,
        cloud_generation: e.cloud_generation,
        inputs: e.inputs@,
    }
}

spec fn entry_is_at(entries: Seq<ResolverEntry>, key: ResolverKey, i: int) -> bool {
    0 <= i < entries.len() && entry_key(entries[i]) == key
}

/// Whether no two memoized resolvers are for the same route.
spec fn keys_are_distinct(entries: Seq<ResolverEntry>) -> bool {
    forall|i: int, j: int|
        0 <= i < j < entries.len() ==> entry_key(#[trigger] entries[i]) != entry_key(
            #[trigger] entries[j],
        )
}

/// The memoized resolvers, by what they are for.
spec fn memo_of(entries: Seq<ResolverEntry>) -> Map<ResolverKey, ResolverMemo> {
    Map::new(
        |key: ResolverKey| exists|i: int| #[trigger] entry_is_at(entries, key, i),
        |key: ResolverKey| entry_memo(entries[choose|i: int| #[trigger] entry_is_at(entries, key, i)]),
    )
}

proof fn lemma_memo_at(entries: Seq<ResolverEntry>, key: ResolverKey)
    requires
        keys_are_distinct(entries),
    ensures
        forall|i: int| #[trigger]
            entry_is_at(entries, key, i) ==> memo_of(entries).dom().contains(key) && memo_of(
                entries,
            )[key] == entry_memo(entries[i]),
        (forall|i: int| !#[trigger] entry_is_at(entries, key, i)) ==> !memo_of(
            entries,
        ).dom().contains(key),
{
    assert forall|i: int| #[trigger] entry_is_at(entries, key, i) implies memo_of(
        entries,
    ).dom().contains(key) && memo_of(entries)[key] == entry_memo(entries[i]) by {
        let k = choose|k: int| #[trigger] entry_is_at(entries, key, k);
        assert(entry_is_at(entries, key, k));
        if k < i {
            assert(entry_key(entries[k]) != entry_key(entries[i]));
        } else if i < k {
            assert(entry_key(entries[i]) != entry_key(entries[k]));
        }
    }
}

/// Putting a resolver in, in the place of the one for the same route or at the
/// end, puts its memo in.
proof fn lemma_memo_put(before: Seq<ResolverEntry>, after: Seq<ResolverEntry>, e: ResolverEntry)
    requires
        keys_are_distinct(before),
        (exists|j: int| #[trigger]
            entry_is_at(before, entry_key(e), j) && after == before.update(j, e)) || ((
        forall|j: int| !#[trigger] entry_is_at(before, entry_key(e), j)) && after
            == before.push(e)),
    ensures
        keys_are_distinct(after),
        memo_of(after) == memo_of(before).insert(entry_key(e), entry_memo(e)),
{
    let found = exists|j: int| #[trigger]
        entry_is_at(before, entry_key(e), j) && after == before.update(j, e);
    let p = if found {
        choose|j: int| #[trigger]
            entry_is_at(before, entry_key(e), j) && after == before.update(j, e)
    } else {
        before.len() as int
    };
    assert(after[p] == e);
    assert forall|i: int, j: int| 0 <= i < j < after.len() implies entry_key(
        #[trigger] after[i],
    ) != entry_key(#[trigger] after[j]) by {
        if i == p {
            assert(after[j] == before[j]);
            if entry_key(before[j]) == entry_key(e) {
                assert(entry_is_at(before, entry_key(e), j));
                assert(entry_key(before[p]) != entry_key(before[j]));
            }
        } else if j == p {
            assert(after[i] == before[i]);
            if entry_key(before[i]) == entry_key(e) {
                assert(entry_is_at(before, entry_key(e), i));
                assert(entry_key(before[i]) != entry_key(before[p]));
            }
        } else {
            assert(after[i] == before[i] && after[j] == before[j]);
            assert(entry_key(before[i]) != entry_key(before[j]));
        }
    }
    let want = memo_of(before).insert(entry_key(e), entry_memo(e));
    assert forall|key: ResolverKey|
        #![trigger memo_of(after).dom().contains(key)]
        memo_of(after).dom().contains(key) == want.dom().contains(key) && (memo_of(
            after,
        ).dom().contains(key) ==> memo_of(after)[key] == want[key]) by {
        lemma_memo_at(before, key);
        lemma_memo_at(after, key);
        if key == entry_key(e) {
            assert(entry_is_at(after, key, p));
        } else if exists|i: int| #[trigger] entry_is_at(before, key, i) {
            let i = choose|i: int| #[trigger] entry_is_at(before, key, i);
            assert(after[i] == before[i]);
            assert(entry_is_at(after, key, i));
        } else {
            assert forall|i: int| !#[trigger] entry_is_at(after, key, i) by {
                if entry_is_at(after, key, i) {
                    assert(i != p);
                    assert(after[i] == before[i]);
                    assert(entry_is_at(before, key, i));
                }
            }
        }
    }
    assert(memo_of(after).dom() =~= want.dom());
    assert(memo_of(after) =~= want);
}

impl ProviderLake {
    /// The live partitions.
    pub closed spec fn live(&self) -> LiveView {
        self.live@
    }

    /// The bundled offline rows.
    pub closed spec fn bundled(&self) -> Seq<OfferingView> {
        self.bundled@
    }

    /// The curated route rows.
    pub closed spec fn curated(&self) -> Seq<RouteRow> {
        routes_of(self.curated@)
    }

    /// The documented OpenCode Go roster.
    pub closed spec fn go(&self) -> Seq<GoModelView> {
        self.go@
    }

    /// The generation of the live partitions.
    pub closed spec fn generation(&self) -> u64 {
        self.generation
    }

    /// The cloud generation of the memoized merge, with the signed layer that it
    /// was computed with.
    pub closed spec fn merged_with(&self) -> Option<(u64, Option<SignedView>)> {
        match self.merged {
            Some(e) => Some((e.cloud_generation, e.signed@)),
            None => None,
        }
    }

    /// The signed layer that the merged view of a cloud generation rests on: the
    /// one it was first computed with, until the live partitions change.
    pub open spec fn signed_for(&self, cloud_generation: u64, given: Option<SignedView>) -> Option<
        SignedView,
    > {
        match self.merged_with() {
            Some((g, signed)) => if g == cloud_generation {
                signed
            } else {
                given
            },
            None => given,
        }
    }

    /// The rows of the merged view under a cloud overlay.
    pub open spec fn merged_view(&self, cloud_generation: u64, given: Option<SignedView>) -> Seq<
        OfferingView,
    > {
        merged_rows(
            self.live(),
            self.bundled(),
            self.go(),
            self.signed_for(cloud_generation, given),
        )
    }

    /// What the memoized route resolvers were computed from.
    pub closed spec fn resolved_with(&self) -> Map<ResolverKey, ResolverMemo> {
        memo_of(self.resolvers@)
    }

    /// What a route resolver rests on besides the live rows: what the memoized one
    /// of the same freshness and cloud generation was computed from, where there is
    /// one.
    pub open spec fn inputs_for(
        &self,
        key: ResolverKey,
        fresh: bool,
        cloud_generation: u64,
        given: RuntimeInputs,
    ) -> RuntimeInputs {
        let memo = self.resolved_with()[key];
        if self.resolved_with().dom().contains(key) && memo.fresh == fresh
            && memo.cloud_generation == cloud_generation {
            memo.inputs
        } else {
            given
        }
    }

    /// Nothing is memoized.
    pub open spec fn no_memo(&self) -> bool {
        self.merged_with() is None && self.resolved_with() =~= Map::empty()
    }

    /// Every memoized view is of the current generation and equals what its
    /// inputs give.
    pub closed spec fn wf(&self) -> bool {
        &&& self.live.wf()
        &&& match self.merged {
            Some(e) => e.generation == self.generation && e.snapshot@ == merged_rows(
                self.live@,
                self.bundled@,
                self.go@,
                e.signed@,
            ),
            None => true,
        }
        &&& keys_are_distinct(self.resolvers@)
        &&& forall|i: int|
            0 <= i < self.resolvers@.len() ==> self.resolver_wf(#[trigger] self.resolvers@[i])
    }

    spec fn resolver_wf(&self, e: ResolverEntry) -> bool {
        &&& e.generation == self.generation
        &&& e.catalog_key@ == trim(catalog_id_for_identity(e.provider, e.identity@))
        &&& e.endpoint_catalog_authoritative == endpoint_authoritative(
            self.live@,
            e.provider,
            e.identity@,
            e.fingerprint@,
            e.status_is_fresh,
        )
        &&& routes_of(e.offerings@) == values_in_order(
            runtime_routes(
                self.live@,
                e.provider,
                e.identity@,
                e.fingerprint@,
                e.status_is_fresh,
                e.inputs@,
            ),
        )
    }

    /// A lake over the offline layers, with no live rows.
    #[must_use]
    pub fn new(
        bundled: CatalogSnapshot,
        curated: Vec<ProviderModelOffering>,
        go: GoRoster,
    ) -> (r: ProviderLake)
        ensures
            r.wf(),
            r.bundled() == bundled@,
            r.curated() == routes_of(curated@),
            r.go() == go@,
            r.live() == (LiveView { models_dev: None, per_provider: Map::empty() }),
            r.generation() == 0,
            r.no_memo(),
    {
        ProviderLake {
            bundled,
            curated,
            go,
            live: LiveSnapshotPartitions::new(),
            generation: 0,
            merged: None,
            resolvers: Vec::new(),
        }
    }

    /// The live partitions.
    pub fn live_partitions(&self) -> (r: &LiveSnapshotPartitions)
        requires
            self.wf(),
        ensures
            r.wf(),
            r@ == self.live(),
    {
        &self.live
    }

    /// The bundled offline rows.
    pub fn bundled_snapshot(&self) -> (r: &CatalogSnapshot)
        ensures
            r@ == self.bundled(),
    {
        &self.bundled
    }

    /// Whether the merged view of a cloud generation is memoized.
    #[must_use]
    pub fn merge_is_memoized(&self, cloud_generation: u64) -> (r: bool)
        ensures
            r == (self.merged_with() is Some && (self.merged_with()->0).0 == cloud_generation),
    {
        match &self.merged {
            Some(e) => e.cloud_generation == cloud_generation,
            None => false,
        }
    }

    /// The generation of the live partitions.
    #[must_use]
    pub fn live_generation(&self) -> (r: u64)
        ensures
            r == self.generation(),
    {
        self.generation
    }
}

/// What changes when the live partitions change: the generation moves on and
/// nothing stays memoized.
pub open spec fn lake_changed(before: ProviderLake, after: ProviderLake, live: LiveView) -> bool {
    &&& after.wf()
    &&& after.live() == live
    &&& after.generation() == next_generation(before.generation())
    &&& after.no_memo()
    &&& same_offline_layers(before, after)
}

/// Whether two lakes have the same offline layers.
pub open spec fn same_offline_layers(before: ProviderLake, after: ProviderLake) -> bool {
    &&& after.bundled() == before.bundled()
    &&& after.curated() == before.curated()
    &&& after.go() == before.go()
}

/// What stays when the live partitions do not change: everything, memoized views
/// too.
pub open spec fn lake_kept(before: ProviderLake, after: ProviderLake) -> bool {
    &&& after.wf()
    &&& after.live() == before.live()
    &&& after.generation() == before.generation()
    &&& same_memo(before, after)
    &&& same_offline_layers(before, after)
}

/// Whether two lakes have the same memoized views.
pub open spec fn same_memo(before: ProviderLake, after: ProviderLake) -> bool {
    before.merged_with() == after.merged_with() && before.resolved_with() == after.resolved_with()
}

/// Move the generation on and forget what was memoized.
fn invalidate(lake: &mut ProviderLake)
    requires
        old(lake).live.wf(),
    ensures
        lake_changed(*old(lake), *final(lake), old(lake).live@),
{
    lake.generation = if lake.generation == u64::MAX {
        0
    } else {
        lake.generation + 1
    };
    lake.merged = None;
    lake.resolvers = Vec::new();
}

/// Set the live-catalog snapshot for a given source.
///
/// A Models.dev refresh replaces only the Models.dev rows; a per-provider
/// refresh replaces only the partitions of the providers that its rows name.
/// Other providers and sources are preserved.
pub fn set_live_snapshot(lake: &mut ProviderLake, snapshot: CatalogSnapshot, source: LiveSource)
    requires
        old(lake).wf(),
    ensures
        if source == LiveSource::ModelsDev || cut_rows(snapshot@, old(lake).go()).len() > 0 {
            lake_changed(
                *old(lake),
                *final(lake),
                live_after_set(old(lake).live(), snapshot@, source, old(lake).go()),
            )
        } else {
            lake_kept(*old(lake), *final(lake))
        },
{
    let changed: bool = lake.live.set(snapshot, source, &lake.go);
    if changed {
        invalidate(lake);
    }
}

/// Replace one exact provider-owned live partition, with no rows too.
///
/// [`set_live_snapshot`] derives partitions from rows, so an empty snapshot
/// cannot say which previous partition should disappear.
pub fn replace_provider_live_snapshot(
    lake: &mut ProviderLake,
    provider: &str,
    snapshot: CatalogSnapshot,
)
    requires
        old(lake).wf(),
    ensures
        trim(provider@).len() == 0 ==> *final(lake) == *old(lake),
        trim(provider@).len() > 0 ==> partition_replaced(
            *old(lake),
            *final(lake),
            inferred_owner(provider@),
            snapshot@,
        ),
{
    let name: &str = trimmed(provider);
    if name.unicode_len() == 0 {
        return;
    }
    proof {
        trim_keeps_the_middle(provider@);
    }
    let owner: LivePartitionOwner = inferred_live_partition_owner(name);
    replace_provider_live_snapshot_for_owner(lake, owner, snapshot);
}

/// Whether the lake had one partition replaced: the generation moves on exactly
/// when the partition changed.
pub open spec fn partition_replaced(
    before: ProviderLake,
    after: ProviderLake,
    owner: OwnerView,
    rows: Seq<OfferingView>,
) -> bool {
    let live = live_after_replace(before.live(), owner, rows, before.go());
    if live == before.live() {
        lake_kept(before, after)
    } else {
        lake_changed(before, after, live)
    }
}

/// Replace one provider-owned partition with an explicit route-kind boundary.
///
/// Callers that know the concrete route use this form.
pub fn replace_provider_live_snapshot_for_identity(
    lake: &mut ProviderLake,
    provider: ApiProvider,
    provider_identity: &str,
    snapshot: CatalogSnapshot,
)
    requires
        old(lake).wf(),
    ensures
        partition_replaced(
            *old(lake),
            *final(lake),
            route_owner(provider, Some(provider_identity@)),
            snapshot@,
        ),
{
    let owner: LivePartitionOwner = live_partition_owner_for_route(
        provider,
        Some(provider_identity),
    );
    proof {
        catalog_ids_are_trimmed(provider, Some(provider_identity@));
    }
    if owner.identity().unicode_len() == 0 {
        return;
    }
    replace_provider_live_snapshot_for_owner(lake, owner, snapshot);
}

/// Replace one provider-owned partition.
pub fn replace_provider_live_snapshot_for_owner(
    lake: &mut ProviderLake,
    owner: LivePartitionOwner,
    snapshot: CatalogSnapshot,
)
    requires
        old(lake).wf(),
    ensures
        partition_replaced(*old(lake), *final(lake), owner@, snapshot@),
{
    let changed: bool = lake.live.replace(&owner, snapshot, &lake.go);
    if changed {
        invalidate(lake);
    }
}

/// Clear all live snapshots, the Models.dev one and the per-provider ones.
pub fn clear_live_snapshot(lake: &mut ProviderLake)
    requires
        old(lake).wf(),
    ensures
        lake_changed(
            *old(lake),
            *final(lake),
            (LiveView { models_dev: None, per_provider: Map::empty() }),
        ),
{
    lake.live.clear();
    invalidate(lake);
}

/// Merge additional live offerings into provider-scoped live partitions.
///
/// Rows are merged by wire model id within the partition of the provider that
/// they name; every other provider and the Models.dev rows are preserved.
pub fn merge_live_offerings(lake: &mut ProviderLake, new_offerings: Vec<CatalogOffering>)
    requires
        old(lake).wf(),
    ensures
        new_offerings@.len() == 0 ==> *final(lake) == *old(lake),
        new_offerings@.len() > 0 ==> lake_changed(
            *old(lake),
            *final(lake),
            live_after_merge(old(lake).live(), rows_of(new_offerings@)),
        ),
{
    if new_offerings.len() == 0 {
        return;
    }
    lake.live.merge(new_offerings);
    invalidate(lake);
}

/// Whether a row is the model `needle` of the provider listed as `name`, up to
/// case.
pub open spec fn row_is(row: OfferingView, name: Seq<char>, needle: Seq<char>) -> bool {
    lower(row.provider) == lower(name) && lower(row.wire_model_id) == lower(needle)
}

/// Whether some row is the model `needle` of the provider listed as `name`.
pub open spec fn some_row_is(rows: Seq<OfferingView>, name: Seq<char>, needle: Seq<char>) -> bool {
    exists|i: int| 0 <= i < rows.len() && row_is(#[trigger] rows[i], name, needle)
}

/// The live partition that holds a model, the provider's own before Models.dev.
pub open spec fn live_origin(
    live: LiveView,
    provider: ApiProvider,
    wire_model_id: Seq<char>,
) -> Option<LiveSource> {
    let name = catalog_id(provider);
    let key = owner_key(OwnerView::BuiltIn(trim(name)));
    let needle = trim(wire_model_id);
    if needle.len() == 0 {
        None
    } else if live.per_provider.dom().contains(key) && some_row_is(
        live.per_provider[key],
        name,
        needle,
    ) {
        Some(LiveSource::PerProvider)
    } else if live.models_dev is Some && some_row_is(live.models_dev->0, name, needle) {
        Some(LiveSource::ModelsDev)
    } else {
        None
    }
}

fn any_row_is(rows: &Vec<CatalogOffering>, name: &str, needle: &str) -> (r: bool)
    ensures
        r == some_row_is(rows_of(rows@), name@, needle@),
{
    let mut i: usize = 0;
    while i < rows.len()
        invariant
            i <= rows.len(),
            forall|k: int| 0 <= k < i ==> !row_is(#[trigger] rows_of(rows@)[k], name@, needle@),
        decreases rows.len() - i,
    {
        assert(rows_of(rows@)[i as int] == rows@[i as int]@);
        if same_ignoring_case(rows[i].provider.as_str(), name) && same_ignoring_case(
            rows[i].wire_model_id.as_str(),
            needle,
        ) {
            return true;
        }
        i += 1;
    }
    false
}

/// Which live partition currently holds a model, if any.
///
/// Provider-owned rows win on collision, as they do in the merged view. Pricing
/// uses this so that a Models.dev overlay is never treated as a rate source.
#[must_use]
pub fn live_catalog_origin(
    lake: &ProviderLake,
    provider: ApiProvider,
    wire_model_id: &str,
) -> (r: Option<LiveSource>)
    requires
        lake.wf(),
    ensures
        r == live_origin(lake.live(), provider, wire_model_id@),
{
    let name: &str = catalog_provider_id(provider);
    let owner = LivePartitionOwner::BuiltIn(catalog_partition_key(name));
    let needle: &str = trimmed(wire_model_id);
    if needle.unicode_len() == 0 {
        return None;
    }
    if let Some(snapshot) = lake.live.partition(&owner) {
        if any_row_is(&snapshot.offerings, name, needle) {
            return Some(LiveSource::PerProvider);
        }
    }
    if let Some(snapshot) = lake.live.models_dev() {
        if any_row_is(&snapshot.offerings, name, needle) {
            return Some(LiveSource::ModelsDev);
        }
    }
    None
}

/// Compute the merged view of a cloud overlay, unless it is memoized.
fn ensure_merged(lake: &mut ProviderLake, overlay: &CloudOverlay)
    requires
        old(lake).wf(),
    ensures
        final(lake).wf(),
        final(lake).live() == old(lake).live(),
        final(lake).generation() == old(lake).generation(),
        same_offline_layers(*old(lake), *final(lake)),
        final(lake).resolvers == old(lake).resolvers,
        final(lake).merged is Some,
        final(lake).merged_with() == Some(
            (
                overlay.generation,
                old(lake).signed_for(overlay.generation, overlay_view(overlay)),
            ),
        ),
        (final(lake).merged->0).snapshot@ == old(lake).merged_view(
            overlay.generation,
            overlay_view(overlay),
        ),
{
    if !lake.merge_is_memoized(overlay.generation) {
        let snapshot: CatalogSnapshot = compute_merged_snapshot(
            &lake.live,
            &lake.bundled,
            &lake.go,
            overlay_layer(overlay),
        );
        lake.merged = Some(
            MergedEntry {
                generation: lake.generation,
                cloud_generation: overlay.generation,
                snapshot,
                signed: Ghost(overlay_view(overlay)),
            },
        );
    }
}

/// What a read of the merged view leaves: only the memo of that view may have
/// been filled in.
pub open spec fn merge_memoized(
    before: ProviderLake,
    after: ProviderLake,
    overlay: &CloudOverlay,
) -> bool {
    &&& after.wf()
    &&& after.live() == before.live()
    &&& after.generation() == before.generation()
    &&& same_offline_layers(before, after)
    &&& after.merged_with() == Some(
        (overlay.generation, before.signed_for(overlay.generation, overlay_view(overlay))),
    )
    &&& after.resolved_with() == before.resolved_with()
}

/// The merged catalog snapshot.
///
/// Memoized: the merge is recomputed only after the live partitions changed or
/// for another cloud generation.
pub fn merged_snapshot(lake: &mut ProviderLake, overlay: &CloudOverlay) -> (r: CatalogSnapshot)
    requires
        old(lake).wf(),
    ensures
        merge_memoized(*old(lake), *final(lake), overlay),
        r@ == old(lake).merged_view(overlay.generation, overlay_view(overlay)),
{
    ensure_merged(lake, overlay);
    match &lake.merged {
        Some(e) => e.snapshot.clone(),
        None => CatalogSnapshot::default(),
    }
}

/// The live rows of a custom provider table.
pub open spec fn custom_rows(live: LiveView, identity: Seq<char>) -> Seq<OfferingView> {
    let key = owner_key(OwnerView::Custom(trim(identity)));
    if trim(identity).len() > 0 && live.per_provider.dom().contains(key) {
        live.per_provider[key]
    } else {
        Seq::empty()
    }
}

/// The rows that a catalog lists for a partition.
pub open spec fn rows_in_partition(rows: Seq<OfferingView>, name: Seq<char>) -> Seq<OfferingView> {
    rows.filter(|row: OfferingView| trim(row.provider) == trim(name))
}

/// The catalog rows of a concrete route: a custom route has the rows of its own
/// table, every other route those of the merged view.
pub open spec fn identity_rows(
    live: LiveView,
    merged: Seq<OfferingView>,
    provider: ApiProvider,
    identity: Option<Seq<char>>,
) -> Seq<OfferingView> {
    let name = catalog_id_for_identity(provider, identity);
    if provider == ApiProvider::Custom {
        custom_rows(live, name)
    } else {
        rows_in_partition(merged, name)
    }
}

/// The live rows of a custom provider table.
#[must_use]
pub fn exact_custom_offerings(lake: &ProviderLake, provider_identity: &str) -> (r: Vec<
    CatalogOffering,
>)
    requires
        lake.wf(),
    ensures
        rows_of(r@) == custom_rows(lake.live(), provider_identity@),
{
    let name: &str = trimmed(provider_identity);
    let none: Vec<CatalogOffering> = Vec::new();
    assert(rows_of(none@) =~= Seq::<OfferingView>::empty());
    if name.unicode_len() == 0 {
        return none;
    }
    let owner = LivePartitionOwner::Custom(catalog_partition_key(provider_identity));
    match lake.live.partition(&owner) {
        Some(snapshot) => copied_rows(&snapshot.offerings),
        None => none,
    }
}

/// The rows that a snapshot lists for a partition.
#[must_use]
pub fn offerings_for_provider_identity(snapshot: &CatalogSnapshot, provider_id: &str) -> (r: Vec<
    CatalogOffering,
>)
    ensures
        rows_of(r@) == rows_in_partition(snapshot@, provider_id@),
{
    rows_named(&snapshot.offerings, trimmed(provider_id))
}

/// The catalog rows of a concrete route.
fn rows_for_identity(
    lake: &mut ProviderLake,
    overlay: &CloudOverlay,
    provider: ApiProvider,
    provider_identity: Option<&str>,
) -> (r: Vec<CatalogOffering>)
    requires
        old(lake).wf(),
    ensures
        merge_memoized(*old(lake), *final(lake), overlay),
        rows_of(r@) == identity_rows(
            old(lake).live(),
            old(lake).merged_view(overlay.generation, overlay_view(overlay)),
            provider,
            optional_str(provider_identity),
        ),
{
    let name: String = catalog_provider_id_for_identity(provider, provider_identity);
    ensure_merged(lake, overlay);
    if provider == ApiProvider::Custom {
        exact_custom_offerings(lake, name.as_str())
    } else {
        match &lake.merged {
            Some(e) => offerings_for_provider_identity(&e.snapshot, name.as_str()),
            None => Vec::new(),
        }
    }
}

/// Model names that do not come from a catalog.
#[derive(Debug)]
pub struct ModelNames {
    /// The models of the Codex account roster.
    pub codex: Vec<String>,
    /// The compatibility names of the provider.
    pub completion: Vec<String>,
}

/// The model ids of a provider route: the Codex account roster for that
/// provider, otherwise its catalog rows, and the compatibility names when it has
/// none.
pub open spec fn identity_models(
    rows: Seq<OfferingView>,
    provider: ApiProvider,
    codex: Seq<Seq<char>>,
    completion: Seq<Seq<char>>,
) -> Seq<Seq<char>> {
    if provider == ApiProvider::OpenaiCodex {
        codex
    } else if catalog_models(rows).len() == 0 {
        with_models(Seq::empty(), completion)
    } else {
        catalog_models(rows)
    }
}

/// A copy of a list of strings.
pub fn copied_names(names: &Vec<String>) -> (r: Vec<String>)
    ensures
        texts(r@) == texts(names@),
{
    let mut out: Vec<String> = Vec::new();
    let mut i: usize = 0;
    while i < names.len()
        invariant
            i <= names.len(),
            out.len() == i,
            forall|k: int| 0 <= k < i ==> (#[trigger] out@[k])@ == names@[k]@,
        decreases names.len() - i,
    {
        out.push(names[i].clone());
        i += 1;
    }
    assert(texts(out@) =~= texts(names@));
    out
}

/// Catalog-backed model ids for one provider.
#[must_use]
pub fn all_catalog_models_for_provider(
    lake: &mut ProviderLake,
    overlay: &CloudOverlay,
    names: &ModelNames,
    provider: ApiProvider,
) -> (r: Vec<String>)
    requires
        old(lake).wf(),
    ensures
        provider == ApiProvider::OpenaiCodex ==> *final(lake) == *old(lake),
        provider != ApiProvider::OpenaiCodex ==> merge_memoized(
            *old(lake),
            *final(lake),
            overlay,
        ),
        texts(r@) == identity_models(
            identity_rows(
                old(lake).live(),
                old(lake).merged_view(overlay.generation, overlay_view(overlay)),
                provider,
                None,
            ),
            provider,
            texts(names.codex@),
            texts(names.completion@),
        ),
{
    all_catalog_models_for_provider_identity(lake, overlay, names, provider, None)
}

/// Catalog-backed model ids for one exact provider route.
///
/// ChatGPT availability is account-scoped, so the Codex provider has a separate
/// source. Named custom routes use their identity, so one host's rows remain
/// isolated from every other custom host.
#[must_use]
pub fn all_catalog_models_for_provider_identity(
    lake: &mut ProviderLake,
    overlay: &CloudOverlay,
    names: &ModelNames,
    provider: ApiProvider,
    provider_identity: Option<&str>,
) -> (r: Vec<String>)
    requires
        old(lake).wf(),
    ensures
        provider == ApiProvider::OpenaiCodex ==> *final(lake) == *old(lake),
        provider != ApiProvider::OpenaiCodex ==> merge_memoized(
            *old(lake),
            *final(lake),
            overlay,
        ),
        texts(r@) == identity_models(
            identity_rows(
                old(lake).live(),
                old(lake).merged_view(overlay.generation, overlay_view(overlay)),
                provider,
                optional_str(provider_identity),
            ),
            provider,
            texts(names.codex@),
            texts(names.completion@),
        ),
{
    if provider == ApiProvider::OpenaiCodex {
        return copied_names(&names.codex);
    }
    let rows: Vec<CatalogOffering> = rows_for_identity(lake, overlay, provider, provider_identity);
    let mut models: Vec<String> = catalog_models_from_offerings(&rows);
    if models.len() == 0 {
        assert(texts(models@) =~= Seq::<Seq<char>>::empty());
        push_unique_models(&mut models, &names.completion);
    }
    models
}

/// Tags from the provider's own live listing.
///
/// Models.dev rows must not satisfy a local default: this reads only the
/// provider's own partition.
#[must_use]
pub fn live_per_provider_models(lake: &ProviderLake, provider: ApiProvider) -> (r: Vec<String>)
    requires
        lake.wf(),
    ensures
        texts(r@) == catalog_models(own_rows(lake.live(), provider)),
{
    let owner = LivePartitionOwner::BuiltIn(lowered(catalog_provider_id(provider)));
    match lake.live.partition(&owner) {
        Some(snapshot) => catalog_models_from_offerings(&snapshot.offerings),
        None => {
            let none: Vec<CatalogOffering> = Vec::new();
            assert(rows_of(none@) =~= Seq::<OfferingView>::empty());
            catalog_models_from_offerings(&none)
        },
    }
}

/// The rows of a built-in provider's own live listing.
pub open spec fn own_rows(live: LiveView, provider: ApiProvider) -> Seq<OfferingView> {
    let key = owner_key(OwnerView::BuiltIn(lower(catalog_id(provider))));
    if live.per_provider.dom().contains(key) {
        live.per_provider[key]
    } else {
        Seq::empty()
    }
}

/// The first row for a model id, up to case.
pub open spec fn first_row(rows: Seq<OfferingView>, needle: Seq<char>) -> Option<OfferingView>
    decreases rows.len(),
{
    if rows.len() == 0 {
        None
    } else if lower(rows[0].wire_model_id) == lower(needle) {
        Some(rows[0])
    } else {
        first_row(rows.drop_first(), needle)
    }
}

/// The view of an optional row.
pub open spec fn optional_row(row: Option<CatalogOffering>) -> Option<OfferingView> {
    match row {
        Some(r) => Some(r@),
        None => None,
    }
}

/// The first row for a model id, up to case.
fn find_row(rows: &Vec<CatalogOffering>, needle: &str) -> (r: Option<CatalogOffering>)
    ensures
        optional_row(r) == first_row(rows_of(rows@), needle@),
{
    let ghost all = rows_of(rows@);
    let mut i: usize = 0;
    assert(all.skip(0) =~= all);
    while i < rows.len()
        invariant
            i <= rows.len(),
            all == rows_of(rows@),
            first_row(all, needle@) == first_row(all.skip(i as int), needle@),
        decreases rows.len() - i,
    {
        proof {
            assert(all.skip(i as int)[0] == rows@[i as int]@);
            assert(all.skip(i as int).drop_first() =~= all.skip(i + 1));
        }
        if same_ignoring_case(rows[i].wire_model_id.as_str(), needle) {
            return Some(rows[i].clone());
        }
        i += 1;
    }
    None
}

/// The catalog row of a model on a concrete route.
pub open spec fn identity_offering(
    rows: Seq<OfferingView>,
    provider: ApiProvider,
    wire_model_id: Seq<char>,
) -> Option<OfferingView> {
    if provider == ApiProvider::OpenaiCodex || trim(wire_model_id).len() == 0 {
        None
    } else {
        first_row(rows, trim(wire_model_id))
    }
}

/// Whether looking up a model reads the merged view: not for the Codex account,
/// for a blank id, or for a custom route, which has a table of its own.
pub open spec fn lookup_reads_the_merge(provider: ApiProvider, wire_model_id: Seq<char>) -> bool {
    provider != ApiProvider::OpenaiCodex && provider != ApiProvider::Custom && trim(
        wire_model_id,
    ).len() > 0
}

/// Look up a merged-catalog offering for a model of a provider.
#[must_use]
pub fn catalog_offering_for_model(
    lake: &mut ProviderLake,
    overlay: &CloudOverlay,
    provider: ApiProvider,
    wire_model_id: &str,
) -> (r: Option<CatalogOffering>)
    requires
        old(lake).wf(),
    ensures
        if lookup_reads_the_merge(provider, wire_model_id@) {
            merge_memoized(*old(lake), *final(lake), overlay)
        } else {
            *final(lake) == *old(lake)
        },
        optional_row(r) == identity_offering(
            identity_rows(
                old(lake).live(),
                old(lake).merged_view(overlay.generation, overlay_view(overlay)),
                provider,
                None,
            ),
            provider,
            wire_model_id@,
        ),
{
    catalog_offering_for_model_identity(lake, overlay, provider, None, wire_model_id)
}

/// Look up a merged-catalog offering for one exact provider route.
///
/// The live-over-bundled row is answered where there is one.
#[must_use]
pub fn catalog_offering_for_model_identity(
    lake: &mut ProviderLake,
    overlay: &CloudOverlay,
    provider: ApiProvider,
    provider_identity: Option<&str>,
    wire_model_id: &str,
) -> (r: Option<CatalogOffering>)
    requires
        old(lake).wf(),
    ensures
        if lookup_reads_the_merge(provider, wire_model_id@) {
            merge_memoized(*old(lake), *final(lake), overlay)
        } else {
            *final(lake) == *old(lake)
        },
        optional_row(r) == identity_offering(
            identity_rows(
                old(lake).live(),
                old(lake).merged_view(overlay.generation, overlay_view(overlay)),
                provider,
                optional_str(provider_identity),
            ),
            provider,
            wire_model_id@,
        ),
{
    if provider == ApiProvider::OpenaiCodex {
        return None;
    }
    let needle: &str = trimmed(wire_model_id);
    if needle.unicode_len() == 0 {
        return None;
    }
    if provider == ApiProvider::Custom {
        let name: String = catalog_provider_id_for_identity(provider, provider_identity);
        let rows: Vec<CatalogOffering> = exact_custom_offerings(lake, name.as_str());
        return find_row(&rows, needle);
    }
    let rows: Vec<CatalogOffering> = rows_for_identity(lake, overlay, provider, provider_identity);
    find_row(&rows, needle)
}

/// Look up the bundled offering for a model, ignoring any live rows over it.
///
/// Pricing uses this as a fallback when a live row cannot be verified as
/// authoritative for the endpoint being priced.
#[must_use]
pub fn bundled_catalog_offering_for_model(
    lake: &ProviderLake,
    provider: ApiProvider,
    wire_model_id: &str,
) -> (r: Option<CatalogOffering>)
    ensures
        optional_row(r) == identity_offering(
            rows_for_provider(lake.bundled(), catalog_id(provider)),
            provider,
            wire_model_id@,
        ),
{
    if provider == ApiProvider::OpenaiCodex {
        return None;
    }
    let needle: &str = trimmed(wire_model_id);
    if needle.unicode_len() == 0 {
        return None;
    }
    let rows: Vec<CatalogOffering> = lake.bundled.offerings_for_provider(
        catalog_provider_id(provider),
    );
    find_row(&rows, needle)
}

/// Count of merged-catalog models for one provider.
#[must_use]
pub fn catalog_model_count_for_provider(
    lake: &mut ProviderLake,
    overlay: &CloudOverlay,
    names: &ModelNames,
    provider: ApiProvider,
) -> (r: usize)
    requires
        old(lake).wf(),
    ensures
        provider == ApiProvider::OpenaiCodex ==> *final(lake) == *old(lake),
        provider != ApiProvider::OpenaiCodex ==> merge_memoized(
            *old(lake),
            *final(lake),
            overlay,
        ),
        r == identity_models(
            identity_rows(
                old(lake).live(),
                old(lake).merged_view(overlay.generation, overlay_view(overlay)),
                provider,
                None,
            ),
            provider,
            texts(names.codex@),
            texts(names.completion@),
        ).len(),
{
    let models: Vec<String> = all_catalog_models_for_provider(lake, overlay, names, provider);
    assert(texts(models@).len() == models@.len());
    models.len()
}

/// Whether a list holds a provider.
pub fn lists_provider(list: &Vec<ApiProvider>, provider: ApiProvider) -> (r: bool)
    ensures
        r == list@.contains(provider),
{
    let mut i: usize = 0;
    while i < list.len()
        invariant
            i <= list.len(),
            forall|k: int| 0 <= k < i ==> list@[k] != provider,
        decreases list.len() - i,
    {
        if list[i] == provider {
            return true;
        }
        i += 1;
    }
    false
}

/// The providers in display order that qualify as configured.
pub open spec fn configured_in_order(configured: Seq<ApiProvider>) -> Seq<ApiProvider> {
    display_order().map_values(|k: ProviderKind| api_of_kind(k)).filter(
        |p: ApiProvider| configured.contains(p),
    )
}

/// Providers the user has set up, in display order.
///
/// `configured` lists the providers that qualify: the active provider, those
/// with working credentials, and those with an explicit configuration entry.
#[must_use]
pub fn configured_providers(configured: &Vec<ApiProvider>) -> (r: Vec<ApiProvider>)
    ensures
        r@ == configured_in_order(configured@),
{
    let all: Vec<ApiProvider> = ApiProvider::sorted_for_display();
    let ghost keep = |p: ApiProvider| configured@.contains(p);
    proof {
        lemma_filter_ends(all@, keep);
    }
    let mut out: Vec<ApiProvider> = Vec::new();
    let mut i: usize = 0;
    while i < all.len()
        invariant
            i <= all.len(),
            keep == (|p: ApiProvider| configured@.contains(p)),
            out@ == all@.take(i as int).filter(keep),
        decreases all.len() - i,
    {
        proof {
            lemma_filter_step(all@, keep, i as int);
        }
        if lists_provider(configured, all[i]) {
            out.push(all[i]);
        }
        i += 1;
    }
    assert(all@.take(i as int) =~= all@);
    out
}

/// A route resolver depends on the identity only through the catalog partition
/// that it denotes.
pub proof fn routes_depend_on_the_partition(
    live: LiveView,
    provider: ApiProvider,
    a: Option<Seq<char>>,
    b: Option<Seq<char>>,
    fingerprint: Seq<char>,
    fresh: bool,
    inputs: RuntimeInputs,
)
    requires
        catalog_id_for_identity(provider, a) == catalog_id_for_identity(provider, b),
    ensures
        endpoint_authoritative(live, provider, a, fingerprint, fresh) == endpoint_authoritative(
            live,
            provider,
            b,
            fingerprint,
            fresh,
        ),
        runtime_routes(live, provider, a, fingerprint, fresh, inputs) == runtime_routes(
            live,
            provider,
            b,
            fingerprint,
            fresh,
            inputs,
        ),
{
    assert(route_owner(provider, a) == route_owner(provider, b));
    assert(transport_id(provider, a) == transport_id(provider, b));
    assert(selected_rows(live, provider, a, fingerprint, fresh) == selected_rows(
        live,
        provider,
        b,
        fingerprint,
        fresh,
    ));
    assert(plain_routes(live, provider, a, fingerprint, fresh, inputs) == plain_routes(
        live,
        provider,
        b,
        fingerprint,
        fresh,
        inputs,
    ));
}

/// What the resolver of a route is memoized under.
pub open spec fn resolver_key(
    provider: ApiProvider,
    provider_identity: Option<&str>,
    endpoint: &RouteEndpoint,
) -> ResolverKey {
    (
        provider,
        catalog_id_for_identity(provider, optional_str(provider_identity)),
        endpoint.fingerprint@,
    )
}

/// What the resolver of a route is made from, besides the live rows.
pub open spec fn runtime_inputs(
    lake: ProviderLake,
    overlay: &CloudOverlay,
    provider: ApiProvider,
    provider_identity: Option<&str>,
    endpoint: &RouteEndpoint,
    status: &CatalogStatus,
) -> RuntimeInputs {
    lake.inputs_for(
        resolver_key(provider, provider_identity, endpoint),
        *status is Fresh,
        overlay.generation,
        RuntimeInputs {
            bundled: lake.bundled(),
            curated: lake.curated(),
            in_signed_scope: endpoint.in_signed_scope,
            signed: overlay_view(overlay),
        },
    )
}

/// Build or reuse the offerings that an exact provider identity resolves
/// against.
///
/// Memoized per provider, partition and endpoint: the offerings are recomputed
/// only after the live partitions changed, for another cloud generation, or when
/// the freshness of the roster differs.
#[must_use]
pub fn runtime_catalog_resolver_for_identity(
    lake: &mut ProviderLake,
    overlay: &CloudOverlay,
    provider: ApiProvider,
    provider_identity: Option<&str>,
    endpoint: &RouteEndpoint,
    status: &CatalogStatus,
) -> (r: RuntimeCatalogResolver)
    requires
        old(lake).wf(),
    ensures
        final(lake).wf(),
        final(lake).live() == old(lake).live(),
        final(lake).generation() == old(lake).generation(),
        final(lake).merged_with() == old(lake).merged_with(),
        same_offline_layers(*old(lake), *final(lake)),
        r.endpoint_catalog_authoritative == endpoint_authoritative(
            old(lake).live(),
            provider,
            optional_str(provider_identity),
            endpoint.fingerprint@,
            *status is Fresh,
        ),
        routes_of(r.offerings@) == values_in_order(
            runtime_routes(
                old(lake).live(),
                provider,
                optional_str(provider_identity),
                endpoint.fingerprint@,
                *status is Fresh,
                runtime_inputs(*old(lake), overlay, provider, provider_identity, endpoint, status),
            ),
        ),
        final(lake).resolved_with() == old(lake).resolved_with().insert(
            resolver_key(provider, provider_identity, endpoint),
            (ResolverMemo {
                fresh: *status is Fresh,
                cloud_generation: overlay.generation,
                inputs: runtime_inputs(
                    *old(lake),
                    overlay,
                    provider,
                    provider_identity,
                    endpoint,
                    status,
                ),
            }),
        ),
{
    let ghost identity = optional_str(provider_identity);
    let ghost name = catalog_id_for_identity(provider, identity);
    let fresh: bool = status.is_fresh();
    let catalog_name: String = catalog_provider_id_for_identity(provider, provider_identity);
    let catalog_key: String = catalog_partition_key(catalog_name.as_str());
    let fingerprint: &str = endpoint.fingerprint.as_str();
    let ghost key = resolver_key(provider, provider_identity, endpoint);
    let ghost known = lake.resolvers@;
    proof {
        catalog_ids_are_trimmed(provider, identity);
        lemma_memo_at(known, key);
    }
    let mut replaced: Option<usize> = None;
    let mut i: usize = 0;
    while i < lake.resolvers.len() && replaced.is_none()
        invariant
            i <= lake.resolvers.len(),
            known == lake.resolvers@,
            *lake == *old(lake),
            key == (provider, catalog_key@, fingerprint@),
            match replaced {
                Some(j) => entry_is_at(known, key, j as int),
                None => forall|k: int| 0 <= k < i ==> !#[trigger] entry_is_at(known, key, k),
            },
        decreases lake.resolvers.len() - i,
    {
        let e: &ResolverEntry = &lake.resolvers[i];
        if e.provider == provider && same_text(e.catalog_key.as_str(), catalog_key.as_str())
            && same_text(e.fingerprint.as_str(), fingerprint) {
            assert(entry_is_at(known, key, i as int));
            replaced = Some(i);
        }
        i += 1;
    }
    if let Some(j) = replaced {
        let e: &ResolverEntry = &lake.resolvers[j];
        if e.cloud_generation == overlay.generation && e.status_is_fresh == fresh {
            proof {
                assert(lake.resolver_wf(lake.resolvers@[j as int]));
                assert(entry_is_at(known, key, j as int));
                catalog_ids_are_trimmed(provider, e.identity@);
                routes_depend_on_the_partition(
                    lake.live@,
                    provider,
                    e.identity@,
                    identity,
                    fingerprint@,
                    fresh,
                    e.inputs@,
                );
                assert(memo_of(known) =~= memo_of(known).insert(key, entry_memo(*e)));
            }
            return RuntimeCatalogResolver {
                offerings: copied_routes(&e.offerings),
                endpoint_catalog_authoritative: e.endpoint_catalog_authoritative,
            };
        }
    }
    let resolver: RuntimeCatalogResolver = compute_runtime_offerings(
        &lake.live,
        &lake.bundled,
        &lake.curated,
        provider,
        provider_identity,
        endpoint,
        fresh,
        overlay_layer(overlay),
    );
    let ghost inputs = RuntimeInputs {
        bundled: lake.bundled@,
        curated: routes_of(lake.curated@),
        in_signed_scope: endpoint.in_signed_scope,
        signed: overlay_view(overlay),
    };
    let entry = ResolverEntry {
        provider,
        catalog_key,
        fingerprint: endpoint.fingerprint.clone(),
        generation: lake.generation,
        cloud_generation: overlay.generation,
        status_is_fresh: fresh,
        endpoint_catalog_authoritative: resolver.endpoint_catalog_authoritative,
        offerings: copied_routes(&resolver.offerings),
        inputs: Ghost(inputs),
        identity: Ghost(identity),
    };
    proof {
        assert(lake.resolver_wf(entry));
    }
    if let Some(j) = replaced {
        lake.resolvers.set(j, entry);
    } else {
        lake.resolvers.push(entry);
    }
    proof {
        let after = lake.resolvers@;
        lemma_memo_put(known, after, entry);
        assert forall|k: int| 0 <= k < after.len() implies lake.resolver_wf(
            #[trigger] after[k],
        ) by {
            if after[k] != entry {
                assert(after[k] == known[k]);
                assert(old(lake).resolver_wf(known[k]));
            }
        }
    }
    resolver
}

/// A change of the live partitions is visible at once: neither a merged view nor
/// a route resolver of before is answered after it.
pub proof fn a_change_is_visible_at_once(
    before: ProviderLake,
    after: ProviderLake,
    live: LiveView,
    cloud_generation: u64,
    given: Option<SignedView>,
    key: ResolverKey,
    fresh: bool,
    inputs: RuntimeInputs,
)
    requires
        lake_changed(before, after, live),
    ensures
        after.merged_view(cloud_generation, given) == merged_rows(
            live,
            before.bundled(),
            before.go(),
            given,
        ),
        after.inputs_for(key, fresh, cloud_generation, inputs) == inputs,
        after.generation() != before.generation(),
{
}

/// Reading the merged view again gives the same rows, until the live partitions
/// change.
pub proof fn merged_reads_repeat(
    before: ProviderLake,
    after: ProviderLake,
    overlay: &CloudOverlay,
    given: Option<SignedView>,
)
    requires
        merge_memoized(before, after, overlay),
    ensures
        after.merged_view(overlay.generation, given) == before.merged_view(
            overlay.generation,
            overlay_view(overlay),
        ),
{
}

/// A route resolver is answered again exactly for the same freshness and cloud
/// generation: for another one it is computed anew.
pub proof fn route_reads_repeat(
    before: ProviderLake,
    after: ProviderLake,
    key: ResolverKey,
    memo: ResolverMemo,
    fresh: bool,
    cloud_generation: u64,
    given: RuntimeInputs,
)
    requires
        after.resolved_with() == before.resolved_with().insert(key, memo),
    ensures
        after.inputs_for(key, fresh, cloud_generation, given) == if fresh == memo.fresh
            && cloud_generation == memo.cloud_generation {
            memo.inputs
        } else {
            given
        },
        forall|other: ResolverKey|
            other != key ==> #[trigger] after.inputs_for(other, fresh, cloud_generation, given)
                == before.inputs_for(other, fresh, cloud_generation, given),
{
}


/// The merged view of another cloud generation is merged anew, and so is the first
/// one; that of the generation that is memoized rests on the layer it was first
/// merged with.
pub proof fn another_cloud_generation_is_merged_anew(
    lake: ProviderLake,
    cloud_generation: u64,
    given: Option<SignedView>,
)
    ensures
        lake.merged_with() is None || (lake.merged_with()->0).0 != cloud_generation
            ==> lake.merged_view(cloud_generation, given) == merged_rows(
            lake.live(),
            lake.bundled(),
            lake.go(),
            given,
        ),
        lake.merged_with() is Some && (lake.merged_with()->0).0 == cloud_generation
            ==> lake.merged_view(cloud_generation, given) == merged_rows(
            lake.live(),
            lake.bundled(),
            lake.go(),
            (lake.merged_with()->0).1,
        ),
{
}

/// Two routes share a memoized resolver exactly where they are of one provider,
/// one partition and one endpoint.
pub proof fn resolvers_are_kept_apart(
    a: ApiProvider,
    a_identity: Option<&str>,
    a_endpoint: &RouteEndpoint,
    b: ApiProvider,
    b_identity: Option<&str>,
    b_endpoint: &RouteEndpoint,
)
    ensures
        resolver_key(a, a_identity, a_endpoint) == resolver_key(b, b_identity, b_endpoint) <==> a
            == b && catalog_id_for_identity(a, optional_str(a_identity))
            == catalog_id_for_identity(b, optional_str(b_identity)) && a_endpoint.fingerprint@
            == b_endpoint.fingerprint@,
{
}

} // verus!
