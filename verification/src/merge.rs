//! The merged catalog: bundled rows, Models.dev rows, the signed cloud layer and
//! the provider-owned rosters, in ascending precedence.

use vstd::prelude::*;
use crate::api_provider::{api_named, ApiProvider};
use crate::lists::{lemma_filter_ends, lemma_filter_step};
use crate::live::{
    apply_provider_model_cutlines, cut_rows, owner_key, GoModelView, GoRoster, LivePartitionOwner,
    LiveSnapshotPartitions, LiveView, OwnerView,
};
use crate::offering::{
    copied_rows, put_row, put_rows, row_key, rows_of, with_rows, CatalogOffering, CatalogSnapshot,
    CatalogSource, OfferingView,
};
use crate::pair_map::{keys_in_order, lemma_take_push, values_in_order, PairEntry, PairKey, PairMap};
use crate::signed::{is_attested, layer_view, SignedLayer, SignedView};
use crate::text::{same_text, trim, trimmed};

verus! {

broadcast use vstd::string::group_string_axioms;

/// Whether a provider-owned roster decides what `provider` offers.
pub open spec fn authoritative(live: LiveView, provider: Seq<char>) -> bool {
    live.per_provider.dom().contains(owner_key(OwnerView::BuiltIn(trim(provider))))
}

/// The rows of `rows` whose provider has no roster of its own.
pub open spec fn rows_without_roster(live: LiveView, rows: Seq<OfferingView>) -> Seq<
    OfferingView,
> {
    rows.filter(|row: OfferingView| !authoritative(live, row.provider))
}

/// The Models.dev rows, none when there was no refresh.
pub open spec fn models_dev_rows(live: LiveView) -> Seq<OfferingView> {
    match live.models_dev {
        Some(rows) => rows,
        None => Seq::empty(),
    }
}

/// The layers below the signed one: bundled rows, overridden by Models.dev
/// rows, of every provider without a roster of its own.
pub open spec fn base_catalog(
    live: LiveView,
    bundled: Seq<OfferingView>,
) -> Map<PairKey, OfferingView> {
    with_rows(
        with_rows(Map::empty(), rows_without_roster(live, bundled)),
        rows_without_roster(live, models_dev_rows(live)),
    )
}

/// Whether the merged catalog shows the partition stored under `key`: a
/// built-in one, or a custom one whose name denotes no built-in provider.
pub open spec fn partition_is_shown(key: PairKey) -> bool {
    key.0 == "built-in"@ || api_named(key.1) is None
}

/// The rows of the shown partitions among `keys`, one partition after the other.
pub open spec fn shown_rows(
    per_provider: Map<PairKey, Seq<OfferingView>>,
    keys: Seq<PairKey>,
) -> Seq<OfferingView>
    decreases keys.len(),
{
    if keys.len() == 0 {
        Seq::empty()
    } else {
        let init = shown_rows(per_provider, keys.drop_last());
        if partition_is_shown(keys.last()) {
            init + per_provider[keys.last()]
        } else {
            init
        }
    }
}

/// The provider-owned rows that the merged catalog shows.
pub open spec fn roster_rows(live: LiveView) -> Seq<OfferingView> {
    shown_rows(live.per_provider, keys_in_order(live.per_provider))
}

/// A row, or what `completed` has at the same position where that is the same
/// model of the same provider.
pub open spec fn completed_row(
    row: OfferingView,
    completed: Seq<OfferingView>,
    i: int,
) -> OfferingView {
    if i < completed.len() && row_key(completed[i]) == row_key(row) {
        completed[i]
    } else {
        row
    }
}

/// `rows`, each completed by the row of `completed` at its position.
pub open spec fn completed_rows(
    rows: Seq<OfferingView>,
    completed: Seq<OfferingView>,
) -> Seq<OfferingView> {
    Seq::new(rows.len(), |i: int| completed_row(rows[i], completed, i))
}

/// The signed rows that stand beside the rosters. For a provider with a roster
/// of its own only a row of the signed layer stays, and only when the layer
/// attests that the roster does not list it.
pub open spec fn attested_catalog(
    live: LiveView,
    rows: Map<PairKey, OfferingView>,
    attested: Seq<PairKey>,
) -> Map<PairKey, OfferingView> {
    Map::new(
        |key: PairKey|
            rows.dom().contains(key) && (!authoritative(live, key.0) || (
            rows[key].source is CloudFacts && attested.contains(key))),
        |key: PairKey| rows[key],
    )
}

/// The layers below the rosters.
pub open spec fn lower_catalog(
    live: LiveView,
    bundled: Seq<OfferingView>,
    signed: Option<SignedView>,
) -> Map<PairKey, OfferingView> {
    match signed {
        Some(layer) => attested_catalog(
            live,
            with_rows(Map::empty(), layer.patched),
            layer.attested,
        ),
        None => base_catalog(live, bundled),
    }
}

/// The provider-owned rows, completed where a signed layer is there.
pub open spec fn completed_rosters(live: LiveView, signed: Option<SignedView>) -> Seq<
    OfferingView,
> {
    match signed {
        Some(layer) => completed_rows(roster_rows(live), layer.completed),
        None => roster_rows(live),
    }
}

/// The merged catalog, before rows that the wire protocol rules out are cut.
pub open spec fn merged_catalog(
    live: LiveView,
    bundled: Seq<OfferingView>,
    signed: Option<SignedView>,
) -> Map<PairKey, OfferingView> {
    with_rows(lower_catalog(live, bundled, signed), completed_rosters(live, signed))
}

/// The rows of the merged catalog, in key order.
pub open spec fn merged_rows(
    live: LiveView,
    bundled: Seq<OfferingView>,
    go: Seq<GoModelView>,
    signed: Option<SignedView>,
) -> Seq<OfferingView> {
    if live.models_dev is None && live.per_provider.dom() =~= Set::empty() && signed is None {
        cut_rows(bundled, go)
    } else {
        cut_rows(values_in_order(merged_catalog(live, bundled, signed)), go)
    }
}

/// Whether a provider-owned roster decides what `provider` offers.
pub fn is_authoritative(live: &LiveSnapshotPartitions, provider: &str) -> (r: bool)
    requires
        live.wf(),
    ensures
        r == authoritative(live@, provider@),
{
    let owner = LivePartitionOwner::BuiltIn(trimmed(provider).to_owned());
    live.partition(&owner).is_some()
}

/// Put copies of the rows in whose provider has no roster of its own.
fn put_rows_without_roster(
    map: &mut PairMap<CatalogOffering>,
    live: &LiveSnapshotPartitions,
    rows: &Vec<CatalogOffering>,
)
    requires
        old(map).wf(),
        live.wf(),
    ensures
        final(map).wf(),
        final(map)@ == with_rows(old(map)@, rows_without_roster(live@, rows_of(rows@))),
{
    let ghost all = rows_of(rows@);
    let ghost keep = |row: OfferingView| !authoritative(live@, row.provider);
    let ghost start = map@;
    proof {
        lemma_filter_ends(all, keep);
    }
    let mut i: usize = 0;
    while i < rows.len()
        invariant
            i <= rows.len(),
            map.wf(),
            live.wf(),
            all == rows_of(rows@),
            keep == (|row: OfferingView| !authoritative(live@, row.provider)),
            map@ == with_rows(start, all.take(i as int).filter(keep)),
        decreases rows.len() - i,
    {
        proof {
            assert(all[i as int] == rows@[i as int]@);
            lemma_filter_step(all, keep, i as int);
            let kept = all.take(i as int).filter(keep);
            assert(kept.push(all[i as int]).drop_last() =~= kept);
        }
        if !is_authoritative(live, rows[i].provider.as_str()) {
            put_row(map, rows[i].clone());
        }
        i += 1;
    }
    assert(all.take(i as int) =~= all);
}

/// The layers below the signed one, in key order: what the signed layer is
/// applied to.
#[must_use]
pub fn base_catalog_rows(
    live: &LiveSnapshotPartitions,
    bundled: &CatalogSnapshot,
) -> (r: Vec<CatalogOffering>)
    requires
        live.wf(),
    ensures
        rows_of(r@) == values_in_order(base_catalog(live@, bundled@)),
{
    base_catalog_map(live, bundled).into_values()
}

fn base_catalog_map(
    live: &LiveSnapshotPartitions,
    bundled: &CatalogSnapshot,
) -> (r: PairMap<CatalogOffering>)
    requires
        live.wf(),
    ensures
        r.wf(),
        r@ == base_catalog(live@, bundled@),
{
    let mut map: PairMap<CatalogOffering> = PairMap::new();
    put_rows_without_roster(&mut map, live, &bundled.offerings);
    match live.models_dev() {
        Some(snapshot) => put_rows_without_roster(&mut map, live, &snapshot.offerings),
        None => {
            proof {
                lemma_filter_ends(
                    Seq::<OfferingView>::empty(),
                    |row: OfferingView| !authoritative(live@, row.provider),
                );
                assert(rows_without_roster(live@, models_dev_rows(live@)) =~= Seq::<
                    OfferingView,
                >::empty());
            }
        },
    }
    map
}

/// The provider-owned rows that the merged catalog shows: what the signed layer
/// completes.
#[must_use]
pub fn visible_roster_rows(live: &LiveSnapshotPartitions) -> (r: Vec<CatalogOffering>)
    requires
        live.wf(),
    ensures
        rows_of(r@) == roster_rows(live@),
{
    let partitions: &PairMap<CatalogSnapshot> = live.partitions();
    let ghost keys = partitions.keys();
    let ghost per_provider = live@.per_provider;
    proof {
        partitions.lemma_contents();
    }
    let mut out: Vec<CatalogOffering> = Vec::new();
    let mut i: usize = 0;
    assert(keys.take(0) =~= Seq::<PairKey>::empty());
    assert(rows_of(out@) =~= Seq::<OfferingView>::empty());
    while i < partitions.len()
        invariant
            i <= keys.len(),
            partitions.wf(),
            keys == partitions.keys(),
            per_provider == partitions@,
            rows_of(out@) == shown_rows(per_provider, keys.take(i as int)),
        decreases keys.len() - i,
    {
        let e: &PairEntry<CatalogSnapshot> = partitions.entry(i);
        proof {
            partitions.lemma_contents();
            assert(keys.take(i + 1).drop_last() =~= keys.take(i as int));
            assert(keys.take(i + 1).last() == keys[i as int]);
        }
        let built_in: bool = same_text(e.first.as_str(), "built-in");
        if built_in || ApiProvider::parse(e.second.as_str()).is_none() {
            let ghost before = out@;
            let mut rows: Vec<CatalogOffering> = copied_rows(&e.value.offerings);
            let ghost added = rows@;
            out.append(&mut rows);
            proof {
                assert(out@ =~= before + added);
                assert(rows_of(before + added) =~= rows_of(before) + rows_of(added));
            }
        }
        i += 1;
    }
    assert(keys.take(i as int) =~= keys);
    out
}

/// A copy of a row, or of what `completed` has at the same position where that is
/// the same model of the same provider.
#[must_use]
pub fn complete_row(
    row: &CatalogOffering,
    completed: &Vec<CatalogOffering>,
    i: usize,
) -> (r: CatalogOffering)
    ensures
        r@ == completed_row(row@, rows_of(completed@), i as int),
{
    if i < completed.len() {
        assert(rows_of(completed@)[i as int] == completed@[i as int]@);
        if same_text(completed[i].provider.as_str(), row.provider.as_str()) && same_text(
            completed[i].wire_model_id.as_str(),
            row.wire_model_id.as_str(),
        ) {
            return completed[i].clone();
        }
    }
    row.clone()
}

/// `rows`, each completed by the row of `completed` at its position.
#[must_use]
pub fn complete_rows(
    rows: Vec<CatalogOffering>,
    completed: &Vec<CatalogOffering>,
) -> (r: Vec<CatalogOffering>)
    ensures
        rows_of(r@) == completed_rows(rows_of(rows@), rows_of(completed@)),
{
    let mut out: Vec<CatalogOffering> = Vec::new();
    let mut i: usize = 0;
    while i < rows.len()
        invariant
            i <= rows.len(),
            out.len() == i,
            forall|k: int|
                0 <= k < i ==> (#[trigger] out@[k])@ == completed_row(
                    rows@[k]@,
                    rows_of(completed@),
                    k,
                ),
        decreases rows.len() - i,
    {
        out.push(complete_row(&rows[i], completed, i));
        i += 1;
    }
    assert(rows_of(out@) =~= completed_rows(rows_of(rows@), rows_of(completed@)));
    out
}

/// Completing rows changes neither how many there are nor which models they are.
pub proof fn completion_keeps_every_key(rows: Seq<OfferingView>, completed: Seq<OfferingView>)
    ensures
        completed_rows(rows, completed).len() == rows.len(),
        forall|i: int|
            0 <= i < rows.len() ==> row_key(#[trigger] completed_rows(rows, completed)[i])
                == row_key(rows[i]),
{
}

/// The signed rows that stand beside the rosters.
fn attested_rows(
    live: &LiveSnapshotPartitions,
    rows: &PairMap<CatalogOffering>,
    layer: &SignedLayer,
) -> (r: PairMap<CatalogOffering>)
    requires
        live.wf(),
        rows.wf(),
    ensures
        r.wf(),
        r@ == attested_catalog(live@, rows@, layer@.attested),
{
    let ghost keys = rows.keys();
    let ghost want = attested_catalog(live@, rows@, layer@.attested);
    proof {
        rows.lemma_contents();
    }
    let mut out: PairMap<CatalogOffering> = PairMap::new();
    let mut i: usize = 0;
    while i < rows.len()
        invariant
            i <= keys.len(),
            live.wf(),
            rows.wf(),
            keys == rows.keys(),
            want == attested_catalog(live@, rows@, layer@.attested),
            out.wf(),
            forall|k: PairKey| #[trigger]
                out@.dom().contains(k) <==> want.dom().contains(k) && keys.take(
                    i as int,
                ).contains(k),
            forall|k: PairKey| #[trigger]
                out@.dom().contains(k) ==> out@[k] == want[k],
        decreases keys.len() - i,
    {
        let e: &PairEntry<CatalogOffering> = rows.entry(i);
        let ghost key = keys[i as int];
        proof {
            rows.lemma_contents();
            lemma_take_push(keys, i as int);
        }
        let from_signed_layer: bool = match e.value.source {
            CatalogSource::CloudFacts { fetched_at: _ } => true,
            _ => false,
        };
        let keep: bool = !is_authoritative(live, e.first.as_str()) || (from_signed_layer
            && is_attested(layer, e.first.as_str(), e.second.as_str()));
        assert(keep == want.dom().contains(key));
        if keep {
            out.insert(e.first.clone(), e.second.clone(), e.value.clone());
        }
        i += 1;
    }
    proof {
        rows.lemma_contents();
        assert(keys.take(i as int) =~= keys);
        assert(out@ =~= want);
    }
    out
}

/// Merge the catalog layers.
///
/// Models.dev rows override bundled rows on `(provider, wire_model_id)`. A
/// provider-owned live roster is authoritative for that provider's complete
/// list, so it suppresses bundled and Models.dev rows of the provider rather
/// than merely overlaying matching ids; that is what lets a successful refresh
/// remove models retired upstream. The one row a roster does not suppress is a
/// signed row that the payload explicitly attests is unlisted. Roster rows are
/// completed, not replaced, where the roster itself stated nothing.
///
/// `signed` carries what the signed layer answers: the rows of
/// [`base_catalog_rows`] with its patches applied, and the rows of
/// [`visible_roster_rows`] with its completions.
#[must_use]
pub fn compute_merged_snapshot(
    live: &LiveSnapshotPartitions,
    bundled: &CatalogSnapshot,
    go: &GoRoster,
    signed: Option<&SignedLayer>,
) -> (r: CatalogSnapshot)
    requires
        live.wf(),
    ensures
        r@ == merged_rows(live@, bundled@, go@, layer_view(signed)),
{
    proof {
        live.lemma_no_partitions();
    }
    if live.models_dev().is_none() && live.partitions().len() == 0 && signed.is_none() {
        return apply_provider_model_cutlines(bundled.clone(), go);
    }
    let rosters: Vec<CatalogOffering> = visible_roster_rows(live);
    let (mut merged, completed): (PairMap<CatalogOffering>, Vec<CatalogOffering>) = match signed {
        Some(layer) => {
            let mut patched: PairMap<CatalogOffering> = PairMap::new();
            put_rows(&mut patched, &layer.patched);
            (attested_rows(live, &patched, layer), complete_rows(rosters, &layer.completed))
        },
        None => (base_catalog_map(live, bundled), rosters),
    };
    put_rows(&mut merged, &completed);
    let offerings: Vec<CatalogOffering> = merged.into_values();
    apply_provider_model_cutlines(CatalogSnapshot { offerings }, go)
}

} // verus!
