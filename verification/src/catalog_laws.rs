//! Which row of which layer the catalog gives for a model.

use vstd::prelude::*;
use crate::api_provider::{api_named, catalog_id, ApiProvider};
use crate::live::{cut_rows, GoModelView, LiveView};
use crate::live_laws::{laid_over, lemma_laid_over};
use crate::merge::{
    authoritative, base_catalog, merged_catalog, merged_rows, roster_rows, shown_rows,
};
use crate::model_list::{catalog_models, every_row_is_listed};
use crate::offering::{lemma_with_rows_keyed, row_key, with_rows, OfferingView};
use crate::pair_map::{
    key_before, key_order_is_strict_and_total, keys_in_order, keys_in_order_exist, values_in_order,
    PairKey,
};
use crate::route_catalog::{route_models, route_source};
use crate::row_laws::{
    a_named_model_has_a_last_row, last_of_its_key, lemma_same_filter, lemma_with_kept_rows,
    none_of_key, the_last_row_of_a_model_stands,
};
use crate::runtime::signed_facts_apply;
use crate::signed::SignedView;
use crate::text::{lower, trim};

verus! {

broadcast use vstd::string::group_string_axioms;

/// The rows that the last Models.dev refresh brought.
pub open spec fn refreshed_rows(live: LiveView) -> Seq<OfferingView> {
    match live.models_dev {
        Some(rows) => rows,
        None => Seq::empty(),
    }
}

/// The rows below the signed layer on which a built-in route rests: of every
/// model of the provider the last Models.dev row, or without one the last bundled
/// row, and nothing of another provider.
pub proof fn a_route_rests_on_models_dev_then_bundled(
    live: LiveView,
    bundled: Seq<OfferingView>,
    provider: ApiProvider,
)
    ensures
        forall|i: int| #[trigger]
            last_of_its_key(refreshed_rows(live), i) && refreshed_rows(live)[i].provider
                == catalog_id(provider) ==> route_source(live, bundled, provider).dom().contains(
                (catalog_id(provider), refreshed_rows(live)[i].wire_model_id),
            ) && route_source(live, bundled, provider)[(
                catalog_id(provider),
                refreshed_rows(live)[i].wire_model_id,
            )] == refreshed_rows(live)[i],
        forall|i: int| #[trigger]
            last_of_its_key(bundled, i) && bundled[i].provider == catalog_id(provider)
                && none_of_key(
                refreshed_rows(live),
                catalog_id(provider),
                bundled[i].wire_model_id,
            ) ==> route_source(live, bundled, provider).dom().contains(
                (catalog_id(provider), bundled[i].wire_model_id),
            ) && route_source(live, bundled, provider)[(
                catalog_id(provider),
                bundled[i].wire_model_id,
            )] == bundled[i],
        forall|name: Seq<char>, model: Seq<char>| #[trigger]
            route_source(live, bundled, provider).dom().contains((name, model)) ==> name
                == catalog_id(provider) && !(none_of_key(refreshed_rows(live), name, model)
                && none_of_key(bundled, name, model)),
{
    let name = catalog_id(provider);
    let md = refreshed_rows(live);
    let keep = |row: OfferingView| row.provider == name;
    let low = with_rows(Map::empty(), bundled.filter(keep));
    let all = route_source(live, bundled, provider);
    assert(all == with_rows(low, md.filter(keep)));
    the_last_row_of_a_model_stands(low, md);
    the_last_row_of_a_model_stands(Map::empty(), bundled);
    assert forall|i: int| #[trigger] last_of_its_key(md, i) && md[i].provider == name implies
        all.dom().contains((name, md[i].wire_model_id)) && all[(name, md[i].wire_model_id)]
        == md[i] by {
        lemma_with_kept_rows(low, md, keep, (name, md[i].wire_model_id), true);
    }
    assert forall|i: int| #[trigger]
        last_of_its_key(bundled, i) && bundled[i].provider == name && none_of_key(
            md,
            name,
            bundled[i].wire_model_id,
        ) implies all.dom().contains((name, bundled[i].wire_model_id)) && all[(
        name,
        bundled[i].wire_model_id,
    )] == bundled[i] by {
        let key = (name, bundled[i].wire_model_id);
        lemma_with_kept_rows(low, md, keep, key, true);
        lemma_with_kept_rows(Map::empty(), bundled, keep, key, true);
    }
    assert forall|n: Seq<char>, model: Seq<char>| #[trigger]
        all.dom().contains((n, model)) implies n == name && !(none_of_key(md, n, model)
        && none_of_key(bundled, n, model)) by {
        let key = (n, model);
        lemma_with_kept_rows(low, md, keep, key, n == name);
        lemma_with_kept_rows(Map::empty(), bundled, keep, key, n == name);
    }
}

/// The models of a built-in route without a listing of its own are those of its
/// provider's catalog rows: Models.dev rows over bundled ones, or the rows that
/// the signed layer makes of them where it describes the route. Only without a
/// signed layer do the completion names stand in for an empty list.
pub proof fn a_route_without_a_listing_lists_the_catalog(
    live: LiveView,
    bundled: Seq<OfferingView>,
    provider: ApiProvider,
    in_signed_scope: bool,
    signed: Option<SignedView>,
    codex: Seq<Seq<char>>,
    completion: Seq<Seq<char>>,
) -> (rows: Seq<OfferingView>)
    requires
        provider != ApiProvider::OpenaiCodex,
        provider != ApiProvider::Custom,
        provider != ApiProvider::DeepseekCN,
    ensures
        signed is None || !in_signed_scope || provider == ApiProvider::DeepseekAnthropic
            || provider == ApiProvider::SiliconflowCn ==> laid_over(
            rows,
            bundled.filter(|row: OfferingView| row.provider == catalog_id(provider)),
            refreshed_rows(live).filter(
                |row: OfferingView| row.provider == catalog_id(provider),
            ),
        ),
        signed is Some && in_signed_scope && provider != ApiProvider::DeepseekAnthropic && provider
            != ApiProvider::SiliconflowCn ==> laid_over(
            rows,
            Seq::empty(),
            (signed->0).patched,
        ),
        route_models(
            live,
            bundled,
            provider,
            in_signed_scope,
            false,
            None,
            signed,
            codex,
            completion,
        ) == if catalog_models(rows).len() == 0 && signed is None {
            completion
        } else {
            catalog_models(rows)
        },
{
    let name = catalog_id(provider);
    let keep = |row: OfferingView| row.provider == name;
    crate::route_laws::signed_facts_do_not_cross_routes(provider, in_signed_scope);
    if signed is Some && signed_facts_apply(provider, in_signed_scope) {
        let layer = signed->0;
        lemma_laid_over(Seq::empty(), layer.patched);
        assert(with_rows(Map::empty(), Seq::<OfferingView>::empty())
            == Map::<PairKey, OfferingView>::empty());
        values_in_order(with_rows(Map::empty(), layer.patched))
    } else {
        lemma_laid_over(bundled.filter(keep), refreshed_rows(live).filter(keep));
        values_in_order(route_source(live, bundled, provider))
    }
}

/// Every Models.dev row and every bundled row of a built-in provider is listed on
/// its routes that have no listing of their own and no signed layer, and where
/// there is such a row nothing else is.
pub proof fn every_catalog_row_of_a_route_is_listed(
    live: LiveView,
    bundled: Seq<OfferingView>,
    provider: ApiProvider,
    in_signed_scope: bool,
    codex: Seq<Seq<char>>,
    completion: Seq<Seq<char>>,
    row: OfferingView,
)
    requires
        provider != ApiProvider::OpenaiCodex,
        provider != ApiProvider::Custom,
        provider != ApiProvider::DeepseekCN,
        refreshed_rows(live).contains(row) || bundled.contains(row),
        row.provider == catalog_id(provider),
        trim(row.wire_model_id).len() > 0,
    ensures
        ({
            let models = route_models(
                live,
                bundled,
                provider,
                in_signed_scope,
                false,
                None,
                None,
                codex,
                completion,
            );
            &&& exists|k: int|
                0 <= k < models.len() && lower(#[trigger] models[k]) == lower(
                    trim(row.wire_model_id),
                )
            &&& forall|k: int|
                0 <= k < models.len() ==> exists|other: OfferingView|
                    (refreshed_rows(live).contains(other) || bundled.contains(other))
                        && other.provider == catalog_id(provider) && #[trigger] models[k] == trim(
                        #[trigger] other.wire_model_id,
                    )
        }),
{
    let name = catalog_id(provider);
    let md = refreshed_rows(live);
    let models = route_models(
        live,
        bundled,
        provider,
        in_signed_scope,
        false,
        None,
        None,
        codex,
        completion,
    );
    let source = route_source(live, bundled, provider);
    let rows = values_in_order(source);
    let model = row.wire_model_id;
    a_route_rests_on_models_dev_then_bundled(live, bundled, provider);
    lemma_source_finite(live, bundled, provider);
    crate::pair_map::ordered_values_are_the_values(source);
    every_row_is_listed(rows);
    assert(source.dom().contains((name, model))) by {
        if !none_of_key(md, name, model) {
            let i: int = a_named_model_has_a_last_row(md, name, model);
            assert(last_of_its_key(md, i));
        } else {
            if md.contains(row) {
                let k = choose|k: int| 0 <= k < md.len() && md[k] == row;
                assert(md[k].provider != name || md[k].wire_model_id != model);
            }
            let k = choose|k: int| 0 <= k < bundled.len() && bundled[k] == row;
            assert(!none_of_key(bundled, name, model)) by {
                assert(bundled[k].provider == name && bundled[k].wire_model_id == model);
            }
            let i: int = a_named_model_has_a_last_row(bundled, name, model);
            assert(last_of_its_key(bundled, i));
        }
    }
    assert(rows.contains(source[(name, model)]));
    let k = choose|k: int| 0 <= k < rows.len() && rows[k] == source[(name, model)];
    assert(rows[k].wire_model_id == model);
    assert(crate::model_list::lists_model(catalog_models(rows), trim(model)));
    assert(models == catalog_models(rows));
    assert forall|k: int| 0 <= k < models.len() implies exists|other: OfferingView|
        (md.contains(other) || bundled.contains(other)) && other.provider == name
            && #[trigger] models[k] == trim(#[trigger] other.wire_model_id) by {
        assert(catalog_models(rows).contains(models[k]));
        let j = choose|j: int|
            0 <= j < rows.len() && models[k] == trim((#[trigger] rows[j]).wire_model_id);
        let key = keys_in_order(source)[j];
        assert(source.dom().contains((key.0, key.1)));
        if !none_of_key(md, key.0, key.1) {
            let i: int = a_named_model_has_a_last_row(md, key.0, key.1);
            assert(last_of_its_key(md, i));
            assert(md.contains(md[i]) && models[k] == trim(md[i].wire_model_id));
        } else {
            let i: int = a_named_model_has_a_last_row(bundled, key.0, key.1);
            assert(last_of_its_key(bundled, i));
            assert(bundled.contains(bundled[i]) && models[k] == trim(bundled[i].wire_model_id));
        }
    }
}

proof fn lemma_source_finite(
    live: LiveView,
    bundled: Seq<OfferingView>,
    provider: ApiProvider,
)
    ensures
        route_source(live, bundled, provider).dom().finite(),
        crate::offering::self_keyed(route_source(live, bundled, provider)),
{
    let name = catalog_id(provider);
    let keep = |row: OfferingView| row.provider == name;
    let low = with_rows(Map::empty(), bundled.filter(keep));
    lemma_with_rows_keyed(Map::empty(), bundled.filter(keep));
    lemma_with_rows_keyed(low, refreshed_rows(live).filter(keep));
}

/// Whether no partition that the merged view shows has a row of that model: the
/// partitions of built-in providers, and those of custom tables whose name
/// denotes no built-in provider.
pub open spec fn no_roster_has(live: LiveView, provider: Seq<char>, model: Seq<char>) -> bool {
    forall|key: PairKey| #[trigger]
        live.per_provider.dom().contains(key) && (key.0 == "built-in"@ || api_named(key.1) is None)
            ==> none_of_key(live.per_provider[key], provider, model)
}

/// Whether the partition under `own` is the only one that the merged view shows
/// with a row of that model.
pub open spec fn only_one_roster_has(
    live: LiveView,
    own: PairKey,
    provider: Seq<char>,
    model: Seq<char>,
) -> bool {
    &&& live.per_provider.dom().contains(own)
    &&& own.0 == "built-in"@ || api_named(own.1) is None
    &&& forall|key: PairKey| #[trigger]
        live.per_provider.dom().contains(key) && key != own && (key.0 == "built-in"@ || api_named(
            key.1,
        ) is None) ==> none_of_key(live.per_provider[key], provider, model)
}

proof fn lemma_rows_in_turn(
    m: Map<PairKey, OfferingView>,
    a: Seq<OfferingView>,
    b: Seq<OfferingView>,
)
    ensures
        with_rows(m, a + b) == with_rows(with_rows(m, a), b),
    decreases b.len(),
{
    if b.len() == 0 {
        assert(a + b =~= a);
    } else {
        lemma_rows_in_turn(m, a, b.drop_last());
        assert((a + b).drop_last() =~= a + b.drop_last());
        assert((a + b).last() == b.last());
    }
}

proof fn lemma_shown_none(
    m: Map<PairKey, OfferingView>,
    per_provider: Map<PairKey, Seq<OfferingView>>,
    keys: Seq<PairKey>,
    provider: Seq<char>,
    model: Seq<char>,
)
    requires
        forall|j: int|
            0 <= j < keys.len() && ((#[trigger] keys[j]).0 == "built-in"@ || api_named(
                keys[j].1,
            ) is None) ==> none_of_key(per_provider[keys[j]], provider, model),
    ensures
        with_rows(m, shown_rows(per_provider, keys)).dom().contains((provider, model))
            <==> m.dom().contains((provider, model)),
        with_rows(m, shown_rows(per_provider, keys))[(provider, model)] == m[(provider, model)],
    decreases keys.len(),
{
    if keys.len() > 0 {
        let init = keys.drop_last();
        let last = keys.last();
        let n = keys.len() - 1;
        assert forall|j: int|
            0 <= j < init.len() && ((#[trigger] init[j]).0 == "built-in"@ || api_named(
                init[j].1,
            ) is None) implies none_of_key(per_provider[init[j]], provider, model) by {
            assert(init[j] == keys[j]);
        }
        lemma_shown_none(m, per_provider, init, provider, model);
        assert(keys[n] == last);
        if last.0 == "built-in"@ || api_named(last.1) is None {
            let rows = shown_rows(per_provider, init);
            lemma_rows_in_turn(m, rows, per_provider[last]);
            the_last_row_of_a_model_stands(with_rows(m, rows), per_provider[last]);
            assert(none_of_key(per_provider[last], provider, model));
        }
    }
}

proof fn lemma_shown_one(
    m: Map<PairKey, OfferingView>,
    per_provider: Map<PairKey, Seq<OfferingView>>,
    keys: Seq<PairKey>,
    own: PairKey,
    i: int,
)
    requires
        crate::pair_map::ascending(keys),
        keys.contains(own),
        own.0 == "built-in"@ || api_named(own.1) is None,
        last_of_its_key(per_provider[own], i),
        forall|j: int|
            0 <= j < keys.len() && (#[trigger] keys[j]) != own && (keys[j].0 == "built-in"@
                || api_named(keys[j].1) is None) ==> none_of_key(
                per_provider[keys[j]],
                per_provider[own][i].provider,
                per_provider[own][i].wire_model_id,
            ),
    ensures
        with_rows(m, shown_rows(per_provider, keys)).dom().contains(
            row_key(per_provider[own][i]),
        ),
        with_rows(m, shown_rows(per_provider, keys))[row_key(per_provider[own][i])]
            == per_provider[own][i],
    decreases keys.len(),
{
    let row = per_provider[own][i];
    let init = keys.drop_last();
    let last = keys.last();
    let n = keys.len() - 1;
    let p = choose|p: int| 0 <= p < keys.len() && keys[p] == own;
    assert(keys[n] == last);
    let rows = shown_rows(per_provider, init);
    if last.0 == "built-in"@ || api_named(last.1) is None {
        lemma_rows_in_turn(m, rows, per_provider[last]);
        the_last_row_of_a_model_stands(with_rows(m, rows), per_provider[last]);
    }
    if p < n {
        crate::pair_map::key_order_is_strict_and_total(keys[p], keys[n], keys[p]);
        assert(last != own);
        assert(init[p] == own);
        assert forall|j: int|
            0 <= j < init.len() && (#[trigger] init[j]) != own && (init[j].0 == "built-in"@
                || api_named(init[j].1) is None) implies none_of_key(
            per_provider[init[j]],
            row.provider,
            row.wire_model_id,
        ) by {
            assert(init[j] == keys[j]);
        }
        assert forall|a: int, b: int| 0 <= a < b < init.len() implies crate::pair_map::key_before(
            #[trigger] init[a],
            #[trigger] init[b],
        ) by {
            assert(init[a] == keys[a] && init[b] == keys[b]);
        }
        lemma_shown_one(m, per_provider, init, own, i);
    }
}

/// Completing rows changes no key, so it changes only what stands under them.
proof fn lemma_completed(
    m: Map<PairKey, OfferingView>,
    rows: Seq<OfferingView>,
    completed: Seq<OfferingView>,
    key: PairKey,
)
    ensures
        ({
            let plain = with_rows(m, rows);
            let filled = with_rows(m, crate::merge::completed_rows(rows, completed));
            &&& plain.dom().contains(key) <==> filled.dom().contains(key)
            &&& none_of_key(rows, key.0, key.1) ==> filled[key] == m[key]
            &&& !none_of_key(rows, key.0, key.1) ==> filled[key] == plain[key] || (
            completed.contains(filled[key]) && row_key(filled[key]) == key)
        }),
{
    let filled = crate::merge::completed_rows(rows, completed);
    crate::merge::completion_keeps_every_key(rows, completed);
    the_last_row_of_a_model_stands(m, rows);
    the_last_row_of_a_model_stands(m, filled);
    assert forall|j: int| 0 <= j < rows.len() implies (#[trigger] filled[j]).provider
        == rows[j].provider && filled[j].wire_model_id == rows[j].wire_model_id by {
        assert(row_key(filled[j]) == row_key(rows[j]));
    }
    if none_of_key(rows, key.0, key.1) {
        assert forall|j: int| 0 <= j < filled.len() implies (#[trigger] filled[j]).provider
            != key.0 || filled[j].wire_model_id != key.1 by {
            assert(rows[j].provider != key.0 || rows[j].wire_model_id != key.1);
        }
        assert(none_of_key(filled, key.0, key.1));
    } else {
        let i: int = a_named_model_has_a_last_row(rows, key.0, key.1);
        assert forall|j: int| i < j < filled.len() implies (#[trigger] filled[j]).provider
            != filled[i].provider || filled[j].wire_model_id != filled[i].wire_model_id by {
            assert(rows[j].provider != rows[i].provider || rows[j].wire_model_id
                != rows[i].wire_model_id);
        }
        assert(last_of_its_key(filled, i));
        assert(row_key(filled[i]) == key);
    }
}

/// A provider's own roster stands over every other layer: the last row that it
/// has of a model is the one of the merged catalog. A signed layer may only fill
/// that row out, with the same key.
pub proof fn a_roster_row_stands(
    live: LiveView,
    bundled: Seq<OfferingView>,
    layer: SignedView,
    own: PairKey,
    i: int,
)
    requires
        live.per_provider.dom().finite(),
        last_of_its_key(live.per_provider[own], i),
        only_one_roster_has(
            live,
            own,
            live.per_provider[own][i].provider,
            live.per_provider[own][i].wire_model_id,
        ),
    ensures
        ({
            let row = live.per_provider[own][i];
            let key = (row.provider, row.wire_model_id);
            let plain = merged_catalog(live, bundled, None);
            let signed = merged_catalog(live, bundled, Some(layer));
            &&& plain.dom().contains(key) && plain[key] == row
            &&& signed.dom().contains(key)
            &&& signed[key] == row || (layer.completed.contains(signed[key])
                && signed[key].provider == row.provider && signed[key].wire_model_id
                == row.wire_model_id)
        }),
{
    let row = live.per_provider[own][i];
    let key = (row.provider, row.wire_model_id);
    let keys = keys_in_order(live.per_provider);
    keys_in_order_exist(live.per_provider);
    assert(keys.contains(own));
    assert forall|j: int|
        0 <= j < keys.len() && (#[trigger] keys[j]) != own && (keys[j].0 == "built-in"@ || api_named(
            keys[j].1,
        ) is None) implies none_of_key(
        live.per_provider[keys[j]],
        row.provider,
        row.wire_model_id,
    ) by {
        assert(keys.contains(keys[j]));
        assert(live.per_provider.dom().contains(keys[j]));
    }
    let low = crate::merge::lower_catalog(live, bundled, None);
    let signed_low = crate::merge::lower_catalog(live, bundled, Some(layer));
    lemma_shown_one(low, live.per_provider, keys, own, i);
    lemma_shown_one(signed_low, live.per_provider, keys, own, i);
    lemma_completed(signed_low, roster_rows(live), layer.completed, key);
    if none_of_key(roster_rows(live), key.0, key.1) {
        the_last_row_of_a_model_stands(Map::empty(), roster_rows(live));
        lemma_shown_one(Map::empty(), live.per_provider, keys, own, i);
    }
}

/// Without a signed layer, a provider that has no roster of its own offers what
/// Models.dev has of it, and of the models that Models.dev does not have what is
/// bundled; a provider that has one offers nothing beside it.
pub proof fn below_the_rosters_models_dev_stands_over_bundled(
    live: LiveView,
    bundled: Seq<OfferingView>,
    provider: Seq<char>,
    model: Seq<char>,
    i: int,
)
    requires
        live.per_provider.dom().finite(),
        no_roster_has(live, provider, model),
    ensures
        ({
            let all = merged_catalog(live, bundled, None);
            let key = (provider, model);
            let md = refreshed_rows(live);
            let owned = live.per_provider.dom().contains(("built-in"@, trim(provider)));
            &&& owned ==> !all.dom().contains(key)
            &&& !owned && last_of_its_key(md, i) && md[i].provider == provider
                && md[i].wire_model_id == model ==> all.dom().contains(key) && all[key] == md[i]
            &&& !owned && none_of_key(md, provider, model) && last_of_its_key(bundled, i)
                && bundled[i].provider == provider && bundled[i].wire_model_id == model
                ==> all.dom().contains(key) && all[key] == bundled[i]
            &&& none_of_key(md, provider, model) && none_of_key(bundled, provider, model)
                ==> !all.dom().contains(key)
        }),
{
    let md = refreshed_rows(live);
    let key = (provider, model);
    let keep = |row: OfferingView| !authoritative(live, row.provider);
    let owned = live.per_provider.dom().contains(("built-in"@, trim(provider)));
    assert(owned == authoritative(live, provider));
    let low = with_rows(Map::empty(), bundled.filter(keep));
    let base = with_rows(low, md.filter(keep));
    assert(crate::merge::lower_catalog(live, bundled, None) == base);
    let keys = keys_in_order(live.per_provider);
    keys_in_order_exist(live.per_provider);
    lemma_no_roster(live, provider, model);
    lemma_shown_none(base, live.per_provider, keys, provider, model);
    lemma_with_kept_rows(Map::empty(), bundled, keep, key, !owned);
    lemma_with_kept_rows(low, md, keep, key, !owned);
    the_last_row_of_a_model_stands(Map::empty(), bundled);
    the_last_row_of_a_model_stands(low, md);
}

proof fn lemma_no_roster(live: LiveView, provider: Seq<char>, model: Seq<char>)
    requires
        live.per_provider.dom().finite(),
        no_roster_has(live, provider, model),
    ensures
        forall|j: int|
            0 <= j < keys_in_order(live.per_provider).len() && ((#[trigger] keys_in_order(
                live.per_provider,
            )[j]).0 == "built-in"@ || api_named(keys_in_order(live.per_provider)[j].1) is None)
                ==> none_of_key(
                live.per_provider[keys_in_order(live.per_provider)[j]],
                provider,
                model,
            ),
        none_of_key(roster_rows(live), provider, model),
{
    let keys = keys_in_order(live.per_provider);
    keys_in_order_exist(live.per_provider);
    assert forall|j: int|
        0 <= j < keys.len() && ((#[trigger] keys[j]).0 == "built-in"@ || api_named(
            keys[j].1,
        ) is None) implies none_of_key(live.per_provider[keys[j]], provider, model) by {
        assert(keys.contains(keys[j]));
        assert(live.per_provider.dom().contains(keys[j]));
    }
    lemma_shown_none(Map::empty(), live.per_provider, keys, provider, model);
    if !none_of_key(roster_rows(live), provider, model) {
        let i: int = a_named_model_has_a_last_row(roster_rows(live), provider, model);
        the_last_row_of_a_model_stands(Map::empty(), roster_rows(live));
        assert(last_of_its_key(roster_rows(live), i));
    }
}

/// With a signed layer, a provider that has no roster of its own offers what the
/// layer makes of its rows; a provider that has one offers beside it only the
/// layer's own rows that the layer attests the roster does not list.
pub proof fn below_the_rosters_the_signed_layer_stands(
    live: LiveView,
    bundled: Seq<OfferingView>,
    layer: SignedView,
    provider: Seq<char>,
    model: Seq<char>,
    i: int,
)
    requires
        live.per_provider.dom().finite(),
        no_roster_has(live, provider, model),
    ensures
        ({
            let all = merged_catalog(live, bundled, Some(layer));
            let key = (provider, model);
            let owned = live.per_provider.dom().contains(("built-in"@, trim(provider)));
            &&& none_of_key(layer.patched, provider, model) ==> !all.dom().contains(key)
            &&& last_of_its_key(layer.patched, i) && layer.patched[i].provider == provider
                && layer.patched[i].wire_model_id == model ==> {
                let row = layer.patched[i];
                let stays = !owned || (row.source is CloudFacts && layer.attested.contains(key));
                (all.dom().contains(key) <==> stays) && (stays ==> all[key] == row)
            }
        }),
{
    let key = (provider, model);
    let low = crate::merge::lower_catalog(live, bundled, Some(layer));
    let keys = keys_in_order(live.per_provider);
    keys_in_order_exist(live.per_provider);
    lemma_no_roster(live, provider, model);
    lemma_shown_none(low, live.per_provider, keys, provider, model);
    lemma_completed(low, roster_rows(live), layer.completed, key);
    the_last_row_of_a_model_stands(Map::empty(), layer.patched);
}

/// The merged view is the merged catalog in key order, cut to what can be served;
/// with no live rows and no signed layer it is the bundled rows as they are, cut.
pub proof fn the_merged_view_is_the_merged_catalog(
    live: LiveView,
    bundled: Seq<OfferingView>,
    go: Seq<GoModelView>,
    signed: Option<SignedView>,
    key: PairKey,
)
    ensures
        signed is Some || live.models_dev is Some || live.per_provider.dom().contains(key)
            ==> merged_rows(live, bundled, go, signed) == cut_rows(
            values_in_order(merged_catalog(live, bundled, signed)),
            go,
        ),
        signed is None && live.models_dev is None && live.per_provider =~= Map::empty()
            ==> merged_rows(live, bundled, go, signed) == cut_rows(bundled, go),
{
}


/// What a signed layer is applied to: of every provider without a roster of its
/// own the Models.dev rows over the bundled ones, in key order.
pub proof fn a_signed_layer_is_applied_to_the_rosterless_rows(
    live: LiveView,
    bundled: Seq<OfferingView>,
)
    ensures
        ({
            let rosterless = |row: OfferingView|
                !live.per_provider.dom().contains(("built-in"@, trim(row.provider)));
            laid_over(
                values_in_order(base_catalog(live, bundled)),
                bundled.filter(rosterless),
                refreshed_rows(live).filter(rosterless),
            )
        }),
{
    let rosterless = |row: OfferingView|
        !live.per_provider.dom().contains(("built-in"@, trim(row.provider)));
    let keep = |row: OfferingView| !authoritative(live, row.provider);
    lemma_same_filter(bundled, rosterless, keep);
    lemma_same_filter(refreshed_rows(live), rosterless, keep);
    lemma_laid_over(bundled.filter(keep), refreshed_rows(live).filter(keep));
}

/// The rows of the first keys come first.
proof fn lemma_shown_prefix(
    per_provider: Map<PairKey, Seq<OfferingView>>,
    keys: Seq<PairKey>,
    n: int,
)
    requires
        0 <= n <= keys.len(),
    ensures
        shown_rows(per_provider, keys.take(n)).len() <= shown_rows(per_provider, keys).len(),
        shown_rows(per_provider, keys).take(
            shown_rows(per_provider, keys.take(n)).len() as int,
        ) == shown_rows(per_provider, keys.take(n)),
    decreases keys.len(),
{
    if n == keys.len() {
        assert(keys.take(n) =~= keys);
        assert(shown_rows(per_provider, keys).take(shown_rows(per_provider, keys).len() as int)
            =~= shown_rows(per_provider, keys));
    } else {
        let init = keys.drop_last();
        lemma_shown_prefix(per_provider, init, n);
        assert(init.take(n) =~= keys.take(n));
        let part = shown_rows(per_provider, keys.take(n));
        assert(shown_rows(per_provider, keys).take(part.len() as int) =~= shown_rows(
            per_provider,
            init,
        ).take(part.len() as int));
    }
}

proof fn lemma_shown_at(
    per_provider: Map<PairKey, Seq<OfferingView>>,
    keys: Seq<PairKey>,
    i: int,
) -> (at: int)
    requires
        0 <= i < keys.len(),
        keys[i].0 == "built-in"@ || api_named(keys[i].1) is None,
    ensures
        at == shown_rows(per_provider, keys.take(i)).len(),
        at + per_provider[keys[i]].len() == shown_rows(per_provider, keys.take(i + 1)).len(),
        at + per_provider[keys[i]].len() <= shown_rows(per_provider, keys).len(),
        shown_rows(per_provider, keys).subrange(at, at + per_provider[keys[i]].len())
            == per_provider[keys[i]],
{
    let upto = keys.take(i + 1);
    assert(upto.drop_last() =~= keys.take(i));
    assert(upto.last() == keys[i]);
    lemma_shown_prefix(per_provider, keys, i + 1);
    let at = shown_rows(per_provider, keys.take(i)).len() as int;
    let n = per_provider[keys[i]].len();
    let part = shown_rows(per_provider, upto);
    let all = shown_rows(per_provider, keys);
    assert(part.subrange(at, at + n) =~= per_provider[keys[i]]);
    assert forall|k: int| at <= k < at + n implies all[k] == part[k] by {
        assert(all.take(part.len() as int)[k] == all[k]);
    }
    assert(all.subrange(at, at + n) =~= part.subrange(at, at + n));
    at
}

/// Every roster that the merged view shows stands in it whole and in its own
/// order, and of two rosters the one with the lesser key stands first: those of
/// built-in providers before those of custom tables, each by name.
pub proof fn rosters_are_shown_whole_and_in_key_order(
    live: LiveView,
    a: PairKey,
    b: PairKey,
) -> (at: (int, int))
    requires
        live.per_provider.dom().finite(),
        live.per_provider.dom().contains(a),
        live.per_provider.dom().contains(b),
        a.0 == "built-in"@ || api_named(a.1) is None,
        b.0 == "built-in"@ || api_named(b.1) is None,
        key_before(a, b),
    ensures
        0 <= at.0,
        at.0 + live.per_provider[a].len() <= at.1,
        at.1 + live.per_provider[b].len() <= roster_rows(live).len(),
        roster_rows(live).subrange(at.0, at.0 + live.per_provider[a].len())
            == live.per_provider[a],
        roster_rows(live).subrange(at.1, at.1 + live.per_provider[b].len())
            == live.per_provider[b],
{
    let keys = keys_in_order(live.per_provider);
    keys_in_order_exist(live.per_provider);
    assert(keys.contains(a) && keys.contains(b));
    let i = choose|i: int| 0 <= i < keys.len() && keys[i] == a;
    let j = choose|j: int| 0 <= j < keys.len() && keys[j] == b;
    if j < i {
        assert(key_before(keys[j], keys[i]));
    }
    key_order_is_strict_and_total(a, b, a);
    let first: int = lemma_shown_at(live.per_provider, keys, i);
    let second: int = lemma_shown_at(live.per_provider, keys, j);
    assert(i < j);
    lemma_shown_prefix(live.per_provider, keys.take(j), i + 1);
    assert(keys.take(j).take(i + 1) =~= keys.take(i + 1));
    (first, second)
}

/// The merged view shows no row that is not of a shown roster.
pub proof fn only_rosters_are_shown(live: LiveView, row: OfferingView)
    requires
        live.per_provider.dom().finite(),
        roster_rows(live).contains(row),
    ensures
        exists|key: PairKey| #[trigger]
            live.per_provider.dom().contains(key) && (key.0 == "built-in"@ || api_named(key.1)
                is None) && live.per_provider[key].contains(row),
{
    let keys = keys_in_order(live.per_provider);
    keys_in_order_exist(live.per_provider);
    lemma_shown_only(live.per_provider, keys, row);
    let i = choose|i: int|
        0 <= i < keys.len() && ((#[trigger] keys[i]).0 == "built-in"@ || api_named(keys[i].1)
            is None) && live.per_provider[keys[i]].contains(row);
    assert(keys.contains(keys[i]));
    assert(live.per_provider.dom().contains(keys[i]));
}

proof fn lemma_shown_only(
    per_provider: Map<PairKey, Seq<OfferingView>>,
    keys: Seq<PairKey>,
    row: OfferingView,
)
    requires
        shown_rows(per_provider, keys).contains(row),
    ensures
        exists|i: int|
            0 <= i < keys.len() && ((#[trigger] keys[i]).0 == "built-in"@ || api_named(keys[i].1)
                is None) && per_provider[keys[i]].contains(row),
    decreases keys.len(),
{
    let all = shown_rows(per_provider, keys);
    let k = choose|k: int| 0 <= k < all.len() && all[k] == row;
    if keys.len() > 0 {
        let init = keys.drop_last();
        let n = keys.len() - 1;
        let before = shown_rows(per_provider, init);
        if k < before.len() {
            assert(before[k] == row);
            lemma_shown_only(per_provider, init, row);
            let i = choose|i: int|
                0 <= i < init.len() && ((#[trigger] init[i]).0 == "built-in"@ || api_named(
                    init[i].1,
                ) is None) && per_provider[init[i]].contains(row);
            assert(keys[i] == init[i]);
        } else {
            assert(keys[n] == keys.last());
            assert(per_provider[keys[n]][k - before.len()] == row);
        }
    }
}

/// A signed layer fills a roster row out where it has a row of the same model at
/// that row's position, and only there.
pub proof fn a_signed_layer_fills_roster_rows_out(
    live: LiveView,
    bundled: Seq<OfferingView>,
    layer: SignedView,
    j: int,
)
    requires
        last_of_its_key(roster_rows(live), j),
    ensures
        ({
            let row = roster_rows(live)[j];
            let key = (row.provider, row.wire_model_id);
            let all = merged_catalog(live, bundled, Some(layer));
            let filled = j < layer.completed.len() && layer.completed[j].provider == row.provider
                && layer.completed[j].wire_model_id == row.wire_model_id;
            &&& all.dom().contains(key)
            &&& all[key] == if filled {
                layer.completed[j]
            } else {
                row
            }
        }),
{
    let rows = roster_rows(live);
    let done = crate::merge::completed_rows(rows, layer.completed);
    let low = crate::merge::lower_catalog(live, bundled, Some(layer));
    crate::merge::completion_keeps_every_key(rows, layer.completed);
    assert forall|k: int| 0 <= k < rows.len() implies (#[trigger] done[k]).provider
        == rows[k].provider && done[k].wire_model_id == rows[k].wire_model_id by {
        assert(row_key(done[k]) == row_key(rows[k]));
    }
    assert forall|k: int| j < k < done.len() implies (#[trigger] done[k]).provider
        != done[j].provider || done[k].wire_model_id != done[j].wire_model_id by {
        assert(rows[k].provider != rows[j].provider || rows[k].wire_model_id
            != rows[j].wire_model_id);
    }
    assert(last_of_its_key(done, j));
    the_last_row_of_a_model_stands(low, done);
}

} // verus!
