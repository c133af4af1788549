//! What holds of the catalog layers as a whole.

use vstd::prelude::*;
use crate::api_provider::{api_named, catalog_id, ApiProvider};
use crate::lake::{custom_rows, identity_models, live_origin, some_row_is};
use crate::lists::{lemma_filter_ends, lemma_filter_holds};
use crate::live::{
    cut_rows, group_of, grouped_rows, inferred_owner, live_after_merge, live_after_replace,
    live_after_set, owner_identity, owner_key, replacement_rows, GoModelView, LiveSource,
    LiveView, OwnerView,
};
use crate::merge::{
    attested_catalog, authoritative, completed_rosters, lower_catalog,
    merged_catalog, merged_rows, models_dev_rows, partition_is_shown, roster_rows,
    rows_without_roster, shown_rows,
};
use crate::model_list::{
    adding_a_clean_list_gives_it_back, adding_models_lists_exactly_those, catalog_models,
    clean_models, lists_model, with_models,
};
use crate::offering::{
    lemma_with_rows, lemma_with_rows_keyed, row_key, with_rows, OfferingView,
};
use crate::pair_map::{
    ascending, key_before, keys_in_order, keys_in_order_exist, lemma_keys_in_order, lists_keys,
    ordered_values_are_the_values, values_in_order, PairKey,
};
use crate::signed::SignedView;
use crate::text::trim;

verus! {

/// A Models.dev refresh leaves every provider partition alone, and no provider
/// refresh touches the Models.dev rows.
pub proof fn sources_do_not_erase_each_other(
    live: LiveView,
    rows: Seq<OfferingView>,
    owner: OwnerView,
    go: Seq<GoModelView>,
)
    ensures
        live_after_set(live, rows, LiveSource::ModelsDev, go).per_provider == live.per_provider,
        live_after_set(live, rows, LiveSource::PerProvider, go).models_dev == live.models_dev,
        live_after_merge(live, rows).models_dev == live.models_dev,
        live_after_replace(live, owner, rows, go).models_dev == live.models_dev,
{
}

/// Rows are grouped under exactly the owners that their provider strings imply.
pub proof fn rows_are_grouped_by_owner(rows: Seq<OfferingView>, key: PairKey)
    ensures
        grouped_rows(rows).dom().contains(key) <==> exists|i: int|
            0 <= i < rows.len() && owner_key(inferred_owner((#[trigger] rows[i]).provider)) == key,
    decreases rows.len(),
{
    if rows.len() > 0 {
        let init = rows.drop_last();
        rows_are_grouped_by_owner(init, key);
        if exists|i: int|
            0 <= i < init.len() && owner_key(inferred_owner((#[trigger] init[i]).provider)) == key {
            let i = choose|i: int|
                0 <= i < init.len() && owner_key(inferred_owner((#[trigger] init[i]).provider))
                    == key;
            assert(rows[i] == init[i]);
        }
        if exists|i: int|
            0 <= i < rows.len() && owner_key(inferred_owner((#[trigger] rows[i]).provider)) == key {
            let i = choose|i: int|
                0 <= i < rows.len() && owner_key(inferred_owner((#[trigger] rows[i]).provider))
                    == key;
            if i < init.len() {
                assert(init[i] == rows[i]);
            }
        }
        assert(rows[rows.len() - 1] == rows.last());
    }
}

/// A provider refresh touches only the partitions of the providers that its rows
/// name.
pub proof fn providers_do_not_erase_each_other(
    live: LiveView,
    rows: Seq<OfferingView>,
    owner: OwnerView,
    go: Seq<GoModelView>,
    key: PairKey,
)
    ensures
        (forall|i: int|
            0 <= i < cut_rows(rows, go).len() ==> owner_key(
                inferred_owner((#[trigger] cut_rows(rows, go)[i]).provider),
            ) != key) ==> group_of(
            live_after_set(live, rows, LiveSource::PerProvider, go).per_provider,
            key,
        ) == group_of(live.per_provider, key),
        (forall|i: int|
            0 <= i < rows.len() ==> owner_key(inferred_owner((#[trigger] rows[i]).provider))
                != key) ==> group_of(live_after_merge(live, rows).per_provider, key) == group_of(
            live.per_provider,
            key,
        ),
        owner_key(owner) != key ==> group_of(
            live_after_replace(live, owner, rows, go).per_provider,
            key,
        ) == group_of(live.per_provider, key),
{
    rows_are_grouped_by_owner(cut_rows(rows, go), key);
    rows_are_grouped_by_owner(rows, key);
}

/// Models.dev refreshes and provider refreshes may complete in either order.
pub proof fn source_refreshes_commute(
    live: LiveView,
    models_dev: Seq<OfferingView>,
    rows: Seq<OfferingView>,
    owner: OwnerView,
    go: Seq<GoModelView>,
)
    ensures
        live_after_merge(live_after_set(live, models_dev, LiveSource::ModelsDev, go), rows)
            == live_after_set(
            live_after_merge(live, rows),
            models_dev,
            LiveSource::ModelsDev,
            go,
        ),
        live_after_set(
            live_after_set(live, models_dev, LiveSource::ModelsDev, go),
            rows,
            LiveSource::PerProvider,
            go,
        ) == live_after_set(
            live_after_set(live, rows, LiveSource::PerProvider, go),
            models_dev,
            LiveSource::ModelsDev,
            go,
        ),
        live_after_replace(
            live_after_set(live, models_dev, LiveSource::ModelsDev, go),
            owner,
            rows,
            go,
        ) == live_after_set(
            live_after_replace(live, owner, rows, go),
            models_dev,
            LiveSource::ModelsDev,
            go,
        ),
{
    let a = live_after_merge(live_after_set(live, models_dev, LiveSource::ModelsDev, go), rows);
    let b = live_after_set(
        live_after_merge(live, rows),
        models_dev,
        LiveSource::ModelsDev,
        go,
    );
    assert(a.per_provider =~= b.per_provider);
}

/// Replacements of the partitions of two providers may complete in either order.
pub proof fn provider_replacements_commute(
    live: LiveView,
    owner: OwnerView,
    rows: Seq<OfferingView>,
    other: OwnerView,
    other_rows: Seq<OfferingView>,
    go: Seq<GoModelView>,
)
    requires
        owner_key(owner) != owner_key(other),
    ensures
        live_after_replace(live_after_replace(live, owner, rows, go), other, other_rows, go)
            == live_after_replace(
            live_after_replace(live, other, other_rows, go),
            owner,
            rows,
            go,
        ),
{
    let a = live_after_replace(live_after_replace(live, owner, rows, go), other, other_rows, go);
    let b = live_after_replace(live_after_replace(live, other, other_rows, go), owner, rows, go);
    assert(a.per_provider =~= b.per_provider);
}

/// Merging rows into partitions never drops a row: every wire model id that a
/// partition listed, it lists afterwards too.
pub proof fn a_merge_never_drops_a_row(
    live: LiveView,
    rows: Seq<OfferingView>,
    key: PairKey,
    i: int,
)
    requires
        live.per_provider.dom().contains(key),
        0 <= i < live.per_provider[key].len(),
    ensures
        live_after_merge(live, rows).per_provider.dom().contains(key),
        exists|j: int|
            0 <= j < live_after_merge(live, rows).per_provider[key].len() && row_key(
                #[trigger] live_after_merge(live, rows).per_provider[key][j],
            ) == row_key(live.per_provider[key][i]),
{
    let old_rows = live.per_provider[key];
    let after = live_after_merge(live, rows).per_provider;
    let groups = grouped_rows(rows);
    if groups.dom().contains(key) {
        let first = with_rows(Map::empty(), old_rows);
        let m = with_rows(first, groups[key]);
        let k = row_key(old_rows[i]);
        lemma_with_rows_keyed(Map::empty(), old_rows);
        lemma_with_rows_keyed(first, groups[key]);
        lemma_with_rows(Map::empty(), old_rows, k);
        lemma_with_rows(first, groups[key], k);
        assert(first.dom().contains(k));
        assert(m.dom().contains(k));
        ordered_values_are_the_values(m);
        let values = values_in_order(m);
        assert(values.contains(m[k]));
        let j = choose|j: int| 0 <= j < values.len() && values[j] == m[k];
        assert(group_of(live.per_provider, key) == old_rows);
        assert(after[key] == values);
        assert(row_key(after[key][j]) == k);
    } else {
        assert(after[key][i] == old_rows[i]);
    }
}

/// Emptying a partition that was published over the layers below restores them:
/// the live rows are what they were before it was published.
pub proof fn emptying_a_partition_restores_the_layers_below(
    live: LiveView,
    owner: OwnerView,
    rows: Seq<OfferingView>,
    go: Seq<GoModelView>,
)
    requires
        !live.per_provider.dom().contains(owner_key(owner)),
    ensures
        live_after_replace(
            live_after_replace(live, owner, rows, go),
            owner,
            Seq::empty(),
            go,
        ) == live,
{
    let none = Seq::<OfferingView>::empty();
    let identity = owner_identity(owner);
    lemma_filter_ends(none, |row: OfferingView| trim(row.provider) == identity);
    assert(none.take(0) =~= none);
    assert(replacement_rows(owner, none, go) =~= none);
    let after = live_after_replace(
        live_after_replace(live, owner, rows, go),
        owner,
        none,
        go,
    );
    assert(after.per_provider =~= live.per_provider);
}

/// With no live rows and no signed layer the merged view is the bundled one.
pub proof fn without_live_rows_the_bundled_rows_stand(
    bundled: Seq<OfferingView>,
    go: Seq<GoModelView>,
)
    ensures
        merged_rows(
            (LiveView { models_dev: None, per_provider: Map::empty() }),
            bundled,
            go,
            None,
        ) == cut_rows(bundled, go),
{
}

proof fn lemma_no_authoritative_row(live: LiveView, rows: Seq<OfferingView>, key: PairKey)
    requires
        authoritative(live, key.0),
    ensures
        forall|i: int|
            0 <= i < rows_without_roster(live, rows).len() ==> row_key(
                #[trigger] rows_without_roster(live, rows)[i],
            ) != key,
{
    let keep = |row: OfferingView| !authoritative(live, row.provider);
    lemma_filter_holds(rows, keep);
    assert forall|i: int| 0 <= i < rows_without_roster(live, rows).len() implies row_key(
        #[trigger] rows_without_roster(live, rows)[i],
    ) != key by {
        let row = rows_without_roster(live, rows)[i];
        assert(rows.filter(keep).contains(row));
        assert(keep(row));
    }
}

/// A provider-owned roster decides what its provider offers: every row of that
/// provider in the merged catalog is a row of a roster, or a signed row that the
/// payload attests the roster does not list.
pub proof fn a_roster_decides_what_its_provider_offers(
    live: LiveView,
    bundled: Seq<OfferingView>,
    signed: Option<SignedView>,
    key: PairKey,
)
    requires
        authoritative(live, key.0),
        merged_catalog(live, bundled, signed).dom().contains(key),
    ensures
        (exists|i: int|
            0 <= i < completed_rosters(live, signed).len() && row_key(
                #[trigger] completed_rosters(live, signed)[i],
            ) == key && merged_catalog(live, bundled, signed)[key] == completed_rosters(
                live,
                signed,
            )[i]) || (signed is Some && (signed->0).attested.contains(key) && merged_catalog(
            live,
            bundled,
            signed,
        )[key].source is CloudFacts),
{
    let lower_map = lower_catalog(live, bundled, signed);
    let rosters = completed_rosters(live, signed);
    lemma_with_rows(lower_map, rosters, key);
    if !(exists|i: int| 0 <= i < rosters.len() && row_key(#[trigger] rosters[i]) == key) {
        assert(lower_map.dom().contains(key));
        if signed is None {
            let first = with_rows(Map::empty(), rows_without_roster(live, bundled));
            lemma_no_authoritative_row(live, bundled, key);
            lemma_no_authoritative_row(live, models_dev_rows(live), key);
            lemma_with_rows(Map::empty(), rows_without_roster(live, bundled), key);
            lemma_with_rows(first, rows_without_roster(live, models_dev_rows(live)), key);
        }
    }
}

/// Without a signed layer, a row that is neither hidden by a roster nor part of
/// one is the Models.dev row where Models.dev has one, and the bundled row
/// otherwise.
pub proof fn models_dev_rows_override_bundled_rows(
    live: LiveView,
    bundled: Seq<OfferingView>,
    key: PairKey,
)
    requires
        !authoritative(live, key.0),
        forall|i: int|
            0 <= i < roster_rows(live).len() ==> row_key(#[trigger] roster_rows(live)[i]) != key,
    ensures
        (exists|i: int|
            0 <= i < models_dev_rows(live).len() && row_key(#[trigger] models_dev_rows(live)[i])
                == key) ==> merged_catalog(live, bundled, None).dom().contains(key)
            && models_dev_rows(live).contains(merged_catalog(live, bundled, None)[key]),
        !(exists|i: int|
            0 <= i < models_dev_rows(live).len() && row_key(#[trigger] models_dev_rows(live)[i])
                == key) ==> (merged_catalog(live, bundled, None).dom().contains(key) ==> (
        bundled.contains(merged_catalog(live, bundled, None)[key]) && row_key(
            merged_catalog(live, bundled, None)[key],
        ) == key)),
{
    let keep = |row: OfferingView| !authoritative(live, row.provider);
    let dev = models_dev_rows(live);
    let low = rows_without_roster(live, bundled);
    let mid = rows_without_roster(live, dev);
    let first = with_rows(Map::empty(), low);
    let base = with_rows(first, mid);
    lemma_filter_holds(bundled, keep);
    lemma_filter_holds(dev, keep);
    lemma_with_rows(Map::empty(), low, key);
    lemma_with_rows(first, mid, key);
    lemma_with_rows(base, roster_rows(live), key);
    if exists|i: int| 0 <= i < dev.len() && row_key(#[trigger] dev[i]) == key {
        let i = choose|i: int| 0 <= i < dev.len() && row_key(#[trigger] dev[i]) == key;
        assert(dev.contains(dev[i]));
        assert(dev.filter(keep).contains(dev[i]));
        let j = choose|j: int| 0 <= j < mid.len() && mid[j] == dev[i];
        assert(row_key(mid[j]) == key);
        let k = choose|k: int|
            0 <= k < mid.len() && #[trigger] mid[k] == base[key] && row_key(mid[k]) == key;
        assert(dev.filter(keep).contains(mid[k]));
    } else {
        assert forall|j: int| 0 <= j < mid.len() implies row_key(#[trigger] mid[j]) != key by {
            assert(dev.filter(keep).contains(mid[j]));
            let i = choose|i: int| 0 <= i < dev.len() && dev[i] == mid[j];
            assert(row_key(dev[i]) != key);
        }
        if base.dom().contains(key) {
            assert(first.dom().contains(key));
            let k = choose|k: int|
                0 <= k < low.len() && #[trigger] low[k] == first[key] && row_key(low[k]) == key;
            assert(bundled.filter(keep).contains(low[k]));
        }
    }
}

proof fn lemma_classes_differ()
    ensures
        "built-in"@ != "custom"@,
{
    reveal_strlit("built-in");
    reveal_strlit("custom");
    assert("built-in"@.len() == 8);
    assert("custom"@.len() == 6);
}

proof fn lemma_shown_of_filtered(
    per_provider: Map<PairKey, Seq<OfferingView>>,
    keys: Seq<PairKey>,
)
    ensures
        shown_rows(per_provider, keys) == shown_rows(
            per_provider,
            keys.filter(|k: PairKey| partition_is_shown(k)),
        ),
    decreases keys.len(),
{
    let shown = |k: PairKey| partition_is_shown(k);
    reveal(Seq::filter);
    if keys.len() > 0 {
        let init = keys.drop_last();
        lemma_shown_of_filtered(per_provider, init);
        if shown(keys.last()) {
            assert(keys.filter(shown) =~= init.filter(shown).push(keys.last()));
            assert(keys.filter(shown).drop_last() =~= init.filter(shown));
        } else {
            assert(keys.filter(shown) =~= init.filter(shown));
        }
    } else {
        assert(keys.filter(shown) =~= keys);
    }
}

proof fn lemma_filter_ascending(keys: Seq<PairKey>, keep: spec_fn(PairKey) -> bool)
    requires
        ascending(keys),
    ensures
        ascending(keys.filter(keep)),
    decreases keys.len(),
{
    reveal(Seq::filter);
    if keys.len() > 0 {
        let init = keys.drop_last();
        lemma_filter_ascending(init, keep);
        lemma_filter_holds(init, keep);
        let part = init.filter(keep);
        if keep(keys.last()) {
            assert forall|i: int, j: int|
                0 <= i < j < keys.filter(keep).len() implies key_before(
                #[trigger] keys.filter(keep)[i],
                #[trigger] keys.filter(keep)[j],
            ) by {
                if j == part.len() {
                    assert(part.contains(part[i]));
                    let n = choose|n: int| 0 <= n < init.len() && init[n] == part[i];
                    assert(keys[n] == part[i]);
                    assert(keys[keys.len() - 1] == keys.last());
                }
            }
        }
    }
}

proof fn lemma_shown_depends_on_values(
    a: Map<PairKey, Seq<OfferingView>>,
    b: Map<PairKey, Seq<OfferingView>>,
    keys: Seq<PairKey>,
)
    requires
        forall|i: int|
            0 <= i < keys.len() && partition_is_shown(#[trigger] keys[i]) ==> a[keys[i]]
                == b[keys[i]],
    ensures
        shown_rows(a, keys) == shown_rows(b, keys),
    decreases keys.len(),
{
    if keys.len() > 0 {
        let init = keys.drop_last();
        assert forall|i: int|
            0 <= i < init.len() && partition_is_shown(#[trigger] init[i]) implies a[init[i]]
            == b[init[i]] by {
            assert(keys[i] == init[i]);
        }
        lemma_shown_depends_on_values(a, b, init);
        assert(keys[keys.len() - 1] == keys.last());
    }
}

/// The roster rows depend on the shown partitions alone.
proof fn lemma_roster_rows_depend_on_shown(a: LiveView, b: LiveView)
    requires
        a.per_provider.dom().finite(),
        b.per_provider.dom().finite(),
        forall|k: PairKey| #[trigger]
            partition_is_shown(k) ==> (a.per_provider.dom().contains(k)
                <==> b.per_provider.dom().contains(k)) && (a.per_provider.dom().contains(k)
                ==> a.per_provider[k] == b.per_provider[k]),
    ensures
        roster_rows(a) == roster_rows(b),
{
    let shown = |k: PairKey| partition_is_shown(k);
    let x = keys_in_order(a.per_provider);
    let y = keys_in_order(b.per_provider);
    keys_in_order_exist(a.per_provider);
    keys_in_order_exist(b.per_provider);
    lemma_shown_of_filtered(a.per_provider, x);
    lemma_shown_of_filtered(b.per_provider, y);
    lemma_filter_ascending(x, shown);
    lemma_filter_ascending(y, shown);
    lemma_filter_holds(x, shown);
    lemma_filter_holds(y, shown);
    let m = a.per_provider.restrict(Set::new(|k: PairKey| partition_is_shown(k)));
    assert(lists_keys(m, x.filter(shown))) by {
        assert forall|k: PairKey| m.dom().contains(k) <==> #[trigger] x.filter(shown).contains(
            k,
        ) by {
            assert(x.contains(k) <==> a.per_provider.dom().contains(k));
        }
    }
    assert(lists_keys(m, y.filter(shown))) by {
        assert forall|k: PairKey| m.dom().contains(k) <==> #[trigger] y.filter(shown).contains(
            k,
        ) by {
            assert(y.contains(k) <==> b.per_provider.dom().contains(k));
            assert(shown(k) == partition_is_shown(k));
        }
    }
    lemma_keys_in_order(m, x.filter(shown));
    lemma_keys_in_order(m, y.filter(shown));
    let keys = x.filter(shown);
    assert forall|i: int|
        0 <= i < keys.len() && partition_is_shown(#[trigger] keys[i]) implies a.per_provider[keys[i]]
        == b.per_provider[keys[i]] by {
        assert(keys.contains(keys[i]));
        assert(x.contains(keys[i]));
    }
    lemma_shown_depends_on_values(a.per_provider, b.per_provider, keys);
}

/// A custom provider table whose name denotes a built-in provider never shows in
/// the merged view: publishing, replacing or emptying it changes nothing there.
pub proof fn custom_tables_do_not_reach_built_in_providers(
    live: LiveView,
    bundled: Seq<OfferingView>,
    signed: Option<SignedView>,
    name: Seq<char>,
    rows: Seq<OfferingView>,
    go: Seq<GoModelView>,
)
    requires
        live.per_provider.dom().finite(),
        api_named(name) is Some,
    ensures
        merged_catalog(
            live_after_replace(live, OwnerView::Custom(name), rows, go),
            bundled,
            signed,
        ) == merged_catalog(live, bundled, signed),
{
    lemma_classes_differ();
    let owner = OwnerView::Custom(name);
    let after = live_after_replace(live, owner, rows, go);
    assert(after.per_provider.dom().finite());
    assert forall|k: PairKey| #[trigger] partition_is_shown(k) implies (
    live.per_provider.dom().contains(k) <==> after.per_provider.dom().contains(k)) && (
    live.per_provider.dom().contains(k) ==> live.per_provider[k] == after.per_provider[k]) by {
        assert(!partition_is_shown(owner_key(owner)));
    }
    lemma_roster_rows_depend_on_shown(live, after);
    assert forall|provider: Seq<char>| #[trigger]
        authoritative(live, provider) == authoritative(after, provider) by {}
    let keep = |row: OfferingView| !authoritative(live, row.provider);
    let keep_after = |row: OfferingView| !authoritative(after, row.provider);
    assert(keep =~= keep_after);
    assert(models_dev_rows(after) == models_dev_rows(live));
    if let Some(layer) = signed {
        let patched = with_rows(Map::empty(), layer.patched);
        assert(attested_catalog(live, patched, layer.attested) =~= attested_catalog(
            after,
            patched,
            layer.attested,
        ));
    }
}

/// A built-in provider refresh never touches a custom table, not even one of the
/// same name.
pub proof fn built_in_refreshes_do_not_reach_custom_tables(
    live: LiveView,
    name: Seq<char>,
    rows: Seq<OfferingView>,
    go: Seq<GoModelView>,
    table: Seq<char>,
)
    ensures
        custom_rows(live_after_replace(live, OwnerView::BuiltIn(name), rows, go), table)
            == custom_rows(live, table),
{
    lemma_classes_differ();
}

/// Two custom tables whose names differ, be it in case alone, never share rows.
pub proof fn custom_tables_are_isolated_by_exact_name(
    live: LiveView,
    name: Seq<char>,
    rows: Seq<OfferingView>,
    go: Seq<GoModelView>,
    table: Seq<char>,
)
    requires
        trim(table) != name,
    ensures
        custom_rows(live_after_replace(live, OwnerView::Custom(name), rows, go), table)
            == custom_rows(live, table),
{
}

/// Where a provider's own listing holds a model, that is its origin, whatever
/// Models.dev says.
pub proof fn a_provider_listing_is_the_first_origin(
    live: LiveView,
    provider: ApiProvider,
    wire_model_id: Seq<char>,
)
    requires
        trim(wire_model_id).len() > 0,
        live.per_provider.dom().contains(owner_key(OwnerView::BuiltIn(trim(catalog_id(provider))))),
        some_row_is(
            live.per_provider[owner_key(OwnerView::BuiltIn(trim(catalog_id(provider))))],
            catalog_id(provider),
            trim(wire_model_id),
        ),
    ensures
        live_origin(live, provider, wire_model_id) == Some(LiveSource::PerProvider),
{
}

/// A provider with a compatibility name never ends up without models.
pub proof fn compatibility_names_keep_a_provider_usable(
    rows: Seq<OfferingView>,
    provider: ApiProvider,
    codex: Seq<Seq<char>>,
    completion: Seq<Seq<char>>,
    i: int,
)
    requires
        provider != ApiProvider::OpenaiCodex,
        0 <= i < completion.len(),
        trim(completion[i]).len() > 0,
    ensures
        identity_models(rows, provider, codex, completion).len() > 0,
{
    adding_models_lists_exactly_those(Seq::empty(), completion);
    assert(lists_model(with_models(Seq::empty(), completion), trim(completion[i])));
}

/// A provider without catalog rows offers its compatibility names as they are.
pub proof fn compatibility_names_stand_in_verbatim(
    rows: Seq<OfferingView>,
    provider: ApiProvider,
    codex: Seq<Seq<char>>,
    completion: Seq<Seq<char>>,
)
    requires
        provider != ApiProvider::OpenaiCodex,
        catalog_models(rows).len() == 0,
        clean_models(completion),
    ensures
        identity_models(rows, provider, codex, completion) == completion,
{
    adding_a_clean_list_gives_it_back(completion);
}

} // verus!
