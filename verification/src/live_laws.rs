//! What each refresh puts into the live partitions.

use vstd::prelude::*;
use crate::api_provider::{api_named, catalog_id, catalog_ids_are_trimmed, ApiProvider};
use crate::live::{
    cut_rows, group_of, grouped_rows, inferred_owner, live_after_merge, live_after_replace,
    live_after_set, owner_identity, owner_key, route_owner, GoModelView, LiveSource, LiveView,
    OwnerView,
};
use crate::offering::{lemma_with_rows_keyed, with_rows, OfferingView};
use crate::pair_map::{
    key_before, keys_in_order, keys_in_order_exist, ordered_values_are_the_values, values_in_order,
    PairKey,
};
use crate::row_laws::{
    a_named_model_has_a_last_row, last_of_its_key, lemma_same_filter, none_of_key,
    the_last_row_of_a_model_stands,
};
use crate::text::{trim, trim_keeps_the_middle};

verus! {

broadcast use vstd::string::group_string_axioms;

/// The rows of a list whose provider string names the built-in provider that the
/// catalogs list as `name`, each under that name, in order.
pub open spec fn built_in_rows(rows: Seq<OfferingView>, name: Seq<char>) -> Seq<OfferingView> {
    rows.filter(
        |row: OfferingView|
            match api_named(trim(row.provider)) {
                Some(p) => trim(catalog_id(p)) == name,
                None => false,
            },
    ).map_values(|row: OfferingView| OfferingView { provider: name, ..row })
}

/// The rows of a list whose provider string is `name` and names no built-in
/// provider, each under that name, in order.
pub open spec fn table_rows(rows: Seq<OfferingView>, name: Seq<char>) -> Seq<OfferingView> {
    rows.filter(
        |row: OfferingView| api_named(trim(row.provider)) is None && trim(row.provider) == name,
    ).map_values(|row: OfferingView| OfferingView { provider: name, ..row })
}

/// A group holds the rows of its owner, in order, under the owner's identity.
proof fn lemma_group(rows: Seq<OfferingView>, key: PairKey)
    ensures
        group_of(grouped_rows(rows), key) == rows.filter(
            |row: OfferingView| owner_key(inferred_owner(row.provider)) == key,
        ).map_values(|row: OfferingView| OfferingView { provider: key.1, ..row }),
        grouped_rows(rows).dom().contains(key) <==> group_of(grouped_rows(rows), key).len() > 0,
    decreases rows.len(),
{
    reveal(Seq::filter);
    let keep = |row: OfferingView| owner_key(inferred_owner(row.provider)) == key;
    let own = |row: OfferingView| OfferingView { provider: key.1, ..row };
    if rows.len() == 0 {
        assert(rows.filter(keep).map_values(own) =~= Seq::empty());
    } else {
        let init = rows.drop_last();
        lemma_group(init, key);
        let owner = inferred_owner(rows.last().provider);
        assert(owner_key(owner).1 == owner_identity(owner));
        if keep(rows.last()) {
            assert(rows.filter(keep).map_values(own) =~= init.filter(keep).map_values(own).push(
                own(rows.last()),
            ));
        }
    }
}

proof fn lemma_classes_differ()
    ensures
        "built-in"@ != "custom"@,
{
    reveal_strlit("built-in");
    reveal_strlit("custom");
    assert("built-in"@[0] == 'b');
    assert("custom"@[0] == 'c');
}

proof fn lemma_built_in_group(rows: Seq<OfferingView>, name: Seq<char>)
    ensures
        group_of(grouped_rows(rows), ("built-in"@, name)) == built_in_rows(rows, name),
        grouped_rows(rows).dom().contains(("built-in"@, name)) <==> built_in_rows(rows, name).len()
            > 0,
{
    lemma_classes_differ();
    lemma_group(rows, ("built-in"@, name));
    lemma_same_filter(
        rows,
        |row: OfferingView| owner_key(inferred_owner(row.provider)) == ("built-in"@, name),
        |row: OfferingView|
            match api_named(trim(row.provider)) {
                Some(p) => trim(catalog_id(p)) == name,
                None => false,
            },
    );
}

proof fn lemma_table_group(rows: Seq<OfferingView>, name: Seq<char>)
    ensures
        group_of(grouped_rows(rows), ("custom"@, name)) == table_rows(rows, name),
        grouped_rows(rows).dom().contains(("custom"@, name)) <==> table_rows(rows, name).len() > 0,
{
    lemma_classes_differ();
    lemma_group(rows, ("custom"@, name));
    lemma_same_filter(
        rows,
        |row: OfferingView| owner_key(inferred_owner(row.provider)) == ("custom"@, name),
        |row: OfferingView| api_named(trim(row.provider)) is None && trim(row.provider) == name,
    );
}

/// After a provider refresh the partition of every provider that a row names
/// holds exactly that provider's rows, in order, whatever it held before; every
/// other partition is as it was.
pub proof fn a_provider_refresh_replaces_what_it_names(
    live: LiveView,
    rows: Seq<OfferingView>,
    name: Seq<char>,
    go: Seq<GoModelView>,
)
    ensures
        ({
            let after = live_after_set(live, rows, LiveSource::PerProvider, go).per_provider;
            let named = built_in_rows(cut_rows(rows, go), name);
            let key = ("built-in"@, name);
            &&& named.len() > 0 ==> after.dom().contains(key) && after[key] == named
            &&& named.len() == 0 ==> (after.dom().contains(key)
                <==> live.per_provider.dom().contains(key)) && (after.dom().contains(key)
                ==> after[key] == live.per_provider[key])
        }),
        ({
            let after = live_after_set(live, rows, LiveSource::PerProvider, go).per_provider;
            let named = table_rows(cut_rows(rows, go), name);
            let key = ("custom"@, name);
            &&& named.len() > 0 ==> after.dom().contains(key) && after[key] == named
            &&& named.len() == 0 ==> (after.dom().contains(key)
                <==> live.per_provider.dom().contains(key)) && (after.dom().contains(key)
                ==> after[key] == live.per_provider[key])
        }),
{
    let groups = grouped_rows(cut_rows(rows, go));
    lemma_built_in_group(cut_rows(rows, go), name);
    lemma_table_group(cut_rows(rows, go), name);
    lemma_union(live.per_provider, groups, ("built-in"@, name));
    lemma_union(live.per_provider, groups, ("custom"@, name));
}

proof fn lemma_union(
    a: Map<PairKey, Seq<OfferingView>>,
    b: Map<PairKey, Seq<OfferingView>>,
    key: PairKey,
)
    ensures
        b.dom().contains(key) ==> a.union_prefer_right(b).dom().contains(key)
            && a.union_prefer_right(b)[key] == b[key],
        !b.dom().contains(key) ==> (a.union_prefer_right(b).dom().contains(key)
            <==> a.dom().contains(key)) && (a.dom().contains(key) ==> a.union_prefer_right(b)[key]
            == a[key]),
{
}

/// After a Models.dev refresh the Models.dev rows are the ones fetched, cut to
/// what can be served, whatever they were before.
pub proof fn a_models_dev_refresh_replaces_its_rows(
    live: LiveView,
    rows: Seq<OfferingView>,
    go: Seq<GoModelView>,
)
    ensures
        live_after_set(live, rows, LiveSource::ModelsDev, go).models_dev == Some(
            cut_rows(rows, go),
        ),
{
}

/// After one partition was replaced it holds exactly the rows given for its
/// identity, in order, whatever it held before, and it is gone when there are
/// none. Only a built-in provider's rows are cut.
pub proof fn a_replacement_holds_the_rows_given(
    live: LiveView,
    name: Seq<char>,
    rows: Seq<OfferingView>,
    go: Seq<GoModelView>,
)
    ensures
        ({
            let after = live_after_replace(live, OwnerView::BuiltIn(name), rows, go).per_provider;
            let given = cut_rows(rows, go).filter(
                |row: OfferingView| trim(row.provider) == name,
            ).map_values(|row: OfferingView| OfferingView { provider: name, ..row });
            let key = ("built-in"@, name);
            &&& given.len() > 0 ==> after.dom().contains(key) && after[key] == given
            &&& given.len() == 0 ==> !after.dom().contains(key)
        }),
        ({
            let after = live_after_replace(live, OwnerView::Custom(name), rows, go).per_provider;
            let given = rows.filter(
                |row: OfferingView| trim(row.provider) == name,
            ).map_values(|row: OfferingView| OfferingView { provider: name, ..row });
            let key = ("custom"@, name);
            &&& given.len() > 0 ==> after.dom().contains(key) && after[key] == given
            &&& given.len() == 0 ==> !after.dom().contains(key)
        }),
{
}

/// The partition of a route is kept under its catalog name: a custom route that
/// names its table has a partition of its own, every other route the one of its
/// provider.
pub proof fn a_route_has_one_partition(provider: ApiProvider, identity: Seq<char>)
    ensures
        provider != ApiProvider::Custom ==> route_owner(provider, Some(identity))
            == OwnerView::BuiltIn(catalog_id(provider)) && route_owner(provider, None)
            == OwnerView::BuiltIn(catalog_id(provider)),
        trim(identity).len() > 0 ==> route_owner(ApiProvider::Custom, Some(identity))
            == OwnerView::Custom(trim(identity)),
        trim(identity).len() == 0 ==> route_owner(ApiProvider::Custom, Some(identity))
            == OwnerView::Custom("custom"@),
        route_owner(ApiProvider::Custom, None) == OwnerView::Custom("custom"@),
{
    catalog_ids_are_trimmed(provider, None);
    catalog_ids_are_trimmed(ApiProvider::Custom, None);
    trim_keeps_the_middle(identity);
}

/// Whether `after` holds `old` with `new` laid over it: of every model the last
/// new row, or without one the last old row, and nothing else, in key order.
pub open spec fn laid_over(
    after: Seq<OfferingView>,
    old_rows: Seq<OfferingView>,
    new_rows: Seq<OfferingView>,
) -> bool {
    &&& forall|i: int| #[trigger] last_of_its_key(new_rows, i) ==> after.contains(new_rows[i])
    &&& forall|i: int| #[trigger]
        last_of_its_key(old_rows, i) && none_of_key(
            new_rows,
            old_rows[i].provider,
            old_rows[i].wire_model_id,
        ) ==> after.contains(old_rows[i])
    &&& forall|k: int|
        0 <= k < after.len() ==> {
            ||| exists|i: int| #[trigger]
                last_of_its_key(new_rows, i) && new_rows[i] == #[trigger] after[k]
            ||| none_of_key(new_rows, after[k].provider, after[k].wire_model_id) && exists|i: int|
             #[trigger]
                last_of_its_key(old_rows, i) && old_rows[i] == after[k]
        }
    &&& forall|i: int, j: int|
        0 <= i < j < after.len() ==> key_before(
            ((#[trigger] after[i]).provider, after[i].wire_model_id),
            ((#[trigger] after[j]).provider, after[j].wire_model_id),
        )
}

/// One list of rows laid over another, as a map and in key order.
pub(crate) proof fn lemma_laid_over(old_rows: Seq<OfferingView>, new_rows: Seq<OfferingView>)
    ensures
        laid_over(
            values_in_order(with_rows(with_rows(Map::empty(), old_rows), new_rows)),
            old_rows,
            new_rows,
        ),
{
    let low = with_rows(Map::empty(), old_rows);
    let all = with_rows(low, new_rows);
    let after = values_in_order(all);
    lemma_with_rows_keyed(Map::empty(), old_rows);
    lemma_with_rows_keyed(low, new_rows);
    the_last_row_of_a_model_stands(Map::empty(), old_rows);
    the_last_row_of_a_model_stands(low, new_rows);
    ordered_values_are_the_values(all);
    keys_in_order_exist(all);
    let keys = keys_in_order(all);
    assert forall|i: int| #[trigger] last_of_its_key(new_rows, i) implies after.contains(
        new_rows[i],
    ) by {
        assert(all.dom().contains((new_rows[i].provider, new_rows[i].wire_model_id)));
    }
    assert forall|i: int| #[trigger]
        last_of_its_key(old_rows, i) && none_of_key(
            new_rows,
            old_rows[i].provider,
            old_rows[i].wire_model_id,
        ) implies after.contains(old_rows[i]) by {
        assert(all.dom().contains((old_rows[i].provider, old_rows[i].wire_model_id)));
    }
    assert forall|k: int| 0 <= k < after.len() implies {
        ||| exists|i: int| #[trigger]
            last_of_its_key(new_rows, i) && new_rows[i] == #[trigger] after[k]
        ||| none_of_key(new_rows, after[k].provider, after[k].wire_model_id) && exists|i: int|
         #[trigger]
            last_of_its_key(old_rows, i) && old_rows[i] == after[k]
    } by {
        let key = keys[k];
        assert(all.dom().contains(key));
        assert(after[k] == all[key]);
        assert(key == (after[k].provider, after[k].wire_model_id));
        if !none_of_key(new_rows, key.0, key.1) {
            let i: int = a_named_model_has_a_last_row(new_rows, key.0, key.1);
            assert(last_of_its_key(new_rows, i) && new_rows[i] == after[k]);
        } else {
            assert(low.dom().contains(key));
            if none_of_key(old_rows, key.0, key.1) {
                assert(!low.dom().contains((key.0, key.1)));
            }
            let i: int = a_named_model_has_a_last_row(old_rows, key.0, key.1);
            assert(last_of_its_key(old_rows, i) && old_rows[i] == after[k]);
        }
    }
    assert forall|i: int, j: int| 0 <= i < j < after.len() implies key_before(
        ((#[trigger] after[i]).provider, after[i].wire_model_id),
        ((#[trigger] after[j]).provider, after[j].wire_model_id),
    ) by {
        assert(after[i] == all[keys[i]] && after[j] == all[keys[j]]);
        assert(all.dom().contains(keys[i]) && all.dom().contains(keys[j]));
        assert(key_before(keys[i], keys[j]));
    }
}

/// After rows were merged in, the partition of every provider that a row names
/// has of every model the last new row, or without one the last row that it had,
/// in key order; every other partition is as it was.
pub proof fn a_merge_prefers_the_new_rows(
    live: LiveView,
    rows: Seq<OfferingView>,
    name: Seq<char>,
)
    ensures
        ({
            let after = live_after_merge(live, rows).per_provider;
            let key = ("built-in"@, name);
            let named = built_in_rows(rows, name);
            &&& named.len() > 0 ==> after.dom().contains(key) && laid_over(
                after[key],
                if live.per_provider.dom().contains(key) {
                    live.per_provider[key]
                } else {
                    Seq::empty()
                },
                named,
            )
            &&& named.len() == 0 ==> (after.dom().contains(key)
                <==> live.per_provider.dom().contains(key)) && (after.dom().contains(key)
                ==> after[key] == live.per_provider[key])
        }),
        ({
            let after = live_after_merge(live, rows).per_provider;
            let key = ("custom"@, name);
            let named = table_rows(rows, name);
            &&& named.len() > 0 ==> after.dom().contains(key) && laid_over(
                after[key],
                if live.per_provider.dom().contains(key) {
                    live.per_provider[key]
                } else {
                    Seq::empty()
                },
                named,
            )
            &&& named.len() == 0 ==> (after.dom().contains(key)
                <==> live.per_provider.dom().contains(key)) && (after.dom().contains(key)
                ==> after[key] == live.per_provider[key])
        }),
{
    lemma_built_in_group(rows, name);
    lemma_table_group(rows, name);
    lemma_laid_over(group_of(live.per_provider, ("built-in"@, name)), built_in_rows(rows, name));
    lemma_laid_over(group_of(live.per_provider, ("custom"@, name)), table_rows(rows, name));
}

} // verus!
