//! What a lookup finds.

use vstd::prelude::*;
use crate::api_provider::{api_of_kind, catalog_id, ApiProvider};
use crate::lake::{
    configured_in_order, first_row, identity_models, identity_offering, identity_rows, live_origin,
    lookup_reads_the_merge, own_rows,
};
use crate::lists::lemma_filter_holds;
use crate::live::{LiveSource, LiveView};
use crate::model_list::{
    adding_a_clean_list_gives_it_back, adding_models_lists_exactly_those, catalog_models,
    clean_models, every_row_is_listed, lists_model, wire_ids, with_models,
};
use crate::offering::{
    lemma_with_rows_keyed, row_key, rows_for_provider, rows_of, with_rows, OfferingView,
};
use crate::pair_map::{keys_in_order, ordered_values_are_the_values, values_in_order};
use crate::provider::display_order;
use crate::provider_kind::ProviderKind;
use crate::route_catalog::{
    declared_for_route, declared_or_found, declared_position, fetched_rows, offered_models,
    route_models, route_offering, route_reads_the_merge, row_position, with_configured,
    with_declared, CachedRoster, ConfiguredModel, ConfiguredModels,
};
use crate::route_laws::signed_facts_do_not_cross_routes;
use crate::row_laws::{
    a_named_model_has_a_last_row, last_of_its_key, none_of_key, the_last_row_of_a_model_stands,
};
use crate::runtime::{signed_facts_apply, unlisted_catalog, RouteEndpoint};
use crate::runtime_laws::signer_names;
use crate::signed::SignedView;
use crate::text::{lower, trim, trim_keeps_the_middle};

verus! {

broadcast use vstd::string::group_string_axioms;

/// Whether a list has an id, up to case.
pub open spec fn has_id(models: Seq<Seq<char>>, id: Seq<char>) -> bool {
    exists|k: int| 0 <= k < models.len() && lower(#[trigger] models[k]) == lower(id)
}

/// Whether some declaration for the route declares an id.
pub open spec fn declares(models: Seq<ConfiguredModel>, id: Seq<char>) -> bool {
    exists|i: int|
        0 <= i < models.len() && (#[trigger] models[i]).matches_route && models[i].id@ == id
}

/// A custom route reads the live rows of its own table and nothing else; every
/// other route reads the rows that the merged view lists for its provider.
pub proof fn a_route_reads_its_own_rows(
    live: LiveView,
    merged: Seq<OfferingView>,
    provider: ApiProvider,
    identity: Option<Seq<char>>,
    table: Seq<char>,
)
    ensures
        provider != ApiProvider::Custom ==> identity_rows(live, merged, provider, identity)
            == merged.filter(
            |row: OfferingView| trim(row.provider) == trim(catalog_id(provider)),
        ),
        trim(table).len() > 0 ==> identity_rows(
            live,
            merged,
            ApiProvider::Custom,
            Some(table),
        ) == if live.per_provider.dom().contains(("custom"@, trim(table))) {
            live.per_provider[("custom"@, trim(table))]
        } else {
            Seq::empty()
        },
{
    trim_keeps_the_middle(table);
    if provider != ApiProvider::Custom {
        assert(crate::api_provider::catalog_id_for_identity(provider, identity)
            == catalog_id(provider));
    }
}

/// A model is looked up by its trimmed id, up to case, and the first row that has
/// it is the answer. The Codex account has no rows, and a blank id finds nothing.
pub proof fn the_first_row_of_the_id_is_found(
    rows: Seq<OfferingView>,
    provider: ApiProvider,
    model: Seq<char>,
    i: int,
)
    ensures
        provider == ApiProvider::OpenaiCodex || trim(model).len() == 0 ==> identity_offering(
            rows,
            provider,
            model,
        ) is None,
        provider != ApiProvider::OpenaiCodex && trim(model).len() > 0 && 0 <= i < rows.len()
            && lower(rows[i].wire_model_id) == lower(trim(model)) && (forall|j: int|
            0 <= j < i ==> lower((#[trigger] rows[j]).wire_model_id) != lower(trim(model)))
            ==> identity_offering(rows, provider, model) == Some(rows[i]),
        (forall|j: int|
            0 <= j < rows.len() ==> lower((#[trigger] rows[j]).wire_model_id) != lower(
                trim(model),
            )) ==> identity_offering(rows, provider, model) is None,
{
    lemma_first_row(rows, trim(model), i);
}

proof fn lemma_first_row(rows: Seq<OfferingView>, needle: Seq<char>, i: int)
    ensures
        0 <= i < rows.len() && lower(rows[i].wire_model_id) == lower(needle) && (forall|j: int|
            0 <= j < i ==> lower((#[trigger] rows[j]).wire_model_id) != lower(needle))
            ==> first_row(rows, needle) == Some(rows[i]),
        (forall|j: int|
            0 <= j < rows.len() ==> lower((#[trigger] rows[j]).wire_model_id) != lower(needle))
            ==> first_row(rows, needle) is None,
    decreases rows.len(),
{
    if rows.len() > 0 && lower(rows[0].wire_model_id) != lower(needle) {
        let rest = rows.drop_first();
        lemma_first_row(rest, needle, i - 1);
        assert forall|j: int| 0 <= j < rest.len() implies #[trigger] rest[j] == rows[j + 1] by {}
        if 0 < i < rows.len() && (forall|j: int|
            0 <= j < i ==> lower((#[trigger] rows[j]).wire_model_id) != lower(needle)) {
            assert forall|j: int| 0 <= j < i - 1 implies lower((#[trigger] rest[j]).wire_model_id)
                != lower(needle) by {
                assert(rest[j] == rows[j + 1]);
            }
            assert(rest[i - 1] == rows[i]);
        }
        if forall|j: int|
            0 <= j < rows.len() ==> lower((#[trigger] rows[j]).wire_model_id) != lower(needle) {
            assert forall|j: int| 0 <= j < rest.len() implies lower(
                (#[trigger] rest[j]).wire_model_id,
            ) != lower(needle) by {
                assert(rest[j] == rows[j + 1]);
            }
        }
    }
}

/// The models of a provider are those of its rows, each listed, and its
/// compatibility names only where no row has an id. The Codex account lists what
/// the account has.
pub proof fn a_provider_lists_its_rows(
    rows: Seq<OfferingView>,
    provider: ApiProvider,
    codex: Seq<Seq<char>>,
    completion: Seq<Seq<char>>,
)
    ensures
        identity_models(rows, ApiProvider::OpenaiCodex, codex, completion) == codex,
        provider != ApiProvider::OpenaiCodex && (exists|i: int|
            0 <= i < rows.len() && trim((#[trigger] rows[i]).wire_model_id).len() > 0)
            ==> identity_models(rows, provider, codex, completion) == catalog_models(rows)
            && forall|i: int|
            0 <= i < rows.len() && trim((#[trigger] rows[i]).wire_model_id).len() > 0 ==> has_id(
                identity_models(rows, provider, codex, completion),
                trim(rows[i].wire_model_id),
            ),
        provider != ApiProvider::OpenaiCodex && (forall|i: int|
            0 <= i < rows.len() ==> trim((#[trigger] rows[i]).wire_model_id).len() == 0) ==> {
            let models = identity_models(rows, provider, codex, completion);
            &&& clean_models(completion) ==> models == completion
            &&& forall|i: int|
                0 <= i < completion.len() && trim(#[trigger] completion[i]).len() > 0 ==> has_id(
                    models,
                    trim(completion[i]),
                )
        },
{
    every_row_is_listed(rows);
    adding_models_lists_exactly_those(Seq::empty(), completion);
    if clean_models(completion) {
        adding_a_clean_list_gives_it_back(completion);
    }
    if exists|i: int| 0 <= i < rows.len() && trim((#[trigger] rows[i]).wire_model_id).len() > 0 {
        let i = choose|i: int|
            0 <= i < rows.len() && trim((#[trigger] rows[i]).wire_model_id).len() > 0;
        assert(lists_model(catalog_models(rows), trim(rows[i].wire_model_id)));
        if provider != ApiProvider::OpenaiCodex {
            assert forall|i: int|
                0 <= i < rows.len() && trim((#[trigger] rows[i]).wire_model_id).len()
                    > 0 implies has_id(
                identity_models(rows, provider, codex, completion),
                trim(rows[i].wire_model_id),
            ) by {
                assert(lists_model(catalog_models(rows), trim(rows[i].wire_model_id)));
            }
        }
    } else {
        crate::model_list::catalog_models_are_clean(rows);
        if catalog_models(rows).len() > 0 {
            assert(catalog_models(rows).contains(catalog_models(rows)[0]));
        }
        assert forall|i: int|
            0 <= i < completion.len() && trim(#[trigger] completion[i]).len() > 0 implies has_id(
            with_models(Seq::empty(), completion),
            trim(completion[i]),
        ) by {
            assert(lists_model(with_models(Seq::empty(), completion), trim(completion[i])));
        }
    }
}

/// Whether some row is that model of that provider, up to case.
pub open spec fn lists_the_model(
    rows: Seq<OfferingView>,
    name: Seq<char>,
    model: Seq<char>,
) -> bool {
    exists|i: int|
        0 <= i < rows.len() && lower((#[trigger] rows[i]).provider) == lower(name) && lower(
            rows[i].wire_model_id,
        ) == lower(trim(model))
}

/// A model's live origin is the provider's own listing where that has it, then
/// Models.dev where that has it, and otherwise there is none.
pub proof fn a_live_origin_is_where_the_model_is(
    live: LiveView,
    provider: ApiProvider,
    model: Seq<char>,
)
    ensures
        ({
            let name = catalog_id(provider);
            let own = ("built-in"@, trim(name));
            let listed = trim(model).len() > 0 && live.per_provider.dom().contains(own)
                && lists_the_model(live.per_provider[own], name, model);
            let refreshed = trim(model).len() > 0 && live.models_dev is Some && lists_the_model(
                live.models_dev->0,
                name,
                model,
            );
            &&& live_origin(live, provider, model) == Some(LiveSource::PerProvider) <==> listed
            &&& live_origin(live, provider, model) == Some(LiveSource::ModelsDev) <==> refreshed
                && !listed
            &&& live_origin(live, provider, model) is None <==> !refreshed && !listed
        }),
{
    let name = catalog_id(provider);
    let own = ("built-in"@, trim(name));
    lemma_lists(live.per_provider[own], name, model);
    if live.models_dev is Some {
        lemma_lists(live.models_dev->0, name, model);
    }
}

proof fn lemma_lists(rows: Seq<OfferingView>, name: Seq<char>, model: Seq<char>)
    ensures
        lists_the_model(rows, name, model) <==> crate::lake::some_row_is(rows, name, trim(model)),
{
    if lists_the_model(rows, name, model) {
        let i = choose|i: int|
            0 <= i < rows.len() && lower((#[trigger] rows[i]).provider) == lower(name) && lower(
                rows[i].wire_model_id,
            ) == lower(trim(model));
        assert(crate::lake::row_is(rows[i], name, trim(model)));
    }
    if crate::lake::some_row_is(rows, name, trim(model)) {
        let i = choose|i: int|
            0 <= i < rows.len() && crate::lake::row_is(#[trigger] rows[i], name, trim(model));
        assert(lower(rows[i].provider) == lower(name));
    }
}

/// A built-in provider's own listing is its partition, and empty without one.
pub proof fn an_own_listing_is_the_partition(live: LiveView, provider: ApiProvider)
    ensures
        live.per_provider.dom().contains(("built-in"@, lower(catalog_id(provider)))) ==> own_rows(
            live,
            provider,
        ) == live.per_provider[("built-in"@, lower(catalog_id(provider)))],
        !live.per_provider.dom().contains(("built-in"@, lower(catalog_id(provider))))
            ==> own_rows(live, provider).len() == 0,
{
}

/// The providers that are set up are exactly the displayed ones that qualify.
pub proof fn the_set_up_providers_are_those_that_qualify(
    configured: Seq<ApiProvider>,
    p: ApiProvider,
)
    ensures
        configured_in_order(configured).contains(p) <==> configured.contains(p) && exists|i: int|
            0 <= i < display_order().len() && api_of_kind(#[trigger] display_order()[i]) == p,
{
    let all = display_order().map_values(|k: ProviderKind| api_of_kind(k));
    let keep = |p: ApiProvider| configured.contains(p);
    lemma_filter_holds(all, keep);
    if all.contains(p) {
        let i = choose|i: int| 0 <= i < all.len() && all[i] == p;
        assert(api_of_kind(display_order()[i]) == p);
    }
    if exists|i: int|
        0 <= i < display_order().len() && api_of_kind(#[trigger] display_order()[i]) == p {
        let i = choose|i: int|
            0 <= i < display_order().len() && api_of_kind(#[trigger] display_order()[i]) == p;
        assert(all[i] == p);
    }
}

/// A route with a listing of its own lists what that lists, in its order, and
/// after it what a signed layer that describes the route attests beside it.
pub proof fn a_listing_is_given_in_its_order(
    live: LiveView,
    bundled: Seq<OfferingView>,
    provider: ApiProvider,
    in_signed_scope: bool,
    keeps_custom_model: bool,
    roster: Seq<OfferingView>,
    signed: Option<SignedView>,
    codex: Seq<Seq<char>>,
    completion: Seq<Seq<char>>,
    j: int,
)
    requires
        provider != ApiProvider::OpenaiCodex,
    ensures
        ({
            let models = route_models(
                live,
                bundled,
                provider,
                in_signed_scope,
                keeps_custom_model,
                Some(roster),
                signed,
                codex,
                completion,
            );
            let described = signed is Some && in_signed_scope && signer_names(provider);
            &&& clean_models(wire_ids(roster)) ==> models.len() >= roster.len() && forall|i: int|
                0 <= i < roster.len() ==> #[trigger] models[i] == roster[i].wire_model_id
            &&& clean_models(wire_ids(roster)) && !described ==> models.len() == roster.len()
            &&& forall|i: int|
                0 <= i < roster.len() && trim((#[trigger] roster[i]).wire_model_id).len() > 0
                    ==> has_id(models, trim(roster[i].wire_model_id))
            &&& described && last_of_its_key((signed->0).unlisted, j) && trim(
                (signed->0).unlisted[j].wire_model_id,
            ).len() > 0 && (signed->0).attested.contains(
                ((signed->0).unlisted[j].provider, (signed->0).unlisted[j].wire_model_id),
            ) ==> has_id(models, trim((signed->0).unlisted[j].wire_model_id))
        }),
{
    signed_facts_do_not_cross_routes(provider, in_signed_scope);
    let unlisted = unlisted_catalog(provider, in_signed_scope, signed);
    let values = values_in_order(unlisted);
    let listed = with_models(Seq::empty(), wire_ids(roster));
    let models = with_models(listed, wire_ids(values));
    adding_models_lists_exactly_those(Seq::empty(), wire_ids(roster));
    adding_models_lists_exactly_those(listed, wire_ids(values));
    lemma_unlisted_finite(provider, in_signed_scope, signed);
    ordered_values_are_the_values(unlisted);
    if clean_models(wire_ids(roster)) {
        adding_a_clean_list_gives_it_back(wire_ids(roster));
        assert(listed == wire_ids(roster));
        assert forall|i: int| 0 <= i < roster.len() implies #[trigger] models[i]
            == roster[i].wire_model_id by {
            assert(models.take(listed.len() as int)[i] == listed[i]);
        }
        if !(signed is Some && in_signed_scope && signer_names(provider)) {
            assert(values.len() == 0) by {
                if values.len() > 0 {
                    assert(unlisted.dom().contains(keys_in_order(unlisted)[0]));
                }
            }
            assert(wire_ids(values) =~= Seq::empty());
        }
    }
    assert forall|i: int|
        0 <= i < roster.len() && trim((#[trigger] roster[i]).wire_model_id).len() > 0 implies has_id(
        models,
        trim(roster[i].wire_model_id),
    ) by {
        assert(wire_ids(roster)[i] == roster[i].wire_model_id);
        let k = choose|k: int|
            0 <= k < listed.len() && lower(#[trigger] listed[k]) == lower(
                trim(roster[i].wire_model_id),
            );
        assert(models.take(listed.len() as int)[k] == listed[k]);
        assert(lower(models[k]) == lower(trim(roster[i].wire_model_id)));
    }
    if signed is Some && in_signed_scope && signer_names(provider) {
        let layer = signed->0;
        if last_of_its_key(layer.unlisted, j) && trim(layer.unlisted[j].wire_model_id).len() > 0
            && layer.attested.contains(
            (layer.unlisted[j].provider, layer.unlisted[j].wire_model_id),
        ) {
            let row = layer.unlisted[j];
            the_last_row_of_a_model_stands(Map::empty(), layer.unlisted);
            assert(unlisted.dom().contains((row.provider, row.wire_model_id)));
            assert(values.contains(row));
            let v = choose|v: int| 0 <= v < values.len() && values[v] == row;
            assert(wire_ids(values)[v] == row.wire_model_id);
            assert(lists_model(models, trim(row.wire_model_id)));
        }
    }
}

proof fn lemma_unlisted_finite(
    provider: ApiProvider,
    in_signed_scope: bool,
    signed: Option<SignedView>,
)
    ensures
        unlisted_catalog(provider, in_signed_scope, signed).dom().finite(),
        crate::offering::self_keyed(unlisted_catalog(provider, in_signed_scope, signed)),
{
    if signed is Some && signed_facts_apply(provider, in_signed_scope) {
        let layer = signed->0;
        let rows = with_rows(Map::empty(), layer.unlisted);
        lemma_with_rows_keyed(Map::empty(), layer.unlisted);
        assert(unlisted_catalog(provider, in_signed_scope, signed).dom().subset_of(rows.dom()));
    }
}

/// A route without a listing lists nothing where no catalog row describes it: a
/// custom route, a route without a kind, and one that keeps a custom model. The
/// Codex account lists what the account has, whatever else is there.
pub proof fn an_undescribed_route_lists_nothing(
    live: LiveView,
    bundled: Seq<OfferingView>,
    provider: ApiProvider,
    in_signed_scope: bool,
    keeps_custom_model: bool,
    roster: Option<Seq<OfferingView>>,
    signed: Option<SignedView>,
    codex: Seq<Seq<char>>,
    completion: Seq<Seq<char>>,
)
    ensures
        provider == ApiProvider::OpenaiCodex ==> route_models(
            live,
            bundled,
            provider,
            in_signed_scope,
            keeps_custom_model,
            roster,
            signed,
            codex,
            completion,
        ) == codex,
        provider != ApiProvider::OpenaiCodex && roster is None && (provider == ApiProvider::Custom
            || provider == ApiProvider::DeepseekCN || keeps_custom_model) ==> route_models(
            live,
            bundled,
            provider,
            in_signed_scope,
            keeps_custom_model,
            roster,
            signed,
            codex,
            completion,
        ).len() == 0,
{
}

proof fn lemma_position(rows: Seq<OfferingView>, model: Seq<char>, from: int, i: int)
    requires
        0 <= from <= rows.len(),
    ensures
        from <= i < rows.len() && rows[i].wire_model_id == model && (forall|j: int|
            from <= j < i ==> (#[trigger] rows[j]).wire_model_id != model) ==> row_position(
            rows,
            model,
            from,
        ) == Some(i),
        (forall|j: int| from <= j < rows.len() ==> (#[trigger] rows[j]).wire_model_id != model)
            ==> row_position(rows, model, from) is None,
        row_position(rows, model, from) is Some ==> from <= row_position(rows, model, from)->0
            < rows.len() && rows[row_position(rows, model, from)->0].wire_model_id == model,
    decreases rows.len() - from,
{
    if from < rows.len() {
        lemma_position(rows, model, from + 1, i);
    }
}

/// A route with a listing of its own answers for an id with the first row that
/// has exactly that id. A signed layer that describes the route may fill that row
/// out, and is asked about an id that is not listed; without one such an id has no
/// row.
pub proof fn a_listing_answers_for_its_ids(
    live: LiveView,
    bundled: Seq<OfferingView>,
    merged: Seq<OfferingView>,
    provider: ApiProvider,
    identity: Seq<char>,
    endpoint: &RouteEndpoint,
    roster: Seq<OfferingView>,
    signed: Option<SignedView>,
    model: Seq<char>,
    i: int,
    j: int,
)
    ensures
        ({
            let found = route_offering(
                live,
                bundled,
                merged,
                provider,
                identity,
                endpoint,
                Some(roster),
                signed,
                model,
            );
            let described = signed is Some && endpoint.in_signed_scope && signer_names(provider);
            &&& 0 <= i < roster.len() && roster[i].wire_model_id == model && (forall|k: int|
                0 <= k < i ==> (#[trigger] roster[k]).wire_model_id != model) ==> {
                &&& found is Some
                &&& (found->0).provider == roster[i].provider
                &&& (found->0).wire_model_id == model
                &&& !described ==> found->0 == roster[i]
                &&& described ==> found->0 == roster[i] || (i < (signed->0).completed.len()
                    && found->0 == (signed->0).completed[i])
                &&& described && i < (signed->0).completed.len() && (
                signed->0).completed[i].provider == roster[i].provider && (
                signed->0).completed[i].wire_model_id == model ==> found->0 == (
                signed->0).completed[i]
            }
            &&& (forall|k: int|
                0 <= k < roster.len() ==> (#[trigger] roster[k]).wire_model_id != model) ==> {
                &&& !described ==> found is None
                &&& found is Some ==> (found->0).wire_model_id == model && (
                signed->0).unlisted.contains(found->0) && (signed->0).attested.contains(
                    ((found->0).provider, model),
                )
                &&& described && last_of_its_key((signed->0).unlisted, j) && (
                signed->0).unlisted[j].wire_model_id == model && (signed->0).attested.contains(
                    ((signed->0).unlisted[j].provider, model),
                ) ==> found is Some
            }
        }),
{
    signed_facts_do_not_cross_routes(provider, endpoint.in_signed_scope);
    lemma_position(roster, model, 0, i);
    let unlisted = unlisted_catalog(provider, endpoint.in_signed_scope, signed);
    let values = values_in_order(unlisted);
    lemma_unlisted_finite(provider, endpoint.in_signed_scope, signed);
    ordered_values_are_the_values(unlisted);
    lemma_position(values, model, 0, 0);
    let described = signed is Some && endpoint.in_signed_scope && signer_names(provider);
    if forall|k: int| 0 <= k < roster.len() ==> (#[trigger] roster[k]).wire_model_id != model {
        if !described {
            assert(values.len() == 0) by {
                if values.len() > 0 {
                    assert(unlisted.dom().contains(keys_in_order(unlisted)[0]));
                }
            }
        } else {
            let layer = signed->0;
            the_last_row_of_a_model_stands(Map::empty(), layer.unlisted);
            if row_position(values, model, 0) is Some {
                let p = row_position(values, model, 0)->0;
                let key = keys_in_order(unlisted)[p];
                assert(unlisted.dom().contains(key));
                assert(values[p] == unlisted[key]);
                assert(row_key(values[p]) == key);
                if none_of_key(layer.unlisted, key.0, key.1) {
                    assert(!with_rows(Map::empty(), layer.unlisted).dom().contains(
                        (key.0, key.1),
                    ));
                }
                let q: int = a_named_model_has_a_last_row(layer.unlisted, key.0, key.1);
                assert(last_of_its_key(layer.unlisted, q));
                assert(layer.unlisted[q] == values[p]);
            }
            if last_of_its_key(layer.unlisted, j) && layer.unlisted[j].wire_model_id == model
                && layer.attested.contains((layer.unlisted[j].provider, model)) {
                let row = layer.unlisted[j];
                assert(unlisted.dom().contains((row.provider, row.wire_model_id)));
                assert(values.contains(row));
                let v = choose|v: int| 0 <= v < values.len() && values[v] == row;
                if row_position(values, model, 0) is None {
                    lemma_none_before(values, model, 0);
                    assert(values[v].wire_model_id != model);
                }
            }
        }
    }
}

proof fn lemma_none_before(rows: Seq<OfferingView>, model: Seq<char>, from: int)
    requires
        0 <= from <= rows.len(),
        row_position(rows, model, from) is None,
    ensures
        forall|j: int| from <= j < rows.len() ==> (#[trigger] rows[j]).wire_model_id != model,
    decreases rows.len() - from,
{
    if from < rows.len() {
        lemma_none_before(rows, model, from + 1);
    }
}

/// A route without a listing answers with the first row that it reads that has the
/// id, up to case: not with a row that another endpoint
/// listed, and in place of a signed row that does not describe the route with the
/// first bundled row. A route that no catalog row describes has no answer.
pub proof fn a_route_without_a_listing_answers_from_the_merge(
    live: LiveView,
    bundled: Seq<OfferingView>,
    merged: Seq<OfferingView>,
    provider: ApiProvider,
    identity: Seq<char>,
    endpoint: &RouteEndpoint,
    signed: Option<SignedView>,
    model: Seq<char>,
    i: int,
    b: int,
)
    ensures
        ({
            let found = route_offering(
                live,
                bundled,
                merged,
                provider,
                identity,
                endpoint,
                None,
                signed,
                model,
            );
            let rows = identity_rows(live, merged, provider, Some(identity));
            let packed = bundled.filter(|row: OfferingView| row.provider == catalog_id(provider));
            let needle = lower(trim(model));
            let first = 0 <= i < rows.len() && lower(rows[i].wire_model_id) == needle && (forall|
                k: int,
            |
                0 <= k < i ==> lower((#[trigger] rows[k]).wire_model_id) != needle);
            let answers = provider != ApiProvider::DeepseekCN && provider
                != ApiProvider::OpenaiCodex && !endpoint.keeps_custom_model && trim(model).len()
                > 0;
            &&& !answers ==> found is None
            &&& (forall|k: int|
                0 <= k < rows.len() ==> lower((#[trigger] rows[k]).wire_model_id) != needle)
                ==> found is None
            &&& answers && first && !(rows[i].source is CloudFacts) && !(rows[i].source is Live)
                ==> found == Some(rows[i])
            &&& answers && first && rows[i].source is CloudFacts && endpoint.in_signed_scope
                && signer_names(provider) ==> found == Some(rows[i])
            &&& answers && first && rows[i].source is Live ==> found == if (
            rows[i].source->base_url_fingerprint) == endpoint.fingerprint@ {
                Some(rows[i])
            } else {
                None
            }
            &&& answers && first && rows[i].source is CloudFacts && !(endpoint.in_signed_scope
                && signer_names(provider)) ==> {
                &&& 0 <= b < packed.len() && lower(packed[b].wire_model_id) == needle && (forall|
                    k: int,
                |
                    0 <= k < b ==> lower((#[trigger] packed[k]).wire_model_id) != needle)
                    ==> found == Some(packed[b])
                &&& (forall|k: int|
                    0 <= k < packed.len() ==> lower((#[trigger] packed[k]).wire_model_id)
                        != needle) ==> found is None
            }
        }),
{
    signed_facts_do_not_cross_routes(provider, endpoint.in_signed_scope);
    let rows = identity_rows(live, merged, provider, Some(identity));
    let packed = rows_for_provider(bundled, catalog_id(provider));
    the_first_row_of_the_id_is_found(rows, provider, model, i);
    the_first_row_of_the_id_is_found(packed, provider, model, b);
}

proof fn lemma_declared(models: Seq<ConfiguredModel>, model: Seq<char>, from: int, i: int)
    requires
        0 <= from <= models.len(),
    ensures
        from <= i < models.len() && models[i].id@ == model && models[i].matches_route && (forall|
            j: int,
        |
            from <= j < i ==> !((#[trigger] models[j]).id@ == model && models[j].matches_route))
            ==> declared_position(models, model, from) == Some(i),
        (forall|j: int|
            from <= j < models.len() ==> !((#[trigger] models[j]).id@ == model
                && models[j].matches_route)) ==> declared_position(models, model, from) is None,
    decreases models.len() - from,
{
    if from < models.len() {
        lemma_declared(models, model, from + 1, i);
    }
}

/// The declaration of a model on a route is the first one with exactly its id that
/// matches the route. The Codex account takes none, and neither does any route
/// from declarations that failed validation.
pub proof fn the_first_matching_declaration_counts(
    c: &ConfiguredModels,
    provider: ApiProvider,
    model: Seq<char>,
    i: int,
)
    ensures
        provider == ApiProvider::OpenaiCodex || !c.valid ==> declared_for_route(
            Some(c),
            provider,
            model,
        ) is None,
        declared_for_route(None, provider, model) is None,
        provider != ApiProvider::OpenaiCodex && c.valid && 0 <= i < c.models@.len()
            && c.models@[i].id@ == model && c.models@[i].matches_route && (forall|j: int|
            0 <= j < i ==> !((#[trigger] c.models@[j]).id@ == model && c.models@[j].matches_route))
            ==> declared_for_route(Some(c), provider, model) == Some(c.models@[i]),
        (forall|j: int|
            0 <= j < c.models@.len() ==> !((#[trigger] c.models@[j]).id@ == model
                && c.models@[j].matches_route)) ==> declared_for_route(Some(c), provider, model)
            is None,
{
    lemma_declared(c.models@, model, 0, i);
}

/// The declared models of a route come after those that the catalog has, in the
/// order in which they are declared, each once; declarations that do not count
/// change nothing.
pub proof fn declared_models_are_added_once(
    ids: Seq<Seq<char>>,
    c: &ConfiguredModels,
    provider: ApiProvider,
)
    ensures
        with_configured(ids, None, provider) == ids,
        provider == ApiProvider::OpenaiCodex || !c.valid ==> with_configured(
            ids,
            Some(c),
            provider,
        ) == ids,
        provider != ApiProvider::OpenaiCodex && c.valid ==> {
            let all = with_configured(ids, Some(c), provider);
            &&& all.len() >= ids.len()
            &&& all.take(ids.len() as int) == ids
            &&& forall|i: int|
                0 <= i < c.models@.len() && (#[trigger] c.models@[i]).matches_route
                    ==> all.contains(c.models@[i].id@)
            &&& forall|k: int|
                ids.len() <= k < all.len() ==> !ids.contains(#[trigger] all[k]) && declares(
                    c.models@,
                    all[k],
                )
            &&& forall|a: int, b: int|
                ids.len() <= a < b < all.len() ==> #[trigger] all[a] != #[trigger] all[b]
        },
{
    if provider != ApiProvider::OpenaiCodex && c.valid {
        lemma_with_declared(ids, c.models@);
    }
}

proof fn lemma_with_declared(ids: Seq<Seq<char>>, models: Seq<ConfiguredModel>)
    ensures
        ({
            let all = with_declared(ids, models);
            &&& all.len() >= ids.len()
            &&& all.take(ids.len() as int) == ids
            &&& forall|i: int|
                0 <= i < models.len() && (#[trigger] models[i]).matches_route ==> all.contains(
                    models[i].id@,
                )
            &&& forall|k: int|
                ids.len() <= k < all.len() ==> !ids.contains(#[trigger] all[k]) && declares(
                    models,
                    all[k],
                )
            &&& forall|a: int, b: int|
                ids.len() <= a < b < all.len() ==> #[trigger] all[a] != #[trigger] all[b]
        }),
    decreases models.len(),
{
    let all = with_declared(ids, models);
    if models.len() == 0 {
        assert(all.take(ids.len() as int) =~= ids);
    } else {
        let init = models.drop_last();
        let n = models.len() - 1;
        let part = with_declared(ids, init);
        lemma_with_declared(ids, init);
        assert(models[n] == models.last());
        assert(all.take(ids.len() as int) =~= part.take(ids.len() as int));
        assert forall|i: int|
            0 <= i < models.len() && (#[trigger] models[i]).matches_route implies all.contains(
            models[i].id@,
        ) by {
            if i < n {
                assert(init[i] == models[i]);
                let k = choose|k: int| 0 <= k < part.len() && part[k] == models[i].id@;
                assert(all[k] == models[i].id@);
            } else if part.contains(models[n].id@) {
                assert(all == part);
            } else {
                assert(all[part.len() as int] == models[n].id@);
            }
        }
        assert forall|k: int| ids.len() <= k < all.len() implies !ids.contains(#[trigger] all[k])
            && declares(models, all[k]) by {
            if k < part.len() {
                assert(all[k] == part[k]);
                let i = choose|i: int|
                    0 <= i < init.len() && (#[trigger] init[i]).matches_route && init[i].id@
                        == part[k];
                assert(models[i] == init[i]);
            } else {
                assert(all[k] == models[n].id@);
                assert(models[n].matches_route);
                if ids.contains(all[k]) {
                    let p = choose|p: int| 0 <= p < ids.len() && ids[p] == all[k];
                    assert(part.take(ids.len() as int)[p] == ids[p]);
                    assert(part[p] == all[k]);
                }
            }
        }
        assert forall|a: int, b: int| ids.len() <= a < b < all.len() implies #[trigger] all[a]
            != #[trigger] all[b] by {
            if b < part.len() {
                assert(all[a] == part[a] && all[b] == part[b]);
            } else {
                assert(all[a] == part[a]);
            }
        }
    }
}


/// A cached listing counts only where it was fetched at some time.
pub proof fn a_listing_that_was_never_fetched_is_none(roster: &CachedRoster)
    ensures
        fetched_rows(None) is None,
        roster.fetched_at == 0 ==> fetched_rows(Some(roster)) is None,
        roster.fetched_at > 0 ==> fetched_rows(Some(roster)) == Some(rows_of(roster.offerings@)),
{
}

proof fn lemma_filter_keeps_order<T>(
    list: Seq<T>,
    keep: spec_fn(T) -> bool,
    a: int,
    b: int,
) -> (at: (int, int))
    requires
        0 <= a < b < list.len(),
        keep(list[a]),
        keep(list[b]),
    ensures
        0 <= at.0 < at.1 < list.filter(keep).len(),
        list.filter(keep)[at.0] == list[a],
        list.filter(keep)[at.1] == list[b],
    decreases list.len(),
{
    reveal(Seq::filter);
    let init = list.drop_last();
    let n = list.len() - 1;
    if b < n {
        let at: (int, int) = lemma_filter_keeps_order(init, keep, a, b);
        at
    } else {
        lemma_filter_holds(init, keep);
        assert(init[a] == list[a]);
        assert(init.contains(list[a]));
        assert(init.filter(keep).contains(list[a]));
        let i = choose|i: int| 0 <= i < init.filter(keep).len() && init.filter(keep)[i] == list[a];
        (i, init.filter(keep).len() as int)
    }
}

/// The providers that are set up are shown in display order.
pub proof fn the_set_up_providers_keep_the_display_order(
    configured: Seq<ApiProvider>,
    a: int,
    b: int,
) -> (at: (int, int))
    requires
        0 <= a < b < display_order().len(),
        configured.contains(api_of_kind(display_order()[a])),
        configured.contains(api_of_kind(display_order()[b])),
    ensures
        0 <= at.0 < at.1 < configured_in_order(configured).len(),
        configured_in_order(configured)[at.0] == api_of_kind(display_order()[a]),
        configured_in_order(configured)[at.1] == api_of_kind(display_order()[b]),
{
    let all = display_order().map_values(|k: ProviderKind| api_of_kind(k));
    let keep = |p: ApiProvider| configured.contains(p);
    lemma_filter_keeps_order(all, keep, a, b)
}


/// A declaration stands over what the catalog has, whatever that is; without one
/// the catalog answers.
pub proof fn a_declaration_stands_over_the_catalog(
    declared: ConfiguredModel,
    found: Option<OfferingView>,
)
    ensures
        declared_or_found(Some(declared), found) == Some(declared.offering@),
        declared_or_found(None, found) == found,
{
}

/// Only a provider that is set up offers its models, and it offers all of them.
pub proof fn only_a_set_up_provider_offers_models(
    set_up: Seq<ApiProvider>,
    provider: ApiProvider,
    models: Seq<Seq<char>>,
    i: int,
)
    ensures
        0 <= i < set_up.len() && set_up[i] == provider ==> offered_models(set_up, provider, models)
            == models,
        (forall|j: int| 0 <= j < set_up.len() ==> set_up[j] != provider) ==> offered_models(
            set_up,
            provider,
            models,
        ).len() == 0,
{
}


/// A lookup reads the merged view exactly for a nonblank id of a provider that has
/// rows there, and where it does not the merged view makes no difference.
pub proof fn a_lookup_reads_the_merge_only_where_it_counts(
    live: LiveView,
    provider: ApiProvider,
    identity: Option<Seq<char>>,
    endpoint: &RouteEndpoint,
    roster: Option<Seq<OfferingView>>,
    model: Seq<char>,
    a: Seq<OfferingView>,
    b: Seq<OfferingView>,
)
    ensures
        lookup_reads_the_merge(provider, model) <==> provider != ApiProvider::OpenaiCodex
            && provider != ApiProvider::Custom && trim(model).len() > 0,
        !lookup_reads_the_merge(provider, model) ==> identity_offering(
            identity_rows(live, a, provider, identity),
            provider,
            model,
        ) == identity_offering(identity_rows(live, b, provider, identity), provider, model),
        route_reads_the_merge(provider, endpoint, roster, model) <==> roster is None && provider
            != ApiProvider::DeepseekCN && !endpoint.keeps_custom_model && provider
            != ApiProvider::OpenaiCodex && provider != ApiProvider::Custom && trim(model).len() > 0,
{
}

} // verus!
