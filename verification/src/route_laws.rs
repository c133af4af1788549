//! What holds of concrete routes and of what they can execute.

use vstd::prelude::*;
use crate::api_provider::{catalog_id, catalog_id_for_identity, ApiProvider};
use crate::lake::{first_row, identity_rows};
use crate::lists::lemma_filter_holds;
use crate::live::LiveView;
use crate::merge::{completion_keeps_every_key, models_dev_rows};
use crate::model_list::{
    adding_models_lists_exactly_those, lists_model, wire_ids, with_models,
};
use crate::offering::{
    lemma_with_rows_keyed, row_key, rows_for_provider, with_rows, OfferingView,
};
use crate::pair_map::{
    keys_in_order, keys_in_order_exist, ordered_values_are_the_values, values_in_order, PairKey,
};
use crate::route_catalog::{
    merged_route_offering, roster_models, roster_offering, route_models, route_offering,
    row_position, with_declared, ConfiguredModel,
};
use crate::runtime::{
    endpoint_authoritative, first_key_of, foreign_routes, from_endpoint, reports_default,
    roster_routes, route_key, route_rows, routes_after_facts, runtime_routes, selected_rows,
    signed_facts_apply, unlisted_catalog, with_elected_default, with_missing_routes, with_routes,
    RouteEndpoint, RouteRow, RuntimeInputs,
};
use crate::signed::{FactView, ModelOp, SignedView};
use crate::text::{contains, lower, trim};

verus! {

/// Signed facts reach only the route that the signer names: never an endpoint
/// out of scope, and never a regional or dual-wire variant that shares a catalog
/// partition with the named provider.
pub proof fn signed_facts_do_not_cross_routes(provider: ApiProvider, in_signed_scope: bool)
    ensures
        signed_facts_apply(provider, in_signed_scope) ==> in_signed_scope && provider
            != ApiProvider::DeepseekCN && provider != ApiProvider::DeepseekAnthropic && provider
            != ApiProvider::SiliconflowCn,
        in_signed_scope && provider != ApiProvider::DeepseekCN && provider
            != ApiProvider::DeepseekAnthropic && provider != ApiProvider::SiliconflowCn
            ==> signed_facts_apply(provider, in_signed_scope),
{
    reveal_strlit("deepseek");
    reveal_strlit("deepseek-anthropic");
    reveal_strlit("siliconflow");
    reveal_strlit("siliconflow-CN");
    assert("deepseek"@.len() == 8 && "deepseek-anthropic"@.len() == 18);
    assert("siliconflow"@.len() == 11 && "siliconflow-CN"@.len() == 14);
}

/// A route that signed facts do not describe has no unlisted rows, and every
/// unlisted row of a route is one that the payload attests.
pub proof fn unlisted_rows_are_attested_on_the_exact_route(
    provider: ApiProvider,
    in_signed_scope: bool,
    signed: Option<SignedView>,
    key: PairKey,
)
    requires
        unlisted_catalog(provider, in_signed_scope, signed).dom().contains(key),
    ensures
        signed is Some,
        signed_facts_apply(provider, in_signed_scope),
        (signed->0).attested.contains(key),
        row_key(unlisted_catalog(provider, in_signed_scope, signed)[key]) == key,
{
    let layer = signed->0;
    lemma_with_rows_keyed(Map::empty(), layer.unlisted);
}

proof fn lemma_unlisted_finite(
    provider: ApiProvider,
    in_signed_scope: bool,
    signed: Option<SignedView>,
)
    ensures
        unlisted_catalog(provider, in_signed_scope, signed).dom().finite(),
{
    if signed is Some && signed_facts_apply(provider, in_signed_scope) {
        let layer = signed->0;
        let rows = with_rows(Map::empty(), layer.unlisted);
        lemma_with_rows_keyed(Map::empty(), layer.unlisted);
        assert(unlisted_catalog(provider, in_signed_scope, signed).dom().subset_of(rows.dom()));
    }
}

/// A cached listing owns its omissions: every model of a route that has one is
/// an id that it lists, or an id that the payload attests it does not.
pub proof fn a_listing_owns_its_omissions(
    live: LiveView,
    bundled: Seq<OfferingView>,
    provider: ApiProvider,
    in_signed_scope: bool,
    keeps_custom_model: bool,
    roster: Seq<OfferingView>,
    signed: Option<SignedView>,
    codex: Seq<Seq<char>>,
    completion: Seq<Seq<char>>,
    model: Seq<char>,
)
    requires
        provider != ApiProvider::OpenaiCodex,
        route_models(
            live,
            bundled,
            provider,
            in_signed_scope,
            keeps_custom_model,
            Some(roster),
            signed,
            codex,
            completion,
        ).contains(model),
    ensures
        (exists|i: int|
            0 <= i < roster.len() && model == trim((#[trigger] roster[i]).wire_model_id)) || (
        exists|key: PairKey| #[trigger]
            unlisted_catalog(provider, in_signed_scope, signed).dom().contains(key) && model
                == trim(key.1)),
{
    let unlisted = unlisted_catalog(provider, in_signed_scope, signed);
    let values = values_in_order(unlisted);
    let listed = with_models(Seq::empty(), wire_ids(roster));
    adding_models_lists_exactly_those(Seq::empty(), wire_ids(roster));
    adding_models_lists_exactly_those(listed, wire_ids(values));
    lemma_unlisted_finite(provider, in_signed_scope, signed);
    ordered_values_are_the_values(unlisted);
    if listed.contains(model) {
        let i = choose|i: int| 0 <= i < roster.len() && model == trim(
            #[trigger] wire_ids(roster)[i],
        );
        assert(model == trim(roster[i].wire_model_id));
    } else {
        let i = choose|i: int| 0 <= i < values.len() && model == trim(
            #[trigger] wire_ids(values)[i],
        );
        let key = keys_in_order(unlisted)[i];
        assert(unlisted.dom().contains(key));
        assert(values[i] == unlisted[key]);
        unlisted_rows_are_attested_on_the_exact_route(provider, in_signed_scope, signed, key);
    }
}

/// Every id that a cached listing lists is a model of its route, blanks aside.
pub proof fn a_listing_owns_its_ids(
    roster: Seq<OfferingView>,
    unlisted: Map<PairKey, OfferingView>,
    i: int,
)
    requires
        0 <= i < roster.len(),
        trim(roster[i].wire_model_id).len() > 0,
    ensures
        lists_model(
            roster_models(roster, unlisted),
            trim(roster[i].wire_model_id),
        ),
{
    let listed = with_models(Seq::empty(), wire_ids(roster));
    let all = roster_models(roster, unlisted);
    adding_models_lists_exactly_those(Seq::empty(), wire_ids(roster));
    adding_models_lists_exactly_those(listed, wire_ids(values_in_order(unlisted)));
    assert(wire_ids(roster)[i] == roster[i].wire_model_id);
    let k = choose|k: int|
        0 <= k < listed.len() && lower(#[trigger] listed[k]) == lower(
            trim(roster[i].wire_model_id),
        );
    assert(all.take(listed.len() as int)[k] == listed[k]);
    assert(lower(all[k]) == lower(trim(roster[i].wire_model_id)));
}

proof fn lemma_position_found(rows: Seq<OfferingView>, model: Seq<char>, from: int)
    requires
        0 <= from,
    ensures
        match row_position(rows, model, from) {
            Some(i) => from <= i < rows.len() && rows[i].wire_model_id == model,
            None => forall|i: int|
                from <= i < rows.len() ==> (#[trigger] rows[i]).wire_model_id != model,
        },
    decreases rows.len() - from,
{
    if from < rows.len() && rows[from].wire_model_id != model {
        lemma_position_found(rows, model, from + 1);
    }
}

/// A route with a listing of its own answers for a model only when it lists it,
/// or when the payload attests that it does not.
pub proof fn a_listing_answers_only_for_what_it_owns(
    provider: ApiProvider,
    in_signed_scope: bool,
    roster: Seq<OfferingView>,
    signed: Option<SignedView>,
    model: Seq<char>,
)
    requires
        roster_offering(provider, in_signed_scope, roster, signed, model) is Some,
        forall|i: int| 0 <= i < roster.len() ==> (#[trigger] roster[i]).wire_model_id != model,
    ensures
        signed_facts_apply(provider, in_signed_scope),
        exists|key: PairKey| #[trigger]
            unlisted_catalog(provider, in_signed_scope, signed).dom().contains(key) && key.1
                == model && roster_offering(provider, in_signed_scope, roster, signed, model)
                == Some(unlisted_catalog(provider, in_signed_scope, signed)[key]),
{
    let unlisted = unlisted_catalog(provider, in_signed_scope, signed);
    let values = values_in_order(unlisted);
    lemma_position_found(roster, model, 0);
    lemma_position_found(values, model, 0);
    lemma_unlisted_finite(provider, in_signed_scope, signed);
    ordered_values_are_the_values(unlisted);
    let i = row_position(values, model, 0)->0;
    let key = keys_in_order(unlisted)[i];
    assert(unlisted.dom().contains(key));
    assert(values[i] == unlisted[key]);
    unlisted_rows_are_attested_on_the_exact_route(provider, in_signed_scope, signed, key);
}

/// A route with a listing of its own answers with the id that was asked for, and
/// for a listed model with a row of the provider that lists it.
pub proof fn a_listing_answers_with_the_id_asked_for(
    live: LiveView,
    bundled: Seq<OfferingView>,
    merged: Seq<OfferingView>,
    provider: ApiProvider,
    identity: Seq<char>,
    endpoint: &RouteEndpoint,
    roster: Seq<OfferingView>,
    signed: Option<SignedView>,
    model: Seq<char>,
)
    ensures
        match route_offering(
            live,
            bundled,
            merged,
            provider,
            identity,
            endpoint,
            Some(roster),
            signed,
            model,
        ) {
            Some(row) => row.wire_model_id == model && match row_position(roster, model, 0) {
                Some(i) => row_key(row) == row_key(roster[i]),
                None => true,
            },
            None => forall|i: int|
                0 <= i < roster.len() ==> (#[trigger] roster[i]).wire_model_id != model,
        },
{
    lemma_position_found(roster, model, 0);
    lemma_position_found(
        values_in_order(unlisted_catalog(provider, endpoint.in_signed_scope, signed)),
        model,
        0,
    );
    if let Some(layer) = signed {
        completion_keeps_every_key(roster, layer.completed);
    }
}

/// Without a listing of its own, a route answers with the id that was asked for,
/// up to case and surrounding white space.
pub proof fn a_merged_answer_is_the_model_asked_for(
    live: LiveView,
    bundled: Seq<OfferingView>,
    merged: Seq<OfferingView>,
    provider: ApiProvider,
    identity: Seq<char>,
    endpoint: &RouteEndpoint,
    signed: Option<SignedView>,
    model: Seq<char>,
)
    ensures
        match route_offering(
            live,
            bundled,
            merged,
            provider,
            identity,
            endpoint,
            None,
            signed,
            model,
        ) {
            Some(row) => lower(row.wire_model_id) == lower(trim(model)),
            None => true,
        },
{
    lemma_first_row(identity_rows(live, merged, provider, Some(identity)), trim(model));
    lemma_first_row(rows_for_provider(bundled, catalog_id(provider)), trim(model));
}

proof fn lemma_first_row(rows: Seq<OfferingView>, needle: Seq<char>)
    ensures
        match first_row(rows, needle) {
            Some(row) => lower(row.wire_model_id) == lower(needle),
            None => true,
        },
    decreases rows.len(),
{
    if rows.len() > 0 {
        lemma_first_row(rows.drop_first(), needle);
    }
}

/// What the merged view says of a route never comes from another endpoint's
/// listing, nor from signed facts that do not describe the route.
pub proof fn no_facts_of_another_route(
    found: Option<OfferingView>,
    bundled: Option<OfferingView>,
    applies: bool,
    fingerprint: Seq<char>,
)
    ensures
        match merged_route_offering(found, bundled, applies, fingerprint) {
            Some(row) => (found == Some(row) && (row.source is CloudFacts ==> applies) && (
            row.source is Live ==> from_endpoint(row, fingerprint))) || (bundled == Some(row)
                && !applies),
            None => true,
        },
{
}

/// Configuration declarations come after the models of the catalog, which keep
/// their places, and declare each id once.
pub proof fn declarations_come_after_the_catalog(
    ids: Seq<Seq<char>>,
    models: Seq<ConfiguredModel>,
)
    ensures
        ids.len() <= with_declared(ids, models).len(),
        with_declared(ids, models).take(ids.len() as int) == ids,
        forall|i: int|
            0 <= i < models.len() && (#[trigger] models[i]).matches_route ==> with_declared(
                ids,
                models,
            ).contains(models[i].id@),
    decreases models.len(),
{
    let all = with_declared(ids, models);
    if models.len() == 0 {
        assert(all.take(ids.len() as int) =~= ids);
    } else {
        let init = models.drop_last();
        let part = with_declared(ids, init);
        let n = models.len() - 1;
        declarations_come_after_the_catalog(ids, init);
        assert(all.take(ids.len() as int) =~= part.take(ids.len() as int));
        assert forall|i: int|
            0 <= i < models.len() && (#[trigger] models[i]).matches_route implies all.contains(
            models[i].id@,
        ) by {
            if i < n {
                assert(init[i] == models[i]);
                let k = choose|k: int| 0 <= k < part.len() && part[k] == models[i].id@;
                assert(all[k] == part[k]);
            } else if !part.contains(models[n].id@) {
                assert(all[part.len() as int] == models[n].id@);
            }
        }
    }
}

/// A roster that is not fresh, or not from the selected endpoint, never decides
/// what a route can execute.
pub proof fn only_a_fresh_matching_roster_is_executed(
    live: LiveView,
    provider: ApiProvider,
    identity: Option<Seq<char>>,
    fingerprint: Seq<char>,
    fresh: bool,
)
    ensures
        !fresh ==> !endpoint_authoritative(live, provider, identity, fingerprint, fresh),
        endpoint_authoritative(live, provider, identity, fingerprint, fresh) ==> forall|i: int|
            0 <= i < selected_rows(live, provider, identity, fingerprint, fresh).len()
                ==> from_endpoint(
                #[trigger] selected_rows(live, provider, identity, fingerprint, fresh)[i],
                fingerprint,
            ),
        !endpoint_authoritative(live, provider, identity, fingerprint, fresh) ==> forall|i: int|
            0 <= i < selected_rows(live, provider, identity, fingerprint, fresh).len()
                ==> models_dev_rows(live).contains(
                #[trigger] selected_rows(live, provider, identity, fingerprint, fresh)[i],
            ),
{
    if !endpoint_authoritative(live, provider, identity, fingerprint, fresh) {
        let name = trim(catalog_id_for_identity(provider, identity));
        let keep = |row: OfferingView| trim(row.provider) == name;
        let rows = models_dev_rows(live);
        lemma_filter_holds(rows, keep);
        assert forall|i: int|
            0 <= i < selected_rows(live, provider, identity, fingerprint, fresh).len() implies rows.contains(
            #[trigger] selected_rows(live, provider, identity, fingerprint, fresh)[i],
        ) by {
            assert(rows.filter(keep).contains(rows.filter(keep)[i]));
        }
    }
}

/// Signed facts never add an executable row, and a hidden model stays hidden.
pub proof fn signed_facts_only_correct_or_hide(
    m: Map<PairKey, RouteRow>,
    source: Map<PairKey, OfferingView>,
    facts: Seq<FactView>,
    key: PairKey,
)
    ensures
        routes_after_facts(m, source, facts).dom().contains(key) ==> m.dom().contains(key),
        (exists|i: int|
            0 <= i < facts.len() && (#[trigger] facts[i]).op == ModelOp::Hide && (
            facts[i].provider,
            facts[i].id,
        ) == key) ==> !routes_after_facts(m, source, facts).dom().contains(key),
    decreases facts.len(),
{
    if facts.len() > 0 {
        let init = facts.drop_last();
        signed_facts_only_correct_or_hide(m, source, init, key);
        if exists|i: int|
            0 <= i < facts.len() && (#[trigger] facts[i]).op == ModelOp::Hide && (
            facts[i].provider,
            facts[i].id,
        ) == key {
            let i = choose|i: int|
                0 <= i < facts.len() && (#[trigger] facts[i]).op == ModelOp::Hide && (
                facts[i].provider,
                facts[i].id,
            ) == key;
            if i < init.len() {
                assert(init[i] == facts[i]);
            }
        }
    }
}

proof fn lemma_with_routes(m: Map<PairKey, RouteRow>, rows: Seq<RouteRow>, key: PairKey)
    requires
        with_routes(m, rows).dom().contains(key),
    ensures
        rows.contains(with_routes(m, rows)[key]) || (m.dom().contains(key) && with_routes(
            m,
            rows,
        )[key] == m[key]),
    decreases rows.len(),
{
    if rows.len() > 0 {
        if route_key(rows.last()) == key {
            assert(rows[rows.len() - 1] == rows.last());
        } else {
            let init = rows.drop_last();
            lemma_with_routes(m, init, key);
            if init.contains(with_routes(m, init)[key]) {
                let j = choose|j: int| 0 <= j < init.len() && init[j] == with_routes(m, init)[key];
                assert(rows[j] == init[j]);
            }
        }
    }
}

proof fn lemma_with_missing_routes(m: Map<PairKey, RouteRow>, rows: Seq<RouteRow>, key: PairKey)
    requires
        with_missing_routes(m, rows).dom().contains(key),
    ensures
        rows.contains(with_missing_routes(m, rows)[key]) || (m.dom().contains(key)
            && with_missing_routes(m, rows)[key] == m[key]),
        m.dom().contains(key) ==> with_missing_routes(m, rows)[key] == m[key],
    decreases rows.len(),
{
    if rows.len() > 0 {
        let init = rows.drop_last();
        let part = with_missing_routes(m, init);
        if part.dom().contains(key) {
            lemma_with_missing_routes(m, init, key);
            if init.contains(part[key]) {
                let j = choose|j: int| 0 <= j < init.len() && init[j] == part[key];
                assert(rows[j] == init[j]);
            }
        } else {
            assert(rows[rows.len() - 1] == rows.last());
            if m.dom().contains(key) {
                lemma_missing_keeps(m, init, key);
            }
        }
    }
}

proof fn lemma_missing_keeps(m: Map<PairKey, RouteRow>, rows: Seq<RouteRow>, key: PairKey)
    requires
        m.dom().contains(key),
    ensures
        with_missing_routes(m, rows).dom().contains(key),
        with_missing_routes(m, rows)[key] == m[key],
    decreases rows.len(),
{
    if rows.len() > 0 {
        lemma_missing_keeps(m, rows.drop_last(), key);
    }
}

/// A fresh roster replaces its provider's whole scope: an executable row of that
/// provider is a row of the roster, or an attested row that it does not list. A
/// row of the roster is never displaced by an attested one.
pub proof fn a_fresh_roster_replaces_its_whole_scope(
    m: Map<PairKey, RouteRow>,
    transport: Seq<char>,
    roster: Seq<OfferingView>,
    unlisted: Map<PairKey, OfferingView>,
    key: PairKey,
)
    requires
        roster_routes(m, transport, roster, unlisted).dom().contains(key),
    ensures
        roster_routes(m, transport, roster, unlisted)[key].provider == transport
            ==> route_rows(roster).contains(
            roster_routes(m, transport, roster, unlisted)[key],
        ) || route_rows(values_in_order(unlisted)).contains(
            roster_routes(m, transport, roster, unlisted)[key],
        ),
        with_routes(foreign_routes(m, transport), route_rows(roster)).dom().contains(key)
            ==> roster_routes(m, transport, roster, unlisted)[key] == with_routes(
            foreign_routes(m, transport),
            route_rows(roster),
        )[key],
{
    let own = with_routes(foreign_routes(m, transport), route_rows(roster));
    lemma_with_missing_routes(own, route_rows(values_in_order(unlisted)), key);
    if own.dom().contains(key) {
        lemma_with_routes(foreign_routes(m, transport), route_rows(roster), key);
    }
}

proof fn lemma_first_key(m: Map<PairKey, RouteRow>, keys: Seq<PairKey>, name: Seq<char>)
    ensures
        match first_key_of(m, keys, name) {
            Some(key) => keys.contains(key) && m[key].provider == name,
            None => forall|i: int| 0 <= i < keys.len() ==> m[#[trigger] keys[i]].provider != name,
        },
    decreases keys.len(),
{
    if keys.len() > 0 && m[keys[0]].provider != name {
        let rest = keys.drop_first();
        lemma_first_key(m, rest, name);
        match first_key_of(m, rest, name) {
            Some(key) => {
                let j = choose|j: int| 0 <= j < rest.len() && rest[j] == key;
                assert(keys[j + 1] == key);
            },
            None => {
                assert forall|i: int| 0 <= i < keys.len() implies m[#[trigger] keys[i]].provider
                    != name by {
                    if i > 0 {
                        assert(rest[i - 1] == keys[i]);
                    }
                }
            },
        }
    } else if keys.len() > 0 {
        assert(keys.contains(keys[0]));
    }
}

/// Election gives a provider with rows a default, keeps a reported one, and
/// changes nothing else.
pub proof fn election_gives_a_default_and_nothing_else(
    m: Map<PairKey, RouteRow>,
    name: Seq<char>,
    key: PairKey,
)
    requires
        m.dom().finite(),
        m.dom().contains(key),
        m[key].provider == name,
    ensures
        reports_default(with_elected_default(m, name), name),
        reports_default(m, name) ==> with_elected_default(m, name) == m,
        with_elected_default(m, name).dom() == m.dom(),
        forall|k: PairKey| #[trigger]
            m.dom().contains(k) ==> (RouteRow {
                default_for_provider: true,
                ..with_elected_default(m, name)[k]
            }) == (RouteRow { default_for_provider: true, ..m[k] }),
{
    keys_in_order_exist(m);
    let keys = keys_in_order(m);
    lemma_first_key(m, keys, name);
    let after = with_elected_default(m, name);
    if !reports_default(m, name) {
        assert(keys.contains(key));
        let j = choose|j: int| 0 <= j < keys.len() && keys[j] == key;
        assert(m[keys[j]].provider == name);
        assert(first_key_of(m, keys, name) is Some);
        let elected = first_key_of(m, keys, name)->0;
        assert(keys.contains(elected));
        assert(m.dom().contains(elected));
        assert(after.dom().contains(elected));
        assert(after.dom() =~= m.dom());
    }
}

/// Whatever a catalog row says, OpenCode Zen's Muse Spark models are executed
/// over Responses.
pub proof fn muse_spark_is_executed_over_responses(
    live: LiveView,
    identity: Option<Seq<char>>,
    fingerprint: Seq<char>,
    fresh: bool,
    inputs: RuntimeInputs,
    key: PairKey,
)
    requires
        runtime_routes(
            live,
            ApiProvider::OpencodeZen,
            identity,
            fingerprint,
            fresh,
            inputs,
        ).dom().contains(key),
    ensures
        ({
            let row = runtime_routes(
                live,
                ApiProvider::OpencodeZen,
                identity,
                fingerprint,
                fresh,
                inputs,
            )[key];
            row.provider == catalog_id(ApiProvider::OpencodeZen) && contains(
                lower(row.wire_model_id),
                "muse-spark"@,
            ) ==> row.endpoint_key == "responses"@
        }),
{
}

} // verus!
