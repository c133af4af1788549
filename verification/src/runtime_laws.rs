//! Which row a route executes for a model.

use vstd::prelude::*;
use crate::api_provider::{catalog_id, catalog_id_for_identity, ApiProvider};
use crate::catalog_laws::refreshed_rows;
use crate::live::LiveView;
use crate::live_laws::{laid_over, lemma_laid_over};
use crate::offering::{lemma_with_rows_keyed, row_key, self_keyed, with_rows, OfferingView};
use crate::pair_map::{
    ascending, key_before, key_order_is_strict_and_total, keys_in_order, keys_in_order_exist,
    ordered_values_are_the_values, values_in_order, PairKey,
};
use crate::route_laws::signed_facts_do_not_cross_routes;
use crate::row_laws::{
    a_named_model_has_a_last_row, last_of_its_key, none_of_key, the_last_row_of_a_model_stands,
};
use crate::runtime::{
    corrected_route, endpoint_authoritative, first_key_of, foreign_routes, plain_routes,
    reports_default, route_key, route_row, route_rows, routes_after_facts, runtime_roster,
    runtime_routes, selected_rows, signed_facts_apply, transport_id, transported_rows,
    unlisted_catalog, unsigned_source_catalog, with_elected_default, with_missing_routes,
    with_routes, CapabilityState, RouteRow, RuntimeInputs,
};
use crate::signed::{FactView, ModelOp, SignedView};
use crate::text::{contains, lower, precedes, text_order_is_strict_and_total, trim};

verus! {

broadcast use vstd::string::group_string_axioms;

/// Whether row `i` is the last one that is executed under its key.
pub open spec fn last_of_its_route(rows: Seq<RouteRow>, i: int) -> bool {
    &&& 0 <= i < rows.len()
    &&& forall|j: int|
        i < j < rows.len() ==> lower(trim((#[trigger] rows[j]).provider)) != lower(
            trim(rows[i].provider),
        ) || rows[j].wire_model_id != rows[i].wire_model_id
}

/// Whether no row of `rows` is executed under that key.
pub open spec fn none_of_route(rows: Seq<RouteRow>, key: PairKey) -> bool {
    forall|j: int|
        0 <= j < rows.len() ==> lower(trim((#[trigger] rows[j]).provider)) != key.0
            || rows[j].wire_model_id != key.1
}

/// Rows laid over an executable map: the last one under a key stands, and what no
/// row names stays as it was.
proof fn lemma_last_route(m: Map<PairKey, RouteRow>, rows: Seq<RouteRow>)
    ensures
        forall|i: int| #[trigger]
            last_of_its_route(rows, i) ==> with_routes(m, rows).dom().contains(
                (lower(trim(rows[i].provider)), rows[i].wire_model_id),
            ) && with_routes(m, rows)[(lower(trim(rows[i].provider)), rows[i].wire_model_id)]
                == rows[i],
        forall|key: PairKey| #[trigger]
            none_of_route(rows, key) ==> (with_routes(m, rows).dom().contains(key)
                <==> m.dom().contains(key)) && with_routes(m, rows)[key] == m[key],
        m.dom().finite() ==> with_routes(m, rows).dom().finite(),
    decreases rows.len(),
{
    if rows.len() > 0 {
        let init = rows.drop_last();
        let n = rows.len() - 1;
        lemma_last_route(m, init);
        assert(rows[n] == rows.last());
        assert forall|i: int| #[trigger] last_of_its_route(rows, i) implies with_routes(
            m,
            rows,
        ).dom().contains((lower(trim(rows[i].provider)), rows[i].wire_model_id)) && with_routes(
            m,
            rows,
        )[(lower(trim(rows[i].provider)), rows[i].wire_model_id)] == rows[i] by {
            if i < n {
                assert forall|j: int| i < j < init.len() implies lower(
                    trim((#[trigger] init[j]).provider),
                ) != lower(trim(init[i].provider)) || init[j].wire_model_id
                    != init[i].wire_model_id by {
                    assert(init[j] == rows[j]);
                }
                assert(last_of_its_route(init, i));
                assert(init[i] == rows[i]);
                assert(route_key(rows[n]) != route_key(rows[i])) by {
                    assert(lower(trim(rows[n].provider)) != lower(trim(rows[i].provider))
                        || rows[n].wire_model_id != rows[i].wire_model_id);
                }
            }
        }
        assert forall|key: PairKey| #[trigger] none_of_route(rows, key) implies (with_routes(
            m,
            rows,
        ).dom().contains(key) <==> m.dom().contains(key)) && with_routes(m, rows)[key]
            == m[key] by {
            assert forall|j: int| 0 <= j < init.len() implies lower(
                trim((#[trigger] init[j]).provider),
            ) != key.0 || init[j].wire_model_id != key.1 by {
                assert(init[j] == rows[j]);
            }
            assert(none_of_route(init, key));
            assert(lower(trim(rows[n].provider)) != key.0 || rows[n].wire_model_id != key.1);
        }
    }
}

/// A list that has rows under a key has a last one.
proof fn lemma_named_route(rows: Seq<RouteRow>, key: PairKey) -> (i: int)
    requires
        !none_of_route(rows, key),
    ensures
        last_of_its_route(rows, i),
        (lower(trim(rows[i].provider)), rows[i].wire_model_id) == key,
    decreases rows.len(),
{
    let n = rows.len() - 1;
    let j = choose|j: int|
        0 <= j < rows.len() && lower(trim((#[trigger] rows[j]).provider)) == key.0
            && rows[j].wire_model_id == key.1;
    if lower(trim(rows[n].provider)) == key.0 && rows[n].wire_model_id == key.1 {
        n
    } else {
        let init = rows.drop_last();
        assert(init[j] == rows[j]);
        let i: int = lemma_named_route(init, key);
        assert forall|k: int| i < k < rows.len() implies lower(
            trim((#[trigger] rows[k]).provider),
        ) != lower(trim(rows[i].provider)) || rows[k].wire_model_id != rows[i].wire_model_id by {
            if k < n {
                assert(init[k] == rows[k]);
            }
        }
        i
    }
}

/// A catalog row is executed as it stands: no field is changed, limits that are
/// not stated are unknown, and so is a capability that is not.
pub proof fn a_catalog_row_is_executed_as_it_stands(row: OfferingView)
    ensures
        route_row(row).provider == row.provider,
        route_row(row).wire_model_id == row.wire_model_id,
        route_row(row).endpoint_key == row.endpoint_key,
        route_row(row).default_for_provider == row.default_for_provider,
        route_row(row).price == row.price,
        route_row(row).details == row.details,
        row.limit is None ==> route_row(row).context_tokens is None && route_row(
            row,
        ).output_tokens is None,
        row.limit is Some ==> route_row(row).context_tokens == (row.limit->0).context && route_row(
            row,
        ).output_tokens == (row.limit->0).output,
        route_row(row).reasoning == CapabilityState::Supported <==> row.reasoning == Some(true),
        route_row(row).reasoning == CapabilityState::Unsupported <==> row.reasoning == Some(
            false,
        ),
        route_row(row).reasoning == CapabilityState::Unknown <==> row.reasoning is None,
{
}

/// Whether the signer's own identity is the route's: it is not for a regional or
/// dual-wire variant, which shares the rows of another provider.
pub open spec fn signer_names(provider: ApiProvider) -> bool {
    provider != ApiProvider::DeepseekCN && provider != ApiProvider::DeepseekAnthropic && provider
        != ApiProvider::SiliconflowCn
}

/// The partition that holds the roster of a route.
pub open spec fn partition_of(provider: ApiProvider, identity: Option<Seq<char>>) -> PairKey {
    (
        if provider == ApiProvider::Custom {
            "custom"@
        } else {
            "built-in"@
        },
        trim(catalog_id_for_identity(provider, identity)),
    )
}

/// A route is decided by its own roster exactly where that is fresh, has rows,
/// and has only rows of this provider that were fetched at this very endpoint.
pub proof fn a_fresh_roster_of_the_endpoint_decides(
    live: LiveView,
    provider: ApiProvider,
    identity: Option<Seq<char>>,
    fingerprint: Seq<char>,
    fresh: bool,
)
    ensures
        endpoint_authoritative(live, provider, identity, fingerprint, fresh) <==> {
            &&& fresh
            &&& live.per_provider.dom().contains(partition_of(provider, identity))
            &&& live.per_provider[partition_of(provider, identity)].len() > 0
            &&& forall|i: int|
                0 <= i < live.per_provider[partition_of(provider, identity)].len() ==> {
                    let row = #[trigger] live.per_provider[partition_of(provider, identity)][i];
                    &&& trim(row.provider) == partition_of(provider, identity).1
                    &&& row.source is Live
                    &&& row.source->base_url_fingerprint == fingerprint
                }
        },
{
    let key = partition_of(provider, identity);
    assert(key == crate::live::owner_key(crate::live::route_owner(provider, identity)));
    let rows = live.per_provider[key];
    if endpoint_authoritative(live, provider, identity, fingerprint, fresh) {
        assert forall|i: int| 0 <= i < rows.len() implies {
            let row = #[trigger] rows[i];
            &&& trim(row.provider) == key.1
            &&& row.source is Live
            &&& row.source->base_url_fingerprint == fingerprint
        } by {
            assert(crate::runtime::from_endpoint(rows[i], fingerprint));
        }
    }
}

/// What a route executes in place of a row: OpenCode Zen serves its Muse Spark
/// models over Responses alone, and everything else is executed as it stands.
pub open spec fn served_as(provider: ApiProvider, row: RouteRow) -> RouteRow {
    if provider == ApiProvider::OpencodeZen && row.provider == "opencode-zen"@ && contains(
        lower(row.wire_model_id),
        "muse-spark"@,
    ) {
        RouteRow { endpoint_key: "responses"@, ..row }
    } else {
        row
    }
}

/// The rules of single providers, where the route's own roster does not decide.
proof fn lemma_served(
    live: LiveView,
    provider: ApiProvider,
    identity: Option<Seq<char>>,
    fingerprint: Seq<char>,
    fresh: bool,
    inputs: RuntimeInputs,
    key: PairKey,
)
    requires
        provider != ApiProvider::Ollama || !endpoint_authoritative(
            live,
            provider,
            identity,
            fingerprint,
            fresh,
        ),
    ensures
        ({
            let plain = plain_routes(live, provider, identity, fingerprint, fresh, inputs);
            let all = runtime_routes(live, provider, identity, fingerprint, fresh, inputs);
            &&& all.dom().contains(key) <==> plain.dom().contains(key)
            &&& plain.dom().contains(key) ==> all[key] == served_as(provider, plain[key])
        }),
{
}

/// The catalog rows as they are executed: where all rows under a key spell their
/// provider alike, the row of that spelling stands.
proof fn lemma_source_routes(
    source: Map<PairKey, OfferingView>,
    provider: Seq<char>,
    model: Seq<char>,
)
    requires
        source.dom().finite(),
        self_keyed(source),
        forall|k: PairKey| #[trigger]
            source.dom().contains(k) && lower(trim(k.0)) == lower(trim(provider)) && k.1 == model
                ==> k.0 == provider,
    ensures
        ({
            let m = with_routes(Map::empty(), route_rows(values_in_order(source)));
            let key = (lower(trim(provider)), model);
            &&& m.dom().contains(key) <==> source.dom().contains((provider, model))
            &&& source.dom().contains((provider, model)) ==> m[key] == route_row(
                source[(provider, model)],
            )
        }),
{
    let rows = values_in_order(source);
    let routes = route_rows(rows);
    let keys = keys_in_order(source);
    let key = (lower(trim(provider)), model);
    ordered_values_are_the_values(source);
    keys_in_order_exist(source);
    lemma_last_route(Map::empty(), routes);
    assert forall|j: int| 0 <= j < routes.len() && route_key(#[trigger] routes[j]) == key implies
        keys[j] == (provider, model) by {
        assert(source.dom().contains(keys[j]));
        assert(rows[j] == source[keys[j]]);
        assert(row_key(rows[j]) == keys[j]);
    }
    if source.dom().contains((provider, model)) {
        assert(keys.contains((provider, model)));
        let i = choose|i: int| 0 <= i < keys.len() && keys[i] == (provider, model);
        assert(rows[i] == source[keys[i]]);
        assert(row_key(rows[i]) == keys[i]);
        assert(routes[i] == route_row(rows[i]));
        assert forall|j: int| i < j < routes.len() implies lower(
            trim((#[trigger] routes[j]).provider),
        ) != lower(trim(routes[i].provider)) || routes[j].wire_model_id
            != routes[i].wire_model_id by {
            if route_key(routes[j]) == key {
                assert(keys[j] == keys[i]);
                assert(key_before(keys[i], keys[j]));
                key_order_is_strict_and_total(keys[i], keys[j], keys[i]);
            }
        }
        assert(last_of_its_route(routes, i));
    } else {
        assert forall|j: int| 0 <= j < routes.len() implies lower(
            trim((#[trigger] routes[j]).provider),
        ) != key.0 || routes[j].wire_model_id != key.1 by {
            if route_key(routes[j]) == key {
                assert(source.dom().contains(keys[j]));
            }
        }
        assert(none_of_route(routes, key));
    }
}

/// Whether the route rests on the unsigned layers: its own roster does not
/// decide, and no signed layer describes it.
pub open spec fn rests_on_unsigned_layers(
    live: LiveView,
    provider: ApiProvider,
    identity: Option<Seq<char>>,
    fingerprint: Seq<char>,
    fresh: bool,
    inputs: RuntimeInputs,
) -> bool {
    !endpoint_authoritative(live, provider, identity, fingerprint, fresh) && (inputs.signed is None
        || !inputs.in_signed_scope || !signer_names(provider))
}

proof fn lemma_unsigned_routes(
    live: LiveView,
    provider: ApiProvider,
    identity: Option<Seq<char>>,
    fingerprint: Seq<char>,
    fresh: bool,
    inputs: RuntimeInputs,
) -> (source: Map<PairKey, OfferingView>)
    requires
        rests_on_unsigned_layers(live, provider, identity, fingerprint, fresh, inputs),
    ensures
        source == with_rows(
            with_rows(Map::empty(), inputs.bundled),
            selected_rows(live, provider, identity, fingerprint, fresh),
        ),
        source.dom().finite(),
        self_keyed(source),
        plain_routes(live, provider, identity, fingerprint, fresh, inputs) == with_routes(
            with_routes(Map::empty(), route_rows(values_in_order(source))),
            inputs.curated,
        ),
{
    signed_facts_do_not_cross_routes(provider, inputs.in_signed_scope);
    let selected = selected_rows(live, provider, identity, fingerprint, fresh);
    let low = with_rows(Map::empty(), inputs.bundled);
    lemma_with_rows_keyed(Map::empty(), inputs.bundled);
    lemma_with_rows_keyed(low, selected);
    with_rows(low, selected)
}

/// Curated rows stand over the catalog: where neither the route's own roster nor
/// a signed layer decides, the last curated row of a model is the one executed,
/// whatever the bundled and the Models.dev rows say.
pub proof fn a_curated_row_stands_over_the_catalog(
    live: LiveView,
    provider: ApiProvider,
    identity: Option<Seq<char>>,
    fingerprint: Seq<char>,
    fresh: bool,
    inputs: RuntimeInputs,
    i: int,
)
    requires
        rests_on_unsigned_layers(live, provider, identity, fingerprint, fresh, inputs),
        last_of_its_route(inputs.curated, i),
    ensures
        ({
            let all = runtime_routes(live, provider, identity, fingerprint, fresh, inputs);
            let row = inputs.curated[i];
            let key = (lower(trim(row.provider)), row.wire_model_id);
            &&& all.dom().contains(key)
            &&& all[key] == served_as(provider, row)
            &&& values_in_order(all).contains(served_as(provider, row))
        }),
{
    let source = lemma_unsigned_routes(live, provider, identity, fingerprint, fresh, inputs);
    let base = with_routes(Map::empty(), route_rows(values_in_order(source)));
    let all = runtime_routes(live, provider, identity, fingerprint, fresh, inputs);
    let key = (lower(trim(inputs.curated[i].provider)), inputs.curated[i].wire_model_id);
    lemma_last_route(Map::empty(), route_rows(values_in_order(source)));
    lemma_last_route(base, inputs.curated);
    lemma_served(live, provider, identity, fingerprint, fresh, inputs, key);
    let plain = plain_routes(live, provider, identity, fingerprint, fresh, inputs);
    assert(all.dom() =~= plain.dom());
    ordered_values_are_the_values(all);
}

/// The Models.dev rows that a route reads: those of its own provider, and none
/// for a custom route.
pub open spec fn read_rows(
    live: LiveView,
    provider: ApiProvider,
    identity: Option<Seq<char>>,
) -> Seq<OfferingView> {
    if provider == ApiProvider::Custom {
        Seq::empty()
    } else {
        refreshed_rows(live).filter(
            |row: OfferingView| trim(row.provider) == trim(
                catalog_id_for_identity(provider, identity),
            ),
        )
    }
}

/// Whether all rows that are executed under the key of a model spell their
/// provider as `provider`.
pub open spec fn spelled_alike(
    rows: Seq<OfferingView>,
    provider: Seq<char>,
    model: Seq<char>,
) -> bool {
    forall|j: int|
        0 <= j < rows.len() && lower(trim((#[trigger] rows[j]).provider)) == lower(trim(provider))
            && rows[j].wire_model_id == model ==> rows[j].provider == provider
}

/// Where neither the route's own roster nor a signed layer decides, a model
/// without a curated row is executed by the last Models.dev row of the provider,
/// or without one by the last bundled row, and a model that no layer has is not
/// executed at all.
pub proof fn below_the_curated_rows_models_dev_stands_over_bundled(
    live: LiveView,
    provider: ApiProvider,
    identity: Option<Seq<char>>,
    fingerprint: Seq<char>,
    fresh: bool,
    inputs: RuntimeInputs,
    name: Seq<char>,
    model: Seq<char>,
    i: int,
)
    requires
        rests_on_unsigned_layers(live, provider, identity, fingerprint, fresh, inputs),
        none_of_route(inputs.curated, (lower(trim(name)), model)),
        spelled_alike(inputs.bundled, name, model),
        spelled_alike(read_rows(live, provider, identity), name, model),
    ensures
        ({
            let all = runtime_routes(live, provider, identity, fingerprint, fresh, inputs);
            let key = (lower(trim(name)), model);
            let md = read_rows(live, provider, identity);
            &&& last_of_its_key(md, i) && md[i].provider == name && md[i].wire_model_id == model
                ==> all.dom().contains(key) && all[key] == served_as(provider, route_row(md[i]))
            &&& none_of_key(md, name, model) && last_of_its_key(inputs.bundled, i)
                && inputs.bundled[i].provider == name && inputs.bundled[i].wire_model_id == model
                ==> all.dom().contains(key) && all[key] == served_as(
                provider,
                route_row(inputs.bundled[i]),
            )
            &&& none_of_key(md, name, model) && none_of_key(inputs.bundled, name, model)
                ==> !all.dom().contains(key)
        }),
{
    let md = read_rows(live, provider, identity);
    let key = (lower(trim(name)), model);
    let source = lemma_unsigned_routes(live, provider, identity, fingerprint, fresh, inputs);
    let low = with_rows(Map::empty(), inputs.bundled);
    assert(selected_rows(live, provider, identity, fingerprint, fresh) == md);
    the_last_row_of_a_model_stands(Map::empty(), inputs.bundled);
    the_last_row_of_a_model_stands(low, md);
    assert forall|k: PairKey| #[trigger]
        source.dom().contains(k) && lower(trim(k.0)) == lower(trim(name)) && k.1
            == model implies k.0 == name by {
        if !none_of_key(md, k.0, k.1) {
            let j: int = a_named_model_has_a_last_row(md, k.0, k.1);
            assert(md[j].provider == k.0);
        } else {
            assert(low.dom().contains((k.0, k.1)));
            if none_of_key(inputs.bundled, k.0, k.1) {
                assert(!low.dom().contains((k.0, k.1)));
            }
            let j: int = a_named_model_has_a_last_row(inputs.bundled, k.0, k.1);
            assert(inputs.bundled[j].provider == k.0);
        }
    }
    lemma_source_routes(source, name, model);
    let base = with_routes(Map::empty(), route_rows(values_in_order(source)));
    lemma_last_route(base, inputs.curated);
    lemma_served(live, provider, identity, fingerprint, fresh, inputs, key);
}

/// What a list of facts does under one key, when only those of one provider are
/// applied.
proof fn lemma_scoped_facts(
    m: Map<PairKey, RouteRow>,
    source: Map<PairKey, OfferingView>,
    facts: Seq<FactView>,
    name: Seq<char>,
    id: Seq<char>,
    other: PairKey,
    i: int,
)
    ensures
        ({
            let keep = |f: FactView| f.provider == name;
            let after = routes_after_facts(m, source, facts.filter(keep));
            let key = (name, id);
            &&& other.0 != name ==> (after.dom().contains(other) <==> m.dom().contains(other))
                && after[other] == m[other]
            &&& (forall|j: int|
                0 <= j < facts.len() ==> !((#[trigger] facts[j]).provider == name && facts[j].id
                    == id && facts[j].op != ModelOp::Deprecate)) ==> (after.dom().contains(key)
                <==> m.dom().contains(key)) && after[key] == m[key]
            &&& (exists|j: int|
                0 <= j < facts.len() && (#[trigger] facts[j]).provider == name && facts[j].id == id
                    && facts[j].op == ModelOp::Hide) ==> !after.dom().contains(key)
            &&& !(exists|j: int|
                0 <= j < facts.len() && (#[trigger] facts[j]).provider == name && facts[j].id == id
                    && facts[j].op == ModelOp::Hide) ==> (after.dom().contains(key)
                <==> m.dom().contains(key))
            &&& m.dom().contains(key) && 0 <= i < facts.len() && facts[i].provider == name
                && facts[i].id == id && facts[i].op == ModelOp::Upsert && (forall|j: int|
                0 <= j < facts.len() && j != i ==> !((#[trigger] facts[j]).provider == name
                    && facts[j].id == id && facts[j].op != ModelOp::Deprecate)) ==> after[key]
                == corrected_route(m[key], source, facts[i])
        }),
    decreases facts.len(),
{
    reveal(Seq::filter);
    let keep = |f: FactView| f.provider == name;
    let key = (name, id);
    if facts.len() == 0 {
        assert(facts.filter(keep) =~= Seq::empty());
    } else {
        let init = facts.drop_last();
        let n = facts.len() - 1;
        let last = facts.last();
        lemma_scoped_facts(m, source, init, name, id, other, i);
        assert(facts[n] == last);
        assert forall|j: int| 0 <= j < n implies #[trigger] init[j] == facts[j] by {}
        let before = routes_after_facts(m, source, init.filter(keep));
        let after = routes_after_facts(m, source, facts.filter(keep));
        if keep(last) {
            assert(facts.filter(keep).drop_last() =~= init.filter(keep));
            assert(facts.filter(keep).last() == last);
        } else {
            assert(after == before);
        }
        if exists|j: int|
            0 <= j < facts.len() && (#[trigger] facts[j]).provider == name && facts[j].id == id
                && facts[j].op == ModelOp::Hide {
            let j = choose|j: int|
                0 <= j < facts.len() && (#[trigger] facts[j]).provider == name && facts[j].id == id
                    && facts[j].op == ModelOp::Hide;
            if j < n {
                assert(init[j] == facts[j]);
            }
        } else {
            assert forall|j: int| 0 <= j < init.len() implies !((#[trigger] init[j]).provider
                == name && init[j].id == id && init[j].op == ModelOp::Hide) by {
                assert(init[j] == facts[j]);
            }
        }
        if forall|j: int|
            0 <= j < facts.len() ==> !((#[trigger] facts[j]).provider == name && facts[j].id == id
                && facts[j].op != ModelOp::Deprecate) {
            assert forall|j: int| 0 <= j < init.len() implies !((#[trigger] init[j]).provider
                == name && init[j].id == id && init[j].op != ModelOp::Deprecate) by {
                assert(init[j] == facts[j]);
            }
        }
        if 0 <= i < facts.len() && facts[i].provider == name && facts[i].id == id && facts[i].op
            == ModelOp::Upsert && (forall|j: int|
            0 <= j < facts.len() && j != i ==> !((#[trigger] facts[j]).provider == name
                && facts[j].id == id && facts[j].op != ModelOp::Deprecate)) {
            assert forall|j: int| 0 <= j < init.len() && j != i implies !((
            #[trigger] init[j]).provider == name && init[j].id == id && init[j].op
                != ModelOp::Deprecate) by {
                assert(init[j] == facts[j]);
            }
            if i < n {
                assert(init[i] == facts[i]);
                assert(!(last.provider == name && last.id == id && last.op
                    != ModelOp::Deprecate));
            }
        }
    }
}

/// What the facts of a signed layer change, against the same layer without them:
/// a hidden model is gone, a single correction sets exactly the fields that it
/// states, and a model that no fact of its provider names is executed as before.
pub proof fn signed_facts_correct_what_they_state(
    live: LiveView,
    provider: ApiProvider,
    identity: Option<Seq<char>>,
    fingerprint: Seq<char>,
    fresh: bool,
    inputs: RuntimeInputs,
    layer: SignedView,
    id: Seq<char>,
    other: PairKey,
    i: int,
    j: int,
)
    requires
        !endpoint_authoritative(live, provider, identity, fingerprint, fresh),
        inputs.in_signed_scope,
        signer_names(provider),
        inputs.signed == Some(layer),
    ensures
        ({
            let name = catalog_id_for_identity(provider, identity);
            let key = (name, id);
            let facts = layer.facts;
            let plain = runtime_routes(
                live,
                provider,
                identity,
                fingerprint,
                fresh,
                (RuntimeInputs {
                    signed: Some(SignedView { facts: Seq::empty(), ..layer }),
                    ..inputs
                }),
            );
            let all = runtime_routes(live, provider, identity, fingerprint, fresh, inputs);
            &&& other.0 != name ==> (all.dom().contains(other) <==> plain.dom().contains(other))
                && (all.dom().contains(other) ==> all[other] == plain[other])
            &&& (forall|k: int|
                0 <= k < facts.len() ==> !((#[trigger] facts[k]).provider == name && facts[k].id
                    == id && facts[k].op != ModelOp::Deprecate)) ==> (all.dom().contains(key)
                <==> plain.dom().contains(key)) && (all.dom().contains(key) ==> all[key]
                == plain[key])
            &&& (exists|k: int|
                0 <= k < facts.len() && (#[trigger] facts[k]).provider == name && facts[k].id == id
                    && facts[k].op == ModelOp::Hide) ==> !all.dom().contains(key)
            &&& !(exists|k: int|
                0 <= k < facts.len() && (#[trigger] facts[k]).provider == name && facts[k].id == id
                    && facts[k].op == ModelOp::Hide) ==> (all.dom().contains(key)
                <==> plain.dom().contains(key))
            &&& plain.dom().contains(key) && 0 <= i < facts.len() && facts[i].provider == name
                && facts[i].id == id && facts[i].op == ModelOp::Upsert && (forall|k: int|
                0 <= k < facts.len() && k != i ==> !((#[trigger] facts[k]).provider == name
                    && facts[k].id == id && facts[k].op != ModelOp::Deprecate)) ==> {
                let was = plain[key];
                let is = all[key];
                &&& is.provider == was.provider
                &&& is.wire_model_id == was.wire_model_id
                &&& is.endpoint_key == was.endpoint_key
                &&& is.default_for_provider == was.default_for_provider
                &&& is.details == was.details
                &&& is.context_tokens == if facts[i].context_window is Some {
                    facts[i].context_window
                } else {
                    was.context_tokens
                }
                &&& is.output_tokens == if facts[i].max_output is Some {
                    facts[i].max_output
                } else {
                    was.output_tokens
                }
                &&& facts[i].reasoning == Some(true) ==> is.reasoning == CapabilityState::Supported
                &&& facts[i].reasoning == Some(false) ==> is.reasoning
                    == CapabilityState::Unsupported
                &&& facts[i].reasoning is None ==> is.reasoning == was.reasoning
                &&& !facts[i].priced || none_of_key(layer.patched, name, id) ==> is.price
                    == was.price
                &&& facts[i].priced && last_of_its_key(layer.patched, j)
                    && layer.patched[j].provider == name && layer.patched[j].wire_model_id == id
                    ==> is.price == layer.patched[j].price
            }
        }),
{
    signed_facts_do_not_cross_routes(provider, inputs.in_signed_scope);
    let name = catalog_id_for_identity(provider, identity);
    let key = (name, id);
    let bare = SignedView { facts: Seq::empty(), ..layer };
    let bare_inputs = RuntimeInputs { signed: Some(bare), ..inputs };
    let source = with_rows(Map::empty(), layer.patched);
    let keep = |f: FactView| f.provider == name;
    let base = with_routes(
        with_routes(Map::empty(), route_rows(values_in_order(source))),
        inputs.curated,
    );
    assert(bare.facts.filter(keep) =~= Seq::empty()) by {
        reveal(Seq::filter);
    }
    assert(plain_routes(live, provider, identity, fingerprint, fresh, bare_inputs) == base);
    assert(plain_routes(live, provider, identity, fingerprint, fresh, inputs)
        == routes_after_facts(base, source, layer.facts.filter(keep)));
    lemma_scoped_facts(base, source, layer.facts, name, id, other, i);
    lemma_served(live, provider, identity, fingerprint, fresh, inputs, key);
    lemma_served(live, provider, identity, fingerprint, fresh, inputs, other);
    lemma_served(live, provider, identity, fingerprint, fresh, bare_inputs, key);
    lemma_served(live, provider, identity, fingerprint, fresh, bare_inputs, other);
    the_last_row_of_a_model_stands(Map::empty(), layer.patched);
}

/// Where a signed layer describes the route and states no fact, curated rows
/// stand over the rows that the layer makes of the catalog.
pub proof fn a_curated_row_stands_over_the_signed_rows(
    live: LiveView,
    provider: ApiProvider,
    identity: Option<Seq<char>>,
    fingerprint: Seq<char>,
    fresh: bool,
    inputs: RuntimeInputs,
    layer: SignedView,
    i: int,
)
    requires
        !endpoint_authoritative(live, provider, identity, fingerprint, fresh),
        inputs.in_signed_scope,
        signer_names(provider),
        inputs.signed == Some(layer),
        layer.facts.len() == 0,
    ensures
        ({
            let all = runtime_routes(live, provider, identity, fingerprint, fresh, inputs);
            let key = (
                lower(trim(inputs.curated[i].provider)),
                inputs.curated[i].wire_model_id,
            );
            last_of_its_route(inputs.curated, i) ==> all.dom().contains(key) && all[key]
                == served_as(provider, inputs.curated[i])
        }),
        ({
            let all = runtime_routes(live, provider, identity, fingerprint, fresh, inputs);
            let row = layer.patched[i];
            let key = (lower(trim(row.provider)), row.wire_model_id);
            last_of_its_key(layer.patched, i) && none_of_route(inputs.curated, key)
                && spelled_alike(layer.patched, row.provider, row.wire_model_id)
                ==> all.dom().contains(key) && all[key] == served_as(provider, route_row(row))
        }),
{
    signed_facts_do_not_cross_routes(provider, inputs.in_signed_scope);
    let name = catalog_id_for_identity(provider, identity);
    let source = with_rows(Map::empty(), layer.patched);
    let keep = |f: FactView| f.provider == name;
    let low = with_routes(Map::empty(), route_rows(values_in_order(source)));
    assert(layer.facts.filter(keep) =~= Seq::empty()) by {
        reveal(Seq::filter);
    }
    assert(plain_routes(live, provider, identity, fingerprint, fresh, inputs) == with_routes(
        low,
        inputs.curated,
    ));
    lemma_last_route(low, inputs.curated);
    let curated_key = (lower(trim(inputs.curated[i].provider)), inputs.curated[i].wire_model_id);
    lemma_served(live, provider, identity, fingerprint, fresh, inputs, curated_key);
    let row = layer.patched[i];
    if last_of_its_key(layer.patched, i) && spelled_alike(
        layer.patched,
        row.provider,
        row.wire_model_id,
    ) {
        let key = (lower(trim(row.provider)), row.wire_model_id);
        the_last_row_of_a_model_stands(Map::empty(), layer.patched);
        lemma_with_rows_keyed(Map::empty(), layer.patched);
        assert forall|k: PairKey| #[trigger]
            source.dom().contains(k) && lower(trim(k.0)) == lower(trim(row.provider)) && k.1
                == row.wire_model_id implies k.0 == row.provider by {
            if none_of_key(layer.patched, k.0, k.1) {
                assert(!source.dom().contains((k.0, k.1)));
            }
            let j: int = a_named_model_has_a_last_row(layer.patched, k.0, k.1);
            assert(layer.patched[j].provider == k.0);
        }
        lemma_source_routes(source, row.provider, row.wire_model_id);
        lemma_served(live, provider, identity, fingerprint, fresh, inputs, key);
    }
}

/// The provider id under which a route's own roster is executed.
pub open spec fn executed_under(provider: ApiProvider) -> Seq<char> {
    if provider == ApiProvider::Custom {
        "custom"@
    } else {
        catalog_id(provider)
    }
}

/// Whether row `i` is the last one with its wire model id.
pub open spec fn last_of_its_model(rows: Seq<OfferingView>, i: int) -> bool {
    &&& 0 <= i < rows.len()
    &&& forall|j: int|
        i < j < rows.len() ==> (#[trigger] rows[j]).wire_model_id != rows[i].wire_model_id
}

proof fn lemma_missing_routes(m: Map<PairKey, RouteRow>, rows: Seq<RouteRow>)
    ensures
        forall|key: PairKey| #[trigger]
            m.dom().contains(key) ==> with_missing_routes(m, rows).dom().contains(key)
                && with_missing_routes(m, rows)[key] == m[key],
        forall|key: PairKey|
            none_of_route(rows, key) ==> (#[trigger] with_missing_routes(m, rows).dom().contains(
                key,
            ) <==> m.dom().contains(key)),
        forall|key: PairKey| #[trigger]
            with_missing_routes(m, rows).dom().contains(key) && !m.dom().contains(key) ==> exists|
                i: int,
            |
                0 <= i < rows.len() && #[trigger] rows[i] == with_missing_routes(m, rows)[key]
                    && route_key(rows[i]) == key,
        forall|i: int|
            0 <= i < rows.len() ==> with_missing_routes(m, rows).dom().contains(
                #[trigger] route_key(rows[i]),
            ),
        m.dom().finite() ==> with_missing_routes(m, rows).dom().finite(),
    decreases rows.len(),
{
    if rows.len() > 0 {
        let init = rows.drop_last();
        let n = rows.len() - 1;
        lemma_missing_routes(m, init);
        let before = with_missing_routes(m, init);
        let after = with_missing_routes(m, rows);
        assert(rows[n] == rows.last());
        assert forall|key: PairKey| none_of_route(rows, key) implies (
        #[trigger] after.dom().contains(key) <==> m.dom().contains(key)) by {
            assert forall|j: int| 0 <= j < init.len() implies lower(
                trim((#[trigger] init[j]).provider),
            ) != key.0 || init[j].wire_model_id != key.1 by {
                assert(init[j] == rows[j]);
            }
            assert(none_of_route(init, key));
            assert(lower(trim(rows[n].provider)) != key.0 || rows[n].wire_model_id != key.1);
            assert(before.dom().contains(key) <==> m.dom().contains(key));
        }
        assert forall|key: PairKey| #[trigger] after.dom().contains(key) && !m.dom().contains(
            key,
        ) implies exists|i: int|
            0 <= i < rows.len() && #[trigger] rows[i] == after[key] && route_key(rows[i])
                == key by {
            if before.dom().contains(key) {
                let i = choose|i: int|
                    0 <= i < init.len() && #[trigger] init[i] == before[key] && route_key(init[i])
                        == key;
                assert(rows[i] == init[i]);
            } else {
                assert(route_key(rows[n]) == key && rows[n] == after[key]);
            }
        }
        assert forall|i: int| 0 <= i < rows.len() implies after.dom().contains(
            #[trigger] route_key(rows[i]),
        ) by {
            if i < n {
                assert(init[i] == rows[i]);
                assert(before.dom().contains(route_key(init[i])));
            }
        }
    }
}

/// The route rows where the route's own roster decides, piece by piece.
proof fn lemma_roster_routes(
    live: LiveView,
    provider: ApiProvider,
    identity: Option<Seq<char>>,
    fingerprint: Seq<char>,
    fresh: bool,
    inputs: RuntimeInputs,
) -> (pieces: (Map<PairKey, RouteRow>, Seq<OfferingView>))
    requires
        endpoint_authoritative(live, provider, identity, fingerprint, fresh),
    ensures
        ({
            let own = live.per_provider[partition_of(provider, identity)];
            let name = executed_under(provider);
            let described = inputs.signed is Some && inputs.in_signed_scope && signer_names(
                provider,
            );
            let (below, roster) = pieces;
            let source = with_rows(Map::empty(), inputs.bundled);
            &&& below == with_routes(
                with_routes(Map::empty(), route_rows(values_in_order(source))),
                inputs.curated,
            )
            &&& source.dom().finite()
            &&& self_keyed(source)
            &&& roster.len() == own.len()
            &&& forall|i: int|
                0 <= i < own.len() ==> (#[trigger] roster[i]).provider == name
                    && roster[i].wire_model_id == own[i].wire_model_id && (roster[i] == (
                OfferingView { provider: name, ..own[i] }) || (described
                    && (inputs.signed->0).completed.contains(roster[i])))
            &&& plain_routes(live, provider, identity, fingerprint, fresh, inputs)
                == with_missing_routes(
                with_routes(foreign_routes(below, name), route_rows(roster)),
                route_rows(
                    values_in_order(
                        unlisted_catalog(provider, inputs.in_signed_scope, inputs.signed),
                    ),
                ),
            )
        }),
{
    signed_facts_do_not_cross_routes(provider, inputs.in_signed_scope);
    let own = live.per_provider[partition_of(provider, identity)];
    let name = executed_under(provider);
    assert(partition_of(provider, identity) == crate::live::owner_key(
        crate::live::route_owner(provider, identity),
    ));
    let source = with_rows(Map::empty(), inputs.bundled);
    lemma_with_rows_keyed(Map::empty(), inputs.bundled);
    let below = with_routes(
        with_routes(Map::empty(), route_rows(values_in_order(source))),
        inputs.curated,
    );
    let applies = signed_facts_apply(provider, inputs.in_signed_scope);
    let moved = transported_rows(own, name);
    let roster = runtime_roster(own, name, applies, inputs.signed);
    assert(transport_id(provider, identity) == name);
    assert forall|i: int| 0 <= i < own.len() implies (#[trigger] roster[i]).provider == name
        && roster[i].wire_model_id == own[i].wire_model_id && (roster[i] == (OfferingView {
        provider: name,
        ..own[i]
    }) || (inputs.signed is Some && applies && (inputs.signed->0).completed.contains(
        roster[i],
    ))) by {
        assert(moved[i] == OfferingView { provider: name, ..own[i] });
        if inputs.signed is Some && applies {
            let completed = (inputs.signed->0).completed;
            assert(roster[i] == crate::merge::completed_row(moved[i], completed, i));
            if roster[i] != moved[i] {
                assert(completed[i] == roster[i]);
            }
        }
    }
    (below, roster)
}

/// Where a route's own roster decides, every model that it lists is executed by
/// its last row there, under the id of the route, whatever the other layers say.
/// A signed layer that describes the route may only fill that row out.
pub proof fn a_listed_model_is_executed_from_the_roster(
    live: LiveView,
    provider: ApiProvider,
    identity: Option<Seq<char>>,
    fingerprint: Seq<char>,
    fresh: bool,
    inputs: RuntimeInputs,
    i: int,
)
    requires
        endpoint_authoritative(live, provider, identity, fingerprint, fresh),
        last_of_its_model(live.per_provider[partition_of(provider, identity)], i),
    ensures
        ({
            let all = runtime_routes(live, provider, identity, fingerprint, fresh, inputs);
            let row = live.per_provider[partition_of(provider, identity)][i];
            let name = executed_under(provider);
            let key = (lower(trim(name)), row.wire_model_id);
            let listed = served_as(provider, route_row(OfferingView { provider: name, ..row }));
            let described = inputs.signed is Some && inputs.in_signed_scope && signer_names(
                provider,
            );
            &&& all.dom().contains(key)
            &&& all[key].provider == name
            &&& all[key].wire_model_id == row.wire_model_id
            &&& !described && provider != ApiProvider::Ollama ==> all[key] == listed
            &&& !described ==> all[key] == (RouteRow {
                default_for_provider: all[key].default_for_provider,
                ..listed
            })
        }),
{
    let (below, roster) = lemma_roster_routes(
        live,
        provider,
        identity,
        fingerprint,
        fresh,
        inputs,
    );
    let own = live.per_provider[partition_of(provider, identity)];
    let name = executed_under(provider);
    let key = (lower(trim(name)), own[i].wire_model_id);
    let low = foreign_routes(below, name);
    let routes = route_rows(roster);
    let with_own = with_routes(low, routes);
    let rest = route_rows(
        values_in_order(unlisted_catalog(provider, inputs.in_signed_scope, inputs.signed)),
    );
    lemma_last_route(low, routes);
    assert forall|j: int| i < j < routes.len() implies lower(
        trim((#[trigger] routes[j]).provider),
    ) != lower(trim(routes[i].provider)) || routes[j].wire_model_id
        != routes[i].wire_model_id by {
        assert(routes[j] == route_row(roster[j]) && routes[i] == route_row(roster[i]));
        assert(own[j].wire_model_id != own[i].wire_model_id);
    }
    assert(routes[i] == route_row(roster[i]));
    assert(last_of_its_route(routes, i));
    assert(with_own.dom().contains(key) && with_own[key] == routes[i]);
    lemma_missing_routes(with_own, rest);
    let plain = plain_routes(live, provider, identity, fingerprint, fresh, inputs);
    assert(plain.dom().contains(key) && plain[key] == routes[i]);
    if provider == ApiProvider::Ollama {
        lemma_elected(plain, catalog_id_for_identity(provider, identity), key);
    } else {
        lemma_served(live, provider, identity, fingerprint, fresh, inputs, key);
    }
}

/// An election changes no row but in whether it is the default.
proof fn lemma_elected(m: Map<PairKey, RouteRow>, name: Seq<char>, key: PairKey)
    requires
        m.dom().contains(key),
    ensures
        with_elected_default(m, name).dom().contains(key),
        with_elected_default(m, name)[key] == (RouteRow {
            default_for_provider: with_elected_default(m, name)[key].default_for_provider,
            ..m[key]
        }),
{
}

/// Where a route's own roster decides, nothing else is executed under its id but
/// what a signed layer that describes the route attests beside it.
pub proof fn only_listed_or_attested_models_are_executed(
    live: LiveView,
    provider: ApiProvider,
    identity: Option<Seq<char>>,
    fingerprint: Seq<char>,
    fresh: bool,
    inputs: RuntimeInputs,
    key: PairKey,
)
    requires
        endpoint_authoritative(live, provider, identity, fingerprint, fresh),
        provider != ApiProvider::Ollama,
        runtime_routes(live, provider, identity, fingerprint, fresh, inputs).dom().contains(key),
        runtime_routes(live, provider, identity, fingerprint, fresh, inputs)[key].provider
            == executed_under(provider),
    ensures
        ({
            let own = live.per_provider[partition_of(provider, identity)];
            ||| exists|i: int| 0 <= i < own.len() && (#[trigger] own[i]).wire_model_id == key.1
            ||| {
                &&& inputs.signed is Some
                &&& inputs.in_signed_scope
                &&& signer_names(provider)
                &&& exists|j: int|
                    0 <= j < (inputs.signed->0).unlisted.len() && (#[trigger] (
                    inputs.signed->0).unlisted[j]).wire_model_id == key.1 && (
                    inputs.signed->0).attested.contains(
                        (
                            (inputs.signed->0).unlisted[j].provider,
                            (inputs.signed->0).unlisted[j].wire_model_id,
                        ),
                    )
            }
        }),
{
    signed_facts_do_not_cross_routes(provider, inputs.in_signed_scope);
    let (below, roster) = lemma_roster_routes(
        live,
        provider,
        identity,
        fingerprint,
        fresh,
        inputs,
    );
    let own = live.per_provider[partition_of(provider, identity)];
    let name = executed_under(provider);
    let low = foreign_routes(below, name);
    let routes = route_rows(roster);
    let with_own = with_routes(low, routes);
    let unlisted = unlisted_catalog(provider, inputs.in_signed_scope, inputs.signed);
    let rest = route_rows(values_in_order(unlisted));
    let plain = plain_routes(live, provider, identity, fingerprint, fresh, inputs);
    lemma_served(live, provider, identity, fingerprint, fresh, inputs, key);
    lemma_last_route(low, routes);
    lemma_missing_routes(with_own, rest);
    assert(plain[key].provider == name);
    if with_own.dom().contains(key) {
        if none_of_route(routes, key) {
            assert(low.dom().contains(key));
        } else {
            let i: int = lemma_named_route(routes, key);
            assert(last_of_its_route(routes, i));
            assert(routes[i] == route_row(roster[i]));
            assert(own[i].wire_model_id == key.1);
        }
    } else {
        let k = choose|k: int|
            0 <= k < rest.len() && #[trigger] rest[k] == plain[key] && route_key(rest[k]) == key;
        lemma_unlisted(provider, inputs.in_signed_scope, inputs.signed);
        ordered_values_are_the_values(unlisted);
        let ukey = keys_in_order(unlisted)[k];
        assert(unlisted.dom().contains(ukey));
        let layer = inputs.signed->0;
        the_last_row_of_a_model_stands(Map::empty(), layer.unlisted);
        if none_of_key(layer.unlisted, ukey.0, ukey.1) {
            assert(!with_rows(Map::empty(), layer.unlisted).dom().contains((ukey.0, ukey.1)));
        }
        let j: int = a_named_model_has_a_last_row(layer.unlisted, ukey.0, ukey.1);
        assert(rest[k] == route_row(values_in_order(unlisted)[k]));
        assert(layer.unlisted[j].wire_model_id == key.1);
    }
}

proof fn lemma_unlisted(provider: ApiProvider, in_signed_scope: bool, signed: Option<SignedView>)
    ensures
        unlisted_catalog(provider, in_signed_scope, signed).dom().finite(),
        self_keyed(unlisted_catalog(provider, in_signed_scope, signed)),
{
    if signed is Some && signed_facts_apply(provider, in_signed_scope) {
        let layer = signed->0;
        let rows = with_rows(Map::empty(), layer.unlisted);
        lemma_with_rows_keyed(Map::empty(), layer.unlisted);
        assert(unlisted_catalog(provider, in_signed_scope, signed).dom().subset_of(rows.dom()));
    }
}

/// Where a route's own roster decides, a row that the signed layer attests beside
/// it is executed too, unless its key is taken already.
pub proof fn an_attested_model_is_executed_beside_the_roster(
    live: LiveView,
    provider: ApiProvider,
    identity: Option<Seq<char>>,
    fingerprint: Seq<char>,
    fresh: bool,
    inputs: RuntimeInputs,
    layer: SignedView,
    j: int,
)
    requires
        endpoint_authoritative(live, provider, identity, fingerprint, fresh),
        inputs.signed == Some(layer),
        inputs.in_signed_scope,
        signer_names(provider),
        last_of_its_key(layer.unlisted, j),
        layer.attested.contains((layer.unlisted[j].provider, layer.unlisted[j].wire_model_id)),
    ensures
        ({
            let all = runtime_routes(live, provider, identity, fingerprint, fresh, inputs);
            let row = layer.unlisted[j];
            let key = (lower(trim(row.provider)), row.wire_model_id);
            let own = live.per_provider[partition_of(provider, identity)];
            &&& all.dom().contains(key)
            &&& provider != ApiProvider::Ollama && none_of_route(inputs.curated, key)
                && none_of_route(route_rows(inputs.bundled), key) && (lower(
                trim(executed_under(provider)),
            ) != key.0 || forall|i: int|
                0 <= i < own.len() ==> (#[trigger] own[i]).wire_model_id != key.1)
                && spelled_alike(layer.unlisted, row.provider, row.wire_model_id) ==> all[key]
                == served_as(provider, route_row(row))
        }),
{
    signed_facts_do_not_cross_routes(provider, inputs.in_signed_scope);
    let (below, roster) = lemma_roster_routes(
        live,
        provider,
        identity,
        fingerprint,
        fresh,
        inputs,
    );
    let own = live.per_provider[partition_of(provider, identity)];
    let name = executed_under(provider);
    let row = layer.unlisted[j];
    let key = (lower(trim(row.provider)), row.wire_model_id);
    let ukey = (row.provider, row.wire_model_id);
    let low = foreign_routes(below, name);
    let routes = route_rows(roster);
    let with_own = with_routes(low, routes);
    let unlisted = unlisted_catalog(provider, inputs.in_signed_scope, inputs.signed);
    let values = values_in_order(unlisted);
    let rest = route_rows(values);
    let plain = plain_routes(live, provider, identity, fingerprint, fresh, inputs);
    lemma_unlisted(provider, inputs.in_signed_scope, inputs.signed);
    ordered_values_are_the_values(unlisted);
    the_last_row_of_a_model_stands(Map::empty(), layer.unlisted);
    assert(unlisted.dom().contains(ukey) && unlisted[ukey] == row);
    assert(values.contains(row));
    let k = choose|k: int| 0 <= k < values.len() && values[k] == row;
    assert(rest[k] == route_row(row));
    lemma_missing_routes(with_own, rest);
    assert(plain.dom().contains(route_key(rest[k])));
    if provider == ApiProvider::Ollama {
        lemma_elected(plain, catalog_id_for_identity(provider, identity), key);
    } else {
        lemma_served(live, provider, identity, fingerprint, fresh, inputs, key);
        if none_of_route(inputs.curated, key) && none_of_route(route_rows(inputs.bundled), key) && (
        lower(trim(name)) != key.0 || forall|i: int|
            0 <= i < own.len() ==> (#[trigger] own[i]).wire_model_id != key.1) && spelled_alike(
            layer.unlisted,
            row.provider,
            row.wire_model_id,
        ) {
            lemma_last_route(low, routes);
            assert forall|i: int| 0 <= i < routes.len() implies lower(
                trim((#[trigger] routes[i]).provider),
            ) != key.0 || routes[i].wire_model_id != key.1 by {
                assert(routes[i] == route_row(roster[i]));
                assert(own[i].wire_model_id == roster[i].wire_model_id);
            }
            assert(none_of_route(routes, key));
            lemma_not_below(inputs, key);
            assert(!with_own.dom().contains(key));
            let p = choose|p: int|
                0 <= p < rest.len() && #[trigger] rest[p] == plain[key] && route_key(rest[p])
                    == key;
            let pkey = keys_in_order(unlisted)[p];
            assert(unlisted.dom().contains(pkey));
            assert(rest[p] == route_row(values[p]));
            assert(values[p] == unlisted[pkey]);
            if none_of_key(layer.unlisted, pkey.0, pkey.1) {
                assert(!with_rows(Map::empty(), layer.unlisted).dom().contains((pkey.0, pkey.1)));
            }
            let q: int = a_named_model_has_a_last_row(layer.unlisted, pkey.0, pkey.1);
            assert(layer.unlisted[q].provider == row.provider);
            assert(pkey == ukey);
        }
    }
}

/// What neither a bundled nor a curated row is executed under is not there below
/// a roster.
proof fn lemma_not_below(inputs: RuntimeInputs, key: PairKey)
    requires
        none_of_route(inputs.curated, key),
        none_of_route(route_rows(inputs.bundled), key),
    ensures
        !with_routes(
            with_routes(
                Map::empty(),
                route_rows(values_in_order(with_rows(Map::empty(), inputs.bundled))),
            ),
            inputs.curated,
        ).dom().contains(key),
{
    let source = with_rows(Map::empty(), inputs.bundled);
    let rows = values_in_order(source);
    let routes = route_rows(rows);
    lemma_with_rows_keyed(Map::empty(), inputs.bundled);
    ordered_values_are_the_values(source);
    the_last_row_of_a_model_stands(Map::empty(), inputs.bundled);
    lemma_last_route(Map::empty(), routes);
    lemma_last_route(with_routes(Map::empty(), routes), inputs.curated);
    assert forall|j: int| 0 <= j < routes.len() implies lower(
        trim((#[trigger] routes[j]).provider),
    ) != key.0 || routes[j].wire_model_id != key.1 by {
        assert(routes[j] == route_row(rows[j]));
        let k = keys_in_order(source)[j];
        assert(source.dom().contains(k));
        if none_of_key(inputs.bundled, k.0, k.1) {
            assert(!source.dom().contains((k.0, k.1)));
        }
        let q: int = a_named_model_has_a_last_row(inputs.bundled, k.0, k.1);
        assert(last_of_its_key(inputs.bundled, q));
        assert(route_rows(inputs.bundled)[q] == route_row(inputs.bundled[q]));
    }
    assert(none_of_route(routes, key));
}

/// Whether a row is of another provider than the route's own roster, and not
/// executed under a key of that roster.
pub open spec fn not_of_the_roster(
    live: LiveView,
    provider: ApiProvider,
    identity: Option<Seq<char>>,
    name: Seq<char>,
    model: Seq<char>,
) -> bool {
    let own = live.per_provider[partition_of(provider, identity)];
    name != executed_under(provider) && (lower(trim(name)) != lower(
        trim(executed_under(provider)),
    ) || forall|i: int| 0 <= i < own.len() ==> (#[trigger] own[i]).wire_model_id != model)
}

/// Where a route's own roster decides, the rows of other providers are executed
/// as they would be without it: curated rows first, then bundled ones.
pub proof fn a_roster_leaves_other_providers_alone(
    live: LiveView,
    provider: ApiProvider,
    identity: Option<Seq<char>>,
    fingerprint: Seq<char>,
    fresh: bool,
    inputs: RuntimeInputs,
    i: int,
)
    requires
        endpoint_authoritative(live, provider, identity, fingerprint, fresh),
        provider != ApiProvider::Ollama,
    ensures
        ({
            let all = runtime_routes(live, provider, identity, fingerprint, fresh, inputs);
            let row = inputs.curated[i];
            let key = (lower(trim(row.provider)), row.wire_model_id);
            last_of_its_route(inputs.curated, i) && not_of_the_roster(
                live,
                provider,
                identity,
                row.provider,
                row.wire_model_id,
            ) ==> all.dom().contains(key) && all[key] == served_as(provider, row)
        }),
        ({
            let all = runtime_routes(live, provider, identity, fingerprint, fresh, inputs);
            let row = inputs.bundled[i];
            let key = (lower(trim(row.provider)), row.wire_model_id);
            last_of_its_key(inputs.bundled, i) && not_of_the_roster(
                live,
                provider,
                identity,
                row.provider,
                row.wire_model_id,
            ) && none_of_route(inputs.curated, key) && spelled_alike(
                inputs.bundled,
                row.provider,
                row.wire_model_id,
            ) ==> all.dom().contains(key) && all[key] == served_as(provider, route_row(row))
        }),
{
    let (below, roster) = lemma_roster_routes(
        live,
        provider,
        identity,
        fingerprint,
        fresh,
        inputs,
    );
    let name = executed_under(provider);
    let low = foreign_routes(below, name);
    let routes = route_rows(roster);
    let with_own = with_routes(low, routes);
    let rest = route_rows(
        values_in_order(unlisted_catalog(provider, inputs.in_signed_scope, inputs.signed)),
    );
    let source = with_rows(Map::empty(), inputs.bundled);
    let base = with_routes(Map::empty(), route_rows(values_in_order(source)));
    lemma_last_route(low, routes);
    lemma_last_route(base, inputs.curated);
    lemma_missing_routes(with_own, rest);
    let curated_key = (lower(trim(inputs.curated[i].provider)), inputs.curated[i].wire_model_id);
    lemma_served(live, provider, identity, fingerprint, fresh, inputs, curated_key);
    let row = inputs.bundled[i];
    let key = (lower(trim(row.provider)), row.wire_model_id);
    lemma_served(live, provider, identity, fingerprint, fresh, inputs, key);
    if last_of_its_route(inputs.curated, i) && not_of_the_roster(
        live,
        provider,
        identity,
        inputs.curated[i].provider,
        inputs.curated[i].wire_model_id,
    ) {
        lemma_foreign(roster, name, curated_key);
        assert(below.dom().contains(curated_key) && below[curated_key] == inputs.curated[i]);
        assert(low.dom().contains(curated_key));
        assert(with_own.dom().contains(curated_key));
    }
    if last_of_its_key(inputs.bundled, i) && spelled_alike(
        inputs.bundled,
        row.provider,
        row.wire_model_id,
    ) {
        the_last_row_of_a_model_stands(Map::empty(), inputs.bundled);
        assert forall|k: PairKey| #[trigger]
            source.dom().contains(k) && lower(trim(k.0)) == lower(trim(row.provider)) && k.1
                == row.wire_model_id implies k.0 == row.provider by {
            if none_of_key(inputs.bundled, k.0, k.1) {
                assert(!source.dom().contains((k.0, k.1)));
            }
            let j: int = a_named_model_has_a_last_row(inputs.bundled, k.0, k.1);
            assert(inputs.bundled[j].provider == k.0);
        }
        lemma_source_routes(source, row.provider, row.wire_model_id);
        if none_of_route(inputs.curated, key) && not_of_the_roster(
            live,
            provider,
            identity,
            row.provider,
            row.wire_model_id,
        ) {
            lemma_foreign(roster, name, key);
            assert(below.dom().contains(key) && below[key] == route_row(row));
            assert(low.dom().contains(key));
            assert(with_own.dom().contains(key));
        }
    }
}

/// A key of another provider, or of a model that the roster does not list, is no
/// key of the roster.
proof fn lemma_foreign(roster: Seq<OfferingView>, name: Seq<char>, key: PairKey)
    requires
        forall|i: int| 0 <= i < roster.len() ==> (#[trigger] roster[i]).provider == name,
        key.0 != lower(trim(name)) || forall|i: int|
            0 <= i < roster.len() ==> (#[trigger] roster[i]).wire_model_id != key.1,
    ensures
        none_of_route(route_rows(roster), key),
{
    assert forall|i: int| 0 <= i < roster.len() implies lower(
        trim((#[trigger] route_rows(roster)[i]).provider),
    ) != key.0 || route_rows(roster)[i].wire_model_id != key.1 by {
        assert(route_rows(roster)[i] == route_row(roster[i]));
    }
}

/// Whether a roster lists the model of row `i` before that of every other row.
pub open spec fn first_of_all_models(rows: Seq<OfferingView>, i: int) -> bool {
    forall|j: int|
        0 <= j < rows.len() ==> (#[trigger] rows[j]).wire_model_id == rows[i].wire_model_id
            || precedes(rows[i].wire_model_id, rows[j].wire_model_id)
}

/// Whether the last row of some model of a roster is a default.
pub open spec fn a_default_is_listed(rows: Seq<OfferingView>) -> bool {
    exists|j: int| #[trigger] last_of_its_model(rows, j) && rows[j].default_for_provider
}

/// Ollama's roster is executed as it stands where it names a default. Where it
/// names none, the model with the least id is the default, and no other is.
pub proof fn ollama_elects_its_first_model(
    live: LiveView,
    identity: Option<Seq<char>>,
    fingerprint: Seq<char>,
    fresh: bool,
    inputs: RuntimeInputs,
    i: int,
)
    requires
        endpoint_authoritative(live, ApiProvider::Ollama, identity, fingerprint, fresh),
        inputs.signed is None,
        last_of_its_model(live.per_provider[partition_of(ApiProvider::Ollama, identity)], i),
    ensures
        ({
            let all = runtime_routes(
                live,
                ApiProvider::Ollama,
                identity,
                fingerprint,
                fresh,
                inputs,
            );
            let own = live.per_provider[partition_of(ApiProvider::Ollama, identity)];
            let name = catalog_id(ApiProvider::Ollama);
            let key = (lower(trim(name)), own[i].wire_model_id);
            &&& all.dom().contains(key)
            &&& a_default_is_listed(own) ==> all[key] == route_row(
                OfferingView { provider: name, ..own[i] },
            )
            &&& !a_default_is_listed(own) ==> all[key] == (RouteRow {
                default_for_provider: first_of_all_models(own, i),
                ..route_row(OfferingView { provider: name, ..own[i] })
            })
        }),
{
    let provider = ApiProvider::Ollama;
    let (below, roster) = lemma_roster_routes(
        live,
        provider,
        identity,
        fingerprint,
        fresh,
        inputs,
    );
    let own = live.per_provider[partition_of(provider, identity)];
    let name = catalog_id(provider);
    let head = lower(trim(name));
    let key = (head, own[i].wire_model_id);
    let low = foreign_routes(below, name);
    let routes = route_rows(roster);
    let with_own = with_routes(low, routes);
    let unlisted = unlisted_catalog(provider, inputs.in_signed_scope, inputs.signed);
    let rest = route_rows(values_in_order(unlisted));
    let plain = plain_routes(live, provider, identity, fingerprint, fresh, inputs);
    assert(unlisted == Map::<PairKey, OfferingView>::empty());
    lemma_unlisted(provider, inputs.in_signed_scope, inputs.signed);
    ordered_values_are_the_values(unlisted);
    assert(rest.len() == 0);
    assert(rest =~= Seq::empty());
    assert(plain == with_own);
    lemma_last_route(low, routes);
    assert forall|j: int| #[trigger] last_of_its_model(own, j) implies plain.dom().contains(
        (head, own[j].wire_model_id),
    ) && plain[(head, own[j].wire_model_id)] == route_row(
        OfferingView { provider: name, ..own[j] },
    ) by {
        assert forall|k: int| j < k < routes.len() implies lower(
            trim((#[trigger] routes[k]).provider),
        ) != lower(trim(routes[j].provider)) || routes[k].wire_model_id
            != routes[j].wire_model_id by {
            assert(routes[k] == route_row(roster[k]) && routes[j] == route_row(roster[j]));
            assert(own[k].wire_model_id != own[j].wire_model_id);
        }
        assert(routes[j] == route_row(roster[j]));
        assert(last_of_its_route(routes, j));
    }
    // The rows of this provider are those of the roster and no others.
    assert forall|k: PairKey| #[trigger]
        plain.dom().contains(k) && plain[k].provider == name implies k.0 == head && exists|j: int|
     #[trigger]
        last_of_its_model(own, j) && own[j].wire_model_id == k.1 by {
        if none_of_route(routes, k) {
            assert(low.dom().contains(k));
        } else {
            let j: int = lemma_named_route(routes, k);
            assert(routes[j] == route_row(roster[j]));
            assert forall|q: int| j < q < own.len() implies (#[trigger] own[q]).wire_model_id
                != own[j].wire_model_id by {
                assert(routes[q] == route_row(roster[q]));
            }
            assert(last_of_its_model(own, j));
        }
    }
    lemma_below_finite(inputs);
    assert(low.dom().subset_of(below.dom()));
    assert(plain.dom().finite());
    keys_in_order_exist(plain);
    let keys = keys_in_order(plain);
    lemma_least_key(plain, keys, name);
    if a_default_is_listed(own) {
        let j = choose|j: int| #[trigger] last_of_its_model(own, j) && own[j].default_for_provider;
        assert(plain.dom().contains((head, own[j].wire_model_id)));
        assert(reports_default(plain, name));
    } else {
        if reports_default(plain, name) {
            let k = choose|k: PairKey| #[trigger]
                plain.dom().contains(k) && plain[k].provider == name
                    && plain[k].default_for_provider;
            let j = choose|j: int| #[trigger] last_of_its_model(own, j) && own[j].wire_model_id
                == k.1;
            assert(plain[(head, own[j].wire_model_id)] == plain[k]);
        }
        assert(keys.contains(key));
        let at = choose|at: int| 0 <= at < keys.len() && keys[at] == key;
        assert(plain[keys[at]].provider == name);
        let first = first_key_of(plain, keys, name)->0;
        assert(first_key_of(plain, keys, name) is Some);
        assert(plain.dom().contains(first));
        let e = choose|e: int| #[trigger] last_of_its_model(own, e) && own[e].wire_model_id
            == first.1;
        if first_of_all_models(own, i) {
            assert(own[e].wire_model_id == own[i].wire_model_id || precedes(
                own[i].wire_model_id,
                own[e].wire_model_id,
            ));
            if first != key {
                assert(key_before(first, key));
                key_order_is_strict_and_total(first, key, first);
            }
        }
        if first == key {
            assert forall|j: int| 0 <= j < own.len() implies (#[trigger] own[j]).wire_model_id
                == own[i].wire_model_id || precedes(
                own[i].wire_model_id,
                own[j].wire_model_id,
            ) by {
                let l: int = lemma_last_model(own, j);
                let other = (head, own[l].wire_model_id);
                assert(plain.dom().contains(other));
                if other != key {
                    assert(keys.contains(other));
                    let p = choose|p: int| 0 <= p < keys.len() && keys[p] == other;
                    assert(plain[keys[p]].provider == name);
                    assert(key_before(key, other));
                    text_order_is_strict_and_total(head, head, head);
                }
            }
        }
    }
}

proof fn lemma_last_model(rows: Seq<OfferingView>, j: int) -> (l: int)
    requires
        0 <= j < rows.len(),
    ensures
        last_of_its_model(rows, l),
        rows[l].wire_model_id == rows[j].wire_model_id,
    decreases rows.len() - j,
{
    if last_of_its_model(rows, j) {
        j
    } else {
        let k = choose|k: int|
            j < k < rows.len() && (#[trigger] rows[k]).wire_model_id == rows[j].wire_model_id;
        lemma_last_model(rows, k)
    }
}

proof fn lemma_below_finite(inputs: RuntimeInputs)
    ensures
        with_routes(
            with_routes(
                Map::empty(),
                route_rows(values_in_order(with_rows(Map::empty(), inputs.bundled))),
            ),
            inputs.curated,
        ).dom().finite(),
{
    let routes = route_rows(values_in_order(with_rows(Map::empty(), inputs.bundled)));
    lemma_last_route(Map::empty(), routes);
    lemma_last_route(with_routes(Map::empty(), routes), inputs.curated);
}

/// The first key of a provider comes before all its other keys.
proof fn lemma_least_key(m: Map<PairKey, RouteRow>, keys: Seq<PairKey>, name: Seq<char>)
    requires
        ascending(keys),
    ensures
        match first_key_of(m, keys, name) {
            Some(key) => keys.contains(key) && m[key].provider == name && forall|i: int|
                0 <= i < keys.len() && m[#[trigger] keys[i]].provider == name ==> keys[i] == key
                    || key_before(key, keys[i]),
            None => forall|i: int| 0 <= i < keys.len() ==> m[#[trigger] keys[i]].provider != name,
        },
    decreases keys.len(),
{
    if keys.len() > 0 && m[keys[0]].provider != name {
        let rest = keys.drop_first();
        assert forall|a: int, b: int| 0 <= a < b < rest.len() implies key_before(
            #[trigger] rest[a],
            #[trigger] rest[b],
        ) by {
            assert(rest[a] == keys[a + 1] && rest[b] == keys[b + 1]);
        }
        lemma_least_key(m, rest, name);
        assert forall|i: int| 0 < i < keys.len() implies #[trigger] keys[i] == rest[i - 1] by {}
        match first_key_of(m, rest, name) {
            Some(key) => {
                let j = choose|j: int| 0 <= j < rest.len() && rest[j] == key;
                assert(keys[j + 1] == key);
                assert forall|i: int|
                    0 <= i < keys.len() && m[#[trigger] keys[i]].provider == name implies keys[i]
                    == key || key_before(key, keys[i]) by {
                    assert(i > 0);
                    assert(keys[i] == rest[i - 1]);
                }
            },
            None => {
                assert forall|i: int| 0 <= i < keys.len() implies m[#[trigger] keys[i]].provider
                    != name by {
                    if i > 0 {
                        assert(rest[i - 1] == keys[i]);
                    }
                }
            },
        }
    } else if keys.len() > 0 {
        assert(keys.contains(keys[0]));
    }
}


/// The live rows that a route reads are its own roster where that decides, and
/// otherwise the Models.dev rows of its provider.
pub proof fn a_route_reads_its_roster_or_models_dev(
    live: LiveView,
    provider: ApiProvider,
    identity: Option<Seq<char>>,
    fingerprint: Seq<char>,
    fresh: bool,
)
    ensures
        selected_rows(live, provider, identity, fingerprint, fresh) == if endpoint_authoritative(
            live,
            provider,
            identity,
            fingerprint,
            fresh,
        ) {
            live.per_provider[partition_of(provider, identity)]
        } else {
            read_rows(live, provider, identity)
        },
{
}

/// What a signed layer is applied to on a route: the live rows that the route
/// reads over the bundled ones, in key order, and the bundled ones alone where its
/// roster decides.
pub proof fn a_signed_layer_is_applied_to_what_the_route_reads(
    bundled: Seq<OfferingView>,
    selected: Seq<OfferingView>,
)
    ensures
        laid_over(
            values_in_order(unsigned_source_catalog(bundled, false, selected)),
            bundled,
            selected,
        ),
        laid_over(
            values_in_order(unsigned_source_catalog(bundled, true, selected)),
            Seq::empty(),
            bundled,
        ),
{
    lemma_laid_over(bundled, selected);
    lemma_laid_over(Seq::empty(), bundled);
    assert(with_rows(Map::empty(), Seq::<OfferingView>::empty())
        == Map::<PairKey, OfferingView>::empty());
}

/// Where a signed layer describes a route whose own roster decides, it fills a
/// row out where it has a row of the same model at that row's position, and only
/// there.
pub proof fn a_signed_layer_fills_executed_rows_out(
    live: LiveView,
    provider: ApiProvider,
    identity: Option<Seq<char>>,
    fingerprint: Seq<char>,
    fresh: bool,
    inputs: RuntimeInputs,
    layer: SignedView,
    i: int,
)
    requires
        endpoint_authoritative(live, provider, identity, fingerprint, fresh),
        provider != ApiProvider::Ollama,
        inputs.signed == Some(layer),
        inputs.in_signed_scope,
        signer_names(provider),
        last_of_its_model(live.per_provider[partition_of(provider, identity)], i),
    ensures
        ({
            let all = runtime_routes(live, provider, identity, fingerprint, fresh, inputs);
            let row = live.per_provider[partition_of(provider, identity)][i];
            let name = executed_under(provider);
            let key = (lower(trim(name)), row.wire_model_id);
            let filled = i < layer.completed.len() && layer.completed[i].provider == name
                && layer.completed[i].wire_model_id == row.wire_model_id;
            &&& all.dom().contains(key)
            &&& all[key] == served_as(
                provider,
                route_row(
                    if filled {
                        layer.completed[i]
                    } else {
                        OfferingView { provider: name, ..row }
                    },
                ),
            )
        }),
{
    signed_facts_do_not_cross_routes(provider, inputs.in_signed_scope);
    let own = live.per_provider[partition_of(provider, identity)];
    assert(partition_of(provider, identity) == crate::live::owner_key(
        crate::live::route_owner(provider, identity),
    ));
    let name = executed_under(provider);
    let key = (lower(trim(name)), own[i].wire_model_id);
    let moved = transported_rows(own, name);
    let roster = runtime_roster(own, name, true, inputs.signed);
    let source = with_rows(Map::empty(), inputs.bundled);
    let below = with_routes(
        with_routes(Map::empty(), route_rows(values_in_order(source))),
        inputs.curated,
    );
    let low = foreign_routes(below, name);
    let routes = route_rows(roster);
    let with_own = with_routes(low, routes);
    let rest = route_rows(
        values_in_order(unlisted_catalog(provider, inputs.in_signed_scope, inputs.signed)),
    );
    let plain = plain_routes(live, provider, identity, fingerprint, fresh, inputs);
    assert(transport_id(provider, identity) == name);
    assert(plain == with_missing_routes(with_own, rest));
    assert forall|k: int| 0 <= k < own.len() implies (#[trigger] roster[k]).provider == name
        && roster[k].wire_model_id == own[k].wire_model_id by {
        assert(moved[k] == OfferingView { provider: name, ..own[k] });
        assert(roster[k] == crate::merge::completed_row(moved[k], layer.completed, k));
    }
    assert(moved[i] == OfferingView { provider: name, ..own[i] });
    assert(roster[i] == crate::merge::completed_row(moved[i], layer.completed, i));
    assert forall|j: int| i < j < routes.len() implies lower(
        trim((#[trigger] routes[j]).provider),
    ) != lower(trim(routes[i].provider)) || routes[j].wire_model_id
        != routes[i].wire_model_id by {
        assert(routes[j] == route_row(roster[j]) && routes[i] == route_row(roster[i]));
        assert(own[j].wire_model_id != own[i].wire_model_id);
    }
    assert(routes[i] == route_row(roster[i]));
    assert(last_of_its_route(routes, i));
    lemma_last_route(low, routes);
    lemma_missing_routes(with_own, rest);
    assert(with_own.dom().contains(key));
    lemma_served(live, provider, identity, fingerprint, fresh, inputs, key);
}

} // verus!
