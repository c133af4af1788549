//! One concrete route: its endpoint, its listing and the signed layer.

use codewhale_providers::api_provider::{catalog_provider_id, ApiProvider};
use codewhale_providers::lake::{
    all_catalog_models_for_provider, bundled_catalog_offering_for_model,
    catalog_offering_for_model, replace_provider_live_snapshot_for_identity,
    runtime_catalog_resolver_for_identity, set_live_snapshot, CloudOverlay, ModelNames,
    ProviderLake,
};
use codewhale_providers::live::{GoRoster, LiveSource};
use codewhale_providers::merge::{base_catalog_rows, visible_roster_rows};
use codewhale_providers::offering::{
    CatalogOffering, CatalogSnapshot, CatalogSource, CatalogStatus, ModelLimit,
};
use codewhale_providers::route_catalog::{
    catalog_models_for_route, catalog_offering_for_route, configured_catalog_models_for_route,
    configured_catalog_offering_for_route, configured_model_for_route, models_for_provider,
    route_source_rows, CachedRoster, ConfiguredModel, ConfiguredModels,
};
use codewhale_providers::runtime::{
    cloud_facts_apply_to_route, cloud_unlisted_offerings_for_route,
    row_matches_endpoint_fingerprint, runtime_selected_rows, runtime_source_rows,
    CapabilityState, ProviderModelOffering, RouteEndpoint,
};
use codewhale_providers::signed::{scoped_facts, ModelFact, ModelOp, ModelRef, SignedLayer};

const NOW: u64 = 1_700_000_000;

fn row(provider: &str, model: &str) -> CatalogOffering {
    CatalogOffering {
        provider: provider.to_owned(),
        wire_model_id: model.to_owned(),
        endpoint_key: "chat".to_owned(),
        ..Default::default()
    }
}

fn new_lake() -> ProviderLake {
    ProviderLake::new(
        CatalogSnapshot {
            offerings: vec![
                CatalogOffering {
                    limit: Some(ModelLimit { context: Some(1_000_000), output: None }),
                    ..row("deepseek", "deepseek-v4-flash")
                },
                row("deepseek", "deepseek-v4-pro"),
                row("openai", "gpt-5.5"),
                row("siliconflow", "sf-model"),
            ],
        },
        Vec::new(),
        GoRoster { models: Vec::new() },
    )
}

fn names() -> ModelNames {
    ModelNames { codex: Vec::new(), completion: Vec::new() }
}

fn official(provider: ApiProvider) -> RouteEndpoint {
    RouteEndpoint {
        fingerprint: format!("{}-official", provider.as_str()),
        in_signed_scope: true,
        keeps_custom_model: false,
    }
}

fn proxied() -> RouteEndpoint {
    RouteEndpoint {
        fingerprint: "proxy".to_owned(),
        in_signed_scope: false,
        keeps_custom_model: true,
    }
}

/// A statement of a signed payload, with its price and its assertion.
#[derive(Clone)]
struct Statement {
    fact: ModelFact,
    price: Option<u64>,
    allow_unlisted: bool,
}

fn statement(provider: &str, id: &str, op: ModelOp, context: Option<u64>) -> Statement {
    Statement {
        fact: ModelFact {
            provider: provider.to_owned(),
            id: id.to_owned(),
            op,
            context_window: context,
            max_output: None,
            reasoning: None,
            priced: false,
        },
        price: None,
        allow_unlisted: false,
    }
}

fn upsert_fact(provider: &str, id: &str, context: u64) -> Statement {
    statement(provider, id, ModelOp::Upsert, Some(context))
}

fn hidden_fact(provider: &str, id: &str) -> Statement {
    statement(provider, id, ModelOp::Hide, None)
}

/// An assertion that the id exists on the provider's official endpoint.
fn attested(statement: Statement) -> Statement {
    Statement { allow_unlisted: true, ..statement }
}

fn attested_fact(provider: &str, id: &str) -> Statement {
    attested(statement(provider, id, ModelOp::Upsert, None))
}

fn priced(mut statement: Statement, price: u64) -> Statement {
    statement.price = Some(price);
    statement.fact.priced = true;
    statement
}

/// A signed payload.
#[derive(Clone)]
struct Payload {
    statements: Vec<Statement>,
}

impl Payload {
    fn new(statements: Vec<Statement>) -> Payload {
        Payload { statements }
    }

    fn scoped(&self, provider: &str) -> Payload {
        Payload {
            statements: self
                .statements
                .iter()
                .filter(|statement| statement.fact.provider == provider)
                .cloned()
                .collect(),
        }
    }

    /// The payload's patches, applied to some rows.
    fn patch(&self, mut rows: Vec<CatalogOffering>) -> Vec<CatalogOffering> {
        for statement in &self.statements {
            let fact = &statement.fact;
            let place = rows
                .iter()
                .position(|row| row.provider == fact.provider && row.wire_model_id == fact.id);
            match (fact.op, place) {
                (ModelOp::Hide, Some(i)) => {
                    rows.remove(i);
                }
                (ModelOp::Upsert, Some(i)) => {
                    rows[i].limit = stated_over(rows[i].limit, fact);
                    rows[i].price = statement.price.or(rows[i].price);
                }
                (ModelOp::Upsert, None) => rows.push(CatalogOffering {
                    limit: stated_over(None, fact),
                    reasoning: fact.reasoning,
                    price: statement.price,
                    source: CatalogSource::CloudFacts { fetched_at: NOW },
                    ..row(&fact.provider, &fact.id)
                }),
                _ => {}
            }
        }
        rows
    }

    /// The payload's completions of what some rows leave unsaid.
    fn complete(&self, mut rows: Vec<CatalogOffering>) -> Vec<CatalogOffering> {
        for row in &mut rows {
            for statement in &self.statements {
                let fact = &statement.fact;
                if fact.provider == row.provider && fact.id == row.wire_model_id {
                    let stated = row.limit;
                    row.limit = Some(ModelLimit {
                        context: stated.and_then(|limit| limit.context).or(fact.context_window),
                        output: stated.and_then(|limit| limit.output).or(fact.max_output),
                    });
                    row.reasoning = row.reasoning.or(fact.reasoning);
                }
            }
        }
        rows
    }

    fn answer(&self, below: Vec<CatalogOffering>, roster: Vec<CatalogOffering>) -> SignedLayer {
        SignedLayer {
            facts: self.statements.iter().map(|statement| statement.fact.clone()).collect(),
            patched: self.patch(below),
            completed: self.complete(roster),
            unlisted: self.patch(Vec::new()),
            attested: self
                .statements
                .iter()
                .filter(|statement| statement.allow_unlisted)
                .map(|statement| ModelRef {
                    provider: statement.fact.provider.clone(),
                    model: statement.fact.id.clone(),
                })
                .collect(),
        }
    }
}

fn stated_over(limit: Option<ModelLimit>, fact: &ModelFact) -> Option<ModelLimit> {
    if fact.context_window.is_none() && fact.max_output.is_none() {
        return limit;
    }
    Some(ModelLimit {
        context: fact.context_window.or(limit.and_then(|limit| limit.context)),
        output: fact.max_output.or(limit.and_then(|limit| limit.output)),
    })
}

/// A lake with the cached listing of the DeepSeek endpoint and a payload.
struct World {
    lake: ProviderLake,
    cached: Option<CachedRoster>,
    payload: Option<Payload>,
    generation: u64,
}

impl World {
    fn new() -> World {
        World { lake: new_lake(), cached: None, payload: None, generation: 0 }
    }

    fn publish(&mut self, payload: Option<Payload>) {
        self.payload = payload;
        self.generation += 1;
    }

    fn record_roster(&mut self, offerings: Vec<CatalogOffering>) {
        replace_provider_live_snapshot_for_identity(
            &mut self.lake,
            ApiProvider::Deepseek,
            "deepseek",
            CatalogSnapshot { offerings: offerings.clone() },
        );
        self.cached = Some(CachedRoster { fetched_at: NOW, offerings });
    }

    fn listing(&self, provider: ApiProvider, endpoint: &RouteEndpoint) -> Option<&CachedRoster> {
        let own = official(ApiProvider::Deepseek);
        if provider == ApiProvider::Deepseek && endpoint.fingerprint == own.fingerprint {
            self.cached.as_ref()
        } else {
            None
        }
    }

    fn route_layer(&self, provider: ApiProvider, endpoint: &RouteEndpoint) -> Option<SignedLayer> {
        let roster = match self.listing(provider, endpoint) {
            Some(cached) => cached.offerings.clone(),
            None => Vec::new(),
        };
        let below = route_source_rows(&self.lake, provider);
        self.payload
            .as_ref()
            .map(|payload| payload.scoped(catalog_provider_id(provider)).answer(below, roster))
    }

    fn merged_overlay(&self) -> CloudOverlay {
        let live = self.lake.live_partitions();
        let below = base_catalog_rows(live, self.lake.bundled_snapshot());
        let roster = visible_roster_rows(live);
        CloudOverlay {
            generation: self.generation,
            layer: self.payload.as_ref().map(|payload| payload.answer(below, roster)),
        }
    }

    fn models_at(&self, provider: ApiProvider, endpoint: &RouteEndpoint) -> Vec<String> {
        let layer = self.route_layer(provider, endpoint);
        catalog_models_for_route(
            &self.lake,
            provider,
            endpoint,
            self.listing(provider, endpoint),
            layer.as_ref(),
            &names(),
        )
    }

    fn models(&self, provider: ApiProvider) -> Vec<String> {
        self.models_at(provider, &official(provider))
    }

    fn merged_models(&mut self, provider: ApiProvider) -> Vec<String> {
        let overlay = self.merged_overlay();
        all_catalog_models_for_provider(&mut self.lake, &overlay, &names(), provider)
    }

    fn offering_at(
        &mut self,
        provider: ApiProvider,
        identity: &str,
        endpoint: &RouteEndpoint,
        model: &str,
    ) -> Option<CatalogOffering> {
        let overlay = self.merged_overlay();
        let layer = self.route_layer(provider, endpoint);
        let cached = self.listing(provider, endpoint).map(|cached| CachedRoster {
            fetched_at: cached.fetched_at,
            offerings: cached.offerings.clone(),
        });
        catalog_offering_for_route(
            &mut self.lake,
            &overlay,
            provider,
            identity,
            endpoint,
            cached.as_ref(),
            layer.as_ref(),
            model,
        )
    }

    fn offering(&mut self, model: &str) -> Option<CatalogOffering> {
        let provider = ApiProvider::Deepseek;
        self.offering_at(provider, "deepseek", &official(provider), model)
    }

    /// What the executor knows of a model on a provider's official endpoint.
    fn route(&mut self, provider: ApiProvider, model: &str) -> Option<ProviderModelOffering> {
        let endpoint = official(provider);
        let identity = provider.as_str();
        let fresh = self.cached.is_some();
        let live = self.lake.live_partitions();
        let below = runtime_source_rows(
            live,
            self.lake.bundled_snapshot(),
            provider,
            Some(identity),
            &endpoint,
            fresh,
        );
        let (_, roster) =
            runtime_selected_rows(live, provider, Some(identity), &endpoint, fresh);
        let overlay = CloudOverlay {
            generation: self.generation,
            layer: self
                .payload
                .as_ref()
                .map(|payload| payload.scoped(identity).answer(below, roster)),
        };
        let status = if fresh { CatalogStatus::Fresh } else { CatalogStatus::Unknown };
        runtime_catalog_resolver_for_identity(
            &mut self.lake,
            &overlay,
            provider,
            Some(identity),
            &endpoint,
            &status,
        )
        .offerings
        .into_iter()
        .find(|route| route.provider == identity && route.wire_model_id == model)
    }
}

fn roster_row(id: &str) -> CatalogOffering {
    CatalogOffering {
        source: CatalogSource::Live {
            base_url_fingerprint: official(ApiProvider::Deepseek).fingerprint,
            fetched_at: NOW,
        },
        ..row("deepseek", id)
    }
}

fn context(offering: &CatalogOffering) -> Option<u64> {
    offering.limit.and_then(|limit| limit.context)
}

#[test]
fn models_for_provider_filters_unconfigured_gateways() {
    let lake = new_lake();
    let configured = vec![ApiProvider::Deepseek];
    let listed = |provider: ApiProvider| {
        models_for_provider(
            &lake,
            &configured,
            None,
            provider,
            &official(provider),
            None,
            None,
            &names(),
        )
    };
    assert!(listed(ApiProvider::Together).is_empty());
    assert!(!listed(ApiProvider::Deepseek).is_empty());
    assert!(
        listed(ApiProvider::Openai).is_empty(),
        "rows alone do not make a provider configured"
    );
}

#[test]
fn cloud_generation_updates_exact_catalog_defaults_and_disable_restores_baseline() {
    let mut world = World::new();
    let provider = ApiProvider::Openai;
    let model = "cloud-catalog-fixture";
    assert!(!world.models(provider).iter().any(|id| id == model));
    assert!(world.route(provider, "gpt-5.5").is_some());

    world.publish(Some(Payload::new(vec![upsert_fact("openai", model, 31_337)])));
    assert!(world.models(provider).iter().any(|id| id == model));
    assert!(world.models_at(provider, &proxied()).is_empty());
    let route = world.route(provider, model).expect("the signed model is executed");
    assert_eq!(route.context_tokens, Some(31_337));
    assert!(world.route(provider, "gpt-5.5").is_some());

    world.publish(Some(Payload::new(vec![upsert_fact("openai", model, 62_674)])));
    let route = world.route(provider, model).expect("the signed model is executed");
    assert_eq!(route.context_tokens, Some(62_674));

    world.publish(None);
    assert!(world.route(provider, model).is_none());
    assert!(world.route(provider, "gpt-5.5").is_some());
    assert!(!world.models(provider).iter().any(|id| id == model));
}

#[test]
fn roster_omission_stands_unless_the_payload_explicitly_attests_the_id() {
    let mut world = World::new();
    let provider = ApiProvider::Deepseek;
    let bundled = "deepseek-v4-flash";
    let unknown = "deepseek-v4-nano-preview";
    let listed = "deepseek-v4-pro";
    assert!(bundled_catalog_offering_for_model(&world.lake, provider, bundled).is_some());
    assert!(bundled_catalog_offering_for_model(&world.lake, provider, unknown).is_none());
    world.record_roster(vec![roster_row(listed)]);

    world.publish(Some(Payload::new(vec![
        upsert_fact("deepseek", bundled, 999_999),
        upsert_fact("deepseek", unknown, 131_072),
    ])));
    let models = world.models(provider);
    assert!(models.iter().any(|id| id == listed), "{models:?}");
    for id in [bundled, unknown] {
        assert!(
            !models.iter().any(|row| row == id),
            "an unattested patch must not survive the roster's omission: {models:?}"
        );
        assert!(
            world.offering(id).is_none(),
            "{id} must not answer with signed facts either"
        );
        assert!(
            !world.merged_models(provider).iter().any(|row| row == id),
            "the merged view must not read it back out either"
        );
    }

    world.publish(Some(Payload::new(vec![
        attested_fact("deepseek", bundled),
        attested(upsert_fact("deepseek", unknown, 131_072)),
    ])));
    let models = world.models(provider);
    let merged = world.merged_models(provider);
    for id in [listed, bundled, unknown] {
        assert!(models.iter().any(|row| row == id), "{models:?}");
        assert!(merged.iter().any(|row| row == id), "{merged:?}");
    }
    let found = world.offering(bundled).expect("an attested id resolves its own facts");
    assert_eq!(
        found.limit, None,
        "an id-only assertion must not borrow limits from the bundled layer"
    );
    assert_eq!(found.price, None);
    assert_eq!(found.details, None);
    let offering = world.offering(unknown).expect("an attested id resolves its own facts");
    assert_eq!(offering.wire_model_id, unknown, "the exact id, verbatim");
    assert_eq!(context(&offering), Some(131_072));

    let route = world.route(provider, unknown).expect("the executor reads the same list");
    assert_eq!(route.context_tokens, Some(131_072));

    assert!(!world.models_at(provider, &proxied()).iter().any(|id| id == unknown));
}

#[test]
fn signed_hide_expiry_and_dropped_upsert_retract_rows_without_a_provider_request() {
    let mut world = World::new();
    let provider = ApiProvider::Deepseek;
    let hidden = "deepseek-v4-flash";
    let preview = "deepseek-v4-nano-preview";
    let before = world.models(provider);
    assert!(before.iter().any(|id| id == hidden), "{before:?}");

    world.publish(Some(Payload::new(vec![
        hidden_fact("deepseek", hidden),
        upsert_fact("deepseek", preview, 131_072),
    ])));
    let hidden_view = world.models(provider);
    assert!(
        !hidden_view.iter().any(|id| id == hidden),
        "hide must remove the bundled row: {hidden_view:?}"
    );
    assert!(hidden_view.iter().any(|id| id == preview), "{hidden_view:?}");

    // An expired payload is no payload.
    world.publish(None);
    let expired = world.models(provider);
    assert!(
        expired.iter().any(|id| id == hidden),
        "an expired payload cannot keep hiding a bundled row: {expired:?}"
    );
    assert!(
        !expired.iter().any(|id| id == preview),
        "an expired payload cannot keep offering its own row: {expired:?}"
    );

    world.record_roster(vec![roster_row("deepseek-v4-pro")]);
    world.publish(Some(Payload::new(vec![attested_fact("deepseek", preview)])));
    assert!(world.models(provider).iter().any(|id| id == preview));
    world.publish(Some(Payload::new(Vec::new())));
    let withdrawn = world.models(provider);
    assert!(
        !withdrawn.iter().any(|id| id == preview),
        "dropping the upsert must withdraw the row: {withdrawn:?}"
    );
    assert!(
        withdrawn.iter().any(|id| id == "deepseek-v4-pro"),
        "the roster is untouched by the withdrawal: {withdrawn:?}"
    );
}

#[test]
fn signed_rows_do_not_cross_regional_wire_or_proxied_routes() {
    let mut world = World::new();
    let preview = "deepseek-v4-nano-preview";
    let siliconflow_preview = "sf-preview-not-in-any-catalog";
    world.publish(Some(Payload::new(vec![
        priced(attested(upsert_fact("deepseek", preview, 131_072)), 7),
        upsert_fact("siliconflow", siliconflow_preview, 65_536),
    ])));
    let offers =
        |provider: ApiProvider, model: &str| world.models(provider).iter().any(|id| id == model);

    assert!(
        offers(ApiProvider::Deepseek, preview),
        "the exact signed route must offer the row"
    );
    assert!(
        !offers(ApiProvider::DeepseekCN, preview),
        "the legacy CN alias inherits nothing from the primary identity"
    );
    assert!(
        !offers(ApiProvider::DeepseekAnthropic, preview),
        "the Anthropic-wire endpoint is not the identity the signer named"
    );
    assert!(
        offers(ApiProvider::Siliconflow, siliconflow_preview),
        "the exact signed SiliconFlow route must offer the row"
    );
    assert!(
        !offers(ApiProvider::SiliconflowCn, siliconflow_preview),
        "the China endpoint is a different identity, even where the host allowlist overlaps"
    );
    assert!(
        !world
            .models_at(ApiProvider::Deepseek, &proxied())
            .iter()
            .any(|id| id == preview),
        "a custom base URL never inherits signed rows"
    );

    // The price travels with the row and no further.
    let signed = world.offering(preview).expect("the exact signed route");
    assert_eq!(signed.price, Some(7));
    for (provider, identity) in [
        (ApiProvider::DeepseekCN, "deepseek-cn"),
        (ApiProvider::DeepseekAnthropic, "deepseek-anthropic"),
    ] {
        assert!(
            world
                .offering_at(provider, identity, &official(provider), preview)
                .is_none(),
            "{identity} must not mint a quote from another endpoint's facts"
        );
    }
    assert!(
        world
            .offering_at(ApiProvider::Deepseek, "deepseek", &proxied(), preview)
            .is_none(),
        "and neither may a proxied base URL"
    );
}

#[test]
fn provider_id_only_rows_take_signed_limits_while_provider_facts_and_prices_win() {
    let mut world = World::new();
    let provider = ApiProvider::Deepseek;
    let id_only = "deepseek-roster-bare";
    let detailed = "deepseek-roster-detailed";
    world.record_roster(vec![
        roster_row(id_only),
        CatalogOffering {
            limit: Some(ModelLimit { context: Some(12_345), output: None }),
            reasoning: Some(false),
            ..roster_row(detailed)
        },
    ]);
    let signed = |id: &str| {
        let mut statement = priced(upsert_fact("deepseek", id, 131_072), 7);
        statement.fact.max_output = Some(8_192);
        statement.fact.reasoning = Some(true);
        statement
    };
    world.publish(Some(Payload::new(vec![signed(id_only), signed(detailed)])));

    let bare = world.offering(id_only).expect("the roster row is still there");
    let limit = bare.limit.expect("signed limits complete it");
    assert_eq!(limit.context, Some(131_072));
    assert_eq!(limit.output, Some(8_192));
    assert_eq!(bare.reasoning, Some(true));
    assert!(
        matches!(bare.source, CatalogSource::Live { .. }),
        "the row is still the provider's: {:?}",
        bare.source
    );
    assert_eq!(bare.price, None, "a signed price must not appear on a provider-live row");

    let stated = world.offering(detailed).expect("the roster row is still there");
    let limit = stated.limit.expect("provider limits are kept");
    assert_eq!(limit.context, Some(12_345), "the provider's own context must win");
    assert_eq!(limit.output, Some(8_192), "only the silence is filled");
    assert_eq!(stated.reasoning, Some(false), "and its own capability wins");

    let overlay = world.merged_overlay();
    let merged = catalog_offering_for_model(&mut world.lake, &overlay, provider, id_only)
        .expect("the merged row");
    assert_eq!(context(&merged), Some(131_072));
    let bare = world.route(provider, id_only).expect("the executor's row");
    assert_eq!(bare.context_tokens, Some(131_072));
    assert_eq!(bare.reasoning, CapabilityState::Supported);
    let detailed = world.route(provider, detailed).expect("the executor's row");
    assert_eq!(detailed.context_tokens, Some(12_345));
    assert_eq!(detailed.reasoning, CapabilityState::Unsupported);
}

#[test]
fn signed_facts_correct_models_dev_enrichment_on_the_exact_route() {
    let mut world = World::new();
    let provider = ApiProvider::Deepseek;
    let model = "deepseek-enriched-only";
    set_live_snapshot(
        &mut world.lake,
        CatalogSnapshot {
            offerings: vec![CatalogOffering {
                limit: Some(ModelLimit { context: Some(65_536), output: Some(4_096) }),
                price: Some(28),
                source: CatalogSource::ModelsDev { fetched_at: NOW },
                ..row("deepseek", model)
            }],
        },
        LiveSource::ModelsDev,
    );

    let enriched = world
        .offering(model)
        .expect("the enriched row answers on the provider's own endpoint");
    assert_eq!(context(&enriched), Some(65_536));

    world.publish(Some(Payload::new(vec![priced(
        upsert_fact("deepseek", model, 131_072),
        5,
    )])));
    let corrected = world.offering(model).expect("the corrected row is still offered");
    let limit = corrected.limit.expect("limits are kept");
    assert_eq!(limit.context, Some(131_072), "the stale window is corrected");
    assert_eq!(limit.output, Some(4_096), "and only what the payload states is replaced");
    assert_eq!(corrected.price, Some(5), "the signed rate replaces the enriched one");

    let route = world.route(provider, model).expect("the executor reads the same correction");
    assert_eq!(route.context_tokens, Some(131_072));

    world.record_roster(vec![roster_row("deepseek-v4-pro")]);
    assert!(
        world.offering(model).is_none(),
        "an unattested correction cannot survive the roster's omission"
    );
}

#[test]
fn a_listing_that_was_never_fetched_decides_nothing() {
    let lake = new_lake();
    let endpoint = official(ApiProvider::Deepseek);
    let unfetched = CachedRoster { fetched_at: 0, offerings: vec![roster_row("x")] };
    let models = catalog_models_for_route(
        &lake,
        ApiProvider::Deepseek,
        &endpoint,
        Some(&unfetched),
        None,
        &names(),
    );
    assert_eq!(models, vec!["deepseek-v4-flash", "deepseek-v4-pro"]);
}

#[test]
fn another_endpoints_listing_is_not_borrowed() {
    let mut world = World::new();
    world.record_roster(vec![roster_row("only-there")]);
    let elsewhere = RouteEndpoint {
        fingerprint: "elsewhere".to_owned(),
        in_signed_scope: false,
        keeps_custom_model: false,
    };
    let provider = ApiProvider::Deepseek;
    assert!(world.offering("only-there").is_some());
    assert!(world.offering_at(provider, "deepseek", &elsewhere, "only-there").is_none());
    assert!(!world.models_at(provider, &elsewhere).contains(&"only-there".to_string()));
}

fn declared(id: &str, matches_route: bool) -> ConfiguredModel {
    ConfiguredModel {
        id: id.to_owned(),
        matches_route,
        offering: CatalogOffering {
            source: CatalogSource::Configured,
            ..row("deepseek", id)
        },
    }
}

#[test]
fn declarations_count_on_their_own_route_only() {
    let mut lake = new_lake();
    let provider = ApiProvider::Deepseek;
    let endpoint = official(provider);
    let configured = ConfiguredModels {
        valid: true,
        models: vec![declared("mine", true), declared("theirs", false), declared("deepseek-v4-pro", true)],
    };
    let found = configured_model_for_route(Some(&configured), provider, "mine");
    assert_eq!(found.map(|model| model.id.as_str()), Some("mine"));
    assert!(configured_model_for_route(Some(&configured), provider, "theirs").is_none());
    assert!(configured_model_for_route(None, provider, "mine").is_none());

    let models = configured_catalog_models_for_route(
        &lake,
        Some(&configured),
        provider,
        &endpoint,
        None,
        None,
        &names(),
    );
    assert_eq!(models, vec!["deepseek-v4-flash", "deepseek-v4-pro", "mine"]);

    let overlay = CloudOverlay { generation: 0, layer: None };
    let mut lookup = |model: &str| {
        configured_catalog_offering_for_route(
            &mut lake,
            &overlay,
            Some(&configured),
            provider,
            "deepseek",
            &endpoint,
            None,
            None,
            model,
        )
    };
    let own = lookup("deepseek-v4-pro").expect("declared");
    assert!(matches!(own.source, CatalogSource::Configured));
    let other = lookup("deepseek-v4-flash").expect("bundled");
    assert!(matches!(other.source, CatalogSource::Bundled));
    assert!(lookup("theirs").is_none());
}

#[test]
fn invalid_declarations_are_no_declarations() {
    let configured = ConfiguredModels { valid: false, models: vec![declared("mine", true)] };
    assert!(configured_model_for_route(Some(&configured), ApiProvider::Deepseek, "mine").is_none());
}

#[test]
fn only_a_fresh_matching_roster_decides_what_is_executed() {
    let mut world = World::new();
    world.record_roster(vec![roster_row("listed")]);
    let provider = ApiProvider::Deepseek;
    let overlay = CloudOverlay { generation: 0, layer: None };
    let mut resolve = |fingerprint: &str, status: CatalogStatus| {
        let endpoint = RouteEndpoint {
            fingerprint: fingerprint.to_owned(),
            in_signed_scope: false,
            keeps_custom_model: false,
        };
        let catalog = runtime_catalog_resolver_for_identity(
            &mut world.lake,
            &overlay,
            provider,
            Some("deepseek"),
            &endpoint,
            &status,
        );
        let ids: Vec<String> = catalog
            .offerings
            .iter()
            .filter(|route| route.provider == "deepseek")
            .map(|route| route.wire_model_id.clone())
            .collect();
        (catalog.endpoint_catalog_authoritative, ids)
    };
    let own = official(provider).fingerprint;
    let offline = vec!["deepseek-v4-flash".to_owned(), "deepseek-v4-pro".to_owned()];
    assert_eq!(resolve(&own, CatalogStatus::Fresh), (true, vec!["listed".to_owned()]));
    assert_eq!(resolve(&own, CatalogStatus::Stale), (false, offline.clone()));
    assert_eq!(
        resolve(&own, CatalogStatus::Failed { reason: "network".to_owned() }),
        (false, offline.clone())
    );
    assert_eq!(resolve("elsewhere", CatalogStatus::Fresh), (false, offline));
}

#[test]
fn ollama_elects_one_default_from_its_own_tags() {
    let mut lake = new_lake();
    let fingerprint = "ollama-local";
    let tag = |model: &str| CatalogOffering {
        source: CatalogSource::Live {
            base_url_fingerprint: fingerprint.to_owned(),
            fetched_at: NOW,
        },
        ..row("ollama", model)
    };
    replace_provider_live_snapshot_for_identity(
        &mut lake,
        ApiProvider::Ollama,
        "ollama",
        CatalogSnapshot { offerings: vec![tag("qwen"), tag("llama")] },
    );
    let endpoint = RouteEndpoint {
        fingerprint: fingerprint.to_owned(),
        in_signed_scope: false,
        keeps_custom_model: false,
    };
    let overlay = CloudOverlay { generation: 0, layer: None };
    let catalog = runtime_catalog_resolver_for_identity(
        &mut lake,
        &overlay,
        ApiProvider::Ollama,
        Some("ollama"),
        &endpoint,
        &CatalogStatus::Fresh,
    );
    let defaults = catalog
        .offerings
        .iter()
        .filter(|route| route.provider == "ollama" && route.default_for_provider)
        .count();
    assert_eq!(defaults, 1);
}

#[test]
fn signed_facts_are_scoped_to_one_provider_and_one_endpoint() {
    let facts = vec![
        upsert_fact("deepseek", "a", 1).fact,
        upsert_fact("openai", "b", 2).fact,
        hidden_fact("deepseek", "c").fact,
    ];
    let ids: Vec<String> =
        scoped_facts(&facts, "deepseek").into_iter().map(|fact| fact.id).collect();
    assert_eq!(ids, vec!["a", "c"]);

    let deepseek = ApiProvider::Deepseek;
    assert!(cloud_facts_apply_to_route(deepseek, &official(deepseek)));
    assert!(!cloud_facts_apply_to_route(deepseek, &proxied()));
    let anthropic = ApiProvider::DeepseekAnthropic;
    assert!(!cloud_facts_apply_to_route(anthropic, &official(anthropic)));
    let cn = ApiProvider::DeepseekCN;
    assert!(!cloud_facts_apply_to_route(cn, &official(cn)));

    let layer = Payload::new(vec![attested_fact("deepseek", "x"), upsert_fact("deepseek", "y", 1)])
        .answer(Vec::new(), Vec::new());
    let unlisted = cloud_unlisted_offerings_for_route(deepseek, &official(deepseek), Some(&layer));
    assert_eq!(unlisted.len(), 1);
    assert_eq!(unlisted[0].wire_model_id, "x");
    assert!(cloud_unlisted_offerings_for_route(deepseek, &proxied(), Some(&layer)).is_empty());
    assert!(cloud_unlisted_offerings_for_route(deepseek, &official(deepseek), None).is_empty());
}

#[test]
fn a_row_matches_the_endpoint_that_listed_it() {
    let own = official(ApiProvider::Deepseek).fingerprint;
    assert!(row_matches_endpoint_fingerprint(&roster_row("m"), &own));
    assert!(!row_matches_endpoint_fingerprint(&roster_row("m"), "elsewhere"));
    assert!(!row_matches_endpoint_fingerprint(&row("deepseek", "m"), &own));
}

#[test]
fn a_catalog_row_becomes_a_route_row() {
    let offering = CatalogOffering {
        default_for_provider: true,
        limit: Some(ModelLimit { context: Some(10), output: Some(5) }),
        reasoning: Some(true),
        price: Some(3),
        details: Some(4),
        ..row("zai", "glm")
    };
    let route = offering.to_offering();
    assert_eq!(route.provider, "zai");
    assert_eq!(route.wire_model_id, "glm");
    assert_eq!(route.endpoint_key, "chat");
    assert!(route.default_for_provider);
    assert_eq!((route.context_tokens, route.output_tokens), (Some(10), Some(5)));
    assert_eq!(route.reasoning, CapabilityState::Supported);
    assert_eq!((route.price, route.details), (Some(3), Some(4)));
    assert_eq!(CapabilityState::from_optional_bool(None), CapabilityState::Unknown);
    assert_eq!(CapabilityState::from_optional_bool(Some(false)), CapabilityState::Unsupported);
}

#[test]
fn a_completion_of_another_model_is_not_taken() {
    let mut lake = new_lake();
    let provider = ApiProvider::Deepseek;
    let endpoint = official(provider);
    let cached = CachedRoster { fetched_at: NOW, offerings: vec![roster_row("a"), roster_row("b")] };
    let completed = |id: &str| CatalogOffering { reasoning: Some(true), ..roster_row(id) };
    let layer = SignedLayer {
        facts: Vec::new(),
        patched: Vec::new(),
        completed: vec![completed("b"), completed("b")],
        unlisted: Vec::new(),
        attested: Vec::new(),
    };
    let overlay = CloudOverlay { generation: 0, layer: None };
    let mut lookup = |model: &str| {
        catalog_offering_for_route(
            &mut lake,
            &overlay,
            provider,
            "deepseek",
            &endpoint,
            Some(&cached),
            Some(&layer),
            model,
        )
        .expect("the listing has it")
    };
    let a = lookup("a");
    assert_eq!((a.wire_model_id.as_str(), a.reasoning), ("a", None));
    let b = lookup("b");
    assert_eq!((b.wire_model_id.as_str(), b.reasoning), ("b", Some(true)));
}
