//! The catalog layers: what is live, what is bundled, and what wins.

use codewhale_providers::api_provider::{catalog_provider_id, ApiProvider};
use codewhale_providers::lake::{
    all_catalog_models_for_provider, all_catalog_models_for_provider_identity,
    bundled_catalog_offering_for_model, catalog_model_count_for_provider,
    catalog_offering_for_model, catalog_offering_for_model_identity, clear_live_snapshot,
    configured_providers, exact_custom_offerings, live_catalog_origin, live_per_provider_models,
    merge_live_offerings, merged_snapshot, offerings_for_provider_identity,
    replace_provider_live_snapshot, replace_provider_live_snapshot_for_identity,
    runtime_catalog_resolver_for_identity, set_live_snapshot, CloudOverlay, ModelNames,
    ProviderLake,
};
use codewhale_providers::live::{
    apply_provider_model_cutlines, inferred_live_partition_owner, live_partition_owner_for_route,
    GoModel, GoRoster, LivePartitionOwner, LiveSource,
};
use codewhale_providers::offering::{
    same_rows, CatalogOffering, CatalogSnapshot, CatalogSource, CatalogStatus, ModelLimit,
};
use codewhale_providers::runtime::RouteEndpoint;

const DEFAULT_TOGETHER_MODEL: &str = "deepseek-ai/DeepSeek-V4-Pro";
const DEFAULT_TOGETHER_FLASH_MODEL: &str = "deepseek-ai/DeepSeek-V4-Flash";

fn row(provider: &str, model: &str) -> CatalogOffering {
    CatalogOffering {
        provider: provider.to_owned(),
        wire_model_id: model.to_owned(),
        endpoint_key: "chat".to_owned(),
        ..Default::default()
    }
}

fn default_row(provider: &str, model: &str) -> CatalogOffering {
    CatalogOffering { default_for_provider: true, ..row(provider, model) }
}

fn live_row(provider: &str, model: &str, fingerprint: &str, fetched_at: u64) -> CatalogOffering {
    CatalogOffering {
        source: CatalogSource::Live {
            base_url_fingerprint: fingerprint.to_owned(),
            fetched_at,
        },
        ..row(provider, model)
    }
}

fn snapshot(offerings: Vec<CatalogOffering>) -> CatalogSnapshot {
    CatalogSnapshot { offerings }
}

fn go_roster() -> GoRoster {
    let model = |listed: &str, canonical: &str, endpoint: &str| GoModel {
        wire_model_id: listed.to_owned(),
        canonical: canonical.to_owned(),
        endpoint_key: endpoint.to_owned(),
    };
    GoRoster {
        models: vec![
            model("glm-5", "glm-5", "chat"),
            model("opencode-go/glm-5", "glm-5", "chat"),
            model("minimax-m3", "minimax-m3", "messages"),
            model("grok-4.6", "grok-4.6", "responses"),
        ],
    }
}

fn new_lake() -> ProviderLake {
    ProviderLake::new(
        snapshot(vec![
            row("deepseek", "deepseek-v4-flash"),
            default_row("deepseek", "deepseek-v4-pro"),
            row("moonshot", "kimi-k2.7-code"),
            row("openai", "gpt-5.5"),
            row("openrouter", "openrouter/auto"),
            default_row("together", DEFAULT_TOGETHER_MODEL),
            row("together", DEFAULT_TOGETHER_FLASH_MODEL),
        ]),
        Vec::new(),
        go_roster(),
    )
}

fn no_overlay() -> CloudOverlay {
    CloudOverlay { generation: 0, layer: None }
}

/// The compatibility names of a provider: some providers have none.
fn names(provider: ApiProvider) -> ModelNames {
    let completion = match provider {
        ApiProvider::Ollama | ApiProvider::Custom => Vec::new(),
        _ => vec![
            format!("{}-one", provider.as_str()),
            format!("{}-two", provider.as_str()),
        ],
    };
    let codex = if provider == ApiProvider::OpenaiCodex { completion.clone() } else { Vec::new() };
    ModelNames { codex, completion }
}

fn models(lake: &mut ProviderLake, provider: ApiProvider) -> Vec<String> {
    all_catalog_models_for_provider(lake, &no_overlay(), &names(provider), provider)
}

fn custom_models(lake: &mut ProviderLake, identity: &str) -> Vec<String> {
    all_catalog_models_for_provider_identity(
        lake,
        &no_overlay(),
        &names(ApiProvider::Custom),
        ApiProvider::Custom,
        Some(identity),
    )
}

fn merged(lake: &mut ProviderLake) -> CatalogSnapshot {
    merged_snapshot(lake, &no_overlay())
}

fn offering(
    lake: &mut ProviderLake,
    provider: ApiProvider,
    model: &str,
) -> Option<CatalogOffering> {
    catalog_offering_for_model(lake, &no_overlay(), provider, model)
}

fn custom_offering(lake: &mut ProviderLake, identity: &str, model: &str) -> Option<CatalogOffering> {
    catalog_offering_for_model_identity(
        lake,
        &no_overlay(),
        ApiProvider::Custom,
        Some(identity),
        model,
    )
}

#[test]
fn together_catalog_includes_flash_from_bundled_asset() {
    let mut lake = new_lake();
    let models = models(&mut lake, ApiProvider::Together);
    assert!(
        models.contains(&DEFAULT_TOGETHER_MODEL.to_string()),
        "missing Together pro: {models:?}"
    );
    assert!(
        models.contains(&DEFAULT_TOGETHER_FLASH_MODEL.to_string()),
        "missing Together flash: {models:?}"
    );
}

#[test]
fn configured_providers_matches_provider_predicate() {
    let qualifying = vec![ApiProvider::Together, ApiProvider::Deepseek, ApiProvider::Anthropic];
    let expected: Vec<_> = ApiProvider::sorted_for_display()
        .into_iter()
        .filter(|provider| qualifying.contains(provider))
        .collect();
    assert_eq!(configured_providers(&qualifying), expected);
    assert_eq!(
        expected,
        vec![ApiProvider::Anthropic, ApiProvider::Deepseek, ApiProvider::Together]
    );
    assert_eq!(configured_providers(&Vec::new()), Vec::new());
}

#[test]
fn catalog_facade_covers_every_provider_with_a_legacy_table() {
    let mut lake = new_lake();
    for &provider in ApiProvider::all() {
        let legacy_len = names(provider).completion.len();
        if legacy_len == 0 {
            continue;
        }
        assert!(
            !models(&mut lake, provider).is_empty(),
            "catalog facade returned no models for {provider:?} despite a \
             non-empty legacy table ({legacy_len} entries): the operator-route \
             consumer would have nothing to enumerate"
        );
    }
}

#[test]
fn codewhale_only_providers_keep_legacy_defaults() {
    let mut lake = new_lake();
    let openai_codex = models(&mut lake, ApiProvider::OpenaiCodex);
    assert!(
        !openai_codex.is_empty(),
        "openai-codex must keep a default model offline: {openai_codex:?}"
    );
    assert_eq!(
        openai_codex,
        names(ApiProvider::OpenaiCodex).completion,
        "openai-codex should come from the compatibility fallback table"
    );

    assert!(models(&mut lake, ApiProvider::Ollama).is_empty());
    assert!(names(ApiProvider::Ollama).completion.is_empty());
    assert!(live_per_provider_models(&lake, ApiProvider::Ollama).is_empty());
}

#[test]
fn ollama_live_default_uses_per_provider_tags_not_models_dev() {
    let mut lake = new_lake();
    set_live_snapshot(
        &mut lake,
        snapshot(vec![default_row("ollama", "deepseek-v4-flash")]),
        LiveSource::ModelsDev,
    );
    assert!(
        live_per_provider_models(&lake, ApiProvider::Ollama).is_empty(),
        "Models.dev must not satisfy a local Ollama default"
    );

    merge_live_offerings(&mut lake, vec![default_row("ollama", "qwen2.5:0.5b")]);
    assert_eq!(
        live_per_provider_models(&lake, ApiProvider::Ollama),
        vec!["qwen2.5:0.5b".to_string()]
    );
}

#[test]
fn unbundled_provider_falls_back_to_legacy_table() {
    let mut lake = new_lake();
    let merged = merged(&mut lake);
    let mut exercised = 0usize;
    for &provider in ApiProvider::all() {
        if provider == ApiProvider::OpenaiCodex {
            continue;
        }
        let catalog_id = catalog_provider_id(provider);
        let has_catalog_rows = !merged.offerings_for_provider(catalog_id).is_empty();
        let legacy = names(provider).completion;
        if has_catalog_rows || legacy.is_empty() {
            continue;
        }
        let facade = models(&mut lake, provider);
        assert_eq!(
            facade, legacy,
            "unbundled provider {provider:?} did not fall back to the legacy table"
        );
        exercised += 1;
    }
    assert!(
        exercised > 0,
        "expected at least one unbundled provider to exercise the legacy fallback path"
    );
}

#[test]
fn live_snapshot_merges_over_bundled() {
    let mut lake = new_lake();
    let bundled = models(&mut lake, ApiProvider::Deepseek);
    assert!(!bundled.is_empty());

    set_live_snapshot(
        &mut lake,
        snapshot(vec![row("deepseek", "deepseek-v4-synthetic")]),
        LiveSource::ModelsDev,
    );
    let merged = models(&mut lake, ApiProvider::Deepseek);
    assert!(merged.contains(&"deepseek-v4-synthetic".to_string()));
    assert!(merged.iter().any(|m| bundled.contains(m)));

    clear_live_snapshot(&mut lake);
    let after_clear = models(&mut lake, ApiProvider::Deepseek);
    assert_eq!(after_clear, bundled);
}

#[test]
fn provider_owned_roster_replaces_bundled_and_models_dev_rows() {
    let mut lake = new_lake();
    let bundled = models(&mut lake, ApiProvider::Openrouter);
    assert!(
        !bundled.is_empty(),
        "OpenRouter must have an offline fallback roster"
    );

    set_live_snapshot(
        &mut lake,
        snapshot(vec![row("openrouter", "models-dev-only-openrouter-model")]),
        LiveSource::ModelsDev,
    );
    set_live_snapshot(
        &mut lake,
        snapshot(vec![row("openrouter", "provider-owned-openrouter-model")]),
        LiveSource::PerProvider,
    );

    assert_eq!(
        models(&mut lake, ApiProvider::Openrouter),
        vec!["provider-owned-openrouter-model".to_string()],
        "a successful provider-owned refresh must remove stale bundled and Models.dev ids"
    );

    replace_provider_live_snapshot(&mut lake, "openrouter", CatalogSnapshot::default());
    let restored_cross_provider = models(&mut lake, ApiProvider::Openrouter);
    assert!(
        restored_cross_provider.contains(&"models-dev-only-openrouter-model".to_string()),
        "clearing the exact partition must restore the cross-provider fallback"
    );
    assert!(
        restored_cross_provider
            .iter()
            .any(|model| bundled.contains(model)),
        "clearing the exact partition must restore bundled fallbacks"
    );

    clear_live_snapshot(&mut lake);
    assert_eq!(models(&mut lake, ApiProvider::Openrouter), bundled);
}

#[test]
fn named_custom_catalogs_keep_exact_identity_without_compiled_seeds() {
    let mut lake = new_lake();
    for identity in ["baseten", "another-custom-host"] {
        assert!(
            custom_models(&mut lake, identity).is_empty(),
            "{identity} must not invent models offline"
        );
    }

    set_live_snapshot(
        &mut lake,
        snapshot(vec![live_row(
            "baseten",
            "synthetic-live-baseten-model",
            "baseten-fp",
            42,
        )]),
        LiveSource::PerProvider,
    );

    assert_eq!(
        custom_models(&mut lake, "baseten"),
        vec!["synthetic-live-baseten-model".to_string()]
    );
    assert!(
        custom_models(&mut lake, "BASETEN").is_empty(),
        "a case variant shares neither seeds nor another exact table's live roster"
    );
    assert!(custom_offering(&mut lake, "baseten", "synthetic-live-baseten-model").is_some());
    assert!(
        offering(&mut lake, ApiProvider::Custom, "synthetic-live-baseten-model").is_none(),
        "the generic custom bucket must not see Baseten rows"
    );
}

#[test]
fn case_colliding_and_builtin_named_custom_catalogs_stay_isolated() {
    let mut lake = new_lake();
    for (provider, model) in [("CustomA", "upper-model"), ("customa", "lower-model")] {
        replace_provider_live_snapshot(&mut lake, provider, snapshot(vec![row(provider, model)]));
    }

    assert_eq!(custom_models(&mut lake, "CustomA"), vec!["upper-model".to_string()]);
    assert_eq!(custom_models(&mut lake, "customa"), vec!["lower-model".to_string()]);
    let built_in_openai = models(&mut lake, ApiProvider::Openai);
    assert!(!built_in_openai.is_empty());
    assert!(
        custom_models(&mut lake, "openai").is_empty(),
        "a custom table named openai must not borrow the first-class OpenAI template"
    );
    for model in &built_in_openai {
        assert!(
            custom_offering(&mut lake, "openai", model).is_none(),
            "an exact custom table named openai must not inherit built-in model {model}"
        );
    }

    let custom_model = "custom-openai-only-model";
    replace_provider_live_snapshot_for_identity(
        &mut lake,
        ApiProvider::Custom,
        "openai",
        snapshot(vec![row("openai", custom_model)]),
    );
    assert_eq!(
        custom_models(&mut lake, "openai"),
        vec![custom_model.to_string()],
        "the exact custom table must retrieve its own built-in-looking roster"
    );
    assert_eq!(
        models(&mut lake, ApiProvider::Openai),
        built_in_openai,
        "publishing custom openai must not replace or suppress built-in OpenAI"
    );
    assert!(
        offering(&mut lake, ApiProvider::Openai, custom_model).is_none(),
        "the built-in OpenAI route must not see the custom table's row"
    );

    let built_in_live_model = "built-in-openai-only-model";
    replace_provider_live_snapshot_for_identity(
        &mut lake,
        ApiProvider::Openai,
        "openai",
        snapshot(vec![row("openai", built_in_live_model)]),
    );
    assert_eq!(
        models(&mut lake, ApiProvider::Openai),
        vec![built_in_live_model.to_string()]
    );
    assert_eq!(
        custom_models(&mut lake, "openai"),
        vec![custom_model.to_string()],
        "publishing built-in OpenAI must not replace the custom table's roster"
    );
}

#[test]
fn live_catalog_origin_prefers_per_provider_over_models_dev() {
    let mut lake = new_lake();
    let wire = "accounts/fireworks/models/deepseek-v4-flash-0731";
    assert_eq!(live_catalog_origin(&lake, ApiProvider::Fireworks, wire), None);

    set_live_snapshot(
        &mut lake,
        snapshot(vec![row("fireworks", wire)]),
        LiveSource::ModelsDev,
    );
    assert_eq!(
        live_catalog_origin(&lake, ApiProvider::Fireworks, wire),
        Some(LiveSource::ModelsDev)
    );

    set_live_snapshot(
        &mut lake,
        snapshot(vec![row("fireworks", wire)]),
        LiveSource::PerProvider,
    );
    assert_eq!(
        live_catalog_origin(&lake, ApiProvider::Fireworks, wire),
        Some(LiveSource::PerProvider)
    );
}

#[test]
fn merged_snapshot_cache_invalidates_on_live_snapshot_change() {
    let mut lake = new_lake();
    assert!(!lake.merge_is_memoized(0));
    let bundled_only = merged(&mut lake);
    assert!(
        lake.merge_is_memoized(0),
        "repeated merged_snapshot() calls must return the cached merge"
    );
    assert!(!lake.merge_is_memoized(1), "another cloud generation is another merge");
    let probe = "deepseek-cache-probe-model";
    assert!(
        !bundled_only.offerings.iter().any(|row| row.wire_model_id == probe),
        "probe model must not pre-exist in the bundled snapshot"
    );

    let before = lake.live_generation();
    set_live_snapshot(&mut lake, snapshot(vec![row("deepseek", probe)]), LiveSource::ModelsDev);
    assert!(
        !lake.merge_is_memoized(0),
        "set_live_snapshot must invalidate the memoized merge"
    );
    assert_eq!(lake.live_generation(), before + 1);
    let with_live = merged(&mut lake);
    assert!(
        with_live.offerings.iter().any(|row| row.wire_model_id == probe),
        "new live content must be visible after set_live_snapshot"
    );

    clear_live_snapshot(&mut lake);
    let after_clear = merged(&mut lake);
    assert!(
        !after_clear.offerings.iter().any(|row| row.wire_model_id == probe),
        "clear_live_snapshot must invalidate the memoized merge"
    );
    assert!(
        same_rows(&after_clear.offerings, &bundled_only.offerings),
        "clearing live must restore the bundled-only merge content"
    );
}

#[test]
fn opencode_zen_lake_repairs_defaulted_chat_key_for_new_muse_spark_ids() {
    let mut lake = new_lake();
    set_live_snapshot(
        &mut lake,
        snapshot(vec![row("opencode-zen", "muse-spark-1.3-contributor-free")]),
        LiveSource::ModelsDev,
    );
    let endpoint = RouteEndpoint {
        fingerprint: "opencode-zen-fp".to_owned(),
        in_signed_scope: true,
        keeps_custom_model: false,
    };
    let catalog = runtime_catalog_resolver_for_identity(
        &mut lake,
        &no_overlay(),
        ApiProvider::OpencodeZen,
        Some("opencode-zen"),
        &endpoint,
        &CatalogStatus::Unknown,
    );
    let route = catalog
        .offerings
        .iter()
        .find(|route| {
            route.provider == "opencode-zen"
                && route.wire_model_id == "muse-spark-1.3-contributor-free"
        })
        .expect("new muse-spark id resolves");
    assert_eq!(
        route.endpoint_key, "responses",
        "a defaulted live chat row must not send a Responses-only model to Chat"
    );
}

#[test]
fn opencode_go_lake_corrects_stale_protocols_in_saved_and_live_rows() {
    let mut lake = new_lake();
    let mut offerings = vec![
        row("opencode_go", "opencode-go/glm-5"),
        row("opencode_go", "minimax-m3"),
        row("opencode_go", "grok-4.6"),
    ];
    offerings.push(CatalogOffering {
        endpoint_key: "messages".to_owned(),
        ..row("opencode-go", "minimax-m3")
    });
    offerings.push(CatalogOffering {
        endpoint_key: "messages".to_owned(),
        ..row("opencode-go", "qwen3.7-max")
    });
    set_live_snapshot(&mut lake, snapshot(offerings), LiveSource::ModelsDev);

    let mut listed = models(&mut lake, ApiProvider::OpencodeGo);
    listed.sort();
    assert_eq!(listed, vec!["glm-5", "grok-4.6", "minimax-m3"]);
    for (model, endpoint) in [("minimax-m3", "messages"), ("grok-4.6", "responses")] {
        let found = offering(&mut lake, ApiProvider::OpencodeGo, model)
            .expect("documented model survives refresh");
        assert_eq!(found.endpoint_key, endpoint);
    }
    assert!(offering(&mut lake, ApiProvider::OpencodeGo, "glm-5").is_some());
}

#[test]
fn live_over_bundled_over_legacy_precedence_and_alias_dedupe() {
    let mut lake = new_lake();
    let bundled_moonshot = models(&mut lake, ApiProvider::Moonshot);
    assert!(
        !bundled_moonshot.is_empty(),
        "offline bundled Moonshot seed required: {bundled_moonshot:?}"
    );

    set_live_snapshot(
        &mut lake,
        snapshot(vec![
            default_row("moonshot", "kimi-k2.5-live"),
            CatalogOffering {
                family: Some("live-override".to_string()),
                ..row("moonshot", &bundled_moonshot[0])
            },
        ]),
        LiveSource::ModelsDev,
    );

    let merged = merged(&mut lake);
    let moonshot_rows = merged.offerings_for_provider("moonshot");
    assert!(
        moonshot_rows.iter().any(|r| r.wire_model_id == "kimi-k2.5-live"),
        "live-only Moonshot row missing: {moonshot_rows:?}"
    );
    let overridden = moonshot_rows
        .iter()
        .find(|r| r.wire_model_id == bundled_moonshot[0])
        .expect("bundled Moonshot id should still exist after live merge");
    assert_eq!(
        overridden.family.as_deref(),
        Some("live-override"),
        "live row must replace bundled facts on the same wire id"
    );
    assert!(
        merged.offerings_for_provider("moonshotai").is_empty(),
        "alias-normalized providers must not leave a duplicate moonshotai bucket"
    );

    let listed = models(&mut lake, ApiProvider::Moonshot);
    let mut seen = std::collections::BTreeSet::new();
    for model in &listed {
        assert!(
            seen.insert(model.to_ascii_lowercase()),
            "duplicate Moonshot model row after alias merge: {model}"
        );
    }
    assert!(listed.contains(&"kimi-k2.5-live".to_string()));
    assert!(
        !names(ApiProvider::Moonshot).completion.is_empty(),
        "legacy Moonshot table should still exist as fallback documentation"
    );

    clear_live_snapshot(&mut lake);
    assert_eq!(
        models(&mut lake, ApiProvider::Moonshot),
        bundled_moonshot,
        "clearing live must restore offline bundled Moonshot rows"
    );
}

#[test]
fn alias_normalized_live_rows_do_not_duplicate_in_lake() {
    let mut lake = new_lake();
    let live_rows = vec![
        row("moonshot", "kimi-k2.5"),
        CatalogOffering {
            limit: Some(ModelLimit { context: Some(262_144), output: Some(8_192) }),
            ..row("moonshot", "kimi-k2.5")
        },
        row("moonshot", "kimi-k2.7-code"),
    ];
    set_live_snapshot(&mut lake, snapshot(live_rows), LiveSource::ModelsDev);

    let listed = models(&mut lake, ApiProvider::Moonshot);
    let kimi_count = listed.iter().filter(|m| m.as_str() == "kimi-k2.5").count();
    assert_eq!(
        kimi_count, 1,
        "alias-normalized providers must not duplicate kimi-k2.5: {listed:?}"
    );
    assert!(merged(&mut lake).offerings_for_provider("moonshotai").is_empty());
}

#[test]
fn provider_live_snapshots_are_scoped_per_provider() {
    let mut lake = new_lake();
    set_live_snapshot(
        &mut lake,
        snapshot(vec![row("telecomjs", "deepseek-v4-pro")]),
        LiveSource::PerProvider,
    );
    let telecom_only = merged(&mut lake);
    assert_eq!(telecom_only.offerings_for_provider("telecomjs").len(), 1);

    set_live_snapshot(
        &mut lake,
        snapshot(vec![row("another-gateway", "another-model")]),
        LiveSource::PerProvider,
    );
    assert!(
        !lake.merge_is_memoized(0),
        "publishing a second provider must invalidate the cached merge"
    );

    let merged = merged(&mut lake);
    assert_eq!(merged.offerings_for_provider("telecomjs").len(), 1);
    assert_eq!(merged.offerings_for_provider("another-gateway").len(), 1);
}

fn lists(snapshot: &CatalogSnapshot, provider: &str, model: &str) -> bool {
    snapshot
        .offerings_for_provider(provider)
        .iter()
        .any(|row| row.wire_model_id == model)
}

#[test]
fn models_dev_first_then_telecomjs_both_preserved() {
    let mut lake = new_lake();
    set_live_snapshot(
        &mut lake,
        snapshot(vec![
            live_row("deepseek", "deepseek-chat", "modelsdev-fp", 1000),
            live_row("zai", "glm-4", "modelsdev-fp", 1000),
        ]),
        LiveSource::ModelsDev,
    );
    assert!(merged(&mut lake).offerings_for_provider("telecomjs").is_empty());

    merge_live_offerings(
        &mut lake,
        vec![
            live_row("telecomjs", "deepseek-chat", "telecomjs-fp", 2000),
            live_row("telecomjs", "glm-4", "telecomjs-fp", 2000),
        ],
    );
    let merged = merged(&mut lake);
    assert_eq!(
        merged.offerings_for_provider("telecomjs").len(),
        2,
        "provider refresh should invalidate the cached Models.dev-only view"
    );
    assert!(lists(&merged, "deepseek", "deepseek-chat"), "Models.dev deepseek row missing");
    assert!(lists(&merged, "zai", "glm-4"), "Models.dev zai row missing");
    assert!(lists(&merged, "telecomjs", "deepseek-chat"), "TelecomJS deepseek-chat row missing");
    assert!(lists(&merged, "telecomjs", "glm-4"), "TelecomJS glm-4 row missing");
}

#[test]
fn telecomjs_first_then_models_dev_both_preserved() {
    let mut lake = new_lake();
    merge_live_offerings(
        &mut lake,
        vec![
            live_row("telecomjs", "deepseek-chat", "telecomjs-fp", 2000),
            live_row("telecomjs", "glm-4", "telecomjs-fp", 2000),
        ],
    );
    assert_eq!(
        merged(&mut lake).offerings_for_provider("telecomjs").len(),
        2,
        "provider rows should be visible before Models.dev completes"
    );

    set_live_snapshot(
        &mut lake,
        snapshot(vec![live_row("deepseek", "deepseek-chat", "modelsdev-fp", 3000)]),
        LiveSource::ModelsDev,
    );
    let merged = merged(&mut lake);
    assert_eq!(
        merged.offerings_for_provider("telecomjs").len(),
        2,
        "TelecomJS rows were erased by Models.dev refresh"
    );
    assert!(lists(&merged, "telecomjs", "deepseek-chat"), "TelecomJS deepseek-chat row erased");
    assert!(lists(&merged, "telecomjs", "glm-4"), "TelecomJS glm-4 row erased");
    assert!(lists(&merged, "deepseek", "deepseek-chat"), "Models.dev deepseek row missing");
}

#[test]
fn catalog_refresh_never_deletes_previously_published_rows() {
    let mut lake = new_lake();
    set_live_snapshot(
        &mut lake,
        snapshot(vec![
            live_row("deepseek", "deepseek-chat", "modelsdev-fp", 1000),
            live_row("zai", "glm-4", "modelsdev-fp", 1000),
        ]),
        LiveSource::ModelsDev,
    );
    merge_live_offerings(
        &mut lake,
        vec![live_row("telecomjs", "deepseek-chat", "telecomjs-fp", 2000)],
    );
    let before_refresh = merged(&mut lake);
    assert!(
        lists(&before_refresh, "deepseek", "deepseek-chat"),
        "deepseek row should exist before refresh"
    );
    assert!(
        lists(&before_refresh, "telecomjs", "deepseek-chat"),
        "telecomjs row should exist before refresh"
    );

    set_live_snapshot(
        &mut lake,
        snapshot(vec![
            live_row("deepseek", "deepseek-chat", "modelsdev-fp", 3000),
            live_row("zai", "glm-4", "modelsdev-fp", 3000),
            live_row("moonshot", "kimi-k2.5", "modelsdev-fp", 3000),
        ]),
        LiveSource::ModelsDev,
    );
    let after_refresh = merged(&mut lake);
    assert!(
        lists(&after_refresh, "telecomjs", "deepseek-chat"),
        "TelecomJS row was deleted by Models.dev refresh!"
    );
    assert!(
        lists(&after_refresh, "moonshot", "kimi-k2.5"),
        "New Models.dev moonshot row missing"
    );

    merge_live_offerings(&mut lake, vec![live_row("telecomjs", "glm-4", "telecomjs-fp", 4000)]);
    let final_merged = merged(&mut lake);
    assert!(
        lists(&final_merged, "deepseek", "deepseek-chat"),
        "Models.dev deepseek row was deleted by per-provider merge!"
    );
    assert!(
        lists(&final_merged, "moonshot", "kimi-k2.5"),
        "Models.dev moonshot row was deleted by per-provider merge!"
    );
    assert!(lists(&final_merged, "telecomjs", "deepseek-chat"));
    assert!(lists(&final_merged, "telecomjs", "glm-4"));
}

#[test]
fn the_order_of_refreshes_does_not_matter() {
    let models_dev = || snapshot(vec![row("deepseek", "a"), row("zai", "b")]);
    let roster = || snapshot(vec![row("deepseek", "c"), row("telecomjs", "d")]);
    let mut one = new_lake();
    set_live_snapshot(&mut one, models_dev(), LiveSource::ModelsDev);
    set_live_snapshot(&mut one, roster(), LiveSource::PerProvider);
    let mut other = new_lake();
    set_live_snapshot(&mut other, roster(), LiveSource::PerProvider);
    set_live_snapshot(&mut other, models_dev(), LiveSource::ModelsDev);
    assert!(same_rows(&merged(&mut one).offerings, &merged(&mut other).offerings));

    let mut one = new_lake();
    replace_provider_live_snapshot(&mut one, "zai", snapshot(vec![row("zai", "x")]));
    replace_provider_live_snapshot(&mut one, "openai", snapshot(vec![row("openai", "y")]));
    let mut other = new_lake();
    replace_provider_live_snapshot(&mut other, "openai", snapshot(vec![row("openai", "y")]));
    replace_provider_live_snapshot(&mut other, "zai", snapshot(vec![row("zai", "x")]));
    assert!(same_rows(&merged(&mut one).offerings, &merged(&mut other).offerings));
}

#[test]
fn merged_rows_come_in_key_order_without_repeats() {
    let mut lake = new_lake();
    merge_live_offerings(
        &mut lake,
        vec![row("zai", "glm-5"), row("zai", "glm-4"), default_row("zai", "glm-5")],
    );
    let merged = merged(&mut lake);
    let keys: Vec<(String, String)> = merged
        .offerings
        .iter()
        .map(|row| (row.provider.clone(), row.wire_model_id.clone()))
        .collect();
    let mut sorted = keys.clone();
    sorted.sort();
    sorted.dedup();
    assert_eq!(keys, sorted);
    let glm = merged
        .offerings
        .iter()
        .find(|row| row.wire_model_id == "glm-5")
        .expect("the merged row");
    assert!(glm.default_for_provider, "the later row wins");
}

#[test]
fn a_default_model_is_listed_first() {
    let mut lake = new_lake();
    assert_eq!(
        models(&mut lake, ApiProvider::Deepseek),
        vec!["deepseek-v4-pro", "deepseek-v4-flash"]
    );
    let overlay = no_overlay();
    let count = catalog_model_count_for_provider(
        &mut lake,
        &overlay,
        &names(ApiProvider::Deepseek),
        ApiProvider::Deepseek,
    );
    assert_eq!(count, 2);
}

#[test]
fn a_bundled_row_is_found_below_a_live_one() {
    let mut lake = new_lake();
    set_live_snapshot(
        &mut lake,
        snapshot(vec![CatalogOffering {
            family: Some("live".to_owned()),
            ..row("deepseek", "deepseek-v4-pro")
        }]),
        LiveSource::ModelsDev,
    );
    let live = offering(&mut lake, ApiProvider::Deepseek, "DeepSeek-V4-Pro").expect("live row");
    assert_eq!(live.family.as_deref(), Some("live"));
    let bundled = bundled_catalog_offering_for_model(&lake, ApiProvider::Deepseek, "deepseek-v4-pro")
        .expect("bundled row");
    assert_eq!(bundled.family, None);
    assert!(bundled_catalog_offering_for_model(&lake, ApiProvider::Deepseek, "absent").is_none());
}

#[test]
fn custom_rows_are_those_of_the_exact_table() {
    let mut lake = new_lake();
    replace_provider_live_snapshot_for_identity(
        &mut lake,
        ApiProvider::Custom,
        " host ",
        snapshot(vec![row(" host ", "m"), row("another", "n")]),
    );
    let rows = exact_custom_offerings(&lake, "host");
    assert_eq!(rows.len(), 1);
    assert_eq!(rows[0].provider, "host", "a partition's rows carry its identity");
    assert!(exact_custom_offerings(&lake, "Host").is_empty());
    assert!(exact_custom_offerings(&lake, "  ").is_empty());
}

#[test]
fn partition_names_match_without_surrounding_space() {
    let rows = snapshot(vec![row(" zai ", "a"), row("zai", "b"), row("ZAI", "c")]);
    let found = offerings_for_provider_identity(&rows, "zai");
    let ids: Vec<&str> = found.iter().map(|row| row.wire_model_id.as_str()).collect();
    assert_eq!(ids, vec!["a", "b"]);
}

#[test]
fn an_owner_is_told_by_its_route_or_its_name() {
    assert!(matches!(
        live_partition_owner_for_route(ApiProvider::Custom, Some(" openai ")),
        LivePartitionOwner::Custom(identity) if identity == "openai"
    ));
    assert!(matches!(
        live_partition_owner_for_route(ApiProvider::Openai, Some("anything")),
        LivePartitionOwner::BuiltIn(identity) if identity == "openai"
    ));
    assert!(matches!(
        inferred_live_partition_owner("openai"),
        LivePartitionOwner::BuiltIn(identity) if identity == "openai"
    ));
    let custom = inferred_live_partition_owner("baseten");
    assert!(matches!(&custom, LivePartitionOwner::Custom(_)));
    assert_eq!(custom.identity(), "baseten");
}

#[test]
fn rows_that_go_does_not_serve_are_cut() {
    let kept = apply_provider_model_cutlines(
        snapshot(vec![
            row("opencode-go", "opencode-go/glm-5"),
            row("opencode-go", "unknown"),
            row("zai", "unknown"),
        ]),
        &go_roster(),
    );
    let ids: Vec<&str> = kept.offerings.iter().map(|row| row.wire_model_id.as_str()).collect();
    assert_eq!(ids, vec!["glm-5", "unknown"]);
    assert_eq!(kept.offerings[1].provider, "zai");
}

#[test]
fn an_empty_roster_hides_nothing() {
    let mut lake = new_lake();
    let before = merged(&mut lake);
    set_live_snapshot(&mut lake, CatalogSnapshot::default(), LiveSource::PerProvider);
    merge_live_offerings(&mut lake, Vec::new());
    assert!(same_rows(&merged(&mut lake).offerings, &before.offerings));
}

#[test]
fn only_a_lookup_in_the_merged_view_memoizes_it() {
    let mut lake = new_lake();
    assert!(offering(&mut lake, ApiProvider::OpenaiCodex, "gpt-5.5").is_none());
    assert!(offering(&mut lake, ApiProvider::Openai, "  ").is_none());
    assert!(custom_offering(&mut lake, "host", "m").is_none());
    assert!(!lake.merge_is_memoized(0));
    assert!(offering(&mut lake, ApiProvider::Openai, "gpt-5.5").is_some());
    assert!(lake.merge_is_memoized(0));
}
