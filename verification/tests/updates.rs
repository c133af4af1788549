//! Catalog updates: scope, steps, receipts and what is shown of them.

use codewhale_providers::api_provider::ApiProvider;
use codewhale_providers::identities::{
    catalog_identities, same_identity, ConfiguredIdentity, CustomTable, ProviderIdentity,
    ResolvedIdentity,
};
use codewhale_providers::lake::{ModelNames, ProviderLake};
use codewhale_providers::listing::{
    listing_header, listing_report, listing_source_line, model_line, models_to_list,
    ListingMessages,
};
use codewhale_providers::live::GoRoster;
use codewhale_providers::model_list::valid_catalog_model_id;
use codewhale_providers::offering::{
    CatalogOffering, CatalogSnapshot, CatalogSource, CatalogStatus,
};
use codewhale_providers::receipts::{
    cached_receipt, codex_roster_receipt, has_codex_receipt, models_dev_receipt, receipt_line,
    summarize, summary_line, time_text, update_covers_models_dev, update_is_incomplete,
    update_receipts, update_report, CacheRead, CacheReading, CatalogUpdateReceipt, CodexModelRoster, ModelsDevRefreshError, ReceiptOutcome, ShownReceipt,
};
use codewhale_providers::refresh::{
    codex_override_variables, codex_route_matches_cli_account, CatalogUpdate, Recorded,
    UpdateAction, UpdateFacts,
};
use codewhale_providers::route_catalog::{catalog_models_for_route, CachedRoster};
use codewhale_providers::runtime::RouteEndpoint;

fn identity(provider: ApiProvider, key: &str) -> ProviderIdentity {
    ProviderIdentity { provider, key: key.to_owned() }
}

fn custom(key: &str) -> ProviderIdentity {
    identity(ApiProvider::Custom, key)
}

fn listed(provider: &str, model: &str, fingerprint: &str, fetched_at: u64) -> CatalogOffering {
    CatalogOffering {
        provider: provider.to_owned(),
        wire_model_id: model.to_owned(),
        endpoint_key: "chat".to_owned(),
        source: CatalogSource::Live {
            base_url_fingerprint: fingerprint.to_owned(),
            fetched_at,
        },
        ..Default::default()
    }
}

/// What a provider endpoint answers.
#[derive(Clone)]
enum Reply {
    Models(Vec<String>),
    Refused(&'static str),
    Elsewhere,
}

fn replies(models: &[&str]) -> Reply {
    Reply::Models(models.iter().map(|model| (*model).to_owned()).collect())
}

/// One cache and one endpoint per route, and a note of every request.
struct Host {
    routes: Vec<(String, String, Reply)>,
    cache: Vec<(String, u64, Vec<String>, Option<String>)>,
    readable: bool,
    writable: bool,
    client_ready: bool,
    clock: u64,
    requests: usize,
}

impl Host {
    fn new(routes: Vec<(&str, &str, Reply)>) -> Host {
        Host {
            routes: routes
                .into_iter()
                .map(|(key, fingerprint, reply)| (key.to_owned(), fingerprint.to_owned(), reply))
                .collect(),
            cache: Vec::new(),
            readable: true,
            writable: true,
            client_ready: true,
            clock: 0,
            requests: 0,
        }
    }

    fn reply(&mut self, key: &str, reply: Reply) {
        for route in &mut self.routes {
            if route.0 == key {
                route.2 = reply.clone();
            }
        }
    }

    fn route(&self, key: &str) -> (String, Reply) {
        let found = self.routes.iter().find(|route| route.0 == key).expect("a known route");
        (found.1.clone(), found.2.clone())
    }

    fn roster(&self, key: &str) -> Option<CachedRoster> {
        let (fingerprint, _) = self.route(key);
        let entry = self.cache.iter().find(|entry| entry.0 == key)?;
        Some(CachedRoster {
            fetched_at: entry.1,
            offerings: entry
                .2
                .iter()
                .map(|model| listed(key, model, &fingerprint, entry.1))
                .collect(),
        })
    }

    fn reading(&self, key: &str) -> CacheReading {
        if !self.readable {
            return CacheReading { read: CacheRead::Unreadable, status: CatalogStatus::Unknown };
        }
        let failure = self
            .cache
            .iter()
            .find(|entry| entry.0 == key)
            .and_then(|entry| entry.3.clone());
        match self.roster(key) {
            None => CacheReading { read: CacheRead::Absent, status: CatalogStatus::Unknown },
            Some(roster) => CacheReading {
                read: CacheRead::Listing(roster),
                status: match failure {
                    Some(reason) => CatalogStatus::Failed { reason },
                    None => CatalogStatus::Fresh,
                },
            },
        }
    }

    fn facts(&self, key: &str) -> UpdateFacts {
        UpdateFacts {
            identity: custom(key),
            fingerprint: self.route(key).0,
            codex_matches_cli: false,
            cli_key_given: false,
            is_active_identity: true,
            auth_mode: None,
        }
    }

    fn run(&mut self, facts: UpdateFacts) -> CatalogUpdateReceipt {
        let key = facts.identity.key.clone();
        let secrets = ["first-route-test-key", "second-route-test-key"];
        let mut fetched: Vec<String> = Vec::new();
        let mut failure: Option<String> = None;
        let mut update = CatalogUpdate::start(facts);
        loop {
            update = match update.action() {
                UpdateAction::ReadCache => update.on_cache(&self.reading(&key)),
                UpdateAction::BuildClient => update.on_client(self.client_ready),
                UpdateAction::FetchListing => {
                    self.requests += 1;
                    let (fingerprint, reply) = self.route(&key);
                    match reply {
                        Reply::Models(models)
                            if !models.is_empty()
                                && models.iter().all(|model| {
                                    valid_catalog_model_id(model)
                                        && !secrets.contains(&model.as_str())
                                }) =>
                        {
                            fetched = models;
                            update.on_fetched(Some(&fingerprint))
                        }
                        Reply::Models(_) => {
                            failure = Some("invalid_response".to_owned());
                            update.on_fetched(None)
                        }
                        Reply::Refused(reason) => {
                            failure = Some(reason.to_owned());
                            update.on_fetched(None)
                        }
                        Reply::Elsewhere => update.on_fetched(Some("another-endpoint")),
                    }
                }
                UpdateAction::RecordListing => {
                    if self.writable {
                        self.clock += 1;
                        self.cache.retain(|entry| entry.0 != key);
                        self.cache.push((key.clone(), self.clock, fetched.clone(), None));
                        update.on_recorded(Recorded::Fresh)
                    } else {
                        update.on_recorded(Recorded::NotWritten)
                    }
                }
                UpdateAction::RecordFailure => {
                    for entry in &mut self.cache {
                        if entry.0 == key {
                            entry.3 = failure.clone();
                        }
                    }
                    update.on_failure_recorded()
                }
                UpdateAction::ReadCacheAgain => update.on_cache_again(&self.reading(&key)),
                UpdateAction::Finished => return update.into_receipt(),
                action => panic!("unexpected step {action:?}"),
            };
        }
    }

    fn update(&mut self, key: &str) -> CatalogUpdateReceipt {
        let facts = self.facts(key);
        self.run(facts)
    }

    fn models(&self, key: &str, fingerprint: &str) -> Vec<String> {
        let lake = ProviderLake::new(
            CatalogSnapshot::default(),
            Vec::new(),
            GoRoster { models: Vec::new() },
        );
        let own = self.route(key).0;
        let cached = if own == fingerprint { self.roster(key) } else { None };
        catalog_models_for_route(
            &lake,
            ApiProvider::Custom,
            &RouteEndpoint {
                fingerprint: fingerprint.to_owned(),
                in_signed_scope: false,
                keeps_custom_model: true,
            },
            cached.as_ref(),
            None,
            &ModelNames { codex: Vec::new(), completion: Vec::new() },
        )
    }
}

#[test]
fn models_update_persists_exact_routes_and_keeps_prior_rows_after_failure() {
    let mut host = Host::new(vec![
        ("catalog-first", "first-fp", replies(&["new-first-model"])),
        ("catalog-second", "second-fp", replies(&["new-second-model"])),
    ]);
    assert_eq!(host.update("catalog-first").outcome.as_str(), "updated");
    assert_eq!(host.update("catalog-second").outcome.as_str(), "updated");
    assert_eq!(host.models("catalog-first", "first-fp"), ["new-first-model"]);
    assert_eq!(host.models("catalog-second", "second-fp"), ["new-second-model"]);
    assert!(host.models("catalog-first", "second-fp").is_empty());
    let prior =
        cached_receipt(&custom("catalog-first"), "first-fp", &host.reading("catalog-first"))
            .fetched_at;
    assert_eq!(prior, Some(1));
    host.reply("catalog-first", Reply::Refused("unauthorized"));
    let receipt = host.update("catalog-first");
    assert_eq!(receipt.outcome.as_str(), "failed");
    assert_eq!(receipt.fetched_at, prior);
    assert!(matches!(
        &receipt.status,
        CatalogStatus::Failed { reason } if reason == "unauthorized"
    ));
    assert_eq!(host.models("catalog-first", "first-fp"), ["new-first-model"]);
    assert!(!format!("{receipt:?}").contains("first-route-test-key"));
}

#[test]
fn models_update_removes_withdrawn_ids_and_rejects_secret_or_control_ids() {
    let mut host = Host::new(vec![("catalog-first", "fp", replies(&[]))]);
    for model in [
        "old-model",
        "new-model",
        "first-route-test-key",
        "bad\u{1b}[31m-model",
    ] {
        host.reply("catalog-first", replies(&[model]));
        let receipt = host.update("catalog-first");
        if model.starts_with("old-") || model.starts_with("new-") {
            assert_eq!(receipt.outcome.as_str(), "updated");
            assert_eq!(host.models("catalog-first", "fp"), [model]);
        } else {
            assert_eq!(receipt.outcome.as_str(), "failed");
            assert_eq!(host.models("catalog-first", "fp"), ["new-model"]);
        }
    }
    host.reply("catalog-first", replies(&[]));
    let receipt = host.update("catalog-first");
    assert_eq!(receipt.outcome.as_str(), "failed");
    assert_eq!(host.models("catalog-first", "fp"), ["new-model"]);
}

#[test]
fn codex_update_does_not_attribute_another_accounts_roster_to_overridden_credentials() {
    let unset = || vec![None; codex_override_variables().len()];
    assert!(codex_route_matches_cli_account(false, &unset(), true));
    let position = codex_override_variables()
        .iter()
        .position(|name| *name == "CODEX_ACCESS_TOKEN")
        .expect("the access token is an override");
    let mut overridden = unset();
    overridden[position] = Some("standalone-token".to_owned());
    assert!(!codex_route_matches_cli_account(false, &overridden, true));
    assert!(
        !codex_route_matches_cli_account(false, &unset(), false),
        "another credential file is another account"
    );
    assert!(!codex_route_matches_cli_account(true, &unset(), true));
    let mut blank = unset();
    blank[position] = Some("  ".to_owned());
    assert!(codex_route_matches_cli_account(false, &blank, true));
    assert_eq!(
        codex_override_variables(),
        [
            "OPENAI_CODEX_ACCESS_TOKEN",
            "CODEX_ACCESS_TOKEN",
            "OPENAI_CODEX_ACCOUNT_ID",
            "CODEX_ACCOUNT_ID",
        ]
    );
}

fn codex_identity() -> ProviderIdentity {
    identity(ApiProvider::OpenaiCodex, "openai-codex")
}

fn roster(source: &str, is_fresh: bool, persisted: bool) -> CodexModelRoster {
    CodexModelRoster {
        models: Vec::new(),
        is_fresh,
        fetched_at: None,
        observed_at: Some(1_700_000_000),
        source: source.to_owned(),
        observation_persisted: persisted,
    }
}

#[test]
fn codex_live_roster_receipt_discloses_skipped_persistence() {
    let receipt =
        codex_roster_receipt(&codex_identity(), &roster("codex_app_server", true, false));
    assert!(matches!(receipt.status, CatalogStatus::Fresh));
    assert_eq!(receipt.error.as_deref(), Some("codex_observation_not_persisted"));
    assert_eq!(receipt.fetched_at, None);
    assert!(receipt.observed_at.is_some());
}

#[test]
fn a_codex_roster_says_whether_it_is_fresh() {
    let persisted = codex_roster_receipt(&codex_identity(), &roster("codex_app_server", true, true));
    assert_eq!(persisted.error, None);
    assert_eq!(persisted.observed_at, Some(1_700_000_000));
    let stale = codex_roster_receipt(&codex_identity(), &roster("codex_cli_cache", false, false));
    assert_eq!(stale.error.as_deref(), Some("codex_cache_unavailable"));
    assert!(matches!(stale.status, CatalogStatus::Unknown));
    assert_eq!(stale.outcome.as_str(), "cached");
    let mut ancient = roster("codex_cli_cache", true, false);
    ancient.fetched_at = Some(-1);
    ancient.models = vec!["m".to_owned()];
    let receipt = codex_roster_receipt(&codex_identity(), &ancient);
    assert_eq!(receipt.fetched_at, None, "a time before the epoch is not shown");
    assert_eq!(receipt.model_count, 1);
    assert_eq!(receipt.error, None);
}

#[test]
fn models_listing_is_offline_and_update_never_forwards_another_routes_cli_key() {
    let mut host = Host::new(vec![
        ("catalog-first", "first-fp", replies(&["m"])),
        ("catalog-second", "fp", replies(&["m"])),
    ]);
    let listed = models_to_list(host.models("catalog-first", "first-fp"), "saved-model");
    assert_eq!(listed, ["saved-model"]);
    assert_eq!(host.requests, 0);
    let mut facts = host.facts("catalog-second");
    facts.cli_key_given = true;
    facts.is_active_identity = false;
    let receipt = host.run(facts);
    assert_eq!(receipt.outcome.as_str(), "skipped");
    assert_eq!(receipt.error.as_deref(), Some("cli_key_is_scoped_to_active_provider"));
    assert_eq!(host.requests, 0);
    assert!(host.cache.is_empty());
}

#[test]
fn models_update_reports_io_failure_without_claiming_persistence() {
    let mut host = Host::new(vec![("catalog-first", "fp", replies(&["m"]))]);
    host.readable = false;
    let receipt = host.update("catalog-first");
    assert_eq!(receipt.outcome.as_str(), "failed");
    assert_eq!(receipt.error.as_deref(), Some("cache_read_failed"));
    assert!(host.cache.is_empty());
    assert_eq!(host.requests, 0);
}

#[test]
fn an_update_says_why_it_did_not_succeed() {
    let mut host = Host::new(vec![("catalog-first", "fp", replies(&["m"]))]);
    let mut retired = host.facts("catalog-first");
    retired.identity.provider = ApiProvider::Antigravity;
    assert_eq!(host.run(retired).error.as_deref(), Some("provider_retired"));

    let mut oauth = host.facts("catalog-first");
    oauth.auth_mode = Some("OAuth".to_owned());
    let receipt = host.run(oauth);
    assert_eq!(receipt.outcome, ReceiptOutcome::Skipped);
    assert_eq!(receipt.error.as_deref(), Some("oauth_catalog_unavailable"));

    host.client_ready = false;
    let receipt = host.update("catalog-first");
    assert_eq!(receipt.outcome, ReceiptOutcome::Skipped);
    assert_eq!(receipt.error.as_deref(), Some("credentials_or_route_unavailable"));
    assert_eq!(host.requests, 0);

    host.client_ready = true;
    host.reply("catalog-first", Reply::Elsewhere);
    let receipt = host.update("catalog-first");
    assert_eq!(receipt.outcome, ReceiptOutcome::Failed);
    assert_eq!(receipt.error.as_deref(), Some("catalog_endpoint_mismatch"));

    host.reply("catalog-first", replies(&["m"]));
    host.writable = false;
    let receipt = host.update("catalog-first");
    assert_eq!(receipt.outcome, ReceiptOutcome::Failed);
    assert_eq!(receipt.error.as_deref(), Some("cache_write_failed"));
    assert_eq!(receipt.model_count, 0);
}

#[test]
fn a_superseded_update_is_skipped() {
    let host = Host::new(vec![("catalog-first", "fp", replies(&["m"]))]);
    let update = CatalogUpdate::start(host.facts("catalog-first"));
    assert_eq!(update.action(), UpdateAction::ReadCache);
    let update = update.on_cache(&host.reading("catalog-first"));
    assert_eq!(update.action(), UpdateAction::BuildClient);
    let update = update.on_client(true);
    assert_eq!(update.action(), UpdateAction::FetchListing);
    let update = update.on_fetched(Some("fp"));
    assert_eq!(update.action(), UpdateAction::RecordListing);
    let update = update.on_recorded(Recorded::Superseded);
    assert_eq!(update.action(), UpdateAction::Finished);
    let receipt = update.into_receipt();
    assert_eq!(receipt.outcome, ReceiptOutcome::Skipped);
    assert_eq!(receipt.error.as_deref(), Some("refresh_superseded"));
    assert_eq!(receipt.base_url_fingerprint.as_deref(), Some("fp"));
}

#[test]
fn a_codex_update_loads_the_account_roster() {
    let facts = |matches: bool| UpdateFacts {
        identity: codex_identity(),
        fingerprint: "fp".to_owned(),
        codex_matches_cli: matches,
        cli_key_given: false,
        is_active_identity: true,
        auth_mode: None,
    };
    let update = CatalogUpdate::start(facts(false));
    assert_eq!(update.action(), UpdateAction::ReadCodexRoster);
    let receipt = update.on_codex_roster(&roster("codex_cli_cache", true, false)).into_receipt();
    assert_eq!(receipt.outcome, ReceiptOutcome::Skipped);
    assert_eq!(receipt.error.as_deref(), Some("codex_account_route_mismatch"));

    let update = CatalogUpdate::start(facts(true));
    assert_eq!(update.action(), UpdateAction::RunCodexCli);
    let receipt = update.on_codex_cli(Ok(roster("codex_app_server", true, true))).into_receipt();
    assert_eq!(receipt.outcome, ReceiptOutcome::Loaded);
    assert_eq!(receipt.error, None);
    assert_eq!(receipt.source, "codex_app_server");

    let update = CatalogUpdate::start(facts(true)).on_codex_cli(Err("codex_cli_missing".to_owned()));
    assert_eq!(update.action(), UpdateAction::ReadCodexRoster);
    let receipt = update.on_codex_roster(&roster("codex_cli_cache", true, false)).into_receipt();
    assert_eq!(receipt.outcome, ReceiptOutcome::Failed);
    assert_eq!(receipt.error.as_deref(), Some("codex_cli_missing"));
}

fn known(provider: ApiProvider, key: &str) -> ResolvedIdentity {
    ResolvedIdentity::Known(identity(provider, key))
}

fn table(key: &str, openai_compatible: bool) -> CustomTable {
    CustomTable { openai_compatible, identity: known(ApiProvider::Custom, key) }
}

#[test]
fn models_update_scope_includes_every_named_identity_once() {
    let active = known(ApiProvider::Custom, "catalog-first");
    let configured = vec![ConfiguredIdentity {
        provider: ApiProvider::Custom,
        identity: known(ApiProvider::Custom, "catalog-first"),
    }];
    let tables = vec![table("catalog-first", true), table("catalog-second", true)];
    let identities = catalog_identities(None, &active, true, &configured, &tables).unwrap();
    for name in ["catalog-first", "catalog-second"] {
        assert_eq!(
            identities.iter().filter(|identity| identity.key == name).count(),
            1
        );
    }
    let selected = known(ApiProvider::Custom, "catalog-second");
    assert_eq!(
        catalog_identities(Some(&selected), &active, true, &configured, &tables)
            .unwrap()
            .len(),
        1
    );
}

#[test]
fn an_update_scope_is_sorted_and_stops_at_the_first_unknown_name() {
    let active = known(ApiProvider::Zai, "zai");
    let configured = vec![
        ConfiguredIdentity {
            provider: ApiProvider::Deepseek,
            identity: known(ApiProvider::Deepseek, "deepseek"),
        },
        ConfiguredIdentity {
            provider: ApiProvider::Zai,
            identity: known(ApiProvider::Zai, "zai"),
        },
    ];
    let tables = vec![table("my-host", true), table("ignored", false)];
    let identities = catalog_identities(None, &active, true, &configured, &tables).unwrap();
    let keys: Vec<&str> = identities.iter().map(|identity| identity.key.as_str()).collect();
    assert_eq!(keys, vec!["deepseek", "my-host", "zai"]);

    let listing = catalog_identities(None, &active, false, &configured, &tables).unwrap();
    assert_eq!(listing.len(), 1);
    assert!(same_identity(&listing[0], &identity(ApiProvider::Zai, "zai")));

    let unknown = ResolvedIdentity::Unknown("no such provider".to_owned());
    let error = catalog_identities(Some(&unknown), &active, true, &configured, &tables);
    assert_eq!(error.err().as_deref(), Some("no such provider"));
    let error = catalog_identities(None, &unknown, true, &configured, &tables);
    assert_eq!(error.err().as_deref(), Some("no such provider"));
    let broken = vec![CustomTable { openai_compatible: true, identity: unknown }];
    let error = catalog_identities(None, &active, true, &configured, &broken);
    assert_eq!(error.err().as_deref(), Some("no such provider"));
    assert!(catalog_identities(None, &active, false, &configured, &broken).is_ok());
}

#[test]
fn a_cached_receipt_shows_what_is_cached() {
    let me = custom("host");
    let unread = CacheReading { read: CacheRead::Unreadable, status: CatalogStatus::Unknown };
    let receipt = cached_receipt(&me, "fp", &unread);
    assert_eq!(receipt.error.as_deref(), Some("cache_read_failed"));
    let absent = CacheReading { read: CacheRead::Absent, status: CatalogStatus::Unknown };
    let receipt = cached_receipt(&me, "fp", &absent);
    assert_eq!((receipt.fetched_at, receipt.model_count, receipt.error), (None, 0, None));
    let unfetched = CacheReading {
        read: CacheRead::Listing(CachedRoster {
            fetched_at: 0,
            offerings: vec![listed("host", "m", "fp", 0)],
        }),
        status: CatalogStatus::Stale,
    };
    let receipt = cached_receipt(&me, "fp", &unfetched);
    assert_eq!((receipt.fetched_at, receipt.model_count), (None, 1));
    assert_eq!(receipt.provider, "host");
    assert_eq!(receipt.source, "provider_models");
    assert_eq!(receipt.outcome.as_str(), "cached");
    assert_eq!(receipt.base_url_fingerprint.as_deref(), Some("fp"));
    assert_eq!(receipt.observed_at, None);
}

#[test]
fn a_models_dev_receipt_labels_each_failure() {
    for (error, label) in [
        (ModelsDevRefreshError::Disabled, "fetch_disabled"),
        (ModelsDevRefreshError::Network, "network"),
        (ModelsDevRefreshError::HttpStatus, "http_status"),
        (ModelsDevRefreshError::InvalidResponse, "invalid_response"),
        (ModelsDevRefreshError::EmptyCatalog, "empty_catalog"),
        (ModelsDevRefreshError::Io, "cache_io"),
    ] {
        let receipt = models_dev_receipt(Some(error), Some(9), 4);
        assert_eq!(receipt.error.as_deref(), Some(label));
        assert_eq!(receipt.outcome, ReceiptOutcome::Failed);
        assert!(matches!(receipt.status, CatalogStatus::Unknown));
        assert_eq!((receipt.fetched_at, receipt.model_count), (Some(9), 4));
    }
    let receipt = models_dev_receipt(None, None, 0);
    assert_eq!(receipt.provider, "models.dev");
    assert_eq!(receipt.outcome, ReceiptOutcome::Updated);
    assert!(matches!(receipt.status, CatalogStatus::Fresh));
    assert_eq!(receipt.error, None);
}

#[test]
fn an_update_report_counts_and_lists_every_receipt() {
    let updated = || models_dev_receipt(None, Some(17), 12);
    let failed = || models_dev_receipt(Some(ModelsDevRefreshError::Io), None, 0);
    let line = "models.dev\tupdated\tmodels=12\tfetched_at=17\tobserved_at=unknown\
                \tsource=models.dev\tstatus=\"fresh\"";
    let failed_line = "models.dev\tfailed\tmodels=0\tfetched_at=unknown\tobserved_at=unknown\
                       \tsource=models.dev\tstatus=\"unknown\"\terror=cache_io";
    assert_eq!(receipt_line(&updated(), "\"fresh\""), line);
    assert_eq!(receipt_line(&failed(), "\"unknown\""), failed_line);
    assert!(!has_codex_receipt(&vec![updated(), failed()]));

    let template = "{updated} updated, {loaded} loaded, {failed} failed, {skipped} skipped";
    let (lines, summary) = update_report(
        template,
        vec![
            ShownReceipt { receipt: updated(), status: "\"fresh\"".to_owned() },
            ShownReceipt { receipt: failed(), status: "\"unknown\"".to_owned() },
        ],
        "codex hint",
    );
    assert_eq!(
        lines,
        vec!["1 updated, 0 loaded, 1 failed, 0 skipped", line, failed_line]
    );
    assert_eq!(
        (summary.updated, summary.loaded, summary.failed, summary.skipped),
        (1, 0, 1, 0)
    );

    let codex = || codex_roster_receipt(&codex_identity(), &roster("codex_app_server", true, true));
    assert!(has_codex_receipt(&vec![codex()]));
    let (lines, _) = update_report(
        template,
        vec![ShownReceipt { receipt: codex(), status: "\"fresh\"".to_owned() }],
        "codex hint",
    );
    assert_eq!(lines.last().map(String::as_str), Some("codex hint"));
}

#[test]
fn a_summary_fills_every_placeholder() {
    let receipts = vec![
        models_dev_receipt(None, None, 0),
        models_dev_receipt(None, None, 0).into_outcome(ReceiptOutcome::Loaded),
        models_dev_receipt(None, None, 0).into_error(ReceiptOutcome::Skipped, "why"),
        models_dev_receipt(None, None, 0).into_outcome(ReceiptOutcome::Cached),
    ];
    let summary = summarize(&receipts);
    assert_eq!(
        summary_line("{skipped}{failed}{loaded}{updated}{updated}", &summary),
        "10111"
    );
    assert_eq!(receipts[2].error.as_deref(), Some("why"));
    assert_eq!(time_text(None), "unknown");
    assert_eq!(time_text(Some(0)), "0");
    assert_eq!(time_text(Some(u64::MAX)), "18446744073709551615");
}

#[test]
fn a_listing_shows_each_model_once_with_its_default_marked() {
    let models = vec!["b".to_owned(), "A".to_owned(), "b".to_owned()];
    assert_eq!(models_to_list(models, "c"), vec!["A", "b", "c"]);
    assert_eq!(models_to_list(vec!["B".to_owned()], "b"), vec!["B"]);
    assert_eq!(models_to_list(vec!["b".to_owned()], "AUTO"), vec!["b"]);
    assert_eq!(models_to_list(vec!["b".to_owned()], ""), vec!["b"]);

    assert_eq!(model_line("b", "b"), "* b");
    assert_eq!(model_line("c", "b"), "  c");
    assert_eq!(
        listing_header("{provider} uses {model}", "zai", "glm"),
        "zai uses glm"
    );
    let receipt = models_dev_receipt(None, Some(3), 0);
    assert_eq!(
        listing_source_line(&receipt, "\"fresh\""),
        "source=models.dev\tstatus=\"fresh\"\tfetched_at=3\tobserved_at=unknown"
    );
    let messages = ListingMessages {
        header: "{provider} uses {model}".to_owned(),
        fallback: "nothing cached".to_owned(),
        hint: "hint".to_owned(),
    };
    let listed = vec!["a".to_owned(), "b".to_owned()];
    assert_eq!(
        listing_report(&messages, "zai", "b", &receipt, "\"fresh\"", &listed),
        vec![
            "zai uses b",
            "source=models.dev\tstatus=\"fresh\"\tfetched_at=3\tobserved_at=unknown",
            "nothing cached",
            "  a",
            "* b",
            "hint",
        ]
    );
    let cached = models_dev_receipt(None, Some(3), 1);
    let report = listing_report(&messages, "zai", "b", &cached, "\"fresh\"", &listed);
    assert!(!report.contains(&"nothing cached".to_owned()));
}

#[test]
fn the_cross_provider_receipt_comes_first() {
    let provider = |key: &str| {
        let absent = CacheReading { read: CacheRead::Absent, status: CatalogStatus::Unknown };
        cached_receipt(&custom(key), "fp", &absent)
    };
    let names = |receipts: Vec<CatalogUpdateReceipt>| {
        receipts.into_iter().map(|receipt| receipt.provider).collect::<Vec<_>>()
    };
    assert!(update_covers_models_dev(None));
    assert!(!update_covers_models_dev(Some("b")));
    let models_dev = models_dev_receipt(None, None, 0);
    assert_eq!(
        names(update_receipts(Some(models_dev), vec![provider("b"), provider("a")])),
        vec!["models.dev", "b", "a"]
    );
    assert_eq!(names(update_receipts(None, vec![provider("b")])), vec!["b"]);
    assert!(names(update_receipts(None, Vec::new())).is_empty());
}

#[test]
fn an_update_with_a_failed_refresh_is_incomplete() {
    let fine = summarize(&vec![
        models_dev_receipt(None, None, 0),
        models_dev_receipt(None, None, 0).into_outcome(ReceiptOutcome::Skipped),
    ]);
    assert!(!update_is_incomplete(&fine));
    let broken = summarize(&vec![
        models_dev_receipt(None, None, 0),
        models_dev_receipt(Some(ModelsDevRefreshError::Network), None, 0),
    ]);
    assert!(update_is_incomplete(&broken));
}
