//! Credential precedence, one place at a time.

use codewhale_providers::api_provider::ApiProvider;
use codewhale_providers::credential_resolve::{
    has_api_key_for, resolve_credential_source_with, resolve_external_grant, CredentialAnswers,
    CredentialFacts, CredentialWalk, OAuthFlow, Question,
};
use codewhale_providers::credentials::{
    CredentialProbe, CredentialResolution, CredentialSource,
};
use codewhale_providers::provider::{provider_for_kind, Provider};

const OPENROUTER_ENV: &str = "OPENROUTER_API_KEY";

/// What an empty configuration says of a provider.
fn facts(provider: ApiProvider) -> CredentialFacts {
    let env_vars: Vec<String> = match provider.kind() {
        Some(kind) => provider_for_kind(kind)
            .env_vars()
            .iter()
            .map(|var| (*var).to_owned())
            .collect(),
        None => Vec::new(),
    };
    let env_vars_label = env_vars.join(" / ");
    CredentialFacts {
        provider,
        is_active: provider == ApiProvider::Deepseek,
        auth_mode_disables_key: false,
        auth_mode_requires_key: false,
        uses_oauth: provider == ApiProvider::OpenaiCodex,
        bound_env: None,
        skips_secret_store: false,
        env_vars,
        env_vars_label,
        custom_endpoint: false,
        consented_path: None,
        keyless_self_hosted: false,
        active_route_is_local: false,
        base_url: "https://api.example/v1".to_owned(),
        bound_to_endpoint: true,
        table_key_is_literal: false,
        config_table: Some(format!("providers.{}", provider.as_str())),
        secret_slot: provider.as_str().to_owned(),
        slot_is_marked: false,
        legacy_custom_route: false,
        root_key_is_literal: false,
    }
}

/// A world that holds nothing.
fn nothing() -> CredentialAnswers {
    CredentialAnswers {
        cli_override: false,
        bound_env: false,
        ambient_env: Vec::new(),
        chatgpt_login: false,
        xai_login: false,
        grant_allowed: false,
        grant_usable: false,
        secret_store: false,
        user_global_config: false,
    }
}

/// A world that holds a key everywhere.
fn everything(ambient: usize) -> CredentialAnswers {
    CredentialAnswers {
        cli_override: true,
        bound_env: true,
        ambient_env: vec![true; ambient],
        chatgpt_login: true,
        xai_login: true,
        grant_allowed: true,
        grant_usable: true,
        secret_store: true,
        user_global_config: true,
    }
}

/// Walk through a resolution and note every question on the way.
fn asked(facts: CredentialFacts, answers: &CredentialAnswers) -> (Vec<Question>, CredentialResolution) {
    let mut walk = CredentialWalk::start(facts);
    let mut questions = Vec::new();
    while let Some(question) = walk.question() {
        questions.push(question);
        walk.answer(answers.answer(question));
    }
    (questions, walk.into_resolution())
}

fn places(resolution: &CredentialResolution) -> Vec<&str> {
    resolution
        .probed
        .iter()
        .map(|probe| probe.place.as_str())
        .collect()
}

#[test]
fn a_named_env_binding_resolves_and_names_itself() {
    let mut given = facts(ApiProvider::Openrouter);
    given.is_active = true;
    given.bound_env = Some("CW_TEST_BOUND_KEY".to_owned());
    let mut world = nothing();
    world.bound_env = true;
    let resolution = resolve_credential_source_with(given, &world);
    assert!(
        matches!(
            &resolution.source,
            CredentialSource::ProviderConfigEnv { var } if var == "CW_TEST_BOUND_KEY"
        ),
        "a route that names its variable must resolve from it and say so"
    );
    assert_eq!(
        resolution.source.label().as_deref(),
        Some("api_key_env CW_TEST_BOUND_KEY")
    );
}

#[test]
fn ambient_env_names_the_variable_that_won() {
    let given = facts(ApiProvider::Openrouter);
    let mut world = nothing();
    world.ambient_env = given.env_vars.iter().map(|var| var == OPENROUTER_ENV).collect();
    let resolution = resolve_credential_source_with(given, &world);
    assert!(matches!(
        &resolution.source,
        CredentialSource::AmbientEnv { var } if var == "OPENROUTER_API_KEY"
    ));
    assert_eq!(resolution.source.label().as_deref(), Some("OPENROUTER_API_KEY"));
}

#[test]
fn a_missing_credential_names_every_place_that_was_checked() {
    let resolution = resolve_credential_source_with(facts(ApiProvider::Openrouter), &nothing());
    assert!(!resolution.is_present());

    let checked = resolution.checked_places();
    assert!(
        checked.contains("OPENROUTER_API_KEY"),
        "the ambient variable must be named: {checked}"
    );
    assert!(
        checked.contains("secret store \"openrouter\""),
        "the durable slot must be named: {checked}"
    );
    assert!(
        checked.contains("~/.codewhale/config.toml"),
        "the user-global config must be named: {checked}"
    );
    assert_eq!(
        resolution.first_fix(),
        Some("export OPENROUTER_API_KEY=<key>"),
        "the first probed place must carry the command that fixes it"
    );
}

#[test]
fn an_unread_secret_slot_says_it_was_not_read_and_why() {
    let resolution = resolve_credential_source_with(facts(ApiProvider::Openrouter), &nothing());

    let checked = resolution.checked_places();
    assert!(
        checked.contains("(not read: inactive provider, no api-key marker)"),
        "an unread slot must not look like an empty one: {checked}"
    );
}

#[test]
fn no_auth_routes_resolve_to_the_auth_mode_itself() {
    let mut given = facts(ApiProvider::Openrouter);
    given.auth_mode_disables_key = true;
    let resolution = resolve_credential_source_with(given, &nothing());
    assert!(matches!(resolution.source, CredentialSource::AuthModeNone));
    assert!(resolution.is_present());
    assert!(resolution.checked_places().is_empty());
}

#[test]
fn has_api_key_for_agrees_with_the_resolver_for_every_provider() {
    for provider in ApiProvider::all() {
        for world in [nothing(), everything(4)] {
            let resolution = resolve_credential_source_with(facts(*provider), &world);
            assert_eq!(
                has_api_key_for(facts(*provider), &world),
                resolution.is_present(),
                "{provider:?} disagreed: {:?}",
                resolution.source
            );
        }
    }
}

#[test]
fn unconsented_external_candidates_are_never_probed() {
    let mut given = facts(ApiProvider::OpenaiCodex);
    given.is_active = true;
    let mut world = nothing();
    world.grant_allowed = true;
    world.grant_usable = true;
    let (questions, resolution) = asked(given, &world);
    assert!(!resolution.is_present());
    let mut again = facts(ApiProvider::OpenaiCodex);
    again.is_active = true;
    assert!(!has_api_key_for(again, &world));
    let checked = resolution.checked_places();
    assert!(
        checked.contains("no read-only consent recorded"),
        "the probe explains the missing consent without an existence claim: {checked}"
    );
    assert!(
        !checked.contains("(absent)") && !checked.contains("present, not consented"),
        "no stat means no existence claim: {checked}"
    );
    assert!(
        !questions.contains(&Question::GrantAllowed) && !questions.contains(&Question::GrantUsable),
        "resolution must not touch external credential state"
    );
}

#[test]
fn consented_external_resolution_validates_the_exact_consented_file() {
    let consented = || {
        let mut given = facts(ApiProvider::OpenaiCodex);
        given.is_active = true;
        given.consented_path = Some("/tmp/absent-auth.json".to_owned());
        given
    };
    let mut world = nothing();
    world.grant_allowed = true;
    let (questions, resolution) = asked(consented(), &world);
    assert!(
        !resolution.is_present(),
        "a consent record whose file is gone must resolve as missing: {:?}",
        resolution.source
    );
    assert!(
        resolution
            .checked_places()
            .contains("consented, but no usable credential in that file"),
        "the probe names the consented-read outcome: {}",
        resolution.checked_places()
    );
    let reads = questions
        .iter()
        .filter(|question| **question == Question::GrantUsable)
        .count();
    assert_eq!(reads, 1, "one read attempt of the exact consented path");
    assert!(!has_api_key_for(consented(), &world));
}

#[test]
fn opencode_zen_without_any_credential_stays_missing() {
    let resolution = resolve_credential_source_with(facts(ApiProvider::OpencodeZen), &nothing());
    assert!(!resolution.is_present());
}

#[test]
fn opencode_zen_explicit_api_key_contract_stays_missing_without_a_key() {
    let mut given = facts(ApiProvider::OpencodeZen);
    given.auth_mode_requires_key = true;
    let resolution = resolve_credential_source_with(given, &nothing());
    assert!(!resolution.is_present());
}

#[test]
fn opencode_zen_custom_endpoint_stays_missing_without_a_key() {
    let mut given = facts(ApiProvider::OpencodeZen);
    given.custom_endpoint = true;
    given.base_url = "https://zen.example/v1".to_owned();
    let resolution = resolve_credential_source_with(given, &nothing());
    assert!(!resolution.is_present());
}

#[test]
fn each_place_wins_when_the_places_before_it_are_empty() {
    // 2: the command line, on the active provider outside OAuth only.
    let mut given = facts(ApiProvider::Openrouter);
    given.is_active = true;
    let found = resolve_credential_source_with(given, &everything(4));
    assert!(matches!(found.source, CredentialSource::CliOverride));

    let inactive = resolve_credential_source_with(facts(ApiProvider::Openrouter), &everything(4));
    assert!(matches!(inactive.source, CredentialSource::AmbientEnv { .. }));

    // 5: login state of the application's own.
    let mut world = everything(0);
    let codex = resolve_credential_source_with(facts(ApiProvider::OpenaiCodex), &world);
    assert!(matches!(&codex.source, CredentialSource::OAuth { flow } if flow == "ChatGPT"));
    let xai = resolve_credential_source_with(facts(ApiProvider::Xai), &world);
    assert!(matches!(&xai.source, CredentialSource::OAuth { flow } if flow == "xAI"));

    // 5: an external CLI file with consent.
    world.chatgpt_login = false;
    let mut given = facts(ApiProvider::OpenaiCodex);
    given.consented_path = Some("/home/a/.codex/auth.json".to_owned());
    let granted = resolve_credential_source_with(given, &world);
    assert!(matches!(
        &granted.source,
        CredentialSource::ExternalGrant { cli, path }
            if cli == "Codex CLI" && path == "/home/a/.codex/auth.json"
    ));

    // 6: a keyless route, unless the authentication mode insists on a key.
    let mut given = facts(ApiProvider::Ollama);
    given.keyless_self_hosted = true;
    given.base_url = "http://localhost:11434/v1".to_owned();
    let keyless = resolve_credential_source_with(given, &nothing());
    assert!(matches!(
        &keyless.source,
        CredentialSource::KeylessRoute { base_url } if base_url == "http://localhost:11434/v1"
    ));
    let mut given = facts(ApiProvider::Ollama);
    given.keyless_self_hosted = true;
    given.auth_mode_requires_key = true;
    assert!(!has_api_key_for(given, &nothing()));

    // 7: the provider table, by its own name or by the provider's.
    let mut given = facts(ApiProvider::Openrouter);
    given.table_key_is_literal = true;
    given.config_table = None;
    let table = resolve_credential_source_with(given, &nothing());
    assert!(matches!(
        &table.source,
        CredentialSource::ProviderConfigApiKey { table } if table == "providers.openrouter"
    ));

    // 8: the secret store of the active provider, or of a marked one.
    let mut world = nothing();
    world.secret_store = true;
    let mut given = facts(ApiProvider::Openrouter);
    given.slot_is_marked = true;
    let (questions, stored) = asked(given, &world);
    assert!(matches!(
        &stored.source,
        CredentialSource::SecretStore { slot } if slot == "openrouter"
    ));
    assert!(questions.contains(&Question::SecretStore { read_only: true }));
    let (questions, unread) = asked(facts(ApiProvider::Openrouter), &world);
    assert!(!unread.is_present());
    assert!(!questions
        .iter()
        .any(|question| matches!(question, Question::SecretStore { .. })));

    // 9: the root key slot, for the providers that it is for.
    let mut given = facts(ApiProvider::Deepseek);
    given.root_key_is_literal = true;
    let root = resolve_credential_source_with(given, &nothing());
    assert!(matches!(root.source, CredentialSource::RootConfigApiKey));
    let mut given = facts(ApiProvider::Openrouter);
    given.root_key_is_literal = true;
    assert!(!has_api_key_for(given, &nothing()));

    // 10: the user-global file.
    let mut world = nothing();
    world.user_global_config = true;
    let global = resolve_credential_source_with(facts(ApiProvider::Openrouter), &world);
    assert!(matches!(global.source, CredentialSource::UserGlobalConfig));
}

#[test]
fn a_missing_key_lists_the_places_in_order() {
    let mut given = facts(ApiProvider::Openrouter);
    given.is_active = true;
    given.bound_env = Some("MY_KEY".to_owned());
    let resolution = resolve_credential_source_with(given, &nothing());
    assert_eq!(
        places(&resolution),
        vec![
            "env MY_KEY (bound by api_key_env)",
            "env OPENROUTER_API_KEY",
            "[providers.openrouter] api_key",
            "secret store \"openrouter\"",
            "~/.codewhale/config.toml",
        ]
    );
    assert_eq!(
        resolution.checked_places(),
        "env MY_KEY (bound by api_key_env), env OPENROUTER_API_KEY, \
         [providers.openrouter] api_key, secret store \"openrouter\", ~/.codewhale/config.toml"
    );
    assert_eq!(resolution.first_fix(), Some("export MY_KEY=<key>"));
    assert_eq!(
        resolution.probed[2].fix,
        "add api_key to [providers.openrouter] in ~/.codewhale/config.toml"
    );
}

#[test]
fn kimi_cli_credentials_are_never_imported() {
    let mut given = facts(ApiProvider::Moonshot);
    given.uses_oauth = true;
    let mut world = everything(0);
    world.ambient_env = Vec::new();
    let resolution = resolve_credential_source_with(given, &world);
    assert!(!resolution.is_present());
    assert_eq!(
        places(&resolution).last(),
        Some(&"Kimi CLI credentials (never imported)")
    );
}

#[test]
fn a_custom_endpoint_is_not_offered_a_login() {
    let mut given = facts(ApiProvider::OpenaiCodex);
    given.custom_endpoint = true;
    given.skips_secret_store = true;
    let (questions, _) = asked(given, &nothing());
    assert_eq!(questions, vec![Question::UserGlobalConfig]);
}

#[test]
fn an_ordinary_walk_asks_in_the_order_of_precedence() {
    let mut given = facts(ApiProvider::Xai);
    given.is_active = true;
    given.env_vars = vec!["A".to_owned(), "B".to_owned()];
    let (questions, _) = asked(given, &nothing());
    assert_eq!(
        questions,
        vec![
            Question::CliOverride,
            Question::AmbientEnv { index: 0 },
            Question::AmbientEnv { index: 1 },
            Question::OAuth { flow: OAuthFlow::Xai },
            Question::SecretStore { read_only: false },
            Question::UserGlobalConfig,
        ]
    );
}

#[test]
fn an_external_grant_says_why_it_is_refused() {
    let path = Some("/home/a/auth.json".to_owned());
    let unconsented = resolve_external_grant(ApiProvider::Deepseek, &None, true, true);
    let dormant = resolve_external_grant(ApiProvider::Deepseek, &path, false, true);
    let unusable = resolve_external_grant(ApiProvider::Deepseek, &path, true, false);
    let granted = resolve_external_grant(ApiProvider::Deepseek, &path, true, true);

    let probe = unconsented.err().expect("no consent, no grant");
    assert_eq!(
        probe.place,
        "DeepSeek Harness credentials (no read-only consent recorded)"
    );
    assert_eq!(
        probe.fix,
        "codewhale auth external-consent --provider deepseek --mode read-only"
    );
    let probe = dormant.err().expect("a dormant consent gives nothing");
    assert_eq!(
        probe.place,
        "DeepSeek Harness credentials (consent dormant until this provider is selected)"
    );
    assert_eq!(probe.fix, "codewhale config set provider deepseek");
    let probe = unusable.err().expect("an unusable file gives nothing");
    assert_eq!(
        probe.place,
        "DeepSeek Harness credentials (consented, but no usable credential in that file)"
    );
    assert_eq!(
        probe.fix,
        "log in again with DeepSeek Harness, or run codewhale auth set --provider deepseek"
    );
    assert!(matches!(
        granted,
        Ok(CredentialSource::ExternalGrant { cli, path })
            if cli == "DeepSeek Harness" && path == "/home/a/auth.json"
    ));
}

#[test]
fn a_refused_harness_file_does_not_hide_a_configured_key() {
    let mut given = facts(ApiProvider::Deepseek);
    given.table_key_is_literal = true;
    let resolution = resolve_credential_source_with(given, &nothing());
    assert!(matches!(
        &resolution.source,
        CredentialSource::ProviderConfigApiKey { table } if table == "providers.deepseek"
    ));
}

#[test]
fn a_resolution_is_present_unless_it_is_missing() {
    let found = CredentialResolution::found(CredentialSource::RootConfigApiKey);
    assert!(found.is_present());
    assert_eq!(found.checked_places(), "");
    assert_eq!(found.first_fix(), None);
    assert_eq!(found.source.label(), None);
    let probe = CredentialProbe::with_fix("a place".to_owned(), "a fix".to_owned());
    let missing = CredentialResolution::missing(vec![probe]);
    assert!(!missing.is_present());
    assert_eq!(missing.checked_places(), "a place");
    assert_eq!(missing.first_fix(), Some("a fix"));
}
