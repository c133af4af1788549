//! Names, endpoints, wire policies, orders and small text rules.

use codewhale_providers::api_provider::{
    catalog_partition_key, catalog_provider_id, catalog_provider_id_for_identity, ApiProvider,
};
use codewhale_providers::credential_help::{
    credential_help, credential_help_for_route, CredentialAcquisition, CODEWHALE_API_KEY_URL,
};
use codewhale_providers::endpoint::{
    codewhale_api_base, codewhale_api_base_candidate, is_exact_csdn_platform_route,
    is_exact_https_route, migrates_legacy_ollama_cloud_route, UrlOrigin, CODEWHALE_API_BASE_ENV,
};
use codewhale_providers::model_list::{
    catalog_models_from_offerings, push_unique_model, valid_catalog_model_id,
};
use codewhale_providers::offering::{CatalogOffering, CatalogStatus};
use codewhale_providers::order::sorted_positions;
use codewhale_providers::pair_map::PairMap;
use codewhale_providers::provider::{
    all_providers, lookup_provider, provider_for_kind, resolve_provider, EndpointDefault,
    EndpointDefaults, Provider,
};
use codewhale_providers::provider_kind::ProviderKind;
use codewhale_providers::text::{
    comes_before, decimal_text, find_text, lowered, replace_text, same_ignoring_case, trimmed,
};
use codewhale_providers::wire::{WireFormat, WirePolicy};

#[test]
fn every_id_and_alias_resolves_to_a_provider() {
    for provider in all_providers() {
        let found = lookup_provider(provider.id()).expect("an id denotes its provider");
        assert_eq!(found.kind(), provider.kind());
        assert!(resolve_provider(provider.id()).is_some());
        for alias in provider.aliases() {
            let padded = format!("  {alias} ");
            let found = resolve_provider(&padded).expect("an alias denotes its provider");
            assert_eq!(found.kind(), provider.kind(), "{alias}");
        }
        assert_eq!(provider_for_kind(provider.kind()).kind(), provider.kind());
    }
    assert!(lookup_provider("deep-seek").is_none(), "an alias is not an id");
    assert_eq!(resolve_provider("deep-seek").map(|p| p.kind()), Some(ProviderKind::Deepseek));
    assert_eq!(
        resolve_provider("deepseek_claude").map(|p| p.kind()),
        Some(ProviderKind::Deepseek)
    );
    assert!(resolve_provider("no-such-provider").is_none());
    assert!(resolve_provider("").is_none());
    assert_eq!(ProviderKind::parse(" openai "), Some(ProviderKind::Openai));
    assert_eq!(ProviderKind::parse("OPENAI-NOT"), None);
}

#[test]
fn every_provider_describes_itself() {
    let deepseek = provider_for_kind(ProviderKind::Deepseek);
    assert_eq!(deepseek.id(), "deepseek");
    assert_eq!(deepseek.display_name(), "DeepSeek");
    assert_eq!(deepseek.env_vars(), ["DEEPSEEK_API_KEY"]);
    assert_eq!(deepseek.provider_config_key(), "deepseek");
    assert_eq!(deepseek.wire_policy(), WirePolicy::ModelAware);
    let anthropic = provider_for_kind(ProviderKind::Anthropic);
    assert_eq!(
        anthropic.wire_policy().fixed(),
        Some(WireFormat::AnthropicMessages)
    );
    assert_eq!(WirePolicy::ModelAware.fixed(), None);
    assert_eq!(
        WirePolicy::ModelAware.resolve("  Responses "),
        Some(WireFormat::Responses)
    );
}

#[test]
fn defaults_come_from_the_table_of_the_primary() {
    let row = |kind: ProviderKind, base_url: &str, model: &str| EndpointDefault {
        kind,
        base_url: base_url.to_owned(),
        model: model.to_owned(),
    };
    let defaults = EndpointDefaults {
        rows: vec![
            row(ProviderKind::Minimax, "https://a", "m"),
            row(ProviderKind::MinimaxAnthropic, "https://b", "unused"),
        ],
    };
    let anthropic = provider_for_kind(ProviderKind::MinimaxAnthropic);
    assert_eq!(anthropic.default_base_url(&defaults).as_deref(), Some("https://b"));
    assert_eq!(anthropic.default_model(&defaults).as_deref(), Some("m"));
    let custom = provider_for_kind(ProviderKind::Custom);
    assert_eq!(custom.default_base_url(&defaults).as_deref(), Some("http://localhost/v1"));
    assert_eq!(custom.default_model(&defaults).as_deref(), Some("custom-model"));
    assert_eq!(provider_for_kind(ProviderKind::Zai).default_model(&defaults), None);
}

#[test]
fn routable_providers_and_kinds_correspond() {
    for provider in ApiProvider::all() {
        match provider.kind() {
            Some(kind) => assert_eq!(ApiProvider::from_kind(kind), *provider),
            None => assert_eq!(*provider, ApiProvider::DeepseekCN),
        }
    }
    assert_eq!(ApiProvider::parse("deepseek"), Some(ApiProvider::Deepseek));
    assert_eq!(ApiProvider::parse("nothing"), None);
    let sorted = ApiProvider::sorted_for_display();
    assert_eq!(sorted[0].as_str(), "modelstudio-token-plan");
}

#[test]
fn catalogs_collapse_variants_onto_their_primary() {
    assert_eq!(catalog_provider_id(ApiProvider::DeepseekAnthropic), "deepseek");
    assert_eq!(catalog_provider_id(ApiProvider::DeepseekCN), "deepseek");
    assert_eq!(catalog_provider_id(ApiProvider::SiliconflowCn), "siliconflow");
    assert_eq!(catalog_provider_id(ApiProvider::Zai), "zai");
    assert_eq!(catalog_partition_key("  Zai "), "Zai");
    assert_eq!(
        catalog_provider_id_for_identity(ApiProvider::Custom, Some(" My Host ")),
        "My Host"
    );
    assert_eq!(catalog_provider_id_for_identity(ApiProvider::Custom, Some("  ")), "custom");
    assert_eq!(catalog_provider_id_for_identity(ApiProvider::Zai, Some("other")), "zai");
}

fn origin(scheme: &str, host_is_loopback: bool, has_credentials: bool) -> UrlOrigin {
    UrlOrigin { scheme: scheme.to_owned(), host_is_loopback, has_credentials }
}

#[test]
fn an_api_base_is_https_or_loopback() {
    assert_eq!(CODEWHALE_API_BASE_ENV, "CODEWHALE_API_BASE");
    assert_eq!(codewhale_api_base_candidate(" https://api.x/v1// "), "https://api.x/v1");
    let https = origin("https", false, false);
    assert_eq!(
        codewhale_api_base(" https://api.x/v1/ ", Some(&https)).as_deref(),
        Some("https://api.x/v1")
    );
    let loopback = origin("http", true, false);
    assert_eq!(
        codewhale_api_base("http://127.0.0.1:8080", Some(&loopback)).as_deref(),
        Some("http://127.0.0.1:8080")
    );
    let plain = origin("http", false, false);
    assert_eq!(codewhale_api_base("http://api.x/v1", Some(&plain)), None);
    assert_eq!(codewhale_api_base("not a url", None), None);
    assert_eq!(codewhale_api_base("   ", Some(&https)), None);
}

#[test]
fn an_exact_route_names_one_endpoint_and_nothing_more() {
    assert!(is_exact_https_route(" HTTPS://Api.X.ai/v1/ ", "api.x.ai", "v1"));
    for other in [
        "https://api.x.ai/v1/more",
        "https://api.x.ai",
        "https://user@api.x.ai/v1",
        "https://api.x.ai/v1?a",
        "http://api.x.ai/v1",
        "",
    ] {
        assert!(!is_exact_https_route(other, "api.x.ai", "v1"), "{other}");
    }
    assert!(migrates_legacy_ollama_cloud_route(ProviderKind::Ollama, "https://ollama.com/v1"));
    assert!(!migrates_legacy_ollama_cloud_route(
        ProviderKind::OllamaCloud,
        "https://ollama.com/v1"
    ));
    assert!(!is_exact_csdn_platform_route(ProviderKind::Csdn, "https://elsewhere.example/v1"));
}

#[test]
fn help_for_an_ordinary_route_is_the_providers_own() {
    let help = credential_help(ProviderKind::Zai);
    assert_eq!(credential_help_for_route(ProviderKind::Zai, "https://gateway.example/v1"), help);
    assert_eq!(help.acquisition.as_str(), "api_key");
    assert_eq!(CredentialAcquisition::OAuth.as_str(), "oauth");
    assert_eq!(
        credential_help(ProviderKind::Codewhale).credential_url,
        Some(CODEWHALE_API_KEY_URL)
    );
}

#[test]
fn model_ids_are_short_and_plain() {
    for id in ["a", "gpt-5.5", "accounts/x/models/y_z:1", &"x".repeat(256)] {
        assert!(valid_catalog_model_id(id), "{id}");
    }
    for id in ["", "---", "a b", "bad\u{1b}[31m", "\u{e9}a", &"x".repeat(257)] {
        assert!(!valid_catalog_model_id(id), "{id}");
    }
}

#[test]
fn a_model_list_has_no_blanks_and_no_repeats() {
    let mut models = Vec::new();
    for id in [" b ", "", "  ", "B", "a", "b"] {
        push_unique_model(&mut models, id);
    }
    assert_eq!(models, vec!["b", "a"]);
    let row = |model: &str, default_for_provider: bool| CatalogOffering {
        wire_model_id: model.to_owned(),
        default_for_provider,
        ..Default::default()
    };
    let rows = vec![row("z", false), row("y", true), row("x", false), row("Z", false)];
    assert_eq!(catalog_models_from_offerings(&rows), vec!["y", "Z", "x"]);
}

#[test]
fn only_fresh_is_fresh() {
    assert!(CatalogStatus::Fresh.is_fresh());
    assert!(!CatalogStatus::Stale.is_fresh());
    assert!(!CatalogStatus::Unknown.is_fresh());
    assert!(!CatalogStatus::Failed { reason: "network".to_owned() }.is_fresh());
}

#[test]
fn texts_are_trimmed_lowered_and_replaced() {
    assert_eq!(trimmed("\t a b \n"), "a b");
    assert_eq!(trimmed("\u{3000}x\u{a0}"), "x");
    assert_eq!(lowered("ABC-\u{c9}"), "abc-\u{c9}");
    assert!(same_ignoring_case("AbC", "aBc"));
    assert!(!same_ignoring_case("abc", "abd"));
    assert!(comes_before("Z", "a"));
    assert!(comes_before("a", "ab"));
    assert!(!comes_before("ab", "ab"));
    assert_eq!(decimal_text(0), "0");
    assert_eq!(decimal_text(1234567890), "1234567890");
    assert_eq!(replace_text("a{x}b{x}", "{x}", "1"), "a1b1");
    assert_eq!(replace_text("aaa", "aa", "b"), "ba");
    assert_eq!(find_text("hello", "l"), Some(2));
    assert_eq!(find_text("hello", "z"), None);
}

#[test]
fn positions_are_sorted_by_rank_and_name() {
    let names: Vec<String> = ["b", "a", "c", "a"].iter().map(|s| (*s).to_owned()).collect();
    assert_eq!(sorted_positions(&vec![0, 0, 0, 0], &names), vec![1, 3, 0, 2]);
    assert_eq!(sorted_positions(&vec![1, 1, 0, 1], &names), vec![2, 1, 3, 0]);
}

#[test]
fn a_pair_map_keeps_one_value_per_key_in_key_order() {
    let mut map: PairMap<u8> = PairMap::new();
    map.insert("b".to_owned(), "x".to_owned(), 1);
    map.insert("a".to_owned(), "y".to_owned(), 2);
    map.insert("a".to_owned(), "x".to_owned(), 3);
    map.insert("b".to_owned(), "x".to_owned(), 4);
    assert_eq!(map.len(), 3);
    assert_eq!(map.get("b", "x"), Some(&4));
    assert_eq!(map.get("b", "y"), None);
    map.remove("a", "y");
    map.remove("a", "absent");
    assert_eq!(map.into_values(), vec![3, 4]);
}

#[test]
fn a_model_list_is_grouped_and_does_not_depend_on_row_order() {
    let row = |model: &str, default_for_provider: bool| CatalogOffering {
        wire_model_id: model.to_owned(),
        default_for_provider,
        ..Default::default()
    };
    let one = vec![row("d", false), row("c", true), row("a", false), row("b", true), row("B", false)];
    let other = vec![row("B", false), row("a", false), row("b", true), row("d", false), row("c", true)];
    assert_eq!(catalog_models_from_offerings(&one), vec!["b", "c", "a", "d"]);
    assert_eq!(catalog_models_from_offerings(&other), catalog_models_from_offerings(&one));
}
