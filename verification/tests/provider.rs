//! The provider registry, its routes and its credential help.

use codewhale_providers::credential_help::{
    credential_help_for_route, CredentialAcquisition, KIMI_CODE_MEMBERSHIP_PLAN_CONSOLE_URL,
    OLLAMA_CLOUD_API_KEY_URL,
};
use codewhale_providers::endpoint::{
    is_exact_kimi_code_route, is_exact_minimax_anthropic_route, is_exact_minimax_chat_route,
    is_exact_moonshot_platform_route, is_exact_ollama_cloud_route, is_exact_xai_platform_route,
    is_exact_zai_chat_route, OLLAMA_CLOUD_BASE_URL,
};
use codewhale_providers::provider::{
    all_providers, provider_for_kind, providers_sorted_for_display, EndpointDefault,
    EndpointDefaults, Provider,
};
use codewhale_providers::provider_kind::ProviderKind;
use codewhale_providers::wire::{WireFormat, WirePolicy};

const DEFAULT_MOONSHOT_BASE_URL: &str = "https://api.moonshot.ai/v1";
const MOONSHOT_CN_BASE_URL: &str = "https://api.moonshot.cn/v1";
const DEFAULT_XAI_BASE_URL: &str = "https://api.x.ai/v1";
const DEFAULT_ZAI_BASE_URL: &str = "https://api.z.ai/api/coding/paas/v4";
const DEFAULT_MINIMAX_BASE_URL: &str = "https://api.minimax.io/v1";
const DEFAULT_MINIMAX_ANTHROPIC_BASE_URL: &str = "https://api.minimax.io/anthropic";
const DEFAULT_OLLAMA_BASE_URL: &str = "http://localhost:11434/v1";

#[test]
fn credential_help_covers_every_provider_without_guessing_non_key_urls() {
    for provider in all_providers() {
        let help = provider.credential_help();
        assert!(
            !help.guidance.trim().is_empty(),
            "{} credential guidance must not be empty",
            provider.id()
        );

        match help.acquisition {
            CredentialAcquisition::ApiKey | CredentialAcquisition::ApiKeyOrOAuth => {
                assert!(
                    help.credential_url.is_some(),
                    "{} needs a stable provider-owned credential link",
                    provider.id()
                );
            }
            CredentialAcquisition::LocalOptional
            | CredentialAcquisition::OAuth
            | CredentialAcquisition::Configuration => assert!(
                help.credential_url.is_none(),
                "{} must explain its non-key route instead of inventing a credential link",
                provider.id()
            ),
        }
    }
}

#[test]
fn kimi_credential_help_uses_the_durable_api_key_console_only() {
    let help = provider_for_kind(ProviderKind::Moonshot).credential_help();

    assert_eq!(help.acquisition, CredentialAcquisition::ApiKey);
    assert_eq!(
        help.credential_url,
        Some("https://platform.kimi.ai/console/api-keys")
    );
    assert_eq!(
        help.docs_url,
        Some("https://platform.kimi.ai/docs/overview")
    );
    assert!(help.guidance.contains("create and copy an API key"));
    assert!(help.guidance.contains("OAuth is not available"));
}

#[test]
fn kimi_code_route_credential_help_is_distinct_from_direct_moonshot() {
    let direct = credential_help_for_route(ProviderKind::Moonshot, DEFAULT_MOONSHOT_BASE_URL);
    let kimi_code =
        credential_help_for_route(ProviderKind::Moonshot, "https://api.kimi.com/coding/v1/");

    assert_eq!(
        direct.credential_url,
        Some("https://platform.kimi.ai/console/api-keys")
    );
    assert_eq!(
        kimi_code.credential_url,
        Some(KIMI_CODE_MEMBERSHIP_PLAN_CONSOLE_URL)
    );
    assert_eq!(kimi_code.docs_url, None);
    assert!(kimi_code.guidance.contains("membership-plan API key"));
    assert!(
        kimi_code
            .guidance
            .contains("does not import Kimi CLI credentials")
    );
    assert!(!is_exact_kimi_code_route(
        ProviderKind::Moonshot,
        "https://api.kimi.com/coding/v1/preview"
    ));

    // Scheme and hostname casing are insignificant, but the endpoint
    // path is a route identifier and must remain exact.
    assert!(is_exact_kimi_code_route(
        ProviderKind::Moonshot,
        "HTTPS://API.KIMI.COM/coding/v1/"
    ));
    for neighboring_route in [
        "https://api.kimi.com/CODING/v1",
        "https://api.kimi.com/coding/V1",
        "http://api.kimi.com/coding/v1",
        "https://api.kimi.com:443/coding/v1",
        "https://api.kimi.com/coding/v1?preview=1",
        "https://api.kimi.com/coding/v1#fragment",
        "https://api.kimi.com/coding/v1//",
    ] {
        assert!(
            !is_exact_kimi_code_route(ProviderKind::Moonshot, neighboring_route),
            "{neighboring_route} must not inherit Kimi Code membership semantics"
        );
    }
}

#[test]
fn ollama_cloud_route_is_exact_and_requires_its_own_key() {
    for base_url in [
        OLLAMA_CLOUD_BASE_URL,
        "https://ollama.com/v1/",
        "  HTTPS://OLLAMA.COM/v1/  ",
    ] {
        for provider in [ProviderKind::Ollama, ProviderKind::OllamaCloud] {
            assert!(is_exact_ollama_cloud_route(provider, base_url));
            let help = credential_help_for_route(provider, base_url);
            assert_eq!(help.acquisition, CredentialAcquisition::ApiKey);
            assert_eq!(help.credential_url, Some(OLLAMA_CLOUD_API_KEY_URL));
            assert_eq!(
                help.docs_url,
                Some("https://docs.ollama.com/api/authentication")
            );
            assert!(help.guidance.contains("OLLAMA_CLOUD_API_KEY"));
            assert!(help.guidance.contains("OLLAMA_API_KEY"));
        }
    }

    for base_url in [
        "http://ollama.com/v1",
        "https://ollama.com",
        "https://ollama.com/api",
        "https://ollama.com/v1/preview",
        "https://ollama.com.evil.example/v1",
        "https://api.ollama.com/v1",
        "https://ollama.com/v1?tenant=other",
    ] {
        assert!(!is_exact_ollama_cloud_route(ProviderKind::Ollama, base_url));
        assert!(!is_exact_ollama_cloud_route(
            ProviderKind::OllamaCloud,
            base_url
        ));
    }
    assert!(!is_exact_ollama_cloud_route(
        ProviderKind::Openai,
        OLLAMA_CLOUD_BASE_URL
    ));

    let local = credential_help_for_route(ProviderKind::Ollama, DEFAULT_OLLAMA_BASE_URL);
    assert_eq!(local.acquisition, CredentialAcquisition::LocalOptional);
    assert_eq!(local.credential_url, None);
    assert!(local.guidance.contains("keyless by default"));
}

#[test]
fn direct_moonshot_route_matching_is_exact() {
    for route in ["HTTPS://API.MOONSHOT.AI/v1/", "HTTPS://API.MOONSHOT.CN/v1/"] {
        assert!(is_exact_moonshot_platform_route(
            ProviderKind::Moonshot,
            route
        ));
    }
    for neighboring_route in [
        "https://api.moonshot.ai/V1",
        "http://api.moonshot.ai/v1",
        "https://api.moonshot.ai:443/v1",
        "https://api.moonshot.ai/v1?preview=1",
        "https://api.moonshot.ai/v1#fragment",
        "https://api.moonshot.ai/v1//",
        "https://api.moonshot.ai/v1/chat/completions",
        "https://api.moonshot.cn/v1/chat/completions",
        "https://api.kimi.com/coding/v1",
    ] {
        assert!(
            !is_exact_moonshot_platform_route(ProviderKind::Moonshot, neighboring_route),
            "{neighboring_route} must not inherit direct Moonshot semantics"
        );
    }
    assert!(!is_exact_moonshot_platform_route(
        ProviderKind::Openai,
        MOONSHOT_CN_BASE_URL
    ));
}

#[test]
fn direct_xai_route_matching_is_exact() {
    assert!(is_exact_xai_platform_route(
        ProviderKind::Xai,
        "HTTPS://API.X.AI/v1/"
    ));
    for neighboring_route in [
        "https://api.x.ai/V1",
        "http://api.x.ai/v1",
        "https://api.x.ai:443/v1",
        "https://api.x.ai/v1?preview=1",
        "https://api.x.ai/v1#fragment",
        "https://api.x.ai/v1//",
        "https://api.x.ai/v1/chat/completions",
        "https://gateway.example/v1",
    ] {
        assert!(
            !is_exact_xai_platform_route(ProviderKind::Xai, neighboring_route),
            "{neighboring_route} must not inherit xAI-only request fields"
        );
    }
    assert!(!is_exact_xai_platform_route(
        ProviderKind::Openai,
        DEFAULT_XAI_BASE_URL
    ));
}

#[test]
fn zai_chat_route_matching_is_exact() {
    for route in [
        "https://api.z.ai/api/coding/paas/v4",
        "https://api.z.ai/api/paas/v4/",
        "HTTPS://API.Z.AI/api/paas/v4",
        // BigModel's general platform endpoint is the same first-party
        // open platform; authority case stays insignificant.
        "https://open.bigmodel.cn/api/paas/v4",
        "https://open.bigmodel.cn/api/paas/v4/",
        "HTTPS://OPEN.BIGMODEL.CN/api/paas/v4",
    ] {
        assert!(is_exact_zai_chat_route(ProviderKind::Zai, route), "{route}");
    }
    for neighboring_route in [
        "http://api.z.ai/api/paas/v4",
        "https://api.z.ai:443/api/paas/v4",
        "https://api.z.ai/API/paas/v4",
        "https://api.z.ai/api/paas/v4?preview=1",
        "https://api.z.ai/api/paas/v4#fragment",
        "https://api.z.ai/api/paas/v4//",
        "https://api.z.ai/api/paas/v4/chat/completions",
        // BigModel neighbors: the undocumented coding path and the
        // preview product stay fail-closed, like the official-endpoint
        // and web-search families.
        "https://open.bigmodel.cn/api/paas/v4/preview",
        "https://open.bigmodel.cn/api/coding/paas/v4",
        "http://open.bigmodel.cn/api/paas/v4",
        "https://open.bigmodel.cn/API/paas/v4",
        "https://gateway.example/v1",
    ] {
        assert!(
            !is_exact_zai_chat_route(ProviderKind::Zai, neighboring_route),
            "{neighboring_route} must not inherit Z.ai-only request fields"
        );
    }
    assert!(!is_exact_zai_chat_route(
        ProviderKind::Openai,
        DEFAULT_ZAI_BASE_URL
    ));
    assert!(!is_exact_zai_chat_route(
        ProviderKind::Openai,
        "https://open.bigmodel.cn/api/paas/v4"
    ));
}

#[test]
fn minimax_chat_route_matching_is_exact_and_excludes_messages() {
    for route in [
        "https://api.minimax.io/v1",
        "https://api.minimaxi.com/v1/",
        "HTTPS://API.MINIMAX.IO/v1",
    ] {
        assert!(
            is_exact_minimax_chat_route(ProviderKind::Minimax, route),
            "{route}"
        );
    }
    for neighboring_route in [
        "http://api.minimax.io/v1",
        "https://api.minimax.io:443/v1",
        "https://api.minimax.io/V1",
        "https://api.minimax.io/v1?preview=1",
        "https://api.minimax.io/v1#fragment",
        "https://api.minimax.io/v1//",
        "https://api.minimax.io/v1/chat/completions",
        "https://api.minimax.io/anthropic",
        "https://api.minimaxi.com/anthropic",
        "https://gateway.example/v1",
    ] {
        assert!(
            !is_exact_minimax_chat_route(ProviderKind::Minimax, neighboring_route),
            "{neighboring_route} must not inherit MiniMax Chat request fields"
        );
    }
    assert!(!is_exact_minimax_chat_route(
        ProviderKind::MinimaxAnthropic,
        DEFAULT_MINIMAX_BASE_URL
    ));
}

#[test]
fn minimax_anthropic_route_matching_is_exact_and_excludes_chat() {
    for route in [
        "https://api.minimax.io/anthropic",
        "https://api.minimaxi.com/anthropic/",
        "HTTPS://API.MINIMAX.IO/anthropic",
    ] {
        assert!(
            is_exact_minimax_anthropic_route(ProviderKind::MinimaxAnthropic, route),
            "{route}"
        );
    }
    for neighboring_route in [
        "http://api.minimax.io/anthropic",
        "https://api.minimax.io:443/anthropic",
        "https://api.minimax.io/Anthropic",
        "https://api.minimax.io/anthropic?preview=1",
        "https://api.minimax.io/anthropic#fragment",
        "https://api.minimax.io/anthropic//",
        "https://api.minimax.io/anthropic/v1/messages",
        "https://api.minimax.io/v1",
        "https://gateway.example/anthropic",
    ] {
        assert!(
            !is_exact_minimax_anthropic_route(
                ProviderKind::MinimaxAnthropic,
                neighboring_route
            ),
            "{neighboring_route} must not inherit MiniMax Messages semantics"
        );
    }
    assert!(!is_exact_minimax_anthropic_route(
        ProviderKind::Minimax,
        DEFAULT_MINIMAX_ANTHROPIC_BASE_URL
    ));
}

#[test]
fn non_key_and_mixed_routes_are_typed_explicitly() {
    for kind in [
        ProviderKind::Sglang,
        ProviderKind::Vllm,
        ProviderKind::Ollama,
    ] {
        assert_eq!(
            provider_for_kind(kind).credential_help().acquisition,
            CredentialAcquisition::LocalOptional
        );
    }
    assert_eq!(
        provider_for_kind(ProviderKind::OpenaiCodex)
            .credential_help()
            .acquisition,
        CredentialAcquisition::OAuth
    );
    assert_eq!(
        provider_for_kind(ProviderKind::Xai)
            .credential_help()
            .acquisition,
        CredentialAcquisition::ApiKeyOrOAuth
    );
    assert_eq!(
        provider_for_kind(ProviderKind::Custom)
            .credential_help()
            .acquisition,
        CredentialAcquisition::Configuration
    );
}

#[test]
fn antigravity_registry_entry_is_a_non_runnable_legacy_tombstone() {
    let legacy = provider_for_kind(ProviderKind::Antigravity);
    assert_eq!(legacy.id(), "antigravity");
    assert!(legacy.env_vars().is_empty());
    let defaults = EndpointDefaults {
        rows: vec![EndpointDefault {
            kind: ProviderKind::Antigravity,
            base_url: "https://reachable.example/v1".to_owned(),
            model: "runnable".to_owned(),
        }],
    };
    assert!(legacy
        .default_base_url(&defaults)
        .is_some_and(|url| url.ends_with(".invalid")));
    assert_eq!(
        legacy.default_model(&defaults),
        Some("legacy-antigravity-disabled".to_owned())
    );

    let help = legacy.credential_help();
    assert_eq!(help.acquisition, CredentialAcquisition::Configuration);
    assert_eq!(help.credential_url, None);
    assert_eq!(help.docs_url, None);
    assert!(
        help.guidance
            .contains("codewhale auth clear --provider antigravity")
    );
    assert!(help.guidance.contains("provider `google`"));
    assert!(help.guidance.contains("GEMINI_API_KEY"));
}

#[test]
fn live_verified_console_replacements_do_not_regress_to_404_links() {
    let openmodel = provider_for_kind(ProviderKind::Openmodel).credential_help();
    assert_eq!(
        openmodel.credential_url,
        Some("https://console.openmodel.ai/")
    );
    assert_eq!(
        openmodel.docs_url,
        Some("https://docs.openmodel.ai/en/docs/getting-started/authentication")
    );

    let sakana = provider_for_kind(ProviderKind::Sakana).credential_help();
    assert_eq!(
        sakana.credential_url,
        Some("https://console.sakana.ai/api-keys")
    );
    assert_eq!(
        sakana.docs_url,
        Some("https://console.sakana.ai/get-started")
    );
}

#[test]
fn model_aware_wire_policy_resolves_only_supported_endpoint_keys() {
    let policy = WirePolicy::ModelAware;
    assert_eq!(policy.resolve("chat"), Some(WireFormat::ChatCompletions));
    assert_eq!(policy.resolve("responses"), Some(WireFormat::Responses));
    assert_eq!(
        policy.resolve("messages"),
        Some(WireFormat::AnthropicMessages)
    );
    assert_eq!(policy.resolve("models/gemini-3.1-pro"), None);
    assert_eq!(policy.resolve(""), None);
}

#[test]
fn fixed_wire_policy_ignores_catalog_endpoint_keys() {
    let policy = WirePolicy::Fixed(WireFormat::Responses);
    assert_eq!(policy.resolve("chat"), Some(WireFormat::Responses));
    assert_eq!(policy.resolve("unknown"), Some(WireFormat::Responses));
}

#[test]
fn display_order_is_alphabetical_by_display_name() {
    let display = providers_sorted_for_display();
    let names: Vec<String> = display
        .iter()
        .map(|p| p.display_name().to_ascii_lowercase())
        .collect();
    let mut sorted = names.clone();
    sorted.sort();
    assert_eq!(
        names, sorted,
        "providers_sorted_for_display must be alphabetical (case-insensitive) by display name"
    );
}

#[test]
fn display_order_differs_from_internal_all_order() {
    // The whole point of the helper is that UI ordering is NOT the
    // internal compatibility-registry insertion order.
    let display_ids: Vec<&str> = providers_sorted_for_display()
        .iter()
        .map(|p| p.id())
        .collect();
    let internal_ids: Vec<&str> = all_providers().iter().map(|p| p.id()).collect();
    assert_ne!(
        display_ids, internal_ids,
        "display order should not match internal ALL order"
    );
}

#[test]
fn display_order_is_complete_and_unique() {
    // Every selectable provider is retained exactly once; legacy
    // configuration tombstones stay in the internal registry only.
    let display = providers_sorted_for_display();
    assert_eq!(
        display.len(),
        all_providers().len() - 1,
        "display order must include every selectable built-in provider"
    );
    assert!(
        all_providers()
            .iter()
            .any(|provider| provider.kind() == ProviderKind::Antigravity),
        "legacy config identity must remain in the internal registry"
    );
    assert!(
        display
            .iter()
            .all(|provider| provider.kind() != ProviderKind::Antigravity),
        "legacy Antigravity tombstone must not appear in provider pickers"
    );
    let mut ids: Vec<&str> = display.iter().map(|p| p.id()).collect();
    ids.sort_unstable();
    let before = ids.len();
    ids.dedup();
    assert_eq!(
        before,
        ids.len(),
        "display order must not contain duplicates"
    );
}

#[test]
fn deepseek_is_present_but_not_first_in_display_order() {
    // Acceptance: DeepSeek stays searchable but is no longer hard-coded
    // first in provider browsing UI. (It is first in internal ALL order.)
    let display = providers_sorted_for_display();
    assert_eq!(
        all_providers()[0].kind(),
        ProviderKind::Deepseek,
        "DeepSeek is expected to remain first in the stable internal order"
    );
    assert!(
        display.iter().any(|p| p.kind() == ProviderKind::Deepseek),
        "DeepSeek must remain present in display order"
    );
    assert_ne!(
        display[0].kind(),
        ProviderKind::Deepseek,
        "DeepSeek must not be hard-coded first in display order"
    );
    // Alibaba Cloud Model Studio sorts before 'Anthropic' and 'DeepSeek'
    // alphabetically, so it is a stable check that the neutral ordering
    // actually took effect.
    assert_eq!(
        display[0].display_name(),
        "Alibaba Cloud Model Studio",
        "alphabetical display order should lead with Alibaba Cloud Model Studio"
    );
}
