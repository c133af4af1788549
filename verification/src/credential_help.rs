//! Credential-acquisition help for providers and for concrete routes.

use vstd::prelude::*;
use crate::endpoint::{
    exact_kimi_code_route, exact_ollama_cloud_route, is_exact_kimi_code_route,
    is_exact_ollama_cloud_route,
};
use crate::provider_kind::ProviderKind;
use crate::text::{is_white_space, lemma_trim_not_blank, trim};

verus! {

/// How a user obtains or supplies credentials for a built-in provider.
///
/// Keeping this typed prevents API-key onboarding from accidentally describing
/// a local runtime, OAuth-only route, or user-defined endpoint as though it had
/// a vendor key console.
#[derive(Debug, Clone, Copy, PartialEq, Eq, Structural)]
pub enum CredentialAcquisition {
    /// A provider-issued API key or access token.
    ApiKey,
    /// Either a provider-issued API key or the provider's supported OAuth path.
    ApiKeyOrOAuth,
    /// A self-hosted route that is keyless by default but can be configured with auth.
    LocalOptional,
    /// An OAuth-only route; no API key is collected for it.
    OAuth,
    /// A user-defined route whose credential source belongs in configuration.
    Configuration,
}

/// Stable machine-readable label of a way to acquire credentials.
pub open spec fn acquisition_label(acquisition: CredentialAcquisition) -> Seq<char> {
    match acquisition {
        CredentialAcquisition::ApiKey => "api_key"@,
        CredentialAcquisition::ApiKeyOrOAuth => "api_key_or_oauth"@,
        CredentialAcquisition::LocalOptional => "local_optional"@,
        CredentialAcquisition::OAuth => "oauth"@,
        CredentialAcquisition::Configuration => "configuration"@,
    }
}

impl CredentialAcquisition {
    /// Stable machine-readable label for diagnostics.
    #[must_use]
    pub fn as_str(self) -> (r: &'static str)
        ensures
            r@ == acquisition_label(self),
    {
        match self {
            CredentialAcquisition::ApiKey => "api_key",
            CredentialAcquisition::ApiKeyOrOAuth => "api_key_or_oauth",
            CredentialAcquisition::LocalOptional => "local_optional",
            CredentialAcquisition::OAuth => "oauth",
            CredentialAcquisition::Configuration => "configuration",
        }
    }
}

/// Kimi Code's membership-plan key console.
///
/// This is intentionally distinct from Moonshot's direct API console. The
/// route-specific helper below owns the choice so a configured Kimi Code route
/// is never described as a generic Moonshot route.
pub const KIMI_CODE_MEMBERSHIP_PLAN_CONSOLE_URL: &'static str = "https://www.kimi.com/code/console";

/// Ollama's account page for creating API keys used by the hosted API.
pub const OLLAMA_CLOUD_API_KEY_URL: &'static str = "https://ollama.com/settings/keys";

/// Codewhale account page for minting a `cwc_key_…` API key.
///
/// The Codewhale API route needs a key carrying the `models:infer` scope; the
/// same page is both the credential console and the scope documentation.
pub const CODEWHALE_API_KEY_URL: &'static str = "https://app.codewhale.net/settings?section=api";

/// Canonical, non-secret help for configuring one provider.
#[derive(Debug, Clone, Copy, PartialEq, Eq)]
pub struct CredentialHelp {
    pub acquisition: CredentialAcquisition,
    /// Stable provider-owned page for creating or locating credentials.
    ///
    /// `None` is deliberate for local, OAuth-only, and user-defined routes; UI
    /// callers must show `guidance` instead of guessing a URL.
    pub credential_url: Option<&'static str>,
    /// Provider-owned documentation when a stable link is known.
    pub docs_url: Option<&'static str>,
    /// Concise fallback or qualification for non-key and mixed-auth routes.
    pub guidance: &'static str,
}

/// What a [`CredentialHelp`] says.
pub struct CredentialHelpView {
    pub acquisition: CredentialAcquisition,
    pub credential_url: Option<Seq<char>>,
    pub docs_url: Option<Seq<char>>,
    pub guidance: Seq<char>,
}

/// The characters of an optional static string.
pub open spec fn optional_words(s: Option<&'static str>) -> Option<Seq<char>> {
    match s {
        Some(t) => Some(t@),
        None => None,
    }
}

impl View for CredentialHelp {
    type V = CredentialHelpView;

    open spec fn view(&self) -> CredentialHelpView {
        CredentialHelpView {
            acquisition: self.acquisition,
            credential_url: optional_words(self.credential_url),
            docs_url: optional_words(self.docs_url),
            guidance: self.guidance@,
        }
    }
}

/// The credential help of each provider kind.
pub open spec fn provider_help(kind: ProviderKind) -> CredentialHelpView {
    match kind {
        ProviderKind::Deepseek
        | ProviderKind::DeepseekAnthropic => CredentialHelpView {
            acquisition: CredentialAcquisition::ApiKey,
            credential_url: Some("https://platform.deepseek.com/api_keys"@),
            docs_url: Some("https://api-docs.deepseek.com/"@),
            guidance: "Create an API key in the DeepSeek platform console."@,
        },
        ProviderKind::NvidiaNim => CredentialHelpView {
            acquisition: CredentialAcquisition::ApiKey,
            credential_url: Some("https://build.nvidia.com/settings/api-keys"@),
            docs_url: Some("https://build.nvidia.com/explore/discover"@),
            guidance: "Create an NVIDIA NIM key in the NVIDIA build console."@,
        },
        ProviderKind::Openai => CredentialHelpView {
            acquisition: CredentialAcquisition::ApiKey,
            credential_url: Some("https://platform.openai.com/api-keys"@),
            docs_url: Some("https://platform.openai.com/docs/api-reference"@),
            guidance: "Create an OpenAI API key, or configure the credential for your compatible endpoint."@,
        },
        ProviderKind::Atlascloud => CredentialHelpView {
            acquisition: CredentialAcquisition::ApiKey,
            credential_url: Some("https://atlascloud.ai/docs/en/api-keys"@),
            docs_url: Some("https://atlascloud.ai/docs/en/api-keys"@),
            guidance: "Follow Atlas Cloud's API Keys guide to create a credential."@,
        },
        ProviderKind::WanjieArk => CredentialHelpView {
            acquisition: CredentialAcquisition::ApiKey,
            credential_url: Some("https://docs.wanjiedata.com/maas/maas-openapi-v1.html"@),
            docs_url: Some("https://docs.wanjiedata.com/maas/maas-openapi-v1.html"@),
            guidance: "Follow Wanjie MaaS's APIKEY guide to create a credential."@,
        },
        ProviderKind::Volcengine => CredentialHelpView {
            acquisition: CredentialAcquisition::ApiKey,
            credential_url: Some("https://console.volcengine.com/ark/apiKey"@),
            docs_url: Some("https://www.volcengine.com/docs/82379/1541594"@),
            guidance: "Create a Volcengine Ark API key in the Ark console."@,
        },
        ProviderKind::Openrouter => CredentialHelpView {
            acquisition: CredentialAcquisition::ApiKey,
            credential_url: Some("https://openrouter.ai/settings/keys"@),
            docs_url: Some("https://openrouter.ai/docs/api/reference/authentication"@),
            guidance: "Create an OpenRouter key from account settings."@,
        },
        ProviderKind::Orcarouter => CredentialHelpView {
            acquisition: CredentialAcquisition::ApiKey,
            credential_url: Some("https://www.orcarouter.ai"@),
            docs_url: Some("https://www.orcarouter.ai"@),
            guidance: "Create an OrcaRouter API key from the OrcaRouter dashboard."@,
        },
        ProviderKind::XiaomiMimo => CredentialHelpView {
            acquisition: CredentialAcquisition::ApiKey,
            credential_url: Some("https://platform.xiaomimimo.com/token-plan"@),
            docs_url: Some("https://mimo.mi.com/docs/en-US/tokenplan/Token%20Plan/subscription"@),
            guidance: "Create a Xiaomi MiMo Token Plan or pay-as-you-go key and keep its matching base URL."@,
        },
        ProviderKind::Novita => CredentialHelpView {
            acquisition: CredentialAcquisition::ApiKey,
            credential_url: Some("https://novita.ai/en/settings/key-management"@),
            docs_url: Some("https://novita.ai/docs/guides/quickstart"@),
            guidance: "Create a Novita key in account Key Management."@,
        },
        ProviderKind::Fireworks => CredentialHelpView {
            acquisition: CredentialAcquisition::ApiKey,
            credential_url: Some("https://fireworks.ai/api-keys"@),
            docs_url: Some("https://docs.fireworks.ai/getting-started/quickstart"@),
            guidance: "Create a Fireworks API key before configuring the provider."@,
        },
        ProviderKind::Siliconflow => CredentialHelpView {
            acquisition: CredentialAcquisition::ApiKey,
            credential_url: Some("https://cloud.siliconflow.com/account/ak"@),
            docs_url: Some("https://docs.siliconflow.com/en/userguide/quickstart"@),
            guidance: "Use the global SiliconFlow console for the global endpoint."@,
        },
        ProviderKind::SiliconflowCN => CredentialHelpView {
            acquisition: CredentialAcquisition::ApiKey,
            credential_url: Some("https://cloud.siliconflow.cn/account/ak"@),
            docs_url: Some("https://docs.siliconflow.cn/en/userguide/quickstart"@),
            guidance: "Use the China SiliconFlow console for the China endpoint."@,
        },
        ProviderKind::Arcee => CredentialHelpView {
            acquisition: CredentialAcquisition::ApiKey,
            credential_url: Some("https://docs.arcee.ai/other/create-your-first-api-key"@),
            docs_url: Some("https://docs.arcee.ai/other/create-your-first-api-key"@),
            guidance: "Follow Arcee's API key guide to create a credential."@,
        },
        ProviderKind::Moonshot => CredentialHelpView {
            acquisition: CredentialAcquisition::ApiKey,
            credential_url: Some("https://platform.kimi.ai/console/api-keys"@),
            docs_url: Some("https://platform.kimi.ai/docs/overview"@),
            guidance: "For Moonshot's default direct API route, sign in to Kimi API Platform and create and copy an API key. A configured Kimi Code route uses a separate membership-plan console and never imports Kimi CLI credentials; first-class Kimi OAuth is not available."@,
        },
        ProviderKind::Sglang => CredentialHelpView {
            acquisition: CredentialAcquisition::LocalOptional,
            credential_url: None,
            docs_url: Some("https://docs.sglang.ai/"@),
            guidance: "Self-hosted SGLang is keyless by default; configure a key only if your server requires one."@,
        },
        ProviderKind::Vllm => CredentialHelpView {
            acquisition: CredentialAcquisition::LocalOptional,
            credential_url: None,
            docs_url: Some("https://docs.vllm.ai/en/stable/serving/openai_compatible_server/"@),
            guidance: "Self-hosted vLLM is keyless by default; configure a key only if your server requires one."@,
        },
        ProviderKind::Ollama => CredentialHelpView {
            acquisition: CredentialAcquisition::LocalOptional,
            credential_url: None,
            docs_url: Some("https://docs.ollama.com/api"@),
            guidance: "Local Ollama is keyless by default; configure a key only if your server requires one."@,
        },
        ProviderKind::OllamaCloud => CredentialHelpView {
            acquisition: CredentialAcquisition::ApiKey,
            credential_url: Some(OLLAMA_CLOUD_API_KEY_URL@),
            docs_url: Some("https://docs.ollama.com/api/authentication"@),
            guidance: "Ollama Cloud requires an API key. Save it for the ollama-cloud provider, set OLLAMA_CLOUD_API_KEY for Pi compatibility, or set Ollama's official OLLAMA_API_KEY."@,
        },
        ProviderKind::Huggingface => CredentialHelpView {
            acquisition: CredentialAcquisition::ApiKey,
            credential_url: Some("https://huggingface.co/settings/tokens"@),
            docs_url: Some("https://huggingface.co/docs/hub/en/security-tokens"@),
            guidance: "Create a scoped Hugging Face access token."@,
        },
        ProviderKind::Modelscope => CredentialHelpView {
            acquisition: CredentialAcquisition::ApiKey,
            credential_url: Some("https://modelscope.cn/my/settings/token"@),
            docs_url: None,
            guidance: "Create an SDK token in ModelScope account settings."@,
        },
        ProviderKind::Together => CredentialHelpView {
            acquisition: CredentialAcquisition::ApiKey,
            credential_url: Some("https://api.together.ai/settings/api-keys"@),
            docs_url: Some("https://docs.together.ai/docs/api-keys-authentication"@),
            guidance: "Create a Together API key from account settings."@,
        },
        ProviderKind::Qianfan => CredentialHelpView {
            acquisition: CredentialAcquisition::ApiKey,
            credential_url: Some("https://console.bce.baidu.com/iam/#/iam/accesslist"@),
            docs_url: Some("https://cloud.baidu.com/doc/qianfan/index.html"@),
            guidance: "Create Baidu Qianfan credentials in the Baidu Cloud console."@,
        },
        ProviderKind::OpenaiCodex => CredentialHelpView {
            acquisition: CredentialAcquisition::OAuth,
            credential_url: None,
            docs_url: Some("https://developers.openai.com/codex/"@),
            guidance: "Sign in with ChatGPT via `codewhale auth chatgpt` (subscription billing, Codewhale-owned tokens). The openai API-key route is a different billing owner. Codex CLI import remains an explicit alternative after `codex login` plus `codewhale auth external-consent`."@,
        },
        ProviderKind::Anthropic => CredentialHelpView {
            acquisition: CredentialAcquisition::ApiKey,
            credential_url: Some("https://console.anthropic.com/settings/keys"@),
            docs_url: Some("https://docs.anthropic.com/en/api/overview"@),
            guidance: "Create an Anthropic API key in the Anthropic Console."@,
        },
        ProviderKind::Openmodel => CredentialHelpView {
            acquisition: CredentialAcquisition::ApiKey,
            credential_url: Some("https://console.openmodel.ai/"@),
            docs_url: Some("https://docs.openmodel.ai/en/docs/getting-started/authentication"@),
            guidance: "Create an API key in the OpenModel console, then follow the authentication guide."@,
        },
        ProviderKind::Zai => CredentialHelpView {
            acquisition: CredentialAcquisition::ApiKey,
            credential_url: Some("https://z.ai/model-api"@),
            docs_url: Some("https://docs.z.ai/api-reference/introduction"@),
            guidance: "Create or manage a Z.ai API key from the Model API page."@,
        },
        ProviderKind::Stepfun => CredentialHelpView {
            acquisition: CredentialAcquisition::ApiKey,
            credential_url: Some("https://platform.stepfun.ai/"@),
            docs_url: Some("https://platform.stepfun.ai/docs/en/quickstart/overview"@),
            guidance: "Open Account Management, then Interface Keys, in the StepFun console."@,
        },
        ProviderKind::Minimax
        | ProviderKind::MinimaxAnthropic => CredentialHelpView {
            acquisition: CredentialAcquisition::ApiKey,
            credential_url: Some("https://platform.minimax.io/user-center/basic-information/interface-key"@),
            docs_url: Some("https://platform.minimax.io/docs/api-reference/api-overview"@),
            guidance: "Create a MiniMax API key or subscription-plan key in the user center."@,
        },
        ProviderKind::Deepinfra => CredentialHelpView {
            acquisition: CredentialAcquisition::ApiKey,
            credential_url: Some("https://deepinfra.com/dash/api_keys"@),
            docs_url: Some("https://docs.deepinfra.com/quickstart"@),
            guidance: "Create a DeepInfra API key from the dashboard."@,
        },
        ProviderKind::Sakana => CredentialHelpView {
            acquisition: CredentialAcquisition::ApiKey,
            credential_url: Some("https://console.sakana.ai/api-keys"@),
            docs_url: Some("https://console.sakana.ai/get-started"@),
            guidance: "Create a Sakana AI key in the console and copy it when shown."@,
        },
        ProviderKind::LongCat => CredentialHelpView {
            acquisition: CredentialAcquisition::ApiKey,
            credential_url: Some("https://longcat.chat/platform"@),
            docs_url: Some("https://longcat.chat/platform"@),
            guidance: "Sign up on the LongCat platform and create an API key."@,
        },
        ProviderKind::OpencodeGo => CredentialHelpView {
            acquisition: CredentialAcquisition::ApiKey,
            credential_url: Some("https://opencode.ai/zen/"@),
            docs_url: Some("https://opencode.ai/docs/go/"@),
            guidance: "Create or copy an OpenCode Go subscription key from OpenCode Zen."@,
        },
        ProviderKind::OpencodeZen => CredentialHelpView {
            acquisition: CredentialAcquisition::ApiKey,
            credential_url: Some("https://opencode.ai/zen/"@),
            docs_url: Some("https://opencode.ai/docs/zen/"@),
            guidance: "Optional: the Zen free tier works without a key. Create or copy an OpenCode Zen API key from OpenCode Zen to use paid models."@,
        },
        ProviderKind::Meta => CredentialHelpView {
            acquisition: CredentialAcquisition::ApiKey,
            credential_url: Some("https://developer.meta.com/ai/"@),
            docs_url: Some("https://developer.meta.com/ai/resources/blog/build-with-muse-spark/"@),
            guidance: "Use the Meta developer portal to obtain Model API access and a key."@,
        },
        ProviderKind::Xai => CredentialHelpView {
            acquisition: CredentialAcquisition::ApiKeyOrOAuth,
            credential_url: Some("https://console.x.ai/"@),
            docs_url: None,
            guidance: "Use an xAI Console API key or Codewhale's native device login. Reading an existing Grok CLI file requires explicit provider-scoped read-only consent."@,
        },
        ProviderKind::Mistral => CredentialHelpView {
            acquisition: CredentialAcquisition::ApiKey,
            credential_url: Some("https://console.mistral.ai/api-keys"@),
            docs_url: Some("https://docs.mistral.ai/"@),
            guidance: "Create a Mistral API key in the Mistral Console (la Plateforme)."@,
        },
        ProviderKind::Telecomjs => CredentialHelpView {
            acquisition: CredentialAcquisition::ApiKey,
            credential_url: Some("https://aigw.telecomjs.com/"@),
            docs_url: None,
            guidance: "Create a TelecomJS TokenHub API key, then use the provider's live model catalog to discover the models available to that key."@,
        },
        ProviderKind::Edenai => CredentialHelpView {
            acquisition: CredentialAcquisition::ApiKey,
            credential_url: Some("https://app.edenai.run/settings/api-keys"@),
            docs_url: Some("https://www.edenai.co/docs"@),
            guidance: "Create an Eden AI API key from the Eden AI dashboard, then select models by their provider/model namespaced id."@,
        },
        ProviderKind::Zenmux => CredentialHelpView {
            acquisition: CredentialAcquisition::ApiKey,
            credential_url: Some("https://zenmux.ai/platform/pay-as-you-go"@),
            docs_url: Some("https://zenmux.ai/docs/"@),
            guidance: "Create a ZenMux API key from the Pay As You Go management page, then select models by their provider/model namespaced id. The catalog at https://zenmux.ai/api/v1/models is keyless-readable."@,
        },
        ProviderKind::Csdn => CredentialHelpView {
            acquisition: CredentialAcquisition::ApiKey,
            credential_url: Some("https://ai.csdn.net/workbench/api-key"@),
            docs_url: Some("https://ai.csdn.net/coding-plan"@),
            guidance: "Create an API key in the CSDN console — choose the Coding Plan key type so glm_for_coding calls bill against plan quota; a general key bills metered."@,
        },
        ProviderKind::Codewhale => CredentialHelpView {
            acquisition: CredentialAcquisition::ApiKey,
            credential_url: Some(CODEWHALE_API_KEY_URL@),
            docs_url: Some("https://app.codewhale.net/settings?section=api"@),
            guidance: "Create an API key with the models:infer scope at https://app.codewhale.net/settings?section=api"@,
        },
        ProviderKind::Concentrate => CredentialHelpView {
            acquisition: CredentialAcquisition::ApiKey,
            credential_url: Some("https://concentrate.ai/"@),
            docs_url: Some("https://concentrate.ai/docs/api-reference/introduction"@),
            guidance: "Create a Universal API key in the Concentrate dashboard (API Keys → Create API Key). Codewhale sends it only to the Concentrate base URL and never stores or forwards it elsewhere."@,
        },
        ProviderKind::ModelstudioTokenPlan
        | ProviderKind::ModelstudioTokenPlanAnthropic
        | ProviderKind::ModelstudioCodingPlan
        | ProviderKind::ModelstudioCodingPlanAnthropic => CredentialHelpView {
            acquisition: CredentialAcquisition::ApiKey,
            credential_url: Some("https://bailian.console.aliyun.com/"@),
            docs_url: Some("https://www.alibabacloud.com/help/en/model-studio/"@),
            guidance: "Sign in to Alibaba Cloud Model Studio (Bailian console), create or copy an API key, and select the plan endpoint matching your subscription (Token Plan or Coding Plan)."@,
        },
        ProviderKind::Antigravity => CredentialHelpView {
            acquisition: CredentialAcquisition::Configuration,
            credential_url: None,
            docs_url: None,
            guidance: "Legacy configuration only; this route is disabled. Run `codewhale auth clear --provider antigravity` to clear only Codewhale-owned legacy state, then use provider `google` with `GEMINI_API_KEY` for Gemini."@,
        },
        ProviderKind::Google => CredentialHelpView {
            acquisition: CredentialAcquisition::ApiKey,
            credential_url: Some("https://aistudio.google.com/apikey"@),
            docs_url: Some("https://ai.google.dev/gemini-api/docs/openai"@),
            guidance: "Create a Google AI Studio API key. Codewhale uses the official Gemini OpenAI-compatible endpoint and never reads Google OAuth files."@,
        },
        ProviderKind::Custom => CredentialHelpView {
            acquisition: CredentialAcquisition::Configuration,
            credential_url: None,
            docs_url: None,
            guidance: "Set this custom provider's base_url and api_key_env or api_key in configuration; no canonical vendor credential page exists."@,
        },
    }
}

/// The help for the hosted Ollama endpoint.
pub open spec fn ollama_cloud_route_help() -> CredentialHelpView {
    CredentialHelpView {
        acquisition: CredentialAcquisition::ApiKey,
        credential_url: Some(OLLAMA_CLOUD_API_KEY_URL@),
        docs_url: Some("https://docs.ollama.com/api/authentication"@),
        guidance: "Ollama Cloud requires an API key. Create one in Ollama account settings, then save it for the ollama-cloud provider, set OLLAMA_CLOUD_API_KEY for Pi compatibility, or set Ollama's official OLLAMA_API_KEY."@,
    }
}

/// The help for the Kimi Code membership-plan endpoint.
pub open spec fn kimi_code_route_help() -> CredentialHelpView {
    CredentialHelpView {
        acquisition: CredentialAcquisition::ApiKey,
        credential_url: Some(KIMI_CODE_MEMBERSHIP_PLAN_CONSOLE_URL@),
        docs_url: None,
        guidance: "Create a Kimi Code membership-plan API key in the Kimi Code console. This route uses api.kimi.com/coding/v1; Codewhale does not import Kimi CLI credentials."@,
    }
}

/// The help for one concrete route: that of the hosted Ollama endpoint and of
/// the Kimi Code endpoint where the route is exactly one of them, and the
/// provider's own everywhere else.
pub open spec fn route_help(kind: ProviderKind, base_url: Seq<char>) -> CredentialHelpView {
    if exact_ollama_cloud_route(kind, base_url) {
        ollama_cloud_route_help()
    } else if exact_kimi_code_route(kind, base_url) {
        kimi_code_route_help()
    } else {
        provider_help(kind)
    }
}

/// Return the canonical credential-acquisition metadata for a provider kind.
///
/// If no stable vendor credential page is known, the URL remains absent and the
/// guidance explains the supported local, OAuth, or configuration path.
/// This is provider-level fallback metadata: callers that know a concrete base
/// URL must use [`credential_help_for_route`] so route-owned credentials do not
/// inherit a default endpoint's console.
#[must_use]
pub fn credential_help(kind: ProviderKind) -> (r: CredentialHelp)
    ensures
        r@ == provider_help(kind),
{
    match kind {
        ProviderKind::Deepseek
        | ProviderKind::DeepseekAnthropic => CredentialHelp {
            acquisition: CredentialAcquisition::ApiKey,
            credential_url: Some("https://platform.deepseek.com/api_keys"),
            docs_url: Some("https://api-docs.deepseek.com/"),
            guidance: "Create an API key in the DeepSeek platform console.",
        },
        ProviderKind::NvidiaNim => CredentialHelp {
            acquisition: CredentialAcquisition::ApiKey,
            credential_url: Some("https://build.nvidia.com/settings/api-keys"),
            docs_url: Some("https://build.nvidia.com/explore/discover"),
            guidance: "Create an NVIDIA NIM key in the NVIDIA build console.",
        },
        ProviderKind::Openai => CredentialHelp {
            acquisition: CredentialAcquisition::ApiKey,
            credential_url: Some("https://platform.openai.com/api-keys"),
            docs_url: Some("https://platform.openai.com/docs/api-reference"),
            guidance: "Create an OpenAI API key, or configure the credential for your compatible endpoint.",
        },
        ProviderKind::Atlascloud => CredentialHelp {
            acquisition: CredentialAcquisition::ApiKey,
            credential_url: Some("https://atlascloud.ai/docs/en/api-keys"),
            docs_url: Some("https://atlascloud.ai/docs/en/api-keys"),
            guidance: "Follow Atlas Cloud's API Keys guide to create a credential.",
        },
        ProviderKind::WanjieArk => CredentialHelp {
            acquisition: CredentialAcquisition::ApiKey,
            credential_url: Some("https://docs.wanjiedata.com/maas/maas-openapi-v1.html"),
            docs_url: Some("https://docs.wanjiedata.com/maas/maas-openapi-v1.html"),
            guidance: "Follow Wanjie MaaS's APIKEY guide to create a credential.",
        },
        ProviderKind::Volcengine => CredentialHelp {
            acquisition: CredentialAcquisition::ApiKey,
            credential_url: Some("https://console.volcengine.com/ark/apiKey"),
            docs_url: Some("https://www.volcengine.com/docs/82379/1541594"),
            guidance: "Create a Volcengine Ark API key in the Ark console.",
        },
        ProviderKind::Openrouter => CredentialHelp {
            acquisition: CredentialAcquisition::ApiKey,
            credential_url: Some("https://openrouter.ai/settings/keys"),
            docs_url: Some("https://openrouter.ai/docs/api/reference/authentication"),
            guidance: "Create an OpenRouter key from account settings.",
        },
        ProviderKind::Orcarouter => CredentialHelp {
            acquisition: CredentialAcquisition::ApiKey,
            credential_url: Some("https://www.orcarouter.ai"),
            docs_url: Some("https://www.orcarouter.ai"),
            guidance: "Create an OrcaRouter API key from the OrcaRouter dashboard.",
        },
        ProviderKind::XiaomiMimo => CredentialHelp {
            acquisition: CredentialAcquisition::ApiKey,
            credential_url: Some("https://platform.xiaomimimo.com/token-plan"),
            docs_url: Some("https://mimo.mi.com/docs/en-US/tokenplan/Token%20Plan/subscription"),
            guidance: "Create a Xiaomi MiMo Token Plan or pay-as-you-go key and keep its matching base URL.",
        },
        ProviderKind::Novita => CredentialHelp {
            acquisition: CredentialAcquisition::ApiKey,
            credential_url: Some("https://novita.ai/en/settings/key-management"),
            docs_url: Some("https://novita.ai/docs/guides/quickstart"),
            guidance: "Create a Novita key in account Key Management.",
        },
        ProviderKind::Fireworks => CredentialHelp {
            acquisition: CredentialAcquisition::ApiKey,
            credential_url: Some("https://fireworks.ai/api-keys"),
            docs_url: Some("https://docs.fireworks.ai/getting-started/quickstart"),
            guidance: "Create a Fireworks API key before configuring the provider.",
        },
        ProviderKind::Siliconflow => CredentialHelp {
            acquisition: CredentialAcquisition::ApiKey,
            credential_url: Some("https://cloud.siliconflow.com/account/ak"),
            docs_url: Some("https://docs.siliconflow.com/en/userguide/quickstart"),
            guidance: "Use the global SiliconFlow console for the global endpoint.",
        },
        ProviderKind::SiliconflowCN => CredentialHelp {
            acquisition: CredentialAcquisition::ApiKey,
            credential_url: Some("https://cloud.siliconflow.cn/account/ak"),
            docs_url: Some("https://docs.siliconflow.cn/en/userguide/quickstart"),
            guidance: "Use the China SiliconFlow console for the China endpoint.",
        },
        ProviderKind::Arcee => CredentialHelp {
            acquisition: CredentialAcquisition::ApiKey,
            credential_url: Some("https://docs.arcee.ai/other/create-your-first-api-key"),
            docs_url: Some("https://docs.arcee.ai/other/create-your-first-api-key"),
            guidance: "Follow Arcee's API key guide to create a credential.",
        },
        ProviderKind::Moonshot => CredentialHelp {
            acquisition: CredentialAcquisition::ApiKey,
            credential_url: Some("https://platform.kimi.ai/console/api-keys"),
            docs_url: Some("https://platform.kimi.ai/docs/overview"),
            guidance: "For Moonshot's default direct API route, sign in to Kimi API Platform and create and copy an API key. A configured Kimi Code route uses a separate membership-plan console and never imports Kimi CLI credentials; first-class Kimi OAuth is not available.",
        },
        ProviderKind::Sglang => CredentialHelp {
            acquisition: CredentialAcquisition::LocalOptional,
            credential_url: None,
            docs_url: Some("https://docs.sglang.ai/"),
            guidance: "Self-hosted SGLang is keyless by default; configure a key only if your server requires one.",
        },
        ProviderKind::Vllm => CredentialHelp {
            acquisition: CredentialAcquisition::LocalOptional,
            credential_url: None,
            docs_url: Some("https://docs.vllm.ai/en/stable/serving/openai_compatible_server/"),
            guidance: "Self-hosted vLLM is keyless by default; configure a key only if your server requires one.",
        },
        ProviderKind::Ollama => CredentialHelp {
            acquisition: CredentialAcquisition::LocalOptional,
            credential_url: None,
            docs_url: Some("https://docs.ollama.com/api"),
            guidance: "Local Ollama is keyless by default; configure a key only if your server requires one.",
        },
        ProviderKind::OllamaCloud => CredentialHelp {
            acquisition: CredentialAcquisition::ApiKey,
            credential_url: Some(OLLAMA_CLOUD_API_KEY_URL),
            docs_url: Some("https://docs.ollama.com/api/authentication"),
            guidance: "Ollama Cloud requires an API key. Save it for the ollama-cloud provider, set OLLAMA_CLOUD_API_KEY for Pi compatibility, or set Ollama's official OLLAMA_API_KEY.",
        },
        ProviderKind::Huggingface => CredentialHelp {
            acquisition: CredentialAcquisition::ApiKey,
            credential_url: Some("https://huggingface.co/settings/tokens"),
            docs_url: Some("https://huggingface.co/docs/hub/en/security-tokens"),
            guidance: "Create a scoped Hugging Face access token.",
        },
        ProviderKind::Modelscope => CredentialHelp {
            acquisition: CredentialAcquisition::ApiKey,
            credential_url: Some("https://modelscope.cn/my/settings/token"),
            docs_url: None,
            guidance: "Create an SDK token in ModelScope account settings.",
        },
        ProviderKind::Together => CredentialHelp {
            acquisition: CredentialAcquisition::ApiKey,
            credential_url: Some("https://api.together.ai/settings/api-keys"),
            docs_url: Some("https://docs.together.ai/docs/api-keys-authentication"),
            guidance: "Create a Together API key from account settings.",
        },
        ProviderKind::Qianfan => CredentialHelp {
            acquisition: CredentialAcquisition::ApiKey,
            credential_url: Some("https://console.bce.baidu.com/iam/#/iam/accesslist"),
            docs_url: Some("https://cloud.baidu.com/doc/qianfan/index.html"),
            guidance: "Create Baidu Qianfan credentials in the Baidu Cloud console.",
        },
        ProviderKind::OpenaiCodex => CredentialHelp {
            acquisition: CredentialAcquisition::OAuth,
            credential_url: None,
            docs_url: Some("https://developers.openai.com/codex/"),
            guidance: "Sign in with ChatGPT via `codewhale auth chatgpt` (subscription billing, Codewhale-owned tokens). The openai API-key route is a different billing owner. Codex CLI import remains an explicit alternative after `codex login` plus `codewhale auth external-consent`.",
        },
        ProviderKind::Anthropic => CredentialHelp {
            acquisition: CredentialAcquisition::ApiKey,
            credential_url: Some("https://console.anthropic.com/settings/keys"),
            docs_url: Some("https://docs.anthropic.com/en/api/overview"),
            guidance: "Create an Anthropic API key in the Anthropic Console.",
        },
        ProviderKind::Openmodel => CredentialHelp {
            acquisition: CredentialAcquisition::ApiKey,
            credential_url: Some("https://console.openmodel.ai/"),
            docs_url: Some("https://docs.openmodel.ai/en/docs/getting-started/authentication"),
            guidance: "Create an API key in the OpenModel console, then follow the authentication guide.",
        },
        ProviderKind::Zai => CredentialHelp {
            acquisition: CredentialAcquisition::ApiKey,
            credential_url: Some("https://z.ai/model-api"),
            docs_url: Some("https://docs.z.ai/api-reference/introduction"),
            guidance: "Create or manage a Z.ai API key from the Model API page.",
        },
        ProviderKind::Stepfun => CredentialHelp {
            acquisition: CredentialAcquisition::ApiKey,
            credential_url: Some("https://platform.stepfun.ai/"),
            docs_url: Some("https://platform.stepfun.ai/docs/en/quickstart/overview"),
            guidance: "Open Account Management, then Interface Keys, in the StepFun console.",
        },
        ProviderKind::Minimax
        | ProviderKind::MinimaxAnthropic => CredentialHelp {
            acquisition: CredentialAcquisition::ApiKey,
            credential_url: Some("https://platform.minimax.io/user-center/basic-information/interface-key"),
            docs_url: Some("https://platform.minimax.io/docs/api-reference/api-overview"),
            guidance: "Create a MiniMax API key or subscription-plan key in the user center.",
        },
        ProviderKind::Deepinfra => CredentialHelp {
            acquisition: CredentialAcquisition::ApiKey,
            credential_url: Some("https://deepinfra.com/dash/api_keys"),
            docs_url: Some("https://docs.deepinfra.com/quickstart"),
            guidance: "Create a DeepInfra API key from the dashboard.",
        },
        ProviderKind::Sakana => CredentialHelp {
            acquisition: CredentialAcquisition::ApiKey,
            credential_url: Some("https://console.sakana.ai/api-keys"),
            docs_url: Some("https://console.sakana.ai/get-started"),
            guidance: "Create a Sakana AI key in the console and copy it when shown.",
        },
        ProviderKind::LongCat => CredentialHelp {
            acquisition: CredentialAcquisition::ApiKey,
            credential_url: Some("https://longcat.chat/platform"),
            docs_url: Some("https://longcat.chat/platform"),
            guidance: "Sign up on the LongCat platform and create an API key.",
        },
        ProviderKind::OpencodeGo => CredentialHelp {
            acquisition: CredentialAcquisition::ApiKey,
            credential_url: Some("https://opencode.ai/zen/"),
            docs_url: Some("https://opencode.ai/docs/go/"),
            guidance: "Create or copy an OpenCode Go subscription key from OpenCode Zen.",
        },
        ProviderKind::OpencodeZen => CredentialHelp {
            acquisition: CredentialAcquisition::ApiKey,
            credential_url: Some("https://opencode.ai/zen/"),
            docs_url: Some("https://opencode.ai/docs/zen/"),
            guidance: "Optional: the Zen free tier works without a key. Create or copy an OpenCode Zen API key from OpenCode Zen to use paid models.",
        },
        ProviderKind::Meta => CredentialHelp {
            acquisition: CredentialAcquisition::ApiKey,
            credential_url: Some("https://developer.meta.com/ai/"),
            docs_url: Some("https://developer.meta.com/ai/resources/blog/build-with-muse-spark/"),
            guidance: "Use the Meta developer portal to obtain Model API access and a key.",
        },
        ProviderKind::Xai => CredentialHelp {
            acquisition: CredentialAcquisition::ApiKeyOrOAuth,
            credential_url: Some("https://console.x.ai/"),
            docs_url: None,
            guidance: "Use an xAI Console API key or Codewhale's native device login. Reading an existing Grok CLI file requires explicit provider-scoped read-only consent.",
        },
        ProviderKind::Mistral => CredentialHelp {
            acquisition: CredentialAcquisition::ApiKey,
            credential_url: Some("https://console.mistral.ai/api-keys"),
            docs_url: Some("https://docs.mistral.ai/"),
            guidance: "Create a Mistral API key in the Mistral Console (la Plateforme).",
        },
        ProviderKind::Telecomjs => CredentialHelp {
            acquisition: CredentialAcquisition::ApiKey,
            credential_url: Some("https://aigw.telecomjs.com/"),
            docs_url: None,
            guidance: "Create a TelecomJS TokenHub API key, then use the provider's live model catalog to discover the models available to that key.",
        },
        ProviderKind::Edenai => CredentialHelp {
            acquisition: CredentialAcquisition::ApiKey,
            credential_url: Some("https://app.edenai.run/settings/api-keys"),
            docs_url: Some("https://www.edenai.co/docs"),
            guidance: "Create an Eden AI API key from the Eden AI dashboard, then select models by their provider/model namespaced id.",
        },
        ProviderKind::Zenmux => CredentialHelp {
            acquisition: CredentialAcquisition::ApiKey,
            credential_url: Some("https://zenmux.ai/platform/pay-as-you-go"),
            docs_url: Some("https://zenmux.ai/docs/"),
            guidance: "Create a ZenMux API key from the Pay As You Go management page, then select models by their provider/model namespaced id. The catalog at https://zenmux.ai/api/v1/models is keyless-readable.",
        },
        ProviderKind::Csdn => CredentialHelp {
            acquisition: CredentialAcquisition::ApiKey,
            credential_url: Some("https://ai.csdn.net/workbench/api-key"),
            docs_url: Some("https://ai.csdn.net/coding-plan"),
            guidance: "Create an API key in the CSDN console — choose the Coding Plan key type so glm_for_coding calls bill against plan quota; a general key bills metered.",
        },
        ProviderKind::Codewhale => CredentialHelp {
            acquisition: CredentialAcquisition::ApiKey,
            credential_url: Some(CODEWHALE_API_KEY_URL),
            docs_url: Some("https://app.codewhale.net/settings?section=api"),
            guidance: "Create an API key with the models:infer scope at https://app.codewhale.net/settings?section=api",
        },
        ProviderKind::Concentrate => CredentialHelp {
            acquisition: CredentialAcquisition::ApiKey,
            credential_url: Some("https://concentrate.ai/"),
            docs_url: Some("https://concentrate.ai/docs/api-reference/introduction"),
            guidance: "Create a Universal API key in the Concentrate dashboard (API Keys → Create API Key). Codewhale sends it only to the Concentrate base URL and never stores or forwards it elsewhere.",
        },
        ProviderKind::ModelstudioTokenPlan
        | ProviderKind::ModelstudioTokenPlanAnthropic
        | ProviderKind::ModelstudioCodingPlan
        | ProviderKind::ModelstudioCodingPlanAnthropic => CredentialHelp {
            acquisition: CredentialAcquisition::ApiKey,
            credential_url: Some("https://bailian.console.aliyun.com/"),
            docs_url: Some("https://www.alibabacloud.com/help/en/model-studio/"),
            guidance: "Sign in to Alibaba Cloud Model Studio (Bailian console), create or copy an API key, and select the plan endpoint matching your subscription (Token Plan or Coding Plan).",
        },
        ProviderKind::Antigravity => CredentialHelp {
            acquisition: CredentialAcquisition::Configuration,
            credential_url: None,
            docs_url: None,
            guidance: "Legacy configuration only; this route is disabled. Run `codewhale auth clear --provider antigravity` to clear only Codewhale-owned legacy state, then use provider `google` with `GEMINI_API_KEY` for Gemini.",
        },
        ProviderKind::Google => CredentialHelp {
            acquisition: CredentialAcquisition::ApiKey,
            credential_url: Some("https://aistudio.google.com/apikey"),
            docs_url: Some("https://ai.google.dev/gemini-api/docs/openai"),
            guidance: "Create a Google AI Studio API key. Codewhale uses the official Gemini OpenAI-compatible endpoint and never reads Google OAuth files.",
        },
        ProviderKind::Custom => CredentialHelp {
            acquisition: CredentialAcquisition::Configuration,
            credential_url: None,
            docs_url: None,
            guidance: "Set this custom provider's base_url and api_key_env or api_key in configuration; no canonical vendor credential page exists.",
        },
    }
}

/// Return credential help for one concrete provider route.
///
/// This protects non-UI callers such as diagnostics and command surfaces from
/// presenting Moonshot's direct API console for a Kimi Code membership-plan
/// endpoint. It performs no discovery, credential lookup, or network I/O.
#[must_use]
pub fn credential_help_for_route(kind: ProviderKind, base_url: &str) -> (r: CredentialHelp)
    ensures
        r@ == route_help(kind, base_url@),
{
    if is_exact_ollama_cloud_route(kind, base_url) {
        return CredentialHelp {
            acquisition: CredentialAcquisition::ApiKey,
            credential_url: Some(OLLAMA_CLOUD_API_KEY_URL),
            docs_url: Some("https://docs.ollama.com/api/authentication"),
            guidance: "Ollama Cloud requires an API key. Create one in Ollama account settings, then save it for the ollama-cloud provider, set OLLAMA_CLOUD_API_KEY for Pi compatibility, or set Ollama's official OLLAMA_API_KEY.",
        };
    }
    if is_exact_kimi_code_route(kind, base_url) {
        return CredentialHelp {
            acquisition: CredentialAcquisition::ApiKey,
            credential_url: Some(KIMI_CODE_MEMBERSHIP_PLAN_CONSOLE_URL),
            docs_url: None,
            guidance: "Create a Kimi Code membership-plan API key in the Kimi Code console. This route uses api.kimi.com/coding/v1; Codewhale does not import Kimi CLI credentials.",
        };
    }
    credential_help(kind)
}

/// A credential link is given exactly for the providers that issue a key: a
/// local, OAuth-only or user-defined route is explained, never given a link.
pub proof fn credential_link_is_given_exactly_for_key_providers(kind: ProviderKind)
    ensures
        provider_help(kind).credential_url is Some <==> (provider_help(kind).acquisition
            == CredentialAcquisition::ApiKey || provider_help(kind).acquisition
            == CredentialAcquisition::ApiKeyOrOAuth),
{
}

/// The guidance of a provider is never blank.
pub proof fn guidance_is_never_blank(kind: ProviderKind)
    ensures
        trim(provider_help(kind).guidance).len() > 0,
{
    match kind {
        ProviderKind::Deepseek
        | ProviderKind::DeepseekAnthropic => {
            reveal_strlit(
                "Create an API key in the DeepSeek platform console.",
            );
        },
        ProviderKind::NvidiaNim => {
            reveal_strlit(
                "Create an NVIDIA NIM key in the NVIDIA build console.",
            );
        },
        ProviderKind::Openai => {
            reveal_strlit(
                "Create an OpenAI API key, or configure the credential for your compatible endpoint.",
            );
        },
        ProviderKind::Atlascloud => {
            reveal_strlit(
                "Follow Atlas Cloud's API Keys guide to create a credential.",
            );
        },
        ProviderKind::WanjieArk => {
            reveal_strlit(
                "Follow Wanjie MaaS's APIKEY guide to create a credential.",
            );
        },
        ProviderKind::Volcengine => {
            reveal_strlit(
                "Create a Volcengine Ark API key in the Ark console.",
            );
        },
        ProviderKind::Openrouter => {
            reveal_strlit(
                "Create an OpenRouter key from account settings.",
            );
        },
        ProviderKind::Orcarouter => {
            reveal_strlit(
                "Create an OrcaRouter API key from the OrcaRouter dashboard.",
            );
        },
        ProviderKind::XiaomiMimo => {
            reveal_strlit(
                "Create a Xiaomi MiMo Token Plan or pay-as-you-go key and keep its matching base URL.",
            );
        },
        ProviderKind::Novita => {
            reveal_strlit(
                "Create a Novita key in account Key Management.",
            );
        },
        ProviderKind::Fireworks => {
            reveal_strlit(
                "Create a Fireworks API key before configuring the provider.",
            );
        },
        ProviderKind::Siliconflow => {
            reveal_strlit(
                "Use the global SiliconFlow console for the global endpoint.",
            );
        },
        ProviderKind::SiliconflowCN => {
            reveal_strlit(
                "Use the China SiliconFlow console for the China endpoint.",
            );
        },
        ProviderKind::Arcee => {
            reveal_strlit(
                "Follow Arcee's API key guide to create a credential.",
            );
        },
        ProviderKind::Moonshot => {
            reveal_strlit(
                "For Moonshot's default direct API route, sign in to Kimi API Platform and create and copy an API key. A configured Kimi Code route uses a separate membership-plan console and never imports Kimi CLI credentials; first-class Kimi OAuth is not available.",
            );
        },
        ProviderKind::Sglang => {
            reveal_strlit(
                "Self-hosted SGLang is keyless by default; configure a key only if your server requires one.",
            );
        },
        ProviderKind::Vllm => {
            reveal_strlit(
                "Self-hosted vLLM is keyless by default; configure a key only if your server requires one.",
            );
        },
        ProviderKind::Ollama => {
            reveal_strlit(
                "Local Ollama is keyless by default; configure a key only if your server requires one.",
            );
        },
        ProviderKind::OllamaCloud => {
            reveal_strlit(
                "Ollama Cloud requires an API key. Save it for the ollama-cloud provider, set OLLAMA_CLOUD_API_KEY for Pi compatibility, or set Ollama's official OLLAMA_API_KEY.",
            );
        },
        ProviderKind::Huggingface => {
            reveal_strlit(
                "Create a scoped Hugging Face access token.",
            );
        },
        ProviderKind::Modelscope => {
            reveal_strlit(
                "Create an SDK token in ModelScope account settings.",
            );
        },
        ProviderKind::Together => {
            reveal_strlit(
                "Create a Together API key from account settings.",
            );
        },
        ProviderKind::Qianfan => {
            reveal_strlit(
                "Create Baidu Qianfan credentials in the Baidu Cloud console.",
            );
        },
        ProviderKind::OpenaiCodex => {
            reveal_strlit(
                "Sign in with ChatGPT via `codewhale auth chatgpt` (subscription billing, Codewhale-owned tokens). The openai API-key route is a different billing owner. Codex CLI import remains an explicit alternative after `codex login` plus `codewhale auth external-consent`.",
            );
        },
        ProviderKind::Anthropic => {
            reveal_strlit(
                "Create an Anthropic API key in the Anthropic Console.",
            );
        },
        ProviderKind::Openmodel => {
            reveal_strlit(
                "Create an API key in the OpenModel console, then follow the authentication guide.",
            );
        },
        ProviderKind::Zai => {
            reveal_strlit(
                "Create or manage a Z.ai API key from the Model API page.",
            );
        },
        ProviderKind::Stepfun => {
            reveal_strlit(
                "Open Account Management, then Interface Keys, in the StepFun console.",
            );
        },
        ProviderKind::Minimax
        | ProviderKind::MinimaxAnthropic => {
            reveal_strlit(
                "Create a MiniMax API key or subscription-plan key in the user center.",
            );
        },
        ProviderKind::Deepinfra => {
            reveal_strlit(
                "Create a DeepInfra API key from the dashboard.",
            );
        },
        ProviderKind::Sakana => {
            reveal_strlit(
                "Create a Sakana AI key in the console and copy it when shown.",
            );
        },
        ProviderKind::LongCat => {
            reveal_strlit(
                "Sign up on the LongCat platform and create an API key.",
            );
        },
        ProviderKind::OpencodeGo => {
            reveal_strlit(
                "Create or copy an OpenCode Go subscription key from OpenCode Zen.",
            );
        },
        ProviderKind::OpencodeZen => {
            reveal_strlit(
                "Optional: the Zen free tier works without a key. Create or copy an OpenCode Zen API key from OpenCode Zen to use paid models.",
            );
        },
        ProviderKind::Meta => {
            reveal_strlit(
                "Use the Meta developer portal to obtain Model API access and a key.",
            );
        },
        ProviderKind::Xai => {
            reveal_strlit(
                "Use an xAI Console API key or Codewhale's native device login. Reading an existing Grok CLI file requires explicit provider-scoped read-only consent.",
            );
        },
        ProviderKind::Mistral => {
            reveal_strlit(
                "Create a Mistral API key in the Mistral Console (la Plateforme).",
            );
        },
        ProviderKind::Telecomjs => {
            reveal_strlit(
                "Create a TelecomJS TokenHub API key, then use the provider's live model catalog to discover the models available to that key.",
            );
        },
        ProviderKind::Edenai => {
            reveal_strlit(
                "Create an Eden AI API key from the Eden AI dashboard, then select models by their provider/model namespaced id.",
            );
        },
        ProviderKind::Zenmux => {
            reveal_strlit(
                "Create a ZenMux API key from the Pay As You Go management page, then select models by their provider/model namespaced id. The catalog at https://zenmux.ai/api/v1/models is keyless-readable.",
            );
        },
        ProviderKind::Csdn => {
            reveal_strlit(
                "Create an API key in the CSDN console — choose the Coding Plan key type so glm_for_coding calls bill against plan quota; a general key bills metered.",
            );
        },
        ProviderKind::Codewhale => {
            reveal_strlit(
                "Create an API key with the models:infer scope at https://app.codewhale.net/settings?section=api",
            );
        },
        ProviderKind::Concentrate => {
            reveal_strlit(
                "Create a Universal API key in the Concentrate dashboard (API Keys → Create API Key). Codewhale sends it only to the Concentrate base URL and never stores or forwards it elsewhere.",
            );
        },
        ProviderKind::ModelstudioTokenPlan
        | ProviderKind::ModelstudioTokenPlanAnthropic
        | ProviderKind::ModelstudioCodingPlan
        | ProviderKind::ModelstudioCodingPlanAnthropic => {
            reveal_strlit(
                "Sign in to Alibaba Cloud Model Studio (Bailian console), create or copy an API key, and select the plan endpoint matching your subscription (Token Plan or Coding Plan).",
            );
        },
        ProviderKind::Antigravity => {
            reveal_strlit(
                "Legacy configuration only; this route is disabled. Run `codewhale auth clear --provider antigravity` to clear only Codewhale-owned legacy state, then use provider `google` with `GEMINI_API_KEY` for Gemini.",
            );
        },
        ProviderKind::Google => {
            reveal_strlit(
                "Create a Google AI Studio API key. Codewhale uses the official Gemini OpenAI-compatible endpoint and never reads Google OAuth files.",
            );
        },
        ProviderKind::Custom => {
            reveal_strlit(
                "Set this custom provider's base_url and api_key_env or api_key in configuration; no canonical vendor credential page exists.",
            );
        },
    }
    let guidance = provider_help(kind).guidance;
    assert(guidance.len() > 0 && !is_white_space(guidance[0]));
    lemma_trim_not_blank(guidance);
}

/// The help of a route is that of its provider, except on the two exact routes
/// whose keys come from elsewhere. There it asks for a key of that route, and
/// links to the console of that route.
pub proof fn route_help_differs_only_on_exact_routes(kind: ProviderKind, base_url: Seq<char>)
    ensures
        !exact_ollama_cloud_route(kind, base_url) && !exact_kimi_code_route(kind, base_url)
            ==> route_help(kind, base_url) == provider_help(kind),
        exact_ollama_cloud_route(kind, base_url) ==> route_help(kind, base_url).acquisition
            == CredentialAcquisition::ApiKey && route_help(kind, base_url).credential_url == Some(
            OLLAMA_CLOUD_API_KEY_URL@,
        ),
        exact_kimi_code_route(kind, base_url) ==> route_help(kind, base_url).acquisition
            == CredentialAcquisition::ApiKey && route_help(kind, base_url).credential_url == Some(
            KIMI_CODE_MEMBERSHIP_PLAN_CONSOLE_URL@,
        ),
{
}

} // verus!
