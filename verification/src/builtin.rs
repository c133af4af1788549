//! The built-in provider entries: one zero-sized type per provider.

use vstd::prelude::*;
use crate::provider::Provider;
use crate::provider_kind::ProviderKind;
use crate::wire::{WireFormat, WirePolicy};

verus! {

/// Official DeepSeek route.
///
/// DeepSeek-V4-Flash-0731 is served over the Responses API while V4 Pro
/// remains on Chat Completions until DeepSeek enables Responses support for
/// it. The provider is model-aware, so selecting Flash changes the actual wire
/// contract instead of only changing the `model` string.
///
/// Every alternate name is accepted with the spelling listed here alone. In
/// particular `deepseek_claude` is accepted with its underscore, and not with a
/// hyphen in its place, as the names beside it are.
pub struct Deepseek;

impl Provider for Deepseek {
    open spec fn spec_kind(&self) -> ProviderKind {
        ProviderKind::Deepseek
    }

    fn kind(&self) -> ProviderKind {
        ProviderKind::Deepseek
    }

    fn id(&self) -> &'static str {
        "deepseek"
    }

    fn display_name(&self) -> &'static str {
        "DeepSeek"
    }

    fn env_vars(&self) -> &'static [&'static str] {
        &["DEEPSEEK_API_KEY"]
    }

    fn provider_config_key(&self) -> &'static str {
        "deepseek"
    }

    fn aliases(&self) -> &'static [&'static str] {
        &[
            "deep-seek",
            "deepseek-cn",
            "deepseek_china",
            "deepseekcn",
            "deepseek-china",
            "deepseek-anthropic",
            "deepseek_anthropic",
            "deepseek_claude",
        ]
    }

    fn wire_policy(&self) -> WirePolicy {
        WirePolicy::ModelAware
    }
}

/// Opt-in DeepSeek route that speaks the Anthropic Messages wire protocol.
///
/// A legacy kind: names and catalogs collapse onto [`Deepseek`].
pub struct DeepseekAnthropic;

impl Provider for DeepseekAnthropic {
    open spec fn spec_kind(&self) -> ProviderKind {
        ProviderKind::DeepseekAnthropic
    }

    fn kind(&self) -> ProviderKind {
        ProviderKind::DeepseekAnthropic
    }

    fn id(&self) -> &'static str {
        "deepseek-anthropic"
    }

    fn display_name(&self) -> &'static str {
        "DeepSeek"
    }

    fn env_vars(&self) -> &'static [&'static str] {
        &["DEEPSEEK_API_KEY"]
    }

    fn provider_config_key(&self) -> &'static str {
        "deepseek_anthropic"
    }

    fn aliases(&self) -> &'static [&'static str] {
        &[]
    }

    fn wire_policy(&self) -> WirePolicy {
        WirePolicy::Fixed(WireFormat::AnthropicMessages)
    }
}

/// NVIDIA NIM.
pub struct NvidiaNim;

impl Provider for NvidiaNim {
    open spec fn spec_kind(&self) -> ProviderKind {
        ProviderKind::NvidiaNim
    }

    fn kind(&self) -> ProviderKind {
        ProviderKind::NvidiaNim
    }

    fn id(&self) -> &'static str {
        "nvidia-nim"
    }

    fn display_name(&self) -> &'static str {
        "NVIDIA NIM"
    }

    fn env_vars(&self) -> &'static [&'static str] {
        &["NVIDIA_API_KEY", "NVIDIA_NIM_API_KEY"]
    }

    fn provider_config_key(&self) -> &'static str {
        "nvidia_nim"
    }

    fn aliases(&self) -> &'static [&'static str] {
        &["nvidia", "nvidia_nim", "nim"]
    }

    fn wire_policy(&self) -> WirePolicy {
        WirePolicy::Fixed(WireFormat::ChatCompletions)
    }
}

/// OpenAI-compatible.
pub struct Openai;

impl Provider for Openai {
    open spec fn spec_kind(&self) -> ProviderKind {
        ProviderKind::Openai
    }

    fn kind(&self) -> ProviderKind {
        ProviderKind::Openai
    }

    fn id(&self) -> &'static str {
        "openai"
    }

    fn display_name(&self) -> &'static str {
        "OpenAI-compatible"
    }

    fn env_vars(&self) -> &'static [&'static str] {
        &["OPENAI_API_KEY"]
    }

    fn provider_config_key(&self) -> &'static str {
        "openai"
    }

    fn aliases(&self) -> &'static [&'static str] {
        &["open-ai"]
    }

    fn wire_policy(&self) -> WirePolicy {
        WirePolicy::Fixed(WireFormat::ChatCompletions)
    }
}

/// AtlasCloud.
pub struct Atlascloud;

impl Provider for Atlascloud {
    open spec fn spec_kind(&self) -> ProviderKind {
        ProviderKind::Atlascloud
    }

    fn kind(&self) -> ProviderKind {
        ProviderKind::Atlascloud
    }

    fn id(&self) -> &'static str {
        "atlascloud"
    }

    fn display_name(&self) -> &'static str {
        "AtlasCloud"
    }

    fn env_vars(&self) -> &'static [&'static str] {
        &["ATLASCLOUD_API_KEY"]
    }

    fn provider_config_key(&self) -> &'static str {
        "atlascloud"
    }

    fn aliases(&self) -> &'static [&'static str] {
        &["atlas-cloud", "atlas_cloud", "atlas"]
    }

    fn wire_policy(&self) -> WirePolicy {
        WirePolicy::Fixed(WireFormat::ChatCompletions)
    }
}

/// Wanjie Ark.
pub struct WanjieArk;

impl Provider for WanjieArk {
    open spec fn spec_kind(&self) -> ProviderKind {
        ProviderKind::WanjieArk
    }

    fn kind(&self) -> ProviderKind {
        ProviderKind::WanjieArk
    }

    fn id(&self) -> &'static str {
        "wanjie-ark"
    }

    fn display_name(&self) -> &'static str {
        "Wanjie Ark"
    }

    fn env_vars(&self) -> &'static [&'static str] {
        &["WANJIE_ARK_API_KEY", "WANJIE_API_KEY", "WANJIE_MAAS_API_KEY"]
    }

    fn provider_config_key(&self) -> &'static str {
        "wanjie_ark"
    }

    fn aliases(&self) -> &'static [&'static str] {
        &[
            "wanjie",
            "wanjie_ark",
            "ark-wanjie",
            "ark_wanjie",
            "wanjieark",
            "wanjie-maas",
            "wanjie_maas",
            "wanjiemaas",
        ]
    }

    fn wire_policy(&self) -> WirePolicy {
        WirePolicy::Fixed(WireFormat::ChatCompletions)
    }
}

/// Volcengine Ark.
pub struct Volcengine;

impl Provider for Volcengine {
    open spec fn spec_kind(&self) -> ProviderKind {
        ProviderKind::Volcengine
    }

    fn kind(&self) -> ProviderKind {
        ProviderKind::Volcengine
    }

    fn id(&self) -> &'static str {
        "volcengine"
    }

    fn display_name(&self) -> &'static str {
        "Volcengine Ark"
    }

    fn env_vars(&self) -> &'static [&'static str] {
        &["VOLCENGINE_API_KEY", "VOLCENGINE_ARK_API_KEY", "ARK_API_KEY"]
    }

    fn provider_config_key(&self) -> &'static str {
        "volcengine"
    }

    fn aliases(&self) -> &'static [&'static str] {
        &["volcengine-ark", "volcengine_ark", "ark", "volc-ark", "volcengineark"]
    }

    fn wire_policy(&self) -> WirePolicy {
        WirePolicy::Fixed(WireFormat::ChatCompletions)
    }
}

/// OpenRouter.
pub struct Openrouter;

impl Provider for Openrouter {
    open spec fn spec_kind(&self) -> ProviderKind {
        ProviderKind::Openrouter
    }

    fn kind(&self) -> ProviderKind {
        ProviderKind::Openrouter
    }

    fn id(&self) -> &'static str {
        "openrouter"
    }

    fn display_name(&self) -> &'static str {
        "OpenRouter"
    }

    fn env_vars(&self) -> &'static [&'static str] {
        &["OPENROUTER_API_KEY"]
    }

    fn provider_config_key(&self) -> &'static str {
        "openrouter"
    }

    fn aliases(&self) -> &'static [&'static str] {
        &["open_router"]
    }

    fn wire_policy(&self) -> WirePolicy {
        WirePolicy::Fixed(WireFormat::ChatCompletions)
    }
}

/// OrcaRouter.
pub struct Orcarouter;

impl Provider for Orcarouter {
    open spec fn spec_kind(&self) -> ProviderKind {
        ProviderKind::Orcarouter
    }

    fn kind(&self) -> ProviderKind {
        ProviderKind::Orcarouter
    }

    fn id(&self) -> &'static str {
        "orcarouter"
    }

    fn display_name(&self) -> &'static str {
        "OrcaRouter"
    }

    fn env_vars(&self) -> &'static [&'static str] {
        &["ORCAROUTER_API_KEY"]
    }

    fn provider_config_key(&self) -> &'static str {
        "orcarouter"
    }

    fn aliases(&self) -> &'static [&'static str] {
        &["orca_router"]
    }

    fn wire_policy(&self) -> WirePolicy {
        WirePolicy::Fixed(WireFormat::ChatCompletions)
    }
}

/// Xiaomi MiMo.
pub struct XiaomiMimo;

impl Provider for XiaomiMimo {
    open spec fn spec_kind(&self) -> ProviderKind {
        ProviderKind::XiaomiMimo
    }

    fn kind(&self) -> ProviderKind {
        ProviderKind::XiaomiMimo
    }

    fn id(&self) -> &'static str {
        "xiaomi-mimo"
    }

    fn display_name(&self) -> &'static str {
        "Xiaomi MiMo"
    }

    fn env_vars(&self) -> &'static [&'static str] {
        &[
            "XIAOMI_MIMO_TOKEN_PLAN_API_KEY",
            "MIMO_TOKEN_PLAN_API_KEY",
            "XIAOMI_MIMO_API_KEY",
            "XIAOMI_API_KEY",
            "MIMO_API_KEY",
        ]
    }

    fn provider_config_key(&self) -> &'static str {
        "xiaomi_mimo"
    }

    fn aliases(&self) -> &'static [&'static str] {
        &["xiaomi_mimo", "xiaomimimo", "mimo", "xiaomi"]
    }

    fn wire_policy(&self) -> WirePolicy {
        WirePolicy::Fixed(WireFormat::ChatCompletions)
    }
}

/// Novita AI.
pub struct Novita;

impl Provider for Novita {
    open spec fn spec_kind(&self) -> ProviderKind {
        ProviderKind::Novita
    }

    fn kind(&self) -> ProviderKind {
        ProviderKind::Novita
    }

    fn id(&self) -> &'static str {
        "novita"
    }

    fn display_name(&self) -> &'static str {
        "Novita AI"
    }

    fn env_vars(&self) -> &'static [&'static str] {
        &["NOVITA_API_KEY"]
    }

    fn provider_config_key(&self) -> &'static str {
        "novita"
    }

    fn aliases(&self) -> &'static [&'static str] {
        &["novita-ai", "novita_ai"]
    }

    fn wire_policy(&self) -> WirePolicy {
        WirePolicy::Fixed(WireFormat::ChatCompletions)
    }
}

/// Fireworks AI.
pub struct Fireworks;

impl Provider for Fireworks {
    open spec fn spec_kind(&self) -> ProviderKind {
        ProviderKind::Fireworks
    }

    fn kind(&self) -> ProviderKind {
        ProviderKind::Fireworks
    }

    fn id(&self) -> &'static str {
        "fireworks"
    }

    fn display_name(&self) -> &'static str {
        "Fireworks AI"
    }

    fn env_vars(&self) -> &'static [&'static str] {
        &["FIREWORKS_API_KEY"]
    }

    fn provider_config_key(&self) -> &'static str {
        "fireworks"
    }

    fn aliases(&self) -> &'static [&'static str] {
        &["fireworks-ai"]
    }

    fn wire_policy(&self) -> WirePolicy {
        WirePolicy::Fixed(WireFormat::ChatCompletions)
    }
}

/// SiliconFlow.
pub struct Siliconflow;

impl Provider for Siliconflow {
    open spec fn spec_kind(&self) -> ProviderKind {
        ProviderKind::Siliconflow
    }

    fn kind(&self) -> ProviderKind {
        ProviderKind::Siliconflow
    }

    fn id(&self) -> &'static str {
        "siliconflow"
    }

    fn display_name(&self) -> &'static str {
        "SiliconFlow"
    }

    fn env_vars(&self) -> &'static [&'static str] {
        &["SILICONFLOW_API_KEY"]
    }

    fn provider_config_key(&self) -> &'static str {
        "siliconflow"
    }

    fn aliases(&self) -> &'static [&'static str] {
        &["silicon-flow", "silicon_flow"]
    }

    fn wire_policy(&self) -> WirePolicy {
        WirePolicy::Fixed(WireFormat::ChatCompletions)
    }
}

/// SiliconFlow (China).
pub struct SiliconflowCN;

impl Provider for SiliconflowCN {
    open spec fn spec_kind(&self) -> ProviderKind {
        ProviderKind::SiliconflowCN
    }

    fn kind(&self) -> ProviderKind {
        ProviderKind::SiliconflowCN
    }

    fn id(&self) -> &'static str {
        "siliconflow-CN"
    }

    fn display_name(&self) -> &'static str {
        "SiliconFlow (China)"
    }

    fn env_vars(&self) -> &'static [&'static str] {
        &["SILICONFLOW_API_KEY"]
    }

    fn provider_config_key(&self) -> &'static str {
        "siliconflow_cn"
    }

    fn aliases(&self) -> &'static [&'static str] {
        &[
            "silicon-flow-cn",
            "silicon-flow-CN",
            "silicon_flow_cn",
            "silicon_flow_CN",
            "siliconflow-china",
        ]
    }

    fn wire_policy(&self) -> WirePolicy {
        WirePolicy::Fixed(WireFormat::ChatCompletions)
    }
}

/// Arcee AI.
pub struct Arcee;

impl Provider for Arcee {
    open spec fn spec_kind(&self) -> ProviderKind {
        ProviderKind::Arcee
    }

    fn kind(&self) -> ProviderKind {
        ProviderKind::Arcee
    }

    fn id(&self) -> &'static str {
        "arcee"
    }

    fn display_name(&self) -> &'static str {
        "Arcee AI"
    }

    fn env_vars(&self) -> &'static [&'static str] {
        &["ARCEE_API_KEY"]
    }

    fn provider_config_key(&self) -> &'static str {
        "arcee"
    }

    fn aliases(&self) -> &'static [&'static str] {
        &["arcee-ai", "arcee_ai"]
    }

    fn wire_policy(&self) -> WirePolicy {
        WirePolicy::Fixed(WireFormat::ChatCompletions)
    }
}

/// Moonshot/Kimi.
pub struct Moonshot;

impl Provider for Moonshot {
    open spec fn spec_kind(&self) -> ProviderKind {
        ProviderKind::Moonshot
    }

    fn kind(&self) -> ProviderKind {
        ProviderKind::Moonshot
    }

    fn id(&self) -> &'static str {
        "moonshot"
    }

    fn display_name(&self) -> &'static str {
        "Moonshot/Kimi"
    }

    fn env_vars(&self) -> &'static [&'static str] {
        &["MOONSHOT_API_KEY", "KIMI_API_KEY"]
    }

    fn provider_config_key(&self) -> &'static str {
        "moonshot"
    }

    fn aliases(&self) -> &'static [&'static str] {
        &["moonshot-ai", "moonshotai", "moonshot_ai", "kimi", "kimi-k2"]
    }

    fn wire_policy(&self) -> WirePolicy {
        WirePolicy::Fixed(WireFormat::ChatCompletions)
    }
}

/// SGLang.
pub struct Sglang;

impl Provider for Sglang {
    open spec fn spec_kind(&self) -> ProviderKind {
        ProviderKind::Sglang
    }

    fn kind(&self) -> ProviderKind {
        ProviderKind::Sglang
    }

    fn id(&self) -> &'static str {
        "sglang"
    }

    fn display_name(&self) -> &'static str {
        "SGLang"
    }

    fn env_vars(&self) -> &'static [&'static str] {
        &["SGLANG_API_KEY"]
    }

    fn provider_config_key(&self) -> &'static str {
        "sglang"
    }

    fn aliases(&self) -> &'static [&'static str] {
        &["sg-lang"]
    }

    fn wire_policy(&self) -> WirePolicy {
        WirePolicy::Fixed(WireFormat::ChatCompletions)
    }
}

/// vLLM.
pub struct Vllm;

impl Provider for Vllm {
    open spec fn spec_kind(&self) -> ProviderKind {
        ProviderKind::Vllm
    }

    fn kind(&self) -> ProviderKind {
        ProviderKind::Vllm
    }

    fn id(&self) -> &'static str {
        "vllm"
    }

    fn display_name(&self) -> &'static str {
        "vLLM"
    }

    fn env_vars(&self) -> &'static [&'static str] {
        &["VLLM_API_KEY"]
    }

    fn provider_config_key(&self) -> &'static str {
        "vllm"
    }

    fn aliases(&self) -> &'static [&'static str] {
        &["v-llm"]
    }

    fn wire_policy(&self) -> WirePolicy {
        WirePolicy::Fixed(WireFormat::ChatCompletions)
    }
}

/// Ollama.
pub struct Ollama;

impl Provider for Ollama {
    open spec fn spec_kind(&self) -> ProviderKind {
        ProviderKind::Ollama
    }

    fn kind(&self) -> ProviderKind {
        ProviderKind::Ollama
    }

    fn id(&self) -> &'static str {
        "ollama"
    }

    fn display_name(&self) -> &'static str {
        "Ollama"
    }

    fn env_vars(&self) -> &'static [&'static str] {
        &["OLLAMA_API_KEY"]
    }

    fn provider_config_key(&self) -> &'static str {
        "ollama"
    }

    fn aliases(&self) -> &'static [&'static str] {
        &["ollama-local"]
    }

    fn wire_policy(&self) -> WirePolicy {
        WirePolicy::Fixed(WireFormat::ChatCompletions)
    }
}

/// Ollama Cloud.
pub struct OllamaCloud;

impl Provider for OllamaCloud {
    open spec fn spec_kind(&self) -> ProviderKind {
        ProviderKind::OllamaCloud
    }

    fn kind(&self) -> ProviderKind {
        ProviderKind::OllamaCloud
    }

    fn id(&self) -> &'static str {
        "ollama-cloud"
    }

    fn display_name(&self) -> &'static str {
        "Ollama Cloud"
    }

    fn env_vars(&self) -> &'static [&'static str] {
        &["OLLAMA_CLOUD_API_KEY", "OLLAMA_API_KEY"]
    }

    fn provider_config_key(&self) -> &'static str {
        "ollama_cloud"
    }

    fn aliases(&self) -> &'static [&'static str] {
        &["ollama_cloud"]
    }

    fn wire_policy(&self) -> WirePolicy {
        WirePolicy::Fixed(WireFormat::ChatCompletions)
    }
}

/// Hugging Face.
pub struct Huggingface;

impl Provider for Huggingface {
    open spec fn spec_kind(&self) -> ProviderKind {
        ProviderKind::Huggingface
    }

    fn kind(&self) -> ProviderKind {
        ProviderKind::Huggingface
    }

    fn id(&self) -> &'static str {
        "huggingface"
    }

    fn display_name(&self) -> &'static str {
        "Hugging Face"
    }

    fn env_vars(&self) -> &'static [&'static str] {
        &["HUGGINGFACE_API_KEY", "HF_TOKEN"]
    }

    fn provider_config_key(&self) -> &'static str {
        "huggingface"
    }

    fn aliases(&self) -> &'static [&'static str] {
        &["hugging-face", "hugging_face", "hf"]
    }

    fn wire_policy(&self) -> WirePolicy {
        WirePolicy::Fixed(WireFormat::ChatCompletions)
    }
}

/// ModelScope.
pub struct Modelscope;

impl Provider for Modelscope {
    open spec fn spec_kind(&self) -> ProviderKind {
        ProviderKind::Modelscope
    }

    fn kind(&self) -> ProviderKind {
        ProviderKind::Modelscope
    }

    fn id(&self) -> &'static str {
        "modelscope"
    }

    fn display_name(&self) -> &'static str {
        "ModelScope"
    }

    fn env_vars(&self) -> &'static [&'static str] {
        &["MODELSCOPE_API_KEY"]
    }

    fn provider_config_key(&self) -> &'static str {
        "modelscope"
    }

    fn aliases(&self) -> &'static [&'static str] {
        &["model-scope", "model_scope", "modelscope-cn", "modelscope_cn"]
    }

    fn wire_policy(&self) -> WirePolicy {
        WirePolicy::Fixed(WireFormat::ChatCompletions)
    }
}

/// Together AI.
pub struct Together;

impl Provider for Together {
    open spec fn spec_kind(&self) -> ProviderKind {
        ProviderKind::Together
    }

    fn kind(&self) -> ProviderKind {
        ProviderKind::Together
    }

    fn id(&self) -> &'static str {
        "together"
    }

    fn display_name(&self) -> &'static str {
        "Together AI"
    }

    fn env_vars(&self) -> &'static [&'static str] {
        &["TOGETHER_API_KEY"]
    }

    fn provider_config_key(&self) -> &'static str {
        "together"
    }

    fn aliases(&self) -> &'static [&'static str] {
        &["together-ai", "together_ai", "togetherai"]
    }

    fn wire_policy(&self) -> WirePolicy {
        WirePolicy::Fixed(WireFormat::ChatCompletions)
    }
}

/// Baidu Qianfan.
pub struct Qianfan;

impl Provider for Qianfan {
    open spec fn spec_kind(&self) -> ProviderKind {
        ProviderKind::Qianfan
    }

    fn kind(&self) -> ProviderKind {
        ProviderKind::Qianfan
    }

    fn id(&self) -> &'static str {
        "qianfan"
    }

    fn display_name(&self) -> &'static str {
        "Baidu Qianfan"
    }

    fn env_vars(&self) -> &'static [&'static str] {
        &["QIANFAN_API_KEY", "BAIDU_QIANFAN_API_KEY"]
    }

    fn provider_config_key(&self) -> &'static str {
        "qianfan"
    }

    fn aliases(&self) -> &'static [&'static str] {
        &["baidu-qianfan", "baidu_qianfan", "baidu"]
    }

    fn wire_policy(&self) -> WirePolicy {
        WirePolicy::Fixed(WireFormat::ChatCompletions)
    }
}

/// Mistral AI.
pub struct Mistral;

impl Provider for Mistral {
    open spec fn spec_kind(&self) -> ProviderKind {
        ProviderKind::Mistral
    }

    fn kind(&self) -> ProviderKind {
        ProviderKind::Mistral
    }

    fn id(&self) -> &'static str {
        "mistral"
    }

    fn display_name(&self) -> &'static str {
        "Mistral AI"
    }

    fn env_vars(&self) -> &'static [&'static str] {
        &["MISTRAL_API_KEY"]
    }

    fn provider_config_key(&self) -> &'static str {
        "mistral"
    }

    fn aliases(&self) -> &'static [&'static str] {
        &["mistral-ai", "mistral_ai", "mistralai", "la-plateforme", "la_plateforme"]
    }

    fn wire_policy(&self) -> WirePolicy {
        WirePolicy::Fixed(WireFormat::ChatCompletions)
    }
}

/// Antigravity (legacy, disabled).
pub struct Antigravity;

impl Provider for Antigravity {
    open spec fn spec_kind(&self) -> ProviderKind {
        ProviderKind::Antigravity
    }

    fn kind(&self) -> ProviderKind {
        ProviderKind::Antigravity
    }

    fn id(&self) -> &'static str {
        "antigravity"
    }

    fn display_name(&self) -> &'static str {
        "Antigravity (legacy, disabled)"
    }

    fn env_vars(&self) -> &'static [&'static str] {
        &[]
    }

    fn provider_config_key(&self) -> &'static str {
        "antigravity"
    }

    fn aliases(&self) -> &'static [&'static str] {
        &["agy"]
    }

    fn wire_policy(&self) -> WirePolicy {
        WirePolicy::Fixed(WireFormat::ChatCompletions)
    }
}

/// Google Gemini.
pub struct Google;

impl Provider for Google {
    open spec fn spec_kind(&self) -> ProviderKind {
        ProviderKind::Google
    }

    fn kind(&self) -> ProviderKind {
        ProviderKind::Google
    }

    fn id(&self) -> &'static str {
        "google"
    }

    fn display_name(&self) -> &'static str {
        "Google Gemini"
    }

    fn env_vars(&self) -> &'static [&'static str] {
        &["GOOGLE_API_KEY", "GEMINI_API_KEY"]
    }

    fn provider_config_key(&self) -> &'static str {
        "google"
    }

    fn aliases(&self) -> &'static [&'static str] {
        &[
            "google-gemini",
            "google_gemini",
            "gemini",
            "google-ai",
            "google_ai",
            "ai-studio",
            "aistudio",
        ]
    }

    fn wire_policy(&self) -> WirePolicy {
        WirePolicy::Fixed(WireFormat::ChatCompletions)
    }
}

/// OpenAI Codex / ChatGPT OAuth provider using the Responses API.
pub struct OpenaiCodex;

impl Provider for OpenaiCodex {
    open spec fn spec_kind(&self) -> ProviderKind {
        ProviderKind::OpenaiCodex
    }

    fn kind(&self) -> ProviderKind {
        ProviderKind::OpenaiCodex
    }

    fn id(&self) -> &'static str {
        "openai-codex"
    }

    fn display_name(&self) -> &'static str {
        "OpenAI Codex (ChatGPT)"
    }

    fn env_vars(&self) -> &'static [&'static str] {
        &["OPENAI_CODEX_ACCESS_TOKEN", "CODEX_ACCESS_TOKEN"]
    }

    fn provider_config_key(&self) -> &'static str {
        "openai_codex"
    }

    fn aliases(&self) -> &'static [&'static str] {
        &[
            "openai_codex",
            "openaicodex",
            "codex",
            "chatgpt",
            "chatgpt-codex",
            "chatgpt_codex",
            "chatgptcodex",
        ]
    }

    fn wire_policy(&self) -> WirePolicy {
        WirePolicy::Fixed(WireFormat::Responses)
    }
}

/// Native Anthropic Messages API provider.
pub struct Anthropic;

impl Provider for Anthropic {
    open spec fn spec_kind(&self) -> ProviderKind {
        ProviderKind::Anthropic
    }

    fn kind(&self) -> ProviderKind {
        ProviderKind::Anthropic
    }

    fn id(&self) -> &'static str {
        "anthropic"
    }

    fn display_name(&self) -> &'static str {
        "Anthropic"
    }

    fn env_vars(&self) -> &'static [&'static str] {
        &["ANTHROPIC_API_KEY"]
    }

    fn provider_config_key(&self) -> &'static str {
        "anthropic"
    }

    fn aliases(&self) -> &'static [&'static str] {
        &[]
    }

    fn wire_policy(&self) -> WirePolicy {
        WirePolicy::Fixed(WireFormat::AnthropicMessages)
    }
}

/// OpenModel Anthropic-compatible Messages API provider.
pub struct Openmodel;

impl Provider for Openmodel {
    open spec fn spec_kind(&self) -> ProviderKind {
        ProviderKind::Openmodel
    }

    fn kind(&self) -> ProviderKind {
        ProviderKind::Openmodel
    }

    fn id(&self) -> &'static str {
        "openmodel"
    }

    fn display_name(&self) -> &'static str {
        "OpenModel"
    }

    fn env_vars(&self) -> &'static [&'static str] {
        &["OPENMODEL_API_KEY"]
    }

    fn provider_config_key(&self) -> &'static str {
        "openmodel"
    }

    fn aliases(&self) -> &'static [&'static str] {
        &["open-model", "open_model"]
    }

    fn wire_policy(&self) -> WirePolicy {
        WirePolicy::Fixed(WireFormat::AnthropicMessages)
    }
}

/// Zhipu AI / Z.ai.
pub struct Zai;

impl Provider for Zai {
    open spec fn spec_kind(&self) -> ProviderKind {
        ProviderKind::Zai
    }

    fn kind(&self) -> ProviderKind {
        ProviderKind::Zai
    }

    fn id(&self) -> &'static str {
        "zai"
    }

    fn display_name(&self) -> &'static str {
        "Zhipu AI / Z.ai"
    }

    fn env_vars(&self) -> &'static [&'static str] {
        &["ZAI_API_KEY", "Z_AI_API_KEY", "ZHIPU_API_KEY", "GLM_API_KEY"]
    }

    fn provider_config_key(&self) -> &'static str {
        "zai"
    }

    fn aliases(&self) -> &'static [&'static str] {
        &["z-ai", "z_ai", "z.ai", "zhipu", "zhipuai", "bigmodel", "big-model"]
    }

    fn wire_policy(&self) -> WirePolicy {
        WirePolicy::Fixed(WireFormat::ChatCompletions)
    }
}

/// StepFun / StepFlash.
pub struct Stepfun;

impl Provider for Stepfun {
    open spec fn spec_kind(&self) -> ProviderKind {
        ProviderKind::Stepfun
    }

    fn kind(&self) -> ProviderKind {
        ProviderKind::Stepfun
    }

    fn id(&self) -> &'static str {
        "stepfun"
    }

    fn display_name(&self) -> &'static str {
        "StepFun / StepFlash"
    }

    fn env_vars(&self) -> &'static [&'static str] {
        &["STEPFUN_API_KEY", "STEP_API_KEY"]
    }

    fn provider_config_key(&self) -> &'static str {
        "stepfun"
    }

    fn aliases(&self) -> &'static [&'static str] {
        &["step-fun", "step_fun", "stepflash", "step-flash", "step_flash"]
    }

    fn wire_policy(&self) -> WirePolicy {
        WirePolicy::Fixed(WireFormat::ChatCompletions)
    }
}

/// MiniMax.
pub struct Minimax;

impl Provider for Minimax {
    open spec fn spec_kind(&self) -> ProviderKind {
        ProviderKind::Minimax
    }

    fn kind(&self) -> ProviderKind {
        ProviderKind::Minimax
    }

    fn id(&self) -> &'static str {
        "minimax"
    }

    fn display_name(&self) -> &'static str {
        "MiniMax"
    }

    fn env_vars(&self) -> &'static [&'static str] {
        &["MINIMAX_API_KEY"]
    }

    fn provider_config_key(&self) -> &'static str {
        "minimax"
    }

    fn aliases(&self) -> &'static [&'static str] {
        &[
            "mini-max",
            "mini_max",
            "minimax-anthropic",
            "minimax_anthropic",
            "mini-max-anthropic",
            "mini_max_anthropic",
        ]
    }

    fn wire_policy(&self) -> WirePolicy {
        WirePolicy::Fixed(WireFormat::ChatCompletions)
    }
}

/// MiniMax route that speaks the Anthropic Messages wire protocol.
pub struct MinimaxAnthropic;

impl Provider for MinimaxAnthropic {
    open spec fn spec_kind(&self) -> ProviderKind {
        ProviderKind::MinimaxAnthropic
    }

    fn kind(&self) -> ProviderKind {
        ProviderKind::MinimaxAnthropic
    }

    fn id(&self) -> &'static str {
        "minimax-anthropic"
    }

    fn display_name(&self) -> &'static str {
        "MiniMax"
    }

    fn env_vars(&self) -> &'static [&'static str] {
        &["MINIMAX_API_KEY"]
    }

    fn provider_config_key(&self) -> &'static str {
        "minimax_anthropic"
    }

    fn aliases(&self) -> &'static [&'static str] {
        &[]
    }

    fn wire_policy(&self) -> WirePolicy {
        WirePolicy::Fixed(WireFormat::AnthropicMessages)
    }
}

/// DeepInfra.
pub struct Deepinfra;

impl Provider for Deepinfra {
    open spec fn spec_kind(&self) -> ProviderKind {
        ProviderKind::Deepinfra
    }

    fn kind(&self) -> ProviderKind {
        ProviderKind::Deepinfra
    }

    fn id(&self) -> &'static str {
        "deepinfra"
    }

    fn display_name(&self) -> &'static str {
        "DeepInfra"
    }

    fn env_vars(&self) -> &'static [&'static str] {
        &["DEEPINFRA_API_KEY", "DEEPINFRA_TOKEN"]
    }

    fn provider_config_key(&self) -> &'static str {
        "deepinfra"
    }

    fn aliases(&self) -> &'static [&'static str] {
        &["deep-infra", "deep_infra"]
    }

    fn wire_policy(&self) -> WirePolicy {
        WirePolicy::Fixed(WireFormat::ChatCompletions)
    }
}

/// Sakana AI (Fugu).
pub struct Sakana;

impl Provider for Sakana {
    open spec fn spec_kind(&self) -> ProviderKind {
        ProviderKind::Sakana
    }

    fn kind(&self) -> ProviderKind {
        ProviderKind::Sakana
    }

    fn id(&self) -> &'static str {
        "sakana"
    }

    fn display_name(&self) -> &'static str {
        "Sakana AI (Fugu)"
    }

    fn env_vars(&self) -> &'static [&'static str] {
        &["FUGU_API_KEY", "SAKANA_API_KEY"]
    }

    fn provider_config_key(&self) -> &'static str {
        "sakana"
    }

    fn aliases(&self) -> &'static [&'static str] {
        &["sakana-ai", "sakana_ai", "fugu"]
    }

    fn wire_policy(&self) -> WirePolicy {
        WirePolicy::Fixed(WireFormat::ChatCompletions)
    }
}

/// Meituan LongCat.
pub struct LongCat;

impl Provider for LongCat {
    open spec fn spec_kind(&self) -> ProviderKind {
        ProviderKind::LongCat
    }

    fn kind(&self) -> ProviderKind {
        ProviderKind::LongCat
    }

    fn id(&self) -> &'static str {
        "longcat"
    }

    fn display_name(&self) -> &'static str {
        "Meituan LongCat"
    }

    fn env_vars(&self) -> &'static [&'static str] {
        &["LONGCAT_API_KEY"]
    }

    fn provider_config_key(&self) -> &'static str {
        "longcat"
    }

    fn aliases(&self) -> &'static [&'static str] {
        &["long-cat", "meituan-longcat", "meituan"]
    }

    fn wire_policy(&self) -> WirePolicy {
        WirePolicy::Fixed(WireFormat::ChatCompletions)
    }
}

/// OpenCode Go.
pub struct OpencodeGo;

impl Provider for OpencodeGo {
    open spec fn spec_kind(&self) -> ProviderKind {
        ProviderKind::OpencodeGo
    }

    fn kind(&self) -> ProviderKind {
        ProviderKind::OpencodeGo
    }

    fn id(&self) -> &'static str {
        "opencode-go"
    }

    fn display_name(&self) -> &'static str {
        "OpenCode Go"
    }

    fn env_vars(&self) -> &'static [&'static str] {
        &["OPENCODE_GO_API_KEY"]
    }

    fn provider_config_key(&self) -> &'static str {
        "opencode_go"
    }

    fn aliases(&self) -> &'static [&'static str] {
        &["opencode_go", "opencodego"]
    }

    fn wire_policy(&self) -> WirePolicy {
        WirePolicy::ModelAware
    }
}

/// OpenCode Zen gateway with a model-scoped wire protocol.
pub struct OpencodeZen;

impl Provider for OpencodeZen {
    open spec fn spec_kind(&self) -> ProviderKind {
        ProviderKind::OpencodeZen
    }

    fn kind(&self) -> ProviderKind {
        ProviderKind::OpencodeZen
    }

    fn id(&self) -> &'static str {
        "opencode-zen"
    }

    fn display_name(&self) -> &'static str {
        "OpenCode Zen"
    }

    fn env_vars(&self) -> &'static [&'static str] {
        &["OPENCODE_ZEN_API_KEY", "OPENCODE_API_KEY"]
    }

    fn provider_config_key(&self) -> &'static str {
        "opencode_zen"
    }

    fn aliases(&self) -> &'static [&'static str] {
        &["opencode_zen", "opencodezen", "zen", "opencode"]
    }

    fn wire_policy(&self) -> WirePolicy {
        WirePolicy::ModelAware
    }
}

/// Codewhale API — account-backed model access with a model-scoped wire.
///
/// One base URL and one `cwc_key_…` account API key with the `models:infer`
/// scope. The account's authenticated `GET {base}/models` is the catalog
/// authority: each row is `provider/model` and carries the protocol
/// (`chat-completions` → `{base}/chat/completions`, `anthropic-messages` →
/// `{base}/messages`, `responses` → `{base}/responses`). Every protocol
/// authenticates with `Authorization: Bearer`; the Anthropic passthrough
/// deliberately does not take `x-api-key`.
pub struct Codewhale;

impl Provider for Codewhale {
    open spec fn spec_kind(&self) -> ProviderKind {
        ProviderKind::Codewhale
    }

    fn kind(&self) -> ProviderKind {
        ProviderKind::Codewhale
    }

    fn id(&self) -> &'static str {
        "codewhale"
    }

    fn display_name(&self) -> &'static str {
        "Codewhale"
    }

    fn env_vars(&self) -> &'static [&'static str] {
        &["CODEWHALE_API_KEY"]
    }

    fn provider_config_key(&self) -> &'static str {
        "codewhale"
    }

    fn aliases(&self) -> &'static [&'static str] {
        &["codewhale-api", "codewhale_api", "cw-api", "codewhale-cloud"]
    }

    fn wire_policy(&self) -> WirePolicy {
        WirePolicy::ModelAware
    }
}

/// Meta Model API.
pub struct Meta;

impl Provider for Meta {
    open spec fn spec_kind(&self) -> ProviderKind {
        ProviderKind::Meta
    }

    fn kind(&self) -> ProviderKind {
        ProviderKind::Meta
    }

    fn id(&self) -> &'static str {
        "meta"
    }

    fn display_name(&self) -> &'static str {
        "Meta Model API"
    }

    fn env_vars(&self) -> &'static [&'static str] {
        &["META_MODEL_API_KEY", "MODEL_API_KEY"]
    }

    fn provider_config_key(&self) -> &'static str {
        "meta"
    }

    fn aliases(&self) -> &'static [&'static str] {
        &[
            "meta-ai",
            "meta_ai",
            "meta-model-api",
            "meta_model_api",
            "muse",
            "muse-spark",
        ]
    }

    fn wire_policy(&self) -> WirePolicy {
        WirePolicy::Fixed(WireFormat::ChatCompletions)
    }
}

/// xAI.
pub struct Xai;

impl Provider for Xai {
    open spec fn spec_kind(&self) -> ProviderKind {
        ProviderKind::Xai
    }

    fn kind(&self) -> ProviderKind {
        ProviderKind::Xai
    }

    fn id(&self) -> &'static str {
        "xai"
    }

    fn display_name(&self) -> &'static str {
        "xAI"
    }

    fn env_vars(&self) -> &'static [&'static str] {
        &["XAI_API_KEY"]
    }

    fn provider_config_key(&self) -> &'static str {
        "xai"
    }

    fn aliases(&self) -> &'static [&'static str] {
        &["x-ai", "x_ai", "grok"]
    }

    fn wire_policy(&self) -> WirePolicy {
        WirePolicy::Fixed(WireFormat::ChatCompletions)
    }
}

/// TelecomJS TokenHub.
pub struct Telecomjs;

impl Provider for Telecomjs {
    open spec fn spec_kind(&self) -> ProviderKind {
        ProviderKind::Telecomjs
    }

    fn kind(&self) -> ProviderKind {
        ProviderKind::Telecomjs
    }

    fn id(&self) -> &'static str {
        "telecomjs"
    }

    fn display_name(&self) -> &'static str {
        "TelecomJS TokenHub"
    }

    fn env_vars(&self) -> &'static [&'static str] {
        &["TELECOMJS_API_KEY"]
    }

    fn provider_config_key(&self) -> &'static str {
        "telecomjs"
    }

    fn aliases(&self) -> &'static [&'static str] {
        &["telecom-js", "telecom_js", "telecomjs-cn", "tokenhub"]
    }

    fn wire_policy(&self) -> WirePolicy {
        WirePolicy::Fixed(WireFormat::ChatCompletions)
    }
}

/// Eden AI.
pub struct Edenai;

impl Provider for Edenai {
    open spec fn spec_kind(&self) -> ProviderKind {
        ProviderKind::Edenai
    }

    fn kind(&self) -> ProviderKind {
        ProviderKind::Edenai
    }

    fn id(&self) -> &'static str {
        "edenai"
    }

    fn display_name(&self) -> &'static str {
        "Eden AI"
    }

    fn env_vars(&self) -> &'static [&'static str] {
        &["EDENAI_API_KEY"]
    }

    fn provider_config_key(&self) -> &'static str {
        "edenai"
    }

    fn aliases(&self) -> &'static [&'static str] {
        &["eden-ai", "eden_ai"]
    }

    fn wire_policy(&self) -> WirePolicy {
        WirePolicy::Fixed(WireFormat::ChatCompletions)
    }
}

/// ZenMux.
pub struct Zenmux;

impl Provider for Zenmux {
    open spec fn spec_kind(&self) -> ProviderKind {
        ProviderKind::Zenmux
    }

    fn kind(&self) -> ProviderKind {
        ProviderKind::Zenmux
    }

    fn id(&self) -> &'static str {
        "zenmux"
    }

    fn display_name(&self) -> &'static str {
        "ZenMux"
    }

    fn env_vars(&self) -> &'static [&'static str] {
        &["ZENMUX_API_KEY"]
    }

    fn provider_config_key(&self) -> &'static str {
        "zenmux"
    }

    fn aliases(&self) -> &'static [&'static str] {
        &["zen-mux", "zen_mux"]
    }

    fn wire_policy(&self) -> WirePolicy {
        WirePolicy::Fixed(WireFormat::ChatCompletions)
    }
}

/// CSDN.
pub struct Csdn;

impl Provider for Csdn {
    open spec fn spec_kind(&self) -> ProviderKind {
        ProviderKind::Csdn
    }

    fn kind(&self) -> ProviderKind {
        ProviderKind::Csdn
    }

    fn id(&self) -> &'static str {
        "csdn"
    }

    fn display_name(&self) -> &'static str {
        "CSDN"
    }

    fn env_vars(&self) -> &'static [&'static str] {
        &["CSDN_API_KEY"]
    }

    fn provider_config_key(&self) -> &'static str {
        "csdn"
    }

    fn aliases(&self) -> &'static [&'static str] {
        &["csdn-ai", "csdn_ai", "csdn-coding-plan", "csdn_coding_plan", "starmap"]
    }

    fn wire_policy(&self) -> WirePolicy {
        WirePolicy::Fixed(WireFormat::ChatCompletions)
    }
}

/// Concentrate — OpenAI Responses-compatible AI gateway (aggregator).
///
/// Concentrate documents the Responses API as its production surface ("For
/// production use, we recommend using the Responses API"), so it carries a
/// fixed Responses wire policy. Contract:
/// <https://concentrate.ai/docs/api-reference/introduction>. Commercial
/// boundary: its Terms of Service forbid resale, white-label, and
/// service-bureau use without written consent, so this route is BYOK only —
/// the user's own key, their own bill, no Codewhale fee or managed default.
pub struct Concentrate;

impl Provider for Concentrate {
    open spec fn spec_kind(&self) -> ProviderKind {
        ProviderKind::Concentrate
    }

    fn kind(&self) -> ProviderKind {
        ProviderKind::Concentrate
    }

    fn id(&self) -> &'static str {
        "concentrate"
    }

    fn display_name(&self) -> &'static str {
        "Concentrate"
    }

    fn env_vars(&self) -> &'static [&'static str] {
        &["CONCENTRATE_API_KEY"]
    }

    fn provider_config_key(&self) -> &'static str {
        "concentrate"
    }

    fn aliases(&self) -> &'static [&'static str] {
        &["concentrate-ai", "concentrate_ai", "concentrateai"]
    }

    fn wire_policy(&self) -> WirePolicy {
        WirePolicy::Fixed(WireFormat::Responses)
    }
}

/// Alibaba Cloud Model Studio — Token Plan (OpenAI-compatible Chat Completions).
///
/// Token Plan Personal and Team share the same regional endpoint. The default
/// region is Asia-Pacific (Singapore); official docs list the same URL for
/// both personal and team plans.
pub struct ModelstudioTokenPlan;

impl Provider for ModelstudioTokenPlan {
    open spec fn spec_kind(&self) -> ProviderKind {
        ProviderKind::ModelstudioTokenPlan
    }

    fn kind(&self) -> ProviderKind {
        ProviderKind::ModelstudioTokenPlan
    }

    fn id(&self) -> &'static str {
        "modelstudio-token-plan"
    }

    fn display_name(&self) -> &'static str {
        "Alibaba Cloud Model Studio"
    }

    fn env_vars(&self) -> &'static [&'static str] {
        &["MODELSTUDIO_API_KEY", "DASHSCOPE_API_KEY"]
    }

    fn provider_config_key(&self) -> &'static str {
        "modelstudio_token_plan"
    }

    fn aliases(&self) -> &'static [&'static str] {
        &[
            "modelstudio-token-plan",
            "modelstudio_token_plan",
            "modelstudio",
            "alibaba-token-plan",
            "dashscope-token-plan",
            "alibaba",
            "dashscope",
            "modelstudio-coding-plan",
            "modelstudio_coding_plan",
            "alibaba-coding-plan",
            "dashscope-coding-plan",
            "modelstudio-token-plan-anthropic",
            "modelstudio_token_plan_anthropic",
            "alibaba-token-plan-anthropic",
            "modelstudio-coding-plan-anthropic",
            "modelstudio_coding_plan_anthropic",
            "alibaba-coding-plan-anthropic",
        ]
    }

    fn wire_policy(&self) -> WirePolicy {
        WirePolicy::Fixed(WireFormat::ChatCompletions)
    }
}

/// Legacy Model Studio Anthropic dialect kind.
///
/// Reached by kind only: the catalog surface and the aliases collapse onto
/// [`ModelstudioTokenPlan`] with `wire = "anthropic"`.
pub struct ModelstudioTokenPlanAnthropic;

impl Provider for ModelstudioTokenPlanAnthropic {
    open spec fn spec_kind(&self) -> ProviderKind {
        ProviderKind::ModelstudioTokenPlanAnthropic
    }

    fn kind(&self) -> ProviderKind {
        ProviderKind::ModelstudioTokenPlanAnthropic
    }

    fn id(&self) -> &'static str {
        "modelstudio-token-plan-anthropic"
    }

    fn display_name(&self) -> &'static str {
        "Alibaba Cloud Model Studio"
    }

    fn env_vars(&self) -> &'static [&'static str] {
        &["MODELSTUDIO_API_KEY", "DASHSCOPE_API_KEY"]
    }

    fn provider_config_key(&self) -> &'static str {
        "modelstudio_token_plan_anthropic"
    }

    fn aliases(&self) -> &'static [&'static str] {
        &[]
    }

    fn wire_policy(&self) -> WirePolicy {
        WirePolicy::Fixed(WireFormat::AnthropicMessages)
    }
}

/// Legacy Model Studio Coding Plan kind (OpenAI wire).
///
/// Catalog/parse collapse onto [`ModelstudioTokenPlan`] with `mode = "coding-plan"`.
pub struct ModelstudioCodingPlan;

impl Provider for ModelstudioCodingPlan {
    open spec fn spec_kind(&self) -> ProviderKind {
        ProviderKind::ModelstudioCodingPlan
    }

    fn kind(&self) -> ProviderKind {
        ProviderKind::ModelstudioCodingPlan
    }

    fn id(&self) -> &'static str {
        "modelstudio-coding-plan"
    }

    fn display_name(&self) -> &'static str {
        "Alibaba Cloud Model Studio"
    }

    fn env_vars(&self) -> &'static [&'static str] {
        &["MODELSTUDIO_API_KEY", "DASHSCOPE_API_KEY"]
    }

    fn provider_config_key(&self) -> &'static str {
        "modelstudio_coding_plan"
    }

    fn aliases(&self) -> &'static [&'static str] {
        &[]
    }

    fn wire_policy(&self) -> WirePolicy {
        WirePolicy::Fixed(WireFormat::ChatCompletions)
    }
}

/// Legacy Model Studio Coding Plan Anthropic dialect kind.
pub struct ModelstudioCodingPlanAnthropic;

impl Provider for ModelstudioCodingPlanAnthropic {
    open spec fn spec_kind(&self) -> ProviderKind {
        ProviderKind::ModelstudioCodingPlanAnthropic
    }

    fn kind(&self) -> ProviderKind {
        ProviderKind::ModelstudioCodingPlanAnthropic
    }

    fn id(&self) -> &'static str {
        "modelstudio-coding-plan-anthropic"
    }

    fn display_name(&self) -> &'static str {
        "Alibaba Cloud Model Studio"
    }

    fn env_vars(&self) -> &'static [&'static str] {
        &["MODELSTUDIO_API_KEY", "DASHSCOPE_API_KEY"]
    }

    fn provider_config_key(&self) -> &'static str {
        "modelstudio_coding_plan_anthropic"
    }

    fn aliases(&self) -> &'static [&'static str] {
        &[]
    }

    fn wire_policy(&self) -> WirePolicy {
        WirePolicy::Fixed(WireFormat::AnthropicMessages)
    }
}

/// User-defined OpenAI-compatible endpoint.
///
/// A single dynamic provider identity for arbitrary `[providers.<name>]
/// kind="openai-compatible"` config entries. Unlike the built-in providers it
/// carries no real default base URL/model/env var: the concrete endpoint, model
/// id, and auth env var all arrive from the named `[providers.<name>]` config
/// table at route time. The placeholder base URL/model here exist only so the
/// descriptor stays well-formed (non-empty) for conformance; runtime routing
/// always supplies a `base_url_override` and a wire model id, so these
/// placeholders are never used to reach the network.
pub struct Custom;

impl Provider for Custom {
    open spec fn spec_kind(&self) -> ProviderKind {
        ProviderKind::Custom
    }

    fn kind(&self) -> ProviderKind {
        ProviderKind::Custom
    }

    fn id(&self) -> &'static str {
        "custom"
    }

    fn display_name(&self) -> &'static str {
        "Custom (OpenAI-compatible)"
    }

    fn env_vars(&self) -> &'static [&'static str] {
        &[]
    }

    fn provider_config_key(&self) -> &'static str {
        "custom"
    }

    fn aliases(&self) -> &'static [&'static str] {
        &[]
    }

    fn wire_policy(&self) -> WirePolicy {
        WirePolicy::Fixed(WireFormat::ChatCompletions)
    }
}

} // verus!
