//! The provider kinds and the static metadata that belongs to each of them.
//!
//! The specification functions here are the metadata tables. The provider
//! entries in [`crate::builtin`] are held to them.

use vstd::prelude::*;
use crate::text::lower_char;
use crate::wire::{WireFormat, WirePolicy};

verus! {

/// One built-in or legacy provider identity.
#[derive(Debug, Clone, Copy, PartialEq, Eq, Structural)]
pub enum ProviderKind {
    Deepseek,
    DeepseekAnthropic,
    NvidiaNim,
    Openai,
    Atlascloud,
    WanjieArk,
    Volcengine,
    Openrouter,
    Orcarouter,
    XiaomiMimo,
    Novita,
    Fireworks,
    Siliconflow,
    SiliconflowCN,
    Arcee,
    Moonshot,
    Sglang,
    Vllm,
    Ollama,
    OllamaCloud,
    Huggingface,
    Modelscope,
    Together,
    Qianfan,
    Mistral,
    Antigravity,
    Google,
    OpenaiCodex,
    Anthropic,
    Openmodel,
    Zai,
    Stepfun,
    Minimax,
    MinimaxAnthropic,
    Deepinfra,
    Sakana,
    LongCat,
    OpencodeGo,
    OpencodeZen,
    Codewhale,
    Meta,
    Xai,
    Telecomjs,
    Edenai,
    Zenmux,
    Csdn,
    Concentrate,
    ModelstudioTokenPlan,
    ModelstudioTokenPlanAnthropic,
    ModelstudioCodingPlan,
    ModelstudioCodingPlanAnthropic,
    Custom,
}

/// Canonical identifier of a provider.
pub open spec fn provider_id(kind: ProviderKind) -> Seq<char> {
    match kind {
        ProviderKind::Deepseek => "deepseek"@,
        ProviderKind::DeepseekAnthropic => "deepseek-anthropic"@,
        ProviderKind::NvidiaNim => "nvidia-nim"@,
        ProviderKind::Openai => "openai"@,
        ProviderKind::Atlascloud => "atlascloud"@,
        ProviderKind::WanjieArk => "wanjie-ark"@,
        ProviderKind::Volcengine => "volcengine"@,
        ProviderKind::Openrouter => "openrouter"@,
        ProviderKind::Orcarouter => "orcarouter"@,
        ProviderKind::XiaomiMimo => "xiaomi-mimo"@,
        ProviderKind::Novita => "novita"@,
        ProviderKind::Fireworks => "fireworks"@,
        ProviderKind::Siliconflow => "siliconflow"@,
        ProviderKind::SiliconflowCN => "siliconflow-CN"@,
        ProviderKind::Arcee => "arcee"@,
        ProviderKind::Moonshot => "moonshot"@,
        ProviderKind::Sglang => "sglang"@,
        ProviderKind::Vllm => "vllm"@,
        ProviderKind::Ollama => "ollama"@,
        ProviderKind::OllamaCloud => "ollama-cloud"@,
        ProviderKind::Huggingface => "huggingface"@,
        ProviderKind::Modelscope => "modelscope"@,
        ProviderKind::Together => "together"@,
        ProviderKind::Qianfan => "qianfan"@,
        ProviderKind::Mistral => "mistral"@,
        ProviderKind::Antigravity => "antigravity"@,
        ProviderKind::Google => "google"@,
        ProviderKind::OpenaiCodex => "openai-codex"@,
        ProviderKind::Anthropic => "anthropic"@,
        ProviderKind::Openmodel => "openmodel"@,
        ProviderKind::Zai => "zai"@,
        ProviderKind::Stepfun => "stepfun"@,
        ProviderKind::Minimax => "minimax"@,
        ProviderKind::MinimaxAnthropic => "minimax-anthropic"@,
        ProviderKind::Deepinfra => "deepinfra"@,
        ProviderKind::Sakana => "sakana"@,
        ProviderKind::LongCat => "longcat"@,
        ProviderKind::OpencodeGo => "opencode-go"@,
        ProviderKind::OpencodeZen => "opencode-zen"@,
        ProviderKind::Codewhale => "codewhale"@,
        ProviderKind::Meta => "meta"@,
        ProviderKind::Xai => "xai"@,
        ProviderKind::Telecomjs => "telecomjs"@,
        ProviderKind::Edenai => "edenai"@,
        ProviderKind::Zenmux => "zenmux"@,
        ProviderKind::Csdn => "csdn"@,
        ProviderKind::Concentrate => "concentrate"@,
        ProviderKind::ModelstudioTokenPlan => "modelstudio-token-plan"@,
        ProviderKind::ModelstudioTokenPlanAnthropic => "modelstudio-token-plan-anthropic"@,
        ProviderKind::ModelstudioCodingPlan => "modelstudio-coding-plan"@,
        ProviderKind::ModelstudioCodingPlanAnthropic => "modelstudio-coding-plan-anthropic"@,
        ProviderKind::Custom => "custom"@,
    }
}

/// Human-readable label of a provider.
pub open spec fn provider_display_name(kind: ProviderKind) -> Seq<char> {
    match kind {
        ProviderKind::Deepseek => "DeepSeek"@,
        ProviderKind::DeepseekAnthropic => "DeepSeek"@,
        ProviderKind::NvidiaNim => "NVIDIA NIM"@,
        ProviderKind::Openai => "OpenAI-compatible"@,
        ProviderKind::Atlascloud => "AtlasCloud"@,
        ProviderKind::WanjieArk => "Wanjie Ark"@,
        ProviderKind::Volcengine => "Volcengine Ark"@,
        ProviderKind::Openrouter => "OpenRouter"@,
        ProviderKind::Orcarouter => "OrcaRouter"@,
        ProviderKind::XiaomiMimo => "Xiaomi MiMo"@,
        ProviderKind::Novita => "Novita AI"@,
        ProviderKind::Fireworks => "Fireworks AI"@,
        ProviderKind::Siliconflow => "SiliconFlow"@,
        ProviderKind::SiliconflowCN => "SiliconFlow (China)"@,
        ProviderKind::Arcee => "Arcee AI"@,
        ProviderKind::Moonshot => "Moonshot/Kimi"@,
        ProviderKind::Sglang => "SGLang"@,
        ProviderKind::Vllm => "vLLM"@,
        ProviderKind::Ollama => "Ollama"@,
        ProviderKind::OllamaCloud => "Ollama Cloud"@,
        ProviderKind::Huggingface => "Hugging Face"@,
        ProviderKind::Modelscope => "ModelScope"@,
        ProviderKind::Together => "Together AI"@,
        ProviderKind::Qianfan => "Baidu Qianfan"@,
        ProviderKind::Mistral => "Mistral AI"@,
        ProviderKind::Antigravity => "Antigravity (legacy, disabled)"@,
        ProviderKind::Google => "Google Gemini"@,
        ProviderKind::OpenaiCodex => "OpenAI Codex (ChatGPT)"@,
        ProviderKind::Anthropic => "Anthropic"@,
        ProviderKind::Openmodel => "OpenModel"@,
        ProviderKind::Zai => "Zhipu AI / Z.ai"@,
        ProviderKind::Stepfun => "StepFun / StepFlash"@,
        ProviderKind::Minimax => "MiniMax"@,
        ProviderKind::MinimaxAnthropic => "MiniMax"@,
        ProviderKind::Deepinfra => "DeepInfra"@,
        ProviderKind::Sakana => "Sakana AI (Fugu)"@,
        ProviderKind::LongCat => "Meituan LongCat"@,
        ProviderKind::OpencodeGo => "OpenCode Go"@,
        ProviderKind::OpencodeZen => "OpenCode Zen"@,
        ProviderKind::Codewhale => "Codewhale"@,
        ProviderKind::Meta => "Meta Model API"@,
        ProviderKind::Xai => "xAI"@,
        ProviderKind::Telecomjs => "TelecomJS TokenHub"@,
        ProviderKind::Edenai => "Eden AI"@,
        ProviderKind::Zenmux => "ZenMux"@,
        ProviderKind::Csdn => "CSDN"@,
        ProviderKind::Concentrate => "Concentrate"@,
        ProviderKind::ModelstudioTokenPlan => "Alibaba Cloud Model Studio"@,
        ProviderKind::ModelstudioTokenPlanAnthropic => "Alibaba Cloud Model Studio"@,
        ProviderKind::ModelstudioCodingPlan => "Alibaba Cloud Model Studio"@,
        ProviderKind::ModelstudioCodingPlanAnthropic => "Alibaba Cloud Model Studio"@,
        ProviderKind::Custom => "Custom (OpenAI-compatible)"@,
    }
}

/// Key of the provider in the `[providers.<key>]` configuration table.
pub open spec fn provider_config_key_of(kind: ProviderKind) -> Seq<char> {
    match kind {
        ProviderKind::Deepseek => "deepseek"@,
        ProviderKind::DeepseekAnthropic => "deepseek_anthropic"@,
        ProviderKind::NvidiaNim => "nvidia_nim"@,
        ProviderKind::Openai => "openai"@,
        ProviderKind::Atlascloud => "atlascloud"@,
        ProviderKind::WanjieArk => "wanjie_ark"@,
        ProviderKind::Volcengine => "volcengine"@,
        ProviderKind::Openrouter => "openrouter"@,
        ProviderKind::Orcarouter => "orcarouter"@,
        ProviderKind::XiaomiMimo => "xiaomi_mimo"@,
        ProviderKind::Novita => "novita"@,
        ProviderKind::Fireworks => "fireworks"@,
        ProviderKind::Siliconflow => "siliconflow"@,
        ProviderKind::SiliconflowCN => "siliconflow_cn"@,
        ProviderKind::Arcee => "arcee"@,
        ProviderKind::Moonshot => "moonshot"@,
        ProviderKind::Sglang => "sglang"@,
        ProviderKind::Vllm => "vllm"@,
        ProviderKind::Ollama => "ollama"@,
        ProviderKind::OllamaCloud => "ollama_cloud"@,
        ProviderKind::Huggingface => "huggingface"@,
        ProviderKind::Modelscope => "modelscope"@,
        ProviderKind::Together => "together"@,
        ProviderKind::Qianfan => "qianfan"@,
        ProviderKind::Mistral => "mistral"@,
        ProviderKind::Antigravity => "antigravity"@,
        ProviderKind::Google => "google"@,
        ProviderKind::OpenaiCodex => "openai_codex"@,
        ProviderKind::Anthropic => "anthropic"@,
        ProviderKind::Openmodel => "openmodel"@,
        ProviderKind::Zai => "zai"@,
        ProviderKind::Stepfun => "stepfun"@,
        ProviderKind::Minimax => "minimax"@,
        ProviderKind::MinimaxAnthropic => "minimax_anthropic"@,
        ProviderKind::Deepinfra => "deepinfra"@,
        ProviderKind::Sakana => "sakana"@,
        ProviderKind::LongCat => "longcat"@,
        ProviderKind::OpencodeGo => "opencode_go"@,
        ProviderKind::OpencodeZen => "opencode_zen"@,
        ProviderKind::Codewhale => "codewhale"@,
        ProviderKind::Meta => "meta"@,
        ProviderKind::Xai => "xai"@,
        ProviderKind::Telecomjs => "telecomjs"@,
        ProviderKind::Edenai => "edenai"@,
        ProviderKind::Zenmux => "zenmux"@,
        ProviderKind::Csdn => "csdn"@,
        ProviderKind::Concentrate => "concentrate"@,
        ProviderKind::ModelstudioTokenPlan => "modelstudio_token_plan"@,
        ProviderKind::ModelstudioTokenPlanAnthropic => "modelstudio_token_plan_anthropic"@,
        ProviderKind::ModelstudioCodingPlan => "modelstudio_coding_plan"@,
        ProviderKind::ModelstudioCodingPlanAnthropic => "modelstudio_coding_plan_anthropic"@,
        ProviderKind::Custom => "custom"@,
    }
}

/// Environment variables that may hold the provider's API key, in order.
pub open spec fn provider_env_vars(kind: ProviderKind) -> Seq<Seq<char>> {
    match kind {
        ProviderKind::Deepseek => seq!["DEEPSEEK_API_KEY"@],
        ProviderKind::DeepseekAnthropic => seq!["DEEPSEEK_API_KEY"@],
        ProviderKind::NvidiaNim => seq!["NVIDIA_API_KEY"@, "NVIDIA_NIM_API_KEY"@],
        ProviderKind::Openai => seq!["OPENAI_API_KEY"@],
        ProviderKind::Atlascloud => seq!["ATLASCLOUD_API_KEY"@],
        ProviderKind::WanjieArk => seq!["WANJIE_ARK_API_KEY"@, "WANJIE_API_KEY"@, "WANJIE_MAAS_API_KEY"@],
        ProviderKind::Volcengine => seq!["VOLCENGINE_API_KEY"@, "VOLCENGINE_ARK_API_KEY"@, "ARK_API_KEY"@],
        ProviderKind::Openrouter => seq!["OPENROUTER_API_KEY"@],
        ProviderKind::Orcarouter => seq!["ORCAROUTER_API_KEY"@],
        ProviderKind::XiaomiMimo => seq![
            "XIAOMI_MIMO_TOKEN_PLAN_API_KEY"@,
            "MIMO_TOKEN_PLAN_API_KEY"@,
            "XIAOMI_MIMO_API_KEY"@,
            "XIAOMI_API_KEY"@,
            "MIMO_API_KEY"@,
        ],
        ProviderKind::Novita => seq!["NOVITA_API_KEY"@],
        ProviderKind::Fireworks => seq!["FIREWORKS_API_KEY"@],
        ProviderKind::Siliconflow => seq!["SILICONFLOW_API_KEY"@],
        ProviderKind::SiliconflowCN => seq!["SILICONFLOW_API_KEY"@],
        ProviderKind::Arcee => seq!["ARCEE_API_KEY"@],
        ProviderKind::Moonshot => seq!["MOONSHOT_API_KEY"@, "KIMI_API_KEY"@],
        ProviderKind::Sglang => seq!["SGLANG_API_KEY"@],
        ProviderKind::Vllm => seq!["VLLM_API_KEY"@],
        ProviderKind::Ollama => seq!["OLLAMA_API_KEY"@],
        ProviderKind::OllamaCloud => seq!["OLLAMA_CLOUD_API_KEY"@, "OLLAMA_API_KEY"@],
        ProviderKind::Huggingface => seq!["HUGGINGFACE_API_KEY"@, "HF_TOKEN"@],
        ProviderKind::Modelscope => seq!["MODELSCOPE_API_KEY"@],
        ProviderKind::Together => seq!["TOGETHER_API_KEY"@],
        ProviderKind::Qianfan => seq!["QIANFAN_API_KEY"@, "BAIDU_QIANFAN_API_KEY"@],
        ProviderKind::Mistral => seq!["MISTRAL_API_KEY"@],
        ProviderKind::Antigravity => Seq::<Seq<char>>::empty(),
        ProviderKind::Google => seq!["GOOGLE_API_KEY"@, "GEMINI_API_KEY"@],
        ProviderKind::OpenaiCodex => seq!["OPENAI_CODEX_ACCESS_TOKEN"@, "CODEX_ACCESS_TOKEN"@],
        ProviderKind::Anthropic => seq!["ANTHROPIC_API_KEY"@],
        ProviderKind::Openmodel => seq!["OPENMODEL_API_KEY"@],
        ProviderKind::Zai => seq!["ZAI_API_KEY"@, "Z_AI_API_KEY"@, "ZHIPU_API_KEY"@, "GLM_API_KEY"@],
        ProviderKind::Stepfun => seq!["STEPFUN_API_KEY"@, "STEP_API_KEY"@],
        ProviderKind::Minimax => seq!["MINIMAX_API_KEY"@],
        ProviderKind::MinimaxAnthropic => seq!["MINIMAX_API_KEY"@],
        ProviderKind::Deepinfra => seq!["DEEPINFRA_API_KEY"@, "DEEPINFRA_TOKEN"@],
        ProviderKind::Sakana => seq!["FUGU_API_KEY"@, "SAKANA_API_KEY"@],
        ProviderKind::LongCat => seq!["LONGCAT_API_KEY"@],
        ProviderKind::OpencodeGo => seq!["OPENCODE_GO_API_KEY"@],
        ProviderKind::OpencodeZen => seq!["OPENCODE_ZEN_API_KEY"@, "OPENCODE_API_KEY"@],
        ProviderKind::Codewhale => seq!["CODEWHALE_API_KEY"@],
        ProviderKind::Meta => seq!["META_MODEL_API_KEY"@, "MODEL_API_KEY"@],
        ProviderKind::Xai => seq!["XAI_API_KEY"@],
        ProviderKind::Telecomjs => seq!["TELECOMJS_API_KEY"@],
        ProviderKind::Edenai => seq!["EDENAI_API_KEY"@],
        ProviderKind::Zenmux => seq!["ZENMUX_API_KEY"@],
        ProviderKind::Csdn => seq!["CSDN_API_KEY"@],
        ProviderKind::Concentrate => seq!["CONCENTRATE_API_KEY"@],
        ProviderKind::ModelstudioTokenPlan => seq!["MODELSTUDIO_API_KEY"@, "DASHSCOPE_API_KEY"@],
        ProviderKind::ModelstudioTokenPlanAnthropic => seq!["MODELSTUDIO_API_KEY"@, "DASHSCOPE_API_KEY"@],
        ProviderKind::ModelstudioCodingPlan => seq!["MODELSTUDIO_API_KEY"@, "DASHSCOPE_API_KEY"@],
        ProviderKind::ModelstudioCodingPlanAnthropic => seq!["MODELSTUDIO_API_KEY"@, "DASHSCOPE_API_KEY"@],
        ProviderKind::Custom => Seq::<Seq<char>>::empty(),
    }
}

/// Alternate names accepted for a provider.
pub open spec fn provider_aliases(kind: ProviderKind) -> Seq<Seq<char>> {
    match kind {
        ProviderKind::Deepseek => seq![
            "deep-seek"@,
            "deepseek-cn"@,
            "deepseek_china"@,
            "deepseekcn"@,
            "deepseek-china"@,
            "deepseek-anthropic"@,
            "deepseek_anthropic"@,
            "deepseek_claude"@,
        ],
        ProviderKind::DeepseekAnthropic => Seq::<Seq<char>>::empty(),
        ProviderKind::NvidiaNim => seq!["nvidia"@, "nvidia_nim"@, "nim"@],
        ProviderKind::Openai => seq!["open-ai"@],
        ProviderKind::Atlascloud => seq!["atlas-cloud"@, "atlas_cloud"@, "atlas"@],
        ProviderKind::WanjieArk => seq![
            "wanjie"@,
            "wanjie_ark"@,
            "ark-wanjie"@,
            "ark_wanjie"@,
            "wanjieark"@,
            "wanjie-maas"@,
            "wanjie_maas"@,
            "wanjiemaas"@,
        ],
        ProviderKind::Volcengine => seq![
            "volcengine-ark"@,
            "volcengine_ark"@,
            "ark"@,
            "volc-ark"@,
            "volcengineark"@,
        ],
        ProviderKind::Openrouter => seq!["open_router"@],
        ProviderKind::Orcarouter => seq!["orca_router"@],
        ProviderKind::XiaomiMimo => seq!["xiaomi_mimo"@, "xiaomimimo"@, "mimo"@, "xiaomi"@],
        ProviderKind::Novita => seq!["novita-ai"@, "novita_ai"@],
        ProviderKind::Fireworks => seq!["fireworks-ai"@],
        ProviderKind::Siliconflow => seq!["silicon-flow"@, "silicon_flow"@],
        ProviderKind::SiliconflowCN => seq![
            "silicon-flow-cn"@,
            "silicon-flow-CN"@,
            "silicon_flow_cn"@,
            "silicon_flow_CN"@,
            "siliconflow-china"@,
        ],
        ProviderKind::Arcee => seq!["arcee-ai"@, "arcee_ai"@],
        ProviderKind::Moonshot => seq!["moonshot-ai"@, "moonshotai"@, "moonshot_ai"@, "kimi"@, "kimi-k2"@],
        ProviderKind::Sglang => seq!["sg-lang"@],
        ProviderKind::Vllm => seq!["v-llm"@],
        ProviderKind::Ollama => seq!["ollama-local"@],
        ProviderKind::OllamaCloud => seq!["ollama_cloud"@],
        ProviderKind::Huggingface => seq!["hugging-face"@, "hugging_face"@, "hf"@],
        ProviderKind::Modelscope => seq!["model-scope"@, "model_scope"@, "modelscope-cn"@, "modelscope_cn"@],
        ProviderKind::Together => seq!["together-ai"@, "together_ai"@, "togetherai"@],
        ProviderKind::Qianfan => seq!["baidu-qianfan"@, "baidu_qianfan"@, "baidu"@],
        ProviderKind::Mistral => seq![
            "mistral-ai"@,
            "mistral_ai"@,
            "mistralai"@,
            "la-plateforme"@,
            "la_plateforme"@,
        ],
        ProviderKind::Antigravity => seq!["agy"@],
        ProviderKind::Google => seq![
            "google-gemini"@,
            "google_gemini"@,
            "gemini"@,
            "google-ai"@,
            "google_ai"@,
            "ai-studio"@,
            "aistudio"@,
        ],
        ProviderKind::OpenaiCodex => seq![
            "openai_codex"@,
            "openaicodex"@,
            "codex"@,
            "chatgpt"@,
            "chatgpt-codex"@,
            "chatgpt_codex"@,
            "chatgptcodex"@,
        ],
        ProviderKind::Anthropic => Seq::<Seq<char>>::empty(),
        ProviderKind::Openmodel => seq!["open-model"@, "open_model"@],
        ProviderKind::Zai => seq![
            "z-ai"@,
            "z_ai"@,
            "z.ai"@,
            "zhipu"@,
            "zhipuai"@,
            "bigmodel"@,
            "big-model"@,
        ],
        ProviderKind::Stepfun => seq!["step-fun"@, "step_fun"@, "stepflash"@, "step-flash"@, "step_flash"@],
        ProviderKind::Minimax => seq![
            "mini-max"@,
            "mini_max"@,
            "minimax-anthropic"@,
            "minimax_anthropic"@,
            "mini-max-anthropic"@,
            "mini_max_anthropic"@,
        ],
        ProviderKind::MinimaxAnthropic => Seq::<Seq<char>>::empty(),
        ProviderKind::Deepinfra => seq!["deep-infra"@, "deep_infra"@],
        ProviderKind::Sakana => seq!["sakana-ai"@, "sakana_ai"@, "fugu"@],
        ProviderKind::LongCat => seq!["long-cat"@, "meituan-longcat"@, "meituan"@],
        ProviderKind::OpencodeGo => seq!["opencode_go"@, "opencodego"@],
        ProviderKind::OpencodeZen => seq!["opencode_zen"@, "opencodezen"@, "zen"@, "opencode"@],
        ProviderKind::Codewhale => seq!["codewhale-api"@, "codewhale_api"@, "cw-api"@, "codewhale-cloud"@],
        ProviderKind::Meta => seq![
            "meta-ai"@,
            "meta_ai"@,
            "meta-model-api"@,
            "meta_model_api"@,
            "muse"@,
            "muse-spark"@,
        ],
        ProviderKind::Xai => seq!["x-ai"@, "x_ai"@, "grok"@],
        ProviderKind::Telecomjs => seq!["telecom-js"@, "telecom_js"@, "telecomjs-cn"@, "tokenhub"@],
        ProviderKind::Edenai => seq!["eden-ai"@, "eden_ai"@],
        ProviderKind::Zenmux => seq!["zen-mux"@, "zen_mux"@],
        ProviderKind::Csdn => seq![
            "csdn-ai"@,
            "csdn_ai"@,
            "csdn-coding-plan"@,
            "csdn_coding_plan"@,
            "starmap"@,
        ],
        ProviderKind::Concentrate => seq!["concentrate-ai"@, "concentrate_ai"@, "concentrateai"@],
        ProviderKind::ModelstudioTokenPlan => seq![
            "modelstudio-token-plan"@,
            "modelstudio_token_plan"@,
            "modelstudio"@,
            "alibaba-token-plan"@,
            "dashscope-token-plan"@,
            "alibaba"@,
            "dashscope"@,
            "modelstudio-coding-plan"@,
            "modelstudio_coding_plan"@,
            "alibaba-coding-plan"@,
            "dashscope-coding-plan"@,
            "modelstudio-token-plan-anthropic"@,
            "modelstudio_token_plan_anthropic"@,
            "alibaba-token-plan-anthropic"@,
            "modelstudio-coding-plan-anthropic"@,
            "modelstudio_coding_plan_anthropic"@,
            "alibaba-coding-plan-anthropic"@,
        ],
        ProviderKind::ModelstudioTokenPlanAnthropic => Seq::<Seq<char>>::empty(),
        ProviderKind::ModelstudioCodingPlan => Seq::<Seq<char>>::empty(),
        ProviderKind::ModelstudioCodingPlanAnthropic => Seq::<Seq<char>>::empty(),
        ProviderKind::Custom => Seq::<Seq<char>>::empty(),
    }
}

/// Policy by which a provider selects its request wire format.
pub open spec fn provider_wire_policy(kind: ProviderKind) -> WirePolicy {
    match kind {
        ProviderKind::Deepseek
        | ProviderKind::OpencodeGo
        | ProviderKind::OpencodeZen
        | ProviderKind::Codewhale => WirePolicy::ModelAware,
        ProviderKind::DeepseekAnthropic
        | ProviderKind::Anthropic
        | ProviderKind::Openmodel
        | ProviderKind::MinimaxAnthropic
        | ProviderKind::ModelstudioTokenPlanAnthropic
        | ProviderKind::ModelstudioCodingPlanAnthropic => WirePolicy::Fixed(WireFormat::AnthropicMessages),
        ProviderKind::OpenaiCodex
        | ProviderKind::Concentrate => WirePolicy::Fixed(WireFormat::Responses),
        _ => WirePolicy::Fixed(WireFormat::ChatCompletions),
    }
}

/// The provider kinds in the stable order of the compatibility registry.
pub open spec fn registry() -> Seq<ProviderKind> {
    seq![
        ProviderKind::Deepseek,
        ProviderKind::DeepseekAnthropic,
        ProviderKind::NvidiaNim,
        ProviderKind::Openai,
        ProviderKind::Atlascloud,
        ProviderKind::WanjieArk,
        ProviderKind::Volcengine,
        ProviderKind::Openrouter,
        ProviderKind::Orcarouter,
        ProviderKind::XiaomiMimo,
        ProviderKind::Novita,
        ProviderKind::Fireworks,
        ProviderKind::Siliconflow,
        ProviderKind::Arcee,
        ProviderKind::SiliconflowCN,
        ProviderKind::Moonshot,
        ProviderKind::Sglang,
        ProviderKind::Vllm,
        ProviderKind::Ollama,
        ProviderKind::OllamaCloud,
        ProviderKind::Huggingface,
        ProviderKind::Modelscope,
        ProviderKind::Together,
        ProviderKind::Qianfan,
        ProviderKind::OpenaiCodex,
        ProviderKind::Anthropic,
        ProviderKind::Openmodel,
        ProviderKind::Zai,
        ProviderKind::Stepfun,
        ProviderKind::Minimax,
        ProviderKind::MinimaxAnthropic,
        ProviderKind::Deepinfra,
        ProviderKind::Sakana,
        ProviderKind::LongCat,
        ProviderKind::OpencodeGo,
        ProviderKind::OpencodeZen,
        ProviderKind::Meta,
        ProviderKind::Xai,
        ProviderKind::Mistral,
        ProviderKind::Telecomjs,
        ProviderKind::Edenai,
        ProviderKind::Zenmux,
        ProviderKind::Csdn,
        ProviderKind::Concentrate,
        ProviderKind::Codewhale,
        ProviderKind::ModelstudioTokenPlan,
        ProviderKind::ModelstudioTokenPlanAnthropic,
        ProviderKind::ModelstudioCodingPlan,
        ProviderKind::ModelstudioCodingPlanAnthropic,
        ProviderKind::Google,
        ProviderKind::Antigravity,
        ProviderKind::Custom,
    ]
}

/// Position of a kind in [`registry`].
pub open spec fn registry_position(kind: ProviderKind) -> int {
    match kind {
        ProviderKind::Deepseek => 0,
        ProviderKind::DeepseekAnthropic => 1,
        ProviderKind::NvidiaNim => 2,
        ProviderKind::Openai => 3,
        ProviderKind::Atlascloud => 4,
        ProviderKind::WanjieArk => 5,
        ProviderKind::Volcengine => 6,
        ProviderKind::Openrouter => 7,
        ProviderKind::Orcarouter => 8,
        ProviderKind::XiaomiMimo => 9,
        ProviderKind::Novita => 10,
        ProviderKind::Fireworks => 11,
        ProviderKind::Siliconflow => 12,
        ProviderKind::SiliconflowCN => 14,
        ProviderKind::Arcee => 13,
        ProviderKind::Moonshot => 15,
        ProviderKind::Sglang => 16,
        ProviderKind::Vllm => 17,
        ProviderKind::Ollama => 18,
        ProviderKind::OllamaCloud => 19,
        ProviderKind::Huggingface => 20,
        ProviderKind::Modelscope => 21,
        ProviderKind::Together => 22,
        ProviderKind::Qianfan => 23,
        ProviderKind::Mistral => 38,
        ProviderKind::Antigravity => 50,
        ProviderKind::Google => 49,
        ProviderKind::OpenaiCodex => 24,
        ProviderKind::Anthropic => 25,
        ProviderKind::Openmodel => 26,
        ProviderKind::Zai => 27,
        ProviderKind::Stepfun => 28,
        ProviderKind::Minimax => 29,
        ProviderKind::MinimaxAnthropic => 30,
        ProviderKind::Deepinfra => 31,
        ProviderKind::Sakana => 32,
        ProviderKind::LongCat => 33,
        ProviderKind::OpencodeGo => 34,
        ProviderKind::OpencodeZen => 35,
        ProviderKind::Codewhale => 44,
        ProviderKind::Meta => 36,
        ProviderKind::Xai => 37,
        ProviderKind::Telecomjs => 39,
        ProviderKind::Edenai => 40,
        ProviderKind::Zenmux => 41,
        ProviderKind::Csdn => 42,
        ProviderKind::Concentrate => 43,
        ProviderKind::ModelstudioTokenPlan => 45,
        ProviderKind::ModelstudioTokenPlanAnthropic => 46,
        ProviderKind::ModelstudioCodingPlan => 47,
        ProviderKind::ModelstudioCodingPlanAnthropic => 48,
        ProviderKind::Custom => 51,
    }
}

/// The characters of each string of a list.
pub open spec fn words(list: Seq<&'static str>) -> Seq<Seq<char>> {
    list.map_values(|s: &'static str| s@)
}

impl ProviderKind {
    /// Canonical identifier of this provider.
    pub fn as_str(self) -> (r: &'static str)
        ensures
            r@ == provider_id(self),
    {
        match self {
            ProviderKind::Deepseek => "deepseek",
            ProviderKind::DeepseekAnthropic => "deepseek-anthropic",
            ProviderKind::NvidiaNim => "nvidia-nim",
            ProviderKind::Openai => "openai",
            ProviderKind::Atlascloud => "atlascloud",
            ProviderKind::WanjieArk => "wanjie-ark",
            ProviderKind::Volcengine => "volcengine",
            ProviderKind::Openrouter => "openrouter",
            ProviderKind::Orcarouter => "orcarouter",
            ProviderKind::XiaomiMimo => "xiaomi-mimo",
            ProviderKind::Novita => "novita",
            ProviderKind::Fireworks => "fireworks",
            ProviderKind::Siliconflow => "siliconflow",
            ProviderKind::SiliconflowCN => "siliconflow-CN",
            ProviderKind::Arcee => "arcee",
            ProviderKind::Moonshot => "moonshot",
            ProviderKind::Sglang => "sglang",
            ProviderKind::Vllm => "vllm",
            ProviderKind::Ollama => "ollama",
            ProviderKind::OllamaCloud => "ollama-cloud",
            ProviderKind::Huggingface => "huggingface",
            ProviderKind::Modelscope => "modelscope",
            ProviderKind::Together => "together",
            ProviderKind::Qianfan => "qianfan",
            ProviderKind::Mistral => "mistral",
            ProviderKind::Antigravity => "antigravity",
            ProviderKind::Google => "google",
            ProviderKind::OpenaiCodex => "openai-codex",
            ProviderKind::Anthropic => "anthropic",
            ProviderKind::Openmodel => "openmodel",
            ProviderKind::Zai => "zai",
            ProviderKind::Stepfun => "stepfun",
            ProviderKind::Minimax => "minimax",
            ProviderKind::MinimaxAnthropic => "minimax-anthropic",
            ProviderKind::Deepinfra => "deepinfra",
            ProviderKind::Sakana => "sakana",
            ProviderKind::LongCat => "longcat",
            ProviderKind::OpencodeGo => "opencode-go",
            ProviderKind::OpencodeZen => "opencode-zen",
            ProviderKind::Codewhale => "codewhale",
            ProviderKind::Meta => "meta",
            ProviderKind::Xai => "xai",
            ProviderKind::Telecomjs => "telecomjs",
            ProviderKind::Edenai => "edenai",
            ProviderKind::Zenmux => "zenmux",
            ProviderKind::Csdn => "csdn",
            ProviderKind::Concentrate => "concentrate",
            ProviderKind::ModelstudioTokenPlan => "modelstudio-token-plan",
            ProviderKind::ModelstudioTokenPlanAnthropic => "modelstudio-token-plan-anthropic",
            ProviderKind::ModelstudioCodingPlan => "modelstudio-coding-plan",
            ProviderKind::ModelstudioCodingPlanAnthropic => "modelstudio-coding-plan-anthropic",
            ProviderKind::Custom => "custom",
        }
    }
}

/// The registry lists every provider kind exactly once.
pub proof fn registry_lists_every_kind_once()
    ensures
        registry().len() == 52,
        forall|kind: ProviderKind|
            0 <= #[trigger] registry_position(kind) < 52 && registry()[registry_position(kind)]
                == kind,
        forall|i: int|
            0 <= i < 52 ==> registry_position(#[trigger] registry()[i]) == i,
{
}


/// A character as it stands in a configuration key.
pub open spec fn key_char(c: char) -> char {
    if c == '-' {
        '_'
    } else {
        lower_char(c)
    }
}

/// A provider's configuration key is its id in lower case with underscores in
/// place of hyphens.
pub proof fn a_config_key_is_the_folded_id(kind: ProviderKind)
    ensures
        provider_config_key_of(kind) == provider_id(kind).map_values(|c: char| key_char(c)),
{
    match kind {
        ProviderKind::Deepseek => {
            reveal_strlit("deepseek");
        },
        ProviderKind::DeepseekAnthropic => {
            reveal_strlit("deepseek-anthropic");
            reveal_strlit("deepseek_anthropic");
        },
        ProviderKind::NvidiaNim => {
            reveal_strlit("nvidia-nim");
            reveal_strlit("nvidia_nim");
        },
        ProviderKind::Openai => {
            reveal_strlit("openai");
        },
        ProviderKind::Atlascloud => {
            reveal_strlit("atlascloud");
        },
        ProviderKind::WanjieArk => {
            reveal_strlit("wanjie-ark");
            reveal_strlit("wanjie_ark");
        },
        ProviderKind::Volcengine => {
            reveal_strlit("volcengine");
        },
        ProviderKind::Openrouter => {
            reveal_strlit("openrouter");
        },
        ProviderKind::Orcarouter => {
            reveal_strlit("orcarouter");
        },
        ProviderKind::XiaomiMimo => {
            reveal_strlit("xiaomi-mimo");
            reveal_strlit("xiaomi_mimo");
        },
        ProviderKind::Novita => {
            reveal_strlit("novita");
        },
        ProviderKind::Fireworks => {
            reveal_strlit("fireworks");
        },
        ProviderKind::Siliconflow => {
            reveal_strlit("siliconflow");
        },
        ProviderKind::SiliconflowCN => {
            reveal_strlit("siliconflow-CN");
            reveal_strlit("siliconflow_cn");
        },
        ProviderKind::Arcee => {
            reveal_strlit("arcee");
        },
        ProviderKind::Moonshot => {
            reveal_strlit("moonshot");
        },
        ProviderKind::Sglang => {
            reveal_strlit("sglang");
        },
        ProviderKind::Vllm => {
            reveal_strlit("vllm");
        },
        ProviderKind::Ollama => {
            reveal_strlit("ollama");
        },
        ProviderKind::OllamaCloud => {
            reveal_strlit("ollama-cloud");
            reveal_strlit("ollama_cloud");
        },
        ProviderKind::Huggingface => {
            reveal_strlit("huggingface");
        },
        ProviderKind::Modelscope => {
            reveal_strlit("modelscope");
        },
        ProviderKind::Together => {
            reveal_strlit("together");
        },
        ProviderKind::Qianfan => {
            reveal_strlit("qianfan");
        },
        ProviderKind::Mistral => {
            reveal_strlit("mistral");
        },
        ProviderKind::Antigravity => {
            reveal_strlit("antigravity");
        },
        ProviderKind::Google => {
            reveal_strlit("google");
        },
        ProviderKind::OpenaiCodex => {
            reveal_strlit("openai-codex");
            reveal_strlit("openai_codex");
        },
        ProviderKind::Anthropic => {
            reveal_strlit("anthropic");
        },
        ProviderKind::Openmodel => {
            reveal_strlit("openmodel");
        },
        ProviderKind::Zai => {
            reveal_strlit("zai");
        },
        ProviderKind::Stepfun => {
            reveal_strlit("stepfun");
        },
        ProviderKind::Minimax => {
            reveal_strlit("minimax");
        },
        ProviderKind::MinimaxAnthropic => {
            reveal_strlit("minimax-anthropic");
            reveal_strlit("minimax_anthropic");
        },
        ProviderKind::Deepinfra => {
            reveal_strlit("deepinfra");
        },
        ProviderKind::Sakana => {
            reveal_strlit("sakana");
        },
        ProviderKind::LongCat => {
            reveal_strlit("longcat");
        },
        ProviderKind::OpencodeGo => {
            reveal_strlit("opencode-go");
            reveal_strlit("opencode_go");
        },
        ProviderKind::OpencodeZen => {
            reveal_strlit("opencode-zen");
            reveal_strlit("opencode_zen");
        },
        ProviderKind::Codewhale => {
            reveal_strlit("codewhale");
        },
        ProviderKind::Meta => {
            reveal_strlit("meta");
        },
        ProviderKind::Xai => {
            reveal_strlit("xai");
        },
        ProviderKind::Telecomjs => {
            reveal_strlit("telecomjs");
        },
        ProviderKind::Edenai => {
            reveal_strlit("edenai");
        },
        ProviderKind::Zenmux => {
            reveal_strlit("zenmux");
        },
        ProviderKind::Csdn => {
            reveal_strlit("csdn");
        },
        ProviderKind::Concentrate => {
            reveal_strlit("concentrate");
        },
        ProviderKind::ModelstudioTokenPlan => {
            reveal_strlit("modelstudio-token-plan");
            reveal_strlit("modelstudio_token_plan");
        },
        ProviderKind::ModelstudioTokenPlanAnthropic => {
            reveal_strlit("modelstudio-token-plan-anthropic");
            reveal_strlit("modelstudio_token_plan_anthropic");
        },
        ProviderKind::ModelstudioCodingPlan => {
            reveal_strlit("modelstudio-coding-plan");
            reveal_strlit("modelstudio_coding_plan");
        },
        ProviderKind::ModelstudioCodingPlanAnthropic => {
            reveal_strlit("modelstudio-coding-plan-anthropic");
            reveal_strlit("modelstudio_coding_plan_anthropic");
        },
        ProviderKind::Custom => {
            reveal_strlit("custom");
        },
    }
    assert(provider_config_key_of(kind) =~= provider_id(kind).map_values(|c: char| key_char(c)));
}

/// The variants of one vendor's service are opened by the same variables.
pub proof fn variants_share_their_variables(kind: ProviderKind)
    ensures
        provider_env_vars(ProviderKind::DeepseekAnthropic) == provider_env_vars(
            ProviderKind::Deepseek,
        ),
        provider_env_vars(ProviderKind::SiliconflowCN) == provider_env_vars(
            ProviderKind::Siliconflow,
        ),
        provider_env_vars(ProviderKind::MinimaxAnthropic) == provider_env_vars(
            ProviderKind::Minimax,
        ),
        kind == ProviderKind::ModelstudioTokenPlanAnthropic || kind
            == ProviderKind::ModelstudioCodingPlan || kind
            == ProviderKind::ModelstudioCodingPlanAnthropic ==> provider_env_vars(kind)
            == provider_env_vars(ProviderKind::ModelstudioTokenPlan),
        provider_env_vars(kind).len() == 0 <==> kind == ProviderKind::Antigravity || kind
            == ProviderKind::Custom,
{
}


/// A character as it stands in the name of an environment variable.
pub open spec fn variable_char(c: char) -> char {
    if 'a' <= c <= 'z' {
        ((c as u8) - 32) as char
    } else {
        c
    }
}

/// Whether the first variable of a provider is named otherwise than after its
/// configuration key: a variant takes those of its vendor, some vendors name
/// theirs in their own way, and the custom and the legacy entry have none.
pub open spec fn names_its_own_variable(kind: ProviderKind) -> bool {
    kind == ProviderKind::DeepseekAnthropic
        || kind == ProviderKind::NvidiaNim
        || kind == ProviderKind::XiaomiMimo
        || kind == ProviderKind::SiliconflowCN
        || kind == ProviderKind::Antigravity
        || kind == ProviderKind::OpenaiCodex
        || kind == ProviderKind::MinimaxAnthropic
        || kind == ProviderKind::Sakana
        || kind == ProviderKind::Meta
        || kind == ProviderKind::ModelstudioTokenPlan
        || kind == ProviderKind::ModelstudioTokenPlanAnthropic
        || kind == ProviderKind::ModelstudioCodingPlan
        || kind == ProviderKind::ModelstudioCodingPlanAnthropic
        || kind == ProviderKind::Custom
}

/// The first variable of a provider is its configuration key in capitals with the
/// usual ending.
pub proof fn a_variable_is_named_after_its_provider(kind: ProviderKind)
    requires
        !names_its_own_variable(kind),
    ensures
        provider_env_vars(kind).len() > 0,
        provider_env_vars(kind)[0] == provider_config_key_of(kind).map_values(
            |c: char| variable_char(c),
        ) + "_API_KEY"@,
{
    reveal_strlit("_API_KEY");
    match kind {
        ProviderKind::Deepseek => {
            reveal_strlit("deepseek");
            reveal_strlit("DEEPSEEK_API_KEY");
            assert(provider_env_vars(kind)[0] == "DEEPSEEK_API_KEY"@);
        },
        ProviderKind::Openai => {
            reveal_strlit("openai");
            reveal_strlit("OPENAI_API_KEY");
            assert(provider_env_vars(kind)[0] == "OPENAI_API_KEY"@);
        },
        ProviderKind::Atlascloud => {
            reveal_strlit("atlascloud");
            reveal_strlit("ATLASCLOUD_API_KEY");
            assert(provider_env_vars(kind)[0] == "ATLASCLOUD_API_KEY"@);
        },
        ProviderKind::WanjieArk => {
            reveal_strlit("wanjie_ark");
            reveal_strlit("WANJIE_ARK_API_KEY");
            assert(provider_env_vars(kind)[0] == "WANJIE_ARK_API_KEY"@);
        },
        ProviderKind::Volcengine => {
            reveal_strlit("volcengine");
            reveal_strlit("VOLCENGINE_API_KEY");
            assert(provider_env_vars(kind)[0] == "VOLCENGINE_API_KEY"@);
        },
        ProviderKind::Openrouter => {
            reveal_strlit("openrouter");
            reveal_strlit("OPENROUTER_API_KEY");
            assert(provider_env_vars(kind)[0] == "OPENROUTER_API_KEY"@);
        },
        ProviderKind::Orcarouter => {
            reveal_strlit("orcarouter");
            reveal_strlit("ORCAROUTER_API_KEY");
            assert(provider_env_vars(kind)[0] == "ORCAROUTER_API_KEY"@);
        },
        ProviderKind::Novita => {
            reveal_strlit("novita");
            reveal_strlit("NOVITA_API_KEY");
            assert(provider_env_vars(kind)[0] == "NOVITA_API_KEY"@);
        },
        ProviderKind::Fireworks => {
            reveal_strlit("fireworks");
            reveal_strlit("FIREWORKS_API_KEY");
            assert(provider_env_vars(kind)[0] == "FIREWORKS_API_KEY"@);
        },
        ProviderKind::Siliconflow => {
            reveal_strlit("siliconflow");
            reveal_strlit("SILICONFLOW_API_KEY");
            assert(provider_env_vars(kind)[0] == "SILICONFLOW_API_KEY"@);
        },
        ProviderKind::Arcee => {
            reveal_strlit("arcee");
            reveal_strlit("ARCEE_API_KEY");
            assert(provider_env_vars(kind)[0] == "ARCEE_API_KEY"@);
        },
        ProviderKind::Moonshot => {
            reveal_strlit("moonshot");
            reveal_strlit("MOONSHOT_API_KEY");
            assert(provider_env_vars(kind)[0] == "MOONSHOT_API_KEY"@);
        },
        ProviderKind::Sglang => {
            reveal_strlit("sglang");
            reveal_strlit("SGLANG_API_KEY");
            assert(provider_env_vars(kind)[0] == "SGLANG_API_KEY"@);
        },
        ProviderKind::Vllm => {
            reveal_strlit("vllm");
            reveal_strlit("VLLM_API_KEY");
            assert(provider_env_vars(kind)[0] == "VLLM_API_KEY"@);
        },
        ProviderKind::Ollama => {
            reveal_strlit("ollama");
            reveal_strlit("OLLAMA_API_KEY");
            assert(provider_env_vars(kind)[0] == "OLLAMA_API_KEY"@);
        },
        ProviderKind::OllamaCloud => {
            reveal_strlit("ollama_cloud");
            reveal_strlit("OLLAMA_CLOUD_API_KEY");
            assert(provider_env_vars(kind)[0] == "OLLAMA_CLOUD_API_KEY"@);
        },
        ProviderKind::Huggingface => {
            reveal_strlit("huggingface");
            reveal_strlit("HUGGINGFACE_API_KEY");
            assert(provider_env_vars(kind)[0] == "HUGGINGFACE_API_KEY"@);
        },
        ProviderKind::Modelscope => {
            reveal_strlit("modelscope");
            reveal_strlit("MODELSCOPE_API_KEY");
            assert(provider_env_vars(kind)[0] == "MODELSCOPE_API_KEY"@);
        },
        ProviderKind::Together => {
            reveal_strlit("together");
            reveal_strlit("TOGETHER_API_KEY");
            assert(provider_env_vars(kind)[0] == "TOGETHER_API_KEY"@);
        },
        ProviderKind::Qianfan => {
            reveal_strlit("qianfan");
            reveal_strlit("QIANFAN_API_KEY");
            assert(provider_env_vars(kind)[0] == "QIANFAN_API_KEY"@);
        },
        ProviderKind::Mistral => {
            reveal_strlit("mistral");
            reveal_strlit("MISTRAL_API_KEY");
            assert(provider_env_vars(kind)[0] == "MISTRAL_API_KEY"@);
        },
        ProviderKind::Google => {
            reveal_strlit("google");
            reveal_strlit("GOOGLE_API_KEY");
            assert(provider_env_vars(kind)[0] == "GOOGLE_API_KEY"@);
        },
        ProviderKind::Anthropic => {
            reveal_strlit("anthropic");
            reveal_strlit("ANTHROPIC_API_KEY");
            assert(provider_env_vars(kind)[0] == "ANTHROPIC_API_KEY"@);
        },
        ProviderKind::Openmodel => {
            reveal_strlit("openmodel");
            reveal_strlit("OPENMODEL_API_KEY");
            assert(provider_env_vars(kind)[0] == "OPENMODEL_API_KEY"@);
        },
        ProviderKind::Zai => {
            reveal_strlit("zai");
            reveal_strlit("ZAI_API_KEY");
            assert(provider_env_vars(kind)[0] == "ZAI_API_KEY"@);
        },
        ProviderKind::Stepfun => {
            reveal_strlit("stepfun");
            reveal_strlit("STEPFUN_API_KEY");
            assert(provider_env_vars(kind)[0] == "STEPFUN_API_KEY"@);
        },
        ProviderKind::Minimax => {
            reveal_strlit("minimax");
            reveal_strlit("MINIMAX_API_KEY");
            assert(provider_env_vars(kind)[0] == "MINIMAX_API_KEY"@);
        },
        ProviderKind::Deepinfra => {
            reveal_strlit("deepinfra");
            reveal_strlit("DEEPINFRA_API_KEY");
            assert(provider_env_vars(kind)[0] == "DEEPINFRA_API_KEY"@);
        },
        ProviderKind::LongCat => {
            reveal_strlit("longcat");
            reveal_strlit("LONGCAT_API_KEY");
            assert(provider_env_vars(kind)[0] == "LONGCAT_API_KEY"@);
        },
        ProviderKind::OpencodeGo => {
            reveal_strlit("opencode_go");
            reveal_strlit("OPENCODE_GO_API_KEY");
            assert(provider_env_vars(kind)[0] == "OPENCODE_GO_API_KEY"@);
        },
        ProviderKind::OpencodeZen => {
            reveal_strlit("opencode_zen");
            reveal_strlit("OPENCODE_ZEN_API_KEY");
            assert(provider_env_vars(kind)[0] == "OPENCODE_ZEN_API_KEY"@);
        },
        ProviderKind::Codewhale => {
            reveal_strlit("codewhale");
            reveal_strlit("CODEWHALE_API_KEY");
            assert(provider_env_vars(kind)[0] == "CODEWHALE_API_KEY"@);
        },
        ProviderKind::Xai => {
            reveal_strlit("xai");
            reveal_strlit("XAI_API_KEY");
            assert(provider_env_vars(kind)[0] == "XAI_API_KEY"@);
        },
        ProviderKind::Telecomjs => {
            reveal_strlit("telecomjs");
            reveal_strlit("TELECOMJS_API_KEY");
            assert(provider_env_vars(kind)[0] == "TELECOMJS_API_KEY"@);
        },
        ProviderKind::Edenai => {
            reveal_strlit("edenai");
            reveal_strlit("EDENAI_API_KEY");
            assert(provider_env_vars(kind)[0] == "EDENAI_API_KEY"@);
        },
        ProviderKind::Zenmux => {
            reveal_strlit("zenmux");
            reveal_strlit("ZENMUX_API_KEY");
            assert(provider_env_vars(kind)[0] == "ZENMUX_API_KEY"@);
        },
        ProviderKind::Csdn => {
            reveal_strlit("csdn");
            reveal_strlit("CSDN_API_KEY");
            assert(provider_env_vars(kind)[0] == "CSDN_API_KEY"@);
        },
        ProviderKind::Concentrate => {
            reveal_strlit("concentrate");
            reveal_strlit("CONCENTRATE_API_KEY");
            assert(provider_env_vars(kind)[0] == "CONCENTRATE_API_KEY"@);
        },
        _ => {},
    }
    assert(provider_env_vars(kind)[0] =~= provider_config_key_of(kind).map_values(
        |c: char| variable_char(c),
    ) + "_API_KEY"@);
}

/// Which providers speak which format: the entries for Messages endpoints speak
/// Messages, the Codex account and Concentrate speak Responses, four providers
/// choose per model, and every other one speaks Chat Completions.
pub proof fn formats_follow_the_provider(kind: ProviderKind)
    ensures
        provider_wire_policy(kind) == WirePolicy::ModelAware <==> kind == ProviderKind::Deepseek
            || kind == ProviderKind::OpencodeGo || kind == ProviderKind::OpencodeZen || kind
            == ProviderKind::Codewhale,
        provider_wire_policy(kind) == WirePolicy::Fixed(WireFormat::Responses) <==> kind
            == ProviderKind::OpenaiCodex || kind == ProviderKind::Concentrate,
        provider_wire_policy(kind) == WirePolicy::Fixed(WireFormat::AnthropicMessages) <==> kind
            == ProviderKind::DeepseekAnthropic || kind == ProviderKind::Anthropic || kind
            == ProviderKind::Openmodel || kind == ProviderKind::MinimaxAnthropic || kind
            == ProviderKind::ModelstudioTokenPlanAnthropic || kind
            == ProviderKind::ModelstudioCodingPlanAnthropic,
{
}

} // verus!
