//! Routable providers and the catalog partition that each of them reads.

use vstd::prelude::*;
use crate::provider::{
    display_order, entry_kinds, kind_named, providers_sorted_for_display, BuiltInProvider,
};
use crate::provider_kind::{provider_id, ProviderKind};
use crate::provider_names::ids_are_trimmed;
use crate::text::{trim, trim_keeps_the_middle, trimmed};

verus! {

broadcast use vstd::string::group_string_axioms;

/// A provider that a session can route to: every provider kind, and the legacy
/// `deepseek-cn` alias, which has no kind of its own.
#[derive(Debug, Clone, Copy, PartialEq, Eq, Structural)]
pub enum ApiProvider {
    Deepseek,
    DeepseekCN,
    DeepseekAnthropic,
    NvidiaNim,
    Openai,
    Atlascloud,
    WanjieArk,
    Volcengine,
    Openrouter,
    Orcarouter,
    XiaomiMimo,
    Novita,
    Fireworks,
    Siliconflow,
    SiliconflowCn,
    Arcee,
    Moonshot,
    Sglang,
    Vllm,
    Ollama,
    OllamaCloud,
    Huggingface,
    Modelscope,
    Together,
    Qianfan,
    Mistral,
    Antigravity,
    Google,
    OpenaiCodex,
    Anthropic,
    Openmodel,
    Zai,
    Stepfun,
    Minimax,
    MinimaxAnthropic,
    Deepinfra,
    Sakana,
    LongCat,
    OpencodeGo,
    OpencodeZen,
    Codewhale,
    Meta,
    Xai,
    Telecomjs,
    Edenai,
    Zenmux,
    Csdn,
    Concentrate,
    ModelstudioTokenPlan,
    ModelstudioTokenPlanAnthropic,
    ModelstudioCodingPlan,
    ModelstudioCodingPlanAnthropic,
    Custom,
}

/// The canonical kind of a routable provider.
pub open spec fn api_kind(provider: ApiProvider) -> Option<ProviderKind> {
    match provider {
        ApiProvider::DeepseekCN => None,
        ApiProvider::Deepseek => Some(ProviderKind::Deepseek),
        ApiProvider::DeepseekAnthropic => Some(ProviderKind::DeepseekAnthropic),
        ApiProvider::NvidiaNim => Some(ProviderKind::NvidiaNim),
        ApiProvider::Openai => Some(ProviderKind::Openai),
        ApiProvider::Atlascloud => Some(ProviderKind::Atlascloud),
        ApiProvider::WanjieArk => Some(ProviderKind::WanjieArk),
        ApiProvider::Volcengine => Some(ProviderKind::Volcengine),
        ApiProvider::Openrouter => Some(ProviderKind::Openrouter),
        ApiProvider::Orcarouter => Some(ProviderKind::Orcarouter),
        ApiProvider::XiaomiMimo => Some(ProviderKind::XiaomiMimo),
        ApiProvider::Novita => Some(ProviderKind::Novita),
        ApiProvider::Fireworks => Some(ProviderKind::Fireworks),
        ApiProvider::Siliconflow => Some(ProviderKind::Siliconflow),
        ApiProvider::SiliconflowCn => Some(ProviderKind::SiliconflowCN),
        ApiProvider::Arcee => Some(ProviderKind::Arcee),
        ApiProvider::Moonshot => Some(ProviderKind::Moonshot),
        ApiProvider::Sglang => Some(ProviderKind::Sglang),
        ApiProvider::Vllm => Some(ProviderKind::Vllm),
        ApiProvider::Ollama => Some(ProviderKind::Ollama),
        ApiProvider::OllamaCloud => Some(ProviderKind::OllamaCloud),
        ApiProvider::Huggingface => Some(ProviderKind::Huggingface),
        ApiProvider::Modelscope => Some(ProviderKind::Modelscope),
        ApiProvider::Together => Some(ProviderKind::Together),
        ApiProvider::Qianfan => Some(ProviderKind::Qianfan),
        ApiProvider::Mistral => Some(ProviderKind::Mistral),
        ApiProvider::Antigravity => Some(ProviderKind::Antigravity),
        ApiProvider::Google => Some(ProviderKind::Google),
        ApiProvider::OpenaiCodex => Some(ProviderKind::OpenaiCodex),
        ApiProvider::Anthropic => Some(ProviderKind::Anthropic),
        ApiProvider::Openmodel => Some(ProviderKind::Openmodel),
        ApiProvider::Zai => Some(ProviderKind::Zai),
        ApiProvider::Stepfun => Some(ProviderKind::Stepfun),
        ApiProvider::Minimax => Some(ProviderKind::Minimax),
        ApiProvider::MinimaxAnthropic => Some(ProviderKind::MinimaxAnthropic),
        ApiProvider::Deepinfra => Some(ProviderKind::Deepinfra),
        ApiProvider::Sakana => Some(ProviderKind::Sakana),
        ApiProvider::LongCat => Some(ProviderKind::LongCat),
        ApiProvider::OpencodeGo => Some(ProviderKind::OpencodeGo),
        ApiProvider::OpencodeZen => Some(ProviderKind::OpencodeZen),
        ApiProvider::Codewhale => Some(ProviderKind::Codewhale),
        ApiProvider::Meta => Some(ProviderKind::Meta),
        ApiProvider::Xai => Some(ProviderKind::Xai),
        ApiProvider::Telecomjs => Some(ProviderKind::Telecomjs),
        ApiProvider::Edenai => Some(ProviderKind::Edenai),
        ApiProvider::Zenmux => Some(ProviderKind::Zenmux),
        ApiProvider::Csdn => Some(ProviderKind::Csdn),
        ApiProvider::Concentrate => Some(ProviderKind::Concentrate),
        ApiProvider::ModelstudioTokenPlan => Some(ProviderKind::ModelstudioTokenPlan),
        ApiProvider::ModelstudioTokenPlanAnthropic => Some(ProviderKind::ModelstudioTokenPlanAnthropic),
        ApiProvider::ModelstudioCodingPlan => Some(ProviderKind::ModelstudioCodingPlan),
        ApiProvider::ModelstudioCodingPlanAnthropic => Some(ProviderKind::ModelstudioCodingPlanAnthropic),
        ApiProvider::Custom => Some(ProviderKind::Custom),
    }
}

/// The routable provider of a kind.
pub open spec fn api_of_kind(kind: ProviderKind) -> ApiProvider {
    match kind {
        ProviderKind::Deepseek => ApiProvider::Deepseek,
        ProviderKind::DeepseekAnthropic => ApiProvider::DeepseekAnthropic,
        ProviderKind::NvidiaNim => ApiProvider::NvidiaNim,
        ProviderKind::Openai => ApiProvider::Openai,
        ProviderKind::Atlascloud => ApiProvider::Atlascloud,
        ProviderKind::WanjieArk => ApiProvider::WanjieArk,
        ProviderKind::Volcengine => ApiProvider::Volcengine,
        ProviderKind::Openrouter => ApiProvider::Openrouter,
        ProviderKind::Orcarouter => ApiProvider::Orcarouter,
        ProviderKind::XiaomiMimo => ApiProvider::XiaomiMimo,
        ProviderKind::Novita => ApiProvider::Novita,
        ProviderKind::Fireworks => ApiProvider::Fireworks,
        ProviderKind::Siliconflow => ApiProvider::Siliconflow,
        ProviderKind::SiliconflowCN => ApiProvider::SiliconflowCn,
        ProviderKind::Arcee => ApiProvider::Arcee,
        ProviderKind::Moonshot => ApiProvider::Moonshot,
        ProviderKind::Sglang => ApiProvider::Sglang,
        ProviderKind::Vllm => ApiProvider::Vllm,
        ProviderKind::Ollama => ApiProvider::Ollama,
        ProviderKind::OllamaCloud => ApiProvider::OllamaCloud,
        ProviderKind::Huggingface => ApiProvider::Huggingface,
        ProviderKind::Modelscope => ApiProvider::Modelscope,
        ProviderKind::Together => ApiProvider::Together,
        ProviderKind::Qianfan => ApiProvider::Qianfan,
        ProviderKind::Mistral => ApiProvider::Mistral,
        ProviderKind::Antigravity => ApiProvider::Antigravity,
        ProviderKind::Google => ApiProvider::Google,
        ProviderKind::OpenaiCodex => ApiProvider::OpenaiCodex,
        ProviderKind::Anthropic => ApiProvider::Anthropic,
        ProviderKind::Openmodel => ApiProvider::Openmodel,
        ProviderKind::Zai => ApiProvider::Zai,
        ProviderKind::Stepfun => ApiProvider::Stepfun,
        ProviderKind::Minimax => ApiProvider::Minimax,
        ProviderKind::MinimaxAnthropic => ApiProvider::MinimaxAnthropic,
        ProviderKind::Deepinfra => ApiProvider::Deepinfra,
        ProviderKind::Sakana => ApiProvider::Sakana,
        ProviderKind::LongCat => ApiProvider::LongCat,
        ProviderKind::OpencodeGo => ApiProvider::OpencodeGo,
        ProviderKind::OpencodeZen => ApiProvider::OpencodeZen,
        ProviderKind::Codewhale => ApiProvider::Codewhale,
        ProviderKind::Meta => ApiProvider::Meta,
        ProviderKind::Xai => ApiProvider::Xai,
        ProviderKind::Telecomjs => ApiProvider::Telecomjs,
        ProviderKind::Edenai => ApiProvider::Edenai,
        ProviderKind::Zenmux => ApiProvider::Zenmux,
        ProviderKind::Csdn => ApiProvider::Csdn,
        ProviderKind::Concentrate => ApiProvider::Concentrate,
        ProviderKind::ModelstudioTokenPlan => ApiProvider::ModelstudioTokenPlan,
        ProviderKind::ModelstudioTokenPlanAnthropic => ApiProvider::ModelstudioTokenPlanAnthropic,
        ProviderKind::ModelstudioCodingPlan => ApiProvider::ModelstudioCodingPlan,
        ProviderKind::ModelstudioCodingPlanAnthropic => ApiProvider::ModelstudioCodingPlanAnthropic,
        ProviderKind::Custom => ApiProvider::Custom,
    }
}

/// The identifier of a routable provider.
pub open spec fn api_id(provider: ApiProvider) -> Seq<char> {
    match api_kind(provider) {
        Some(kind) => provider_id(kind),
        None => "deepseek-cn"@,
    }
}

/// The routable provider that a canonical id or an alias denotes.
pub open spec fn api_named(name: Seq<char>) -> Option<ApiProvider> {
    match kind_named(name) {
        Some(kind) => Some(api_of_kind(kind)),
        None => None,
    }
}

/// The provider id under which the catalogs list a routable provider. Regional
/// and dual-wire variants read the rows of the vendor's primary.
pub open spec fn catalog_id(provider: ApiProvider) -> Seq<char> {
    match provider {
        ApiProvider::DeepseekCN | ApiProvider::DeepseekAnthropic => "deepseek"@,
        ApiProvider::SiliconflowCn => "siliconflow"@,
        _ => api_id(provider),
    }
}

/// The catalog partition of a concrete route: a custom route that names its
/// identity owns the partition of that name, every other route reads the one of
/// its provider.
pub open spec fn catalog_id_for_identity(
    provider: ApiProvider,
    identity: Option<Seq<char>>,
) -> Seq<char> {
    match identity {
        Some(name) => if provider == ApiProvider::Custom && trim(name).len() > 0 {
            trim(name)
        } else {
            catalog_id(provider)
        },
        None => catalog_id(provider),
    }
}

/// The characters of an optional borrowed string.
pub open spec fn optional_str(s: Option<&str>) -> Option<Seq<char>> {
    match s {
        Some(t) => Some(t@),
        None => None,
    }
}

/// Every kind has one routable provider, and every routable provider other than
/// the legacy alias has one kind.
pub proof fn kinds_and_routable_providers_correspond(kind: ProviderKind, provider: ApiProvider)
    ensures
        api_kind(api_of_kind(kind)) == Some(kind),
        api_kind(provider) is None <==> provider == ApiProvider::DeepseekCN,
        api_kind(provider) is Some ==> api_of_kind(api_kind(provider)->0) == provider,
{
}

/// The catalog partition of a route is a name without surrounding white space.
pub proof fn catalog_ids_are_trimmed(provider: ApiProvider, identity: Option<Seq<char>>)
    ensures
        catalog_id(provider).len() > 0,
        trim(catalog_id(provider)) == catalog_id(provider),
        catalog_id_for_identity(provider, identity).len() > 0,
        trim(catalog_id_for_identity(provider, identity)) == catalog_id_for_identity(
            provider,
            identity,
        ),
{
    match provider {
        ApiProvider::DeepseekCN => ids_are_trimmed(ProviderKind::Deepseek),
        ApiProvider::DeepseekAnthropic => ids_are_trimmed(ProviderKind::Deepseek),
        ApiProvider::SiliconflowCn => ids_are_trimmed(ProviderKind::Siliconflow),
        _ => ids_are_trimmed(api_kind(provider)->0),
    }
    if let Some(name) = identity {
        trim_keeps_the_middle(name);
    }
}

impl ApiProvider {
    /// The canonical kind, or `None` for the legacy alias that has none.
    #[must_use]
    pub fn kind(self) -> (r: Option<ProviderKind>)
        ensures
            r == api_kind(self),
    {
        match self {
            ApiProvider::DeepseekCN => None,
            ApiProvider::Deepseek => Some(ProviderKind::Deepseek),
            ApiProvider::DeepseekAnthropic => Some(ProviderKind::DeepseekAnthropic),
            ApiProvider::NvidiaNim => Some(ProviderKind::NvidiaNim),
            ApiProvider::Openai => Some(ProviderKind::Openai),
            ApiProvider::Atlascloud => Some(ProviderKind::Atlascloud),
            ApiProvider::WanjieArk => Some(ProviderKind::WanjieArk),
            ApiProvider::Volcengine => Some(ProviderKind::Volcengine),
            ApiProvider::Openrouter => Some(ProviderKind::Openrouter),
            ApiProvider::Orcarouter => Some(ProviderKind::Orcarouter),
            ApiProvider::XiaomiMimo => Some(ProviderKind::XiaomiMimo),
            ApiProvider::Novita => Some(ProviderKind::Novita),
            ApiProvider::Fireworks => Some(ProviderKind::Fireworks),
            ApiProvider::Siliconflow => Some(ProviderKind::Siliconflow),
            ApiProvider::SiliconflowCn => Some(ProviderKind::SiliconflowCN),
            ApiProvider::Arcee => Some(ProviderKind::Arcee),
            ApiProvider::Moonshot => Some(ProviderKind::Moonshot),
            ApiProvider::Sglang => Some(ProviderKind::Sglang),
            ApiProvider::Vllm => Some(ProviderKind::Vllm),
            ApiProvider::Ollama => Some(ProviderKind::Ollama),
            ApiProvider::OllamaCloud => Some(ProviderKind::OllamaCloud),
            ApiProvider::Huggingface => Some(ProviderKind::Huggingface),
            ApiProvider::Modelscope => Some(ProviderKind::Modelscope),
            ApiProvider::Together => Some(ProviderKind::Together),
            ApiProvider::Qianfan => Some(ProviderKind::Qianfan),
            ApiProvider::Mistral => Some(ProviderKind::Mistral),
            ApiProvider::Antigravity => Some(ProviderKind::Antigravity),
            ApiProvider::Google => Some(ProviderKind::Google),
            ApiProvider::OpenaiCodex => Some(ProviderKind::OpenaiCodex),
            ApiProvider::Anthropic => Some(ProviderKind::Anthropic),
            ApiProvider::Openmodel => Some(ProviderKind::Openmodel),
            ApiProvider::Zai => Some(ProviderKind::Zai),
            ApiProvider::Stepfun => Some(ProviderKind::Stepfun),
            ApiProvider::Minimax => Some(ProviderKind::Minimax),
            ApiProvider::MinimaxAnthropic => Some(ProviderKind::MinimaxAnthropic),
            ApiProvider::Deepinfra => Some(ProviderKind::Deepinfra),
            ApiProvider::Sakana => Some(ProviderKind::Sakana),
            ApiProvider::LongCat => Some(ProviderKind::LongCat),
            ApiProvider::OpencodeGo => Some(ProviderKind::OpencodeGo),
            ApiProvider::OpencodeZen => Some(ProviderKind::OpencodeZen),
            ApiProvider::Codewhale => Some(ProviderKind::Codewhale),
            ApiProvider::Meta => Some(ProviderKind::Meta),
            ApiProvider::Xai => Some(ProviderKind::Xai),
            ApiProvider::Telecomjs => Some(ProviderKind::Telecomjs),
            ApiProvider::Edenai => Some(ProviderKind::Edenai),
            ApiProvider::Zenmux => Some(ProviderKind::Zenmux),
            ApiProvider::Csdn => Some(ProviderKind::Csdn),
            ApiProvider::Concentrate => Some(ProviderKind::Concentrate),
            ApiProvider::ModelstudioTokenPlan => Some(ProviderKind::ModelstudioTokenPlan),
            ApiProvider::ModelstudioTokenPlanAnthropic => Some(ProviderKind::ModelstudioTokenPlanAnthropic),
            ApiProvider::ModelstudioCodingPlan => Some(ProviderKind::ModelstudioCodingPlan),
            ApiProvider::ModelstudioCodingPlanAnthropic => Some(ProviderKind::ModelstudioCodingPlanAnthropic),
            ApiProvider::Custom => Some(ProviderKind::Custom),
        }
    }

    /// The routable provider of a kind.
    #[must_use]
    pub fn from_kind(kind: ProviderKind) -> (r: ApiProvider)
        ensures
            r == api_of_kind(kind),
    {
        match kind {
            ProviderKind::Deepseek => ApiProvider::Deepseek,
            ProviderKind::DeepseekAnthropic => ApiProvider::DeepseekAnthropic,
            ProviderKind::NvidiaNim => ApiProvider::NvidiaNim,
            ProviderKind::Openai => ApiProvider::Openai,
            ProviderKind::Atlascloud => ApiProvider::Atlascloud,
            ProviderKind::WanjieArk => ApiProvider::WanjieArk,
            ProviderKind::Volcengine => ApiProvider::Volcengine,
            ProviderKind::Openrouter => ApiProvider::Openrouter,
            ProviderKind::Orcarouter => ApiProvider::Orcarouter,
            ProviderKind::XiaomiMimo => ApiProvider::XiaomiMimo,
            ProviderKind::Novita => ApiProvider::Novita,
            ProviderKind::Fireworks => ApiProvider::Fireworks,
            ProviderKind::Siliconflow => ApiProvider::Siliconflow,
            ProviderKind::SiliconflowCN => ApiProvider::SiliconflowCn,
            ProviderKind::Arcee => ApiProvider::Arcee,
            ProviderKind::Moonshot => ApiProvider::Moonshot,
            ProviderKind::Sglang => ApiProvider::Sglang,
            ProviderKind::Vllm => ApiProvider::Vllm,
            ProviderKind::Ollama => ApiProvider::Ollama,
            ProviderKind::OllamaCloud => ApiProvider::OllamaCloud,
            ProviderKind::Huggingface => ApiProvider::Huggingface,
            ProviderKind::Modelscope => ApiProvider::Modelscope,
            ProviderKind::Together => ApiProvider::Together,
            ProviderKind::Qianfan => ApiProvider::Qianfan,
            ProviderKind::Mistral => ApiProvider::Mistral,
            ProviderKind::Antigravity => ApiProvider::Antigravity,
            ProviderKind::Google => ApiProvider::Google,
            ProviderKind::OpenaiCodex => ApiProvider::OpenaiCodex,
            ProviderKind::Anthropic => ApiProvider::Anthropic,
            ProviderKind::Openmodel => ApiProvider::Openmodel,
            ProviderKind::Zai => ApiProvider::Zai,
            ProviderKind::Stepfun => ApiProvider::Stepfun,
            ProviderKind::Minimax => ApiProvider::Minimax,
            ProviderKind::MinimaxAnthropic => ApiProvider::MinimaxAnthropic,
            ProviderKind::Deepinfra => ApiProvider::Deepinfra,
            ProviderKind::Sakana => ApiProvider::Sakana,
            ProviderKind::LongCat => ApiProvider::LongCat,
            ProviderKind::OpencodeGo => ApiProvider::OpencodeGo,
            ProviderKind::OpencodeZen => ApiProvider::OpencodeZen,
            ProviderKind::Codewhale => ApiProvider::Codewhale,
            ProviderKind::Meta => ApiProvider::Meta,
            ProviderKind::Xai => ApiProvider::Xai,
            ProviderKind::Telecomjs => ApiProvider::Telecomjs,
            ProviderKind::Edenai => ApiProvider::Edenai,
            ProviderKind::Zenmux => ApiProvider::Zenmux,
            ProviderKind::Csdn => ApiProvider::Csdn,
            ProviderKind::Concentrate => ApiProvider::Concentrate,
            ProviderKind::ModelstudioTokenPlan => ApiProvider::ModelstudioTokenPlan,
            ProviderKind::ModelstudioTokenPlanAnthropic => ApiProvider::ModelstudioTokenPlanAnthropic,
            ProviderKind::ModelstudioCodingPlan => ApiProvider::ModelstudioCodingPlan,
            ProviderKind::ModelstudioCodingPlanAnthropic => ApiProvider::ModelstudioCodingPlanAnthropic,
            ProviderKind::Custom => ApiProvider::Custom,
        }
    }

    /// The identifier of this provider.
    #[must_use]
    pub fn as_str(self) -> (r: &'static str)
        ensures
            r@ == api_id(self),
    {
        match self.kind() {
            Some(kind) => kind.as_str(),
            None => "deepseek-cn",
        }
    }

    /// The provider that a canonical id or an alias denotes.
    #[must_use]
    pub fn parse(value: &str) -> (r: Option<ApiProvider>)
        ensures
            r == api_named(value@),
    {
        match ProviderKind::parse(value) {
            Some(kind) => Some(ApiProvider::from_kind(kind)),
            None => None,
        }
    }

    /// Every routable provider.
    #[must_use]
    pub fn all() -> (r: &'static [ApiProvider])
        ensures
            forall|p: ApiProvider| r@.contains(p),
            r@.len() == 53,
    {
        let list: &'static [ApiProvider] = &[
            ApiProvider::Deepseek,
            ApiProvider::DeepseekCN,
            ApiProvider::DeepseekAnthropic,
            ApiProvider::NvidiaNim,
            ApiProvider::Openai,
            ApiProvider::Atlascloud,
            ApiProvider::WanjieArk,
            ApiProvider::Volcengine,
            ApiProvider::Openrouter,
            ApiProvider::Orcarouter,
            ApiProvider::XiaomiMimo,
            ApiProvider::Novita,
            ApiProvider::Fireworks,
            ApiProvider::Siliconflow,
            ApiProvider::SiliconflowCn,
            ApiProvider::Arcee,
            ApiProvider::Moonshot,
            ApiProvider::Sglang,
            ApiProvider::Vllm,
            ApiProvider::Ollama,
            ApiProvider::OllamaCloud,
            ApiProvider::Huggingface,
            ApiProvider::Modelscope,
            ApiProvider::Together,
            ApiProvider::Qianfan,
            ApiProvider::Mistral,
            ApiProvider::Antigravity,
            ApiProvider::Google,
            ApiProvider::OpenaiCodex,
            ApiProvider::Anthropic,
            ApiProvider::Openmodel,
            ApiProvider::Zai,
            ApiProvider::Stepfun,
            ApiProvider::Minimax,
            ApiProvider::MinimaxAnthropic,
            ApiProvider::Deepinfra,
            ApiProvider::Sakana,
            ApiProvider::LongCat,
            ApiProvider::OpencodeGo,
            ApiProvider::OpencodeZen,
            ApiProvider::Codewhale,
            ApiProvider::Meta,
            ApiProvider::Xai,
            ApiProvider::Telecomjs,
            ApiProvider::Edenai,
            ApiProvider::Zenmux,
            ApiProvider::Csdn,
            ApiProvider::Concentrate,
            ApiProvider::ModelstudioTokenPlan,
            ApiProvider::ModelstudioTokenPlanAnthropic,
            ApiProvider::ModelstudioCodingPlan,
            ApiProvider::ModelstudioCodingPlanAnthropic,
            ApiProvider::Custom,
        ];
        proof {
            assert forall|p: ApiProvider| list@.contains(p) by {
                match p {
                    ApiProvider::Deepseek => assert(list@[0] == p),
                    ApiProvider::DeepseekCN => assert(list@[1] == p),
                    ApiProvider::DeepseekAnthropic => assert(list@[2] == p),
                    ApiProvider::NvidiaNim => assert(list@[3] == p),
                    ApiProvider::Openai => assert(list@[4] == p),
                    ApiProvider::Atlascloud => assert(list@[5] == p),
                    ApiProvider::WanjieArk => assert(list@[6] == p),
                    ApiProvider::Volcengine => assert(list@[7] == p),
                    ApiProvider::Openrouter => assert(list@[8] == p),
                    ApiProvider::Orcarouter => assert(list@[9] == p),
                    ApiProvider::XiaomiMimo => assert(list@[10] == p),
                    ApiProvider::Novita => assert(list@[11] == p),
                    ApiProvider::Fireworks => assert(list@[12] == p),
                    ApiProvider::Siliconflow => assert(list@[13] == p),
                    ApiProvider::SiliconflowCn => assert(list@[14] == p),
                    ApiProvider::Arcee => assert(list@[15] == p),
                    ApiProvider::Moonshot => assert(list@[16] == p),
                    ApiProvider::Sglang => assert(list@[17] == p),
                    ApiProvider::Vllm => assert(list@[18] == p),
                    ApiProvider::Ollama => assert(list@[19] == p),
                    ApiProvider::OllamaCloud => assert(list@[20] == p),
                    ApiProvider::Huggingface => assert(list@[21] == p),
                    ApiProvider::Modelscope => assert(list@[22] == p),
                    ApiProvider::Together => assert(list@[23] == p),
                    ApiProvider::Qianfan => assert(list@[24] == p),
                    ApiProvider::Mistral => assert(list@[25] == p),
                    ApiProvider::Antigravity => assert(list@[26] == p),
                    ApiProvider::Google => assert(list@[27] == p),
                    ApiProvider::OpenaiCodex => assert(list@[28] == p),
                    ApiProvider::Anthropic => assert(list@[29] == p),
                    ApiProvider::Openmodel => assert(list@[30] == p),
                    ApiProvider::Zai => assert(list@[31] == p),
                    ApiProvider::Stepfun => assert(list@[32] == p),
                    ApiProvider::Minimax => assert(list@[33] == p),
                    ApiProvider::MinimaxAnthropic => assert(list@[34] == p),
                    ApiProvider::Deepinfra => assert(list@[35] == p),
                    ApiProvider::Sakana => assert(list@[36] == p),
                    ApiProvider::LongCat => assert(list@[37] == p),
                    ApiProvider::OpencodeGo => assert(list@[38] == p),
                    ApiProvider::OpencodeZen => assert(list@[39] == p),
                    ApiProvider::Codewhale => assert(list@[40] == p),
                    ApiProvider::Meta => assert(list@[41] == p),
                    ApiProvider::Xai => assert(list@[42] == p),
                    ApiProvider::Telecomjs => assert(list@[43] == p),
                    ApiProvider::Edenai => assert(list@[44] == p),
                    ApiProvider::Zenmux => assert(list@[45] == p),
                    ApiProvider::Csdn => assert(list@[46] == p),
                    ApiProvider::Concentrate => assert(list@[47] == p),
                    ApiProvider::ModelstudioTokenPlan => assert(list@[48] == p),
                    ApiProvider::ModelstudioTokenPlanAnthropic => assert(list@[49] == p),
                    ApiProvider::ModelstudioCodingPlan => assert(list@[50] == p),
                    ApiProvider::ModelstudioCodingPlanAnthropic => assert(list@[51] == p),
                    ApiProvider::Custom => assert(list@[52] == p),
                }
            }
        }
        list
    }

    /// The providers that browsing surfaces offer, in display order.
    #[must_use]
    pub fn sorted_for_display() -> (r: Vec<ApiProvider>)
        ensures
            r@ == display_order().map_values(|k: ProviderKind| api_of_kind(k)),
    {
        let entries: Vec<BuiltInProvider> = providers_sorted_for_display();
        let mut out: Vec<ApiProvider> = Vec::new();
        let mut i: usize = 0;
        while i < entries.len()
            invariant
                i <= entries.len(),
                out.len() == i,
                entry_kinds(entries@) == display_order(),
                forall|k: int|
                    0 <= k < i ==> #[trigger] out@[k] == api_of_kind(display_order()[k]),
            decreases entries.len() - i,
        {
            assert(entry_kinds(entries@)[i as int] == entries@[i as int].entry);
            out.push(ApiProvider::from_kind(entries[i].entry));
            i += 1;
        }
        assert(out@ =~= display_order().map_values(|k: ProviderKind| api_of_kind(k)));
        out
    }
}

/// The provider id under which the catalogs list a routable provider.
#[must_use]
pub fn catalog_provider_id(provider: ApiProvider) -> (r: &'static str)
    ensures
        r@ == catalog_id(provider),
{
    match provider {
        ApiProvider::DeepseekCN => "deepseek",
        ApiProvider::DeepseekAnthropic => "deepseek",
        ApiProvider::SiliconflowCn => "siliconflow",
        other => other.as_str(),
    }
}

/// Exact partition key for one provider-owned catalog.
///
/// Custom table identities are ownership boundaries and therefore remain
/// case-sensitive even when their spelling resembles a built-in provider.
#[must_use]
pub fn catalog_partition_key(provider: &str) -> (r: String)
    ensures
        r@ == trim(provider@),
{
    trimmed(provider).to_owned()
}

/// Resolve the catalog partition for a concrete route.
///
/// `ApiProvider::Custom` is only the wire family: named compatible providers
/// own independent catalogs and keep their exact identity.
#[must_use]
pub fn catalog_provider_id_for_identity(
    provider: ApiProvider,
    provider_identity: Option<&str>,
) -> (r: String)
    ensures
        r@ == catalog_id_for_identity(provider, optional_str(provider_identity)),
{
    if provider == ApiProvider::Custom {
        if let Some(identity) = provider_identity {
            let name: String = catalog_partition_key(identity);
            if name.as_str().unicode_len() > 0 {
                return name;
            }
        }
    }
    catalog_provider_id(provider).to_owned()
}


/// A provider reads the catalog rows under its own id, and a regional or dual-wire
/// variant under that of the vendor's primary. Only a custom route that names its
/// table reads under another name, which is that table's.
pub proof fn variants_read_the_rows_of_the_primary(provider: ApiProvider, identity: Seq<char>)
    ensures
        catalog_id(ApiProvider::DeepseekCN) == api_id(ApiProvider::Deepseek),
        catalog_id(ApiProvider::DeepseekAnthropic) == api_id(ApiProvider::Deepseek),
        catalog_id(ApiProvider::SiliconflowCn) == api_id(ApiProvider::Siliconflow),
        provider != ApiProvider::DeepseekCN && provider != ApiProvider::DeepseekAnthropic
            && provider != ApiProvider::SiliconflowCn ==> catalog_id(provider) == api_id(provider),
        catalog_id_for_identity(provider, None) == catalog_id(provider),
        provider != ApiProvider::Custom || trim(identity).len() == 0 ==> catalog_id_for_identity(
            provider,
            Some(identity),
        ) == catalog_id(provider),
        provider == ApiProvider::Custom && trim(identity).len() > 0 ==> catalog_id_for_identity(
            provider,
            Some(identity),
        ) == trim(identity),
{
}

} // verus!
