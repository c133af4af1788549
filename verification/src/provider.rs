//! Provider metadata entries and the registry that lists them.
//!
//! - [`all_providers`] is the full compatibility registry for internal identity
//!   matching, legacy entries among them.
//! - [`providers_sorted_for_display`] is the neutral alphabetical order for
//!   browsing, with legacy tombstones omitted.

use vstd::prelude::*;
use crate::builtin::{
    Anthropic, Antigravity, Arcee, Atlascloud, Codewhale, Concentrate, Csdn, Custom, Deepinfra,
    Deepseek, DeepseekAnthropic, Edenai, Fireworks, Google, Huggingface, LongCat, Meta, Minimax,
    MinimaxAnthropic, Mistral, Modelscope, ModelstudioCodingPlan, ModelstudioCodingPlanAnthropic,
    ModelstudioTokenPlan, ModelstudioTokenPlanAnthropic, Moonshot, Novita, NvidiaNim, Ollama,
    OllamaCloud, Openai, OpenaiCodex, OpencodeGo, OpencodeZen, Openmodel, Openrouter, Orcarouter,
    Qianfan, Sakana, Sglang, Siliconflow, SiliconflowCN, Stepfun, Telecomjs, Together, Vllm,
    Volcengine, WanjieArk, Xai, XiaomiMimo, Zai, Zenmux,
};
use crate::credential_help::{credential_help, provider_help, CredentialHelp};
use crate::provider_kind::{
    provider_aliases, provider_config_key_of, provider_display_name, provider_env_vars,
    provider_id, provider_wire_policy, registry, registry_lists_every_kind_once,
    registry_position, words, ProviderKind,
};
use crate::lists::{lemma_filter_ends, lemma_filter_holds, lemma_filter_step};
use crate::order::{
    ahead, as_ints, is_sorted_order, lemma_sorted_order_has_every_position, no_ranks,
    sorted_order, sorted_order_exists, sorted_positions,
};
use crate::text::{lower, lowered, precedes, same_text, texts, trim, trimmed};
use crate::wire::WirePolicy;

verus! {

/// The endpoint and the model that one provider has when nothing overrides
/// them.
#[derive(Debug)]
pub struct EndpointDefault {
    pub kind: ProviderKind,
    pub base_url: String,
    pub model: String,
}

/// The deployment's table of provider defaults.
#[derive(Debug)]
pub struct EndpointDefaults {
    pub rows: Vec<EndpointDefault>,
}

/// The first row of `rows` that belongs to `kind`.
pub open spec fn default_row(rows: Seq<EndpointDefault>, kind: ProviderKind) -> Option<
    EndpointDefault,
>
    decreases rows.len(),
{
    if rows.len() == 0 {
        None
    } else if rows[0].kind == kind {
        Some(rows[0])
    } else {
        default_row(rows.drop_first(), kind)
    }
}

/// The kind whose default model a provider uses: variants of one vendor's
/// service share the model of the primary.
pub open spec fn model_owner(kind: ProviderKind) -> ProviderKind {
    match kind {
        ProviderKind::SiliconflowCN => ProviderKind::Siliconflow,
        ProviderKind::MinimaxAnthropic => ProviderKind::Minimax,
        ProviderKind::ModelstudioTokenPlanAnthropic
        | ProviderKind::ModelstudioCodingPlan
        | ProviderKind::ModelstudioCodingPlanAnthropic => ProviderKind::ModelstudioTokenPlan,
        _ => kind,
    }
}

/// The default base URL of a provider under a table of defaults.
pub open spec fn default_base_url_of(rows: Seq<EndpointDefault>, kind: ProviderKind) -> Option<
    Seq<char>,
> {
    match kind {
        ProviderKind::Custom => Some("http://localhost/v1"@),
        ProviderKind::Antigravity => Some("https://antigravity.invalid"@),
        _ => match default_row(rows, kind) {
            Some(row) => Some(row.base_url@),
            None => None,
        },
    }
}

/// The default model of a provider under a table of defaults.
pub open spec fn default_model_of(rows: Seq<EndpointDefault>, kind: ProviderKind) -> Option<
    Seq<char>,
> {
    match kind {
        ProviderKind::Custom => Some("custom-model"@),
        ProviderKind::Antigravity => Some("legacy-antigravity-disabled"@),
        _ => match default_row(rows, model_owner(kind)) {
            Some(row) => Some(row.model@),
            None => None,
        },
    }
}

/// The characters of an optional string.
pub open spec fn optional_text(s: Option<String>) -> Option<Seq<char>> {
    match s {
        Some(t) => Some(t@),
        None => None,
    }
}

impl EndpointDefaults {
    /// The first row of the table that belongs to `kind`.
    pub fn row(&self, kind: ProviderKind) -> (r: Option<&EndpointDefault>)
        ensures
            match r {
                Some(row) => default_row(self.rows@, kind) == Some(*row),
                None => default_row(self.rows@, kind) is None,
            },
    {
        let mut i: usize = 0;
        assert(self.rows@.skip(0) =~= self.rows@);
        while i < self.rows.len()
            invariant
                i <= self.rows.len(),
                default_row(self.rows@, kind) == default_row(self.rows@.skip(i as int), kind),
            decreases self.rows.len() - i,
        {
            assert(self.rows@.skip(i as int)[0] == self.rows@[i as int]);
            if self.rows[i].kind == kind {
                return Some(&self.rows[i]);
            }
            assert(self.rows@.skip(i as int).drop_first() =~= self.rows@.skip(i + 1));
            i += 1;
        }
        None
    }
}

/// Static metadata for a built-in model provider.
pub trait Provider: Send + Sync {
    /// The kind that this entry describes.
    spec fn spec_kind(&self) -> ProviderKind;

    /// Provider enum variant represented by this entry.
    fn kind(&self) -> (r: ProviderKind)
        ensures
            r == self.spec_kind(),
    ;

    /// Canonical provider identifier.
    fn id(&self) -> (r: &'static str)
        ensures
            r@ == provider_id(self.spec_kind()),
    {
        self.kind().as_str()
    }

    /// Human-readable provider label for UIs and diagnostics.
    fn display_name(&self) -> (r: &'static str)
        ensures
            r@ == provider_display_name(self.spec_kind()),
    ;

    /// Default base URL used when no config/env/CLI override is present.
    ///
    /// A custom endpoint has a loopback placeholder, so that a misconfigured
    /// one fails closed locally rather than reaching a public host. The legacy
    /// Antigravity entry has a host that never resolves, so that it cannot run.
    fn default_base_url(&self, defaults: &EndpointDefaults) -> (r: Option<String>)
        ensures
            optional_text(r) == default_base_url_of(defaults.rows@, self.spec_kind()),
    {
        let kind: ProviderKind = self.kind();
        if kind == ProviderKind::Custom {
            return Some("http://localhost/v1".to_owned());
        }
        if kind == ProviderKind::Antigravity {
            return Some("https://antigravity.invalid".to_owned());
        }
        match defaults.row(kind) {
            Some(row) => Some(row.base_url.clone()),
            None => None,
        }
    }

    /// Default model used when no config/env/CLI override is present.
    fn default_model(&self, defaults: &EndpointDefaults) -> (r: Option<String>)
        ensures
            optional_text(r) == default_model_of(defaults.rows@, self.spec_kind()),
    {
        let kind: ProviderKind = self.kind();
        let owner: ProviderKind = match kind {
            ProviderKind::Custom => {
                return Some("custom-model".to_owned());
            },
            ProviderKind::Antigravity => {
                return Some("legacy-antigravity-disabled".to_owned());
            },
            ProviderKind::SiliconflowCN => ProviderKind::Siliconflow,
            ProviderKind::MinimaxAnthropic => ProviderKind::Minimax,
            ProviderKind::ModelstudioTokenPlanAnthropic => ProviderKind::ModelstudioTokenPlan,
            ProviderKind::ModelstudioCodingPlan => ProviderKind::ModelstudioTokenPlan,
            ProviderKind::ModelstudioCodingPlanAnthropic => ProviderKind::ModelstudioTokenPlan,
            other => other,
        };
        match defaults.row(owner) {
            Some(row) => Some(row.model.clone()),
            None => None,
        }
    }

    /// Environment variable candidates used for this provider's API key.
    fn env_vars(&self) -> (r: &'static [&'static str])
        ensures
            words(r@) == provider_env_vars(self.spec_kind()),
    ;

    /// TOML table key under `[providers.<key>]`.
    fn provider_config_key(&self) -> (r: &'static str)
        ensures
            r@ == provider_config_key_of(self.spec_kind()),
    ;

    /// Alternate names accepted during provider resolution.
    fn aliases(&self) -> (r: &'static [&'static str])
        ensures
            words(r@) == provider_aliases(self.spec_kind()),
    ;

    /// Policy used to select the request wire format.
    fn wire_policy(&self) -> (r: WirePolicy)
        ensures
            r == provider_wire_policy(self.spec_kind()),
    ;

    /// Credential acquisition metadata shared by onboarding, setup, diagnostics,
    /// and provider-help surfaces.
    fn credential_help(&self) -> (r: CredentialHelp)
        ensures
            r@ == provider_help(self.spec_kind()),
    {
        credential_help(self.kind())
    }
}

/// One entry of the provider registry.
#[derive(Debug, Clone, Copy, PartialEq, Eq, Structural)]
pub struct BuiltInProvider {
    pub entry: ProviderKind,
}

impl Provider for BuiltInProvider {
    open spec fn spec_kind(&self) -> ProviderKind {
        self.entry
    }

    fn kind(&self) -> ProviderKind {
        self.entry
    }

    fn display_name(&self) -> &'static str {
        match self.entry {
            ProviderKind::Deepseek => Deepseek.display_name(),
            ProviderKind::DeepseekAnthropic => DeepseekAnthropic.display_name(),
            ProviderKind::NvidiaNim => NvidiaNim.display_name(),
            ProviderKind::Openai => Openai.display_name(),
            ProviderKind::Atlascloud => Atlascloud.display_name(),
            ProviderKind::WanjieArk => WanjieArk.display_name(),
            ProviderKind::Volcengine => Volcengine.display_name(),
            ProviderKind::Openrouter => Openrouter.display_name(),
            ProviderKind::Orcarouter => Orcarouter.display_name(),
            ProviderKind::XiaomiMimo => XiaomiMimo.display_name(),
            ProviderKind::Novita => Novita.display_name(),
            ProviderKind::Fireworks => Fireworks.display_name(),
            ProviderKind::Siliconflow => Siliconflow.display_name(),
            ProviderKind::SiliconflowCN => SiliconflowCN.display_name(),
            ProviderKind::Arcee => Arcee.display_name(),
            ProviderKind::Moonshot => Moonshot.display_name(),
            ProviderKind::Sglang => Sglang.display_name(),
            ProviderKind::Vllm => Vllm.display_name(),
            ProviderKind::Ollama => Ollama.display_name(),
            ProviderKind::OllamaCloud => OllamaCloud.display_name(),
            ProviderKind::Huggingface => Huggingface.display_name(),
            ProviderKind::Modelscope => Modelscope.display_name(),
            ProviderKind::Together => Together.display_name(),
            ProviderKind::Qianfan => Qianfan.display_name(),
            ProviderKind::Mistral => Mistral.display_name(),
            ProviderKind::Antigravity => Antigravity.display_name(),
            ProviderKind::Google => Google.display_name(),
            ProviderKind::OpenaiCodex => OpenaiCodex.display_name(),
            ProviderKind::Anthropic => Anthropic.display_name(),
            ProviderKind::Openmodel => Openmodel.display_name(),
            ProviderKind::Zai => Zai.display_name(),
            ProviderKind::Stepfun => Stepfun.display_name(),
            ProviderKind::Minimax => Minimax.display_name(),
            ProviderKind::MinimaxAnthropic => MinimaxAnthropic.display_name(),
            ProviderKind::Deepinfra => Deepinfra.display_name(),
            ProviderKind::Sakana => Sakana.display_name(),
            ProviderKind::LongCat => LongCat.display_name(),
            ProviderKind::OpencodeGo => OpencodeGo.display_name(),
            ProviderKind::OpencodeZen => OpencodeZen.display_name(),
            ProviderKind::Codewhale => Codewhale.display_name(),
            ProviderKind::Meta => Meta.display_name(),
            ProviderKind::Xai => Xai.display_name(),
            ProviderKind::Telecomjs => Telecomjs.display_name(),
            ProviderKind::Edenai => Edenai.display_name(),
            ProviderKind::Zenmux => Zenmux.display_name(),
            ProviderKind::Csdn => Csdn.display_name(),
            ProviderKind::Concentrate => Concentrate.display_name(),
            ProviderKind::ModelstudioTokenPlan => ModelstudioTokenPlan.display_name(),
            ProviderKind::ModelstudioTokenPlanAnthropic => ModelstudioTokenPlanAnthropic.display_name(),
            ProviderKind::ModelstudioCodingPlan => ModelstudioCodingPlan.display_name(),
            ProviderKind::ModelstudioCodingPlanAnthropic => ModelstudioCodingPlanAnthropic.display_name(),
            ProviderKind::Custom => Custom.display_name(),
        }
    }

    fn env_vars(&self) -> &'static [&'static str] {
        match self.entry {
            ProviderKind::Deepseek => Deepseek.env_vars(),
            ProviderKind::DeepseekAnthropic => DeepseekAnthropic.env_vars(),
            ProviderKind::NvidiaNim => NvidiaNim.env_vars(),
            ProviderKind::Openai => Openai.env_vars(),
            ProviderKind::Atlascloud => Atlascloud.env_vars(),
            ProviderKind::WanjieArk => WanjieArk.env_vars(),
            ProviderKind::Volcengine => Volcengine.env_vars(),
            ProviderKind::Openrouter => Openrouter.env_vars(),
            ProviderKind::Orcarouter => Orcarouter.env_vars(),
            ProviderKind::XiaomiMimo => XiaomiMimo.env_vars(),
            ProviderKind::Novita => Novita.env_vars(),
            ProviderKind::Fireworks => Fireworks.env_vars(),
            ProviderKind::Siliconflow => Siliconflow.env_vars(),
            ProviderKind::SiliconflowCN => SiliconflowCN.env_vars(),
            ProviderKind::Arcee => Arcee.env_vars(),
            ProviderKind::Moonshot => Moonshot.env_vars(),
            ProviderKind::Sglang => Sglang.env_vars(),
            ProviderKind::Vllm => Vllm.env_vars(),
            ProviderKind::Ollama => Ollama.env_vars(),
            ProviderKind::OllamaCloud => OllamaCloud.env_vars(),
            ProviderKind::Huggingface => Huggingface.env_vars(),
            ProviderKind::Modelscope => Modelscope.env_vars(),
            ProviderKind::Together => Together.env_vars(),
            ProviderKind::Qianfan => Qianfan.env_vars(),
            ProviderKind::Mistral => Mistral.env_vars(),
            ProviderKind::Antigravity => Antigravity.env_vars(),
            ProviderKind::Google => Google.env_vars(),
            ProviderKind::OpenaiCodex => OpenaiCodex.env_vars(),
            ProviderKind::Anthropic => Anthropic.env_vars(),
            ProviderKind::Openmodel => Openmodel.env_vars(),
            ProviderKind::Zai => Zai.env_vars(),
            ProviderKind::Stepfun => Stepfun.env_vars(),
            ProviderKind::Minimax => Minimax.env_vars(),
            ProviderKind::MinimaxAnthropic => MinimaxAnthropic.env_vars(),
            ProviderKind::Deepinfra => Deepinfra.env_vars(),
            ProviderKind::Sakana => Sakana.env_vars(),
            ProviderKind::LongCat => LongCat.env_vars(),
            ProviderKind::OpencodeGo => OpencodeGo.env_vars(),
            ProviderKind::OpencodeZen => OpencodeZen.env_vars(),
            ProviderKind::Codewhale => Codewhale.env_vars(),
            ProviderKind::Meta => Meta.env_vars(),
            ProviderKind::Xai => Xai.env_vars(),
            ProviderKind::Telecomjs => Telecomjs.env_vars(),
            ProviderKind::Edenai => Edenai.env_vars(),
            ProviderKind::Zenmux => Zenmux.env_vars(),
            ProviderKind::Csdn => Csdn.env_vars(),
            ProviderKind::Concentrate => Concentrate.env_vars(),
            ProviderKind::ModelstudioTokenPlan => ModelstudioTokenPlan.env_vars(),
            ProviderKind::ModelstudioTokenPlanAnthropic => ModelstudioTokenPlanAnthropic.env_vars(),
            ProviderKind::ModelstudioCodingPlan => ModelstudioCodingPlan.env_vars(),
            ProviderKind::ModelstudioCodingPlanAnthropic => ModelstudioCodingPlanAnthropic.env_vars(),
            ProviderKind::Custom => Custom.env_vars(),
        }
    }

    fn provider_config_key(&self) -> &'static str {
        match self.entry {
            ProviderKind::Deepseek => Deepseek.provider_config_key(),
            ProviderKind::DeepseekAnthropic => DeepseekAnthropic.provider_config_key(),
            ProviderKind::NvidiaNim => NvidiaNim.provider_config_key(),
            ProviderKind::Openai => Openai.provider_config_key(),
            ProviderKind::Atlascloud => Atlascloud.provider_config_key(),
            ProviderKind::WanjieArk => WanjieArk.provider_config_key(),
            ProviderKind::Volcengine => Volcengine.provider_config_key(),
            ProviderKind::Openrouter => Openrouter.provider_config_key(),
            ProviderKind::Orcarouter => Orcarouter.provider_config_key(),
            ProviderKind::XiaomiMimo => XiaomiMimo.provider_config_key(),
            ProviderKind::Novita => Novita.provider_config_key(),
            ProviderKind::Fireworks => Fireworks.provider_config_key(),
            ProviderKind::Siliconflow => Siliconflow.provider_config_key(),
            ProviderKind::SiliconflowCN => SiliconflowCN.provider_config_key(),
            ProviderKind::Arcee => Arcee.provider_config_key(),
            ProviderKind::Moonshot => Moonshot.provider_config_key(),
            ProviderKind::Sglang => Sglang.provider_config_key(),
            ProviderKind::Vllm => Vllm.provider_config_key(),
            ProviderKind::Ollama => Ollama.provider_config_key(),
            ProviderKind::OllamaCloud => OllamaCloud.provider_config_key(),
            ProviderKind::Huggingface => Huggingface.provider_config_key(),
            ProviderKind::Modelscope => Modelscope.provider_config_key(),
            ProviderKind::Together => Together.provider_config_key(),
            ProviderKind::Qianfan => Qianfan.provider_config_key(),
            ProviderKind::Mistral => Mistral.provider_config_key(),
            ProviderKind::Antigravity => Antigravity.provider_config_key(),
            ProviderKind::Google => Google.provider_config_key(),
            ProviderKind::OpenaiCodex => OpenaiCodex.provider_config_key(),
            ProviderKind::Anthropic => Anthropic.provider_config_key(),
            ProviderKind::Openmodel => Openmodel.provider_config_key(),
            ProviderKind::Zai => Zai.provider_config_key(),
            ProviderKind::Stepfun => Stepfun.provider_config_key(),
            ProviderKind::Minimax => Minimax.provider_config_key(),
            ProviderKind::MinimaxAnthropic => MinimaxAnthropic.provider_config_key(),
            ProviderKind::Deepinfra => Deepinfra.provider_config_key(),
            ProviderKind::Sakana => Sakana.provider_config_key(),
            ProviderKind::LongCat => LongCat.provider_config_key(),
            ProviderKind::OpencodeGo => OpencodeGo.provider_config_key(),
            ProviderKind::OpencodeZen => OpencodeZen.provider_config_key(),
            ProviderKind::Codewhale => Codewhale.provider_config_key(),
            ProviderKind::Meta => Meta.provider_config_key(),
            ProviderKind::Xai => Xai.provider_config_key(),
            ProviderKind::Telecomjs => Telecomjs.provider_config_key(),
            ProviderKind::Edenai => Edenai.provider_config_key(),
            ProviderKind::Zenmux => Zenmux.provider_config_key(),
            ProviderKind::Csdn => Csdn.provider_config_key(),
            ProviderKind::Concentrate => Concentrate.provider_config_key(),
            ProviderKind::ModelstudioTokenPlan => ModelstudioTokenPlan.provider_config_key(),
            ProviderKind::ModelstudioTokenPlanAnthropic => ModelstudioTokenPlanAnthropic.provider_config_key(),
            ProviderKind::ModelstudioCodingPlan => ModelstudioCodingPlan.provider_config_key(),
            ProviderKind::ModelstudioCodingPlanAnthropic => ModelstudioCodingPlanAnthropic.provider_config_key(),
            ProviderKind::Custom => Custom.provider_config_key(),
        }
    }

    fn aliases(&self) -> &'static [&'static str] {
        match self.entry {
            ProviderKind::Deepseek => Deepseek.aliases(),
            ProviderKind::DeepseekAnthropic => DeepseekAnthropic.aliases(),
            ProviderKind::NvidiaNim => NvidiaNim.aliases(),
            ProviderKind::Openai => Openai.aliases(),
            ProviderKind::Atlascloud => Atlascloud.aliases(),
            ProviderKind::WanjieArk => WanjieArk.aliases(),
            ProviderKind::Volcengine => Volcengine.aliases(),
            ProviderKind::Openrouter => Openrouter.aliases(),
            ProviderKind::Orcarouter => Orcarouter.aliases(),
            ProviderKind::XiaomiMimo => XiaomiMimo.aliases(),
            ProviderKind::Novita => Novita.aliases(),
            ProviderKind::Fireworks => Fireworks.aliases(),
            ProviderKind::Siliconflow => Siliconflow.aliases(),
            ProviderKind::SiliconflowCN => SiliconflowCN.aliases(),
            ProviderKind::Arcee => Arcee.aliases(),
            ProviderKind::Moonshot => Moonshot.aliases(),
            ProviderKind::Sglang => Sglang.aliases(),
            ProviderKind::Vllm => Vllm.aliases(),
            ProviderKind::Ollama => Ollama.aliases(),
            ProviderKind::OllamaCloud => OllamaCloud.aliases(),
            ProviderKind::Huggingface => Huggingface.aliases(),
            ProviderKind::Modelscope => Modelscope.aliases(),
            ProviderKind::Together => Together.aliases(),
            ProviderKind::Qianfan => Qianfan.aliases(),
            ProviderKind::Mistral => Mistral.aliases(),
            ProviderKind::Antigravity => Antigravity.aliases(),
            ProviderKind::Google => Google.aliases(),
            ProviderKind::OpenaiCodex => OpenaiCodex.aliases(),
            ProviderKind::Anthropic => Anthropic.aliases(),
            ProviderKind::Openmodel => Openmodel.aliases(),
            ProviderKind::Zai => Zai.aliases(),
            ProviderKind::Stepfun => Stepfun.aliases(),
            ProviderKind::Minimax => Minimax.aliases(),
            ProviderKind::MinimaxAnthropic => MinimaxAnthropic.aliases(),
            ProviderKind::Deepinfra => Deepinfra.aliases(),
            ProviderKind::Sakana => Sakana.aliases(),
            ProviderKind::LongCat => LongCat.aliases(),
            ProviderKind::OpencodeGo => OpencodeGo.aliases(),
            ProviderKind::OpencodeZen => OpencodeZen.aliases(),
            ProviderKind::Codewhale => Codewhale.aliases(),
            ProviderKind::Meta => Meta.aliases(),
            ProviderKind::Xai => Xai.aliases(),
            ProviderKind::Telecomjs => Telecomjs.aliases(),
            ProviderKind::Edenai => Edenai.aliases(),
            ProviderKind::Zenmux => Zenmux.aliases(),
            ProviderKind::Csdn => Csdn.aliases(),
            ProviderKind::Concentrate => Concentrate.aliases(),
            ProviderKind::ModelstudioTokenPlan => ModelstudioTokenPlan.aliases(),
            ProviderKind::ModelstudioTokenPlanAnthropic => ModelstudioTokenPlanAnthropic.aliases(),
            ProviderKind::ModelstudioCodingPlan => ModelstudioCodingPlan.aliases(),
            ProviderKind::ModelstudioCodingPlanAnthropic => ModelstudioCodingPlanAnthropic.aliases(),
            ProviderKind::Custom => Custom.aliases(),
        }
    }

    fn wire_policy(&self) -> WirePolicy {
        match self.entry {
            ProviderKind::Deepseek => Deepseek.wire_policy(),
            ProviderKind::DeepseekAnthropic => DeepseekAnthropic.wire_policy(),
            ProviderKind::NvidiaNim => NvidiaNim.wire_policy(),
            ProviderKind::Openai => Openai.wire_policy(),
            ProviderKind::Atlascloud => Atlascloud.wire_policy(),
            ProviderKind::WanjieArk => WanjieArk.wire_policy(),
            ProviderKind::Volcengine => Volcengine.wire_policy(),
            ProviderKind::Openrouter => Openrouter.wire_policy(),
            ProviderKind::Orcarouter => Orcarouter.wire_policy(),
            ProviderKind::XiaomiMimo => XiaomiMimo.wire_policy(),
            ProviderKind::Novita => Novita.wire_policy(),
            ProviderKind::Fireworks => Fireworks.wire_policy(),
            ProviderKind::Siliconflow => Siliconflow.wire_policy(),
            ProviderKind::SiliconflowCN => SiliconflowCN.wire_policy(),
            ProviderKind::Arcee => Arcee.wire_policy(),
            ProviderKind::Moonshot => Moonshot.wire_policy(),
            ProviderKind::Sglang => Sglang.wire_policy(),
            ProviderKind::Vllm => Vllm.wire_policy(),
            ProviderKind::Ollama => Ollama.wire_policy(),
            ProviderKind::OllamaCloud => OllamaCloud.wire_policy(),
            ProviderKind::Huggingface => Huggingface.wire_policy(),
            ProviderKind::Modelscope => Modelscope.wire_policy(),
            ProviderKind::Together => Together.wire_policy(),
            ProviderKind::Qianfan => Qianfan.wire_policy(),
            ProviderKind::Mistral => Mistral.wire_policy(),
            ProviderKind::Antigravity => Antigravity.wire_policy(),
            ProviderKind::Google => Google.wire_policy(),
            ProviderKind::OpenaiCodex => OpenaiCodex.wire_policy(),
            ProviderKind::Anthropic => Anthropic.wire_policy(),
            ProviderKind::Openmodel => Openmodel.wire_policy(),
            ProviderKind::Zai => Zai.wire_policy(),
            ProviderKind::Stepfun => Stepfun.wire_policy(),
            ProviderKind::Minimax => Minimax.wire_policy(),
            ProviderKind::MinimaxAnthropic => MinimaxAnthropic.wire_policy(),
            ProviderKind::Deepinfra => Deepinfra.wire_policy(),
            ProviderKind::Sakana => Sakana.wire_policy(),
            ProviderKind::LongCat => LongCat.wire_policy(),
            ProviderKind::OpencodeGo => OpencodeGo.wire_policy(),
            ProviderKind::OpencodeZen => OpencodeZen.wire_policy(),
            ProviderKind::Codewhale => Codewhale.wire_policy(),
            ProviderKind::Meta => Meta.wire_policy(),
            ProviderKind::Xai => Xai.wire_policy(),
            ProviderKind::Telecomjs => Telecomjs.wire_policy(),
            ProviderKind::Edenai => Edenai.wire_policy(),
            ProviderKind::Zenmux => Zenmux.wire_policy(),
            ProviderKind::Csdn => Csdn.wire_policy(),
            ProviderKind::Concentrate => Concentrate.wire_policy(),
            ProviderKind::ModelstudioTokenPlan => ModelstudioTokenPlan.wire_policy(),
            ProviderKind::ModelstudioTokenPlanAnthropic => ModelstudioTokenPlanAnthropic.wire_policy(),
            ProviderKind::ModelstudioCodingPlan => ModelstudioCodingPlan.wire_policy(),
            ProviderKind::ModelstudioCodingPlanAnthropic => ModelstudioCodingPlanAnthropic.wire_policy(),
            ProviderKind::Custom => Custom.wire_policy(),
        }
    }
}

/// The kinds of a list of registry entries.
pub open spec fn entry_kinds(list: Seq<BuiltInProvider>) -> Seq<ProviderKind> {
    list.map_values(|p: BuiltInProvider| p.entry)
}

/// Return all built-in and legacy provider metadata entries.
///
/// The full registry retains legacy entries needed to read old configuration.
/// It is intentionally NOT a user-facing provider list; for browsing/picker
/// surfaces use [`providers_sorted_for_display`].
#[must_use]
pub fn all_providers() -> (r: &'static [BuiltInProvider])
    ensures
        entry_kinds(r@) == registry(),
{
    &[
        BuiltInProvider { entry: ProviderKind::Deepseek },
        BuiltInProvider { entry: ProviderKind::DeepseekAnthropic },
        BuiltInProvider { entry: ProviderKind::NvidiaNim },
        BuiltInProvider { entry: ProviderKind::Openai },
        BuiltInProvider { entry: ProviderKind::Atlascloud },
        BuiltInProvider { entry: ProviderKind::WanjieArk },
        BuiltInProvider { entry: ProviderKind::Volcengine },
        BuiltInProvider { entry: ProviderKind::Openrouter },
        BuiltInProvider { entry: ProviderKind::Orcarouter },
        BuiltInProvider { entry: ProviderKind::XiaomiMimo },
        BuiltInProvider { entry: ProviderKind::Novita },
        BuiltInProvider { entry: ProviderKind::Fireworks },
        BuiltInProvider { entry: ProviderKind::Siliconflow },
        BuiltInProvider { entry: ProviderKind::Arcee },
        BuiltInProvider { entry: ProviderKind::SiliconflowCN },
        BuiltInProvider { entry: ProviderKind::Moonshot },
        BuiltInProvider { entry: ProviderKind::Sglang },
        BuiltInProvider { entry: ProviderKind::Vllm },
        BuiltInProvider { entry: ProviderKind::Ollama },
        BuiltInProvider { entry: ProviderKind::OllamaCloud },
        BuiltInProvider { entry: ProviderKind::Huggingface },
        BuiltInProvider { entry: ProviderKind::Modelscope },
        BuiltInProvider { entry: ProviderKind::Together },
        BuiltInProvider { entry: ProviderKind::Qianfan },
        BuiltInProvider { entry: ProviderKind::OpenaiCodex },
        BuiltInProvider { entry: ProviderKind::Anthropic },
        BuiltInProvider { entry: ProviderKind::Openmodel },
        BuiltInProvider { entry: ProviderKind::Zai },
        BuiltInProvider { entry: ProviderKind::Stepfun },
        BuiltInProvider { entry: ProviderKind::Minimax },
        BuiltInProvider { entry: ProviderKind::MinimaxAnthropic },
        BuiltInProvider { entry: ProviderKind::Deepinfra },
        BuiltInProvider { entry: ProviderKind::Sakana },
        BuiltInProvider { entry: ProviderKind::LongCat },
        BuiltInProvider { entry: ProviderKind::OpencodeGo },
        BuiltInProvider { entry: ProviderKind::OpencodeZen },
        BuiltInProvider { entry: ProviderKind::Meta },
        BuiltInProvider { entry: ProviderKind::Xai },
        BuiltInProvider { entry: ProviderKind::Mistral },
        BuiltInProvider { entry: ProviderKind::Telecomjs },
        BuiltInProvider { entry: ProviderKind::Edenai },
        BuiltInProvider { entry: ProviderKind::Zenmux },
        BuiltInProvider { entry: ProviderKind::Csdn },
        BuiltInProvider { entry: ProviderKind::Concentrate },
        BuiltInProvider { entry: ProviderKind::Codewhale },
        BuiltInProvider { entry: ProviderKind::ModelstudioTokenPlan },
        BuiltInProvider { entry: ProviderKind::ModelstudioTokenPlanAnthropic },
        BuiltInProvider { entry: ProviderKind::ModelstudioCodingPlan },
        BuiltInProvider { entry: ProviderKind::ModelstudioCodingPlanAnthropic },
        BuiltInProvider { entry: ProviderKind::Google },
        BuiltInProvider { entry: ProviderKind::Antigravity },
        BuiltInProvider { entry: ProviderKind::Custom },
    ]
}

/// Whether `name` is the canonical id of `kind` or one of its aliases.
pub open spec fn answers_to(kind: ProviderKind, name: Seq<char>) -> bool {
    provider_id(kind) == name || provider_aliases(kind).contains(name)
}

/// The first kind of `kinds` with the property `want`.
pub open spec fn first_kind(
    kinds: Seq<ProviderKind>,
    want: spec_fn(ProviderKind) -> bool,
) -> Option<ProviderKind>
    decreases kinds.len(),
{
    if kinds.len() == 0 {
        None
    } else if want(kinds[0]) {
        Some(kinds[0])
    } else {
        first_kind(kinds.drop_first(), want)
    }
}

/// The kind that a canonical id denotes, up to surrounding white space.
pub open spec fn kind_with_id(id: Seq<char>) -> Option<ProviderKind> {
    first_kind(registry(), |k: ProviderKind| provider_id(k) == trim(id))
}

/// The kind that a canonical id or an alias denotes, up to surrounding white
/// space. Where an entry lists the id of a later entry among its aliases, that
/// id denotes the earlier one.
pub open spec fn kind_named(name: Seq<char>) -> Option<ProviderKind> {
    first_kind(registry(), |k: ProviderKind| answers_to(k, trim(name)))
}

/// The kind of an optional registry entry.
pub open spec fn entry_kind(p: Option<BuiltInProvider>) -> Option<ProviderKind> {
    match p {
        Some(e) => Some(e.entry),
        None => None,
    }
}

proof fn lemma_first_kind_step(
    kinds: Seq<ProviderKind>,
    want: spec_fn(ProviderKind) -> bool,
    i: int,
)
    requires
        0 <= i < kinds.len(),
        !want(kinds[i]),
    ensures
        first_kind(kinds.skip(i), want) == first_kind(kinds.skip(i + 1), want),
{
    assert(kinds.skip(i)[0] == kinds[i]);
    assert(kinds.skip(i).drop_first() =~= kinds.skip(i + 1));
}

/// Whether `needle` is in a static list of names.
fn has_word(list: &[&'static str], needle: &str) -> (r: bool)
    ensures
        r == words(list@).contains(needle@),
{
    let mut i: usize = 0;
    while i < list.len()
        invariant
            i <= list.len(),
            forall|k: int| 0 <= k < i ==> words(list@)[k] != needle@,
        decreases list.len() - i,
    {
        if same_text(list[i], needle) {
            assert(words(list@)[i as int] == needle@);
            return true;
        }
        i += 1;
    }
    false
}

/// Find a provider by canonical id only.
#[must_use]
pub fn lookup_provider(id: &str) -> (r: Option<BuiltInProvider>)
    ensures
        entry_kind(r) == kind_with_id(id@),
{
    let id_text: &str = trimmed(id);
    let list: &'static [BuiltInProvider] = all_providers();
    let ghost want = |k: ProviderKind| provider_id(k) == trim(id@);
    let mut i: usize = 0;
    assert(registry().skip(0) =~= registry());
    while i < list.len()
        invariant
            i <= list.len(),
            id_text@ == trim(id@),
            want == (|k: ProviderKind| provider_id(k) == trim(id@)),
            entry_kinds(list@) == registry(),
            kind_with_id(id@) == first_kind(registry().skip(i as int), want),
        decreases list.len() - i,
    {
        assert(entry_kinds(list@)[i as int] == list@[i as int].entry);
        if same_text(list[i].id(), id_text) {
            assert(registry().skip(i as int)[0] == registry()[i as int]);
            return Some(list[i]);
        }
        proof {
            lemma_first_kind_step(registry(), want, i as int);
        }
        i += 1;
    }
    None
}

impl ProviderKind {
    /// The kind that a canonical id or a supported alias denotes.
    #[must_use]
    pub fn parse(value: &str) -> (r: Option<ProviderKind>)
        ensures
            r == kind_named(value@),
    {
        let name: &str = trimmed(value);
        let list: &'static [BuiltInProvider] = all_providers();
        let ghost want = |k: ProviderKind| answers_to(k, trim(value@));
        let mut i: usize = 0;
        assert(registry().skip(0) =~= registry());
        while i < list.len()
            invariant
                i <= list.len(),
                name@ == trim(value@),
                want == (|k: ProviderKind| answers_to(k, trim(value@))),
                entry_kinds(list@) == registry(),
                kind_named(value@) == first_kind(registry().skip(i as int), want),
            decreases list.len() - i,
        {
            assert(entry_kinds(list@)[i as int] == list@[i as int].entry);
            if same_text(list[i].id(), name) || has_word(list[i].aliases(), name) {
                assert(registry().skip(i as int)[0] == registry()[i as int]);
                return Some(list[i].entry);
            }
            proof {
                lemma_first_kind_step(registry(), want, i as int);
            }
            i += 1;
        }
        None
    }
}

/// Resolve a provider by canonical id or supported legacy alias.
#[must_use]
pub fn resolve_provider(id_or_alias: &str) -> (r: Option<BuiltInProvider>)
    ensures
        entry_kind(r) == kind_named(id_or_alias@),
{
    match ProviderKind::parse(id_or_alias) {
        Some(kind) => Some(provider_for_kind(kind)),
        None => None,
    }
}

/// Return metadata for a known provider kind.
#[must_use]
pub fn provider_for_kind(kind: ProviderKind) -> (r: BuiltInProvider)
    ensures
        r.entry == kind,
{
    let list: &'static [BuiltInProvider] = all_providers();
    let mut i: usize = 0;
    proof {
        registry_lists_every_kind_once();
        assert(registry()[registry_position(kind)] == kind);
    }
    while list[i].entry != kind
        invariant
            i <= registry_position(kind) < list.len(),
            entry_kinds(list@) == registry(),
            registry()[registry_position(kind)] == kind,
        decreases list.len() - i,
    {
        assert(entry_kinds(list@)[i as int] == list@[i as int].entry);
        i += 1;
    }
    list[i]
}

/// The registry without the legacy tombstone, in registry order.
pub open spec fn selectable_kinds() -> Seq<ProviderKind> {
    registry().filter(|k: ProviderKind| k != ProviderKind::Antigravity)
}

/// The folded display names of a list of kinds.
pub open spec fn folded_names(kinds: Seq<ProviderKind>) -> Seq<Seq<char>> {
    kinds.map_values(|k: ProviderKind| lower(provider_display_name(k)))
}

/// The selectable kinds, alphabetically by folded display name; kinds with one
/// display name stay in registry order.
pub open spec fn display_order() -> Seq<ProviderKind> {
    let kinds = selectable_kinds();
    sorted_order(no_ranks(kinds.len()), folded_names(kinds)).map_values(|i: int| kinds[i])
}

/// Return all built-in providers ordered for user-facing display.
///
/// Providers are sorted alphabetically, without regard to case, by
/// [`Provider::display_name`], so that browsing surfaces present a neutral,
/// predictable list. Legacy tombstones are omitted.
#[must_use]
pub fn providers_sorted_for_display() -> (r: Vec<BuiltInProvider>)
    ensures
        entry_kinds(r@) == display_order(),
{
    let list: &'static [BuiltInProvider] = all_providers();
    let ghost keep = |k: ProviderKind| k != ProviderKind::Antigravity;
    let mut kept: Vec<BuiltInProvider> = Vec::new();
    let mut keys: Vec<String> = Vec::new();
    let mut ranks: Vec<u8> = Vec::new();
    let mut i: usize = 0;
    assert(registry().take(0).filter(keep) =~= Seq::<ProviderKind>::empty()) by {
        reveal(Seq::filter);
    }
    while i < list.len()
        invariant
            i <= list.len(),
            entry_kinds(list@) == registry(),
            keep == (|k: ProviderKind| k != ProviderKind::Antigravity),
            entry_kinds(kept@) == registry().take(i as int).filter(keep),
            kept.len() == keys.len(),
            ranks@ == no_ranks(kept@.len()),
            texts(keys@) == folded_names(entry_kinds(kept@)),
        decreases list.len() - i,
    {
        proof {
            let k = registry()[i as int];
            assert(entry_kinds(list@)[i as int] == list@[i as int].entry);
            assert(registry().take(i + 1) =~= registry().take(i as int).push(k));
            assert(registry().take(i + 1).drop_last() =~= registry().take(i as int));
            reveal(Seq::filter);
        }
        if list[i].kind() != ProviderKind::Antigravity {
            let name: &'static str = list[i].display_name();
            let ghost before = kept@;
            let ghost before_keys = keys@;
            kept.push(list[i]);
            keys.push(lowered(name));
            ranks.push(0);
            proof {
                assert(entry_kinds(kept@) =~= entry_kinds(before).push(list@[i as int].entry));
                assert(texts(keys@) =~= texts(before_keys).push(lower(name@)));
                assert(folded_names(entry_kinds(kept@)) =~= folded_names(
                    entry_kinds(before),
                ).push(lower(name@)));
                assert(ranks@ =~= no_ranks(kept@.len()));
            }
        }
        i += 1;
    }
    assert(registry().take(i as int) =~= registry());
    let order: Vec<usize> = sorted_positions(&ranks, &keys);
    let ghost kinds = selectable_kinds();
    let mut out: Vec<BuiltInProvider> = Vec::new();
    let mut j: usize = 0;
    while j < order.len()
        invariant
            j <= order.len(),
            out.len() == j,
            entry_kinds(kept@) == kinds,
            is_sorted_order(ranks@, texts(keys@), as_ints(order@)),
            kept.len() == keys.len(),
            forall|k: int|
                0 <= k < j ==> (#[trigger] out@[k]).entry == kinds[as_ints(order@)[k]],
        decreases order.len() - j,
    {
        assert(as_ints(order@)[j as int] == order@[j as int]);
        assert(texts(keys@).len() == keys@.len());
        assert(entry_kinds(kept@)[order@[j as int] as int] == kept@[order@[j as int] as int].entry);
        out.push(kept[order[j]]);
        j += 1;
    }
    assert(entry_kinds(out@) =~= display_order());
    out
}

/// The display order shows every selectable provider exactly once, and no legacy
/// tombstone, alphabetically by folded display name; providers with one display
/// name come in registry order.
pub proof fn display_order_is_alphabetical_and_complete()
    ensures
        display_order().len() == registry().len() - 1,
        display_order().no_duplicates(),
        forall|kind: ProviderKind|
            #[trigger] display_order().contains(kind) <==> kind != ProviderKind::Antigravity,
        forall|i: int, j: int|
            0 <= i < j < display_order().len() ==> {
                let a = #[trigger] display_order()[i];
                let b = #[trigger] display_order()[j];
                let x = lower(provider_display_name(a));
                let y = lower(provider_display_name(b));
                precedes(x, y) || (x == y && registry_position(a) < registry_position(b))
            },
{
    registry_lists_every_kind_once();
    let keep = |k: ProviderKind| k != ProviderKind::Antigravity;
    let kinds = selectable_kinds();
    let p = registry_position(ProviderKind::Antigravity);
    lemma_filter_holds(registry(), keep);
    lemma_one_dropped(registry(), keep, p);
    let names = folded_names(kinds);
    let order = sorted_order(no_ranks(kinds.len()), names);
    sorted_order_exists(no_ranks(kinds.len()), names);
    lemma_sorted_order_has_every_position(no_ranks(kinds.len()), names, order);
    assert forall|i: int, j: int| 0 <= i < j < display_order().len() implies {
        let a = #[trigger] display_order()[i];
        let b = #[trigger] display_order()[j];
        let x = lower(provider_display_name(a));
        let y = lower(provider_display_name(b));
        precedes(x, y) || (x == y && registry_position(a) < registry_position(b))
    } by {
        assert(ahead(no_ranks(kinds.len()), names, order[i], order[j]));
        if order[i] < order[j] {
            assert(kinds[order[i]] == kinds[order[i]]);
        }
    }
    assert forall|i: int, j: int|
        0 <= i < display_order().len() && 0 <= j < display_order().len() && i != j implies
        display_order()[i] != display_order()[j] by {
        let a = order[i];
        let b = order[j];
        assert(a != b);
        if a < b {
            assert(registry_position(kinds[a]) < registry_position(kinds[b]));
        } else {
            assert(registry_position(kinds[b]) < registry_position(kinds[a]));
        }
    }
    assert forall|kind: ProviderKind| #[trigger]
        display_order().contains(kind) <==> kind != ProviderKind::Antigravity by {
        assert(registry()[registry_position(kind)] == kind);
        assert(registry().contains(kind));
        if kind != ProviderKind::Antigravity {
            assert(kinds.contains(kind));
            let i = choose|i: int| 0 <= i < kinds.len() && kinds[i] == kind;
            assert(order.contains(i));
            let j = choose|j: int| 0 <= j < order.len() && order[j] == i;
            assert(display_order()[j] == kind);
        }
        if display_order().contains(kind) {
            let j = choose|j: int| 0 <= j < display_order().len() && display_order()[j] == kind;
            assert(kinds[order[j]] == kind);
            assert(kinds.contains(kind));
        }
    }
}

/// Filtering the registry down to all but the entry at `p` drops that entry and
/// keeps the order of the others.
proof fn lemma_one_dropped(
    list: Seq<ProviderKind>,
    keep: spec_fn(ProviderKind) -> bool,
    p: int,
)
    requires
        list == registry(),
        0 <= p < list.len(),
        forall|i: int| 0 <= i < list.len() ==> (keep(#[trigger] list[i]) <==> i != p),
    ensures
        list.filter(keep).len() == list.len() - 1,
        forall|i: int, j: int|
            0 <= i < j < list.filter(keep).len() ==> registry_position(
                #[trigger] list.filter(keep)[i],
            ) < registry_position(#[trigger] list.filter(keep)[j]),
{
    registry_lists_every_kind_once();
    lemma_dropped_prefix(list, keep, p, list.len() as int);
    assert(list.take(list.len() as int) =~= list);
}

proof fn lemma_dropped_prefix(
    list: Seq<ProviderKind>,
    keep: spec_fn(ProviderKind) -> bool,
    p: int,
    n: int,
)
    requires
        0 <= p < list.len(),
        0 <= n <= list.len(),
        forall|i: int| 0 <= i < list.len() ==> (keep(#[trigger] list[i]) <==> i != p),
        forall|i: int| 0 <= i < list.len() ==> registry_position(#[trigger] list[i]) == i,
    ensures
        list.take(n).filter(keep).len() == if p < n {
            n - 1
        } else {
            n
        },
        forall|i: int|
            0 <= i < list.take(n).filter(keep).len() ==> #[trigger] list.take(n).filter(keep)[i]
                == list[if i < p { i } else { i + 1 }],
    decreases n,
{
    if n > 0 {
        lemma_dropped_prefix(list, keep, p, n - 1);
        lemma_filter_step(list, keep, n - 1);
    } else {
        lemma_filter_ends(list, keep);
    }
}

/// The legacy Antigravity entry cannot run, whatever the table of defaults holds:
/// its host is in a domain that never resolves.
pub proof fn the_legacy_entry_cannot_run(rows: Seq<EndpointDefault>)
    ensures
        default_base_url_of(rows, ProviderKind::Antigravity) is Some,
        ".invalid"@.is_suffix_of(default_base_url_of(rows, ProviderKind::Antigravity)->0),
        default_model_of(rows, ProviderKind::Antigravity) == Some("legacy-antigravity-disabled"@),
{
    reveal_strlit("https://antigravity.invalid");
    reveal_strlit(".invalid");
    let url = "https://antigravity.invalid"@;
    assert(url.subrange(url.len() - 8, url.len() as int) =~= ".invalid"@);
}


proof fn lemma_default_row(rows: Seq<EndpointDefault>, kind: ProviderKind, i: int)
    ensures
        0 <= i < rows.len() && rows[i].kind == kind && (forall|j: int|
            0 <= j < i ==> (#[trigger] rows[j]).kind != kind) ==> default_row(rows, kind) == Some(
            rows[i],
        ),
        (forall|j: int| 0 <= j < rows.len() ==> (#[trigger] rows[j]).kind != kind)
            ==> default_row(rows, kind) is None,
    decreases rows.len(),
{
    if rows.len() > 0 && rows[0].kind != kind {
        let rest = rows.drop_first();
        lemma_default_row(rest, kind, i - 1);
        assert forall|j: int| 0 <= j < rest.len() implies #[trigger] rest[j] == rows[j + 1] by {}
        if forall|j: int| 0 <= j < rows.len() ==> (#[trigger] rows[j]).kind != kind {
            assert forall|j: int| 0 <= j < rest.len() implies (#[trigger] rest[j]).kind
                != kind by {
                assert(rest[j] == rows[j + 1]);
            }
        }
        if 0 < i < rows.len() && (forall|j: int| 0 <= j < i ==> (#[trigger] rows[j]).kind != kind) {
            assert forall|j: int| 0 <= j < i - 1 implies (#[trigger] rest[j]).kind != kind by {
                assert(rest[j] == rows[j + 1]);
            }
            assert(rest[i - 1] == rows[i]);
        }
    }
}

/// The base URL of a provider is that of the first row of its own kind, and a
/// provider without a row has none; the custom entry and the legacy one do not
/// depend on the table.
pub proof fn a_default_base_url_is_the_kinds_own(
    rows: Seq<EndpointDefault>,
    other: Seq<EndpointDefault>,
    kind: ProviderKind,
    i: int,
)
    ensures
        kind == ProviderKind::Custom || kind == ProviderKind::Antigravity ==> default_base_url_of(
            rows,
            kind,
        ) == default_base_url_of(other, kind) && default_model_of(rows, kind) == default_model_of(
            other,
            kind,
        ),
        kind != ProviderKind::Custom && kind != ProviderKind::Antigravity && 0 <= i < rows.len()
            && rows[i].kind == kind && (forall|j: int|
            0 <= j < i ==> (#[trigger] rows[j]).kind != kind) ==> default_base_url_of(rows, kind)
            == Some(rows[i].base_url@),
        kind != ProviderKind::Custom && kind != ProviderKind::Antigravity && (forall|j: int|
            0 <= j < rows.len() ==> (#[trigger] rows[j]).kind != kind) ==> default_base_url_of(
            rows,
            kind,
        ) is None,
{
    lemma_default_row(rows, kind, i);
}

/// The default model of a provider is that of the first row of its own kind, and
/// the variants of one vendor's service share that of the primary.
pub proof fn variants_share_the_default_model(
    rows: Seq<EndpointDefault>,
    kind: ProviderKind,
    i: int,
)
    ensures
        default_model_of(rows, ProviderKind::SiliconflowCN) == default_model_of(
            rows,
            ProviderKind::Siliconflow,
        ),
        default_model_of(rows, ProviderKind::MinimaxAnthropic) == default_model_of(
            rows,
            ProviderKind::Minimax,
        ),
        kind == ProviderKind::ModelstudioTokenPlanAnthropic || kind
            == ProviderKind::ModelstudioCodingPlan || kind
            == ProviderKind::ModelstudioCodingPlanAnthropic ==> default_model_of(rows, kind)
            == default_model_of(rows, ProviderKind::ModelstudioTokenPlan),
        kind != ProviderKind::SiliconflowCN && kind != ProviderKind::MinimaxAnthropic && kind
            != ProviderKind::ModelstudioTokenPlanAnthropic && kind
            != ProviderKind::ModelstudioCodingPlan && kind
            != ProviderKind::ModelstudioCodingPlanAnthropic && kind != ProviderKind::Custom && kind
            != ProviderKind::Antigravity ==> {
            &&& 0 <= i < rows.len() && rows[i].kind == kind && (forall|j: int|
                0 <= j < i ==> (#[trigger] rows[j]).kind != kind) ==> default_model_of(rows, kind)
                == Some(rows[i].model@)
            &&& (forall|j: int| 0 <= j < rows.len() ==> (#[trigger] rows[j]).kind != kind)
                ==> default_model_of(rows, kind) is None
        },
{
    lemma_default_row(rows, kind, i);
}

} // verus!
