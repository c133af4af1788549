//! Which provider a name denotes.
//!
//! The names of the registry are told apart by a mark: length, first and last
//! character, and one character from inside.

use vstd::prelude::*;
use crate::provider::{answers_to, first_kind, kind_named, kind_with_id};
use crate::provider_kind::{
    provider_aliases, provider_config_key_of, provider_id, registry,
    registry_lists_every_kind_once, registry_position, ProviderKind,
};
use crate::text::{is_white_space, lemma_trim_of_solid, trim};

verus! {

/// The provider onto which a dialect or plan variant collapses when it is
/// named.
pub open spec fn primary_kind(kind: ProviderKind) -> ProviderKind {
    match kind {
        ProviderKind::DeepseekAnthropic => ProviderKind::Deepseek,
        ProviderKind::MinimaxAnthropic => ProviderKind::Minimax,
        ProviderKind::ModelstudioTokenPlanAnthropic
        | ProviderKind::ModelstudioCodingPlan
        | ProviderKind::ModelstudioCodingPlanAnthropic => ProviderKind::ModelstudioTokenPlan,
        _ => kind,
    }
}

spec fn mark(s: Seq<char>) -> int {
    s.len() * 0x1000000 + (s[0] as int) * 0x10000 + (s.last() as int) * 0x100 + (s[(s.len()
        / 3) as int] as int)
}

/// The registry position of the provider whose names have the mark `m`.
#[verifier::opaque]
spec fn owner_position(m: int) -> int {
    if m == 0x8646b65
        || m == 0x9646b70
        || m == 0xa646e70
        || m == 0xb646e70
        || m == 0xe646173
        || m == 0xf646565
        || m == 0x12646365 {
        0
    } else if m == 0x36e6d69
        || m == 0x66e6169
        || m == 0xa6e6d64 {
        2
    } else if m == 0x66f6965
        || m == 0x76f6965 {
        3
    } else if m == 0x5617374
        || m == 0xa616461
        || m == 0xb616461 {
        4
    } else if m == 0x677656e
        || m == 0x9776b6a
        || m == 0xa61652d
        || m == 0xa61655f
        || m == 0xa776b6a
        || m == 0xa77736a
        || m == 0xb77736a {
        5
    } else if m == 0x3616b72
        || m == 0x8766b6c
        || m == 0xa766563
        || m == 0xd766b65
        || m == 0xe766b65 {
        6
    } else if m == 0xa6f726e
        || m == 0xb6f726e {
        7
    } else if m == 0xa6f7261
        || m == 0xb6f7261 {
        8
    } else if m == 0x46d6f69
        || m == 0x6786961
        || m == 0xa786f6f
        || m == 0xb786f6f {
        9
    } else if m == 0x66e6176
        || m == 0x96e6969 {
        10
    } else if m == 0x9667365
        || m == 0xc666977 {
        11
    } else if m == 0xb737769
        || m == 0xc737763 {
        12
    } else if m == 0x5616572
        || m == 0x8616963 {
        13
    } else if m == 0xe734e63
        || m == 0xf734e6f
        || m == 0xf736e6f
        || m == 0x1173616f {
        14
    } else if m == 0x46b6969
        || m == 0x76b326d
        || m == 0x86d746f
        || m == 0xa6d696e
        || m == 0xb6d696e {
        15
    } else if m == 0x673676c
        || m == 0x773672d {
        16
    } else if m == 0x4766d6c
        || m == 0x5766d2d {
        17
    } else if m == 0x66f616c
        || m == 0xc6f6c6d {
        18
    } else if m == 0xc6f646d {
        19
    } else if m == 0x2686668
        || m == 0xb686567
        || m == 0xc686569 {
        20
    } else if m == 0xa6d6565
        || m == 0xb6d6565
        || m == 0xd6d6e6c {
        21
    } else if m == 0x8747267
        || m == 0xa746965
        || m == 0xb746965 {
        22
    } else if m == 0x5627561
        || m == 0x7716e61
        || m == 0xd626e75 {
        23
    } else if m == 0x563786f
        || m == 0x7637461
        || m == 0xb6f786e
        || m == 0xc637867
        || m == 0xc6f7861
        || m == 0xd637867 {
        24
    } else if m == 0x9616368 {
        25
    } else if m == 0x96f6c6e
        || m == 0xa6f6c6e {
        26
    } else if m == 0x37a6961
        || m == 0x47a692d
        || m == 0x47a692e
        || m == 0x47a695f
        || m == 0x57a7568
        || m == 0x77a6969
        || m == 0x8626c67
        || m == 0x9626c2d {
        27
    } else if m == 0x7736e65
        || m == 0x8736e65
        || m == 0x9736870
        || m == 0xa736870 {
        28
    } else if m == 0x76d786e
        || m == 0x86d786e
        || m == 0x116d6361
        || m == 0x126d6361 {
        29
    } else if m == 0x9646170
        || m == 0xa646170 {
        31
    } else if m == 0x4667575
        || m == 0x673616b
        || m == 0x9736961 {
        32
    } else if m == 0x76c746e
        || m == 0x76d6e69
        || m == 0x86c746e
        || m == 0xf6d7461 {
        33
    } else if m == 0xa6f6f6e
        || m == 0xb6f6f6e {
        34
    } else if m == 0x37a6e65
        || m == 0x86f6565
        || m == 0xb6f6e6e
        || m == 0xc6f6e63 {
        35
    } else if m == 0x46d6165
        || m == 0x46d6575
        || m == 0x76d6974
        || m == 0xa6d6b65
        || m == 0xe6d692d
        || m == 0xe6d695f {
        36
    } else if m == 0x3786961
        || m == 0x4676b72
        || m == 0x478692d
        || m == 0x478695f {
        37
    } else if m == 0x76d6c73
        || m == 0x96d6974
        || m == 0xa6d6974
        || m == 0xd6c656c {
        38
    } else if m == 0x874626b
        || m == 0x9747365
        || m == 0xa747365
        || m == 0xc746e63 {
        39
    } else if m == 0x6656965
        || m == 0x7656965 {
        40
    } else if m == 0x67a786e
        || m == 0x77a786e {
        41
    } else if m == 0x4636e73
        || m == 0x7636964
        || m == 0x7737061
        || m == 0x10636e63 {
        42
    } else if m == 0xb636563
        || m == 0xd636965
        || m == 0xe636965 {
        43
    } else if m == 0x663692d
        || m == 0x9636565
        || m == 0xd636977
        || m == 0xf636468 {
        44
    } else if m == 0x7616169
        || m == 0x9646568
        || m == 0xb6d6f65
        || m == 0x12616e61
        || m == 0x13616e61
        || m == 0x14646e6f
        || m == 0x15646e70
        || m == 0x166d6e75
        || m == 0x176d6e75
        || m == 0x1c61636f
        || m == 0x1d61636f
        || m == 0x206d636f
        || m == 0x216d632d
        || m == 0x216d635f {
        45
    } else if m == 0x667656f
        || m == 0x667696d
        || m == 0x8616f73
        || m == 0x9616f73
        || m == 0x9676967
        || m == 0xd67696c {
        49
    } else if m == 0x3617967
        || m == 0xb617969 {
        50
    } else if m == 0x6636d73 {
        51
    } else {
        -1
    }
}

/// Whether `t` is a name without surrounding white space whose mark belongs to
/// the registry position `p`.
spec fn belongs(t: Seq<char>, p: int) -> bool {
    t.len() > 0 && !is_white_space(t[0]) && !is_white_space(t.last()) && owner_position(mark(t))
        == p
}

proof fn lemma_names_deepseek(t: Seq<char>)
    requires
        answers_to(ProviderKind::Deepseek, t),
    ensures
        belongs(t, 0),
{
    reveal(owner_position);
    reveal_strlit("deepseek");
    assert(mark("deepseek"@) == 0x8646b65);
    reveal_strlit("deep-seek");
    assert(mark("deep-seek"@) == 0x9646b70);
    reveal_strlit("deepseek-cn");
    assert(mark("deepseek-cn"@) == 0xb646e70);
    reveal_strlit("deepseek_china");
    assert(mark("deepseek_china"@) == 0xe646173);
    reveal_strlit("deepseekcn");
    assert(mark("deepseekcn"@) == 0xa646e70);
    reveal_strlit("deepseek-china");
    assert(mark("deepseek-china"@) == 0xe646173);
    reveal_strlit("deepseek-anthropic");
    assert(mark("deepseek-anthropic"@) == 0x12646365);
    reveal_strlit("deepseek_anthropic");
    assert(mark("deepseek_anthropic"@) == 0x12646365);
    reveal_strlit("deepseek_claude");
    assert(mark("deepseek_claude"@) == 0xf646565);
    if t != provider_id(ProviderKind::Deepseek) {
        let i = choose|i: int| 0 <= i < 8 && provider_aliases(ProviderKind::Deepseek)[i] == t;
        assert(i == 0 || i == 1 || i == 2 || i == 3 || i == 4 || i == 5 || i == 6 || i == 7);
    }
}

proof fn lemma_names_deepseek_anthropic(t: Seq<char>)
    requires
        answers_to(ProviderKind::DeepseekAnthropic, t),
    ensures
        belongs(t, 0),
{
    reveal(owner_position);
    reveal_strlit("deepseek-anthropic");
    assert(mark("deepseek-anthropic"@) == 0x12646365);
}

proof fn lemma_names_nvidia_nim(t: Seq<char>)
    requires
        answers_to(ProviderKind::NvidiaNim, t),
    ensures
        belongs(t, 2),
{
    reveal(owner_position);
    reveal_strlit("nvidia-nim");
    assert(mark("nvidia-nim"@) == 0xa6e6d64);
    reveal_strlit("nvidia");
    assert(mark("nvidia"@) == 0x66e6169);
    reveal_strlit("nvidia_nim");
    assert(mark("nvidia_nim"@) == 0xa6e6d64);
    reveal_strlit("nim");
    assert(mark("nim"@) == 0x36e6d69);
    if t != provider_id(ProviderKind::NvidiaNim) {
        let i = choose|i: int| 0 <= i < 3 && provider_aliases(ProviderKind::NvidiaNim)[i] == t;
        assert(i == 0 || i == 1 || i == 2);
    }
}

proof fn lemma_names_openai(t: Seq<char>)
    requires
        answers_to(ProviderKind::Openai, t),
    ensures
        belongs(t, 3),
{
    reveal(owner_position);
    reveal_strlit("openai");
    assert(mark("openai"@) == 0x66f6965);
    reveal_strlit("open-ai");
    assert(mark("open-ai"@) == 0x76f6965);
    if t != provider_id(ProviderKind::Openai) {
        let i = choose|i: int| 0 <= i < 1 && provider_aliases(ProviderKind::Openai)[i] == t;
        assert(i == 0);
    }
}

proof fn lemma_names_atlascloud(t: Seq<char>)
    requires
        answers_to(ProviderKind::Atlascloud, t),
    ensures
        belongs(t, 4),
{
    reveal(owner_position);
    reveal_strlit("atlascloud");
    assert(mark("atlascloud"@) == 0xa616461);
    reveal_strlit("atlas-cloud");
    assert(mark("atlas-cloud"@) == 0xb616461);
    reveal_strlit("atlas_cloud");
    assert(mark("atlas_cloud"@) == 0xb616461);
    reveal_strlit("atlas");
    assert(mark("atlas"@) == 0x5617374);
    if t != provider_id(ProviderKind::Atlascloud) {
        let i = choose|i: int| 0 <= i < 3 && provider_aliases(ProviderKind::Atlascloud)[i] == t;
        assert(i == 0 || i == 1 || i == 2);
    }
}

proof fn lemma_names_wanjie_ark(t: Seq<char>)
    requires
        answers_to(ProviderKind::WanjieArk, t),
    ensures
        belongs(t, 5),
{
    reveal(owner_position);
    reveal_strlit("wanjie-ark");
    assert(mark("wanjie-ark"@) == 0xa776b6a);
    reveal_strlit("wanjie");
    assert(mark("wanjie"@) == 0x677656e);
    reveal_strlit("wanjie_ark");
    assert(mark("wanjie_ark"@) == 0xa776b6a);
    reveal_strlit("ark-wanjie");
    assert(mark("ark-wanjie"@) == 0xa61652d);
    reveal_strlit("ark_wanjie");
    assert(mark("ark_wanjie"@) == 0xa61655f);
    reveal_strlit("wanjieark");
    assert(mark("wanjieark"@) == 0x9776b6a);
    reveal_strlit("wanjie-maas");
    assert(mark("wanjie-maas"@) == 0xb77736a);
    reveal_strlit("wanjie_maas");
    assert(mark("wanjie_maas"@) == 0xb77736a);
    reveal_strlit("wanjiemaas");
    assert(mark("wanjiemaas"@) == 0xa77736a);
    if t != provider_id(ProviderKind::WanjieArk) {
        let i = choose|i: int| 0 <= i < 8 && provider_aliases(ProviderKind::WanjieArk)[i] == t;
        assert(i == 0 || i == 1 || i == 2 || i == 3 || i == 4 || i == 5 || i == 6 || i == 7);
    }
}

proof fn lemma_names_volcengine(t: Seq<char>)
    requires
        answers_to(ProviderKind::Volcengine, t),
    ensures
        belongs(t, 6),
{
    reveal(owner_position);
    reveal_strlit("volcengine");
    assert(mark("volcengine"@) == 0xa766563);
    reveal_strlit("volcengine-ark");
    assert(mark("volcengine-ark"@) == 0xe766b65);
    reveal_strlit("volcengine_ark");
    assert(mark("volcengine_ark"@) == 0xe766b65);
    reveal_strlit("ark");
    assert(mark("ark"@) == 0x3616b72);
    reveal_strlit("volc-ark");
    assert(mark("volc-ark"@) == 0x8766b6c);
    reveal_strlit("volcengineark");
    assert(mark("volcengineark"@) == 0xd766b65);
    if t != provider_id(ProviderKind::Volcengine) {
        let i = choose|i: int| 0 <= i < 5 && provider_aliases(ProviderKind::Volcengine)[i] == t;
        assert(i == 0 || i == 1 || i == 2 || i == 3 || i == 4);
    }
}

proof fn lemma_names_openrouter(t: Seq<char>)
    requires
        answers_to(ProviderKind::Openrouter, t),
    ensures
        belongs(t, 7),
{
    reveal(owner_position);
    reveal_strlit("openrouter");
    assert(mark("openrouter"@) == 0xa6f726e);
    reveal_strlit("open_router");
    assert(mark("open_router"@) == 0xb6f726e);
    if t != provider_id(ProviderKind::Openrouter) {
        let i = choose|i: int| 0 <= i < 1 && provider_aliases(ProviderKind::Openrouter)[i] == t;
        assert(i == 0);
    }
}

proof fn lemma_names_orcarouter(t: Seq<char>)
    requires
        answers_to(ProviderKind::Orcarouter, t),
    ensures
        belongs(t, 8),
{
    reveal(owner_position);
    reveal_strlit("orcarouter");
    assert(mark("orcarouter"@) == 0xa6f7261);
    reveal_strlit("orca_router");
    assert(mark("orca_router"@) == 0xb6f7261);
    if t != provider_id(ProviderKind::Orcarouter) {
        let i = choose|i: int| 0 <= i < 1 && provider_aliases(ProviderKind::Orcarouter)[i] == t;
        assert(i == 0);
    }
}

proof fn lemma_names_xiaomi_mimo(t: Seq<char>)
    requires
        answers_to(ProviderKind::XiaomiMimo, t),
    ensures
        belongs(t, 9),
{
    reveal(owner_position);
    reveal_strlit("xiaomi-mimo");
    assert(mark("xiaomi-mimo"@) == 0xb786f6f);
    reveal_strlit("xiaomi_mimo");
    assert(mark("xiaomi_mimo"@) == 0xb786f6f);
    reveal_strlit("xiaomimimo");
    assert(mark("xiaomimimo"@) == 0xa786f6f);
    reveal_strlit("mimo");
    assert(mark("mimo"@) == 0x46d6f69);
    reveal_strlit("xiaomi");
    assert(mark("xiaomi"@) == 0x6786961);
    if t != provider_id(ProviderKind::XiaomiMimo) {
        let i = choose|i: int| 0 <= i < 4 && provider_aliases(ProviderKind::XiaomiMimo)[i] == t;
        assert(i == 0 || i == 1 || i == 2 || i == 3);
    }
}

proof fn lemma_names_novita(t: Seq<char>)
    requires
        answers_to(ProviderKind::Novita, t),
    ensures
        belongs(t, 10),
{
    reveal(owner_position);
    reveal_strlit("novita");
    assert(mark("novita"@) == 0x66e6176);
    reveal_strlit("novita-ai");
    assert(mark("novita-ai"@) == 0x96e6969);
    reveal_strlit("novita_ai");
    assert(mark("novita_ai"@) == 0x96e6969);
    if t != provider_id(ProviderKind::Novita) {
        let i = choose|i: int| 0 <= i < 2 && provider_aliases(ProviderKind::Novita)[i] == t;
        assert(i == 0 || i == 1);
    }
}

proof fn lemma_names_fireworks(t: Seq<char>)
    requires
        answers_to(ProviderKind::Fireworks, t),
    ensures
        belongs(t, 11),
{
    reveal(owner_position);
    reveal_strlit("fireworks");
    assert(mark("fireworks"@) == 0x9667365);
    reveal_strlit("fireworks-ai");
    assert(mark("fireworks-ai"@) == 0xc666977);
    if t != provider_id(ProviderKind::Fireworks) {
        let i = choose|i: int| 0 <= i < 1 && provider_aliases(ProviderKind::Fireworks)[i] == t;
        assert(i == 0);
    }
}

proof fn lemma_names_siliconflow(t: Seq<char>)
    requires
        answers_to(ProviderKind::Siliconflow, t),
    ensures
        belongs(t, 12),
{
    reveal(owner_position);
    reveal_strlit("siliconflow");
    assert(mark("siliconflow"@) == 0xb737769);
    reveal_strlit("silicon-flow");
    assert(mark("silicon-flow"@) == 0xc737763);
    reveal_strlit("silicon_flow");
    assert(mark("silicon_flow"@) == 0xc737763);
    if t != provider_id(ProviderKind::Siliconflow) {
        let i = choose|i: int| 0 <= i < 2 && provider_aliases(ProviderKind::Siliconflow)[i] == t;
        assert(i == 0 || i == 1);
    }
}

proof fn lemma_names_arcee(t: Seq<char>)
    requires
        answers_to(ProviderKind::Arcee, t),
    ensures
        belongs(t, 13),
{
    reveal(owner_position);
    reveal_strlit("arcee");
    assert(mark("arcee"@) == 0x5616572);
    reveal_strlit("arcee-ai");
    assert(mark("arcee-ai"@) == 0x8616963);
    reveal_strlit("arcee_ai");
    assert(mark("arcee_ai"@) == 0x8616963);
    if t != provider_id(ProviderKind::Arcee) {
        let i = choose|i: int| 0 <= i < 2 && provider_aliases(ProviderKind::Arcee)[i] == t;
        assert(i == 0 || i == 1);
    }
}

proof fn lemma_names_siliconflow_c_n(t: Seq<char>)
    requires
        answers_to(ProviderKind::SiliconflowCN, t),
    ensures
        belongs(t, 14),
{
    reveal(owner_position);
    reveal_strlit("siliconflow-CN");
    assert(mark("siliconflow-CN"@) == 0xe734e63);
    reveal_strlit("silicon-flow-cn");
    assert(mark("silicon-flow-cn"@) == 0xf736e6f);
    reveal_strlit("silicon-flow-CN");
    assert(mark("silicon-flow-CN"@) == 0xf734e6f);
    reveal_strlit("silicon_flow_cn");
    assert(mark("silicon_flow_cn"@) == 0xf736e6f);
    reveal_strlit("silicon_flow_CN");
    assert(mark("silicon_flow_CN"@) == 0xf734e6f);
    reveal_strlit("siliconflow-china");
    assert(mark("siliconflow-china"@) == 0x1173616f);
    if t != provider_id(ProviderKind::SiliconflowCN) {
        let i = choose|i: int| 0 <= i < 5 && provider_aliases(ProviderKind::SiliconflowCN)[i] == t;
        assert(i == 0 || i == 1 || i == 2 || i == 3 || i == 4);
    }
}

proof fn lemma_names_moonshot(t: Seq<char>)
    requires
        answers_to(ProviderKind::Moonshot, t),
    ensures
        belongs(t, 15),
{
    reveal(owner_position);
    reveal_strlit("moonshot");
    assert(mark("moonshot"@) == 0x86d746f);
    reveal_strlit("moonshot-ai");
    assert(mark("moonshot-ai"@) == 0xb6d696e);
    reveal_strlit("moonshotai");
    assert(mark("moonshotai"@) == 0xa6d696e);
    reveal_strlit("moonshot_ai");
    assert(mark("moonshot_ai"@) == 0xb6d696e);
    reveal_strlit("kimi");
    assert(mark("kimi"@) == 0x46b6969);
    reveal_strlit("kimi-k2");
    assert(mark("kimi-k2"@) == 0x76b326d);
    if t != provider_id(ProviderKind::Moonshot) {
        let i = choose|i: int| 0 <= i < 5 && provider_aliases(ProviderKind::Moonshot)[i] == t;
        assert(i == 0 || i == 1 || i == 2 || i == 3 || i == 4);
    }
}

proof fn lemma_names_sglang(t: Seq<char>)
    requires
        answers_to(ProviderKind::Sglang, t),
    ensures
        belongs(t, 16),
{
    reveal(owner_position);
    reveal_strlit("sglang");
    assert(mark("sglang"@) == 0x673676c);
    reveal_strlit("sg-lang");
    assert(mark("sg-lang"@) == 0x773672d);
    if t != provider_id(ProviderKind::Sglang) {
        let i = choose|i: int| 0 <= i < 1 && provider_aliases(ProviderKind::Sglang)[i] == t;
        assert(i == 0);
    }
}

proof fn lemma_names_vllm(t: Seq<char>)
    requires
        answers_to(ProviderKind::Vllm, t),
    ensures
        belongs(t, 17),
{
    reveal(owner_position);
    reveal_strlit("vllm");
    assert(mark("vllm"@) == 0x4766d6c);
    reveal_strlit("v-llm");
    assert(mark("v-llm"@) == 0x5766d2d);
    if t != provider_id(ProviderKind::Vllm) {
        let i = choose|i: int| 0 <= i < 1 && provider_aliases(ProviderKind::Vllm)[i] == t;
        assert(i == 0);
    }
}

proof fn lemma_names_ollama(t: Seq<char>)
    requires
        answers_to(ProviderKind::Ollama, t),
    ensures
        belongs(t, 18),
{
    reveal(owner_position);
    reveal_strlit("ollama");
    assert(mark("ollama"@) == 0x66f616c);
    reveal_strlit("ollama-local");
    assert(mark("ollama-local"@) == 0xc6f6c6d);
    if t != provider_id(ProviderKind::Ollama) {
        let i = choose|i: int| 0 <= i < 1 && provider_aliases(ProviderKind::Ollama)[i] == t;
        assert(i == 0);
    }
}

proof fn lemma_names_ollama_cloud(t: Seq<char>)
    requires
        answers_to(ProviderKind::OllamaCloud, t),
    ensures
        belongs(t, 19),
{
    reveal(owner_position);
    reveal_strlit("ollama-cloud");
    assert(mark("ollama-cloud"@) == 0xc6f646d);
    reveal_strlit("ollama_cloud");
    assert(mark("ollama_cloud"@) == 0xc6f646d);
    if t != provider_id(ProviderKind::OllamaCloud) {
        let i = choose|i: int| 0 <= i < 1 && provider_aliases(ProviderKind::OllamaCloud)[i] == t;
        assert(i == 0);
    }
}

proof fn lemma_names_huggingface(t: Seq<char>)
    requires
        answers_to(ProviderKind::Huggingface, t),
    ensures
        belongs(t, 20),
{
    reveal(owner_position);
    reveal_strlit("huggingface");
    assert(mark("huggingface"@) == 0xb686567);
    reveal_strlit("hugging-face");
    assert(mark("hugging-face"@) == 0xc686569);
    reveal_strlit("hugging_face");
    assert(mark("hugging_face"@) == 0xc686569);
    reveal_strlit("hf");
    assert(mark("hf"@) == 0x2686668);
    if t != provider_id(ProviderKind::Huggingface) {
        let i = choose|i: int| 0 <= i < 3 && provider_aliases(ProviderKind::Huggingface)[i] == t;
        assert(i == 0 || i == 1 || i == 2);
    }
}

proof fn lemma_names_modelscope(t: Seq<char>)
    requires
        answers_to(ProviderKind::Modelscope, t),
    ensures
        belongs(t, 21),
{
    reveal(owner_position);
    reveal_strlit("modelscope");
    assert(mark("modelscope"@) == 0xa6d6565);
    reveal_strlit("model-scope");
    assert(mark("model-scope"@) == 0xb6d6565);
    reveal_strlit("model_scope");
    assert(mark("model_scope"@) == 0xb6d6565);
    reveal_strlit("modelscope-cn");
    assert(mark("modelscope-cn"@) == 0xd6d6e6c);
    reveal_strlit("modelscope_cn");
    assert(mark("modelscope_cn"@) == 0xd6d6e6c);
    if t != provider_id(ProviderKind::Modelscope) {
        let i = choose|i: int| 0 <= i < 4 && provider_aliases(ProviderKind::Modelscope)[i] == t;
        assert(i == 0 || i == 1 || i == 2 || i == 3);
    }
}

proof fn lemma_names_together(t: Seq<char>)
    requires
        answers_to(ProviderKind::Together, t),
    ensures
        belongs(t, 22),
{
    reveal(owner_position);
    reveal_strlit("together");
    assert(mark("together"@) == 0x8747267);
    reveal_strlit("together-ai");
    assert(mark("together-ai"@) == 0xb746965);
    reveal_strlit("together_ai");
    assert(mark("together_ai"@) == 0xb746965);
    reveal_strlit("togetherai");
    assert(mark("togetherai"@) == 0xa746965);
    if t != provider_id(ProviderKind::Together) {
        let i = choose|i: int| 0 <= i < 3 && provider_aliases(ProviderKind::Together)[i] == t;
        assert(i == 0 || i == 1 || i == 2);
    }
}

proof fn lemma_names_qianfan(t: Seq<char>)
    requires
        answers_to(ProviderKind::Qianfan, t),
    ensures
        belongs(t, 23),
{
    reveal(owner_position);
    reveal_strlit("qianfan");
    assert(mark("qianfan"@) == 0x7716e61);
    reveal_strlit("baidu-qianfan");
    assert(mark("baidu-qianfan"@) == 0xd626e75);
    reveal_strlit("baidu_qianfan");
    assert(mark("baidu_qianfan"@) == 0xd626e75);
    reveal_strlit("baidu");
    assert(mark("baidu"@) == 0x5627561);
    if t != provider_id(ProviderKind::Qianfan) {
        let i = choose|i: int| 0 <= i < 3 && provider_aliases(ProviderKind::Qianfan)[i] == t;
        assert(i == 0 || i == 1 || i == 2);
    }
}

proof fn lemma_names_openai_codex(t: Seq<char>)
    requires
        answers_to(ProviderKind::OpenaiCodex, t),
    ensures
        belongs(t, 24),
{
    reveal(owner_position);
    reveal_strlit("openai-codex");
    assert(mark("openai-codex"@) == 0xc6f7861);
    reveal_strlit("openai_codex");
    assert(mark("openai_codex"@) == 0xc6f7861);
    reveal_strlit("openaicodex");
    assert(mark("openaicodex"@) == 0xb6f786e);
    reveal_strlit("codex");
    assert(mark("codex"@) == 0x563786f);
    reveal_strlit("chatgpt");
    assert(mark("chatgpt"@) == 0x7637461);
    reveal_strlit("chatgpt-codex");
    assert(mark("chatgpt-codex"@) == 0xd637867);
    reveal_strlit("chatgpt_codex");
    assert(mark("chatgpt_codex"@) == 0xd637867);
    reveal_strlit("chatgptcodex");
    assert(mark("chatgptcodex"@) == 0xc637867);
    if t != provider_id(ProviderKind::OpenaiCodex) {
        let i = choose|i: int| 0 <= i < 7 && provider_aliases(ProviderKind::OpenaiCodex)[i] == t;
        assert(i == 0 || i == 1 || i == 2 || i == 3 || i == 4 || i == 5 || i == 6);
    }
}

proof fn lemma_names_anthropic(t: Seq<char>)
    requires
        answers_to(ProviderKind::Anthropic, t),
    ensures
        belongs(t, 25),
{
    reveal(owner_position);
    reveal_strlit("anthropic");
    assert(mark("anthropic"@) == 0x9616368);
}

proof fn lemma_names_openmodel(t: Seq<char>)
    requires
        answers_to(ProviderKind::Openmodel, t),
    ensures
        belongs(t, 26),
{
    reveal(owner_position);
    reveal_strlit("openmodel");
    assert(mark("openmodel"@) == 0x96f6c6e);
    reveal_strlit("open-model");
    assert(mark("open-model"@) == 0xa6f6c6e);
    reveal_strlit("open_model");
    assert(mark("open_model"@) == 0xa6f6c6e);
    if t != provider_id(ProviderKind::Openmodel) {
        let i = choose|i: int| 0 <= i < 2 && provider_aliases(ProviderKind::Openmodel)[i] == t;
        assert(i == 0 || i == 1);
    }
}

proof fn lemma_names_zai(t: Seq<char>)
    requires
        answers_to(ProviderKind::Zai, t),
    ensures
        belongs(t, 27),
{
    reveal(owner_position);
    reveal_strlit("zai");
    assert(mark("zai"@) == 0x37a6961);
    reveal_strlit("z-ai");
    assert(mark("z-ai"@) == 0x47a692d);
    reveal_strlit("z_ai");
    assert(mark("z_ai"@) == 0x47a695f);
    reveal_strlit("z.ai");
    assert(mark("z.ai"@) == 0x47a692e);
    reveal_strlit("zhipu");
    assert(mark("zhipu"@) == 0x57a7568);
    reveal_strlit("zhipuai");
    assert(mark("zhipuai"@) == 0x77a6969);
    reveal_strlit("bigmodel");
    assert(mark("bigmodel"@) == 0x8626c67);
    reveal_strlit("big-model");
    assert(mark("big-model"@) == 0x9626c2d);
    if t != provider_id(ProviderKind::Zai) {
        let i = choose|i: int| 0 <= i < 7 && provider_aliases(ProviderKind::Zai)[i] == t;
        assert(i == 0 || i == 1 || i == 2 || i == 3 || i == 4 || i == 5 || i == 6);
    }
}

proof fn lemma_names_stepfun(t: Seq<char>)
    requires
        answers_to(ProviderKind::Stepfun, t),
    ensures
        belongs(t, 28),
{
    reveal(owner_position);
    reveal_strlit("stepfun");
    assert(mark("stepfun"@) == 0x7736e65);
    reveal_strlit("step-fun");
    assert(mark("step-fun"@) == 0x8736e65);
    reveal_strlit("step_fun");
    assert(mark("step_fun"@) == 0x8736e65);
    reveal_strlit("stepflash");
    assert(mark("stepflash"@) == 0x9736870);
    reveal_strlit("step-flash");
    assert(mark("step-flash"@) == 0xa736870);
    reveal_strlit("step_flash");
    assert(mark("step_flash"@) == 0xa736870);
    if t != provider_id(ProviderKind::Stepfun) {
        let i = choose|i: int| 0 <= i < 5 && provider_aliases(ProviderKind::Stepfun)[i] == t;
        assert(i == 0 || i == 1 || i == 2 || i == 3 || i == 4);
    }
}

proof fn lemma_names_minimax(t: Seq<char>)
    requires
        answers_to(ProviderKind::Minimax, t),
    ensures
        belongs(t, 29),
{
    reveal(owner_position);
    reveal_strlit("minimax");
    assert(mark("minimax"@) == 0x76d786e);
    reveal_strlit("mini-max");
    assert(mark("mini-max"@) == 0x86d786e);
    reveal_strlit("mini_max");
    assert(mark("mini_max"@) == 0x86d786e);
    reveal_strlit("minimax-anthropic");
    assert(mark("minimax-anthropic"@) == 0x116d6361);
    reveal_strlit("minimax_anthropic");
    assert(mark("minimax_anthropic"@) == 0x116d6361);
    reveal_strlit("mini-max-anthropic");
    assert(mark("mini-max-anthropic"@) == 0x126d6361);
    reveal_strlit("mini_max_anthropic");
    assert(mark("mini_max_anthropic"@) == 0x126d6361);
    if t != provider_id(ProviderKind::Minimax) {
        let i = choose|i: int| 0 <= i < 6 && provider_aliases(ProviderKind::Minimax)[i] == t;
        assert(i == 0 || i == 1 || i == 2 || i == 3 || i == 4 || i == 5);
    }
}

proof fn lemma_names_minimax_anthropic(t: Seq<char>)
    requires
        answers_to(ProviderKind::MinimaxAnthropic, t),
    ensures
        belongs(t, 29),
{
    reveal(owner_position);
    reveal_strlit("minimax-anthropic");
    assert(mark("minimax-anthropic"@) == 0x116d6361);
}

proof fn lemma_names_deepinfra(t: Seq<char>)
    requires
        answers_to(ProviderKind::Deepinfra, t),
    ensures
        belongs(t, 31),
{
    reveal(owner_position);
    reveal_strlit("deepinfra");
    assert(mark("deepinfra"@) == 0x9646170);
    reveal_strlit("deep-infra");
    assert(mark("deep-infra"@) == 0xa646170);
    reveal_strlit("deep_infra");
    assert(mark("deep_infra"@) == 0xa646170);
    if t != provider_id(ProviderKind::Deepinfra) {
        let i = choose|i: int| 0 <= i < 2 && provider_aliases(ProviderKind::Deepinfra)[i] == t;
        assert(i == 0 || i == 1);
    }
}

proof fn lemma_names_sakana(t: Seq<char>)
    requires
        answers_to(ProviderKind::Sakana, t),
    ensures
        belongs(t, 32),
{
    reveal(owner_position);
    reveal_strlit("sakana");
    assert(mark("sakana"@) == 0x673616b);
    reveal_strlit("sakana-ai");
    assert(mark("sakana-ai"@) == 0x9736961);
    reveal_strlit("sakana_ai");
    assert(mark("sakana_ai"@) == 0x9736961);
    reveal_strlit("fugu");
    assert(mark("fugu"@) == 0x4667575);
    if t != provider_id(ProviderKind::Sakana) {
        let i = choose|i: int| 0 <= i < 3 && provider_aliases(ProviderKind::Sakana)[i] == t;
        assert(i == 0 || i == 1 || i == 2);
    }
}

proof fn lemma_names_long_cat(t: Seq<char>)
    requires
        answers_to(ProviderKind::LongCat, t),
    ensures
        belongs(t, 33),
{
    reveal(owner_position);
    reveal_strlit("longcat");
    assert(mark("longcat"@) == 0x76c746e);
    reveal_strlit("long-cat");
    assert(mark("long-cat"@) == 0x86c746e);
    reveal_strlit("meituan-longcat");
    assert(mark("meituan-longcat"@) == 0xf6d7461);
    reveal_strlit("meituan");
    assert(mark("meituan"@) == 0x76d6e69);
    if t != provider_id(ProviderKind::LongCat) {
        let i = choose|i: int| 0 <= i < 3 && provider_aliases(ProviderKind::LongCat)[i] == t;
        assert(i == 0 || i == 1 || i == 2);
    }
}

proof fn lemma_names_opencode_go(t: Seq<char>)
    requires
        answers_to(ProviderKind::OpencodeGo, t),
    ensures
        belongs(t, 34),
{
    reveal(owner_position);
    reveal_strlit("opencode-go");
    assert(mark("opencode-go"@) == 0xb6f6f6e);
    reveal_strlit("opencode_go");
    assert(mark("opencode_go"@) == 0xb6f6f6e);
    reveal_strlit("opencodego");
    assert(mark("opencodego"@) == 0xa6f6f6e);
    if t != provider_id(ProviderKind::OpencodeGo) {
        let i = choose|i: int| 0 <= i < 2 && provider_aliases(ProviderKind::OpencodeGo)[i] == t;
        assert(i == 0 || i == 1);
    }
}

proof fn lemma_names_opencode_zen(t: Seq<char>)
    requires
        answers_to(ProviderKind::OpencodeZen, t),
    ensures
        belongs(t, 35),
{
    reveal(owner_position);
    reveal_strlit("opencode-zen");
    assert(mark("opencode-zen"@) == 0xc6f6e63);
    reveal_strlit("opencode_zen");
    assert(mark("opencode_zen"@) == 0xc6f6e63);
    reveal_strlit("opencodezen");
    assert(mark("opencodezen"@) == 0xb6f6e6e);
    reveal_strlit("zen");
    assert(mark("zen"@) == 0x37a6e65);
    reveal_strlit("opencode");
    assert(mark("opencode"@) == 0x86f6565);
    if t != provider_id(ProviderKind::OpencodeZen) {
        let i = choose|i: int| 0 <= i < 4 && provider_aliases(ProviderKind::OpencodeZen)[i] == t;
        assert(i == 0 || i == 1 || i == 2 || i == 3);
    }
}

proof fn lemma_names_meta(t: Seq<char>)
    requires
        answers_to(ProviderKind::Meta, t),
    ensures
        belongs(t, 36),
{
    reveal(owner_position);
    reveal_strlit("meta");
    assert(mark("meta"@) == 0x46d6165);
    reveal_strlit("meta-ai");
    assert(mark("meta-ai"@) == 0x76d6974);
    reveal_strlit("meta_ai");
    assert(mark("meta_ai"@) == 0x76d6974);
    reveal_strlit("meta-model-api");
    assert(mark("meta-model-api"@) == 0xe6d692d);
    reveal_strlit("meta_model_api");
    assert(mark("meta_model_api"@) == 0xe6d695f);
    reveal_strlit("muse");
    assert(mark("muse"@) == 0x46d6575);
    reveal_strlit("muse-spark");
    assert(mark("muse-spark"@) == 0xa6d6b65);
    if t != provider_id(ProviderKind::Meta) {
        let i = choose|i: int| 0 <= i < 6 && provider_aliases(ProviderKind::Meta)[i] == t;
        assert(i == 0 || i == 1 || i == 2 || i == 3 || i == 4 || i == 5);
    }
}

proof fn lemma_names_xai(t: Seq<char>)
    requires
        answers_to(ProviderKind::Xai, t),
    ensures
        belongs(t, 37),
{
    reveal(owner_position);
    reveal_strlit("xai");
    assert(mark("xai"@) == 0x3786961);
    reveal_strlit("x-ai");
    assert(mark("x-ai"@) == 0x478692d);
    reveal_strlit("x_ai");
    assert(mark("x_ai"@) == 0x478695f);
    reveal_strlit("grok");
    assert(mark("grok"@) == 0x4676b72);
    if t != provider_id(ProviderKind::Xai) {
        let i = choose|i: int| 0 <= i < 3 && provider_aliases(ProviderKind::Xai)[i] == t;
        assert(i == 0 || i == 1 || i == 2);
    }
}

proof fn lemma_names_mistral(t: Seq<char>)
    requires
        answers_to(ProviderKind::Mistral, t),
    ensures
        belongs(t, 38),
{
    reveal(owner_position);
    reveal_strlit("mistral");
    assert(mark("mistral"@) == 0x76d6c73);
    reveal_strlit("mistral-ai");
    assert(mark("mistral-ai"@) == 0xa6d6974);
    reveal_strlit("mistral_ai");
    assert(mark("mistral_ai"@) == 0xa6d6974);
    reveal_strlit("mistralai");
    assert(mark("mistralai"@) == 0x96d6974);
    reveal_strlit("la-plateforme");
    assert(mark("la-plateforme"@) == 0xd6c656c);
    reveal_strlit("la_plateforme");
    assert(mark("la_plateforme"@) == 0xd6c656c);
    if t != provider_id(ProviderKind::Mistral) {
        let i = choose|i: int| 0 <= i < 5 && provider_aliases(ProviderKind::Mistral)[i] == t;
        assert(i == 0 || i == 1 || i == 2 || i == 3 || i == 4);
    }
}

proof fn lemma_names_telecomjs(t: Seq<char>)
    requires
        answers_to(ProviderKind::Telecomjs, t),
    ensures
        belongs(t, 39),
{
    reveal(owner_position);
    reveal_strlit("telecomjs");
    assert(mark("telecomjs"@) == 0x9747365);
    reveal_strlit("telecom-js");
    assert(mark("telecom-js"@) == 0xa747365);
    reveal_strlit("telecom_js");
    assert(mark("telecom_js"@) == 0xa747365);
    reveal_strlit("telecomjs-cn");
    assert(mark("telecomjs-cn"@) == 0xc746e63);
    reveal_strlit("tokenhub");
    assert(mark("tokenhub"@) == 0x874626b);
    if t != provider_id(ProviderKind::Telecomjs) {
        let i = choose|i: int| 0 <= i < 4 && provider_aliases(ProviderKind::Telecomjs)[i] == t;
        assert(i == 0 || i == 1 || i == 2 || i == 3);
    }
}

proof fn lemma_names_edenai(t: Seq<char>)
    requires
        answers_to(ProviderKind::Edenai, t),
    ensures
        belongs(t, 40),
{
    reveal(owner_position);
    reveal_strlit("edenai");
    assert(mark("edenai"@) == 0x6656965);
    reveal_strlit("eden-ai");
    assert(mark("eden-ai"@) == 0x7656965);
    reveal_strlit("eden_ai");
    assert(mark("eden_ai"@) == 0x7656965);
    if t != provider_id(ProviderKind::Edenai) {
        let i = choose|i: int| 0 <= i < 2 && provider_aliases(ProviderKind::Edenai)[i] == t;
        assert(i == 0 || i == 1);
    }
}

proof fn lemma_names_zenmux(t: Seq<char>)
    requires
        answers_to(ProviderKind::Zenmux, t),
    ensures
        belongs(t, 41),
{
    reveal(owner_position);
    reveal_strlit("zenmux");
    assert(mark("zenmux"@) == 0x67a786e);
    reveal_strlit("zen-mux");
    assert(mark("zen-mux"@) == 0x77a786e);
    reveal_strlit("zen_mux");
    assert(mark("zen_mux"@) == 0x77a786e);
    if t != provider_id(ProviderKind::Zenmux) {
        let i = choose|i: int| 0 <= i < 2 && provider_aliases(ProviderKind::Zenmux)[i] == t;
        assert(i == 0 || i == 1);
    }
}

proof fn lemma_names_csdn(t: Seq<char>)
    requires
        answers_to(ProviderKind::Csdn, t),
    ensures
        belongs(t, 42),
{
    reveal(owner_position);
    reveal_strlit("csdn");
    assert(mark("csdn"@) == 0x4636e73);
    reveal_strlit("csdn-ai");
    assert(mark("csdn-ai"@) == 0x7636964);
    reveal_strlit("csdn_ai");
    assert(mark("csdn_ai"@) == 0x7636964);
    reveal_strlit("csdn-coding-plan");
    assert(mark("csdn-coding-plan"@) == 0x10636e63);
    reveal_strlit("csdn_coding_plan");
    assert(mark("csdn_coding_plan"@) == 0x10636e63);
    reveal_strlit("starmap");
    assert(mark("starmap"@) == 0x7737061);
    if t != provider_id(ProviderKind::Csdn) {
        let i = choose|i: int| 0 <= i < 5 && provider_aliases(ProviderKind::Csdn)[i] == t;
        assert(i == 0 || i == 1 || i == 2 || i == 3 || i == 4);
    }
}

proof fn lemma_names_concentrate(t: Seq<char>)
    requires
        answers_to(ProviderKind::Concentrate, t),
    ensures
        belongs(t, 43),
{
    reveal(owner_position);
    reveal_strlit("concentrate");
    assert(mark("concentrate"@) == 0xb636563);
    reveal_strlit("concentrate-ai");
    assert(mark("concentrate-ai"@) == 0xe636965);
    reveal_strlit("concentrate_ai");
    assert(mark("concentrate_ai"@) == 0xe636965);
    reveal_strlit("concentrateai");
    assert(mark("concentrateai"@) == 0xd636965);
    if t != provider_id(ProviderKind::Concentrate) {
        let i = choose|i: int| 0 <= i < 3 && provider_aliases(ProviderKind::Concentrate)[i] == t;
        assert(i == 0 || i == 1 || i == 2);
    }
}

proof fn lemma_names_codewhale(t: Seq<char>)
    requires
        answers_to(ProviderKind::Codewhale, t),
    ensures
        belongs(t, 44),
{
    reveal(owner_position);
    reveal_strlit("codewhale");
    assert(mark("codewhale"@) == 0x9636565);
    reveal_strlit("codewhale-api");
    assert(mark("codewhale-api"@) == 0xd636977);
    reveal_strlit("codewhale_api");
    assert(mark("codewhale_api"@) == 0xd636977);
    reveal_strlit("cw-api");
    assert(mark("cw-api"@) == 0x663692d);
    reveal_strlit("codewhale-cloud");
    assert(mark("codewhale-cloud"@) == 0xf636468);
    if t != provider_id(ProviderKind::Codewhale) {
        let i = choose|i: int| 0 <= i < 4 && provider_aliases(ProviderKind::Codewhale)[i] == t;
        assert(i == 0 || i == 1 || i == 2 || i == 3);
    }
}

proof fn lemma_names_modelstudio_token_plan(t: Seq<char>)
    requires
        answers_to(ProviderKind::ModelstudioTokenPlan, t),
    ensures
        belongs(t, 45),
{
    reveal(owner_position);
    reveal_strlit("modelstudio-token-plan");
    assert(mark("modelstudio-token-plan"@) == 0x166d6e75);
    reveal_strlit("modelstudio_token_plan");
    assert(mark("modelstudio_token_plan"@) == 0x166d6e75);
    reveal_strlit("modelstudio");
    assert(mark("modelstudio"@) == 0xb6d6f65);
    reveal_strlit("alibaba-token-plan");
    assert(mark("alibaba-token-plan"@) == 0x12616e61);
    reveal_strlit("dashscope-token-plan");
    assert(mark("dashscope-token-plan"@) == 0x14646e6f);
    reveal_strlit("alibaba");
    assert(mark("alibaba"@) == 0x7616169);
    reveal_strlit("dashscope");
    assert(mark("dashscope"@) == 0x9646568);
    reveal_strlit("modelstudio-coding-plan");
    assert(mark("modelstudio-coding-plan"@) == 0x176d6e75);
    reveal_strlit("modelstudio_coding_plan");
    assert(mark("modelstudio_coding_plan"@) == 0x176d6e75);
    reveal_strlit("alibaba-coding-plan");
    assert(mark("alibaba-coding-plan"@) == 0x13616e61);
    reveal_strlit("dashscope-coding-plan");
    assert(mark("dashscope-coding-plan"@) == 0x15646e70);
    reveal_strlit("modelstudio-token-plan-anthropic");
    assert(mark("modelstudio-token-plan-anthropic"@) == 0x206d636f);
    reveal_strlit("modelstudio_token_plan_anthropic");
    assert(mark("modelstudio_token_plan_anthropic"@) == 0x206d636f);
    reveal_strlit("alibaba-token-plan-anthropic");
    assert(mark("alibaba-token-plan-anthropic"@) == 0x1c61636f);
    reveal_strlit("modelstudio-coding-plan-anthropic");
    assert(mark("modelstudio-coding-plan-anthropic"@) == 0x216d632d);
    reveal_strlit("modelstudio_coding_plan_anthropic");
    assert(mark("modelstudio_coding_plan_anthropic"@) == 0x216d635f);
    reveal_strlit("alibaba-coding-plan-anthropic");
    assert(mark("alibaba-coding-plan-anthropic"@) == 0x1d61636f);
    if t != provider_id(ProviderKind::ModelstudioTokenPlan) {
        let i = choose|i: int| 0 <= i < 17 && provider_aliases(ProviderKind::ModelstudioTokenPlan)[i] == t;
        assert(i == 0 || i == 1 || i == 2 || i == 3 || i == 4 || i == 5 || i == 6 || i == 7 || i == 8 || i == 9 || i == 10 || i == 11 || i == 12 || i == 13 || i == 14 || i == 15 || i == 16);
    }
}

proof fn lemma_names_modelstudio_token_plan_anthropic(t: Seq<char>)
    requires
        answers_to(ProviderKind::ModelstudioTokenPlanAnthropic, t),
    ensures
        belongs(t, 45),
{
    reveal(owner_position);
    reveal_strlit("modelstudio-token-plan-anthropic");
    assert(mark("modelstudio-token-plan-anthropic"@) == 0x206d636f);
}

proof fn lemma_names_modelstudio_coding_plan(t: Seq<char>)
    requires
        answers_to(ProviderKind::ModelstudioCodingPlan, t),
    ensures
        belongs(t, 45),
{
    reveal(owner_position);
    reveal_strlit("modelstudio-coding-plan");
    assert(mark("modelstudio-coding-plan"@) == 0x176d6e75);
}

proof fn lemma_names_modelstudio_coding_plan_anthropic(t: Seq<char>)
    requires
        answers_to(ProviderKind::ModelstudioCodingPlanAnthropic, t),
    ensures
        belongs(t, 45),
{
    reveal(owner_position);
    reveal_strlit("modelstudio-coding-plan-anthropic");
    assert(mark("modelstudio-coding-plan-anthropic"@) == 0x216d632d);
}

proof fn lemma_names_google(t: Seq<char>)
    requires
        answers_to(ProviderKind::Google, t),
    ensures
        belongs(t, 49),
{
    reveal(owner_position);
    reveal_strlit("google");
    assert(mark("google"@) == 0x667656f);
    reveal_strlit("google-gemini");
    assert(mark("google-gemini"@) == 0xd67696c);
    reveal_strlit("google_gemini");
    assert(mark("google_gemini"@) == 0xd67696c);
    reveal_strlit("gemini");
    assert(mark("gemini"@) == 0x667696d);
    reveal_strlit("google-ai");
    assert(mark("google-ai"@) == 0x9676967);
    reveal_strlit("google_ai");
    assert(mark("google_ai"@) == 0x9676967);
    reveal_strlit("ai-studio");
    assert(mark("ai-studio"@) == 0x9616f73);
    reveal_strlit("aistudio");
    assert(mark("aistudio"@) == 0x8616f73);
    if t != provider_id(ProviderKind::Google) {
        let i = choose|i: int| 0 <= i < 7 && provider_aliases(ProviderKind::Google)[i] == t;
        assert(i == 0 || i == 1 || i == 2 || i == 3 || i == 4 || i == 5 || i == 6);
    }
}

proof fn lemma_names_antigravity(t: Seq<char>)
    requires
        answers_to(ProviderKind::Antigravity, t),
    ensures
        belongs(t, 50),
{
    reveal(owner_position);
    reveal_strlit("antigravity");
    assert(mark("antigravity"@) == 0xb617969);
    reveal_strlit("agy");
    assert(mark("agy"@) == 0x3617967);
    if t != provider_id(ProviderKind::Antigravity) {
        let i = choose|i: int| 0 <= i < 1 && provider_aliases(ProviderKind::Antigravity)[i] == t;
        assert(i == 0);
    }
}

proof fn lemma_names_custom(t: Seq<char>)
    requires
        answers_to(ProviderKind::Custom, t),
    ensures
        belongs(t, 51),
{
    reveal(owner_position);
    reveal_strlit("custom");
    assert(mark("custom"@) == 0x6636d73);
}

proof fn lemma_names(kind: ProviderKind, t: Seq<char>)
    requires
        answers_to(kind, t),
    ensures
        belongs(t, registry_position(primary_kind(kind))),
{
    match kind {
        ProviderKind::Deepseek => lemma_names_deepseek(t),
        ProviderKind::DeepseekAnthropic => lemma_names_deepseek_anthropic(t),
        ProviderKind::NvidiaNim => lemma_names_nvidia_nim(t),
        ProviderKind::Openai => lemma_names_openai(t),
        ProviderKind::Atlascloud => lemma_names_atlascloud(t),
        ProviderKind::WanjieArk => lemma_names_wanjie_ark(t),
        ProviderKind::Volcengine => lemma_names_volcengine(t),
        ProviderKind::Openrouter => lemma_names_openrouter(t),
        ProviderKind::Orcarouter => lemma_names_orcarouter(t),
        ProviderKind::XiaomiMimo => lemma_names_xiaomi_mimo(t),
        ProviderKind::Novita => lemma_names_novita(t),
        ProviderKind::Fireworks => lemma_names_fireworks(t),
        ProviderKind::Siliconflow => lemma_names_siliconflow(t),
        ProviderKind::Arcee => lemma_names_arcee(t),
        ProviderKind::SiliconflowCN => lemma_names_siliconflow_c_n(t),
        ProviderKind::Moonshot => lemma_names_moonshot(t),
        ProviderKind::Sglang => lemma_names_sglang(t),
        ProviderKind::Vllm => lemma_names_vllm(t),
        ProviderKind::Ollama => lemma_names_ollama(t),
        ProviderKind::OllamaCloud => lemma_names_ollama_cloud(t),
        ProviderKind::Huggingface => lemma_names_huggingface(t),
        ProviderKind::Modelscope => lemma_names_modelscope(t),
        ProviderKind::Together => lemma_names_together(t),
        ProviderKind::Qianfan => lemma_names_qianfan(t),
        ProviderKind::OpenaiCodex => lemma_names_openai_codex(t),
        ProviderKind::Anthropic => lemma_names_anthropic(t),
        ProviderKind::Openmodel => lemma_names_openmodel(t),
        ProviderKind::Zai => lemma_names_zai(t),
        ProviderKind::Stepfun => lemma_names_stepfun(t),
        ProviderKind::Minimax => lemma_names_minimax(t),
        ProviderKind::MinimaxAnthropic => lemma_names_minimax_anthropic(t),
        ProviderKind::Deepinfra => lemma_names_deepinfra(t),
        ProviderKind::Sakana => lemma_names_sakana(t),
        ProviderKind::LongCat => lemma_names_long_cat(t),
        ProviderKind::OpencodeGo => lemma_names_opencode_go(t),
        ProviderKind::OpencodeZen => lemma_names_opencode_zen(t),
        ProviderKind::Meta => lemma_names_meta(t),
        ProviderKind::Xai => lemma_names_xai(t),
        ProviderKind::Mistral => lemma_names_mistral(t),
        ProviderKind::Telecomjs => lemma_names_telecomjs(t),
        ProviderKind::Edenai => lemma_names_edenai(t),
        ProviderKind::Zenmux => lemma_names_zenmux(t),
        ProviderKind::Csdn => lemma_names_csdn(t),
        ProviderKind::Concentrate => lemma_names_concentrate(t),
        ProviderKind::Codewhale => lemma_names_codewhale(t),
        ProviderKind::ModelstudioTokenPlan => lemma_names_modelstudio_token_plan(t),
        ProviderKind::ModelstudioTokenPlanAnthropic => lemma_names_modelstudio_token_plan_anthropic(t),
        ProviderKind::ModelstudioCodingPlan => lemma_names_modelstudio_coding_plan(t),
        ProviderKind::ModelstudioCodingPlanAnthropic => lemma_names_modelstudio_coding_plan_anthropic(t),
        ProviderKind::Google => lemma_names_google(t),
        ProviderKind::Antigravity => lemma_names_antigravity(t),
        ProviderKind::Custom => lemma_names_custom(t),
    }
}

proof fn lemma_primary_answers(kind: ProviderKind)
    ensures
        answers_to(primary_kind(kind), provider_id(kind)),
{
    match kind {
        ProviderKind::DeepseekAnthropic => assert(provider_aliases(ProviderKind::Deepseek)[5] == provider_id(
            kind,
        )),
        ProviderKind::MinimaxAnthropic => assert(provider_aliases(ProviderKind::Minimax)[2] == provider_id(
            kind,
        )),
        ProviderKind::ModelstudioTokenPlanAnthropic => assert(provider_aliases(ProviderKind::ModelstudioTokenPlan)[11] == provider_id(
            kind,
        )),
        ProviderKind::ModelstudioCodingPlan => assert(provider_aliases(ProviderKind::ModelstudioTokenPlan)[7] == provider_id(
            kind,
        )),
        ProviderKind::ModelstudioCodingPlanAnthropic => assert(provider_aliases(ProviderKind::ModelstudioTokenPlan)[14] == provider_id(
            kind,
        )),
        _ => {},
    }
}

proof fn lemma_first_at(
    kinds: Seq<ProviderKind>,
    want: spec_fn(ProviderKind) -> bool,
    p: int,
)
    requires
        0 <= p < kinds.len(),
        want(kinds[p]),
        forall|i: int| 0 <= i < p ==> !want(#[trigger] kinds[i]),
    ensures
        first_kind(kinds, want) == Some(kinds[p]),
    decreases p,
{
    if p > 0 {
        let rest = kinds.drop_first();
        assert(!want(kinds[0]));
        assert forall|i: int| 0 <= i < p - 1 implies !want(#[trigger] rest[i]) by {
            assert(rest[i] == kinds[i + 1]);
        }
        lemma_first_at(rest, want, p - 1);
    }
}

proof fn lemma_no_kind(kinds: Seq<ProviderKind>, want: spec_fn(ProviderKind) -> bool)
    ensures
        first_kind(kinds, want) is Some ==> kinds.contains(first_kind(kinds, want)->0) && want(
            first_kind(kinds, want)->0,
        ),
        first_kind(kinds, want) is None ==> forall|i: int|
            0 <= i < kinds.len() ==> !want(#[trigger] kinds[i]),
    decreases kinds.len(),
{
    if kinds.len() > 0 {
        let rest = kinds.drop_first();
        if want(kinds[0]) {
            assert(kinds.contains(kinds[0]));
        } else {
            lemma_no_kind(rest, want);
            if first_kind(rest, want) is Some {
                let k = first_kind(rest, want)->0;
                let j = choose|j: int| 0 <= j < rest.len() && rest[j] == k;
                assert(kinds[j + 1] == k);
            } else {
                assert forall|i: int| 0 <= i < kinds.len() implies !want(#[trigger] kinds[i]) by {
                    if i > 0 {
                        assert(rest[i - 1] == kinds[i]);
                    }
                }
            }
        }
    }
}

/// Every id and every alias of a provider denotes that provider, or the primary
/// onto which it collapses, and no other provider answers to the name.
pub proof fn every_name_denotes_its_primary(kind: ProviderKind, name: Seq<char>)
    requires
        answers_to(kind, name),
    ensures
        kind_named(name) == Some(primary_kind(kind)),
        forall|other: ProviderKind|
            #[trigger] answers_to(other, name) ==> primary_kind(other) == primary_kind(kind),
{
    registry_lists_every_kind_once();
    lemma_names(kind, name);
    lemma_trim_of_solid(name);
    let p = registry_position(primary_kind(kind));
    let want = |k: ProviderKind| answers_to(k, trim(name));
    assert forall|other: ProviderKind| #[trigger] answers_to(other, name) implies primary_kind(
        other,
    ) == primary_kind(kind) by {
        lemma_names(other, name);
        assert(registry()[registry_position(primary_kind(other))] == primary_kind(other));
        assert(registry()[p] == primary_kind(kind));
    }
    assert(registry()[p] == primary_kind(kind));
    if primary_kind(kind) == kind {
        assert(want(registry()[p]));
    } else {
        lemma_primary_answers(kind);
        assert(name == provider_id(kind));
    }
    assert forall|i: int| 0 <= i < p implies !want(#[trigger] registry()[i]) by {
        let other = registry()[i];
        if answers_to(other, name) {
            lemma_names(other, name);
            assert(registry_position(other) == i);
        }
    }
    lemma_first_at(registry(), want, p);
}

/// A canonical id denotes its own provider when ids alone are looked up.
pub proof fn every_id_denotes_its_kind(kind: ProviderKind)
    ensures
        kind_with_id(provider_id(kind)) == Some(kind),
        forall|other: ProviderKind|
            #[trigger] provider_id(other) == provider_id(kind) ==> other == kind,
{
    registry_lists_every_kind_once();
    let id = provider_id(kind);
    lemma_names(kind, id);
    lemma_trim_of_solid(id);
    let want = |k: ProviderKind| provider_id(k) == trim(id);
    assert forall|other: ProviderKind| #[trigger] provider_id(other) == id implies other
        == kind by {
        every_name_denotes_its_primary(other, id);
        every_name_denotes_its_primary(kind, id);
        lemma_dialect_ids(other, kind);
    }
    assert(registry()[registry_position(kind)] == kind);
    assert(want(registry()[registry_position(kind)]));
    assert forall|i: int| 0 <= i < registry_position(kind) implies !want(
        #[trigger] registry()[i],
    ) by {
        assert(registry_position(registry()[i]) == i);
    }
    lemma_first_at(registry(), want, registry_position(kind));
}

/// The ids of variants that share a primary differ.
proof fn lemma_dialect_ids(a: ProviderKind, b: ProviderKind)
    requires
        primary_kind(a) == primary_kind(b),
        provider_id(a) == provider_id(b),
    ensures
        a == b,
{
    reveal_strlit("deepseek");
    assert("deepseek"@.len() == 8);
    reveal_strlit("deepseek-anthropic");
    assert("deepseek-anthropic"@.len() == 18);
    reveal_strlit("minimax");
    assert("minimax"@.len() == 7);
    reveal_strlit("minimax-anthropic");
    assert("minimax-anthropic"@.len() == 17);
    reveal_strlit("modelstudio-token-plan");
    assert("modelstudio-token-plan"@.len() == 22);
    reveal_strlit("modelstudio-token-plan-anthropic");
    assert("modelstudio-token-plan-anthropic"@.len() == 32);
    reveal_strlit("modelstudio-coding-plan");
    assert("modelstudio-coding-plan"@.len() == 23);
    reveal_strlit("modelstudio-coding-plan-anthropic");
    assert("modelstudio-coding-plan-anthropic"@.len() == 33);
    let n = provider_id(a).len();
    assert(provider_id(b).len() == n);
    match a {
        ProviderKind::Deepseek | ProviderKind::DeepseekAnthropic => {
            assert(b == ProviderKind::Deepseek || b == ProviderKind::DeepseekAnthropic);
        },
        ProviderKind::Minimax | ProviderKind::MinimaxAnthropic => {
            assert(b == ProviderKind::Minimax || b == ProviderKind::MinimaxAnthropic);
        },
        ProviderKind::ModelstudioTokenPlan
        | ProviderKind::ModelstudioTokenPlanAnthropic
        | ProviderKind::ModelstudioCodingPlan
        | ProviderKind::ModelstudioCodingPlanAnthropic => {
            assert(b == ProviderKind::ModelstudioTokenPlan || b
                == ProviderKind::ModelstudioTokenPlanAnthropic || b
                == ProviderKind::ModelstudioCodingPlan || b
                == ProviderKind::ModelstudioCodingPlanAnthropic);
        },
        _ => {},
    }
}

/// The id of a provider neither begins nor ends in white space.
pub proof fn ids_are_trimmed(kind: ProviderKind)
    ensures
        provider_id(kind).len() > 0,
        trim(provider_id(kind)) == provider_id(kind),
{
    lemma_names(kind, provider_id(kind));
    lemma_trim_of_solid(provider_id(kind));
}

/// A name that some provider answers to denotes a provider, and the provider
/// that a name denotes answers to it.
pub proof fn named_kind_answers(name: Seq<char>)
    ensures
        match kind_named(name) {
            Some(kind) => answers_to(kind, trim(name)) && primary_kind(kind) == kind,
            None => forall|kind: ProviderKind| !answers_to(kind, trim(name)),
        },
{
    registry_lists_every_kind_once();
    let want = |k: ProviderKind| answers_to(k, trim(name));
    lemma_no_kind(registry(), want);
    match kind_named(name) {
        Some(kind) => {
            lemma_names(kind, trim(name));
            lemma_trim_of_solid(trim(name));
            every_name_denotes_its_primary(kind, trim(name));
        },
        None => {
            assert forall|kind: ProviderKind| !answers_to(kind, trim(name)) by {
                assert(registry()[registry_position(kind)] == kind);
                assert(!want(registry()[registry_position(kind)]));
            }
        },
    }
}

/// The configuration key of a provider is one of its names, and denotes it: only
/// the variants of another provider's service are not known by theirs.
pub proof fn a_config_key_denotes_its_provider(kind: ProviderKind)
    requires
        kind != ProviderKind::DeepseekAnthropic,
        kind != ProviderKind::SiliconflowCN,
        kind != ProviderKind::MinimaxAnthropic,
        kind != ProviderKind::ModelstudioTokenPlanAnthropic,
        kind != ProviderKind::ModelstudioCodingPlan,
        kind != ProviderKind::ModelstudioCodingPlanAnthropic,
    ensures
        answers_to(kind, provider_config_key_of(kind)),
        kind_named(provider_config_key_of(kind)) == Some(kind),
{
    match kind {
        ProviderKind::NvidiaNim => {
            assert(provider_aliases(kind)[1] == "nvidia_nim"@);
        },
        ProviderKind::WanjieArk => {
            assert(provider_aliases(kind)[1] == "wanjie_ark"@);
        },
        ProviderKind::XiaomiMimo => {
            assert(provider_aliases(kind)[0] == "xiaomi_mimo"@);
        },
        ProviderKind::OllamaCloud => {
            assert(provider_aliases(kind)[0] == "ollama_cloud"@);
        },
        ProviderKind::OpenaiCodex => {
            assert(provider_aliases(kind)[0] == "openai_codex"@);
        },
        ProviderKind::OpencodeGo => {
            assert(provider_aliases(kind)[0] == "opencode_go"@);
        },
        ProviderKind::OpencodeZen => {
            assert(provider_aliases(kind)[0] == "opencode_zen"@);
        },
        ProviderKind::ModelstudioTokenPlan => {
            assert(provider_aliases(kind)[1] == "modelstudio_token_plan"@);
        },
        _ => {},
    }
    every_name_denotes_its_primary(kind, provider_config_key_of(kind));
}

} // verus!
