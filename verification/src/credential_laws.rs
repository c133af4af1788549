//! Which place a credential comes from, place by place.
//!
//! Each law takes a configuration and a world in which no earlier place holds a
//! credential, and says what the resolution is when the next one does, whatever
//! the later places hold.

use vstd::prelude::*;
use crate::api_provider::{api_id, ApiProvider};
use crate::credential_resolve::{
    ambient_env_probe, at_ambient_env, at_login, bound_env_probe, credential_resolution,
    external_grant, may_ask, CredentialAnswers, CredentialFacts, GrantOf, OAuthFlow, Question,
    World,
};
use crate::credentials::{ProbeOf, ResolutionOf, SourceOf};

verus! {

broadcast use vstd::string::group_string_axioms;

/// A credential was found, and nothing else is reported.
pub open spec fn comes_from(r: ResolutionOf, source: SourceOf) -> bool {
    r.source == source && r.probed.len() == 0
}

/// Whether neither the authentication mode, nor the command line, nor the bound
/// variable settles the credential.
pub open spec fn nothing_explicit(f: CredentialFacts, w: World) -> bool {
    &&& !f.auth_mode_disables_key
    &&& !(f.is_active && !f.uses_oauth && w(Question::CliOverride))
    &&& !(f.bound_env is Some && w(Question::BoundEnv))
}

/// Whether no ambient variable settles it either.
pub open spec fn nothing_in_the_environment(f: CredentialFacts, w: World) -> bool {
    &&& nothing_explicit(f, w)
    &&& f.skips_secret_store || forall|j: usize|
        j < f.env_vars@.len() ==> !#[trigger] w(Question::AmbientEnv { index: j })
}

/// Whether the consented file of another command line tool gives a credential.
pub open spec fn grant_gives(f: CredentialFacts, w: World) -> bool {
    f.consented_path is Some && w(Question::GrantAllowed) && w(Question::GrantUsable)
}

/// Whether no login settles it: the provider has none, the endpoint is the user's
/// own, or there is no login state and no usable consented file. The Kimi sign-in
/// and the Codex login end the search.
pub open spec fn no_login(f: CredentialFacts, w: World) -> bool {
    &&& nothing_in_the_environment(f, w)
    &&& !(f.provider == ApiProvider::Moonshot && f.uses_oauth)
    &&& f.custom_endpoint || {
        &&& f.provider != ApiProvider::OpenaiCodex
        &&& !(f.provider == ApiProvider::Xai && w(Question::OAuth { flow: OAuthFlow::Xai }))
        &&& !((f.provider == ApiProvider::Deepseek || f.provider == ApiProvider::DeepseekAnthropic)
            && grant_gives(f, w))
    }
}

/// Whether the route needs a key.
pub open spec fn needs_a_key(f: CredentialFacts, w: World) -> bool {
    &&& no_login(f, w)
    &&& f.auth_mode_requires_key || !(f.keyless_self_hosted || (f.is_active
        && f.active_route_is_local))
}

/// Whether the provider table has none.
pub open spec fn no_table_key(f: CredentialFacts, w: World) -> bool {
    needs_a_key(f, w) && !(f.bound_to_endpoint && f.table_key_is_literal)
}

/// Whether the secret store gives a key: the active provider's slot does, and
/// that of an inactive one only when it is marked, read-only.
pub open spec fn store_gives(f: CredentialFacts, w: World) -> bool {
    !f.skips_secret_store && if f.is_active {
        w(Question::SecretStore { read_only: false })
    } else {
        f.slot_is_marked && w(Question::SecretStore { read_only: true })
    }
}

/// Whether the secret store has none.
pub open spec fn no_stored_key(f: CredentialFacts, w: World) -> bool {
    no_table_key(f, w) && !store_gives(f, w)
}

/// Whether the root key slot gives a key: only to DeepSeek, its regional variant
/// and the legacy custom route, and only where configured credentials belong to
/// the endpoint.
pub open spec fn root_gives(f: CredentialFacts) -> bool {
    f.bound_to_endpoint && f.root_key_is_literal && (f.provider == ApiProvider::Deepseek
        || f.provider == ApiProvider::DeepseekCN || (f.provider == ApiProvider::Custom
        && f.legacy_custom_route))
}

/// The first ambient variable that is set, or the login step after all of them.
proof fn lemma_ambient(f: CredentialFacts, w: World, probed: Seq<ProbeOf>, from: int, first: usize)
    requires
        0 <= from <= f.env_vars@.len(),
    ensures
        from <= first < f.env_vars@.len() && w(Question::AmbientEnv { index: first }) && (forall|
            j: usize,
        |
            from <= j < first ==> !#[trigger] w(Question::AmbientEnv { index: j })) ==> comes_from(
            at_ambient_env(f, w, probed, from),
            SourceOf::AmbientEnv { var: f.env_vars@[first as int]@ },
        ),
        (forall|j: usize|
            from <= j < f.env_vars@.len() ==> !#[trigger] w(Question::AmbientEnv { index: j }))
            ==> at_ambient_env(f, w, probed, from) == at_login(
            f,
            w,
            if f.env_vars@.len() > 0 {
                probed.push(ambient_env_probe(f.env_vars_label@, f.env_vars@[0]@))
            } else {
                probed
            },
        ),
    decreases f.env_vars@.len() - from,
{
    assert(f.env_vars.len() == f.env_vars@.len());
    if from < f.env_vars@.len() {
        lemma_ambient(f, w, probed, from + 1, first);
        let here: usize = from as usize;
        assert(w(Question::AmbientEnv { index: here }) || !w(Question::AmbientEnv { index: here }));
    }
}

/// What is reported of the places before the login step.
pub open spec fn early_probes(f: CredentialFacts) -> Seq<ProbeOf> {
    (if f.bound_env is Some {
        seq![
            ProbeOf {
                place: "env "@ + (f.bound_env->0)@ + " (bound by api_key_env)"@,
                fix: "export "@ + (f.bound_env->0)@ + "=<key>"@,
            },
        ]
    } else {
        Seq::empty()
    }) + (if !f.skips_secret_store && f.env_vars@.len() > 0 {
        seq![
            ProbeOf {
                place: "env "@ + f.env_vars_label@,
                fix: "export "@ + f.env_vars@[0]@ + "=<key>"@,
            },
        ]
    } else {
        Seq::empty()
    })
}

/// The login step follows the environment.
proof fn lemma_login(f: CredentialFacts, w: World)
    requires
        nothing_in_the_environment(f, w),
    ensures
        credential_resolution(f, w) == at_login(f, w, early_probes(f)),
{
    let none = Seq::<ProbeOf>::empty();
    let probed = match f.bound_env {
        Some(var) => none.push(bound_env_probe(var@)),
        None => none,
    };
    lemma_ambient(f, w, probed, 0, 0);
    if f.skips_secret_store {
        assert(early_probes(f) =~= probed);
    } else if f.env_vars@.len() > 0 {
        assert(early_probes(f) =~= probed.push(
            ambient_env_probe(f.env_vars_label@, f.env_vars@[0]@),
        ));
    } else {
        assert(early_probes(f) =~= probed);
    }
}

/// An authentication mode without a key sends none, whatever any place holds.
pub proof fn a_keyless_mode_comes_first(f: CredentialFacts, w: World)
    requires
        f.auth_mode_disables_key,
    ensures
        comes_from(credential_resolution(f, w), SourceOf::AuthModeNone),
{
}

/// A key on the command line of the active provider comes next, but not where the
/// provider authenticates by OAuth.
pub proof fn the_command_line_comes_second(f: CredentialFacts, w: World)
    requires
        !f.auth_mode_disables_key,
    ensures
        f.is_active && !f.uses_oauth && w(Question::CliOverride) <==> comes_from(
            credential_resolution(f, w),
            SourceOf::CliOverride,
        ),
{
    if !(f.is_active && !f.uses_oauth && w(Question::CliOverride)) {
        lemma_never_again(f, w);
    }
}

/// Past the first two places neither of their sources comes out.
proof fn lemma_never_again(f: CredentialFacts, w: World)
    requires
        !f.auth_mode_disables_key,
        !(f.is_active && !f.uses_oauth && w(Question::CliOverride)),
    ensures
        !(credential_resolution(f, w).source is CliOverride),
        !(credential_resolution(f, w).source is AuthModeNone),
{
    let none = Seq::<ProbeOf>::empty();
    let probed = match f.bound_env {
        Some(var) => none.push(bound_env_probe(var@)),
        None => none,
    };
    lemma_ambient_never(f, w, probed, 0);
}

proof fn lemma_ambient_never(f: CredentialFacts, w: World, probed: Seq<ProbeOf>, i: int)
    ensures
        !(at_ambient_env(f, w, probed, i).source is CliOverride),
        !(at_ambient_env(f, w, probed, i).source is AuthModeNone),
    decreases f.env_vars@.len() - i,
{
    if 0 <= i < f.env_vars@.len() {
        lemma_ambient_never(f, w, probed, i + 1);
    }
}

/// The variable that the provider table names comes next.
pub proof fn the_bound_variable_comes_third(f: CredentialFacts, w: World)
    requires
        !f.auth_mode_disables_key,
        !(f.is_active && !f.uses_oauth && w(Question::CliOverride)),
        f.bound_env is Some,
        w(Question::BoundEnv),
    ensures
        comes_from(
            credential_resolution(f, w),
            SourceOf::ProviderConfigEnv { var: (f.bound_env->0)@ },
        ),
{
}

/// The first ambient variable that is set comes next, before any login, any
/// stored key and any key in a table.
pub proof fn an_ambient_variable_comes_before_what_is_stored(
    f: CredentialFacts,
    w: World,
    i: usize,
)
    requires
        nothing_explicit(f, w),
        !f.skips_secret_store,
        i < f.env_vars@.len(),
        w(Question::AmbientEnv { index: i }),
        forall|j: usize| j < i ==> !#[trigger] w(Question::AmbientEnv { index: j }),
    ensures
        comes_from(
            credential_resolution(f, w),
            SourceOf::AmbientEnv { var: f.env_vars@[i as int]@ },
        ),
{
    let none = Seq::<ProbeOf>::empty();
    let probed = match f.bound_env {
        Some(var) => none.push(bound_env_probe(var@)),
        None => none,
    };
    lemma_ambient(f, w, probed, 0, i);
}

/// Login state of the application's own comes next, on the provider's own
/// endpoint. The Kimi sign-in is never imported and ends the search.
pub proof fn a_login_comes_before_what_is_stored(f: CredentialFacts, w: World)
    requires
        nothing_in_the_environment(f, w),
    ensures
        !f.custom_endpoint && f.provider == ApiProvider::OpenaiCodex && w(
            Question::OAuth { flow: OAuthFlow::Chatgpt },
        ) ==> comes_from(credential_resolution(f, w), SourceOf::OAuth { flow: "ChatGPT"@ }),
        !f.custom_endpoint && f.provider == ApiProvider::Xai && w(
            Question::OAuth { flow: OAuthFlow::Xai },
        ) ==> comes_from(credential_resolution(f, w), SourceOf::OAuth { flow: "xAI"@ }),
        f.provider == ApiProvider::Moonshot && f.uses_oauth ==> credential_resolution(
            f,
            w,
        ).source is Missing && credential_resolution(f, w).probed == early_probes(f).push(
            ProbeOf {
                place: "Kimi CLI credentials (never imported)"@,
                fix: "codewhale auth set --provider moonshot"@,
            },
        ),
{
    lemma_login(f, w);
}

/// A usable consented file comes next: for Codex after its own sign-in, for
/// DeepSeek at once, and for both only on the provider's own endpoint.
pub proof fn a_usable_consented_file_comes_before_what_is_stored(f: CredentialFacts, w: World)
    requires
        nothing_in_the_environment(f, w),
        !f.custom_endpoint,
        grant_gives(f, w),
    ensures
        f.provider == ApiProvider::OpenaiCodex && !w(
            Question::OAuth { flow: OAuthFlow::Chatgpt },
        ) ==> comes_from(
            credential_resolution(f, w),
            SourceOf::ExternalGrant { cli: "Codex CLI"@, path: (f.consented_path->0)@ },
        ),
        f.provider == ApiProvider::Deepseek || f.provider == ApiProvider::DeepseekAnthropic
            ==> comes_from(
            credential_resolution(f, w),
            SourceOf::ExternalGrant { cli: "DeepSeek Harness"@, path: (f.consented_path->0)@ },
        ),
{
    lemma_login(f, w);
}

/// What is reported of an external file that gives nothing: that no consent is
/// recorded, that the consent is dormant, or that the file holds nothing usable.
pub open spec fn refused_probe(
    f: CredentialFacts,
    w: World,
    cli: Seq<char>,
    consent: Seq<char>,
) -> ProbeOf {
    if f.consented_path is None {
        ProbeOf { place: cli + " credentials (no read-only consent recorded)"@, fix: consent }
    } else if !w(Question::GrantAllowed) {
        ProbeOf {
            place: cli + " credentials (consent dormant until this provider is selected)"@,
            fix: "codewhale config set provider "@ + api_id(f.provider),
        }
    } else {
        ProbeOf {
            place: cli + " credentials (consented, but no usable credential in that file)"@,
            fix: "log in again with "@ + cli + ", or run codewhale auth set --provider "@ + api_id(
                f.provider,
            ),
        }
    }
}

/// Without a sign-in and a usable consented file the Codex route has no
/// credential, whatever is stored: the search ends there.
pub proof fn codex_takes_no_stored_key(f: CredentialFacts, w: World)
    requires
        nothing_in_the_environment(f, w),
        f.provider == ApiProvider::OpenaiCodex,
        !f.custom_endpoint,
        !w(Question::OAuth { flow: OAuthFlow::Chatgpt }),
        !grant_gives(f, w),
    ensures
        credential_resolution(f, w).source is Missing,
        credential_resolution(f, w).probed == early_probes(f).push(
            ProbeOf {
                place: "Codewhale-owned ChatGPT sign-in"@,
                fix: "codewhale auth chatgpt"@,
            },
        ).push(
            refused_probe(
                f,
                w,
                "Codex CLI"@,
                "codewhale auth external-consent --provider openai-codex --mode read-only"@,
            ),
        ),
{
    lemma_login(f, w);
}

/// A route that needs no key comes next: it takes none that is stored, unless the
/// authentication mode insists on one.
pub proof fn a_keyless_route_comes_before_stored_keys(f: CredentialFacts, w: World)
    requires
        no_login(f, w),
        !f.auth_mode_requires_key,
        f.keyless_self_hosted || (f.is_active && f.active_route_is_local),
    ensures
        comes_from(
            credential_resolution(f, w),
            SourceOf::KeylessRoute { base_url: f.base_url@ },
        ),
{
    lemma_login(f, w);
}

/// The key in the provider table comes next, where configured credentials belong
/// to the endpoint.
pub proof fn the_table_key_comes_before_the_secret_store(f: CredentialFacts, w: World)
    requires
        needs_a_key(f, w),
        f.bound_to_endpoint,
        f.table_key_is_literal,
    ensures
        comes_from(
            credential_resolution(f, w),
            SourceOf::ProviderConfigApiKey {
                table: match f.config_table {
                    Some(table) => table@,
                    None => "providers."@ + api_id(f.provider),
                },
            },
        ),
{
    lemma_login(f, w);
}

/// The secret store comes next.
pub proof fn the_secret_store_comes_before_the_root_key(f: CredentialFacts, w: World)
    requires
        no_table_key(f, w),
        store_gives(f, w),
    ensures
        comes_from(
            credential_resolution(f, w),
            SourceOf::SecretStore { slot: f.secret_slot@ },
        ),
{
    lemma_login(f, w);
}

/// The root key slot comes next, where it counts.
pub proof fn the_root_key_comes_before_the_user_file(f: CredentialFacts, w: World)
    requires
        no_stored_key(f, w),
        root_gives(f),
    ensures
        comes_from(credential_resolution(f, w), SourceOf::RootConfigApiKey),
{
    lemma_login(f, w);
}

/// The user-global file comes last, and where it has no key either the credential
/// is missing.
pub proof fn the_user_file_comes_last(f: CredentialFacts, w: World)
    requires
        no_stored_key(f, w),
        !root_gives(f),
    ensures
        w(Question::UserGlobalConfig) ==> comes_from(
            credential_resolution(f, w),
            SourceOf::UserGlobalConfig,
        ),
        !w(Question::UserGlobalConfig) ==> credential_resolution(f, w).source is Missing,
{
    lemma_login(f, w);
}

/// What is reported of the places from the login step on.
pub open spec fn late_probes(f: CredentialFacts, w: World) -> Seq<ProbeOf> {
    (if !f.custom_endpoint && (f.provider == ApiProvider::Deepseek || f.provider
        == ApiProvider::DeepseekAnthropic) {
        seq![
            refused_probe(
                f,
                w,
                "DeepSeek Harness"@,
                "codewhale auth external-consent --provider deepseek --mode read-only"@,
            ),
        ]
    } else {
        Seq::empty()
    }) + (if f.bound_to_endpoint && f.config_table is Some {
        seq![
            ProbeOf {
                place: "["@ + (f.config_table->0)@ + "] api_key"@,
                fix: "add api_key to ["@ + (f.config_table->0)@
                    + "] in ~/.codewhale/config.toml"@,
            },
        ]
    } else {
        Seq::empty()
    }) + (if f.skips_secret_store {
        Seq::empty()
    } else if f.is_active || f.slot_is_marked {
        seq![
            ProbeOf {
                place: "secret store \""@ + f.secret_slot@ + "\""@,
                fix: "codewhale auth set --provider "@ + api_id(f.provider),
            },
        ]
    } else {
        seq![
            ProbeOf {
                place: "secret store \""@ + f.secret_slot@
                    + "\" (not read: inactive provider, no api-key marker)"@,
                fix: "codewhale auth set --provider "@ + api_id(f.provider)
                    + " writes the marker that makes this slot readable while inactive"@,
            },
        ]
    })
}

/// A missing credential names every place that was looked at, in the order in
/// which they were, each with what would mend it.
pub proof fn a_missing_credential_names_every_place(f: CredentialFacts, w: World)
    requires
        no_stored_key(f, w),
        !root_gives(f),
        !w(Question::UserGlobalConfig),
    ensures
        credential_resolution(f, w).probed == early_probes(f) + late_probes(f, w) + seq![
            ProbeOf {
                place: "~/.codewhale/config.toml"@,
                fix: "codewhale auth set --provider "@ + api_id(f.provider),
            },
        ],
{
    lemma_login(f, w);
    let want = early_probes(f) + late_probes(f, w) + seq![
        ProbeOf {
            place: "~/.codewhale/config.toml"@,
            fix: "codewhale auth set --provider "@ + api_id(f.provider),
        },
    ];
    let got = credential_resolution(f, w).probed;
    assert(got.len() == want.len());
    assert(got =~= want);
}


/// What may be asked at all: about the command line only on the active provider
/// outside OAuth; about ambient variables only where the secret store is not out
/// of bounds, and only about those that the provider has; about login state only
/// for the provider that owns it, on its own endpoint; about an external file only
/// with a consent on record; and about the secret slot of an inactive provider
/// only read-only, and only when it is marked.
pub proof fn only_open_questions_may_be_asked(f: CredentialFacts, q: Question)
    requires
        may_ask(f, q),
    ensures
        q is CliOverride ==> f.is_active && !f.uses_oauth,
        q is BoundEnv ==> f.bound_env is Some,
        q is AmbientEnv ==> !f.skips_secret_store && q->index < f.env_vars@.len(),
        q is OAuth ==> !f.custom_endpoint && (q->flow == OAuthFlow::Chatgpt && f.provider
            == ApiProvider::OpenaiCodex || q->flow == OAuthFlow::Xai && f.provider
            == ApiProvider::Xai),
        q is GrantAllowed || q is GrantUsable ==> f.consented_path is Some && !f.custom_endpoint && (
        f.provider == ApiProvider::OpenaiCodex || f.provider == ApiProvider::Deepseek || f.provider
            == ApiProvider::DeepseekAnthropic),
        q is SecretStore ==> !f.skips_secret_store && (f.is_active && !q->read_only || !f.is_active
            && q->read_only && f.slot_is_marked),
{
}

/// An external file gives a credential exactly where its path was consented to,
/// the consent allows the read and the file holds one; then the credential is of
/// that path.
pub proof fn a_grant_takes_consent_permission_and_a_credential(
    provider: ApiProvider,
    path: Option<Seq<char>>,
    allowed: bool,
    usable: bool,
)
    ensures
        external_grant(provider, path, allowed, usable) is Granted <==> path is Some && allowed
            && usable,
        path is Some && allowed && usable ==> external_grant(provider, path, allowed, usable)
            == GrantOf::Granted(
            SourceOf::ExternalGrant {
                cli: if provider == ApiProvider::OpenaiCodex {
                    "Codex CLI"@
                } else {
                    "DeepSeek Harness"@
                },
                path: path->0,
            },
        ),
{
}


/// Answers at hand answer each question with what was found at its own place, and
/// a variable that they do not reach is not set.
pub proof fn each_answer_is_of_its_own_place(a: &CredentialAnswers, i: usize)
    ensures
        (a.world())(Question::CliOverride) == a.cli_override,
        (a.world())(Question::BoundEnv) == a.bound_env,
        (a.world())(Question::AmbientEnv { index: i }) == (i < a.ambient_env@.len()
            && a.ambient_env@[i as int]),
        (a.world())(Question::OAuth { flow: OAuthFlow::Chatgpt }) == a.chatgpt_login,
        (a.world())(Question::OAuth { flow: OAuthFlow::Xai }) == a.xai_login,
        (a.world())(Question::GrantAllowed) == a.grant_allowed,
        (a.world())(Question::GrantUsable) == a.grant_usable,
        (a.world())(Question::SecretStore { read_only: true }) == a.secret_store,
        (a.world())(Question::SecretStore { read_only: false }) == a.secret_store,
        (a.world())(Question::UserGlobalConfig) == a.user_global_config,
{
}

} // verus!
