//! The one place provider credential precedence is decided.
//!
//! The first place that holds a credential owns the provider, and there is no
//! silent fallback after a failed refresh. Reading top to bottom:
//!
//! 1. an authentication mode of "none", which sends no credential at all;
//! 2. an explicit key on the command line, on the active provider outside OAuth;
//! 3. the environment variable that the provider table names;
//! 4. an ambient environment variable of the provider;
//! 5. provider-owned login state, or an external CLI file with exact consent;
//! 6. a keyless self-hosted or loopback route;
//! 7. the key in the provider table;
//! 8. the durable secret store;
//! 9. the root key slot;
//! 10. the user-global configuration file.
//!
//! Environment variables (3 and 4) deliberately outrank the stored keys (7 to 10):
//! users depend on an exported variable to win over what was saved earlier.
//!
//! The walk asks one question at a time, and only the questions that precedence
//! leaves open: with no consent recorded no external file is asked about, and
//! the secret slot of an inactive provider without a marker is not read.

use vstd::prelude::*;
use crate::api_provider::{api_id, ApiProvider};
use crate::credentials::{
    enclosed, found_at, joined, missing_after, probes_of, CredentialProbe, CredentialResolution,
    CredentialSource, ProbeOf, ResolutionOf, SourceOf,
};
use crate::provider::optional_text;

verus! {

broadcast use vstd::string::group_string_axioms;

/// What the configuration says of one provider's credentials.
#[derive(Debug)]
pub struct CredentialFacts {
    pub provider: ApiProvider,
    /// Whether this is the provider in use.
    pub is_active: bool,
    /// Whether the authentication mode sends no credential.
    pub auth_mode_disables_key: bool,
    /// Whether the authentication mode insists on a key.
    pub auth_mode_requires_key: bool,
    /// Whether the provider authenticates by OAuth.
    pub uses_oauth: bool,
    /// The environment variable that the provider table names.
    pub bound_env: Option<String>,
    /// Whether ambient variables and the secret store are out of bounds.
    pub skips_secret_store: bool,
    /// The ambient environment variables of the provider.
    pub env_vars: Vec<String>,
    /// The ambient variables as they are shown.
    pub env_vars_label: String,
    /// Whether the route goes to an endpoint of the user's own.
    pub custom_endpoint: bool,
    /// The file that the user consented to have read.
    pub consented_path: Option<String>,
    /// Whether the route is self-hosted and needs no key.
    pub keyless_self_hosted: bool,
    /// Whether the active route is on the local host.
    pub active_route_is_local: bool,
    /// The base URL of the route.
    pub base_url: String,
    /// Whether configured credentials belong to the route's endpoint.
    pub bound_to_endpoint: bool,
    /// Whether the provider table holds a literal key.
    pub table_key_is_literal: bool,
    /// The provider table, where it has a name.
    pub config_table: Option<String>,
    /// The slot of the secret store.
    pub secret_slot: String,
    /// Whether the provider table marks its slot as saved.
    pub slot_is_marked: bool,
    /// Whether a custom provider uses the legacy literal route.
    pub legacy_custom_route: bool,
    /// Whether the root key slot holds a literal key.
    pub root_key_is_literal: bool,
}

/// A login flow that the application owns.
#[derive(Debug, Clone, Copy, PartialEq, Eq, Structural)]
pub enum OAuthFlow {
    Chatgpt,
    Xai,
}

/// A yes-or-no question about the world outside the configuration.
#[derive(Debug, Clone, Copy, PartialEq, Eq, Structural)]
pub enum Question {
    /// Is there an explicit key on the command line?
    CliOverride,
    /// Does the variable that the provider table names hold a key?
    BoundEnv,
    /// Is the ambient variable at this position set?
    AmbientEnv { index: usize },
    /// Is there login state of the application's own?
    OAuth { flow: OAuthFlow },
    /// Does the consent allow reading the consented file now?
    GrantAllowed,
    /// Does the consented file hold a usable credential?
    GrantUsable,
    /// Does the provider's secret slot hold a key?
    SecretStore { read_only: bool },
    /// Does the user-global configuration file hold a key?
    UserGlobalConfig,
}

/// The world outside the configuration: an answer to every question.
pub type World = spec_fn(Question) -> bool;

/// The external CLI whose credential file a provider may read, and the command
/// that records the consent.
pub open spec fn grant_owner(provider: ApiProvider) -> (Seq<char>, Seq<char>) {
    if provider == ApiProvider::OpenaiCodex {
        (
            "Codex CLI"@,
            "codewhale auth external-consent --provider openai-codex --mode read-only"@,
        )
    } else {
        (
            "DeepSeek Harness"@,
            "codewhale auth external-consent --provider deepseek --mode read-only"@,
        )
    }
}

/// What one external CLI credential owner gives: a source, or the probe that
/// says why not.
pub enum GrantOf {
    Granted(SourceOf),
    Refused(ProbeOf),
}

/// The outcome for one external CLI credential owner. Without a consent record
/// nothing is resolved, read or named. A record that does not allow the read yet
/// is dormant. Only a usable credential in the consented file resolves.
pub open spec fn external_grant(
    provider: ApiProvider,
    consented_path: Option<Seq<char>>,
    allowed: bool,
    usable: bool,
) -> GrantOf {
    let cli = grant_owner(provider).0;
    match consented_path {
        None => GrantOf::Refused(
            ProbeOf {
                place: cli + " credentials (no read-only consent recorded)"@,
                fix: grant_owner(provider).1,
            },
        ),
        Some(path) => if !allowed {
            GrantOf::Refused(
                ProbeOf {
                    place: cli
                        + " credentials (consent dormant until this provider is selected)"@,
                    fix: "codewhale config set provider "@ + api_id(provider),
                },
            )
        } else if usable {
            GrantOf::Granted(SourceOf::ExternalGrant { cli, path })
        } else {
            GrantOf::Refused(
                ProbeOf {
                    place: cli
                        + " credentials (consented, but no usable credential in that file)"@,
                    fix: "log in again with "@ + cli + ", or run codewhale auth set --provider "@
                        + api_id(provider),
                },
            )
        },
    }
}

/// The probe of the variable that the provider table names.
pub open spec fn bound_env_probe(var: Seq<char>) -> ProbeOf {
    ProbeOf {
        place: "env "@ + var + " (bound by api_key_env)"@,
        fix: "export "@ + var + "=<key>"@,
    }
}

/// The probe of the ambient variables.
pub open spec fn ambient_env_probe(label: Seq<char>, var: Seq<char>) -> ProbeOf {
    ProbeOf { place: "env "@ + label, fix: "export "@ + var + "=<key>"@ }
}

/// The probe of a secret slot that was read.
pub open spec fn slot_probe(slot: Seq<char>, provider: ApiProvider) -> ProbeOf {
    ProbeOf {
        place: "secret store \""@ + slot + "\""@,
        fix: "codewhale auth set --provider "@ + api_id(provider),
    }
}

/// The probe of a secret slot that was not read.
pub open spec fn unread_slot_probe(slot: Seq<char>, provider: ApiProvider) -> ProbeOf {
    ProbeOf {
        place: "secret store \""@ + slot
            + "\" (not read: inactive provider, no api-key marker)"@,
        fix: "codewhale auth set --provider "@ + api_id(provider)
            + " writes the marker that makes this slot readable while inactive"@,
    }
}

/// The probe of the provider table.
pub open spec fn table_probe(table: Seq<char>) -> ProbeOf {
    ProbeOf {
        place: "["@ + table + "] api_key"@,
        fix: "add api_key to ["@ + table + "] in ~/.codewhale/config.toml"@,
    }
}

/// The probe of the Kimi CLI, whose credentials are never imported.
pub open spec fn kimi_probe() -> ProbeOf {
    ProbeOf {
        place: "Kimi CLI credentials (never imported)"@,
        fix: "codewhale auth set --provider moonshot"@,
    }
}

/// The probe of the ChatGPT sign-in.
pub open spec fn chatgpt_probe() -> ProbeOf {
    ProbeOf { place: "Codewhale-owned ChatGPT sign-in"@, fix: "codewhale auth chatgpt"@ }
}

/// The probe of the user-global configuration file.
pub open spec fn user_global_probe(provider: ApiProvider) -> ProbeOf {
    ProbeOf {
        place: "~/.codewhale/config.toml"@,
        fix: "codewhale auth set --provider "@ + api_id(provider),
    }
}

/// The name of the provider table, also where it has none of its own.
pub open spec fn table_name(f: CredentialFacts) -> Seq<char> {
    match f.config_table {
        Some(table) => table@,
        None => "providers."@ + api_id(f.provider),
    }
}

/// Step 10: the user-global configuration file.
pub open spec fn at_user_global(f: CredentialFacts, w: World, probed: Seq<ProbeOf>) -> ResolutionOf {
    if w(Question::UserGlobalConfig) {
        found_at(SourceOf::UserGlobalConfig)
    } else {
        missing_after(probed.push(user_global_probe(f.provider)))
    }
}

/// Whether the root key slot counts for a provider.
pub open spec fn root_key_counts(f: CredentialFacts) -> bool {
    &&& f.provider == ApiProvider::Deepseek || f.provider == ApiProvider::DeepseekCN || (f.provider
        == ApiProvider::Custom && f.legacy_custom_route)
    &&& f.bound_to_endpoint
    &&& f.root_key_is_literal
}

/// Step 9: the root key slot.
pub open spec fn at_root_key(f: CredentialFacts, w: World, probed: Seq<ProbeOf>) -> ResolutionOf {
    if root_key_counts(f) {
        found_at(SourceOf::RootConfigApiKey)
    } else {
        at_user_global(f, w, probed)
    }
}

/// Step 8: the secret store. The slot of the active provider is read; that of an
/// inactive one only when its table marks it as saved, and then read-only.
pub open spec fn at_secret_store(f: CredentialFacts, w: World, probed: Seq<ProbeOf>) -> ResolutionOf {
    if f.skips_secret_store {
        at_root_key(f, w, probed)
    } else if f.is_active || f.slot_is_marked {
        if w(Question::SecretStore { read_only: !f.is_active }) {
            found_at(SourceOf::SecretStore { slot: f.secret_slot@ })
        } else {
            at_root_key(f, w, probed.push(slot_probe(f.secret_slot@, f.provider)))
        }
    } else {
        at_root_key(f, w, probed.push(unread_slot_probe(f.secret_slot@, f.provider)))
    }
}

/// Step 7: the key in the provider table.
pub open spec fn at_table_key(f: CredentialFacts, w: World, probed: Seq<ProbeOf>) -> ResolutionOf {
    if f.bound_to_endpoint && f.table_key_is_literal {
        found_at(SourceOf::ProviderConfigApiKey { table: table_name(f) })
    } else if f.bound_to_endpoint && f.config_table is Some {
        at_secret_store(f, w, probed.push(table_probe((f.config_table->0)@)))
    } else {
        at_secret_store(f, w, probed)
    }
}

/// Whether the route needs no key.
pub open spec fn route_is_keyless(f: CredentialFacts) -> bool {
    !f.auth_mode_requires_key && (f.keyless_self_hosted || (f.is_active
        && f.active_route_is_local))
}

/// Step 6: a keyless route.
pub open spec fn at_keyless(f: CredentialFacts, w: World, probed: Seq<ProbeOf>) -> ResolutionOf {
    if route_is_keyless(f) {
        found_at(SourceOf::KeylessRoute { base_url: f.base_url@ })
    } else {
        at_table_key(f, w, probed)
    }
}

/// Whether a provider may read the DeepSeek Harness file.
pub open spec fn is_harness_provider(provider: ApiProvider) -> bool {
    provider == ApiProvider::Deepseek || provider == ApiProvider::DeepseekAnthropic
}

/// After an external grant was refused: the Codex route ends there, any other
/// goes on.
pub open spec fn after_refusal(f: CredentialFacts, w: World, probed: Seq<ProbeOf>) -> ResolutionOf {
    if f.provider == ApiProvider::OpenaiCodex {
        missing_after(probed)
    } else {
        at_keyless(f, w, probed)
    }
}

/// The external CLI file.
pub open spec fn at_grant(f: CredentialFacts, w: World, probed: Seq<ProbeOf>) -> ResolutionOf {
    match external_grant(
        f.provider,
        optional_text(f.consented_path),
        w(Question::GrantAllowed),
        w(Question::GrantUsable),
    ) {
        GrantOf::Granted(source) => found_at(source),
        GrantOf::Refused(probe) => after_refusal(f, w, probed.push(probe)),
    }
}

/// Step 5: provider-owned login state.
pub open spec fn at_login(f: CredentialFacts, w: World, probed: Seq<ProbeOf>) -> ResolutionOf {
    if f.provider == ApiProvider::Moonshot && f.uses_oauth {
        missing_after(probed.push(kimi_probe()))
    } else if f.custom_endpoint {
        at_keyless(f, w, probed)
    } else if f.provider == ApiProvider::OpenaiCodex {
        if w(Question::OAuth { flow: OAuthFlow::Chatgpt }) {
            found_at(SourceOf::OAuth { flow: "ChatGPT"@ })
        } else {
            at_grant(f, w, probed.push(chatgpt_probe()))
        }
    } else if f.provider == ApiProvider::Xai {
        if w(Question::OAuth { flow: OAuthFlow::Xai }) {
            found_at(SourceOf::OAuth { flow: "xAI"@ })
        } else {
            at_keyless(f, w, probed)
        }
    } else if is_harness_provider(f.provider) {
        at_grant(f, w, probed)
    } else {
        at_keyless(f, w, probed)
    }
}

/// Step 4, from the variable at position `i` on: the first ambient variable that
/// is set.
pub open spec fn at_ambient_env(f: CredentialFacts, w: World, probed: Seq<ProbeOf>, i: int) -> ResolutionOf
    decreases f.env_vars@.len() - i,
{
    if 0 <= i < f.env_vars@.len() {
        if w(Question::AmbientEnv { index: i as usize }) {
            found_at(SourceOf::AmbientEnv { var: f.env_vars@[i]@ })
        } else {
            at_ambient_env(f, w, probed, i + 1)
        }
    } else if f.env_vars@.len() > 0 {
        at_login(
            f,
            w,
            probed.push(ambient_env_probe(f.env_vars_label@, f.env_vars@[0]@)),
        )
    } else {
        at_login(f, w, probed)
    }
}

/// Step 4: the ambient variables.
pub open spec fn at_ambient(f: CredentialFacts, w: World, probed: Seq<ProbeOf>) -> ResolutionOf {
    if f.skips_secret_store {
        at_login(f, w, probed)
    } else {
        at_ambient_env(f, w, probed, 0)
    }
}

/// Step 3: the variable that the provider table names.
pub open spec fn at_bound_env(f: CredentialFacts, w: World, probed: Seq<ProbeOf>) -> ResolutionOf {
    match f.bound_env {
        Some(var) => if w(Question::BoundEnv) {
            found_at(SourceOf::ProviderConfigEnv { var: var@ })
        } else {
            at_ambient(f, w, probed.push(bound_env_probe(var@)))
        },
        None => at_ambient(f, w, probed),
    }
}

/// Which place holds a credential for a provider.
pub open spec fn credential_resolution(f: CredentialFacts, w: World) -> ResolutionOf {
    if f.auth_mode_disables_key {
        found_at(SourceOf::AuthModeNone)
    } else if f.is_active && !f.uses_oauth && w(Question::CliOverride) {
        found_at(SourceOf::CliOverride)
    } else {
        at_bound_env(f, w, Seq::empty())
    }
}

/// Whether precedence and consent leave a question open for a provider.
pub open spec fn may_ask(f: CredentialFacts, q: Question) -> bool {
    match q {
        Question::CliOverride => f.is_active && !f.uses_oauth,
        Question::BoundEnv => f.bound_env is Some,
        Question::AmbientEnv { index } => !f.skips_secret_store && index < f.env_vars@.len(),
        Question::OAuth { flow } => !f.custom_endpoint && (f.provider == match flow {
            OAuthFlow::Chatgpt => ApiProvider::OpenaiCodex,
            OAuthFlow::Xai => ApiProvider::Xai,
        }),
        Question::GrantAllowed | Question::GrantUsable => f.consented_path is Some
            && !f.custom_endpoint && (f.provider == ApiProvider::OpenaiCodex
            || is_harness_provider(f.provider)),
        Question::SecretStore { read_only } => !f.skips_secret_store && (if f.is_active {
            !read_only
        } else {
            read_only && f.slot_is_marked
        }),
        Question::UserGlobalConfig => true,
    }
}

/// How far a question is from the end of the walk.
pub open spec fn question_rank(f: CredentialFacts, q: Question) -> nat {
    let n = f.env_vars@.len();
    match q {
        Question::CliOverride => n + 8,
        Question::BoundEnv => n + 7,
        Question::AmbientEnv { index } => if index < n {
            (n - index + 5) as nat
        } else {
            5
        },
        Question::OAuth { .. } => 5,
        Question::GrantAllowed => 4,
        Question::GrantUsable => 3,
        Question::SecretStore { .. } => 2,
        Question::UserGlobalConfig => 1,
    }
}

/// Where a walk stands: at a question, or at its end.
#[derive(Debug)]
pub enum WalkState {
    Asking(Question),
    Done(CredentialSource),
}

/// A walk over the places that may hold a provider's credential.
#[derive(Debug)]
pub struct CredentialWalk {
    facts: CredentialFacts,
    probed: Vec<CredentialProbe>,
    state: WalkState,
}

/// What the walk comes to from a question on.
spec fn outcome_of(f: CredentialFacts, w: World, probed: Seq<ProbeOf>, q: Question) -> ResolutionOf {
    match q {
        Question::CliOverride => if w(q) {
            found_at(SourceOf::CliOverride)
        } else {
            at_bound_env(f, w, probed)
        },
        Question::BoundEnv => at_bound_env(f, w, probed),
        Question::AmbientEnv { index } => at_ambient_env(f, w, probed, index as int),
        Question::OAuth { .. } => at_login(f, w, probed),
        Question::GrantAllowed => at_grant(f, w, probed),
        Question::GrantUsable => match external_grant(
            f.provider,
            optional_text(f.consented_path),
            true,
            w(q),
        ) {
            GrantOf::Granted(source) => found_at(source),
            GrantOf::Refused(probe) => after_refusal(f, w, probed.push(probe)),
        },
        Question::SecretStore { .. } => at_secret_store(f, w, probed),
        Question::UserGlobalConfig => at_user_global(f, w, probed),
    }
}

impl CredentialWalk {
    /// The configuration that the walk goes by.
    pub closed spec fn facts(&self) -> CredentialFacts {
        self.facts
    }

    /// The question that the walk stands at.
    pub closed spec fn pending(&self) -> Option<Question> {
        match self.state {
            WalkState::Asking(q) => Some(q),
            WalkState::Done(_) => None,
        }
    }

    /// What the walk comes to in a world.
    pub closed spec fn outcome(&self, w: World) -> ResolutionOf {
        match self.state {
            WalkState::Asking(q) => outcome_of(self.facts, w, probes_of(self.probed@), q),
            WalkState::Done(source) => if source@ is Missing {
                missing_after(probes_of(self.probed@))
            } else {
                found_at(source@)
            },
        }
    }

    /// How many questions can still be asked, at most.
    pub open spec fn questions_left(&self) -> nat {
        match self.pending() {
            Some(q) => question_rank(self.facts(), q),
            None => 0,
        }
    }

    /// The walk stands at a question that precedence and consent leave open, or
    /// at its end.
    pub closed spec fn wf(&self) -> bool {
        match self.state {
            WalkState::Asking(q) => may_ask(self.facts, q),
            WalkState::Done(_) => true,
        }
    }

    /// What the walk may ask about: the question that it stands at, if any, is
    /// one that precedence and consent leave open.
    pub proof fn asks_only_what_it_may(&self)
        requires
            self.wf(),
        ensures
            match self.pending() {
                Some(q) => may_ask(self.facts(), q),
                None => true,
            },
    {
    }

    fn add_probe(&mut self, probe: CredentialProbe)
        ensures
            final(self).facts == old(self).facts,
            final(self).state == old(self).state,
            probes_of(final(self).probed@) == probes_of(old(self).probed@).push(probe@),
    {
        let ghost before = self.probed@;
        self.probed.push(probe);
        assert(probes_of(self.probed@) =~= probes_of(before).push(probe@));
    }

    fn finish(&mut self, source: CredentialSource)
        requires
            !(source@ is Missing),
        ensures
            final(self).facts == old(self).facts,
            final(self).wf(),
            final(self).pending() is None,
            forall|w: World| #[trigger] final(self).outcome(w) == found_at(source@),
    {
        self.state = WalkState::Done(source);
    }

    fn give_up(&mut self)
        ensures
            final(self).facts == old(self).facts,
            final(self).wf(),
            final(self).pending() is None,
            forall|w: World| #[trigger]
                final(self).outcome(w) == missing_after(probes_of(old(self).probed@)),
    {
        self.state = WalkState::Done(CredentialSource::Missing);
    }

    fn ask(&mut self, q: Question)
        requires
            may_ask(old(self).facts, q),
        ensures
            final(self).facts == old(self).facts,
            final(self).wf(),
            final(self).pending() == Some(q),
            forall|w: World| #[trigger]
                final(self).outcome(w) == outcome_of(
                    old(self).facts,
                    w,
                    probes_of(old(self).probed@),
                    q,
                ),
    {
        self.state = WalkState::Asking(q);
    }

    fn go_to_root_key(&mut self)
        ensures
            final(self).facts == old(self).facts,
            final(self).wf(),
            final(self).questions_left() <= 1,
            forall|w: World| #[trigger]
                final(self).outcome(w) == at_root_key(
                    old(self).facts,
                    w,
                    probes_of(old(self).probed@),
                ),
    {
        let provider: ApiProvider = self.facts.provider;
        if (provider == ApiProvider::Deepseek || provider == ApiProvider::DeepseekCN || (provider
            == ApiProvider::Custom && self.facts.legacy_custom_route))
            && self.facts.bound_to_endpoint && self.facts.root_key_is_literal {
            self.finish(CredentialSource::RootConfigApiKey);
        } else {
            self.ask(Question::UserGlobalConfig);
        }
    }

    fn go_to_secret_store(&mut self)
        ensures
            final(self).facts == old(self).facts,
            final(self).wf(),
            final(self).questions_left() <= 2,
            forall|w: World| #[trigger]
                final(self).outcome(w) == at_secret_store(
                    old(self).facts,
                    w,
                    probes_of(old(self).probed@),
                ),
    {
        if self.facts.skips_secret_store {
            self.go_to_root_key();
        } else if self.facts.is_active || self.facts.slot_is_marked {
            let read_only: bool = !self.facts.is_active;
            self.ask(Question::SecretStore { read_only });
        } else {
            let place: String = enclosed(
                "secret store \"",
                self.facts.secret_slot.as_str(),
                "\" (not read: inactive provider, no api-key marker)",
            );
            let fix: String = enclosed(
                "codewhale auth set --provider ",
                self.facts.provider.as_str(),
                " writes the marker that makes this slot readable while inactive",
            );
            self.add_probe(CredentialProbe::with_fix(place, fix));
            self.go_to_root_key();
        }
    }

    fn go_to_table_key(&mut self)
        ensures
            final(self).facts == old(self).facts,
            final(self).wf(),
            final(self).questions_left() <= 2,
            forall|w: World| #[trigger]
                final(self).outcome(w) == at_table_key(
                    old(self).facts,
                    w,
                    probes_of(old(self).probed@),
                ),
    {
        if self.facts.bound_to_endpoint {
            if self.facts.table_key_is_literal {
                let table: String = match &self.facts.config_table {
                    Some(t) => t.clone(),
                    None => joined("providers.", self.facts.provider.as_str()),
                };
                self.finish(CredentialSource::ProviderConfigApiKey { table });
                return;
            }
            let probe: Option<CredentialProbe> = match &self.facts.config_table {
                Some(t) => Some(
                    CredentialProbe::with_fix(
                        enclosed("[", t.as_str(), "] api_key"),
                        enclosed(
                            "add api_key to [",
                            t.as_str(),
                            "] in ~/.codewhale/config.toml",
                        ),
                    ),
                ),
                None => None,
            };
            if let Some(p) = probe {
                self.add_probe(p);
            }
        }
        self.go_to_secret_store();
    }

    fn go_to_keyless(&mut self)
        ensures
            final(self).facts == old(self).facts,
            final(self).wf(),
            final(self).questions_left() <= 2,
            forall|w: World| #[trigger]
                final(self).outcome(w) == at_keyless(
                    old(self).facts,
                    w,
                    probes_of(old(self).probed@),
                ),
    {
        if !self.facts.auth_mode_requires_key && (self.facts.keyless_self_hosted || (
        self.facts.is_active && self.facts.active_route_is_local)) {
            let base_url: String = self.facts.base_url.clone();
            self.finish(CredentialSource::KeylessRoute { base_url });
        } else {
            self.go_to_table_key();
        }
    }

    fn go_past_refusal(&mut self)
        ensures
            final(self).facts == old(self).facts,
            final(self).wf(),
            final(self).questions_left() <= 2,
            forall|w: World| #[trigger]
                final(self).outcome(w) == after_refusal(
                    old(self).facts,
                    w,
                    probes_of(old(self).probed@),
                ),
    {
        if self.facts.provider == ApiProvider::OpenaiCodex {
            self.give_up();
        } else {
            self.go_to_keyless();
        }
    }

    /// Take what is known of the external file: the outcome follows when the
    /// read was refused or its result is known.
    fn take_grant(&mut self, allowed: bool, usable: bool)
        ensures
            final(self).facts == old(self).facts,
            final(self).wf(),
            final(self).questions_left() <= 2,
            forall|w: World| #[trigger]
                final(self).outcome(w) == (match external_grant(
                    old(self).facts.provider,
                    optional_text(old(self).facts.consented_path),
                    allowed,
                    usable,
                ) {
                    GrantOf::Granted(source) => found_at(source),
                    GrantOf::Refused(probe) => after_refusal(
                        old(self).facts,
                        w,
                        probes_of(old(self).probed@).push(probe),
                    ),
                }),
    {
        match resolve_external_grant(
            self.facts.provider,
            &self.facts.consented_path,
            allowed,
            usable,
        ) {
            Ok(source) => self.finish(source),
            Err(probe) => {
                self.add_probe(probe);
                self.go_past_refusal();
            },
        }
    }

    fn go_to_grant(&mut self)
        requires
            !old(self).facts.custom_endpoint,
            old(self).facts.provider == ApiProvider::OpenaiCodex || is_harness_provider(
                old(self).facts.provider,
            ),
        ensures
            final(self).facts == old(self).facts,
            final(self).wf(),
            final(self).questions_left() <= 4,
            final(self).pending() != Some(Question::GrantUsable),
            forall|w: World| #[trigger]
                final(self).outcome(w) == at_grant(
                    old(self).facts,
                    w,
                    probes_of(old(self).probed@),
                ),
    {
        if self.facts.consented_path.is_none() {
            self.take_grant(false, false);
        } else {
            self.ask(Question::GrantAllowed);
        }
    }

    fn go_to_login(&mut self)
        ensures
            final(self).facts == old(self).facts,
            final(self).wf(),
            final(self).questions_left() <= 5,
            final(self).pending() != Some(Question::GrantUsable),
            forall|w: World| #[trigger]
                final(self).outcome(w) == at_login(
                    old(self).facts,
                    w,
                    probes_of(old(self).probed@),
                ),
    {
        let provider: ApiProvider = self.facts.provider;
        if provider == ApiProvider::Moonshot && self.facts.uses_oauth {
            self.add_probe(
                CredentialProbe::with_fix(
                    "Kimi CLI credentials (never imported)".to_owned(),
                    "codewhale auth set --provider moonshot".to_owned(),
                ),
            );
            self.give_up();
        } else if self.facts.custom_endpoint {
            self.go_to_keyless();
        } else if provider == ApiProvider::OpenaiCodex {
            self.ask(Question::OAuth { flow: OAuthFlow::Chatgpt });
        } else if provider == ApiProvider::Xai {
            self.ask(Question::OAuth { flow: OAuthFlow::Xai });
        } else if provider == ApiProvider::Deepseek || provider
            == ApiProvider::DeepseekAnthropic {
            self.go_to_grant();
        } else {
            self.go_to_keyless();
        }
    }

    fn go_to_ambient_env(&mut self, i: usize)
        requires
            !old(self).facts.skips_secret_store,
            i <= old(self).facts.env_vars@.len(),
        ensures
            final(self).facts == old(self).facts,
            final(self).wf(),
            final(self).questions_left() <= old(self).facts.env_vars@.len() - i + 5,
            final(self).pending() != Some(Question::GrantUsable),
            forall|w: World| #[trigger]
                final(self).outcome(w) == at_ambient_env(
                    old(self).facts,
                    w,
                    probes_of(old(self).probed@),
                    i as int,
                ),
    {
        if i < self.facts.env_vars.len() {
            self.ask(Question::AmbientEnv { index: i });
        } else {
            if self.facts.env_vars.len() > 0 {
                let place: String = joined("env ", self.facts.env_vars_label.as_str());
                let fix: String = enclosed("export ", self.facts.env_vars[0].as_str(), "=<key>");
                self.add_probe(CredentialProbe::with_fix(place, fix));
            }
            self.go_to_login();
        }
    }

    fn go_to_ambient(&mut self)
        ensures
            final(self).facts == old(self).facts,
            final(self).wf(),
            final(self).questions_left() <= old(self).facts.env_vars@.len() + 5,
            final(self).pending() != Some(Question::GrantUsable),
            forall|w: World| #[trigger]
                final(self).outcome(w) == at_ambient(
                    old(self).facts,
                    w,
                    probes_of(old(self).probed@),
                ),
    {
        if self.facts.skips_secret_store {
            self.go_to_login();
        } else {
            self.go_to_ambient_env(0);
        }
    }

    fn go_to_bound_env(&mut self)
        ensures
            final(self).facts == old(self).facts,
            final(self).wf(),
            final(self).questions_left() <= old(self).facts.env_vars@.len() + 7,
            final(self).pending() != Some(Question::GrantUsable),
            forall|w: World| #[trigger]
                final(self).outcome(w) == at_bound_env(
                    old(self).facts,
                    w,
                    probes_of(old(self).probed@),
                ),
    {
        if self.facts.bound_env.is_some() {
            self.ask(Question::BoundEnv);
        } else {
            self.go_to_ambient();
        }
    }

    /// Start a walk.
    #[must_use]
    pub fn start(facts: CredentialFacts) -> (r: CredentialWalk)
        ensures
            r.wf(),
            r.facts() == facts,
            forall|w: World| #[trigger] r.outcome(w) == credential_resolution(facts, w),
    {
        let disables: bool = facts.auth_mode_disables_key;
        let cli: bool = facts.is_active && !facts.uses_oauth;
        let mut walk = CredentialWalk {
            facts,
            probed: Vec::new(),
            state: WalkState::Done(CredentialSource::Missing),
        };
        assert(probes_of(walk.probed@) =~= Seq::<ProbeOf>::empty());
        if disables {
            walk.finish(CredentialSource::AuthModeNone);
        } else if cli {
            walk.ask(Question::CliOverride);
        } else {
            walk.go_to_bound_env();
        }
        walk
    }

    /// The question that the walk stands at, or nothing when it is at its end.
    #[must_use]
    pub fn question(&self) -> (r: Option<Question>)
        ensures
            r == self.pending(),
    {
        match self.state {
            WalkState::Asking(q) => Some(q),
            WalkState::Done(_) => None,
        }
    }

    /// Answer the question that the walk stands at. What the walk comes to in
    /// any world with that answer stays the same, and the end comes nearer.
    pub fn answer(&mut self, yes: bool)
        requires
            old(self).wf(),
            old(self).pending() is Some,
        ensures
            final(self).wf(),
            final(self).facts() == old(self).facts(),
            final(self).questions_left() < old(self).questions_left(),
            forall|w: World| #[trigger]
                final(self).outcome(w) == old(self).outcome(w) || w(old(self).pending()->0)
                    != yes,
            final(self).pending() == Some(Question::GrantUsable) ==> old(self).pending() == Some(
                Question::GrantAllowed,
            ) && yes,
    {
        let q: Question = match self.state {
            WalkState::Asking(q) => q,
            WalkState::Done(_) => {
                return;
            },
        };
        match q {
            Question::CliOverride => {
                if yes {
                    self.finish(CredentialSource::CliOverride);
                } else {
                    self.go_to_bound_env();
                }
            },
            Question::BoundEnv => {
                let var: String = match &self.facts.bound_env {
                    Some(v) => v.clone(),
                    None => String::new(),
                };
                if yes {
                    self.finish(CredentialSource::ProviderConfigEnv { var });
                } else {
                    let place: String = enclosed("env ", var.as_str(), " (bound by api_key_env)");
                    let fix: String = enclosed("export ", var.as_str(), "=<key>");
                    self.add_probe(CredentialProbe::with_fix(place, fix));
                    self.go_to_ambient();
                }
            },
            Question::AmbientEnv { index } => {
                if yes {
                    let var: String = self.facts.env_vars[index].clone();
                    self.finish(CredentialSource::AmbientEnv { var });
                } else {
                    assert(index < self.facts.env_vars.len());
                    self.go_to_ambient_env(index + 1);
                }
            },
            Question::OAuth { flow } => {
                match flow {
                    OAuthFlow::Chatgpt => {
                        if yes {
                            self.finish(CredentialSource::OAuth { flow: "ChatGPT".to_owned() });
                        } else {
                            self.add_probe(
                                CredentialProbe::with_fix(
                                    "Codewhale-owned ChatGPT sign-in".to_owned(),
                                    "codewhale auth chatgpt".to_owned(),
                                ),
                            );
                            self.go_to_grant();
                        }
                    },
                    OAuthFlow::Xai => {
                        if yes {
                            self.finish(CredentialSource::OAuth { flow: "xAI".to_owned() });
                        } else {
                            self.go_to_keyless();
                        }
                    },
                }
            },
            Question::GrantAllowed => {
                if yes {
                    self.ask(Question::GrantUsable);
                } else {
                    self.take_grant(false, false);
                }
            },
            Question::GrantUsable => {
                self.take_grant(true, yes);
            },
            Question::SecretStore { read_only: _ } => {
                if yes {
                    let slot: String = self.facts.secret_slot.clone();
                    self.finish(CredentialSource::SecretStore { slot });
                } else {
                    let probe: CredentialProbe = secret_store_probe(
                        self.facts.secret_slot.as_str(),
                        self.facts.provider,
                    );
                    self.add_probe(probe);
                    self.go_to_root_key();
                }
            },
            Question::UserGlobalConfig => {
                if yes {
                    self.finish(CredentialSource::UserGlobalConfig);
                } else {
                    let fix: String = joined(
                        "codewhale auth set --provider ",
                        self.facts.provider.as_str(),
                    );
                    self.add_probe(
                        CredentialProbe::with_fix("~/.codewhale/config.toml".to_owned(), fix),
                    );
                    self.give_up();
                }
            },
        }
    }

    /// What a walk at its end came to.
    #[must_use]
    pub fn into_resolution(self) -> (r: CredentialResolution)
        requires
            self.pending() is None,
        ensures
            forall|w: World| #[trigger] self.outcome(w) == r@,
    {
        match self.state {
            WalkState::Done(CredentialSource::Missing) => CredentialResolution::missing(
                self.probed,
            ),
            WalkState::Done(source) => CredentialResolution::found(source),
            WalkState::Asking(_) => CredentialResolution::missing(self.probed),
        }
    }
}

/// The probe of a secret slot that was read.
fn secret_store_probe(slot: &str, provider: ApiProvider) -> (r: CredentialProbe)
    ensures
        r@ == slot_probe(slot@, provider),
{
    CredentialProbe::with_fix(
        enclosed("secret store \"", slot, "\""),
        joined("codewhale auth set --provider ", provider.as_str()),
    )
}

/// Resolve one external CLI credential owner for a provider.
///
/// Without a consent record nothing is resolved, read or named. With one, the
/// read may be refused until the provider is selected. Structural consent alone
/// never resolves as found: the consented file has to hold a usable credential.
pub fn resolve_external_grant(
    provider: ApiProvider,
    consented_path: &Option<String>,
    allowed: bool,
    usable: bool,
) -> (r: Result<CredentialSource, CredentialProbe>)
    ensures
        match external_grant(provider, optional_text(*consented_path), allowed, usable) {
            GrantOf::Granted(source) => r is Ok && (r->Ok_0)@ == source,
            GrantOf::Refused(probe) => r is Err && (r->Err_0)@ == probe,
        },
{
    let (cli, command): (&str, &str) = if provider == ApiProvider::OpenaiCodex {
        (
            "Codex CLI",
            "codewhale auth external-consent --provider openai-codex --mode read-only",
        )
    } else {
        (
            "DeepSeek Harness",
            "codewhale auth external-consent --provider deepseek --mode read-only",
        )
    };
    let path: String = match consented_path {
        Some(p) => p.clone(),
        None => {
            return Err(
                CredentialProbe::with_fix(
                    joined(cli, " credentials (no read-only consent recorded)"),
                    command.to_owned(),
                ),
            );
        },
    };
    if !allowed {
        return Err(
            CredentialProbe::with_fix(
                joined(
                    cli,
                    " credentials (consent dormant until this provider is selected)",
                ),
                joined("codewhale config set provider ", provider.as_str()),
            ),
        );
    }
    if usable {
        return Ok(CredentialSource::ExternalGrant { cli: cli.to_owned(), path });
    }
    let mut fix: String = enclosed(
        "log in again with ",
        cli,
        ", or run codewhale auth set --provider ",
    );
    fix.append(provider.as_str());
    Err(
        CredentialProbe::with_fix(
            joined(cli, " credentials (consented, but no usable credential in that file)"),
            fix,
        ),
    )
}

/// Answers that are already at hand.
#[derive(Debug)]
pub struct CredentialAnswers {
    pub cli_override: bool,
    pub bound_env: bool,
    /// Whether each ambient variable is set, by position.
    pub ambient_env: Vec<bool>,
    pub chatgpt_login: bool,
    pub xai_login: bool,
    pub grant_allowed: bool,
    pub grant_usable: bool,
    pub secret_store: bool,
    pub user_global_config: bool,
}

impl CredentialAnswers {
    /// The world in which these are the answers.
    pub open spec fn world(&self) -> World {
        |q: Question| self.says(q)
    }

    /// The answer to a question.
    pub open spec fn says(&self, q: Question) -> bool {
        match q {
            Question::CliOverride => self.cli_override,
            Question::BoundEnv => self.bound_env,
            Question::AmbientEnv { index } => index < self.ambient_env@.len()
                && self.ambient_env@[index as int],
            Question::OAuth { flow } => match flow {
                OAuthFlow::Chatgpt => self.chatgpt_login,
                OAuthFlow::Xai => self.xai_login,
            },
            Question::GrantAllowed => self.grant_allowed,
            Question::GrantUsable => self.grant_usable,
            Question::SecretStore { .. } => self.secret_store,
            Question::UserGlobalConfig => self.user_global_config,
        }
    }

    /// The answer to a question.
    #[must_use]
    pub fn answer(&self, q: Question) -> (r: bool)
        ensures
            r == self.says(q),
    {
        match q {
            Question::CliOverride => self.cli_override,
            Question::BoundEnv => self.bound_env,
            Question::AmbientEnv { index } => index < self.ambient_env.len()
                && self.ambient_env[index],
            Question::OAuth { flow } => match flow {
                OAuthFlow::Chatgpt => self.chatgpt_login,
                OAuthFlow::Xai => self.xai_login,
            },
            Question::GrantAllowed => self.grant_allowed,
            Question::GrantUsable => self.grant_usable,
            Question::SecretStore { read_only: _ } => self.secret_store,
            Question::UserGlobalConfig => self.user_global_config,
        }
    }
}

/// Resolve which place holds a credential, from answers that are at hand.
#[must_use]
pub fn resolve_credential_source_with(
    facts: CredentialFacts,
    answers: &CredentialAnswers,
) -> (r: CredentialResolution)
    ensures
        r@ == credential_resolution(facts, answers.world()),
{
    let ghost w = answers.world();
    let ghost given = facts;
    let mut walk: CredentialWalk = CredentialWalk::start(facts);
    assert(walk.outcome(w) == credential_resolution(given, w));
    loop
        invariant
            walk.wf(),
            w == answers.world(),
            walk.outcome(w) == credential_resolution(given, w),
        ensures
            walk.pending() is None,
        decreases walk.questions_left(),
    {
        let q: Question = match walk.question() {
            Some(q) => q,
            None => {
                break;
            },
        };
        let yes: bool = answers.answer(q);
        let ghost before = walk;
        walk.answer(yes);
        assert(w(q) == yes);
        assert(walk.outcome(w) == before.outcome(w));
    }
    let ghost end = walk.outcome(w);
    walk.into_resolution()
}

/// Whether some place holds a credential, from answers that are at hand.
#[must_use]
pub fn has_api_key_for(facts: CredentialFacts, answers: &CredentialAnswers) -> (r: bool)
    ensures
        r == !(credential_resolution(facts, answers.world()).source is Missing),
{
    resolve_credential_source_with(facts, answers).is_present()
}

proof fn lemma_tail_agrees(f: CredentialFacts, v: World, w: World, probed: Seq<ProbeOf>)
    requires
        forall|q: Question| may_ask(f, q) ==> #[trigger] v(q) == w(q),
    ensures
        at_keyless(f, v, probed) == at_keyless(f, w, probed),
        after_refusal(f, v, probed) == after_refusal(f, w, probed),
{
    assert(may_ask(f, Question::UserGlobalConfig));
    assert(v(Question::UserGlobalConfig) == w(Question::UserGlobalConfig));
    if !f.skips_secret_store && (f.is_active || f.slot_is_marked) {
        let q = Question::SecretStore { read_only: !f.is_active };
        assert(may_ask(f, q));
        assert(v(q) == w(q));
    }
}

proof fn lemma_login_agrees(f: CredentialFacts, v: World, w: World, probed: Seq<ProbeOf>)
    requires
        forall|q: Question| may_ask(f, q) ==> #[trigger] v(q) == w(q),
    ensures
        at_login(f, v, probed) == at_login(f, w, probed),
{
    lemma_tail_agrees(f, v, w, probed);
    let chatgpt = Question::OAuth { flow: OAuthFlow::Chatgpt };
    let xai = Question::OAuth { flow: OAuthFlow::Xai };
    assert(may_ask(f, chatgpt) ==> v(chatgpt) == w(chatgpt));
    assert(may_ask(f, xai) ==> v(xai) == w(xai));
    assert(may_ask(f, Question::GrantAllowed) ==> v(Question::GrantAllowed) == w(
        Question::GrantAllowed,
    ));
    assert(may_ask(f, Question::GrantUsable) ==> v(Question::GrantUsable) == w(
        Question::GrantUsable,
    ));
    let path = optional_text(f.consented_path);
    let before = if f.provider == ApiProvider::OpenaiCodex {
        probed.push(chatgpt_probe())
    } else {
        probed
    };
    if let GrantOf::Refused(probe) = external_grant(
        f.provider,
        path,
        v(Question::GrantAllowed),
        v(Question::GrantUsable),
    ) {
        lemma_tail_agrees(f, v, w, before.push(probe));
    }
}

proof fn lemma_ambient_agrees(
    f: CredentialFacts,
    v: World,
    w: World,
    probed: Seq<ProbeOf>,
    i: int,
)
    requires
        0 <= i,
        !f.skips_secret_store,
        forall|q: Question| may_ask(f, q) ==> #[trigger] v(q) == w(q),
    ensures
        at_ambient_env(f, v, probed, i) == at_ambient_env(f, w, probed, i),
    decreases f.env_vars@.len() - i,
{
    if i < f.env_vars@.len() {
        let q = Question::AmbientEnv { index: i as usize };
        assert(f.env_vars@.len() <= usize::MAX) by {
            lemma_vec_len(f.env_vars);
        }
        assert(may_ask(f, q));
        assert(v(q) == w(q));
        lemma_ambient_agrees(f, v, w, probed, i + 1);
    } else {
        lemma_login_agrees(f, v, w, probed);
        lemma_login_agrees(
            f,
            v,
            w,
            probed.push(ambient_env_probe(f.env_vars_label@, f.env_vars@[0]@)),
        );
    }
}

proof fn lemma_vec_len(v: Vec<String>)
    ensures
        v@.len() <= usize::MAX,
{
    assert(v.len() == v@.len());
}

/// The resolution depends only on what may be asked. Without a consent record no
/// answer about the external file matters; the secret slot of an inactive
/// provider without a marker does not matter; and so for every other question
/// that precedence leaves closed.
pub proof fn resolution_depends_only_on_permitted_questions(
    f: CredentialFacts,
    v: World,
    w: World,
)
    requires
        forall|q: Question| may_ask(f, q) ==> #[trigger] v(q) == w(q),
    ensures
        credential_resolution(f, v) == credential_resolution(f, w),
{
    assert(may_ask(f, Question::CliOverride) ==> v(Question::CliOverride) == w(
        Question::CliOverride,
    ));
    assert(may_ask(f, Question::BoundEnv) ==> v(Question::BoundEnv) == w(Question::BoundEnv));
    let none = Seq::<ProbeOf>::empty();
    let probed = match f.bound_env {
        Some(var) => none.push(bound_env_probe(var@)),
        None => none,
    };
    if f.skips_secret_store {
        lemma_login_agrees(f, v, w, probed);
    } else {
        lemma_ambient_agrees(f, v, w, probed, 0);
    }
}

spec fn names_a_place(r: ResolutionOf) -> bool {
    if r.source is Missing {
        r.probed.len() > 0
    } else {
        r.probed.len() == 0
    }
}

proof fn lemma_login_names(f: CredentialFacts, w: World, probed: Seq<ProbeOf>)
    ensures
        names_a_place(at_login(f, w, probed)),
{
}

proof fn lemma_ambient_names(f: CredentialFacts, w: World, probed: Seq<ProbeOf>, i: int)
    ensures
        names_a_place(at_ambient_env(f, w, probed, i)),
    decreases f.env_vars@.len() - i,
{
    if 0 <= i < f.env_vars@.len() {
        if !w(Question::AmbientEnv { index: i as usize }) {
            lemma_ambient_names(f, w, probed, i + 1);
        }
    } else {
        lemma_login_names(f, w, probed);
        lemma_login_names(
            f,
            w,
            probed.push(ambient_env_probe(f.env_vars_label@, f.env_vars@[0]@)),
        );
    }
}

/// A missing credential always names a place that was checked; a credential that
/// was found names its source and nothing else.
pub proof fn a_missing_credential_names_a_place(f: CredentialFacts, w: World)
    ensures
        credential_resolution(f, w).source is Missing ==> credential_resolution(f, w).probed.len()
            > 0,
        !(credential_resolution(f, w).source is Missing) ==> credential_resolution(
            f,
            w,
        ).probed.len() == 0,
{
    let none = Seq::<ProbeOf>::empty();
    let probed = match f.bound_env {
        Some(var) => none.push(bound_env_probe(var@)),
        None => none,
    };
    if f.skips_secret_store {
        lemma_login_names(f, w, probed);
    } else {
        lemma_ambient_names(f, w, probed, 0);
    }
}

proof fn lemma_ambient_grant(f: CredentialFacts, w: World, probed: Seq<ProbeOf>, i: int)
    ensures
        at_ambient_env(f, w, probed, i).source is ExternalGrant ==> f.consented_path is Some && w(
            Question::GrantAllowed,
        ) && w(Question::GrantUsable),
    decreases f.env_vars@.len() - i,
{
    if 0 <= i < f.env_vars@.len() && !w(Question::AmbientEnv { index: i as usize }) {
        lemma_ambient_grant(f, w, probed, i + 1);
    }
}

/// A consent record is not a credential: an external file resolves only when its
/// exact path was consented to, the consent allows the read, and the file holds
/// a usable credential.
pub proof fn consent_alone_is_not_a_credential(f: CredentialFacts, w: World)
    ensures
        credential_resolution(f, w).source is ExternalGrant ==> f.consented_path is Some && w(
            Question::GrantAllowed,
        ) && w(Question::GrantUsable),
{
    let none = Seq::<ProbeOf>::empty();
    let probed = match f.bound_env {
        Some(var) => none.push(bound_env_probe(var@)),
        None => none,
    };
    lemma_ambient_grant(f, w, probed, 0);
}

/// An explicit key on the command line comes before every other place on the
/// active provider, and a variable that the provider table names comes before
/// every place after it.
pub proof fn explicit_keys_come_first(f: CredentialFacts, w: World)
    requires
        !f.auth_mode_disables_key,
    ensures
        f.is_active && !f.uses_oauth && w(Question::CliOverride) ==> credential_resolution(
            f,
            w,
        ).source is CliOverride,
        !(f.is_active && !f.uses_oauth && w(Question::CliOverride)) && f.bound_env is Some && w(
            Question::BoundEnv,
        ) ==> credential_resolution(f, w).source == (SourceOf::ProviderConfigEnv {
            var: (f.bound_env->0)@,
        }),
{
}

} // verus!
