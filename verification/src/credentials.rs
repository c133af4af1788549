//! Where a provider credential was found, or which places were checked for one.
//!
//! Nothing here holds secret material: a source names a place, never a value.

use vstd::prelude::*;
use crate::provider::optional_text;

verus! {

broadcast use vstd::string::group_string_axioms;

/// The place that a credential resolved from.
#[derive(Debug)]
pub enum CredentialSource {
    /// The route sends no credential at all.
    AuthModeNone,
    /// An explicit key on the command line.
    CliOverride,
    /// The environment variable that the provider table names.
    ProviderConfigEnv { var: String },
    /// An ambient environment variable of the provider.
    AmbientEnv { var: String },
    /// Provider-owned login state.
    OAuth { flow: String },
    /// The credential file of another CLI, read with consent.
    ExternalGrant { cli: String, path: String },
    /// A self-hosted or loopback route that needs no key.
    KeylessRoute { base_url: String },
    /// The key in the provider table of the configuration.
    ProviderConfigApiKey { table: String },
    /// The durable secret store.
    SecretStore { slot: String },
    /// The root key slot of the configuration.
    RootConfigApiKey,
    /// The user-global configuration file.
    UserGlobalConfig,
    /// No place holds a credential.
    Missing,
}

/// The mathematical view of a [`CredentialSource`].
#[verifier::ext_equal]
pub enum SourceOf {
    AuthModeNone,
    CliOverride,
    ProviderConfigEnv { var: Seq<char> },
    AmbientEnv { var: Seq<char> },
    OAuth { flow: Seq<char> },
    ExternalGrant { cli: Seq<char>, path: Seq<char> },
    KeylessRoute { base_url: Seq<char> },
    ProviderConfigApiKey { table: Seq<char> },
    SecretStore { slot: Seq<char> },
    RootConfigApiKey,
    UserGlobalConfig,
    Missing,
}

impl View for CredentialSource {
    type V = SourceOf;

    open spec fn view(&self) -> SourceOf {
        match *self {
            CredentialSource::AuthModeNone => SourceOf::AuthModeNone,
            CredentialSource::CliOverride => SourceOf::CliOverride,
            CredentialSource::ProviderConfigEnv { var } => SourceOf::ProviderConfigEnv {
                var: var@,
            },
            CredentialSource::AmbientEnv { var } => SourceOf::AmbientEnv { var: var@ },
            CredentialSource::OAuth { flow } => SourceOf::OAuth { flow: flow@ },
            CredentialSource::ExternalGrant { cli, path } => SourceOf::ExternalGrant {
                cli: cli@,
                path: path@,
            },
            CredentialSource::KeylessRoute { base_url } => SourceOf::KeylessRoute {
                base_url: base_url@,
            },
            CredentialSource::ProviderConfigApiKey { table } => SourceOf::ProviderConfigApiKey {
                table: table@,
            },
            CredentialSource::SecretStore { slot } => SourceOf::SecretStore { slot: slot@ },
            CredentialSource::RootConfigApiKey => SourceOf::RootConfigApiKey,
            CredentialSource::UserGlobalConfig => SourceOf::UserGlobalConfig,
            CredentialSource::Missing => SourceOf::Missing,
        }
    }
}

/// The label of a source that is an environment variable: the variable, and how
/// it came to be read.
pub open spec fn variable_label(source: SourceOf) -> Option<Seq<char>> {
    match source {
        SourceOf::ProviderConfigEnv { var } => Some("api_key_env "@ + var),
        SourceOf::AmbientEnv { var } => Some(var),
        _ => None,
    }
}

impl CredentialSource {
    /// The label of a source that is an environment variable.
    #[must_use]
    pub fn label(&self) -> (r: Option<String>)
        ensures
            optional_text(r) == variable_label(self@),
    {
        match self {
            CredentialSource::ProviderConfigEnv { var } => Some(
                joined("api_key_env ", var.as_str()),
            ),
            CredentialSource::AmbientEnv { var } => Some(var.clone()),
            _ => None,
        }
    }
}

/// Two texts after one another.
pub fn joined(a: &str, b: &str) -> (r: String)
    ensures
        r@ == a@ + b@,
{
    let mut out: String = a.to_owned();
    out.append(b);
    out
}

/// A text between two others.
pub fn enclosed(a: &str, b: &str, c: &str) -> (r: String)
    ensures
        r@ == a@ + b@ + c@,
{
    let mut out: String = joined(a, b);
    out.append(c);
    out
}

/// One place that was checked, and what to do for a credential to be there.
#[derive(Debug)]
pub struct CredentialProbe {
    pub place: String,
    pub fix: String,
}

/// The mathematical view of a [`CredentialProbe`].
#[verifier::ext_equal]
pub struct ProbeOf {
    pub place: Seq<char>,
    pub fix: Seq<char>,
}

impl View for CredentialProbe {
    type V = ProbeOf;

    open spec fn view(&self) -> ProbeOf {
        ProbeOf { place: self.place@, fix: self.fix@ }
    }
}

impl CredentialProbe {
    /// A checked place with its fix.
    #[must_use]
    pub fn with_fix(place: String, fix: String) -> (r: CredentialProbe)
        ensures
            r@ == (ProbeOf { place: place@, fix: fix@ }),
    {
        CredentialProbe { place, fix }
    }
}

/// The views of a list of probes.
pub open spec fn probes_of(list: Seq<CredentialProbe>) -> Seq<ProbeOf> {
    list.map_values(|p: CredentialProbe| p@)
}

/// Where a credential was found, or every place that was checked, in order.
#[derive(Debug)]
pub struct CredentialResolution {
    pub source: CredentialSource,
    pub probed: Vec<CredentialProbe>,
}

/// The mathematical view of a [`CredentialResolution`].
#[verifier::ext_equal]
pub struct ResolutionOf {
    pub source: SourceOf,
    pub probed: Seq<ProbeOf>,
}

impl View for CredentialResolution {
    type V = ResolutionOf;

    open spec fn view(&self) -> ResolutionOf {
        ResolutionOf { source: self.source@, probed: probes_of(self.probed@) }
    }
}

/// The resolution to a place that holds a credential.
pub open spec fn found_at(source: SourceOf) -> ResolutionOf {
    ResolutionOf { source, probed: Seq::empty() }
}

/// The resolution that no checked place holds a credential.
pub open spec fn missing_after(probed: Seq<ProbeOf>) -> ResolutionOf {
    ResolutionOf { source: SourceOf::Missing, probed }
}

/// The places of a list of probes, separated by commas.
pub open spec fn place_list(probed: Seq<ProbeOf>) -> Seq<char>
    decreases probed.len(),
{
    if probed.len() == 0 {
        Seq::empty()
    } else if probed.len() == 1 {
        probed[0].place
    } else {
        place_list(probed.drop_last()) + ", "@ + probed.last().place
    }
}

impl CredentialResolution {
    /// A credential was found.
    #[must_use]
    pub fn found(source: CredentialSource) -> (r: CredentialResolution)
        ensures
            r@ == found_at(source@),
    {
        let r = CredentialResolution { source, probed: Vec::new() };
        assert(r@.probed =~= Seq::<ProbeOf>::empty());
        r
    }

    /// No checked place holds a credential.
    #[must_use]
    pub fn missing(probed: Vec<CredentialProbe>) -> (r: CredentialResolution)
        ensures
            r@ == missing_after(probes_of(probed@)),
    {
        CredentialResolution { source: CredentialSource::Missing, probed }
    }

    /// Whether some place holds a credential.
    #[must_use]
    pub fn is_present(&self) -> (r: bool)
        ensures
            r == !(self@.source is Missing),
    {
        match self.source {
            CredentialSource::Missing => false,
            _ => true,
        }
    }

    /// The places that were checked, separated by commas.
    #[must_use]
    pub fn checked_places(&self) -> (r: String)
        ensures
            r@ == place_list(self@.probed),
    {
        let ghost all = self@.probed;
        let mut out: String = String::new();
        let mut i: usize = 0;
        assert(all.take(0) =~= Seq::<ProbeOf>::empty());
        assert(out@ =~= Seq::<char>::empty());
        while i < self.probed.len()
            invariant
                i <= self.probed.len(),
                all == self@.probed,
                out@ == place_list(all.take(i as int)),
            decreases self.probed.len() - i,
        {
            let place: &str = self.probed[i].place.as_str();
            proof {
                assert(all.take(i + 1).drop_last() =~= all.take(i as int));
                assert(all.take(i + 1).last() == self.probed@[i as int]@);
                assert(all.take(i + 1)[0] == all[0]);
            }
            if i == 0 {
                out.append(place);
                assert(out@ =~= place@);
            } else {
                out.append(", ");
                out.append(place);
            }
            i += 1;
        }
        assert(all.take(i as int) =~= all);
        out
    }

    /// What to do about the first place that was checked.
    #[must_use]
    pub fn first_fix(&self) -> (r: Option<&str>)
        ensures
            match r {
                Some(fix) => self@.probed.len() > 0 && self@.probed[0].fix == fix@,
                None => self@.probed.len() == 0,
            },
    {
        if self.probed.len() == 0 {
            None
        } else {
            Some(self.probed[0].fix.as_str())
        }
    }
}


/// The places are listed in order with a comma and a space between two of them.
pub proof fn places_are_listed_in_order(a: Seq<ProbeOf>, b: Seq<ProbeOf>, p: ProbeOf)
    ensures
        place_list(Seq::empty()) == Seq::<char>::empty(),
        place_list(seq![p]) == p.place,
        a.len() > 0 && b.len() > 0 ==> place_list(a + b) == place_list(a) + ", "@ + place_list(b),
    decreases b.len(),
{
    if a.len() > 0 && b.len() > 0 {
        assert((a + b).drop_last() =~= a + b.drop_last());
        assert((a + b).last() == b.last());
        if b.len() == 1 {
            assert(a + b.drop_last() =~= a);
        } else {
            places_are_listed_in_order(a, b.drop_last(), p);
            assert(place_list(a + b) =~= place_list(a) + ", "@ + place_list(b));
        }
    }
}

/// A source is labelled by its variable exactly where it is one: as it is named
/// where it is ambient, and with the setting that binds it where it is bound.
pub proof fn a_variable_is_labelled_by_its_name(source: SourceOf)
    ensures
        source is AmbientEnv ==> variable_label(source) == Some(source->AmbientEnv_var),
        source is ProviderConfigEnv ==> variable_label(source) == Some(
            "api_key_env "@ + source->ProviderConfigEnv_var,
        ),
        !(source is AmbientEnv) && !(source is ProviderConfigEnv) ==> variable_label(source)
            is None,
{
}

} // verus!
