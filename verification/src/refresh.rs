//! The refresh of one provider catalog, as decisions between outside steps.
//!
//! [`CatalogUpdate`] says which step to perform next and takes its result. No
//! client is built for a retired provider, for a route that the command-line key
//! does not belong to, or for an OAuth route; nothing is fetched when the cache
//! cannot be read; and a listing is recorded only for the endpoint that it was
//! asked of.

use vstd::prelude::*;
use crate::api_provider::{optional_str, ApiProvider};
use crate::identities::ProviderIdentity;
use crate::live::LiveView;
use crate::offering::{rows_of, CatalogStatus, OfferingView, StatusView};
use crate::provider_kind::words;
use crate::receipts::{
    cached_receipt, codex_roster_receipt, receipt_of_cache, receipt_of_roster, with_error,
    with_outcome, CacheRead, CacheReading, CatalogUpdateReceipt, CodexModelRoster,
    ReceiptOutcome, ReceiptView,
};
use crate::route_catalog::{fetched_rows, route_models, CachedRoster};
use crate::signed::SignedView;
use crate::text::{lower, same_ignoring_case, same_text, trim, trimmed};

verus! {

broadcast use vstd::string::group_string_axioms;

/// What is known of a route before its catalog is refreshed.
#[derive(Debug)]
pub struct UpdateFacts {
    pub identity: ProviderIdentity,
    /// The fingerprint of the route's base URL.
    pub fingerprint: String,
    /// Whether the Codex route is the account of the Codex CLI.
    pub codex_matches_cli: bool,
    /// Whether a key was given on the command line.
    pub cli_key_given: bool,
    /// Whether this is the identity in use.
    pub is_active_identity: bool,
    /// The authentication mode of the provider.
    pub auth_mode: Option<String>,
}

/// What recording a listing came to.
#[derive(Debug, Clone, Copy, PartialEq, Eq, Structural)]
pub enum Recorded {
    /// A later refresh had started.
    Superseded,
    /// The listing was recorded and is fresh.
    Fresh,
    /// The listing could not be written.
    NotWritten,
}

/// The outside step that a refresh waits for.
#[derive(Debug, Clone, Copy, PartialEq, Eq, Structural)]
pub enum UpdateAction {
    /// Read the roster of the Codex account.
    ReadCodexRoster,
    /// Have the Codex CLI list the models of its account.
    RunCodexCli,
    /// Read the cache before the refresh.
    ReadCache,
    /// Build a client for the route.
    BuildClient,
    /// Fetch the provider's listing.
    FetchListing,
    /// Record the fetched listing.
    RecordListing,
    /// Record that the refresh failed.
    RecordFailure,
    /// Read the cache after the refresh.
    ReadCacheAgain,
    /// Nothing: the refresh is over.
    Finished,
}

/// What every outside step gives, whether it is asked for or not.
pub struct UpdateWorld {
    pub roster: CodexModelRoster,
    pub cli: Result<CodexModelRoster, String>,
    pub before: CacheReading,
    pub client_ready: bool,
    /// The fingerprint of the endpoint that answered, nothing when the fetch
    /// failed.
    pub fetched: Option<Seq<char>>,
    pub recorded: Recorded,
    pub after: CacheReading,
}

/// Whether an authentication mode is OAuth.
pub open spec fn is_oauth(auth_mode: Option<String>) -> bool {
    match auth_mode {
        Some(mode) => lower(mode@) == lower("oauth"@),
        None => false,
    }
}

/// Why no client is built for a route.
pub open spec fn refusal(f: UpdateFacts) -> Option<Seq<char>> {
    if f.identity.provider == ApiProvider::Antigravity {
        Some("provider_retired"@)
    } else if f.cli_key_given && !f.is_active_identity {
        Some("cli_key_is_scoped_to_active_provider"@)
    } else if is_oauth(f.auth_mode) {
        Some("oauth_catalog_unavailable"@)
    } else {
        None
    }
}

/// The receipt of a Codex refresh whose account does not match the route.
pub open spec fn mismatched_codex(f: UpdateFacts, roster: CodexModelRoster) -> ReceiptView {
    with_error(
        receipt_of_roster(f.identity@, roster),
        ReceiptOutcome::Skipped,
        "codex_account_route_mismatch"@,
    )
}

/// The receipt once a listing was fetched from the endpoint that was asked.
pub open spec fn recorded_receipt(
    f: UpdateFacts,
    cached: ReceiptView,
    w: UpdateWorld,
) -> ReceiptView {
    match w.recorded {
        Recorded::Superseded => with_error(
            cached,
            ReceiptOutcome::Skipped,
            "refresh_superseded"@,
        ),
        Recorded::Fresh => with_outcome(
            receipt_of_cache(f.identity@, f.fingerprint@, w.after),
            ReceiptOutcome::Updated,
        ),
        Recorded::NotWritten => with_error(
            cached,
            ReceiptOutcome::Failed,
            "cache_write_failed"@,
        ),
    }
}

/// The receipt once a fetch was made.
pub open spec fn fetched_receipt(
    f: UpdateFacts,
    cached: ReceiptView,
    w: UpdateWorld,
) -> ReceiptView {
    match w.fetched {
        Some(fingerprint) => if fingerprint != f.fingerprint@ {
            with_error(cached, ReceiptOutcome::Failed, "catalog_endpoint_mismatch"@)
        } else {
            recorded_receipt(f, cached, w)
        },
        None => with_outcome(
            receipt_of_cache(f.identity@, f.fingerprint@, w.after),
            ReceiptOutcome::Failed,
        ),
    }
}

/// The receipt once a client was asked for.
pub open spec fn connected_receipt(
    f: UpdateFacts,
    cached: ReceiptView,
    w: UpdateWorld,
) -> ReceiptView {
    if !w.client_ready {
        with_error(cached, ReceiptOutcome::Skipped, "credentials_or_route_unavailable"@)
    } else if cached.error is Some {
        with_outcome(cached, ReceiptOutcome::Failed)
    } else {
        fetched_receipt(f, cached, w)
    }
}

/// The receipt of a refresh.
pub open spec fn update_receipt(f: UpdateFacts, w: UpdateWorld) -> ReceiptView {
    if f.identity.provider == ApiProvider::OpenaiCodex {
        if !f.codex_matches_cli {
            mismatched_codex(f, w.roster)
        } else {
            match w.cli {
                Ok(roster) => with_outcome(
                    receipt_of_roster(f.identity@, roster),
                    ReceiptOutcome::Loaded,
                ),
                Err(error) => with_error(
                    receipt_of_roster(f.identity@, w.roster),
                    ReceiptOutcome::Failed,
                    error@,
                ),
            }
        }
    } else {
        let cached = receipt_of_cache(f.identity@, f.fingerprint@, w.before);
        match refusal(f) {
            Some(error) => with_error(cached, ReceiptOutcome::Skipped, error),
            None => connected_receipt(f, cached, w),
        }
    }
}

/// Where a refresh stands.
#[derive(Debug)]
enum UpdateState {
    CodexMismatch,
    CodexRunning,
    CodexFailed { error: String },
    Opening,
    Connecting { receipt: CatalogUpdateReceipt },
    Fetching { receipt: CatalogUpdateReceipt },
    Recording { receipt: CatalogUpdateReceipt },
    RecordingFailure,
    Closing { outcome: ReceiptOutcome },
    Over { receipt: CatalogUpdateReceipt },
}

/// The refresh of one provider catalog.
#[derive(Debug)]
pub struct CatalogUpdate {
    facts: UpdateFacts,
    state: UpdateState,
}

/// Whether a client may be built for a route.
pub open spec fn may_connect(f: UpdateFacts) -> bool {
    f.identity.provider != ApiProvider::OpenaiCodex && refusal(f) is None
}

/// The first outside step of a refresh.
pub open spec fn first_step(f: UpdateFacts) -> UpdateAction {
    if f.identity.provider != ApiProvider::OpenaiCodex {
        UpdateAction::ReadCache
    } else if f.codex_matches_cli {
        UpdateAction::RunCodexCli
    } else {
        UpdateAction::ReadCodexRoster
    }
}

/// How many steps are left from a step on, at most.
pub open spec fn steps_left(action: UpdateAction) -> nat {
    match action {
        UpdateAction::ReadCache => 5,
        UpdateAction::BuildClient => 4,
        UpdateAction::FetchListing => 3,
        UpdateAction::RunCodexCli => 2,
        UpdateAction::RecordListing => 2,
        UpdateAction::RecordFailure => 2,
        UpdateAction::ReadCodexRoster => 1,
        UpdateAction::ReadCacheAgain => 1,
        UpdateAction::Finished => 0,
    }
}

impl CatalogUpdate {
    /// What is known of the route.
    pub closed spec fn facts(&self) -> UpdateFacts {
        self.facts
    }

    /// The outside step that the refresh waits for.
    pub closed spec fn pending(&self) -> UpdateAction {
        match self.state {
            UpdateState::CodexMismatch => UpdateAction::ReadCodexRoster,
            UpdateState::CodexRunning => UpdateAction::RunCodexCli,
            UpdateState::CodexFailed { .. } => UpdateAction::ReadCodexRoster,
            UpdateState::Opening => UpdateAction::ReadCache,
            UpdateState::Connecting { .. } => UpdateAction::BuildClient,
            UpdateState::Fetching { .. } => UpdateAction::FetchListing,
            UpdateState::Recording { .. } => UpdateAction::RecordListing,
            UpdateState::RecordingFailure => UpdateAction::RecordFailure,
            UpdateState::Closing { .. } => UpdateAction::ReadCacheAgain,
            UpdateState::Over { .. } => UpdateAction::Finished,
        }
    }

    /// What the refresh comes to when the remaining steps give what `w` says.
    pub closed spec fn outcome(&self, w: UpdateWorld) -> ReceiptView {
        let f = self.facts;
        match self.state {
            UpdateState::CodexMismatch => mismatched_codex(f, w.roster),
            UpdateState::CodexRunning => update_receipt(f, w),
            UpdateState::CodexFailed { error } => with_error(
                receipt_of_roster(f.identity@, w.roster),
                ReceiptOutcome::Failed,
                error@,
            ),
            UpdateState::Opening => update_receipt(f, w),
            UpdateState::Connecting { receipt } => connected_receipt(f, receipt@, w),
            UpdateState::Fetching { receipt } => fetched_receipt(f, receipt@, w),
            UpdateState::Recording { receipt } => recorded_receipt(f, receipt@, w),
            UpdateState::RecordingFailure => with_outcome(
                receipt_of_cache(f.identity@, f.fingerprint@, w.after),
                ReceiptOutcome::Failed,
            ),
            UpdateState::Closing { outcome } => with_outcome(
                receipt_of_cache(f.identity@, f.fingerprint@, w.after),
                outcome,
            ),
            UpdateState::Over { receipt } => receipt@,
        }
    }

    /// Whether the cache could not be read before the refresh.
    pub closed spec fn found_no_cache(&self) -> bool {
        match self.state {
            UpdateState::Connecting { receipt } => receipt@.error is Some,
            _ => false,
        }
    }

    /// A client is asked for, and a listing fetched or recorded, only where that
    /// is allowed.
    pub closed spec fn wf(&self) -> bool {
        match self.state {
            UpdateState::CodexRunning => self.facts.identity.provider
                == ApiProvider::OpenaiCodex && self.facts.codex_matches_cli,
            UpdateState::Opening => self.facts.identity.provider != ApiProvider::OpenaiCodex,
            UpdateState::Connecting { .. }
            | UpdateState::Fetching { .. }
            | UpdateState::Recording { .. }
            | UpdateState::RecordingFailure
            | UpdateState::Closing { .. } => may_connect(self.facts),
            _ => true,
        }
    }

    /// A refresh asks for a client, a fetch or a record only where that is
    /// allowed.
    pub proof fn connects_only_where_it_may(&self)
        requires
            self.wf(),
        ensures
            self.pending() == UpdateAction::BuildClient || self.pending()
                == UpdateAction::FetchListing || self.pending() == UpdateAction::RecordListing
                || self.pending() == UpdateAction::RecordFailure ==> may_connect(self.facts()),
    {
    }

    /// Start a refresh.
    #[must_use]
    pub fn start(facts: UpdateFacts) -> (r: CatalogUpdate)
        ensures
            r.wf(),
            r.facts() == facts,
            r.pending() == first_step(facts),
            forall|w: UpdateWorld| #[trigger] r.outcome(w) == update_receipt(facts, w),
    {
        let state: UpdateState = if facts.identity.provider == ApiProvider::OpenaiCodex {
            if facts.codex_matches_cli {
                UpdateState::CodexRunning
            } else {
                UpdateState::CodexMismatch
            }
        } else {
            UpdateState::Opening
        };
        CatalogUpdate { facts, state }
    }

    /// The outside step that the refresh waits for.
    #[must_use]
    pub fn action(&self) -> (r: UpdateAction)
        ensures
            r == self.pending(),
    {
        match &self.state {
            UpdateState::CodexMismatch => UpdateAction::ReadCodexRoster,
            UpdateState::CodexRunning => UpdateAction::RunCodexCli,
            UpdateState::CodexFailed { error: _ } => UpdateAction::ReadCodexRoster,
            UpdateState::Opening => UpdateAction::ReadCache,
            UpdateState::Connecting { receipt: _ } => UpdateAction::BuildClient,
            UpdateState::Fetching { receipt: _ } => UpdateAction::FetchListing,
            UpdateState::Recording { receipt: _ } => UpdateAction::RecordListing,
            UpdateState::RecordingFailure => UpdateAction::RecordFailure,
            UpdateState::Closing { outcome: _ } => UpdateAction::ReadCacheAgain,
            UpdateState::Over { receipt: _ } => UpdateAction::Finished,
        }
    }

    /// Take the roster of the Codex account.
    #[must_use]
    pub fn on_codex_roster(self, roster: &CodexModelRoster) -> (r: CatalogUpdate)
        requires
            self.wf(),
            self.pending() == UpdateAction::ReadCodexRoster,
        ensures
            r.wf(),
            r.facts() == self.facts(),
            steps_left(r.pending()) < steps_left(self.pending()),
            r.pending() == UpdateAction::Finished,
            forall|w: UpdateWorld| #[trigger]
                r.outcome(w) == self.outcome(w) || w.roster != *roster,
    {
        let receipt: CatalogUpdateReceipt = codex_roster_receipt(&self.facts.identity, roster);
        let receipt: CatalogUpdateReceipt = match &self.state {
            UpdateState::CodexFailed { error } => receipt.into_error(
                ReceiptOutcome::Failed,
                error.as_str(),
            ),
            _ => receipt.into_error(ReceiptOutcome::Skipped, "codex_account_route_mismatch"),
        };
        CatalogUpdate { facts: self.facts, state: UpdateState::Over { receipt } }
    }

    /// Take what the Codex CLI listed.
    #[must_use]
    pub fn on_codex_cli(self, listed: Result<CodexModelRoster, String>) -> (r: CatalogUpdate)
        requires
            self.wf(),
            self.pending() == UpdateAction::RunCodexCli,
        ensures
            r.wf(),
            r.facts() == self.facts(),
            steps_left(r.pending()) < steps_left(self.pending()),
            r.pending() == (if listed is Ok {
                UpdateAction::Finished
            } else {
                UpdateAction::ReadCodexRoster
            }),
            forall|w: UpdateWorld| #[trigger]
                r.outcome(w) == self.outcome(w) || w.cli != listed,
    {
        let state: UpdateState = match listed {
            Ok(roster) => {
                let receipt: CatalogUpdateReceipt = codex_roster_receipt(
                    &self.facts.identity,
                    &roster,
                );
                UpdateState::Over { receipt: receipt.into_outcome(ReceiptOutcome::Loaded) }
            },
            Err(error) => UpdateState::CodexFailed { error },
        };
        CatalogUpdate { facts: self.facts, state }
    }

    /// Take the state of the cache before the refresh.
    #[must_use]
    pub fn on_cache(self, reading: &CacheReading) -> (r: CatalogUpdate)
        requires
            self.wf(),
            self.pending() == UpdateAction::ReadCache,
        ensures
            r.wf(),
            r.facts() == self.facts(),
            steps_left(r.pending()) < steps_left(self.pending()),
            r.pending() == (if refusal(self.facts()) is Some {
                UpdateAction::Finished
            } else {
                UpdateAction::BuildClient
            }),
            r.pending() == UpdateAction::BuildClient ==> r.found_no_cache() == (
            reading.read is Unreadable),
            forall|w: UpdateWorld| #[trigger]
                r.outcome(w) == self.outcome(w) || w.before != *reading,
    {
        let receipt: CatalogUpdateReceipt = cached_receipt(
            &self.facts.identity,
            self.facts.fingerprint.as_str(),
            reading,
        );
        let oauth: bool = match &self.facts.auth_mode {
            Some(mode) => same_ignoring_case(mode.as_str(), "oauth"),
            None => false,
        };
        let state: UpdateState = if self.facts.identity.provider == ApiProvider::Antigravity {
            UpdateState::Over {
                receipt: receipt.into_error(ReceiptOutcome::Skipped, "provider_retired"),
            }
        } else if self.facts.cli_key_given && !self.facts.is_active_identity {
            UpdateState::Over {
                receipt: receipt.into_error(
                    ReceiptOutcome::Skipped,
                    "cli_key_is_scoped_to_active_provider",
                ),
            }
        } else if oauth {
            UpdateState::Over {
                receipt: receipt.into_error(
                    ReceiptOutcome::Skipped,
                    "oauth_catalog_unavailable",
                ),
            }
        } else {
            UpdateState::Connecting { receipt }
        };
        CatalogUpdate { facts: self.facts, state }
    }

    /// Take whether a client could be built.
    #[must_use]
    pub fn on_client(self, ready: bool) -> (r: CatalogUpdate)
        requires
            self.wf(),
            self.pending() == UpdateAction::BuildClient,
        ensures
            r.wf(),
            r.facts() == self.facts(),
            steps_left(r.pending()) < steps_left(self.pending()),
            r.pending() == (if ready && !self.found_no_cache() {
                UpdateAction::FetchListing
            } else {
                UpdateAction::Finished
            }),
            forall|w: UpdateWorld| #[trigger]
                r.outcome(w) == self.outcome(w) || w.client_ready != ready,
    {
        let facts: UpdateFacts = self.facts;
        let state: UpdateState = match self.state {
            UpdateState::Connecting { receipt } => if !ready {
                UpdateState::Over {
                    receipt: receipt.into_error(
                        ReceiptOutcome::Skipped,
                        "credentials_or_route_unavailable",
                    ),
                }
            } else if receipt.error.is_some() {
                UpdateState::Over { receipt: receipt.into_outcome(ReceiptOutcome::Failed) }
            } else {
                UpdateState::Fetching { receipt }
            },
            other => other,
        };
        CatalogUpdate { facts, state }
    }

    /// Take what the fetch gave: the fingerprint of the endpoint that answered,
    /// or nothing when it failed.
    #[must_use]
    pub fn on_fetched(self, fingerprint: Option<&str>) -> (r: CatalogUpdate)
        requires
            self.wf(),
            self.pending() == UpdateAction::FetchListing,
        ensures
            r.wf(),
            r.facts() == self.facts(),
            steps_left(r.pending()) < steps_left(self.pending()),
            r.pending() == (match fingerprint {
                Some(f) => if f@ == self.facts().fingerprint@ {
                    UpdateAction::RecordListing
                } else {
                    UpdateAction::Finished
                },
                None => UpdateAction::RecordFailure,
            }),
            forall|w: UpdateWorld| #[trigger]
                r.outcome(w) == self.outcome(w) || w.fetched
                    != optional_str(fingerprint),
    {
        let facts: UpdateFacts = self.facts;
        let state: UpdateState = match self.state {
            UpdateState::Fetching { receipt } => match fingerprint {
                Some(f) => if !same_text(f, facts.fingerprint.as_str()) {
                    UpdateState::Over {
                        receipt: receipt.into_error(
                            ReceiptOutcome::Failed,
                            "catalog_endpoint_mismatch",
                        ),
                    }
                } else {
                    UpdateState::Recording { receipt }
                },
                None => UpdateState::RecordingFailure,
            },
            other => other,
        };
        CatalogUpdate { facts, state }
    }

    /// Take what recording the listing came to.
    #[must_use]
    pub fn on_recorded(self, recorded: Recorded) -> (r: CatalogUpdate)
        requires
            self.wf(),
            self.pending() == UpdateAction::RecordListing,
        ensures
            r.wf(),
            r.facts() == self.facts(),
            steps_left(r.pending()) < steps_left(self.pending()),
            r.pending() == (if recorded == Recorded::Fresh {
                UpdateAction::ReadCacheAgain
            } else {
                UpdateAction::Finished
            }),
            forall|w: UpdateWorld| #[trigger]
                r.outcome(w) == self.outcome(w) || w.recorded != recorded,
    {
        let facts: UpdateFacts = self.facts;
        let state: UpdateState = match self.state {
            UpdateState::Recording { receipt } => match recorded {
                Recorded::Superseded => UpdateState::Over {
                    receipt: receipt.into_error(ReceiptOutcome::Skipped, "refresh_superseded"),
                },
                Recorded::Fresh => UpdateState::Closing { outcome: ReceiptOutcome::Updated },
                Recorded::NotWritten => UpdateState::Over {
                    receipt: receipt.into_error(ReceiptOutcome::Failed, "cache_write_failed"),
                },
            },
            other => other,
        };
        CatalogUpdate { facts, state }
    }

    /// Take that the failure was recorded.
    #[must_use]
    pub fn on_failure_recorded(self) -> (r: CatalogUpdate)
        requires
            self.wf(),
            self.pending() == UpdateAction::RecordFailure,
        ensures
            r.wf(),
            r.facts() == self.facts(),
            steps_left(r.pending()) < steps_left(self.pending()),
            r.pending() == UpdateAction::ReadCacheAgain,
            forall|w: UpdateWorld| #[trigger] r.outcome(w) == self.outcome(w),
    {
        CatalogUpdate {
            facts: self.facts,
            state: UpdateState::Closing { outcome: ReceiptOutcome::Failed },
        }
    }

    /// Take the state of the cache after the refresh.
    #[must_use]
    pub fn on_cache_again(self, reading: &CacheReading) -> (r: CatalogUpdate)
        requires
            self.wf(),
            self.pending() == UpdateAction::ReadCacheAgain,
        ensures
            r.wf(),
            r.facts() == self.facts(),
            steps_left(r.pending()) < steps_left(self.pending()),
            r.pending() == UpdateAction::Finished,
            forall|w: UpdateWorld| #[trigger]
                r.outcome(w) == self.outcome(w) || w.after != *reading,
    {
        let outcome: ReceiptOutcome = match &self.state {
            UpdateState::Closing { outcome } => *outcome,
            _ => ReceiptOutcome::Cached,
        };
        let receipt: CatalogUpdateReceipt = cached_receipt(
            &self.facts.identity,
            self.facts.fingerprint.as_str(),
            reading,
        );
        CatalogUpdate {
            facts: self.facts,
            state: UpdateState::Over { receipt: receipt.into_outcome(outcome) },
        }
    }

    /// The receipt of a refresh that is over.
    #[must_use]
    pub fn into_receipt(self) -> (r: CatalogUpdateReceipt)
        requires
            self.pending() == UpdateAction::Finished,
        ensures
            forall|w: UpdateWorld| #[trigger] self.outcome(w) == r@,
    {
        match self.state {
            UpdateState::Over { receipt } => receipt,
            _ => vstd::pervasive::unreached(),
        }
    }
}

/// A catalog counts as updated only when a client was allowed, the endpoint that
/// was asked answered, and the listing was recorded as fresh.
pub proof fn updated_means_recorded_from_the_endpoint(f: UpdateFacts, w: UpdateWorld)
    ensures
        update_receipt(f, w).outcome == ReceiptOutcome::Updated ==> may_connect(f)
            && w.client_ready && w.fetched == Some(f.fingerprint@) && w.recorded
            == Recorded::Fresh,
{
}

/// A key from the command line never reaches another identity: for any but the
/// active one no client is built, whatever the outside steps would give, and the
/// refresh is reported as skipped.
pub proof fn a_command_line_key_is_not_forwarded(f: UpdateFacts, w: UpdateWorld)
    requires
        f.cli_key_given,
        !f.is_active_identity,
        f.identity.provider != ApiProvider::OpenaiCodex,
        f.identity.provider != ApiProvider::Antigravity,
    ensures
        !may_connect(f),
        update_receipt(f, w).outcome == ReceiptOutcome::Skipped,
        update_receipt(f, w).error == Some("cli_key_is_scoped_to_active_provider"@),
{
}

/// A failed fetch is reported with what the cache still holds: earlier rows are
/// not given up.
pub proof fn a_failed_fetch_keeps_what_is_cached(f: UpdateFacts, w: UpdateWorld)
    requires
        may_connect(f),
        w.client_ready,
        !(w.before.read is Unreadable),
        w.fetched is None,
    ensures
        update_receipt(f, w) == with_outcome(
            receipt_of_cache(f.identity@, f.fingerprint@, w.after),
            ReceiptOutcome::Failed,
        ),
{
}

/// A failed fetch gives up no rows: where recording the failure leaves the cached
/// listing as it was, the receipt has the time of that listing and the reason of
/// the failure, and the route lists the same models as before.
pub proof fn a_failed_fetch_gives_up_no_rows(
    f: UpdateFacts,
    w: UpdateWorld,
    before: CachedRoster,
    after: CachedRoster,
    reason: String,
    live: LiveView,
    bundled: Seq<OfferingView>,
    in_signed_scope: bool,
    keeps_custom_model: bool,
    signed: Option<SignedView>,
    codex: Seq<Seq<char>>,
    completion: Seq<Seq<char>>,
)
    requires
        may_connect(f),
        w.client_ready,
        w.fetched is None,
        w.before.read == CacheRead::Listing(before),
        w.after.read == CacheRead::Listing(after),
        w.after.status == (CatalogStatus::Failed { reason }),
        before.fetched_at > 0,
        after.fetched_at == before.fetched_at,
        rows_of(after.offerings@) == rows_of(before.offerings@),
    ensures
        update_receipt(f, w).outcome == ReceiptOutcome::Failed,
        update_receipt(f, w).fetched_at == Some(before.fetched_at),
        update_receipt(f, w).status == (StatusView::Failed { reason: reason@ }),
        update_receipt(f, w).model_count == before.offerings@.len(),
        update_receipt(f, w).error is None,
        route_models(
            live,
            bundled,
            f.identity.provider,
            in_signed_scope,
            keeps_custom_model,
            fetched_rows(Some(&after)),
            signed,
            codex,
            completion,
        ) == route_models(
            live,
            bundled,
            f.identity.provider,
            in_signed_scope,
            keeps_custom_model,
            fetched_rows(Some(&before)),
            signed,
            codex,
            completion,
        ),
{
    assert(after.offerings.len() == after.offerings@.len());
    assert(rows_of(after.offerings@).len() == after.offerings@.len());
    assert(rows_of(before.offerings@).len() == before.offerings@.len());
}

/// The receipt of a refresh names the identity that was refreshed.
pub proof fn a_receipt_names_its_identity(f: UpdateFacts, w: UpdateWorld)
    ensures
        update_receipt(f, w).provider == f.identity.key@,
{
}

/// The environment variables that override the account of the Codex CLI.
#[must_use]
pub fn codex_override_variables() -> (r: &'static [&'static str])
    ensures
        words(r@) == seq![
            "OPENAI_CODEX_ACCESS_TOKEN"@,
            "CODEX_ACCESS_TOKEN"@,
            "OPENAI_CODEX_ACCOUNT_ID"@,
            "CODEX_ACCOUNT_ID"@,
        ],
{
    &[
        "OPENAI_CODEX_ACCESS_TOKEN",
        "CODEX_ACCESS_TOKEN",
        "OPENAI_CODEX_ACCOUNT_ID",
        "CODEX_ACCOUNT_ID",
    ]
}

/// Whether the value of a variable overrides what it stands for: it is set, and
/// not blank.
pub open spec fn overrides(value: Option<String>) -> bool {
    match value {
        Some(v) => trim(v@).len() > 0,
        None => false,
    }
}

/// Whether the Codex route is the account of the Codex CLI: its official
/// endpoint, no overriding variable, and the CLI's own credential file.
pub open spec fn is_cli_account(
    custom_endpoint: bool,
    values: Seq<Option<String>>,
    auth_file_is_cli_file: bool,
) -> bool {
    !custom_endpoint && (forall|i: int| 0 <= i < values.len() ==> !overrides(#[trigger] values[i]))
        && auth_file_is_cli_file
}

/// Whether the Codex route is the account of the Codex CLI: its official
/// endpoint, no overriding variable, and the CLI's own credential file.
///
/// `values` are the values of [`codex_override_variables`].
#[must_use]
pub fn codex_route_matches_cli_account(
    custom_endpoint: bool,
    values: &Vec<Option<String>>,
    auth_file_is_cli_file: bool,
) -> (r: bool)
    ensures
        r == is_cli_account(custom_endpoint, values@, auth_file_is_cli_file),
{
    if custom_endpoint {
        return false;
    }
    let mut i: usize = 0;
    while i < values.len()
        invariant
            i <= values.len(),
            forall|k: int| 0 <= k < i ==> !overrides(#[trigger] values@[k]),
        decreases values.len() - i,
    {
        if let Some(value) = &values[i] {
            if trimmed(value.as_str()).unicode_len() > 0 {
                assert(overrides(values@[i as int]));
                return false;
            }
        }
        i += 1;
    }
    auth_file_is_cli_file
}

} // verus!
