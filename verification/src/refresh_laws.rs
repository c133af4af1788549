//! What a refresh comes to, case by case.

use vstd::prelude::*;
use crate::api_provider::ApiProvider;
use crate::identities::IdentityView;
use crate::offering::StatusView;
use crate::receipts::{
    outcome_count, receipt_of_cache, receipt_of_models_dev, receipt_of_roster, receipts_in_order,
    CacheRead, CacheReading, CodexModelRoster, ModelsDevRefreshError, ReceiptOutcome, ReceiptView,
};
use crate::refresh::{
    first_step, is_cli_account, may_connect, overrides, update_receipt, Recorded, UpdateAction,
    UpdateFacts, UpdateWorld,
};
use crate::text::{lower, trim};

verus! {

broadcast use vstd::string::group_string_axioms;

/// Whether a receipt tells what a reading of a route's cache gave: the rows that
/// are cached, when they were fetched, and the status, under the route's name.
pub open spec fn tells_of_the_cache(
    r: ReceiptView,
    identity: IdentityView,
    fingerprint: Seq<char>,
    reading: CacheReading,
) -> bool {
    &&& r.provider == identity.key
    &&& r.source == "provider_models"@
    &&& r.status == reading.status@
    &&& r.observed_at is None
    &&& r.base_url_fingerprint == Some(fingerprint)
    &&& reading.read matches CacheRead::Listing(roster) ==> r.model_count
        == roster.offerings@.len() && r.fetched_at == if roster.fetched_at == 0 {
        None::<u64>
    } else {
        Some(roster.fetched_at)
    }
    &&& !(reading.read is Listing) ==> r.model_count == 0 && r.fetched_at is None
}

/// What is cached for a route is told as it is, and an unreadable cache is the
/// only error.
pub proof fn a_cached_listing_is_told_as_it_is(
    identity: IdentityView,
    fingerprint: Seq<char>,
    reading: CacheReading,
)
    ensures
        tells_of_the_cache(
            receipt_of_cache(identity, fingerprint, reading),
            identity,
            fingerprint,
            reading,
        ),
        receipt_of_cache(identity, fingerprint, reading).outcome == ReceiptOutcome::Cached,
        reading.read is Unreadable ==> receipt_of_cache(identity, fingerprint, reading).error
            == Some("cache_read_failed"@),
        !(reading.read is Unreadable) ==> receipt_of_cache(
            identity,
            fingerprint,
            reading,
        ).error is None,
{
    if let CacheRead::Listing(roster) = reading.read {
        assert(roster.offerings.len() == roster.offerings@.len());
    }
}

/// Whether a refresh came to an outcome for a reason, and tells of that reading
/// of the cache.
pub open spec fn came_to(
    f: UpdateFacts,
    w: UpdateWorld,
    outcome: ReceiptOutcome,
    error: Seq<char>,
    reading: CacheReading,
) -> bool {
    let r = update_receipt(f, w);
    r.outcome == outcome && r.error == Some(error) && tells_of_the_cache(
        r,
        f.identity@,
        f.fingerprint@,
        reading,
    )
}

/// Whether a route may be asked for its listing: it is not retired, no key of
/// another route would be sent, and it does not authenticate by OAuth.
pub open spec fn may_be_asked(f: UpdateFacts) -> bool {
    &&& f.identity.provider != ApiProvider::OpenaiCodex
    &&& f.identity.provider != ApiProvider::Antigravity
    &&& !f.cli_key_given || f.is_active_identity
    &&& f.auth_mode is Some ==> lower((f.auth_mode->0)@) != lower("oauth"@)
}

/// A route that may not be asked is skipped, with the first reason that holds,
/// and its cache is told as it was.
pub proof fn a_route_that_may_not_be_asked_is_skipped(f: UpdateFacts, w: UpdateWorld)
    requires
        f.identity.provider != ApiProvider::OpenaiCodex,
    ensures
        f.identity.provider == ApiProvider::Antigravity ==> came_to(
            f,
            w,
            ReceiptOutcome::Skipped,
            "provider_retired"@,
            w.before,
        ),
        f.identity.provider != ApiProvider::Antigravity && f.cli_key_given
            && !f.is_active_identity ==> came_to(
            f,
            w,
            ReceiptOutcome::Skipped,
            "cli_key_is_scoped_to_active_provider"@,
            w.before,
        ),
        f.identity.provider != ApiProvider::Antigravity && !(f.cli_key_given
            && !f.is_active_identity) && f.auth_mode is Some && lower((f.auth_mode->0)@) == lower(
            "oauth"@,
        ) ==> came_to(
            f,
            w,
            ReceiptOutcome::Skipped,
            "oauth_catalog_unavailable"@,
            w.before,
        ),
        f.identity.provider != ApiProvider::Antigravity && !(f.cli_key_given
            && !f.is_active_identity) && (f.auth_mode is None || lower((f.auth_mode->0)@) != lower(
            "oauth"@,
        )) ==> may_be_asked(f),
{
    a_cached_listing_is_told_as_it_is(f.identity@, f.fingerprint@, w.before);
}

/// A route that may be asked is skipped without a client, and fails where its
/// cache cannot be read.
pub proof fn a_route_without_a_client_is_skipped(f: UpdateFacts, w: UpdateWorld)
    requires
        may_be_asked(f),
    ensures
        !w.client_ready ==> came_to(
            f,
            w,
            ReceiptOutcome::Skipped,
            "credentials_or_route_unavailable"@,
            w.before,
        ),
        w.client_ready && w.before.read is Unreadable ==> came_to(
            f,
            w,
            ReceiptOutcome::Failed,
            "cache_read_failed"@,
            w.before,
        ),
{
    a_cached_listing_is_told_as_it_is(f.identity@, f.fingerprint@, w.before);
}

/// A listing is accepted only from the endpoint that was asked, and a refresh is
/// an update only where that listing was recorded; then, and after a failed
/// fetch, what is cached afterwards is told.
pub proof fn only_a_recorded_listing_is_an_update(f: UpdateFacts, w: UpdateWorld)
    requires
        may_be_asked(f),
        w.client_ready,
        !(w.before.read is Unreadable),
    ensures
        w.fetched is None ==> update_receipt(f, w).outcome == ReceiptOutcome::Failed
            && tells_of_the_cache(update_receipt(f, w), f.identity@, f.fingerprint@, w.after),
        w.fetched is Some && w.fetched->0 != f.fingerprint@ ==> came_to(
            f,
            w,
            ReceiptOutcome::Failed,
            "catalog_endpoint_mismatch"@,
            w.before,
        ),
        w.fetched == Some(f.fingerprint@) && w.recorded == Recorded::Superseded ==> came_to(
            f,
            w,
            ReceiptOutcome::Skipped,
            "refresh_superseded"@,
            w.before,
        ),
        w.fetched == Some(f.fingerprint@) && w.recorded == Recorded::NotWritten ==> came_to(
            f,
            w,
            ReceiptOutcome::Failed,
            "cache_write_failed"@,
            w.before,
        ),
        w.fetched == Some(f.fingerprint@) && w.recorded == Recorded::Fresh ==> update_receipt(
            f,
            w,
        ).outcome == ReceiptOutcome::Updated && tells_of_the_cache(
            update_receipt(f, w),
            f.identity@,
            f.fingerprint@,
            w.after,
        ),
        w.fetched is None || (w.fetched == Some(f.fingerprint@) && w.recorded == Recorded::Fresh)
            ==> update_receipt(f, w).error == if w.after.read is Unreadable {
            Some("cache_read_failed"@)
        } else {
            None
        },
{
    a_cached_listing_is_told_as_it_is(f.identity@, f.fingerprint@, w.before);
    a_cached_listing_is_told_as_it_is(f.identity@, f.fingerprint@, w.after);
}

/// A time as it is reported: only what is not before the epoch.
pub open spec fn reported_time(t: Option<i64>) -> Option<u64> {
    if t is Some && t->0 >= 0 {
        Some((t->0) as u64)
    } else {
        None
    }
}

/// Whether a receipt tells of a Codex account roster.
pub open spec fn tells_of_the_roster(
    r: ReceiptView,
    identity: IdentityView,
    roster: CodexModelRoster,
) -> bool {
    &&& r.provider == identity.key
    &&& r.source == roster.source@
    &&& r.status == StatusView::Fresh <==> roster.is_fresh
    &&& r.status == StatusView::Unknown <==> !roster.is_fresh
    &&& r.fetched_at == reported_time(roster.fetched_at)
    &&& r.observed_at == reported_time(roster.observed_at)
    &&& r.base_url_fingerprint is None
    &&& r.model_count == roster.models@.len()
}

/// A Codex account roster is told as it is. It is not to be relied on where it is
/// stale, or where what the account's server said was not kept.
pub proof fn a_codex_roster_is_told_as_it_is(identity: IdentityView, roster: CodexModelRoster)
    ensures
        tells_of_the_roster(receipt_of_roster(identity, roster), identity, roster),
        receipt_of_roster(identity, roster).outcome == ReceiptOutcome::Cached,
        !roster.is_fresh ==> receipt_of_roster(identity, roster).error == Some(
            "codex_cache_unavailable"@,
        ),
        roster.is_fresh && roster.source@ == "codex_app_server"@ && !roster.observation_persisted
            ==> receipt_of_roster(identity, roster).error == Some(
            "codex_observation_not_persisted"@,
        ),
        roster.is_fresh && (roster.source@ != "codex_app_server"@ || roster.observation_persisted)
            ==> receipt_of_roster(identity, roster).error is None,
{
    assert(roster.models.len() == roster.models@.len());
}

/// A Codex refresh loads what the Codex CLI lists, and only for the CLI's own
/// account: another account is skipped, and a failure of the CLI is the error.
pub proof fn codex_loads_only_the_account_of_its_cli(f: UpdateFacts, w: UpdateWorld)
    requires
        f.identity.provider == ApiProvider::OpenaiCodex,
    ensures
        !f.codex_matches_cli ==> update_receipt(f, w).outcome == ReceiptOutcome::Skipped
            && update_receipt(f, w).error == Some("codex_account_route_mismatch"@)
            && tells_of_the_roster(update_receipt(f, w), f.identity@, w.roster),
        f.codex_matches_cli && w.cli is Ok ==> update_receipt(f, w).outcome
            == ReceiptOutcome::Loaded && tells_of_the_roster(
            update_receipt(f, w),
            f.identity@,
            w.cli->Ok_0,
        ) && update_receipt(f, w).error == receipt_of_roster(f.identity@, w.cli->Ok_0).error,
        f.codex_matches_cli && w.cli is Err ==> update_receipt(f, w).outcome
            == ReceiptOutcome::Failed && update_receipt(f, w).error == Some((w.cli->Err_0)@)
            && tells_of_the_roster(update_receipt(f, w), f.identity@, w.roster),
{
    a_codex_roster_is_told_as_it_is(f.identity@, w.roster);
    if w.cli is Ok {
        a_codex_roster_is_told_as_it_is(f.identity@, w.cli->Ok_0);
    }
}

/// A Models.dev refresh is an update exactly where it has no error, and tells what
/// it fetched under its own name.
pub proof fn a_models_dev_refresh_is_told_as_it_is(
    error: Option<ModelsDevRefreshError>,
    fetched_at: Option<u64>,
    model_count: usize,
)
    ensures
        ({
            let r = receipt_of_models_dev(error, fetched_at, model_count);
            &&& r.provider == "models.dev"@ && r.source == "models.dev"@
            &&& r.fetched_at == fetched_at && r.model_count == model_count
            &&& r.observed_at is None && r.base_url_fingerprint is None
            &&& error is None ==> r.outcome == ReceiptOutcome::Updated && r.status
                == StatusView::Fresh && r.error is None
            &&& error is Some ==> r.outcome == ReceiptOutcome::Failed && r.status
                == StatusView::Unknown
            &&& error == Some(ModelsDevRefreshError::Disabled) ==> r.error == Some(
                "fetch_disabled"@,
            )
            &&& error == Some(ModelsDevRefreshError::Network) ==> r.error == Some("network"@)
            &&& error == Some(ModelsDevRefreshError::HttpStatus) ==> r.error == Some(
                "http_status"@,
            )
            &&& error == Some(ModelsDevRefreshError::InvalidResponse) ==> r.error == Some(
                "invalid_response"@,
            )
            &&& error == Some(ModelsDevRefreshError::EmptyCatalog) ==> r.error == Some(
                "empty_catalog"@,
            )
            &&& error == Some(ModelsDevRefreshError::Io) ==> r.error == Some("cache_io"@)
        }),
{
}

/// Outcomes are counted receipt by receipt.
pub proof fn outcomes_are_counted_one_by_one(
    a: Seq<ReceiptView>,
    b: Seq<ReceiptView>,
    r: ReceiptView,
    outcome: ReceiptOutcome,
)
    ensures
        outcome_count(Seq::empty(), outcome) == 0,
        outcome_count(seq![r], outcome) == if r.outcome == outcome {
            1nat
        } else {
            0nat
        },
        outcome_count(a + b, outcome) == outcome_count(a, outcome) + outcome_count(b, outcome),
    decreases b.len(),
{
    reveal(Seq::filter);
    let keep = |r: ReceiptView| r.outcome == outcome;
    let one = seq![r];
    assert(Seq::<ReceiptView>::empty().filter(keep) =~= Seq::empty());
    assert(one.drop_last() =~= Seq::empty());
    assert(one.drop_last().filter(keep) =~= Seq::empty());
    assert(one.last() == r);
    if b.len() == 0 {
        assert(a + b =~= a);
        assert(b.filter(keep) =~= Seq::empty());
    } else {
        outcomes_are_counted_one_by_one(a, b.drop_last(), r, outcome);
        assert((a + b).drop_last() =~= a + b.drop_last());
        assert((a + b).last() == b.last());
    }
}

/// The receipt of the cross-provider catalog comes first, and those of the
/// providers after it in their order.
pub proof fn the_cross_provider_receipt_comes_first(
    first: ReceiptView,
    providers: Seq<ReceiptView>,
)
    ensures
        receipts_in_order(None, providers) == providers,
        receipts_in_order(Some(first), providers).len() == providers.len() + 1,
        receipts_in_order(Some(first), providers)[0] == first,
        forall|i: int|
            0 <= i < providers.len() ==> receipts_in_order(Some(first), providers)[i + 1]
                == #[trigger] providers[i],
{
}


/// A client is built exactly for a route that may be asked, and a refresh begins
/// with its cache; a Codex refresh begins with the Codex CLI on the CLI's own
/// account, and otherwise reads what is known of the account.
pub proof fn a_client_is_built_only_for_a_route_that_may_be_asked(f: UpdateFacts)
    ensures
        may_connect(f) <==> may_be_asked(f),
        f.identity.provider != ApiProvider::OpenaiCodex ==> first_step(f)
            == UpdateAction::ReadCache,
        f.identity.provider == ApiProvider::OpenaiCodex && f.codex_matches_cli ==> first_step(f)
            == UpdateAction::RunCodexCli,
        f.identity.provider == ApiProvider::OpenaiCodex && !f.codex_matches_cli ==> first_step(f)
            == UpdateAction::ReadCodexRoster,
{
}


/// The Codex route is the account of the CLI at its official endpoint with the
/// CLI's own file, and each variable that is set to more than white space takes
/// it away, whichever it is.
pub proof fn any_override_is_another_account(
    custom_endpoint: bool,
    values: Seq<Option<String>>,
    more: Seq<Option<String>>,
    value: Option<String>,
    own_file: bool,
)
    ensures
        is_cli_account(custom_endpoint, Seq::empty(), own_file) <==> !custom_endpoint && own_file,
        is_cli_account(custom_endpoint, values + seq![value] + more, own_file) <==> is_cli_account(
            custom_endpoint,
            values + more,
            own_file,
        ) && (value is None || trim((value->0)@).len() == 0),
{
    let all = values + seq![value] + more;
    let rest = values + more;
    let n = values.len() as int;
    assert(all[n] == value);
    assert forall|i: int| 0 <= i < rest.len() implies #[trigger] rest[i] == if i < n {
        all[i]
    } else {
        all[i + 1]
    } by {}
    if is_cli_account(custom_endpoint, all, own_file) {
        assert forall|i: int| 0 <= i < rest.len() implies !overrides(#[trigger] rest[i]) by {
            if i < n {
                assert(!overrides(all[i]));
            } else {
                assert(!overrides(all[i + 1]));
            }
        }
        assert(!overrides(all[n]));
    }
    if is_cli_account(custom_endpoint, rest, own_file) && !overrides(value) {
        assert forall|i: int| 0 <= i < all.len() implies !overrides(#[trigger] all[i]) by {
            if i < n {
                assert(rest[i] == all[i]);
            } else if i > n {
                assert(rest[i - 1] == all[i]);
            }
        }
    }
}

} // verus!
