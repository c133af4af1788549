//! Receipts of catalog refreshes: what one refresh came to, and how it is
//! reported.

use vstd::prelude::*;
use crate::credentials::joined;
use crate::identities::{IdentityView, ProviderIdentity};
use crate::lists::{lemma_filter_ends, lemma_filter_holds, lemma_filter_step};
use crate::offering::{CatalogStatus, StatusView};
use crate::provider::optional_text;
use crate::route_catalog::CachedRoster;
use crate::text::{
    a_decimal_reads_back, decimal, decimal_text, number_of, occurs_at, replace_text, replaced,
    same_text, texts, the_first_occurrence_is_replaced,
};

verus! {

broadcast use vstd::string::group_string_axioms;

/// What a refresh came to.
#[derive(Debug, Clone, Copy, PartialEq, Eq, Structural)]
pub enum ReceiptOutcome {
    /// Nothing was fetched: the receipt is of what is cached.
    Cached,
    /// A provider listing was fetched and recorded.
    Updated,
    /// An account roster was loaded.
    Loaded,
    /// The refresh failed.
    Failed,
    /// The refresh was not attempted.
    Skipped,
}

/// The label of an outcome.
pub open spec fn outcome_label(outcome: ReceiptOutcome) -> Seq<char> {
    match outcome {
        ReceiptOutcome::Cached => "cached"@,
        ReceiptOutcome::Updated => "updated"@,
        ReceiptOutcome::Loaded => "loaded"@,
        ReceiptOutcome::Failed => "failed"@,
        ReceiptOutcome::Skipped => "skipped"@,
    }
}

impl ReceiptOutcome {
    /// The label of an outcome.
    #[must_use]
    pub fn as_str(self) -> (r: &'static str)
        ensures
            r@ == outcome_label(self),
    {
        match self {
            ReceiptOutcome::Cached => "cached",
            ReceiptOutcome::Updated => "updated",
            ReceiptOutcome::Loaded => "loaded",
            ReceiptOutcome::Failed => "failed",
            ReceiptOutcome::Skipped => "skipped",
        }
    }
}

/// The receipt of one catalog refresh.
#[derive(Debug)]
pub struct CatalogUpdateReceipt {
    pub provider: String,
    pub source: String,
    pub outcome: ReceiptOutcome,
    pub status: CatalogStatus,
    pub fetched_at: Option<u64>,
    pub observed_at: Option<u64>,
    pub base_url_fingerprint: Option<String>,
    pub model_count: usize,
    pub error: Option<String>,
}

/// The mathematical view of a [`CatalogUpdateReceipt`].
#[verifier::ext_equal]
pub struct ReceiptView {
    pub provider: Seq<char>,
    pub source: Seq<char>,
    pub outcome: ReceiptOutcome,
    pub status: StatusView,
    pub fetched_at: Option<u64>,
    pub observed_at: Option<u64>,
    pub base_url_fingerprint: Option<Seq<char>>,
    pub model_count: usize,
    pub error: Option<Seq<char>>,
}

impl View for CatalogUpdateReceipt {
    type V = ReceiptView;

    open spec fn view(&self) -> ReceiptView {
        ReceiptView {
            provider: self.provider@,
            source: self.source@,
            outcome: self.outcome,
            status: self.status@,
            fetched_at: self.fetched_at,
            observed_at: self.observed_at,
            base_url_fingerprint: optional_text(self.base_url_fingerprint),
            model_count: self.model_count,
            error: optional_text(self.error),
        }
    }
}

/// The views of a list of receipts.
pub open spec fn receipts_of(list: Seq<CatalogUpdateReceipt>) -> Seq<ReceiptView> {
    list.map_values(|r: CatalogUpdateReceipt| r@)
}

/// A receipt with another outcome.
pub open spec fn with_outcome(receipt: ReceiptView, outcome: ReceiptOutcome) -> ReceiptView {
    ReceiptView { outcome, ..receipt }
}

/// A receipt with an outcome and the reason for it.
pub open spec fn with_error(
    receipt: ReceiptView,
    outcome: ReceiptOutcome,
    error: Seq<char>,
) -> ReceiptView {
    ReceiptView { outcome, error: Some(error), ..receipt }
}

impl CatalogUpdateReceipt {
    /// This receipt with another outcome.
    #[must_use]
    pub fn into_outcome(self, outcome: ReceiptOutcome) -> (r: CatalogUpdateReceipt)
        ensures
            r@ == with_outcome(self@, outcome),
    {
        CatalogUpdateReceipt { outcome, ..self }
    }

    /// This receipt with an outcome and the reason for it.
    #[must_use]
    pub fn into_error(self, outcome: ReceiptOutcome, error: &str) -> (r: CatalogUpdateReceipt)
        ensures
            r@ == with_error(self@, outcome, error@),
    {
        CatalogUpdateReceipt { outcome, error: Some(error.to_owned()), ..self }
    }
}

/// What reading the cache of a route gave.
#[derive(Debug)]
pub enum CacheRead {
    /// The cache could not be read.
    Unreadable,
    /// The cache has no listing for the route.
    Absent,
    /// The cached listing of the route.
    Listing(CachedRoster),
}

/// The state of a route's cache.
#[derive(Debug)]
pub struct CacheReading {
    pub read: CacheRead,
    pub status: CatalogStatus,
}

/// The receipt of what is cached for a route.
pub open spec fn receipt_of_cache(
    identity: IdentityView,
    fingerprint: Seq<char>,
    reading: CacheReading,
) -> ReceiptView {
    ReceiptView {
        provider: identity.key,
        source: "provider_models"@,
        outcome: ReceiptOutcome::Cached,
        status: reading.status@,
        fetched_at: match reading.read {
            CacheRead::Listing(roster) => if roster.fetched_at > 0 {
                Some(roster.fetched_at)
            } else {
                None
            },
            _ => None,
        },
        observed_at: None,
        base_url_fingerprint: Some(fingerprint),
        model_count: match reading.read {
            CacheRead::Listing(roster) => roster.offerings@.len() as usize,
            _ => 0,
        },
        error: if reading.read is Unreadable {
            Some("cache_read_failed"@)
        } else {
            None
        },
    }
}

/// The receipt of what is cached for a route.
#[must_use]
pub fn cached_receipt(
    identity: &ProviderIdentity,
    fingerprint: &str,
    reading: &CacheReading,
) -> (r: CatalogUpdateReceipt)
    ensures
        r@ == receipt_of_cache(identity@, fingerprint@, *reading),
{
    let (fetched_at, model_count, error): (Option<u64>, usize, Option<String>) = match &reading.read {
        CacheRead::Listing(roster) => (
            if roster.fetched_at > 0 {
                Some(roster.fetched_at)
            } else {
                None
            },
            roster.offerings.len(),
            None,
        ),
        CacheRead::Absent => (None, 0, None),
        CacheRead::Unreadable => (None, 0, Some("cache_read_failed".to_owned())),
    };
    CatalogUpdateReceipt {
        provider: identity.key.clone(),
        source: "provider_models".to_owned(),
        outcome: ReceiptOutcome::Cached,
        status: reading.status.clone(),
        fetched_at,
        observed_at: None,
        base_url_fingerprint: Some(fingerprint.to_owned()),
        model_count,
        error,
    }
}

/// The model roster of a Codex account.
#[derive(Debug)]
pub struct CodexModelRoster {
    pub models: Vec<String>,
    /// Whether the roster is fresh.
    pub is_fresh: bool,
    /// When it was fetched, in seconds of Unix time.
    pub fetched_at: Option<i64>,
    /// When it was observed, in seconds of Unix time.
    pub observed_at: Option<i64>,
    pub source: String,
    /// Whether the observation was written to disk.
    pub observation_persisted: bool,
}

/// A point in time that is not before the epoch.
pub open spec fn unix_seconds(timestamp: Option<i64>) -> Option<u64> {
    match timestamp {
        Some(t) => if t >= 0 {
            Some(t as u64)
        } else {
            None
        },
        None => None,
    }
}

fn to_unix_seconds(timestamp: Option<i64>) -> (r: Option<u64>)
    ensures
        r == unix_seconds(timestamp),
{
    match timestamp {
        Some(t) => if t >= 0 {
            Some(t as u64)
        } else {
            None
        },
        None => None,
    }
}

/// Why the roster of a Codex account is not to be relied on.
pub open spec fn roster_error(roster: CodexModelRoster) -> Option<Seq<char>> {
    if !roster.is_fresh {
        Some("codex_cache_unavailable"@)
    } else if roster.source@ == "codex_app_server"@ && !roster.observation_persisted {
        Some("codex_observation_not_persisted"@)
    } else {
        None
    }
}

/// The receipt of a Codex account roster.
pub open spec fn receipt_of_roster(identity: IdentityView, roster: CodexModelRoster) -> ReceiptView {
    ReceiptView {
        provider: identity.key,
        source: roster.source@,
        outcome: ReceiptOutcome::Cached,
        status: if roster.is_fresh {
            StatusView::Fresh
        } else {
            StatusView::Unknown
        },
        fetched_at: unix_seconds(roster.fetched_at),
        observed_at: unix_seconds(roster.observed_at),
        base_url_fingerprint: None,
        model_count: roster.models@.len() as usize,
        error: roster_error(roster),
    }
}

/// The receipt of a Codex account roster.
#[must_use]
pub fn codex_roster_receipt(
    identity: &ProviderIdentity,
    roster: &CodexModelRoster,
) -> (r: CatalogUpdateReceipt)
    ensures
        r@ == receipt_of_roster(identity@, *roster),
{
    let error: Option<String> = if !roster.is_fresh {
        Some("codex_cache_unavailable".to_owned())
    } else if same_text(roster.source.as_str(), "codex_app_server")
        && !roster.observation_persisted {
        Some("codex_observation_not_persisted".to_owned())
    } else {
        None
    };
    CatalogUpdateReceipt {
        provider: identity.key.clone(),
        source: roster.source.clone(),
        outcome: ReceiptOutcome::Cached,
        status: if roster.is_fresh {
            CatalogStatus::Fresh
        } else {
            CatalogStatus::Unknown
        },
        fetched_at: to_unix_seconds(roster.fetched_at),
        observed_at: to_unix_seconds(roster.observed_at),
        base_url_fingerprint: None,
        model_count: roster.models.len(),
        error,
    }
}

/// Why a Models.dev refresh failed.
#[derive(Debug, Clone, Copy, PartialEq, Eq, Structural)]
pub enum ModelsDevRefreshError {
    Disabled,
    Network,
    HttpStatus,
    InvalidResponse,
    EmptyCatalog,
    Io,
}

/// The label of a failed Models.dev refresh.
pub open spec fn refresh_error_label(error: ModelsDevRefreshError) -> Seq<char> {
    match error {
        ModelsDevRefreshError::Disabled => "fetch_disabled"@,
        ModelsDevRefreshError::Network => "network"@,
        ModelsDevRefreshError::HttpStatus => "http_status"@,
        ModelsDevRefreshError::InvalidResponse => "invalid_response"@,
        ModelsDevRefreshError::EmptyCatalog => "empty_catalog"@,
        ModelsDevRefreshError::Io => "cache_io"@,
    }
}

/// The receipt of a Models.dev refresh.
pub open spec fn receipt_of_models_dev(
    error: Option<ModelsDevRefreshError>,
    fetched_at: Option<u64>,
    model_count: usize,
) -> ReceiptView {
    ReceiptView {
        provider: "models.dev"@,
        source: "models.dev"@,
        outcome: if error is None {
            ReceiptOutcome::Updated
        } else {
            ReceiptOutcome::Failed
        },
        status: if error is None {
            StatusView::Fresh
        } else {
            StatusView::Unknown
        },
        fetched_at,
        observed_at: None,
        base_url_fingerprint: None,
        model_count,
        error: match error {
            Some(e) => Some(refresh_error_label(e)),
            None => None,
        },
    }
}

/// The receipt of a Models.dev refresh.
#[must_use]
pub fn models_dev_receipt(
    error: Option<ModelsDevRefreshError>,
    fetched_at: Option<u64>,
    model_count: usize,
) -> (r: CatalogUpdateReceipt)
    ensures
        r@ == receipt_of_models_dev(error, fetched_at, model_count),
{
    let failed: bool = error.is_some();
    let label: Option<String> = match error {
        Some(ModelsDevRefreshError::Disabled) => Some("fetch_disabled".to_owned()),
        Some(ModelsDevRefreshError::Network) => Some("network".to_owned()),
        Some(ModelsDevRefreshError::HttpStatus) => Some("http_status".to_owned()),
        Some(ModelsDevRefreshError::InvalidResponse) => Some("invalid_response".to_owned()),
        Some(ModelsDevRefreshError::EmptyCatalog) => Some("empty_catalog".to_owned()),
        Some(ModelsDevRefreshError::Io) => Some("cache_io".to_owned()),
        None => None,
    };
    CatalogUpdateReceipt {
        provider: "models.dev".to_owned(),
        source: "models.dev".to_owned(),
        outcome: if failed {
            ReceiptOutcome::Failed
        } else {
            ReceiptOutcome::Updated
        },
        status: if failed {
            CatalogStatus::Unknown
        } else {
            CatalogStatus::Fresh
        },
        fetched_at,
        observed_at: None,
        base_url_fingerprint: None,
        model_count,
        error: label,
    }
}

/// How many receipts came to an outcome.
pub open spec fn outcome_count(receipts: Seq<ReceiptView>, outcome: ReceiptOutcome) -> nat {
    receipts.filter(|r: ReceiptView| r.outcome == outcome).len()
}

/// How many refreshes came to which outcome.
#[derive(Debug, Clone, Copy, PartialEq, Eq, Structural)]
pub struct UpdateSummary {
    pub updated: usize,
    pub loaded: usize,
    pub failed: usize,
    pub skipped: usize,
}

fn count_outcome(receipts: &Vec<CatalogUpdateReceipt>, outcome: ReceiptOutcome) -> (r: usize)
    ensures
        r == outcome_count(receipts_of(receipts@), outcome),
{
    let ghost all = receipts_of(receipts@);
    let ghost keep = |r: ReceiptView| r.outcome == outcome;
    proof {
        lemma_filter_ends(all, keep);
    }
    let mut n: usize = 0;
    let mut i: usize = 0;
    while i < receipts.len()
        invariant
            i <= receipts.len(),
            n <= i,
            all == receipts_of(receipts@),
            keep == (|r: ReceiptView| r.outcome == outcome),
            n == all.take(i as int).filter(keep).len(),
        decreases receipts.len() - i,
    {
        proof {
            assert(all[i as int] == receipts@[i as int]@);
            lemma_filter_step(all, keep, i as int);
        }
        if receipts[i].outcome == outcome {
            n += 1;
        }
        i += 1;
    }
    assert(all.take(i as int) =~= all);
    n
}

/// How many refreshes came to which outcome.
#[must_use]
pub fn summarize(receipts: &Vec<CatalogUpdateReceipt>) -> (r: UpdateSummary)
    ensures
        r.updated == outcome_count(receipts_of(receipts@), ReceiptOutcome::Updated),
        r.loaded == outcome_count(receipts_of(receipts@), ReceiptOutcome::Loaded),
        r.failed == outcome_count(receipts_of(receipts@), ReceiptOutcome::Failed),
        r.skipped == outcome_count(receipts_of(receipts@), ReceiptOutcome::Skipped),
{
    UpdateSummary {
        updated: count_outcome(receipts, ReceiptOutcome::Updated),
        loaded: count_outcome(receipts, ReceiptOutcome::Loaded),
        failed: count_outcome(receipts, ReceiptOutcome::Failed),
        skipped: count_outcome(receipts, ReceiptOutcome::Skipped),
    }
}

/// A message with its placeholders filled in, one after the other.
pub open spec fn summary_text(template: Seq<char>, summary: UpdateSummary) -> Seq<char> {
    replaced(
        replaced(
            replaced(
                replaced(template, "{updated}"@, decimal(summary.updated as nat)),
                "{loaded}"@,
                decimal(summary.loaded as nat),
            ),
            "{failed}"@,
            decimal(summary.failed as nat),
        ),
        "{skipped}"@,
        decimal(summary.skipped as nat),
    )
}

/// Whether an update is to be reported as incomplete: some refresh failed.
#[must_use]
pub fn update_is_incomplete(summary: &UpdateSummary) -> (r: bool)
    ensures
        r == (summary.failed > 0),
{
    summary.failed > 0
}

/// An update is incomplete exactly where one of its receipts is of a failed
/// refresh.
pub proof fn an_update_fails_where_a_refresh_failed(
    receipts: Seq<ReceiptView>,
    summary: UpdateSummary,
)
    requires
        summary_of(receipts, summary),
    ensures
        summary.failed > 0 <==> exists|i: int|
            0 <= i < receipts.len() && (#[trigger] receipts[i]).outcome == ReceiptOutcome::Failed,
{
    let keep = |r: ReceiptView| r.outcome == ReceiptOutcome::Failed;
    let kept = receipts.filter(keep);
    lemma_filter_holds(receipts, keep);
    if summary.failed > 0 {
        assert(kept.contains(kept[0]));
        let i = choose|i: int| 0 <= i < receipts.len() && receipts[i] == kept[0];
        assert(receipts[i].outcome == ReceiptOutcome::Failed);
    }
    if exists|i: int|
        0 <= i < receipts.len() && (#[trigger] receipts[i]).outcome == ReceiptOutcome::Failed {
        let i = choose|i: int|
            0 <= i < receipts.len() && (#[trigger] receipts[i]).outcome
                == ReceiptOutcome::Failed;
        assert(receipts.contains(receipts[i]));
        assert(kept.contains(receipts[i]));
    }
}

/// Whether an update refreshes the cross-provider catalog: where no provider was
/// selected.
#[must_use]
pub fn update_covers_models_dev(selected: Option<&str>) -> (r: bool)
    ensures
        r == (selected is None),
{
    selected.is_none()
}

/// The receipts of an update: that of the cross-provider catalog first, where it
/// was refreshed, then those of the providers, in order.
pub open spec fn receipts_in_order(
    models_dev: Option<ReceiptView>,
    providers: Seq<ReceiptView>,
) -> Seq<ReceiptView> {
    match models_dev {
        Some(first) => seq![first] + providers,
        None => providers,
    }
}

/// The receipts of an update, in the order in which they are reported.
#[must_use]
pub fn update_receipts(
    models_dev: Option<CatalogUpdateReceipt>,
    providers: Vec<CatalogUpdateReceipt>,
) -> (r: Vec<CatalogUpdateReceipt>)
    ensures
        receipts_of(r@) == receipts_in_order(
            match models_dev {
                Some(first) => Some(first@),
                None => None,
            },
            receipts_of(providers@),
        ),
{
    let ghost given = providers@;
    let mut rest: Vec<CatalogUpdateReceipt> = providers;
    let mut out: Vec<CatalogUpdateReceipt> = Vec::new();
    if let Some(first) = models_dev {
        out.push(first);
    }
    let ghost start = out@;
    out.append(&mut rest);
    proof {
        assert(out@ =~= start + given);
        assert(receipts_of(out@) =~= receipts_of(start) + receipts_of(given));
        if start.len() == 0 {
            assert(receipts_of(out@) =~= receipts_of(given));
        } else {
            assert(receipts_of(start) =~= seq![start[0]@]);
        }
    }
    out
}

/// The summary line of an update.
#[must_use]
pub fn summary_line(template: &str, summary: &UpdateSummary) -> (r: String)
    ensures
        r@ == summary_text(template@, *summary),
{
    proof {
        reveal_strlit("{updated}");
        reveal_strlit("{loaded}");
        reveal_strlit("{failed}");
        reveal_strlit("{skipped}");
    }
    let updated: String = decimal_text(summary.updated as u64);
    let loaded: String = decimal_text(summary.loaded as u64);
    let failed: String = decimal_text(summary.failed as u64);
    let skipped: String = decimal_text(summary.skipped as u64);
    let a: String = replace_text(template, "{updated}", updated.as_str());
    let b: String = replace_text(a.as_str(), "{loaded}", loaded.as_str());
    let c: String = replace_text(b.as_str(), "{failed}", failed.as_str());
    replace_text(c.as_str(), "{skipped}", skipped.as_str())
}

/// A time as it is shown.
pub open spec fn shown_time(time: Option<u64>) -> Seq<char> {
    match time {
        Some(t) => decimal(t as nat),
        None => "unknown"@,
    }
}

/// A time as it is shown.
pub fn time_text(time: Option<u64>) -> (r: String)
    ensures
        r@ == shown_time(time),
{
    match time {
        Some(t) => decimal_text(t),
        None => "unknown".to_owned(),
    }
}

/// The line of one receipt. `status` is the status as it is shown.
pub open spec fn receipt_text(receipt: ReceiptView, status: Seq<char>) -> Seq<char> {
    receipt.provider + "\t"@ + outcome_label(receipt.outcome) + "\tmodels="@ + decimal(
        receipt.model_count as nat,
    ) + "\tfetched_at="@ + shown_time(receipt.fetched_at) + "\tobserved_at="@ + shown_time(
        receipt.observed_at,
    ) + "\tsource="@ + receipt.source + "\tstatus="@ + status + match receipt.error {
        Some(error) => "\terror="@ + error,
        None => Seq::empty(),
    }
}

/// The line of one receipt. `status` is the status as it is shown.
#[must_use]
pub fn receipt_line(receipt: &CatalogUpdateReceipt, status: &str) -> (r: String)
    ensures
        r@ == receipt_text(receipt@, status@),
{
    let mut line: String = receipt.provider.clone();
    line.append("\t");
    line.append(receipt.outcome.as_str());
    line.append("\tmodels=");
    let count: String = decimal_text(receipt.model_count as u64);
    line.append(count.as_str());
    line.append("\tfetched_at=");
    let fetched: String = time_text(receipt.fetched_at);
    line.append(fetched.as_str());
    line.append("\tobserved_at=");
    let observed: String = time_text(receipt.observed_at);
    line.append(observed.as_str());
    line.append("\tsource=");
    line.append(receipt.source.as_str());
    line.append("\tstatus=");
    line.append(status);
    if let Some(error) = &receipt.error {
        let ghost before = line@;
        let note: String = joined("\terror=", error.as_str());
        line.append(note.as_str());
    } else {
        assert(line@ + Seq::<char>::empty() =~= line@);
    }
    line
}

/// Whether some receipt is of a Codex account, which calls for a hint.
pub open spec fn names_codex(receipts: Seq<ReceiptView>) -> bool {
    exists|i: int|
        0 <= i < receipts.len() && ((#[trigger] receipts[i]).source == "codex_cli_cache"@
            || receipts[i].source == "codex_app_server"@)
}

/// Whether some receipt is of a Codex account, which calls for a hint.
#[must_use]
pub fn has_codex_receipt(receipts: &Vec<CatalogUpdateReceipt>) -> (r: bool)
    ensures
        r == names_codex(receipts_of(receipts@)),
{
    let mut i: usize = 0;
    while i < receipts.len()
        invariant
            i <= receipts.len(),
            forall|k: int|
                0 <= k < i ==> (#[trigger] receipts_of(receipts@)[k]).source
                    != "codex_cli_cache"@ && receipts_of(receipts@)[k].source
                    != "codex_app_server"@,
        decreases receipts.len() - i,
    {
        assert(receipts_of(receipts@)[i as int] == receipts@[i as int]@);
        if same_text(receipts[i].source.as_str(), "codex_cli_cache") || same_text(
            receipts[i].source.as_str(),
            "codex_app_server",
        ) {
            return true;
        }
        i += 1;
    }
    false
}

/// A receipt with its status as it is shown.
#[derive(Debug)]
pub struct ShownReceipt {
    pub receipt: CatalogUpdateReceipt,
    pub status: String,
}

/// The receipts of a list.
pub open spec fn receipts_shown(list: Seq<ShownReceipt>) -> Seq<ReceiptView> {
    list.map_values(|s: ShownReceipt| s.receipt@)
}

/// The lines of a list of receipts.
pub open spec fn receipt_texts(list: Seq<ShownReceipt>) -> Seq<Seq<char>> {
    list.map_values(|s: ShownReceipt| receipt_text(s.receipt@, s.status@))
}

/// How many receipts came to which outcome.
pub open spec fn summary_of(receipts: Seq<ReceiptView>, summary: UpdateSummary) -> bool {
    &&& summary.updated == outcome_count(receipts, ReceiptOutcome::Updated)
    &&& summary.loaded == outcome_count(receipts, ReceiptOutcome::Loaded)
    &&& summary.failed == outcome_count(receipts, ReceiptOutcome::Failed)
    &&& summary.skipped == outcome_count(receipts, ReceiptOutcome::Skipped)
}

/// The report of an update: the summary, one line per receipt, and a hint when a
/// Codex account is among them.
pub open spec fn report_texts(
    template: Seq<char>,
    summary: UpdateSummary,
    list: Seq<ShownReceipt>,
    codex_hint: Seq<char>,
) -> Seq<Seq<char>> {
    let lines = seq![summary_text(template, summary)] + receipt_texts(list);
    if names_codex(receipts_shown(list)) {
        lines.push(codex_hint)
    } else {
        lines
    }
}

/// The report of an update, line by line, with its summary.
#[must_use]
pub fn update_report(
    template: &str,
    list: Vec<ShownReceipt>,
    codex_hint: &str,
) -> (r: (Vec<String>, UpdateSummary))
    ensures
        summary_of(receipts_shown(list@), r.1),
        texts(r.0@) == report_texts(template@, r.1, list@, codex_hint@),
{
    let ghost given = list@;
    let mut receipts: Vec<CatalogUpdateReceipt> = Vec::new();
    let mut lines: Vec<String> = Vec::new();
    for shown in it: list
        invariant
            it.seq() == given,
            receipts.len() == it.index(),
            lines.len() == it.index(),
            forall|k: int|
                0 <= k < receipts.len() ==> (#[trigger] receipts@[k])@ == given[k].receipt@,
            forall|k: int|
                0 <= k < lines.len() ==> (#[trigger] lines@[k])@ == receipt_text(
                    given[k].receipt@,
                    given[k].status@,
                ),
    {
        let line: String = receipt_line(&shown.receipt, shown.status.as_str());
        lines.push(line);
        receipts.push(shown.receipt);
    }
    assert(receipts_of(receipts@) =~= receipts_shown(given));
    let summary: UpdateSummary = summarize(&receipts);
    let mut out: Vec<String> = Vec::new();
    out.push(summary_line(template, &summary));
    let ghost body = texts(lines@);
    assert(body =~= receipt_texts(given));
    let ghost first = out@;
    let ghost rest = lines@;
    out.append(&mut lines);
    proof {
        assert(out@ =~= first + rest);
        assert(texts(out@) =~= seq![summary_text(template@, summary)] + body);
    }
    if has_codex_receipt(&receipts) {
        let ghost before = out@;
        out.push(codex_hint.to_owned());
        assert(texts(out@) =~= texts(before).push(codex_hint@));
    }
    (out, summary)
}


/// A report is its summary, one line per receipt in order, and the hint exactly
/// where a receipt is of a Codex account.
pub proof fn a_report_has_its_lines_in_order(
    template: Seq<char>,
    summary: UpdateSummary,
    list: Seq<ShownReceipt>,
    codex_hint: Seq<char>,
)
    ensures
        ({
            let lines = report_texts(template, summary, list, codex_hint);
            let hinted = exists|i: int|
                0 <= i < list.len() && ((#[trigger] list[i]).receipt.source@ == "codex_cli_cache"@
                    || list[i].receipt.source@ == "codex_app_server"@);
            &&& lines.len() == 1 + list.len() + if hinted {
                1int
            } else {
                0int
            }
            &&& lines[0] == summary_text(template, summary)
            &&& forall|i: int|
                0 <= i < list.len() ==> lines[1 + i] == receipt_text(
                    (#[trigger] list[i]).receipt@,
                    list[i].status@,
                )
            &&& hinted ==> lines.last() == codex_hint
        }),
{
    let shown = receipts_shown(list);
    assert forall|i: int| 0 <= i < list.len() implies #[trigger] shown[i]
        == list[i].receipt@ by {}
    if names_codex(shown) {
        let i = choose|i: int|
            0 <= i < shown.len() && ((#[trigger] shown[i]).source == "codex_cli_cache"@
                || shown[i].source == "codex_app_server"@);
        assert(list[i].receipt.source@ == shown[i].source);
    }
    if exists|i: int|
        0 <= i < list.len() && ((#[trigger] list[i]).receipt.source@ == "codex_cli_cache"@
            || list[i].receipt.source@ == "codex_app_server"@) {
        let i = choose|i: int|
            0 <= i < list.len() && ((#[trigger] list[i]).receipt.source@ == "codex_cli_cache"@
                || list[i].receipt.source@ == "codex_app_server"@);
        assert(shown[i].source == list[i].receipt.source@);
    }
}


/// Every failure of a Models.dev refresh is told apart by its label, and so is
/// every outcome.
pub proof fn labels_tell_apart(
    a: ModelsDevRefreshError,
    b: ModelsDevRefreshError,
    x: ReceiptOutcome,
    y: ReceiptOutcome,
)
    ensures
        refresh_error_label(a) == refresh_error_label(b) ==> a == b,
        outcome_label(x) == outcome_label(y) ==> x == y,
{
    reveal_strlit("fetch_disabled");
    reveal_strlit("network");
    reveal_strlit("http_status");
    reveal_strlit("invalid_response");
    reveal_strlit("empty_catalog");
    reveal_strlit("cache_io");
    reveal_strlit("cached");
    reveal_strlit("updated");
    reveal_strlit("loaded");
    reveal_strlit("failed");
    reveal_strlit("skipped");
    assert("fetch_disabled"@[0] == 'f' && "network"@[0] == 'n' && "http_status"@[0] == 'h');
    assert("invalid_response"@[0] == 'i' && "empty_catalog"@[0] == 'e' && "cache_io"@[0] == 'c');
    assert("cached"@[0] == 'c' && "updated"@[0] == 'u' && "loaded"@[0] == 'l');
    assert("failed"@[0] == 'f' && "skipped"@[0] == 's');
}


/// A time that is known is shown as its number, and any other as unknown.
pub proof fn a_time_is_shown_as_its_number(time: Option<u64>)
    ensures
        time is None ==> shown_time(time) == "unknown"@,
        time is Some ==> number_of(shown_time(time)) == time->0,
{
    if let Some(t) = time {
        a_decimal_reads_back(t as nat);
    }
}

/// A text that begins with a brace does not occur among digits.
proof fn lemma_no_brace(n: nat, part: Seq<char>, with: Seq<char>)
    requires
        part.len() > 0,
        part[0] == '{',
    ensures
        replaced(decimal(n), part, with) == decimal(n),
{
    a_decimal_reads_back(n);
    let text = decimal(n);
    assert forall|j: int| !#[trigger] occurs_at(text, part, j) by {
        if occurs_at(text, part, j) {
            assert(text.subrange(j, j + part.len())[0] == text[j]);
        }
    }
    the_first_occurrence_is_replaced(text, part, with, 0);
}

/// A text that is all placeholder is replaced as a whole.
proof fn lemma_all_placeholder(part: Seq<char>, with: Seq<char>)
    requires
        part.len() > 0,
    ensures
        replaced(part, part, with) == with,
{
    assert(part.subrange(0, part.len() as int) =~= part);
    assert(occurs_at(part, part, 0));
    the_first_occurrence_is_replaced(part, part, with, 0);
    assert(part.skip(part.len() as int) =~= Seq::empty());
    assert(part.take(0) + with + Seq::<char>::empty() =~= with);
}

/// A placeholder does not occur in another of the same shape.
proof fn lemma_other_placeholder(s: Seq<char>, part: Seq<char>, with: Seq<char>)
    requires
        s.len() > 0,
        part.len() > 1,
        part[0] == '{',
        s[0] == '{',
        s.len() > 1 ==> s[1] != part[1],
        forall|i: int| 0 < i < s.len() ==> s[i] != '{',
    ensures
        replaced(s, part, with) == s,
{
    assert forall|j: int| !#[trigger] occurs_at(s, part, j) by {
        if occurs_at(s, part, j) {
            assert(s.subrange(j, j + part.len())[0] == s[j]);
            assert(s.subrange(j, j + part.len())[1] == s[j + 1]);
        }
    }
    the_first_occurrence_is_replaced(s, part, with, 0);
}

/// Each placeholder of a summary stands for the number of its own outcome.
pub proof fn each_placeholder_stands_for_its_outcome(summary: UpdateSummary)
    ensures
        summary_text("{updated}"@, summary) == decimal(summary.updated as nat),
        summary_text("{loaded}"@, summary) == decimal(summary.loaded as nat),
        summary_text("{failed}"@, summary) == decimal(summary.failed as nat),
        summary_text("{skipped}"@, summary) == decimal(summary.skipped as nat),
{
    reveal_strlit("{updated}");
    reveal_strlit("{loaded}");
    reveal_strlit("{failed}");
    reveal_strlit("{skipped}");
    let u = decimal(summary.updated as nat);
    let l = decimal(summary.loaded as nat);
    let f = decimal(summary.failed as nat);
    let s = decimal(summary.skipped as nat);
    lemma_all_placeholder("{updated}"@, u);
    lemma_all_placeholder("{loaded}"@, l);
    lemma_all_placeholder("{failed}"@, f);
    lemma_all_placeholder("{skipped}"@, s);
    lemma_no_brace(summary.updated as nat, "{loaded}"@, l);
    lemma_no_brace(summary.updated as nat, "{failed}"@, f);
    lemma_no_brace(summary.updated as nat, "{skipped}"@, s);
    lemma_no_brace(summary.loaded as nat, "{failed}"@, f);
    lemma_no_brace(summary.loaded as nat, "{skipped}"@, s);
    lemma_no_brace(summary.failed as nat, "{skipped}"@, s);
    lemma_other_placeholder("{loaded}"@, "{updated}"@, u);
    lemma_other_placeholder("{failed}"@, "{updated}"@, u);
    lemma_other_placeholder("{failed}"@, "{loaded}"@, l);
    lemma_other_placeholder("{skipped}"@, "{updated}"@, u);
    lemma_other_placeholder("{skipped}"@, "{loaded}"@, l);
    lemma_other_placeholder("{skipped}"@, "{failed}"@, f);
}


/// A receipt's line tells the provider, the outcome and the count, then the two
/// times, then the source and the status, and an error at its end where there is
/// one.
pub proof fn a_line_tells_its_receipt(receipt: ReceiptView, status: Seq<char>)
    ensures
        ({
            let line = receipt_text(receipt, status);
            let head = receipt.provider + "\t"@ + outcome_label(receipt.outcome) + "\tmodels="@
                + decimal(receipt.model_count as nat);
            let times = "\tfetched_at="@ + shown_time(receipt.fetched_at) + "\tobserved_at="@
                + shown_time(receipt.observed_at);
            let tail = "\tsource="@ + receipt.source + "\tstatus="@ + status;
            &&& receipt.error is None ==> line == head + times + tail
            &&& receipt.error is Some ==> line == receipt_text(
                ReceiptView { error: None, ..receipt },
                status,
            ) + ("\terror="@ + receipt.error->0)
        }),
{
    let line = receipt_text(receipt, status);
    let head = receipt.provider + "\t"@ + outcome_label(receipt.outcome) + "\tmodels="@ + decimal(
        receipt.model_count as nat,
    );
    let times = "\tfetched_at="@ + shown_time(receipt.fetched_at) + "\tobserved_at="@ + shown_time(
        receipt.observed_at,
    );
    let tail = "\tsource="@ + receipt.source + "\tstatus="@ + status;
    if receipt.error is None {
        assert(line =~= head + times + tail);
    } else {
        let bare = receipt_text(ReceiptView { error: None, ..receipt }, status);
        assert(bare =~= head + times + tail);
        assert(line =~= bare + ("\terror="@ + receipt.error->0));
    }
}

} // verus!
