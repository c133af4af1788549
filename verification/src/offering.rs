//! Catalog rows: what one provider offers under one wire model id.

use vstd::prelude::*;
use crate::lists::{lemma_filter_ends, lemma_filter_step};
use crate::pair_map::{PairKey, PairMap};
use crate::provider::optional_text;
use crate::text::same_text;

verus! {

/// Token limits of a model, each where it is known.
#[derive(Debug, Clone, Copy, PartialEq, Eq, Structural)]
pub struct ModelLimit {
    pub context: Option<u64>,
    pub output: Option<u64>,
}

/// Where a catalog row comes from.
#[derive(Debug)]
pub enum CatalogSource {
    /// The offline seed.
    Bundled,
    /// The cross-provider Models.dev catalog.
    ModelsDev { fetched_at: u64 },
    /// A provider's own model listing, at one endpoint.
    Live { base_url_fingerprint: String, fetched_at: u64 },
    /// The signed cloud layer.
    CloudFacts { fetched_at: u64 },
    /// A declaration in the configuration.
    Configured,
}

/// The mathematical view of a [`CatalogSource`].
#[verifier::ext_equal]
pub enum SourceView {
    Bundled,
    ModelsDev { fetched_at: u64 },
    Live { base_url_fingerprint: Seq<char>, fetched_at: u64 },
    CloudFacts { fetched_at: u64 },
    Configured,
}

impl View for CatalogSource {
    type V = SourceView;

    open spec fn view(&self) -> SourceView {
        match *self {
            CatalogSource::Bundled => SourceView::Bundled,
            CatalogSource::ModelsDev { fetched_at } => SourceView::ModelsDev { fetched_at },
            CatalogSource::Live { base_url_fingerprint, fetched_at } => SourceView::Live {
                base_url_fingerprint: base_url_fingerprint@,
                fetched_at,
            },
            CatalogSource::CloudFacts { fetched_at } => SourceView::CloudFacts { fetched_at },
            CatalogSource::Configured => SourceView::Configured,
        }
    }
}

impl Clone for CatalogSource {
    fn clone(&self) -> (r: Self)
        ensures
            r@ == self@,
    {
        match self {
            CatalogSource::Bundled => CatalogSource::Bundled,
            CatalogSource::ModelsDev { fetched_at } => CatalogSource::ModelsDev {
                fetched_at: *fetched_at,
            },
            CatalogSource::Live { base_url_fingerprint, fetched_at } => CatalogSource::Live {
                base_url_fingerprint: base_url_fingerprint.clone(),
                fetched_at: *fetched_at,
            },
            CatalogSource::CloudFacts { fetched_at } => CatalogSource::CloudFacts {
                fetched_at: *fetched_at,
            },
            CatalogSource::Configured => CatalogSource::Configured,
        }
    }
}

/// One catalog row.
#[derive(Debug)]
pub struct CatalogOffering {
    pub provider: String,
    pub wire_model_id: String,
    pub endpoint_key: String,
    pub default_for_provider: bool,
    pub family: Option<String>,
    pub limit: Option<ModelLimit>,
    pub reasoning: Option<bool>,
    /// Handle of the row's price, which is carried along and never read here.
    pub price: Option<u64>,
    /// Handle of the row's further facts, which are carried along too.
    pub details: Option<u64>,
    pub source: CatalogSource,
}

/// The mathematical view of a [`CatalogOffering`].
#[verifier::ext_equal]
pub struct OfferingView {
    pub provider: Seq<char>,
    pub wire_model_id: Seq<char>,
    pub endpoint_key: Seq<char>,
    pub default_for_provider: bool,
    pub family: Option<Seq<char>>,
    pub limit: Option<ModelLimit>,
    pub reasoning: Option<bool>,
    pub price: Option<u64>,
    pub details: Option<u64>,
    pub source: SourceView,
}

impl View for CatalogOffering {
    type V = OfferingView;

    open spec fn view(&self) -> OfferingView {
        OfferingView {
            provider: self.provider@,
            wire_model_id: self.wire_model_id@,
            endpoint_key: self.endpoint_key@,
            default_for_provider: self.default_for_provider,
            family: optional_text(self.family),
            limit: self.limit,
            reasoning: self.reasoning,
            price: self.price,
            details: self.details,
            source: self.source@,
        }
    }
}

/// A copy of an optional string.
pub fn copied_text(s: &Option<String>) -> (r: Option<String>)
    ensures
        optional_text(r) == optional_text(*s),
{
    match s {
        Some(t) => Some(t.clone()),
        None => None,
    }
}

impl Clone for CatalogOffering {
    fn clone(&self) -> (r: Self)
        ensures
            r@ == self@,
    {
        CatalogOffering {
            provider: self.provider.clone(),
            wire_model_id: self.wire_model_id.clone(),
            endpoint_key: self.endpoint_key.clone(),
            default_for_provider: self.default_for_provider,
            family: copied_text(&self.family),
            limit: self.limit,
            reasoning: self.reasoning,
            price: self.price,
            details: self.details,
            source: self.source.clone(),
        }
    }
}

impl Default for CatalogOffering {
    fn default() -> (r: Self)
        ensures
            r@ == (OfferingView {
                provider: Seq::empty(),
                wire_model_id: Seq::empty(),
                endpoint_key: Seq::empty(),
                default_for_provider: false,
                family: None,
                limit: None,
                reasoning: None,
                price: None,
                details: None,
                source: SourceView::Bundled,
            }),
    {
        CatalogOffering {
            provider: String::new(),
            wire_model_id: String::new(),
            endpoint_key: String::new(),
            default_for_provider: false,
            family: None,
            limit: None,
            reasoning: None,
            price: None,
            details: None,
            source: CatalogSource::Bundled,
        }
    }
}

/// Whether two sources are the same.
pub fn same_source(a: &CatalogSource, b: &CatalogSource) -> (r: bool)
    ensures
        r == (a@ == b@),
{
    match (a, b) {
        (CatalogSource::Bundled, CatalogSource::Bundled) => true,
        (CatalogSource::Configured, CatalogSource::Configured) => true,
        (
            CatalogSource::ModelsDev { fetched_at: x },
            CatalogSource::ModelsDev { fetched_at: y },
        ) => *x == *y,
        (
            CatalogSource::CloudFacts { fetched_at: x },
            CatalogSource::CloudFacts { fetched_at: y },
        ) => *x == *y,
        (
            CatalogSource::Live { base_url_fingerprint: f, fetched_at: x },
            CatalogSource::Live { base_url_fingerprint: g, fetched_at: y },
        ) => *x == *y && same_text(f.as_str(), g.as_str()),
        _ => false,
    }
}

/// Whether two optional strings hold the same text.
pub fn same_optional_text(a: &Option<String>, b: &Option<String>) -> (r: bool)
    ensures
        r == (optional_text(*a) == optional_text(*b)),
{
    match (a, b) {
        (Some(x), Some(y)) => same_text(x.as_str(), y.as_str()),
        (None, None) => true,
        _ => false,
    }
}

/// Whether two limits are the same.
fn same_limit(a: Option<ModelLimit>, b: Option<ModelLimit>) -> (r: bool)
    ensures
        r == (a == b),
{
    match (a, b) {
        (Some(x), Some(y)) => x.context == y.context && x.output == y.output,
        (None, None) => true,
        _ => false,
    }
}

/// Whether two rows are the same.
pub fn same_offering(a: &CatalogOffering, b: &CatalogOffering) -> (r: bool)
    ensures
        r == (a@ == b@),
{
    same_text(a.provider.as_str(), b.provider.as_str()) && same_text(
        a.wire_model_id.as_str(),
        b.wire_model_id.as_str(),
    ) && same_text(a.endpoint_key.as_str(), b.endpoint_key.as_str()) && a.default_for_provider
        == b.default_for_provider && same_optional_text(&a.family, &b.family) && same_limit(
        a.limit,
        b.limit,
    ) && a.reasoning == b.reasoning && a.price == b.price && a.details == b.details && same_source(&a.source, &b.source)
}

/// How far the rows of a provider-owned catalog can be relied on.
#[derive(Debug)]
pub enum CatalogStatus {
    /// Fetched from the endpoint within its validity.
    Fresh,
    /// Fetched from the endpoint, too long ago.
    Stale,
    /// Never fetched.
    Unknown,
    /// The last refresh failed.
    Failed { reason: String },
}

/// The mathematical view of a [`CatalogStatus`].
#[verifier::ext_equal]
pub enum StatusView {
    Fresh,
    Stale,
    Unknown,
    Failed { reason: Seq<char> },
}

impl View for CatalogStatus {
    type V = StatusView;

    open spec fn view(&self) -> StatusView {
        match *self {
            CatalogStatus::Fresh => StatusView::Fresh,
            CatalogStatus::Stale => StatusView::Stale,
            CatalogStatus::Unknown => StatusView::Unknown,
            CatalogStatus::Failed { reason } => StatusView::Failed { reason: reason@ },
        }
    }
}

impl Clone for CatalogStatus {
    fn clone(&self) -> (r: Self)
        ensures
            r@ == self@,
    {
        match self {
            CatalogStatus::Fresh => CatalogStatus::Fresh,
            CatalogStatus::Stale => CatalogStatus::Stale,
            CatalogStatus::Unknown => CatalogStatus::Unknown,
            CatalogStatus::Failed { reason } => CatalogStatus::Failed { reason: reason.clone() },
        }
    }
}

impl CatalogStatus {
    /// Whether the rows are fresh.
    #[must_use]
    pub fn is_fresh(&self) -> (r: bool)
        ensures
            r == (*self is Fresh),
    {
        match self {
            CatalogStatus::Fresh => true,
            _ => false,
        }
    }
}

/// The views of a list of rows.
pub open spec fn rows_of(list: Seq<CatalogOffering>) -> Seq<OfferingView> {
    list.map_values(|o: CatalogOffering| o@)
}

/// The key of a row.
pub open spec fn row_key(row: OfferingView) -> PairKey {
    (row.provider, row.wire_model_id)
}

/// `m` with `rows` put in one after the other: the last row of a key wins.
pub open spec fn with_rows(
    m: Map<PairKey, OfferingView>,
    rows: Seq<OfferingView>,
) -> Map<PairKey, OfferingView>
    decreases rows.len(),
{
    if rows.len() == 0 {
        m
    } else {
        with_rows(m, rows.drop_last()).insert(row_key(rows.last()), rows.last())
    }
}

/// Put a row in under its own key.
pub fn put_row(map: &mut PairMap<CatalogOffering>, row: CatalogOffering)
    requires
        old(map).wf(),
    ensures
        final(map).wf(),
        final(map)@ == old(map)@.insert(row_key(row@), row@),
{
    let provider: String = row.provider.clone();
    let model: String = row.wire_model_id.clone();
    map.insert(provider, model, row);
}

/// Put copies of all rows in, one after the other.
pub fn put_rows(map: &mut PairMap<CatalogOffering>, rows: &Vec<CatalogOffering>)
    requires
        old(map).wf(),
    ensures
        final(map).wf(),
        final(map)@ == with_rows(old(map)@, rows_of(rows@)),
{
    let ghost m = map@;
    let mut i: usize = 0;
    assert(rows_of(rows@).take(0) =~= Seq::<OfferingView>::empty());
    while i < rows.len()
        invariant
            i <= rows.len(),
            map.wf(),
            map@ == with_rows(m, rows_of(rows@).take(i as int)),
        decreases rows.len() - i,
    {
        proof {
            let all = rows_of(rows@);
            assert(all.take(i + 1).drop_last() =~= all.take(i as int));
            assert(all.take(i + 1).last() == rows@[i as int]@);
        }
        put_row(map, rows[i].clone());
        i += 1;
    }
    assert(rows_of(rows@).take(i as int) =~= rows_of(rows@));
}

/// A copy of a list of rows.
pub fn copied_rows(rows: &Vec<CatalogOffering>) -> (r: Vec<CatalogOffering>)
    ensures
        rows_of(r@) == rows_of(rows@),
{
    let mut out: Vec<CatalogOffering> = Vec::new();
    let mut i: usize = 0;
    while i < rows.len()
        invariant
            i <= rows.len(),
            out.len() == i,
            forall|k: int| 0 <= k < i ==> (#[trigger] out@[k])@ == rows@[k]@,
        decreases rows.len() - i,
    {
        out.push(rows[i].clone());
        i += 1;
    }
    assert(rows_of(out@) =~= rows_of(rows@));
    out
}

/// Whether two lists hold the same rows in the same order.
pub fn same_rows(a: &Vec<CatalogOffering>, b: &Vec<CatalogOffering>) -> (r: bool)
    ensures
        r == (rows_of(a@) == rows_of(b@)),
{
    if a.len() != b.len() {
        assert(rows_of(a@).len() != rows_of(b@).len());
        return false;
    }
    let mut i: usize = 0;
    while i < a.len()
        invariant
            i <= a.len(),
            a.len() == b.len(),
            forall|k: int| 0 <= k < i ==> (#[trigger] a@[k])@ == b@[k]@,
        decreases a.len() - i,
    {
        if !same_offering(&a[i], &b[i]) {
            assert(rows_of(a@)[i as int] != rows_of(b@)[i as int]);
            return false;
        }
        i += 1;
    }
    assert(rows_of(a@) =~= rows_of(b@));
    true
}

/// A list of catalog rows.
#[derive(Debug)]
pub struct CatalogSnapshot {
    pub offerings: Vec<CatalogOffering>,
}

impl View for CatalogSnapshot {
    type V = Seq<OfferingView>;

    open spec fn view(&self) -> Seq<OfferingView> {
        rows_of(self.offerings@)
    }
}

impl Clone for CatalogSnapshot {
    fn clone(&self) -> (r: Self)
        ensures
            r@ == self@,
    {
        CatalogSnapshot { offerings: copied_rows(&self.offerings) }
    }
}

impl Default for CatalogSnapshot {
    fn default() -> (r: Self)
        ensures
            r@ == Seq::<OfferingView>::empty(),
    {
        let r = CatalogSnapshot { offerings: Vec::new() };
        assert(r@ =~= Seq::<OfferingView>::empty());
        r
    }
}

/// The rows that a provider id lists, in order.
pub open spec fn rows_for_provider(rows: Seq<OfferingView>, provider: Seq<char>) -> Seq<
    OfferingView,
> {
    rows.filter(|row: OfferingView| row.provider == provider)
}

impl CatalogSnapshot {
    /// The rows that a provider id lists, in order.
    #[must_use]
    pub fn offerings_for_provider(&self, provider: &str) -> (r: Vec<CatalogOffering>)
        ensures
            rows_of(r@) == rows_for_provider(self@, provider@),
    {
        let ghost keep = |row: OfferingView| row.provider == provider@;
        let mut out: Vec<CatalogOffering> = Vec::new();
        let mut i: usize = 0;
        proof {
            lemma_filter_ends(self@, keep);
            assert(rows_of(out@) =~= Seq::<OfferingView>::empty());
        }
        while i < self.offerings.len()
            invariant
                i <= self.offerings.len(),
                keep == (|row: OfferingView| row.provider == provider@),
                rows_of(out@) == self@.take(i as int).filter(keep),
            decreases self.offerings.len() - i,
        {
            proof {
                lemma_filter_step(self@, keep, i as int);
            }
            if same_text(self.offerings[i].provider.as_str(), provider) {
                let ghost before = out@;
                out.push(self.offerings[i].clone());
                assert(rows_of(out@) =~= rows_of(before).push(self@[i as int]));
            }
            i += 1;
        }
        out
    }
}

/// The last row of a key decides what `with_rows` holds under it.
pub proof fn lemma_with_rows(
    m: Map<PairKey, OfferingView>,
    rows: Seq<OfferingView>,
    key: PairKey,
)
    ensures
        with_rows(m, rows).dom().contains(key) <==> m.dom().contains(key) || exists|i: int|
            0 <= i < rows.len() && row_key(#[trigger] rows[i]) == key,
        (forall|i: int| 0 <= i < rows.len() ==> row_key(#[trigger] rows[i]) != key)
            && m.dom().contains(key) ==> with_rows(m, rows)[key] == m[key],
        (exists|i: int| 0 <= i < rows.len() && row_key(#[trigger] rows[i]) == key) ==> exists|
            i: int,
        |
            0 <= i < rows.len() && #[trigger] rows[i] == with_rows(m, rows)[key] && row_key(rows[i])
                == key,
    decreases rows.len(),
{
    if rows.len() > 0 {
        let init = rows.drop_last();
        lemma_with_rows(m, init, key);
        let n = rows.len() - 1;
        assert(rows[n] == rows.last());
        assert forall|i: int| 0 <= i < n implies init[i] == #[trigger] rows[i] by {}
        if row_key(rows.last()) == key {
            assert(with_rows(m, rows)[key] == rows[n]);
        } else {
            if exists|i: int| 0 <= i < init.len() && row_key(#[trigger] init[i]) == key {
                let i = choose|i: int|
                    0 <= i < init.len() && #[trigger] init[i] == with_rows(m, init)[key]
                        && row_key(init[i]) == key;
                assert(rows[i] == init[i]);
            }
            if exists|i: int| 0 <= i < rows.len() && row_key(#[trigger] rows[i]) == key {
                let i = choose|i: int| 0 <= i < rows.len() && row_key(#[trigger] rows[i]) == key;
                assert(init[i] == rows[i]);
            }
        }
    }
}

/// Whether every row of a map stands under its own key.
pub open spec fn self_keyed(m: Map<PairKey, OfferingView>) -> bool {
    forall|key: PairKey| #[trigger] m.dom().contains(key) ==> row_key(m[key]) == key
}

/// Putting rows in keeps a map finite and its rows under their own keys.
pub proof fn lemma_with_rows_keyed(m: Map<PairKey, OfferingView>, rows: Seq<OfferingView>)
    requires
        m.dom().finite(),
        self_keyed(m),
    ensures
        with_rows(m, rows).dom().finite(),
        self_keyed(with_rows(m, rows)),
    decreases rows.len(),
{
    if rows.len() > 0 {
        lemma_with_rows_keyed(m, rows.drop_last());
    }
}

} // verus!
