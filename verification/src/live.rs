//! Live catalog rows, partitioned by the source that owns them.
//!
//! Models.dev and every provider fetch maintain distinct partitions. A
//! Models.dev refresh replaces only the Models.dev rows; a provider refresh
//! replaces only the rows of that provider.

use vstd::prelude::*;
use crate::api_provider::{
    api_id, api_named, catalog_id, catalog_id_for_identity, catalog_partition_key,
    catalog_provider_id, catalog_provider_id_for_identity, optional_str, ApiProvider,
};
use crate::lists::{lemma_filter_ends, lemma_filter_step};
use crate::offering::{
    put_rows, row_key, rows_of, same_rows, with_rows, CatalogOffering, CatalogSnapshot,
    OfferingView,
};
use crate::pair_map::{
    lemma_keys_in_order, lemma_take_push, lists_keys, values_in_order, PairEntry, PairKey, PairMap,
};
use crate::text::{same_text, trim, trimmed};

verus! {

broadcast use vstd::string::group_string_axioms;

/// How OpenCode Go serves one wire model id.
#[derive(Debug)]
pub struct GoModel {
    /// The id under which a catalog may list the model.
    pub wire_model_id: String,
    /// The id under which the service answers.
    pub canonical: String,
    /// The protocol that the service speaks for the model.
    pub endpoint_key: String,
}

/// The documented OpenCode Go roster. A wire model id without an entry is not
/// served.
#[derive(Debug)]
pub struct GoRoster {
    pub models: Vec<GoModel>,
}

/// The mathematical view of a [`GoModel`].
#[verifier::ext_equal]
pub struct GoModelView {
    pub wire_model_id: Seq<char>,
    pub canonical: Seq<char>,
    pub endpoint_key: Seq<char>,
}

impl View for GoModel {
    type V = GoModelView;

    open spec fn view(&self) -> GoModelView {
        GoModelView {
            wire_model_id: self.wire_model_id@,
            canonical: self.canonical@,
            endpoint_key: self.endpoint_key@,
        }
    }
}

impl View for GoRoster {
    type V = Seq<GoModelView>;

    open spec fn view(&self) -> Seq<GoModelView> {
        self.models@.map_values(|m: GoModel| m@)
    }
}

/// The first entry of a roster for a wire model id.
pub open spec fn go_entry(go: Seq<GoModelView>, wire_model_id: Seq<char>) -> Option<GoModelView>
    decreases go.len(),
{
    if go.len() == 0 {
        None
    } else if go[0].wire_model_id == wire_model_id {
        Some(go[0])
    } else {
        go_entry(go.drop_first(), wire_model_id)
    }
}

/// A row as its provider's wire protocol allows it. A row of OpenCode Go takes
/// the id and the protocol of the documented roster, and is dropped when the
/// roster has no entry for it; every other row stays as it is.
pub open spec fn cut_row(row: OfferingView, go: Seq<GoModelView>) -> Option<OfferingView> {
    if api_named(row.provider) == Some(ApiProvider::OpencodeGo) {
        match go_entry(go, row.wire_model_id) {
            Some(model) => Some(
                OfferingView {
                    provider: api_id(ApiProvider::OpencodeGo),
                    wire_model_id: model.canonical,
                    endpoint_key: model.endpoint_key,
                    ..row
                },
            ),
            None => None,
        }
    } else {
        Some(row)
    }
}

/// The rows that [`cut_row`] leaves, in order.
pub open spec fn cut_rows(rows: Seq<OfferingView>, go: Seq<GoModelView>) -> Seq<OfferingView>
    decreases rows.len(),
{
    if rows.len() == 0 {
        Seq::empty()
    } else {
        let init = cut_rows(rows.drop_last(), go);
        match cut_row(rows.last(), go) {
            Some(row) => init.push(row),
            None => init,
        }
    }
}

impl GoRoster {
    /// The first entry for a wire model id.
    pub fn find(&self, wire_model_id: &str) -> (r: Option<&GoModel>)
        ensures
            match r {
                Some(m) => go_entry(self@, wire_model_id@) == Some(m@),
                None => go_entry(self@, wire_model_id@) is None,
            },
    {
        let mut i: usize = 0;
        assert(self@.skip(0) =~= self@);
        while i < self.models.len()
            invariant
                i <= self.models.len(),
                go_entry(self@, wire_model_id@) == go_entry(self@.skip(i as int), wire_model_id@),
            decreases self.models.len() - i,
        {
            assert(self@.skip(i as int)[0] == self.models@[i as int]@);
            if same_text(self.models[i].wire_model_id.as_str(), wire_model_id) {
                return Some(&self.models[i]);
            }
            assert(self@.skip(i as int).drop_first() =~= self@.skip(i + 1));
            i += 1;
        }
        None
    }
}

/// Remove catalog rows that cannot use the selected provider's wire protocol.
///
/// OpenCode Go publishes one roster for several protocols. Its rows, saved and
/// live, are kept on the documented protocol roster, which corrects stale
/// endpoint metadata.
pub fn apply_provider_model_cutlines(
    snapshot: CatalogSnapshot,
    go: &GoRoster,
) -> (r: CatalogSnapshot)
    ensures
        r@ == cut_rows(snapshot@, go@),
{
    let ghost all = snapshot@;
    let mut out: Vec<CatalogOffering> = Vec::new();
    assert(all.take(0) =~= Seq::<OfferingView>::empty());
    assert(rows_of(out@) =~= Seq::<OfferingView>::empty());
    for row in it: snapshot.offerings
        invariant
            rows_of(it.seq()) == all,
            rows_of(out@) == cut_rows(all.take(it.index() as int), go@),
    {
        let ghost before = out@;
        let ghost i = it.index() as int;
        proof {
            assert(all[i] == row@);
            assert(all.take(i + 1).drop_last() =~= all.take(i));
            assert(all.take(i + 1).last() == row@);
        }
        let served_by_go: bool = match ApiProvider::parse(row.provider.as_str()) {
            Some(ApiProvider::OpencodeGo) => true,
            _ => false,
        };
        if served_by_go {
            if let Some(model) = go.find(row.wire_model_id.as_str()) {
                let cut = CatalogOffering {
                    provider: ApiProvider::OpencodeGo.as_str().to_owned(),
                    wire_model_id: model.canonical.clone(),
                    endpoint_key: model.endpoint_key.clone(),
                    ..row
                };
                let ghost view = cut@;
                out.push(cut);
                assert(rows_of(out@) =~= rows_of(before).push(view));
            }
        } else {
            out.push(row);
            assert(rows_of(out@) =~= rows_of(before).push(all[i]));
        }
    }
    assert(all.take(all.len() as int) =~= all);
    CatalogSnapshot { offerings: out }
}

/// The source of live catalog rows.
#[derive(Debug, Clone, Copy, PartialEq, Eq, Structural)]
pub enum LiveSource {
    /// The cross-provider Models.dev catalog refresh.
    ModelsDev,
    /// A per-provider model listing refresh.
    PerProvider,
}

/// Ownership key for one provider-owned live roster.
///
/// The key carries the route kind beside the identity, so an exact custom table
/// named like a built-in provider cannot overwrite, suppress or borrow the
/// built-in partition.
#[derive(Debug)]
pub enum LivePartitionOwner {
    BuiltIn(String),
    Custom(String),
}

/// The mathematical view of a [`LivePartitionOwner`].
#[verifier::ext_equal]
pub enum OwnerView {
    BuiltIn(Seq<char>),
    Custom(Seq<char>),
}

impl View for LivePartitionOwner {
    type V = OwnerView;

    open spec fn view(&self) -> OwnerView {
        match *self {
            LivePartitionOwner::BuiltIn(identity) => OwnerView::BuiltIn(identity@),
            LivePartitionOwner::Custom(identity) => OwnerView::Custom(identity@),
        }
    }
}

/// The identity of an owner.
pub open spec fn owner_identity(owner: OwnerView) -> Seq<char> {
    match owner {
        OwnerView::BuiltIn(identity) => identity,
        OwnerView::Custom(identity) => identity,
    }
}

/// The storage key of an owner: its class, then its identity. Built-in owners
/// come before custom ones.
pub open spec fn owner_key(owner: OwnerView) -> PairKey {
    match owner {
        OwnerView::BuiltIn(identity) => ("built-in"@, identity),
        OwnerView::Custom(identity) => ("custom"@, identity),
    }
}

/// The owner of the live roster of a concrete route.
pub open spec fn route_owner(provider: ApiProvider, identity: Option<Seq<char>>) -> OwnerView {
    let name = trim(catalog_id_for_identity(provider, identity));
    if provider == ApiProvider::Custom {
        OwnerView::Custom(name)
    } else {
        OwnerView::BuiltIn(name)
    }
}

/// The owner that a provider string alone implies: a name that denotes a
/// built-in provider belongs to that provider, any other name to itself.
pub open spec fn inferred_owner(provider: Seq<char>) -> OwnerView {
    match api_named(trim(provider)) {
        Some(p) => OwnerView::BuiltIn(trim(catalog_id(p))),
        None => OwnerView::Custom(trim(provider)),
    }
}

impl LivePartitionOwner {
    /// The identity of this owner.
    pub fn identity(&self) -> (r: &str)
        ensures
            r@ == owner_identity(self@),
    {
        match self {
            LivePartitionOwner::BuiltIn(identity) => identity.as_str(),
            LivePartitionOwner::Custom(identity) => identity.as_str(),
        }
    }

    /// The class of this owner, the first half of its storage key.
    fn class(&self) -> (r: &'static str)
        ensures
            r@ == owner_key(self@).0,
    {
        match self {
            LivePartitionOwner::BuiltIn(_) => "built-in",
            LivePartitionOwner::Custom(_) => "custom",
        }
    }
}

/// The owner of the live roster of a concrete route.
pub fn live_partition_owner_for_route(
    provider: ApiProvider,
    provider_identity: Option<&str>,
) -> (r: LivePartitionOwner)
    ensures
        r@ == route_owner(provider, optional_str(provider_identity)),
{
    let identity: String = catalog_provider_id_for_identity(provider, provider_identity);
    if provider == ApiProvider::Custom {
        LivePartitionOwner::Custom(catalog_partition_key(identity.as_str()))
    } else {
        LivePartitionOwner::BuiltIn(catalog_partition_key(identity.as_str()))
    }
}

/// The owner that a provider string alone implies.
pub fn inferred_live_partition_owner(provider: &str) -> (r: LivePartitionOwner)
    ensures
        r@ == inferred_owner(provider@),
{
    let identity: String = catalog_partition_key(provider);
    match ApiProvider::parse(identity.as_str()) {
        Some(p) => LivePartitionOwner::BuiltIn(catalog_partition_key(catalog_provider_id(p))),
        None => LivePartitionOwner::Custom(identity),
    }
}

/// `row` under the identity of its owner.
pub open spec fn owned_row(row: OfferingView, identity: Seq<char>) -> OfferingView {
    OfferingView { provider: identity, ..row }
}

/// The rows under `key` in a grouping, none when it has none.
pub open spec fn group_of(
    groups: Map<PairKey, Seq<OfferingView>>,
    key: PairKey,
) -> Seq<OfferingView> {
    if groups.dom().contains(key) {
        groups[key]
    } else {
        Seq::empty()
    }
}

/// Rows grouped by the owner that their provider string implies, each under
/// that owner's identity, in order.
pub open spec fn grouped_rows(rows: Seq<OfferingView>) -> Map<PairKey, Seq<OfferingView>>
    decreases rows.len(),
{
    if rows.len() == 0 {
        Map::empty()
    } else {
        let groups = grouped_rows(rows.drop_last());
        let owner = inferred_owner(rows.last().provider);
        let key = owner_key(owner);
        groups.insert(
            key,
            group_of(groups, key).push(owned_row(rows.last(), owner_identity(owner))),
        )
    }
}

/// Group rows by the owner that their provider string implies.
pub fn offerings_by_provider(offerings: Vec<CatalogOffering>) -> (r: PairMap<CatalogSnapshot>)
    ensures
        r.wf(),
        r@ == grouped_rows(rows_of(offerings@)),
{
    let ghost all = rows_of(offerings@);
    let mut groups: PairMap<CatalogSnapshot> = PairMap::new();
    assert(all.take(0) =~= Seq::<OfferingView>::empty());
    for row in it: offerings
        invariant
            rows_of(it.seq()) == all,
            groups.wf(),
            groups@ == grouped_rows(all.take(it.index() as int)),
    {
        let ghost i = it.index() as int;
        proof {
            assert(all[i] == row@);
            assert(all.take(i + 1).drop_last() =~= all.take(i));
            assert(all.take(i + 1).last() == row@);
        }
        let owner: LivePartitionOwner = inferred_live_partition_owner(row.provider.as_str());
        let identity: String = owner.identity().to_owned();
        let mut snapshot: CatalogSnapshot = match groups.remove(owner.class(), owner.identity()) {
            Some(s) => s,
            None => CatalogSnapshot::default(),
        };
        let ghost before = snapshot@;
        let owned = CatalogOffering { provider: identity, ..row };
        let ghost view = owned@;
        snapshot.offerings.push(owned);
        assert(snapshot@ =~= before.push(view));
        let class: String = owner.class().to_owned();
        let name: String = owner.identity().to_owned();
        let ghost old_groups = grouped_rows(all.take(i));
        groups.insert(class, name, snapshot);
        assert(groups@ =~= grouped_rows(all.take(i + 1)));
    }
    assert(all.take(all.len() as int) =~= all);
    groups
}

/// The rows that belong to an identity, each under that identity exactly.
pub open spec fn rows_owned_by(rows: Seq<OfferingView>, identity: Seq<char>) -> Seq<OfferingView> {
    rows.filter(|row: OfferingView| trim(row.provider) == identity).map_values(
        |row: OfferingView| owned_row(row, identity),
    )
}

/// A partition after new rows were merged into it: one row per wire model id,
/// in order, the last one given.
pub open spec fn merged_partition(
    existing: Seq<OfferingView>,
    new_rows: Seq<OfferingView>,
) -> Seq<OfferingView> {
    values_in_order(with_rows(with_rows(Map::empty(), existing), new_rows))
}

/// The mathematical view of the live partitions.
#[verifier::ext_equal]
pub struct LiveView {
    pub models_dev: Option<Seq<OfferingView>>,
    pub per_provider: Map<PairKey, Seq<OfferingView>>,
}

/// Whether each provider partition holds rows, all of them under the identity of
/// its owner.
pub open spec fn partitions_own_their_rows(per_provider: Map<PairKey, Seq<OfferingView>>) -> bool {
    forall|key: PairKey| #[trigger]
        per_provider.dom().contains(key) ==> per_provider[key].len() > 0 && forall|i: int|
            0 <= i < per_provider[key].len() ==> (#[trigger] per_provider[key][i]).provider
                == key.1
}

/// The live partitions after a snapshot was set for a source.
pub open spec fn live_after_set(
    live: LiveView,
    rows: Seq<OfferingView>,
    source: LiveSource,
    go: Seq<GoModelView>,
) -> LiveView {
    match source {
        LiveSource::ModelsDev => LiveView { models_dev: Some(cut_rows(rows, go)), ..live },
        LiveSource::PerProvider => LiveView {
            per_provider: live.per_provider.union_prefer_right(
                grouped_rows(cut_rows(rows, go)),
            ),
            ..live
        },
    }
}

/// The rows that a replacement of one partition puts in.
pub open spec fn replacement_rows(
    owner: OwnerView,
    rows: Seq<OfferingView>,
    go: Seq<GoModelView>,
) -> Seq<OfferingView> {
    rows_owned_by(
        if owner is Custom {
            rows
        } else {
            cut_rows(rows, go)
        },
        owner_identity(owner),
    )
}

/// The live partitions after one partition was replaced.
pub open spec fn live_after_replace(
    live: LiveView,
    owner: OwnerView,
    rows: Seq<OfferingView>,
    go: Seq<GoModelView>,
) -> LiveView {
    let kept = replacement_rows(owner, rows, go);
    LiveView {
        per_provider: if kept.len() == 0 {
            live.per_provider.remove(owner_key(owner))
        } else {
            live.per_provider.insert(owner_key(owner), kept)
        },
        ..live
    }
}

/// The live partitions after new rows were merged in.
pub open spec fn live_after_merge(live: LiveView, rows: Seq<OfferingView>) -> LiveView {
    let groups = grouped_rows(rows);
    LiveView {
        per_provider: Map::new(
            |key: PairKey|
                live.per_provider.dom().contains(key) || groups.dom().contains(key),
            |key: PairKey|
                if groups.dom().contains(key) {
                    merged_partition(group_of(live.per_provider, key), groups[key])
                } else {
                    live.per_provider[key]
                },
        ),
        ..live
    }
}

/// One Models.dev snapshot and one snapshot per provider-owned live roster.
pub struct LiveSnapshotPartitions {
    models_dev: Option<CatalogSnapshot>,
    per_provider: PairMap<CatalogSnapshot>,
}

impl View for LiveSnapshotPartitions {
    type V = LiveView;

    closed spec fn view(&self) -> LiveView {
        LiveView {
            models_dev: match self.models_dev {
                Some(s) => Some(s@),
                None => None,
            },
            per_provider: self.per_provider@,
        }
    }
}

proof fn lemma_cut_rows_len(rows: Seq<OfferingView>)
    ensures
        grouped_rows(rows) == Map::<PairKey, Seq<OfferingView>>::empty() <==> rows.len() == 0,
        partitions_own_their_rows(grouped_rows(rows)),
        grouped_rows(rows).dom().finite(),
    decreases rows.len(),
{
    if rows.len() > 0 {
        lemma_cut_rows_len(rows.drop_last());
        let groups = grouped_rows(rows.drop_last());
        let owner = inferred_owner(rows.last().provider);
        let key = owner_key(owner);
        assert(grouped_rows(rows).dom().contains(key));
        assert forall|k: PairKey| #[trigger] grouped_rows(rows).dom().contains(k) implies
            grouped_rows(rows)[k].len() > 0 && forall|i: int|
            0 <= i < grouped_rows(rows)[k].len() ==> (#[trigger] grouped_rows(
                rows,
            )[k][i]).provider == k.1 by {
            if k == key {
                let g = group_of(groups, key);
                assert forall|i: int| 0 <= i < grouped_rows(rows)[k].len() implies (
                #[trigger] grouped_rows(rows)[k][i]).provider == k.1 by {
                    if i < g.len() {
                        assert(groups.dom().contains(key));
                        assert(grouped_rows(rows)[k][i] == groups[key][i]);
                    }
                }
            } else {
                assert(groups.dom().contains(k));
            }
        }
    }
}

proof fn lemma_values_of_one_provider(
    m: Map<PairKey, OfferingView>,
    keys: Seq<PairKey>,
    identity: Seq<char>,
)
    requires
        lists_keys(m, keys),
        forall|k: PairKey| #[trigger] m.dom().contains(k) ==> m[k].provider == identity,
        exists|k: PairKey| m.dom().contains(k),
    ensures
        values_in_order(m).len() > 0,
        forall|i: int|
            0 <= i < values_in_order(m).len() ==> (#[trigger] values_in_order(m)[i]).provider
                == identity,
{
    lemma_keys_in_order(m, keys);
    let k = choose|k: PairKey| m.dom().contains(k);
    assert(keys.contains(k));
    assert forall|i: int| 0 <= i < values_in_order(m).len() implies (#[trigger] values_in_order(
        m,
    )[i]).provider == identity by {
        assert(keys.contains(keys[i]));
        assert(m.dom().contains(keys[i]));
    }
}

proof fn lemma_with_rows_provider(
    m: Map<PairKey, OfferingView>,
    rows: Seq<OfferingView>,
    identity: Seq<char>,
)
    requires
        forall|k: PairKey| #[trigger] m.dom().contains(k) ==> m[k].provider == identity,
        forall|i: int| 0 <= i < rows.len() ==> (#[trigger] rows[i]).provider == identity,
    ensures
        forall|k: PairKey| #[trigger]
            with_rows(m, rows).dom().contains(k) ==> with_rows(m, rows)[k].provider == identity,
        rows.len() > 0 ==> with_rows(m, rows).dom().contains(row_key(rows.last())),
    decreases rows.len(),
{
    if rows.len() > 0 {
        let init = rows.drop_last();
        assert forall|i: int| 0 <= i < init.len() implies (#[trigger] init[i]).provider
            == identity by {
            assert(init[i] == rows[i]);
        }
        lemma_with_rows_provider(m, init, identity);
    }
}

impl LiveSnapshotPartitions {
    /// The partitions are well-formed: each provider partition holds rows, all
    /// of them under the identity of its owner.
    pub closed spec fn wf(&self) -> bool {
        self.per_provider.wf() && partitions_own_their_rows(self.per_provider@)
    }

    /// There are finitely many provider partitions, and each holds rows, all of
    /// them under the identity of its owner.
    pub proof fn rows_belong_to_their_partition(&self)
        requires
            self.wf(),
        ensures
            partitions_own_their_rows(self@.per_provider),
            self@.per_provider.dom().finite(),
    {
        self.per_provider.lemma_contents();
    }

    /// There is a provider partition exactly when the list of partitions is not
    /// empty.
    pub proof fn lemma_no_partitions(&self)
        requires
            self.wf(),
        ensures
            forall|m: PairMap<CatalogSnapshot>|
                m.wf() && #[trigger] m@ == self@.per_provider ==> (m.keys().len() == 0
                    <==> self@.per_provider.dom() =~= Set::<PairKey>::empty()),
    {
        assert forall|m: PairMap<CatalogSnapshot>|
            m.wf() && #[trigger] m@ == self@.per_provider implies (m.keys().len() == 0
            <==> self@.per_provider.dom() =~= Set::<PairKey>::empty()) by {
            m.lemma_contents();
            if m.keys().len() > 0 {
                assert(m@.dom().contains(m.keys()[0]));
            }
        }
    }

    /// No live rows at all.
    pub fn new() -> (r: Self)
        ensures
            r.wf(),
            r@ == (LiveView { models_dev: None, per_provider: Map::empty() }),
    {
        LiveSnapshotPartitions { models_dev: None, per_provider: PairMap::new() }
    }

    /// The Models.dev rows.
    pub fn models_dev(&self) -> (r: Option<&CatalogSnapshot>)
        ensures
            match r {
                Some(s) => self@.models_dev == Some(s@),
                None => self@.models_dev is None,
            },
    {
        match &self.models_dev {
            Some(s) => Some(s),
            None => None,
        }
    }

    /// The rows of one provider partition.
    pub fn partition(&self, owner: &LivePartitionOwner) -> (r: Option<&CatalogSnapshot>)
        requires
            self.wf(),
        ensures
            match r {
                Some(s) => self@.per_provider.dom().contains(owner_key(owner@))
                    && self@.per_provider[owner_key(owner@)] == s@,
                None => !self@.per_provider.dom().contains(owner_key(owner@)),
            },
    {
        self.per_provider.get(owner.class(), owner.identity())
    }

    /// All provider partitions.
    pub fn partitions(&self) -> (r: &PairMap<CatalogSnapshot>)
        requires
            self.wf(),
        ensures
            r.wf(),
            r@ == self@.per_provider,
    {
        &self.per_provider
    }

    /// Set the live rows of a source. Answers whether anything was replaced.
    ///
    /// A Models.dev refresh replaces only the Models.dev rows; a per-provider
    /// refresh replaces only the partitions of the providers that its rows name.
    pub fn set(&mut self, snapshot: CatalogSnapshot, source: LiveSource, go: &GoRoster) -> (r: bool)
        requires
            old(self).wf(),
        ensures
            final(self).wf(),
            final(self)@ == live_after_set(old(self)@, snapshot@, source, go@),
            r == (source == LiveSource::ModelsDev || cut_rows(snapshot@, go@).len() > 0),
            !r ==> final(self)@ == old(self)@,
    {
        let cut: CatalogSnapshot = apply_provider_model_cutlines(snapshot, go);
        match source {
            LiveSource::ModelsDev => {
                self.models_dev = Some(cut);
                true
            },
            LiveSource::PerProvider => {
                let ghost rows = cut@;
                let ghost start = self.per_provider@;
                let groups: PairMap<CatalogSnapshot> = offerings_by_provider(cut.offerings);
                proof {
                    lemma_cut_rows_len(rows);
                    groups.lemma_contents();
                }
                let mut i: usize = 0;
                while i < groups.len()
                    invariant
                        i <= groups.keys().len(),
                        groups.wf(),
                        groups@ == grouped_rows(rows),
                        self.per_provider.wf(),
                        self.models_dev == old(self).models_dev,
                        forall|k: PairKey| #[trigger]
                            self.per_provider@.dom().contains(k) <==> start.dom().contains(k)
                                || groups.keys().take(i as int).contains(k),
                        forall|k: PairKey|
                            #![trigger self.per_provider@[k]]
                            self.per_provider@.dom().contains(k) ==> self.per_provider@[k] == (
                            if groups.keys().take(i as int).contains(k) {
                                groups@[k]
                            } else {
                                start[k]
                            }),
                    decreases groups.keys().len() - i,
                {
                    let e: &PairEntry<CatalogSnapshot> = groups.entry(i);
                    let ghost keys = groups.keys();
                    let ghost before = self.per_provider@;
                    proof {
                        groups.lemma_contents();
                        lemma_take_push(keys, i as int);
                    }
                    self.per_provider.insert(e.first.clone(), e.second.clone(), e.value.clone());
                    assert(self.per_provider@ =~= before.insert(keys[i as int], groups@[keys[i as int]]));
                    i += 1;
                }
                proof {
                    groups.lemma_contents();
                    assert(groups.keys().take(i as int) =~= groups.keys());
                    assert(self.per_provider@ =~= start.union_prefer_right(grouped_rows(rows)));
                }
                groups.len() > 0
            },
        }
    }

    /// Replace one provider partition, with no rows too. Answers whether it
    /// changed.
    pub fn replace(
        &mut self,
        owner: &LivePartitionOwner,
        snapshot: CatalogSnapshot,
        go: &GoRoster,
    ) -> (r: bool)
        requires
            old(self).wf(),
        ensures
            final(self).wf(),
            final(self)@ == live_after_replace(old(self)@, owner@, snapshot@, go@),
            r == (final(self)@ != old(self)@),
    {
        let ghost given = snapshot@;
        let ghost key = owner_key(owner@);
        let ghost start = self.per_provider@;
        let custom: bool = match owner {
            LivePartitionOwner::Custom(_) => true,
            LivePartitionOwner::BuiltIn(_) => false,
        };
        let admitted: CatalogSnapshot = if custom {
            snapshot
        } else {
            apply_provider_model_cutlines(snapshot, go)
        };
        let kept: Vec<CatalogOffering> = retained_rows(admitted.offerings, owner.identity());
        let ghost rows = replacement_rows(owner@, given, go@);
        proof {
            assert(rows_of(kept@) == rows);
            lemma_owned_provider(
                if owner@ is Custom {
                    given
                } else {
                    cut_rows(given, go@)
                },
                owner_identity(owner@),
            );
        }
        let previous: Option<CatalogSnapshot> = self.per_provider.remove(
            owner.class(),
            owner.identity(),
        );
        let changed: bool = match &previous {
            Some(p) => !same_rows(&p.offerings, &kept),
            None => kept.len() > 0,
        };
        proof {
            if previous is Some && rows.len() == 0 {
                assert(start[key].len() > 0);
            }
        }
        if kept.len() > 0 {
            let class: String = owner.class().to_owned();
            let name: String = owner.identity().to_owned();
            let next = CatalogSnapshot { offerings: kept };
            self.per_provider.insert(class, name, next);
            assert(self.per_provider@ =~= start.insert(key, rows));
            proof {
                if !changed {
                    assert(self.per_provider@ =~= start);
                } else {
                    assert(self.per_provider@.dom().contains(key));
                    if start.dom().contains(key) {
                        assert(self.per_provider@[key] != start[key]);
                    }
                }
            }
        } else {
            assert(self.per_provider@ =~= start.remove(key));
            proof {
                if !changed {
                    assert(self.per_provider@ =~= start);
                }
            }
        }
        changed
    }

    /// Drop every live row.
    pub fn clear(&mut self)
        ensures
            final(self).wf(),
            final(self)@ == (LiveView { models_dev: None, per_provider: Map::empty() }),
    {
        self.models_dev = None;
        self.per_provider = PairMap::new();
    }

    /// Merge rows into the partitions of the providers that they name, by wire
    /// model id.
    pub fn merge(&mut self, new_offerings: Vec<CatalogOffering>)
        requires
            old(self).wf(),
        ensures
            final(self).wf(),
            final(self)@ == live_after_merge(old(self)@, rows_of(new_offerings@)),
    {
        let ghost rows = rows_of(new_offerings@);
        let ghost start = self.per_provider@;
        let ghost start_live = self@;
        let groups: PairMap<CatalogSnapshot> = offerings_by_provider(new_offerings);
        proof {
            lemma_cut_rows_len(rows);
            groups.lemma_contents();
        }
        let mut i: usize = 0;
        while i < groups.len()
            invariant
                i <= groups.keys().len(),
                groups.wf(),
                groups@ == grouped_rows(rows),
                self.per_provider.wf(),
                self.models_dev == old(self).models_dev,
                partitions_own_their_rows(start),
                partitions_own_their_rows(groups@),
                forall|k: PairKey| #[trigger]
                    self.per_provider@.dom().contains(k) <==> start.dom().contains(k)
                        || groups.keys().take(i as int).contains(k),
                forall|k: PairKey|
                    #![trigger self.per_provider@[k]]
                    self.per_provider@.dom().contains(k) ==> self.per_provider@[k] == (
                    if groups.keys().take(i as int).contains(k) {
                        merged_partition(group_of(start, k), groups@[k])
                    } else {
                        start[k]
                    }),
                partitions_own_their_rows(self.per_provider@),
            decreases groups.keys().len() - i,
        {
            let e: &PairEntry<CatalogSnapshot> = groups.entry(i);
            let ghost keys = groups.keys();
            let ghost key = keys[i as int];
            let ghost before = self.per_provider@;
            proof {
                groups.lemma_contents();
                lemma_take_push(keys, i as int);
                assert(!keys.take(i as int).contains(key)) by {
                    if keys.take(i as int).contains(key) {
                        let j = choose|j: int|
                            0 <= j < i && keys.take(i as int)[j] == key;
                        assert(keys[j] == keys[i as int]);
                    }
                }
                if before.dom().contains(key) {
                    assert(before[key] == start[key]);
                }
            }
            let existing: CatalogSnapshot = match self.per_provider.remove(
                e.first.as_str(),
                e.second.as_str(),
            ) {
                Some(s) => s,
                None => CatalogSnapshot::default(),
            };
            assert(existing@ =~= group_of(start, key));
            let mut merged: PairMap<CatalogOffering> = PairMap::new();
            put_rows(&mut merged, &existing.offerings);
            put_rows(&mut merged, &e.value.offerings);
            proof {
                merged.lemma_contents();
                lemma_with_rows_provider(Map::empty(), existing@, key.1);
                lemma_with_rows_provider(
                    with_rows(Map::empty(), existing@),
                    e.value@,
                    key.1,
                );
                assert(merged@.dom().contains(row_key(e.value@.last())));
                lemma_values_of_one_provider(merged@, merged.keys(), key.1);
            }
            let ghost view = merged@;
            let next = CatalogSnapshot { offerings: merged.into_values() };
            assert(next@ =~= values_in_order(view));
            self.per_provider.insert(e.first.clone(), e.second.clone(), next);
            proof {
                assert(self.per_provider@ =~= before.insert(
                    key,
                    merged_partition(group_of(start, key), groups@[key]),
                ));
            }
            i += 1;
        }
        proof {
            groups.lemma_contents();
            assert(groups.keys().take(i as int) =~= groups.keys());
            assert(self.per_provider@ =~= live_after_merge(start_live, rows).per_provider);
        }
    }
}

proof fn lemma_owned_provider(rows: Seq<OfferingView>, identity: Seq<char>)
    ensures
        forall|i: int|
            0 <= i < rows_owned_by(rows, identity).len() ==> (#[trigger] rows_owned_by(
                rows,
                identity,
            )[i]).provider == identity,
{
}

/// The rows that belong to an identity, each under that identity exactly.
fn retained_rows(offerings: Vec<CatalogOffering>, identity: &str) -> (r: Vec<CatalogOffering>)
    ensures
        rows_of(r@) == rows_owned_by(rows_of(offerings@), identity@),
{
    let ghost all = rows_of(offerings@);
    let ghost keep = |row: OfferingView| trim(row.provider) == identity@;
    let ghost own = |row: OfferingView| owned_row(row, identity@);
    let mut out: Vec<CatalogOffering> = Vec::new();
    proof {
        lemma_filter_ends(all, keep);
        assert(rows_of(out@) =~= all.take(0).filter(keep).map_values(own));
    }
    for row in it: offerings
        invariant
            rows_of(it.seq()) == all,
            keep == (|row: OfferingView| trim(row.provider) == identity@),
            own == (|row: OfferingView| owned_row(row, identity@)),
            rows_of(out@) == all.take(it.index() as int).filter(keep).map_values(own),
    {
        let ghost i = it.index() as int;
        let ghost before = out@;
        proof {
            assert(all[i] == row@);
            lemma_filter_step(all, keep, i);
        }
        if same_text(trimmed(row.provider.as_str()), identity) {
            let owned = CatalogOffering { provider: identity.to_owned(), ..row };
            let ghost view = owned@;
            out.push(owned);
            proof {
                assert(rows_of(out@) =~= rows_of(before).push(view));
                assert(all.take(i + 1).filter(keep).map_values(own) =~= all.take(i).filter(
                    keep,
                ).map_values(own).push(own(all[i])));
            }
        }
    }
    assert(all.take(all.len() as int) =~= all);
    out
}

} // verus!
