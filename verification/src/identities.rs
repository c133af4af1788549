//! The provider identities that a catalog command works on.

use vstd::prelude::*;
use crate::api_provider::ApiProvider;
use crate::order::{
    ahead, as_ints, is_sorted_order, lemma_sorted_order_has_every_position, no_ranks,
    sorted_order, sorted_order_exists, sorted_positions,
};
use crate::text::{precedes, same_text, texts, text_order_is_strict_and_total};

verus! {

/// One provider route by name.
#[derive(Debug)]
pub struct ProviderIdentity {
    pub provider: ApiProvider,
    pub key: String,
}

/// The mathematical view of a [`ProviderIdentity`].
#[verifier::ext_equal]
pub struct IdentityView {
    pub provider: ApiProvider,
    pub key: Seq<char>,
}

impl View for ProviderIdentity {
    type V = IdentityView;

    open spec fn view(&self) -> IdentityView {
        IdentityView { provider: self.provider, key: self.key@ }
    }
}

impl Clone for ProviderIdentity {
    fn clone(&self) -> (r: Self)
        ensures
            r@ == self@,
    {
        ProviderIdentity { provider: self.provider, key: self.key.clone() }
    }
}

/// Whether two identities are the same.
#[must_use]
pub fn same_identity(a: &ProviderIdentity, b: &ProviderIdentity) -> (r: bool)
    ensures
        r == (a@ == b@),
{
    a.provider == b.provider && same_text(a.key.as_str(), b.key.as_str())
}

/// What the configuration makes of a name: an identity, or why there is none.
#[derive(Debug)]
pub enum ResolvedIdentity {
    Known(ProviderIdentity),
    Unknown(String),
}

/// The mathematical view of a [`ResolvedIdentity`].
#[verifier::ext_equal]
pub enum ResolvedView {
    Known(IdentityView),
    Unknown(Seq<char>),
}

impl View for ResolvedIdentity {
    type V = ResolvedView;

    open spec fn view(&self) -> ResolvedView {
        match *self {
            ResolvedIdentity::Known(identity) => ResolvedView::Known(identity@),
            ResolvedIdentity::Unknown(error) => ResolvedView::Unknown(error@),
        }
    }
}

/// A configured provider with its active identity.
#[derive(Debug)]
pub struct ConfiguredIdentity {
    pub provider: ApiProvider,
    pub identity: ResolvedIdentity,
}

/// A custom provider table.
#[derive(Debug)]
pub struct CustomTable {
    /// Whether the table declares a compatible endpoint.
    pub openai_compatible: bool,
    pub identity: ResolvedIdentity,
}

/// A list of identities, or the first reason why one of them is unknown.
#[verifier::ext_equal]
pub enum Gathered {
    All(Seq<IdentityView>),
    Stopped(Seq<char>),
}

/// `list` with one more identity, unless it is unknown.
pub open spec fn gather(list: Gathered, next: ResolvedView) -> Gathered {
    match list {
        Gathered::All(ids) => match next {
            ResolvedView::Known(identity) => Gathered::All(ids.push(identity)),
            ResolvedView::Unknown(error) => Gathered::Stopped(error),
        },
        Gathered::Stopped(error) => Gathered::Stopped(error),
    }
}

/// `list` with the identities of the configured built-in providers.
pub open spec fn gather_configured(list: Gathered, configured: Seq<ConfiguredIdentity>) -> Gathered
    decreases configured.len(),
{
    if configured.len() == 0 {
        list
    } else {
        let init = gather_configured(list, configured.drop_last());
        if configured.last().provider == ApiProvider::Custom {
            init
        } else {
            gather(init, configured.last().identity@)
        }
    }
}

/// `list` with the identities of the compatible custom tables.
pub open spec fn gather_custom(list: Gathered, tables: Seq<CustomTable>) -> Gathered
    decreases tables.len(),
{
    if tables.len() == 0 {
        list
    } else {
        let init = gather_custom(list, tables.drop_last());
        if tables.last().openai_compatible {
            gather(init, tables.last().identity@)
        } else {
            init
        }
    }
}

/// The keys of a list of identities.
pub open spec fn identity_keys(ids: Seq<IdentityView>) -> Seq<Seq<char>> {
    ids.map_values(|id: IdentityView| id.key)
}

/// A list of identities by key; those with one key stay in their order.
pub open spec fn by_key(ids: Seq<IdentityView>) -> Seq<IdentityView> {
    sorted_order(no_ranks(ids.len()), identity_keys(ids)).map_values(|i: int| ids[i])
}

/// A list without an identity whose key the one before it has.
pub open spec fn without_repeats(ids: Seq<IdentityView>) -> Seq<IdentityView>
    decreases ids.len(),
{
    if ids.len() == 0 {
        ids
    } else {
        let init = without_repeats(ids.drop_last());
        if ids.len() > 1 && ids[ids.len() - 2].key == ids.last().key {
            init
        } else {
            init.push(ids.last())
        }
    }
}

/// The identities that a catalog command works on: the selected one; without a
/// selection the active one; and for an update every configured one, by key,
/// each key once.
pub open spec fn scope_of(
    selected: Option<ResolvedView>,
    active: ResolvedView,
    update: bool,
    configured: Seq<ConfiguredIdentity>,
    tables: Seq<CustomTable>,
) -> Gathered {
    match selected {
        Some(identity) => gather(Gathered::All(Seq::empty()), identity),
        None => {
            let first = gather(Gathered::All(Seq::empty()), active);
            if !update || first is Stopped {
                first
            } else {
                match gather_custom(gather_configured(first, configured), tables) {
                    Gathered::All(ids) => Gathered::All(without_repeats(by_key(ids))),
                    Gathered::Stopped(error) => Gathered::Stopped(error),
                }
            }
        },
    }
}

/// The views of a list of identities.
pub open spec fn identities_of(list: Seq<ProviderIdentity>) -> Seq<IdentityView> {
    list.map_values(|id: ProviderIdentity| id@)
}

/// The view of a gathered list.
pub open spec fn gathered(r: Result<Vec<ProviderIdentity>, String>) -> Gathered {
    match r {
        Ok(ids) => Gathered::All(identities_of(ids@)),
        Err(error) => Gathered::Stopped(error@),
    }
}

/// Add an identity to a list. An unknown one is the error.
fn add_identity(list: &mut Vec<ProviderIdentity>, next: &ResolvedIdentity) -> (r: Result<
    (),
    String,
>)
    ensures
        match r {
            Ok(_) => Gathered::All(identities_of(final(list)@)) == gather(
                Gathered::All(identities_of(old(list)@)),
                next@,
            ),
            Err(error) => gather(Gathered::All(identities_of(old(list)@)), next@)
                == Gathered::Stopped(error@),
        },
{
    match next {
        ResolvedIdentity::Known(identity) => {
            let ghost before = list@;
            list.push(identity.clone());
            assert(identities_of(list@) =~= identities_of(before).push(identity@));
            Ok(())
        },
        ResolvedIdentity::Unknown(error) => Err(error.clone()),
    }
}

proof fn lemma_stopped_stays(
    list: Gathered,
    configured: Seq<ConfiguredIdentity>,
    tables: Seq<CustomTable>,
    n: int,
    m: int,
)
    requires
        0 <= n <= configured.len(),
        0 <= m <= tables.len(),
    ensures
        gather_configured(list, configured.take(n)) is Stopped ==> gather_configured(
            list,
            configured,
        ) == gather_configured(list, configured.take(n)),
        gather_custom(list, tables.take(m)) is Stopped ==> gather_custom(list, tables)
            == gather_custom(list, tables.take(m)),
    decreases configured.len() - n, tables.len() - m,
{
    if n < configured.len() {
        lemma_stopped_stays(list, configured, tables, n + 1, m);
        assert(configured.take(n + 1).drop_last() =~= configured.take(n));
    } else {
        assert(configured.take(n) =~= configured);
        if m < tables.len() {
            lemma_stopped_stays(list, configured, tables, n, m + 1);
            assert(tables.take(m + 1).drop_last() =~= tables.take(m));
        } else {
            assert(tables.take(m) =~= tables);
        }
    }
}

proof fn lemma_stopped_through(list: Gathered, tables: Seq<CustomTable>)
    requires
        list is Stopped,
    ensures
        gather_custom(list, tables) == list,
    decreases tables.len(),
{
    if tables.len() > 0 {
        lemma_stopped_through(list, tables.drop_last());
    }
}

/// The identities that a catalog command works on.
///
/// `selected` is what the configuration makes of the selected name. `configured`
/// lists the configured providers with their active identities, and `tables` the
/// custom provider tables.
pub fn catalog_identities(
    selected: Option<&ResolvedIdentity>,
    active: &ResolvedIdentity,
    update: bool,
    configured: &Vec<ConfiguredIdentity>,
    tables: &Vec<CustomTable>,
) -> (r: Result<Vec<ProviderIdentity>, String>)
    ensures
        gathered(r) == scope_of(
            match selected {
                Some(s) => Some(s@),
                None => None,
            },
            active@,
            update,
            configured@,
            tables@,
        ),
{
    let mut ids: Vec<ProviderIdentity> = Vec::new();
    assert(identities_of(ids@) =~= Seq::<IdentityView>::empty());
    if let Some(identity) = selected {
        return match add_identity(&mut ids, identity) {
            Ok(_) => Ok(ids),
            Err(error) => Err(error),
        };
    }
    if let Err(error) = add_identity(&mut ids, active) {
        return Err(error);
    }
    if !update {
        return Ok(ids);
    }
    let ghost first = Gathered::All(identities_of(ids@));
    let mut i: usize = 0;
    assert(configured@.take(0) =~= Seq::<ConfiguredIdentity>::empty());
    while i < configured.len()
        invariant
            i <= configured.len(),
            update,
            selected is None,
            first == gather(Gathered::All(Seq::empty()), active@),
            first is All,
            Gathered::All(identities_of(ids@)) == gather_configured(
                first,
                configured@.take(i as int),
            ),
        decreases configured.len() - i,
    {
        proof {
            assert(configured@.take(i + 1).drop_last() =~= configured@.take(i as int));
            assert(configured@.take(i + 1).last() == configured@[i as int]);
        }
        if configured[i].provider != ApiProvider::Custom {
            if let Err(error) = add_identity(&mut ids, &configured[i].identity) {
                proof {
                    lemma_stopped_stays(first, configured@, tables@, i + 1, 0);
                    lemma_stopped_through(gather_configured(first, configured@), tables@);
                }
                return Err(error);
            }
        }
        i += 1;
    }
    assert(configured@.take(i as int) =~= configured@);
    let ghost second = Gathered::All(identities_of(ids@));
    let mut j: usize = 0;
    assert(tables@.take(0) =~= Seq::<CustomTable>::empty());
    while j < tables.len()
        invariant
            j <= tables.len(),
            update,
            selected is None,
            first == gather(Gathered::All(Seq::empty()), active@),
            first is All,
            second == gather_configured(first, configured@),
            second is All,
            Gathered::All(identities_of(ids@)) == gather_custom(second, tables@.take(j as int)),
        decreases tables.len() - j,
    {
        proof {
            assert(tables@.take(j + 1).drop_last() =~= tables@.take(j as int));
            assert(tables@.take(j + 1).last() == tables@[j as int]);
        }
        if tables[j].openai_compatible {
            if let Err(error) = add_identity(&mut ids, &tables[j].identity) {
                proof {
                    lemma_stopped_stays(
                        second,
                        Seq::<ConfiguredIdentity>::empty(),
                        tables@,
                        0,
                        j + 1,
                    );
                }
                return Err(error);
            }
        }
        j += 1;
    }
    assert(tables@.take(j as int) =~= tables@);
    Ok(sorted_identities(&ids))
}

/// A list of identities by key, each key once.
fn sorted_identities(ids: &Vec<ProviderIdentity>) -> (r: Vec<ProviderIdentity>)
    ensures
        identities_of(r@) == without_repeats(by_key(identities_of(ids@))),
{
    let ghost views = identities_of(ids@);
    let mut ranks: Vec<u8> = Vec::new();
    let mut keys: Vec<String> = Vec::new();
    let mut i: usize = 0;
    while i < ids.len()
        invariant
            i <= ids.len(),
            views == identities_of(ids@),
            ranks.len() == i,
            keys.len() == i,
            forall|k: int| 0 <= k < i ==> #[trigger] ranks@[k] == 0,
            forall|k: int| 0 <= k < i ==> (#[trigger] keys@[k])@ == identity_keys(views)[k],
        decreases ids.len() - i,
    {
        assert(views[i as int] == ids@[i as int]@);
        ranks.push(0);
        keys.push(ids[i].key.clone());
        i += 1;
    }
    assert(ranks@ =~= no_ranks(views.len()));
    assert(texts(keys@) =~= identity_keys(views));
    let order: Vec<usize> = sorted_positions(&ranks, &keys);
    let ghost sorted = by_key(views);
    let mut out: Vec<ProviderIdentity> = Vec::new();
    let mut j: usize = 0;
    assert(sorted.take(0) =~= Seq::<IdentityView>::empty());
    assert(identities_of(out@) =~= Seq::<IdentityView>::empty());
    while j < order.len()
        invariant
            j <= order.len(),
            views == identities_of(ids@),
            sorted == by_key(views),
            sorted.len() == order.len(),
            ids.len() == keys.len(),
            texts(keys@) == identity_keys(views),
            is_sorted_order(ranks@, texts(keys@), as_ints(order@)),
            as_ints(order@) == sorted_order(no_ranks(views.len()), identity_keys(views)),
            identities_of(out@) == without_repeats(sorted.take(j as int)),
        decreases order.len() - j,
    {
        proof {
            assert(as_ints(order@)[j as int] == order@[j as int]);
            assert(sorted[j as int] == ids@[order@[j as int] as int]@);
            assert(sorted.take(j + 1).drop_last() =~= sorted.take(j as int));
            assert(sorted.take(j + 1).last() == sorted[j as int]);
            if j > 0 {
                assert(as_ints(order@)[j - 1] == order@[j - 1]);
                assert(sorted[j - 1] == ids@[order@[j - 1] as int]@);
                assert(sorted.take(j + 1)[j - 1] == sorted[j - 1]);
            }
        }
        let id: &ProviderIdentity = &ids[order[j]];
        let repeats: bool = j > 0 && same_text(
            ids[order[j - 1]].key.as_str(),
            id.key.as_str(),
        );
        if !repeats {
            let ghost before = out@;
            out.push(id.clone());
            assert(identities_of(out@) =~= identities_of(before).push(id@));
        }
        j += 1;
    }
    assert(sorted.take(j as int) =~= sorted);
    out
}

/// Whether a list has an identity with this key.
pub open spec fn has_key(ids: Seq<IdentityView>, key: Seq<char>) -> bool {
    exists|i: int| 0 <= i < ids.len() && (#[trigger] ids[i]).key == key
}

proof fn lemma_repeats(ids: Seq<IdentityView>)
    requires
        forall|i: int, j: int|
            0 <= i < j < ids.len() ==> precedes(
                (#[trigger] ids[i]).key,
                (#[trigger] ids[j]).key,
            ) || ids[i].key == ids[j].key,
    ensures
        ids.len() > 0 ==> without_repeats(ids).len() > 0 && without_repeats(ids).last().key
            == ids.last().key,
        forall|i: int, j: int|
            0 <= i < j < without_repeats(ids).len() ==> precedes(
                (#[trigger] without_repeats(ids)[i]).key,
                (#[trigger] without_repeats(ids)[j]).key,
            ),
        forall|key: Seq<char>| #[trigger]
            has_key(without_repeats(ids), key) <==> has_key(ids, key),
        forall|j: int|
            0 <= j < without_repeats(ids).len() ==> ids.contains(
                #[trigger] without_repeats(ids)[j],
            ),
    decreases ids.len(),
{
    if ids.len() > 0 {
        let init = ids.drop_last();
        let n = ids.len() - 1;
        let kept = without_repeats(init);
        let all = without_repeats(ids);
        assert forall|i: int, j: int| 0 <= i < j < init.len() implies precedes(
            (#[trigger] init[i]).key,
            (#[trigger] init[j]).key,
        ) || init[i].key == init[j].key by {
            assert(init[i] == ids[i] && init[j] == ids[j]);
        }
        lemma_repeats(init);
        let repeats = ids.len() > 1 && ids[n - 1].key == ids.last().key;
        if ids.len() > 1 {
            assert(init.last() == ids[n - 1]);
        }
        if !repeats {
            assert forall|i: int, j: int| 0 <= i < j < all.len() implies precedes(
                (#[trigger] all[i]).key,
                (#[trigger] all[j]).key,
            ) by {
                if j == kept.len() {
                    assert(kept.last().key == init.last().key);
                    assert(ids[n - 1].key == kept.last().key);
                    assert(precedes(ids[n - 1].key, ids[n].key));
                    if i < kept.len() - 1 {
                        assert(precedes(kept[i].key, kept[kept.len() - 1].key));
                        text_order_is_strict_and_total(
                            kept[i].key,
                            kept[kept.len() - 1].key,
                            ids[n].key,
                        );
                    }
                }
            }
        }
        assert forall|key: Seq<char>| #[trigger] has_key(all, key) <==> has_key(ids, key) by {
            assert(has_key(kept, key) <==> has_key(init, key));
            if has_key(ids, key) {
                let i = choose|i: int| 0 <= i < ids.len() && (#[trigger] ids[i]).key == key;
                if i < n {
                    assert(init[i].key == key);
                    let j = choose|j: int| 0 <= j < kept.len() && (#[trigger] kept[j]).key == key;
                    assert(all[j].key == key);
                } else {
                    assert(all[all.len() - 1].key == key);
                }
            }
            if has_key(all, key) {
                let j = choose|j: int| 0 <= j < all.len() && (#[trigger] all[j]).key == key;
                if j < kept.len() {
                    assert(kept[j].key == key);
                    let i = choose|i: int| 0 <= i < init.len() && (#[trigger] init[i]).key == key;
                    assert(ids[i].key == key);
                } else {
                    assert(ids[n].key == key);
                }
            }
        }
        assert forall|j: int| 0 <= j < all.len() implies ids.contains(#[trigger] all[j]) by {
            if j < kept.len() {
                assert(init.contains(kept[j]));
                let k = choose|k: int| 0 <= k < init.len() && init[k] == kept[j];
                assert(ids[k] == kept[j]);
            } else {
                assert(ids[n] == all[j]);
            }
        }
    }
}

/// An update covers every gathered identity: its keys are strictly ascending, so
/// each occurs once, every gathered key is there, and nothing else is.
pub proof fn an_update_covers_every_key_once(ids: Seq<IdentityView>)
    ensures
        forall|i: int, j: int|
            0 <= i < j < without_repeats(by_key(ids)).len() ==> precedes(
                (#[trigger] without_repeats(by_key(ids))[i]).key,
                (#[trigger] without_repeats(by_key(ids))[j]).key,
            ),
        forall|key: Seq<char>| #[trigger]
            has_key(without_repeats(by_key(ids)), key) <==> has_key(ids, key),
        forall|j: int|
            0 <= j < without_repeats(by_key(ids)).len() ==> ids.contains(
                #[trigger] without_repeats(by_key(ids))[j],
            ),
{
    let ranks = no_ranks(ids.len());
    let keys = identity_keys(ids);
    let order = sorted_order(ranks, keys);
    let sorted = by_key(ids);
    let all = without_repeats(sorted);
    sorted_order_exists(ranks, keys);
    lemma_sorted_order_has_every_position(ranks, keys, order);
    assert forall|i: int, j: int| 0 <= i < j < sorted.len() implies precedes(
        (#[trigger] sorted[i]).key,
        (#[trigger] sorted[j]).key,
    ) || sorted[i].key == sorted[j].key by {
        assert(ahead(ranks, keys, order[i], order[j]));
    }
    lemma_repeats(sorted);
    assert forall|key: Seq<char>| #[trigger] has_key(all, key) <==> has_key(ids, key) by {
        assert(has_key(all, key) <==> has_key(sorted, key));
        if has_key(ids, key) {
            let i = choose|i: int| 0 <= i < ids.len() && (#[trigger] ids[i]).key == key;
            assert(order.contains(i));
            let p = choose|p: int| 0 <= p < order.len() && order[p] == i;
            assert(sorted[p].key == key);
        }
        if has_key(sorted, key) {
            let p = choose|p: int| 0 <= p < sorted.len() && (#[trigger] sorted[p]).key == key;
            assert(ids[order[p]].key == key);
        }
    }
    assert forall|j: int| 0 <= j < all.len() implies ids.contains(#[trigger] all[j]) by {
        assert(sorted.contains(all[j]));
        let p = choose|p: int| 0 <= p < sorted.len() && sorted[p] == all[j];
        assert(ids[order[p]] == all[j]);
    }
}

/// Without an update there is exactly one identity to work on, where the names
/// resolve.
pub proof fn a_listing_is_of_one_identity(
    selected: Option<ResolvedView>,
    active: ResolvedView,
    configured: Seq<ConfiguredIdentity>,
    tables: Seq<CustomTable>,
)
    ensures
        match scope_of(selected, active, false, configured, tables) {
            Gathered::All(ids) => ids.len() == 1,
            Gathered::Stopped(_) => true,
        },
{
}

/// The positions of the configured built-in providers.
spec fn built_in_positions(configured: Seq<ConfiguredIdentity>) -> Seq<int>
    decreases configured.len(),
{
    if configured.len() == 0 {
        Seq::empty()
    } else {
        let init = built_in_positions(configured.drop_last());
        if configured.last().provider == ApiProvider::Custom {
            init
        } else {
            init.push(configured.len() - 1)
        }
    }
}

/// The positions of the compatible custom tables.
spec fn table_positions(tables: Seq<CustomTable>) -> Seq<int>
    decreases tables.len(),
{
    if tables.len() == 0 {
        Seq::empty()
    } else {
        let init = table_positions(tables.drop_last());
        if tables.last().openai_compatible {
            init.push(tables.len() - 1)
        } else {
            init
        }
    }
}

proof fn lemma_built_in_positions(ids: Seq<IdentityView>, configured: Seq<ConfiguredIdentity>)
    requires
        forall|i: int|
            0 <= i < configured.len() && (#[trigger] configured[i]).provider != ApiProvider::Custom
                ==> configured[i].identity@ is Known,
    ensures
        ({
            let at = built_in_positions(configured);
            &&& gather_configured(Gathered::All(ids), configured) == Gathered::All(
                ids + at.map_values(|i: int| configured[i].identity@->Known_0),
            )
            &&& forall|a: int, b: int| 0 <= a < b < at.len() ==> #[trigger] at[a] < #[trigger] at[b]
            &&& forall|a: int|
                0 <= a < at.len() ==> 0 <= #[trigger] at[a] < configured.len()
                    && configured[at[a]].provider != ApiProvider::Custom
            &&& forall|i: int|
                0 <= i < configured.len() && (#[trigger] configured[i]).provider
                    != ApiProvider::Custom ==> at.contains(i)
        }),
    decreases configured.len(),
{
    let at = built_in_positions(configured);
    if configured.len() == 0 {
        assert(ids + at.map_values(|i: int| configured[i].identity@->Known_0) =~= ids);
    } else {
        let init = configured.drop_last();
        let n = configured.len() - 1;
        let before = built_in_positions(init);
        assert forall|i: int|
            0 <= i < init.len() && (#[trigger] init[i]).provider != ApiProvider::Custom implies
            init[i].identity@ is Known by {
            assert(init[i] == configured[i]);
        }
        lemma_built_in_positions(ids, init);
        assert(configured[n] == configured.last());
        assert forall|a: int| 0 <= a < before.len() implies init[#[trigger] before[a]]
            == configured[before[a]] by {}
        let old_list = ids + before.map_values(|i: int| init[i].identity@->Known_0);
        if configured.last().provider == ApiProvider::Custom {
            assert(ids + at.map_values(|i: int| configured[i].identity@->Known_0) =~= old_list);
        } else {
            assert(ids + at.map_values(|i: int| configured[i].identity@->Known_0)
                =~= old_list.push(configured.last().identity@->Known_0));
        }
        assert forall|i: int|
            0 <= i < configured.len() && (#[trigger] configured[i]).provider
                != ApiProvider::Custom implies at.contains(i) by {
            if i < n {
                assert(init[i] == configured[i]);
                let a = choose|a: int| 0 <= a < before.len() && before[a] == i;
                assert(at[a] == i);
            } else {
                assert(at[before.len() as int] == i);
            }
        }
    }
}

proof fn lemma_table_positions(ids: Seq<IdentityView>, tables: Seq<CustomTable>)
    requires
        forall|i: int|
            0 <= i < tables.len() && (#[trigger] tables[i]).openai_compatible
                ==> tables[i].identity@ is Known,
    ensures
        ({
            let at = table_positions(tables);
            &&& gather_custom(Gathered::All(ids), tables) == Gathered::All(
                ids + at.map_values(|i: int| tables[i].identity@->Known_0),
            )
            &&& forall|a: int, b: int| 0 <= a < b < at.len() ==> #[trigger] at[a] < #[trigger] at[b]
            &&& forall|a: int|
                0 <= a < at.len() ==> 0 <= #[trigger] at[a] < tables.len()
                    && tables[at[a]].openai_compatible
            &&& forall|i: int|
                0 <= i < tables.len() && (#[trigger] tables[i]).openai_compatible ==> at.contains(i)
        }),
    decreases tables.len(),
{
    let at = table_positions(tables);
    if tables.len() == 0 {
        assert(ids + at.map_values(|i: int| tables[i].identity@->Known_0) =~= ids);
    } else {
        let init = tables.drop_last();
        let n = tables.len() - 1;
        let before = table_positions(init);
        assert forall|i: int|
            0 <= i < init.len() && (#[trigger] init[i]).openai_compatible implies
            init[i].identity@ is Known by {
            assert(init[i] == tables[i]);
        }
        lemma_table_positions(ids, init);
        assert(tables[n] == tables.last());
        assert forall|a: int| 0 <= a < before.len() implies init[#[trigger] before[a]]
            == tables[before[a]] by {}
        let old_list = ids + before.map_values(|i: int| init[i].identity@->Known_0);
        if tables.last().openai_compatible {
            assert(ids + at.map_values(|i: int| tables[i].identity@->Known_0)
                =~= old_list.push(tables.last().identity@->Known_0));
        } else {
            assert(ids + at.map_values(|i: int| tables[i].identity@->Known_0) =~= old_list);
        }
        assert forall|i: int|
            0 <= i < tables.len() && (#[trigger] tables[i]).openai_compatible implies at.contains(
            i,
        ) by {
            if i < n {
                assert(init[i] == tables[i]);
                let a = choose|a: int| 0 <= a < before.len() && before[a] == i;
                assert(at[a] == i);
            } else {
                assert(at[before.len() as int] == i);
            }
        }
    }
}

/// Of a run of equal keys the first identity is the one that stays.
proof fn lemma_repeats_keep_the_first(ids: Seq<IdentityView>, j: int) -> (p: int)
    requires
        0 <= j < without_repeats(ids).len(),
    ensures
        0 <= p < ids.len(),
        ids[p] == without_repeats(ids)[j],
        p == 0 || ids[p - 1].key != ids[p].key,
    decreases ids.len(),
{
    let init = ids.drop_last();
    let n = ids.len() - 1;
    let kept = without_repeats(init);
    if j < kept.len() {
        let p: int = lemma_repeats_keep_the_first(init, j);
        if p > 0 {
            assert(init[p - 1] == ids[p - 1]);
        }
        p
    } else {
        n
    }
}

/// What is kept of an identity list under a key is the first identity with it.
proof fn lemma_first_identity(ids: Seq<IdentityView>, j: int) -> (m: int)
    requires
        0 <= j < without_repeats(by_key(ids)).len(),
    ensures
        0 <= m < ids.len(),
        ids[m] == without_repeats(by_key(ids))[j],
        forall|i: int| 0 <= i < m ==> (#[trigger] ids[i]).key != ids[m].key,
{
    let ranks = no_ranks(ids.len());
    let keys = identity_keys(ids);
    let order = sorted_order(ranks, keys);
    let sorted = by_key(ids);
    sorted_order_exists(ranks, keys);
    lemma_sorted_order_has_every_position(ranks, keys, order);
    let p: int = lemma_repeats_keep_the_first(sorted, j);
    let m = order[p];
    assert forall|i: int| 0 <= i < m implies (#[trigger] ids[i]).key != ids[m].key by {
        if ids[i].key == ids[m].key {
            assert(order.contains(i));
            let q = choose|q: int| 0 <= q < order.len() && order[q] == i;
            if q > p {
                assert(ahead(ranks, keys, order[p], order[q]));
                text_order_is_strict_and_total(keys[m], keys[i], keys[m]);
            } else if q < p {
                // Everything between two equal keys has that key.
                assert(sorted[q].key == sorted[p].key);
                if q < p - 1 {
                    assert(ahead(ranks, keys, order[q], order[p - 1]));
                    assert(ahead(ranks, keys, order[p - 1], order[p]));
                    text_order_is_strict_and_total(
                        keys[order[q]],
                        keys[order[p - 1]],
                        keys[order[p]],
                    );
                }
                assert(sorted[p - 1].key == sorted[p].key);
            }
        }
    }
    m
}

/// Whether a configured built-in provider has that key.
pub open spec fn configured_has(configured: Seq<ConfiguredIdentity>, key: Seq<char>) -> bool {
    exists|i: int|
        0 <= i < configured.len() && (#[trigger] configured[i]).provider != ApiProvider::Custom
            && configured[i].identity@ is Known && (configured[i].identity@->Known_0).key == key
}

/// Whether a compatible custom table has that key.
pub open spec fn tables_have(tables: Seq<CustomTable>, key: Seq<char>) -> bool {
    exists|i: int|
        0 <= i < tables.len() && (#[trigger] tables[i]).openai_compatible && tables[i].identity@
            is Known && (tables[i].identity@->Known_0).key == key
}

/// An update without a selection covers the active identity, every configured
/// provider that is not the custom one, and every compatible custom table:
/// exactly their keys, each once and in ascending order. Where several have one
/// key the active identity stands for it, then the first configured one, then
/// the first table.
pub proof fn an_update_covers_the_configuration(
    active: IdentityView,
    configured: Seq<ConfiguredIdentity>,
    tables: Seq<CustomTable>,
)
    requires
        forall|i: int|
            0 <= i < configured.len() && (#[trigger] configured[i]).provider != ApiProvider::Custom
                ==> configured[i].identity@ is Known,
        forall|i: int|
            0 <= i < tables.len() && (#[trigger] tables[i]).openai_compatible
                ==> tables[i].identity@ is Known,
    ensures
        ({
            let scope = scope_of(None, ResolvedView::Known(active), true, configured, tables);
            let out = scope->All_0;
            &&& scope is All
            &&& forall|key: Seq<char>| #[trigger]
                has_key(out, key) <==> key == active.key || configured_has(configured, key)
                    || tables_have(tables, key)
            &&& forall|a: int, b: int|
                0 <= a < b < out.len() ==> precedes(
                    (#[trigger] out[a]).key,
                    (#[trigger] out[b]).key,
                )
            &&& forall|j: int|
                0 <= j < out.len() ==> {
                    let id = #[trigger] out[j];
                    &&& id.key == active.key ==> id == active
                    &&& id.key != active.key && configured_has(configured, id.key) ==> exists|
                        i: int,
                    |
                        0 <= i < configured.len() && (#[trigger] configured[i]).provider
                            != ApiProvider::Custom && configured[i].identity@
                            == ResolvedView::Known(id) && forall|k: int|
                            0 <= k < i && (#[trigger] configured[k]).provider
                                != ApiProvider::Custom ==> (
                            configured[k].identity@->Known_0).key != id.key
                    &&& id.key != active.key && !configured_has(configured, id.key) ==> exists|
                        i: int,
                    |
                        0 <= i < tables.len() && (#[trigger] tables[i]).openai_compatible
                            && tables[i].identity@ == ResolvedView::Known(id) && forall|k: int|
                            0 <= k < i && (#[trigger] tables[k]).openai_compatible ==> (
                            tables[k].identity@->Known_0).key != id.key
                }
        }),
{
    let first = Seq::<IdentityView>::empty().push(active);
    let conf_at = built_in_positions(configured);
    let conf = conf_at.map_values(|i: int| configured[i].identity@->Known_0);
    let table_at = table_positions(tables);
    let tabs = table_at.map_values(|i: int| tables[i].identity@->Known_0);
    lemma_built_in_positions(first, configured);
    lemma_table_positions(first + conf, tables);
    let ids = first + conf + tabs;
    let out = without_repeats(by_key(ids));
    let scope = scope_of(None, ResolvedView::Known(active), true, configured, tables);
    assert(scope == Gathered::All(out));
    assert(scope->All_0 == out);
    an_update_covers_every_key_once(ids);
    assert(ids[0] == active);
    assert forall|a: int| 0 <= a < conf.len() implies ids[1 + a] == #[trigger] conf[a] by {}
    assert forall|a: int| 0 <= a < tabs.len() implies ids[1 + conf.len() + a]
        == #[trigger] tabs[a] by {}
    assert forall|key: Seq<char>| #[trigger]
        has_key(out, key) <==> key == active.key || configured_has(configured, key) || tables_have(
            tables,
            key,
        ) by {
        assert(has_key(out, key) <==> has_key(ids, key));
        if has_key(ids, key) {
            let i = choose|i: int| 0 <= i < ids.len() && (#[trigger] ids[i]).key == key;
            if 1 <= i < 1 + conf.len() {
                let at = conf_at[i - 1];
                assert(conf[i - 1] == configured[at].identity@->Known_0);
                assert(configured_has(configured, key));
            } else if i >= 1 + conf.len() {
                let at = table_at[i - 1 - conf.len()];
                assert(tabs[i - 1 - conf.len()] == tables[at].identity@->Known_0);
                assert(tables_have(tables, key));
            }
        }
        if key == active.key {
            assert(has_key(ids, key));
        }
        if configured_has(configured, key) {
            let i = choose|i: int|
                0 <= i < configured.len() && (#[trigger] configured[i]).provider
                    != ApiProvider::Custom && configured[i].identity@ is Known && (
                configured[i].identity@->Known_0).key == key;
            assert(conf_at.contains(i));
            let a = choose|a: int| 0 <= a < conf_at.len() && conf_at[a] == i;
            assert(conf[a].key == key);
            assert(ids[1 + a].key == key);
        }
        if tables_have(tables, key) {
            let i = choose|i: int|
                0 <= i < tables.len() && (#[trigger] tables[i]).openai_compatible
                    && tables[i].identity@ is Known && (tables[i].identity@->Known_0).key == key;
            assert(table_at.contains(i));
            let a = choose|a: int| 0 <= a < table_at.len() && table_at[a] == i;
            assert(tabs[a].key == key);
            assert(ids[1 + conf.len() + a].key == key);
        }
    }
    assert forall|j: int| 0 <= j < out.len() implies {
        let id = #[trigger] out[j];
        &&& id.key == active.key ==> id == active
        &&& id.key != active.key && configured_has(configured, id.key) ==> exists|i: int|
            0 <= i < configured.len() && (#[trigger] configured[i]).provider != ApiProvider::Custom
                && configured[i].identity@ == ResolvedView::Known(id) && forall|k: int|
                0 <= k < i && (#[trigger] configured[k]).provider != ApiProvider::Custom ==> (
                configured[k].identity@->Known_0).key != id.key
        &&& id.key != active.key && !configured_has(configured, id.key) ==> exists|i: int|
            0 <= i < tables.len() && (#[trigger] tables[i]).openai_compatible && tables[i].identity@
                == ResolvedView::Known(id) && forall|k: int|
                0 <= k < i && (#[trigger] tables[k]).openai_compatible ==> (
                tables[k].identity@->Known_0).key != id.key
    } by {
        let id = out[j];
        let m: int = lemma_first_identity(ids, j);
        if id.key == active.key {
            if m > 0 {
                assert(ids[0].key != ids[m].key);
            }
        } else if configured_has(configured, id.key) {
            let i = choose|i: int|
                0 <= i < configured.len() && (#[trigger] configured[i]).provider
                    != ApiProvider::Custom && configured[i].identity@ is Known && (
                configured[i].identity@->Known_0).key == id.key;
            assert(conf_at.contains(i));
            let a = choose|a: int| 0 <= a < conf_at.len() && conf_at[a] == i;
            assert(conf[a].key == id.key);
            if m > 1 + a {
                assert(ids[1 + a].key != ids[m].key);
            }
            let at = conf_at[m - 1];
            assert(conf[m - 1] == configured[at].identity@->Known_0);
            assert(configured[at].identity@ == ResolvedView::Known(id));
            assert forall|k: int|
                0 <= k < at && (#[trigger] configured[k]).provider != ApiProvider::Custom implies (
            configured[k].identity@->Known_0).key != id.key by {
                assert(conf_at.contains(k));
                let b = choose|b: int| 0 <= b < conf_at.len() && conf_at[b] == k;
                if b >= m {
                    assert(conf_at[m - 1] < conf_at[b]);
                }
                assert(conf[b] == configured[k].identity@->Known_0);
                assert(b < m - 1);
                assert(ids[1 + b].key != ids[m].key);
            }
        } else {
            if 1 <= m < 1 + conf.len() {
                let at = conf_at[m - 1];
                assert(conf[m - 1] == configured[at].identity@->Known_0);
                assert(configured_has(configured, id.key));
            }
            let c = m - 1 - conf.len();
            let at = table_at[c];
            assert(tabs[c] == tables[at].identity@->Known_0);
            assert(tables[at].identity@ == ResolvedView::Known(id));
            assert forall|k: int|
                0 <= k < at && (#[trigger] tables[k]).openai_compatible implies (
            tables[k].identity@->Known_0).key != id.key by {
                assert(table_at.contains(k));
                let b = choose|b: int| 0 <= b < table_at.len() && table_at[b] == k;
                if b > c {
                    assert(table_at[c] < table_at[b]);
                }
                assert(tabs[b] == tables[k].identity@->Known_0);
                assert(b < c);
                assert(ids[1 + conf.len() + b].key != ids[m].key);
            }
        }
    }
}

/// A selected name is all that a command works on, and without an update the
/// active one is. What they do not resolve to is the error.
pub proof fn a_selected_name_is_the_whole_scope(
    name: ResolvedView,
    active: ResolvedView,
    update: bool,
    configured: Seq<ConfiguredIdentity>,
    tables: Seq<CustomTable>,
)
    ensures
        name is Known ==> scope_of(Some(name), active, update, configured, tables)
            == Gathered::All(seq![name->Known_0]),
        name is Unknown ==> scope_of(Some(name), active, update, configured, tables)
            == Gathered::Stopped(name->Unknown_0),
        active is Known ==> scope_of(None, active, false, configured, tables) == Gathered::All(
            seq![active->Known_0],
        ),
        active is Unknown ==> scope_of(None, active, update, configured, tables)
            == Gathered::Stopped(active->Unknown_0),
{
}

proof fn lemma_stops_at(
    ids: Seq<IdentityView>,
    configured: Seq<ConfiguredIdentity>,
    tables: Seq<CustomTable>,
    i: int,
)
    ensures
        0 <= i < configured.len() && configured[i].provider != ApiProvider::Custom
            && configured[i].identity@ is Unknown && (forall|k: int|
            0 <= k < i && (#[trigger] configured[k]).provider != ApiProvider::Custom
                ==> configured[k].identity@ is Known) ==> gather_configured(
            Gathered::All(ids),
            configured,
        ) == Gathered::Stopped(configured[i].identity@->Unknown_0),
        0 <= i < tables.len() && tables[i].openai_compatible && tables[i].identity@ is Unknown && (
        forall|k: int|
            0 <= k < i && (#[trigger] tables[k]).openai_compatible ==> tables[k].identity@ is Known)
            ==> gather_custom(Gathered::All(ids), tables) == Gathered::Stopped(
            tables[i].identity@->Unknown_0,
        ),
{
    if 0 <= i < configured.len() && configured[i].provider != ApiProvider::Custom
        && configured[i].identity@ is Unknown && (forall|k: int|
        0 <= k < i && (#[trigger] configured[k]).provider != ApiProvider::Custom
            ==> configured[k].identity@ is Known) {
        let part = configured.take(i);
        assert forall|k: int|
            0 <= k < part.len() && (#[trigger] part[k]).provider != ApiProvider::Custom implies
            part[k].identity@ is Known by {
            assert(part[k] == configured[k]);
        }
        lemma_built_in_positions(ids, part);
        assert(configured.take(i + 1).drop_last() =~= part);
        assert(configured.take(i + 1).last() == configured[i]);
        lemma_stopped_stays(Gathered::All(ids), configured, tables, i + 1, 0);
    }
    if 0 <= i < tables.len() && tables[i].openai_compatible && tables[i].identity@ is Unknown && (
    forall|k: int|
        0 <= k < i && (#[trigger] tables[k]).openai_compatible ==> tables[k].identity@ is Known) {
        let part = tables.take(i);
        assert forall|k: int|
            0 <= k < part.len() && (#[trigger] part[k]).openai_compatible implies
            part[k].identity@ is Known by {
            assert(part[k] == tables[k]);
        }
        lemma_table_positions(ids, part);
        assert(tables.take(i + 1).drop_last() =~= part);
        assert(tables.take(i + 1).last() == tables[i]);
        lemma_stopped_stays(Gathered::All(ids), configured, tables, 0, i + 1);
    }
}

/// An update stops at the first name that does not resolve, configured providers
/// before custom tables, and gives its error. The names that it does not cover
/// stop nothing.
pub proof fn an_update_stops_at_the_first_unknown_name(
    active: IdentityView,
    configured: Seq<ConfiguredIdentity>,
    tables: Seq<CustomTable>,
    i: int,
)
    ensures
        0 <= i < configured.len() && configured[i].provider != ApiProvider::Custom
            && configured[i].identity@ is Unknown && (forall|k: int|
            0 <= k < i && (#[trigger] configured[k]).provider != ApiProvider::Custom
                ==> configured[k].identity@ is Known) ==> scope_of(
            None,
            ResolvedView::Known(active),
            true,
            configured,
            tables,
        ) == Gathered::Stopped(configured[i].identity@->Unknown_0),
        0 <= i < tables.len() && tables[i].openai_compatible && tables[i].identity@ is Unknown && (
        forall|k: int|
            0 <= k < i && (#[trigger] tables[k]).openai_compatible ==> tables[k].identity@ is Known)
            && (forall|k: int|
            0 <= k < configured.len() && (#[trigger] configured[k]).provider != ApiProvider::Custom
                ==> configured[k].identity@ is Known) ==> scope_of(
            None,
            ResolvedView::Known(active),
            true,
            configured,
            tables,
        ) == Gathered::Stopped(tables[i].identity@->Unknown_0),
{
    let first = Seq::<IdentityView>::empty().push(active);
    lemma_stops_at(first, configured, tables, i);
    if forall|k: int|
        0 <= k < configured.len() && (#[trigger] configured[k]).provider != ApiProvider::Custom
            ==> configured[k].identity@ is Known {
        lemma_built_in_positions(first, configured);
        let conf = built_in_positions(configured).map_values(
            |i: int| configured[i].identity@->Known_0,
        );
        lemma_stops_at(first + conf, configured, tables, i);
    }
    if gather_configured(Gathered::All(first), configured) is Stopped {
        lemma_stopped_through(gather_configured(Gathered::All(first), configured), tables);
    }
}

} // verus!
