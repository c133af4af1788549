//! Lists of model ids: unique up to case, defaults first.

use vstd::prelude::*;
use crate::lists::lemma_mapped_permutation;
use crate::offering::{rows_of, CatalogOffering, OfferingView};
use crate::order::{
    ahead, as_ints, is_sorted_order, lemma_sorted_order_has_every_position, sorted_order,
    sorted_order_exists, sorted_positions,
};
use crate::text::{
    chars_of, lower, precedes, same_ignoring_case, text_order_is_strict_and_total, texts, trim,
    trim_keeps_the_middle, trimmed,
};

verus! {

/// Whether a list holds `model` up to the case of its ASCII letters.
pub open spec fn lists_model(models: Seq<Seq<char>>, model: Seq<char>) -> bool {
    exists|i: int| 0 <= i < models.len() && lower(#[trigger] models[i]) == lower(model)
}

/// `models` with `model`, trimmed, at its end, unless that is blank or already
/// listed up to case.
pub open spec fn with_model(models: Seq<Seq<char>>, model: Seq<char>) -> Seq<Seq<char>> {
    let m = trim(model);
    if m.len() == 0 || lists_model(models, m) {
        models
    } else {
        models.push(m)
    }
}

/// `models` with every id of `ids` added in turn.
pub open spec fn with_models(models: Seq<Seq<char>>, ids: Seq<Seq<char>>) -> Seq<Seq<char>>
    decreases ids.len(),
{
    if ids.len() == 0 {
        models
    } else {
        with_model(with_models(models, ids.drop_last()), ids.last())
    }
}

/// The wire model ids of a list of rows.
pub open spec fn wire_ids(rows: Seq<OfferingView>) -> Seq<Seq<char>> {
    rows.map_values(|row: OfferingView| row.wire_model_id)
}

/// The rank of each row: a provider's default row comes before the others.
pub open spec fn default_ranks(rows: Seq<OfferingView>) -> Seq<u8> {
    rows.map_values(|row: OfferingView| if row.default_for_provider { 0u8 } else { 1u8 })
}

/// The wire model ids of a list of rows, defaults first, then by id.
pub open spec fn sorted_wire_ids(rows: Seq<OfferingView>) -> Seq<Seq<char>> {
    sorted_order(default_ranks(rows), wire_ids(rows)).map_values(
        |i: int| rows[i].wire_model_id,
    )
}

/// The model list of some catalog rows: defaults first, then by id, each id
/// once up to case.
pub open spec fn catalog_models(rows: Seq<OfferingView>) -> Seq<Seq<char>> {
    with_models(Seq::empty(), sorted_wire_ids(rows))
}

/// Add a model id at the end of a list, unless it is blank or already listed up
/// to case.
pub fn push_unique_model(models: &mut Vec<String>, model: &str)
    ensures
        texts(final(models)@) == with_model(texts(old(models)@), model@),
{
    let name: &str = trimmed(model);
    if name.unicode_len() == 0 {
        return;
    }
    let ghost before = texts(models@);
    let mut i: usize = 0;
    while i < models.len()
        invariant
            i <= models.len(),
            texts(models@) == before,
            before == texts(old(models)@),
            *models == *old(models),
            name@ == trim(model@),
            name@.len() > 0,
            forall|k: int| 0 <= k < i ==> lower(#[trigger] before[k]) != lower(name@),
        decreases models.len() - i,
    {
        assert(before[i as int] == models@[i as int]@);
        if same_ignoring_case(models[i].as_str(), name) {
            return;
        }
        i += 1;
    }
    models.push(name.to_owned());
    assert(texts(models@) =~= before.push(name@));
}

/// Add every id of a list in turn.
pub fn push_unique_models(models: &mut Vec<String>, ids: &Vec<String>)
    ensures
        texts(final(models)@) == with_models(texts(old(models)@), texts(ids@)),
{
    let ghost before = texts(models@);
    let mut i: usize = 0;
    assert(texts(ids@).take(0) =~= Seq::<Seq<char>>::empty());
    while i < ids.len()
        invariant
            i <= ids.len(),
            texts(models@) == with_models(before, texts(ids@).take(i as int)),
        decreases ids.len() - i,
    {
        push_unique_model(models, ids[i].as_str());
        proof {
            let all = texts(ids@);
            assert(all.take(i + 1).drop_last() =~= all.take(i as int));
            assert(all.take(i + 1).last() == ids@[i as int]@);
        }
        i += 1;
    }
    assert(texts(ids@).take(i as int) =~= texts(ids@));
}

/// Add the wire model id of every row in turn.
pub fn push_unique_rows(models: &mut Vec<String>, rows: &Vec<CatalogOffering>)
    ensures
        texts(final(models)@) == with_models(texts(old(models)@), wire_ids(rows_of(rows@))),
{
    let ghost before = texts(models@);
    let ghost all = wire_ids(rows_of(rows@));
    let mut i: usize = 0;
    assert(all.take(0) =~= Seq::<Seq<char>>::empty());
    while i < rows.len()
        invariant
            i <= rows.len(),
            all == wire_ids(rows_of(rows@)),
            texts(models@) == with_models(before, all.take(i as int)),
        decreases rows.len() - i,
    {
        push_unique_model(models, rows[i].wire_model_id.as_str());
        proof {
            assert(all.take(i + 1).drop_last() =~= all.take(i as int));
            assert(all[i as int] == rows@[i as int]@.wire_model_id);
            assert(all.take(i + 1).last() == rows@[i as int].wire_model_id@);
        }
        i += 1;
    }
    assert(all.take(i as int) =~= all);
}

/// The model list of some catalog rows.
#[must_use]
pub fn catalog_models_from_offerings(rows: &Vec<CatalogOffering>) -> (r: Vec<String>)
    ensures
        texts(r@) == catalog_models(rows_of(rows@)),
{
    let ghost views = rows_of(rows@);
    let mut ranks: Vec<u8> = Vec::new();
    let mut keys: Vec<String> = Vec::new();
    let mut i: usize = 0;
    while i < rows.len()
        invariant
            i <= rows.len(),
            views == rows_of(rows@),
            ranks.len() == i,
            keys.len() == i,
            forall|k: int| 0 <= k < i ==> #[trigger] ranks@[k] == default_ranks(views)[k],
            forall|k: int| 0 <= k < i ==> (#[trigger] keys@[k])@ == wire_ids(views)[k],
        decreases rows.len() - i,
    {
        assert(views[i as int] == rows@[i as int]@);
        if rows[i].default_for_provider {
            ranks.push(0);
        } else {
            ranks.push(1);
        }
        keys.push(rows[i].wire_model_id.clone());
        i += 1;
    }
    assert(ranks@ =~= default_ranks(views));
    assert(texts(keys@) =~= wire_ids(views));
    let order: Vec<usize> = sorted_positions(&ranks, &keys);
    let ghost ids = sorted_wire_ids(views);
    let mut models: Vec<String> = Vec::new();
    let mut j: usize = 0;
    assert(ids.take(0) =~= Seq::<Seq<char>>::empty());
    assert(texts(models@) =~= Seq::<Seq<char>>::empty());
    while j < order.len()
        invariant
            j <= order.len(),
            views == rows_of(rows@),
            ids == sorted_wire_ids(views),
            ids.len() == order.len(),
            rows.len() == keys.len(),
            texts(keys@) == wire_ids(views),
            is_sorted_order(ranks@, texts(keys@), as_ints(order@)),
            as_ints(order@) == sorted_order(default_ranks(views), wire_ids(views)),
            texts(models@) == with_models(Seq::empty(), ids.take(j as int)),
        decreases order.len() - j,
    {
        assert(as_ints(order@)[j as int] == order@[j as int]);
        assert(views[order@[j as int] as int] == rows@[order@[j as int] as int]@);
        push_unique_model(&mut models, rows[order[j]].wire_model_id.as_str());
        proof {
            assert(ids.take(j + 1).drop_last() =~= ids.take(j as int));
            assert(ids.take(j + 1).last() == ids[j as int]);
        }
        j += 1;
    }
    assert(ids.take(j as int) =~= ids);
    models
}

/// Whether a list of model ids has no blank, no untrimmed and no doubled entry,
/// doubles being told up to case.
pub open spec fn clean_models(models: Seq<Seq<char>>) -> bool {
    &&& forall|i: int|
        0 <= i < models.len() ==> (#[trigger] models[i]).len() > 0 && trim(models[i]) == models[i]
    &&& forall|i: int, j: int|
        0 <= i < j < models.len() ==> lower(#[trigger] models[i]) != lower(#[trigger] models[j])
}

/// Adding ids keeps a list clean.
pub proof fn adding_models_keeps_a_list_clean(models: Seq<Seq<char>>, ids: Seq<Seq<char>>)
    requires
        clean_models(models),
    ensures
        clean_models(with_models(models, ids)),
    decreases ids.len(),
{
    if ids.len() > 0 {
        adding_models_keeps_a_list_clean(models, ids.drop_last());
        trim_keeps_the_middle(ids.last());
    }
}

/// Adding ids lists each of them, blanks aside, and nothing else; what was
/// listed before keeps its place.
pub proof fn adding_models_lists_exactly_those(models: Seq<Seq<char>>, ids: Seq<Seq<char>>)
    ensures
        models.len() <= with_models(models, ids).len(),
        with_models(models, ids).take(models.len() as int) == models,
        forall|i: int|
            0 <= i < ids.len() && trim(#[trigger] ids[i]).len() > 0 ==> lists_model(
                with_models(models, ids),
                trim(ids[i]),
            ),
        forall|m: Seq<char>| #[trigger]
            with_models(models, ids).contains(m) ==> models.contains(m) || exists|i: int|
                0 <= i < ids.len() && m == trim(#[trigger] ids[i]),
    decreases ids.len(),
{
    let all = with_models(models, ids);
    if ids.len() == 0 {
        assert(all.take(models.len() as int) =~= models);
    } else {
        let init = ids.drop_last();
        let n = ids.len() - 1;
        let part = with_models(models, init);
        adding_models_lists_exactly_those(models, init);
        assert(all.take(models.len() as int) =~= part.take(models.len() as int));
        assert forall|i: int| 0 <= i < ids.len() && trim(#[trigger] ids[i]).len() > 0 implies
            lists_model(all, trim(ids[i])) by {
            let m = trim(ids[i]);
            if i < n {
                assert(init[i] == ids[i]);
                let k = choose|k: int|
                    0 <= k < part.len() && lower(#[trigger] part[k]) == lower(m);
                assert(lower(all[k]) == lower(m));
            } else if lists_model(part, m) {
                assert(all == part);
            } else {
                assert(all[part.len() as int] == m);
                assert(lower(all[part.len() as int]) == lower(m));
            }
        }
        assert forall|m: Seq<char>| #[trigger] all.contains(m) implies models.contains(m)
            || exists|i: int| 0 <= i < ids.len() && m == trim(#[trigger] ids[i]) by {
            let k = choose|k: int| 0 <= k < all.len() && all[k] == m;
            if k < part.len() {
                assert(part[k] == m);
                assert(part.contains(m));
                if !models.contains(m) {
                    let i = choose|i: int| 0 <= i < init.len() && m == trim(#[trigger] init[i]);
                    assert(ids[i] == init[i]);
                }
            } else {
                assert(m == trim(ids[n]));
            }
        }
    }
}

/// The model list of some catalog rows is clean: no id occurs twice, whatever
/// its case.
pub proof fn catalog_models_are_clean(rows: Seq<OfferingView>)
    ensures
        clean_models(catalog_models(rows)),
{
    adding_models_keeps_a_list_clean(Seq::empty(), sorted_wire_ids(rows));
}

/// The model list of some catalog rows lists the id of every row, blanks aside,
/// and nothing else.
pub proof fn every_row_is_listed(rows: Seq<OfferingView>)
    ensures
        forall|i: int|
            0 <= i < rows.len() && trim((#[trigger] rows[i]).wire_model_id).len() > 0
                ==> lists_model(catalog_models(rows), trim(rows[i].wire_model_id)),
        forall|m: Seq<char>| #[trigger]
            catalog_models(rows).contains(m) ==> exists|i: int|
                0 <= i < rows.len() && m == trim((#[trigger] rows[i]).wire_model_id),
        rows.len() == 0 ==> catalog_models(rows).len() == 0,
{
    let ranks = default_ranks(rows);
    let keys = wire_ids(rows);
    let order = sorted_order(ranks, keys);
    let ids = sorted_wire_ids(rows);
    sorted_order_exists(ranks, keys);
    lemma_sorted_order_has_every_position(ranks, keys, order);
    adding_models_lists_exactly_those(Seq::empty(), ids);
    assert forall|i: int|
        0 <= i < rows.len() && trim((#[trigger] rows[i]).wire_model_id).len() > 0 implies lists_model(
        catalog_models(rows),
        trim(rows[i].wire_model_id),
    ) by {
        assert(order.contains(i));
        let j = choose|j: int| 0 <= j < order.len() && order[j] == i;
        assert(ids[j] == rows[i].wire_model_id);
    }
    assert forall|m: Seq<char>| #[trigger] catalog_models(rows).contains(m) implies exists|i: int|
        0 <= i < rows.len() && m == trim((#[trigger] rows[i]).wire_model_id) by {
        let j = choose|j: int| 0 <= j < ids.len() && m == trim(#[trigger] ids[j]);
        assert(m == trim(rows[order[j]].wire_model_id));
    }
}

/// The first model of a list is a provider default where some row with an id is
/// one.
pub proof fn a_default_comes_first(rows: Seq<OfferingView>, i: int)
    requires
        0 <= i < rows.len(),
        rows[i].default_for_provider,
        forall|k: int|
            0 <= k < rows.len() ==> trim((#[trigger] rows[k]).wire_model_id).len() > 0,
    ensures
        catalog_models(rows).len() > 0,
        exists|k: int|
            0 <= k < rows.len() && (#[trigger] rows[k]).default_for_provider && catalog_models(
                rows,
            )[0] == trim(rows[k].wire_model_id),
{
    let ranks = default_ranks(rows);
    let keys = wire_ids(rows);
    let order = sorted_order(ranks, keys);
    let ids = sorted_wire_ids(rows);
    sorted_order_exists(ranks, keys);
    lemma_sorted_order_has_every_position(ranks, keys, order);
    assert(order.contains(i));
    let j = choose|j: int| 0 <= j < order.len() && order[j] == i;
    let k = order[0];
    if j > 0 {
        assert(ahead(ranks, keys, order[0], order[j]));
    }
    assert(rows[k].default_for_provider);
    assert(trim(rows[k].wire_model_id).len() > 0);
    lemma_first_stays(ids, ids.len());
    assert(ids.take(ids.len() as int) =~= ids);
}

proof fn lemma_first_stays(ids: Seq<Seq<char>>, n: nat)
    requires
        1 <= n <= ids.len(),
        trim(ids[0]).len() > 0,
    ensures
        with_models(Seq::empty(), ids.take(n as int)).len() > 0,
        with_models(Seq::empty(), ids.take(n as int))[0] == trim(ids[0]),
    decreases n,
{
    let part = ids.take(n as int);
    if n > 1 {
        lemma_first_stays(ids, (n - 1) as nat);
        assert(part.drop_last() =~= ids.take(n - 1));
    } else {
        assert(part.drop_last() =~= Seq::<Seq<char>>::empty());
        assert(part.last() == ids[0]);
        assert(with_models(Seq::<Seq<char>>::empty(), part.drop_last()) =~= Seq::<
            Seq<char>,
        >::empty());
    }
}

/// Adding the ids of a clean list to an empty one gives that list.
pub proof fn adding_a_clean_list_gives_it_back(ids: Seq<Seq<char>>)
    requires
        clean_models(ids),
    ensures
        with_models(Seq::empty(), ids) == ids,
    decreases ids.len(),
{
    if ids.len() > 0 {
        let init = ids.drop_last();
        let n = ids.len() - 1;
        assert forall|i: int| 0 <= i < init.len() implies (#[trigger] init[i]).len() > 0 && trim(
            init[i],
        ) == init[i] by {
            assert(init[i] == ids[i]);
        }
        assert forall|i: int, j: int| 0 <= i < j < init.len() implies lower(#[trigger] init[i])
            != lower(#[trigger] init[j]) by {
            assert(init[i] == ids[i] && init[j] == ids[j]);
        }
        adding_a_clean_list_gives_it_back(init);
        assert(ids[n] == ids.last());
        if lists_model(init, ids.last()) {
            let k = choose|k: int| 0 <= k < init.len() && lower(#[trigger] init[k]) == lower(
                ids.last(),
            );
            assert(ids[k] == init[k]);
        }
        assert(init.push(ids.last()) =~= ids);
    } else {
        assert(ids =~= Seq::<Seq<char>>::empty());
    }
}

/// A byte that a catalog model id may hold: an ASCII letter or digit, or one of
/// `.`, `_`, `:`, `/` and `-`.
pub open spec fn model_id_char(c: char) -> bool {
    ascii_alphanumeric(c) || c == '.' || c == '_' || c == ':' || c == '/' || c == '-'
}

/// Whether `c` is an ASCII letter or digit.
pub open spec fn ascii_alphanumeric(c: char) -> bool {
    'a' <= c <= 'z' || 'A' <= c <= 'Z' || '0' <= c <= '9'
}

/// Whether `value` may stand as a model id in a catalog: of one to 256 allowed
/// characters, one of them a letter or digit.
pub open spec fn catalog_model_id(value: Seq<char>) -> bool {
    &&& 0 < value.len() <= 256
    &&& forall|i: int| 0 <= i < value.len() ==> model_id_char(#[trigger] value[i])
    &&& exists|i: int| 0 <= i < value.len() && ascii_alphanumeric(#[trigger] value[i])
}

/// Whether `c` is an ASCII letter or digit.
fn is_alphanumeric(c: char) -> (r: bool)
    ensures
        r == ascii_alphanumeric(c),
{
    ('a' <= c && c <= 'z') || ('A' <= c && c <= 'Z') || ('0' <= c && c <= '9')
}

/// Whether a value may stand as a model id in a catalog.
#[must_use]
pub fn valid_catalog_model_id(value: &str) -> (r: bool)
    ensures
        r == catalog_model_id(value@),
{
    let chars: Vec<char> = chars_of(value);
    if chars.len() == 0 || chars.len() > 256 {
        return false;
    }
    let mut found: bool = false;
    let mut i: usize = 0;
    while i < chars.len()
        invariant
            i <= chars.len(),
            chars@ == value@,
            forall|k: int| 0 <= k < i ==> model_id_char(#[trigger] value@[k]),
            found == (exists|k: int| 0 <= k < i && ascii_alphanumeric(#[trigger] value@[k])),
        decreases chars.len() - i,
    {
        let c: char = chars[i];
        assert(c == value@[i as int]);
        if is_alphanumeric(c) {
            found = true;
        } else if !(c == '.' || c == '_' || c == ':' || c == '/' || c == '-') {
            return false;
        }
        i += 1;
    }
    found
}

/// Where each entry of the list that ids add up to comes from.
spec fn sources(ids: Seq<Seq<char>>) -> Seq<int>
    decreases ids.len(),
{
    if ids.len() == 0 {
        Seq::empty()
    } else {
        let init = ids.drop_last();
        let m = trim(ids.last());
        if m.len() == 0 || lists_model(with_models(Seq::empty(), init), m) {
            sources(init)
        } else {
            sources(init).push(ids.len() - 1)
        }
    }
}

/// Each entry of a list is the first of the ids that are the same up to case, and
/// entries come in the order of these.
proof fn lemma_sources(ids: Seq<Seq<char>>)
    ensures
        sources(ids).len() == with_models(Seq::empty(), ids).len(),
        forall|k: int|
            0 <= k < sources(ids).len() ==> 0 <= #[trigger] sources(ids)[k] < ids.len()
                && with_models(Seq::empty(), ids)[k] == trim(ids[sources(ids)[k]]) && trim(
                ids[sources(ids)[k]],
            ).len() > 0,
        forall|i: int, j: int|
            0 <= i < j < sources(ids).len() ==> #[trigger] sources(ids)[i]
                < #[trigger] sources(ids)[j],
        forall|k: int, q: int|
            0 <= k < sources(ids).len() && 0 <= q < sources(ids)[k] ==> lower(
                trim(#[trigger] ids[q]),
            ) != lower(#[trigger] with_models(Seq::empty(), ids)[k]),
    decreases ids.len(),
{
    if ids.len() > 0 {
        let none = Seq::<Seq<char>>::empty();
        let init = ids.drop_last();
        let n = ids.len() - 1;
        let m = trim(ids.last());
        let part = with_models(none, init);
        let all = with_models(none, ids);
        let src = sources(ids);
        lemma_sources(init);
        adding_models_lists_exactly_those(none, init);
        assert forall|k: int, q: int| 0 <= k < src.len() && 0 <= q < src[k] implies lower(
            trim(#[trigger] ids[q]),
        ) != lower(#[trigger] all[k]) by {
            assert(init[q] == ids[q]);
            if k < part.len() {
                assert(part[k] == all[k]);
                assert(sources(init)[k] == src[k]);
            } else if lower(trim(ids[q])) == lower(m) {
                assert(lower(trim(ids[q])).len() == lower(m).len());
                assert(trim(init[q]).len() > 0);
                let i = choose|i: int|
                    0 <= i < part.len() && lower(#[trigger] part[i]) == lower(trim(init[q]));
                assert(lists_model(part, m));
            }
        }
        assert forall|k: int| 0 <= k < src.len() implies 0 <= #[trigger] src[k] < ids.len()
            && all[k] == trim(ids[src[k]]) && trim(ids[src[k]]).len() > 0 by {
            if k < part.len() {
                assert(sources(init)[k] == src[k]);
                assert(init[src[k]] == ids[src[k]]);
            }
        }
    }
}

/// Whether `model` is, up to case, the id of a provider default.
pub open spec fn names_a_default(rows: Seq<OfferingView>, model: Seq<char>) -> bool {
    exists|i: int|
        0 <= i < rows.len() && (#[trigger] rows[i]).default_for_provider && lower(
            trim(rows[i].wire_model_id),
        ) == lower(model)
}

/// An entry of a model list names a default exactly where it comes from a default
/// row.
proof fn lemma_default_source(rows: Seq<OfferingView>, k: int)
    requires
        0 <= k < catalog_models(rows).len(),
    ensures
        sources(sorted_wire_ids(rows)).len() == catalog_models(rows).len(),
        names_a_default(rows, catalog_models(rows)[k]) == rows[sorted_order(
            default_ranks(rows),
            wire_ids(rows),
        )[sources(sorted_wire_ids(rows))[k]]].default_for_provider,
{
    let ranks = default_ranks(rows);
    let keys = wire_ids(rows);
    let order = sorted_order(ranks, keys);
    let ids = sorted_wire_ids(rows);
    let models = catalog_models(rows);
    sorted_order_exists(ranks, keys);
    lemma_sorted_order_has_every_position(ranks, keys, order);
    lemma_sources(ids);
    let p = sources(ids)[k];
    assert(ids[p] == rows[order[p]].wire_model_id);
    if names_a_default(rows, models[k]) {
        let i = choose|i: int|
            0 <= i < rows.len() && (#[trigger] rows[i]).default_for_provider && lower(
                trim(rows[i].wire_model_id),
            ) == lower(models[k]);
        assert(order.contains(i));
        let q = choose|q: int| 0 <= q < order.len() && order[q] == i;
        assert(ids[q] == rows[i].wire_model_id);
        if q < p {
            assert(lower(trim(ids[q])) != lower(models[k]));
        }
        if p < q {
            assert(ahead(ranks, keys, order[p], order[q]));
        }
    }
}

/// The ids of default rows come before all others.
pub proof fn defaults_come_before_the_rest(rows: Seq<OfferingView>, i: int, j: int)
    requires
        0 <= i < j < catalog_models(rows).len(),
        names_a_default(rows, catalog_models(rows)[j]),
    ensures
        names_a_default(rows, catalog_models(rows)[i]),
{
    let ranks = default_ranks(rows);
    let keys = wire_ids(rows);
    let order = sorted_order(ranks, keys);
    let src = sources(sorted_wire_ids(rows));
    sorted_order_exists(ranks, keys);
    lemma_sources(sorted_wire_ids(rows));
    lemma_default_source(rows, i);
    lemma_default_source(rows, j);
    assert(src[i] < src[j]);
    assert(ahead(ranks, keys, order[src[i]], order[src[j]]));
}

/// Among the ids of default rows, and among the others, each id comes before the
/// greater ones, where ids carry no surrounding white space.
pub proof fn each_group_is_ascending(rows: Seq<OfferingView>, i: int, j: int)
    requires
        forall|k: int|
            0 <= k < rows.len() ==> trim((#[trigger] rows[k]).wire_model_id)
                == rows[k].wire_model_id,
        0 <= i < j < catalog_models(rows).len(),
        names_a_default(rows, catalog_models(rows)[i]) == names_a_default(
            rows,
            catalog_models(rows)[j],
        ),
    ensures
        precedes(catalog_models(rows)[i], catalog_models(rows)[j]),
{
    let ranks = default_ranks(rows);
    let keys = wire_ids(rows);
    let order = sorted_order(ranks, keys);
    let ids = sorted_wire_ids(rows);
    let src = sources(ids);
    sorted_order_exists(ranks, keys);
    lemma_sources(ids);
    lemma_default_source(rows, i);
    lemma_default_source(rows, j);
    catalog_models_are_clean(rows);
    assert(src[i] < src[j]);
    assert(ahead(ranks, keys, order[src[i]], order[src[j]]));
    assert(ids[src[i]] == rows[order[src[i]]].wire_model_id);
    assert(ids[src[j]] == rows[order[src[j]]].wire_model_id);
    assert(lower(catalog_models(rows)[i]) != lower(catalog_models(rows)[j]));
}

/// What a row is ordered by.
spec fn sort_key(row: OfferingView) -> (u8, Seq<char>) {
    (
        if row.default_for_provider {
            0u8
        } else {
            1u8
        },
        row.wire_model_id,
    )
}

spec fn not_after(a: (u8, Seq<char>), b: (u8, Seq<char>)) -> bool {
    a.0 < b.0 || (a.0 == b.0 && (a.1 == b.1 || precedes(a.1, b.1)))
}

/// The sort keys of rows, in order.
spec fn sorted_keys(rows: Seq<OfferingView>) -> Seq<(u8, Seq<char>)> {
    sorted_order(default_ranks(rows), wire_ids(rows)).map_values(|i: int| sort_key(rows[i]))
}

proof fn lemma_not_after_orders()
    ensures
        vstd::relations::total_ordering(
            |a: (u8, Seq<char>), b: (u8, Seq<char>)| not_after(a, b),
        ),
{
    let r = |a: (u8, Seq<char>), b: (u8, Seq<char>)| not_after(a, b);
    assert forall|x: (u8, Seq<char>), y: (u8, Seq<char>)|
        #[trigger] r(x, y) && #[trigger] r(y, x) implies x == y by {
        text_order_is_strict_and_total(x.1, y.1, x.1);
    }
    assert forall|x: (u8, Seq<char>), y: (u8, Seq<char>)| #[trigger] r(x, y) || r(y, x) by {
        text_order_is_strict_and_total(x.1, y.1, x.1);
    }
    assert forall|x: (u8, Seq<char>), y: (u8, Seq<char>), z: (u8, Seq<char>)|
        #[trigger] r(x, y) && #[trigger] r(y, z) implies r(x, z) by {
        text_order_is_strict_and_total(x.1, y.1, z.1);
    }
}

proof fn lemma_sorted_keys(rows: Seq<OfferingView>)
    ensures
        vstd::relations::sorted_by(
            sorted_keys(rows),
            |a: (u8, Seq<char>), b: (u8, Seq<char>)| not_after(a, b),
        ),
        sorted_keys(rows).to_multiset() == rows.map_values(
            |row: OfferingView| sort_key(row),
        ).to_multiset(),
        sorted_wire_ids(rows) == sorted_keys(rows).map_values(|k: (u8, Seq<char>)| k.1),
{
    let ranks = default_ranks(rows);
    let keys = wire_ids(rows);
    let order = sorted_order(ranks, keys);
    let all = Seq::new(keys.len(), |i: int| i);
    let f = |i: int| sort_key(rows[i]);
    sorted_order_exists(ranks, keys);
    lemma_sorted_order_has_every_position(ranks, keys, order);
    lemma_mapped_permutation(order, all, f);
    assert(all.map_values(f) =~= rows.map_values(|row: OfferingView| sort_key(row)));
    assert forall|i: int, j: int| 0 <= i < j < order.len() implies not_after(
        #[trigger] sorted_keys(rows)[i],
        #[trigger] sorted_keys(rows)[j],
    ) by {
        assert(ahead(ranks, keys, order[i], order[j]));
    }
    assert(sorted_wire_ids(rows) =~= sorted_keys(rows).map_values(|k: (u8, Seq<char>)| k.1));
}

/// The order in which rows are given makes no difference to their model list.
pub proof fn row_order_makes_no_difference(a: Seq<OfferingView>, b: Seq<OfferingView>)
    requires
        a.to_multiset() == b.to_multiset(),
    ensures
        catalog_models(a) == catalog_models(b),
{
    lemma_not_after_orders();
    lemma_sorted_keys(a);
    lemma_sorted_keys(b);
    lemma_mapped_permutation(a, b, |row: OfferingView| sort_key(row));
    vstd::seq_lib::lemma_sorted_unique(
        sorted_keys(a),
        sorted_keys(b),
        |x: (u8, Seq<char>), y: (u8, Seq<char>)| not_after(x, y),
    );
    assert(sorted_keys(a) =~= sorted_keys(b));
}


/// What may stand as a model id: one to 256 characters, all of them ASCII letters,
/// digits, `.`, `_`, `:`, `/` or `-`, and one of them a letter or digit. So two
/// ids in a row are one too, as far as they are not too long.
pub proof fn model_ids_are_of_allowed_characters(a: Seq<char>, b: Seq<char>, c: char)
    ensures
        catalog_model_id(seq![c]) <==> ('a' <= c <= 'z' || 'A' <= c <= 'Z' || '0' <= c <= '9'),
        catalog_model_id(a) ==> (catalog_model_id(a.push(c)) <==> a.len() < 256 && ('a' <= c <= 'z'
            || 'A' <= c <= 'Z' || '0' <= c <= '9' || c == '.' || c == '_' || c == ':' || c == '/'
            || c == '-')),
        catalog_model_id(a) && catalog_model_id(b) && a.len() + b.len() <= 256 ==> catalog_model_id(
            a + b,
        ),
        !catalog_model_id(Seq::empty()),
{
    assert(seq![c][0] == c);
    if catalog_model_id(a) {
        let k = choose|k: int| 0 <= k < a.len() && ascii_alphanumeric(#[trigger] a[k]);
        assert(a.push(c)[k] == a[k]);
        assert((a + b)[k] == a[k]);
        assert(a.push(c)[a.len() as int] == c);
        if catalog_model_id(a.push(c)) {
            assert(model_id_char(a.push(c)[a.len() as int]));
        }
    }
}

} // verus!
