//! What becomes of one model when lists of rows are laid over each other.

use vstd::prelude::*;
use crate::live::{cut_rows, GoModelView};
use crate::api_provider::{api_named, ApiProvider};
use crate::offering::{row_key, with_rows, OfferingView};
use crate::pair_map::PairKey;

verus! {

broadcast use vstd::string::group_string_axioms;

/// Whether row `i` is the last one of its model and provider in `rows`.
pub open spec fn last_of_its_key(rows: Seq<OfferingView>, i: int) -> bool {
    &&& 0 <= i < rows.len()
    &&& forall|j: int|
        i < j < rows.len() ==> (#[trigger] rows[j]).provider != rows[i].provider
            || rows[j].wire_model_id != rows[i].wire_model_id
}

/// Whether no row of `rows` is of that model and provider.
pub open spec fn none_of_key(
    rows: Seq<OfferingView>,
    provider: Seq<char>,
    model: Seq<char>,
) -> bool {
    forall|j: int|
        0 <= j < rows.len() ==> (#[trigger] rows[j]).provider != provider
            || rows[j].wire_model_id != model
}

/// A list that has rows of a model has a last one.
pub proof fn a_named_model_has_a_last_row(
    rows: Seq<OfferingView>,
    provider: Seq<char>,
    model: Seq<char>,
) -> (i: int)
    requires
        !none_of_key(rows, provider, model),
    ensures
        last_of_its_key(rows, i),
        rows[i].provider == provider,
        rows[i].wire_model_id == model,
    decreases rows.len(),
{
    let n = rows.len() - 1;
    let j = choose|j: int|
        0 <= j < rows.len() && (#[trigger] rows[j]).provider == provider && rows[j].wire_model_id
            == model;
    if rows[n].provider == provider && rows[n].wire_model_id == model {
        n
    } else {
        let init = rows.drop_last();
        assert(init[j] == rows[j]);
        let i: int = a_named_model_has_a_last_row(init, provider, model);
        assert forall|k: int| i < k < rows.len() implies (#[trigger] rows[k]).provider
            != rows[i].provider || rows[k].wire_model_id != rows[i].wire_model_id by {
            if k < n {
                assert(init[k] == rows[k]);
            }
        }
        i
    }
}

/// Rows laid over a map replace what it has of their models: the last row of a
/// model stands, and what no row names stays as it was.
pub proof fn the_last_row_of_a_model_stands(
    m: Map<PairKey, OfferingView>,
    rows: Seq<OfferingView>,
)
    ensures
        forall|i: int| #[trigger]
            last_of_its_key(rows, i) ==> with_rows(m, rows).dom().contains(
                (rows[i].provider, rows[i].wire_model_id),
            ) && with_rows(m, rows)[(rows[i].provider, rows[i].wire_model_id)] == rows[i],
        forall|provider: Seq<char>, model: Seq<char>| #[trigger]
            none_of_key(rows, provider, model) ==> (with_rows(m, rows).dom().contains(
                (provider, model),
            ) <==> m.dom().contains((provider, model))) && with_rows(m, rows)[(provider, model)]
                == m[(provider, model)],
    decreases rows.len(),
{
    if rows.len() > 0 {
        let init = rows.drop_last();
        let n = rows.len() - 1;
        the_last_row_of_a_model_stands(m, init);
        assert(rows[n] == rows.last());
        assert forall|i: int| #[trigger] last_of_its_key(rows, i) implies with_rows(
            m,
            rows,
        ).dom().contains((rows[i].provider, rows[i].wire_model_id)) && with_rows(
            m,
            rows,
        )[(rows[i].provider, rows[i].wire_model_id)] == rows[i] by {
            if i < n {
                assert forall|j: int| i < j < init.len() implies (#[trigger] init[j]).provider
                    != init[i].provider || init[j].wire_model_id != init[i].wire_model_id by {
                    assert(init[j] == rows[j]);
                }
                assert(last_of_its_key(init, i));
                assert(init[i] == rows[i]);
                assert(rows[n].provider != rows[i].provider || rows[n].wire_model_id
                    != rows[i].wire_model_id);
            }
        }
        assert forall|provider: Seq<char>, model: Seq<char>| #[trigger]
            none_of_key(rows, provider, model) implies (with_rows(m, rows).dom().contains(
            (provider, model),
        ) <==> m.dom().contains((provider, model))) && with_rows(m, rows)[(provider, model)]
            == m[(provider, model)] by {
            assert forall|j: int| 0 <= j < init.len() implies (#[trigger] init[j]).provider
                != provider || init[j].wire_model_id != model by {
                assert(init[j] == rows[j]);
            }
            assert(none_of_key(init, provider, model));
            assert(rows[n].provider != provider || rows[n].wire_model_id != model);
        }
    }
}

/// Laying over only the kept rows: where the rows of a key are all kept, that is
/// laying over all of them; where none is, nothing happens under that key.
pub(crate) proof fn lemma_with_kept_rows(
    m: Map<PairKey, OfferingView>,
    rows: Seq<OfferingView>,
    keep: spec_fn(OfferingView) -> bool,
    key: PairKey,
    kept: bool,
)
    requires
        forall|i: int|
            0 <= i < rows.len() && row_key(#[trigger] rows[i]) == key ==> keep(rows[i]) == kept,
    ensures
        kept ==> (with_rows(m, rows.filter(keep)).dom().contains(key) <==> with_rows(
            m,
            rows,
        ).dom().contains(key)) && with_rows(m, rows.filter(keep))[key] == with_rows(m, rows)[key],
        !kept ==> (with_rows(m, rows.filter(keep)).dom().contains(key) <==> m.dom().contains(key))
            && with_rows(m, rows.filter(keep))[key] == m[key],
    decreases rows.len(),
{
    reveal(Seq::filter);
    if rows.len() > 0 {
        let init = rows.drop_last();
        let n = rows.len() - 1;
        assert forall|i: int| 0 <= i < init.len() && row_key(#[trigger] init[i]) == key implies
            keep(init[i]) == kept by {
            assert(init[i] == rows[i]);
        }
        lemma_with_kept_rows(m, init, keep, key, kept);
        assert(rows[n] == rows.last());
        if keep(rows.last()) {
            assert(rows.filter(keep).drop_last() =~= init.filter(keep));
            assert(rows.filter(keep).last() == rows.last());
        }
    } else {
        assert(rows.filter(keep) =~= rows);
    }
}

/// Two tests that agree on every row keep the same rows.
pub(crate) proof fn lemma_same_filter<T>(
    rows: Seq<T>,
    f: spec_fn(T) -> bool,
    g: spec_fn(T) -> bool,
)
    requires
        forall|x: T| #[trigger] f(x) == g(x),
    ensures
        rows.filter(f) == rows.filter(g),
    decreases rows.len(),
{
    reveal(Seq::filter);
    if rows.len() > 0 {
        lemma_same_filter(rows.drop_last(), f, g);
    }
}

/// Rows are cut one by one: what stays of two lists in a row is what stays of
/// the first and after it what stays of the second.
pub proof fn rows_are_cut_one_by_one(
    a: Seq<OfferingView>,
    b: Seq<OfferingView>,
    go: Seq<GoModelView>,
)
    ensures
        cut_rows(Seq::empty(), go) == Seq::<OfferingView>::empty(),
        cut_rows(a + b, go) == cut_rows(a, go) + cut_rows(b, go),
    decreases b.len(),
{
    if b.len() == 0 {
        assert(a + b =~= a);
        assert(cut_rows(b, go) =~= Seq::empty());
    } else {
        rows_are_cut_one_by_one(a, b.drop_last(), go);
        assert((a + b).drop_last() =~= a + b.drop_last());
        assert((a + b).last() == b.last());
    }
}

/// What becomes of one row: a row of OpenCode Go takes the id and the protocol
/// of the first roster entry for its id and is dropped when there is none; every
/// other row stays as it is.
pub proof fn a_go_row_takes_the_documented_protocol(
    row: OfferingView,
    go: Seq<GoModelView>,
    i: int,
)
    ensures
        api_named(row.provider) != Some(ApiProvider::OpencodeGo) ==> cut_rows(seq![row], go)
            == seq![row],
        api_named(row.provider) == Some(ApiProvider::OpencodeGo) && (forall|j: int|
            0 <= j < go.len() ==> (#[trigger] go[j]).wire_model_id != row.wire_model_id)
            ==> cut_rows(seq![row], go) == Seq::<OfferingView>::empty(),
        api_named(row.provider) == Some(ApiProvider::OpencodeGo) && 0 <= i < go.len()
            && go[i].wire_model_id == row.wire_model_id && (forall|j: int|
            0 <= j < i ==> (#[trigger] go[j]).wire_model_id != row.wire_model_id) ==> cut_rows(
            seq![row],
            go,
        ) == seq![
            OfferingView {
                provider: "opencode-go"@,
                wire_model_id: go[i].canonical,
                endpoint_key: go[i].endpoint_key,
                ..row
            },
        ],
{
    let one = seq![row];
    assert(one.drop_last() =~= Seq::empty());
    assert(cut_rows(one.drop_last(), go) =~= Seq::empty());
    assert(one.last() == row);
    lemma_go_entry(go, row.wire_model_id, i);
}

proof fn lemma_go_entry(go: Seq<GoModelView>, model: Seq<char>, i: int)
    ensures
        (forall|j: int| 0 <= j < go.len() ==> (#[trigger] go[j]).wire_model_id != model)
            ==> crate::live::go_entry(go, model) is None,
        0 <= i < go.len() && go[i].wire_model_id == model && (forall|j: int|
            0 <= j < i ==> (#[trigger] go[j]).wire_model_id != model)
            ==> crate::live::go_entry(go, model) == Some(go[i]),
    decreases go.len(),
{
    if go.len() > 0 && go[0].wire_model_id != model {
        let rest = go.drop_first();
        lemma_go_entry(rest, model, i - 1);
        if forall|j: int| 0 <= j < go.len() ==> (#[trigger] go[j]).wire_model_id != model {
            assert forall|j: int| 0 <= j < rest.len() implies (#[trigger] rest[j]).wire_model_id
                != model by {
                assert(rest[j] == go[j + 1]);
            }
        }
        if 0 < i < go.len() {
            assert(rest[i - 1] == go[i]);
            assert forall|j: int| 0 <= j < i - 1 && (forall|k: int|
                0 <= k < i ==> (#[trigger] go[k]).wire_model_id != model) implies (
            #[trigger] rest[j]).wire_model_id != model by {
                assert(rest[j] == go[j + 1]);
            }
        }
    }
}

} // verus!
