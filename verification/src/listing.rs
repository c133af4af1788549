//! The model listing of one route.

use vstd::prelude::*;
use crate::credentials::joined;
use crate::model_list::{push_unique_model, with_model};
use crate::order::{
    ahead, as_ints, is_sorted_order, lemma_sorted_order_has_every_position, no_ranks,
    sorted_order, sorted_order_exists, sorted_positions,
};
use crate::receipts::{shown_time, time_text, CatalogUpdateReceipt, ReceiptView};
use crate::text::{
    lower, occurs_at, precedes, replace_text, replaced, same_ignoring_case, same_text,
    text_order_is_strict_and_total, texts, the_first_occurrence_is_replaced, trim,
};

verus! {

broadcast use vstd::string::group_string_axioms;

/// A list of texts in order.
pub open spec fn in_order(list: Seq<Seq<char>>) -> Seq<Seq<char>> {
    sorted_order(no_ranks(list.len()), list).map_values(|i: int| list[i])
}

/// A list without a text that equals the one before it.
pub open spec fn without_doubles(list: Seq<Seq<char>>) -> Seq<Seq<char>>
    decreases list.len(),
{
    if list.len() == 0 {
        list
    } else {
        let init = without_doubles(list.drop_last());
        if list.len() > 1 && list[list.len() - 2] == list.last() {
            init
        } else {
            init.push(list.last())
        }
    }
}

/// Whether a default model names a model: it is neither empty nor the automatic
/// choice.
pub open spec fn names_a_model(default_model: Seq<char>) -> bool {
    default_model.len() > 0 && lower(default_model) != lower("auto"@)
}

/// The models that a listing shows: those of the route and its default model, in
/// order, each once.
pub open spec fn listed_models(models: Seq<Seq<char>>, default_model: Seq<char>) -> Seq<Seq<char>> {
    without_doubles(
        in_order(
            if names_a_model(default_model) {
                with_model(models, default_model)
            } else {
                models
            },
        ),
    )
}

/// The models that a listing shows.
#[must_use]
pub fn models_to_list(models: Vec<String>, default_model: &str) -> (r: Vec<String>)
    ensures
        texts(r@) == listed_models(texts(models@), default_model@),
{
    let mut all: Vec<String> = models;
    if default_model.unicode_len() > 0 && !same_ignoring_case(default_model, "auto") {
        push_unique_model(&mut all, default_model);
    }
    let ghost names = texts(all@);
    let mut ranks: Vec<u8> = Vec::new();
    let mut i: usize = 0;
    while i < all.len()
        invariant
            i <= all.len(),
            ranks.len() == i,
            forall|k: int| 0 <= k < i ==> #[trigger] ranks@[k] == 0,
        decreases all.len() - i,
    {
        ranks.push(0);
        i += 1;
    }
    assert(ranks@ =~= no_ranks(names.len()));
    let order: Vec<usize> = sorted_positions(&ranks, &all);
    let ghost sorted = in_order(names);
    let mut out: Vec<String> = Vec::new();
    let mut j: usize = 0;
    assert(sorted.take(0) =~= Seq::<Seq<char>>::empty());
    assert(texts(out@) =~= Seq::<Seq<char>>::empty());
    while j < order.len()
        invariant
            j <= order.len(),
            names == texts(all@),
            sorted == in_order(names),
            sorted.len() == order.len(),
            is_sorted_order(ranks@, names, as_ints(order@)),
            as_ints(order@) == sorted_order(no_ranks(names.len()), names),
            texts(out@) == without_doubles(sorted.take(j as int)),
        decreases order.len() - j,
    {
        proof {
            assert(as_ints(order@)[j as int] == order@[j as int]);
            assert(names.len() == all@.len());
            assert(sorted[j as int] == all@[order@[j as int] as int]@);
            assert(sorted.take(j + 1).drop_last() =~= sorted.take(j as int));
            assert(sorted.take(j + 1).last() == sorted[j as int]);
            if j > 0 {
                assert(as_ints(order@)[j - 1] == order@[j - 1]);
                assert(sorted[j - 1] == all@[order@[j - 1] as int]@);
                assert(sorted.take(j + 1)[j - 1] == sorted[j - 1]);
            }
        }
        let name: &String = &all[order[j]];
        let doubled: bool = j > 0 && same_text(all[order[j - 1]].as_str(), name.as_str());
        if !doubled {
            let ghost before = out@;
            out.push(name.clone());
            assert(texts(out@) =~= texts(before).push(name@));
        }
        j += 1;
    }
    assert(sorted.take(j as int) =~= sorted);
    out
}

/// The header of a listing with its placeholders filled in.
pub open spec fn header_text(
    template: Seq<char>,
    provider: Seq<char>,
    default_model: Seq<char>,
) -> Seq<char> {
    replaced(replaced(template, "{provider}"@, provider), "{model}"@, default_model)
}

/// The header of a listing.
#[must_use]
pub fn listing_header(template: &str, provider: &str, default_model: &str) -> (r: String)
    ensures
        r@ == header_text(template@, provider@, default_model@),
{
    proof {
        reveal_strlit("{provider}");
        reveal_strlit("{model}");
    }
    let named: String = replace_text(template, "{provider}", provider);
    replace_text(named.as_str(), "{model}", default_model)
}

/// The line that says where a listing comes from. `status` is the status as it
/// is shown.
pub open spec fn source_text(receipt: ReceiptView, status: Seq<char>) -> Seq<char> {
    "source="@ + receipt.source + "\tstatus="@ + status + "\tfetched_at="@ + shown_time(
        receipt.fetched_at,
    ) + "\tobserved_at="@ + shown_time(receipt.observed_at)
}

/// The line that says where a listing comes from.
#[must_use]
pub fn listing_source_line(receipt: &CatalogUpdateReceipt, status: &str) -> (r: String)
    ensures
        r@ == source_text(receipt@, status@),
{
    let mut line: String = joined("source=", receipt.source.as_str());
    line.append("\tstatus=");
    line.append(status);
    line.append("\tfetched_at=");
    let fetched: String = time_text(receipt.fetched_at);
    line.append(fetched.as_str());
    line.append("\tobserved_at=");
    let observed: String = time_text(receipt.observed_at);
    line.append(observed.as_str());
    line
}

/// The line of one model: the default model is marked.
pub open spec fn model_text(model: Seq<char>, default_model: Seq<char>) -> Seq<char> {
    if model == default_model {
        "* "@ + model
    } else {
        "  "@ + model
    }
}

/// The line of one model.
#[must_use]
pub fn model_line(model: &str, default_model: &str) -> (r: String)
    ensures
        r@ == model_text(model@, default_model@),
{
    if same_text(model, default_model) {
        joined("* ", model)
    } else {
        joined("  ", model)
    }
}

/// The lines of a list of models.
pub open spec fn model_texts(models: Seq<Seq<char>>, default_model: Seq<char>) -> Seq<Seq<char>> {
    models.map_values(|m: Seq<char>| model_text(m, default_model))
}

/// The messages that frame a listing.
#[derive(Debug)]
pub struct ListingMessages {
    /// The header, with placeholders for the provider and its default model.
    pub header: String,
    /// The note for a provider without a cached listing.
    pub fallback: String,
    /// The closing hint.
    pub hint: String,
}

/// A listing: header, source, a note when nothing is cached, the models, and the
/// closing hint.
pub open spec fn listing_texts(
    messages: &ListingMessages,
    provider: Seq<char>,
    default_model: Seq<char>,
    receipt: ReceiptView,
    status: Seq<char>,
    models: Seq<Seq<char>>,
) -> Seq<Seq<char>> {
    let top = seq![
        header_text(messages.header@, provider, default_model),
        source_text(receipt, status),
    ];
    let noted = if receipt.model_count == 0 {
        top.push(messages.fallback@)
    } else {
        top
    };
    (noted + model_texts(models, default_model)).push(messages.hint@)
}

/// A listing, line by line.
#[must_use]
pub fn listing_report(
    messages: &ListingMessages,
    provider: &str,
    default_model: &str,
    receipt: &CatalogUpdateReceipt,
    status: &str,
    models: &Vec<String>,
) -> (r: Vec<String>)
    ensures
        texts(r@) == listing_texts(
            messages,
            provider@,
            default_model@,
            receipt@,
            status@,
            texts(models@),
        ),
{
    let mut out: Vec<String> = Vec::new();
    out.push(listing_header(messages.header.as_str(), provider, default_model));
    out.push(listing_source_line(receipt, status));
    assert(texts(out@) =~= seq![
        header_text(messages.header@, provider@, default_model@),
        source_text(receipt@, status@),
    ]);
    if receipt.model_count == 0 {
        let ghost before = out@;
        out.push(messages.fallback.clone());
        assert(texts(out@) =~= texts(before).push(messages.fallback@));
    }
    let ghost top = texts(out@);
    let ghost lines = model_texts(texts(models@), default_model@);
    let mut i: usize = 0;
    assert(top + lines.take(0) =~= top);
    while i < models.len()
        invariant
            i <= models.len(),
            lines == model_texts(texts(models@), default_model@),
            texts(out@) == top + lines.take(i as int),
        decreases models.len() - i,
    {
        let ghost before = out@;
        out.push(model_line(models[i].as_str(), default_model));
        proof {
            assert(lines[i as int] == model_text(models@[i as int]@, default_model@));
            assert(texts(out@) =~= texts(before).push(lines[i as int]));
            assert(top + lines.take(i + 1) =~= (top + lines.take(i as int)).push(
                lines[i as int],
            ));
        }
        i += 1;
    }
    assert(lines.take(i as int) =~= lines);
    let ghost before = out@;
    out.push(messages.hint.clone());
    assert(texts(out@) =~= texts(before).push(messages.hint@));
    out
}

proof fn lemma_doubles(list: Seq<Seq<char>>)
    requires
        forall|i: int, j: int|
            0 <= i < j < list.len() ==> precedes(#[trigger] list[i], #[trigger] list[j])
                || list[i] == list[j],
    ensures
        list.len() > 0 ==> without_doubles(list).len() > 0 && without_doubles(list).last()
            == list.last(),
        forall|i: int, j: int|
            0 <= i < j < without_doubles(list).len() ==> precedes(
                #[trigger] without_doubles(list)[i],
                #[trigger] without_doubles(list)[j],
            ),
        forall|x: Seq<char>| #[trigger] without_doubles(list).contains(x) <==> list.contains(x),
    decreases list.len(),
{
    if list.len() > 0 {
        let init = list.drop_last();
        let n = list.len() - 1;
        let kept = without_doubles(init);
        let all = without_doubles(list);
        assert forall|i: int, j: int| 0 <= i < j < init.len() implies precedes(
            #[trigger] init[i],
            #[trigger] init[j],
        ) || init[i] == init[j] by {
            assert(init[i] == list[i] && init[j] == list[j]);
        }
        lemma_doubles(init);
        let doubled = list.len() > 1 && list[n - 1] == list.last();
        if list.len() > 1 {
            assert(init.last() == list[n - 1]);
        }
        if !doubled {
            assert forall|i: int, j: int| 0 <= i < j < all.len() implies precedes(
                #[trigger] all[i],
                #[trigger] all[j],
            ) by {
                if j == kept.len() {
                    assert(precedes(list[n - 1], list[n]));
                    assert(kept[kept.len() - 1] == list[n - 1]);
                    if i < kept.len() - 1 {
                        text_order_is_strict_and_total(
                            kept[i],
                            kept[kept.len() - 1],
                            list[n],
                        );
                    }
                }
            }
        }
        assert forall|x: Seq<char>| #[trigger] all.contains(x) <==> list.contains(x) by {
            if list.contains(x) {
                let k = choose|k: int| 0 <= k < list.len() && list[k] == x;
                if k < n {
                    assert(init[k] == x);
                    assert(init.contains(x));
                    assert(kept.contains(x));
                    let j = choose|j: int| 0 <= j < kept.len() && kept[j] == x;
                    assert(all[j] == x);
                } else {
                    assert(all.last() == x);
                    assert(all[all.len() - 1] == x);
                }
            }
            if all.contains(x) {
                let j = choose|j: int| 0 <= j < all.len() && all[j] == x;
                if j < kept.len() {
                    assert(kept[j] == x);
                    assert(kept.contains(x));
                    assert(init.contains(x));
                    let k = choose|k: int| 0 <= k < init.len() && init[k] == x;
                    assert(list[k] == x);
                } else {
                    assert(list[n] == x);
                }
            }
        }
    }
}

/// A listing is strictly ascending, so it shows each model once, and it shows
/// exactly the models of the route and the default model.
pub proof fn a_listing_shows_each_model_once(models: Seq<Seq<char>>, default_model: Seq<char>)
    ensures
        forall|i: int, j: int|
            0 <= i < j < listed_models(models, default_model).len() ==> precedes(
                #[trigger] listed_models(models, default_model)[i],
                #[trigger] listed_models(models, default_model)[j],
            ),
        forall|x: Seq<char>| #[trigger]
            listed_models(models, default_model).contains(x) <==> (if names_a_model(default_model) {
                with_model(models, default_model)
            } else {
                models
            }).contains(x),
{
    let list = if names_a_model(default_model) {
        with_model(models, default_model)
    } else {
        models
    };
    let ranks = no_ranks(list.len());
    let order = sorted_order(ranks, list);
    let sorted = in_order(list);
    sorted_order_exists(ranks, list);
    lemma_sorted_order_has_every_position(ranks, list, order);
    assert forall|i: int, j: int| 0 <= i < j < sorted.len() implies precedes(
        #[trigger] sorted[i],
        #[trigger] sorted[j],
    ) || sorted[i] == sorted[j] by {
        assert(ahead(ranks, list, order[i], order[j]));
    }
    lemma_doubles(sorted);
    assert forall|x: Seq<char>| #[trigger]
        listed_models(models, default_model).contains(x) <==> list.contains(x) by {
        assert(sorted.contains(x) <==> list.contains(x)) by {
            if list.contains(x) {
                let k = choose|k: int| 0 <= k < list.len() && list[k] == x;
                assert(order.contains(k));
                let p = choose|p: int| 0 <= p < order.len() && order[p] == k;
                assert(sorted[p] == x);
            }
            if sorted.contains(x) {
                let p = choose|p: int| 0 <= p < sorted.len() && sorted[p] == x;
                assert(list[order[p]] == x);
            }
        }
    }
}


/// A listing shows a model exactly where the route has it, or where it is the
/// default model, trimmed, which the route does not have in any case; the
/// automatic choice is no model.
pub proof fn a_listing_shows_the_route_and_its_default(
    models: Seq<Seq<char>>,
    default_model: Seq<char>,
    x: Seq<char>,
)
    ensures
        listed_models(models, default_model).contains(x) <==> models.contains(x) || (
        default_model.len() > 0 && lower(default_model) != lower("auto"@) && x == trim(
            default_model,
        ) && x.len() > 0 && forall|i: int|
            0 <= i < models.len() ==> lower(#[trigger] models[i]) != lower(x)),
{
    a_listing_shows_each_model_once(models, default_model);
    let m = trim(default_model);
    let all = models.push(m);
    if all.contains(x) {
        let i = choose|i: int| 0 <= i < all.len() && all[i] == x;
        if i < models.len() {
            assert(models[i] == x);
        }
    }
    if models.contains(x) {
        let i = choose|i: int| 0 <= i < models.len() && models[i] == x;
        assert(all[i] == x);
    }
    assert(all[models.len() as int] == m);
}

/// The default model is marked, and no other is.
pub proof fn only_the_default_model_is_marked(model: Seq<char>, default_model: Seq<char>)
    ensures
        model_text(model, default_model).len() == model.len() + 2,
        model_text(model, default_model).skip(2) == model,
        model_text(model, default_model)[0] == '*' <==> model == default_model,
        model_text(model, default_model)[0] == ' ' <==> model != default_model,
        model_text(model, default_model)[1] == ' ',
{
    reveal_strlit("* ");
    reveal_strlit("  ");
    assert(("* "@ + model).skip(2) =~= model);
    assert(("  "@ + model).skip(2) =~= model);
}

/// A listing is its header, its source, a note exactly where nothing is cached,
/// one line per model in order, and the hint.
pub proof fn a_listing_has_its_lines_in_order(
    messages: &ListingMessages,
    provider: Seq<char>,
    default_model: Seq<char>,
    receipt: ReceiptView,
    status: Seq<char>,
    models: Seq<Seq<char>>,
)
    ensures
        ({
            let lines = listing_texts(messages, provider, default_model, receipt, status, models);
            let top: int = if receipt.model_count == 0 {
                3
            } else {
                2
            };
            &&& lines.len() == top + models.len() + 1
            &&& lines[0] == header_text(messages.header@, provider, default_model)
            &&& lines[1] == source_text(receipt, status)
            &&& receipt.model_count == 0 ==> lines[2] == messages.fallback@
            &&& forall|i: int|
                0 <= i < models.len() ==> lines[top + i] == model_text(
                    #[trigger] models[i],
                    default_model,
                )
            &&& lines.last() == messages.hint@
        }),
{
}


/// The header names the provider and its default model where the template asks
/// for them: the provider is filled in first, so that a model name is never
/// searched for a placeholder.
pub proof fn a_header_fills_the_provider_in_first(provider: Seq<char>, default_model: Seq<char>)
    ensures
        header_text("{provider}"@, provider, default_model) == replaced(
            provider,
            "{model}"@,
            default_model,
        ),
        header_text("{model}"@, provider, default_model) == default_model,
{
    reveal_strlit("{provider}");
    reveal_strlit("{model}");
    let p = "{provider}"@;
    let m = "{model}"@;
    assert(p.subrange(0, p.len() as int) =~= p);
    assert(occurs_at(p, p, 0));
    the_first_occurrence_is_replaced(p, p, provider, 0);
    assert(p.skip(p.len() as int) =~= Seq::empty());
    assert(p.take(0) + provider + Seq::<char>::empty() =~= provider);
    assert forall|j: int| !#[trigger] occurs_at(m, p, j) by {}
    the_first_occurrence_is_replaced(m, p, provider, 0);
    assert(m.subrange(0, m.len() as int) =~= m);
    assert(occurs_at(m, m, 0));
    the_first_occurrence_is_replaced(m, m, default_model, 0);
    assert(m.skip(m.len() as int) =~= Seq::empty());
    assert(m.take(0) + default_model + Seq::<char>::empty() =~= default_model);
}

/// The source line tells the source and the status, and then the two times.
pub proof fn a_source_line_tells_its_receipt(receipt: ReceiptView, status: Seq<char>)
    ensures
        ({
            let head = "source="@ + receipt.source + "\tstatus="@ + status;
            let times = "\tfetched_at="@ + shown_time(receipt.fetched_at) + "\tobserved_at="@
                + shown_time(receipt.observed_at);
            source_text(receipt, status) == head + times
        }),
{
    let head = "source="@ + receipt.source + "\tstatus="@ + status;
    let times = "\tfetched_at="@ + shown_time(receipt.fetched_at) + "\tobserved_at="@ + shown_time(
        receipt.observed_at,
    );
    assert(source_text(receipt, status) =~= head + times);
}

} // verus!
