//! Facts about filtered and mapped sequences.

use vstd::prelude::*;

verus! {

/// Filtering one element more appends it when it is kept.
pub proof fn lemma_filter_step<T>(list: Seq<T>, keep: spec_fn(T) -> bool, i: int)
    requires
        0 <= i < list.len(),
    ensures
        list.take(i + 1).filter(keep) == if keep(list[i]) {
            list.take(i).filter(keep).push(list[i])
        } else {
            list.take(i).filter(keep)
        },
{
    reveal(Seq::filter);
    assert(list.take(i + 1).drop_last() =~= list.take(i));
    assert(list.take(i + 1).last() == list[i]);
}

/// Filtering nothing gives nothing, and taking everything changes nothing.
pub proof fn lemma_filter_ends<T>(list: Seq<T>, keep: spec_fn(T) -> bool)
    ensures
        list.take(0).filter(keep) == Seq::<T>::empty(),
        list.take(list.len() as int) == list,
{
    reveal(Seq::filter);
    assert(list.take(0).filter(keep) =~= Seq::<T>::empty());
    assert(list.take(list.len() as int) =~= list);
}

/// What a filtered sequence holds.
pub proof fn lemma_filter_holds<T>(list: Seq<T>, keep: spec_fn(T) -> bool)
    ensures
        forall|x: T| #[trigger] list.filter(keep).contains(x) <==> list.contains(x) && keep(x),
    decreases list.len(),
{
    reveal(Seq::filter);
    if list.len() > 0 {
        let init = list.drop_last();
        lemma_filter_holds(init, keep);
        assert forall|x: T| #[trigger] list.filter(keep).contains(x) <==> list.contains(x) && keep(
            x,
        ) by {
            let n = list.len() - 1;
            if list.contains(x) && keep(x) {
                let j = choose|j: int| 0 <= j < list.len() && list[j] == x;
                if j < n {
                    assert(init[j] == x);
                    assert(init.contains(x));
                    assert(init.filter(keep).contains(x));
                    let k = choose|k: int|
                        0 <= k < init.filter(keep).len() && init.filter(keep)[k] == x;
                    assert(list.filter(keep)[k] == x);
                } else {
                    assert(list.filter(keep).last() == x);
                }
            }
            if list.filter(keep).contains(x) {
                let k = choose|k: int|
                    0 <= k < list.filter(keep).len() && list.filter(keep)[k] == x;
                if k < init.filter(keep).len() {
                    assert(init.filter(keep)[k] == x);
                    assert(init.filter(keep).contains(x));
                    let j = choose|j: int| 0 <= j < init.len() && init[j] == x;
                    assert(list[j] == x);
                } else {
                    assert(list[n] == x);
                }
            }
        }
    }
}

/// Mapping two lists that are permutations of each other gives permutations of
/// each other.
pub proof fn lemma_mapped_permutation<A, B>(a: Seq<A>, b: Seq<A>, f: spec_fn(A) -> B)
    requires
        a.to_multiset() == b.to_multiset(),
    ensures
        a.map_values(f).to_multiset() == b.map_values(f).to_multiset(),
    decreases a.len(),
{
    broadcast use vstd::multiset::group_multiset_axioms;

    a.to_multiset_ensures();
    b.to_multiset_ensures();
    if a.len() == 0 {
        assert(a.map_values(f) =~= b.map_values(f));
    } else {
        let x = a.last();
        let last = a.len() - 1;
        assert(a[last] == x);
        assert(a.contains(x));
        assert(b.to_multiset().count(x) > 0);
        assert(b.contains(x));
        let i = choose|i: int| 0 <= i < b.len() && b[i] == x;
        assert(a.remove(last) =~= a.drop_last());
        assert(a.drop_last().to_multiset() =~= b.remove(i).to_multiset());
        lemma_mapped_permutation(a.drop_last(), b.remove(i), f);
        let short = a.drop_last().map_values(f);
        let all = b.map_values(f);
        short.to_multiset_ensures();
        all.to_multiset_ensures();
        assert(a.map_values(f) =~= short.push(f(x)));
        assert(all.remove(i) =~= b.remove(i).map_values(f));
        assert(all[i] == f(x));
        assert(all.contains(f(x)));
        assert(all.to_multiset() =~= all.to_multiset().remove(f(x)).insert(f(x)));
    }
}

} // verus!
