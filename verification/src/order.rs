//! A stable ordering of positions by rank and text.

use vstd::prelude::*;
use crate::text::{comes_before, precedes, same_text, text_order_is_strict_and_total, texts};

verus! {

/// Whether position `i` comes before position `j`: by rank, then by key, then
/// by the positions themselves.
pub open spec fn ahead(ranks: Seq<u8>, keys: Seq<Seq<char>>, i: int, j: int) -> bool {
    ||| ranks[i] < ranks[j]
    ||| ranks[i] == ranks[j] && precedes(keys[i], keys[j])
    ||| ranks[i] == ranks[j] && keys[i] == keys[j] && i < j
}

/// Whether `order` lists the positions of `keys`, each once, in the order of
/// [`ahead`].
pub open spec fn is_sorted_order(ranks: Seq<u8>, keys: Seq<Seq<char>>, order: Seq<int>) -> bool {
    &&& order.len() == keys.len()
    &&& forall|k: int| 0 <= k < order.len() ==> 0 <= #[trigger] order[k] < keys.len()
    &&& forall|a: int, b: int|
        0 <= a < b < order.len() ==> ahead(ranks, keys, #[trigger] order[a], #[trigger] order[b])
}

/// The positions of `keys` in the order of [`ahead`].
pub open spec fn sorted_order(ranks: Seq<u8>, keys: Seq<Seq<char>>) -> Seq<int> {
    choose|order: Seq<int>| is_sorted_order(ranks, keys, order)
}

/// One rank for every position.
pub open spec fn no_ranks(n: nat) -> Seq<u8> {
    Seq::new(n, |i: int| 0u8)
}

/// The order of positions is strict and total.
pub proof fn ahead_is_strict_and_total(
    ranks: Seq<u8>,
    keys: Seq<Seq<char>>,
    i: int,
    j: int,
    k: int,
)
    ensures
        !ahead(ranks, keys, i, i),
        !(ahead(ranks, keys, i, j) && ahead(ranks, keys, j, i)),
        ahead(ranks, keys, i, j) && ahead(ranks, keys, j, k) ==> ahead(ranks, keys, i, k),
        i == j || ahead(ranks, keys, i, j) || ahead(ranks, keys, j, i),
{
    text_order_is_strict_and_total(keys[i], keys[j], keys[k]);
    text_order_is_strict_and_total(keys[j], keys[k], keys[i]);
    text_order_is_strict_and_total(keys[i], keys[i], keys[i]);
}

/// Every position occurs in a sorted order.
pub proof fn lemma_sorted_order_has_every_position(
    ranks: Seq<u8>,
    keys: Seq<Seq<char>>,
    order: Seq<int>,
)
    requires
        is_sorted_order(ranks, keys, order),
    ensures
        order.no_duplicates(),
        forall|i: int| 0 <= i < keys.len() ==> order.contains(i),
        order.to_multiset() == Seq::new(keys.len(), |i: int| i).to_multiset(),
{
    let n = keys.len();
    let all = Seq::new(n, |i: int| i);
    assert forall|a: int, b: int| 0 <= a < order.len() && 0 <= b < order.len() && a != b implies
        order[a] != order[b] by {
        ahead_is_strict_and_total(ranks, keys, order[a], order[b], order[a]);
    }
    assert(order.no_duplicates());
    let range = vstd::set_lib::set_int_range(0, n as int);
    vstd::set_lib::lemma_int_range(0, n as int);
    order.unique_seq_to_set();
    assert(order.to_set().subset_of(range));
    vstd::set_lib::lemma_subset_equality(order.to_set(), range);
    assert forall|i: int| 0 <= i < n implies order.contains(i) by {
        assert(range.contains(i));
    }
    assert(all.no_duplicates());
    order.lemma_multiset_has_no_duplicates();
    all.lemma_multiset_has_no_duplicates();
    order.to_multiset_ensures();
    all.to_multiset_ensures();
    assert(order.to_multiset() =~= all.to_multiset()) by {
        assert forall|i: int| order.to_multiset().count(i) == all.to_multiset().count(i) by {
            assert(order.contains(i) <==> 0 <= i < n);
            if 0 <= i < n {
                assert(all[i] == i);
            }
            assert(all.contains(i) <==> 0 <= i < n);
        }
    }
}

/// There is at most one sorted order.
pub proof fn sorted_order_is_unique(
    ranks: Seq<u8>,
    keys: Seq<Seq<char>>,
    a: Seq<int>,
    b: Seq<int>,
)
    requires
        is_sorted_order(ranks, keys, a),
        is_sorted_order(ranks, keys, b),
    ensures
        a == b,
{
    lemma_sorted_order_has_every_position(ranks, keys, a);
    lemma_sorted_order_has_every_position(ranks, keys, b);
    lemma_same_prefix(ranks, keys, a, b, a.len());
    assert(a =~= b);
}

proof fn lemma_same_prefix(
    ranks: Seq<u8>,
    keys: Seq<Seq<char>>,
    a: Seq<int>,
    b: Seq<int>,
    n: nat,
)
    requires
        is_sorted_order(ranks, keys, a),
        is_sorted_order(ranks, keys, b),
        a.no_duplicates(),
        b.no_duplicates(),
        forall|i: int| 0 <= i < keys.len() ==> a.contains(i),
        forall|i: int| 0 <= i < keys.len() ==> b.contains(i),
        n <= a.len(),
    ensures
        forall|k: int| 0 <= k < n ==> a[k] == b[k],
    decreases n,
{
    if n > 0 {
        let m = (n - 1) as int;
        lemma_same_prefix(ranks, keys, a, b, (n - 1) as nat);
        let x = a[m];
        let y = b[m];
        let px = choose|p: int| 0 <= p < b.len() && b[p] == x;
        let py = choose|p: int| 0 <= p < a.len() && a[p] == y;
        assert(b.contains(x));
        assert(a.contains(y));
        if x != y {
            assert(px >= m) by {
                if px < m {
                    assert(a[px] == b[px]);
                }
            }
            assert(py >= m) by {
                if py < m {
                    assert(a[py] == b[py]);
                }
            }
            assert(ahead(ranks, keys, b[m], b[px]));
            assert(ahead(ranks, keys, a[m], a[py]));
            ahead_is_strict_and_total(ranks, keys, x, y, x);
        }
    }
}

/// `order` with position `x` put in where [`ahead`] has it.
proof fn lemma_insert_position(
    ranks: Seq<u8>,
    keys: Seq<Seq<char>>,
    order: Seq<int>,
    x: int,
    p: int,
)
    requires
        0 <= x,
        0 <= p <= order.len(),
        forall|k: int| 0 <= k < order.len() ==> 0 <= #[trigger] order[k] < x,
        forall|a: int, b: int|
            0 <= a < b < order.len() ==> ahead(ranks, keys, #[trigger] order[a], #[trigger] order[b]),
        forall|k: int| p <= k < order.len() ==> ahead(ranks, keys, x, #[trigger] order[k]),
        p > 0 ==> !ahead(ranks, keys, x, order[p - 1]),
    ensures
        forall|k: int| 0 <= k < order.len() + 1 ==> 0 <= #[trigger] order.insert(p, x)[k] < x + 1,
        forall|a: int, b: int|
            0 <= a < b < order.len() + 1 ==> ahead(
                ranks,
                keys,
                #[trigger] order.insert(p, x)[a],
                #[trigger] order.insert(p, x)[b],
            ),
{
    let next = order.insert(p, x);
    assert forall|k: int| 0 <= k < p implies ahead(ranks, keys, #[trigger] order[k], x) by {
        let last = order[p - 1];
        ahead_is_strict_and_total(ranks, keys, last, x, last);
        if k < p - 1 {
            ahead_is_strict_and_total(ranks, keys, order[k], last, x);
        }
    }
    assert forall|a: int, b: int| 0 <= a < b < next.len() implies ahead(
        ranks,
        keys,
        #[trigger] next[a],
        #[trigger] next[b],
    ) by {
        let oa = if a < p { a } else { a - 1 };
        let ob = if b < p { b } else { b - 1 };
        if a != p && b != p {
            assert(next[a] == order[oa] && next[b] == order[ob]);
        } else if a == p {
            assert(next[b] == order[ob]);
        } else {
            assert(next[a] == order[oa]);
        }
    }
    assert forall|k: int| 0 <= k < next.len() implies 0 <= #[trigger] next[k] < x + 1 by {
        if k < p {
            assert(next[k] == order[k]);
        } else if k > p {
            assert(next[k] == order[k - 1]);
        }
    }
}

proof fn lemma_place_exists(
    ranks: Seq<u8>,
    keys: Seq<Seq<char>>,
    order: Seq<int>,
    x: int,
    p: int,
) -> (place: int)
    requires
        0 <= p <= order.len(),
        forall|k: int| p <= k < order.len() ==> ahead(ranks, keys, x, #[trigger] order[k]),
    ensures
        0 <= place <= order.len(),
        forall|k: int| place <= k < order.len() ==> ahead(ranks, keys, x, #[trigger] order[k]),
        place > 0 ==> !ahead(ranks, keys, x, order[place - 1]),
    decreases p,
{
    if p > 0 && ahead(ranks, keys, x, order[p - 1]) {
        lemma_place_exists(ranks, keys, order, x, p - 1)
    } else {
        p
    }
}

proof fn lemma_order_of_first(ranks: Seq<u8>, keys: Seq<Seq<char>>, n: nat) -> (order: Seq<int>)
    ensures
        order.len() == n,
        forall|k: int| 0 <= k < n ==> 0 <= #[trigger] order[k] < n,
        forall|a: int, b: int|
            0 <= a < b < n ==> ahead(ranks, keys, #[trigger] order[a], #[trigger] order[b]),
    decreases n,
{
    if n == 0 {
        Seq::empty()
    } else {
        let order = lemma_order_of_first(ranks, keys, (n - 1) as nat);
        let p = lemma_place_exists(ranks, keys, order, n - 1, order.len() as int);
        lemma_insert_position(ranks, keys, order, n - 1, p);
        order.insert(p, n - 1)
    }
}

/// There is a sorted order of any keys.
pub proof fn sorted_order_exists(ranks: Seq<u8>, keys: Seq<Seq<char>>)
    ensures
        is_sorted_order(ranks, keys, sorted_order(ranks, keys)),
{
    let order = lemma_order_of_first(ranks, keys, keys.len());
    assert(is_sorted_order(ranks, keys, order));
}

/// The positions, as integers.
pub open spec fn as_ints(order: Seq<usize>) -> Seq<int> {
    order.map_values(|i: usize| i as int)
}

fn is_ahead(ranks: &Vec<u8>, keys: &Vec<String>, i: usize, j: usize) -> (r: bool)
    requires
        i < keys.len(),
        j < keys.len(),
        ranks.len() == keys.len(),
    ensures
        r == ahead(ranks@, texts(keys@), i as int, j as int),
{
    if ranks[i] != ranks[j] {
        return ranks[i] < ranks[j];
    }
    proof {
        text_order_is_strict_and_total(keys@[i as int]@, keys@[j as int]@, keys@[i as int]@);
    }
    if same_text(keys[i].as_str(), keys[j].as_str()) {
        i < j
    } else {
        comes_before(keys[i].as_str(), keys[j].as_str())
    }
}

/// The positions of `keys`, by rank, then by key, then by position.
pub fn sorted_positions(ranks: &Vec<u8>, keys: &Vec<String>) -> (order: Vec<usize>)
    requires
        ranks.len() == keys.len(),
    ensures
        is_sorted_order(ranks@, texts(keys@), as_ints(order@)),
        as_ints(order@) == sorted_order(ranks@, texts(keys@)),
{
    let ghost rs = ranks@;
    let ghost ks = texts(keys@);
    let mut order: Vec<usize> = Vec::new();
    let mut x: usize = 0;
    while x < keys.len()
        invariant
            x <= keys.len(),
            ranks.len() == keys.len(),
            rs == ranks@,
            ks == texts(keys@),
            order.len() == x,
            forall|k: int| 0 <= k < order.len() ==> 0 <= #[trigger] as_ints(order@)[k] < x,
            forall|a: int, b: int|
                0 <= a < b < order.len() ==> ahead(
                    rs,
                    ks,
                    #[trigger] as_ints(order@)[a],
                    #[trigger] as_ints(order@)[b],
                ),
        decreases keys.len() - x,
    {
        let mut p: usize = order.len();
        proof {
            assert forall|k: int| 0 <= k < order.len() implies #[trigger] order@[k] < x by {
                assert(as_ints(order@)[k] == order@[k]);
            }
        }
        while p > 0 && is_ahead(ranks, keys, x, order[p - 1])
            invariant
                p <= order.len(),
                x < keys.len(),
                ranks.len() == keys.len(),
                rs == ranks@,
                ks == texts(keys@),
                forall|k: int| 0 <= k < order.len() ==> #[trigger] order@[k] < x,
                forall|k: int|
                    p <= k < order.len() ==> ahead(
                        rs,
                        ks,
                        x as int,
                        #[trigger] as_ints(order@)[k],
                    ),
            decreases p,
        {
            p -= 1;
        }
        proof {
            let ints = as_ints(order@);
            assert forall|k: int| p <= k < ints.len() implies ahead(
                rs,
                ks,
                x as int,
                #[trigger] ints[k],
            ) by {
                assert(ints[k] == order@[k] as int);
            }
            lemma_insert_position(rs, ks, ints, x as int, p as int);
            assert(as_ints(order@.insert(p as int, x)) =~= ints.insert(p as int, x as int));
        }
        order.insert(p, x);
        x += 1;
    }
    proof {
        let got = as_ints(order@);
        assert(is_sorted_order(rs, ks, got));
        sorted_order_is_unique(rs, ks, got, sorted_order(rs, ks));
    }
    order
}

} // verus!
