//! A map keyed by two texts that keeps its entries in key order.

use vstd::prelude::*;
use crate::text::{comes_before, precedes, same_text, text_order_is_strict_and_total};

verus! {

/// A key: two texts, compared first by the first, then by the second.
pub type PairKey = (Seq<char>, Seq<char>);

/// Whether `a` comes strictly before `b`.
pub open spec fn key_before(a: PairKey, b: PairKey) -> bool {
    precedes(a.0, b.0) || (a.0 == b.0 && precedes(a.1, b.1))
}

/// Whether a list of keys is in strictly ascending order.
pub open spec fn ascending(keys: Seq<PairKey>) -> bool {
    forall|i: int, j: int|
        0 <= i < j < keys.len() ==> key_before(#[trigger] keys[i], #[trigger] keys[j])
}

/// Whether `keys` lists the keys of `m` in ascending order.
pub open spec fn lists_keys<T>(m: Map<PairKey, T>, keys: Seq<PairKey>) -> bool {
    &&& ascending(keys)
    &&& forall|k: PairKey| m.dom().contains(k) <==> #[trigger] keys.contains(k)
}

/// The keys of `m` in ascending order.
pub open spec fn keys_in_order<T>(m: Map<PairKey, T>) -> Seq<PairKey> {
    choose|keys: Seq<PairKey>| lists_keys(m, keys)
}

/// The values of `m` in the order of their keys.
pub open spec fn values_in_order<T>(m: Map<PairKey, T>) -> Seq<T> {
    keys_in_order(m).map_values(|k: PairKey| m[k])
}

/// The order of keys is strict and total.
pub proof fn key_order_is_strict_and_total(a: PairKey, b: PairKey, c: PairKey)
    ensures
        !key_before(a, a),
        !(key_before(a, b) && key_before(b, a)),
        key_before(a, b) && key_before(b, c) ==> key_before(a, c),
        a == b || key_before(a, b) || key_before(b, a),
{
    text_order_is_strict_and_total(a.0, b.0, c.0);
    text_order_is_strict_and_total(a.1, b.1, c.1);
    text_order_is_strict_and_total(b.0, c.0, a.0);
    text_order_is_strict_and_total(b.1, c.1, a.1);
}

/// A map has one list of keys in ascending order.
pub proof fn lemma_keys_in_order<T>(m: Map<PairKey, T>, keys: Seq<PairKey>)
    requires
        lists_keys(m, keys),
    ensures
        keys_in_order(m) == keys,
{
    let other = keys_in_order(m);
    assert(lists_keys(m, other));
    lemma_same_keys(keys, other, 0);
    assert(keys.skip(0) =~= keys);
    assert(other.skip(0) =~= other);
}

proof fn lemma_same_keys(a: Seq<PairKey>, b: Seq<PairKey>, n: nat)
    requires
        ascending(a),
        ascending(b),
        n <= a.len(),
        n <= b.len(),
        forall|i: int| 0 <= i < n ==> a[i] == b[i],
        forall|k: PairKey| a.contains(k) <==> b.contains(k),
    ensures
        a.skip(n as int) == b.skip(n as int),
    decreases a.len() - n,
{
    let i = n as int;
    if n < a.len() && n < b.len() {
        if a[i] != b[i] {
            assert(a.contains(a[i]) && b.contains(a[i]));
            assert(b.contains(b[i]) && a.contains(b[i]));
            let p = choose|p: int| 0 <= p < b.len() && b[p] == a[i];
            let q = choose|q: int| 0 <= q < a.len() && a[q] == b[i];
            key_order_is_strict_and_total(a[i], b[i], a[i]);
            key_order_is_strict_and_total(b[i], a[i], b[i]);
            assert(p > i) by {
                if p < i {
                    assert(key_before(a[p], a[i]));
                }
            }
            assert(q > i) by {
                if q < i {
                    assert(key_before(b[q], b[i]));
                }
            }
            assert(key_before(b[i], b[p]) && key_before(a[i], a[q]));
            assert(false);
        }
        lemma_same_keys(a, b, n + 1);
        assert(a.skip(i) =~= seq![a[i]] + a.skip(i + 1));
        assert(b.skip(i) =~= seq![b[i]] + b.skip(i + 1));
    } else if n < a.len() {
        assert(a.contains(a[i]) && b.contains(a[i]));
        let p = choose|p: int| 0 <= p < b.len() && b[p] == a[i];
        assert(key_before(a[p], a[i]));
        key_order_is_strict_and_total(a[i], a[i], a[i]);
    } else if n < b.len() {
        assert(b.contains(b[i]) && a.contains(b[i]));
        let p = choose|p: int| 0 <= p < a.len() && a[p] == b[i];
        assert(key_before(b[p], b[i]));
        key_order_is_strict_and_total(b[i], b[i], b[i]);
    } else {
        assert(a.skip(i) =~= b.skip(i));
    }
}

proof fn lemma_key_place(keys: Seq<PairKey>, k: PairKey, p: int) -> (place: int)
    requires
        ascending(keys),
        !keys.contains(k),
        0 <= p <= keys.len(),
        forall|i: int| p <= i < keys.len() ==> key_before(k, #[trigger] keys[i]),
    ensures
        0 <= place <= keys.len(),
        forall|i: int| 0 <= i < place ==> key_before(#[trigger] keys[i], k),
        forall|i: int| place <= i < keys.len() ==> key_before(k, #[trigger] keys[i]),
    decreases p,
{
    if p > 0 && key_before(k, keys[p - 1]) {
        lemma_key_place(keys, k, p - 1)
    } else {
        assert forall|i: int| 0 <= i < p implies key_before(#[trigger] keys[i], k) by {
            key_order_is_strict_and_total(keys[p - 1], k, k);
            assert(keys.contains(keys[p - 1]));
            if i < p - 1 {
                key_order_is_strict_and_total(keys[i], keys[p - 1], k);
            }
        }
        p
    }
}

/// Every finite map has a list of its keys in ascending order.
pub proof fn keys_in_order_exist<T>(m: Map<PairKey, T>)
    requires
        m.dom().finite(),
    ensures
        lists_keys(m, keys_in_order(m)),
    decreases m.dom().len(),
{
    if m.dom().len() == 0 {
        let none = Seq::<PairKey>::empty();
        assert(m.dom() =~= Set::empty());
        assert(lists_keys(m, none));
    } else {
        let k = m.dom().choose();
        let rest = m.remove(k);
        keys_in_order_exist(rest);
        let keys = keys_in_order(rest);
        assert(!keys.contains(k)) by {
            assert(rest.dom().contains(k) <==> keys.contains(k));
        }
        let p = lemma_key_place(keys, k, keys.len() as int);
        let all = keys.insert(p, k);
        assert(ascending(all)) by {
            assert forall|a: int, b: int| 0 <= a < b < all.len() implies key_before(
                #[trigger] all[a],
                #[trigger] all[b],
            ) by {
                let oa = if a < p { a } else { a - 1 };
                let ob = if b < p { b } else { b - 1 };
                if a != p && b != p {
                    assert(all[a] == keys[oa] && all[b] == keys[ob]);
                } else if a == p {
                    assert(all[b] == keys[ob]);
                } else {
                    assert(all[a] == keys[oa]);
                }
            }
        }
        assert forall|x: PairKey| m.dom().contains(x) <==> #[trigger] all.contains(x) by {
            if all.contains(x) {
                let j = choose|j: int| 0 <= j < all.len() && all[j] == x;
                if j != p {
                    let oj = if j < p { j } else { j - 1 };
                    assert(keys[oj] == x);
                    assert(keys.contains(x));
                }
            }
            if m.dom().contains(x) {
                if x == k {
                    assert(all[p] == x);
                } else {
                    assert(rest.dom().contains(x));
                    assert(keys.contains(x));
                    let j = choose|j: int| 0 <= j < keys.len() && keys[j] == x;
                    let nj = if j < p { j } else { j + 1 };
                    assert(all[nj] == x);
                }
            }
        }
        assert(lists_keys(m, all));
    }
}

/// A finite map holds exactly the values that its ordered list holds.
pub proof fn ordered_values_are_the_values<T>(m: Map<PairKey, T>)
    requires
        m.dom().finite(),
    ensures
        forall|k: PairKey| #[trigger]
            m.dom().contains(k) ==> values_in_order(m).contains(m[k]),
        forall|i: int|
            0 <= i < keys_in_order(m).len() ==> m.dom().contains(#[trigger] keys_in_order(m)[i]),
        forall|i: int|
            0 <= i < values_in_order(m).len() ==> #[trigger] values_in_order(m)[i]
                == m[keys_in_order(m)[i]],
        keys_in_order(m).len() == values_in_order(m).len(),
{
    keys_in_order_exist(m);
    let keys = keys_in_order(m);
    assert forall|k: PairKey| #[trigger] m.dom().contains(k) implies values_in_order(m).contains(
        m[k],
    ) by {
        assert(keys.contains(k));
        let j = choose|j: int| 0 <= j < keys.len() && keys[j] == k;
        assert(values_in_order(m)[j] == m[k]);
    }
    assert forall|i: int| 0 <= i < keys_in_order(m).len() implies m.dom().contains(
        #[trigger] keys_in_order(m)[i],
    ) by {
        assert(keys.contains(keys[i]));
    }
}

/// One key more among the first keys of a list.
pub proof fn lemma_take_push(keys: Seq<PairKey>, i: int)
    requires
        0 <= i < keys.len(),
    ensures
        forall|k: PairKey| #[trigger]
            keys.take(i + 1).contains(k) <==> keys.take(i).contains(k) || k == keys[i],
{
    assert forall|k: PairKey| #[trigger] keys.take(i + 1).contains(k) <==> keys.take(i).contains(k)
        || k == keys[i] by {
        if keys.take(i).contains(k) {
            let j = choose|j: int| 0 <= j < i && keys.take(i)[j] == k;
            assert(keys.take(i + 1)[j] == k);
        }
        if k == keys[i] {
            assert(keys.take(i + 1)[i] == k);
        }
        if keys.take(i + 1).contains(k) {
            let longer = keys.take(i + 1);
            let j = choose|j: int| 0 <= j < longer.len() && longer[j] == k;
            if j < i {
                assert(keys.take(i)[j] == k);
            }
        }
    }
}

/// One entry of a [`PairMap`].
pub struct PairEntry<V> {
    pub first: String,
    pub second: String,
    pub value: V,
}

/// A map from two texts to values, held in key order.
pub struct PairMap<V> {
    entries: Vec<PairEntry<V>>,
}

impl<V: View> View for PairMap<V> {
    type V = Map<PairKey, V::V>;

    closed spec fn view(&self) -> Map<PairKey, V::V> {
        Map::new(
            |k: PairKey| self.keys().contains(k),
            |k: PairKey| self.entries@[self.keys().index_of(k)].value@,
        )
    }
}

impl<V: View> PairMap<V> {
    /// The keys of the entries, in the order in which they are held.
    pub closed spec fn keys(&self) -> Seq<PairKey> {
        self.entries@.map_values(|e: PairEntry<V>| (e.first@, e.second@))
    }

    /// The values of the entries, in the order in which they are held.
    pub closed spec fn values(&self) -> Seq<V::V> {
        self.entries@.map_values(|e: PairEntry<V>| e.value@)
    }

    /// The entries are in strictly ascending order of their keys.
    pub closed spec fn wf(&self) -> bool {
        ascending(self.keys())
    }

    /// What the entries of a well-formed map say of its contents.
    pub proof fn lemma_contents(&self)
        requires
            self.wf(),
        ensures
            self.keys().len() == self.values().len(),
            lists_keys(self@, self.keys()),
            keys_in_order(self@) == self.keys(),
            values_in_order(self@) == self.values(),
            self@.dom().finite(),
            forall|k: PairKey| self@.dom().contains(k) <==> self.keys().contains(k),
            forall|i: int|
                0 <= i < self.keys().len() ==> self@.dom().contains(#[trigger] self.keys()[i])
                    && self@[self.keys()[i]] == self.values()[i],
            forall|i: int, j: int|
                0 <= i < self.keys().len() && 0 <= j < self.keys().len() && self.keys()[i]
                    == self.keys()[j] ==> i == j,
            self.keys().len() == 0 <==> self@ == Map::<PairKey, V::V>::empty(),
    {
        let keys = self.keys();
        assert forall|i: int, j: int|
            0 <= i < keys.len() && 0 <= j < keys.len() && keys[i] == keys[j] implies i == j by {
            key_order_is_strict_and_total(keys[i], keys[j], keys[i]);
        }
        assert forall|i: int| 0 <= i < keys.len() implies self@.dom().contains(
            #[trigger] keys[i],
        ) && self@[keys[i]] == self.values()[i] by {
            assert(keys.contains(keys[i]));
            assert(keys[keys.index_of(keys[i])] == keys[i]);
        }
        assert(lists_keys(self@, keys));
        lemma_keys_in_order(self@, keys);
        assert(values_in_order(self@) =~= self.values());
        assert(self@.dom() =~= keys.to_set());
        vstd::seq_lib::seq_to_set_is_finite(keys);
        if keys.len() > 0 {
            assert(self@.dom().contains(keys[0]));
        } else {
            assert(self@ =~= Map::<PairKey, V::V>::empty());
        }
    }

    /// An empty map.
    pub fn new() -> (r: Self)
        ensures
            r.wf(),
            r@ == Map::<PairKey, V::V>::empty(),
            r.keys().len() == 0,
    {
        let r = PairMap { entries: Vec::new() };
        assert(r@ =~= Map::<PairKey, V::V>::empty());
        r
    }

    /// The number of entries.
    pub fn len(&self) -> (r: usize)
        ensures
            r == self.keys().len(),
    {
        self.entries.len()
    }

    /// The entry at position `i` in key order.
    pub fn entry(&self, i: usize) -> (r: &PairEntry<V>)
        requires
            i < self.keys().len(),
        ensures
            self.keys()[i as int] == (r.first@, r.second@),
            self.values()[i as int] == r.value@,
    {
        &self.entries[i]
    }

    /// The first position whose key does not come before `(first, second)`.
    fn position(&self, first: &str, second: &str) -> (r: usize)
        requires
            self.wf(),
        ensures
            r <= self.keys().len(),
            forall|i: int| 0 <= i < r ==> key_before(#[trigger] self.keys()[i], (first@, second@)),
            forall|i: int|
                r <= i < self.keys().len() ==> !key_before(
                    #[trigger] self.keys()[i],
                    (first@, second@),
                ),
    {
        let ghost key = (first@, second@);
        let mut lo: usize = 0;
        let mut hi: usize = self.entries.len();
        while lo < hi
            invariant
                lo <= hi <= self.entries.len(),
                self.wf(),
                key == (first@, second@),
                forall|i: int| 0 <= i < lo ==> key_before(#[trigger] self.keys()[i], key),
                forall|i: int|
                    hi <= i < self.keys().len() ==> !key_before(#[trigger] self.keys()[i], key),
            decreases hi - lo,
        {
            let mid: usize = lo + (hi - lo) / 2;
            let e: &PairEntry<V> = &self.entries[mid];
            let same_first: bool = same_text(e.first.as_str(), first);
            let before: bool = if same_first {
                comes_before(e.second.as_str(), second)
            } else {
                comes_before(e.first.as_str(), first)
            };
            proof {
                text_order_is_strict_and_total(e.first@, first@, first@);
                assert(self.keys()[mid as int] == (e.first@, e.second@));
                assert(before == key_before(self.keys()[mid as int], key));
                assert forall|i: int| 0 <= i < self.keys().len() implies (before && i <= mid
                    ==> key_before(#[trigger] self.keys()[i], key)) && (!before && i >= mid
                    ==> !key_before(self.keys()[i], key)) by {
                    key_order_is_strict_and_total(self.keys()[i], self.keys()[mid as int], key);
                    key_order_is_strict_and_total(self.keys()[mid as int], self.keys()[i], key);
                }
            }
            if before {
                lo = mid + 1;
            } else {
                hi = mid;
            }
        }
        lo
    }

    /// Whether the entry at position `i` has the key `(first, second)`.
    fn is_at(&self, i: usize, first: &str, second: &str) -> (r: bool)
        ensures
            r == (i < self.keys().len() && self.keys()[i as int] == (first@, second@)),
    {
        i < self.entries.len() && same_text(self.entries[i].first.as_str(), first) && same_text(
            self.entries[i].second.as_str(),
            second,
        )
    }

    /// The value of a key.
    pub fn get(&self, first: &str, second: &str) -> (r: Option<&V>)
        requires
            self.wf(),
        ensures
            match r {
                Some(v) => self@.dom().contains((first@, second@)) && self@[(first@, second@)]
                    == v@,
                None => !self@.dom().contains((first@, second@)),
            },
    {
        let i: usize = self.position(first, second);
        proof {
            self.lemma_contents();
        }
        if self.is_at(i, first, second) {
            Some(&self.entries[i].value)
        } else {
            proof {
                let key = (first@, second@);
                if self.keys().contains(key) {
                    let j = choose|j: int| 0 <= j < self.keys().len() && self.keys()[j] == key;
                    key_order_is_strict_and_total(key, key, key);
                    if i < j {
                        key_order_is_strict_and_total(self.keys()[i as int], key, key);
                    }
                }
            }
            None
        }
    }

    /// Set the value of a key, replacing an earlier one.
    pub fn insert(&mut self, first: String, second: String, value: V)
        requires
            old(self).wf(),
        ensures
            final(self).wf(),
            final(self)@ == old(self)@.insert((first@, second@), value@),
    {
        let ghost key = (first@, second@);
        let ghost v = value@;
        let ghost before = *self;
        let i: usize = self.position(first.as_str(), second.as_str());
        proof {
            self.lemma_contents();
            key_order_is_strict_and_total(key, key, key);
        }
        if self.is_at(i, first.as_str(), second.as_str()) {
            let e = PairEntry { first, second, value };
            self.entries.set(i, e);
            proof {
                assert(self.keys() =~= before.keys());
                self.lemma_contents();
                assert(self.values() =~= before.values().update(i as int, v));
                assert(self@ =~= before@.insert(key, v)) by {
                    assert forall|k: PairKey| self@.dom().contains(k) && k != key implies self@[k]
                        == before@[k] by {
                        let j = choose|j: int| 0 <= j < self.keys().len() && self.keys()[j] == k;
                        assert(self.keys()[j] == before.keys()[j]);
                        assert(j != i);
                    }
                    assert(self@[self.keys()[i as int]] == v);
                }
            }
        } else {
            let e = PairEntry { first, second, value };
            self.entries.insert(i, e);
            proof {
                let old_keys = before.keys();
                assert(self.keys() =~= old_keys.insert(i as int, key));
                assert forall|a: int, b: int| 0 <= a < b < self.keys().len() implies key_before(
                    #[trigger] self.keys()[a],
                    #[trigger] self.keys()[b],
                ) by {
                    let oa = if a < i { a } else { a - 1 };
                    let ob = if b < i { b } else { b - 1 };
                    if a != i && b != i {
                        assert(self.keys()[a] == old_keys[oa] && self.keys()[b] == old_keys[ob]);
                    } else if a == i {
                        assert(self.keys()[b] == old_keys[ob]);
                        key_order_is_strict_and_total(key, old_keys[ob], key);
                        if key == old_keys[ob] && i < ob {
                            key_order_is_strict_and_total(old_keys[i as int], key, key);
                        }
                    } else {
                        assert(self.keys()[a] == old_keys[oa]);
                    }
                }
                self.lemma_contents();
                assert(self.values() =~= before.values().insert(i as int, v));
                assert(self@ =~= before@.insert(key, v)) by {
                    assert forall|k: PairKey| self@.dom().contains(k) <==> before@.insert(
                        key,
                        v,
                    ).dom().contains(k) by {
                        if before.keys().contains(k) {
                            let j = choose|j: int| 0 <= j < old_keys.len() && old_keys[j] == k;
                            let nj = if j < i { j } else { j + 1 };
                            assert(self.keys()[nj] == k);
                        }
                        if k == key {
                            assert(self.keys()[i as int] == k);
                        }
                        if self.keys().contains(k) && k != key {
                            let j = choose|j: int|
                                0 <= j < self.keys().len() && self.keys()[j] == k;
                            let oj = if j < i { j } else { j - 1 };
                            assert(old_keys[oj] == k);
                        }
                    }
                    assert forall|k: PairKey| self@.dom().contains(k) implies self@[k]
                        == before@.insert(key, v)[k] by {
                        let j = choose|j: int| 0 <= j < self.keys().len() && self.keys()[j] == k;
                        if j == i {
                            assert(self.values()[j] == v);
                        } else {
                            let oj = if j < i { j } else { j - 1 };
                            assert(old_keys[oj] == k);
                            assert(k != key) by {
                                if k == key {
                                    assert(self.keys()[i as int] == self.keys()[j]);
                                }
                            }
                            assert(before@[old_keys[oj]] == before.values()[oj]);
                        }
                    }
                }
            }
        }
    }

    /// Remove a key with its value.
    pub fn remove(&mut self, first: &str, second: &str) -> (r: Option<V>)
        requires
            old(self).wf(),
        ensures
            final(self).wf(),
            final(self)@ == old(self)@.remove((first@, second@)),
            match r {
                Some(v) => old(self)@.dom().contains((first@, second@)) && old(
                    self,
                )@[(first@, second@)] == v@,
                None => !old(self)@.dom().contains((first@, second@)),
            },
    {
        let ghost key = (first@, second@);
        let ghost before = *self;
        let i: usize = self.position(first, second);
        proof {
            self.lemma_contents();
            key_order_is_strict_and_total(key, key, key);
        }
        if self.is_at(i, first, second) {
            let e: PairEntry<V> = self.entries.remove(i);
            proof {
                let old_keys = before.keys();
                assert(self.keys() =~= old_keys.remove(i as int));
                assert forall|a: int, b: int| 0 <= a < b < self.keys().len() implies key_before(
                    #[trigger] self.keys()[a],
                    #[trigger] self.keys()[b],
                ) by {
                    let oa = if a < i { a } else { a + 1 };
                    let ob = if b < i { b } else { b + 1 };
                    assert(self.keys()[a] == old_keys[oa] && self.keys()[b] == old_keys[ob]);
                }
                self.lemma_contents();
                assert(self.values() =~= before.values().remove(i as int));
                assert(self@ =~= before@.remove(key)) by {
                    assert forall|k: PairKey| self@.dom().contains(k) <==> before@.remove(
                        key,
                    ).dom().contains(k) by {
                        if before.keys().contains(k) && k != key {
                            let j = choose|j: int| 0 <= j < old_keys.len() && old_keys[j] == k;
                            let nj = if j < i { j } else { j - 1 };
                            assert(self.keys()[nj] == k);
                        }
                        if self.keys().contains(k) {
                            let j = choose|j: int|
                                0 <= j < self.keys().len() && self.keys()[j] == k;
                            let oj = if j < i { j } else { j + 1 };
                            assert(old_keys[oj] == k);
                            assert(old_keys[oj] != old_keys[i as int]);
                        }
                    }
                    assert forall|k: PairKey| self@.dom().contains(k) implies self@[k]
                        == before@[k] by {
                        let j = choose|j: int| 0 <= j < self.keys().len() && self.keys()[j] == k;
                        let oj = if j < i { j } else { j + 1 };
                        assert(old_keys[oj] == k);
                        assert(before@[old_keys[oj]] == before.values()[oj]);
                    }
                }
            }
            Some(e.value)
        } else {
            proof {
                if self.keys().contains(key) {
                    let j = choose|j: int| 0 <= j < self.keys().len() && self.keys()[j] == key;
                    if i < j {
                        key_order_is_strict_and_total(self.keys()[i as int], key, key);
                    }
                }
                assert(self@ =~= before@.remove(key));
            }
            None
        }
    }

    /// The values, in the order of their keys.
    pub fn into_values(self) -> (r: Vec<V>)
        requires
            self.wf(),
        ensures
            r@.map_values(|v: V| v@) == values_in_order(self@),
    {
        proof {
            self.lemma_contents();
        }
        let ghost all = self.values();
        let mut out: Vec<V> = Vec::new();
        for e in it: self.entries
            invariant
                it.seq().map_values(|e: PairEntry<V>| e.value@) == all,
                out@.map_values(|v: V| v@) == all.take(it.index() as int),
        {
            let ghost before = out@;
            let ghost i = it.index() as int;
            assert(all[i] == e.value@);
            out.push(e.value);
            assert(out@.map_values(|v: V| v@) =~= before.map_values(|v: V| v@).push(all[i]));
            assert(all.take(i + 1) =~= all.take(i).push(all[i]));
        }
        assert(all.take(all.len() as int) =~= all);
        out
    }
}


/// Keys are compared by their first part, and by the second only where the first
/// is the same.
pub proof fn the_first_part_of_a_key_comes_first(a: PairKey, b: PairKey)
    ensures
        precedes(a.0, b.0) ==> key_before(a, b),
        precedes(b.0, a.0) ==> !key_before(a, b),
        a.0 == b.0 ==> (key_before(a, b) <==> precedes(a.1, b.1)),
{
    text_order_is_strict_and_total(a.0, b.0, a.0);
}

} // verus!
