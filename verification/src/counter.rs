//! The value-frequency aggregator: records observations of values under
//! categories and hands back the most frequently observed value per
//! category, used to precompute shared defaults before a session starts.

use vstd::prelude::*;

verus! {

/// A value the aggregator can store: it can duplicate itself and compare
/// itself to another value, both exactly at the level of views.
pub trait ExactEq: View + Sized {
    /// Whether the two values are equal.
    fn exact_eq(&self, other: &Self) -> (r: bool)
        ensures
            r == (self@ == other@),
    ;

    /// A copy of the value.
    fn duplicate(&self) -> (r: Self)
        ensures
            r@ == self@,
    ;
}

impl ExactEq for String {
    fn exact_eq(&self, other: &Self) -> (r: bool) {
        crate::text::str_eq(self.as_str(), other.as_str())
    }

    fn duplicate(&self) -> (r: Self) {
        self.clone()
    }
}

/// The count recorded for value `v` under category `k`: the count of the
/// first entry holding that category and value, or zero when there is none.
pub open spec fn count_in<K: View, V: View>(s: Seq<(K, V, u64)>, k: K::V, v: V::V) -> int
    decreases s.len(),
{
    if s.len() == 0 {
        0
    } else if s[0].0@ == k && s[0].1@ == v {
        s[0].2 as int
    } else {
        count_in(s.drop_first(), k, v)
    }
}

/// Whether any observation was ever recorded under category `k`.
pub open spec fn key_in<K: View, V: View>(s: Seq<(K, V, u64)>, k: K::V) -> bool {
    exists|i: int| 0 <= i < s.len() && s[i].0@ == k
}

/// Well-formedness: one entry per (category, value) pair, every count at
/// least one.
pub open spec fn counter_wf<K: View, V: View>(s: Seq<(K, V, u64)>) -> bool {
    &&& forall|i: int, j: int|
        0 <= i < j < s.len() ==> !(s[i].0@ == s[j].0@ && s[i].1@ == s[j].1@)
    &&& forall|i: int| 0 <= i < s.len() ==> (#[trigger] s[i]).2 >= 1
}

/// One more observation: counts saturate at the machine limit instead of
/// wrapping.
pub open spec fn bump(c: int) -> int {
    if c < u64::MAX {
        c + 1
    } else {
        c
    }
}

proof fn lemma_count_at<K: View, V: View>(s: Seq<(K, V, u64)>, k: K::V, v: V::V, i: int)
    requires
        0 <= i < s.len(),
        s[i].0@ == k && s[i].1@ == v,
        forall|j: int| 0 <= j < i ==> !((#[trigger] s[j]).0@ == k && s[j].1@ == v),
    ensures
        count_in(s, k, v) == s[i].2,
    decreases i,
{
    if i > 0 {
        assert(s.drop_first()[i - 1] == s[i]);
        assert(forall|j: int|
            0 <= j < i - 1 ==> (#[trigger] s.drop_first()[j]) == s[j + 1]);
        lemma_count_at(s.drop_first(), k, v, i - 1);
    }
}

proof fn lemma_count_none<K: View, V: View>(s: Seq<(K, V, u64)>, k: K::V, v: V::V)
    requires
        forall|j: int| 0 <= j < s.len() ==> !((#[trigger] s[j]).0@ == k && s[j].1@ == v),
    ensures
        count_in(s, k, v) == 0,
    decreases s.len(),
{
    if s.len() > 0 {
        assert(forall|j: int|
            0 <= j < s.drop_first().len() ==> (#[trigger] s.drop_first()[j]) == s[j + 1]);
        lemma_count_none(s.drop_first(), k, v);
    }
}

proof fn lemma_count_update<K: View, V: View>(
    s: Seq<(K, V, u64)>,
    i: int,
    e: (K, V, u64),
    k: K::V,
    v: V::V,
)
    requires
        0 <= i < s.len(),
        !(e.0@ == k && e.1@ == v),
        !(s[i].0@ == k && s[i].1@ == v),
    ensures
        count_in(s.update(i, e), k, v) == count_in(s, k, v),
    decreases i,
{
    let s2 = s.update(i, e);
    if i == 0 {
        assert(s2.drop_first() =~= s.drop_first());
    } else {
        assert(s2[0] == s[0]);
        assert(s2.drop_first() =~= s.drop_first().update(i - 1, e));
        lemma_count_update(s.drop_first(), i - 1, e, k, v);
    }
}

proof fn lemma_count_push<K: View, V: View>(s: Seq<(K, V, u64)>, e: (K, V, u64), k: K::V, v: V::V)
    requires
        !(e.0@ == k && e.1@ == v),
    ensures
        count_in(s.push(e), k, v) == count_in(s, k, v),
    decreases s.len(),
{
    if s.len() == 0 {
        assert(s.push(e)[0] == e);
        assert(s.push(e).drop_first() =~= Seq::<(K, V, u64)>::empty());
        assert(count_in(Seq::<(K, V, u64)>::empty(), k, v) == 0);
        assert(count_in(s, k, v) == 0);
    } else {
        assert(s.push(e)[0] == s[0]);
        assert(s.push(e).drop_first() =~= s.drop_first().push(e));
        lemma_count_push(s.drop_first(), e, k, v);
    }
}

proof fn lemma_count_witness<K: View, V: View>(s: Seq<(K, V, u64)>, k: K::V, v: V::V)
    ensures
        count_in(s, k, v) == 0 || exists|j: int|
            0 <= j < s.len() && (#[trigger] s[j]).0@ == k && s[j].1@ == v && s[j].2 == count_in(
                s,
                k,
                v,
            ),
    decreases s.len(),
{
    if s.len() > 0 {
        if !(s[0].0@ == k && s[0].1@ == v) {
            lemma_count_witness(s.drop_first(), k, v);
            if count_in(s.drop_first(), k, v) != 0 {
                let j = choose|j: int|
                    0 <= j < s.drop_first().len() && (#[trigger] s.drop_first()[j]).0@ == k
                        && s.drop_first()[j].1@ == v && s.drop_first()[j].2 == count_in(
                        s.drop_first(),
                        k,
                        v,
                    );
                assert(s[j + 1] == s.drop_first()[j]);
            }
        }
    }
}

/// Counts how often each value was observed under each category.
pub struct Counter<K, V> {
    items: Vec<(K, V, u64)>,
}

impl<K: ExactEq, V: ExactEq> Counter<K, V> {
    /// The count recorded for value `v` under category `k`.
    pub closed spec fn count_of(&self, k: K::V, v: V::V) -> int {
        count_in(self.items@, k, v)
    }

    /// Whether anything was ever recorded under category `k`.
    pub closed spec fn has_key(&self, k: K::V) -> bool {
        key_in(self.items@, k)
    }

    pub closed spec fn wf(&self) -> bool {
        counter_wf(self.items@)
    }

    /// Records one observation of `value` under the category `key`.
    pub fn insert(&mut self, key: K, value: V)
        requires
            old(self).wf(),
        ensures
            final(self).wf(),
            final(self).count_of(key@, value@) == bump(old(self).count_of(key@, value@)),
            forall|k: K::V, v: V::V|
                !(k == key@ && v == value@) ==> final(self).count_of(k, v) == old(
                    self,
                ).count_of(k, v),
            forall|k: K::V| final(self).has_key(k) == (old(self).has_key(k) || k == key@),
    {
        let ghost s0 = self.items@;
        let n = self.items.len();
        let mut i: usize = 0;
        let mut found: Option<usize> = None;
        while i < n
            invariant
                n == self.items@.len(),
                i <= n,
                self.items@ == s0,
                found is None ==> forall|j: int|
                    0 <= j < i ==> !((#[trigger] s0[j]).0@ == key@ && s0[j].1@ == value@),
                found matches Some(b) ==> 0 <= b < i && s0[b as int].0@ == key@ && s0[
                    b as int
                ].1@ == value@,
            decreases n - i,
        {
            if found.is_none() {
                let e = &self.items[i];
                if e.0.exact_eq(&key) && e.1.exact_eq(&value) {
                    found = Some(i);
                }
            }
            i = i + 1;
        }
        match found {
            Some(b) => {
                let entry = self.items.remove(b);
                let c = entry.2;
                let c2: u64 = if c < u64::MAX {
                    c + 1
                } else {
                    c
                };
                self.items.insert(b, (entry.0, entry.1, c2));
                proof {
                    let e2 = (entry.0, entry.1, c2);
                    assert(self.items@ =~= s0.update(b as int, e2));
                    let s2 = self.items@;
                    assert(forall|j: int| 0 <= j < s2.len() && j != b ==> s2[j] == s0[j]);
                    assert(s2[b as int].0@ == key@ && s2[b as int].1@ == value@);
                    assert(counter_wf(s2));
                    lemma_count_at(s0, key@, value@, b as int);
                    assert(forall|j: int|
                        0 <= j < b ==> !((#[trigger] s2[j]).0@ == key@ && s2[j].1@ == value@));
                    lemma_count_at(s2, key@, value@, b as int);
                    assert forall|k: K::V, v: V::V| !(k == key@ && v == value@) implies count_in(
                        s2,
                        k,
                        v,
                    ) == count_in(s0, k, v) by {
                        if s0[b as int].0@ == k && s0[b as int].1@ == v {
                        } else {
                            lemma_count_update(s0, b as int, e2, k, v);
                        }
                    }
                    assert forall|k: K::V| key_in(s2, k) == (key_in(s0, k) || k == key@) by {
                        if key_in(s2, k) {
                            let j = choose|j: int| 0 <= j < s2.len() && s2[j].0@ == k;
                            assert(s0[j].0@ == k);
                        }
                        if key_in(s0, k) {
                            let j = choose|j: int| 0 <= j < s0.len() && s0[j].0@ == k;
                            assert(s2[j].0@ == k);
                        }
                        if k == key@ {
                            assert(s2[b as int].0@ == k);
                        }
                    }
                }
            },
            None => {
                proof {
                    lemma_count_none(s0, key@, value@);
                }
                let ghost kv = key@;
                let ghost vv = value@;
                self.items.push((key, value, 1));
                proof {
                    let s2 = self.items@;
                    let e = s2[s2.len() - 1];
                    assert(s2 =~= s0.push(e));
                    assert(e.0@ == kv && e.1@ == vv && e.2 == 1);
                    assert(counter_wf(s2)) by {
                        assert(forall|j: int| 0 <= j < s0.len() ==> (#[trigger] s2[j]) == s0[j]);
                    }
                    lemma_count_at(s2, kv, vv, s2.len() - 1);
                    assert forall|k: K::V, v: V::V| !(k == kv && v == vv) implies count_in(
                        s2,
                        k,
                        v,
                    ) == count_in(s0, k, v) by {
                        lemma_count_push(s0, e, k, v);
                    }
                    assert forall|k: K::V| key_in(s2, k) == (key_in(s0, k) || k == kv) by {
                        if key_in(s0, k) {
                            let j = choose|j: int| 0 <= j < s0.len() && s0[j].0@ == k;
                            assert(s2[j].0@ == k);
                        }
                        if k == kv {
                            assert(s2[s2.len() - 1].0@ == k);
                        }
                        if key_in(s2, k) && k != kv {
                            let j = choose|j: int| 0 <= j < s2.len() && s2[j].0@ == k;
                            assert(s0[j].0@ == k);
                        }
                    }
                }
            },
        }
    }

    /// The most frequently observed value under the category `key`, or
    /// nothing when the category was never observed.  Among equally
    /// frequent values the choice is arbitrary.
    pub fn most_common(&self, key: K) -> (r: Option<V>)
        requires
            self.wf(),
        ensures
            r is Some <==> self.has_key(key@),
            match r {
                Some(v) => self.count_of(key@, v@) >= 1 && forall|w: V::V|
                    #[trigger] self.count_of(key@, w) <= self.count_of(key@, v@),
                None => true,
            },
    {
        let ghost s = self.items@;
        let n = self.items.len();
        let mut i: usize = 0;
        let mut best: Option<usize> = None;
        while i < n
            invariant
                n == s.len(),
                i <= n,
                self.items@ == s,
                best is None ==> forall|j: int| 0 <= j < i ==> (#[trigger] s[j]).0@ != key@,
                best matches Some(b) ==> 0 <= b < i && s[b as int].0@ == key@ && (forall|j: int|
                    0 <= j < i && (#[trigger] s[j]).0@ == key@ ==> s[j].2 <= s[b as int].2),
            decreases n - i,
        {
            let matches_key = self.items[i].0.exact_eq(&key);
            match best {
                None => {
                    if matches_key {
                        best = Some(i);
                    }
                },
                Some(b) => {
                    if matches_key && self.items[i].2 > self.items[b].2 {
                        best = Some(i);
                    }
                },
            }
            i = i + 1;
        }
        match best {
            None => {
                proof {
                    assert(!key_in(s, key@));
                }
                None
            },
            Some(b) => {
                let v = self.items[b].1.duplicate();
                proof {
                    assert(key_in(s, key@)) by {
                        assert(s[b as int].0@ == key@);
                    }
                    assert forall|j: int|
                        0 <= j < b implies !((#[trigger] s[j]).0@ == key@ && s[j].1@ == v@) by {
                        if s[j].0@ == key@ && s[j].1@ == s[b as int].1@ {
                            assert(!(s[j].0@ == s[b as int].0@ && s[j].1@ == s[b as int].1@));
                        }
                    }
                    lemma_count_at(s, key@, v@, b as int);
                    assert forall|w: V::V| #[trigger] count_in(s, key@, w) <= count_in(
                        s,
                        key@,
                        v@,
                    ) by {
                        lemma_count_witness(s, key@, w);
                        if count_in(s, key@, w) != 0 {
                            let j = choose|j: int|
                                0 <= j < s.len() && (#[trigger] s[j]).0@ == key@ && s[j].1@ == w
                                    && s[j].2 == count_in(s, key@, w);
                        }
                    }
                }
                Some(v)
            },
        }
    }
}

impl<K: ExactEq, V: ExactEq> Default for Counter<K, V> {
    /// An aggregator with no observations recorded.
    fn default() -> (r: Self)
        ensures
            r.wf(),
            forall|k: K::V, v: V::V| #[trigger] r.count_of(k, v) == 0,
            forall|k: K::V| !(#[trigger] r.has_key(k)),
    {
        Counter { items: Vec::new() }
    }
}

} // verus!
