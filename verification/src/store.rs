//! A small string-keyed table with a map model, used by the in-memory rate
//! limiters and caches: no key occurs twice, and the table behaves as a finite
//! map from the key's characters to the stored value.
use vstd::prelude::*;

verus! {

/// Entries keyed by strings; each key occurs at most once.
#[derive(Debug)]
pub struct KeyedStore<V> {
    entries: Vec<(String, V)>,
}

impl<V> KeyedStore<V> {
    /// No key occurs twice.
    pub open spec fn wf(&self) -> bool {
        forall|i: int, j: int|
            0 <= i < self.entries_seq().len() && 0 <= j < self.entries_seq().len() && i != j
                ==> #[trigger] self.entries_seq()[i].0@ != #[trigger] self.entries_seq()[j].0@
    }

    /// The stored entries, in order.
    pub closed spec fn entries_seq(&self) -> Seq<(String, V)> {
        self.entries@
    }

    /// Key `k` is stored at position `i`.
    pub open spec fn key_at(&self, i: int, k: Seq<char>) -> bool {
        0 <= i < self.entries_seq().len() && self.entries_seq()[i].0@ == k
    }

    /// The table as a map from keys to values.
    pub open spec fn view(&self) -> Map<Seq<char>, V> {
        Map::new(
            |k: Seq<char>| exists|i: int| #[trigger] self.key_at(i, k),
            |k: Seq<char>| self.entries_seq()[choose|i: int| #[trigger] self.key_at(i, k)].1,
        )
    }

    proof fn lemma_lookup(&self, i: int)
        requires
            self.wf(),
            0 <= i < self.entries_seq().len(),
        ensures
            self.view().contains_key(self.entries_seq()[i].0@),
            self.view()[self.entries_seq()[i].0@] == self.entries_seq()[i].1,
    {
        let k = self.entries_seq()[i].0@;
        assert(self.key_at(i, k));
        let j = choose|j: int| #[trigger] self.key_at(j, k);
        assert(self.entries@[i].0@ == self.entries@[j].0@);
    }

    /// An empty table.
    pub fn new() -> (s: Self)
        ensures
            s.wf(),
            s.view() == Map::<Seq<char>, V>::empty(),
    {
        let s = KeyedStore { entries: Vec::new() };
        assert(s.view() =~= Map::<Seq<char>, V>::empty());
        s
    }

    /// Number of entries.
    pub fn len(&self) -> (n: usize)
        requires
            self.wf(),
        ensures
            n == self.view().dom().len(),
    {
        proof {
            self.lemma_dom_len();
        }
        self.entries.len()
    }

    proof fn lemma_dom_len(&self)
        requires
            self.wf(),
        ensures
            self.view().dom().finite(),
            self.view().dom().len() == self.entries_seq().len(),
        decreases self.entries_seq().len(),
    {
        let n = self.entries_seq().len();
        let keys = Seq::new(n, |i: int| self.entries_seq()[i].0@);
        assert(self.view().dom() =~= keys.to_set()) by {
            assert forall|k: Seq<char>| self.view().dom().contains(k) implies keys.to_set().contains(k) by {
                let i = choose|i: int| #[trigger] self.key_at(i, k);
                assert(keys[i] == k);
            }
            assert forall|k: Seq<char>| keys.to_set().contains(k) implies self.view().dom().contains(k) by {
                let i = choose|i: int| 0 <= i < keys.len() && keys[i] == k;
                assert(self.key_at(i, k));
            }
        }
        assert(keys.no_duplicates()) by {
            assert forall|i: int, j: int| 0 <= i < keys.len() && 0 <= j < keys.len() && i != j
                implies keys[i] != keys[j] by {
                assert(self.entries@[i].0@ != self.entries@[j].0@);
            }
        }
        keys.unique_seq_to_set();
    }

    /// Position of `key`, if stored.
    pub fn find(&self, key: &str) -> (r: Option<usize>)
        requires
            self.wf(),
        ensures
            r matches Some(i) ==> self.key_at(i as int, key@),
            r is None ==> !self.view().contains_key(key@),
    {
        let mut i: usize = 0;
        while i < self.entries.len()
            invariant
                i <= self.entries@.len(),
                forall|j: int| 0 <= j < i ==> self.entries@[j].0@ != key@,
            decreases self.entries.len() - i,
        {
            if crate::text::str_eq(self.entries[i].0.as_str(), key) {
                return Some(i);
            }
            i = i + 1;
        }
        proof {
            if self.view().contains_key(key@) {
                let j = choose|j: int| #[trigger] self.key_at(j, key@);
                assert(self.entries@[j].0@ == key@);
            }
        }
        None
    }

    /// The value stored under `key`.
    pub fn get(&self, key: &str) -> (r: Option<&V>)
        requires
            self.wf(),
        ensures
            r matches Some(v) ==> self.view().contains_key(key@) && self.view()[key@] == *v,
            r is None ==> !self.view().contains_key(key@),
    {
        match self.find(key) {
            Some(i) => {
                proof {
                    self.lemma_lookup(i as int);
                }
                Some(&self.entries[i].1)
            },
            None => None,
        }
    }

    /// Stores `value` under `key`, replacing any earlier value.
    pub fn insert(&mut self, key: &str, value: V)
        requires
            old(self).wf(),
        ensures
            final(self).wf(),
            final(self).view() == old(self).view().insert(key@, value),
    {
        let ghost old_view = self.view();
        match self.find(key) {
            Some(i) => {
                let ghost k = key@;
                let (kk, _) = self.entries.remove(i);
                self.entries.insert(i, (kk, value));
                proof {
                    assert forall|j: int| 0 <= j < self.entries@.len() && j != i implies
                        self.entries@[j] == old(self).entries@[j] by {}
                    assert(self.view() =~= old_view.insert(key@, value)) by {
                        assert forall|q: Seq<char>| #![auto] self.view().contains_key(q) <==> old_view.insert(key@, value).contains_key(q) by {
                            if self.view().contains_key(q) {
                                let m = choose|m: int| #[trigger] self.key_at(m, q);
                                assert(old(self).key_at(m, q));
                            }
                            if old_view.contains_key(q) {
                                let m = choose|m: int| #[trigger] old(self).key_at(m, q);
                                assert(self.key_at(m, q));
                            }
                            if q == key@ {
                                assert(self.key_at(i as int, q));
                            }
                        }
                        assert forall|q: Seq<char>| #![auto] self.view().contains_key(q) implies self.view()[q] == old_view.insert(key@, value)[q] by {
                            let m = choose|m: int| #[trigger] self.key_at(m, q);
                            self.lemma_lookup(m);
                            if m != i {
                                old(self).lemma_lookup(m);
                            }
                        }
                    }
                }
            },
            None => {
                let kk = crate::text::owned(key);
                self.entries.push((kk, value));
                proof {
                    let n = old(self).entries@.len();
                    assert(forall|j: int| 0 <= j < n ==> self.entries@[j] == old(self).entries@[j]);
                    assert forall|j: int| 0 <= j < n implies self.entries@[j].0@ != key@ by {
                        assert(old(self).key_at(j, old(self).entries@[j].0@));
                    }
                    assert(self.view() =~= old_view.insert(key@, value)) by {
                        assert forall|q: Seq<char>| #![auto] self.view().contains_key(q) <==> old_view.insert(key@, value).contains_key(q) by {
                            if self.view().contains_key(q) {
                                let m = choose|m: int| #[trigger] self.key_at(m, q);
                                if m < n {
                                    assert(old(self).key_at(m, q));
                                }
                            }
                            if old_view.contains_key(q) {
                                let m = choose|m: int| #[trigger] old(self).key_at(m, q);
                                assert(self.key_at(m, q));
                            }
                            if q == key@ {
                                assert(self.key_at(n as int, q));
                            }
                        }
                        assert forall|q: Seq<char>| #![auto] self.view().contains_key(q) implies self.view()[q] == old_view.insert(key@, value)[q] by {
                            let m = choose|m: int| #[trigger] self.key_at(m, q);
                            self.lemma_lookup(m);
                            if m < n {
                                old(self).lemma_lookup(m);
                            }
                        }
                    }
                }
            },
        }
    }

    /// Removes `key` and its value, if stored.
    pub fn remove(&mut self, key: &str)
        requires
            old(self).wf(),
        ensures
            final(self).wf(),
            final(self).view() == old(self).view().remove(key@),
    {
        let ghost old_view = self.view();
        match self.find(key) {
            Some(i) => {
                self.entries.remove(i);
                proof {
                    let n = old(self).entries@.len();
                    assert forall|j: int| 0 <= j < self.entries@.len() implies
                        #[trigger] self.entries@[j] == old(self).entries@[if j < i { j } else { j + 1 }] by {}
                    assert(self.view() =~= old_view.remove(key@)) by {
                        assert forall|q: Seq<char>| #![auto] self.view().contains_key(q) <==> old_view.remove(key@).contains_key(q) by {
                            if self.view().contains_key(q) {
                                let m = choose|m: int| #[trigger] self.key_at(m, q);
                                let mo = if m < i { m } else { m + 1 };
                                assert(old(self).key_at(mo, q));
                                assert(old(self).entries@[i as int].0@ == key@);
                                assert(mo != i);
                            }
                            if old_view.contains_key(q) && q != key@ {
                                let m = choose|m: int| #[trigger] old(self).key_at(m, q);
                                assert(m != i);
                                let mn = if m < i { m } else { m - 1 };
                                assert(self.key_at(mn, q));
                            }
                        }
                        assert forall|q: Seq<char>| #![auto] self.view().contains_key(q) implies self.view()[q] == old_view.remove(key@)[q] by {
                            let m = choose|m: int| #[trigger] self.key_at(m, q);
                            self.lemma_lookup(m);
                            let mo = if m < i { m } else { m + 1 };
                            old(self).lemma_lookup(mo);
                        }
                    }
                }
            },
            None => {
                assert(self.view() =~= old_view.remove(key@));
            },
        }
    }
}

/// Keys of the entries are pairwise distinct.
pub open spec fn keys_distinct<V>(s: Seq<(String, V)>) -> bool {
    forall|i: int, j: int|
        0 <= i < s.len() && 0 <= j < s.len() && i != j ==> #[trigger] s[i].0@ != #[trigger] s[j].0@
}

/// The map that a list of entries denotes, later entries overriding earlier ones.
pub open spec fn map_of<V>(s: Seq<(String, V)>) -> Map<Seq<char>, V>
    decreases s.len(),
{
    if s.len() == 0 {
        Map::empty()
    } else {
        map_of(s.drop_last()).insert(s.last().0@, s.last().1)
    }
}

proof fn lemma_map_of_dom<V>(s: Seq<(String, V)>, k: Seq<char>)
    requires
        map_of(s).contains_key(k),
    ensures
        exists|i: int| 0 <= i < s.len() && #[trigger] s[i].0@ == k,
    decreases s.len(),
{
    if s.last().0@ != k {
        lemma_map_of_dom(s.drop_last(), k);
        let i = choose|i: int| 0 <= i < s.drop_last().len() && #[trigger] s.drop_last()[i].0@ == k;
        assert(s[i].0@ == k);
    }
}

proof fn lemma_map_of_entry<V>(s: Seq<(String, V)>, i: int)
    requires
        keys_distinct(s),
        0 <= i < s.len(),
    ensures
        map_of(s).contains_key(s[i].0@),
        map_of(s)[s[i].0@] == s[i].1,
    decreases s.len(),
{
    if i < s.len() - 1 {
        assert(s.drop_last()[i] == s[i]);
        assert(s[i].0@ != s.last().0@);
        lemma_map_of_entry(s.drop_last(), i);
    }
}

proof fn lemma_filter_map_of<V>(s: Seq<(String, V)>, pred: spec_fn(V) -> bool)
    requires
        keys_distinct(s),
    ensures
        keys_distinct(s.filter(|e: (String, V)| pred(e.1))),
        map_of(s.filter(|e: (String, V)| pred(e.1))) =~= map_of(s).restrict(
            map_of(s).dom().filter(|k: Seq<char>| pred(map_of(s)[k])),
        ),
    decreases s.len(),
{
    let f = |e: (String, V)| pred(e.1);
    reveal_with_fuel(Seq::filter, 1);
    if s.len() > 0 {
        let d = s.drop_last();
        assert(keys_distinct(d)) by {
            assert forall|i: int, j: int| 0 <= i < d.len() && 0 <= j < d.len() && i != j
                implies #[trigger] d[i].0@ != #[trigger] d[j].0@ by {
                assert(d[i] == s[i]);
                assert(d[j] == s[j]);
            }
        }
        lemma_filter_map_of(d, pred);
        let x = s.last();
        assert(!map_of(d).contains_key(x.0@)) by {
            if map_of(d).contains_key(x.0@) {
                lemma_map_of_dom(d, x.0@);
                let i = choose|i: int| 0 <= i < d.len() && #[trigger] d[i].0@ == x.0@;
                assert(s[i].0@ == s[s.len() - 1].0@);
            }
        }
        let fd = d.filter(f);
        assert(s.filter(f) == if f(x) { fd.push(x) } else { fd });
        let ms = map_of(s);
        let md = map_of(d);
        assert(ms == md.insert(x.0@, x.1));
        if f(x) {
            let fs = fd.push(x);
            assert(fs.drop_last() =~= fd);
            assert(map_of(fs) == map_of(fd).insert(x.0@, x.1));
            assert forall|i: int, j: int| 0 <= i < fs.len() && 0 <= j < fs.len() && i != j
                implies #[trigger] fs[i].0@ != #[trigger] fs[j].0@ by {
                if i == fs.len() - 1 || j == fs.len() - 1 {
                    let o = if i == fs.len() - 1 { j } else { i };
                    assert(fs[o] == fd[o]);
                    assert(fd.contains(fd[o]));
                    d.lemma_filter_contains_rev(f, fd[o]);
                    let b = choose|b: int| 0 <= b < d.len() && d[b] == fd[o];
                    assert(s[b].0@ != s[s.len() - 1].0@);
                } else {
                    assert(fs[i] == fd[i] && fs[j] == fd[j]);
                }
            }
        }
        let target = ms.restrict(ms.dom().filter(|k: Seq<char>| pred(ms[k])));
        assert forall|k: Seq<char>| #![auto] map_of(s.filter(f)).contains_key(k) <==> target.contains_key(k) by {
            if k != x.0@ {
                assert(ms[k] == md[k]);
            }
        }
        assert forall|k: Seq<char>| #![auto] map_of(s.filter(f)).contains_key(k) implies map_of(s.filter(f))[k] == target[k] by {
            if k != x.0@ {
                assert(ms[k] == md[k]);
            }
        }
    }
}

proof fn lemma_view_is_map_of<V>(st: &KeyedStore<V>)
    requires
        st.wf(),
    ensures
        st.view() =~= map_of(st.entries_seq()),
{
    let s = st.entries_seq();
    assert forall|k: Seq<char>| #![auto] st.view().contains_key(k) <==> map_of(s).contains_key(k) by {
        if st.view().contains_key(k) {
            let i = choose|i: int| #[trigger] st.key_at(i, k);
            lemma_map_of_entry(s, i);
        }
        if map_of(s).contains_key(k) {
            lemma_map_of_dom(s, k);
            let i = choose|i: int| 0 <= i < s.len() && #[trigger] s[i].0@ == k;
            assert(st.key_at(i, k));
        }
    }
    assert forall|k: Seq<char>| #![auto] st.view().contains_key(k) implies st.view()[k] == map_of(s)[k] by {
        let i = choose|i: int| #[trigger] st.key_at(i, k);
        st.lemma_lookup(i);
        lemma_map_of_entry(s, i);
    }
}

impl<V> KeyedStore<V> {
    /// The stored entries: distinct keys, denoting the table's map.
    pub fn entries(&self) -> (v: &Vec<(String, V)>)
        requires
            self.wf(),
        ensures
            keys_distinct(v@),
            map_of(v@) == self.view(),
    {
        proof {
            lemma_view_is_map_of(self);
        }
        &self.entries
    }
}

impl<V: Copy> KeyedStore<V> {
    /// Keeps exactly the entries whose value satisfies `keep`.
    pub fn retain<F: Fn(&V) -> bool>(&mut self, keep: F, Ghost(pred): Ghost<spec_fn(V) -> bool>)
        requires
            old(self).wf(),
            forall|v: V| #[trigger] keep.requires((&v,)),
            forall|v: V, r: bool| #[trigger] keep.ensures((&v,), r) ==> r == pred(v),
        ensures
            final(self).wf(),
            final(self).view() == old(self).view().restrict(
                old(self).view().dom().filter(|k: Seq<char>| pred(old(self).view()[k])),
            ),
    {
        let ghost f = |e: (String, V)| pred(e.1);
        let ghost old_store = *self;
        let mut old_entries: Vec<(String, V)> = Vec::new();
        std::mem::swap(&mut old_entries, &mut self.entries);
        let mut kept: Vec<(String, V)> = Vec::new();
        let mut i: usize = 0;
        while i < old_entries.len()
            invariant
                old_entries@ == old_store.entries_seq(),
                i <= old_entries@.len(),
                forall|v: V| #[trigger] keep.requires((&v,)),
                forall|v: V, r: bool| #[trigger] keep.ensures((&v,), r) ==> r == pred(v),
                f == (|e: (String, V)| pred(e.1)),
                kept@ == old_entries@.take(i as int).filter(f),
            decreases old_entries.len() - i,
        {
            proof {
                reveal_with_fuel(Seq::filter, 1);
                assert(old_entries@.take(i + 1).drop_last() =~= old_entries@.take(i as int));
            }
            let v = old_entries[i].1;
            let b = keep(&v);
            proof {
                assert(old_entries@.take(i + 1).last() == old_entries@[i as int]);
                assert(keep.ensures((&v,), b));
                assert(b == pred(v));
                assert(v == old_entries@[i as int].1);
                assert(f(old_entries@[i as int]) == pred(old_entries@[i as int].1));
            }
            if b {
                let k = old_entries[i].0.clone();
                assert((k, v) == old_entries@[i as int]);
                kept.push((k, v));
            }
            i = i + 1;
        }
        proof {
            assert(old_entries@.take(i as int) =~= old_entries@);
            lemma_filter_map_of(old_entries@, pred);
            lemma_view_is_map_of(&old_store);
        }
        self.entries = kept;
        proof {
            lemma_view_is_map_of(self);
        }
    }
}

} // verus!
