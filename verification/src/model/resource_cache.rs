use vstd::prelude::*;

use std::rc::Rc;

verus! {

/// The number of handles, this one included, that share the resource
/// behind `r` (`Rc::strong_count`). It depends on handles held elsewhere,
/// so nothing is stated of it beyond counting `r` itself.
#[verifier::external_body]
fn handle_count<T>(r: &Rc<T>) -> (n: usize)
    ensures
        n >= 1,
{
    Rc::strong_count(r)
}

/// The entries of a cache, as a map from key to resource, built in order.
pub open spec fn entries_map<T>(s: Seq<(String, Rc<T>)>) -> Map<Seq<char>, Rc<T>>
    decreases s.len(),
{
    if s.len() == 0 {
        Map::empty()
    } else {
        entries_map(s.drop_last()).insert(s.last().0@, s.last().1)
    }
}

/// No two entries share a key.
pub open spec fn keys_distinct<T>(s: Seq<(String, Rc<T>)>) -> bool {
    forall|i: int, j: int| 0 <= i < s.len() && 0 <= j < s.len() && i != j ==> s[i].0@ != s[j].0@
}

proof fn lemma_entries_absent<T>(s: Seq<(String, Rc<T>)>, key: Seq<char>)
    requires
        forall|i: int| 0 <= i < s.len() ==> s[i].0@ != key,
    ensures
        !entries_map(s).contains_key(key),
    decreases s.len(),
{
    if s.len() > 0 {
        lemma_entries_absent(s.drop_last(), key);
    }
}

proof fn lemma_entries_lookup<T>(s: Seq<(String, Rc<T>)>, i: int)
    requires
        keys_distinct(s),
        0 <= i < s.len(),
    ensures
        entries_map(s).contains_key(s[i].0@),
        entries_map(s)[s[i].0@] == s[i].1,
    decreases s.len(),
{
    if i < s.len() - 1 {
        lemma_entries_lookup(s.drop_last(), i);
    }
}

proof fn lemma_entries_len<T>(s: Seq<(String, Rc<T>)>)
    requires
        keys_distinct(s),
    ensures
        entries_map(s).dom().finite(),
        entries_map(s).len() == s.len(),
    decreases s.len(),
{
    if s.len() > 0 {
        lemma_entries_len(s.drop_last());
        lemma_entries_absent(s.drop_last(), s.last().0@);
    }
}

proof fn lemma_entries_keys<T>(s: Seq<(String, Rc<T>)>, key: Seq<char>)
    requires
        entries_map(s).contains_key(key),
    ensures
        exists|i: int| 0 <= i < s.len() && s[i].0@ == key,
    decreases s.len(),
{
    if s.last().0@ != key {
        lemma_entries_keys(s.drop_last(), key);
        let i = choose|i: int| 0 <= i < s.drop_last().len() && s.drop_last()[i].0@ == key;
        assert(s[i].0@ == key);
    }
}

/// Shared resources, each created once per key and handed out as a shared
/// handle.
pub struct ResourceCache<T> {
    entries: Vec<(String, Rc<T>)>,
}

impl<T> View for ResourceCache<T> {
    type V = Map<Seq<char>, Rc<T>>;

    closed spec fn view(&self) -> Map<Seq<char>, Rc<T>> {
        entries_map(self.entries@)
    }
}

impl<T> ResourceCache<T> {
    #[verifier::type_invariant]
    spec fn inv(self) -> bool {
        keys_distinct(self.entries@)
    }

    /// An empty cache.
    pub fn new() -> (c: Self)
        ensures
            c@ == Map::<Seq<char>, Rc<T>>::empty(),
    {
        ResourceCache { entries: Vec::new() }
    }

    /// The number of cached resources.
    pub fn len(&self) -> (n: usize)
        ensures
            n == self@.len(),
            self@.dom().finite(),
    {
        proof {
            use_type_invariant(self);
            lemma_entries_len(self.entries@);
        }
        self.entries.len()
    }

    fn position(&self, key: &str) -> (r: Option<usize>)
        ensures
            match r {
                Some(i) => i < self.entries@.len() && self.entries@[i as int].0@ == key@,
                None => forall|j: int|
                    0 <= j < self.entries@.len() ==> self.entries@[j].0@ != key@,
            },
    {
        let k = key.to_owned();
        let mut i: usize = 0;
        while i < self.entries.len()
            invariant
                k@ == key@,
                0 <= i <= self.entries@.len(),
                forall|j: int| 0 <= j < i ==> self.entries@[j].0@ != key@,
            decreases self.entries@.len() - i,
        {
            if self.entries[i].0 == k {
                return Some(i);
            }
            i = i + 1;
        }
        None
    }

    /// A handle to the resource cached under `key`, if any.
    pub fn get(&self, key: &str) -> (r: Option<Rc<T>>)
        ensures
            match r {
                Some(h) => self@.contains_key(key@) && h == self@[key@],
                None => !self@.contains_key(key@),
            },
    {
        proof {
            use_type_invariant(self);
        }
        match self.position(key) {
            Some(i) => {
                proof {
                    lemma_entries_lookup(self.entries@, i as int);
                }
                Some(self.entries[i].1.clone())
            },
            None => {
                proof {
                    lemma_entries_absent(self.entries@, key@);
                }
                None
            },
        }
    }

    /// A handle to the resource cached under `key`; when there is none, the
    /// resource is created with `create` and cached first.
    pub fn get_or_insert_with<F: FnOnce() -> T>(&mut self, key: &str, create: F) -> (r: Rc<T>)
        requires
            call_requires(create, ()),
        ensures
            old(self)@.contains_key(key@) ==> final(self)@ == old(self)@ && r == old(self)@[key@],
            !old(self)@.contains_key(key@) ==> (call_ensures(create, (), *r) && final(self)@
                == old(self)@.insert(key@, r)),
    {
        proof {
            use_type_invariant(&*self);
        }
        match self.position(key) {
            Some(i) => {
                proof {
                    lemma_entries_lookup(self.entries@, i as int);
                }
                self.entries[i].1.clone()
            },
            None => {
                proof {
                    lemma_entries_absent(self.entries@, key@);
                }
                let value = create();
                let handle = Rc::new(value);
                let result = handle.clone();
                let ghost s = self.entries@;
                let mut entries = Vec::new();
                std::mem::swap(&mut entries, &mut self.entries);
                entries.push((key.to_owned(), handle));
                proof {
                    assert(entries@.drop_last() =~= s);
                    assert(keys_distinct(entries@));
                }
                self.entries = entries;
                result
            },
        }
    }

    /// The entries of the cache, in the order they were created.
    pub closed spec fn entry_list(&self) -> Seq<(String, Rc<T>)> {
        self.entries@
    }

    /// Keep exactly the entries whose flag in `keep` (one flag per entry,
    /// in entry order) is set, in their order.
    pub fn retain_flagged(&mut self, keep: &Vec<bool>)
        requires
            keep@.len() == old(self).entry_list().len(),
        ensures
            final(self).entry_list() == flagged(old(self).entry_list(), keep@),
            final(self)@ == entries_map(final(self).entry_list()),
            final(self)@.submap_of(old(self)@),
    {
        proof {
            use_type_invariant(&*self);
        }
        let ghost s = self.entries@;
        let mut old_entries = Vec::new();
        std::mem::swap(&mut old_entries, &mut self.entries);
        let n = old_entries.len();
        let mut kept: Vec<(String, Rc<T>)> = Vec::new();
        let mut j: usize = 0;
        for e in it: old_entries.into_iter()
            invariant
                it.seq() == s,
                n == s.len(),
                keep@.len() == s.len(),
                j == it.index(),
                j <= s.len(),
                kept@ == flagged(s.take(j as int), keep@.take(j as int)),
        {
            proof {
                assert(s.take(j + 1).drop_last() =~= s.take(j as int));
                assert(keep@.take(j + 1).drop_last() =~= keep@.take(j as int));
            }
            if keep[j] {
                kept.push(e);
            }
            j = j + 1;
        }
        proof {
            assert(s.take(s.len() as int) =~= s);
            assert(keep@.take(s.len() as int) =~= keep@);
            lemma_flagged(s, keep@);
        }
        self.entries = kept;
    }

    /// Drop the resources that no handle outside the cache refers to any
    /// more: an entry stays exactly when the number of handles to its
    /// resource, the cache's own included, is above one. Those numbers
    /// depend on handles held elsewhere; whatever they are, the cache keeps,
    /// in order, exactly the entries whose number is above one.
    pub fn purge_unused(&mut self)
        ensures
            exists|counts: Seq<usize>|
                {
                    &&& counts.len() == old(self).entry_list().len()
                    &&& forall|i: int| 0 <= i < counts.len() ==> #[trigger] counts[i] >= 1
                    &&& final(self).entry_list() == flagged(
                        old(self).entry_list(),
                        held_elsewhere(counts),
                    )
                },
            final(self)@ == entries_map(final(self).entry_list()),
            final(self)@.submap_of(old(self)@),
    {
        let n = self.entries.len();
        let mut counts: Vec<usize> = Vec::new();
        let mut i: usize = 0;
        while i < n
            invariant
                n == self.entries@.len(),
                0 <= i <= n,
                counts@.len() == i,
                forall|j: int| 0 <= j < i ==> #[trigger] counts@[j] >= 1,
            decreases n - i,
        {
            counts.push(handle_count(&self.entries[i].1));
            i = i + 1;
        }
        let keep = still_held(&counts);
        self.retain_flagged(&keep);
    }
}

/// For each handle count, whether a handle other than the cache's own is
/// held: the count is above one.
pub open spec fn held_elsewhere(counts: Seq<usize>) -> Seq<bool> {
    counts.map_values(|c: usize| c > 1)
}

/// For each handle count, whether a handle other than the cache's own is
/// held (the count is above one).
pub fn still_held(counts: &Vec<usize>) -> (keep: Vec<bool>)
    ensures
        keep@ == held_elsewhere(counts@),
{
    let mut keep: Vec<bool> = Vec::new();
    let mut i: usize = 0;
    while i < counts.len()
        invariant
            0 <= i <= counts@.len(),
            keep@.len() == i,
            forall|j: int| 0 <= j < i ==> #[trigger] keep@[j] == (counts@[j] > 1),
        decreases counts@.len() - i,
    {
        keep.push(counts[i] > 1);
        i = i + 1;
    }
    proof {
        assert(keep@ =~= held_elsewhere(counts@));
    }
    keep
}

/// The elements of `s` whose flag in `keep` (one flag per element) is set,
/// in order.
pub open spec fn flagged<A>(s: Seq<A>, keep: Seq<bool>) -> Seq<A>
    decreases s.len(),
{
    if s.len() == 0 {
        Seq::empty()
    } else if keep.last() {
        flagged(s.drop_last(), keep.drop_last()).push(s.last())
    } else {
        flagged(s.drop_last(), keep.drop_last())
    }
}

/// A purge keeps an entry exactly when a handle other than the cache's own
/// is held: a count of one (the cache alone) drops the entry, a count of two
/// or more keeps it, and the key of every entry is still cached afterwards
/// exactly when its flag is set.
pub proof fn lemma_purge_keeps_held<T>(s: Seq<(String, Rc<T>)>, counts: Seq<usize>, i: int)
    requires
        keys_distinct(s),
        counts.len() == s.len(),
        0 <= i < s.len(),
    ensures
        held_elsewhere(counts).len() == counts.len(),
        counts[i] == 1 ==> !held_elsewhere(counts)[i],
        counts[i] >= 2 ==> held_elsewhere(counts)[i],
        entries_map(flagged(s, held_elsewhere(counts))).contains_key(s[i].0@)
            == held_elsewhere(counts)[i],
{
    lemma_flagged_keeps_key(s, held_elsewhere(counts), i);
}

/// With distinct keys, the key of entry `i` survives a selection exactly
/// when entry `i` is flagged.
proof fn lemma_flagged_keeps_key<T>(s: Seq<(String, Rc<T>)>, keep: Seq<bool>, i: int)
    requires
        keys_distinct(s),
        keep.len() == s.len(),
        0 <= i < s.len(),
    ensures
        entries_map(flagged(s, keep)).contains_key(s[i].0@) == keep[i],
    decreases s.len(),
{
    let s1 = s.drop_last();
    let k1 = keep.drop_last();
    let x = s.last();
    let r = flagged(s1, k1);
    lemma_flagged(s1, k1);
    if i == s.len() - 1 {
        if !keep.last() {
            assert forall|a: int| 0 <= a < r.len() implies r[a].0@ != x.0@ by {
                let b = choose|b: int| 0 <= b < s1.len() && #[trigger] r[a] == s1[b];
                assert(s[b] == s1[b]);
            }
            lemma_entries_absent(r, x.0@);
        } else {
            assert(r.push(x).drop_last() =~= r);
        }
    } else {
        lemma_flagged_keeps_key(s1, k1, i);
        assert(s[i] == s1[i]);
        assert(keep[i] == k1[i]);
        if keep.last() {
            assert(r.push(x).drop_last() =~= r);
        }
    }
}

proof fn lemma_flagged<T>(s: Seq<(String, Rc<T>)>, keep: Seq<bool>)
    requires
        keys_distinct(s),
        keep.len() == s.len(),
    ensures
        forall|a: int|
            0 <= a < flagged(s, keep).len() ==> exists|b: int|
                0 <= b < s.len() && #[trigger] flagged(s, keep)[a] == s[b],
        keys_distinct(flagged(s, keep)),
        entries_map(flagged(s, keep)).submap_of(entries_map(s)),
    decreases s.len(),
{
    if s.len() > 0 {
        let s1 = s.drop_last();
        let k1 = keep.drop_last();
        lemma_flagged(s1, k1);
        let r = flagged(s1, k1);
        let x = s.last();
        assert(s1.push(x) =~= s);
        assert(entries_map(s) == entries_map(s1).insert(x.0@, x.1));
        assert forall|a: int| 0 <= a < r.len() implies #[trigger] r[a].0@ != x.0@ by {
            let b = choose|b: int| 0 <= b < s1.len() && r[a] == s1[b];
            assert(s[b] == s1[b]);
        }
        if keep.last() {
            let f = r.push(x);
            assert(f.drop_last() =~= r);
            assert(entries_map(f) == entries_map(r).insert(x.0@, x.1));
            assert forall|a: int| 0 <= a < f.len() implies exists|b: int|
                0 <= b < s.len() && #[trigger] f[a] == s[b] by {
                if a < r.len() {
                    let b = choose|b: int| 0 <= b < s1.len() && r[a] == s1[b];
                    assert(f[a] == s[b]);
                } else {
                    assert(f[a] == s[s.len() - 1]);
                }
            }
            assert(keys_distinct(f));
            assert forall|k: Seq<char>| #[trigger]
                entries_map(f).dom().contains(k) implies #[trigger] entries_map(s).dom().contains(
                k,
            ) && entries_map(f)[k] == entries_map(s)[k] by {
                if k != x.0@ {
                    assert(entries_map(r).dom().contains(k));
                    assert(entries_map(s1).dom().contains(k));
                }
            }
        } else {
            assert forall|a: int| 0 <= a < r.len() implies exists|b: int|
                0 <= b < s.len() && #[trigger] r[a] == s[b] by {
                let b = choose|b: int| 0 <= b < s1.len() && r[a] == s1[b];
                assert(r[a] == s[b]);
            }
            assert forall|k: Seq<char>| #[trigger]
                entries_map(r).dom().contains(k) implies #[trigger] entries_map(s).dom().contains(
                k,
            ) && entries_map(r)[k] == entries_map(s)[k] by {
                lemma_entries_keys(r, k);
                let a = choose|a: int| 0 <= a < r.len() && r[a].0@ == k;
                assert(r[a].0@ != x.0@);
                assert(entries_map(s1).dom().contains(k));
            }
        }
    }
}

} // verus!
