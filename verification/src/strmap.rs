//! A map from strings to strings that keeps its keys in insertion order.
//!
//! It stands where the assistant keeps small string tables (environment
//! variables, metadata, sections of a document): each key occurs once, and
//! inserting a present key replaces its value in place.

use vstd::prelude::*;
use crate::text::{owned, str_eq};

verus! {

/// Map of the entries, later entries overriding earlier ones.
pub open spec fn entries_map(es: Seq<(Seq<char>, Seq<char>)>) -> Map<Seq<char>, Seq<char>>
    decreases es.len(),
{
    if es.len() == 0 {
        Map::empty()
    } else {
        entries_map(es.drop_last()).insert(es.last().0, es.last().1)
    }
}

/// Keys of the entries, in order.
pub open spec fn entry_keys(es: Seq<(Seq<char>, Seq<char>)>) -> Seq<Seq<char>> {
    es.map_values(|e: (Seq<char>, Seq<char>)| e.0)
}

/// No key occurs twice.
pub open spec fn keys_unique(es: Seq<(Seq<char>, Seq<char>)>) -> bool {
    forall|i: int, j: int| 0 <= i < j < es.len() ==> es[i].0 != es[j].0
}

/// Views of string pairs.
pub open spec fn pair_views(v: Seq<(String, String)>) -> Seq<(Seq<char>, Seq<char>)> {
    v.map_values(|p: (String, String)| (p.0@, p.1@))
}

/// String-to-string map with unique keys kept in insertion order.
pub struct StringMap {
    entries: Vec<(String, String)>,
}

impl StringMap {
    #[verifier::type_invariant]
    spec fn inv(&self) -> bool {
        keys_unique(pair_views(self.entries@))
    }

    /// The entries as views, in insertion order.
    pub closed spec fn entries_spec(&self) -> Seq<(Seq<char>, Seq<char>)> {
        pair_views(self.entries@)
    }

    /// The map that the entries describe.
    pub open spec fn map_spec(&self) -> Map<Seq<char>, Seq<char>> {
        entries_map(self.entries_spec())
    }

    /// An empty map.
    pub fn new() -> (r: Self)
        ensures
            r.entries_spec().len() == 0,
            r.map_spec() == Map::<Seq<char>, Seq<char>>::empty(),
    {
        let r = StringMap { entries: Vec::new() };
        assert(r.entries_spec() =~= Seq::<(Seq<char>, Seq<char>)>::empty());
        r
    }

    /// Number of entries.
    pub fn len(&self) -> (n: usize)
        ensures
            n == self.entries_spec().len(),
    {
        self.entries.len()
    }

    fn index_of(&self, key: &str) -> (r: Option<usize>)
        ensures
            match r {
                Some(i) => i < self.entries_spec().len() && self.entries_spec()[i as int].0 == key@,
                None => forall|i: int|
                    0 <= i < self.entries_spec().len() ==> self.entries_spec()[i].0 != key@,
            },
    {
        let mut i: usize = 0;
        while i < self.entries.len()
            invariant
                i <= self.entries@.len(),
                forall|j: int| 0 <= j < i ==> pair_views(self.entries@)[j].0 != key@,
            decreases self.entries.len() - i,
        {
            if str_eq(self.entries[i].0.as_str(), key) {
                return Some(i);
            }
            i = i + 1;
        }
        None
    }

    /// Sets `key` to `value`: a present key keeps its place and takes the new
    /// value, a new key goes last.
    pub fn insert(&mut self, key: &str, value: &str)
        ensures
            final(self).map_spec() == old(self).map_spec().insert(key@, value@),
            old(self).map_spec().contains_key(key@) ==> entry_keys(final(self).entries_spec())
                == entry_keys(old(self).entries_spec()),
            !old(self).map_spec().contains_key(key@) ==> entry_keys(final(self).entries_spec())
                == entry_keys(old(self).entries_spec()).push(key@),
    {
        proof {
            use_type_invariant(&*self);
            lemma_map_keys(self.entries_spec());
        }
        match self.index_of(key) {
            Some(i) => {
                let ghost es = pair_views(self.entries@);
                let mut entries: Vec<(String, String)> = Vec::new();
                std::mem::swap(&mut entries, &mut self.entries);
                entries.set(i, (owned(key), owned(value)));
                proof {
                    let es2 = pair_views(entries@);
                    assert(es2 =~= es.update(i as int, (key@, value@)));
                    lemma_update_map(es, i as int, value@);
                    assert(entry_keys(es2) =~= entry_keys(es));
                }
                self.entries = entries;
            },
            None => {
                let ghost es = pair_views(self.entries@);
                let mut entries: Vec<(String, String)> = Vec::new();
                std::mem::swap(&mut entries, &mut self.entries);
                entries.push((owned(key), owned(value)));
                proof {
                    let es2 = pair_views(entries@);
                    assert(es2 =~= es.push((key@, value@)));
                    assert(es2.drop_last() =~= es);
                    assert(entry_keys(es2) =~= entry_keys(es).push(key@));
                }
                self.entries = entries;
            },
        }
    }

    /// The value of `key`.
    pub fn get(&self, key: &str) -> (r: Option<&String>)
        ensures
            match r {
                Some(v) => self.map_spec().contains_key(key@) && self.map_spec()[key@] == v@,
                None => !self.map_spec().contains_key(key@),
            },
    {
        proof {
            use_type_invariant(self);
            lemma_map_keys(self.entries_spec());
        }
        match self.index_of(key) {
            Some(i) => {
                proof {
                    lemma_map_value(self.entries_spec(), i as int);
                }
                Some(&self.entries[i].1)
            },
            None => None,
        }
    }

    /// `key` has a value.
    pub fn contains_key(&self, key: &str) -> (b: bool)
        ensures
            b == self.map_spec().contains_key(key@),
    {
        match self.get(key) {
            Some(_) => true,
            None => false,
        }
    }

    /// The entries in insertion order.
    pub fn entries(&self) -> (r: &[(String, String)])
        ensures
            pair_views(r@) == self.entries_spec(),
    {
        self.entries.as_slice()
    }
}

impl Clone for StringMap {
    /// A copy with the same entries in the same order.
    fn clone(&self) -> (r: Self)
        ensures
            r.entries_spec() == self.entries_spec(),
    {
        proof {
            use_type_invariant(self);
        }
        let mut v: Vec<(String, String)> = Vec::new();
        let mut i: usize = 0;
        while i < self.entries.len()
            invariant
                i <= self.entries@.len(),
                pair_views(v@) == pair_views(self.entries@).subrange(0, i as int),
            decreases self.entries.len() - i,
        {
            let k = self.entries[i].0.clone();
            let x = self.entries[i].1.clone();
            let ghost before = pair_views(v@);
            v.push((k, x));
            assert(pair_views(v@) =~= before.push((k@, x@)));
            assert(pair_views(self.entries@).subrange(0, i + 1) =~= pair_views(self.entries@).subrange(
                0,
                i as int,
            ).push(pair_views(self.entries@)[i as int]));
            i = i + 1;
        }
        assert(pair_views(self.entries@).subrange(0, self.entries@.len() as int) =~= pair_views(self.entries@));
        StringMap { entries: v }
    }
}

/// A key is mapped exactly when some entry holds it.
pub proof fn lemma_map_keys(es: Seq<(Seq<char>, Seq<char>)>)
    ensures
        forall|k: Seq<char>|
            #![trigger entries_map(es).contains_key(k)]
            entries_map(es).contains_key(k) <==> exists|i: int| 0 <= i < es.len() && es[i].0 == k,
    decreases es.len(),
{
    if es.len() > 0 {
        let d = es.drop_last();
        lemma_map_keys(d);
        assert forall|k: Seq<char>|
            #![trigger entries_map(es).contains_key(k)]
            entries_map(es).contains_key(k) <==> exists|i: int| 0 <= i < es.len() && es[i].0 == k by {
            if entries_map(es).contains_key(k) {
                if k == es.last().0 {
                    assert(es[es.len() - 1].0 == k);
                } else {
                    assert(entries_map(d).contains_key(k));
                    let i = choose|i: int| 0 <= i < d.len() && d[i].0 == k;
                    assert(es[i] == d[i]);
                }
            }
            if exists|i: int| 0 <= i < es.len() && es[i].0 == k {
                let i = choose|i: int| 0 <= i < es.len() && es[i].0 == k;
                if i < es.len() - 1 {
                    assert(d[i] == es[i]);
                    assert(entries_map(d).contains_key(k));
                }
            }
        }
    }
}

/// With unique keys, the value of an entry's key is that entry's value.
pub proof fn lemma_map_value(es: Seq<(Seq<char>, Seq<char>)>, i: int)
    requires
        keys_unique(es),
        0 <= i < es.len(),
    ensures
        entries_map(es).contains_key(es[i].0),
        entries_map(es)[es[i].0] == es[i].1,
    decreases es.len(),
{
    if i < es.len() - 1 {
        assert(es.drop_last()[i] == es[i]);
        lemma_map_value(es.drop_last(), i);
    }
}

proof fn lemma_update_map(es: Seq<(Seq<char>, Seq<char>)>, i: int, v: Seq<char>)
    requires
        keys_unique(es),
        0 <= i < es.len(),
    ensures
        entries_map(es.update(i, (es[i].0, v))) == entries_map(es).insert(es[i].0, v),
        keys_unique(es.update(i, (es[i].0, v))),
    decreases es.len(),
{
    let k = es[i].0;
    let es2 = es.update(i, (k, v));
    if i == es.len() - 1 {
        assert(es2.drop_last() =~= es.drop_last());
        assert(entries_map(es2) =~= entries_map(es).insert(k, v));
    } else {
        assert(es2.drop_last() =~= es.drop_last().update(i, (k, v)));
        lemma_update_map(es.drop_last(), i, v);
        assert(es.last().0 != k);
        assert(entries_map(es2) =~= entries_map(es).insert(k, v));
    }
}

} // verus!
