//! Association tables with unique keys, abstracted as maps.
//!
//! The request's matched path parameters, the depot and an operation's
//! parameter set are all stored as vectors of key-value pairs whose keys are
//! unique; their contracts speak of the map such a sequence denotes, with the
//! later entries winning (which is irrelevant once keys are unique).

use vstd::prelude::*;

verus! {

/// No two entries of the sequence share a key.
pub open spec fn keys_unique<K, V>(s: Seq<(K, V)>) -> bool {
    forall|i: int, j: int| 0 <= i < j < s.len() ==> s[i].0 != s[j].0
}

/// The map denoted by an association sequence; later entries override earlier
/// ones.
pub open spec fn as_map<K, V>(s: Seq<(K, V)>) -> Map<K, V>
    decreases s.len(),
{
    if s.len() == 0 {
        Map::empty()
    } else {
        as_map(s.drop_last()).insert(s.last().0, s.last().1)
    }
}

/// A key is in the map exactly when some entry holds it.
pub proof fn lemma_as_map_contains<K, V>(s: Seq<(K, V)>, k: K)
    ensures
        as_map(s).contains_key(k) <==> exists|i: int| 0 <= i < s.len() && s[i].0 == k,
    decreases s.len(),
{
    if s.len() > 0 {
        lemma_as_map_contains(s.drop_last(), k);
        if s.last().0 != k && as_map(s).contains_key(k) {
            let i = choose|i: int| 0 <= i < s.drop_last().len() && s.drop_last()[i].0 == k;
            assert(s[i].0 == k);
        }
        if exists|i: int| 0 <= i < s.len() && s[i].0 == k {
            let i = choose|i: int| 0 <= i < s.len() && s[i].0 == k;
            if i < s.len() - 1 {
                assert(s.drop_last()[i].0 == k);
            }
        }
    }
}

/// With unique keys, the map sends each entry's key to that entry's value.
pub proof fn lemma_as_map_get<K, V>(s: Seq<(K, V)>, i: int)
    requires
        keys_unique(s),
        0 <= i < s.len(),
    ensures
        as_map(s).contains_key(s[i].0),
        as_map(s)[s[i].0] == s[i].1,
    decreases s.len(),
{
    if i == s.len() - 1 {
    } else {
        assert(keys_unique(s.drop_last()));
        assert(s.drop_last()[i] == s[i]);
        lemma_as_map_get(s.drop_last(), i);
        assert(s.last().0 != s[i].0);
    }
}

/// Appending a fresh entry inserts its pair into the map.
pub proof fn lemma_as_map_push<K, V>(s: Seq<(K, V)>, k: K, v: V)
    ensures
        as_map(s.push((k, v))) == as_map(s).insert(k, v),
{
    assert(s.push((k, v)).drop_last() =~= s);
}

/// Overwriting the entry that holds a key updates that key in the map.
pub proof fn lemma_as_map_update<K, V>(s: Seq<(K, V)>, j: int, v: V)
    requires
        keys_unique(s),
        0 <= j < s.len(),
    ensures
        as_map(s.update(j, (s[j].0, v))) == as_map(s).insert(s[j].0, v),
    decreases s.len(),
{
    let k = s[j].0;
    let t = s.update(j, (k, v));
    if j == s.len() - 1 {
        assert(t.drop_last() =~= s.drop_last());
        assert(as_map(t) == as_map(s.drop_last()).insert(k, v));
        assert(as_map(s.drop_last()).insert(k, s[j].1).insert(k, v) =~= as_map(
            s.drop_last(),
        ).insert(k, v));
    } else {
        assert(keys_unique(s.drop_last()));
        assert(s.drop_last()[j] == s[j]);
        lemma_as_map_update(s.drop_last(), j, v);
        assert(t.drop_last() =~= s.drop_last().update(j, (k, v)));
        assert(t.last() == s.last());
        let last = s.last();
        assert(last.0 != k);
        assert(as_map(t) == as_map(s.drop_last()).insert(k, v).insert(last.0, last.1));
        assert(as_map(s.drop_last()).insert(k, v).insert(last.0, last.1) =~= as_map(
            s.drop_last(),
        ).insert(last.0, last.1).insert(k, v));
    }
}

/// Appending a fresh key keeps the keys unique.
pub proof fn lemma_keys_unique_push<K, V>(s: Seq<(K, V)>, k: K, v: V)
    requires
        keys_unique(s),
        forall|i: int| 0 <= i < s.len() ==> s[i].0 != k,
    ensures
        keys_unique(s.push((k, v))),
{
}

/// Overwriting an entry in place, key kept, keeps the keys unique.
pub proof fn lemma_keys_unique_update<K, V>(s: Seq<(K, V)>, j: int, v: V)
    requires
        keys_unique(s),
        0 <= j < s.len(),
    ensures
        keys_unique(s.update(j, (s[j].0, v))),
{
}

/// A store of values keyed by strings; keys stay unique, and inserting under
/// a key that is already present replaces that entry.
pub struct StrKeyed<V> {
    entries: Vec<(String, V)>,
}

impl<V: View> StrKeyed<V> {
    /// The entries with both components abstracted to their views.
    pub closed spec fn entry_seq(&self) -> Seq<(Seq<char>, V::V)> {
        self.entries@.map_values(|e: (String, V)| (e.0@, e.1@))
    }

    /// Keys are unique; established by `new` and kept by `insert`.
    pub open spec fn wf(&self) -> bool {
        keys_unique(self.entry_seq())
    }

    /// How many entries the store holds.
    pub open spec fn spec_len(&self) -> nat {
        self.entry_seq().len()
    }

    /// An empty store.
    pub fn new() -> (r: StrKeyed<V>)
        ensures
            r.wf(),
            r@ == Map::<Seq<char>, V::V>::empty(),
            r.spec_len() == 0,
    {
        let r = StrKeyed { entries: Vec::new() };
        proof {
            assert(r.entry_seq() =~= Seq::<(Seq<char>, V::V)>::empty());
        }
        r
    }

    /// Number of entries.
    pub fn len(&self) -> (n: usize)
        ensures
            n == self.spec_len(),
    {
        self.entries.len()
    }

    /// Binds `key` to `value`, replacing any entry that already holds `key`.
    pub fn insert(&mut self, key: &str, value: V)
        requires
            old(self).wf(),
        ensures
            final(self).wf(),
            final(self)@ == old(self)@.insert(key@, value@),
            final(self).spec_len() == old(self).spec_len() + (if old(self)@.contains_key(
                key@,
            ) {
                0int
            } else {
                1int
            }),
    {
        let ghost s0 = self.entry_seq();
        let owned = key.to_owned();
        let n = self.entries.len();
        let mut i: usize = 0;
        while i < n
            invariant
                n == self.entries@.len(),
                i <= n,
                owned@ == key@,
                forall|t: int| 0 <= t < i ==> self.entry_seq()[t].0 != key@,
                self.wf(),
                self.entry_seq() == s0,
                s0 == old(self).entry_seq(),
            decreases n - i,
        {
            if self.entries[i].0 == owned {
                assert(self.entry_seq()[i as int].0 == key@);
                self.entries[i] = (owned, value);
                proof {
                    assert(self.entry_seq() =~= s0.update(i as int, (key@, value@)));
                    lemma_keys_unique_update(s0, i as int, value@);
                    lemma_as_map_update(s0, i as int, value@);
                    lemma_as_map_contains(s0, key@);
                }
                return ;
            }
            i += 1;
        }
        self.entries.push((owned, value));
        proof {
            assert(self.entry_seq() =~= s0.push((key@, value@)));
            lemma_keys_unique_push(s0, key@, value@);
            lemma_as_map_push(s0, key@, value@);
            lemma_as_map_contains(s0, key@);
        }
    }

    /// The value bound to `key`, if any.
    pub fn get(&self, key: &str) -> (r: Option<&V>)
        requires
            self.wf(),
        ensures
            match r {
                Some(v) => self@.contains_key(key@) && v@ == self@[key@],
                None => !self@.contains_key(key@),
            },
    {
        let owned = key.to_owned();
        let n = self.entries.len();
        let mut i: usize = 0;
        while i < n
            invariant
                self.wf(),
                n == self.entries@.len(),
                i <= n,
                owned@ == key@,
                forall|t: int| 0 <= t < i ==> self.entry_seq()[t].0 != key@,
            decreases n - i,
        {
            if self.entries[i].0 == owned {
                proof {
                    lemma_as_map_get(self.entry_seq(), i as int);
                }
                return Some(&self.entries[i].1);
            }
            i += 1;
        }
        proof {
            lemma_as_map_contains(self.entry_seq(), key@);
        }
        None
    }
}

impl<V: View> View for StrKeyed<V> {
    type V = Map<Seq<char>, V::V>;

    open spec fn view(&self) -> Map<Seq<char>, V::V> {
        as_map(self.entry_seq())
    }
}

} // verus!
