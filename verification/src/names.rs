//! A map keyed by text.

use vstd::prelude::*;

use crate::text::str_eq;

verus! {

/// A map from texts to values, kept as pairs in order of first insertion. No text is the key of
/// two pairs.
pub struct NameMap<V> {
    entries: Vec<(String, V)>,
}

/// `key` is the key of the pair at `at`.
pub open spec fn keyed_at<V>(entries: Seq<(String, V)>, key: Seq<char>, at: int) -> bool {
    0 <= at < entries.len() && entries[at].0@ == key
}

/// What the pairs map each key to.
pub open spec fn pairs_as_map<V>(entries: Seq<(String, V)>) -> Map<Seq<char>, V> {
    Map::new(
        |key: Seq<char>| exists|at: int| keyed_at(entries, key, at),
        |key: Seq<char>| entries[choose|at: int| keyed_at(entries, key, at)].1,
    )
}

/// No key stands in two pairs.
pub open spec fn keys_distinct<V>(entries: Seq<(String, V)>) -> bool {
    forall|i: int, j: int|
        0 <= i < entries.len() && 0 <= j < entries.len() && i != j ==> (#[trigger] entries[i]).0@
            != (#[trigger] entries[j]).0@
}

impl<V> View for NameMap<V> {
    type V = Map<Seq<char>, V>;

    closed spec fn view(&self) -> Map<Seq<char>, V> {
        pairs_as_map(self.entries@)
    }
}

impl<V> NameMap<V> {
    #[verifier::type_invariant]
    spec fn distinct(&self) -> bool {
        keys_distinct(self.entries@)
    }

    /// The map without entries.
    pub fn new() -> (map: Self)
        ensures
            map@ == Map::<Seq<char>, V>::empty(),
    {
        let map = NameMap { entries: Vec::new() };
        assert(map@ =~= Map::<Seq<char>, V>::empty());
        map
    }

    /// Where `key` stands among the pairs.
    fn position(&self, key: &str) -> (at: Option<usize>)
        ensures
            match at {
                Some(i) => keyed_at(self.entries@, key@, i as int),
                None => forall|i: int| !keyed_at(self.entries@, key@, i),
            },
    {
        let mut i: usize = 0;
        while i < self.entries.len()
            invariant
                i <= self.entries@.len(),
                forall|j: int| 0 <= j < i ==> !keyed_at(self.entries@, key@, j),
            decreases self.entries.len() - i,
        {
            if str_eq(self.entries[i].0.as_str(), key) {
                return Some(i);
            }
            i += 1;
        }
        None
    }

    /// The value kept under `key`.
    pub fn get(&self, key: &str) -> (value: Option<&V>)
        ensures
            match value {
                Some(v) => self@.contains_key(key@) && *v == self@[key@],
                None => !self@.contains_key(key@),
            },
    {
        proof {
            use_type_invariant(self);
        }
        match self.position(key) {
            Some(i) => {
                proof {
                    let at = choose|at: int| keyed_at(self.entries@, key@, at);
                    assert(keyed_at(self.entries@, key@, at));
                    assert(at == i) by {
                        if at != i {
                            assert(self.entries@[at].0@ != self.entries@[i as int].0@);
                        }
                    }
                }
                Some(&self.entries[i].1)
            },
            None => None,
        }
    }

    /// Whether a value is kept under `key`.
    pub fn contains(&self, key: &str) -> (found: bool)
        ensures
            found == self@.contains_key(key@),
    {
        self.get(key).is_some()
    }

    /// Takes the value kept under `key` out of the map.
    pub fn remove(&mut self, key: &str) -> (value: Option<V>)
        ensures
            final(self)@ == old(self)@.remove(key@),
            match value {
                Some(v) => old(self)@.contains_key(key@) && v == old(self)@[key@],
                None => !old(self)@.contains_key(key@),
            },
    {
        proof {
            use_type_invariant(&*self);
        }
        let ghost before = self.entries@;
        match self.position(key) {
            Some(i) => {
                let mut entries: Vec<(String, V)> = Vec::new();
                std::mem::swap(&mut entries, &mut self.entries);
                let pair = entries.remove(i);
                proof {
                    lemma_removed(before, key@, i as int);
                }
                self.entries = entries;
                Some(pair.1)
            },
            None => {
                assert(self@ =~= old(self)@.remove(key@));
                None
            },
        }
    }

    /// Keeps `value` under `key`, in place of what was kept there.
    pub fn insert(&mut self, key: String, value: V)
        ensures
            final(self)@ == old(self)@.insert(key@, value),
    {
        let ghost start = self@;
        let _ = self.remove(key.as_str());
        proof {
            use_type_invariant(&*self);
        }
        let ghost before = self.entries@;
        let mut entries: Vec<(String, V)> = Vec::new();
        std::mem::swap(&mut entries, &mut self.entries);
        proof {
            assert(!pairs_as_map(before).contains_key(key@));
            assert forall|at: int| !keyed_at(before, key@, at) by {
                if keyed_at(before, key@, at) {
                    assert(pairs_as_map(before).contains_key(key@));
                }
            }
            lemma_pushed(before, key, value);
        }
        entries.push((key, value));
        self.entries = entries;
        assert(self@ =~= start.insert(key@, value));
    }

    /// The keys in the order of their pairs.
    pub closed spec fn keys(&self) -> Seq<Seq<char>> {
        key_seq(self.entries@)
    }

    /// The pair at `i`.
    pub fn entry_at(&self, i: usize) -> (pair: (&String, &V))
        requires
            i < self.keys().len(),
        ensures
            pair.0@ == self.keys()[i as int],
            self@.contains_key(pair.0@),
            *pair.1 == self@[pair.0@],
    {
        proof {
            use_type_invariant(self);
            lemma_pair(self.entries@, i as int);
        }
        (&self.entries[i].0, &self.entries[i].1)
    }

    /// How many pairs there are; each key is the key of one of them.
    pub fn size(&self) -> (n: usize)
        ensures
            n == self.keys().len(),
            listing(self.keys(), self@.dom()),
    {
        proof {
            use_type_invariant(self);
            lemma_listing(self.entries@);
        }
        self.entries.len()
    }
}

/// The keys of the pairs in their order.
pub open spec fn key_seq<V>(entries: Seq<(String, V)>) -> Seq<Seq<char>> {
    Seq::new(entries.len(), |i: int| entries[i].0@)
}

/// `keys` lists each member of `set` once.
pub open spec fn listing(keys: Seq<Seq<char>>, set: Set<Seq<char>>) -> bool {
    &&& keys.no_duplicates()
    &&& forall|key: Seq<char>| #![trigger set.contains(key)] set.contains(key) <==> keys.contains(key)
}

/// How many of `keys` are among `wanted`.
pub open spec fn count_in(keys: Seq<Seq<char>>, wanted: Set<Seq<char>>) -> nat
    decreases keys.len(),
{
    if keys.len() == 0 {
        0
    } else if wanted.contains(keys.last()) {
        count_in(keys.drop_last(), wanted) + 1
    } else {
        count_in(keys.drop_last(), wanted)
    }
}

/// Counting along a listing counts the members.
pub proof fn lemma_count(keys: Seq<Seq<char>>, set: Set<Seq<char>>, wanted: Set<Seq<char>>)
    requires
        listing(keys, set),
    ensures
        set.intersect(wanted).finite(),
        count_in(keys, wanted) == set.intersect(wanted).len(),
        count_in(keys, wanted) <= keys.len(),
    decreases keys.len(),
{
    if keys.len() == 0 {
        assert(set.intersect(wanted) =~= Set::<Seq<char>>::empty()) by {
            assert forall|k: Seq<char>| !set.contains(k) by {
                if set.contains(k) {
                    assert(keys.contains(k));
                }
            }
        }
    } else {
        let last = keys.last();
        let rest = keys.drop_last();
        let smaller = set.remove(last);
        assert(keys.contains(last)) by {
            assert(keys[keys.len() - 1] == last);
        }
        assert(set.contains(last));
        assert forall|k: Seq<char>|
            #![trigger smaller.contains(k)]
            smaller.contains(k) <==> rest.contains(k) by {
            if smaller.contains(k) {
                let i = choose|i: int| 0 <= i < keys.len() && keys[i] == k;
                assert(set.contains(k) && keys.contains(k));
                assert(rest[i] == k);
            }
            if rest.contains(k) {
                let i = choose|i: int| 0 <= i < rest.len() && rest[i] == k;
                assert(keys[i] == k);
                assert(keys.contains(k));
                assert(keys[i] != keys[keys.len() - 1]);
            }
        }
        assert(rest.no_duplicates()) by {
            assert forall|i: int, j: int| 0 <= i < rest.len() && 0 <= j < rest.len() && i != j implies rest[i]
                != rest[j] by {
                assert(keys[i] != keys[j]);
            }
        }
        lemma_count(rest, smaller, wanted);
        if wanted.contains(last) {
            assert(set.intersect(wanted) =~= smaller.intersect(wanted).insert(last));
        } else {
            assert(set.intersect(wanted) =~= smaller.intersect(wanted));
        }
    }
}

/// A pair is what the map holds under its key.
pub proof fn lemma_pair<V>(entries: Seq<(String, V)>, i: int)
    requires
        keys_distinct(entries),
        0 <= i < entries.len(),
    ensures
        pairs_as_map(entries).contains_key(entries[i].0@),
        pairs_as_map(entries)[entries[i].0@] == entries[i].1,
{
    let key = entries[i].0@;
    assert(keyed_at(entries, key, i));
    let at = choose|at: int| keyed_at(entries, key, at);
    assert(keyed_at(entries, key, at));
    if at != i {
        assert(entries[at].0@ != entries[i].0@);
    }
}

/// The keys of the pairs list the keys of the map.
proof fn lemma_listing<V>(entries: Seq<(String, V)>)
    requires
        keys_distinct(entries),
    ensures
        listing(key_seq(entries), pairs_as_map(entries).dom()),
{
    let keys = key_seq(entries);
    assert forall|i: int, j: int| 0 <= i < keys.len() && 0 <= j < keys.len() && i != j implies keys[i]
        != keys[j] by {
        assert(entries[i].0@ != entries[j].0@);
    }
    assert forall|key: Seq<char>|
        #![trigger pairs_as_map(entries).dom().contains(key)]
        pairs_as_map(entries).dom().contains(key) <==> keys.contains(key) by {
        if pairs_as_map(entries).dom().contains(key) {
            let at = choose|at: int| keyed_at(entries, key, at);
            assert(keys[at] == key);
        }
        if keys.contains(key) {
            let i = choose|i: int| 0 <= i < keys.len() && keys[i] == key;
            lemma_pair(entries, i);
        }
    }
}

/// Removing the only pair of a key removes that key and no other.
pub proof fn lemma_removed<V>(entries: Seq<(String, V)>, key: Seq<char>, i: int)
    requires
        keys_distinct(entries),
        keyed_at(entries, key, i),
    ensures
        keys_distinct(entries.remove(i)),
        pairs_as_map(entries.remove(i)) == pairs_as_map(entries).remove(key),
        pairs_as_map(entries).contains_key(key),
        pairs_as_map(entries)[key] == entries[i].1,
{
    let rest = entries.remove(i);
    assert forall|a: int, b: int| 0 <= a < rest.len() && 0 <= b < rest.len() && a != b implies (
    #[trigger] rest[a]).0@ != (#[trigger] rest[b]).0@ by {
        let x = if a < i { a } else { a + 1 };
        let y = if b < i { b } else { b + 1 };
        assert(entries[x].0@ != entries[y].0@);
    }
    let less = pairs_as_map(entries).remove(key);
    assert forall|k: Seq<char>|
        #![trigger pairs_as_map(rest).dom().contains(k)]
        #![trigger less.dom().contains(k)]
        pairs_as_map(rest).dom().contains(k) == less.dom().contains(k) && (
        pairs_as_map(rest).dom().contains(k) ==> pairs_as_map(rest)[k] == less[k]) by {
        if pairs_as_map(rest).contains_key(k) {
            let a = choose|at: int| keyed_at(rest, k, at);
            let x = if a < i { a } else { a + 1 };
            assert(keyed_at(entries, k, x));
            assert(x != i);
            assert(entries[x].0@ != entries[i].0@);
            let y = choose|at: int| keyed_at(entries, k, at);
            assert(keyed_at(entries, k, y));
            if x != y {
                assert(entries[x].0@ != entries[y].0@);
            }
        }
        if pairs_as_map(entries).contains_key(k) && k != key {
            let y = choose|at: int| keyed_at(entries, k, at);
            let b = if y < i { y } else { y - 1 };
            assert(keyed_at(rest, k, b));
        }
    }
    let y = choose|at: int| keyed_at(entries, key, at);
    assert(keyed_at(entries, key, y));
    if y != i {
        assert(entries[y].0@ != entries[i].0@);
    }
    assert(pairs_as_map(rest) =~= less);
}

/// Adding a pair with a new key adds that key and changes no other.
pub proof fn lemma_pushed<V>(entries: Seq<(String, V)>, key: String, value: V)
    requires
        keys_distinct(entries),
        forall|at: int| !keyed_at(entries, key@, at),
    ensures
        keys_distinct(entries.push((key, value))),
        pairs_as_map(entries.push((key, value))) == pairs_as_map(entries).insert(key@, value),
{
    let more = entries.push((key, value));
    let last = entries.len() as int;
    assert forall|a: int, b: int| 0 <= a < more.len() && 0 <= b < more.len() && a != b implies (
    #[trigger] more[a]).0@ != (#[trigger] more[b]).0@ by {
        if a == last {
            assert(!keyed_at(entries, key@, b));
        } else if b == last {
            assert(!keyed_at(entries, key@, a));
        } else {
            assert(entries[a].0@ != entries[b].0@);
        }
    }
    assert(keyed_at(more, key@, last));
    let wider = pairs_as_map(entries).insert(key@, value);
    assert forall|k: Seq<char>|
        #![trigger pairs_as_map(more).dom().contains(k)]
        #![trigger wider.dom().contains(k)]
        pairs_as_map(more).dom().contains(k) == wider.dom().contains(k) && (pairs_as_map(
            more,
        ).dom().contains(k) ==> pairs_as_map(more)[k] == wider[k]) by {
        if pairs_as_map(more).contains_key(k) {
            let a = choose|at: int| keyed_at(more, k, at);
            assert(keyed_at(more, k, a));
            if k == key@ {
                if a != last {
                    assert(more[a].0@ != more[last].0@);
                }
            } else {
                assert(keyed_at(entries, k, a));
                let y = choose|at: int| keyed_at(entries, k, at);
                assert(keyed_at(entries, k, y));
                if a != y {
                    assert(entries[a].0@ != entries[y].0@);
                }
            }
        }
        if pairs_as_map(entries).contains_key(k) {
            let y = choose|at: int| keyed_at(entries, k, at);
            assert(keyed_at(more, k, y));
        }
    }
    assert(pairs_as_map(more) =~= wider);
}

} // verus!
