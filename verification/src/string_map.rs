//! A map from string keys to string values, stored as a vector of pairs
//! with unique keys.  Insertion order is irrelevant to its meaning: the map
//! is viewed as a mathematical `Map<Seq<char>, Seq<char>>`, and a later
//! insert with an existing key overwrites the earlier value.

use vstd::prelude::*;
use vstd::string::*;

verus! {

/// Compares two strings character by character.
pub fn str_eq(a: &str, b: &str) -> (r: bool)
    ensures
        r == (a@ == b@),
{
    let a_len = a.unicode_len();
    let b_len = b.unicode_len();
    if a_len != b_len {
        return false;
    }
    let mut i: usize = 0;
    while i < a_len
        invariant
            i <= a_len,
            a_len == a@.len(),
            a_len == b@.len(),
            forall|j: int| 0 <= j < i ==> a@[j] == b@[j],
        decreases a_len - i,
    {
        if a.get_char(i) != b.get_char(i) {
            return false;
        }
        i = i + 1;
    }
    assert(a@ =~= b@);
    true
}

/// The mathematical map described by a sequence of key/value pairs; a later
/// pair wins over an earlier one with the same key.
pub open spec fn map_of(entries: Seq<(String, String)>) -> Map<Seq<char>, Seq<char>>
    decreases entries.len(),
{
    if entries.len() == 0 {
        Map::empty()
    } else {
        map_of(entries.drop_last()).insert(entries.last().0@, entries.last().1@)
    }
}

/// A key is in the map exactly when some pair carries it.
proof fn lemma_map_of_domain(entries: Seq<(String, String)>, k: Seq<char>)
    ensures
        map_of(entries).contains_key(k) <==> exists|i: int|
            0 <= i < entries.len() && entries[i].0@ == k,
    decreases entries.len(),
{
    if entries.len() > 0 {
        lemma_map_of_domain(entries.drop_last(), k);
        if map_of(entries).contains_key(k) {
            if entries.last().0@ != k {
                let i = choose|i: int|
                    0 <= i < entries.drop_last().len() && entries.drop_last()[i].0@ == k;
                assert(entries[i].0@ == k);
            }
        }
        if exists|i: int| 0 <= i < entries.len() && entries[i].0@ == k {
            let i = choose|i: int| 0 <= i < entries.len() && entries[i].0@ == k;
            if i < entries.len() - 1 {
                assert(entries.drop_last()[i].0@ == k);
            }
        }
    }
}

/// With unique keys, the map sends each pair's key to that pair's value.
proof fn lemma_map_of_get(entries: Seq<(String, String)>, i: int)
    requires
        forall|x: int, y: int|
            0 <= x < y < entries.len() ==> entries[x].0@ != entries[y].0@,
        0 <= i < entries.len(),
    ensures
        map_of(entries).contains_key(entries[i].0@),
        map_of(entries)[entries[i].0@] == entries[i].1@,
    decreases entries.len(),
{
    lemma_map_of_domain(entries, entries[i].0@);
    if i < entries.len() - 1 {
        assert(forall|x: int, y: int|
            0 <= x < y < entries.drop_last().len() ==> entries.drop_last()[x].0@
                != entries.drop_last()[y].0@);
        lemma_map_of_get(entries.drop_last(), i);
        assert(entries.last().0@ != entries[i].0@);
    }
}

/// A map from string keys to string values; a later insert with the same key
/// overwrites the earlier value.
#[derive(Debug)]
pub struct StringMap {
    entries: Vec<(String, String)>,
}

impl StringMap {
    /// The keys on record are pairwise distinct.
    pub closed spec fn wf(&self) -> bool {
        forall|x: int, y: int|
            0 <= x < y < self.entries@.len() ==> self.entries@[x].0@ != self.entries@[y].0@
    }

    /// An empty map.
    pub fn new() -> (r: StringMap)
        ensures
            r.wf(),
            r@ == Map::<Seq<char>, Seq<char>>::empty(),
    {
        StringMap { entries: Vec::new() }
    }

    /// Position of the pair carrying `key`, if one does.
    fn position(&self, key: &str) -> (r: Option<usize>)
        ensures
            match r {
                Some(i) => i < self.entries@.len() && self.entries@[i as int].0@ == key@,
                None => forall|i: int|
                    0 <= i < self.entries@.len() ==> self.entries@[i].0@ != key@,
            },
    {
        let n = self.entries.len();
        let mut i: usize = 0;
        while i < n
            invariant
                i <= n,
                n == self.entries@.len(),
                forall|j: int| 0 <= j < i ==> self.entries@[j].0@ != key@,
            decreases n - i,
        {
            if str_eq(self.entries[i].0.as_str(), key) {
                return Some(i);
            }
            i = i + 1;
        }
        None
    }

    /// Binds `key` to `value`, overwriting any earlier value for `key`.
    pub fn insert(&mut self, key: &str, value: &str)
        requires
            old(self).wf(),
        ensures
            final(self).wf(),
            final(self)@ == old(self)@.insert(key@, value@),
    {
        let ghost old_entries = self.entries@;
        match self.position(key) {
            Some(i) => {
                self.entries[i].1 = String::from_str(value);
                proof {
                    lemma_update_is_insert(old_entries, i as int, self.entries@[i as int]);
                }
            },
            None => {
                self.entries.push((String::from_str(key), String::from_str(value)));
                proof {
                    assert(self.entries@.drop_last() =~= old_entries);
                }
            },
        }
    }

    /// The value bound to `key`, if any.
    pub fn get(&self, key: &str) -> (r: Option<&String>)
        requires
            self.wf(),
        ensures
            match r {
                Some(v) => self@.contains_key(key@) && v@ == self@[key@],
                None => !self@.contains_key(key@),
            },
    {
        proof {
            lemma_map_of_domain(self.entries@, key@);
        }
        match self.position(key) {
            Some(i) => {
                proof {
                    lemma_map_of_get(self.entries@, i as int);
                }
                Some(&self.entries[i].1)
            },
            None => None,
        }
    }

    /// The pairs on record: each binds its key to its value in the map, and
    /// every key in the map is carried by one of them.
    pub fn pairs(&self) -> (r: &Vec<(String, String)>)
        requires
            self.wf(),
        ensures
            forall|i: int|
                0 <= i < r@.len() ==> self@.contains_key(#[trigger] r@[i].0@) && self@[r@[i].0@]
                    == r@[i].1@,
            forall|k: Seq<char>|
                self@.contains_key(k) ==> exists|i: int| 0 <= i < r@.len() && r@[i].0@ == k,
    {
        proof {
            assert forall|i: int|
                0 <= i < self.entries@.len() implies self@.contains_key(
                #[trigger] self.entries@[i].0@,
            ) && self@[self.entries@[i].0@] == self.entries@[i].1@ by {
                lemma_map_of_get(self.entries@, i);
            }
            assert forall|k: Seq<char>| self@.contains_key(k) implies exists|i: int|
                0 <= i < self.entries@.len() && self.entries@[i].0@ == k by {
                lemma_map_of_domain(self.entries@, k);
            }
        }
        &self.entries
    }
}

impl View for StringMap {
    type V = Map<Seq<char>, Seq<char>>;

    closed spec fn view(&self) -> Map<Seq<char>, Seq<char>> {
        map_of(self.entries@)
    }
}

impl Clone for StringMap {
    /// A clone means the same map.
    fn clone(&self) -> (r: StringMap)
        ensures
            r@ == self@,
            self.wf() ==> r.wf(),
    {
        let mut entries: Vec<(String, String)> = Vec::new();
        let n = self.entries.len();
        let mut i: usize = 0;
        while i < n
            invariant
                i <= n,
                n == self.entries@.len(),
                entries@.len() == i,
                forall|j: int|
                    0 <= j < i ==> entries@[j].0@ == self.entries@[j].0@ && entries@[j].1@
                        == self.entries@[j].1@,
            decreases n - i,
        {
            entries.push(
                (
                    String::from_str(self.entries[i].0.as_str()),
                    String::from_str(self.entries[i].1.as_str()),
                ),
            );
            i = i + 1;
        }
        let r = StringMap { entries };
        proof {
            lemma_map_of_pointwise(r.entries@, self.entries@);
        }
        r
    }
}

/// Two pair sequences equal key by key and value by value describe the same
/// map.
proof fn lemma_map_of_pointwise(a: Seq<(String, String)>, b: Seq<(String, String)>)
    requires
        a.len() == b.len(),
        forall|j: int| 0 <= j < a.len() ==> a[j].0@ == b[j].0@ && a[j].1@ == b[j].1@,
    ensures
        map_of(a) == map_of(b),
    decreases a.len(),
{
    if a.len() > 0 {
        lemma_map_of_pointwise(a.drop_last(), b.drop_last());
        assert(map_of(a) =~= map_of(b));
    }
}

/// Overwriting the value of the pair that carries a key inserts that key's
/// new value into the map.
proof fn lemma_update_is_insert(entries: Seq<(String, String)>, i: int, pair: (String, String))
    requires
        forall|x: int, y: int|
            0 <= x < y < entries.len() ==> entries[x].0@ != entries[y].0@,
        0 <= i < entries.len(),
        pair.0@ == entries[i].0@,
    ensures
        map_of(entries.update(i, pair)) == map_of(entries).insert(pair.0@, pair.1@),
    decreases entries.len(),
{
    let u = entries.update(i, pair);
    if i == entries.len() - 1 {
        assert(u.drop_last() =~= entries.drop_last());
        assert(u.last() == pair);
        assert(map_of(u) =~= map_of(entries).insert(pair.0@, pair.1@));
    } else {
        assert(forall|x: int, y: int|
            0 <= x < y < entries.drop_last().len() ==> entries.drop_last()[x].0@
                != entries.drop_last()[y].0@);
        lemma_update_is_insert(entries.drop_last(), i, pair);
        assert(u.drop_last() =~= entries.drop_last().update(i, pair));
        assert(u.last() == entries.last());
        assert(map_of(u) == map_of(entries.drop_last()).insert(pair.0@, pair.1@).insert(
            entries.last().0@,
            entries.last().1@,
        ));
        assert(entries.last().0@ != pair.0@);
        assert(map_of(entries.drop_last()).insert(pair.0@, pair.1@).insert(
            entries.last().0@,
            entries.last().1@,
        ) =~= map_of(entries).insert(pair.0@, pair.1@));
    }
}

} // verus!
