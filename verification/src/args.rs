//! The argument map: what a command is called with.

use vstd::prelude::*;
use crate::text::{first_index, is_first_at, lemma_first_index, lemma_has_first, same_text};

verus! {

/// An ordered mapping from parameter names to string values. A name occurs
/// once; the entries keep the order in which their names first came.
#[derive(Debug, Clone, PartialEq, Eq)]
pub struct ArgumentMap {
    entries: Vec<(String, String)>,
}

/// The names of a sequence of entries, in order.
spec fn keys(entries: Seq<(String, String)>) -> Seq<Seq<char>> {
    entries.map_values(|e: (String, String)| e.0@)
}

/// The mapping that a sequence of entries stands for: each name with the
/// value of the first entry that has it.
spec fn entries_map(entries: Seq<(String, String)>) -> Map<Seq<char>, Seq<char>> {
    Map::new(
        |key: Seq<char>| keys(entries).contains(key),
        |key: Seq<char>| entries[first_index(keys(entries), key)].1@,
    )
}

/// The first entry with a name is the one that the mapping shows.
proof fn lemma_first_entry(entries: Seq<(String, String)>, key: Seq<char>, i: int)
    requires
        is_first_at(keys(entries), key, i),
    ensures
        entries_map(entries).contains_key(key),
        entries_map(entries)[key] == entries[i].1@,
{
    lemma_first_index(keys(entries), key, i);
}

impl View for ArgumentMap {
    type V = Map<Seq<char>, Seq<char>>;

    closed spec fn view(&self) -> Map<Seq<char>, Seq<char>> {
        entries_map(self.entries@)
    }
}

impl ArgumentMap {
    /// The map without entries.
    pub fn new() -> (r: ArgumentMap)
        ensures
            r@ == Map::<Seq<char>, Seq<char>>::empty(),
    {
        let r = ArgumentMap { entries: Vec::new() };
        assert(r@ =~= Map::<Seq<char>, Seq<char>>::empty());
        r
    }

    fn find(&self, name: &str) -> (r: Option<usize>)
        ensures
            match r {
                Some(i) => is_first_at(keys(self.entries@), name@, i as int),
                None => !keys(self.entries@).contains(name@),
            },
    {
        let mut i: usize = 0;
        while i < self.entries.len()
            invariant
                i <= self.entries.len(),
                keys(self.entries@).len() == self.entries@.len(),
                forall|j: int| 0 <= j < i ==> #[trigger] keys(self.entries@)[j] != name@,
            decreases self.entries.len() - i,
        {
            if same_text(self.entries[i].0.as_str(), name) {
                return Some(i);
            }
            i += 1;
        }
        None
    }

    /// Whether the map has a value for `name`.
    pub fn contains_key(&self, name: &str) -> (r: bool)
        ensures
            r == self@.contains_key(name@),
    {
        self.find(name).is_some()
    }

    /// The value for `name`, where the map has one.
    pub fn get(&self, name: &str) -> (r: Option<&String>)
        ensures
            match r {
                Some(value) => self@.contains_key(name@) && value@ == self@[name@],
                None => !self@.contains_key(name@),
            },
    {
        match self.find(name) {
            Some(i) => {
                proof {
                    lemma_first_entry(self.entries@, name@, i as int);
                }
                Some(&self.entries[i].1)
            },
            None => None,
        }
    }

    /// Gives `name` the value `value`, in place of the value it had if it had one.
    pub fn insert(&mut self, name: String, value: String)
        ensures
            final(self)@ == old(self)@.insert(name@, value@),
    {
        let ghost before = self.entries@;
        let ghost key = name@;
        let found = self.find(name.as_str());
        match found {
            Some(i) => {
                self.entries.set(i, (name, value));
                proof {
                    lemma_put(before, self.entries@, key, value@, i as int);
                }
            },
            None => {
                self.entries.push((name, value));
                proof {
                    lemma_put(before, self.entries@, key, value@, before.len() as int);
                }
            },
        }
    }

    /// The map of a list of pairs; of two pairs with one name the later counts.
    pub fn from_pairs(pairs: Vec<(String, String)>) -> (r: ArgumentMap)
        ensures
            r@ == pairs_map(pairs@),
    {
        let mut out = ArgumentMap::new();
        let mut i: usize = 0;
        while i < pairs.len()
            invariant
                i <= pairs.len(),
                out@ == pairs_map(pairs@.take(i as int)),
            decreases pairs.len() - i,
        {
            proof {
                assert(pairs@.take(i + 1).drop_last() =~= pairs@.take(i as int));
            }
            out.insert(pairs[i].0.clone(), pairs[i].1.clone());
            i += 1;
        }
        proof {
            assert(pairs@.take(i as int) =~= pairs@);
        }
        out
    }
}

/// The mapping that a list of pairs gives when they are put in one by one.
pub open spec fn pairs_map(pairs: Seq<(String, String)>) -> Map<Seq<char>, Seq<char>>
    decreases pairs.len(),
{
    if pairs.len() == 0 {
        Map::<Seq<char>, Seq<char>>::empty()
    } else {
        pairs_map(pairs.drop_last()).insert(pairs.last().0@, pairs.last().1@)
    }
}

/// Putting a value for `key` at the place `i`, in place of the first entry
/// with that name or behind all entries where there is none, gives the
/// mapping with that value for `key` and all else as it was.
proof fn lemma_put(
    before: Seq<(String, String)>,
    after: Seq<(String, String)>,
    key: Seq<char>,
    value: Seq<char>,
    i: int,
)
    requires
        0 <= i < after.len(),
        after[i].0@ == key,
        after[i].1@ == value,
        forall|j: int| 0 <= j < before.len() && j != i ==> #[trigger] after[j] == before[j],
        after.len() == before.len() && is_first_at(keys(before), key, i) || after.len()
            == before.len() + 1 && i == before.len() && !keys(before).contains(key),
    ensures
        entries_map(after) == entries_map(before).insert(key, value),
{
    let old_keys = keys(before);
    let new_keys = keys(after);
    assert(new_keys.len() == after.len());
    assert(old_keys.len() == before.len());
    assert forall|j: int| 0 <= j < before.len() implies #[trigger] new_keys[j] == old_keys[j] by {
        if j != i {
            assert(after[j] == before[j]);
        }
    }
    assert(is_first_at(new_keys, key, i)) by {
        assert forall|j: int| 0 <= j < i implies #[trigger] new_keys[j] != key by {
            assert(new_keys[j] == old_keys[j]);
        }
    }
    lemma_first_entry(after, key, i);
    let want = entries_map(before).insert(key, value);
    assert forall|k: Seq<char>| k != key implies (new_keys.contains(k) <==> old_keys.contains(k))
        && (old_keys.contains(k) ==> entries_map(after)[k] == entries_map(before)[k]) by {
        if new_keys.contains(k) {
            let j = choose|j: int| 0 <= j < new_keys.len() && new_keys[j] == k;
            assert(old_keys[j] == k);
        }
        if old_keys.contains(k) {
            let j = choose|j: int| 0 <= j < old_keys.len() && old_keys[j] == k;
            assert(new_keys[j] == k);
            lemma_has_first(old_keys, k);
            let f = first_index(old_keys, k);
            assert(is_first_at(new_keys, k, f)) by {
                assert(new_keys[f] == old_keys[f]);
                assert forall|j: int| 0 <= j < f implies #[trigger] new_keys[j] != k by {
                    assert(new_keys[j] == old_keys[j]);
                }
            }
            lemma_first_index(new_keys, k, f);
            assert(after[f] == before[f]);
        }
    }
    assert(entries_map(after) =~= want);
}

} // verus!
