//! The data that the actors keep: byte strings under names.

use vstd::prelude::*;

verus! {

/// Whether no name occurs twice among some entries.
pub open spec fn distinct_keys(entries: Seq<(String, Vec<u8>)>) -> bool {
    forall|i: int, j: int|
        0 <= i < j < entries.len() ==> (#[trigger] entries[i]).0@ != (#[trigger] entries[j]).0@
}

/// Whether some entry bears a name.
pub open spec fn has_key(entries: Seq<(String, Vec<u8>)>, key: Seq<char>) -> bool {
    exists|i: int| 0 <= i < entries.len() && (#[trigger] entries[i]).0@ == key
}

/// Where an entry of that name stands.
pub open spec fn index_of(entries: Seq<(String, Vec<u8>)>, key: Seq<char>) -> int {
    choose|i: int| 0 <= i < entries.len() && (#[trigger] entries[i]).0@ == key
}

/// The map that some entries make up.
pub open spec fn map_of(entries: Seq<(String, Vec<u8>)>) -> Map<Seq<char>, Seq<u8>> {
    Map::new(
        |key: Seq<char>| has_key(entries, key),
        |key: Seq<char>| entries[index_of(entries, key)].1@,
    )
}

/// A map from names to byte strings, kept as entries in no particular order.
#[derive(Debug)]
pub struct DataMap {
    entries: Vec<(String, Vec<u8>)>,
}

impl View for DataMap {
    type V = Map<Seq<char>, Seq<u8>>;

    closed spec fn view(&self) -> Map<Seq<char>, Seq<u8>> {
        map_of(self.entries@)
    }
}

/// With distinct names, the map holds exactly the entries.
proof fn lemma_entry_in_map(entries: Seq<(String, Vec<u8>)>, i: int)
    requires
        distinct_keys(entries),
        0 <= i < entries.len(),
    ensures
        map_of(entries).contains_key(entries[i].0@),
        map_of(entries)[entries[i].0@] == entries[i].1@,
{
    let key = entries[i].0@;
    assert(has_key(entries, key));
    let j = index_of(entries, key);
    assert(0 <= j < entries.len() && entries[j].0@ == key);
    assert(i == j);
}

impl DataMap {
    #[verifier::type_invariant]
    closed spec fn well_formed(self) -> bool {
        distinct_keys(self.entries@)
    }

    /// An empty map.
    pub fn new() -> (map: DataMap)
        ensures
            map@ == Map::<Seq<char>, Seq<u8>>::empty(),
    {
        let map = DataMap { entries: Vec::new() };
        assert(map@ =~= Map::<Seq<char>, Seq<u8>>::empty());
        map
    }

    /// Makes a map of entries no two of which bear the same name.
    pub fn from_entries(entries: Vec<(String, Vec<u8>)>) -> (map: DataMap)
        requires
            distinct_keys(entries@),
        ensures
            map@ == map_of(entries@),
    {
        DataMap { entries }
    }

    /// The entries of the map.
    pub fn entries(&self) -> (entries: &Vec<(String, Vec<u8>)>)
        ensures
            distinct_keys(entries@),
            map_of(entries@) == self@,
    {
        proof {
            use_type_invariant(self);
        }
        &self.entries
    }

    /// Where the entry of that name stands.
    fn find(&self, key: &String) -> (found: Option<usize>)
        ensures
            match found {
                Some(i) => i < self.entries@.len() && self.entries@[i as int].0@ == key@,
                None => !has_key(self.entries@, key@),
            },
    {
        let mut i: usize = 0;
        while i < self.entries.len()
            invariant
                i <= self.entries@.len(),
                forall|j: int| 0 <= j < i ==> (#[trigger] self.entries@[j]).0@ != key@,
            decreases self.entries@.len() - i,
        {
            if self.entries[i].0 == *key {
                return Some(i);
            }
            i += 1;
        }
        None
    }

    /// The byte string under that name.
    pub fn get(&self, key: &String) -> (value: Option<Vec<u8>>)
        ensures
            match value {
                Some(value) => self@.contains_key(key@) && self@[key@] == value@,
                None => !self@.contains_key(key@),
            },
    {
        proof {
            use_type_invariant(self);
        }
        match self.find(key) {
            Some(i) => {
                proof {
                    lemma_entry_in_map(self.entries@, i as int);
                }
                Some(copy_bytes(&self.entries[i].1))
            },
            None => None,
        }
    }

    /// Puts a byte string under that name, in place of what was there.
    pub fn insert(&mut self, key: String, value: Vec<u8>)
        ensures
            final(self)@ == old(self)@.insert(key@, value@),
    {
        proof {
            use_type_invariant(&*self);
        }
        let ghost before = self.entries@;
        let found = self.find(&key);
        let mut entries: Vec<(String, Vec<u8>)> = Vec::new();
        std::mem::swap(&mut entries, &mut self.entries);
        match found {
            Some(i) => {
                entries.set(i, (key, value));
                proof {
                    lemma_map_after_set(before, i as int, (key, value));
                }
            },
            None => {
                entries.push((key, value));
                proof {
                    lemma_map_after_push(before, (key, value));
                }
            },
        }
        self.entries = entries;
    }

    /// Takes away what is under that name, if there is anything.
    pub fn remove(&mut self, key: &String)
        ensures
            final(self)@ == old(self)@.remove(key@),
    {
        proof {
            use_type_invariant(&*self);
        }
        let ghost before = self.entries@;
        match self.find(key) {
            Some(i) => {
                let mut entries: Vec<(String, Vec<u8>)> = Vec::new();
                std::mem::swap(&mut entries, &mut self.entries);
                entries.remove(i);
                proof {
                    lemma_map_after_remove(before, i as int);
                }
                self.entries = entries;
            },
            None => {
                assert(self@ =~= self@.remove(key@));
            },
        }
    }

    /// A map of its own with the same contents.
    pub fn snapshot(&self) -> (copy: DataMap)
        ensures
            copy@ == self@,
    {
        proof {
            use_type_invariant(self);
        }
        let mut entries: Vec<(String, Vec<u8>)> = Vec::new();
        let mut i: usize = 0;
        while i < self.entries.len()
            invariant
                i <= self.entries@.len(),
                entries@.len() == i,
                same_entries(entries@, self.entries@.take(i as int)),
            decreases self.entries@.len() - i,
        {
            entries.push((self.entries[i].0.clone(), copy_bytes(&self.entries[i].1)));
            i += 1;
        }
        assert(self.entries@.take(i as int) =~= self.entries@);
        proof {
            lemma_same_entries_same_map(entries@, self.entries@);
        }
        DataMap { entries }
    }
}

/// An entry, with its texts as sequences.
spec fn entry_view(entry: (String, Vec<u8>)) -> (Seq<char>, Seq<u8>) {
    (entry.0@, entry.1@)
}

/// Whether two lists of entries hold the same names and bytes at the same places.
spec fn same_entries(a: Seq<(String, Vec<u8>)>, b: Seq<(String, Vec<u8>)>) -> bool {
    &&& a.len() == b.len()
    &&& forall|i: int|
        0 <= i < a.len() ==> entry_view(#[trigger] a[i]) == entry_view(#[trigger] b[i])
}

/// A copy of the entries makes up the same map.
proof fn lemma_same_entries_same_map(a: Seq<(String, Vec<u8>)>, b: Seq<(String, Vec<u8>)>)
    requires
        same_entries(a, b),
        distinct_keys(b),
    ensures
        distinct_keys(a),
        map_of(a) == map_of(b),
{
    assert forall|i: int, j: int| 0 <= i < j < a.len() implies (#[trigger] a[i]).0@ != (
    #[trigger] a[j]).0@ by {
        assert(entry_view(a[i]) == entry_view(b[i]));
        assert(entry_view(a[j]) == entry_view(b[j]));
    }
    assert forall|key: Seq<char>| #[trigger] has_key(a, key) == has_key(b, key) && (has_key(a, key)
        ==> map_of(a)[key] == map_of(b)[key]) by {
        if has_key(a, key) {
            let i = index_of(a, key);
            assert(entry_view(a[i]) == entry_view(b[i]));
            lemma_entry_in_map(a, i);
            lemma_entry_in_map(b, i);
        }
        if has_key(b, key) {
            let i = index_of(b, key);
            assert(entry_view(a[i]) == entry_view(b[i]));
            assert(a[i].0@ == key);
        }
    }
    assert(map_of(a) =~= map_of(b));
}

/// Replacing an entry by one of the same name changes the map there alone.
proof fn lemma_map_after_set(
    entries: Seq<(String, Vec<u8>)>,
    at: int,
    entry: (String, Vec<u8>),
)
    requires
        distinct_keys(entries),
        0 <= at < entries.len(),
        entries[at].0@ == entry.0@,
    ensures
        distinct_keys(entries.update(at, entry)),
        map_of(entries.update(at, entry)) == map_of(entries).insert(entry.0@, entry.1@),
{
    let after = entries.update(at, entry);
    assert forall|key: Seq<char>| #[trigger] has_key(after, key) == has_key(entries, key) by {
        if has_key(after, key) {
            let i = index_of(after, key);
            assert(entries[i].0@ == key);
        }
        if has_key(entries, key) {
            let i = index_of(entries, key);
            assert(after[i].0@ == key);
        }
    }
    assert forall|key: Seq<char>| #[trigger] has_key(after, key) implies map_of(after)[key]
        == map_of(entries).insert(entry.0@, entry.1@)[key] by {
        let i = index_of(after, key);
        lemma_entry_in_map(after, i);
        lemma_entry_in_map(entries, i);
        if i != at {
            assert(entries[i].0@ != entries[at].0@);
        }
    }
    assert(has_key(after, entry.0@)) by {
        assert(after[at].0@ == entry.0@);
    }
    assert(map_of(after) =~= map_of(entries).insert(entry.0@, entry.1@));
}

/// An entry of a new name adds to the map.
proof fn lemma_map_after_push(entries: Seq<(String, Vec<u8>)>, entry: (String, Vec<u8>))
    requires
        distinct_keys(entries),
        !has_key(entries, entry.0@),
    ensures
        distinct_keys(entries.push(entry)),
        map_of(entries.push(entry)) == map_of(entries).insert(entry.0@, entry.1@),
{
    let after = entries.push(entry);
    assert forall|key: Seq<char>| #[trigger]
        has_key(after, key) == (has_key(entries, key) || key == entry.0@) by {
        if has_key(after, key) {
            let i = index_of(after, key);
            if i < entries.len() {
                assert(entries[i].0@ == key);
            }
        }
        if has_key(entries, key) {
            let i = index_of(entries, key);
            assert(after[i].0@ == key);
        }
        if key == entry.0@ {
            assert(after[entries.len() as int].0@ == key);
        }
    }
    assert forall|key: Seq<char>| #[trigger] has_key(after, key) implies map_of(after)[key]
        == map_of(entries).insert(entry.0@, entry.1@)[key] by {
        let i = index_of(after, key);
        lemma_entry_in_map(after, i);
        if i < entries.len() {
            lemma_entry_in_map(entries, i);
        }
    }
    assert(map_of(after) =~= map_of(entries).insert(entry.0@, entry.1@));
}

/// Taking an entry out takes its name out of the map.
proof fn lemma_map_after_remove(entries: Seq<(String, Vec<u8>)>, at: int)
    requires
        distinct_keys(entries),
        0 <= at < entries.len(),
    ensures
        distinct_keys(entries.remove(at)),
        map_of(entries.remove(at)) == map_of(entries).remove(entries[at].0@),
{
    let after = entries.remove(at);
    let gone = entries[at].0@;
    assert forall|key: Seq<char>| #[trigger]
        has_key(after, key) == (has_key(entries, key) && key != gone) by {
        if has_key(after, key) {
            let i = index_of(after, key);
            let j = if i < at { i } else { i + 1 };
            assert(entries[j].0@ == key);
        }
        if has_key(entries, key) && key != gone {
            let i = index_of(entries, key);
            let j = if i < at { i } else { i - 1 };
            assert(after[j].0@ == key);
        }
    }
    assert forall|key: Seq<char>| #[trigger] has_key(after, key) implies map_of(after)[key]
        == map_of(entries)[key] by {
        let i = index_of(after, key);
        lemma_entry_in_map(after, i);
        lemma_entry_in_map(entries, if i < at { i } else { i + 1 });
    }
    assert(map_of(after) =~= map_of(entries).remove(gone));
}

/// A copy of some bytes.
pub fn copy_bytes(bytes: &Vec<u8>) -> (copy: Vec<u8>)
    ensures
        copy@ == bytes@,
{
    let copy = bytes.clone();
    assert(copy@ =~= bytes@);
    copy
}

/// A map that is made of entries with names of their own holds, under each of the names,
/// just the bytes of its entry, and holds nothing else.
pub proof fn entries_make_the_map(entries: Vec<(String, Vec<u8>)>, map: DataMap)
    requires
        forall|i: int, j: int|
            0 <= i < j < entries@.len() ==> (#[trigger] entries@[i]).0@ != (
            #[trigger] entries@[j]).0@,
        call_ensures(DataMap::from_entries, (entries,), map),
    ensures
        forall|i: int|
            0 <= i < entries@.len() ==> map@.contains_key((#[trigger] entries@[i]).0@)
                && map@[entries@[i].0@] == entries@[i].1@,
        forall|key: Seq<char>| #[trigger]
            map@.contains_key(key) ==> exists|i: int|
                0 <= i < entries@.len() && (#[trigger] entries@[i]).0@ == key,
{
    map_is_its_entries(entries@);
}

/// The entries of a map are its names, each of them once, with just the bytes under them.
pub proof fn map_is_made_of_its_entries(map: DataMap, entries: &Vec<(String, Vec<u8>)>)
    requires
        call_ensures(DataMap::entries, (&map,), entries),
    ensures
        forall|i: int, j: int|
            0 <= i < j < entries@.len() ==> (#[trigger] entries@[i]).0@ != (
            #[trigger] entries@[j]).0@,
        forall|i: int|
            0 <= i < entries@.len() ==> map@.contains_key((#[trigger] entries@[i]).0@)
                && map@[entries@[i].0@] == entries@[i].1@,
        forall|key: Seq<char>| #[trigger]
            map@.contains_key(key) ==> exists|i: int|
                0 <= i < entries@.len() && (#[trigger] entries@[i]).0@ == key,
{
    map_is_its_entries(entries@);
}

/// The map that entries with names of their own make up, over sequences.
proof fn map_is_its_entries(entries: Seq<(String, Vec<u8>)>)
    requires
        forall|i: int, j: int|
            0 <= i < j < entries.len() ==> (#[trigger] entries[i]).0@ != (
            #[trigger] entries[j]).0@,
    ensures
        forall|i: int|
            0 <= i < entries.len() ==> map_of(entries).contains_key((#[trigger] entries[i]).0@)
                && map_of(entries)[entries[i].0@] == entries[i].1@,
        forall|key: Seq<char>| #[trigger]
            map_of(entries).contains_key(key) ==> exists|i: int|
                0 <= i < entries.len() && (#[trigger] entries[i]).0@ == key,
{
    assert forall|i: int| 0 <= i < entries.len() implies map_of(entries).contains_key(
        (#[trigger] entries[i]).0@,
    ) && map_of(entries)[entries[i].0@] == entries[i].1@ by {
        lemma_entry_in_map(entries, i);
    }
    assert forall|key: Seq<char>| #[trigger] map_of(entries).contains_key(key) implies exists|i: int|
        0 <= i < entries.len() && (#[trigger] entries[i]).0@ == key by {
        assert(has_key(entries, key));
    }
}

} // verus!
