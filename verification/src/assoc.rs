use vstd::prelude::*;

verus! {

/// A key that can be compared with another key of its type by view.
pub trait StorageKey: View + Sized {
    fn same_key(&self, other: &Self) -> (r: bool)
        ensures
            r == (self@ == other@);
}

impl StorageKey for u32 {
    fn same_key(&self, other: &Self) -> (r: bool) {
        *self == *other
    }
}

impl StorageKey for String {
    fn same_key(&self, other: &Self) -> (r: bool) {
        *self == *other
    }
}

impl StorageKey for (u32, String) {
    fn same_key(&self, other: &Self) -> (r: bool) {
        self.0 == other.0 && self.1 == other.1
    }
}

/// A finite map held as a list of entries with pairwise distinct keys.
#[verifier::reject_recursive_types(K)]
#[verifier::reject_recursive_types(V)]
pub struct AssocMap<K: StorageKey, V> {
    entries: Vec<(K, V)>,
    contents: Ghost<Map<K::V, V>>,
}

/// `entries` lists each key of `contents` exactly once, with its value.
closed spec fn entries_match<K: StorageKey, V>(entries: Seq<(K, V)>, contents: Map<K::V, V>) -> bool {
    &&& forall|i: int, j: int|
        0 <= i < entries.len() && 0 <= j < entries.len() && i != j
            ==> #[trigger] entries[i].0@ != #[trigger] entries[j].0@
    &&& forall|i: int|
        0 <= i < entries.len() ==> {
            &&& contents.contains_key(#[trigger] entries[i].0@)
            &&& contents[entries[i].0@] == entries[i].1
        }
    &&& forall|k: K::V|
        #[trigger] contents.contains_key(k) ==> exists|i: int|
            0 <= i < entries.len() && #[trigger] entries[i].0@ == k
}

impl<K: StorageKey, V> View for AssocMap<K, V> {
    type V = Map<K::V, V>;

    closed spec fn view(&self) -> Map<K::V, V> {
        self.contents@
    }
}

impl<K: StorageKey, V> AssocMap<K, V> {
    #[verifier::type_invariant]
    closed spec fn well_formed(self) -> bool {
        entries_match(self.entries@, self.contents@)
    }

    /// An empty map.
    pub fn new() -> (m: Self)
        ensures
            m@ == Map::<K::V, V>::empty(),
    {
        AssocMap { entries: Vec::new(), contents: Ghost(Map::empty()) }
    }

    /// The position of the entry with the given key, if there is one.
    fn find(&self, key: &K) -> (r: Option<usize>)
        ensures
            match r {
                Some(i) => i < self.entries@.len() && self.entries@[i as int].0@ == key@,
                None => !self@.contains_key(key@),
            },
    {
        proof {
            use_type_invariant(self);
        }
        let mut i: usize = 0;
        while i < self.entries.len()
            invariant
                i <= self.entries@.len(),
                forall|j: int| 0 <= j < i ==> self.entries@[j].0@ != key@,
            decreases self.entries@.len() - i,
        {
            if self.entries[i].0.same_key(key) {
                return Some(i);
            }
            i = i + 1;
        }
        proof {
            if self@.contains_key(key@) {
                let j = choose|j: int| 0 <= j < self.entries@.len() && #[trigger] self.entries@[j].0@ == key@;
                assert(self.entries@[j].0@ == key@);
            }
        }
        None
    }

    /// The value stored under the given key, if there is one.
    pub fn get(&self, key: &K) -> (r: Option<&V>)
        ensures
            match r {
                Some(v) => self@.contains_key(key@) && *v == self@[key@],
                None => !self@.contains_key(key@),
            },
    {
        proof {
            use_type_invariant(self);
        }
        match self.find(key) {
            Some(i) => Some(&self.entries[i].1),
            None => None,
        }
    }

    /// Stores `value` under `key`, replacing any earlier value.
    pub fn set(&mut self, key: K, value: V)
        ensures
            final(self)@ == old(self)@.insert(key@, value),
    {
        let found = self.find(&key);
        let mut taken = AssocMap::new();
        core::mem::swap(self, &mut taken);
        proof {
            use_type_invariant(&taken);
        }
        let ghost k = key@;
        let ghost new_contents = taken.contents@.insert(k, value);
        let AssocMap { mut entries, contents } = taken;
        let ghost old_entries = entries@;
        match found {
            Some(i) => {
                entries.set(i, (key, value));
                assert forall|kk: K::V| #[trigger] new_contents.contains_key(kk) implies exists|j: int|
                    0 <= j < entries@.len() && #[trigger] entries@[j].0@ == kk by {
                    if kk != k {
                        let j = choose|j: int| 0 <= j < old_entries.len() && #[trigger] old_entries[j].0@ == kk;
                        assert(entries@[j].0@ == kk);
                    } else {
                        assert(entries@[i as int].0@ == kk);
                    }
                }
            },
            None => {
                entries.push((key, value));
                assert forall|kk: K::V| #[trigger] new_contents.contains_key(kk) implies exists|j: int|
                    0 <= j < entries@.len() && #[trigger] entries@[j].0@ == kk by {
                    if kk != k {
                        let j = choose|j: int| 0 <= j < old_entries.len() && #[trigger] old_entries[j].0@ == kk;
                        assert(entries@[j].0@ == kk);
                    } else {
                        assert(entries@[old_entries.len() as int].0@ == kk);
                    }
                }
            },
        }
        assert forall|a: int, b: int|
            0 <= a < entries@.len() && 0 <= b < entries@.len() && a != b
                implies #[trigger] entries@[a].0@ != #[trigger] entries@[b].0@ by {
            if a < old_entries.len() && b < old_entries.len() {
                if found is Some {
                    let i = found->0 as int;
                    if a != i && b != i {
                        assert(old_entries[a].0@ != old_entries[b].0@);
                    } else if a == i {
                        assert(old_entries[b].0@ != old_entries[i].0@);
                    } else {
                        assert(old_entries[a].0@ != old_entries[i].0@);
                    }
                } else {
                    assert(old_entries[a].0@ != old_entries[b].0@);
                }
            } else if a < old_entries.len() {
                assert(old_entries[a] == entries@[a]);
                assert(contents@.contains_key(old_entries[a].0@));
            } else {
                assert(old_entries[b] == entries@[b]);
                assert(contents@.contains_key(old_entries[b].0@));
            }
        }
        assert forall|a: int| 0 <= a < entries@.len() implies {
            &&& new_contents.contains_key(#[trigger] entries@[a].0@)
            &&& new_contents[entries@[a].0@] == entries@[a].1
        } by {
            if a < old_entries.len() && !(found is Some && a == found->0 as int) {
                assert(entries@[a] == old_entries[a]);
                assert(old_entries[a].0@ != k);
            }
        }
        assert(entries_match(entries@, new_contents));
        *self = AssocMap { entries, contents: Ghost(new_contents) };
    }
}

} // verus!
