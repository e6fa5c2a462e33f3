//! Flat string attributes attached to a batch of texts.
use vstd::prelude::*;

verus! {

/// A mapping from attribute names to values. Each name occurs once; the
/// entries keep the order in which their names were first inserted.
pub struct Attributes {
    entries: Vec<(String, String)>,
    model: Ghost<Map<Seq<char>, Seq<char>>>,
}

/// Each entry is in the map with its value, each key of the map has an
/// entry, and no two entries share a name.
spec fn entries_match(entries: Seq<(String, String)>, model: Map<Seq<char>, Seq<char>>) -> bool {
        &&& forall|i: int|
            0 <= i < entries.len() ==> {
                &&& #[trigger] model.contains_key(entries[i].0@)
                &&& model[entries[i].0@] == entries[i].1@
            }
        &&& forall|k: Seq<char>|
            #[trigger] model.contains_key(k) ==> exists|i: int|
                0 <= i < entries.len() && #[trigger] entries[i].0@ == k
        &&& forall|i: int, j: int|
            0 <= i < j < entries.len() ==> #[trigger] entries[i].0@
                != #[trigger] entries[j].0@
    }

impl View for Attributes {
    type V = Map<Seq<char>, Seq<char>>;

    closed spec fn view(&self) -> Map<Seq<char>, Seq<char>> {
        self.model@
    }
}

impl Attributes {
    #[verifier::type_invariant]
    closed spec fn inv(&self) -> bool {
        entries_match(self.entries@, self.model@)
    }

    /// The attribute names, in the order in which they were first inserted.
    pub closed spec fn key_order(&self) -> Seq<Seq<char>> {
        self.entries@.map_values(|e: (String, String)| e.0@)
    }

    /// An empty set of attributes.
    pub fn new() -> (r: Attributes)
        ensures
            r@ == Map::<Seq<char>, Seq<char>>::empty(),
    {
        Attributes { entries: Vec::new(), model: Ghost(Map::empty()) }
    }

    /// Number of attributes.
    pub fn len(&self) -> (r: usize)
        ensures
            r as nat == self@.len(),
    {
        proof {
            use_type_invariant(self);
            self.lemma_len();
        }
        self.entries.len()
    }

    proof fn lemma_len(&self)
        requires
            self.inv(),
        ensures
            self.entries@.len() == self@.len(),
    {
        let keys = self.key_order();
        assert(self@.dom() =~= keys.to_set()) by {
            assert forall|k: Seq<char>| self@.dom().contains(k) implies keys.to_set().contains(k) by {
                let i = choose|i: int| 0 <= i < self.entries@.len() && #[trigger] self.entries@[i].0@ == k;
                assert(keys[i] == k);
            }
            assert forall|k: Seq<char>| keys.to_set().contains(k) implies self@.dom().contains(k) by {
                let i = choose|i: int| 0 <= i < keys.len() && keys[i] == k;
                assert(self.model@.contains_key(self.entries@[i].0@));
            }
        }
        assert(keys.no_duplicates()) by {
            assert forall|i: int, j: int| 0 <= i < keys.len() && 0 <= j < keys.len() && i != j
                implies keys[i] != keys[j] by {
                if i < j {
                    assert(self.entries@[i].0@ != self.entries@[j].0@);
                } else {
                    assert(self.entries@[j].0@ != self.entries@[i].0@);
                }
            }
        }
        keys.unique_seq_to_set();
    }

    /// Position of `key` among the entries, if present.
    fn find(&self, key: &String) -> (r: Option<usize>)
        ensures
            match r {
                Some(i) => i < self.entries@.len() && self.entries@[i as int].0@ == key@,
                None => !self@.contains_key(key@),
            },
    {
        proof {
            use_type_invariant(self);
        }
        let mut i: usize = 0;
        while i < self.entries.len()
            invariant
                i <= self.entries@.len(),
                forall|j: int| 0 <= j < i ==> #[trigger] self.entries@[j].0@ != key@,
            decreases self.entries@.len() - i,
        {
            if self.entries[i].0 == *key {
                return Some(i);
            }
            i = i + 1;
        }
        None
    }

    /// The value stored under `key`.
    pub fn get(&self, key: &String) -> (r: Option<&String>)
        ensures
            match r {
                Some(v) => self@.contains_key(key@) && self@[key@] == v@,
                None => !self@.contains_key(key@),
            },
    {
        proof {
            use_type_invariant(self);
        }
        match self.find(key) {
            Some(i) => Some(&self.entries[i].1),
            None => None,
        }
    }

    /// A copy of the entries.
    fn copy_entries(&self) -> (r: Vec<(String, String)>)
        ensures
            r@ == self.entries@,
    {
        let mut r: Vec<(String, String)> = Vec::new();
        let mut i: usize = 0;
        while i < self.entries.len()
            invariant
                i <= self.entries@.len(),
                r@ == self.entries@.subrange(0, i as int),
            decreases self.entries@.len() - i,
        {
            let e = &self.entries[i];
            r.push((e.0.clone(), e.1.clone()));
            i = i + 1;
        }
        assert(r@ =~= self.entries@);
        r
    }

    /// Sets `key` to `value`, replacing any earlier value of `key`.
    pub fn insert(&mut self, key: String, value: String)
        ensures
            final(self)@ == old(self)@.insert(key@, value@),
    {
        proof {
            use_type_invariant(&*self);
        }
        let ghost old_entries = self.entries@;
        let ghost new_model = self.model@.insert(key@, value@);
        let ghost k0 = key@;
        let mut entries = self.copy_entries();
        let found = self.find(&key);
        match found {
            Some(i) => {
                entries.set(i, (key, value));
            },
            None => {
                entries.push((key, value));
            },
        }
        proof {
            assert forall|i: int| 0 <= i < entries@.len() implies {
                &&& #[trigger] new_model.contains_key(entries@[i].0@)
                &&& new_model[entries@[i].0@] == entries@[i].1@
            } by {
                if i < old_entries.len() {
                    assert(self.model@.contains_key(old_entries[i].0@));
                }
            }
            assert forall|i: int, j: int| 0 <= i < j < entries@.len() implies
                #[trigger] entries@[i].0@ != #[trigger] entries@[j].0@ by {
                if j < old_entries.len() {
                    assert(old_entries[i].0@ != old_entries[j].0@);
                } else {
                    assert(self.model@.contains_key(old_entries[i].0@));
                }
            }
            assert forall|k: Seq<char>| #[trigger] new_model.contains_key(k) implies exists|i: int|
                0 <= i < entries@.len() && #[trigger] entries@[i].0@ == k by {
                if k == k0 {
                    match found {
                        Some(i) => assert(entries@[i as int].0@ == k),
                        None => assert(entries@[old_entries.len() as int].0@ == k),
                    }
                } else {
                    let i = choose|i: int|
                        0 <= i < old_entries.len() && #[trigger] old_entries[i].0@ == k;
                    assert(entries@[i].0@ == k);
                }
            }
            assert(entries_match(entries@, new_model));
        }
        *self = Attributes { entries, model: Ghost(new_model) };
    }

    /// The entries as (name, value) pairs, in insertion order of the names.
    pub fn to_vec(&self) -> (r: Vec<(String, String)>)
        ensures
            r@.len() == self@.len(),
            r@.map_values(|e: (String, String)| e.0@) == self.key_order(),
            forall|i: int|
                0 <= i < r@.len() ==> {
                    &&& #[trigger] self@.contains_key(r@[i].0@)
                    &&& self@[r@[i].0@] == r@[i].1@
                },
    {
        proof {
            use_type_invariant(self);
            self.lemma_len();
        }
        self.copy_entries()
    }
}

} // verus!
