use vstd::prelude::*;

verus! {

/// No key occurs twice among the entries.
pub open spec fn unique_keys(entries: Seq<(String, String)>) -> bool {
    forall|i: int, j: int|
        0 <= i < entries.len() && 0 <= j < entries.len() && i != j ==> entries[i].0@
            != entries[j].0@
}

/// The entries list, without repetition, exactly the pairs of the map `m`.
pub open spec fn represents(entries: Seq<(String, String)>, m: Map<Seq<char>, Seq<char>>) -> bool {
    &&& unique_keys(entries)
    &&& forall|i: int|
        0 <= i < entries.len() ==> #[trigger] m.contains_key(entries[i].0@) && m[entries[i].0@]
            == entries[i].1@
    &&& forall|k: Seq<char>|
        #[trigger] m.contains_key(k) ==> exists|i: int| 0 <= i < entries.len() && entries[i].0@ == k
}

/// The map whose pairs are the entries.
pub open spec fn entries_map(entries: Seq<(String, String)>) -> Map<Seq<char>, Seq<char>> {
    Map::new(
        |k: Seq<char>| exists|i: int| 0 <= i < entries.len() && entries[i].0@ == k,
        |k: Seq<char>| entries[choose|i: int| 0 <= i < entries.len() && entries[i].0@ == k].1@,
    )
}

/// The map that a list of pairs gives when each later pair of a key replaces
/// an earlier one.
pub open spec fn pairs_map(pairs: Seq<(String, String)>) -> Map<Seq<char>, Seq<char>>
    decreases pairs.len(),
{
    if pairs.len() == 0 {
        Map::empty()
    } else {
        pairs_map(pairs.drop_last()).insert(pairs.last().0@, pairs.last().1@)
    }
}

/// The value that a map gives for `key`, if any.
pub open spec fn map_get(m: Map<Seq<char>, Seq<char>>, key: Seq<char>) -> Option<Seq<char>> {
    if m.contains_key(key) {
        Some(m[key])
    } else {
        None
    }
}

/// A list that represents a map is that map's list of pairs.
pub proof fn lemma_represents_entries_map(entries: Seq<(String, String)>, m: Map<Seq<char>, Seq<char>>)
    requires
        represents(entries, m),
    ensures
        entries_map(entries) == m,
{
    let e = entries_map(entries);
    assert forall|k: Seq<char>| #[trigger] e.contains_key(k) <==> m.contains_key(k) by {
        if e.contains_key(k) {
            let i = choose|i: int| 0 <= i < entries.len() && entries[i].0@ == k;
            assert(m.contains_key(entries[i].0@));
        }
    }
    assert forall|k: Seq<char>| #[trigger] e.contains_key(k) implies e[k] == m[k] by {
        let i = choose|i: int| 0 <= i < entries.len() && entries[i].0@ == k;
        assert(m.contains_key(entries[i].0@));
    }
    assert(e =~= m);
}

/// A list without repeated keys represents its own map.
pub proof fn lemma_unique_represents(entries: Seq<(String, String)>)
    requires
        unique_keys(entries),
    ensures
        represents(entries, entries_map(entries)),
{
    let e = entries_map(entries);
    assert forall|i: int| 0 <= i < entries.len() implies #[trigger] e.contains_key(entries[i].0@)
        && e[entries[i].0@] == entries[i].1@ by {
        let k = entries[i].0@;
        assert(e.contains_key(k));
        let j = choose|j: int| 0 <= j < entries.len() && entries[j].0@ == k;
        assert(i == j);
    }
}

/// A map from texts to texts, as the query, path and header maps of a request.
/// It stands where the server uses `HashMap<String, String>`: vstd specifies
/// `HashMap` only for key types that obey its key model, which `String` is
/// not shown to do, so a `String`-keyed `HashMap` would give no usable facts.
#[derive(Debug)]
pub struct StringMap {
    entries: Vec<(String, String)>,
}

impl View for StringMap {
    type V = Map<Seq<char>, Seq<char>>;

    closed spec fn view(&self) -> Map<Seq<char>, Seq<char>> {
        entries_map(self.entries@)
    }
}

impl StringMap {
    /// No key is stored twice.
    #[verifier::type_invariant]
    closed spec fn well_formed(self) -> bool {
        unique_keys(self.entries@)
    }

    /// The empty map.
    pub fn new() -> (map: StringMap)
        ensures
            map@ == Map::<Seq<char>, Seq<char>>::empty(),
    {
        let map = StringMap { entries: Vec::new() };
        assert(map@ =~= Map::<Seq<char>, Seq<char>>::empty());
        map
    }

    /// The entries of the map, each key once, in no promised order.
    pub fn entries(&self) -> (entries: &Vec<(String, String)>)
        ensures
            represents(entries@, self@),
    {
        proof {
            use_type_invariant(self);
            lemma_unique_represents(self.entries@);
        }
        &self.entries
    }

    /// The value of `key`, if the map holds it.
    pub fn get(&self, key: &String) -> (value: Option<&String>)
        ensures
            match value {
                Some(v) => self@.contains_key(key@) && self@[key@] == v@,
                None => !self@.contains_key(key@),
            },
    {
        proof {
            use_type_invariant(self);
            lemma_unique_represents(self.entries@);
        }
        match self.position_in(&self.entries, key) {
            Some(i) => Some(&self.entries[i].1),
            None => None,
        }
    }

    /// Sets the value of `key`, replacing any value it had.
    pub fn insert(&mut self, key: String, value: String)
        ensures
            final(self)@ == old(self)@.insert(key@, value@),
    {
        proof {
            use_type_invariant(&*self);
            lemma_unique_represents(self.entries@);
        }
        let ghost before = self.entries@;
        let ghost m = entries_map(before);
        let ghost m2 = m.insert(key@, value@);
        let mut entries: Vec<(String, String)> = Vec::new();
        std::mem::swap(&mut entries, &mut self.entries);
        assert(entries@ == before);
        match self.position_in(&entries, &key) {
            Some(j) => {
                entries.set(j, (key, value));
                assert forall|k: Seq<char>| #[trigger] m2.contains_key(k) implies exists|a: int|
                    0 <= a < entries@.len() && entries@[a].0@ == k by {
                    if k != key@ {
                        assert(m.contains_key(k));
                        let a = choose|a: int| 0 <= a < before.len() && before[a].0@ == k;
                        assert(entries@[a].0@ == k);
                    } else {
                        assert(entries@[j as int].0@ == k);
                    }
                }
                assert forall|a: int| 0 <= a < entries@.len() implies #[trigger] m2.contains_key(
                    entries@[a].0@,
                ) && m2[entries@[a].0@] == entries@[a].1@ by {
                    if a != j {
                        assert(entries@[a] == before[a]);
                        assert(before[a].0@ != before[j as int].0@);
                    }
                }
            },
            None => {
                let len = entries.len();
                entries.push((key, value));
                assert forall|k: Seq<char>| #[trigger] m2.contains_key(k) implies exists|a: int|
                    0 <= a < entries@.len() && entries@[a].0@ == k by {
                    if k != key@ {
                        assert(m.contains_key(k));
                        let a = choose|a: int| 0 <= a < before.len() && before[a].0@ == k;
                        assert(entries@[a].0@ == k);
                    } else {
                        assert(entries@[len as int].0@ == k);
                    }
                }
                assert forall|a: int| 0 <= a < entries@.len() implies #[trigger] m2.contains_key(
                    entries@[a].0@,
                ) && m2[entries@[a].0@] == entries@[a].1@ by {
                    if a < len {
                        assert(entries@[a] == before[a]);
                    }
                }
            },
        }
        assert(represents(entries@, m2));
        proof {
            lemma_represents_entries_map(entries@, m2);
        }
        self.entries = entries;
    }

    /// Finds the position of `key` in `entries`.
    fn position_in(&self, entries: &Vec<(String, String)>, key: &String) -> (found: Option<usize>)
        ensures
            match found {
                Some(i) => i < entries@.len() && entries@[i as int].0@ == key@,
                None => forall|j: int| 0 <= j < entries@.len() ==> entries@[j].0@ != key@,
            },
    {
        let n = entries.len();
        let mut i: usize = 0;
        while i < n
            invariant
                n == entries@.len(),
                i <= n,
                forall|j: int| 0 <= j < i ==> entries@[j].0@ != key@,
            decreases n - i,
        {
            if entries[i].0 == *key {
                return Some(i);
            }
            i = i + 1;
        }
        None
    }

    /// The map of a list of pairs, a later pair of a key replacing an
    /// earlier one.
    pub fn from_pairs(pairs: Vec<(String, String)>) -> (map: StringMap)
        ensures
            map@ == pairs_map(pairs@),
    {
        let mut map = StringMap::new();
        let n = pairs.len();
        let mut i: usize = 0;
        assert(pairs@.take(0) =~= Seq::<(String, String)>::empty());
        while i < n
            invariant
                n == pairs@.len(),
                i <= n,
                map@ == pairs_map(pairs@.take(i as int)),
            decreases n - i,
        {
            let key = pairs[i].0.clone();
            let value = pairs[i].1.clone();
            assert(pairs@.take(i + 1).drop_last() =~= pairs@.take(i as int));
            map.insert(key, value);
            i = i + 1;
        }
        assert(pairs@.take(n as int) =~= pairs@);
        map
    }
}

} // verus!
