use vstd::prelude::*;

verus! {

/// The value stored under `k` in a sequence of entries: the last entry with
/// that key wins, as with a map that is filled entry by entry.
pub open spec fn lookup<V>(entries: Seq<(Seq<char>, V)>, k: Seq<char>) -> Option<V>
    decreases entries.len(),
{
    if entries.len() == 0 {
        None
    } else if entries.last().0 == k {
        Some(entries.last().1)
    } else {
        lookup(entries.drop_last(), k)
    }
}

/// Extending a sequence of entries by one entry shadows the key it names.
pub proof fn lemma_lookup_push<V>(entries: Seq<(Seq<char>, V)>, k: Seq<char>, v: V, q: Seq<char>)
    ensures
        lookup(entries.push((k, v)), q) == if q == k { Some(v) } else { lookup(entries, q) },
{
    assert(entries.push((k, v)).drop_last() =~= entries);
}

/// Replacing the value of the last entry with key `k` keeps every other key.
proof fn lemma_lookup_update<V>(entries: Seq<(Seq<char>, V)>, i: int, k: Seq<char>, v: V, q: Seq<char>)
    requires
        0 <= i < entries.len(),
        entries[i].0 == k,
        forall|j: int| i < j < entries.len() ==> entries[j].0 != k,
    ensures
        lookup(entries.update(i, (k, v)), q) == if q == k { Some(v) } else { lookup(entries, q) },
    decreases entries.len(),
{
    let u = entries.update(i, (k, v));
    if i == entries.len() - 1 {
        assert(u.drop_last() =~= entries.drop_last());
    } else {
        assert(u.drop_last() =~= entries.drop_last().update(i, (k, v)));
        lemma_lookup_update(entries.drop_last(), i, k, v, q);
    }
}

/// The value of the first of `entries`, or the empty string where there is none.
pub open spec fn first_value_of(entries: Seq<(Seq<char>, Seq<char>)>) -> Seq<char> {
    if entries.len() == 0 {
        Seq::empty()
    } else {
        entries[0].1
    }
}

/// No two of `entries` share a key.
pub open spec fn keys_unique<V>(entries: Seq<(Seq<char>, V)>) -> bool {
    forall|i: int, j: int| 0 <= i < j < entries.len() ==> entries[i].0 != entries[j].0
}

/// The position of the last of `entries` whose key is `k`.
pub fn find_last<V>(entries: &Vec<(String, V)>, k: &String) -> (r: Option<usize>)
    ensures
        match r {
            Some(i) => {
                &&& i < entries@.len()
                &&& entries@[i as int].0@ == k@
                &&& forall|j: int| i < j < entries@.len() ==> entries@[j].0@ != k@
            },
            None => forall|j: int| 0 <= j < entries@.len() ==> entries@[j].0@ != k@,
        },
{
    let mut i: usize = entries.len();
    while i > 0
        invariant
            i <= entries@.len(),
            forall|j: int| i <= j < entries@.len() ==> entries@[j].0@ != k@,
        decreases i,
    {
        i = i - 1;
        if entries[i].0 == *k {
            return Some(i);
        }
    }
    None
}

/// An ordered mapping from strings to strings. Entries keep the order in
/// which their keys were first inserted; inserting an existing key replaces
/// its value in place.
#[derive(Debug)]
pub struct StringMap {
    entries: Vec<(String, String)>,
}

impl View for StringMap {
    type V = Seq<(Seq<char>, Seq<char>)>;

    closed spec fn view(&self) -> Seq<(Seq<char>, Seq<char>)> {
        self.entries@.map_values(|e: (String, String)| (e.0@, e.1@))
    }
}

impl StringMap {
    /// The value that `k` maps to.
    pub open spec fn spec_get(&self, k: Seq<char>) -> Option<Seq<char>> {
        lookup(self@, k)
    }

    /// The value of the first entry, or the empty string for an empty map.
    pub open spec fn spec_first_value(&self) -> Seq<char> {
        first_value_of(self@)
    }

    pub fn new() -> (r: StringMap)
        ensures
            r@ == Seq::<(Seq<char>, Seq<char>)>::empty(),
            keys_unique(r@),
    {
        let r = StringMap { entries: Vec::new() };
        assert(r@ =~= Seq::<(Seq<char>, Seq<char>)>::empty());
        r
    }

    /// The position of the last entry with key `k`.
    fn find(&self, k: &str) -> (r: Option<usize>)
        ensures
            match r {
                Some(i) => {
                    &&& i < self@.len()
                    &&& self@[i as int].0 == k@
                    &&& forall|j: int| i < j < self@.len() ==> self@[j].0 != k@
                },
                None => forall|j: int| 0 <= j < self@.len() ==> self@[j].0 != k@,
            },
    {
        let key = String::from_str(k);
        find_last(&self.entries, &key)
    }

    /// Inserts `value` under `key`, replacing the value an existing entry
    /// holds under that key.
    pub fn insert(&mut self, key: String, value: String)
        ensures
            forall|q: Seq<char>| #[trigger] final(self).spec_get(q)
                == if q == key@ { Some(value@) } else { old(self).spec_get(q) },
            old(self)@.len() > 0 && old(self)@[0].0 != key@ ==> final(self).spec_first_value()
                == old(self).spec_first_value(),
            old(self)@.len() == 0 ==> final(self).spec_first_value() == value@,
            old(self).spec_get(key@) is None ==> final(self)@ == old(self)@.push((key@, value@)),
            keys_unique(old(self)@) ==> keys_unique(final(self)@),
    {
        let ghost before = self@;
        let ghost (k, v) = (key@, value@);
        match self.find(key.as_str()) {
            Some(i) => {
                proof {
                    lemma_lookup_last(before, i as int, k);
                }
                self.entries.set(i, (key, value));
                assert(self@ =~= before.update(i as int, (k, v)));
                assert forall|q: Seq<char>| #[trigger] lookup(self@, q)
                    == if q == k { Some(v) } else { lookup(before, q) } by {
                    lemma_lookup_update(before, i as int, k, v, q);
                }
            },
            None => {
                self.entries.push((key, value));
                assert(self@ =~= before.push((k, v)));
                assert forall|q: Seq<char>| #[trigger] lookup(self@, q)
                    == if q == k { Some(v) } else { lookup(before, q) } by {
                    lemma_lookup_push(before, k, v, q);
                }
            },
        }
    }

    /// The value that `key` maps to.
    pub fn get(&self, key: &str) -> (r: Option<&String>)
        ensures
            match r {
                Some(v) => self.spec_get(key@) == Some(v@),
                None => self.spec_get(key@) is None,
            },
    {
        match self.find(key) {
            Some(i) => {
                proof {
                    lemma_lookup_last(self@, i as int, key@);
                }
                Some(&self.entries[i].1)
            },
            None => {
                proof {
                    lemma_lookup_absent(self@, key@);
                }
                None
            },
        }
    }

    /// The value of the first entry, or the empty string for an empty map.
    pub fn first_value(&self) -> (r: String)
        ensures
            r@ == self.spec_first_value(),
    {
        if self.entries.len() == 0 {
            String::new()
        } else {
            self.entries[0].1.clone()
        }
    }

    /// The entries, in order.
    pub fn entries(&self) -> (r: &Vec<(String, String)>)
        ensures
            r@.map_values(|e: (String, String)| (e.0@, e.1@)) == self@,
    {
        &self.entries
    }

    pub fn len(&self) -> (r: usize)
        ensures
            r == self@.len(),
    {
        self.entries.len()
    }
}

/// A key that no entry names is absent.
pub proof fn lemma_lookup_absent<V>(entries: Seq<(Seq<char>, V)>, k: Seq<char>)
    requires
        forall|j: int| 0 <= j < entries.len() ==> entries[j].0 != k,
    ensures
        lookup(entries, k) is None,
    decreases entries.len(),
{
    if entries.len() > 0 {
        lemma_lookup_absent(entries.drop_last(), k);
    }
}

/// The last entry with a key gives its value.
pub proof fn lemma_lookup_last<V>(entries: Seq<(Seq<char>, V)>, i: int, k: Seq<char>)
    requires
        0 <= i < entries.len(),
        entries[i].0 == k,
        forall|j: int| i < j < entries.len() ==> entries[j].0 != k,
    ensures
        lookup(entries, k) == Some(entries[i].1),
    decreases entries.len(),
{
    if i < entries.len() - 1 {
        lemma_lookup_last(entries.drop_last(), i, k);
    }
}

impl Clone for StringMap {
    fn clone(&self) -> (r: StringMap)
        ensures
            r@ == self@,
    {
        let mut entries: Vec<(String, String)> = Vec::new();
        let mut i: usize = 0;
        while i < self.entries.len()
            invariant
                i <= self.entries@.len(),
                entries@.len() == i,
                forall|j: int| 0 <= j < i ==> (#[trigger] entries@[j]).0@ == self.entries@[j].0@
                    && entries@[j].1@ == self.entries@[j].1@,
            decreases self.entries@.len() - i,
        {
            let e = &self.entries[i];
            entries.push((e.0.clone(), e.1.clone()));
            i = i + 1;
        }
        let r = StringMap { entries };
        assert(r@ =~= self@);
        r
    }
}

} // verus!
