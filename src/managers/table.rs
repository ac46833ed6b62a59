//! Rows keyed by text, kept with the map that they stand for.
use vstd::prelude::*;

verus! {

/// Rows of key and value, with the map that they stand for.
pub(crate) struct Table<V> {
    pub(crate) rows: Vec<(String, V)>,
    pub(crate) map: Ghost<Map<Seq<char>, V>>,
}

impl<V> Table<V> {
    /// Each key appears in one row, and the rows are what the map says.
    pub(crate) open spec fn wf(&self) -> bool {
        &&& forall|i: int, j: int|
            0 <= i < j < self.rows@.len() ==> self.rows@[i].0@ != self.rows@[j].0@
        &&& forall|i: int|
            0 <= i < self.rows@.len() ==> {
                &&& #[trigger] self.map@.contains_key(self.rows@[i].0@)
                &&& self.map@[self.rows@[i].0@] == self.rows@[i].1
            }
        &&& forall|k: Seq<char>|
            #[trigger] self.map@.contains_key(k) ==> exists|i: int|
                0 <= i < self.rows@.len() && self.rows@[i].0@ == k
    }

    pub(crate) fn new() -> (t: Self)
        ensures
            t.wf(),
            t.map@ == Map::<Seq<char>, V>::empty(),
    {
        Table { rows: Vec::new(), map: Ghost(Map::empty()) }
    }

    /// The row that holds `key`.
    pub(crate) fn find(&self, key: &String) -> (r: Option<usize>)
        requires
            self.wf(),
        ensures
            r is None <==> !self.map@.contains_key(key@),
            r matches Some(i) ==> i < self.rows@.len() && self.rows@[i as int].0@ == key@,
    {
        let mut i: usize = 0;
        while i < self.rows.len()
            invariant
                self.wf(),
                i <= self.rows@.len(),
                forall|j: int| 0 <= j < i ==> self.rows@[j].0@ != key@,
            decreases self.rows@.len() - i,
        {
            if self.rows[i].0 == *key {
                return Some(i);
            }
            i = i + 1;
        }
        proof {
            if self.map@.contains_key(key@) {
                let j = choose|j: int| 0 <= j < self.rows@.len() && self.rows@[j].0@ == key@;
                assert(self.rows@[j].0@ == key@);
            }
        }
        None
    }

    pub(crate) fn insert(&mut self, key: String, value: V)
        requires
            old(self).wf(),
        ensures
            final(self).wf(),
            final(self).map@ == old(self).map@.insert(key@, value),
    {
        let ghost old_rows = self.rows@;
        let ghost new_map = self.map@.insert(key@, value);
        let ghost k0 = key@;
        match self.find(&key) {
            Some(i) => {
                self.rows.set(i, (key, value));
                self.map = Ghost(new_map);
                assert forall|k: Seq<char>| #[trigger] self.map@.contains_key(k) implies exists|j: int|
                    0 <= j < self.rows@.len() && self.rows@[j].0@ == k by {
                    if k != k0 {
                        let j = choose|j: int| 0 <= j < old_rows.len() && old_rows[j].0@ == k;
                        assert(self.rows@[j].0@ == k);
                    } else {
                        assert(self.rows@[i as int].0@ == k);
                    }
                }
            },
            None => {
                self.rows.push((key, value));
                self.map = Ghost(new_map);
                assert forall|k: Seq<char>| #[trigger] self.map@.contains_key(k) implies exists|j: int|
                    0 <= j < self.rows@.len() && self.rows@[j].0@ == k by {
                    if k != k0 {
                        let j = choose|j: int| 0 <= j < old_rows.len() && old_rows[j].0@ == k;
                        assert(self.rows@[j].0@ == k);
                    } else {
                        assert(self.rows@[old_rows.len() as int].0@ == k);
                    }
                }
            },
        }
    }

    /// Takes row `i` out and gives back the value it held.
    pub(crate) fn remove_at(&mut self, i: usize) -> (value: V)
        requires
            old(self).wf(),
            i < old(self).rows@.len(),
        ensures
            final(self).wf(),
            value == old(self).map@[old(self).rows@[i as int].0@],
            final(self).map@ == old(self).map@.remove(old(self).rows@[i as int].0@),
    {
        let ghost old_rows = self.rows@;
        let ghost k0 = self.rows@[i as int].0@;
        let ghost new_map = self.map@.remove(k0);
        assert(self.map@.contains_key(self.rows@[i as int].0@));
        let (_, value) = self.rows.remove(i);
        self.map = Ghost(new_map);
        assert forall|k: Seq<char>| #[trigger] self.map@.contains_key(k) implies exists|j: int|
            0 <= j < self.rows@.len() && self.rows@[j].0@ == k by {
            let j = choose|j: int| 0 <= j < old_rows.len() && old_rows[j].0@ == k;
            if j < i {
                assert(self.rows@[j].0@ == k);
            } else {
                assert(j != i);
                assert(self.rows@[j - 1].0@ == k);
            }
        }
        value
    }
}

} // verus!
