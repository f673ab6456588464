//! A table keyed by byte strings.
//!
//! The rows are kept in insertion order in a vector in which no key occurs
//! twice. To contracts a table is the map from each key to its row's value.

use vstd::prelude::*;
use crate::bytes::same_bytes;

verus! {

/// Whether row `i` of `rows` exists and has the key `key`.
spec fn row_has_key<V>(rows: Seq<(Vec<u8>, V)>, i: int, key: Seq<u8>) -> bool {
    0 <= i < rows.len() && rows[i].0@ == key
}

/// No two rows of `rows` have the same key.
spec fn keys_distinct<V>(rows: Seq<(Vec<u8>, V)>) -> bool {
    forall|i: int, j: int|
        0 <= i < rows.len() && 0 <= j < rows.len() && i != j ==> #[trigger] rows[i].0@
            != #[trigger] rows[j].0@
}

/// The map that `rows` stands for: each key to the value of a row that has it.
spec fn rows_map<V: View>(rows: Seq<(Vec<u8>, V)>) -> Map<Seq<u8>, V::V> {
    Map::new(
        |key: Seq<u8>| exists|i: int| row_has_key(rows, i, key),
        |key: Seq<u8>| rows[choose|i: int| row_has_key(rows, i, key)].1@,
    )
}

/// With distinct keys, row `i` is the one that the map reads for its key.
proof fn lemma_row_in_map<V: View>(rows: Seq<(Vec<u8>, V)>, i: int)
    requires
        keys_distinct(rows),
        0 <= i < rows.len(),
    ensures
        rows_map(rows).contains_key(rows[i].0@),
        rows_map(rows)[rows[i].0@] == rows[i].1@,
{
    let key = rows[i].0@;
    assert(row_has_key(rows, i, key));
    let c = choose|c: int| row_has_key(rows, c, key);
    assert(row_has_key(rows, c, key));
    if c != i {
        assert(rows[c].0@ != rows[i].0@);
    }
}

/// A table keyed by byte strings, with at most one row for a key.
pub struct ByteMap<V> {
    rows: Vec<(Vec<u8>, V)>,
}

impl<V: View> View for ByteMap<V> {
    type V = Map<Seq<u8>, V::V>;

    closed spec fn view(&self) -> Map<Seq<u8>, V::V> {
        rows_map(self.rows@)
    }
}

impl<V> ByteMap<V> {
    #[verifier::type_invariant]
    spec fn well_formed(self) -> bool {
        keys_distinct(self.rows@)
    }
}

impl<V: View> ByteMap<V> {
    /// The table without rows.
    pub fn new() -> (table: Self)
        ensures
            table@ == Map::<Seq<u8>, V::V>::empty(),
    {
        let table = ByteMap { rows: Vec::new() };
        assert(table@ =~= Map::<Seq<u8>, V::V>::empty());
        table
    }

    /// Where the row of `key` stands, if there is one.
    fn position(&self, key: &Vec<u8>) -> (r: Option<usize>)
        ensures
            match r {
                Some(i) => row_has_key(self.rows@, i as int, key@),
                None => forall|i: int| !row_has_key(self.rows@, i, key@),
            },
    {
        let mut i: usize = 0;
        while i < self.rows.len()
            invariant
                i <= self.rows@.len(),
                forall|j: int| 0 <= j < i ==> !row_has_key(self.rows@, j, key@),
            decreases self.rows@.len() - i,
        {
            if same_bytes(&self.rows[i].0, key) {
                return Some(i);
            }
            i += 1;
        }
        None
    }

    /// Whether `key` has a row.
    pub fn contains_key(&self, key: &Vec<u8>) -> (r: bool)
        ensures
            r == self@.contains_key(key@),
    {
        self.position(key).is_some()
    }

    /// The value stored under `key`, if there is one.
    pub fn get(&self, key: &Vec<u8>) -> (r: Option<&V>)
        ensures
            match r {
                Some(value) => self@.contains_key(key@) && value@ == self@[key@],
                None => !self@.contains_key(key@),
            },
    {
        proof {
            use_type_invariant(self);
        }
        match self.position(key) {
            Some(i) => {
                proof {
                    lemma_row_in_map(self.rows@, i as int);
                }
                Some(&self.rows[i].1)
            },
            None => None,
        }
    }

    /// Stores `value` under `key`, in place of the value that was there, if any.
    pub fn insert(&mut self, key: Vec<u8>, value: V)
        ensures
            final(self)@ == old(self)@.insert(key@, value@),
    {
        proof {
            use_type_invariant(&*self);
        }
        let ghost before = self.rows@;
        let ghost k = key@;
        let ghost v = value@;
        let found = self.position(&key);
        let mut rows: Vec<(Vec<u8>, V)> = Vec::new();
        core::mem::swap(&mut self.rows, &mut rows);
        match found {
            Some(i) => {
                rows[i] = (key, value);
                proof {
                    let after = rows@;
                    assert forall|a: int, b: int|
                        0 <= a < after.len() && 0 <= b < after.len() && a != b implies #[trigger] after[a].0@
                        != #[trigger] after[b].0@ by {
                        assert(before[a].0@ != before[b].0@);
                    }
                    lemma_insert_replaces(before, after, i as int, k, v);
                }
            },
            None => {
                rows.push((key, value));
                proof {
                    let after = rows@;
                    assert forall|a: int, b: int|
                        0 <= a < after.len() && 0 <= b < after.len() && a != b implies #[trigger] after[a].0@
                        != #[trigger] after[b].0@ by {
                        if a < before.len() && b < before.len() {
                            assert(before[a].0@ != before[b].0@);
                        } else if a < before.len() {
                            assert(!row_has_key(before, a, k));
                        } else {
                            assert(!row_has_key(before, b, k));
                        }
                    }
                    lemma_insert_appends(before, after, k, v);
                }
            },
        }
        core::mem::swap(&mut self.rows, &mut rows);
    }

    /// Removes the row of `key`, if there is one.
    pub fn remove(&mut self, key: &Vec<u8>)
        ensures
            final(self)@ == old(self)@.remove(key@),
    {
        proof {
            use_type_invariant(&*self);
        }
        let ghost before = self.rows@;
        match self.position(key) {
            Some(i) => {
                let mut rows: Vec<(Vec<u8>, V)> = Vec::new();
                core::mem::swap(&mut self.rows, &mut rows);
                let _ = rows.remove(i);
                proof {
                    let after = rows@;
                    assert forall|a: int, b: int|
                        0 <= a < after.len() && 0 <= b < after.len() && a != b implies #[trigger] after[a].0@
                        != #[trigger] after[b].0@ by {
                        let a0 = if a < i { a } else { a + 1 };
                        let b0 = if b < i { b } else { b + 1 };
                        assert(before[a0].0@ != before[b0].0@);
                    }
                    lemma_remove_row(before, after, i as int);
                }
                core::mem::swap(&mut self.rows, &mut rows);
            },
            None => {
                assert(self@ =~= old(self)@.remove(key@));
            },
        }
    }
}

/// Replacing the row that has `key` by one with the same key stores the new
/// value under it and leaves the other keys alone.
proof fn lemma_insert_replaces<V: View>(
    before: Seq<(Vec<u8>, V)>,
    after: Seq<(Vec<u8>, V)>,
    i: int,
    key: Seq<u8>,
    value: V::V,
)
    requires
        keys_distinct(before),
        keys_distinct(after),
        row_has_key(before, i, key),
        after.len() == before.len(),
        after[i].0@ == key,
        after[i].1@ == value,
        forall|j: int| 0 <= j < before.len() && j != i ==> after[j] == before[j],
    ensures
        rows_map(after) == rows_map(before).insert(key, value),
{
    let left = rows_map(after);
    let right = rows_map(before).insert(key, value);
    assert forall|q: Seq<u8>| left.contains_key(q) <==> right.contains_key(q) by {
        if left.contains_key(q) {
            let c = choose|c: int| row_has_key(after, c, q);
            if c != i {
                assert(row_has_key(before, c, q));
            }
        }
        if right.contains_key(q) {
            if q == key {
                assert(row_has_key(after, i, q));
            } else {
                let c = choose|c: int| row_has_key(before, c, q);
                assert(row_has_key(after, c, q));
            }
        }
    }
    assert forall|q: Seq<u8>| left.contains_key(q) implies left[q] == right[q] by {
        let c = choose|c: int| row_has_key(after, c, q);
        lemma_row_in_map(after, c);
        if c != i {
            lemma_row_in_map(before, c);
        }
    }
    assert(left =~= right);
}

/// Appending a row whose key no row has stores its value under that key and
/// leaves the other keys alone.
proof fn lemma_insert_appends<V: View>(
    before: Seq<(Vec<u8>, V)>,
    after: Seq<(Vec<u8>, V)>,
    key: Seq<u8>,
    value: V::V,
)
    requires
        keys_distinct(before),
        keys_distinct(after),
        forall|j: int| !row_has_key(before, j, key),
        after.len() == before.len() + 1,
        after[before.len() as int].0@ == key,
        after[before.len() as int].1@ == value,
        forall|j: int| 0 <= j < before.len() ==> after[j] == before[j],
    ensures
        rows_map(after) == rows_map(before).insert(key, value),
{
    let left = rows_map(after);
    let right = rows_map(before).insert(key, value);
    let n = before.len() as int;
    assert forall|q: Seq<u8>| left.contains_key(q) <==> right.contains_key(q) by {
        if left.contains_key(q) {
            let c = choose|c: int| row_has_key(after, c, q);
            if c != n {
                assert(row_has_key(before, c, q));
            }
        }
        if right.contains_key(q) {
            if q == key {
                assert(row_has_key(after, n, q));
            } else {
                let c = choose|c: int| row_has_key(before, c, q);
                assert(row_has_key(after, c, q));
            }
        }
    }
    assert forall|q: Seq<u8>| left.contains_key(q) implies left[q] == right[q] by {
        let c = choose|c: int| row_has_key(after, c, q);
        lemma_row_in_map(after, c);
        if c != n {
            lemma_row_in_map(before, c);
        }
    }
    assert(left =~= right);
}

/// Taking row `i` out removes its key and leaves the other keys alone.
proof fn lemma_remove_row<V: View>(before: Seq<(Vec<u8>, V)>, after: Seq<(Vec<u8>, V)>, i: int)
    requires
        keys_distinct(before),
        keys_distinct(after),
        0 <= i < before.len(),
        after == before.remove(i),
    ensures
        rows_map(after) == rows_map(before).remove(before[i].0@),
{
    let key = before[i].0@;
    let left = rows_map(after);
    let right = rows_map(before).remove(key);
    assert forall|q: Seq<u8>| left.contains_key(q) <==> right.contains_key(q) by {
        if left.contains_key(q) {
            let c = choose|c: int| row_has_key(after, c, q);
            let c0 = if c < i { c } else { c + 1 };
            assert(row_has_key(before, c0, q));
            assert(before[c0].0@ != before[i].0@);
        }
        if right.contains_key(q) {
            let c = choose|c: int| row_has_key(before, c, q);
            let c1 = if c < i { c } else { c - 1 };
            assert(row_has_key(after, c1, q));
        }
    }
    assert forall|q: Seq<u8>| left.contains_key(q) implies left[q] == right[q] by {
        let c = choose|c: int| row_has_key(after, c, q);
        let c0 = if c < i { c } else { c + 1 };
        lemma_row_in_map(after, c);
        lemma_row_in_map(before, c0);
    }
    assert(left =~= right);
}

} // verus!
