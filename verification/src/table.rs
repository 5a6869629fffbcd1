//! A relation keyed by text: at most one row for each key, one text for
//! each row. Its view is the map from the keys to their texts.

use crate::text::same_text;
use vstd::prelude::*;

verus! {

/// One row of a table.
pub struct Entry {
    key: String,
    value: String,
}

/// The keys of a sequence of rows, in the rows' order.
spec fn keys(entries: Seq<Entry>) -> Seq<Seq<char>> {
    entries.map_values(|e: Entry| e.key@)
}

/// The map that a sequence of rows stands for.
spec fn map_of(entries: Seq<Entry>) -> Map<Seq<char>, Seq<char>> {
    Map::new(
        |k: Seq<char>| keys(entries).contains(k),
        |k: Seq<char>| entries[keys(entries).index_of(k)].value@,
    )
}

/// Where keys are unique, the row at `i` is the one that the map reads for
/// its key.
proof fn lemma_row_is_read(entries: Seq<Entry>, i: int)
    requires
        keys(entries).no_duplicates(),
        0 <= i < entries.len(),
    ensures
        map_of(entries).contains_key(entries[i].key@),
        map_of(entries)[entries[i].key@] == entries[i].value@,
{
    let ks = keys(entries);
    assert(ks[i] == entries[i].key@);
    let j = ks.index_of(entries[i].key@);
    assert(0 <= j < ks.len() && ks[j] == ks[i]);
}

/// A key of the map stands in some row.
proof fn lemma_key_has_row(entries: Seq<Entry>, k: Seq<char>) -> (i: int)
    requires
        map_of(entries).contains_key(k),
    ensures
        0 <= i < entries.len(),
        entries[i].key@ == k,
{
    let ks = keys(entries);
    let i = ks.index_of(k);
    assert(0 <= i < ks.len() && ks[i] == k);
    i
}

/// A row under a new key adds its pair to the map.
proof fn lemma_push(entries: Seq<Entry>, entry: Entry)
    requires
        keys(entries).no_duplicates(),
        !keys(entries).contains(entry.key@),
    ensures
        keys(entries.push(entry)).no_duplicates(),
        map_of(entries.push(entry)) == map_of(entries).insert(entry.key@, entry.value@),
{
    let after = entries.push(entry);
    assert(keys(after) =~= keys(entries).push(entry.key@));
    assert forall|i: int, j: int|
        0 <= i < keys(after).len() && 0 <= j < keys(after).len() && i != j implies keys(after)[i]
        != keys(after)[j] by {
        if i < entries.len() {
            assert(keys(entries)[i] == keys(after)[i]);
        }
        if j < entries.len() {
            assert(keys(entries)[j] == keys(after)[j]);
        }
    }
    assert forall|k: Seq<char>|
        map_of(after).contains_key(k) <==> map_of(entries).insert(
            entry.key@,
            entry.value@,
        ).contains_key(k) by {
        if map_of(after).contains_key(k) {
            let i = lemma_key_has_row(after, k);
            if i < entries.len() {
                lemma_row_is_read(entries, i);
            }
        }
        if map_of(entries).contains_key(k) {
            let i = lemma_key_has_row(entries, k);
            lemma_row_is_read(after, i);
        }
        if k == entry.key@ {
            lemma_row_is_read(after, entries.len() as int);
        }
    }
    assert forall|k: Seq<char>| map_of(after).contains_key(k) implies map_of(after)[k] == map_of(
        entries,
    ).insert(entry.key@, entry.value@)[k] by {
        let i = lemma_key_has_row(after, k);
        lemma_row_is_read(after, i);
        if i < entries.len() {
            lemma_row_is_read(entries, i);
        }
    }
    assert(map_of(after) =~= map_of(entries).insert(entry.key@, entry.value@));
}

/// A row that takes the place of another under the same key replaces the
/// key's text in the map.
proof fn lemma_update(entries: Seq<Entry>, i: int, entry: Entry)
    requires
        keys(entries).no_duplicates(),
        0 <= i < entries.len(),
        entries[i].key@ == entry.key@,
    ensures
        keys(entries.update(i, entry)).no_duplicates(),
        map_of(entries.update(i, entry)) == map_of(entries).insert(entry.key@, entry.value@),
{
    let after = entries.update(i, entry);
    assert(keys(after) =~= keys(entries));
    lemma_row_is_read(entries, i);
    assert forall|k: Seq<char>| map_of(after).contains_key(k) implies map_of(after)[k] == map_of(
        entries,
    ).insert(entry.key@, entry.value@)[k] by {
        let j = lemma_key_has_row(after, k);
        lemma_row_is_read(after, j);
        lemma_row_is_read(entries, j);
        if j != i {
            assert(keys(entries)[j] == k && keys(entries)[i] == entry.key@);
        }
    }
    assert(map_of(after) =~= map_of(entries).insert(entry.key@, entry.value@));
}

/// Taking a row out takes its key out of the map.
proof fn lemma_remove(entries: Seq<Entry>, i: int)
    requires
        keys(entries).no_duplicates(),
        0 <= i < entries.len(),
    ensures
        keys(entries.remove(i)).no_duplicates(),
        map_of(entries.remove(i)) == map_of(entries).remove(entries[i].key@),
{
    let after = entries.remove(i);
    let gone = entries[i].key@;
    assert forall|a: int| 0 <= a < after.len() implies keys(after)[a] == keys(entries)[if a < i {
        a
    } else {
        a + 1
    }] by {}
    assert forall|a: int, b: int|
        0 <= a < keys(after).len() && 0 <= b < keys(after).len() && a != b implies keys(after)[a]
        != keys(after)[b] by {
        let a0 = if a < i { a } else { a + 1 };
        let b0 = if b < i { b } else { b + 1 };
        assert(keys(after)[a] == keys(entries)[a0]);
        assert(keys(after)[b] == keys(entries)[b0]);
    }
    assert(keys(entries)[i] == gone);
    assert forall|k: Seq<char>|
        map_of(after).contains_key(k) <==> map_of(entries).remove(gone).contains_key(k) by {
        if map_of(after).contains_key(k) {
            let a = lemma_key_has_row(after, k);
            let a0 = if a < i { a } else { a + 1 };
            assert(keys(after)[a] == keys(entries)[a0]);
            lemma_row_is_read(entries, a0);
        }
        if map_of(entries).contains_key(k) && k != gone {
            let a0 = lemma_key_has_row(entries, k);
            let a = if a0 < i { a0 } else { a0 - 1 };
            assert(after[a] == entries[a0]);
            lemma_row_is_read(after, a);
        }
    }
    assert forall|k: Seq<char>| map_of(after).contains_key(k) implies map_of(after)[k] == map_of(
        entries,
    ).remove(gone)[k] by {
        let a = lemma_key_has_row(after, k);
        let a0 = if a < i { a } else { a + 1 };
        assert(after[a] == entries[a0]);
        lemma_row_is_read(after, a);
        lemma_row_is_read(entries, a0);
    }
    assert(map_of(after) =~= map_of(entries).remove(gone));
}

/// Where keys are unique, the map has as many keys as there are rows.
proof fn lemma_count(entries: Seq<Entry>)
    requires
        keys(entries).no_duplicates(),
    ensures
        map_of(entries).dom().finite(),
        map_of(entries).dom().len() == entries.len(),
{
    let ks = keys(entries);
    assert(map_of(entries).dom() =~= ks.to_set());
    ks.unique_seq_to_set();
}

/// A relation with at most one row for each key.
pub struct Table {
    entries: Vec<Entry>,
}

impl View for Table {
    type V = Map<Seq<char>, Seq<char>>;

    closed spec fn view(&self) -> Map<Seq<char>, Seq<char>> {
        map_of(self.entries@)
    }
}

impl Table {
    #[verifier::type_invariant]
    spec fn unique_keys(self) -> bool {
        keys(self.entries@).no_duplicates()
    }

    /// A table without rows.
    pub fn new() -> (table: Table)
        ensures
            table@ == Map::<Seq<char>, Seq<char>>::empty(),
    {
        let table = Table { entries: Vec::new() };
        assert(keys(table.entries@) =~= Seq::<Seq<char>>::empty());
        assert(table@ =~= Map::<Seq<char>, Seq<char>>::empty());
        table
    }

    /// The number of rows.
    pub fn len(&self) -> (count: usize)
        ensures
            self@.dom().finite(),
            count == self@.dom().len(),
    {
        proof {
            use_type_invariant(self);
            lemma_count(self.entries@);
        }
        self.entries.len()
    }

    /// The place of the row under `key`, if there is one.
    fn position(&self, key: &str) -> (found: Option<usize>)
        ensures
            match found {
                Some(i) => i < self.entries.len() && self.entries[i as int].key@ == key@,
                None => !keys(self.entries@).contains(key@),
            },
    {
        let mut i: usize = 0;
        while i < self.entries.len()
            invariant
                i <= self.entries.len(),
                forall|j: int| 0 <= j < i ==> self.entries[j].key@ != key@,
            decreases self.entries.len() - i,
        {
            if same_text(self.entries[i].key.as_str(), key) {
                return Some(i);
            }
            i += 1;
        }
        proof {
            assert forall|j: int| 0 <= j < keys(self.entries@).len() implies keys(
                self.entries@,
            )[j] != key@ by {
                assert(keys(self.entries@)[j] == self.entries[j].key@);
            }
        }
        None
    }

    /// Whether there is a row under `key`.
    pub fn contains_key(&self, key: &str) -> (found: bool)
        ensures
            found == self@.contains_key(key@),
    {
        proof {
            use_type_invariant(self);
        }
        match self.position(key) {
            Some(i) => {
                proof {
                    lemma_row_is_read(self.entries@, i as int);
                }
                true
            },
            None => false,
        }
    }

    /// The text of the row under `key`, if there is one.
    pub fn get(&self, key: &str) -> (found: Option<&str>)
        ensures
            match found {
                Some(text) => self@.contains_key(key@) && self@[key@] == text@,
                None => !self@.contains_key(key@),
            },
    {
        proof {
            use_type_invariant(self);
        }
        match self.position(key) {
            Some(i) => {
                proof {
                    lemma_row_is_read(self.entries@, i as int);
                }
                Some(self.entries[i].value.as_str())
            },
            None => None,
        }
    }

    /// Puts `value` under `key`, in place of what stood there.
    pub fn insert(&mut self, key: &str, value: &str)
        ensures
            final(self)@ == old(self)@.insert(key@, value@),
    {
        proof {
            use_type_invariant(&*self);
        }
        let found = self.position(key);
        let entry = Entry { key: key.to_owned(), value: value.to_owned() };
        let mut entries: Vec<Entry> = Vec::new();
        std::mem::swap(&mut entries, &mut self.entries);
        match found {
            Some(i) => {
                proof {
                    lemma_update(entries@, i as int, entry);
                }
                entries.set(i, entry);
            },
            None => {
                proof {
                    lemma_push(entries@, entry);
                }
                entries.push(entry);
            },
        }
        self.entries = entries;
    }

    /// Takes out the row under `key`, if there is one.
    pub fn remove(&mut self, key: &str)
        ensures
            final(self)@ == old(self)@.remove(key@),
    {
        proof {
            use_type_invariant(&*self);
        }
        match self.position(key) {
            Some(i) => {
                let mut entries: Vec<Entry> = Vec::new();
                std::mem::swap(&mut entries, &mut self.entries);
                proof {
                    lemma_remove(entries@, i as int);
                }
                let _ = entries.remove(i);
                self.entries = entries;
            },
            None => {
                assert(self@ =~= old(self)@.remove(key@));
            },
        }
    }
}

} // verus!
