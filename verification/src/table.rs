use crate::keys::{lemma_position_is, lemma_position_none, lemma_push_fresh, position};
use vstd::prelude::*;

verus! {

/// One key of a table with what is recorded for it.
#[derive(Debug, PartialEq, Eq)]
pub struct Entry<V> {
    pub key: String,
    pub value: V,
}

/// A map from text keys to values, kept as a list in the order in which the keys came.
/// No key stands in it twice.
#[derive(Debug, PartialEq, Eq)]
pub struct TextMap<V> {
    pub entries: Vec<Entry<V>>,
}

impl<V> View for TextMap<V> {
    type V = Seq<(Seq<char>, V)>;

    /// The keys with their values, in order.
    open spec fn view(&self) -> Seq<(Seq<char>, V)> {
        self.entries@.map_values(|e: Entry<V>| (e.key@, e.value))
    }
}

impl<V> TextMap<V> {
    /// The keys, in order.
    pub open spec fn keys(self) -> Seq<Seq<char>> {
        self.entries@.map_values(|e: Entry<V>| e.key@)
    }

    /// No key stands twice.
    pub open spec fn wf(self) -> bool {
        self.keys().no_duplicates()
    }

    /// What is recorded for `key`, if anything is.
    pub open spec fn value_of(self, key: Seq<char>) -> Option<V> {
        match position(self.keys(), key) {
            Some(at) => Some(self.entries@[at].value),
            None => None,
        }
    }

    pub fn new() -> (table: TextMap<V>)
        ensures
            table.wf(),
            table.entries@.len() == 0,
            forall|key: Seq<char>| table.value_of(key).is_none(),
    {
        TextMap { entries: Vec::new() }
    }

    pub fn len(&self) -> (n: usize)
        ensures
            n == self.entries@.len(),
    {
        self.entries.len()
    }

    /// Finds where `key` stands.
    pub fn find(&self, key: &String) -> (found: Option<usize>)
        requires
            self.wf(),
        ensures
            match found {
                Some(at) => position(self.keys(), key@) == Some(at as int) && at < self.entries@.len()
                    && self.entries@[at as int].key@ == key@,
                None => position(self.keys(), key@).is_none(),
            },
    {
        let mut at: usize = 0;
        while at < self.entries.len()
            invariant
                at <= self.entries@.len(),
                self.wf(),
                forall|i: int| 0 <= i < at ==> self.keys()[i] != key@,
            decreases self.entries@.len() - at,
        {
            if self.entries[at].key == *key {
                proof {
                    lemma_position_is(self.keys(), at as int);
                }
                return Some(at);
            }
            at = at + 1;
        }
        proof {
            lemma_position_none(self.keys(), key@);
        }
        None
    }

    /// Looks up what is recorded for `key`.
    pub fn get(&self, key: &String) -> (value: Option<&V>)
        requires
            self.wf(),
        ensures
            match value {
                Some(v) => self.value_of(key@) == Some(*v),
                None => self.value_of(key@).is_none(),
            },
    {
        match self.find(key) {
            Some(at) => Some(&self.entries[at].value),
            None => None,
        }
    }

    /// Records `value` for `key`: in place of what was recorded for it, or behind the
    /// other keys where nothing was.
    pub fn insert(&mut self, key: String, value: V)
        requires
            old(self).wf(),
        ensures
            final(self).wf(),
            final(self).value_of(key@) == Some(value),
            forall|other: Seq<char>| other != key@ ==> final(self).value_of(other) == old(self).value_of(other),
            match position(old(self).keys(), key@) {
                Some(at) => final(self).keys() == old(self).keys() && final(self).entries@ == old(
                    self,
                ).entries@.update(at, final(self).entries@[at]),
                None => final(self).entries@ == old(self).entries@.push(Entry { key, value }),
            },
    {
        let found = self.find(&key);
        match found {
            Some(at) => {
                let entry = &mut self.entries[at];
                entry.value = value;
                proof {
                    assert(self.keys() =~= old(self).keys());
                    lemma_position_is(self.keys(), at as int);
                    assert(self.entries@ =~= old(self).entries@.update(at as int, self.entries@[at as int]));
                }
            },
            None => {
                self.entries.push(Entry { key, value });
                proof {
                    let before = old(self).keys();
                    assert(self.keys() =~= before.push(key@));
                    lemma_push_fresh(before, key@);
                    lemma_position_is(self.keys(), before.len() as int);
                    assert forall|other: Seq<char>| other != key@ implies self.value_of(other) == old(
                        self,
                    ).value_of(other) by {
                        Self::lemma_value_of_after_push(*old(self), *self, other);
                    }
                }
            },
        }
    }

    /// A key pushed behind the others changes what is recorded for no other key.
    pub proof fn lemma_value_of_after_push(before: Self, after: Self, other: Seq<char>)
        requires
            before.wf(),
            after.wf(),
            after.entries@.len() == before.entries@.len() + 1,
            forall|i: int| 0 <= i < before.entries@.len() ==> after.entries@[i] == before.entries@[i],
            after.keys().last() != other,
        ensures
            after.value_of(other) == before.value_of(other),
    {
        let bk = before.keys();
        let ak = after.keys();
        assert(forall|i: int| 0 <= i < bk.len() ==> ak[i] == bk[i]);
        if bk.contains(other) {
            let at = bk.index_of(other);
            assert(ak[at] == other);
            lemma_position_is(ak, at);
            lemma_position_is(bk, at);
        } else {
            assert forall|i: int| 0 <= i < ak.len() implies ak[i] != other by {
                if i < bk.len() {
                    assert(bk[i] == ak[i]);
                    assert(bk.contains(bk[i]));
                }
            }
            lemma_position_none(ak, other);
        }
    }

    /// In a table without a key twice, each entry is what is recorded for its key.
    pub proof fn lemma_value_at(self, at: int)
        requires
            self.wf(),
            0 <= at < self.entries@.len(),
        ensures
            position(self.keys(), self.entries@[at].key@) == Some(at),
            self.value_of(self.entries@[at].key@) == Some(self.entries@[at].value),
    {
        lemma_position_is(self.keys(), at);
    }
}

impl<V: Copy> Clone for TextMap<V> {
    /// A copy with the same keys and values in the same order.
    fn clone(&self) -> (copy: TextMap<V>)
        ensures
            copy@ == self@,
            copy.keys() == self.keys(),
            copy.wf() == self.wf(),
            copy.entries@ == self.entries@,
    {
        let mut entries: Vec<Entry<V>> = Vec::new();
        let mut at: usize = 0;
        while at < self.entries.len()
            invariant
                at <= self.entries@.len(),
                entries@.len() == at,
                forall|i: int| 0 <= i < at ==> entries@[i] == self.entries@[i],
            decreases self.entries@.len() - at,
        {
            entries.push(Entry { key: self.entries[at].key.clone(), value: self.entries[at].value });
            at = at + 1;
        }
        let copy = TextMap { entries };
        assert(copy.entries@ =~= self.entries@);
        copy
    }
}

} // verus!
