//! A directory: values filed under keys, each key at most once.
use crate::text::same_text;
use vstd::prelude::*;

verus! {

/// What a list of entries files under each key.
pub open spec fn filed<V: View>(entries: Seq<(String, V)>) -> Map<Seq<char>, V::V>
    decreases entries.len(),
{
    if entries.len() == 0 {
        Map::empty()
    } else {
        filed(entries.drop_last()).insert(entries.last().0@, entries.last().1@)
    }
}

/// Whether no key occurs twice.
pub open spec fn keys_differ<V>(entries: Seq<(String, V)>) -> bool {
    forall|i: int, j: int|
        0 <= i < j < entries.len() ==> (#[trigger] entries[i]).0@ != (#[trigger] entries[j]).0@
}

/// Where no key occurs twice, each entry is found under its key, and nothing else is.
proof fn lemma_filed<V: View>(entries: Seq<(String, V)>)
    requires
        keys_differ(entries),
    ensures
        forall|i: int|
            0 <= i < entries.len() ==> filed(entries).contains_key((#[trigger] entries[i]).0@)
                && filed(entries)[entries[i].0@] == entries[i].1@,
        forall|key: Seq<char>| #[trigger]
            filed(entries).contains_key(key) ==> exists|i: int|
                0 <= i < entries.len() && (#[trigger] entries[i]).0@ == key,
    decreases entries.len(),
{
    if entries.len() > 0 {
        let front = entries.drop_last();
        let last = entries.len() - 1;
        assert forall|i: int, j: int| 0 <= i < j < front.len() implies (#[trigger] front[i]).0@ != (
        #[trigger] front[j]).0@ by {
            assert(front[i] == entries[i] && front[j] == entries[j]);
        }
        lemma_filed(front);
        assert forall|i: int| 0 <= i < entries.len() implies filed(entries).contains_key(
            (#[trigger] entries[i]).0@,
        ) && filed(entries)[entries[i].0@] == entries[i].1@ by {
            if i < last {
                assert(entries[i] == front[i]);
                assert(entries[i].0@ != entries[last].0@);
            }
        }
        assert forall|key: Seq<char>| #[trigger] filed(entries).contains_key(key) implies exists|i: int|
            0 <= i < entries.len() && (#[trigger] entries[i]).0@ == key by {
            if key != entries[last].0@ {
                assert(filed(front).contains_key(key));
                let i = choose|i: int| 0 <= i < front.len() && (#[trigger] front[i]).0@ == key;
                assert(entries[i].0@ == key);
            } else {
                assert(entries[last].0@ == key);
            }
        }
    }
}

/// Entries that look the same are filed the same.
proof fn lemma_filed_alike<V: View>(one: Seq<(String, V)>, other: Seq<(String, V)>)
    requires
        one.len() == other.len(),
        forall|i: int|
            0 <= i < one.len() ==> (#[trigger] one[i]).0@ == other[i].0@ && one[i].1@
                == other[i].1@,
    ensures
        filed(one) == filed(other),
    decreases one.len(),
{
    if one.len() > 0 {
        assert(one.last() == one[one.len() - 1]);
        lemma_filed_alike(one.drop_last(), other.drop_last());
    }
}

/// Values of one kind, filed under keys.
#[derive(Debug, PartialEq, Eq)]
pub struct Directory<V> {
    entries: Vec<(String, V)>,
}

impl<V: View> View for Directory<V> {
    type V = Map<Seq<char>, V::V>;

    closed spec fn view(&self) -> Map<Seq<char>, V::V> {
        filed(self.entries@)
    }
}

impl<V: View> Directory<V> {
    /// Whether no key occurs twice.
    pub closed spec fn well_formed(self) -> bool {
        keys_differ(self.entries@)
    }

    /// A directory that holds nothing.
    pub fn new() -> (directory: Directory<V>)
        ensures
            directory.well_formed(),
            directory@ == Map::<Seq<char>, V::V>::empty(),
    {
        Directory { entries: Vec::new() }
    }

    /// All entries, each key once.
    pub fn entries(&self) -> (entries: &Vec<(String, V)>)
        requires
            self.well_formed(),
        ensures
            keys_differ(entries@),
            filed(entries@) == self@,
    {
        &self.entries
    }

    /// A second directory that holds the same.
    pub fn copy(&self) -> (copy: Directory<V>) where V: Clone
        requires
            self.well_formed(),
            forall|a: V, b: V| #[trigger] cloned(a, b) ==> a@ == b@,
        ensures
            copy.well_formed(),
            copy@ == self@,
    {
        let mut entries: Vec<(String, V)> = Vec::new();
        for i in 0..self.entries.len()
            invariant
                entries@.len() == i,
                forall|a: V, b: V| #[trigger] cloned(a, b) ==> a@ == b@,
                forall|j: int|
                    0 <= j < i ==> (#[trigger] entries@[j]).0@ == self.entries@[j].0@
                        && entries@[j].1@ == self.entries@[j].1@,
        {
            let value = self.entries[i].1.clone();
            assert(cloned(self.entries@[i as int].1, value));
            entries.push((self.entries[i].0.clone(), value));
        }
        proof {
            lemma_filed_alike(entries@, self.entries@);
            assert forall|a: int, b: int| 0 <= a < b < entries@.len() implies (
            #[trigger] entries@[a]).0@ != (#[trigger] entries@[b]).0@ by {
                assert(self.entries@[a].0@ != self.entries@[b].0@);
            }
        }
        Directory { entries }
    }

    /// The place of a key among the entries.
    fn find(&self, key: &str) -> (place: Option<usize>)
        requires
            self.well_formed(),
        ensures
            match place {
                Some(i) => i < self.entries@.len() && self.entries@[i as int].0@ == key@,
                None => forall|i: int|
                    0 <= i < self.entries@.len() ==> (#[trigger] self.entries@[i]).0@ != key@,
            },
    {
        for i in 0..self.entries.len()
            invariant
                forall|j: int| 0 <= j < i ==> (#[trigger] self.entries@[j]).0@ != key@,
        {
            if same_text(self.entries[i].0.as_str(), key) {
                return Some(i);
            }
        }
        None
    }

    /// What is filed under a key.
    pub fn get(&self, key: &str) -> (value: Option<&V>)
        requires
            self.well_formed(),
        ensures
            match value {
                Some(value) => self@.contains_key(key@) && self@[key@] == value@,
                None => !self@.contains_key(key@),
            },
    {
        proof {
            lemma_filed(self.entries@);
        }
        match self.find(key) {
            Some(i) => Some(&self.entries[i].1),
            None => None,
        }
    }

    /// Files a value under a key, in place of what stood there.
    pub fn insert(&mut self, key: String, value: V)
        requires
            old(self).well_formed(),
        ensures
            final(self).well_formed(),
            final(self)@ == old(self)@.insert(key@, value@),
    {
        let ghost before = self.entries@;
        proof {
            lemma_filed(before);
        }
        match self.find(key.as_str()) {
            Some(i) => {
                self.entries[i] = (key, value);
                proof {
                    let now = self.entries@;
                    assert forall|a: int, b: int| 0 <= a < b < now.len() implies (
                    #[trigger] now[a]).0@ != (#[trigger] now[b]).0@ by {
                        assert(now[a].0@ == before[a].0@);
                        assert(now[b].0@ == before[b].0@);
                    }
                    lemma_filed(now);
                    assert forall|k: Seq<char>|
                        filed(now).contains_key(k) == filed(before).insert(
                            key@,
                            value@,
                        ).contains_key(k) by {
                        if filed(now).contains_key(k) {
                            let j = choose|j: int|
                                0 <= j < now.len() && (#[trigger] now[j]).0@ == k;
                            assert(before[j].0@ == k);
                        }
                        if filed(before).contains_key(k) {
                            let j = choose|j: int|
                                0 <= j < before.len() && (#[trigger] before[j]).0@ == k;
                            assert(now[j].0@ == k);
                        }
                        assert(now[i as int].0@ == key@);
                    }
                    assert forall|k: Seq<char>| filed(now).contains_key(k) implies filed(now)[k]
                        == filed(before).insert(key@, value@)[k] by {
                        let j = choose|j: int| 0 <= j < now.len() && (#[trigger] now[j]).0@ == k;
                        assert(before[j].0@ == k);
                        assert(now[i as int].0@ == key@);
                        if j != i {
                            assert(now[j] == before[j]);
                            if j < i {
                                assert(before[j].0@ != before[i as int].0@);
                            } else {
                                assert(before[i as int].0@ != before[j].0@);
                            }
                        }
                    }
                    assert(filed(now) =~= filed(before).insert(key@, value@));
                }
            },
            None => {
                self.entries.push((key, value));
                proof {
                    let now = self.entries@;
                    assert(now.drop_last() =~= before);
                    assert forall|a: int, b: int| 0 <= a < b < now.len() implies (
                    #[trigger] now[a]).0@ != (#[trigger] now[b]).0@ by {
                        assert(now[a] == before[a]);
                        if b < before.len() {
                            assert(now[b] == before[b]);
                        }
                    }
                }
            },
        }
    }

    /// Takes out what is filed under a key, if anything is.
    pub fn remove(&mut self, key: &str)
        requires
            old(self).well_formed(),
        ensures
            final(self).well_formed(),
            final(self)@ == old(self)@.remove(key@),
    {
        let ghost before = self.entries@;
        proof {
            lemma_filed(before);
        }
        match self.find(key) {
            Some(i) => {
                let _ = self.entries.remove(i);
                proof {
                    let now = self.entries@;
                    assert forall|a: int| 0 <= a < now.len() implies (#[trigger] now[a]) == if a < i {
                        before[a]
                    } else {
                        before[a + 1]
                    } by {}
                    assert forall|a: int, b: int| 0 <= a < b < now.len() implies (
                    #[trigger] now[a]).0@ != (#[trigger] now[b]).0@ by {
                        let c = if a < i { a } else { a + 1 };
                        let d = if b < i { b } else { b + 1 };
                        assert(now[a] == before[c] && now[b] == before[d] && c < d);
                    }
                    lemma_filed(now);
                    assert forall|k: Seq<char>|
                        filed(now).contains_key(k) == filed(before).remove(key@).contains_key(k) by {
                        if filed(now).contains_key(k) {
                            let j = choose|j: int|
                                0 <= j < now.len() && (#[trigger] now[j]).0@ == k;
                            let c = if j < i { j } else { j + 1 };
                            assert(now[j] == before[c]);
                            if c < i {
                                assert(before[c].0@ != before[i as int].0@);
                            } else {
                                assert(before[i as int].0@ != before[c].0@);
                            }
                        }
                        if filed(before).remove(key@).contains_key(k) {
                            let j = choose|j: int|
                                0 <= j < before.len() && (#[trigger] before[j]).0@ == k;
                            let c = if j < i { j } else { j - 1 };
                            assert(now[c] == before[j]);
                        }
                    }
                    assert forall|k: Seq<char>| filed(now).contains_key(k) implies filed(now)[k]
                        == filed(before).remove(key@)[k] by {
                        let j = choose|j: int| 0 <= j < now.len() && (#[trigger] now[j]).0@ == k;
                        let c = if j < i { j } else { j + 1 };
                        assert(now[j] == before[c]);
                        assert(filed(now).contains_key(k) == filed(before).remove(key@).contains_key(k));
                    }
                    assert(filed(now) =~= filed(before).remove(key@));
                }
            },
            None => {
                proof {
                    assert(filed(before).remove(key@) =~= filed(before));
                }
            },
        }
    }
}

/// A list of entries with different keys files each value under its key, and nothing else.
pub proof fn law_entries_are_what_is_filed<V: View>(entries: Seq<(String, V)>)
    requires
        forall|i: int, j: int|
            0 <= i < j < entries.len() ==> (#[trigger] entries[i]).0@ != (#[trigger] entries[j]).0@,
    ensures
        keys_differ(entries),
        forall|i: int|
            0 <= i < entries.len() ==> filed(entries).contains_key((#[trigger] entries[i]).0@)
                && filed(entries)[entries[i].0@] == entries[i].1@,
        forall|key: Seq<char>| #[trigger]
            filed(entries).contains_key(key) ==> exists|i: int|
                0 <= i < entries.len() && (#[trigger] entries[i]).0@ == key,
{
    lemma_filed(entries);
}

/// A list in which a key occurs twice is not taken for one with different keys.
pub proof fn law_keys_occur_once<V>(entries: Seq<(String, V)>, i: int, j: int)
    requires
        keys_differ(entries),
        0 <= i < j < entries.len(),
    ensures
        entries[i].0@ != entries[j].0@,
{
}

} // verus!
