//! A map keyed by text.

use vstd::prelude::*;
use crate::text::{same, text_views};

verus! {

/// Values kept under texts, in the order in which the texts were first used.
pub struct TextMap<V> {
    entries: Vec<(String, V)>,
}

/// Whether some entry has the key.
spec fn has_key<V>(entries: Seq<(String, V)>, key: Seq<char>) -> bool {
    exists|i: int| 0 <= i < entries.len() && (#[trigger] entries[i]).0@ == key
}

/// The value of the first entry that has the key.
spec fn value_of<V>(entries: Seq<(String, V)>, key: Seq<char>) -> V
    decreases entries.len(),
{
    if entries.len() == 0 || entries[0].0@ == key {
        entries[0].1
    } else {
        value_of(entries.skip(1), key)
    }
}

/// No key stands twice.
spec fn unique<V>(entries: Seq<(String, V)>) -> bool {
    forall|i: int, j: int|
        0 <= i < j < entries.len() ==> (#[trigger] entries[i]).0@ != (#[trigger] entries[j]).0@
}

impl<V> View for TextMap<V> {
    type V = Map<Seq<char>, V>;

    closed spec fn view(&self) -> Map<Seq<char>, V> {
        Map::new(
            |key: Seq<char>| has_key(self.entries@, key),
            |key: Seq<char>| value_of(self.entries@, key),
        )
    }
}

proof fn value_at<V>(entries: Seq<(String, V)>, i: int)
    requires
        0 <= i < entries.len(),
        forall|j: int| 0 <= j < i ==> (#[trigger] entries[j]).0@ != entries[i].0@,
    ensures
        value_of(entries, entries[i].0@) == entries[i].1,
    decreases i,
{
    if i > 0 {
        let rest = entries.skip(1);
        assert(rest[i - 1] == entries[i]);
        assert forall|j: int| 0 <= j < i - 1 implies (#[trigger] rest[j]).0@ != rest[i - 1].0@ by {
            assert(rest[j] == entries[j + 1]);
        }
        value_at(rest, i - 1);
        assert(entries[0].0@ != entries[i].0@);
    }
}

proof fn first_index<V>(entries: Seq<(String, V)>, key: Seq<char>) -> (i: int)
    requires
        has_key(entries, key),
    ensures
        0 <= i < entries.len(),
        entries[i].0@ == key,
        forall|j: int| 0 <= j < i ==> (#[trigger] entries[j]).0@ != key,
    decreases entries.len(),
{
    if entries[0].0@ == key {
        0
    } else {
        let rest = entries.skip(1);
        let w = choose|w: int| 0 <= w < entries.len() && (#[trigger] entries[w]).0@ == key;
        assert(rest[w - 1] == entries[w]);
        let k = first_index(rest, key);
        assert forall|j: int| 0 <= j < k + 1 implies (#[trigger] entries[j]).0@ != key by {
            if j > 0 {
                assert(rest[j - 1] == entries[j]);
            }
        }
        assert(rest[k] == entries[k + 1]);
        k + 1
    }
}

proof fn value_agrees<V>(a: Seq<(String, V)>, b: Seq<(String, V)>, i: int, key: Seq<char>)
    requires
        0 <= i < a.len(),
        0 <= i < b.len(),
        a[i].0@ == key,
        b[i].0@ == key,
        a[i].1 == b[i].1,
        forall|j: int| 0 <= j < i ==> (#[trigger] a[j]).0@ != key,
        forall|j: int| 0 <= j < i ==> (#[trigger] b[j]).0@ != key,
    ensures
        value_of(a, key) == value_of(b, key),
{
    value_at(a, i);
    value_at(b, i);
}

proof fn keys_counted<V>(entries: Seq<(String, V)>)
    requires
        unique(entries),
    ensures
        Set::new(|key: Seq<char>| has_key(entries, key)).finite(),
        Set::new(|key: Seq<char>| has_key(entries, key)).len() == entries.len(),
    decreases entries.len(),
{
    let keys = Set::new(|key: Seq<char>| has_key(entries, key));
    if entries.len() == 0 {
        assert(keys =~= Set::empty());
    } else {
        let front = entries.drop_last();
        let last = entries.last().0@;
        assert forall|i: int, j: int| 0 <= i < j < front.len() implies (#[trigger] front[i]).0@ != (
        #[trigger] front[j]).0@ by {
            assert(entries[i].0@ != entries[j].0@);
        }
        keys_counted(front);
        let front_keys = Set::new(|key: Seq<char>| has_key(front, key));
        assert(!front_keys.contains(last)) by {
            if has_key(front, last) {
                let w = choose|w: int| 0 <= w < front.len() && (#[trigger] front[w]).0@ == last;
                assert(entries[w].0@ != entries[entries.len() - 1].0@);
            }
        }
        assert forall|k: Seq<char>| keys.contains(k) == #[trigger] front_keys.insert(last).contains(
            k,
        ) by {
            if has_key(entries, k) && k != last {
                let w = choose|w: int| 0 <= w < entries.len() && (#[trigger] entries[w]).0@ == k;
                assert(front[w].0@ == k);
            }
            if has_key(front, k) {
                let w = choose|w: int| 0 <= w < front.len() && (#[trigger] front[w]).0@ == k;
                assert(entries[w].0@ == k);
            }
            if k == last {
                assert(entries[entries.len() - 1].0@ == k);
            }
        }
        assert(keys =~= front_keys.insert(last));
    }
}

impl<V> TextMap<V> {
    /// No key stands twice.
    #[verifier::type_invariant]
    spec fn inv(self) -> bool {
        unique(self.entries@)
    }

    pub fn new() -> (r: TextMap<V>)
        ensures
            r@ == Map::<Seq<char>, V>::empty(),
    {
        let r = TextMap { entries: Vec::new() };
        assert(r@ =~= Map::<Seq<char>, V>::empty());
        r
    }

    /// The number of keys.
    pub fn len(&self) -> (r: usize)
        ensures
            r == self@.len(),
            self@.dom().finite(),
    {
        proof {
            use_type_invariant(self);
            keys_counted(self.entries@);
            assert(self@.dom() =~= Set::new(|key: Seq<char>| has_key(self.entries@, key)));
        }
        self.entries.len()
    }

    fn position(&self, key: &str) -> (r: Option<usize>)
        ensures
            match r {
                Some(i) => {
                    &&& i < self.entries@.len()
                    &&& self.entries@[i as int].0@ == key@
                    &&& forall|j: int| 0 <= j < i ==> (#[trigger] self.entries@[j]).0@ != key@
                    &&& self@.dom().contains(key@)
                    &&& self@[key@] == self.entries@[i as int].1
                },
                None => {
                    &&& forall|j: int|
                        0 <= j < self.entries@.len() ==> (#[trigger] self.entries@[j]).0@ != key@
                    &&& !self@.dom().contains(key@)
                },
            },
    {
        let mut i: usize = 0;
        while i < self.entries.len()
            invariant
                i <= self.entries@.len(),
                forall|j: int| 0 <= j < i ==> (#[trigger] self.entries@[j]).0@ != key@,
            decreases self.entries@.len() - i,
        {
            if same(self.entries[i].0.as_str(), key) {
                proof {
                    value_at(self.entries@, i as int);
                }
                return Some(i);
            }
            i += 1;
        }
        None
    }

    /// The value under a key.
    pub fn get(&self, key: &str) -> (r: Option<&V>)
        ensures
            match r {
                Some(v) => self@.dom().contains(key@) && *v == self@[key@],
                None => !self@.dom().contains(key@),
            },
    {
        match self.position(key) {
            Some(i) => Some(&self.entries[i].1),
            None => None,
        }
    }

    pub fn contains(&self, key: &str) -> (r: bool)
        ensures
            r == self@.dom().contains(key@),
    {
        self.position(key).is_some()
    }

    /// Puts a value under a key, in place of the one that was there.
    pub fn insert(&mut self, key: &str, value: V)
        ensures
            final(self)@ == old(self)@.insert(key@, value),
    {
        proof {
            use_type_invariant(&*self);
        }
        let ghost before = self.entries@;
        let found = self.position(key);
        let mut entries: Vec<(String, V)> = Vec::new();
        std::mem::swap(&mut self.entries, &mut entries);
        match found {
            Some(i) => {
                entries.set(i, (key.to_owned(), value));
                proof {
                    let after = entries@;
                    value_at(after, i as int);
                    assert forall|k: Seq<char>| has_key(before, k) == #[trigger] has_key(after, k) by {
                        if has_key(before, k) {
                            let w = choose|w: int| 0 <= w < before.len() && (#[trigger] before[w]).0@ == k;
                            assert(after[w].0@ == k);
                        }
                        if has_key(after, k) {
                            let w = choose|w: int| 0 <= w < after.len() && (#[trigger] after[w]).0@ == k;
                            assert(before[w].0@ == k);
                        }
                    }
                    assert(has_key(after, key@)) by {
                        assert(after[i as int].0@ == key@);
                    }
                    assert forall|k: Seq<char>| has_key(before, k) && k != key@ implies
                        value_of(after, k) == #[trigger] value_of(before, k) by {
                        let f = first_index(before, k);
                        assert forall|j: int| 0 <= j < f implies (#[trigger] after[j]).0@ != k by {
                            assert(before[j].0@ != k);
                        }
                        value_agrees(before, after, f, k);
                    }
                    assert forall|a: int, b: int| 0 <= a < b < after.len() implies (
                    #[trigger] after[a]).0@ != (#[trigger] after[b]).0@ by {
                        assert(before[a].0@ != before[b].0@);
                    }
                }
            },
            None => {
                entries.push((key.to_owned(), value));
                proof {
                    let after = entries@;
                    let n = before.len() as int;
                    value_at(after, n);
                    assert(has_key(after, key@)) by {
                        assert(after[n].0@ == key@);
                    }
                    assert forall|k: Seq<char>| k != key@ implies has_key(before, k) == #[trigger] has_key(
                        after,
                        k,
                    ) by {
                        if has_key(before, k) {
                            let w = choose|w: int| 0 <= w < before.len() && (#[trigger] before[w]).0@ == k;
                            assert(after[w].0@ == k);
                        }
                        if has_key(after, k) {
                            let w = choose|w: int| 0 <= w < after.len() && (#[trigger] after[w]).0@ == k;
                            assert(before[w].0@ == k);
                        }
                    }
                    assert forall|k: Seq<char>| has_key(before, k) && k != key@ implies
                        value_of(after, k) == #[trigger] value_of(before, k) by {
                        let f = first_index(before, k);
                        assert forall|j: int| 0 <= j < f implies (#[trigger] after[j]).0@ != k by {
                            assert(before[j].0@ != k);
                        }
                        value_agrees(before, after, f, k);
                    }
                }
            },
        }
        self.entries = entries;
        assert(self@ =~= old(self)@.insert(key@, value));
    }

    /// Takes the value under a key out.
    pub fn remove(&mut self, key: &str) -> (r: Option<V>)
        ensures
            final(self)@ == old(self)@.remove(key@),
            match r {
                Some(v) => old(self)@.dom().contains(key@) && v == old(self)@[key@],
                None => !old(self)@.dom().contains(key@),
            },
    {
        proof {
            use_type_invariant(&*self);
        }
        let ghost before = self.entries@;
        match self.position(key) {
            Some(i) => {
                let mut entries: Vec<(String, V)> = Vec::new();
                std::mem::swap(&mut self.entries, &mut entries);
                let (_, value) = entries.remove(i);
                proof {
                    let after = entries@;
                    assert(after =~= before.remove(i as int));
                    assert forall|a: int, b: int| 0 <= a < b < after.len() implies (
                    #[trigger] after[a]).0@ != (#[trigger] after[b]).0@ by {
                        let a0 = if a < i { a } else { a + 1 };
                        let b0 = if b < i { b } else { b + 1 };
                        assert(before[a0].0@ != before[b0].0@);
                    }
                    assert(!has_key(after, key@)) by {
                        if has_key(after, key@) {
                            let w = choose|w: int| 0 <= w < after.len() && (#[trigger] after[w]).0@ == key@;
                            let w0 = if w < i { w } else { w + 1 };
                            assert(before[w0] == after[w]);
                        }
                    }
                    assert forall|k: Seq<char>| k != key@ implies has_key(before, k) == #[trigger] has_key(
                        after,
                        k,
                    ) by {
                        if has_key(before, k) {
                            let w = choose|w: int| 0 <= w < before.len() && (#[trigger] before[w]).0@ == k;
                            let w0 = if w < i { w } else { w - 1 };
                            assert(after[w0].0@ == k);
                        }
                        if has_key(after, k) {
                            let w = choose|w: int| 0 <= w < after.len() && (#[trigger] after[w]).0@ == k;
                            let w0 = if w < i { w } else { w + 1 };
                            assert(before[w0].0@ == k);
                        }
                    }
                    assert forall|k: Seq<char>| has_key(after, k) && k != key@ implies
                        value_of(after, k) == #[trigger] value_of(before, k) by {
                        let f = first_index(after, k);
                        value_at(after, f);
                        let f0 = if f < i { f } else { f + 1 };
                        assert(before[f0] == after[f]);
                        assert forall|j: int| 0 <= j < f0 implies (#[trigger] before[j]).0@ != k by {
                            if j != i {
                                let j0 = if j < i { j } else { j - 1 };
                                assert(after[j0] == before[j]);
                            }
                        }
                        value_at(before, f0);
                    }
                }
                self.entries = entries;
                assert(self@ =~= old(self)@.remove(key@));
                Some(value)
            },
            None => {
                assert(self@ =~= old(self)@.remove(key@));
                None
            },
        }
    }

    /// The keys, in the order in which they were first used.
    pub fn keys(&self) -> (r: Vec<String>)
        ensures
            forall|key: Seq<char>|
                self@.dom().contains(key) <==> #[trigger] text_views(r@).contains(key),
    {
        let mut keys: Vec<String> = Vec::new();
        let mut i: usize = 0;
        while i < self.entries.len()
            invariant
                i <= self.entries@.len(),
                keys@.len() == i,
                forall|j: int| 0 <= j < i ==> (#[trigger] keys@[j])@ == self.entries@[j].0@,
            decreases self.entries@.len() - i,
        {
            keys.push(self.entries[i].0.clone());
            i += 1;
        }
        proof {
            let views = text_views(keys@);
            assert forall|key: Seq<char>| has_key(self.entries@, key) <==> #[trigger] views.contains(
                key,
            ) by {
                if has_key(self.entries@, key) {
                    let w = choose|w: int|
                        0 <= w < self.entries@.len() && (#[trigger] self.entries@[w]).0@ == key;
                    assert(views[w] == keys@[w]@);
                    assert(views[w] == key);
                }
                if views.contains(key) {
                    let w = views.index_of(key);
                    assert(views[w] == keys@[w]@);
                    assert(self.entries@[w].0@ == key);
                }
            }
        }
        keys
    }

    /// Takes everything out.
    pub fn clear(&mut self)
        ensures
            final(self)@ == Map::<Seq<char>, V>::empty(),
    {
        self.entries = Vec::new();
        assert(self@ =~= Map::<Seq<char>, V>::empty());
    }
}

} // verus!
