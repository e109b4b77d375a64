//! The store: at most one entry for each key, a later entry under a key
//! replacing the earlier one whole.

use crate::key::{key_of, Key, KeyView, TypeTag};
use vstd::prelude::*;

verus! {

/// Whether `resolve` builds a type anew each time or hands out the stored
/// instance.
#[derive(Debug, Clone, Copy, PartialEq, Eq, Structural)]
pub enum Lifetime {
    Transient,
    Singleton,
}

impl Default for Lifetime {
    fn default() -> (lifetime: Self)
        ensures
            lifetime == Lifetime::Transient,
    {
        Lifetime::Transient
    }
}

/// The lifetime that an optional lifetime stands for.
pub open spec fn lifetime_or_default(lifetime: Option<Lifetime>) -> Lifetime {
    match lifetime {
        Some(lifetime) => lifetime,
        None => Lifetime::Transient,
    }
}

struct Entry<V> {
    key: Key,
    lifetime: Lifetime,
    value: V,
}

spec fn has_key_at<V>(entries: Seq<Entry<V>>, key: KeyView, i: int) -> bool {
    0 <= i < entries.len() && entries[i].key@ == key
}

spec fn index_of<V>(entries: Seq<Entry<V>>, key: KeyView) -> int {
    choose|i: int| has_key_at(entries, key, i)
}

spec fn distinct_keys<V>(entries: Seq<Entry<V>>) -> bool {
    forall|i: int, j: int| 0 <= i < j < entries.len() ==> entries[i].key@ != entries[j].key@
}

spec fn entries_map<V>(entries: Seq<Entry<V>>) -> Map<KeyView, (Lifetime, V)> {
    Map::new(
        |key: KeyView| exists|i: int| has_key_at(entries, key, i),
        |key: KeyView|
            (entries[index_of(entries, key)].lifetime, entries[index_of(entries, key)].value),
    )
}

proof fn lemma_entry_at<V>(entries: Seq<Entry<V>>, i: int)
    requires
        distinct_keys(entries),
        0 <= i < entries.len(),
    ensures
        index_of(entries, entries[i].key@) == i,
        entries_map(entries).contains_key(entries[i].key@),
        entries_map(entries)[entries[i].key@] == (entries[i].lifetime, entries[i].value),
{
    assert(has_key_at(entries, entries[i].key@, i));
    let j = index_of(entries, entries[i].key@);
    assert(has_key_at(entries, entries[i].key@, j));
    if j < i {
        assert(entries[j].key@ != entries[i].key@);
    } else if i < j {
        assert(entries[i].key@ != entries[j].key@);
    }
}

proof fn lemma_push<V>(entries: Seq<Entry<V>>, entry: Entry<V>)
    requires
        distinct_keys(entries),
        forall|i: int| 0 <= i < entries.len() ==> entries[i].key@ != entry.key@,
    ensures
        distinct_keys(entries.push(entry)),
        entries_map(entries.push(entry)) == entries_map(entries).insert(
            entry.key@,
            (entry.lifetime, entry.value),
        ),
{
    let after = entries.push(entry);
    let n = entries.len() as int;
    assert(distinct_keys(after));
    assert forall|key: KeyView|
        entries_map(after).contains_key(key) <==> #[trigger] entries_map(entries).insert(
            entry.key@,
            (entry.lifetime, entry.value),
        ).contains_key(key) by {
        if entries_map(after).contains_key(key) {
            let i = choose|i: int| has_key_at(after, key, i);
            if i < n {
                assert(has_key_at(entries, key, i));
            }
        }
        if entries_map(entries).contains_key(key) {
            let i = choose|i: int| has_key_at(entries, key, i);
            assert(has_key_at(after, key, i));
        }
        if key == entry.key@ {
            assert(has_key_at(after, key, n));
        }
    }
    assert forall|key: KeyView| #[trigger] entries_map(after).contains_key(key) implies entries_map(
        after,
    )[key] == entries_map(entries).insert(entry.key@, (entry.lifetime, entry.value))[key] by {
        let i = choose|i: int| has_key_at(after, key, i);
        lemma_entry_at(after, i);
        if i < n {
            lemma_entry_at(entries, i);
        }
    }
    assert(entries_map(after) =~= entries_map(entries).insert(
        entry.key@,
        (entry.lifetime, entry.value),
    ));
}

proof fn lemma_update<V>(entries: Seq<Entry<V>>, at: int, entry: Entry<V>)
    requires
        distinct_keys(entries),
        0 <= at < entries.len(),
        entries[at].key@ == entry.key@,
    ensures
        distinct_keys(entries.update(at, entry)),
        entries_map(entries.update(at, entry)) == entries_map(entries).insert(
            entry.key@,
            (entry.lifetime, entry.value),
        ),
{
    let after = entries.update(at, entry);
    assert forall|i: int, j: int| 0 <= i < j < after.len() implies after[i].key@
        != after[j].key@ by {
        assert(after[i].key@ == entries[i].key@);
        assert(after[j].key@ == entries[j].key@);
    }
    assert forall|key: KeyView|
        entries_map(after).contains_key(key) <==> #[trigger] entries_map(entries).insert(
            entry.key@,
            (entry.lifetime, entry.value),
        ).contains_key(key) by {
        if entries_map(after).contains_key(key) {
            let i = choose|i: int| has_key_at(after, key, i);
            assert(has_key_at(entries, key, i));
        }
        if entries_map(entries).contains_key(key) {
            let i = choose|i: int| has_key_at(entries, key, i);
            assert(has_key_at(after, key, i));
        }
        if key == entry.key@ {
            assert(has_key_at(after, key, at));
        }
    }
    assert forall|key: KeyView| #[trigger] entries_map(after).contains_key(key) implies entries_map(
        after,
    )[key] == entries_map(entries).insert(entry.key@, (entry.lifetime, entry.value))[key] by {
        let i = choose|i: int| has_key_at(after, key, i);
        lemma_entry_at(after, i);
        if i != at {
            lemma_entry_at(entries, i);
        }
    }
    assert(entries_map(after) =~= entries_map(entries).insert(
        entry.key@,
        (entry.lifetime, entry.value),
    ));
}

/// A store of values of one representation `V`, each under a type identity
/// and an instance code, together with its lifetime.
pub struct TypeMap<V> {
    entries: Vec<Entry<V>>,
}

impl<V> Default for TypeMap<V> {
    fn default() -> (map: Self)
        ensures
            map.wf(),
            map@ == Map::<KeyView, (Lifetime, V)>::empty(),
    {
        let map = TypeMap { entries: Vec::new() };
        assert(map@ =~= Map::<KeyView, (Lifetime, V)>::empty());
        map
    }
}

impl<V> TypeMap<V> {
    /// No key stands in the store twice.
    pub closed spec fn wf(&self) -> bool {
        distinct_keys(self.entries@)
    }

    /// The entries of the store, by key.
    pub closed spec fn view(&self) -> Map<KeyView, (Lifetime, V)> {
        entries_map(self.entries@)
    }

    /// The key for a type and an optional instance code.
    pub fn get_key(tag: TypeTag, code: Option<String>) -> (key: Key)
        ensures
            key@ == key_of(tag, code),
    {
        match code {
            Some(code) => Key::new(tag, code),
            None => Key::new_with_default_code(tag),
        }
    }

    fn find(&self, key: &Key) -> (found: Option<usize>)
        requires
            self.wf(),
        ensures
            match found {
                Some(i) => i < self.entries@.len() && self.entries@[i as int].key@ == key@
                    && self@.contains_key(key@) && self@[key@] == (
                    self.entries@[i as int].lifetime,
                    self.entries@[i as int].value,
                ),
                None => !self@.contains_key(key@) && forall|i: int|
                    0 <= i < self.entries@.len() ==> self.entries@[i].key@ != key@,
            },
    {
        let mut i: usize = 0;
        while i < self.entries.len()
            invariant
                self.wf(),
                i <= self.entries@.len(),
                forall|j: int| 0 <= j < i ==> self.entries@[j].key@ != key@,
            decreases self.entries@.len() - i,
        {
            if self.entries[i].key.same_as(key) {
                proof {
                    lemma_entry_at(self.entries@, i as int);
                }
                return Some(i);
            }
            i += 1;
        }
        proof {
            if self@.contains_key(key@) {
                let j = choose|j: int| has_key_at(self.entries@, key@, j);
                assert(has_key_at(self.entries@, key@, j));
            }
        }
        None
    }

    /// Puts `t` under its type and instance code, in place of what stood
    /// there.
    pub fn set(&mut self, tag: TypeTag, t: V, lifetime: Option<Lifetime>, code: Option<String>)
        requires
            old(self).wf(),
        ensures
            final(self).wf(),
            final(self)@ == old(self)@.insert(key_of(tag, code), (lifetime_or_default(lifetime), t)),
    {
        let key = Self::get_key(tag, code);
        let lifetime = match lifetime {
            Some(lifetime) => lifetime,
            None => Lifetime::Transient,
        };
        let found = self.find(&key);
        let entry = Entry { key, lifetime, value: t };
        proof {
            match found {
                Some(i) => lemma_update(self.entries@, i as int, entry),
                None => lemma_push(self.entries@, entry),
            }
        }
        match found {
            Some(i) => {
                self.entries.set(i, entry);
            },
            None => {
                self.entries.push(entry);
            },
        }
    }

    /// The value stored for a type and instance code, if there is one.
    pub fn get(&self, tag: TypeTag, code: Option<String>) -> (value: Option<&V>)
        requires
            self.wf(),
        ensures
            match value {
                Some(value) => self@.contains_key(key_of(tag, code)) && *value == self@[key_of(
                    tag,
                    code,
                )].1,
                None => !self@.contains_key(key_of(tag, code)),
            },
    {
        let key = Self::get_key(tag, code);
        match self.find(&key) {
            Some(i) => Some(&self.entries[i].value),
            None => None,
        }
    }

    /// The value stored for a type and instance code, to be changed in place:
    /// the entry keeps its key and lifetime, and holds at the end what the
    /// caller left behind the reference.
    pub fn get_mut(&mut self, tag: TypeTag, code: Option<String>) -> (value: Option<&mut V>)
        requires
            old(self).wf(),
        ensures
            final(self).wf(),
            match value {
                Some(value) => old(self)@.contains_key(key_of(tag, code)) && *value == old(
                    self,
                )@[key_of(tag, code)].1 && final(self)@ == old(self)@.insert(
                    key_of(tag, code),
                    (old(self)@[key_of(tag, code)].0, *final(value)),
                ),
                None => !old(self)@.contains_key(key_of(tag, code)) && *final(self) == *old(self),
            },
    {
        let key = Self::get_key(tag, code);
        match self.find(&key) {
            Some(i) => {
                let ghost before = self.entries@;
                let value = &mut self.entries[i].value;
                proof {
                    lemma_update(
                        before,
                        i as int,
                        Entry {
                            key: before[i as int].key,
                            lifetime: before[i as int].lifetime,
                            value: *final(value),
                        },
                    );
                }
                Some(value)
            },
            None => None,
        }
    }

    /// The lifetime stored for a type and instance code, if there is an
    /// entry.
    pub fn get_lifetime(&self, tag: TypeTag, code: Option<String>) -> (lifetime: Option<Lifetime>)
        requires
            self.wf(),
        ensures
            match lifetime {
                Some(lifetime) => self@.contains_key(key_of(tag, code)) && lifetime == self@[key_of(
                    tag,
                    code,
                )].0,
                None => !self@.contains_key(key_of(tag, code)),
            },
    {
        let key = Self::get_key(tag, code);
        match self.find(&key) {
            Some(i) => Some(self.entries[i].lifetime),
            None => None,
        }
    }

    /// Whether there is an entry for a type and instance code.
    pub fn has(&self, tag: TypeTag, code: Option<String>) -> (present: bool)
        requires
            self.wf(),
        ensures
            present == self@.contains_key(key_of(tag, code)),
    {
        let key = Self::get_key(tag, code);
        self.find(&key).is_some()
    }
}

} // verus!
