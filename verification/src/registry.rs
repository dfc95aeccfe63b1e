//! A registry of entries keyed by string identifiers, with at most one entry
//! per identifier: the bookkeeping behind signal subscriptions, AT-SPI event
//! subscriptions and portal sessions.

use vstd::prelude::*;
use crate::ids::new_v4_string;
use crate::text::{concat2, str_eq};

verus! {

/// One registered entry.
pub struct RegistryEntry<T> {
    pub id: String,
    pub value: T,
}

/// The position of an identifier among the entries.
pub open spec fn entry_index<T>(entries: Seq<RegistryEntry<T>>, id: Seq<char>) -> Option<int> {
    if exists|i: int| 0 <= i < entries.len() && entries[i].id@ == id {
        Some(choose|i: int| 0 <= i < entries.len() && entries[i].id@ == id)
    } else {
        None
    }
}

/// No two entries share an identifier.
pub open spec fn unique_ids<T>(entries: Seq<RegistryEntry<T>>) -> bool {
    forall|i: int, j: int|
        0 <= i < entries.len() && 0 <= j < entries.len() && i != j ==> entries[i].id@
            != entries[j].id@
}

/// The registry as a map from identifier to entry value.
pub open spec fn as_map<T>(entries: Seq<RegistryEntry<T>>) -> Map<Seq<char>, T> {
    Map::new(
        |id: Seq<char>| entry_index(entries, id) is Some,
        |id: Seq<char>| entries[entry_index(entries, id)->0].value,
    )
}

/// Error returned when an identifier is not registered.
pub struct NotRegistered {
    pub id: String,
}

impl NotRegistered {
    /// Description of the error, with the given prefix before the identifier.
    pub fn message(&self, prefix: &str) -> (r: String)
        ensures
            r@ == prefix@ + self.id@,
    {
        concat2(prefix, self.id.as_str())
    }
}

/// Entries keyed by distinct string identifiers.
pub struct Registry<T> {
    entries: Vec<RegistryEntry<T>>,
}

impl<T> Registry<T> {
    /// The entries, in registration order.
    pub closed spec fn entries(&self) -> Seq<RegistryEntry<T>> {
        self.entries@
    }

    /// The registry as a map.
    pub open spec fn view_map(&self) -> Map<Seq<char>, T> {
        as_map(self.entries())
    }

    /// Identifiers are distinct.
    pub closed spec fn wf(&self) -> bool {
        unique_ids(self.entries@)
    }

    /// An empty registry.
    pub fn new() -> (r: Registry<T>)
        ensures
            r.wf(),
            r.entries() == Seq::<RegistryEntry<T>>::empty(),
            r.view_map() == Map::<Seq<char>, T>::empty(),
    {
        let r = Registry { entries: Vec::new() };
        assert(r.view_map() =~= Map::<Seq<char>, T>::empty());
        r
    }

    /// The number of entries.
    pub fn len(&self) -> (r: usize)
        ensures
            r == self.entries().len(),
    {
        self.entries.len()
    }

    /// The entry at a position.
    pub fn entry_at(&self, i: usize) -> (r: &RegistryEntry<T>)
        requires
            i < self.entries().len(),
        ensures
            *r == self.entries()[i as int],
    {
        &self.entries[i]
    }

    /// The position of an identifier.
    pub fn find(&self, id: &str) -> (r: Option<usize>)
        requires
            self.wf(),
        ensures
            match r {
                Some(i) => entry_index(self.entries(), id@) == Some(i as int) && i
                    < self.entries().len(),
                None => entry_index(self.entries(), id@) is None,
            },
    {
        let mut i: usize = 0;
        while i < self.entries.len()
            invariant
                unique_ids(self.entries@),
                i <= self.entries@.len(),
                forall|j: int| 0 <= j < i ==> self.entries@[j].id@ != id@,
            decreases self.entries.len() - i,
        {
            if str_eq(self.entries[i].id.as_str(), id) {
                proof {
                    lemma_entry_index_of(self.entries@, id@, i as int);
                }
                return Some(i);
            }
            i = i + 1;
        }
        None
    }

    /// Whether an identifier is registered.
    pub fn contains(&self, id: &str) -> (r: bool)
        requires
            self.wf(),
        ensures
            r == self.view_map().dom().contains(id@),
    {
        self.find(id).is_some()
    }

    /// The value registered under an identifier.
    pub fn get(&self, id: &str) -> (r: Option<&T>)
        requires
            self.wf(),
        ensures
            match r {
                Some(v) => self.view_map().dom().contains(id@) && *v == self.view_map()[id@],
                None => !self.view_map().dom().contains(id@),
            },
    {
        match self.find(id) {
            Some(i) => Some(&self.entries[i].value),
            None => None,
        }
    }

    /// Register `value` under `id`, replacing any entry with that identifier.
    pub fn insert(&mut self, id: String, value: T)
        requires
            old(self).wf(),
        ensures
            final(self).wf(),
            final(self).view_map() == old(self).view_map().insert(id@, value),
    {
        let ghost old_entries = self.entries@;
        let ghost idv = id@;
        match self.find(id.as_str()) {
            Some(i) => {
                self.entries.set(i, RegistryEntry { id, value });
                proof {
                    let s = self.entries@;
                    assert forall|a: int, b: int|
                        0 <= a < s.len() && 0 <= b < s.len() && a != b implies s[a].id@
                        != s[b].id@ by {
                        assert(old_entries[i as int].id@ == idv);
                    }
                    lemma_entry_index_of(s, idv, i as int);
                    assert forall|other: Seq<char>| other != idv implies entry_index(s, other)
                        == entry_index(old_entries, other) by {
                        if entry_index(old_entries, other) is Some {
                            let j = choose|j: int| 0 <= j < old_entries.len() && old_entries[j].id@ == other;
                            assert(s[j].id@ == other);
                            lemma_entry_index_of(s, other, j);
                            lemma_entry_index_of(old_entries, other, j);
                        }
                        if entry_index(s, other) is Some {
                            let j = choose|j: int| 0 <= j < s.len() && s[j].id@ == other;
                            assert(old_entries[j].id@ == other);
                        }
                    }
                    assert(as_map(s) =~= as_map(old_entries).insert(idv, value));
                }
            },
            None => {
                self.entries.push(RegistryEntry { id, value });
                proof {
                    let s = self.entries@;
                    let n = old_entries.len() as int;
                    assert(s[n].id@ == idv);
                    assert forall|a: int, b: int|
                        0 <= a < s.len() && 0 <= b < s.len() && a != b implies s[a].id@
                        != s[b].id@ by {
                        if a == n {
                            assert(old_entries[b].id@ != idv);
                        } else if b == n {
                            assert(old_entries[a].id@ != idv);
                        }
                    }
                    lemma_entry_index_of(s, idv, n);
                    assert forall|other: Seq<char>| other != idv implies entry_index(s, other)
                        == entry_index(old_entries, other) by {
                        if entry_index(old_entries, other) is Some {
                            let j = choose|j: int| 0 <= j < old_entries.len() && old_entries[j].id@ == other;
                            assert(s[j].id@ == other);
                            lemma_entry_index_of(s, other, j);
                            lemma_entry_index_of(old_entries, other, j);
                        }
                        if entry_index(s, other) is Some {
                            let j = choose|j: int| 0 <= j < s.len() && s[j].id@ == other;
                            assert(j != n);
                            assert(old_entries[j].id@ == other);
                        }
                    }
                    assert(as_map(s) =~= as_map(old_entries).insert(idv, value));
                }
            },
        }
    }

    /// Register `value` under a fresh random identifier, which is returned.
    /// Should the identifier already be registered, its entry is replaced.
    pub fn insert_fresh(&mut self, value: T) -> (id: String)
        requires
            old(self).wf(),
        ensures
            final(self).wf(),
            final(self).view_map() == old(self).view_map().insert(id@, value),
            crate::ids::is_uuid_v4_text(id@),
    {
        let id = new_v4_string();
        let key = id.clone();
        self.insert(key, value);
        id
    }

    /// Remove the entry registered under `id`, returning its value.
    pub fn remove(&mut self, id: &str) -> (r: Result<T, NotRegistered>)
        requires
            old(self).wf(),
        ensures
            final(self).wf(),
            final(self).view_map() == old(self).view_map().remove(id@),
            match r {
                Ok(v) => old(self).view_map().dom().contains(id@) && v == old(self).view_map()[id@],
                Err(e) => !old(self).view_map().dom().contains(id@) && e.id@ == id@,
            },
    {
        let ghost old_entries = self.entries@;
        match self.find(id) {
            Some(i) => {
                let entry = self.entries.remove(i);
                proof {
                    let s = self.entries@;
                    assert forall|a: int, b: int|
                        0 <= a < s.len() && 0 <= b < s.len() && a != b implies s[a].id@
                        != s[b].id@ by {
                        let a2 = if a < i { a } else { a + 1 };
                        let b2 = if b < i { b } else { b + 1 };
                        assert(s[a] == old_entries[a2]);
                        assert(s[b] == old_entries[b2]);
                    }
                    assert forall|other: Seq<char>| other != id@ implies entry_index(s, other)
                        is Some == (entry_index(old_entries, other) is Some) && (entry_index(
                        s,
                        other,
                    ) is Some ==> s[entry_index(s, other)->0].value
                        == old_entries[entry_index(old_entries, other)->0].value) by {
                        if entry_index(old_entries, other) is Some {
                            let j = choose|j: int| 0 <= j < old_entries.len() && old_entries[j].id@ == other;
                            assert(j != i);
                            let j2 = if j < i { j } else { j - 1 };
                            assert(s[j2] == old_entries[j]);
                            lemma_entry_index_of(s, other, j2);
                            lemma_entry_index_of(old_entries, other, j);
                        }
                        if entry_index(s, other) is Some {
                            let j = choose|j: int| 0 <= j < s.len() && s[j].id@ == other;
                            let j2 = if j < i { j } else { j + 1 };
                            assert(s[j] == old_entries[j2]);
                        }
                    }
                    if entry_index(s, id@) is Some {
                        let j = choose|j: int| 0 <= j < s.len() && s[j].id@ == id@;
                        let j2 = if j < i { j } else { j + 1 };
                        assert(s[j] == old_entries[j2]);
                        assert(old_entries[i as int].id@ == id@);
                    }
                    assert(as_map(s) =~= as_map(old_entries).remove(id@));
                }
                Ok(entry.value)
            },
            None => {
                assert(as_map(self.entries@) =~= as_map(old_entries).remove(id@));
                Err(NotRegistered { id: id.to_owned() })
            },
        }
    }

    /// The registered identifiers, in registration order.
    pub fn ids(&self) -> (r: Vec<String>)
        requires
            self.wf(),
        ensures
            r@.len() == self.entries().len(),
            forall|i: int| 0 <= i < r@.len() ==> #[trigger] r@[i]@ == self.entries()[i].id@,
            forall|i: int| 0 <= i < r@.len() ==> self.view_map().dom().contains(#[trigger] r@[i]@),
            forall|id: Seq<char>|
                #[trigger] self.view_map().dom().contains(id) ==> exists|i: int|
                    0 <= i < r@.len() && r@[i]@ == id,
    {
        let mut r: Vec<String> = Vec::new();
        let mut i: usize = 0;
        while i < self.entries.len()
            invariant
                i <= self.entries@.len(),
                r@.len() == i,
                forall|j: int| 0 <= j < i ==> #[trigger] r@[j]@ == self.entries@[j].id@,
            decreases self.entries.len() - i,
        {
            r.push(self.entries[i].id.clone());
            i = i + 1;
        }
        proof {
            assert forall|i: int| 0 <= i < r@.len() implies self.view_map().dom().contains(
                #[trigger] r@[i]@,
            ) by {
                lemma_entry_index_of(self.entries@, r@[i]@, i);
            }
            assert forall|id: Seq<char>| #[trigger] self.view_map().dom().contains(id) implies exists|i: int|
                0 <= i < r@.len() && r@[i]@ == id by {
                let j = entry_index(self.entries@, id)->0;
                assert(r@[j]@ == id);
            }
        }
        r
    }
}

/// The position of an identifier held at a known index.
pub proof fn lemma_entry_index_of<T>(entries: Seq<RegistryEntry<T>>, id: Seq<char>, i: int)
    requires
        unique_ids(entries),
        0 <= i < entries.len(),
        entries[i].id@ == id,
    ensures
        entry_index(entries, id) == Some(i),
{
    let c = choose|j: int| 0 <= j < entries.len() && entries[j].id@ == id;
    if c != i {
        assert(entries[c].id@ != entries[i].id@);
    }
}

/// Registering then looking up an identifier finds the registered value;
/// every other identifier keeps its lookup.
pub proof fn lemma_insert_then_lookup<T>(m: Map<Seq<char>, T>, id: Seq<char>, value: T, other: Seq<char>)
    ensures
        m.insert(id, value).dom().contains(id),
        m.insert(id, value)[id] == value,
        other != id ==> (m.insert(id, value).dom().contains(other) == m.dom().contains(other)),
        other != id && m.dom().contains(other) ==> m.insert(id, value)[other] == m[other],
{
}

/// Removing an identifier twice fails the second time; removing what was just
/// registered succeeds and restores the earlier lookups of every other
/// identifier.
pub proof fn lemma_insert_then_remove<T>(m: Map<Seq<char>, T>, id: Seq<char>, value: T)
    ensures
        m.insert(id, value).dom().contains(id),
        !m.insert(id, value).remove(id).dom().contains(id),
        m.insert(id, value).remove(id) == m.remove(id),
{
    assert(m.insert(id, value).remove(id) =~= m.remove(id));
}

} // verus!
