//! A small map with keys that are compared, not hashed.

use vstd::prelude::*;

verus! {

/// What can be a key: something with an identity that can be compared.
pub trait RegistryKey: Sized {
    type Id;

    spec fn id(&self) -> Self::Id;

    fn same(&self, other: &Self) -> (r: bool)
        ensures
            r == (self.id() == other.id()),
    ;
}

impl RegistryKey for String {
    type Id = Seq<char>;

    open spec fn id(&self) -> Seq<char> {
        self@
    }

    fn same(&self, other: &Self) -> (r: bool) {
        *self == *other
    }
}

/// A piece of a torrent.
#[derive(Debug, Clone, PartialEq, Eq)]
pub struct PieceKey {
    pub info_hash: String,
    pub piece: i32,
}

impl RegistryKey for PieceKey {
    type Id = (Seq<char>, i32);

    open spec fn id(&self) -> (Seq<char>, i32) {
        (self.info_hash@, self.piece)
    }

    fn same(&self, other: &Self) -> (r: bool) {
        self.piece == other.piece && self.info_hash == other.info_hash
    }
}

/// Values by key, each key at most once.
#[derive(Debug)]
pub struct Registry<K, V> {
    pub entries: Vec<(K, V)>,
}

impl<K: RegistryKey, V> Registry<K, V> {
    /// Whether no key occurs twice.
    pub open spec fn wf(&self) -> bool {
        forall|i: int, j: int|
            0 <= i < j < self.entries@.len() ==> (#[trigger] self.entries@[i]).0.id()
                != (#[trigger] self.entries@[j]).0.id()
    }

    /// Whether entry `i` has the key.
    pub open spec fn holds_at(&self, i: int, id: K::Id) -> bool {
        0 <= i < self.entries@.len() && self.entries@[i].0.id() == id
    }

    /// Whether some entry has the key.
    pub open spec fn has(&self, id: K::Id) -> bool {
        exists|i: int| self.holds_at(i, id)
    }

    /// Where the key is.
    pub open spec fn place(&self, id: K::Id) -> int {
        choose|i: int| self.holds_at(i, id)
    }
}

impl<K: RegistryKey, V> View for Registry<K, V> {
    type V = Map<K::Id, V>;

    open spec fn view(&self) -> Map<K::Id, V> {
        Map::new(|id: K::Id| self.has(id), |id: K::Id| self.entries@[self.place(id)].1)
    }
}

impl<K: RegistryKey, V> Registry<K, V> {
    /// Each entry is found under its key.
    pub proof fn lemma_entry(&self, i: int)
        requires
            self.wf(),
            0 <= i < self.entries@.len(),
        ensures
            self@.contains_key(self.entries@[i].0.id()),
            self@[self.entries@[i].0.id()] == self.entries@[i].1,
    {
        let id = self.entries@[i].0.id();
        assert(self.holds_at(i, id));
        let at = self.place(id);
        assert(self.holds_at(at, id));
        assert(at == i);
    }

    /// A map without entries.
    pub fn new() -> (r: Self)
        ensures
            r.wf(),
            r@ == Map::<K::Id, V>::empty(),
            r.entries@.len() == 0,
    {
        let r = Registry { entries: Vec::new() };
        assert(r@ =~= Map::<K::Id, V>::empty());
        r
    }

    /// Finds a key.
    pub fn find(&self, key: &K) -> (r: Option<usize>)
        requires
            self.wf(),
        ensures
            match r {
                Some(i) => {
                    &&& i < self.entries@.len()
                    &&& self.entries@[i as int].0.id() == key.id()
                    &&& self@.contains_key(key.id())
                    &&& self@[key.id()] == self.entries@[i as int].1
                },
                None => !self@.contains_key(key.id()),
            },
    {
        let mut i: usize = 0;
        while i < self.entries.len()
            invariant
                i <= self.entries@.len(),
                self.wf(),
                forall|j: int| 0 <= j < i ==> (#[trigger] self.entries@[j]).0.id() != key.id(),
            decreases self.entries@.len() - i,
        {
            if self.entries[i].0.same(key) {
                proof {
                    self.lemma_entry(i as int);
                }
                return Some(i);
            }
            i += 1;
        }
        assert(!self@.contains_key(key.id())) by {
            if self@.contains_key(key.id()) {
                let at = self.place(key.id());
                assert(self.holds_at(at, key.id()));
            }
        }
        None
    }

    /// Adds a value under a new key, at the end.
    pub fn insert(&mut self, key: K, value: V)
        requires
            old(self).wf(),
            !old(self)@.contains_key(key.id()),
        ensures
            final(self).wf(),
            final(self)@ == old(self)@.insert(key.id(), value),
            final(self).entries@ == old(self).entries@.push((key, value)),
    {
        let ghost id = key.id();
        let ghost before = *self;
        assert forall|i: int| 0 <= i < before.entries@.len() implies (
        #[trigger] before.entries@[i]).0.id() != id by {
            if before.entries@[i].0.id() == id {
                before.lemma_entry(i);
            }
        }
        self.entries.push((key, value));
        proof {
            assert(self.wf());
            assert forall|other: K::Id| #[trigger] self@.contains_key(other) == before@.insert(
                id,
                value,
            ).contains_key(other) by {
                if self@.contains_key(other) {
                    let at = self.place(other);
                    assert(self.holds_at(at, other));
                    if at < before.entries@.len() {
                        assert(before.holds_at(at, other));
                    }
                }
                if before@.contains_key(other) {
                    let at = before.place(other);
                    assert(before.holds_at(at, other));
                    assert(self.holds_at(at, other));
                }
                if other == id {
                    assert(self.holds_at(before.entries@.len() as int, other));
                }
            }
            assert forall|other: K::Id| #[trigger] self@.contains_key(other) implies self@[other]
                == before@.insert(id, value)[other] by {
                let at = self.place(other);
                assert(self.holds_at(at, other));
                self.lemma_entry(at);
                if at < before.entries@.len() {
                    before.lemma_entry(at);
                }
            }
            assert(self@ =~= before@.insert(id, value));
        }
    }

    /// Takes the entry at `i` out.
    pub fn remove_at(&mut self, i: usize) -> (r: V)
        requires
            old(self).wf(),
            i < old(self).entries@.len(),
        ensures
            final(self).wf(),
            r == old(self).entries@[i as int].1,
            final(self)@ == old(self)@.remove(old(self).entries@[i as int].0.id()),
            final(self).entries@ == old(self).entries@.remove(i as int),
    {
        let ghost before = *self;
        let ghost id = self.entries@[i as int].0.id();
        let (_, value) = self.entries.remove(i);
        proof {
            let after = self.entries@;
            assert forall|k: int| 0 <= k < after.len() implies after[k] == before.entries@[if k < i {
                k
            } else {
                k + 1
            }] by {}
            assert(self.wf());
            assert forall|other: K::Id| #[trigger] self@.contains_key(other) == before@.remove(
                id,
            ).contains_key(other) by {
                if self@.contains_key(other) {
                    let at = self.place(other);
                    assert(self.holds_at(at, other));
                    let was = if at < i {
                        at
                    } else {
                        at + 1
                    };
                    assert(before.holds_at(was, other));
                    before.lemma_entry(was);
                    assert(other != id);
                }
                if before@.contains_key(other) && other != id {
                    let was = before.place(other);
                    assert(before.holds_at(was, other));
                    assert(self.holds_at(
                        if was < i {
                            was
                        } else {
                            was - 1
                        },
                        other,
                    ));
                }
            }
            assert forall|other: K::Id| #[trigger] self@.contains_key(other) implies self@[other]
                == before@.remove(id)[other] by {
                let at = self.place(other);
                assert(self.holds_at(at, other));
                self.lemma_entry(at);
                before.lemma_entry(
                    if at < i {
                        at
                    } else {
                        at + 1
                    },
                );
            }
            assert(self@ =~= before@.remove(id));
        }
        value
    }

    /// Takes a key out.
    pub fn remove(&mut self, key: &K) -> (r: Option<V>)
        requires
            old(self).wf(),
        ensures
            final(self).wf(),
            final(self)@ == old(self)@.remove(key.id()),
            r == (if old(self)@.contains_key(key.id()) {
                Some(old(self)@[key.id()])
            } else {
                None
            }),
    {
        match self.find(key) {
            Some(i) => Some(self.remove_at(i)),
            None => {
                assert(self@ =~= old(self)@.remove(key.id()));
                None
            },
        }
    }

    /// The value under a key.
    pub fn get(&self, key: &K) -> (r: Option<&V>)
        requires
            self.wf(),
        ensures
            match r {
                Some(value) => self@.contains_key(key.id()) && *value == self@[key.id()],
                None => !self@.contains_key(key.id()),
            },
    {
        match self.find(key) {
            Some(i) => Some(&self.entries[i].1),
            None => None,
        }
    }

    /// The value at `i`, to be changed in place.
    pub fn value_at(&mut self, i: usize) -> (r: &mut V)
        requires
            old(self).wf(),
            i < old(self).entries@.len(),
        ensures
            *r == old(self).entries@[i as int].1,
            final(self).entries@ == old(self).entries@.update(
                i as int,
                (old(self).entries@[i as int].0, *final(r)),
            ),
    {
        &mut self.entries[i].1
    }

    /// Changing a value in place changes nothing else.
    pub proof fn lemma_updated(before: &Self, after: &Self, i: int, value: V)
        requires
            before.wf(),
            0 <= i < before.entries@.len(),
            after.entries@ == before.entries@.update(i, (before.entries@[i].0, value)),
        ensures
            after.wf(),
            after@ == before@.insert(before.entries@[i].0.id(), value),
    {
        let id = before.entries@[i].0.id();
        assert forall|k: int| 0 <= k < after.entries@.len() implies (
        #[trigger] after.entries@[k]).0.id() == before.entries@[k].0.id() by {}
        assert forall|other: K::Id| #[trigger] after@.contains_key(other) == before@.insert(
            id,
            value,
        ).contains_key(other) by {
            if after@.contains_key(other) {
                let at = after.place(other);
                assert(after.holds_at(at, other));
                assert(before.holds_at(at, other));
            }
            if before@.contains_key(other) {
                let at = before.place(other);
                assert(before.holds_at(at, other));
                assert(after.holds_at(at, other));
            }
            if other == id {
                assert(after.holds_at(i, other));
            }
        }
        assert forall|other: K::Id| #[trigger] after@.contains_key(other) implies after@[other]
            == before@.insert(id, value)[other] by {
            let at = after.place(other);
            assert(after.holds_at(at, other));
            after.lemma_entry(at);
            before.lemma_entry(at);
        }
        assert(after@ =~= before@.insert(id, value));
    }
}

/// A registry finds what was put under an identity, and nothing else.
pub proof fn law_registry_finds_what_it_holds<K: RegistryKey, V>(
    registry: &Registry<K, V>,
    key: &K,
    place: Option<usize>,
    value: Option<&V>,
    fresh: Registry<K, V>,
)
    requires
        call_ensures(Registry::<K, V>::find, (registry, key), place),
        call_ensures(Registry::<K, V>::get, (registry, key), value),
        call_ensures(Registry::<K, V>::new, (), fresh),
    ensures
        place is Some <==> registry@.contains_key(key.id()),
        value is Some <==> registry@.contains_key(key.id()),
        place matches Some(i) ==> registry.entries@[i as int].0.id() == key.id(),
        value matches Some(value) ==> *value == registry@[key.id()],
        !fresh@.contains_key(key.id()),
{
}

/// What is put in is there, what is taken out is handed over and gone, and what
/// stands under another identity stays.
pub proof fn law_registry_changes_one_entry<K: RegistryKey, V>(
    key: K,
    value: V,
    taken: Option<V>,
    other: K::Id,
)
    requires
        other != key.id(),
    ensures
        forall|registry: &mut Registry<K, V>| #[trigger]
            call_ensures(Registry::<K, V>::insert, (registry, key, value), ()) ==> {
                let before = (*registry)@;
                let after = (*final(registry))@;
                &&& after.contains_key(key.id()) && after[key.id()] == value
                &&& after.contains_key(other) <==> before.contains_key(other)
                &&& before.contains_key(other) ==> after[other] == before[other]
            },
        forall|registry: &mut Registry<K, V>| #[trigger]
            call_ensures(Registry::<K, V>::remove, (registry, &key), taken) ==> {
                let before = (*registry)@;
                let after = (*final(registry))@;
                &&& !after.contains_key(key.id())
                &&& before.contains_key(key.id()) ==> taken == Some(before[key.id()])
                &&& !before.contains_key(key.id()) ==> taken is None
                &&& after.contains_key(other) <==> before.contains_key(other)
                &&& before.contains_key(other) ==> after[other] == before[other]
            },
{
}

} // verus!
