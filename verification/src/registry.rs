//! Registries of devices keyed by a one-byte device id.
//!
//! A registry plays the part of the lists of sensors and fans that the
//! thermal services keep: a device can be registered once per id, and is
//! found again by its id.

use vstd::prelude::*;

verus! {

/// Registration error.
#[derive(Debug, Clone, Copy, PartialEq, Eq, Structural)]
pub enum Error {
    /// A device with the same id is already registered.
    NodeAlreadyInList,
}

/// Whether `id` is the id of some entry of `entries`.
pub open spec fn has_id<D>(entries: Seq<(u8, D)>, id: u8) -> bool {
    exists|i: int| 0 <= i < entries.len() && (#[trigger] entries[i]).0 == id
}

/// The device registered under `id`, if any (the first entry with that id).
pub open spec fn find_id<D>(entries: Seq<(u8, D)>, id: u8) -> Option<D>
    decreases entries.len(),
{
    if entries.len() == 0 {
        None
    } else if entries[0].0 == id {
        Some(entries[0].1)
    } else {
        find_id(entries.drop_first(), id)
    }
}

/// No two entries share an id.
pub open spec fn ids_unique<D>(entries: Seq<(u8, D)>) -> bool {
    forall|i: int, j: int|
        0 <= i < entries.len() && 0 <= j < entries.len() && i != j ==> #[trigger] entries[i].0
            != #[trigger] entries[j].0
}

/// `find_id` finds exactly the registered ids.
pub proof fn lemma_find_id<D>(entries: Seq<(u8, D)>, id: u8)
    ensures
        find_id(entries, id) is Some <==> has_id(entries, id),
        find_id(entries, id) matches Some(d) ==> exists|i: int|
            0 <= i < entries.len() && (#[trigger] entries[i]).0 == id && entries[i].1 == d,
    decreases entries.len(),
{
    if entries.len() > 0 {
        lemma_find_id(entries.drop_first(), id);
        if entries[0].0 != id {
            if has_id(entries, id) {
                let i = choose|i: int| 0 <= i < entries.len() && (#[trigger] entries[i]).0 == id;
                assert(entries.drop_first()[i - 1].0 == id);
            }
            if has_id(entries.drop_first(), id) {
                let i = choose|i: int|
                    0 <= i < entries.drop_first().len() && (#[trigger] entries.drop_first()[i]).0
                        == id;
                assert(entries[i + 1].0 == id);
            }
            if let Some(d) = find_id(entries, id) {
                let i = choose|i: int|
                    0 <= i < entries.drop_first().len() && (#[trigger] entries.drop_first()[i]).0
                        == id && entries.drop_first()[i].1 == d;
                assert(entries[i + 1].0 == id);
            }
        } else {
            assert(entries[0].0 == id);
        }
    }
}

/// Looking an id up after appending an entry with a fresh id: the new entry
/// is found under its own id and every other id finds what it found before.
pub proof fn lemma_find_id_push<D>(entries: Seq<(u8, D)>, id: u8, device: D, other: u8)
    requires
        !has_id(entries, id),
    ensures
        find_id(entries.push((id, device)), other) == if other == id {
            Some(device)
        } else {
            find_id(entries, other)
        },
    decreases entries.len(),
{
    if entries.len() == 0 {
        assert(entries.push((id, device)).drop_first() =~= Seq::<(u8, D)>::empty());
    } else {
        assert(entries.push((id, device)).drop_first() =~= entries.drop_first().push((id, device)));
        assert(entries[0].0 != id);
        if has_id(entries.drop_first(), id) {
            let i = choose|i: int|
                0 <= i < entries.drop_first().len() && (#[trigger] entries.drop_first()[i]).0 == id;
            assert(entries[i + 1].0 == id);
        }
        lemma_find_id_push(entries.drop_first(), id, device, other);
    }
}

/// Law: once a device is registered under a fresh id, looking that id up
/// finds it, and looking up any other id finds what it found before.
pub proof fn lemma_register_then_find<D>(entries: Seq<(u8, D)>, id: u8, device: D, other: u8)
    requires
        !has_id(entries, id),
    ensures
        find_id(entries.push((id, device)), id) == Some(device),
        other != id ==> find_id(entries.push((id, device)), other) == find_id(entries, other),
{
    lemma_find_id_push(entries, id, device, id);
    lemma_find_id_push(entries, id, device, other);
}

/// Devices registered by id, in registration order.
pub struct Registry<D> {
    entries: Vec<(u8, D)>,
}

impl<D> Registry<D> {
    /// The registered `(id, device)` pairs, in registration order.
    pub closed spec fn view(&self) -> Seq<(u8, D)> {
        self.entries@
    }

    /// No id is registered twice.
    #[verifier::type_invariant]
    spec fn ids_distinct(self) -> bool {
        ids_unique(self.entries@)
    }

    /// An empty registry.
    pub fn new() -> (r: Self)
        ensures
            r.view() == Seq::<(u8, D)>::empty(),
    {
        Registry { entries: Vec::new() }
    }

    /// The number of registered devices.
    pub fn len(&self) -> (r: usize)
        ensures
            r == self.view().len(),
            ids_unique(self.view()),
    {
        proof {
            use_type_invariant(self);
        }
        self.entries.len()
    }

    /// Whether a device is registered under `id`.
    pub fn contains(&self, id: u8) -> (r: bool)
        ensures
            r == has_id(self.view(), id),
    {
        let mut i: usize = 0;
        while i < self.entries.len()
            invariant
                i <= self.entries@.len(),
                forall|j: int| 0 <= j < i ==> (#[trigger] self.entries@[j]).0 != id,
            decreases self.entries@.len() - i,
        {
            if self.entries[i].0 == id {
                return true;
            }
            i = i + 1;
        }
        false
    }

    /// The registered devices, in registration order.
    pub fn devices(&self) -> (r: Vec<&D>)
        ensures
            r@.len() == self.view().len(),
            forall|i: int| 0 <= i < r@.len() ==> *(#[trigger] r@[i]) == self.view()[i].1,
    {
        let mut r: Vec<&D> = Vec::new();
        let mut i: usize = 0;
        while i < self.entries.len()
            invariant
                i <= self.entries@.len(),
                r@.len() == i,
                forall|j: int| 0 <= j < i ==> *(#[trigger] r@[j]) == self.entries@[j].1,
            decreases self.entries@.len() - i,
        {
            r.push(&self.entries[i].1);
            i = i + 1;
        }
        r
    }

    /// The device registered under `id`, if any.
    pub fn get(&self, id: u8) -> (r: Option<&D>)
        ensures
            r matches Some(d) ==> find_id(self.view(), id) == Some(*d),
            r is None ==> find_id(self.view(), id) is None,
            r is Some <==> has_id(self.view(), id),
    {
        proof {
            lemma_find_id(self.view(), id);
            assert(self.entries@.skip(0) =~= self.entries@);
        }
        let mut i: usize = 0;
        while i < self.entries.len()
            invariant
                i <= self.entries@.len(),
                forall|j: int| 0 <= j < i ==> (#[trigger] self.entries@[j]).0 != id,
                find_id(self.entries@, id) == find_id(self.entries@.skip(i as int), id),
            decreases self.entries@.len() - i,
        {
            assert(self.entries@.skip(i as int).drop_first() =~= self.entries@.skip(i + 1));
            if self.entries[i].0 == id {
                return Some(&self.entries[i].1);
            }
            i = i + 1;
        }
        proof {
            assert(self.entries@.skip(i as int).len() == 0);
        }
        None
    }

    /// Registers `device` under `id`, unless a device is already registered
    /// under that id.
    pub fn register(&mut self, id: u8, device: D) -> (r: Result<(), Error>)
        ensures
            ids_unique(old(self).view()),
            ids_unique(final(self).view()),
            has_id(old(self).view(), id) ==> r == Err::<(), Error>(Error::NodeAlreadyInList)
                && final(self).view() == old(self).view(),
            !has_id(old(self).view(), id) ==> r == Ok::<(), Error>(())
                && final(self).view() == old(self).view().push((id, device)),
    {
        proof {
            use_type_invariant(&*self);
        }
        if self.contains(id) {
            return Err(Error::NodeAlreadyInList);
        }
        let mut entries: Vec<(u8, D)> = Vec::new();
        std::mem::swap(&mut entries, &mut self.entries);
        entries.push((id, device));
        proof {
            let s = entries@;
            assert forall|i: int, j: int|
                0 <= i < s.len() && 0 <= j < s.len() && i != j implies #[trigger] s[i].0
                != #[trigger] s[j].0 by {
                if i == s.len() - 1 {
                    assert(old(self).view()[j].0 != id);
                } else if j == s.len() - 1 {
                    assert(old(self).view()[i].0 != id);
                }
            }
        }
        std::mem::swap(&mut entries, &mut self.entries);
        Ok(())
    }
}

} // verus!
