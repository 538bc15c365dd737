//! Storage of live resources of one kind, indexed by handle.
use vstd::prelude::*;

use crate::id::{Backend, Id, IdView};
use crate::identity::InvalidHandle;

verus! {

/// The live resources of one kind on one backend. Each slot holds the epoch
/// of its occupant and the occupant itself.
pub struct Registry<T> {
    backend: Backend,
    slots: Vec<Option<(u32, T)>>,
}

impl<T> Registry<T> {
    /// The occupied slots: index to (epoch, value).
    pub closed spec fn entries(&self) -> Map<u32, (u32, T)> {
        Map::new(
            |i: u32| (i as int) < self.slots@.len() && self.slots@[i as int] is Some,
            |i: u32| self.slots@[i as int]->Some_0,
        )
    }

    /// The backend this registry serves.
    pub closed spec fn backend_spec(&self) -> Backend {
        self.backend
    }

    /// What `id` resolves to: the occupant of its slot, when the slot is
    /// occupied at the id's epoch and the id names this registry's backend.
    pub open spec fn lookup(&self, id: IdView) -> Option<T> {
        if id.backend == self.backend_spec() && self.entries().contains_key(id.index)
            && self.entries()[id.index].0 == id.epoch {
            Some(self.entries()[id.index].1)
        } else {
            None
        }
    }

    pub fn new(backend: Backend) -> (r: Registry<T>)
        ensures
            r.backend_spec() == backend,
            r.entries() == Map::<u32, (u32, T)>::empty(),
    {
        let r = Registry { backend, slots: Vec::new() };
        assert(r.entries() =~= Map::<u32, (u32, T)>::empty());
        r
    }

    pub fn backend(&self) -> (r: Backend)
        ensures
            r == self.backend_spec(),
    {
        self.backend
    }

    /// Whether the slot of `index` has an occupant.
    pub fn is_occupied(&self, index: u32) -> (r: bool)
        ensures
            r == self.entries().contains_key(index),
    {
        (index as usize) < self.slots.len() && self.slots[index as usize].is_some()
    }

    /// Binds `value` to `id`. Fails, changing nothing, when `id` names another
    /// backend or its slot is occupied.
    pub fn register(&mut self, id: Id, value: T) -> (r: Result<(), InvalidHandle>)
        ensures
            final(self).backend_spec() == old(self).backend_spec(),
            r is Ok <==> id@.backend == old(self).backend_spec() && !old(self).entries().contains_key(
                id@.index,
            ),
            r is Ok ==> final(self).entries() == old(self).entries().insert(id@.index, (id@.epoch, value)),
            r is Err ==> final(self).entries() == old(self).entries(),
    {
        let (index, epoch, backend) = id.unzip();
        if backend != self.backend || self.is_occupied(index) {
            return Err(InvalidHandle);
        }
        let ghost old_entries = self.entries();
        while self.slots.len() <= index as usize
            invariant
                self.backend == old(self).backend,
                old_entries == old(self).entries(),
                self.entries() == old_entries,
                !self.entries().contains_key(index),
            decreases index as int + 1 - self.slots@.len(),
        {
            let ghost before = self.slots@;
            self.slots.push(None);
            assert(self.entries() =~= old_entries) by {
                assert forall|i: u32| #[trigger] self.entries().contains_key(i) implies (i as int) < before.len() by {
                }
            }
        }
        self.slots.set(index as usize, Some((epoch, value)));
        assert(self.entries() =~= old_entries.insert(index, (epoch, value)));
        Ok(())
    }

    /// The occupant that `id` resolves to.
    pub fn get(&self, id: Id) -> (r: Result<&T, InvalidHandle>)
        ensures
            r is Ok <==> self.lookup(id@) is Some,
            r matches Ok(v) ==> Some(*v) == self.lookup(id@),
    {
        let (index, epoch, backend) = id.unzip();
        if backend != self.backend || index as usize >= self.slots.len() {
            return Err(InvalidHandle);
        }
        match &self.slots[index as usize] {
            Some(slot) => {
                if slot.0 == epoch {
                    Ok(&slot.1)
                } else {
                    Err(InvalidHandle)
                }
            },
            None => Err(InvalidHandle),
        }
    }

    /// Whether `id` resolves.
    pub fn contains(&self, id: Id) -> (r: bool)
        ensures
            r == self.lookup(id@) is Some,
    {
        self.get(id).is_ok()
    }

    /// Removes the occupant that `id` resolves to and hands it back; the slot
    /// becomes free. Fails, changing nothing, when `id` does not resolve.
    pub fn unregister(&mut self, id: Id) -> (r: Result<T, InvalidHandle>)
        ensures
            final(self).backend_spec() == old(self).backend_spec(),
            r is Ok <==> old(self).lookup(id@) is Some,
            r matches Ok(v) ==> Some(v) == old(self).lookup(id@) && final(self).entries()
                == old(self).entries().remove(id@.index),
            r is Err ==> final(self).entries() == old(self).entries(),
    {
        let (index, epoch, backend) = id.unzip();
        if backend != self.backend || index as usize >= self.slots.len() {
            return Err(InvalidHandle);
        }
        let matches_epoch = match &self.slots[index as usize] {
            Some(slot) => slot.0 == epoch,
            None => false,
        };
        if !matches_epoch {
            return Err(InvalidHandle);
        }
        let mut taken: Option<(u32, T)> = None;
        self.slots.set_and_swap(index as usize, &mut taken);
        assert(self.entries() =~= old(self).entries().remove(index));
        match taken {
            Some(slot) => Ok(slot.1),
            None => Err(InvalidHandle),
        }
    }
}

} // verus!
