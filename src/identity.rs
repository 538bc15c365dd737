//! Allocation of resource indices and epochs.
use vstd::prelude::*;

use crate::id::{Backend, Id};
use crate::id_bits::{lemma_mask_epoch, EPOCH_MASK};

verus! {

/// The generation that follows `e`; it wraps at the epoch mask.
pub open spec fn next_epoch(e: u32) -> u32 {
    if e >= EPOCH_MASK {
        0
    } else {
        (e + 1) as u32
    }
}

/// Hands out `(index, epoch)` pairs: freed indices are reused with a bumped epoch.
pub struct IdentityManager {
    free: Vec<u32>,
    epochs: Vec<u32>,
}

/// Why a handle was refused.
#[derive(Clone, Copy, Debug, PartialEq, Eq, Structural)]
pub struct InvalidHandle;

impl IdentityManager {
    /// The indices waiting to be reused, the last one first.
    pub closed spec fn free_list(&self) -> Seq<u32> {
        self.free@
    }

    /// The current epoch of every index that was ever handed out.
    pub closed spec fn epochs(&self) -> Seq<u32> {
        self.epochs@
    }

    /// An index is live when it was handed out and not freed since.
    pub open spec fn is_live(&self, index: u32) -> bool {
        index < self.epochs().len() && !self.free_list().contains(index)
    }

    pub open spec fn wf(&self) -> bool {
        &&& self.epochs().len() <= 0x1_0000_0000
        &&& forall|i: int| 0 <= i < self.free_list().len() ==> self.free_list()[i] < self.epochs().len()
        &&& forall|i: int| 0 <= i < self.epochs().len() ==> self.epochs()[i] <= EPOCH_MASK
        &&& forall|i: int, j: int|
            0 <= i < j < self.free_list().len() ==> self.free_list()[i] != self.free_list()[j]
    }

    /// Whether one more id can be handed out.
    pub open spec fn can_alloc(&self) -> bool {
        self.free_list().len() > 0 || self.epochs().len() < 0xffff_ffff
    }

    /// The index and epoch that the next [`IdentityManager::allocate`] hands out.
    pub open spec fn next_alloc(&self) -> (u32, u32) {
        if self.free_list().len() > 0 {
            (self.free_list().last(), self.epochs()[self.free_list().last() as int])
        } else {
            (self.epochs().len() as u32, 1)
        }
    }

    /// Whether one more id can be handed out.
    pub fn has_capacity(&self) -> (r: bool)
        ensures
            r == self.can_alloc(),
    {
        self.free.len() > 0 || self.epochs.len() < 0xffff_ffff
    }

    pub fn new() -> (r: IdentityManager)
        ensures
            r.wf(),
            r.free_list() == Seq::<u32>::empty(),
            r.epochs() == Seq::<u32>::empty(),
    {
        IdentityManager { free: Vec::new(), epochs: Vec::new() }
    }

    /// Hands out an id for `backend`: the most recently freed index with its
    /// current epoch, or else a fresh index with epoch 1.
    pub fn allocate(&mut self, backend: Backend) -> (r: Id)
        requires
            old(self).wf(),
            old(self).can_alloc(),
        ensures
            final(self).wf(),
            r@.backend == backend,
            (r@.index, r@.epoch) == old(self).next_alloc(),
            !old(self).is_live(r@.index),
            final(self).is_live(r@.index),
            old(self).free_list().len() > 0 ==> {
                &&& r@.index == old(self).free_list().last()
                &&& r@.epoch == old(self).epochs()[r@.index as int]
                &&& final(self).free_list() == old(self).free_list().drop_last()
                &&& final(self).epochs() == old(self).epochs()
            },
            old(self).free_list().len() == 0 ==> {
                &&& r@.index == old(self).epochs().len()
                &&& r@.epoch == 1
                &&& final(self).free_list() == old(self).free_list()
                &&& final(self).epochs() == old(self).epochs().push(1)
            },
    {
        match self.free.pop() {
            Some(index) => {
                let e = self.epochs[index as usize];
                proof {
                    lemma_mask_epoch(e);
                }
                let r = Id::zip(index, e, backend);
                proof {
                    assert(self.free@ =~= old(self).free@.drop_last());
                    assert(old(self).free@[old(self).free@.len() - 1] == index);
                    assert(!self.free@.contains(index)) by {
                        if self.free@.contains(index) {
                            let j = choose|j: int| 0 <= j < self.free@.len() && self.free@[j] == index;
                            assert(old(self).free@[j] == old(self).free@[old(self).free@.len() - 1]);
                        }
                    }
                }
                r
            },
            None => {
                let index = self.epochs.len() as u32;
                self.epochs.push(1);
                proof {
                    lemma_mask_epoch(1);
                    assert forall|i: int| 0 <= i < self.free@.len() implies self.free@[i] < self.epochs@.len() by {
                    }
                }
                Id::zip(index, 1, backend)
            },
        }
    }

    /// Returns `id`'s index to the pool and bumps its epoch. Fails, changing
    /// nothing, when the index is not live or the epoch is not its current one.
    pub fn free(&mut self, id: Id) -> (r: Result<(), InvalidHandle>)
        requires
            old(self).wf(),
        ensures
            final(self).wf(),
            r is Ok <==> old(self).is_live(id@.index) && old(self).epochs()[id@.index as int] == id@.epoch,
            r is Ok ==> {
                &&& final(self).free_list() == old(self).free_list().push(id@.index)
                &&& final(self).epochs() == old(self).epochs().update(id@.index as int, next_epoch(id@.epoch))
                &&& final(self).epochs()[id@.index as int] != id@.epoch
            },
            r is Err ==> *final(self) == *old(self),
    {
        let index = id.index();
        if index as usize >= self.epochs.len() {
            return Err(InvalidHandle);
        }
        let mut k: usize = 0;
        while k < self.free.len()
            invariant
                *self == *old(self),
                self.wf(),
                (index as int) < self.epochs@.len(),
                index == id@.index,
                k <= self.free@.len(),
                forall|j: int| 0 <= j < k ==> self.free@[j] != index,
            decreases self.free@.len() - k,
        {
            if self.free[k] == index {
                return Err(InvalidHandle);
            }
            k += 1;
        }
        let e = self.epochs[index as usize];
        if e != id.epoch() {
            return Err(InvalidHandle);
        }
        let next: u32 = if e >= EPOCH_MASK {
            0
        } else {
            e + 1
        };
        self.epochs.set(index as usize, next);
        self.free.push(index);
        proof {
            assert(self.free@ == old(self).free@.push(index));
            assert(self.epochs@.len() == old(self).epochs@.len());
            assert(!old(self).free@.contains(index)) by {
                if old(self).free@.contains(index) {
                    let j = choose|j: int| 0 <= j < old(self).free@.len() && old(self).free@[j] == index;
                    assert(old(self).free@[j] != index);
                }
            }
            assert forall|i: int| 0 <= i < self.free@.len() implies self.free@[i] < self.epochs@.len() by {
                if i < old(self).free@.len() {
                    assert(self.free@[i] == old(self).free@[i]);
                    assert(old(self).free_list()[i] < old(self).epochs().len());
                }
            }
            assert forall|i: int, j: int| 0 <= i < j < self.free@.len() implies self.free@[i] != self.free@[j] by {
                if j < old(self).free@.len() {
                    assert(self.free@[i] == old(self).free@[i]);
                    assert(self.free@[j] == old(self).free@[j]);
                    assert(old(self).free_list()[i] != old(self).free_list()[j]);
                } else {
                    assert(self.free@[i] == old(self).free@[i]);
                    assert(old(self).free@.contains(self.free@[i]));
                }
            }
        }
        Ok(())
    }
}

} // verus!
