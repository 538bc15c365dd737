//! Typed resource handles: an index, a generation (epoch) and a backend tag,
//! packed into one 64-bit word.
use vstd::prelude::*;

use crate::id_bits::{lemma_epoch_bits_fit, lemma_mask_epoch, lemma_unpack, pack, EPOCH_MASK};

verus! {

/// One native graphics backend that a resource lives on.
#[derive(Clone, Copy, Debug, PartialEq, Eq, Structural)]
pub enum Backend {
    Vulkan,
    Metal,
    Dx12,
    Dx11,
}

/// The three-bit tag that stands for a backend inside a packed id.
pub open spec fn backend_tag(b: Backend) -> u64 {
    match b {
        Backend::Vulkan => 1,
        Backend::Metal => 2,
        Backend::Dx12 => 3,
        Backend::Dx11 => 4,
    }
}

/// The backend that a tag stands for, if any.
pub open spec fn backend_of_tag(t: u64) -> Option<Backend> {
    if t == 1 {
        Some(Backend::Vulkan)
    } else if t == 2 {
        Some(Backend::Metal)
    } else if t == 3 {
        Some(Backend::Dx12)
    } else if t == 4 {
        Some(Backend::Dx11)
    } else {
        None
    }
}

impl Backend {
    /// The tag of this backend.
    pub fn tag(&self) -> (r: u64)
        ensures
            r == backend_tag(*self),
    {
        match self {
            Backend::Vulkan => 1,
            Backend::Metal => 2,
            Backend::Dx12 => 3,
            Backend::Dx11 => 4,
        }
    }

    /// The backend with the given tag; `None` for a tag that names no backend.
    pub fn from_tag(t: u64) -> (r: Option<Backend>)
        ensures
            r == backend_of_tag(t),
    {
        if t == 1 {
            Some(Backend::Vulkan)
        } else if t == 2 {
            Some(Backend::Metal)
        } else if t == 3 {
            Some(Backend::Dx12)
        } else if t == 4 {
            Some(Backend::Dx11)
        } else {
            None
        }
    }
}

/// The abstract content of a handle.
pub struct IdView {
    pub index: u32,
    pub epoch: u32,
    pub backend: Backend,
}

/// A resource handle. Its top three bits always name a backend.
#[derive(Clone, Copy, Debug, PartialEq, Eq, Structural)]
pub struct Id {
    raw: u64,
}

pub type BufferId = Id;

pub type TextureId = Id;

pub type TextureViewId = Id;

pub type SamplerId = Id;

pub type SwapChainId = Id;

pub type BindGroupLayoutId = Id;

pub type PipelineLayoutId = Id;

pub type BindGroupId = Id;

pub type ShaderModuleId = Id;

pub type ComputePipelineId = Id;

pub type RenderPipelineId = Id;

pub type RenderBundleId = Id;

pub type QuerySetId = Id;

pub type CommandEncoderId = Id;

pub type CommandBufferId = Id;

pub type DeviceId = Id;

impl View for Id {
    type V = IdView;

    closed spec fn view(&self) -> IdView {
        IdView {
            index: (self.raw & 0xffff_ffffu64) as u32,
            epoch: ((self.raw >> 32u64) & 0x1fff_ffffu64) as u32,
            backend: match backend_of_tag(self.raw >> 61u64) {
                Some(b) => b,
                None => Backend::Vulkan,
            },
        }
    }
}

/// The epoch that a handle built from `epoch` carries: epochs wrap at the mask.
pub open spec fn stored_epoch(epoch: u32) -> u32 {
    (epoch & EPOCH_MASK) as u32
}

impl Id {
    #[verifier::type_invariant]
    closed spec fn tagged(self) -> bool {
        backend_of_tag(self.raw >> 61u64) is Some
    }

    /// The packed word of the handle.
    pub closed spec fn raw_spec(&self) -> u64 {
        self.raw
    }

    /// A handle's word is the packing of its index, epoch and backend.
    proof fn lemma_raw_from_view(&self)
        requires
            backend_of_tag(self.raw >> 61u64) is Some,
        ensures
            self.raw == pack(self@.index as u64, self@.epoch as u64, backend_tag(self@.backend)),
    {
        let raw = self.raw;
        assert(raw == (raw & 0xffff_ffffu64) | (((raw >> 32u64) & 0x1fff_ffffu64) << 32u64)
            | ((raw >> 61u64) << 61u64)) by (bit_vector);
        lemma_epoch_bits_fit(raw);
    }

    /// Builds a handle from its parts.
    pub fn zip(index: u32, epoch: u32, backend: Backend) -> (r: Id)
        ensures
            r.raw_spec() == pack(index as u64, stored_epoch(epoch) as u64, backend_tag(backend)),
            r@.index == index,
            r@.epoch == stored_epoch(epoch),
            r@.backend == backend,
    {
        let e: u32 = epoch & EPOCH_MASK;
        let t: u64 = backend.tag();
        let raw: u64 = (index as u64) | ((e as u64) << 32u64) | (t << 61u64);
        proof {
            lemma_mask_epoch(epoch);
            lemma_unpack(index as u64, e as u64, t);
            assert(raw == pack(index as u64, e as u64, t));
        }
        Id { raw }
    }

    /// Splits a handle into index, epoch and backend.
    pub fn unzip(&self) -> (r: (u32, u32, Backend))
        ensures
            r == (self@.index, self@.epoch, self@.backend),
            r.1 <= EPOCH_MASK,
    {
        (self.index(), self.epoch(), self.backend())
    }

    /// The slot index of the handle.
    pub fn index(&self) -> (r: u32)
        ensures
            r == self@.index,
    {
        proof {
            lemma_epoch_bits_fit(self.raw);
        }
        (self.raw & 0xffff_ffffu64) as u32
    }

    /// The generation of the handle.
    pub fn epoch(&self) -> (r: u32)
        ensures
            r == self@.epoch,
            r <= EPOCH_MASK,
    {
        proof {
            lemma_epoch_bits_fit(self.raw);
        }
        ((self.raw >> 32u64) & 0x1fff_ffffu64) as u32
    }

    /// The backend the handle belongs to.
    pub fn backend(&self) -> (r: Backend)
        ensures
            r == self@.backend,
    {
        proof {
            use_type_invariant(self);
        }
        match Backend::from_tag(self.raw >> 61u64) {
            Some(b) => b,
            None => Backend::Vulkan,
        }
    }

    /// The packed 64-bit form of the handle.
    pub fn to_raw(&self) -> (r: u64)
        ensures
            r == pack(self@.index as u64, self@.epoch as u64, backend_tag(self@.backend)),
    {
        proof {
            use_type_invariant(self);
            self.lemma_raw_from_view();
        }
        self.raw
    }

    /// The handle with the given packed form; `None` when its top bits name no backend.
    pub fn from_raw(raw: u64) -> (r: Option<Id>)
        ensures
            r is Some <==> backend_of_tag(raw >> 61u64) is Some,
            r matches Some(id) ==> id@.index == (raw & 0xffff_ffffu64) as u32 && id@.epoch == ((
            raw >> 32u64) & 0x1fff_ffffu64) as u32 && Some(id@.backend) == backend_of_tag(
                raw >> 61u64,
            ),
    {
        match Backend::from_tag(raw >> 61u64) {
            Some(_) => Some(Id { raw }),
            None => None,
        }
    }
}

/// A handle built for a backend reports that backend, and its index; its epoch
/// is the given one taken modulo the epoch range.
pub proof fn lemma_backend_round_trip(index: u32, epoch: u32, backend: Backend)
    ensures
        backend_of_tag(pack(index as u64, stored_epoch(epoch) as u64, backend_tag(backend)) >> 61u64)
            == Some(backend),
        pack(index as u64, stored_epoch(epoch) as u64, backend_tag(backend)) & 0xffff_ffffu64
            == index as u64,
        (pack(index as u64, stored_epoch(epoch) as u64, backend_tag(backend)) >> 32u64)
            & 0x1fff_ffffu64 == stored_epoch(epoch) as u64,
{
    lemma_mask_epoch(epoch);
    lemma_unpack(index as u64, stored_epoch(epoch) as u64, backend_tag(backend));
}

/// An identity handler that keeps the index and epoch of an id it is given and
/// stamps it with the backend of the hub it is used for.
#[derive(Debug)]
pub struct IdentityPassThrough;

impl IdentityPassThrough {
    /// Re-tags `id` for `backend`.
    pub fn process(&self, id: Id, backend: Backend) -> (r: Id)
        ensures
            r@.index == id@.index,
            r@.epoch == id@.epoch,
            r@.backend == backend,
            id@.backend == backend ==> r == id,
    {
        let (index, epoch, _old_backend) = id.unzip();
        proof {
            lemma_mask_epoch(epoch);
            use_type_invariant(&id);
            id.lemma_raw_from_view();
        }
        Id::zip(index, epoch, backend)
    }

    /// Releasing an id needs no bookkeeping: ids come from the recording.
    pub fn free(&self, _id: Id) {
    }
}

/// Hands out [`IdentityPassThrough`] handlers.
pub struct IdentityPassThroughFactory;

impl IdentityPassThroughFactory {
    /// A handler for one resource kind; the lowest index is not needed.
    pub fn spawn(&self, _min_index: u32) -> (r: IdentityPassThrough) {
        IdentityPassThrough
    }
}

} // verus!
