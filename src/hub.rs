//! The registries of one device, one per resource kind.
use vstd::prelude::*;

use crate::id::{Backend, Id, IdView};
use crate::identity::InvalidHandle;
use crate::lock_order::{lock_rank, Token};
use crate::registry::Registry;
use crate::trace::{Command, QueryType};

verus! {

/// The kinds of resources that a device keeps.
#[derive(Clone, Copy, Debug, PartialEq, Eq, Structural)]
pub enum ResourceKind {
    Buffer,
    Texture,
    TextureView,
    Sampler,
    BindGroupLayout,
    PipelineLayout,
    BindGroup,
    ShaderModule,
    ComputePipeline,
    RenderPipeline,
    RenderBundle,
    QuerySet,
    CommandBuffer,
}

/// The number of resource kinds.
pub const KIND_COUNT: usize = 13;

/// The position of a kind's registry in the hub.
pub open spec fn kind_slot(k: ResourceKind) -> int {
    match k {
        ResourceKind::Buffer => 0,
        ResourceKind::Texture => 1,
        ResourceKind::TextureView => 2,
        ResourceKind::Sampler => 3,
        ResourceKind::BindGroupLayout => 4,
        ResourceKind::PipelineLayout => 5,
        ResourceKind::BindGroup => 6,
        ResourceKind::ShaderModule => 7,
        ResourceKind::ComputePipeline => 8,
        ResourceKind::RenderPipeline => 9,
        ResourceKind::RenderBundle => 10,
        ResourceKind::QuerySet => 11,
        ResourceKind::CommandBuffer => 12,
    }
}

impl ResourceKind {
    pub fn slot(&self) -> (r: usize)
        ensures
            r as int == kind_slot(*self),
            r < KIND_COUNT,
    {
        match self {
            ResourceKind::Buffer => 0,
            ResourceKind::Texture => 1,
            ResourceKind::TextureView => 2,
            ResourceKind::Sampler => 3,
            ResourceKind::BindGroupLayout => 4,
            ResourceKind::PipelineLayout => 5,
            ResourceKind::BindGroup => 6,
            ResourceKind::ShaderModule => 7,
            ResourceKind::ComputePipeline => 8,
            ResourceKind::RenderPipeline => 9,
            ResourceKind::RenderBundle => 10,
            ResourceKind::QuerySet => 11,
            ResourceKind::CommandBuffer => 12,
        }
    }
}

/// Result flags of a query copy.
pub const RESULT_WAIT: u32 = 1;

pub const RESULT_WITH_AVAILABILITY: u32 = 2;

pub const RESULT_BITS_64: u32 = 4;

/// One entry of a backend command buffer.
#[derive(Debug)]
pub enum RawCommand {
    /// A recorded encoder command, handed to the backend as it is.
    Encoded(Command),
    ResetQueryPool { query_set: Id, first: u32, count: u32 },
    BeginQuery { query_set: Id, index: u32 },
    EndQuery { query_set: Id, index: u32 },
    WriteTimestamp { stage: u32, query_set: Id, index: u32 },
    /// Orders a buffer's earlier uses in any buffer stage before the transfer stage.
    TransferBarrier { buffer: Id },
    CopyQueryPoolResults {
        query_set: Id,
        first: u32,
        count: u32,
        buffer: Id,
        offset: u64,
        stride: u64,
        flags: u32,
    },
}

/// A buffer: its usage flags and its bytes.
#[derive(Debug)]
pub struct BufferRecord {
    pub usage: u32,
    pub contents: Vec<u8>,
}

/// A query set: its kind and its number of slots.
#[derive(Debug)]
pub struct QuerySetRecord {
    pub ty: QueryType,
    pub count: u32,
}

/// A command buffer: what was recorded into it, whether it was finished, and
/// the buffers it put in copy-destination use by resolving queries into them.
#[derive(Debug)]
pub struct CommandBufferRecord {
    pub commands: Vec<RawCommand>,
    pub finished: bool,
    pub copy_dst_uses: Vec<Id>,
}

/// What a registry slot holds.
#[derive(Debug)]
pub enum Resource {
    Buffer(BufferRecord),
    QuerySet(QuerySetRecord),
    CommandBuffer(CommandBufferRecord),
    /// Any other kind, known by its label.
    Object(String),
}

/// The registries of one device.
pub struct Hub {
    backend: Backend,
    registries: Vec<Registry<Resource>>,
}

impl Hub {
    pub closed spec fn backend_spec(&self) -> Backend {
        self.backend
    }

    /// The registry of kind `k`.
    pub closed spec fn reg(&self, k: ResourceKind) -> Registry<Resource> {
        self.registries@[kind_slot(k)]
    }

    pub closed spec fn wf(&self) -> bool {
        &&& self.registries@.len() == KIND_COUNT
        &&& forall|i: int| 0 <= i < KIND_COUNT ==> #[trigger] self.registries@[i].backend_spec() == self.backend
    }

    /// What `id` resolves to in the registry of kind `k`.
    pub open spec fn lookup(&self, k: ResourceKind, id: IdView) -> Option<Resource> {
        self.reg(k).lookup(id)
    }

    /// Whether `id` resolves in the registry of kind `k`.
    pub open spec fn live(&self, k: ResourceKind, id: IdView) -> bool {
        self.lookup(k, id) is Some
    }

    /// Whether `id` can be bound in the registry of kind `k`.
    pub open spec fn can_register(&self, k: ResourceKind, id: IdView) -> bool {
        id.backend == self.backend_spec() && !self.reg(k).entries().contains_key(id.index)
    }

    /// The hub after `id` was bound to `res` in the registry of kind `k`.
    pub open spec fn registered(&self, other: &Hub, k: ResourceKind, id: IdView, res: Resource) -> bool {
        &&& other.wf()
        &&& other.backend_spec() == self.backend_spec()
        &&& other.reg(k).entries() == self.reg(k).entries().insert(id.index, (id.epoch, res))
        &&& forall|j: ResourceKind| j != k ==> #[trigger] other.reg(j) == self.reg(j)
    }

    /// The hub after the slot of `id` in the registry of kind `k` was freed.
    pub open spec fn unregistered(&self, other: &Hub, k: ResourceKind, id: IdView) -> bool {
        &&& other.wf()
        &&& other.backend_spec() == self.backend_spec()
        &&& other.reg(k).entries() == self.reg(k).entries().remove(id.index)
        &&& forall|j: ResourceKind| j != k ==> #[trigger] other.reg(j) == self.reg(j)
    }

    /// Every registry of a well-formed hub serves the hub's backend.
    pub proof fn lemma_reg_backend(&self, k: ResourceKind)
        requires
            self.wf(),
        ensures
            self.reg(k).backend_spec() == self.backend_spec(),
    {
        assert(self.registries@[kind_slot(k)].backend_spec() == self.backend);
    }

    /// An empty hub for `backend`.
    pub fn new(backend: Backend) -> (r: Hub)
        ensures
            r.wf(),
            r.backend_spec() == backend,
            forall|k: ResourceKind| #[trigger] r.reg(k).entries() == Map::<u32, (u32, Resource)>::empty(),
    {
        let mut registries: Vec<Registry<Resource>> = Vec::new();
        let mut i: usize = 0;
        while i < KIND_COUNT
            invariant
                i <= KIND_COUNT,
                registries@.len() == i,
                forall|j: int| 0 <= j < i ==> #[trigger] registries@[j].backend_spec() == backend
                    && registries@[j].entries() == Map::<u32, (u32, Resource)>::empty(),
            decreases KIND_COUNT - i,
        {
            registries.push(Registry::new(backend));
            i += 1;
        }
        let r = Hub { backend, registries };
        assert forall|k: ResourceKind| #[trigger] r.reg(k).entries() == Map::<u32, (u32, Resource)>::empty() by {
            assert(0 <= kind_slot(k) < KIND_COUNT);
            assert(r.registries@[kind_slot(k)].backend_spec() == backend);
        }
        r
    }

    pub fn backend(&self) -> (r: Backend)
        ensures
            r == self.backend_spec(),
    {
        self.backend
    }

    /// What `id` resolves to in the registry of kind `k`.
    pub fn get(&self, k: ResourceKind, id: Id, held: &Token) -> (r: Result<&Resource, InvalidHandle>)
        requires
            self.wf(),
            held.rank_spec() == lock_rank(k),
        ensures
            r is Ok <==> self.live(k, id@),
            r matches Ok(v) ==> Some(*v) == self.lookup(k, id@),
    {
        self.registries[k.slot()].get(id)
    }

    /// Whether `id` resolves in the registry of kind `k`.
    pub fn contains(&self, k: ResourceKind, id: Id, held: &Token) -> (r: bool)
        requires
            self.wf(),
            held.rank_spec() == lock_rank(k),
        ensures
            r == self.live(k, id@),
    {
        self.registries[k.slot()].contains(id)
    }

    /// Whether `id` can be bound in the registry of kind `k`.
    pub fn can_register_id(&self, k: ResourceKind, id: Id, held: &Token) -> (r: bool)
        requires
            self.wf(),
            held.rank_spec() == lock_rank(k),
        ensures
            r == self.can_register(k, id@),
    {
        id.backend() == self.backend && !self.registries[k.slot()].is_occupied(id.index())
    }

    /// Binds `res` to `id` in the registry of kind `k`. Fails, changing
    /// nothing, when the id names another backend or its slot is taken.
    pub fn register(&mut self, k: ResourceKind, id: Id, res: Resource, held: &Token) -> (r: Result<(), InvalidHandle>)
        requires
            old(self).wf(),
            held.rank_spec() == lock_rank(k),
        ensures
            final(self).wf(),
            r is Ok <==> old(self).can_register(k, id@),
            r is Ok ==> old(self).registered(final(self), k, id@, res),
            r is Err ==> *final(self) == *old(self),
    {
        let s = k.slot();
        let ghost before = self.registries@;
        if !(id.backend() == self.backend) || self.registries[s].is_occupied(id.index()) {
            return Err(InvalidHandle);
        }
        let r = self.registries[s].register(id, res);
        proof {
            assert(self.registries@ == before.update(kind_slot(k), self.registries@[kind_slot(k)]));
            assert forall|j: ResourceKind| j != k implies #[trigger] self.reg(j) == old(self).reg(j) by {
                assert(kind_slot(j) != kind_slot(k));
            }
            assert forall|i: int| 0 <= i < KIND_COUNT implies #[trigger] self.registries@[i].backend_spec() == self.backend by {
                if i != kind_slot(k) {
                    assert(self.registries@[i] == before[i]);
                }
            }
        }
        r
    }

    /// Frees the slot that `id` resolves to in the registry of kind `k` and
    /// hands back its occupant. Fails, changing nothing, when `id` does not resolve.
    pub fn unregister(&mut self, k: ResourceKind, id: Id, held: &Token) -> (r: Result<Resource, InvalidHandle>)
        requires
            old(self).wf(),
            held.rank_spec() == lock_rank(k),
        ensures
            final(self).wf(),
            r is Ok <==> old(self).live(k, id@),
            r matches Ok(v) ==> Some(v) == old(self).lookup(k, id@) && old(self).unregistered(final(self), k, id@),
            r is Err ==> *final(self) == *old(self),
    {
        let s = k.slot();
        let ghost before = self.registries@;
        if !self.registries[s].contains(id) {
            return Err(InvalidHandle);
        }
        let r = self.registries[s].unregister(id);
        proof {
            assert(self.registries@ == before.update(kind_slot(k), self.registries@[kind_slot(k)]));
            assert forall|j: ResourceKind| j != k implies #[trigger] self.reg(j) == old(self).reg(j) by {
                assert(kind_slot(j) != kind_slot(k));
            }
            assert forall|i: int| 0 <= i < KIND_COUNT implies #[trigger] self.registries@[i].backend_spec() == self.backend by {
                if i != kind_slot(k) {
                    assert(self.registries@[i] == before[i]);
                }
            }
        }
        r
    }
}

} // verus!
