//! A device model: the hub of registries, command buffers with their
//! recorded commands, and the log of calls issued to the backend.
use vstd::prelude::*;

use crate::hub::{BufferRecord, CommandBufferRecord, Hub, QuerySetRecord, RawCommand, Resource, ResourceKind};
use crate::identity::InvalidHandle;
use crate::lock_order::{lock_rank, Token};
use crate::id::{Backend, BufferId, CommandEncoderId, Id, IdView, QuerySetId};
use crate::trace::{Extent3d, TextureCopyView, TextureDataLayout};

verus! {

/// Why a replay step failed. Every failure is fatal to a replay.
#[derive(Clone, Copy, Debug, PartialEq, Eq, Structural)]
pub enum ReplayError {
    /// The actions came in an order the protocol forbids, or asked for
    /// something this core does not support.
    ProtocolViolation,
    /// A handle did not resolve: stale epoch, freed slot, wrong backend, or a
    /// slot that is already taken.
    InvalidHandle,
    /// A precondition of the operation does not hold; nothing was issued.
    PreconditionFailure,
    /// A blob is missing or does not hold what the action needs.
    IoFailure,
    /// The backend refused the call.
    CallFailure,
}

/// The byte stride of one resolved query entry, whatever the query type.
pub const QUERY_RESOLVE_STRIDE: u64 = 16;

/// One call issued to the backend, in issue order.
#[derive(Debug)]
pub enum BackendCall {
    MaintainIds,
    Create { kind: ResourceKind, id: Id },
    CreateShaderModule { id: Id, words: Vec<u32> },
    Destroy { kind: ResourceKind, id: Id },
    WaitForBuffer(Id),
    SetBufferSubData { id: Id, offset: u64, data: Vec<u8> },
    QueueWriteBuffer { id: Id, offset: u64, data: Vec<u8> },
    QueueWriteTexture { to: TextureCopyView, data: Vec<u8>, layout: TextureDataLayout, size: Extent3d },
    CreateCommandEncoder(Id),
    FinishCommandEncoder(Id),
    Submit { index: u64, command_buffer: Id },
}

/// The buffer that `id` resolves to, if any.
pub open spec fn buffer_of(h: &Hub, id: IdView) -> Option<BufferRecord> {
    match h.lookup(ResourceKind::Buffer, id) {
        Some(Resource::Buffer(b)) => Some(b),
        _ => None,
    }
}

/// The query set that `id` resolves to, if any.
pub open spec fn query_set_of(h: &Hub, id: IdView) -> Option<QuerySetRecord> {
    match h.lookup(ResourceKind::QuerySet, id) {
        Some(Resource::QuerySet(q)) => Some(q),
        _ => None,
    }
}

/// The command buffer that `id` resolves to, if any.
pub open spec fn command_buffer_of(h: &Hub, id: IdView) -> Option<CommandBufferRecord> {
    match h.lookup(ResourceKind::CommandBuffer, id) {
        Some(Resource::CommandBuffer(c)) => Some(c),
        _ => None,
    }
}

/// `new` is `old` with one slot of kind `k`, that of `id`, changed, and `id`
/// still resolving there to `res`.
pub open spec fn slot_replaced(old: &Hub, new: &Hub, k: ResourceKind, id: IdView, res: Resource) -> bool {
    &&& new.wf()
    &&& new.backend_spec() == old.backend_spec()
    &&& new.reg(k).entries() == old.reg(k).entries().insert(id.index, (id.epoch, res))
    &&& forall|j: ResourceKind| j != k ==> #[trigger] new.reg(j) == old.reg(j)
}

/// Whether `id` resolves to a command buffer that is still being recorded.
pub open spec fn open_encoder(h: &Hub, id: IdView) -> bool {
    command_buffer_of(h, id) matches Some(c) && !c.finished
}

/// `new` is `old` with `cmds` appended to the open command buffer `enc`, and
/// `uses` to the buffers it holds in copy-destination use; `enc` stays open
/// and nothing else changed.
pub open spec fn encoder_extended(
    old: &Device,
    new: &Device,
    enc: IdView,
    cmds: Seq<RawCommand>,
    uses: Seq<Id>,
) -> bool {
    &&& new.wf()
    &&& new.calls_spec() == old.calls_spec()
    &&& command_buffer_of(&new.hub_spec(), enc) matches Some(c) && !c.finished && c.commands@
        == command_buffer_of(&old.hub_spec(), enc)->Some_0.commands@ + cmds && c.copy_dst_uses@
        == command_buffer_of(&old.hub_spec(), enc)->Some_0.copy_dst_uses@ + uses
    &&& exists|res: Resource| slot_replaced(&old.hub_spec(), &new.hub_spec(), ResourceKind::CommandBuffer, enc, res)
}

/// The device state that replay builds.
pub struct Device {
    pub(crate) hub: Hub,
    pub(crate) calls: Vec<BackendCall>,
}

impl Device {
    pub closed spec fn hub_spec(&self) -> Hub {
        self.hub
    }

    /// The backend calls issued so far, in order.
    pub closed spec fn calls_spec(&self) -> Seq<BackendCall> {
        self.calls@
    }

    pub open spec fn wf(&self) -> bool {
        self.hub_spec().wf()
    }

    /// A device on `backend` with no resources and no calls issued.
    pub fn new(backend: Backend) -> (r: Device)
        ensures
            r.wf(),
            r.hub_spec().backend_spec() == backend,
            forall|k: ResourceKind| #[trigger] r.hub_spec().reg(k).entries() == Map::<u32, (u32, Resource)>::empty(),
            r.calls_spec() == Seq::<BackendCall>::empty(),
    {
        Device { hub: Hub::new(backend), calls: Vec::new() }
    }

    pub fn hub(&self) -> (r: &Hub)
        ensures
            *r == self.hub_spec(),
    {
        &self.hub
    }

    pub fn calls(&self) -> (r: &Vec<BackendCall>)
        ensures
            r@ == self.calls_spec(),
    {
        &self.calls
    }

    /// Binds `res` to `id` in the registry of kind `k`.
    pub(crate) fn register(&mut self, k: ResourceKind, id: Id, res: Resource) -> (r: Result<(), InvalidHandle>)
        requires
            old(self).wf(),
        ensures
            final(self).wf(),
            final(self).calls_spec() == old(self).calls_spec(),
            r is Ok <==> old(self).hub_spec().can_register(k, id@),
            r is Ok ==> old(self).hub_spec().registered(&final(self).hub_spec(), k, id@, res)
                && final(self).hub_spec().lookup(k, id@) == Some(res),
            r is Err ==> *final(self) == *old(self),
    {
        let r = self.hub.register(k, id, res, &Token::first(k));
        proof {
            self.hub.lemma_reg_backend(k);
        }
        r
    }

    /// Frees the slot that `id` resolves to in the registry of kind `k`.
    pub(crate) fn unregister(&mut self, k: ResourceKind, id: Id) -> (r: Result<Resource, InvalidHandle>)
        requires
            old(self).wf(),
        ensures
            final(self).wf(),
            final(self).calls_spec() == old(self).calls_spec(),
            r is Ok <==> old(self).hub_spec().live(k, id@),
            r matches Ok(v) ==> Some(v) == old(self).hub_spec().lookup(k, id@) && old(self).hub_spec().unregistered(
                &final(self).hub_spec(),
                k,
                id@,
            ),
            r is Err ==> *final(self) == *old(self),
    {
        self.hub.unregister(k, id, &Token::first(k))
    }

    /// Issues one more backend call.
    pub(crate) fn push_call(&mut self, call: BackendCall)
        ensures
            final(self).hub_spec() == old(self).hub_spec(),
            final(self).calls_spec() == old(self).calls_spec().push(call),
    {
        self.calls.push(call);
    }

    /// The bytes of the buffer that `id` resolves to.
    pub fn buffer_contents(&self, id: BufferId) -> (r: Option<&Vec<u8>>)
        requires
            self.wf(),
        ensures
            buffer_of(&self.hub_spec(), id@) matches Some(b) ==> r matches Some(v) && v@ == b.contents@,
            buffer_of(&self.hub_spec(), id@) is None ==> r is None,
    {
        match self.hub.get(ResourceKind::Buffer, id, &Token::first(ResourceKind::Buffer)) {
            Ok(Resource::Buffer(b)) => Some(&b.contents),
            _ => None,
        }
    }

    /// The commands recorded into the command buffer that `id` resolves to.
    pub fn recorded_commands(&self, id: CommandEncoderId) -> (r: Option<&Vec<RawCommand>>)
        requires
            self.wf(),
        ensures
            command_buffer_of(&self.hub_spec(), id@) matches Some(c) ==> r matches Some(v) && v@ == c.commands@,
            command_buffer_of(&self.hub_spec(), id@) is None ==> r is None,
    {
        match self.hub.get(ResourceKind::CommandBuffer, id, &Token::first(ResourceKind::CommandBuffer)) {
            Ok(Resource::CommandBuffer(c)) => Some(&c.commands),
            _ => None,
        }
    }

    /// The buffers that the command buffer `id` holds in copy-destination use.
    pub fn copy_dst_uses(&self, id: CommandEncoderId) -> (r: Option<&Vec<Id>>)
        requires
            self.wf(),
        ensures
            command_buffer_of(&self.hub_spec(), id@) matches Some(c) ==> r matches Some(v) && v@ == c.copy_dst_uses@,
            command_buffer_of(&self.hub_spec(), id@) is None ==> r is None,
    {
        match self.hub.get(ResourceKind::CommandBuffer, id, &Token::first(ResourceKind::CommandBuffer)) {
            Ok(Resource::CommandBuffer(c)) => Some(&c.copy_dst_uses),
            _ => None,
        }
    }

    /// Whether `id` resolves to a command buffer that is still open.
    pub(crate) fn is_open_encoder(&self, id: CommandEncoderId, held: &Token) -> (r: bool)
        requires
            self.wf(),
            held.rank_spec() == lock_rank(ResourceKind::CommandBuffer),
        ensures
            r == (command_buffer_of(&self.hub_spec(), id@) matches Some(c) && !c.finished),
    {
        match self.hub.get(ResourceKind::CommandBuffer, id, held) {
            Ok(Resource::CommandBuffer(c)) => !c.finished,
            _ => false,
        }
    }

    /// Whether `id` resolves to a query set.
    pub(crate) fn is_query_set(&self, id: QuerySetId, held: &Token) -> (r: bool)
        requires
            self.wf(),
            held.rank_spec() == lock_rank(ResourceKind::QuerySet),
        ensures
            r == query_set_of(&self.hub_spec(), id@) is Some,
    {
        match self.hub.get(ResourceKind::QuerySet, id, held) {
            Ok(Resource::QuerySet(_)) => true,
            _ => false,
        }
    }

    /// The usage flags of the buffer that `id` resolves to.
    pub(crate) fn buffer_usage(&self, id: BufferId, held: &Token) -> (r: Option<u32>)
        requires
            self.wf(),
            held.rank_spec() == lock_rank(ResourceKind::Buffer),
        ensures
            r == (match buffer_of(&self.hub_spec(), id@) {
                Some(b) => Some(b.usage),
                None => None,
            }),
    {
        match self.hub.get(ResourceKind::Buffer, id, held) {
            Ok(Resource::Buffer(b)) => Some(b.usage),
            _ => None,
        }
    }

    /// Appends `cmds` to the open command buffer `enc`, and `uses` to the
    /// buffers it holds in copy-destination use; finishes it when `finish` is set.
    pub(crate) fn record_raw(&mut self, enc: CommandEncoderId, cmds: Vec<RawCommand>, uses: Vec<Id>, finish: bool)
        requires
            old(self).wf(),
            command_buffer_of(&old(self).hub_spec(), enc@) matches Some(c) && !c.finished,
        ensures
            final(self).wf(),
            final(self).calls_spec() == old(self).calls_spec(),
            command_buffer_of(&final(self).hub_spec(), enc@) matches Some(c) && c.commands@
                == command_buffer_of(&old(self).hub_spec(), enc@)->Some_0.commands@ + cmds@ && c.finished
                == finish && c.copy_dst_uses@ == command_buffer_of(&old(self).hub_spec(), enc@)->Some_0.copy_dst_uses@
                + uses@,
            exists|res: Resource|
                slot_replaced(&old(self).hub_spec(), &final(self).hub_spec(), ResourceKind::CommandBuffer, enc@, res),
    {
        proof {
            old(self).hub_spec().lemma_reg_backend(ResourceKind::CommandBuffer);
        }
        let taken = self.hub.unregister(ResourceKind::CommandBuffer, enc, &Token::first(ResourceKind::CommandBuffer));
        match taken {
            Ok(Resource::CommandBuffer(c)) => {
                let mut commands = c.commands;
                let mut more = cmds;
                commands.append(&mut more);
                let mut copy_dst_uses = c.copy_dst_uses;
                let mut new_uses = uses;
                copy_dst_uses.append(&mut new_uses);
                let res = Resource::CommandBuffer(CommandBufferRecord { commands, finished: finish, copy_dst_uses });
                let ghost g = res;
                let ok = self.hub.register(ResourceKind::CommandBuffer, enc, res, &Token::first(ResourceKind::CommandBuffer));
                proof {
                    assert(ok is Ok);
                    self.hub_spec().lemma_reg_backend(ResourceKind::CommandBuffer);
                    assert(old(self).hub_spec().reg(ResourceKind::CommandBuffer).entries().remove(enc@.index).insert(
                        enc@.index, (enc@.epoch, g)) =~= old(self).hub_spec().reg(ResourceKind::CommandBuffer).entries().insert(
                        enc@.index, (enc@.epoch, g)));
                    assert(slot_replaced(&old(self).hub_spec(), &self.hub_spec(), ResourceKind::CommandBuffer, enc@, g));
                }
            },
            _ => {
            },
        }
    }
}

} // verus!
