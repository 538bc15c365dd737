//! The replay engine: applies recorded actions, in order, to a device.
use vstd::prelude::*;

use crate::device::{buffer_of, command_buffer_of, slot_replaced, BackendCall, Device, ReplayError};
use crate::encoder::{attachments_live, command_resolves, commands_resolve, encoded};
use crate::hub::{BufferRecord, CommandBufferRecord, Hub, QuerySetRecord, Resource, ResourceKind};
use crate::lock_order::Token;
use crate::id::{Id, IdView};
use crate::identity::IdentityManager;
use crate::trace::{Action, BindingResource, Command};

verus! {

/// The little-endian 32-bit word of four bytes.
pub open spec fn le_word(b0: u8, b1: u8, b2: u8, b3: u8) -> u32 {
    (b0 as int + b1 as int * 0x100 + b2 as int * 0x1_0000 + b3 as int * 0x100_0000) as u32
}

/// The SPIR-V words that a shader blob holds: each four bytes, little-endian.
pub open spec fn spirv_words(bytes: Seq<u8>) -> Seq<u32> {
    Seq::new(
        (bytes.len() / 4) as nat,
        |i: int| le_word(bytes[4 * i], bytes[4 * i + 1], bytes[4 * i + 2], bytes[4 * i + 3]),
    )
}

/// Reads a shader blob as SPIR-V words.
pub fn words_of_blob(bytes: &Vec<u8>) -> (r: Vec<u32>)
    requires
        bytes@.len() % 4 == 0,
    ensures
        r@ == spirv_words(bytes@),
{
    let n = bytes.len() / 4;
    let mut words: Vec<u32> = Vec::new();
    let mut i: usize = 0;
    while i < n
        invariant
            n == bytes@.len() / 4,
            bytes@.len() <= usize::MAX,
            i <= n,
            words@ =~= spirv_words(bytes@).take(i as int),
        decreases n - i,
    {
        assert(4 * i + 3 < bytes@.len()) by (nonlinear_arith)
            requires
                i < n,
                n == bytes@.len() / 4,
        ;
        let b0 = bytes[4 * i];
        let b1 = bytes[4 * i + 1];
        let b2 = bytes[4 * i + 2];
        let b3 = bytes[4 * i + 3];
        let w: u32 = b0 as u32 + (b1 as u32) * 0x100 + (b2 as u32) * 0x1_0000 + (b3 as u32) * 0x100_0000;
        words.push(w);
        i += 1;
        assert(words@ =~= spirv_words(bytes@).take(i as int));
    }
    assert(spirv_words(bytes@).take(n as int) =~= spirv_words(bytes@));
    words
}

/// The blob's bytes, if the blob could be read.
pub open spec fn blob_view(blob: Option<Vec<u8>>) -> Option<Seq<u8>> {
    match blob {
        Some(b) => Some(b@),
        None => None,
    }
}

/// The resource that a creating action makes, with its handle.
pub open spec fn create_target(a: Action) -> Option<(ResourceKind, Id)> {
    match a {
        Action::CreateBuffer { id, .. } => Some((ResourceKind::Buffer, id)),
        Action::CreateTexture { id, .. } => Some((ResourceKind::Texture, id)),
        Action::CreateTextureView { id, .. } => Some((ResourceKind::TextureView, id)),
        Action::CreateSampler { id, .. } => Some((ResourceKind::Sampler, id)),
        Action::CreateBindGroupLayout { id, .. } => Some((ResourceKind::BindGroupLayout, id)),
        Action::CreatePipelineLayout { id, .. } => Some((ResourceKind::PipelineLayout, id)),
        Action::CreateBindGroup { id, .. } => Some((ResourceKind::BindGroup, id)),
        Action::CreateShaderModule { id, .. } => Some((ResourceKind::ShaderModule, id)),
        Action::CreateComputePipeline { id, .. } => Some((ResourceKind::ComputePipeline, id)),
        Action::CreateRenderPipeline { id, .. } => Some((ResourceKind::RenderPipeline, id)),
        Action::CreateRenderBundle { id, .. } => Some((ResourceKind::RenderBundle, id)),
        Action::CreateQuerySet { id, .. } => Some((ResourceKind::QuerySet, id)),
        _ => None,
    }
}

/// The resource that a destroying action frees, with its handle.
pub open spec fn destroy_target(a: Action) -> Option<(ResourceKind, Id)> {
    match a {
        Action::DestroyBuffer(id) => Some((ResourceKind::Buffer, id)),
        Action::DestroyTexture(id) => Some((ResourceKind::Texture, id)),
        Action::DestroyTextureView(id) => Some((ResourceKind::TextureView, id)),
        Action::DestroySampler(id) => Some((ResourceKind::Sampler, id)),
        Action::DestroyBindGroupLayout(id) => Some((ResourceKind::BindGroupLayout, id)),
        Action::DestroyPipelineLayout(id) => Some((ResourceKind::PipelineLayout, id)),
        Action::DestroyBindGroup(id) => Some((ResourceKind::BindGroup, id)),
        Action::DestroyShaderModule(id) => Some((ResourceKind::ShaderModule, id)),
        Action::DestroyComputePipeline(id) => Some((ResourceKind::ComputePipeline, id)),
        Action::DestroyRenderPipeline(id) => Some((ResourceKind::RenderPipeline, id)),
        Action::DestroyRenderBundle(id) => Some((ResourceKind::RenderBundle, id)),
        Action::DestroyQuerySet(id) => Some((ResourceKind::QuerySet, id)),
        _ => None,
    }
}

/// Whether creating the resource first resynchronizes the identity counters:
/// all kinds but bind group layouts and shader modules.
pub open spec fn maintains_ids(a: Action) -> bool {
    match a {
        Action::CreateBuffer { .. } | Action::CreateTexture { .. } | Action::CreateTextureView { .. }
        | Action::CreateSampler { .. } | Action::CreatePipelineLayout { .. } | Action::CreateBindGroup { .. }
        | Action::CreateComputePipeline { .. } | Action::CreateRenderPipeline { .. }
        | Action::CreateRenderBundle { .. } | Action::CreateQuerySet { .. } => true,
        _ => false,
    }
}

/// Whether all handles in `ids` resolve in the registry of kind `k`.
pub open spec fn all_live(h: &Hub, k: ResourceKind, ids: Seq<Id>) -> bool {
    forall|i: int| 0 <= i < ids.len() ==> h.live(k, (#[trigger] ids[i])@)
}

/// Whether the resource a binding names resolves.
pub open spec fn binding_live(h: &Hub, b: BindingResource) -> bool {
    match b {
        BindingResource::Buffer { id, .. } => buffer_of(h, id@) is Some,
        BindingResource::Sampler(id) => h.live(ResourceKind::Sampler, id@),
        BindingResource::TextureView(id) => h.live(ResourceKind::TextureView, id@),
        BindingResource::TextureViewArray(ids) => all_live(h, ResourceKind::TextureView, ids@),
    }
}

/// Whether every resource that the action's descriptor names resolves.
pub open spec fn deps_live(h: &Hub, a: Action) -> bool {
    match a {
        Action::CreateTextureView { parent_id, .. } => h.live(ResourceKind::Texture, parent_id@),
        Action::CreatePipelineLayout { bind_group_layouts, .. } => all_live(
            h,
            ResourceKind::BindGroupLayout,
            bind_group_layouts@,
        ),
        Action::CreateBindGroup { layout_id, entries, .. } => h.live(ResourceKind::BindGroupLayout, layout_id@)
            && forall|i: int| 0 <= i < entries@.len() ==> binding_live(h, (#[trigger] entries@[i]).1),
        Action::CreateComputePipeline { desc, .. } => h.live(ResourceKind::PipelineLayout, desc.layout@)
            && h.live(ResourceKind::ShaderModule, desc.compute_stage.module@),
        Action::CreateRenderPipeline { desc, .. } => h.live(ResourceKind::PipelineLayout, desc.layout@)
            && h.live(ResourceKind::ShaderModule, desc.vertex_stage.module@) && (desc.fragment_stage matches Some(
            f,
        ) ==> h.live(ResourceKind::ShaderModule, f.module@)),
        _ => true,
    }
}

/// Whether `res` is what the creating action `a` describes.
pub open spec fn payload_of(res: Resource, a: Action) -> bool {
    match a {
        Action::CreateBuffer { desc, .. } => res matches Resource::Buffer(b) && b.usage == desc.usage
            && b.contents@ == Seq::new(desc.size as nat, |i: int| 0u8),
        Action::CreateQuerySet { desc, .. } => res matches Resource::QuerySet(q) && q.ty == desc.type_
            && q.count == desc.count,
        Action::CreateTexture { desc, .. } => res matches Resource::Object(l) && l@ == desc.label@,
        Action::CreateTextureView { desc, .. } => res matches Resource::Object(l) && l@ == (match desc {
            Some(d) => d.label@,
            None => Seq::<char>::empty(),
        }),
        Action::CreateSampler { desc, .. } => res matches Resource::Object(l) && l@ == desc.label@,
        Action::CreateBindGroupLayout { label, .. } => res matches Resource::Object(l) && l@ == label@,
        Action::CreateBindGroup { label, .. } => res matches Resource::Object(l) && l@ == label@,
        Action::CreateRenderBundle { desc, .. } => res matches Resource::Object(l) && l@ == desc.label@,
        _ => res matches Resource::Object(l) && l@ == Seq::<char>::empty(),
    }
}

/// The index and epoch of the command encoder that a `Submit` opens.
pub open spec fn submit_encoder(h: &Hub, m: &IdentityManager) -> IdView {
    IdView { index: m.next_alloc().0, epoch: m.next_alloc().1, backend: h.backend_spec() }
}

/// How a write of `n` blob bytes at `start` changes a buffer's bytes.
pub open spec fn splice(contents: Seq<u8>, start: int, data: Seq<u8>) -> Seq<u8> {
    contents.take(start) + data + contents.skip(start + data.len())
}

/// Why writing a blob into a buffer fails, or `None` when it succeeds: a
/// queued write stores the whole blob at `range_start`, an immediate one the
/// first `range_end - range_start` bytes of it.
pub open spec fn write_buffer_error(
    h: &Hub,
    id: Id,
    range_start: u64,
    range_end: u64,
    queued: bool,
    blob: Option<Seq<u8>>,
) -> Option<ReplayError> {
    match blob {
    None => Some(ReplayError::IoFailure),
    Some(bytes) => match buffer_of(h, id@) {
        None => Some(ReplayError::InvalidHandle),
        Some(b) => if range_start > range_end {
            Some(ReplayError::CallFailure)
        } else if bytes.len() < range_end - range_start {
            Some(ReplayError::IoFailure)
        } else if range_start + (if queued {
            bytes.len() as int
        } else {
            range_end - range_start
        }) > b.contents@.len() {
            Some(ReplayError::CallFailure)
        } else {
            None
        },
    },
}
}

/// Why submitting `commands` fails, or `None` when it succeeds.
pub open spec fn submit_error(h: &Hub, commands: Seq<Command>, m: &IdentityManager) -> Option<
    ReplayError,
> {
    if !commands_resolve(h, commands) {
    Some(ReplayError::InvalidHandle)
} else if !m.can_alloc() {
    Some(ReplayError::CallFailure)
} else if !h.can_register(ResourceKind::CommandBuffer, submit_encoder(h, m)) {
    Some(ReplayError::InvalidHandle)
} else {
    None
}
}

/// Why applying `a` to a device with hub `h` fails, or `None` when it succeeds.
/// `blob` is the action's blob as read from the trace directory and `m`
/// the allocator of command encoder ids.
pub open spec fn step_error(h: &Hub, a: Action, blob: Option<Seq<u8>>, m: &IdentityManager) -> Option<
    ReplayError,
> {
    match a {
        Action::Init { .. } | Action::CreateSwapChain { .. } | Action::PresentSwapChain(_) => Some(
            ReplayError::ProtocolViolation,
        ),
        Action::GetSwapChainTexture { id, .. } => if id is Some {
            Some(ReplayError::ProtocolViolation)
        } else {
            None
        },
        Action::WriteBuffer { id, range_start, range_end, queued, .. } => write_buffer_error(h, id, range_start, range_end, queued, blob),
        Action::WriteTexture { to, .. } => if blob is None {
            Some(ReplayError::IoFailure)
        } else if !h.live(ResourceKind::Texture, to.texture@) {
            Some(ReplayError::InvalidHandle)
        } else {
            None
        },
        Action::Submit(_, commands) => submit_error(h, commands@, m),
        Action::CreateShaderModule { id, .. } => match blob {
            None => Some(ReplayError::IoFailure),
            Some(bytes) => if bytes.len() % 4 != 0 {
                Some(ReplayError::IoFailure)
            } else if !h.can_register(ResourceKind::ShaderModule, id@) {
                Some(ReplayError::InvalidHandle)
            } else {
                None
            },
        },
        _ => match destroy_target(a) {
            Some((k, id)) => if h.live(k, id@) {
                None
            } else {
                Some(ReplayError::InvalidHandle)
            },
            None => match create_target(a) {
                Some((k, id)) => if !deps_live(h, a) || !h.can_register(k, id@) {
                    Some(ReplayError::InvalidHandle)
                } else {
                    match a {
                        Action::CreateBuffer { desc, .. } => if desc.size > usize::MAX {
                            Some(ReplayError::CallFailure)
                        } else {
                            None
                        },
                        _ => None,
                    }
                },
                None => None,
            },
        },
    }
}

/// The calls that precede the creation call of a creating action.
pub open spec fn maintain_calls(a: Action) -> Seq<BackendCall> {
    if maintains_ids(a) {
        seq![BackendCall::MaintainIds]
    } else {
        Seq::empty()
    }
}

/// `new` is what `allocate` leaves of `old`.
pub open spec fn allocated(old: &IdentityManager, new: &IdentityManager) -> bool {
    &&& new.wf()
    &&& old.free_list().len() > 0 ==> new.free_list() == old.free_list().drop_last() && new.epochs()
        == old.epochs()
    &&& old.free_list().len() == 0 ==> new.free_list() == old.free_list() && new.epochs()
        == old.epochs().push(1)
}

/// Whether applying `a` draws a command encoder id from `m`.
pub open spec fn draws_encoder(h: &Hub, a: Action, m: &IdentityManager) -> bool {
    a matches Action::Submit(_, commands) && commands_resolve(h, commands@) && m.can_alloc()
}

/// `new` is `old` with exactly the calls `calls` issued after the earlier ones.
pub open spec fn issued(old: &Device, new: &Device, n: nat) -> bool {
    &&& new.calls_spec().len() == old.calls_spec().len() + n
    &&& new.calls_spec().take(old.calls_spec().len() as int) == old.calls_spec()
}

/// What a successful write of a blob into a buffer changes.
pub open spec fn write_buffer_effect(
    old: &Device,
    new: &Device,
    id: Id,
    range_start: u64,
    range_end: u64,
    queued: bool,
    blob: Option<Seq<u8>>,
) -> bool {
    let h = old.hub_spec();
    let n = old.calls_spec().len() as int;
    let bytes = blob->Some_0;
    let b = buffer_of(&h, id@)->Some_0;
    let len = if queued {
        bytes.len() as int
    } else {
        range_end - range_start
    };
    &&& buffer_of(&new.hub_spec(), id@) matches Some(nb) && nb.usage == b.usage && nb.contents@ == splice(
        b.contents@,
        range_start as int,
        bytes.take(len),
    )
    &&& exists|res: Resource| slot_replaced(&h, &new.hub_spec(), ResourceKind::Buffer, id@, res)
    &&& queued ==> issued(old, new, 1) && (new.calls_spec()[n] matches BackendCall::QueueWriteBuffer {
        id: i,
        offset,
        data,
    } && i == id && offset == range_start && data@ == bytes)
    &&& !queued ==> issued(old, new, 2) && new.calls_spec()[n] == BackendCall::WaitForBuffer(id) && (
    new.calls_spec()[n + 1] matches BackendCall::SetBufferSubData { id: i, offset, data } && i == id
        && offset == range_start && data@ == bytes.take(len))
}

/// What a successful submission of `commands` changes.
pub open spec fn submit_effect(
    old: &Device,
    new: &Device,
    index: u64,
    commands: Seq<Command>,
    m: &IdentityManager,
) -> bool {
    let h = old.hub_spec();
    let e = submit_encoder(&h, m);
    &&& exists|res: Resource| h.registered(&new.hub_spec(), ResourceKind::CommandBuffer, e, res)
    &&& command_buffer_of(&new.hub_spec(), e) matches Some(c) && c.finished && c.commands@ == encoded(
        commands,
    )
    &&& exists|enc: Id|
        enc@ == e && new.calls_spec() == old.calls_spec() + seq![
            BackendCall::CreateCommandEncoder(enc),
            BackendCall::FinishCommandEncoder(enc),
            BackendCall::Submit { index, command_buffer: enc },
        ]
}

/// What a successful step changes, beyond the encoder ids drawn from `m`.
pub open spec fn step_effect(
    old: &Device,
    new: &Device,
    a: Action,
    blob: Option<Seq<u8>>,
    m: &IdentityManager,
) -> bool {
    let h = old.hub_spec();
    let n = old.calls_spec().len() as int;
    match a {
        Action::WriteBuffer { id, range_start, range_end, queued, .. } => write_buffer_effect(old, new, id, range_start, range_end, queued, blob),
        Action::WriteTexture { to, layout, size, .. } => {
            &&& new.hub_spec() == h
            &&& issued(old, new, 1)
            &&& new.calls_spec()[n] matches BackendCall::QueueWriteTexture { to: t, data, layout: l, size: z }
                && t == to && l == layout && z == size && data@ == blob->Some_0
        },
        Action::Submit(index, commands) => submit_effect(old, new, index, commands@, m),
        Action::CreateShaderModule { id, .. } => {
            &&& exists|res: Resource|
                h.registered(&new.hub_spec(), ResourceKind::ShaderModule, id@, res) && new.hub_spec().lookup(
                    ResourceKind::ShaderModule,
                    id@,
                ) == Some(res) && payload_of(res, a)
            &&& issued(old, new, 1)
            &&& new.calls_spec()[n] matches BackendCall::CreateShaderModule { id: i, words } && i == id && words@
                == spirv_words(blob->Some_0)
        },
        _ => match destroy_target(a) {
            Some((k, id)) => h.unregistered(&new.hub_spec(), k, id@) && new.calls_spec() == old.calls_spec().push(
                BackendCall::Destroy { kind: k, id },
            ),
            None => match create_target(a) {
                Some((k, id)) => {
                    &&& exists|res: Resource|
                        h.registered(&new.hub_spec(), k, id@, res) && new.hub_spec().lookup(k, id@) == Some(res)
                            && payload_of(res, a)
                    &&& new.calls_spec() == old.calls_spec() + maintain_calls(a) + seq![BackendCall::Create { kind: k, id }]
                },
                None => *new == *old,
            },
        },
    }
}

/// A buffer of `n` zero bytes.
fn zeros(n: usize) -> (r: Vec<u8>)
    ensures
        r@ == Seq::new(n as nat, |i: int| 0u8),
{
    let mut v: Vec<u8> = Vec::new();
    while v.len() < n
        invariant
            v@.len() <= n,
            v@ =~= Seq::new(v@.len(), |i: int| 0u8),
        decreases n - v@.len(),
    {
        v.push(0u8);
    }
    v
}

impl Device {
    /// Binds `res` to `id` in the registry of kind `kind` and issues the
    /// creation call, preceded by an identity resynchronization when `maintain`.
    fn create_resource(&mut self, kind: ResourceKind, id: Id, maintain: bool, res: Resource) -> (r: Result<(), ReplayError>)
        requires
            old(self).wf(),
        ensures
            final(self).wf(),
            r is Ok <==> old(self).hub_spec().can_register(kind, id@),
            r is Ok ==> old(self).hub_spec().registered(&final(self).hub_spec(), kind, id@, res)
                && final(self).hub_spec().lookup(kind, id@) == Some(res)
                && final(self).calls_spec() == old(self).calls_spec() + (if maintain {
                seq![BackendCall::MaintainIds]
            } else {
                Seq::empty()
            }) + seq![BackendCall::Create { kind, id }],
            r is Err ==> r == Err::<(), ReplayError>(ReplayError::InvalidHandle) && *final(self) == *old(self),
    {
        let ghost g = res;
        let ok = self.register(kind, id, res);
        if ok.is_err() {
            return Err(ReplayError::InvalidHandle);
        }
        if maintain {
            self.push_call(BackendCall::MaintainIds);
        }
        self.push_call(BackendCall::Create { kind, id });
        proof {
            if maintain {
                assert(self.calls_spec() =~= old(self).calls_spec() + seq![BackendCall::MaintainIds] + seq![BackendCall::Create { kind, id }]);
            } else {
                assert(self.calls_spec() =~= old(self).calls_spec() + Seq::<BackendCall>::empty() + seq![BackendCall::Create { kind, id }]);
            }
        }
        Ok(())
    }

    /// Frees `id` from the registry of kind `kind` and issues the destruction call.
    fn destroy_resource(&mut self, kind: ResourceKind, id: Id) -> (r: Result<(), ReplayError>)
        requires
            old(self).wf(),
        ensures
            final(self).wf(),
            r is Ok <==> old(self).hub_spec().live(kind, id@),
            r is Ok ==> old(self).hub_spec().unregistered(&final(self).hub_spec(), kind, id@)
                && final(self).calls_spec() == old(self).calls_spec().push(BackendCall::Destroy { kind, id }),
            r is Err ==> r == Err::<(), ReplayError>(ReplayError::InvalidHandle) && *final(self) == *old(self),
    {
        match self.unregister(kind, id) {
            Ok(_) => {
                self.push_call(BackendCall::Destroy { kind, id });
                Ok(())
            },
            Err(_) => Err(ReplayError::InvalidHandle),
        }
    }

    /// Whether all handles in `ids` resolve in the registry of kind `k`.
    fn all_resolve(&self, k: ResourceKind, ids: &Vec<Id>) -> (r: bool)
        requires
            self.wf(),
        ensures
            r == all_live(&self.hub_spec(), k, ids@),
    {
        let mut i: usize = 0;
        while i < ids.len()
            invariant
                self.wf(),
                i <= ids@.len(),
                forall|j: int| 0 <= j < i ==> self.hub_spec().live(k, (#[trigger] ids@[j])@),
            decreases ids@.len() - i,
        {
            if !self.hub().contains(k, ids[i], &Token::first(k)) {
                return false;
            }
            i += 1;
        }
        true
    }

    /// Whether the resources of all bindings resolve.
    fn bindings_resolve(&self, entries: &Vec<(u32, BindingResource)>) -> (r: bool)
        requires
            self.wf(),
        ensures
            r == forall|i: int| 0 <= i < entries@.len() ==> binding_live(&self.hub_spec(), (#[trigger] entries@[i]).1),
    {
        let mut i: usize = 0;
        while i < entries.len()
            invariant
                self.wf(),
                i <= entries@.len(),
                forall|j: int| 0 <= j < i ==> binding_live(&self.hub_spec(), (#[trigger] entries@[j]).1),
            decreases entries@.len() - i,
        {
            let ok = match &entries[i].1 {
                BindingResource::Buffer { id, .. } => self.buffer_usage(*id, &Token::first(ResourceKind::Buffer)).is_some(),
                BindingResource::Sampler(id) => self.hub().contains(ResourceKind::Sampler, *id, &Token::first(ResourceKind::Sampler)),
                BindingResource::TextureView(id) => self.hub().contains(ResourceKind::TextureView, *id, &Token::first(ResourceKind::TextureView)),
                BindingResource::TextureViewArray(ids) => self.all_resolve(ResourceKind::TextureView, ids),
            };
            if !ok {
                return false;
            }
            i += 1;
        }
        true
    }

    /// Stores `n` bytes of `data` at `start` in the buffer `id`.
    fn store_bytes(&mut self, id: Id, start: u64, data: &Vec<u8>, n: usize) -> (r: Result<(), ReplayError>)
        requires
            old(self).wf(),
            n <= data@.len(),
            buffer_of(&old(self).hub_spec(), id@) matches Some(b) && start + n <= b.contents@.len(),
        ensures
            final(self).wf(),
            r is Ok,
            final(self).calls_spec() == old(self).calls_spec(),
            buffer_of(&final(self).hub_spec(), id@) matches Some(nb) && nb.usage == buffer_of(
                &old(self).hub_spec(),
                id@,
            )->Some_0.usage && nb.contents@ == splice(
                buffer_of(&old(self).hub_spec(), id@)->Some_0.contents@,
                start as int,
                data@.take(n as int),
            ),
            exists|res: Resource| slot_replaced(&old(self).hub_spec(), &final(self).hub_spec(), ResourceKind::Buffer, id@, res),
    {
        let taken = self.unregister(ResourceKind::Buffer, id);
        match taken {
            Ok(Resource::Buffer(b)) => {
                let ghost orig = b.contents@;
                let usage = b.usage;
                let mut contents = b.contents;
                let total = contents.len();
                assert(start <= total);
                let s = start as usize;
                let mut j: usize = 0;
                while j < n
                    invariant
                        j <= n,
                        n <= data@.len(),
                        s == start,
                        orig.len() == total as int,
                        s + n <= orig.len(),
                        contents@.len() == orig.len(),
                        contents@ =~= orig.take(s as int) + data@.take(j as int) + orig.skip(s + j),
                    decreases n - j,
                {
                    contents.set(s + j, data[j]);
                    j += 1;
                    assert(contents@ =~= orig.take(s as int) + data@.take(j as int) + orig.skip(s + j));
                }
                let res = Resource::Buffer(BufferRecord { usage, contents });
                let ghost g = res;
                let ok = self.register(ResourceKind::Buffer, id, res);
                proof {
                    old(self).hub_spec().lemma_reg_backend(ResourceKind::Buffer);
                    assert(ok is Ok);
                    assert(old(self).hub_spec().reg(ResourceKind::Buffer).entries().remove(id@.index).insert(
                        id@.index, (id@.epoch, g)) =~= old(self).hub_spec().reg(ResourceKind::Buffer).entries().insert(
                        id@.index, (id@.epoch, g)));
                    assert(slot_replaced(&old(self).hub_spec(), &self.hub_spec(), ResourceKind::Buffer, id@, g));
                }
                Ok(())
            },
            _ => Err(ReplayError::InvalidHandle),
        }
    }

    /// Writes a blob into a buffer: queued, the whole blob at `range_start`;
    /// immediate, after waiting for the buffer to be idle, the first
    /// `range_end - range_start` bytes of it.
    fn write_buffer(
        &mut self,
        id: Id,
        range_start: u64,
        range_end: u64,
        queued: bool,
        blob: Option<Vec<u8>>,
    ) -> (r: Result<(), ReplayError>)
        requires
            old(self).wf(),
        ensures
            final(self).wf(),
            r is Ok <==> write_buffer_error(&old(self).hub_spec(), id, range_start, range_end, queued, blob_view(blob))
                is None,
            r matches Err(e) ==> Some(e) == write_buffer_error(
                &old(self).hub_spec(),
                id,
                range_start,
                range_end,
                queued,
                blob_view(blob),
            ) && *final(self) == *old(self),
            r is Ok ==> write_buffer_effect(old(self), final(self), id, range_start, range_end, queued, blob_view(blob)),
    {
        let mut bytes = match blob {
            Some(b) => b,
            None => return Err(ReplayError::IoFailure),
        };
        let buffer_len: usize = match self.buffer_contents(id) {
            Some(c) => c.len(),
            None => return Err(ReplayError::InvalidHandle),
        };
        if range_start > range_end {
            return Err(ReplayError::CallFailure);
        }
        let size: u64 = range_end - range_start;
        if (bytes.len() as u64) < size {
            return Err(ReplayError::IoFailure);
        }
        let n: usize = if queued {
            bytes.len()
        } else {
            size as usize
        };
        if n > buffer_len || range_start > (buffer_len - n) as u64 {
            return Err(ReplayError::CallFailure);
        }
        let ghost all = bytes@;
        let _ = self.store_bytes(id, range_start, &bytes, n);
        if queued {
            assert(all.take(n as int) =~= all);
            self.push_call(BackendCall::QueueWriteBuffer { id, offset: range_start, data: bytes });
        } else {
            bytes.truncate(n);
            self.push_call(BackendCall::WaitForBuffer(id));
            self.push_call(BackendCall::SetBufferSubData { id, offset: range_start, data: bytes });
        }
        proof {
            assert(self.calls_spec().take(old(self).calls_spec().len() as int) =~= old(self).calls_spec());
        }
        Ok(())
    }

    /// Opens a command encoder with an id drawn from `comb_manager`, records
    /// `commands` into it, finishes it and submits the command buffer.
    fn submit(&mut self, index: u64, commands: Vec<Command>, comb_manager: &mut IdentityManager) -> (r: Result<
        (),
        ReplayError,
    >)
        requires
            old(self).wf(),
            old(comb_manager).wf(),
        ensures
            final(self).wf(),
            final(comb_manager).wf(),
            r is Ok <==> submit_error(&old(self).hub_spec(), commands@, old(comb_manager)) is None,
            r matches Err(e) ==> Some(e) == submit_error(&old(self).hub_spec(), commands@, old(comb_manager))
                && *final(self) == *old(self),
            r is Ok ==> submit_effect(old(self), final(self), index, commands@, old(comb_manager)),
            commands_resolve(&old(self).hub_spec(), commands@) && old(comb_manager).can_alloc() ==> allocated(
                old(comb_manager),
                final(comb_manager),
            ),
            !(commands_resolve(&old(self).hub_spec(), commands@) && old(comb_manager).can_alloc()) ==> *final(comb_manager)
                == *old(comb_manager),
    {
        if !self.commands_ok(&commands) {
            return Err(ReplayError::InvalidHandle);
        }
        if !comb_manager.has_capacity() {
            return Err(ReplayError::CallFailure);
        }
        let backend = self.hub().backend();
        let encoder = comb_manager.allocate(backend);
        let record = CommandBufferRecord { commands: Vec::new(), finished: false, copy_dst_uses: Vec::new() };
        let res = Resource::CommandBuffer(record);
        let ghost g = res;
        if self.register(ResourceKind::CommandBuffer, encoder, res).is_err() {
            return Err(ReplayError::InvalidHandle);
        }
        let ghost registered_hub = self.hub_spec();
        proof {
            lemma_commands_resolve_frame(&old(self).hub_spec(), &self.hub_spec(), commands@);
        }
        self.push_call(BackendCall::CreateCommandEncoder(encoder));
        let ghost mid = *self;
        let done = self.encode_commands(encoder, commands);
        match done {
            Ok(cb) => {
                self.push_call(BackendCall::Submit { index, command_buffer: cb });
                proof {
                    let e = encoder@;
                    let res1 = choose|res1: Resource|
                        slot_replaced(&mid.hub_spec(), &self.hub_spec(), ResourceKind::CommandBuffer, e, res1);
                    assert(self.hub_spec().reg(ResourceKind::CommandBuffer).entries() =~= old(self).hub_spec().reg(
                        ResourceKind::CommandBuffer,
                    ).entries().insert(e.index, (e.epoch, res1)));
                    assert forall|j: ResourceKind| j != ResourceKind::CommandBuffer implies #[trigger] self.hub_spec().reg(j)
                        == old(self).hub_spec().reg(j) by {
                        assert(mid.hub_spec().reg(j) == registered_hub.reg(j));
                    }
                    assert(old(self).hub_spec().registered(&self.hub_spec(), ResourceKind::CommandBuffer, e, res1));
                    assert(self.calls_spec() =~= old(self).calls_spec() + seq![
                        BackendCall::CreateCommandEncoder(encoder),
                        BackendCall::FinishCommandEncoder(encoder),
                        BackendCall::Submit { index, command_buffer: encoder },
                    ]);
                    assert(g matches Resource::CommandBuffer(c) && c.commands@ == Seq::<crate::hub::RawCommand>::empty());
                    assert(command_buffer_of(&mid.hub_spec(), e)->Some_0.commands@ =~= Seq::<crate::hub::RawCommand>::empty());
                }
                Ok(())
            },
            Err(e) => Err(e),
        }
    }

    /// Applies one recorded action to the device. `blob` holds the bytes of the
    /// blob file the action names, or `None` when it could not be read;
    /// `comb_manager` hands out the ids of the command encoders that
    /// submissions open. A step either fails, changing no device state, or
    /// does exactly what the action records.
    pub fn process(&mut self, action: Action, blob: Option<Vec<u8>>, comb_manager: &mut IdentityManager) -> (r: Result<
        (),
        ReplayError,
    >)
        requires
            old(self).wf(),
            old(comb_manager).wf(),
        ensures
            final(self).wf(),
            final(comb_manager).wf(),
            r is Ok <==> step_error(&old(self).hub_spec(), action, blob_view(blob), old(comb_manager)) is None,
            r matches Err(e) ==> Some(e) == step_error(&old(self).hub_spec(), action, blob_view(blob), old(comb_manager))
                && *final(self) == *old(self),
            r is Ok ==> step_effect(old(self), final(self), action, blob_view(blob), old(comb_manager)),
            draws_encoder(&old(self).hub_spec(), action, old(comb_manager)) ==> allocated(
                old(comb_manager),
                final(comb_manager),
            ),
            !draws_encoder(&old(self).hub_spec(), action, old(comb_manager)) ==> *final(comb_manager)
                == *old(comb_manager),
    {
        let ghost a = action;
        match action {
            Action::Init { .. } => Err(ReplayError::ProtocolViolation),
            Action::CreateSwapChain { .. } => Err(ReplayError::ProtocolViolation),
            Action::PresentSwapChain(_) => Err(ReplayError::ProtocolViolation),
            Action::GetSwapChainTexture { id, .. } => {
                if id.is_some() {
                    Err(ReplayError::ProtocolViolation)
                } else {
                    Ok(())
                }
            },
            Action::CreateBuffer { id, desc } => {
                if !self.hub().can_register_id(ResourceKind::Buffer, id, &Token::first(ResourceKind::Buffer)) {
                    return Err(ReplayError::InvalidHandle);
                }
                if desc.size > usize::MAX as u64 {
                    return Err(ReplayError::CallFailure);
                }
                let contents = zeros(desc.size as usize);
                let res = Resource::Buffer(BufferRecord { usage: desc.usage, contents });
                let ghost g = res;
                let r = self.create_resource(ResourceKind::Buffer, id, true, res);
                proof {
                    if r is Ok {
                        assert(old(self).hub_spec().registered(&self.hub_spec(), ResourceKind::Buffer, id@, g));
                        assert(payload_of(g, a));
                    }
                }
                r
            },
            Action::DestroyBuffer(id) => self.destroy_resource(ResourceKind::Buffer, id),
            Action::CreateTexture { id, desc } => {
                let res = Resource::Object(desc.label);
                let ghost g = res;
                let r = self.create_resource(ResourceKind::Texture, id, true, res);
                proof {
                    if r is Ok {
                        assert(old(self).hub_spec().registered(&self.hub_spec(), ResourceKind::Texture, id@, g));
                        assert(payload_of(g, a));
                    }
                }
                r
            },
            Action::DestroyTexture(id) => self.destroy_resource(ResourceKind::Texture, id),
            Action::CreateTextureView { id, parent_id, desc } => {
                if !self.hub().contains(ResourceKind::Texture, parent_id, &Token::first(ResourceKind::Texture)) {
                    return Err(ReplayError::InvalidHandle);
                }
                let label = match desc {
                    Some(d) => d.label,
                    None => String::new(),
                };
                let res = Resource::Object(label);
                let ghost g = res;
                let r = self.create_resource(ResourceKind::TextureView, id, true, res);
                proof {
                    if r is Ok {
                        assert(old(self).hub_spec().registered(&self.hub_spec(), ResourceKind::TextureView, id@, g));
                        assert(payload_of(g, a));
                    }
                }
                r
            },
            Action::DestroyTextureView(id) => self.destroy_resource(ResourceKind::TextureView, id),
            Action::CreateSampler { id, desc } => {
                let res = Resource::Object(desc.label);
                let ghost g = res;
                let r = self.create_resource(ResourceKind::Sampler, id, true, res);
                proof {
                    if r is Ok {
                        assert(old(self).hub_spec().registered(&self.hub_spec(), ResourceKind::Sampler, id@, g));
                        assert(payload_of(g, a));
                    }
                }
                r
            },
            Action::DestroySampler(id) => self.destroy_resource(ResourceKind::Sampler, id),
            Action::CreateBindGroupLayout { id, label, .. } => {
                let res = Resource::Object(label);
                let ghost g = res;
                let r = self.create_resource(ResourceKind::BindGroupLayout, id, false, res);
                proof {
                    if r is Ok {
                        assert(old(self).hub_spec().registered(&self.hub_spec(), ResourceKind::BindGroupLayout, id@, g));
                        assert(payload_of(g, a));
                    }
                }
                r
            },
            Action::DestroyBindGroupLayout(id) => self.destroy_resource(ResourceKind::BindGroupLayout, id),
            Action::CreatePipelineLayout { id, bind_group_layouts, .. } => {
                if !self.all_resolve(ResourceKind::BindGroupLayout, &bind_group_layouts) {
                    return Err(ReplayError::InvalidHandle);
                }
                let res = Resource::Object(String::new());
                let ghost g = res;
                let r = self.create_resource(ResourceKind::PipelineLayout, id, true, res);
                proof {
                    if r is Ok {
                        assert(old(self).hub_spec().registered(&self.hub_spec(), ResourceKind::PipelineLayout, id@, g));
                        assert(payload_of(g, a));
                    }
                }
                r
            },
            Action::DestroyPipelineLayout(id) => self.destroy_resource(ResourceKind::PipelineLayout, id),
            Action::CreateBindGroup { id, label, layout_id, entries } => {
                if !self.hub().contains(ResourceKind::BindGroupLayout, layout_id, &Token::first(ResourceKind::BindGroupLayout)) || !self.bindings_resolve(&entries) {
                    return Err(ReplayError::InvalidHandle);
                }
                let res = Resource::Object(label);
                let ghost g = res;
                let r = self.create_resource(ResourceKind::BindGroup, id, true, res);
                proof {
                    if r is Ok {
                        assert(old(self).hub_spec().registered(&self.hub_spec(), ResourceKind::BindGroup, id@, g));
                        assert(payload_of(g, a));
                    }
                }
                r
            },
            Action::DestroyBindGroup(id) => self.destroy_resource(ResourceKind::BindGroup, id),
            Action::CreateShaderModule { id, .. } => {
                let bytes = match blob {
                    Some(b) => b,
                    None => return Err(ReplayError::IoFailure),
                };
                if bytes.len() % 4 != 0 {
                    return Err(ReplayError::IoFailure);
                }
                if !self.hub().can_register_id(ResourceKind::ShaderModule, id, &Token::first(ResourceKind::ShaderModule)) {
                    return Err(ReplayError::InvalidHandle);
                }
                let words = words_of_blob(&bytes);
                let res = Resource::Object(String::new());
                let ghost g = res;
                let _ = self.register(ResourceKind::ShaderModule, id, res);
                proof {
                    assert(old(self).hub_spec().registered(&self.hub_spec(), ResourceKind::ShaderModule, id@, g));
                    assert(payload_of(g, a));
                }
                self.push_call(BackendCall::CreateShaderModule { id, words });
                proof {
                    assert(self.calls_spec().take(old(self).calls_spec().len() as int) =~= old(self).calls_spec());
                }
                Ok(())
            },
            Action::DestroyShaderModule(id) => self.destroy_resource(ResourceKind::ShaderModule, id),
            Action::CreateComputePipeline { id, desc } => {
                let token = Token::first(ResourceKind::PipelineLayout);
                let layout_ok = self.hub().contains(ResourceKind::PipelineLayout, desc.layout, &token);
                let token = token.enter(ResourceKind::ShaderModule);
                if !layout_ok || !self.hub().contains(ResourceKind::ShaderModule, desc.compute_stage.module, &token) {
                    return Err(ReplayError::InvalidHandle);
                }
                let res = Resource::Object(String::new());
                let ghost g = res;
                let r = self.create_resource(ResourceKind::ComputePipeline, id, true, res);
                proof {
                    if r is Ok {
                        assert(old(self).hub_spec().registered(&self.hub_spec(), ResourceKind::ComputePipeline, id@, g));
                        assert(payload_of(g, a));
                    }
                }
                r
            },
            Action::DestroyComputePipeline(id) => self.destroy_resource(ResourceKind::ComputePipeline, id),
            Action::CreateRenderPipeline { id, desc } => {
                let token = Token::first(ResourceKind::PipelineLayout);
                let layout_ok = self.hub().contains(ResourceKind::PipelineLayout, desc.layout, &token);
                let token = token.enter(ResourceKind::ShaderModule);
                let vertex_ok = self.hub().contains(ResourceKind::ShaderModule, desc.vertex_stage.module, &token);
                let fragment_ok = match &desc.fragment_stage {
                    Some(f) => self.hub().contains(ResourceKind::ShaderModule, f.module, &token),
                    None => true,
                };
                if !layout_ok || !vertex_ok || !fragment_ok {
                    return Err(ReplayError::InvalidHandle);
                }
                let res = Resource::Object(String::new());
                let ghost g = res;
                let r = self.create_resource(ResourceKind::RenderPipeline, id, true, res);
                proof {
                    if r is Ok {
                        assert(old(self).hub_spec().registered(&self.hub_spec(), ResourceKind::RenderPipeline, id@, g));
                        assert(payload_of(g, a));
                    }
                }
                r
            },
            Action::DestroyRenderPipeline(id) => self.destroy_resource(ResourceKind::RenderPipeline, id),
            Action::CreateRenderBundle { id, desc, .. } => {
                let res = Resource::Object(desc.label);
                let ghost g = res;
                let r = self.create_resource(ResourceKind::RenderBundle, id, true, res);
                proof {
                    if r is Ok {
                        assert(old(self).hub_spec().registered(&self.hub_spec(), ResourceKind::RenderBundle, id@, g));
                        assert(payload_of(g, a));
                    }
                }
                r
            },
            Action::DestroyRenderBundle(id) => self.destroy_resource(ResourceKind::RenderBundle, id),
            Action::CreateQuerySet { id, desc } => {
                let res = Resource::QuerySet(QuerySetRecord { ty: desc.type_, count: desc.count });
                let ghost g = res;
                let r = self.create_resource(ResourceKind::QuerySet, id, true, res);
                proof {
                    if r is Ok {
                        assert(old(self).hub_spec().registered(&self.hub_spec(), ResourceKind::QuerySet, id@, g));
                        assert(payload_of(g, a));
                    }
                }
                r
            },
            Action::DestroyQuerySet(id) => self.destroy_resource(ResourceKind::QuerySet, id),
            Action::WriteBuffer { id, range_start, range_end, queued, .. } => self.write_buffer(
                id,
                range_start,
                range_end,
                queued,
                blob,
            ),
            Action::WriteTexture { to, layout, size, .. } => {
                let bytes = match blob {
                    Some(b) => b,
                    None => return Err(ReplayError::IoFailure),
                };
                if !self.hub().contains(ResourceKind::Texture, to.texture, &Token::first(ResourceKind::Texture)) {
                    return Err(ReplayError::InvalidHandle);
                }
                self.push_call(BackendCall::QueueWriteTexture { to, data: bytes, layout, size });
                proof {
                    assert(self.calls_spec().take(old(self).calls_spec().len() as int) =~= old(self).calls_spec());
                }
                Ok(())
            },
            Action::Submit(index, commands) => self.submit(index, commands, comb_manager),
        }
    }
}

/// Whether commands resolve depends on the buffer, texture and texture-view
/// registries alone.
pub proof fn lemma_commands_resolve_frame(h1: &Hub, h2: &Hub, cmds: Seq<Command>)
    requires
        h1.reg(ResourceKind::Buffer) == h2.reg(ResourceKind::Buffer),
        h1.reg(ResourceKind::Texture) == h2.reg(ResourceKind::Texture),
        h1.reg(ResourceKind::TextureView) == h2.reg(ResourceKind::TextureView),
    ensures
        commands_resolve(h1, cmds) == commands_resolve(h2, cmds),
{
    assert forall|i: int| 0 <= i < cmds.len() implies command_resolves(h1, #[trigger] cmds[i]) == command_resolves(h2, cmds[i]) by {
        match cmds[i] {
            Command::RunRenderPass { target_colors, .. } => {
                assert(attachments_live(h1, target_colors@) == attachments_live(h2, target_colors@));
            },
            _ => {},
        }
    }
}

} // verus!
