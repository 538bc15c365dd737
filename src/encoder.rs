//! Turning a recorded command list into one finished command buffer.
use vstd::prelude::*;

use crate::device::{buffer_of, command_buffer_of, open_encoder, slot_replaced, BackendCall, Device, ReplayError};
use crate::hub::{CommandBufferRecord, Hub, RawCommand, Resource, ResourceKind};
use crate::lock_order::Token;
use crate::id::{CommandBufferId, CommandEncoderId};
use crate::trace::{ColorAttachmentDescriptor, Command};

verus! {

/// Whether every attachment of a render pass resolves to a texture view.
pub open spec fn attachments_live(h: &Hub, colors: Seq<ColorAttachmentDescriptor>) -> bool {
    forall|i: int|
        0 <= i < colors.len() ==> h.live(ResourceKind::TextureView, (#[trigger] colors[i]).attachment@)
            && (colors[i].resolve_target matches Some(t) ==> h.live(ResourceKind::TextureView, t@))
}

/// Whether every handle that `c` names resolves to a resource of its kind.
pub open spec fn command_resolves(h: &Hub, c: Command) -> bool {
    match c {
        Command::CopyBufferToBuffer { src, dst, .. } => buffer_of(h, src@) is Some && buffer_of(h, dst@) is Some,
        Command::CopyBufferToTexture { src, dst, .. } => buffer_of(h, src.buffer@) is Some && h.live(
            ResourceKind::Texture,
            dst.texture@,
        ),
        Command::CopyTextureToBuffer { src, dst, .. } => h.live(ResourceKind::Texture, src.texture@)
            && buffer_of(h, dst.buffer@) is Some,
        Command::CopyTextureToTexture { src, dst, .. } => h.live(ResourceKind::Texture, src.texture@)
            && h.live(ResourceKind::Texture, dst.texture@),
        Command::RunComputePass { .. } => true,
        Command::RunRenderPass { target_colors, target_depth_stencil, .. } => attachments_live(
            h,
            target_colors@,
        ) && (target_depth_stencil matches Some(d) ==> h.live(ResourceKind::TextureView, d.attachment@)),
    }
}

/// Whether every command of `cmds` resolves.
pub open spec fn commands_resolve(h: &Hub, cmds: Seq<Command>) -> bool {
    forall|i: int| 0 <= i < cmds.len() ==> command_resolves(h, #[trigger] cmds[i])
}

/// The backend entries that a command list becomes: one per command, in order.
pub open spec fn encoded(cmds: Seq<Command>) -> Seq<RawCommand> {
    cmds.map_values(|c: Command| RawCommand::Encoded(c))
}

impl Device {
    /// Opens an empty command encoder under `id`.
    pub fn create_command_encoder(&mut self, id: CommandEncoderId) -> (r: Result<CommandEncoderId, ReplayError>)
        requires
            old(self).wf(),
        ensures
            final(self).wf(),
            r is Ok <==> old(self).hub_spec().can_register(ResourceKind::CommandBuffer, id@),
            r matches Ok(e) ==> {
                &&& e == id
                &&& command_buffer_of(&final(self).hub_spec(), id@) matches Some(c) && !c.finished && c.commands@.len() == 0
                &&& exists|res: Resource| old(self).hub_spec().registered(&final(self).hub_spec(), ResourceKind::CommandBuffer, id@, res)
                &&& final(self).calls_spec() == old(self).calls_spec().push(BackendCall::CreateCommandEncoder(id))
            },
            r is Err ==> r == Err::<CommandEncoderId, ReplayError>(ReplayError::InvalidHandle) && *final(self)
                == *old(self),
    {
        let res = Resource::CommandBuffer(CommandBufferRecord { commands: Vec::new(), finished: false, copy_dst_uses: Vec::new() });
        let ghost g = res;
        if self.register(ResourceKind::CommandBuffer, id, res).is_err() {
            return Err(ReplayError::InvalidHandle);
        }
        self.push_call(BackendCall::CreateCommandEncoder(id));
        proof {
            assert(old(self).hub_spec().registered(&self.hub_spec(), ResourceKind::CommandBuffer, id@, g));
        }
        Ok(id)
    }

    /// Whether every attachment of a render pass resolves.
    fn attachments_resolve(&self, colors: &Vec<ColorAttachmentDescriptor>) -> (r: bool)
        requires
            self.wf(),
        ensures
            r == attachments_live(&self.hub_spec(), colors@),
    {
        let mut i: usize = 0;
        while i < colors.len()
            invariant
                self.wf(),
                i <= colors@.len(),
                forall|j: int|
                    0 <= j < i ==> self.hub_spec().live(ResourceKind::TextureView, (#[trigger] colors@[j]).attachment@)
                        && (colors@[j].resolve_target matches Some(t) ==> self.hub_spec().live(
                        ResourceKind::TextureView,
                        t@,
                    )),
            decreases colors@.len() - i,
        {
            let c = &colors[i];
            if !self.hub().contains(ResourceKind::TextureView, c.attachment, &Token::first(ResourceKind::TextureView)) {
                return false;
            }
            match c.resolve_target {
                Some(t) => {
                    if !self.hub().contains(ResourceKind::TextureView, t, &Token::first(ResourceKind::TextureView)) {
                        return false;
                    }
                },
                None => {},
            }
            i += 1;
        }
        true
    }

    /// Whether every handle that `c` names resolves.
    fn command_ok(&self, c: &Command) -> (r: bool)
        requires
            self.wf(),
        ensures
            r == command_resolves(&self.hub_spec(), *c),
    {
        match c {
            Command::CopyBufferToBuffer { src, dst, .. } => self.buffer_usage(*src, &Token::first(ResourceKind::Buffer)).is_some()
                && self.buffer_usage(*dst, &Token::first(ResourceKind::Buffer)).is_some(),
            Command::CopyBufferToTexture { src, dst, .. } => self.buffer_usage(src.buffer, &Token::first(ResourceKind::Buffer)).is_some()
                && self.hub().contains(ResourceKind::Texture, dst.texture, &Token::first(ResourceKind::Texture)),
            Command::CopyTextureToBuffer { src, dst, .. } => self.hub().contains(ResourceKind::Texture, src.texture, &Token::first(ResourceKind::Texture))
                && self.buffer_usage(dst.buffer, &Token::first(ResourceKind::Buffer)).is_some(),
            Command::CopyTextureToTexture { src, dst, .. } => self.hub().contains(ResourceKind::Texture, src.texture, &Token::first(ResourceKind::Texture))
                && self.hub().contains(ResourceKind::Texture, dst.texture, &Token::first(ResourceKind::Texture)),
            Command::RunComputePass { .. } => true,
            Command::RunRenderPass { target_colors, target_depth_stencil, .. } => {
                let colors_ok = self.attachments_resolve(target_colors);
                let depth_ok = match target_depth_stencil {
                    Some(d) => self.hub().contains(ResourceKind::TextureView, d.attachment, &Token::first(ResourceKind::TextureView)),
                    None => true,
                };
                colors_ok && depth_ok
            },
        }
    }

    /// Whether every command of `commands` resolves.
    pub(crate) fn commands_ok(&self, commands: &Vec<Command>) -> (r: bool)
        requires
            self.wf(),
        ensures
            r == commands_resolve(&self.hub_spec(), commands@),
    {
        let mut i: usize = 0;
        while i < commands.len()
            invariant
                self.wf(),
                i <= commands@.len(),
                forall|j: int| 0 <= j < i ==> command_resolves(&self.hub_spec(), #[trigger] commands@[j]),
            decreases commands@.len() - i,
        {
            if !self.command_ok(&commands[i]) {
                return false;
            }
            i += 1;
        }
        true
    }

    /// Records `commands` into the open command buffer `encoder`, in order, one
    /// entry each, and finishes it. The finished command buffer keeps the
    /// encoder's handle, which is returned. An empty list still gives a
    /// finished command buffer. Fails, changing nothing, when the encoder is not
    /// open or a command names a handle that does not resolve.
    pub fn encode_commands(&mut self, encoder: CommandEncoderId, commands: Vec<Command>) -> (r: Result<
        CommandBufferId,
        ReplayError,
    >)
        requires
            old(self).wf(),
        ensures
            final(self).wf(),
            r is Ok <==> open_encoder(&old(self).hub_spec(), encoder@) && commands_resolve(
                &old(self).hub_spec(),
                commands@,
            ),
            r matches Ok(id) ==> {
                &&& id == encoder
                &&& command_buffer_of(&final(self).hub_spec(), encoder@) matches Some(c) && c.finished
                    && c.commands@ == command_buffer_of(&old(self).hub_spec(), encoder@)->Some_0.commands@
                    + encoded(commands@)
                &&& exists|res: Resource|
                    slot_replaced(&old(self).hub_spec(), &final(self).hub_spec(), ResourceKind::CommandBuffer, encoder@, res)
                &&& final(self).calls_spec() == old(self).calls_spec().push(BackendCall::FinishCommandEncoder(encoder))
            },
            r is Err ==> r == Err::<CommandBufferId, ReplayError>(ReplayError::InvalidHandle) && *final(self)
                == *old(self),
    {
        if !self.is_open_encoder(encoder, &Token::first(ResourceKind::CommandBuffer)) || !self.commands_ok(&commands) {
            return Err(ReplayError::InvalidHandle);
        }
        let ghost all = commands@;
        let mut rest = commands;
        let mut raw: Vec<RawCommand> = Vec::new();
        while rest.len() > 0
            invariant
                raw@.len() + rest@.len() == all.len(),
                rest@ == all.skip(raw@.len() as int),
                raw@ == encoded(all.take(raw@.len() as int)),
            decreases rest@.len(),
        {
            let c = rest.remove(0);
            let ghost n = raw@.len();
            raw.push(RawCommand::Encoded(c));
            assert(raw@ =~= encoded(all.take(n as int + 1)));
            assert(rest@ =~= all.skip(n as int + 1));
        }
        assert(all.take(all.len() as int) =~= all);
        self.record_raw(encoder, raw, Vec::new(), true);
        self.push_call(BackendCall::FinishCommandEncoder(encoder));
        Ok(encoder)
    }
}

} // verus!
