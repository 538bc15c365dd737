//! The replay state machine: the first action opens the device, every later
//! one is applied to it.
use vstd::prelude::*;

use crate::device::{Device, ReplayError};
use crate::hub::{Resource, ResourceKind};
use crate::identity::IdentityManager;
use crate::encoder::commands_resolve;
use crate::replay::{allocated, submit_encoder, create_target, destroy_target, blob_view, draws_encoder, step_effect, step_error};
use crate::trace::Action;

verus! {

/// Where a replay stands.
#[derive(Clone, Copy, Debug, PartialEq, Eq, Structural)]
pub enum PlayerState {
    /// No action seen yet: the next one must be `Init`.
    AwaitingInit,
    /// The device exists; `Init` may not come again.
    Running,
}

/// Every command buffer of `d` sits at an index below the next one that `m`
/// hands out, so the encoder of the next submission finds its slot free.
pub open spec fn encoders_below(d: &Device, m: &IdentityManager) -> bool {
    forall|i: u32|
        #[trigger] d.hub_spec().reg(ResourceKind::CommandBuffer).entries().contains_key(i) ==> i
            < m.epochs().len()
}

/// Replays an action stream against a device model.
pub struct Player {
    state: PlayerState,
    device: Option<Device>,
    comb_manager: IdentityManager,
}

impl Player {
    pub closed spec fn state_spec(&self) -> PlayerState {
        self.state
    }

    /// The device, once `Init` was replayed.
    pub closed spec fn device_spec(&self) -> Option<Device> {
        self.device
    }

    /// The allocator of command encoder ids.
    pub closed spec fn ids_spec(&self) -> IdentityManager {
        self.comb_manager
    }

    pub open spec fn wf(&self) -> bool {
        &&& self.ids_spec().wf()
        &&& self.ids_spec().free_list().len() == 0
        &&& self.device_spec() matches Some(d) ==> encoders_below(&d, &self.ids_spec())
        &&& self.state_spec() == PlayerState::AwaitingInit ==> self.device_spec() is None
        &&& self.state_spec() == PlayerState::Running ==> (self.device_spec() matches Some(d) && d.wf())
    }

    /// A player that has seen no action.
    pub fn new() -> (r: Player)
        ensures
            r.wf(),
            r.state_spec() == PlayerState::AwaitingInit,
            r.ids_spec().free_list().len() == 0,
            r.ids_spec().epochs().len() == 0,
    {
        Player { state: PlayerState::AwaitingInit, device: None, comb_manager: IdentityManager::new() }
    }

    pub fn state(&self) -> (r: PlayerState)
        ensures
            r == self.state_spec(),
    {
        self.state
    }

    /// The device, once `Init` was replayed.
    pub fn device(&self) -> (r: Option<&Device>)
        ensures
            r matches Some(d) ==> self.device_spec() == Some(*d),
            r is None ==> self.device_spec() is None,
    {
        match &self.device {
            Some(d) => Some(d),
            None => None,
        }
    }

    /// Replays one action. The first action must be `Init`, which opens a
    /// device on its backend; `Init` at any later point, or anything else
    /// first, is a protocol violation that changes nothing. Every later
    /// action is applied to the device as [`Device::process`] states.
    pub fn replay(&mut self, action: Action, blob: Option<Vec<u8>>) -> (r: Result<(), ReplayError>)
        requires
            old(self).wf(),
        ensures
            final(self).wf(),
            old(self).state_spec() == PlayerState::AwaitingInit ==> {
                &&& (r is Ok <==> action is Init)
                &&& r is Err ==> r == Err::<(), ReplayError>(ReplayError::ProtocolViolation) && *final(self)
                    == *old(self)
                &&& action matches Action::Init { backend, .. } ==> {
                    &&& final(self).state_spec() == PlayerState::Running
                    &&& final(self).ids_spec() == old(self).ids_spec()
                    &&& (final(self).device_spec() matches Some(d) && d.hub_spec().backend_spec() == backend
                        && d.calls_spec().len() == 0 && forall|k: ResourceKind| #[trigger] d.hub_spec().reg(
                        k,
                    ).entries() == Map::<u32, (u32, Resource)>::empty())
                }
            },
            old(self).state_spec() == PlayerState::Running ==> {
                let d0 = old(self).device_spec()->Some_0;
                let d1 = final(self).device_spec()->Some_0;
                &&& final(self).state_spec() == PlayerState::Running
                &&& r is Ok <==> step_error(&d0.hub_spec(), action, blob_view(blob), &old(self).ids_spec()) is None
                &&& r matches Err(e) ==> Some(e) == step_error(
                    &d0.hub_spec(),
                    action,
                    blob_view(blob),
                    &old(self).ids_spec(),
                ) && d1 == d0
                &&& r is Ok ==> step_effect(&d0, &d1, action, blob_view(blob), &old(self).ids_spec())
                &&& draws_encoder(&d0.hub_spec(), action, &old(self).ids_spec()) ==> allocated(
                    &old(self).ids_spec(),
                    &final(self).ids_spec(),
                )
                &&& !draws_encoder(&d0.hub_spec(), action, &old(self).ids_spec()) ==> final(self).ids_spec()
                    == old(self).ids_spec()
                &&& (action matches Action::Submit(_, commands) && commands_resolve(&d0.hub_spec(), commands@)
                    && old(self).ids_spec().can_alloc()) ==> r is Ok
            },
    {
        match self.state {
            PlayerState::AwaitingInit => match action {
                Action::Init { backend, .. } => {
                    self.device = Some(Device::new(backend));
                    self.state = PlayerState::Running;
                    Ok(())
                },
                _ => Err(ReplayError::ProtocolViolation),
            },
            PlayerState::Running => {
                let mut device = match self.device.take() {
                    Some(d) => d,
                    None => return Err(ReplayError::ProtocolViolation),
                };
                let ghost d0 = device;
                let ghost m0 = self.comb_manager;
                let ghost a = action;
                let ghost bv = blob_view(blob);
                proof {
                    d0.hub_spec().lemma_reg_backend(ResourceKind::CommandBuffer);
                }
                let r = device.process(action, blob, &mut self.comb_manager);
                self.device = Some(device);
                proof {
                    lemma_step_keeps_encoders_below(d0, device, a, bv, m0, self.comb_manager, r is Ok);
                }
                r
            },
        }
    }
}

/// A replay step keeps every command buffer below the next encoder index.
proof fn lemma_step_keeps_encoders_below(
    d0: Device,
    d1: Device,
    a: Action,
    blob: Option<Seq<u8>>,
    m0: IdentityManager,
    m1: IdentityManager,
    ok: bool,
)
    requires
        d0.wf(),
        m0.wf(),
        m0.free_list().len() == 0,
        encoders_below(&d0, &m0),
        ok ==> step_effect(&d0, &d1, a, blob, &m0),
        ok ==> step_error(&d0.hub_spec(), a, blob, &m0) is None,
        !ok ==> d1 == d0,
        draws_encoder(&d0.hub_spec(), a, &m0) ==> allocated(&m0, &m1),
        !draws_encoder(&d0.hub_spec(), a, &m0) ==> m1 == m0,
    ensures
        m1.free_list().len() == 0,
        encoders_below(&d1, &m1),
{
    let cb = ResourceKind::CommandBuffer;
    let h = d0.hub_spec();
    assert(m1.epochs().len() >= m0.epochs().len());
    if !ok || d1.hub_spec().reg(cb) == h.reg(cb) {
        assert forall|i: u32| #[trigger] d1.hub_spec().reg(cb).entries().contains_key(i) implies i
            < m1.epochs().len() by {
            assert(h.reg(cb).entries().contains_key(i));
        }
    }
    if ok {
        match a {
            Action::Submit(..) => {
                let e = submit_encoder(&h, &m0);
                let res = choose|res: Resource| h.registered(&d1.hub_spec(), cb, e, res);
                assert(h.registered(&d1.hub_spec(), cb, e, res));
                assert(draws_encoder(&h, a, &m0));
                assert(e.index == m0.epochs().len());
                assert(m1.epochs().len() == m0.epochs().len() + 1);
                assert forall|i: u32| #[trigger] d1.hub_spec().reg(cb).entries().contains_key(i) implies i
                    < m1.epochs().len() by {
                    if i != e.index {
                        assert(h.reg(cb).entries().contains_key(i));
                    }
                }
            },
            Action::WriteBuffer { id, .. } => {
                let res = choose|res: Resource|
                    crate::device::slot_replaced(&h, &d1.hub_spec(), ResourceKind::Buffer, id@, res);
                assert(d1.hub_spec().reg(cb) == h.reg(cb));
            },
            Action::WriteTexture { .. } => {},
            Action::CreateShaderModule { id, .. } => {
                let res = choose|res: Resource| h.registered(&d1.hub_spec(), ResourceKind::ShaderModule, id@, res);
                assert(d1.hub_spec().reg(cb) == h.reg(cb));
            },
            _ => {
                match destroy_target(a) {
                    Some((k, id)) => {
                        assert(k != cb);
                        assert(d1.hub_spec().reg(cb) == h.reg(cb));
                    },
                    None => {
                        match create_target(a) {
                            Some((k, id)) => {
                                assert(k != cb);
                                let res = choose|res: Resource| h.registered(&d1.hub_spec(), k, id@, res);
                                assert(d1.hub_spec().reg(cb) == h.reg(cb));
                            },
                            None => {},
                        }
                    },
                }
            },
        }
    }
}

} // verus!
