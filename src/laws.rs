//! Properties that relate several operations of the library.
use vstd::prelude::*;

use crate::device::{buffer_of, command_buffer_of, BackendCall, Device, ReplayError};
use crate::encoder::command_resolves;
use crate::hub::{Hub, ResourceKind};
use crate::id::{Backend, Id, IdView};
use crate::identity::IdentityManager;
use crate::replay::{create_target, destroy_target, maintain_calls, step_effect, step_error};
use crate::trace::{Action, BufferDescriptor, Command};

verus! {

/// The submission indices of the `Submit` calls among `calls`, in call order.
pub open spec fn submissions(calls: Seq<BackendCall>) -> Seq<u64>
    decreases calls.len(),
{
    if calls.len() == 0 {
        Seq::empty()
    } else {
        submissions(calls.drop_last()) + match calls.last() {
            BackendCall::Submit { index, .. } => seq![index],
            _ => Seq::empty(),
        }
    }
}

/// The submissions of calls issued one after another are those of each part, in order.
pub proof fn lemma_submissions_append(s: Seq<BackendCall>, t: Seq<BackendCall>)
    ensures
        submissions(s + t) == submissions(s) + submissions(t),
    decreases t.len(),
{
    if t.len() == 0 {
        assert(s + t =~= s);
        assert(submissions(s) + submissions(t) =~= submissions(s));
    } else {
        lemma_submissions_append(s, t.drop_last());
        assert((s + t).drop_last() =~= s + t.drop_last());
        assert((s + t).last() == t.last());
    }
}

/// A handle of another backend resolves in no registry of a hub and cannot be
/// bound in any: no operation reaches a resource through a handle of the
/// wrong backend.
pub proof fn lemma_foreign_backend_refused(h: &Hub, k: ResourceKind, id: IdView)
    requires
        h.wf(),
        id.backend != h.backend_spec(),
    ensures
        !h.live(k, id),
        !h.can_register(k, id),
{
    h.lemma_reg_backend(k);
}

/// A successful `Submit` of any number of commands issues exactly one
/// submission, with its index, after all earlier ones; the command buffer it
/// submits is finished and holds one entry per command.
pub proof fn lemma_submit_once(
    d0: Device,
    d1: Device,
    index: u64,
    commands: Vec<Command>,
    blob: Option<Seq<u8>>,
    m: IdentityManager,
)
    requires
        step_error(&d0.hub_spec(), Action::Submit(index, commands), blob, &m) is None,
        step_effect(&d0, &d1, Action::Submit(index, commands), blob, &m),
    ensures
        submissions(d1.calls_spec()) == submissions(d0.calls_spec()).push(index),
        exists|cb: Id|
            d1.calls_spec().last() == (BackendCall::Submit { index, command_buffer: cb }) && (command_buffer_of(
                &d1.hub_spec(),
                cb@,
            ) matches Some(c) && c.finished && c.commands@.len() == commands@.len()),
{
    let enc = choose|enc: Id|
        enc@ == crate::replay::submit_encoder(&d0.hub_spec(), &m) && d1.calls_spec() == d0.calls_spec() + seq![
            BackendCall::CreateCommandEncoder(enc),
            BackendCall::FinishCommandEncoder(enc),
            BackendCall::Submit { index, command_buffer: enc },
        ];
    let t = seq![
        BackendCall::CreateCommandEncoder(enc),
        BackendCall::FinishCommandEncoder(enc),
        BackendCall::Submit { index, command_buffer: enc },
    ];
    lemma_submissions_append(d0.calls_spec(), t);
    assert(t.drop_last().drop_last().drop_last() =~= Seq::<BackendCall>::empty());
    assert(submissions(t.drop_last().drop_last()) =~= Seq::<u64>::empty()) by {
        assert(submissions(t.drop_last().drop_last().drop_last()) =~= Seq::<u64>::empty());
    }
    assert(submissions(t.drop_last()) =~= Seq::<u64>::empty());
    assert(submissions(t) =~= seq![index]);
    assert(d1.calls_spec().last() == t.last());
}

/// Once a buffer is destroyed and its index is taken by a buffer of another
/// epoch, the old handle resolves to nothing: destroying it again, writing
/// to it, or copying from it fails with an invalid handle, and never reaches
/// the new buffer.
pub proof fn lemma_stale_buffer_handle(
    d0: Device,
    d1: Device,
    d2: Device,
    old_id: Id,
    new_id: Id,
    desc: BufferDescriptor,
    blob0: Option<Seq<u8>>,
    blob1: Option<Seq<u8>>,
    m0: IdentityManager,
    m1: IdentityManager,
)
    requires
        step_error(&d0.hub_spec(), Action::DestroyBuffer(old_id), blob0, &m0) is None,
        step_effect(&d0, &d1, Action::DestroyBuffer(old_id), blob0, &m0),
        step_error(&d1.hub_spec(), Action::CreateBuffer { id: new_id, desc }, blob1, &m1) is None,
        step_effect(&d1, &d2, Action::CreateBuffer { id: new_id, desc }, blob1, &m1),
        new_id@.index == old_id@.index,
        new_id@.epoch != old_id@.epoch,
    ensures
        buffer_of(&d2.hub_spec(), old_id@) is None,
        buffer_of(&d2.hub_spec(), new_id@) is Some,
        forall|blob: Option<Seq<u8>>, m: IdentityManager|
            step_error(&d2.hub_spec(), Action::DestroyBuffer(old_id), blob, &m) == Some(ReplayError::InvalidHandle),
        forall|data: String, start: u64, end: u64, queued: bool, bytes: Seq<u8>, m: IdentityManager|
            step_error(
                &d2.hub_spec(),
                Action::WriteBuffer { id: old_id, data, range_start: start, range_end: end, queued },
                Some(bytes),
                &m,
            ) == Some(ReplayError::InvalidHandle),
        forall|dst: Id, src_offset: u64, dst_offset: u64, size: u64|
            !command_resolves(
                &d2.hub_spec(),
                Command::CopyBufferToBuffer { src: old_id, src_offset, dst, dst_offset, size },
            ),
{
    let res = choose|res: crate::hub::Resource|
        d1.hub_spec().registered(&d2.hub_spec(), ResourceKind::Buffer, new_id@, res) && d2.hub_spec().lookup(
            ResourceKind::Buffer,
            new_id@,
        ) == Some(res) && crate::replay::payload_of(res, Action::CreateBuffer { id: new_id, desc });
    assert(d2.hub_spec().reg(ResourceKind::Buffer).entries()[old_id@.index].0 == new_id@.epoch);
}

/// Whether every handle that a backend call names belongs to backend `b`.
pub open spec fn call_on_backend(c: BackendCall, b: Backend) -> bool {
    match c {
        BackendCall::MaintainIds => true,
        BackendCall::Create { id, .. } => id@.backend == b,
        BackendCall::CreateShaderModule { id, .. } => id@.backend == b,
        BackendCall::Destroy { id, .. } => id@.backend == b,
        BackendCall::WaitForBuffer(id) => id@.backend == b,
        BackendCall::SetBufferSubData { id, .. } => id@.backend == b,
        BackendCall::QueueWriteBuffer { id, .. } => id@.backend == b,
        BackendCall::QueueWriteTexture { to, .. } => to.texture@.backend == b,
        BackendCall::CreateCommandEncoder(id) => id@.backend == b,
        BackendCall::FinishCommandEncoder(id) => id@.backend == b,
        BackendCall::Submit { command_buffer, .. } => command_buffer@.backend == b,
    }
}

/// Every call that a successful replay step issues names only handles of
/// the device's own backend: no step reaches another backend.
pub proof fn lemma_step_stays_on_backend(
    d0: Device,
    d1: Device,
    a: Action,
    blob: Option<Seq<u8>>,
    m: IdentityManager,
)
    requires
        d0.wf(),
        step_error(&d0.hub_spec(), a, blob, &m) is None,
        step_effect(&d0, &d1, a, blob, &m),
    ensures
        forall|i: int|
            d0.calls_spec().len() <= i < d1.calls_spec().len() ==> call_on_backend(
                #[trigger] d1.calls_spec()[i],
                d0.hub_spec().backend_spec(),
            ),
{
    let h = d0.hub_spec();
    let b = h.backend_spec();
    let n = d0.calls_spec().len() as int;
    match a {
        Action::WriteBuffer { id, .. } => {
            h.lemma_reg_backend(ResourceKind::Buffer);
        },
        Action::WriteTexture { .. } => {
            h.lemma_reg_backend(ResourceKind::Texture);
        },
        Action::Submit(index, commands) => {
            let enc = choose|enc: Id|
                enc@ == crate::replay::submit_encoder(&h, &m) && d1.calls_spec() == d0.calls_spec() + seq![
                    BackendCall::CreateCommandEncoder(enc),
                    BackendCall::FinishCommandEncoder(enc),
                    BackendCall::Submit { index, command_buffer: enc },
                ];
            assert forall|i: int| n <= i < d1.calls_spec().len() implies call_on_backend(
                #[trigger] d1.calls_spec()[i],
                b,
            ) by {
                assert(i == n || i == n + 1 || i == n + 2);
            }
        },
        Action::CreateShaderModule { .. } => {},
        _ => {
            match destroy_target(a) {
                Some((k, id)) => {
                    h.lemma_reg_backend(k);
                },
                None => {
                    match create_target(a) {
                        Some((k, id)) => {
                            assert forall|i: int| n <= i < d1.calls_spec().len() implies call_on_backend(
                                #[trigger] d1.calls_spec()[i],
                                b,
                            ) by {
                                let extra = maintain_calls(a) + seq![BackendCall::Create { kind: k, id }];
                                assert(d1.calls_spec() =~= d0.calls_spec() + extra);
                                assert(d1.calls_spec()[i] == extra[i - n]);
                            }
                        },
                        None => {},
                    }
                },
            }
        },
    }
}

/// Replaying successful `Submit` actions one after another, in log order,
/// issues exactly their submissions, in that same order, after the earlier ones.
pub proof fn lemma_submits_keep_log_order(
    states: Seq<Device>,
    indices: Seq<u64>,
    commands: Seq<Vec<Command>>,
    blobs: Seq<Option<Seq<u8>>>,
    ids: Seq<IdentityManager>,
)
    requires
        states.len() == indices.len() + 1,
        commands.len() == indices.len(),
        blobs.len() == indices.len(),
        ids.len() == indices.len(),
        forall|j: int|
            0 <= j < indices.len() ==> step_error(
                &(#[trigger] states[j]).hub_spec(),
                Action::Submit(indices[j], commands[j]),
                blobs[j],
                &ids[j],
            ) is None && step_effect(
                &states[j],
                &states[j + 1],
                Action::Submit(indices[j], commands[j]),
                blobs[j],
                &ids[j],
            ),
    ensures
        submissions(states.last().calls_spec()) == submissions(states[0].calls_spec()) + indices,
    decreases indices.len(),
{
    if indices.len() == 0 {
        assert(submissions(states[0].calls_spec()) + indices =~= submissions(states[0].calls_spec()));
    } else {
        let k = indices.len() - 1;
        lemma_submits_keep_log_order(
            states.drop_last(),
            indices.drop_last(),
            commands.drop_last(),
            blobs.drop_last(),
            ids.drop_last(),
        );
        lemma_submit_once(states[k], states[k + 1], indices[k], commands[k], blobs[k], ids[k]);
        assert(submissions(states[0].calls_spec()) + indices =~= submissions(states[0].calls_spec())
            + indices.drop_last() + seq![indices[k]]);
    }
}

} // verus!
