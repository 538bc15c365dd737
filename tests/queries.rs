use wgpu_player::device::{Device, ReplayError, QUERY_RESOLVE_STRIDE};
use wgpu_player::hub::{RawCommand, RESULT_BITS_64, RESULT_WAIT, RESULT_WITH_AVAILABILITY};
use wgpu_player::id::{Backend, Id};
use wgpu_player::identity::IdentityManager;
use wgpu_player::trace::{
    Action, BufferDescriptor, QuerySetDescriptor, QueryType, BUFFER_USAGE_COPY_DST, BUFFER_USAGE_MAP_READ,
};

fn vk(index: u32, epoch: u32) -> Id {
    Id::zip(index, epoch, Backend::Vulkan)
}

fn setup(usage: u32) -> (Device, Id, Id, Id) {
    let mut d = Device::new(Backend::Vulkan);
    let mut m = IdentityManager::new();
    let qs = vk(0, 1);
    let buf = vk(0, 1);
    let enc = vk(7, 1);
    let desc = BufferDescriptor { label: String::new(), size: 64, usage, mapped_at_creation: false };
    d.process(Action::CreateBuffer { id: buf, desc }, None, &mut m).unwrap();
    let qdesc = QuerySetDescriptor { type_: QueryType::Timestamp, count: 4 };
    d.process(Action::CreateQuerySet { id: qs, desc: qdesc }, None, &mut m).unwrap();
    assert_eq!(d.create_command_encoder(enc), Ok(enc));
    (d, qs, buf, enc)
}

#[test]
fn resolve_without_copy_dst_issues_nothing() {
    let (mut d, qs, buf, enc) = setup(BUFFER_USAGE_MAP_READ);
    let calls_before = d.calls().len();
    assert_eq!(
        d.command_encoder_resolve_query_set(enc, qs, 0, 2, buf, 0),
        Err(ReplayError::PreconditionFailure)
    );
    assert_eq!(d.recorded_commands(enc).unwrap().len(), 0);
    assert_eq!(d.copy_dst_uses(enc), Some(&vec![]));
    assert_eq!(d.calls().len(), calls_before);
}

#[test]
fn resolve_records_barrier_then_copy() {
    let (mut d, qs, buf, enc) = setup(BUFFER_USAGE_COPY_DST);
    assert_eq!(d.command_encoder_resolve_query_set(enc, qs, 1, 2, buf, 8), Ok(()));
    assert_eq!(d.copy_dst_uses(enc), Some(&vec![buf]));
    let cmds = d.recorded_commands(enc).unwrap();
    assert_eq!(cmds.len(), 2);
    assert!(matches!(cmds[0], RawCommand::TransferBarrier { buffer } if buffer == buf));
    match cmds[1] {
        RawCommand::CopyQueryPoolResults { query_set, first, count, buffer, offset, stride, flags } => {
            assert_eq!((query_set, first, count, buffer, offset), (qs, 1, 2, buf, 8));
            assert_eq!(stride, 16);
            assert_eq!(stride, QUERY_RESOLVE_STRIDE);
            assert_eq!(flags, RESULT_WAIT | RESULT_WITH_AVAILABILITY | RESULT_BITS_64);
            assert_eq!(flags, 7);
        }
        _ => panic!("expected a copy"),
    }
}

#[test]
fn resolve_with_unknown_handles_is_invalid() {
    let (mut d, qs, buf, enc) = setup(BUFFER_USAGE_COPY_DST);
    assert_eq!(d.command_encoder_resolve_query_set(enc, qs, 0, 1, vk(5, 1), 0), Err(ReplayError::InvalidHandle));
    assert_eq!(d.command_encoder_resolve_query_set(enc, vk(5, 1), 0, 1, buf, 0), Err(ReplayError::InvalidHandle));
    assert_eq!(d.command_encoder_resolve_query_set(vk(5, 1), qs, 0, 1, buf, 0), Err(ReplayError::InvalidHandle));
}

#[test]
fn statistics_query_resets_then_begins_then_ends() {
    let (mut d, qs, _buf, enc) = setup(0);
    assert_eq!(d.command_encoder_begin_pipeline_statistics_query(enc, qs, 3), Ok(()));
    assert_eq!(d.command_encoder_end_pipeline_statistics_query(enc, qs, 3), Ok(()));
    let cmds = d.recorded_commands(enc).unwrap();
    assert_eq!(cmds.len(), 3);
    assert!(matches!(cmds[0], RawCommand::ResetQueryPool { first: 3, count: 1, .. }));
    assert!(matches!(cmds[1], RawCommand::BeginQuery { index: 3, .. }));
    assert!(matches!(cmds[2], RawCommand::EndQuery { index: 3, .. }));
}

#[test]
fn timestamp_is_written_for_its_stage() {
    let (mut d, qs, _buf, enc) = setup(0);
    assert_eq!(d.command_encoder_write_timestamp(enc, qs, 2, 0x800), Ok(()));
    let cmds = d.recorded_commands(enc).unwrap();
    assert!(matches!(cmds[0], RawCommand::WriteTimestamp { stage: 0x800, index: 2, .. }));
    assert_eq!(d.command_encoder_write_timestamp(enc, vk(3, 3), 2, 0x800), Err(ReplayError::InvalidHandle));
}

#[test]
fn finished_encoder_takes_no_more_queries() {
    let (mut d, qs, _buf, enc) = setup(0);
    assert_eq!(d.encode_commands(enc, vec![]), Ok(enc));
    assert_eq!(d.command_encoder_begin_pipeline_statistics_query(enc, qs, 0), Err(ReplayError::InvalidHandle));
    assert_eq!(d.encode_commands(enc, vec![]), Err(ReplayError::InvalidHandle));
    assert_eq!(d.create_command_encoder(enc), Err(ReplayError::InvalidHandle));
}
