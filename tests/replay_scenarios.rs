use wgpu_player::device::{BackendCall, Device, ReplayError};
use wgpu_player::hub::{RawCommand, ResourceKind};
use wgpu_player::id::{Backend, Id};
use wgpu_player::identity::IdentityManager;
use wgpu_player::player::{Player, PlayerState};
use wgpu_player::replay::words_of_blob;
use wgpu_player::trace::{
    Action, BasePass, BufferDescriptor, Command, ComputePipelineDescriptor, Extent3d, Origin3d,
    ProgrammableStageDescriptor, QuerySetDescriptor, QueryType, RenderBundleDescriptor, TextureCopyView, TextureDataLayout, TextureDescriptor,
    BUFFER_USAGE_COPY_DST, BUFFER_USAGE_COPY_SRC,
};

fn vk(index: u32, epoch: u32) -> Id {
    Id::zip(index, epoch, Backend::Vulkan)
}

fn init() -> Action {
    Action::Init { backend: Backend::Vulkan, features: 0, limits_max_bind_groups: 4 }
}

fn create_buffer(id: Id, size: u64, usage: u32) -> Action {
    Action::CreateBuffer {
        id,
        desc: BufferDescriptor { label: "buf".to_string(), size, usage, mapped_at_creation: false },
    }
}

fn write_buffer(id: Id, start: u64, end: u64, queued: bool) -> Action {
    Action::WriteBuffer { id, data: "data1.bin".to_string(), range_start: start, range_end: end, queued }
}

fn running() -> Player {
    let mut p = Player::new();
    assert_eq!(p.replay(init(), None), Ok(()));
    p
}

fn submits(d: &Device) -> Vec<u64> {
    d.calls()
        .iter()
        .filter_map(|c| match c {
            BackendCall::Submit { index, .. } => Some(*index),
            _ => None,
        })
        .collect()
}

#[test]
fn create_write_destroy_buffer_scenario() {
    let b = vk(0, 1);
    let bytes = vec![1u8, 2, 3, 4];
    let mut p = running();
    assert_eq!(p.state(), PlayerState::Running);
    assert_eq!(p.replay(create_buffer(b, 4, BUFFER_USAGE_COPY_DST), None), Ok(()));
    assert_eq!(p.replay(write_buffer(b, 0, 4, false), Some(bytes.clone())), Ok(()));
    assert_eq!(p.device().unwrap().buffer_contents(b), Some(&bytes));
    assert_eq!(p.replay(Action::DestroyBuffer(b), None), Ok(()));
    assert_eq!(p.device().unwrap().buffer_contents(b), None);
    let calls = p.device().unwrap().calls();
    assert_eq!(calls.len(), 5);
    assert!(matches!(calls[0], BackendCall::MaintainIds));
    assert!(matches!(calls[1], BackendCall::Create { kind: ResourceKind::Buffer, id } if id == b));
    assert!(matches!(calls[2], BackendCall::WaitForBuffer(id) if id == b));
    assert!(matches!(&calls[3], BackendCall::SetBufferSubData { id, offset: 0, data } if *id == b && *data == bytes));
    assert!(matches!(calls[4], BackendCall::Destroy { kind: ResourceKind::Buffer, id } if id == b));
}

#[test]
fn new_buffer_is_zeroed() {
    let b = vk(0, 1);
    let mut p = running();
    p.replay(create_buffer(b, 3, 0), None).unwrap();
    assert_eq!(p.device().unwrap().buffer_contents(b), Some(&vec![0u8, 0, 0]));
}

#[test]
fn immediate_write_uses_only_the_range_length() {
    let b = vk(0, 1);
    let mut p = running();
    p.replay(create_buffer(b, 6, 0), None).unwrap();
    p.replay(write_buffer(b, 2, 4, false), Some(vec![9, 8, 7, 6])).unwrap();
    assert_eq!(p.device().unwrap().buffer_contents(b), Some(&vec![0u8, 0, 9, 8, 0, 0]));
}

#[test]
fn queued_write_stores_the_whole_blob() {
    let b = vk(0, 1);
    let mut p = running();
    p.replay(create_buffer(b, 6, 0), None).unwrap();
    p.replay(write_buffer(b, 1, 3, true), Some(vec![5, 6, 7])).unwrap();
    assert_eq!(p.device().unwrap().buffer_contents(b), Some(&vec![0u8, 5, 6, 7, 0, 0]));
    let calls = p.device().unwrap().calls();
    assert!(matches!(calls.last(), Some(BackendCall::QueueWriteBuffer { offset: 1, .. })));
}

#[test]
fn write_errors() {
    let b = vk(0, 1);
    let mut p = running();
    p.replay(create_buffer(b, 4, 0), None).unwrap();
    assert_eq!(p.replay(write_buffer(b, 0, 4, false), None), Err(ReplayError::IoFailure));
    assert_eq!(p.replay(write_buffer(b, 0, 4, false), Some(vec![1, 2])), Err(ReplayError::IoFailure));
    assert_eq!(p.replay(write_buffer(b, 3, 2, false), Some(vec![1])), Err(ReplayError::CallFailure));
    assert_eq!(p.replay(write_buffer(b, 2, 6, false), Some(vec![1, 2, 3, 4])), Err(ReplayError::CallFailure));
    assert_eq!(p.replay(write_buffer(b, 0, 1, true), Some(vec![1, 2, 3, 4, 5])), Err(ReplayError::CallFailure));
    assert_eq!(p.replay(write_buffer(vk(1, 1), 0, 1, false), Some(vec![1])), Err(ReplayError::InvalidHandle));
    assert_eq!(p.device().unwrap().buffer_contents(b), Some(&vec![0u8; 4]));
}

#[test]
fn first_action_must_be_init() {
    let mut p = Player::new();
    assert_eq!(p.replay(create_buffer(vk(0, 1), 4, 0), None), Err(ReplayError::ProtocolViolation));
    assert_eq!(p.state(), PlayerState::AwaitingInit);
    assert!(p.device().is_none());
    assert_eq!(p.replay(init(), None), Ok(()));
    assert_eq!(p.replay(init(), None), Err(ReplayError::ProtocolViolation));
}

#[test]
fn swap_chain_actions_are_unsupported() {
    let mut p = running();
    let sc = vk(0, 1);
    assert_eq!(p.replay(Action::PresentSwapChain(sc), None), Err(ReplayError::ProtocolViolation));
    assert_eq!(
        p.replay(Action::GetSwapChainTexture { id: Some(vk(1, 1)), parent_id: sc }, None),
        Err(ReplayError::ProtocolViolation)
    );
    assert_eq!(p.replay(Action::GetSwapChainTexture { id: None, parent_id: sc }, None), Ok(()));
}

#[test]
fn stale_buffer_handle_is_rejected_after_index_reuse() {
    let old = vk(0, 1);
    let new = vk(0, 2);
    let mut p = running();
    p.replay(create_buffer(old, 4, BUFFER_USAGE_COPY_SRC), None).unwrap();
    p.replay(Action::DestroyBuffer(old), None).unwrap();
    p.replay(create_buffer(new, 4, BUFFER_USAGE_COPY_DST), None).unwrap();
    assert_eq!(p.replay(write_buffer(old, 0, 4, false), Some(vec![1, 2, 3, 4])), Err(ReplayError::InvalidHandle));
    assert_eq!(p.replay(Action::DestroyBuffer(old), None), Err(ReplayError::InvalidHandle));
    let copy = Command::CopyBufferToBuffer { src: old, src_offset: 0, dst: new, dst_offset: 0, size: 4 };
    assert_eq!(p.replay(Action::Submit(1, vec![copy]), None), Err(ReplayError::InvalidHandle));
    assert_eq!(p.device().unwrap().buffer_contents(new), Some(&vec![0u8; 4]));
}

#[test]
fn foreign_backend_handle_is_rejected() {
    let mut p = running();
    let foreign = Id::zip(0, 1, Backend::Dx12);
    assert_eq!(p.replay(create_buffer(foreign, 4, 0), None), Err(ReplayError::InvalidHandle));
    assert_eq!(p.device().unwrap().calls().len(), 0);
}

#[test]
fn submit_yields_one_command_buffer_in_order() {
    let a = vk(0, 1);
    let b = vk(1, 1);
    let mut p = running();
    p.replay(create_buffer(a, 8, BUFFER_USAGE_COPY_SRC), None).unwrap();
    p.replay(create_buffer(b, 8, BUFFER_USAGE_COPY_DST), None).unwrap();
    let copy = || Command::CopyBufferToBuffer { src: a, src_offset: 0, dst: b, dst_offset: 0, size: 8 };
    let pass = Command::RunComputePass { base: BasePass { label: String::new(), commands: vec![1, 2], dynamic_offsets: vec![] } };
    let before = p.device().unwrap().calls().len();
    assert_eq!(p.replay(Action::Submit(1, vec![copy(), pass, copy()]), None), Ok(()));
    let d = p.device().unwrap();
    let calls = d.calls();
    assert_eq!(calls.len(), before + 3);
    let enc = match calls[before] {
        BackendCall::CreateCommandEncoder(e) => e,
        _ => panic!("no encoder"),
    };
    assert!(matches!(calls[before + 1], BackendCall::FinishCommandEncoder(e) if e == enc));
    assert!(matches!(calls[before + 2], BackendCall::Submit { index: 1, command_buffer } if command_buffer == enc));
    let recorded = d.recorded_commands(enc).unwrap();
    assert_eq!(recorded.len(), 3);
    assert!(matches!(&recorded[1], RawCommand::Encoded(Command::RunComputePass { .. })));
    assert_eq!(p.replay(Action::Submit(2, vec![]), None), Ok(()));
    assert_eq!(submits(p.device().unwrap()), vec![1, 2]);
}

#[test]
fn empty_submit_still_finishes_a_command_buffer() {
    let mut p = running();
    assert_eq!(p.replay(Action::Submit(5, vec![]), None), Ok(()));
    let d = p.device().unwrap();
    let enc = match d.calls()[0] {
        BackendCall::CreateCommandEncoder(e) => e,
        _ => panic!("no encoder"),
    };
    assert_eq!(d.recorded_commands(enc).unwrap().len(), 0);
    assert_eq!(submits(d), vec![5]);
}

#[test]
fn encoder_ids_come_from_the_allocator() {
    let mut d = Device::new(Backend::Vulkan);
    let mut m = IdentityManager::new();
    assert_eq!(d.process(Action::Submit(1, vec![]), None, &mut m), Ok(()));
    assert_eq!(d.process(Action::Submit(2, vec![]), None, &mut m), Ok(()));
    assert!(matches!(d.calls()[0], BackendCall::CreateCommandEncoder(e) if e == Id::zip(0, 1, Backend::Vulkan)));
    assert!(matches!(d.calls()[3], BackendCall::CreateCommandEncoder(e) if e == Id::zip(1, 1, Backend::Vulkan)));
}

#[test]
fn texture_copy_needs_live_texture() {
    let mut p = running();
    let buf = vk(0, 1);
    let tex = vk(0, 1);
    p.replay(create_buffer(buf, 16, BUFFER_USAGE_COPY_SRC), None).unwrap();
    let view = TextureCopyView { texture: tex, mip_level: 0, origin: Origin3d { x: 0, y: 0, z: 0 } };
    let size = Extent3d { width: 1, height: 1, depth: 1 };
    let copy = Command::CopyBufferToTexture {
        src: wgpu_player::trace::BufferCopyView { buffer: buf, layout: TextureDataLayout { offset: 0, bytes_per_row: 4, rows_per_image: 1 } },
        dst: view,
        size,
    };
    assert_eq!(p.replay(Action::Submit(1, vec![copy.clone()]), None), Err(ReplayError::InvalidHandle));
    let desc = TextureDescriptor { label: "t".to_string(), size, mip_level_count: 1, sample_count: 1, dimension: 2, format: 0, usage: 0 };
    p.replay(Action::CreateTexture { id: tex, desc }, None).unwrap();
    assert_eq!(p.replay(Action::Submit(1, vec![copy]), None), Ok(()));
    let layout = TextureDataLayout { offset: 0, bytes_per_row: 4, rows_per_image: 1 };
    assert_eq!(p.replay(Action::WriteTexture { to: view, data: "data2.bin".to_string(), layout, size }, Some(vec![1, 2, 3, 4])), Ok(()));
    assert!(matches!(p.device().unwrap().calls().last(), Some(BackendCall::QueueWriteTexture { .. })));
}

#[test]
fn shader_module_blob_is_read_as_words() {
    assert_eq!(words_of_blob(&vec![1, 0, 0, 0, 0x03, 0x02, 0x23, 0x07]), vec![1, 0x0723_0203]);
    let mut p = running();
    let m = vk(0, 1);
    let action = || Action::CreateShaderModule { id: m, data: "data1.spv".to_string() };
    assert_eq!(p.replay(action(), None), Err(ReplayError::IoFailure));
    assert_eq!(p.replay(action(), Some(vec![1, 2, 3])), Err(ReplayError::IoFailure));
    assert_eq!(p.replay(action(), Some(vec![0x03, 0x02, 0x23, 0x07])), Ok(()));
    assert!(matches!(&p.device().unwrap().calls()[0], BackendCall::CreateShaderModule { words, .. } if *words == vec![0x0723_0203]));
}

#[test]
fn pipeline_needs_its_layout_and_module() {
    let mut p = running();
    let layout = vk(0, 1);
    let module = vk(0, 1);
    let desc = || ComputePipelineDescriptor {
        layout,
        compute_stage: ProgrammableStageDescriptor { module, entry_point: "main".to_string() },
    };
    assert_eq!(p.replay(Action::CreateComputePipeline { id: vk(0, 1), desc: desc() }, None), Err(ReplayError::InvalidHandle));
    p.replay(Action::CreatePipelineLayout { id: layout, bind_group_layouts: vec![], push_constant_ranges: vec![] }, None).unwrap();
    p.replay(Action::CreateShaderModule { id: module, data: "data1.spv".to_string() }, Some(vec![0; 4])).unwrap();
    assert_eq!(p.replay(Action::CreateComputePipeline { id: vk(0, 1), desc: desc() }, None), Ok(()));
    assert_eq!(p.replay(Action::DestroyComputePipeline(vk(0, 1)), None), Ok(()));
    assert_eq!(p.replay(Action::DestroyComputePipeline(vk(0, 1)), None), Err(ReplayError::InvalidHandle));
}

#[test]
fn bind_group_layouts_skip_identity_resync() {
    let mut p = running();
    p.replay(Action::CreateBindGroupLayout { id: vk(0, 1), label: "l".to_string(), entries: vec![] }, None).unwrap();
    let calls = p.device().unwrap().calls();
    assert_eq!(calls.len(), 1);
    assert!(matches!(calls[0], BackendCall::Create { kind: ResourceKind::BindGroupLayout, .. }));
}

#[test]
fn query_sets_and_bundles_resync_identities() {
    let mut p = running();
    let desc = QuerySetDescriptor { type_: QueryType::Occlusion, count: 2 };
    p.replay(Action::CreateQuerySet { id: vk(0, 1), desc }, None).unwrap();
    let bundle = RenderBundleDescriptor { label: "b".to_string(), color_formats: vec![], depth_stencil_format: None, sample_count: 1 };
    let base = BasePass { label: String::new(), commands: vec![], dynamic_offsets: vec![] };
    p.replay(Action::CreateRenderBundle { id: vk(0, 1), desc: bundle, base }, None).unwrap();
    let calls = p.device().unwrap().calls();
    assert_eq!(calls.len(), 4);
    assert!(matches!(calls[0], BackendCall::MaintainIds));
    assert!(matches!(calls[1], BackendCall::Create { kind: ResourceKind::QuerySet, .. }));
    assert!(matches!(calls[2], BackendCall::MaintainIds));
    assert!(matches!(calls[3], BackendCall::Create { kind: ResourceKind::RenderBundle, .. }));
}

#[test]
fn missing_shader_blob_is_an_io_failure_even_with_a_taken_id() {
    let mut p = running();
    let m = vk(0, 1);
    let action = || Action::CreateShaderModule { id: m, data: "data1.spv".to_string() };
    assert_eq!(p.replay(action(), Some(vec![0; 4])), Ok(()));
    assert_eq!(p.replay(action(), None), Err(ReplayError::IoFailure));
    assert_eq!(p.replay(action(), Some(vec![0; 3])), Err(ReplayError::IoFailure));
    assert_eq!(p.replay(action(), Some(vec![0; 4])), Err(ReplayError::InvalidHandle));
    let foreign = Action::CreateShaderModule { id: Id::zip(1, 1, Backend::Dx12), data: "x".to_string() };
    assert_eq!(p.replay(foreign, None), Err(ReplayError::IoFailure));
}
