use wgpu_player::id::{Backend, Id};
use wgpu_player::trace::{
    RenderBundleDescriptor, RenderPassContext,
    PipelineStatisticName, ProgrammableStageDescriptor, QueryKind, QueryType, StageRef, Trace, FILE_NAME,
};

#[test]
fn new_log_opens_the_list() {
    let t = Trace::new();
    assert_eq!(t.text(), "[\n");
    assert_eq!(FILE_NAME, "trace.ron");
}

#[test]
fn blobs_are_numbered_from_one() {
    let mut t = Trace::new();
    assert_eq!(t.make_binary("bin"), "data1.bin");
    assert_eq!(t.make_binary("spv"), "data2.spv");
    for _ in 0..8 {
        t.make_binary("bin");
    }
    assert_eq!(t.make_binary("bin"), "data11.bin");
}

#[test]
fn records_are_each_followed_by_a_separator() {
    let mut t = Trace::new();
    assert!(t.add(Some("DestroyBuffer(1)".to_string())));
    assert!(t.add(Some("DestroyBuffer(2)".to_string())));
    assert_eq!(t.finish(), "[\nDestroyBuffer(1),\nDestroyBuffer(2),\n]");
}

#[test]
fn failed_encoding_drops_the_record() {
    let mut t = Trace::new();
    assert!(!t.add(None));
    assert!(t.add(Some("A".to_string())));
    assert_eq!(t.text(), "[\nA,\n");
    assert_eq!(t.finish(), "[\nA,\n]");
}

#[test]
fn empty_log_is_an_empty_list() {
    assert_eq!(Trace::new().finish(), "[\n]");
}

#[test]
fn stage_descriptor_round_trip() {
    let module = Id::zip(2, 1, Backend::Vulkan);
    let core = StageRef { module, entry_point: "main" };
    let rec = ProgrammableStageDescriptor::new(&core);
    assert_eq!(rec.entry_point, "main");
    assert_eq!(rec.module, module);
    let back = rec.to_core();
    assert_eq!(back.entry_point, "main");
    assert_eq!(back.module, module);
}

#[test]
fn query_type_keeps_metrics() {
    let names = [PipelineStatisticName::VertexShaderInvocations, PipelineStatisticName::ClipperInvocations];
    let rec = QueryType::new(&QueryKind::PipelineStatistics(&names));
    assert_eq!(rec, QueryType::PipelineStatistics(names.to_vec()));
    assert_eq!(QueryType::new(&QueryKind::Timestamp), QueryType::Timestamp);
    assert_eq!(QueryType::new(&QueryKind::Occlusion), QueryType::Occlusion);
    match rec.to_core() {
        QueryKind::PipelineStatistics(m) => assert_eq!(m, &names[..]),
        _ => panic!("wrong kind"),
    }
}

#[test]
fn render_bundle_descriptor_from_context() {
    let ctx = RenderPassContext { colors: vec![3, 5], depth_stencil: Some(9), sample_count: 4 };
    let d = RenderBundleDescriptor::new(Some("bundle"), &ctx);
    assert_eq!(d.label, "bundle");
    assert_eq!(d.color_formats, vec![3, 5]);
    assert_eq!(d.depth_stencil_format, Some(9));
    assert_eq!(d.sample_count, 4);
    assert_eq!(RenderBundleDescriptor::new(None, &ctx).label, "");
}

#[test]
fn blob_count_is_reported() {
    let mut t = Trace::new();
    assert_eq!(t.blobs_made(), 0);
    assert_eq!(t.make_binary("bin"), "data1.bin");
    assert_eq!(t.blobs_made(), 1);
}

#[test]
fn blob_names_count_past_powers_of_ten() {
    let mut t = Trace::new();
    let mut last = String::new();
    for _ in 0..100 {
        last = t.make_binary("bin");
    }
    assert_eq!(last, "data100.bin");
    assert_eq!(t.make_binary("x"), "data101.x");
}
