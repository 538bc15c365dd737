//! The action log: one record per mutating API call, and its textual form.
use vstd::prelude::*;
use vstd::slice::slice_to_vec;
use vstd::string::StringExecFns;

use crate::id::{
    BindGroupId, BindGroupLayoutId, BufferId, ComputePipelineId, PipelineLayoutId,
    QuerySetId, RenderBundleId, RenderPipelineId, SamplerId, ShaderModuleId, SwapChainId,
    TextureId, TextureViewId,
};

verus! {

/// The name of a blob file inside a trace directory.
pub type FileName = String;

/// The name of the log file inside a trace directory.
pub const FILE_NAME: &'static str = "trace.ron";

/// Usage flags of a buffer.
pub const BUFFER_USAGE_MAP_READ: u32 = 1;

pub const BUFFER_USAGE_MAP_WRITE: u32 = 2;

pub const BUFFER_USAGE_COPY_SRC: u32 = 4;

pub const BUFFER_USAGE_COPY_DST: u32 = 8;

pub const BUFFER_USAGE_INDEX: u32 = 16;

pub const BUFFER_USAGE_VERTEX: u32 = 32;

pub const BUFFER_USAGE_UNIFORM: u32 = 64;

pub const BUFFER_USAGE_STORAGE: u32 = 128;

pub const BUFFER_USAGE_INDIRECT: u32 = 256;

#[derive(Clone, Copy, Debug, PartialEq, Eq, Structural)]
pub struct Extent3d {
    pub width: u32,
    pub height: u32,
    pub depth: u32,
}

#[derive(Clone, Copy, Debug, PartialEq, Eq, Structural)]
pub struct Origin3d {
    pub x: u32,
    pub y: u32,
    pub z: u32,
}

/// How bytes of a blob are laid out as texels.
#[derive(Clone, Copy, Debug, PartialEq, Eq, Structural)]
pub struct TextureDataLayout {
    pub offset: u64,
    pub bytes_per_row: u32,
    pub rows_per_image: u32,
}

/// A region of a texture that a copy reads or writes.
#[derive(Clone, Copy, Debug, PartialEq, Eq, Structural)]
pub struct TextureCopyView {
    pub texture: TextureId,
    pub mip_level: u32,
    pub origin: Origin3d,
}

/// A region of a buffer that a copy reads or writes.
#[derive(Clone, Copy, Debug, PartialEq, Eq, Structural)]
pub struct BufferCopyView {
    pub buffer: BufferId,
    pub layout: TextureDataLayout,
}

#[derive(Clone, Debug, PartialEq, Eq)]
pub struct BufferDescriptor {
    pub label: String,
    pub size: u64,
    pub usage: u32,
    pub mapped_at_creation: bool,
}

#[derive(Clone, Debug, PartialEq, Eq)]
pub struct TextureDescriptor {
    pub label: String,
    pub size: Extent3d,
    pub mip_level_count: u32,
    pub sample_count: u32,
    pub dimension: u32,
    pub format: u32,
    pub usage: u32,
}

#[derive(Clone, Debug, PartialEq, Eq)]
pub struct TextureViewDescriptor {
    pub label: String,
    pub format: Option<u32>,
    pub base_mip_level: u32,
    pub level_count: Option<u32>,
}

#[derive(Clone, Debug, PartialEq, Eq)]
pub struct SamplerDescriptor {
    pub label: String,
    pub address_mode: u32,
    pub filter: u32,
    pub compare: Option<u32>,
}

#[derive(Clone, Copy, Debug, PartialEq, Eq, Structural)]
pub struct SwapChainDescriptor {
    pub usage: u32,
    pub format: u32,
    pub width: u32,
    pub height: u32,
    pub present_mode: u32,
}

#[derive(Clone, Copy, Debug, PartialEq, Eq, Structural)]
pub struct BindGroupLayoutEntry {
    pub binding: u32,
    pub visibility: u32,
    pub ty: u32,
    pub count: Option<u32>,
}

#[derive(Clone, Copy, Debug, PartialEq, Eq, Structural)]
pub struct PushConstantRange {
    pub stages: u32,
    pub start: u32,
    pub end: u32,
}

#[derive(Clone, Debug, PartialEq, Eq)]
pub enum BindingResource {
    Buffer { id: BufferId, offset: u64, size: Option<u64> },
    Sampler(SamplerId),
    TextureView(TextureViewId),
    TextureViewArray(Vec<TextureViewId>),
}

/// A shader stage as the device takes it: the entry point is borrowed.
#[derive(Clone, Copy, Debug)]
pub struct StageRef<'a> {
    pub module: ShaderModuleId,
    pub entry_point: &'a str,
}

/// A shader stage as it is recorded.
#[derive(Clone, Debug, PartialEq, Eq)]
pub struct ProgrammableStageDescriptor {
    pub module: ShaderModuleId,
    pub entry_point: String,
}

impl ProgrammableStageDescriptor {
    /// The recorded form of a stage.
    pub fn new(desc: &StageRef) -> (r: ProgrammableStageDescriptor)
        ensures
            r.module == desc.module,
            r.entry_point@ == desc.entry_point@,
    {
        ProgrammableStageDescriptor { module: desc.module, entry_point: String::from_str(desc.entry_point) }
    }

    /// The stage in the form the device takes, borrowing the entry point.
    pub fn to_core(&self) -> (r: StageRef)
        ensures
            r.module == self.module,
            r.entry_point@ == self.entry_point@,
    {
        StageRef { module: self.module, entry_point: self.entry_point.as_str() }
    }
}

#[derive(Clone, Debug, PartialEq, Eq)]
pub struct ComputePipelineDescriptor {
    pub layout: PipelineLayoutId,
    pub compute_stage: ProgrammableStageDescriptor,
}

#[derive(Clone, Copy, Debug, PartialEq, Eq, Structural)]
pub enum InputStepMode {
    Vertex,
    Instance,
}

#[derive(Clone, Copy, Debug, PartialEq, Eq, Structural)]
pub struct VertexAttributeDescriptor {
    pub offset: u64,
    pub format: u32,
    pub shader_location: u32,
}

#[derive(Clone, Debug, PartialEq, Eq)]
pub struct VertexBufferDescriptor {
    pub stride: u64,
    pub step_mode: InputStepMode,
    pub attributes: Vec<VertexAttributeDescriptor>,
}

#[derive(Clone, Copy, Debug, PartialEq, Eq, Structural)]
pub enum IndexFormat {
    Uint16,
    Uint32,
}

#[derive(Clone, Debug, PartialEq, Eq)]
pub struct VertexStateDescriptor {
    pub index_format: IndexFormat,
    pub vertex_buffers: Vec<VertexBufferDescriptor>,
}

#[derive(Clone, Copy, Debug, PartialEq, Eq, Structural)]
pub enum PrimitiveTopology {
    PointList,
    LineList,
    LineStrip,
    TriangleList,
    TriangleStrip,
}

#[derive(Clone, Copy, Debug, PartialEq, Eq, Structural)]
pub struct ColorStateDescriptor {
    pub format: u32,
    pub write_mask: u32,
}

#[derive(Clone, Copy, Debug, PartialEq, Eq, Structural)]
pub struct DepthStencilStateDescriptor {
    pub format: u32,
    pub depth_write_enabled: bool,
    pub depth_compare: u32,
}

#[derive(Clone, Copy, Debug, PartialEq, Eq, Structural)]
pub struct RasterizationStateDescriptor {
    pub front_face: u32,
    pub cull_mode: u32,
    pub depth_bias: i32,
}

#[derive(Clone, Debug, PartialEq, Eq)]
pub struct RenderPipelineDescriptor {
    pub layout: PipelineLayoutId,
    pub vertex_stage: ProgrammableStageDescriptor,
    pub fragment_stage: Option<ProgrammableStageDescriptor>,
    pub primitive_topology: PrimitiveTopology,
    pub rasterization_state: Option<RasterizationStateDescriptor>,
    pub color_states: Vec<ColorStateDescriptor>,
    pub depth_stencil_state: Option<DepthStencilStateDescriptor>,
    pub vertex_state: VertexStateDescriptor,
    pub sample_count: u32,
    pub sample_mask: u32,
    pub alpha_to_coverage_enabled: bool,
}

#[derive(Clone, Debug, PartialEq, Eq)]
pub struct RenderBundleDescriptor {
    pub label: String,
    pub color_formats: Vec<u32>,
    pub depth_stencil_format: Option<u32>,
    pub sample_count: u32,
}

/// The attachment formats and sample count of the render pass a bundle is made for.
#[derive(Clone, Debug, PartialEq, Eq)]
pub struct RenderPassContext {
    pub colors: Vec<u32>,
    pub depth_stencil: Option<u32>,
    pub sample_count: u8,
}

impl RenderBundleDescriptor {
    /// The recorded form of a bundle made for `context`; a missing label is recorded empty.
    pub fn new(label: Option<&str>, context: &RenderPassContext) -> (r: RenderBundleDescriptor)
        ensures
            r.label@ == (match label {
                Some(l) => l@,
                None => Seq::<char>::empty(),
            }),
            r.color_formats@ == context.colors@,
            r.depth_stencil_format == context.depth_stencil,
            r.sample_count == context.sample_count as u32,
    {
        let label = match label {
            Some(l) => String::from_str(l),
            None => String::new(),
        };
        RenderBundleDescriptor {
            label,
            color_formats: slice_to_vec(context.colors.as_slice()),
            depth_stencil_format: context.depth_stencil,
            sample_count: context.sample_count as u32,
        }
    }
}

/// What one pipeline-statistics query slot counts.
#[derive(Clone, Copy, Debug, PartialEq, Eq, Structural)]
pub enum PipelineStatisticName {
    VertexShaderInvocations,
    ClipperInvocations,
    ClipperPrimitivesOut,
    FragmentShaderInvocations,
    ComputeShaderInvocations,
}

/// The kind of a query set as the device takes it: the metrics are borrowed.
#[derive(Clone, Copy, Debug)]
pub enum QueryKind<'a> {
    Occlusion,
    PipelineStatistics(&'a [PipelineStatisticName]),
    Timestamp,
}

/// The kind of a query set as it is recorded.
#[derive(Clone, Debug, PartialEq, Eq)]
pub enum QueryType {
    Occlusion,
    PipelineStatistics(Vec<PipelineStatisticName>),
    Timestamp,
}

impl QueryType {
    /// The recorded form of a query kind.
    pub fn new(query_type: &QueryKind) -> (r: QueryType)
        ensures
            query_type is Occlusion ==> r is Occlusion,
            query_type is Timestamp ==> r is Timestamp,
            query_type matches QueryKind::PipelineStatistics(names) ==> r matches QueryType::PipelineStatistics(v)
                && v@ == names@,
    {
        match query_type {
            QueryKind::Occlusion => QueryType::Occlusion,
            QueryKind::PipelineStatistics(names) => QueryType::PipelineStatistics(slice_to_vec(names)),
            QueryKind::Timestamp => QueryType::Timestamp,
        }
    }

    /// The query kind in the form the device takes, borrowing the metrics.
    pub fn to_core(&self) -> (r: QueryKind)
        ensures
            self is Occlusion ==> r is Occlusion,
            self is Timestamp ==> r is Timestamp,
            self matches QueryType::PipelineStatistics(v) ==> r matches QueryKind::PipelineStatistics(names)
                && names@ == v@,
    {
        match self {
            QueryType::Occlusion => QueryKind::Occlusion,
            QueryType::PipelineStatistics(v) => QueryKind::PipelineStatistics(v.as_slice()),
            QueryType::Timestamp => QueryKind::Timestamp,
        }
    }
}

#[derive(Clone, Debug, PartialEq, Eq)]
pub struct QuerySetDescriptor {
    pub type_: QueryType,
    pub count: u32,
}

/// The recorded commands of one compute or render pass, replayed as they are.
#[derive(Clone, Debug, PartialEq, Eq)]
pub struct BasePass {
    pub label: String,
    pub commands: Vec<u8>,
    pub dynamic_offsets: Vec<u32>,
}

#[derive(Clone, Copy, Debug, PartialEq, Eq, Structural)]
pub struct ColorAttachmentDescriptor {
    pub attachment: TextureViewId,
    pub resolve_target: Option<TextureViewId>,
    pub clear: bool,
}

#[derive(Clone, Copy, Debug, PartialEq, Eq, Structural)]
pub struct DepthStencilAttachmentDescriptor {
    pub attachment: TextureViewId,
    pub clear_depth: bool,
    pub clear_stencil: bool,
}

/// One recorded mutating API call.
#[derive(Clone, Debug, PartialEq, Eq)]
pub enum Action {
    Init { backend: crate::id::Backend, features: u64, limits_max_bind_groups: u32 },
    CreateBuffer { id: BufferId, desc: BufferDescriptor },
    DestroyBuffer(BufferId),
    CreateTexture { id: TextureId, desc: TextureDescriptor },
    DestroyTexture(TextureId),
    CreateTextureView { id: TextureViewId, parent_id: TextureId, desc: Option<TextureViewDescriptor> },
    DestroyTextureView(TextureViewId),
    CreateSampler { id: SamplerId, desc: SamplerDescriptor },
    DestroySampler(SamplerId),
    CreateSwapChain { id: SwapChainId, desc: SwapChainDescriptor },
    GetSwapChainTexture { id: Option<TextureViewId>, parent_id: SwapChainId },
    PresentSwapChain(SwapChainId),
    CreateBindGroupLayout { id: BindGroupLayoutId, label: String, entries: Vec<BindGroupLayoutEntry> },
    DestroyBindGroupLayout(BindGroupLayoutId),
    CreatePipelineLayout {
        id: PipelineLayoutId,
        bind_group_layouts: Vec<BindGroupLayoutId>,
        push_constant_ranges: Vec<PushConstantRange>,
    },
    DestroyPipelineLayout(PipelineLayoutId),
    CreateBindGroup {
        id: BindGroupId,
        label: String,
        layout_id: BindGroupLayoutId,
        entries: Vec<(u32, BindingResource)>,
    },
    DestroyBindGroup(BindGroupId),
    CreateShaderModule { id: ShaderModuleId, data: FileName },
    DestroyShaderModule(ShaderModuleId),
    CreateComputePipeline { id: ComputePipelineId, desc: ComputePipelineDescriptor },
    DestroyComputePipeline(ComputePipelineId),
    CreateRenderPipeline { id: RenderPipelineId, desc: RenderPipelineDescriptor },
    DestroyRenderPipeline(RenderPipelineId),
    CreateRenderBundle { id: RenderBundleId, desc: RenderBundleDescriptor, base: BasePass },
    DestroyRenderBundle(RenderBundleId),
    CreateQuerySet { id: QuerySetId, desc: QuerySetDescriptor },
    DestroyQuerySet(QuerySetId),
    WriteBuffer { id: BufferId, data: FileName, range_start: u64, range_end: u64, queued: bool },
    WriteTexture { to: TextureCopyView, data: FileName, layout: TextureDataLayout, size: Extent3d },
    Submit(u64, Vec<Command>),
}

/// One recorded operation inside a command encoder.
#[derive(Clone, Debug, PartialEq, Eq)]
pub enum Command {
    CopyBufferToBuffer { src: BufferId, src_offset: u64, dst: BufferId, dst_offset: u64, size: u64 },
    CopyBufferToTexture { src: BufferCopyView, dst: TextureCopyView, size: Extent3d },
    CopyTextureToBuffer { src: TextureCopyView, dst: BufferCopyView, size: Extent3d },
    CopyTextureToTexture { src: TextureCopyView, dst: TextureCopyView, size: Extent3d },
    RunComputePass { base: BasePass },
    RunRenderPass {
        base: BasePass,
        target_colors: Vec<ColorAttachmentDescriptor>,
        target_depth_stencil: Option<DepthStencilAttachmentDescriptor>,
    },
}

/// The character of a decimal digit.
pub open spec fn digit_char(d: nat) -> char {
    seq!['0', '1', '2', '3', '4', '5', '6', '7', '8', '9'][d as int % 10]
}

/// The decimal digits of `n`, most significant first, without leading zeros.
pub open spec fn decimal(n: nat) -> Seq<char>
    decreases n,
{
    if n < 10 {
        seq![digit_char(n)]
    } else {
        decimal(n / 10) + seq![digit_char(n % 10)]
    }
}

/// The name of the `n`-th blob of a trace, whose extension is `kind`: `data<n>.<kind>`.
pub open spec fn blob_name(n: nat, kind: Seq<char>) -> Seq<char> {
    seq!['d', 'a', 't', 'a'] + decimal(n) + seq!['.'] + kind
}

/// What a log starts with: the opening list delimiter.
pub open spec fn log_header() -> Seq<char> {
    seq!['[', '\n']
}

/// One record as it stands in the log: followed by a separator, the last one too.
pub open spec fn record_line(record: Seq<char>) -> Seq<char> {
    record + seq![',', '\n']
}

/// The lines of the given records, one after another.
pub open spec fn record_lines(records: Seq<Seq<char>>) -> Seq<char>
    decreases records.len(),
{
    if records.len() == 0 {
        Seq::empty()
    } else {
        record_lines(records.drop_last()) + record_line(records.last())
    }
}

/// The complete log of the given records: bracketed, one record per line.
pub open spec fn log_text(records: Seq<Seq<char>>) -> Seq<char> {
    log_header() + record_lines(records) + seq![']']
}

/// The one-character string of the decimal digit `d`.
fn digit_str(d: usize) -> (r: &'static str)
    requires
        d < 10,
    ensures
        r@ == seq![digit_char(d as nat)],
{
    proof {
        reveal_strlit("0");
        reveal_strlit("1");
        reveal_strlit("2");
        reveal_strlit("3");
        reveal_strlit("4");
        reveal_strlit("5");
        reveal_strlit("6");
        reveal_strlit("7");
        reveal_strlit("8");
        reveal_strlit("9");
    }
    if d == 0 {
        "0"
    } else if d == 1 {
        "1"
    } else if d == 2 {
        "2"
    } else if d == 3 {
        "3"
    } else if d == 4 {
        "4"
    } else if d == 5 {
        "5"
    } else if d == 6 {
        "6"
    } else if d == 7 {
        "7"
    } else if d == 8 {
        "8"
    } else {
        "9"
    }
}

/// Appends the decimal digits of `n` to `s`.
fn append_decimal(s: &mut String, n: usize)
    ensures
        final(s)@ == old(s)@ + decimal(n as nat),
    decreases n,
{
    if n >= 10 {
        append_decimal(s, n / 10);
    }
    s.append(digit_str(n % 10));
    assert(s@ =~= old(s)@ + decimal(n as nat));
}

/// A trace being captured: the text of its log and the count of blobs handed out.
/// The records are kept in encoded form; what encodes them is up to the caller.
pub struct Trace {
    text: String,
    binary_id: usize,
    records: Ghost<Seq<Seq<char>>>,
}

impl Trace {
    /// The records accepted so far, in order.
    pub closed spec fn records(&self) -> Seq<Seq<char>> {
        self.records@
    }

    /// The number of blobs handed out so far.
    pub closed spec fn blob_count(&self) -> nat {
        self.binary_id as nat
    }

    /// The text of the log so far, before the closing delimiter.
    pub closed spec fn text_spec(&self) -> Seq<char> {
        self.text@
    }

    pub open spec fn wf(&self) -> bool {
        self.text_spec() == log_header() + record_lines(self.records())
    }

    /// An empty trace: its log holds the opening delimiter only.
    pub fn new() -> (r: Trace)
        ensures
            r.wf(),
            r.records() == Seq::<Seq<char>>::empty(),
            r.blob_count() == 0,
    {
        proof {
            reveal_strlit("[\n");
        }
        let r = Trace { text: String::from_str("[\n"), binary_id: 0, records: Ghost(Seq::empty()) };
        assert(r.text_spec() =~= log_header() + record_lines(r.records()));
        r
    }

    /// Names the next blob: `data<N>.<kind>`, where `N` counts the blobs from 1.
    /// The caller stores the bytes under that name.
    pub fn make_binary(&mut self, kind: &str) -> (r: String)
        requires
            old(self).blob_count() < usize::MAX,
        ensures
            final(self).blob_count() == old(self).blob_count() + 1,
            final(self).records() == old(self).records(),
            final(self).text_spec() == old(self).text_spec(),
            r@ == blob_name(final(self).blob_count(), kind@),
    {
        self.binary_id = self.binary_id + 1;
        proof {
            reveal_strlit("data");
            reveal_strlit(".");
        }
        let mut name = String::from_str("data");
        append_decimal(&mut name, self.binary_id);
        name.append(".");
        name.append(kind);
        assert(name@ =~= blob_name(self.binary_id as nat, kind@));
        name
    }

    /// Appends one encoded record to the log. A record whose encoding failed
    /// (`None`) is dropped and the log stays as it was; the result tells which.
    pub fn add(&mut self, encoded: Option<String>) -> (r: bool)
        requires
            old(self).wf(),
        ensures
            final(self).wf(),
            final(self).blob_count() == old(self).blob_count(),
            r == encoded is Some,
            encoded matches Some(s) ==> final(self).records() == old(self).records().push(s@),
            encoded is None ==> final(self).records() == old(self).records(),
    {
        match encoded {
            Some(s) => {
                proof {
                    reveal_strlit(",\n");
                }
                self.text.append(s.as_str());
                self.text.append(",\n");
                let ghost old_records = self.records@;
                self.records = Ghost(self.records@.push(s@));
                proof {
                    assert(self.records@.drop_last() =~= old_records);
                    assert(self.text@ =~= log_header() + record_lines(self.records@));
                }
                true
            },
            None => false,
        }
    }

    /// The number of blobs handed out so far.
    pub fn blobs_made(&self) -> (r: usize)
        ensures
            r == self.blob_count(),
    {
        self.binary_id
    }

    /// The text written so far, before the closing delimiter.
    pub fn text(&self) -> (r: &str)
        ensures
            r@ == self.text_spec(),
    {
        self.text.as_str()
    }

    /// Closes the log and hands back its complete text.
    pub fn finish(self) -> (r: String)
        requires
            self.wf(),
        ensures
            r@ == log_text(self.records()),
    {
        proof {
            reveal_strlit("]");
        }
        let mut text = self.text;
        text.append("]");
        assert(text@ =~= log_text(self.records()));
        text
    }
}

/// Two blobs of one trace never share a name: the counters differ and the
/// decimal form of a number determines it.
pub proof fn lemma_blob_names_distinct(m: nat, n: nat, kind: Seq<char>)
    requires
        m != n,
    ensures
        blob_name(m, kind) != blob_name(n, kind),
{
    lemma_decimal_no_dot(m);
    lemma_decimal_no_dot(n);
    if blob_name(m, kind) == blob_name(n, kind) {
        let a = blob_name(m, kind);
        let dm = decimal(m);
        let dn = decimal(n);
        // The first '.' after the prefix ends the number in both names.
        if dm.len() < dn.len() {
            assert(a[4 + dm.len() as int] == '.');
            assert(blob_name(n, kind)[4 + dm.len() as int] == dn[dm.len() as int]);
        } else if dn.len() < dm.len() {
            assert(a[4 + dn.len() as int] == dm[dn.len() as int]);
            assert(blob_name(n, kind)[4 + dn.len() as int] == '.');
        } else {
            assert forall|i: int| 0 <= i < dm.len() implies dm[i] == dn[i] by {
                assert(a[4 + i] == dm[i]);
                assert(blob_name(n, kind)[4 + i] == dn[i]);
            }
            assert(dm =~= dn);
            lemma_decimal_injective(m, n);
        }
    }
}

/// A decimal form holds digits only, and at least one.
proof fn lemma_decimal_no_dot(n: nat)
    ensures
        decimal(n).len() >= 1,
        forall|i: int| 0 <= i < decimal(n).len() ==> decimal(n)[i] != '.',
    decreases n,
{
    if n >= 10 {
        lemma_decimal_no_dot(n / 10);
        let d = decimal(n);
        assert forall|i: int| 0 <= i < d.len() implies d[i] != '.' by {
            if i < decimal(n / 10).len() {
                assert(d[i] == decimal(n / 10)[i]);
            }
        }
    }
}

/// The digit of a number below ten determines it.
proof fn lemma_digit_injective(a: nat, b: nat)
    requires
        a < 10,
        b < 10,
        digit_char(a) == digit_char(b),
    ensures
        a == b,
{
}

/// A single digit is the form of a number below ten only.
proof fn lemma_decimal_len(n: nat)
    ensures
        decimal(n).len() == 1 <==> n < 10,
    decreases n,
{
    if n >= 10 {
        lemma_decimal_no_dot(n / 10);
    }
}

/// Equal decimal forms come from equal numbers.
proof fn lemma_decimal_injective(m: nat, n: nat)
    requires
        decimal(m) == decimal(n),
    ensures
        m == n,
    decreases m,
{
    lemma_decimal_len(m);
    lemma_decimal_len(n);
    if m < 10 {
        assert(decimal(m)[0] == digit_char(m));
        assert(decimal(n)[0] == digit_char(n));
        lemma_digit_injective(m, n);
    } else {
        let dm = decimal(m);
        assert(dm.drop_last() =~= decimal(m / 10));
        assert(decimal(n).drop_last() =~= decimal(n / 10));
        lemma_decimal_injective(m / 10, n / 10);
        assert(dm.last() == digit_char(m % 10));
        assert(decimal(n).last() == digit_char(n % 10));
        lemma_digit_injective(m % 10, n % 10);
    }
}

} // verus!
