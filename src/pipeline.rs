//! Binding layouts of the two pipelines and the binding sets the grid builds against them.
use vstd::prelude::*;

verus! {

/// Shader stage that sees a binding.
#[derive(Clone, Copy, Debug, PartialEq, Eq, Structural)]
pub enum ShaderStage {
    Vertex,
    Fragment,
    Compute,
}

/// What a layout slot holds.
#[derive(Clone, Copy, Debug, PartialEq, Eq, Structural)]
pub enum BindingKind {
    /// A 2D float image read through a sampler (not filterable).
    SampledImage,
    /// A sampler that does not filter.
    NonFilteringSampler,
    /// A 2D image of four 32-bit float channels, written by the shader.
    WriteOnlyStorageImage,
    /// A constant buffer.
    UniformBuffer,
    /// A storage buffer the shader only reads.
    ReadOnlyStorageBuffer,
}

/// One slot of a binding layout.
#[derive(Clone, Copy, Debug, PartialEq, Eq, Structural)]
pub struct LayoutEntry {
    pub binding: u32,
    pub visibility: ShaderStage,
    pub kind: BindingKind,
}

/// A resource that the grid owns and binds.
#[derive(Clone, Copy, Debug, PartialEq, Eq, Structural)]
pub enum GridResource {
    /// A view of the grid image.
    ImageView,
    /// The nearest-neighbour, clamp-to-edge sampler.
    NearestClampSampler,
    /// The constant buffer holding the grid's dimensions.
    DimsBuffer,
    /// The buffer of field `u`.
    FieldU,
    /// The buffer of field `v`.
    FieldV,
}

/// One entry of a binding set.
#[derive(Clone, Copy, Debug, PartialEq, Eq, Structural)]
pub struct BindEntry {
    pub binding: u32,
    pub resource: GridResource,
}

/// A slot of kind `kind` can hold `res`.
pub open spec fn accepts(kind: BindingKind, res: GridResource) -> bool {
    match kind {
        BindingKind::SampledImage => res == GridResource::ImageView,
        BindingKind::NonFilteringSampler => res == GridResource::NearestClampSampler,
        BindingKind::WriteOnlyStorageImage => res == GridResource::ImageView,
        BindingKind::UniformBuffer => res == GridResource::DimsBuffer,
        BindingKind::ReadOnlyStorageBuffer => res == GridResource::FieldU || res
            == GridResource::FieldV,
    }
}

/// The set fills the layout slot for slot: same number of entries, the same binding
/// numbers in the same order, and each resource of a kind its slot accepts.
pub open spec fn set_matches(layout: Seq<LayoutEntry>, set: Seq<BindEntry>) -> bool {
    &&& layout.len() == set.len()
    &&& forall|i: int|
        0 <= i < layout.len() ==> {
            &&& (#[trigger] layout[i]).binding == set[i].binding
            &&& accepts(layout[i].kind, set[i].resource)
        }
}

/// Layout of the render stage: the image for sampling at 0, the sampler at 1, both
/// seen by the fragment stage.
pub open spec fn render_layout_spec() -> Seq<LayoutEntry> {
    seq![
        LayoutEntry { binding: 0, visibility: ShaderStage::Fragment, kind: BindingKind::SampledImage },
        LayoutEntry { binding: 1, visibility: ShaderStage::Fragment, kind: BindingKind::NonFilteringSampler },
    ]
}

/// Layout of the compute stage: the image for writing at 0, the dimensions at 1, the
/// fields at 2 and 3, all seen by the compute stage.
pub open spec fn compute_layout_spec() -> Seq<LayoutEntry> {
    seq![
        LayoutEntry { binding: 0, visibility: ShaderStage::Compute, kind: BindingKind::WriteOnlyStorageImage },
        LayoutEntry { binding: 1, visibility: ShaderStage::Compute, kind: BindingKind::UniformBuffer },
        LayoutEntry { binding: 2, visibility: ShaderStage::Compute, kind: BindingKind::ReadOnlyStorageBuffer },
        LayoutEntry { binding: 3, visibility: ShaderStage::Compute, kind: BindingKind::ReadOnlyStorageBuffer },
    ]
}

/// The grid's render binding set: image view and sampler.
pub open spec fn render_set_spec() -> Seq<BindEntry> {
    seq![
        BindEntry { binding: 0, resource: GridResource::ImageView },
        BindEntry { binding: 1, resource: GridResource::NearestClampSampler },
    ]
}

/// The grid's compute binding set: image view, dimensions, field `u`, field `v`.
pub open spec fn compute_set_spec() -> Seq<BindEntry> {
    seq![
        BindEntry { binding: 0, resource: GridResource::ImageView },
        BindEntry { binding: 1, resource: GridResource::DimsBuffer },
        BindEntry { binding: 2, resource: GridResource::FieldU },
        BindEntry { binding: 3, resource: GridResource::FieldV },
    ]
}

pub fn render_layout_entries() -> (r: Vec<LayoutEntry>)
    ensures
        r@ == render_layout_spec(),
{
    let mut r: Vec<LayoutEntry> = Vec::new();
    r.push(LayoutEntry { binding: 0, visibility: ShaderStage::Fragment, kind: BindingKind::SampledImage });
    r.push(LayoutEntry { binding: 1, visibility: ShaderStage::Fragment, kind: BindingKind::NonFilteringSampler });
    assert(r@ =~= render_layout_spec());
    r
}

pub fn compute_layout_entries() -> (r: Vec<LayoutEntry>)
    ensures
        r@ == compute_layout_spec(),
{
    let mut r: Vec<LayoutEntry> = Vec::new();
    r.push(LayoutEntry { binding: 0, visibility: ShaderStage::Compute, kind: BindingKind::WriteOnlyStorageImage });
    r.push(LayoutEntry { binding: 1, visibility: ShaderStage::Compute, kind: BindingKind::UniformBuffer });
    r.push(LayoutEntry { binding: 2, visibility: ShaderStage::Compute, kind: BindingKind::ReadOnlyStorageBuffer });
    r.push(LayoutEntry { binding: 3, visibility: ShaderStage::Compute, kind: BindingKind::ReadOnlyStorageBuffer });
    assert(r@ =~= compute_layout_spec());
    r
}

pub fn render_bind_entries() -> (r: Vec<BindEntry>)
    ensures
        r@ == render_set_spec(),
{
    let mut r: Vec<BindEntry> = Vec::new();
    r.push(BindEntry { binding: 0, resource: GridResource::ImageView });
    r.push(BindEntry { binding: 1, resource: GridResource::NearestClampSampler });
    assert(r@ =~= render_set_spec());
    r
}

pub fn compute_bind_entries() -> (r: Vec<BindEntry>)
    ensures
        r@ == compute_set_spec(),
{
    let mut r: Vec<BindEntry> = Vec::new();
    r.push(BindEntry { binding: 0, resource: GridResource::ImageView });
    r.push(BindEntry { binding: 1, resource: GridResource::DimsBuffer });
    r.push(BindEntry { binding: 2, resource: GridResource::FieldU });
    r.push(BindEntry { binding: 3, resource: GridResource::FieldV });
    assert(r@ =~= compute_set_spec());
    r
}

/// Whether a slot of kind `kind` can hold `res`.
pub fn binding_accepts(kind: BindingKind, res: GridResource) -> (r: bool)
    ensures
        r == accepts(kind, res),
{
    match kind {
        BindingKind::SampledImage => res == GridResource::ImageView,
        BindingKind::NonFilteringSampler => res == GridResource::NearestClampSampler,
        BindingKind::WriteOnlyStorageImage => res == GridResource::ImageView,
        BindingKind::UniformBuffer => res == GridResource::DimsBuffer,
        BindingKind::ReadOnlyStorageBuffer => res == GridResource::FieldU || res
            == GridResource::FieldV,
    }
}

/// Whether `set` fills `layout` slot for slot.
pub fn bind_set_matches(layout: &Vec<LayoutEntry>, set: &Vec<BindEntry>) -> (r: bool)
    ensures
        r == set_matches(layout@, set@),
{
    if layout.len() != set.len() {
        return false;
    }
    let mut i: usize = 0;
    while i < layout.len()
        invariant
            i <= layout@.len(),
            layout@.len() == set@.len(),
            forall|j: int|
                0 <= j < i ==> {
                    &&& (#[trigger] layout@[j]).binding == set@[j].binding
                    &&& accepts(layout@[j].kind, set@[j].resource)
                },
        decreases layout@.len() - i,
    {
        if layout[i].binding != set[i].binding || !binding_accepts(layout[i].kind, set[i].resource) {
            assert(!((layout@[i as int]).binding == set@[i as int].binding
                && accepts(layout@[i as int].kind, set@[i as int].resource)));
            return false;
        }
        i = i + 1;
    }
    true
}

/// The grid's binding sets fit the pipelines' layouts: the compute set fills the compute
/// layout and the render set fills the render layout, so building either never fails
/// on a layout mismatch.
pub proof fn lemma_grid_sets_match_layouts()
    ensures
        set_matches(render_layout_spec(), render_set_spec()),
        set_matches(compute_layout_spec(), compute_set_spec()),
{
    assert(set_matches(render_layout_spec(), render_set_spec()));
    assert(set_matches(compute_layout_spec(), compute_set_spec()));
}

/// How a sampler treats coordinates outside `[0, 1]`.
#[derive(Clone, Copy, Debug, PartialEq, Eq, Structural)]
pub enum AddressMode {
    ClampToEdge,
    Repeat,
    MirrorRepeat,
}

/// How a sampler picks between texels.
#[derive(Clone, Copy, Debug, PartialEq, Eq, Structural)]
pub enum FilterMode {
    Nearest,
    Linear,
}

/// Settings of a sampler: one address mode for all three axes, one filter for
/// magnification, minification and between mip levels.
#[derive(Clone, Copy, Debug, PartialEq, Eq, Structural)]
pub struct SamplerSettings {
    pub address_mode: AddressMode,
    pub filter: FilterMode,
}

/// How vertices are assembled into primitives.
#[derive(Clone, Copy, Debug, PartialEq, Eq, Structural)]
pub enum Topology {
    PointList,
    LineList,
    TriangleList,
    TriangleStrip,
}

/// Which faces are culled.
#[derive(Clone, Copy, Debug, PartialEq, Eq, Structural)]
pub enum CullMode {
    NoCulling,
    Front,
    Back,
}

/// How the fragment colour combines with the target's.
#[derive(Clone, Copy, Debug, PartialEq, Eq, Structural)]
pub enum BlendMode {
    Replace,
    AlphaBlending,
}

/// Fixed-function settings of a render pipeline.
#[derive(Clone, Copy, Debug, PartialEq, Eq, Structural)]
pub struct RenderPipelineSettings {
    pub topology: Topology,
    pub cull_mode: CullMode,
    /// Whether a depth/stencil attachment is used.
    pub depth_stencil: bool,
    pub blend: BlendMode,
    /// Number of vertex buffers the vertex stage reads.
    pub vertex_buffers: u32,
    /// Number of colour targets.
    pub color_targets: u32,
}

/// The grid's sampler: nearest-neighbour, clamped to the edge.
pub open spec fn grid_sampler_spec() -> SamplerSettings {
    SamplerSettings { address_mode: AddressMode::ClampToEdge, filter: FilterMode::Nearest }
}

/// The pipeline that paints the grid image to the screen: a triangle list with back faces
/// culled, no depth/stencil, one colour target written with "replace" blending, and no
/// vertex buffers (the vertex stage derives the full-screen triangle from the index).
pub open spec fn render_pipeline_spec() -> RenderPipelineSettings {
    RenderPipelineSettings {
        topology: Topology::TriangleList,
        cull_mode: CullMode::Back,
        depth_stencil: false,
        blend: BlendMode::Replace,
        vertex_buffers: 0,
        color_targets: 1,
    }
}

pub fn grid_sampler() -> (r: SamplerSettings)
    ensures
        r == grid_sampler_spec(),
{
    SamplerSettings { address_mode: AddressMode::ClampToEdge, filter: FilterMode::Nearest }
}

pub fn render_pipeline_settings() -> (r: RenderPipelineSettings)
    ensures
        r == render_pipeline_spec(),
{
    RenderPipelineSettings {
        topology: Topology::TriangleList,
        cull_mode: CullMode::Back,
        depth_stencil: false,
        blend: BlendMode::Replace,
        vertex_buffers: 0,
        color_targets: 1,
    }
}

} // verus!
