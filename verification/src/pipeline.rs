//! Graphics pipelines.
//!
//! A pipeline is the compiled, bound shader-stage graph plus the fixed
//! function state, parameterized by a vertex layout and by the output
//! formats of the swapchain it renders into.  It is immutable once created.

use crate::device::RenderDevice;
use crate::format::Format;
use crate::shader::{ShaderModule, ShaderType};
use crate::swapchain::Swapchain;
use crate::Extent2D;
use vstd::prelude::*;

verus! {

/// Which winding order makes a face front-facing.
#[derive(Debug, Clone, Copy, PartialEq, Eq, Structural)]
pub enum FrontFace {
    Clockwise,
    CounterClockwise,
}

/// Which faces the rasterizer culls.
#[derive(Debug, Clone, Copy, PartialEq, Eq, Structural)]
pub enum CullMode {
    Disabled,
    Front,
    Back,
    FrontAndBack,
}

/// How the rasterizer fills primitives.
#[derive(Debug, Clone, Copy, PartialEq, Eq, Structural)]
pub enum FillMode {
    Fill,
    Line,
    Point,
}

/// What happens to an attachment when a render pass begins.
#[derive(Debug, Clone, Copy, PartialEq, Eq, Structural)]
pub enum AttachmentLoadOp {
    Load,
    Clear,
    DontCare,
}

/// What happens to an attachment when a render pass ends.
#[derive(Debug, Clone, Copy, PartialEq, Eq, Structural)]
pub enum AttachmentStoreOp {
    Store,
    DontCare,
}

/// The byte layout of one vertex buffer binding.
#[derive(Debug, Clone, Copy, PartialEq, Eq, Structural)]
pub struct BindingDescription {
    /// The binding number this structure describes.
    pub binding: u32,
    /// The byte stride between consecutive elements within the buffer.
    pub stride: u32,
}

/// How the pipeline reads one vertex attribute out of a binding.
#[derive(Debug, Clone, Copy, PartialEq, Eq, Structural)]
pub struct AttributeDescription {
    /// The format of the vertex attribute data.
    pub format: Format,
    /// The shader input location number for this attribute.
    pub location: u32,
    /// The binding number this attribute takes its data from.
    pub binding: u32,
    /// The byte offset of this attribute relative to the start of an
    /// element in the vertex input binding.
    pub offset: u32,
}

/// The vertex buffer layout a vertex type declares: the spacing between
/// elements and whether data is read per vertex.
pub trait VertexBindingDescription {
    /// The bindings the type declares.
    spec fn spec_binding_description() -> Seq<BindingDescription>;

    /// Produce the bindings the type declares.
    fn binding_description() -> (r: Vec<BindingDescription>)
        ensures
            r@ == Self::spec_binding_description(),
    ;
}

/// The attributes a vertex type passes to the vertex shader: their format,
/// location and offset within a binding.
pub trait VertexAttributeDescription {
    /// The attributes the type declares.
    spec fn spec_attribute_descriptions() -> Seq<AttributeDescription>;

    /// Produce the attributes the type declares.
    fn attribute_descriptions() -> (r: Vec<AttributeDescription>)
        ensures
            r@ == Self::spec_attribute_descriptions(),
    ;
}

/// A vertex type with no data at all, for pipelines whose vertex shader
/// produces its own geometry.
#[derive(Debug, Clone, Copy, PartialEq, Eq, Structural)]
pub struct NoVertex;

impl VertexBindingDescription for NoVertex {
    open spec fn spec_binding_description() -> Seq<BindingDescription> {
        Seq::empty()
    }

    fn binding_description() -> (r: Vec<BindingDescription>) {
        let r: Vec<BindingDescription> = Vec::new();
        proof {
            assert(r@ =~= Seq::<BindingDescription>::empty());
        }
        r
    }
}

impl VertexAttributeDescription for NoVertex {
    open spec fn spec_attribute_descriptions() -> Seq<AttributeDescription> {
        Seq::empty()
    }

    fn attribute_descriptions() -> (r: Vec<AttributeDescription>) {
        let r: Vec<AttributeDescription> = Vec::new();
        proof {
            assert(r@ =~= Seq::<AttributeDescription>::empty());
        }
        r
    }
}

/// The information needed to create a pipeline.
pub struct PipelineCreateInfo {
    /// The shaders bound into the pipeline.
    pub shaders: Vec<ShaderModule>,
    /// The winding order that makes a face front-facing.
    pub front_face: FrontFace,
    /// How primitives are filled.
    pub fill_mode: FillMode,
    /// Which faces are culled.
    pub cull_mode: CullMode,
    /// The format of the depth attachment, or undefined for none.
    pub depth_format: Format,
    /// Whether the depth buffer is written.
    pub depth_write: bool,
    /// Whether the depth test runs.
    pub depth_test: bool,
}

impl Default for PipelineCreateInfo {
    fn default() -> (r: Self)
        ensures
            r.shaders@.len() == 0,
            r.front_face is CounterClockwise,
            r.fill_mode is Fill,
            r.cull_mode is Disabled,
            r.depth_format is Undefined,
            !r.depth_write,
            !r.depth_test,
    {
        Self {
            shaders: Vec::new(),
            front_face: FrontFace::CounterClockwise,
            fill_mode: FillMode::Fill,
            cull_mode: CullMode::Disabled,
            depth_format: Format::Undefined,
            depth_write: false,
            depth_test: false,
        }
    }
}

/// A pipeline: the bound shader stages and fixed function state, compiled
/// against the output formats of one swapchain. Immutable once created.
pub struct Pipeline {
    /// The color attachment format the pipeline renders into: the format
    /// of the swapchain it was created against.
    pub color_format: Format,
    /// The depth attachment format, or undefined for none.
    pub depth_format: Format,
    /// The static viewport extent: the extent of the swapchain the
    /// pipeline was created against.
    pub extent: Extent2D,
    /// The stages of the bound shaders, in binding order.
    pub stages: Vec<ShaderType>,
    /// The vertex buffer bindings of the vertex type.
    pub bindings: Vec<BindingDescription>,
    /// The vertex attributes of the vertex type.
    pub attributes: Vec<AttributeDescription>,
    /// The winding order that makes a face front-facing.
    pub front_face: FrontFace,
    /// How primitives are filled.
    pub fill_mode: FillMode,
    /// Which faces are culled.
    pub cull_mode: CullMode,
    /// Whether the depth buffer is written.
    pub depth_write: bool,
    /// Whether the depth test runs.
    pub depth_test: bool,
}

impl Pipeline {
    /// Creates a new pipeline against a swapchain's formats. The generic
    /// parameter is the type of the vertex data passed to the vertex
    /// shader; its declared layout becomes the pipeline's vertex input
    /// state.
    pub fn new<T: VertexAttributeDescription + VertexBindingDescription>(
        _device: &RenderDevice,
        swapchain: &Swapchain,
        info: PipelineCreateInfo,
    ) -> (r: Self)
        ensures
            r.color_format == swapchain.format,
            r.extent == swapchain.extent,
            r.depth_format == info.depth_format,
            r.stages@.len() == info.shaders@.len(),
            forall|i: int|
                0 <= i < info.shaders@.len()
                    ==> r.stages@[i] == (#[trigger] info.shaders@[i]).kind,
            r.bindings@ == T::spec_binding_description(),
            r.attributes@ == T::spec_attribute_descriptions(),
            r.front_face == info.front_face,
            r.fill_mode == info.fill_mode,
            r.cull_mode == info.cull_mode,
            r.depth_write == info.depth_write,
            r.depth_test == info.depth_test,
    {
        // One shader stage per bound module, in binding order.
        let mut stages: Vec<ShaderType> = Vec::new();
        let n = info.shaders.len();
        let mut i: usize = 0;
        while i < n
            invariant
                i <= n,
                n == info.shaders@.len(),
                stages@.len() == i,
                forall|k: int|
                    0 <= k < i ==> stages@[k] == (#[trigger] info.shaders@[k]).kind,
            decreases n - i,
        {
            stages.push(info.shaders[i].kind());
            i = i + 1;
        }

        // The vertex input state comes from the vertex type's declared
        // layout.
        let bindings = T::binding_description();
        let attributes = T::attribute_descriptions();

        Self {
            color_format: swapchain.format(),
            depth_format: info.depth_format,
            extent: swapchain.extent(),
            stages,
            bindings,
            attributes,
            front_face: info.front_face,
            fill_mode: info.fill_mode,
            cull_mode: info.cull_mode,
            depth_write: info.depth_write,
            depth_test: info.depth_test,
        }
    }

    /// Whether the pipeline takes no vertex input.
    pub fn has_vertex_input(&self) -> (r: bool)
        ensures
            r == (self.bindings@.len() > 0),
    {
        self.bindings.len() > 0
    }
}

} // verus!
