//! Pipeline configuration: the builder that records a shader source name, its
//! two entry points, the output pixel format and the vertex buffer layouts,
//! and the fixed-function settings the one render pipeline is built with.
//!
//! Compiling the shader and creating the pipeline object are GPU backend
//! calls; the surrounding application performs them from the descriptor this
//! module assembles.

use vstd::prelude::*;
use crate::mesh_builder::VertexBufferLayout;
use crate::surface::PixelFormat;

verus! {

/// How vertices are assembled into primitives.
#[derive(Clone, Copy, Debug, PartialEq, Eq, Structural)]
pub enum PrimitiveTopology {
    PointList,
    LineList,
    LineStrip,
    TriangleList,
    TriangleStrip,
}

/// Which winding order counts as the front of a triangle.
#[derive(Clone, Copy, Debug, PartialEq, Eq, Structural)]
pub enum FrontFace {
    Ccw,
    Cw,
}

/// Which triangle side, if any, is culled.
#[derive(Clone, Copy, Debug, PartialEq, Eq, Structural)]
pub enum CullFace {
    Disabled,
    Front,
    Back,
}

/// How triangles are rasterized.
#[derive(Clone, Copy, Debug, PartialEq, Eq, Structural)]
pub enum PolygonMode {
    Fill,
    Line,
    Point,
}

/// How a drawn fragment combines with the color already in the target.
#[derive(Clone, Copy, Debug, PartialEq, Eq, Structural)]
pub enum BlendMode {
    Replace,
    AlphaBlending,
}

/// Everything the GPU backend needs to build the one render pipeline: the
/// shader source name and entry points, the color target format, the vertex
/// buffer layouts, and the fixed-function state.
#[derive(Clone, Debug, PartialEq)]
pub struct PipelineDescriptor {
    pub shader_filename: String,
    pub use_embedded_shader: bool,
    pub vertex_entry: String,
    pub fragment_entry: String,
    pub pixel_format: PixelFormat,
    pub vertex_buffer_layouts: Vec<VertexBufferLayout>,
    pub topology: PrimitiveTopology,
    pub front_face: FrontFace,
    pub cull_face: CullFace,
    pub polygon_mode: PolygonMode,
    pub blend_mode: BlendMode,
    pub sample_count: u32,
    pub has_depth_stencil: bool,
    pub bind_group_layout_count: u32,
    pub push_constant_range_count: u32,
}

/// Records what the one render pipeline is built from. The shader, its entry
/// points and the pixel format are plain configuration, validated only when
/// the backend compiles the result of `build_pipline`.
#[derive(Clone, Debug, PartialEq)]
pub struct PipelineBuilder {
    pub shader_filename: String,
    pub vertex_entry: String,
    pub fragment_entry: String,
    pub pixel_format: PixelFormat,
    pub use_embedded_shader: bool,
    pub vertex_buffer_layouts: Vec<VertexBufferLayout>,
}

impl PipelineBuilder {
    /// A fresh builder: placeholder shader and entry names, an eight-bit RGBA
    /// format, a file-read shader source, and no vertex buffer layouts.
    pub fn new() -> (b: PipelineBuilder)
        ensures
            b.shader_filename@ == "dummy"@,
            b.vertex_entry@ == "dummy"@,
            b.fragment_entry@ == "dummy"@,
            b.pixel_format == PixelFormat::Rgba8Unorm,
            !b.use_embedded_shader,
            b.vertex_buffer_layouts@.len() == 0,
    {
        PipelineBuilder {
            shader_filename: "dummy".to_string(),
            vertex_entry: "dummy".to_string(),
            fragment_entry: "dummy".to_string(),
            pixel_format: PixelFormat::Rgba8Unorm,
            use_embedded_shader: false,
            vertex_buffer_layouts: Vec::new(),
        }
    }

    /// Records the shader source name and the vertex- and fragment-stage
    /// entry points the pipeline is compiled against.
    pub fn set_shader_module(
        &mut self,
        shader_filename: &str,
        vertex_entry: &str,
        fragment_entry: &str,
    )
        ensures
            final(self).shader_filename@ == shader_filename@,
            final(self).vertex_entry@ == vertex_entry@,
            final(self).fragment_entry@ == fragment_entry@,
            final(self).pixel_format == old(self).pixel_format,
            final(self).use_embedded_shader == old(self).use_embedded_shader,
            final(self).vertex_buffer_layouts == old(self).vertex_buffer_layouts,
    {
        self.shader_filename = shader_filename.to_string();
        self.vertex_entry = vertex_entry.to_string();
        self.fragment_entry = fragment_entry.to_string();
    }

    /// Records the output color target format; it must match the format the
    /// presentation surface is configured with, or draws will fail backend
    /// validation.
    pub fn set_pixel_format(&mut self, pixel_format: PixelFormat)
        ensures
            final(self).pixel_format == pixel_format,
            final(self).shader_filename == old(self).shader_filename,
            final(self).vertex_entry == old(self).vertex_entry,
            final(self).fragment_entry == old(self).fragment_entry,
            final(self).use_embedded_shader == old(self).use_embedded_shader,
            final(self).vertex_buffer_layouts == old(self).vertex_buffer_layouts,
    {
        self.pixel_format = pixel_format;
    }

    /// Appends one vertex buffer layout to bind at build time. A builder with
    /// none means the vertex stage sources no per-vertex input.
    pub fn add_vertex_buffer_layouts(&mut self, layout: VertexBufferLayout)
        ensures
            final(self).vertex_buffer_layouts@ == old(self).vertex_buffer_layouts@.push(layout),
            final(self).shader_filename == old(self).shader_filename,
            final(self).vertex_entry == old(self).vertex_entry,
            final(self).fragment_entry == old(self).fragment_entry,
            final(self).pixel_format == old(self).pixel_format,
            final(self).use_embedded_shader == old(self).use_embedded_shader,
    {
        self.vertex_buffer_layouts.push(layout);
    }

    /// Assembles the descriptor of the one render pipeline: the recorded
    /// shader, entry points, format and layouts, with triangle-list topology,
    /// counter-clockwise front faces, back-face culling, filled polygons,
    /// replacing blend, a single sample, no depth or stencil, and an empty
    /// pipeline layout (no bind groups, no push constants).
    pub fn build_pipline(self) -> (d: PipelineDescriptor)
        ensures
            d.shader_filename == self.shader_filename,
            d.use_embedded_shader == self.use_embedded_shader,
            d.vertex_entry == self.vertex_entry,
            d.fragment_entry == self.fragment_entry,
            d.pixel_format == self.pixel_format,
            d.vertex_buffer_layouts == self.vertex_buffer_layouts,
            d.topology is TriangleList,
            d.front_face is Ccw,
            d.cull_face is Back,
            d.polygon_mode is Fill,
            d.blend_mode is Replace,
            d.sample_count == 1,
            !d.has_depth_stencil,
            d.bind_group_layout_count == 0,
            d.push_constant_range_count == 0,
    {
        PipelineDescriptor {
            shader_filename: self.shader_filename,
            use_embedded_shader: self.use_embedded_shader,
            vertex_entry: self.vertex_entry,
            fragment_entry: self.fragment_entry,
            pixel_format: self.pixel_format,
            vertex_buffer_layouts: self.vertex_buffer_layouts,
            topology: PrimitiveTopology::TriangleList,
            front_face: FrontFace::Ccw,
            cull_face: CullFace::Back,
            polygon_mode: PolygonMode::Fill,
            blend_mode: BlendMode::Replace,
            sample_count: 1,
            has_depth_stencil: false,
            bind_group_layout_count: 0,
            push_constant_range_count: 0,
        }
    }
}

} // verus!
