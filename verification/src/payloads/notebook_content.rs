//! The content of a notebook: cells, and the render configuration that
//! render cells carry. Parts that hold floating-point numbers (camera,
//! clear colours, output scales) are not part of this library.

use vstd::prelude::*;

use serde_json::Value;

verus! {

/// A notebook's content, similar to a Jupyter notebook.
#[derive(Debug, Clone)]
pub struct NotebookContent {
    /// Version string for compatibility support
    pub version: String,
    /// List of cells in the notebook
    pub cells: Vec<Cell>,
    /// Metadata containing notebook-level configuration
    pub metadata: Value,
}

/// A single cell in the notebook.
#[derive(Debug, Clone)]
pub struct Cell {
    /// Unique identifier for the cell
    pub id: String,
    /// Type of cell (markdown, code, or render)
    pub cell_type: CellType,
    /// Content of the cell, format depends on cell_type
    pub content: String,
    /// Metadata for the cell
    pub metadata: CellMetadata,
}

/// Types of cells supported in the notebook.
#[derive(Debug, Clone, Copy, PartialEq, Eq, Structural)]
pub enum CellType {
    /// Markdown text content
    Markdown,
    /// Code content (e.g., WGSL shader code)
    Code,
    /// Render configuration for WebGPU visualization
    Render,
}

/// Metadata for a cell.
#[derive(Debug, Clone, Copy, PartialEq, Eq, Structural)]
pub struct CellMetadata {
    /// Whether the cell is collapsed in the UI
    pub collapsed: bool,
}

/// Binding of a shader to a stage of the pipeline.
#[derive(Debug, Clone)]
pub struct ShaderBinding {
    /// Index into the shader_ids array
    pub shader_index: usize,
    /// Stage of the rendering pipeline where this shader is used
    pub shader_stage: ShaderStage,
    /// Entry point function name in the shader code
    pub entry_point: String,
}

/// Shader stages of the WebGPU pipeline.
#[derive(Debug, Clone, Copy, PartialEq, Eq, Structural)]
pub enum ShaderStage {
    /// Vertex processing stage
    Vertex,
    /// Fragment (pixel) processing stage
    Fragment,
    /// Compute stage for general purpose GPU computation
    Compute,
}

/// A vertex attribute of the pipeline.
#[derive(Debug, Clone)]
pub struct VertexAttribute {
    /// Name of the attribute
    pub name: String,
    /// Format of the attribute data (e.g., "float32x3" for a vec3)
    pub format: String,
    /// Byte offset within the vertex buffer
    pub offset: u64,
    /// Byte stride between consecutive vertices
    pub stride: u64,
}

/// Binding of a resource to the pipeline.
#[derive(Debug, Clone, Copy, PartialEq, Eq, Structural)]
pub struct ResourceBinding {
    /// Index into the resource_ids array
    pub resource_index: usize,
    /// Binding group index
    pub group: u32,
    /// Binding index within the group
    pub binding: u32,
    /// Type of binding
    pub binding_type: BindingType,
}

/// Types of bindings available in WebGPU.
#[derive(Debug, Clone, Copy, PartialEq, Eq, Structural)]
pub enum BindingType {
    /// Uniform buffer binding
    Uniform,
    /// Storage buffer binding
    Storage,
    /// Texture binding
    Texture,
    /// Sampler binding
    Sampler,
}

/// Types of render passes.
#[derive(Debug, Clone, Copy, PartialEq, Eq, Structural)]
pub enum RenderPassType {
    /// Main render pass, outputs to screen
    Main,
    /// Intermediate render pass, outputs to a texture
    Intermediate,
    /// Post-processing pass
    PostProcess,
    /// Compute pass for general-purpose computation
    Compute,
}

impl Default for RenderPassType {
    fn default() -> (res: Self)
        ensures
            res == RenderPassType::Main,
    {
        RenderPassType::Main
    }
}

/// Binding of an input texture to a render pass.
#[derive(Debug, Clone)]
pub struct InputTextureBinding {
    /// Texture ID: a pass ID, a resource ID, or a special value ("previous")
    pub texture_id: String,
    /// Binding group index
    pub group: u32,
    /// Binding index within the group
    pub binding: u32,
    /// Optional sampler configuration
    pub sampler_config: Option<SamplerConfig>,
}

/// Configuration of a texture sampler.
#[derive(Debug, Clone)]
pub struct SamplerConfig {
    /// Magnification filter ("linear" or "nearest")
    pub mag_filter: String,
    /// Minification filter ("linear" or "nearest")
    pub min_filter: String,
    /// Addressing mode for the U coordinate
    pub address_mode_u: String,
    /// Addressing mode for the V coordinate
    pub address_mode_v: String,
}

/// Blending of a render target.
#[derive(Debug, Clone)]
pub struct BlendConfig {
    /// Source blend factor
    pub src_factor: String,
    /// Destination blend factor
    pub dst_factor: String,
    /// Blend operation
    pub operation: String,
}

/// Geometry drawn by a render pass.
#[derive(Debug, Clone)]
pub enum GeometryConfig {
    /// Standard built-in geometry
    Standard {
        /// Type of primitive (e.g., "quad", "triangle")
        primitive: String,
    },
    /// Indexed geometry with custom indices
    Indexed {
        /// Number of indices to draw
        index_count: u32,
        /// Number of instances to draw
        instance_count: u32,
    },
    /// Non-indexed geometry with custom vertices
    NonIndexed {
        /// Number of vertices to draw
        vertex_count: u32,
        /// Number of instances to draw
        instance_count: u32,
    },
}

/// Performance settings of the renderer.
#[derive(Debug, Clone, Copy, PartialEq, Eq, Structural)]
pub struct PerformanceConfig {
    /// Whether to use hardware acceleration
    pub hardware_acceleration: bool,
    /// Whether to enable anti-aliasing
    pub antialias: bool,
    /// Whether to adjust resolution to keep performance
    pub adaptive_resolution: bool,
    /// Maximum frame rate (0 means unlimited)
    pub max_fps: u32,
}

/// The value a missing switch takes: on.
pub fn default_true() -> (res: bool)
    ensures
        res,
{
    true
}

/// The id a render pass takes when none is given.
pub fn default_pass_id() -> (res: String)
    ensures
        res@ == "main"@,
{
    "main".to_owned()
}

/// The id an output texture takes when none is given.
pub fn default_output_id() -> (res: String)
    ensures
        res@ == "output"@,
{
    "output".to_owned()
}

/// The format an output texture takes when none is given.
pub fn default_texture_format() -> (res: String)
    ensures
        res@ == "rgba8unorm"@,
{
    "rgba8unorm".to_owned()
}

/// The instance count a draw takes when none is given.
pub fn default_one_u32() -> (res: u32)
    ensures
        res == 1,
{
    1
}

/// The filter a sampler takes when none is given.
pub fn default_filter_linear() -> (res: String)
    ensures
        res@ == "linear"@,
{
    "linear".to_owned()
}

/// The addressing mode a sampler takes when none is given.
pub fn default_address_clamp() -> (res: String)
    ensures
        res@ == "clamp-to-edge"@,
{
    "clamp-to-edge".to_owned()
}

/// The blend operation a blend takes when none is given.
pub fn default_blend_op() -> (res: String)
    ensures
        res@ == "add"@,
{
    "add".to_owned()
}

} // verus!
