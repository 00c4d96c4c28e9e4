//! Backend-agnostic GPU resource descriptions: texture, buffer, shader and
//! pipeline descriptors with their handles, formats and fixed-function
//! state.

use vstd::prelude::*;

verus! {

/// A texture's pixel format.
#[derive(Clone, Copy, Debug, PartialEq, Eq, Hash, Structural)]
pub enum TextureFormat {
    /// 8-bit RGBA.
    Rgba8,
    /// 8-bit RGBA in sRGB space.
    Rgba8Srgb,
    /// 16-bit floating RGBA.
    Rgba16f,
    /// 32-bit floating RGBA.
    Rgba32f,
    /// 8-bit BGRA.
    Bgra8,
    /// 24-bit depth.
    Depth24,
    /// 32-bit floating depth.
    Depth32f,
    /// 24-bit depth with 8-bit stencil.
    Depth24Stencil8,
    /// Block-compressed, 8 bytes per 4-by-4 block.
    Bc1,
    /// Block-compressed, 16 bytes per 4-by-4 block.
    Bc3,
    /// Block-compressed, 16 bytes per 4-by-4 block.
    Bc7,
}

/// Bytes per pixel, or per 4-by-4 block for the compressed formats.
pub open spec fn spec_bytes_per_pixel(f: TextureFormat) -> u32 {
    match f {
        TextureFormat::Rgba8 => 4,
        TextureFormat::Rgba8Srgb => 4,
        TextureFormat::Bgra8 => 4,
        TextureFormat::Rgba16f => 8,
        TextureFormat::Rgba32f => 16,
        TextureFormat::Depth24 => 4,
        TextureFormat::Depth32f => 4,
        TextureFormat::Depth24Stencil8 => 4,
        TextureFormat::Bc1 => 8,
        TextureFormat::Bc3 => 16,
        TextureFormat::Bc7 => 16,
    }
}

impl TextureFormat {
    /// Bytes per pixel, or per block for the compressed formats.
    pub fn bytes_per_pixel(&self) -> (r: u32)
        ensures
            r == spec_bytes_per_pixel(*self),
    {
        match self {
            TextureFormat::Rgba8 | TextureFormat::Rgba8Srgb | TextureFormat::Bgra8 => 4,
            TextureFormat::Rgba16f => 8,
            TextureFormat::Rgba32f => 16,
            TextureFormat::Depth24 | TextureFormat::Depth32f => 4,
            TextureFormat::Depth24Stencil8 => 4,
            TextureFormat::Bc1 => 8,
            TextureFormat::Bc3 | TextureFormat::Bc7 => 16,
        }
    }

    /// Whether this is a depth or depth-stencil format.
    pub fn is_depth(&self) -> (r: bool)
        ensures
            r == (self is Depth24 || self is Depth32f || self is Depth24Stencil8),
    {
        matches!(
            self,
            TextureFormat::Depth24 | TextureFormat::Depth32f | TextureFormat::Depth24Stencil8
        )
    }

    /// Whether this is a block-compressed format.
    pub fn is_compressed(&self) -> (r: bool)
        ensures
            r == (self is Bc1 || self is Bc3 || self is Bc7),
    {
        matches!(self, TextureFormat::Bc1 | TextureFormat::Bc3 | TextureFormat::Bc7)
    }
}

/// Texture usage flags; flags combine with [`TextureUsage::union`].
#[derive(Clone, Copy, Debug, PartialEq, Eq, Structural)]
pub struct TextureUsage(pub u32);

impl TextureUsage {
    /// No usage.
    pub fn none() -> (r: TextureUsage)
        ensures
            r.0 == 0u32,
    {
        TextureUsage(0)
    }

    /// Renderable as a color attachment.
    pub fn color_attachment() -> (r: TextureUsage)
        ensures
            r.0 == 1u32,
    {
        TextureUsage(1)
    }

    /// Renderable as a depth attachment.
    pub fn depth_attachment() -> (r: TextureUsage)
        ensures
            r.0 == 2u32,
    {
        TextureUsage(2)
    }

    /// Readable from shaders.
    pub fn sampled() -> (r: TextureUsage)
        ensures
            r.0 == 4u32,
    {
        TextureUsage(4)
    }

    /// Writable from shaders as storage.
    pub fn storage() -> (r: TextureUsage)
        ensures
            r.0 == 8u32,
    {
        TextureUsage(8)
    }

    /// Usable as a transfer source.
    pub fn transfer_src() -> (r: TextureUsage)
        ensures
            r.0 == 16u32,
    {
        TextureUsage(16)
    }

    /// Usable as a transfer destination.
    pub fn transfer_dst() -> (r: TextureUsage)
        ensures
            r.0 == 32u32,
    {
        TextureUsage(32)
    }

    /// Whether every flag in `other` is set in `self`.
    pub fn contains(&self, other: TextureUsage) -> (r: bool)
        ensures
            r == ((self.0 & other.0) == other.0),
    {
        (self.0 & other.0) == other.0
    }

    /// The union of both flag sets.
    pub fn union(&self, other: TextureUsage) -> (r: TextureUsage)
        ensures
            r.0 == (self.0 | other.0),
    {
        TextureUsage(self.0 | other.0)
    }
}

/// A texture's dimensionality.
#[derive(Clone, Copy, Debug, PartialEq, Eq, Structural)]
pub enum TextureDimension {
    /// One-dimensional.
    D1,
    /// Two-dimensional.
    D2,
    /// Three-dimensional.
    D3,
    /// A cube of six square faces.
    Cube,
}

/// Everything needed to create a texture.
#[derive(Clone, Copy, Debug)]
pub struct TextureDesc {
    /// Width in pixels.
    pub width: u32,
    /// Height in pixels.
    pub height: u32,
    /// Depth in pixels for three-dimensional textures.
    pub depth: u32,
    /// Number of mip levels.
    pub mip_levels: u32,
    /// Number of array layers.
    pub array_layers: u32,
    /// Dimensionality.
    pub dimension: TextureDimension,
    /// Pixel format.
    pub format: TextureFormat,
    /// Usage flags.
    pub usage: TextureUsage,
    /// Samples per pixel; 1 means no multisampling.
    pub samples: u32,
}

impl TextureDesc {
    /// A plain two-dimensional texture: one mip level, one layer, one
    /// sample.
    pub fn new_2d(width: u32, height: u32, format: TextureFormat, usage: TextureUsage) -> (r:
        TextureDesc)
        ensures
            r.width == width,
            r.height == height,
            r.depth == 1u32,
            r.mip_levels == 1u32,
            r.array_layers == 1u32,
            r.dimension is D2,
            r.format == format,
            r.usage == usage,
            r.samples == 1u32,
    {
        TextureDesc {
            width,
            height,
            depth: 1,
            mip_levels: 1,
            array_layers: 1,
            dimension: TextureDimension::D2,
            format,
            usage,
            samples: 1,
        }
    }

    /// The same description with the given mip level count.
    pub fn with_mips(self, mip_levels: u32) -> (r: TextureDesc)
        ensures
            r == (TextureDesc { mip_levels, ..self }),
    {
        TextureDesc { mip_levels, ..self }
    }

    /// The same description with the given sample count.
    pub fn with_msaa(self, samples: u32) -> (r: TextureDesc)
        ensures
            r == (TextureDesc { samples, ..self }),
    {
        TextureDesc { samples, ..self }
    }
}

/// Opaque handle to a GPU texture.
#[derive(Clone, Copy, Debug, PartialEq, Eq, Hash, Structural)]
pub struct TextureHandle(pub u32);

impl TextureHandle {
    /// The handle standing for no texture.
    pub fn invalid() -> (r: TextureHandle)
        ensures
            r.0 == u32::MAX,
    {
        TextureHandle(u32::MAX)
    }
}

/// What a buffer is used for.
#[derive(Clone, Copy, Debug, PartialEq, Eq, Structural)]
pub enum BufferUsage {
    /// Vertex data.
    Vertex,
    /// Index data.
    Index,
    /// Uniform (constant) data.
    Uniform,
    /// Shader-writable storage.
    Storage,
    /// Indirect draw arguments.
    Indirect,
    /// A transfer source.
    TransferSrc,
    /// A transfer destination.
    TransferDst,
}

/// Everything needed to create a buffer.
#[derive(Clone, Copy, Debug)]
pub struct BufferDesc {
    /// Size in bytes.
    pub size: usize,
    /// What the buffer is used for.
    pub usage: BufferUsage,
    /// Whether the CPU may map it.
    pub cpu_visible: bool,
}

impl BufferDesc {
    /// A vertex buffer of `size` bytes, not CPU-visible.
    pub fn vertex(size: usize) -> (r: BufferDesc)
        ensures
            r.size == size,
            r.usage is Vertex,
            r.cpu_visible == false,
    {
        BufferDesc { size, usage: BufferUsage::Vertex, cpu_visible: false }
    }

    /// An index buffer of `size` bytes, not CPU-visible.
    pub fn index(size: usize) -> (r: BufferDesc)
        ensures
            r.size == size,
            r.usage is Index,
            r.cpu_visible == false,
    {
        BufferDesc { size, usage: BufferUsage::Index, cpu_visible: false }
    }

    /// A uniform buffer of `size` bytes, CPU-visible for frequent updates.
    pub fn uniform(size: usize) -> (r: BufferDesc)
        ensures
            r.size == size,
            r.usage is Uniform,
            r.cpu_visible == true,
    {
        BufferDesc { size, usage: BufferUsage::Uniform, cpu_visible: true }
    }

    /// A storage buffer of `size` bytes, not CPU-visible.
    pub fn storage(size: usize) -> (r: BufferDesc)
        ensures
            r.size == size,
            r.usage is Storage,
            r.cpu_visible == false,
    {
        BufferDesc { size, usage: BufferUsage::Storage, cpu_visible: false }
    }
}

/// Opaque handle to a GPU buffer.
#[derive(Clone, Copy, Debug, PartialEq, Eq, Hash, Structural)]
pub struct BufferHandle(pub u32);

impl BufferHandle {
    /// The handle standing for no buffer.
    pub fn invalid() -> (r: BufferHandle)
        ensures
            r.0 == u32::MAX,
    {
        BufferHandle(u32::MAX)
    }
}

/// The pipeline stage a shader runs in.
#[derive(Clone, Copy, Debug, PartialEq, Eq, Structural)]
pub enum ShaderStage {
    /// Per-vertex stage.
    Vertex,
    /// Per-fragment stage.
    Fragment,
    /// Compute stage.
    Compute,
    /// Geometry stage.
    Geometry,
    /// Tessellation control stage.
    TessControl,
    /// Tessellation evaluation stage.
    TessEvaluation,
}

/// Everything needed to create a shader module.
#[derive(Clone, Debug)]
pub struct ShaderDesc {
    /// The stage the shader runs in.
    pub stage: ShaderStage,
    /// The entry point's name.
    pub entry_point: String,
    /// The shader bytecode.
    pub code: Vec<u8>,
}

/// Opaque handle to a shader module.
#[derive(Clone, Copy, Debug, PartialEq, Eq, Hash, Structural)]
pub struct ShaderHandle(pub u32);

impl ShaderHandle {
    /// The handle standing for no shader.
    pub fn invalid() -> (r: ShaderHandle)
        ensures
            r.0 == u32::MAX,
    {
        ShaderHandle(u32::MAX)
    }
}

/// The format of one vertex attribute.
#[derive(Clone, Copy, Debug, PartialEq, Eq, Structural)]
pub enum VertexFormat {
    /// One 32-bit float.
    Float,
    /// Two 32-bit floats.
    Float2,
    /// Three 32-bit floats.
    Float3,
    /// Four 32-bit floats.
    Float4,
    /// One 32-bit unsigned integer.
    UInt,
    /// Two 32-bit unsigned integers.
    UInt2,
    /// Three 32-bit unsigned integers.
    UInt3,
    /// Four 32-bit unsigned integers.
    UInt4,
}

/// The byte size of one attribute of the given format.
pub open spec fn spec_vertex_format_size(f: VertexFormat) -> u32 {
    match f {
        VertexFormat::Float => 4,
        VertexFormat::UInt => 4,
        VertexFormat::Float2 => 8,
        VertexFormat::UInt2 => 8,
        VertexFormat::Float3 => 12,
        VertexFormat::UInt3 => 12,
        VertexFormat::Float4 => 16,
        VertexFormat::UInt4 => 16,
    }
}

impl VertexFormat {
    /// The attribute's size in bytes.
    pub fn size(&self) -> (r: u32)
        ensures
            r == spec_vertex_format_size(*self),
    {
        match self {
            VertexFormat::Float | VertexFormat::UInt => 4,
            VertexFormat::Float2 | VertexFormat::UInt2 => 8,
            VertexFormat::Float3 | VertexFormat::UInt3 => 12,
            VertexFormat::Float4 | VertexFormat::UInt4 => 16,
        }
    }
}

/// One vertex attribute: format, byte offset and shader location.
#[derive(Clone, Copy, Debug)]
pub struct VertexAttribute {
    /// The attribute's format.
    pub format: VertexFormat,
    /// Byte offset within the vertex.
    pub offset: u32,
    /// The shader input location it binds to.
    pub location: u32,
}

/// The layout of one vertex buffer.
#[derive(Clone, Debug)]
pub struct VertexLayout {
    /// Bytes from one vertex to the next.
    pub stride: u32,
    /// The attributes within one vertex.
    pub attributes: Vec<VertexAttribute>,
}

/// How vertices assemble into primitives.
#[derive(Clone, Copy, Debug, PartialEq, Eq, Structural)]
pub enum PrimitiveTopology {
    /// Separate triangles.
    TriangleList,
    /// A strip of triangles.
    TriangleStrip,
    /// Separate lines.
    LineList,
    /// A strip of lines.
    LineStrip,
    /// Separate points.
    PointList,
}

/// The comparison used by depth and stencil tests.
#[derive(Clone, Copy, Debug, PartialEq, Eq, Structural)]
pub enum CompareFunction {
    /// Never passes.
    Never,
    /// Passes when the new value is less.
    Less,
    /// Passes on equality.
    Equal,
    /// Passes when less or equal.
    LessEqual,
    /// Passes when greater.
    Greater,
    /// Passes when unequal.
    NotEqual,
    /// Passes when greater or equal.
    GreaterEqual,
    /// Always passes.
    Always,
}

/// A blend factor.
#[derive(Clone, Copy, Debug, PartialEq, Eq, Structural)]
#[allow(missing_docs)]
pub enum BlendFactor {
    Zero,
    One,
    SrcColor,
    OneMinusSrcColor,
    DstColor,
    OneMinusDstColor,
    SrcAlpha,
    OneMinusSrcAlpha,
    DstAlpha,
    OneMinusDstAlpha,
}

/// A blend operation.
#[derive(Clone, Copy, Debug, PartialEq, Eq, Structural)]
pub enum BlendOp {
    /// Source plus destination.
    Add,
    /// Source minus destination.
    Subtract,
    /// Destination minus source.
    ReverseSubtract,
    /// The smaller of the two.
    Min,
    /// The larger of the two.
    Max,
}

/// Blending state for one color attachment.
#[derive(Clone, Copy, Debug)]
pub struct BlendState {
    /// Whether blending is on.
    pub enabled: bool,
    /// Factor applied to the source color.
    pub src_color: BlendFactor,
    /// Factor applied to the destination color.
    pub dst_color: BlendFactor,
    /// Operation combining the colors.
    pub color_op: BlendOp,
    /// Factor applied to the source alpha.
    pub src_alpha: BlendFactor,
    /// Factor applied to the destination alpha.
    pub dst_alpha: BlendFactor,
    /// Operation combining the alphas.
    pub alpha_op: BlendOp,
}

impl Default for BlendState {
    /// Blending off, replacing the destination.
    fn default() -> (r: BlendState)
        ensures
            r.enabled == false,
            r.src_color is One,
            r.dst_color is Zero,
            r.color_op is Add,
            r.src_alpha is One,
            r.dst_alpha is Zero,
            r.alpha_op is Add,
    {
        BlendState {
            enabled: false,
            src_color: BlendFactor::One,
            dst_color: BlendFactor::Zero,
            color_op: BlendOp::Add,
            src_alpha: BlendFactor::One,
            dst_alpha: BlendFactor::Zero,
            alpha_op: BlendOp::Add,
        }
    }
}

impl BlendState {
    /// Standard alpha blending: source over destination by source alpha.
    pub fn alpha_blending() -> (r: BlendState)
        ensures
            r.enabled == true,
            r.src_color is SrcAlpha,
            r.dst_color is OneMinusSrcAlpha,
            r.color_op is Add,
            r.src_alpha is One,
            r.dst_alpha is Zero,
            r.alpha_op is Add,
    {
        BlendState {
            enabled: true,
            src_color: BlendFactor::SrcAlpha,
            dst_color: BlendFactor::OneMinusSrcAlpha,
            color_op: BlendOp::Add,
            src_alpha: BlendFactor::One,
            dst_alpha: BlendFactor::Zero,
            alpha_op: BlendOp::Add,
        }
    }
}

/// Depth and stencil testing state.
#[derive(Clone, Copy, Debug)]
pub struct DepthStencilState {
    /// Whether depth testing is on.
    pub depth_test_enabled: bool,
    /// Whether passing fragments write their depth.
    pub depth_write_enabled: bool,
    /// The comparison applied by the depth test.
    pub depth_compare: CompareFunction,
}

impl Default for DepthStencilState {
    /// Depth testing and writing on, closer fragments win.
    fn default() -> (r: DepthStencilState)
        ensures
            r.depth_test_enabled == true,
            r.depth_write_enabled == true,
            r.depth_compare is Less,
    {
        DepthStencilState {
            depth_test_enabled: true,
            depth_write_enabled: true,
            depth_compare: CompareFunction::Less,
        }
    }
}

/// Which side of a triangle is discarded.
#[derive(Clone, Copy, Debug, PartialEq, Eq, Structural)]
pub enum CullMode {
    /// Nothing is discarded.
    Disabled,
    /// Front faces are discarded.
    Front,
    /// Back faces are discarded.
    Back,
}

/// Which winding counts as the front face.
#[derive(Clone, Copy, Debug, PartialEq, Eq, Structural)]
pub enum FrontFace {
    /// Clockwise winding is the front.
    Clockwise,
    /// Counter-clockwise winding is the front.
    CounterClockwise,
}

/// How polygons are filled.
#[derive(Clone, Copy, Debug, PartialEq, Eq, Structural)]
pub enum PolygonMode {
    /// Filled.
    Fill,
    /// Outlined.
    Line,
    /// Vertices only.
    Point,
}

/// Fixed-function rasterizer state.
#[derive(Clone, Copy, Debug)]
pub struct RasterizerState {
    /// Which side of a triangle is discarded.
    pub cull_mode: CullMode,
    /// Which winding counts as the front face.
    pub front_face: FrontFace,
    /// How polygons are filled.
    pub polygon_mode: PolygonMode,
}

impl Default for RasterizerState {
    /// Back-face culling of counter-clockwise-front, filled polygons.
    fn default() -> (r: RasterizerState)
        ensures
            r.cull_mode is Back,
            r.front_face is CounterClockwise,
            r.polygon_mode is Fill,
    {
        RasterizerState {
            cull_mode: CullMode::Back,
            front_face: FrontFace::CounterClockwise,
            polygon_mode: PolygonMode::Fill,
        }
    }
}

/// Everything needed to create a graphics pipeline.
#[derive(Clone, Debug)]
pub struct PipelineDesc {
    /// The vertex shader.
    pub vertex_shader: ShaderHandle,
    /// The fragment shader.
    pub fragment_shader: ShaderHandle,
    /// The vertex buffer layout.
    pub vertex_layout: VertexLayout,
    /// How vertices assemble into primitives.
    pub topology: PrimitiveTopology,
    /// Rasterizer state.
    pub rasterizer: RasterizerState,
    /// Depth and stencil state.
    pub depth_stencil: DepthStencilState,
    /// Blend state per color attachment.
    pub blend_states: Vec<BlendState>,
    /// Format of each color attachment.
    pub color_formats: Vec<TextureFormat>,
    /// Format of the depth attachment, if any.
    pub depth_format: Option<TextureFormat>,
}

/// Opaque handle to a graphics pipeline.
#[derive(Clone, Copy, Debug, PartialEq, Eq, Hash, Structural)]
pub struct PipelineHandle(pub u32);

impl PipelineHandle {
    /// The handle standing for no pipeline.
    pub fn invalid() -> (r: PipelineHandle)
        ensures
            r.0 == u32::MAX,
    {
        PipelineHandle(u32::MAX)
    }
}

/// A scissor rectangle in pixels.
#[derive(Clone, Copy, Debug, PartialEq, Eq, Structural)]
pub struct Rect {
    /// Left edge.
    pub x: i32,
    /// Top edge.
    pub y: i32,
    /// Width in pixels.
    pub width: u32,
    /// Height in pixels.
    pub height: u32,
}

/// The width of indices in an index buffer.
#[derive(Clone, Copy, Debug, PartialEq, Eq, Structural)]
pub enum IndexType {
    /// 16-bit indices.
    UInt16,
    /// 32-bit indices.
    UInt32,
}

/// A renderer's global settings.
#[derive(Clone, Copy, Debug)]
pub struct RendererConfig {
    /// Swapchain width in pixels.
    pub width: u32,
    /// Swapchain height in pixels.
    pub height: u32,
    /// Whether presentation waits for vertical sync.
    pub vsync: bool,
    /// Samples per pixel: 1, 2, 4 or 8.
    pub msaa_samples: u32,
    /// Whether rendering is high dynamic range.
    pub hdr: bool,
}

impl Default for RendererConfig {
    /// 1280 by 720, synchronized, no multisampling, no HDR.
    fn default() -> (r: RendererConfig)
        ensures
            r.width == 1280u32,
            r.height == 720u32,
            r.vsync == true,
            r.msaa_samples == 1u32,
            r.hdr == false,
    {
        RendererConfig { width: 1280, height: 720, vsync: true, msaa_samples: 1, hdr: false }
    }
}

} // verus!
