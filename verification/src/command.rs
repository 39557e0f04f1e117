//! The closed set of graphics calls that the context model can decide on.
//!
//! Each [`Command`] names one call into the underlying graphics API together
//! with its arguments as plain values. The verified library appends commands
//! to the context's log; an embedder replays the log against a live driver.
//! Floating-point arguments are carried as IEEE-754 bit patterns (`u32`), so
//! the verified core never touches a float.

use vstd::prelude::*;

verus! {

/// The two buffer binding targets: vertex data and index data.
#[derive(Clone, Copy, Debug, PartialEq, Eq, Structural)]
pub enum BufferKind {
    Array,
    ElementArray,
}

/// Allocation hint for a buffer upload.
#[derive(Clone, Copy, Debug, PartialEq, Eq, Structural)]
pub enum DataUsage {
    /// The contents are uploaded once and drawn many times.
    StaticDraw,
    /// The contents are re-uploaded frequently.
    DynamicDraw,
}

/// A server-side capability that can be switched on or off.
#[derive(Clone, Copy, Debug, PartialEq, Eq, Structural)]
pub enum Capability {
    Blend,
    Stencil,
}

/// A blending factor.
#[derive(Clone, Copy, Debug, PartialEq, Eq, Structural)]
pub enum BlendFactor {
    SrcAlpha,
    OneMinusSrcAlpha,
}

/// A stencil comparison function.
#[derive(Clone, Copy, Debug, PartialEq, Eq, Structural)]
pub enum Comparison {
    Always,
    Equal,
    NotEqual,
}

/// A stencil side effect selected per test outcome.
#[derive(Clone, Copy, Debug, PartialEq, Eq, Structural)]
pub enum StencilAction {
    Keep,
    Replace,
}

/// The two shader stages the library compiles.
#[derive(Clone, Copy, Debug, PartialEq, Eq, Structural)]
pub enum ShaderKind {
    Vertex,
    Fragment,
}

/// The element type of one vertex attribute.
#[derive(Clone, Copy, Debug, PartialEq, Eq, Structural)]
pub enum AttribDataType {
    Float,
    Int,
}

/// A texture sampling or wrapping parameter.
#[derive(Clone, Copy, Debug, PartialEq, Eq, Structural)]
pub enum TexParameter {
    WrapS,
    WrapT,
    MinFilter,
    MagFilter,
}

/// A value for a texture sampling or wrapping parameter.
#[derive(Clone, Copy, Debug, PartialEq, Eq, Structural)]
pub enum TexValue {
    ClampToEdge,
    Nearest,
    Linear,
}

/// One call into the underlying graphics API, with its arguments.
///
/// Handles (`u32`) are the names issued by the context model; the embedder
/// keeps the mapping from each model handle to the driver's own object.
/// `u32` arguments of the `Uniform*F` and `ClearColor` commands are IEEE-754
/// bit patterns of the intended `f32` values.
#[derive(Clone, Debug, PartialEq)]
pub enum Command {
    CreateBuffer(u32),
    DeleteBuffer(u32),
    BindBuffer(BufferKind, Option<u32>),
    /// Upload a byte image to the buffer bound at the given target.
    BufferData(BufferKind, Vec<u8>, DataUsage),
    /// Map the buffer bound at the target for writing, with explicit flush;
    /// offset and length are in bytes.
    MapBufferRange(BufferKind, u32, u32),
    /// Flush a byte range of the current mapping; offset and length in bytes.
    FlushMappedBufferRange(BufferKind, u32, u32),
    UnmapBuffer(BufferKind),
    CreateVertexArray(u32),
    DeleteVertexArray(u32),
    BindVertexArray(Option<u32>),
    EnableVertexAttribArray(u32),
    /// Describe the attribute at `location` as `components` values of
    /// `data_type` read every `stride` bytes starting at `offset`.
    VertexAttribPointer {
        location: u32,
        components: u32,
        data_type: AttribDataType,
        normalized: bool,
        stride: u32,
        offset: u32,
    },
    /// Advance the attribute at `location` once per `divisor` instances.
    VertexAttribDivisor { location: u32, divisor: u32 },
    Enable(Capability),
    Disable(Capability),
    BlendFunc(BlendFactor, BlendFactor),
    ColorMask(bool, bool, bool, bool),
    StencilMask(u32),
    StencilFunc(Comparison, i32, u32),
    StencilOp(StencilAction, StencilAction, StencilAction),
    CreateShader(ShaderKind, u32),
    ShaderSource(u32, String),
    CompileShader(u32),
    DeleteShader(u32),
    CreateProgram(u32),
    AttachShader(u32, u32),
    LinkProgram(u32),
    DetachShader(u32, u32),
    DeleteProgram(u32),
    UseProgram(Option<u32>),
    /// Draw `count` indices of the bound element buffer as a triangle list
    /// of 16-bit indices starting at byte offset zero.
    DrawElements { count: usize },
    /// As `DrawElements`, repeated for `instances` instances.
    DrawElementsInstanced { count: usize, instances: usize },
    Clear { color: bool, stencil: bool },
    ClearColor(u32, u32, u32, u32),
    ClearStencil(i32),
    Viewport { x: i32, y: i32, w: i32, h: i32 },
    CreateTexture(u32),
    DeleteTexture(u32),
    /// Select the texture unit with the given index.
    ActiveTexture(u32),
    BindTexture(Option<u32>),
    /// Upload a two-dimensional image; `internal_rgba` selects the RGBA
    /// internal format over RGB; the bytes, when present, are tightly packed
    /// RGBA data.
    TexImage2D { width: u32, height: u32, internal_rgba: bool, data: Option<Vec<u8>> },
    TexParameterValue(TexParameter, TexValue),
    PixelStoreUnpackAlignment(i32),
    Uniform1F(u32, u32),
    Uniform2F(u32, u32, u32),
    Uniform3F(u32, u32, u32, u32),
    Uniform4F(u32, u32, u32, u32, u32),
    /// Upload a 4-by-4 matrix of 16 bit-pattern values, column order as given.
    UniformMatrix4F(u32, Vec<u32>),
    Uniform1I(u32, i32),
}

} // verus!
