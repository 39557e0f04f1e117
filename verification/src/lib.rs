//! A safety layer over a stateful, handle-based graphics API.
//!
//! Every GPU object (buffer, vertex array, shader, program, texture) is an
//! owned value holding a handle into a shared context, released exactly once
//! when the owner gives it up. A vertex layout generator derives, from a
//! record type's declared field list, the exact attribute-binding calls that
//! describe the record to a shader program. A per-draw render-state applier
//! turns a declarative parameter set into the precise call sequence for one
//! draw and restores the baseline state afterwards.
//!
//! The library itself never issues a raw graphics call: the context model
//! [`GL`] records every call it decides on as a [`Command`] in an append-only
//! log, and an embedder replays that log against a live driver. All the
//! protocol logic — handle issue, bind/unbind discipline, stride/offset
//! arithmetic, attribute-location resolution, the draw state machine — is
//! verified here against the logged command sequences.

pub mod buffer;
pub mod command;
pub mod context;
pub mod data;
pub mod shader;

pub use command::BufferKind;
pub use command::Command;
pub use context::ContextTypes;
pub use context::GL;
pub use context::GLState;

use vstd::prelude::*;

use crate::buffer::IndexBuffer;
use crate::buffer::VertexArray;
use crate::command::BlendFactor;
use crate::command::BufferKind as CmdBufferKind;
use crate::command::Capability;
use crate::command::Comparison;
use crate::command::StencilAction;
use crate::shader::Program;

verus! {

/// A fatal, programmer-level fault: a mismatch between host code and the
/// shader or layout contract. These are not retried; a caller that hits one
/// has paired the wrong record, program, or parameters.
#[derive(Clone, Debug, PartialEq)]
pub enum Fault {
    /// The named uniform is not an active uniform of the program.
    UniformNotFound(String),
    /// The named field is not an active attribute of the program being bound.
    AttributeNotFound(String),
    /// A draw call was issued without an index buffer.
    MissingIndexBuffer,
    /// A record's byte size exceeds what a binding call can carry.
    RecordTooLarge,
}

/// The stencil side effect applied when the test passes.
#[derive(Clone, Copy, Debug, PartialEq, Eq, Structural)]
pub enum Operation {
    Replace,
}

/// Which stencil comparison a draw applies.
#[derive(Clone, Copy, Debug, PartialEq, Eq, Structural)]
pub enum StencilTest {
    AlwaysPass,
    Equal,
    NotEqual,
}

impl Default for StencilTest {
    /// The default comparison always passes.
    fn default() -> (r: Self)
        ensures
            r == StencilTest::AlwaysPass,
    {
        StencilTest::AlwaysPass
    }
}

/// One draw's stencil request: the comparison with its reference value and
/// mask, and the side effect applied on a pass. Failing the stencil test or
/// the depth test always keeps the stored value.
#[derive(Clone, Copy, Debug, PartialEq, Eq, Structural)]
pub struct Stencil {
    pub mask: u32,
    pub ref_value: i32,
    pub test: StencilTest,
    pub pass_operation: Option<Operation>,
}

impl Default for Stencil {
    /// Zero mask and reference, always-pass comparison, no side effect.
    fn default() -> (r: Self)
        ensures
            r == (Stencil {
                mask: 0,
                ref_value: 0,
                test: StencilTest::AlwaysPass,
                pass_operation: None,
            }),
    {
        Stencil { mask: 0, ref_value: 0, test: StencilTest::AlwaysPass, pass_operation: None }
    }
}

/// Whether a draw runs once or once per instance.
#[derive(Clone, Copy, Debug, PartialEq, Eq, Structural)]
pub enum DrawType {
    Standart,
    Instancing(usize),
}

impl Default for DrawType {
    /// The default draw is not instanced.
    fn default() -> (r: Self)
        ensures
            r == DrawType::Standart,
    {
        DrawType::Standart
    }
}

/// The request to blend with source-alpha over one-minus-source-alpha.
#[derive(Clone, Copy, Debug, PartialEq, Eq, Structural)]
pub struct Blend;

impl Default for Blend {
    fn default() -> (r: Self)
        ensures
            r == Blend,
    {
        Blend
    }
}

/// The declarative parameter set one draw call applies: an optional stencil
/// request, the draw kind, the color write mask, and an optional blend
/// request.
#[derive(Clone, Copy, Debug, PartialEq, Eq)]
pub struct DrawParams {
    pub stencil: Option<Stencil>,
    pub draw_type: DrawType,
    pub color_mask: (bool, bool, bool, bool),
    pub blend: Option<Blend>,
}

/// The default parameter set: no stencil, a standard draw, every color
/// channel writable, blending enabled.
pub open spec fn default_draw_params() -> DrawParams {
    DrawParams {
        stencil: None,
        draw_type: DrawType::Standart,
        color_mask: (true, true, true, true),
        blend: Some(Blend),
    }
}

impl Default for DrawParams {
    /// No stencil, a standard draw, every channel writable, blending on.
    fn default() -> (r: Self)
        ensures
            r == default_draw_params(),
    {
        DrawParams {
            stencil: None,
            draw_type: DrawType::Standart,
            color_mask: (true, true, true, true),
            blend: Some(Blend),
        }
    }
}

/// The blending calls of one draw: enable and set the standard function
/// when requested, disable blending when not.
pub open spec fn blend_cmds(b: Option<Blend>) -> Seq<Command> {
    if b is Some {
        seq![
            Command::Enable(Capability::Blend),
            Command::BlendFunc(BlendFactor::SrcAlpha, BlendFactor::OneMinusSrcAlpha),
        ]
    } else {
        seq![Command::Disable(Capability::Blend)]
    }
}

/// The comparison a stencil test selects.
pub open spec fn stencil_comparison(t: StencilTest) -> Comparison {
    match t {
        StencilTest::AlwaysPass => Comparison::Always,
        StencilTest::Equal => Comparison::Equal,
        StencilTest::NotEqual => Comparison::NotEqual,
    }
}

/// The side effect applied when the stencil test passes.
pub open spec fn stencil_pass_action(op: Option<Operation>) -> StencilAction {
    match op {
        Some(Operation::Replace) => StencilAction::Replace,
        None => StencilAction::Keep,
    }
}

/// The stencil calls of one draw. A request enables stencil writes and
/// selects its comparison and pass operation; no request disables stencil
/// writes and forces always-pass with reference zero and all operations
/// keep.
pub open spec fn stencil_cmds(s: Option<Stencil>) -> Seq<Command> {
    match s {
        Some(st) => seq![
            Command::StencilMask(0xFF),
            Command::StencilFunc(stencil_comparison(st.test), st.ref_value, st.mask),
            Command::StencilOp(
                StencilAction::Keep,
                StencilAction::Keep,
                stencil_pass_action(st.pass_operation),
            ),
        ],
        None => seq![
            Command::StencilMask(0x00),
            Command::StencilFunc(Comparison::Always, 0, 0xFF),
            Command::StencilOp(StencilAction::Keep, StencilAction::Keep, StencilAction::Keep),
        ],
    }
}

/// The dispatch call of one draw: indexed, or indexed-instanced with the
/// requested instance count.
pub open spec fn draw_call_cmds(t: DrawType, count: usize) -> Seq<Command> {
    match t {
        DrawType::Standart => seq![Command::DrawElements { count }],
        DrawType::Instancing(instances) => seq![Command::DrawElementsInstanced { count, instances }],
    }
}

/// The full call sequence of one draw: bind the vertex array, apply blend,
/// color mask and stencil state, activate the program, bind the index
/// buffer, dispatch, force the stencil mask back open, and unbind the
/// vertex array.
pub open spec fn draw_cmds(vao: u32, ib: u32, count: usize, prog: u32, p: DrawParams) -> Seq<
    Command,
> {
    seq![Command::BindVertexArray(Some(vao))] + blend_cmds(p.blend) + seq![
        Command::ColorMask(p.color_mask.0, p.color_mask.1, p.color_mask.2, p.color_mask.3),
    ] + stencil_cmds(p.stencil) + seq![
        Command::UseProgram(Some(prog)),
        Command::BindBuffer(CmdBufferKind::ElementArray, Some(ib)),
    ] + draw_call_cmds(p.draw_type, count) + seq![
        Command::StencilMask(0xFF),
        Command::BindVertexArray(None),
    ]
}

/// Draw parameters and their defaults name the same value, so a draw with
/// the default set emits exactly the calls of the explicitly constructed
/// set: no stencil, a standard draw, all channels writable, blending on.
pub proof fn lemma_default_draw_params_explicit(vao: u32, ib: u32, count: usize, prog: u32)
    ensures
        default_draw_params() == (DrawParams {
            stencil: None,
            draw_type: DrawType::Standart,
            color_mask: (true, true, true, true),
            blend: Some(Blend),
        }),
        draw_cmds(vao, ib, count, prog, default_draw_params()) == draw_cmds(
            vao,
            ib,
            count,
            prog,
            DrawParams {
                stencil: None,
                draw_type: DrawType::Standart,
                color_mask: (true, true, true, true),
                blend: Some(Blend),
            },
        ),
{
}

/// Whatever the parameter set, every draw sequence ends by restoring the
/// baseline: the stencil mask forced back open, then the vertex array
/// unbound.
pub proof fn lemma_draw_restores_baseline(vao: u32, ib: u32, count: usize, prog: u32, p: DrawParams)
    ensures
        draw_cmds(vao, ib, count, prog, p).last() == Command::BindVertexArray(None),
        draw_cmds(vao, ib, count, prog, p)[draw_cmds(vao, ib, count, prog, p).len() - 2]
            == Command::StencilMask(0xFF),
{
}

/// The per-draw render-state applier. It holds no state of its own: each
/// draw applies the requested state, dispatches, and restores the baseline
/// before returning.
pub struct Frame {}

impl Frame {
    /// Enable stencil testing for the frame's lifetime.
    pub fn new(gl: &mut GL) -> (r: Frame)
        ensures
            final(gl)@ == old(gl)@.push(Command::Enable(Capability::Stencil)),
    {
        gl.emit(Command::Enable(Capability::Stencil));
        Frame {}
    }

    /// Apply `draw_params`, dispatch one indexed triangle-list draw of the
    /// index buffer's elements through `program`, and restore the baseline:
    /// stencil mask forced open, vertex array unbound. A draw without an
    /// index buffer is unsupported and faults, emitting nothing.
    pub fn draw(
        &self,
        gl: &mut GL,
        vao: &VertexArray,
        index_buffer: Option<&IndexBuffer>,
        program: &Program,
        draw_params: &DrawParams,
    ) -> (r: Result<(), Fault>)
        requires
            index_buffer matches Some(b) ==> b.size <= 0x7FFF_FFFF,
            draw_params.draw_type matches DrawType::Instancing(k) ==> k <= 0x7FFF_FFFF,
        ensures
            index_buffer matches Some(b) ==> r is Ok && final(gl)@ == (GLState {
                log: old(gl)@.log + draw_cmds(
                    vao.handle(),
                    b.handle(),
                    b.size,
                    program.spec_id(),
                    *draw_params,
                ),
                vertex_array: None,
                element_array_buffer: Some(b.handle()),
                program: Some(program.spec_id()),
                ..old(gl)@
            }),
            index_buffer is None ==> (r matches Err(f) && f == Fault::MissingIndexBuffer)
                && final(gl)@ == old(gl)@,
    {
        let ib = match index_buffer {
            Some(ib) => ib,
            None => {
                return Err(Fault::MissingIndexBuffer);
            },
        };
        let ghost pre = gl@;
        vao.bind(gl);
        match &draw_params.blend {
            Some(_) => {
                gl.emit(Command::Enable(Capability::Blend));
                gl.emit(Command::BlendFunc(BlendFactor::SrcAlpha, BlendFactor::OneMinusSrcAlpha));
            },
            None => {
                gl.emit(Command::Disable(Capability::Blend));
            },
        }
        gl.emit(
            Command::ColorMask(
                draw_params.color_mask.0,
                draw_params.color_mask.1,
                draw_params.color_mask.2,
                draw_params.color_mask.3,
            ),
        );
        match &draw_params.stencil {
            Some(stencil) => {
                gl.emit(Command::StencilMask(0xFF));
                let comparison = match stencil.test {
                    StencilTest::AlwaysPass => Comparison::Always,
                    StencilTest::Equal => Comparison::Equal,
                    StencilTest::NotEqual => Comparison::NotEqual,
                };
                gl.emit(Command::StencilFunc(comparison, stencil.ref_value, stencil.mask));
                let pass_operation = match stencil.pass_operation {
                    Some(Operation::Replace) => StencilAction::Replace,
                    None => StencilAction::Keep,
                };
                gl.emit(
                    Command::StencilOp(StencilAction::Keep, StencilAction::Keep, pass_operation),
                );
            },
            None => {
                gl.emit(Command::StencilMask(0x00));
                gl.emit(Command::StencilFunc(Comparison::Always, 0, 0xFF));
                gl.emit(
                    Command::StencilOp(
                        StencilAction::Keep,
                        StencilAction::Keep,
                        StencilAction::Keep,
                    ),
                );
            },
        }
        program.set_used(gl);
        ib.bind(gl);
        match draw_params.draw_type {
            DrawType::Standart => {
                gl.emit(Command::DrawElements { count: ib.size });
            },
            DrawType::Instancing(instances) => {
                gl.emit(Command::DrawElementsInstanced { count: ib.size, instances });
            },
        }
        gl.emit(Command::StencilMask(0xFF));
        vao.unbind(gl);
        proof {
            assert(final(gl)@.log =~= pre.log + draw_cmds(
                vao.handle(),
                ib.handle(),
                ib.size,
                program.spec_id(),
                *draw_params,
            ));
            assert(final(gl)@ =~= (GLState {
                log: pre.log + draw_cmds(
                    vao.handle(),
                    ib.handle(),
                    ib.size,
                    program.spec_id(),
                    *draw_params,
                ),
                vertex_array: None,
                element_array_buffer: Some(ib.handle()),
                program: Some(program.spec_id()),
                ..pre
            }));
        }
        Ok(())
    }

    /// Set the value a stencil-buffer clear writes.
    pub fn set_clear_stencil(&self, gl: &mut GL, stencil: i32)
        ensures
            final(gl)@ == old(gl)@.push(Command::ClearStencil(stencil)),
    {
        gl.emit(Command::ClearStencil(stencil));
    }

    /// Set the color a color-buffer clear writes; each component is the
    /// IEEE-754 bit pattern of the intended value.
    pub fn set_clear_color(&self, gl: &mut GL, red: u32, green: u32, blue: u32, alpha: u32)
        ensures
            final(gl)@ == old(gl)@.push(Command::ClearColor(red, green, blue, alpha)),
    {
        gl.emit(Command::ClearColor(red, green, blue, alpha));
    }

    /// Clear the color buffer.
    pub fn clear_color(&self, gl: &mut GL)
        ensures
            final(gl)@ == old(gl)@.push(Command::Clear { color: true, stencil: false }),
    {
        gl.emit(Command::Clear { color: true, stencil: false });
    }

    /// Clear the stencil buffer.
    pub fn clear_stencil(&self, gl: &mut GL)
        ensures
            final(gl)@ == old(gl)@.push(Command::Clear { color: false, stencil: true }),
    {
        gl.emit(Command::Clear { color: false, stencil: true });
    }

    /// Clear the color and stencil buffers together.
    pub fn clear_color_and_stencil(&self, gl: &mut GL)
        ensures
            final(gl)@ == old(gl)@.push(Command::Clear { color: true, stencil: true }),
    {
        gl.emit(Command::Clear { color: true, stencil: true });
    }
}

/// The drawable region of the window: a fixed origin with the current size.
#[derive(Clone, Copy, Debug, PartialEq, Eq, Structural)]
pub struct Viewport {
    pub x: i32,
    pub y: i32,
    pub w: i32,
    pub h: i32,
}

impl Viewport {
    /// A viewport covering a window of the given size, with origin zero.
    pub fn for_window(w: i32, h: i32) -> (r: Viewport)
        ensures
            r == (Viewport { x: 0, y: 0, w, h }),
    {
        Viewport { x: 0, y: 0, w, h }
    }

    /// Record a new size, keeping the origin.
    pub fn update_size(&mut self, w: i32, h: i32)
        ensures
            *final(self) == (Viewport { w, h, ..*old(self) }),
    {
        self.w = w;
        self.h = h;
    }

    /// Apply this viewport to the context.
    pub fn set_used(&self, gl: &mut GL)
        ensures
            final(gl)@ == old(gl)@.push(
                Command::Viewport { x: self.x, y: self.y, w: self.w, h: self.h },
            ),
    {
        gl.emit(Command::Viewport { x: self.x, y: self.y, w: self.w, h: self.h });
    }

    /// The stored size, width then height.
    pub fn dimensions(&self) -> (r: (i32, i32))
        ensures
            r == (self.w, self.h),
    {
        (self.w, self.h)
    }
}

} // verus!
