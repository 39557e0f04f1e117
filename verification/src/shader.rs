//! Shaders, linked programs, uniform upload, and textures.
//!
//! A [`Program`] owns a linked-program handle together with the program's
//! active-variable table: the attribute and uniform names the driver
//! reported for it after linking, each with its location. The embedder
//! queries the driver once and hands the table in as plain values; every
//! later name lookup — vertex-attribute resolution at bind time, uniform
//! resolution at upload time — is then decided and verified here.

use vstd::prelude::*;

use crate::buffer::VertexArray;
use crate::command::BufferKind;
use crate::command::Command;
use crate::command::ShaderKind;
use crate::command::TexParameter;
use crate::command::TexValue;
use crate::context::GL;
use crate::context::GLState;
use crate::data::all_resolve;
use crate::data::vbos_cmds;
use crate::data::VertexBuffer;
use crate::Fault;

use vstd::string::StringExecFns;

verus! {

/// One active variable of a linked program: its name and the location the
/// driver assigned to it.
#[derive(Clone, Debug)]
pub struct ProgramInput {
    pub name: String,
    pub location: u32,
}

/// The active-variable table the driver reported for a linked program.
#[derive(Clone, Debug)]
pub struct ProgramInterface {
    pub attributes: Vec<ProgramInput>,
    pub uniforms: Vec<ProgramInput>,
}

/// The location of the first table entry whose name is `name`, if any.
pub open spec fn spec_lookup(table: Seq<ProgramInput>, name: Seq<char>) -> Option<u32>
    decreases table.len(),
{
    if table.len() == 0 {
        None
    } else if table.first().name@ == name {
        Some(table.first().location)
    } else {
        spec_lookup(table.drop_first(), name)
    }
}

/// Find the location assigned to `name`, scanning the table in order.
pub fn lookup(table: &Vec<ProgramInput>, name: &str) -> (r: Option<u32>)
    ensures
        r == spec_lookup(table@, name@),
{
    let key = String::from_str(name);
    proof {
        assert(table@.skip(0) =~= table@);
    }
    let mut i: usize = 0;
    while i < table.len()
        invariant
            i <= table@.len(),
            key@ == name@,
            spec_lookup(table@, name@) == spec_lookup(table@.skip(i as int), name@),
        decreases table@.len() - i,
    {
        proof {
            assert(table@.skip(i as int).first() == table@[i as int]);
        }
        if table[i].name == key {
            return Some(table[i].location);
        }
        proof {
            assert(table@.skip(i as int).drop_first() =~= table@.skip(i as int + 1));
        }
        i = i + 1;
    }
    None
}

/// An owned compiled-shader handle.
///
/// The model accepts every compile request; a compile the driver rejects
/// surfaces its diagnostic when the embedder replays the log.
pub struct Shader {
    id: u32,
    kind: ShaderKind,
}

impl Shader {
    /// The handle issued by the context at creation.
    pub closed spec fn spec_id(&self) -> u32 {
        self.id
    }

    /// Which stage the shader was compiled for.
    pub closed spec fn spec_kind(&self) -> ShaderKind {
        self.kind
    }

    /// Create a shader of the given stage, hand it `source`, and compile
    /// it. Fails only when the context has no handle left to issue.
    pub fn from_source(gl: &mut GL, source: &str, kind: ShaderKind) -> (r: Result<Shader, String>)
        ensures
            old(gl)@.next_handle < 0xFFFF_FFFFu32 ==> {
                let h = old(gl)@.next_handle;
                let n = old(gl)@.log.len() as int;
                &&& r matches Ok(s) && s.spec_id() == h && s.spec_kind() == kind
                &&& final(gl)@.log.len() == n + 3
                &&& final(gl)@.log.take(n) == old(gl)@.log
                &&& final(gl)@.log[n] == Command::CreateShader(kind, h)
                &&& final(gl)@.log[n + 1] matches Command::ShaderSource(id, src) && id == h
                    && src@ == source@
                &&& final(gl)@.log[n + 2] == Command::CompileShader(h)
                &&& final(gl)@ == (GLState {
                    log: final(gl)@.log,
                    next_handle: (h + 1) as u32,
                    ..old(gl)@
                })
            },
            old(gl)@.next_handle == 0xFFFF_FFFFu32 ==> r is Err && final(gl)@ == old(gl)@,
    {
        let ghost pre = gl@;
        let h = match gl.fresh_handle() {
            None => {
                return Err(String::from_str("the context has no shader handle left to issue"));
            },
            Some(h) => h,
        };
        gl.emit(Command::CreateShader(kind, h));
        gl.emit(Command::ShaderSource(h, String::from_str(source)));
        gl.emit(Command::CompileShader(h));
        proof {
            assert(final(gl)@.log.take(pre.log.len() as int) =~= pre.log);
        }
        Ok(Shader { id: h, kind })
    }

    /// Compile `source` for the vertex stage; see [`Shader::from_source`].
    pub fn from_vert_source(gl: &mut GL, source: &str) -> (r: Result<Shader, String>)
        ensures
            old(gl)@.next_handle < 0xFFFF_FFFFu32 ==> (r matches Ok(s) && s.spec_id() == old(
                gl,
            )@.next_handle && s.spec_kind() == ShaderKind::Vertex),
            old(gl)@.next_handle == 0xFFFF_FFFFu32 ==> r is Err && final(gl)@ == old(gl)@,
            shader_source_logged(old(gl)@, final(gl)@, ShaderKind::Vertex, source@),
    {
        Shader::from_source(gl, source, ShaderKind::Vertex)
    }

    /// Compile `source` for the fragment stage; see [`Shader::from_source`].
    pub fn from_frag_source(gl: &mut GL, source: &str) -> (r: Result<Shader, String>)
        ensures
            old(gl)@.next_handle < 0xFFFF_FFFFu32 ==> (r matches Ok(s) && s.spec_id() == old(
                gl,
            )@.next_handle && s.spec_kind() == ShaderKind::Fragment),
            old(gl)@.next_handle == 0xFFFF_FFFFu32 ==> r is Err && final(gl)@ == old(gl)@,
            shader_source_logged(old(gl)@, final(gl)@, ShaderKind::Fragment, source@),
    {
        Shader::from_source(gl, source, ShaderKind::Fragment)
    }

    /// The handle issued by the context at creation.
    pub fn id(&self) -> (r: u32)
        ensures
            r == self.spec_id(),
    {
        self.id
    }

    /// Release the handle; the shader is consumed, so the release happens
    /// exactly once.
    pub fn delete(self, gl: &mut GL)
        ensures
            final(gl)@ == old(gl)@.push(Command::DeleteShader(self.spec_id())),
    {
        gl.emit(Command::DeleteShader(self.id));
    }
}

/// How a successful compile request extends the context: create the shader,
/// hand it the source, compile it, and touch nothing else.
pub open spec fn shader_source_logged(
    pre: GLState,
    post: GLState,
    kind: ShaderKind,
    source: Seq<char>,
) -> bool {
    pre.next_handle < 0xFFFF_FFFF ==> {
        let h = pre.next_handle;
        let n = pre.log.len() as int;
        &&& post.log.len() == n + 3
        &&& post.log.take(n) == pre.log
        &&& post.log[n] == Command::CreateShader(kind, h)
        &&& post.log[n + 1] matches Command::ShaderSource(id, src) && id == h && src@ == source
        &&& post.log[n + 2] == Command::CompileShader(h)
        &&& post == (GLState { log: post.log, next_handle: (h + 1) as u32, ..pre })
    }
}

/// An owned linked-program handle, carrying the active-variable table the
/// driver reported for it.
pub struct Program {
    id: u32,
    attributes: Vec<ProgramInput>,
    uniforms: Vec<ProgramInput>,
}

impl Program {
    /// The handle issued by the context at creation.
    pub closed spec fn spec_id(&self) -> u32 {
        self.id
    }

    /// The program's active attributes, as the driver reported them.
    pub closed spec fn spec_attributes(&self) -> Seq<ProgramInput> {
        self.attributes@
    }

    /// The program's active uniforms, as the driver reported them.
    pub closed spec fn spec_uniforms(&self) -> Seq<ProgramInput> {
        self.uniforms@
    }

    /// The program's active attributes, as the driver reported them.
    pub fn attributes(&self) -> (r: &Vec<ProgramInput>)
        ensures
            r@ == self.spec_attributes(),
    {
        &self.attributes
    }

    /// The program's active uniforms, as the driver reported them.
    pub fn uniforms(&self) -> (r: &Vec<ProgramInput>)
        ensures
            r@ == self.spec_uniforms(),
    {
        &self.uniforms
    }

    /// The handle issued by the context at creation.
    pub fn id(&self) -> (r: u32)
        ensures
            r == self.spec_id(),
    {
        self.id
    }

    /// Create a program, attach every shader, link, detach every shader, and
    /// carry `interface` as the linked program's active-variable table, the
    /// names and locations the driver reported after linking. Fails only
    /// when the context has no handle left to issue; a link the driver
    /// rejects surfaces its diagnostic when the embedder replays the log.
    pub fn from_shaders(gl: &mut GL, shaders: &Vec<Shader>, interface: ProgramInterface) -> (r:
        Result<Program, String>)
        ensures
            old(gl)@.next_handle < 0xFFFF_FFFFu32 ==> {
                let h = old(gl)@.next_handle;
                &&& r matches Ok(p) && p.spec_id() == h && p.spec_attributes()
                    == interface.attributes@ && p.spec_uniforms() == interface.uniforms@
                &&& final(gl)@ == old(gl)@.with_next_handle((h + 1) as u32).append(
                    seq![Command::CreateProgram(h)] + attach_cmds(h, shaders@) + seq![
                        Command::LinkProgram(h),
                    ] + detach_cmds(h, shaders@),
                )
            },
            old(gl)@.next_handle == 0xFFFF_FFFFu32 ==> r is Err && final(gl)@ == old(gl)@,
    {
        let ghost pre = gl@;
        let h = match gl.fresh_handle() {
            None => {
                return Err(String::from_str("the context has no program handle left to issue"));
            },
            Some(h) => h,
        };
        gl.emit(Command::CreateProgram(h));
        let ghost s0 = gl@;
        let mut i: usize = 0;
        while i < shaders.len()
            invariant
                i <= shaders@.len(),
                gl@ == s0.append(attach_cmds(h, shaders@.take(i as int))),
            decreases shaders@.len() - i,
        {
            let ghost before = gl@;
            gl.emit(Command::AttachShader(h, shaders[i].id));
            proof {
                let t = shaders@.take(i as int + 1);
                assert(t.drop_last() =~= shaders@.take(i as int));
                assert(t.last() == shaders@[i as int]);
                assert(gl@.log =~= s0.log + attach_cmds(h, t));
            }
            i = i + 1;
        }
        proof {
            assert(shaders@.take(shaders@.len() as int) =~= shaders@);
        }
        gl.emit(Command::LinkProgram(h));
        let ghost s1 = gl@;
        let mut i: usize = 0;
        while i < shaders.len()
            invariant
                i <= shaders@.len(),
                gl@ == s1.append(detach_cmds(h, shaders@.take(i as int))),
            decreases shaders@.len() - i,
        {
            gl.emit(Command::DetachShader(h, shaders[i].id));
            proof {
                let t = shaders@.take(i as int + 1);
                assert(t.drop_last() =~= shaders@.take(i as int));
                assert(t.last() == shaders@[i as int]);
                assert(gl@.log =~= s1.log + detach_cmds(h, t));
            }
            i = i + 1;
        }
        proof {
            assert(shaders@.take(shaders@.len() as int) =~= shaders@);
            assert(final(gl)@ =~= pre.with_next_handle((h + 1) as u32).append(
                seq![Command::CreateProgram(h)] + attach_cmds(h, shaders@) + seq![
                    Command::LinkProgram(h),
                ] + detach_cmds(h, shaders@),
            ));
        }
        Ok(Program { id: h, attributes: interface.attributes, uniforms: interface.uniforms })
    }

    /// Make this program the active one for draw and uniform calls.
    pub fn set_used(&self, gl: &mut GL)
        ensures
            final(gl)@ == old(gl)@.push(Command::UseProgram(Some(self.spec_id()))).with_program(
                Some(self.spec_id()),
            ),
    {
        gl.do_use_program(Some(self.id));
    }

    /// Activate the program, resolve `name` against its uniform table, and
    /// upload `value` to the resolved location. A name the program does not
    /// declare is a fault naming it; the program stays activated either way.
    pub fn set_uniform(&self, gl: &mut GL, name: &str, value: UniformValue) -> (r: Result<
        (),
        Fault,
    >)
        requires
            value matches UniformValue::Mat4(m) ==> m@.len() == 16,
        ensures
            spec_lookup(self.spec_uniforms(), name@) matches Some(loc) ==> r is Ok && final(gl)@
                == uniform_state(
                old(gl)@.push(Command::UseProgram(Some(self.spec_id()))).with_program(
                    Some(self.spec_id()),
                ).append(uniform_cmds(loc, value)),
                value,
            ),
            spec_lookup(self.spec_uniforms(), name@) is None ==> (r matches Err(f) && f matches
                Fault::UniformNotFound(n) && n@ == name@ && final(gl)@ == old(gl)@.push(
                Command::UseProgram(Some(self.spec_id())),
            ).with_program(Some(self.spec_id()))),
    {
        self.set_used(gl);
        let ghost used = gl@;
        let loc = match lookup(&self.uniforms, name) {
            None => {
                return Err(Fault::UniformNotFound(String::from_str(name)));
            },
            Some(loc) => loc,
        };
        match value {
            UniformValue::Float(x) => {
                gl.emit(Command::Uniform1F(loc, x));
            },
            UniformValue::Vec2(x, y) => {
                gl.emit(Command::Uniform2F(loc, x, y));
            },
            UniformValue::Vec3(x, y, z) => {
                gl.emit(Command::Uniform3F(loc, x, y, z));
            },
            UniformValue::Vec4(x, y, z, w) => {
                gl.emit(Command::Uniform4F(loc, x, y, z, w));
            },
            UniformValue::Mat4(m) => {
                gl.emit(Command::UniformMatrix4F(loc, m));
            },
            UniformValue::Texture(t) => {
                gl.emit(Command::ActiveTexture(0));
                gl.do_bind_texture(Some(t));
                gl.emit(Command::Uniform1I(loc, 0));
            },
        }
        proof {
            assert(final(gl)@.log =~= used.log + uniform_cmds(loc, value));
            assert(final(gl)@ =~= uniform_state(used.append(uniform_cmds(loc, value)), value));
        }
        Ok(())
    }

    /// The one point where buffer layouts meet program attribute locations:
    /// bind the vertex array, then for each vertex buffer bind it, emit its
    /// record's binding sequence against this program, and unbind it; unbind
    /// the vertex array last. When some field of some buffer's record does
    /// not name an active attribute of this program, fail naming that field,
    /// emitting nothing.
    pub fn set_layout(&self, gl: &mut GL, vao: &VertexArray, vbos: &Vec<VertexBuffer>) -> (r:
        Result<(), Fault>)
        requires
            forall|i: int| 0 <= i < vbos@.len() ==> (#[trigger] vbos@[i]).layout.wf(),
        ensures
            r is Ok <==> (forall|i: int|
                0 <= i < vbos@.len() ==> all_resolve(
                    (#[trigger] vbos@[i]).layout.fields@,
                    self.spec_attributes(),
                )),
            r is Ok ==> final(gl)@ == (GLState {
                log: old(gl)@.log + seq![Command::BindVertexArray(Some(vao.handle()))] + vbos_cmds(
                    vbos@,
                    self.spec_attributes(),
                ) + seq![Command::BindVertexArray(None)],
                vertex_array: None,
                array_buffer: if vbos@.len() > 0 {
                    None
                } else {
                    old(gl)@.array_buffer
                },
                ..old(gl)@
            }),
            r matches Err(f) ==> final(gl)@ == old(gl)@ && (f matches Fault::AttributeNotFound(
                n,
            ) && (exists|i: int, j: int|
                0 <= i < vbos@.len() && 0 <= j < (#[trigger] vbos@[i]).layout.fields@.len()
                    && !crate::data::resolves(
                    (#[trigger] vbos@[i].layout.fields@[j]),
                    self.spec_attributes(),
                ) && n@ == vbos@[i].layout.fields@[j].name@)),
    {
        // First resolve every buffer's record, so that a missing attribute
        // emits nothing.
        let mut i: usize = 0;
        while i < vbos.len()
            invariant
                i <= vbos@.len(),
                forall|j: int|
                    0 <= j < i ==> all_resolve(
                        (#[trigger] vbos@[j]).layout.fields@,
                        self.spec_attributes(),
                    ),
            decreases vbos@.len() - i,
        {
            match vbos[i].layout.first_unresolved(&self.attributes) {
                Some(k) => {
                    return Err(Fault::AttributeNotFound(vbos[i].layout.fields[k].name.clone()));
                },
                None => {},
            }
            i = i + 1;
        }
        let ghost pre = gl@;
        let ghost table = self.spec_attributes();
        vao.bind(gl);
        let ghost bound = gl@;
        proof {
            assert(bound.log + vbos_cmds(vbos@.take(0), table) =~= bound.log);
        }
        let mut i: usize = 0;
        while i < vbos.len()
            invariant
                i <= vbos@.len(),
                table == self.spec_attributes(),
                forall|j: int| 0 <= j < vbos@.len() ==> (#[trigger] vbos@[j]).layout.wf(),
                forall|j: int|
                    0 <= j < vbos@.len() ==> all_resolve(
                        (#[trigger] vbos@[j]).layout.fields@,
                        table,
                    ),
                gl@ == (GLState {
                    log: bound.log + vbos_cmds(vbos@.take(i as int), table),
                    array_buffer: if i > 0 {
                        None
                    } else {
                        bound.array_buffer
                    },
                    ..bound
                }),
            decreases vbos@.len() - i,
        {
            let ghost at_start = gl@;
            vbos[i].buffer.bind(gl);
            let r = vbos[i].layout.vertex_attrib_pointers(gl, self);
            proof {
                if r is Err {
                    assert(all_resolve(vbos@[i as int].layout.fields@, table));
                    assert(false);
                }
            }
            vbos[i].buffer.unbind(gl);
            proof {
                let t = vbos@.take(i as int + 1);
                assert(t.drop_last() =~= vbos@.take(i as int));
                assert(t.last() == vbos@[i as int]);
                assert(gl@.log =~= bound.log + vbos_cmds(t, table));
                assert(gl@ =~= (GLState {
                    log: bound.log + vbos_cmds(t, table),
                    array_buffer: None,
                    ..bound
                }));
            }
            i = i + 1;
        }
        vao.unbind(gl);
        proof {
            assert(vbos@.take(vbos@.len() as int) =~= vbos@);
            assert(final(gl)@.log =~= pre.log + seq![Command::BindVertexArray(Some(vao.handle()))]
                + vbos_cmds(vbos@, table) + seq![Command::BindVertexArray(None)]);
            assert(final(gl)@ =~= (GLState {
                log: pre.log + seq![Command::BindVertexArray(Some(vao.handle()))] + vbos_cmds(
                    vbos@,
                    table,
                ) + seq![Command::BindVertexArray(None)],
                vertex_array: None,
                array_buffer: if vbos@.len() > 0 {
                    None
                } else {
                    pre.array_buffer
                },
                ..pre
            }));
        }
        Ok(())
    }
}

/// The calls that attach each shader to the program, in order.
pub open spec fn attach_cmds(pid: u32, shaders: Seq<Shader>) -> Seq<Command>
    decreases shaders.len(),
{
    if shaders.len() == 0 {
        Seq::empty()
    } else {
        attach_cmds(pid, shaders.drop_last()) + seq![
            Command::AttachShader(pid, shaders.last().spec_id()),
        ]
    }
}

/// The calls that detach each shader from the program, in order.
pub open spec fn detach_cmds(pid: u32, shaders: Seq<Shader>) -> Seq<Command>
    decreases shaders.len(),
{
    if shaders.len() == 0 {
        Seq::empty()
    } else {
        detach_cmds(pid, shaders.drop_last()) + seq![
            Command::DetachShader(pid, shaders.last().spec_id()),
        ]
    }
}

/// The closed set of value shapes a uniform upload supports. Float
/// components are IEEE-754 bit patterns; a matrix is sixteen of them in
/// column order; a texture is a texture handle bound to unit zero.
pub enum UniformValue {
    Float(u32),
    Vec2(u32, u32),
    Vec3(u32, u32, u32),
    Vec4(u32, u32, u32, u32),
    Mat4(Vec<u32>),
    Texture(u32),
}

/// The upload calls for one uniform value at the resolved location.
pub open spec fn uniform_cmds(loc: u32, v: UniformValue) -> Seq<Command> {
    match v {
        UniformValue::Float(x) => seq![Command::Uniform1F(loc, x)],
        UniformValue::Vec2(x, y) => seq![Command::Uniform2F(loc, x, y)],
        UniformValue::Vec3(x, y, z) => seq![Command::Uniform3F(loc, x, y, z)],
        UniformValue::Vec4(x, y, z, w) => seq![Command::Uniform4F(loc, x, y, z, w)],
        UniformValue::Mat4(m) => seq![Command::UniformMatrix4F(loc, m)],
        UniformValue::Texture(t) => seq![
            Command::ActiveTexture(0),
            Command::BindTexture(Some(t)),
            Command::Uniform1I(loc, 0),
        ],
    }
}

/// How a uniform upload changes the binding slots: a texture upload binds
/// the texture, every other shape leaves the slots alone.
pub open spec fn uniform_state(s: GLState, v: UniformValue) -> GLState {
    match v {
        UniformValue::Texture(t) => s.with_texture(Some(t)),
        _ => s,
    }
}

/// An owned two-dimensional texture handle with its stored size.
#[derive(Clone, Copy, Debug, PartialEq, Eq, Structural)]
pub struct Texture {
    /// The handle issued by the context at creation.
    pub texture: u32,
    /// The stored width in pixels.
    pub w: u32,
    /// The stored height in pixels.
    pub h: u32,
}

/// The calls that size an empty texture for later writes: unpack alignment
/// of one byte, linear minification, nearest magnification, an RGB-internal
/// image with no data, and no texture left bound.
pub open spec fn texture_new_cmds(handle: u32, width: u32, height: u32) -> Seq<Command> {
    seq![
        Command::PixelStoreUnpackAlignment(1),
        Command::CreateTexture(handle),
        Command::BindTexture(Some(handle)),
        Command::TexParameterValue(TexParameter::MinFilter, TexValue::Linear),
        Command::TexParameterValue(TexParameter::MagFilter, TexValue::Nearest),
        Command::TexImage2D { width, height, internal_rgba: false, data: None },
        Command::BindTexture(None),
    ]
}

impl Texture {
    /// Allocate a texture, upload `bytes` as tightly packed RGBA data of the
    /// given size, set edge-clamp wrapping and nearest filtering, and leave
    /// no texture bound.
    pub fn from_rgba8(gl: &mut GL, width: u32, height: u32, bytes: &Vec<u8>) -> (r: Texture)
        requires
            old(gl)@.next_handle < 0xFFFF_FFFFu32,
            bytes@.len() == 4 * width * height,
        ensures
            ({
                let h = old(gl)@.next_handle;
                let n = old(gl)@.log.len() as int;
                &&& r == (Texture { texture: h, w: width, h: height })
                &&& final(gl)@.log.len() == n + 9
                &&& final(gl)@.log.take(n) == old(gl)@.log
                &&& final(gl)@.log[n] == Command::CreateTexture(h)
                &&& final(gl)@.log[n + 1] == Command::ActiveTexture(0)
                &&& final(gl)@.log[n + 2] == Command::BindTexture(Some(h))
                &&& final(gl)@.log[n + 3] matches Command::TexImage2D {
                    width: w,
                    height: hh,
                    internal_rgba,
                    data,
                } && w == width && hh == height && internal_rgba && (data matches Some(d) && d@
                    == bytes@)
                &&& final(gl)@.log[n + 4] == Command::TexParameterValue(
                    TexParameter::WrapS,
                    TexValue::ClampToEdge,
                )
                &&& final(gl)@.log[n + 5] == Command::TexParameterValue(
                    TexParameter::WrapT,
                    TexValue::ClampToEdge,
                )
                &&& final(gl)@.log[n + 6] == Command::TexParameterValue(
                    TexParameter::MagFilter,
                    TexValue::Nearest,
                )
                &&& final(gl)@.log[n + 7] == Command::TexParameterValue(
                    TexParameter::MinFilter,
                    TexValue::Nearest,
                )
                &&& final(gl)@.log[n + 8] == Command::BindTexture(None)
                &&& final(gl)@ == (GLState {
                    log: final(gl)@.log,
                    texture_2d: None,
                    next_handle: (h + 1) as u32,
                    ..old(gl)@
                })
            }),
    {
        let ghost pre = gl@;
        let h = gl.fresh_handle_now();
        gl.emit(Command::CreateTexture(h));
        gl.emit(Command::ActiveTexture(0));
        gl.do_bind_texture(Some(h));
        let payload = crate::buffer::clone_bytes(bytes);
        gl.emit(Command::TexImage2D { width, height, internal_rgba: true, data: Some(payload) });
        gl.emit(Command::TexParameterValue(TexParameter::WrapS, TexValue::ClampToEdge));
        gl.emit(Command::TexParameterValue(TexParameter::WrapT, TexValue::ClampToEdge));
        gl.emit(Command::TexParameterValue(TexParameter::MagFilter, TexValue::Nearest));
        gl.emit(Command::TexParameterValue(TexParameter::MinFilter, TexValue::Nearest));
        gl.do_bind_texture(None);
        proof {
            assert(final(gl)@.log.take(pre.log.len() as int) =~= pre.log);
        }
        Texture { texture: h, w: width, h: height }
    }

    /// The stored size, width then height.
    pub fn dimensions(&self) -> (r: (u32, u32))
        ensures
            r == (self.w, self.h),
    {
        (self.w, self.h)
    }

    /// Allocate an empty texture sized for later writes (a glyph atlas, for
    /// instance), with linear minification and nearest magnification, and
    /// leave no texture bound.
    pub fn new(gl: &mut GL, dim: (u32, u32)) -> (r: Texture)
        requires
            old(gl)@.next_handle < 0xFFFF_FFFFu32,
        ensures
            r == (Texture { texture: old(gl)@.next_handle, w: dim.0, h: dim.1 }),
            final(gl)@ == old(gl)@.with_next_handle((old(gl)@.next_handle + 1) as u32).append(
                texture_new_cmds(old(gl)@.next_handle, dim.0, dim.1),
            ).with_texture(None),
    {
        let (width, height) = dim;
        let ghost pre = gl@;
        gl.emit(Command::PixelStoreUnpackAlignment(1));
        let h = gl.fresh_handle_now();
        gl.emit(Command::CreateTexture(h));
        gl.do_bind_texture(Some(h));
        gl.emit(Command::TexParameterValue(TexParameter::MinFilter, TexValue::Linear));
        gl.emit(Command::TexParameterValue(TexParameter::MagFilter, TexValue::Nearest));
        gl.emit(Command::TexImage2D { width, height, internal_rgba: false, data: None });
        gl.do_bind_texture(None);
        proof {
            assert(final(gl)@.log =~= pre.log + texture_new_cmds(pre.next_handle, width, height));
            assert(final(gl)@ =~= pre.with_next_handle((pre.next_handle + 1) as u32).append(
                texture_new_cmds(pre.next_handle, width, height),
            ).with_texture(None));
        }
        Texture { texture: h, w: width, h: height }
    }

    /// Release the handle; the texture is consumed, so the release happens
    /// exactly once. Every resource here follows the same owned-handle
    /// discipline, textures included.
    pub fn delete(self, gl: &mut GL)
        ensures
            final(gl)@ == old(gl)@.push(Command::DeleteTexture(self.texture)),
    {
        gl.emit(Command::DeleteTexture(self.texture));
    }
}

} // verus!
