use red::buffer::ArrayBuffer;
use red::buffer::Buffer;
use red::buffer::BufferTypeArray;
use red::buffer::BufferTypeElementArray;
use red::buffer::IndexBuffer;
use red::buffer::MapArray;
use red::buffer::VertexArray;
use red::command::BufferKind;
use red::command::Command;
use red::command::DataUsage;
use red::command::ShaderKind;
use red::command::TexParameter;
use red::command::TexValue;
use red::shader::Program;
use red::shader::ProgramInput;
use red::shader::ProgramInterface;
use red::shader::Shader;
use red::shader::Texture;
use red::GL;

#[test]
fn buffer_bind_unbind_targets_its_own_kind() {
    let mut gl = GL::new();
    let vbo: ArrayBuffer = Buffer::new(&mut gl).unwrap();
    let ebo: Buffer<BufferTypeElementArray> = Buffer::new(&mut gl).unwrap();
    vbo.bind(&mut gl);
    ebo.bind(&mut gl);
    vbo.unbind(&mut gl);
    ebo.unbind(&mut gl);
    assert_eq!(
        gl.commands().as_slice(),
        &[
            Command::CreateBuffer(1),
            Command::CreateBuffer(2),
            Command::BindBuffer(BufferKind::Array, Some(1)),
            Command::BindBuffer(BufferKind::ElementArray, Some(2)),
            Command::BindBuffer(BufferKind::Array, None),
            Command::BindBuffer(BufferKind::ElementArray, None),
        ]
    );
}

#[test]
fn upload_twice_is_idempotent() {
    // Re-uploading the same bytes logs the same upload again, leaving the
    // buffer's visible contents as after one upload.
    let mut gl = GL::new();
    let vbo: ArrayBuffer = Buffer::new(&mut gl).unwrap();
    vbo.bind(&mut gl);
    let data: Vec<u8> = vec![1, 2, 3, 4];
    vbo.static_draw_data(&mut gl, &data);
    let first = gl.commands().last().unwrap().clone();
    vbo.static_draw_data(&mut gl, &data);
    let second = gl.commands().last().unwrap().clone();
    assert_eq!(first, second);
    assert_eq!(
        first,
        Command::BufferData(BufferKind::Array, vec![1, 2, 3, 4], DataUsage::StaticDraw)
    );
}

#[test]
fn dynamic_upload_marks_frequent_updates() {
    let mut gl = GL::new();
    let vbo: ArrayBuffer = Buffer::new(&mut gl).unwrap();
    vbo.bind(&mut gl);
    vbo.dynamic_draw_data(&mut gl, &vec![9, 9]);
    assert_eq!(
        gl.commands().last().unwrap(),
        &Command::BufferData(BufferKind::Array, vec![9, 9], DataUsage::DynamicDraw)
    );
}

#[test]
fn index_upload_is_little_endian() {
    let mut gl = GL::new();
    let ib = IndexBuffer::new(&mut gl, &vec![0x0102u16, 0xFFEEu16]).unwrap();
    assert_eq!(ib.size, 2);
    assert_eq!(
        gl.commands().as_slice(),
        &[
            Command::CreateBuffer(1),
            Command::BindBuffer(BufferKind::ElementArray, Some(1)),
            Command::BufferData(
                BufferKind::ElementArray,
                vec![0x02, 0x01, 0xEE, 0xFF],
                DataUsage::StaticDraw
            ),
            Command::BindBuffer(BufferKind::ElementArray, None),
        ]
    );
}

#[test]
fn buffer_release_is_logged_once() {
    let mut gl = GL::new();
    let vbo: ArrayBuffer = Buffer::new(&mut gl).unwrap();
    let vao = VertexArray::new(&mut gl).unwrap();
    vbo.delete(&mut gl);
    vao.delete(&mut gl);
    assert_eq!(
        gl.commands().as_slice(),
        &[
            Command::CreateBuffer(1),
            Command::CreateVertexArray(2),
            Command::DeleteBuffer(1),
            Command::DeleteVertexArray(2),
        ]
    );
}

#[test]
fn mapped_view_flushes_full_range_and_unmaps_once() {
    // Even with only one of three elements written, closing the view
    // flushes exactly the requested byte range and unmaps exactly once.
    let mut gl = GL::new();
    let vbo: ArrayBuffer = Buffer::new(&mut gl).unwrap();
    vbo.bind(&mut gl);
    let mut map: MapArray<(f32, f32)> = MapArray::new(&mut gl, 3, 8).unwrap();
    assert_eq!(map.len(), 3);
    assert_eq!(
        gl.commands().last().unwrap(),
        &Command::MapBufferRange(BufferKind::Array, 0, 24)
    );
    map.write(1, (0.5, -0.5));
    let before = gl.commands().len();
    let writes = map.close(&mut gl);
    assert_eq!(writes, vec![(1, (0.5, -0.5))]);
    let tail = &gl.commands()[before..];
    assert_eq!(
        tail,
        &[
            Command::FlushMappedBufferRange(BufferKind::Array, 0, 24),
            Command::UnmapBuffer(BufferKind::Array),
        ]
    );
    let unmaps = gl
        .commands()
        .iter()
        .filter(|c| matches!(c, Command::UnmapBuffer(_)))
        .count();
    assert_eq!(unmaps, 1);
}

#[test]
fn shader_compile_is_logged() {
    let mut gl = GL::new();
    let vert = Shader::from_vert_source(&mut gl, "void main() {}").unwrap();
    assert_eq!(vert.id(), 1);
    let frag = Shader::from_frag_source(&mut gl, "void main() {}").unwrap();
    assert_eq!(frag.id(), 2);
    assert_eq!(
        gl.commands().as_slice(),
        &[
            Command::CreateShader(ShaderKind::Vertex, 1),
            Command::ShaderSource(1, "void main() {}".to_string()),
            Command::CompileShader(1),
            Command::CreateShader(ShaderKind::Fragment, 2),
            Command::ShaderSource(2, "void main() {}".to_string()),
            Command::CompileShader(2),
        ]
    );
    vert.delete(&mut gl);
    assert_eq!(gl.commands().last().unwrap(), &Command::DeleteShader(1));
    frag.delete(&mut gl);
}

#[test]
fn program_links_and_detaches_every_shader() {
    let mut gl = GL::new();
    let vert = Shader::from_vert_source(&mut gl, "v").unwrap();
    let frag = Shader::from_frag_source(&mut gl, "f").unwrap();
    let before = gl.commands().len();
    let program = Program::from_shaders(
        &mut gl,
        &vec![vert, frag],
        ProgramInterface { attributes: Vec::new(), uniforms: Vec::new() },
    )
    .unwrap();
    assert_eq!(program.id(), 3);
    let tail = &gl.commands()[before..];
    assert_eq!(
        tail,
        &[
            Command::CreateProgram(3),
            Command::AttachShader(3, 1),
            Command::AttachShader(3, 2),
            Command::LinkProgram(3),
            Command::DetachShader(3, 1),
            Command::DetachShader(3, 2),
        ]
    );
}

#[test]
fn program_set_used_activates_it() {
    let mut gl = GL::new();
    let program = Program::from_shaders(
        &mut gl,
        &Vec::new(),
        ProgramInterface { attributes: Vec::new(), uniforms: Vec::new() },
    )
    .unwrap();
    program.set_used(&mut gl);
    assert_eq!(gl.commands().last().unwrap(), &Command::UseProgram(Some(1)));
}

#[test]
fn rgba_texture_uploads_and_clamps() {
    let mut gl = GL::new();
    let bytes: Vec<u8> = vec![0; 4 * 2 * 2];
    let tex = Texture::from_rgba8(&mut gl, 2, 2, &bytes);
    assert_eq!(tex.dimensions(), (2, 2));
    assert_eq!(
        gl.commands().as_slice(),
        &[
            Command::CreateTexture(1),
            Command::ActiveTexture(0),
            Command::BindTexture(Some(1)),
            Command::TexImage2D {
                width: 2,
                height: 2,
                internal_rgba: true,
                data: Some(vec![0; 16])
            },
            Command::TexParameterValue(TexParameter::WrapS, TexValue::ClampToEdge),
            Command::TexParameterValue(TexParameter::WrapT, TexValue::ClampToEdge),
            Command::TexParameterValue(TexParameter::MagFilter, TexValue::Nearest),
            Command::TexParameterValue(TexParameter::MinFilter, TexValue::Nearest),
            Command::BindTexture(None),
        ]
    );
}

#[test]
fn empty_texture_is_sized_for_later_writes() {
    let mut gl = GL::new();
    let tex = Texture::new(&mut gl, (64, 32));
    assert_eq!(tex.dimensions(), (64, 32));
    assert_eq!(
        gl.commands().as_slice(),
        &[
            Command::PixelStoreUnpackAlignment(1),
            Command::CreateTexture(1),
            Command::BindTexture(Some(1)),
            Command::TexParameterValue(TexParameter::MinFilter, TexValue::Linear),
            Command::TexParameterValue(TexParameter::MagFilter, TexValue::Nearest),
            Command::TexImage2D { width: 64, height: 32, internal_rgba: false, data: None },
            Command::BindTexture(None),
        ]
    );
    tex.delete(&mut gl);
    assert_eq!(gl.commands().last().unwrap(), &Command::DeleteTexture(1));
}

#[test]
fn handles_are_issued_fresh() {
    let mut gl = GL::new();
    let a: ArrayBuffer = Buffer::new(&mut gl).unwrap();
    let b: Buffer<BufferTypeArray> = Buffer::new(&mut gl).unwrap();
    let v = VertexArray::new(&mut gl).unwrap();
    assert_eq!(a.vbo, 1);
    assert_eq!(b.vbo, 2);
    let program = Program::from_shaders(
        &mut gl,
        &Vec::new(),
        ProgramInterface {
            attributes: vec![ProgramInput { name: "p".to_string(), location: 0 }],
            uniforms: Vec::new(),
        },
    )
    .unwrap();
    assert_eq!(program.id(), 4);
    v.delete(&mut gl);
}

#[test]
fn take_commands_drains_the_log() {
    let mut gl = GL::new();
    let vbo: ArrayBuffer = Buffer::new(&mut gl).unwrap();
    let drained = gl.take_commands();
    assert_eq!(drained, vec![Command::CreateBuffer(1)]);
    assert!(gl.commands().is_empty());
    vbo.bind(&mut gl);
    assert_eq!(
        gl.commands().as_slice(),
        &[Command::BindBuffer(BufferKind::Array, Some(1))]
    );
}
