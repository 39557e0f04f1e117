use red::buffer::ArrayBuffer;
use red::buffer::Buffer;
use red::buffer::IndexBuffer;
use red::buffer::VertexArray;
use red::command::BlendFactor;
use red::command::BufferKind;
use red::command::Capability;
use red::command::Command;
use red::command::Comparison;
use red::command::StencilAction;
use red::data::AttributeType;
use red::data::FieldDesc;
use red::data::VertexBuffer;
use red::data::VertexLayout;
use red::shader::Program;
use red::shader::ProgramInput;
use red::shader::ProgramInterface;
use red::shader::Shader;
use red::shader::UniformValue;
use red::Blend;
use red::DrawParams;
use red::DrawType;
use red::Fault;
use red::Frame;
use red::Operation;
use red::Stencil;
use red::StencilTest;
use red::Viewport;
use red::GL;

fn input(name: &str, location: u32) -> ProgramInput {
    ProgramInput { name: name.to_string(), location }
}

fn plain_program(gl: &mut GL, uniforms: Vec<ProgramInput>) -> Program {
    Program::from_shaders(
        gl,
        &Vec::new(),
        ProgramInterface { attributes: Vec::new(), uniforms },
    )
    .unwrap()
}

#[test]
fn default_params_match_explicit_construction() {
    let explicit = DrawParams {
        stencil: None,
        draw_type: DrawType::Standart,
        color_mask: (true, true, true, true),
        blend: Some(Blend),
    };
    assert_eq!(DrawParams::default(), explicit);
    assert_eq!(StencilTest::default(), StencilTest::AlwaysPass);
    assert_eq!(DrawType::default(), DrawType::Standart);
    assert_eq!(
        Stencil::default(),
        Stencil { mask: 0, ref_value: 0, test: StencilTest::AlwaysPass, pass_operation: None }
    );
}

#[test]
fn default_draw_emits_same_calls_as_explicit() {
    // One draw under the default parameter set and one under the explicitly
    // constructed equivalent set log identical call sequences.
    let run = |params: &DrawParams| -> Vec<Command> {
        let mut gl = GL::new();
        let frame = Frame::new(&mut gl);
        let vao = VertexArray::new(&mut gl).unwrap();
        let ib = IndexBuffer::new(&mut gl, &vec![0u16, 1, 2]).unwrap();
        let program = plain_program(&mut gl, Vec::new());
        let before = gl.commands().len();
        frame
            .draw(&mut gl, &vao, Some(&ib), &program, params)
            .unwrap();
        gl.commands()[before..].to_vec()
    };
    let defaulted = run(&DrawParams::default());
    let explicit = run(&DrawParams {
        stencil: None,
        draw_type: DrawType::Standart,
        color_mask: (true, true, true, true),
        blend: Some(Blend),
    });
    assert_eq!(defaulted, explicit);
}

#[test]
fn triangle_scenario_draws_once_with_three_indices() {
    // A minimal passthrough program with one `position` attribute and one
    // `color` uniform, a 3-vertex buffer of 2-float positions, a 3-index
    // buffer, one standard draw: no error, exactly one indexed triangle-list
    // draw with index count 3.
    let mut gl = GL::new();
    let frame = Frame::new(&mut gl);
    let vert = Shader::from_vert_source(
        &mut gl,
        "attribute vec2 position; void main() { gl_Position = vec4(position, 0.0, 1.0); }",
    )
    .unwrap();
    let frag = Shader::from_frag_source(
        &mut gl,
        "uniform vec4 color; void main() { gl_FragColor = color; }",
    )
    .unwrap();
    let program = Program::from_shaders(
        &mut gl,
        &vec![vert, frag],
        ProgramInterface {
            attributes: vec![input("position", 0)],
            uniforms: vec![input("color", 0)],
        },
    )
    .unwrap();

    let positions: [(f32, f32); 3] = [(-0.5, -0.5), (0.5, -0.5), (0.0, 0.5)];
    let mut bytes: Vec<u8> = Vec::new();
    for (x, y) in positions.iter() {
        bytes.extend_from_slice(&x.to_le_bytes());
        bytes.extend_from_slice(&y.to_le_bytes());
    }
    let vbo: ArrayBuffer = Buffer::new(&mut gl).unwrap();
    vbo.bind(&mut gl);
    vbo.static_draw_data(&mut gl, &bytes);
    vbo.unbind(&mut gl);
    let layout = VertexLayout::new(vec![FieldDesc {
        name: "position".to_string(),
        ty: AttributeType::F32F32,
        divisor: None,
    }])
    .unwrap();
    let vao = VertexArray::new(&mut gl).unwrap();
    program
        .set_layout(&mut gl, &vao, &vec![VertexBuffer { buffer: vbo, layout }])
        .unwrap();

    program
        .set_uniform(
            &mut gl,
            "color",
            UniformValue::Vec4(
                1.0f32.to_bits(),
                0.0f32.to_bits(),
                0.0f32.to_bits(),
                1.0f32.to_bits(),
            ),
        )
        .unwrap();

    let ib = IndexBuffer::new(&mut gl, &vec![0u16, 1, 2]).unwrap();
    frame
        .draw(&mut gl, &vao, Some(&ib), &program, &DrawParams::default())
        .unwrap();

    let draws: Vec<&Command> = gl
        .commands()
        .iter()
        .filter(|c| {
            matches!(
                c,
                Command::DrawElements { .. } | Command::DrawElementsInstanced { .. }
            )
        })
        .collect();
    assert_eq!(draws.len(), 1);
    assert_eq!(draws[0], &Command::DrawElements { count: 3 });
}

#[test]
fn missing_uniform_faults_naming_it() {
    let mut gl = GL::new();
    let program = plain_program(&mut gl, vec![input("color", 0)]);
    let r = program.set_uniform(&mut gl, "missing", UniformValue::Float(1.0f32.to_bits()));
    match r {
        Err(Fault::UniformNotFound(name)) => assert_eq!(name, "missing"),
        other => panic!("expected a missing-uniform fault, got {:?}", other),
    }
}

#[test]
fn stencil_replace_sequence_and_mask_restore() {
    // Stencil test equal, reference 2, mask 0xFF, pass operation replace:
    // the stencil calls are (equal, 2, 0xFF) then (keep, keep, replace), and
    // after the draw the stencil mask is forced back to 0xFF.
    let mut gl = GL::new();
    let frame = Frame::new(&mut gl);
    let vao = VertexArray::new(&mut gl).unwrap();
    let ib = IndexBuffer::new(&mut gl, &vec![0u16, 1, 2]).unwrap();
    let program = plain_program(&mut gl, Vec::new());
    let params = DrawParams {
        stencil: Some(Stencil {
            mask: 0xFF,
            ref_value: 2,
            test: StencilTest::Equal,
            pass_operation: Some(Operation::Replace),
        }),
        ..DrawParams::default()
    };
    let before = gl.commands().len();
    frame
        .draw(&mut gl, &vao, Some(&ib), &program, &params)
        .unwrap();
    let cmds = &gl.commands()[before..];
    assert_eq!(
        cmds,
        &[
            Command::BindVertexArray(Some(1)),
            Command::Enable(Capability::Blend),
            Command::BlendFunc(BlendFactor::SrcAlpha, BlendFactor::OneMinusSrcAlpha),
            Command::ColorMask(true, true, true, true),
            Command::StencilMask(0xFF),
            Command::StencilFunc(Comparison::Equal, 2, 0xFF),
            Command::StencilOp(StencilAction::Keep, StencilAction::Keep, StencilAction::Replace),
            Command::UseProgram(Some(3)),
            Command::BindBuffer(BufferKind::ElementArray, Some(2)),
            Command::DrawElements { count: 3 },
            Command::StencilMask(0xFF),
            Command::BindVertexArray(None),
        ]
    );
}

#[test]
fn no_stencil_disables_writes_and_forces_always_pass() {
    let mut gl = GL::new();
    let frame = Frame::new(&mut gl);
    let vao = VertexArray::new(&mut gl).unwrap();
    let ib = IndexBuffer::new(&mut gl, &vec![0u16]).unwrap();
    let program = plain_program(&mut gl, Vec::new());
    let params = DrawParams { blend: None, ..DrawParams::default() };
    let before = gl.commands().len();
    frame
        .draw(&mut gl, &vao, Some(&ib), &program, &params)
        .unwrap();
    let cmds = &gl.commands()[before..];
    assert_eq!(
        cmds,
        &[
            Command::BindVertexArray(Some(1)),
            Command::Disable(Capability::Blend),
            Command::ColorMask(true, true, true, true),
            Command::StencilMask(0x00),
            Command::StencilFunc(Comparison::Always, 0, 0xFF),
            Command::StencilOp(StencilAction::Keep, StencilAction::Keep, StencilAction::Keep),
            Command::UseProgram(Some(3)),
            Command::BindBuffer(BufferKind::ElementArray, Some(2)),
            Command::DrawElements { count: 1 },
            Command::StencilMask(0xFF),
            Command::BindVertexArray(None),
        ]
    );
}

#[test]
fn draw_without_index_buffer_faults() {
    let mut gl = GL::new();
    let frame = Frame::new(&mut gl);
    let vao = VertexArray::new(&mut gl).unwrap();
    let program = plain_program(&mut gl, Vec::new());
    let before = gl.commands().len();
    let r = frame.draw(&mut gl, &vao, None, &program, &DrawParams::default());
    assert_eq!(r, Err(Fault::MissingIndexBuffer));
    assert_eq!(gl.commands().len(), before);
}

#[test]
fn instanced_draw_repeats_for_each_instance() {
    let mut gl = GL::new();
    let frame = Frame::new(&mut gl);
    let vao = VertexArray::new(&mut gl).unwrap();
    let ib = IndexBuffer::new(&mut gl, &vec![0u16, 1, 2, 2, 1, 0]).unwrap();
    let program = plain_program(&mut gl, Vec::new());
    let params = DrawParams { draw_type: DrawType::Instancing(5), ..DrawParams::default() };
    frame
        .draw(&mut gl, &vao, Some(&ib), &program, &params)
        .unwrap();
    assert!(gl
        .commands()
        .iter()
        .any(|c| c == &Command::DrawElementsInstanced { count: 6, instances: 5 }));
}

#[test]
fn texture_uniform_binds_unit_zero() {
    let mut gl = GL::new();
    let program = plain_program(&mut gl, vec![input("sampler", 4)]);
    let before = gl.commands().len();
    program
        .set_uniform(&mut gl, "sampler", UniformValue::Texture(9))
        .unwrap();
    let cmds = &gl.commands()[before..];
    assert_eq!(
        cmds,
        &[
            Command::UseProgram(Some(1)),
            Command::ActiveTexture(0),
            Command::BindTexture(Some(9)),
            Command::Uniform1I(4, 0),
        ]
    );
}

#[test]
fn matrix_uniform_uploads_sixteen_values() {
    let mut gl = GL::new();
    let program = plain_program(&mut gl, vec![input("transform", 2)]);
    let m: Vec<u32> = (0..16).map(|i| (i as f32).to_bits()).collect();
    program
        .set_uniform(&mut gl, "transform", UniformValue::Mat4(m.clone()))
        .unwrap();
    assert_eq!(
        gl.commands().last().unwrap(),
        &Command::UniformMatrix4F(2, m)
    );
}

#[test]
fn clear_calls_select_their_buffers() {
    let mut gl = GL::new();
    let frame = Frame::new(&mut gl);
    let before = gl.commands().len();
    frame.set_clear_color(&mut gl, 0.1f32.to_bits(), 0.2f32.to_bits(), 0.3f32.to_bits(), 1.0f32.to_bits());
    frame.set_clear_stencil(&mut gl, 7);
    frame.clear_color(&mut gl);
    frame.clear_stencil(&mut gl);
    frame.clear_color_and_stencil(&mut gl);
    let cmds = &gl.commands()[before..];
    assert_eq!(
        cmds,
        &[
            Command::ClearColor(
                0.1f32.to_bits(),
                0.2f32.to_bits(),
                0.3f32.to_bits(),
                1.0f32.to_bits()
            ),
            Command::ClearStencil(7),
            Command::Clear { color: true, stencil: false },
            Command::Clear { color: false, stencil: true },
            Command::Clear { color: true, stencil: true },
        ]
    );
}

#[test]
fn frame_creation_enables_stencil() {
    let mut gl = GL::new();
    let _frame = Frame::new(&mut gl);
    assert_eq!(
        gl.commands().as_slice(),
        &[Command::Enable(Capability::Stencil)]
    );
}

#[test]
fn viewport_tracks_size_and_applies_it() {
    let mut gl = GL::new();
    let mut viewport = Viewport::for_window(800, 600);
    assert_eq!(viewport.dimensions(), (800, 600));
    assert_eq!((viewport.x, viewport.y), (0, 0));
    viewport.update_size(1024, 768);
    assert_eq!(viewport.dimensions(), (1024, 768));
    viewport.set_used(&mut gl);
    assert_eq!(
        gl.commands().as_slice(),
        &[Command::Viewport { x: 0, y: 0, w: 1024, h: 768 }]
    );
}

#[test]
fn set_layout_brackets_each_buffer_with_binds() {
    let mut gl = GL::new();
    let program = Program::from_shaders(
        &mut gl,
        &Vec::new(),
        ProgramInterface { attributes: vec![input("position", 0)], uniforms: Vec::new() },
    )
    .unwrap();
    let vbo: ArrayBuffer = Buffer::new(&mut gl).unwrap();
    let vao = VertexArray::new(&mut gl).unwrap();
    let layout = VertexLayout::new(vec![FieldDesc {
        name: "position".to_string(),
        ty: AttributeType::F32F32F32,
        divisor: None,
    }])
    .unwrap();
    let before = gl.commands().len();
    program
        .set_layout(&mut gl, &vao, &vec![VertexBuffer { buffer: vbo, layout }])
        .unwrap();
    let cmds = &gl.commands()[before..];
    assert_eq!(cmds.first().unwrap(), &Command::BindVertexArray(Some(3)));
    assert_eq!(cmds[1], Command::BindBuffer(BufferKind::Array, Some(2)));
    assert_eq!(cmds[cmds.len() - 2], Command::BindBuffer(BufferKind::Array, None));
    assert_eq!(cmds.last().unwrap(), &Command::BindVertexArray(None));
}

#[test]
fn duplicate_uniform_names_resolve_to_first_entry() {
    let mut gl = GL::new();
    let program = plain_program(&mut gl, vec![input("color", 2), input("color", 8)]);
    program
        .set_uniform(&mut gl, "color", UniformValue::Float(0.0f32.to_bits()))
        .unwrap();
    assert_eq!(
        gl.commands().last().unwrap(),
        &Command::Uniform1F(2, 0.0f32.to_bits())
    );
}

#[test]
fn set_layout_handles_several_buffers_in_order() {
    let mut gl = GL::new();
    let program = Program::from_shaders(
        &mut gl,
        &Vec::new(),
        ProgramInterface {
            attributes: vec![input("position", 0), input("offset", 1)],
            uniforms: Vec::new(),
        },
    )
    .unwrap();
    let per_vertex: ArrayBuffer = Buffer::new(&mut gl).unwrap();
    let per_instance: ArrayBuffer = Buffer::new(&mut gl).unwrap();
    let vao = VertexArray::new(&mut gl).unwrap();
    let vertex_layout = VertexLayout::new(vec![FieldDesc {
        name: "position".to_string(),
        ty: AttributeType::F32F32,
        divisor: None,
    }])
    .unwrap();
    let instance_layout = VertexLayout::new(vec![FieldDesc {
        name: "offset".to_string(),
        ty: AttributeType::F32F32,
        divisor: Some(1),
    }])
    .unwrap();
    let before = gl.commands().len();
    program
        .set_layout(
            &mut gl,
            &vao,
            &vec![
                VertexBuffer { buffer: per_vertex, layout: vertex_layout },
                VertexBuffer { buffer: per_instance, layout: instance_layout },
            ],
        )
        .unwrap();
    let cmds = &gl.commands()[before..];
    // Bind vao; bind buffer 2, describe position, unbind; bind buffer 3,
    // describe offset with its divisor, unbind; unbind vao.
    assert_eq!(cmds[0], Command::BindVertexArray(Some(4)));
    assert_eq!(cmds[1], Command::BindBuffer(BufferKind::Array, Some(2)));
    assert_eq!(cmds[2], Command::EnableVertexAttribArray(0));
    assert_eq!(cmds[4], Command::BindBuffer(BufferKind::Array, None));
    assert_eq!(cmds[5], Command::BindBuffer(BufferKind::Array, Some(3)));
    assert_eq!(cmds[6], Command::EnableVertexAttribArray(1));
    assert_eq!(cmds[8], Command::VertexAttribDivisor { location: 1, divisor: 1 });
    assert_eq!(cmds[9], Command::BindBuffer(BufferKind::Array, None));
    assert_eq!(cmds[10], Command::BindVertexArray(None));
    assert_eq!(cmds.len(), 11);
}

#[test]
fn set_layout_rejects_unknown_field_before_emitting() {
    let mut gl = GL::new();
    let program = plain_program(&mut gl, Vec::new());
    let vbo: ArrayBuffer = Buffer::new(&mut gl).unwrap();
    let vao = VertexArray::new(&mut gl).unwrap();
    let layout = VertexLayout::new(vec![FieldDesc {
        name: "ghost_field".to_string(),
        ty: AttributeType::F32,
        divisor: None,
    }])
    .unwrap();
    let before = gl.commands().len();
    let r = program.set_layout(&mut gl, &vao, &vec![VertexBuffer { buffer: vbo, layout }]);
    match r {
        Err(Fault::AttributeNotFound(name)) => assert_eq!(name, "ghost_field"),
        other => panic!("expected a missing-attribute fault, got {:?}", other),
    }
    assert_eq!(gl.commands().len(), before);
}
