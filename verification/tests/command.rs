use azul_gl::command::{collect_integers, single_boolean, single_integer, single_name, single_text};
use azul_gl::{
    AzString, BufferSource, ColorU, GlCommand, GlReply, GlStep, MatrixValues, ShaderSourceRef,
};

#[test]
fn commands_that_the_driver_answers_are_queries() {
    let queries = [
        GlCommand::CreateShader { shader_type: 1 },
        GlCommand::GetShaderIv { shader: 1, pname: 2 },
        GlCommand::GetShaderInfoLog { shader: 1 },
        GlCommand::CreateProgram,
        GlCommand::GetProgramIv { program: 1, pname: 2 },
        GlCommand::GetProgramInfoLog { program: 1 },
        GlCommand::GetBooleanV { name: 1 },
        GlCommand::GetIntegerV { name: 1 },
        GlCommand::GetUniformLocation { program: 1, name: 0 },
        GlCommand::GetAttribLocation { program: 1, attribute: 0 },
        GlCommand::GenTextures { n: 1 },
        GlCommand::GenFramebuffers { n: 1 },
        GlCommand::GenRenderbuffers { n: 1 },
        GlCommand::GenVertexArrays { n: 1 },
        GlCommand::GenBuffers { n: 1 },
    ];
    for command in queries {
        assert!(command.is_query(), "{:?}", command);
    }
}

#[test]
fn commands_that_only_act_are_no_queries() {
    let actions = [
        GlCommand::ShaderSource { shader: 1, source: ShaderSourceRef::Vertex },
        GlCommand::CompileShader { shader: 1 },
        GlCommand::DeleteShader { shader: 1 },
        GlCommand::AttachShader { program: 1, shader: 2 },
        GlCommand::LinkProgram { program: 1 },
        GlCommand::DeleteProgram { program: 1 },
        GlCommand::UseProgram { program: 1 },
        GlCommand::BindTexture { target: 1, texture: 2 },
        GlCommand::BindFramebuffer { target: 1, framebuffer: 2 },
        GlCommand::BindRenderbuffer { target: 1, renderbuffer: 2 },
        GlCommand::BindBuffer { target: 1, buffer: 2 },
        GlCommand::BindVertexArray { vao: 1 },
        GlCommand::DeleteTextures { texture: 1 },
        GlCommand::DeleteFramebuffers { framebuffer: 1 },
        GlCommand::DeleteRenderbuffers { renderbuffer: 1 },
        GlCommand::DeleteVertexArrays { vertex_array: 1 },
        GlCommand::DeleteBuffers { first: 1, second: 2 },
        GlCommand::TexImage2D {
            target: 1,
            level: 0,
            internal_format: 1,
            width: 1,
            height: 1,
            border: 0,
            format: 1,
            ty: 1,
        },
        GlCommand::TexParameterI { target: 1, pname: 2, param: 3 },
        GlCommand::RenderbufferStorage { target: 1, internalformat: 2, width: 3, height: 4 },
        GlCommand::FramebufferRenderbuffer {
            target: 1,
            attachment: 2,
            renderbuffertarget: 3,
            renderbuffer: 4,
        },
        GlCommand::FramebufferTexture2D {
            target: 1,
            attachment: 2,
            textarget: 3,
            texture: 4,
            level: 0,
        },
        GlCommand::DrawBuffers { buffer: 1 },
        GlCommand::Viewport { x: 0, y: 0, width: 1, height: 1 },
        GlCommand::Enable { cap: 1 },
        GlCommand::Disable { cap: 1 },
        GlCommand::ClearColor { color: ColorU { r: 0, g: 0, b: 0, a: 0 } },
        GlCommand::ClearDepth { depth: 0 },
        GlCommand::Clear { buffer_mask: 1 },
        GlCommand::BufferData { target: 1, data: BufferSource::Vertices, usage: 2 },
        GlCommand::VertexAttribPointer {
            index: 0,
            size: 1,
            type_: 2,
            normalized: false,
            stride: 4,
            offset: 0,
        },
        GlCommand::EnableVertexAttribArray { index: 0 },
        GlCommand::DisableVertexAttribArray { index: 0 },
        GlCommand::DrawElements { mode: 1, count: 2, element_type: 3, indices_offset: 0 },
        GlCommand::Uniform1f { location: 0, v0: 0 },
        GlCommand::Uniform2f { location: 0, v0: 0, v1: 0 },
        GlCommand::Uniform3f { location: 0, v0: 0, v1: 0, v2: 0 },
        GlCommand::Uniform4f { location: 0, x: 0, y: 0, z: 0, w: 0 },
        GlCommand::Uniform1i { location: 0, v0: 0 },
        GlCommand::Uniform2i { location: 0, v0: 0, v1: 0 },
        GlCommand::Uniform3i { location: 0, v0: 0, v1: 0, v2: 0 },
        GlCommand::Uniform4i { location: 0, x: 0, y: 0, z: 0, w: 0 },
        GlCommand::Uniform1ui { location: 0, v0: 0 },
        GlCommand::Uniform2ui { location: 0, v0: 0, v1: 0 },
        GlCommand::Uniform3ui { location: 0, v0: 0, v1: 0, v2: 0 },
        GlCommand::Uniform4ui { location: 0, x: 0, y: 0, z: 0, w: 0 },
        GlCommand::UniformMatrix2fv {
            location: 0,
            transpose: false,
            value: MatrixValues::M2([0; 4]),
        },
    ];
    for command in actions {
        assert!(!command.is_query(), "{:?}", command);
    }
}

#[test]
fn a_reply_gives_what_it_carries_and_nothing_else() {
    let text = || GlReply::Text(AzString::from_str("log"));
    assert_eq!(GlReply::Boolean(1).as_boolean(), Some(1));
    assert_eq!(GlReply::Integer(1).as_boolean(), None);
    assert_eq!(GlReply::Integer(-4).as_integer(), Some(-4));
    assert_eq!(GlReply::Name(4).as_integer(), None);
    assert_eq!(GlReply::Name(4).as_name(), Some(4));
    assert_eq!(GlReply::Names(vec![4]).as_name(), None);
    assert_eq!(GlReply::Names(vec![4, 5]).first_name(), Some(4));
    assert_eq!(GlReply::Names(vec![]).first_name(), None);
    assert_eq!(GlReply::Name(4).first_name(), None);
    assert_eq!(text().into_text(), Some(AzString::from_str("log")));
    assert_eq!(GlReply::Integer(1).into_text(), None);
    assert_eq!(text().as_integer(), None);
}

#[test]
fn a_single_reply_is_read_only_from_a_list_of_one() {
    assert_eq!(single_boolean(&vec![GlReply::Boolean(0)]), Some(0));
    assert_eq!(single_boolean(&vec![]), None);
    assert_eq!(single_boolean(&vec![GlReply::Boolean(0), GlReply::Boolean(0)]), None);
    assert_eq!(single_integer(&vec![GlReply::Integer(8)]), Some(8));
    assert_eq!(single_integer(&vec![GlReply::Boolean(8)]), None);
    assert_eq!(single_name(&vec![GlReply::Name(8)]), Some(8));
    assert_eq!(single_name(&vec![GlReply::Name(8), GlReply::Name(9)]), None);
    assert_eq!(
        single_text(vec![GlReply::Text(AzString::from_str("x"))]),
        Some(AzString::from_str("x"))
    );
    assert_eq!(single_text(vec![GlReply::Integer(1)]), None);
    assert_eq!(single_text(vec![]), None);
}

#[test]
fn integers_are_collected_only_if_all_replies_are_integers() {
    assert_eq!(collect_integers(&vec![]), Some(vec![]));
    assert_eq!(
        collect_integers(&vec![GlReply::Integer(3), GlReply::Integer(-1)]),
        Some(vec![3, -1])
    );
    assert_eq!(collect_integers(&vec![GlReply::Integer(3), GlReply::Name(1)]), None);
    assert_eq!(collect_integers(&vec![GlReply::Boolean(3)]), None);
}

#[test]
fn a_step_says_what_to_run_and_whether_it_is_the_last() {
    let run: GlStep<u8> = GlStep::Run(vec![GlCommand::CreateProgram]);
    assert_eq!(run.commands(), &vec![GlCommand::CreateProgram]);
    assert!(!run.is_finished());
    assert_eq!(run.into_outcome(), None);
    let finish = GlStep::Finish(vec![GlCommand::Clear { buffer_mask: 1 }], 5u8);
    assert_eq!(finish.commands(), &vec![GlCommand::Clear { buffer_mask: 1 }]);
    assert!(finish.is_finished());
    assert_eq!(finish.into_outcome(), Some(5));
}
