use azul_gl::context::{
    FXAA_FRAGMENT_SHADER, FXAA_VERTEX_SHADER, SVG_FRAGMENT_SHADER, SVG_VERTEX_SHADER,
};
use azul_gl::{
    builtin_shader_source, BuiltinShaders, ContextSetup, ContextStage, GlApiVersion, GlCommand,
    GlReply, GlReplyError, GlStep, ShaderSourceRef,
};
use gleam::gl;

fn run(setup: &mut ContextSetup, replies: Vec<GlReply>) -> Vec<GlCommand> {
    match setup.advance(replies) {
        Ok(GlStep::Run(commands)) => commands,
        other => panic!("expected another batch, got {:?}", other),
    }
}

#[test]
fn both_programs_are_built_one_after_the_other() {
    let mut setup = ContextSetup::new();
    assert_eq!(setup.stage(), ContextStage::Start);
    assert_eq!(
        run(&mut setup, vec![]),
        vec![GlCommand::CreateShader { shader_type: gl::VERTEX_SHADER }]
    );
    assert_eq!(
        run(&mut setup, vec![GlReply::Name(1)]),
        vec![
            GlCommand::ShaderSource { shader: 1, source: ShaderSourceRef::SvgVertex },
            GlCommand::CompileShader { shader: 1 },
            GlCommand::CreateShader { shader_type: gl::FRAGMENT_SHADER },
        ]
    );
    assert_eq!(
        run(&mut setup, vec![GlReply::Name(2)]),
        vec![
            GlCommand::ShaderSource { shader: 2, source: ShaderSourceRef::SvgFragment },
            GlCommand::CompileShader { shader: 2 },
            GlCommand::CreateProgram,
        ]
    );
    assert_eq!(
        run(&mut setup, vec![GlReply::Name(3)]),
        vec![
            GlCommand::AttachShader { program: 3, shader: 1 },
            GlCommand::AttachShader { program: 3, shader: 2 },
            GlCommand::LinkProgram { program: 3 },
            GlCommand::DeleteShader { shader: 1 },
            GlCommand::DeleteShader { shader: 2 },
            GlCommand::CreateShader { shader_type: gl::VERTEX_SHADER },
        ]
    );
    assert_eq!(
        run(&mut setup, vec![GlReply::Name(4)]),
        vec![
            GlCommand::ShaderSource { shader: 4, source: ShaderSourceRef::FxaaVertex },
            GlCommand::CompileShader { shader: 4 },
            GlCommand::CreateShader { shader_type: gl::FRAGMENT_SHADER },
        ]
    );
    assert_eq!(
        run(&mut setup, vec![GlReply::Name(5)]),
        vec![
            GlCommand::ShaderSource { shader: 5, source: ShaderSourceRef::FxaaFragment },
            GlCommand::CompileShader { shader: 5 },
            GlCommand::CreateProgram,
        ]
    );
    match setup.advance(vec![GlReply::Name(6)]) {
        Ok(GlStep::Finish(commands, shaders)) => {
            assert_eq!(
                commands,
                vec![
                    GlCommand::AttachShader { program: 6, shader: 4 },
                    GlCommand::AttachShader { program: 6, shader: 5 },
                    GlCommand::LinkProgram { program: 6 },
                    GlCommand::DeleteShader { shader: 4 },
                    GlCommand::DeleteShader { shader: 5 },
                ]
            );
            assert_eq!(shaders, BuiltinShaders { svg_shader: 3, fxaa_shader: 6 });
        }
        other => panic!("expected the last batch, got {:?}", other),
    }
    assert_eq!(setup.stage(), ContextStage::Done);
    assert_eq!(setup.advance(vec![]).unwrap_err(), GlReplyError);
}

#[test]
fn setup_refuses_replies_that_do_not_fit() {
    let mut setup = ContextSetup::new();
    assert_eq!(setup.advance(vec![GlReply::Name(1)]).unwrap_err(), GlReplyError);
    assert_eq!(setup.stage(), ContextStage::Start);
    run(&mut setup, vec![]);
    assert_eq!(setup.advance(vec![]).unwrap_err(), GlReplyError);
    assert_eq!(setup.advance(vec![GlReply::Integer(1)]).unwrap_err(), GlReplyError);
    assert_eq!(
        setup.advance(vec![GlReply::Name(1), GlReply::Name(2)]).unwrap_err(),
        GlReplyError
    );
    assert_eq!(setup.stage(), ContextStage::AwaitSvgVertex);
}

#[test]
fn both_programs_are_deleted_with_the_context() {
    assert_eq!(
        BuiltinShaders { svg_shader: 3, fxaa_shader: 6 }.delete_commands(),
        vec![GlCommand::DeleteProgram { program: 3 }, GlCommand::DeleteProgram { program: 6 }]
    );
}

#[test]
fn built_in_sources_are_found_by_their_reference() {
    assert_eq!(builtin_shader_source(ShaderSourceRef::SvgVertex), Some(SVG_VERTEX_SHADER));
    assert_eq!(builtin_shader_source(ShaderSourceRef::SvgFragment), Some(SVG_FRAGMENT_SHADER));
    assert_eq!(builtin_shader_source(ShaderSourceRef::FxaaVertex), Some(FXAA_VERTEX_SHADER));
    assert_eq!(builtin_shader_source(ShaderSourceRef::FxaaFragment), Some(FXAA_FRAGMENT_SHADER));
    assert_eq!(builtin_shader_source(ShaderSourceRef::Vertex), None);
    assert_eq!(builtin_shader_source(ShaderSourceRef::Fragment), None);
}

#[test]
fn built_in_sources_declare_their_version_and_entry_point() {
    for source in
        [SVG_VERTEX_SHADER, SVG_FRAGMENT_SHADER, FXAA_VERTEX_SHADER, FXAA_FRAGMENT_SHADER]
    {
        assert!(source.starts_with("\n            #version 130\n"));
        assert!(source.contains("precision mediump float;"));
        assert!(source.contains("void main("));
        assert!(source.ends_with("}\n        "));
        assert!(source.is_ascii());
    }
    assert!(SVG_VERTEX_SHADER.contains("vPosition = vec4(vAttrXY / vBboxSize - vec2(1.0), 1.0, 1.0);"));
    assert!(SVG_FRAGMENT_SHADER.contains("fOutColor = vec4(1.0, 1.0, 1.0, 1.0);"));
    assert!(FXAA_VERTEX_SHADER.contains("uniform vec2 iResolution;"));
    assert!(FXAA_FRAGMENT_SHADER.contains("uniform sampler2D iChannel0;"));
    assert_eq!(SVG_VERTEX_SHADER.len(), 288);
    assert_eq!(SVG_FRAGMENT_SHADER.len(), 231);
    assert_eq!(FXAA_VERTEX_SHADER.len(), 2608);
    assert_eq!(FXAA_FRAGMENT_SHADER.len(), 5463);
}

#[test]
fn version_is_read_from_two_integers() {
    assert_eq!(
        GlApiVersion::get_commands(),
        vec![
            GlCommand::GetIntegerV { name: gl::MAJOR_VERSION },
            GlCommand::GetIntegerV { name: gl::MINOR_VERSION },
        ]
    );
    assert_eq!(
        GlApiVersion::get(&vec![GlReply::Integer(3), GlReply::Integer(2)]),
        Ok(GlApiVersion::Gl { major: 3, minor: 2 })
    );
    assert_eq!(
        GlApiVersion::get(&vec![GlReply::Integer(0), GlReply::Integer(0)]),
        Ok(GlApiVersion::Gl { major: 0, minor: 0 })
    );
}

#[test]
fn a_negative_version_number_wraps_around() {
    assert_eq!(
        GlApiVersion::get(&vec![GlReply::Integer(-1), GlReply::Integer(4)]),
        Ok(GlApiVersion::Gl { major: usize::MAX, minor: 4 })
    );
}

#[test]
fn version_needs_exactly_two_integers() {
    assert_eq!(GlApiVersion::get(&vec![]), Err(GlReplyError));
    assert_eq!(GlApiVersion::get(&vec![GlReply::Integer(3)]), Err(GlReplyError));
    assert_eq!(
        GlApiVersion::get(&vec![GlReply::Integer(3), GlReply::Boolean(1)]),
        Err(GlReplyError)
    );
    assert_eq!(
        GlApiVersion::get(&vec![GlReply::Name(3), GlReply::Integer(1)]),
        Err(GlReplyError)
    );
    assert_eq!(
        GlApiVersion::get(&vec![GlReply::Integer(3), GlReply::Integer(1), GlReply::Integer(0)]),
        Err(GlReplyError)
    );
}
