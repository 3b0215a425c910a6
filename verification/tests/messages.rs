use azul_gl::text::{push_decimal_i64, push_decimal_u64};
use azul_gl::{
    AzString, FragmentShaderCompileError, GlShader, GlShaderCompileError, GlShaderCreateError,
    GlShaderLinkError, IndexBufferFormat, PhysicalSizeU32, RawImageFormat, Texture, TextureFlags,
    VertexArrayObject, VertexBuffer, VertexLayout, VertexShaderCompileError,
};

fn unsigned(n: u64) -> String {
    let mut text = String::new();
    push_decimal_u64(&mut text, n);
    text
}

fn signed(i: i64) -> String {
    let mut text = String::new();
    push_decimal_i64(&mut text, i);
    text
}

#[test]
fn unsigned_numbers_in_decimal() {
    assert_eq!(unsigned(0), "0");
    assert_eq!(unsigned(7), "7");
    assert_eq!(unsigned(10), "10");
    assert_eq!(unsigned(1234567890), "1234567890");
    assert_eq!(unsigned(u64::MAX), "18446744073709551615");
    for n in [9u64, 99, 100, 101, 4096, 65535, 4294967295] {
        assert_eq!(unsigned(n), format!("{}", n));
    }
}

#[test]
fn signed_numbers_in_decimal() {
    assert_eq!(signed(0), "0");
    assert_eq!(signed(-1), "-1");
    assert_eq!(signed(42), "42");
    assert_eq!(signed(-2147483648), "-2147483648");
    assert_eq!(signed(i64::MAX), "9223372036854775807");
    assert_eq!(signed(i64::MIN), "-9223372036854775808");
    for i in [-10i64, -9, 9, 10, -100, 1000000] {
        assert_eq!(signed(i), format!("{}", i));
    }
}

#[test]
fn numbers_are_appended_to_what_is_there() {
    let mut text = String::from("n = ");
    push_decimal_u64(&mut text, 15);
    text.push_str(", m = ");
    push_decimal_i64(&mut text, -3);
    assert_eq!(text, "n = 15, m = -3");
}

#[test]
fn a_texture_as_text() {
    let texture = Texture {
        texture_id: 5,
        format: RawImageFormat::RGBA8,
        flags: TextureFlags::default(),
        size: PhysicalSizeU32::new(640, 480),
    };
    assert_eq!(texture.to_string(), "Texture { id: 5, 640x480 }");
}

#[test]
fn a_vertex_buffer_as_text() {
    let buffer = VertexBuffer {
        vertex_buffer_id: 3,
        vertex_buffer_len: 12,
        vao: VertexArrayObject { vertex_layout: VertexLayout { fields: vec![] }, vao_id: 9 },
        index_buffer_id: 4,
        index_buffer_len: 18,
        index_buffer_format: IndexBufferFormat::Triangles,
    };
    assert_eq!(buffer.to_string(), "VertexBuffer { buffer: 3 (length: 12) })");
}

#[test]
fn a_shader_program_as_text() {
    assert_eq!(GlShader { program_id: 4 }.to_string(), "GlShader { program_id: 4 }");
    assert_eq!(
        GlShader { program_id: u32::MAX }.to_string(),
        "GlShader { program_id: 4294967295 }"
    );
}

#[test]
fn shader_errors_as_text() {
    let vertex =
        VertexShaderCompileError { error_id: 0, info_log: AzString::from_str("0:3: bad token") };
    assert_eq!(vertex.to_string(), "E0: 0:3: bad token");
    let fragment =
        FragmentShaderCompileError { error_id: -7, info_log: AzString::from_str("no main") };
    assert_eq!(fragment.to_string(), "E-7: no main");
    let link = GlShaderLinkError { error_id: 12, info_log: AzString::default() };
    assert_eq!(link.to_string(), "E12: ");
    assert_eq!(
        GlShaderCompileError::Vertex(vertex.clone()).to_string(),
        "Failed to compile vertex shader: E0: 0:3: bad token"
    );
    assert_eq!(
        GlShaderCompileError::Fragment(fragment.clone()).to_string(),
        "Failed to compile fragment shader: E-7: no main"
    );
    assert_eq!(
        GlShaderCreateError::Compile(GlShaderCompileError::Vertex(vertex)).to_string(),
        "Shader compile error: Failed to compile vertex shader: E0: 0:3: bad token"
    );
    assert_eq!(
        GlShaderCreateError::Compile(GlShaderCompileError::Fragment(fragment)).to_string(),
        "Shader compile error: Failed to compile fragment shader: E-7: no main"
    );
    assert_eq!(GlShaderCreateError::Link(link).to_string(), "Shader linking error: E12: ");
    assert_eq!(
        GlShaderCreateError::NoShaderCompiler.to_string(),
        "OpenGL implementation doesn't include a shader compiler"
    );
}
