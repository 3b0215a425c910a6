use azul_gl::glenum;
use gleam::gl;

#[test]
fn boolean_constants_match_the_driver_bindings() {
    assert_eq!(glenum::TRUE, gl::TRUE);
    assert_eq!(glenum::FALSE, gl::FALSE);
}

#[test]
fn primitive_modes_match_the_driver_bindings() {
    assert_eq!(glenum::POINTS, gl::POINTS);
    assert_eq!(glenum::LINES, gl::LINES);
    assert_eq!(glenum::LINE_STRIP, gl::LINE_STRIP);
    assert_eq!(glenum::TRIANGLES, gl::TRIANGLES);
    assert_eq!(glenum::TRIANGLE_STRIP, gl::TRIANGLE_STRIP);
    assert_eq!(glenum::TRIANGLE_FAN, gl::TRIANGLE_FAN);
}

#[test]
fn component_types_match_the_driver_bindings() {
    assert_eq!(glenum::UNSIGNED_BYTE, gl::UNSIGNED_BYTE);
    assert_eq!(glenum::UNSIGNED_SHORT, gl::UNSIGNED_SHORT);
    assert_eq!(glenum::UNSIGNED_INT, gl::UNSIGNED_INT);
    assert_eq!(glenum::FLOAT, gl::FLOAT);
    assert_eq!(glenum::DOUBLE, gl::DOUBLE);
}

#[test]
fn buffer_enumerants_match_the_driver_bindings() {
    assert_eq!(glenum::ARRAY_BUFFER, gl::ARRAY_BUFFER);
    assert_eq!(glenum::ELEMENT_ARRAY_BUFFER, gl::ELEMENT_ARRAY_BUFFER);
    assert_eq!(glenum::ARRAY_BUFFER_BINDING, gl::ARRAY_BUFFER_BINDING);
    assert_eq!(glenum::ELEMENT_ARRAY_BUFFER_BINDING, gl::ELEMENT_ARRAY_BUFFER_BINDING);
    assert_eq!(glenum::STATIC_DRAW, gl::STATIC_DRAW);
    assert_eq!(glenum::VERTEX_ARRAY_BINDING, gl::VERTEX_ARRAY_BINDING);
}

#[test]
fn shader_enumerants_match_the_driver_bindings() {
    assert_eq!(glenum::FRAGMENT_SHADER, gl::FRAGMENT_SHADER);
    assert_eq!(glenum::VERTEX_SHADER, gl::VERTEX_SHADER);
    assert_eq!(glenum::COMPILE_STATUS, gl::COMPILE_STATUS);
    assert_eq!(glenum::LINK_STATUS, gl::LINK_STATUS);
    assert_eq!(glenum::CURRENT_PROGRAM, gl::CURRENT_PROGRAM);
    assert_eq!(glenum::SHADER_COMPILER, gl::SHADER_COMPILER);
}

#[test]
fn texture_enumerants_match_the_driver_bindings() {
    assert_eq!(glenum::TEXTURE_2D, gl::TEXTURE_2D);
    assert_eq!(glenum::TEXTURE_BINDING_2D, gl::TEXTURE_BINDING_2D);
    assert_eq!(glenum::RGBA8, gl::RGBA8);
    assert_eq!(glenum::NEAREST, gl::NEAREST);
    assert_eq!(glenum::CLAMP_TO_EDGE, gl::CLAMP_TO_EDGE);
    assert_eq!(glenum::TEXTURE_MAG_FILTER, gl::TEXTURE_MAG_FILTER);
    assert_eq!(glenum::TEXTURE_MIN_FILTER, gl::TEXTURE_MIN_FILTER);
    assert_eq!(glenum::TEXTURE_WRAP_S, gl::TEXTURE_WRAP_S);
    assert_eq!(glenum::TEXTURE_WRAP_T, gl::TEXTURE_WRAP_T);
}

#[test]
fn framebuffer_enumerants_match_the_driver_bindings() {
    assert_eq!(glenum::FRAMEBUFFER, gl::FRAMEBUFFER);
    assert_eq!(glenum::RENDERBUFFER, gl::RENDERBUFFER);
    assert_eq!(glenum::FRAMEBUFFER_BINDING, gl::FRAMEBUFFER_BINDING);
    assert_eq!(glenum::RENDERBUFFER_BINDING, gl::RENDERBUFFER_BINDING);
    assert_eq!(glenum::COLOR_ATTACHMENT0, gl::COLOR_ATTACHMENT0);
    assert_eq!(glenum::DEPTH_ATTACHMENT, gl::DEPTH_ATTACHMENT);
    assert_eq!(glenum::DEPTH_COMPONENT, gl::DEPTH_COMPONENT);
    assert_eq!(glenum::COLOR_BUFFER_BIT, gl::COLOR_BUFFER_BIT);
    assert_eq!(glenum::DEPTH_BUFFER_BIT, gl::DEPTH_BUFFER_BIT);
    assert_eq!(glenum::MULTISAMPLE, gl::MULTISAMPLE);
}

#[test]
fn version_enumerants_match_the_driver_bindings() {
    assert_eq!(glenum::MAJOR_VERSION, gl::MAJOR_VERSION);
    assert_eq!(glenum::MINOR_VERSION, gl::MINOR_VERSION);
}

#[test]
fn binding_names_have_their_registry_values() {
    assert_eq!(glenum::TEXTURE_BINDING_2D, 0x8069);
    assert_eq!(glenum::FRAMEBUFFER_BINDING, 0x8CA6);
    assert_eq!(glenum::RENDERBUFFER_BINDING, 0x8CA7);
    assert_eq!(glenum::VERTEX_ARRAY_BINDING, 0x85B5);
    assert_eq!(glenum::ARRAY_BUFFER_BINDING, 0x8894);
    assert_eq!(glenum::ELEMENT_ARRAY_BUFFER_BINDING, 0x8895);
}
