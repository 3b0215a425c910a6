//! The OpenGL enumerants that the command plans use, with the values the
//! OpenGL registry assigns to them.

use vstd::prelude::*;
use crate::ctypes::{GLbitfield, GLboolean, GLenum};

verus! {

pub const FALSE: GLboolean = 0;

pub const TRUE: GLboolean = 1;

pub const POINTS: GLenum = 0x0000;

pub const LINES: GLenum = 0x0001;

pub const LINE_STRIP: GLenum = 0x0003;

pub const TRIANGLES: GLenum = 0x0004;

pub const TRIANGLE_STRIP: GLenum = 0x0005;

pub const TRIANGLE_FAN: GLenum = 0x0006;

pub const DEPTH_BUFFER_BIT: GLbitfield = 0x0100;

pub const COLOR_BUFFER_BIT: GLbitfield = 0x4000;

pub const TEXTURE_2D: GLenum = 0x0DE1;

pub const UNSIGNED_BYTE: GLenum = 0x1401;

pub const UNSIGNED_SHORT: GLenum = 0x1403;

pub const UNSIGNED_INT: GLenum = 0x1405;

pub const FLOAT: GLenum = 0x1406;

pub const DOUBLE: GLenum = 0x140A;

pub const DEPTH_COMPONENT: GLenum = 0x1902;

pub const NEAREST: GLenum = 0x2600;

pub const TEXTURE_MAG_FILTER: GLenum = 0x2800;

pub const TEXTURE_MIN_FILTER: GLenum = 0x2801;

pub const TEXTURE_WRAP_S: GLenum = 0x2802;

pub const TEXTURE_WRAP_T: GLenum = 0x2803;

pub const RGBA8: GLenum = 0x8058;

pub const TEXTURE_BINDING_2D: GLenum = 0x8069;

pub const MULTISAMPLE: GLenum = 0x809D;

pub const CLAMP_TO_EDGE: GLenum = 0x812F;

pub const MAJOR_VERSION: GLenum = 0x821B;

pub const MINOR_VERSION: GLenum = 0x821C;

pub const VERTEX_ARRAY_BINDING: GLenum = 0x85B5;

pub const ARRAY_BUFFER: GLenum = 0x8892;

pub const ELEMENT_ARRAY_BUFFER: GLenum = 0x8893;

pub const ARRAY_BUFFER_BINDING: GLenum = 0x8894;

pub const ELEMENT_ARRAY_BUFFER_BINDING: GLenum = 0x8895;

pub const STATIC_DRAW: GLenum = 0x88E4;

pub const FRAGMENT_SHADER: GLenum = 0x8B30;

pub const VERTEX_SHADER: GLenum = 0x8B31;

pub const COMPILE_STATUS: GLenum = 0x8B81;

pub const LINK_STATUS: GLenum = 0x8B82;

pub const CURRENT_PROGRAM: GLenum = 0x8B8D;

pub const FRAMEBUFFER_BINDING: GLenum = 0x8CA6;

pub const RENDERBUFFER_BINDING: GLenum = 0x8CA7;

pub const COLOR_ATTACHMENT0: GLenum = 0x8CE0;

pub const DEPTH_ATTACHMENT: GLenum = 0x8D00;

pub const FRAMEBUFFER: GLenum = 0x8D40;

pub const RENDERBUFFER: GLenum = 0x8D41;

pub const SHADER_COMPILER: GLenum = 0x8DFA;

} // verus!
