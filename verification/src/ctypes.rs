//! Integer types of the OpenGL C interface.

use vstd::prelude::*;

verus! {

#[allow(non_camel_case_types)]
pub type c_char = i8;

#[allow(non_camel_case_types)]
pub type c_schar = i8;

#[allow(non_camel_case_types)]
pub type c_uchar = u8;

#[allow(non_camel_case_types)]
pub type c_short = i16;

#[allow(non_camel_case_types)]
pub type c_ushort = u16;

#[allow(non_camel_case_types)]
pub type c_int = i32;

#[allow(non_camel_case_types)]
pub type c_uint = u32;

#[allow(non_camel_case_types)]
pub type c_long = i32;

#[allow(non_camel_case_types)]
pub type c_ulong = u32;

#[allow(non_camel_case_types)]
pub type c_longlong = i64;

#[allow(non_camel_case_types)]
pub type c_ulonglong = u64;

#[allow(non_camel_case_types)]
pub type wchar_t = u16;

/// An OpenGL object name.
pub type GLuint = u32;

pub type GLint = i32;

pub type GLint64 = i64;

pub type GLuint64 = u64;

pub type GLenum = u32;

pub type GLintptr = isize;

pub type GLboolean = u8;

pub type GLsizeiptr = isize;

pub type GLbitfield = u32;

pub type GLsizei = i32;

} // verus!
