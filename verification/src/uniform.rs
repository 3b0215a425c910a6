//! Shader uniforms and the driver call that sets each kind of value.

use vstd::prelude::*;
use crate::az_string::AzString;
use crate::command::{GlCommand, MatrixValues};
use crate::ctypes::GLint;

verus! {

/// The value of a shader uniform.
///
/// Single-precision components are held as their bit patterns, so that two
/// values are the same exactly when they agree bit for bit.
#[derive(Debug, Copy, Clone, PartialEq, Eq, Hash)]
#[allow(inconsistent_fields)]
pub enum UniformType {
    Float(u32),
    FloatVec2([u32; 2]),
    FloatVec3([u32; 3]),
    FloatVec4([u32; 4]),
    Int(i32),
    IntVec2([i32; 2]),
    IntVec3([i32; 3]),
    IntVec4([i32; 4]),
    UnsignedInt(u32),
    UnsignedIntVec2([u32; 2]),
    UnsignedIntVec3([u32; 3]),
    UnsignedIntVec4([u32; 4]),
    Matrix2 { transpose: bool, matrix: [u32; 4] },
    Matrix3 { transpose: bool, matrix: [u32; 9] },
    Matrix4 { transpose: bool, matrix: [u32; 16] },
}

/// Whether two arrays of unsigned words hold the same elements.
fn same_words<const N: usize>(a: &[u32; N], b: &[u32; N]) -> (r: bool)
    ensures
        r == (*a == *b),
{
    let mut i: usize = 0;
    while i < N
        invariant
            i <= N,
            forall|j: int| 0 <= j < i ==> a[j] == b[j],
        decreases N - i,
    {
        if a[i] != b[i] {
            return false;
        }
        i += 1;
    }
    assert(*a =~= *b);
    true
}

/// Whether two arrays of signed words hold the same elements.
fn same_ints<const N: usize>(a: &[i32; N], b: &[i32; N]) -> (r: bool)
    ensures
        r == (*a == *b),
{
    let mut i: usize = 0;
    while i < N
        invariant
            i <= N,
            forall|j: int| 0 <= j < i ==> a[j] == b[j],
        decreases N - i,
    {
        if a[i] != b[i] {
            return false;
        }
        i += 1;
    }
    assert(*a =~= *b);
    true
}

impl UniformType {
    /// The driver call that stores this value at `location`.
    ///
    /// A matrix of any size goes through the call for matrices of two rows
    /// and columns, with all of its elements.
    pub open spec fn spec_set(self, location: GLint) -> GlCommand {
        match self {
            UniformType::Float(r) => GlCommand::Uniform1f { location, v0: r },
            UniformType::FloatVec2(v) => GlCommand::Uniform2f { location, v0: v[0], v1: v[1] },
            UniformType::FloatVec3(v) => GlCommand::Uniform3f {
                location,
                v0: v[0],
                v1: v[1],
                v2: v[2],
            },
            UniformType::FloatVec4(v) => GlCommand::Uniform4f {
                location,
                x: v[0],
                y: v[1],
                z: v[2],
                w: v[3],
            },
            UniformType::Int(r) => GlCommand::Uniform1i { location, v0: r },
            UniformType::IntVec2(v) => GlCommand::Uniform2i { location, v0: v[0], v1: v[1] },
            UniformType::IntVec3(v) => GlCommand::Uniform3i {
                location,
                v0: v[0],
                v1: v[1],
                v2: v[2],
            },
            UniformType::IntVec4(v) => GlCommand::Uniform4i {
                location,
                x: v[0],
                y: v[1],
                z: v[2],
                w: v[3],
            },
            UniformType::UnsignedInt(r) => GlCommand::Uniform1ui { location, v0: r },
            UniformType::UnsignedIntVec2(v) => GlCommand::Uniform2ui {
                location,
                v0: v[0],
                v1: v[1],
            },
            UniformType::UnsignedIntVec3(v) => GlCommand::Uniform3ui {
                location,
                v0: v[0],
                v1: v[1],
                v2: v[2],
            },
            UniformType::UnsignedIntVec4(v) => GlCommand::Uniform4ui {
                location,
                x: v[0],
                y: v[1],
                z: v[2],
                w: v[3],
            },
            UniformType::Matrix2 { transpose, matrix } => GlCommand::UniformMatrix2fv {
                location,
                transpose,
                value: MatrixValues::M2(matrix),
            },
            UniformType::Matrix3 { transpose, matrix } => GlCommand::UniformMatrix2fv {
                location,
                transpose,
                value: MatrixValues::M3(matrix),
            },
            UniformType::Matrix4 { transpose, matrix } => GlCommand::UniformMatrix2fv {
                location,
                transpose,
                value: MatrixValues::M4(matrix),
            },
        }
    }

    /// The driver call that stores this value at `location`.
    pub fn set(self, location: GLint) -> (c: GlCommand)
        ensures
            c == self.spec_set(location),
    {
        match self {
            UniformType::Float(r) => GlCommand::Uniform1f { location, v0: r },
            UniformType::FloatVec2(v) => GlCommand::Uniform2f { location, v0: v[0], v1: v[1] },
            UniformType::FloatVec3(v) => GlCommand::Uniform3f {
                location,
                v0: v[0],
                v1: v[1],
                v2: v[2],
            },
            UniformType::FloatVec4(v) => GlCommand::Uniform4f {
                location,
                x: v[0],
                y: v[1],
                z: v[2],
                w: v[3],
            },
            UniformType::Int(r) => GlCommand::Uniform1i { location, v0: r },
            UniformType::IntVec2(v) => GlCommand::Uniform2i { location, v0: v[0], v1: v[1] },
            UniformType::IntVec3(v) => GlCommand::Uniform3i {
                location,
                v0: v[0],
                v1: v[1],
                v2: v[2],
            },
            UniformType::IntVec4(v) => GlCommand::Uniform4i {
                location,
                x: v[0],
                y: v[1],
                z: v[2],
                w: v[3],
            },
            UniformType::UnsignedInt(r) => GlCommand::Uniform1ui { location, v0: r },
            UniformType::UnsignedIntVec2(v) => GlCommand::Uniform2ui {
                location,
                v0: v[0],
                v1: v[1],
            },
            UniformType::UnsignedIntVec3(v) => GlCommand::Uniform3ui {
                location,
                v0: v[0],
                v1: v[1],
                v2: v[2],
            },
            UniformType::UnsignedIntVec4(v) => GlCommand::Uniform4ui {
                location,
                x: v[0],
                y: v[1],
                z: v[2],
                w: v[3],
            },
            UniformType::Matrix2 { transpose, matrix } => GlCommand::UniformMatrix2fv {
                location,
                transpose,
                value: MatrixValues::M2(matrix),
            },
            UniformType::Matrix3 { transpose, matrix } => GlCommand::UniformMatrix2fv {
                location,
                transpose,
                value: MatrixValues::M3(matrix),
            },
            UniformType::Matrix4 { transpose, matrix } => GlCommand::UniformMatrix2fv {
                location,
                transpose,
                value: MatrixValues::M4(matrix),
            },
        }
    }

    /// Whether `self` and `other` are the same kind of value with the same
    /// components.
    pub fn same_as(&self, other: &UniformType) -> (r: bool)
        ensures
            r == (*self == *other),
    {
        match (self, other) {
            (UniformType::Float(a), UniformType::Float(b)) => *a == *b,
            (UniformType::FloatVec2(a), UniformType::FloatVec2(b)) => same_words(a, b),
            (UniformType::FloatVec3(a), UniformType::FloatVec3(b)) => same_words(a, b),
            (UniformType::FloatVec4(a), UniformType::FloatVec4(b)) => same_words(a, b),
            (UniformType::Int(a), UniformType::Int(b)) => *a == *b,
            (UniformType::IntVec2(a), UniformType::IntVec2(b)) => same_ints(a, b),
            (UniformType::IntVec3(a), UniformType::IntVec3(b)) => same_ints(a, b),
            (UniformType::IntVec4(a), UniformType::IntVec4(b)) => same_ints(a, b),
            (UniformType::UnsignedInt(a), UniformType::UnsignedInt(b)) => *a == *b,
            (UniformType::UnsignedIntVec2(a), UniformType::UnsignedIntVec2(b)) => same_words(a, b),
            (UniformType::UnsignedIntVec3(a), UniformType::UnsignedIntVec3(b)) => same_words(a, b),
            (UniformType::UnsignedIntVec4(a), UniformType::UnsignedIntVec4(b)) => same_words(a, b),
            (
                UniformType::Matrix2 { transpose: ta, matrix: ma },
                UniformType::Matrix2 { transpose: tb, matrix: mb },
            ) => *ta == *tb && same_words(ma, mb),
            (
                UniformType::Matrix3 { transpose: ta, matrix: ma },
                UniformType::Matrix3 { transpose: tb, matrix: mb },
            ) => *ta == *tb && same_words(ma, mb),
            (
                UniformType::Matrix4 { transpose: ta, matrix: ma },
                UniformType::Matrix4 { transpose: tb, matrix: mb },
            ) => *ta == *tb && same_words(ma, mb),
            _ => false,
        }
    }
}

/// A named uniform of a shader program with the value to give it.
#[derive(Debug, Clone, PartialEq, Eq)]
pub struct Uniform {
    pub name: AzString,
    pub uniform_type: UniformType,
}

impl Uniform {
    /// A uniform of the given name and value.
    pub fn new(name: AzString, uniform_type: UniformType) -> (r: Uniform)
        ensures
            r.name == name,
            r.uniform_type == uniform_type,
    {
        Uniform { name, uniform_type }
    }
}

} // verus!
