//! Vertex layouts and the buffers that hold vertices and indices.

use vstd::prelude::*;
use crate::az_string::AzString;
use crate::command::GlCommand;
use crate::ctypes::GLuint;
use crate::glenum;
use crate::identity::{order_of_names, name_order};
use crate::text::{push_decimal_u64, spec_decimal_nat};
use vstd::string::StringExecFns;

verus! {

/// The type of one component of a vertex attribute.
#[derive(Debug, Copy, Clone, PartialEq, Eq, Structural, PartialOrd, Ord, Hash)]
pub enum VertexAttributeType {
    /// Single-precision number.
    Float,
    /// Double-precision number.
    Double,
    /// `u8`
    UnsignedByte,
    /// `u16`
    UnsignedShort,
    /// `u32`
    UnsignedInt,
}

impl VertexAttributeType {
    /// The driver's enumerant for the component type.
    pub open spec fn spec_gl_id(self) -> GLuint {
        match self {
            VertexAttributeType::Float => glenum::FLOAT,
            VertexAttributeType::Double => glenum::DOUBLE,
            VertexAttributeType::UnsignedByte => glenum::UNSIGNED_BYTE,
            VertexAttributeType::UnsignedShort => glenum::UNSIGNED_SHORT,
            VertexAttributeType::UnsignedInt => glenum::UNSIGNED_INT,
        }
    }

    /// The size of one component in bytes.
    pub open spec fn spec_mem_size(self) -> usize {
        match self {
            VertexAttributeType::Float => 4,
            VertexAttributeType::Double => 8,
            VertexAttributeType::UnsignedByte => 1,
            VertexAttributeType::UnsignedShort => 2,
            VertexAttributeType::UnsignedInt => 4,
        }
    }

    /// The driver's enumerant for the component type, such as
    /// `UNSIGNED_BYTE` for `UnsignedByte`.
    pub fn get_gl_id(&self) -> (id: GLuint)
        ensures
            id == self.spec_gl_id(),
    {
        match self {
            VertexAttributeType::Float => glenum::FLOAT,
            VertexAttributeType::Double => glenum::DOUBLE,
            VertexAttributeType::UnsignedByte => glenum::UNSIGNED_BYTE,
            VertexAttributeType::UnsignedShort => glenum::UNSIGNED_SHORT,
            VertexAttributeType::UnsignedInt => glenum::UNSIGNED_INT,
        }
    }

    /// The size of one component in bytes.
    pub fn get_mem_size(&self) -> (size: usize)
        ensures
            size == self.spec_mem_size(),
    {
        match self {
            VertexAttributeType::Float => 4,
            VertexAttributeType::Double => 8,
            VertexAttributeType::UnsignedByte => 1,
            VertexAttributeType::UnsignedShort => 2,
            VertexAttributeType::UnsignedInt => 4,
        }
    }
}

/// One attribute of a vertex.
#[derive(Debug, Clone, PartialEq, Eq, PartialOrd, Ord, Hash)]
pub struct VertexAttribute {
    /// Name of the attribute in the vertex shader.
    pub name: AzString,
    /// Where the vertex shader fixes the attribute's location, that location;
    /// it is then used in place of a lookup by name.
    pub layout_location: Option<usize>,
    /// Type of the attribute's components.
    pub attribute_type: VertexAttributeType,
    /// Number of components.
    pub item_count: usize,
}

impl VertexAttribute {
    /// The size of the attribute in bytes, as a mathematical integer.
    pub open spec fn spec_stride(&self) -> int {
        self.attribute_type.spec_mem_size() * self.item_count
    }

    /// The size of the attribute in bytes.
    pub fn get_stride(&self) -> (stride: usize)
        requires
            self.spec_stride() <= usize::MAX,
        ensures
            stride == self.spec_stride(),
    {
        self.attribute_type.get_mem_size() * self.item_count
    }

    /// The size of the attribute in bytes, or `None` where it does not fit
    /// the machine's word.
    pub fn checked_stride(&self) -> (stride: Option<usize>)
        ensures
            stride is Some <==> self.spec_stride() <= usize::MAX,
            stride is Some ==> stride->0 == self.spec_stride(),
    {
        self.attribute_type.get_mem_size().checked_mul(self.item_count)
    }
}

/// The attributes of one vertex, in the order in which they lie in memory.
#[derive(Debug, Clone, PartialEq, Eq, PartialOrd, Ord, Hash)]
pub struct VertexLayout {
    pub fields: Vec<VertexAttribute>,
}

/// A vertex type that can say how it is laid out.
pub trait VertexLayoutDescription {
    fn get_description() -> VertexLayout;
}

/// How the indices of an index buffer form primitives.
#[derive(Debug, Copy, Clone, PartialEq, Eq, Structural, PartialOrd, Ord, Hash)]
pub enum IndexBufferFormat {
    Points,
    Lines,
    LineStrip,
    Triangles,
    TriangleStrip,
    TriangleFan,
}

impl IndexBufferFormat {
    /// The driver's enumerant for the primitive mode.
    pub open spec fn spec_gl_id(self) -> GLuint {
        match self {
            IndexBufferFormat::Points => glenum::POINTS,
            IndexBufferFormat::Lines => glenum::LINES,
            IndexBufferFormat::LineStrip => glenum::LINE_STRIP,
            IndexBufferFormat::Triangles => glenum::TRIANGLES,
            IndexBufferFormat::TriangleStrip => glenum::TRIANGLE_STRIP,
            IndexBufferFormat::TriangleFan => glenum::TRIANGLE_FAN,
        }
    }

    /// The driver's enumerant for the primitive mode, such as
    /// `TRIANGLE_STRIP` for `TriangleStrip`.
    pub fn get_gl_id(&self) -> (id: GLuint)
        ensures
            id == self.spec_gl_id(),
    {
        match self {
            IndexBufferFormat::Points => glenum::POINTS,
            IndexBufferFormat::Lines => glenum::LINES,
            IndexBufferFormat::LineStrip => glenum::LINE_STRIP,
            IndexBufferFormat::Triangles => glenum::TRIANGLES,
            IndexBufferFormat::TriangleStrip => glenum::TRIANGLE_STRIP,
            IndexBufferFormat::TriangleFan => glenum::TRIANGLE_FAN,
        }
    }
}

/// A vertex array object of the driver with the layout that was bound to it.
#[derive(Debug, PartialEq, Eq, PartialOrd, Ord, Hash)]
pub struct VertexArrayObject {
    pub vertex_layout: VertexLayout,
    pub vao_id: GLuint,
}

impl VertexArrayObject {
    /// The commands that give the vertex array object back to the driver.
    pub fn delete_commands(&self) -> (c: Vec<GlCommand>)
        ensures
            c@ == seq![GlCommand::DeleteVertexArrays { vertex_array: self.vao_id }],
    {
        vec![GlCommand::DeleteVertexArrays { vertex_array: self.vao_id }]
    }
}

/// A vertex buffer and an index buffer of the driver, filled and described.
#[derive(Debug, Eq)]
pub struct VertexBuffer {
    pub vertex_buffer_id: GLuint,
    pub vertex_buffer_len: usize,
    pub vao: VertexArrayObject,
    pub index_buffer_id: GLuint,
    pub index_buffer_len: usize,
    pub index_buffer_format: IndexBufferFormat,
}

impl PartialEq for VertexBuffer {
    fn eq(&self, other: &VertexBuffer) -> (r: bool) {
        self.vertex_buffer_id == other.vertex_buffer_id
    }
}

impl vstd::std_specs::cmp::PartialEqSpecImpl for VertexBuffer {
    open spec fn obeys_eq_spec() -> bool {
        true
    }

    /// Two vertex buffers are equal when they name the same buffer object.
    open spec fn eq_spec(&self, other: &VertexBuffer) -> bool {
        self.vertex_buffer_id == other.vertex_buffer_id
    }
}

impl core::hash::Hash for VertexBuffer {
    fn hash<H: core::hash::Hasher>(&self, state: &mut H) {
        self.vertex_buffer_id.hash(state)
    }
}

impl PartialOrd for VertexBuffer {
    fn partial_cmp(&self, other: &VertexBuffer) -> (r: Option<core::cmp::Ordering>) {
        Some(order_of_names(self.vertex_buffer_id, other.vertex_buffer_id))
    }
}

impl vstd::std_specs::cmp::PartialOrdSpecImpl for VertexBuffer {
    open spec fn obeys_partial_cmp_spec() -> bool {
        true
    }

    /// Vertex buffers are ordered by the names of their buffer objects.
    open spec fn partial_cmp_spec(&self, other: &VertexBuffer) -> Option<core::cmp::Ordering> {
        Some(name_order(self.vertex_buffer_id, other.vertex_buffer_id))
    }
}

impl VertexBuffer {
    /// The buffer's name and length as text.
    pub open spec fn spec_to_string(&self) -> Seq<char> {
        "VertexBuffer { buffer: "@ + spec_decimal_nat(self.vertex_buffer_id as nat)
            + " (length: "@ + spec_decimal_nat(self.vertex_buffer_len as nat) + ") })"@
    }

    /// The buffer's name and length as text, such as
    /// `VertexBuffer { buffer: 3 (length: 12) })`.
    pub fn to_string(&self) -> (text: String)
        ensures
            text@ == self.spec_to_string(),
    {
        let mut text = String::new();
        text.append("VertexBuffer { buffer: ");
        push_decimal_u64(&mut text, self.vertex_buffer_id as u64);
        text.append(" (length: ");
        push_decimal_u64(&mut text, self.vertex_buffer_len as u64);
        text.append(") })");
        assert(text@ =~= self.spec_to_string());
        text
    }

    /// The commands that give the two buffer objects back to the driver. The
    /// vertex array object is deleted separately.
    pub fn delete_commands(&self) -> (c: Vec<GlCommand>)
        ensures
            c@ == seq![
                GlCommand::DeleteBuffers {
                    first: self.vertex_buffer_id,
                    second: self.index_buffer_id,
                },
            ],
    {
        vec![
            GlCommand::DeleteBuffers {
                first: self.vertex_buffer_id,
                second: self.index_buffer_id,
            },
        ]
    }
}

/// A tessellated shape whose vertices and indices are on the GPU.
#[derive(Debug, PartialEq, Eq, PartialOrd, Hash)]
pub struct TesselatedGPUSvgNode {
    pub vertex_index_buffer: VertexBuffer,
}

} // verus!
