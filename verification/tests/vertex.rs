use azul_gl::{
    AzString, GlCommand, GlShader, IndexBufferFormat, VertexArrayObject, VertexAttribute,
    VertexAttributeType, VertexBuffer, VertexLayout,
};
use gleam::gl;

fn attribute(name: &str, ty: VertexAttributeType, item_count: usize) -> VertexAttribute {
    VertexAttribute {
        name: AzString::from_str(name),
        layout_location: None,
        attribute_type: ty,
        item_count,
    }
}

#[test]
fn component_sizes_in_bytes() {
    assert_eq!(VertexAttributeType::Float.get_mem_size(), 4);
    assert_eq!(VertexAttributeType::Double.get_mem_size(), 8);
    assert_eq!(VertexAttributeType::UnsignedByte.get_mem_size(), 1);
    assert_eq!(VertexAttributeType::UnsignedShort.get_mem_size(), 2);
    assert_eq!(VertexAttributeType::UnsignedInt.get_mem_size(), 4);
}

#[test]
fn component_sizes_are_those_of_the_machine_types() {
    assert_eq!(VertexAttributeType::Float.get_mem_size(), std::mem::size_of::<f32>());
    assert_eq!(VertexAttributeType::Double.get_mem_size(), std::mem::size_of::<f64>());
    assert_eq!(VertexAttributeType::UnsignedByte.get_mem_size(), std::mem::size_of::<u8>());
    assert_eq!(VertexAttributeType::UnsignedShort.get_mem_size(), std::mem::size_of::<u16>());
    assert_eq!(VertexAttributeType::UnsignedInt.get_mem_size(), std::mem::size_of::<u32>());
}

#[test]
fn component_types_map_to_driver_enumerants() {
    assert_eq!(VertexAttributeType::Float.get_gl_id(), gl::FLOAT);
    assert_eq!(VertexAttributeType::Double.get_gl_id(), gl::DOUBLE);
    assert_eq!(VertexAttributeType::UnsignedByte.get_gl_id(), gl::UNSIGNED_BYTE);
    assert_eq!(VertexAttributeType::UnsignedShort.get_gl_id(), gl::UNSIGNED_SHORT);
    assert_eq!(VertexAttributeType::UnsignedInt.get_gl_id(), gl::UNSIGNED_INT);
}

#[test]
fn primitive_modes_map_to_driver_enumerants() {
    assert_eq!(IndexBufferFormat::Points.get_gl_id(), gl::POINTS);
    assert_eq!(IndexBufferFormat::Lines.get_gl_id(), gl::LINES);
    assert_eq!(IndexBufferFormat::LineStrip.get_gl_id(), gl::LINE_STRIP);
    assert_eq!(IndexBufferFormat::Triangles.get_gl_id(), gl::TRIANGLES);
    assert_eq!(IndexBufferFormat::TriangleStrip.get_gl_id(), gl::TRIANGLE_STRIP);
    assert_eq!(IndexBufferFormat::TriangleFan.get_gl_id(), gl::TRIANGLE_FAN);
}

#[test]
fn stride_is_component_size_times_count() {
    assert_eq!(attribute("a", VertexAttributeType::Float, 2).get_stride(), 8);
    assert_eq!(attribute("a", VertexAttributeType::Double, 3).get_stride(), 24);
    assert_eq!(attribute("a", VertexAttributeType::UnsignedByte, 4).get_stride(), 4);
    assert_eq!(attribute("a", VertexAttributeType::UnsignedShort, 5).get_stride(), 10);
    assert_eq!(attribute("a", VertexAttributeType::UnsignedInt, 0).get_stride(), 0);
}

#[test]
fn checked_stride_agrees_where_the_product_fits() {
    assert_eq!(attribute("a", VertexAttributeType::Float, 7).checked_stride(), Some(28));
    assert_eq!(
        attribute("a", VertexAttributeType::UnsignedByte, usize::MAX).checked_stride(),
        Some(usize::MAX)
    );
}

#[test]
fn checked_stride_is_none_where_the_product_is_too_large() {
    assert_eq!(attribute("a", VertexAttributeType::Float, usize::MAX).checked_stride(), None);
    assert_eq!(
        attribute("a", VertexAttributeType::UnsignedShort, usize::MAX / 2 + 1).checked_stride(),
        None
    );
    assert_eq!(
        attribute("a", VertexAttributeType::UnsignedShort, usize::MAX / 2).checked_stride(),
        Some(usize::MAX - 1)
    );
}

#[test]
fn total_stride_adds_up_the_attributes() {
    let layout = VertexLayout {
        fields: vec![
            attribute("xy", VertexAttributeType::Float, 2),
            attribute("rgba", VertexAttributeType::UnsignedByte, 4),
            attribute("depth", VertexAttributeType::Double, 1),
        ],
    };
    assert_eq!(layout.checked_total_stride(), Some(20));
    assert_eq!(VertexLayout { fields: vec![] }.checked_total_stride(), Some(0));
}

#[test]
fn total_stride_is_none_where_the_sum_is_too_large() {
    let layout = VertexLayout {
        fields: vec![
            attribute("a", VertexAttributeType::UnsignedByte, usize::MAX),
            attribute("b", VertexAttributeType::UnsignedByte, 1),
        ],
    };
    assert_eq!(layout.checked_total_stride(), None);
    let shader = GlShader { program_id: 1 };
    assert!(layout.bind(&shader).is_none());
}

#[test]
fn buffers_are_deleted_in_one_call_and_the_vertex_array_apart() {
    let buffer = VertexBuffer {
        vertex_buffer_id: 11,
        vertex_buffer_len: 3,
        vao: VertexArrayObject { vertex_layout: VertexLayout { fields: vec![] }, vao_id: 7 },
        index_buffer_id: 12,
        index_buffer_len: 3,
        index_buffer_format: IndexBufferFormat::Triangles,
    };
    assert_eq!(buffer.delete_commands(), vec![GlCommand::DeleteBuffers { first: 11, second: 12 }]);
    assert_eq!(
        buffer.vao.delete_commands(),
        vec![GlCommand::DeleteVertexArrays { vertex_array: 7 }]
    );
}

#[test]
fn vertex_buffers_compare_by_their_buffer_name() {
    let make = |vertex_buffer_id: u32, index_buffer_id: u32| VertexBuffer {
        vertex_buffer_id,
        vertex_buffer_len: 0,
        vao: VertexArrayObject { vertex_layout: VertexLayout { fields: vec![] }, vao_id: 0 },
        index_buffer_id,
        index_buffer_len: 0,
        index_buffer_format: IndexBufferFormat::Points,
    };
    assert!(make(1, 2) == make(1, 3));
    assert!(make(1, 2) != make(2, 2));
}
