use std::collections::hash_map::DefaultHasher;
use std::collections::HashSet;
use std::hash::{Hash, Hasher};

use azul_gl::identity::{order_of_names, order_of_statuses};
use azul_gl::{
    AzGlType, AzString, FragmentShaderCompileError, GlShader, GlShaderCompileError,
    GlShaderCreateError, GlShaderLinkError, IndexBufferFormat, PhysicalSizeU32, RawImageFormat,
    Texture, TextureFlags, VertexArrayObject, VertexBuffer, VertexLayout,
    VertexShaderCompileError,
};
use std::cmp::Ordering;

fn digest<T: Hash>(value: &T) -> u64 {
    let mut hasher = DefaultHasher::new();
    value.hash(&mut hasher);
    hasher.finish()
}

fn texture(texture_id: u32, width: u32) -> Texture {
    Texture {
        texture_id,
        format: RawImageFormat::RGBA8,
        flags: TextureFlags::default(),
        size: PhysicalSizeU32::new(width, 1),
    }
}

fn buffer(vertex_buffer_id: u32, index_buffer_id: u32) -> VertexBuffer {
    VertexBuffer {
        vertex_buffer_id,
        vertex_buffer_len: index_buffer_id as usize,
        vao: VertexArrayObject { vertex_layout: VertexLayout { fields: vec![] }, vao_id: 0 },
        index_buffer_id,
        index_buffer_len: 0,
        index_buffer_format: IndexBufferFormat::Points,
    }
}

#[test]
fn names_are_ordered_as_numbers() {
    assert_eq!(order_of_names(1, 2), Ordering::Less);
    assert_eq!(order_of_names(2, 2), Ordering::Equal);
    assert_eq!(order_of_names(u32::MAX, 0), Ordering::Greater);
    assert_eq!(order_of_statuses(-1, 0), Ordering::Less);
    assert_eq!(order_of_statuses(0, 0), Ordering::Equal);
    assert_eq!(order_of_statuses(i32::MAX, i32::MIN), Ordering::Greater);
}

#[test]
fn textures_are_ordered_and_hashed_by_their_name() {
    assert_eq!(texture(1, 5).partial_cmp(&texture(2, 1)), Some(Ordering::Less));
    assert_eq!(texture(2, 5).partial_cmp(&texture(2, 1)), Some(Ordering::Equal));
    assert_eq!(texture(3, 5).partial_cmp(&texture(2, 9)), Some(Ordering::Greater));
    assert!(texture(1, 5) < texture(2, 1));
    assert_eq!(digest(&texture(7, 1)), digest(&texture(7, 2)));
    assert_eq!(digest(&texture(7, 1)), digest(&7u32));
    let mut set = HashSet::new();
    set.insert(texture(7, 1));
    assert!(set.contains(&texture(7, 99)));
    assert!(!set.contains(&texture(8, 1)));
}

#[test]
fn vertex_buffers_are_ordered_and_hashed_by_their_name() {
    assert_eq!(buffer(1, 9).partial_cmp(&buffer(2, 1)), Some(Ordering::Less));
    assert_eq!(buffer(2, 9).partial_cmp(&buffer(2, 1)), Some(Ordering::Equal));
    assert_eq!(buffer(3, 1).partial_cmp(&buffer(2, 9)), Some(Ordering::Greater));
    assert_eq!(digest(&buffer(7, 1)), digest(&buffer(7, 2)));
    assert_eq!(digest(&buffer(7, 1)), digest(&7u32));
}

#[test]
fn shader_programs_are_ordered_and_hashed_by_their_name() {
    assert!(GlShader { program_id: 1 } < GlShader { program_id: 2 });
    assert_eq!(digest(&GlShader { program_id: 7 }), digest(&7u32));
}

#[test]
fn errors_are_ordered_and_hashed_by_their_status() {
    let vertex =
        |error_id: i32, log: &str| VertexShaderCompileError { error_id, info_log: AzString::from_str(log) };
    let fragment = |error_id: i32, log: &str| FragmentShaderCompileError {
        error_id,
        info_log: AzString::from_str(log),
    };
    let link =
        |error_id: i32, log: &str| GlShaderLinkError { error_id, info_log: AzString::from_str(log) };
    assert_eq!(vertex(-1, "z").partial_cmp(&vertex(0, "a")), Some(Ordering::Less));
    assert_eq!(vertex(0, "z").partial_cmp(&vertex(0, "a")), Some(Ordering::Equal));
    assert_eq!(fragment(1, "a").partial_cmp(&fragment(0, "z")), Some(Ordering::Greater));
    assert_eq!(link(5, "a").partial_cmp(&link(5, "b")), Some(Ordering::Equal));
    assert_eq!(digest(&vertex(3, "a")), digest(&vertex(3, "b")));
    assert_eq!(digest(&fragment(3, "a")), digest(&3i32));
    assert_eq!(digest(&link(-3, "a")), digest(&-3i32));
    let compile = |e| GlShaderCreateError::Compile(e);
    assert!(
        compile(GlShaderCompileError::Vertex(vertex(9, "")))
            < compile(GlShaderCompileError::Fragment(fragment(0, "")))
    );
    assert!(compile(GlShaderCompileError::Vertex(vertex(9, ""))) < GlShaderCreateError::Link(link(0, "")));
    assert!(GlShaderCreateError::Link(link(0, "")) < GlShaderCreateError::NoShaderCompiler);
    assert_eq!(
        digest(&compile(GlShaderCompileError::Vertex(vertex(1, "a")))),
        digest(&compile(GlShaderCompileError::Vertex(vertex(1, "b"))))
    );
}

#[test]
fn the_interface_family_is_taken_from_the_driver_binding() {
    assert_eq!(AzGlType::from(gleam::gl::GlType::Gl), AzGlType::Gl);
    assert_eq!(AzGlType::from(gleam::gl::GlType::Gles), AzGlType::Gles);
}
