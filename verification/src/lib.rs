//! Verified planning core of an OpenGL resource layer.
//!
//! The crate never talks to a graphics driver. Every operation that needs the
//! driver is expressed as a small state machine: the machine hands out a batch
//! of [`GlCommand`]s, the caller runs them in order and feeds the replies of
//! the queries among them back in. What the machines emit, and what they
//! conclude from the replies, is stated in their contracts and proved.

pub mod az_string;
pub mod binding;
pub mod bindings;
pub mod command;
pub mod context;
pub mod ctypes;
pub mod draw;
pub mod glenum;
pub mod identity;
pub mod resources;
pub mod shader;
pub mod text;
pub mod texture;
pub mod texture_cache;
pub mod uniform;
pub mod vertex;
pub mod vertex_buffer;

pub use crate::az_string::{
    str_to_bytes, string_vec_from_strings, string_vec_into_strings, AzString, StringVec, U8Vec,
};
pub use crate::binding::{BindingMode, BindingStage, LayoutBinding};
pub use crate::bindings::GlBindings;
pub use crate::command::{
    BufferSource, GlCommand, GlReply, GlReplyError, GlStep, MatrixValues, ShaderSourceRef,
};
pub use crate::context::{
    builtin_shader_source, AzDebugMessage, AzGlType, BuiltinShaders, ContextSetup, ContextStage,
    GetActiveAttribReturn, GetActiveUniformReturn, GetProgramBinaryReturn, GlApiVersion,
    GlShaderPrecisionFormatReturn,
};
pub use crate::ctypes::{
    c_char, c_int, c_long, c_longlong, c_schar, c_short, c_uchar, c_uint, c_ulong, c_ulonglong,
    c_ushort, wchar_t, GLbitfield, GLboolean, GLenum, GLint, GLint64, GLintptr, GLsizei,
    GLsizeiptr, GLuint, GLuint64,
};
pub use crate::draw::{DrawLayer, DrawPass, DrawStage, SavedGlState};
pub use crate::resources::{
    ColorU, DocumentId, Epoch, ExternalImageId, IdNamespace, ImageDescriptor,
    ImageDescriptorFlags, PhysicalSizeU32, RawImageFormat,
};
pub use crate::shader::{
    status_error, FragmentShaderCompileError, GlShader, GlShaderCompileError,
    GlShaderCreateError, GlShaderLinkError, ShaderBuild, ShaderStage, VertexShaderCompileError,
};
pub use crate::texture::{Texture, TextureFlags};
pub use crate::texture_cache::{
    get_opengl_texture, gl_textures_clear_opengl_cache, gl_textures_remove_active_pipeline,
    gl_textures_remove_epochs_from_pipeline, insert_into_active_gl_textures, GlTextureCache,
    TextureKey,
};
pub use crate::uniform::{Uniform, UniformType};
pub use crate::vertex::{
    IndexBufferFormat, TesselatedGPUSvgNode, VertexArrayObject, VertexAttribute,
    VertexAttributeType, VertexBuffer, VertexLayout, VertexLayoutDescription,
};
pub use crate::vertex_buffer::{SavedBufferBindings, VertexBufferBuild, VertexBufferStage};
