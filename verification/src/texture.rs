//! Textures as the renderer sees them.

use vstd::prelude::*;
use crate::command::GlCommand;
use crate::ctypes::GLuint;
use crate::identity::{order_of_names, name_order};
use crate::resources::{ImageDescriptor, ImageDescriptorFlags, PhysicalSizeU32, RawImageFormat};
use crate::text::{push_decimal_u64, spec_decimal_nat};
use vstd::string::StringExecFns;

verus! {

/// Hints for whoever draws a texture.
#[derive(Debug, Default, Copy, Clone, PartialEq, Eq, Structural, PartialOrd, Ord, Hash)]
pub struct TextureFlags {
    /// Whether the texture has no transparent pixels.
    pub is_opaque: bool,
    /// Whether a compositor may present the texture directly.
    pub is_video_texture: bool,
}

/// A texture object of the driver, with what is known of its contents.
///
/// Whoever holds the value owns the texture object and deletes it, with
/// [`Texture::delete_commands`], when the value goes away.
#[derive(Debug, Eq)]
pub struct Texture {
    /// The driver's name for the texture.
    pub texture_id: GLuint,
    /// Layout of one pixel.
    pub format: RawImageFormat,
    pub flags: TextureFlags,
    /// Size in pixels.
    pub size: PhysicalSizeU32,
}

impl PartialEq for Texture {
    fn eq(&self, other: &Texture) -> (r: bool) {
        self.texture_id == other.texture_id
    }
}

impl vstd::std_specs::cmp::PartialEqSpecImpl for Texture {
    open spec fn obeys_eq_spec() -> bool {
        true
    }

    /// Two textures are equal when they name the same texture object.
    open spec fn eq_spec(&self, other: &Texture) -> bool {
        self.texture_id == other.texture_id
    }
}

impl core::hash::Hash for Texture {
    fn hash<H: core::hash::Hasher>(&self, state: &mut H) {
        self.texture_id.hash(state)
    }
}

impl PartialOrd for Texture {
    fn partial_cmp(&self, other: &Texture) -> (r: Option<core::cmp::Ordering>) {
        Some(order_of_names(self.texture_id, other.texture_id))
    }
}

impl vstd::std_specs::cmp::PartialOrdSpecImpl for Texture {
    open spec fn obeys_partial_cmp_spec() -> bool {
        true
    }

    /// Textures are ordered by the names of their texture objects.
    open spec fn partial_cmp_spec(&self, other: &Texture) -> Option<core::cmp::Ordering> {
        Some(name_order(self.texture_id, other.texture_id))
    }
}

impl Texture {
    /// How the texture's pixels are laid out in memory. The texture is shown
    /// pixel for pixel, so mipmaps are never allowed.
    pub open spec fn spec_descriptor(&self) -> ImageDescriptor {
        ImageDescriptor {
            format: self.format,
            width: self.size.width as usize,
            height: self.size.height as usize,
            stride: None,
            offset: 0,
            flags: ImageDescriptorFlags { is_opaque: self.flags.is_opaque, allow_mipmaps: false },
        }
    }

    /// How the texture's pixels are laid out in memory.
    pub fn get_descriptor(&self) -> (d: ImageDescriptor)
        ensures
            d == self.spec_descriptor(),
    {
        ImageDescriptor {
            format: self.format,
            width: self.size.width as usize,
            height: self.size.height as usize,
            stride: None,
            offset: 0,
            flags: ImageDescriptorFlags { is_opaque: self.flags.is_opaque, allow_mipmaps: false },
        }
    }

    /// The texture's name and size as text.
    pub open spec fn spec_to_string(&self) -> Seq<char> {
        "Texture { id: "@ + spec_decimal_nat(self.texture_id as nat) + ", "@ + spec_decimal_nat(
            self.size.width as nat,
        ) + "x"@ + spec_decimal_nat(self.size.height as nat) + " }"@
    }

    /// The texture's name and size as text, such as
    /// `Texture { id: 5, 640x480 }`.
    pub fn to_string(&self) -> (text: String)
        ensures
            text@ == self.spec_to_string(),
    {
        let mut text = String::new();
        text.append("Texture { id: ");
        push_decimal_u64(&mut text, self.texture_id as u64);
        text.append(", ");
        push_decimal_u64(&mut text, self.size.width as u64);
        text.append("x");
        push_decimal_u64(&mut text, self.size.height as u64);
        text.append(" }");
        assert(text@ =~= self.spec_to_string());
        text
    }

    /// The commands that give the texture object back to the driver.
    pub fn delete_commands(&self) -> (c: Vec<GlCommand>)
        ensures
            c@ == seq![GlCommand::DeleteTextures { texture: self.texture_id }],
    {
        vec![GlCommand::DeleteTextures { texture: self.texture_id }]
    }
}

} // verus!
