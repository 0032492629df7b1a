//! Textures of 32-bit floating point texels.

use vstd::prelude::*;
use crate::capabilities::str_views;
use crate::constants::{FLOAT, RGBA};
use crate::webgl_extensions::ext_constants::RGBA32F;
use crate::webgl_extensions::extension::ExtensionKind;
use crate::webgl_extensions::manager::WebGLExtensionManager;

verus! {

/// The instance of the float texture extension. It has no state of its own:
/// what it brings shows in the texture capabilities of the registry.
#[derive(Debug)]
pub struct OESTextureFloat {}

impl OESTextureFloat {
    /// The instance of the extension.
    pub fn new_inherited() -> OESTextureFloat {
        OESTextureFloat {  }
    }

    /// Supported where the driver lists the extension itself or the desktop
    /// extension that covers it.
    pub fn is_supported(manager: &WebGLExtensionManager) -> (supported: bool)
        ensures
            supported == ExtensionKind::TextureFloat.supported_by(manager@.gl_extensions),
    {
        let names: [&str; 2] = ["GL_OES_texture_float", "GL_ARB_texture_float"];
        let supported = manager.supports_any_gl_extension(names.as_slice());
        proof {
            let listed = ExtensionKind::TextureFloat.gl_names();
            assert(str_views(names@) =~= listed);
        }
        supported
    }

    /// Makes `FLOAT` texels usable. Where the driver lacks
    /// `GL_OES_texture_float` proper, `RGBA` float textures are stored as
    /// `RGBA32F`, which keeps values from being clamped.
    pub fn enable(manager: &mut WebGLExtensionManager)
        ensures
            final(manager)@ == ExtensionKind::TextureFloat.enabled(old(manager)@),
    {
        manager.enable_tex_type(FLOAT);
        let needs_replace = !manager.supports_gl_extension("GL_OES_texture_float");
        if needs_replace {
            manager.add_effective_tex_internal_format(RGBA, FLOAT, RGBA32F);
        }
    }

    pub fn name() -> (name: &'static str)
        ensures
            name@ == ExtensionKind::TextureFloat.spec_name(),
    {
        "OES_texture_float"
    }
}

} // verus!
