//! What the registry knows of each kind of extension: its name, when the
//! driver supports it, and what enabling it changes.

use vstd::prelude::*;
use crate::constants::{FLOAT, RGBA, VERTEX_ARRAY_BINDING_OES};
use crate::vertex_array::VertexArrayHandle;
use crate::webgl_extensions::ext::oestexturefloat::OESTextureFloat;
use crate::webgl_extensions::ext::oesvertexarrayobject::OESVertexArrayObject;
use crate::webgl_extensions::ext_constants::RGBA32F;
use crate::capabilities::any_listed;
use crate::webgl_extensions::manager::{
    ExtensionManagerState, QueryParameterHandler, WebGLExtensionManager,
};

verus! {

/// The kinds of extension that the registry knows.
#[derive(Clone, Copy, Debug, PartialEq, Eq, Hash, Structural)]
pub enum ExtensionKind {
    /// Textures of 32-bit floating point texels.
    TextureFloat,
    /// Vertex array objects.
    VertexArrayObject,
}

/// Mathematical state of the instance of an extension.
pub enum ExtensionState {
    TextureFloat,
    /// Holds the vertex array that is currently bound.
    VertexArrayObject(Option<VertexArrayHandle>),
}

impl ExtensionState {
    pub open spec fn kind(self) -> ExtensionKind {
        match self {
            ExtensionState::TextureFloat => ExtensionKind::TextureFloat,
            ExtensionState::VertexArrayObject(_) => ExtensionKind::VertexArrayObject,
        }
    }
}

impl ExtensionKind {
    /// The name under which scripts ask for the extension.
    pub open spec fn spec_name(self) -> Seq<char> {
        match self {
            ExtensionKind::TextureFloat => "OES_texture_float"@,
            ExtensionKind::VertexArrayObject => "OES_vertex_array_object"@,
        }
    }

    /// The key under which the registry files the extension: its name in
    /// upper case.
    pub open spec fn spec_key(self) -> Seq<char> {
        match self {
            ExtensionKind::TextureFloat => "OES_TEXTURE_FLOAT"@,
            ExtensionKind::VertexArrayObject => "OES_VERTEX_ARRAY_OBJECT"@,
        }
    }

    /// The driver capabilities of which any one makes the extension
    /// available.
    pub open spec fn gl_names(self) -> Seq<Seq<char>> {
        match self {
            ExtensionKind::TextureFloat => seq!["GL_OES_texture_float"@, "GL_ARB_texture_float"@],
            ExtensionKind::VertexArrayObject => seq![
                "GL_OES_vertex_array_object"@,
                "GL_ARB_vertex_array_object"@,
                "GL_APPLE_vertex_array_object"@,
            ],
        }
    }

    /// Whether a driver with the capabilities `gl_extensions` supports the
    /// extension.
    pub open spec fn supported_by(self, gl_extensions: Set<Seq<char>>) -> bool {
        any_listed(gl_extensions, self.gl_names())
    }

    /// The instance of the extension right after its creation.
    pub open spec fn fresh_instance(self) -> ExtensionState {
        match self {
            ExtensionKind::TextureFloat => ExtensionState::TextureFloat,
            ExtensionKind::VertexArrayObject => ExtensionState::VertexArrayObject(None),
        }
    }

    /// The registry after the one-time effect of enabling the extension.
    ///
    /// Float textures: texels of type `FLOAT` become usable; on a driver
    /// that lacks `GL_OES_texture_float` proper, `RGBA` float textures are
    /// stored as `RGBA32F`, which keeps values from being clamped.
    ///
    /// Vertex array objects: the query for the current vertex array binding
    /// gets its handler.
    pub open spec fn enabled(self, state: ExtensionManagerState) -> ExtensionManagerState {
        match self {
            ExtensionKind::TextureFloat => {
                let usable = state.textures.enable_tex_type(FLOAT);
                ExtensionManagerState {
                    textures: if state.gl_extensions.contains("GL_OES_texture_float"@) {
                        usable
                    } else {
                        usable.add_effective_tex_internal_format(RGBA, FLOAT, RGBA32F)
                    },
                    ..state
                }
            },
            ExtensionKind::VertexArrayObject => ExtensionManagerState {
                query_parameter_handlers: state.query_parameter_handlers.insert(
                    VERTEX_ARRAY_BINDING_OES,
                    QueryParameterHandler::VertexArrayBinding,
                ),
                ..state
            },
        }
    }

    pub fn name(self) -> (name: &'static str)
        ensures
            name@ == self.spec_name(),
    {
        match self {
            ExtensionKind::TextureFloat => OESTextureFloat::name(),
            ExtensionKind::VertexArrayObject => OESVertexArrayObject::name(),
        }
    }

    pub fn key(self) -> (key: &'static str)
        ensures
            key@ == self.spec_key(),
    {
        match self {
            ExtensionKind::TextureFloat => "OES_TEXTURE_FLOAT",
            ExtensionKind::VertexArrayObject => "OES_VERTEX_ARRAY_OBJECT",
        }
    }

    /// Whether the driver that `manager` has probed supports the extension.
    pub fn is_supported(self, manager: &WebGLExtensionManager) -> (supported: bool)
        ensures
            supported == self.supported_by(manager@.gl_extensions),
    {
        match self {
            ExtensionKind::TextureFloat => OESTextureFloat::is_supported(manager),
            ExtensionKind::VertexArrayObject => OESVertexArrayObject::is_supported(manager),
        }
    }

    /// Applies the effect of enabling the extension to `manager`.
    pub fn enable(self, manager: &mut WebGLExtensionManager)
        ensures
            final(manager)@ == self.enabled(old(manager)@),
    {
        match self {
            ExtensionKind::TextureFloat => OESTextureFloat::enable(manager),
            ExtensionKind::VertexArrayObject => OESVertexArrayObject::enable(manager),
        }
    }
}

/// Extensions of different kinds have different names.
pub proof fn lemma_names_differ(a: ExtensionKind, b: ExtensionKind)
    requires
        a != b,
    ensures
        a.spec_name() != b.spec_name(),
{
    reveal_strlit("OES_texture_float");
    reveal_strlit("OES_vertex_array_object");
    assert("OES_texture_float"@.len() != "OES_vertex_array_object"@.len());
}

/// Extensions of different kinds are filed under different keys.
pub proof fn lemma_keys_differ(a: ExtensionKind, b: ExtensionKind)
    requires
        a != b,
    ensures
        a.spec_key() != b.spec_key(),
{
    reveal_strlit("OES_TEXTURE_FLOAT");
    reveal_strlit("OES_VERTEX_ARRAY_OBJECT");
    assert("OES_TEXTURE_FLOAT"@.len() != "OES_VERTEX_ARRAY_OBJECT"@.len());
}

} // verus!
