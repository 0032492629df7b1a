//! The place of one extension in the registry: its kind, and the instance
//! once there is one.

use vstd::prelude::*;
use crate::webgl_extensions::ext::oestexturefloat::OESTextureFloat;
use crate::webgl_extensions::ext::oesvertexarrayobject::OESVertexArrayObject;
use crate::webgl_extensions::extension::{ExtensionKind, ExtensionState};
use crate::webgl_extensions::manager::WebGLExtensionManager;

verus! {

/// Mathematical state of a wrapper.
pub struct WrapperState {
    pub kind: ExtensionKind,
    /// The instance, from the first successful request on.
    pub instance: Option<ExtensionState>,
}

impl WrapperState {
    /// A wrapper without an instance.
    pub open spec fn fresh(kind: ExtensionKind) -> WrapperState {
        WrapperState { kind, instance: None }
    }

    /// Support has two layers. Before there is an instance, the extension is
    /// supported if the driver's capabilities say so. Once there is one, it
    /// stays supported whatever the capabilities say.
    pub open spec fn is_supported(self, gl_extensions: Set<Seq<char>>) -> bool {
        self.instance is Some || self.kind.supported_by(gl_extensions)
    }

    /// The wrapper with an instance: the one it has, or else a fresh one.
    pub open spec fn instantiated(self) -> WrapperState {
        if self.instance is Some {
            self
        } else {
            WrapperState { instance: Some(self.kind.fresh_instance()), ..self }
        }
    }
}

/// One extension of the registry, with its lazily created instance.
pub enum WebGLExtensionWrapper {
    TextureFloat(Option<OESTextureFloat>),
    VertexArrayObject(Option<OESVertexArrayObject>),
}

impl View for WebGLExtensionWrapper {
    type V = WrapperState;

    open spec fn view(&self) -> WrapperState {
        match self {
            WebGLExtensionWrapper::TextureFloat(extension) => WrapperState {
                kind: ExtensionKind::TextureFloat,
                instance: match extension {
                    Some(_) => Some(ExtensionState::TextureFloat),
                    None => None,
                },
            },
            WebGLExtensionWrapper::VertexArrayObject(extension) => WrapperState {
                kind: ExtensionKind::VertexArrayObject,
                instance: match extension {
                    Some(instance) => Some(ExtensionState::VertexArrayObject(instance@)),
                    None => None,
                },
            },
        }
    }
}

impl WebGLExtensionWrapper {
    /// A wrapper for an extension of kind `kind`, without an instance.
    pub fn new(kind: ExtensionKind) -> (wrapper: WebGLExtensionWrapper)
        ensures
            wrapper@ == WrapperState::fresh(kind),
    {
        match kind {
            ExtensionKind::TextureFloat => WebGLExtensionWrapper::TextureFloat(None),
            ExtensionKind::VertexArrayObject => WebGLExtensionWrapper::VertexArrayObject(None),
        }
    }

    pub fn kind(&self) -> (kind: ExtensionKind)
        ensures
            kind == self@.kind,
    {
        match self {
            WebGLExtensionWrapper::TextureFloat(_) => ExtensionKind::TextureFloat,
            WebGLExtensionWrapper::VertexArrayObject(_) => ExtensionKind::VertexArrayObject,
        }
    }

    /// Whether the instance exists.
    pub fn is_instantiated(&self) -> (instantiated: bool)
        ensures
            instantiated == (self@.instance is Some),
    {
        match self {
            WebGLExtensionWrapper::TextureFloat(extension) => extension.is_some(),
            WebGLExtensionWrapper::VertexArrayObject(extension) => extension.is_some(),
        }
    }

    /// Makes sure that the instance exists, and tells whether this call
    /// created it. The caller owes the extension its one-time enabling
    /// exactly when it did.
    pub fn instance_or_init(&mut self) -> (created: bool)
        ensures
            final(self)@ == old(self)@.instantiated(),
            created == (old(self)@.instance is None),
    {
        match self {
            WebGLExtensionWrapper::TextureFloat(extension) => {
                if extension.is_none() {
                    *extension = Some(OESTextureFloat::new_inherited());
                    true
                } else {
                    false
                }
            },
            WebGLExtensionWrapper::VertexArrayObject(extension) => {
                if extension.is_none() {
                    *extension = Some(OESVertexArrayObject::new());
                    true
                } else {
                    false
                }
            },
        }
    }

    /// Whether scripts may have the extension: always once the instance
    /// exists, and before that if the driver that `manager` has probed
    /// supports it.
    pub fn is_supported(&self, manager: &WebGLExtensionManager) -> (supported: bool)
        ensures
            supported == self@.is_supported(manager@.gl_extensions),
    {
        self.is_instantiated() || self.kind().is_supported(manager)
    }

    pub fn name(&self) -> (name: &'static str)
        ensures
            name@ == self@.kind.spec_name(),
    {
        self.kind().name()
    }
}

} // verus!
