//! Optional capabilities of a context: the registry that negotiates them
//! against the driver, and the extensions it knows.

pub mod ext;
pub mod ext_constants;
pub mod extension;
pub mod manager;
pub mod wrapper;

pub use self::extension::ExtensionKind;
pub use self::manager::WebGLExtensionManager;
