//! Resource lifecycle and capability negotiation for a WebGL-style context.
//!
//! The GPU objects themselves live in another process. This crate keeps the
//! local shadow state (buffers, vertex arrays, the extension registry) and
//! decides, for every operation, how that state changes and which command
//! has to be forwarded to the owner of the real resources. Forwarding is
//! left to the caller: every operation hands back the commands it emits.

pub mod command;
pub mod constants;
pub mod buffer;
pub mod vertex_array;
pub mod attachments;
pub mod context;
pub mod capabilities;
pub mod text;
pub mod textures;
pub mod webgl_extensions;
