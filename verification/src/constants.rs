//! The numeric names of the graphics API that this crate refers to.

use vstd::prelude::*;

verus! {

/// Texel data type: 32-bit floating point.
pub const FLOAT: u32 = 0x1406;

/// Texel data type: 16-bit floating point.
pub const HALF_FLOAT: u32 = 0x8D61;

/// Texture format: red, green, blue.
pub const RGB: u32 = 0x1907;

/// Texture format: red, green, blue, alpha.
pub const RGBA: u32 = 0x1908;

/// Buffer target: vertex attributes.
pub const ARRAY_BUFFER: u32 = 0x8892;

/// Buffer target: vertex indices.
pub const ELEMENT_ARRAY_BUFFER: u32 = 0x8893;

/// Context parameter: the vertex array object that is currently bound.
pub const VERTEX_ARRAY_BINDING_OES: u32 = 0x85B5;

} // verus!
