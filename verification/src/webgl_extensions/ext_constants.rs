//! Internal formats that extensions bring in.

use vstd::prelude::*;

verus! {

pub const RGBA32F: u32 = 0x8814;

pub const RGB32F: u32 = 0x8815;

pub const RGBA16F: u32 = 0x881A;

pub const RGB16F: u32 = 0x881B;

} // verus!
