//! The extensions that the registry knows.

pub mod oestexturefloat;
pub mod oesvertexarrayobject;
