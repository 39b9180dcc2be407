//! Shader program linking, type-checked uniform resolution and uniform value
//! marshalling over a graphics driver whose uniform API is untyped.

pub mod bracket;
pub mod linker;
pub mod marshal;
pub mod matcher;
pub mod resolver;
pub mod types;
