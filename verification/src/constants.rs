//! The fixed directory layout of the asset tree: where generated shader
//! sources are written, where compiled artifacts land, and the shader
//! include directories handed to the external compiler.
use vstd::prelude::*;

verus! {

/// Directory that generated shader sources are written into.
pub const GENERATED_SHADERS_DIR: &'static str = "assets/shaders/.generated";

/// Directory that compiled shader artifacts are written into.
pub const COMPILED_SHADERS_DIR: &'static str = "assets/shaders/.compiled";

/// User-asset include directory for the math utilities.
pub const MATH_UTILS_DIR: &'static str = "assets/shaders/math_utils";

/// User-asset include directory for the 2D signed-distance-field library.
pub const SDF2D_DIR: &'static str = "assets/shaders/sdf2d";

/// Built-in core include directory for the math utilities.
pub const MATH_UTILS_CORE_DIR: &'static str = "assets/shaders/.core/math_utils";

/// Built-in core include directory for the 2D signed-distance-field library.
pub const SDF2D_CORE_DIR: &'static str = "assets/shaders/.core/sdf2d";

} // verus!
