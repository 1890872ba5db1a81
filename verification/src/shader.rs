//! Shader-variant selection for the one-time renderer initialization.
//!
//! At adapter construction the host reports its GPU's shading-language
//! version (major number plus an embedded-profile flag); exactly one
//! shader variant is chosen from a fixed ordered ladder. The choice is a
//! total, deterministic function of the two inputs: the embedded profile
//! takes precedence, and within each profile the highest matching
//! version wins.

use vstd::prelude::*;

verus! {

/// One of the fixed shader-language profiles the renderer can be built
/// with.
#[derive(Clone, Copy, Debug, PartialEq, Eq, Structural)]
pub enum ShaderVariant {
    GlSlEs300,
    GlSlEs100,
    GlSl400,
    GlSl130,
    GlSl110,
}

/// The selection ladder: embedded profile first (major >= 3 picks the
/// newer embedded variant), then desktop profile by descending version.
pub open spec fn spec_shader_variant(is_embedded: bool, major: u32) -> ShaderVariant {
    if is_embedded {
        if major >= 3 {
            ShaderVariant::GlSlEs300
        } else {
            ShaderVariant::GlSlEs100
        }
    } else if major >= 4 {
        ShaderVariant::GlSl400
    } else if major >= 3 {
        ShaderVariant::GlSl130
    } else {
        ShaderVariant::GlSl110
    }
}

/// Select the shader variant for the reported shading-language
/// capabilities. Total: every input pair matches exactly one branch.
pub fn select_shader_variant(is_embedded: bool, major: u32) -> (variant: ShaderVariant)
    ensures
        variant == spec_shader_variant(is_embedded, major),
{
    if is_embedded {
        if major >= 3 {
            ShaderVariant::GlSlEs300
        } else {
            ShaderVariant::GlSlEs100
        }
    } else if major >= 4 {
        ShaderVariant::GlSl400
    } else if major >= 3 {
        ShaderVariant::GlSl130
    } else {
        ShaderVariant::GlSl110
    }
}

} // verus!
