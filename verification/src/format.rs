//! Image and vertex-attribute data formats.

use vstd::prelude::*;

verus! {

/// Represents different types of image/data formats.
#[derive(Debug, Clone, Copy, PartialEq, Eq, Structural)]
pub enum Format {
    /// Undefined format.
    Undefined,
    /// 128-bit format containing 32-bit Red, Green, Blue and Alpha components.
    R32G32B32A32SFLOAT,
    /// 96-bit format containing 32-bit Red, Green and Blue components.
    R32G32B32SFLOAT,
    /// 64-bit format containing 32-bit Red and Green components.
    R32G32SFLOAT,
    /// 32-bit format containing a single 32-bit Red component.
    R32SFLOAT,
    /// 32-bit format containing 8-bit Red, Green, Blue and Alpha components.
    R8G8B8A8SRGB,
    /// 32-bit format containing 8-bit Blue, Green, Red and Alpha components.
    B8G8R8A8SRGB,
    /// 32-bit format containing a single 32-bit depth component.
    D32SFLOAT,
}

impl Format {
    /// The number of bytes one texel of this format occupies, and 0 for the
    /// undefined format.
    pub open spec fn spec_texel_size(self) -> nat {
        match self {
            Format::Undefined => 0,
            Format::R32G32B32A32SFLOAT => 16,
            Format::R32G32B32SFLOAT => 12,
            Format::R32G32SFLOAT => 8,
            Format::R32SFLOAT => 4,
            Format::R8G8B8A8SRGB => 4,
            Format::B8G8R8A8SRGB => 4,
            Format::D32SFLOAT => 4,
        }
    }

    /// Returns the number of bytes one texel of this format occupies.
    pub fn texel_size(&self) -> (r: usize)
        ensures
            r == self.spec_texel_size(),
    {
        match self {
            Format::Undefined => 0,
            Format::R32G32B32A32SFLOAT => 16,
            Format::R32G32B32SFLOAT => 12,
            Format::R32G32SFLOAT => 8,
            Format::R32SFLOAT => 4,
            Format::R8G8B8A8SRGB => 4,
            Format::B8G8R8A8SRGB => 4,
            Format::D32SFLOAT => 4,
        }
    }

    /// Whether this format stores depth rather than color data.
    pub fn is_depth(&self) -> (r: bool)
        ensures
            r == (self is D32SFLOAT),
    {
        matches!(self, Format::D32SFLOAT)
    }
}

} // verus!
