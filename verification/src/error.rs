//! What can go wrong in the world core.

use vstd::prelude::*;

verus! {

/// The failures of the world core. Each concerns one chunk and leaves every
/// other chunk usable.
#[derive(Clone, Copy, Debug, PartialEq, Eq, Structural)]
pub enum Error {
    /// Every slot of the palette is taken: the voxel was not registered.
    PaletteFull,
    /// A voxel to be meshed has a texture mapping that does not resolve to
    /// a single tile: no mesh was built for its chunk.
    UnsupportedTextureMapping,
}

impl Error {
    /// A sentence that describes the failure.
    pub fn message(&self) -> (text: &'static str)
        ensures
            text@ == match *self {
                Error::PaletteFull => "palette is full"@,
                Error::UnsupportedTextureMapping => "unsupported texture mapping"@,
            },
    {
        match self {
            Error::PaletteFull => "palette is full",
            Error::UnsupportedTextureMapping => "unsupported texture mapping",
        }
    }
}

} // verus!
