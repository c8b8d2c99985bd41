//! A GPU texture as the overlays see it: a handle and its size in pixels.

use crate::raster::Raster;
use vstd::prelude::*;

verus! {

/// A texture that lives on the render thread. The library never looks
/// behind the handle; it only carries it from creation to drawing.
#[derive(Debug, PartialEq, Eq)]
pub struct Texture {
    handle: u64,
    width: u32,
    height: u32,
}

impl Texture {
    pub closed spec fn spec_handle(&self) -> u64 {
        self.handle
    }

    pub closed spec fn spec_width(&self) -> u32 {
        self.width
    }

    pub closed spec fn spec_height(&self) -> u32 {
        self.height
    }

    /// Describes the texture that the host made of an image, under the
    /// handle that the host gave for it.
    pub fn new(handle: u64, image: &Raster) -> (texture: Texture)
        ensures
            texture.spec_handle() == handle,
            texture.spec_width() == image@.width,
            texture.spec_height() == image@.height,
    {
        Texture { handle, width: image.width(), height: image.height() }
    }

    /// The handle that the host gave for this texture.
    #[verifier::when_used_as_spec(spec_handle)]
    pub fn handle(&self) -> (h: u64)
        ensures
            h == self.spec_handle(),
    {
        self.handle
    }

    /// Width in pixels.
    #[verifier::when_used_as_spec(spec_width)]
    pub fn width(&self) -> (w: u32)
        ensures
            w == self.spec_width(),
    {
        self.width
    }

    /// Height in pixels.
    #[verifier::when_used_as_spec(spec_height)]
    pub fn height(&self) -> (h: u32)
        ensures
            h == self.spec_height(),
    {
        self.height
    }
}

} // verus!
