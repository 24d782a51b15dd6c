//! The camera and the images it takes.

use crate::clock::Timestamp;
use core::fmt::Debug;
use vstd::prelude::*;

verus! {

/// The size of an image in pixels.
#[derive(Clone, Copy, Debug, PartialEq, Eq, Structural)]
pub struct ImageSize {
    pub x: u16,
    pub y: u16,
}

/// A camera that takes still images.
pub trait Camera {
    /// An image of this camera, which may borrow from the camera.
    type Image<'a>: Image where Self: 'a;

    /// What taking an image can fail with.
    type Error: Debug;

    /// Takes an image.
    fn get_image<'a>(&'a self) -> Result<Self::Image<'a>, Self::Error>;
}

/// An image as a camera hands it out.
pub trait Image {
    /// The bytes of the image.
    fn get_pixels(&self) -> &[u8];

    /// The size of the image.
    fn get_size(&self) -> ImageSize;

    /// When the image was taken.
    fn get_timestamp(&self) -> Timestamp;
}

} // verus!
