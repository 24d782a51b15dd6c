//! What the driver of the camera module hands over with a frame.

use crate::clock::Timestamp;
use crate::configuration::peripherals::camera::ImageSize;
use vstd::prelude::*;

verus! {

/// Why the camera module gave no image.
#[derive(Clone, Copy, Debug, PartialEq, Eq, Structural)]
pub enum CameraError {
    /// The driver had no frame buffer to hand out.
    NoFrameBuffer,
}

/// The time of capture, from the seconds and microseconds that the driver
/// records; nothing where the microseconds make up a second or more.
pub fn capture_timestamp(tv_sec: u64, tv_usec: u32) -> (r: Option<Timestamp>)
    ensures
        r.is_some() <==> tv_usec < 1_000_000,
        r matches Some(timestamp) ==> timestamp.spec_secs() == tv_sec
            && timestamp.spec_subsec_nanos() == tv_usec * 1000,
{
    if tv_usec < 1_000_000 {
        Timestamp::new(tv_sec, tv_usec * 1000)
    } else {
        None
    }
}

/// The size of a frame, from the width and height that the driver
/// records; nothing where one of them is beyond what a size can hold.
pub fn frame_size(width: usize, height: usize) -> (r: Option<ImageSize>)
    ensures
        r.is_some() <==> (width <= u16::MAX && height <= u16::MAX),
        r matches Some(size) ==> size.x == width && size.y == height,
{
    if width <= 0xffff && height <= 0xffff {
        Some(ImageSize { x: width as u16, y: height as u16 })
    } else {
        None
    }
}

} // verus!
