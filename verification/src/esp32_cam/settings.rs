//! The settings of the camera module.

use vstd::prelude::*;

verus! {

/// How the pixels of an image are laid out.
#[derive(Clone, Copy, Debug, PartialEq, Eq, Structural)]
pub enum PixelFormat {
    /// 2BPP/RGB565
    RGB565,
    /// 2BPP/YUV422
    YUV422,
    /// 1.5BPP/YUV420
    YUV420,
    /// 1BPP/GRAYSCALE
    GRAYSCALE,
    /// JPEG/COMPRESSED
    JPEG,
    /// 3BPP/RGB888
    RGB888,
    /// RAW
    RAW,
    /// 3BP2P/RGB444
    RGB444,
    /// 3BP2P/RGB555
    RGB555,
}

/// The size of the images that the module takes.
#[allow(non_camel_case_types)]
#[derive(Clone, Copy, Debug, PartialEq, Eq, Structural)]
pub enum FrameSize {
    /// 96x96
    Size96X96,
    /// 160x120
    QQVGA,
    /// 176x144
    QCIF,
    /// 240x176
    HQVGA,
    /// 240x240
    Size240X240,
    /// 320x240
    QVGA,
    /// 400x296
    CIF,
    /// 480x320
    HVGA,
    /// 640x480
    VGA,
    /// 800x600
    SVGA,
    /// 1024x768
    XGA,
    /// 1280x720
    HD,
    /// 1280x1024
    SXGA,
    /// 1600x1200
    UXGA,
    /// 1920x1080
    FHD,
    /// 720x1280
    P_HD,
    /// 864x1536
    P_3MP,
    /// 2048x1536
    QXGA,
    /// 2560x1440
    QHD,
    /// 2560x1600
    WQXGA,
    /// 1080x1920
    P_FHD,
    /// 2560x1920
    QSXGA,
    /// Invalid
    INVALID,
}

/// When the module fills its frame buffers.
#[derive(Clone, Copy, Debug, PartialEq, Eq, Structural)]
pub enum CameraGrabMode {
    /// Fills buffers when they are empty. Less resources but the first
    /// frames might be old.
    WhenEmpty,
    /// Except when one frame buffer is used, the queue always holds the
    /// last frames.
    Latest,
}

/// Where the frame buffers are placed.
#[derive(Clone, Copy, Debug, PartialEq, Eq, Structural)]
pub enum FrameBufferLocation {
    /// In external PSRAM.
    PSRAM,
    /// In internal DRAM.
    DRAM,
}

} // verus!
