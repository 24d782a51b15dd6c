//! The controller on a camera board of the ESP32 family: the settings of
//! the camera module, the choices made for the board, and the values that
//! its drivers hand over.

pub mod customization;
pub mod frame_buffer;
pub mod settings;
pub mod time_source;

pub use customization::Customization;
pub use frame_buffer::CameraError;
pub use settings::CameraGrabMode;
pub use settings::FrameBufferLocation;
pub use settings::FrameSize;
pub use settings::PixelFormat;
