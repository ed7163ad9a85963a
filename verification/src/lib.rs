//! Frame processing, test patterns and device-protocol logic for the
//! MT8183 (Kukui "Krane") camera service.

pub mod frame;
pub mod pattern;
pub mod ioctl;
pub mod text;
pub mod media;
pub mod capture;
pub mod loopback;
pub mod camera;
pub mod v4l2;
