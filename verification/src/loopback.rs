//! The format a v4l2loopback output device was set to, and the checks a
//! frame passes before it is written there.

use vstd::prelude::*;
use crate::frame::YuyvFrame;

verus! {

/// Why a frame is not written to the loopback device.
#[derive(Debug, Clone, Copy, PartialEq, Eq, Structural)]
pub enum WriteError {
    /// The frame's dimensions differ from the device's.
    DimensionMismatch { expected_width: u32, expected_height: u32, width: u32, height: u32 },
    /// The data's size differs from the device's frame size.
    SizeMismatch { expected: usize, actual: usize },
}

/// Abstract contents of a [`LoopbackFormat`].
pub struct LoopbackFormatView {
    pub width: u32,
    pub height: u32,
    pub frame_size: usize,
}

/// The YUYV format a loopback device was set to.
#[derive(Debug, Clone, Copy)]
pub struct LoopbackFormat {
    width: u32,
    height: u32,
    frame_size: usize,
}

impl View for LoopbackFormat {
    type V = LoopbackFormatView;

    closed spec fn view(&self) -> LoopbackFormatView {
        LoopbackFormatView { width: self.width, height: self.height, frame_size: self.frame_size }
    }
}

impl LoopbackFormat {
    /// A frame holds two bytes per pixel, and that byte count fits in a
    /// `u32`.
    #[verifier::type_invariant]
    closed spec fn inv(self) -> bool {
        &&& self.width * self.height * 2 <= u32::MAX
        &&& self.frame_size == self.width * self.height * 2
    }

    /// The format of a device that accepted `width` x `height` YUYV frames
    /// (2 bytes per pixel).
    pub fn new(width: u32, height: u32) -> (f: Self)
        requires
            width * height * 2 <= u32::MAX,
        ensures
            f@.width == width,
            f@.height == height,
            f@.frame_size == width * height * 2,
    {
        let frame_size = (width * height * 2) as usize;
        LoopbackFormat { width, height, frame_size }
    }

    /// The configured width.
    pub fn width(&self) -> (w: u32)
        ensures
            w == self@.width,
    {
        self.width
    }

    /// The configured height.
    pub fn height(&self) -> (h: u32)
        ensures
            h == self@.height,
    {
        self.height
    }

    /// The expected frame size in bytes.
    pub fn frame_size(&self) -> (n: usize)
        ensures
            n == self@.frame_size,
            n == self@.width * self@.height * 2,
    {
        proof {
            use_type_invariant(self);
        }
        self.frame_size
    }

    /// Check a YUYV frame before it is written: its dimensions must be the
    /// device's. Since a frame's size follows from its dimensions, a frame
    /// with the right dimensions is never refused for its size.
    pub fn check_frame(&self, frame: &YuyvFrame) -> (r: Result<(), WriteError>)
        ensures
            (frame@.width == self@.width && frame@.height == self@.height) ==> r == Ok::<
                (),
                WriteError,
            >(()),
            !(frame@.width == self@.width && frame@.height == self@.height) ==> r == Err::<
                (),
                WriteError,
            >(
                WriteError::DimensionMismatch {
                    expected_width: self@.width,
                    expected_height: self@.height,
                    width: frame@.width,
                    height: frame@.height,
                },
            ),
    {
        proof {
            use_type_invariant(self);
        }
        if frame.width() != self.width || frame.height() != self.height {
            return Err(
                WriteError::DimensionMismatch {
                    expected_width: self.width,
                    expected_height: self.height,
                    width: frame.width(),
                    height: frame.height(),
                },
            );
        }
        let len = frame.byte_len();
        if len != self.frame_size {
            return Err(WriteError::SizeMismatch { expected: self.frame_size, actual: len });
        }
        Ok(())
    }

    /// Check raw frame data (a test pattern) of `len` bytes before it is
    /// written: it must be exactly one frame.
    pub fn check_raw(&self, len: usize) -> (r: Result<(), WriteError>)
        ensures
            len == self@.frame_size ==> r == Ok::<(), WriteError>(()),
            len != self@.frame_size ==> r == Err::<(), WriteError>(
                WriteError::SizeMismatch { expected: self@.frame_size, actual: len },
            ),
    {
        if len != self.frame_size {
            return Err(WriteError::SizeMismatch { expected: self.frame_size, actual: len });
        }
        Ok(())
    }
}

} // verus!
