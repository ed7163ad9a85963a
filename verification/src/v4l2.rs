//! Plain-value forms of the V4L2 structures that capture fills in: the
//! buffer request and the timecode. (The kernel ABI layout of these, and of
//! the structures that hold pointers or unions, belongs to the code that
//! performs the ioctls.)

use vstd::prelude::*;
use crate::ioctl::{V4L2_BUF_TYPE_VIDEO_CAPTURE_MPLANE, V4L2_MEMORY_MMAP};

verus! {

/// V4L2 request buffers structure (`struct v4l2_requestbuffers`).
#[derive(Debug, Clone, Copy)]
pub struct V4l2Requestbuffers {
    pub count: u32,
    pub type_: u32,
    pub memory: u32,
    pub capabilities: u32,
    pub flags: u8,
    pub reserved: [u8; 3],
}

impl Default for V4l2Requestbuffers {
    /// All fields zero.
    fn default() -> (r: Self)
        ensures
            r.count == 0 && r.type_ == 0 && r.memory == 0 && r.capabilities == 0 && r.flags == 0,
            r.reserved@ == seq![0u8, 0u8, 0u8],
    {
        let r = V4l2Requestbuffers {
            count: 0,
            type_: 0,
            memory: 0,
            capabilities: 0,
            flags: 0,
            reserved: [0u8; 3],
        };
        assert(r.reserved@ =~= seq![0u8, 0u8, 0u8]);
        r
    }
}

impl V4l2Requestbuffers {
    /// A request for `count` memory-mapped multiplanar capture buffers, all
    /// other fields zero. A count of 0 frees the buffers of the queue.
    pub fn mmap_capture(count: u32) -> (r: Self)
        ensures
            r.count == count,
            r.type_ == V4L2_BUF_TYPE_VIDEO_CAPTURE_MPLANE,
            r.memory == V4L2_MEMORY_MMAP,
            r.capabilities == 0,
            r.flags == 0,
            r.reserved@ == seq![0u8, 0u8, 0u8],
    {
        let mut r = V4l2Requestbuffers::default();
        r.count = count;
        r.type_ = V4L2_BUF_TYPE_VIDEO_CAPTURE_MPLANE;
        r.memory = V4L2_MEMORY_MMAP;
        r
    }
}

/// V4L2 timecode structure (`struct v4l2_timecode`).
#[derive(Debug, Clone, Copy)]
pub struct V4l2Timecode {
    pub type_: u32,
    pub flags: u32,
    pub frames: u8,
    pub seconds: u8,
    pub minutes: u8,
    pub hours: u8,
    pub userbits: [u8; 4],
}

impl Default for V4l2Timecode {
    /// All fields zero.
    fn default() -> (t: Self)
        ensures
            t.type_ == 0 && t.flags == 0 && t.frames == 0 && t.seconds == 0 && t.minutes == 0
                && t.hours == 0,
            t.userbits@ == seq![0u8, 0u8, 0u8, 0u8],
    {
        let t = V4l2Timecode {
            type_: 0,
            flags: 0,
            frames: 0,
            seconds: 0,
            minutes: 0,
            hours: 0,
            userbits: [0u8; 4],
        };
        assert(t.userbits@ =~= seq![0u8, 0u8, 0u8, 0u8]);
        t
    }
}

} // verus!
