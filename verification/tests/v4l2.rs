use krane_cam::ioctl::{V4L2_BUF_TYPE_VIDEO_CAPTURE_MPLANE, V4L2_MEMORY_MMAP};
use krane_cam::v4l2::{V4l2Requestbuffers, V4l2Timecode};

#[test]
fn request_for_mmap_capture_buffers() {
    let req = V4l2Requestbuffers::mmap_capture(4);
    assert_eq!(req.count, 4);
    assert_eq!(req.type_, V4L2_BUF_TYPE_VIDEO_CAPTURE_MPLANE);
    assert_eq!(req.type_, 9);
    assert_eq!(req.memory, V4L2_MEMORY_MMAP);
    assert_eq!(req.memory, 1);
    assert_eq!(req.capabilities, 0);
    assert_eq!(req.flags, 0);
    assert_eq!(req.reserved, [0, 0, 0]);
    assert_eq!(V4l2Requestbuffers::mmap_capture(0).count, 0);
}

#[test]
fn defaults_are_zero() {
    let req = V4l2Requestbuffers::default();
    assert_eq!((req.count, req.type_, req.memory, req.capabilities, req.flags), (0, 0, 0, 0, 0));
    let tc = V4l2Timecode::default();
    assert_eq!((tc.type_, tc.flags, tc.frames, tc.seconds, tc.minutes, tc.hours), (0, 0, 0, 0, 0, 0));
    assert_eq!(tc.userbits, [0, 0, 0, 0]);
}
