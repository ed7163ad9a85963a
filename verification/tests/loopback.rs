use krane_cam::frame::YuyvFrame;
use krane_cam::loopback::{LoopbackFormat, WriteError};

#[test]
fn format_frame_size_is_two_bytes_per_pixel() {
    let format = LoopbackFormat::new(640, 480);
    assert_eq!(format.width(), 640);
    assert_eq!(format.height(), 480);
    assert_eq!(format.frame_size(), 640 * 480 * 2);
}

#[test]
fn frames_of_the_device_size_pass() {
    let format = LoopbackFormat::new(2, 2);
    let frame = YuyvFrame::new(vec![0; 8], 2, 2);
    assert_eq!(format.check_frame(&frame), Ok(()));
    assert_eq!(format.check_raw(8), Ok(()));
}

#[test]
fn mismatched_frames_are_refused() {
    let format = LoopbackFormat::new(2, 2);
    let wide = YuyvFrame::new(vec![0; 8], 4, 1);
    assert_eq!(
        format.check_frame(&wide),
        Err(WriteError::DimensionMismatch {
            expected_width: 2,
            expected_height: 2,
            width: 4,
            height: 1
        })
    );
    assert_eq!(format.check_raw(7), Err(WriteError::SizeMismatch { expected: 8, actual: 7 }));
}
