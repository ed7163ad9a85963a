use krane_cam::camera::{
    is_supported_sensor, loopback_dimensions, pipeline_commands, SENSOR_HEIGHT, SENSOR_WIDTH,
};

#[test]
fn only_the_rear_sensor_is_supported() {
    assert!(is_supported_sensor("ov8856 2-0010"));
    assert!(is_supported_sensor("ov8856"));
    assert!(!is_supported_sensor("ov02a10 4-003d"));
    assert!(!is_supported_sensor(""));
}

#[test]
fn loopback_is_half_the_sensor() {
    assert_eq!(loopback_dimensions(SENSOR_WIDTH, SENSOR_HEIGHT), (1640, 1232));
    assert_eq!(loopback_dimensions(5, 3), (2, 1));
}

#[test]
fn pipeline_commands_for_the_ov8856() {
    let cmds = pipeline_commands("/dev/media0", "/dev/video1", "ov8856 2-0010", 3280, 2464);
    let expected: Vec<Vec<&str>> = vec![
        vec!["media-ctl", "-d", "/dev/media0", "-l", "'ov8856 2-0010':0 -> '1a040000.seninf':0 [1]"],
        vec!["media-ctl", "-d", "/dev/media0", "-V", "'ov8856 2-0010':0 [fmt:SGRBG10_1X10/3280x2464]"],
        vec!["media-ctl", "-d", "/dev/media0", "-V", "'1a040000.seninf':0 [fmt:SGRBG10_1X10/3280x2464]"],
        vec!["media-ctl", "-d", "/dev/media0", "-V", "'1a040000.seninf':4 [fmt:SGRBG10_1X10/3280x2464]"],
        vec!["v4l2-ctl", "-d", "/dev/video1", "--set-fmt-video", "width=3280,height=2464,pixelformat=MBg8"],
    ];
    assert_eq!(cmds, expected);
}

#[test]
fn pipeline_commands_format_zero_and_large_sizes() {
    let cmds = pipeline_commands("m", "v", "s", 0, 4294967295);
    assert_eq!(cmds[2][4], "'1a040000.seninf':0 [fmt:SGRBG10_1X10/0x4294967295]");
    assert_eq!(cmds[4][4], "width=0,height=4294967295,pixelformat=MBg8");
}
