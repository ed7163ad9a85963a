use krane_cam::media::{parse_isp_media_device, parse_main_stream_device, parse_sensor_name, CameraDevices};

const LIST_DEVICES: &str = "mtk-jpeg-enc (platform:17030000.venc_jpg):\n\t/dev/video10\n\nmtk-cam-p1 (platform:1a000000.camisp):\n\t/dev/video0\n\t/dev/video1\n\t/dev/media0\n\nmtk-fd-4.0 (platform:1502b000.fd):\n\t/dev/media1\n";

const TOPOLOGY: &str = "Media controller API version 5.10.0\n\n- entity 1: mtk-cam-p1 meta input (1 pad, 1 link)\n            type Node subtype V4L flags 0\n            device node name /dev/video0\n\n- entity 7: mtk-cam-p1 main stream (1 pad, 1 link)\n            type Node subtype V4L flags 0\n            device node name /dev/video12\n\n- entity 56: ov8856 2-0010 (1 pad, 1 link)\n             type V4L2 subdev subtype Sensor flags 0\n";

#[test]
fn finds_the_isp_media_device() {
    assert_eq!(parse_isp_media_device(LIST_DEVICES), Some("/dev/media0".to_string()));
}

#[test]
fn isp_section_ends_at_the_next_heading() {
    let text = "mtk-cam-p1 (platform:1a000000.camisp):\n\t/dev/video0\nother (x):\n\t/dev/media4\n";
    assert_eq!(parse_isp_media_device(text), None);
    assert_eq!(parse_isp_media_device(""), None);
    let crlf = "mtk-cam-p1 (p):\r\n\t/dev/media2\r\n";
    assert_eq!(parse_isp_media_device(crlf), Some("/dev/media2".to_string()));
}

#[test]
fn finds_the_main_stream_device() {
    assert_eq!(parse_main_stream_device(TOPOLOGY), Some("/dev/video12".to_string()));
}

#[test]
fn main_stream_block_ends_at_the_next_entity() {
    let text = "- entity 7: mtk-cam-p1 main stream (1 pad)\n  - entity 9: other\n  device node name /dev/video3\n";
    assert_eq!(parse_main_stream_device(text), None);
    let bare = "- entity 7: x main stream\n device node name /dev/video\n";
    assert_eq!(parse_main_stream_device(bare), Some("/dev/video".to_string()));
}

#[test]
fn finds_the_sensor_name() {
    assert_eq!(parse_sensor_name(TOPOLOGY), Some("ov8856 2-0010".to_string()));
    let front = "- entity 60: ov02a10 4-003d (1 pad, 1 link)\n";
    assert_eq!(parse_sensor_name(front), Some("ov02a10 4-003d".to_string()));
    assert_eq!(parse_sensor_name("- entity 3: imx219 (x)\n"), None);
    assert_eq!(parse_sensor_name("entity ov8856 (x): y\n"), None);
}

#[test]
fn camera_devices_hold_the_discovered_names() {
    let devices = CameraDevices {
        video_device: "/dev/video12".to_string(),
        media_device: "/dev/media0".to_string(),
        sensor_name: "ov8856 2-0010".to_string(),
    };
    let copy = devices.clone();
    assert_eq!(copy.video_device, "/dev/video12");
    assert_eq!(copy.media_device, "/dev/media0");
    assert_eq!(copy.sensor_name, "ov8856 2-0010");
}
