use krane_cam::ioctl::{
    ioc, IOC_NONE, IOC_READ, IOC_WRITE, MEDIA_IOC_REQUEST_ALLOC, MEDIA_REQUEST_IOC_QUEUE,
    MEDIA_REQUEST_IOC_REINIT, VIDIOC_DQBUF, VIDIOC_QBUF, VIDIOC_QUERYBUF, VIDIOC_REQBUFS,
    VIDIOC_STREAMOFF, VIDIOC_STREAMON,
};

#[test]
fn ioc_matches_documented_request_codes() {
    assert_eq!(ioc(IOC_READ, b'|', 5, 4), 0x80047c05);
    assert_eq!(ioc(IOC_NONE, b'|', 0x80, 0), 0x00007c80);
    assert_eq!(ioc(IOC_NONE, b'|', 0x81, 0), 0x00007c81);
    assert_eq!(ioc(IOC_READ | IOC_WRITE, b'V', 8, 20), 0xc0145608);
    assert_eq!(ioc(IOC_READ | IOC_WRITE, b'V', 15, 88), 0xc058560f);
    assert_eq!(ioc(IOC_READ | IOC_WRITE, b'V', 17, 88), 0xc0585611);
}

#[test]
fn request_code_constants_are_their_encodings() {
    assert_eq!(VIDIOC_REQBUFS, ioc(IOC_READ | IOC_WRITE, b'V', 8, 20));
    assert_eq!(VIDIOC_QUERYBUF, ioc(IOC_READ | IOC_WRITE, b'V', 9, 88));
    assert_eq!(VIDIOC_QBUF, ioc(IOC_READ | IOC_WRITE, b'V', 15, 88));
    assert_eq!(VIDIOC_DQBUF, ioc(IOC_READ | IOC_WRITE, b'V', 17, 88));
    assert_eq!(VIDIOC_STREAMON, ioc(IOC_WRITE, b'V', 18, 4));
    assert_eq!(VIDIOC_STREAMOFF, ioc(IOC_WRITE, b'V', 19, 4));
    assert_eq!(MEDIA_IOC_REQUEST_ALLOC, ioc(IOC_READ, b'|', 5, 4));
    assert_eq!(MEDIA_REQUEST_IOC_QUEUE, ioc(IOC_NONE, b'|', 0x80, 0));
    assert_eq!(MEDIA_REQUEST_IOC_REINIT, ioc(IOC_NONE, b'|', 0x81, 0));
}

#[test]
fn ioc_fields_decode_back() {
    let code = ioc(IOC_READ | IOC_WRITE, 0x56, 9, 88);
    assert_eq!(code >> 30, 3);
    assert_eq!((code >> 16) & 0x3fff, 88);
    assert_eq!((code >> 8) & 0xff, 0x56);
    assert_eq!(code & 0xff, 9);
}
