//! ioctl request codes, built as the Linux kernel's `_IOC` macro builds
//! them, and the V4L2 / media-request constants that capture uses.

use vstd::prelude::*;

verus! {

/// No data transfer.
pub const IOC_NONE: u32 = 0;

/// Userspace writes to the kernel.
pub const IOC_WRITE: u32 = 1;

/// Userspace reads from the kernel.
pub const IOC_READ: u32 = 2;

/// `VIDIOC_REQBUFS`: `_IOWR('V', 8, struct v4l2_requestbuffers)` (20 bytes).
pub const VIDIOC_REQBUFS: libc::c_ulong = 0xc014_5608;

/// `VIDIOC_QUERYBUF`: `_IOWR('V', 9, struct v4l2_buffer)` (88 bytes on 64-bit).
pub const VIDIOC_QUERYBUF: libc::c_ulong = 0xc058_5609;

/// `VIDIOC_QBUF`: `_IOWR('V', 15, struct v4l2_buffer)`.
pub const VIDIOC_QBUF: libc::c_ulong = 0xc058_560f;

/// `VIDIOC_DQBUF`: `_IOWR('V', 17, struct v4l2_buffer)`.
pub const VIDIOC_DQBUF: libc::c_ulong = 0xc058_5611;

/// `VIDIOC_STREAMON`: `_IOW('V', 18, int)`.
pub const VIDIOC_STREAMON: libc::c_ulong = 0x4004_5612;

/// `VIDIOC_STREAMOFF`: `_IOW('V', 19, int)`.
pub const VIDIOC_STREAMOFF: libc::c_ulong = 0x4004_5613;

/// `MEDIA_IOC_REQUEST_ALLOC`: `_IOR('|', 5, int)`.
pub const MEDIA_IOC_REQUEST_ALLOC: libc::c_ulong = 0x8004_7c05;

/// `MEDIA_REQUEST_IOC_QUEUE`: `_IO('|', 0x80)`.
pub const MEDIA_REQUEST_IOC_QUEUE: libc::c_ulong = 0x7c80;

/// `MEDIA_REQUEST_IOC_REINIT`: `_IO('|', 0x81)`.
pub const MEDIA_REQUEST_IOC_REINIT: libc::c_ulong = 0x7c81;

/// `V4L2_BUF_TYPE_VIDEO_CAPTURE_MPLANE`.
pub const V4L2_BUF_TYPE_VIDEO_CAPTURE_MPLANE: u32 = 9;

/// `V4L2_MEMORY_MMAP`.
pub const V4L2_MEMORY_MMAP: u32 = 1;

/// `V4L2_BUF_FLAG_REQUEST_FD`.
pub const V4L2_BUF_FLAG_REQUEST_FD: u32 = 0x0080_0000;

/// `V4L2_FIELD_NONE`.
pub const V4L2_FIELD_NONE: u32 = 1;

/// The kernel's `_IOC` layout: direction in bits 30 and up, argument size
/// in bits 16..30, type in bits 8..16, number in bits 0..8.
pub open spec fn ioc_spec(dir: u32, type_: u8, nr: u8, size: usize) -> libc::c_ulong {
    ((dir as libc::c_ulong) << 30u64) | ((size as libc::c_ulong) << 16u64) | ((type_ as libc::c_ulong)
        << 8u64) | (nr as libc::c_ulong)
}

/// Build an ioctl request code (matching the Linux kernel `_IOC` macro).
pub fn ioc(dir: u32, type_: u8, nr: u8, size: usize) -> (code: libc::c_ulong)
    ensures
        code == ioc_spec(dir, type_, nr, size),
{
    ((dir as libc::c_ulong) << 30u64) | ((size as libc::c_ulong) << 16u64) | ((type_ as libc::c_ulong)
        << 8u64) | (nr as libc::c_ulong)
}

/// With a 2-bit direction and a 14-bit size, the fields occupy disjoint
/// bits: the code is their weighted sum, and the kernel's `_IOC_DIR`,
/// `_IOC_SIZE`, `_IOC_TYPE` and `_IOC_NR` decoders give each field back.
pub proof fn lemma_ioc_fields(dir: u32, type_: u8, nr: u8, size: usize)
    requires
        dir < 4,
        size < 0x4000,
    ensures
        ioc_spec(dir, type_, nr, size) == dir * 0x4000_0000 + size * 0x1_0000 + type_ * 0x100 + nr,
        ioc_spec(dir, type_, nr, size) >> 30u64 == dir,
        (ioc_spec(dir, type_, nr, size) >> 16u64) & 0x3fff == size,
        (ioc_spec(dir, type_, nr, size) >> 8u64) & 0xff == type_,
        ioc_spec(dir, type_, nr, size) & 0xff == nr,
{
    let d = dir as u64;
    let s = size as u64;
    let t = type_ as u64;
    let n = nr as u64;
    assert(d < 4 && s < 0x4000 && t < 0x100 && n < 0x100 ==> {
        let c = (d << 30u64) | (s << 16u64) | (t << 8u64) | n;
        &&& c == d * 0x4000_0000 + s * 0x1_0000 + t * 0x100 + n
        &&& c >> 30u64 == d
        &&& (c >> 16u64) & 0x3fff == s
        &&& (c >> 8u64) & 0xff == t
        &&& c & 0xff == n
    }) by (bit_vector);
}

/// Each request code is the `_IOC` encoding of its direction, type
/// (`'V'` = 0x56 for V4L2, `'|'` = 0x7c for media), number and argument size.
pub proof fn lemma_request_codes()
    ensures
        VIDIOC_REQBUFS == ioc_spec(IOC_READ | IOC_WRITE, 0x56, 8, 20),
        VIDIOC_QUERYBUF == ioc_spec(IOC_READ | IOC_WRITE, 0x56, 9, 88),
        VIDIOC_QBUF == ioc_spec(IOC_READ | IOC_WRITE, 0x56, 15, 88),
        VIDIOC_DQBUF == ioc_spec(IOC_READ | IOC_WRITE, 0x56, 17, 88),
        VIDIOC_STREAMON == ioc_spec(IOC_WRITE, 0x56, 18, 4),
        VIDIOC_STREAMOFF == ioc_spec(IOC_WRITE, 0x56, 19, 4),
        MEDIA_IOC_REQUEST_ALLOC == ioc_spec(IOC_READ, 0x7c, 5, 4),
        MEDIA_REQUEST_IOC_QUEUE == ioc_spec(IOC_NONE, 0x7c, 0x80, 0),
        MEDIA_REQUEST_IOC_REINIT == ioc_spec(IOC_NONE, 0x7c, 0x81, 0),
{
    assert(IOC_READ | IOC_WRITE == 3u32) by (bit_vector);
    lemma_ioc_fields(3, 0x56, 8, 20);
    lemma_ioc_fields(3, 0x56, 9, 88);
    lemma_ioc_fields(3, 0x56, 15, 88);
    lemma_ioc_fields(3, 0x56, 17, 88);
    lemma_ioc_fields(1, 0x56, 18, 4);
    lemma_ioc_fields(1, 0x56, 19, 4);
    lemma_ioc_fields(2, 0x7c, 5, 4);
    lemma_ioc_fields(0, 0x7c, 0x80, 0);
    lemma_ioc_fields(0, 0x7c, 0x81, 0);
}

} // verus!
