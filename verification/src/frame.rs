//! Frame types for camera capture and output.
//!
//! Strongly-typed wrappers for raw Bayer and YUYV frame data, and the
//! conversion between them.

use vstd::prelude::*;

verus! {

/// Bayer color filter array pattern.
#[derive(Debug, Clone, Copy, PartialEq, Eq, Structural)]
pub enum BayerPattern {
    /// Green-Red / Blue-Green (the OV8856 on the MT8183 uses this)
    GRBG,
    /// Red-Green / Green-Blue
    RGGB,
    /// Blue-Green / Green-Red
    BGGR,
    /// Green-Blue / Red-Green
    GBRG,
}

/// Abstract contents of a [`BayerFrame`].
pub struct BayerFrameView {
    pub data: Seq<u8>,
    pub width: u32,
    pub height: u32,
    pub pattern: BayerPattern,
}

/// A raw Bayer frame captured from the camera sensor: one byte per pixel,
/// row-major, `width * height` bytes.
#[derive(Debug)]
pub struct BayerFrame {
    data: Vec<u8>,
    width: u32,
    height: u32,
    pattern: BayerPattern,
}

impl View for BayerFrame {
    type V = BayerFrameView;

    closed spec fn view(&self) -> BayerFrameView {
        BayerFrameView {
            data: self.data@,
            width: self.width,
            height: self.height,
            pattern: self.pattern,
        }
    }
}

impl Clone for BayerFrame {
    fn clone(&self) -> (res: Self)
        ensures
            res@ == self@,
    {
        proof {
            use_type_invariant(self);
        }
        let data = self.data.clone();
        assert(data@ =~= self.data@);
        BayerFrame { data, width: self.width, height: self.height, pattern: self.pattern }
    }
}

impl BayerFrame {
    /// The buffer holds exactly one byte per pixel, and the pixel count fits
    /// in a `u32`.
    #[verifier::type_invariant]
    closed spec fn inv(self) -> bool {
        &&& self.width * self.height <= u32::MAX
        &&& self.data@.len() == self.width * self.height
    }

    /// Create a new frame from raw data.
    ///
    /// The pixel count `width * height` must fit in a `u32` and the data
    /// must hold exactly one byte per pixel.
    pub fn new(data: Vec<u8>, width: u32, height: u32, pattern: BayerPattern) -> (frame: Self)
        requires
            width * height <= u32::MAX,
            data@.len() == width * height,
        ensures
            frame@.data == data@,
            frame@.width == width,
            frame@.height == height,
            frame@.pattern == pattern,
    {
        BayerFrame { data, width, height, pattern }
    }

    /// Raw frame data: one byte per pixel.
    pub fn data(&self) -> (d: &[u8])
        ensures
            d@ == self@.data,
            d@.len() == self@.width * self@.height,
    {
        proof {
            use_type_invariant(self);
        }
        self.data.as_slice()
    }

    /// Frame width in pixels.
    pub fn width(&self) -> (w: u32)
        ensures
            w == self@.width,
    {
        self.width
    }

    /// Frame height in pixels.
    pub fn height(&self) -> (h: u32)
        ensures
            h == self@.height,
    {
        self.height
    }

    /// Bayer pattern used by this frame.
    pub fn pattern(&self) -> (p: BayerPattern)
        ensures
            p == self@.pattern,
    {
        self.pattern
    }
}

} // verus!

verus! {

/// Abstract contents of a [`YuyvFrame`].
pub struct YuyvFrameView {
    pub data: Seq<u8>,
    pub width: u32,
    pub height: u32,
}

/// A YUYV (YUV 4:2:2) frame for output to v4l2loopback: two bytes per
/// pixel, `width * height * 2` bytes.
#[derive(Debug)]
pub struct YuyvFrame {
    data: Vec<u8>,
    width: u32,
    height: u32,
}

impl View for YuyvFrame {
    type V = YuyvFrameView;

    closed spec fn view(&self) -> YuyvFrameView {
        YuyvFrameView { data: self.data@, width: self.width, height: self.height }
    }
}

impl Clone for YuyvFrame {
    fn clone(&self) -> (res: Self)
        ensures
            res@ == self@,
    {
        proof {
            use_type_invariant(self);
        }
        let data = self.data.clone();
        assert(data@ =~= self.data@);
        YuyvFrame { data, width: self.width, height: self.height }
    }
}

impl YuyvFrame {
    /// The buffer holds exactly two bytes per pixel, and that byte count fits
    /// in a `u32`.
    #[verifier::type_invariant]
    closed spec fn inv(self) -> bool {
        &&& self.width * self.height * 2 <= u32::MAX
        &&& self.data@.len() == self.width * self.height * 2
    }

    /// Create a new frame from raw YUYV data.
    ///
    /// YUYV is two bytes per pixel (a Y for each pixel, U/V shared between
    /// horizontal pairs): the byte count `width * height * 2` must fit in a
    /// `u32` and the data must hold exactly that many bytes.
    pub fn new(data: Vec<u8>, width: u32, height: u32) -> (frame: Self)
        requires
            width * height * 2 <= u32::MAX,
            data@.len() == width * height * 2,
        ensures
            frame@.data == data@,
            frame@.width == width,
            frame@.height == height,
    {
        YuyvFrame { data, width, height }
    }

    /// Raw YUYV data: two bytes per pixel.
    pub fn data(&self) -> (d: &[u8])
        ensures
            d@ == self@.data,
            d@.len() == self@.width * self@.height * 2,
    {
        proof {
            use_type_invariant(self);
        }
        self.data.as_slice()
    }

    /// Frame width in pixels.
    pub fn width(&self) -> (w: u32)
        ensures
            w == self@.width,
    {
        self.width
    }

    /// Frame height in pixels.
    pub fn height(&self) -> (h: u32)
        ensures
            h == self@.height,
    {
        self.height
    }

    /// Frame size in bytes.
    pub fn byte_len(&self) -> (n: usize)
        ensures
            n == self@.data.len(),
            n == self@.width * self@.height * 2,
    {
        proof {
            use_type_invariant(self);
        }
        self.data.len()
    }
}

} // verus!

verus! {

/// `v` clamped to the range of a byte.
pub open spec fn clamp_byte(v: int) -> u8 {
    if v < 0 {
        0
    } else if v > 255 {
        255
    } else {
        v as u8
    }
}

/// ITU-R BT.601 luma in 8-bit fixed point:
/// `Y = (77 R + 150 G + 29 B) >> 8`, clamped to a byte.
/// (`/` on `int` rounds toward negative infinity, as `>>` does.)
pub open spec fn luma(r: int, g: int, b: int) -> u8 {
    clamp_byte((77 * r + 150 * g + 29 * b) / 256)
}

/// BT.601 blue-difference chroma: `U = ((-43 R - 85 G + 128 B) >> 8) + 128`,
/// clamped to a byte.
pub open spec fn chroma_u(r: int, g: int, b: int) -> u8 {
    clamp_byte((-43 * r - 85 * g + 128 * b) / 256 + 128)
}

/// BT.601 red-difference chroma: `V = ((128 R - 107 G - 21 B) >> 8) + 128`,
/// clamped to a byte.
pub open spec fn chroma_v(r: int, g: int, b: int) -> u8 {
    clamp_byte((128 * r - 107 * g - 21 * b) / 256 + 128)
}

/// The red, green and blue values of the 2x2 GRBG block whose top-left
/// sample is at (`2 * row`, `2 * col`):
///
/// ```text
///   [G1][R ]   even row
///   [B ][G2]   odd row
/// ```
///
/// Green is the truncated mean of the two greens.
pub open spec fn grbg_block_rgb(data: Seq<u8>, width: int, row: int, col: int) -> (int, int, int) {
    let top = 2 * row * width + 2 * col;
    let bottom = (2 * row + 1) * width + 2 * col;
    let g1 = data[top] as int;
    let r = data[top + 1] as int;
    let b = data[bottom] as int;
    let g2 = data[bottom + 1] as int;
    (r, (g1 + g2) / 2, b)
}

/// The two YUYV bytes of output pixel (`row`, `col`) of the half-resolution
/// demosaic: the luma of the block, then U on even columns and V on odd ones.
pub open spec fn grbg_yuyv_pair(data: Seq<u8>, width: int, row: int, col: int) -> (u8, u8) {
    let (r, g, b) = grbg_block_rgb(data, width, row, col);
    (luma(r, g, b), if col % 2 == 0 { chroma_u(r, g, b) } else { chroma_v(r, g, b) })
}

/// Output pixel (`row`, `col`) of a frame `out_width` pixels wide holds the
/// pair that [`grbg_yuyv_pair`] gives for the Bayer block under it.
pub open spec fn yuyv_pixel_matches(
    out: Seq<u8>,
    out_width: int,
    data: Seq<u8>,
    width: int,
    row: int,
    col: int,
) -> bool {
    let k = (row * out_width + col) * 2;
    let pair = grbg_yuyv_pair(data, width, row, col);
    &&& out[k] == pair.0
    &&& out[k + 1] == pair.1
}

/// Output position of pixel (`r`, `c`) comes before that of (`row`, `col`)
/// whenever (`r`, `c`) comes first in row-major order.
proof fn lemma_row_major_before(r: int, c: int, row: int, col: int, w: int)
    requires
        0 <= r,
        0 <= c < w,
        0 <= col <= w,
        r < row || (r == row && c < col),
    ensures
        r * w + c < row * w + col,
{
    if r < row {
        assert(r * w + w <= row * w) by (nonlinear_arith)
            requires
                r < row,
                0 < w,
        ;
    }
}

/// The four samples of block (`row`, `col`) lie inside a `width` x `height`
/// frame.
proof fn lemma_block_in_frame(row: int, col: int, width: int, height: int)
    requires
        0 <= row < height / 2,
        0 <= col < width / 2,
        0 <= width,
        0 <= height,
    ensures
        (2 * row + 1) * width + 2 * col + 1 < width * height,
        0 <= 2 * row * width,
        2 * row * width + 2 * col + 1 < (2 * row + 1) * width + 2 * col + 1,
{
    assert((2 * row + 1) * width + 2 * col + 1 < width * height) by (nonlinear_arith)
        requires
            0 <= row,
            2 * row + 2 <= height,
            0 <= col,
            2 * col + 2 <= width,
    ;
    assert(0 <= 2 * row * width) by (nonlinear_arith)
        requires
            0 <= row,
            0 <= width,
    ;
    assert(2 * row * width + width == (2 * row + 1) * width) by (nonlinear_arith);
}

impl BayerFrame {
    /// Convert to YUYV for v4l2loopback output.
    ///
    /// Demosaics with simple 2x2 block averaging; the output has half the
    /// resolution (`width / 2` x `height / 2`). Only the GRBG pattern is
    /// supported.
    pub fn to_yuyv(&self) -> (out: YuyvFrame)
        requires
            self@.pattern == BayerPattern::GRBG,
        ensures
            out@.width == self@.width / 2,
            out@.height == self@.height / 2,
            out@.data.len() == out@.width * out@.height * 2,
            forall|row: int, col: int|
                0 <= row < out@.height && 0 <= col < out@.width ==> #[trigger] yuyv_pixel_matches(
                    out@.data,
                    out@.width as int,
                    self@.data,
                    self@.width as int,
                    row,
                    col,
                ),
    {
        match self.pattern {
            BayerPattern::GRBG => self.grbg_to_yuyv(),
            _ => {
                proof {
                    assert(false);
                }
                self.grbg_to_yuyv()
            },
        }
    }

    /// Demosaic a GRBG Bayer frame to YUYV.
    ///
    /// ```text
    ///   Row 0: G R G R ...  (even rows: G at even cols, R at odd cols)
    ///   Row 1: B G B G ...  (odd rows: B at even cols, G at odd cols)
    /// ```
    fn grbg_to_yuyv(&self) -> (out: YuyvFrame)
        ensures
            out@.width == self@.width / 2,
            out@.height == self@.height / 2,
            out@.data.len() == out@.width * out@.height * 2,
            forall|row: int, col: int|
                0 <= row < out@.height && 0 <= col < out@.width ==> #[trigger] yuyv_pixel_matches(
                    out@.data,
                    out@.width as int,
                    self@.data,
                    self@.width as int,
                    row,
                    col,
                ),
    {
        proof {
            use_type_invariant(self);
        }
        let out_width = self.width / 2;
        let out_height = self.height / 2;
        let ghost ow = out_width as int;
        let ghost oh = out_height as int;
        let ghost w = self.width as int;
        let ghost h = self.height as int;
        assert(ow * oh * 2 <= w * h) by (nonlinear_arith)
            requires
                0 <= ow,
                0 <= oh,
                2 * ow <= w,
                2 * oh <= h,
        ;
        let width = self.width as usize;
        let ow_usize = out_width as usize;
        let oh_usize = out_height as usize;
        let mut yuyv: Vec<u8> = Vec::new();
        let mut row: usize = 0;
        while row < oh_usize
            invariant
                self.inv(),
                w == self.width,
                h == self.height,
                width == w,
                ow == ow_usize,
                oh == oh_usize,
                ow == w / 2,
                oh == h / 2,
                0 <= row <= oh,
                yuyv@.len() == row * ow * 2,
                forall|r: int, c: int|
                    0 <= r < row && 0 <= c < ow ==> #[trigger] yuyv_pixel_matches(
                        yuyv@,
                        ow,
                        self.data@,
                        w,
                        r,
                        c,
                    ),
            decreases oh - row,
        {
            let mut col: usize = 0;
            while col < ow_usize
                invariant
                    self.inv(),
                    w == self.width,
                    h == self.height,
                    width == w,
                    ow == ow_usize,
                    oh == oh_usize,
                    ow == w / 2,
                    oh == h / 2,
                    0 <= row < oh,
                    0 <= col <= ow,
                    yuyv@.len() == (row * ow + col) * 2,
                    forall|r: int, c: int|
                        0 <= c < ow && (0 <= r < row || (r == row && 0 <= c < col))
                            ==> #[trigger] yuyv_pixel_matches(yuyv@, ow, self.data@, w, r, c),
                decreases ow - col,
            {
                proof {
                    lemma_block_in_frame(row as int, col as int, w, h);
                }
                let top = 2 * row * width + 2 * col;
                let bottom = (2 * row + 1) * width + 2 * col;
                let g1 = self.data[top] as u32;
                let r = self.data[top + 1] as u32;
                let b = self.data[bottom] as u32;
                let g2 = self.data[bottom + 1] as u32;
                let g = (g1 + g2) / 2;

                // BT.601 in 8-bit fixed point. The chroma sums are offset by
                // 128 * 256 so that they stay non-negative; the offset then
                // supplies the +128 of the formulas.
                let y_val = (77 * r + 150 * g + 29 * b) / 256;
                let u_val = (128 * b + 32768 - 43 * r - 85 * g) / 256;
                let v_val = (128 * r + 32768 - 107 * g - 21 * b) / 256;
                let y = y_val as u8;
                let chroma = if col % 2 == 0 {
                    u_val as u8
                } else {
                    v_val as u8
                };

                let ghost old_out = yuyv@;
                yuyv.push(y);
                yuyv.push(chroma);

                proof {
                    let ri = r as int;
                    let gi = g as int;
                    let bi = b as int;
                    assert(grbg_block_rgb(self.data@, w, row as int, col as int) == (ri, gi, bi));
                    assert(y == luma(ri, gi, bi));
                    assert(((-43 * ri - 85 * gi + 128 * bi) / 256 + 128) == u_val);
                    assert(((128 * ri - 107 * gi - 21 * bi) / 256 + 128) == v_val);
                    assert(yuyv_pixel_matches(yuyv@, ow, self.data@, w, row as int, col as int));
                    assert forall|rr: int, cc: int|
                        0 <= cc < ow && (0 <= rr < row || (rr == row && 0 <= cc < col + 1))
                            implies #[trigger] yuyv_pixel_matches(
                            yuyv@,
                            ow,
                            self.data@,
                            w,
                            rr,
                            cc,
                        ) by {
                        if rr < row || cc < col {
                            lemma_row_major_before(rr, cc, row as int, col as int, ow);
                            assert(yuyv_pixel_matches(old_out, ow, self.data@, w, rr, cc));
                        }
                    }
                }
                col = col + 1;
            }
            assert((row * ow + ow) * 2 == (row + 1) * ow * 2) by (nonlinear_arith);
            row = row + 1;
        }
        proof {
            assert(oh * ow * 2 == ow * oh * 2) by (nonlinear_arith);
        }
        YuyvFrame::new(yuyv, out_width, out_height)
    }
}

} // verus!

verus! {

/// A pixel value multiplied by `factor` and clamped to 255; factors of 0
/// and 1 leave the value as it is.
pub open spec fn boosted(p: u8, factor: u8) -> u8 {
    if factor <= 1 {
        p
    } else if p * factor > 255 {
        255
    } else {
        (p * factor) as u8
    }
}

impl BayerFrame {
    /// Apply a brightness boost: multiply every pixel by `factor`, clamped
    /// to 255. A factor of 0 or 1 leaves the frame unchanged.
    pub fn boost_brightness(&mut self, factor: u8)
        ensures
            final(self)@.data == old(self)@.data.map_values(|p: u8| boosted(p, factor)),
            final(self)@.width == old(self)@.width,
            final(self)@.height == old(self)@.height,
            final(self)@.pattern == old(self)@.pattern,
    {
        if factor <= 1 {
            assert(self@.data =~= self@.data.map_values(|p: u8| boosted(p, factor)));
            return;
        }
        proof {
            use_type_invariant(&*self);
        }
        let n = self.data.len();
        let mut out: Vec<u8> = Vec::with_capacity(n);
        let mut i: usize = 0;
        while i < n
            invariant
                n == self.data@.len(),
                factor > 1,
                0 <= i <= n,
                out@.len() == i,
                forall|k: int| 0 <= k < i ==> out@[k] == boosted(#[trigger] self.data@[k], factor),
            decreases n - i,
        {
            let pixel = self.data[i];
            assert((pixel as u16) * (factor as u16) <= 255 * 255) by (nonlinear_arith)
                requires
                    pixel <= 255,
                    factor <= 255,
            ;
            let boosted_value = (pixel as u16) * (factor as u16);
            let clamped = if boosted_value < 255 {
                boosted_value
            } else {
                255
            };
            out.push(clamped as u8);
            i = i + 1;
        }
        let ghost before = self.data@;
        assert(out@ =~= before.map_values(|p: u8| boosted(p, factor)));
        self.data = out;
    }
}

} // verus!

verus! {

/// The conversion never needs its clamps: for byte-valued red, green and
/// blue, the fixed-point Y, U and V already lie in 0..=255.
pub proof fn lemma_yuv_in_byte_range(r: int, g: int, b: int)
    requires
        0 <= r <= 255,
        0 <= g <= 255,
        0 <= b <= 255,
    ensures
        0 <= (77 * r + 150 * g + 29 * b) / 256 <= 255,
        0 <= (-43 * r - 85 * g + 128 * b) / 256 + 128 <= 255,
        0 <= (128 * r - 107 * g - 21 * b) / 256 + 128 <= 255,
        luma(r, g, b) == (77 * r + 150 * g + 29 * b) / 256,
        chroma_u(r, g, b) == (-43 * r - 85 * g + 128 * b) / 256 + 128,
        chroma_v(r, g, b) == (128 * r - 107 * g - 21 * b) / 256 + 128,
{
}

/// Gray stays gray: a block whose four samples all equal `v` becomes luma
/// `v` with neutral chroma (128), since the luma weights sum to 256 and the
/// chroma weights to 0.
pub proof fn lemma_gray_block_is_neutral(data: Seq<u8>, width: int, row: int, col: int, v: u8)
    requires
        0 <= 2 * row * width + 2 * col,
        (2 * row + 1) * width + 2 * col + 1 < data.len(),
        data[2 * row * width + 2 * col] == v,
        data[2 * row * width + 2 * col + 1] == v,
        data[(2 * row + 1) * width + 2 * col] == v,
        data[(2 * row + 1) * width + 2 * col + 1] == v,
    ensures
        grbg_yuyv_pair(data, width, row, col) == (v, 128u8),
{
    let x = v as int;
    assert((x + x) / 2 == x);
    assert((77 * x + 150 * x + 29 * x) / 256 == x);
    assert((-43 * x - 85 * x + 128 * x) / 256 + 128 == 128);
    assert((128 * x - 107 * x - 21 * x) / 256 + 128 == 128);
}

/// A uniformly gray frame converts to a uniformly gray YUYV frame: every
/// output pixel of the demosaic of a `width` x `height` frame whose samples
/// all equal `v` is luma `v` with neutral chroma.
pub proof fn lemma_gray_frame_is_neutral(data: Seq<u8>, width: int, height: int, v: u8)
    requires
        0 <= width,
        0 <= height,
        data.len() == width * height,
        forall|i: int| 0 <= i < data.len() ==> data[i] == v,
    ensures
        forall|row: int, col: int|
            0 <= row < height / 2 && 0 <= col < width / 2 ==> #[trigger] grbg_yuyv_pair(
                data,
                width,
                row,
                col,
            ) == (v, 128u8),
{
    assert forall|row: int, col: int| 0 <= row < height / 2 && 0 <= col < width / 2 implies #[trigger] grbg_yuyv_pair(
        data,
        width,
        row,
        col,
    ) == (v, 128u8) by {
        lemma_block_in_frame(row, col, width, height);
        lemma_gray_block_is_neutral(data, width, row, col, v);
    }
}

/// Sample (`x`, `y`) of a row-major frame `width` samples wide.
pub open spec fn sample_at(data: Seq<u8>, width: int, x: int, y: int) -> u8 {
    data[y * width + x]
}

/// The demosaic never reads a trailing odd column or row: two frames of
/// the same size that agree on their even-sized part (the first
/// `2 * (width / 2)` columns of the first `2 * (height / 2)` rows) give
/// the same pair for every output pixel.
pub proof fn lemma_odd_edge_ignored(a: Seq<u8>, b: Seq<u8>, width: int, height: int)
    requires
        0 <= width,
        0 <= height,
        a.len() == width * height,
        b.len() == width * height,
        forall|x: int, y: int|
            0 <= x < 2 * (width / 2) && 0 <= y < 2 * (height / 2) ==> #[trigger] sample_at(
                a,
                width,
                x,
                y,
            ) == sample_at(b, width, x, y),
    ensures
        forall|row: int, col: int|
            0 <= row < height / 2 && 0 <= col < width / 2 ==> #[trigger] grbg_yuyv_pair(
                a,
                width,
                row,
                col,
            ) == grbg_yuyv_pair(b, width, row, col),
{
    assert forall|row: int, col: int| 0 <= row < height / 2 && 0 <= col < width / 2 implies #[trigger] grbg_yuyv_pair(
        a,
        width,
        row,
        col,
    ) == grbg_yuyv_pair(b, width, row, col) by {
        lemma_block_in_frame(row, col, width, height);
        assert(sample_at(a, width, 2 * col, 2 * row) == sample_at(b, width, 2 * col, 2 * row));
        assert(sample_at(a, width, 2 * col + 1, 2 * row) == sample_at(
            b,
            width,
            2 * col + 1,
            2 * row,
        ));
        assert(sample_at(a, width, 2 * col, 2 * row + 1) == sample_at(
            b,
            width,
            2 * col,
            2 * row + 1,
        ));
        assert(sample_at(a, width, 2 * col + 1, 2 * row + 1) == sample_at(
            b,
            width,
            2 * col + 1,
            2 * row + 1,
        ));
    }
}

/// A boost never darkens a pixel, and a saturated pixel stays saturated.
pub proof fn lemma_boost_never_darkens(p: u8, factor: u8)
    ensures
        boosted(p, factor) >= p,
        p == 255 ==> boosted(p, factor) == 255,
{
    if factor > 1 {
        assert(p * factor >= p) by (nonlinear_arith)
            requires
                factor > 1,
        ;
    }
}

/// Two boosts in a row are one boost by the product of the factors, when
/// neither factor is 0 (a boost by 0 changes nothing) and the product is
/// itself a valid factor.
pub proof fn lemma_boost_composes(p: u8, a: u8, b: u8)
    requires
        a >= 1,
        b >= 1,
        a * b <= 255,
    ensures
        boosted(boosted(p, a), b) == boosted(p, (a * b) as u8),
{
    let x = p as int;
    let ai = a as int;
    let bi = b as int;
    let ab = (a * b) as u8;
    assert(ab as int == ai * bi);
    if ai > 1 && bi > 1 {
        assert(ai * bi > 1) by (nonlinear_arith)
            requires
                ai > 1,
                bi > 1,
        ;
        let once = boosted(p, a);
        if x * ai > 255 {
            assert(once == 255);
            assert(255 * bi > 255) by (nonlinear_arith)
                requires
                    bi > 1,
            ;
            assert(x * (ai * bi) > 255) by (nonlinear_arith)
                requires
                    x * ai > 255,
                    bi > 1,
            ;
        } else {
            assert(once as int == x * ai);
            assert(x * ai * bi == x * (ai * bi)) by (nonlinear_arith);
        }
    } else if ai == 1 {
        assert(ai * bi == bi) by (nonlinear_arith)
            requires
                ai == 1,
        ;
    } else {
        assert(ai * bi == ai) by (nonlinear_arith)
            requires
                bi == 1,
        ;
    }
}

} // verus!

verus! {

/// Every block of a GRBG frame is read the same way, whatever its row or
/// column: green at its top-left and bottom-right samples, red at its
/// top-right sample `(2 * col + 1, 2 * row)` and blue at its bottom-left
/// sample `(2 * col, 2 * row + 1)`.
pub proof fn lemma_block_channels(data: Seq<u8>, width: int, height: int, row: int, col: int)
    requires
        0 <= width,
        0 <= height,
        data.len() == width * height,
        0 <= row < height / 2,
        0 <= col < width / 2,
    ensures
        grbg_block_rgb(data, width, row, col) == (
            sample_at(data, width, 2 * col + 1, 2 * row) as int,
            (sample_at(data, width, 2 * col, 2 * row) + sample_at(
                data,
                width,
                2 * col + 1,
                2 * row + 1,
            )) / 2,
            sample_at(data, width, 2 * col, 2 * row + 1) as int,
        ),
{
    lemma_block_in_frame(row, col, width, height);
}

/// The output pair of a block depends only on the block's four samples and
/// on whether its column is even (U) or odd (V): two blocks, in the same or
/// different frames and at any rows, with equal samples give equal pairs.
pub proof fn lemma_pair_depends_only_on_block(
    d1: Seq<u8>,
    w1: int,
    h1: int,
    r1: int,
    c1: int,
    d2: Seq<u8>,
    w2: int,
    h2: int,
    r2: int,
    c2: int,
)
    requires
        0 <= w1,
        0 <= h1,
        0 <= w2,
        0 <= h2,
        d1.len() == w1 * h1,
        d2.len() == w2 * h2,
        0 <= r1 < h1 / 2,
        0 <= c1 < w1 / 2,
        0 <= r2 < h2 / 2,
        0 <= c2 < w2 / 2,
        c1 % 2 == c2 % 2,
        sample_at(d1, w1, 2 * c1, 2 * r1) == sample_at(d2, w2, 2 * c2, 2 * r2),
        sample_at(d1, w1, 2 * c1 + 1, 2 * r1) == sample_at(d2, w2, 2 * c2 + 1, 2 * r2),
        sample_at(d1, w1, 2 * c1, 2 * r1 + 1) == sample_at(d2, w2, 2 * c2, 2 * r2 + 1),
        sample_at(d1, w1, 2 * c1 + 1, 2 * r1 + 1) == sample_at(d2, w2, 2 * c2 + 1, 2 * r2 + 1),
    ensures
        grbg_yuyv_pair(d1, w1, r1, c1) == grbg_yuyv_pair(d2, w2, r2, c2),
{
    lemma_block_channels(d1, w1, h1, r1, c1);
    lemma_block_channels(d2, w2, h2, r2, c2);
}

/// Brighter red never lowers luma; it never lowers V (odd columns) and
/// never raises U (even columns). Of two frames whose block (`row`, `col`)
/// has the same green and blue samples, the one with the larger red sample
/// has the larger or equal luma and V, and the smaller or equal U.
pub proof fn lemma_red_raises_v_lowers_u(
    d1: Seq<u8>,
    d2: Seq<u8>,
    width: int,
    height: int,
    row: int,
    col: int,
)
    requires
        0 <= width,
        0 <= height,
        d1.len() == width * height,
        d2.len() == width * height,
        0 <= row < height / 2,
        0 <= col < width / 2,
        sample_at(d1, width, 2 * col, 2 * row) == sample_at(d2, width, 2 * col, 2 * row),
        sample_at(d1, width, 2 * col + 1, 2 * row + 1) == sample_at(
            d2,
            width,
            2 * col + 1,
            2 * row + 1,
        ),
        sample_at(d1, width, 2 * col, 2 * row + 1) == sample_at(d2, width, 2 * col, 2 * row + 1),
        sample_at(d1, width, 2 * col + 1, 2 * row) <= sample_at(d2, width, 2 * col + 1, 2 * row),
    ensures
        grbg_yuyv_pair(d1, width, row, col).0 <= grbg_yuyv_pair(d2, width, row, col).0,
        col % 2 == 1 ==> grbg_yuyv_pair(d1, width, row, col).1 <= grbg_yuyv_pair(
            d2,
            width,
            row,
            col,
        ).1,
        col % 2 == 0 ==> grbg_yuyv_pair(d1, width, row, col).1 >= grbg_yuyv_pair(
            d2,
            width,
            row,
            col,
        ).1,
{
    lemma_block_channels(d1, width, height, row, col);
    lemma_block_channels(d2, width, height, row, col);
    let (r1, g, b) = grbg_block_rgb(d1, width, row, col);
    let r2 = grbg_block_rgb(d2, width, row, col).0;
    lemma_yuv_in_byte_range(r1, g, b);
    lemma_yuv_in_byte_range(r2, g, b);
    lemma_floor_div_monotone(77 * r1 + 150 * g + 29 * b, 77 * r2 + 150 * g + 29 * b);
    lemma_floor_div_monotone(128 * r1 - 107 * g - 21 * b, 128 * r2 - 107 * g - 21 * b);
    lemma_floor_div_monotone(-43 * r2 - 85 * g + 128 * b, -43 * r1 - 85 * g + 128 * b);
}

/// Brighter blue never lowers luma; it never lowers U (even columns) and
/// never raises V (odd columns). Of two frames whose block (`row`, `col`)
/// has the same green and red samples, the one with the larger blue sample
/// has the larger or equal luma and U, and the smaller or equal V.
pub proof fn lemma_blue_raises_u_lowers_v(
    d1: Seq<u8>,
    d2: Seq<u8>,
    width: int,
    height: int,
    row: int,
    col: int,
)
    requires
        0 <= width,
        0 <= height,
        d1.len() == width * height,
        d2.len() == width * height,
        0 <= row < height / 2,
        0 <= col < width / 2,
        sample_at(d1, width, 2 * col, 2 * row) == sample_at(d2, width, 2 * col, 2 * row),
        sample_at(d1, width, 2 * col + 1, 2 * row + 1) == sample_at(
            d2,
            width,
            2 * col + 1,
            2 * row + 1,
        ),
        sample_at(d1, width, 2 * col + 1, 2 * row) == sample_at(d2, width, 2 * col + 1, 2 * row),
        sample_at(d1, width, 2 * col, 2 * row + 1) <= sample_at(d2, width, 2 * col, 2 * row + 1),
    ensures
        grbg_yuyv_pair(d1, width, row, col).0 <= grbg_yuyv_pair(d2, width, row, col).0,
        col % 2 == 0 ==> grbg_yuyv_pair(d1, width, row, col).1 <= grbg_yuyv_pair(
            d2,
            width,
            row,
            col,
        ).1,
        col % 2 == 1 ==> grbg_yuyv_pair(d1, width, row, col).1 >= grbg_yuyv_pair(
            d2,
            width,
            row,
            col,
        ).1,
{
    lemma_block_channels(d1, width, height, row, col);
    lemma_block_channels(d2, width, height, row, col);
    let (r, g, b1) = grbg_block_rgb(d1, width, row, col);
    let b2 = grbg_block_rgb(d2, width, row, col).2;
    lemma_yuv_in_byte_range(r, g, b1);
    lemma_yuv_in_byte_range(r, g, b2);
    lemma_floor_div_monotone(77 * r + 150 * g + 29 * b1, 77 * r + 150 * g + 29 * b2);
    lemma_floor_div_monotone(-43 * r - 85 * g + 128 * b1, -43 * r - 85 * g + 128 * b2);
    lemma_floor_div_monotone(128 * r - 107 * g - 21 * b2, 128 * r - 107 * g - 21 * b1);
}

/// Division by 256, rounding down, keeps order.
proof fn lemma_floor_div_monotone(x: int, y: int)
    requires
        x <= y,
    ensures
        x / 256 <= y / 256,
{
    vstd::arithmetic::div_mod::lemma_div_is_ordered(x, y, 256);
}

} // verus!
