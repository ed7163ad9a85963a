//! Test pattern generation.

use vstd::prelude::*;

verus! {

/// YUYV values `(Y0, U, Y1, V)` of the eight standard color bars, left to
/// right: white, yellow, cyan, green, magenta, red, blue, black.
pub open spec fn bar_color(bar: int) -> (u8, u8, u8, u8) {
    if bar == 0 {
        (235, 128, 235, 128)
    } else if bar == 1 {
        (210, 16, 210, 146)
    } else if bar == 2 {
        (170, 166, 170, 16)
    } else if bar == 3 {
        (145, 54, 145, 34)
    } else if bar == 4 {
        (106, 202, 106, 222)
    } else if bar == 5 {
        (81, 90, 81, 240)
    } else if bar == 6 {
        (41, 240, 41, 110)
    } else {
        (16, 128, 16, 128)
    }
}

/// The bar that column `x` of a `width`-pixel line falls in: bars are
/// `width / 8` pixels wide, and the columns left over on the right belong
/// to the last bar.
pub open spec fn bar_of_column(x: int, width: int) -> int {
    let bar = x / (width / 8);
    if bar < 7 {
        bar
    } else {
        7
    }
}

/// The two YUYV bytes of column `x`: `(Y0, U)` on even columns and
/// `(Y1, V)` on odd ones, of the bar that the column falls in.
pub open spec fn color_bar_pair(x: int, width: int) -> (u8, u8) {
    let (y0, u, y1, v) = bar_color(bar_of_column(x, width));
    if x % 2 == 0 {
        (y0, u)
    } else {
        (y1, v)
    }
}

/// Pixel (`x`, `y`) of a YUYV frame `width` pixels wide holds the color-bar
/// pair of its column.
pub open spec fn color_bar_pixel_matches(buf: Seq<u8>, width: int, x: int, y: int) -> bool {
    let k = (y * width + x) * 2;
    let pair = color_bar_pair(x, width);
    &&& buf[k] == pair.0
    &&& buf[k + 1] == pair.1
}

/// The inputs on which the pattern can be generated: the frame's byte count
/// fits in a `u32`, and a frame with pixels is at least 8 pixels wide, so
/// that each bar has a width.
pub open spec fn color_bars_supported(width: u32, height: u32) -> bool {
    &&& width * height * 2 <= u32::MAX
    &&& (width == 0 || height == 0 || width >= 8)
}

/// YUYV color bars test pattern: 8 vertical bars, white, yellow, cyan,
/// green, magenta, red, blue, black.
pub struct ColorBars {
    buffer: Vec<u8>,
}

impl View for ColorBars {
    type V = Seq<u8>;

    closed spec fn view(&self) -> Seq<u8> {
        self.buffer@
    }
}

/// The color values of bar `bar`.
fn bar_color_values(bar: u32) -> (c: (u8, u8, u8, u8))
    requires
        bar <= 7,
    ensures
        c == bar_color(bar as int),
{
    if bar == 0 {
        (235, 128, 235, 128)
    } else if bar == 1 {
        (210, 16, 210, 146)
    } else if bar == 2 {
        (170, 166, 170, 16)
    } else if bar == 3 {
        (145, 54, 145, 34)
    } else if bar == 4 {
        (106, 202, 106, 222)
    } else if bar == 5 {
        (81, 90, 81, 240)
    } else if bar == 6 {
        (41, 240, 41, 110)
    } else {
        (16, 128, 16, 128)
    }
}

/// Position of pixel (`x`, `y`) comes before that of (`x2`, `y2`) in a
/// row-major frame `w` pixels wide when it comes first in row-major order.
proof fn lemma_row_major_before(x: int, y: int, x2: int, y2: int, w: int)
    requires
        0 <= y,
        0 <= x < w,
        0 <= x2 <= w,
        y < y2 || (y == y2 && x < x2),
    ensures
        y * w + x < y2 * w + x2,
{
    if y < y2 {
        assert(y * w + w <= y2 * w) by (nonlinear_arith)
            requires
                y < y2,
                0 < w,
        ;
    }
}

/// The bars run left to right: a column further right is never in an
/// earlier bar, and every column is in one of the eight bars.
pub proof fn lemma_bars_left_to_right(x1: int, x2: int, width: int)
    requires
        width >= 8,
        0 <= x1 <= x2,
    ensures
        0 <= bar_of_column(x1, width) <= bar_of_column(x2, width) <= 7,
{
    let bw = width / 8;
    assert(bw >= 1);
    vstd::arithmetic::div_mod::lemma_div_is_ordered(x1, x2, bw);
    vstd::arithmetic::div_mod::lemma_div_pos_is_pos(x1, bw);
}

/// All eight bars appear, in order: bar `b` starts at column
/// `b * (width / 8)`, which lies inside the frame.
pub proof fn lemma_every_bar_present(b: int, width: int)
    requires
        width >= 8,
        0 <= b < 8,
    ensures
        0 <= b * (width / 8) < width,
        bar_of_column(b * (width / 8), width) == b,
{
    let bw = width / 8;
    assert(bw >= 1);
    assert(0 <= b * bw <= 7 * bw) by (nonlinear_arith)
        requires
            0 <= b < 8,
            bw >= 1,
    ;
    assert(8 * bw <= width);
    vstd::arithmetic::div_mod::lemma_div_multiples_vanish(b, bw);
    assert(b * bw == bw * b) by (nonlinear_arith);
}

/// The bars are vertical: in a frame whose every pixel holds its
/// color-bar pair, each pixel holds the same two bytes as the pixel above
/// or below it in any other row, and the top-left pixel of every row is
/// white.
pub proof fn lemma_bars_are_vertical(buf: Seq<u8>, width: int, height: int)
    requires
        width >= 8,
        0 <= height,
        buf.len() == width * height * 2,
        forall|x: int, y: int|
            0 <= x < width && 0 <= y < height ==> #[trigger] color_bar_pixel_matches(
                buf,
                width,
                x,
                y,
            ),
    ensures
        forall|x: int, y1: int, y2: int|
            0 <= x < width && 0 <= y1 < height && 0 <= y2 < height ==> #[trigger] buf[(y1
                * width + x) * 2] == #[trigger] buf[(y2 * width + x) * 2] && buf[(y1 * width + x)
                * 2 + 1] == buf[(y2 * width + x) * 2 + 1],
        forall|y: int|
            0 <= y < height ==> #[trigger] buf[(y * width) * 2] == 235 && buf[(y * width) * 2 + 1]
                == 128,
{
    assert forall|x: int, y1: int, y2: int|
        0 <= x < width && 0 <= y1 < height && 0 <= y2 < height implies #[trigger] buf[(y1
            * width + x) * 2] == #[trigger] buf[(y2 * width + x) * 2] && buf[(y1 * width + x) * 2
            + 1] == buf[(y2 * width + x) * 2 + 1] by {
        assert(color_bar_pixel_matches(buf, width, x, y1));
        assert(color_bar_pixel_matches(buf, width, x, y2));
    }
    assert forall|y: int| 0 <= y < height implies #[trigger] buf[(y * width) * 2] == 235 && buf[(y
        * width) * 2 + 1] == 128 by {
        assert(color_bar_pixel_matches(buf, width, 0, y));
        assert(y * width + 0 == y * width);
        lemma_every_bar_present(0, width);
    }
}

impl ColorBars {
    /// Create a new color bars pattern of `width` x `height` pixels.
    pub fn new(width: u32, height: u32) -> (bars: Self)
        requires
            color_bars_supported(width, height),
        ensures
            bars@.len() == width * height * 2,
            forall|x: int, y: int|
                0 <= x < width && 0 <= y < height ==> #[trigger] color_bar_pixel_matches(
                    bars@,
                    width as int,
                    x,
                    y,
                ),
    {
        let buffer = Self::generate(width, height);
        ColorBars { buffer }
    }

    /// The pattern data.
    pub fn data(&self) -> (d: &[u8])
        ensures
            d@ == self@,
    {
        self.buffer.as_slice()
    }

    /// Generate the YUYV color bars pattern, row by row.
    fn generate(width: u32, height: u32) -> (buffer: Vec<u8>)
        requires
            color_bars_supported(width, height),
        ensures
            buffer@.len() == width * height * 2,
            forall|x: int, y: int|
                0 <= x < width && 0 <= y < height ==> #[trigger] color_bar_pixel_matches(
                    buffer@,
                    width as int,
                    x,
                    y,
                ),
    {
        let ghost w = width as int;
        let bar_width = width / 8;
        let mut buffer: Vec<u8> = Vec::new();
        let mut y: u32 = 0;
        while y < height
            invariant
                color_bars_supported(width, height),
                w == width,
                bar_width == w / 8,
                0 <= y <= height,
                buffer@.len() == y * w * 2,
                forall|xx: int, yy: int|
                    0 <= xx < w && 0 <= yy < y ==> #[trigger] color_bar_pixel_matches(
                        buffer@,
                        w,
                        xx,
                        yy,
                    ),
            decreases height - y,
        {
            let mut x: u32 = 0;
            while x < width
                invariant
                    color_bars_supported(width, height),
                    w == width,
                    bar_width == w / 8,
                    0 <= y < height,
                    0 <= x <= width,
                    buffer@.len() == (y * w + x) * 2,
                    forall|xx: int, yy: int|
                        0 <= xx < w && (0 <= yy < y || (yy == y && 0 <= xx < x))
                            ==> #[trigger] color_bar_pixel_matches(buffer@, w, xx, yy),
                decreases width - x,
            {
                let quotient = x / bar_width;
                let bar_index = if quotient < 7 {
                    quotient
                } else {
                    7
                };
                let (y0, u, y1, v) = bar_color_values(bar_index);
                let ghost old_buffer = buffer@;
                if x % 2 == 0 {
                    buffer.push(y0);
                    buffer.push(u);
                } else {
                    buffer.push(y1);
                    buffer.push(v);
                }
                proof {
                    assert(color_bar_pixel_matches(buffer@, w, x as int, y as int));
                    assert forall|xx: int, yy: int|
                        0 <= xx < w && (0 <= yy < y || (yy == y && 0 <= xx < x + 1))
                            implies #[trigger] color_bar_pixel_matches(buffer@, w, xx, yy) by {
                        if yy < y || xx < x {
                            lemma_row_major_before(xx, yy, x as int, y as int, w);
                            assert(color_bar_pixel_matches(old_buffer, w, xx, yy));
                        }
                    }
                }
                x = x + 1;
            }
            assert((y * w + w) * 2 == (y + 1) * w * 2) by (nonlinear_arith);
            y = y + 1;
        }
        assert(height * w * 2 == w * height * 2) by (nonlinear_arith);
        buffer
    }
}

} // verus!
