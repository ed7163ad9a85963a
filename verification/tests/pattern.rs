use krane_cam::pattern::ColorBars;

#[test]
fn test_color_bars_size() {
    let width = 640;
    let height = 480;
    let pattern = ColorBars::new(width, height);
    assert_eq!(pattern.data().len(), (width * height * 2) as usize);
}

#[test]
fn color_bars_values_of_one_line() {
    let pattern = ColorBars::new(16, 1);
    let expected: [u8; 32] = [
        235, 128, 235, 128, // white
        210, 16, 210, 146, // yellow
        170, 166, 170, 16, // cyan
        145, 54, 145, 34, // green
        106, 202, 106, 222, // magenta
        81, 90, 81, 240, // red
        41, 240, 41, 110, // blue
        16, 128, 16, 128, // black
    ];
    assert_eq!(pattern.data(), &expected[..]);
}

#[test]
fn color_bars_are_vertical_and_leftover_columns_are_black() {
    let width = 19u32;
    let height = 3u32;
    let pattern = ColorBars::new(width, height);
    let data = pattern.data();
    let row_len = (width * 2) as usize;
    assert_eq!(data.len(), row_len * height as usize);
    for y in 1..height as usize {
        assert_eq!(&data[y * row_len..(y + 1) * row_len], &data[..row_len]);
    }
    // bar width is 19 / 8 = 2: columns 14..19 are all in the last (black) bar
    for x in 14..19usize {
        assert_eq!(data[x * 2], 16);
        assert_eq!(data[x * 2 + 1], 128);
    }
}

#[test]
fn color_bars_empty_frames() {
    assert_eq!(ColorBars::new(0, 10).data().len(), 0);
    assert_eq!(ColorBars::new(3, 0).data().len(), 0);
}
