use krane_cam::frame::{BayerFrame, BayerPattern, YuyvFrame};

#[test]
fn test_bayer_frame_creation() {
    let width = 640;
    let height = 480;
    let data = vec![0u8; width * height];
    let frame = BayerFrame::new(data, width as u32, height as u32, BayerPattern::GRBG);

    assert_eq!(frame.width(), width as u32);
    assert_eq!(frame.height(), height as u32);
    assert_eq!(frame.pattern(), BayerPattern::GRBG);
}

#[test]
fn test_bayer_to_yuyv_dimensions() {
    let width = 640u32;
    let height = 480u32;
    let data = vec![128u8; (width * height) as usize];
    let bayer = BayerFrame::new(data, width, height, BayerPattern::GRBG);

    let yuyv = bayer.to_yuyv();

    // Output should be half resolution
    assert_eq!(yuyv.width(), width / 2);
    assert_eq!(yuyv.height(), height / 2);
    // YUYV is 2 bytes per pixel
    assert_eq!(yuyv.byte_len(), (width / 2 * height / 2 * 2) as usize);
}

#[test]
fn test_brightness_boost() {
    let mut frame = BayerFrame::new(vec![100u8; 4], 2, 2, BayerPattern::GRBG);
    frame.boost_brightness(2);
    assert_eq!(frame.data()[0], 200);

    let mut frame = BayerFrame::new(vec![200u8; 4], 2, 2, BayerPattern::GRBG);
    frame.boost_brightness(2);
    assert_eq!(frame.data()[0], 255); // Clamped
}

#[test]
fn gray_frame_converts_to_gray_with_neutral_chroma() {
    for level in [0u8, 1, 37, 128, 200, 255] {
        let bayer = BayerFrame::new(vec![level; 8 * 6], 8, 6, BayerPattern::GRBG);
        let yuyv = bayer.to_yuyv();
        assert_eq!(yuyv.width(), 4);
        assert_eq!(yuyv.height(), 3);
        for pair in yuyv.data().chunks(2) {
            assert_eq!(pair, &[level, 128]);
        }
    }
}

#[test]
fn demosaic_exact_values_for_two_blocks() {
    // Row 0: G R | G R ; row 1: B G | B G
    let data = vec![100, 200, 10, 250, 50, 120, 30, 20];
    let bayer = BayerFrame::new(data, 4, 2, BayerPattern::GRBG);
    let yuyv = bayer.to_yuyv();
    // Block 0: R=200, G=(100+120)/2=110, B=50 -> Y=130, U=82 (even column)
    // Block 1: R=250, G=(10+20)/2=15, B=30 -> Y=87, V=244 (odd column)
    assert_eq!(yuyv.data(), &[130, 82, 87, 244]);
}

#[test]
fn demosaic_odd_dimensions_drop_last_row_and_column() {
    let bayer = BayerFrame::new(vec![90u8; 5 * 3], 5, 3, BayerPattern::GRBG);
    let yuyv = bayer.to_yuyv();
    assert_eq!(yuyv.width(), 2);
    assert_eq!(yuyv.height(), 1);
    assert_eq!(yuyv.byte_len(), 4);
    assert_eq!(yuyv.data(), &[90, 128, 90, 128]);
}

#[test]
fn demosaic_of_empty_frame_is_empty() {
    let bayer = BayerFrame::new(Vec::new(), 0, 0, BayerPattern::GRBG);
    let yuyv = bayer.to_yuyv();
    assert_eq!(yuyv.byte_len(), 0);
    let thin = BayerFrame::new(vec![1u8; 7], 7, 1, BayerPattern::GRBG);
    assert_eq!(thin.to_yuyv().height(), 0);
}

#[test]
fn brightness_factor_zero_or_one_is_identity() {
    let data = vec![0u8, 1, 127, 255];
    for factor in [0u8, 1] {
        let mut frame = BayerFrame::new(data.clone(), 2, 2, BayerPattern::RGGB);
        frame.boost_brightness(factor);
        assert_eq!(frame.data(), &data[..]);
        assert_eq!(frame.pattern(), BayerPattern::RGGB);
    }
}

#[test]
fn brightness_boost_each_pixel_and_composition() {
    let mut frame = BayerFrame::new(vec![0, 10, 60, 64, 100, 255], 3, 2, BayerPattern::BGGR);
    frame.boost_brightness(4);
    assert_eq!(frame.data(), &[0, 40, 240, 255, 255, 255]);
    assert_eq!(frame.width(), 3);
    assert_eq!(frame.height(), 2);

    let mut twice = BayerFrame::new(vec![3, 20, 40], 3, 1, BayerPattern::GBRG);
    twice.boost_brightness(2);
    twice.boost_brightness(3);
    let mut once = BayerFrame::new(vec![3, 20, 40], 3, 1, BayerPattern::GBRG);
    once.boost_brightness(6);
    assert_eq!(twice.data(), once.data());
    assert_eq!(once.data(), &[18, 120, 240]);
}

#[test]
fn yuyv_frame_accessors() {
    let frame = YuyvFrame::new(vec![1, 2, 3, 4, 5, 6, 7, 8], 2, 2);
    assert_eq!(frame.width(), 2);
    assert_eq!(frame.height(), 2);
    assert_eq!(frame.byte_len(), 8);
    assert_eq!(frame.data(), &[1, 2, 3, 4, 5, 6, 7, 8]);
    let copy = frame.clone();
    assert_eq!(copy.data(), frame.data());
}

#[test]
fn bayer_frame_clone_keeps_everything() {
    let frame = BayerFrame::new(vec![9, 8, 7, 6, 5, 4], 3, 2, BayerPattern::GBRG);
    let copy = frame.clone();
    assert_eq!(copy.data(), frame.data());
    assert_eq!(copy.width(), 3);
    assert_eq!(copy.height(), 2);
    assert_eq!(copy.pattern(), BayerPattern::GBRG);
}

#[test]
fn trailing_odd_column_and_row_do_not_change_the_output() {
    let a: Vec<u8> = (0..35u32).map(|i| (i * 7 % 256) as u8).collect();
    let mut b = a.clone();
    // 7 x 5 frame: change column 6 of every row and the whole of row 4
    for y in 0..5 {
        b[y * 7 + 6] = 255 - b[y * 7 + 6];
    }
    for x in 0..7 {
        b[4 * 7 + x] = 0;
    }
    let ya = BayerFrame::new(a, 7, 5, BayerPattern::GRBG).to_yuyv();
    let yb = BayerFrame::new(b, 7, 5, BayerPattern::GRBG).to_yuyv();
    assert_eq!(ya.width(), 3);
    assert_eq!(ya.height(), 2);
    assert_eq!(ya.data(), yb.data());
}
