use asciivid::frame::Pixel;
use asciivid::quantize::get_char;
use asciivid::quantize::quantize;

#[test]
fn boundaries_of_the_ramp_indices() {
    assert_eq!(get_char(0), ' ');
    assert_eq!(get_char(31), ' ');
    assert_eq!(get_char(32), '.');
    assert_eq!(get_char(255), '@');
}

#[test]
fn every_ramp_step_has_its_character() {
    assert_eq!(get_char(0), ' ');
    assert_eq!(get_char(63), '.');
    assert_eq!(get_char(64), ',');
    assert_eq!(get_char(96), '-');
    assert_eq!(get_char(128), '~');
    assert_eq!(get_char(160), '+');
    assert_eq!(get_char(192), '=');
    assert_eq!(get_char(224), '@');
}

#[test]
fn ramp_index_is_monotonic_over_all_intensities() {
    let mut previous = get_char(0);
    let ramp = " .,-~+=@";
    for i in 0..=255u8 {
        let c = get_char(i);
        let rank = |ch: char| ramp.chars().position(|r| r == ch).unwrap();
        assert!(rank(previous) <= rank(c));
        previous = c;
    }
}

#[test]
fn transparent_pixels_are_blank_whatever_their_color() {
    for value in [0u8, 17, 255] {
        let p = Pixel { r: value, g: value, b: value, a: 0 };
        assert_eq!(quantize(&p), ' ');
    }
}

#[test]
fn intensity_truncates_each_channel_before_summation() {
    // 100/3 + 150/3 + 200/3 = 33 + 50 + 66 = 149, and 149 / 32 = 4.
    let p = Pixel { r: 100, g: 150, b: 200, a: 255 };
    assert_eq!(quantize(&p), '~');
    // (5 + 5 + 5) with per-channel truncation is 1 + 1 + 1 = 3, not 5.
    let q = Pixel { r: 5, g: 5, b: 5, a: 255 };
    assert_eq!(quantize(&q), ' ');
}

#[test]
fn opaque_white_is_the_brightest_character() {
    let p = Pixel { r: 255, g: 255, b: 255, a: 255 };
    assert_eq!(quantize(&p), '@');
}
