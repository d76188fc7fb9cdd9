use asciivid::errors::AsciiError;
use asciivid::frame::Frame;
use asciivid::rasterize::rasterize;

fn solid_rgba(width: u32, height: u32, rgba: [u8; 4]) -> Vec<u8> {
    let mut raw = Vec::new();
    for _ in 0..(width as usize * height as usize) {
        raw.extend_from_slice(&rgba);
    }
    raw
}

#[test]
fn solid_frame_gives_a_uniform_grid() {
    // Intensity 100/3 + 150/3 + 200/3 = 149, ramp index 4: '~'.
    let raw = solid_rgba(4, 5, [100, 150, 200, 255]);
    let frame = Frame::from_rgba(4, 5, &raw);
    let grid = rasterize(&frame, 1).unwrap();
    // Rows are sampled at stride 2: ceil(5 / 2) = 3 lines of width 4.
    assert_eq!(grid.line_count(), 3);
    for i in 0..3 {
        assert_eq!(grid.line(i).as_str(), "~~~~");
    }
}

#[test]
fn zero_scale_is_rejected_and_never_loops() {
    let raw = solid_rgba(2, 2, [255, 255, 255, 255]);
    let frame = Frame::from_rgba(2, 2, &raw);
    match rasterize(&frame, 0) {
        Err(e) => assert_eq!(e, AsciiError::InvalidScale),
        Ok(_) => panic!("a zero scale must be rejected"),
    }
}

#[test]
fn two_by_two_white_at_scale_one_is_one_bright_line() {
    let raw = solid_rgba(2, 2, [255, 255, 255, 255]);
    let frame = Frame::from_rgba(2, 2, &raw);
    let grid = rasterize(&frame, 1).unwrap();
    assert_eq!(grid.line_count(), 1);
    assert_eq!(grid.line(0).as_str(), "@@");
    assert_eq!(grid.to_text(), "@@\n");
}

#[test]
fn one_transparent_pixel_is_one_blank_character() {
    let raw = solid_rgba(1, 1, [255, 0, 255, 0]);
    let frame = Frame::from_rgba(1, 1, &raw);
    let grid = rasterize(&frame, 1).unwrap();
    assert_eq!(grid.line_count(), 1);
    assert_eq!(grid.line(0).as_str(), " ");
    assert_eq!(grid.to_text(), " \n");
}

#[test]
fn a_scale_beyond_the_frame_samples_only_the_corner() {
    let raw = solid_rgba(3, 3, [255, 255, 255, 255]);
    let frame = Frame::from_rgba(3, 3, &raw);
    let grid = rasterize(&frame, 5).unwrap();
    assert_eq!(grid.line_count(), 1);
    assert_eq!(grid.line(0).as_str(), "@");
}

#[test]
fn stride_picks_every_other_column_and_every_fourth_row() {
    // A 4x4 frame: left half white, right half black.  At scale 2 only
    // columns 0 and 2 and row 0 are sampled.
    let mut raw = Vec::new();
    for _y in 0..4 {
        for x in 0..4 {
            let v = if x < 2 { 255u8 } else { 0u8 };
            raw.extend_from_slice(&[v, v, v, 255]);
        }
    }
    let frame = Frame::from_rgba(4, 4, &raw);
    let grid = rasterize(&frame, 2).unwrap();
    assert_eq!(grid.line_count(), 1);
    assert_eq!(grid.line(0).as_str(), "@ ");
}

#[test]
fn an_empty_frame_gives_an_empty_grid() {
    let raw: Vec<u8> = Vec::new();
    let frame = Frame::from_rgba(0, 0, &raw);
    let grid = rasterize(&frame, 1).unwrap();
    assert!(grid.is_empty());
    assert_eq!(grid.line_count(), 0);
    assert_eq!(grid.to_text(), "");
}
