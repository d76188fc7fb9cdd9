use asciivid::codec::decode_frame;
use asciivid::codec::encode_frame;
use asciivid::errors::AsciiError;
use asciivid::rasterize::rasterize;
use asciivid::render::black_canvas;

fn white_png(width: u32, height: u32) -> Vec<u8> {
    let raw = vec![255u8; (width * height * 4) as usize];
    let img: image::RgbaImage = image::RgbaImage::from_raw(width, height, raw).unwrap();
    let mut out = std::io::Cursor::new(Vec::new());
    img.write_to(&mut out, image::ImageFormat::Png).unwrap();
    out.into_inner()
}

#[test]
fn a_white_png_decodes_to_white_pixels() {
    let bytes = white_png(2, 2);
    let frame = decode_frame(&bytes).unwrap();
    assert_eq!(frame.width(), 2);
    assert_eq!(frame.height(), 2);
    let p = frame.get_pixel(1, 1);
    assert_eq!((p.r, p.g, p.b, p.a), (255, 255, 255, 255));
}

#[test]
fn a_decoded_white_image_rasterizes_end_to_end() {
    let bytes = white_png(2, 2);
    let frame = decode_frame(&bytes).unwrap();
    let grid = rasterize(&frame, 1).unwrap();
    assert_eq!(grid.to_text(), "@@\n");
}

#[test]
fn garbage_bytes_are_a_decode_error() {
    let bytes = vec![1u8, 2, 3, 4, 5];
    match decode_frame(&bytes) {
        Err(e) => assert_eq!(e, AsciiError::DecodeError),
        Ok(_) => panic!("garbage must not decode"),
    }
}

#[test]
fn an_encoded_canvas_decodes_back_to_black() {
    let canvas = black_canvas(3, 2).unwrap();
    let png = encode_frame(3, 2, &canvas).unwrap();
    let img = image::load_from_memory(&png).unwrap().to_rgb8();
    assert_eq!(img.dimensions(), (3, 2));
    assert!(img.pixels().all(|p| p.0 == [0, 0, 0]));
}

#[test]
fn zero_dimensions_are_rejected() {
    let empty: Vec<u8> = Vec::new();
    match encode_frame(0, 4, &empty) {
        Err(e) => assert_eq!(e, AsciiError::EncodingError),
        Ok(_) => panic!("a zero-width image must not encode"),
    }
    match encode_frame(4, 0, &empty) {
        Err(e) => assert_eq!(e, AsciiError::EncodingError),
        Ok(_) => panic!("a zero-height image must not encode"),
    }
}

#[test]
fn samples_of_the_wrong_length_are_rejected() {
    let canvas = vec![0u8; 5];
    match encode_frame(2, 2, &canvas) {
        Err(e) => assert_eq!(e, AsciiError::EncodingError),
        Ok(_) => panic!("a short buffer must not encode"),
    }
}
