use asciivid::errors::AsciiError;
use asciivid::grid::CharacterGrid;
use asciivid::render::black_canvas;
use asciivid::render::font_path;
use asciivid::render::Platform;

#[test]
fn the_canvas_is_black_and_sized_to_the_frame() {
    let canvas = black_canvas(4, 3).unwrap();
    assert_eq!(canvas.len(), 4 * 3 * 3);
    assert!(canvas.iter().all(|b| *b == 0));
}

#[test]
fn an_empty_grid_renders_as_nothing_but_the_black_canvas() {
    let grid = CharacterGrid::new();
    assert!(grid.is_empty());
    assert_eq!(grid.line_count(), 0);
    assert_eq!(grid.to_text(), "");
    // With no lines there is nothing to draw: the canvas stays black.
    let canvas = black_canvas(2, 2).unwrap();
    assert!(canvas.iter().all(|b| *b == 0));
}

#[test]
fn grids_concatenate_their_lines_with_newlines() {
    let mut grid = CharacterGrid::new();
    grid.push_line(String::from("@@"));
    grid.push_line(String::from("  "));
    assert_eq!(grid.line_count(), 2);
    assert_eq!(grid.line(1).as_str(), "  ");
    assert_eq!(grid.to_text(), "@@\n  \n");
}

#[test]
fn each_platform_family_has_its_font_location() {
    assert_eq!(font_path(Platform::Windows), "C:\\Windows\\Fonts\\consola.ttf");
    assert_eq!(font_path(Platform::MacOs), "/Library/Fonts/Courier New.ttf");
    assert_eq!(
        font_path(Platform::Linux),
        "/usr/share/fonts/truetype/dejavu/DejaVuSansMono.ttf"
    );
}

#[test]
fn every_error_describes_itself() {
    assert_eq!(AsciiError::InvalidScale.describe(), "scale must be at least 1");
    assert_eq!(AsciiError::ProbeError.describe(), "could not probe framerate");
    assert_eq!(AsciiError::DecodeError.describe(), "could not decode frame");
    assert_eq!(AsciiError::FontLoadError.describe(), "could not load font");
}
