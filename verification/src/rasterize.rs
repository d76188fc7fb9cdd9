//! The frame rasterizer: samples a frame into a character grid.
//!
//! The horizontal sampling stride is the scale factor; the vertical stride is
//! twice that, which compensates for character cells being roughly twice as
//! tall as they are wide.

use vstd::prelude::*;
use crate::errors::AsciiError;
use crate::frame::Frame;
use crate::frame::Pixel;
use crate::grid::CharacterGrid;
use crate::grid::push_char;
use crate::quantize::quantize;
use crate::quantize::quantized_char;

verus! {

/// One sampled row from column `x` rightwards: the quantized pixels at
/// columns `x`, `x + scale`, ... while they stay inside the frame.
pub open spec fn row_from(f: Frame, scale: int, y: int, x: int) -> Seq<char>
    decreases (if x < f.spec_width() { f.spec_width() - x } else { 0 }) when scale >= 1
{
    if x >= f.spec_width() {
        Seq::empty()
    } else {
        seq![quantized_char(f.pixel_at(x, y))] + row_from(f, scale, y, x + scale)
    }
}

/// The sampled rows from row `y` downwards, one line per sampled row, at
/// rows `y`, `y + 2 * scale`, ... while they stay inside the frame.
pub open spec fn rows_from(f: Frame, scale: int, y: int) -> Seq<Seq<char>>
    decreases (if y < f.spec_height() { f.spec_height() - y } else { 0 }) when scale >= 1
{
    if y >= f.spec_height() {
        Seq::empty()
    } else {
        seq![row_from(f, scale, y, 0)] + rows_from(f, scale, y + 2 * scale)
    }
}

/// The whole grid of a frame at a scale: all sampled rows, from the top.
pub open spec fn grid_spec(f: Frame, scale: int) -> Seq<Seq<char>> {
    rows_from(f, scale, 0)
}

/// Samples a frame into its character grid.  A zero scale is rejected up
/// front: it would describe an infinitely dense sampling and never advance.
///
/// A row is only ever sampled at an exact multiple of the vertical stride,
/// so a rule that ends a line just at those multiples ends one line per
/// sampled row: every sampled row unconditionally becomes one grid line.
pub fn rasterize(frame: &Frame, scale: u32) -> (r: Result<CharacterGrid, AsciiError>)
    ensures
        match r {
            Ok(g) => scale >= 1 && g@ == grid_spec(*frame, scale as int),
            Err(e) => scale == 0 && e == AsciiError::InvalidScale,
        },
{
    if scale == 0 {
        return Err(AsciiError::InvalidScale);
    }
    let width = frame.width();
    let height = frame.height();
    let stride_y: u64 = (scale as u64) * 2;
    let mut grid = CharacterGrid::new();
    proof {
        assert(grid@ + rows_from(*frame, scale as int, 0) =~= rows_from(*frame, scale as int, 0));
    }
    let mut y: u64 = 0;
    while y < height as u64
        invariant
            scale >= 1,
            stride_y == 2 * (scale as int),
            width == frame.spec_width(),
            height == frame.spec_height(),
            grid@ + rows_from(*frame, scale as int, y as int) == grid_spec(*frame, scale as int),
        decreases (if (y as int) < height as int { height as int - y as int } else { 0 }),
    {
        let mut line = String::new();
        proof {
            assert(line@ + row_from(*frame, scale as int, y as int, 0) =~= row_from(
                *frame,
                scale as int,
                y as int,
                0,
            ));
        }
        let mut x: u64 = 0;
        while x < width as u64
            invariant
                scale >= 1,
                width == frame.spec_width(),
                height == frame.spec_height(),
                y < height as u64,
                line@ + row_from(*frame, scale as int, y as int, x as int) == row_from(
                    *frame,
                    scale as int,
                    y as int,
                    0,
                ),
            decreases (if (x as int) < width as int { width as int - x as int } else { 0 }),
        {
            let p = frame.get_pixel(x as u32, y as u32);
            let c = quantize(&p);
            let ghost line0 = line@;
            push_char(&mut line, c);
            proof {
                assert(line0 + seq![c] + row_from(*frame, scale as int, y as int, x as int
                    + scale) =~= line0 + (seq![c] + row_from(
                    *frame,
                    scale as int,
                    y as int,
                    x as int + scale,
                )));
            }
            x = x + scale as u64;
        }
        proof {
            assert(row_from(*frame, scale as int, y as int, x as int) =~= Seq::<char>::empty());
            assert(line@ + Seq::<char>::empty() =~= line@);
        }
        let ghost grid0 = grid@;
        let ghost row0 = line@;
        grid.push_line(line);
        proof {
            assert(grid0.push(row0) + rows_from(*frame, scale as int, y as int + 2 * (
            scale as int)) =~= grid0 + (seq![row0] + rows_from(
                *frame,
                scale as int,
                y as int + 2 * (scale as int),
            )));
        }
        y = y + stride_y;
    }
    proof {
        assert(rows_from(*frame, scale as int, y as int) =~= Seq::<Seq<char>>::empty());
        assert(grid@ + Seq::<Seq<char>>::empty() =~= grid@);
    }
    Ok(grid)
}

/// A sampled row's length does not depend on which row is sampled.
proof fn lemma_row_len_same(f: Frame, scale: int, y1: int, y2: int, x: int)
    requires
        scale >= 1,
    ensures
        row_from(f, scale, y1, x).len() == row_from(f, scale, y2, x).len(),
    decreases (if x < f.spec_width() {
        f.spec_width() - x
    } else {
        0
    }),
{
    if x < f.spec_width() {
        lemma_row_len_same(f, scale, y1, y2, x + scale);
    }
}

/// The line at position `k` of the sampled rows from `y` is the row sampled
/// `k` vertical strides below `y`.
proof fn lemma_rows_index(f: Frame, scale: int, y: int, k: int)
    requires
        scale >= 1,
        0 <= k < rows_from(f, scale, y).len(),
    ensures
        rows_from(f, scale, y)[k] == row_from(f, scale, y + 2 * scale * k, 0),
    decreases k,
{
    assert(y < f.spec_height());
    assert(rows_from(f, scale, y) == seq![row_from(f, scale, y, 0)] + rows_from(
        f,
        scale,
        y + 2 * scale,
    ));
    if k > 0 {
        lemma_rows_index(f, scale, y + 2 * scale, k - 1);
        assert(y + 2 * scale + 2 * scale * (k - 1) == y + 2 * scale * k) by (nonlinear_arith);
        assert(rows_from(f, scale, y)[k] == rows_from(f, scale, y + 2 * scale)[k - 1]);
    } else {
        assert(2 * scale * 0 == 0) by (nonlinear_arith);
        assert(rows_from(f, scale, y)[0] == row_from(f, scale, y, 0));
    }
}

/// Every line of a grid has the same length: the sampled columns do not
/// depend on the row, so no shorter final line ever arises.
pub proof fn lemma_grid_lines_equal_length(f: Frame, scale: int, i: int, j: int)
    requires
        scale >= 1,
        0 <= i < grid_spec(f, scale).len(),
        0 <= j < grid_spec(f, scale).len(),
    ensures
        grid_spec(f, scale)[i].len() == grid_spec(f, scale)[j].len(),
{
    lemma_rows_index(f, scale, 0, i);
    lemma_rows_index(f, scale, 0, j);
    lemma_row_len_same(f, scale, 2 * scale * i, 2 * scale * j, 0);
}

/// On a solid frame, a row sampled at stride one holds one quantized
/// character per remaining column.
proof fn lemma_row_solid(f: Frame, p: Pixel, y: int, x: int)
    requires
        0 <= x <= f.spec_width(),
        0 <= y < f.spec_height(),
        forall|a: int, b: int|
            0 <= a < f.spec_width() && 0 <= b < f.spec_height() ==> f.pixel_at(a, b) == p,
    ensures
        row_from(f, 1, y, x).len() == f.spec_width() - x,
        forall|j: int|
            0 <= j < f.spec_width() - x ==> row_from(f, 1, y, x)[j] == quantized_char(p),
    decreases f.spec_width() - x,
{
    if x < f.spec_width() {
        lemma_row_solid(f, p, y, x + 1);
    }
}

/// On a solid frame, the rows sampled at stride two from row `y` are
/// `ceil((height - y) / 2)` lines of full width, every character the
/// pixel's quantized character.
proof fn lemma_rows_solid(f: Frame, p: Pixel, y: int)
    requires
        0 <= y <= f.spec_height(),
        forall|a: int, b: int|
            0 <= a < f.spec_width() && 0 <= b < f.spec_height() ==> f.pixel_at(a, b) == p,
    ensures
        rows_from(f, 1, y).len() == (f.spec_height() - y + 1) / 2,
        forall|i: int|
            0 <= i < rows_from(f, 1, y).len() ==> (#[trigger] rows_from(f, 1, y)[i]).len()
                == f.spec_width(),
        forall|i: int, j: int|
            0 <= i < rows_from(f, 1, y).len() && 0 <= j < f.spec_width() ==> rows_from(
                f,
                1,
                y,
            )[i][j] == quantized_char(p),
    decreases f.spec_height() - y,
{
    if y < f.spec_height() {
        lemma_row_solid(f, p, y, 0);
        if y + 2 <= f.spec_height() {
            lemma_rows_solid(f, p, y + 2);
        } else {
            assert(rows_from(f, 1, y + 2) =~= Seq::<Seq<char>>::empty());
        }
    }
}

/// On a frame whose pixels all equal one pixel `p`, the grid at scale one
/// has `ceil(height / 2)` lines, each line is exactly `width` characters
/// long, and every character is `p`'s quantized ramp character.
pub proof fn lemma_solid_frame_grid(f: Frame, p: Pixel)
    requires
        forall|a: int, b: int|
            0 <= a < f.spec_width() && 0 <= b < f.spec_height() ==> f.pixel_at(a, b) == p,
    ensures
        grid_spec(f, 1).len() == (f.spec_height() as int + 1) / 2,
        forall|i: int|
            0 <= i < grid_spec(f, 1).len() ==> (#[trigger] grid_spec(f, 1)[i]).len()
                == f.spec_width(),
        forall|i: int, j: int|
            0 <= i < grid_spec(f, 1).len() && 0 <= j < f.spec_width() ==> grid_spec(f, 1)[i][j]
                == quantized_char(p),
{
    lemma_rows_solid(f, p, 0);
}

} // verus!
