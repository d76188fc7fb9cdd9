//! The luminance quantizer: one ramp character per pixel.

use vstd::prelude::*;
use vstd::arithmetic::div_mod::lemma_div_is_ordered;
use crate::frame::Pixel;

verus! {

/// The fixed eight-character ramp, darkest first.
pub open spec fn ramp() -> Seq<char> {
    seq![' ', '.', ',', '-', '~', '+', '=', '@']
}

/// Ramp index of an intensity: one step per 32 intensity levels.
pub open spec fn ramp_index(intensity: int) -> int {
    intensity / 32
}

/// Intensity of a pixel: each channel divided by three before summation
/// (the per-channel truncation is part of the observable behavior), and
/// fully transparent pixels forced to zero whatever their color.
pub open spec fn intensity_spec(p: Pixel) -> int {
    if p.a == 0 {
        0
    } else {
        p.r as int / 3 + p.g as int / 3 + p.b as int / 3
    }
}

/// The ramp character that a pixel quantizes to.
pub open spec fn quantized_char(p: Pixel) -> char {
    ramp()[ramp_index(intensity_spec(p))]
}

/// Maps an intensity to its ramp character.
pub fn get_char(intensity: u8) -> (c: char)
    ensures
        c == ramp()[ramp_index(intensity as int)],
{
    let index = intensity / 32;
    if index == 0 {
        ' '
    } else if index == 1 {
        '.'
    } else if index == 2 {
        ','
    } else if index == 3 {
        '-'
    } else if index == 4 {
        '~'
    } else if index == 5 {
        '+'
    } else if index == 6 {
        '='
    } else {
        '@'
    }
}

/// Quantizes one pixel to its ramp character.
pub fn quantize(p: &Pixel) -> (c: char)
    ensures
        c == quantized_char(*p),
{
    let intensity: u8 = if p.a == 0 {
        0
    } else {
        p.r / 3 + p.g / 3 + p.b / 3
    };
    get_char(intensity)
}

/// The ramp index never leaves the ramp: intensities up to 255 land on
/// indices 0 through 7.
pub proof fn lemma_ramp_index_in_range(intensity: int)
    requires
        0 <= intensity <= 255,
    ensures
        0 <= ramp_index(intensity) < ramp().len(),
{
}

/// Quantization is monotonic: a brighter intensity never gets a lower ramp
/// index.
pub proof fn lemma_ramp_index_monotonic(i: int, j: int)
    requires
        0 <= i <= j,
    ensures
        ramp_index(i) <= ramp_index(j),
{
    lemma_div_is_ordered(i, j, 32);
}

/// A fully transparent pixel quantizes to the first (blank) ramp character,
/// whatever its color channels hold.
pub proof fn lemma_transparent_is_blank(p: Pixel)
    requires
        p.a == 0,
    ensures
        quantized_char(p) == ramp()[0],
{
}

} // verus!
