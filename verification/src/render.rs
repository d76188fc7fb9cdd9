//! The verifiable half of the glyph renderer: the black canvas that the
//! grid's glyphs are drawn onto, and the shared font resource's location.
//!
//! Font sizing and glyph drawing themselves run on floating-point metrics of
//! an outside drawing library and live with the callers of this module.

use vstd::prelude::*;

verus! {

/// The platform families whose font locations the renderer knows.
#[derive(Clone, Copy, PartialEq, Eq, Structural, Debug)]
pub enum Platform {
    /// Windows family.
    Windows,
    /// The Apple desktop family.
    MacOs,
    /// Everything else: a Linux-style filesystem layout.
    Linux,
}

/// The fixed monospace font location of each platform family.
pub open spec fn font_path_spec(p: Platform) -> Seq<char> {
    match p {
        Platform::Windows => "C:\\Windows\\Fonts\\consola.ttf"@,
        Platform::MacOs => "/Library/Fonts/Courier New.ttf"@,
        Platform::Linux => "/usr/share/fonts/truetype/dejavu/DejaVuSansMono.ttf"@,
    }
}

/// Where the shared monospace font lives on a platform family.
pub fn font_path(p: Platform) -> (s: &'static str)
    ensures
        s@ == font_path_spec(p),
{
    match p {
        Platform::Windows => "C:\\Windows\\Fonts\\consola.ttf",
        Platform::MacOs => "/Library/Fonts/Courier New.ttf",
        Platform::Linux => "/usr/share/fonts/truetype/dejavu/DejaVuSansMono.ttf",
    }
}

/// A fully black row-major RGB canvas of the requested dimensions, three
/// bytes per pixel, onto which a grid's glyphs are drawn in white.  Nothing
/// is returned only where such a buffer cannot exist on this machine.
pub fn black_canvas(width: u32, height: u32) -> (r: Option<Vec<u8>>)
    ensures
        match r {
            Some(buf) => buf@.len() == 3 * (width as int) * (height as int) && (forall|i: int|
                0 <= i < buf@.len() ==> buf@[i] == 0),
            None => 3 * (width as int) * (height as int) > usize::MAX,
        },
{
    proof {
        assert(3 * (width as int) * (height as int) < u128::MAX) by (nonlinear_arith)
            requires
                0 <= width as int <= 0xffff_ffff,
                0 <= height as int <= 0xffff_ffff,
        ;
    }
    let total: u128 = 3u128 * (width as u128) * (height as u128);
    if total > (usize::MAX as u128) {
        return None;
    }
    let count: usize = total as usize;
    let mut buf: Vec<u8> = Vec::new();
    let mut i: usize = 0;
    while i < count
        invariant
            i <= count,
            buf@.len() == i,
            forall|j: int| 0 <= j < i ==> buf@[j] == 0,
        decreases count - i,
    {
        buf.push(0u8);
        i = i + 1;
    }
    Some(buf)
}

} // verus!
