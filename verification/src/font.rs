//! The 8x8 bitmap font: its atlas and where each character sits in it.
//!
//! The atlas holds the 96 printable ASCII characters (codes 32 to 127),
//! 16 to a row in 6 rows, each glyph 8x8 pixels: 128 x 48 pixels in RGBA.
//! A lit pixel of a glyph is opaque white, every other pixel transparent.
use vstd::prelude::*;

verus! {

pub const GLYPH_W: u32 = 8;

pub const GLYPH_H: u32 = 8;

pub const ATLAS_COLS: u32 = 16;

pub const ATLAS_ROWS: u32 = 6;

pub const ATLAS_W: u32 = 128;

pub const ATLAS_H: u32 = 48;

/// The eight rows of the glyph of ASCII code `code` in the font8x8 crate's
/// basic legacy table, top row first; bit 0 of a row is its leftmost pixel.
pub uninterp spec fn legacy_glyph(code: u8) -> Seq<u8>;

/// Glyph of ASCII code `code` from `font8x8::legacy::BASIC_LEGACY`: the
/// contract claims only that the result is the table's entry for `code`,
/// which it names.
#[verifier::external_body]
fn basic_legacy_glyph(code: u8) -> (r: [u8; 8])
    requires
        code < 128,
    ensures
        r@ == legacy_glyph(code),
{
    font8x8::legacy::BASIC_LEGACY[code as usize]
}

/// Bit `col` of `row` is set.
pub open spec fn bit_set(row: u8, col: u32) -> bool {
    (row >> col) & 1u8 == 1u8
}

/// The pixel at column `x` and row `y` of the atlas is lit.
pub open spec fn atlas_lit(x: int, y: int) -> bool {
    let code = (32 + (y / 8) * 16 + x / 8) as u8;
    bit_set(legacy_glyph(code)[y % 8], (x % 8) as u32)
}

/// The channel values of an atlas pixel.
pub open spec fn pixel_value(lit: bool) -> u8 {
    if lit {
        255
    } else {
        0
    }
}

/// The channel value of pixel `col` of a glyph row: 255 when its bit is set.
pub fn glyph_pixel(row: u8, col: u32) -> (v: u8)
    requires
        col < 8,
    ensures
        v == pixel_value(bit_set(row, col)),
{
    if (row >> col) & 1u8 == 1u8 {
        255
    } else {
        0
    }
}

/// The atlas as RGBA bytes, row after row from the top.
pub fn atlas_pixels() -> (r: Vec<u8>)
    ensures
        r@.len() == 128 * 48 * 4,
        forall|x: int, y: int, c: int|
            0 <= x < 128 && 0 <= y < 48 && 0 <= c < 4 ==> #[trigger] r@[(y * 128 + x) * 4 + c] == pixel_value(
                atlas_lit(x, y),
            ),
{
    let mut out: Vec<u8> = Vec::new();
    let mut y: u32 = 0;
    while y < ATLAS_H
        invariant
            y <= 48,
            out@.len() == y * 128 * 4,
            forall|x2: int, y2: int, c: int|
                0 <= x2 < 128 && 0 <= y2 < y && 0 <= c < 4 ==> #[trigger] out@[(y2 * 128 + x2) * 4 + c]
                    == pixel_value(atlas_lit(x2, y2)),
        decreases 48 - y,
    {
        let mut x: u32 = 0;
        while x < ATLAS_W
            invariant
                y < 48,
                x <= 128,
                out@.len() == (y * 128 + x) * 4,
                forall|x2: int, y2: int, c: int|
                    0 <= x2 < 128 && 0 <= y2 < y && 0 <= c < 4 ==> #[trigger] out@[(y2 * 128 + x2) * 4 + c]
                        == pixel_value(atlas_lit(x2, y2)),
                forall|x2: int, c: int|
                    0 <= x2 < x && 0 <= c < 4 ==> #[trigger] out@[(y * 128 + x2) * 4 + c] == pixel_value(
                        atlas_lit(x2, y as int),
                    ),
            decreases 128 - x,
        {
            let code = (32 + (y / 8) * 16 + x / 8) as u8;
            let glyph = basic_legacy_glyph(code);
            let row = glyph[(y % 8) as usize];
            let v = glyph_pixel(row, x % 8);
            assert(v == pixel_value(atlas_lit(x as int, y as int)));
            let ghost before = out@;
            out.push(v);
            out.push(v);
            out.push(v);
            out.push(v);
            proof {
                assert forall|x2: int, y2: int, c: int|
                    0 <= x2 < 128 && 0 <= y2 < y && 0 <= c < 4 implies #[trigger] out@[(y2 * 128 + x2) * 4 + c]
                    == pixel_value(atlas_lit(x2, y2)) by {
                    assert(out@[(y2 * 128 + x2) * 4 + c] == before[(y2 * 128 + x2) * 4 + c]);
                }
                assert forall|x2: int, c: int|
                    0 <= x2 < x + 1 && 0 <= c < 4 implies #[trigger] out@[(y * 128 + x2) * 4 + c]
                    == pixel_value(atlas_lit(x2, y as int)) by {
                    if x2 < x {
                        assert(out@[(y * 128 + x2) * 4 + c] == before[(y * 128 + x2) * 4 + c]);
                    }
                }
            }
            x = x + 1;
        }
        proof {
            assert forall|x2: int, y2: int, c: int|
                0 <= x2 < 128 && 0 <= y2 < y + 1 && 0 <= c < 4 implies #[trigger] out@[(y2 * 128 + x2) * 4 + c]
                == pixel_value(atlas_lit(x2, y2)) by {
                if y2 == y {
                    assert(out@[(y * 128 + x2) * 4 + c] == pixel_value(atlas_lit(x2, y as int)));
                }
            }
        }
        y = y + 1;
    }
    out
}

/// Index in the atlas of the glyph drawn for `c`: its code minus 32 for a
/// printable ASCII character (codes 32 to 127), else that of `?`.
pub fn glyph_index(c: char) -> (r: u32)
    ensures
        32 <= c as int <= 127 ==> r == c as int - 32,
        !(32 <= c as int <= 127) ==> r == 31,
{
    let code = c as u32;
    if code >= 32 && code <= 127 {
        code - 32
    } else {
        63 - 32
    }
}

/// Column and row of the atlas cell that holds the glyph of `c`.
pub fn glyph_cell(c: char) -> (r: (u32, u32))
    ensures
        r.0 < ATLAS_COLS && r.1 < ATLAS_ROWS,
        32 <= c as int <= 127 ==> r.0 == (c as int - 32) % 16 && r.1 == (c as int - 32) / 16,
        !(32 <= c as int <= 127) ==> r == (15u32, 1u32),
{
    let idx = glyph_index(c);
    (idx % ATLAS_COLS, idx / ATLAS_COLS)
}

/// An RGBA image: `width` x `height` pixels of four bytes, row after row.
pub struct AtlasImage {
    pub width: u32,
    pub height: u32,
    pub rgba: Vec<u8>,
}

/// The font atlas as an image.
pub fn build_atlas() -> (r: AtlasImage)
    ensures
        r.width == ATLAS_W,
        r.height == ATLAS_H,
        r.rgba@.len() == 128 * 48 * 4,
        forall|x: int, y: int, c: int|
            0 <= x < 128 && 0 <= y < 48 && 0 <= c < 4 ==> #[trigger] r.rgba@[(y * 128 + x) * 4 + c]
                == pixel_value(atlas_lit(x, y)),
{
    AtlasImage { width: ATLAS_W, height: ATLAS_H, rgba: atlas_pixels() }
}

} // verus!
