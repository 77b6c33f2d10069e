//! Rows of the display as 64-bit words, and sprites laid over them.

use vstd::prelude::*;

verus! {

/// Number of pixels in a display row.
pub const DISPLAY_WIDTH: usize = 64;

/// Number of rows of the display.
pub const DISPLAY_HEIGHT: usize = 32;

/// Whether the pixel in column `col` of a row is lit. Column 0 is the
/// leftmost pixel and is held in bit 63.
pub open spec fn pixel(row: u64, col: int) -> bool {
    0 <= col < 64 && (row >> ((63 - col) as u64)) & 1 == 1
}

/// Whether bit `k` of a sprite byte is set, counted from the left.
pub open spec fn sprite_bit(sprite: u8, k: int) -> bool {
    0 <= k < 8 && (sprite >> ((7 - k) as u8)) & 1 == 1
}

/// The row mask of one sprite byte drawn with its leftmost pixel in column
/// `x`. Up to column 56 the whole byte fits and sits at bit `56 - x`. Further
/// right the pixels that would pass column 63 are cut off; nothing wraps
/// round to the left edge.
pub open spec fn sprite_mask(sprite: u8, x: u8) -> u64 {
    if x <= 56 {
        (sprite as u64) << ((56 - x) as u64)
    } else if x < 64 {
        (sprite as u64) >> ((x - 56) as u64)
    } else {
        0
    }
}

/// Whether laying `mask` over a row whose bits were `before` turns a lit
/// pixel off: some bit of the mask is missing from the combined row.
pub open spec fn row_collides(before: u64, mask: u64) -> bool {
    mask & (before ^ mask) != mask
}

/// Computes the row mask of a sprite byte at column `x`.
pub fn create_sprite_mask(sprite: u8, x: u8) -> (mask: u64)
    ensures
        mask == sprite_mask(sprite, x),
{
    if x <= 56 {
        (sprite as u64) << (56 - x)
    } else if x < 64 {
        (sprite as u64) >> (x - 56)
    } else {
        0
    }
}

/// Whether the pixel in column `col` of `row` is lit.
pub fn is_lit(row: u64, col: u8) -> (lit: bool)
    ensures
        lit == pixel(row, col as int),
{
    col < 64 && (row >> (63 - col)) & 1 == 1
}

/// A row collides with a mask exactly when they share a lit pixel.
pub proof fn lemma_collision_is_overlap(before: u64, mask: u64)
    ensures
        row_collides(before, mask) <==> before & mask != 0,
{
    assert((mask & (before ^ mask) != mask) <==> (before & mask != 0)) by (bit_vector);
}

/// Laying the same mask over a row twice gives the row back.
pub proof fn lemma_xor_twice(before: u64, mask: u64)
    ensures
        (before ^ mask) ^ mask == before,
{
    assert((before ^ mask) ^ mask == before) by (bit_vector);
}

/// Drawing flips exactly the pixels of the mask.
pub proof fn lemma_xor_pixel(before: u64, mask: u64, col: int)
    requires
        0 <= col < 64,
    ensures
        pixel(before ^ mask, col) == (pixel(before, col) != pixel(mask, col)),
{
    let s = (63 - col) as u64;
    assert(s < 64);
    assert((((before ^ mask) >> s) & 1 == 1) == (((before >> s) & 1 == 1) != ((mask >> s) & 1
        == 1))) by (bit_vector)
        requires
            s < 64,
    ;
}

/// A mask lights column `col` exactly when the sprite byte covers that
/// column and has the matching bit set.
pub proof fn lemma_mask_pixel(sprite: u8, x: u8, col: u8)
    requires
        col < 64,
    ensures
        pixel(sprite_mask(sprite, x), col as int) == (x <= col && sprite_bit(sprite, col - x)),
{
    let s = (63 - col) as u64;
    let wide = sprite as u64;
    if x <= 56 {
        let shift = (56 - x) as u64;
        if x <= col && col - x < 8 {
            let k = (7 - (col - x)) as u8;
            assert((((wide << shift) >> s) & 1 == 1) == ((sprite >> k) & 1 == 1)) by (bit_vector)
                requires
                    wide == sprite as u64,
                    shift <= 56,
                    s < 64,
                    s >= shift,
                    s - shift < 8,
                    k as u64 == s - shift,
            ;
        } else {
            assert(((wide << shift) >> s) & 1 == 0) by (bit_vector)
                requires
                    wide == sprite as u64,
                    shift <= 56,
                    s < 64,
                    s < shift || s - shift >= 8,
            ;
        }
    } else if x < 64 {
        let shift = (x - 56) as u64;
        if x <= col {
            let k = (7 - (col - x)) as u8;
            assert((((wide >> shift) >> s) & 1 == 1) == ((sprite >> k) & 1 == 1)) by (bit_vector)
                requires
                    wide == sprite as u64,
                    0 < shift < 8,
                    s + shift < 8,
                    k as u64 == s + shift,
            ;
        } else {
            assert(((wide >> shift) >> s) & 1 == 0) by (bit_vector)
                requires
                    wide == sprite as u64,
                    0 < shift < 8,
                    s < 64,
                    s + shift >= 8,
            ;
        }
    } else {
        assert((0u64 >> s) & 1 == 0) by (bit_vector);
    }
}

/// Where a pixel stands when the display is read row by row, left to right.
pub open spec fn position(at: (u8, u8)) -> int {
    at.0 * 64 + at.1
}

/// Whether `pixels` lists, as pairs of row and column and in reading order,
/// exactly the lit pixels of `display` that come before `limit`.
pub open spec fn lists_lit_before(pixels: Seq<(u8, u8)>, display: Seq<u64>, limit: int) -> bool {
    &&& forall|k: int|
        0 <= k < pixels.len() ==> {
            &&& (#[trigger] pixels[k]).0 < 32
            &&& pixels[k].1 < 64
            &&& position(pixels[k]) < limit
            &&& pixel(display[pixels[k].0 as int], pixels[k].1 as int)
        }
    &&& forall|row: u8, col: u8|
        row < 32 && col < 64 && position((row, col)) < limit && pixel(
            display[row as int],
            col as int,
        ) ==> #[trigger] pixels.contains((row, col))
    &&& forall|j: int, k: int|
        0 <= j < k < pixels.len() ==> position(#[trigger] pixels[j]) < position(
            #[trigger] pixels[k],
        )
}

/// A row without a set bit has no lit pixel.
pub proof fn lemma_blank_row(col: int)
    ensures
        !pixel(0, col),
{
    if 0 <= col < 64 {
        let s = (63 - col) as u64;
        assert((0u64 >> s) & 1 == 0) by (bit_vector);
    }
}

/// The lit pixels of a display as pairs of row and column, row by row and
/// from left to right within a row.
pub fn lit_pixels(display: &[u64; 32]) -> (pixels: Vec<(u8, u8)>)
    ensures
        lists_lit_before(pixels@, display@, 2048),
{
    let mut pixels: Vec<(u8, u8)> = Vec::new();
    let mut row: u8 = 0;
    while row < 32
        invariant
            row <= 32,
            lists_lit_before(pixels@, display@, row * 64),
        decreases 32 - row,
    {
        let bits = display[row as usize];
        if bits != 0 {
            let mut col: u8 = 0;
            while col < 64
                invariant
                    row < 32,
                    col <= 64,
                    bits == display@[row as int],
                    lists_lit_before(pixels@, display@, row * 64 + col),
                decreases 64 - col,
            {
                if is_lit(bits, col) {
                    let ghost listed = pixels@;
                    pixels.push((row, col));
                    proof {
                        assert(pixels@[listed.len() as int] == (row, col));
                        assert forall|r: u8, c: u8|
                            r < 32 && c < 64 && position((r, c)) < row * 64 + col + 1 && pixel(
                                display@[r as int],
                                c as int,
                            ) implies #[trigger] pixels@.contains((r, c)) by {
                            if position((r, c)) < row * 64 + col {
                                assert(listed.contains((r, c)));
                                let k = choose|k: int| 0 <= k < listed.len() && listed[k] == (r, c);
                                assert(pixels@[k] == (r, c));
                            } else {
                                assert(r == row && c == col);
                            }
                        }
                    }
                } else {
                    proof {
                        assert forall|r: u8, c: u8|
                            r < 32 && c < 64 && position((r, c)) < row * 64 + col + 1 && pixel(
                                display@[r as int],
                                c as int,
                            ) implies #[trigger] pixels@.contains((r, c)) by {
                            if position((r, c)) >= row * 64 + col {
                                assert(r == row && c == col);
                            }
                        }
                    }
                }
                col += 1;
            }
        } else {
            proof {
                assert forall|r: u8, c: u8|
                    r < 32 && c < 64 && position((r, c)) < (row + 1) * 64 && pixel(
                        display@[r as int],
                        c as int,
                    ) implies #[trigger] pixels@.contains((r, c)) by {
                    if r == row {
                        lemma_blank_row(c as int);
                    }
                }
            }
        }
        row += 1;
    }
    pixels
}

} // verus!
