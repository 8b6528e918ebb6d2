//! ColorQuantizer: maps a true-color sample to an index in the standard
//! 256-entry terminal palette.
//!
//! The palette is structured as indices 0-15 (basic colors, never produced
//! here), 16-231 (a 6x6x6 color cube) and 232-255 (a 24-step grayscale
//! ramp).

use vstd::prelude::*;
use vstd::arithmetic::div_mod::{lemma_div_is_ordered, lemma_div_pos_is_pos};

verus! {

/// Palette index of a gray sample `v` on the 24-step grayscale ramp
/// (indices 232..=255): the values 8..=248 are distributed evenly across
/// the ramp's steps. Meaningful for `8 <= v <= 248`.
pub open spec fn gray_ramp_index(v: int) -> int {
    232 + ((v - 8) * 24) / 241
}

/// Palette index of a color sample in the 6x6x6 color cube
/// (indices 16..=231), with six quantization levels per channel.
pub open spec fn cube_index(r: int, g: int, b: int) -> int {
    16 + 36 * (r / 51) + 6 * (g / 51) + b / 51
}

/// The palette index the quantizer assigns to an 8-bit
/// (red, green, blue) triple.
pub open spec fn quantized(r: u8, g: u8, b: u8) -> int {
    if r == g && g == b {
        if r < 8 {
            16
        } else if r > 248 {
            231
        } else {
            gray_ramp_index(r as int)
        }
    } else {
        cube_index(r as int, g as int, b as int)
    }
}

/// Map one (red, green, blue) sample to its palette index.
///
/// Gray samples land on the grayscale ramp, except at the extremes, where
/// the cube's own black (16) and white (231) are used for compatibility
/// with terminals lacking true ramp endpoints. Every other sample lands in
/// the 6x6x6 color cube. Total over all triples; no side effects.
pub fn rgb_to_256_color(r: u8, g: u8, b: u8) -> (idx: u8)
    ensures
        idx as int == quantized(r, g, b),
{
    if r == g && g == b {
        if r < 8 {
            return 16;
        }
        if r > 248 {
            return 231;
        }
        let v: u32 = r as u32;
        proof {
            lemma_div_is_ordered((r - 8) * 24, 5760, 241);
        }
        let ramp: u32 = 232 + ((v - 8) * 24) / 241;
        ramp as u8
    } else {
        proof {
            lemma_div_is_ordered(r as int, 255, 51);
            lemma_div_is_ordered(g as int, 255, 51);
            lemma_div_is_ordered(b as int, 255, 51);
        }
        16 + 36 * (r / 51) + 6 * (g / 51) + b / 51
    }
}

/// Law: a gray triple below the ramp maps to the cube's black, one above
/// it to the cube's white, and every other gray triple lands inside the
/// ramp, which is not collapsed to a point: its endpoints reach 232
/// and 255.
pub proof fn lemma_gray_quantization(v: u8)
    ensures
        v < 8 ==> quantized(v, v, v) == 16,
        v > 248 ==> quantized(v, v, v) == 231,
        8 <= v <= 248 ==> 232 <= quantized(v, v, v) <= 255,
        quantized(8, 8, 8) == 232,
        quantized(248, 248, 248) == 255,
{
    if 8 <= v <= 248 {
        lemma_div_pos_is_pos((v - 8) * 24, 241);
        lemma_div_is_ordered((v - 8) * 24, 5760, 241);
    }
}

/// Law: on the gray range 8..=248 the quantizer is monotone
/// non-decreasing in the gray value.
pub proof fn lemma_gray_monotone(v1: u8, v2: u8)
    requires
        8 <= v1 <= v2 <= 248,
    ensures
        quantized(v1, v1, v1) <= quantized(v2, v2, v2),
{
    lemma_div_is_ordered((v1 - 8) * 24, (v2 - 8) * 24, 241);
}

/// Law: every non-gray triple maps into the 6x6x6 color cube,
/// indices 16..=231.
pub proof fn lemma_cube_range(r: u8, g: u8, b: u8)
    requires
        !(r == g && g == b),
    ensures
        16 <= quantized(r, g, b) <= 231,
{
    lemma_div_pos_is_pos(r as int, 51);
    lemma_div_pos_is_pos(g as int, 51);
    lemma_div_pos_is_pos(b as int, 51);
    lemma_div_is_ordered(r as int, 255, 51);
    lemma_div_is_ordered(g as int, 255, 51);
    lemma_div_is_ordered(b as int, 255, 51);
}

} // verus!
