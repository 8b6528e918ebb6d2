//! AspectFitter: computes the character-grid dimensions that an image is
//! drawn at, preserving its visual aspect ratio inside the terminal.
//!
//! Terminal character cells are taller than wide, so a vertical
//! compression factor (a positive rational) is applied to the image's
//! aspect ratio before fitting: the effective aspect ratio of an image of
//! `w x h` pixels under compression `n/d` is `(w*n) / (h*d)`. The fit
//! makes the wider-than-terminal image span the full terminal width, and
//! any other image the full terminal height, rounding the free axis to
//! the nearest integer.

use vstd::prelude::*;
use vstd::arithmetic::div_mod::{
    lemma_div_pos_is_pos, lemma_fundamental_div_mod, lemma_fundamental_div_mod_converse_div,
    lemma_mod_division_less_than_divisor, lemma_multiply_divide_lt,
};

verus! {

/// A snapshot of the terminal's size in character cells.
#[derive(Clone, Copy, PartialEq, Eq, Structural, Debug)]
pub struct TerminalGeometry {
    pub columns: u32,
    pub rows: u32,
}

/// The size, in character cells, that a render pass draws the image at.
#[derive(Clone, Copy, PartialEq, Eq, Structural, Debug)]
pub struct TargetDimensions {
    pub width: u32,
    pub height: u32,
}

/// The vertical compression factor `num/den` applied to an image's
/// height when fitting, both parts positive.
#[derive(Clone, Copy, PartialEq, Eq, Structural, Debug)]
pub struct Compression {
    pub num: u32,
    pub den: u32,
}

impl Compression {
    pub open spec fn wf(self) -> bool {
        self.num >= 1 && self.den >= 1
    }
}

/// The quotient `p / q` rounded to the nearest integer, halves rounding
/// up. Meaningful for `q > 0`.
pub open spec fn round_div(p: int, q: int) -> int {
    (2 * p + q) / (2 * q)
}

/// True when the image's effective aspect ratio `(iw*cn)/(ih*cd)`
/// exceeds the terminal's aspect ratio `cols/rows`: the image is
/// relatively wider than the terminal.
pub open spec fn image_wider(cols: int, rows: int, iw: int, ih: int, cn: int, cd: int) -> bool {
    iw * cn * rows > cols * (ih * cd)
}

/// The width, in character cells, of the fitted image.
pub open spec fn fit_width(cols: int, rows: int, iw: int, ih: int, cn: int, cd: int) -> int {
    if image_wider(cols, rows, iw, ih, cn, cd) {
        cols
    } else {
        round_div(rows * (iw * cn), ih * cd)
    }
}

/// The height, in character cells, of the fitted image.
pub open spec fn fit_height(cols: int, rows: int, iw: int, ih: int, cn: int, cd: int) -> int {
    if image_wider(cols, rows, iw, ih, cn, cd) {
        round_div(cols * (ih * cd), iw * cn)
    } else {
        rows
    }
}

/// Multiplying numerator and denominator by a common positive factor
/// leaves a truncating quotient unchanged.
proof fn lemma_div_scale(x: int, d: int, k: int)
    requires
        0 <= x,
        1 <= d,
        1 <= k,
    ensures
        (k * x) / (k * d) == x / d,
{
    let q = x / d;
    let r = x % d;
    lemma_fundamental_div_mod(x, d);
    lemma_mod_division_less_than_divisor(x, d);
    assert(k * x == q * (k * d) + k * r) by (nonlinear_arith)
        requires
            x == d * q + r,
    ;
    assert(0 <= k * r < k * d) by (nonlinear_arith)
        requires
            0 <= r < d,
            1 <= k,
    ;
    lemma_fundamental_div_mod_converse_div(k * x, k * d, q, k * r);
}

/// Scaling a rational `p/q` by a common positive factor leaves its
/// rounded value unchanged.
proof fn lemma_round_div_scale(p: int, q: int, k: int)
    requires
        0 <= p,
        1 <= q,
        1 <= k,
    ensures
        round_div(k * p, k * q) == round_div(p, q),
{
    assert(2 * (k * p) + k * q == k * (2 * p + q)) by (nonlinear_arith);
    assert(2 * (k * q) == k * (2 * q)) by (nonlinear_arith);
    lemma_div_scale(2 * p + q, 2 * q, k);
}

/// A rounded quotient `p/q` stays at or below any `k` with `p <= q*k`.
proof fn lemma_round_div_le(p: int, q: int, k: int)
    requires
        0 <= p,
        1 <= q,
        0 <= k,
        p <= q * k,
    ensures
        0 <= round_div(p, q) <= k,
{
    lemma_div_pos_is_pos(2 * p + q, 2 * q);
    assert(2 * p + q < (2 * q) * (k + 1)) by (nonlinear_arith)
        requires
            0 <= p,
            1 <= q,
            0 <= k,
            p <= q * k,
    ;
    lemma_multiply_divide_lt(2 * p + q, 2 * q, k + 1);
}

/// Fit an image of `image_width x image_height` pixels into the given
/// terminal under the given vertical compression.
pub fn scale_image(
    terminal: TerminalGeometry,
    image_width: u32,
    image_height: u32,
    compression: Compression,
) -> (target: TargetDimensions)
    requires
        terminal.columns >= 1,
        terminal.rows >= 1,
        image_width >= 1,
        image_height >= 1,
        compression.wf(),
    ensures
        target.width as int == fit_width(
            terminal.columns as int,
            terminal.rows as int,
            image_width as int,
            image_height as int,
            compression.num as int,
            compression.den as int,
        ),
        target.height as int == fit_height(
            terminal.columns as int,
            terminal.rows as int,
            image_width as int,
            image_height as int,
            compression.num as int,
            compression.den as int,
        ),
{
    let cols: u128 = terminal.columns as u128;
    let rows: u128 = terminal.rows as u128;
    proof {
        assert((image_width as int) * (compression.num as int) < 0x1_0000_0000_0000_0000)
            by (nonlinear_arith)
            requires
                image_width < 0x1_0000_0000,
                compression.num < 0x1_0000_0000,
        ;
        assert((image_height as int) * (compression.den as int) < 0x1_0000_0000_0000_0000)
            by (nonlinear_arith)
            requires
                image_height < 0x1_0000_0000,
                compression.den < 0x1_0000_0000,
        ;
    }
    let en: u128 = (image_width as u128) * (compression.num as u128);
    let ed: u128 = (image_height as u128) * (compression.den as u128);
    proof {
        assert(1 <= (image_width as int) * (compression.num as int) && 1 <= (image_height as int)
            * (compression.den as int)) by (nonlinear_arith)
            requires
                1 <= image_width,
                1 <= compression.num,
                1 <= image_height,
                1 <= compression.den,
        ;
        assert((en as int) * (rows as int) < 0x1_0000_0000_0000_0000_0000_0000)
            by (nonlinear_arith)
            requires
                en < 0x1_0000_0000_0000_0000,
                rows < 0x1_0000_0000,
        ;
        assert((cols as int) * (ed as int) < 0x1_0000_0000_0000_0000_0000_0000)
            by (nonlinear_arith)
            requires
                ed < 0x1_0000_0000_0000_0000,
                cols < 0x1_0000_0000,
        ;
    }
    if en * rows > cols * ed {
        let p: u128 = cols * ed;
        proof {
            lemma_round_div_le(p as int, en as int, terminal.rows as int);
        }
        let height: u128 = (2 * p + en) / (2 * en);
        TargetDimensions { width: terminal.columns, height: height as u32 }
    } else {
        let p: u128 = rows * en;
        proof {
            assert((rows as int) * (en as int) <= (ed as int) * (cols as int))
                by (nonlinear_arith)
                requires
                    (en as int) * (rows as int) <= (cols as int) * (ed as int),
            ;
            lemma_round_div_le(p as int, ed as int, terminal.columns as int);
        }
        let width: u128 = (2 * p + ed) / (2 * ed);
        TargetDimensions { width: width as u32, height: terminal.rows }
    }
}

/// Law: the fitted size never exceeds the terminal on either axis, and
/// at least one axis spans its full terminal bound. (Rounding, or an
/// image whose effective aspect ratio equals the terminal's, can make
/// the other axis reach its bound as well.)
pub proof fn lemma_fit_within_bounds(cols: int, rows: int, iw: int, ih: int, cn: int, cd: int)
    requires
        1 <= cols,
        1 <= rows,
        1 <= iw,
        1 <= ih,
        1 <= cn,
        1 <= cd,
    ensures
        0 <= fit_width(cols, rows, iw, ih, cn, cd) <= cols,
        0 <= fit_height(cols, rows, iw, ih, cn, cd) <= rows,
        fit_width(cols, rows, iw, ih, cn, cd) == cols || fit_height(cols, rows, iw, ih, cn, cd)
            == rows,
{
    assert(1 <= iw * cn && 1 <= ih * cd && 0 <= cols * (ih * cd) && 0 <= rows * (iw * cn))
        by (nonlinear_arith)
        requires
            1 <= cols,
            1 <= rows,
            1 <= iw,
            1 <= ih,
            1 <= cn,
            1 <= cd,
    ;
    if image_wider(cols, rows, iw, ih, cn, cd) {
        assert(cols * (ih * cd) <= (iw * cn) * rows) by (nonlinear_arith)
            requires
                iw * cn * rows > cols * (ih * cd),
        ;
        lemma_round_div_le(cols * (ih * cd), iw * cn, rows);
    } else {
        assert(rows * (iw * cn) <= (ih * cd) * cols) by (nonlinear_arith)
            requires
                iw * cn * rows <= cols * (ih * cd),
        ;
        lemma_round_div_le(rows * (iw * cn), ih * cd, cols);
    }
}

/// Law: the fit is scale-invariant — doubling both image dimensions
/// leaves the fitted size unchanged.
pub proof fn lemma_fit_scale_invariant(cols: int, rows: int, iw: int, ih: int, cn: int, cd: int)
    requires
        1 <= cols,
        1 <= rows,
        1 <= iw,
        1 <= ih,
        1 <= cn,
        1 <= cd,
    ensures
        fit_width(cols, rows, 2 * iw, 2 * ih, cn, cd) == fit_width(cols, rows, iw, ih, cn, cd),
        fit_height(cols, rows, 2 * iw, 2 * ih, cn, cd) == fit_height(cols, rows, iw, ih, cn, cd),
{
    assert((2 * iw) * cn * rows == 2 * (iw * cn * rows) && cols * ((2 * ih) * cd) == 2 * (cols * (
    ih * cd)) && (2 * iw) * cn == 2 * (iw * cn) && (2 * ih) * cd == 2 * (ih * cd) && rows * (2 * (
    iw * cn)) == 2 * (rows * (iw * cn)) && cols * (2 * (ih * cd)) == 2 * (cols * (ih * cd)))
        by (nonlinear_arith)
    ;
    assert(0 <= rows * (iw * cn) && 1 <= ih * cd && 0 <= cols * (ih * cd) && 1 <= iw * cn)
        by (nonlinear_arith)
        requires
            1 <= cols,
            1 <= rows,
            1 <= iw,
            1 <= ih,
            1 <= cn,
            1 <= cd,
    ;
    lemma_round_div_scale(rows * (iw * cn), ih * cd, 2);
    lemma_round_div_scale(cols * (ih * cd), iw * cn, 2);
}

} // verus!
