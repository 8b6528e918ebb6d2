//! Renderer: lays a frame grid out as the exact byte stream written to
//! the terminal.
//!
//! Each cell becomes one escape sequence that sets the background color
//! to the cell's palette index (ASCII `ESC [48;5;<index>m`), one blank
//! character, and a reset code (`ESC [0m`); each row ends with a
//! newline; the frame ends with the one-line exit hint
//! `Press Ctrl-C to Exit`. Rows and columns keep the grid's row-major
//! order. The writing itself is an outside effect; this module pins the
//! bytes down.

use vstd::prelude::*;
use crate::frame::{rows_view, FrameGrid};

verus! {

/// The decimal digits of `n` as ASCII bytes, most significant first.
/// Meaningful for `n >= 0`.
pub open spec fn decimal_digits(n: int) -> Seq<u8>
    decreases n,
{
    if n < 10 {
        seq![(48 + n) as u8]
    } else {
        decimal_digits(n / 10).push((48 + n % 10) as u8)
    }
}

/// The bytes of one cell: set the background color to the palette
/// index (ESC, `[48;5;`, the index in decimal), one blank, and the
/// reset code (ESC, `[0m`).
pub open spec fn cell_bytes(idx: u8) -> Seq<u8> {
    seq![27u8, 91u8, 52u8, 56u8, 59u8, 53u8, 59u8] + decimal_digits(idx as int) + seq![
        109u8,
        32u8,
        27u8,
        91u8,
        48u8,
        109u8,
    ]
}

/// The bytes of one grid row starting at cell `i`: the remaining cells
/// in order, then the newline that terminates the row.
pub open spec fn row_bytes_from(row: Seq<u8>, i: int) -> Seq<u8>
    decreases row.len() - i,
{
    if i < 0 || i >= row.len() {
        seq![10u8]
    } else {
        cell_bytes(row[i]) + row_bytes_from(row, i + 1)
    }
}

/// The bytes of one grid row: its cells left to right, then a newline.
pub open spec fn row_bytes(row: Seq<u8>) -> Seq<u8> {
    row_bytes_from(row, 0)
}

/// The bytes of the rows starting at row `i`, top to bottom.
pub open spec fn frame_bytes_from(rows: Seq<Seq<u8>>, i: int) -> Seq<u8>
    decreases rows.len() - i,
{
    if i < 0 || i >= rows.len() {
        Seq::empty()
    } else {
        row_bytes(rows[i]) + frame_bytes_from(rows, i + 1)
    }
}

/// The bytes of a whole frame: its rows top to bottom.
pub open spec fn frame_bytes(rows: Seq<Seq<u8>>) -> Seq<u8> {
    frame_bytes_from(rows, 0)
}

/// The exit hint line printed after the frame:
/// `Press Ctrl-C to Exit` and a newline, as ASCII bytes.
pub open spec fn exit_hint_bytes() -> Seq<u8> {
    seq![
        80u8,
        114u8,
        101u8,
        115u8,
        115u8,
        32u8,
        67u8,
        116u8,
        114u8,
        108u8,
        45u8,
        67u8,
        32u8,
        116u8,
        111u8,
        32u8,
        69u8,
        120u8,
        105u8,
        116u8,
        10u8,
    ]
}

/// Everything one render pass writes: the frame, then the exit hint.
pub open spec fn render_output(rows: Seq<Seq<u8>>) -> Seq<u8> {
    frame_bytes(rows) + exit_hint_bytes()
}

/// The bytes that clear the screen and home the cursor (ESC `[2J`,
/// ESC `[1;1H`) before a resize-triggered render pass.
pub open spec fn clear_bytes() -> Seq<u8> {
    seq![27u8, 91u8, 50u8, 74u8, 27u8, 91u8, 49u8, 59u8, 49u8, 72u8]
}

/// Append the decimal digits of `n` to `out`.
fn push_decimal(out: &mut Vec<u8>, n: u8)
    ensures
        final(out)@ == old(out)@ + decimal_digits(n as int),
{
    if n >= 100 {
        out.push(48 + n / 100);
        out.push(48 + (n / 10) % 10);
        out.push(48 + n % 10);
        proof {
            reveal_with_fuel(decimal_digits, 3);
            vstd::arithmetic::div_mod::lemma_div_denominator(n as int, 10, 10);
            assert(out@ =~= old(out)@ + decimal_digits(n as int));
        }
    } else if n >= 10 {
        out.push(48 + n / 10);
        out.push(48 + n % 10);
        proof {
            reveal_with_fuel(decimal_digits, 2);
            assert(out@ =~= old(out)@ + decimal_digits(n as int));
        }
    } else {
        out.push(48 + n);
        proof {
            assert(out@ =~= old(out)@ + decimal_digits(n as int));
        }
    }
}

/// Append the escape sequence of one cell to `out`.
fn push_cell(out: &mut Vec<u8>, idx: u8)
    ensures
        final(out)@ == old(out)@ + cell_bytes(idx),
{
    out.push(27u8);
    out.push(91u8);
    out.push(52u8);
    out.push(56u8);
    out.push(59u8);
    out.push(53u8);
    out.push(59u8);
    push_decimal(out, idx);
    out.push(109u8);
    out.push(32u8);
    out.push(27u8);
    out.push(91u8);
    out.push(48u8);
    out.push(109u8);
    proof {
        assert(out@ =~= old(out)@ + cell_bytes(idx));
    }
}

/// Append one grid row, cells left to right and the closing newline.
fn push_row(out: &mut Vec<u8>, row: &Vec<u8>)
    ensures
        final(out)@ == old(out)@ + row_bytes(row@),
{
    let ghost entry = out@;
    let mut c: usize = 0;
    while c < row.len()
        invariant
            c <= row@.len(),
            entry + row_bytes(row@) == out@ + row_bytes_from(row@, c as int),
        decreases row@.len() - c,
    {
        push_cell(out, row[c]);
        proof {
            assert(entry + row_bytes(row@) =~= out@ + row_bytes_from(row@, c as int + 1));
        }
        c = c + 1;
    }
    out.push(10u8);
    proof {
        assert(out@ =~= entry + row_bytes(row@));
    }
}

/// Lay a frame grid out as the byte stream of one render pass: every
/// row as colored blocks, top to bottom, then the exit hint.
pub fn render_bitmap(grid: &FrameGrid) -> (out: Vec<u8>)
    ensures
        out@ == render_output(rows_view(grid.cells@)),
{
    let mut out: Vec<u8> = Vec::new();
    let mut r: usize = 0;
    while r < grid.cells.len()
        invariant
            r <= grid.cells@.len(),
            frame_bytes(rows_view(grid.cells@)) == out@ + frame_bytes_from(
                rows_view(grid.cells@),
                r as int,
            ),
        decreases grid.cells@.len() - r,
    {
        push_row(&mut out, &grid.cells[r]);
        proof {
            assert(frame_bytes(rows_view(grid.cells@)) =~= out@ + frame_bytes_from(
                rows_view(grid.cells@),
                r as int + 1,
            ));
        }
        r = r + 1;
    }
    out.push(80u8);
    out.push(114u8);
    out.push(101u8);
    out.push(115u8);
    out.push(115u8);
    out.push(32u8);
    out.push(67u8);
    out.push(116u8);
    out.push(114u8);
    out.push(108u8);
    out.push(45u8);
    out.push(67u8);
    out.push(32u8);
    out.push(116u8);
    out.push(111u8);
    out.push(32u8);
    out.push(69u8);
    out.push(120u8);
    out.push(105u8);
    out.push(116u8);
    out.push(10u8);
    proof {
        assert(out@ =~= render_output(rows_view(grid.cells@)));
    }
    out
}

/// The screen-clear escape sequence written before a resize-triggered
/// render pass.
pub fn clear_sequence() -> (out: Vec<u8>)
    ensures
        out@ == clear_bytes(),
{
    let mut out: Vec<u8> = Vec::new();
    out.push(27u8);
    out.push(91u8);
    out.push(50u8);
    out.push(74u8);
    out.push(27u8);
    out.push(91u8);
    out.push(49u8);
    out.push(59u8);
    out.push(49u8);
    out.push(72u8);
    proof {
        assert(out@ =~= clear_bytes());
    }
    out
}

} // verus!
