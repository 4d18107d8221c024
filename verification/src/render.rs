//! The geometry the renderer draws.  The drawing surface is a collaborator
//! that fills rectangles; this module computes which rectangles: one per
//! filled sprite cell, and the target box of a text texture.

use vstd::prelude::*;

use crate::geom::Rect;
use crate::sprite::grid_wf;
use crate::WINDOW_H;
use crate::WINDOW_W;

verus! {

/// The rectangles of one sprite row's filled cells from column `col` on, in
/// column order.
pub open spec fn row_rects(row: Seq<i32>, row_ix: int, x: int, y: int, col: int) -> Seq<Rect>
    decreases row.len() - col,
{
    if col >= row.len() {
        Seq::empty()
    } else if row[col] == 1 {
        seq![
            Rect {
                x: ((x + col * 5) as i32),
                y: ((y + row_ix * 5) as i32),
                w: 5u32,
                h: 5u32,
            },
        ] + row_rects(row, row_ix, x, y, col + 1)
    } else {
        row_rects(row, row_ix, x, y, col + 1)
    }
}

/// The rectangles of a grid's filled cells from row `row` on, row-major.
pub open spec fn grid_rects(g: Seq<Vec<i32>>, x: int, y: int, row: int) -> Seq<Rect>
    decreases g.len() - row,
{
    if row >= g.len() {
        Seq::empty()
    } else {
        row_rects(g[row]@, row, x, y, 0) + grid_rects(g, x, y, row + 1)
    }
}

/// One screen rectangle per filled cell of the sprite, scaled by the pixel
/// size, in row-major order; the renderer fills each of them.
pub fn cell_rects(design: &Vec<Vec<i32>>, x: i32, y: i32) -> (r: Vec<Rect>)
    requires
        grid_wf(design@),
        -17000000 <= x <= 17000000,
        -17000000 <= y <= 17000000,
    ensures
        r@ == grid_rects(design@, x as int, y as int, 0),
{
    let mut r: Vec<Rect> = Vec::new();
    let mut row: usize = 0;
    while row < design.len()
        invariant
            row <= design@.len(),
            grid_wf(design@),
            -17000000 <= x <= 17000000,
            -17000000 <= y <= 17000000,
            r@ + grid_rects(design@, x as int, y as int, row as int) == grid_rects(
                design@,
                x as int,
                y as int,
                0,
            ),
        decreases design@.len() - row,
    {
        let ghost row_start = r@;
        let cols = design[row].len();
        let mut col: usize = 0;
        while col < cols
            invariant
                row < design@.len(),
                col <= cols,
                cols == design@[row as int]@.len(),
                grid_wf(design@),
                -17000000 <= x <= 17000000,
                -17000000 <= y <= 17000000,
                r@ + row_rects(design@[row as int]@, row as int, x as int, y as int, col as int)
                    == row_start + row_rects(design@[row as int]@, row as int, x as int, y as int, 0),
            decreases cols - col,
        {
            if design[row][col] == 1 {
                let rect = Rect::new(
                    x + (col as i32) * 5,
                    y + (row as i32) * 5,
                    5,
                    5,
                );
                r.push(rect);
            }
            col += 1;
        }
        row += 1;
    }
    r
}

/// Where text may be placed on the screen.
#[derive(Clone, Copy, Debug, PartialEq, Eq, Structural)]
pub enum Position {
    Center,
    TopLeft,
    TopRight,
    BottomLeft,
    BottomRight,
}

/// Division by two rounding toward zero, as the screen centring does.
pub open spec fn half_toward_zero(a: int) -> int {
    if a >= 0 {
        a / 2
    } else {
        -((-a) / 2)
    }
}

/// The target box of a rendered text texture of the given size: centred on
/// the screen, or inset in the chosen corner band.
pub fn text_target_rect(position: Position, text_w: u32, text_h: u32) -> (r: Rect)
    requires
        text_w <= 1000000,
        text_h <= 1000000,
    ensures
        position is Center ==> r == (Rect {
            x: (half_toward_zero(WINDOW_W - text_w) as i32),
            y: (half_toward_zero(WINDOW_H - text_h) as i32),
            w: text_w,
            h: text_h,
        }),
        position is TopLeft ==> r == (Rect { x: 10, y: 15, w: text_w, h: text_h }),
        position is TopRight ==> r == (Rect {
            x: ((WINDOW_W - 10 - text_w) as i32),
            y: 15,
            w: text_w,
            h: text_h,
        }),
        position is BottomLeft ==> r == (Rect {
            x: 10,
            y: ((WINDOW_H * 4 / 5) as i32),
            w: text_w,
            h: text_h,
        }),
        position is BottomRight ==> r == (Rect {
            x: ((WINDOW_W - 10 - text_w) as i32),
            y: ((WINDOW_H * 4 / 5) as i32),
            w: text_w,
            h: text_h,
        }),
{
    match position {
        Position::Center => Rect::new(
            (WINDOW_W - text_w as i32) / 2,
            (WINDOW_H - text_h as i32) / 2,
            text_w,
            text_h,
        ),
        Position::TopLeft => Rect::new(10, 15, text_w, text_h),
        Position::TopRight => Rect::new(WINDOW_W - 10 - text_w as i32, 15, text_w, text_h),
        Position::BottomLeft => Rect::new(10, WINDOW_H * 4 / 5, text_w, text_h),
        Position::BottomRight => Rect::new(
            WINDOW_W - 10 - text_w as i32,
            WINDOW_H * 4 / 5,
            text_w,
            text_h,
        ),
    }
}

} // verus!
