//! What the host takes from the machine after a cycle.

use vstd::prelude::*;

use crate::constants::{DISPLAY_HEIGHT, DISPLAY_SCALE, DISPLAY_WIDTH};

verus! {

/// A rectangle of the window, in screen pixels.
#[derive(Clone, Copy, Debug, PartialEq, Eq)]
pub struct PixelRect {
    /// Distance of the left edge from the left edge of the window.
    pub x: i32,
    /// Distance of the top edge from the top edge of the window.
    pub y: i32,
    pub width: u32,
    pub height: u32,
}

/// The square of the window that shows the cell in column `x`, row `y`.
pub open spec fn cell_rect(x: int, y: int) -> PixelRect {
    PixelRect {
        x: (x * DISPLAY_SCALE) as i32,
        y: (y * DISPLAY_SCALE) as i32,
        width: DISPLAY_SCALE as u32,
        height: DISPLAY_SCALE as u32,
    }
}

/// The first `count` cells of the grid, numbered column by column from the
/// top left: the cell `k` lies in column `k / DISPLAY_HEIGHT`, row
/// `k % DISPLAY_HEIGHT`.
pub open spec fn cells(count: nat) -> Seq<int> {
    Seq::new(count, |k: int| k)
}

/// Whether the cell numbered `k` is lit.
pub open spec fn lit(grid: Seq<Seq<u8>>) -> spec_fn(int) -> bool {
    |k: int| grid[k / (DISPLAY_HEIGHT as int)][k % (DISPLAY_HEIGHT as int)] == 1
}

/// The squares of the lit cells among the first `count` cells, in the order
/// of the cells.
pub open spec fn lit_rects(grid: Seq<Seq<u8>>, count: nat) -> Seq<PixelRect> {
    cells(count).filter(lit(grid)).map_values(
        |k: int| cell_rect(k / (DISPLAY_HEIGHT as int), k % (DISPLAY_HEIGHT as int)),
    )
}

/// One more cell: its square is added where it is lit.
proof fn lemma_lit_rects_next(grid: Seq<Seq<u8>>, count: nat)
    ensures
        lit_rects(grid, count + 1) == if lit(grid)(count as int) {
            lit_rects(grid, count).push(
                cell_rect(count as int / (DISPLAY_HEIGHT as int), count as int % (DISPLAY_HEIGHT as int)),
            )
        } else {
            lit_rects(grid, count)
        },
{
    reveal(Seq::filter);
    assert(cells(count + 1).drop_last() =~= cells(count));
    assert(cells(count + 1).last() == count);
    let kept = cells(count).filter(lit(grid));
    if lit(grid)(count as int) {
        assert(cells(count + 1).filter(lit(grid)) == kept.push(count as int));
        assert(lit_rects(grid, count + 1) =~= lit_rects(grid, count).push(
            cell_rect(count as int / (DISPLAY_HEIGHT as int), count as int % (DISPLAY_HEIGHT as int)),
        ));
    } else {
        assert(cells(count + 1).filter(lit(grid)) == kept);
    }
}

/// A frame handed to the host: the grid, and whether it was written since
/// the frame before.
#[derive(Debug, PartialEq, Eq)]
pub struct State {
    /// Whether the grid was written since the last frame was taken.
    pub draw_flag: bool,
    /// The grid by column, then row; a cell is 1 where it is lit.
    pub display_buffer: [[u8; DISPLAY_HEIGHT]; DISPLAY_WIDTH],
}

impl Clone for State {
    fn clone(&self) -> (copy: State)
        ensures
            copy == *self,
    {
        State { draw_flag: self.draw_flag, display_buffer: self.display_buffer }
    }
}

impl State {
    /// The grid as a sequence of columns.
    pub open spec fn grid(&self) -> Seq<Seq<u8>> {
        Seq::new(DISPLAY_WIDTH as nat, |x: int| self.display_buffer@[x]@)
    }

    /// What the host is to paint for this frame: the square of every lit
    /// cell, column by column from the left and, in a column, from the top.
    pub fn lit_rects(&self) -> (rects: Vec<PixelRect>)
        ensures
            rects@ == lit_rects(self.grid(), (DISPLAY_WIDTH * DISPLAY_HEIGHT) as nat),
    {
        let mut rects: Vec<PixelRect> = Vec::new();
        proof {
            reveal(Seq::filter);
            assert(rects@ =~= lit_rects(self.grid(), 0));
        }
        let mut x: usize = 0;
        while x < DISPLAY_WIDTH
            invariant
                x <= DISPLAY_WIDTH,
                rects@ == lit_rects(self.grid(), (x * DISPLAY_HEIGHT) as nat),
            decreases DISPLAY_WIDTH - x,
        {
            let mut y: usize = 0;
            while y < DISPLAY_HEIGHT
                invariant
                    x < DISPLAY_WIDTH,
                    y <= DISPLAY_HEIGHT,
                    rects@ == lit_rects(self.grid(), (x * DISPLAY_HEIGHT + y) as nat),
                decreases DISPLAY_HEIGHT - y,
            {
                proof {
                    lemma_lit_rects_next(self.grid(), (x * DISPLAY_HEIGHT + y) as nat);
                }
                if self.display_buffer[x][y] == 1 {
                    rects.push(
                        PixelRect {
                            x: (x * DISPLAY_SCALE) as i32,
                            y: (y * DISPLAY_SCALE) as i32,
                            width: DISPLAY_SCALE as u32,
                            height: DISPLAY_SCALE as u32,
                        },
                    );
                }
                y += 1;
            }
            x += 1;
        }
        rects
    }

    /// Takes a frame: the frame carries the redraw flag as it stood, and the
    /// flag itself is cleared, so that the next frame asks for a redraw only
    /// if the grid is written again.
    pub fn new(draw_flag: &mut bool, display_buffer: [[u8; DISPLAY_HEIGHT]; DISPLAY_WIDTH]) -> (state:
        State)
        ensures
            state.draw_flag == *old(draw_flag),
            state.display_buffer == display_buffer,
            !*final(draw_flag),
    {
        let state = State { draw_flag: *draw_flag, display_buffer };

        if *draw_flag {
            *draw_flag = false;
        }
        state
    }
}

} // verus!
