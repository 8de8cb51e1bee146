use vstd::prelude::*;

use crate::board::Board;
use crate::random::{clamp_draw, RandomSource};

verus! {

/// One grid cell, 1-based inside the playable area. Serves both as a snake
/// segment and as the food position.
#[derive(Clone, Copy, PartialEq, Eq, Structural, Debug)]
pub struct Item {
    pub x: u32,
    pub y: u32,
}

impl Item {
    /// Exact-position constructor.
    pub fn at(x: u32, y: u32) -> (it: Item)
        ensures
            it == (Item { x, y }),
    {
        Item { x, y }
    }

    /// Places food on a random cell of the board: one draw for the column,
    /// then one draw for the row. The cell is always inside the playable
    /// area; it may coincide with a cell the snake occupies.
    pub fn spawn<R: RandomSource>(board: &Board, rng: &mut R) -> (it: Item)
        requires
            board.wf(),
        ensures
            board.contains_spec(it),
            old(rng).upcoming().len() >= 2 ==> {
                &&& it.x == clamp_draw(old(rng).upcoming()[0], board.width)
                &&& it.y == clamp_draw(old(rng).upcoming()[1], board.height)
                &&& final(rng).upcoming() == old(rng).upcoming().skip(2)
            },
            old(rng).upcoming().len() < 2 ==> final(rng).upcoming().len() == 0,
    {
        let x = rng.next_in_range(board.width);
        let y = rng.next_in_range(board.height);
        proof {
            if old(rng).upcoming().len() >= 2 {
                assert(rng.upcoming() =~= old(rng).upcoming().skip(2));
            }
        }
        Item { x, y }
    }
}

} // verus!
