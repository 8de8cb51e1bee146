use vstd::prelude::*;

use crate::board::Board;
use crate::direction::Direction;
use crate::item::Item;
use crate::random::{clamp_draw, RandomSource};

verus! {

/// The cell one step from `h` in direction `d`. Meaningful only when
/// `can_step(h, d)` holds; the step may leave the playable area, which is
/// exactly how a boundary violation is detected downstream.
pub open spec fn step_of(h: Item, d: Direction) -> Item {
    match d {
        Direction::Up => Item { x: h.x, y: (h.y - 1) as u32 },
        Direction::Down => Item { x: h.x, y: (h.y + 1) as u32 },
        Direction::Left => Item { x: (h.x - 1) as u32, y: h.y },
        Direction::Right => Item { x: (h.x + 1) as u32, y: h.y },
    }
}

/// `a` and `b` differ by exactly one cell, horizontally or vertically.
pub open spec fn adjacent_cells(a: Item, b: Item) -> bool {
    ||| a.x == b.x && (a.y - b.y == 1 || b.y - a.y == 1)
    ||| a.y == b.y && (a.x - b.x == 1 || b.x - a.x == 1)
}

/// No grid cell appears twice in the chain.
pub open spec fn distinct_segments(s: Seq<Item>) -> bool {
    forall|i: int, j: int| 0 <= i < j < s.len() ==> s[i] != s[j]
}

/// Every segment is adjacent to its successor: the chain is unbroken.
pub open spec fn contiguous_chain(s: Seq<Item>) -> bool {
    forall|i: int| 0 <= i < s.len() - 1 ==> adjacent_cells(#[trigger] s[i], s[i + 1])
}

/// The step in `d` from `h` stays within unsigned 32-bit coordinates.
pub open spec fn can_step(h: Item, d: Direction) -> bool {
    match d {
        Direction::Up => h.y >= 1,
        Direction::Down => h.y < u32::MAX,
        Direction::Left => h.x >= 1,
        Direction::Right => h.x < u32::MAX,
    }
}

/// The column the initial head is placed on: a draw over the left half of
/// the board, floored at 3 so the two body segments fit to its left.
pub open spec fn spawn_x(v: u32, width: u32) -> u32 {
    let d = clamp_draw(v, (width / 2) as u32);
    if d < 3 {
        3u32
    } else {
        d
    }
}

/// The row the initial chain is placed on: a draw over the bottom half of
/// the board, biased away from the top edge.
pub open spec fn spawn_y(v: u32, height: u32) -> u32 {
    (clamp_draw(v, (height / 2) as u32) + height / 2 - 1) as u32
}

/// A move failed because the candidate head would land on a body segment.
#[derive(Clone, Copy, PartialEq, Eq, Structural, Debug)]
pub enum CollisionError {
    SelfBite,
}

/// The player-controlled chain of grid cells, head at index 0, never empty.
pub struct Snake {
    pub segments: Vec<Item>,
}

impl View for Snake {
    type V = Seq<Item>;

    open spec fn view(&self) -> Seq<Item> {
        self.segments@
    }
}

impl Snake {
    /// The chain always has at least one segment.
    pub open spec fn wf(self) -> bool {
        self@.len() >= 1
    }

    pub open spec fn head_spec(self) -> Item {
        self@[0]
    }

    /// Produces the initial three-segment horizontal chain, head first and
    /// the body extending to the left, consistent with an initial heading of
    /// Right. Consumes two draws: the head column, then the row.
    pub fn spawn<R: RandomSource>(board: &Board, rng: &mut R) -> (s: Snake)
        requires
            board.wf(),
            board.width >= 3,
            board.height >= 2,
        ensures
            s.wf(),
            s@.len() == 3,
            forall|i: int| 0 <= i < 3 ==> board.contains_spec(#[trigger] s@[i]),
            s@[0].x >= 3,
            s@[1] == (Item { x: (s@[0].x - 1) as u32, y: s@[0].y }),
            s@[2] == (Item { x: (s@[0].x - 2) as u32, y: s@[0].y }),
            distinct_segments(s@),
            contiguous_chain(s@),
            old(rng).upcoming().len() >= 2 ==> {
                &&& s@[0] == (Item {
                    x: spawn_x(old(rng).upcoming()[0], board.width),
                    y: spawn_y(old(rng).upcoming()[1], board.height),
                })
                &&& final(rng).upcoming() == old(rng).upcoming().skip(2)
            },
            old(rng).upcoming().len() < 2 ==> final(rng).upcoming().len() == 0,
    {
        let mut x = rng.next_in_range(board.width / 2);
        if x < 3 {
            x = 3;
        }
        let x2 = x - 1;
        let x3 = x - 2;
        let max_y = board.height / 2;
        let y = rng.next_in_range(max_y) + max_y - 1;
        proof {
            if old(rng).upcoming().len() >= 2 {
                assert(rng.upcoming() =~= old(rng).upcoming().skip(2));
            }
        }
        let segments: Vec<Item> = vec![
            Item { x, y },
            Item { x: x2, y },
            Item { x: x3, y },
        ];
        Snake { segments }
    }

    /// The segment list, head first.
    pub fn items(&self) -> (r: &Vec<Item>)
        ensures
            r@ == self@,
    {
        &self.segments
    }

    /// The cell one step from the current head in `direction`.
    pub fn candidate_head(&self, direction: Direction) -> (it: Item)
        requires
            self.wf(),
            can_step(self.head_spec(), direction),
        ensures
            it == step_of(self.head_spec(), direction),
    {
        let head = self.segments[0];
        match direction {
            Direction::Up => Item { x: head.x, y: head.y - 1 },
            Direction::Down => Item { x: head.x, y: head.y + 1 },
            Direction::Left => Item { x: head.x - 1, y: head.y },
            Direction::Right => Item { x: head.x + 1, y: head.y },
        }
    }

    /// Membership test over all segments.
    pub fn occupies(&self, it: &Item) -> (r: bool)
        ensures
            r == self@.contains(*it),
    {
        let n = self.segments.len();
        let mut i: usize = 0;
        while i < n
            invariant
                n == self@.len(),
                i <= n,
                forall|j: int| 0 <= j < i ==> self@[j] != *it,
            decreases n - i,
        {
            if self.segments[i] == *it {
                return true;
            }
            i = i + 1;
        }
        false
    }

    /// The per-tick move. Computes the candidate head one step from the
    /// current head; growth is exactly the case where the candidate equals
    /// the food position, and then the chain lengthens by one without
    /// truncation. Otherwise the tail is removed first and the candidate is
    /// tested against the remaining segments, so moving into the cell the
    /// tail is vacating is legal; on a self-bite the chain is left with the
    /// tail already removed and the head not inserted.
    pub fn advance(&mut self, direction: Direction, food: &Item) -> (r: Result<
        bool,
        CollisionError,
    >)
        requires
            old(self).wf(),
            can_step(old(self).head_spec(), direction),
        ensures
            final(self).wf(),
            ({
                let cand = step_of(old(self).head_spec(), direction);
                let grew = cand == *food;
                let trimmed = old(self)@.drop_last();
                if grew {
                    &&& r == Ok::<bool, CollisionError>(true)
                    &&& final(self)@ == seq![cand] + old(self)@
                } else if trimmed.contains(cand) {
                    &&& r == Err::<bool, CollisionError>(CollisionError::SelfBite)
                    &&& final(self)@ == trimmed
                } else {
                    &&& r == Ok::<bool, CollisionError>(false)
                    &&& final(self)@ == seq![cand] + trimmed
                }
            }),
    {
        let ghost pre = self@;
        let cand = self.candidate_head(direction);
        let growing = cand == *food;
        if growing {
            self.segments.insert(0, cand);
            proof {
                assert(self@ =~= seq![cand] + pre);
            }
            return Ok(true);
        }
        self.segments.pop();
        proof {
            assert(self@ =~= pre.drop_last());
        }
        if self.occupies(&cand) {
            return Err(CollisionError::SelfBite);
        }
        self.segments.insert(0, cand);
        proof {
            assert(self@ =~= seq![cand] + pre.drop_last());
        }
        Ok(false)
    }

    /// True iff the head lies inside the playable area; checked once per
    /// tick right after a successful move, so a boundary violation is a
    /// post-move condition, not part of the move's own error channel.
    pub fn validate_in_bounds(&self, board: &Board) -> (r: bool)
        requires
            self.wf(),
        ensures
            r == board.contains_spec(self.head_spec()),
    {
        let head = self.segments[0];
        board.contains(&head)
    }
}

} // verus!
