use vstd::prelude::*;

use crate::board::Board;
use crate::direction::{opposite_of, Direction};
use crate::item::Item;
use crate::random::{clamp_draw, RandomSource};
use crate::snake::{contiguous_chain, distinct_segments, spawn_x, spawn_y, step_of, CollisionError, Snake};

verus! {

/// The running score: one point per food item eaten, never decreasing.
#[derive(Clone, Copy, PartialEq, Eq, Structural, Debug)]
pub struct Score {
    pub score: u32,
}

impl Score {
    pub fn new() -> (s: Score)
        ensures
            s.score == 0,
    {
        Score { score: 0 }
    }

    /// One more point; sticks at the numeric ceiling rather than wrapping.
    pub fn up(&mut self)
        ensures
            old(self).score < u32::MAX ==> final(self).score == old(self).score + 1,
            old(self).score == u32::MAX ==> final(self).score == old(self).score,
            final(self).score >= old(self).score,
    {
        if self.score < u32::MAX {
            self.score = self.score + 1;
        }
    }
}

/// The whole game session: board, snake, current food, score, heading, the
/// playing and terminal flags, and the two pacing timestamps that rate-limit
/// direction changes to at most one per simulation tick. Mutated in place by
/// the input mutators and the periodic tick; permanently frozen once
/// `game_over` is set.
pub struct GameState {
    pub board: Board,
    pub snake: Snake,
    pub food: Item,
    pub score: Score,
    pub direction: Direction,
    pub playing: bool,
    pub game_over: bool,
    /// Simulation interval: a tick fires only when more than this much host
    /// time has passed since the last one.
    pub speed: u64,
    /// Host timestamp of the last completed tick window.
    pub last_tick_at: u64,
    /// Set to the tick timestamp current when a direction change was
    /// accepted; blocks further changes until the next tick completes.
    pub input_accepted_at: u64,
}

impl GameState {
    /// Session invariant: sane board, non-empty snake, food inside the
    /// playable area, and until the session is over the head is inside the
    /// playable area too.
    pub open spec fn wf(self) -> bool {
        &&& self.board.wf()
        &&& self.snake.wf()
        &&& self.board.contains_spec(self.food)
        &&& (!self.game_over ==> self.board.contains_spec(self.snake.head_spec()))
    }

    /// The next tick will lengthen the chain: the cell one step ahead of the
    /// head is exactly where the food lies.
    pub open spec fn growth_due(self) -> bool {
        step_of(self.snake.head_spec(), self.direction) == self.food
    }

    /// A direction change is accepted only when the session is live, the
    /// intent is not the exact reverse of the current heading, and no change
    /// has been accepted since the last completed tick.
    pub open spec fn direction_change_accepted(self, intent: Direction) -> bool {
        &&& !self.game_over
        &&& intent != opposite_of(self.direction)
        &&& self.input_accepted_at < self.last_tick_at
    }

    /// The state `set_direction` leaves behind.
    pub open spec fn with_direction_change(self, intent: Direction) -> GameState {
        if self.direction_change_accepted(intent) {
            GameState { direction: intent, input_accepted_at: self.last_tick_at, ..self }
        } else {
            self
        }
    }

    /// The state `toggle_pause` leaves behind.
    pub open spec fn with_pause_toggled(self) -> GameState {
        if self.game_over {
            self
        } else {
            GameState { playing: !self.playing, ..self }
        }
    }

    /// How one simulation tick relates the state before (`pre`) to the state
    /// after (`post`). `new_food` stands for the food placed on a growth
    /// tick; on every other tick it is ignored and the food is unchanged.
    pub open spec fn advance_rel(pre: GameState, post: GameState, new_food: Item) -> bool {
        if pre.game_over || !pre.playing {
            post == pre
        } else {
            let cand = step_of(pre.snake.head_spec(), pre.direction);
            let grew = cand == pre.food;
            let trimmed = pre.snake@.drop_last();
            let bitten = !grew && trimmed.contains(cand);
            &&& post.board == pre.board
            &&& post.direction == pre.direction
            &&& post.playing == pre.playing
            &&& post.speed == pre.speed
            &&& post.last_tick_at == pre.last_tick_at
            &&& post.input_accepted_at == pre.input_accepted_at
            &&& (grew ==> post.snake@ == seq![cand] + pre.snake@)
            &&& (bitten ==> post.snake@ == trimmed)
            &&& (!grew && !bitten ==> post.snake@ == seq![cand] + trimmed)
            &&& post.game_over == (bitten || !pre.board.contains_spec(cand))
            &&& (grew ==> post.food == new_food && pre.board.contains_spec(new_food))
            &&& (!grew ==> post.food == pre.food)
            &&& (grew && pre.score.score < u32::MAX ==> post.score.score == pre.score.score + 1)
            &&& (grew && pre.score.score == u32::MAX ==> post.score.score == pre.score.score)
            &&& (!grew ==> post.score.score == pre.score.score)
        }
    }

    /// Creates a fresh session: a board of the given dimensions, the initial
    /// three-segment snake, one food item, score zero, heading Right, live
    /// and unpaused, both pacing timestamps at zero. Consumes four draws:
    /// two for the snake, then two for the food.
    pub fn new<R: RandomSource>(width: u32, height: u32, speed: u64, rng: &mut R) -> (g:
        GameState)
        requires
            3 <= width < u32::MAX,
            2 <= height < u32::MAX,
        ensures
            g.wf(),
            g.board == (Board { width, height }),
            g.snake@.len() == 3,
            distinct_segments(g.snake@),
            contiguous_chain(g.snake@),
            g.score.score == 0,
            g.direction == Direction::Right,
            g.playing,
            !g.game_over,
            g.speed == speed,
            g.last_tick_at == 0,
            g.input_accepted_at == 0,
            old(rng).upcoming().len() >= 4 ==> {
                let ups = old(rng).upcoming();
                let hx = spawn_x(ups[0], width);
                let hy = spawn_y(ups[1], height);
                &&& g.snake@ == seq![
                    Item { x: hx, y: hy },
                    Item { x: (hx - 1) as u32, y: hy },
                    Item { x: (hx - 2) as u32, y: hy },
                ]
                &&& g.food == (Item { x: clamp_draw(ups[2], width), y: clamp_draw(ups[3], height) })
                &&& final(rng).upcoming() == ups.skip(4)
            },
    {
        let board = Board::new(width, height);
        let ghost ups = rng.upcoming();
        let snake = Snake::spawn(&board, rng);
        proof {
            if ups.len() >= 4 {
                assert(rng.upcoming() =~= ups.skip(2));
                assert(rng.upcoming()[0] == ups[2]);
                assert(rng.upcoming()[1] == ups[3]);
            }
        }
        let ghost mid = rng.upcoming();
        let food = Item::spawn(&board, rng);
        proof {
            if ups.len() >= 4 {
                assert(rng.upcoming() =~= mid.skip(2));
                assert(rng.upcoming() =~= ups.skip(4));
                assert(snake@ =~= seq![
                    Item { x: spawn_x(ups[0], width), y: spawn_y(ups[1], height) },
                    Item {
                        x: (spawn_x(ups[0], width) - 1) as u32,
                        y: spawn_y(ups[1], height),
                    },
                    Item {
                        x: (spawn_x(ups[0], width) - 2) as u32,
                        y: spawn_y(ups[1], height),
                    },
                ]);
            }
        }
        GameState {
            board,
            snake,
            food,
            score: Score::new(),
            direction: Direction::Right,
            playing: true,
            game_over: false,
            speed,
            last_tick_at: 0,
            input_accepted_at: 0,
        }
    }

    /// Requests a change of heading. Rejected (and then a no-op) when the
    /// session is over, when the intent would reverse the current heading
    /// into the snake's own neck, or when a change was already accepted in
    /// the current tick window; on acceptance the input timestamp is set to
    /// the last tick timestamp, closing the window until the next tick.
    pub fn set_direction(&mut self, intent: Direction)
        ensures
            *final(self) == old(self).with_direction_change(intent),
    {
        if self.game_over {
            return;
        }
        if intent == self.direction.opposite() {
            return;
        }
        if self.input_accepted_at >= self.last_tick_at {
            return;
        }
        self.input_accepted_at = self.last_tick_at;
        self.direction = intent;
    }

    /// Flips between playing and paused; a no-op once the session is over.
    /// Does not consume the per-tick direction-change slot.
    pub fn toggle_pause(&mut self)
        ensures
            *final(self) == old(self).with_pause_toggled(),
    {
        if self.game_over {
            return;
        }
        self.playing = !self.playing;
    }

    /// One simulation tick: moves the snake one cell along the current
    /// heading, ends the session on a self-bite or on a head outside the
    /// playable area (the out-of-bounds head stays in the segment list for a
    /// last-frame render), and on growth places fresh food (two draws) and
    /// scores a point. A no-op while paused and permanently once the session
    /// is over.
    pub fn advance<R: RandomSource>(&mut self, rng: &mut R)
        requires
            old(self).wf(),
        ensures
            final(self).wf(),
            GameState::advance_rel(*old(self), *final(self), final(self).food),
            (old(self).game_over || !old(self).playing || !old(self).growth_due()) ==> *final(rng)
                == *old(rng),
            (!old(self).game_over && old(self).playing && old(self).growth_due() && old(
                rng,
            ).upcoming().len() >= 2) ==> {
                &&& final(self).food.x == clamp_draw(old(rng).upcoming()[0], old(self).board.width)
                &&& final(self).food.y == clamp_draw(
                    old(rng).upcoming()[1],
                    old(self).board.height,
                )
                &&& final(rng).upcoming() == old(rng).upcoming().skip(2)
            },
    {
        if self.game_over || !self.playing {
            return;
        }
        match self.snake.advance(self.direction, &self.food) {
            Ok(growing) => {
                if !self.snake.validate_in_bounds(&self.board) {
                    self.game_over = true;
                }
                if growing {
                    self.food = Item::spawn(&self.board, rng);
                    self.score.up();
                }
            },
            Err(CollisionError::SelfBite) => {
                self.game_over = true;
            },
        }
    }
}

} // verus!
