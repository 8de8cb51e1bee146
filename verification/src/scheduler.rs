use vstd::prelude::*;

use crate::direction::Direction;
use crate::game::GameState;
use crate::random::{clamp_draw, RandomSource};

verus! {

/// Owns the game session and decouples the host's animation cadence from the
/// simulation cadence: the host hands a monotonic timestamp to `on_frame`
/// once per animation opportunity, and the scheduler decides whether enough
/// time has passed since the last tick to run one simulation step and
/// request a redraw. Input callbacks go through the two forwarding mutators;
/// nothing else needs to touch the state.
pub struct FrameScheduler {
    pub state: GameState,
}

impl FrameScheduler {
    /// More host time than the configured interval has passed since the last
    /// tick window.
    pub open spec fn tick_due(self, time: u64) -> bool {
        time - self.state.last_tick_at > self.state.speed
    }

    pub fn new(state: GameState) -> (s: FrameScheduler)
        ensures
            s.state == state,
    {
        FrameScheduler { state }
    }

    /// One host animation callback. When no tick is due, nothing changes and
    /// no redraw is requested; when one is due, the tick window is stamped
    /// with `time` and, if the session is live and unpaused, one simulation
    /// step runs and a redraw is requested.
    pub fn on_frame<R: RandomSource>(&mut self, time: u64, rng: &mut R) -> (redraw: bool)
        requires
            old(self).state.wf(),
        ensures
            final(self).state.wf(),
            !old(self).tick_due(time) ==> {
                &&& *final(self) == *old(self)
                &&& *final(rng) == *old(rng)
                &&& !redraw
            },
            old(self).tick_due(time) ==> {
                let ticked = GameState { last_tick_at: time, ..old(self).state };
                &&& redraw == (old(self).state.playing && !old(self).state.game_over)
                &&& GameState::advance_rel(ticked, final(self).state, final(self).state.food)
                &&& (!redraw ==> final(self).state == ticked && *final(rng) == *old(rng))
                &&& (redraw && !ticked.growth_due() ==> *final(rng) == *old(rng))
                &&& (redraw && ticked.growth_due() && old(rng).upcoming().len() >= 2 ==> {
                    &&& final(self).state.food.x == clamp_draw(
                        old(rng).upcoming()[0],
                        old(self).state.board.width,
                    )
                    &&& final(self).state.food.y == clamp_draw(
                        old(rng).upcoming()[1],
                        old(self).state.board.height,
                    )
                    &&& final(rng).upcoming() == old(rng).upcoming().skip(2)
                })
            },
    {
        if time >= self.state.last_tick_at && time - self.state.last_tick_at > self.state.speed {
            self.state.last_tick_at = time;
            if self.state.playing && !self.state.game_over {
                self.state.advance(rng);
                return true;
            }
        }
        false
    }

    /// Forwards a change-of-heading request from the input collaborator.
    pub fn set_direction(&mut self, intent: Direction)
        ensures
            final(self).state == old(self).state.with_direction_change(intent),
    {
        self.state.set_direction(intent);
    }

    /// Forwards a pause toggle from the input collaborator.
    pub fn toggle_pause(&mut self)
        ensures
            final(self).state == old(self).state.with_pause_toggled(),
    {
        self.state.toggle_pause();
    }

}

} // verus!
