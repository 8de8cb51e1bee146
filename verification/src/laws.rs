use vstd::prelude::*;

use crate::direction::{opposite_of, Direction};
use crate::game::GameState;
use crate::item::Item;
use crate::snake::{adjacent_cells, can_step, contiguous_chain, distinct_segments, step_of};

verus! {

/// A change of heading to the exact reverse of the current one is always
/// rejected: the state, and in particular the heading, is unchanged.
pub proof fn lemma_reversal_rejected(s: GameState)
    ensures
        s.with_direction_change(opposite_of(s.direction)) == s,
{
}

/// A change of heading to anything but the exact reverse is accepted
/// whenever the session is live and no change was accepted since the last
/// completed tick; only the heading and the input timestamp move.
pub proof fn lemma_turn_accepted(s: GameState, intent: Direction)
    requires
        !s.game_over,
        intent != opposite_of(s.direction),
        s.input_accepted_at < s.last_tick_at,
    ensures
        s.with_direction_change(intent) == (GameState {
            direction: intent,
            input_accepted_at: s.last_tick_at,
            ..s
        }),
{
}

/// Debounce: once a change of heading has been accepted, every further
/// request is rejected until the next tick completes, whatever heading it
/// asks for.
pub proof fn lemma_debounce(s: GameState, first: Direction)
    requires
        s.direction_change_accepted(first),
    ensures
        forall|second: Direction|
            !s.with_direction_change(first).direction_change_accepted(second),
        forall|second: Direction|
            s.with_direction_change(first).with_direction_change(second)
                == s.with_direction_change(first),
{
}

/// Growth: on a tick whose candidate head lies exactly on the food, the
/// chain lengthens by one with the food cell as its new head, the score goes
/// up by exactly one, fresh food lies inside the playable area, and the
/// session does not end, since the food - and hence the new head - is inside
/// the playable area.
pub proof fn lemma_growth_tick(pre: GameState, post: GameState, new_food: Item)
    requires
        pre.wf(),
        pre.playing,
        !pre.game_over,
        pre.growth_due(),
        GameState::advance_rel(pre, post, new_food),
    ensures
        post.snake@.len() == pre.snake@.len() + 1,
        post.snake@[0] == pre.food,
        post.snake@.skip(1) == pre.snake@,
        post.food == new_food,
        pre.board.contains_spec(post.food),
        pre.score.score < u32::MAX ==> post.score.score == pre.score.score + 1,
        !post.game_over,
{
    let cand = step_of(pre.snake.head_spec(), pre.direction);
    assert(post.snake@ == seq![cand] + pre.snake@);
    assert(post.snake@.skip(1) =~= pre.snake@);
}

/// A tick that neither grows nor bites preserves the chain's length: the
/// candidate head is inserted, the tail cell is vacated, every other segment
/// stays, and food and score are untouched.
pub proof fn lemma_plain_move(pre: GameState, post: GameState, new_food: Item)
    requires
        pre.wf(),
        pre.playing,
        !pre.game_over,
        !pre.growth_due(),
        !pre.snake@.drop_last().contains(step_of(pre.snake.head_spec(), pre.direction)),
        GameState::advance_rel(pre, post, new_food),
    ensures
        post.snake@.len() == pre.snake@.len(),
        post.snake@[0] == step_of(pre.snake.head_spec(), pre.direction),
        post.snake@.skip(1) == pre.snake@.drop_last(),
        post.food == pre.food,
        post.score == pre.score,
    {
    let cand = step_of(pre.snake.head_spec(), pre.direction);
    assert(post.snake@ == seq![cand] + pre.snake@.drop_last());
    assert(post.snake@.skip(1) =~= pre.snake@.drop_last());
}

/// Self-bite: on a tick whose candidate head lands on a body segment other
/// than the vacated tail cell, the session ends; food and score are
/// untouched.
pub proof fn lemma_self_bite(pre: GameState, post: GameState, new_food: Item)
    requires
        pre.wf(),
        pre.playing,
        !pre.game_over,
        !pre.growth_due(),
        pre.snake@.drop_last().contains(step_of(pre.snake.head_spec(), pre.direction)),
        GameState::advance_rel(pre, post, new_food),
    ensures
        post.game_over,
        post.food == pre.food,
        post.score == pre.score,
{
}

/// Boundary violation: on a tick whose candidate head leaves the playable
/// area, the move is still committed - the out-of-bounds head is part of the
/// chain - and the session ends.
pub proof fn lemma_boundary_collision(pre: GameState, post: GameState, new_food: Item)
    requires
        pre.wf(),
        pre.playing,
        !pre.game_over,
        !pre.board.contains_spec(step_of(pre.snake.head_spec(), pre.direction)),
        !pre.snake@.drop_last().contains(step_of(pre.snake.head_spec(), pre.direction)),
        GameState::advance_rel(pre, post, new_food),
    ensures
        post.game_over,
        post.snake@[0] == step_of(pre.snake.head_spec(), pre.direction),
{
    let cand = step_of(pre.snake.head_spec(), pre.direction);
    if pre.growth_due() {
        assert(pre.board.contains_spec(pre.food));
        assert(false);
    }
    assert(post.snake@ == seq![cand] + pre.snake@.drop_last());
}

/// Chain invariants: a live tick keeps the chain unbroken, and as long as it
/// does not grow it also keeps the cells pairwise distinct - a self-bite is
/// exactly the case where a duplicate would have been introduced, and it is
/// rejected before the head is committed. A growth tick inserts the head
/// without any duplicate check, so distinctness is claimed only of
/// non-growth ticks.
pub proof fn lemma_tick_keeps_chain_invariants(pre: GameState, post: GameState, new_food: Item)
    requires
        pre.wf(),
        pre.playing,
        !pre.game_over,
        contiguous_chain(pre.snake@),
        distinct_segments(pre.snake@),
        GameState::advance_rel(pre, post, new_food),
    ensures
        contiguous_chain(post.snake@),
        !pre.growth_due() ==> distinct_segments(post.snake@),
{
    let head = pre.snake.head_spec();
    let cand = step_of(head, pre.direction);
    let grew = cand == pre.food;
    let trimmed = pre.snake@.drop_last();
    let bitten = !grew && trimmed.contains(cand);
    assert(can_step(head, pre.direction));
    assert(adjacent_cells(cand, head));
    if grew {
        let s = post.snake@;
        assert(s == seq![cand] + pre.snake@);
        assert forall|i: int| 0 <= i < s.len() - 1 implies adjacent_cells(#[trigger] s[i], s[i + 1]) by {
            if i == 0 {
                assert(s[0] == cand && s[1] == head);
            } else {
                assert(s[i] == pre.snake@[i - 1] && s[i + 1] == pre.snake@[i]);
            }
        }
    } else if bitten {
        let s = post.snake@;
        assert(s == trimmed);
        assert forall|i: int, j: int| 0 <= i < j < s.len() implies s[i] != s[j] by {
            assert(s[i] == pre.snake@[i] && s[j] == pre.snake@[j]);
        }
    } else {
        let s = post.snake@;
        assert(s == seq![cand] + trimmed);
        assert forall|i: int| 0 <= i < s.len() - 1 implies adjacent_cells(#[trigger] s[i], s[i + 1]) by {
            if i == 0 {
                assert(s[0] == cand && s[1] == head);
            } else {
                assert(s[i] == pre.snake@[i - 1] && s[i + 1] == pre.snake@[i]);
            }
        }
        assert forall|i: int, j: int| 0 <= i < j < s.len() implies s[i] != s[j] by {
            if i == 0 {
                assert(s[j] == trimmed[j - 1]);
                assert(!trimmed.contains(cand));
            } else {
                assert(s[i] == pre.snake@[i - 1] && s[j] == pre.snake@[j - 1]);
            }
        }
    }
}

/// Once the session is over it is frozen: a tick relates the state only to
/// itself, so snake, food, score and flags never change again. The same
/// holds while the game is paused.
pub proof fn lemma_terminal_frozen(pre: GameState, post: GameState, new_food: Item)
    requires
        pre.game_over || !pre.playing,
        GameState::advance_rel(pre, post, new_food),
    ensures
        post == pre,
{
}

} // verus!
