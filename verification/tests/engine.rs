use snake::board::Board;
use snake::direction::Direction;
use snake::game::{GameState, Score};
use snake::item::Item;
use snake::random::FixedSource;
use snake::scheduler::FrameScheduler;
use snake::snake::Snake;

/// A fresh 40x25 session whose snake starts at head {5,12} heading Right,
/// with the food already placed at the given cell.
fn session_with_food(fx: u32, fy: u32) -> GameState {
    let mut rng = FixedSource::new(vec![5, 1, fx, fy]);
    GameState::new(40, 25, 150, &mut rng)
}

/// A session built field by field, for collision shapes the spawn formula
/// cannot produce directly.
fn session_with_snake(segments: Vec<Item>, direction: Direction) -> GameState {
    GameState {
        board: Board::new(40, 25),
        snake: Snake { segments },
        food: Item::at(30, 20),
        score: Score::new(),
        direction,
        playing: true,
        game_over: false,
        speed: 150,
        last_tick_at: 0,
        input_accepted_at: 0,
    }
}

#[test]
fn new_session_starts_live_heading_right_with_score_zero() {
    let g = session_with_food(20, 20);
    assert_eq!(g.snake.segments, vec![Item::at(5, 12), Item::at(4, 12), Item::at(3, 12)]);
    assert_eq!(g.food, Item::at(20, 20));
    assert_eq!(g.score.score, 0);
    assert_eq!(g.direction, Direction::Right);
    assert!(g.playing);
    assert!(!g.game_over);
    assert_eq!(g.speed, 150);
    assert_eq!(g.last_tick_at, 0);
    assert_eq!(g.input_accepted_at, 0);
}

#[test]
fn reversal_is_rejected_for_every_heading() {
    for (current, reverse, other) in [
        (Direction::Up, Direction::Down, Direction::Left),
        (Direction::Down, Direction::Up, Direction::Right),
        (Direction::Left, Direction::Right, Direction::Up),
        (Direction::Right, Direction::Left, Direction::Down),
    ] {
        let mut g = session_with_food(20, 20);
        g.direction = current;
        g.last_tick_at = 1;
        g.set_direction(reverse);
        assert_eq!(g.direction, current);
        g.set_direction(other);
        assert_eq!(g.direction, other);
    }
}

#[test]
fn direction_change_is_rejected_before_any_tick_has_elapsed() {
    let mut g = session_with_food(20, 20);
    g.set_direction(Direction::Up);
    assert_eq!(g.direction, Direction::Right);
}

#[test]
fn second_direction_change_in_the_same_tick_window_is_dropped() {
    let mut g = session_with_food(20, 20);
    g.last_tick_at = 1;
    g.set_direction(Direction::Up);
    assert_eq!(g.direction, Direction::Up);
    g.set_direction(Direction::Left);
    assert_eq!(g.direction, Direction::Up);
    // the next completed tick reopens the window
    g.last_tick_at = 2;
    g.set_direction(Direction::Left);
    assert_eq!(g.direction, Direction::Left);
}

#[test]
fn growth_tick_lengthens_scores_and_replaces_the_food() {
    let mut rng = FixedSource::new(vec![5, 1, 6, 12, 10, 10]);
    let mut g = GameState::new(40, 25, 150, &mut rng);
    assert_eq!(g.food, Item::at(6, 12));
    g.advance(&mut rng);
    assert_eq!(
        g.snake.segments,
        vec![Item::at(6, 12), Item::at(5, 12), Item::at(4, 12), Item::at(3, 12)]
    );
    assert_eq!(g.score.score, 1);
    assert_eq!(g.food, Item::at(10, 10));
    assert!(!g.game_over);
}

#[test]
fn non_growth_tick_preserves_length_and_moves_the_head() {
    let mut rng = FixedSource::new(vec![5, 1, 20, 20]);
    let mut g = GameState::new(40, 25, 150, &mut rng);
    g.advance(&mut rng);
    assert_eq!(g.snake.segments, vec![Item::at(6, 12), Item::at(5, 12), Item::at(4, 12)]);
    assert_eq!(g.score.score, 0);
    assert_eq!(g.food, Item::at(20, 20));
    assert!(!g.game_over);
}

#[test]
fn self_bite_ends_the_session_and_freezes_it() {
    let mut rng = FixedSource::new(vec![9, 9]);
    let mut g = session_with_snake(
        vec![
            Item::at(5, 5),
            Item::at(5, 6),
            Item::at(4, 6),
            Item::at(4, 5),
            Item::at(3, 5),
        ],
        Direction::Left,
    );
    g.advance(&mut rng);
    assert!(g.game_over);
    let frozen = g.snake.segments.clone();
    assert_eq!(frozen.len(), 4);
    g.advance(&mut rng);
    g.advance(&mut rng);
    assert!(g.game_over);
    assert_eq!(g.snake.segments, frozen);
    assert_eq!(g.score.score, 0);
}

#[test]
fn boundary_collision_ends_the_session_with_the_head_committed() {
    let mut rng = FixedSource::new(vec![9, 9]);
    let mut g = session_with_snake(
        vec![Item::at(1, 12), Item::at(2, 12), Item::at(3, 12)],
        Direction::Left,
    );
    g.advance(&mut rng);
    assert!(g.game_over);
    // the out-of-bounds head stays in the list for a last-frame render
    assert_eq!(g.snake.segments, vec![Item::at(0, 12), Item::at(1, 12), Item::at(2, 12)]);
    let frozen = g.snake.segments.clone();
    g.advance(&mut rng);
    assert_eq!(g.snake.segments, frozen);
}

#[test]
fn walking_into_the_right_wall_ends_the_session() {
    let mut rng = FixedSource::new(vec![9, 9]);
    let mut g = session_with_snake(
        vec![Item::at(40, 12), Item::at(39, 12), Item::at(38, 12)],
        Direction::Right,
    );
    g.advance(&mut rng);
    assert!(g.game_over);
    assert_eq!(g.snake.segments[0], Item::at(41, 12));
}

#[test]
fn pause_toggle_flips_and_pausing_stops_the_simulation() {
    let mut rng = FixedSource::new(vec![9, 9]);
    let mut g = session_with_food(20, 20);
    g.toggle_pause();
    assert!(!g.playing);
    let before = g.snake.segments.clone();
    g.advance(&mut rng);
    assert_eq!(g.snake.segments, before);
    g.toggle_pause();
    assert!(g.playing);
}

#[test]
fn pause_toggle_is_a_no_op_once_the_session_is_over() {
    let mut g = session_with_food(20, 20);
    g.game_over = true;
    g.toggle_pause();
    assert!(g.playing);
    g.set_direction(Direction::Up);
    assert_eq!(g.direction, Direction::Right);
}

#[test]
fn pause_does_not_consume_the_direction_change_slot() {
    let mut g = session_with_food(20, 20);
    g.last_tick_at = 1;
    g.toggle_pause();
    g.set_direction(Direction::Up);
    assert_eq!(g.direction, Direction::Up);
}

#[test]
fn on_frame_ticks_only_after_the_configured_interval() {
    let mut rng = FixedSource::new(vec![5, 1, 20, 20, 9, 9]);
    let g = GameState::new(40, 25, 150, &mut rng);
    let mut sched = FrameScheduler::new(g);
    let spawned = sched.state.snake.segments.clone();
    // 16ms frames: nothing happens until more than 150ms have passed
    let mut time: u64 = 0;
    let mut redraws: u32 = 0;
    while time <= 150 {
        assert!(!sched.on_frame(time, &mut rng));
        time += 16;
    }
    assert_eq!(sched.state.snake.segments, spawned);
    assert_eq!(redraws, 0);
    assert!(sched.on_frame(time, &mut rng));
    redraws += 1;
    assert_eq!(sched.state.last_tick_at, time);
    assert_eq!(
        sched.state.snake.segments,
        vec![Item::at(6, 12), Item::at(5, 12), Item::at(4, 12)]
    );
    assert_eq!(redraws, 1);
}

#[test]
fn on_frame_while_paused_stamps_the_window_but_does_not_move() {
    let mut rng = FixedSource::new(vec![5, 1, 20, 20]);
    let g = GameState::new(40, 25, 150, &mut rng);
    let mut sched = FrameScheduler::new(g);
    sched.toggle_pause();
    let before = sched.state.snake.segments.clone();
    assert!(!sched.on_frame(200, &mut rng));
    assert_eq!(sched.state.last_tick_at, 200);
    assert_eq!(sched.state.snake.segments, before);
}

#[test]
fn a_completed_tick_reopens_the_direction_debounce() {
    let mut rng = FixedSource::new(vec![5, 1, 20, 20]);
    let g = GameState::new(40, 25, 150, &mut rng);
    let mut sched = FrameScheduler::new(g);
    sched.set_direction(Direction::Up);
    assert_eq!(sched.state.direction, Direction::Right);
    assert!(sched.on_frame(200, &mut rng));
    sched.set_direction(Direction::Up);
    assert_eq!(sched.state.direction, Direction::Up);
    sched.set_direction(Direction::Left);
    assert_eq!(sched.state.direction, Direction::Up);
    assert!(sched.on_frame(400, &mut rng));
    sched.set_direction(Direction::Left);
    assert_eq!(sched.state.direction, Direction::Left);
}

#[test]
fn growth_bypasses_the_self_collision_check() {
    // Food exactly on a body segment the candidate head lands on: growth
    // inserts the head without truncation or any duplicate check, so the
    // session goes on with a doubled cell in the chain.
    let mut rng = FixedSource::new(vec![9, 9]);
    let mut g = session_with_snake(
        vec![
            Item::at(5, 5),
            Item::at(5, 6),
            Item::at(4, 6),
            Item::at(4, 5),
            Item::at(3, 5),
        ],
        Direction::Left,
    );
    g.food = Item::at(4, 5);
    g.advance(&mut rng);
    assert!(!g.game_over);
    assert_eq!(g.snake.segments.len(), 6);
    assert_eq!(g.snake.segments[0], Item::at(4, 5));
    assert_eq!(g.score.score, 1);
}

fn is_contiguous(segments: &[Item]) -> bool {
    segments.windows(2).all(|w| {
        let dx = (w[0].x as i64 - w[1].x as i64).abs();
        let dy = (w[0].y as i64 - w[1].y as i64).abs();
        dx + dy == 1
    })
}

fn is_distinct(segments: &[Item]) -> bool {
    segments
        .iter()
        .enumerate()
        .all(|(i, a)| segments[i + 1..].iter().all(|b| a != b))
}

#[test]
fn the_chain_stays_contiguous_and_distinct_across_ticks() {
    let mut rng = FixedSource::new(vec![5, 1, 20, 20]);
    let g = GameState::new(40, 25, 150, &mut rng);
    let mut sched = FrameScheduler::new(g);
    let turns = [
        Some(Direction::Up),
        None,
        Some(Direction::Left),
        Some(Direction::Down),
        None,
        Some(Direction::Right),
        None,
    ];
    let mut time: u64 = 0;
    for turn in turns {
        time += 151;
        assert!(sched.on_frame(time, &mut rng));
        assert!(!sched.state.game_over);
        assert_eq!(sched.state.snake.segments.len(), 3);
        assert!(is_contiguous(&sched.state.snake.segments));
        assert!(is_distinct(&sched.state.snake.segments));
        if let Some(d) = turn {
            sched.set_direction(d);
            assert_eq!(sched.state.direction, d);
        }
    }
}

#[test]
fn concrete_scenario_board_40_25_one_growth_tick() {
    // Draws: head column 5, row draw 1 (row 12), food at {6,12}; the next
    // two draws place the replacement food.
    let mut rng = FixedSource::new(vec![5, 1, 6, 12, 17, 3]);
    let mut g = GameState::new(40, 25, 150, &mut rng);
    assert_eq!(g.snake.segments[0], Item::at(5, 12));
    assert_eq!(g.food, Item::at(6, 12));
    assert_eq!(g.direction, Direction::Right);
    g.advance(&mut rng);
    assert_eq!(g.snake.segments.len(), 4);
    assert_eq!(g.snake.segments[0], Item::at(6, 12));
    assert_eq!(g.score.score, 1);
    assert_eq!(g.food, Item::at(17, 3));
}
