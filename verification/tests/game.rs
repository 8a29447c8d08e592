use rsnake::game::{Game, Key, State};
use rsnake::physics::Position;

const TICK: u64 = 100_000_000;

fn at(x: i32, y: i32) -> Position {
    Position { x, y }
}

fn running(width: u32, height: u32, snake_at: Position, fruit_at: Position) -> Game {
    let mut game = Game::with_positions(width, height, snake_at, fruit_at);
    game.start();
    game
}

#[test]
fn new_game_is_paused_with_one_segment() {
    let game = Game::with_positions(5, 5, at(1, 1), at(3, 3));
    assert_eq!(game.state(), State::Paused);
    assert_eq!(game.get_score(), 0);
    assert_eq!(game.get_fps(), 50);
    let frame = game.draw();
    assert_eq!(frame.snake, vec![at(1, 1)]);
    assert_eq!(frame.fruit, at(3, 3));
    assert_eq!(frame.overlay, None);
    assert_eq!(frame.status, "0 | Running at 1x speed");
    assert_eq!(frame.status_at, at(0, 20));
}

#[test]
fn random_cells_lie_inside_the_grid() {
    for _ in 0..200 {
        let game = Game::new(3, 2);
        let frame = game.draw();
        assert_eq!(frame.snake.len(), 1);
        let head = frame.snake[0];
        assert!(0 <= head.x && head.x < 3 && 0 <= head.y && head.y < 2);
        assert!(0 <= frame.fruit.x && frame.fruit.x < 3);
        assert!(0 <= frame.fruit.y && frame.fruit.y < 2);
        assert_eq!(game.state(), State::Paused);
    }
    let game = Game::new(1, 1);
    assert_eq!(game.draw().snake, vec![at(0, 0)]);
    assert_eq!(game.draw().fruit, at(0, 0));
}

#[test]
fn random_cells_reach_every_column() {
    let mut seen = [false; 4];
    for _ in 0..400 {
        let game = Game::new(4, 1);
        seen[game.draw().snake[0].x as usize] = true;
    }
    assert_eq!(seen, [true; 4]);
}

#[test]
fn paused_game_does_not_move() {
    let mut game = Game::with_positions(5, 5, at(1, 1), at(4, 4));
    for _ in 0..10 {
        game.update_with(TICK, at(0, 0));
    }
    assert_eq!(game.draw().snake, vec![at(1, 1)]);
    assert_eq!(game.state(), State::Paused);
}

#[test]
fn no_move_before_the_interval_has_elapsed() {
    let mut game = running(5, 5, at(1, 1), at(4, 4));
    game.update_with(TICK, at(0, 0));
    assert_eq!(game.draw().snake, vec![at(1, 1)]);
    game.update_with(1, at(0, 0));
    assert_eq!(game.draw().snake, vec![at(2, 1)]);
    game.update_with(TICK - 1, at(0, 0));
    assert_eq!(game.draw().snake, vec![at(2, 1)]);
    game.update_with(1, at(0, 0));
    assert_eq!(game.draw().snake, vec![at(2, 1)]);
    game.update_with(1, at(0, 0));
    assert_eq!(game.draw().snake, vec![at(3, 1)]);
}

#[test]
fn eating_the_fruit_grows_the_snake() {
    let mut game = running(5, 5, at(1, 1), at(2, 1));
    let before = game.draw().snake.len();
    game.update_with(2 * TICK, at(4, 4));
    let frame = game.draw();
    assert_eq!(frame.snake.len(), before + 1);
    assert_eq!(frame.snake, vec![at(3, 1), at(2, 1)]);
    assert_eq!(game.get_score(), 2);
    assert_eq!(game.get_fps(), 52);
    assert_eq!(game.get_fps() as f64 / 5.0, 2.0 / 5.0 + 10.0);
    assert_eq!(game.get_fps() as f64 / 5.0, 10.4);
    assert_eq!(frame.fruit, at(4, 4));
    assert_eq!(frame.status, "2 | Running at 1.04x speed");
    assert_eq!(game.state(), State::Running);
}

#[test]
fn eating_with_a_random_fruit_keeps_it_in_the_grid() {
    for _ in 0..50 {
        let mut game = running(4, 3, at(0, 1), at(1, 1));
        game.update(2 * TICK);
        let frame = game.draw();
        assert_eq!(frame.snake, vec![at(2, 1), at(1, 1)]);
        assert_eq!(game.get_score(), 2);
        assert!(0 <= frame.fruit.x && frame.fruit.x < 4);
        assert!(0 <= frame.fruit.y && frame.fruit.y < 3);
    }
}

#[test]
fn update_without_a_meal_keeps_the_fruit() {
    let mut game = running(5, 5, at(1, 1), at(4, 4));
    game.update(2 * TICK);
    assert_eq!(game.draw().snake, vec![at(2, 1)]);
    assert_eq!(game.draw().fruit, at(4, 4));
    assert_eq!(game.get_score(), 0);
}

#[test]
fn leaving_the_grid_ends_the_game() {
    let mut game = running(5, 5, at(0, 2), at(4, 4));
    game.key_down(Key::A);
    game.update_with(2 * TICK, at(0, 0));
    assert_eq!(game.state(), State::Over);
    let over = game.draw();
    assert_eq!(over.snake, vec![at(0, 2)]);
    assert_eq!(over.overlay, Some((5, 5)));
    for _ in 0..5 {
        game.update_with(2 * TICK, at(0, 0));
        game.update(2 * TICK);
        assert_eq!(game.state(), State::Over);
        assert_eq!(game.draw(), over);
        assert_eq!(game.get_score(), 0);
        assert_eq!(game.get_fps(), 50);
    }
    game.key_down(Key::R);
    assert_eq!(game.state(), State::Running);
    assert_eq!(game.draw().overlay, None);
    assert_eq!(game.draw().snake.len(), 1);
}

#[test]
fn every_wall_ends_the_game() {
    let cases = [
        (at(0, 0), Key::W),
        (at(0, 0), Key::Left),
        (at(4, 4), Key::Down),
        (at(4, 4), Key::D),
    ];
    for (start, key) in cases {
        let mut game = running(5, 5, start, at(2, 2));
        game.key_down(key);
        game.update_with(2 * TICK, at(0, 0));
        assert_eq!(game.state(), State::Over);
        assert_eq!(game.draw().snake, vec![start]);
    }
}

#[test]
fn last_row_and_column_are_inside() {
    let mut game = running(5, 5, at(3, 3), at(0, 0));
    game.update_with(2 * TICK, at(0, 0));
    assert_eq!(game.draw().snake, vec![at(4, 3)]);
    game.key_down(Key::S);
    game.update_with(2 * TICK, at(0, 0));
    assert_eq!(game.draw().snake, vec![at(4, 4)]);
    assert_eq!(game.state(), State::Running);
}

#[test]
fn fruit_at_the_wall_carries_the_head_outside() {
    let mut game = running(5, 5, at(3, 1), at(4, 1));
    game.update_with(2 * TICK, at(0, 0));
    assert_eq!(game.draw().snake, vec![at(5, 1), at(4, 1)]);
    assert_eq!(game.state(), State::Running);
    assert_eq!(game.get_score(), 2);
    game.update_with(2 * TICK, at(0, 0));
    assert_eq!(game.state(), State::Over);
    assert_eq!(game.draw().snake, vec![at(5, 1), at(4, 1)]);
}

#[test]
fn difficulty_is_overridden_by_the_next_meal() {
    let mut game = running(5, 5, at(1, 1), at(2, 1));
    game.change_difficulty(3);
    assert_eq!(game.get_fps(), 100);
    assert_eq!(game.get_fps() as f64 / 5.0, 20.0);
    assert_eq!(game.draw().status, "0 | Running at 2x speed");
    game.update_with(TICK, at(4, 4));
    assert_eq!(game.get_score(), 2);
    assert_eq!(game.get_fps(), 52);
}

#[test]
fn difficulty_levels() {
    let mut game = Game::with_positions(5, 5, at(1, 1), at(2, 1));
    game.change_difficulty(1);
    assert_eq!(game.get_fps(), 50);
    game.change_difficulty(2);
    assert_eq!(game.get_fps(), 75);
    assert_eq!(game.draw().status, "0 | Running at 1.5x speed");
    game.change_difficulty(3);
    assert_eq!(game.get_fps(), 100);
    game.change_difficulty(4);
    assert_eq!(game.get_fps(), 100);
    game.change_difficulty(7);
    assert_eq!(game.get_fps(), 175);
    assert_eq!(game.draw().status, "0 | Running at 3.5x speed");
    game.change_difficulty(0);
    assert_eq!(game.get_fps(), 0);
    game.change_difficulty(u32::MAX);
    assert_eq!(game.get_fps(), 25 * (u32::MAX as u64));
}

#[test]
fn faster_rate_has_a_shorter_interval() {
    let mut game = running(9, 1, at(0, 0), at(8, 0));
    game.change_difficulty(3);
    game.update_with(TICK / 2, at(0, 0));
    assert_eq!(game.draw().snake, vec![at(0, 0)]);
    game.update_with(1, at(0, 0));
    assert_eq!(game.draw().snake, vec![at(1, 0)]);
}

#[test]
fn rate_zero_never_ticks() {
    let mut game = running(5, 5, at(1, 1), at(4, 4));
    game.change_difficulty(0);
    game.update_with(u64::MAX, at(0, 0));
    game.update_with(u64::MAX, at(0, 0));
    assert_eq!(game.draw().snake, vec![at(1, 1)]);
    assert_eq!(game.state(), State::Running);
}

#[test]
fn waiting_time_is_held_at_its_largest_value() {
    let mut game = Game::with_positions(5, 5, at(1, 1), at(4, 4));
    game.update_with(u64::MAX, at(0, 0));
    game.update_with(u64::MAX, at(0, 0));
    assert_eq!(game.draw().snake, vec![at(1, 1)]);
    game.start();
    game.update_with(0, at(0, 0));
    assert_eq!(game.draw().snake, vec![at(2, 1)]);
    game.update_with(0, at(0, 0));
    assert_eq!(game.draw().snake, vec![at(2, 1)]);
}

#[test]
fn start_and_pause_are_idempotent() {
    let mut game = Game::with_positions(5, 5, at(1, 1), at(4, 4));
    game.pause();
    assert_eq!(game.state(), State::Paused);
    game.pause();
    assert_eq!(game.state(), State::Paused);
    game.start();
    assert_eq!(game.state(), State::Running);
    let once = game.draw();
    game.start();
    assert_eq!(game.state(), State::Running);
    assert_eq!(game.draw(), once);
    game.pause();
    game.pause();
    assert_eq!(game.state(), State::Paused);
    assert_eq!(game.draw(), once);
}

#[test]
fn toggle_flips_between_paused_and_running() {
    let mut game = Game::with_positions(5, 5, at(1, 1), at(4, 4));
    game.toggle_game_state();
    assert_eq!(game.state(), State::Running);
    game.toggle_game_state();
    assert_eq!(game.state(), State::Paused);
    game.key_down(Key::P);
    assert_eq!(game.state(), State::Running);
    game.key_down(Key::Space);
    assert_eq!(game.state(), State::Paused);
}

#[test]
fn start_does_not_clear_over() {
    let mut game = running(5, 5, at(0, 0), at(4, 4));
    game.key_down(Key::W);
    game.update_with(2 * TICK, at(0, 0));
    assert_eq!(game.state(), State::Over);
    game.pause();
    assert_eq!(game.state(), State::Over);
    game.start();
    assert_eq!(game.state(), State::Over);
    game.toggle_game_state();
    assert_eq!(game.state(), State::Over);
    game.update_with(2 * TICK, at(0, 0));
    assert_eq!(game.draw().snake, vec![at(0, 0)]);
}

#[test]
fn steering_keys_come_in_pairs() {
    let cases = [
        (Key::A, at(1, 2)),
        (Key::Left, at(1, 2)),
        (Key::W, at(2, 1)),
        (Key::Up, at(2, 1)),
        (Key::D, at(3, 2)),
        (Key::Right, at(3, 2)),
        (Key::S, at(2, 3)),
        (Key::Down, at(2, 3)),
        (Key::Other, at(3, 2)),
    ];
    for (key, expected) in cases {
        let mut game = running(5, 5, at(2, 2), at(0, 0));
        game.key_down(key);
        assert_eq!(game.draw().snake, vec![at(2, 2)]);
        game.update_with(2 * TICK, at(0, 0));
        assert_eq!(game.draw().snake, vec![expected]);
    }
}

#[test]
fn the_last_key_before_a_tick_decides() {
    let mut game = running(5, 5, at(2, 2), at(0, 0));
    game.key_down(Key::W);
    game.key_down(Key::S);
    game.key_down(Key::A);
    game.update_with(2 * TICK, at(0, 0));
    assert_eq!(game.draw().snake, vec![at(1, 2)]);
}

#[test]
fn keys_are_ignored_while_over() {
    let mut game = running(5, 5, at(0, 0), at(4, 4));
    game.key_down(Key::W);
    game.update_with(2 * TICK, at(0, 0));
    assert_eq!(game.state(), State::Over);
    let keys = [
        Key::P,
        Key::Space,
        Key::A,
        Key::Left,
        Key::W,
        Key::Up,
        Key::D,
        Key::Right,
        Key::S,
        Key::Down,
        Key::Other,
    ];
    let over = game.draw();
    for key in keys {
        game.key_down(key);
        game.update_with(2 * TICK, at(0, 0));
        assert_eq!(game.state(), State::Over);
        assert_eq!(game.draw(), over);
    }
}

#[test]
fn restart_resets_everything_but_the_grid() {
    let mut game = running(4, 3, at(0, 1), at(1, 1));
    game.change_difficulty(3);
    game.update_with(2 * TICK, at(3, 1));
    game.update_with(2 * TICK, at(0, 0));
    assert_eq!(game.draw().snake.len(), 3);
    assert_eq!(game.get_score(), 3);
    assert_eq!(game.get_fps(), 53);
    game.pause();
    game.key_down(Key::R);
    assert_eq!(game.state(), State::Running);
    assert_eq!(game.get_score(), 0);
    assert_eq!(game.get_fps(), 50);
    let frame = game.draw();
    assert_eq!(frame.snake.len(), 1);
    assert!(0 <= frame.snake[0].x && frame.snake[0].x < 4);
    assert!(0 <= frame.snake[0].y && frame.snake[0].y < 3);
    assert!(0 <= frame.fruit.x && frame.fruit.x < 4);
    assert!(0 <= frame.fruit.y && frame.fruit.y < 3);
    assert_eq!(frame.overlay, None);
}

#[test]
fn restarted_snake_heads_right_again() {
    let mut game = running(1, 3, at(0, 1), at(0, 0));
    game.key_down(Key::S);
    game.update_with(2 * TICK, at(0, 0));
    assert_eq!(game.draw().snake, vec![at(0, 2)]);
    game.key_down(Key::R);
    let head = game.draw().snake[0];
    game.update_with(2 * TICK, at(0, 0));
    assert_eq!(game.state(), State::Over);
    assert_eq!(game.draw().snake, vec![head]);
}

#[test]
fn reversing_a_long_snake_ends_the_game() {
    let mut game = running(6, 3, at(0, 1), at(1, 1));
    game.update_with(2 * TICK, at(5, 2));
    assert_eq!(game.draw().snake, vec![at(2, 1), at(1, 1)]);
    game.key_down(Key::Left);
    game.update_with(2 * TICK, at(0, 0));
    assert_eq!(game.state(), State::Over);
    assert_eq!(game.draw().snake, vec![at(2, 1), at(1, 1)]);
}

#[test]
fn reversing_a_single_segment_is_allowed() {
    let mut game = running(5, 5, at(2, 2), at(0, 0));
    game.update_with(2 * TICK, at(0, 0));
    game.key_down(Key::Left);
    game.update_with(2 * TICK, at(0, 0));
    assert_eq!(game.state(), State::Running);
    assert_eq!(game.draw().snake, vec![at(2, 2)]);
}

#[test]
fn length_never_shrinks_during_a_session() {
    let mut game = running(8, 8, at(0, 0), at(1, 0));
    let keys = [Key::D, Key::S, Key::S, Key::A, Key::Other, Key::P, Key::P, Key::W];
    let mut length = game.draw().snake.len();
    for (i, key) in keys.iter().enumerate() {
        game.key_down(*key);
        game.change_difficulty(i as u32);
        game.update_with(3 * TICK, at(2, (i % 3) as i32));
        let now = game.draw().snake.len();
        assert!(now >= length);
        length = now;
    }
}

#[test]
fn moving_into_the_tail_cell_ends_the_game() {
    let mut game = running(8, 8, at(0, 0), at(1, 0));
    game.update_with(2 * TICK, at(3, 0));
    game.update_with(2 * TICK, at(5, 0));
    game.update_with(2 * TICK, at(0, 7));
    assert_eq!(game.draw().snake, vec![at(6, 0), at(5, 0), at(4, 0), at(3, 0)]);
    game.key_down(Key::S);
    game.update_with(2 * TICK, at(0, 0));
    game.key_down(Key::A);
    game.update_with(2 * TICK, at(0, 0));
    assert_eq!(game.draw().snake, vec![at(5, 1), at(6, 1), at(6, 0), at(5, 0)]);
    assert_eq!(game.state(), State::Running);
    // The cell above the head is the tail's. The step would free it, and it
    // still counts as occupied.
    game.key_down(Key::W);
    game.update_with(2 * TICK, at(0, 0));
    assert_eq!(game.state(), State::Over);
    assert_eq!(game.draw().snake, vec![at(5, 1), at(6, 1), at(6, 0), at(5, 0)]);
}

#[test]
fn snake_and_fruit_may_start_on_one_cell() {
    let mut game = running(5, 5, at(1, 1), at(1, 1));
    game.update_with(2 * TICK, at(0, 0));
    assert_eq!(game.draw().snake, vec![at(2, 1)]);
    assert_eq!(game.draw().fruit, at(1, 1));
    assert_eq!(game.get_score(), 0);
}

#[test]
fn fruit_may_appear_on_the_snake() {
    let mut game = running(6, 6, at(0, 0), at(1, 0));
    game.update_with(2 * TICK, at(1, 0));
    assert_eq!(game.draw().snake, vec![at(2, 0), at(1, 0)]);
    assert_eq!(game.draw().fruit, at(1, 0));
    game.update_with(2 * TICK, at(0, 0));
    assert_eq!(game.draw().snake, vec![at(3, 0), at(2, 0)]);
    assert_eq!(game.draw().fruit, at(1, 0));
    assert_eq!(game.state(), State::Running);
}

#[test]
fn overlap_after_a_meal_ends_the_game_at_the_next_tick() {
    let mut game = running(10, 10, at(0, 0), at(1, 0));
    game.update_with(2 * TICK, at(3, 0));
    game.update_with(2 * TICK, at(5, 0));
    game.update_with(2 * TICK, at(7, 0));
    game.update_with(2 * TICK, at(8, 1));
    assert_eq!(
        game.draw().snake,
        vec![at(8, 0), at(7, 0), at(6, 0), at(5, 0), at(4, 0)]
    );
    game.key_down(Key::S);
    game.update_with(2 * TICK, at(7, 1));
    assert_eq!(
        game.draw().snake,
        vec![at(8, 2), at(8, 1), at(8, 0), at(7, 0), at(6, 0), at(5, 0)]
    );
    game.key_down(Key::A);
    game.update_with(2 * TICK, at(0, 9));
    assert_eq!(
        game.draw().snake,
        vec![at(7, 2), at(8, 2), at(8, 1), at(8, 0), at(7, 0), at(6, 0)]
    );
    assert_eq!(game.draw().fruit, at(7, 1));
    // The meal's second step is taken without a look ahead and lands on the
    // snake's own tail.
    game.key_down(Key::W);
    game.update_with(2 * TICK, at(0, 9));
    assert_eq!(
        game.draw().snake,
        vec![at(7, 0), at(7, 1), at(7, 2), at(8, 2), at(8, 1), at(8, 0), at(7, 0)]
    );
    assert_eq!(game.get_score(), 7);
    assert_eq!(game.get_fps(), 57);
    assert_eq!(game.state(), State::Running);
    // The cell to the left is free and inside the walls: the overlap alone
    // ends the game.
    game.key_down(Key::A);
    game.update_with(2 * TICK, at(0, 0));
    assert_eq!(game.state(), State::Over);
    assert_eq!(game.draw().snake.len(), 7);
    assert_eq!(game.draw().snake[0], at(7, 0));
}
