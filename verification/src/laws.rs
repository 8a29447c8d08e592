//! What holds of every session, proved over the model of the game.

use vstd::prelude::*;

use crate::game::{GameView, Key, State};
use crate::physics::{lemma_step_moves, Position};
use crate::snake::{lemma_moved, lemma_reversal_meets_body};
use crate::timing::{accumulated, interval_elapsed, EASY_FPS, FIFTHS};

verus! {

/// An update keeps a session well-formed.
pub proof fn lemma_update_keeps_wf(g: GameView, delta_time: u64, next_fruit: Position)
    requires
        g.wf(),
        g.in_grid(next_fruit),
    ensures
        g.update(delta_time, next_fruit).wf(),
{
    if g.tick_due(delta_time) && g.can_move() {
        lemma_moved(g.snake);
        if g.snake.next_head() == g.fruit {
            lemma_moved(g.snake.moved().grown());
        }
    }
}

/// While the game runs, an update that finds the tick interval elapsed does
/// exactly one of two things: it moves the snake, by one step or by the two
/// steps of a meal, or it ends the game. A move changes where the head is,
/// and the end of the game leaves the snake where it is. An update that
/// finds the interval not yet elapsed moves nothing and ends nothing.
pub proof fn lemma_tick_moves_or_ends(g: GameView, delta_time: u64, next_fruit: Position)
    requires
        g.wf(),
        g.state() == State::Running,
    ensures
        ({
            let after = g.update(delta_time, next_fruit);
            let elapsed = interval_elapsed(
                accumulated(g.waiting_time, delta_time) as int,
                g.fps as int,
            );
            let moved = after.snake == g.snake.moved() || after.snake
                == g.snake.moved().grown().moved();
            &&& elapsed ==> moved != after.over
            &&& elapsed && moved ==> after.snake.head() != g.snake.head()
            &&& elapsed && after.over ==> after.snake == g.snake
            &&& elapsed ==> after.waiting_time == 0
            &&& !elapsed ==> after.snake == g.snake && !after.over
            &&& !elapsed ==> after.waiting_time == accumulated(g.waiting_time, delta_time)
        }),
{
    if g.can_move() {
        lemma_step_moves(g.snake.head(), g.snake.next_direction);
        lemma_step_moves(g.snake.next_head(), g.snake.next_direction);
    }
}

/// The three states and the ways between them. A new session is paused.
/// Starting leads from paused to running, pausing from running to paused,
/// and the toggle goes both ways. An update leaves a paused game paused and
/// a running game running, unless it ends it. A change of difficulty, a
/// steering key and a key without a meaning change no state.
pub proof fn lemma_state_transitions(
    g: GameView,
    key: Key,
    level: u32,
    delta_time: u64,
    next_fruit: Position,
    snake_at: Position,
    fruit_at: Position,
)
    ensures
        GameView::initial(g.size.0, g.size.1, snake_at, fruit_at).state() == State::Paused,
        g.state() == State::Paused ==> g.start().state() == State::Running,
        g.state() == State::Running ==> g.pause().state() == State::Paused,
        g.state() == State::Paused ==> g.toggle_game_state().state() == State::Running,
        g.state() == State::Running ==> g.toggle_game_state().state() == State::Paused,
        g.state() == State::Paused ==> g.update(delta_time, next_fruit).state() == State::Paused,
        g.state() == State::Running ==> g.update(delta_time, next_fruit).state() != State::Paused,
        g.change_difficulty(level).state() == g.state(),
        key != Key::P && key != Key::Space ==> g.key_down(key).state() == g.state(),
        (key == Key::P || key == Key::Space) ==> g.key_down(key).state()
            == g.toggle_game_state().state(),
{
}

/// A game that is paused or over does not move: an update only lets the
/// waiting time grow.
pub proof fn lemma_no_tick_unless_running(g: GameView, delta_time: u64, next_fruit: Position)
    requires
        g.state() != State::Running,
    ensures
        g.update(delta_time, next_fruit) == (GameView {
            waiting_time: accumulated(g.waiting_time, delta_time),
            ..g
        }),
{
}

/// An update never shortens the snake: its length grows by one at a meal
/// and stays as it is otherwise.
pub proof fn lemma_update_never_shrinks(g: GameView, delta_time: u64, next_fruit: Position)
    requires
        g.wf(),
    ensures
        ({
            let before: nat = g.snake.body.len();
            let after: nat = g.update(delta_time, next_fruit).snake.body.len();
            &&& g.eats(delta_time) ==> after == before + 1
            &&& !g.eats(delta_time) ==> after == before
        }),
{
}

/// Starting, pausing, a change of difficulty and every key but the restart
/// key leave the snake's body as it is. Only a restart brings the length
/// back to one.
pub proof fn lemma_only_restart_resets_length(
    g: GameView,
    key: Key,
    level: u32,
    snake_at: Position,
    fruit_at: Position,
)
    ensures
        g.start().snake.body == g.snake.body,
        g.pause().snake.body == g.snake.body,
        g.toggle_game_state().snake.body == g.snake.body,
        g.change_difficulty(level).snake.body == g.snake.body,
        g.key_down(key).snake.body == g.snake.body,
        g.restart(snake_at, fruit_at).snake.body.len() == 1,
{
}

/// When the snake eats the fruit, it is one segment longer than before, the
/// fruit lies at the newly drawn cell, the score is the new length (as long
/// as that fits in 32 bits), and the rate is `score / 5 + 10` ticks per
/// second, which in fifths is `score + 50`.
pub proof fn lemma_meal(g: GameView, delta_time: u64, next_fruit: Position)
    requires
        g.wf(),
        g.eats(delta_time),
    ensures
        ({
            let after = g.update(delta_time, next_fruit);
            &&& after.snake.body.len() == g.snake.body.len() + 1
            &&& after.fruit == next_fruit
            &&& after.snake.body.len() <= u32::MAX ==> after.score == after.snake.body.len()
            &&& after.fps == after.score + FIFTHS * EASY_FPS
        }),
{
}

/// The walls hold. A tick with the cell ahead of the head outside the walls
/// ends the game. A tick that moves the snake moves the head to a cell
/// inside the walls: after a plain step the head lies there, and at a meal
/// it passes through there, onto the fruit.
///
/// The step that follows a meal is taken without a look ahead, so the head
/// ends inside the walls only if the cell beyond the fruit lies inside them.
pub proof fn lemma_walls_hold(g: GameView, delta_time: u64, next_fruit: Position)
    requires
        g.wf(),
        g.tick_due(delta_time),
    ensures
        ({
            let after = g.update(delta_time, next_fruit);
            let ahead = g.snake.next_head();
            let beyond = ahead.step(g.snake.next_direction);
            &&& !g.in_grid(ahead) ==> after.over && after.snake == g.snake
            &&& !after.over ==> g.in_grid(ahead)
            &&& !after.over && !g.eats(delta_time) ==> after.snake.head() == ahead
            &&& g.eats(delta_time) ==> ahead == g.fruit && after.snake.head() == beyond
            &&& !after.over && !(g.eats(delta_time) && !g.in_grid(beyond)) ==> after.in_grid(
                after.snake.head(),
            )
        }),
{
}

/// A snake with two segments on one cell does not survive the next tick:
/// whatever direction is asked for, the tick ends the game.
pub proof fn lemma_overlap_ends_game(g: GameView, delta_time: u64, next_fruit: Position)
    requires
        g.snake.overlapping(),
        g.tick_due(delta_time),
    ensures
        g.update(delta_time, next_fruit).over,
        g.update(delta_time, next_fruit).snake == g.snake,
{
}

/// Turning back is accepted as any other direction, and it costs a snake of
/// two or more segments the game: the cell ahead is then its own second
/// segment, and the next tick ends the game.
pub proof fn lemma_reversal_ends_game(
    g: GameView,
    key: Key,
    delta_time: u64,
    next_fruit: Position,
)
    requires
        g.wf(),
        !g.over,
        g.snake.body.len() >= 2,
        key.direction() == Some(g.snake.direction.reversed()),
        g.key_down(key).tick_due(delta_time),
    ensures
        g.key_down(key).snake == g.snake.turned(g.snake.direction.reversed()),
        g.key_down(key).update(delta_time, next_fruit).over,
{
    lemma_reversal_meets_body(g.key_down(key).snake);
}

/// A game that is over stays over, with its snake where it is, through
/// every update, every key but the restart key, and every call that starts,
/// pauses or changes the difficulty. A restart alone gives a game that is
/// not over.
pub proof fn lemma_over_until_restart(
    g: GameView,
    key: Key,
    level: u32,
    delta_time: u64,
    next_fruit: Position,
    snake_at: Position,
    fruit_at: Position,
)
    requires
        g.over,
    ensures
        g.update(delta_time, next_fruit).state() == State::Over,
        g.update(delta_time, next_fruit).snake == g.snake,
        g.key_down(key) == g,
        g.start().state() == State::Over,
        g.pause().state() == State::Over,
        g.toggle_game_state().state() == State::Over,
        g.change_difficulty(level).state() == State::Over,
        g.restart(snake_at, fruit_at).state() == State::Running,
{
}

/// Starting twice is starting once, and pausing twice is pausing once.
/// Starting a session that is not paused changes nothing, nor does pausing
/// one that is. Neither touches anything but the pause flag.
pub proof fn lemma_start_pause_idempotent(g: GameView)
    ensures
        g.start().start() == g.start(),
        g.pause().pause() == g.pause(),
        !g.paused ==> g.start() == g,
        g.paused ==> g.pause() == g,
        g.start() == (GameView { paused: false, ..g }),
        g.pause() == (GameView { paused: true, ..g }),
{
}

} // verus!
