//! The game: a snake and a fruit on a walled grid, advanced by timed ticks
//! and steered by key presses.

use vstd::prelude::*;

use crate::drawing::{format_status, status_text, Frame, STATUS_X, STATUS_Y};
use crate::physics::{Direction, Position};
use crate::random::calc_random_pos;
use crate::snake::{Snake, SnakeView};
use crate::timing::{
    accumulated, interval_elapsed, is_interval_elapsed, level_rate, rate_of_level, rate_of_score,
    score_rate, EASY_FPS, FIFTHS,
};

verus! {

/// The keys the game tells apart. Every key without a meaning is `Other`.
#[derive(Clone, Copy, Debug, PartialEq, Eq, Structural)]
pub enum Key {
    R,
    P,
    Space,
    A,
    Left,
    W,
    Up,
    D,
    Right,
    S,
    Down,
    Other,
}

impl Key {
    /// The direction a key asks for, if it is one of the eight steering keys.
    pub open spec fn direction(self) -> Option<Direction> {
        match self {
            Key::A | Key::Left => Some(Direction::Left),
            Key::W | Key::Up => Some(Direction::Up),
            Key::D | Key::Right => Some(Direction::Right),
            Key::S | Key::Down => Some(Direction::Down),
            _ => None,
        }
    }
}

/// What the game is doing. A game that is over stays over, whatever its
/// pause flag says, until it is restarted.
#[derive(Clone, Copy, Debug, PartialEq, Eq, Structural)]
pub enum State {
    Paused,
    Running,
    Over,
}

/// One game session.
pub struct Game {
    snake: Snake,
    fruit: Position,
    /// Width and height of the grid, in cells.
    size: (u32, u32),
    /// Nanoseconds waited since the last tick.
    waiting_time: u64,
    score: u32,
    over: bool,
    paused: bool,
    /// The tick rate, in fifths of a tick per second.
    fps: u64,
}

/// The mathematical model of a [`Game`].
pub struct GameView {
    pub snake: SnakeView,
    pub fruit: Position,
    /// Width and height of the grid, in cells.
    pub size: (u32, u32),
    /// Nanoseconds waited since the last tick.
    pub waiting_time: u64,
    pub score: u32,
    pub over: bool,
    pub paused: bool,
    /// The tick rate, in fifths of a tick per second.
    pub fps: u64,
}

/// Whether a grid of `width` by `height` cells can be played on: it has at
/// least one cell, and one column and one row beyond it still have `i32`
/// coordinates, because the head may come to lie one cell outside the walls.
pub open spec fn playable(width: u32, height: u32) -> bool {
    0 < width < i32::MAX && 0 < height < i32::MAX
}

/// Computes [`playable`].
pub fn is_playable(width: u32, height: u32) -> (ok: bool)
    ensures
        ok == playable(width, height),
{
    let limit: u32 = 0x7fff_ffff;
    0 < width && width < limit && 0 < height && height < limit
}

impl GameView {
    /// A new session on a grid of `width` by `height` cells: a snake of one
    /// segment at `snake_at`, the fruit at `fruit_at`, no score, the easy
    /// rate, and paused.
    pub open spec fn initial(
        width: u32,
        height: u32,
        snake_at: Position,
        fruit_at: Position,
    ) -> GameView {
        GameView {
            snake: SnakeView::initial(snake_at),
            fruit: fruit_at,
            size: (width, height),
            waiting_time: 0,
            score: 0,
            over: false,
            paused: true,
            fps: (FIFTHS * EASY_FPS) as u64,
        }
    }

    /// Whether `p` lies inside the walls.
    pub open spec fn in_grid(self, p: Position) -> bool {
        0 <= p.x <= self.size.0 - 1 && 0 <= p.y <= self.size.1 - 1
    }

    /// Whether `p` lies inside the walls or one cell outside them.
    pub open spec fn near_grid(self, p: Position) -> bool {
        -1 <= p.x <= self.size.0 && -1 <= p.y <= self.size.1
    }

    /// The score that goes with a snake of `len` segments: nothing for the
    /// single segment a session starts with, else the length (cut to 32
    /// bits).
    pub open spec fn score_of(len: nat) -> u32 {
        if len == 1 {
            0
        } else {
            len as u32
        }
    }

    /// What every session keeps: a playable grid, a snake with no growth left
    /// over from a tick and with a head at most one cell outside the walls,
    /// a fruit inside them, and a score that tells the snake's length.
    pub open spec fn wf(self) -> bool {
        &&& playable(self.size.0, self.size.1)
        &&& self.snake.wf()
        &&& !self.snake.growing
        &&& self.near_grid(self.snake.head())
        &&& self.in_grid(self.fruit)
        &&& self.score == Self::score_of(self.snake.body.len())
    }

    /// The state the two flags stand for.
    pub open spec fn state(self) -> State {
        if self.over {
            State::Over
        } else if self.paused {
            State::Paused
        } else {
            State::Running
        }
    }

    /// The session with the pause flag cleared. A game that is over stays over.
    pub open spec fn start(self) -> GameView {
        GameView { paused: false, ..self }
    }

    /// The session with the pause flag set.
    pub open spec fn pause(self) -> GameView {
        GameView { paused: true, ..self }
    }

    /// The session with the pause flag flipped.
    pub open spec fn toggle_game_state(self) -> GameView {
        if self.paused {
            self.start()
        } else {
            self.pause()
        }
    }

    /// The session at the rate of a difficulty level.
    pub open spec fn change_difficulty(self, new_difficulty: u32) -> GameView {
        GameView { fps: level_rate(new_difficulty) as u64, ..self }
    }

    /// Whether a tick happens once `delta_time` more nanoseconds have been
    /// waited: the waiting time is then longer than the tick interval, and
    /// the game is neither over nor paused.
    pub open spec fn tick_due(self, delta_time: u64) -> bool {
        &&& interval_elapsed(accumulated(self.waiting_time, delta_time) as int, self.fps as int)
        &&& !self.over
        &&& !self.paused
    }

    /// Whether the snake may take its next step: no two of its segments
    /// overlap, the cell ahead is none of its own, and that cell lies inside
    /// the walls.
    pub open spec fn can_move(self) -> bool {
        &&& !self.snake.overlapping()
        &&& !self.snake.will_overlap()
        &&& self.in_grid(self.snake.next_head())
    }

    /// Whether the tick after `delta_time` more nanoseconds brings the head
    /// onto the fruit.
    pub open spec fn eats(self, delta_time: u64) -> bool {
        &&& self.tick_due(delta_time)
        &&& self.can_move()
        &&& self.snake.next_head() == self.fruit
    }

    /// The session after `delta_time` more nanoseconds, up to the moment a
    /// new fruit is placed.
    ///
    /// Without a tick only the waiting time grows. A tick resets the waiting
    /// time; then a snake that may not move ends the game, and one that may
    /// takes its step. If the step brings the head onto the fruit, the snake
    /// grows and takes one more step at once, which keeps its tail.
    pub open spec fn advance(self, delta_time: u64) -> GameView {
        if !self.tick_due(delta_time) {
            GameView { waiting_time: accumulated(self.waiting_time, delta_time), ..self }
        } else if !self.can_move() {
            GameView { waiting_time: 0, over: true, ..self }
        } else if self.snake.next_head() != self.fruit {
            GameView { waiting_time: 0, snake: self.snake.moved(), ..self }
        } else {
            GameView { waiting_time: 0, snake: self.snake.moved().grown().moved(), ..self }
        }
    }

    /// The session with the fruit at `next_fruit`, the score set to the
    /// snake's length (cut to 32 bits), and the rate set from that score.
    pub open spec fn respawn(self, next_fruit: Position) -> GameView {
        let score: u32 = self.snake.body.len() as u32;
        GameView { fruit: next_fruit, score, fps: score_rate(score) as u64, ..self }
    }

    /// The session after `delta_time` more nanoseconds, where `next_fruit` is
    /// the cell of the new fruit in case the snake eats the present one.
    pub open spec fn update(self, delta_time: u64, next_fruit: Position) -> GameView {
        if self.eats(delta_time) {
            self.advance(delta_time).respawn(next_fruit)
        } else {
            self.advance(delta_time)
        }
    }

    /// A fresh session on the same grid, already started, with the snake at
    /// `snake_at` and the fruit at `fruit_at`.
    pub open spec fn restart(self, snake_at: Position, fruit_at: Position) -> GameView {
        GameView::initial(self.size.0, self.size.1, snake_at, fruit_at).start()
    }

    /// The session after a key press other than the restart key `R`. While
    /// the game is over every such key is ignored; otherwise `P` and `Space`
    /// flip the pause flag, a steering key records its direction for the
    /// snake's next step, and any other key does nothing.
    pub open spec fn key_down(self, key: Key) -> GameView {
        if self.over {
            self
        } else if key == Key::P || key == Key::Space {
            self.toggle_game_state()
        } else {
            match key.direction() {
                Some(dir) => GameView { snake: self.snake.turned(dir), ..self },
                None => self,
            }
        }
    }
}

impl View for Game {
    type V = GameView;

    closed spec fn view(&self) -> GameView {
        GameView {
            snake: self.snake@,
            fruit: self.fruit,
            size: self.size,
            waiting_time: self.waiting_time,
            score: self.score,
            over: self.over,
            paused: self.paused,
            fps: self.fps,
        }
    }
}

impl Game {
    /// A new session with the snake and the fruit at the given cells.
    pub fn with_positions(width: u32, height: u32, snake_at: Position, fruit_at: Position) -> (game:
        Game)
        ensures
            game@ == GameView::initial(width, height, snake_at, fruit_at),
    {
        Game {
            snake: Snake::new(snake_at),
            fruit: fruit_at,
            size: (width, height),
            waiting_time: 0,
            score: 0,
            over: false,
            paused: true,
            fps: FIFTHS * EASY_FPS,
        }
    }

    /// A new session on a grid of `width` by `height` cells, with the snake
    /// and the fruit each at a random cell of the grid. The two cells may be
    /// the same. The session is paused until [`Game::start`] is called.
    pub fn new(width: u32, height: u32) -> (game: Game)
        requires
            playable(width, height),
        ensures
            game@ == GameView::initial(width, height, game@.snake.head(), game@.fruit),
            game@.in_grid(game@.snake.head()),
            game@.in_grid(game@.fruit),
            game@.wf(),
    {
        let snake_at = calc_random_pos(width, height);
        let fruit_at = calc_random_pos(width, height);
        Game::with_positions(width, height, snake_at, fruit_at)
    }

    /// Clears the pause flag. A game that is over stays over.
    pub fn start(&mut self)
        ensures
            final(self)@ == old(self)@.start(),
    {
        self.paused = false;
    }

    /// Sets the pause flag.
    pub fn pause(&mut self)
        ensures
            final(self)@ == old(self)@.pause(),
    {
        self.paused = true;
    }

    /// Flips the pause flag.
    pub fn toggle_game_state(&mut self)
        ensures
            final(self)@ == old(self)@.toggle_game_state(),
    {
        if self.paused {
            self.start();
        } else {
            self.pause();
        }
    }

    /// Handles a key press.
    ///
    /// `R` restarts, in every state: the session becomes a fresh one on the
    /// same grid, with a snake of one segment and a fruit at random cells of
    /// the grid, no score and the easy rate, and it is started at once. For
    /// every other key see [`GameView::key_down`].
    pub fn key_down(&mut self, key: Key)
        requires
            old(self)@.wf(),
        ensures
            key != Key::R ==> final(self)@ == old(self)@.key_down(key),
            key == Key::R ==> final(self)@ == old(self)@.restart(
                final(self)@.snake.head(),
                final(self)@.fruit,
            ),
            key == Key::R ==> final(self)@.in_grid(final(self)@.snake.head()),
            final(self)@.wf(),
    {
        if self.over && key != Key::R {
            return ;
        }
        match key {
            Key::R => self.restart(),
            Key::P | Key::Space => self.toggle_game_state(),
            Key::A | Key::Left => self.snake.set_dir(Direction::Left),
            Key::W | Key::Up => self.snake.set_dir(Direction::Up),
            Key::D | Key::Right => self.snake.set_dir(Direction::Right),
            Key::S | Key::Down => self.snake.set_dir(Direction::Down),
            _ => {},
        }
    }

    /// Replaces the session by a fresh one on the same grid and starts it.
    fn restart(&mut self)
        requires
            playable(old(self)@.size.0, old(self)@.size.1),
        ensures
            final(self)@ == old(self)@.restart(final(self)@.snake.head(), final(self)@.fruit),
            final(self)@.in_grid(final(self)@.snake.head()),
            final(self)@.in_grid(final(self)@.fruit),
    {
        *self = Game::new(self.size.0, self.size.1);
        self.start();
    }

    /// What the game is doing now.
    pub fn state(&self) -> (state: State)
        ensures
            state == self@.state(),
    {
        if self.over {
            State::Over
        } else if self.paused {
            State::Paused
        } else {
            State::Running
        }
    }

    /// Sets the tick rate to that of a difficulty level. The next fruit the
    /// snake eats sets the rate from the score again.
    pub fn change_difficulty(&mut self, new_difficulty: u32)
        ensures
            final(self)@ == old(self)@.change_difficulty(new_difficulty),
    {
        self.fps = rate_of_level(new_difficulty);
    }

    /// What to paint for the session as it is now: the fruit's block, the
    /// snake's blocks, the status line with the score and the speed, and,
    /// only if the game is over, the overlay over the whole grid. The session
    /// itself stays as it is.
    pub fn draw(&self) -> (frame: Frame)
        ensures
            frame.fruit == self@.fruit,
            frame.snake@ == self@.snake.body,
            frame.status@ == status_text(self@.score, self@.fps),
            frame.status_at == (Position { x: STATUS_X, y: STATUS_Y }),
            frame.overlay == (if self@.over {
                Some(self@.size)
            } else {
                None
            }),
    {
        Frame {
            fruit: self.fruit,
            snake: self.snake.draw(),
            status: format_status(self.get_score(), self.fps),
            status_at: Position { x: STATUS_X, y: STATUS_Y },
            overlay: if self.over {
                Some(self.size)
            } else {
                None
            },
        }
    }

    /// Advances the session by `delta_time` nanoseconds, with `next_fruit` as
    /// the cell where the fruit appears again if the snake eats it: see
    /// [`GameView::update`].
    pub fn update_with(&mut self, delta_time: u64, next_fruit: Position)
        requires
            old(self)@.wf(),
            old(self)@.in_grid(next_fruit),
        ensures
            final(self)@ == old(self)@.update(delta_time, next_fruit),
            final(self)@.wf(),
    {
        if self.advance(delta_time) {
            self.fruit = next_fruit;
            self.calc_score();
        }
    }

    /// Advances the session by `delta_time` nanoseconds. If the snake eats
    /// the fruit, the fruit appears again at a random cell of the grid, which
    /// may be one the snake occupies; otherwise it stays where it is.
    pub fn update(&mut self, delta_time: u64)
        requires
            old(self)@.wf(),
        ensures
            final(self)@ == old(self)@.update(delta_time, final(self)@.fruit),
            final(self)@.wf(),
    {
        if self.advance(delta_time) {
            self.fruit = calc_random_pos(self.size.0, self.size.1);
            self.calc_score();
        }
    }

    /// The part of a tick before a new fruit is placed: see
    /// [`GameView::advance`]. Returns whether the snake ate the fruit.
    fn advance(&mut self, delta_time: u64) -> (ate: bool)
        requires
            old(self)@.wf(),
        ensures
            final(self)@ == old(self)@.advance(delta_time),
            ate == old(self)@.eats(delta_time),
            !ate ==> final(self)@.wf(),
            ate ==> final(self)@.respawn(final(self)@.fruit).wf(),
    {
        self.waiting_time = self.waiting_time.saturating_add(delta_time);
        let mut ate = false;
        if is_interval_elapsed(self.waiting_time, self.fps) && !self.over && !self.paused {
            self.waiting_time = 0;
            if !self.snake.is_tail_overlapping() && !self.snake.will_tail_overlapp()
                && self.is_in_a_wall() {
                self.snake.update();
                if *self.snake.get_head_pos() == self.fruit {
                    self.snake.grow();
                    self.snake.update();
                    ate = true;
                }
            } else {
                self.over = true;
            }
        }
        ate
    }

    /// Whether the cell ahead of the snake's head lies inside the walls:
    /// `0 <= x <= width - 1` and `0 <= y <= height - 1`.
    fn is_in_a_wall(&self) -> (inside: bool)
        requires
            self@.wf(),
        ensures
            inside == self@.in_grid(self@.snake.next_head()),
    {
        let next_pos = self.snake.next_head_pos();
        let x: i32 = next_pos.x;
        let y: i32 = next_pos.y;
        x >= 0 && y >= 0 && x <= self.size.0 as i32 - 1 && y <= self.size.1 as i32 - 1
    }

    /// Sets the score to the snake's length and the rate to the one that
    /// goes with that score.
    fn calc_score(&mut self)
        ensures
            final(self)@ == old(self)@.respawn(old(self)@.fruit),
    {
        self.score = #[verifier::truncate] (self.snake.get_len() as u32);
        self.fps = rate_of_score(self.score);
    }

    /// The tick rate, in fifths of a tick per second: `52` is 10.4 ticks per
    /// second.
    pub fn get_fps(&self) -> (rate: u64)
        ensures
            rate == self@.fps,
    {
        self.fps
    }

    /// The score: the snake's length when it last ate, 0 before that.
    pub fn get_score(&self) -> (score: u32)
        ensures
            score == self@.score,
    {
        self.score
    }
}

} // verus!
