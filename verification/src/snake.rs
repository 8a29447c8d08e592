//! The snake: an ordered body of grid cells, head first, that moves one cell
//! per step in the direction last asked for.

use std::collections::VecDeque;
use vstd::prelude::*;

use crate::physics::{lemma_step_moves, Direction, Position};

verus! {

/// The snake's body and heading.
pub struct Snake {
    /// The cells the snake occupies, head first.
    body: VecDeque<Position>,
    /// The direction of the last committed step.
    direction: Direction,
    /// The direction asked for, which the next step commits.
    next_direction: Direction,
    /// Whether the next step keeps the tail, lengthening the body by one.
    growing: bool,
}

/// The mathematical model of a [`Snake`].
pub struct SnakeView {
    /// The cells the snake occupies, head first.
    pub body: Seq<Position>,
    /// The direction of the last committed step.
    pub direction: Direction,
    /// The direction asked for, which the next step commits.
    pub next_direction: Direction,
    /// Whether the next step keeps the tail.
    pub growing: bool,
}

impl SnakeView {
    /// A snake of one segment at `at`, heading right.
    pub open spec fn initial(at: Position) -> SnakeView {
        SnakeView {
            body: seq![at],
            direction: Direction::Right,
            next_direction: Direction::Right,
            growing: false,
        }
    }

    /// What every snake keeps: it has a head, each segment is a neighbour of
    /// the one behind it, and the head lies one step in the current
    /// direction from the second segment.
    pub open spec fn wf(self) -> bool {
        &&& self.body.len() > 0
        &&& forall|i: int, j: int|
            0 <= i && j == i + 1 && j < self.body.len() ==> (#[trigger] self.body[i]).adjacent(
                #[trigger] self.body[j],
            )
        &&& self.body.len() >= 2 ==> {
            &&& self.body[1].can_step(self.direction)
            &&& self.body[0] == self.body[1].step(self.direction)
        }
    }

    /// The first segment.
    pub open spec fn head(self) -> Position {
        self.body[0]
    }

    /// Whether the cell in front of the head, in the direction asked for,
    /// still has `i32` coordinates.
    pub open spec fn can_advance(self) -> bool {
        self.head().can_step(self.next_direction)
    }

    /// The cell the head moves to at the next step.
    pub open spec fn next_head(self) -> Position {
        self.head().step(self.next_direction)
    }

    /// The snake with `dir` recorded as the direction asked for.
    pub open spec fn turned(self, dir: Direction) -> SnakeView {
        SnakeView { next_direction: dir, ..self }
    }

    /// The snake with a growth queued for its next step.
    pub open spec fn grown(self) -> SnakeView {
        SnakeView { growing: true, ..self }
    }

    /// The snake after one step: the new head goes to the front, the tail
    /// leaves unless a growth is queued, and the direction asked for becomes
    /// the current one.
    pub open spec fn moved(self) -> SnakeView {
        let kept = if self.growing {
            self.body
        } else {
            self.body.drop_last()
        };
        SnakeView {
            body: seq![self.next_head()] + kept,
            direction: self.next_direction,
            next_direction: self.next_direction,
            growing: false,
        }
    }

    /// Whether two segments of the body lie on the same cell.
    pub open spec fn overlapping(self) -> bool {
        !self.body.no_duplicates()
    }

    /// Whether the cell the head moves to next is one the body occupies now.
    pub open spec fn will_overlap(self) -> bool {
        self.body.contains(self.next_head())
    }
}

/// A step keeps a snake well-formed. Its length stays, or grows by one if a
/// growth was queued, and the old head becomes the second segment.
pub proof fn lemma_moved(snake: SnakeView)
    requires
        snake.wf(),
        snake.can_advance(),
    ensures
        snake.moved().wf(),
        snake.moved().head() == snake.next_head(),
        snake.moved().body.len() == snake.body.len() + if snake.growing {
            1int
        } else {
            0int
        },
        snake.moved().body.len() >= 2 ==> snake.moved().body[1] == snake.head(),
{
    let after = snake.moved();
    lemma_step_moves(snake.head(), snake.next_direction);
    assert forall|i: int, j: int| 0 <= i && j == i + 1 && j < after.body.len() implies (
    #[trigger] after.body[i]).adjacent(#[trigger] after.body[j]) by {
        if i > 0 {
            assert(snake.body[i - 1].adjacent(snake.body[j - 1]));
        }
    }
}

/// Turning back is fatal for a snake of two or more segments: the cell ahead
/// is then the second segment's.
pub proof fn lemma_reversal_meets_body(snake: SnakeView)
    requires
        snake.wf(),
        snake.body.len() >= 2,
        snake.next_direction == snake.direction.reversed(),
    ensures
        snake.next_head() == snake.body[1],
        snake.will_overlap(),
{
    lemma_step_moves(snake.body[1], snake.direction);
}

impl View for Snake {
    type V = SnakeView;

    closed spec fn view(&self) -> SnakeView {
        SnakeView {
            body: self.body@,
            direction: self.direction,
            next_direction: self.next_direction,
            growing: self.growing,
        }
    }
}

impl Snake {
    /// A snake of length 1 at `initial_position`, heading right.
    pub fn new(initial_position: Position) -> (snake: Snake)
        ensures
            snake@ == SnakeView::initial(initial_position),
            snake@.wf(),
    {
        let mut body: VecDeque<Position> = VecDeque::new();
        body.push_front(initial_position);
        assert(body@ =~= seq![initial_position]);
        Snake {
            body,
            direction: Direction::Right,
            next_direction: Direction::Right,
            growing: false,
        }
    }

    /// Records `dir` as the direction for the next step. The current direction
    /// stays as it is until that step, and any direction is accepted, also
    /// the one that reverses the snake.
    pub fn set_dir(&mut self, dir: Direction)
        ensures
            final(self)@ == old(self)@.turned(dir),
    {
        self.next_direction = dir;
    }

    /// The cell the head would move to at the next step. Nothing changes.
    pub fn next_head_pos(&self) -> (next: Position)
        requires
            self@.wf(),
            self@.can_advance(),
        ensures
            next == self@.next_head(),
    {
        self.body[0].translate(self.next_direction)
    }

    /// Commits one step: see [`SnakeView::moved`].
    pub fn update(&mut self)
        requires
            old(self)@.wf(),
            old(self)@.can_advance(),
        ensures
            final(self)@ == old(self)@.moved(),
            final(self)@.wf(),
    {
        proof {
            lemma_moved(old(self)@);
        }
        self.direction = self.next_direction;
        let head = self.body[0].translate(self.direction);
        self.body.push_front(head);
        if self.growing {
            self.growing = false;
        } else {
            self.body.pop_back();
        }
        assert(self.body@ =~= old(self)@.moved().body);
    }

    /// Queues a growth: the next step keeps the tail.
    pub fn grow(&mut self)
        ensures
            final(self)@ == old(self)@.grown(),
    {
        self.growing = true;
    }

    /// Whether two segments of the body lie on the same cell.
    pub fn is_tail_overlapping(&self) -> (overlapping: bool)
        ensures
            overlapping == self@.overlapping(),
    {
        let n: usize = self.body.len();
        let mut i: usize = 0;
        while i < n
            invariant
                n == self.body@.len(),
                i <= n,
                forall|a: int, b: int| 0 <= a < i && a < b < n ==> self.body@[a] != self.body@[b],
            decreases n - i,
        {
            let mut j: usize = i + 1;
            while j < n
                invariant
                    n == self.body@.len(),
                    i < j <= n,
                    forall|b: int| i < b < j ==> self.body@[i as int] != self.body@[b],
                decreases n - j,
            {
                if self.body[i] == self.body[j] {
                    return true;
                }
                j += 1;
            }
            i += 1;
        }
        false
    }

    /// Whether the cell the head would move to next is one the body occupies
    /// now, the tail's cell included.
    pub fn will_tail_overlapp(&self) -> (overlapping: bool)
        requires
            self@.wf(),
            self@.can_advance(),
        ensures
            overlapping == self@.will_overlap(),
    {
        let next = self.next_head_pos();
        let n: usize = self.body.len();
        let mut i: usize = 0;
        while i < n
            invariant
                n == self.body@.len(),
                i <= n,
                next == self@.next_head(),
                forall|a: int| 0 <= a < i ==> self.body@[a] != next,
            decreases n - i,
        {
            if self.body[i] == next {
                assert(self@.body[i as int] == self@.next_head());
                return true;
            }
            i += 1;
        }
        false
    }

    /// The head's cell.
    pub fn get_head_pos(&self) -> (head: &Position)
        requires
            self@.wf(),
        ensures
            *head == self@.head(),
    {
        &self.body[0]
    }

    /// The number of segments.
    pub fn get_len(&self) -> (len: usize)
        ensures
            len == self@.body.len(),
    {
        self.body.len()
    }

    /// The cells to paint for the snake, head first.
    pub fn draw(&self) -> (blocks: Vec<Position>)
        ensures
            blocks@ == self@.body,
    {
        let n: usize = self.body.len();
        let mut blocks: Vec<Position> = Vec::new();
        let mut i: usize = 0;
        while i < n
            invariant
                n == self.body@.len(),
                i <= n,
                blocks@ == self.body@.take(i as int),
            decreases n - i,
        {
            blocks.push(self.body[i]);
            i += 1;
        }
        blocks
    }
}

} // verus!
