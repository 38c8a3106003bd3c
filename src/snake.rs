//! The snake: an ordered chain of cells that moves one cell per tick.
use vstd::prelude::*;

use crate::grid::{
    in_arena, leaves_arena, opposite_of, step, step_wrapped, steps_outside, Direction, Position,
};

verus! {

/// What happens when the head steps over the arena's edge.
#[derive(Clone, Copy, Debug, PartialEq, Eq, Structural)]
pub enum BoundsPolicy {
    /// The head reappears at the opposite edge.
    Wrap,
    /// The game ends.
    GameOver,
}

/// A domain event raised by a movement tick.
#[derive(Clone, Copy, Debug, PartialEq, Eq, Structural)]
pub enum SnakeEvent {
    /// The head left the arena under [`BoundsPolicy::GameOver`].
    GameOver,
    /// The head moved onto a cell of its own body.
    Split,
}

/// Ordering labels of the snake's per-frame work.
#[derive(Clone, Copy, Debug, PartialEq, Eq, Structural)]
pub enum SnakeAction {
    Input,
    Movement,
    Eating,
    Growth,
}

/// The arrow keys held in the current frame.
#[derive(Clone, Copy, Debug, PartialEq, Eq, Structural)]
pub struct DirectionKeys {
    pub left: bool,
    pub down: bool,
    pub up: bool,
    pub right: bool,
}

/// One snake: its segments from head (index 0) to tail, the head's heading,
/// the cell its tail vacated on the last tick and what the arena's edge does.
#[derive(Clone, Debug)]
pub struct Snake {
    pub segments: Vec<Position>,
    pub direction: Direction,
    pub last_tail_position: Option<Position>,
    pub policy: BoundsPolicy,
}

/// The cells of the starting layout, head first.
pub open spec fn start_cells() -> Seq<Position> {
    seq![
        Position { x: 8, y: 9 },
        Position { x: 7, y: 9 },
        Position { x: 6, y: 9 },
        Position { x: 5, y: 9 },
        Position { x: 4, y: 9 },
        Position { x: 3, y: 9 },
        Position { x: 2, y: 9 },
    ]
}

/// The snake as it stands when a game starts.
pub open spec fn start_snake(policy: BoundsPolicy, s: Snake) -> bool {
    &&& s.segments@ == start_cells()
    &&& s.direction == Direction::Right
    &&& s.last_tail_position.is_none()
    &&& s.policy == policy
}

/// Whether `p` is the cell of some segment behind the head.
pub open spec fn body_contains(cells: Seq<Position>, p: Position) -> bool {
    exists|i: int| 1 <= i < cells.len() && cells[i] == p
}

/// The chain after the head moved to `head` and every other segment took
/// its predecessor's cell.
pub open spec fn shifted(cells: Seq<Position>, head: Position) -> Seq<Position> {
    seq![head] + cells.drop_last()
}

/// The key that decides the heading: left, down, up, right in that order.
pub open spec fn pressed_direction(keys: DirectionKeys, current: Direction) -> Direction {
    if keys.left {
        Direction::Left
    } else if keys.down {
        Direction::Down
    } else if keys.up {
        Direction::Up
    } else if keys.right {
        Direction::Right
    } else {
        current
    }
}

/// The heading after one input step: the pressed heading, unless it is the
/// reverse of the current one.
pub open spec fn latched(keys: DirectionKeys, current: Direction) -> Direction {
    let d = pressed_direction(keys, current);
    if d != opposite_of(current) {
        d
    } else {
        current
    }
}

impl Snake {
    /// Every segment lies inside the arena.
    pub open spec fn wf(&self) -> bool {
        forall|i: int| 0 <= i < self.segments@.len() ==> in_arena(#[trigger] self.segments@[i])
    }

    /// The starting snake, heading right, with the given edge policy.
    pub fn spawn_snake(policy: BoundsPolicy) -> (r: Snake)
        ensures
            start_snake(policy, r),
            r.wf(),
    {
        let segments = vec![
            Position { x: 8, y: 9 },
            Position { x: 7, y: 9 },
            Position { x: 6, y: 9 },
            Position { x: 5, y: 9 },
            Position { x: 4, y: 9 },
            Position { x: 3, y: 9 },
            Position { x: 2, y: 9 },
        ];
        let r = Snake { segments, direction: Direction::Right, last_tail_position: None, policy };
        assert(r.segments@ =~= start_cells());
        r
    }

    /// Latches the heading from the arrow keys held this frame. The head never
    /// turns straight back onto its neck; a snake without segments is left as it is.
    pub fn snake_movement_input(&mut self, keys: DirectionKeys)
        ensures
            final(self).segments@ == old(self).segments@,
            final(self).last_tail_position == old(self).last_tail_position,
            final(self).policy == old(self).policy,
            final(self).direction == (if old(self).segments@.len() == 0 {
                old(self).direction
            } else {
                latched(keys, old(self).direction)
            }),
            final(self).direction != opposite_of(old(self).direction),
    {
        if self.segments.len() == 0 {
            return;
        }
        let d = if keys.left {
            Direction::Left
        } else if keys.down {
            Direction::Down
        } else if keys.up {
            Direction::Up
        } else if keys.right {
            Direction::Right
        } else {
            self.direction
        };
        if d != self.direction.opposite() {
            self.direction = d;
        }
    }
}

impl Snake {
    /// One movement tick. The head steps one cell along its heading; each
    /// other segment takes the cell its predecessor held before the tick, and
    /// the cell the tail vacated is recorded. A head that meets a cell of the
    /// body as it stood before the tick raises [`SnakeEvent::Split`]. Under
    /// [`BoundsPolicy::GameOver`] a step over the edge raises
    /// [`SnakeEvent::GameOver`] instead: no segment moves and only the tail's
    /// cell is recorded; under
    /// [`BoundsPolicy::Wrap`] the head reappears at the opposite edge. A snake
    /// without segments is left as it is.
    pub fn snake_movement(&mut self) -> (r: Option<SnakeEvent>)
        requires
            old(self).wf(),
        ensures
            final(self).wf(),
            final(self).direction == old(self).direction,
            final(self).policy == old(self).policy,
            ({
                let prev = old(self).segments@;
                let head = prev[0];
                let d = old(self).direction;
                if prev.len() == 0 {
                    r.is_none() && *final(self) == *old(self)
                } else if old(self).policy == BoundsPolicy::GameOver && steps_outside(head, d) {
                    &&& r == Some(SnakeEvent::GameOver)
                    &&& final(self).segments@ == prev
                    &&& final(self).last_tail_position == Some(prev.last())
                } else {
                    &&& final(self).segments@ == shifted(prev, step_wrapped(head, d))
                    &&& final(self).last_tail_position == Some(prev.last())
                    &&& r == (if body_contains(prev, step_wrapped(head, d)) {
                        Some(SnakeEvent::Split)
                    } else {
                        None::<SnakeEvent>
                    })
                }
            }),
    {
        let n = self.segments.len();
        if n == 0 {
            return None;
        }
        let head = self.segments[0];
        if self.policy == BoundsPolicy::GameOver && leaves_arena(head, self.direction) {
            self.last_tail_position = Some(self.segments[n - 1]);
            return Some(SnakeEvent::GameOver);
        }
        let new_head = step(head, self.direction);
        let split = body_occupies(&self.segments, new_head);
        let mut moved: Vec<Position> = Vec::with_capacity(n);
        moved.push(new_head);
        let mut i: usize = 0;
        while i + 1 < n
            invariant
                n == self.segments@.len(),
                n >= 1,
                i + 1 <= n,
                moved@ == seq![new_head] + self.segments@.subrange(0, i as int),
            decreases n - i,
        {
            moved.push(self.segments[i]);
            i = i + 1;
        }
        let tail = self.segments[n - 1];
        proof {
            assert(moved@ =~= shifted(self.segments@, new_head));
            assert forall|j: int| 0 <= j < moved@.len() implies in_arena(#[trigger] moved@[j]) by {
                if j > 0 {
                    assert(moved@[j] == self.segments@[j - 1]);
                }
            }
        }
        self.segments = moved;
        self.last_tail_position = Some(tail);
        if split {
            Some(SnakeEvent::Split)
        } else {
            None
        }
    }
}

/// A tick that moves the snake keeps its length: the head takes the new cell
/// and every other segment the cell its predecessor held before.
pub proof fn lemma_shift_follows_predecessor(cells: Seq<Position>, head: Position)
    requires
        cells.len() >= 1,
    ensures
        shifted(cells, head).len() == cells.len(),
        shifted(cells, head)[0] == head,
        forall|i: int| 1 <= i < cells.len() ==> #[trigger] shifted(cells, head)[i] == cells[i - 1],
{
}

/// Whether a segment behind the head occupies `p`.
fn body_occupies(cells: &Vec<Position>, p: Position) -> (r: bool)
    ensures
        r == body_contains(cells@, p),
{
    let mut i: usize = 1;
    while i < cells.len()
        invariant
            1 <= i <= cells@.len() || cells@.len() == 0,
            forall|j: int| 1 <= j < i && j < cells@.len() ==> cells@[j] != p,
        decreases cells.len() - i,
    {
        if cells[i] == p {
            return true;
        }
        i = i + 1;
    }
    false
}

} // verus!
