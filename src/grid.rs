//! The arena: grid cells, directions and toroidal wraparound.
use vstd::prelude::*;

verus! {

/// Number of columns of the arena.
pub const ARENA_WIDTH: i32 = 28;

/// Number of rows of the arena.
pub const ARENA_HEIGHT: i32 = 14;

/// Side of one grid cell, in world units.
pub const TILE_SIZE: i32 = 64;

/// A grid cell.
#[derive(Clone, Copy, Debug, PartialEq, Eq, Structural)]
pub struct Position {
    pub x: i32,
    pub y: i32,
}

/// A cardinal heading.
#[derive(Clone, Copy, Debug, PartialEq, Eq, Structural)]
pub enum Direction {
    Left,
    Up,
    Right,
    Down,
}

pub open spec fn opposite_of(d: Direction) -> Direction {
    match d {
        Direction::Left => Direction::Right,
        Direction::Right => Direction::Left,
        Direction::Up => Direction::Down,
        Direction::Down => Direction::Up,
    }
}

impl Direction {
    /// The heading that points the other way.
    pub fn opposite(self) -> (r: Direction)
        ensures
            r == opposite_of(self),
    {
        match self {
            Direction::Left => Direction::Right,
            Direction::Right => Direction::Left,
            Direction::Up => Direction::Down,
            Direction::Down => Direction::Up,
        }
    }
}

/// Turning around twice gives back the heading one started with.
pub proof fn lemma_opposite_involution(d: Direction)
    ensures
        opposite_of(opposite_of(d)) == d,
        opposite_of(d) != d,
{
}

/// A position lies inside the arena.
pub open spec fn in_arena(p: Position) -> bool {
    0 <= p.x < ARENA_WIDTH && 0 <= p.y < ARENA_HEIGHT
}

/// One coordinate after a single step, brought back into `0..bound`.
pub open spec fn wrapped(c: int, bound: int) -> int {
    if c < 0 {
        bound - 1
    } else if c >= bound {
        0
    } else {
        c
    }
}

/// The column offset of a step in direction `d`.
pub open spec fn dx(d: Direction) -> int {
    match d {
        Direction::Left => -1,
        Direction::Right => 1,
        _ => 0,
    }
}

/// The row offset of a step in direction `d`; up increases the row.
pub open spec fn dy(d: Direction) -> int {
    match d {
        Direction::Up => 1,
        Direction::Down => -1,
        _ => 0,
    }
}

/// Whether a step from `p` in direction `d` leaves the arena.
pub open spec fn steps_outside(p: Position, d: Direction) -> bool {
    let x = p.x + dx(d);
    let y = p.y + dy(d);
    !(0 <= x < ARENA_WIDTH && 0 <= y < ARENA_HEIGHT)
}

/// The cell reached by one step from `p` in direction `d`, wrapping at the edges.
pub open spec fn step_wrapped(p: Position, d: Direction) -> Position {
    Position {
        x: wrapped(p.x + dx(d), ARENA_WIDTH as int) as i32,
        y: wrapped(p.y + dy(d), ARENA_HEIGHT as int) as i32,
    }
}

/// Brings a coordinate that has moved by at most one cell out of `0..bound`
/// back to the opposite edge.
pub fn wrap(c: i32, bound: i32) -> (r: i32)
    requires
        -1 <= c <= bound,
        bound > 0,
    ensures
        r == wrapped(c as int, bound as int),
        0 <= r < bound,
{
    if c < 0 {
        bound - 1
    } else if c >= bound {
        0
    } else {
        c
    }
}

/// The cell one step from `p` in direction `d`, wrapping at the arena's edges.
pub fn step(p: Position, d: Direction) -> (r: Position)
    requires
        in_arena(p),
    ensures
        r == step_wrapped(p, d),
        in_arena(r),
{
    let x: i32 = match d {
        Direction::Left => p.x - 1,
        Direction::Right => p.x + 1,
        _ => p.x,
    };
    let y: i32 = match d {
        Direction::Up => p.y + 1,
        Direction::Down => p.y - 1,
        _ => p.y,
    };
    Position { x: wrap(x, ARENA_WIDTH), y: wrap(y, ARENA_HEIGHT) }
}

/// Whether one step from `p` in direction `d` leaves the arena.
pub fn leaves_arena(p: Position, d: Direction) -> (r: bool)
    requires
        in_arena(p),
    ensures
        r == steps_outside(p, d),
{
    match d {
        Direction::Left => p.x == 0,
        Direction::Right => p.x == ARENA_WIDTH - 1,
        Direction::Up => p.y == ARENA_HEIGHT - 1,
        Direction::Down => p.y == 0,
    }
}

/// A step over an edge of the arena leaves it, and wrapping brings the head
/// in at the opposite edge of the same row or column.
pub proof fn lemma_edges_wrap_around(x: i32, y: i32)
    requires
        0 <= x < ARENA_WIDTH,
        0 <= y < ARENA_HEIGHT,
    ensures
        steps_outside(Position { x: 0, y }, Direction::Left),
        step_wrapped(Position { x: 0, y }, Direction::Left) == (Position { x: (ARENA_WIDTH - 1) as i32, y }),
        steps_outside(Position { x: (ARENA_WIDTH - 1) as i32, y }, Direction::Right),
        step_wrapped(Position { x: (ARENA_WIDTH - 1) as i32, y }, Direction::Right) == (Position { x: 0, y }),
        steps_outside(Position { x, y: 0 }, Direction::Down),
        step_wrapped(Position { x, y: 0 }, Direction::Down) == (Position { x, y: (ARENA_HEIGHT - 1) as i32 }),
        steps_outside(Position { x, y: (ARENA_HEIGHT - 1) as i32 }, Direction::Up),
        step_wrapped(Position { x, y: (ARENA_HEIGHT - 1) as i32 }, Direction::Up) == (Position { x, y: 0 }),
{
}

/// The world coordinate of the centre of cell `cell` along an axis of
/// `cells` cells, with the arena centred on the origin.
pub open spec fn world_of(cell: int, cells: int) -> int {
    cell * TILE_SIZE - TILE_SIZE * cells / 2 + TILE_SIZE / 2
}

/// Where the centre of a cell lies in world coordinates, as `(x, y)`.
pub fn position_translation(p: Position) -> (r: (i32, i32))
    requires
        in_arena(p),
    ensures
        r.0 == world_of(p.x as int, ARENA_WIDTH as int),
        r.1 == world_of(p.y as int, ARENA_HEIGHT as int),
{
    (
        p.x * TILE_SIZE - TILE_SIZE * ARENA_WIDTH / 2 + TILE_SIZE / 2,
        p.y * TILE_SIZE - TILE_SIZE * ARENA_HEIGHT / 2 + TILE_SIZE / 2,
    )
}

} // verus!
