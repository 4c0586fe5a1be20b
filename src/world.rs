//! The world state: the map and the one car, and the per-tick update that
//! moves the car by the held directions.

use crate::grid::Grid;
use crate::screen::{placement_of, to_screen, Coord, ScreenPlacement};
use vstd::prelude::*;

verus! {

/// A logical direction of movement.
#[derive(Clone, Copy, Debug, PartialEq, Eq, Structural)]
pub enum Direction {
    Up,
    Down,
    Left,
    Right,
}

/// The set of directions held down during one tick.
#[derive(Clone, Copy, Debug, PartialEq, Eq, Structural)]
pub struct Directions {
    pub up: bool,
    pub down: bool,
    pub left: bool,
    pub right: bool,
}

impl Directions {
    /// Whether the set holds `d`.
    pub open spec fn has(self, d: Direction) -> bool {
        match d {
            Direction::Up => self.up,
            Direction::Down => self.down,
            Direction::Left => self.left,
            Direction::Right => self.right,
        }
    }

    /// The empty set: no key held.
    pub fn none() -> (r: Directions)
        ensures
            !r.up && !r.down && !r.left && !r.right,
    {
        Directions { up: false, down: false, left: false, right: false }
    }

    /// This set with `d` added.
    pub fn with(self, d: Direction) -> (r: Directions)
        ensures
            r.up == (self.up || d == Direction::Up),
            r.down == (self.down || d == Direction::Down),
            r.left == (self.left || d == Direction::Left),
            r.right == (self.right || d == Direction::Right),
    {
        let mut r = self;
        match d {
            Direction::Up => r.up = true,
            Direction::Down => r.down = true,
            Direction::Left => r.left = true,
            Direction::Right => r.right = true,
        }
        r
    }

    pub fn contains(&self, d: Direction) -> (r: bool)
        ensures
            r == self.has(d),
    {
        match d {
            Direction::Up => self.up,
            Direction::Down => self.down,
            Direction::Left => self.left,
            Direction::Right => self.right,
        }
    }
}

/// The horizontal step of one tick: one right for `Right`, one left for `Left`.
pub open spec fn step_x(keys: Directions) -> int {
    (if keys.right { 1int } else { 0int }) - (if keys.left { 1int } else { 0int })
}

/// The vertical step of one tick: one up for `Up`, one down for `Down`.
pub open spec fn step_y(keys: Directions) -> int {
    (if keys.up { 1int } else { 0int }) - (if keys.down { 1int } else { 0int })
}

/// The car: a position in grid units and a velocity that nothing reads yet.
#[derive(Clone, Copy, Debug, PartialEq, Eq, Structural)]
pub struct Car {
    pub position: Coord,
    pub velocity: Coord,
}

/// Whether `pos` moved by the steps of `keys` still fits an `i64` position.
pub open spec fn can_move(pos: Coord, keys: Directions) -> bool {
    &&& i64::MIN <= pos.x + step_x(keys) <= i64::MAX
    &&& i64::MIN <= pos.y + step_y(keys) <= i64::MAX
}

/// `pos` moved by the steps of `keys`.
pub open spec fn moved(pos: Coord, keys: Directions) -> Coord {
    Coord { x: (pos.x + step_x(keys)) as i64, y: (pos.y + step_y(keys)) as i64 }
}

/// The map, its size and the car, owned by the loop that drives the ticks.
pub struct WorldState {
    pub board: Grid,
    pub car: Car,
}

impl WorldState {
    /// The state after one tick with `keys` held: the car moved, its velocity
    /// and the map as they were.
    pub open spec fn after_input(self, keys: Directions) -> WorldState {
        WorldState {
            board: self.board,
            car: Car { position: moved(self.car.position, keys), velocity: self.car.velocity },
        }
    }

    /// A world on `board` with the car at `position`, moving at `velocity`.
    pub fn new(board: Grid, position: Coord, velocity: Coord) -> (r: WorldState)
        ensures
            r.board == board,
            r.car == (Car { position, velocity }),
    {
        WorldState { board, car: Car { position, velocity } }
    }

    pub fn width(&self) -> (r: usize)
        ensures
            r == self.board.spec_width(),
    {
        self.board.width()
    }

    pub fn height(&self) -> (r: usize)
        ensures
            r == self.board.spec_height(),
    {
        self.board.height()
    }

    /// Moves the car one unit for each held direction: up raises `y`, down
    /// lowers it, left lowers `x`, right raises it. No bounds and no walls
    /// stop it; the velocity and the map stay as they are.
    pub fn apply_input(&mut self, keys: Directions)
        requires
            can_move(old(self).car.position, keys),
        ensures
            *final(self) == old(self).after_input(keys),
    {
        let dx: i64 = (if keys.right { 1i64 } else { 0i64 }) - (if keys.left { 1i64 } else { 0i64 });
        let dy: i64 = (if keys.up { 1i64 } else { 0i64 }) - (if keys.down { 1i64 } else { 0i64 });
        self.car.position = Coord { x: self.car.position.x + dx, y: self.car.position.y + dy };
    }

    /// Where the car is drawn with tiles `tile_size` pixels wide.
    pub fn car_placement(&self, tile_size: i64) -> (r: ScreenPlacement)
        ensures
            r == placement_of(self.car.position, tile_size),
    {
        to_screen(self.car.position, tile_size)
    }

    /// One tick: applies the held directions, then maps the car's new
    /// position to the screen.
    pub fn tick(&mut self, keys: Directions, tile_size: i64) -> (r: ScreenPlacement)
        requires
            can_move(old(self).car.position, keys),
        ensures
            *final(self) == old(self).after_input(keys),
            r == placement_of(final(self).car.position, tile_size),
    {
        self.apply_input(keys);
        self.car_placement(tile_size)
    }
}

/// With no key held a tick changes nothing, whatever the state.
pub proof fn no_input_is_noop(state: WorldState, keys: Directions)
    requires
        forall|d: Direction| !keys.has(d),
    ensures
        can_move(state.car.position, keys),
        state.after_input(keys) == state,
{
    assert(!keys.has(Direction::Up) && !keys.has(Direction::Down));
    assert(!keys.has(Direction::Left) && !keys.has(Direction::Right));
}

} // verus!
