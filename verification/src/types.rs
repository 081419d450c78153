//! Plain world data: identities, teams, vectors and the state of the pitch.

use vstd::prelude::*;

verus! {

/// The identity of one agent: the 128 bits of a universally unique identifier.
#[derive(Debug, Clone, Copy, PartialEq, Eq, Structural)]
pub struct PlayerId(pub u128);

/// The side an agent plays for.
#[derive(Debug, Clone, Copy, PartialEq, Eq, Structural)]
pub enum Team {
    Blue,
    Yellow,
}

/// A point or a displacement in the plane, in whole millimetres (or, for a
/// velocity, millimetres per second).
#[derive(Debug, Clone, Copy, PartialEq, Eq, Structural)]
pub struct Vec2 {
    pub x: i32,
    pub y: i32,
}

impl Vec2 {
    /// The origin, which is also the null displacement.
    pub fn zero() -> (v: Vec2)
        ensures
            v == (Vec2 { x: 0, y: 0 }),
    {
        Vec2 { x: 0, y: 0 }
    }

    pub fn new(x: i32, y: i32) -> (v: Vec2)
        ensures
            v == (Vec2 { x, y }),
    {
        Vec2 { x, y }
    }

    /// The square of the straight-line distance between two points.
    pub open spec fn distance_squared(self, other: Vec2) -> int {
        (self.x - other.x) * (self.x - other.x) + (self.y - other.y) * (self.y - other.y)
    }
}

/// One agent on the pitch.
#[derive(Debug, Clone)]
pub struct Robot {
    pub id: PlayerId,
    pub position: Vec2,
    pub velocity: Vec2,
    /// Heading in milliradians.
    pub rotation: i32,
    pub team: Team,
    pub has_ball: bool,
}

#[derive(Debug, Clone)]
pub struct Ball {
    pub position: Vec2,
    pub velocity: Vec2,
}

/// The dimensions of the pitch, in millimetres.
#[derive(Debug, Clone)]
pub struct Field {
    pub width: u32,
    pub height: u32,
    pub goal_width: u32,
}

impl Field {
    /// The standard pitch: nine metres by six, with goals one metre wide.
    pub fn new() -> (field: Field)
        ensures
            field == (Field { width: 9000, height: 6000, goal_width: 1000 }),
    {
        Field { width: 9000, height: 6000, goal_width: 1000 }
    }
}

/// Everything on the pitch at one instant.
#[derive(Debug, Clone)]
pub struct WorldState {
    pub robots: Vec<Robot>,
    pub ball: Ball,
    pub field: Field,
}

/// A [`WorldState`] with its robots as a sequence.
pub struct World {
    pub robots: Seq<Robot>,
    pub ball: Ball,
    pub field: Field,
}

impl View for WorldState {
    type V = World;

    open spec fn view(&self) -> World {
        World { robots: self.robots@, ball: self.ball, field: self.field }
    }
}

} // verus!
