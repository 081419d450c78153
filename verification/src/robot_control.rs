//! Commands to the robots of a match.

use crate::fixed_point::{
    clamp_coordinate, clamp_to_coordinate, floor_sqrt, floor_sqrt_exists, integer_sqrt,
    is_floor_sqrt, quotient_toward_zero, scale,
};
use crate::game_engine::GameEngine;
use crate::types::{PlayerId, Team, Vec2, World};
use vstd::prelude::*;

verus! {

/// The velocity with which a robot at `position` should head for `target`:
/// along the straight line to the target, at `max_speed` or, when the target
/// is nearer than one second at that speed, at the speed that gets there in
/// a second. Within a millimetre of the target the robot is told to stand
/// still. The distance is taken in whole millimetres, and each component is
/// rounded towards zero.
pub open spec fn approach_velocity(position: Vec2, target: Vec2, max_speed: u32) -> Vec2 {
    if target.distance_squared(position) > 1 {
        let distance = floor_sqrt(target.distance_squared(position));
        let speed = if max_speed <= distance {
            max_speed as int
        } else {
            distance
        };
        Vec2 {
            x: clamp_coordinate(quotient_toward_zero((target.x - position.x) * speed, distance)),
            y: clamp_coordinate(quotient_toward_zero((target.y - position.y) * speed, distance)),
        }
    } else {
        Vec2 { x: 0, y: 0 }
    }
}

/// The magnitude of an integer.
pub open spec fn magnitude(x: int) -> int {
    if x >= 0 {
        x
    } else {
        -x
    }
}

/// The approach velocity never exceeds `max_speed` along either axis, never
/// overshoots the target within a second, and never points away from it.
pub proof fn approach_velocity_is_bounded(position: Vec2, target: Vec2, max_speed: u32)
    ensures
        ({
            let v = approach_velocity(position, target, max_speed);
            &&& magnitude(v.x as int) <= max_speed
            &&& magnitude(v.y as int) <= max_speed
            &&& magnitude(v.x as int) <= magnitude(target.x - position.x)
            &&& magnitude(v.y as int) <= magnitude(target.y - position.y)
            &&& target.x >= position.x ==> v.x >= 0
            &&& target.x <= position.x ==> v.x <= 0
            &&& target.y >= position.y ==> v.y >= 0
            &&& target.y <= position.y ==> v.y <= 0
        }),
{
    let squared = target.distance_squared(position);
    if squared > 1 {
        let dx = target.x - position.x;
        let dy = target.y - position.y;
        floor_sqrt_exists(squared);
        let distance = floor_sqrt(squared);
        let speed = if max_speed <= distance {
            max_speed as int
        } else {
            distance
        };
        assert(dx * dx >= 0 && dy * dy >= 0) by (nonlinear_arith);
        lemma_component_is_bounded(dx, speed, distance, squared);
        lemma_component_is_bounded(dy, speed, distance, squared);
    }
}

/// One component of an offset, scaled by `speed / distance`, is bounded by
/// the speed and by the component itself and keeps the component's sign.
proof fn lemma_component_is_bounded(d: int, speed: int, distance: int, squared: int)
    requires
        is_floor_sqrt(squared, distance),
        d * d <= squared,
        0 <= speed <= distance,
        squared > 1,
    ensures
        magnitude(quotient_toward_zero(d * speed, distance)) <= speed,
        magnitude(quotient_toward_zero(d * speed, distance)) <= magnitude(d),
        d >= 0 ==> quotient_toward_zero(d * speed, distance) >= 0,
        d <= 0 ==> quotient_toward_zero(d * speed, distance) <= 0,
        magnitude(clamp_coordinate(quotient_toward_zero(d * speed, distance)) as int)
            <= magnitude(quotient_toward_zero(d * speed, distance)),
        d >= 0 ==> clamp_coordinate(quotient_toward_zero(d * speed, distance)) >= 0,
        d <= 0 ==> clamp_coordinate(quotient_toward_zero(d * speed, distance)) <= 0,
{
    let m = magnitude(d);
    assert(m * m == d * d) by (nonlinear_arith)
        requires
            m == d || m == -d,
    ;
    assert(m <= distance) by (nonlinear_arith)
        requires
            m >= 0,
            distance >= 0,
            m * m < (distance + 1) * (distance + 1),
    ;
    assert(distance > 0);
    let product = m * speed;
    assert(0 <= product <= speed * distance && product <= m * distance) by (nonlinear_arith)
        requires
            product == m * speed,
            0 <= m <= distance,
            0 <= speed <= distance,
    ;
    assert(0 <= product / distance <= speed && product / distance <= m) by (nonlinear_arith)
        requires
            0 <= product <= speed * distance,
            product <= m * distance,
            distance > 0,
    ;
    assert(d * speed == if d >= 0 {
        product
    } else {
        -product
    }) by (nonlinear_arith)
        requires
            product == m * speed,
            m == if d >= 0 {
                d
            } else {
                -d
            },
    ;
    assert(product == 0 ==> product / distance == 0);
}

/// Computes [`approach_velocity`].
pub fn velocity_towards(position: Vec2, target: Vec2, max_speed: u32) -> (velocity: Vec2)
    ensures
        velocity == approach_velocity(position, target, max_speed),
{
    let dx: i64 = target.x as i64 - position.x as i64;
    let dy: i64 = target.y as i64 - position.y as i64;
    assert(0 <= dx * dx <= 0x1_0000_0000_0000_0000) by (nonlinear_arith)
        requires
            -0x1_0000_0000 <= dx <= 0x1_0000_0000,
    ;
    assert(0 <= dy * dy <= 0x1_0000_0000_0000_0000) by (nonlinear_arith)
        requires
            -0x1_0000_0000 <= dy <= 0x1_0000_0000,
    ;
    let squared: u128 = ((dx as i128) * (dx as i128) + (dy as i128) * (dy as i128)) as u128;
    if squared > 1 {
        let distance = integer_sqrt(squared);
        assert(distance > 0) by (nonlinear_arith)
            requires
                1 < squared < (distance + 1) * (distance + 1),
        ;
        let speed: u64 = if max_speed as u64 <= distance {
            max_speed as u64
        } else {
            distance
        };
        Vec2 {
            x: clamp_to_coordinate(scale(dx, speed, distance)),
            y: clamp_to_coordinate(scale(dy, speed, distance)),
        }
    } else {
        Vec2::zero()
    }
}

/// A handle through which the robots of one match are commanded. It holds
/// the match for as long as it lives.
pub struct RobotControl<'a> {
    pub engine: &'a mut GameEngine,
}

impl<'a> RobotControl<'a> {
    /// The world as the handle currently finds it.
    pub open spec fn world(&self) -> World {
        (*self.engine)@
    }

    /// A handle on `engine`.
    pub fn new(engine: &'a mut GameEngine) -> (control: Self)
        ensures
            control.world() == old(engine)@,
            *final(control.engine) == *final(engine),
    {
        Self { engine }
    }

    /// The identities of the robots that play for `team`.
    pub fn get_team_robots(&self, team: Team) -> (ids: Vec<PlayerId>)
        ensures
            ids@ == self.world().team_ids(team),
    {
        self.engine.get_team_robots(team)
    }

    /// Gives the first robot with identity `id` a new velocity.
    pub fn set_robot_velocity(&mut self, id: PlayerId, velocity: Vec2)
        ensures
            final(self).world() == old(self).world().with_velocity(id, velocity),
            *final(final(self).engine) == *final(old(self).engine),
    {
        self.engine.set_robot_velocity(id, velocity);
    }

    /// Gives the first robot with identity `id` a new heading.
    pub fn set_robot_rotation(&mut self, id: PlayerId, rotation: i32)
        ensures
            final(self).world() == old(self).world().with_rotation(id, rotation),
            *final(final(self).engine) == *final(old(self).engine),
    {
        self.engine.set_robot_rotation(id, rotation);
    }

    /// Sends the first robot with identity `id` towards `target` at no more
    /// than `max_speed`: its velocity becomes the [`approach_velocity`] from
    /// where it stands. Without such a robot nothing changes.
    pub fn move_robot_to(&mut self, id: PlayerId, target: Vec2, max_speed: u32)
        ensures
            final(self).world() == match old(self).world().position_of(id) {
                Some(position) => old(self).world().with_velocity(
                    id,
                    approach_velocity(position, target, max_speed),
                ),
                None => old(self).world(),
            },
            *final(final(self).engine) == *final(old(self).engine),
    {
        if let Some(position) = self.engine.get_robot_position(id) {
            let velocity = velocity_towards(position, target, max_speed);
            self.set_robot_velocity(id, velocity);
        }
    }
}

} // verus!
