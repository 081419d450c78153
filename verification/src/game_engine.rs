//! The state of a match and the operations that read and change it.

use crate::fixed_point::{clamp_coordinate, clamp_to_coordinate, quotient_toward_zero, scale};
use crate::types::{Ball, Field, PlayerId, Robot, Team, Vec2, World, WorldState};
use vstd::prelude::*;

verus! {

/// Whether an identity has the version and variant bits of a random
/// (version 4) universally unique identifier.
pub open spec fn is_random_id(id: PlayerId) -> bool {
    id.0 & 0xf000_c000_0000_0000_0000u128 == 0x4000_8000_0000_0000_0000u128
}

/// A new random identity, from `uuid::Uuid::new_v4` read as 128 bits by
/// `Uuid::as_u128`. The value itself is up to the operating system's random
/// source, so two calls need not agree; what is claimed is only that the
/// version and variant bits are those of a version 4 identifier, which is
/// what `new_v4` sets on whatever the random source gave. `new_v4` panics
/// if the operating system has no random bytes to give.
#[verifier::external_body]
fn fresh_id() -> (id: PlayerId)
    ensures
        is_random_id(id),
{
    PlayerId(uuid::Uuid::new_v4().as_u128())
}

/// Robot number `i` of a match at kick-off: the first three are blue and
/// stand two metres left of the centre line, the other three are yellow and
/// stand two metres right of it, each row a metre apart; all are at rest.
pub open spec fn kickoff_robot(i: int, id: PlayerId) -> Robot {
    Robot {
        id,
        position: Vec2 {
            x: if i < 3 {
                -2000i32
            } else {
                2000i32
            },
            y: ((i % 3 - 1) * 1000) as i32,
        },
        velocity: Vec2 { x: 0, y: 0 },
        rotation: 0,
        team: if i < 3 {
            Team::Blue
        } else {
            Team::Yellow
        },
        has_ball: false,
    }
}

/// Whether `i` is the index of the first robot in `robots` with identity `id`.
pub open spec fn is_first_with_id(robots: Seq<Robot>, id: PlayerId, i: int) -> bool {
    &&& 0 <= i < robots.len()
    &&& robots[i].id == id
    &&& forall|j: int| 0 <= j < i ==> robots[j].id != id
}

/// Whether some robot in `robots` has identity `id`.
pub open spec fn has_id(robots: Seq<Robot>, id: PlayerId) -> bool {
    exists|i: int| 0 <= i < robots.len() && robots[i].id == id
}

/// The index of the first robot in `robots` with identity `id`.
pub open spec fn first_with_id(robots: Seq<Robot>, id: PlayerId) -> Option<int> {
    if has_id(robots, id) {
        Some(choose|i: int| is_first_with_id(robots, id, i))
    } else {
        None
    }
}

/// Among the robots with a given identity there is a first one.
pub proof fn first_with_id_exists(robots: Seq<Robot>, id: PlayerId)
    requires
        has_id(robots, id),
    ensures
        first_with_id(robots, id) is Some,
        is_first_with_id(robots, id, first_with_id(robots, id)->0),
{
    let witness = choose|i: int| 0 <= i < robots.len() && robots[i].id == id;
    lemma_first_before(robots, id, witness);
}

proof fn lemma_first_before(robots: Seq<Robot>, id: PlayerId, i: int)
    requires
        0 <= i < robots.len(),
        robots[i].id == id,
    ensures
        exists|k: int| is_first_with_id(robots, id, k),
    decreases i,
{
    if exists|j: int| 0 <= j < i && robots[j].id == id {
        let j = choose|j: int| 0 <= j < i && robots[j].id == id;
        lemma_first_before(robots, id, j);
    } else {
        assert(is_first_with_id(robots, id, i));
    }
}

/// There is at most one first robot with a given identity.
pub proof fn first_with_id_is_unique(robots: Seq<Robot>, id: PlayerId, i: int)
    requires
        is_first_with_id(robots, id, i),
    ensures
        first_with_id(robots, id) == Some(i),
{
    let chosen = choose|k: int| is_first_with_id(robots, id, k);
    assert(is_first_with_id(robots, id, chosen));
}

/// The identity of a robot if it plays for `team`.
pub open spec fn id_if_on_team(team: Team) -> spec_fn(Robot) -> Option<PlayerId> {
    |robot: Robot|
        if robot.team == team {
            Some(robot.id)
        } else {
            None
        }
}

/// How far something moves along one axis in `dt_micros` microseconds at
/// `velocity` millimetres per second, in whole millimetres, rounded towards
/// zero.
pub open spec fn displacement(velocity: i32, dt_micros: u32) -> int {
    quotient_toward_zero(velocity * dt_micros, 1_000_000)
}

/// A position after `dt_micros` microseconds at a constant velocity. A
/// coordinate that would leave the coordinate type stops at its bound.
pub open spec fn advance(position: Vec2, velocity: Vec2, dt_micros: u32) -> Vec2 {
    Vec2 {
        x: clamp_coordinate(position.x + displacement(velocity.x, dt_micros)),
        y: clamp_coordinate(position.y + displacement(velocity.y, dt_micros)),
    }
}

/// A robot after `dt_micros` microseconds of free motion.
pub open spec fn advance_robot(robot: Robot, dt_micros: u32) -> Robot {
    Robot { position: advance(robot.position, robot.velocity, dt_micros), ..robot }
}

impl World {
    /// The world in which the first robot with identity `id` has the given
    /// velocity; the same world if there is no such robot.
    pub open spec fn with_velocity(self, id: PlayerId, velocity: Vec2) -> World {
        match first_with_id(self.robots, id) {
            Some(i) => World {
                robots: self.robots.update(i, Robot { velocity, ..self.robots[i] }),
                ..self
            },
            None => self,
        }
    }

    /// The world in which the first robot with identity `id` has the given
    /// heading; the same world if there is no such robot.
    pub open spec fn with_rotation(self, id: PlayerId, rotation: i32) -> World {
        match first_with_id(self.robots, id) {
            Some(i) => World {
                robots: self.robots.update(i, Robot { rotation, ..self.robots[i] }),
                ..self
            },
            None => self,
        }
    }

    /// The position of the first robot with identity `id`.
    pub open spec fn position_of(self, id: PlayerId) -> Option<Vec2> {
        match first_with_id(self.robots, id) {
            Some(i) => Some(self.robots[i].position),
            None => None,
        }
    }

    /// The identities of the robots of `team`, in the order of the robots.
    pub open spec fn team_ids(self, team: Team) -> Seq<PlayerId> {
        self.robots.filter_map(id_if_on_team(team))
    }

    /// The world after `dt_micros` microseconds in which nothing but free
    /// motion happens.
    pub open spec fn after(self, dt_micros: u32) -> World {
        World {
            robots: self.robots.map_values(|robot: Robot| advance_robot(robot, dt_micros)),
            ball: Ball {
                position: advance(self.ball.position, self.ball.velocity, dt_micros),
                ..self.ball
            },
            field: self.field,
        }
    }
}

fn advance_coordinate(position: i32, velocity: i32, dt_micros: u32) -> (r: i32)
    ensures
        r == clamp_coordinate(position + displacement(velocity, dt_micros)),
{
    let moved = scale(velocity as i64, dt_micros as u64, 1_000_000);
    assert(-0x8000_0000 * 0xffff_ffff <= velocity * dt_micros <= 0x8000_0000 * 0xffff_ffff)
        by (nonlinear_arith)
        requires
            -0x8000_0000 <= velocity <= 0x8000_0000,
            0 <= dt_micros <= 0xffff_ffff,
    ;
    clamp_to_coordinate(position as i128 + moved)
}

fn advance_point(position: Vec2, velocity: Vec2, dt_micros: u32) -> (r: Vec2)
    ensures
        r == advance(position, velocity, dt_micros),
{
    Vec2 {
        x: advance_coordinate(position.x, velocity.x, dt_micros),
        y: advance_coordinate(position.y, velocity.y, dt_micros),
    }
}

fn spawn(team: Team, x: i32, y: i32) -> (robot: Robot)
    ensures
        robot == (Robot {
            id: robot.id,
            position: Vec2 { x, y },
            velocity: Vec2 { x: 0, y: 0 },
            rotation: 0,
            team,
            has_ball: false,
        }),
        is_random_id(robot.id),
{
    Robot {
        id: fresh_id(),
        position: Vec2::new(x, y),
        velocity: Vec2::zero(),
        rotation: 0,
        team,
        has_ball: false,
    }
}

/// The match: six robots, a ball and a pitch.
pub struct GameEngine {
    world_state: WorldState,
}

impl View for GameEngine {
    type V = World;

    closed spec fn view(&self) -> World {
        self.world_state@
    }
}

impl GameEngine {
    /// A match at kick-off: three robots a side, lined up two metres from
    /// the centre line, each with a new random identity; the ball at rest on
    /// the centre spot; the standard pitch.
    pub fn new() -> (engine: Self)
        ensures
            engine@.robots.len() == 6,
            forall|i: int|
                0 <= i < 6 ==> (#[trigger] engine@.robots[i]) == kickoff_robot(
                    i,
                    engine@.robots[i].id,
                ) && is_random_id(engine@.robots[i].id),
            engine@.ball == (Ball {
                position: Vec2 { x: 0, y: 0 },
                velocity: Vec2 { x: 0, y: 0 },
            }),
            engine@.field == (Field { width: 9000, height: 6000, goal_width: 1000 }),
    {
        let field = Field::new();
        let mut robots: Vec<Robot> = Vec::new();
        robots.push(spawn(Team::Blue, -2000, -1000));
        robots.push(spawn(Team::Blue, -2000, 0));
        robots.push(spawn(Team::Blue, -2000, 1000));
        robots.push(spawn(Team::Yellow, 2000, -1000));
        robots.push(spawn(Team::Yellow, 2000, 0));
        robots.push(spawn(Team::Yellow, 2000, 1000));
        let world_state = WorldState {
            robots,
            ball: Ball { position: Vec2::zero(), velocity: Vec2::zero() },
            field,
        };
        Self { world_state }
    }

    /// The state of the match.
    pub fn world_state(&self) -> (world: &WorldState)
        ensures
            world@ == self@,
    {
        &self.world_state
    }

    fn find_robot(&self, id: PlayerId) -> (found: Option<usize>)
        ensures
            match found {
                Some(i) => i < self@.robots.len() && first_with_id(self@.robots, id) == Some(
                    i as int,
                ),
                None => first_with_id(self@.robots, id) is None,
            },
    {
        let mut i: usize = 0;
        while i < self.world_state.robots.len()
            invariant
                i <= self.world_state.robots.len(),
                forall|j: int| 0 <= j < i ==> self.world_state.robots@[j].id != id,
            decreases self.world_state.robots.len() - i,
        {
            if self.world_state.robots[i].id == id {
                proof {
                    first_with_id_is_unique(self@.robots, id, i as int);
                }
                return Some(i);
            }
            i += 1;
        }
        None
    }

    /// Gives the first robot with identity `id` a new velocity. Without
    /// such a robot nothing changes.
    pub fn set_robot_velocity(&mut self, id: PlayerId, velocity: Vec2)
        ensures
            final(self)@ == old(self)@.with_velocity(id, velocity),
    {
        if let Some(i) = self.find_robot(id) {
            self.world_state.robots[i].velocity = velocity;
        }
    }

    /// Gives the first robot with identity `id` a new heading. Without such
    /// a robot nothing changes.
    pub fn set_robot_rotation(&mut self, id: PlayerId, rotation: i32)
        ensures
            final(self)@ == old(self)@.with_rotation(id, rotation),
    {
        if let Some(i) = self.find_robot(id) {
            self.world_state.robots[i].rotation = rotation;
        }
    }

    /// The identities of the robots that play for `team`, in the order in
    /// which the robots are kept.
    pub fn get_team_robots(&self, team: Team) -> (ids: Vec<PlayerId>)
        ensures
            ids@ == self@.team_ids(team),
    {
        let mut ids: Vec<PlayerId> = Vec::new();
        let mut i: usize = 0;
        while i < self.world_state.robots.len()
            invariant
                i <= self.world_state.robots.len(),
                ids@ == self.world_state.robots@.take(i as int).filter_map(id_if_on_team(team)),
            decreases self.world_state.robots.len() - i,
        {
            proof {
                let next = self.world_state.robots@.take(i + 1);
                assert(next.drop_last() =~= self.world_state.robots@.take(i as int));
                assert(next.last() == self.world_state.robots@[i as int]);
            }
            if self.world_state.robots[i].team == team {
                ids.push(self.world_state.robots[i].id);
            }
            i += 1;
        }
        assert(self.world_state.robots@.take(i as int) =~= self.world_state.robots@);
        ids
    }

    /// The position of the first robot with identity `id`, if there is one.
    pub fn get_robot_position(&self, id: PlayerId) -> (position: Option<Vec2>)
        ensures
            position == self@.position_of(id),
    {
        match self.find_robot(id) {
            Some(i) => Some(self.world_state.robots[i].position),
            None => None,
        }
    }

    /// Lets `dt_micros` microseconds pass: every robot and the ball move on
    /// by their velocity, which stays as it is.
    pub fn update_physics(&mut self, dt_micros: u32)
        ensures
            final(self)@ == old(self)@.after(dt_micros),
    {
        let mut i: usize = 0;
        while i < self.world_state.robots.len()
            invariant
                i <= self.world_state.robots.len(),
                self.world_state.robots.len() == old(self).world_state.robots.len(),
                self.world_state.ball == old(self).world_state.ball,
                self.world_state.field == old(self).world_state.field,
                forall|j: int|
                    0 <= j < i ==> (#[trigger] self.world_state.robots@[j]) == advance_robot(
                        old(self).world_state.robots@[j],
                        dt_micros,
                    ),
                forall|j: int|
                    i <= j < self.world_state.robots.len() ==> self.world_state.robots@[j] == old(
                        self,
                    ).world_state.robots@[j],
            decreases self.world_state.robots.len() - i,
        {
            let position = self.world_state.robots[i].position;
            let velocity = self.world_state.robots[i].velocity;
            self.world_state.robots[i].position = advance_point(position, velocity, dt_micros);
            i += 1;
        }
        self.world_state.ball.position = advance_point(
            self.world_state.ball.position,
            self.world_state.ball.velocity,
            dt_micros,
        );
        assert(self@.robots =~= old(self)@.after(dt_micros).robots);
    }
}

} // verus!
