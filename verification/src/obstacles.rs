//! Obstacles that drift toward the ship and shoot at it.

use vstd::prelude::*;
use crate::color::Color;
use crate::fixed::{saturate, saturated, Fixed, ONE};
use crate::random::{random_between, random_chance};
use crate::vector::{
    norm, normalized, scaled_vector, sideways_of, upward_of, vector_difference, vector_sum, Vec3,
};

verus! {

/// The distance from the origin beyond which things are dropped: 50.
pub const RANGE: Fixed = 3276800;

/// The speed of a projectile: 0.15, rounded down.
pub const PROJECTILE_SPEED: Fixed = 9830;

/// The size of the ship in a collision with an obstacle: 0.2, rounded down.
pub const SHIP_SIZE: Fixed = 13107;

/// The time between two obstacles: 1.5.
pub const SPAWN_INTERVAL: Fixed = 98304;

/// How far ahead of the ship obstacles appear: 15.
pub const SPAWN_DISTANCE: Fixed = 983040;

/// The shape of an obstacle.
#[derive(Clone, Copy, Debug, PartialEq, Eq, Structural)]
pub enum ObstacleType {
    Cube,
    Sphere,
}

/// Something in the way of the ship.
#[derive(Clone, Copy, Debug)]
pub struct Obstacle {
    pub position: Vec3,
    pub obstacle_type: ObstacleType,
    pub size: Fixed,
    pub color: Color,
    pub active: bool,
    /// Movement per frame at 60 frames a second.
    pub velocity: Vec3,
    /// Time until the next shot.
    pub shoot_timer: Fixed,
}

/// A shot on its way.
#[derive(Clone, Copy, Debug)]
pub struct Projectile {
    pub position: Vec3,
    /// Movement per frame at 60 frames a second.
    pub velocity: Vec3,
    pub active: bool,
    pub color: Color,
}

/// The number of frames, at 60 a second, that the time `dt` stands for.
pub open spec fn frames(dt: int) -> int {
    saturated(dt * 60)
}

/// A position is out of range.
pub open spec fn out_of_range(p: Vec3) -> bool {
    norm(p) > RANGE
}

/// A position after the time `dt` at the given velocity.
pub open spec fn carried(position: Vec3, velocity: Vec3, dt: Fixed) -> Vec3 {
    vector_sum(position, scaled_vector(velocity, frames(dt as int)))
}

/// The position of an obstacle after the time `dt`: it falls back against
/// the ship's forward direction by a tenth of a unit per frame and moves at
/// its own velocity.
pub open spec fn obstacle_position(o: Obstacle, forward: Vec3, dt: Fixed) -> Vec3 {
    carried(
        vector_difference(o.position, scaled_vector(forward, saturated(dt * 6))),
        o.velocity,
        dt,
    )
}

/// The red projectile that leaves `position` for the ship.
pub open spec fn shot_from(position: Vec3, ship: Vec3) -> Projectile {
    Projectile {
        position,
        velocity: scaled_vector(
            normalized(vector_difference(ship, position)),
            PROJECTILE_SPEED as int,
        ),
        active: true,
        color: Color { r: 255, g: 50, b: 50 },
    }
}

/// The two points are less than `reach` apart.
pub open spec fn near(a: Vec3, b: Vec3, reach: int) -> bool {
    norm(vector_difference(a, b)) < reach
}

/// A new obstacle of the given kind, place and size: it is active, reddish
/// if it is a cube and bluish if it is a sphere, with the one free channel
/// from 150 up to 255, moves at less than half a unit per frame sideways
/// and less than 0.3 up or down, and fires within one to three seconds.
pub open spec fn fresh_obstacle(o: Obstacle, kind: ObstacleType, position: Vec3, size: Fixed)
    -> bool {
    &&& o.obstacle_type == kind
    &&& o.position == position
    &&& o.size == size
    &&& o.active
    &&& match kind {
        ObstacleType::Cube => 150 <= o.color.r < 255 && o.color.g == 50 && o.color.b == 50,
        ObstacleType::Sphere => o.color.r == 100 && o.color.g == 100 && 150 <= o.color.b < 255,
    }
    &&& -32768 <= o.velocity.x < 32768
    &&& -19660 <= o.velocity.y < 19660
    &&& o.velocity.z == 0
    &&& ONE <= o.shoot_timer < 3 * ONE
}

/// `after` and `shot` are what the time `dt` makes of the obstacle
/// `before`: it moves, goes out of action when out of range, and when its
/// timer runs out it fires at the ship and sets the timer to between two
/// and four seconds.
pub open spec fn obstacle_stepped(
    before: Obstacle,
    after: Obstacle,
    shot: Option<Projectile>,
    forward: Vec3,
    ship: Vec3,
    dt: Fixed,
) -> bool {
    &&& after.position == obstacle_position(before, forward, dt)
    &&& after.active == (before.active && !out_of_range(after.position))
    &&& after.obstacle_type == before.obstacle_type
    &&& after.size == before.size
    &&& after.color == before.color
    &&& after.velocity == before.velocity
    &&& if saturated(before.shoot_timer - dt) <= 0 {
        &&& shot == Some(shot_from(after.position, ship))
        &&& 2 * ONE <= after.shoot_timer < 4 * ONE
    } else {
        &&& shot is None
        &&& after.shoot_timer == saturated(before.shoot_timer - dt)
    }
}

/// The projectile after the time `dt`: it moves, and goes out of action
/// when out of range.
pub open spec fn projectile_stepped(p: Projectile, dt: Fixed) -> Projectile {
    let position = carried(p.position, p.velocity, dt);
    Projectile { position, active: p.active && !out_of_range(position), ..p }
}

/// The time `dt` in frames.
fn frames_in(dt: Fixed) -> (r: Fixed)
    ensures
        r == frames(dt as int),
{
    saturate((dt as i128) * 60)
}

impl Obstacle {
    /// A new obstacle with a random color, velocity and time to fire.
    pub fn new(obstacle_type: ObstacleType, position: Vec3, size: Fixed) -> (o: Obstacle)
        ensures
            fresh_obstacle(o, obstacle_type, position, size),
    {
        let color: Color = match obstacle_type {
            ObstacleType::Cube => {
                let r: u8 = random_between(150, 255) as u8;
                Color::new(r, 50, 50)
            },
            ObstacleType::Sphere => {
                let b: u8 = random_between(150, 255) as u8;
                Color::new(100, 100, b)
            },
        };
        let velocity: Vec3 = Vec3 {
            x: random_between(-32768, 32768),
            y: random_between(-19660, 19660),
            z: 0,
        };
        Obstacle {
            position,
            obstacle_type,
            size,
            color,
            active: true,
            velocity,
            shoot_timer: random_between(65536, 3 * 65536),
        }
    }

    /// Lets the time `delta_time` pass, and returns the shot if one was
    /// fired.
    pub fn update(&mut self, ship_forward: Vec3, ship_pos: Vec3, delta_time: Fixed) -> (shot: Option<
        Projectile,
    >)
        ensures
            obstacle_stepped(*old(self), *final(self), shot, ship_forward, ship_pos, delta_time),
    {
        let fall: Vec3 = ship_forward.scale(saturate((delta_time as i128) * 6));
        self.position = self.position.minus(&fall);
        self.position = self.position.plus(&self.velocity.scale(frames_in(delta_time)));
        if self.position.magnitude() > 3276800 {
            self.active = false;
        }
        self.shoot_timer = saturate((self.shoot_timer as i128) - (delta_time as i128));
        if self.shoot_timer <= 0 {
            self.shoot_timer = random_between(2 * 65536, 4 * 65536);
            return Some(self.shoot(ship_pos));
        }
        None
    }

    /// The projectile that leaves this obstacle for the ship.
    pub fn shoot(&self, ship_pos: Vec3) -> (p: Projectile)
        ensures
            p == shot_from(self.position, ship_pos),
    {
        let direction: Vec3 = ship_pos.minus(&self.position).normalize();
        Projectile {
            position: self.position,
            velocity: direction.scale(9830),
            active: true,
            color: Color::new(255, 50, 50),
        }
    }

    /// The ship, of the given size, touches this obstacle.
    pub fn check_collision(&self, ship_pos: Vec3, ship_size: Fixed) -> (hit: bool)
        ensures
            hit == near(self.position, ship_pos, self.size + ship_size),
    {
        let distance: u64 = self.position.minus(&ship_pos).length();
        (distance as i128) < (self.size as i128) + (ship_size as i128)
    }
}

impl Projectile {
    /// Lets the time `delta_time` pass.
    pub fn update(&mut self, delta_time: Fixed)
        ensures
            *final(self) == projectile_stepped(*old(self), delta_time),
    {
        self.position = self.position.plus(&self.velocity.scale(frames_in(delta_time)));
        if self.position.magnitude() > 3276800 {
            self.active = false;
        }
    }

    /// The projectile is within 0.3 of the ship.
    pub fn check_collision(&self, ship_pos: Vec3) -> (hit: bool)
        ensures
            hit == strikes(*self, ship_pos),
    {
        let distance: Fixed = self.position.minus(&ship_pos).magnitude();
        (distance as i64) * 10 < 3 * 65536
    }
}

/// The ship, whose size in a collision is `SHIP_SIZE`, touches the
/// obstacle.
pub open spec fn touches(o: Obstacle, ship: Vec3) -> bool {
    near(o.position, ship, o.size + SHIP_SIZE)
}

/// The projectile is within 0.3 of the ship.
pub open spec fn strikes(p: Projectile, ship: Vec3) -> bool {
    norm(vector_difference(p.position, ship)) * 10 < 3 * ONE
}

/// What the ship ran into: an obstacle or a projectile, by its place in
/// the manager's list.
#[derive(Clone, Copy, Debug, PartialEq, Eq)]
pub enum Collision {
    Obstacle(usize),
    Projectile(usize),
}

/// The obstacles and the projectiles in play.
pub struct ObstacleManager {
    pub obstacles: Vec<Obstacle>,
    pub projectiles: Vec<Projectile>,
    /// Time until the next obstacle appears.
    pub spawn_timer: Fixed,
    /// How far ahead of the ship obstacles appear.
    pub spawn_distance: Fixed,
}

/// The test that an obstacle is in action.
pub open spec fn obstacle_in_action() -> spec_fn(Obstacle) -> bool {
    |o: Obstacle| o.active
}

/// The test that a projectile is in action.
pub open spec fn projectile_in_action() -> spec_fn(Projectile) -> bool {
    |p: Projectile| p.active
}

/// What the time `dt` makes of a projectile, as a function.
pub open spec fn projectile_step(dt: Fixed) -> spec_fn(Projectile) -> Projectile {
    |p: Projectile| projectile_stepped(p, dt)
}

/// The shot that was fired, if one was.
pub open spec fn fired() -> spec_fn(Option<Projectile>) -> Option<Projectile> {
    |s: Option<Projectile>| s
}

/// The place where an obstacle appears: `distance` ahead of the ship, and
/// off to the right and up by the two offsets.
pub open spec fn spawn_position(
    ship: Vec3,
    forward: Vec3,
    distance: Fixed,
    offset_x: Fixed,
    offset_y: Fixed,
) -> Vec3 {
    let right = sideways_of(forward);
    let up = upward_of(forward);
    vector_sum(
        vector_sum(
            vector_sum(ship, scaled_vector(forward, distance as int)),
            scaled_vector(right, offset_x as int),
        ),
        scaled_vector(up, offset_y as int),
    )
}

/// `o` is an obstacle as it appears ahead of the ship: a new obstacle of
/// either kind and of a size from 0.3 to 0.6, off the ship's course by less
/// than 3 to either side and less than 2 up or down.
pub open spec fn spawned(o: Obstacle, ship: Vec3, forward: Vec3, distance: Fixed) -> bool {
    &&& 19660 <= o.size < 39321
    &&& exists|offset_x: Fixed, offset_y: Fixed|
        {
            &&& -3 * ONE <= offset_x < 3 * ONE
            &&& -2 * ONE <= offset_y < 2 * ONE
            &&& fresh_obstacle(
                o,
                o.obstacle_type,
                #[trigger] spawn_position(ship, forward, distance, offset_x, offset_y),
                o.size,
            )
        }
}

/// `after` is what the time `dt` makes of `before`, where `stepped` are the
/// obstacles of `before` after that time and `shots` is what each of them
/// fired: the shots join the projectiles, every projectile moves, whatever
/// is out of action is dropped, and when the spawn timer runs out a new
/// obstacle appears at the end of the list.
pub open spec fn manager_stepped(
    before: ObstacleManager,
    after: ObstacleManager,
    stepped: Seq<Obstacle>,
    shots: Seq<Option<Projectile>>,
    ship: Vec3,
    forward: Vec3,
    dt: Fixed,
) -> bool {
    &&& stepped.len() == before.obstacles@.len()
    &&& shots.len() == before.obstacles@.len()
    &&& forall|i: int|
        0 <= i < stepped.len() ==> obstacle_stepped(
            before.obstacles@[i],
            #[trigger] stepped[i],
            shots[i],
            forward,
            ship,
            dt,
        )
    &&& after.projectiles@ == (before.projectiles@ + shots.filter_map(fired())).map_values(
        projectile_step(dt),
    ).filter(projectile_in_action())
    &&& after.spawn_distance == before.spawn_distance
    &&& if saturated(before.spawn_timer - dt) <= 0 {
        &&& after.spawn_timer == SPAWN_INTERVAL
        &&& after.obstacles@.len() > 0
        &&& after.obstacles@.drop_last() == stepped.filter(obstacle_in_action())
        &&& spawned(after.obstacles@.last(), ship, forward, before.spawn_distance)
    } else {
        &&& after.spawn_timer == saturated(before.spawn_timer - dt)
        &&& after.obstacles@ == stepped.filter(obstacle_in_action())
    }
}

/// The obstacles that are in action, in order.
fn obstacles_in_action(all: &Vec<Obstacle>) -> (kept: Vec<Obstacle>)
    ensures
        kept@ == all@.filter(obstacle_in_action()),
{
    let mut kept: Vec<Obstacle> = Vec::new();
    let mut i: usize = 0;
    while i < all.len()
        invariant
            i <= all.len(),
            kept@ == all@.take(i as int).filter(obstacle_in_action()),
        decreases all.len() - i,
    {
        proof {
            reveal(Seq::filter);
            let done = all@.take(i as int + 1);
            assert(done.drop_last() =~= all@.take(i as int));
            assert(done.last() == all@[i as int]);
            assert(obstacle_in_action()(done.last()) == all@[i as int].active);
            assert(done.filter(obstacle_in_action()) == if obstacle_in_action()(done.last()) {
                done.drop_last().filter(obstacle_in_action()).push(done.last())
            } else {
                done.drop_last().filter(obstacle_in_action())
            });
        }
        if all[i].active {
            kept.push(all[i]);
        }
        i += 1;
    }
    proof {
        assert(all@.take(all@.len() as int) =~= all@);
    }
    kept
}

/// The projectiles that are in action, in order.
fn projectiles_in_action(all: &Vec<Projectile>) -> (kept: Vec<Projectile>)
    ensures
        kept@ == all@.filter(projectile_in_action()),
{
    let mut kept: Vec<Projectile> = Vec::new();
    let mut i: usize = 0;
    while i < all.len()
        invariant
            i <= all.len(),
            kept@ == all@.take(i as int).filter(projectile_in_action()),
        decreases all.len() - i,
    {
        proof {
            reveal(Seq::filter);
            let done = all@.take(i as int + 1);
            assert(done.drop_last() =~= all@.take(i as int));
            assert(done.last() == all@[i as int]);
            assert(projectile_in_action()(done.last()) == all@[i as int].active);
            assert(done.filter(projectile_in_action()) == if projectile_in_action()(done.last()) {
                done.drop_last().filter(projectile_in_action()).push(done.last())
            } else {
                done.drop_last().filter(projectile_in_action())
            });
        }
        if all[i].active {
            kept.push(all[i]);
        }
        i += 1;
    }
    proof {
        assert(all@.take(all@.len() as int) =~= all@);
    }
    kept
}

impl ObstacleManager {
    /// No obstacles and no projectiles; the first obstacle appears at once.
    pub fn new() -> (m: ObstacleManager)
        ensures
            m.obstacles@.len() == 0,
            m.projectiles@.len() == 0,
            m.spawn_timer == 0,
            m.spawn_distance == SPAWN_DISTANCE,
    {
        ObstacleManager {
            obstacles: Vec::new(),
            projectiles: Vec::new(),
            spawn_timer: 0,
            spawn_distance: 983040,
        }
    }

    /// Lets the time `delta_time` pass for everything in play.
    pub fn update(&mut self, ship_pos: Vec3, ship_forward: Vec3, delta_time: Fixed)
        ensures
            exists|stepped: Seq<Obstacle>, shots: Seq<Option<Projectile>>| #[trigger]
                manager_stepped(
                    *old(self),
                    *final(self),
                    stepped,
                    shots,
                    ship_pos,
                    ship_forward,
                    delta_time,
                ),
    {
        let ghost mut shots: Seq<Option<Projectile>> = Seq::empty();
        let mut i: usize = 0;
        while i < self.obstacles.len()
            invariant
                i <= self.obstacles.len(),
                self.obstacles@.len() == old(self).obstacles@.len(),
                shots.len() == i,
                forall|j: int|
                    0 <= j < i ==> obstacle_stepped(
                        old(self).obstacles@[j],
                        #[trigger] self.obstacles@[j],
                        shots[j],
                        ship_forward,
                        ship_pos,
                        delta_time,
                    ),
                forall|j: int|
                    i <= j < self.obstacles@.len() ==> self.obstacles@[j] == old(self).obstacles@[j],
                self.projectiles@ == old(self).projectiles@ + shots.filter_map(fired()),
                self.spawn_timer == old(self).spawn_timer,
                self.spawn_distance == old(self).spawn_distance,
            decreases self.obstacles.len() - i,
        {
            let mut obstacle: Obstacle = self.obstacles[i];
            let shot: Option<Projectile> = obstacle.update(ship_forward, ship_pos, delta_time);
            self.obstacles.set(i, obstacle);
            proof {
                let longer = shots.push(shot);
                assert(longer.drop_last() =~= shots);
                assert(longer.last() == shot);
                assert(longer.filter_map(fired()) == match shot {
                    Some(p) => shots.filter_map(fired()) + seq![p],
                    None => shots.filter_map(fired()),
                });
                shots = longer;
            }
            match shot {
                Some(projectile) => {
                    let ghost earlier = self.projectiles@;
                    self.projectiles.push(projectile);
                    assert(self.projectiles@ =~= earlier + seq![projectile]);
                    assert(earlier + seq![projectile] =~= old(self).projectiles@ + shots.filter_map(
                        fired(),
                    ));
                },
                None => {},
            }
            i += 1;
        }
        let ghost stepped = self.obstacles@;
        let ghost flying = self.projectiles@;
        let mut j: usize = 0;
        while j < self.projectiles.len()
            invariant
                j <= self.projectiles.len(),
                self.projectiles@.len() == flying.len(),
                forall|k: int|
                    0 <= k < j ==> #[trigger] self.projectiles@[k] == projectile_stepped(
                        flying[k],
                        delta_time,
                    ),
                forall|k: int| j <= k < flying.len() ==> self.projectiles@[k] == flying[k],
                self.obstacles@ == stepped,
                self.spawn_timer == old(self).spawn_timer,
                self.spawn_distance == old(self).spawn_distance,
            decreases self.projectiles.len() - j,
        {
            let mut projectile: Projectile = self.projectiles[j];
            projectile.update(delta_time);
            self.projectiles.set(j, projectile);
            j += 1;
        }
        assert(self.projectiles@ =~= flying.map_values(projectile_step(delta_time)));
        self.obstacles = obstacles_in_action(&self.obstacles);
        self.projectiles = projectiles_in_action(&self.projectiles);
        self.spawn_timer = saturate((self.spawn_timer as i128) - (delta_time as i128));
        if self.spawn_timer <= 0 {
            let ghost kept = self.obstacles@;
            self.spawn_obstacle(ship_pos, ship_forward);
            self.spawn_timer = 98304;
            assert(self.obstacles@.drop_last() =~= kept);
        }
        assert(manager_stepped(
            *old(self),
            *self,
            stepped,
            shots,
            ship_pos,
            ship_forward,
            delta_time,
        ));
    }

    /// Puts a new obstacle ahead of the ship, at the end of the list.
    fn spawn_obstacle(&mut self, ship_pos: Vec3, ship_forward: Vec3)
        ensures
            final(self).obstacles@.len() == old(self).obstacles@.len() + 1,
            final(self).obstacles@.drop_last() == old(self).obstacles@,
            spawned(final(self).obstacles@.last(), ship_pos, ship_forward, old(self).spawn_distance),
            final(self).projectiles == old(self).projectiles,
            final(self).spawn_timer == old(self).spawn_timer,
            final(self).spawn_distance == old(self).spawn_distance,
    {
        let offset_x: Fixed = random_between(-3 * 65536, 3 * 65536);
        let offset_y: Fixed = random_between(-2 * 65536, 2 * 65536);
        let right: Vec3 = ship_forward.sideways();
        let up: Vec3 = ship_forward.upward();
        let position: Vec3 = ship_pos.plus(&ship_forward.scale(self.spawn_distance)).plus(
            &right.scale(offset_x),
        ).plus(&up.scale(offset_y));
        let obstacle_type: ObstacleType = if random_chance(3, 5) {
            ObstacleType::Cube
        } else {
            ObstacleType::Sphere
        };
        let size: Fixed = random_between(19660, 39321);
        let obstacle: Obstacle = Obstacle::new(obstacle_type, position, size);
        proof {
            assert(position == spawn_position(
                ship_pos,
                ship_forward,
                self.spawn_distance,
                offset_x,
                offset_y,
            ));
        }
        self.obstacles.push(obstacle);
        assert(self.obstacles@.drop_last() =~= old(self).obstacles@);
    }

    /// What the ship runs into, if anything: the first obstacle in the list
    /// that it touches, or else the first projectile that hits it.
    pub fn find_collision(&self, ship_pos: Vec3) -> (hit: Option<Collision>)
        ensures
            match hit {
                Some(Collision::Obstacle(i)) => {
                    &&& i < self.obstacles@.len()
                    &&& touches(self.obstacles@[i as int], ship_pos)
                    &&& forall|k: int| 0 <= k < i ==> !touches(#[trigger] self.obstacles@[k], ship_pos)
                },
                Some(Collision::Projectile(j)) => {
                    &&& j < self.projectiles@.len()
                    &&& strikes(self.projectiles@[j as int], ship_pos)
                    &&& forall|k: int|
                        0 <= k < self.obstacles@.len() ==> !touches(
                            #[trigger] self.obstacles@[k],
                            ship_pos,
                        )
                    &&& forall|k: int|
                        0 <= k < j ==> !strikes(#[trigger] self.projectiles@[k], ship_pos)
                },
                None => {
                    &&& forall|k: int|
                        0 <= k < self.obstacles@.len() ==> !touches(
                            #[trigger] self.obstacles@[k],
                            ship_pos,
                        )
                    &&& forall|k: int|
                        0 <= k < self.projectiles@.len() ==> !strikes(
                            #[trigger] self.projectiles@[k],
                            ship_pos,
                        )
                },
            },
    {
        let mut i: usize = 0;
        while i < self.obstacles.len()
            invariant
                i <= self.obstacles.len(),
                forall|k: int| 0 <= k < i ==> !touches(#[trigger] self.obstacles@[k], ship_pos),
            decreases self.obstacles.len() - i,
        {
            if self.obstacles[i].check_collision(ship_pos, 13107) {
                return Some(Collision::Obstacle(i));
            }
            i += 1;
        }
        let mut j: usize = 0;
        while j < self.projectiles.len()
            invariant
                j <= self.projectiles.len(),
                i == self.obstacles.len(),
                forall|k: int|
                    0 <= k < self.obstacles@.len() ==> !touches(
                        #[trigger] self.obstacles@[k],
                        ship_pos,
                    ),
                forall|k: int| 0 <= k < j ==> !strikes(#[trigger] self.projectiles@[k], ship_pos),
            decreases self.projectiles.len() - j,
        {
            if self.projectiles[j].check_collision(ship_pos) {
                return Some(Collision::Projectile(j));
            }
            j += 1;
        }
        None
    }

    /// The ship touches an obstacle or is hit by a projectile.
    pub fn check_collisions(&self, ship_pos: Vec3) -> (hit: bool)
        ensures
            hit == ((exists|i: int|
                0 <= i < self.obstacles@.len() && touches(#[trigger] self.obstacles@[i], ship_pos))
                || (exists|j: int|
                0 <= j < self.projectiles@.len() && strikes(
                    #[trigger] self.projectiles@[j],
                    ship_pos,
                ))),
    {
        match self.find_collision(ship_pos) {
            Some(Collision::Obstacle(i)) => {
                assert(touches(self.obstacles@[i as int], ship_pos));
                true
            },
            Some(Collision::Projectile(j)) => {
                assert(strikes(self.projectiles@[j as int], ship_pos));
                true
            },
            None => false,
        }
    }
}

} // verus!
