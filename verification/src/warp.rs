//! The warp effect: a burst of particles that streams past the ship.

use vstd::prelude::*;
use crate::color::Color;
use crate::fixed::{
    divide_wide, fx_mul, product, saturate, saturated, trunc_div, Fixed, ONE, TWO_PI,
};
use crate::random::random_between;
use crate::vector::{scaled_vector, sideways_of, upward_of, vector_sum, Angle, Vec3};

verus! {

/// How long a warp lasts: two seconds.
pub const WARP_DURATION: Fixed = 131072;

/// The pause between two bursts of particles: 0.01, rounded down.
pub const SPAWN_PAUSE: Fixed = 655;

/// How long a particle lives: half a second.
pub const PARTICLE_LIFETIME: Fixed = 32768;

/// One particle of the stream.
#[derive(Clone, Copy, Debug)]
pub struct WarpParticle {
    pub position: Vec3,
    /// Movement per second.
    pub velocity: Vec3,
    pub color: Color,
    /// Time left to live.
    pub lifetime: Fixed,
}

/// The warp effect and its particles.
pub struct WarpEffect {
    pub active: bool,
    pub particles: Vec<WarpParticle>,
    /// Time until the next burst.
    pub spawn_timer: Fixed,
    /// From 0 to 1: how strong the effect is.
    pub intensity: Fixed,
    /// Time until the warp ends.
    pub duration: Fixed,
}

/// The place of a new particle: on a circle of the given radius about the
/// ship's course, at the point that `spin` names, and `offset_z` ahead of
/// the ship.
pub open spec fn particle_position(
    ship: Vec3,
    forward: Vec3,
    spin: Angle,
    radius: Fixed,
    offset_z: Fixed,
) -> Vec3 {
    vector_sum(
        vector_sum(
            vector_sum(ship, scaled_vector(forward, offset_z as int)),
            scaled_vector(sideways_of(forward), product(spin.cos as int, radius as int)),
        ),
        scaled_vector(upward_of(forward), product(spin.sin as int, radius as int)),
    )
}

/// `p` is a particle as it appears: on a circle of a radius from 0.05 to
/// 0.15 about the ship's course, within 0.1 ahead of or behind the ship,
/// streaming backward at three units a second, in one of three colors, and
/// with half a second to live.
pub open spec fn fresh_particle(p: WarpParticle, ship: Vec3, forward: Vec3, spin: Angle) -> bool {
    &&& exists|radius: Fixed, offset_z: Fixed|
        {
            &&& 3276 <= radius < 9830
            &&& -6553 <= offset_z < 6553
            &&& p.position == #[trigger] particle_position(ship, forward, spin, radius, offset_z)
        }
    &&& p.velocity == scaled_vector(forward, -3 * ONE)
    &&& (p.color == (Color { r: 0, g: 150, b: 255 }) || p.color == (Color {
        r: 100,
        g: 200,
        b: 255,
    }) || p.color == (Color { r: 255, g: 255, b: 255 }))
    &&& p.lifetime == PARTICLE_LIFETIME
}

/// The particle after the time `dt`.
pub open spec fn particle_stepped(p: WarpParticle, dt: Fixed) -> WarpParticle {
    WarpParticle {
        position: vector_sum(p.position, scaled_vector(p.velocity, dt as int)),
        lifetime: saturated(p.lifetime - dt) as i32,
        ..p
    }
}

/// What the time `dt` makes of a particle, as a function.
pub open spec fn particle_step(dt: Fixed) -> spec_fn(WarpParticle) -> WarpParticle {
    |p: WarpParticle| particle_stepped(p, dt)
}

/// The test that a particle still lives.
pub open spec fn particle_alive() -> spec_fn(WarpParticle) -> bool {
    |p: WarpParticle| p.lifetime > 0
}

/// The time that a warp has left after the time `dt`.
pub open spec fn duration_after(w: WarpEffect, dt: Fixed) -> int {
    if w.active {
        saturated(w.duration - dt)
    } else {
        w.duration as int
    }
}

/// The warp is still on after the time `dt`.
pub open spec fn active_after(w: WarpEffect, dt: Fixed) -> bool {
    w.active && duration_after(w, dt) > 0
}

/// The intensity after the time `dt`: half the time left, at most one, and
/// zero once the warp has ended.
pub open spec fn intensity_after(w: WarpEffect, dt: Fixed) -> int {
    if !w.active {
        w.intensity as int
    } else if duration_after(w, dt) <= 0 {
        0
    } else if duration_after(w, dt) / 2 > ONE {
        ONE as int
    } else {
        duration_after(w, dt) / 2
    }
}

/// A burst is due after the time `dt`.
pub open spec fn burst_due(w: WarpEffect, dt: Fixed) -> bool {
    active_after(w, dt) && saturated(w.spawn_timer - dt) <= 0
}

/// The number of particles in a burst at the given intensity: fifty at
/// full intensity.
pub open spec fn burst_size(intensity: int) -> int {
    trunc_div(50 * intensity, ONE as int)
}

/// `p` is a particle as it appears at a random point of the circle: at an
/// angle from zero up to twice pi, for a sine and cosine that `trig`
/// returned for the angle.
pub open spec fn particle_born<T: Fn(Fixed) -> Angle>(
    p: WarpParticle,
    ship: Vec3,
    forward: Vec3,
    trig: &T,
) -> bool {
    exists|angle: Fixed, spin: Angle|
        {
            &&& 0 <= angle < TWO_PI
            &&& #[trigger] call_ensures(trig, (angle,), spin)
            &&& fresh_particle(p, ship, forward, spin)
        }
}

/// `after` is what the time `dt` makes of `before`, where `born` are the
/// particles of the burst, if one was due: the new particles join the old
/// ones, every particle moves and ages, and the dead are dropped.
pub open spec fn warp_stepped<T: Fn(Fixed) -> Angle>(
    before: WarpEffect,
    after: WarpEffect,
    born: Seq<WarpParticle>,
    ship: Vec3,
    forward: Vec3,
    dt: Fixed,
    trig: &T,
) -> bool {
    &&& after.active == active_after(before, dt)
    &&& after.duration == duration_after(before, dt)
    &&& after.intensity == intensity_after(before, dt)
    &&& after.spawn_timer == if burst_due(before, dt) {
        SPAWN_PAUSE as int
    } else if active_after(before, dt) {
        saturated(before.spawn_timer - dt)
    } else {
        before.spawn_timer as int
    }
    &&& born.len() == if burst_due(before, dt) {
        burst_size(intensity_after(before, dt))
    } else {
        0
    }
    &&& forall|i: int| 0 <= i < born.len() ==> particle_born(#[trigger] born[i], ship, forward, trig)
    &&& after.particles@ == (before.particles@ + born).map_values(particle_step(dt)).filter(
        particle_alive(),
    )
}

impl WarpParticle {
    /// A new particle at a random point of the circle about the ship's
    /// course, with a random radius, offset and color. `trig` is asked for
    /// the sine and cosine of the point's angle.
    pub fn new<T: Fn(Fixed) -> Angle>(ship_pos: Vec3, ship_forward: Vec3, trig: &T) -> (p:
        WarpParticle)
        requires
            forall|a: Fixed| call_requires(trig, (a,)),
        ensures
            particle_born(p, ship_pos, ship_forward, trig),
    {
        let angle: Fixed = random_between(0, 411775);
        let spin: Angle = trig(angle);
        let p: WarpParticle = WarpParticle::at(ship_pos, ship_forward, spin);
        proof {
            assert(call_ensures(trig, (angle,), spin));
        }
        p
    }

    /// A new particle at the point of the circle that `spin` names, with a
    /// random radius, offset and color.
    pub fn at(ship_pos: Vec3, ship_forward: Vec3, spin: Angle) -> (p: WarpParticle)
        ensures
            fresh_particle(p, ship_pos, ship_forward, spin),
    {
        let radius: Fixed = random_between(3276, 9830);
        let offset_z: Fixed = random_between(-6553, 6553);
        let right: Vec3 = ship_forward.sideways();
        let up: Vec3 = ship_forward.upward();
        let offset_x: Fixed = fx_mul(spin.cos, radius);
        let offset_y: Fixed = fx_mul(spin.sin, radius);
        let position: Vec3 = ship_pos.plus(&ship_forward.scale(offset_z)).plus(
            &right.scale(offset_x),
        ).plus(&up.scale(offset_y));
        let velocity: Vec3 = ship_forward.scale(-3 * 65536);
        let color_choice: i32 = random_between(0, 10);
        let color: Color = if color_choice <= 6 {
            Color::new(0, 150, 255)
        } else if color_choice <= 8 {
            Color::new(100, 200, 255)
        } else {
            Color::new(255, 255, 255)
        };
        proof {
            assert(position == particle_position(ship_pos, ship_forward, spin, radius, offset_z));
        }
        WarpParticle { position, velocity, color, lifetime: 32768 }
    }

    /// Lets the time `delta_time` pass.
    pub fn update(&mut self, delta_time: Fixed)
        ensures
            *final(self) == particle_stepped(*old(self), delta_time),
    {
        self.position = self.position.plus(&self.velocity.scale(delta_time));
        self.lifetime = saturate((self.lifetime as i128) - (delta_time as i128));
    }
}

impl WarpEffect {
    /// An effect that is off and has no particles.
    pub fn new() -> (w: WarpEffect)
        ensures
            !w.active,
            w.particles@.len() == 0,
            w.spawn_timer == 0,
            w.intensity == 0,
            w.duration == 0,
    {
        WarpEffect {
            active: false,
            particles: Vec::new(),
            spawn_timer: 0,
            intensity: 0,
            duration: 0,
        }
    }

    /// Starts a warp of two seconds at full intensity.
    pub fn activate(&mut self)
        ensures
            final(self).active,
            final(self).duration == WARP_DURATION,
            final(self).intensity == ONE,
            final(self).particles == old(self).particles,
            final(self).spawn_timer == old(self).spawn_timer,
    {
        self.active = true;
        self.duration = 131072;
        self.intensity = 65536;
    }

    /// The effect is strong enough to speed the ship up: its intensity is
    /// over 0.3.
    pub fn is_boosting(&self) -> (r: bool)
        ensures
            r == (self.intensity * 10 > 3 * ONE),
    {
        (self.intensity as i64) * 10 > 3 * 65536
    }

    /// Lets the time `delta_time` pass: the warp runs down, a burst of new
    /// particles appears about the ship when one is due, and all particles
    /// move and age. `trig` is asked for the sine and cosine of each new
    /// particle's angle.
    pub fn update<T: Fn(Fixed) -> Angle>(
        &mut self,
        delta_time: Fixed,
        ship_pos: Vec3,
        ship_forward: Vec3,
        trig: &T,
    )
        requires
            forall|a: Fixed| call_requires(trig, (a,)),
        ensures
            exists|born: Seq<WarpParticle>| #[trigger]
                warp_stepped(
                    *old(self),
                    *final(self),
                    born,
                    ship_pos,
                    ship_forward,
                    delta_time,
                    trig,
                ),
    {
        if self.active {
            self.duration = saturate((self.duration as i128) - (delta_time as i128));
            if self.duration <= 0 {
                self.active = false;
                self.intensity = 0;
            } else {
                let half: Fixed = self.duration / 2;
                self.intensity = if half > 65536 {
                    65536
                } else {
                    half
                };
            }
        }
        let ghost mut born: Seq<WarpParticle> = Seq::empty();
        if self.active {
            self.spawn_timer = saturate((self.spawn_timer as i128) - (delta_time as i128));
            if self.spawn_timer <= 0 {
                let particle_count: i128 = divide_wide(50 * (self.intensity as i128), 65536);
                let mut n: i128 = 0;
                while n < particle_count
                    invariant
                        0 <= n <= particle_count,
                        forall|a: Fixed| call_requires(trig, (a,)),
                        born.len() == n,
                        forall|i: int|
                            0 <= i < born.len() ==> particle_born(
                                #[trigger] born[i],
                                ship_pos,
                                ship_forward,
                                trig,
                            ),
                        self.particles@ == old(self).particles@ + born,
                        self.active == old(self).active,
                        self.duration == duration_after(*old(self), delta_time),
                        self.intensity == intensity_after(*old(self), delta_time),
                    decreases particle_count - n,
                {
                    let particle: WarpParticle = WarpParticle::new(ship_pos, ship_forward, trig);
                    let ghost earlier = born;
                    self.particles.push(particle);
                    proof {
                        born = earlier.push(particle);
                        assert(self.particles@ =~= old(self).particles@ + born);
                        assert forall|i: int| 0 <= i < born.len() implies particle_born(
                            #[trigger] born[i],
                            ship_pos,
                            ship_forward,
                            trig,
                        ) by {
                            if i < earlier.len() {
                                assert(born[i] == earlier[i]);
                            }
                        }
                    }
                    n += 1;
                }
                self.spawn_timer = 655;
            }
        }
        proof {
            assert(self.particles@ =~= old(self).particles@ + born);
        }
        let ghost all = self.particles@;
        let mut kept: Vec<WarpParticle> = Vec::new();
        let mut i: usize = 0;
        while i < self.particles.len()
            invariant
                i <= self.particles.len(),
                self.particles@ == all,
                kept@ == all.take(i as int).map_values(particle_step(delta_time)).filter(
                    particle_alive(),
                ),
            decreases self.particles.len() - i,
        {
            let mut particle: WarpParticle = self.particles[i];
            particle.update(delta_time);
            proof {
                reveal(Seq::filter);
                let done = all.take(i as int + 1).map_values(particle_step(delta_time));
                let earlier = all.take(i as int).map_values(particle_step(delta_time));
                assert(done.drop_last() =~= earlier);
                assert(done.last() == particle);
                assert(particle_alive()(particle) == (particle.lifetime > 0));
                assert(done.filter(particle_alive()) == if particle_alive()(done.last()) {
                    done.drop_last().filter(particle_alive()).push(done.last())
                } else {
                    done.drop_last().filter(particle_alive())
                });
            }
            if particle.lifetime > 0 {
                kept.push(particle);
            }
            i += 1;
        }
        proof {
            assert(all.take(all.len() as int) =~= all);
        }
        self.particles = kept;
        proof {
            assert(warp_stepped(
                *old(self),
                *self,
                born,
                ship_pos,
                ship_forward,
                delta_time,
                trig,
            ));
        }
    }
}

} // verus!
