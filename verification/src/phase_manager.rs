//! The phases of the game: which camera each one uses, and how one phase
//! gives way to the next.

use vstd::prelude::*;
use crate::camera::Camera;
use crate::fixed::{saturate, saturated, Fixed, ONE};
use crate::vector::{vector_sum, Vec3};

verus! {

/// How long a transition from one phase to the next takes: one second.
pub const TRANSITION_TIME: Fixed = 65536;

/// The kind of a phase.
#[derive(Clone, Copy, Debug, PartialEq, Eq, Structural)]
pub enum PhaseType {
    TopDown,
    Side,
    TopDownShooter,
}

/// One phase of the game.
#[derive(Clone, Copy, Debug)]
pub struct Phase {
    pub phase_type: PhaseType,
    /// Where the camera stands, counted from the ship.
    pub camera_position: Vec3,
    pub camera_target: Vec3,
    pub camera_up: Vec3,
    pub completed: bool,
}

/// The phase of the given kind as it starts: seen from 20 above, from 20 to
/// the left, or, for the shooter, from 15 above.
pub open spec fn initial_phase(phase_type: PhaseType) -> Phase {
    let (height, aside, up) = match phase_type {
        PhaseType::TopDown => (20 * ONE, 0, Vec3 { x: 0, y: 0, z: (-ONE) as i32 }),
        PhaseType::Side => (0, -20 * ONE, Vec3 { x: 0, y: ONE, z: 0 }),
        PhaseType::TopDownShooter => (15 * ONE, 0, Vec3 { x: 0, y: 0, z: (-ONE) as i32 }),
    };
    Phase {
        phase_type,
        camera_position: Vec3 { x: aside as i32, y: height as i32, z: 0 },
        camera_target: Vec3 { x: 0, y: 0, z: 0 },
        camera_up: up,
        completed: false,
    }
}

impl Phase {
    /// The phase of the given kind as it starts.
    pub fn new(phase_type: PhaseType) -> (p: Phase)
        ensures
            p == initial_phase(phase_type),
    {
        let (camera_position, camera_target, camera_up) = match phase_type {
            PhaseType::TopDown => (
                Vec3 { x: 0, y: 20 * 65536, z: 0 },
                Vec3 { x: 0, y: 0, z: 0 },
                Vec3 { x: 0, y: 0, z: -65536 },
            ),
            PhaseType::Side => (
                Vec3 { x: -20 * 65536, y: 0, z: 0 },
                Vec3 { x: 0, y: 0, z: 0 },
                Vec3 { x: 0, y: 65536, z: 0 },
            ),
            PhaseType::TopDownShooter => (
                Vec3 { x: 0, y: 15 * 65536, z: 0 },
                Vec3 { x: 0, y: 0, z: 0 },
                Vec3 { x: 0, y: 0, z: -65536 },
            ),
        };
        Phase { phase_type, camera_position, camera_target, camera_up, completed: false }
    }

    /// Puts the camera where this phase wants it for a ship at
    /// `ship_position`: it follows the ship at the phase's offset and looks
    /// at the ship.
    pub fn setup_camera(&self, camera: &mut Camera, ship_position: Vec3)
        ensures
            *final(camera) == (Camera {
                eye: vector_sum(ship_position, self.camera_position),
                center: ship_position,
                up: self.camera_up,
            }),
    {
        let offset: Vec3 = self.camera_position;
        camera.eye = ship_position.plus(&offset);
        camera.center = ship_position;
        camera.up = self.camera_up;
    }
}

/// The phases of a game and the one that is on.
pub struct PhaseManager {
    pub phases: Vec<Phase>,
    pub current_phase_index: usize,
    /// Time since the transition that is under way began.
    pub transition_timer: Fixed,
    pub transitioning: bool,
}

impl PhaseManager {
    /// There is a current phase, and if a transition is under way, a phase
    /// after it.
    pub open spec fn wf(&self) -> bool {
        &&& self.current_phase_index < self.phases@.len()
        &&& self.transitioning ==> self.current_phase_index + 1 < self.phases@.len()
    }

    /// The three phases in order, the first of them on.
    pub fn new() -> (m: PhaseManager)
        ensures
            m.wf(),
            m.phases@ == seq![
                initial_phase(PhaseType::TopDown),
                initial_phase(PhaseType::Side),
                initial_phase(PhaseType::TopDownShooter),
            ],
            m.current_phase_index == 0,
            m.transition_timer == 0,
            !m.transitioning,
    {
        let mut phases: Vec<Phase> = Vec::new();
        phases.push(Phase::new(PhaseType::TopDown));
        phases.push(Phase::new(PhaseType::Side));
        phases.push(Phase::new(PhaseType::TopDownShooter));
        assert(phases@ =~= seq![
            initial_phase(PhaseType::TopDown),
            initial_phase(PhaseType::Side),
            initial_phase(PhaseType::TopDownShooter),
        ]);
        PhaseManager { phases, current_phase_index: 0, transition_timer: 0, transitioning: false }
    }

    /// The phase that is on.
    pub fn current_phase(&self) -> (p: &Phase)
        requires
            self.wf(),
        ensures
            *p == self.phases@[self.current_phase_index as int],
    {
        &self.phases[self.current_phase_index]
    }

    /// The phase that is on, to be changed in place.
    pub fn current_phase_mut(&mut self) -> (p: &mut Phase)
        requires
            old(self).wf(),
        ensures
            *p == old(self).phases@[old(self).current_phase_index as int],
            final(self).phases@ == old(self).phases@.update(
                old(self).current_phase_index as int,
                *final(p),
            ),
            final(self).current_phase_index == old(self).current_phase_index,
            final(self).transition_timer == old(self).transition_timer,
            final(self).transitioning == old(self).transitioning,
    {
        &mut self.phases[self.current_phase_index]
    }

    /// Starts the transition to the next phase, from its beginning. In the
    /// last phase nothing happens.
    pub fn next_phase(&mut self)
        requires
            old(self).wf(),
        ensures
            final(self).wf(),
            final(self).phases == old(self).phases,
            final(self).current_phase_index == old(self).current_phase_index,
            old(self).current_phase_index + 1 < old(self).phases@.len() ==> final(self).transitioning
                && final(self).transition_timer == 0,
            old(self).current_phase_index + 1 >= old(self).phases@.len() ==> final(self).transitioning
                == old(self).transitioning && final(self).transition_timer == old(
                self,
            ).transition_timer,
    {
        if self.current_phase_index < self.phases.len() - 1 {
            self.transitioning = true;
            self.transition_timer = 0;
        }
    }

    /// Lets `delta_time` pass. A transition that has then lasted for
    /// `TRANSITION_TIME` ends: the next phase is on.
    pub fn update(&mut self, delta_time: Fixed)
        requires
            old(self).wf(),
        ensures
            final(self).wf(),
            final(self).phases == old(self).phases,
            !old(self).transitioning ==> *final(self) == *old(self),
            old(self).transitioning && saturated(old(self).transition_timer + delta_time)
                < TRANSITION_TIME ==> {
                &&& final(self).transitioning
                &&& final(self).current_phase_index == old(self).current_phase_index
                &&& final(self).transition_timer == saturated(
                    old(self).transition_timer + delta_time,
                )
            },
            old(self).transitioning && saturated(old(self).transition_timer + delta_time)
                >= TRANSITION_TIME ==> {
                &&& !final(self).transitioning
                &&& final(self).current_phase_index == old(self).current_phase_index + 1
                &&& final(self).transition_timer == 0
            },
    {
        if self.transitioning {
            self.transition_timer = saturate(
                (self.transition_timer as i128) + (delta_time as i128),
            );
            if self.transition_timer >= 65536 {
                assert(self.current_phase_index + 1 < self.phases.len());
                self.current_phase_index += 1;
                self.transitioning = false;
                self.transition_timer = 0;
            }
        }
    }
}

} // verus!
