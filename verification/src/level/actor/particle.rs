//! Sparks that fly off when something breaks, falling in an arc.

use vstd::prelude::*;
use crate::consts::{
    HALFTILE_HEIGHT, HALFTILE_WIDTH, OBJECT_SPARK_BLUE, OBJECT_SPARK_GREEN, OBJECT_SPARK_PINK,
    OBJECT_SPARK_WHITE,
};
use crate::random::random_range;
use super::{dead, moved, sized, ActorData, ActorType};

verus! {

/// The tile of each colour of spark, or `None` for other kinds.
pub open spec fn spark_tile(t: ActorType) -> Option<usize> {
    match t {
        ActorType::ParticlePink => Some(OBJECT_SPARK_PINK),
        ActorType::ParticleBlue => Some(OBJECT_SPARK_BLUE),
        ActorType::ParticleWhite => Some(OBJECT_SPARK_WHITE),
        ActorType::ParticleGreen => Some(OBJECT_SPARK_GREEN),
        _ => None,
    }
}

/// How many steps a spark flies.
pub const PARTICLE_STEPS: usize = 20;

/// A spark with its speed.
#[derive(Debug)]
pub struct Particle {
    pub tile: usize,
    pub countdown: usize,
    pub hspeed: i16,
    pub vspeed: i16,
}

impl Particle {
    /// A new spark of the actor's colour with the given speed.
    pub open spec fn spec_launch(g: ActorData, hspeed: i16, vspeed: i16) -> (Particle, ActorData) {
        (
            Particle { tile: spark_tile(g.actor_type).unwrap(), countdown: PARTICLE_STEPS, hspeed, vspeed },
            ActorData { is_in_foreground: true, ..sized(g, HALFTILE_WIDTH, HALFTILE_HEIGHT) },
        )
    }

    /// Sets up a spark that flies off with the given speed.
    pub fn launch(general: &mut ActorData, hspeed: i16, vspeed: i16) -> (s: Particle)
        requires
            spark_tile(old(general).actor_type) is Some,
        ensures
            final(general).actor_type == old(general).actor_type,
            (s, *final(general)) == Particle::spec_launch(*old(general), hspeed, vspeed),
    {
        general.is_in_foreground = true;
        general.position.w = HALFTILE_WIDTH;
        general.position.h = HALFTILE_HEIGHT;
        let tile = match general.actor_type {
            ActorType::ParticlePink => OBJECT_SPARK_PINK,
            ActorType::ParticleBlue => OBJECT_SPARK_BLUE,
            ActorType::ParticleWhite => OBJECT_SPARK_WHITE,
            _ => OBJECT_SPARK_GREEN,
        };
        Particle { tile, countdown: PARTICLE_STEPS, hspeed, vspeed }
    }

    /// Sets up a spark that flies off at a random speed: upwards by up to
    /// 12 pixels a step or downwards by up to 4, and sideways by up to 8.
    pub fn create(general: &mut ActorData) -> (s: Particle)
        requires
            spark_tile(old(general).actor_type) is Some,
        ensures
            final(general).actor_type == old(general).actor_type,
            -12 <= s.vspeed < 5,
            -8 <= s.hspeed < 9,
            (s, *final(general)) == Particle::spec_launch(*old(general), s.hspeed, s.vspeed),
    {
        let vspeed = random_range(-12, 5);
        let hspeed = random_range(-8, 9);
        Self::launch(general, hspeed, vspeed)
    }

    /// The spark can take its next step without leaving the range of a
    /// position.
    pub open spec fn act_ok(self, g: ActorData) -> bool {
        self.countdown > 0 ==> {
            &&& i16::MIN <= g.position.x + self.hspeed <= i16::MAX
            &&& i16::MIN <= g.position.y + self.vspeed <= i16::MAX
            &&& self.vspeed + 2 <= i16::MAX
        }
    }

    /// One step: the spark moves by its speed and falls faster; when its
    /// time is up it is gone.
    pub open spec fn spec_act(self, g: ActorData) -> (Particle, ActorData) {
        if self.countdown > 0 {
            (
                Particle { countdown: (self.countdown - 1) as usize, vspeed: (self.vspeed + 2) as i16, ..self },
                moved(g, g.position.x + self.hspeed, g.position.y + self.vspeed),
            )
        } else {
            (self, dead(g))
        }
    }

    pub fn act(&mut self, general: &mut ActorData)
        requires
            old(self).act_ok(*old(general)),
        ensures
            final(general).actor_type == old(general).actor_type,
            (*final(self), *final(general)) == old(self).spec_act(*old(general)),
    {
        if self.countdown > 0 {
            self.countdown = self.countdown - 1;
            general.position.x = general.position.x + self.hspeed;
            general.position.y = general.position.y + self.vspeed;
            self.vspeed = self.vspeed + 2;
        } else {
            general.is_alive = false;
        }
    }
}

} // verus!
