//! Spikes that hurt the hero while the hero touches them.

use vstd::prelude::*;
use crate::consts::{TILE_HEIGHT, TILE_WIDTH};
use super::{sized, ActorData};

verus! {

/// Spikes pointing up or down, or a single spike that shows when touched.
#[derive(Debug)]
pub struct Spikes {
    pub touching_hero: bool,
}

impl Spikes {
    pub open spec fn spec_create(g: ActorData) -> (Spikes, ActorData) {
        (Spikes { touching_hero: false }, ActorData { is_in_foreground: true, ..sized(g, TILE_WIDTH, TILE_HEIGHT) })
    }

    pub fn create(general: &mut ActorData) -> (s: Spikes)
        ensures
            final(general).actor_type == old(general).actor_type,
            (s, *final(general)) == Spikes::spec_create(*old(general)),
    {
        general.position.w = TILE_WIDTH;
        general.position.h = TILE_HEIGHT;
        general.is_in_foreground = true;
        Spikes { touching_hero: false }
    }

    pub fn hero_touch_start(&mut self, general: &mut ActorData)
        ensures
            final(general).actor_type == old(general).actor_type,
            *final(general) == (ActorData { hurts_hero: true, ..*old(general) }),
            final(self).touching_hero,
    {
        general.hurts_hero = true;
        self.touching_hero = true;
    }

    pub fn hero_touch_end(&mut self, general: &mut ActorData)
        ensures
            final(general).actor_type == old(general).actor_type,
            *final(general) == (ActorData { hurts_hero: false, ..*old(general) }),
            !final(self).touching_hero,
    {
        general.hurts_hero = false;
        self.touching_hero = false;
    }
}

} // verus!
