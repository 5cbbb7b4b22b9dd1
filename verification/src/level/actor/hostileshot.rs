//! Shots fired by enemies that fly straight until they hit a wall.

use vstd::prelude::*;
use crate::consts::{OBJECT_HOSTILESHOT, TILE_HEIGHT, TILE_WIDTH};
use crate::level::solids::{solid_at, LevelSolids};
use super::{dead, moved, sized, ActorData, ActorType};

verus! {

/// How far a shot flies in one step: a tile left or right.
pub open spec fn shot_offset(t: ActorType) -> int {
    if t == ActorType::HostileShotLeft { -16 } else { 16 }
}

/// A flying enemy shot.
#[derive(Debug)]
pub struct HostileShot {
    pub tile: usize,
    pub touching_hero: bool,
    pub current_frame: usize,
    pub num_frames: usize,
}

impl HostileShot {
    pub open spec fn wf(self) -> bool {
        self.num_frames == 2 && self.current_frame < 2
    }

    pub open spec fn spec_create(g: ActorData) -> (HostileShot, ActorData) {
        let tile = if g.actor_type == ActorType::HostileShotLeft { OBJECT_HOSTILESHOT } else { (OBJECT_HOSTILESHOT + 2) as usize };
        (HostileShot { tile, touching_hero: false, current_frame: 0, num_frames: 2 }, sized(g, TILE_WIDTH, TILE_HEIGHT))
    }

    pub fn create(general: &mut ActorData) -> (s: HostileShot)
        requires
            old(general).actor_type == ActorType::HostileShotLeft || old(general).actor_type == ActorType::HostileShotRight,
        ensures
            final(general).actor_type == old(general).actor_type,
            (s, *final(general)) == HostileShot::spec_create(*old(general)),
            s.wf(),
    {
        general.position.w = TILE_WIDTH;
        general.position.h = TILE_HEIGHT;
        let tile = if general.actor_type == ActorType::HostileShotLeft { OBJECT_HOSTILESHOT } else { OBJECT_HOSTILESHOT + 2 };
        HostileShot { tile, touching_hero: false, current_frame: 0, num_frames: 2 }
    }

    pub fn hero_touch_start(&mut self, general: &mut ActorData)
        ensures
            final(general).actor_type == old(general).actor_type,
            *final(general) == (ActorData { hurts_hero: true, ..*old(general) }),
            *final(self) == (HostileShot { touching_hero: true, ..*old(self) }),
    {
        self.touching_hero = true;
        general.hurts_hero = true;
    }

    pub fn hero_touch_end(&mut self, general: &mut ActorData)
        ensures
            final(general).actor_type == old(general).actor_type,
            *final(general) == (ActorData { hurts_hero: false, ..*old(general) }),
            *final(self) == (HostileShot { touching_hero: false, ..*old(self) }),
    {
        self.touching_hero = false;
        general.hurts_hero = false;
    }

    /// The shot's next position lies on a tile of the level.
    pub open spec fn act_ok(self, g: ActorData) -> bool {
        let x = g.position.x + shot_offset(g.actor_type);
        &&& 0 <= x && x / 16 < 128
        &&& 0 <= g.position.y && g.position.y / 16 < 90
    }

    /// One step: the shot flies a tile on; on a solid tile it is gone (and
    /// hurts no more).
    pub open spec fn spec_act(self, g: ActorData, solids: Seq<bool>) -> (HostileShot, ActorData) {
        let g1 = moved(g, g.position.x + shot_offset(g.actor_type), g.position.y as int);
        let s = HostileShot { current_frame: ((self.current_frame + 1) % (self.num_frames as int)) as usize, ..self };
        if solid_at(solids, g1.position.x / 16, g1.position.y / 16) {
            if self.touching_hero {
                (s, ActorData { hurts_hero: false, ..dead(g1) })
            } else {
                (s, dead(g1))
            }
        } else {
            (s, g1)
        }
    }

    pub fn act(&mut self, general: &mut ActorData, solids: &LevelSolids)
        requires
            old(self).wf(),
            old(self).act_ok(*old(general)),
        ensures
            final(general).actor_type == old(general).actor_type,
            (*final(self), *final(general)) == old(self).spec_act(*old(general), solids@),
            final(self).wf(),
    {
        if general.actor_type == ActorType::HostileShotLeft {
            general.position.x = general.position.x - TILE_WIDTH as i16;
        } else {
            general.position.x = general.position.x + TILE_WIDTH as i16;
        }
        if solids.get(general.position.x as usize / 16, general.position.y as usize / 16) {
            general.is_alive = false;
            if self.touching_hero {
                general.hurts_hero = false;
            }
        }
        self.current_frame = (self.current_frame + 1) % self.num_frames;
    }
}

} // verus!
