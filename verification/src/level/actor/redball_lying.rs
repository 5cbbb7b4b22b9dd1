//! A mine lying on the floor that goes off shortly after the hero steps on
//! it.

use vstd::prelude::*;
use crate::consts::{ANIMATION_MINE, HALFTILE_HEIGHT, TILE_HEIGHT, TILE_WIDTH};
use crate::events::UserEvent;
use crate::hero::HeroData;
use crate::level::solids::{solid_at, LevelSolids};
use crate::level::tiles::LevelTiles;
use super::{all_creatable, dead, env_of, moved, sized, spot, ActorData, ActorQueue, ActorType, Env};

verus! {

/// A mine; `touching_hero` counts the steps since the hero stepped on it.
#[derive(Debug)]
pub struct RedBallLying {
    pub tile: usize,
    pub touching_hero: u8,
}

impl RedBallLying {
    pub open spec fn spec_create(g: ActorData) -> (RedBallLying, ActorData) {
        (RedBallLying { tile: ANIMATION_MINE, touching_hero: 0 }, sized(g, TILE_WIDTH, TILE_HEIGHT))
    }

    pub fn create(general: &mut ActorData) -> (s: RedBallLying)
        ensures
            final(general).actor_type == old(general).actor_type,
            (s, *final(general)) == RedBallLying::spec_create(*old(general)),
    {
        general.position.w = TILE_WIDTH;
        general.position.h = TILE_HEIGHT;
        RedBallLying { tile: ANIMATION_MINE, touching_hero: 0 }
    }

    pub fn hero_touch_start(&mut self, general: &mut ActorData)
        ensures
            final(general).actor_type == old(general).actor_type,
            *final(general) == (ActorData { hurts_hero: true, ..*old(general) }),
            *final(self) == (RedBallLying { touching_hero: 1, ..*old(self) }),
    {
        general.hurts_hero = true;
        self.touching_hero = 1;
    }

    /// The mine lies where the tile below it can be looked up, and can
    /// fall half a tile.
    pub open spec fn act_ok(self, g: ActorData) -> bool {
        &&& 0 <= g.position.x && g.position.x / 16 < 128
        &&& 0 <= g.position.y && g.position.y / 16 + 1 < 90
    }

    /// One step: the mine falls half a tile unless it rests on a solid
    /// tile; the step after it was touched it starts counting, the next it
    /// burns up.
    pub open spec fn spec_act(self, g: ActorData, e: Env) -> (RedBallLying, ActorData, Env) {
        let g1 = if solid_at(e.solids, g.position.x / 16, g.position.y / 16 + 1) {
            g
        } else {
            moved(g, g.position.x as int, g.position.y + 8)
        };
        if self.touching_hero == 1 {
            (RedBallLying { touching_hero: 2, ..self }, g1, e)
        } else if self.touching_hero == 2 {
            (
                self,
                ActorData { hurts_hero: false, ..dead(g1) },
                Env { queued: e.queued.push(spot(g1, ActorType::BombFire)), ..e },
            )
        } else {
            (self, g1, e)
        }
    }

    pub fn act(
        &mut self,
        general: &mut ActorData,
        solids: &mut LevelSolids,
        tiles: &mut LevelTiles,
        queue: &mut ActorQueue,
        hero: &mut HeroData,
        do_play: &mut bool,
        events: &mut Vec<UserEvent>,
    )
        requires
            old(hero).wf(),
            old(self).act_ok(*old(general)),
        ensures
            final(hero).wf(),
            all_creatable(old(queue).actors@) ==> all_creatable(final(queue).actors@),
            final(general).actor_type == old(general).actor_type,
            (*final(self), *final(general), env_of(*final(solids), *final(tiles), *final(queue), *final(hero), *final(do_play), *final(events)))
                == old(self).spec_act(*old(general), env_of(*old(solids), *old(tiles), *old(queue), *old(hero), *old(do_play), *old(events))),
    {
        if !solids.get(general.position.x as usize / 16, general.position.y as usize / 16 + 1) {
            general.position.y = general.position.y + HALFTILE_HEIGHT as i16;
        }
        if self.touching_hero == 1 {
            self.touching_hero = 2;
        } else if self.touching_hero == 2 {
            general.hurts_hero = false;
            general.is_alive = false;
            queue.push_back(ActorType::BombFire, general.position.x as u16, general.position.y as u16);
        }
        assert(env_of(*solids, *tiles, *queue, *hero, *do_play, *events) =~= old(self).spec_act(
            *old(general),
            env_of(*old(solids), *old(tiles), *old(queue), *old(hero), *old(do_play), *old(events)),
        ).2);
    }
}

} // verus!
