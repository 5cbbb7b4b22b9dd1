//! A soda can that was shot and now flies up until it bursts on a wall.

use vstd::prelude::*;
use crate::consts::{HALFTILE_HEIGHT, TILE_HEIGHT, TILE_WIDTH};
use crate::events::UserEvent;
use crate::hero::{scored, HeroData};
use crate::level::solids::{solid_at, LevelSolids};
use crate::level::tiles::LevelTiles;
use super::{all_creatable, dead, env_of, moved, sized, spot, ActorData, ActorQueue, ActorType, Env};

verus! {

/// A flying soda can.
#[derive(Debug)]
pub struct SodaFlying {}

impl SodaFlying {
    pub open spec fn spec_create(g: ActorData) -> (SodaFlying, ActorData) {
        (SodaFlying {}, sized(g, TILE_WIDTH, TILE_HEIGHT))
    }

    pub fn create(general: &mut ActorData) -> (s: SodaFlying)
        ensures
            final(general).actor_type == old(general).actor_type,
            (s, *final(general)) == SodaFlying::spec_create(*old(general)),
    {
        general.position.w = TILE_WIDTH;
        general.position.h = TILE_HEIGHT;
        SodaFlying {}
    }

    /// Catching the can gives 1000 points.
    pub open spec fn spec_touch_start(self, g: ActorData, e: Env) -> (SodaFlying, ActorData, Env) {
        (
            self,
            dead(g),
            Env {
                hero: scored(e.hero, 1000),
                queued: e.queued.push(spot(g, ActorType::Score1000)),
                events: e.events.push(UserEvent::HeroScored),
                ..e
            },
        )
    }

    pub fn hero_touch_start(
        &mut self,
        general: &mut ActorData,
        solids: &mut LevelSolids,
        tiles: &mut LevelTiles,
        queue: &mut ActorQueue,
        hero: &mut HeroData,
        do_play: &mut bool,
        events: &mut Vec<UserEvent>,
    )
        requires
            old(hero).wf(),
        ensures
            old(self).act_ok(*old(general)) ==> final(self).act_ok(*final(general)),
            all_creatable(old(queue).actors@) ==> all_creatable(final(queue).actors@),
            final(general).actor_type == old(general).actor_type,
            (*final(self), *final(general), env_of(*final(solids), *final(tiles), *final(queue), *final(hero), *final(do_play), *final(events)))
                == old(self).spec_touch_start(*old(general), env_of(*old(solids), *old(tiles), *old(queue), *old(hero), *old(do_play), *old(events))),
            final(hero).wf(),
    {
        hero.score.add(1000, events);
        queue.push_back(ActorType::Score1000, general.position.x as u16, general.position.y as u16);
        general.is_alive = false;
        assert(env_of(*solids, *tiles, *queue, *hero, *do_play, *events) =~= old(self).spec_touch_start(
            *old(general),
            env_of(*old(solids), *old(tiles), *old(queue), *old(hero), *old(do_play), *old(events)),
        ).2);
    }

    /// The can's next position lies on a tile of the level.
    pub open spec fn act_ok(self, g: ActorData) -> bool {
        &&& 0 <= g.position.x && g.position.x / 16 < 128
        &&& 0 <= g.position.y - 8 && (g.position.y - 8) / 16 < 90
    }

    /// One step: the can rises half a tile; on a solid tile it explodes.
    pub open spec fn spec_act(self, g: ActorData, e: Env) -> (SodaFlying, ActorData, Env) {
        let g1 = moved(g, g.position.x as int, g.position.y - 8);
        if solid_at(e.solids, g1.position.x / 16, g1.position.y / 16) {
            (self, dead(g1), Env { queued: e.queued.push(spot(g1, ActorType::Explosion)), ..e })
        } else {
            (self, g1, e)
        }
    }

    pub fn act(
        &mut self,
        general: &mut ActorData,
        solids: &mut LevelSolids,
        tiles: &mut LevelTiles,
        queue: &mut ActorQueue,
        hero: &mut HeroData,
        do_play: &mut bool,
        events: &mut Vec<UserEvent>,
    )
        requires
            old(hero).wf(),
            old(self).act_ok(*old(general)),
        ensures
            final(hero).wf(),
            all_creatable(old(queue).actors@) ==> all_creatable(final(queue).actors@),
            final(general).actor_type == old(general).actor_type,
            (*final(self), *final(general), env_of(*final(solids), *final(tiles), *final(queue), *final(hero), *final(do_play), *final(events)))
                == old(self).spec_act(*old(general), env_of(*old(solids), *old(tiles), *old(queue), *old(hero), *old(do_play), *old(events))),
    {
        general.position.y = general.position.y - HALFTILE_HEIGHT as i16;
        if solids.get(general.position.x as usize / 16, general.position.y as usize / 16) {
            queue.push_back(ActorType::Explosion, general.position.x as u16, general.position.y as u16);
            general.is_alive = false;
        }
        assert(env_of(*solids, *tiles, *queue, *hero, *do_play, *events) =~= old(self).spec_act(
            *old(general),
            env_of(*old(solids), *old(tiles), *old(queue), *old(hero), *old(do_play), *old(events)),
        ).2);
    }
}

} // verus!
