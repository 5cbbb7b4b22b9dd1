//! Walls that break when shot.

use vstd::prelude::*;
use crate::consts::{TILE_HEIGHT, TILE_WIDTH};
use crate::events::UserEvent;
use crate::hero::{scored, HeroData};
use crate::level::solids::{cell_index, LevelSolids};
use crate::level::tiles::LevelTiles;
use super::{all_creatable, dead, env_of, sized, spot, ActorData, ActorQueue, ActorType, Env};

verus! {

/// A wall tile that breaks when shot.
#[derive(Debug)]
pub struct ShootableWall {}

impl ShootableWall {
    pub open spec fn spec_create(g: ActorData) -> (ShootableWall, ActorData) {
        (ShootableWall {}, ActorData { is_in_foreground: false, ..sized(g, TILE_WIDTH, TILE_HEIGHT) })
    }

    pub fn create(general: &mut ActorData) -> (s: ShootableWall)
        ensures
            final(general).actor_type == old(general).actor_type,
            (s, *final(general)) == ShootableWall::spec_create(*old(general)),
    {
        general.position.w = TILE_WIDTH;
        general.position.h = TILE_HEIGHT;
        general.is_in_foreground = false;
        ShootableWall {}
    }

    /// The wall stands on a tile of the level.
    pub open spec fn shot_ok(self, g: ActorData) -> bool {
        &&& 0 <= g.position.x && g.position.x / 16 < 128
        &&& 0 <= g.position.y && g.position.y / 16 < 90
    }

    /// A shot breaks the wall for 10 points and frees its tile.
    pub open spec fn spec_shot(self, g: ActorData, e: Env) -> (ShootableWall, ActorData, Env) {
        (
            self,
            dead(g),
            Env {
                hero: scored(e.hero, 10),
                queued: e.queued.push(spot(g, ActorType::Explosion)),
                events: e.events.push(UserEvent::HeroScored),
                solids: e.solids.update(cell_index(g.position.x / 16, g.position.y / 16), false),
                ..e
            },
        )
    }

    pub fn shot(
        &mut self,
        general: &mut ActorData,
        solids: &mut LevelSolids,
        tiles: &mut LevelTiles,
        queue: &mut ActorQueue,
        hero: &mut HeroData,
        do_play: &mut bool,
        events: &mut Vec<UserEvent>,
    )
        requires
            old(self).shot_ok(*old(general)),
            old(hero).wf(),
        ensures
            all_creatable(old(queue).actors@) ==> all_creatable(final(queue).actors@),
            final(general).actor_type == old(general).actor_type,
            (*final(self), *final(general), env_of(*final(solids), *final(tiles), *final(queue), *final(hero), *final(do_play), *final(events)))
                == old(self).spec_shot(*old(general), env_of(*old(solids), *old(tiles), *old(queue), *old(hero), *old(do_play), *old(events))),
            final(hero).wf(),
    {
        hero.score.add(10, events);
        queue.push_back(ActorType::Explosion, general.position.x as u16, general.position.y as u16);
        general.is_alive = false;
        solids.set(general.position.x as usize / 16, general.position.y as usize / 16, false);
        assert(env_of(*solids, *tiles, *queue, *hero, *do_play, *events) =~= old(self).spec_shot(
            *old(general),
            env_of(*old(solids), *old(tiles), *old(queue), *old(hero), *old(do_play), *old(events)),
        ).2);
    }
}

} // verus!
