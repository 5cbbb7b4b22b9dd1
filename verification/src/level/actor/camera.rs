//! Surveillance cameras that watch the hero.

use vstd::prelude::*;
use crate::consts::{TILE_HEIGHT, TILE_WIDTH};
use crate::events::UserEvent;
use crate::hero::{scored, HeroData};
use crate::level::solids::{cell_index, LevelSolids};
use crate::level::tiles::LevelTiles;
use super::{ground_of, Ground, all_creatable, dead, env_of, sized, spot, ActorData, ActorQueue, ActorType, Env};

verus! {

/// A camera stands on a tile of the level with a tile below it.
pub open spec fn camera_create_ok(g: ActorData) -> bool {
    &&& 0 <= g.position.x && g.position.x / 16 < 128
    &&& 0 <= g.position.y && g.position.y / 16 + 1 < 90
}

/// A camera.
#[derive(Debug)]
pub struct Camera {}

impl Camera {
    /// The camera takes the look of the tile below it for its own tile.
    pub open spec fn spec_create(g: ActorData, e: Ground) -> (Camera, ActorData, Ground) {
        let x = g.position.x / 16;
        let y = g.position.y / 16;
        (
            Camera {},
            ActorData { is_in_foreground: false, ..sized(g, TILE_WIDTH, TILE_HEIGHT) },
            Ground { tiles: e.tiles.update(cell_index(x, y), e.tiles[cell_index(x, y + 1)]), ..e },
        )
    }

    pub fn create(
        general: &mut ActorData,
        solids: &mut LevelSolids,
        tiles: &mut LevelTiles,
    ) -> (s: Camera)
        requires
            camera_create_ok(*old(general)),
        ensures
            final(general).actor_type == old(general).actor_type,
            (s, *final(general), ground_of(*final(solids), *final(tiles)))
                == Camera::spec_create(*old(general), ground_of(*old(solids), *old(tiles))),
    {
        general.is_in_foreground = false;
        general.position.w = TILE_WIDTH;
        general.position.h = TILE_HEIGHT;
        let x = general.position.x as usize / 16;
        let y = general.position.y as usize / 16;
        tiles.copy_from_to(x, y + 1, x, y);
        let s = Camera {};
        assert(ground_of(*solids, *tiles) =~= Camera::spec_create(*old(general), ground_of(*old(solids), *old(tiles))).2);
        s
    }

    /// A shot destroys the camera for 100 points.
    pub open spec fn spec_shot(self, g: ActorData, e: Env) -> (Camera, ActorData, Env) {
        (
            self,
            dead(g),
            Env {
                hero: scored(e.hero, 100),
                queued: e.queued.push(spot(g, ActorType::Score100)).push(spot(g, ActorType::Explosion)),
                events: e.events.push(UserEvent::HeroScored),
                ..e
            },
        )
    }

    pub fn shot(
        &mut self,
        general: &mut ActorData,
        solids: &mut LevelSolids,
        tiles: &mut LevelTiles,
        queue: &mut ActorQueue,
        hero: &mut HeroData,
        do_play: &mut bool,
        events: &mut Vec<UserEvent>,
    )
        requires
            old(hero).wf(),
        ensures
            all_creatable(old(queue).actors@) ==> all_creatable(final(queue).actors@),
            final(general).actor_type == old(general).actor_type,
            (*final(self), *final(general), env_of(*final(solids), *final(tiles), *final(queue), *final(hero), *final(do_play), *final(events)))
                == old(self).spec_shot(*old(general), env_of(*old(solids), *old(tiles), *old(queue), *old(hero), *old(do_play), *old(events))),
            final(hero).wf(),
    {
        general.is_alive = false;
        hero.score.add(100, events);
        queue.push_back(ActorType::Score100, general.position.x as u16, general.position.y as u16);
        queue.push_back(ActorType::Explosion, general.position.x as u16, general.position.y as u16);
        assert(env_of(*solids, *tiles, *queue, *hero, *do_play, *events) =~= old(self).spec_shot(
            *old(general),
            env_of(*old(solids), *old(tiles), *old(queue), *old(hero), *old(do_play), *old(events)),
        ).2);
    }
}

} // verus!
