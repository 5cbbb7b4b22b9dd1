//! A rocket standing on its launch pad; a shot launches it, and it flies
//! up through the ceiling.

use vstd::prelude::*;
use crate::consts::{HALFTILE_HEIGHT, TILE_HEIGHT, TILE_WIDTH};
use crate::events::UserEvent;
use crate::hero::HeroData;
use crate::level::solids::{cell_index, grid_collides, scannable, LevelSolids};
use crate::level::tiles::LevelTiles;
use super::{ground_of, Ground, all_creatable, env_of, moved, sized, ActorData, ActorQueue, Env};

verus! {

#[derive(Clone, Copy, Debug, PartialEq, Eq, Structural)]
pub enum RocketState {
    Idle,
    Flying,
}

/// A rocket stands on a tile of the level below the top row.
pub open spec fn rocket_create_ok(g: ActorData) -> bool {
    &&& 0 <= g.position.x && g.position.x / 16 < 128
    &&& 16 <= g.position.y && g.position.y / 16 < 90
}

/// A rocket.
#[derive(Debug)]
pub struct Rocket {
    pub state: RocketState,
}

impl Rocket {
    /// The rocket takes the look of the tile above it for its own tile.
    pub open spec fn spec_create(g: ActorData, e: Ground) -> (Rocket, ActorData, Ground) {
        let x = g.position.x / 16;
        let y = g.position.y / 16;
        (
            Rocket { state: RocketState::Idle },
            sized(g, TILE_WIDTH, TILE_HEIGHT),
            Ground { tiles: e.tiles.update(cell_index(x, y), e.tiles[cell_index(x, y - 1)]), ..e },
        )
    }

    pub fn create(
        general: &mut ActorData,
        solids: &mut LevelSolids,
        tiles: &mut LevelTiles,
    ) -> (s: Rocket)
        requires
            rocket_create_ok(*old(general)),
        ensures
            final(general).actor_type == old(general).actor_type,
            (s, *final(general), ground_of(*final(solids), *final(tiles)))
                == Rocket::spec_create(*old(general), ground_of(*old(solids), *old(tiles))),
    {
        general.position.w = TILE_WIDTH;
        general.position.h = TILE_HEIGHT;
        let x = general.position.x as usize / 16;
        let y = general.position.y as usize / 16;
        tiles.copy_from_to(x, y - 1, x, y);
        let s = Rocket { state: RocketState::Idle };
        assert(ground_of(*solids, *tiles) =~= Rocket::spec_create(*old(general), ground_of(*old(solids), *old(tiles))).2);
        s
    }

    /// A flying rocket's next place lies in the level below the top row,
    /// so that the tiles it breaks through can be looked up.
    pub open spec fn act_ok(self, g: ActorData) -> bool {
        self.state == RocketState::Flying ==> {
            let y = g.position.y - 8;
            &&& g.position.x >= 0
            &&& (g.position.x + g.position.w) / 16 < 128
            &&& y >= 16
            &&& (y + g.position.h) / 16 < 90
            &&& y / 16 + 1 < 90
        }
    }

    /// One step: a flying rocket rises half a tile; where it hits a solid
    /// tile, it frees the tile below its new place and takes the look of
    /// the tile above for the one it is on.
    pub open spec fn spec_act(self, g: ActorData, e: Env) -> (Rocket, ActorData, Env) {
        if self.state == RocketState::Flying {
            let g1 = moved(g, g.position.x as int, g.position.y - 8);
            if grid_collides(e.solids, g1.position) {
                let x = g1.position.x / 16;
                let y = g1.position.y / 16;
                (
                    self,
                    g1,
                    Env {
                        solids: e.solids.update(cell_index(x, y + 1), false),
                        tiles: e.tiles.update(cell_index(x, y), e.tiles[cell_index(x, y - 1)]),
                        ..e
                    },
                )
            } else {
                (self, g1, e)
            }
        } else {
            (self, g, e)
        }
    }

    pub fn act(
        &mut self,
        general: &mut ActorData,
        solids: &mut LevelSolids,
        tiles: &mut LevelTiles,
        queue: &mut ActorQueue,
        hero: &mut HeroData,
        do_play: &mut bool,
        events: &mut Vec<UserEvent>,
    )
        requires
            old(hero).wf(),
            old(self).act_ok(*old(general)),
        ensures
            final(hero).wf(),
            all_creatable(old(queue).actors@) ==> all_creatable(final(queue).actors@),
            final(general).actor_type == old(general).actor_type,
            (*final(self), *final(general), env_of(*final(solids), *final(tiles), *final(queue), *final(hero), *final(do_play), *final(events)))
                == old(self).spec_act(*old(general), env_of(*old(solids), *old(tiles), *old(queue), *old(hero), *old(do_play), *old(events))),
    {
        if self.state == RocketState::Flying {
            general.position.y = general.position.y - HALFTILE_HEIGHT as i16;
            if solids.collides(general.position) {
                let x = general.position.x as usize / 16;
                let y = general.position.y as usize / 16;
                solids.set(x, y + 1, false);
                tiles.copy_from_to(x, y - 1, x, y);
            }
        }
        assert(env_of(*solids, *tiles, *queue, *hero, *do_play, *events) =~= old(self).spec_act(
            *old(general),
            env_of(*old(solids), *old(tiles), *old(queue), *old(hero), *old(do_play), *old(events)),
        ).2);
    }

    /// The pad below the rocket can be looked up.
    pub open spec fn shot_ok(self, g: ActorData) -> bool {
        self.state == RocketState::Idle ==> {
            &&& 0 <= g.position.x && g.position.x / 16 < 128
            &&& 0 <= g.position.y && (g.position.y + g.position.h) / 16 + 1 < 90
        }
    }

    /// A shot launches an idle rocket: its pad tile is freed and takes the
    /// look of the tile below.
    pub open spec fn spec_shot(self, g: ActorData, e: Env) -> (Rocket, ActorData, Env) {
        if self.state == RocketState::Idle {
            let x = g.position.x / 16;
            let y = (g.position.y + g.position.h) / 16;
            (
                Rocket { state: RocketState::Flying },
                g,
                Env {
                    solids: e.solids.update(cell_index(x, y), false),
                    tiles: e.tiles.update(cell_index(x, y), e.tiles[cell_index(x, y + 1)]),
                    ..e
                },
            )
        } else {
            (self, g, e)
        }
    }

    pub fn shot(
        &mut self,
        general: &mut ActorData,
        solids: &mut LevelSolids,
        tiles: &mut LevelTiles,
        queue: &mut ActorQueue,
        hero: &mut HeroData,
        do_play: &mut bool,
        events: &mut Vec<UserEvent>,
    )
        requires
            old(hero).wf(),
            old(self).shot_ok(*old(general)),
        ensures
            final(hero).wf(),
            all_creatable(old(queue).actors@) ==> all_creatable(final(queue).actors@),
            final(general).actor_type == old(general).actor_type,
            (*final(self), *final(general), env_of(*final(solids), *final(tiles), *final(queue), *final(hero), *final(do_play), *final(events)))
                == old(self).spec_shot(*old(general), env_of(*old(solids), *old(tiles), *old(queue), *old(hero), *old(do_play), *old(events))),
    {
        if self.state == RocketState::Idle {
            self.state = RocketState::Flying;
            let x = general.position.x as usize / 16;
            let y = (general.position.y as usize + general.position.h as usize) / 16;
            solids.set(x, y, false);
            tiles.copy_from_to(x, y + 1, x, y);
        }
        assert(env_of(*solids, *tiles, *queue, *hero, *do_play, *events) =~= old(self).spec_shot(
            *old(general),
            env_of(*old(solids), *old(tiles), *old(queue), *old(hero), *old(do_play), *old(events)),
        ).2);
    }
}

} // verus!
