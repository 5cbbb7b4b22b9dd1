//! A floor that grows to the right, tile by tile, once the glove slot
//! tells it to.

use vstd::prelude::*;
use crate::consts::{TILE_HEIGHT, TILE_WIDTH};
use crate::events::UserEvent;
use crate::hero::HeroData;
use crate::level::solids::{cell_index, solid_at, LevelSolids};
use crate::level::tiles::LevelTiles;
use super::{all_creatable, env_of, mail_of, sized, ActorData, ActorMessageType, ActorQueue, Env, Mail};

verus! {

/// An expanding floor.
#[derive(Debug)]
pub struct ExpandingFloor {
    pub expanding: bool,
    pub finished: bool,
}

impl ExpandingFloor {
    pub open spec fn spec_create(g: ActorData) -> (ExpandingFloor, ActorData) {
        (ExpandingFloor { expanding: false, finished: false }, sized(g, TILE_WIDTH, TILE_HEIGHT))
    }

    pub fn create(general: &mut ActorData) -> (s: ExpandingFloor)
        ensures
            final(general).actor_type == old(general).actor_type,
            (s, *final(general)) == ExpandingFloor::spec_create(*old(general)),
    {
        general.position.w = TILE_WIDTH;
        general.position.h = TILE_HEIGHT;
        ExpandingFloor { expanding: false, finished: false }
    }

    /// The tile next to a growing floor lies in the level, and the floor's
    /// width can grow.
    pub open spec fn act_ok(self, g: ActorData) -> bool {
        self.expanding ==> {
            &&& 0 <= g.position.x && (g.position.x + g.position.w) / 16 < 128
            &&& 0 <= g.position.y && g.position.y / 16 < 90
            &&& g.position.w + 16 <= u16::MAX
        }
    }

    /// One step: a growing floor takes the free tile to its right and
    /// widens; at a solid tile it stops for good.
    pub open spec fn spec_act(self, g: ActorData, e: Env) -> (ExpandingFloor, ActorData, Env) {
        if self.expanding {
            let x = (g.position.x + g.position.w) / 16;
            let y = g.position.y / 16;
            if !solid_at(e.solids, x, y) {
                (
                    self,
                    sized(g, (g.position.w + 16) as u16, g.position.h),
                    Env { solids: e.solids.update(cell_index(x, y), true), ..e },
                )
            } else {
                (ExpandingFloor { expanding: false, finished: true }, g, e)
            }
        } else {
            (self, g, e)
        }
    }

    pub fn act(
        &mut self,
        general: &mut ActorData,
        solids: &mut LevelSolids,
        tiles: &mut LevelTiles,
        queue: &mut ActorQueue,
        hero: &mut HeroData,
        do_play: &mut bool,
        events: &mut Vec<UserEvent>,
    )
        requires
            old(hero).wf(),
            old(self).act_ok(*old(general)),
        ensures
            final(hero).wf(),
            all_creatable(old(queue).actors@) ==> all_creatable(final(queue).actors@),
            final(general).actor_type == old(general).actor_type,
            (*final(self), *final(general), env_of(*final(solids), *final(tiles), *final(queue), *final(hero), *final(do_play), *final(events)))
                == old(self).spec_act(*old(general), env_of(*old(solids), *old(tiles), *old(queue), *old(hero), *old(do_play), *old(events))),
    {
        if self.expanding {
            let x = (general.position.x as usize + general.position.w as usize) / 16;
            let y = general.position.y as usize / 16;
            if !solids.get(x, y) {
                solids.set(x, y, true);
                general.position.w = general.position.w + TILE_WIDTH;
            } else {
                self.expanding = false;
                self.finished = true;
            }
        }
        assert(env_of(*solids, *tiles, *queue, *hero, *do_play, *events) =~= old(self).spec_act(
            *old(general),
            env_of(*old(solids), *old(tiles), *old(queue), *old(hero), *old(do_play), *old(events)),
        ).2);
    }

    /// The message to expand starts a floor that has not grown yet.
    pub open spec fn spec_receive_message(self, g: ActorData, m: ActorMessageType, mail: Mail) -> (
        ExpandingFloor,
        ActorData,
        Mail,
    ) {
        if m == ActorMessageType::Expand && !self.expanding && !self.finished {
            (ExpandingFloor { expanding: true, ..self }, g, mail)
        } else {
            (self, g, mail)
        }
    }

    pub fn receive_message(
        &mut self,
        general: &mut ActorData,
        message: ActorMessageType,
        hero: &mut HeroData,
        solids: &mut LevelSolids,
        events: &mut Vec<UserEvent>,
    )
        requires
            old(hero).wf(),
        ensures
            final(hero).wf(),
            final(general).actor_type == old(general).actor_type,
            (*final(self), *final(general), mail_of(*final(hero), *final(solids), *final(events)))
                == old(self).spec_receive_message(*old(general), message, mail_of(*old(hero), *old(solids), *old(events))),
    {
        if message == ActorMessageType::Expand {
            if !self.expanding && !self.finished {
                self.expanding = true;
            }
        }
    }
}

} // verus!
