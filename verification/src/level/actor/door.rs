//! Doors that open when the keyhole of their colour gets its key.

use vstd::prelude::*;
use crate::consts::{OBJECT_DOOR, TILE_HEIGHT, TILE_WIDTH};
use crate::events::UserEvent;
use crate::hero::HeroData;
use crate::level::solids::{cell_index, LevelSolids};
use crate::level::tiles::LevelTiles;
use super::{all_creatable, dead, env_of, mail_of, sized, ActorData, ActorMessageType, ActorQueue, Env, Mail};

verus! {

#[derive(Clone, Copy, Debug, PartialEq, Eq, Structural)]
pub enum DoorState {
    Closed,
    Opening,
    Open,
}

/// How many steps a door takes to open.
pub const DOOR_STEPS: usize = 8;

/// A door: a solid tile until it opens.
#[derive(Debug)]
pub struct Door {
    pub tile: usize,
    pub counter: usize,
    pub state: DoorState,
}

impl Door {
    pub open spec fn spec_create(g: ActorData) -> (Door, ActorData) {
        (Door { tile: OBJECT_DOOR, counter: 0, state: DoorState::Closed }, sized(g, TILE_WIDTH, TILE_HEIGHT))
    }

    pub fn create(general: &mut ActorData) -> (s: Door)
        ensures
            final(general).actor_type == old(general).actor_type,
            (s, *final(general)) == Door::spec_create(*old(general)),
    {
        general.position.w = TILE_WIDTH;
        general.position.h = TILE_HEIGHT;
        Door { tile: OBJECT_DOOR, counter: 0, state: DoorState::Closed }
    }

    /// An opening door lies on a tile of the level, and its counter can go
    /// on.
    pub open spec fn act_ok(self, g: ActorData) -> bool {
        self.state == DoorState::Opening ==> {
            &&& self.counter < usize::MAX
            &&& 0 <= g.position.x && g.position.x / 16 < 128
            &&& 0 <= g.position.y && g.position.y / 16 < 90
        }
    }

    /// One step: an opening door frees its tile at once and is open (and
    /// gone) after [`DOOR_STEPS`] steps.
    pub open spec fn spec_act(self, g: ActorData, e: Env) -> (Door, ActorData, Env) {
        if self.state == DoorState::Opening {
            let solids = if self.counter == 0 {
                e.solids.update(cell_index(g.position.x / 16, g.position.y / 16), false)
            } else {
                e.solids
            };
            let counter = (self.counter + 1) as usize;
            if counter == DOOR_STEPS {
                (Door { counter, state: DoorState::Open, ..self }, dead(g), Env { solids, ..e })
            } else {
                (Door { counter, ..self }, g, Env { solids, ..e })
            }
        } else {
            (self, g, e)
        }
    }

    pub fn act(
        &mut self,
        general: &mut ActorData,
        solids: &mut LevelSolids,
        tiles: &mut LevelTiles,
        queue: &mut ActorQueue,
        hero: &mut HeroData,
        do_play: &mut bool,
        events: &mut Vec<UserEvent>,
    )
        requires
            old(hero).wf(),
            old(self).act_ok(*old(general)),
        ensures
            final(hero).wf(),
            all_creatable(old(queue).actors@) ==> all_creatable(final(queue).actors@),
            final(general).actor_type == old(general).actor_type,
            (*final(self), *final(general), env_of(*final(solids), *final(tiles), *final(queue), *final(hero), *final(do_play), *final(events)))
                == old(self).spec_act(*old(general), env_of(*old(solids), *old(tiles), *old(queue), *old(hero), *old(do_play), *old(events))),
    {
        if self.state == DoorState::Opening {
            if self.counter == 0 {
                solids.set(general.position.x as usize / 16, general.position.y as usize / 16, false);
            }
            self.counter = self.counter + 1;
            if self.counter == DOOR_STEPS {
                self.state = DoorState::Open;
                general.is_alive = false;
            }
        }
        assert(env_of(*solids, *tiles, *queue, *hero, *do_play, *events) =~= old(self).spec_act(
            *old(general),
            env_of(*old(solids), *old(tiles), *old(queue), *old(hero), *old(do_play), *old(events)),
        ).2);
    }

    /// The message to open makes the door open.
    pub open spec fn spec_receive_message(self, g: ActorData, m: ActorMessageType, mail: Mail) -> (Door, ActorData, Mail) {
        if m == ActorMessageType::OpenDoor {
            (Door { state: DoorState::Opening, ..self }, g, mail)
        } else {
            (self, g, mail)
        }
    }

    pub fn receive_message(
        &mut self,
        general: &mut ActorData,
        message: ActorMessageType,
        hero: &mut HeroData,
        solids: &mut LevelSolids,
        events: &mut Vec<UserEvent>,
    )
        requires
            old(hero).wf(),
        ensures
            final(hero).wf(),
            final(general).actor_type == old(general).actor_type,
            (*final(self), *final(general), mail_of(*final(hero), *final(solids), *final(events)))
                == old(self).spec_receive_message(*old(general), message, mail_of(*old(hero), *old(solids), *old(events))),
    {
        if message == ActorMessageType::OpenDoor {
            self.state = DoorState::Opening;
        }
    }
}

} // verus!
