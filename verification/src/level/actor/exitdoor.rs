//! The exit door: the hero walks through it to pass the level.

use vstd::prelude::*;
use crate::consts::{ANIMATION_EXITDOOR, TILE_HEIGHT, TILE_WIDTH};
use crate::events::UserEvent;
use crate::hero::{HeroData, HeroView};
use crate::infobox::InfoMessageQueue;
use crate::level::solids::LevelSolids;
use crate::level::tiles::LevelTiles;
use super::{all_creatable, chat_of, env_of, sized, ActorData, ActorMessageQueue, ActorQueue, Chat, Env};

verus! {

#[derive(Clone, Copy, Debug, PartialEq, Eq, Structural)]
pub enum ExitDoorState {
    Closed,
    Opening,
    Closing,
}

/// The exit door, two tiles wide and high.
#[derive(Debug)]
pub struct ExitDoor {
    pub tile: usize,
    pub counter: usize,
    pub state: ExitDoorState,
}

impl ExitDoor {
    pub open spec fn wf(self) -> bool {
        self.counter <= 3
    }

    pub open spec fn spec_create(g: ActorData) -> (ExitDoor, ActorData) {
        (
            ExitDoor { tile: ANIMATION_EXITDOOR, counter: 0, state: ExitDoorState::Closed },
            ActorData { is_in_foreground: false, ..sized(g, (2 * TILE_WIDTH) as u16, (2 * TILE_HEIGHT) as u16) },
        )
    }

    pub fn create(general: &mut ActorData) -> (s: ExitDoor)
        ensures
            final(general).actor_type == old(general).actor_type,
            (s, *final(general)) == ExitDoor::spec_create(*old(general)),
            s.wf(),
    {
        general.position.w = TILE_WIDTH * 2;
        general.position.h = TILE_HEIGHT * 2;
        general.is_in_foreground = false;
        ExitDoor { tile: ANIMATION_EXITDOOR, counter: 0, state: ExitDoorState::Closed }
    }

    /// The hero uses the door: a closed door opens, and the level is
    /// passed.
    pub open spec fn spec_interact_start(self, g: ActorData, c: Chat) -> (ExitDoor, ActorData, Chat) {
        let s = if self.state == ExitDoorState::Closed { ExitDoor { state: ExitDoorState::Opening, ..self } } else { self };
        (s, g, Chat { level_passed: true, ..c })
    }

    pub fn hero_interact_start(
        &mut self,
        general: &mut ActorData,
        level_passed: &mut bool,
        hero: &mut HeroData,
        infos: &mut InfoMessageQueue,
        messages: &mut ActorMessageQueue,
        events: &mut Vec<UserEvent>,
    )
        requires
            old(hero).wf(),
            old(self).wf(),
        ensures
            final(hero).wf(),
            final(general).actor_type == old(general).actor_type,
            (*final(self), *final(general), chat_of(*final(level_passed), *final(hero), *final(infos), *final(messages), *final(events)))
                == old(self).spec_interact_start(*old(general), chat_of(*old(level_passed), *old(hero), *old(infos), *old(messages), *old(events))),
            final(self).wf(),
    {
        if self.state == ExitDoorState::Closed {
            self.state = ExitDoorState::Opening;
        }
        *level_passed = true;
        assert(chat_of(*level_passed, *hero, *infos, *messages, *events) =~= old(self).spec_interact_start(
            *old(general),
            chat_of(*old(level_passed), *old(hero), *old(infos), *old(messages), *old(events)),
        ).2);
    }

    /// One step: an opening door opens further; once open the hero is
    /// hidden behind it and it closes again; once closed the hero shows
    /// again and the level ends.
    pub open spec fn spec_act(self, g: ActorData, e: Env) -> (ExitDoor, ActorData, Env) {
        if self.state == ExitDoorState::Opening {
            let counter = self.counter + 1;
            if counter >= 4 {
                (
                    ExitDoor { state: ExitDoorState::Closing, counter: (counter - 1) as usize, ..self },
                    g,
                    Env { hero: HeroView { hidden: true, ..e.hero }, ..e },
                )
            } else {
                (ExitDoor { counter: counter as usize, ..self }, g, e)
            }
        } else if self.state == ExitDoorState::Closing {
            if self.counter == 0 {
                (self, g, Env { do_play: false, hero: HeroView { hidden: false, ..e.hero }, ..e })
            } else {
                (ExitDoor { counter: (self.counter - 1) as usize, ..self }, g, e)
            }
        } else {
            (self, g, e)
        }
    }

    pub fn act(
        &mut self,
        general: &mut ActorData,
        solids: &mut LevelSolids,
        tiles: &mut LevelTiles,
        queue: &mut ActorQueue,
        hero: &mut HeroData,
        do_play: &mut bool,
        events: &mut Vec<UserEvent>,
    )
        requires
            old(self).wf(),
            old(hero).wf(),
        ensures
            all_creatable(old(queue).actors@) ==> all_creatable(final(queue).actors@),
            final(general).actor_type == old(general).actor_type,
            (*final(self), *final(general), env_of(*final(solids), *final(tiles), *final(queue), *final(hero), *final(do_play), *final(events)))
                == old(self).spec_act(*old(general), env_of(*old(solids), *old(tiles), *old(queue), *old(hero), *old(do_play), *old(events))),
            final(self).wf(),
            final(hero).wf(),
    {
        if self.state == ExitDoorState::Opening {
            self.counter = self.counter + 1;
            if self.counter >= 4 {
                hero.hidden = true;
                self.state = ExitDoorState::Closing;
                self.counter = self.counter - 1;
            }
        } else if self.state == ExitDoorState::Closing {
            if self.counter == 0 {
                *do_play = false;
                hero.hidden = false;
            } else {
                self.counter = self.counter - 1;
            }
        }
        assert(env_of(*solids, *tiles, *queue, *hero, *do_play, *events) =~= old(self).spec_act(
            *old(general),
            env_of(*old(solids), *old(tiles), *old(queue), *old(hero), *old(do_play), *old(events)),
        ).2);
    }
}

} // verus!
