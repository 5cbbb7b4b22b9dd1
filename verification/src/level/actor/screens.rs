//! Things the hero can read: notebooks and surveillance screens.

use vstd::prelude::*;
use crate::consts::{TILE_HEIGHT, TILE_WIDTH};
use crate::events::UserEvent;
use crate::hero::HeroData;
use crate::infobox::InfoMessageQueue;
use super::{chat_of, sized, ActorData, ActorMessageQueue, Chat};

verus! {

/// What reading a notebook or a screen shows so far.
pub open spec fn unwritten_text() -> Seq<char> {
    "Not implemented yet."@
}

/// The player is shown the text of the notebook or screen.
pub open spec fn reading(c: Chat) -> Chat {
    Chat { infos: c.infos.push(unwritten_text()), ..c }
}

/// A notebook lying around.
#[derive(Debug)]
pub struct Notebook {}

impl Notebook {
    pub open spec fn spec_create(g: ActorData) -> (Notebook, ActorData) {
        (Notebook {}, sized(g, TILE_WIDTH, TILE_HEIGHT))
    }

    pub fn create(general: &mut ActorData) -> (s: Notebook)
        ensures
            final(general).actor_type == old(general).actor_type,
            (s, *final(general)) == Notebook::spec_create(*old(general)),
    {
        general.position.w = TILE_WIDTH;
        general.position.h = TILE_HEIGHT;
        Notebook {}
    }

    pub open spec fn spec_interact_start(self, g: ActorData, c: Chat) -> (Notebook, ActorData, Chat) {
        (self, g, reading(c))
    }

    pub fn hero_interact_start(
        &mut self,
        general: &mut ActorData,
        level_passed: &mut bool,
        hero: &mut HeroData,
        infos: &mut InfoMessageQueue,
        messages: &mut ActorMessageQueue,
        events: &mut Vec<UserEvent>,
    )
        requires
            old(hero).wf(),
        ensures
            final(hero).wf(),
            final(general).actor_type == old(general).actor_type,
            (*final(self), *final(general), chat_of(*final(level_passed), *final(hero), *final(infos), *final(messages), *final(events)))
                == old(self).spec_interact_start(*old(general), chat_of(*old(level_passed), *old(hero), *old(infos), *old(messages), *old(events))),
    {
        infos.push_back("Not implemented yet.".to_owned());
        assert(chat_of(*level_passed, *hero, *infos, *messages, *events) =~= old(self).spec_interact_start(
            *old(general),
            chat_of(*old(level_passed), *old(hero), *old(infos), *old(messages), *old(events)),
        ).2);
    }
}

/// A surveillance screen, two tiles wide.
#[derive(Debug)]
pub struct SurveillanceScreen {}

impl SurveillanceScreen {
    pub open spec fn spec_create(g: ActorData) -> (SurveillanceScreen, ActorData) {
        (SurveillanceScreen {}, sized(g, (2 * TILE_WIDTH) as u16, TILE_HEIGHT))
    }

    pub fn create(general: &mut ActorData) -> (s: SurveillanceScreen)
        ensures
            final(general).actor_type == old(general).actor_type,
            (s, *final(general)) == SurveillanceScreen::spec_create(*old(general)),
    {
        general.position.w = TILE_WIDTH * 2;
        general.position.h = TILE_HEIGHT;
        SurveillanceScreen {}
    }

    pub open spec fn spec_interact_start(self, g: ActorData, c: Chat) -> (SurveillanceScreen, ActorData, Chat) {
        (self, g, reading(c))
    }

    pub fn hero_interact_start(
        &mut self,
        general: &mut ActorData,
        level_passed: &mut bool,
        hero: &mut HeroData,
        infos: &mut InfoMessageQueue,
        messages: &mut ActorMessageQueue,
        events: &mut Vec<UserEvent>,
    )
        requires
            old(hero).wf(),
        ensures
            final(hero).wf(),
            final(general).actor_type == old(general).actor_type,
            (*final(self), *final(general), chat_of(*final(level_passed), *final(hero), *final(infos), *final(messages), *final(events)))
                == old(self).spec_interact_start(*old(general), chat_of(*old(level_passed), *old(hero), *old(infos), *old(messages), *old(events))),
    {
        infos.push_back("Not implemented yet.".to_owned());
        assert(chat_of(*level_passed, *hero, *infos, *messages, *events) =~= old(self).spec_interact_start(
            *old(general),
            chat_of(*old(level_passed), *old(hero), *old(infos), *old(messages), *old(events)),
        ).2);
    }
}

} // verus!
