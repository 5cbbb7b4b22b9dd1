//! A level: its grids, its actors, and whether it is still played.

pub mod raw;
pub mod solids;
pub mod tiles;
pub mod actor;

use vstd::prelude::*;
use crate::events::UserEvent;
use crate::hero::HeroData;
use crate::infobox::InfoMessageQueue;
use actor::list::{all_fit, first_interactor, started, ended, ActorsList, Actor};
use actor::specific::Specific;
use actor::{chat_of, ground_of, parting_of, queued_actor, ActorMessageQueue, ActorQueueItem, ActorType};

verus! {

/// The state of the level being played.
#[derive(Debug)]
pub struct LevelData {
    pub tiles: tiles::LevelTiles,
    pub solids: solids::LevelSolids,
    pub do_play: bool,
    pub level_passed: bool,
    pub actors: ActorsList,
}

impl LevelData {
    /// An empty level that is played and not passed.
    pub fn new() -> (l: Self)
        ensures
            forall|x: int, y: int| solids::in_level(x, y) ==> !l.solids.is_solid(x, y) && l.tiles.value_at(x, y) == 0,
            l.do_play,
            !l.level_passed,
            l.actors.actors() == Seq::<Actor>::empty(),
            l.actors.target() == None::<usize>,
    {
        LevelData {
            tiles: tiles::LevelTiles::new(),
            solids: solids::LevelSolids::new(),
            do_play: true,
            level_passed: false,
            actors: ActorsList::new(),
        }
    }

    /// The hero starts using the actor the hero touches and can use, if
    /// any; see [`ActorsList::start_interaction`].
    pub fn hero_interact_start(
        &mut self,
        hero: &mut HeroData,
        infos: &mut InfoMessageQueue,
        messages: &mut ActorMessageQueue,
        events: &mut Vec<UserEvent>,
    )
        requires
            all_fit(old(self).actors.actors()),
            old(hero).wf(),
            first_interactor(old(self).actors.actors(), old(hero)@, old(self).actors.actors().len() as int) matches Some(i)
                ==> Specific::interact_ok(
                    old(self).actors.actors()[i].general,
                    chat_of(old(self).level_passed, *old(hero), *old(infos), *old(messages), *old(events)),
                ),
        ensures
            ({
                let c0 = chat_of(old(self).level_passed, *old(hero), *old(infos), *old(messages), *old(events));
                let c1 = chat_of(final(self).level_passed, *final(hero), *final(infos), *final(messages), *final(events));
                match first_interactor(old(self).actors.actors(), old(hero)@, old(self).actors.actors().len() as int) {
                    Some(i) => {
                        &&& (final(self).actors.actors(), c1) == started(old(self).actors.actors(), old(self).actors.target(), i, c0)
                        &&& final(self).actors.target() == Some(i as usize)
                    },
                    None => {
                        &&& final(self).actors.actors() == old(self).actors.actors()
                        &&& final(self).actors.target() == old(self).actors.target()
                        &&& c1 == c0
                    },
                }
            }),
            final(self).tiles == old(self).tiles,
            final(self).solids == old(self).solids,
            final(self).do_play == old(self).do_play,
            all_fit(final(self).actors.actors()),
            final(hero).wf(),
    {
        self.actors.start_interaction(&mut self.level_passed, hero, infos, messages, events);
    }

    /// The hero stops using the actor the hero used, if any.
    pub fn hero_interact_end(&mut self, hero: &mut HeroData, events: &mut Vec<UserEvent>)
        requires
            all_fit(old(self).actors.actors()),
            old(hero).wf(),
        ensures
            (final(self).actors.actors(), parting_of(final(self).level_passed, *final(hero), *final(events)))
                == ended(old(self).actors.actors(), old(self).actors.target(), parting_of(old(self).level_passed, *old(hero), *old(events))),
            final(self).actors.target() == None::<usize>,
            final(hero)@ == old(hero)@,
            final(self).tiles == old(self).tiles,
            final(self).solids == old(self).solids,
            final(self).do_play == old(self).do_play,
            all_fit(final(self).actors.actors()),
            final(hero).wf(),
    {
        self.actors.end_interaction(&mut self.level_passed, hero, events);
    }

    /// Sets up an actor of kind `actor_type` at (`x`, `y`) in this level
    /// and adds it after the others.
    pub fn add_actor(&mut self, actor_type: ActorType, x: u16, y: u16)
        requires
            Specific::create_ok(queued_actor(ActorQueueItem { actor_type, x, y }), ground_of(old(self).solids, old(self).tiles)),
        ensures
            exists|a: Actor| {
                &&& final(self).actors.actors() == old(self).actors.actors().push(a)
                &&& Specific::created(
                    queued_actor(ActorQueueItem { actor_type, x, y }),
                    ground_of(old(self).solids, old(self).tiles),
                    a.specific,
                    a.general,
                    ground_of(final(self).solids, final(self).tiles),
                )
                &&& a.specific.fits(a.general)
            },
            final(self).actors.target() == old(self).actors.target(),
            final(self).do_play == old(self).do_play,
            final(self).level_passed == old(self).level_passed,
            all_fit(old(self).actors.actors()) ==> all_fit(final(self).actors.actors()),
    {
        let a = self.actors.add_actor(actor_type, x, y, &mut self.solids, &mut self.tiles);
        assert(final(self).actors.actors() == old(self).actors.actors().push(a@));
        assert(all_fit(old(self).actors.actors()) ==> all_fit(final(self).actors.actors())) by {
            let s = old(self).actors.actors().push(a@);
            assert forall|i: int| 0 <= i < s.len() && all_fit(old(self).actors.actors())
                implies (#[trigger] s[i]).specific.fits(s[i].general) by {
                if i < old(self).actors.actors().len() {
                    assert(s[i] == old(self).actors.actors()[i]);
                }
            }
        }
    }
}

} // verus!
