//! A balloon that rises until it bursts on a ceiling; the hero catches it
//! for points.

use vstd::prelude::*;
use crate::consts::{TILE_HEIGHT, TILE_WIDTH};
use crate::events::UserEvent;
use crate::hero::{scored, HeroData};
use crate::level::solids::{solid_at, LevelSolids};
use crate::level::tiles::LevelTiles;
use super::{all_creatable, dead, env_of, moved, sized, spot, ActorData, ActorQueue, ActorType, Env};

verus! {

/// A balloon.
#[derive(Debug)]
pub struct Balloon {
    pub destroyed: bool,
    pub current_frame: usize,
}

impl Balloon {
    pub open spec fn wf(self) -> bool {
        self.current_frame < 9
    }

    pub open spec fn spec_create(g: ActorData) -> (Balloon, ActorData) {
        (Balloon { destroyed: false, current_frame: 0 }, sized(g, TILE_WIDTH, (2 * TILE_HEIGHT) as u16))
    }

    pub fn create(general: &mut ActorData) -> (s: Balloon)
        ensures
            final(general).actor_type == old(general).actor_type,
            (s, *final(general)) == Balloon::spec_create(*old(general)),
            s.wf(),
    {
        general.position.w = TILE_WIDTH;
        general.position.h = TILE_HEIGHT * 2;
        Balloon { destroyed: false, current_frame: 0 }
    }

    /// Catching a whole balloon gives 10000 points.
    pub open spec fn spec_touch_start(self, g: ActorData, e: Env) -> (Balloon, ActorData, Env) {
        if !self.destroyed {
            (
                self,
                dead(g),
                Env {
                    hero: scored(e.hero, 10000),
                    queued: e.queued.push(spot(g, ActorType::Score10000)),
                    events: e.events.push(UserEvent::HeroScored),
                    ..e
                },
            )
        } else {
            (self, g, e)
        }
    }

    pub fn hero_touch_start(
        &mut self,
        general: &mut ActorData,
        solids: &mut LevelSolids,
        tiles: &mut LevelTiles,
        queue: &mut ActorQueue,
        hero: &mut HeroData,
        do_play: &mut bool,
        events: &mut Vec<UserEvent>,
    )
        requires
            old(hero).wf(),
        ensures
            old(self).wf() ==> final(self).wf(),
            old(self).act_ok(*old(general)) ==> final(self).act_ok(*final(general)),
            all_creatable(old(queue).actors@) ==> all_creatable(final(queue).actors@),
            final(general).actor_type == old(general).actor_type,
            (*final(self), *final(general), env_of(*final(solids), *final(tiles), *final(queue), *final(hero), *final(do_play), *final(events)))
                == old(self).spec_touch_start(*old(general), env_of(*old(solids), *old(tiles), *old(queue), *old(hero), *old(do_play), *old(events))),
            final(hero).wf(),
    {
        if !self.destroyed {
            general.is_alive = false;
            hero.score.add(10000, events);
            queue.push_back(ActorType::Score10000, general.position.x as u16, general.position.y as u16);
        }
        assert(env_of(*solids, *tiles, *queue, *hero, *do_play, *events) =~= old(self).spec_touch_start(
            *old(general),
            env_of(*old(solids), *old(tiles), *old(queue), *old(hero), *old(do_play), *old(events)),
        ).2);
    }

    /// A rising balloon's next place lies on a tile of the level.
    pub open spec fn act_ok(self, g: ActorData) -> bool {
        !self.destroyed ==> {
            &&& 0 <= g.position.x && g.position.x / 16 < 128
            &&& 0 <= g.position.y - 1 && (g.position.y - 1) / 16 < 90
        }
    }

    /// One step: the string waves; a burst balloon is gone, a whole one
    /// rises a pixel and bursts, in steam, on a solid tile.
    pub open spec fn spec_act(self, g: ActorData, e: Env) -> (Balloon, ActorData, Env) {
        let frame = ((self.current_frame + 1) % 9) as usize;
        if self.destroyed {
            (Balloon { current_frame: frame, ..self }, dead(g), e)
        } else {
            let g1 = moved(g, g.position.x as int, g.position.y - 1);
            if solid_at(e.solids, g1.position.x / 16, g1.position.y / 16) {
                (
                    Balloon { current_frame: frame, destroyed: true },
                    g1,
                    Env { queued: e.queued.push(spot(g1, ActorType::Steam)), ..e },
                )
            } else {
                (Balloon { current_frame: frame, ..self }, g1, e)
            }
        }
    }

    pub fn act(
        &mut self,
        general: &mut ActorData,
        solids: &mut LevelSolids,
        tiles: &mut LevelTiles,
        queue: &mut ActorQueue,
        hero: &mut HeroData,
        do_play: &mut bool,
        events: &mut Vec<UserEvent>,
    )
        requires
            old(hero).wf(),
            old(self).wf(),
            old(self).act_ok(*old(general)),
        ensures
            final(hero).wf(),
            all_creatable(old(queue).actors@) ==> all_creatable(final(queue).actors@),
            final(general).actor_type == old(general).actor_type,
            (*final(self), *final(general), env_of(*final(solids), *final(tiles), *final(queue), *final(hero), *final(do_play), *final(events)))
                == old(self).spec_act(*old(general), env_of(*old(solids), *old(tiles), *old(queue), *old(hero), *old(do_play), *old(events))),
            final(self).wf(),
    {
        self.current_frame = (self.current_frame + 1) % 9;
        if self.destroyed {
            general.is_alive = false;
        } else {
            general.position.y = general.position.y - 1;
            if solids.get(general.position.x as usize / 16, general.position.y as usize / 16) {
                self.destroyed = true;
                queue.push_back(ActorType::Steam, general.position.x as u16, general.position.y as u16);
            }
        }
        assert(env_of(*solids, *tiles, *queue, *hero, *do_play, *events) =~= old(self).spec_act(
            *old(general),
            env_of(*old(solids), *old(tiles), *old(queue), *old(hero), *old(do_play), *old(events)),
        ).2);
    }

    /// A shot bursts the balloon.
    pub open spec fn spec_shot(self, g: ActorData, e: Env) -> (Balloon, ActorData, Env) {
        (Balloon { destroyed: true, ..self }, g, Env { queued: e.queued.push(spot(g, ActorType::Steam)), ..e })
    }

    pub fn shot(
        &mut self,
        general: &mut ActorData,
        solids: &mut LevelSolids,
        tiles: &mut LevelTiles,
        queue: &mut ActorQueue,
        hero: &mut HeroData,
        do_play: &mut bool,
        events: &mut Vec<UserEvent>,
    )
        requires
            old(hero).wf(),
        ensures
            old(self).wf() ==> final(self).wf(),
            final(hero).wf(),
            all_creatable(old(queue).actors@) ==> all_creatable(final(queue).actors@),
            final(general).actor_type == old(general).actor_type,
            (*final(self), *final(general), env_of(*final(solids), *final(tiles), *final(queue), *final(hero), *final(do_play), *final(events)))
                == old(self).spec_shot(*old(general), env_of(*old(solids), *old(tiles), *old(queue), *old(hero), *old(do_play), *old(events))),
    {
        self.destroyed = true;
        queue.push_back(ActorType::Steam, general.position.x as u16, general.position.y as u16);
        assert(env_of(*solids, *tiles, *queue, *hero, *do_play, *events) =~= old(self).spec_shot(
            *old(general),
            env_of(*old(solids), *old(tiles), *old(queue), *old(hero), *old(do_play), *old(events)),
        ).2);
    }
}

} // verus!
