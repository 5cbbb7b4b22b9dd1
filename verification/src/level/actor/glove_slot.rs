//! The glove slot: with the glove, the hero makes a floor expand; without
//! it, the slot fires shots to both sides.

use vstd::prelude::*;
use crate::consts::{OBJECT_GLOVE_SLOT, TILE_HEIGHT, TILE_WIDTH};
use crate::events::UserEvent;
use crate::hero::{HeroData, InventoryItem};
use crate::infobox::InfoMessageQueue;
use crate::level::solids::LevelSolids;
use crate::level::tiles::LevelTiles;
use super::{all_creatable, 
    chat_of, env_of, sized, spot, ActorData, ActorMessage, ActorMessageQueue, ActorMessageType,
    ActorQueue, ActorType, Chat, Env,
};

verus! {

#[derive(Clone, Copy, Debug, PartialEq, Eq, Structural)]
pub enum GloveSlotState {
    Idle,
    Shooting,
    Expanded,
}

/// How many steps the slot fires when used without the glove.
pub const GLOVE_SLOT_SHOTS: usize = 20;

/// The glove slot.
#[derive(Debug)]
pub struct GloveSlot {
    pub tile: usize,
    pub current_frame: usize,
    pub num_frames: usize,
    pub state: GloveSlotState,
    pub countdown: usize,
}

impl GloveSlot {
    pub open spec fn wf(self) -> bool {
        &&& self.num_frames == 4
        &&& self.current_frame < 4
        &&& self.state == GloveSlotState::Shooting ==> 1 <= self.countdown <= GLOVE_SLOT_SHOTS
    }

    pub open spec fn spec_create(g: ActorData) -> (GloveSlot, ActorData) {
        (
            GloveSlot { tile: OBJECT_GLOVE_SLOT, current_frame: 0, num_frames: 4, state: GloveSlotState::Idle, countdown: 0 },
            ActorData { is_in_foreground: false, ..sized(g, TILE_WIDTH, TILE_HEIGHT) },
        )
    }

    pub fn create(general: &mut ActorData) -> (s: GloveSlot)
        ensures
            final(general).actor_type == old(general).actor_type,
            (s, *final(general)) == GloveSlot::spec_create(*old(general)),
            s.wf(),
    {
        general.position.w = TILE_WIDTH;
        general.position.h = TILE_HEIGHT;
        general.is_in_foreground = false;
        GloveSlot { tile: OBJECT_GLOVE_SLOT, current_frame: 0, num_frames: 4, state: GloveSlotState::Idle, countdown: 0 }
    }

    /// The hero uses an idle slot: with the glove, the expanding floors are
    /// told to expand and the slot is done; without it, the slot starts
    /// firing.
    pub open spec fn spec_interact_start(self, g: ActorData, c: Chat) -> (GloveSlot, ActorData, Chat) {
        if self.state == GloveSlotState::Idle {
            if c.hero.inventory.contains(InventoryItem::Glove) {
                (
                    GloveSlot { state: GloveSlotState::Expanded, ..self },
                    g,
                    Chat {
                        messages: c.messages.push(
                            ActorMessage { receivers: ActorType::ExpandingFloor, message: ActorMessageType::Expand },
                        ),
                        ..c
                    },
                )
            } else {
                (GloveSlot { state: GloveSlotState::Shooting, countdown: GLOVE_SLOT_SHOTS, ..self }, g, c)
            }
        } else {
            (self, g, c)
        }
    }

    pub fn hero_interact_start(
        &mut self,
        general: &mut ActorData,
        level_passed: &mut bool,
        hero: &mut HeroData,
        infos: &mut InfoMessageQueue,
        messages: &mut ActorMessageQueue,
        events: &mut Vec<UserEvent>,
    )
        requires
            old(hero).wf(),
            old(self).wf(),
        ensures
            final(hero).wf(),
            final(general).actor_type == old(general).actor_type,
            (*final(self), *final(general), chat_of(*final(level_passed), *final(hero), *final(infos), *final(messages), *final(events)))
                == old(self).spec_interact_start(*old(general), chat_of(*old(level_passed), *old(hero), *old(infos), *old(messages), *old(events))),
            final(self).wf(),
    {
        if self.state == GloveSlotState::Idle {
            if hero.inventory.is_set(InventoryItem::Glove) {
                messages.push_back(ActorType::ExpandingFloor, ActorMessageType::Expand);
                self.state = GloveSlotState::Expanded;
            } else {
                self.state = GloveSlotState::Shooting;
                self.countdown = GLOVE_SLOT_SHOTS;
            }
        }
        assert(chat_of(*level_passed, *hero, *infos, *messages, *events) =~= old(self).spec_interact_start(
            *old(general),
            chat_of(*old(level_passed), *old(hero), *old(infos), *old(messages), *old(events)),
        ).2);
    }

    /// One step: an idle slot blinks; a firing one blinks, counts down and
    /// fires right on every fourth step and left two steps later, until it
    /// is idle again.
    pub open spec fn spec_act(self, g: ActorData, e: Env) -> (GloveSlot, ActorData, Env) {
        let next = ((self.current_frame + 1) % (self.num_frames as int)) as usize;
        if self.state == GloveSlotState::Idle {
            (GloveSlot { current_frame: next, ..self }, g, e)
        } else if self.state == GloveSlotState::Shooting {
            let countdown = (self.countdown - 1) as usize;
            let queued = if countdown % 4 == 0 {
                e.queued.push(spot(g, ActorType::HostileShotRight))
            } else if countdown % 4 == 2 {
                e.queued.push(spot(g, ActorType::HostileShotLeft))
            } else {
                e.queued
            };
            let state = if countdown == 0 { GloveSlotState::Idle } else { GloveSlotState::Shooting };
            (GloveSlot { current_frame: next, countdown, state, ..self }, g, Env { queued, ..e })
        } else {
            (self, g, e)
        }
    }

    pub fn act(
        &mut self,
        general: &mut ActorData,
        solids: &mut LevelSolids,
        tiles: &mut LevelTiles,
        queue: &mut ActorQueue,
        hero: &mut HeroData,
        do_play: &mut bool,
        events: &mut Vec<UserEvent>,
    )
        requires
            old(hero).wf(),
            old(self).wf(),
        ensures
            final(hero).wf(),
            all_creatable(old(queue).actors@) ==> all_creatable(final(queue).actors@),
            final(general).actor_type == old(general).actor_type,
            (*final(self), *final(general), env_of(*final(solids), *final(tiles), *final(queue), *final(hero), *final(do_play), *final(events)))
                == old(self).spec_act(*old(general), env_of(*old(solids), *old(tiles), *old(queue), *old(hero), *old(do_play), *old(events))),
            final(self).wf(),
    {
        if self.state == GloveSlotState::Idle {
            self.current_frame = (self.current_frame + 1) % self.num_frames;
        } else if self.state == GloveSlotState::Shooting {
            self.current_frame = (self.current_frame + 1) % self.num_frames;
            self.countdown = self.countdown - 1;
            if self.countdown % 4 == 0 {
                queue.push_back(ActorType::HostileShotRight, general.position.x as u16, general.position.y as u16);
            } else if self.countdown % 4 == 2 {
                queue.push_back(ActorType::HostileShotLeft, general.position.x as u16, general.position.y as u16);
            }
            if self.countdown == 0 {
                self.state = GloveSlotState::Idle;
            }
        }
        assert(env_of(*solids, *tiles, *queue, *hero, *do_play, *events) =~= old(self).spec_act(
            *old(general),
            env_of(*old(solids), *old(tiles), *old(queue), *old(hero), *old(do_play), *old(events)),
        ).2);
    }
}

} // verus!
