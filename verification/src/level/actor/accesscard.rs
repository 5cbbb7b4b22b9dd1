//! The access card slot, and the laser beam door it opens.

use vstd::prelude::*;
use crate::consts::{OBJECT_ACCESS_CARD_SLOT, OBJECT_LASERBEAM, TILE_HEIGHT, TILE_WIDTH};
use crate::events::UserEvent;
use crate::hero::{taken, HeroData, InventoryItem};
use crate::infobox::InfoMessageQueue;
use crate::level::solids::{cell_index, LevelSolids};
use super::{
    chat_of, dead, mail_of, sized, ActorData, ActorMessage, ActorMessageQueue, ActorMessageType,
    ActorType, Chat, Mail,
};

verus! {

/// The slot into which the hero puts the access card.
#[derive(Debug)]
pub struct AccessCardSlot {
    pub tile: usize,
    pub current_frame: usize,
    pub num_frames: usize,
}

impl AccessCardSlot {
    pub open spec fn wf(self) -> bool {
        self.current_frame < self.num_frames
    }

    pub open spec fn spec_create(g: ActorData) -> (AccessCardSlot, ActorData) {
        (
            AccessCardSlot { tile: OBJECT_ACCESS_CARD_SLOT, current_frame: 0, num_frames: 8 },
            ActorData { is_in_foreground: false, ..sized(g, TILE_WIDTH, TILE_HEIGHT) },
        )
    }

    pub fn create(general: &mut ActorData) -> (s: AccessCardSlot)
        ensures
            final(general).actor_type == old(general).actor_type,
            (s, *final(general)) == AccessCardSlot::spec_create(*old(general)),
            s.wf(),
    {
        general.position.w = TILE_WIDTH;
        general.position.h = TILE_HEIGHT;
        general.is_in_foreground = false;
        AccessCardSlot { tile: OBJECT_ACCESS_CARD_SLOT, current_frame: 0, num_frames: 8 }
    }

    /// The hero uses the slot: with the access card, the card is used up,
    /// the laser beam doors are told to open, and the slot stops blinking;
    /// without it, the player is told so.
    pub open spec fn spec_interact_start(self, g: ActorData, c: Chat) -> (AccessCardSlot, ActorData, Chat) {
        if c.hero.inventory.contains(InventoryItem::AccessCard) {
            (
                AccessCardSlot { current_frame: 0, num_frames: 1, tile: (OBJECT_ACCESS_CARD_SLOT + 8) as usize },
                g,
                Chat {
                    messages: c.messages.push(
                        ActorMessage { receivers: ActorType::AccessCardDoor, message: ActorMessageType::OpenDoor },
                    ),
                    hero: taken(c.hero, InventoryItem::AccessCard),
                    events: c.events.push(UserEvent::HeroInventoryChanged),
                    ..c
                },
            )
        } else {
            (self, g, Chat { infos: c.infos.push("You don't have the access card\n"@), ..c })
        }
    }

    pub fn hero_interact_start(
        &mut self,
        general: &mut ActorData,
        level_passed: &mut bool,
        hero: &mut HeroData,
        infos: &mut InfoMessageQueue,
        messages: &mut ActorMessageQueue,
        events: &mut Vec<UserEvent>,
    )
        requires
            old(self).wf(),
        ensures
            final(general).actor_type == old(general).actor_type,
            (*final(self), *final(general), chat_of(*final(level_passed), *final(hero), *final(infos), *final(messages), *final(events)))
                == old(self).spec_interact_start(*old(general), chat_of(*old(level_passed), *old(hero), *old(infos), *old(messages), *old(events))),
            final(self).wf(),
            final(hero).wf() == old(hero).wf(),
    {
        if hero.inventory.is_set(InventoryItem::AccessCard) {
            messages.push_back(ActorType::AccessCardDoor, ActorMessageType::OpenDoor);
            self.current_frame = 0;
            self.num_frames = 1;
            self.tile = OBJECT_ACCESS_CARD_SLOT + 8;
            hero.inventory.unset(InventoryItem::AccessCard, events);
        } else {
            infos.push_back("You don't have the access card\n".to_owned());
        }
        assert(chat_of(*level_passed, *hero, *infos, *messages, *events) =~= old(self).spec_interact_start(
            *old(general),
            chat_of(*old(level_passed), *old(hero), *old(infos), *old(messages), *old(events)),
        ).2);
    }

    /// One step: the next frame, starting over after the last.
    pub open spec fn spec_act(self) -> AccessCardSlot {
        AccessCardSlot { current_frame: ((self.current_frame + 1) % (self.num_frames as int)) as usize, ..self }
    }

    pub fn act(&mut self)
        requires
            old(self).wf(),
        ensures
            *final(self) == old(self).spec_act(),
            final(self).wf(),
    {
        self.current_frame = (self.current_frame + 1) % self.num_frames;
    }
}

/// A laser beam that blocks the way until the access card is used.
#[derive(Debug)]
pub struct AccessCardDoor {
    pub tile: usize,
    pub current_frame: usize,
    pub num_frames: usize,
}

impl AccessCardDoor {
    pub open spec fn wf(self) -> bool {
        self.current_frame < self.num_frames
    }

    pub open spec fn spec_create(g: ActorData) -> (AccessCardDoor, ActorData) {
        (
            AccessCardDoor { tile: OBJECT_LASERBEAM, current_frame: 0, num_frames: 4 },
            ActorData { is_in_foreground: false, ..sized(g, TILE_WIDTH, TILE_HEIGHT) },
        )
    }

    pub fn create(general: &mut ActorData) -> (s: AccessCardDoor)
        ensures
            final(general).actor_type == old(general).actor_type,
            (s, *final(general)) == AccessCardDoor::spec_create(*old(general)),
            s.wf(),
    {
        general.position.w = TILE_WIDTH;
        general.position.h = TILE_HEIGHT;
        general.is_in_foreground = false;
        AccessCardDoor { tile: OBJECT_LASERBEAM, current_frame: 0, num_frames: 4 }
    }

    pub open spec fn spec_act(self) -> AccessCardDoor {
        AccessCardDoor { current_frame: ((self.current_frame + 1) % (self.num_frames as int)) as usize, ..self }
    }

    pub fn act(&mut self)
        requires
            old(self).wf(),
        ensures
            *final(self) == old(self).spec_act(),
            final(self).wf(),
    {
        self.current_frame = (self.current_frame + 1) % self.num_frames;
    }

    /// The beam stands on a tile of the level, which it can free.
    pub open spec fn receive_ok(self, g: ActorData) -> bool {
        &&& 0 <= g.position.x && g.position.x / 16 < 128
        &&& 0 <= g.position.y && g.position.y / 16 < 90
    }

    /// The message to open frees the beam's tile and removes the beam.
    pub open spec fn spec_receive_message(self, g: ActorData, m: ActorMessageType, mail: Mail) -> (
        AccessCardDoor,
        ActorData,
        Mail,
    ) {
        if m == ActorMessageType::OpenDoor {
            (
                self,
                dead(g),
                Mail { solids: mail.solids.update(cell_index(g.position.x / 16, g.position.y / 16), false), ..mail },
            )
        } else {
            (self, g, mail)
        }
    }

    pub fn receive_message(
        &mut self,
        general: &mut ActorData,
        message: ActorMessageType,
        hero: &mut HeroData,
        solids: &mut LevelSolids,
        events: &mut Vec<UserEvent>,
    )
        requires
            old(hero).wf(),
            old(self).receive_ok(*old(general)),
        ensures
            old(self).wf() ==> final(self).wf(),
            final(hero).wf(),
            final(general).actor_type == old(general).actor_type,
            (*final(self), *final(general), mail_of(*final(hero), *final(solids), *final(events)))
                == old(self).spec_receive_message(*old(general), message, mail_of(*old(hero), *old(solids), *old(events))),
    {
        if message == ActorMessageType::OpenDoor {
            solids.set(general.position.x as usize / 16, general.position.y as usize / 16, false);
            general.is_alive = false;
        }
        assert(mail_of(*hero, *solids, *events) =~= old(self).spec_receive_message(
            *old(general),
            message,
            mail_of(*old(hero), *old(solids), *old(events)),
        ).2);
    }
}

} // verus!
