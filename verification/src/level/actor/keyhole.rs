//! Keyholes: the hero uses a key of their colour on them to open the doors
//! of that colour.

use vstd::prelude::*;
use crate::consts::{OBJECT_KEYHOLE_BLACK, TILE_HEIGHT, TILE_WIDTH};
use crate::events::UserEvent;
use crate::hero::{taken, HeroData, InventoryItem};
use crate::infobox::InfoMessageQueue;
use super::{chat_of, sized, ActorData, ActorMessage, ActorMessageQueue, ActorMessageType, ActorType, Chat};

verus! {

/// The key a keyhole of each kind wants, and the doors it opens.
pub open spec fn keyhole_lock(t: ActorType) -> Option<(InventoryItem, ActorType)> {
    match t {
        ActorType::KeyholeRed => Some((InventoryItem::KeyRed, ActorType::DoorRed)),
        ActorType::KeyholeBlue => Some((InventoryItem::KeyBlue, ActorType::DoorBlue)),
        ActorType::KeyholePink => Some((InventoryItem::KeyPink, ActorType::DoorPink)),
        ActorType::KeyholeGreen => Some((InventoryItem::KeyGreen, ActorType::DoorGreen)),
        _ => None,
    }
}

/// What the player is told when the hero lacks the key.
pub open spec fn missing_key_text(t: ActorType) -> Seq<char> {
    match t {
        ActorType::KeyholeRed => "You don't have the red key."@,
        ActorType::KeyholeBlue => "You don't have the blue key."@,
        ActorType::KeyholePink => "You don't have the pink key."@,
        _ => "You don't have the green key."@,
    }
}

/// The counter value of a keyhole that got its key.
pub const KEYHOLE_USED: usize = 5;

/// A keyhole; its counter blinks it until the key is used.
#[derive(Debug)]
pub struct Keyhole {
    pub tile: usize,
    pub counter: usize,
}

impl Keyhole {
    pub open spec fn wf(self) -> bool {
        self.counter <= KEYHOLE_USED
    }

    pub open spec fn spec_create(g: ActorData) -> (Keyhole, ActorData) {
        (
            Keyhole { tile: OBJECT_KEYHOLE_BLACK, counter: 0 },
            ActorData { is_in_foreground: false, ..sized(g, TILE_WIDTH, TILE_HEIGHT) },
        )
    }

    pub fn create(general: &mut ActorData) -> (s: Keyhole)
        ensures
            final(general).actor_type == old(general).actor_type,
            (s, *final(general)) == Keyhole::spec_create(*old(general)),
            s.wf(),
    {
        general.position.w = TILE_WIDTH;
        general.position.h = TILE_HEIGHT;
        general.is_in_foreground = false;
        Keyhole { tile: OBJECT_KEYHOLE_BLACK, counter: 0 }
    }

    /// One step: the keyhole blinks until its key is used.
    pub open spec fn spec_act(self) -> Keyhole {
        if self.counter < KEYHOLE_USED {
            Keyhole { counter: ((self.counter + 1) % 4) as usize, ..self }
        } else {
            self
        }
    }

    pub fn act(&mut self)
        requires
            old(self).wf(),
        ensures
            *final(self) == old(self).spec_act(),
            final(self).wf(),
    {
        if self.counter < KEYHOLE_USED {
            self.counter = (self.counter + 1) % 4;
        }
    }

    /// The hero uses the keyhole: with the right key, the key is used up
    /// and the doors of its colour are told to open; without it, the player
    /// is told so, unless the key was already used.
    pub open spec fn spec_interact_start(self, g: ActorData, c: Chat) -> (Keyhole, ActorData, Chat) {
        let (item, door) = keyhole_lock(g.actor_type).unwrap();
        if c.hero.inventory.contains(item) {
            (
                Keyhole { counter: KEYHOLE_USED, ..self },
                g,
                Chat {
                    messages: c.messages.push(ActorMessage { receivers: door, message: ActorMessageType::OpenDoor }),
                    hero: taken(c.hero, item),
                    events: c.events.push(UserEvent::HeroInventoryChanged),
                    ..c
                },
            )
        } else if self.counter < KEYHOLE_USED {
            (self, g, Chat { infos: c.infos.push(missing_key_text(g.actor_type)), ..c })
        } else {
            (self, g, c)
        }
    }

    pub fn hero_interact_start(
        &mut self,
        general: &mut ActorData,
        level_passed: &mut bool,
        hero: &mut HeroData,
        infos: &mut InfoMessageQueue,
        messages: &mut ActorMessageQueue,
        events: &mut Vec<UserEvent>,
    )
        requires
            keyhole_lock(old(general).actor_type) is Some,
            old(self).wf(),
        ensures
            final(general).actor_type == old(general).actor_type,
            (*final(self), *final(general), chat_of(*final(level_passed), *final(hero), *final(infos), *final(messages), *final(events)))
                == old(self).spec_interact_start(*old(general), chat_of(*old(level_passed), *old(hero), *old(infos), *old(messages), *old(events))),
            final(self).wf(),
            final(hero).wf() == old(hero).wf(),
    {
        let (required_item, door_actor_type) = match general.actor_type {
            ActorType::KeyholeRed => (InventoryItem::KeyRed, ActorType::DoorRed),
            ActorType::KeyholeBlue => (InventoryItem::KeyBlue, ActorType::DoorBlue),
            ActorType::KeyholePink => (InventoryItem::KeyPink, ActorType::DoorPink),
            _ => (InventoryItem::KeyGreen, ActorType::DoorGreen),
        };
        if hero.inventory.is_set(required_item) {
            messages.push_back(door_actor_type, ActorMessageType::OpenDoor);
            self.counter = KEYHOLE_USED;
            hero.inventory.unset(required_item, events);
        } else if self.counter < KEYHOLE_USED {
            let text = match general.actor_type {
                ActorType::KeyholeRed => "You don't have the red key.",
                ActorType::KeyholeBlue => "You don't have the blue key.",
                ActorType::KeyholePink => "You don't have the pink key.",
                _ => "You don't have the green key.",
            };
            infos.push_back(text.to_owned());
        }
        assert(chat_of(*level_passed, *hero, *infos, *messages, *events) =~= old(self).spec_interact_start(
            *old(general),
            chat_of(*old(level_passed), *old(hero), *old(infos), *old(messages), *old(events)),
        ).2);
    }
}

} // verus!
