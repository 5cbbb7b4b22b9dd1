//! Teleporters: using one sends the hero to the other.

use vstd::prelude::*;
use crate::consts::{TILE_HEIGHT, TILE_WIDTH};
use crate::events::UserEvent;
use crate::geometry::Geometry;
use crate::hero::{clamp_x, clamp_y, placed, HeroData};
use crate::infobox::InfoMessageQueue;
use crate::level::solids::LevelSolids;
use super::{
    chat_of, mail_of, sized, ActorData, ActorMessage, ActorMessageQueue, ActorMessageType, ActorType,
    Chat, Mail,
};

verus! {

/// The teleporter at the other end.
pub open spec fn other_teleporter(t: ActorType) -> ActorType {
    if t == ActorType::Teleporter1 { ActorType::Teleporter2 } else { ActorType::Teleporter1 }
}

/// A teleporter.
#[derive(Debug)]
pub struct Teleporter {}

impl Teleporter {
    pub open spec fn spec_create(g: ActorData) -> (Teleporter, ActorData) {
        (Teleporter {}, ActorData { is_in_foreground: true, ..sized(g, TILE_WIDTH, TILE_HEIGHT) })
    }

    pub fn create(general: &mut ActorData) -> (s: Teleporter)
        ensures
            final(general).actor_type == old(general).actor_type,
            (s, *final(general)) == Teleporter::spec_create(*old(general)),
    {
        general.position.w = TILE_WIDTH;
        general.position.h = TILE_HEIGHT;
        general.is_in_foreground = true;
        Teleporter {}
    }

    /// Using a teleporter tells the other one to take the hero.
    pub open spec fn spec_interact_start(self, g: ActorData, c: Chat) -> (Teleporter, ActorData, Chat) {
        (
            self,
            g,
            Chat {
                messages: c.messages.push(
                    ActorMessage { receivers: other_teleporter(g.actor_type), message: ActorMessageType::Teleport },
                ),
                ..c
            },
        )
    }

    pub fn hero_interact_start(
        &mut self,
        general: &mut ActorData,
        level_passed: &mut bool,
        hero: &mut HeroData,
        infos: &mut InfoMessageQueue,
        messages: &mut ActorMessageQueue,
        events: &mut Vec<UserEvent>,
    )
        requires
            old(hero).wf(),
        ensures
            final(hero).wf(),
            final(general).actor_type == old(general).actor_type,
            (*final(self), *final(general), chat_of(*final(level_passed), *final(hero), *final(infos), *final(messages), *final(events)))
                == old(self).spec_interact_start(*old(general), chat_of(*old(level_passed), *old(hero), *old(infos), *old(messages), *old(events))),
    {
        let other = if general.actor_type == ActorType::Teleporter1 {
            ActorType::Teleporter2
        } else {
            ActorType::Teleporter1
        };
        messages.push_back(other, ActorMessageType::Teleport);
        assert(chat_of(*level_passed, *hero, *infos, *messages, *events) =~= old(self).spec_interact_start(
            *old(general),
            chat_of(*old(level_passed), *old(hero), *old(infos), *old(messages), *old(events)),
        ).2);
    }

    /// There is room for the hero a tile above the teleporter.
    pub open spec fn receive_ok(self, g: ActorData) -> bool {
        g.position.y as u16 >= TILE_HEIGHT
    }

    /// The message to teleport puts the hero a tile above this teleporter.
    pub open spec fn spec_receive_message(self, g: ActorData, m: ActorMessageType, mail: Mail) -> (
        Teleporter,
        ActorData,
        Mail,
    ) {
        if m == ActorMessageType::Teleport {
            let x = g.position.x as u16;
            let y = (g.position.y as u16 - TILE_HEIGHT) as u16;
            (
                self,
                g,
                Mail {
                    hero: placed(mail.hero, Geometry { x: clamp_x(x), y: clamp_y(y), ..mail.hero.position }),
                    events: mail.events.push(UserEvent::HeroMoved),
                    ..mail
                },
            )
        } else {
            (self, g, mail)
        }
    }

    pub fn receive_message(
        &mut self,
        general: &mut ActorData,
        message: ActorMessageType,
        hero: &mut HeroData,
        solids: &mut LevelSolids,
        events: &mut Vec<UserEvent>,
    )
        requires
            old(self).receive_ok(*old(general)),
        ensures
            final(general).actor_type == old(general).actor_type,
            (*final(self), *final(general), mail_of(*final(hero), *final(solids), *final(events)))
                == old(self).spec_receive_message(*old(general), message, mail_of(*old(hero), *old(solids), *old(events))),
            final(hero).wf() == old(hero).wf(),
    {
        if message == ActorMessageType::Teleport {
            hero.position.move_to(general.position.x as u16, general.position.y as u16 - TILE_HEIGHT, events);
        }
        assert(mail_of(*hero, *solids, *events) =~= old(self).spec_receive_message(
            *old(general),
            message,
            mail_of(*old(hero), *old(solids), *old(events)),
        ).2);
    }
}

/// Using a teleporter sends one message, to teleport the hero, to the
/// other teleporter: never to the teleporter the hero uses. Nothing else
/// changes.
pub proof fn lemma_teleporter_calls_the_other(s: Teleporter, g: ActorData, c: Chat)
    requires
        g.actor_type == ActorType::Teleporter1 || g.actor_type == ActorType::Teleporter2,
    ensures
        ({
            let (s1, g1, c1) = s.spec_interact_start(g, c);
            &&& g1 == g
            &&& c1.messages.len() == c.messages.len() + 1
            &&& c1.messages.subrange(0, c.messages.len() as int) == c.messages
            &&& c1.messages.last().message == ActorMessageType::Teleport
            &&& c1.messages.last().receivers != g.actor_type
            &&& (c1.messages.last().receivers == ActorType::Teleporter1
                || c1.messages.last().receivers == ActorType::Teleporter2)
            &&& c1 == (Chat { messages: c1.messages, ..c })
        }),
{
    let c1 = s.spec_interact_start(g, c).2;
    assert(c1.messages.subrange(0, c.messages.len() as int) =~= c.messages);
}

} // verus!
