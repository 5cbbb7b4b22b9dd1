//! Keys that the hero picks up to open doors of their colour.

use vstd::prelude::*;
use crate::consts::{TILE_HEIGHT, TILE_WIDTH};
use crate::events::UserEvent;
use crate::hero::{given, scored, HeroData, InventoryItem};
use crate::level::solids::LevelSolids;
use crate::level::tiles::LevelTiles;
use super::{all_creatable, dead, env_of, sized, spot, ActorData, ActorQueue, ActorType, Env};

verus! {

/// The inventory item of each kind of key, or `None` for other kinds.
pub open spec fn key_item(t: ActorType) -> Option<InventoryItem> {
    match t {
        ActorType::KeyRed => Some(InventoryItem::KeyRed),
        ActorType::KeyBlue => Some(InventoryItem::KeyBlue),
        ActorType::KeyPink => Some(InventoryItem::KeyPink),
        ActorType::KeyGreen => Some(InventoryItem::KeyGreen),
        _ => None,
    }
}

/// A key lying in the level.
#[derive(Debug)]
pub struct Key {}

impl Key {
    pub open spec fn spec_create(g: ActorData) -> (Key, ActorData) {
        (Key {}, ActorData { is_in_foreground: false, ..sized(g, TILE_WIDTH, TILE_HEIGHT) })
    }

    pub fn create(general: &mut ActorData) -> (s: Key)
        ensures
            final(general).actor_type == old(general).actor_type,
            (s, *final(general)) == Key::spec_create(*old(general)),
    {
        general.position.w = TILE_WIDTH;
        general.position.h = TILE_HEIGHT;
        general.is_in_foreground = false;
        Key {}
    }

    /// The hero takes the key into the inventory and scores 1000 points.
    pub open spec fn spec_touch_start(self, g: ActorData, e: Env) -> (Key, ActorData, Env) {
        (
            self,
            dead(g),
            Env {
                hero: scored(given(e.hero, key_item(g.actor_type).unwrap()), 1000),
                queued: e.queued.push(spot(g, ActorType::Score1000)),
                events: e.events.push(UserEvent::HeroInventoryChanged).push(UserEvent::HeroScored),
                ..e
            },
        )
    }

    pub fn hero_touch_start(
        &mut self,
        general: &mut ActorData,
        solids: &mut LevelSolids,
        tiles: &mut LevelTiles,
        queue: &mut ActorQueue,
        hero: &mut HeroData,
        do_play: &mut bool,
        events: &mut Vec<UserEvent>,
    )
        requires
            key_item(old(general).actor_type) is Some,
            old(hero).wf(),
        ensures
            all_creatable(old(queue).actors@) ==> all_creatable(final(queue).actors@),
            final(general).actor_type == old(general).actor_type,
            (*final(self), *final(general), env_of(*final(solids), *final(tiles), *final(queue), *final(hero), *final(do_play), *final(events)))
                == old(self).spec_touch_start(*old(general), env_of(*old(solids), *old(tiles), *old(queue), *old(hero), *old(do_play), *old(events))),
            final(hero).wf(),
    {
        let item = match general.actor_type {
            ActorType::KeyRed => InventoryItem::KeyRed,
            ActorType::KeyBlue => InventoryItem::KeyBlue,
            ActorType::KeyPink => InventoryItem::KeyPink,
            _ => InventoryItem::KeyGreen,
        };
        hero.inventory.set(item, events);
        hero.score.add(1000, events);
        queue.push_back(ActorType::Score1000, general.position.x as u16, general.position.y as u16);
        general.is_alive = false;
        assert(env_of(*solids, *tiles, *queue, *hero, *do_play, *events) =~= old(self).spec_touch_start(
            *old(general),
            env_of(*old(solids), *old(tiles), *old(queue), *old(hero), *old(do_play), *old(events)),
        ).2);
    }
}

} // verus!
