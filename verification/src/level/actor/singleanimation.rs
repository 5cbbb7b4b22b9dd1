//! Animations that play once and then vanish: explosions, dust, steam, a
//! burning bomb, a robot falling apart.

use vstd::prelude::*;
use crate::consts::{
    ANIMATION_BOMBFIRE, ANIMATION_EXPLOSION, ANIMATION_ROBOT, OBJECT_DUSTCLOUD, OBJECT_STEAM,
    TILE_HEIGHT, TILE_WIDTH,
};
use super::{all_creatable, dead, sized, spot, ActorData, ActorQueue, ActorType};

verus! {

/// First tile, number of frames, whether it hurts the hero, and what comes
/// after it, for each kind of one-off animation; `None` for other kinds.
pub open spec fn once_look(t: ActorType) -> Option<(usize, usize, bool, Option<ActorType>)> {
    match t {
        ActorType::BombFire => Some((ANIMATION_BOMBFIRE, 6, true, None)),
        ActorType::Explosion => Some((ANIMATION_EXPLOSION, 6, false, None)),
        ActorType::DustCloud => Some((OBJECT_DUSTCLOUD, 5, false, None)),
        ActorType::Steam => Some((OBJECT_STEAM, 5, false, None)),
        ActorType::RobotDisappearing => Some(((ANIMATION_ROBOT + 3) as usize, 7, false, Some(ActorType::Explosion))),
        _ => None,
    }
}

/// An animation that plays once.
#[derive(Debug)]
pub struct SingleAnimation {
    pub tile: usize,
    pub current_frame: usize,
    pub num_frames: usize,
    pub can_hurt_hero: bool,
    pub replaced_by: Option<ActorType>,
}

impl SingleAnimation {
    pub open spec fn wf(self) -> bool {
        &&& self.current_frame < self.num_frames
        &&& (self.replaced_by is None || self.replaced_by == Some(ActorType::Explosion))
    }

    pub open spec fn spec_create(g: ActorData) -> (SingleAnimation, ActorData) {
        let (tile, num_frames, can_hurt_hero, replaced_by) = once_look(g.actor_type).unwrap();
        (
            SingleAnimation { tile, current_frame: 0, num_frames, can_hurt_hero, replaced_by },
            ActorData { is_in_foreground: false, ..sized(g, TILE_WIDTH, TILE_HEIGHT) },
        )
    }

    pub fn create(general: &mut ActorData) -> (s: SingleAnimation)
        requires
            once_look(old(general).actor_type) is Some,
        ensures
            final(general).actor_type == old(general).actor_type,
            (s, *final(general)) == SingleAnimation::spec_create(*old(general)),
            s.wf(),
    {
        general.is_in_foreground = false;
        general.position.w = TILE_WIDTH;
        general.position.h = TILE_HEIGHT;
        let (tile, num_frames, can_hurt_hero, replaced_by): (usize, usize, bool, Option<ActorType>) =
            match general.actor_type {
                ActorType::BombFire => (ANIMATION_BOMBFIRE, 6, true, None),
                ActorType::Explosion => (ANIMATION_EXPLOSION, 6, false, None),
                ActorType::DustCloud => (OBJECT_DUSTCLOUD, 5, false, None),
                ActorType::Steam => (OBJECT_STEAM, 5, false, None),
                _ => (ANIMATION_ROBOT + 3, 7, false, Some(ActorType::Explosion)),
            };
        SingleAnimation { tile, current_frame: 0, num_frames, can_hurt_hero, replaced_by }
    }

    /// One step: the next frame; after the last one the animation is gone,
    /// and what replaces it is queued where it stood.
    pub open spec fn spec_act(self, g: ActorData, queued: Seq<super::ActorQueueItem>) -> (
        SingleAnimation,
        ActorData,
        Seq<super::ActorQueueItem>,
    ) {
        let s = SingleAnimation { current_frame: (self.current_frame + 1) as usize, ..self };
        if s.current_frame == s.num_frames {
            match self.replaced_by {
                Some(t) => (s, dead(g), queued.push(spot(g, t))),
                None => (s, dead(g), queued),
            }
        } else {
            (s, g, queued)
        }
    }

    pub fn act(&mut self, general: &mut ActorData, queue: &mut ActorQueue)
        requires
            old(self).wf(),
        ensures
            all_creatable(old(queue).actors@) ==> all_creatable(final(queue).actors@),
            final(general).actor_type == old(general).actor_type,
            (*final(self), *final(general), final(queue).actors@)
                == old(self).spec_act(*old(general), old(queue).actors@),
            final(general).is_alive ==> final(self).wf(),
    {
        self.current_frame = self.current_frame + 1;
        if self.current_frame == self.num_frames {
            general.is_alive = false;
            match self.replaced_by {
                Some(t) => queue.push_back(t, general.position.x as u16, general.position.y as u16),
                None => {},
            }
        }
    }

    /// Touching a burning bomb hurts.
    pub open spec fn spec_touch_start(self, g: ActorData) -> ActorData {
        if self.can_hurt_hero { ActorData { hurts_hero: true, ..g } } else { g }
    }

    pub fn hero_touch_start(&self, general: &mut ActorData)
        ensures
            final(general).actor_type == old(general).actor_type,
            *final(general) == self.spec_touch_start(*old(general)),
    {
        if self.can_hurt_hero {
            general.hurts_hero = true;
        }
    }

    pub fn hero_touch_end(&self, general: &mut ActorData)
        ensures
            final(general).actor_type == old(general).actor_type,
            *final(general) == (ActorData { hurts_hero: false, ..*old(general) }),
    {
        general.hurts_hero = false;
    }
}

} // verus!
