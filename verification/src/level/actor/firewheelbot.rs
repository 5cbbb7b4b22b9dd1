//! The fire wheel bot: it rolls along the ground, flames on and off, and
//! takes two shots while its fire is out to destroy.

use vstd::prelude::*;
use crate::consts::{ANIMATION_FIREWHEEL_OFF, ANIMATION_FIREWHEEL_ON, HALFTILE_HEIGHT, HALFTILE_WIDTH, TILE_HEIGHT, TILE_WIDTH};
use crate::events::{HorizontalDirection, UserEvent};
use crate::geometry::Geometry;
use crate::hero::{scored, HeroData};
use crate::level::solids::{ground_push, scannable, LevelSolids};
use crate::level::tiles::LevelTiles;
use super::{all_creatable, dead, env_of, firework, sized, ActorData, ActorQueue, ActorQueueItem, ActorType, Env};

verus! {

/// Steps between the fire going on and off.
pub const FIREWHEEL_PERIOD: usize = 50;

/// A fire wheel bot.
#[derive(Debug)]
pub struct FireWheelBot {
    pub direction: HorizontalDirection,
    pub tile: usize,
    pub current_frame: usize,
    pub num_frames: usize,
    pub was_shot: usize,
    pub fire_is_on: bool,
    pub counter: usize,
    pub touching_hero: bool,
}

/// How far the bot rolls in a step: a quarter tile, to its side.
pub open spec fn roll(d: HorizontalDirection) -> int {
    if d == HorizontalDirection::Left { -4 } else { 4 }
}

impl FireWheelBot {
    pub open spec fn wf(self) -> bool {
        &&& self.num_frames == 4
        &&& self.current_frame < 4
        &&& self.was_shot <= 2
        &&& self.counter < FIREWHEEL_PERIOD
        &&& self.direction != HorizontalDirection::Center
    }

    pub open spec fn spec_create(g: ActorData) -> (FireWheelBot, ActorData) {
        (
            FireWheelBot {
                direction: HorizontalDirection::Left,
                tile: ANIMATION_FIREWHEEL_OFF,
                current_frame: 0,
                num_frames: 4,
                was_shot: 0,
                fire_is_on: false,
                counter: 0,
                touching_hero: false,
            },
            sized(g, TILE_WIDTH, TILE_HEIGHT),
        )
    }

    pub fn create(general: &mut ActorData) -> (s: FireWheelBot)
        ensures
            final(general).actor_type == old(general).actor_type,
            (s, *final(general)) == FireWheelBot::spec_create(*old(general)),
            s.wf(),
    {
        general.position.w = TILE_WIDTH;
        general.position.h = TILE_HEIGHT;
        FireWheelBot {
            direction: HorizontalDirection::Left,
            tile: ANIMATION_FIREWHEEL_OFF,
            counter: 0,
            touching_hero: false,
            current_frame: 0,
            num_frames: 4,
            was_shot: 0,
            fire_is_on: false,
        }
    }

    /// Touching a bot that still stands hurts.
    pub open spec fn spec_touch_start(self, g: ActorData) -> (FireWheelBot, ActorData) {
        if self.was_shot < 2 {
            (FireWheelBot { touching_hero: true, ..self }, ActorData { hurts_hero: true, ..g })
        } else {
            (self, g)
        }
    }

    pub fn hero_touch_start(&mut self, general: &mut ActorData)
        ensures
            old(self).wf() ==> final(self).wf(),
            old(self).act_ok(*old(general)) ==> final(self).act_ok(*final(general)),
            final(general).actor_type == old(general).actor_type,
            (*final(self), *final(general)) == old(self).spec_touch_start(*old(general)),
    {
        if self.was_shot < 2 {
            self.touching_hero = true;
            general.hurts_hero = true;
        }
    }

    pub fn hero_touch_end(&mut self, general: &mut ActorData)
        ensures
            final(general).actor_type == old(general).actor_type,
            *final(general) == (ActorData { hurts_hero: false, ..*old(general) }),
            *final(self) == (FireWheelBot { touching_hero: false, ..*old(self) }),
    {
        self.touching_hero = false;
        general.hurts_hero = false;
    }

    /// The ground the bot rolls on lies in the level, and the places of its
    /// explosion and steam fit the range of a position.
    pub open spec fn act_ok(self, g: ActorData) -> bool {
        let p = g.position;
        &&& 0 <= p.x
        &&& p.x as u16 + 8 <= u16::MAX
        &&& self.was_shot == 1 ==> p.y as u16 >= 16
        &&& self.was_shot != 2 ==> {
            &&& p.x + roll(self.direction) <= i16::MAX
            &&& p.y + p.h <= i16::MAX
            &&& scannable(Geometry { x: (p.x + roll(self.direction)) as i16, ..p })
            &&& scannable(Geometry { x: (p.x + roll(self.direction)) as i16, y: (p.y + p.h) as i16, h: HALFTILE_HEIGHT, ..p })
        }
    }

    /// One step. A bot shot twice explodes for 2500 points. Else its wheel
    /// turns every other step, its fire goes on or off every
    /// [`FIREWHEEL_PERIOD`] steps, and it rolls a quarter tile along the
    /// ground, turning around where it cannot; a bot shot once lets off
    /// steam.
    pub open spec fn spec_act(self, g: ActorData, e: Env) -> (FireWheelBot, ActorData, Env) {
        let px = g.position.x as u16;
        let py = g.position.y as u16;
        if self.was_shot == 2 {
            (
                self,
                dead(g),
                Env {
                    queued: e.queued.push(ActorQueueItem { actor_type: ActorType::Explosion, x: (px + 8) as u16, y: py })
                        + firework(px, py, 8),
                    hero: scored(e.hero, 2500),
                    events: e.events.push(UserEvent::HeroScored),
                    ..e
                },
            )
        } else {
            let (s, g1, q1) = self.spec_roll(g, e.solids, e.queued);
            (s, g1, Env { queued: q1, ..e })
        }
    }

    /// The bot's step while it stands (see [`FireWheelBot::spec_act`]): its
    /// state, its place and the actors queued after it.
    pub open spec fn spec_roll(self, g: ActorData, solids: Seq<bool>, queued: Seq<ActorQueueItem>) -> (
        FireWheelBot,
        ActorData,
        Seq<ActorQueueItem>,
    ) {
        let t = self.spec_tick();
        let (p, ok) = ground_push(solids, g.position, roll(self.direction), HALFTILE_HEIGHT as int);
        let direction = if ok {
            self.direction
        } else if self.direction == HorizontalDirection::Left {
            HorizontalDirection::Right
        } else {
            HorizontalDirection::Left
        };
        let s = FireWheelBot { direction, ..t };
        let g1 = ActorData { position: p, ..g };
        if self.was_shot == 1 && t.current_frame == 0 {
            (
                s,
                g1,
                queued.push(ActorQueueItem { actor_type: ActorType::Steam, x: (p.x as u16 + 8) as u16, y: (p.y as u16 - 16) as u16 }),
            )
        } else {
            (s, g1, queued)
        }
    }

    /// The bot's clock: the wheel turns every other step, and the fire
    /// goes on or off every [`FIREWHEEL_PERIOD`] steps.
    pub open spec fn spec_tick(self) -> FireWheelBot {
        let counter = self.counter + 1;
        let frame = if counter % 2 == 1 { ((self.current_frame + 1) % 4) as usize } else { self.current_frame };
        if counter == FIREWHEEL_PERIOD {
            FireWheelBot {
                counter: 0,
                current_frame: frame,
                fire_is_on: !self.fire_is_on,
                tile: if !self.fire_is_on { ANIMATION_FIREWHEEL_ON } else { ANIMATION_FIREWHEEL_OFF },
                ..self
            }
        } else {
            FireWheelBot { counter: counter as usize, current_frame: frame, ..self }
        }
    }

    fn tick(&mut self)
        requires
            old(self).wf(),
        ensures
            *final(self) == old(self).spec_tick(),
            final(self).wf(),
    {
        self.counter = self.counter + 1;
        if self.counter % 2 == 1 {
            self.current_frame = (self.current_frame + 1) % self.num_frames;
        }
        if self.counter == FIREWHEEL_PERIOD {
            self.counter = 0;
            self.fire_is_on = !self.fire_is_on;
            if self.fire_is_on {
                self.tile = ANIMATION_FIREWHEEL_ON;
            } else {
                self.tile = ANIMATION_FIREWHEEL_OFF;
            }
        }
    }

    fn roll_on(&mut self, general: &mut ActorData, solids: &LevelSolids, queue: &mut ActorQueue)
        requires
            old(self).wf(),
            old(self).was_shot != 2,
            old(self).act_ok(*old(general)),
        ensures
            all_creatable(old(queue).actors@) ==> all_creatable(final(queue).actors@),
            (*final(self), *final(general), final(queue).actors@) == old(self).spec_roll(*old(general), solids@, old(queue).actors@),
            final(self).wf(),
    {
        self.tick();
        let offset: i16 = if self.direction == HorizontalDirection::Left { -4 } else { 4 };
        if !solids.push_rect_standing_on_ground(&mut general.position, offset, HALFTILE_HEIGHT as u8) {
            self.direction = if self.direction == HorizontalDirection::Left {
                HorizontalDirection::Right
            } else {
                HorizontalDirection::Left
            };
        }
        if self.was_shot == 1 {
            if self.current_frame == 0 {
                queue.push_back(ActorType::Steam, general.position.x as u16 + HALFTILE_WIDTH, general.position.y as u16 - TILE_HEIGHT);
            }
        }
    }

    pub fn act(
        &mut self,
        general: &mut ActorData,
        solids: &mut LevelSolids,
        tiles: &mut LevelTiles,
        queue: &mut ActorQueue,
        hero: &mut HeroData,
        do_play: &mut bool,
        events: &mut Vec<UserEvent>,
    )
        requires
            old(self).wf(),
            old(self).act_ok(*old(general)),
            old(hero).wf(),
        ensures
            all_creatable(old(queue).actors@) ==> all_creatable(final(queue).actors@),
            final(general).actor_type == old(general).actor_type,
            (*final(self), *final(general), env_of(*final(solids), *final(tiles), *final(queue), *final(hero), *final(do_play), *final(events)))
                == old(self).spec_act(*old(general), env_of(*old(solids), *old(tiles), *old(queue), *old(hero), *old(do_play), *old(events))),
            final(general).is_alive ==> final(self).wf(),
            final(hero).wf(),
    {
        if self.was_shot == 2 {
            general.is_alive = false;
            queue.push_back(ActorType::Explosion, general.position.x as u16 + HALFTILE_WIDTH, general.position.y as u16);
            queue.push_particle_firework(general.position.x as u16, general.position.y as u16, 8);
            hero.score.add(2500, events);
        } else {
            self.roll_on(general, solids, queue);
        }
        assert(env_of(*solids, *tiles, *queue, *hero, *do_play, *events) =~= old(self).spec_act(
            *old(general),
            env_of(*old(solids), *old(tiles), *old(queue), *old(hero), *old(do_play), *old(events)),
        ).2);
    }

    /// A shot counts while the fire is out, up to two; the second one ends
    /// its touch of the hero.
    pub open spec fn spec_shot(self, g: ActorData) -> (FireWheelBot, ActorData) {
        if !self.fire_is_on {
            let (s, g1) = if self.was_shot == 1 && self.touching_hero {
                (FireWheelBot { touching_hero: false, ..self }, ActorData { hurts_hero: false, ..g })
            } else {
                (self, g)
            };
            if s.was_shot != 2 { (FireWheelBot { was_shot: (s.was_shot + 1) as usize, ..s }, g1) } else { (s, g1) }
        } else {
            (self, g)
        }
    }

    pub fn shot(&mut self, general: &mut ActorData)
        requires
            old(self).wf(),
        ensures
            final(general).actor_type == old(general).actor_type,
            (*final(self), *final(general)) == old(self).spec_shot(*old(general)),
            final(self).wf(),
    {
        if !self.fire_is_on {
            if self.was_shot == 1 && self.touching_hero {
                general.hurts_hero = false;
                self.touching_hero = false;
            }
            if self.was_shot != 2 {
                self.was_shot = self.was_shot + 1;
            }
        }
    }
}

} // verus!
