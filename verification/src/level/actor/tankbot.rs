//! The tank bot: it drives along a floor, fires when it turns around, and
//! takes two shots to destroy.

use vstd::prelude::*;
use crate::consts::{ANIMATION_CARBOT, HALFTILE_HEIGHT, HALFTILE_WIDTH, TILE_HEIGHT, TILE_WIDTH};
use crate::events::{HorizontalDirection, UserEvent};
use crate::hero::{scored, HeroData};
use crate::level::solids::{solid_at, LevelSolids};
use crate::level::tiles::LevelTiles;
use super::{all_creatable, 
    dead, env_of, firework, moved, sized, ActorData, ActorQueue, ActorQueueItem, ActorType, Env,
};

verus! {

/// How far a tank bot drives in one step: 70% of half a tile, cut to whole
/// pixels.
pub const TANKBOT_STEP: i16 = 5;

/// How far ahead a tank bot looks, in half tiles: one to the left, four to
/// the right (its own width).
pub open spec fn tank_look_ahead(d: HorizontalDirection) -> int {
    if d == HorizontalDirection::Left { -1 } else { 4 }
}

/// A tank bot.
#[derive(Debug)]
pub struct TankBot {
    pub orientation: HorizontalDirection,
    pub tile: usize,
    pub current_frame: usize,
    pub num_frames: usize,
    pub was_shot: usize,
    pub touching_hero: bool,
}

impl TankBot {
    pub open spec fn wf(self) -> bool {
        &&& self.num_frames == 4
        &&& self.current_frame < 4
        &&& self.was_shot <= 2
        &&& self.orientation != HorizontalDirection::Center
        &&& self.tile == if self.orientation == HorizontalDirection::Left { ANIMATION_CARBOT } else { (ANIMATION_CARBOT + 4) as usize }
    }

    pub open spec fn spec_create(g: ActorData) -> (TankBot, ActorData) {
        (
            TankBot {
                orientation: HorizontalDirection::Left,
                tile: ANIMATION_CARBOT,
                current_frame: 0,
                num_frames: 4,
                was_shot: 0,
                touching_hero: false,
            },
            ActorData { is_in_foreground: true, ..sized(g, (2 * TILE_WIDTH) as u16, TILE_HEIGHT) },
        )
    }

    pub fn create(general: &mut ActorData) -> (s: TankBot)
        ensures
            final(general).actor_type == old(general).actor_type,
            (s, *final(general)) == TankBot::spec_create(*old(general)),
            s.wf(),
    {
        general.position.w = TILE_WIDTH * 2;
        general.position.h = TILE_HEIGHT;
        general.is_in_foreground = true;
        TankBot {
            orientation: HorizontalDirection::Left,
            tile: ANIMATION_CARBOT,
            current_frame: 0,
            num_frames: 4,
            was_shot: 0,
            touching_hero: false,
        }
    }

    pub fn hero_touch_start(&mut self, general: &mut ActorData)
        ensures
            final(general).actor_type == old(general).actor_type,
            *final(general) == (ActorData { hurts_hero: true, ..*old(general) }),
            *final(self) == (TankBot { touching_hero: true, ..*old(self) }),
    {
        general.hurts_hero = true;
        self.touching_hero = true;
    }

    pub fn hero_touch_end(&mut self, general: &mut ActorData)
        ensures
            final(general).actor_type == old(general).actor_type,
            *final(general) == (ActorData { hurts_hero: false, ..*old(general) }),
            *final(self) == (TankBot { touching_hero: false, ..*old(self) }),
    {
        general.hurts_hero = false;
        self.touching_hero = false;
    }

    /// What a step needs of the bot alone: a bot shot twice leaves its
    /// explosion half a tile right of a place that fits the range of a
    /// position.
    pub open spec fn act_ok(self, g: ActorData) -> bool {
        self.was_shot == 2 ==> (g.position.x as u16) + 8 <= u16::MAX
    }

    /// The tests of [`TankBot::spec_drive`] look at tiles inside the level,
    /// in the branches it takes: the tile below the bot, and right of it
    /// where that one is solid; where it does not fall, the tile ahead and
    /// the one below that; and where it turns round and fires, its shot
    /// starts below the top of the level.
    pub open spec fn drive_ok(self, g: ActorData, solids: Seq<bool>) -> bool {
        let x = g.position.x as int;
        let y = g.position.y as int;
        let below = solid_at(solids, x / 16, y / 16 + 1);
        let falls = below && !solid_at(solids, x / 16 + 1, y / 16 + 1);
        let a = x + tank_look_ahead(self.orientation) * 8;
        &&& 0 <= x && x / 16 < 128
        &&& 0 <= y && y / 16 + 1 < 90
        &&& below ==> x / 16 + 1 < 128
        &&& !falls ==> {
            &&& 0 <= a && a / 16 < 128
            &&& !(!solid_at(solids, a / 16, y / 16) && solid_at(solids, a / 16, y / 16 + 1)) ==> y >= 6
        }
    }

    /// What a step needs of the level: a bot that is not destroyed drives
    /// with [`TankBot::drive_ok`], and where a damaged bot lets off steam,
    /// the steam starts a tile above its new place, below the top of the
    /// level, and half a tile right of it, within the range of a position.
    pub open spec fn env_ok(self, g: ActorData, e: Env) -> bool {
        self.was_shot != 2 ==> {
            let g1 = self.spec_drive(g, e.solids, e.queued).1;
            &&& self.drive_ok(g, e.solids)
            &&& self.was_shot == 1 && (self.current_frame + 1) % 4 == 0 ==> {
                &&& g1.position.y >= 16
                &&& (g1.position.x as u16) + 8 <= u16::MAX
            }
        }
    }

    /// One step. A bot shot twice explodes for 2500 points. Otherwise it
    /// falls half a tile while its left half stands on solid ground and its
    /// right half does not; else it drives ahead if the place ahead is free
    /// with floor below, or turns around, steps back and fires the way it
    /// now faces. A bot shot once lets off steam every fourth step.
    pub open spec fn spec_act(self, g: ActorData, e: Env) -> (TankBot, ActorData, Env) {
        let frame = ((self.current_frame + 1) % 4) as usize;
        let s = TankBot { current_frame: frame, ..self };
        let x = g.position.x as int;
        let y = g.position.y as int;
        let (s1, g1, e1) = if self.was_shot == 2 {
            let px = g.position.x as u16;
            let py = g.position.y as u16;
            (
                s,
                dead(g),
                Env {
                    queued: e.queued.push(ActorQueueItem { actor_type: ActorType::Explosion, x: (px + 8) as u16, y: py })
                        + firework(px, py, 4),
                    hero: scored(e.hero, 2500),
                    events: e.events.push(UserEvent::HeroScored),
                    ..e
                },
            )
        } else {
            let (s1, g1, q1) = s.spec_drive(g, e.solids, e.queued);
            (s1, g1, Env { queued: q1, ..e })
        };
        if self.was_shot == 1 && frame == 0 {
            (
                s1,
                g1,
                Env {
                    queued: e1.queued.push(ActorQueueItem {
                        actor_type: ActorType::Steam,
                        x: (g1.position.x as u16 + 8) as u16,
                        y: (g1.position.y as u16 - 16) as u16,
                    }),
                    ..e1
                },
            )
        } else {
            (s1, g1, e1)
        }
    }

    /// The bot, not destroyed, falls or drives on (see [`TankBot::spec_act`]):
    /// its state, its place, and the actors queued after it.
    pub open spec fn spec_drive(self, g: ActorData, solids: Seq<bool>, queued: Seq<ActorQueueItem>) -> (
        TankBot,
        ActorData,
        Seq<ActorQueueItem>,
    ) {
        let x = g.position.x as int;
        let y = g.position.y as int;
        if solid_at(solids, x / 16, y / 16 + 1) && !solid_at(solids, x / 16 + 1, y / 16 + 1) {
            (self, moved(g, x, y + 8), queued)
        } else {
            let ahead = (x + tank_look_ahead(self.orientation) * 8) / 16;
            if !solid_at(solids, ahead, y / 16) && solid_at(solids, ahead, y / 16 + 1) {
                let step = if self.orientation == HorizontalDirection::Left { -5int } else { 5int };
                (self, moved(g, x + step, y), queued)
            } else if self.orientation == HorizontalDirection::Left {
                let g1 = moved(g, x + 8, y);
                (
                    TankBot { orientation: HorizontalDirection::Right, tile: (self.tile + 4) as usize, ..self },
                    g1,
                    queued.push(ActorQueueItem {
                        actor_type: ActorType::HostileShotRight,
                        x: g1.position.x as u16,
                        y: (g1.position.y as u16 - 6) as u16,
                    }),
                )
            } else {
                let g1 = moved(g, x - 8, y);
                (
                    TankBot { orientation: HorizontalDirection::Left, tile: (self.tile - 4) as usize, ..self },
                    g1,
                    queued.push(ActorQueueItem {
                        actor_type: ActorType::HostileShotLeft,
                        x: g1.position.x as u16,
                        y: (g1.position.y as u16 - 6) as u16,
                    }),
                )
            }
        }
    }

    fn drive(&mut self, general: &mut ActorData, solids: &LevelSolids, queue: &mut ActorQueue)
        requires
            old(self).wf(),
            old(self).was_shot != 2,
            old(self).drive_ok(*old(general), solids@),
        ensures
            all_creatable(old(queue).actors@) ==> all_creatable(final(queue).actors@),
            (*final(self), *final(general), final(queue).actors@) == old(self).spec_drive(*old(general), solids@, old(queue).actors@),
            final(self).wf(),
            old(general).position.x - 8 <= final(general).position.x <= old(general).position.x + 8,
            old(general).position.y <= final(general).position.y <= old(general).position.y + 8,
    {
        let x = general.position.x;
        let ty = general.position.y as usize / 16;
        if solids.get(x as usize / 16, ty + 1) && !solids.get(x as usize / 16 + 1, ty + 1) {
            general.position.y = general.position.y + HALFTILE_HEIGHT as i16;
        } else {
            let ahead: i16 = if self.orientation == HorizontalDirection::Left { x - 8 } else { x + 32 };
            let tx = ahead as usize / 16;
            if !solids.get(tx, ty) && solids.get(tx, (general.position.y as usize + 16) / 16) {
                if self.orientation == HorizontalDirection::Left {
                    general.position.x = x - TANKBOT_STEP;
                } else {
                    general.position.x = x + TANKBOT_STEP;
                }
            } else if self.orientation == HorizontalDirection::Left {
                self.orientation = HorizontalDirection::Right;
                general.position.x = x + 8;
                self.tile = self.tile + 4;
                queue.push_back(ActorType::HostileShotRight, general.position.x as u16, general.position.y as u16 - 6);
            } else {
                self.orientation = HorizontalDirection::Left;
                general.position.x = x - 8;
                self.tile = self.tile - 4;
                queue.push_back(ActorType::HostileShotLeft, general.position.x as u16, general.position.y as u16 - 6);
            }
        }
    }

    #[verifier::rlimit(100)]
    pub fn act(
        &mut self,
        general: &mut ActorData,
        solids: &mut LevelSolids,
        tiles: &mut LevelTiles,
        queue: &mut ActorQueue,
        hero: &mut HeroData,
        do_play: &mut bool,
        events: &mut Vec<UserEvent>,
    )
        requires
            old(self).wf(),
            old(self).act_ok(*old(general)),
            old(self).env_ok(*old(general), env_of(*old(solids), *old(tiles), *old(queue), *old(hero), *old(do_play), *old(events))),
            old(hero).wf(),
        ensures
            all_creatable(old(queue).actors@) ==> all_creatable(final(queue).actors@),
            final(general).actor_type == old(general).actor_type,
            (*final(self), *final(general), env_of(*final(solids), *final(tiles), *final(queue), *final(hero), *final(do_play), *final(events)))
                == old(self).spec_act(*old(general), env_of(*old(solids), *old(tiles), *old(queue), *old(hero), *old(do_play), *old(events))),
            final(self).wf(),
            final(hero).wf(),
    {
        self.current_frame = (self.current_frame + 1) % self.num_frames;
        if self.was_shot == 2 {
            general.is_alive = false;
            queue.push_back(ActorType::Explosion, general.position.x as u16 + HALFTILE_WIDTH, general.position.y as u16);
            queue.push_particle_firework(general.position.x as u16, general.position.y as u16, 4);
            hero.score.add(2500, events);
        } else {
            let ghost before = *self;
            assert(before.spec_drive(*general, solids@, queue.actors@).1
                == old(self).spec_drive(*old(general), solids@, old(queue).actors@).1);
            self.drive(general, solids, queue);
        }
        if self.was_shot == 1 {
            if self.current_frame == 0 {
                queue.push_back(ActorType::Steam, general.position.x as u16 + HALFTILE_WIDTH, general.position.y as u16 - TILE_HEIGHT);
            }
        }
        assert(env_of(*solids, *tiles, *queue, *hero, *do_play, *events) =~= old(self).spec_act(
            *old(general),
            env_of(*old(solids), *old(tiles), *old(queue), *old(hero), *old(do_play), *old(events)),
        ).2);
    }

    /// A shot counts against the bot, up to two; the second one ends its
    /// touch of the hero.
    pub open spec fn spec_shot(self, g: ActorData) -> (TankBot, ActorData) {
        let (s, g1) = if self.was_shot == 1 && self.touching_hero {
            (TankBot { touching_hero: false, ..self }, ActorData { hurts_hero: false, ..g })
        } else {
            (self, g)
        };
        if s.was_shot != 2 { (TankBot { was_shot: (s.was_shot + 1) as usize, ..s }, g1) } else { (s, g1) }
    }

    pub fn shot(&mut self, general: &mut ActorData)
        requires
            old(self).wf(),
        ensures
            final(general).actor_type == old(general).actor_type,
            (*final(self), *final(general)) == old(self).spec_shot(*old(general)),
            final(self).wf(),
    {
        if self.was_shot == 1 && self.touching_hero {
            general.hurts_hero = false;
            self.touching_hero = false;
        }
        if self.was_shot != 2 {
            self.was_shot = self.was_shot + 1;
        }
    }
}

} // verus!
