//! The walking robot that patrols a floor.

use vstd::prelude::*;
use crate::consts::{ANIMATION_ROBOT, HALFTILE_HEIGHT, HALFTILE_WIDTH, TILE_HEIGHT, TILE_WIDTH};
use crate::events::{HorizontalDirection, UserEvent};
use crate::hero::{scored, HeroData};
use crate::level::solids::{solid_at, LevelSolids};
use crate::level::tiles::LevelTiles;
use super::{all_creatable, dead, env_of, moved, sized, spot, ActorData, ActorQueue, ActorType, Env};

verus! {

/// A robot.
#[derive(Debug)]
pub struct Robot {
    pub direction: HorizontalDirection,
    pub tile: usize,
    pub current_frame: usize,
    pub num_frames: usize,
    pub touching_hero: bool,
}

/// How far ahead a walker looks, in half tiles: one to the left, two to
/// the right (its own width).
pub open spec fn look_ahead(d: HorizontalDirection) -> int {
    if d == HorizontalDirection::Left { -1 } else { 2 }
}

impl Robot {
    pub open spec fn wf(self) -> bool {
        &&& self.num_frames == 3
        &&& self.current_frame < 3
        &&& self.direction != HorizontalDirection::Center
    }

    pub open spec fn spec_create(g: ActorData) -> (Robot, ActorData) {
        (
            Robot { direction: HorizontalDirection::Left, tile: ANIMATION_ROBOT, current_frame: 0, num_frames: 3, touching_hero: false },
            ActorData { is_in_foreground: true, ..sized(g, TILE_WIDTH, TILE_HEIGHT) },
        )
    }

    pub fn create(general: &mut ActorData) -> (s: Robot)
        ensures
            final(general).actor_type == old(general).actor_type,
            (s, *final(general)) == Robot::spec_create(*old(general)),
            s.wf(),
    {
        general.position.w = TILE_WIDTH;
        general.position.h = TILE_HEIGHT;
        general.is_in_foreground = true;
        Robot { direction: HorizontalDirection::Left, tile: ANIMATION_ROBOT, current_frame: 0, num_frames: 3, touching_hero: false }
    }

    pub fn hero_touch_start(&mut self, general: &mut ActorData)
        ensures
            final(general).actor_type == old(general).actor_type,
            *final(general) == (ActorData { hurts_hero: true, ..*old(general) }),
            *final(self) == (Robot { touching_hero: true, ..*old(self) }),
    {
        general.hurts_hero = true;
        self.touching_hero = true;
    }

    pub fn hero_touch_end(&mut self, general: &mut ActorData)
        ensures
            final(general).actor_type == old(general).actor_type,
            *final(general) == (ActorData { hurts_hero: false, ..*old(general) }),
            *final(self) == (Robot { touching_hero: false, ..*old(self) }),
    {
        general.hurts_hero = false;
        self.touching_hero = false;
    }

    /// The tiles the robot looks at lie in the level.
    pub open spec fn act_ok(self, g: ActorData) -> bool {
        let ahead = g.position.x + look_ahead(self.direction) * 8;
        &&& 0 <= g.position.x && g.position.x / 16 < 128
        &&& 0 <= g.position.y && g.position.y / 16 + 1 < 90
        &&& 0 <= ahead && ahead / 16 < 128
    }

    /// One step: the robot falls half a tile unless it stands on a solid
    /// tile; standing, it takes a half-tile step every third step, ahead if
    /// the place ahead is free with floor below, else it turns around and
    /// steps back.
    pub open spec fn spec_act(self, g: ActorData, solids: Seq<bool>) -> (Robot, ActorData) {
        let frame = ((self.current_frame + 1) % 3) as usize;
        let s = Robot { current_frame: frame, ..self };
        let x = g.position.x as int;
        let y = g.position.y as int;
        if !solid_at(solids, x / 16, y / 16 + 1) {
            (s, moved(g, x, y + 8))
        } else if frame == 0 {
            let ahead = (x + look_ahead(self.direction) * 8) / 16;
            let step = if self.direction == HorizontalDirection::Left { -8int } else { 8int };
            if !solid_at(solids, ahead, y / 16) && solid_at(solids, ahead, y / 16 + 1) {
                (s, moved(g, x + step, y))
            } else {
                let turned = if self.direction == HorizontalDirection::Left { HorizontalDirection::Right } else { HorizontalDirection::Left };
                (Robot { direction: turned, ..s }, moved(g, x - step, y))
            }
        } else {
            (s, g)
        }
    }

    pub fn act(&mut self, general: &mut ActorData, solids: &LevelSolids)
        requires
            old(self).wf(),
            old(self).act_ok(*old(general)),
        ensures
            final(general).actor_type == old(general).actor_type,
            (*final(self), *final(general)) == old(self).spec_act(*old(general), solids@),
            final(self).wf(),
    {
        self.current_frame = (self.current_frame + 1) % self.num_frames;
        let x = general.position.x;
        let y = general.position.y as usize / 16;
        if !solids.get(x as usize / 16, y + 1) {
            general.position.y = general.position.y + HALFTILE_HEIGHT as i16;
        } else if self.current_frame == 0 {
            let ahead: i16 = if self.direction == HorizontalDirection::Left { x - 8 } else { x + 16 };
            let tx = ahead as usize / 16;
            let step: i16 = if self.direction == HorizontalDirection::Left { -8 } else { 8 };
            if !solids.get(tx, y) && solids.get(tx, (general.position.y as usize + 16) / 16) {
                general.position.x = x + step;
            } else {
                self.direction = if self.direction == HorizontalDirection::Left {
                    HorizontalDirection::Right
                } else {
                    HorizontalDirection::Left
                };
                general.position.x = x - step;
            }
        }
    }

    /// A shot destroys the robot for 100 points.
    pub open spec fn spec_shot(self, g: ActorData, e: Env) -> (Robot, ActorData, Env) {
        let (s, g1) = if self.touching_hero {
            (Robot { touching_hero: false, ..self }, ActorData { hurts_hero: false, ..g })
        } else {
            (self, g)
        };
        (
            s,
            dead(g1),
            Env {
                hero: scored(e.hero, 100),
                events: e.events.push(UserEvent::HeroScored),
                queued: e.queued.push(spot(g, ActorType::RobotDisappearing)),
                ..e
            },
        )
    }

    pub fn shot(
        &mut self,
        general: &mut ActorData,
        solids: &mut LevelSolids,
        tiles: &mut LevelTiles,
        queue: &mut ActorQueue,
        hero: &mut HeroData,
        do_play: &mut bool,
        events: &mut Vec<UserEvent>,
    )
        requires
            old(hero).wf(),
        ensures
            old(self).wf() ==> final(self).wf(),
            all_creatable(old(queue).actors@) ==> all_creatable(final(queue).actors@),
            final(general).actor_type == old(general).actor_type,
            (*final(self), *final(general), env_of(*final(solids), *final(tiles), *final(queue), *final(hero), *final(do_play), *final(events)))
                == old(self).spec_shot(*old(general), env_of(*old(solids), *old(tiles), *old(queue), *old(hero), *old(do_play), *old(events))),
            final(hero).wf(),
    {
        hero.score.add(100, events);
        if self.touching_hero {
            general.hurts_hero = false;
            self.touching_hero = false;
        }
        queue.push_back(ActorType::RobotDisappearing, general.position.x as u16, general.position.y as u16);
        general.is_alive = false;
        assert(env_of(*solids, *tiles, *queue, *hero, *do_play, *events) =~= old(self).spec_shot(
            *old(general),
            env_of(*old(solids), *old(tiles), *old(queue), *old(hero), *old(do_play), *old(events)),
        ).2);
    }
}

} // verus!
