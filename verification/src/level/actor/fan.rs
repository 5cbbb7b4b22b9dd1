//! Fans that blow the hero away; a shot makes them run down.

use vstd::prelude::*;
use crate::consts::{ANIMATION_FAN, TILE_HEIGHT, TILE_WIDTH};
use crate::events::UserEvent;
use crate::geometry::Geometry;
use crate::hero::{placed, pushed, shifted_h, HeroData};
use crate::level::solids::{scannable, LevelSolids};
use crate::level::tiles::LevelTiles;
use super::{all_creatable, env_of, moved, spot, ActorData, ActorQueue, ActorType, Env};

verus! {

/// How long a fan runs on after a shot, and the value of one running at
/// full speed.
pub const FAN_RUNNING: usize = 10;

/// The way a fan blows: -1 to the left, 1 to the right.
pub open spec fn blow_direction(t: ActorType) -> int {
    if t == ActorType::FanLeft { -1 } else { 1 }
}

/// A fan.
#[derive(Debug)]
pub struct Fan {
    pub tile: usize,
    pub current_frame: usize,
    pub num_frames: usize,
    pub running: usize,
}

impl Fan {
    pub open spec fn wf(self) -> bool {
        self.num_frames == 4 && self.current_frame < 4 && self.running <= FAN_RUNNING
    }

    /// The fan stands on the tile below its place.
    pub open spec fn spec_create(g: ActorData) -> (Fan, ActorData) {
        (
            Fan { tile: ANIMATION_FAN, current_frame: 0, num_frames: 4, running: FAN_RUNNING },
            ActorData {
                position: Geometry { y: (g.position.y - 16) as i16, w: TILE_WIDTH, h: (2 * TILE_HEIGHT) as u16, ..g.position },
                ..g
            },
        )
    }

    pub open spec fn create_ok(g: ActorData) -> bool {
        g.position.y - 16 >= i16::MIN
    }

    pub fn create(general: &mut ActorData) -> (s: Fan)
        requires
            Fan::create_ok(*old(general)),
        ensures
            final(general).actor_type == old(general).actor_type,
            (s, *final(general)) == Fan::spec_create(*old(general)),
            s.wf(),
    {
        general.position.y = general.position.y - TILE_HEIGHT as i16;
        general.position.w = TILE_WIDTH;
        general.position.h = TILE_HEIGHT * 2;
        Fan { tile: ANIMATION_FAN, current_frame: 0, num_frames: 4, running: FAN_RUNNING }
    }

    /// The hero is in the fan's wind: level with it, on the side it blows
    /// to (or right at it), less than four tiles away.
    pub open spec fn blows_at(g: ActorData, h: Geometry) -> bool {
        let dir = blow_direction(g.actor_type);
        let hd = h.spec_horizontal_distance(g.position);
        let d = if hd == 0 { 8 * dir } else { hd };
        &&& h.spec_overlaps_vertically(g.position)
        &&& !((dir > 0 && hd > 0) || (dir < 0 && hd < 0))
        &&& -64 < d < 64
    }

    /// Where a running fan blows the hero, the way lies in the level.
    pub open spec fn env_ok(self, g: ActorData, e: Env) -> bool {
        (self.running == FAN_RUNNING && Fan::blows_at(g, e.hero.position)) ==> {
            &&& scannable(e.hero.position)
            &&& scannable(shifted_h(e.hero.position, blow_direction(g.actor_type) * 16))
        }
    }

    /// One step: the blades turn at a pace set by how fast the fan runs; a
    /// fan running down slows to a stop; a fan at full speed blows the hero
    /// in its wind a tile away, as far as the hero is free to go.
    pub open spec fn spec_act(self, g: ActorData, e: Env) -> (Fan, ActorData, Env) {
        let r = self.running;
        let step: int = if r == 1 || r == 5 || r == 8 || r == 10 { 1 } else { 0 };
        let s = Fan { current_frame: ((self.current_frame + step) % 4) as usize, ..self };
        if 0 < r < FAN_RUNNING {
            (Fan { running: (r - 1) as usize, ..s }, g, e)
        } else if r == FAN_RUNNING && Fan::blows_at(g, e.hero.position) {
            let (p, m) = pushed(e.solids, e.hero.position, blow_direction(g.actor_type) * 16, false);
            (s, g, Env { hero: placed(e.hero, p), events: if m { e.events.push(UserEvent::HeroMoved) } else { e.events }, ..e })
        } else {
            (s, g, e)
        }
    }

    pub fn act(
        &mut self,
        general: &mut ActorData,
        solids: &mut LevelSolids,
        tiles: &mut LevelTiles,
        queue: &mut ActorQueue,
        hero: &mut HeroData,
        do_play: &mut bool,
        events: &mut Vec<UserEvent>,
    )
        requires
            old(self).wf(),
            old(general).actor_type == ActorType::FanLeft || old(general).actor_type == ActorType::FanRight,
            old(self).env_ok(*old(general), env_of(*old(solids), *old(tiles), *old(queue), *old(hero), *old(do_play), *old(events))),
            old(hero).wf(),
        ensures
            all_creatable(old(queue).actors@) ==> all_creatable(final(queue).actors@),
            final(general).actor_type == old(general).actor_type,
            (*final(self), *final(general), env_of(*final(solids), *final(tiles), *final(queue), *final(hero), *final(do_play), *final(events)))
                == old(self).spec_act(*old(general), env_of(*old(solids), *old(tiles), *old(queue), *old(hero), *old(do_play), *old(events))),
            final(self).wf(),
            final(hero).wf(),
    {
        let r = self.running;
        if r == 1 || r == 5 || r == 8 || r == 10 {
            self.current_frame = self.current_frame + 1;
        }
        self.current_frame = self.current_frame % self.num_frames;
        if self.running < FAN_RUNNING && self.running > 0 {
            self.running = self.running - 1;
        } else if self.running == FAN_RUNNING {
            if hero.position.geometry.overlaps_vertically(general.position) {
                let mut hdistance = hero.position.geometry.horizontal_distance(general.position);
                let fan_direction: i32 = if general.actor_type == ActorType::FanLeft { -1 } else { 1 };
                if !((fan_direction > 0 && hdistance > 0) || (fan_direction < 0 && hdistance < 0)) {
                    if hdistance == 0 {
                        hdistance = 8 * fan_direction;
                    }
                    if -64 < hdistance && hdistance < 64 {
                        hero.position.push_horizontally(solids, fan_direction as i16 * TILE_WIDTH as i16, events);
                    }
                }
            }
        }
        assert(env_of(*solids, *tiles, *queue, *hero, *do_play, *events) =~= old(self).spec_act(
            *old(general),
            env_of(*old(solids), *old(tiles), *old(queue), *old(hero), *old(do_play), *old(events)),
        ).2);
    }

    /// A shot makes the fan run down, in a puff of steam.
    pub open spec fn spec_shot(self, g: ActorData, e: Env) -> (Fan, ActorData, Env) {
        (Fan { running: (FAN_RUNNING - 1) as usize, ..self }, g, Env { queued: e.queued.push(spot(g, ActorType::Steam)), ..e })
    }

    pub fn shot(
        &mut self,
        general: &mut ActorData,
        solids: &mut LevelSolids,
        tiles: &mut LevelTiles,
        queue: &mut ActorQueue,
        hero: &mut HeroData,
        do_play: &mut bool,
        events: &mut Vec<UserEvent>,
    )
        requires
            old(hero).wf(),
            old(self).wf(),
        ensures
            final(hero).wf(),
            all_creatable(old(queue).actors@) ==> all_creatable(final(queue).actors@),
            final(general).actor_type == old(general).actor_type,
            (*final(self), *final(general), env_of(*final(solids), *final(tiles), *final(queue), *final(hero), *final(do_play), *final(events)))
                == old(self).spec_shot(*old(general), env_of(*old(solids), *old(tiles), *old(queue), *old(hero), *old(do_play), *old(events))),
            final(self).wf(),
    {
        self.running = FAN_RUNNING - 1;
        queue.push_back(ActorType::Steam, general.position.x as u16, general.position.y as u16);
        assert(env_of(*solids, *tiles, *queue, *hero, *do_play, *events) =~= old(self).spec_shot(
            *old(general),
            env_of(*old(solids), *old(tiles), *old(queue), *old(hero), *old(do_play), *old(events)),
        ).2);
    }
}

} // verus!
