//! A bomb that the hero finds in a box; it ticks and then bursts into
//! flames to both sides along the floor.

use vstd::prelude::*;
use crate::consts::{ANIMATION_BOMB, TILE_HEIGHT, TILE_WIDTH};
use crate::events::UserEvent;
use crate::hero::HeroData;
use crate::level::solids::{solid_at, LevelSolids};
use crate::level::tiles::LevelTiles;
use super::{all_creatable, dead, env_of, sized, ActorData, ActorQueue, ActorQueueItem, ActorType, Env};

verus! {

/// Steps before a bomb bursts.
pub const BOMB_THRESHOLD: usize = 12;
/// Steps its flames spread.
pub const BOMB_FLAMES: usize = 4;

/// The tile column `d` tiles from the bomb's (to the left when `left`) can
/// take a flame: it is free and has a solid tile below.
pub open spec fn flame_fits(solids: Seq<bool>, g: ActorData, d: int, left: bool) -> bool {
    let x = if left { g.position.x / 16 - d } else { g.position.x / 16 + d };
    let y = g.position.y / 16;
    !solid_at(solids, x, y) && solid_at(solids, x, y + 1)
}

/// The flame `d` tiles from the bomb.
pub open spec fn flame(g: ActorData, d: int, left: bool) -> ActorQueueItem {
    let x = g.position.x as u16;
    ActorQueueItem {
        actor_type: ActorType::BombFire,
        x: if left { (x - d * 16) as u16 } else { (x + d * 16) as u16 },
        y: g.position.y as u16,
    }
}

/// A bomb.
#[derive(Debug)]
pub struct Bomb {
    pub tile: usize,
    pub current_frame: usize,
    pub num_frames: usize,
    pub counter: usize,
    pub explode_left: bool,
    pub explode_right: bool,
    pub explode_threshold: usize,
    pub num_flames: usize,
}

impl Bomb {
    pub open spec fn wf(self) -> bool {
        &&& self.num_frames == 2
        &&& self.current_frame < 2
        &&& self.explode_threshold == BOMB_THRESHOLD
        &&& self.num_flames == BOMB_FLAMES
        &&& self.counter < BOMB_THRESHOLD + BOMB_FLAMES
    }

    pub open spec fn spec_create(g: ActorData) -> (Bomb, ActorData) {
        (
            Bomb {
                tile: ANIMATION_BOMB,
                current_frame: 0,
                num_frames: 2,
                counter: 0,
                explode_left: true,
                explode_right: true,
                explode_threshold: BOMB_THRESHOLD,
                num_flames: BOMB_FLAMES,
            },
            sized(g, TILE_WIDTH, TILE_HEIGHT),
        )
    }

    pub fn create(general: &mut ActorData) -> (s: Bomb)
        ensures
            final(general).actor_type == old(general).actor_type,
            (s, *final(general)) == Bomb::spec_create(*old(general)),
            s.wf(),
    {
        general.position.w = TILE_WIDTH;
        general.position.h = TILE_HEIGHT;
        Bomb {
            tile: ANIMATION_BOMB,
            current_frame: 0,
            num_frames: 2,
            counter: 0,
            explode_left: true,
            explode_right: true,
            explode_threshold: BOMB_THRESHOLD,
            num_flames: BOMB_FLAMES,
        }
    }

    /// When the flames spread in the next step, the tiles they look at lie
    /// in the level, and so do the places of the flames.
    pub open spec fn act_ok(self, g: ActorData) -> bool {
        let c = self.counter + 1;
        let d = c - BOMB_THRESHOLD;
        BOMB_THRESHOLD <= c < BOMB_THRESHOLD + BOMB_FLAMES ==> {
            &&& 0 <= g.position.x && g.position.x / 16 < 128
            &&& 0 <= g.position.y && g.position.y / 16 + 1 < 90
            &&& self.explode_left ==> g.position.x / 16 - d >= 0 && g.position.x as u16 >= d * 16
            &&& self.explode_right ==> g.position.x / 16 + d < 128 && g.position.x as u16 + d * 16 <= u16::MAX
        }
    }

    /// One step: the bomb ticks; after [`BOMB_THRESHOLD`] steps flames
    /// spread a tile further to each side in every step, as long as each
    /// new tile is free and stands on solid ground; after
    /// [`BOMB_FLAMES`] more steps the bomb is gone.
    pub open spec fn spec_act(self, g: ActorData, e: Env) -> (Bomb, ActorData, Env) {
        let s1 = Bomb { current_frame: ((self.current_frame + 1) % 2) as usize, counter: (self.counter + 1) as usize, ..self };
        let c = s1.counter;
        if c < BOMB_THRESHOLD {
            (s1, g, e)
        } else if c < BOMB_THRESHOLD + BOMB_FLAMES {
            let d = c - BOMB_THRESHOLD;
            let left = self.explode_left && flame_fits(e.solids, g, d, true);
            let right = self.explode_right && flame_fits(e.solids, g, d, false);
            let q1 = if left { e.queued.push(flame(g, d, true)) } else { e.queued };
            let q2 = if right { q1.push(flame(g, d, false)) } else { q1 };
            (Bomb { explode_left: left, explode_right: right, ..s1 }, g, Env { queued: q2, ..e })
        } else {
            (s1, dead(g), e)
        }
    }

    pub fn act(
        &mut self,
        general: &mut ActorData,
        solids: &mut LevelSolids,
        tiles: &mut LevelTiles,
        queue: &mut ActorQueue,
        hero: &mut HeroData,
        do_play: &mut bool,
        events: &mut Vec<UserEvent>,
    )
        requires
            old(hero).wf(),
            old(self).wf(),
            old(self).act_ok(*old(general)),
        ensures
            final(hero).wf(),
            all_creatable(old(queue).actors@) ==> all_creatable(final(queue).actors@),
            final(general).actor_type == old(general).actor_type,
            (*final(self), *final(general), env_of(*final(solids), *final(tiles), *final(queue), *final(hero), *final(do_play), *final(events)))
                == old(self).spec_act(*old(general), env_of(*old(solids), *old(tiles), *old(queue), *old(hero), *old(do_play), *old(events))),
            final(general).is_alive ==> final(self).wf(),
    {
        self.current_frame = (self.current_frame + 1) % self.num_frames;
        self.counter = self.counter + 1;
        if self.counter < self.explode_threshold {
        } else if self.counter < self.explode_threshold + self.num_flames {
            let distance = self.counter - self.explode_threshold;
            let x = general.position.x as usize / 16;
            let y = general.position.y as usize / 16;
            if self.explode_left {
                let space_is_free = !solids.get(x - distance, y);
                let space_has_solid_below = solids.get(x - distance, y + 1);
                if space_is_free && space_has_solid_below {
                    queue.push_back(
                        ActorType::BombFire,
                        general.position.x as u16 - distance as u16 * TILE_WIDTH,
                        general.position.y as u16,
                    );
                } else {
                    self.explode_left = false;
                }
            }
            if self.explode_right {
                let space_is_free = !solids.get(x + distance, y);
                let space_has_solid_below = solids.get(x + distance, y + 1);
                if space_is_free && space_has_solid_below {
                    queue.push_back(
                        ActorType::BombFire,
                        general.position.x as u16 + distance as u16 * TILE_WIDTH,
                        general.position.y as u16,
                    );
                } else {
                    self.explode_right = false;
                }
            }
        } else {
            general.is_alive = false;
        }
        assert(env_of(*solids, *tiles, *queue, *hero, *do_play, *events) =~= old(self).spec_act(
            *old(general),
            env_of(*old(solids), *old(tiles), *old(queue), *old(hero), *old(do_play), *old(events)),
        ).2);
    }
}

} // verus!
