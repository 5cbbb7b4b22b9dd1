//! The rotating mill: a column that kills the hero at a touch and takes
//! ten shots to destroy.

use vstd::prelude::*;
use crate::consts::{OBJECT_ROTATINGCYLINDER, TILE_HEIGHT, TILE_WIDTH};
use crate::events::UserEvent;
use crate::hero::{scored, HeroData, HeroView};
use crate::level::solids::{solid_at, LevelSolids};
use crate::level::tiles::LevelTiles;
use super::{ground_of, Ground, all_creatable, 
    dead, env_of, firework, sized, ActorData, ActorQueue, ActorQueueItem, ActorType, Env,
};

verus! {

/// The mill reaches up from row `y` (in pixels) through the free tiles
/// above it: the top row it reaches and its height then, starting from
/// height `h`.
pub open spec fn mill_rise(solids: Seq<bool>, x: int, y: int, h: int) -> (int, int)
    decreases y + 16,
{
    if y > 0 && y >= 16 && !solid_at(solids, x / 16, y / 16 - 1) {
        mill_rise(solids, x, y - 16, h + 16)
    } else {
        (y, h)
    }
}

/// Rising from row `y` never looks above the top of the level: it stops on
/// a solid tile or at the top.
pub open spec fn mill_rise_ok(solids: Seq<bool>, x: int, y: int) -> bool
    decreases y + 16,
{
    y <= 0 || (y >= 16 && (solid_at(solids, x / 16, y / 16 - 1) || mill_rise_ok(solids, x, y - 16)))
}

/// A mill stands on a tile of the level, and rising from it is defined.
pub open spec fn mill_create_ok(g: ActorData, solids: Seq<bool>) -> bool {
    &&& 0 <= g.position.x && g.position.x / 16 < 128
    &&& g.position.y / 16 < 90
    &&& mill_rise_ok(solids, g.position.x as int, g.position.y as int)
}

/// How many shots a mill takes.
pub const MILL_LIVES: usize = 10;

/// A mill.
#[derive(Debug)]
pub struct Mill {
    pub tile: usize,
    pub current_frame: usize,
    pub num_frames: usize,
    pub lives: usize,
}

proof fn lemma_mill_rise_bounds(solids: Seq<bool>, x: int, y: int, h: int)
    requires
        mill_rise_ok(solids, x, y),
    ensures
        mill_rise(solids, x, y, h).0 <= y,
        mill_rise(solids, x, y, h).1 == h + (y - mill_rise(solids, x, y, h).0),
        y <= 0 ==> mill_rise(solids, x, y, h).0 == y,
        y > 0 ==> mill_rise(solids, x, y, h).0 >= 0,
    decreases y + 16,
{
    if y > 0 && y >= 16 && !solid_at(solids, x / 16, y / 16 - 1) {
        lemma_mill_rise_bounds(solids, x, y - 16, h + 16);
    }
}

impl Mill {
    pub open spec fn wf(self) -> bool {
        self.num_frames == 5 && self.current_frame < 5 && self.lives <= MILL_LIVES
    }

    /// The mill grows upwards over the free tiles above it.
    pub open spec fn spec_create(g: ActorData, e: Ground) -> (Mill, ActorData, Ground) {
        let (y, h) = mill_rise(e.solids, g.position.x as int, g.position.y as int, 16);
        (
            Mill { tile: OBJECT_ROTATINGCYLINDER, current_frame: 0, num_frames: 5, lives: MILL_LIVES },
            ActorData {
                is_in_foreground: false,
                position: crate::geometry::Geometry { y: y as i16, h: h as u16, w: TILE_WIDTH, ..g.position },
                ..g
            },
            e,
        )
    }

    pub fn create(
        general: &mut ActorData,
        solids: &mut LevelSolids,
        tiles: &mut LevelTiles,
    ) -> (s: Mill)
        requires
            mill_create_ok(*old(general), old(solids)@),
        ensures
            final(general).actor_type == old(general).actor_type,
            (s, *final(general), ground_of(*final(solids), *final(tiles)))
                == Mill::spec_create(*old(general), ground_of(*old(solids), *old(tiles))),
            s.wf(),
    {
        general.position.w = TILE_WIDTH;
        general.position.h = TILE_HEIGHT;
        general.is_in_foreground = false;
        let ghost x = general.position.x as int;
        let ghost y0 = general.position.y as int;
        proof {
            lemma_mill_rise_bounds(solids@, x, y0, 16);
        }
        while general.position.y > 0 && general.position.y >= 16
            && !solids.get(general.position.x as usize / 16, general.position.y as usize / 16 - 1)
            invariant
                general.position.x == x,
                0 <= x && x / 16 < 128,
                general.position.y <= y0,
                y0 / 16 < 90,
                general.position.y > 0 ==> general.position.y / 16 < 90,
                general.position.w == TILE_WIDTH,
                general.position.h == 16 + (y0 - general.position.y),
                general.position.h <= 16 + 1440,
                y0 >= 0 ==> general.position.y >= 0,
                y0 < 0 ==> general.position.y == y0,
                mill_rise_ok(solids@, x, general.position.y as int),
                mill_rise(solids@, x, general.position.y as int, general.position.h as int)
                    == mill_rise(solids@, x, y0, 16),
                general.is_in_foreground == false,
                general.actor_type == old(general).actor_type,
                *general == (ActorData { position: crate::geometry::Geometry { y: general.position.y, h: general.position.h, w: TILE_WIDTH, ..old(general).position }, is_in_foreground: false, ..*old(general) }),
            decreases general.position.y,
        {
            general.position.y = general.position.y - TILE_HEIGHT as i16;
            general.position.h = general.position.h + TILE_HEIGHT;
        }
        Mill { tile: OBJECT_ROTATINGCYLINDER, current_frame: 0, num_frames: 5, lives: MILL_LIVES }
    }

    /// Touching the mill kills the hero.
    pub open spec fn spec_touch_start(self, g: ActorData, e: Env) -> (Mill, ActorData, Env) {
        (self, g, Env { hero: HeroView { health: 0, ..e.hero }, events: e.events.push(UserEvent::HeroHealthChanged), ..e })
    }

    pub fn hero_touch_start(
        &mut self,
        general: &mut ActorData,
        solids: &mut LevelSolids,
        tiles: &mut LevelTiles,
        queue: &mut ActorQueue,
        hero: &mut HeroData,
        do_play: &mut bool,
        events: &mut Vec<UserEvent>,
    )
        requires
            old(hero).wf(),
        ensures
            old(self).wf() ==> final(self).wf(),
            all_creatable(old(queue).actors@) ==> all_creatable(final(queue).actors@),
            final(general).actor_type == old(general).actor_type,
            (*final(self), *final(general), env_of(*final(solids), *final(tiles), *final(queue), *final(hero), *final(do_play), *final(events)))
                == old(self).spec_touch_start(*old(general), env_of(*old(solids), *old(tiles), *old(queue), *old(hero), *old(do_play), *old(events))),
            final(hero).wf(),
    {
        hero.health.kill(events);
        assert(env_of(*solids, *tiles, *queue, *hero, *do_play, *events) =~= old(self).spec_touch_start(
            *old(general),
            env_of(*old(solids), *old(tiles), *old(queue), *old(hero), *old(do_play), *old(events)),
        ).2);
    }

    /// One step: a mill with lives left turns.
    pub open spec fn spec_act(self) -> Mill {
        if self.lives > 0 {
            Mill { current_frame: ((self.current_frame + 1) % (self.num_frames as int)) as usize, ..self }
        } else {
            self
        }
    }

    pub fn act(&mut self)
        requires
            old(self).wf(),
        ensures
            *final(self) == old(self).spec_act(),
            final(self).wf(),
    {
        if self.lives > 0 {
            self.current_frame = (self.current_frame + 1) % self.num_frames;
        }
    }

    /// The mill has a life to lose, and the places of its sparks and signs
    /// fit the range of a position.
    pub open spec fn shot_ok(self, g: ActorData) -> bool {
        let cy = g.position.y as u16 + g.position.h / 2;
        &&& self.lives >= 1
        &&& g.position.x as u16 + g.position.w / 2 <= u16::MAX
        &&& cy <= u16::MAX
        &&& self.lives == 1 ==> cy >= TILE_HEIGHT
    }

    /// A shot costs the mill a life and sends sparks flying from its
    /// middle; the last one destroys it for 20000 points, in a big firework
    /// with two signs of 10000.
    pub open spec fn spec_shot(self, g: ActorData, e: Env) -> (Mill, ActorData, Env) {
        let lives = (self.lives - 1) as usize;
        let cx = (g.position.x as u16 + g.position.w / 2) as u16;
        let cy = (g.position.y as u16 + g.position.h / 2) as u16;
        let x = g.position.x as u16;
        if lives > 0 {
            (Mill { lives, ..self }, g, Env { queued: e.queued + firework(cx, cy, 4), ..e })
        } else {
            (
                Mill { lives, ..self },
                dead(g),
                Env {
                    hero: scored(e.hero, 20000),
                    events: e.events.push(UserEvent::HeroScored),
                    queued: e.queued + firework(cx, cy, 20)
                        + seq![
                        ActorQueueItem { actor_type: ActorType::Score10000, x, y: (cy - TILE_HEIGHT) as u16 },
                        ActorQueueItem { actor_type: ActorType::Score10000, x, y: cy },
                    ],
                    ..e
                },
            )
        }
    }

    pub fn shot(
        &mut self,
        general: &mut ActorData,
        solids: &mut LevelSolids,
        tiles: &mut LevelTiles,
        queue: &mut ActorQueue,
        hero: &mut HeroData,
        do_play: &mut bool,
        events: &mut Vec<UserEvent>,
    )
        requires
            old(self).wf(),
            old(self).shot_ok(*old(general)),
            old(hero).wf(),
        ensures
            all_creatable(old(queue).actors@) ==> all_creatable(final(queue).actors@),
            final(general).actor_type == old(general).actor_type,
            (*final(self), *final(general), env_of(*final(solids), *final(tiles), *final(queue), *final(hero), *final(do_play), *final(events)))
                == old(self).spec_shot(*old(general), env_of(*old(solids), *old(tiles), *old(queue), *old(hero), *old(do_play), *old(events))),
            final(self).wf(),
            final(hero).wf(),
    {
        self.lives = self.lives - 1;
        let cx = general.position.x as u16 + general.position.w / 2;
        let cy = general.position.y as u16 + general.position.h / 2;
        if self.lives > 0 {
            queue.push_particle_firework(cx, cy, 4);
        } else {
            general.is_alive = false;
            hero.score.add(20000, events);
            queue.push_particle_firework(cx, cy, 20);
            queue.push_back(ActorType::Score10000, general.position.x as u16, cy - TILE_HEIGHT);
            queue.push_back(ActorType::Score10000, general.position.x as u16, cy);
        }
        assert(env_of(*solids, *tiles, *queue, *hero, *do_play, *events) =~= old(self).spec_shot(
            *old(general),
            env_of(*old(solids), *old(tiles), *old(queue), *old(hero), *old(do_play), *old(events)),
        ).2);
    }
}

} // verus!
