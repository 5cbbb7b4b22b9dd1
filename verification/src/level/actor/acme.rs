//! The falling ACME block: it waits above the hero's path, wobbles when
//! the hero passes below, and then drops.

use vstd::prelude::*;
use crate::consts::{OBJECT_FALLINGBLOCK, TILE_HEIGHT, TILE_WIDTH};
use crate::events::UserEvent;
use crate::hero::{scored, HeroData};
use crate::level::solids::{solid_at, LevelSolids};
use crate::level::tiles::LevelTiles;
use super::{all_creatable, dead, env_of, firework, hero_in_level, moved, sized, spot, ActorData, ActorQueue, ActorType, Env};

verus! {

/// A solid tile lies in the two columns from `x`, in the rows `lo` up to
/// `hi`.
pub open spec fn solid_between(solids: Seq<bool>, x: int, lo: int, hi: int) -> bool {
    exists|i: int| lo <= i < hi && (solid_at(solids, x, i) || solid_at(solids, x + 1, i))
}

/// The block, two tiles wide.
#[derive(Debug)]
pub struct Acme {
    pub tile: usize,
    pub counter: usize,
    pub touching_hero: bool,
}

impl Acme {
    pub open spec fn spec_create(g: ActorData) -> (Acme, ActorData) {
        (
            Acme { tile: OBJECT_FALLINGBLOCK, counter: 0, touching_hero: false },
            ActorData { is_in_foreground: true, ..sized(g, (2 * TILE_WIDTH) as u16, TILE_HEIGHT) },
        )
    }

    pub fn create(general: &mut ActorData) -> (s: Acme)
        ensures
            final(general).actor_type == old(general).actor_type,
            (s, *final(general)) == Acme::spec_create(*old(general)),
    {
        general.position.w = TILE_WIDTH * 2;
        general.position.h = TILE_HEIGHT;
        general.is_in_foreground = true;
        Acme { tile: OBJECT_FALLINGBLOCK, counter: 0, touching_hero: false }
    }

    /// The block lies in the level with a tile below it, can wobble and
    /// fall a tile, and its right edge fits the range of a position.
    pub open spec fn act_ok(self, g: ActorData) -> bool {
        &&& self.counter < usize::MAX
        &&& 0 <= g.position.x && g.position.x / 16 + 1 < 128
        &&& g.position.x as u16 + g.position.w <= u16::MAX
        &&& 1 <= g.position.y && g.position.y / 16 + 1 < 90
    }

    /// One step. A waiting block starts to wobble once the hero is below
    /// it, overlapping its columns, with no solid tile in between; it then
    /// wobbles up and down a pixel for ten steps, and then falls a tile a
    /// step until it lands, where it bursts in steam and sparks.
    pub open spec fn spec_act(self, g: ActorData, e: Env) -> (Acme, ActorData, Env) {
        let h = e.hero.position;
        if self.counter == 0 {
            let xl = g.position.x as u16;
            let xr = xl + g.position.w;
            let hxl = h.x as u16;
            let hxr = hxl + h.w;
            if g.position.y < h.y && xl < hxr && xr > hxl
                && !solid_between(e.solids, (xl / 16) as int, g.position.y / 16 + 1, h.y / 16) {
                (Acme { counter: 1, ..self }, g, e)
            } else {
                (self, g, e)
            }
        } else if self.counter <= 10 {
            let dy = if self.counter % 2 == 0 { -1int } else { 1int };
            (Acme { counter: (self.counter + 1) as usize, ..self }, moved(g, g.position.x as int, g.position.y + dy), e)
        } else if solid_at(e.solids, g.position.x / 16, g.position.y / 16 + 1) {
            let x = g.position.x as u16;
            let y = g.position.y as u16;
            (self, dead(g), Env { queued: e.queued.push(spot(g, ActorType::Steam)) + firework(x, y, 4), ..e })
        } else {
            (self, moved(g, g.position.x as int, g.position.y + 16), e)
        }
    }

    pub fn act(
        &mut self,
        general: &mut ActorData,
        solids: &mut LevelSolids,
        tiles: &mut LevelTiles,
        queue: &mut ActorQueue,
        hero: &mut HeroData,
        do_play: &mut bool,
        events: &mut Vec<UserEvent>,
    )
        requires
            old(hero).wf(),
            old(self).act_ok(*old(general)),
            hero_in_level(old(hero)@),
        ensures
            final(hero).wf(),
            all_creatable(old(queue).actors@) ==> all_creatable(final(queue).actors@),
            final(general).actor_type == old(general).actor_type,
            (*final(self), *final(general), env_of(*final(solids), *final(tiles), *final(queue), *final(hero), *final(do_play), *final(events)))
                == old(self).spec_act(*old(general), env_of(*old(solids), *old(tiles), *old(queue), *old(hero), *old(do_play), *old(events))),
    {
        let hero_geometry = hero.position.geometry;
        if self.counter == 0 {
            let xl = general.position.x as u16;
            let xr = xl + general.position.w;
            let y = general.position.y;
            let hxl = hero_geometry.x as u16;
            let hxr = hxl + hero_geometry.w;
            let hy = hero_geometry.y;
            if y < hy && xl < hxr && xr > hxl {
                let mut solid_between = false;
                let x = xl as usize / 16;
                let lo = y as usize / 16 + 1;
                let hi = hy as usize / 16;
                let mut i = lo;
                while i < hi
                    invariant_except_break
                        !solid_between,
                        !super::acme::solid_between(solids@, x as int, lo as int, i as int),
                    invariant
                        lo <= i,
                        i <= hi || lo > hi,
                        hi <= 90,
                        x + 1 < 128,
                        x == xl / 16,
                    ensures
                        solid_between == super::acme::solid_between(solids@, x as int, lo as int, hi as int),
                    decreases hi - i,
                {
                    let left = solids.get(x, i);
                    let right = solids.get(x + 1, i);
                    if left || right {
                        solid_between = true;
                        break;
                    }
                    let ghost row = i as int;
                    i = i + 1;
                    assert forall|k: int| lo <= k < i implies !(solid_at(solids@, x as int, k) || solid_at(solids@, x + 1, k)) by {
                        if k < row {
                            assert(!(lo <= k < row && (solid_at(solids@, x as int, k) || solid_at(solids@, x + 1, k))));
                        }
                    }
                }
                if !solid_between {
                    self.counter = self.counter + 1;
                }
            }
        } else if self.counter <= 10 {
            if self.counter % 2 == 0 {
                general.position.y = general.position.y - 1;
            } else {
                general.position.y = general.position.y + 1;
            }
            self.counter = self.counter + 1;
        } else if solids.get(general.position.x as usize / 16, general.position.y as usize / 16 + 1) {
            queue.push_back(ActorType::Steam, general.position.x as u16, general.position.y as u16);
            queue.push_particle_firework(general.position.x as u16, general.position.y as u16, 4);
            general.is_alive = false;
        } else {
            general.position.y = general.position.y + TILE_HEIGHT as i16;
        }
        assert(env_of(*solids, *tiles, *queue, *hero, *do_play, *events) =~= old(self).spec_act(
            *old(general),
            env_of(*old(solids), *old(tiles), *old(queue), *old(hero), *old(do_play), *old(events)),
        ).2);
    }

    /// A block that has started to move hurts the hero it falls on.
    pub open spec fn spec_touch_start(self, g: ActorData) -> (Acme, ActorData) {
        if self.counter > 10 && !self.touching_hero {
            (Acme { touching_hero: true, ..self }, ActorData { hurts_hero: true, ..g })
        } else {
            (self, g)
        }
    }

    pub fn hero_touch_start(&mut self, general: &mut ActorData)
        ensures
            old(self).act_ok(*old(general)) ==> final(self).act_ok(*final(general)),
            final(general).actor_type == old(general).actor_type,
            (*final(self), *final(general)) == old(self).spec_touch_start(*old(general)),
    {
        if self.counter > 10 && !self.touching_hero {
            self.touching_hero = true;
            general.hurts_hero = true;
        }
    }

    /// A shot destroys a block that has started to move, for 500 points.
    pub open spec fn spec_shot(self, g: ActorData, e: Env) -> (Acme, ActorData, Env) {
        if self.counter > 0 {
            let x = g.position.x as u16;
            let y = g.position.y as u16;
            (
                self,
                dead(g),
                Env {
                    hero: scored(e.hero, 500),
                    events: e.events.push(UserEvent::HeroScored),
                    queued: e.queued.push(spot(g, ActorType::Score500)) + firework(x, y, 4),
                    ..e
                },
            )
        } else {
            (self, g, e)
        }
    }

    pub fn shot(
        &mut self,
        general: &mut ActorData,
        solids: &mut LevelSolids,
        tiles: &mut LevelTiles,
        queue: &mut ActorQueue,
        hero: &mut HeroData,
        do_play: &mut bool,
        events: &mut Vec<UserEvent>,
    )
        requires
            old(hero).wf(),
        ensures
            all_creatable(old(queue).actors@) ==> all_creatable(final(queue).actors@),
            final(general).actor_type == old(general).actor_type,
            (*final(self), *final(general), env_of(*final(solids), *final(tiles), *final(queue), *final(hero), *final(do_play), *final(events)))
                == old(self).spec_shot(*old(general), env_of(*old(solids), *old(tiles), *old(queue), *old(hero), *old(do_play), *old(events))),
            final(hero).wf(),
    {
        if self.counter > 0 {
            hero.score.add(500, events);
            queue.push_back(ActorType::Score500, general.position.x as u16, general.position.y as u16);
            queue.push_particle_firework(general.position.x as u16, general.position.y as u16, 4);
            general.is_alive = false;
        }
        assert(env_of(*solids, *tiles, *queue, *hero, *do_play, *events) =~= old(self).spec_shot(
            *old(general),
            env_of(*old(solids), *old(tiles), *old(queue), *old(hero), *old(do_play), *old(events)),
        ).2);
    }
}

} // verus!
