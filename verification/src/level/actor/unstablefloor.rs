//! A floor that crumbles after the hero stepped on it twice.

use vstd::prelude::*;
use crate::consts::{SOLID_START, TILE_HEIGHT, TILE_WIDTH};
use crate::events::UserEvent;
use crate::geometry::Geometry;
use crate::hero::HeroData;
use crate::level::solids::{cell_index, solid_at, LevelSolids};
use crate::level::tiles::LevelTiles;
use super::{ground_of, Ground, all_creatable, lemma_creatable_concat, lemma_creatable_push, lemma_firework_creatable, dead, env_of, firework, ActorData, ActorQueue, ActorQueueItem, ActorType, Env};

verus! {

/// The free tiles of row `y` from column `x + n` on, up to the first solid
/// one, counted from `n`.
pub open spec fn free_run(solids: Seq<bool>, x: int, y: int, n: int) -> int
    decreases 128 - (x + n),
{
    if x + n >= 128 || n < 0 || solid_at(solids, x + n, y) {
        n
    } else {
        free_run(solids, x, y, n + 1)
    }
}

/// A solid tile ends the run of free tiles inside the level.
pub open spec fn run_ends(solids: Seq<bool>, x: int, y: int, n: int) -> bool
    decreases 128 - (x + n),
{
    &&& 0 <= n && x + n < 128
    &&& (solid_at(solids, x + n, y) || run_ends(solids, x, y, n + 1))
}

/// The tiles of row `y` from column `x` on, `n` of them, made solid.
pub open spec fn filled(solids: Seq<bool>, x: int, y: int, n: int) -> Seq<bool>
    decreases n,
{
    if n <= 0 {
        solids
    } else {
        filled(solids, x, y, n - 1).update(cell_index(x + n - 1, y), true)
    }
}

/// The tiles of row `y` from column `x` on, `n` of them, freed.
pub open spec fn cleared(solids: Seq<bool>, x: int, y: int, n: int) -> Seq<bool>
    decreases n,
{
    if n <= 0 {
        solids
    } else {
        cleared(solids, x, y, n - 1).update(cell_index(x + n - 1, y), false)
    }
}

/// An explosion and sparks on each of the first `n` tiles from pixel
/// (`x`, `y`) on to the right.
pub open spec fn rubble(x: int, y: int, n: int) -> Seq<ActorQueueItem>
    decreases n,
{
    if n <= 0 {
        seq![]
    } else {
        let px = (x + 16 * (n - 1)) as i16 as u16;
        rubble(x, y, n - 1).push(ActorQueueItem { actor_type: ActorType::Explosion, x: px, y: y as i16 as u16 })
            + firework(px, y as i16 as u16, 4)
    }
}

/// The floor lies in the level, and its run of free tiles ends inside the
/// level.
pub open spec fn unstable_create_ok(g: ActorData, solids: Seq<bool>) -> bool {
    &&& 0 <= g.position.x && g.position.x / 16 < 128
    &&& 0 <= g.position.y && g.position.y / 16 < 90
    &&& run_ends(solids, g.position.x / 16, g.position.y / 16, 0)
}

proof fn lemma_free_run(solids: Seq<bool>, x: int, y: int, n: int)
    requires
        0 <= x < 128,
        run_ends(solids, x, y, n),
    ensures
        n <= free_run(solids, x, y, n),
        x + free_run(solids, x, y, n) < 128,
        solid_at(solids, x + free_run(solids, x, y, n), y),
    decreases 128 - (x + n),
{
    if !solid_at(solids, x + n, y) {
        lemma_free_run(solids, x, y, n + 1);
    }
}

proof fn lemma_free_run_ge(solids: Seq<bool>, x: int, y: int, n: int)
    requires
        0 <= n,
    ensures
        n <= free_run(solids, x, y, n),
    decreases 128 - (x + n),
{
    if !(x + n >= 128 || n < 0 || solid_at(solids, x + n, y)) {
        lemma_free_run_ge(solids, x, y, n + 1);
    }
}

/// A floor that crumbles.
#[derive(Debug)]
pub struct UnstableFloor {
    pub tile: usize,
    pub touch_count: usize,
    pub touching_hero: bool,
    pub floor_length: usize,
}

impl UnstableFloor {
    pub open spec fn wf(self) -> bool {
        self.touch_count <= 1 && self.floor_length < 128
    }

    /// The floor spans the free tiles to its right, which become solid.
    pub open spec fn spec_create(g: ActorData, e: Ground) -> (UnstableFloor, ActorData, Ground) {
        let x = g.position.x / 16;
        let y = g.position.y / 16;
        let n = free_run(e.solids, x, y, 0);
        (
            UnstableFloor { tile: (SOLID_START + 77) as usize, touch_count: 0, touching_hero: false, floor_length: n as usize },
            ActorData { position: Geometry { w: (16 * n) as u16, h: TILE_HEIGHT, ..g.position }, ..g },
            Ground { solids: filled(e.solids, x, y, n), ..e },
        )
    }

    pub fn create(
        general: &mut ActorData,
        solids: &mut LevelSolids,
        tiles: &mut LevelTiles,
    ) -> (s: UnstableFloor)
        requires
            unstable_create_ok(*old(general), old(solids)@),
        ensures
            final(general).actor_type == old(general).actor_type,
            (s, *final(general), ground_of(*final(solids), *final(tiles)))
                == UnstableFloor::spec_create(*old(general), ground_of(*old(solids), *old(tiles))),
            s.wf(),
    {
        let x = general.position.x as usize / 16;
        let y = general.position.y as usize / 16;
        let ghost s0 = solids@;
        proof {
            lemma_free_run(s0, x as int, y as int, 0);
        }
        let mut floor_length: usize = 0;
        while !solids.get(x + floor_length, y)
            invariant
                x < 128,
                y < 90,
                floor_length <= free_run(s0, x as int, y as int, 0),
                x + free_run(s0, x as int, y as int, 0) < 128,
                free_run(s0, x as int, y as int, floor_length as int) == free_run(s0, x as int, y as int, 0),
                solids@ == filled(s0, x as int, y as int, floor_length as int),
                forall|k: int| #![trigger solid_at(solids@, x + k, y as int)]
                    floor_length <= k < 128 - x ==> solid_at(solids@, x + k, y as int) == solid_at(s0, x + k, y as int),
            decreases 128 - floor_length,
        {
            proof {
                lemma_free_run_ge(s0, x as int, y as int, floor_length as int + 1);
            }
            let ghost prev = *solids;
            solids.set(x + floor_length, y, true);
            floor_length = floor_length + 1;
            proof {
                assert forall|k: int| floor_length <= k < 128 - x implies #[trigger] solid_at(solids@, x + k, y as int) == solid_at(s0, x + k, y as int) by {
                    assert(crate::level::solids::in_level(x + k, y as int));
                    assert(solids.is_solid(x + k, y as int) == prev.is_solid(x + k, y as int));
                }
            }
        }
        general.position.w = TILE_WIDTH * floor_length as u16;
        general.position.h = TILE_HEIGHT;
        let s = UnstableFloor { tile: SOLID_START + 77, touch_count: 0, touching_hero: false, floor_length };
        assert(ground_of(*solids, *tiles) =~= UnstableFloor::spec_create(*old(general), ground_of(*old(solids), *old(tiles))).2);
        s
    }

    /// Half the hero's width, rounded towards zero as integer division
    /// does.
    pub open spec fn half(v: int) -> int {
        if v >= 0 { v / 2 } else { -((-v) / 2) }
    }

    /// The middle of the hero is above the floor and the hero's feet are
    /// on it.
    pub open spec fn stands_upon(g: ActorData, h: Geometry) -> bool {
        let center = h.x + UnstableFloor::half(h.w as i16 as int);
        &&& center >= g.position.x
        &&& center <= g.position.x + g.position.w as i16
        &&& h.y + h.h as i16 == g.position.y
    }

    /// The floor's tiles lie in the level.
    pub open spec fn act_ok(self, g: ActorData) -> bool {
        &&& 0 <= g.position.x && g.position.x / 16 + self.floor_length <= 128
        &&& 0 <= g.position.y && g.position.y / 16 < 90
        &&& g.position.x + 16 * self.floor_length <= i16::MAX
        &&& g.position.x + g.position.w as i16 <= i16::MAX
    }

    /// The middle and the feet of the hero fit the range of a position.
    pub open spec fn env_ok(self, e: Env) -> bool {
        let h = e.hero.position;
        &&& i16::MIN <= h.x + UnstableFloor::half(h.w as i16 as int) <= i16::MAX
        &&& i16::MIN <= h.y + h.h as i16 <= i16::MAX
    }

    /// One step: each time the hero steps onto the floor counts; at the
    /// second time the floor crumbles, every tile of it in an explosion
    /// and sparks, and its tiles are free again.
    pub open spec fn spec_act(self, g: ActorData, e: Env) -> (UnstableFloor, ActorData, Env) {
        let s = if UnstableFloor::stands_upon(g, e.hero.position) {
            if !self.touching_hero {
                UnstableFloor { touching_hero: true, touch_count: (self.touch_count + 1) as usize, ..self }
            } else {
                self
            }
        } else {
            UnstableFloor { touching_hero: false, ..self }
        };
        if s.touch_count >= 2 {
            let n = self.floor_length as int;
            (
                s,
                dead(g),
                Env {
                    solids: cleared(e.solids, g.position.x / 16, g.position.y / 16, n),
                    queued: e.queued + rubble(g.position.x as int, g.position.y as int, n),
                    ..e
                },
            )
        } else {
            (s, g, e)
        }
    }

    pub fn act(
        &mut self,
        general: &mut ActorData,
        solids: &mut LevelSolids,
        tiles: &mut LevelTiles,
        queue: &mut ActorQueue,
        hero: &mut HeroData,
        do_play: &mut bool,
        events: &mut Vec<UserEvent>,
    )
        requires
            old(hero).wf(),
            old(self).wf(),
            old(self).act_ok(*old(general)),
            old(self).env_ok(env_of(*old(solids), *old(tiles), *old(queue), *old(hero), *old(do_play), *old(events))),
        ensures
            final(hero).wf(),
            all_creatable(old(queue).actors@) ==> all_creatable(final(queue).actors@),
            final(general).actor_type == old(general).actor_type,
            (*final(self), *final(general), env_of(*final(solids), *final(tiles), *final(queue), *final(hero), *final(do_play), *final(events)))
                == old(self).spec_act(*old(general), env_of(*old(solids), *old(tiles), *old(queue), *old(hero), *old(do_play), *old(events))),
            final(general).is_alive ==> final(self).wf(),
    {
        let h = hero.position.geometry;
        let half: i16 = if (h.w as i16) >= 0 { (h.w as i16) / 2 } else { -((-(h.w as i16 as i32)) / 2) as i16 };
        let center = h.x + half;
        let stands_upon = center >= general.position.x
            && center <= general.position.x + general.position.w as i16
            && h.y + h.h as i16 == general.position.y;
        if stands_upon {
            if !self.touching_hero {
                self.touching_hero = true;
                self.touch_count = self.touch_count + 1;
            }
        } else {
            self.touching_hero = false;
        }
        if self.touch_count >= 2 {
            let ghost s0 = solids@;
            let ghost q0 = queue.actors@;
            let mut rx: i16 = general.position.x;
            let ry: i16 = general.position.y;
            let mut i: usize = 0;
            while i < self.floor_length
                invariant
                    i <= self.floor_length,
                    self.floor_length < 128,
                    rx == general.position.x + 16 * i,
                    ry == general.position.y,
                    0 <= general.position.x && general.position.x / 16 + self.floor_length <= 128,
                    0 <= ry && ry / 16 < 90,
                    general.position.x + 16 * self.floor_length <= i16::MAX,
                    solids@ == cleared(s0, general.position.x / 16, ry / 16, i as int),
                    queue.actors@ == q0 + rubble(general.position.x as int, ry as int, i as int),
                    all_creatable(q0) ==> all_creatable(queue.actors@),
                decreases self.floor_length - i,
            {
                assert(rx / 16 == general.position.x / 16 + i) by (nonlinear_arith)
                    requires
                        rx == general.position.x + 16 * i,
                        0 <= general.position.x,
                ;
                solids.set(rx as usize / 16, ry as usize / 16, false);
                let ghost q1 = queue.actors@;
                queue.push_back(ActorType::Explosion, rx as u16, ry as u16);
                let ghost q2 = queue.actors@;
                queue.push_particle_firework(rx as u16, ry as u16, 4);
                proof {
                    if all_creatable(q0) {
                        lemma_creatable_push(q1, q2.last());
                        lemma_firework_creatable(rx as u16, ry as u16, 4);
                        lemma_creatable_concat(q2, firework(rx as u16, ry as u16, 4));
                    }
                }
                rx = rx + TILE_WIDTH as i16;
                i = i + 1;
                assert(queue.actors@ =~= q0 + rubble(general.position.x as int, ry as int, i as int));
            }
            general.is_alive = false;
        }
        assert(env_of(*solids, *tiles, *queue, *hero, *do_play, *events) =~= old(self).spec_act(
            *old(general),
            env_of(*old(solids), *old(tiles), *old(queue), *old(hero), *old(do_play), *old(events)),
        ).2);
    }
}

} // verus!
