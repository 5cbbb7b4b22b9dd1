//! Conveyor belts that carry the hero standing on them.

use vstd::prelude::*;
use crate::consts::{HALFTILE_WIDTH, SOLID_BLACK, SOLID_CONVEYORBELT_LEFTEND, TILE_HEIGHT, TILE_WIDTH};
use crate::events::{HorizontalDirection, UserEvent};
use crate::geometry::Geometry;
use crate::hero::{placed, pushed, shifted_h, HeroData, HeroView};
use crate::level::solids::{cell_index, scannable, LevelSolids};
use crate::level::tiles::LevelTiles;
use super::{ground_of, Ground, all_creatable, env_of, moved, ActorData, ActorQueue, ActorType, Env};

verus! {

/// The belt reaches left from column `x` (in pixels) to its left end: the
/// first tile to the left that is a left end tile or empty, or the left
/// edge of the level. The place and width reached, starting from width `w`.
pub open spec fn belt_start(tiles: Seq<u16>, x: int, y: int, w: int) -> (int, int)
    decreases x + 16,
{
    let x1 = x - 16;
    let t = tiles[cell_index(x1 / 16, y / 16)];
    if x1 < 0 || t as usize == SOLID_CONVEYORBELT_LEFTEND || x1 == 0 || t == 0 {
        (x1, w + 16)
    } else {
        belt_start(tiles, x1, y, w + 16)
    }
}

/// Looking for the left end of the belt stays inside the level.
pub open spec fn belt_ok(tiles: Seq<u16>, x: int, y: int) -> bool
    decreases x + 16,
{
    let x1 = x - 16;
    let t = tiles[cell_index(x1 / 16, y / 16)];
    &&& 0 <= x1 && x1 / 16 < 128
    &&& (t as usize == SOLID_CONVEYORBELT_LEFTEND || x1 == 0 || t == 0 || belt_ok(tiles, x1, y))
}

proof fn lemma_belt_start(tiles: Seq<u16>, x: int, y: int, w: int)
    requires
        belt_ok(tiles, x, y),
    ensures
        0 <= belt_start(tiles, x, y, w).0 <= x - 16,
        belt_start(tiles, x, y, w).1 == w + (x - belt_start(tiles, x, y, w).0),
    decreases x + 16,
{
    let x1 = x - 16;
    let t = tiles[cell_index(x1 / 16, y / 16)];
    if !(x1 < 0 || t as usize == SOLID_CONVEYORBELT_LEFTEND || x1 == 0 || t == 0) {
        lemma_belt_start(tiles, x1, y, w + 16);
    }
}

/// A belt can be set up: it lies in the level and its left end is found
/// inside the level.
pub open spec fn conveyor_create_ok(g: ActorData, tiles: Seq<u16>) -> bool {
    &&& 0 <= g.position.y && g.position.y / 16 < 90
    &&& 0 <= g.position.x && g.position.x / 16 < 128
    &&& belt_ok(tiles, g.position.x as int, g.position.y as int)
}

/// A conveyor belt.
#[derive(Debug)]
pub struct Conveyor {
    pub current_frame: usize,
    pub num_frames: usize,
    pub direction: HorizontalDirection,
}

impl Conveyor {
    pub open spec fn wf(self) -> bool {
        self.num_frames == 4 && self.current_frame < 4 && self.direction != HorizontalDirection::Center
    }

    /// The actor stands at the right end of the belt; it stretches to the
    /// left end, whose tile is blanked.
    pub open spec fn spec_create(g: ActorData, e: Ground) -> (Conveyor, ActorData, Ground) {
        let direction = if g.actor_type == ActorType::ConveyorLeftMovingRightEnd {
            HorizontalDirection::Left
        } else {
            HorizontalDirection::Right
        };
        let (x, w) = belt_start(e.tiles, g.position.x as int, g.position.y as int, 16);
        (
            Conveyor { current_frame: 0, num_frames: 4, direction },
            ActorData { position: Geometry { x: x as i16, w: w as u16, h: TILE_HEIGHT, ..g.position }, ..g },
            Ground { tiles: e.tiles.update(cell_index(x / 16, g.position.y / 16), SOLID_BLACK as u16), ..e },
        )
    }

    pub fn create(
        general: &mut ActorData,
        solids: &mut LevelSolids,
        tiles: &mut LevelTiles,
    ) -> (s: Conveyor)
        requires
            conveyor_create_ok(*old(general), old(tiles)@),
        ensures
            final(general).actor_type == old(general).actor_type,
            (s, *final(general), ground_of(*final(solids), *final(tiles)))
                == Conveyor::spec_create(*old(general), ground_of(*old(solids), *old(tiles))),
            s.wf(),
    {
        general.position.w = TILE_WIDTH;
        general.position.h = TILE_HEIGHT;
        let direction = if general.actor_type == ActorType::ConveyorLeftMovingRightEnd {
            HorizontalDirection::Left
        } else {
            HorizontalDirection::Right
        };
        let ghost x0 = old(general).position.x as int;
        let ghost y = general.position.y as int;
        proof {
            lemma_belt_start(tiles@, x0, y, 16);
        }
        let mut found_begin = false;
        while !found_begin
            invariant_except_break
                !found_begin,
            invariant
                0 <= y && y / 16 < 90,
                y == general.position.y,
                general.position.h == TILE_HEIGHT,
                *tiles == *old(tiles) || found_begin,
                !found_begin ==> belt_ok(tiles@, general.position.x as int, y),
                !found_begin ==> belt_start(tiles@, general.position.x as int, y, general.position.w as int)
                    == belt_start(old(tiles)@, x0, y, 16),
                !found_begin ==> general.position.w as int == 16 + (x0 - general.position.x),
                !found_begin ==> general.position.x as int >= belt_start(old(tiles)@, x0, y, 16).0 + 16,
                0 <= x0 && x0 / 16 < 128,
                general.position.x <= x0,
                !found_begin ==> *general == (ActorData {
                    position: Geometry { x: general.position.x, w: general.position.w, h: TILE_HEIGHT, ..old(general).position },
                    ..*old(general)
                }),
            ensures
                found_begin,
                (*general, tiles@) == ({
                    let (x, w) = belt_start(old(tiles)@, x0, y, 16);
                    (
                        ActorData { position: Geometry { x: x as i16, w: w as u16, h: TILE_HEIGHT, ..old(general).position }, ..*old(general) },
                        old(tiles)@.update(cell_index(x / 16, y / 16), SOLID_BLACK as u16),
                    )
                }),
            decreases general.position.x + 16,
        {
            proof {
                lemma_belt_start(tiles@, general.position.x as int, y, general.position.w as int);
            }
            general.position.x = general.position.x - TILE_WIDTH as i16;
            general.position.w = general.position.w + TILE_WIDTH;
            let tile = tiles.get(general.position.x as usize / 16, general.position.y as usize / 16);
            if tile as usize == SOLID_CONVEYORBELT_LEFTEND || general.position.x == 0 || tile == 0 {
                found_begin = true;
                tiles.set(general.position.x as usize / 16, general.position.y as usize / 16, SOLID_BLACK as u16);
                break;
            }
            proof {
                lemma_belt_start(tiles@, general.position.x as int, y, general.position.w as int);
            }
        }
        let s = Conveyor { current_frame: 0, num_frames: 4, direction };
        assert(ground_of(*solids, *tiles) =~= Conveyor::spec_create(*old(general), ground_of(*old(solids), *old(tiles))).2);
        s
    }

    /// How far the belt carries the hero in a step.
    pub open spec fn carry(self) -> int {
        if self.direction == HorizontalDirection::Left { -8 } else { 8 }
    }

    /// The hero stands on the belt.
    pub open spec fn carries(g: ActorData, h: Geometry) -> bool {
        &&& h.x + h.w as i16 > g.position.x
        &&& h.x < g.position.x + g.position.w as i16
        &&& h.y + h.h as i16 == g.position.y
    }

    /// The belt's right edge fits the range of a position.
    pub open spec fn act_ok(self, g: ActorData) -> bool {
        i16::MIN <= g.position.x + g.position.w as i16 <= i16::MAX
    }

    /// The hero stands in the level, and where the belt carries the hero,
    /// the way lies in the level too.
    pub open spec fn env_ok(self, g: ActorData, e: Env) -> bool {
        let h = e.hero.position;
        &&& i16::MIN <= h.x + h.w as i16 <= i16::MAX
        &&& i16::MIN <= h.y + h.h as i16 <= i16::MAX
        &&& Conveyor::carries(g, h) ==> scannable(h) && scannable(shifted_h(h, self.carry()))
    }

    /// One step: the belt runs, and carries the hero standing on it half a
    /// tile along, as far as the hero is free to go.
    pub open spec fn spec_act(self, g: ActorData, e: Env) -> (Conveyor, ActorData, Env) {
        let frame = if self.direction == HorizontalDirection::Left {
            if self.current_frame == 0 { 3usize } else { (self.current_frame - 1) as usize }
        } else {
            ((self.current_frame + 1) % 4) as usize
        };
        let s = Conveyor { current_frame: frame, ..self };
        if Conveyor::carries(g, e.hero.position) {
            let (p, moved) = pushed(e.solids, e.hero.position, self.carry(), false);
            (
                s,
                g,
                Env {
                    hero: placed(e.hero, p),
                    events: if moved { e.events.push(UserEvent::HeroMoved) } else { e.events },
                    ..e
                },
            )
        } else {
            (s, g, e)
        }
    }

    pub fn act(
        &mut self,
        general: &mut ActorData,
        solids: &mut LevelSolids,
        tiles: &mut LevelTiles,
        queue: &mut ActorQueue,
        hero: &mut HeroData,
        do_play: &mut bool,
        events: &mut Vec<UserEvent>,
    )
        requires
            old(self).wf(),
            old(self).act_ok(*old(general)),
            old(self).env_ok(*old(general), env_of(*old(solids), *old(tiles), *old(queue), *old(hero), *old(do_play), *old(events))),
            old(hero).wf(),
        ensures
            all_creatable(old(queue).actors@) ==> all_creatable(final(queue).actors@),
            final(general).actor_type == old(general).actor_type,
            (*final(self), *final(general), env_of(*final(solids), *final(tiles), *final(queue), *final(hero), *final(do_play), *final(events)))
                == old(self).spec_act(*old(general), env_of(*old(solids), *old(tiles), *old(queue), *old(hero), *old(do_play), *old(events))),
            final(self).wf(),
            final(hero).wf(),
    {
        let offset: i16 = if self.direction == HorizontalDirection::Left {
            if self.current_frame == 0 {
                self.current_frame = self.num_frames;
            }
            self.current_frame = self.current_frame - 1;
            -(HALFTILE_WIDTH as i16)
        } else {
            self.current_frame = (self.current_frame + 1) % self.num_frames;
            HALFTILE_WIDTH as i16
        };
        let h = hero.position.geometry;
        if h.x + h.w as i16 > general.position.x && h.x < general.position.x + general.position.w as i16
            && h.y + h.h as i16 == general.position.y {
            hero.position.push_horizontally(solids, offset, events);
        }
        assert(env_of(*solids, *tiles, *queue, *hero, *do_play, *events) =~= old(self).spec_act(
            *old(general),
            env_of(*old(solids), *old(tiles), *old(queue), *old(hero), *old(do_play), *old(events)),
        ).2);
    }
}

} // verus!
