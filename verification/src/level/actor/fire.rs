//! Fire that bursts out of a wall now and then.

use vstd::prelude::*;
use crate::consts::{OBJECT_FIRELEFT, OBJECT_FIRERIGHT, TILE_HEIGHT, TILE_WIDTH};
use crate::events::HorizontalDirection;
use crate::draw::DrawTile;
use super::{moved, sized, ActorData, ActorType};

verus! {

#[derive(Clone, Copy, Debug, PartialEq, Eq, Structural)]
pub enum FireState {
    Off,
    Ignition,
    Burning,
}

/// Steps the fire is off, igniting and burning.
pub const FIRE_OFF_STEPS: usize = 40;
pub const FIRE_IGNITION_STEPS: usize = 20;
pub const FIRE_BURNING_STEPS: usize = 20;

/// A fire, three tiles wide, burning to the left or to the right.
#[derive(Debug)]
pub struct Fire {
    pub tile: usize,
    pub direction: HorizontalDirection,
    pub state: FireState,
    pub counter: usize,
    pub touching_hero: bool,
}

impl Fire {
    pub open spec fn wf(self) -> bool {
        self.counter <= FIRE_OFF_STEPS
    }

    /// A fire to the left reaches two tiles left of its place.
    pub open spec fn spec_create(g: ActorData) -> (Fire, ActorData) {
        let g1 = ActorData { is_in_foreground: true, ..sized(g, (3 * TILE_WIDTH) as u16, TILE_HEIGHT) };
        if g.actor_type == ActorType::FireRight {
            (Fire { tile: OBJECT_FIRERIGHT, direction: HorizontalDirection::Right, state: FireState::Off, counter: 0, touching_hero: false }, g1)
        } else {
            (
                Fire { tile: OBJECT_FIRELEFT, direction: HorizontalDirection::Left, state: FireState::Off, counter: 0, touching_hero: false },
                moved(g1, g.position.x - 32, g.position.y as int),
            )
        }
    }

    /// The place of a fire to the left fits the range of a position.
    pub open spec fn create_ok(g: ActorData) -> bool {
        (g.actor_type == ActorType::FireRight || g.actor_type == ActorType::FireLeft)
            && (g.actor_type == ActorType::FireLeft ==> g.position.x - 32 >= i16::MIN)
    }

    pub fn create(general: &mut ActorData) -> (s: Fire)
        requires
            Fire::create_ok(*old(general)),
        ensures
            final(general).actor_type == old(general).actor_type,
            (s, *final(general)) == Fire::spec_create(*old(general)),
            s.wf(),
    {
        general.position.w = TILE_WIDTH * 3;
        general.position.h = TILE_HEIGHT;
        general.is_in_foreground = true;
        if general.actor_type == ActorType::FireRight {
            Fire { tile: OBJECT_FIRERIGHT, direction: HorizontalDirection::Right, state: FireState::Off, counter: 0, touching_hero: false }
        } else {
            general.position.x = general.position.x - 2 * TILE_WIDTH as i16;
            Fire { tile: OBJECT_FIRELEFT, direction: HorizontalDirection::Left, state: FireState::Off, counter: 0, touching_hero: false }
        }
    }

    /// Touching the fire hurts while it burns.
    pub open spec fn spec_touch_start(self, g: ActorData) -> (Fire, ActorData) {
        (Fire { touching_hero: true, ..self }, ActorData { hurts_hero: self.state == FireState::Burning, ..g })
    }

    pub fn hero_touch_start(&mut self, general: &mut ActorData)
        ensures
            old(self).wf() ==> final(self).wf(),
            old(self).act_ok() ==> final(self).act_ok(),
            final(general).actor_type == old(general).actor_type,
            (*final(self), *final(general)) == old(self).spec_touch_start(*old(general)),
    {
        general.hurts_hero = self.state == FireState::Burning;
        self.touching_hero = true;
    }

    pub fn hero_touch_end(&mut self, general: &mut ActorData)
        ensures
            old(self).wf() ==> final(self).wf(),
            old(self).act_ok() ==> final(self).act_ok(),
            final(general).actor_type == old(general).actor_type,
            *final(general) == (ActorData { hurts_hero: false, ..*old(general) }),
            *final(self) == (Fire { touching_hero: false, ..*old(self) }),
    {
        general.hurts_hero = false;
        self.touching_hero = false;
    }

    /// One step: off for [`FIRE_OFF_STEPS`] steps, igniting for
    /// [`FIRE_IGNITION_STEPS`], burning for [`FIRE_BURNING_STEPS`], and
    /// again; while burning it hurts the hero touching it.
    pub open spec fn spec_act(self, g: ActorData) -> (Fire, ActorData) {
        let (s, g1) = if self.state == FireState::Off && self.counter == FIRE_OFF_STEPS {
            (Fire { counter: 0, state: FireState::Ignition, ..self }, g)
        } else if self.state == FireState::Ignition && self.counter == FIRE_IGNITION_STEPS {
            (
                Fire { counter: 0, state: FireState::Burning, ..self },
                if self.touching_hero { ActorData { hurts_hero: true, ..g } } else { g },
            )
        } else if self.state == FireState::Burning && self.counter == FIRE_BURNING_STEPS {
            (
                Fire { counter: 0, state: FireState::Off, ..self },
                if self.touching_hero { ActorData { hurts_hero: false, ..g } } else { g },
            )
        } else {
            (self, g)
        };
        (Fire { counter: (s.counter + 1) as usize, ..s }, g1)
    }

    /// The counter stays below where the current phase ends.
    pub open spec fn act_ok(self) -> bool {
        self.state != FireState::Off ==> self.counter <= FIRE_IGNITION_STEPS
    }

    pub fn act(&mut self, general: &mut ActorData)
        requires
            old(self).wf(),
            old(self).act_ok(),
        ensures
            final(general).actor_type == old(general).actor_type,
            (*final(self), *final(general)) == old(self).spec_act(*old(general)),
            final(self).wf(),
            final(self).act_ok(),
    {
        if self.state == FireState::Off {
            if self.counter == FIRE_OFF_STEPS {
                self.counter = 0;
                self.state = FireState::Ignition;
            }
        } else if self.state == FireState::Ignition {
            if self.counter == FIRE_IGNITION_STEPS {
                self.counter = 0;
                self.state = FireState::Burning;
                if self.touching_hero {
                    general.hurts_hero = true;
                }
            }
        } else {
            if self.counter == FIRE_BURNING_STEPS {
                self.counter = 0;
                self.state = FireState::Off;
                if self.touching_hero {
                    general.hurts_hero = false;
                }
            }
        }
        self.counter = self.counter + 1;
    }
}


/// The tiles of the fire's three places, left to right: nothing while it
/// is off; while it ignites, a flicker at the wall on every other step;
/// while it burns, flames that alternate between two pictures, with the
/// tip at the far end.
pub open spec fn fire_cells(f: Fire) -> (Option<usize>, Option<usize>, Option<usize>) {
    match f.state {
        FireState::Off => (None, None, None),
        FireState::Ignition => if f.counter % 2 > 0 {
            if f.direction == HorizontalDirection::Left { (None, None, Some(f.tile)) } else { (Some(f.tile), None, None) }
        } else {
            (None, None, None)
        },
        FireState::Burning => {
            let o = f.counter % 2;
            if f.direction == HorizontalDirection::Left {
                (Some((f.tile + 3 + o) as usize), Some((f.tile + 1 + o) as usize), Some((f.tile + 1 + o) as usize))
            } else {
                (Some((f.tile + 1 + o) as usize), Some((f.tile + 1 + o) as usize), Some((f.tile + 3 + o) as usize))
            }
        },
    }
}

/// The tiles to draw the fire at (`x`, `y`) with, one tile apart, left to
/// right.
pub open spec fn fire_tiles(f: Fire, x: i16, y: i16) -> Seq<DrawTile> {
    let (a, b, c) = fire_cells(f);
    let s0: Seq<DrawTile> = match a { Some(t) => seq![DrawTile { tile: t, x, y }], None => seq![] };
    let s1: Seq<DrawTile> = match b { Some(t) => seq![DrawTile { tile: t, x: (x + 16) as i16, y }], None => seq![] };
    let s2: Seq<DrawTile> = match c { Some(t) => seq![DrawTile { tile: t, x: (x + 32) as i16, y }], None => seq![] };
    s0 + s1 + s2
}

impl Fire {
    /// The tiles to draw the fire with; see [`fire_tiles`].
    pub fn blit(&self, general: &ActorData) -> (r: Vec<DrawTile>)
        requires
            self.state != FireState::Off ==> self.direction != HorizontalDirection::Center,
            self.tile + 4 <= usize::MAX,
            general.position.x + 32 <= i16::MAX,
        ensures
            r@ == fire_tiles(*self, general.position.x, general.position.y),
    {
        let (t0, t1, t2) = match self.state {
            FireState::Off => (None, None, None),
            FireState::Ignition => {
                if self.counter % 2 > 0 {
                    match self.direction {
                        HorizontalDirection::Left => (None, None, Some(self.tile)),
                        _ => (Some(self.tile), None, None),
                    }
                } else {
                    (None, None, None)
                }
            },
            FireState::Burning => {
                let o = self.counter % 2;
                match self.direction {
                    HorizontalDirection::Left => (Some(self.tile + 3 + o), Some(self.tile + 1 + o), Some(self.tile + 1 + o)),
                    _ => (Some(self.tile + 1 + o), Some(self.tile + 1 + o), Some(self.tile + 3 + o)),
                }
            },
        };
        let x = general.position.x;
        let y = general.position.y;
        let mut r: Vec<DrawTile> = Vec::new();
        if let Some(t) = t0 {
            r.push(DrawTile { tile: t, x, y });
        }
        if let Some(t) = t1 {
            r.push(DrawTile { tile: t, x: x + 16, y });
        }
        if let Some(t) = t2 {
            r.push(DrawTile { tile: t, x: x + 32, y });
        }
        assert(r@ =~= fire_tiles(*self, x, y));
        r
    }
}

} // verus!
