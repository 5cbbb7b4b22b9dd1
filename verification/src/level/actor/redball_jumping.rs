//! A mine that jumps up and down.

use vstd::prelude::*;
use crate::consts::{ANIMATION_MINE, TILE_HEIGHT, TILE_WIDTH};
use super::{moved, sized, ActorData};

verus! {

/// How high above its base the mine is at each point of its jump.
pub open spec fn jump_height(counter: u16) -> int {
    if counter == 0 {
        0
    } else if counter == 1 || counter == 11 {
        16
    } else if counter == 2 || counter == 10 {
        28
    } else if counter == 3 || counter == 9 {
        36
    } else if counter == 4 || counter == 8 {
        40
    } else if counter == 5 || counter == 7 {
        41
    } else {
        42
    }
}

/// A jumping mine.
#[derive(Debug)]
pub struct RedBallJumping {
    pub tile: usize,
    pub counter: u16,
    pub base_y: u16,
}

impl RedBallJumping {
    pub open spec fn wf(self) -> bool {
        self.counter < 12
    }

    pub open spec fn spec_create(g: ActorData) -> (RedBallJumping, ActorData) {
        (RedBallJumping { tile: ANIMATION_MINE, counter: 0, base_y: g.position.y as u16 }, sized(g, TILE_WIDTH, TILE_HEIGHT))
    }

    pub fn create(general: &mut ActorData) -> (s: RedBallJumping)
        ensures
            final(general).actor_type == old(general).actor_type,
            (s, *final(general)) == RedBallJumping::spec_create(*old(general)),
            s.wf(),
    {
        general.position.w = TILE_WIDTH;
        general.position.h = TILE_HEIGHT;
        RedBallJumping { tile: ANIMATION_MINE, counter: 0, base_y: general.position.y as u16 }
    }

    /// One step: the mine goes to the next height of its jump.
    pub open spec fn spec_act(self, g: ActorData) -> (RedBallJumping, ActorData) {
        (
            RedBallJumping { counter: ((self.counter + 1) % 12) as u16, ..self },
            moved(g, g.position.x as int, self.base_y as i16 - jump_height(self.counter)),
        )
    }

    /// The heights of the jump above the base fit the range of a position.
    pub open spec fn act_ok(self) -> bool {
        self.base_y as i16 - 42 >= i16::MIN
    }

    pub fn act(&mut self, general: &mut ActorData)
        requires
            old(self).wf(),
            old(self).act_ok(),
        ensures
            final(general).actor_type == old(general).actor_type,
            (*final(self), *final(general)) == old(self).spec_act(*old(general)),
            final(self).wf(),
    {
        let distance: i16 = match self.counter {
            0 => 0,
            1 | 11 => 16,
            2 | 10 => 28,
            3 | 9 => 36,
            4 | 8 => 40,
            5 | 7 => 41,
            _ => 42,
        };
        general.position.y = self.base_y as i16 - distance;
        self.counter = (self.counter + 1) % 12;
    }
}

} // verus!
