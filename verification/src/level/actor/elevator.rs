//! The lift: the hero stands on it and uses it to rise; it sinks back
//! when the hero steps off.

use vstd::prelude::*;
use crate::consts::{TILE_HEIGHT, TILE_WIDTH};
use crate::events::UserEvent;
use crate::geometry::Geometry;
use crate::hero::{first_free_step, placed, push_result, pushed, shifted_v, HeroData};
use crate::infobox::InfoMessageQueue;
use crate::level::solids::{cell_index, scannable, solid_at, LevelSolids};
use crate::level::tiles::LevelTiles;
use super::{all_creatable, chat_of, env_of, parting_of, ActorData, ActorMessageQueue, ActorQueue, Chat, Env};

verus! {

#[derive(Clone, Copy, Debug, PartialEq, Eq, Structural)]
pub enum LiftState {
    Idle,
    Ascending,
    Descending,
}

/// One step down of a lowering lift: while it is taller than a tile, its
/// top tile is freed and it shrinks by a tile; else it stops.
pub open spec fn descend_once(g: ActorData, solids: Seq<bool>, state: LiftState) -> (LiftState, ActorData, Seq<bool>) {
    if g.position.h > 16 {
        (
            state,
            ActorData { position: Geometry { y: (g.position.y + 16) as i16, h: (g.position.h - 16) as u16, ..g.position }, ..g },
            solids.update(cell_index(g.position.x / 16, g.position.y / 16), false),
        )
    } else {
        (LiftState::Idle, g, solids)
    }
}

/// A level with the given solid tiles, hero and events, for a step that
/// looks at nothing else.
pub open spec fn lift_env(solids: Seq<bool>, hero: crate::hero::HeroView, events: Seq<UserEvent>) -> Env {
    Env { solids, tiles: seq![], queued: seq![], hero, do_play: true, events }
}

/// A lift, two tiles wide; its height is the height of its column.
#[derive(Debug)]
pub struct Elevator {
    pub state: LiftState,
}

impl Elevator {
    pub open spec fn with_state(state: LiftState) -> Elevator {
        Elevator { state }
    }

    pub open spec fn spec_create(g: ActorData) -> (Elevator, ActorData) {
        (
            Elevator { state: LiftState::Idle },
            ActorData {
                position: Geometry { w: (2 * TILE_WIDTH) as u16, h: TILE_HEIGHT, ..g.position },
                is_in_foreground: true,
                ..g
            },
        )
    }

    pub fn create(general: &mut ActorData) -> (s: Elevator)
        ensures
            final(general).actor_type == old(general).actor_type,
            (s, *final(general)) == Elevator::spec_create(*old(general)),
    {
        general.position.w = TILE_WIDTH * 2;
        general.position.h = TILE_HEIGHT;
        general.is_in_foreground = true;
        Elevator { state: LiftState::Idle }
    }

    /// The state of the lift once it checked whether the hero left it: a
    /// rising lift, or a raised one standing still, sinks when the hero no
    /// longer touches it right above its column.
    pub open spec fn checked_state(self, g: ActorData, h: Geometry) -> LiftState {
        if (self.state == LiftState::Ascending || (self.state == LiftState::Idle && g.position.h > 16))
            && (!h.spec_touches(g.position) || g.position.x != h.x) {
            LiftState::Descending
        } else {
            self.state
        }
    }

    /// The lift is blocked by a solid tile three tiles above its top.
    pub open spec fn blocked(g: ActorData, solids: Seq<bool>) -> bool {
        solid_at(solids, g.position.x / 16, g.position.y / 16 - 3)
    }

    /// The lift's column lies in the level with room above its top, and it
    /// can grow by a tile.
    pub open spec fn act_ok(self, g: ActorData) -> bool {
        &&& 0 <= g.position.x && g.position.x / 16 < 128
        &&& 48 <= g.position.y && (g.position.y + g.position.h) / 16 <= 90 && g.position.h >= 16
        &&& g.position.y + 32 <= i16::MAX
        &&& g.position.h + 16 <= u16::MAX
    }

    /// The hero can be pushed up by a rising lift, and back down where the
    /// hero could not rise a whole tile.
    pub open spec fn env_ok(self, g: ActorData, e: Env) -> bool {
        let h = e.hero.position;
        (self.checked_state(g, h) == LiftState::Ascending && !Elevator::blocked(g, e.solids)) ==> {
            let k = first_free_step(e.solids, h, -16, true, 0);
            let r = push_result(-16, k);
            let h1 = pushed(e.solids, h, -16, true).0;
            &&& h.y - 16 >= i16::MIN
            &&& scannable(h) && scannable(shifted_v(h, -16))
            &&& -r < 16 ==> {
                &&& i16::MIN <= h1.y - r <= i16::MAX
                &&& scannable(h1) && scannable(shifted_v(h1, -r))
            }
            &&& -r >= 16 ==> g.position.y + r >= 0
        }
    }

    /// A rising lift's step (see [`Elevator::spec_act`]).
    pub open spec fn spec_ascend(g: ActorData, e: Env) -> (Elevator, ActorData, Env) {
        let h = e.hero.position;
        if Elevator::blocked(g, e.solids) {
            (Elevator { state: LiftState::Idle }, g, e)
        } else {
            let k = first_free_step(e.solids, h, -16, true, 0);
            let r = push_result(-16, k);
            let (h1, m1) = pushed(e.solids, h, -16, true);
            let ev1 = if m1 { e.events.push(UserEvent::HeroMoved) } else { e.events };
            if -r < 16 {
                let (h2, m2) = pushed(e.solids, h1, -r, true);
                (
                    Elevator { state: LiftState::Idle },
                    g,
                    Env { hero: placed(e.hero, h2), events: if m2 { ev1.push(UserEvent::HeroMoved) } else { ev1 }, ..e },
                )
            } else {
                let y = g.position.y + r;
                (
                    Elevator { state: LiftState::Ascending },
                    ActorData { position: Geometry { h: (g.position.h - r) as u16, y: y as i16, ..g.position }, ..g },
                    Env {
                        hero: placed(e.hero, h1),
                        events: ev1,
                        solids: e.solids.update(cell_index(g.position.x / 16, y / 16), true),
                        ..e
                    },
                )
            }
        }
    }

    /// A sinking lift's step: up to two tiles down.
    pub open spec fn spec_descend(g: ActorData, solids: Seq<bool>) -> (LiftState, ActorData, Seq<bool>) {
        let (s1, g1, solids1) = descend_once(g, solids, LiftState::Descending);
        descend_once(g1, solids1, s1)
    }

    /// One step. A rising lift stops under a solid tile three tiles above
    /// it; else it pushes the hero up a tile: where the hero rose all the
    /// way, the lift grows a tile and its new top is solid; where not, the
    /// hero is pushed back down and the lift stops. A sinking lift shrinks
    /// by up to two tiles, freeing them, and stops at its base.
    pub open spec fn spec_act(self, g: ActorData, e: Env) -> (Elevator, ActorData, Env) {
        let state = self.checked_state(g, e.hero.position);
        if state == LiftState::Ascending {
            Elevator::spec_ascend(g, e)
        } else if state == LiftState::Descending {
            let (s2, g2, solids2) = Elevator::spec_descend(g, e.solids);
            (Elevator { state: s2 }, g2, Env { solids: solids2, ..e })
        } else {
            (Elevator { state }, g, e)
        }
    }

    fn ascend(&mut self, general: &mut ActorData, solids: &mut LevelSolids, hero: &mut HeroData, events: &mut Vec<UserEvent>)
        requires
            Elevator::with_state(LiftState::Ascending).act_ok(*old(general)),
            Elevator::with_state(LiftState::Ascending).env_ok(*old(general), lift_env(old(solids)@, old(hero)@, old(events)@)),
            Elevator::with_state(LiftState::Ascending).checked_state(*old(general), old(hero)@.position) == LiftState::Ascending,
            old(hero).wf(),
        ensures
            ({
                let (s1, g1, e1) = Elevator::spec_ascend(*old(general), lift_env(old(solids)@, old(hero)@, old(events)@));
                &&& *final(self) == s1
                &&& *final(general) == g1
                &&& final(solids)@ == e1.solids
                &&& final(hero)@ == e1.hero
                &&& final(events)@ == e1.events
            }),
            final(hero).wf(),
    {
        if solids.get(general.position.x as usize / 16, general.position.y as usize / 16 - 3) {
            self.state = LiftState::Idle;
        } else {
            let offset = hero.position.push_vertically(solids, -(TILE_HEIGHT as i16), events);
            if -offset < TILE_HEIGHT as i16 {
                hero.position.push_vertically(solids, -offset, events);
                self.state = LiftState::Idle;
            } else {
                general.position.h = general.position.h + (-offset) as u16;
                general.position.y = general.position.y + offset;
                solids.set(general.position.x as usize / 16, general.position.y as usize / 16, true);
                self.state = LiftState::Ascending;
            }
        }
    }

    fn descend(&mut self, general: &mut ActorData, solids: &mut LevelSolids)
        requires
            Elevator::with_state(LiftState::Descending).act_ok(*old(general)),
        ensures
            (final(self).state, *final(general), final(solids)@) == Elevator::spec_descend(*old(general), old(solids)@),
    {
        self.state = LiftState::Descending;
        if general.position.h > TILE_HEIGHT {
            solids.set(general.position.x as usize / 16, general.position.y as usize / 16, false);
            general.position.y = general.position.y + TILE_HEIGHT as i16;
            general.position.h = general.position.h - TILE_HEIGHT;
        } else {
            self.state = LiftState::Idle;
        }
        if general.position.h > TILE_HEIGHT {
            solids.set(general.position.x as usize / 16, general.position.y as usize / 16, false);
            general.position.y = general.position.y + TILE_HEIGHT as i16;
            general.position.h = general.position.h - TILE_HEIGHT;
        } else {
            self.state = LiftState::Idle;
        }
    }

    #[verifier::rlimit(50)]
    pub fn act(
        &mut self,
        general: &mut ActorData,
        solids: &mut LevelSolids,
        tiles: &mut LevelTiles,
        queue: &mut ActorQueue,
        hero: &mut HeroData,
        do_play: &mut bool,
        events: &mut Vec<UserEvent>,
    )
        requires
            old(self).act_ok(*old(general)),
            old(self).env_ok(*old(general), env_of(*old(solids), *old(tiles), *old(queue), *old(hero), *old(do_play), *old(events))),
            old(hero).wf(),
        ensures
            all_creatable(old(queue).actors@) ==> all_creatable(final(queue).actors@),
            final(general).actor_type == old(general).actor_type,
            (*final(self), *final(general), env_of(*final(solids), *final(tiles), *final(queue), *final(hero), *final(do_play), *final(events)))
                == old(self).spec_act(*old(general), env_of(*old(solids), *old(tiles), *old(queue), *old(hero), *old(do_play), *old(events))),
            final(hero).wf(),
    {
        let hero_geometry = hero.position.geometry;
        if self.state == LiftState::Ascending || self.state == LiftState::Idle && general.position.h > TILE_HEIGHT {
            if !hero_geometry.touches(general.position) || general.position.x != hero_geometry.x {
                self.state = LiftState::Descending;
            }
        }
        if self.state == LiftState::Ascending {
            self.ascend(general, solids, hero, events);
        } else if self.state == LiftState::Descending {
            self.descend(general, solids);
        }
        assert(env_of(*solids, *tiles, *queue, *hero, *do_play, *events) =~= old(self).spec_act(
            *old(general),
            env_of(*old(solids), *old(tiles), *old(queue), *old(hero), *old(do_play), *old(events)),
        ).2);
    }

    /// The hero's feet fit the range of a position.
    pub open spec fn interact_ok(c: Chat) -> bool {
        i16::MIN <= c.hero.position.y + c.hero.position.h as i16 <= i16::MAX
    }

    /// The hero standing on the lift makes it rise.
    pub open spec fn spec_interact_start(self, g: ActorData, c: Chat) -> (Elevator, ActorData, Chat) {
        let h = c.hero.position;
        if h.spec_touches(g.position) && h.y + h.h as i16 == g.position.y {
            (Elevator { state: LiftState::Ascending }, g, c)
        } else {
            (self, g, c)
        }
    }

    pub fn hero_interact_start(
        &mut self,
        general: &mut ActorData,
        level_passed: &mut bool,
        hero: &mut HeroData,
        infos: &mut InfoMessageQueue,
        messages: &mut ActorMessageQueue,
        events: &mut Vec<UserEvent>,
    )
        requires
            old(hero).wf(),
            Elevator::interact_ok(chat_of(*old(level_passed), *old(hero), *old(infos), *old(messages), *old(events))),
        ensures
            final(hero).wf(),
            final(general).actor_type == old(general).actor_type,
            (*final(self), *final(general), chat_of(*final(level_passed), *final(hero), *final(infos), *final(messages), *final(events)))
                == old(self).spec_interact_start(*old(general), chat_of(*old(level_passed), *old(hero), *old(infos), *old(messages), *old(events))),
    {
        let h = hero.position.geometry;
        if h.touches(general.position) && h.y + h.h as i16 == general.position.y {
            self.state = LiftState::Ascending;
        }
    }

    /// When the hero stops using the lift, it stays where the hero still
    /// stands on it right above its column, and else sinks.
    pub open spec fn spec_interact_end(self, g: ActorData, c: Chat) -> (Elevator, ActorData, Chat) {
        let h = c.hero.position;
        if h.spec_touches(g.position) && h.x == g.position.x {
            (Elevator { state: LiftState::Idle }, g, c)
        } else {
            (Elevator { state: LiftState::Descending }, g, c)
        }
    }

    pub fn hero_interact_end(
        &mut self,
        general: &mut ActorData,
        level_passed: &mut bool,
        hero: &mut HeroData,
        events: &mut Vec<UserEvent>,
    )
        requires
            old(hero).wf(),
        ensures
            final(hero).wf(),
            final(general).actor_type == old(general).actor_type,
            (*final(self), *final(general), parting_of(*final(level_passed), *final(hero), *final(events)))
                == old(self).spec_interact_end(*old(general), parting_of(*old(level_passed), *old(hero), *old(events))),
            final(hero)@ == old(hero)@,
    {
        let h = hero.position.geometry;
        if h.touches(general.position) && h.x == general.position.x {
            self.state = LiftState::Idle;
        } else {
            self.state = LiftState::Descending;
        }
    }
}

} // verus!
