//! Wall crawlers: bots that crawl up and down along a wall.

use vstd::prelude::*;
use crate::consts::{ANIMATION_WALLCRAWLERBOT_LEFT, ANIMATION_WALLCRAWLERBOT_RIGHT, TILE_HEIGHT, TILE_WIDTH};
use crate::events::{HorizontalDirection, UserEvent, VerticalDirection};
use crate::hero::{scored, HeroData};
use crate::level::solids::{solid_at, LevelSolids};
use crate::level::tiles::LevelTiles;
use super::{all_creatable, dead, env_of, moved, sized, spot, ActorData, ActorQueue, ActorType, Env};

verus! {

/// A wall crawler; its orientation is the side of its wall.
#[derive(Debug)]
pub struct WallCrawler {
    pub direction: VerticalDirection,
    pub orientation: HorizontalDirection,
    pub tile: usize,
    pub current_frame: usize,
    pub num_frames: usize,
    pub was_shot: bool,
    pub touching_hero: bool,
}

/// The column offset of the wall: -1 on the left, 1 on the right.
pub open spec fn wall_side(o: HorizontalDirection) -> int {
    if o == HorizontalDirection::Left { -1 } else { 1 }
}

impl WallCrawler {
    pub open spec fn wf(self) -> bool {
        &&& self.num_frames == 4
        &&& self.current_frame < 4
        &&& self.direction != VerticalDirection::Center
        &&& self.orientation != HorizontalDirection::Center
    }

    pub open spec fn spec_create(g: ActorData) -> (WallCrawler, ActorData) {
        let (tile, orientation) = if g.actor_type == ActorType::WallCrawlerBotLeft {
            (ANIMATION_WALLCRAWLERBOT_LEFT, HorizontalDirection::Left)
        } else {
            (ANIMATION_WALLCRAWLERBOT_RIGHT, HorizontalDirection::Right)
        };
        (
            WallCrawler {
                direction: VerticalDirection::Up,
                orientation,
                tile,
                current_frame: 0,
                num_frames: 4,
                was_shot: false,
                touching_hero: false,
            },
            ActorData { is_in_foreground: true, ..sized(g, TILE_WIDTH, TILE_HEIGHT) },
        )
    }

    pub fn create(general: &mut ActorData) -> (s: WallCrawler)
        requires
            old(general).actor_type == ActorType::WallCrawlerBotLeft
                || old(general).actor_type == ActorType::WallCrawlerBotRight,
        ensures
            final(general).actor_type == old(general).actor_type,
            (s, *final(general)) == WallCrawler::spec_create(*old(general)),
            s.wf(),
    {
        general.position.w = TILE_WIDTH;
        general.position.h = TILE_HEIGHT;
        general.is_in_foreground = true;
        let (tile, orientation) = if general.actor_type == ActorType::WallCrawlerBotLeft {
            (ANIMATION_WALLCRAWLERBOT_LEFT, HorizontalDirection::Left)
        } else {
            (ANIMATION_WALLCRAWLERBOT_RIGHT, HorizontalDirection::Right)
        };
        WallCrawler {
            direction: VerticalDirection::Up,
            orientation,
            tile,
            current_frame: 0,
            num_frames: 4,
            was_shot: false,
            touching_hero: false,
        }
    }

    pub fn hero_touch_start(&mut self, general: &mut ActorData)
        ensures
            final(general).actor_type == old(general).actor_type,
            *final(general) == (ActorData { hurts_hero: true, ..*old(general) }),
            *final(self) == (WallCrawler { touching_hero: true, ..*old(self) }),
    {
        general.hurts_hero = true;
        self.touching_hero = true;
    }

    pub fn hero_touch_end(&mut self, general: &mut ActorData)
        ensures
            final(general).actor_type == old(general).actor_type,
            *final(general) == (ActorData { hurts_hero: false, ..*old(general) }),
            *final(self) == (WallCrawler { touching_hero: false, ..*old(self) }),
    {
        general.hurts_hero = false;
        self.touching_hero = false;
    }

    /// The tiles the crawler looks at lie in the level.
    pub open spec fn act_ok(self, g: ActorData) -> bool {
        let wall = g.position.x + wall_side(self.orientation) * 16;
        let row = if self.direction == VerticalDirection::Up { g.position.y - 1 } else { g.position.y + 16 };
        &&& 0 <= g.position.x && g.position.x / 16 < 128
        &&& 0 <= g.position.y
        &&& 0 <= wall && wall / 16 < 128
        &&& 0 <= row && row / 16 < 90
    }

    /// One step: the crawler moves a pixel along its wall, with its
    /// animation running forward going up and backward going down; it turns
    /// around where a solid tile blocks its way or its wall ends.
    pub open spec fn spec_act(self, g: ActorData, solids: Seq<bool>) -> (WallCrawler, ActorData) {
        let x = g.position.x as int;
        let y = g.position.y as int;
        let wall = (x + wall_side(self.orientation) * 16) / 16;
        if self.direction == VerticalDirection::Up {
            let s = WallCrawler { current_frame: ((self.current_frame + 1) % 4) as usize, ..self };
            let row = (y - 1) / 16;
            if solid_at(solids, x / 16, row) || !solid_at(solids, wall, row) {
                (WallCrawler { direction: VerticalDirection::Down, ..s }, moved(g, x, y + 1))
            } else {
                (s, moved(g, x, y - 1))
            }
        } else {
            let frame = if self.current_frame == 0 { 3usize } else { (self.current_frame - 1) as usize };
            let s = WallCrawler { current_frame: frame, ..self };
            let row = (y + 16) / 16;
            if solid_at(solids, x / 16, row) || !solid_at(solids, wall, row) {
                (WallCrawler { direction: VerticalDirection::Up, ..s }, moved(g, x, y - 1))
            } else {
                (s, moved(g, x, y + 1))
            }
        }
    }

    pub fn act(&mut self, general: &mut ActorData, solids: &LevelSolids)
        requires
            old(self).wf(),
            old(self).act_ok(*old(general)),
        ensures
            final(general).actor_type == old(general).actor_type,
            (*final(self), *final(general)) == old(self).spec_act(*old(general), solids@),
            final(self).wf(),
    {
        let x = general.position.x;
        let wall: i16 = if self.orientation == HorizontalDirection::Left { x - 16 } else { x + 16 };
        let tx = x as usize / 16;
        let twall = wall as usize / 16;
        if self.direction == VerticalDirection::Up {
            self.current_frame = (self.current_frame + 1) % self.num_frames;
            let row = (general.position.y as usize - 1) / 16;
            if solids.get(tx, row) || !solids.get(twall, row) {
                general.position.y = general.position.y + 1;
                self.direction = VerticalDirection::Down;
            } else {
                general.position.y = general.position.y - 1;
            }
        } else {
            if self.current_frame == 0 {
                self.current_frame = self.num_frames;
            }
            self.current_frame = self.current_frame - 1;
            let row = (general.position.y as usize + 16) / 16;
            if solids.get(tx, row) || !solids.get(twall, row) {
                general.position.y = general.position.y - 1;
                self.direction = VerticalDirection::Up;
            } else {
                general.position.y = general.position.y + 1;
            }
        }
    }

    /// A shot destroys the crawler for 100 points, in steam and an
    /// explosion.
    pub open spec fn spec_shot(self, g: ActorData, e: Env) -> (WallCrawler, ActorData, Env) {
        if !self.was_shot {
            let (s, g1) = if self.touching_hero {
                (WallCrawler { touching_hero: false, current_frame: 0, ..self }, ActorData { hurts_hero: false, ..g })
            } else {
                (self, g)
            };
            (
                s,
                dead(g1),
                Env {
                    hero: scored(e.hero, 100),
                    events: e.events.push(UserEvent::HeroScored),
                    queued: e.queued.push(spot(g, ActorType::Steam)).push(spot(g, ActorType::Explosion)),
                    ..e
                },
            )
        } else {
            (self, g, e)
        }
    }

    pub fn shot(
        &mut self,
        general: &mut ActorData,
        solids: &mut LevelSolids,
        tiles: &mut LevelTiles,
        queue: &mut ActorQueue,
        hero: &mut HeroData,
        do_play: &mut bool,
        events: &mut Vec<UserEvent>,
    )
        requires
            old(self).wf(),
            old(hero).wf(),
        ensures
            all_creatable(old(queue).actors@) ==> all_creatable(final(queue).actors@),
            final(general).actor_type == old(general).actor_type,
            (*final(self), *final(general), env_of(*final(solids), *final(tiles), *final(queue), *final(hero), *final(do_play), *final(events)))
                == old(self).spec_shot(*old(general), env_of(*old(solids), *old(tiles), *old(queue), *old(hero), *old(do_play), *old(events))),
            final(self).wf(),
            final(hero).wf(),
    {
        if !self.was_shot {
            if self.touching_hero {
                general.hurts_hero = false;
                self.touching_hero = false;
                self.current_frame = 0;
            }
            general.is_alive = false;
            hero.score.add(100, events);
            queue.push_back(ActorType::Steam, general.position.x as u16, general.position.y as u16);
            queue.push_back(ActorType::Explosion, general.position.x as u16, general.position.y as u16);
        }
        assert(env_of(*solids, *tiles, *queue, *hero, *do_play, *events) =~= old(self).spec_shot(
            *old(general),
            env_of(*old(solids), *old(tiles), *old(queue), *old(hero), *old(do_play), *old(events)),
        ).2);
    }
}

} // verus!
