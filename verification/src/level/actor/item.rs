//! Things lying around in a level: boxes that break open when shot, and the
//! goodies inside them that the hero picks up by touching them.

use vstd::prelude::*;
use crate::consts::{
    ANIMATION_SODA, HALFTILE_HEIGHT, OBJECT_ACCESS_CARD, OBJECT_BOOT, OBJECT_BOX_BLUE,
    OBJECT_BOX_GREY, OBJECT_BOX_RED, OBJECT_CHICKEN_DOUBLE, OBJECT_CHICKEN_SINGLE, OBJECT_CLAMP,
    OBJECT_DISK, OBJECT_FLAG, OBJECT_FOOTBALL, OBJECT_GLOVE, OBJECT_GUN, OBJECT_JOYSTICK,
    OBJECT_LETTER_D, OBJECT_LETTER_E, OBJECT_LETTER_K, OBJECT_LETTER_U, OBJECT_NUCLEARMOLECULE,
    OBJECT_RADIO, TILE_HEIGHT, TILE_WIDTH,
};
use crate::events::UserEvent;
use crate::hero::{
    armed, full_health, given, healed, lettered, scored, FetchedLetter, HeroData, HeroView, InventoryItem,
};
use crate::level::solids::{solid_at, LevelSolids};
use crate::level::tiles::LevelTiles;
use super::{all_creatable, lemma_creatable_concat, lemma_creatable_push, lemma_firework_creatable, 
    dead, env_of, moved, sized, spot, ActorData, ActorQueue, ActorQueueItem, ActorType, Env,
    firework,
};

verus! {

/// The tile and the number of animation frames of each kind of item, or
/// `None` for a kind that is no item.
pub open spec fn item_look(t: ActorType) -> Option<(usize, usize)> {
    match t {
        ActorType::BoxRedSoda | ActorType::BoxRedChicken => Some((OBJECT_BOX_RED, 1)),
        ActorType::BoxBlueFootball | ActorType::BoxBlueJoystick | ActorType::BoxBlueDisk
        | ActorType::BoxBlueBalloon | ActorType::BoxBlueFlag | ActorType::BoxBlueRadio => Some(
            (OBJECT_BOX_BLUE, 1),
        ),
        ActorType::BoxGreyEmpty | ActorType::BoxGreyBoots | ActorType::BoxGreyClamps
        | ActorType::BoxGreyGun | ActorType::BoxGreyBomb | ActorType::BoxGreyGlove
        | ActorType::BoxGreyFullLife | ActorType::BoxGreyAccessCard | ActorType::BoxGreyLetterD
        | ActorType::BoxGreyLetterU | ActorType::BoxGreyLetterK | ActorType::BoxGreyLetterE => Some(
            (OBJECT_BOX_GREY, 1),
        ),
        ActorType::Joystick => Some((OBJECT_JOYSTICK, 1)),
        ActorType::Football => Some((OBJECT_FOOTBALL, 1)),
        ActorType::Flag => Some((OBJECT_FLAG, 3)),
        ActorType::Disk => Some((OBJECT_DISK, 1)),
        ActorType::Radio => Some((OBJECT_RADIO, 3)),
        ActorType::Soda => Some((ANIMATION_SODA, 4)),
        ActorType::Boots => Some((OBJECT_BOOT, 1)),
        ActorType::Gun => Some((OBJECT_GUN, 1)),
        ActorType::FullLife => Some((OBJECT_NUCLEARMOLECULE, 8)),
        ActorType::ChickenSingle => Some((OBJECT_CHICKEN_SINGLE, 1)),
        ActorType::ChickenDouble => Some((OBJECT_CHICKEN_DOUBLE, 1)),
        ActorType::LetterD => Some((OBJECT_LETTER_D, 1)),
        ActorType::LetterU => Some((OBJECT_LETTER_U, 1)),
        ActorType::LetterK => Some((OBJECT_LETTER_K, 1)),
        ActorType::LetterE => Some((OBJECT_LETTER_E, 1)),
        ActorType::AccessCard => Some((OBJECT_ACCESS_CARD, 1)),
        ActorType::Glove => Some((OBJECT_GLOVE, 1)),
        ActorType::Clamps => Some((OBJECT_CLAMP, 1)),
        _ => None,
    }
}

/// The goody that a box holds and the kind of box it is; `None` for an
/// empty box and for everything that is no box.
pub open spec fn box_content(t: ActorType) -> Option<ActorType> {
    match t {
        ActorType::BoxBlueFootball => Some(ActorType::Football),
        ActorType::BoxBlueJoystick => Some(ActorType::Joystick),
        ActorType::BoxBlueDisk => Some(ActorType::Disk),
        ActorType::BoxBlueBalloon => Some(ActorType::Balloon),
        ActorType::BoxBlueFlag => Some(ActorType::Flag),
        ActorType::BoxBlueRadio => Some(ActorType::Radio),
        ActorType::BoxRedSoda => Some(ActorType::Soda),
        ActorType::BoxRedChicken => Some(ActorType::ChickenSingle),
        ActorType::BoxGreyBoots => Some(ActorType::Boots),
        ActorType::BoxGreyClamps => Some(ActorType::Clamps),
        ActorType::BoxGreyGun => Some(ActorType::Gun),
        ActorType::BoxGreyBomb => Some(ActorType::Bomb),
        ActorType::BoxGreyGlove => Some(ActorType::Glove),
        ActorType::BoxGreyFullLife => Some(ActorType::FullLife),
        ActorType::BoxGreyAccessCard => Some(ActorType::AccessCard),
        ActorType::BoxGreyLetterD => Some(ActorType::LetterD),
        ActorType::BoxGreyLetterU => Some(ActorType::LetterU),
        ActorType::BoxGreyLetterK => Some(ActorType::LetterK),
        ActorType::BoxGreyLetterE => Some(ActorType::LetterE),
        _ => None,
    }
}

/// The kinds that are boxes.
pub open spec fn is_box(t: ActorType) -> bool {
    box_content(t) is Some || t == ActorType::BoxGreyEmpty
}

/// The points a goody gives, and the kind of score sign that shows them,
/// for the goodies whose reward does not depend on anything else.
pub open spec fn fixed_reward(t: ActorType) -> Option<(u64, ActorType)> {
    match t {
        ActorType::LetterD | ActorType::LetterU | ActorType::LetterK => Some((500, ActorType::Score500)),
        ActorType::FullLife | ActorType::Gun | ActorType::AccessCard | ActorType::Glove
        | ActorType::Boots | ActorType::Clamps => Some((1000, ActorType::Score1000)),
        ActorType::Football | ActorType::ChickenSingle => Some((100, ActorType::Score100)),
        ActorType::Disk => Some((5000, ActorType::Score5000)),
        ActorType::Joystick => Some((2000, ActorType::Score2000)),
        ActorType::Soda | ActorType::ChickenDouble => Some((200, ActorType::Score200)),
        _ => None,
    }
}

/// The reward for a flag or a radio in animation frame `frame`.
pub open spec fn frame_reward(frame: usize) -> (u64, ActorType) {
    if frame == 0 {
        (100, ActorType::Score100)
    } else if frame == 1 {
        (2000, ActorType::Score2000)
    } else {
        (5000, ActorType::Score5000)
    }
}

/// What a goody does to the hero besides the points.
pub open spec fn boon(h: HeroView, t: ActorType) -> HeroView {
    match t {
        ActorType::LetterD => lettered(h, FetchedLetter::D),
        ActorType::LetterU => lettered(h, FetchedLetter::U),
        ActorType::LetterK => lettered(h, FetchedLetter::K),
        ActorType::FullLife => full_health(h),
        ActorType::Gun => armed(h, 1),
        ActorType::AccessCard => given(h, InventoryItem::AccessCard),
        ActorType::Glove => given(h, InventoryItem::Glove),
        ActorType::Boots => given(h, InventoryItem::Boot),
        ActorType::Clamps => given(h, InventoryItem::Clamp),
        ActorType::Soda | ActorType::ChickenSingle => healed(h, 1),
        ActorType::ChickenDouble => healed(h, 2),
        _ => h,
    }
}

/// The events announcing what [`boon`] changed.
pub open spec fn boon_events(t: ActorType) -> Seq<UserEvent> {
    match t {
        ActorType::FullLife | ActorType::Soda | ActorType::ChickenSingle
        | ActorType::ChickenDouble => seq![UserEvent::HeroHealthChanged],
        ActorType::Gun => seq![UserEvent::HeroFirepowerChanged],
        ActorType::AccessCard | ActorType::Glove | ActorType::Boots
        | ActorType::Clamps => seq![UserEvent::HeroInventoryChanged],
        _ => seq![],
    }
}

fn reward_of(t: ActorType) -> (r: Option<(u64, ActorType)>)
    ensures
        r == fixed_reward(t),
{
    match t {
        ActorType::LetterD | ActorType::LetterU | ActorType::LetterK => Some((500, ActorType::Score500)),
        ActorType::FullLife | ActorType::Gun | ActorType::AccessCard | ActorType::Glove
        | ActorType::Boots | ActorType::Clamps => Some((1000, ActorType::Score1000)),
        ActorType::Football | ActorType::ChickenSingle => Some((100, ActorType::Score100)),
        ActorType::Disk => Some((5000, ActorType::Score5000)),
        ActorType::Joystick => Some((2000, ActorType::Score2000)),
        ActorType::Soda | ActorType::ChickenDouble => Some((200, ActorType::Score200)),
        _ => None,
    }
}

/// Gives the hero what a goody of kind `t` holds.
fn grant(t: ActorType, hero: &mut HeroData, events: &mut Vec<UserEvent>)
    requires
        old(hero).wf(),
    ensures
        final(hero)@ == boon(old(hero)@, t),
        final(events)@ == old(events)@ + boon_events(t),
        final(hero).wf(),
{
    match t {
        ActorType::LetterD => hero.fetched_letter_state.picked(FetchedLetter::D),
        ActorType::LetterU => hero.fetched_letter_state.picked(FetchedLetter::U),
        ActorType::LetterK => hero.fetched_letter_state.picked(FetchedLetter::K),
        ActorType::FullLife => hero.health.fill_max(events),
        ActorType::Gun => hero.firepower.increase(1, events),
        ActorType::AccessCard => hero.inventory.set(InventoryItem::AccessCard, events),
        ActorType::Glove => hero.inventory.set(InventoryItem::Glove, events),
        ActorType::Boots => hero.inventory.set(InventoryItem::Boot, events),
        ActorType::Clamps => hero.inventory.set(InventoryItem::Clamp, events),
        ActorType::Soda | ActorType::ChickenSingle => hero.health.increase(1, events),
        ActorType::ChickenDouble => hero.health.increase(2, events),
        _ => {},
    }
    assert(events@ =~= old(events)@ + boon_events(t));
}

/// An item: a box or a goody.
#[derive(Debug)]
pub struct Item {
    pub tile: usize,
    pub current_frame: usize,
    pub num_frames: usize,
}

impl Item {
    /// The item's frame counter matches its kind.
    pub open spec fn wf(self, g: ActorData) -> bool {
        &&& item_look(g.actor_type) == Some((self.tile, self.num_frames))
        &&& self.current_frame < self.num_frames
    }

    pub open spec fn spec_create(g: ActorData) -> (Item, ActorData) {
        let (tile, num_frames) = item_look(g.actor_type).unwrap();
        (
            Item { tile, current_frame: 0, num_frames },
            ActorData { is_in_foreground: false, ..sized(g, TILE_WIDTH, TILE_HEIGHT) },
        )
    }

    pub fn create(general: &mut ActorData) -> (s: Item)
        requires
            item_look(old(general).actor_type) is Some,
        ensures
            final(general).actor_type == old(general).actor_type,
            (s, *final(general)) == Item::spec_create(*old(general)),
            s.wf(*final(general)),
    {
        general.position.w = TILE_WIDTH;
        general.position.h = TILE_HEIGHT;
        general.is_in_foreground = false;
        let (tile, num_frames): (usize, usize) = match general.actor_type {
            ActorType::BoxRedSoda | ActorType::BoxRedChicken => (OBJECT_BOX_RED, 1),
            ActorType::BoxBlueFootball | ActorType::BoxBlueJoystick | ActorType::BoxBlueDisk
            | ActorType::BoxBlueBalloon | ActorType::BoxBlueFlag | ActorType::BoxBlueRadio => (
                OBJECT_BOX_BLUE,
                1,
            ),
            ActorType::Joystick => (OBJECT_JOYSTICK, 1),
            ActorType::Football => (OBJECT_FOOTBALL, 1),
            ActorType::Flag => (OBJECT_FLAG, 3),
            ActorType::Disk => (OBJECT_DISK, 1),
            ActorType::Radio => (OBJECT_RADIO, 3),
            ActorType::Soda => (ANIMATION_SODA, 4),
            ActorType::Boots => (OBJECT_BOOT, 1),
            ActorType::Gun => (OBJECT_GUN, 1),
            ActorType::FullLife => (OBJECT_NUCLEARMOLECULE, 8),
            ActorType::ChickenSingle => (OBJECT_CHICKEN_SINGLE, 1),
            ActorType::ChickenDouble => (OBJECT_CHICKEN_DOUBLE, 1),
            ActorType::LetterD => (OBJECT_LETTER_D, 1),
            ActorType::LetterU => (OBJECT_LETTER_U, 1),
            ActorType::LetterK => (OBJECT_LETTER_K, 1),
            ActorType::LetterE => (OBJECT_LETTER_E, 1),
            ActorType::AccessCard => (OBJECT_ACCESS_CARD, 1),
            ActorType::Glove => (OBJECT_GLOVE, 1),
            ActorType::Clamps => (OBJECT_CLAMP, 1),
            _ => (OBJECT_BOX_GREY, 1),
        };
        Item { tile, current_frame: 0, num_frames }
    }

    /// The item lies where the tile below it can be looked up, and can
    /// fall half a tile.
    pub open spec fn act_ok(self, g: ActorData) -> bool {
        &&& 0 <= g.position.x
        &&& 0 <= g.position.y
        &&& g.position.x / 16 < 128
        &&& g.position.y / 16 + 1 < 90
    }

    /// One step: the animation advances, and an item that does not rest
    /// on a solid tile falls half a tile.
    pub open spec fn spec_act(self, g: ActorData, e: Env) -> (Item, ActorData, Env) {
        let s = Item { current_frame: ((self.current_frame + 1) % (self.num_frames as int)) as usize, ..self };
        if solid_at(e.solids, g.position.x / 16, g.position.y / 16 + 1) {
            (s, g, e)
        } else {
            (s, moved(g, g.position.x as int, g.position.y + 8), e)
        }
    }

    pub fn act(
        &mut self,
        general: &mut ActorData,
        solids: &mut LevelSolids,
        tiles: &mut LevelTiles,
        queue: &mut ActorQueue,
        hero: &mut HeroData,
        do_play: &mut bool,
        events: &mut Vec<UserEvent>,
    )
        requires
            old(hero).wf(),
            old(self).wf(*old(general)),
            old(self).act_ok(*old(general)),
        ensures
            final(hero).wf(),
            all_creatable(old(queue).actors@) ==> all_creatable(final(queue).actors@),
            final(general).actor_type == old(general).actor_type,
            (*final(self), *final(general), env_of(*final(solids), *final(tiles), *final(queue), *final(hero), *final(do_play), *final(events)))
                == old(self).spec_act(*old(general), env_of(*old(solids), *old(tiles), *old(queue), *old(hero), *old(do_play), *old(events))),
            final(self).wf(*final(general)),
    {
        self.current_frame = (self.current_frame + 1) % self.num_frames;
        let x = general.position.x as usize / 16;
        let y = general.position.y as usize / 16 + 1;
        if !solids.get(x, y) {
            general.position.y = general.position.y + HALFTILE_HEIGHT as i16;
        }
    }

    /// The item is gone, the hero changed to `hero` and scored `points`
    /// after the events `evs`, and a score sign of kind `sign` shows them.
    pub open spec fn picked_up(
        self,
        g: ActorData,
        e: Env,
        hero: HeroView,
        points: u64,
        sign: ActorType,
        evs: Seq<UserEvent>,
    ) -> (Item, ActorData, Env) {
        (
            self,
            dead(g),
            Env {
                hero: scored(hero, points),
                queued: e.queued.push(spot(g, sign)),
                events: e.events + evs.push(UserEvent::HeroScored),
                ..e
            },
        )
    }

    /// The hero picks up a goody: it disappears, the hero gets what it
    /// holds and its points, and a score sign shows them. Boxes do nothing.
    /// The last letter of the bonus word gives 500 points, and then 10000
    /// more where it completes the word, else 500 more.
    pub open spec fn spec_touch_start(self, g: ActorData, e: Env) -> (Item, ActorData, Env) {
        let h = e.hero;
        let t = g.actor_type;
        if t == ActorType::LetterE {
            let h1 = scored(lettered(h, FetchedLetter::E), 500);
            let ev1 = seq![UserEvent::HeroScored];
            if h1.letters == Some(FetchedLetter::E) {
                self.picked_up(g, e, h1, 10000, ActorType::Score10000, ev1)
            } else {
                self.picked_up(g, e, h1, 500, ActorType::Score500, ev1)
            }
        } else if t == ActorType::Radio || t == ActorType::Flag {
            let (points, sign) = frame_reward(self.current_frame);
            self.picked_up(g, e, h, points, sign, seq![])
        } else if let Some((points, sign)) = fixed_reward(t) {
            self.picked_up(g, e, boon(h, t), points, sign, boon_events(t))
        } else {
            (self, g, e)
        }
    }

    fn reward(
        general: &mut ActorData,
        queue: &mut ActorQueue,
        hero: &mut HeroData,
        events: &mut Vec<UserEvent>,
        points: u64,
        sign: ActorType,
    )
        requires
            super::specific::creatable(sign),
        ensures
            all_creatable(old(queue).actors@) ==> all_creatable(final(queue).actors@),
            *final(general) == dead(*old(general)),
            final(hero)@ == scored(old(hero)@, points),
            final(queue).actors@ == old(queue).actors@.push(spot(*old(general), sign)),
            final(events)@ == old(events)@.push(UserEvent::HeroScored),
            final(hero).wf() == old(hero).wf(),
    {
        general.is_alive = false;
        hero.score.add(points, events);
        queue.push_back(sign, general.position.x as u16, general.position.y as u16);
        proof {
            if all_creatable(old(queue).actors@) {
                lemma_creatable_push(old(queue).actors@, spot(*old(general), sign));
            }
        }
    }

    pub fn hero_touch_start(
        &mut self,
        general: &mut ActorData,
        solids: &mut LevelSolids,
        tiles: &mut LevelTiles,
        queue: &mut ActorQueue,
        hero: &mut HeroData,
        do_play: &mut bool,
        events: &mut Vec<UserEvent>,
    )
        requires
            old(self).wf(*old(general)),
            old(hero).wf(),
        ensures
            old(self).act_ok(*old(general)) ==> final(self).act_ok(*final(general)),
            all_creatable(old(queue).actors@) ==> all_creatable(final(queue).actors@),
            final(general).actor_type == old(general).actor_type,
            (*final(self), *final(general), env_of(*final(solids), *final(tiles), *final(queue), *final(hero), *final(do_play), *final(events)))
                == old(self).spec_touch_start(*old(general), env_of(*old(solids), *old(tiles), *old(queue), *old(hero), *old(do_play), *old(events))),
            final(self).wf(*final(general)),
            final(hero).wf(),
    {
        let t = general.actor_type;
        if t == ActorType::LetterE {
            hero.fetched_letter_state.picked(FetchedLetter::E);
            hero.score.add(500, events);
            if hero.fetched_letter_state.succeeded() {
                Self::reward(general, queue, hero, events, 10000, ActorType::Score10000);
            } else {
                Self::reward(general, queue, hero, events, 500, ActorType::Score500);
            }
        } else if t == ActorType::Radio || t == ActorType::Flag {
            if self.current_frame == 0 {
                Self::reward(general, queue, hero, events, 100, ActorType::Score100);
            } else if self.current_frame == 1 {
                Self::reward(general, queue, hero, events, 2000, ActorType::Score2000);
            } else {
                Self::reward(general, queue, hero, events, 5000, ActorType::Score5000);
            }
        } else {
            match reward_of(t) {
                Some((points, sign)) => {
                    grant(t, hero, events);
                    Self::reward(general, queue, hero, events, points, sign);
                },
                None => {},
            }
        }
        assert(env_of(*solids, *tiles, *queue, *hero, *do_play, *events) =~= self.spec_touch_start(
            *old(general),
            env_of(*old(solids), *old(tiles), *old(queue), *old(hero), *old(do_play), *old(events)),
        ).2);
    }

    /// The item can be shot where the sign for a balloon fits above it.
    pub open spec fn shot_ok(self, g: ActorData) -> bool {
        g.actor_type == ActorType::BoxBlueBalloon ==> g.position.y as u16 >= TILE_HEIGHT
    }

    /// A shot box breaks: it disappears in a firework of four particles and
    /// leaves what it held (a balloon rises a tile above it). A single
    /// chicken that is shot becomes a double one, a soda can flies away.
    pub open spec fn spec_shot(self, g: ActorData, e: Env) -> (Item, ActorData, Env) {
        let x = g.position.x as u16;
        let y = g.position.y as u16;
        let t = g.actor_type;
        if is_box(t) {
            let content = match box_content(t) {
                Some(c) => if c == ActorType::Balloon {
                    seq![ActorQueueItem { actor_type: c, x, y: (y - TILE_HEIGHT) as u16 }]
                } else {
                    seq![ActorQueueItem { actor_type: c, x, y }]
                },
                None => seq![],
            };
            (self, dead(g), Env { queued: e.queued + content + firework(x, y, 4), ..e })
        } else if t == ActorType::ChickenSingle {
            (self, dead(g), Env { queued: e.queued.push(spot(g, ActorType::ChickenDouble)), ..e })
        } else if t == ActorType::Soda {
            (self, dead(g), Env { queued: e.queued.push(spot(g, ActorType::SodaFlying)), ..e })
        } else {
            (self, g, e)
        }
    }

    pub fn shot(
        &mut self,
        general: &mut ActorData,
        solids: &mut LevelSolids,
        tiles: &mut LevelTiles,
        queue: &mut ActorQueue,
        hero: &mut HeroData,
        do_play: &mut bool,
        events: &mut Vec<UserEvent>,
    )
        requires
            old(hero).wf(),
            old(self).shot_ok(*old(general)),
        ensures
            old(self).wf(*old(general)) ==> final(self).wf(*final(general)),
            final(hero).wf(),
            all_creatable(old(queue).actors@) ==> all_creatable(final(queue).actors@),
            final(general).actor_type == old(general).actor_type,
            (*final(self), *final(general), env_of(*final(solids), *final(tiles), *final(queue), *final(hero), *final(do_play), *final(events)))
                == old(self).spec_shot(*old(general), env_of(*old(solids), *old(tiles), *old(queue), *old(hero), *old(do_play), *old(events))),
    {
        let x = general.position.x as u16;
        let y = general.position.y as u16;
        let content: Option<ActorType> = match general.actor_type {
            ActorType::BoxBlueFootball => Some(ActorType::Football),
            ActorType::BoxBlueJoystick => Some(ActorType::Joystick),
            ActorType::BoxBlueDisk => Some(ActorType::Disk),
            ActorType::BoxBlueBalloon => Some(ActorType::Balloon),
            ActorType::BoxBlueFlag => Some(ActorType::Flag),
            ActorType::BoxBlueRadio => Some(ActorType::Radio),
            ActorType::BoxRedSoda => Some(ActorType::Soda),
            ActorType::BoxRedChicken => Some(ActorType::ChickenSingle),
            ActorType::BoxGreyBoots => Some(ActorType::Boots),
            ActorType::BoxGreyClamps => Some(ActorType::Clamps),
            ActorType::BoxGreyGun => Some(ActorType::Gun),
            ActorType::BoxGreyBomb => Some(ActorType::Bomb),
            ActorType::BoxGreyGlove => Some(ActorType::Glove),
            ActorType::BoxGreyFullLife => Some(ActorType::FullLife),
            ActorType::BoxGreyAccessCard => Some(ActorType::AccessCard),
            ActorType::BoxGreyLetterD => Some(ActorType::LetterD),
            ActorType::BoxGreyLetterU => Some(ActorType::LetterU),
            ActorType::BoxGreyLetterK => Some(ActorType::LetterK),
            ActorType::BoxGreyLetterE => Some(ActorType::LetterE),
            _ => None,
        };
        let is_box = content.is_some() || general.actor_type == ActorType::BoxGreyEmpty;
        if is_box {
            general.is_alive = false;
            match content {
                Some(c) => {
                    if c == ActorType::Balloon {
                        queue.push_back(c, x, y - TILE_HEIGHT);
                    } else {
                        queue.push_back(c, x, y);
                    }
                    proof {
                        if all_creatable(old(queue).actors@) {
                            lemma_creatable_push(old(queue).actors@, queue.actors@.last());
                        }
                    }
                },
                None => {},
            }
            let ghost before = queue.actors@;
            queue.push_particle_firework(x, y, 4);
            proof {
                lemma_firework_creatable(x, y, 4);
                if all_creatable(before) {
                    lemma_creatable_concat(before, firework(x, y, 4));
                }
            }
        } else if general.actor_type == ActorType::ChickenSingle {
            general.is_alive = false;
            queue.push_back(ActorType::ChickenDouble, x, y);
        } else if general.actor_type == ActorType::Soda {
            general.is_alive = false;
            queue.push_back(ActorType::SodaFlying, x, y);
        }
        assert(env_of(*solids, *tiles, *queue, *hero, *do_play, *events) =~= self.spec_shot(
            *old(general),
            env_of(*old(solids), *old(tiles), *old(queue), *old(hero), *old(do_play), *old(events)),
        ).2);
    }
}

/// The inventory item a goody of kind `t` gives the hero, if any.
pub open spec fn granted_item(t: ActorType) -> Option<InventoryItem> {
    match t {
        ActorType::Boots => Some(InventoryItem::Boot),
        ActorType::Glove => Some(InventoryItem::Glove),
        ActorType::Clamps => Some(InventoryItem::Clamp),
        ActorType::AccessCard => Some(InventoryItem::AccessCard),
        _ => None,
    }
}

/// Picking up a goody puts its own inventory item into the hero's
/// inventory and leaves the rest of the inventory as it was; a goody that
/// gives no item, or an item that is no goody, leaves the inventory alone.
pub proof fn lemma_goody_grants_its_item(s: Item, g: ActorData, e: Env)
    ensures
        s.spec_touch_start(g, e).2.hero.inventory == match granted_item(g.actor_type) {
            Some(item) => e.hero.inventory.insert(item),
            None => e.hero.inventory,
        },
{
}

/// The goody inside a box of kind `t`, if the box holds one.
pub open spec fn box_goody(t: ActorType) -> Option<ActorType> {
    match t {
        ActorType::BoxGreyBoots => Some(ActorType::Boots),
        ActorType::BoxGreyClamps => Some(ActorType::Clamps),
        ActorType::BoxGreyGun => Some(ActorType::Gun),
        ActorType::BoxGreyBomb => Some(ActorType::Bomb),
        ActorType::BoxGreyGlove => Some(ActorType::Glove),
        ActorType::BoxGreyFullLife => Some(ActorType::FullLife),
        ActorType::BoxGreyAccessCard => Some(ActorType::AccessCard),
        ActorType::BoxGreyLetterD => Some(ActorType::LetterD),
        ActorType::BoxGreyLetterU => Some(ActorType::LetterU),
        ActorType::BoxGreyLetterK => Some(ActorType::LetterK),
        ActorType::BoxGreyLetterE => Some(ActorType::LetterE),
        ActorType::BoxRedSoda => Some(ActorType::Soda),
        ActorType::BoxRedChicken => Some(ActorType::ChickenSingle),
        ActorType::BoxBlueFootball => Some(ActorType::Football),
        ActorType::BoxBlueJoystick => Some(ActorType::Joystick),
        ActorType::BoxBlueDisk => Some(ActorType::Disk),
        ActorType::BoxBlueBalloon => Some(ActorType::Balloon),
        ActorType::BoxBlueFlag => Some(ActorType::Flag),
        ActorType::BoxBlueRadio => Some(ActorType::Radio),
        _ => None,
    }
}

/// A shot box breaks: it is gone, and the goody it holds appears where it
/// stood (a balloon a tile higher), followed by a firework of four sparks;
/// an empty box gives only the sparks.
pub proof fn lemma_shot_box_releases_its_goody(s: Item, g: ActorData, e: Env)
    requires
        box_goody(g.actor_type) is Some || g.actor_type == ActorType::BoxGreyEmpty,
    ensures
        ({
            let (s1, g1, e1) = s.spec_shot(g, e);
            let x = g.position.x as u16;
            let y = g.position.y as u16;
            &&& !g1.is_alive
            &&& e1.queued == e.queued + match box_goody(g.actor_type) {
                Some(c) => seq![ActorQueueItem {
                    actor_type: c,
                    x,
                    y: if c == ActorType::Balloon { (y - 16) as u16 } else { y },
                }],
                None => seq![],
            } + firework(x, y, 4)
            &&& e1 == (Env { queued: e1.queued, ..e })
        }),
{
}

} // verus!
