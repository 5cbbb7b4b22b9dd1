//! The actors of a level and what happens to all of them in one step.

use vstd::prelude::*;
use crate::events::UserEvent;
use crate::geometry::Geometry;
use crate::hero::{HeroData, HeroView};
use crate::level::solids::LevelSolids;
use crate::level::tiles::LevelTiles;
use super::specific::Specific;
use super::look::{blit_ok, looks};
use crate::draw::DrawTile;
use super::{all_creatable, chat_of, env_of, ground_of, mail_of, parting_of, queued_actor};
use super::{ActorData, ActorMessageQueue, ActorMessageType, ActorQueue, ActorQueueItem, ActorType, Chat, Env, Ground, Mail};
use crate::infobox::InfoMessageQueue;
use super::specific::{lemma_creatable_queue_create_ok, queue_create_ok};

verus! {

/// An actor: what every actor has, and what only its kind has.
#[derive(Debug)]
pub struct Actor {
    pub general: ActorData,
    pub specific: Specific,
}

impl Actor {
    /// The actor's state fits its kind, and its next step is defined.
    pub open spec fn ok(self) -> bool {
        self.specific.fits(self.general) && self.specific.act_ok(self.general)
    }

    /// The actor's next step is defined in the level `e`: its state fits
    /// its kind, it can act, and once it noticed the hero, what it looks at
    /// around it lies where it can look.
    pub open spec fn step_ok(self, e: Env) -> bool {
        &&& self.ok()
        &&& {
            let (a1, e1) = self.spec_check_hero_touch(e);
            a1.specific.env_ok(a1.general, e1)
        }
    }

    /// The actor notices the hero: when the hero starts to overlap it, it
    /// is touched, and when the hero stops, the touch ends.
    pub open spec fn spec_check_hero_touch(self, e: Env) -> (Actor, Env) {
        let g = self.general;
        if g.position.spec_overlaps(e.hero.position) {
            if !g.touches_hero {
                let (s1, g1, e1) = self.specific.spec_touch_start(ActorData { touches_hero: true, ..g }, e);
                (Actor { general: g1, specific: s1 }, e1)
            } else {
                (self, e)
            }
        } else if g.touches_hero {
            let (s1, g1, e1) = self.specific.spec_touch_end(ActorData { touches_hero: false, ..g }, e);
            (Actor { general: g1, specific: s1 }, e1)
        } else {
            (self, e)
        }
    }

    /// One step of the actor: it notices the hero, then acts.
    pub open spec fn spec_act(self, e: Env) -> (Actor, Env) {
        let (a1, e1) = self.spec_check_hero_touch(e);
        let (s2, g2, e2) = a1.specific.spec_act(a1.general, e1);
        (Actor { general: g2, specific: s2 }, e2)
    }

    #[verifier::rlimit(100)]
    fn check_hero_touch(
        &mut self,
        solids: &mut LevelSolids,
        tiles: &mut LevelTiles,
        queue: &mut ActorQueue,
        hero: &mut HeroData,
        do_play: &mut bool,
        events: &mut Vec<UserEvent>,
    )
        requires
            old(self).ok(),
            old(hero).wf(),
        ensures
            (*final(self), env_of(*final(solids), *final(tiles), *final(queue), *final(hero), *final(do_play), *final(events)))
                == old(self).spec_check_hero_touch(env_of(*old(solids), *old(tiles), *old(queue), *old(hero), *old(do_play), *old(events))),
            final(self).ok(),
            final(hero).wf(),
            all_creatable(old(queue).actors@) ==> all_creatable(final(queue).actors@),
    {
        let touching = self.general.position.overlaps(hero.position.geometry);
        if touching {
            if !self.general.touches_hero {
                self.general.touches_hero = true;
                self.specific.hero_touch_start(&mut self.general, solids, tiles, queue, hero, do_play, events);
            }
        } else if self.general.touches_hero {
            self.general.touches_hero = false;
            self.specific.hero_touch_end(&mut self.general, solids, tiles, queue, hero, do_play, events);
        }
    }

    pub fn act(
        &mut self,
        solids: &mut LevelSolids,
        tiles: &mut LevelTiles,
        queue: &mut ActorQueue,
        hero: &mut HeroData,
        do_play: &mut bool,
        events: &mut Vec<UserEvent>,
    ) -> (alive: bool)
        requires
            old(self).step_ok(env_of(*old(solids), *old(tiles), *old(queue), *old(hero), *old(do_play), *old(events))),
            old(hero).wf(),
        ensures
            (*final(self), env_of(*final(solids), *final(tiles), *final(queue), *final(hero), *final(do_play), *final(events)))
                == old(self).spec_act(env_of(*old(solids), *old(tiles), *old(queue), *old(hero), *old(do_play), *old(events))),
            alive == final(self).general.is_alive,
            final(self).general.is_alive ==> final(self).specific.fits(final(self).general),
            final(hero).wf(),
            all_creatable(old(queue).actors@) ==> all_creatable(final(queue).actors@),
    {
        self.check_hero_touch(solids, tiles, queue, hero, do_play, events);
        self.specific.act(&mut self.general, solids, tiles, queue, hero, do_play, events);
        self.general.is_alive
    }

    /// Shots hit the actor.
    pub fn can_get_shot(&self) -> (r: bool)
        ensures
            r == self.specific.spec_can_get_shot(self.general),
    {
        self.specific.can_get_shot(&self.general)
    }

    pub fn shot(
        &mut self,
        solids: &mut LevelSolids,
        tiles: &mut LevelTiles,
        queue: &mut ActorQueue,
        hero: &mut HeroData,
        do_play: &mut bool,
        events: &mut Vec<UserEvent>,
    )
        requires
            old(self).specific.fits(old(self).general),
            old(self).specific.shot_ok(old(self).general),
            old(hero).wf(),
        ensures
            ({
                let (s1, g1, e1) = old(self).specific.spec_shot(
                    old(self).general,
                    env_of(*old(solids), *old(tiles), *old(queue), *old(hero), *old(do_play), *old(events)),
                );
                final(self).specific == s1 && final(self).general == g1
                    && env_of(*final(solids), *final(tiles), *final(queue), *final(hero), *final(do_play), *final(events)) == e1
            }),
            final(self).specific.fits(final(self).general),
            final(hero).wf(),
            all_creatable(old(queue).actors@) ==> all_creatable(final(queue).actors@),
    {
        self.specific.shot(&mut self.general, solids, tiles, queue, hero, do_play, events);
    }

    /// The hero can use the actor. A lift only counts where the hero
    /// stands on it horizontally aligned, so that of two lifts side by side
    /// the one under the hero is chosen.
    pub fn hero_can_interact(&self, hero: &HeroData) -> (r: bool)
        ensures
            r == can_interact(*self, hero@),
    {
        if self.general.actor_type == ActorType::Lift {
            self.general.position.x == hero.position.geometry.x
        } else {
            self.specific.hero_can_interact()
        }
    }

    fn interact_start(
        &mut self,
        level_passed: &mut bool,
        hero: &mut HeroData,
        infos: &mut InfoMessageQueue,
        messages: &mut ActorMessageQueue,
        events: &mut Vec<UserEvent>,
    )
        requires
            old(self).specific.fits(old(self).general),
            Specific::interact_ok(old(self).general, chat_of(*old(level_passed), *old(hero), *old(infos), *old(messages), *old(events))),
            old(hero).wf(),
        ensures
            (*final(self), chat_of(*final(level_passed), *final(hero), *final(infos), *final(messages), *final(events)))
                == interacted(*old(self), chat_of(*old(level_passed), *old(hero), *old(infos), *old(messages), *old(events))),
            final(self).specific.fits(final(self).general),
            final(hero).wf(),
    {
        self.specific.hero_interact_start(&mut self.general, level_passed, hero, infos, messages, events);
    }

    fn interact_end(&mut self, level_passed: &mut bool, hero: &mut HeroData, events: &mut Vec<UserEvent>)
        requires
            old(self).specific.fits(old(self).general),
            old(hero).wf(),
        ensures
            (*final(self), parting_of(*final(level_passed), *final(hero), *final(events)))
                == parted(*old(self), parting_of(*old(level_passed), *old(hero), *old(events))),
            final(hero)@ == old(hero)@,
            final(self).general.actor_type == old(self).general.actor_type,
            final(self).specific.fits(final(self).general),
            final(hero).wf(),
    {
        self.specific.hero_interact_end(&mut self.general, level_passed, hero, events);
    }

    fn receive_message(
        &mut self,
        message: ActorMessageType,
        hero: &mut HeroData,
        solids: &mut LevelSolids,
        events: &mut Vec<UserEvent>,
    )
        requires
            old(self).specific.fits(old(self).general),
            old(self).specific.receive_ok(old(self).general),
            old(hero).wf(),
        ensures
            (*final(self), mail_of(*final(hero), *final(solids), *final(events)))
                == received(*old(self), message, mail_of(*old(hero), *old(solids), *old(events))),
            final(self).specific.fits(final(self).general),
            final(hero).wf(),
    {
        self.specific.receive_message(&mut self.general, message, hero, solids, events);
    }

    /// The tiles to draw the actor with; see [`looks`].
    pub fn blit(&self, hero: &HeroData) -> (r: Vec<DrawTile>)
        requires
            self.specific.fits(self.general),
            blit_ok(self.specific, self.general, hero@.position.x),
        ensures
            r@ == looks(self.specific, self.general, hero@.position.x),
    {
        self.specific.blit(&self.general, hero)
    }

    pub fn is_alive(&self) -> (r: bool)
        ensures
            r == self.general.is_alive,
    {
        self.general.is_alive
    }

    pub fn position(&self) -> (r: Geometry)
        ensures
            r == self.general.position,
    {
        self.general.position
    }
}

/// The hero can use the actor `a`: a lift where the hero stands at its
/// left edge, any other actor as its kind says.
pub open spec fn can_interact(a: Actor, h: HeroView) -> bool {
    if a.general.actor_type == ActorType::Lift {
        a.general.position.x == h.position.x
    } else {
        a.specific.spec_can_interact()
    }
}

/// The hero can use the actor `a` and touches it.
pub open spec fn interactor(a: Actor, h: HeroView) -> bool {
    can_interact(a, h) && h.position.spec_touches(a.general.position)
}

/// The first of the first `n` actors of `s` that the hero can use and
/// touches, if there is one.
pub open spec fn first_interactor(s: Seq<Actor>, h: HeroView, n: int) -> Option<int>
    decreases n,
{
    if n <= 0 {
        None
    } else {
        match first_interactor(s, h, n - 1) {
            Some(i) => Some(i),
            None => if interactor(s[n - 1], h) { Some(n - 1) } else { None },
        }
    }
}

/// The actor `a` after the hero started using it, and what that did.
pub open spec fn interacted(a: Actor, c: Chat) -> (Actor, Chat) {
    let (s1, g1, c1) = a.specific.spec_interact_start(a.general, c);
    (Actor { general: g1, specific: s1 }, c1)
}

/// The actor `a` after the hero stopped using it, and what that did.
pub open spec fn parted(a: Actor, c: Chat) -> (Actor, Chat) {
    let (s1, g1, c1) = a.specific.spec_interact_end(a.general, c);
    (Actor { general: g1, specific: s1 }, c1)
}

/// The actor `a` after it got the message `m`, and what that did.
pub open spec fn received(a: Actor, m: ActorMessageType, mail: Mail) -> (Actor, Mail) {
    let (s1, g1, m1) = a.specific.spec_receive_message(a.general, m, mail);
    (Actor { general: g1, specific: s1 }, m1)
}

/// The actors `s` after the hero stopped using the actor that `t` names,
/// if it names one of them, and what that did.
pub open spec fn ended(s: Seq<Actor>, t: Option<usize>, c: Chat) -> (Seq<Actor>, Chat) {
    match t {
        Some(i) => if i < s.len() {
            let (a1, c1) = parted(s[i as int], c);
            (s.update(i as int, a1), c1)
        } else {
            (s, c)
        },
        None => (s, c),
    }
}

/// The first `k` actors of `s` after each of kind `receivers` got the
/// message `m` in turn, starting with `mail`; and `mail` after them.
pub open spec fn delivered(s: Seq<Actor>, receivers: ActorType, m: ActorMessageType, mail: Mail, k: int) -> (Seq<Actor>, Mail)
    decreases k,
{
    if k <= 0 {
        (seq![], mail)
    } else {
        let (done, m1) = delivered(s, receivers, m, mail, k - 1);
        let a = s[k - 1];
        if a.general.actor_type == receivers {
            let (a2, m2) = received(a, m, m1);
            (done.push(a2), m2)
        } else {
            (done.push(a), m1)
        }
    }
}

/// The actors `s` and the level after the hero, who until now used the
/// actor that `t` names, starts using the actor at `i`: the old use ends
/// first, seeing no info messages or actor messages, then the new one
/// starts with those of `c`.
pub open spec fn started(s: Seq<Actor>, t: Option<usize>, i: int, c: Chat) -> (Seq<Actor>, Chat) {
    let (s1, c1) = ended(s, t, Chat { infos: seq![], messages: seq![], ..c });
    let (a2, c2) = interacted(s1[i], Chat { infos: c.infos, messages: c.messages, ..c1 });
    (s1.update(i, a2), c2)
}

/// Once the first interactor is found among the first `a` actors, it
/// stays the first among more of them.
pub proof fn lemma_first_interactor_stays(s: Seq<Actor>, h: HeroView, a: int, m: int)
    requires
        a <= m,
        first_interactor(s, h, a) is Some,
    ensures
        first_interactor(s, h, m) == first_interactor(s, h, a),
    decreases m - a,
{
    if a < m {
        lemma_first_interactor_stays(s, h, a, m - 1);
    }
}

/// The tiles of the first `k` actors of `s` that are visible and in the
/// foreground (or, for `foreground` false, in the background), in their
/// order, while the hero stands at `hero_x`.
pub open spec fn drawn(s: Seq<Actor>, foreground: bool, hero_x: i16, k: int) -> Seq<DrawTile>
    decreases k,
{
    if k <= 0 {
        seq![]
    } else {
        let rest = drawn(s, foreground, hero_x, k - 1);
        let a = s[k - 1];
        if a.general.is_visible && a.general.is_in_foreground == foreground {
            rest + looks(a.specific, a.general, hero_x)
        } else {
            rest
        }
    }
}

/// Every actor of `s` that is drawn can be drawn.
pub open spec fn all_drawable(s: Seq<Actor>, hero_x: i16) -> bool {
    forall|i: int|
        0 <= i < s.len() && (#[trigger] s[i]).general.is_visible ==> blit_ok(s[i].specific, s[i].general, hero_x)
}

/// Every living actor of `s` is in a state that fits its kind.
pub open spec fn alive_fit(s: Seq<Actor>) -> bool {
    forall|i: int| 0 <= i < s.len() && (#[trigger] s[i]).general.is_alive ==> s[i].specific.fits(s[i].general)
}

/// Once the dead are removed, the living actors that fit their kinds are
/// all there is.
proof fn lemma_alive_only_fit(s: Seq<Actor>)
    requires
        alive_fit(s),
    ensures
        all_fit(alive_only(s)),
    decreases s.len(),
{
    if s.len() > 0 {
        assert(alive_fit(s.drop_last()));
        lemma_alive_only_fit(s.drop_last());
        lemma_survivors_alive(s);
        assert(s[s.len() - 1] == s.last());
    }
}

/// Every actor of `s` is in a state that fits its kind.
pub open spec fn all_fit(s: Seq<Actor>) -> bool {
    forall|i: int| 0 <= i < s.len() ==> (#[trigger] s[i]).specific.fits(s[i].general)
}

/// The actors of `s` that are alive, in their order.
pub open spec fn alive_only(s: Seq<Actor>) -> Seq<Actor>
    decreases s.len(),
{
    if s.len() == 0 {
        seq![]
    } else if s.last().general.is_alive {
        alive_only(s.drop_last()).push(s.last())
    } else {
        alive_only(s.drop_last())
    }
}

/// How many of the first `k` actors of `s` are alive.
pub open spec fn alive_count(s: Seq<Actor>, k: int) -> int {
    alive_only(s.subrange(0, k)).len() as int
}

/// Where the actor that `target` names is found once the dead actors of
/// `s` are gone: an actor that survives keeps its place among the
/// survivors, a dead one is no target any more, and a target past the end
/// moves down by the number of the dead.
pub open spec fn target_after_removal(s: Seq<Actor>, target: Option<usize>) -> Option<usize> {
    match target {
        None => None,
        Some(j) => if j < s.len() {
            if s[j as int].general.is_alive { Some(alive_count(s, j as int) as usize) } else { None }
        } else {
            Some((j - (s.len() - alive_count(s, s.len() as int))) as usize)
        },
    }
}

/// Taking one more actor into account adds one survivor if it is alive.
pub proof fn lemma_alive_count_step(s: Seq<Actor>, k: int)
    requires
        0 <= k < s.len(),
    ensures
        alive_count(s, k + 1) == alive_count(s, k) + if s[k].general.is_alive { 1int } else { 0int },
{
    let p = s.subrange(0, k + 1);
    assert(p.drop_last() =~= s.subrange(0, k));
    assert(p.last() == s[k]);
}

/// The survivors of a prefix come first among all survivors.
pub proof fn lemma_alive_only_prefix(s: Seq<Actor>, k: int)
    requires
        0 <= k <= s.len(),
    ensures
        alive_only(s.subrange(0, k)).len() <= alive_only(s).len(),
        alive_only(s).subrange(0, alive_only(s.subrange(0, k)).len() as int) == alive_only(s.subrange(0, k)),
    decreases s.len() - k,
{
    if k < s.len() {
        lemma_alive_only_prefix(s, k + 1);
        let p = s.subrange(0, k + 1);
        assert(p.drop_last() =~= s.subrange(0, k));
        assert(p.last() == s[k]);
    } else {
        assert(s.subrange(0, k) =~= s);
    }
}

/// An actor that survives the removal of the dead is found among the
/// survivors at the place [`target_after_removal`] gives it.
pub proof fn lemma_survivor_place(s: Seq<Actor>, j: int)
    requires
        0 <= j < s.len(),
        s[j].general.is_alive,
    ensures
        alive_count(s, j) < alive_only(s).len(),
        alive_only(s)[alive_count(s, j)] == s[j],
{
    lemma_alive_only_prefix(s, j + 1);
    let p = s.subrange(0, j + 1);
    assert(p.drop_last() =~= s.subrange(0, j));
    assert(p.last() == s[j]);
    assert(alive_only(p) == alive_only(s.subrange(0, j)).push(s[j]));
    assert(alive_only(s)[alive_count(s, j)] == alive_only(p)[alive_count(s, j)]);
}

/// After the dead actors are removed, every actor left is alive.
pub proof fn lemma_survivors_alive(s: Seq<Actor>)
    ensures
        forall|i: int| 0 <= i < alive_only(s).len() ==> (#[trigger] alive_only(s)[i]).general.is_alive,
    decreases s.len(),
{
    if s.len() > 0 {
        lemma_survivors_alive(s.drop_last());
    }
}

/// Removing the dead actors a second time changes nothing.
pub proof fn lemma_removal_idempotent(s: Seq<Actor>)
    ensures
        alive_only(alive_only(s)) == alive_only(s),
    decreases s.len(),
{
    if s.len() > 0 {
        lemma_removal_idempotent(s.drop_last());
        let r = alive_only(s.drop_last());
        if s.last().general.is_alive {
            let p = r.push(s.last());
            assert(p.drop_last() =~= r);
        }
    }
}

/// The actor the hero interacts with stays the one the target names once
/// the dead actors are removed, and a dead one is no target any more.
pub proof fn lemma_target_follows_actor(s: Seq<Actor>, j: usize)
    requires
        j < s.len(),
    ensures
        s[j as int].general.is_alive ==> ({
            let k = target_after_removal(s, Some(j));
            k matches Some(k) && k < alive_only(s).len() && alive_only(s)[k as int] == s[j as int]
        }),
        !s[j as int].general.is_alive ==> target_after_removal(s, Some(j)) == None::<usize>,
{
    if s[j as int].general.is_alive {
        lemma_survivor_place(s, j as int);
        lemma_alive_count_bound(s, j as int);
    }
}

/// No more actors survive among the first `k` than there are.
proof fn lemma_alive_count_bound(s: Seq<Actor>, k: int)
    requires
        0 <= k <= s.len(),
    ensures
        0 <= alive_count(s, k) <= k,
    decreases k,
{
    if k > 0 {
        lemma_alive_count_bound(s, k - 1);
        lemma_alive_count_step(s, k - 1);
    }
}

/// The actor the hero starts using is one the hero can use and touches,
/// and the hero can use and touch none before it.
pub proof fn lemma_first_interactor_first(s: Seq<Actor>, h: HeroView, n: int)
    requires
        0 <= n <= s.len(),
    ensures
        first_interactor(s, h, n) matches Some(i) ==> 0 <= i < n && interactor(s[i], h)
            && forall|k: int| 0 <= k < i ==> !interactor(#[trigger] s[k], h),
        first_interactor(s, h, n) is None ==> forall|k: int| 0 <= k < n ==> !interactor(#[trigger] s[k], h),
    decreases n,
{
    if n > 0 {
        lemma_first_interactor_first(s, h, n - 1);
    }
}

/// The actor takes part in a step: it is visible, or acts even when not.
pub open spec fn acts(a: Actor) -> bool {
    a.general.acts_while_invisible || a.general.is_visible
}

/// The first `k` actors of `s` after each of them that takes part made its
/// step in turn, starting in the level `e`; the level after them; and how
/// many of them are alive and hurt the hero after their step.
pub open spec fn acted(s: Seq<Actor>, e: Env, k: int) -> (Seq<Actor>, Env, nat)
    decreases k,
{
    if k <= 0 {
        (seq![], e, 0)
    } else {
        let (done, e1, n) = acted(s, e, k - 1);
        let a = s[k - 1];
        if acts(a) {
            let (a2, e2) = a.spec_act(e1);
            (done.push(a2), e2, if a2.general.is_alive && a2.general.hurts_hero { n + 1 } else { n })
        } else {
            (done.push(a), e1, n)
        }
    }
}

/// `added` are the actors set up, in their order, for the queued `items`,
/// starting in the level `envs[0]`; `envs[j + 1]` is the level after the
/// `j`-th of them was set up.
pub open spec fn added_from(items: Seq<ActorQueueItem>, added: Seq<Actor>, envs: Seq<Ground>) -> bool {
    &&& added.len() == items.len()
    &&& envs.len() == items.len() + 1
    &&& forall|j: int|
        0 <= j < items.len() ==> Specific::created(
            queued_actor(#[trigger] items[j]),
            envs[j],
            added[j].specific,
            added[j].general,
            envs[j + 1],
        )
}

/// `v / 16` rounded towards zero, as integer division does.
pub open spec fn tile_div(v: int) -> int {
    if v >= 0 { v / 16 } else { -((-v) / 16) }
}

fn tile_of(v: i16) -> (r: i16)
    ensures
        r == tile_div(v as int),
{
    if v >= 0 {
        v / 16
    } else {
        let w: i32 = v as i32;
        let m: i32 = -w;
        let q: i32 = m / 16;
        (-q) as i16
    }
}

/// The tiles that `p` covers, counted from its top left tile and its
/// width and height in whole tiles (the width as a signed number), overlap
/// the visible tiles `x_start..x_end` and `y_start..y_end`, exclusive at
/// both ends of the column and row ranges' outer bounds.
pub open spec fn seen(p: Geometry, x_start: i16, x_end: i16, y_start: i16, y_end: i16) -> bool {
    let x_left = tile_div(p.x as int);
    let y_top = tile_div(p.y as int);
    let x_right = x_left + tile_div(p.w as i16 as int);
    let y_bottom = y_top + tile_div(p.h as i16 as int);
    x_right > x_start && y_bottom > y_start && x_left < x_end && y_top < y_end
}

/// The first `k` actors of `s` after the shot at `p` hit those it hits, in
/// turn, starting in the level `e`; the level after them; and whether one
/// of the actors the shot hit is dead afterwards.
pub open spec fn shots(s: Seq<Actor>, p: Geometry, e: Env, k: int) -> (Seq<Actor>, Env, bool)
    decreases k,
{
    if k <= 0 {
        (seq![], e, false)
    } else {
        let (done, e1, hit) = shots(s, p, e, k - 1);
        let a = s[k - 1];
        if a.specific.spec_can_get_shot(a.general) && p.spec_touches(a.general.position) {
            let (s2, g2, e2) = a.specific.spec_shot(a.general, e1);
            (done.push(Actor { general: g2, specific: s2 }), e2, hit || !g2.is_alive)
        } else {
            (done.push(a), e1, hit)
        }
    }
}

/// The actors of a level, and the one the hero interacts with.
#[derive(Debug)]
pub struct ActorsList {
    actors: Vec<Actor>,
    interaction_target: Option<usize>,
}

impl ActorsList {
    /// The actors, in their order.
    pub closed spec fn actors(self) -> Seq<Actor> {
        self.actors@
    }

    /// The index of the actor the hero interacts with.
    pub closed spec fn target(self) -> Option<usize> {
        self.interaction_target
    }

    pub fn new() -> (l: Self)
        ensures
            l.actors() == Seq::<Actor>::empty(),
            l.target() == None::<usize>,
    {
        ActorsList { actors: Vec::new(), interaction_target: None }
    }

    pub fn count(&self) -> (r: usize)
        ensures
            r == self.actors().len(),
    {
        self.actors.len()
    }

    /// The actor at `index`, to change in place, if there is one.
    pub fn get_mut(&mut self, index: usize) -> (r: Option<&mut Actor>)
        ensures
            (r is Some) == (index < old(self).actors().len()),
            final(self).target() == old(self).target(),
            r is None ==> final(self).actors() == old(self).actors(),
            r matches Some(a) ==> *a == old(self).actors()[index as int]
                && final(self).actors() == old(self).actors().update(index as int, *final(a)),
    {
        if index < self.actors.len() {
            Some(&mut self.actors[index])
        } else {
            None
        }
    }

    /// Removes the dead actors; the interaction target keeps naming the
    /// same actor, or none if that actor is gone.
    pub fn remove_dead(&mut self)
        ensures
            final(self).actors() == alive_only(old(self).actors()),
            final(self).target() == target_after_removal(old(self).actors(), old(self).target()),
            all_fit(old(self).actors()) ==> all_fit(final(self).actors()),
    {
        let ghost s = self.actors@;
        let ghost t = self.interaction_target;
        let mut i: usize = 0;
        let ghost mut k: int = 0;
        while i < self.actors.len()
            invariant
                0 <= k <= s.len(),
                i == alive_count(s, k),
                self.actors@ == alive_only(s.subrange(0, k)) + s.subrange(k, s.len() as int),
                self.interaction_target == match t {
                    None => None,
                    Some(j) => if j < k {
                        if s[j as int].general.is_alive { Some(alive_count(s, j as int) as usize) } else { None }
                    } else {
                        Some((j - (k - alive_count(s, k))) as usize)
                    },
                },
                forall|j: int| 0 <= j <= k ==> alive_count(s, j) <= alive_count(s, k),
                forall|j: int| 0 <= j <= k ==> #[trigger] alive_count(s, j) <= j,
            decreases s.len() - k,
        {
            proof {
                assert(k < s.len());
                lemma_alive_count_step(s, k);
                assert forall|j: int| 0 <= j < k && s[j].general.is_alive implies alive_count(s, j) < alive_count(s, k) by {
                    lemma_alive_count_step(s, j);
                }
                let p = s.subrange(0, k + 1);
                assert(p.drop_last() =~= s.subrange(0, k));
                assert(p.last() == s[k]);
                assert(self.actors@[i as int] == s[k]);
            }
            if !self.actors[i].general.is_alive {
                self.actors.remove(i);
                self.interaction_target = match self.interaction_target {
                    Some(index) => if index == i {
                        None
                    } else if index > i {
                        Some(index - 1)
                    } else {
                        Some(index)
                    },
                    None => None,
                };
                proof {
                    assert(self.actors@ =~= alive_only(s.subrange(0, k + 1)) + s.subrange(k + 1, s.len() as int));
                }
            } else {
                i = i + 1;
                proof {
                    assert(self.actors@ =~= alive_only(s.subrange(0, k + 1)) + s.subrange(k + 1, s.len() as int));
                }
            }
            proof {
                k = k + 1;
            }
        }
        proof {
            assert(s.subrange(0, k) =~= s);
            assert(self.actors@ =~= alive_only(s));
            if all_fit(s) {
                lemma_alive_only_fit(s);
            }
        }
    }

    /// Sets up an actor of kind `actor_type` at (`x`, `y`) and adds it at
    /// the end.
    pub fn add_actor(&mut self, actor_type: ActorType, x: u16, y: u16, solids: &mut LevelSolids, tiles: &mut LevelTiles) -> (a: Ghost<Actor>)
        requires
            Specific::create_ok(queued_actor(ActorQueueItem { actor_type, x, y }), ground_of(*old(solids), *old(tiles))),
        ensures
            final(self).actors() == old(self).actors().push(a@),
            final(self).target() == old(self).target(),
            Specific::created(
                queued_actor(ActorQueueItem { actor_type, x, y }),
                ground_of(*old(solids), *old(tiles)),
                a@.specific,
                a@.general,
                ground_of(*final(solids), *final(tiles)),
            ),
            a@.specific.fits(a@.general),
    {
        let mut general = ActorData::new(actor_type);
        general.position.x = x as i16;
        general.position.y = y as i16;
        let specific = Specific::create(&mut general, solids, tiles);
        let actor = Actor { general, specific };
        let ghost a = actor;
        self.actors.push(actor);
        Ghost(a)
    }

    /// One step of the level's actors: each actor that is visible or acts
    /// while invisible notices the hero and acts, in their order; then the
    /// queued actors are set up and added, the dead ones removed, and the
    /// hero is hurt if any living actor hurts the hero after its step.
    pub fn act(
        &mut self,
        solids: &mut LevelSolids,
        tiles: &mut LevelTiles,
        hero: &mut HeroData,
        queue: &mut ActorQueue,
        do_play: &mut bool,
        events: &mut Vec<UserEvent>,
    )
        requires
            forall|i: int|
                0 <= i < old(self).actors().len() && acts(#[trigger] old(self).actors()[i]) ==> old(self).actors()[i].step_ok(
                    acted(
                        old(self).actors(),
                        env_of(*old(solids), *old(tiles), *old(queue), *old(hero), *old(do_play), *old(events)),
                        i,
                    ).1,
                ),
            old(hero).wf(),
            all_creatable(old(queue).actors@),
        ensures
            ({
                let e0 = env_of(*old(solids), *old(tiles), *old(queue), *old(hero), *old(do_play), *old(events));
                let (done, e1, n) = acted(old(self).actors(), e0, old(self).actors().len() as int);
                exists|added: Seq<Actor>, envs: Seq<Ground>| {
                    &&& added_from(e1.queued, added, envs)
                    &&& envs[0] == (Ground { solids: e1.solids, tiles: e1.tiles })
                    &&& final(self).actors() == alive_only(done + added)
                    &&& final(self).target() == target_after_removal(done + added, old(self).target())
                    &&& env_of(*final(solids), *final(tiles), *final(queue), *final(hero), *final(do_play), *final(events))
                        == (Env {
                            solids: envs.last().solids,
                            tiles: envs.last().tiles,
                            queued: seq![],
                            hero: HeroView { gets_hurt: n > 0, ..e1.hero },
                            ..e1
                        })
                }
            }),
            final(hero).wf(),
            all_fit(old(self).actors()) ==> all_fit(final(self).actors()),
    {
        let ghost s = self.actors@;
        let ghost e0 = env_of(*solids, *tiles, *queue, *hero, *do_play, *events);
        let mut hurting: usize = 0;
        let mut i: usize = 0;
        assert(s == old(self).actors());
        while i < self.actors.len()
            invariant
                i <= s.len(),
                self.actors@.len() == s.len(),
                self.actors@.subrange(0, i as int) == acted(s, e0, i as int).0,
                self.actors@.subrange(i as int, s.len() as int) == s.subrange(i as int, s.len() as int),
                env_of(*solids, *tiles, *queue, *hero, *do_play, *events) == acted(s, e0, i as int).1,
                hurting == acted(s, e0, i as int).2,
                hurting <= i,
                self.interaction_target == old(self).interaction_target,
                forall|j: int| 0 <= j < s.len() && acts(#[trigger] s[j]) ==> s[j].step_ok(acted(s, e0, j).1),
                hero.wf(),
                all_creatable(queue.actors@),
                all_fit(s) ==> alive_fit(self.actors@),
            decreases s.len() - i,
        {
            let ghost before = self.actors@;
            proof {
                assert(self.actors@[i as int] == s.subrange(i as int, s.len() as int)[0]);
                assert forall|k: int| i < k < s.len() implies before[k] == s[k] by {
                    assert(before[k] == before.subrange(i as int, s.len() as int)[k - i]);
                }
            }
            if self.actors[i].general.acts_while_invisible || self.actors[i].general.is_visible {
                let alive = self.actors[i].act(solids, tiles, queue, hero, do_play, events);
                if alive && self.actors[i].general.hurts_hero {
                    hurting = hurting + 1;
                }
            }
            proof {
                assert(forall|k: int| i < k < s.len() ==> self.actors@[k] == before[k]);
                assert(self.actors@.subrange(0, i as int) =~= before.subrange(0, i as int));
                assert(self.actors@.subrange(0, i + 1) =~= acted(s, e0, i + 1).0);
                assert(self.actors@.subrange(i + 1, s.len() as int) =~= s.subrange(i + 1, s.len() as int));
            }
            i = i + 1;
        }
        proof {
            assert(self.actors@ =~= acted(s, e0, s.len() as int).0);
        }
        let ghost done = self.actors@;
        let ghost e1 = env_of(*solids, *tiles, *queue, *hero, *do_play, *events);
        proof {
            lemma_creatable_queue_create_ok(queue.actors@, ground_of(*solids, *tiles));
        }
        queue.process(self, solids, tiles);
        let ghost (added, envs) = choose|added: Seq<Actor>, envs: Seq<Ground>| {
            &&& added_from(e1.queued, added, envs)
            &&& envs[0] == (Ground { solids: e1.solids, tiles: e1.tiles })
            &&& envs.last() == ground_of(*solids, *tiles)
            &&& self.actors() == done + added
            &&& all_fit(added)
        };
        proof {
            if all_fit(s) {
                assert(alive_fit(done + added)) by {
                    assert forall|k: int| 0 <= k < (done + added).len() && (#[trigger] (done + added)[k]).general.is_alive
                        implies (done + added)[k].specific.fits((done + added)[k].general) by {
                        if k >= done.len() {
                            assert((done + added)[k] == added[k - done.len()]);
                        } else {
                            assert((done + added)[k] == done[k]);
                        }
                    }
                }
            }
        }
        self.remove_dead();
        hero.gets_hurt = hurting > 0;
        proof {
            if all_fit(s) {
                lemma_alive_only_fit(done + added);
            }
            assert(env_of(*solids, *tiles, *queue, *hero, *do_play, *events) == (Env {
                solids: envs.last().solids,
                tiles: envs.last().tiles,
                queued: seq![],
                hero: HeroView { gets_hurt: hurting > 0, ..e1.hero },
                ..e1
            }));
        }
    }

    /// The hero stops using the actor the hero used, if any; afterwards the
    /// hero uses none.
    pub fn end_interaction(&mut self, level_passed: &mut bool, hero: &mut HeroData, events: &mut Vec<UserEvent>)
        requires
            all_fit(old(self).actors()),
            old(hero).wf(),
        ensures
            (final(self).actors(), parting_of(*final(level_passed), *final(hero), *final(events)))
                == ended(old(self).actors(), old(self).target(), parting_of(*old(level_passed), *old(hero), *old(events))),
            final(self).target() == None::<usize>,
            final(hero)@ == old(hero)@,
            final(self).actors().len() == old(self).actors().len(),
            forall|i: int|
                0 <= i < old(self).actors().len() ==> (#[trigger] final(self).actors()[i]).general.actor_type
                    == old(self).actors()[i].general.actor_type,
            all_fit(final(self).actors()),
            final(hero).wf(),
    {
        let t = self.interaction_target;
        self.interaction_target = None;
        if let Some(i) = t {
            if i < self.actors.len() {
                self.actors[i].interact_end(level_passed, hero, events);
                proof {
                    assert(self.actors@ =~= old(self).actors@.update(i as int, self.actors@[i as int]));
                }
            }
        }
    }

    /// The hero starts using the first actor the hero can use and touches,
    /// ending the use of any other first; with no such actor nothing
    /// changes.
    pub fn start_interaction(
        &mut self,
        level_passed: &mut bool,
        hero: &mut HeroData,
        infos: &mut InfoMessageQueue,
        messages: &mut ActorMessageQueue,
        events: &mut Vec<UserEvent>,
    )
        requires
            all_fit(old(self).actors()),
            old(hero).wf(),
            first_interactor(old(self).actors(), old(hero)@, old(self).actors().len() as int) matches Some(i)
                ==> Specific::interact_ok(
                    old(self).actors()[i].general,
                    chat_of(*old(level_passed), *old(hero), *old(infos), *old(messages), *old(events)),
                ),
        ensures
            ({
                let c0 = chat_of(*old(level_passed), *old(hero), *old(infos), *old(messages), *old(events));
                let c1 = chat_of(*final(level_passed), *final(hero), *final(infos), *final(messages), *final(events));
                match first_interactor(old(self).actors(), old(hero)@, old(self).actors().len() as int) {
                    Some(i) => {
                        &&& (final(self).actors(), c1) == started(old(self).actors(), old(self).target(), i, c0)
                        &&& final(self).target() == Some(i as usize)
                    },
                    None => {
                        &&& final(self).actors() == old(self).actors()
                        &&& final(self).target() == old(self).target()
                        &&& c1 == c0
                    },
                }
            }),
            all_fit(final(self).actors()),
            final(hero).wf(),
    {
        let ghost s = self.actors@;
        let ghost h = hero@;
        let ghost c0 = chat_of(*level_passed, *hero, *infos, *messages, *events);
        let n = self.actors.len();
        let mut k: usize = 0;
        while k < n
            invariant
                k <= n,
                n == s.len(),
                self.actors@ == s,
                hero@ == h,
                first_interactor(s, h, k as int) == None::<int>,
            ensures
                k <= n,
                first_interactor(s, h, k as int) == None::<int>,
                k < n ==> interactor(s[k as int], h),
            decreases n - k,
        {
            if self.actors[k].hero_can_interact(hero) && hero.position.geometry.touches(self.actors[k].general.position) {
                break;
            }
            k = k + 1;
        }
        if k < n {
            proof {
                assert(first_interactor(s, h, k + 1) == Some(k as int));
                lemma_first_interactor_stays(s, h, k + 1, n as int);
            }
            let ghost lp0 = *level_passed;
            let ghost ev0 = *events;
            self.end_interaction(level_passed, hero, events);
            proof {
                assert(parting_of(lp0, *old(hero), ev0) == Chat { infos: seq![], messages: seq![], ..c0 });
                assert(chat_of(*level_passed, *hero, *infos, *messages, *events) == ({
                    let c1 = ended(s, old(self).target(), Chat { infos: seq![], messages: seq![], ..c0 }).1;
                    Chat { infos: c0.infos, messages: c0.messages, ..c1 }
                }));
            }
            self.interaction_target = Some(k);
            let ghost s1 = self.actors@;
            self.actors[k].interact_start(level_passed, hero, infos, messages, events);
            proof {
                assert(self.actors@ =~= s1.update(k as int, self.actors@[k as int]));
            }
        } else {
            proof {
                assert(k == n);
            }
        }
    }

    /// Every actor of kind `receivers` gets the message, in their order.
    pub fn send_message(
        &mut self,
        receivers: ActorType,
        message: ActorMessageType,
        hero: &mut HeroData,
        solids: &mut LevelSolids,
        events: &mut Vec<UserEvent>,
    )
        requires
            all_fit(old(self).actors()),
            forall|i: int|
                0 <= i < old(self).actors().len() && (#[trigger] old(self).actors()[i]).general.actor_type == receivers
                    ==> old(self).actors()[i].specific.receive_ok(old(self).actors()[i].general),
            old(hero).wf(),
        ensures
            (final(self).actors(), mail_of(*final(hero), *final(solids), *final(events)))
                == delivered(old(self).actors(), receivers, message, mail_of(*old(hero), *old(solids), *old(events)), old(self).actors().len() as int),
            final(self).target() == old(self).target(),
            all_fit(final(self).actors()),
            final(hero).wf(),
    {
        let ghost s = self.actors@;
        let ghost m0 = mail_of(*hero, *solids, *events);
        let mut i: usize = 0;
        while i < self.actors.len()
            invariant
                i <= s.len(),
                self.actors@.len() == s.len(),
                self.actors@.subrange(0, i as int) == delivered(s, receivers, message, m0, i as int).0,
                forall|k: int| i <= k < s.len() ==> self.actors@[k] == s[k],
                mail_of(*hero, *solids, *events) == delivered(s, receivers, message, m0, i as int).1,
                self.interaction_target == old(self).interaction_target,
                s == old(self).actors(),
                all_fit(s),
                forall|j: int|
                    0 <= j < s.len() && (#[trigger] s[j]).general.actor_type == receivers
                        ==> s[j].specific.receive_ok(s[j].general),
                forall|j: int| 0 <= j < i ==> (#[trigger] self.actors@[j]).specific.fits(self.actors@[j].general),
                hero.wf(),
            decreases s.len() - i,
        {
            let ghost before = self.actors@;
            assert(self.actors@[i as int] == s[i as int]);
            if self.actors[i].general.actor_type == receivers {
                self.actors[i].receive_message(message, hero, solids, events);
            }
            proof {
                assert(forall|k: int| i < k < s.len() ==> self.actors@[k] == before[k]);
                assert(self.actors@.subrange(0, i as int) =~= before.subrange(0, i as int));
                assert(self.actors@.subrange(0, i + 1) =~= delivered(s, receivers, message, m0, i + 1).0);
            }
            i = i + 1;
        }
        proof {
            assert(self.actors@ =~= delivered(s, receivers, message, m0, s.len() as int).0);
        }
    }

    fn blit_layer(&self, hero: &HeroData, foreground: bool) -> (r: Vec<DrawTile>)
        requires
            all_fit(self.actors()),
            all_drawable(self.actors(), hero@.position.x),
        ensures
            r@ == drawn(self.actors(), foreground, hero@.position.x, self.actors().len() as int),
    {
        let ghost s = self.actors@;
        let ghost hx = hero@.position.x;
        let mut r: Vec<DrawTile> = Vec::new();
        let mut i: usize = 0;
        while i < self.actors.len()
            invariant
                i <= s.len(),
                s == self.actors@,
                hx == hero@.position.x,
                all_fit(s),
                all_drawable(s, hx),
                r@ == drawn(s, foreground, hx, i as int),
            decreases s.len() - i,
        {
            let a = &self.actors[i];
            if a.general.is_visible && a.general.is_in_foreground == foreground {
                let mut tiles = a.blit(hero);
                r.append(&mut tiles);
            }
            i = i + 1;
        }
        r
    }

    /// The tiles of the visible actors in the background, in their order.
    pub fn blit_background_actors(&self, hero: &HeroData) -> (r: Vec<DrawTile>)
        requires
            all_fit(self.actors()),
            all_drawable(self.actors(), hero@.position.x),
        ensures
            r@ == drawn(self.actors(), false, hero@.position.x, self.actors().len() as int),
    {
        self.blit_layer(hero, false)
    }

    /// The tiles of the visible actors in the foreground, in their order.
    pub fn blit_foreground_actors(&self, hero: &HeroData) -> (r: Vec<DrawTile>)
        requires
            all_fit(self.actors()),
            all_drawable(self.actors(), hero@.position.x),
        ensures
            r@ == drawn(self.actors(), true, hero@.position.x, self.actors().len() as int),
    {
        self.blit_layer(hero, true)
    }

    /// Marks each actor as visible where it overlaps the visible part of
    /// the level, given in tiles.
    pub fn update_visibility(&mut self, vis_x_start: i16, vis_x_end: i16, vis_y_start: i16, vis_y_end: i16)
        ensures
            final(self).actors().len() == old(self).actors().len(),
            final(self).target() == old(self).target(),
            all_fit(old(self).actors()) ==> all_fit(final(self).actors()),
            forall|i: int|
                0 <= i < old(self).actors().len() ==> #[trigger] final(self).actors()[i] == (Actor {
                    general: ActorData {
                        is_visible: seen(old(self).actors()[i].general.position, vis_x_start, vis_x_end, vis_y_start, vis_y_end),
                        ..old(self).actors()[i].general
                    },
                    ..old(self).actors()[i]
                }),
    {
        let ghost s = self.actors@;
        let mut i: usize = 0;
        while i < self.actors.len()
            invariant
                i <= s.len(),
                self.actors@.len() == s.len(),
                self.interaction_target == old(self).interaction_target,
                s == old(self).actors@,
                forall|j: int| i <= j < s.len() ==> self.actors@[j] == s[j],
                forall|j: int|
                    0 <= j < i ==> #[trigger] self.actors@[j] == (Actor {
                        general: ActorData {
                            is_visible: seen(s[j].general.position, vis_x_start, vis_x_end, vis_y_start, vis_y_end),
                            ..s[j].general
                        },
                        ..s[j]
                    }),
            decreases s.len() - i,
        {
            let pos = self.actors[i].general.position;
            let x_left = tile_of(pos.x);
            let y_top = tile_of(pos.y);
            let x_right = x_left + tile_of(pos.w as i16);
            let y_bottom = y_top + tile_of(pos.h as i16);
            self.actors[i].general.is_visible = x_right > vis_x_start && y_bottom > vis_y_start
                && x_left < vis_x_end && y_top < vis_y_end;
            i = i + 1;
        }
    }

    /// A shot at `shot_position` hits every actor that can be shot and
    /// touches it, in their order; the result tells whether one of them is
    /// dead afterwards.
    pub fn process_shot(
        &mut self,
        shot_position: Geometry,
        solids: &mut LevelSolids,
        tiles: &mut LevelTiles,
        queue: &mut ActorQueue,
        hero: &mut HeroData,
        do_play: &mut bool,
        events: &mut Vec<UserEvent>,
    ) -> (hit_actor: bool)
        requires
            forall|i: int| 0 <= i < old(self).actors().len() ==> (#[trigger] old(self).actors()[i]).specific.fits(old(self).actors()[i].general),
            forall|i: int|
                0 <= i < old(self).actors().len() && (#[trigger] old(self).actors()[i]).specific.spec_can_get_shot(old(self).actors()[i].general)
                    ==> old(self).actors()[i].specific.shot_ok(old(self).actors()[i].general),
            old(hero).wf(),
        ensures
            ({
                let e0 = env_of(*old(solids), *old(tiles), *old(queue), *old(hero), *old(do_play), *old(events));
                let (done, e1, hit) = shots(old(self).actors(), shot_position, e0, old(self).actors().len() as int);
                &&& final(self).actors() == done
                &&& env_of(*final(solids), *final(tiles), *final(queue), *final(hero), *final(do_play), *final(events)) == e1
                &&& hit_actor == hit
            }),
            final(self).target() == old(self).target(),
            forall|i: int| 0 <= i < final(self).actors().len() ==> (#[trigger] final(self).actors()[i]).specific.fits(final(self).actors()[i].general),
            final(hero).wf(),
            all_creatable(old(queue).actors@) ==> all_creatable(final(queue).actors@),
    {
        let ghost s = self.actors@;
        let ghost e0 = env_of(*solids, *tiles, *queue, *hero, *do_play, *events);
        let mut hit_actor = false;
        let mut i: usize = 0;
        assert(s == old(self).actors());
        while i < self.actors.len()
            invariant
                i <= s.len(),
                self.actors@.len() == s.len(),
                self.actors@.subrange(0, i as int) == shots(s, shot_position, e0, i as int).0,
                forall|k: int| i <= k < s.len() ==> self.actors@[k] == s[k],
                env_of(*solids, *tiles, *queue, *hero, *do_play, *events) == shots(s, shot_position, e0, i as int).1,
                hit_actor == shots(s, shot_position, e0, i as int).2,
                self.interaction_target == old(self).interaction_target,
                forall|j: int| 0 <= j < s.len() ==> (#[trigger] s[j]).specific.fits(s[j].general),
                forall|j: int| 0 <= j < s.len() && (#[trigger] s[j]).specific.spec_can_get_shot(s[j].general) ==> s[j].specific.shot_ok(s[j].general),
                forall|j: int| 0 <= j < i ==> (#[trigger] self.actors@[j]).specific.fits(self.actors@[j].general),
                hero.wf(),
                all_creatable(old(queue).actors@) ==> all_creatable(queue.actors@),
            decreases s.len() - i,
        {
            let ghost before = self.actors@;
            assert(self.actors@[i as int] == s[i as int]);
            if self.actors[i].can_get_shot() && shot_position.touches(self.actors[i].general.position) {
                self.actors[i].shot(solids, tiles, queue, hero, do_play, events);
                if !self.actors[i].general.is_alive {
                    hit_actor = true;
                }
            }
            proof {
                assert(forall|k: int| i < k < s.len() ==> self.actors@[k] == before[k]);
                assert(self.actors@.subrange(0, i as int) =~= before.subrange(0, i as int));
                assert(self.actors@.subrange(0, i + 1) =~= shots(s, shot_position, e0, i + 1).0);
            }
            i = i + 1;
        }
        proof {
            assert(self.actors@ =~= shots(s, shot_position, e0, s.len() as int).0);
        }
        hit_actor
    }
}

impl ActorQueue {
    /// Sets up the queued actors, oldest first, in the level whose grids
    /// are `solids` and `tiles`, and adds them after the other `actors`;
    /// the queue is empty afterwards.
    pub fn process(&mut self, actors: &mut ActorsList, solids: &mut LevelSolids, tiles: &mut LevelTiles)
        requires
            queue_create_ok(old(self).actors@, ground_of(*old(solids), *old(tiles))),
        ensures
            exists|added: Seq<Actor>, envs: Seq<Ground>| {
                &&& added_from(old(self).actors@, added, envs)
                &&& envs[0] == ground_of(*old(solids), *old(tiles))
                &&& envs.last() == ground_of(*final(solids), *final(tiles))
                &&& final(actors).actors() == old(actors).actors() + added
                &&& all_fit(added)
            },
            final(actors).target() == old(actors).target(),
            final(self).actors@ == Seq::<ActorQueueItem>::empty(),
    {
        let items = self.take_all();
        let ghost before = actors.actors();
        let ghost mut added: Seq<Actor> = seq![];
        let ghost mut envs: Seq<Ground> = seq![ground_of(*solids, *tiles)];
        let mut j: usize = 0;
        assert(items@.subrange(0, items@.len() as int) =~= items@);
        while j < items.len()
            invariant
                j <= items.len(),
                items@ == old(self).actors@,
                queue_create_ok(items@.subrange(j as int, items@.len() as int), ground_of(*solids, *tiles)),
                actors.actors() == before + added,
                actors.target() == old(actors).target(),
                added.len() == j,
                envs.len() == j + 1,
                envs[0] == ground_of(*old(solids), *old(tiles)),
                envs.last() == ground_of(*solids, *tiles),
                self.actors@ == Seq::<ActorQueueItem>::empty(),
                all_fit(added),
                forall|jj: int|
                    0 <= jj < j ==> Specific::created(
                        queued_actor(#[trigger] items@[jj]),
                        envs[jj],
                        added[jj].specific,
                        added[jj].general,
                        envs[jj + 1],
                    ),
            decreases items.len() - j,
        {
            let item = items[j];
            let ghost rest = items@.subrange(j as int, items@.len() as int);
            assert(rest[0] == item);
            assert(rest.drop_first() =~= items@.subrange(j + 1, items@.len() as int));
            let ghost g0 = ground_of(*solids, *tiles);
            let a = actors.add_actor(item.actor_type, item.x, item.y, solids, tiles);
            proof {
                assert(ground_of(*solids, *tiles) == Specific::ground_after(queued_actor(item), g0));
                added = added.push(a@);
                envs = envs.push(ground_of(*solids, *tiles));
            }
            j = j + 1;
        }
        assert(added_from(old(self).actors@, added, envs));
    }
}

} // verus!
