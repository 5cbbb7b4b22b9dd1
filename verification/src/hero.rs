//! The hero: his position, health, firepower, score, inventory and the
//! letters of the bonus word, and what he does in one game step.

use vstd::prelude::*;
use crate::consts::{HALFTILE_HEIGHT, HALFTILE_WIDTH, HERO_FALLING_LEFT, HERO_FALLING_RIGHT, HERO_JUMPING_LEFT, HERO_JUMPING_RIGHT, HERO_NUM_FALLING, HERO_SKELETON_LEFT, HERO_SKELETON_RIGHT, HERO_NUM_JUMPING, HERO_NUM_STANDING, HERO_NUM_WALKING, HERO_STANDING_LEFT, HERO_STANDING_RIGHT, HERO_WALKING_LEFT, HERO_WALKING_RIGHT, LEVEL_PIXEL_HEIGHT, LEVEL_PIXEL_WIDTH, TILE_HEIGHT, TILE_WIDTH};
use crate::events::{HorizontalDirection, UserEvent};
use crate::draw::DrawTile;
use crate::collision::{outline, rect_draw};
use crate::geometry::Geometry;
use crate::text::string_from_chars;
use crate::level::solids::{grid_collides, scannable, solid_at, LevelSolids};
use std::collections::BTreeSet;

verus! {

#[derive(Clone, Copy, Debug, PartialEq, Eq, Structural)]
pub enum Motion {
    NotMoving,
    Walking,
}

// ---------------------------------------------------------------------------
// Immunity

/// The short time after the hero got hurt in which he cannot get hurt again.
#[derive(Debug)]
pub struct Immunity {
    countdown: usize,
}

impl View for Immunity {
    type V = nat;

    closed spec fn view(&self) -> nat {
        self.countdown as nat
    }
}

impl Immunity {
    /// Number of game steps the immunity lasts.
    pub const DURATION: usize = 16;

    pub open spec fn spec_invisible(countdown: nat) -> bool {
        countdown % 2 == 1
    }

    pub fn new() -> (i: Self)
        ensures
            i@ == 0,
    {
        Immunity { countdown: 0 }
    }

    pub fn reset(&mut self)
        ensures
            final(self)@ == 0,
    {
        self.countdown = 0;
    }

    pub fn enable(&mut self)
        ensures
            final(self)@ == Self::DURATION,
    {
        self.countdown = Self::DURATION;
    }

    /// The hero blinks while he is immune: he is hidden on every other step.
    pub fn hero_invisible(&self) -> (r: bool)
        ensures
            r == Self::spec_invisible(self@),
    {
        self.countdown % 2 > 0
    }

    /// Right after getting hurt the hero is drawn as a skeleton.
    pub fn hero_skeleton(&self) -> (r: bool)
        ensures
            r == (self@ == Self::DURATION),
    {
        self.countdown == Self::DURATION
    }

    pub fn hero_is_protected(&self) -> (r: bool)
        ensures
            r == (self@ > 0),
    {
        self.countdown > 0
    }

    pub fn count_down(&mut self)
        ensures
            final(self)@ == if old(self)@ > 0 { (old(self)@ - 1) as nat } else { 0 },
    {
        if self.countdown > 0 {
            self.countdown -= 1;
        }
    }
}

// ---------------------------------------------------------------------------
// Score

#[derive(Debug)]
pub struct Score {
    count: u64,
}

impl View for Score {
    type V = u64;

    closed spec fn view(&self) -> u64 {
        self.count
    }
}

/// `a + b`, or `u64::MAX` where the sum does not fit.
pub open spec fn saturating_sum(a: u64, b: u64) -> u64 {
    if a + b > u64::MAX { u64::MAX } else { (a + b) as u64 }
}

impl Score {
    pub fn new() -> (s: Self)
        ensures
            s@ == 0,
    {
        Score { count: 0 }
    }

    /// Adds points, stopping at the largest representable score.
    pub fn add(&mut self, amount: u64, events: &mut Vec<UserEvent>)
        ensures
            final(self)@ == saturating_sum(old(self)@, amount),
            final(events)@ == old(events)@.push(UserEvent::HeroScored),
    {
        self.count = self.count.saturating_add(amount);
        events.push(UserEvent::HeroScored);
    }

    pub fn reset(&mut self, events: &mut Vec<UserEvent>)
        ensures
            final(self)@ == 0,
            final(events)@ == old(events)@.push(UserEvent::HeroScored),
    {
        self.count = 0;
        events.push(UserEvent::HeroScored);
    }

    /// The current score.
    pub fn get(&self) -> (r: u64)
        ensures
            r == self@,
    {
        self.count
    }
}

// ---------------------------------------------------------------------------
// Health

#[derive(Debug)]
pub struct Health {
    life: u8,
}

impl View for Health {
    type V = u8;

    closed spec fn view(&self) -> u8 {
        self.life
    }
}

impl Default for Health {
    fn default() -> (h: Self)
        ensures
            h@ == Health::MAX,
    {
        Health { life: Health::MAX }
    }
}

impl Health {
    pub const MAX: u8 = 8;

    pub fn new() -> (h: Self)
        ensures
            h@ == Health::MAX,
    {
        Health::default()
    }

    /// Fills the health bar without announcing it.
    pub fn reset(&mut self)
        ensures
            final(self)@ == Health::MAX,
    {
        self.life = Self::MAX;
    }

    /// Adds `count` units of health, up to the maximum.
    pub fn increase(&mut self, count: u8, events: &mut Vec<UserEvent>)
        requires
            old(self)@ + count <= u8::MAX,
        ensures
            final(self)@ == if old(self)@ + count < Health::MAX { (old(self)@ + count) as u8 } else { Health::MAX },
            final(events)@ == old(events)@.push(UserEvent::HeroHealthChanged),
    {
        let sum = self.life + count;
        self.life = if sum < Self::MAX { sum } else { Self::MAX };
        events.push(UserEvent::HeroHealthChanged);
    }

    /// Takes `count` units of health, down to zero.
    pub fn decrease(&mut self, count: u8, events: &mut Vec<UserEvent>)
        ensures
            final(self)@ == if old(self)@ > count { (old(self)@ - count) as u8 } else { 0 },
            final(events)@ == old(events)@.push(UserEvent::HeroHealthChanged),
    {
        if self.life > count {
            self.life -= count;
        } else {
            self.life = 0;
        }
        events.push(UserEvent::HeroHealthChanged);
    }

    pub fn fill_max(&mut self, events: &mut Vec<UserEvent>)
        ensures
            final(self)@ == Health::MAX,
            final(events)@ == old(events)@.push(UserEvent::HeroHealthChanged),
    {
        self.life = Self::MAX;
        events.push(UserEvent::HeroHealthChanged);
    }

    pub fn kill(&mut self, events: &mut Vec<UserEvent>)
        ensures
            final(self)@ == 0,
            final(events)@ == old(events)@.push(UserEvent::HeroHealthChanged),
    {
        self.life = 0;
        events.push(UserEvent::HeroHealthChanged);
    }

    /// The remaining health.
    pub fn get(&self) -> (r: u8)
        ensures
            r == self@,
    {
        self.life
    }
}

// ---------------------------------------------------------------------------
// Firepower

#[derive(Debug)]
pub struct Firepower {
    shots: u8,
}

impl View for Firepower {
    type V = u8;

    closed spec fn view(&self) -> u8 {
        self.shots
    }
}

impl Default for Firepower {
    fn default() -> (f: Self)
        ensures
            f@ == 1,
    {
        Firepower { shots: 1 }
    }
}

impl Firepower {
    pub const MAX: u8 = 4;

    /// The hero always has at least one shot and at most the maximum.
    #[verifier::type_invariant]
    spec fn shots_in_range(self) -> bool {
        1 <= self.shots <= Self::MAX
    }

    pub fn new() -> (f: Self)
        ensures
            f@ == 1,
    {
        Firepower::default()
    }

    /// Adds `count` shots, up to the maximum.
    pub fn increase(&mut self, count: u8, events: &mut Vec<UserEvent>)
        requires
            old(self)@ + count <= u8::MAX,
        ensures
            final(self)@ == if old(self)@ + count < Firepower::MAX { (old(self)@ + count) as u8 } else { Firepower::MAX },
            final(events)@ == old(events)@.push(UserEvent::HeroFirepowerChanged),
    {
        proof {
            use_type_invariant(&*self);
        }
        let sum = self.shots + count;
        self.shots = if sum < Self::MAX { sum } else { Self::MAX };
        events.push(UserEvent::HeroFirepowerChanged);
    }

    pub fn reset(&mut self, events: &mut Vec<UserEvent>)
        ensures
            final(self)@ == 1,
            final(events)@ == old(events)@.push(UserEvent::HeroFirepowerChanged),
    {
        self.shots = 1;
        events.push(UserEvent::HeroFirepowerChanged);
    }

    /// The number of shots, which is always at least one and at most the
    /// maximum.
    pub fn num_shots(&self) -> (r: u8)
        ensures
            r == self@,
            1 <= r <= Firepower::MAX,
    {
        proof {
            use_type_invariant(self);
        }
        self.shots
    }
}

// ---------------------------------------------------------------------------
// Inventory

#[derive(Clone, Copy, Debug, PartialEq, Eq, Structural)]
pub enum InventoryItem {
    KeyRed,
    KeyGreen,
    KeyBlue,
    KeyPink,
    Boot,
    Glove,
    Clamp,
    AccessCard,
}

/// The number by which an item is ordered and found in the inventory.
pub open spec fn spec_item_code(item: InventoryItem) -> u8 {
    match item {
        InventoryItem::KeyRed => 0,
        InventoryItem::KeyGreen => 1,
        InventoryItem::KeyBlue => 2,
        InventoryItem::KeyPink => 3,
        InventoryItem::Boot => 4,
        InventoryItem::Glove => 5,
        InventoryItem::Clamp => 6,
        InventoryItem::AccessCard => 7,
    }
}

fn item_code(item: InventoryItem) -> (c: u8)
    ensures
        c == spec_item_code(item),
{
    match item {
        InventoryItem::KeyRed => 0,
        InventoryItem::KeyGreen => 1,
        InventoryItem::KeyBlue => 2,
        InventoryItem::KeyPink => 3,
        InventoryItem::Boot => 4,
        InventoryItem::Glove => 5,
        InventoryItem::Clamp => 6,
        InventoryItem::AccessCard => 7,
    }
}

proof fn lemma_item_code_injective(a: InventoryItem, b: InventoryItem)
    ensures
        spec_item_code(a) == spec_item_code(b) ==> a == b,
{
}

/// The items the hero carries.
#[derive(Debug)]
pub struct Inventory {
    items: BTreeSet<u8>,
}

impl View for Inventory {
    type V = Set<InventoryItem>;

    closed spec fn view(&self) -> Set<InventoryItem> {
        Set::new(|item: InventoryItem| self.items@.contains(spec_item_code(item)))
    }
}

impl Inventory {
    pub fn new() -> (i: Self)
        ensures
            i@ == Set::<InventoryItem>::empty(),
    {
        let i = Inventory { items: BTreeSet::new() };
        assert(i@ =~= Set::<InventoryItem>::empty());
        i
    }

    /// Empties the inventory without announcing it.
    pub fn reset(&mut self)
        ensures
            final(self)@ == Set::<InventoryItem>::empty(),
    {
        self.items.clear();
        assert(self@ =~= Set::<InventoryItem>::empty());
    }

    pub fn clear(&mut self, events: &mut Vec<UserEvent>)
        ensures
            final(self)@ == Set::<InventoryItem>::empty(),
            final(events)@ == old(events)@.push(UserEvent::HeroInventoryChanged),
    {
        self.reset();
        events.push(UserEvent::HeroInventoryChanged);
    }

    pub fn set(&mut self, item: InventoryItem, events: &mut Vec<UserEvent>)
        ensures
            final(self)@ == old(self)@.insert(item),
            final(events)@ == old(events)@.push(UserEvent::HeroInventoryChanged),
    {
        broadcast use vstd::laws_cmp::group_laws_cmp;
        let code = item_code(item);
        self.items.insert(code);
        proof {
            assert forall|it: InventoryItem| #[trigger] self@.contains(it) == old(self)@.insert(item).contains(it) by {
                lemma_item_code_injective(it, item);
            }
        }
        assert(self@ =~= old(self)@.insert(item));
        events.push(UserEvent::HeroInventoryChanged);
    }

    pub fn unset(&mut self, item: InventoryItem, events: &mut Vec<UserEvent>)
        ensures
            final(self)@ == old(self)@.remove(item),
            final(events)@ == old(events)@.push(UserEvent::HeroInventoryChanged),
    {
        broadcast use vstd::laws_cmp::group_laws_cmp;
        broadcast use vstd::std_specs::btree::group_btree_axioms;
        let code = item_code(item);
        self.items.remove(&code);
        proof {
            assert forall|it: InventoryItem| #[trigger] self@.contains(it) == old(self)@.remove(item).contains(it) by {
                lemma_item_code_injective(it, item);
            }
        }
        assert(self@ =~= old(self)@.remove(item));
        events.push(UserEvent::HeroInventoryChanged);
    }

    pub fn is_set(&self, item: InventoryItem) -> (r: bool)
        ensures
            r == self@.contains(item),
    {
        broadcast use vstd::laws_cmp::group_laws_cmp;
        broadcast use vstd::std_specs::btree::group_btree_axioms;
        let code = item_code(item);
        self.items.contains(&code)
    }
}

// ---------------------------------------------------------------------------
// Letters

#[derive(Clone, Copy, Debug, PartialEq, Eq, Structural)]
pub enum FetchedLetter {
    D,
    U,
    K,
    E,
}

/// What std's `Debug` formatting writes for the character `c`: the
/// character between single quotes, escaped as `char::escape_debug` does.
pub uninterp spec fn debug_char(c: char) -> Seq<char>;

/// What std's `Debug` formatting (`format!` with `{:?}`) writes for the
/// character `c`; how it escapes characters is left to [`debug_char`].
#[verifier::external_body]
fn debug_text(c: char) -> (s: String)
    ensures
        s@ == debug_char(c),
{
    format!("{:?}", c)
}

/// The text that starts the message for a character that names no letter.
pub open spec fn unknown_letter_prefix() -> Seq<char> {
    seq!['U', 'n', 'k', 'n', 'o', 'w', 'n', ' ', 'h', 'e', 'r', 'o', ' ', 'l', 'e', 't', 't', 'e', 'r', ' ']
}

/// The message for a character that names no letter of the bonus word:
/// "Unknown hero letter " and the `Debug` form of `c`.
fn unknown_letter_message(c: char) -> (s: String)
    ensures
        s@ == unknown_letter_prefix() + debug_char(c),
{
    let prefix = ['U', 'n', 'k', 'n', 'o', 'w', 'n', ' ', 'h', 'e', 'r', 'o', ' ', 'l', 'e', 't', 't', 'e', 'r', ' '];
    let mut chars: Vec<char> = Vec::new();
    let mut i: usize = 0;
    while i < 20
        invariant
            i <= 20,
            prefix@ == unknown_letter_prefix(),
            chars@ == unknown_letter_prefix().subrange(0, i as int),
        decreases 20 - i,
    {
        chars.push(prefix[i]);
        i = i + 1;
        assert(chars@ =~= unknown_letter_prefix().subrange(0, i as int));
    }
    assert(chars@ =~= unknown_letter_prefix());
    let text = debug_text(c);
    let ghost d = text@;
    for ch in it: text.as_str().chars()
        invariant
            it.seq() == d,
            chars@ == unknown_letter_prefix() + d.subrange(0, it.index() as int),
    {
        chars.push(ch);
        proof {
            assert(chars@ =~= unknown_letter_prefix() + d.subrange(0, it.index() + 1));
        }
    }
    assert(chars@ =~= unknown_letter_prefix() + d);
    string_from_chars(&chars)
}

/// The letter of the bonus word a character names, in either case.
pub open spec fn letter_for(c: char) -> Option<FetchedLetter> {
    if c == 'D' || c == 'd' { Some(FetchedLetter::D) }
    else if c == 'U' || c == 'u' { Some(FetchedLetter::U) }
    else if c == 'K' || c == 'k' { Some(FetchedLetter::K) }
    else if c == 'E' || c == 'e' { Some(FetchedLetter::E) }
    else { None }
}

impl FetchedLetter {
    /// The letter `c` names, or a message saying it names none.
    pub fn try_from(c: char) -> (r: Result<FetchedLetter, String>)
        ensures
            match letter_for(c) {
                Some(l) => r == Ok::<FetchedLetter, String>(l),
                None => r matches Err(e) && e@ == unknown_letter_prefix() + debug_char(c),
            },
    {
        if c == 'D' || c == 'd' {
            Ok(FetchedLetter::D)
        } else if c == 'U' || c == 'u' {
            Ok(FetchedLetter::U)
        } else if c == 'K' || c == 'k' {
            Ok(FetchedLetter::K)
        } else if c == 'E' || c == 'e' {
            Ok(FetchedLetter::E)
        } else {
            Err(unknown_letter_message(c))
        }
    }
}

/// The letter state after picking up `letter`: the letters D, U, K, E
/// picked up in this order spell the bonus word; any other letter breaks
/// the word, and a D always starts a new one.
pub open spec fn spec_picked(last: Option<FetchedLetter>, letter: FetchedLetter) -> Option<FetchedLetter> {
    match (last, letter) {
        (_, FetchedLetter::D) => Some(FetchedLetter::D),
        (Some(FetchedLetter::D), FetchedLetter::U) => Some(FetchedLetter::U),
        (Some(FetchedLetter::U), FetchedLetter::K) => Some(FetchedLetter::K),
        (Some(FetchedLetter::K), FetchedLetter::E) => Some(FetchedLetter::E),
        _ => None,
    }
}

/// The letter state after picking up the letters `picks` in their order,
/// starting from the state `s`.
pub open spec fn picked_all(s: Option<FetchedLetter>, picks: Seq<FetchedLetter>) -> Option<FetchedLetter>
    decreases picks.len(),
{
    if picks.len() == 0 {
        s
    } else {
        spec_picked(picked_all(s, picks.drop_last()), picks.last())
    }
}

/// The letters `picks` end with the letters `word`.
pub open spec fn ends_with(picks: Seq<FetchedLetter>, word: Seq<FetchedLetter>) -> bool {
    picks.len() >= word.len() && picks.subrange(picks.len() - word.len(), picks.len() as int) == word
}

/// From a fresh state, the state names the last letter of the longest
/// start of the bonus word that the picked letters end with.
proof fn lemma_picked_all_state(p: Seq<FetchedLetter>)
    ensures
        (picked_all(None, p) == Some(FetchedLetter::D)) <==> (p.len() >= 1 && p[p.len() - 1] == FetchedLetter::D),
        (picked_all(None, p) == Some(FetchedLetter::U)) <==> (p.len() >= 2 && p[p.len() - 2] == FetchedLetter::D
            && p[p.len() - 1] == FetchedLetter::U),
        (picked_all(None, p) == Some(FetchedLetter::K)) <==> (p.len() >= 3 && p[p.len() - 3] == FetchedLetter::D
            && p[p.len() - 2] == FetchedLetter::U && p[p.len() - 1] == FetchedLetter::K),
        (picked_all(None, p) == Some(FetchedLetter::E)) <==> (p.len() >= 4 && p[p.len() - 4] == FetchedLetter::D
            && p[p.len() - 3] == FetchedLetter::U && p[p.len() - 2] == FetchedLetter::K && p[p.len() - 1] == FetchedLetter::E),
    decreases p.len(),
{
    if p.len() > 0 {
        let q = p.drop_last();
        lemma_picked_all_state(q);
        let n = p.len() as int;
        assert(p[n - 1] == p.last());
        assert(n >= 2 ==> p[n - 2] == q[n - 2]);
        assert(n >= 3 ==> p[n - 3] == q[n - 3]);
        assert(n >= 4 ==> p[n - 4] == q[n - 4]);
    }
}

/// The bonus word is spelled exactly when the last four letters picked up
/// since the state was new or reset are D, U, K, E.
pub proof fn lemma_succeeded_spells_word(picks: Seq<FetchedLetter>)
    ensures
        (picked_all(None, picks) == Some(FetchedLetter::E))
            <==> ends_with(picks, seq![FetchedLetter::D, FetchedLetter::U, FetchedLetter::K, FetchedLetter::E]),
{
    lemma_picked_all_state(picks);
    let w = seq![FetchedLetter::D, FetchedLetter::U, FetchedLetter::K, FetchedLetter::E];
    let n = picks.len() as int;
    if n >= 4 {
        let t = picks.subrange(n - 4, n);
        assert(t[0] == picks[n - 4] && t[1] == picks[n - 3] && t[2] == picks[n - 2] && t[3] == picks[n - 1]);
        if t == w {
            assert(t[0] == w[0] && t[1] == w[1] && t[2] == w[2] && t[3] == w[3]);
        }
        if picked_all(None, picks) == Some(FetchedLetter::E) {
            assert(t =~= w);
        }
    }
}

/// Remembers how far the hero got in collecting the letters of the bonus
/// word in their order.
#[derive(Debug)]
pub struct FetchedLetterState {
    last_fetched: Option<FetchedLetter>,
}

impl View for FetchedLetterState {
    type V = Option<FetchedLetter>;

    closed spec fn view(&self) -> Option<FetchedLetter> {
        self.last_fetched
    }
}

impl FetchedLetterState {
    pub fn new() -> (s: Self)
        ensures
            s@ == None::<FetchedLetter>,
    {
        FetchedLetterState { last_fetched: None }
    }

    pub fn picked(&mut self, letter: FetchedLetter)
        ensures
            final(self)@ == spec_picked(old(self)@, letter),
    {
        self.last_fetched = match (self.last_fetched, letter) {
            (_, FetchedLetter::D) => Some(FetchedLetter::D),
            (Some(FetchedLetter::D), FetchedLetter::U) => Some(FetchedLetter::U),
            (Some(FetchedLetter::U), FetchedLetter::K) => Some(FetchedLetter::K),
            (Some(FetchedLetter::K), FetchedLetter::E) => Some(FetchedLetter::E),
            _ => None,
        };
    }

    /// The whole word has been collected.
    pub fn succeeded(&self) -> (r: bool)
        ensures
            r == (self@ == Some(FetchedLetter::E)),
    {
        match self.last_fetched {
            Some(FetchedLetter::E) => true,
            _ => false,
        }
    }

    pub fn reset(&mut self)
        ensures
            final(self)@ == None::<FetchedLetter>,
    {
        self.last_fetched = None;
    }
}


// ---------------------------------------------------------------------------
// Position

/// The smaller of `v` and `limit`.
pub open spec fn min_i16(v: i16, limit: i16) -> i16 {
    if v < limit { v } else { limit }
}

/// Where the hero ends up when asked to move to pixel column `x`: the
/// coordinate is read as a signed number and kept left of the level's
/// right border.
pub open spec fn clamp_x(x: u16) -> i16 {
    min_i16(x as i16, LEVEL_PIXEL_WIDTH)
}

/// Where the hero ends up when asked to move to pixel row `y`.
pub open spec fn clamp_y(y: u16) -> i16 {
    min_i16(y as i16, LEVEL_PIXEL_HEIGHT)
}

/// `g` moved by `d` pixels down.
pub open spec fn shifted_v(g: Geometry, d: int) -> Geometry {
    Geometry { y: (g.y + d) as i16, ..g }
}

/// `g` moved by `d` pixels to the right.
pub open spec fn shifted_h(g: Geometry, d: int) -> Geometry {
    Geometry { x: (g.x + d) as i16, ..g }
}

pub open spec fn sign(v: int) -> int {
    if v < 0 { -1 } else { 1 }
}

pub open spec fn abs(v: int) -> int {
    if v < 0 { -v } else { v }
}

/// A push by `offset` pixels tries the offsets `offset`, `offset - sign`,
/// `offset - 2 * sign`, ... down to zero, and stops at the first one at
/// which the hero is free. This is the number of steps back from `offset`
/// of the first free one, counting from `k`; `abs(offset) + 1` if there is
/// none.
pub open spec fn first_free_step(
    solids: Seq<bool>,
    g: Geometry,
    offset: int,
    vertical: bool,
    k: int,
) -> int
    decreases abs(offset) + 1 - k,
{
    if k < 0 || k > abs(offset) {
        abs(offset) + 1
    } else {
        let d = offset - k * sign(offset);
        let candidate = if vertical { shifted_v(g, d) } else { shifted_h(g, d) };
        if !grid_collides(solids, candidate) {
            k
        } else {
            first_free_step(solids, g, offset, vertical, k + 1)
        }
    }
}

/// The value a push by `offset` returns, given the number of steps back
/// `k` of the first free offset.
/// Where a push by `offset` pixels (down or to the right for a positive
/// one) leaves the rectangle `g` among the solid tiles `solids`, and
/// whether it moved.
pub open spec fn pushed(solids: Seq<bool>, g: Geometry, offset: int, vertical: bool) -> (Geometry, bool) {
    let k = first_free_step(solids, g, offset, vertical, 0);
    if offset == 0 || k > abs(offset) {
        (g, false)
    } else {
        let d = offset - k * sign(offset);
        (if vertical { shifted_v(g, d) } else { shifted_h(g, d) }, true)
    }
}

pub open spec fn push_result(offset: int, k: int) -> int {
    if offset == 0 || k > abs(offset) {
        0
    } else if k == 0 {
        offset
    } else {
        (k - 1) * sign(offset)
    }
}

/// The hero's position in the level.
#[derive(Debug)]
pub struct Position {
    pub geometry: Geometry,
}

impl Default for Position {
    fn default() -> (p: Self)
        ensures
            p.geometry == Position::spec_default_geometry(),
    {
        Position { geometry: Self::default_geometry() }
    }
}

impl Position {
    /// The hero is one tile wide and two tiles high.
    pub open spec fn spec_default_geometry() -> Geometry {
        Geometry { x: 0, y: 0, w: TILE_WIDTH, h: (2 * TILE_HEIGHT) as u16 }
    }

    pub fn new() -> (p: Self)
        ensures
            p.geometry == Position::spec_default_geometry(),
    {
        Self::default()
    }

    pub fn reset(&mut self)
        ensures
            final(self).geometry == Position::spec_default_geometry(),
    {
        self.geometry = Self::default_geometry();
    }

    pub fn default_geometry() -> (g: Geometry)
        ensures
            g == Position::spec_default_geometry(),
    {
        Geometry { x: 0, y: 0, w: TILE_WIDTH, h: 2 * TILE_HEIGHT }
    }

    /// Moves the top left corner of the hero, keeping it left of and above
    /// the level's far borders.
    pub fn move_to(&mut self, x: u16, y: u16, events: &mut Vec<UserEvent>)
        ensures
            final(self).geometry == (Geometry { x: clamp_x(x), y: clamp_y(y), ..old(self).geometry }),
            final(events)@ == old(events)@.push(UserEvent::HeroMoved),
    {
        let xs = x as i16;
        let ys = y as i16;
        self.geometry.x = if xs < LEVEL_PIXEL_WIDTH { xs } else { LEVEL_PIXEL_WIDTH };
        self.geometry.y = if ys < LEVEL_PIXEL_HEIGHT { ys } else { LEVEL_PIXEL_HEIGHT };
        events.push(UserEvent::HeroMoved);
    }

    pub fn move_x_to(&mut self, x: u16, events: &mut Vec<UserEvent>)
        ensures
            final(self).geometry == (Geometry { x: clamp_x(x), y: clamp_y(old(self).geometry.y as u16), ..old(self).geometry }),
            final(events)@ == old(events)@.push(UserEvent::HeroMoved),
    {
        let y = self.geometry.y as u16;
        self.move_to(x, y, events);
    }

    pub fn move_y_to(&mut self, y: u16, events: &mut Vec<UserEvent>)
        ensures
            final(self).geometry == (Geometry { x: clamp_x(old(self).geometry.x as u16), y: clamp_y(y), ..old(self).geometry }),
            final(events)@ == old(events)@.push(UserEvent::HeroMoved),
    {
        let x = self.geometry.x as u16;
        self.move_to(x, y, events);
    }

    pub fn move_x_by(&mut self, x: i16, events: &mut Vec<UserEvent>)
        requires
            i16::MIN <= old(self).geometry.x + x <= i16::MAX,
        ensures
            final(self).geometry == (Geometry {
                x: clamp_x((old(self).geometry.x + x) as u16),
                y: clamp_y(old(self).geometry.y as u16),
                ..old(self).geometry
            }),
            final(events)@ == old(events)@.push(UserEvent::HeroMoved),
    {
        let nx = (self.geometry.x + x) as u16;
        self.move_x_to(nx, events);
    }

    pub fn move_y_by(&mut self, y: i16, events: &mut Vec<UserEvent>)
        requires
            i16::MIN <= old(self).geometry.y + y <= i16::MAX,
        ensures
            final(self).geometry == (Geometry {
                x: clamp_x(old(self).geometry.x as u16),
                y: clamp_y((old(self).geometry.y + y) as u16),
                ..old(self).geometry
            }),
            final(events)@ == old(events)@.push(UserEvent::HeroMoved),
    {
        let ny = (self.geometry.y + y) as u16;
        self.move_y_to(ny, events);
    }

    /// Pushes the hero `offset` pixels down (up where negative). Where the
    /// hero would collide with a wall it is pushed less far: by the first
    /// of `offset - sign`, `offset - 2 * sign`, ... at which it is free.
    /// Returns `offset` for a full push, and for a shorter one the number of
    /// steps back from `offset` less one, times the sign of `offset`.
    pub fn push_vertically(&mut self, solids: &LevelSolids, offset: i16, events: &mut Vec<UserEvent>) -> (r: i16)
        requires
            offset != i16::MIN,
            i16::MIN <= old(self).geometry.y + offset <= i16::MAX,
            scannable(old(self).geometry),
            scannable(shifted_v(old(self).geometry, offset as int)),
        ensures
            ({
                let g = old(self).geometry;
                let k = first_free_step(solids@, g, offset as int, true, 0);
                &&& r == push_result(offset as int, k)
                &&& if offset == 0 || k > abs(offset as int) {
                    final(self).geometry == g && final(events)@ == old(events)@
                } else {
                    &&& final(self).geometry == shifted_v(g, offset - k * sign(offset as int))
                    &&& final(events)@ == old(events)@.push(UserEvent::HeroMoved)
                }
            }),
    {
        if offset == 0 {
            return 0;
        }
        let ghost g0 = self.geometry;
        let mut geometry = self.geometry;
        geometry.y = geometry.y + offset;
        proof {
            lemma_scannable_between_v(g0, offset as int, offset as int);
        }
        if !solids.collides(geometry) {
            self.move_y_to(geometry.y as u16, events);
            return offset;
        }
        let offset_absolute: i16 = if offset < 0 { -offset } else { offset };
        let direction: i16 = if offset < 0 { -1 } else { 1 };
        let mut i: i16 = 0;
        while i < offset_absolute
            invariant
                0 <= i <= offset_absolute,
                offset_absolute == abs(offset as int),
                direction == sign(offset as int),
                offset != 0,
                g0 == old(self).geometry,
                *self == *old(self),
                *events == *old(events),
                scannable(g0),
                scannable(shifted_v(g0, offset as int)),
                i16::MIN <= g0.y + offset <= i16::MAX,
                geometry == shifted_v(g0, offset - i * direction),
                first_free_step(solids@, g0, offset as int, true, 0)
                    == first_free_step(solids@, g0, offset as int, true, i as int + 1),
                solids.spec_collides(geometry),
            decreases offset_absolute - i,
        {
            geometry.y = geometry.y - direction;
            proof {
                lemma_scannable_between_v(g0, offset as int, offset - (i + 1) * direction);
            }
            if !solids.collides(geometry) {
                self.move_y_to(geometry.y as u16, events);
                return i * direction;
            }
            i = i + 1;
        }
        0
    }

    /// Pushes the hero `offset` pixels to the right (left where negative),
    /// with the same rules as [`Position::push_vertically`].
    pub fn push_horizontally(&mut self, solids: &LevelSolids, offset: i16, events: &mut Vec<UserEvent>) -> (r: i16)
        requires
            offset != i16::MIN,
            i16::MIN <= old(self).geometry.x + offset <= i16::MAX,
            scannable(old(self).geometry),
            scannable(shifted_h(old(self).geometry, offset as int)),
        ensures
            ({
                let g = old(self).geometry;
                let k = first_free_step(solids@, g, offset as int, false, 0);
                &&& r == push_result(offset as int, k)
                &&& if offset == 0 || k > abs(offset as int) {
                    final(self).geometry == g && final(events)@ == old(events)@
                } else {
                    &&& final(self).geometry == shifted_h(g, offset - k * sign(offset as int))
                    &&& final(events)@ == old(events)@.push(UserEvent::HeroMoved)
                }
            }),
    {
        if offset == 0 {
            return 0;
        }
        let ghost g0 = self.geometry;
        let mut geometry = self.geometry;
        geometry.x = geometry.x + offset;
        proof {
            lemma_scannable_between_h(g0, offset as int, offset as int);
        }
        if !solids.collides(geometry) {
            self.move_x_to(geometry.x as u16, events);
            return offset;
        }
        let offset_absolute: i16 = if offset < 0 { -offset } else { offset };
        let direction: i16 = if offset < 0 { -1 } else { 1 };
        let mut i: i16 = 0;
        while i < offset_absolute
            invariant
                0 <= i <= offset_absolute,
                offset_absolute == abs(offset as int),
                direction == sign(offset as int),
                offset != 0,
                g0 == old(self).geometry,
                *self == *old(self),
                *events == *old(events),
                scannable(g0),
                scannable(shifted_h(g0, offset as int)),
                i16::MIN <= g0.x + offset <= i16::MAX,
                geometry == shifted_h(g0, offset - i * direction),
                first_free_step(solids@, g0, offset as int, false, 0)
                    == first_free_step(solids@, g0, offset as int, false, i as int + 1),
                solids.spec_collides(geometry),
            decreases offset_absolute - i,
        {
            geometry.x = geometry.x - direction;
            proof {
                lemma_scannable_between_h(g0, offset as int, offset - (i + 1) * direction);
            }
            if !solids.collides(geometry) {
                self.move_x_to(geometry.x as u16, events);
                return i * direction;
            }
            i = i + 1;
        }
        0
    }
}

/// A vertical shift that lies between no shift and a scannable shift is
/// scannable.
pub proof fn lemma_scannable_between_v(g: Geometry, offset: int, d: int)
    requires
        i16::MIN <= g.y + offset <= i16::MAX,
        scannable(g),
        scannable(shifted_v(g, offset)),
        (0 <= d <= offset) || (offset <= d <= 0),
    ensures
        scannable(shifted_v(g, d)),
        0 <= g.y + d,
        g.y + d + g.h < 16 * 90int,
{
    let a = shifted_v(g, offset);
    assert(a.y == g.y + offset);
    let hi = if offset >= 0 { g.y + offset + g.h } else { g.y + g.h };
    assert(hi / 16 < 90int);
    assert((g.y + d + g.h) / 16 <= hi / 16) by (nonlinear_arith)
        requires
            g.y + d + g.h <= hi;
}

/// A horizontal shift that lies between no shift and a scannable shift is
/// scannable.
pub proof fn lemma_scannable_between_h(g: Geometry, offset: int, d: int)
    requires
        i16::MIN <= g.x + offset <= i16::MAX,
        scannable(g),
        scannable(shifted_h(g, offset)),
        (0 <= d <= offset) || (offset <= d <= 0),
    ensures
        scannable(shifted_h(g, d)),
        0 <= g.x + d,
        g.x + d + g.w < 16 * 128int,
{
    let a = shifted_h(g, offset);
    assert(a.x == g.x + offset);
    let hi = if offset >= 0 { g.x + offset + g.w } else { g.x + g.w };
    assert(hi / 16 < 128int);
    assert((g.x + d + g.w) / 16 <= hi / 16) by (nonlinear_arith)
        requires
            g.x + d + g.w <= hi;
}


// ---------------------------------------------------------------------------
// Hero

/// Everything about the hero that the game logic reads and writes.
pub struct HeroView {
    pub position: Geometry,
    pub score: u64,
    pub health: u8,
    pub firepower: u8,
    pub inventory: Set<InventoryItem>,
    pub letters: Option<FetchedLetter>,
    pub immunity: nat,
    pub hidden: bool,
    pub direction: HorizontalDirection,
    pub just_turned_around: bool,
    pub motion: Motion,
    pub is_in_the_air: bool,
    pub is_shooting: bool,
    pub counter: usize,
    pub base_tile_number: usize,
    pub current_frame: usize,
    pub num_frames: usize,
    pub vertical_speed: usize,
    pub gets_hurt: bool,
}

#[derive(Debug)]
pub struct HeroData {
    pub position: Position,
    pub score: Score,
    pub health: Health,
    pub firepower: Firepower,
    pub inventory: Inventory,
    pub fetched_letter_state: FetchedLetterState,
    pub immunity: Immunity,
    pub hidden: bool,
    pub direction: HorizontalDirection,
    pub just_turned_around: bool,
    pub motion: Motion,
    pub is_in_the_air: bool,
    pub is_shooting: bool,
    pub counter: usize,
    pub base_tile_number: usize,
    pub current_frame: usize,
    pub num_frames: usize,
    pub vertical_speed: usize,
    pub gets_hurt: bool,
}

impl View for HeroData {
    type V = HeroView;

    open spec fn view(&self) -> HeroView {
        HeroView {
            position: self.position.geometry,
            score: self.score@,
            health: self.health@,
            firepower: self.firepower@,
            inventory: self.inventory@,
            letters: self.fetched_letter_state@,
            immunity: self.immunity@,
            hidden: self.hidden,
            direction: self.direction,
            just_turned_around: self.just_turned_around,
            motion: self.motion,
            is_in_the_air: self.is_in_the_air,
            is_shooting: self.is_shooting,
            counter: self.counter,
            base_tile_number: self.base_tile_number,
            current_frame: self.current_frame,
            num_frames: self.num_frames,
            vertical_speed: self.vertical_speed,
            gets_hurt: self.gets_hurt,
        }
    }
}

/// The hero after scoring `amount` points.
pub open spec fn scored(h: HeroView, amount: u64) -> HeroView {
    HeroView { score: saturating_sum(h.score, amount), ..h }
}

/// The hero after gaining `count` units of health.
pub open spec fn healed(h: HeroView, count: u8) -> HeroView {
    HeroView {
        health: if h.health + count < Health::MAX { (h.health + count) as u8 } else { Health::MAX },
        ..h
    }
}

/// The hero after losing `count` units of health.
pub open spec fn hurt(h: HeroView, count: u8) -> HeroView {
    HeroView { health: if h.health > count { (h.health - count) as u8 } else { 0 }, ..h }
}

/// The hero after gaining `count` shots of firepower.
pub open spec fn armed(h: HeroView, count: u8) -> HeroView {
    HeroView {
        firepower: if h.firepower + count < Firepower::MAX { (h.firepower + count) as u8 } else { Firepower::MAX },
        ..h
    }
}

/// The hero after putting `item` into the inventory.
pub open spec fn given(h: HeroView, item: InventoryItem) -> HeroView {
    HeroView { inventory: h.inventory.insert(item), ..h }
}

/// The hero after taking `item` out of the inventory.
pub open spec fn taken(h: HeroView, item: InventoryItem) -> HeroView {
    HeroView { inventory: h.inventory.remove(item), ..h }
}

/// The hero after picking up the letter `letter`.
pub open spec fn lettered(h: HeroView, letter: FetchedLetter) -> HeroView {
    HeroView { letters: spec_picked(h.letters, letter), ..h }
}

/// The hero with full health.
pub open spec fn full_health(h: HeroView) -> HeroView {
    HeroView { health: Health::MAX, ..h }
}

/// The hero standing at `position`.
pub open spec fn placed(h: HeroView, position: Geometry) -> HeroView {
    HeroView { position, ..h }
}

/// The hero at the start of a game.
pub open spec fn initial_hero() -> HeroView {
    HeroView {
        position: Position::spec_default_geometry(),
        score: 0,
        health: Health::MAX,
        firepower: 1,
        inventory: Set::empty(),
        letters: None,
        immunity: 0,
        hidden: false,
        direction: HorizontalDirection::Right,
        just_turned_around: false,
        motion: Motion::NotMoving,
        is_in_the_air: false,
        is_shooting: false,
        counter: 0,
        base_tile_number: HERO_STANDING_RIGHT,
        current_frame: 0,
        num_frames: 1,
        vertical_speed: 0,
        gets_hurt: false,
    }
}

/// The hero as he enters a level: he keeps his position, score, health,
/// firepower and the items that are not keys, and starts standing still,
/// facing right.
pub open spec fn hero_for_level(h: HeroView) -> HeroView {
    HeroView {
        inventory: h.inventory.remove(InventoryItem::KeyRed).remove(InventoryItem::KeyGreen)
            .remove(InventoryItem::KeyBlue).remove(InventoryItem::KeyPink),
        letters: None,
        immunity: 0,
        hidden: false,
        direction: HorizontalDirection::Right,
        just_turned_around: false,
        motion: Motion::NotMoving,
        is_in_the_air: false,
        is_shooting: false,
        counter: 0,
        base_tile_number: HERO_STANDING_RIGHT,
        current_frame: 0,
        num_frames: 1,
        vertical_speed: 0,
        gets_hurt: false,
        ..h
    }
}

/// The events announced when the hero enters a level: one inventory change
/// for each kind of key taken away.
pub open spec fn level_entry_events() -> Seq<UserEvent> {
    seq![
        UserEvent::HeroInventoryChanged,
        UserEvent::HeroInventoryChanged,
        UserEvent::HeroInventoryChanged,
        UserEvent::HeroInventoryChanged,
    ]
}

/// The first tile of the hero's pose and the number of frames of its
/// animation, for the hero's state.
pub open spec fn animation_for(h: HeroView) -> (usize, usize) {
    let left = h.direction == HorizontalDirection::Left;
    if h.is_in_the_air {
        if h.counter > 0 {
            (if left { HERO_JUMPING_LEFT } else { HERO_JUMPING_RIGHT }, HERO_NUM_JUMPING)
        } else {
            (if left { HERO_FALLING_LEFT } else { HERO_FALLING_RIGHT }, HERO_NUM_FALLING)
        }
    } else if h.motion == Motion::NotMoving {
        (if left {
            if h.is_shooting { (HERO_WALKING_LEFT + 12) as usize } else { HERO_STANDING_LEFT }
        } else {
            if h.is_shooting { (HERO_WALKING_RIGHT + 12) as usize } else { HERO_STANDING_RIGHT }
        }, HERO_NUM_STANDING)
    } else {
        ((if left { HERO_WALKING_LEFT } else { HERO_WALKING_RIGHT } + 4 * h.current_frame) as usize,
            HERO_NUM_WALKING)
    }
}

/// The animation tile can be computed without overflow.
pub open spec fn animation_fits(h: HeroView) -> bool {
    !h.is_in_the_air && h.motion == Motion::Walking ==> HERO_WALKING_RIGHT + 4 * h.current_frame <= usize::MAX
}

/// The animation frame `k` steps of [`HeroData::next_frame`] after frame `c`
/// of an animation of `n` frames.
pub open spec fn frame_after(c: nat, n: nat, k: nat) -> nat
    decreases k,
{
    if k == 0 { c } else { ((frame_after(c, n, (k - 1) as nat) + 1) % n) as nat }
}

/// `k` steps move `k` frames on, wrapping around.
proof fn lemma_frame_after_offset(c: nat, n: nat, k: nat)
    requires
        n > 0,
        c < n,
    ensures
        frame_after(c, n, k) == (c + k) % n,
    decreases k,
{
    if k > 0 {
        lemma_frame_after_offset(c, n, (k - 1) as nat);
        vstd::arithmetic::div_mod::lemma_add_mod_noop_right(1, c + k - 1, n as int);
        assert(1 + (c + k - 1) == c + k);
    } else {
        vstd::arithmetic::div_mod::lemma_small_mod(c, n);
    }
}

/// As many steps as the animation has frames bring it back to the frame it
/// started from.
pub proof fn lemma_frames_cycle(c: nat, n: nat)
    requires
        n > 0,
        c < n,
    ensures
        frame_after(c, n, n) == c,
{
    lemma_frame_after_offset(c, n, n);
    vstd::arithmetic::div_mod::lemma_mod_add_multiples_vanish(c as int, n as int);
    vstd::arithmetic::div_mod::lemma_small_mod(c, n);
}

impl HeroData {
    /// The invariant every operation keeps: the animation has at least one
    /// frame, and health and firepower stay within their maxima.
    pub open spec fn wf(&self) -> bool {
        &&& self@.num_frames >= 1
        &&& self@.current_frame < usize::MAX
        &&& self@.health <= Health::MAX
        &&& self@.firepower <= Firepower::MAX
        &&& self@.vertical_speed <= 6
    }

    pub fn new() -> (h: Self)
        ensures
            h@ == initial_hero(),
            h.wf(),
    {
        let h = HeroData {
            position: Position::new(),
            score: Score::new(),
            health: Health::new(),
            firepower: Firepower::new(),
            inventory: Inventory::new(),
            fetched_letter_state: FetchedLetterState::new(),
            immunity: Immunity::new(),
            hidden: false,
            direction: HorizontalDirection::Right,
            just_turned_around: false,
            motion: Motion::NotMoving,
            is_in_the_air: false,
            is_shooting: false,
            counter: 0,
            base_tile_number: HERO_STANDING_RIGHT,
            current_frame: 0,
            num_frames: 1,
            vertical_speed: 0,
            gets_hurt: false,
        };
        h
    }

    /// Brings the hero back to the state of a new game.
    pub fn reset(&mut self, events: &mut Vec<UserEvent>)
        ensures
            final(self)@ == initial_hero(),
            final(self).wf(),
            final(events)@ == old(events)@.push(UserEvent::HeroScored).push(UserEvent::HeroFirepowerChanged),
    {
        self.position.reset();
        self.score.reset(events);
        self.health.reset();
        self.firepower.reset(events);
        self.inventory.reset();
        self.fetched_letter_state.reset();
        self.immunity.reset();
        self.hidden = false;
        self.direction = HorizontalDirection::Right;
        self.just_turned_around = false;
        self.motion = Motion::NotMoving;
        self.is_in_the_air = false;
        self.is_shooting = false;
        self.counter = 0;
        self.base_tile_number = HERO_STANDING_RIGHT;
        self.current_frame = 0;
        self.num_frames = 1;
        self.vertical_speed = 0;
        self.gets_hurt = false;
    }

    /// Prepares the hero for a new level; see [`hero_for_level`].
    pub fn reset_for_level(&mut self, events: &mut Vec<UserEvent>)
        requires
            old(self).wf(),
        ensures
            final(self)@ == hero_for_level(old(self)@),
            final(self).wf(),
            final(events)@ == old(events)@ + level_entry_events(),
    {
        self.direction = HorizontalDirection::Right;
        self.inventory.unset(InventoryItem::KeyRed, events);
        self.inventory.unset(InventoryItem::KeyGreen, events);
        self.inventory.unset(InventoryItem::KeyBlue, events);
        self.inventory.unset(InventoryItem::KeyPink, events);
        self.fetched_letter_state.reset();
        self.immunity.reset();
        self.hidden = false;
        self.just_turned_around = false;
        self.motion = Motion::NotMoving;
        self.is_in_the_air = false;
        self.is_shooting = false;
        self.counter = 0;
        self.base_tile_number = HERO_STANDING_RIGHT;
        self.current_frame = 0;
        self.num_frames = 1;
        self.vertical_speed = 0;
        self.gets_hurt = false;
        assert(final(events)@ =~= old(events)@ + level_entry_events());
    }

    /// Turns the hero; turning to a new direction is remembered, so that
    /// the hero does not walk in the step in which he turns.
    pub fn set_direction(&mut self, direction: HorizontalDirection)
        ensures
            final(self)@ == if old(self)@.direction != direction {
                HeroView { just_turned_around: true, direction, ..old(self)@ }
            } else {
                old(self)@
            },
    {
        if self.direction != direction {
            self.just_turned_around = true;
            self.direction = direction;
        }
    }

    pub fn get_direction(&self) -> (r: HorizontalDirection)
        ensures
            r == self@.direction,
    {
        self.direction
    }

    pub fn reset_just_tured_around(&mut self)
        ensures
            final(self)@ == (HeroView { just_turned_around: false, ..old(self)@ }),
    {
        self.just_turned_around = false;
    }

    pub fn get_just_turned_around(&self) -> (r: bool)
        ensures
            r == self@.just_turned_around,
    {
        self.just_turned_around
    }

    /// Advances the animation by one frame, wrapping around.
    pub fn next_frame(&mut self)
        requires
            old(self).wf(),
        ensures
            final(self)@ == (HeroView {
                current_frame: ((old(self)@.current_frame + 1) % (old(self)@.num_frames as int)) as usize,
                ..old(self)@
            }),
            final(self)@.current_frame == frame_after(old(self)@.current_frame as nat, old(self)@.num_frames as nat, 1),
            final(self).wf(),
    {
        assert(frame_after(self@.current_frame as nat, self@.num_frames as nat, 0) == self@.current_frame);
        self.current_frame += 1;
        self.current_frame %= self.num_frames;
    }

    pub fn set_num_frames(&mut self, num_frames: usize)
        requires
            num_frames > 0,
        ensures
            final(self)@ == (HeroView {
                num_frames,
                current_frame: (old(self)@.current_frame % num_frames) as usize,
                ..old(self)@
            }),
            old(self).wf() ==> final(self).wf(),
    {
        self.num_frames = num_frames;
        self.current_frame %= self.num_frames;
    }

    /// Places the hero at the start position of a level and prepares him
    /// for playing it.
    pub fn enter_level(&mut self, x: i16, y: i16, events: &mut Vec<UserEvent>)
        requires
            old(self).wf(),
        ensures
            final(self)@ == hero_for_level(HeroView {
                position: Geometry { x, y, ..old(self)@.position },
                ..old(self)@
            }),
            final(self).wf(),
            final(events)@ == old(events)@ + level_entry_events(),
    {
        self.position.geometry.x = x;
        self.position.geometry.y = y;
        self.reset_for_level(events);
    }

    /// Whether the hero would collide with a wall if his top left corner
    /// were at (`x`, `y`).
    pub fn would_collide(&self, solids: &LevelSolids, x: i16, y: i16) -> (r: bool)
        requires
            scannable(Geometry { x, y, ..self@.position }),
        ensures
            r == solids.spec_collides(Geometry { x, y, ..self@.position }),
    {
        let mut destination = self.position.geometry;
        destination.x = x;
        destination.y = y;
        solids.collides(destination)
    }

    /// Chooses the pose the hero is drawn in; see [`animation_for`].
    pub fn update_animation(&mut self)
        requires
            animation_fits(old(self)@),
        ensures
            final(self)@ == (HeroView {
                base_tile_number: animation_for(old(self)@).0,
                num_frames: animation_for(old(self)@).1,
                ..old(self)@
            }),
            old(self).wf() ==> final(self).wf(),
    {
        let left = self.direction == HorizontalDirection::Left;
        self.base_tile_number = if self.is_in_the_air {
            if self.counter > 0 {
                self.num_frames = HERO_NUM_JUMPING;
                if left { HERO_JUMPING_LEFT } else { HERO_JUMPING_RIGHT }
            } else {
                self.num_frames = HERO_NUM_FALLING;
                if left { HERO_FALLING_LEFT } else { HERO_FALLING_RIGHT }
            }
        } else {
            if self.motion == Motion::NotMoving {
                self.num_frames = HERO_NUM_STANDING;
                if left {
                    if self.is_shooting { HERO_WALKING_LEFT + 12 } else { HERO_STANDING_LEFT }
                } else {
                    if self.is_shooting { HERO_WALKING_RIGHT + 12 } else { HERO_STANDING_RIGHT }
                }
            } else {
                self.num_frames = HERO_NUM_WALKING;
                if left {
                    HERO_WALKING_LEFT + 4 * self.current_frame
                } else {
                    HERO_WALKING_RIGHT + 4 * self.current_frame
                }
            }
        };
    }

    /// Starts a jump if the hero stands on the ground; with the boots the
    /// jump lasts one step longer.
    pub fn jump(&mut self)
        ensures
            final(self)@ == if old(self)@.is_in_the_air {
                old(self)@
            } else {
                HeroView {
                    counter: if old(self)@.inventory.contains(InventoryItem::Boot) { 7 } else { 6 },
                    vertical_speed: 2,
                    is_in_the_air: true,
                    ..old(self)@
                }
            },
            old(self).wf() ==> final(self).wf(),
    {
        if !self.is_in_the_air {
            self.counter = if self.inventory.is_set(InventoryItem::Boot) { 7 } else { 6 };
            self.vertical_speed = 2;
            self.is_in_the_air = true;
        }
    }

    pub fn land(&mut self)
        ensures
            final(self)@ == (HeroView { vertical_speed: 0, is_in_the_air: false, counter: 0, ..old(self)@ }),
            old(self).wf() ==> final(self).wf(),
    {
        self.vertical_speed = 0;
        self.is_in_the_air = false;
        self.counter = 0;
    }

    pub fn fall(&mut self)
        ensures
            final(self)@ == (HeroView { is_in_the_air: true, counter: 0, ..old(self)@ }),
            old(self).wf() ==> final(self).wf(),
    {
        self.is_in_the_air = true;
        self.counter = 0;
    }

    pub fn set_motion(&mut self, motion: Motion)
        ensures
            final(self)@ == (HeroView { motion, ..old(self)@ }),
            old(self).wf() ==> final(self).wf(),
    {
        self.motion = motion;
    }

    pub fn get_motion(&self) -> (r: Motion)
        ensures
            r == self@.motion,
    {
        self.motion
    }

    pub fn set_is_shooting(&mut self, is_shooting: bool)
        ensures
            final(self)@ == (HeroView { is_shooting, ..old(self)@ }),
            old(self).wf() ==> final(self).wf(),
    {
        self.is_shooting = is_shooting;
    }

    pub fn get_is_shooting(&self) -> (r: bool)
        ensures
            r == self@.is_shooting,
    {
        self.is_shooting
    }

    /// Marks whether some actor hurts the hero in this step.
    pub fn set_gets_hurt(&mut self, gets_hurt: bool)
        ensures
            final(self)@ == (HeroView { gets_hurt, ..old(self)@ }),
            old(self).wf() ==> final(self).wf(),
    {
        self.gets_hurt = gets_hurt;
    }

    pub fn get_gets_hurt(&self) -> (r: bool)
        ensures
            r == self@.gets_hurt,
    {
        self.gets_hurt
    }

    pub fn get_is_in_the_air(&self) -> (r: bool)
        ensures
            r == self@.is_in_the_air,
    {
        self.is_in_the_air
    }

    pub fn get_counter(&self) -> (r: usize)
        ensures
            r == self@.counter,
    {
        self.counter
    }

    pub fn get_vertical_speed(&self) -> (r: usize)
        ensures
            r == self@.vertical_speed,
    {
        self.vertical_speed
    }

    pub fn get_base_tile_number(&self) -> (r: usize)
        ensures
            r == self@.base_tile_number,
    {
        self.base_tile_number
    }

    pub fn get_current_frame(&self) -> (r: usize)
        ensures
            r == self@.current_frame,
    {
        self.current_frame
    }

    pub fn get_num_frames(&self) -> (r: usize)
        ensures
            r == self@.num_frames,
    {
        self.num_frames
    }
}


// ---------------------------------------------------------------------------
// One game step of the hero

/// `n` announcements that the hero moved.
pub open spec fn moved_events(n: nat) -> Seq<UserEvent> {
    Seq::new(n, |i: int| UserEvent::HeroMoved)
}

/// The rectangle `g` moved by `d` pixels fits the range of a position and
/// lies where a collision test can look at all its tiles.
pub open spec fn testable_v(g: Geometry, d: int) -> bool {
    i16::MIN <= g.y + d <= i16::MAX && scannable(shifted_v(g, d))
}

/// The same for a move by `d` pixels sideways.
pub open spec fn testable_h(g: Geometry, d: int) -> bool {
    i16::MIN <= g.x + d <= i16::MAX && scannable(shifted_h(g, d))
}

/// Each of the `n` tries of a rising hero from `g` to move half a tile up
/// tests a place inside the level.
pub open spec fn rise_ok(solids: LevelSolids, g: Geometry, n: nat) -> bool
    decreases n,
{
    n == 0 || (testable_v(g, -8) && if !solids.spec_collides(shifted_v(g, -8)) {
        rise_ok(solids, shifted_v(g, -8), (n - 1) as nat)
    } else {
        rise_ok(solids, g, (n - 1) as nat)
    })
}

/// Each of the `n` tries of a falling hero from `g` to move half a tile
/// down tests a place inside the level, and he only moves down from a
/// place at or below the level's top edge.
pub open spec fn sink_ok(solids: LevelSolids, g: Geometry, n: nat) -> bool
    decreases n,
{
    n == 0 || (testable_v(g, 8) && if !solids.spec_collides(shifted_v(g, 8)) {
        g.y >= 0 && sink_ok(solids, shifted_v(g, 8), (n - 1) as nat)
    } else {
        sink_ok(solids, g, (n - 1) as nat)
    })
}

/// The walk of [`act_walk`] can be made: a walking hero who did not just
/// turn around faces a side, and the place half a tile that way lies
/// inside the level.
pub open spec fn walk_ok(h: HeroView) -> bool {
    h.motion == Motion::Walking && !h.just_turned_around ==> {
        &&& h.direction != HorizontalDirection::Center
        &&& testable_h(h.position, if h.direction == HorizontalDirection::Left { -8 } else { 8 })
    }
}

/// The rise or fall of [`act_vertical`] tests places inside the level only.
pub open spec fn vertical_ok(h: HeroView, solids: LevelSolids) -> bool {
    h.is_in_the_air ==> if h.counter > 0 {
        rise_ok(solids, h.position, jump_speed((h.counter - 1) as usize) as nat)
    } else {
        let vs: usize = if h.vertical_speed + 1 < 6 { (h.vertical_speed + 1) as usize } else { 6 };
        sink_ok(solids, h.position, (vs / 2) as nat)
    }
}

/// The test for ground of [`act_ground`] looks at a place inside the level.
pub open spec fn ground_ok(h: HeroView) -> bool {
    testable_v(h.position, 8)
}

/// Every collision test of one step of the hero (see [`hero_act`]) looks at
/// a place inside the level, and a walking hero faces a side: exactly the
/// tests the step makes, in the branches it takes.
pub open spec fn act_ok(h: HeroView, solids: LevelSolids) -> bool {
    let p1 = act_hurt(h).0;
    let p2 = act_walk(p1, solids).0;
    let p3 = act_vertical(p2, solids).0;
    &&& walk_ok(p1)
    &&& vertical_ok(p2, solids)
    &&& ground_ok(p3)
}

/// First phase: the immunity wears off by one step; a hero who gets hurt
/// and is not immune loses one unit of health and becomes immune.
pub open spec fn act_hurt(h: HeroView) -> (HeroView, Seq<UserEvent>) {
    let imm: nat = if h.immunity > 0 { (h.immunity - 1) as nat } else { 0 };
    if imm == 0 && h.gets_hurt {
        (HeroView {
            immunity: Immunity::DURATION as nat,
            health: if h.health > 1 { (h.health - 1) as u8 } else { 0 },
            ..h
        }, seq![UserEvent::HeroHealthChanged])
    } else {
        (HeroView { immunity: imm, ..h }, seq![])
    }
}

/// Second phase: a walking hero who did not just turn around moves half a
/// tile in the direction he faces, unless a wall is in the way.
pub open spec fn act_walk(h: HeroView, solids: LevelSolids) -> (HeroView, Seq<UserEvent>, bool) {
    if h.motion == Motion::Walking {
        if h.just_turned_around {
            (HeroView { just_turned_around: false, ..h }, seq![], false)
        } else {
            let dx: int = if h.direction == HorizontalDirection::Left { -8 } else { 8 };
            let g = shifted_h(h.position, dx);
            if !solids.spec_collides(g) {
                (HeroView { position: g, ..h }, seq![UserEvent::HeroMoved], true)
            } else {
                (h, seq![], false)
            }
        }
    } else {
        (h, seq![], false)
    }
}

/// A rising hero tries `n` times to move half a tile up; each time the
/// ceiling is in the way the jump ends (the counter drops to zero).
/// Gives the position, the counter and the number of moves.
pub open spec fn rise(solids: LevelSolids, g: Geometry, counter: usize, n: nat) -> (Geometry, usize, nat)
    decreases n,
{
    if n == 0 {
        (g, counter, 0)
    } else if !solids.spec_collides(shifted_v(g, -8)) {
        let r = rise(solids, shifted_v(g, -8), counter, (n - 1) as nat);
        (r.0, r.1, r.2 + 1)
    } else {
        rise(solids, g, 0, (n - 1) as nat)
    }
}

/// A falling hero tries `n` times to move half a tile down.
/// Gives the position and the number of moves.
pub open spec fn sink(solids: LevelSolids, g: Geometry, n: nat) -> (Geometry, nat)
    decreases n,
{
    if n == 0 {
        (g, 0)
    } else if !solids.spec_collides(shifted_v(g, 8)) {
        let r = sink(solids, shifted_v(g, 8), (n - 1) as nat);
        (r.0, r.1 + 1)
    } else {
        sink(solids, g, (n - 1) as nat)
    }
}

/// The vertical speed of a jumping hero for the remaining jump counter.
pub open spec fn jump_speed(counter: usize) -> usize {
    if counter == 3 || counter == 2 { 1 } else if counter == 1 || counter == 0 { 0 } else { 2 }
}

/// Third phase: a hero on the ground has no vertical speed; a jumping hero
/// rises as fast as the jump counter says; a falling hero speeds up (up to
/// six) and sinks half as many half tiles as his speed.
pub open spec fn act_vertical(h: HeroView, solids: LevelSolids) -> (HeroView, Seq<UserEvent>, bool) {
    if !h.is_in_the_air {
        (HeroView { vertical_speed: 0, ..h }, seq![], false)
    } else if h.counter > 0 {
        let c = (h.counter - 1) as usize;
        let vs = jump_speed(c);
        let r = rise(solids, h.position, c, vs as nat);
        (HeroView { position: r.0, counter: r.1, vertical_speed: vs, ..h }, moved_events(r.2), r.2 > 0)
    } else {
        let vs: usize = if h.vertical_speed + 1 < 6 { (h.vertical_speed + 1) as usize } else { 6 };
        let r = sink(solids, h.position, (vs / 2) as nat);
        (HeroView { position: r.0, vertical_speed: vs, ..h }, moved_events(r.1), r.1 > 0)
    }
}

/// Fourth phase: a hero with a wall right below him stands (and lands, if
/// he was in the air); otherwise a hero who is not rising falls.
pub open spec fn act_ground(h: HeroView, solids: LevelSolids) -> (HeroView, Seq<UserEvent>) {
    if solids.spec_collides(shifted_v(h.position, 8)) {
        (HeroView { vertical_speed: 0, is_in_the_air: false, counter: 0, ..h },
            if h.is_in_the_air { seq![UserEvent::HeroLanded] } else { seq![] })
    } else if h.counter == 0 {
        (HeroView { is_in_the_air: true, counter: 0, ..h }, seq![])
    } else {
        (h, seq![])
    }
}

/// One game step of the hero, and the events it announces: those of the
/// four phases, then one more move announcement if the hero moved at all.
pub open spec fn hero_act(h: HeroView, solids: LevelSolids) -> (HeroView, Seq<UserEvent>) {
    let p1 = act_hurt(h);
    let p2 = act_walk(p1.0, solids);
    let p3 = act_vertical(p2.0, solids);
    let p4 = act_ground(p3.0, solids);
    (p4.0, p1.1 + p2.1 + p3.1 + p4.1 + if p2.2 || p3.2 { seq![UserEvent::HeroMoved] } else { seq![] })
}

/// Rising only ever moves into free space.
proof fn lemma_rise_free(solids: LevelSolids, g: Geometry, counter: usize, n: nat)
    requires
        !solids.spec_collides(g),
    ensures
        !solids.spec_collides(rise(solids, g, counter, n).0),
    decreases n,
{
    if n > 0 {
        if !solids.spec_collides(shifted_v(g, -8)) {
            lemma_rise_free(solids, shifted_v(g, -8), counter, (n - 1) as nat);
        } else {
            lemma_rise_free(solids, g, 0, (n - 1) as nat);
        }
    }
}

/// Sinking only ever moves into free space.
proof fn lemma_sink_free(solids: LevelSolids, g: Geometry, n: nat)
    requires
        !solids.spec_collides(g),
    ensures
        !solids.spec_collides(sink(solids, g, n).0),
    decreases n,
{
    if n > 0 {
        if !solids.spec_collides(shifted_v(g, 8)) {
            lemma_sink_free(solids, shifted_v(g, 8), (n - 1) as nat);
        } else {
            lemma_sink_free(solids, g, (n - 1) as nat);
        }
    }
}

/// The hero never walks, jumps or falls into a wall: a hero who overlaps
/// no solid tile before a step overlaps none after it.
pub proof fn lemma_act_keeps_hero_free(h: HeroView, solids: LevelSolids)
    requires
        !solids.spec_collides(h.position),
    ensures
        !solids.spec_collides(hero_act(h, solids).0.position),
{
    let p1 = act_hurt(h);
    let p2 = act_walk(p1.0, solids);
    let p3 = act_vertical(p2.0, solids);
    if p2.0.is_in_the_air {
        if p2.0.counter > 0 {
            let c = (p2.0.counter - 1) as usize;
            lemma_rise_free(solids, p2.0.position, c, jump_speed(c) as nat);
        } else {
            let vs: usize = if p2.0.vertical_speed + 1 < 6 { (p2.0.vertical_speed + 1) as usize } else { 6 };
            lemma_sink_free(solids, p2.0.position, (vs / 2) as nat);
        }
    }
}

/// A rise whose ceiling is in the way from the start ends at once: however
/// many tries are left, the hero stays where he is and the jump counter
/// is zero.
proof fn lemma_rise_blocked(solids: LevelSolids, g: Geometry, counter: usize, n: nat)
    requires
        n > 0,
        solids.spec_collides(shifted_v(g, -8)),
    ensures
        rise(solids, g, counter, n).0 == g,
        rise(solids, g, counter, n).1 == 0,
        rise(solids, g, counter, n).2 == 0,
    decreases n,
{
    if n > 1 {
        lemma_rise_blocked(solids, g, 0, (n - 1) as nat);
    } else {
        assert(rise(solids, g, 0, 0) == (g, 0usize, 0nat));
    }
}

/// Bumping the head ends a jump: a hero who rises (he is in the air, his
/// jump counter is not yet down to the last step and he is not walking)
/// but has a solid tile half a tile above him stays where he is, and his
/// jump counter is zero after the step, so that he falls from then on.
pub proof fn lemma_bump_ends_jump(h: HeroView, solids: LevelSolids)
    requires
        h.is_in_the_air,
        h.counter > 2,
        h.motion != Motion::Walking,
        solids.spec_collides(shifted_v(h.position, -8)),
    ensures
        hero_act(h, solids).0.counter == 0,
        hero_act(h, solids).0.position == h.position,
        hero_act(h, solids).0.vertical_speed > 0 || !hero_act(h, solids).0.is_in_the_air,
{
    let p1 = act_hurt(h).0;
    let p2 = act_walk(p1, solids).0;
    assert(p2.position == h.position && p2.counter == h.counter && p2.is_in_the_air);
    let c = (p2.counter - 1) as usize;
    lemma_rise_blocked(solids, p2.position, c, jump_speed(c) as nat);
}

impl HeroData {
    fn act_hurt_phase(&mut self, events: &mut Vec<UserEvent>)
        requires
            old(self).wf(),
        ensures
            final(self)@ == act_hurt(old(self)@).0,
            final(events)@ == old(events)@ + act_hurt(old(self)@).1,
            final(self).wf(),
    {
        self.immunity.count_down();
        if !self.immunity.hero_is_protected() && self.gets_hurt {
            self.immunity.enable();
            self.health.decrease(1, events);
        }
        assert(final(events)@ =~= old(events)@ + act_hurt(old(self)@).1);
    }

    fn act_walk_phase(&mut self, solids: &LevelSolids, events: &mut Vec<UserEvent>) -> (moved: bool)
        requires
            old(self).wf(),
            walk_ok(old(self)@),
        ensures
            final(self)@ == act_walk(old(self)@, *solids).0,
            final(events)@ == old(events)@ + act_walk(old(self)@, *solids).1,
            moved == act_walk(old(self)@, *solids).2,
            final(self).wf(),
    {
        let mut moved = false;
        if self.motion == Motion::Walking {
            if self.just_turned_around {
                self.just_turned_around = false;
            } else {
                let mut new_position = self.position.geometry;
                if self.direction == HorizontalDirection::Left {
                    new_position.x = new_position.x - HALFTILE_WIDTH as i16;
                } else {
                    new_position.x = new_position.x + HALFTILE_WIDTH as i16;
                }
                if !self.would_collide(solids, new_position.x, new_position.y) {
                    self.position.move_to(new_position.x as u16, new_position.y as u16, events);
                    moved = true;
                }
            }
        }
        assert(final(events)@ =~= old(events)@ + act_walk(old(self)@, *solids).1);
        moved
    }

    fn act_vertical_phase(&mut self, solids: &LevelSolids, events: &mut Vec<UserEvent>) -> (moved: bool)
        requires
            old(self).wf(),
            vertical_ok(old(self)@, *solids),
        ensures
            final(self)@ == act_vertical(old(self)@, *solids).0,
            final(events)@ == old(events)@ + act_vertical(old(self)@, *solids).1,
            moved == act_vertical(old(self)@, *solids).2,
            final(self).wf(),
    {
        let ghost h0 = self@;
        let ghost e0 = events@;
        if !self.is_in_the_air {
            self.vertical_speed = 0;
            assert(final(events)@ =~= old(events)@ + act_vertical(old(self)@, *solids).1);
            return false;
        }
        if self.counter > 0 {
            self.counter -= 1;
            self.vertical_speed = if self.counter == 3 || self.counter == 2 {
                1
            } else if self.counter == 1 || self.counter == 0 {
                0
            } else {
                2
            };
            let vs = self.vertical_speed;
            let ghost c = self.counter;
            let ghost target = rise(*solids, h0.position, c, vs as nat);
            let mut k: usize = 0;
            let mut moves: usize = 0;
            while k < vs
                invariant
                    vs <= 2,
                    k <= vs,
                    moves <= k,
                    rise_ok(*solids, self.position.geometry, (vs - k) as nat),
                    self.position.geometry.x == h0.position.x,
                    self.position.geometry.w == h0.position.w,
                    self.position.geometry.h == h0.position.h,
                    h0.position.y - 8 * moves == self.position.geometry.y,
                    rise(*solids, self.position.geometry, self.counter, (vs - k) as nat)
                        == (target.0, target.1, (target.2 - moves) as nat),
                    target.2 >= moves,
                    self@ == (HeroView { position: self@.position, counter: self@.counter, vertical_speed: vs, ..h0 }),
                    events@ == e0 + moved_events(moves as nat),
                    self.wf(),
                decreases vs - k,
            {
                let geometry = self.position.geometry;
                if !self.would_collide(solids, geometry.x, geometry.y - HALFTILE_HEIGHT as i16) {
                    self.position.move_y_to((geometry.y as usize - HALFTILE_HEIGHT as usize) as u16, events);
                    moves = moves + 1;
                    assert(events@ =~= e0 + moved_events(moves as nat));
                } else {
                    self.counter = 0;
                }
                k = k + 1;
            }
            proof {
                assert(self.position.geometry == target.0);
                assert(self.counter == target.1);
                assert(moves == target.2);
                assert(self@ == act_vertical(h0, *solids).0);
            }
            assert(final(events)@ =~= old(events)@ + act_vertical(old(self)@, *solids).1);
            moves > 0
        } else {
            let vs: usize = if self.vertical_speed + 1 < 6 { self.vertical_speed + 1 } else { 6 };
            self.vertical_speed = vs;
            let n = vs / 2;
            let ghost target = sink(*solids, h0.position, n as nat);
            let mut k: usize = 0;
            let mut moves: usize = 0;
            while k < n
                invariant
                    n <= 3,
                    k <= n,
                    moves <= k,
                    sink_ok(*solids, self.position.geometry, (n - k) as nat),
                    self.position.geometry.x == h0.position.x,
                    self.position.geometry.w == h0.position.w,
                    self.position.geometry.h == h0.position.h,
                    h0.position.y + 8 * moves == self.position.geometry.y,
                    sink(*solids, self.position.geometry, (n - k) as nat)
                        == (target.0, (target.1 - moves) as nat),
                    target.1 >= moves,
                    self@ == (HeroView { position: self@.position, vertical_speed: vs, ..h0 }),
                    vs <= 6,
                    n == vs / 2,
                    events@ == e0 + moved_events(moves as nat),
                    self.wf(),
                decreases n - k,
            {
                let geometry = self.position.geometry;
                if !self.would_collide(solids, geometry.x, geometry.y + HALFTILE_HEIGHT as i16) {
                    self.position.move_y_to((geometry.y as usize + HALFTILE_HEIGHT as usize) as u16, events);
                    moves = moves + 1;
                    assert(events@ =~= e0 + moved_events(moves as nat));
                }
                k = k + 1;
            }
            proof {
                assert(self.position.geometry == target.0);
                assert(moves == target.1);
                assert(self@ == act_vertical(h0, *solids).0);
            }
            assert(final(events)@ =~= old(events)@ + act_vertical(old(self)@, *solids).1);
            moves > 0
        }
    }

    fn act_ground_phase(&mut self, solids: &LevelSolids, events: &mut Vec<UserEvent>)
        requires
            old(self).wf(),
            ground_ok(old(self)@),
        ensures
            final(self)@ == act_ground(old(self)@, *solids).0,
            final(events)@ == old(events)@ + act_ground(old(self)@, *solids).1,
            final(self).wf(),
    {
        let geometry = self.position.geometry;
        if self.would_collide(solids, geometry.x, geometry.y + HALFTILE_HEIGHT as i16) {
            if self.is_in_the_air {
                events.push(UserEvent::HeroLanded);
            }
            self.land();
            self.counter = 0;
        } else {
            if self.counter == 0 {
                self.fall();
            }
        }
        assert(final(events)@ =~= old(events)@ + act_ground(old(self)@, *solids).1);
    }

    /// One game step of the hero; see [`hero_act`]. Returns the remaining
    /// health.
    pub fn act(&mut self, solids: &LevelSolids, events: &mut Vec<UserEvent>) -> (life: u8)
        requires
            old(self).wf(),
            act_ok(old(self)@, *solids),
        ensures
            final(self)@ == hero_act(old(self)@, *solids).0,
            final(events)@ == old(events)@ + hero_act(old(self)@, *solids).1,
            life == final(self)@.health,
            final(self).wf(),
    {
        let ghost e0 = events@;
        self.act_hurt_phase(events);
        let ghost e1 = events@;
        let walked = self.act_walk_phase(solids, events);
        let ghost e2 = events@;
        let rose_or_fell = self.act_vertical_phase(solids, events);
        let ghost e3 = events@;
        self.act_ground_phase(solids, events);
        let ghost e4 = events@;
        if walked || rose_or_fell {
            events.push(UserEvent::HeroMoved);
        }
        assert(final(events)@ =~= old(events)@ + hero_act(old(self)@, *solids).1);
        self.health.get()
    }
}


/// The first of the four tiles the hero is drawn with: the skeleton facing
/// his way right after he got hurt, else the tile of his pose.
pub open spec fn hero_base_tile(h: HeroView) -> usize {
    if h.immunity == Immunity::DURATION {
        if h.direction == HorizontalDirection::Left { HERO_SKELETON_LEFT } else { HERO_SKELETON_RIGHT }
    } else {
        h.base_tile_number
    }
}

/// The hero can be drawn: he faces a side when drawn as a skeleton, and
/// his four tiles lie within the range of screen coordinates.
pub open spec fn hero_drawable(h: HeroView) -> bool {
    &&& h.immunity == Immunity::DURATION ==> h.direction != HorizontalDirection::Center
    &&& h.position.w <= i16::MAX
    &&& h.position.h <= i16::MAX
    &&& i16::MIN <= h.position.x - 8
    &&& h.position.x - 8 + h.position.w <= i16::MAX
    &&& h.position.y + h.position.h / 2 <= i16::MAX
    &&& hero_base_tile(h) + 3 <= usize::MAX
}

/// The tiles the hero is drawn with: none while hidden or blinking, else
/// two by two tiles from half a tile left of his position, the lower row
/// half his height further down.
pub open spec fn hero_tiles(h: HeroView) -> Seq<DrawTile> {
    if h.hidden || Immunity::spec_invisible(h.immunity) {
        seq![]
    } else {
        let base = hero_base_tile(h);
        let x = h.position.x - 8;
        let x2 = x + h.position.w;
        let y = h.position.y;
        let y2 = y + h.position.h / 2;
        seq![
            DrawTile { tile: base, x: x as i16, y: y as i16 },
            DrawTile { tile: (base + 1) as usize, x: x2 as i16, y: y as i16 },
            DrawTile { tile: (base + 2) as usize, x: x as i16, y: y2 as i16 },
            DrawTile { tile: (base + 3) as usize, x: x2 as i16, y: y2 as i16 },
        ]
    }
}

impl HeroData {
    /// The tiles to draw the hero with; see [`hero_tiles`].
    pub fn blit(&self) -> (r: Vec<DrawTile>)
        requires
            !(self@.hidden || Immunity::spec_invisible(self@.immunity)) ==> hero_drawable(self@),
        ensures
            r@ == hero_tiles(self@),
    {
        if self.hidden {
            return Vec::new();
        }
        if self.immunity.hero_invisible() {
            return Vec::new();
        }
        let g = self.position.geometry;
        let base = if self.immunity.hero_skeleton() {
            match self.direction {
                HorizontalDirection::Left => HERO_SKELETON_LEFT,
                _ => HERO_SKELETON_RIGHT,
            }
        } else {
            self.base_tile_number
        };
        let x: i16 = g.x - HALFTILE_WIDTH as i16;
        let x2: i16 = x + g.w as i16;
        let y2: i16 = g.y + (g.h as i16) / 2;
        vec![
            DrawTile { tile: base, x, y: g.y },
            DrawTile { tile: base + 1, x: x2, y: g.y },
            DrawTile { tile: base + 2, x, y: y2 },
            DrawTile { tile: base + 3, x: x2, y: y2 },
        ]
    }
}

/// `v / 16` rounded towards zero, as integer division does.
pub open spec fn tile_of_pixel(v: int) -> int {
    if v >= 0 { v / 16 } else { -((-v) / 16) }
}

/// The solid tiles among the first `k` of the three columns by four rows of
/// tiles around the hero whose top left tile is (`x0`, `y0`), column by
/// column and top down; tiles in the first row or column of the level are
/// left out.
pub open spec fn obstacles(grid: Seq<bool>, x0: int, y0: int, k: int) -> Seq<Geometry>
    decreases k,
{
    if k <= 0 {
        seq![]
    } else {
        let rest = obstacles(grid, x0, y0, k - 1);
        let i = x0 - 1 + (k - 1) / 4;
        let j = y0 - 1 + (k - 1) % 4;
        if i > 0 && j > 0 && solid_at(grid, i, j) {
            rest.push(Geometry { x: (i * 16) as i16, y: (j * 16) as i16, w: 16, h: 16 })
        } else {
            rest
        }
    }
}

impl HeroData {
    /// The rectangles to outline to show what the hero collides with: his
    /// own, then the solid tiles around him.
    pub fn collision_bounds(&self, solids: &LevelSolids) -> (r: Vec<Geometry>)
        requires
            tile_of_pixel(self@.position.x as int) + 1 < 128,
            tile_of_pixel(self@.position.y as int) + 2 < 90,
        ensures
            r@ == seq![self@.position] + obstacles(
                solids@,
                tile_of_pixel(self@.position.x as int),
                tile_of_pixel(self@.position.y as int),
                12,
            ),
    {
        let g = self.position.geometry;
        let x0: i16 = g.x / 16;
        let y0: i16 = g.y / 16;
        let ghost gx = tile_of_pixel(g.x as int);
        let ghost gy = tile_of_pixel(g.y as int);
        assert(x0 == gx && y0 == gy) by {
            assert(g.x >= 0 ==> x0 == g.x / 16);
        }
        let mut r: Vec<Geometry> = vec![g];
        let mut i: i16 = x0 - 1;
        while i < x0 + 2
            invariant
                x0 == gx,
                y0 == gy,
                -2048 <= x0,
                -2048 <= y0,
                gx + 1 < 128,
                gy + 2 < 90,
                x0 - 1 <= i <= x0 + 2,
                r@ == seq![g] + obstacles(solids@, gx, gy, (i - (x0 - 1)) * 4),
            decreases x0 + 2 - i,
        {
            let mut j: i16 = y0 - 1;
            while j < y0 + 3
                invariant
                    x0 == gx,
                    y0 == gy,
                    -2048 <= x0,
                    -2048 <= y0,
                    gx + 1 < 128,
                    gy + 2 < 90,
                    x0 - 1 <= i < x0 + 2,
                    y0 - 1 <= j <= y0 + 3,
                    r@ == seq![g] + obstacles(solids@, gx, gy, (i - (x0 - 1)) * 4 + (j - (y0 - 1))),
                decreases y0 + 3 - j,
            {
                let ghost k = (i - (x0 - 1)) * 4 + (j - (y0 - 1));
                assert((k + 1 - 1) / 4 == i - (x0 - 1) && (k + 1 - 1) % 4 == j - (y0 - 1)) by (nonlinear_arith)
                    requires
                        k == (i - (x0 - 1)) * 4 + (j - (y0 - 1)),
                        0 <= j - (y0 - 1) < 4,
                        0 <= i - (x0 - 1),
                ;
                if i > 0 && j > 0 && solids.get(i as usize, j as usize) {
                    r.push(Geometry { x: i * 16, y: j * 16, w: 16, h: 16 });
                }
                j = j + 1;
                assert(r@ =~= seq![g] + obstacles(solids@, gx, gy, (i - (x0 - 1)) * 4 + (j - (y0 - 1))));
            }
            i = i + 1;
        }
        r
    }
}

/// The one-pixel rectangles that outline each of the rectangles `rs`, in
/// their order (see [`outline`]).
pub open spec fn outlines(rs: Seq<Geometry>) -> Seq<Geometry>
    decreases rs.len(),
{
    if rs.len() == 0 {
        seq![]
    } else {
        outlines(rs.drop_last()) + outline(rs.last())
    }
}

/// The solid tiles found around the hero lie inside the level, away from
/// its first row and column.
proof fn lemma_obstacles_in_level(grid: Seq<bool>, x0: int, y0: int, k: int)
    requires
        x0 + 1 < 128,
        y0 + 2 < 90,
        k <= 12,
    ensures
        forall|i: int| 0 <= i < obstacles(grid, x0, y0, k).len() ==> {
            let r = #[trigger] obstacles(grid, x0, y0, k)[i];
            16 <= r.x <= 2032 && 16 <= r.y <= 1424 && r.w == 16 && r.h == 16
        },
    decreases k,
{
    if k > 0 {
        lemma_obstacles_in_level(grid, x0, y0, k - 1);
        let i = x0 - 1 + (k - 1) / 4;
        let j = y0 - 1 + (k - 1) % 4;
        assert((k - 1) / 4 <= 2 && (k - 1) % 4 <= 3);
        let prev = obstacles(grid, x0, y0, k - 1);
        if i > 0 && j > 0 && solid_at(grid, i, j) {
            let r = Geometry { x: (i * 16) as i16, y: (j * 16) as i16, w: 16, h: 16 };
            assert(16 <= i * 16 <= 2032 && 16 <= j * 16 <= 1424);
            assert(r.x == i * 16 && r.y == j * 16);
            assert(obstacles(grid, x0, y0, k) == prev.push(r));
            assert forall|n: int| 0 <= n < prev.push(r).len() implies {
                let q = #[trigger] prev.push(r)[n];
                16 <= q.x <= 2032 && 16 <= q.y <= 1424 && q.w == 16 && q.h == 16
            } by {
                if n < prev.len() {
                    assert(prev.push(r)[n] == prev[n]);
                }
            }
        } else {
            assert(obstacles(grid, x0, y0, k) == prev);
        }
    }
}

/// The hero is drawn: neither hidden nor blinking.
pub open spec fn hero_shown(h: HeroView) -> bool {
    !(h.hidden || Immunity::spec_invisible(h.immunity))
}

impl HeroData {
    /// The rectangles to fill to outline what the hero collides with (see
    /// [`HeroData::collision_bounds`]): none while the hero is not drawn.
    pub fn collision_outlines(&self, solids: &LevelSolids) -> (r: Vec<Geometry>)
        requires
            hero_shown(self@) ==> {
                &&& tile_of_pixel(self@.position.x as int) + 1 < 128
                &&& tile_of_pixel(self@.position.y as int) + 2 < 90
                &&& self@.position.w <= i16::MAX
                &&& self@.position.h <= i16::MAX
                &&& i16::MIN <= self@.position.x + self@.position.w - 1
                &&& self@.position.x + self@.position.w <= i16::MAX
                &&& i16::MIN <= self@.position.y + self@.position.h - 1
                &&& self@.position.y + self@.position.h <= i16::MAX
            },
        ensures
            r@ == if hero_shown(self@) {
                outlines(seq![self@.position] + obstacles(
                    solids@,
                    tile_of_pixel(self@.position.x as int),
                    tile_of_pixel(self@.position.y as int),
                    12,
                ))
            } else {
                seq![]
            },
    {
        if self.hidden || self.immunity.hero_invisible() {
            return Vec::new();
        }
        let bounds = self.collision_bounds(solids);
        proof {
            lemma_obstacles_in_level(
                solids@,
                tile_of_pixel(self@.position.x as int),
                tile_of_pixel(self@.position.y as int),
                12,
            );
        }
        let mut r: Vec<Geometry> = Vec::new();
        let mut i: usize = 0;
        while i < bounds.len()
            invariant
                i <= bounds@.len(),
                bounds@ == seq![self@.position] + obstacles(
                    solids@,
                    tile_of_pixel(self@.position.x as int),
                    tile_of_pixel(self@.position.y as int),
                    12,
                ),
                forall|k: int| 1 <= k < bounds@.len() ==> {
                    let b = #[trigger] bounds@[k];
                    16 <= b.x <= 2032 && 16 <= b.y <= 1424 && b.w == 16 && b.h == 16
                },
                bounds@[0] == self@.position,
                self@.position.w <= i16::MAX,
                self@.position.h <= i16::MAX,
                i16::MIN <= self@.position.x + self@.position.w - 1,
                self@.position.x + self@.position.w <= i16::MAX,
                i16::MIN <= self@.position.y + self@.position.h - 1,
                self@.position.y + self@.position.h <= i16::MAX,
                r@ == outlines(bounds@.subrange(0, i as int)),
            decreases bounds@.len() - i,
        {
            let b = bounds[i];
            if i > 0 {
                let ghost k = i as int;
                assert(bounds@[k] == b);
            }
            let mut sides = rect_draw(b);
            r.append(&mut sides);
            proof {
                assert(bounds@.subrange(0, i + 1).drop_last() =~= bounds@.subrange(0, i as int));
            }
            i = i + 1;
        }
        assert(bounds@.subrange(0, bounds@.len() as int) =~= bounds@);
        r
    }
}

} // verus!
