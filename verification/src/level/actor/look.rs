//! How each kind of actor looks: which tiles are drawn where for an actor
//! in a given state. Drawing them is up to the caller.

use vstd::prelude::*;
use crate::consts::{
    ANIMATION_BADGUYSCREEN, ANIMATION_CAMERA_CENTER, ANIMATION_CAMERA_LEFT, ANIMATION_CAMERA_RIGHT,
    ANIMATION_SODAFLY, ANIMATION_TELEPORTER1, BACKGROUND_LIGHT_GREY, OBJECT_BALLOON,
    OBJECT_ELEVATOR_TOP, OBJECT_KEYHOLE_BLUE, OBJECT_KEYHOLE_GREEN, OBJECT_KEYHOLE_PINK,
    OBJECT_KEYHOLE_RED, OBJECT_KEY_BLUE, OBJECT_KEY_GREEN, OBJECT_KEY_PINK, OBJECT_KEY_RED,
    OBJECT_NOTEBOOK, OBJECT_ROCKET, OBJECT_SPIKE, OBJECT_SPIKES_DOWN, OBJECT_SPIKES_UP,
    SOLID_CONVEYORBELT_CENTER, SOLID_CONVEYORBELT_LEFTEND, SOLID_CONVEYORBELT_RIGHTEND,
    SOLID_ELEVATOR, SOLID_EXPANDINGFLOOR, SOLID_SHOOTABLE_WALL_BRICKS,
};
use crate::draw::DrawTile;
use crate::geometry::Geometry;
use crate::hero::HeroData;
use super::fire::{fire_tiles, FireState};
use super::rocket::RocketState;
use super::specific::Specific;
use super::{ActorData, ActorType};

verus! {

/// Tile `t` drawn at (`x`, `y`).
pub open spec fn at(t: int, x: int, y: int) -> DrawTile {
    DrawTile { tile: t as usize, x: x as i16, y: y as i16 }
}

/// Tile `t` drawn at the place of `p`.
pub open spec fn one(t: int, p: Geometry) -> Seq<DrawTile> {
    seq![at(t, p.x as int, p.y as int)]
}

/// `n` copies of tile `t`, the first at (`x`, `y`), each one `dx` to the
/// right of and `dy` below the one before.
pub open spec fn line(t: int, x: int, y: int, n: nat, dx: int, dy: int) -> Seq<DrawTile> {
    Seq::new(n, |k: int| at(t, x + k * dx, y + k * dy))
}

/// The `n` pieces of a conveyor belt from (`x`, `y`) to the right: the left
/// end, the middle pieces and the right end, in animation frame `f`.
pub open spec fn belt(f: int, x: int, y: int, n: nat) -> Seq<DrawTile> {
    Seq::new(n, |k: int| at(
        if k == n - 1 {
            SOLID_CONVEYORBELT_RIGHTEND + f
        } else if k == 0 {
            SOLID_CONVEYORBELT_LEFTEND + f
        } else {
            SOLID_CONVEYORBELT_CENTER + f % 2
        },
        x + k * 16,
        y,
    ))
}

/// The three by three tiles of a teleporter whose bottom middle tile is
/// at `p`, row by row.
pub open spec fn teleporter_tiles(p: Geometry) -> Seq<DrawTile> {
    Seq::new(9, |k: int| at(ANIMATION_TELEPORTER1 + k, p.x - (1 - k % 3) * 16, p.y - (2 - k / 3) * 16))
}

/// The two by two tiles `t` to `t + 3` from (`x`, `y`), row by row.
pub open spec fn square(t: int, x: int, y: int) -> Seq<DrawTile> {
    seq![at(t, x, y), at(t + 1, x + 16, y), at(t + 2, x, y + 16), at(t + 3, x + 16, y + 16)]
}

/// The camera looks towards the hero: right when the hero stands more than
/// a pixel right of it, left when more than a pixel left, else ahead.
pub open spec fn camera_tile(hero_x: i16, x: i16) -> int {
    if hero_x - 1 > x {
        ANIMATION_CAMERA_RIGHT as int
    } else if hero_x + 1 < x {
        ANIMATION_CAMERA_LEFT as int
    } else {
        ANIMATION_CAMERA_CENTER as int
    }
}

/// The tile of a key or a lit keyhole of the colour of `t`.
pub open spec fn key_colour(t: ActorType, red: usize, blue: usize, pink: usize, green: usize) -> int {
    match t {
        ActorType::KeyRed | ActorType::KeyholeRed => red as int,
        ActorType::KeyBlue | ActorType::KeyholeBlue => blue as int,
        ActorType::KeyPink | ActorType::KeyholePink => pink as int,
        _ => green as int,
    }
}

/// The tiles of a rocket standing on `p`, from its tip down to its fins,
/// with the flame below while it flies.
pub open spec fn rocket_tiles(flying: bool, p: Geometry) -> Seq<DrawTile> {
    let y = p.y - 48;
    let body = seq![
        at(OBJECT_ROCKET as int, p.x as int, y),
        at(OBJECT_ROCKET + 1, p.x as int, y + 16),
        at(OBJECT_ROCKET + 1, p.x as int, y + 32),
        at(OBJECT_ROCKET + 2, p.x as int, y + 48),
        at(OBJECT_ROCKET + 3, p.x - 16, y + 48),
        at(OBJECT_ROCKET + 4, p.x + 16, y + 48),
    ];
    if flying { body.push(at(OBJECT_ROCKET + 6, p.x as int, y + 64)) } else { body }
}

/// The tiles an actor in state `s` with the common state `g` is drawn with,
/// while the hero stands at `hero_x`.
pub open spec fn looks(s: Specific, g: ActorData, hero_x: i16) -> Seq<DrawTile> {
    let p = g.position;
    match s {
        Specific::Placeholder => seq![],
        Specific::SimpleAnimation(a) => one(a.tile + a.current_frame, p),
        Specific::SingleAnimation(a) => one(a.tile + a.current_frame, p),
        Specific::Particle(a) => one(a.tile as int, p),
        Specific::Score(a) => one(a.tile as int, p),
        Specific::RedBallJumping(a) => one(a.tile as int, p),
        Specific::RedBallLying(a) => one(a.tile as int, p),
        Specific::Robot(a) => one(a.tile as int, p),
        Specific::Notebook(_) => one(OBJECT_NOTEBOOK as int, p),
        Specific::HostileShot(a) => one(a.tile + a.current_frame, p),
        Specific::AccessCardDoor(a) => one(a.tile + a.current_frame, p),
        Specific::AccessCardSlot(a) => one(a.tile + a.current_frame, p),
        Specific::Item(a) => one(a.tile + a.current_frame, p),
        Specific::WallCrawler(a) => one(a.tile + a.current_frame, p),
        Specific::Door(a) => one(a.tile + a.counter, p),
        Specific::Key(_) => one(key_colour(g.actor_type, OBJECT_KEY_RED, OBJECT_KEY_BLUE, OBJECT_KEY_PINK, OBJECT_KEY_GREEN), p),
        Specific::Spikes(a) => one(
            if g.actor_type == ActorType::SpikesUp {
                OBJECT_SPIKES_UP as int
            } else if g.actor_type == ActorType::SpikesDown {
                OBJECT_SPIKES_DOWN as int
            } else if a.touching_hero {
                OBJECT_SPIKE + 1
            } else {
                OBJECT_SPIKE as int
            },
            p,
        ),
        Specific::Bomb(a) => if a.counter < a.explode_threshold { one(a.tile + a.current_frame, p) } else { seq![] },
        Specific::SodaFlying(_) => one(ANIMATION_SODAFLY + ((p.y as usize) / 8) % 4, p),
        Specific::ShootableWall(_) => seq![
            at(BACKGROUND_LIGHT_GREY as int, p.x as int, p.y as int),
            at(SOLID_SHOOTABLE_WALL_BRICKS as int, p.x as int, p.y as int),
        ],
        Specific::SurveillanceScreen(_) => seq![
            at(ANIMATION_BADGUYSCREEN as int, p.x as int, p.y as int),
            at(ANIMATION_BADGUYSCREEN + 1, p.x + 16, p.y as int),
        ],
        Specific::Acme(a) => seq![at(a.tile as int, p.x as int, p.y as int), at(a.tile + 1, p.x + 16, p.y as int)],
        Specific::Fan(a) => seq![
            at(a.tile + a.current_frame * 2, p.x as int, p.y as int),
            at(a.tile + a.current_frame * 2 + 1, p.x as int, p.y + 16),
        ],
        Specific::TankBot(a) => seq![
            at(a.tile + (a.current_frame / 2) * 2, p.x as int, p.y as int),
            at(a.tile + (a.current_frame / 2) * 2 + 1, p.x + 16, p.y as int),
        ],
        Specific::Camera(_) => one(camera_tile(hero_x, p.x), p),
        Specific::Keyhole(a) => one(
            if a.counter == 0 {
                a.tile as int
            } else {
                key_colour(g.actor_type, OBJECT_KEYHOLE_RED, OBJECT_KEYHOLE_BLUE, OBJECT_KEYHOLE_PINK, OBJECT_KEYHOLE_GREEN)
            },
            p,
        ),
        Specific::Balloon(a) => seq![
            at(if a.destroyed { OBJECT_BALLOON + 4 } else { OBJECT_BALLOON as int }, p.x as int, p.y as int),
            at(OBJECT_BALLOON + 1 + a.current_frame / 3, p.x as int, p.y + 16),
        ],
        Specific::GloveSlot(a) => seq![
            at(a.tile + if a.current_frame == 0 { 0int } else { 1int }, p.x as int, p.y as int),
            at(a.tile + 2, p.x - 16, p.y as int),
            at(a.tile + 3, p.x + 16, p.y as int),
        ],
        Specific::ExitDoor(a) => square(a.tile + a.counter * 4, p.x as int, p.y as int),
        Specific::Teleporter(_) => teleporter_tiles(p),
        Specific::FireWheelBot(a) => square(a.tile + a.current_frame * 4, p.x + (p.w as int) / 2 - 16, p.y - 16),
        Specific::Rocket(a) => rocket_tiles(a.state == RocketState::Flying, p),
        Specific::Fire(a) => fire_tiles(a, p.x, p.y),
        Specific::Mill(a) => line(a.tile + a.current_frame, p.x as int, p.y as int, (p.h / 16) as nat, 0, 16),
        Specific::Elevator(_) => line(SOLID_ELEVATOR as int, p.x as int, p.y + 8, ((p.h / 16 - 1) * 2) as nat, 0, 8)
            .push(at(OBJECT_ELEVATOR_TOP as int, p.x as int, p.y as int)),
        Specific::ExpandingFloor(_) => line(SOLID_EXPANDINGFLOOR as int, p.x as int, p.y as int, (p.w / 16) as nat, 16, 0),
        Specific::UnstableFloor(a) => line(a.tile as int, p.x as int, p.y as int, a.floor_length as nat, 16, 0),
        Specific::Conveyor(a) => belt(a.current_frame as int, p.x as int, p.y as int, (p.w / 16) as nat),
    }
}

/// The tile numbers and places of the actor's look fit their ranges, and
/// the camera can compare its place with the hero's.
pub open spec fn blit_ok(s: Specific, g: ActorData, hero_x: i16) -> bool {
    let p = g.position;
    match s {
        Specific::SimpleAnimation(a) => a.tile + a.current_frame <= u16::MAX,
        Specific::SingleAnimation(a) => a.tile + a.current_frame <= usize::MAX,
        Specific::HostileShot(a) => a.tile + a.current_frame <= usize::MAX,
        Specific::AccessCardDoor(a) => a.tile + a.current_frame <= usize::MAX,
        Specific::AccessCardSlot(a) => a.tile + a.current_frame <= usize::MAX,
        Specific::Item(a) => a.tile + a.current_frame <= usize::MAX,
        Specific::WallCrawler(a) => a.tile + a.current_frame <= usize::MAX,
        Specific::Door(a) => a.tile + a.counter <= usize::MAX,
        Specific::Bomb(a) => a.tile + a.current_frame <= usize::MAX,
        Specific::SurveillanceScreen(_) => p.x + 16 <= i16::MAX,
        Specific::Acme(a) => a.tile + 1 <= usize::MAX && p.x + 16 <= i16::MAX,
        Specific::Fan(a) => a.tile + a.current_frame * 2 + 1 <= usize::MAX && p.y + 16 <= i16::MAX,
        Specific::TankBot(a) => a.tile + (a.current_frame / 2) * 2 + 1 <= usize::MAX && p.x + 16 <= i16::MAX,
        Specific::Camera(_) => i16::MIN < hero_x && (hero_x - 1 <= p.x ==> hero_x < i16::MAX),
        Specific::Balloon(_) => p.y + 16 <= i16::MAX,
        Specific::GloveSlot(a) => a.tile + 3 <= usize::MAX && i16::MIN <= p.x - 16 && p.x + 16 <= i16::MAX,
        Specific::ExitDoor(a) => a.tile + a.counter * 4 + 3 <= usize::MAX && p.x + 16 <= i16::MAX && p.y + 16 <= i16::MAX,
        Specific::Teleporter(_) => i16::MIN <= p.x - 16 && p.x + 16 <= i16::MAX && i16::MIN <= p.y - 32,
        Specific::FireWheelBot(a) => {
            &&& a.tile + a.current_frame * 4 + 3 <= usize::MAX
            &&& p.w <= i16::MAX
            &&& i16::MIN <= p.x + (p.w as int) / 2 - 16
            &&& p.x + (p.w as int) / 2 <= i16::MAX
            &&& i16::MIN <= p.y - 16
        },
        Specific::Rocket(_) => i16::MIN <= p.y - 48 && i16::MIN <= p.x - 16 && p.x + 16 <= i16::MAX && p.y + 16 <= i16::MAX,
        Specific::Fire(a) => {
            &&& a.state != FireState::Off ==> a.direction != crate::events::HorizontalDirection::Center
            &&& a.tile + 4 <= usize::MAX
            &&& p.x + 32 <= i16::MAX
        },
        Specific::Mill(a) => a.tile + a.current_frame <= usize::MAX && p.y + 16 * (p.h / 16) <= i16::MAX,
        Specific::Elevator(_) => p.h >= 16 && p.y + 8 * ((p.h / 16 - 1) * 2) <= i16::MAX,
        Specific::ExpandingFloor(_) => p.x + 16 * (p.w / 16) <= i16::MAX,
        Specific::UnstableFloor(a) => p.x + 16 * a.floor_length <= i16::MAX,
        Specific::Conveyor(a) => a.current_frame + SOLID_CONVEYORBELT_CENTER <= usize::MAX && p.x + 16 * (p.w / 16) <= i16::MAX,
        _ => true,
    }
}

/// Appends `n` copies of tile `t`, the first at (`x`, `y`), each one `dx`
/// right of and `dy` below the one before.
fn push_line(r: &mut Vec<DrawTile>, t: usize, x: i16, y: i16, n: usize, dx: i16, dy: i16)
    requires
        0 <= dx <= 16,
        0 <= dy <= 16,
        n > 0 ==> x + (n - 1) * dx <= i16::MAX,
        n > 0 ==> y + (n - 1) * dy <= i16::MAX,
    ensures
        final(r)@ == old(r)@ + line(t as int, x as int, y as int, n as nat, dx as int, dy as int),
{
    let mut k: usize = 0;
    let mut cx: i16 = x;
    let mut cy: i16 = y;
    while k < n
        invariant
            k <= n,
            0 <= dx <= 16,
            0 <= dy <= 16,
            n > 0 ==> x + (n - 1) * dx <= i16::MAX,
            n > 0 ==> y + (n - 1) * dy <= i16::MAX,
            k < n ==> cx == x + k * dx,
            k < n ==> cy == y + k * dy,
            r@ == old(r)@ + line(t as int, x as int, y as int, k as nat, dx as int, dy as int),
        decreases n - k,
    {
        r.push(DrawTile { tile: t, x: cx, y: cy });
        if k + 1 < n {
            assert(x + (k + 1) * dx <= x + (n - 1) * dx) by (nonlinear_arith)
                requires
                    k + 1 <= n - 1,
                    dx >= 0,
            ;
            assert(y + (k + 1) * dy <= y + (n - 1) * dy) by (nonlinear_arith)
                requires
                    k + 1 <= n - 1,
                    dy >= 0,
            ;
            assert(cx + dx == x + (k + 1) * dx) by (nonlinear_arith)
                requires
                    cx == x + k * dx,
            ;
            assert(cy + dy == y + (k + 1) * dy) by (nonlinear_arith)
                requires
                    cy == y + k * dy,
            ;
            cx = cx + dx;
            cy = cy + dy;
        }
        k = k + 1;
        assert(r@ =~= old(r)@ + line(t as int, x as int, y as int, k as nat, dx as int, dy as int));
    }
}

fn one_tile(t: usize, p: Geometry) -> (r: Vec<DrawTile>)
    ensures
        r@ == one(t as int, p),
{
    let r = vec![DrawTile { tile: t, x: p.x, y: p.y }];
    assert(r@ =~= one(t as int, p));
    r
}

fn key_colour_tile(t: ActorType, red: usize, blue: usize, pink: usize, green: usize) -> (r: usize)
    ensures
        r == key_colour(t, red, blue, pink, green),
{
    match t {
        ActorType::KeyRed | ActorType::KeyholeRed => red,
        ActorType::KeyBlue | ActorType::KeyholeBlue => blue,
        ActorType::KeyPink | ActorType::KeyholePink => pink,
        _ => green,
    }
}

impl Specific {
    /// The tiles to draw the actor with; see [`looks`].
    pub fn blit(&self, general: &ActorData, hero: &HeroData) -> (r: Vec<DrawTile>)
        requires
            self.fits(*general),
            blit_ok(*self, *general, hero@.position.x),
        ensures
            r@ == looks(*self, *general, hero@.position.x),
    {
        let p = general.position;
        match self {
            Specific::Placeholder => Vec::new(),
            Specific::SimpleAnimation(a) => one_tile((a.tile + a.current_frame) as usize, p),
            Specific::SingleAnimation(a) => one_tile(a.tile + a.current_frame, p),
            Specific::Particle(a) => one_tile(a.tile, p),
            Specific::Score(a) => one_tile(a.tile, p),
            Specific::RedBallJumping(a) => one_tile(a.tile, p),
            Specific::RedBallLying(a) => one_tile(a.tile, p),
            Specific::Robot(a) => one_tile(a.tile, p),
            Specific::Notebook(_) => one_tile(OBJECT_NOTEBOOK, p),
            Specific::HostileShot(a) => one_tile(a.tile + a.current_frame, p),
            Specific::AccessCardDoor(a) => one_tile(a.tile + a.current_frame, p),
            Specific::AccessCardSlot(a) => one_tile(a.tile + a.current_frame, p),
            Specific::Item(a) => one_tile(a.tile + a.current_frame, p),
            Specific::WallCrawler(a) => one_tile(a.tile + a.current_frame, p),
            Specific::Door(a) => one_tile(a.tile + a.counter, p),
            Specific::Key(_) => one_tile(
                key_colour_tile(general.actor_type, OBJECT_KEY_RED, OBJECT_KEY_BLUE, OBJECT_KEY_PINK, OBJECT_KEY_GREEN),
                p,
            ),
            Specific::Spikes(a) => {
                let t = if general.actor_type == ActorType::SpikesUp {
                    OBJECT_SPIKES_UP
                } else if general.actor_type == ActorType::SpikesDown {
                    OBJECT_SPIKES_DOWN
                } else if a.touching_hero {
                    OBJECT_SPIKE + 1
                } else {
                    OBJECT_SPIKE
                };
                one_tile(t, p)
            },
            Specific::Bomb(a) => {
                if a.counter < a.explode_threshold {
                    one_tile(a.tile + a.current_frame, p)
                } else {
                    Vec::new()
                }
            },
            Specific::SodaFlying(_) => one_tile(ANIMATION_SODAFLY + ((p.y as usize) / 8) % 4, p),
            Specific::ShootableWall(_) => {
                let r = vec![
                    DrawTile { tile: BACKGROUND_LIGHT_GREY, x: p.x, y: p.y },
                    DrawTile { tile: SOLID_SHOOTABLE_WALL_BRICKS, x: p.x, y: p.y },
                ];
                assert(r@ =~= looks(*self, *general, hero@.position.x));
                r
            },
            Specific::SurveillanceScreen(_) => {
                let r = vec![
                    DrawTile { tile: ANIMATION_BADGUYSCREEN, x: p.x, y: p.y },
                    DrawTile { tile: ANIMATION_BADGUYSCREEN + 1, x: p.x + 16, y: p.y },
                ];
                assert(r@ =~= looks(*self, *general, hero@.position.x));
                r
            },
            Specific::Acme(a) => {
                let r = vec![DrawTile { tile: a.tile, x: p.x, y: p.y }, DrawTile { tile: a.tile + 1, x: p.x + 16, y: p.y }];
                assert(r@ =~= looks(*self, *general, hero@.position.x));
                r
            },
            Specific::Fan(a) => {
                let r = vec![
                    DrawTile { tile: a.tile + a.current_frame * 2, x: p.x, y: p.y },
                    DrawTile { tile: a.tile + a.current_frame * 2 + 1, x: p.x, y: p.y + 16 },
                ];
                assert(r@ =~= looks(*self, *general, hero@.position.x));
                r
            },
            Specific::TankBot(a) => {
                let t = a.tile + (a.current_frame / 2) * 2;
                let r = vec![DrawTile { tile: t, x: p.x, y: p.y }, DrawTile { tile: t + 1, x: p.x + 16, y: p.y }];
                assert(r@ =~= looks(*self, *general, hero@.position.x));
                r
            },
            Specific::Camera(_) => {
                let hx = hero.position.geometry.x;
                let t = if hx - 1 > p.x {
                    ANIMATION_CAMERA_RIGHT
                } else if hx + 1 < p.x {
                    ANIMATION_CAMERA_LEFT
                } else {
                    ANIMATION_CAMERA_CENTER
                };
                one_tile(t, p)
            },
            Specific::Keyhole(a) => {
                let t = if a.counter == 0 {
                    a.tile
                } else {
                    key_colour_tile(general.actor_type, OBJECT_KEYHOLE_RED, OBJECT_KEYHOLE_BLUE, OBJECT_KEYHOLE_PINK, OBJECT_KEYHOLE_GREEN)
                };
                one_tile(t, p)
            },
            Specific::Balloon(a) => {
                let top = if a.destroyed { OBJECT_BALLOON + 4 } else { OBJECT_BALLOON };
                let r = vec![
                    DrawTile { tile: top, x: p.x, y: p.y },
                    DrawTile { tile: OBJECT_BALLOON + 1 + a.current_frame / 3, x: p.x, y: p.y + 16 },
                ];
                assert(r@ =~= looks(*self, *general, hero@.position.x));
                r
            },
            Specific::GloveSlot(a) => {
                let adder: usize = if a.current_frame == 0 { 0 } else { 1 };
                let r = vec![
                    DrawTile { tile: a.tile + adder, x: p.x, y: p.y },
                    DrawTile { tile: a.tile + 2, x: p.x - 16, y: p.y },
                    DrawTile { tile: a.tile + 3, x: p.x + 16, y: p.y },
                ];
                assert(r@ =~= looks(*self, *general, hero@.position.x));
                r
            },
            Specific::ExitDoor(a) => {
                let t = a.tile + a.counter * 4;
                let r = vec![
                    DrawTile { tile: t, x: p.x, y: p.y },
                    DrawTile { tile: t + 1, x: p.x + 16, y: p.y },
                    DrawTile { tile: t + 2, x: p.x, y: p.y + 16 },
                    DrawTile { tile: t + 3, x: p.x + 16, y: p.y + 16 },
                ];
                assert(r@ =~= looks(*self, *general, hero@.position.x));
                r
            },
            Specific::Teleporter(_) => {
                let mut r: Vec<DrawTile> = Vec::new();
                let mut i: i16 = 0;
                while i < 3
                    invariant
                        0 <= i <= 3,
                        i16::MIN <= p.x - 16,
                        p.x + 16 <= i16::MAX,
                        i16::MIN <= p.y - 32,
                        r@ == teleporter_tiles(p).subrange(0, 3 * i),
                    decreases 3 - i,
                {
                    let mut j: i16 = 0;
                    while j < 3
                        invariant
                            0 <= i < 3,
                            0 <= j <= 3,
                            i16::MIN <= p.x - 16,
                            p.x + 16 <= i16::MAX,
                            i16::MIN <= p.y - 32,
                            r@ == teleporter_tiles(p).subrange(0, 3 * i + j),
                        decreases 3 - j,
                    {
                        let k: usize = (i * 3 + j) as usize;
                        let x: i16 = p.x - (1 - j) * 16;
                        let y: i16 = p.y - (2 - i) * 16;
                        proof {
                            assert(k as int % 3 == j as int);
                            assert(k as int / 3 == i as int);
                        }
                        r.push(DrawTile { tile: ANIMATION_TELEPORTER1 + k, x, y });
                        j = j + 1;
                        assert(r@ =~= teleporter_tiles(p).subrange(0, 3 * i + j));
                    }
                    i = i + 1;
                }
                assert(r@ =~= teleporter_tiles(p));
                r
            },
            Specific::FireWheelBot(a) => {
                let t = a.tile + a.current_frame * 4;
                let x: i16 = p.x + (p.w as i16) / 2 - 16;
                let y: i16 = p.y - 16;
                let r = vec![
                    DrawTile { tile: t, x, y },
                    DrawTile { tile: t + 1, x: x + 16, y },
                    DrawTile { tile: t + 2, x, y: y + 16 },
                    DrawTile { tile: t + 3, x: x + 16, y: y + 16 },
                ];
                assert(r@ =~= looks(*self, *general, hero@.position.x));
                r
            },
            Specific::Rocket(a) => {
                let y: i16 = p.y - 48;
                let mut r = vec![
                    DrawTile { tile: OBJECT_ROCKET, x: p.x, y },
                    DrawTile { tile: OBJECT_ROCKET + 1, x: p.x, y: y + 16 },
                    DrawTile { tile: OBJECT_ROCKET + 1, x: p.x, y: y + 32 },
                    DrawTile { tile: OBJECT_ROCKET + 2, x: p.x, y: y + 48 },
                    DrawTile { tile: OBJECT_ROCKET + 3, x: p.x - 16, y: y + 48 },
                    DrawTile { tile: OBJECT_ROCKET + 4, x: p.x + 16, y: y + 48 },
                ];
                if a.state == RocketState::Flying {
                    r.push(DrawTile { tile: OBJECT_ROCKET + 6, x: p.x, y: y + 64 });
                }
                assert(r@ =~= looks(*self, *general, hero@.position.x));
                r
            },
            Specific::Fire(a) => a.blit(general),
            Specific::Mill(a) => {
                let mut r: Vec<DrawTile> = Vec::new();
                push_line(&mut r, a.tile + a.current_frame, p.x, p.y, (p.h / 16) as usize, 0, 16);
                assert(r@ =~= looks(*self, *general, hero@.position.x));
                r
            },
            Specific::Elevator(_) => {
                let mut r: Vec<DrawTile> = Vec::new();
                let n: usize = ((p.h / 16 - 1) * 2) as usize;
                if n > 0 {
                    push_line(&mut r, SOLID_ELEVATOR, p.x, p.y + 8, n, 0, 8);
                }
                r.push(DrawTile { tile: OBJECT_ELEVATOR_TOP, x: p.x, y: p.y });
                assert(r@ =~= looks(*self, *general, hero@.position.x));
                r
            },
            Specific::ExpandingFloor(_) => {
                let mut r: Vec<DrawTile> = Vec::new();
                push_line(&mut r, SOLID_EXPANDINGFLOOR, p.x, p.y, (p.w / 16) as usize, 16, 0);
                assert(r@ =~= looks(*self, *general, hero@.position.x));
                r
            },
            Specific::UnstableFloor(a) => {
                let mut r: Vec<DrawTile> = Vec::new();
                push_line(&mut r, a.tile, p.x, p.y, a.floor_length, 16, 0);
                assert(r@ =~= looks(*self, *general, hero@.position.x));
                r
            },
            Specific::Conveyor(a) => {
                let n: usize = (p.w / 16) as usize;
                let f = a.current_frame;
                let mut r: Vec<DrawTile> = Vec::new();
                let mut k: usize = 0;
                let mut x: i16 = p.x;
                while k < n
                    invariant
                        k <= n,
                        n == p.w / 16,
                        p.x + 16 * n <= i16::MAX,
                        f + SOLID_CONVEYORBELT_CENTER <= usize::MAX,
                        x == p.x + 16 * k,
                        r@ == belt(f as int, p.x as int, p.y as int, n as nat).subrange(0, k as int),
                    decreases n - k,
                {
                    let t = if k == n - 1 {
                        SOLID_CONVEYORBELT_RIGHTEND + f
                    } else if k == 0 {
                        SOLID_CONVEYORBELT_LEFTEND + f
                    } else {
                        SOLID_CONVEYORBELT_CENTER + f % 2
                    };
                    r.push(DrawTile { tile: t, x, y: p.y });
                    x = x + 16;
                    k = k + 1;
                    assert(r@ =~= belt(f as int, p.x as int, p.y as int, n as nat).subrange(0, k as int));
                }
                assert(r@ =~= belt(f as int, p.x as int, p.y as int, n as nat));
                r
            },
        }
    }
}

} // verus!
