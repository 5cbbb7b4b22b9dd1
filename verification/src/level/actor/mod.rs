//! The actors of a level: their common state, the queue of actors to be
//! added, the messages between actors, and the parts of the level an
//! actor sees while it acts.

use vstd::prelude::*;
use crate::events::UserEvent;
use crate::geometry::Geometry;
use crate::hero::{HeroData, HeroView};
use crate::infobox::InfoMessageQueue;
use crate::level::solids::LevelSolids;
use crate::level::tiles::LevelTiles;

pub mod item;
pub mod accesscard;
pub mod acme;
pub mod balloon;
pub mod bomb;
pub mod camera;
pub mod conveyor;
pub mod door;
pub mod elevator;
pub mod exitdoor;
pub mod expandingfloor;
pub mod fan;
pub mod fire;
pub mod firewheelbot;
pub mod glove_slot;
pub mod hostileshot;
pub mod keyhole;
pub mod key;
pub mod redball_jumping;
pub mod redball_lying;
pub mod soda_flying;
pub mod mill;
pub mod particle;
pub mod robot;
pub mod rocket;
pub mod score;
pub mod screens;
pub mod shootable_wall;
pub mod simpleanimation;
pub mod singleanimation;
pub mod spikes;
pub mod specific;
pub mod tankbot;
pub mod teleporter;
pub mod unstablefloor;
pub mod wallcrawler;
pub mod list;
pub mod look;

verus! {

/// Every kind of thing that can live in a level besides the hero.
#[derive(Clone, Copy, Debug, PartialEq, Eq, Structural)]
pub enum ActorType {
    FireWheelBot,
    FlameGnomeBot,
    FlyingBot,
    FootBot,
    HelicopterBot,
    RabbitoidBot,
    RedBallJumping,
    RedBallLying,
    Robot,
    RobotDisappearing,
    SnakeBot,
    TankBot,
    WallCrawlerBotLeft,
    WallCrawlerBotRight,
    DrProton,
    Camera,
    Explosion,
    DustCloud,
    Steam,
    ParticlePink,
    ParticleBlue,
    ParticleWhite,
    ParticleGreen,
    Rocket,
    Bomb,
    BombFire,
    Water,
    ExitDoor,
    Notebook,
    SurveillanceScreen,
    HostileShotLeft,
    HostileShotRight,
    Soda,
    SodaFlying,
    UnstableFloor,
    ExpandingFloor,
    ConveyorLeftMovingRightEnd,
    ConveyorRightMovingRightEnd,
    FanLeft,
    FanRight,
    BrokenWallBackground,
    StoneBackground,
    Teleporter1,
    Teleporter2,
    FenceBackground,
    StoneWindowBackground,
    WindowLeftBackground,
    WindowRightBackground,
    Screen,
    BoxGreyEmpty,
    BoxGreyBoots,
    Boots,
    BoxGreyClamps,
    Clamps,
    BoxGreyGun,
    Gun,
    BoxGreyBomb,
    BoxRedSoda,
    BoxRedChicken,
    ChickenSingle,
    ChickenDouble,
    BoxBlueFootball,
    Football,
    Flag,
    BoxBlueJoystick,
    Joystick,
    BoxBlueDisk,
    Disk,
    BoxBlueBalloon,
    Balloon,
    BoxGreyGlove,
    Glove,
    BoxGreyFullLife,
    FullLife,
    BoxBlueFlag,
    BlueFlag,
    BoxBlueRadio,
    Radio,
    BoxGreyAccessCard,
    AccessCard,
    BoxGreyLetterD,
    LetterD,
    BoxGreyLetterU,
    LetterU,
    BoxGreyLetterK,
    LetterK,
    BoxGreyLetterE,
    LetterE,
    AccessCardSlot,
    GloveSlot,
    KeyRed,
    KeyholeRed,
    DoorRed,
    KeyBlue,
    KeyholeBlue,
    DoorBlue,
    KeyPink,
    KeyholePink,
    DoorPink,
    KeyGreen,
    KeyholeGreen,
    DoorGreen,
    ShootableWall,
    Lift,
    Acme,
    FireRight,
    FireLeft,
    Mill,
    Laserbeam,
    AccessCardDoor,
    SpikesUp,
    SpikesDown,
    Spike,
    Score100,
    Score200,
    Score500,
    Score1000,
    Score2000,
    Score5000,
    Score10000,
    ScoreBonus1Left,
    ScoreBonus1Right,
    ScoreBonus2Left,
    ScoreBonus2Right,
    ScoreBonus3Left,
    ScoreBonus3Right,
    ScoreBonus4Left,
    ScoreBonus4Right,
    ScoreBonus5Left,
    ScoreBonus5Right,
    ScoreBonus6Left,
    ScoreBonus6Right,
    ScoreBonus7Left,
    ScoreBonus7Right,
    BlueLightBackground1,
    BlueLightBackground2,
    BlueLightBackground3,
    BlueLightBackground4,
    TextOnScreenBackground,
    HighVoltageFlashBackground,
    RedFlashlightBackground,
    BlueFlashlightBackground,
    KeypanelBackground,
    RedRotationLightBackground,
    UpArrowBackground,
    GreenPoisonBackground,
    LavaBackground,
}

/// What every actor has, whatever its kind.
#[derive(Clone, Copy, Debug, PartialEq, Eq, Structural)]
pub struct ActorData {
    pub actor_type: ActorType,
    pub position: Geometry,
    pub is_in_foreground: bool,
    pub hurts_hero: bool,
    pub is_alive: bool,
    pub touches_hero: bool,
    pub is_visible: bool,
    pub acts_while_invisible: bool,
}

impl ActorData {
    /// The state of a new actor before its kind sets it up.
    pub open spec fn spec_new(actor_type: ActorType) -> ActorData {
        ActorData {
            actor_type,
            position: Geometry { x: 0, y: 0, w: 0, h: 0 },
            is_in_foreground: true,
            hurts_hero: false,
            is_alive: true,
            touches_hero: false,
            is_visible: false,
            acts_while_invisible: false,
        }
    }

    pub fn new(actor_type: ActorType) -> (d: Self)
        ensures
            d == ActorData::spec_new(actor_type),
    {
        ActorData {
            actor_type,
            position: Geometry::default(),
            is_in_foreground: true,
            hurts_hero: false,
            is_alive: true,
            touches_hero: false,
            is_visible: false,
            acts_while_invisible: false,
        }
    }
}

/// A request to add an actor of some kind at a position.
#[derive(Clone, Copy, Debug, PartialEq, Eq, Structural)]
pub struct ActorQueueItem {
    pub actor_type: ActorType,
    pub x: u16,
    pub y: u16,
}

pub open spec fn queue_item(actor_type: ActorType, x: u16, y: u16) -> ActorQueueItem {
    ActorQueueItem { actor_type, x, y }
}

/// The particle colour of the `i`-th particle of a firework.
pub open spec fn spec_particle_type(i: int) -> ActorType {
    if i % 4 == 0 {
        ActorType::ParticlePink
    } else if i % 4 == 1 {
        ActorType::ParticleBlue
    } else if i % 4 == 2 {
        ActorType::ParticleWhite
    } else {
        ActorType::ParticleGreen
    }
}

/// A firework of `count` particles at (`x`, `y`), cycling through the
/// four particle colours.
pub open spec fn firework(x: u16, y: u16, count: nat) -> Seq<ActorQueueItem> {
    Seq::new(count, |i: int| queue_item(spec_particle_type(i), x, y))
}

/// Something new actors can be added to.
pub trait ActorAdder {
    fn add_actor(&mut self, actor_type: ActorType, x: u16, y: u16);

    fn add_particle_firework(&mut self, x: u16, y: u16, count: usize);
}

/// Actors waiting to be added to the level once the current step is over.
#[derive(Default)]
pub struct ActorQueue {
    pub actors: Vec<ActorQueueItem>,
}

impl ActorAdder for ActorQueue {
    fn add_actor(&mut self, actor_type: ActorType, x: u16, y: u16)
        ensures
            final(self).actors@ == old(self).actors@.push(queue_item(actor_type, x, y)),
    {
        self.push_back(actor_type, x, y);
    }

    fn add_particle_firework(&mut self, x: u16, y: u16, count: usize)
        ensures
            final(self).actors@ == old(self).actors@ + firework(x, y, count as nat),
    {
        self.push_particle_firework(x, y, count);
    }
}

impl ActorQueue {
    pub fn new() -> (q: Self)
        ensures
            q.actors@ == Seq::<ActorQueueItem>::empty(),
    {
        Self { actors: Vec::new() }
    }

    pub fn push_back(&mut self, actor_type: ActorType, x: u16, y: u16)
        ensures
            final(self).actors@ == old(self).actors@.push(queue_item(actor_type, x, y)),
    {
        self.actors.push(ActorQueueItem { actor_type, x, y });
    }

    /// Queues `count` particles at (`x`, `y`); see [`firework`].
    pub fn push_particle_firework(&mut self, x: u16, y: u16, count: usize)
        ensures
            final(self).actors@ == old(self).actors@ + firework(x, y, count as nat),
    {
        let mut i: usize = 0;
        while i < count
            invariant
                i <= count,
                self.actors@ == old(self).actors@ + firework(x, y, i as nat),
            decreases count - i,
        {
            let actor_type = if i % 4 == 0 {
                ActorType::ParticlePink
            } else if i % 4 == 1 {
                ActorType::ParticleBlue
            } else if i % 4 == 2 {
                ActorType::ParticleWhite
            } else {
                ActorType::ParticleGreen
            };
            self.push_back(actor_type, x, y);
            i = i + 1;
            assert(self.actors@ =~= old(self).actors@ + firework(x, y, i as nat));
        }
    }

    /// Hands out the queued actors, oldest first, and empties the queue.
    pub fn take_all(&mut self) -> (items: Vec<ActorQueueItem>)
        ensures
            items@ == old(self).actors@,
            final(self).actors@ == Seq::<ActorQueueItem>::empty(),
    {
        let mut items: Vec<ActorQueueItem> = Vec::new();
        std::mem::swap(&mut items, &mut self.actors);
        items
    }
}

/// What an actor can be told by another one.
#[derive(Clone, Copy, Debug, PartialEq, Eq, Structural)]
pub enum ActorMessageType {
    OpenDoor,
    Teleport,
    Expand,
}

/// A message to all actors of one kind.
#[derive(Clone, Copy, Debug, PartialEq, Eq, Structural)]
pub struct ActorMessage {
    pub receivers: ActorType,
    pub message: ActorMessageType,
}

/// Messages waiting to be delivered to actors.
#[derive(Default)]
pub struct ActorMessageQueue {
    pub messages: Vec<ActorMessage>,
}

impl ActorMessageQueue {
    pub fn new() -> (q: Self)
        ensures
            q.messages@ == Seq::<ActorMessage>::empty(),
    {
        Self { messages: Vec::new() }
    }

    pub fn push_back(&mut self, receivers: ActorType, message: ActorMessageType)
        ensures
            final(self).messages@ == old(self).messages@.push(ActorMessage { receivers, message }),
    {
        self.messages.push(ActorMessage { receivers, message });
    }

    /// Hands out the waiting messages, oldest first, and empties the queue.
    pub fn take_all(&mut self) -> (items: Vec<ActorMessage>)
        ensures
            items@ == old(self).messages@,
            final(self).messages@ == Seq::<ActorMessage>::empty(),
    {
        let mut items: Vec<ActorMessage> = Vec::new();
        std::mem::swap(&mut items, &mut self.messages);
        items
    }
}

/// The part of the level that an actor sees and changes while it acts, is
/// touched or is shot: the solid grid, the tile grid, the actors queued to
/// be added, the hero, whether the level goes on, and the outbox of events.
#[verifier::ext_equal]
pub struct Env {
    pub solids: Seq<bool>,
    pub tiles: Seq<u16>,
    pub queued: Seq<ActorQueueItem>,
    pub hero: HeroView,
    pub do_play: bool,
    pub events: Seq<UserEvent>,
}

pub open spec fn env_of(
    solids: LevelSolids,
    tiles: LevelTiles,
    queue: ActorQueue,
    hero: HeroData,
    do_play: bool,
    events: Vec<UserEvent>,
) -> Env {
    Env { solids: solids@, tiles: tiles@, queued: queue.actors@, hero: hero@, do_play, events: events@ }
}

/// The grids of a level that setting up an actor looks at and changes:
/// the solid grid and the tile grid.
#[verifier::ext_equal]
pub struct Ground {
    pub solids: Seq<bool>,
    pub tiles: Seq<u16>,
}

pub open spec fn ground_of(solids: LevelSolids, tiles: LevelTiles) -> Ground {
    Ground { solids: solids@, tiles: tiles@ }
}

/// What the hero's interaction with an actor sees and changes: whether the
/// level is passed, the hero, the info messages to show, the messages to
/// other actors, and the outbox of events.
#[verifier::ext_equal]
pub struct Chat {
    pub level_passed: bool,
    pub hero: HeroView,
    pub infos: Seq<Seq<char>>,
    pub messages: Seq<ActorMessage>,
    pub events: Seq<UserEvent>,
}

pub open spec fn chat_of(
    level_passed: bool,
    hero: HeroData,
    infos: InfoMessageQueue,
    messages: ActorMessageQueue,
    events: Vec<UserEvent>,
) -> Chat {
    Chat { level_passed, hero: hero@, infos: infos@, messages: messages.messages@, events: events@ }
}

/// What a message to an actor sees and changes: the hero, the solid grid,
/// and the outbox of events.
#[verifier::ext_equal]
pub struct Mail {
    pub hero: HeroView,
    pub solids: Seq<bool>,
    pub events: Seq<UserEvent>,
}

pub open spec fn mail_of(hero: HeroData, solids: LevelSolids, events: Vec<UserEvent>) -> Mail {
    Mail { hero: hero@, solids: solids@, events: events@ }
}

/// The hero stands inside the level, as far as the actors that look at the
/// hero's place need it.
pub open spec fn hero_in_level(h: HeroView) -> bool {
    crate::level::solids::scannable(h.position)
}

/// Every actor in the queue can be set up.
pub open spec fn all_creatable(q: Seq<ActorQueueItem>) -> bool {
    forall|i: int| 0 <= i < q.len() ==> specific::creatable(#[trigger] q[i].actor_type)
}

pub proof fn lemma_creatable_push(q: Seq<ActorQueueItem>, item: ActorQueueItem)
    requires
        all_creatable(q),
        specific::creatable(item.actor_type),
    ensures
        all_creatable(q.push(item)),
{
    assert forall|i: int| 0 <= i < q.push(item).len() implies specific::creatable(#[trigger] q.push(item)[i].actor_type) by {
        if i < q.len() {
            assert(q.push(item)[i] == q[i]);
        }
    }
}

pub proof fn lemma_creatable_concat(a: Seq<ActorQueueItem>, b: Seq<ActorQueueItem>)
    requires
        all_creatable(a),
        all_creatable(b),
    ensures
        all_creatable(a + b),
{
    assert forall|i: int| 0 <= i < (a + b).len() implies specific::creatable(#[trigger] (a + b)[i].actor_type) by {
        if i < a.len() {
            assert((a + b)[i] == a[i]);
        } else {
            assert((a + b)[i] == b[i - a.len()]);
        }
    }
}

/// Sparks can always be set up.
pub proof fn lemma_firework_creatable(x: u16, y: u16, n: nat)
    ensures
        all_creatable(firework(x, y, n)),
{
    assert forall|i: int| 0 <= i < firework(x, y, n).len() implies specific::creatable(#[trigger] firework(x, y, n)[i].actor_type) by {
        assert(firework(x, y, n)[i].actor_type == spec_particle_type(i));
    }
}

/// A new actor of the queued kind at the queued position.
pub open spec fn queued_actor(item: ActorQueueItem) -> ActorData {
    moved(ActorData::spec_new(item.actor_type), item.x as i16 as int, item.y as i16 as int)
}

/// What the end of the hero's interaction sees and changes: whether the
/// level is passed, the hero, and the outbox of events; it shows no info
/// messages and sends no messages to actors.
pub open spec fn parting_of(level_passed: bool, hero: HeroData, events: Vec<UserEvent>) -> Chat {
    Chat { level_passed, hero: hero@, infos: seq![], messages: seq![], events: events@ }
}

/// The actor marked as dead.
pub open spec fn dead(g: ActorData) -> ActorData {
    ActorData { is_alive: false, ..g }
}

/// A request for an actor of kind `t` where `g` stands.
pub open spec fn spot(g: ActorData, t: ActorType) -> ActorQueueItem {
    ActorQueueItem { actor_type: t, x: g.position.x as u16, y: g.position.y as u16 }
}

/// The actor moved to (`x`, `y`).
pub open spec fn moved(g: ActorData, x: int, y: int) -> ActorData {
    ActorData { position: Geometry { x: x as i16, y: y as i16, ..g.position }, ..g }
}

/// The actor with the size `w` by `h`.
pub open spec fn sized(g: ActorData, w: u16, h: u16) -> ActorData {
    ActorData { position: Geometry { w, h, ..g.position }, ..g }
}

} // verus!
