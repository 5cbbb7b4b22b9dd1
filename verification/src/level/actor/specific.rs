//! The state that only actors of one kind have, and the dispatch from an
//! actor to the behaviour of its kind.

use vstd::prelude::*;
use crate::events::UserEvent;
use crate::hero::HeroData;
use crate::infobox::InfoMessageQueue;
use crate::level::solids::LevelSolids;
use crate::level::tiles::LevelTiles;
use super::accesscard::{AccessCardDoor, AccessCardSlot};
use super::acme::Acme;
use super::balloon::Balloon;
use super::bomb::Bomb;
use super::camera::{Camera, camera_create_ok};
use super::conveyor::{Conveyor, conveyor_create_ok};
use super::door::Door;
use super::elevator::Elevator;
use super::exitdoor::ExitDoor;
use super::expandingfloor::ExpandingFloor;
use super::fan::Fan;
use super::fire::Fire;
use super::firewheelbot::FireWheelBot;
use super::glove_slot::GloveSlot;
use super::hostileshot::HostileShot;
use super::item::{Item, item_look};
use super::key::Key;
use super::keyhole::Keyhole;
use super::mill::{Mill, mill_create_ok};
use super::particle::{Particle, spark_tile};
use super::redball_jumping::RedBallJumping;
use super::redball_lying::RedBallLying;
use super::robot::Robot;
use super::rocket::{Rocket, rocket_create_ok};
use super::score::{Score, score_tile};
use super::screens::{Notebook, SurveillanceScreen};
use super::shootable_wall::ShootableWall;
use super::simpleanimation::{SimpleAnimation, loop_look};
use super::singleanimation::{SingleAnimation, once_look};
use super::soda_flying::SodaFlying;
use super::spikes::Spikes;
use super::tankbot::TankBot;
use super::teleporter::Teleporter;
use super::unstablefloor::{UnstableFloor, unstable_create_ok};
use super::wallcrawler::WallCrawler;
use super::{
    all_creatable, chat_of, dead, ground_of, parting_of, Ground, env_of, hero_in_level, mail_of, ActorData, ActorMessageQueue,
    ActorMessageType, ActorQueue, ActorType, Chat, Env, Mail,
};

verus! {

/// Which behaviour an actor of each kind has.
#[derive(Clone, Copy, Debug, PartialEq, Eq, Structural)]
pub enum Kind {
    Placeholder,
    FireWheelBot,
    RedBallJumping,
    RedBallLying,
    Robot,
    SingleAnimation,
    TankBot,
    WallCrawler,
    Camera,
    Particle,
    Rocket,
    Bomb,
    ExitDoor,
    Notebook,
    SurveillanceScreen,
    HostileShot,
    Item,
    SodaFlying,
    UnstableFloor,
    ExpandingFloor,
    Conveyor,
    Fan,
    SimpleAnimation,
    Teleporter,
    Balloon,
    AccessCardSlot,
    GloveSlot,
    Key,
    Keyhole,
    Door,
    ShootableWall,
    Elevator,
    Acme,
    Fire,
    Mill,
    AccessCardDoor,
    Spikes,
    Score,
}

/// The behaviour of each kind of actor. Kinds that the game does not
/// implement yet get a placeholder that vanishes at once.
pub open spec fn kind_of(t: ActorType) -> Kind {
    match t {
        ActorType::FireWheelBot => Kind::FireWheelBot,
        ActorType::RedBallJumping => Kind::RedBallJumping,
        ActorType::RedBallLying => Kind::RedBallLying,
        ActorType::Robot => Kind::Robot,
        ActorType::RobotDisappearing | ActorType::Explosion | ActorType::DustCloud | ActorType::Steam | ActorType::BombFire => Kind::SingleAnimation,
        ActorType::TankBot => Kind::TankBot,
        ActorType::WallCrawlerBotLeft | ActorType::WallCrawlerBotRight => Kind::WallCrawler,
        ActorType::Camera => Kind::Camera,
        ActorType::ParticlePink | ActorType::ParticleBlue | ActorType::ParticleWhite | ActorType::ParticleGreen => Kind::Particle,
        ActorType::Rocket => Kind::Rocket,
        ActorType::Bomb => Kind::Bomb,
        ActorType::ExitDoor => Kind::ExitDoor,
        ActorType::Notebook => Kind::Notebook,
        ActorType::SurveillanceScreen => Kind::SurveillanceScreen,
        ActorType::HostileShotLeft | ActorType::HostileShotRight => Kind::HostileShot,
        ActorType::Soda | ActorType::BoxGreyEmpty | ActorType::BoxGreyBoots | ActorType::Boots | ActorType::BoxGreyClamps | ActorType::Clamps | ActorType::BoxGreyGun | ActorType::Gun | ActorType::BoxGreyBomb | ActorType::BoxRedSoda | ActorType::BoxRedChicken | ActorType::ChickenSingle | ActorType::ChickenDouble | ActorType::BoxBlueFootball | ActorType::Football | ActorType::Flag | ActorType::BoxBlueJoystick | ActorType::Joystick | ActorType::BoxBlueDisk | ActorType::Disk | ActorType::BoxBlueBalloon | ActorType::BoxGreyGlove | ActorType::Glove | ActorType::BoxGreyFullLife | ActorType::FullLife | ActorType::BoxBlueFlag | ActorType::BlueFlag | ActorType::BoxBlueRadio | ActorType::Radio | ActorType::BoxGreyAccessCard | ActorType::AccessCard | ActorType::BoxGreyLetterD | ActorType::LetterD | ActorType::BoxGreyLetterU | ActorType::LetterU | ActorType::BoxGreyLetterK | ActorType::LetterK | ActorType::BoxGreyLetterE | ActorType::LetterE => Kind::Item,
        ActorType::SodaFlying => Kind::SodaFlying,
        ActorType::UnstableFloor => Kind::UnstableFloor,
        ActorType::ExpandingFloor => Kind::ExpandingFloor,
        ActorType::ConveyorLeftMovingRightEnd | ActorType::ConveyorRightMovingRightEnd => Kind::Conveyor,
        ActorType::FanLeft | ActorType::FanRight => Kind::Fan,
        ActorType::BrokenWallBackground | ActorType::StoneWindowBackground | ActorType::WindowLeftBackground | ActorType::WindowRightBackground | ActorType::BlueLightBackground1 | ActorType::BlueLightBackground2 | ActorType::BlueLightBackground3 | ActorType::BlueLightBackground4 | ActorType::TextOnScreenBackground | ActorType::HighVoltageFlashBackground | ActorType::RedFlashlightBackground | ActorType::BlueFlashlightBackground | ActorType::KeypanelBackground | ActorType::RedRotationLightBackground | ActorType::UpArrowBackground | ActorType::GreenPoisonBackground | ActorType::LavaBackground => Kind::SimpleAnimation,
        ActorType::Teleporter1 | ActorType::Teleporter2 => Kind::Teleporter,
        ActorType::Balloon => Kind::Balloon,
        ActorType::AccessCardSlot => Kind::AccessCardSlot,
        ActorType::GloveSlot => Kind::GloveSlot,
        ActorType::KeyRed | ActorType::KeyBlue | ActorType::KeyPink | ActorType::KeyGreen => Kind::Key,
        ActorType::KeyholeRed | ActorType::KeyholeBlue | ActorType::KeyholePink | ActorType::KeyholeGreen => Kind::Keyhole,
        ActorType::DoorRed | ActorType::DoorBlue | ActorType::DoorPink | ActorType::DoorGreen => Kind::Door,
        ActorType::ShootableWall => Kind::ShootableWall,
        ActorType::Lift => Kind::Elevator,
        ActorType::Acme => Kind::Acme,
        ActorType::FireRight | ActorType::FireLeft => Kind::Fire,
        ActorType::Mill => Kind::Mill,
        ActorType::AccessCardDoor => Kind::AccessCardDoor,
        ActorType::SpikesUp | ActorType::SpikesDown | ActorType::Spike => Kind::Spikes,
        ActorType::Score100 | ActorType::Score200 | ActorType::Score500 | ActorType::Score1000 | ActorType::Score2000 | ActorType::Score5000 | ActorType::Score10000 | ActorType::ScoreBonus1Left | ActorType::ScoreBonus1Right | ActorType::ScoreBonus2Left | ActorType::ScoreBonus2Right | ActorType::ScoreBonus3Left | ActorType::ScoreBonus3Right | ActorType::ScoreBonus4Left | ActorType::ScoreBonus4Right | ActorType::ScoreBonus5Left | ActorType::ScoreBonus5Right | ActorType::ScoreBonus6Left | ActorType::ScoreBonus6Right | ActorType::ScoreBonus7Left | ActorType::ScoreBonus7Right => Kind::Score,
        _ => Kind::Placeholder,
    }
}

/// An actor of kind `t` can be set up anywhere, whatever the level holds:
/// its kind knows how it looks, and setting it up looks at nothing around
/// it. (A blue flag is listed as an item, but no item looks like one.)
pub open spec fn creatable(t: ActorType) -> bool {
    match kind_of(t) {
        Kind::SingleAnimation => once_look(t) is Some,
        Kind::Camera => false,
        Kind::Particle => spark_tile(t) is Some,
        Kind::Rocket => false,
        Kind::Item => item_look(t) is Some,
        Kind::UnstableFloor => false,
        Kind::Conveyor => false,
        Kind::Fan => false,
        Kind::SimpleAnimation => loop_look(t) is Some,
        Kind::Fire => false,
        Kind::Mill => false,
        Kind::Score => score_tile(t) is Some,
        _ => true,
    }
}

/// An actor of a kind that can be set up anywhere can be set up in every
/// level.
pub proof fn lemma_creatable_create_ok(g: ActorData, e: Ground)
    requires
        creatable(g.actor_type),
    ensures
        Specific::create_ok(g, e),
{
}

/// Each of the queued `items` can be set up, in their order, in the grids
/// as setting up the ones before it left them, starting with `e`.
pub open spec fn queue_create_ok(items: Seq<super::ActorQueueItem>, e: Ground) -> bool
    decreases items.len(),
{
    if items.len() == 0 {
        true
    } else {
        let g = super::queued_actor(items[0]);
        Specific::create_ok(g, e) && queue_create_ok(items.drop_first(), Specific::ground_after(g, e))
    }
}

/// A queue of actors of kinds that can be set up anywhere can be set up in
/// every level.
pub proof fn lemma_creatable_queue_create_ok(items: Seq<super::ActorQueueItem>, e: Ground)
    requires
        all_creatable(items),
    ensures
        queue_create_ok(items, e),
    decreases items.len(),
{
    if items.len() > 0 {
        assert(creatable(items[0].actor_type));
        lemma_creatable_create_ok(super::queued_actor(items[0]), e);
        let rest = items.drop_first();
        assert forall|i: int| 0 <= i < rest.len() implies creatable(#[trigger] rest[i].actor_type) by {
            assert(rest[i] == items[i + 1]);
        }
        lemma_creatable_queue_create_ok(rest, Specific::ground_after(super::queued_actor(items[0]), e));
    }
}

/// The state of an actor that depends on its kind.
#[derive(Debug)]
pub enum Specific {
    Placeholder,
    FireWheelBot(FireWheelBot),
    RedBallJumping(RedBallJumping),
    RedBallLying(RedBallLying),
    Robot(Robot),
    SingleAnimation(SingleAnimation),
    TankBot(TankBot),
    WallCrawler(WallCrawler),
    Camera(Camera),
    Particle(Particle),
    Rocket(Rocket),
    Bomb(Bomb),
    ExitDoor(ExitDoor),
    Notebook(Notebook),
    SurveillanceScreen(SurveillanceScreen),
    HostileShot(HostileShot),
    Item(Item),
    SodaFlying(SodaFlying),
    UnstableFloor(UnstableFloor),
    ExpandingFloor(ExpandingFloor),
    Conveyor(Conveyor),
    Fan(Fan),
    SimpleAnimation(SimpleAnimation),
    Teleporter(Teleporter),
    Balloon(Balloon),
    AccessCardSlot(AccessCardSlot),
    GloveSlot(GloveSlot),
    Key(Key),
    Keyhole(Keyhole),
    Door(Door),
    ShootableWall(ShootableWall),
    Elevator(Elevator),
    Acme(Acme),
    Fire(Fire),
    Mill(Mill),
    AccessCardDoor(AccessCardDoor),
    Spikes(Spikes),
    Score(Score),
}

impl Specific {
    /// An actor `g` can be set up in the level `e`.
    pub open spec fn create_ok(g: ActorData, e: Ground) -> bool {
        match kind_of(g.actor_type) {
            Kind::SingleAnimation => once_look(g.actor_type) is Some,
            Kind::Camera => camera_create_ok(g),
            Kind::Particle => spark_tile(g.actor_type) is Some,
            Kind::Rocket => rocket_create_ok(g),
            Kind::Item => item_look(g.actor_type) is Some,
            Kind::UnstableFloor => unstable_create_ok(g, e.solids),
            Kind::Conveyor => conveyor_create_ok(g, e.tiles),
            Kind::Fan => Fan::create_ok(g),
            Kind::SimpleAnimation => loop_look(g.actor_type) is Some,
            Kind::Fire => Fire::create_ok(g),
            Kind::Mill => mill_create_ok(g, e.solids),
            Kind::Score => score_tile(g.actor_type) is Some,
            _ => true,
        }
    }

    /// The state fits the actor's kind.
    pub open spec fn fits(self, g: ActorData) -> bool {
        match self {
            Specific::Placeholder => kind_of(g.actor_type) == Kind::Placeholder,
            Specific::FireWheelBot(s) => kind_of(g.actor_type) == Kind::FireWheelBot && s.wf(),
            Specific::RedBallJumping(s) => kind_of(g.actor_type) == Kind::RedBallJumping && s.wf(),
            Specific::RedBallLying(_) => kind_of(g.actor_type) == Kind::RedBallLying,
            Specific::Robot(s) => kind_of(g.actor_type) == Kind::Robot && s.wf(),
            Specific::SingleAnimation(s) => kind_of(g.actor_type) == Kind::SingleAnimation && s.wf(),
            Specific::TankBot(s) => kind_of(g.actor_type) == Kind::TankBot && s.wf(),
            Specific::WallCrawler(s) => kind_of(g.actor_type) == Kind::WallCrawler && s.wf(),
            Specific::Camera(_) => kind_of(g.actor_type) == Kind::Camera,
            Specific::Particle(_) => kind_of(g.actor_type) == Kind::Particle,
            Specific::Rocket(_) => kind_of(g.actor_type) == Kind::Rocket,
            Specific::Bomb(s) => kind_of(g.actor_type) == Kind::Bomb && s.wf(),
            Specific::ExitDoor(s) => kind_of(g.actor_type) == Kind::ExitDoor && s.wf(),
            Specific::Notebook(_) => kind_of(g.actor_type) == Kind::Notebook,
            Specific::SurveillanceScreen(_) => kind_of(g.actor_type) == Kind::SurveillanceScreen,
            Specific::HostileShot(s) => kind_of(g.actor_type) == Kind::HostileShot && s.wf(),
            Specific::Item(s) => kind_of(g.actor_type) == Kind::Item && s.wf(g),
            Specific::SodaFlying(_) => kind_of(g.actor_type) == Kind::SodaFlying,
            Specific::UnstableFloor(s) => kind_of(g.actor_type) == Kind::UnstableFloor && s.wf(),
            Specific::ExpandingFloor(_) => kind_of(g.actor_type) == Kind::ExpandingFloor,
            Specific::Conveyor(s) => kind_of(g.actor_type) == Kind::Conveyor && s.wf(),
            Specific::Fan(s) => kind_of(g.actor_type) == Kind::Fan && s.wf(),
            Specific::SimpleAnimation(s) => kind_of(g.actor_type) == Kind::SimpleAnimation && s.wf(),
            Specific::Teleporter(_) => kind_of(g.actor_type) == Kind::Teleporter,
            Specific::Balloon(s) => kind_of(g.actor_type) == Kind::Balloon && s.wf(),
            Specific::AccessCardSlot(s) => kind_of(g.actor_type) == Kind::AccessCardSlot && s.wf(),
            Specific::GloveSlot(s) => kind_of(g.actor_type) == Kind::GloveSlot && s.wf(),
            Specific::Key(_) => kind_of(g.actor_type) == Kind::Key,
            Specific::Keyhole(s) => kind_of(g.actor_type) == Kind::Keyhole && s.wf(),
            Specific::Door(_) => kind_of(g.actor_type) == Kind::Door,
            Specific::ShootableWall(_) => kind_of(g.actor_type) == Kind::ShootableWall,
            Specific::Elevator(_) => kind_of(g.actor_type) == Kind::Elevator,
            Specific::Acme(_) => kind_of(g.actor_type) == Kind::Acme,
            Specific::Fire(s) => kind_of(g.actor_type) == Kind::Fire && s.wf(),
            Specific::Mill(s) => kind_of(g.actor_type) == Kind::Mill && s.wf(),
            Specific::AccessCardDoor(s) => kind_of(g.actor_type) == Kind::AccessCardDoor && s.wf(),
            Specific::Spikes(_) => kind_of(g.actor_type) == Kind::Spikes,
            Specific::Score(_) => kind_of(g.actor_type) == Kind::Score,
        }
    }

    /// What the next step of the actor needs of the actor itself: the tiles
    /// it looks at lie inside the level, and its moves stay within the range
    /// of a position.
    pub open spec fn act_ok(self, g: ActorData) -> bool {
        match self {
            Specific::FireWheelBot(s) => s.act_ok(g),
            Specific::RedBallJumping(s) => s.act_ok(),
            Specific::RedBallLying(s) => s.act_ok(g),
            Specific::Robot(s) => s.act_ok(g),
            Specific::TankBot(s) => s.act_ok(g),
            Specific::WallCrawler(s) => s.act_ok(g),
            Specific::Particle(s) => s.act_ok(g),
            Specific::Rocket(s) => s.act_ok(g),
            Specific::Bomb(s) => s.act_ok(g),
            Specific::HostileShot(s) => s.act_ok(g),
            Specific::Item(s) => s.act_ok(g),
            Specific::SodaFlying(s) => s.act_ok(g),
            Specific::UnstableFloor(s) => s.act_ok(g),
            Specific::ExpandingFloor(s) => s.act_ok(g),
            Specific::Conveyor(s) => s.act_ok(g),
            Specific::Balloon(s) => s.act_ok(g),
            Specific::Door(s) => s.act_ok(g),
            Specific::Elevator(s) => s.act_ok(g),
            Specific::Acme(s) => s.act_ok(g),
            Specific::Fire(s) => s.act_ok(),
            Specific::Score(s) => s.act_ok(g),
            _ => true,
        }
    }

    /// What the next step of the actor needs of the level around it: the
    /// hero stands where the actor can look at the hero and push the hero.
    pub open spec fn env_ok(self, g: ActorData, e: Env) -> bool {
        match self {
            Specific::UnstableFloor(s) => s.env_ok(e),
            Specific::Conveyor(s) => s.env_ok(g, e),
            Specific::Fan(s) => s.env_ok(g, e),
            Specific::Elevator(s) => s.env_ok(g, e),
            Specific::Acme(s) => hero_in_level(e.hero),
            Specific::TankBot(s) => s.env_ok(g, e),
            _ => true,
        }
    }

    /// What shooting the actor needs besides a fitting state.
    pub open spec fn shot_ok(self, g: ActorData) -> bool {
        match self {
            Specific::Rocket(s) => s.shot_ok(g),
            Specific::Item(s) => s.shot_ok(g),
            Specific::ShootableWall(s) => s.shot_ok(g),
            Specific::Mill(s) => s.shot_ok(g),
            _ => true,
        }
    }

    /// What the hero's use of the actor needs.
    pub open spec fn interact_ok(g: ActorData, c: Chat) -> bool {
        kind_of(g.actor_type) == Kind::Elevator ==> Elevator::interact_ok(c)
    }

    /// What a message to the actor needs.
    pub open spec fn receive_ok(self, g: ActorData) -> bool {
        match self {
            Specific::Teleporter(s) => s.receive_ok(g),
            Specific::AccessCardDoor(s) => s.receive_ok(g),
            _ => true,
        }
    }

    /// Sets up the actor `g` as it is added to the level `e`. `Some` fixes
    /// the state; `None` stands for a spark, whose speed is left to chance
    /// (see [`Specific::created`]).
    pub open spec fn create_by_kind(g: ActorData, e: Ground) -> Option<(Specific, ActorData, Ground)> {
        match kind_of(g.actor_type) {
            Kind::Placeholder => Some((Specific::Placeholder, dead(g), e)),
            Kind::FireWheelBot => {
                let (s, g1) = FireWheelBot::spec_create(g);
                Some((Specific::FireWheelBot(s), g1, e))
            },
            Kind::RedBallJumping => {
                let (s, g1) = RedBallJumping::spec_create(g);
                Some((Specific::RedBallJumping(s), g1, e))
            },
            Kind::RedBallLying => {
                let (s, g1) = RedBallLying::spec_create(g);
                Some((Specific::RedBallLying(s), g1, e))
            },
            Kind::Robot => {
                let (s, g1) = Robot::spec_create(g);
                Some((Specific::Robot(s), g1, e))
            },
            Kind::SingleAnimation => {
                let (s, g1) = SingleAnimation::spec_create(g);
                Some((Specific::SingleAnimation(s), g1, e))
            },
            Kind::TankBot => {
                let (s, g1) = TankBot::spec_create(g);
                Some((Specific::TankBot(s), g1, e))
            },
            Kind::WallCrawler => {
                let (s, g1) = WallCrawler::spec_create(g);
                Some((Specific::WallCrawler(s), g1, e))
            },
            Kind::Camera => {
                let (s, g1, e1) = Camera::spec_create(g, e);
                Some((Specific::Camera(s), g1, e1))
            },
            Kind::Particle => None,
            Kind::Rocket => {
                let (s, g1, e1) = Rocket::spec_create(g, e);
                Some((Specific::Rocket(s), g1, e1))
            },
            Kind::Bomb => {
                let (s, g1) = Bomb::spec_create(g);
                Some((Specific::Bomb(s), g1, e))
            },
            Kind::ExitDoor => {
                let (s, g1) = ExitDoor::spec_create(g);
                Some((Specific::ExitDoor(s), g1, e))
            },
            Kind::Notebook => {
                let (s, g1) = Notebook::spec_create(g);
                Some((Specific::Notebook(s), g1, e))
            },
            Kind::SurveillanceScreen => {
                let (s, g1) = SurveillanceScreen::spec_create(g);
                Some((Specific::SurveillanceScreen(s), g1, e))
            },
            Kind::HostileShot => {
                let (s, g1) = HostileShot::spec_create(g);
                Some((Specific::HostileShot(s), g1, e))
            },
            Kind::Item => {
                let (s, g1) = Item::spec_create(g);
                Some((Specific::Item(s), g1, e))
            },
            Kind::SodaFlying => {
                let (s, g1) = SodaFlying::spec_create(g);
                Some((Specific::SodaFlying(s), g1, e))
            },
            Kind::UnstableFloor => {
                let (s, g1, e1) = UnstableFloor::spec_create(g, e);
                Some((Specific::UnstableFloor(s), g1, e1))
            },
            Kind::ExpandingFloor => {
                let (s, g1) = ExpandingFloor::spec_create(g);
                Some((Specific::ExpandingFloor(s), g1, e))
            },
            Kind::Conveyor => {
                let (s, g1, e1) = Conveyor::spec_create(g, e);
                Some((Specific::Conveyor(s), g1, e1))
            },
            Kind::Fan => {
                let (s, g1) = Fan::spec_create(g);
                Some((Specific::Fan(s), g1, e))
            },
            Kind::SimpleAnimation => {
                let (s, g1) = SimpleAnimation::spec_create(g);
                Some((Specific::SimpleAnimation(s), g1, e))
            },
            Kind::Teleporter => {
                let (s, g1) = Teleporter::spec_create(g);
                Some((Specific::Teleporter(s), g1, e))
            },
            Kind::Balloon => {
                let (s, g1) = Balloon::spec_create(g);
                Some((Specific::Balloon(s), g1, e))
            },
            Kind::AccessCardSlot => {
                let (s, g1) = AccessCardSlot::spec_create(g);
                Some((Specific::AccessCardSlot(s), g1, e))
            },
            Kind::GloveSlot => {
                let (s, g1) = GloveSlot::spec_create(g);
                Some((Specific::GloveSlot(s), g1, e))
            },
            Kind::Key => {
                let (s, g1) = Key::spec_create(g);
                Some((Specific::Key(s), g1, e))
            },
            Kind::Keyhole => {
                let (s, g1) = Keyhole::spec_create(g);
                Some((Specific::Keyhole(s), g1, e))
            },
            Kind::Door => {
                let (s, g1) = Door::spec_create(g);
                Some((Specific::Door(s), g1, e))
            },
            Kind::ShootableWall => {
                let (s, g1) = ShootableWall::spec_create(g);
                Some((Specific::ShootableWall(s), g1, e))
            },
            Kind::Elevator => {
                let (s, g1) = Elevator::spec_create(g);
                Some((Specific::Elevator(s), g1, e))
            },
            Kind::Acme => {
                let (s, g1) = Acme::spec_create(g);
                Some((Specific::Acme(s), g1, e))
            },
            Kind::Fire => {
                let (s, g1) = Fire::spec_create(g);
                Some((Specific::Fire(s), g1, e))
            },
            Kind::Mill => {
                let (s, g1, e1) = Mill::spec_create(g, e);
                Some((Specific::Mill(s), g1, e1))
            },
            Kind::AccessCardDoor => {
                let (s, g1) = AccessCardDoor::spec_create(g);
                Some((Specific::AccessCardDoor(s), g1, e))
            },
            Kind::Spikes => {
                let (s, g1) = Spikes::spec_create(g);
                Some((Specific::Spikes(s), g1, e))
            },
            Kind::Score => {
                let (s, g1) = Score::spec_create(g);
                Some((Specific::Score(s), g1, e))
            },
        }
    }

    /// What `create_by_kind` says, under a name that other modules see
    /// without its cases; [`Specific::lemma_spec_create`] unfolds it.
    pub closed spec fn spec_create(g: ActorData, e: Ground) -> Option<(Specific, ActorData, Ground)> {
        Specific::create_by_kind(g, e)
    }

    pub proof fn lemma_spec_create(g: ActorData, e: Ground)
        ensures
            Specific::spec_create(g, e) == Specific::create_by_kind(g, e),
    {
    }

    /// `(s, g1, e1)` is a way to set up the actor `g` in the level `e`:
    /// the one [`Specific::spec_create`] fixes, or a spark flying off at a
    /// speed in the range that [`Particle::create`] draws from.
    pub open spec fn created(g: ActorData, e: Ground, s: Specific, g1: ActorData, e1: Ground) -> bool {
        match Specific::spec_create(g, e) {
            Some((s0, g0, e0)) => s == s0 && g1 == g0 && e1 == e0,
            None => e1 == e && match s {
                Specific::Particle(p) => {
                    &&& -12 <= p.vspeed < 5
                    &&& -8 <= p.hspeed < 9
                    &&& (p, g1) == Particle::spec_launch(g, p.hspeed, p.vspeed)
                },
                _ => false,
            },
        }
    }

    /// The grids after the actor `g` was set up in the grids `e`.
    pub open spec fn ground_after(g: ActorData, e: Ground) -> Ground {
        match Specific::spec_create(g, e) {
            Some((_, _, e1)) => e1,
            None => e,
        }
    }

    #[verifier::rlimit(100)]
    pub fn create(
        general: &mut ActorData,
        solids: &mut LevelSolids,
        tiles: &mut LevelTiles,
    ) -> (s: Specific)
        requires
            Specific::create_ok(*old(general), ground_of(*old(solids), *old(tiles))),
        ensures
            Specific::created(*old(general), ground_of(*old(solids), *old(tiles)), s, *final(general), ground_of(*final(solids), *final(tiles))),
            s.fits(*final(general)),
    {
        match general.actor_type {
            ActorType::FireWheelBot => Specific::FireWheelBot(FireWheelBot::create(general)),
            ActorType::RedBallJumping => Specific::RedBallJumping(RedBallJumping::create(general)),
            ActorType::RedBallLying => Specific::RedBallLying(RedBallLying::create(general)),
            ActorType::Robot => Specific::Robot(Robot::create(general)),
            ActorType::RobotDisappearing | ActorType::Explosion | ActorType::DustCloud | ActorType::Steam | ActorType::BombFire => Specific::SingleAnimation(SingleAnimation::create(general)),
            ActorType::TankBot => Specific::TankBot(TankBot::create(general)),
            ActorType::WallCrawlerBotLeft | ActorType::WallCrawlerBotRight => Specific::WallCrawler(WallCrawler::create(general)),
            ActorType::Camera => Specific::Camera(Camera::create(general, solids, tiles)),
            ActorType::ParticlePink | ActorType::ParticleBlue | ActorType::ParticleWhite | ActorType::ParticleGreen => Specific::Particle(Particle::create(general)),
            ActorType::Rocket => Specific::Rocket(Rocket::create(general, solids, tiles)),
            ActorType::Bomb => Specific::Bomb(Bomb::create(general)),
            ActorType::ExitDoor => Specific::ExitDoor(ExitDoor::create(general)),
            ActorType::Notebook => Specific::Notebook(Notebook::create(general)),
            ActorType::SurveillanceScreen => Specific::SurveillanceScreen(SurveillanceScreen::create(general)),
            ActorType::HostileShotLeft | ActorType::HostileShotRight => Specific::HostileShot(HostileShot::create(general)),
            ActorType::Soda | ActorType::BoxGreyEmpty | ActorType::BoxGreyBoots | ActorType::Boots | ActorType::BoxGreyClamps | ActorType::Clamps | ActorType::BoxGreyGun | ActorType::Gun | ActorType::BoxGreyBomb | ActorType::BoxRedSoda | ActorType::BoxRedChicken | ActorType::ChickenSingle | ActorType::ChickenDouble | ActorType::BoxBlueFootball | ActorType::Football | ActorType::Flag | ActorType::BoxBlueJoystick | ActorType::Joystick | ActorType::BoxBlueDisk | ActorType::Disk | ActorType::BoxBlueBalloon | ActorType::BoxGreyGlove | ActorType::Glove | ActorType::BoxGreyFullLife | ActorType::FullLife | ActorType::BoxBlueFlag | ActorType::BlueFlag | ActorType::BoxBlueRadio | ActorType::Radio | ActorType::BoxGreyAccessCard | ActorType::AccessCard | ActorType::BoxGreyLetterD | ActorType::LetterD | ActorType::BoxGreyLetterU | ActorType::LetterU | ActorType::BoxGreyLetterK | ActorType::LetterK | ActorType::BoxGreyLetterE | ActorType::LetterE => Specific::Item(Item::create(general)),
            ActorType::SodaFlying => Specific::SodaFlying(SodaFlying::create(general)),
            ActorType::UnstableFloor => Specific::UnstableFloor(UnstableFloor::create(general, solids, tiles)),
            ActorType::ExpandingFloor => Specific::ExpandingFloor(ExpandingFloor::create(general)),
            ActorType::ConveyorLeftMovingRightEnd | ActorType::ConveyorRightMovingRightEnd => Specific::Conveyor(Conveyor::create(general, solids, tiles)),
            ActorType::FanLeft | ActorType::FanRight => Specific::Fan(Fan::create(general)),
            ActorType::BrokenWallBackground | ActorType::StoneWindowBackground | ActorType::WindowLeftBackground | ActorType::WindowRightBackground | ActorType::BlueLightBackground1 | ActorType::BlueLightBackground2 | ActorType::BlueLightBackground3 | ActorType::BlueLightBackground4 | ActorType::TextOnScreenBackground | ActorType::HighVoltageFlashBackground | ActorType::RedFlashlightBackground | ActorType::BlueFlashlightBackground | ActorType::KeypanelBackground | ActorType::RedRotationLightBackground | ActorType::UpArrowBackground | ActorType::GreenPoisonBackground | ActorType::LavaBackground => Specific::SimpleAnimation(SimpleAnimation::create(general)),
            ActorType::Teleporter1 | ActorType::Teleporter2 => Specific::Teleporter(Teleporter::create(general)),
            ActorType::Balloon => Specific::Balloon(Balloon::create(general)),
            ActorType::AccessCardSlot => Specific::AccessCardSlot(AccessCardSlot::create(general)),
            ActorType::GloveSlot => Specific::GloveSlot(GloveSlot::create(general)),
            ActorType::KeyRed | ActorType::KeyBlue | ActorType::KeyPink | ActorType::KeyGreen => Specific::Key(Key::create(general)),
            ActorType::KeyholeRed | ActorType::KeyholeBlue | ActorType::KeyholePink | ActorType::KeyholeGreen => Specific::Keyhole(Keyhole::create(general)),
            ActorType::DoorRed | ActorType::DoorBlue | ActorType::DoorPink | ActorType::DoorGreen => Specific::Door(Door::create(general)),
            ActorType::ShootableWall => Specific::ShootableWall(ShootableWall::create(general)),
            ActorType::Lift => Specific::Elevator(Elevator::create(general)),
            ActorType::Acme => Specific::Acme(Acme::create(general)),
            ActorType::FireRight | ActorType::FireLeft => Specific::Fire(Fire::create(general)),
            ActorType::Mill => Specific::Mill(Mill::create(general, solids, tiles)),
            ActorType::AccessCardDoor => Specific::AccessCardDoor(AccessCardDoor::create(general)),
            ActorType::SpikesUp | ActorType::SpikesDown | ActorType::Spike => Specific::Spikes(Spikes::create(general)),
            ActorType::Score100 | ActorType::Score200 | ActorType::Score500 | ActorType::Score1000 | ActorType::Score2000 | ActorType::Score5000 | ActorType::Score10000 | ActorType::ScoreBonus1Left | ActorType::ScoreBonus1Right | ActorType::ScoreBonus2Left | ActorType::ScoreBonus2Right | ActorType::ScoreBonus3Left | ActorType::ScoreBonus3Right | ActorType::ScoreBonus4Left | ActorType::ScoreBonus4Right | ActorType::ScoreBonus5Left | ActorType::ScoreBonus5Right | ActorType::ScoreBonus6Left | ActorType::ScoreBonus6Right | ActorType::ScoreBonus7Left | ActorType::ScoreBonus7Right => Specific::Score(Score::create(general)),
            _ => {
                general.is_alive = false;
                Specific::Placeholder
            },
        }
    }

    /// The hero starts touching the actor.
    pub open spec fn touch_start_by_kind(self, g: ActorData, e: Env) -> (Specific, ActorData, Env) {
        match self {
            Specific::FireWheelBot(s) => {
                let (s1, g1) = s.spec_touch_start(g);
                (Specific::FireWheelBot(s1), g1, e)
            },
            Specific::RedBallJumping(s) => (self, ActorData { hurts_hero: true, ..g }, e),
            Specific::RedBallLying(s) => (Specific::RedBallLying(RedBallLying { touching_hero: 1, ..s }), ActorData { hurts_hero: true, ..g }, e),
            Specific::Robot(s) => (Specific::Robot(Robot { touching_hero: true, ..s }), ActorData { hurts_hero: true, ..g }, e),
            Specific::SingleAnimation(s) => (self, s.spec_touch_start(g), e),
            Specific::TankBot(s) => (Specific::TankBot(TankBot { touching_hero: true, ..s }), ActorData { hurts_hero: true, ..g }, e),
            Specific::WallCrawler(s) => (Specific::WallCrawler(WallCrawler { touching_hero: true, ..s }), ActorData { hurts_hero: true, ..g }, e),
            Specific::HostileShot(s) => (Specific::HostileShot(HostileShot { touching_hero: true, ..s }), ActorData { hurts_hero: true, ..g }, e),
            Specific::Item(s) => {
                let (s1, g1, e1) = s.spec_touch_start(g, e);
                (Specific::Item(s1), g1, e1)
            },
            Specific::SodaFlying(s) => {
                let (s1, g1, e1) = s.spec_touch_start(g, e);
                (Specific::SodaFlying(s1), g1, e1)
            },
            Specific::Balloon(s) => {
                let (s1, g1, e1) = s.spec_touch_start(g, e);
                (Specific::Balloon(s1), g1, e1)
            },
            Specific::Key(s) => {
                let (s1, g1, e1) = s.spec_touch_start(g, e);
                (Specific::Key(s1), g1, e1)
            },
            Specific::Acme(s) => {
                let (s1, g1) = s.spec_touch_start(g);
                (Specific::Acme(s1), g1, e)
            },
            Specific::Fire(s) => {
                let (s1, g1) = s.spec_touch_start(g);
                (Specific::Fire(s1), g1, e)
            },
            Specific::Mill(s) => {
                let (s1, g1, e1) = s.spec_touch_start(g, e);
                (Specific::Mill(s1), g1, e1)
            },
            Specific::Spikes(s) => (Specific::Spikes(Spikes { touching_hero: true, ..s }), ActorData { hurts_hero: true, ..g }, e),
            _ => (self, g, e),
        }
    }

    /// What `touch_start_by_kind` says, under a name that other modules see
    /// without its cases; [`Specific::lemma_spec_touch_start`] unfolds it.
    pub closed spec fn spec_touch_start(self, g: ActorData, e: Env) -> (Specific, ActorData, Env) {
        self.touch_start_by_kind(g, e)
    }

    pub proof fn lemma_spec_touch_start(self, g: ActorData, e: Env)
        ensures
            self.spec_touch_start(g, e) == self.touch_start_by_kind(g, e),
    {
    }

    #[verifier::rlimit(100)]
    pub fn hero_touch_start(
        &mut self,
        general: &mut ActorData,
        solids: &mut LevelSolids,
        tiles: &mut LevelTiles,
        queue: &mut ActorQueue,
        hero: &mut HeroData,
        do_play: &mut bool,
        events: &mut Vec<UserEvent>,
    )
        requires
            old(self).fits(*old(general)),
            old(hero).wf(),
        ensures
            (*final(self), *final(general), env_of(*final(solids), *final(tiles), *final(queue), *final(hero), *final(do_play), *final(events)))
                == old(self).spec_touch_start(*old(general), env_of(*old(solids), *old(tiles), *old(queue), *old(hero), *old(do_play), *old(events))),
            final(self).fits(*final(general)),
            old(self).act_ok(*old(general)) ==> final(self).act_ok(*final(general)),
            all_creatable(old(queue).actors@) ==> all_creatable(final(queue).actors@),
            final(hero).wf(),
    {
        match self {
            Specific::FireWheelBot(s) => s.hero_touch_start(general),
            Specific::RedBallJumping(s) => {
                general.hurts_hero = true;
            },
            Specific::RedBallLying(s) => s.hero_touch_start(general),
            Specific::Robot(s) => s.hero_touch_start(general),
            Specific::SingleAnimation(s) => s.hero_touch_start(general),
            Specific::TankBot(s) => s.hero_touch_start(general),
            Specific::WallCrawler(s) => s.hero_touch_start(general),
            Specific::HostileShot(s) => s.hero_touch_start(general),
            Specific::Item(s) => s.hero_touch_start(general, solids, tiles, queue, hero, do_play, events),
            Specific::SodaFlying(s) => s.hero_touch_start(general, solids, tiles, queue, hero, do_play, events),
            Specific::Balloon(s) => s.hero_touch_start(general, solids, tiles, queue, hero, do_play, events),
            Specific::Key(s) => s.hero_touch_start(general, solids, tiles, queue, hero, do_play, events),
            Specific::Acme(s) => s.hero_touch_start(general),
            Specific::Fire(s) => s.hero_touch_start(general),
            Specific::Mill(s) => s.hero_touch_start(general, solids, tiles, queue, hero, do_play, events),
            Specific::Spikes(s) => s.hero_touch_start(general),
            _ => {},
        }
    }

    /// The hero stops touching the actor.
    pub open spec fn touch_end_by_kind(self, g: ActorData, e: Env) -> (Specific, ActorData, Env) {
        match self {
            Specific::FireWheelBot(s) => (Specific::FireWheelBot(FireWheelBot { touching_hero: false, ..s }), ActorData { hurts_hero: false, ..g }, e),
            Specific::RedBallJumping(s) => (self, ActorData { hurts_hero: false, ..g }, e),
            Specific::Robot(s) => (Specific::Robot(Robot { touching_hero: false, ..s }), ActorData { hurts_hero: false, ..g }, e),
            Specific::SingleAnimation(s) => (self, ActorData { hurts_hero: false, ..g }, e),
            Specific::TankBot(s) => (Specific::TankBot(TankBot { touching_hero: false, ..s }), ActorData { hurts_hero: false, ..g }, e),
            Specific::WallCrawler(s) => (Specific::WallCrawler(WallCrawler { touching_hero: false, ..s }), ActorData { hurts_hero: false, ..g }, e),
            Specific::HostileShot(s) => (Specific::HostileShot(HostileShot { touching_hero: false, ..s }), ActorData { hurts_hero: false, ..g }, e),
            Specific::Fire(s) => (Specific::Fire(Fire { touching_hero: false, ..s }), ActorData { hurts_hero: false, ..g }, e),
            Specific::Spikes(s) => (Specific::Spikes(Spikes { touching_hero: false, ..s }), ActorData { hurts_hero: false, ..g }, e),
            _ => (self, g, e),
        }
    }

    /// What `touch_end_by_kind` says, under a name that other modules see
    /// without its cases; [`Specific::lemma_spec_touch_end`] unfolds it.
    pub closed spec fn spec_touch_end(self, g: ActorData, e: Env) -> (Specific, ActorData, Env) {
        self.touch_end_by_kind(g, e)
    }

    pub proof fn lemma_spec_touch_end(self, g: ActorData, e: Env)
        ensures
            self.spec_touch_end(g, e) == self.touch_end_by_kind(g, e),
    {
    }

    #[verifier::rlimit(100)]
    pub fn hero_touch_end(
        &mut self,
        general: &mut ActorData,
        solids: &mut LevelSolids,
        tiles: &mut LevelTiles,
        queue: &mut ActorQueue,
        hero: &mut HeroData,
        do_play: &mut bool,
        events: &mut Vec<UserEvent>,
    )
        requires
            old(self).fits(*old(general)),
            old(hero).wf(),
        ensures
            (*final(self), *final(general), env_of(*final(solids), *final(tiles), *final(queue), *final(hero), *final(do_play), *final(events)))
                == old(self).spec_touch_end(*old(general), env_of(*old(solids), *old(tiles), *old(queue), *old(hero), *old(do_play), *old(events))),
            final(self).fits(*final(general)),
            old(self).act_ok(*old(general)) ==> final(self).act_ok(*final(general)),
            all_creatable(old(queue).actors@) ==> all_creatable(final(queue).actors@),
            final(hero).wf(),
    {
        match self {
            Specific::FireWheelBot(s) => s.hero_touch_end(general),
            Specific::RedBallJumping(s) => {
                general.hurts_hero = false;
            },
            Specific::Robot(s) => s.hero_touch_end(general),
            Specific::SingleAnimation(s) => s.hero_touch_end(general),
            Specific::TankBot(s) => s.hero_touch_end(general),
            Specific::WallCrawler(s) => s.hero_touch_end(general),
            Specific::HostileShot(s) => s.hero_touch_end(general),
            Specific::Fire(s) => s.hero_touch_end(general),
            Specific::Spikes(s) => s.hero_touch_end(general),
            _ => {},
        }
    }

    /// One step of the actor.
    pub open spec fn act_by_kind(self, g: ActorData, e: Env) -> (Specific, ActorData, Env) {
        match self {
            Specific::FireWheelBot(s) => {
                let (s1, g1, e1) = s.spec_act(g, e);
                (Specific::FireWheelBot(s1), g1, e1)
            },
            Specific::RedBallJumping(s) => {
                let (s1, g1) = s.spec_act(g);
                (Specific::RedBallJumping(s1), g1, e)
            },
            Specific::RedBallLying(s) => {
                let (s1, g1, e1) = s.spec_act(g, e);
                (Specific::RedBallLying(s1), g1, e1)
            },
            Specific::Robot(s) => {
                let (s1, g1) = s.spec_act(g, e.solids);
                (Specific::Robot(s1), g1, e)
            },
            Specific::SingleAnimation(s) => {
                let (s1, g1, q1) = s.spec_act(g, e.queued);
                (Specific::SingleAnimation(s1), g1, Env { queued: q1, ..e })
            },
            Specific::TankBot(s) => {
                let (s1, g1, e1) = s.spec_act(g, e);
                (Specific::TankBot(s1), g1, e1)
            },
            Specific::WallCrawler(s) => {
                let (s1, g1) = s.spec_act(g, e.solids);
                (Specific::WallCrawler(s1), g1, e)
            },
            Specific::Particle(s) => {
                let (s1, g1) = s.spec_act(g);
                (Specific::Particle(s1), g1, e)
            },
            Specific::Rocket(s) => {
                let (s1, g1, e1) = s.spec_act(g, e);
                (Specific::Rocket(s1), g1, e1)
            },
            Specific::Bomb(s) => {
                let (s1, g1, e1) = s.spec_act(g, e);
                (Specific::Bomb(s1), g1, e1)
            },
            Specific::ExitDoor(s) => {
                let (s1, g1, e1) = s.spec_act(g, e);
                (Specific::ExitDoor(s1), g1, e1)
            },
            Specific::HostileShot(s) => {
                let (s1, g1) = s.spec_act(g, e.solids);
                (Specific::HostileShot(s1), g1, e)
            },
            Specific::Item(s) => {
                let (s1, g1, e1) = s.spec_act(g, e);
                (Specific::Item(s1), g1, e1)
            },
            Specific::SodaFlying(s) => {
                let (s1, g1, e1) = s.spec_act(g, e);
                (Specific::SodaFlying(s1), g1, e1)
            },
            Specific::UnstableFloor(s) => {
                let (s1, g1, e1) = s.spec_act(g, e);
                (Specific::UnstableFloor(s1), g1, e1)
            },
            Specific::ExpandingFloor(s) => {
                let (s1, g1, e1) = s.spec_act(g, e);
                (Specific::ExpandingFloor(s1), g1, e1)
            },
            Specific::Conveyor(s) => {
                let (s1, g1, e1) = s.spec_act(g, e);
                (Specific::Conveyor(s1), g1, e1)
            },
            Specific::Fan(s) => {
                let (s1, g1, e1) = s.spec_act(g, e);
                (Specific::Fan(s1), g1, e1)
            },
            Specific::SimpleAnimation(s) => (Specific::SimpleAnimation(s.spec_act()), g, e),
            Specific::Balloon(s) => {
                let (s1, g1, e1) = s.spec_act(g, e);
                (Specific::Balloon(s1), g1, e1)
            },
            Specific::AccessCardSlot(s) => (Specific::AccessCardSlot(s.spec_act()), g, e),
            Specific::GloveSlot(s) => {
                let (s1, g1, e1) = s.spec_act(g, e);
                (Specific::GloveSlot(s1), g1, e1)
            },
            Specific::Keyhole(s) => (Specific::Keyhole(s.spec_act()), g, e),
            Specific::Door(s) => {
                let (s1, g1, e1) = s.spec_act(g, e);
                (Specific::Door(s1), g1, e1)
            },
            Specific::Elevator(s) => {
                let (s1, g1, e1) = s.spec_act(g, e);
                (Specific::Elevator(s1), g1, e1)
            },
            Specific::Acme(s) => {
                let (s1, g1, e1) = s.spec_act(g, e);
                (Specific::Acme(s1), g1, e1)
            },
            Specific::Fire(s) => {
                let (s1, g1) = s.spec_act(g);
                (Specific::Fire(s1), g1, e)
            },
            Specific::Mill(s) => (Specific::Mill(s.spec_act()), g, e),
            Specific::AccessCardDoor(s) => (Specific::AccessCardDoor(s.spec_act()), g, e),
            Specific::Score(s) => {
                let (s1, g1) = s.spec_act(g);
                (Specific::Score(s1), g1, e)
            },
            _ => (self, g, e),
        }
    }

    /// What `act_by_kind` says, under a name that other modules see
    /// without its cases; [`Specific::lemma_spec_act`] unfolds it.
    pub closed spec fn spec_act(self, g: ActorData, e: Env) -> (Specific, ActorData, Env) {
        self.act_by_kind(g, e)
    }

    pub proof fn lemma_spec_act(self, g: ActorData, e: Env)
        ensures
            self.spec_act(g, e) == self.act_by_kind(g, e),
    {
    }

    #[verifier::rlimit(100)]
    pub fn act(
        &mut self,
        general: &mut ActorData,
        solids: &mut LevelSolids,
        tiles: &mut LevelTiles,
        queue: &mut ActorQueue,
        hero: &mut HeroData,
        do_play: &mut bool,
        events: &mut Vec<UserEvent>,
    )
        requires
            old(self).fits(*old(general)),
            old(self).act_ok(*old(general)),
            old(self).env_ok(*old(general), env_of(*old(solids), *old(tiles), *old(queue), *old(hero), *old(do_play), *old(events))),
            old(hero).wf(),
        ensures
            (*final(self), *final(general), env_of(*final(solids), *final(tiles), *final(queue), *final(hero), *final(do_play), *final(events)))
                == old(self).spec_act(*old(general), env_of(*old(solids), *old(tiles), *old(queue), *old(hero), *old(do_play), *old(events))),
            final(general).is_alive ==> final(self).fits(*final(general)),
            all_creatable(old(queue).actors@) ==> all_creatable(final(queue).actors@),
            final(hero).wf(),
    {
        match self {
            Specific::FireWheelBot(s) => s.act(general, solids, tiles, queue, hero, do_play, events),
            Specific::RedBallJumping(s) => s.act(general),
            Specific::RedBallLying(s) => s.act(general, solids, tiles, queue, hero, do_play, events),
            Specific::Robot(s) => s.act(general, solids),
            Specific::SingleAnimation(s) => {
                s.act(general, queue);
                assert(env_of(*solids, *tiles, *queue, *hero, *do_play, *events) =~= old(self).spec_act(
            *old(general),
            env_of(*old(solids), *old(tiles), *old(queue), *old(hero), *old(do_play), *old(events)),
        ).2);
            },
            Specific::TankBot(s) => s.act(general, solids, tiles, queue, hero, do_play, events),
            Specific::WallCrawler(s) => s.act(general, solids),
            Specific::Particle(s) => s.act(general),
            Specific::Rocket(s) => s.act(general, solids, tiles, queue, hero, do_play, events),
            Specific::Bomb(s) => s.act(general, solids, tiles, queue, hero, do_play, events),
            Specific::ExitDoor(s) => s.act(general, solids, tiles, queue, hero, do_play, events),
            Specific::HostileShot(s) => s.act(general, solids),
            Specific::Item(s) => s.act(general, solids, tiles, queue, hero, do_play, events),
            Specific::SodaFlying(s) => s.act(general, solids, tiles, queue, hero, do_play, events),
            Specific::UnstableFloor(s) => s.act(general, solids, tiles, queue, hero, do_play, events),
            Specific::ExpandingFloor(s) => s.act(general, solids, tiles, queue, hero, do_play, events),
            Specific::Conveyor(s) => s.act(general, solids, tiles, queue, hero, do_play, events),
            Specific::Fan(s) => s.act(general, solids, tiles, queue, hero, do_play, events),
            Specific::SimpleAnimation(s) => s.act(),
            Specific::Balloon(s) => s.act(general, solids, tiles, queue, hero, do_play, events),
            Specific::AccessCardSlot(s) => s.act(),
            Specific::GloveSlot(s) => s.act(general, solids, tiles, queue, hero, do_play, events),
            Specific::Keyhole(s) => s.act(),
            Specific::Door(s) => s.act(general, solids, tiles, queue, hero, do_play, events),
            Specific::Elevator(s) => s.act(general, solids, tiles, queue, hero, do_play, events),
            Specific::Acme(s) => s.act(general, solids, tiles, queue, hero, do_play, events),
            Specific::Fire(s) => s.act(general),
            Specific::Mill(s) => s.act(),
            Specific::AccessCardDoor(s) => s.act(),
            Specific::Score(s) => s.act(general),
            _ => {},
        }
    }

    /// Shots hit the actor.
    pub open spec fn spec_can_get_shot(self, g: ActorData) -> bool {
        match self {
            Specific::Robot(_) => true,
            Specific::TankBot(_) => true,
            Specific::WallCrawler(_) => true,
            Specific::Rocket(_) => true,
            Specific::Fan(_) => true,
            Specific::ShootableWall(_) => true,
            Specific::Mill(_) => true,
            _ => false,
        }
    }

    pub fn can_get_shot(&self, general: &ActorData) -> (r: bool)
        ensures
            r == self.spec_can_get_shot(*general),
    {
        match self {
            Specific::Robot(_) => true,
            Specific::TankBot(_) => true,
            Specific::WallCrawler(_) => true,
            Specific::Rocket(_) => true,
            Specific::Fan(_) => true,
            Specific::ShootableWall(_) => true,
            Specific::Mill(_) => true,
            _ => false,
        }
    }

    /// A shot hits the actor.
    pub open spec fn shot_by_kind(self, g: ActorData, e: Env) -> (Specific, ActorData, Env) {
        match self {
            Specific::FireWheelBot(s) => {
                let (s1, g1) = s.spec_shot(g);
                (Specific::FireWheelBot(s1), g1, e)
            },
            Specific::Robot(s) => {
                let (s1, g1, e1) = s.spec_shot(g, e);
                (Specific::Robot(s1), g1, e1)
            },
            Specific::TankBot(s) => {
                let (s1, g1) = s.spec_shot(g);
                (Specific::TankBot(s1), g1, e)
            },
            Specific::WallCrawler(s) => {
                let (s1, g1, e1) = s.spec_shot(g, e);
                (Specific::WallCrawler(s1), g1, e1)
            },
            Specific::Camera(s) => {
                let (s1, g1, e1) = s.spec_shot(g, e);
                (Specific::Camera(s1), g1, e1)
            },
            Specific::Rocket(s) => {
                let (s1, g1, e1) = s.spec_shot(g, e);
                (Specific::Rocket(s1), g1, e1)
            },
            Specific::Item(s) => {
                let (s1, g1, e1) = s.spec_shot(g, e);
                (Specific::Item(s1), g1, e1)
            },
            Specific::Fan(s) => {
                let (s1, g1, e1) = s.spec_shot(g, e);
                (Specific::Fan(s1), g1, e1)
            },
            Specific::Balloon(s) => {
                let (s1, g1, e1) = s.spec_shot(g, e);
                (Specific::Balloon(s1), g1, e1)
            },
            Specific::ShootableWall(s) => {
                let (s1, g1, e1) = s.spec_shot(g, e);
                (Specific::ShootableWall(s1), g1, e1)
            },
            Specific::Acme(s) => {
                let (s1, g1, e1) = s.spec_shot(g, e);
                (Specific::Acme(s1), g1, e1)
            },
            Specific::Mill(s) => {
                let (s1, g1, e1) = s.spec_shot(g, e);
                (Specific::Mill(s1), g1, e1)
            },
            _ => (self, g, e),
        }
    }

    /// What `shot_by_kind` says, under a name that other modules see
    /// without its cases; [`Specific::lemma_spec_shot`] unfolds it.
    pub closed spec fn spec_shot(self, g: ActorData, e: Env) -> (Specific, ActorData, Env) {
        self.shot_by_kind(g, e)
    }

    pub proof fn lemma_spec_shot(self, g: ActorData, e: Env)
        ensures
            self.spec_shot(g, e) == self.shot_by_kind(g, e),
    {
    }

    #[verifier::rlimit(100)]
    pub fn shot(
        &mut self,
        general: &mut ActorData,
        solids: &mut LevelSolids,
        tiles: &mut LevelTiles,
        queue: &mut ActorQueue,
        hero: &mut HeroData,
        do_play: &mut bool,
        events: &mut Vec<UserEvent>,
    )
        requires
            old(self).fits(*old(general)),
            old(self).shot_ok(*old(general)),
            old(hero).wf(),
        ensures
            (*final(self), *final(general), env_of(*final(solids), *final(tiles), *final(queue), *final(hero), *final(do_play), *final(events)))
                == old(self).spec_shot(*old(general), env_of(*old(solids), *old(tiles), *old(queue), *old(hero), *old(do_play), *old(events))),
            final(self).fits(*final(general)),
            all_creatable(old(queue).actors@) ==> all_creatable(final(queue).actors@),
            final(hero).wf(),
    {
        match self {
            Specific::FireWheelBot(s) => s.shot(general),
            Specific::Robot(s) => s.shot(general, solids, tiles, queue, hero, do_play, events),
            Specific::TankBot(s) => s.shot(general),
            Specific::WallCrawler(s) => s.shot(general, solids, tiles, queue, hero, do_play, events),
            Specific::Camera(s) => s.shot(general, solids, tiles, queue, hero, do_play, events),
            Specific::Rocket(s) => s.shot(general, solids, tiles, queue, hero, do_play, events),
            Specific::Item(s) => s.shot(general, solids, tiles, queue, hero, do_play, events),
            Specific::Fan(s) => s.shot(general, solids, tiles, queue, hero, do_play, events),
            Specific::Balloon(s) => s.shot(general, solids, tiles, queue, hero, do_play, events),
            Specific::ShootableWall(s) => s.shot(general, solids, tiles, queue, hero, do_play, events),
            Specific::Acme(s) => s.shot(general, solids, tiles, queue, hero, do_play, events),
            Specific::Mill(s) => s.shot(general, solids, tiles, queue, hero, do_play, events),
            _ => {},
        }
    }

    /// The hero can use the actor.
    pub open spec fn spec_can_interact(self) -> bool {
        match self {
            Specific::SurveillanceScreen(_) => true,
            Specific::Teleporter(_) => true,
            Specific::Keyhole(_) => true,
            Specific::Elevator(_) => true,
            _ => false,
        }
    }

    pub fn hero_can_interact(&self) -> (r: bool)
        ensures
            r == self.spec_can_interact(),
    {
        match self {
            Specific::SurveillanceScreen(_) => true,
            Specific::Teleporter(_) => true,
            Specific::Keyhole(_) => true,
            Specific::Elevator(_) => true,
            _ => false,
        }
    }

    /// The hero starts using the actor.
    pub open spec fn interact_start_by_kind(self, g: ActorData, c: Chat) -> (Specific, ActorData, Chat) {
        match self {
            Specific::ExitDoor(s) => {
                let (s1, g1, c1) = s.spec_interact_start(g, c);
                (Specific::ExitDoor(s1), g1, c1)
            },
            Specific::Notebook(s) => {
                let (s1, g1, c1) = s.spec_interact_start(g, c);
                (Specific::Notebook(s1), g1, c1)
            },
            Specific::SurveillanceScreen(s) => {
                let (s1, g1, c1) = s.spec_interact_start(g, c);
                (Specific::SurveillanceScreen(s1), g1, c1)
            },
            Specific::Teleporter(s) => {
                let (s1, g1, c1) = s.spec_interact_start(g, c);
                (Specific::Teleporter(s1), g1, c1)
            },
            Specific::AccessCardSlot(s) => {
                let (s1, g1, c1) = s.spec_interact_start(g, c);
                (Specific::AccessCardSlot(s1), g1, c1)
            },
            Specific::GloveSlot(s) => {
                let (s1, g1, c1) = s.spec_interact_start(g, c);
                (Specific::GloveSlot(s1), g1, c1)
            },
            Specific::Keyhole(s) => {
                let (s1, g1, c1) = s.spec_interact_start(g, c);
                (Specific::Keyhole(s1), g1, c1)
            },
            Specific::Elevator(s) => {
                let (s1, g1, c1) = s.spec_interact_start(g, c);
                (Specific::Elevator(s1), g1, c1)
            },
            _ => (self, g, c),
        }
    }

    /// What `interact_start_by_kind` says, under a name that other modules see
    /// without its cases; [`Specific::lemma_spec_interact_start`] unfolds it.
    pub closed spec fn spec_interact_start(self, g: ActorData, c: Chat) -> (Specific, ActorData, Chat) {
        self.interact_start_by_kind(g, c)
    }

    pub proof fn lemma_spec_interact_start(self, g: ActorData, c: Chat)
        ensures
            self.spec_interact_start(g, c) == self.interact_start_by_kind(g, c),
    {
    }

    pub fn hero_interact_start(
        &mut self,
        general: &mut ActorData,
        level_passed: &mut bool,
        hero: &mut HeroData,
        infos: &mut InfoMessageQueue,
        messages: &mut ActorMessageQueue,
        events: &mut Vec<UserEvent>,
    )
        requires
            old(self).fits(*old(general)),
            Specific::interact_ok(*old(general), chat_of(*old(level_passed), *old(hero), *old(infos), *old(messages), *old(events))),
            old(hero).wf(),
        ensures
            (*final(self), *final(general), chat_of(*final(level_passed), *final(hero), *final(infos), *final(messages), *final(events)))
                == old(self).spec_interact_start(*old(general), chat_of(*old(level_passed), *old(hero), *old(infos), *old(messages), *old(events))),
            final(general).actor_type == old(general).actor_type,
            final(self).fits(*final(general)),
            final(hero).wf(),
    {
        match self {
            Specific::ExitDoor(s) => s.hero_interact_start(general, level_passed, hero, infos, messages, events),
            Specific::Notebook(s) => s.hero_interact_start(general, level_passed, hero, infos, messages, events),
            Specific::SurveillanceScreen(s) => s.hero_interact_start(general, level_passed, hero, infos, messages, events),
            Specific::Teleporter(s) => s.hero_interact_start(general, level_passed, hero, infos, messages, events),
            Specific::AccessCardSlot(s) => s.hero_interact_start(general, level_passed, hero, infos, messages, events),
            Specific::GloveSlot(s) => s.hero_interact_start(general, level_passed, hero, infos, messages, events),
            Specific::Keyhole(s) => s.hero_interact_start(general, level_passed, hero, infos, messages, events),
            Specific::Elevator(s) => s.hero_interact_start(general, level_passed, hero, infos, messages, events),
            _ => {},
        }
    }

    /// The hero stops using the actor.
    pub open spec fn interact_end_by_kind(self, g: ActorData, c: Chat) -> (Specific, ActorData, Chat) {
        match self {
            Specific::Elevator(s) => {
                let (s1, g1, c1) = s.spec_interact_end(g, c);
                (Specific::Elevator(s1), g1, c1)
            },
            _ => (self, g, c),
        }
    }

    /// What `interact_end_by_kind` says, under a name that other modules see
    /// without its cases; [`Specific::lemma_spec_interact_end`] unfolds it.
    pub closed spec fn spec_interact_end(self, g: ActorData, c: Chat) -> (Specific, ActorData, Chat) {
        self.interact_end_by_kind(g, c)
    }

    pub proof fn lemma_spec_interact_end(self, g: ActorData, c: Chat)
        ensures
            self.spec_interact_end(g, c) == self.interact_end_by_kind(g, c),
    {
    }

    pub fn hero_interact_end(
        &mut self,
        general: &mut ActorData,
        level_passed: &mut bool,
        hero: &mut HeroData,
        events: &mut Vec<UserEvent>,
    )
        requires
            old(self).fits(*old(general)),
            old(hero).wf(),
        ensures
            (*final(self), *final(general), parting_of(*final(level_passed), *final(hero), *final(events)))
                == old(self).spec_interact_end(*old(general), parting_of(*old(level_passed), *old(hero), *old(events))),
            final(hero)@ == old(hero)@,
            final(general).actor_type == old(general).actor_type,
            final(self).fits(*final(general)),
            final(hero).wf(),
    {
        match self {
            Specific::Elevator(s) => s.hero_interact_end(general, level_passed, hero, events),
            _ => {},
        }
    }

    /// The actor gets the message `m`.
    pub open spec fn receive_message_by_kind(self, g: ActorData, m: ActorMessageType, mail: Mail) -> (Specific, ActorData, Mail) {
        match self {
            Specific::ExpandingFloor(s) => {
                let (s1, g1, m1) = s.spec_receive_message(g, m, mail);
                (Specific::ExpandingFloor(s1), g1, m1)
            },
            Specific::Teleporter(s) => {
                let (s1, g1, m1) = s.spec_receive_message(g, m, mail);
                (Specific::Teleporter(s1), g1, m1)
            },
            Specific::Door(s) => {
                let (s1, g1, m1) = s.spec_receive_message(g, m, mail);
                (Specific::Door(s1), g1, m1)
            },
            Specific::AccessCardDoor(s) => {
                let (s1, g1, m1) = s.spec_receive_message(g, m, mail);
                (Specific::AccessCardDoor(s1), g1, m1)
            },
            _ => (self, g, mail),
        }
    }

    /// What `receive_message_by_kind` says, under a name that other modules see
    /// without its cases; [`Specific::lemma_spec_receive_message`] unfolds it.
    pub closed spec fn spec_receive_message(self, g: ActorData, m: ActorMessageType, mail: Mail) -> (Specific, ActorData, Mail) {
        self.receive_message_by_kind(g, m, mail)
    }

    pub proof fn lemma_spec_receive_message(self, g: ActorData, m: ActorMessageType, mail: Mail)
        ensures
            self.spec_receive_message(g, m, mail) == self.receive_message_by_kind(g, m, mail),
    {
    }

    pub fn receive_message(
        &mut self,
        general: &mut ActorData,
        message: ActorMessageType,
        hero: &mut HeroData,
        solids: &mut LevelSolids,
        events: &mut Vec<UserEvent>,
    )
        requires
            old(self).fits(*old(general)),
            old(self).receive_ok(*old(general)),
            old(hero).wf(),
        ensures
            (*final(self), *final(general), mail_of(*final(hero), *final(solids), *final(events)))
                == old(self).spec_receive_message(*old(general), message, mail_of(*old(hero), *old(solids), *old(events))),
            final(self).fits(*final(general)),
            final(hero).wf(),
    {
        match self {
            Specific::ExpandingFloor(s) => s.receive_message(general, message, hero, solids, events),
            Specific::Teleporter(s) => s.receive_message(general, message, hero, solids, events),
            Specific::Door(s) => s.receive_message(general, message, hero, solids, events),
            Specific::AccessCardDoor(s) => s.receive_message(general, message, hero, solids, events),
            _ => {},
        }
    }
}

} // verus!
