use freenukum::hero::InventoryItem;
use freenukum::level::actor::door::DoorState;
use freenukum::level::actor::specific::Specific;
use freenukum::draw::DrawTile;
use freenukum::events::UserEvent;
use freenukum::geometry::Geometry;
use freenukum::hero::HeroData;
use freenukum::infobox::InfoMessageQueue;
use freenukum::level::actor::list::ActorsList;
use freenukum::level::actor::{ActorMessageQueue, ActorQueue, ActorType};
use freenukum::level::raw::LevelRaw;
use freenukum::level::solids::LevelSolids;
use freenukum::level::tiles::LevelTiles;
use freenukum::level::LevelData;
use freenukum::level::actor::particle::Particle;
use freenukum::level::actor::ActorData;

#[test]
fn solids_read_back_what_was_written() {
    let mut s = LevelSolids::new();
    assert!(!s.get(3, 4));
    s.set(3, 4, true);
    assert!(s.get(3, 4));
    assert!(!s.get(4, 3));
    assert!(s.collides(Geometry::new(48, 64, 16, 16)));
    assert!(!s.collides(Geometry::new(64, 64, 16, 16)));
    s.set(3, 4, false);
    assert!(!s.get(3, 4));
}

#[test]
fn tiles_read_back_and_copy() {
    let mut t = LevelTiles::new();
    t.set(1, 2, 77);
    assert_eq!(t.get(1, 2), 77);
    t.copy_from_to(1, 2, 5, 6);
    assert_eq!(t.get(5, 6), 77);
    assert_eq!(t.get(0, 0), 0);
    let mut r = LevelRaw::new();
    r.set(127, 89, 5);
    assert_eq!(r.get(127, 89), 5);
}

#[test]
fn sparks_fly_off_at_random_speeds() {
    let mut speeds = Vec::new();
    for _ in 0..200 {
        let mut g = ActorData::new(ActorType::ParticleBlue);
        let p = Particle::create(&mut g);
        assert!((-12..5).contains(&p.vspeed));
        assert!((-8..9).contains(&p.hspeed));
        assert_eq!((g.position.w, g.position.h), (8, 8));
        speeds.push((p.hspeed, p.vspeed));
    }
    assert!(speeds.iter().any(|s| s.0 != -8));
    assert!(speeds.iter().any(|s| s.1 != -12));
    assert!(speeds.iter().any(|s| *s != speeds[0]));
}

#[test]
fn a_new_level() {
    let l = LevelData::new();
    assert!(l.do_play);
    assert!(!l.level_passed);
    assert_eq!(l.actors.count(), 0);
}

#[test]
fn actors_are_added_and_act() {
    let mut l = LevelData::new();
    l.add_actor(ActorType::Score100, 64, 64);
    l.add_actor(ActorType::ParticlePink, 80, 80);
    assert_eq!(l.actors.count(), 2);
    let mut hero = HeroData::new();
    let mut queue = ActorQueue::new();
    let mut do_play = true;
    let mut events: Vec<UserEvent> = Vec::new();
    l.actors.update_visibility(0, 20, 0, 20);
    for _ in 0..100 {
        l.actors.act(&mut l.solids, &mut l.tiles, &mut hero, &mut queue, &mut do_play, &mut events);
    }
    // the score sign and the spark are gone after their time
    assert_eq!(l.actors.count(), 0);
    assert!(do_play);
    assert!(!hero.gets_hurt);
}

#[test]
fn invisible_actors_wait() {
    let mut l = LevelData::new();
    l.add_actor(ActorType::Score100, 64, 64);
    let mut hero = HeroData::new();
    let mut queue = ActorQueue::new();
    let mut do_play = true;
    let mut events: Vec<UserEvent> = Vec::new();
    l.actors.update_visibility(50, 60, 50, 60);
    for _ in 0..100 {
        l.actors.act(&mut l.solids, &mut l.tiles, &mut hero, &mut queue, &mut do_play, &mut events);
    }
    assert_eq!(l.actors.count(), 1);
}

#[test]
fn queued_actors_join_the_level() {
    let mut actors = ActorsList::new();
    let mut solids = LevelSolids::new();
    let mut tiles = LevelTiles::new();
    let mut hero = HeroData::new();
    let mut queue = ActorQueue::new();
    queue.push_back(ActorType::DustCloud, 16, 16);
    queue.push_particle_firework(32, 32, 5);
    assert_eq!(queue.actors.len(), 6);
    let mut do_play = true;
    let mut events: Vec<UserEvent> = Vec::new();
    actors.act(&mut solids, &mut tiles, &mut hero, &mut queue, &mut do_play, &mut events);
    assert_eq!(actors.count(), 6);
    assert!(queue.actors.is_empty());
}

#[test]
fn interaction_starts_and_ends() {
    let mut l = LevelData::new();
    l.add_actor(ActorType::Notebook, 64, 64);
    let mut hero = HeroData::new();
    let mut events: Vec<UserEvent> = Vec::new();
    hero.enter_level(64, 48, &mut events);
    let mut infos = InfoMessageQueue::new();
    let mut messages = ActorMessageQueue::new();
    l.hero_interact_start(&mut hero, &mut infos, &mut messages, &mut events);
    l.hero_interact_end(&mut hero, &mut events);
    assert!(!l.level_passed);
}

#[test]
fn actors_look_their_part() {
    let mut l = LevelData::new();
    l.add_actor(ActorType::Notebook, 64, 64);
    l.add_actor(ActorType::Teleporter1, 160, 64);
    let hero = HeroData::new();
    // nothing is visible before the visibility is known
    assert!(l.actors.blit_background_actors(&hero).is_empty());
    l.actors.update_visibility(0, 20, 0, 20);
    let back = l.actors.blit_background_actors(&hero);
    let front = l.actors.blit_foreground_actors(&hero);
    assert_eq!(back.len() + front.len(), 10);
    let all: Vec<DrawTile> = back.iter().chain(front.iter()).cloned().collect();
    assert!(all.contains(&DrawTile { tile: 756, x: 64, y: 64 }));
    assert!(all.contains(&DrawTile { tile: 506, x: 144, y: 32 }));
    assert!(all.contains(&DrawTile { tile: 514, x: 176, y: 64 }));
}

#[test]
fn keyhole_opens_the_door_of_its_colour() {
    let mut l = LevelData::new();
    l.add_actor(ActorType::KeyholeRed, 64, 64);
    l.add_actor(ActorType::DoorRed, 160, 64);
    l.add_actor(ActorType::DoorBlue, 192, 64);
    let mut hero = HeroData::new();
    let mut events: Vec<UserEvent> = Vec::new();
    hero.enter_level(64, 48, &mut events);
    let mut infos = InfoMessageQueue::new();
    let mut messages = ActorMessageQueue::new();

    // without the key the hero is told so
    l.hero_interact_start(&mut hero, &mut infos, &mut messages, &mut events);
    assert_eq!(infos.take_all(), vec![String::from("You don't have the red key.")]);
    assert!(messages.take_all().is_empty());
    l.hero_interact_end(&mut hero, &mut events);

    // with the key the door gets the message and the key is used up
    hero.inventory.set(InventoryItem::KeyRed, &mut events);
    l.hero_interact_start(&mut hero, &mut infos, &mut messages, &mut events);
    assert!(!hero.inventory.is_set(InventoryItem::KeyRed));
    let sent = messages.take_all();
    assert_eq!(sent.len(), 1);
    l.actors.send_message(sent[0].receivers, sent[0].message, &mut hero, &mut l.solids, &mut events);
    match &l.actors.get_mut(1).unwrap().specific {
        Specific::Door(d) => assert_eq!(d.state, DoorState::Opening),
        _ => panic!("the second actor is the red door"),
    }
    match &l.actors.get_mut(2).unwrap().specific {
        Specific::Door(d) => assert_eq!(d.state, DoorState::Closed),
        _ => panic!("the third actor is the blue door"),
    }
    assert!(l.actors.get_mut(3).is_none());
}

#[test]
fn picking_up_boots() {
    let mut l = LevelData::new();
    l.solids.set(4, 5, true);
    l.add_actor(ActorType::Boots, 64, 64);
    let mut hero = HeroData::new();
    let mut events: Vec<UserEvent> = Vec::new();
    hero.enter_level(64, 48, &mut events);
    let mut queue = ActorQueue::new();
    let mut do_play = true;
    l.actors.update_visibility(0, 20, 0, 20);
    l.actors.act(&mut l.solids, &mut l.tiles, &mut hero, &mut queue, &mut do_play, &mut events);
    assert!(hero.inventory.is_set(InventoryItem::Boot));
    assert_eq!(hero.score.get(), 1000);
    // the boots are gone and a score sign took their place
    assert_eq!(l.actors.count(), 1);
    match &l.actors.get_mut(0).unwrap().general.actor_type {
        ActorType::Score1000 => {}
        other => panic!("expected the score sign, got {:?}", other),
    }
    assert!(events.contains(&UserEvent::HeroScored));
}

#[test]
fn queued_camera_and_fan_are_set_up() {
    let mut actors = ActorsList::new();
    let mut solids = LevelSolids::new();
    let mut tiles = LevelTiles::new();
    let mut queue = ActorQueue::new();
    queue.push_back(ActorType::Camera, 64, 64);
    queue.push_back(ActorType::FanLeft, 96, 64);
    queue.push_back(ActorType::Football, 128, 64);
    queue.process(&mut actors, &mut solids, &mut tiles);
    assert_eq!(actors.count(), 3);
    assert!(queue.actors.is_empty());
    assert_eq!(actors.get_mut(0).unwrap().general.actor_type, ActorType::Camera);
    assert_eq!(actors.get_mut(1).unwrap().general.actor_type, ActorType::FanLeft);
    assert_eq!(actors.get_mut(2).unwrap().general.actor_type, ActorType::Football);
}

#[test]
fn solids_read_the_last_write() {
    let mut s = LevelSolids::new();
    s.set(5, 5, true);
    s.set(5, 5, false);
    s.set(5, 5, true);
    s.set(6, 5, true);
    s.set(6, 5, false);
    assert!(s.get(5, 5));
    assert!(!s.get(6, 5));
    assert!(!s.get(7, 5));
}
