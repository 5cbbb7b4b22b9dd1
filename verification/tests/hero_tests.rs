use freenukum::draw::DrawTile;
use freenukum::events::{HorizontalDirection, UserEvent};
use freenukum::geometry::Geometry;
use freenukum::hero::{FetchedLetter, FetchedLetterState, HeroData, Immunity, InventoryItem, Motion, Position};
use freenukum::level::solids::LevelSolids;

fn hero_at(x: i16, y: i16) -> HeroData {
    let mut h = HeroData::new();
    let mut events = Vec::new();
    h.enter_level(x, y, &mut events);
    h
}

#[test]
fn a_new_hero() {
    let h = HeroData::new();
    assert_eq!(h.health.get(), 8);
    assert_eq!(h.firepower.num_shots(), 1);
    assert_eq!(h.score.get(), 0);
    assert_eq!(h.position.geometry, Position::default_geometry());
    assert_eq!(Position::default_geometry(), Geometry::new(0, 0, 16, 32));
    assert_eq!(h.get_direction(), HorizontalDirection::Right);
}

#[test]
fn score_health_and_firepower_saturate() {
    let mut h = HeroData::new();
    let mut events = Vec::new();
    h.score.add(u64::MAX - 1, &mut events);
    h.score.add(10, &mut events);
    assert_eq!(h.score.get(), u64::MAX);
    h.health.decrease(3, &mut events);
    assert_eq!(h.health.get(), 5);
    h.health.increase(100, &mut events);
    assert_eq!(h.health.get(), 8);
    h.health.decrease(200, &mut events);
    assert_eq!(h.health.get(), 0);
    h.firepower.increase(10, &mut events);
    assert_eq!(h.firepower.num_shots(), 4);
    assert!(events.contains(&UserEvent::HeroFirepowerChanged));
}

#[test]
fn inventory_items_come_and_go() {
    let mut h = HeroData::new();
    let mut events = Vec::new();
    assert!(!h.inventory.is_set(InventoryItem::Boot));
    h.inventory.set(InventoryItem::Boot, &mut events);
    h.inventory.set(InventoryItem::KeyRed, &mut events);
    assert!(h.inventory.is_set(InventoryItem::Boot));
    h.inventory.unset(InventoryItem::Boot, &mut events);
    assert!(!h.inventory.is_set(InventoryItem::Boot));
    // entering a level takes the keys away and keeps the rest
    h.inventory.set(InventoryItem::Glove, &mut events);
    h.enter_level(32, 48, &mut events);
    assert!(!h.inventory.is_set(InventoryItem::KeyRed));
    assert!(h.inventory.is_set(InventoryItem::Glove));
    assert_eq!(h.position.geometry, Geometry::new(32, 48, 16, 32));
}

#[test]
fn immunity_blinks_and_wears_off() {
    let mut i = Immunity::new();
    assert!(!i.hero_is_protected());
    i.enable();
    assert!(i.hero_skeleton());
    assert!(i.hero_is_protected());
    let mut steps = 0;
    while i.hero_is_protected() {
        i.count_down();
        steps += 1;
    }
    assert_eq!(steps, 16);
    assert!(!i.hero_invisible());
}

#[test]
fn hero_stands_on_ground_and_walks() {
    let mut solids = LevelSolids::new();
    solids.set(4, 6, true);
    solids.set(5, 6, true);
    let mut h = hero_at(64, 64);
    let mut events = Vec::new();
    let life = h.act(&solids, &mut events);
    assert_eq!(life, 8);
    assert!(!h.get_is_in_the_air());
    assert_eq!(h.position.geometry.x, 64);
    h.set_motion(Motion::Walking);
    h.act(&solids, &mut events);
    assert_eq!(h.position.geometry.x, 72);
    assert!(events.contains(&UserEvent::HeroMoved));
}

#[test]
fn turning_around_costs_a_step() {
    let mut solids = LevelSolids::new();
    solids.set(4, 6, true);
    solids.set(3, 6, true);
    let mut h = hero_at(64, 64);
    let mut events = Vec::new();
    h.set_motion(Motion::Walking);
    h.set_direction(HorizontalDirection::Left);
    assert!(h.get_just_turned_around());
    h.act(&solids, &mut events);
    assert_eq!(h.position.geometry.x, 64);
    h.act(&solids, &mut events);
    assert_eq!(h.position.geometry.x, 56);
}

#[test]
fn hero_without_ground_falls() {
    let solids = LevelSolids::new();
    let mut h = hero_at(64, 64);
    let mut events = Vec::new();
    h.act(&solids, &mut events);
    assert!(h.get_is_in_the_air());
    h.act(&solids, &mut events);
    assert_eq!(h.get_vertical_speed(), 1);
    assert_eq!(h.position.geometry.y, 64);
    h.act(&solids, &mut events);
    assert_eq!(h.get_vertical_speed(), 2);
    assert_eq!(h.position.geometry.y, 72);
}

#[test]
fn hurt_hero_is_protected_for_a_while() {
    let mut solids = LevelSolids::new();
    solids.set(4, 6, true);
    let mut h = hero_at(64, 64);
    let mut events = Vec::new();
    h.set_gets_hurt(true);
    assert_eq!(h.act(&solids, &mut events), 7);
    assert_eq!(h.act(&solids, &mut events), 7);
}

#[test]
fn jumping_needs_ground() {
    let mut h = HeroData::new();
    h.jump();
    assert!(h.get_is_in_the_air());
    assert_eq!(h.get_counter(), 6);
    let mut events = Vec::new();
    h.inventory.set(InventoryItem::Boot, &mut events);
    h.jump();
    assert_eq!(h.get_counter(), 6);
    h.land();
    h.jump();
    assert_eq!(h.get_counter(), 7);
}

#[test]
fn hero_tiles() {
    let h = hero_at(64, 64);
    let base = h.get_base_tile_number();
    assert_eq!(
        h.blit(),
        vec![
            DrawTile { tile: base, x: 56, y: 64 },
            DrawTile { tile: base + 1, x: 72, y: 64 },
            DrawTile { tile: base + 2, x: 56, y: 80 },
            DrawTile { tile: base + 3, x: 72, y: 80 },
        ]
    );
    let mut hidden = hero_at(64, 64);
    hidden.hidden = true;
    assert!(hidden.blit().is_empty());
}

#[test]
fn skeleton_after_getting_hurt() {
    let mut h = hero_at(64, 64);
    h.immunity.enable();
    h.set_direction(HorizontalDirection::Left);
    assert_eq!(h.blit()[0].tile, 872);
}

#[test]
fn collision_bounds_around_the_hero() {
    let mut solids = LevelSolids::new();
    solids.set(4, 6, true);
    solids.set(9, 9, true);
    solids.set(0, 4, true);
    let h = hero_at(64, 64);
    assert_eq!(
        h.collision_bounds(&solids),
        vec![Geometry::new(64, 64, 16, 32), Geometry::new(64, 96, 16, 16)]
    );
    let edge = hero_at(16, 16);
    let mut first = LevelSolids::new();
    first.set(0, 1, true);
    first.set(1, 0, true);
    first.set(2, 3, true);
    assert_eq!(
        edge.collision_bounds(&first),
        vec![Geometry::new(16, 16, 16, 32), Geometry::new(32, 48, 16, 16)]
    );
}

#[test]
fn outline_of_a_rectangle() {
    assert_eq!(
        freenukum::collision::rect_draw(Geometry::new(10, 20, 5, 6)),
        vec![
            Geometry::new(10, 20, 1, 6),
            Geometry::new(14, 20, 1, 6),
            Geometry::new(10, 20, 5, 1),
            Geometry::new(10, 25, 5, 1),
        ]
    );
}

#[test]
fn animation_frames_cycle() {
    let mut h = HeroData::new();
    h.set_num_frames(4);
    h.next_frame();
    let start = h.get_current_frame();
    for _ in 0..4 {
        h.next_frame();
    }
    assert_eq!(h.get_current_frame(), start);
}

#[test]
fn shots_stay_between_one_and_four() {
    let mut events = Vec::new();
    let mut f = freenukum::hero::Firepower::new();
    assert_eq!(f.num_shots(), 1);
    f.increase(2, &mut events);
    f.increase(200, &mut events);
    assert_eq!(f.num_shots(), 4);
    f.reset(&mut events);
    assert_eq!(f.num_shots(), 1);
}

#[test]
fn bonus_word_needs_the_last_four_letters() {
    let mut s = FetchedLetterState::new();
    for l in [FetchedLetter::D, FetchedLetter::U, FetchedLetter::K, FetchedLetter::E] {
        assert!(!s.succeeded());
        s.picked(l);
    }
    assert!(s.succeeded());
    s.picked(FetchedLetter::U);
    assert!(!s.succeeded());
    for l in [FetchedLetter::D, FetchedLetter::D, FetchedLetter::U, FetchedLetter::E] {
        s.picked(l);
    }
    assert!(!s.succeeded());
}

#[test]
fn a_new_hero_steps_at_the_level_corner() {
    let solids = LevelSolids::new();
    let mut h = HeroData::new();
    let mut events = Vec::new();
    assert_eq!(h.act(&solids, &mut events), 8);
    assert!(h.get_is_in_the_air());
    assert_eq!(h.position.geometry, Geometry::new(0, 0, 16, 32));
}

#[test]
fn collision_outlines_only_for_a_drawn_hero() {
    let mut solids = LevelSolids::new();
    solids.set(4, 6, true);
    let mut h = hero_at(64, 64);
    let sides = h.collision_outlines(&solids);
    assert_eq!(sides.len(), 8);
    assert_eq!(sides[0], Geometry::new(64, 64, 1, 32));
    assert_eq!(sides[7], Geometry::new(64, 111, 16, 1));
    h.hidden = true;
    assert!(h.collision_outlines(&solids).is_empty());
}
