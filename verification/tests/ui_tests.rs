use freenukum::backdrop::tile_places;
use freenukum::borders::Borders;
use freenukum::bot::{Bot, BotType};
use freenukum::data::required_file_names;
use freenukum::draw::DrawTile;
use freenukum::episodes::Episodes;
use freenukum::geometry::Geometry;
use freenukum::hero::{FetchedLetter, Firepower, Inventory, InventoryItem};
use freenukum::infobox::InfoMessageQueue;
use freenukum::mainmenu::MainMenuEntry;
use freenukum::messagebox::{centered, get_information, messagebox};
use freenukum::text::{decimal_padded, push_decimal, string_from_chars};

fn t(tile: usize, x: i16, y: i16) -> DrawTile {
    DrawTile { tile, x, y }
}

#[test]
fn decimal_numbers() {
    let mut out = vec!['x'];
    push_decimal(0, &mut out);
    push_decimal(1905, &mut out);
    assert_eq!(out, vec!['x', '0', '1', '9', '0', '5']);
    assert_eq!(decimal_padded(42, 5), vec!['0', '0', '0', '4', '2']);
    assert_eq!(decimal_padded(123456, 3), vec!['1', '2', '3', '4', '5', '6']);
}

#[test]
fn chars_become_a_string() {
    assert_eq!(string_from_chars(&vec!['d', 'u', 'k', 'e']), "duke");
    assert_eq!(string_from_chars(&vec![]), "");
}

#[test]
fn episodes_are_counted_and_switched() {
    assert_eq!(Episodes::count_installed(&[true, true, false, true]), 3);
    assert_eq!(Episodes::count_installed(&[false, false]), 0);
    assert_eq!(Episodes::count_installed(&[true; 12]), 8);
    let mut e = Episodes::find_installed(&[true, true, true, true]);
    assert_eq!((e.current(), e.count()), (0, 3));
    assert_eq!(e.file_extension(), "dn1");
    assert_eq!(e.switch(), 1);
    assert_eq!(e.file_extension(), "dn2");
    assert_eq!(e.switch(), 2);
    assert_eq!(e.switch(), 0);
}

#[test]
fn text_information_follows_lines() {
    assert_eq!(get_information("Hello\nWorld!"), (6, 2));
    assert_eq!(get_information("ab\r\ncd\n"), (2, 2));
    assert_eq!(get_information(""), (0, 0));
    assert_eq!(get_information("\n\nx"), (1, 3));
}

#[test]
fn message_box_frame() {
    let m = messagebox("Hi");
    assert_eq!((m.width, m.height), (32, 24));
    assert_eq!((m.text_x, m.text_y), (8, 8));
    assert_eq!(
        m.frame,
        vec![
            t(1196, 0, 0), t(1197, 8, 0), t(1198, 16, 0),
            t(1202, 0, 8), t(1203, 8, 8), t(1204, 16, 8),
        ]
    );
    assert_eq!(centered(32, 24, 320, 200), Geometry::new(144, 88, 32, 24));
}

#[test]
fn menu_keys() {
    assert_eq!(MainMenuEntry::from('S'), MainMenuEntry::Start);
    assert_eq!(MainMenuEntry::from('q'), MainMenuEntry::Quit);
    assert_eq!(MainMenuEntry::from('x'), MainMenuEntry::Invalid);
    let c: char = MainMenuEntry::Credits.into();
    assert_eq!(c, 'c');
    let back: char = MainMenuEntry::EpisodeChange.into();
    assert_eq!(MainMenuEntry::from(back), MainMenuEntry::EpisodeChange);
}

#[test]
fn info_messages_come_out_in_order() {
    let mut q = InfoMessageQueue::new();
    q.push_back(String::from("first"));
    q.push_back(String::from("second"));
    assert_eq!(q.len(), 2);
    assert_eq!(q.take_all(), vec![String::from("first"), String::from("second")]);
    assert_eq!(q.len(), 0);
}

#[test]
fn data_files() {
    let names = required_file_names();
    assert_eq!(names.len(), 46);
    assert_eq!(names[0], "anim0");
    assert_eq!(names[16], "duke1-b");
    assert_eq!(names[45], "worldalc");
}

#[test]
fn backdrop_tiles_fill_rows() {
    let p = tile_places();
    assert_eq!(p.len(), 130);
    assert_eq!(p[0], Geometry::new(0, 0, 16, 16));
    assert_eq!(p[12], Geometry::new(192, 0, 16, 16));
    assert_eq!(p[13], Geometry::new(0, 16, 16, 16));
    assert_eq!(p[129], Geometry::new(192, 144, 16, 16));
}

#[test]
fn bots_in_the_gallery() {
    let foot = Bot::new(BotType::FootBot, 2, 4);
    assert_eq!((foot.get_x(), foot.get_y()), (2, 4));
    assert_eq!(foot.blit(), vec![t(402, 16, 32), t(403, 32, 32), t(400, 16, 16), t(401, 32, 16)]);
    assert_eq!(Bot::new(BotType::TankBot, 0, 0).blit(), vec![t(433, 0, 0), t(434, 16, 0)]);
    assert_eq!(Bot::new(BotType::WallCrawlerRight, 1, 1).blit(), vec![t(429, 8, 8)]);
    assert!(Bot::new(BotType::Helicopter, 1, 1).blit().is_empty());
}

#[test]
fn border_frame() {
    let frame = Borders {}.blit();
    assert_eq!(frame.len(), 87);
    assert_eq!(frame[0], t(1160, 0, 0));
    assert_eq!(frame[1], t(1158, 16, 0));
    assert_eq!(frame[frame.len() - 1], t(1167, 304, 176));
}

#[test]
fn health_bar() {
    let life = Borders {}.blit_life(3);
    assert_eq!(life.len(), 8);
    assert_eq!(life[0], t(1205, 240, 60));
    assert_eq!(life[2], t(1205, 256, 60));
    assert_eq!(life[3], t(1206, 264, 60));
    assert!(Borders {}.blit_life(200).iter().all(|d| d.tile == 1205));
}

#[test]
fn score_digits() {
    let b = Borders {};
    let (digits, x, y) = b.blit_score(1234);
    assert_eq!(string_from_chars(&digits), "00001234");
    assert_eq!((x, y), (240, 24));
    assert_eq!(string_from_chars(&b.blit_score(123456789).0), "99999999");
}

#[test]
fn firepower_panel() {
    let mut events = Vec::new();
    let mut f = Firepower::new();
    f.increase(2, &mut events);
    let panel = Borders {}.blit_firepower(&f);
    assert_eq!(panel[0], t(685, 264, 96));
    assert_eq!(panel.len(), 1 + f.num_shots() as usize);
    assert_eq!(panel[1], t(706, 240, 112));
}

#[test]
fn inventory_panel() {
    let mut events = Vec::new();
    let mut inv = Inventory::new();
    assert!(Borders {}.blit_inventory(&inv).is_empty());
    inv.set(InventoryItem::KeyBlue, &mut events);
    inv.set(InventoryItem::Glove, &mut events);
    assert_eq!(Borders {}.blit_inventory(&inv), vec![t(708, 272, 144), t(701, 256, 160)]);
}

#[test]
fn episode_data_file_names() {
    let names = freenukum::episodes::data_file_names(1);
    assert_eq!(names.len(), 46);
    assert_eq!(names[0], "anim0.dn1");
    assert_eq!(names[16], "duke1-b.dn1");
    assert_eq!(freenukum::episodes::data_file_names(12)[45], "worldalc.dn12");
}

#[test]
fn menu_labels() {
    let entries = freenukum::mainmenu::mainmenu_entries();
    assert_eq!(entries.len(), 12);
    assert_eq!(entries[0].label(), "S)tart a new game");
    assert_eq!(entries[11].label(), "Q)uit to OS");
    assert_eq!(MainMenuEntry::Invalid.label(), "");
    for e in entries {
        let key: char = e.into();
        assert_eq!(MainMenuEntry::from(key), e);
    }
}

#[test]
fn letters_of_the_bonus_word() {
    assert_eq!(FetchedLetter::try_from('d'), Ok(FetchedLetter::D));
    assert_eq!(FetchedLetter::try_from('E'), Ok(FetchedLetter::E));
    assert_eq!(FetchedLetter::try_from('x'), Err(String::from("Unknown hero letter 'x'")));
    assert_eq!(FetchedLetter::try_from('\n'), Err(String::from("Unknown hero letter '\\n'")));
}
