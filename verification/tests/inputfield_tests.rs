use freenukum::geometry::Geometry;
use freenukum::inputbox::{answer_code, placement, process_key, prompt, Answer, FnInputBoxAnswer, InputKey};
use freenukum::inputfield::InputField;

fn typed(text: &str, max: usize) -> InputField {
    let mut f = InputField::new(max);
    for c in text.chars() {
        f.symbol_pressed(c);
    }
    f
}

#[test]
fn typing_fills_the_field_up_to_its_length() {
    let f = typed("hello", 3);
    assert_eq!(f.get_text(), "hel");
    assert_eq!(f.cursor_position(), 3);
}

#[test]
fn backspace_removes_left_of_cursor() {
    let mut f = typed("abc", 10);
    f.left_pressed();
    f.backspace_pressed();
    assert_eq!(f.get_text(), "ac");
    assert_eq!(f.cursor_position(), 1);
    f.left_pressed();
    f.backspace_pressed();
    assert_eq!(f.get_text(), "ac");
    assert_eq!(f.cursor_position(), 0);
}

#[test]
fn delete_keeps_the_last_character() {
    let mut f = typed("abc", 10);
    f.delete_pressed();
    assert_eq!(f.get_text(), "abc");
    f.left_pressed();
    f.delete_pressed();
    assert_eq!(f.get_text(), "abc");
    f.left_pressed();
    f.delete_pressed();
    assert_eq!(f.get_text(), "ac");
    assert_eq!(f.cursor_position(), 1);
}

#[test]
fn cursor_stays_within_the_text() {
    let mut f = typed("ab", 10);
    f.right_pressed();
    assert_eq!(f.cursor_position(), 2);
    f.left_pressed();
    f.left_pressed();
    f.left_pressed();
    assert_eq!(f.cursor_position(), 0);
    f.symbol_pressed('x');
    assert_eq!(f.get_text(), "xab");
}

#[test]
fn left_then_right_is_no_move() {
    let mut f = typed("abc", 10);
    f.left_pressed();
    let before = (f.get_text(), f.cursor_position());
    f.left_pressed();
    f.right_pressed();
    assert_eq!((f.get_text(), f.cursor_position()), before);
}

#[test]
fn typing_then_backspace_restores_the_field() {
    let mut f = typed("ad", 10);
    f.left_pressed();
    f.symbol_pressed('b');
    f.backspace_pressed();
    assert_eq!(f.get_text(), "ad");
    assert_eq!(f.cursor_position(), 1);
}

#[test]
fn field_areas_follow_the_cursor() {
    let f = typed("abc", 10);
    let (text, cursor) = f.blit();
    assert_eq!(text, Geometry::new(0, 0, 24, 8));
    assert_eq!(cursor, Geometry::new(24, 1, 1, 6));
}

#[test]
fn prompt_text_has_room_and_labels() {
    assert_eq!(prompt("Name?", 3), "Name?\n   \n\nOk (Enter)   Abort (Esc)\n");
    assert_eq!(prompt("", 0), "\n\n\nOk (Enter)   Abort (Esc)\n");
}

#[test]
fn box_is_centred() {
    let (placed, field) = placement(100, 40, 320, 200, 10);
    assert_eq!(placed, Geometry::new(110, 80, 100, 40));
    assert_eq!(field, Geometry::new(8, 8, 80, 8));
    let (big, _) = placement(331, 40, 320, 200, 1);
    assert_eq!(big.x, -5);
}

#[test]
fn keys_edit_and_finish() {
    let mut f = InputField::new(5);
    assert!(process_key(&mut f, InputKey::Code('a' as u32), true).is_none());
    assert!(process_key(&mut f, InputKey::Code('1' as u32), false).is_none());
    assert!(process_key(&mut f, InputKey::Code('%' as u32), false).is_none());
    assert!(process_key(&mut f, InputKey::Code(300), false).is_none());
    assert_eq!(f.get_text(), "A1");
    assert!(process_key(&mut f, InputKey::Left, false).is_none());
    assert!(process_key(&mut f, InputKey::BackSpace, false).is_none());
    assert_eq!(f.get_text(), "1");
    match process_key(&mut f, InputKey::Return, false) {
        Some(Answer::Confirmed(text)) => assert_eq!(text, "1"),
        _ => panic!("return must answer with the text"),
    }
    match process_key(&mut f, InputKey::Escape, false) {
        Some(Answer::Quit) => {}
        _ => panic!("escape must abort"),
    }
}

#[test]
fn answer_codes() {
    assert_eq!(answer_code(&Answer::Confirmed(String::from("x"))), FnInputBoxAnswer::Confirmed);
    assert_eq!(answer_code(&Answer::Quit), FnInputBoxAnswer::Quit);
}
