//! A message box that asks the user to type a line of text: what it shows,
//! where it goes, and what each key press does. Waiting for keys and
//! drawing are up to the caller.

use vstd::prelude::*;
use crate::geometry::Geometry;
use crate::messagebox::{centered, centred};
use crate::inputfield::{after_backspace, after_delete, after_left, after_right, after_symbol, InputField};
use crate::text::string_from_chars;

verus! {

/// How the user left the input box: with the typed text, or by aborting.
#[derive(Debug)]
pub enum Answer {
    Confirmed(String),
    Quit,
}

/// The answer without its text, as a plain code.
#[derive(Clone, Copy, Debug, PartialEq, Eq, Structural)]
pub enum FnInputBoxAnswer {
    Confirmed,
    Quit,
}

/// A key press as the input box sees it: the keys it acts on, and any
/// other key by its key code.
#[derive(Clone, Copy, Debug, PartialEq, Eq, Structural)]
pub enum InputKey {
    BackSpace,
    Delete,
    Left,
    Right,
    Return,
    Escape,
    Code(u32),
}

/// The key codes that type a character: space, the punctuation from `!`
/// to `@` except `%`, the digits, and the letters `a` to `z`.
pub open spec fn symbol_code(code: u32) -> bool {
    (32 <= code <= 36) || (38 <= code <= 64) || (97 <= code <= 122)
}

/// The character a symbol key types: its code, as an upper case letter
/// while shift is held.
pub open spec fn typed_char(code: u32, shift: bool) -> char {
    if shift && 97 <= code <= 122 { (code - 32) as char } else { code as char }
}

/// The keys' labels at the bottom of the box.
pub open spec fn ok_abort() -> Seq<char> {
    seq!['O', 'k', ' ', '(', 'E', 'n', 't', 'e', 'r', ')', ' ', ' ', ' ', 'A', 'b', 'o', 'r', 't', ' ', '(', 'E', 's', 'c', ')']
}

/// The text of the box: the message, a blank line as wide as the input,
/// an empty line, and the keys' labels.
pub open spec fn prompt_text(msg: Seq<char>, max_length: nat) -> Seq<char> {
    msg + seq!['\n'] + Seq::new(max_length, |i: int| ' ') + seq!['\n', '\n'] + ok_abort() + seq!['\n']
}

/// The text the input box shows for `msg`, with room for `max_length`
/// characters.
pub fn prompt(msg: &str, max_length: usize) -> (s: String)
    ensures
        s@ == prompt_text(msg@, max_length as nat),
{
    let mut chars: Vec<char> = Vec::new();
    let ghost m = msg@;
    for c in it: msg.chars()
        invariant
            it.seq() == m,
            chars@ == m.subrange(0, it.index() as int),
    {
        chars.push(c);
        proof {
            assert(chars@ =~= m.subrange(0, it.index() + 1));
        }
    }
    assert(chars@ =~= m);
    chars.push('\n');
    let ghost head = chars@;
    let mut i: usize = 0;
    while i < max_length
        invariant
            i <= max_length,
            chars@ == head + Seq::new(i as nat, |k: int| ' '),
        decreases max_length - i,
    {
        chars.push(' ');
        i = i + 1;
        assert(chars@ =~= head + Seq::new(i as nat, |k: int| ' '));
    }
    let labels = ['O', 'k', ' ', '(', 'E', 'n', 't', 'e', 'r', ')', ' ', ' ', ' ', 'A', 'b', 'o', 'r', 't', ' ', '(', 'E', 's', 'c', ')'];
    chars.push('\n');
    chars.push('\n');
    let ghost body = chars@;
    let mut j: usize = 0;
    while j < 24
        invariant
            j <= 24,
            labels@ == ok_abort(),
            chars@ == body + ok_abort().subrange(0, j as int),
        decreases 24 - j,
    {
        chars.push(labels[j]);
        j = j + 1;
        assert(chars@ =~= body + ok_abort().subrange(0, j as int));
    }
    chars.push('\n');
    assert(chars@ =~= prompt_text(msg@, max_length as nat));
    string_from_chars(&chars)
}

/// Where the box of `box_width` by `box_height` pixels goes on a screen
/// of `screen_width` by `screen_height`: centred. And where the input
/// field goes inside the box: one character in from the left, four lines
/// up from the bottom, `max_length` characters wide and one line high.
pub fn placement(box_width: u16, box_height: u16, screen_width: u16, screen_height: u16, max_length: usize) -> (r: (Geometry, Geometry))
    requires
        box_width <= i16::MAX,
        box_height <= i16::MAX,
        screen_width <= i16::MAX,
        screen_height <= i16::MAX,
        8 * max_length <= usize::MAX,
    ensures
        r.0 == centred(box_width, box_height, screen_width, screen_height),
        r.1 == (Geometry { x: 8, y: (box_height - 32) as i16, w: (8 * max_length) as u16, h: 8 }),
{
    let placed = centered(box_width, box_height, screen_width, screen_height);
    let width: usize = 8 * max_length;
    let field = Geometry {
        x: 8,
        y: box_height as i16 - 32,
        w: #[verifier::truncate] (width as u16),
        h: 8,
    };
    (placed, field)
}

/// What the input box does on a key press: the editing keys edit the
/// field, a symbol key types its character, Return answers with the text
/// and Escape aborts; any other key does nothing.
pub fn process_key(field: &mut InputField, key: InputKey, shift: bool) -> (r: Option<Answer>)
    requires
        old(field).wf(),
    ensures
        final(field).wf(),
        match key {
            InputKey::BackSpace => r is None && final(field)@ == after_backspace(old(field)@),
            InputKey::Delete => r is None && final(field)@ == after_delete(old(field)@),
            InputKey::Left => r is None && final(field)@ == after_left(old(field)@),
            InputKey::Right => r is None && final(field)@ == after_right(old(field)@),
            InputKey::Return => final(field)@ == old(field)@
                && (r matches Some(Answer::Confirmed(text)) && text@ == old(field)@.text),
            InputKey::Escape => final(field)@ == old(field)@ && (r matches Some(Answer::Quit)),
            InputKey::Code(code) => r is None && final(field)@ == if symbol_code(code) {
                after_symbol(old(field)@, typed_char(code, shift))
            } else {
                old(field)@
            },
        },
{
    match key {
        InputKey::BackSpace => {
            field.backspace_pressed();
            None
        },
        InputKey::Delete => {
            field.delete_pressed();
            None
        },
        InputKey::Left => {
            field.left_pressed();
            None
        },
        InputKey::Right => {
            field.right_pressed();
            None
        },
        InputKey::Return => Some(Answer::Confirmed(field.get_text())),
        InputKey::Escape => Some(Answer::Quit),
        InputKey::Code(code) => {
            if (32 <= code && code <= 36) || (38 <= code && code <= 64) || (97 <= code && code <= 122) {
                let b: u8 = code as u8;
                let c: char = if shift && 97 <= b && b <= 122 { (b - 32) as char } else { b as char };
                field.symbol_pressed(c);
            }
            None
        },
    }
}

/// The code of an answer.
pub fn answer_code(answer: &Answer) -> (r: FnInputBoxAnswer)
    ensures
        r == match answer {
            Answer::Confirmed(_) => FnInputBoxAnswer::Confirmed,
            Answer::Quit => FnInputBoxAnswer::Quit,
        },
{
    match answer {
        Answer::Confirmed(_) => FnInputBoxAnswer::Confirmed,
        Answer::Quit => FnInputBoxAnswer::Quit,
    }
}

} // verus!
