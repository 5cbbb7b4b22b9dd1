//! A one-line text input with a cursor.

use vstd::prelude::*;
use crate::consts::FONT_HEIGHT;
use crate::geometry::Geometry;
use crate::text::string_from_chars;

verus! {

/// What an input field holds: its text, the most characters it takes, and
/// the cursor, as the number of characters left of it.
pub struct InputFieldView {
    pub text: Seq<char>,
    pub max_length: nat,
    pub cursor: nat,
}

/// A one-line text input with a cursor.
pub struct InputField {
    text: Vec<char>,
    max_length: usize,
    cursor_position: usize,
}

impl View for InputField {
    type V = InputFieldView;

    closed spec fn view(&self) -> InputFieldView {
        InputFieldView {
            text: self.text@,
            max_length: self.max_length as nat,
            cursor: self.cursor_position as nat,
        }
    }
}

/// The characters the field takes: one byte each when stored as text.
pub open spec fn is_ascii_symbol(c: char) -> bool {
    (c as u32) < 128
}

/// The field after backspace: the character left of the cursor is gone
/// and the cursor moved left, if there was such a character.
pub open spec fn after_backspace(f: InputFieldView) -> InputFieldView {
    if f.cursor > 0 {
        InputFieldView { text: f.text.remove(f.cursor - 1), cursor: (f.cursor - 1) as nat, ..f }
    } else {
        f
    }
}

/// The field after delete: the character right of the cursor is gone, as
/// long as it was not the text's last one.
pub open spec fn after_delete(f: InputFieldView) -> InputFieldView {
    if f.text.len() > 0 && f.cursor < f.text.len() - 1 {
        InputFieldView { text: f.text.remove(f.cursor as int), ..f }
    } else {
        f
    }
}

/// The field after the cursor moved left, if it could.
pub open spec fn after_left(f: InputFieldView) -> InputFieldView {
    if f.cursor > 0 { InputFieldView { cursor: (f.cursor - 1) as nat, ..f } } else { f }
}

/// The field after the cursor moved right, if it could.
pub open spec fn after_right(f: InputFieldView) -> InputFieldView {
    if f.cursor < f.text.len() { InputFieldView { cursor: f.cursor + 1, ..f } } else { f }
}

/// The field after typing `c`: it stands at the cursor, which moves past
/// it, if the field had room.
pub open spec fn after_symbol(f: InputFieldView, c: char) -> InputFieldView {
    if f.text.len() < f.max_length {
        InputFieldView { text: f.text.insert(f.cursor as int, c), cursor: f.cursor + 1, ..f }
    } else {
        f
    }
}

impl InputField {
    /// The cursor stands within the text, and the text is not longer than
    /// the field allows.
    pub open spec fn wf(&self) -> bool {
        self@.cursor <= self@.text.len() && self@.text.len() <= self@.max_length
    }

    pub fn new(max_length: usize) -> (f: Self)
        ensures
            f@ == (InputFieldView { text: Seq::empty(), max_length: max_length as nat, cursor: 0 }),
            f.wf(),
    {
        InputField { text: Vec::new(), max_length, cursor_position: 0 }
    }

    /// Removes the character left of the cursor, if there is one.
    pub fn backspace_pressed(&mut self)
        requires
            old(self).wf(),
        ensures
            final(self).wf(),
            final(self)@ == after_backspace(old(self)@),
    {
        if self.cursor_position > 0 && self.cursor_position <= self.text.len() {
            self.cursor_position -= 1;
            self.text.remove(self.cursor_position);
        }
    }

    /// Removes the character right of the cursor, as long as it is not the
    /// last character of the text.
    pub fn delete_pressed(&mut self)
        requires
            old(self).wf(),
        ensures
            final(self).wf(),
            final(self)@ == after_delete(old(self)@),
    {
        if self.text.len() > 0 && self.cursor_position < self.text.len() - 1 {
            self.text.remove(self.cursor_position);
        }
    }

    pub fn left_pressed(&mut self)
        ensures
            final(self)@ == after_left(old(self)@),
            old(self).wf() ==> final(self).wf(),
    {
        if self.cursor_position > 0 {
            self.cursor_position -= 1;
        }
    }

    pub fn right_pressed(&mut self)
        ensures
            final(self)@ == after_right(old(self)@),
            old(self).wf() ==> final(self).wf(),
    {
        if self.cursor_position < self.text.len() {
            self.cursor_position += 1;
        }
    }

    /// Inserts `symbol` at the cursor and moves the cursor past it, if the
    /// field has room.
    pub fn symbol_pressed(&mut self, symbol: char)
        requires
            old(self).wf(),
            is_ascii_symbol(symbol),
        ensures
            final(self).wf(),
            final(self)@ == after_symbol(old(self)@, symbol),
    {
        if self.text.len() < self.max_length {
            if self.cursor_position == self.text.len() {
                self.text.push(symbol);
                assert(self.text@ =~= old(self)@.text.insert(old(self)@.cursor as int, symbol));
            } else {
                self.text.insert(self.cursor_position, symbol);
            }
            self.cursor_position += 1;
        }
    }

    /// The text typed so far.
    pub fn get_text(&self) -> (s: String)
        ensures
            s@ == self@.text,
    {
        string_from_chars(&self.text)
    }

    /// Where the field draws, in pixels of its own area: the text is
    /// printed into the first rectangle, as wide as the text left of the
    /// cursor, and the cursor is the second, a bar one pixel wide.
    pub fn blit(&self) -> (r: (Geometry, Geometry))
        requires
            self@.cursor * 8 <= usize::MAX,
        ensures
            r.0 == (Geometry { x: 0, y: 0, w: (self@.cursor * 8) as u16, h: 8 }),
            r.1 == (Geometry { x: (self@.cursor * 8) as i16, y: 1, w: 1, h: 6 }),
    {
        let width: usize = self.cursor_position * 8;
        let w: u16 = #[verifier::truncate] (width as u16);
        let x: i16 = #[verifier::truncate] (width as i16);
        let text_area = Geometry { x: 0, y: 0, w, h: FONT_HEIGHT };
        let cursor = Geometry { x, y: 1, w: 1, h: FONT_HEIGHT - 2 };
        (text_area, cursor)
    }

    /// Where the cursor stands, as a number of characters from the left.
    pub fn cursor_position(&self) -> (r: usize)
        ensures
            r == self@.cursor,
    {
        self.cursor_position
    }
}

/// Moving the cursor left and back right again leaves the field unchanged,
/// unless the cursor stood at the start.
pub proof fn lemma_left_right(f: InputFieldView)
    requires
        f.cursor > 0,
        f.cursor <= f.text.len(),
    ensures
        ({
            let l = InputFieldView { cursor: (f.cursor - 1) as nat, ..f };
            let r = if l.cursor < l.text.len() { InputFieldView { cursor: l.cursor + 1, ..l } } else { l };
            r == f
        }),
{
}

/// Typing a character and erasing it with backspace gives back the text
/// and cursor from before, when the field had room for the character.
pub proof fn lemma_symbol_then_backspace(f: InputFieldView, c: char)
    requires
        f.cursor <= f.text.len(),
        f.text.len() < f.max_length,
    ensures
        ({
            let typed = InputFieldView { text: f.text.insert(f.cursor as int, c), cursor: f.cursor + 1, ..f };
            let erased = InputFieldView {
                text: typed.text.remove(typed.cursor - 1),
                cursor: (typed.cursor - 1) as nat,
                ..typed
            };
            erased == f
        }),
{
    let typed_text = f.text.insert(f.cursor as int, c);
    assert(typed_text.remove(f.cursor as int) =~= f.text);
}

} // verus!
