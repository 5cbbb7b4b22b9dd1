//! Message boxes: a blue frame around some lines of text, laid out in font
//! cells of 8 by 8 pixels.

use vstd::prelude::*;
use crate::consts::{
    BORDER_BLUE_BOTTOM, BORDER_BLUE_BOTTOMLEFT, BORDER_BLUE_BOTTOMRIGHT, BORDER_BLUE_LEFT,
    BORDER_BLUE_MIDDLE, BORDER_BLUE_RIGHT, BORDER_BLUE_TOP, BORDER_BLUE_TOPLEFT,
    BORDER_BLUE_TOPRIGHT, FONT_HEIGHT, FONT_WIDTH,
};
use crate::draw::DrawTile;
use crate::geometry::Geometry;

verus! {

/// Number of bytes of `c` in UTF-8.
pub open spec fn utf8_len(c: char) -> nat {
    if (c as u32) < 0x80 { 1 } else if (c as u32) < 0x800 { 2 } else if (c as u32) < 0x10000 { 3 } else { 4 }
}

/// What is known about the lines of a text after reading part of it: the
/// widest finished line and the number of finished lines, the byte length
/// of the line being read, whether its last character was a carriage
/// return, and whether a line is being read at all.
pub struct LineScan {
    pub columns: nat,
    pub rows: nat,
    pub current: nat,
    pub after_cr: bool,
    pub in_line: bool,
}

pub open spec fn max_nat(a: nat, b: nat) -> nat {
    if a < b { b } else { a }
}

/// Reads the text's lines as `str::lines` splits them: a line ends at a
/// line feed, a carriage return right before the line feed belongs to the
/// line ending, and a last line without line feed still counts.
pub open spec fn scan_lines(s: Seq<char>) -> LineScan
    decreases s.len(),
{
    if s.len() == 0 {
        LineScan { columns: 0, rows: 0, current: 0, after_cr: false, in_line: false }
    } else {
        let st = scan_lines(s.drop_last());
        let c = s.last();
        if c == '\n' {
            let len: nat = if st.after_cr { (st.current - 1) as nat } else { st.current };
            LineScan { columns: max_nat(st.columns, len), rows: st.rows + 1, current: 0, after_cr: false, in_line: false }
        } else {
            LineScan { current: st.current + utf8_len(c), after_cr: c == '\r', in_line: true, ..st }
        }
    }
}

/// The byte length of the widest line of the text, and its number of lines.
pub open spec fn text_information(s: Seq<char>) -> (nat, nat) {
    let st = scan_lines(s);
    if st.in_line { (max_nat(st.columns, st.current), st.rows + 1) } else { (st.columns, st.rows) }
}

proof fn lemma_scan_bounds(s: Seq<char>)
    ensures
        scan_lines(s).columns <= 4 * s.len(),
        scan_lines(s).rows <= s.len(),
        scan_lines(s).current + 4 * scan_lines(s).rows <= 4 * s.len(),
        scan_lines(s).after_cr ==> scan_lines(s).current >= 1,
        scan_lines(s).in_line ==> scan_lines(s).rows < s.len(),
    decreases s.len(),
{
    if s.len() > 0 {
        lemma_scan_bounds(s.drop_last());
    }
}

/// The width of the widest line of `text`, in bytes, and the number of its
/// lines.
pub fn get_information(text: &str) -> (r: (usize, usize))
    requires
        text@.len() <= usize::MAX / 4,
    ensures
        r.0 == text_information(text@).0,
        r.1 == text_information(text@).1,
{
    let mut columns: usize = 0;
    let mut rows: usize = 0;
    let mut current: usize = 0;
    let mut after_cr = false;
    let mut in_line = false;
    let ghost s = text@;
    for c in it: text.chars()
        invariant
            it.seq() == s,
            s.len() <= usize::MAX / 4,
            ({
                let st = scan_lines(s.subrange(0, it.index() as int));
                &&& columns == st.columns
                &&& rows == st.rows
                &&& current == st.current
                &&& after_cr == st.after_cr
                &&& in_line == st.in_line
            }),
    {
        let ghost i = it.index();
        proof {
            lemma_scan_bounds(s.subrange(0, i as int));
            assert(s.subrange(0, i + 1).drop_last() =~= s.subrange(0, i as int));
        }
        if c == '\n' {
            let len = if after_cr { current - 1 } else { current };
            if columns < len {
                columns = len;
            }
            rows = rows + 1;
            current = 0;
            after_cr = false;
            in_line = false;
        } else {
            let n: usize = if (c as u32) < 0x80 { 1 } else if (c as u32) < 0x800 { 2 } else if (c as u32) < 0x10000 { 3 } else { 4 };
            current = current + n;
            after_cr = c == '\r';
            in_line = true;
        }
    }
    proof {
        assert(s.subrange(0, s.len() as int) =~= s);
        lemma_scan_bounds(s);
    }
    if in_line {
        if columns < current {
            columns = current;
        }
        rows = rows + 1;
    }
    (columns, rows)
}

/// The frame tile of a message box of `columns` by `rows` cells at cell
/// (`col`, `row`).
pub open spec fn spec_frame_tile(row: nat, col: nat, rows: nat, columns: nat) -> usize {
    if row == 0 && col == 0 {
        BORDER_BLUE_TOPLEFT
    } else if row == 0 && col == columns {
        BORDER_BLUE_TOPRIGHT
    } else if row == rows && col == 0 {
        BORDER_BLUE_BOTTOMLEFT
    } else if row == rows && col == columns {
        BORDER_BLUE_BOTTOMRIGHT
    } else if row == 0 {
        BORDER_BLUE_TOP
    } else if col == 0 {
        BORDER_BLUE_LEFT
    } else if row == rows {
        BORDER_BLUE_BOTTOM
    } else if col == columns {
        BORDER_BLUE_RIGHT
    } else {
        BORDER_BLUE_MIDDLE
    }
}

fn frame_tile(row: usize, col: usize, rows: usize, columns: usize) -> (t: usize)
    ensures
        t == spec_frame_tile(row as nat, col as nat, rows as nat, columns as nat),
{
    if row == 0 && col == 0 {
        BORDER_BLUE_TOPLEFT
    } else if row == 0 && col == columns {
        BORDER_BLUE_TOPRIGHT
    } else if row == rows && col == 0 {
        BORDER_BLUE_BOTTOMLEFT
    } else if row == rows && col == columns {
        BORDER_BLUE_BOTTOMRIGHT
    } else if row == 0 {
        BORDER_BLUE_TOP
    } else if col == 0 {
        BORDER_BLUE_LEFT
    } else if row == rows {
        BORDER_BLUE_BOTTOM
    } else if col == columns {
        BORDER_BLUE_RIGHT
    } else {
        BORDER_BLUE_MIDDLE
    }
}

/// The pieces of a message box: its size in pixels, the frame tiles, and
/// where its text starts.
pub struct MessageBox {
    pub width: u16,
    pub height: u16,
    pub frame: Vec<DrawTile>,
    pub text_x: i16,
    pub text_y: i16,
}

/// The frame tile for cell number `k` of the frame, counted row by row.
pub open spec fn frame_cell(k: int, rows: nat, columns: nat) -> DrawTile {
    let row = k / (columns + 1) as int;
    let col = k % (columns + 1) as int;
    DrawTile {
        tile: spec_frame_tile(row as nat, col as nat, rows, columns),
        x: (col * 8) as i16,
        y: (row * 8) as i16,
    }
}

/// Lays out a message box that shows `text`: one cell of a character's
/// size more than the text on each side, a frame of border tiles drawn on
/// the cells from the top left one to the one at the text's column and row
/// count, and the text starting one cell in from the top left corner.
pub fn messagebox(text: &str) -> (m: MessageBox)
    requires
        text@.len() <= usize::MAX / 4,
        text_information(text@).0 * 8 <= i16::MAX,
        text_information(text@).1 * 8 <= i16::MAX,
    ensures
        ({
            let (columns, rows) = text_information(text@);
            &&& m.width == (columns + 2) * 8
            &&& m.height == (rows + 2) * 8
            &&& m.text_x == 8 && m.text_y == 8
            &&& m.frame@.len() == (rows + 1) * (columns + 1)
            &&& forall|k: int| 0 <= k < m.frame@.len() ==> #[trigger] m.frame@[k] == frame_cell(k, rows, columns)
        }),
{
    let (columns, rows) = get_information(text);
    let mut frame: Vec<DrawTile> = Vec::new();
    let mut row: usize = 0;
    while row <= rows
        invariant
            columns * 8 <= i16::MAX,
            rows * 8 <= i16::MAX,
            row <= rows + 1,
            frame@.len() == row * (columns + 1),
            forall|k: int| 0 <= k < frame@.len() ==> #[trigger] frame@[k] == frame_cell(k, rows as nat, columns as nat),
        decreases rows + 1 - row,
    {
        let mut col: usize = 0;
        while col <= columns
            invariant
                columns * 8 <= i16::MAX,
                rows * 8 <= i16::MAX,
                row <= rows,
                col <= columns + 1,
                frame@.len() == row * (columns + 1) + col,
                forall|k: int| 0 <= k < frame@.len() ==> #[trigger] frame@[k] == frame_cell(k, rows as nat, columns as nat),
            decreases columns + 1 - col,
        {
            let tile = frame_tile(row, col, rows, columns);
            let ghost k = frame@.len() as int;
            proof {
                assert(k == row * (columns + 1) + col);
                vstd::arithmetic::div_mod::lemma_fundamental_div_mod_converse(
                    k, (columns + 1) as int, row as int, col as int);
            }
            frame.push(DrawTile {
                tile,
                x: (col * 8) as i16,
                y: (row * 8) as i16,
            });
            col = col + 1;
        }
        assert((row + 1) * (columns + 1) == row * (columns + 1) + columns + 1) by (nonlinear_arith);
        row = row + 1;
    }
    MessageBox {
        width: ((columns + 2) * 8) as u16,
        height: ((rows + 2) * 8) as u16,
        frame,
        text_x: FONT_WIDTH as i16,
        text_y: FONT_HEIGHT as i16,
    }
}

/// `v / 2` rounded towards zero, as integer division does.
pub open spec fn half(v: int) -> int {
    if v >= 0 { v / 2 } else { -((-v) / 2) }
}

/// A box of `box_width` by `box_height` pixels centred on a screen of
/// `screen_width` by `screen_height`.
pub open spec fn centred(box_width: u16, box_height: u16, screen_width: u16, screen_height: u16) -> Geometry {
    Geometry {
        x: half(screen_width - box_width) as i16,
        y: half(screen_height - box_height) as i16,
        w: box_width,
        h: box_height,
    }
}

/// Where a message box goes on the screen: centred.
pub fn centered(box_width: u16, box_height: u16, screen_width: u16, screen_height: u16) -> (g: Geometry)
    requires
        box_width <= i16::MAX,
        box_height <= i16::MAX,
        screen_width <= i16::MAX,
        screen_height <= i16::MAX,
    ensures
        g == centred(box_width, box_height, screen_width, screen_height),
{
    let dx: i16 = screen_width as i16 - box_width as i16;
    let dy: i16 = screen_height as i16 - box_height as i16;
    Geometry { x: dx / 2, y: dy / 2, w: box_width, h: box_height }
}

} // verus!
