//! The status borders around the play field: the grey frame, the health
//! bar, the score, the firepower and the inventory. Each function here says
//! which tiles go where; drawing them is up to the caller.

use vstd::prelude::*;
use crate::consts::{
    BORDER_GREY_START, FONT_HEIGHT, FONT_WIDTH, MAX_FIREPOWER, MAX_LIFE, OBJECT_ACCESS_CARD, OBJECT_BOOT, OBJECT_CLAMP,
    OBJECT_GLOVE, OBJECT_GUN, OBJECT_HEALTH, OBJECT_KEY_BLUE, OBJECT_KEY_GREEN, OBJECT_KEY_PINK,
    OBJECT_KEY_RED, OBJECT_NONHEALTH, OBJECT_SHOT, SCORE_DIGITS,
};
use crate::draw::DrawTile;
use crate::hero::{Firepower, Inventory, InventoryItem};
use crate::text::{decimal_padded, spec_decimal_padded};

verus! {

/// Lays out `cells` row by row, `columns` to a row, each cell `gx` by
/// `gy` pixels, starting at (`ox`, `oy`); an empty cell draws nothing.
pub open spec fn grid_layout(cells: Seq<Option<usize>>, columns: int, gx: int, gy: int, ox: int, oy: int) -> Seq<DrawTile>
    decreases cells.len(),
{
    if cells.len() == 0 {
        seq![]
    } else {
        let i = cells.len() - 1;
        let rest = grid_layout(cells.drop_last(), columns, gx, gy, ox, oy);
        match cells.last() {
            Some(t) => rest.push(DrawTile {
                tile: t,
                x: (ox + (i % columns) * gx) as i16,
                y: (oy + (i / columns) * gy) as i16,
            }),
            None => rest,
        }
    }
}

/// The piece of the grey frame in cell `i` of the 40 by 25 grid of half
/// tiles that covers the window, counted from the border set's first tile.
pub open spec fn frame_piece(i: usize) -> Option<usize> {
    match i {
            0 => Some(4), 2 => Some(2), 4 => Some(2), 6 => Some(2), 8 => Some(2), 10 => Some(2),
            12 => Some(2), 14 => Some(2), 16 => Some(2), 18 => Some(2), 20 => Some(2), 22 => Some(2),
            24 => Some(2), 26 => Some(2), 28 => Some(5), 30 => Some(8), 32 => Some(38), 34 => Some(39),
            36 => Some(8), 38 => Some(9), 80 => Some(0), 108 => Some(1), 118 => Some(10),
            160 => Some(0), 188 => Some(1), 198 => Some(10), 228 => Some(14), 230 => Some(8),
            232 => Some(36), 234 => Some(37), 236 => Some(8), 238 => Some(15), 240 => Some(0),
            308 => Some(1), 318 => Some(10), 320 => Some(0), 348 => Some(1), 358 => Some(10),
            400 => Some(0), 428 => Some(14), 430 => Some(8), 431 => Some(33), 433 => Some(34),
            435 => Some(35), 437 => Some(8), 438 => Some(15), 480 => Some(0), 508 => Some(1),
            518 => Some(10), 560 => Some(0), 588 => Some(1), 598 => Some(10), 640 => Some(0),
            668 => Some(14), 670 => Some(8), 671 => Some(30), 673 => Some(31), 675 => Some(32),
            677 => Some(8), 678 => Some(15), 720 => Some(0), 748 => Some(1), 758 => Some(10),
            800 => Some(0), 828 => Some(1), 838 => Some(10), 880 => Some(7), 882 => Some(3),
            884 => Some(3), 886 => Some(3), 888 => Some(3), 890 => Some(3), 891 => Some(26),
            893 => Some(27), 895 => Some(28), 897 => Some(29), 899 => Some(3), 900 => Some(3),
            902 => Some(3), 904 => Some(3), 906 => Some(3), 908 => Some(6), 910 => Some(8),
            912 => Some(8), 914 => Some(8), 916 => Some(8), 918 => Some(11),
        _ => None,
    }
}

fn frame_piece_at(i: usize) -> (r: Option<usize>)
    ensures
        r == frame_piece(i),
{
    match i {
            0 => Some(4), 2 => Some(2), 4 => Some(2), 6 => Some(2), 8 => Some(2), 10 => Some(2),
            12 => Some(2), 14 => Some(2), 16 => Some(2), 18 => Some(2), 20 => Some(2), 22 => Some(2),
            24 => Some(2), 26 => Some(2), 28 => Some(5), 30 => Some(8), 32 => Some(38), 34 => Some(39),
            36 => Some(8), 38 => Some(9), 80 => Some(0), 108 => Some(1), 118 => Some(10),
            160 => Some(0), 188 => Some(1), 198 => Some(10), 228 => Some(14), 230 => Some(8),
            232 => Some(36), 234 => Some(37), 236 => Some(8), 238 => Some(15), 240 => Some(0),
            308 => Some(1), 318 => Some(10), 320 => Some(0), 348 => Some(1), 358 => Some(10),
            400 => Some(0), 428 => Some(14), 430 => Some(8), 431 => Some(33), 433 => Some(34),
            435 => Some(35), 437 => Some(8), 438 => Some(15), 480 => Some(0), 508 => Some(1),
            518 => Some(10), 560 => Some(0), 588 => Some(1), 598 => Some(10), 640 => Some(0),
            668 => Some(14), 670 => Some(8), 671 => Some(30), 673 => Some(31), 675 => Some(32),
            677 => Some(8), 678 => Some(15), 720 => Some(0), 748 => Some(1), 758 => Some(10),
            800 => Some(0), 828 => Some(1), 838 => Some(10), 880 => Some(7), 882 => Some(3),
            884 => Some(3), 886 => Some(3), 888 => Some(3), 890 => Some(3), 891 => Some(26),
            893 => Some(27), 895 => Some(28), 897 => Some(29), 899 => Some(3), 900 => Some(3),
            902 => Some(3), 904 => Some(3), 906 => Some(3), 908 => Some(6), 910 => Some(8),
            912 => Some(8), 914 => Some(8), 916 => Some(8), 918 => Some(11),
        _ => None,
    }
}

/// The cells of the grey frame, with the border set's tile numbers.
pub open spec fn frame_cells() -> Seq<Option<usize>> {
    Seq::new(1000, |i: int| match frame_piece(i as usize) {
        Some(p) => Some((p + BORDER_GREY_START) as usize),
        None => None,
    })
}

/// The health bar: one full point for each point of `health`, up to the
/// most the bar shows, then empty ones.
pub open spec fn life_cells(health: u8) -> Seq<Option<usize>> {
    Seq::new(MAX_LIFE as nat, |i: int| if i < health { Some(OBJECT_HEALTH) } else { Some(OBJECT_NONHEALTH) })
}

/// The firepower panel, four shots wide and two tiles high in half tiles:
/// the gun in the top row and one shot for each shot the hero has below.
pub open spec fn firepower_cells(shots: u8) -> Seq<Option<usize>> {
    Seq::new(32, |i: int|
        if i == 3 {
            Some(OBJECT_GUN)
        } else if i == 16 || i == 18 || i == 20 || i == 22 {
            if shots > (i - 16) / 2 { Some(OBJECT_SHOT) } else { None }
        } else {
            None
        })
}

/// Which inventory item shows in which slot, and with which tile: the four
/// keys in the top row, boot, glove, clamp and access card below.
pub open spec fn slot_item(i: int) -> (InventoryItem, usize) {
    if i == 0 { (InventoryItem::KeyRed, OBJECT_KEY_RED) }
    else if i == 1 { (InventoryItem::KeyGreen, OBJECT_KEY_GREEN) }
    else if i == 2 { (InventoryItem::KeyBlue, OBJECT_KEY_BLUE) }
    else if i == 3 { (InventoryItem::KeyPink, OBJECT_KEY_PINK) }
    else if i == 4 { (InventoryItem::Boot, OBJECT_BOOT) }
    else if i == 5 { (InventoryItem::Glove, OBJECT_GLOVE) }
    else if i == 6 { (InventoryItem::Clamp, OBJECT_CLAMP) }
    else { (InventoryItem::AccessCard, OBJECT_ACCESS_CARD) }
}

/// The inventory panel: each slot shows its item if the hero has it.
pub open spec fn inventory_cells(items: Set<InventoryItem>) -> Seq<Option<usize>> {
    Seq::new(8, |i: int| if items.contains(slot_item(i).0) { Some(slot_item(i).1) } else { None })
}

/// The status borders.
pub struct Borders {}

impl Borders {
    /// Lays out `cells` as [`grid_layout`] does.
    fn blit_iter(cells: &Vec<Option<usize>>, columns: u16, grid_x: u16, grid_y: u16, origin_x: i16, origin_y: i16) -> (r: Vec<DrawTile>)
        requires
            0 < columns <= 40,
            cells.len() <= 1000,
            grid_x <= 16,
            grid_y <= 16,
            0 <= origin_x <= 320,
            0 <= origin_y <= 200,
        ensures
            r@ == grid_layout(cells@, columns as int, grid_x as int, grid_y as int, origin_x as int, origin_y as int),
    {
        let mut r: Vec<DrawTile> = Vec::new();
        let mut i: usize = 0;
        while i < cells.len()
            invariant
                i <= cells.len(),
                0 < columns <= 40,
                cells.len() <= 1000,
                grid_x <= 16,
                grid_y <= 16,
                0 <= origin_x <= 320,
                0 <= origin_y <= 200,
                r@ == grid_layout(cells@.subrange(0, i as int), columns as int, grid_x as int, grid_y as int, origin_x as int, origin_y as int),
            decreases cells.len() - i,
        {
            let ghost prefix = cells@.subrange(0, i + 1);
            assert(prefix.drop_last() =~= cells@.subrange(0, i as int));
            if let Some(t) = cells[i] {
                let c: usize = columns as usize;
                let col: usize = i % c;
                let row: usize = i / c;
                assert(col * (grid_x as usize) <= 40 * 16) by (nonlinear_arith)
                    requires
                        col < c,
                        c <= 40,
                        grid_x <= 16,
                ;
                assert(row <= i) by (nonlinear_arith)
                    requires
                        row == i / c,
                        c >= 1,
                ;
                assert(row * (grid_y as usize) <= 1000 * 16) by (nonlinear_arith)
                    requires
                        row <= 1000,
                        grid_y <= 16,
                ;
                let x: i16 = origin_x + (col * (grid_x as usize)) as i16;
                let y: i16 = origin_y + (row * (grid_y as usize)) as i16;
                r.push(DrawTile { tile: t, x, y });
            }
            i = i + 1;
        }
        assert(cells@.subrange(0, cells.len() as int) =~= cells@);
        r
    }

    /// The grey frame around the play field and the status panels, laid
    /// out on a grid of half tiles that covers the window.
    pub fn blit(&self) -> (r: Vec<DrawTile>)
        ensures
            r@ == grid_layout(frame_cells(), 40, 8, 8, 0, 0),
    {
        let mut cells: Vec<Option<usize>> = Vec::new();
        let mut i: usize = 0;
        while i < 1000
            invariant
                i <= 1000,
                cells@ == frame_cells().subrange(0, i as int),
            decreases 1000 - i,
        {
            let cell = match frame_piece_at(i) {
                Some(p) => Some(p + BORDER_GREY_START),
                None => None,
            };
            cells.push(cell);
            i = i + 1;
            assert(cells@ =~= frame_cells().subrange(0, i as int));
        }
        assert(cells@ =~= frame_cells());
        Self::blit_iter(&cells, 40, 8, 8, 0, 0)
    }

    /// The health bar, at the right of the window.
    pub fn blit_life(&self, health: u8) -> (r: Vec<DrawTile>)
        ensures
            r@ == grid_layout(life_cells(health), MAX_LIFE as int, 8, 8, 240, 60),
    {
        let mut cells: Vec<Option<usize>> = Vec::new();
        let mut i: usize = 0;
        while i < MAX_LIFE
            invariant
                i <= MAX_LIFE,
                cells@ == life_cells(health).subrange(0, i as int),
            decreases MAX_LIFE - i,
        {
            if i < health as usize {
                cells.push(Some(OBJECT_HEALTH));
            } else {
                cells.push(Some(OBJECT_NONHEALTH));
            }
            i = i + 1;
            assert(cells@ =~= life_cells(health).subrange(0, i as int));
        }
        assert(cells@ =~= life_cells(health));
        Self::blit_iter(&cells, 8, 8, 8, 240, 60)
    }

    /// The score as the status border shows it, and where its text starts:
    /// at most 99999999, with leading zeros to eight digits, printed at
    /// (240, 24).
    pub fn blit_score(&self, score: u64) -> (r: (Vec<char>, i16, i16))
        ensures
            r.0@ == spec_decimal_padded(if score < 99999999 { score as nat } else { 99999999 }, SCORE_DIGITS as nat),
            r.1 == 240,
            r.2 == 24,
    {
        let shown: u64 = if score < 99999999 { score } else { 99999999 };
        (decimal_padded(shown, SCORE_DIGITS), 30 * FONT_WIDTH as i16, 3 * FONT_HEIGHT as i16)
    }

    /// The firepower panel: the gun and one shot for each shot the hero
    /// has.
    pub fn blit_firepower(&self, firepower: &Firepower) -> (r: Vec<DrawTile>)
        ensures
            r@ == grid_layout(firepower_cells(firepower@), (MAX_FIREPOWER * 2) as int, 8, 8, 240, 96),
    {
        let shots = firepower.num_shots();
        let mut cells: Vec<Option<usize>> = Vec::new();
        let mut i: usize = 0;
        while i < 32
            invariant
                i <= 32,
                shots == firepower@,
                cells@ == firepower_cells(shots).subrange(0, i as int),
            decreases 32 - i,
        {
            if i == 3 {
                cells.push(Some(OBJECT_GUN));
            } else if i == 16 || i == 18 || i == 20 || i == 22 {
                if (shots as usize) > (i - 16) / 2 {
                    cells.push(Some(OBJECT_SHOT));
                } else {
                    cells.push(None);
                }
            } else {
                cells.push(None);
            }
            i = i + 1;
            assert(cells@ =~= firepower_cells(shots).subrange(0, i as int));
        }
        assert(cells@ =~= firepower_cells(shots));
        Self::blit_iter(&cells, (MAX_FIREPOWER * 2) as u16, 8, 8, 240, 96)
    }

    /// The inventory panel: four slots in two rows, each showing its item
    /// if the hero has it.
    pub fn blit_inventory(&self, inventory: &Inventory) -> (r: Vec<DrawTile>)
        ensures
            r@ == grid_layout(inventory_cells(inventory@), 4, 16, 16, 240, 144),
    {
        let mut cells: Vec<Option<usize>> = Vec::new();
        let mut i: usize = 0;
        while i < 8
            invariant
                i <= 8,
                cells@ == inventory_cells(inventory@).subrange(0, i as int),
            decreases 8 - i,
        {
            let (item, tile) = if i == 0 {
                (InventoryItem::KeyRed, OBJECT_KEY_RED)
            } else if i == 1 {
                (InventoryItem::KeyGreen, OBJECT_KEY_GREEN)
            } else if i == 2 {
                (InventoryItem::KeyBlue, OBJECT_KEY_BLUE)
            } else if i == 3 {
                (InventoryItem::KeyPink, OBJECT_KEY_PINK)
            } else if i == 4 {
                (InventoryItem::Boot, OBJECT_BOOT)
            } else if i == 5 {
                (InventoryItem::Glove, OBJECT_GLOVE)
            } else if i == 6 {
                (InventoryItem::Clamp, OBJECT_CLAMP)
            } else {
                (InventoryItem::AccessCard, OBJECT_ACCESS_CARD)
            };
            if inventory.is_set(item) {
                cells.push(Some(tile));
            } else {
                cells.push(None);
            }
            i = i + 1;
            assert(cells@ =~= inventory_cells(inventory@).subrange(0, i as int));
        }
        assert(cells@ =~= inventory_cells(inventory@));
        Self::blit_iter(&cells, 4, 16, 16, 240, 144)
    }
}

/// The icon of each inventory item.
pub open spec fn item_icon(item: InventoryItem) -> usize {
    match item {
        InventoryItem::KeyRed => OBJECT_KEY_RED,
        InventoryItem::KeyGreen => OBJECT_KEY_GREEN,
        InventoryItem::KeyBlue => OBJECT_KEY_BLUE,
        InventoryItem::KeyPink => OBJECT_KEY_PINK,
        InventoryItem::Boot => OBJECT_BOOT,
        InventoryItem::Glove => OBJECT_GLOVE,
        InventoryItem::Clamp => OBJECT_CLAMP,
        InventoryItem::AccessCard => OBJECT_ACCESS_CARD,
    }
}

/// The slot of each inventory item in the panel: the keys red, green,
/// blue, pink in the top row, boot, glove, clamp, access card below.
pub open spec fn item_slot(item: InventoryItem) -> int {
    match item {
        InventoryItem::KeyRed => 0,
        InventoryItem::KeyGreen => 1,
        InventoryItem::KeyBlue => 2,
        InventoryItem::KeyPink => 3,
        InventoryItem::Boot => 4,
        InventoryItem::Glove => 5,
        InventoryItem::Clamp => 6,
        InventoryItem::AccessCard => 7,
    }
}

/// Each item's slot of the inventory panel shows that item's own icon
/// exactly when the hero has the item, and nothing otherwise; the panel
/// has one slot per item.
pub proof fn lemma_inventory_slots_show_their_items(items: Set<InventoryItem>, item: InventoryItem)
    ensures
        inventory_cells(items).len() == 8,
        inventory_cells(items)[item_slot(item)]
            == if items.contains(item) { Some(item_icon(item)) } else { None },
{
}

} // verus!
