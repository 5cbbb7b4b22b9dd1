//! The bots shown in the gallery of enemies.

use vstd::prelude::*;
use crate::consts::{ANIMATION_CARBOT, ANIMATION_FOOTBOT, ANIMATION_WALLCRAWLERBOT_LEFT, ANIMATION_WALLCRAWLERBOT_RIGHT};
use crate::draw::DrawTile;

verus! {

/// The kinds of bots.
#[derive(Clone, Copy, Debug, PartialEq, Eq, Structural)]
pub enum BotType {
    FireWheel,
    FlameGnome,
    FlyingBot,
    FootBot,
    Helicopter,
    Rabbitoid,
    RedBallJumping,
    RedBallLying,
    SnakeBot,
    TankBot,
    WallCrawlerLeft,
    WallCrawlerRight,
    DrProton,
}

/// A bot of some kind, placed on the grid of half tiles.
pub struct Bot {
    bot_type: BotType,
    x: usize,
    y: usize,
}

/// The tiles of a bot of kind `t` whose top left tile is at (`x`, `y`):
/// the walking robot is two tiles wide and two high, drawn from its lower
/// row up; the tank two tiles wide; a wall crawler one tile; the other
/// kinds have no picture yet.
pub open spec fn bot_tiles(t: BotType, x: int, y: int) -> Seq<DrawTile> {
    match t {
        BotType::FootBot => seq![
            DrawTile { tile: (ANIMATION_FOOTBOT + 2) as usize, x: x as i16, y: y as i16 },
            DrawTile { tile: (ANIMATION_FOOTBOT + 3) as usize, x: (x + 16) as i16, y: y as i16 },
            DrawTile { tile: ANIMATION_FOOTBOT, x: x as i16, y: (y - 16) as i16 },
            DrawTile { tile: (ANIMATION_FOOTBOT + 1) as usize, x: (x + 16) as i16, y: (y - 16) as i16 },
        ],
        BotType::TankBot => seq![
            DrawTile { tile: ANIMATION_CARBOT, x: x as i16, y: y as i16 },
            DrawTile { tile: (ANIMATION_CARBOT + 1) as usize, x: (x + 16) as i16, y: y as i16 },
        ],
        BotType::WallCrawlerLeft => seq![DrawTile { tile: ANIMATION_WALLCRAWLERBOT_LEFT, x: x as i16, y: y as i16 }],
        BotType::WallCrawlerRight => seq![DrawTile { tile: ANIMATION_WALLCRAWLERBOT_RIGHT, x: x as i16, y: y as i16 }],
        _ => seq![],
    }
}

impl Bot {
    pub fn new(bot_type: BotType, x: usize, y: usize) -> (b: Self)
        ensures
            b.bot_type() == bot_type,
            b.x() == x,
            b.y() == y,
    {
        Bot { bot_type, x, y }
    }

    pub closed spec fn bot_type(self) -> BotType {
        self.bot_type
    }

    pub closed spec fn x(self) -> usize {
        self.x
    }

    pub closed spec fn y(self) -> usize {
        self.y
    }

    pub fn get_x(&self) -> (r: usize)
        ensures
            r == self.x(),
    {
        self.x
    }

    pub fn get_y(&self) -> (r: usize)
        ensures
            r == self.y(),
    {
        self.y
    }

    /// The tiles of the bot, placed at its grid position in half tiles.
    pub fn blit(&self) -> (r: Vec<DrawTile>)
        requires
            self.x() * 8 <= i16::MAX,
            self.y() * 8 <= i16::MAX,
            self.bot_type() == BotType::FootBot || self.bot_type() == BotType::TankBot ==> self.x() * 8 + 16 <= i16::MAX,
        ensures
            r@ == bot_tiles(self.bot_type(), self.x() * 8, self.y() * 8),
    {
        let x: i16 = (self.x * 8) as i16;
        let y: i16 = (self.y * 8) as i16;
        match self.bot_type {
            BotType::FootBot => vec![
                DrawTile { tile: ANIMATION_FOOTBOT + 2, x, y },
                DrawTile { tile: ANIMATION_FOOTBOT + 3, x: x + 16, y },
                DrawTile { tile: ANIMATION_FOOTBOT, x, y: y - 16 },
                DrawTile { tile: ANIMATION_FOOTBOT + 1, x: x + 16, y: y - 16 },
            ],
            BotType::TankBot => vec![
                DrawTile { tile: ANIMATION_CARBOT, x, y },
                DrawTile { tile: ANIMATION_CARBOT + 1, x: x + 16, y },
            ],
            BotType::WallCrawlerLeft => vec![DrawTile { tile: ANIMATION_WALLCRAWLERBOT_LEFT, x, y }],
            BotType::WallCrawlerRight => vec![DrawTile { tile: ANIMATION_WALLCRAWLERBOT_RIGHT, x, y }],
            _ => Vec::new(),
        }
    }
}

} // verus!
