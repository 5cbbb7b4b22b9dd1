//! Sizes of the game's grids and the numbers of its tiles in the tile
//! cache.

use vstd::prelude::*;

verus! {

/// Width of one tile in pixels.
pub const TILE_WIDTH: u16 = 16;
/// Height of one tile in pixels.
pub const TILE_HEIGHT: u16 = 16;
/// Width of half a tile in pixels.
pub const HALFTILE_WIDTH: u16 = 8;
/// Height of half a tile in pixels.
pub const HALFTILE_HEIGHT: u16 = 8;

/// Width of a level in tiles.
pub const LEVEL_WIDTH: usize = 128;
/// Height of a level in tiles.
pub const LEVEL_HEIGHT: usize = 90;

} // verus!

verus! {

/// Horizontal size of the level in pixels.
pub const LEVEL_PIXEL_WIDTH: i16 = 2048;
/// Vertical size of the level in pixels.
pub const LEVEL_PIXEL_HEIGHT: i16 = 1440;

/// First tile of the hero sprite sheet in the tile cache.
pub const HERO_START: usize = 816;
pub const HERO_WALKING_LEFT: usize = 816;
pub const HERO_WALKING_RIGHT: usize = 832;
pub const HERO_STANDING_LEFT: usize = 848;
pub const HERO_STANDING_RIGHT: usize = 852;
pub const HERO_JUMPING_LEFT: usize = 856;
pub const HERO_JUMPING_RIGHT: usize = 860;
pub const HERO_FALLING_LEFT: usize = 864;
pub const HERO_FALLING_RIGHT: usize = 868;
pub const HERO_SKELETON_LEFT: usize = 872;
pub const HERO_SKELETON_RIGHT: usize = 876;

/// Number of animation frames of each hero pose.
pub const HERO_NUM_WALKING: usize = 4;
pub const HERO_NUM_STANDING: usize = 1;
pub const HERO_NUM_JUMPING: usize = 1;
pub const HERO_NUM_FALLING: usize = 1;

} // verus!

verus! {

/// Width of one font character in pixels.
pub const FONT_WIDTH: u16 = 8;
/// Height of one font character in pixels.
pub const FONT_HEIGHT: u16 = 8;

/// First tile of the status border set.
pub const BORDER_GREY_START: usize = 1156;
/// The tiles that frame a message box.
pub const BORDER_BLUE_TOPLEFT: usize = 1196;
pub const BORDER_BLUE_TOP: usize = 1197;
pub const BORDER_BLUE_TOPRIGHT: usize = 1198;
pub const BORDER_BLUE_LEFT: usize = 1199;
pub const BORDER_BLUE_MIDDLE: usize = 1200;
pub const BORDER_BLUE_RIGHT: usize = 1201;
pub const BORDER_BLUE_BOTTOMLEFT: usize = 1202;
pub const BORDER_BLUE_BOTTOM: usize = 1203;
pub const BORDER_BLUE_BOTTOMRIGHT: usize = 1204;

} // verus!

verus! {

/// Where each group of tiles starts in the tile cache.
pub const SOLID_START: usize = 192;
pub const ANIMATION_START: usize = 384;
pub const OBJECT_START: usize = 672;

/// Object tiles; a tile with several frames is followed by the others.
pub const OBJECT_BOX_GREY: usize = 672;
pub const OBJECT_BOX_BLUE: usize = 673;
pub const OBJECT_BOX_RED: usize = 674;
pub const OBJECT_FOOTBALL: usize = 675;
pub const OBJECT_JOYSTICK: usize = 676;
pub const OBJECT_DISK: usize = 677;
pub const OBJECT_FLAG: usize = 678;
pub const OBJECT_RADIO: usize = 681;
pub const OBJECT_BOOT: usize = 684;
pub const OBJECT_GUN: usize = 685;
pub const OBJECT_NUCLEARMOLECULE: usize = 686;
pub const OBJECT_CHICKEN_SINGLE: usize = 694;
pub const OBJECT_CHICKEN_DOUBLE: usize = 695;
pub const OBJECT_LETTER_D: usize = 696;
pub const OBJECT_LETTER_U: usize = 697;
pub const OBJECT_LETTER_K: usize = 698;
pub const OBJECT_LETTER_E: usize = 699;
pub const OBJECT_ACCESS_CARD: usize = 700;
pub const OBJECT_GLOVE: usize = 701;
pub const OBJECT_CLAMP: usize = 702;

/// Animation tiles; each is followed by its further frames.
pub const ANIMATION_SODA: usize = 408;

} // verus!

verus! {

/// Score signs.
pub const NUMBER_100: usize = 1208;
pub const NUMBER_200: usize = 1209;
pub const NUMBER_500: usize = 1210;
pub const NUMBER_1000: usize = 1211;
pub const NUMBER_2000: usize = 1212;
pub const NUMBER_5000: usize = 1213;
pub const NUMBER_10000: usize = 1214;
pub const NUMBER_BONUS_1_LEFT: usize = 1215;
pub const NUMBER_BONUS_1_RIGHT: usize = 1216;
pub const NUMBER_BONUS_2_LEFT: usize = 1217;
pub const NUMBER_BONUS_2_RIGHT: usize = 1218;
pub const NUMBER_BONUS_3_LEFT: usize = 1219;
pub const NUMBER_BONUS_3_RIGHT: usize = 1220;
pub const NUMBER_BONUS_4_LEFT: usize = 1221;
pub const NUMBER_BONUS_4_RIGHT: usize = 1222;
pub const NUMBER_BONUS_5_LEFT: usize = 1223;
pub const NUMBER_BONUS_5_RIGHT: usize = 1224;
pub const NUMBER_BONUS_6_LEFT: usize = 1225;
pub const NUMBER_BONUS_6_RIGHT: usize = 1226;
pub const NUMBER_BONUS_7_LEFT: usize = 1227;
pub const NUMBER_BONUS_7_RIGHT: usize = 1228;

pub const OBJECT_SPIKES_UP: usize = 703;
pub const OBJECT_SPIKES_DOWN: usize = 704;
pub const OBJECT_SPIKE: usize = 705;
pub const OBJECT_KEY_RED: usize = 707;
pub const OBJECT_KEY_BLUE: usize = 708;
pub const OBJECT_KEY_PINK: usize = 709;
pub const OBJECT_KEY_GREEN: usize = 710;
pub const OBJECT_HOSTILESHOT: usize = 711;
pub const OBJECT_SPARK_PINK: usize = 715;
pub const OBJECT_SPARK_BLUE: usize = 716;
pub const OBJECT_SPARK_WHITE: usize = 717;
pub const OBJECT_SPARK_GREEN: usize = 718;
pub const OBJECT_DUSTCLOUD: usize = 719;
pub const OBJECT_STEAM: usize = 724;

pub const ANIMATION_BOMBFIRE: usize = 384;
pub const ANIMATION_EXPLOSION: usize = 390;
pub const ANIMATION_ROBOT: usize = 396;
pub const ANIMATION_SODAFLY: usize = 412;
pub const ANIMATION_MINE: usize = 423;
pub const ANIMATION_WINDOWBG: usize = 480;
pub const ANIMATION_STONEWINDOWBG: usize = 482;
pub const ANIMATION_BROKENWALLBG: usize = 483;

} // verus!

verus! {

pub const OBJECT_DOOR: usize = 730;
pub const OBJECT_KEYHOLE_BLACK: usize = 738;
pub const OBJECT_KEYHOLE_RED: usize = 739;
pub const OBJECT_KEYHOLE_BLUE: usize = 740;
pub const OBJECT_KEYHOLE_PINK: usize = 741;
pub const OBJECT_KEYHOLE_GREEN: usize = 742;
pub const OBJECT_ACCESS_CARD_SLOT: usize = 743;
pub const OBJECT_GLOVE_SLOT: usize = 752;
pub const OBJECT_NOTEBOOK: usize = 756;
pub const ANIMATION_BADGUYSCREEN: usize = 486;
pub const ANIMATION_EXITDOOR: usize = 490;
pub const ANIMATION_TELEPORTER1: usize = 506;

} // verus!

verus! {

pub const OBJECT_LASERBEAM: usize = 757;

} // verus!

verus! {

pub const BACKGROUND_LIGHT_GREY: usize = 3;
pub const SOLID_SHOOTABLE_WALL_BRICKS: usize = 215;
pub const ANIMATION_CAMERA_LEFT: usize = 416;
pub const ANIMATION_CAMERA_CENTER: usize = 417;
pub const ANIMATION_CAMERA_RIGHT: usize = 418;
pub const ANIMATION_BOMB: usize = 406;
pub const OBJECT_ROTATINGCYLINDER: usize = 760;
pub const OBJECT_ROCKET: usize = 765;
pub const OBJECT_BALLOON: usize = 775;
pub const OBJECT_FALLINGBLOCK: usize = 780;

} // verus!

verus! {

pub const ANIMATION_CARBOT: usize = 433;
pub const ANIMATION_WALLCRAWLERBOT_LEFT: usize = 425;
pub const ANIMATION_WALLCRAWLERBOT_RIGHT: usize = 429;

} // verus!

verus! {

pub const OBJECT_FIRERIGHT: usize = 785;
pub const OBJECT_FIRELEFT: usize = 790;
pub const SOLID_BLACK: usize = 192;
pub const SOLID_CONVEYORBELT_LEFTEND: usize = 232;
pub const SOLID_CONVEYORBELT_RIGHTEND: usize = 236;
pub const SOLID_CONVEYORBELT_CENTER: usize = 240;

} // verus!

verus! {

pub const SOLID_ELEVATOR: usize = 244;
pub const OBJECT_ELEVATOR_TOP: usize = 795;

} // verus!

verus! {

pub const ANIMATION_FAN: usize = 419;
pub const ANIMATION_FIREWHEEL_OFF: usize = 437;
pub const ANIMATION_FIREWHEEL_ON: usize = 453;

} // verus!

verus! {

/// Width of the game window in pixels.
pub const WINDOW_WIDTH: u16 = 320;
/// Height of the game window in pixels.
pub const WINDOW_HEIGHT: u16 = 200;
/// Health points the status border can show.
pub const MAX_LIFE: usize = 8;
/// Shots the status border can show.
pub const MAX_FIREPOWER: usize = 4;
/// Digits of the score in the status border.
pub const SCORE_DIGITS: usize = 8;
/// A full and an empty health point in the status border.
pub const OBJECT_HEALTH: usize = 1205;
pub const OBJECT_NONHEALTH: usize = 1206;
/// One shot of firepower in the status border.
pub const OBJECT_SHOT: usize = 706;
/// The walking robot in the bot gallery.
pub const ANIMATION_FOOTBOT: usize = 400;
/// Size of a backdrop in tiles.
pub const BACKDROP_WIDTH: usize = 13;
pub const BACKDROP_HEIGHT: usize = 10;

} // verus!

verus! {

/// The wall piece of an expanding floor.
pub const SOLID_EXPANDINGFLOOR: usize = 246;

} // verus!
