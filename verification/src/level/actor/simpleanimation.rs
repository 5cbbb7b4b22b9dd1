//! Background decorations that loop through a few frames forever.

use vstd::prelude::*;
use crate::consts::{
    ANIMATION_BROKENWALLBG, ANIMATION_STONEWINDOWBG, ANIMATION_WINDOWBG, TILE_HEIGHT, TILE_WIDTH,
};
use super::{sized, ActorData, ActorType};

verus! {

/// The first tile and the number of frames of each looping decoration, or
/// `None` for other kinds.
pub open spec fn loop_look(t: ActorType) -> Option<(u16, u16)> {
    match t {
        ActorType::TextOnScreenBackground => Some((0x0004, 4)),
        ActorType::HighVoltageFlashBackground => Some((0x0008, 4)),
        ActorType::RedFlashlightBackground => Some((0x000C, 4)),
        ActorType::BlueFlashlightBackground => Some((0x0010, 4)),
        ActorType::KeypanelBackground => Some((0x0014, 4)),
        ActorType::RedRotationLightBackground => Some((0x0018, 4)),
        ActorType::UpArrowBackground => Some((0x001C, 4)),
        ActorType::BlueLightBackground1 => Some((0x0020, 4)),
        ActorType::BlueLightBackground2 => Some((0x0021, 4)),
        ActorType::BlueLightBackground3 => Some((0x0022, 4)),
        ActorType::BlueLightBackground4 => Some((0x0023, 4)),
        ActorType::GreenPoisonBackground => Some((0x0028, 4)),
        ActorType::LavaBackground => Some((0x002C, 4)),
        ActorType::WindowLeftBackground => Some((ANIMATION_WINDOWBG as u16, 1)),
        ActorType::WindowRightBackground => Some(((ANIMATION_WINDOWBG + 1) as u16, 1)),
        ActorType::StoneWindowBackground => Some((ANIMATION_STONEWINDOWBG as u16, 1)),
        ActorType::BrokenWallBackground => Some((ANIMATION_BROKENWALLBG as u16, 1)),
        _ => None,
    }
}

/// A looping decoration.
#[derive(Debug)]
pub struct SimpleAnimation {
    pub tile: u16,
    pub current_frame: u16,
    pub num_frames: u16,
}

impl SimpleAnimation {
    pub open spec fn wf(self) -> bool {
        self.current_frame < self.num_frames
    }

    pub open spec fn spec_create(g: ActorData) -> (SimpleAnimation, ActorData) {
        let (tile, num_frames) = loop_look(g.actor_type).unwrap();
        (
            SimpleAnimation { tile, current_frame: 0, num_frames },
            ActorData { is_in_foreground: false, ..sized(g, TILE_WIDTH, TILE_HEIGHT) },
        )
    }

    pub fn create(general: &mut ActorData) -> (s: SimpleAnimation)
        requires
            loop_look(old(general).actor_type) is Some,
        ensures
            final(general).actor_type == old(general).actor_type,
            (s, *final(general)) == SimpleAnimation::spec_create(*old(general)),
            s.wf(),
    {
        general.is_in_foreground = false;
        general.position.w = TILE_WIDTH;
        general.position.h = TILE_HEIGHT;
        let (tile, num_frames): (u16, u16) = match general.actor_type {
            ActorType::TextOnScreenBackground => (0x0004, 4),
            ActorType::HighVoltageFlashBackground => (0x0008, 4),
            ActorType::RedFlashlightBackground => (0x000C, 4),
            ActorType::BlueFlashlightBackground => (0x0010, 4),
            ActorType::KeypanelBackground => (0x0014, 4),
            ActorType::RedRotationLightBackground => (0x0018, 4),
            ActorType::UpArrowBackground => (0x001C, 4),
            ActorType::BlueLightBackground1 => (0x0020, 4),
            ActorType::BlueLightBackground2 => (0x0021, 4),
            ActorType::BlueLightBackground3 => (0x0022, 4),
            ActorType::BlueLightBackground4 => (0x0023, 4),
            ActorType::GreenPoisonBackground => (0x0028, 4),
            ActorType::LavaBackground => (0x002C, 4),
            ActorType::WindowLeftBackground => (ANIMATION_WINDOWBG as u16, 1),
            ActorType::WindowRightBackground => (ANIMATION_WINDOWBG as u16 + 1, 1),
            ActorType::StoneWindowBackground => (ANIMATION_STONEWINDOWBG as u16, 1),
            _ => (ANIMATION_BROKENWALLBG as u16, 1),
        };
        SimpleAnimation { tile, current_frame: 0, num_frames }
    }

    /// One step: the next frame, starting over after the last.
    pub open spec fn spec_act(self) -> SimpleAnimation {
        SimpleAnimation { current_frame: ((self.current_frame + 1) % (self.num_frames as int)) as u16, ..self }
    }

    pub fn act(&mut self)
        requires
            old(self).wf(),
        ensures
            *final(self) == old(self).spec_act(),
            final(self).wf(),
    {
        self.current_frame = (self.current_frame + 1) % self.num_frames;
    }
}

} // verus!
