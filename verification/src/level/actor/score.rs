//! The signs that show the points the hero just got, rising for a while.

use vstd::prelude::*;
use crate::consts::{
    NUMBER_100, NUMBER_1000, NUMBER_10000, NUMBER_200, NUMBER_2000, NUMBER_500, NUMBER_5000,
    NUMBER_BONUS_1_LEFT, NUMBER_BONUS_1_RIGHT, NUMBER_BONUS_2_LEFT, NUMBER_BONUS_2_RIGHT,
    NUMBER_BONUS_3_LEFT, NUMBER_BONUS_3_RIGHT, NUMBER_BONUS_4_LEFT, NUMBER_BONUS_4_RIGHT,
    NUMBER_BONUS_5_LEFT, NUMBER_BONUS_5_RIGHT, NUMBER_BONUS_6_LEFT, NUMBER_BONUS_6_RIGHT,
    NUMBER_BONUS_7_LEFT, NUMBER_BONUS_7_RIGHT, TILE_HEIGHT, TILE_WIDTH,
};
use super::{dead, moved, sized, ActorData, ActorType};

verus! {

/// The tile of each kind of score sign, or `None` for other kinds.
pub open spec fn score_tile(t: ActorType) -> Option<usize> {
    match t {
        ActorType::Score100 => Some(NUMBER_100),
        ActorType::Score200 => Some(NUMBER_200),
        ActorType::Score500 => Some(NUMBER_500),
        ActorType::Score1000 => Some(NUMBER_1000),
        ActorType::Score2000 => Some(NUMBER_2000),
        ActorType::Score5000 => Some(NUMBER_5000),
        ActorType::Score10000 => Some(NUMBER_10000),
        ActorType::ScoreBonus1Left => Some(NUMBER_BONUS_1_LEFT),
        ActorType::ScoreBonus1Right => Some(NUMBER_BONUS_1_RIGHT),
        ActorType::ScoreBonus2Left => Some(NUMBER_BONUS_2_LEFT),
        ActorType::ScoreBonus2Right => Some(NUMBER_BONUS_2_RIGHT),
        ActorType::ScoreBonus3Left => Some(NUMBER_BONUS_3_LEFT),
        ActorType::ScoreBonus3Right => Some(NUMBER_BONUS_3_RIGHT),
        ActorType::ScoreBonus4Left => Some(NUMBER_BONUS_4_LEFT),
        ActorType::ScoreBonus4Right => Some(NUMBER_BONUS_4_RIGHT),
        ActorType::ScoreBonus5Left => Some(NUMBER_BONUS_5_LEFT),
        ActorType::ScoreBonus5Right => Some(NUMBER_BONUS_5_RIGHT),
        ActorType::ScoreBonus6Left => Some(NUMBER_BONUS_6_LEFT),
        ActorType::ScoreBonus6Right => Some(NUMBER_BONUS_6_RIGHT),
        ActorType::ScoreBonus7Left => Some(NUMBER_BONUS_7_LEFT),
        ActorType::ScoreBonus7Right => Some(NUMBER_BONUS_7_RIGHT),
        _ => None,
    }
}

/// How many steps a score sign stays.
pub const SCORE_STEPS: usize = 40;

/// A score sign.
#[derive(Debug)]
pub struct Score {
    pub tile: usize,
    pub countdown: usize,
}

impl Score {
    pub open spec fn spec_create(g: ActorData) -> (Score, ActorData) {
        (
            Score { tile: score_tile(g.actor_type).unwrap(), countdown: SCORE_STEPS },
            ActorData { is_in_foreground: true, ..sized(g, TILE_WIDTH, TILE_HEIGHT) },
        )
    }

    pub fn create(general: &mut ActorData) -> (s: Score)
        requires
            score_tile(old(general).actor_type) is Some,
        ensures
            final(general).actor_type == old(general).actor_type,
            (s, *final(general)) == Score::spec_create(*old(general)),
    {
        general.is_in_foreground = true;
        general.position.w = TILE_WIDTH;
        general.position.h = TILE_HEIGHT;
        let tile = match general.actor_type {
            ActorType::Score100 => NUMBER_100,
            ActorType::Score200 => NUMBER_200,
            ActorType::Score500 => NUMBER_500,
            ActorType::Score1000 => NUMBER_1000,
            ActorType::Score2000 => NUMBER_2000,
            ActorType::Score5000 => NUMBER_5000,
            ActorType::Score10000 => NUMBER_10000,
            ActorType::ScoreBonus1Left => NUMBER_BONUS_1_LEFT,
            ActorType::ScoreBonus1Right => NUMBER_BONUS_1_RIGHT,
            ActorType::ScoreBonus2Left => NUMBER_BONUS_2_LEFT,
            ActorType::ScoreBonus2Right => NUMBER_BONUS_2_RIGHT,
            ActorType::ScoreBonus3Left => NUMBER_BONUS_3_LEFT,
            ActorType::ScoreBonus3Right => NUMBER_BONUS_3_RIGHT,
            ActorType::ScoreBonus4Left => NUMBER_BONUS_4_LEFT,
            ActorType::ScoreBonus4Right => NUMBER_BONUS_4_RIGHT,
            ActorType::ScoreBonus5Left => NUMBER_BONUS_5_LEFT,
            ActorType::ScoreBonus5Right => NUMBER_BONUS_5_RIGHT,
            ActorType::ScoreBonus6Left => NUMBER_BONUS_6_LEFT,
            ActorType::ScoreBonus6Right => NUMBER_BONUS_6_RIGHT,
            ActorType::ScoreBonus7Left => NUMBER_BONUS_7_LEFT,
            ActorType::ScoreBonus7Right => NUMBER_BONUS_7_RIGHT,
            _ => NUMBER_100,
        };
        Score { tile, countdown: SCORE_STEPS }
    }

    /// The sign still has steps left and can rise a pixel.
    pub open spec fn act_ok(self, g: ActorData) -> bool {
        self.countdown >= 1 && g.position.y > i16::MIN
    }

    /// One step: the sign rises a pixel; it is gone once its time is up
    /// or it reaches a tile above the top of the level.
    pub open spec fn spec_act(self, g: ActorData) -> (Score, ActorData) {
        let s = Score { countdown: (self.countdown - 1) as usize, ..self };
        let g1 = moved(g, g.position.x as int, g.position.y - 1);
        if s.countdown == 0 || g1.position.y == -16 {
            (s, dead(g1))
        } else {
            (s, g1)
        }
    }

    pub fn act(&mut self, general: &mut ActorData)
        requires
            old(self).act_ok(*old(general)),
        ensures
            final(general).actor_type == old(general).actor_type,
            (*final(self), *final(general)) == old(self).spec_act(*old(general)),
    {
        self.countdown = self.countdown - 1;
        general.position.y = general.position.y - 1;
        if self.countdown == 0 || general.position.y == -(TILE_HEIGHT as i16) {
            general.is_alive = false;
        }
    }
}

} // verus!
