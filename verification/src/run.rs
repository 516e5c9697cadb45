//! A run from the title screen to its result: the screen flow, the score and
//! what is recorded when the run ends.
use vstd::prelude::*;
use crate::wave::WaveInfo;
use crate::arsenal::Arsenal;
use crate::weapon::{Weapon, WeaponType};

verus! {

/// The screens of the game.
#[derive(Clone, Copy, PartialEq, Eq, Debug, Structural)]
pub enum GameState {
    Title,
    Playing,
    Result,
}

impl Default for GameState {
    fn default() -> (state: GameState)
        ensures
            state == GameState::Title,
    {
        GameState::Title
    }
}

/// The points scored in the current run.
pub struct Score(pub u32);

/// The sum of `points`.
pub open spec fn total(points: Seq<u32>) -> int
    decreases points.len(),
{
    if points.len() == 0 {
        0
    } else {
        total(points.drop_last()) + points.last()
    }
}

impl Score {
    /// No points: the score at the start of a run.
    pub fn new() -> (score: Score)
        ensures
            score.0 == 0,
    {
        Score(0)
    }

    /// Back to no points, when a run starts.
    pub fn reset(&mut self)
        ensures
            final(self).0 == 0,
    {
        self.0 = 0;
    }

    /// Adds the points of the enemies defeated in a frame.
    pub fn add_kills(&mut self, points: &Vec<u32>)
        requires
            old(self).0 + total(points@) <= u32::MAX,
        ensures
            final(self).0 == old(self).0 + total(points@),
    {
        let mut i: usize = 0;
        while i < points.len()
            invariant
                i <= points.len(),
                old(self).0 + total(points@) <= u32::MAX,
                self.0 == old(self).0 + total(points@.take(i as int)),
            decreases points.len() - i,
        {
            proof {
                assert(points@.take(i + 1).drop_last() =~= points@.take(i as int));
                lemma_total_prefix(points@, i + 1);
            }
            self.0 = self.0 + points[i];
            i = i + 1;
        }
        assert(points@.take(points.len() as int) =~= points@);
    }
}

/// The sum of a prefix is at most the sum of the whole.
proof fn lemma_total_prefix(points: Seq<u32>, n: int)
    requires
        0 <= n <= points.len(),
    ensures
        total(points.take(n)) <= total(points),
    decreases points.len() - n,
{
    if n < points.len() {
        lemma_total_prefix(points, n + 1);
        assert(points.take(n + 1).drop_last() =~= points.take(n));
    } else {
        assert(points.take(n) =~= points);
    }
}

/// How a run ended: won or lost, the wave reached, the score and the weapons
/// held, by kind and level, in the order they were obtained.
pub struct RunResult {
    pub victory: bool,
    pub wave_reached: u32,
    pub score: u32,
    pub weapons: Vec<(WeaponType, u8)>,
}

impl RunResult {
    /// Records the end of a run, won or lost, on wave `wave`.
    pub fn record(victory: bool, wave: &WaveInfo, score: &Score, arsenal: &Arsenal) -> (result: RunResult)
        ensures
            result.victory == victory,
            result.wave_reached == wave.number,
            result.score == score.0,
            result.weapons@ == arsenal.held().map_values(|w: Weapon| (w.weapon_type, w.level)),
    {
        RunResult { victory, wave_reached: wave.number, score: score.0, weapons: arsenal.summary() }
    }
}

} // verus!
