//! Waves: their length and difficulty, the boss of the last one, and when a
//! wave ends.
use vstd::prelude::*;

verus! {

/// The last wave: its boss appears at its start, and defeating the boss wins
/// the run.
pub const FINAL_WAVE: u32 = 10;

/// Within a run: fighting a wave, or the pause between two waves.
#[derive(Clone, Copy, PartialEq, Eq, Debug, Structural)]
pub enum WavePhase {
    Fighting,
    Intermission,
}

impl Default for WavePhase {
    fn default() -> (phase: WavePhase)
        ensures
            phase == WavePhase::Fighting,
    {
        WavePhase::Fighting
    }
}

/// The current wave: its number, counting from 1, and whether its boss has
/// appeared. The wave's countdown itself is kept by the caller.
#[derive(Clone, Copy, PartialEq, Eq, Debug, Structural)]
pub struct WaveInfo {
    pub number: u32,
    pub boss_spawned: bool,
}

/// A wave that has just begun.
pub open spec fn spec_new_wave(number: u32) -> WaveInfo {
    WaveInfo { number, boss_spawned: false }
}

/// The length in seconds of wave `number`: 30 for the first, 3 more for each
/// later one (57 for wave 10).
pub open spec fn spec_duration_secs(number: u32) -> int {
    30 + 3 * (number - 1)
}

/// The hit points of the enemies of wave `number`, in percent of their base
/// value: 15 points more for each wave after the first.
pub open spec fn spec_enemy_hp_percent(number: u32) -> int {
    100 + 15 * (number - 1)
}

/// The speed of the enemies of wave `number`, in percent of their base value:
/// 5 points more for each wave after the first. This rate of growth is a
/// choice of this library.
pub open spec fn spec_enemy_speed_percent(number: u32) -> int {
    100 + 5 * (number - 1)
}

/// The damage dealt by the enemies of wave `number`, by contact or by their
/// bullets, in percent of their base value: 10 points more for each wave
/// after the first. This rate of growth is a choice of this library.
pub open spec fn spec_enemy_damage_percent(number: u32) -> int {
    100 + 10 * (number - 1)
}

/// Whether a wave ends when its countdown is over, given whether it is: every
/// wave but the last and beyond, which end only when their boss is defeated.
pub open spec fn spec_ends_by_timer(wave: WaveInfo, timer_finished: bool) -> bool {
    wave.number < FINAL_WAVE && timer_finished
}

/// Whether the run is won: on the final wave (or beyond) the boss appeared and
/// none is left alive.
pub open spec fn spec_is_victory(wave: WaveInfo, boss_alive: bool) -> bool {
    wave.number >= FINAL_WAVE && wave.boss_spawned && !boss_alive
}

/// The start of the fighting phase of a wave: the wave afterwards, and whether
/// the boss appears now (only on the final wave, and only once).
pub open spec fn spec_start_fighting(wave: WaveInfo) -> (WaveInfo, bool) {
    if wave.number == FINAL_WAVE && !wave.boss_spawned {
        (WaveInfo { boss_spawned: true, ..wave }, true)
    } else {
        (wave, false)
    }
}

impl WaveInfo {
    /// Wave `number`, just begun.
    pub fn new(number: u32) -> (wave: WaveInfo)
        requires
            number >= 1,
        ensures
            wave == spec_new_wave(number),
    {
        WaveInfo { number, boss_spawned: false }
    }

    /// The length of this wave in seconds.
    pub fn duration_secs(&self) -> (secs: u64)
        requires
            self.number >= 1,
        ensures
            secs == spec_duration_secs(self.number),
    {
        30 + 3 * (self.number as u64 - 1)
    }

    /// The hit points of this wave's enemies, in percent of their base value.
    pub fn enemy_hp_percent(&self) -> (percent: u64)
        requires
            self.number >= 1,
        ensures
            percent == spec_enemy_hp_percent(self.number),
    {
        100 + 15 * (self.number as u64 - 1)
    }

    /// The speed of this wave's enemies, in percent of their base value.
    pub fn enemy_speed_percent(&self) -> (percent: u64)
        requires
            self.number >= 1,
        ensures
            percent == spec_enemy_speed_percent(self.number),
    {
        100 + 5 * (self.number as u64 - 1)
    }

    /// The damage of this wave's enemies, in percent of their base value.
    pub fn enemy_damage_percent(&self) -> (percent: u64)
        requires
            self.number >= 1,
        ensures
            percent == spec_enemy_damage_percent(self.number),
    {
        100 + 10 * (self.number as u64 - 1)
    }

    /// Whether this is the boss wave: the final one, or beyond.
    pub fn is_boss_wave(&self) -> (boss_wave: bool)
        ensures
            boss_wave == (self.number >= FINAL_WAVE),
    {
        self.number >= FINAL_WAVE
    }

    /// Whether this wave ends, given whether its countdown is over. The boss
    /// wave has no countdown: it ends when its boss is defeated.
    pub fn ends_by_timer(&self, timer_finished: bool) -> (ends: bool)
        ensures
            ends == spec_ends_by_timer(*self, timer_finished),
    {
        !self.is_boss_wave() && timer_finished
    }

    /// Starts the fighting phase: on the final wave the boss appears, once.
    /// Returns whether to spawn it now.
    pub fn start_fighting(&mut self) -> (spawn_boss: bool)
        ensures
            (*final(self), spawn_boss) == spec_start_fighting(*old(self)),
    {
        if self.number != FINAL_WAVE || self.boss_spawned {
            return false;
        }
        self.boss_spawned = true;
        true
    }

    /// Whether the run is won, given whether a boss is still alive.
    pub fn is_victory(&self, boss_alive: bool) -> (won: bool)
        ensures
            won == spec_is_victory(*self, boss_alive),
    {
        self.number >= FINAL_WAVE && self.boss_spawned && !boss_alive
    }

    /// Whether enemies stop coming: exactly when the run is won, that is on
    /// the boss wave once the boss has appeared and been defeated; the
    /// enemies left are then the last ones.
    pub fn reinforcements_stopped(&self, boss_alive: bool) -> (stopped: bool)
        ensures
            stopped == spec_is_victory(*self, boss_alive),
    {
        self.is_boss_wave() && self.boss_spawned && !boss_alive
    }

    /// The wave after this one, just begun.
    pub fn next(&self) -> (next: WaveInfo)
        requires
            self.number < u32::MAX,
        ensures
            next == spec_new_wave((self.number + 1) as u32),
    {
        WaveInfo::new(self.number + 1)
    }
}

/// Law: the boss appears at most once per wave, and only on the final wave.
pub proof fn lemma_boss_appears_once(wave: WaveInfo)
    ensures
        spec_start_fighting(wave).1 ==> wave.number == FINAL_WAVE,
        !spec_start_fighting(spec_start_fighting(wave).0).1,
        spec_start_fighting(wave).0.number == wave.number,
{
}

/// Law: a run that starts at or before the final wave never goes past it: a
/// wave that can end by its countdown is before the final one, so the next is
/// at most the final one; and the final wave itself never ends by its
/// countdown.
pub proof fn lemma_waves_stop_at_final(wave: WaveInfo, timer_finished: bool)
    requires
        wave.number <= FINAL_WAVE,
    ensures
        spec_ends_by_timer(wave, timer_finished) ==> spec_new_wave((wave.number + 1) as u32).number <= FINAL_WAVE,
        wave.number == FINAL_WAVE ==> !spec_ends_by_timer(wave, timer_finished),
{
}

/// Law: each wave is harder than the one before it: it lasts 3 seconds
/// longer, and its enemies have 15 points more hit points, move 5 points
/// faster and deal 10 points more damage, in percent of their base values.
pub proof fn lemma_waves_grow_harder(number: u32)
    requires
        1 <= number < u32::MAX,
    ensures
        spec_duration_secs((number + 1) as u32) == spec_duration_secs(number) + 3,
        spec_enemy_hp_percent((number + 1) as u32) == spec_enemy_hp_percent(number) + 15,
        spec_enemy_speed_percent((number + 1) as u32) == spec_enemy_speed_percent(number) + 5,
        spec_enemy_damage_percent((number + 1) as u32) == spec_enemy_damage_percent(number) + 10,
{
}

} // verus!
