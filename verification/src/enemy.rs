//! Enemies: their kinds and stats, which kind a wave sends, how they move and
//! shoot, and where they come from.
use vstd::prelude::*;
use crate::assets::SpriteId;
use crate::rng::{random_below, random_ratio, roll_percent};

verus! {

/// How far the shooter kind tries to stay from the player, in pixels.
pub const SHOOTER_PREFERRED_DISTANCE: u32 = 380;

/// The kinds of ordinary enemy.
#[derive(Clone, Copy, PartialEq, Eq, Debug, Structural)]
pub enum EnemyKind {
    /// Balanced.
    Normal,
    /// Fast and frail; zigzags towards the player.
    Fast,
    /// Slow and sturdy.
    Tank,
    /// Keeps its distance and shoots.
    Shooter,
}

/// The stats of one kind of enemy: size in pixels, speed in pixels per
/// second, hit points and the damage it deals on contact.
#[derive(Clone, Copy, PartialEq, Eq, Debug, Structural)]
pub struct EnemyStats {
    pub size: u32,
    pub speed: u32,
    pub max_hp: u32,
    pub contact_damage: u32,
}

/// The stats of each kind of enemy.
pub open spec fn spec_enemy_stats(kind: EnemyKind) -> EnemyStats {
    match kind {
        EnemyKind::Normal => EnemyStats { size: 56, speed: 150, max_hp: 30, contact_damage: 10 },
        EnemyKind::Fast => EnemyStats { size: 44, speed: 240, max_hp: 15, contact_damage: 8 },
        EnemyKind::Tank => EnemyStats { size: 84, speed: 90, max_hp: 90, contact_damage: 20 },
        EnemyKind::Shooter => EnemyStats { size: 48, speed: 130, max_hp: 20, contact_damage: 6 },
    }
}

/// A colour tint, each channel in percent of full intensity.
#[derive(Clone, Copy, PartialEq, Eq, Debug, Structural)]
pub struct Tint {
    pub red: u32,
    pub green: u32,
    pub blue: u32,
}

/// How an enemy moves.
#[derive(Clone, Copy, PartialEq, Eq, Debug, Structural)]
pub enum MovePattern {
    /// Straight at the player.
    Chase,
    /// Towards the player, swaying from side to side.
    Zigzag,
    /// Holds `preferred` pixels from the player, closing in or backing off,
    /// and circles round in direction `strafe_dir` (+1 or -1) when at that
    /// distance.
    KeepDistance { preferred: u32, strafe_dir: i8 },
}

/// The shots of an enemy that fires at the player.
#[derive(Clone, Copy, PartialEq, Eq, Debug, Structural)]
pub struct RangedAttacker {
    /// Time between two volleys, in milliseconds.
    pub interval_millis: u32,
    /// Bullet speed in pixels per second.
    pub bullet_speed: u32,
    pub bullet_damage: u32,
    /// Bullets per volley.
    pub bullet_count: u32,
}

/// The movement of each kind; `strafe_positive` picks the shooter's circling
/// direction.
pub open spec fn spec_move_pattern(kind: EnemyKind, strafe_positive: bool) -> MovePattern {
    match kind {
        EnemyKind::Fast => MovePattern::Zigzag,
        EnemyKind::Shooter => MovePattern::KeepDistance {
            preferred: SHOOTER_PREFERRED_DISTANCE,
            strafe_dir: if strafe_positive { 1i8 } else { -1i8 },
        },
        _ => MovePattern::Chase,
    }
}

impl EnemyKind {
    /// The stats of this kind.
    pub fn stats(self) -> (stats: EnemyStats)
        ensures
            stats == spec_enemy_stats(self),
    {
        match self {
            EnemyKind::Normal => EnemyStats { size: 56, speed: 150, max_hp: 30, contact_damage: 10 },
            EnemyKind::Fast => EnemyStats { size: 44, speed: 240, max_hp: 15, contact_damage: 8 },
            EnemyKind::Tank => EnemyStats { size: 84, speed: 90, max_hp: 90, contact_damage: 20 },
            EnemyKind::Shooter => EnemyStats { size: 48, speed: 130, max_hp: 20, contact_damage: 6 },
        }
    }

    /// The sprite of this kind. The shooter has no image of its own: it uses
    /// the normal one, tinted.
    pub fn image(self) -> (image: SpriteId)
        ensures
            image == match self {
                EnemyKind::Normal => SpriteId::EnemyNormal,
                EnemyKind::Fast => SpriteId::EnemyFast,
                EnemyKind::Tank => SpriteId::EnemyTank,
                EnemyKind::Shooter => SpriteId::EnemyNormal,
            },
    {
        match self {
            EnemyKind::Normal => SpriteId::EnemyNormal,
            EnemyKind::Fast => SpriteId::EnemyFast,
            EnemyKind::Tank => SpriteId::EnemyTank,
            EnemyKind::Shooter => SpriteId::EnemyNormal,
        }
    }

    /// The tint of this kind's sprite: purple for the shooter, which shares
    /// the normal image, white (no tint) for the others.
    pub fn color(self) -> (tint: Tint)
        ensures
            tint == (if self == EnemyKind::Shooter {
                Tint { red: 75, green: 55, blue: 100 }
            } else {
                Tint { red: 100, green: 100, blue: 100 }
            }),
    {
        match self {
            EnemyKind::Shooter => Tint { red: 75, green: 55, blue: 100 },
            _ => Tint { red: 100, green: 100, blue: 100 },
        }
    }

    /// The shots of this kind, for the kinds that shoot: only the shooter,
    /// one bullet of 8 damage at 320 pixels per second every 2.2 seconds.
    pub fn ranged_attack(self) -> (attack: Option<RangedAttacker>)
        ensures
            attack == (if self == EnemyKind::Shooter {
                Some(RangedAttacker { interval_millis: 2200, bullet_speed: 320, bullet_damage: 8, bullet_count: 1 })
            } else {
                None
            }),
    {
        match self {
            EnemyKind::Shooter => Some(
                RangedAttacker { interval_millis: 2200, bullet_speed: 320, bullet_damage: 8, bullet_count: 1 },
            ),
            _ => None,
        }
    }
}

/// The stats of the final boss.
pub fn boss_stats() -> (stats: EnemyStats)
    ensures
        stats == (EnemyStats { size: 96, speed: 70, max_hp: 1500, contact_damage: 30 }),
{
    EnemyStats { size: 96, speed: 70, max_hp: 1500, contact_damage: 30 }
}

/// The kind of enemy that wave `wave_number` sends for a roll in percent
/// (0 to 99). Waves 1 and 2 send only normal enemies; fast ones join from
/// wave 3, tanks from wave 5 and shooters from wave 6.
pub open spec fn spec_pick_enemy_kind(wave_number: u32, roll: u32) -> EnemyKind {
    if 1 <= wave_number <= 2 {
        EnemyKind::Normal
    } else if 3 <= wave_number <= 4 {
        if roll < 25 {
            EnemyKind::Fast
        } else {
            EnemyKind::Normal
        }
    } else if wave_number == 5 {
        if roll < 20 {
            EnemyKind::Tank
        } else if roll < 45 {
            EnemyKind::Fast
        } else {
            EnemyKind::Normal
        }
    } else if roll < 15 {
        EnemyKind::Shooter
    } else if roll < 35 {
        EnemyKind::Tank
    } else if roll < 60 {
        EnemyKind::Fast
    } else {
        EnemyKind::Normal
    }
}

/// The kind of enemy that wave `wave_number` sends for `roll`, a roll in
/// percent.
pub fn pick_enemy_kind(wave_number: u32, roll: u32) -> (kind: EnemyKind)
    ensures
        kind == spec_pick_enemy_kind(wave_number, roll),
{
    if 1 <= wave_number && wave_number <= 2 {
        EnemyKind::Normal
    } else if 3 <= wave_number && wave_number <= 4 {
        if roll < 25 {
            EnemyKind::Fast
        } else {
            EnemyKind::Normal
        }
    } else if wave_number == 5 {
        if roll < 20 {
            EnemyKind::Tank
        } else if roll < 45 {
            EnemyKind::Fast
        } else {
            EnemyKind::Normal
        }
    } else {
        if roll < 15 {
            EnemyKind::Shooter
        } else if roll < 35 {
            EnemyKind::Tank
        } else if roll < 60 {
            EnemyKind::Fast
        } else {
            EnemyKind::Normal
        }
    }
}

/// Draws the kind of the next enemy of wave `wave_number`.
pub fn roll_enemy_kind(wave_number: u32) -> (kind: EnemyKind)
    ensures
        exists|roll: u32| roll < 100 && kind == spec_pick_enemy_kind(wave_number, roll),
{
    let roll = roll_percent();
    pick_enemy_kind(wave_number, roll)
}

/// The movement of an enemy of kind `kind`; `strafe_positive` picks the
/// circling direction of a shooter.
pub fn move_pattern_for(kind: EnemyKind, strafe_positive: bool) -> (pattern: MovePattern)
    ensures
        pattern == spec_move_pattern(kind, strafe_positive),
{
    match kind {
        EnemyKind::Fast => MovePattern::Zigzag,
        EnemyKind::Shooter => MovePattern::KeepDistance {
            preferred: SHOOTER_PREFERRED_DISTANCE,
            strafe_dir: if strafe_positive { 1 } else { -1 },
        },
        _ => MovePattern::Chase,
    }
}

/// Draws the movement of a new enemy of kind `kind`: a shooter circles one
/// way or the other at even odds.
pub fn pick_move_pattern(kind: EnemyKind) -> (pattern: MovePattern)
    ensures
        exists|strafe_positive: bool| pattern == spec_move_pattern(kind, strafe_positive),
{
    let strafe_positive = random_ratio(1, 2);
    move_pattern_for(kind, strafe_positive)
}

/// The side of the arena along which an enemy appears.
#[derive(Clone, Copy, PartialEq, Eq, Debug, Structural)]
pub enum ArenaSide {
    Top,
    Bottom,
    Left,
    Right,
}

/// The side numbered `index` (0 top, 1 bottom, 2 left, any other right).
pub open spec fn spec_arena_side(index: usize) -> ArenaSide {
    if index == 0 {
        ArenaSide::Top
    } else if index == 1 {
        ArenaSide::Bottom
    } else if index == 2 {
        ArenaSide::Left
    } else {
        ArenaSide::Right
    }
}

/// The side numbered `index`: 0 top, 1 bottom, 2 left, any other right.
pub fn arena_side(index: usize) -> (side: ArenaSide)
    ensures
        side == spec_arena_side(index),
{
    if index == 0 {
        ArenaSide::Top
    } else if index == 1 {
        ArenaSide::Bottom
    } else if index == 2 {
        ArenaSide::Left
    } else {
        ArenaSide::Right
    }
}

/// Draws one of the four sides of the arena, each with the same chance.
pub fn pick_spawn_side() -> (side: ArenaSide)
    ensures
        exists|index: usize| index < 4 && side == spec_arena_side(index),
{
    let index = random_below(4);
    arena_side(index)
}

/// Law: enemy kinds join the waves in order. From wave 1, waves 1 and 2 send
/// only normal enemies, tanks never come before wave 5 and shooters never
/// before wave 6; and from wave 3 on fast enemies can come, from wave 5 tanks,
/// from wave 6 shooters, while normal enemies can come in every wave.
pub proof fn lemma_enemy_kinds_join_in_order(wave_number: u32, roll: u32)
    requires
        wave_number >= 1,
    ensures
        wave_number <= 2 ==> spec_pick_enemy_kind(wave_number, roll) == EnemyKind::Normal,
        wave_number < 3 ==> spec_pick_enemy_kind(wave_number, roll) != EnemyKind::Fast,
        wave_number < 5 ==> spec_pick_enemy_kind(wave_number, roll) != EnemyKind::Tank,
        wave_number < 6 ==> spec_pick_enemy_kind(wave_number, roll) != EnemyKind::Shooter,
        wave_number >= 3 ==> exists|r: u32| r < 100 && spec_pick_enemy_kind(wave_number, r) == EnemyKind::Fast,
        wave_number >= 5 ==> exists|r: u32| r < 100 && spec_pick_enemy_kind(wave_number, r) == EnemyKind::Tank,
        wave_number >= 6 ==> exists|r: u32| r < 100 && spec_pick_enemy_kind(wave_number, r)
            == EnemyKind::Shooter,
        exists|r: u32| r < 100 && spec_pick_enemy_kind(wave_number, r) == EnemyKind::Normal,
{
    assert(spec_pick_enemy_kind(wave_number, 99) == EnemyKind::Normal);
    if wave_number >= 3 {
        if wave_number <= 4 {
            assert(spec_pick_enemy_kind(wave_number, 0) == EnemyKind::Fast);
        } else if wave_number == 5 {
            assert(spec_pick_enemy_kind(wave_number, 20) == EnemyKind::Fast);
            assert(spec_pick_enemy_kind(wave_number, 0) == EnemyKind::Tank);
        } else {
            assert(spec_pick_enemy_kind(wave_number, 35) == EnemyKind::Fast);
            assert(spec_pick_enemy_kind(wave_number, 15) == EnemyKind::Tank);
            assert(spec_pick_enemy_kind(wave_number, 0) == EnemyKind::Shooter);
        }
    }
}

/// Law: the share of each kind in a wave, as the band of percent rolls that
/// draws it. Waves 3 and 4 send a fast enemy for 25 rolls in 100 (rolls below
/// 25). Wave 5 sends a tank for rolls below 20 and a fast enemy for rolls from
/// 20 to 44. From wave 6 on, a shooter comes for rolls below 15, a tank for
/// rolls from 15 to 34, a fast enemy for rolls from 35 to 59, and a normal
/// enemy for the other 40.
pub proof fn lemma_enemy_kind_shares(wave_number: u32, roll: u32)
    requires
        wave_number >= 1,
        roll < 100,
    ensures
        3 <= wave_number <= 4 ==> (spec_pick_enemy_kind(wave_number, roll) == EnemyKind::Fast <==> roll < 25)
            && (spec_pick_enemy_kind(wave_number, roll) == EnemyKind::Normal <==> roll >= 25),
        wave_number == 5 ==> (spec_pick_enemy_kind(wave_number, roll) == EnemyKind::Tank <==> roll < 20)
            && (spec_pick_enemy_kind(wave_number, roll) == EnemyKind::Fast <==> 20 <= roll < 45)
            && (spec_pick_enemy_kind(wave_number, roll) == EnemyKind::Normal <==> roll >= 45),
        wave_number >= 6 ==> (spec_pick_enemy_kind(wave_number, roll) == EnemyKind::Shooter <==> roll < 15)
            && (spec_pick_enemy_kind(wave_number, roll) == EnemyKind::Tank <==> 15 <= roll < 35)
            && (spec_pick_enemy_kind(wave_number, roll) == EnemyKind::Fast <==> 35 <= roll < 60)
            && (spec_pick_enemy_kind(wave_number, roll) == EnemyKind::Normal <==> roll >= 60),
{
}

} // verus!

verus! {

/// A new enemy of a wave, as drawn: its kind, how it moves, the side it
/// enters from, its base stats, its hit points, speed and contact damage in
/// hundredths (the base values scaled by the wave's percentages), its shots,
/// if it shoots, with their damage in hundredths scaled the same way (0 for an
/// enemy that does not shoot), and the points it is worth.
#[derive(Clone, Copy, PartialEq, Eq, Debug, Structural)]
pub struct EnemySpawn {
    pub kind: EnemyKind,
    pub pattern: MovePattern,
    pub side: ArenaSide,
    pub stats: EnemyStats,
    pub hp_hundredths: u64,
    pub speed_hundredths: u64,
    pub contact_damage_hundredths: u64,
    pub ranged: Option<RangedAttacker>,
    pub bullet_damage_hundredths: u64,
    pub score: u32,
}

/// The points an enemy with these base stats is worth when defeated: its base
/// hit points (1500 for the boss). This scoring rule is a choice of this
/// library.
pub open spec fn spec_kill_score(stats: EnemyStats) -> u32 {
    stats.max_hp
}

/// The points an enemy with base stats `stats` is worth when defeated.
pub fn kill_score(stats: &EnemyStats) -> (points: u32)
    ensures
        points == spec_kill_score(*stats),
{
    stats.max_hp
}

/// Whether `spawn` is an enemy of kind `kind` for wave `wave_number`.
pub open spec fn spawn_of_kind(spawn: EnemySpawn, kind: EnemyKind, wave_number: u32) -> bool {
    &&& spawn.kind == kind
    &&& spawn.stats == spec_enemy_stats(kind)
    &&& spawn.hp_hundredths == spec_enemy_stats(kind).max_hp * crate::wave::spec_enemy_hp_percent(wave_number)
    &&& spawn.speed_hundredths == spec_enemy_stats(kind).speed * crate::wave::spec_enemy_speed_percent(wave_number)
    &&& spawn.contact_damage_hundredths == spec_enemy_stats(kind).contact_damage
        * crate::wave::spec_enemy_damage_percent(wave_number)
    &&& spawn.bullet_damage_hundredths == (if kind == EnemyKind::Shooter {
        8 * crate::wave::spec_enemy_damage_percent(wave_number)
    } else {
        0
    })
    &&& spawn.score == spec_kill_score(spec_enemy_stats(kind))
    &&& spawn.ranged == (if kind == EnemyKind::Shooter {
        Some(RangedAttacker { interval_millis: 2200, bullet_speed: 320, bullet_damage: 8, bullet_count: 1 })
    } else {
        None
    })
}

/// Draws the next enemy of wave `wave`.
pub fn plan_enemy_spawn(wave: &crate::wave::WaveInfo) -> (spawn: EnemySpawn)
    requires
        wave.number >= 1,
    ensures
        exists|roll: u32| roll < 100 && spawn.kind == #[trigger] spec_pick_enemy_kind(wave.number, roll),
        spawn_of_kind(spawn, spawn.kind, wave.number),
        exists|strafe_positive: bool| spawn.pattern == #[trigger] spec_move_pattern(spawn.kind, strafe_positive),
        exists|index: usize| index < 4 && spawn.side == #[trigger] spec_arena_side(index),
{
    let side = pick_spawn_side();
    let kind = roll_enemy_kind(wave.number);
    let stats = kind.stats();
    let hp_percent = wave.enemy_hp_percent();
    let speed_percent = wave.enemy_speed_percent();
    let damage_percent = wave.enemy_damage_percent();
    proof {
        lemma_scaled_fits(stats.max_hp as u64, hp_percent, 15);
        lemma_scaled_fits(stats.speed as u64, speed_percent, 5);
        lemma_scaled_fits(stats.contact_damage as u64, damage_percent, 10);
        lemma_scaled_fits(8, damage_percent, 10);
    }
    let hp_hundredths = stats.max_hp as u64 * hp_percent;
    let speed_hundredths = stats.speed as u64 * speed_percent;
    let contact_damage_hundredths = stats.contact_damage as u64 * damage_percent;
    let ranged = kind.ranged_attack();
    let bullet_damage_hundredths = match ranged {
        Some(attack) => attack.bullet_damage as u64 * damage_percent,
        None => 0,
    };
    let pattern = pick_move_pattern(kind);
    EnemySpawn {
        kind,
        pattern,
        side,
        stats,
        hp_hundredths,
        speed_hundredths,
        contact_damage_hundredths,
        ranged,
        bullet_damage_hundredths,
        score: kill_score(&stats),
    }
}

/// A base stat of at most 1000 scaled by a wave's percentage fits in a u64.
proof fn lemma_scaled_fits(base: u64, percent: u64, step: u64)
    requires
        base <= 1000,
        step <= 15,
        percent <= 100 + step * 0xffff_ffffu64,
    ensures
        base * percent <= u64::MAX,
{
    assert(base * percent <= 1000 * (100 + 15 * 0xffff_ffffu64)) by (nonlinear_arith)
        requires
            base <= 1000,
            step <= 15,
            percent <= 100 + step * 0xffff_ffffu64,
    ;
}

} // verus!
