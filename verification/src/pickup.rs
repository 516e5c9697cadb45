//! Items on the ground: what a defeated enemy drops and which weapons are
//! scattered at the start of a wave.
use vstd::prelude::*;
use crate::rng::{random_below, roll_percent};
use crate::weapon::WeaponType;

verus! {

/// Chance, in percent, that a defeated enemy drops a weapon.
pub const WEAPON_DROP_PERCENT: u32 = 10;

/// Chance, in percent, that a defeated enemy drops a heal instead.
pub const HEAL_DROP_PERCENT: u32 = 6;

/// How many weapons are scattered round the player when a wave starts.
pub const FIELD_WEAPONS_PER_WAVE: usize = 1;

/// An item lying on the ground.
#[derive(Clone, Copy, PartialEq, Eq, Debug, Structural)]
pub enum PickupKind {
    Weapon(WeaponType),
    Heal,
}

/// What a roll of a defeated enemy yields.
#[derive(Clone, Copy, PartialEq, Eq, Debug, Structural)]
pub enum DropRoll {
    /// A weapon, of a kind drawn from the candidates.
    WeaponDrop,
    HealDrop,
    NoDrop,
}

/// What a roll in percent yields: the rolls below `WEAPON_DROP_PERCENT` give a
/// weapon, or nothing when no kind can drop; the next `HEAL_DROP_PERCENT`
/// rolls give a heal; the others nothing. Each enemy thus drops a weapon with
/// a chance of `WEAPON_DROP_PERCENT` percent (while some kind can drop) and a
/// heal with a chance of `HEAL_DROP_PERCENT` percent.
pub open spec fn spec_drop_roll(roll: u32, has_candidates: bool) -> DropRoll {
    if roll < WEAPON_DROP_PERCENT {
        if has_candidates {
            DropRoll::WeaponDrop
        } else {
            DropRoll::NoDrop
        }
    } else if roll < WEAPON_DROP_PERCENT + HEAL_DROP_PERCENT {
        DropRoll::HealDrop
    } else {
        DropRoll::NoDrop
    }
}

/// Whether `dropped` is what the roll `outcome` yields, a weapon being one of
/// `candidates`.
pub open spec fn drop_yields(outcome: DropRoll, candidates: Seq<WeaponType>, dropped: Option<PickupKind>) -> bool {
    match outcome {
        DropRoll::WeaponDrop => dropped matches Some(PickupKind::Weapon(w)) && candidates.contains(w),
        DropRoll::HealDrop => dropped == Some(PickupKind::Heal),
        DropRoll::NoDrop => dropped is None,
    }
}

/// Whether `dropped` is what a roll of `roll` yields for these candidates.
pub open spec fn drop_yields_for_roll(roll: u32, candidates: Seq<WeaponType>, dropped: Option<PickupKind>) -> bool {
    drop_yields(spec_drop_roll(roll, candidates.len() > 0), candidates, dropped)
}

/// What a roll in percent yields, given whether some weapon kind can drop.
pub fn drop_roll(roll: u32, has_candidates: bool) -> (outcome: DropRoll)
    ensures
        outcome == spec_drop_roll(roll, has_candidates),
{
    if roll < WEAPON_DROP_PERCENT {
        if has_candidates {
            DropRoll::WeaponDrop
        } else {
            DropRoll::NoDrop
        }
    } else if roll < WEAPON_DROP_PERCENT + HEAL_DROP_PERCENT {
        DropRoll::HealDrop
    } else {
        DropRoll::NoDrop
    }
}

/// Draws what a defeated enemy drops, weapons being drawn among
/// `candidates` (see `Arsenal::candidates`).
pub fn roll_drop(candidates: &Vec<WeaponType>) -> (dropped: Option<PickupKind>)
    ensures
        exists|roll: u32| roll < 100 && #[trigger] drop_yields_for_roll(roll, candidates@, dropped),
{
    let roll = roll_percent();
    let dropped = match drop_roll(roll, candidates.len() > 0) {
        DropRoll::WeaponDrop => {
            let i = random_below(candidates.len());
            assert(candidates@[i as int] == candidates[i as int]);
            Some(PickupKind::Weapon(candidates[i]))
        },
        DropRoll::HealDrop => Some(PickupKind::Heal),
        DropRoll::NoDrop => None,
    };
    assert(drop_yields_for_roll(roll, candidates@, dropped));
    dropped
}

/// Draws the weapons scattered when a wave starts: `FIELD_WEAPONS_PER_WAVE`
/// kinds drawn among `candidates`, or none when no kind can drop.
pub fn field_weapon_drops(candidates: &Vec<WeaponType>) -> (drops: Vec<WeaponType>)
    ensures
        candidates.len() == 0 ==> drops.len() == 0,
        candidates.len() > 0 ==> drops.len() == FIELD_WEAPONS_PER_WAVE,
        forall|i: int| 0 <= i < drops.len() ==> candidates@.contains(#[trigger] drops@[i]),
{
    let mut drops: Vec<WeaponType> = Vec::new();
    if candidates.len() == 0 {
        return drops;
    }
    let mut n: usize = 0;
    while n < FIELD_WEAPONS_PER_WAVE
        invariant
            candidates.len() > 0,
            n <= FIELD_WEAPONS_PER_WAVE,
            drops.len() == n,
            forall|i: int| 0 <= i < drops.len() ==> candidates@.contains(#[trigger] drops@[i]),
        decreases FIELD_WEAPONS_PER_WAVE - n,
    {
        let i = random_below(candidates.len());
        assert(candidates@[i as int] == candidates[i as int]);
        drops.push(candidates[i]);
        n = n + 1;
    }
    drops
}

/// Law: the drop rates per enemy. A weapon comes exactly on the rolls below
/// `WEAPON_DROP_PERCENT`, and never when no kind can drop; a heal comes
/// exactly on the next `HEAL_DROP_PERCENT` rolls, whether or not a weapon
/// kind can drop; every other roll gives nothing. With rolls in percent, a
/// weapon thus comes for 10 rolls in 100 and a heal for 6.
pub proof fn lemma_drops_follow_rates(roll: u32, has_candidates: bool)
    ensures
        spec_drop_roll(roll, has_candidates) == DropRoll::WeaponDrop <==> (has_candidates && roll
            < WEAPON_DROP_PERCENT),
        spec_drop_roll(roll, has_candidates) == DropRoll::HealDrop <==> (WEAPON_DROP_PERCENT <= roll
            < WEAPON_DROP_PERCENT + HEAL_DROP_PERCENT),
        spec_drop_roll(roll, has_candidates) == DropRoll::WeaponDrop <==> (has_candidates && roll < 10),
        spec_drop_roll(roll, has_candidates) == DropRoll::HealDrop <==> (10 <= roll < 16),
        spec_drop_roll(roll, has_candidates) == DropRoll::NoDrop <==> (roll >= 16 || (roll < 10
            && !has_candidates)),
{
}

} // verus!
