//! Weapons: their kinds, levels and what each does when it fires.
use vstd::prelude::*;

verus! {

/// How many weapons the player can hold at once.
pub const MAX_WEAPONS: usize = 6;

/// The highest level a weapon can reach.
pub const MAX_LEVEL: u8 = 8;

/// The kinds of weapon.
#[derive(Clone, Copy, PartialEq, Eq, Debug, Structural)]
pub enum WeaponType {
    /// Sweeps every enemy around the player.
    Sword,
    /// Shoots arrows at the nearest enemy.
    Bow,
    /// Throws a spear that pierces enemies.
    Spear,
    /// Damages everything near the player, often.
    Aura,
    /// Throws a bomb that explodes where it lands.
    Bomb,
}

/// Every weapon kind, in the order in which drops are drawn.
pub open spec fn spec_all_weapon_types() -> Seq<WeaponType> {
    seq![WeaponType::Sword, WeaponType::Bow, WeaponType::Spear, WeaponType::Aura, WeaponType::Bomb]
}

/// Every weapon kind, in the order in which drops are drawn.
pub fn all_weapon_types() -> (all: Vec<WeaponType>)
    ensures
        all@ == spec_all_weapon_types(),
{
    let all = vec![WeaponType::Sword, WeaponType::Bow, WeaponType::Spear, WeaponType::Aura, WeaponType::Bomb];
    assert(all@ =~= spec_all_weapon_types());
    all
}

impl WeaponType {
    /// Time between two attacks of this weapon, in milliseconds.
    pub fn cooldown_millis(self) -> (ms: u32)
        ensures
            ms == spec_cooldown_millis(self),
    {
        match self {
            WeaponType::Sword => 1000,
            WeaponType::Bow => 800,
            WeaponType::Spear => 1500,
            WeaponType::Aura => 500,
            WeaponType::Bomb => 2500,
        }
    }
}

/// Time between two attacks of a weapon kind, in milliseconds.
pub open spec fn spec_cooldown_millis(weapon_type: WeaponType) -> u32 {
    match weapon_type {
        WeaponType::Sword => 1000,
        WeaponType::Bow => 800,
        WeaponType::Spear => 1500,
        WeaponType::Aura => 500,
        WeaponType::Bomb => 2500,
    }
}

/// One weapon held by the player.
#[derive(Clone, Copy, PartialEq, Eq, Debug, Structural)]
pub struct Weapon {
    pub weapon_type: WeaponType,
    pub level: u8,
}

impl Weapon {
    /// A newly obtained weapon, at level 1.
    pub fn new(weapon_type: WeaponType) -> (weapon: Weapon)
        ensures
            weapon == (Weapon { weapon_type, level: 1 }),
    {
        Weapon { weapon_type, level: 1 }
    }
}

/// What one attack of a weapon does. Distances are in pixels, speeds in pixels
/// per second.
#[derive(Clone, Copy, PartialEq, Eq, Debug, Structural)]
pub enum Attack {
    /// Instant damage to every enemy within `radius` of the player.
    Area { damage: u32, radius: u32 },
    /// `count` arrows in a fan towards the nearest enemy; each stops at the
    /// first enemy it hits.
    Volley { damage: u32, count: u32, speed: u32 },
    /// One spear towards the nearest enemy that passes through enemies.
    Piercing { damage: u32, speed: u32 },
    /// A bomb thrown at the nearest enemy's position that explodes there.
    Bomb { damage: u32, explosion_radius: u32, speed: u32 },
}

/// The attack of a weapon kind at a level, with `bonus` levels above the first.
pub open spec fn spec_attack(weapon_type: WeaponType, level: u8) -> Attack
    recommends
        level >= 1,
{
    let bonus = level - 1;
    match weapon_type {
        WeaponType::Sword => Attack::Area {
            damage: (15 + 5 * bonus) as u32,
            radius: (120 + 10 * bonus) as u32,
        },
        WeaponType::Aura => Attack::Area {
            damage: (5 + 2 * bonus) as u32,
            radius: (90 + 8 * bonus) as u32,
        },
        WeaponType::Bow => Attack::Volley {
            damage: (12 + 4 * bonus) as u32,
            count: (1 + level / 4) as u32,
            speed: 500,
        },
        WeaponType::Spear => Attack::Piercing { damage: (10 + 4 * bonus) as u32, speed: 600 },
        WeaponType::Bomb => Attack::Bomb {
            damage: (25 + 8 * bonus) as u32,
            explosion_radius: (110 + 10 * bonus) as u32,
            speed: 400,
        },
    }
}

impl Weapon {
    /// What this weapon does when its cooldown runs out.
    pub fn attack(&self) -> (attack: Attack)
        requires
            self.level >= 1,
        ensures
            attack == spec_attack(self.weapon_type, self.level),
    {
        let bonus: u32 = (self.level - 1) as u32;
        match self.weapon_type {
            WeaponType::Sword => Attack::Area { damage: 15 + 5 * bonus, radius: 120 + 10 * bonus },
            WeaponType::Aura => Attack::Area { damage: 5 + 2 * bonus, radius: 90 + 8 * bonus },
            WeaponType::Bow => Attack::Volley {
                damage: 12 + 4 * bonus,
                count: 1 + (self.level / 4) as u32,
                speed: 500,
            },
            WeaponType::Spear => Attack::Piercing { damage: 10 + 4 * bonus, speed: 600 },
            WeaponType::Bomb => Attack::Bomb {
                damage: 25 + 8 * bonus,
                explosion_radius: 110 + 10 * bonus,
                speed: 400,
            },
        }
    }
}

/// The damage an attack deals to each enemy it reaches.
pub open spec fn attack_damage(attack: Attack) -> u32 {
    match attack {
        Attack::Area { damage, .. } => damage,
        Attack::Volley { damage, .. } => damage,
        Attack::Piercing { damage, .. } => damage,
        Attack::Bomb { damage, .. } => damage,
    }
}

/// The radius an attack reaches around its centre: the area's radius or the
/// bomb's explosion radius; none for arrows and spears.
pub open spec fn attack_radius(attack: Attack) -> Option<u32> {
    match attack {
        Attack::Area { radius, .. } => Some(radius),
        Attack::Bomb { explosion_radius, .. } => Some(explosion_radius),
        _ => None,
    }
}

/// Law: what each weapon does at its first level. The sword and the aura
/// strike an area (15 damage over 120, 5 over 90), the bow shoots one arrow
/// of 12 damage at speed 500, the spear pierces for 10 at speed 600, and the
/// bomb is thrown at speed 400 and explodes for 25 over 110.
pub proof fn lemma_first_level_attacks()
    ensures
        spec_attack(WeaponType::Sword, 1) == (Attack::Area { damage: 15, radius: 120 }),
        spec_attack(WeaponType::Aura, 1) == (Attack::Area { damage: 5, radius: 90 }),
        spec_attack(WeaponType::Bow, 1) == (Attack::Volley { damage: 12, count: 1, speed: 500 }),
        spec_attack(WeaponType::Spear, 1) == (Attack::Piercing { damage: 10, speed: 600 }),
        spec_attack(WeaponType::Bomb, 1) == (Attack::Bomb { damage: 25, explosion_radius: 110, speed: 400 }),
{
}

/// Law: each level up keeps the kind of attack and its speed, and makes the
/// weapon strictly stronger: the sword gains 5 damage and 10 radius, the aura
/// 2 damage and 8 radius, the bow and the spear 4 damage, the bomb 8 damage
/// and 10 explosion radius. The bow never loses an arrow, and shoots one more
/// at every fourth level.
pub proof fn lemma_level_up_strengthens(weapon_type: WeaponType, level: u8)
    requires
        1 <= level < 255,
    ensures
        ({
            let before = spec_attack(weapon_type, level);
            let after = spec_attack(weapon_type, (level + 1) as u8);
            &&& attack_damage(after) > attack_damage(before)
            &&& weapon_type == WeaponType::Sword ==> attack_damage(after) == attack_damage(before) + 5
                && attack_radius(after) == Some((attack_radius(before)->0 + 10) as u32)
            &&& weapon_type == WeaponType::Aura ==> attack_damage(after) == attack_damage(before) + 2
                && attack_radius(after) == Some((attack_radius(before)->0 + 8) as u32)
            &&& weapon_type == WeaponType::Bow ==> attack_damage(after) == attack_damage(before) + 4
                && after is Volley && before is Volley && after->Volley_speed == 500
                && before->Volley_count <= after->Volley_count
                && (after->Volley_count == before->Volley_count + 1 <==> (level + 1) % 4 == 0)
            &&& weapon_type == WeaponType::Spear ==> attack_damage(after) == attack_damage(before) + 4
                && after is Piercing && after->Piercing_speed == 600
            &&& weapon_type == WeaponType::Bomb ==> attack_damage(after) == attack_damage(before) + 8
                && attack_radius(after) == Some((attack_radius(before)->0 + 10) as u32)
                && after is Bomb && after->Bomb_speed == 400
        }),
{
}

/// The angular step of the `i`-th arrow of a fan of `count`, in units of the
/// fan's spacing: the fan is centred on the target for an odd count, and
/// leans one step to one side for an even count.
pub open spec fn spec_fan_step(i: int, count: int) -> int {
    i - (count - 1) / 2
}

/// The angular steps of the arrows of a fan of `count` arrows.
pub fn fan_steps(count: u32) -> (steps: Vec<i64>)
    ensures
        steps.len() == count,
        forall|i: int| 0 <= i < count ==> #[trigger] steps[i] == spec_fan_step(i, count as int),
{
    let mut steps: Vec<i64> = Vec::new();
    if count == 0 {
        return steps;
    }
    let half: i64 = ((count - 1) / 2) as i64;
    let mut i: u32 = 0;
    while i < count
        invariant
            i <= count,
            count >= 1,
            half == (count - 1) / 2,
            steps.len() == i,
            forall|j: int| 0 <= j < i ==> #[trigger] steps[j] == spec_fan_step(j, count as int),
        decreases count - i,
    {
        steps.push(i as i64 - half);
        i = i + 1;
    }
    steps
}

} // verus!
