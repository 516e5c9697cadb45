use beby_rogue_like::arsenal::{Arsenal, WeaponPickup};
use beby_rogue_like::projectile::{contains_id, resolve_contacts};
use beby_rogue_like::weapon::{all_weapon_types, fan_steps, Attack, Weapon, WeaponType, MAX_LEVEL, MAX_WEAPONS};

#[test]
fn new_arsenal_holds_a_level_one_sword() {
    let arsenal = Arsenal::new();
    assert_eq!(arsenal.weapons().clone(), vec![Weapon { weapon_type: WeaponType::Sword, level: 1 }]);
    assert_eq!(arsenal.level_of(WeaponType::Sword), Some(1));
    assert_eq!(arsenal.level_of(WeaponType::Bow), None);
    assert_eq!(arsenal.len(), 1);
}

#[test]
fn every_kind_is_a_candidate_at_start() {
    let arsenal = Arsenal::new();
    assert_eq!(arsenal.candidates(), all_weapon_types());
}

#[test]
fn maxed_weapon_is_no_longer_a_candidate() {
    let mut arsenal = Arsenal::new();
    for level in 2..=MAX_LEVEL {
        assert_eq!(arsenal.collect_weapon(WeaponType::Sword), WeaponPickup::LevelUp(level));
    }
    assert_eq!(arsenal.collect_weapon(WeaponType::Sword), WeaponPickup::AtMaxLevel);
    assert_eq!(arsenal.level_of(WeaponType::Sword), Some(MAX_LEVEL));
    assert_eq!(
        arsenal.candidates(),
        vec![WeaponType::Bow, WeaponType::Spear, WeaponType::Aura, WeaponType::Bomb]
    );
}

#[test]
fn new_kind_joins_at_end_of_frame() {
    let mut arsenal = Arsenal::new();
    assert_eq!(arsenal.collect_weapon(WeaponType::Bow), WeaponPickup::Added);
    // Still waiting: a second bow in the same frame is not a level-up.
    assert_eq!(arsenal.collect_weapon(WeaponType::Bow), WeaponPickup::AlreadyAdded);
    assert_eq!(arsenal.level_of(WeaponType::Bow), None);
    assert_eq!(arsenal.finish_pickups(), vec![WeaponType::Bow]);
    assert_eq!(arsenal.level_of(WeaponType::Bow), Some(1));
    assert_eq!(arsenal.collect_weapon(WeaponType::Bow), WeaponPickup::LevelUp(2));
    assert_eq!(arsenal.finish_pickups(), Vec::<WeaponType>::new());
    assert_eq!(
        arsenal.summary(),
        vec![(WeaponType::Sword, 1), (WeaponType::Bow, 2)]
    );
}

#[test]
fn all_kinds_fit_and_are_kept_in_order() {
    let mut arsenal = Arsenal::new();
    for kind in [WeaponType::Bomb, WeaponType::Aura, WeaponType::Spear, WeaponType::Bow] {
        assert_eq!(arsenal.collect_weapon(kind), WeaponPickup::Added);
    }
    assert_eq!(
        arsenal.finish_pickups(),
        vec![WeaponType::Bomb, WeaponType::Aura, WeaponType::Spear, WeaponType::Bow]
    );
    assert_eq!(arsenal.len(), 5);
    assert!(arsenal.len() <= MAX_WEAPONS);
    let kinds: Vec<WeaponType> = arsenal.weapons().iter().map(|w| w.weapon_type).collect();
    assert_eq!(
        kinds,
        vec![WeaponType::Sword, WeaponType::Bomb, WeaponType::Aura, WeaponType::Spear, WeaponType::Bow]
    );
}

#[test]
fn candidates_are_exactly_the_helpful_pickups() {
    let mut arsenal = Arsenal::new();
    for _ in 0..7 {
        arsenal.collect_weapon(WeaponType::Sword);
    }
    arsenal.collect_weapon(WeaponType::Aura);
    arsenal.finish_pickups();
    for kind in all_weapon_types() {
        let is_candidate = arsenal.candidates().contains(&kind);
        assert_eq!(arsenal.is_candidate(kind), is_candidate);
        let before = arsenal.summary();
        let outcome = arsenal.collect_weapon(kind);
        arsenal.finish_pickups();
        let helped = matches!(outcome, WeaponPickup::LevelUp(_) | WeaponPickup::Added);
        assert_eq!(is_candidate, helped);
        assert_eq!(helped, before != arsenal.summary());
        // Undo nothing: build a fresh copy of the same state for the next kind.
        arsenal = Arsenal::new();
        for _ in 0..7 {
            arsenal.collect_weapon(WeaponType::Sword);
        }
        arsenal.collect_weapon(WeaponType::Aura);
        arsenal.finish_pickups();
    }
}

#[test]
fn cooldowns_in_milliseconds() {
    assert_eq!(WeaponType::Sword.cooldown_millis(), 1000);
    assert_eq!(WeaponType::Bow.cooldown_millis(), 800);
    assert_eq!(WeaponType::Spear.cooldown_millis(), 1500);
    assert_eq!(WeaponType::Aura.cooldown_millis(), 500);
    assert_eq!(WeaponType::Bomb.cooldown_millis(), 2500);
}

#[test]
fn attacks_grow_with_level() {
    let sword = Weapon { weapon_type: WeaponType::Sword, level: 3 };
    assert_eq!(sword.attack(), Attack::Area { damage: 25, radius: 140 });
    let aura = Weapon { weapon_type: WeaponType::Aura, level: 1 };
    assert_eq!(aura.attack(), Attack::Area { damage: 5, radius: 90 });
    let spear = Weapon { weapon_type: WeaponType::Spear, level: 2 };
    assert_eq!(spear.attack(), Attack::Piercing { damage: 14, speed: 600 });
    let bomb = Weapon { weapon_type: WeaponType::Bomb, level: 8 };
    assert_eq!(bomb.attack(), Attack::Bomb { damage: 81, explosion_radius: 180, speed: 400 });
}

#[test]
fn bow_shoots_two_arrows_at_level_4_and_three_at_level_8() {
    let count = |level: u8| match (Weapon { weapon_type: WeaponType::Bow, level }).attack() {
        Attack::Volley { count, .. } => count,
        other => panic!("unexpected attack {:?}", other),
    };
    assert_eq!(count(1), 1);
    assert_eq!(count(3), 1);
    assert_eq!(count(4), 2);
    assert_eq!(count(7), 2);
    assert_eq!(count(8), 3);
    assert_eq!(
        (Weapon { weapon_type: WeaponType::Bow, level: 2 }).attack(),
        Attack::Volley { damage: 16, count: 1, speed: 500 }
    );
}

#[test]
fn arrow_fans() {
    assert!(fan_steps(0).is_empty());
    assert_eq!(fan_steps(1), vec![0]);
    assert_eq!(fan_steps(2), vec![0, 1]);
    assert_eq!(fan_steps(3), vec![-1, 0, 1]);
}

#[test]
fn piercing_projectile_hits_each_enemy_once() {
    let mut hit = vec![7u64];
    let (damaged, spent) = resolve_contacts(true, &mut hit, &vec![3, 7, 5, 3]);
    assert_eq!(damaged, vec![3, 5]);
    assert!(!spent);
    assert_eq!(hit, vec![7, 3, 5]);
    let (damaged, spent) = resolve_contacts(true, &mut hit, &vec![5, 3, 9]);
    assert_eq!(damaged, vec![9]);
    assert!(!spent);
    assert_eq!(hit, vec![7, 3, 5, 9]);
}

#[test]
fn arrow_stops_at_first_enemy() {
    let mut hit = Vec::new();
    let (damaged, spent) = resolve_contacts(false, &mut hit, &vec![4, 8]);
    assert_eq!(damaged, vec![4]);
    assert!(spent);
    assert!(hit.is_empty());
    let (damaged, spent) = resolve_contacts(false, &mut hit, &vec![]);
    assert!(damaged.is_empty());
    assert!(!spent);
}

#[test]
fn contains_id_finds_ids() {
    assert!(contains_id(&vec![1, 2, 3], 2));
    assert!(!contains_id(&vec![1, 2, 3], 4));
    assert!(!contains_id(&vec![], 0));
}
