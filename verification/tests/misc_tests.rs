use beby_rogue_like::assets::{next_walk_frame, weapon_drop_icon, SpriteId, PLAYER_WALK_FRAME_COUNT};
use beby_rogue_like::enemy::{arena_side, boss_stats, kill_score, pick_spawn_side, plan_enemy_spawn, ArenaSide, EnemyKind, MovePattern};
use beby_rogue_like::input::{confirm_just_pressed, keyboard_axes, stick_released, stick_start, PointerSource};
use beby_rogue_like::pickup::{drop_roll, field_weapon_drops, roll_drop, DropRoll, PickupKind};
use beby_rogue_like::rng::roll_percent;
use beby_rogue_like::wave::WaveInfo;
use beby_rogue_like::weapon::WeaponType;

#[test]
fn drop_rates() {
    assert_eq!(drop_roll(0, true), DropRoll::WeaponDrop);
    assert_eq!(drop_roll(9, true), DropRoll::WeaponDrop);
    assert_eq!(drop_roll(10, true), DropRoll::HealDrop);
    assert_eq!(drop_roll(15, true), DropRoll::HealDrop);
    assert_eq!(drop_roll(16, true), DropRoll::NoDrop);
    assert_eq!(drop_roll(0, false), DropRoll::NoDrop);
    assert_eq!(drop_roll(9, false), DropRoll::NoDrop);
    assert_eq!(drop_roll(10, false), DropRoll::HealDrop);
    assert_eq!(drop_roll(15, false), DropRoll::HealDrop);
    assert_eq!(drop_roll(16, false), DropRoll::NoDrop);
    assert_eq!(drop_roll(99, false), DropRoll::NoDrop);
}

#[test]
fn heal_rate_is_the_same_without_weapon_candidates() {
    let heals = |has: bool| (0..100u32).filter(|r| drop_roll(*r, has) == DropRoll::HealDrop).count();
    assert_eq!(heals(true), 6);
    assert_eq!(heals(false), 6);
    assert_eq!((0..100u32).filter(|r| drop_roll(*r, true) == DropRoll::WeaponDrop).count(), 10);
    assert_eq!((0..100u32).filter(|r| drop_roll(*r, false) == DropRoll::WeaponDrop).count(), 0);
}

#[test]
fn drops_come_from_the_candidates() {
    let candidates = vec![WeaponType::Bow];
    for _ in 0..300 {
        match roll_drop(&candidates) {
            Some(PickupKind::Weapon(kind)) => assert_eq!(kind, WeaponType::Bow),
            Some(PickupKind::Heal) | None => {}
        }
        assert_ne!(roll_drop(&vec![]).map(|d| matches!(d, PickupKind::Weapon(_))), Some(true));
    }
}

#[test]
fn field_weapons() {
    assert!(field_weapon_drops(&vec![]).is_empty());
    let drops = field_weapon_drops(&vec![WeaponType::Aura, WeaponType::Bomb]);
    assert_eq!(drops.len(), 1);
    assert!(drops[0] == WeaponType::Aura || drops[0] == WeaponType::Bomb);
}

#[test]
fn rolls_are_percent() {
    for _ in 0..500 {
        assert!(roll_percent() < 100);
    }
}

#[test]
fn spawns_fit_the_wave() {
    for _ in 0..200 {
        let spawn = plan_enemy_spawn(&WaveInfo::new(1));
        assert_eq!(spawn.kind, EnemyKind::Normal);
        assert_eq!(spawn.pattern, MovePattern::Chase);
        assert_eq!(spawn.hp_hundredths, 3000);
        assert_eq!(spawn.speed_hundredths, 15000);
        assert_eq!(spawn.contact_damage_hundredths, 1000);
        assert_eq!(spawn.bullet_damage_hundredths, 0);
        assert_eq!(spawn.score, 30);
        let spawn = plan_enemy_spawn(&WaveInfo::new(2));
        assert_eq!(spawn.hp_hundredths, 30 * 115);
        assert_eq!(spawn.speed_hundredths, 150 * 105);
        assert_eq!(spawn.contact_damage_hundredths, 10 * 110);
        let spawn = plan_enemy_spawn(&WaveInfo::new(7));
        let stats = spawn.kind.stats();
        assert_eq!(spawn.hp_hundredths, stats.max_hp as u64 * 190);
        assert_eq!(spawn.speed_hundredths, stats.speed as u64 * 130);
        assert_eq!(spawn.contact_damage_hundredths, stats.contact_damage as u64 * 160);
        if spawn.kind == EnemyKind::Shooter {
            assert_eq!(spawn.bullet_damage_hundredths, 8 * 160);
        } else {
            assert_eq!(spawn.bullet_damage_hundredths, 0);
        }
    }
}

#[test]
fn sprites_and_frames() {
    assert_eq!(weapon_drop_icon(WeaponType::Sword), SpriteId::DropSword);
    assert_eq!(weapon_drop_icon(WeaponType::Bomb), SpriteId::DropBomb);
    assert_eq!(SpriteId::DropHeal.path(), "sprites/drop_heal.png");
    assert_eq!(SpriteId::PlayerWalk.path(), "sprites/player_walk.png");
    assert_eq!(EnemyKind::Shooter.image(), SpriteId::EnemyNormal);
    assert_eq!(next_walk_frame(0), 1);
    assert_eq!(next_walk_frame(3), 0);
    assert_eq!(PLAYER_WALK_FRAME_COUNT, 4);
}

#[test]
fn confirming_and_moving() {
    assert!(confirm_just_pressed(true, false, false));
    assert!(confirm_just_pressed(false, false, true));
    assert!(!confirm_just_pressed(false, false, false));
    assert_eq!(keyboard_axes(true, false, false, true), (1, 1));
    assert_eq!(keyboard_axes(true, true, true, false), (-1, 0));
    assert_eq!(keyboard_axes(false, false, false, false), (0, 0));
}

#[test]
fn stick_pointers() {
    assert_eq!(stick_start(false, false, Some(5), true), Some(PointerSource::Touch(5)));
    assert_eq!(stick_start(false, false, None, true), Some(PointerSource::Mouse));
    assert_eq!(stick_start(false, true, Some(5), true), None);
    assert_eq!(stick_start(true, false, Some(5), true), None);
    assert!(stick_released(PointerSource::Touch(5), false, false, true));
    assert!(!stick_released(PointerSource::Touch(5), true, true, false));
    assert!(stick_released(PointerSource::Mouse, true, false, false));
    assert!(!stick_released(PointerSource::Mouse, false, false, true));
}

#[test]
fn arena_sides_by_number() {
    assert_eq!(arena_side(0), ArenaSide::Top);
    assert_eq!(arena_side(1), ArenaSide::Bottom);
    assert_eq!(arena_side(2), ArenaSide::Left);
    assert_eq!(arena_side(3), ArenaSide::Right);
    assert_eq!(arena_side(9), ArenaSide::Right);
    let mut seen = Vec::new();
    for _ in 0..400 {
        let side = pick_spawn_side();
        if !seen.contains(&side) {
            seen.push(side);
        }
    }
    assert_eq!(seen.len(), 4);
}

#[test]
fn kill_scores() {
    assert_eq!(kill_score(&EnemyKind::Tank.stats()), 90);
    assert_eq!(kill_score(&boss_stats()), 1500);
}
