use beby_rogue_like::enemy::{
    boss_stats, move_pattern_for, pick_enemy_kind, pick_move_pattern, roll_enemy_kind, EnemyKind, EnemyStats,
    MovePattern, SHOOTER_PREFERRED_DISTANCE,
};

#[test]
fn early_waves_spawn_only_normal() {
    for roll in [0.0f32, 0.5, 0.99] {
        let roll = (roll * 100.0) as u32;
        assert_eq!(pick_enemy_kind(1, roll), EnemyKind::Normal);
        assert_eq!(pick_enemy_kind(2, roll), EnemyKind::Normal);
    }
}

#[test]
fn fast_appears_from_wave_3() {
    assert_eq!(pick_enemy_kind(3, (0.1f32 * 100.0) as u32), EnemyKind::Fast);
    assert_eq!(pick_enemy_kind(3, (0.5f32 * 100.0) as u32), EnemyKind::Normal);
}

#[test]
fn tank_appears_from_wave_5() {
    assert_eq!(pick_enemy_kind(4, (0.1f32 * 100.0) as u32), EnemyKind::Fast);
    assert_eq!(pick_enemy_kind(5, (0.1f32 * 100.0) as u32), EnemyKind::Tank);
    assert_eq!(pick_enemy_kind(5, (0.3f32 * 100.0) as u32), EnemyKind::Fast);
    assert_eq!(pick_enemy_kind(5, (0.9f32 * 100.0) as u32), EnemyKind::Normal);
}

#[test]
fn shooter_appears_from_wave_6() {
    for roll in [0.0f32, 0.5, 0.99] {
        assert_ne!(pick_enemy_kind(5, (roll * 100.0) as u32), EnemyKind::Shooter);
    }
    assert_eq!(pick_enemy_kind(6, (0.1f32 * 100.0) as u32), EnemyKind::Shooter);
    assert_eq!(pick_enemy_kind(6, (0.2f32 * 100.0) as u32), EnemyKind::Tank);
    assert_eq!(pick_enemy_kind(6, (0.5f32 * 100.0) as u32), EnemyKind::Fast);
    assert_eq!(pick_enemy_kind(6, (0.9f32 * 100.0) as u32), EnemyKind::Normal);
    assert_eq!(pick_enemy_kind(10, (0.1f32 * 100.0) as u32), EnemyKind::Shooter);
}

#[test]
fn kind_thresholds_are_exclusive_at_the_boundary() {
    assert_eq!(pick_enemy_kind(3, 24), EnemyKind::Fast);
    assert_eq!(pick_enemy_kind(3, 25), EnemyKind::Normal);
    assert_eq!(pick_enemy_kind(5, 19), EnemyKind::Tank);
    assert_eq!(pick_enemy_kind(5, 20), EnemyKind::Fast);
    assert_eq!(pick_enemy_kind(5, 44), EnemyKind::Fast);
    assert_eq!(pick_enemy_kind(5, 45), EnemyKind::Normal);
    assert_eq!(pick_enemy_kind(7, 14), EnemyKind::Shooter);
    assert_eq!(pick_enemy_kind(7, 15), EnemyKind::Tank);
    assert_eq!(pick_enemy_kind(7, 34), EnemyKind::Tank);
    assert_eq!(pick_enemy_kind(7, 35), EnemyKind::Fast);
    assert_eq!(pick_enemy_kind(7, 59), EnemyKind::Fast);
    assert_eq!(pick_enemy_kind(7, 60), EnemyKind::Normal);
}

#[test]
fn kinds_join_in_order_for_every_roll() {
    for roll in 0..100u32 {
        assert_eq!(pick_enemy_kind(1, roll), EnemyKind::Normal);
        assert_eq!(pick_enemy_kind(2, roll), EnemyKind::Normal);
        for wave in 1..5u32 {
            assert_ne!(pick_enemy_kind(wave, roll), EnemyKind::Tank);
        }
        for wave in 1..6u32 {
            assert_ne!(pick_enemy_kind(wave, roll), EnemyKind::Shooter);
        }
    }
}

#[test]
fn rolled_kinds_belong_to_the_wave() {
    for _ in 0..200 {
        assert_eq!(roll_enemy_kind(1), EnemyKind::Normal);
        assert_ne!(roll_enemy_kind(4), EnemyKind::Tank);
        assert_ne!(roll_enemy_kind(5), EnemyKind::Shooter);
    }
}

#[test]
fn stats_of_each_kind() {
    assert_eq!(
        EnemyKind::Normal.stats(),
        EnemyStats { size: 56, speed: 150, max_hp: 30, contact_damage: 10 }
    );
    assert_eq!(EnemyKind::Fast.stats(), EnemyStats { size: 44, speed: 240, max_hp: 15, contact_damage: 8 });
    assert_eq!(EnemyKind::Tank.stats(), EnemyStats { size: 84, speed: 90, max_hp: 90, contact_damage: 20 });
    assert_eq!(
        EnemyKind::Shooter.stats(),
        EnemyStats { size: 48, speed: 130, max_hp: 20, contact_damage: 6 }
    );
    assert_eq!(boss_stats(), EnemyStats { size: 96, speed: 70, max_hp: 1500, contact_damage: 30 });
}

#[test]
fn only_the_shooter_shoots_and_keeps_distance() {
    assert!(EnemyKind::Shooter.ranged_attack().is_some());
    assert!(EnemyKind::Normal.ranged_attack().is_none());
    assert_eq!(move_pattern_for(EnemyKind::Fast, true), MovePattern::Zigzag);
    assert_eq!(move_pattern_for(EnemyKind::Normal, false), MovePattern::Chase);
    assert_eq!(move_pattern_for(EnemyKind::Tank, true), MovePattern::Chase);
    assert_eq!(
        move_pattern_for(EnemyKind::Shooter, false),
        MovePattern::KeepDistance { preferred: SHOOTER_PREFERRED_DISTANCE, strafe_dir: -1 }
    );
    for _ in 0..50 {
        match pick_move_pattern(EnemyKind::Shooter) {
            MovePattern::KeepDistance { preferred, strafe_dir } => {
                assert_eq!(preferred, 380);
                assert!(strafe_dir == 1 || strafe_dir == -1);
            }
            other => panic!("unexpected pattern {:?}", other),
        }
    }
}

#[test]
fn wave_zero_falls_through_to_the_late_mix() {
    assert_eq!(pick_enemy_kind(0, 10), EnemyKind::Shooter);
    assert_eq!(pick_enemy_kind(0, 70), EnemyKind::Normal);
}
