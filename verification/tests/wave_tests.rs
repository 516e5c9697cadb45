use beby_rogue_like::wave::{WaveInfo, WavePhase, FINAL_WAVE};

#[test]
fn waves_grow_longer_from_30_to_57_seconds() {
    assert_eq!(WaveInfo::new(1).duration_secs(), 30);
    assert_eq!(WaveInfo::new(2).duration_secs(), 33);
    assert_eq!(WaveInfo::new(10).duration_secs(), 57);
}

#[test]
fn enemies_get_sturdier() {
    assert_eq!(WaveInfo::new(1).enemy_hp_percent(), 100);
    assert_eq!(WaveInfo::new(2).enemy_hp_percent(), 115);
    assert_eq!(WaveInfo::new(10).enemy_hp_percent(), 235);
    assert_eq!(WaveInfo::new(1).enemy_speed_percent(), 100);
    assert_eq!(WaveInfo::new(10).enemy_speed_percent(), 145);
    assert_eq!(WaveInfo::new(1).enemy_damage_percent(), 100);
    assert_eq!(WaveInfo::new(10).enemy_damage_percent(), 190);
}

#[test]
fn final_wave_does_not_end_by_timer() {
    assert!(WaveInfo::new(1).ends_by_timer(true));
    assert!(!WaveInfo::new(1).ends_by_timer(false));
    assert!(WaveInfo::new(9).ends_by_timer(true));
    assert!(!WaveInfo::new(FINAL_WAVE).ends_by_timer(true));
    assert!(WaveInfo::new(FINAL_WAVE).is_boss_wave());
    assert!(!WaveInfo::new(9).is_boss_wave());
}

#[test]
fn boss_appears_once_on_the_final_wave() {
    let mut wave = WaveInfo::new(9);
    assert!(!wave.start_fighting());
    assert!(!wave.boss_spawned);
    let mut wave = wave.next();
    assert_eq!(wave.number, FINAL_WAVE);
    assert!(wave.start_fighting());
    assert!(wave.boss_spawned);
    assert!(!wave.start_fighting());
}

#[test]
fn victory_when_the_boss_is_defeated() {
    let mut wave = WaveInfo::new(FINAL_WAVE);
    assert!(!wave.is_victory(false));
    assert!(!wave.reinforcements_stopped(false));
    wave.start_fighting();
    assert!(!wave.is_victory(true));
    assert!(wave.is_victory(false));
    assert!(wave.reinforcements_stopped(false));
    assert!(!wave.reinforcements_stopped(true));
    let mut early = WaveInfo::new(5);
    early.boss_spawned = true;
    assert!(!early.is_victory(false));
}

#[test]
fn next_wave_starts_fresh() {
    let mut wave = WaveInfo::new(FINAL_WAVE);
    wave.start_fighting();
    let next = wave.next();
    assert_eq!(next, WaveInfo { number: FINAL_WAVE + 1, boss_spawned: false });
    assert_eq!(WavePhase::default(), WavePhase::Fighting);
}
