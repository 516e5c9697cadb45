use beby_rogue_like::lang::Language;
use beby_rogue_like::run::{GameState, RunResult, Score};
use beby_rogue_like::screens::{
    intermission_text, result_heading, result_weapons_line, title_input, wave_hud_text, weapon_label,
    weapon_list_text,
};
use beby_rogue_like::text::{join, push_decimal, with_number};
use beby_rogue_like::wave::WaveInfo;
use beby_rogue_like::arsenal::Arsenal;
use beby_rogue_like::weapon::WeaponType;

#[test]
fn decimal_numbers() {
    let mut text = String::from("n=");
    push_decimal(&mut text, 0);
    assert_eq!(text, "n=0");
    let mut text = String::new();
    push_decimal(&mut text, 1234567890);
    assert_eq!(text, "1234567890");
    assert_eq!(with_number("a", u64::MAX, "b"), format!("a{}b", u64::MAX));
}

#[test]
fn joining_lines() {
    assert_eq!(join(&vec![], "\n"), "");
    assert_eq!(join(&vec!["a".to_string()], "\n"), "a");
    assert_eq!(join(&vec!["a".to_string(), "".to_string(), "c".to_string()], "--"), "a----c");
}

#[test]
fn language_toggles_back_and_forth() {
    assert_eq!(Language::default(), Language::English);
    assert_eq!(Language::English.toggle(), Language::Japanese);
    assert_eq!(Language::English.toggle().toggle(), Language::English);
}

#[test]
fn texts_in_both_languages() {
    assert_eq!(Language::English.press_start(), "Tap or Press SPACE to Start");
    assert_eq!(Language::Japanese.press_start(), "タップかスペースキーでスタート");
    assert_eq!(Language::English.move_hint(), "Move: Drag / WASD / Arrow Keys");
    assert_eq!(Language::Japanese.lang_hint(), "言語: 日本語（タップかLキーで切替）");
    assert_eq!(Language::English.wave_cleared(3), "Wave 3 Cleared!");
    assert_eq!(Language::Japanese.wave_cleared(10), "ウェーブ 10 クリア！");
    assert_eq!(Language::English.score(1200), "Score: 1200");
    assert_eq!(Language::Japanese.score(0), "スコア: 0");
    assert_eq!(Language::English.reached_wave(7), "Reached Wave 7");
    assert_eq!(Language::Japanese.reached_wave(7), "到達ウェーブ: 7");
    assert_eq!(Language::English.victory(), "VICTORY!");
    assert_eq!(Language::Japanese.game_over(), "ゲームオーバー");
    assert_eq!(Language::English.press_next_wave(), "Tap or Press SPACE for next wave");
    assert_eq!(Language::Japanese.press_return_title(), "タップかスペースキーでタイトルへ戻る");
    assert_eq!(Language::English.weapon_name(WeaponType::Spear), "Spear");
    assert_eq!(Language::Japanese.weapon_name(WeaponType::Aura), "オーラ");
}

#[test]
fn title_input_toggles_and_starts() {
    assert_eq!(title_input(Language::English, 0, false, true), (Language::English, true));
    assert_eq!(title_input(Language::English, 0, false, false), (Language::English, false));
    assert_eq!(title_input(Language::English, 1, false, true), (Language::Japanese, false));
    assert_eq!(title_input(Language::English, 0, true, true), (Language::Japanese, false));
    assert_eq!(title_input(Language::Japanese, 1, true, true), (Language::Japanese, false));
    assert_eq!(title_input(Language::English, 3, false, false), (Language::Japanese, false));
}

#[test]
fn weapon_labels_and_lines() {
    assert_eq!(weapon_label(Language::English, (WeaponType::Sword, 3)), "Sword Lv3");
    assert_eq!(weapon_label(Language::Japanese, (WeaponType::Bow, 8)), "弓 Lv8");
    let weapons = vec![(WeaponType::Sword, 2), (WeaponType::Bomb, 1)];
    assert_eq!(weapon_list_text(Language::English, &weapons), "Sword Lv2\nBomb Lv1");
    assert_eq!(result_weapons_line(Language::English, &weapons), "Sword Lv2   Bomb Lv1");
    assert_eq!(weapon_list_text(Language::English, &vec![]), "");
}

#[test]
fn intermission_lists_the_weapons() {
    let weapons = vec![(WeaponType::Sword, 2), (WeaponType::Spear, 1)];
    assert_eq!(
        intermission_text(Language::English, 4, &weapons),
        "Wave 4 Cleared!\n\nSword Lv2\nSpear Lv1\n\nTap or Press SPACE for next wave"
    );
    assert_eq!(
        intermission_text(Language::Japanese, 1, &vec![]),
        "ウェーブ 1 クリア！\n\n\nタップかスペースキーで次のウェーブへ"
    );
}

#[test]
fn hud_wave_line() {
    assert_eq!(wave_hud_text(&WaveInfo::new(3), 25), "Wave 3   25s");
    assert_eq!(wave_hud_text(&WaveInfo::new(10), 0), "Wave 10   BOSS");
}

#[test]
fn result_screen_texts() {
    assert_eq!(result_heading(Language::English, true), "VICTORY!");
    assert_eq!(result_heading(Language::Japanese, false), "ゲームオーバー");
    let mut score = Score::new();
    score.add_kills(&vec![10, 20, 5]);
    assert_eq!(score.0, 35);
    let mut arsenal = Arsenal::new();
    arsenal.collect_weapon(WeaponType::Sword);
    let result = RunResult::record(true, &WaveInfo::new(10), &score, &arsenal);
    assert!(result.victory);
    assert_eq!(result.wave_reached, 10);
    assert_eq!(result.score, 35);
    assert_eq!(result.weapons, vec![(WeaponType::Sword, 2)]);
    score.reset();
    assert_eq!(score.0, 0);
    assert_eq!(GameState::default(), GameState::Title);
}
