//! The screens' logic and text: the title screen's input, the pause between
//! waves, the result screen and the heads-up display.
use vstd::prelude::*;
use vstd::string::*;
use crate::lang::{spec_toggle, spec_weapon_name, Language};
use crate::text::{decimal, joined, push_decimal, join, with_number, views, lemma_views_push};
use crate::wave::{WaveInfo, FINAL_WAVE};
use crate::weapon::WeaponType;

verus! {

/// The language after toggling it `times` times.
pub open spec fn toggled(lang: Language, times: nat) -> Language {
    if times % 2 == 0 {
        lang
    } else {
        spec_toggle(lang)
    }
}

/// One frame of input on the title screen. The language toggles once for
/// each press of the language button (`button_presses`) and once more for
/// the L key; the game starts on `confirm` unless the language was toggled in
/// the same frame. Returns the new language and whether to start.
pub fn title_input(lang: Language, button_presses: u32, l_key: bool, confirm: bool) -> (outcome: (
    Language,
    bool,
))
    ensures
        ({
            let toggles: nat = (button_presses + if l_key { 1int } else { 0int }) as nat;
            &&& outcome.0 == toggled(lang, toggles)
            &&& outcome.1 == (toggles == 0 && confirm)
        }),
{
    let mut current = lang;
    let mut toggled_now = false;
    let mut i: u32 = 0;
    while i < button_presses
        invariant
            i <= button_presses,
            current == toggled(lang, i as nat),
            toggled_now == (i > 0),
        decreases button_presses - i,
    {
        current = current.toggle();
        toggled_now = true;
        i = i + 1;
    }
    if l_key {
        current = current.toggle();
        toggled_now = true;
    }
    let start = !toggled_now && confirm;
    (current, start)
}

/// The label of a weapon: its name and level, as in "Sword Lv3".
pub open spec fn spec_weapon_label(lang: Language, weapon: (WeaponType, u8)) -> Seq<char> {
    spec_weapon_name(lang, weapon.0) + " Lv"@ + decimal(weapon.1 as nat)
}

/// The labels of a list of weapons.
pub open spec fn spec_weapon_labels(lang: Language, weapons: Seq<(WeaponType, u8)>) -> Seq<Seq<char>> {
    weapons.map_values(|w: (WeaponType, u8)| spec_weapon_label(lang, w))
}

/// The label of a weapon: its name and level.
pub fn weapon_label(lang: Language, weapon: (WeaponType, u8)) -> (label: String)
    ensures
        label@ == spec_weapon_label(lang, weapon),
{
    let mut label = String::from_str(lang.weapon_name(weapon.0));
    label.append(" Lv");
    push_decimal(&mut label, weapon.1 as u64);
    label
}

/// The labels of a list of weapons, one per weapon, in order.
pub fn weapon_labels(lang: Language, weapons: &Vec<(WeaponType, u8)>) -> (labels: Vec<String>)
    ensures
        views(labels@) == spec_weapon_labels(lang, weapons@),
{
    let mut labels: Vec<String> = Vec::new();
    let mut i: usize = 0;
    while i < weapons.len()
        invariant
            i <= weapons.len(),
            views(labels@) == spec_weapon_labels(lang, weapons@.take(i as int)),
        decreases weapons.len() - i,
    {
        let label = weapon_label(lang, weapons[i]);
        proof {
            lemma_views_push(labels@, label);
        }
        labels.push(label);
        proof {
            assert(weapons@.take(i + 1) =~= weapons@.take(i as int).push(weapons@[i as int]));
            assert(views(labels@) =~= spec_weapon_labels(lang, weapons@.take(i + 1)));
        }
        i = i + 1;
    }
    assert(weapons@.take(weapons.len() as int) =~= weapons@);
    labels
}

/// The list of weapons on the heads-up display: one label per line.
pub fn weapon_list_text(lang: Language, weapons: &Vec<(WeaponType, u8)>) -> (text: String)
    ensures
        text@ == joined(spec_weapon_labels(lang, weapons@), "\n"@),
{
    let labels = weapon_labels(lang, weapons);
    join(&labels, "\n")
}

/// The heading of the result screen.
pub fn result_heading(lang: Language, victory: bool) -> (heading: &'static str)
    ensures
        heading@ == if victory {
            match lang {
                Language::English => "VICTORY!"@,
                Language::Japanese => "勝利！"@,
            }
        } else {
            match lang {
                Language::English => "GAME OVER"@,
                Language::Japanese => "ゲームオーバー"@,
            }
        },
{
    if victory {
        lang.victory()
    } else {
        lang.game_over()
    }
}

/// The weapons line of the result screen: the labels separated by three
/// spaces.
pub fn result_weapons_line(lang: Language, weapons: &Vec<(WeaponType, u8)>) -> (line: String)
    ensures
        line@ == joined(spec_weapon_labels(lang, weapons@), "   "@),
{
    let labels = weapon_labels(lang, weapons);
    join(&labels, "   ")
}

/// The lines of the pause between waves: the wave cleared, a blank line, one
/// line per weapon held, a blank line and the invitation to go on.
pub open spec fn spec_intermission_lines(
    lang: Language,
    wave_cleared: Seq<char>,
    weapons: Seq<(WeaponType, u8)>,
    press_next: Seq<char>,
) -> Seq<Seq<char>> {
    seq![wave_cleared, Seq::empty()] + spec_weapon_labels(lang, weapons) + seq![Seq::empty(), press_next]
}

/// The text of the pause after wave `number`, one line each.
pub fn intermission_text(lang: Language, number: u32, weapons: &Vec<(WeaponType, u8)>) -> (text: String)
    ensures
        text@ == joined(
            spec_intermission_lines(
                lang,
                match lang {
                    Language::English => "Wave "@ + decimal(number as nat) + " Cleared!"@,
                    Language::Japanese => "ウェーブ "@ + decimal(number as nat) + " クリア！"@,
                },
                weapons@,
                match lang {
                    Language::English => "Tap or Press SPACE for next wave"@,
                    Language::Japanese => "タップかスペースキーで次のウェーブへ"@,
                },
            ),
            "\n"@,
        ),
{
    let mut lines: Vec<String> = Vec::new();
    let cleared_line = lang.wave_cleared(number);
    let ghost cleared = cleared_line@;
    proof {
        lemma_views_push(lines@, cleared_line);
    }
    lines.push(cleared_line);
    let first_blank = String::new();
    proof {
        lemma_views_push(lines@, first_blank);
    }
    lines.push(first_blank);
    let labels = weapon_labels(lang, weapons);
    let mut i: usize = 0;
    let ghost head = views(lines@);
    while i < labels.len()
        invariant
            i <= labels.len(),
            views(lines@) == head + views(labels@).take(i as int),
        decreases labels.len() - i,
    {
        let line = labels[i].clone();
        proof {
            lemma_views_push(lines@, line);
        }
        lines.push(line);
        proof {
            assert(views(labels@).take(i + 1) =~= views(labels@).take(
                i as int,
            ).push(labels@[i as int]@));
            assert(views(lines@) =~= head + views(labels@).take(i + 1));
        }
        i = i + 1;
    }
    let blank = String::new();
    proof {
        lemma_views_push(lines@, blank);
    }
    lines.push(blank);
    let next_line = String::from_str(lang.press_next_wave());
    let ghost next = next_line@;
    proof {
        lemma_views_push(lines@, next_line);
    }
    lines.push(next_line);
    proof {
        assert(views(labels@).take(labels.len() as int) =~= views(labels@));
    }
    assert(views(lines@) =~= spec_intermission_lines(lang, cleared, weapons@, next));
    join(&lines, "\n")
}

/// The wave line of the heads-up display: the wave number, then "BOSS" on
/// the boss wave or else the seconds left, as in "Wave 3   25s".
pub fn wave_hud_text(wave: &WaveInfo, remaining_secs: u64) -> (text: String)
    ensures
        text@ == if wave.number >= FINAL_WAVE {
            "Wave "@ + decimal(wave.number as nat) + "   BOSS"@
        } else {
            "Wave "@ + decimal(wave.number as nat) + "   "@ + decimal(remaining_secs as nat) + "s"@
        },
{
    if wave.is_boss_wave() {
        with_number("Wave ", wave.number as u64, "   BOSS")
    } else {
        let mut text = with_number("Wave ", wave.number as u64, "   ");
        push_decimal(&mut text, remaining_secs);
        text.append("s");
        text
    }
}

} // verus!
