//! The language of the interface, and every text in both languages.
use vstd::prelude::*;
use crate::text::{decimal, with_number};
use crate::weapon::WeaponType;

verus! {

/// The language of the text on screen. English by default.
#[derive(Clone, Copy, PartialEq, Eq, Debug, Structural)]
pub enum Language {
    English,
    Japanese,
}

/// The other language.
pub open spec fn spec_toggle(lang: Language) -> Language {
    match lang {
        Language::English => Language::Japanese,
        Language::Japanese => Language::English,
    }
}

/// The name of a weapon kind in a language.
pub open spec fn spec_weapon_name(lang: Language, weapon_type: WeaponType) -> Seq<char> {
    match lang {
        Language::English => match weapon_type {
            WeaponType::Sword => "Sword"@,
            WeaponType::Bow => "Bow"@,
            WeaponType::Spear => "Spear"@,
            WeaponType::Aura => "Aura"@,
            WeaponType::Bomb => "Bomb"@,
        },
        Language::Japanese => match weapon_type {
            WeaponType::Sword => "剣"@,
            WeaponType::Bow => "弓"@,
            WeaponType::Spear => "槍"@,
            WeaponType::Aura => "オーラ"@,
            WeaponType::Bomb => "ボム"@,
        },
    }
}

impl Default for Language {
    fn default() -> (lang: Language)
        ensures
            lang == Language::English,
    {
        Language::English
    }
}

impl Language {
    /// The other language.
    pub fn toggle(self) -> (other: Language)
        ensures
            other == spec_toggle(self),
    {
        match self {
            Language::English => Language::Japanese,
            Language::Japanese => Language::English,
        }
    }

    /// The title screen's invitation to start.
    pub fn press_start(self) -> (text: &'static str)
        ensures
            text@ == match self {
                Language::English => "Tap or Press SPACE to Start"@,
                Language::Japanese => "タップかスペースキーでスタート"@,
            },
    {
        match self {
            Language::English => "Tap or Press SPACE to Start",
            Language::Japanese => "タップかスペースキーでスタート",
        }
    }

    /// The title screen's hint on moving.
    pub fn move_hint(self) -> (text: &'static str)
        ensures
            text@ == match self {
                Language::English => "Move: Drag / WASD / Arrow Keys"@,
                Language::Japanese => "移動: ドラッグ / WASD / 矢印キー"@,
            },
    {
        match self {
            Language::English => "Move: Drag / WASD / Arrow Keys",
            Language::Japanese => "移動: ドラッグ / WASD / 矢印キー",
        }
    }

    /// The title screen's language button.
    pub fn lang_hint(self) -> (text: &'static str)
        ensures
            text@ == match self {
                Language::English => "Language: English (Tap or Press L)"@,
                Language::Japanese => "言語: 日本語（タップかLキーで切替）"@,
            },
    {
        match self {
            Language::English => "Language: English (Tap or Press L)",
            Language::Japanese => "言語: 日本語（タップかLキーで切替）",
        }
    }

    /// The heading of the pause after wave `number`.
    pub fn wave_cleared(self, number: u32) -> (text: String)
        ensures
            text@ == match self {
                Language::English => "Wave "@ + decimal(number as nat) + " Cleared!"@,
                Language::Japanese => "ウェーブ "@ + decimal(number as nat) + " クリア！"@,
            },
    {
        match self {
            Language::English => with_number("Wave ", number as u64, " Cleared!"),
            Language::Japanese => with_number("ウェーブ ", number as u64, " クリア！"),
        }
    }

    /// The invitation to start the next wave.
    pub fn press_next_wave(self) -> (text: &'static str)
        ensures
            text@ == match self {
                Language::English => "Tap or Press SPACE for next wave"@,
                Language::Japanese => "タップかスペースキーで次のウェーブへ"@,
            },
    {
        match self {
            Language::English => "Tap or Press SPACE for next wave",
            Language::Japanese => "タップかスペースキーで次のウェーブへ",
        }
    }

    /// The heading of a won run.
    pub fn victory(self) -> (text: &'static str)
        ensures
            text@ == match self {
                Language::English => "VICTORY!"@,
                Language::Japanese => "勝利！"@,
            },
    {
        match self {
            Language::English => "VICTORY!",
            Language::Japanese => "勝利！",
        }
    }

    /// The heading of a lost run.
    pub fn game_over(self) -> (text: &'static str)
        ensures
            text@ == match self {
                Language::English => "GAME OVER"@,
                Language::Japanese => "ゲームオーバー"@,
            },
    {
        match self {
            Language::English => "GAME OVER",
            Language::Japanese => "ゲームオーバー",
        }
    }

    /// The score line.
    pub fn score(self, points: u32) -> (text: String)
        ensures
            text@ == match self {
                Language::English => "Score: "@ + decimal(points as nat),
                Language::Japanese => "スコア: "@ + decimal(points as nat),
            },
    {
        proof {
            reveal_strlit("");
        }
        let text = match self {
            Language::English => with_number("Score: ", points as u64, ""),
            Language::Japanese => with_number("スコア: ", points as u64, ""),
        };
        assert(text@ =~= match self {
            Language::English => "Score: "@ + decimal(points as nat),
            Language::Japanese => "スコア: "@ + decimal(points as nat),
        });
        text
    }

    /// The line telling which wave the run reached.
    pub fn reached_wave(self, number: u32) -> (text: String)
        ensures
            text@ == match self {
                Language::English => "Reached Wave "@ + decimal(number as nat),
                Language::Japanese => "到達ウェーブ: "@ + decimal(number as nat),
            },
    {
        proof {
            reveal_strlit("");
        }
        let text = match self {
            Language::English => with_number("Reached Wave ", number as u64, ""),
            Language::Japanese => with_number("到達ウェーブ: ", number as u64, ""),
        };
        assert(text@ =~= match self {
            Language::English => "Reached Wave "@ + decimal(number as nat),
            Language::Japanese => "到達ウェーブ: "@ + decimal(number as nat),
        });
        text
    }

    /// The invitation to go back to the title screen.
    pub fn press_return_title(self) -> (text: &'static str)
        ensures
            text@ == match self {
                Language::English => "Tap or Press SPACE to return to title"@,
                Language::Japanese => "タップかスペースキーでタイトルへ戻る"@,
            },
    {
        match self {
            Language::English => "Tap or Press SPACE to return to title",
            Language::Japanese => "タップかスペースキーでタイトルへ戻る",
        }
    }

    /// The name of a weapon kind.
    pub fn weapon_name(self, weapon_type: WeaponType) -> (name: &'static str)
        ensures
            name@ == spec_weapon_name(self, weapon_type),
    {
        match self {
            Language::English => match weapon_type {
                WeaponType::Sword => "Sword",
                WeaponType::Bow => "Bow",
                WeaponType::Spear => "Spear",
                WeaponType::Aura => "Aura",
                WeaponType::Bomb => "Bomb",
            },
            Language::Japanese => match weapon_type {
                WeaponType::Sword => "剣",
                WeaponType::Bow => "弓",
                WeaponType::Spear => "槍",
                WeaponType::Aura => "オーラ",
                WeaponType::Bomb => "ボム",
            },
        }
    }
}

/// Law: toggling the language twice gives it back, and toggling always
/// changes it.
pub proof fn lemma_toggle_twice(lang: Language)
    ensures
        spec_toggle(spec_toggle(lang)) == lang,
        spec_toggle(lang) != lang,
{
}

} // verus!
