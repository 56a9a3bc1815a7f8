use vstd::prelude::*;
use vstd::string::StringExecFns;
use crate::text::str_equal;

verus! {

/// The languages that the user interface is written in.
pub enum Language {
    English,
    Japanese,
    Korean,
}

/// The language chosen for a locale tag: `en` and `ja` by name, Korean for any other tag.
pub open spec fn language_of(locale: Seq<char>) -> Language {
    if locale == "en"@ {
        Language::English
    } else if locale == "ja"@ {
        Language::Japanese
    } else {
        Language::Korean
    }
}

pub open spec fn edit_environment_text(l: Language) -> Seq<char> {
    match l {
        Language::English => "Edit Environment"@,
        Language::Japanese => "環境編集"@,
        Language::Korean => "환경 편집"@,
    }
}

pub open spec fn reload_text(l: Language) -> Seq<char> {
    match l {
        Language::English => "Reload Config"@,
        Language::Japanese => "設定再読み込み"@,
        Language::Korean => "환경 다시 읽기"@,
    }
}

pub open spec fn exit_text(l: Language) -> Seq<char> {
    match l {
        Language::English => "Exit"@,
        Language::Japanese => "終了"@,
        Language::Korean => "종료"@,
    }
}

pub open spec fn warning_title_text(l: Language) -> Seq<char> {
    match l {
        Language::English => "Warning"@,
        Language::Japanese => "警告"@,
        Language::Korean => "경고"@,
    }
}

pub open spec fn warning_msg_text(l: Language) -> Seq<char> {
    match l {
        Language::English => "Another instance is already running."@,
        Language::Japanese => "すでに実行中です。"@,
        Language::Korean => "이미 실행 중입니다."@,
    }
}

/// The user-interface strings of one language.
pub struct LocalizedStrings {
    pub edit_environment: String,
    pub reload: String,
    pub exit: String,
    pub warning_title: String,
    pub warning_msg: String,
}

impl LocalizedStrings {
    /// Whether these are exactly the strings of language `l`.
    pub open spec fn is_language(&self, l: Language) -> bool {
        &&& self.edit_environment@ == edit_environment_text(l)
        &&& self.reload@ == reload_text(l)
        &&& self.exit@ == exit_text(l)
        &&& self.warning_title@ == warning_title_text(l)
        &&& self.warning_msg@ == warning_msg_text(l)
    }

    /// The strings for a locale tag; an unknown tag falls back to Korean.
    pub fn new(locale: &str) -> (r: Self)
        ensures
            r.is_language(language_of(locale@)),
    {
        if str_equal(locale, "en") {
            LocalizedStrings {
                edit_environment: String::from_str("Edit Environment"),
                reload: String::from_str("Reload Config"),
                exit: String::from_str("Exit"),
                warning_title: String::from_str("Warning"),
                warning_msg: String::from_str("Another instance is already running."),
            }
        } else if str_equal(locale, "ja") {
            LocalizedStrings {
                edit_environment: String::from_str("環境編集"),
                reload: String::from_str("設定再読み込み"),
                exit: String::from_str("終了"),
                warning_title: String::from_str("警告"),
                warning_msg: String::from_str("すでに実行中です。"),
            }
        } else {
            LocalizedStrings {
                edit_environment: String::from_str("환경 편집"),
                reload: String::from_str("환경 다시 읽기"),
                exit: String::from_str("종료"),
                warning_title: String::from_str("경고"),
                warning_msg: String::from_str("이미 실행 중입니다."),
            }
        }
    }
}

} // verus!
