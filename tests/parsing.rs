use qikmenu::command::tokenize;
use qikmenu::config::parse_config;
use qikmenu::hotkey::{parse_hotkey, HotkeySpec, KeyCode, Modifiers};
use qikmenu::localization::LocalizedStrings;

fn mods(alt: bool, control: bool, shift: bool, meta: bool) -> Modifiers {
    Modifiers { alt, control, shift, meta }
}

#[test]
fn tokenize_splits_on_spaces() {
    assert_eq!(tokenize("a b"), vec!["a".to_string(), "b".to_string()]);
}

#[test]
fn tokenize_keeps_quoted_spaces() {
    assert_eq!(tokenize("\"a b\" c"), vec!["a b".to_string(), "c".to_string()]);
}

#[test]
fn tokenize_empty_input() {
    assert!(tokenize("").is_empty());
}

#[test]
fn tokenize_collapses_runs_of_spaces() {
    assert_eq!(tokenize("  x   y  "), vec!["x".to_string(), "y".to_string()]);
}

#[test]
fn tokenize_unmatched_quote_runs_to_end() {
    assert_eq!(tokenize("run \"C:\\My Files"), vec!["run".to_string(), "C:\\My Files".to_string()]);
}

#[test]
fn tokenize_only_quotes_gives_nothing() {
    assert!(tokenize("\"\" \"\"").is_empty());
}

#[test]
fn hotkey_ctrl_alt_letter() {
    let r = parse_hotkey("[Ctrl]+[Alt]+a");
    assert_eq!(r, Some(HotkeySpec { modifiers: mods(true, true, false, false), key: KeyCode::KeyA }));
}

#[test]
fn hotkey_plus_key() {
    let r = parse_hotkey("[Alt]++");
    assert_eq!(r, Some(HotkeySpec { modifiers: mods(true, false, false, false), key: KeyCode::Equal }));
}

#[test]
fn hotkey_empty_is_none() {
    assert_eq!(parse_hotkey(""), None);
}

#[test]
fn hotkey_without_key_is_none() {
    assert_eq!(parse_hotkey("[Ctrl]"), None);
}

#[test]
fn hotkey_named_keys_and_case() {
    let r = parse_hotkey(" [SHIFT] + [win] + [F12] ");
    assert_eq!(r, Some(HotkeySpec { modifiers: mods(false, false, true, true), key: KeyCode::F12 }));
    let r = parse_hotkey("[Ctrl]+[Alt]+[Space]");
    assert_eq!(r, Some(HotkeySpec { modifiers: mods(true, true, false, false), key: KeyCode::Space }));
}

#[test]
fn hotkey_last_key_wins_and_unknown_ignored() {
    let r = parse_hotkey("a+[meta]+bogus+7");
    assert_eq!(r, Some(HotkeySpec { modifiers: mods(false, false, false, true), key: KeyCode::Digit7 }));
}

#[test]
fn hotkey_symbols() {
    assert_eq!(parse_hotkey("[Ctrl]+/").map(|h| h.key), Some(KeyCode::Slash));
    assert_eq!(parse_hotkey("[Ctrl]+\\").map(|h| h.key), Some(KeyCode::Backslash));
    assert_eq!(parse_hotkey("[Ctrl]+`").map(|h| h.key), Some(KeyCode::Backquote));
    assert_eq!(parse_hotkey("[Ctrl]+[").map(|h| h.key), Some(KeyCode::BracketLeft));
}

#[test]
fn hotkey_repeated_modifier_is_harmless() {
    let r = parse_hotkey("[Alt]+[alt]+[ALT]+[Esc]");
    assert_eq!(r, Some(HotkeySpec { modifiers: mods(true, false, false, false), key: KeyCode::Escape }));
}

#[test]
fn hotkey_kelvin_sign_folds_to_k() {
    assert_eq!(parse_hotkey("[Ctrl]+\u{212a}").map(|h| h.key), Some(KeyCode::KeyK));
}

#[test]
fn localized_strings_by_locale() {
    let en = LocalizedStrings::new("en");
    assert_eq!(en.edit_environment, "Edit Environment");
    assert_eq!(en.reload, "Reload Config");
    assert_eq!(en.exit, "Exit");
    assert_eq!(en.warning_title, "Warning");
    let ja = LocalizedStrings::new("ja");
    assert_eq!(ja.exit, "終了");
    let other = LocalizedStrings::new("fr");
    assert_eq!(other.exit, "종료");
    assert_eq!(other.warning_msg, "이미 실행 중입니다.");
}

#[test]
fn config_sections_and_pairs() {
    let text = "# comment\n[Global]\nLOCALE = EN\n\n[env]\nshort_key = [Ctrl]+[Alt]+Space\n[apps]\nNotepad = notepad.exe\nWeb=https://example.com/?a=b\n[other]\nx = y\nnot a pair\n";
    let c = parse_config(text);
    assert_eq!(c.locale, "en");
    assert_eq!(c.hotkey_text, "[Ctrl]+[Alt]+Space");
    assert_eq!(c.entries.len(), 2);
    assert_eq!(c.entries[0].label, "Notepad");
    assert_eq!(c.entries[0].command, "notepad.exe");
    assert_eq!(c.entries[1].label, "Web");
    assert_eq!(c.entries[1].command, "https://example.com/?a=b");
}

#[test]
fn config_defaults_and_empty_parts() {
    let c = parse_config("");
    assert_eq!(c.locale, "ko");
    assert_eq!(c.hotkey_text, "");
    assert!(c.entries.is_empty());
    let c = parse_config("[apps]\r\n = x\r\ny = \r\nA = 1\r\nA = 2\r\n");
    assert_eq!(c.entries.len(), 2);
    assert_eq!(c.entries[0].command, "1");
    assert_eq!(c.entries[1].command, "2");
}

#[test]
fn config_pairs_before_any_section_are_skipped() {
    let c = parse_config("locale = ja\n[global]\nlocale=JA\n");
    assert_eq!(c.locale, "ja");
    let c = parse_config("locale = ja\n");
    assert_eq!(c.locale, "ko");
}

#[test]
fn canonical_text_round_trips() {
    let h = HotkeySpec { modifiers: mods(true, true, false, false), key: KeyCode::KeyA };
    assert_eq!(h.to_text(), "[alt]+[ctrl]+a");
    assert_eq!(parse_hotkey(&h.to_text()), Some(h));
    let h = HotkeySpec { modifiers: mods(true, true, true, true), key: KeyCode::Equal };
    assert_eq!(h.to_text(), "[alt]+[ctrl]+[shift]+[win]+=");
    assert_eq!(parse_hotkey(&h.to_text()), Some(h));
    let h = HotkeySpec { modifiers: mods(false, false, false, false), key: KeyCode::F10 };
    assert_eq!(h.to_text(), "[f10]");
    assert_eq!(parse_hotkey(&h.to_text()), Some(h));
}

#[test]
fn reparsing_parsed_hotkey_is_stable() {
    let first = parse_hotkey("[Ctrl]+[Alt]+a").unwrap();
    assert_eq!(parse_hotkey(&first.to_text()), Some(first));
    let first = parse_hotkey("[Alt]++").unwrap();
    assert_eq!(parse_hotkey(&first.to_text()), Some(first));
}
