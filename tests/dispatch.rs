use qikmenu::activator::{step, ActivatorEvent, ActivatorState, OsCall};
use qikmenu::hotkey::{HotkeySpec, KeyCode, Modifiers};
use qikmenu::launcher::{launch_plan, HotkeyEvent, Launch, Launcher};
use qikmenu::menu::{make_item_id, MenuChoice, MENU_ID_EDIT, MENU_ID_EXIT, MENU_ID_RELOAD};

const CONFIG: &str = "[global]\nlocale = en\n[env]\nshort_key = [Ctrl]+[Alt]+[Space]\n[apps]\nNotepad = notepad.exe\n";

fn press() -> HotkeyEvent {
    HotkeyEvent { pressed: true, matches_current: true }
}

#[test]
fn item_ids_are_generation_and_index() {
    assert_eq!(make_item_id(0, 0), "app_0_0");
    assert_eq!(make_item_id(12, 305), "app_12_305");
    assert_eq!(make_item_id(u64::MAX, 9), "app_18446744073709551615_9");
}

#[test]
fn end_to_end_notepad() {
    let l = Launcher::start(CONFIG);
    assert_eq!(l.hotkey, Some(HotkeySpec {
        modifiers: Modifiers { alt: true, control: true, shift: false, meta: false },
        key: KeyCode::Space,
    }));
    assert_eq!(l.menu.items.len(), 1);
    assert_eq!(l.menu.items[0].label, "Notepad");
    assert_eq!(l.menu.edit_label, "Edit Environment");
    assert_eq!(l.menu.reload_label, "Reload Config");
    assert_eq!(l.menu.exit_label, "Exit");
    let t = l.hotkey_tick(&vec![press()]);
    assert!(t.show_menu);
    let id = l.menu.items[0].id.clone();
    match l.choice(&id) {
        MenuChoice::Run(cmd) => {
            assert_eq!(cmd, "notepad.exe");
            match launch_plan(&cmd) {
                Launch::Open(target) => assert_eq!(target, "notepad.exe"),
                _ => panic!("expected a single-token launch"),
            }
        }
        _ => panic!("expected the entry's command"),
    }
}

#[test]
fn unbracketed_space_names_no_key() {
    let l = Launcher::start("[global]\nlocale = en\n[env]\nshort_key = [Ctrl]+[Alt]+Space\n[apps]\nNotepad = notepad.exe\n");
    assert_eq!(l.hotkey, None);
    assert!(!l.hotkey_tick(&vec![press()]).show_menu);
}

#[test]
fn static_ids_resolve() {
    let l = Launcher::start(CONFIG);
    assert!(matches!(l.choice(MENU_ID_EDIT), MenuChoice::EditConfig));
    assert!(matches!(l.choice(MENU_ID_RELOAD), MenuChoice::Reload));
    assert!(matches!(l.choice(MENU_ID_EXIT), MenuChoice::Exit));
    assert!(matches!(l.choice("nothing"), MenuChoice::Unknown));
}

#[test]
fn launch_plan_spawns_with_arguments() {
    match launch_plan("\"C:\\Program Files\\app.exe\" -x \"two words\"") {
        Launch::Spawn(exe, args) => {
            assert_eq!(exe, "C:\\Program Files\\app.exe");
            assert_eq!(args, vec!["-x".to_string(), "two words".to_string()]);
        }
        _ => panic!("expected a spawn"),
    }
    assert!(matches!(launch_plan("   "), Launch::Nothing));
}

#[test]
fn reload_forgets_previous_ids() {
    let mut l = Launcher::start(CONFIG);
    let old_id = l.menu.items[0].id.clone();
    let change = l.reload(CONFIG);
    assert_eq!(l.menu.generation, 1);
    assert!(matches!(l.choice(&old_id), MenuChoice::Unknown));
    let new_id = l.menu.items[0].id.clone();
    assert!(matches!(l.choice(&new_id), MenuChoice::Run(_)));
    assert_eq!(change.unregister, None);
    assert_eq!(change.register, None);
}

#[test]
fn reload_replaces_changed_hotkey() {
    let mut l = Launcher::start(CONFIG);
    let before = l.hotkey;
    let change = l.reload("[global]\nlocale = en\n[env]\nshort_key = [Shift]+[F5]\n[apps]\nNotepad = notepad.exe\n");
    assert_eq!(change.unregister, before);
    let expected = Some(HotkeySpec {
        modifiers: Modifiers { alt: false, control: false, shift: true, meta: false },
        key: KeyCode::F5,
    });
    assert_eq!(change.register, expected);
    assert_eq!(l.hotkey, expected);
}

#[test]
fn reload_with_same_hotkey_keeps_it() {
    let mut l = Launcher::start(CONFIG);
    let before = l.hotkey;
    let change = l.reload("[global]\nlocale = ja\n[env]\nshort_key = [Ctrl]+[Alt]+[Space]\n[apps]\nA = a.exe\nB = b.exe\n");
    assert_eq!(change.unregister, None);
    assert_eq!(change.register, None);
    assert_eq!(l.hotkey, before);
    assert_eq!(l.menu.items.len(), 2);
    assert_eq!(l.menu.exit_label, "終了");
}

#[test]
fn three_queued_presses_one_popup() {
    let l = Launcher::start(CONFIG);
    let q = vec![press(), press(), press()];
    let t = l.hotkey_tick(&q);
    assert!(t.show_menu);
    assert_eq!(t.consumed, 3);
}

#[test]
fn hotkey_release_and_inactive_are_ignored() {
    let l = Launcher::start(CONFIG);
    let q = vec![HotkeyEvent { pressed: false, matches_current: true }, press()];
    let t = l.hotkey_tick(&q);
    assert!(!t.show_menu);
    assert_eq!(t.consumed, 1);
    let none = Launcher::start("[apps]\nA = a\n");
    assert_eq!(none.hotkey, None);
    let t = none.hotkey_tick(&vec![press()]);
    assert!(!t.show_menu);
    let t = l.hotkey_tick(&vec![]);
    assert!(!t.show_menu);
    assert_eq!(t.consumed, 0);
}

#[test]
fn activator_direct_raise() {
    let (s, c) = step(ActivatorState::Idle, ActivatorEvent::Start);
    assert_eq!(s, ActivatorState::Raising);
    assert_eq!(c, vec![OsCall::ShowWindow, OsCall::SetForeground]);
    let (s, c) = step(s, ActivatorEvent::DirectRaise { ok: true, on_foreground_thread: false });
    assert_eq!(s, ActivatorState::Visible);
    assert_eq!(c, vec![OsCall::BringToTop, OsCall::CancelMode, OsCall::ShowMenu]);
    let (s, c) = step(s, ActivatorEvent::MenuClosed);
    assert_eq!(s, ActivatorState::Idle);
    assert_eq!(c, vec![OsCall::HideWindow]);
}

#[test]
fn activator_attach_always_detaches() {
    let (s, _) = step(ActivatorState::Idle, ActivatorEvent::Start);
    let (s, c) = step(s, ActivatorEvent::DirectRaise { ok: false, on_foreground_thread: false });
    assert_eq!(s, ActivatorState::Attaching);
    assert_eq!(c, vec![OsCall::AttachInput]);
    let (s, c) = step(s, ActivatorEvent::AttachInput { ok: true });
    assert_eq!(s, ActivatorState::Attached);
    assert_eq!(c, vec![OsCall::SetForeground]);
    let (s2, c2) = step(s, ActivatorEvent::AttachedRaise { ok: false });
    assert_eq!(s2, ActivatorState::Visible);
    assert_eq!(c2, vec![OsCall::DetachInput, OsCall::BringToTop, OsCall::CancelMode, OsCall::ShowMenu]);
    let (s3, c3) = step(s, ActivatorEvent::AttachedRaise { ok: true });
    assert_eq!(s3, ActivatorState::Visible);
    assert_eq!(c3, vec![OsCall::SetActive, OsCall::SetFocus, OsCall::DetachInput, OsCall::BringToTop, OsCall::CancelMode, OsCall::ShowMenu]);
}

#[test]
fn activator_same_thread_and_attach_failure() {
    let (s, c) = step(ActivatorState::Raising, ActivatorEvent::DirectRaise { ok: false, on_foreground_thread: true });
    assert_eq!(s, ActivatorState::Visible);
    assert_eq!(c, vec![OsCall::SetForeground, OsCall::SetActive, OsCall::SetFocus, OsCall::BringToTop, OsCall::CancelMode, OsCall::ShowMenu]);
    let (s, c) = step(ActivatorState::Attaching, ActivatorEvent::AttachInput { ok: false });
    assert_eq!(s, ActivatorState::Visible);
    assert_eq!(c, vec![OsCall::SetForeground, OsCall::BringToTop, OsCall::CancelMode, OsCall::ShowMenu]);
    let (s, c) = step(ActivatorState::Idle, ActivatorEvent::MenuClosed);
    assert_eq!(s, ActivatorState::Idle);
    assert!(c.is_empty());
}
