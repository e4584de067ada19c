use praydo::greeting::greet;
use praydo::shell::{
    background_notice, Effect, Shell, ShellEvent, MAIN_WINDOW_LABEL, NAVIGATE_TO_MAIN_EVENT,
    QUIT_EXIT_CODE,
};
use praydo::text::same_text;
use praydo::tray::{menu_action, tray_menu, MenuAction, MenuEntry, HIDE_ID, OPEN_ID, QUIT_ID};

#[test]
fn greet_formats_name() {
    assert_eq!(greet("Ann"), "Hello, Ann! You've been greeted from Rust!");
}

#[test]
fn greet_empty_name() {
    assert_eq!(greet(""), "Hello, ! You've been greeted from Rust!");
}

#[test]
fn greet_non_ascii_name() {
    assert_eq!(greet("Zoë"), "Hello, Zoë! You've been greeted from Rust!");
}

#[test]
fn same_text_compares_characters() {
    assert!(same_text("quit", "quit"));
    assert!(same_text("", ""));
    assert!(!same_text("quit", "quiT"));
    assert!(!same_text("quit", "quit "));
    assert!(!same_text("é", "e"));
}

#[test]
fn menu_ids_map_to_actions() {
    assert_eq!(menu_action("quit"), MenuAction::Quit);
    assert_eq!(menu_action("hide"), MenuAction::Hide);
    assert_eq!(menu_action("open"), MenuAction::Open);
    assert_eq!(menu_action("Open"), MenuAction::Unhandled);
    assert_eq!(menu_action(""), MenuAction::Unhandled);
    assert_eq!(menu_action("separator"), MenuAction::Unhandled);
}

#[test]
fn tray_menu_layout() {
    let menu = tray_menu();
    assert_eq!(menu.len(), 4);
    let expected = [Some((OPEN_ID, "Open")), Some((HIDE_ID, "Hide")), None, Some((QUIT_ID, "Quit"))];
    for (entry, want) in menu.iter().zip(expected.iter()) {
        match (entry, want) {
            (MenuEntry::Item { id, label }, Some((want_id, want_label))) => {
                assert_eq!(id, want_id);
                assert_eq!(label, want_label);
            }
            (MenuEntry::Separator, None) => {}
            _ => panic!("menu row out of place"),
        }
    }
}

#[test]
fn constants_hold_framework_names() {
    assert_eq!(MAIN_WINDOW_LABEL, "main");
    assert_eq!(NAVIGATE_TO_MAIN_EVENT, "navigate_to_main");
    assert_eq!(QUIT_EXIT_CODE, 0);
}

#[test]
fn background_notice_text() {
    let n = background_notice();
    assert_eq!(n.title, "Praydo Running in the Background");
    assert_eq!(n.body, "Click the tray icon to restore.");
}

#[test]
fn shell_starts_visible() {
    assert!(Shell::new().window_visible);
}

#[test]
fn close_request_hides_and_notifies() {
    let mut s = Shell::new();
    let r = s.handle(&ShellEvent::CloseRequested);
    assert_eq!(
        r,
        vec![
            Effect::PreventClose,
            Effect::EmitNavigateToMain,
            Effect::HideMainWindow,
            Effect::NotifyRunningInBackground,
        ]
    );
    assert!(!s.window_visible);
}

#[test]
fn close_request_when_hidden_stays_hidden() {
    let mut s = Shell { window_visible: false };
    let r = s.handle(&ShellEvent::CloseRequested);
    assert_eq!(r.len(), 4);
    assert!(!s.window_visible);
}

#[test]
fn menu_hide_then_open() {
    let mut s = Shell::new();
    let r = s.handle(&ShellEvent::MenuClicked("hide".to_string()));
    assert_eq!(r, vec![Effect::HideMainWindow]);
    assert!(!s.window_visible);
    let r = s.handle(&ShellEvent::MenuClicked("open".to_string()));
    assert_eq!(r, vec![Effect::ShowMainWindow]);
    assert!(s.window_visible);
}

#[test]
fn menu_quit_exits_with_zero() {
    let mut s = Shell::new();
    let r = s.handle(&ShellEvent::MenuClicked("quit".to_string()));
    assert_eq!(r, vec![Effect::Exit(0)]);
    assert!(s.window_visible);
}

#[test]
fn unknown_menu_item_is_reported_and_changes_nothing() {
    let mut s = Shell { window_visible: false };
    let r = s.handle(&ShellEvent::MenuClicked("settings".to_string()));
    assert_eq!(r, vec![Effect::ReportUnhandledMenuItem]);
    assert!(!s.window_visible);
}

#[test]
fn event_sequence_visibility() {
    let mut s = Shell::new();
    let events = [
        ShellEvent::CloseRequested,
        ShellEvent::MenuClicked("open".to_string()),
        ShellEvent::MenuClicked("quit".to_string()),
        ShellEvent::MenuClicked("hide".to_string()),
        ShellEvent::MenuClicked("nothing".to_string()),
        ShellEvent::MenuClicked("open".to_string()),
    ];
    let mut seen = Vec::new();
    for e in events.iter() {
        s.handle(e);
        seen.push(s.window_visible);
    }
    assert_eq!(seen, vec![false, true, true, false, false, true]);
}
