use hid_forwarder::picker::{is_event_node, Action, App, DeviceEntry, PickerKey};

fn entries(n: usize) -> Vec<DeviceEntry> {
    (0..n)
        .map(|i| DeviceEntry { path: format!("/dev/input/event{i}"), name: format!("dev{i}") })
        .collect()
}

#[test]
fn event_node_names() {
    assert!(is_event_node("event0"));
    assert!(is_event_node("event12"));
    assert!(is_event_node("event"));
    assert!(!is_event_node("mouse0"));
    assert!(!is_event_node("even"));
    assert!(!is_event_node(""));
    assert!(!is_event_node("by-id"));
}

#[test]
fn new_selects_first() {
    let app = App::new(entries(3));
    assert_eq!(app.selected, 0);
    assert_eq!(app.selected_device().map(|d| d.path.clone()), Some("/dev/input/event0".to_string()));
    let empty = App::new(Vec::new());
    assert!(empty.selected_device().is_none());
}

#[test]
fn arrows_wrap() {
    let mut app = App::new(entries(3));
    assert!(matches!(app.handle_key(PickerKey::Up), Action::Continue));
    assert_eq!(app.selected, 2);
    app.handle_key(PickerKey::Down);
    assert_eq!(app.selected, 0);
    app.handle_key(PickerKey::Down);
    assert_eq!(app.selected, 1);
    let mut empty = App::new(Vec::new());
    empty.handle_key(PickerKey::Up);
    empty.handle_key(PickerKey::Down);
    assert_eq!(empty.selected, 0);
}

#[test]
fn refresh_clamps_selection() {
    let mut app = App::new(entries(5));
    app.selected = 4;
    app.refresh(entries(2));
    assert_eq!(app.selected, 1);
    app.refresh(entries(4));
    assert_eq!(app.selected, 1);
    app.refresh(Vec::new());
    assert_eq!(app.selected, 0);
    assert!(app.selected_device().is_none());
}

#[test]
fn keys_quit_rescan_choose() {
    let mut app = App::new(entries(2));
    assert!(matches!(app.handle_key(PickerKey::Char { c: 'q', ctrl: false }), Action::Quit));
    assert!(matches!(app.handle_key(PickerKey::Char { c: 'c', ctrl: true }), Action::Quit));
    assert!(matches!(app.handle_key(PickerKey::Char { c: 'c', ctrl: false }), Action::Continue));
    assert!(matches!(app.handle_key(PickerKey::Char { c: 'r', ctrl: false }), Action::Rescan));
    assert!(matches!(app.handle_key(PickerKey::Other), Action::Continue));
    app.handle_key(PickerKey::Down);
    match app.handle_key(PickerKey::Enter) {
        Action::Chosen(p) => assert_eq!(p, "/dev/input/event1"),
        _ => panic!("expected a chosen device"),
    }
    let mut empty = App::new(Vec::new());
    assert!(matches!(empty.handle_key(PickerKey::Enter), Action::Continue));
}
