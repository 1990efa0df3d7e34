use statui::actions::Action;
use statui::keymap::{default_keymap, handle_key_event, Key, KeyChord, NO_MODIFIERS};

fn plain(key: Key) -> KeyChord {
    KeyChord { key, modifiers: NO_MODIFIERS }
}

#[test]
fn default_bindings_translate() {
    let km = default_keymap();
    assert_eq!(handle_key_event(plain(Key::Char('q')), &km), Some(Action::Quit));
    assert_eq!(handle_key_event(plain(Key::Char('j')), &km), Some(Action::MoveUp));
    assert_eq!(handle_key_event(plain(Key::Char('k')), &km), Some(Action::MoveDown));
    assert_eq!(handle_key_event(plain(Key::Up), &km), Some(Action::MoveUp));
    assert_eq!(handle_key_event(plain(Key::Down), &km), Some(Action::MoveDown));
    assert_eq!(handle_key_event(plain(Key::Char('i')), &km), Some(Action::ToggleInspect));
    assert_eq!(handle_key_event(plain(Key::Char('s')), &km), Some(Action::CycleSort));
    assert_eq!(handle_key_event(plain(Key::Char('S')), &km), Some(Action::ToggleSortDirection));
    assert_eq!(handle_key_event(plain(Key::Char('?')), &km), Some(Action::Help));
    assert_eq!(handle_key_event(plain(Key::Char('/')), &km), Some(Action::Search));
    assert_eq!(km.bindings.len(), 10);
}

#[test]
fn unbound_chords_give_nothing() {
    let km = default_keymap();
    assert_eq!(handle_key_event(plain(Key::Char('x')), &km), None);
    assert_eq!(handle_key_event(plain(Key::Other), &km), None);
    let ctrl_q = KeyChord { key: Key::Char('q'), modifiers: 2 };
    assert_eq!(handle_key_event(ctrl_q, &km), None);
}
