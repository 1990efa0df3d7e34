//! Translation of key chords into actions.

use crate::actions::Action;
use vstd::prelude::*;

verus! {

/// A key, as far as the bindings tell keys apart.
#[derive(Debug, Clone, Copy, PartialEq, Eq, Structural)]
pub enum Key {
    Char(char),
    Up,
    Down,
    /// Any key that no binding can name.
    Other,
}

/// No modifier key held.
pub const NO_MODIFIERS: u8 = 0;

/// A key pressed with a set of modifiers (shift, control, alt, ... as bits).
#[derive(Debug, Clone, Copy, PartialEq, Eq, Structural)]
pub struct KeyChord {
    pub key: Key,
    pub modifiers: u8,
}

/// An ordered table of bindings from key chords to actions.
pub struct KeyMap {
    pub bindings: Vec<(KeyChord, Action)>,
}

/// The action that the first binding of `chord` in `bindings` gives.
pub open spec fn lookup(bindings: Seq<(KeyChord, Action)>, chord: KeyChord) -> Option<Action>
    decreases bindings.len(),
{
    if bindings.len() == 0 {
        None
    } else if bindings[0].0 == chord {
        Some(bindings[0].1)
    } else {
        lookup(bindings.drop_first(), chord)
    }
}

/// A chord without modifiers.
pub open spec fn plain(key: Key) -> KeyChord {
    KeyChord { key, modifiers: NO_MODIFIERS }
}

/// The default bindings.
pub open spec fn default_bindings() -> Seq<(KeyChord, Action)> {
    seq![
        (plain(Key::Char('q')), Action::Quit),
        (plain(Key::Char('j')), Action::MoveUp),
        (plain(Key::Char('k')), Action::MoveDown),
        (plain(Key::Up), Action::MoveUp),
        (plain(Key::Down), Action::MoveDown),
        (plain(Key::Char('i')), Action::ToggleInspect),
        (plain(Key::Char('s')), Action::CycleSort),
        (plain(Key::Char('S')), Action::ToggleSortDirection),
        (plain(Key::Char('?')), Action::Help),
        (plain(Key::Char('/')), Action::Search),
    ]
}

fn bind(bindings: &mut Vec<(KeyChord, Action)>, key: Key, action: Action)
    ensures
        final(bindings)@ == old(bindings)@.push((plain(key), action)),
{
    bindings.push((KeyChord { key, modifiers: NO_MODIFIERS }, action));
}

/// The default key map.
pub fn default_keymap() -> (km: KeyMap)
    ensures
        km.bindings@ == default_bindings(),
{
    let mut m: Vec<(KeyChord, Action)> = Vec::new();
    bind(&mut m, Key::Char('q'), Action::Quit);
    bind(&mut m, Key::Char('j'), Action::MoveUp);
    bind(&mut m, Key::Char('k'), Action::MoveDown);
    bind(&mut m, Key::Up, Action::MoveUp);
    bind(&mut m, Key::Down, Action::MoveDown);
    bind(&mut m, Key::Char('i'), Action::ToggleInspect);
    bind(&mut m, Key::Char('s'), Action::CycleSort);
    bind(&mut m, Key::Char('S'), Action::ToggleSortDirection);
    bind(&mut m, Key::Char('?'), Action::Help);
    bind(&mut m, Key::Char('/'), Action::Search);
    assert(m@ =~= default_bindings());
    KeyMap { bindings: m }
}

/// The action bound to `key` in `keymap`, if any.
pub fn handle_key_event(key: KeyChord, keymap: &KeyMap) -> (r: Option<Action>)
    ensures
        r == lookup(keymap.bindings@, key),
{
    let n = keymap.bindings.len();
    let mut k: usize = 0;
    assert(keymap.bindings@.subrange(0, n as int) =~= keymap.bindings@);
    while k < n
        invariant
            n == keymap.bindings@.len(),
            k <= n,
            lookup(keymap.bindings@, key) == lookup(keymap.bindings@.subrange(k as int, n as int), key),
        decreases n - k,
    {
        let (chord, action) = keymap.bindings[k];
        let ghost rest = keymap.bindings@.subrange(k as int, n as int);
        assert(rest.drop_first() =~= keymap.bindings@.subrange(k + 1, n as int));
        if chord == key {
            return Some(action);
        }
        k += 1;
    }
    None
}

} // verus!
