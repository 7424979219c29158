//! Keyboard keys to frontend navigation actions.
//!
//! This layer contains no gameplay behaviour: a key only ever names a navigation
//! action.
use vstd::prelude::*;

verus! {

#[derive(Debug, Clone, Copy, PartialEq, Eq, Structural)]
pub enum InputAction {
    Nothing,
    Up,
    Down,
    Left,
    Right,
    Back,
    Select,
    Number(usize),
    Inventory,
    WorldMap,
    Combat,
    Dialog,
    Next,
    Previous,
    QuitApp,
}

/// The physical keys that the frontend reacts to.
#[derive(Debug, Clone, Copy, PartialEq, Eq, Structural)]
pub enum Key {
    ArrowUp,
    ArrowDown,
    ArrowLeft,
    ArrowRight,
    KeyW,
    KeyA,
    KeyS,
    KeyE,
    KeyI,
    KeyM,
    KeyC,
    KeyD,
    Escape,
    Enter,
    Space,
    Tab,
    PageUp,
    PageDown,
    F10,
    Digit0,
    Digit1,
    Digit2,
    Digit3,
    Digit4,
    Digit5,
    Digit6,
    Digit7,
    Digit8,
    Digit9,
    Numpad0,
    Numpad1,
    Numpad2,
    Numpad3,
    Numpad4,
    Numpad5,
    Numpad6,
    Numpad7,
    Numpad8,
    Numpad9,
}

/// The action for a set of keys pressed in this frame. When keys of several
/// actions are pressed at once, the first action in this order wins: up, down,
/// left, right, back, select, the digits 1 to 9 and 0, inventory, map, combat,
/// dialog, next, previous, quit. No recognised key gives no action.
pub open spec fn action_for(pressed: Seq<Key>) -> Option<InputAction> {
    if pressed.contains(Key::ArrowUp) || pressed.contains(Key::KeyW) {
        Some(InputAction::Up)
    } else if pressed.contains(Key::ArrowDown) || pressed.contains(Key::KeyS) {
        Some(InputAction::Down)
    } else if pressed.contains(Key::ArrowLeft) || pressed.contains(Key::KeyA) {
        Some(InputAction::Left)
    } else if pressed.contains(Key::ArrowRight) || pressed.contains(Key::KeyE) {
        Some(InputAction::Right)
    } else if pressed.contains(Key::Escape) {
        Some(InputAction::Back)
    } else if pressed.contains(Key::Enter) || pressed.contains(Key::Space) {
        Some(InputAction::Select)
    } else if pressed.contains(Key::Digit1) || pressed.contains(Key::Numpad1) {
        Some(InputAction::Number(1))
    } else if pressed.contains(Key::Digit2) || pressed.contains(Key::Numpad2) {
        Some(InputAction::Number(2))
    } else if pressed.contains(Key::Digit3) || pressed.contains(Key::Numpad3) {
        Some(InputAction::Number(3))
    } else if pressed.contains(Key::Digit4) || pressed.contains(Key::Numpad4) {
        Some(InputAction::Number(4))
    } else if pressed.contains(Key::Digit5) || pressed.contains(Key::Numpad5) {
        Some(InputAction::Number(5))
    } else if pressed.contains(Key::Digit6) || pressed.contains(Key::Numpad6) {
        Some(InputAction::Number(6))
    } else if pressed.contains(Key::Digit7) || pressed.contains(Key::Numpad7) {
        Some(InputAction::Number(7))
    } else if pressed.contains(Key::Digit8) || pressed.contains(Key::Numpad8) {
        Some(InputAction::Number(8))
    } else if pressed.contains(Key::Digit9) || pressed.contains(Key::Numpad9) {
        Some(InputAction::Number(9))
    } else if pressed.contains(Key::Digit0) || pressed.contains(Key::Numpad0) {
        Some(InputAction::Number(0))
    } else if pressed.contains(Key::KeyI) {
        Some(InputAction::Inventory)
    } else if pressed.contains(Key::KeyM) {
        Some(InputAction::WorldMap)
    } else if pressed.contains(Key::KeyC) {
        Some(InputAction::Combat)
    } else if pressed.contains(Key::KeyD) {
        Some(InputAction::Dialog)
    } else if pressed.contains(Key::Tab) || pressed.contains(Key::PageDown) {
        Some(InputAction::Next)
    } else if pressed.contains(Key::PageUp) {
        Some(InputAction::Previous)
    } else if pressed.contains(Key::F10) {
        Some(InputAction::QuitApp)
    } else {
        None
    }
}

/// Whether `key` is among `keys`.
pub fn is_pressed(keys: &[Key], key: Key) -> (pressed: bool)
    ensures
        pressed == keys@.contains(key),
{
    let n = keys.len();
    let mut i: usize = 0;
    while i < n
        invariant
            n == keys@.len(),
            i <= n,
            forall|j: int| 0 <= j < i ==> keys@[j] != key,
        decreases n - i,
    {
        if keys[i] == key {
            assert(keys@[i as int] == key);
            return true;
        }
        i = i + 1;
    }
    false
}

/// Converts the keys pressed in this frame into a frontend navigation action.
pub fn read_action(keys: &[Key]) -> (action: Option<InputAction>)
    ensures
        action == action_for(keys@),
{
    let action = if is_pressed(keys, Key::ArrowUp) || is_pressed(keys, Key::KeyW) {
        InputAction::Up
    } else if is_pressed(keys, Key::ArrowDown) || is_pressed(keys, Key::KeyS) {
        InputAction::Down
    } else if is_pressed(keys, Key::ArrowLeft) || is_pressed(keys, Key::KeyA) {
        InputAction::Left
    } else if is_pressed(keys, Key::ArrowRight) || is_pressed(keys, Key::KeyE) {
        InputAction::Right
    } else if is_pressed(keys, Key::Escape) {
        InputAction::Back
    } else if is_pressed(keys, Key::Enter) || is_pressed(keys, Key::Space) {
        InputAction::Select
    } else if is_pressed(keys, Key::Digit1) || is_pressed(keys, Key::Numpad1) {
        InputAction::Number(1)
    } else if is_pressed(keys, Key::Digit2) || is_pressed(keys, Key::Numpad2) {
        InputAction::Number(2)
    } else if is_pressed(keys, Key::Digit3) || is_pressed(keys, Key::Numpad3) {
        InputAction::Number(3)
    } else if is_pressed(keys, Key::Digit4) || is_pressed(keys, Key::Numpad4) {
        InputAction::Number(4)
    } else if is_pressed(keys, Key::Digit5) || is_pressed(keys, Key::Numpad5) {
        InputAction::Number(5)
    } else if is_pressed(keys, Key::Digit6) || is_pressed(keys, Key::Numpad6) {
        InputAction::Number(6)
    } else if is_pressed(keys, Key::Digit7) || is_pressed(keys, Key::Numpad7) {
        InputAction::Number(7)
    } else if is_pressed(keys, Key::Digit8) || is_pressed(keys, Key::Numpad8) {
        InputAction::Number(8)
    } else if is_pressed(keys, Key::Digit9) || is_pressed(keys, Key::Numpad9) {
        InputAction::Number(9)
    } else if is_pressed(keys, Key::Digit0) || is_pressed(keys, Key::Numpad0) {
        InputAction::Number(0)
    } else if is_pressed(keys, Key::KeyI) {
        InputAction::Inventory
    } else if is_pressed(keys, Key::KeyM) {
        InputAction::WorldMap
    } else if is_pressed(keys, Key::KeyC) {
        InputAction::Combat
    } else if is_pressed(keys, Key::KeyD) {
        InputAction::Dialog
    } else if is_pressed(keys, Key::Tab) || is_pressed(keys, Key::PageDown) {
        InputAction::Next
    } else if is_pressed(keys, Key::PageUp) {
        InputAction::Previous
    } else if is_pressed(keys, Key::F10) {
        InputAction::QuitApp
    } else {
        return None;
    };
    Some(action)
}

/// Every key the frontend knows leads, pressed alone, to an action; with no key
/// pressed there is none.
pub proof fn lemma_every_key_has_action(key: Key)
    ensures
        action_for(seq![key]) is Some,
        action_for(Seq::<Key>::empty()) is None,
{
    assert(seq![key].contains(key)) by {
        assert(seq![key][0] == key);
    }
    assert forall|k: Key| #[trigger] seq![key].contains(k) <==> k == key by {
        if seq![key].contains(k) {
            let i = choose|i: int| 0 <= i < 1 && seq![key][i] == k;
            assert(i == 0);
        }
    }
}

/// What each key does on its own: arrows and `W` `A` `S` `E` move, Escape goes
/// back, Enter and Space select, digit and keypad keys pick their number, `I` `M`
/// `C` `D` open the inventory, map, combat and dialog, Tab and Page Down go to the
/// next entry, Page Up to the previous one, F10 quits.
pub open spec fn key_action(key: Key) -> InputAction {
    match key {
        Key::ArrowUp | Key::KeyW => InputAction::Up,
        Key::ArrowDown | Key::KeyS => InputAction::Down,
        Key::ArrowLeft | Key::KeyA => InputAction::Left,
        Key::ArrowRight | Key::KeyE => InputAction::Right,
        Key::Escape => InputAction::Back,
        Key::Enter | Key::Space => InputAction::Select,
        Key::Digit0 | Key::Numpad0 => InputAction::Number(0),
        Key::Digit1 | Key::Numpad1 => InputAction::Number(1),
        Key::Digit2 | Key::Numpad2 => InputAction::Number(2),
        Key::Digit3 | Key::Numpad3 => InputAction::Number(3),
        Key::Digit4 | Key::Numpad4 => InputAction::Number(4),
        Key::Digit5 | Key::Numpad5 => InputAction::Number(5),
        Key::Digit6 | Key::Numpad6 => InputAction::Number(6),
        Key::Digit7 | Key::Numpad7 => InputAction::Number(7),
        Key::Digit8 | Key::Numpad8 => InputAction::Number(8),
        Key::Digit9 | Key::Numpad9 => InputAction::Number(9),
        Key::KeyI => InputAction::Inventory,
        Key::KeyM => InputAction::WorldMap,
        Key::KeyC => InputAction::Combat,
        Key::KeyD => InputAction::Dialog,
        Key::Tab | Key::PageDown => InputAction::Next,
        Key::PageUp => InputAction::Previous,
        Key::F10 => InputAction::QuitApp,
    }
}

/// A key pressed alone gives exactly its own action.
pub proof fn lemma_single_key(key: Key)
    ensures
        action_for(seq![key]) == Some(key_action(key)),
{
    assert forall|k: Key| #[trigger] seq![key].contains(k) <==> k == key by {
        if seq![key].contains(k) {
            let i = choose|i: int| 0 <= i < 1 && seq![key][i] == k;
            assert(i == 0);
        } else {
            assert(seq![key][0] == key);
        }
    }
}

/// Whatever keys are pressed together, the action is the one of a pressed key, and
/// there is an action exactly when some key is pressed.
pub proof fn lemma_action_of_pressed_key(pressed: Seq<Key>)
    ensures
        action_for(pressed) is None <==> pressed.len() == 0,
        action_for(pressed) is Some ==> exists|i: int|
            0 <= i < pressed.len() && Some(key_action(#[trigger] pressed[i])) == action_for(pressed),
{
    if pressed.len() > 0 {
        assert(pressed.contains(pressed[0]));
    }
    if action_for(pressed) is Some {
        let a = action_for(pressed);
        let i = choose|i: int| 0 <= i < pressed.len() && Some(key_action(#[trigger] pressed[i])) == a;
        assert(0 <= i < pressed.len() && Some(key_action(pressed[i])) == a);
    }
}

} // verus!
