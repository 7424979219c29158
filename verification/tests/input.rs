use dsh_frontend::input::{read_action, InputAction, Key};

#[test]
fn keys_map_to_actions() {
    assert_eq!(read_action(&[Key::ArrowUp]), Some(InputAction::Up));
    assert_eq!(read_action(&[Key::KeyW]), Some(InputAction::Up));
    assert_eq!(read_action(&[Key::KeyS]), Some(InputAction::Down));
    assert_eq!(read_action(&[Key::KeyA]), Some(InputAction::Left));
    assert_eq!(read_action(&[Key::KeyE]), Some(InputAction::Right));
    assert_eq!(read_action(&[Key::Escape]), Some(InputAction::Back));
    assert_eq!(read_action(&[Key::Space]), Some(InputAction::Select));
    assert_eq!(read_action(&[Key::Numpad7]), Some(InputAction::Number(7)));
    assert_eq!(read_action(&[Key::Digit0]), Some(InputAction::Number(0)));
    assert_eq!(read_action(&[Key::KeyI]), Some(InputAction::Inventory));
    assert_eq!(read_action(&[Key::KeyM]), Some(InputAction::WorldMap));
    assert_eq!(read_action(&[Key::KeyC]), Some(InputAction::Combat));
    assert_eq!(read_action(&[Key::KeyD]), Some(InputAction::Dialog));
    assert_eq!(read_action(&[Key::PageDown]), Some(InputAction::Next));
    assert_eq!(read_action(&[Key::PageUp]), Some(InputAction::Previous));
    assert_eq!(read_action(&[Key::F10]), Some(InputAction::QuitApp));
}

#[test]
fn no_key_no_action() {
    assert_eq!(read_action(&[]), None);
}

#[test]
fn earlier_action_wins() {
    assert_eq!(read_action(&[Key::Escape, Key::ArrowDown]), Some(InputAction::Down));
    assert_eq!(read_action(&[Key::Digit3, Key::Digit1]), Some(InputAction::Number(1)));
    assert_eq!(read_action(&[Key::F10, Key::Tab]), Some(InputAction::Next));
}
