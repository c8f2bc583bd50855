use chase::{Direction, KeyState, Keys};

#[test]
fn keys_start_released() {
    let keys = Keys::new();
    assert_eq!(keys.up, KeyState::NotPressed);
    assert_eq!(keys.down, KeyState::NotPressed);
    assert_eq!(keys.left, KeyState::NotPressed);
    assert_eq!(keys.right, KeyState::NotPressed);
}

#[test]
fn keys_press_touches_only_its_button() {
    let mut keys = Keys::new();
    keys.set(Direction::Left, KeyState::Pressed);
    assert_eq!(keys.left, KeyState::Pressed);
    assert_eq!(keys.right, KeyState::NotPressed);
    assert_eq!(keys.up, KeyState::NotPressed);
    assert_eq!(keys.down, KeyState::NotPressed);
}

#[test]
fn keys_release_after_press() {
    let mut keys = Keys::new();
    keys.set(Direction::Up, KeyState::Pressed);
    keys.set(Direction::Down, KeyState::Pressed);
    keys.set(Direction::Up, KeyState::NotPressed);
    assert_eq!(keys.up, KeyState::NotPressed);
    assert_eq!(keys.down, KeyState::Pressed);
}
