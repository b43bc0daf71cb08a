use renderer::input_manager::InputManager;

#[test]
fn movement_between_two_polls() {
    let mut input = InputManager::new();
    input.poll(10, 10);
    assert_eq!(input.mouse_movement(), (0, 0));
    input.poll(15, 4);
    assert_eq!(input.mouse_movement(), (5, -6));
}

#[test]
fn movement_at_extremes_does_not_overflow() {
    let mut input = InputManager::new();
    input.poll(i32::MIN, i32::MAX);
    input.poll(i32::MAX, i32::MIN);
    assert_eq!(
        input.mouse_movement(),
        (i32::MAX as i64 - i32::MIN as i64, i32::MIN as i64 - i32::MAX as i64)
    );
}

#[test]
fn scroll_is_gathered_until_the_next_poll() {
    let mut input = InputManager::new();
    input.wheel_event(0, 1);
    input.wheel_event(2, 3);
    assert_eq!(input.scroll(), (0, 0));
    input.poll(0, 0);
    assert_eq!(input.scroll(), (2, 4));
    input.poll(0, 0);
    assert_eq!(input.scroll(), (0, 0));
}

#[test]
fn keys_go_down_and_up() {
    let mut input = InputManager::new();
    assert!(!input.key_down(87));
    input.key_event(87, true);
    input.key_event(87, true);
    input.key_event(65, true);
    assert!(input.key_down(87));
    assert!(input.key_down(65));
    input.key_event(87, false);
    assert!(!input.key_down(87));
    assert!(input.key_down(65));
    input.key_event(83, false);
    assert!(!input.key_down(83));
}
