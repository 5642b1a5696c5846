use maratui::button::{Button, ButtonPressType, ButtonState};

const T0: u64 = 5_000;

#[test]
fn test_button_press_type_display() {
    assert_eq!(ButtonPressType::Short.to_string(), "Short Press");
    assert_eq!(ButtonPressType::Long.to_string(), "Long Press");
}

#[test]
fn test_button_display() {
    assert_eq!(
        Button::Button1(ButtonPressType::Short).to_string(),
        "Button 1 (Short Press)"
    );
    assert_eq!(
        Button::Button1(ButtonPressType::Long).to_string(),
        "Button 1 (Long Press)"
    );
}

#[test]
fn test_button_is_short_press() {
    assert!(Button::Button1(ButtonPressType::Short).is_short_press());
    assert!(!Button::Button1(ButtonPressType::Long).is_short_press());
}

#[test]
fn test_button_is_long_press() {
    assert!(Button::Button1(ButtonPressType::Long).is_long_press());
    assert!(!Button::Button1(ButtonPressType::Short).is_long_press());
}

#[test]
fn test_button_state_short_press() {
    let mut state = ButtonState::default();
    let mut received: Option<ButtonPressType> = None;

    // Press
    state.update(true, T0, |_| {});
    // Release immediately → short press
    state.update(false, T0, |t| received = Some(t));

    assert_eq!(received, Some(ButtonPressType::Short));
}

#[test]
fn test_button_state_no_callback_when_not_pressed() {
    let mut state = ButtonState::default();
    let mut called = false;

    state.update(false, T0, |_| called = true);

    assert!(!called);
}

#[test]
fn test_button_state_held_does_not_fire() {
    let mut state = ButtonState::default();
    let mut count = 0;

    // Multiple held-down ticks without release
    state.update(true, T0, |_| count += 1);
    state.update(true, T0 + 10, |_| count += 1);
    state.update(true, T0 + 20, |_| count += 1);

    assert_eq!(count, 0);
}

#[test]
fn test_button_state_long_press() {
    let mut state = ButtonState::default();
    let mut received: Option<ButtonPressType> = None;

    state.update(true, T0, |_| {});
    state.update(false, T0 + 600, |t| received = Some(t));

    assert_eq!(received, Some(ButtonPressType::Long));
}

#[test]
fn press_threshold_is_measured_from_first_down_sample() {
    let mut state = ButtonState::default();
    assert_eq!(state.poll(true, T0), None);
    assert_eq!(state.poll(true, T0 + 300), None);
    assert_eq!(state.poll(false, T0 + 499), Some(ButtonPressType::Short));
    assert_eq!(state.poll(false, T0 + 600), None);
    assert_eq!(state.poll(true, T0 + 1_000), None);
    assert_eq!(state.poll(false, T0 + 1_500), Some(ButtonPressType::Long));
}

#[test]
fn hold_beyond_two_seconds_is_ignored() {
    let mut state = ButtonState::default();
    state.poll(true, T0);
    assert_eq!(state.poll(false, T0 + 2_000), Some(ButtonPressType::Long));
    state.poll(true, T0 + 5_000);
    assert_eq!(state.poll(false, T0 + 7_001), None);
    let mut called = false;
    state.update(true, T0 + 10_000, |_| called = true);
    state.update(false, T0 + 13_000, |_| called = true);
    assert!(!called);
    state.update(true, T0 + 20_000, |_| {});
    let mut received = None;
    state.update(false, T0 + 21_999, |t| received = Some(t));
    assert_eq!(received, Some(ButtonPressType::Long));
}
