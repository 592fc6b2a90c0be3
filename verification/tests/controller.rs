use bevy::input::keyboard::KeyCode;
use bevy::input::ButtonInput;
use gameplay_core::controller::read_keyboard;
use gameplay_core::controller::{
    keyboard_direction, resolve_input, speed_tier, FacingSource, GamepadReading, InputDecision,
    IntentSource, KeyDirection, KeyboardReading, PlayerState, SpeedTier,
};

fn no_keys() -> KeyboardReading {
    KeyboardReading {
        shift_left: false,
        shift_right: false,
        key_w: false,
        arrow_up: false,
        key_s: false,
        arrow_down: false,
        key_a: false,
        arrow_left: false,
        key_d: false,
        arrow_right: false,
    }
}

fn pad(run_held: bool, move_stick_active: bool, aim_stick_active: bool) -> GamepadReading {
    GamepadReading { run_held, move_stick_active, aim_stick_active }
}

#[test]
fn default_state_is_walking() {
    assert_eq!(PlayerState::default(), PlayerState::Walking);
}

#[test]
fn no_input_leaves_player_idle() {
    let d = resolve_input(&vec![], &no_keys(), false);
    assert_eq!(
        d,
        InputDecision { state: PlayerState::Idle, intent: IntentSource::Still, facing: FacingSource::Unchanged }
    );
}

#[test]
fn keyboard_directions() {
    let mut k = no_keys();
    k.key_w = true;
    assert_eq!(keyboard_direction(&k), KeyDirection { x: 0, y: 1 });
    k.key_d = true;
    assert_eq!(keyboard_direction(&k), KeyDirection { x: 1, y: 1 });
    let mut k = no_keys();
    k.arrow_down = true;
    k.arrow_left = true;
    assert_eq!(keyboard_direction(&k), KeyDirection { x: -1, y: -1 });
    let mut k = no_keys();
    k.key_a = true;
    k.arrow_left = true;
    assert_eq!(keyboard_direction(&k), KeyDirection { x: -1, y: 0 });
}

#[test]
fn opposite_keys_cancel_to_idle() {
    let mut k = no_keys();
    k.key_w = true;
    k.arrow_down = true;
    k.key_a = true;
    k.key_d = true;
    assert_eq!(keyboard_direction(&k), KeyDirection { x: 0, y: 0 });
    let d = resolve_input(&vec![], &k, false);
    assert_eq!(d.state, PlayerState::Idle);
    assert_eq!(d.intent, IntentSource::Still);
}

#[test]
fn walking_and_running_on_keyboard() {
    let mut k = no_keys();
    k.key_s = true;
    let d = resolve_input(&vec![], &k, false);
    assert_eq!(d.state, PlayerState::Walking);
    assert_eq!(d.intent, IntentSource::Keyboard(KeyDirection { x: 0, y: -1 }));
    k.shift_right = true;
    assert_eq!(resolve_input(&vec![], &k, false).state, PlayerState::Running);
}

#[test]
fn shift_alone_does_not_run() {
    let mut k = no_keys();
    k.shift_left = true;
    let d = resolve_input(&vec![pad(true, false, false)], &k, false);
    assert_eq!(d.state, PlayerState::Idle);
}

#[test]
fn last_active_gamepad_wins() {
    let pads = vec![pad(false, true, true), pad(false, false, false), pad(false, true, false)];
    let d = resolve_input(&pads, &no_keys(), false);
    assert_eq!(d.intent, IntentSource::Gamepad(2));
    assert_eq!(d.facing, FacingSource::Gamepad(0));
    assert_eq!(d.state, PlayerState::Walking);
}

#[test]
fn any_gamepad_trigger_runs() {
    let pads = vec![pad(true, false, false), pad(false, true, false)];
    let d = resolve_input(&pads, &no_keys(), false);
    assert_eq!(d.state, PlayerState::Running);
    assert_eq!(d.intent, IntentSource::Gamepad(1));
}

#[test]
fn keyboard_overrides_gamepad() {
    let pads = vec![pad(false, true, false)];
    let mut k = no_keys();
    k.arrow_right = true;
    let d = resolve_input(&pads, &k, false);
    assert_eq!(d.intent, IntentSource::Keyboard(KeyDirection { x: 1, y: 0 }));
    k.key_a = true;
    let d = resolve_input(&pads, &k, false);
    assert_eq!(d.intent, IntentSource::Gamepad(0));
}

#[test]
fn cursor_overrides_aim_stick() {
    let pads = vec![pad(false, false, true)];
    assert_eq!(resolve_input(&pads, &no_keys(), true).facing, FacingSource::Cursor);
    assert_eq!(resolve_input(&pads, &no_keys(), false).facing, FacingSource::Gamepad(0));
    assert_eq!(resolve_input(&vec![], &no_keys(), true).facing, FacingSource::Cursor);
}

#[test]
fn speed_tiers() {
    assert_eq!(speed_tier(PlayerState::Idle), SpeedTier::Stopped);
    assert_eq!(speed_tier(PlayerState::Walking), SpeedTier::Walk);
    assert_eq!(speed_tier(PlayerState::Running), SpeedTier::Run);
}

#[test]
fn keyboard_is_read_from_the_input_resource() {
    let mut input = ButtonInput::<KeyCode>::default();
    assert_eq!(read_keyboard(&input), no_keys());
    input.press(KeyCode::KeyW);
    input.press(KeyCode::ShiftRight);
    input.press(KeyCode::ArrowLeft);
    input.press(KeyCode::Space);
    let mut expected = no_keys();
    expected.key_w = true;
    expected.shift_right = true;
    expected.arrow_left = true;
    assert_eq!(read_keyboard(&input), expected);
    let d = resolve_input(&vec![], &read_keyboard(&input), false);
    assert_eq!(d.state, PlayerState::Running);
    assert_eq!(d.intent, IntentSource::Keyboard(KeyDirection { x: -1, y: 1 }));
    input.release(KeyCode::KeyW);
    input.press(KeyCode::KeyS);
    input.press(KeyCode::KeyD);
    input.press(KeyCode::ArrowDown);
    input.press(KeyCode::ArrowRight);
    input.press(KeyCode::KeyA);
    input.press(KeyCode::ArrowUp);
    input.press(KeyCode::ShiftLeft);
    let keys = read_keyboard(&input);
    assert!(keys.key_s && keys.key_d && keys.arrow_down && keys.arrow_right && keys.key_a);
    assert!(keys.arrow_up && keys.shift_left && !keys.key_w);
}
