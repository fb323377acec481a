//! Mouse and keyboard normalization: flag-bit button transitions, wheel
//! deltas, break-flag handling, the Delete character and the close chord.

use raw_input::events::{ElementState, Event, KeyInput, ModifiersState, MouseButton};
use raw_input::keyboard::{keyboard_message_events, keyboard_pass_to_default, KeyboardData,
    VK_DELETE, VK_F4};
use raw_input::mouse::{mouse_message_events, MouseData, MouseDeviceState, RI_MOUSE_BUTTON_1_DOWN,
    RI_MOUSE_BUTTON_1_UP, RI_MOUSE_BUTTON_2_DOWN, RI_MOUSE_WHEEL};

const WINDOW: u64 = 0xAB;
const DEVICE: u64 = 0xCD;

fn mods() -> ModifiersState {
    ModifiersState::none_held()
}

fn mouse_data(flags: u16, data: u16) -> MouseData {
    MouseData { last_x: 3, last_y: -4, button_flags: flags, button_data: data }
}

#[test]
fn button1_down_yields_exactly_one_left_press() {
    let events = mouse_message_events(WINDOW, DEVICE, &mouse_data(RI_MOUSE_BUTTON_1_DOWN, 0), mods());
    assert_eq!(events.len(), 2);
    assert_eq!(
        events[0],
        Event::MouseMotion { window_id: WINDOW, device_id: DEVICE, delta_x: 3, delta_y: -4 }
    );
    assert_eq!(
        events[1],
        Event::MouseInput {
            window_id: WINDOW,
            device_id: DEVICE,
            state: ElementState::Pressed,
            button: MouseButton::Left,
            modifiers: mods(),
        }
    );
}

#[test]
fn absent_flags_are_a_noop_for_that_button() {
    // Only button 2 transitions; button 1 emits nothing and keeps its state.
    let mut state = MouseDeviceState::new(DEVICE);
    state.apply_message(&mouse_data(RI_MOUSE_BUTTON_1_DOWN, 0));
    assert_eq!(state.buttons, vec![true, false, false, false]);
    let d = mouse_data(RI_MOUSE_BUTTON_2_DOWN, 0);
    let events = mouse_message_events(WINDOW, DEVICE, &d, mods());
    assert_eq!(events.len(), 2);
    assert!(matches!(events[1], Event::MouseInput { button: MouseButton::Right, .. }));
    state.apply_message(&d);
    assert_eq!(state.buttons, vec![true, true, false, false]);
}

#[test]
fn up_flag_releases_the_button() {
    let mut state = MouseDeviceState::new(DEVICE);
    state.apply_message(&mouse_data(RI_MOUSE_BUTTON_1_DOWN, 0));
    state.apply_message(&mouse_data(RI_MOUSE_BUTTON_1_UP, 0));
    assert_eq!(state.buttons, vec![false, false, false, false]);
    let events = mouse_message_events(WINDOW, DEVICE, &mouse_data(RI_MOUSE_BUTTON_1_UP, 0), mods());
    assert_eq!(
        events[1],
        Event::MouseInput {
            window_id: WINDOW,
            device_id: DEVICE,
            state: ElementState::Released,
            button: MouseButton::Left,
            modifiers: mods(),
        }
    );
}

#[test]
fn down_flag_takes_precedence_when_both_bits_are_set() {
    let d = mouse_data(RI_MOUSE_BUTTON_1_DOWN | RI_MOUSE_BUTTON_1_UP, 0);
    let events = mouse_message_events(WINDOW, DEVICE, &d, mods());
    assert_eq!(events.len(), 2);
    assert!(matches!(
        events[1],
        Event::MouseInput { state: ElementState::Pressed, button: MouseButton::Left, .. }
    ));
    let mut state = MouseDeviceState::new(DEVICE);
    state.apply_message(&d);
    assert_eq!(state.buttons, vec![true, false, false, false]);
}

#[test]
fn wheel_flag_emits_the_button_data_as_signed_delta() {
    let events = mouse_message_events(WINDOW, DEVICE, &mouse_data(RI_MOUSE_WHEEL, 120), mods());
    assert_eq!(events.len(), 2);
    assert_eq!(
        events[1],
        Event::MouseWheel { window_id: WINDOW, device_id: DEVICE, delta: 120 }
    );
    // 0xFF88 is -120 read as a signed sixteen-bit value.
    let events = mouse_message_events(WINDOW, DEVICE, &mouse_data(RI_MOUSE_WHEEL, 0xFF88), mods());
    assert_eq!(
        events[1],
        Event::MouseWheel { window_id: WINDOW, device_id: DEVICE, delta: -120 }
    );
}

#[test]
fn wheel_delta_is_per_message_state() {
    let mut state = MouseDeviceState::new(DEVICE);
    state.apply_message(&mouse_data(RI_MOUSE_WHEEL, 120));
    assert_eq!(state.wheel_delta, 120);
    state.apply_message(&mouse_data(0, 7));
    // No wheel flag: the recorded delta stays, it is not accumulated.
    assert_eq!(state.wheel_delta, 120);
    assert_eq!(state.x, 3);
    assert_eq!(state.y, -4);
}

fn key_data(vkey: u32, break_flag: bool, sys_key_down: bool, symbol: Option<u32>) -> KeyboardData {
    KeyboardData { vkey, break_flag, sys_key_down, scancode: 0x1C, virtual_keycode: symbol }
}

#[test]
fn break_flag_yields_exactly_one_release() {
    let d = key_data(0x41, true, false, Some(0x41));
    let events = keyboard_message_events(WINDOW, DEVICE, &d, mods());
    assert_eq!(events.len(), 1);
    assert_eq!(
        events[0],
        Event::KeyboardInput {
            window_id: WINDOW,
            device_id: DEVICE,
            input: KeyInput {
                state: ElementState::Released,
                scancode: 0x1C,
                virtual_keycode: Some(0x41),
                modifiers: mods(),
            },
        }
    );
}

#[test]
fn delete_press_yields_press_then_del_character() {
    let d = key_data(VK_DELETE, false, false, Some(VK_DELETE));
    let events = keyboard_message_events(WINDOW, DEVICE, &d, mods());
    assert_eq!(events.len(), 2);
    assert!(matches!(
        events[0],
        Event::KeyboardInput { input: KeyInput { state: ElementState::Pressed, .. }, .. }
    ));
    assert_eq!(events[1], Event::ReceivedCharacter { window_id: WINDOW, ch: '\u{7f}' });
}

#[test]
fn ordinary_press_yields_one_event_and_no_character() {
    let d = key_data(0x41, false, false, Some(0x41));
    let events = keyboard_message_events(WINDOW, DEVICE, &d, mods());
    assert_eq!(events.len(), 1);
    assert!(!keyboard_pass_to_default(&d));
}

#[test]
fn close_chord_yields_zero_events_and_passes_through() {
    let d = key_data(VK_F4, false, true, None);
    let events = keyboard_message_events(WINDOW, DEVICE, &d, mods());
    assert_eq!(events.len(), 0);
    assert!(keyboard_pass_to_default(&d));
    // A plain F4 press without the system chord is an ordinary key event.
    let plain = key_data(VK_F4, false, false, None);
    assert!(!keyboard_pass_to_default(&plain));
    assert_eq!(keyboard_message_events(WINDOW, DEVICE, &plain, mods()).len(), 1);
}
