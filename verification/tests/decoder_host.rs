//! The full dispatch path: no-target policy, capability misses, pointer
//! lock recentering, registration outcomes and the GUI position channel.

use raw_input::decoder::{InputHost, RawMessage, RawPayload};
use raw_input::events::{Event, ModifiersState};
use raw_input::keyboard::{KeyboardData, VK_F4};
use raw_input::manager::InputManager;
use raw_input::mouse::{CursorLock, MouseData, RI_MOUSE_BUTTON_1_DOWN};
use raw_input::registration::{
    device_class_requests, registration_status, RegistrationStatus, HID_USAGE_GENERIC_GAMEPAD,
    HID_USAGE_GENERIC_JOYSTICK, HID_USAGE_GENERIC_KEYBOARD, HID_USAGE_GENERIC_MOUSE,
    HID_USAGE_PAGE_GENERIC,
};

const WINDOW: u64 = 0x51;

fn no_lock() -> CursorLock {
    CursorLock { active: false, client_width: 800, client_height: 600 }
}

fn mods() -> ModifiersState {
    ModifiersState::none_held()
}

fn hid_message(device: u64, usages: &[u16], values: &[u32]) -> RawMessage {
    RawMessage {
        device,
        payload: RawPayload::Hid {
            active_usages: usages.to_vec(),
            axis_values: values.to_vec(),
        },
    }
}

#[test]
fn without_a_target_the_decoder_is_a_noop() {
    let mut host = InputHost::new(WINDOW);
    assert!(!host.has_target());
    let out = host.on_raw_input(&hid_message(5, &[1], &[]), &no_lock(), mods());
    assert!(!out.handled);
    assert!(!out.pass_to_default);
    assert!(out.events.is_empty());
    assert!(out.recenter.is_none());
}

#[test]
fn capability_miss_drops_the_message_silently() {
    let mut host = InputHost::new(WINDOW);
    let mut mgr = InputManager::new();
    assert!(mgr.register_hid_device(10, 9, 1, 4, Vec::new()));
    host.attach_manager(mgr);
    // Device 99 connected after the capability snapshot: no entry.
    let out = host.on_raw_input(&hid_message(99, &[1, 2], &[]), &no_lock(), mods());
    assert!(out.handled);
    assert!(out.events.is_empty());
    let mgr = host.manager.as_ref().unwrap();
    assert_eq!(mgr.hid.len(), 1);
    assert!(mgr.hid[0].buttons.iter().all(|&b| !b));
}

#[test]
fn hid_hit_updates_the_controller_and_emits_nothing() {
    let mut host = InputHost::new(WINDOW);
    let mut mgr = InputManager::new();
    assert!(mgr.register_hid_device(10, 9, 1, 4, Vec::new()));
    host.attach_manager(mgr);
    let out = host.on_raw_input(&hid_message(10, &[2, 4], &[]), &no_lock(), mods());
    assert!(out.handled);
    assert!(out.events.is_empty());
    let mgr = host.manager.as_ref().unwrap();
    assert_eq!(mgr.hid[0].buttons, vec![false, true, false, true]);
}

#[test]
fn unregistered_mouse_emits_no_event() {
    let mut host = InputHost::new(WINDOW);
    host.attach_manager(InputManager::new());
    let msg = RawMessage {
        device: 3,
        payload: RawPayload::Mouse {
            data: MouseData { last_x: 1, last_y: 2, button_flags: RI_MOUSE_BUTTON_1_DOWN, button_data: 0 },
        },
    };
    let out = host.on_raw_input(&msg, &no_lock(), mods());
    assert!(out.handled);
    assert!(out.events.is_empty());
}

#[test]
fn registered_mouse_message_flows_through_the_host() {
    let mut host = InputHost::new(WINDOW);
    let mut mgr = InputManager::new();
    assert!(mgr.register_mouse(3));
    host.attach_manager(mgr);
    let msg = RawMessage {
        device: 3,
        payload: RawPayload::Mouse {
            data: MouseData { last_x: 9, last_y: -9, button_flags: RI_MOUSE_BUTTON_1_DOWN, button_data: 0 },
        },
    };
    let out = host.on_raw_input(&msg, &no_lock(), mods());
    assert!(out.handled);
    assert_eq!(out.events.len(), 2);
    assert!(out.recenter.is_none());
    let mgr = host.manager.as_ref().unwrap();
    assert_eq!(mgr.mice[0].buttons, vec![true, false, false, false]);
    assert_eq!((mgr.mice[0].x, mgr.mice[0].y), (9, -9));
}

#[test]
fn pointer_lock_requests_a_recenter_to_the_client_center() {
    let mut host = InputHost::new(WINDOW);
    let mut mgr = InputManager::new();
    assert!(mgr.register_mouse(3));
    host.attach_manager(mgr);
    let msg = RawMessage {
        device: 3,
        payload: RawPayload::Mouse {
            data: MouseData { last_x: 0, last_y: 0, button_flags: 0, button_data: 0 },
        },
    };
    let lock = CursorLock { active: true, client_width: 801, client_height: 600 };
    let out = host.on_raw_input(&msg, &lock, mods());
    assert_eq!(out.recenter, Some((400, 300)));
}

#[test]
fn close_chord_is_not_handled_and_passes_to_default() {
    let mut host = InputHost::new(WINDOW);
    let mut mgr = InputManager::new();
    assert!(mgr.register_keyboard(4));
    host.attach_manager(mgr);
    let msg = RawMessage {
        device: 4,
        payload: RawPayload::Keyboard {
            data: KeyboardData {
                vkey: VK_F4,
                break_flag: false,
                sys_key_down: true,
                scancode: 0x3E,
                virtual_keycode: None,
            },
        },
    };
    let out = host.on_raw_input(&msg, &no_lock(), mods());
    assert!(!out.handled);
    assert!(out.pass_to_default);
    assert!(out.events.is_empty());
}

#[test]
fn keyboard_press_is_decoded_for_registered_keyboards_only() {
    let mut host = InputHost::new(WINDOW);
    let mut mgr = InputManager::new();
    assert!(mgr.register_keyboard(4));
    host.attach_manager(mgr);
    let data = KeyboardData {
        vkey: 0x41,
        break_flag: false,
        sys_key_down: false,
        scancode: 0x1E,
        virtual_keycode: Some(0x41),
    };
    let hit = RawMessage { device: 4, payload: RawPayload::Keyboard { data } };
    let out = host.on_raw_input(&hit, &no_lock(), mods());
    assert_eq!(out.events.len(), 1);
    assert!(matches!(out.events[0], Event::KeyboardInput { device_id: 4, .. }));
    let miss = RawMessage { device: 5, payload: RawPayload::Keyboard { data } };
    let out = host.on_raw_input(&miss, &no_lock(), mods());
    assert!(out.handled);
    assert!(out.events.is_empty());
}

#[test]
fn gui_update_unpacks_signed_client_coordinates() {
    let mut host = InputHost::new(WINDOW);
    host.attach_manager(InputManager::new());
    // Low word 5, second word 0xFFF0 = -16.
    host.on_gui_update(0xFFF0_0005);
    let mgr = host.manager.as_ref().unwrap();
    assert_eq!((mgr.gui_mouse_x, mgr.gui_mouse_y), (5, -16));
}

#[test]
fn gui_update_without_target_changes_nothing() {
    let mut host = InputHost::new(WINDOW);
    host.on_gui_update(0x0010_0010);
    assert!(host.manager.is_none());
}

#[test]
fn duplicate_mouse_and_keyboard_registrations_are_refused() {
    let mut mgr = InputManager::new();
    assert!(mgr.register_mouse(3));
    assert!(!mgr.register_mouse(3));
    assert_eq!(mgr.mice.len(), 1);
    assert!(mgr.register_keyboard(4));
    assert!(!mgr.register_keyboard(4));
    assert_eq!(mgr.keyboards, vec![4]);
}

#[test]
fn registration_failure_is_degraded_not_fatal() {
    assert_eq!(registration_status(false), RegistrationStatus::Degraded);
    assert_eq!(registration_status(true), RegistrationStatus::Active);
}

#[test]
fn four_device_classes_are_registered() {
    let reqs = device_class_requests();
    assert_eq!(reqs.len(), 4);
    let usages: Vec<u16> = reqs.iter().map(|r| r.usage).collect();
    assert_eq!(
        usages,
        vec![
            HID_USAGE_GENERIC_JOYSTICK,
            HID_USAGE_GENERIC_GAMEPAD,
            HID_USAGE_GENERIC_KEYBOARD,
            HID_USAGE_GENERIC_MOUSE,
        ]
    );
    assert!(reqs.iter().all(|r| r.usage_page == HID_USAGE_PAGE_GENERIC));
    // Legacy messages stay on for everything but the keyboard.
    let legacy_off: Vec<bool> = reqs.iter().map(|r| r.suppress_legacy).collect();
    assert_eq!(legacy_off, vec![false, false, true, false]);
}
