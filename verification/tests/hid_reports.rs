//! HID report interpretation: full-replace button state and in-order axis
//! overwrites, driven through the device registry.

use raw_input::hid::{AxisCap, HidDeviceState};
use raw_input::manager::InputManager;

fn axis_caps(usages: &[u16]) -> Vec<AxisCap> {
    usages.iter().map(|&u| AxisCap { usage_page: 1, usage: u }).collect()
}

#[test]
fn fresh_device_is_cleared() {
    let dev = HidDeviceState::new(7, 9, 1, 8, axis_caps(&[0x30, 0x31]));
    assert_eq!(dev.buttons.len(), 8);
    assert!(dev.buttons.iter().all(|&b| !b));
    assert_eq!(dev.axes, vec![0, 0]);
}

#[test]
fn empty_report_clears_all_buttons() {
    let mut dev = HidDeviceState::new(7, 9, 1, 8, axis_caps(&[0x30]));
    dev.apply_report(&vec![2, 5, 8], &vec![11]);
    assert!(dev.buttons.iter().any(|&b| b));
    dev.apply_report(&vec![], &vec![0]);
    assert!(dev.buttons.iter().all(|&b| !b));
}

#[test]
fn report_sets_exactly_the_offsets_in_range() {
    let mut dev = HidDeviceState::new(7, 9, 1, 8, Vec::new());
    // 3 and 5 lie in [1, 8]; 9 and 0 fall outside and are ignored.
    dev.apply_report(&vec![3, 5, 9, 0], &vec![]);
    let expected = vec![false, false, true, false, true, false, false, false];
    assert_eq!(dev.buttons, expected);
}

#[test]
fn reports_replace_and_never_accumulate() {
    let mut dev = HidDeviceState::new(7, 9, 1, 8, Vec::new());
    dev.apply_report(&vec![3, 5], &vec![]);
    dev.apply_report(&vec![1], &vec![]);
    let expected = vec![true, false, false, false, false, false, false, false];
    assert_eq!(dev.buttons, expected);
}

#[test]
fn axes_written_in_declared_order_and_overwritten() {
    let mut dev = HidDeviceState::new(7, 9, 1, 2, axis_caps(&[0x30, 0x31, 0x32]));
    dev.apply_report(&vec![], &vec![7, 65535, 42]);
    assert_eq!(dev.axes, vec![7, 65535, 42]);
    dev.apply_report(&vec![], &vec![1, 2, 3]);
    assert_eq!(dev.axes, vec![1, 2, 3]);
}

#[test]
fn registry_applies_report_to_the_right_device() {
    let mut mgr = InputManager::new();
    assert!(mgr.register_hid_device(10, 9, 1, 4, axis_caps(&[0x30])));
    assert!(mgr.register_hid_device(11, 9, 1, 4, axis_caps(&[0x30])));
    assert!(mgr.apply_hid_report(11, &vec![2], &vec![99]));
    assert!(mgr.hid[0].buttons.iter().all(|&b| !b));
    assert_eq!(mgr.hid[0].axes, vec![0]);
    assert_eq!(mgr.hid[1].buttons, vec![false, true, false, false]);
    assert_eq!(mgr.hid[1].axes, vec![99]);
}

#[test]
fn full_usage_range_device() {
    // The widest contiguous range a capability can declare.
    let mut dev = HidDeviceState::new(1, 9, 0, u16::MAX, Vec::new());
    assert_eq!(dev.buttons.len(), 65536);
    dev.apply_report(&vec![0, u16::MAX], &vec![]);
    assert!(dev.buttons[0]);
    assert!(dev.buttons[65535]);
    assert_eq!(dev.buttons.iter().filter(|&&b| b).count(), 2);
}

#[test]
fn duplicate_hid_registration_is_refused() {
    let mut mgr = InputManager::new();
    assert!(mgr.register_hid_device(10, 9, 1, 4, Vec::new()));
    assert!(!mgr.register_hid_device(10, 9, 1, 8, Vec::new()));
    assert_eq!(mgr.hid.len(), 1);
    assert_eq!(mgr.hid[0].usage_max, 4);
}
