//! Device registration: the fixed list of raw-input device classes the
//! process asks the operating system to stream, and the non-fatal
//! handling of a registration that the system refuses.

use vstd::prelude::*;

verus! {

/// The generic-desktop usage page all registered classes live on.
pub const HID_USAGE_PAGE_GENERIC: u16 = 1;

/// Generic-desktop usage of a mouse.
pub const HID_USAGE_GENERIC_MOUSE: u16 = 2;

/// Generic-desktop usage of a joystick.
pub const HID_USAGE_GENERIC_JOYSTICK: u16 = 4;

/// Generic-desktop usage of a gamepad.
pub const HID_USAGE_GENERIC_GAMEPAD: u16 = 5;

/// Generic-desktop usage of a keyboard.
pub const HID_USAGE_GENERIC_KEYBOARD: u16 = 6;

/// One device class to register for raw input.  With `suppress_legacy`
/// set, the class stops generating traditional window messages besides
/// the raw ones.
#[derive(Clone, Copy, PartialEq, Eq, Debug)]
pub struct DeviceClassRequest {
    pub usage_page: u16,
    pub usage: u16,
    pub suppress_legacy: bool,
}

/// Whether raw input is live after the registration call, or the process
/// runs on without it.
#[derive(Clone, Copy, PartialEq, Eq, Debug)]
pub enum RegistrationStatus {
    /// The system accepted the registration; raw messages will arrive.
    Active,
    /// The system refused; the subsystem continues in degraded mode with
    /// no raw input rather than failing window creation.
    Degraded,
}

/// The four device classes registered for raw input, in registration
/// order: joystick, gamepad, keyboard and mouse.
///
/// Legacy messages are suppressed for the keyboard only, so system key
/// chords do not trigger menus while in game.  The mouse keeps its legacy
/// messages on purpose: the window would otherwise stop responding to
/// ordinary commands in windowed mode, and GUI work still needs them.
pub fn device_class_requests() -> (r: Vec<DeviceClassRequest>)
    ensures
        r@.len() == 4,
        r@[0] == (DeviceClassRequest {
            usage_page: HID_USAGE_PAGE_GENERIC,
            usage: HID_USAGE_GENERIC_JOYSTICK,
            suppress_legacy: false,
        }),
        r@[1] == (DeviceClassRequest {
            usage_page: HID_USAGE_PAGE_GENERIC,
            usage: HID_USAGE_GENERIC_GAMEPAD,
            suppress_legacy: false,
        }),
        r@[2] == (DeviceClassRequest {
            usage_page: HID_USAGE_PAGE_GENERIC,
            usage: HID_USAGE_GENERIC_KEYBOARD,
            suppress_legacy: true,
        }),
        r@[3] == (DeviceClassRequest {
            usage_page: HID_USAGE_PAGE_GENERIC,
            usage: HID_USAGE_GENERIC_MOUSE,
            suppress_legacy: false,
        }),
{
    let mut r: Vec<DeviceClassRequest> = Vec::new();
    r.push(
        DeviceClassRequest {
            usage_page: HID_USAGE_PAGE_GENERIC,
            usage: HID_USAGE_GENERIC_JOYSTICK,
            suppress_legacy: false,
        },
    );
    r.push(
        DeviceClassRequest {
            usage_page: HID_USAGE_PAGE_GENERIC,
            usage: HID_USAGE_GENERIC_GAMEPAD,
            suppress_legacy: false,
        },
    );
    r.push(
        DeviceClassRequest {
            usage_page: HID_USAGE_PAGE_GENERIC,
            usage: HID_USAGE_GENERIC_KEYBOARD,
            suppress_legacy: true,
        },
    );
    r.push(
        DeviceClassRequest {
            usage_page: HID_USAGE_PAGE_GENERIC,
            usage: HID_USAGE_GENERIC_MOUSE,
            suppress_legacy: false,
        },
    );
    r
}

/// LAW: a refused registration is not an error that propagates.  This
/// total function is the whole decision: it always returns, `Degraded`
/// exactly when the system refused, and window and input setup carry on
/// with its result either way.
pub fn registration_status(os_accepted: bool) -> (r: RegistrationStatus)
    ensures
        r is Active <==> os_accepted,
        r is Degraded <==> !os_accepted,
{
    if os_accepted {
        RegistrationStatus::Active
    } else {
        RegistrationStatus::Degraded
    }
}

} // verus!
