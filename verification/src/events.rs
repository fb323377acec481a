//! The platform-independent event model that the decoder emits into the
//! outbound stream, together with the small value types the events carry.

use vstd::prelude::*;

verus! {

/// Whether a button or key changed to pressed or to released.
#[derive(Clone, Copy, PartialEq, Eq, Debug)]
pub enum ElementState {
    Pressed,
    Released,
}

/// Logical mouse buttons that the event shape can distinguish.
///
/// The native flag table has five button positions, but the fourth and the
/// fifth both map to the shared `Other` identifier: a fifth distinct button
/// cannot be told apart downstream without extending the event shape.
#[derive(Clone, Copy, PartialEq, Eq, Debug)]
pub enum MouseButton {
    Left,
    Right,
    Middle,
    Other,
}

/// Snapshot of the modifier keys at the moment an event was generated.
#[derive(Clone, Copy, PartialEq, Eq, Debug)]
pub struct ModifiersState {
    pub shift: bool,
    pub ctrl: bool,
    pub alt: bool,
    pub logo: bool,
}

impl ModifiersState {
    /// A snapshot with no modifier key held.
    pub fn none_held() -> (r: ModifiersState)
        ensures
            !r.shift && !r.ctrl && !r.alt && !r.logo,
    {
        ModifiersState { shift: false, ctrl: false, alt: false, logo: false }
    }
}

/// One key transition, as carried by a keyboard event.
///
/// `scancode` is the platform scancode; `virtual_keycode` is the optional
/// symbolic identifier produced by the external scancode translation, in the
/// platform virtual-key numbering.
#[derive(Clone, Copy, PartialEq, Eq, Debug)]
pub struct KeyInput {
    pub state: ElementState,
    pub scancode: u32,
    pub virtual_keycode: Option<u32>,
    pub modifiers: ModifiersState,
}

/// An emitted input event.  Ownership passes to the outbound stream as soon
/// as the event is created; the decoder never retains a copy.
///
/// `window_id` names the native window the message was delivered to, and
/// `device_id` the raw-input device handle the message came from.
#[derive(Clone, Copy, PartialEq, Eq, Debug)]
pub enum Event {
    /// A mouse button press or release transition.
    MouseInput {
        window_id: u64,
        device_id: u64,
        state: ElementState,
        button: MouseButton,
        modifiers: ModifiersState,
    },
    /// The per-message motion update carried in the raw delta fields.
    MouseMotion { window_id: u64, device_id: u64, delta_x: i32, delta_y: i32 },
    /// A per-message wheel delta (signed, not accumulated across messages).
    MouseWheel { window_id: u64, device_id: u64, delta: i32 },
    /// A key press or release.
    KeyboardInput { window_id: u64, device_id: u64, input: KeyInput },
    /// A character handed to text-input consumers.
    ReceivedCharacter { window_id: u64, ch: char },
}

} // verus!
