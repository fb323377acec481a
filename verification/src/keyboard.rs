//! Keyboard message normalization: each raw keyboard message carries one
//! virtual key and a break flag, and becomes at most two emitted events.

use vstd::prelude::*;
use crate::events::{ElementState, Event, KeyInput, ModifiersState};

verus! {

/// Platform virtual-key code of the F4 key.
pub const VK_F4: u32 = 0x73;

/// Platform virtual-key code of the Delete key; also its symbolic keycode,
/// since the symbolic identifiers use the virtual-key numbering.
pub const VK_DELETE: u32 = 0x2E;

/// The ASCII DEL control character, synthesized for Delete key presses.
pub const DELETE_CHAR: char = '\u{7f}';

/// The decoded fields of one raw keyboard message, after the external
/// scancode translation has produced the platform-independent pair
/// `(scancode, virtual_keycode)`.
#[derive(Clone, Copy, PartialEq, Eq, Debug)]
pub struct KeyboardData {
    /// The native virtual key the message carries.
    pub vkey: u32,
    /// Break flag: set on a key release, clear on a key press.
    pub break_flag: bool,
    /// Whether the surrounding window message was a system-key-down
    /// notification (the menu-key chord path).
    pub sys_key_down: bool,
    /// Translated platform scancode.
    pub scancode: u32,
    /// Translated symbolic keycode, when the translation knows one.
    pub virtual_keycode: Option<u32>,
}

/// A press of the system menu chord with the platform F4 key: the one
/// keyboard message that is not converted to an event but handed back to
/// default window processing, so the standard close behaviour fires.
pub open spec fn is_close_key_chord(d: KeyboardData) -> bool {
    !d.break_flag && d.sys_key_down && d.vkey == VK_F4
}

/// The keyboard event a message emits for the given transition.
pub open spec fn key_event(
    window_id: u64,
    device_id: u64,
    d: KeyboardData,
    state: ElementState,
    mods: ModifiersState,
) -> Event {
    Event::KeyboardInput {
        window_id,
        device_id,
        input: KeyInput {
            state,
            scancode: d.scancode,
            virtual_keycode: d.virtual_keycode,
            modifiers: mods,
        },
    }
}

/// Every event one raw keyboard message emits, in emission order.
///
/// Break flag set: exactly one release.  The close-key chord: nothing (it
/// passes through to default processing).  Any other press: one press
/// event, followed for the Delete key by a synthesized DEL character,
/// which the platform does not produce on its own but text-input consumers
/// expect.
pub open spec fn keyboard_events(
    window_id: u64,
    device_id: u64,
    d: KeyboardData,
    mods: ModifiersState,
) -> Seq<Event> {
    if d.break_flag {
        seq![key_event(window_id, device_id, d, ElementState::Released, mods)]
    } else if is_close_key_chord(d) {
        Seq::empty()
    } else if d.virtual_keycode == Some(VK_DELETE) {
        seq![
            key_event(window_id, device_id, d, ElementState::Pressed, mods),
            Event::ReceivedCharacter { window_id, ch: DELETE_CHAR },
        ]
    } else {
        seq![key_event(window_id, device_id, d, ElementState::Pressed, mods)]
    }
}

/// Whether the message must be handed back to default window processing
/// instead of being decoded.
pub fn keyboard_pass_to_default(d: &KeyboardData) -> (r: bool)
    ensures
        r == is_close_key_chord(*d),
{
    !d.break_flag && d.sys_key_down && d.vkey == VK_F4
}

/// Build the full event list one raw keyboard message emits.
pub fn keyboard_message_events(
    window_id: u64,
    device_id: u64,
    d: &KeyboardData,
    mods: ModifiersState,
) -> (r: Vec<Event>)
    ensures
        r@ == keyboard_events(window_id, device_id, *d, mods),
{
    let mut out: Vec<Event> = Vec::new();
    if d.break_flag {
        out.push(
            Event::KeyboardInput {
                window_id,
                device_id,
                input: KeyInput {
                    state: ElementState::Released,
                    scancode: d.scancode,
                    virtual_keycode: d.virtual_keycode,
                    modifiers: mods,
                },
            },
        );
    } else if keyboard_pass_to_default(d) {
        // Nothing: the chord goes back to default processing.
    } else {
        out.push(
            Event::KeyboardInput {
                window_id,
                device_id,
                input: KeyInput {
                    state: ElementState::Pressed,
                    scancode: d.scancode,
                    virtual_keycode: d.virtual_keycode,
                    modifiers: mods,
                },
            },
        );
        let is_delete = match d.virtual_keycode {
            Some(code) => code == VK_DELETE,
            None => false,
        };
        if is_delete {
            out.push(Event::ReceivedCharacter { window_id, ch: DELETE_CHAR });
        }
    }
    proof {
        assert(out@ =~= keyboard_events(window_id, device_id, *d, mods));
    }
    out
}

/// LAW: a message with the break flag set emits exactly one release event.
pub proof fn lemma_break_emits_one_release(
    window_id: u64,
    device_id: u64,
    d: KeyboardData,
    mods: ModifiersState,
)
    requires
        d.break_flag,
    ensures
        keyboard_events(window_id, device_id, d, mods) =~= seq![
            key_event(window_id, device_id, d, ElementState::Released, mods),
        ],
{
}

/// LAW: a press of the Delete key emits exactly two events, in order: the
/// key press, then the synthesized DEL character.
pub proof fn lemma_delete_press_emits_char(
    window_id: u64,
    device_id: u64,
    d: KeyboardData,
    mods: ModifiersState,
)
    requires
        !d.break_flag,
        d.vkey == VK_DELETE,
        d.virtual_keycode == Some(VK_DELETE),
    ensures
        keyboard_events(window_id, device_id, d, mods) =~= seq![
            key_event(window_id, device_id, d, ElementState::Pressed, mods),
            Event::ReceivedCharacter { window_id, ch: DELETE_CHAR },
        ],
{
    assert(!is_close_key_chord(d));
}

/// LAW: a system-key-down message carrying the platform F4 key emits no
/// event at all; it is the explicit pass-through to default processing.
pub proof fn lemma_close_chord_emits_nothing(
    window_id: u64,
    device_id: u64,
    d: KeyboardData,
    mods: ModifiersState,
)
    requires
        !d.break_flag,
        d.sys_key_down,
        d.vkey == VK_F4,
    ensures
        is_close_key_chord(d),
        keyboard_events(window_id, device_id, d, mods) =~= Seq::<Event>::empty(),
{
}

} // verus!
