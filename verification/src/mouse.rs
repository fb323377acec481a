//! Mouse message normalization: per-device mouse state and the rule that
//! turns one raw mouse message into motion, wheel and button events.

use vstd::prelude::*;
use crate::events::{ElementState, Event, ModifiersState, MouseButton};

verus! {

/// Flag bit: button 1 went down.
pub const RI_MOUSE_BUTTON_1_DOWN: u16 = 0x0001;

/// Flag bit: button 1 went up.
pub const RI_MOUSE_BUTTON_1_UP: u16 = 0x0002;

/// Flag bit: button 2 went down.
pub const RI_MOUSE_BUTTON_2_DOWN: u16 = 0x0004;

/// Flag bit: button 2 went up.
pub const RI_MOUSE_BUTTON_2_UP: u16 = 0x0008;

/// Flag bit: button 3 went down.
pub const RI_MOUSE_BUTTON_3_DOWN: u16 = 0x0010;

/// Flag bit: button 3 went up.
pub const RI_MOUSE_BUTTON_3_UP: u16 = 0x0020;

/// Flag bit: button 4 went down.
pub const RI_MOUSE_BUTTON_4_DOWN: u16 = 0x0040;

/// Flag bit: button 4 went up.
pub const RI_MOUSE_BUTTON_4_UP: u16 = 0x0080;

/// Flag bit: the wheel moved; the wheel delta is in the button-data field.
pub const RI_MOUSE_WHEEL: u16 = 0x0400;

/// How many logical buttons a mouse message is checked for.
pub const TRACKED_MOUSE_BUTTONS: usize = 4;

/// The decoded fields of one raw mouse message.
#[derive(Clone, Copy, PartialEq, Eq, Debug)]
pub struct MouseData {
    /// Raw horizontal delta field of the message.
    pub last_x: i32,
    /// Raw vertical delta field of the message.
    pub last_y: i32,
    /// Button and wheel transition flags of the message.
    pub button_flags: u16,
    /// Extra button data; holds the signed wheel delta when the wheel flag
    /// is set.
    pub button_data: u16,
}

/// Mutable state kept for one mouse device: the position taken from the
/// last message, a bitset of the tracked buttons, and the wheel delta of
/// the last wheel message (per message, not cumulative).
#[derive(Debug)]
pub struct MouseDeviceState {
    /// Raw-input device handle this state belongs to.
    pub handle: u64,
    /// Horizontal position field of the last message.
    pub x: i32,
    /// Vertical position field of the last message.
    pub y: i32,
    /// One slot per tracked logical button.
    pub buttons: Vec<bool>,
    /// Signed wheel delta of the last wheel message.
    pub wheel_delta: i32,
}

/// Pointer-lock settings in force while a message is decoded: when `active`
/// the host recenters the cursor to the middle of the client area after
/// every mouse message, so raw deltas can drive camera-style control
/// without the cursor running away.
#[derive(Clone, Copy, PartialEq, Eq, Debug)]
pub struct CursorLock {
    pub active: bool,
    pub client_width: u32,
    pub client_height: u32,
}

/// What one message says about one tracked button.
#[derive(Clone, Copy, PartialEq, Eq, Debug)]
pub enum ButtonChange {
    Press,
    Release,
    Unchanged,
}

/// The down flag bit of tracked button `b`.
pub open spec fn spec_down_flag(b: int) -> u16 {
    if b == 0 {
        RI_MOUSE_BUTTON_1_DOWN
    } else if b == 1 {
        RI_MOUSE_BUTTON_2_DOWN
    } else if b == 2 {
        RI_MOUSE_BUTTON_3_DOWN
    } else {
        RI_MOUSE_BUTTON_4_DOWN
    }
}

/// The up flag bit of tracked button `b`.
pub open spec fn spec_up_flag(b: int) -> u16 {
    if b == 0 {
        RI_MOUSE_BUTTON_1_UP
    } else if b == 1 {
        RI_MOUSE_BUTTON_2_UP
    } else if b == 2 {
        RI_MOUSE_BUTTON_3_UP
    } else {
        RI_MOUSE_BUTTON_4_UP
    }
}

/// The logical identifier of tracked button `b`.  Button position 3 carries
/// the shared `Other` identifier, as does the untracked fifth position.
pub open spec fn spec_logical_button(b: int) -> MouseButton {
    if b == 0 {
        MouseButton::Left
    } else if b == 1 {
        MouseButton::Right
    } else if b == 2 {
        MouseButton::Middle
    } else {
        MouseButton::Other
    }
}

/// The transition one message implies for tracked button `b`.  The down
/// flag takes precedence if a message carries both the down and the up bit
/// of the same button; with neither bit set the button keeps its state.
pub open spec fn spec_button_change(flags: u16, b: int) -> ButtonChange {
    if flags & spec_down_flag(b) != 0 {
        ButtonChange::Press
    } else if flags & spec_up_flag(b) != 0 {
        ButtonChange::Release
    } else {
        ButtonChange::Unchanged
    }
}

/// The signed wheel delta carried in the button-data field.
pub open spec fn spec_wheel_delta(button_data: u16) -> i32 {
    button_data as i16 as i32
}

/// The motion event a message emits.
pub open spec fn motion_event(window_id: u64, device_id: u64, d: MouseData) -> Event {
    Event::MouseMotion { window_id, device_id, delta_x: d.last_x, delta_y: d.last_y }
}

/// The wheel event a wheel-flagged message emits.
pub open spec fn wheel_event(window_id: u64, device_id: u64, d: MouseData) -> Event {
    Event::MouseWheel { window_id, device_id, delta: spec_wheel_delta(d.button_data) }
}

/// The events tracked button `b` contributes: exactly one press or one
/// release on a transition, nothing otherwise.
pub open spec fn button_change_events(
    window_id: u64,
    device_id: u64,
    flags: u16,
    mods: ModifiersState,
    b: int,
) -> Seq<Event> {
    match spec_button_change(flags, b) {
        ButtonChange::Press => seq![
            Event::MouseInput {
                window_id,
                device_id,
                state: ElementState::Pressed,
                button: spec_logical_button(b),
                modifiers: mods,
            },
        ],
        ButtonChange::Release => seq![
            Event::MouseInput {
                window_id,
                device_id,
                state: ElementState::Released,
                button: spec_logical_button(b),
                modifiers: mods,
            },
        ],
        ButtonChange::Unchanged => Seq::empty(),
    }
}

/// The button events of the first `b` tracked buttons, in button order.
pub open spec fn button_events_upto(
    window_id: u64,
    device_id: u64,
    flags: u16,
    mods: ModifiersState,
    b: int,
) -> Seq<Event>
    decreases b,
{
    if b <= 0 {
        Seq::empty()
    } else {
        button_events_upto(window_id, device_id, flags, mods, b - 1) + button_change_events(
            window_id,
            device_id,
            flags,
            mods,
            b - 1,
        )
    }
}

/// Every event one raw mouse message emits, in emission order: the motion
/// update, then the wheel delta if the wheel flag is set, then one event
/// per tracked button transition.
pub open spec fn mouse_events(
    window_id: u64,
    device_id: u64,
    d: MouseData,
    mods: ModifiersState,
) -> Seq<Event> {
    seq![motion_event(window_id, device_id, d)] + (if d.button_flags & RI_MOUSE_WHEEL != 0 {
        seq![wheel_event(window_id, device_id, d)]
    } else {
        Seq::empty()
    }) + button_events_upto(window_id, device_id, d.button_flags, mods, TRACKED_MOUSE_BUTTONS as int)
}

/// The tracked-button bitset a message leaves behind: set on a press,
/// cleared on a release, kept where the message names no transition.
pub open spec fn mouse_buttons_after(prior: Seq<bool>, flags: u16) -> Seq<bool> {
    Seq::new(
        prior.len(),
        |i: int|
            match spec_button_change(flags, i) {
                ButtonChange::Press => true,
                ButtonChange::Release => false,
                ButtonChange::Unchanged => prior[i],
            },
    )
}

/// Relation between a mouse's state before and after one message.
pub open spec fn mouse_after_message(
    pre: MouseDeviceState,
    post: MouseDeviceState,
    d: MouseData,
) -> bool {
    &&& post.handle == pre.handle
    &&& post.x == d.last_x
    &&& post.y == d.last_y
    &&& post.wheel_delta == (if d.button_flags & RI_MOUSE_WHEEL != 0 {
        spec_wheel_delta(d.button_data)
    } else {
        pre.wheel_delta
    })
    &&& post.buttons@ == mouse_buttons_after(pre.buttons@, d.button_flags)
}

impl MouseDeviceState {
    /// Well-formed: one slot per tracked button.
    pub open spec fn wf(self) -> bool {
        self.buttons@.len() == TRACKED_MOUSE_BUTTONS
    }

    /// Fresh state for a newly registered mouse: origin position, no button
    /// held, no wheel delta.
    pub fn new(handle: u64) -> (r: MouseDeviceState)
        ensures
            r.wf(),
            r.handle == handle,
            r.x == 0 && r.y == 0,
            r.wheel_delta == 0,
            forall|i: int| 0 <= i < r.buttons@.len() ==> !r.buttons@[i],
    {
        let mut buttons: Vec<bool> = Vec::new();
        buttons.push(false);
        buttons.push(false);
        buttons.push(false);
        buttons.push(false);
        MouseDeviceState { handle, x: 0, y: 0, buttons, wheel_delta: 0 }
    }

    /// Record one message in the device state: position from the raw delta
    /// fields, the wheel delta when the wheel flag is set, and the button
    /// bitset per transition.
    pub fn apply_message(&mut self, d: &MouseData)
        requires
            old(self).wf(),
        ensures
            final(self).wf(),
            mouse_after_message(*old(self), *final(self), *d),
    {
        self.x = d.last_x;
        self.y = d.last_y;
        if d.button_flags & RI_MOUSE_WHEEL != 0 {
            self.wheel_delta = wheel_delta_value(d.button_data);
        }
        let mut b: usize = 0;
        while b < TRACKED_MOUSE_BUTTONS
            invariant
                b <= TRACKED_MOUSE_BUTTONS,
                old(self).buttons@.len() == TRACKED_MOUSE_BUTTONS,
                self.buttons@.len() == TRACKED_MOUSE_BUTTONS,
                forall|j: int|
                    0 <= j < b ==> self.buttons@[j] == mouse_buttons_after(
                        old(self).buttons@,
                        d.button_flags,
                    )[j],
                forall|j: int| b <= j < TRACKED_MOUSE_BUTTONS ==> self.buttons@[j] == old(self).buttons@[j],
                self.handle == old(self).handle,
                self.x == d.last_x,
                self.y == d.last_y,
                self.wheel_delta == (if d.button_flags & RI_MOUSE_WHEEL != 0 {
                    spec_wheel_delta(d.button_data)
                } else {
                    old(self).wheel_delta
                }),
            decreases TRACKED_MOUSE_BUTTONS - b,
        {
            match button_change(d.button_flags, b) {
                ButtonChange::Press => self.buttons.set(b, true),
                ButtonChange::Release => self.buttons.set(b, false),
                ButtonChange::Unchanged => (),
            }
            b = b + 1;
        }
        proof {
            assert(self.buttons@ =~= mouse_buttons_after(old(self).buttons@, d.button_flags));
        }
    }
}

/// The signed wheel delta carried in the button-data field.
pub fn wheel_delta_value(button_data: u16) -> (r: i32)
    ensures
        r == spec_wheel_delta(button_data),
{
    button_data as i16 as i32
}

/// The transition one message implies for tracked button `b`; the down flag
/// takes precedence if both bits of the button are set.
pub fn button_change(flags: u16, b: usize) -> (r: ButtonChange)
    requires
        b < TRACKED_MOUSE_BUTTONS,
    ensures
        r == spec_button_change(flags, b as int),
{
    let down_flag: u16 = if b == 0 {
        RI_MOUSE_BUTTON_1_DOWN
    } else if b == 1 {
        RI_MOUSE_BUTTON_2_DOWN
    } else if b == 2 {
        RI_MOUSE_BUTTON_3_DOWN
    } else {
        RI_MOUSE_BUTTON_4_DOWN
    };
    let up_flag: u16 = if b == 0 {
        RI_MOUSE_BUTTON_1_UP
    } else if b == 1 {
        RI_MOUSE_BUTTON_2_UP
    } else if b == 2 {
        RI_MOUSE_BUTTON_3_UP
    } else {
        RI_MOUSE_BUTTON_4_UP
    };
    if flags & down_flag != 0 {
        ButtonChange::Press
    } else if flags & up_flag != 0 {
        ButtonChange::Release
    } else {
        ButtonChange::Unchanged
    }
}

/// The logical identifier of tracked button `b`.
pub fn logical_button(b: usize) -> (r: MouseButton)
    requires
        b < TRACKED_MOUSE_BUTTONS,
    ensures
        r == spec_logical_button(b as int),
{
    if b == 0 {
        MouseButton::Left
    } else if b == 1 {
        MouseButton::Right
    } else if b == 2 {
        MouseButton::Middle
    } else {
        MouseButton::Other
    }
}

/// Build the full event list one raw mouse message emits.
pub fn mouse_message_events(
    window_id: u64,
    device_id: u64,
    d: &MouseData,
    mods: ModifiersState,
) -> (r: Vec<Event>)
    ensures
        r@ == mouse_events(window_id, device_id, *d, mods),
{
    let mut out: Vec<Event> = Vec::new();
    out.push(
        Event::MouseMotion { window_id, device_id, delta_x: d.last_x, delta_y: d.last_y },
    );
    if d.button_flags & RI_MOUSE_WHEEL != 0 {
        out.push(
            Event::MouseWheel { window_id, device_id, delta: wheel_delta_value(d.button_data) },
        );
    }
    proof {
        assert(out@ =~= seq![motion_event(window_id, device_id, *d)] + (
        if d.button_flags & RI_MOUSE_WHEEL != 0 {
            seq![wheel_event(window_id, device_id, *d)]
        } else {
            Seq::empty()
        }));
        assert(button_events_upto(window_id, device_id, d.button_flags, mods, 0)
            =~= Seq::<Event>::empty());
    }
    let ghost head: Seq<Event> = out@;
    let mut b: usize = 0;
    while b < TRACKED_MOUSE_BUTTONS
        invariant
            b <= TRACKED_MOUSE_BUTTONS,
            out@ =~= head + button_events_upto(window_id, device_id, d.button_flags, mods, b as int),
        decreases TRACKED_MOUSE_BUTTONS - b,
    {
        match button_change(d.button_flags, b) {
            ButtonChange::Press => {
                out.push(
                    Event::MouseInput {
                        window_id,
                        device_id,
                        state: ElementState::Pressed,
                        button: logical_button(b),
                        modifiers: mods,
                    },
                );
            },
            ButtonChange::Release => {
                out.push(
                    Event::MouseInput {
                        window_id,
                        device_id,
                        state: ElementState::Released,
                        button: logical_button(b),
                        modifiers: mods,
                    },
                );
            },
            ButtonChange::Unchanged => (),
        }
        proof {
            assert(button_events_upto(window_id, device_id, d.button_flags, mods, b as int + 1)
                =~= button_events_upto(window_id, device_id, d.button_flags, mods, b as int)
                + button_change_events(window_id, device_id, d.button_flags, mods, b as int));
            assert(out@ =~= head + button_events_upto(
                window_id,
                device_id,
                d.button_flags,
                mods,
                b as int + 1,
            ));
        }
        b = b + 1;
    }
    proof {
        assert(out@ =~= mouse_events(window_id, device_id, *d, mods));
    }
    out
}

/// LAW: a message whose only flag bit is button-1-down emits exactly two
/// events: the motion update, then one press of the left logical button.
pub proof fn lemma_button1_down_only(
    window_id: u64,
    device_id: u64,
    d: MouseData,
    mods: ModifiersState,
)
    requires
        d.button_flags == RI_MOUSE_BUTTON_1_DOWN,
    ensures
        mouse_events(window_id, device_id, d, mods) =~= seq![
            motion_event(window_id, device_id, d),
            Event::MouseInput {
                window_id,
                device_id,
                state: ElementState::Pressed,
                button: MouseButton::Left,
                modifiers: mods,
            },
        ],
{
    assert(0x0001u16 & 0x0400u16 == 0) by (bit_vector);
    assert(0x0001u16 & 0x0001u16 != 0) by (bit_vector);
    assert(0x0001u16 & 0x0004u16 == 0 && 0x0001u16 & 0x0008u16 == 0 && 0x0001u16 & 0x0010u16 == 0
        && 0x0001u16 & 0x0020u16 == 0 && 0x0001u16 & 0x0040u16 == 0 && 0x0001u16 & 0x0080u16
        == 0) by (bit_vector);
    reveal_with_fuel(button_events_upto, 5);
    assert(button_events_upto(window_id, device_id, d.button_flags, mods, 4) =~= seq![
        Event::MouseInput {
            window_id,
            device_id,
            state: ElementState::Pressed,
            button: MouseButton::Left,
            modifiers: mods,
        },
    ]);
}

/// LAW: a message carrying neither the down nor the up bit of a tracked
/// button is a no-op for that button: no transition, no event from that
/// button, and its bit keeps its prior state.
pub proof fn lemma_absent_flags_button_noop(
    window_id: u64,
    device_id: u64,
    flags: u16,
    mods: ModifiersState,
    b: int,
    prior: Seq<bool>,
)
    requires
        0 <= b < prior.len(),
        flags & spec_down_flag(b) == 0,
        flags & spec_up_flag(b) == 0,
    ensures
        spec_button_change(flags, b) is Unchanged,
        button_change_events(window_id, device_id, flags, mods, b) =~= Seq::<Event>::empty(),
        mouse_buttons_after(prior, flags)[b] == prior[b],
{
}

/// LAW: a wheel-flagged message emits a wheel event, directly after the
/// motion update, whose value is the signed button-data field of the
/// message.
pub proof fn lemma_wheel_flag_emits_delta(
    window_id: u64,
    device_id: u64,
    d: MouseData,
    mods: ModifiersState,
)
    requires
        d.button_flags & RI_MOUSE_WHEEL != 0,
    ensures
        mouse_events(window_id, device_id, d, mods)[1] == wheel_event(window_id, device_id, d),
        wheel_event(window_id, device_id, d) == (Event::MouseWheel {
            window_id,
            device_id,
            delta: d.button_data as i16 as i32,
        }),
{
}

} // verus!
