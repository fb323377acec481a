//! The raw message decoder: classifies one already-fetched raw-input
//! message by device type, dispatches it to the HID interpreter or the
//! mouse/keyboard normalizer, and reports whether the message was handled
//! or must go back to default window processing.

use vstd::prelude::*;
use crate::events::{Event, ModifiersState};
use crate::keyboard::{KeyboardData, is_close_key_chord, keyboard_events, keyboard_message_events,
    keyboard_pass_to_default};
use crate::manager::{InputManager, hid_table_updated, mouse_table_updated};
use crate::mouse::{CursorLock, MouseData, mouse_events, mouse_message_events};

verus! {

/// One decoded raw-input message: the handle of the device it came from
/// and the payload by device type.
///
/// For a HID message the payload carries what the usage-value extraction
/// already produced from the raw report: the active button usages on the
/// consulted usage page, and one raw scalar per declared axis, in
/// declaration order.
pub enum RawPayload {
    Hid { active_usages: Vec<u16>, axis_values: Vec<u32> },
    Mouse { data: MouseData },
    Keyboard { data: KeyboardData },
}

/// See `RawPayload`.
pub struct RawMessage {
    /// Raw-input handle of the device the message came from.
    pub device: u64,
    pub payload: RawPayload,
}

/// What decoding one message produced.
pub struct DecodeOutcome {
    /// Whether the message loop should treat the message as fully
    /// processed.
    pub handled: bool,
    /// Whether the message must be handed back to default window
    /// processing instead (the close-key chord).
    pub pass_to_default: bool,
    /// The emitted events, in delivery order.
    pub events: Vec<Event>,
    /// When pointer lock is active and a mouse message arrived: the client
    /// coordinates to move the cursor back to (the client-area center).
    pub recenter: Option<(u32, u32)>,
}

/// The decoder together with its input target.  `manager` absent is the
/// valid "no active input target" state: the window exists, but the
/// one-time handoff of the input manager has not happened yet, and every
/// message is left unhandled without touching any buffer.
pub struct InputHost {
    /// Identifier of the native window whose messages are decoded; stamped
    /// into every emitted event.
    pub window: u64,
    /// The input target, once handed over.
    pub manager: Option<InputManager>,
}

/// Sign-extended low word of a message parameter: the x coordinate of a
/// cursor-move notification.
pub open spec fn spec_param_x(lparam: u64) -> i32 {
    (lparam as u16) as i16 as i32
}

/// Sign-extended second word of a message parameter: the y coordinate of a
/// cursor-move notification.
pub open spec fn spec_param_y(lparam: u64) -> i32 {
    ((lparam >> 16) as u16) as i16 as i32
}

/// Whether the message goes back to default window processing: only a
/// close-key chord from a registered keyboard does.
pub open spec fn spec_pass_to_default(m: InputManager, msg: RawMessage) -> bool {
    &&& msg.payload matches RawPayload::Keyboard { data }
    &&& m.has_keyboard(msg.device)
    &&& is_close_key_chord(data)
}

/// Every event one message emits, in delivery order.  A device with no
/// entry in the manager's tables emits nothing: its messages are dropped,
/// so that every emitted event names a registered device.
pub open spec fn spec_decoded_events(
    m: InputManager,
    window: u64,
    msg: RawMessage,
    mods: ModifiersState,
) -> Seq<Event> {
    match msg.payload {
        RawPayload::Hid { .. } => Seq::empty(),
        RawPayload::Mouse { data } => if m.has_mouse(msg.device) {
            mouse_events(window, msg.device, data, mods)
        } else {
            Seq::empty()
        },
        RawPayload::Keyboard { data } => if m.has_keyboard(msg.device) {
            keyboard_events(window, msg.device, data, mods)
        } else {
            Seq::empty()
        },
    }
}

/// How one message changes the manager: a HID report updates exactly its
/// controller entry, a mouse message exactly its mouse state, a keyboard
/// message changes nothing.
pub open spec fn spec_manager_updated(
    pre: InputManager,
    post: InputManager,
    msg: RawMessage,
) -> bool {
    match msg.payload {
        RawPayload::Hid { active_usages, axis_values } => hid_table_updated(
            pre,
            post,
            msg.device,
            active_usages@,
            axis_values@,
        ),
        RawPayload::Mouse { data } => mouse_table_updated(pre, post, msg.device, data),
        RawPayload::Keyboard { .. } => post == pre,
    }
}

/// A HID payload fits the capability entry of its device: the extraction
/// produced exactly one value per declared axis.
pub open spec fn hid_axis_counts_match(host: InputHost, msg: RawMessage) -> bool {
    host.manager matches Some(m) ==> (msg.payload matches RawPayload::Hid {
        active_usages,
        axis_values,
    } ==> (m.has_hid(msg.device) ==> axis_values@.len() == m.hid@[m.hid_at(
        msg.device,
    )].axis_caps@.len()))
}

/// LAW: a capability miss is silent.  A HID message whose device has no
/// capability entry emits nothing and leaves every table unchanged; it is
/// dropped, never escalated.
pub proof fn lemma_capability_miss_is_silent(
    m: InputManager,
    m2: InputManager,
    window: u64,
    msg: RawMessage,
    mods: ModifiersState,
)
    requires
        msg.payload matches RawPayload::Hid { .. },
        !m.has_hid(msg.device),
        spec_manager_updated(m, m2, msg),
    ensures
        spec_decoded_events(m, window, msg, mods) =~= Seq::<Event>::empty(),
        m2.hid@ == m.hid@,
        m2.mice@ == m.mice@,
        m2.keyboards@ == m.keyboards@,
{
}

impl InputHost {
    /// Well-formed: the input manager, once present, is well-formed.
    pub open spec fn wf(self) -> bool {
        self.manager matches Some(m) ==> m.wf()
    }

    /// A decoder for `window` with no input target yet.
    pub fn new(window: u64) -> (r: InputHost)
        ensures
            r.wf(),
            r.window == window,
            r.manager is None,
    {
        InputHost { window, manager: None }
    }

    /// The one-time, externally synchronized handoff of the input target.
    pub fn attach_manager(&mut self, m: InputManager)
        requires
            m.wf(),
        ensures
            final(self).wf(),
            final(self).window == old(self).window,
            final(self).manager == Some(m),
    {
        self.manager = Some(m);
    }

    /// Whether an input target is bound.
    pub fn has_target(&self) -> (r: bool)
        ensures
            r == (self.manager is Some),
    {
        match &self.manager {
            Some(_) => true,
            None => false,
        }
    }

    /// Decode one raw-input message.
    ///
    /// With no input target the decoder is a no-op returning "not
    /// handled".  Otherwise the message is dispatched by device type and
    /// the decoder reports "handled", except for the close-key chord,
    /// which emits nothing and goes back to default processing.  Failures
    /// never escalate: a device without a table entry (a capability miss)
    /// drops the message with zero events and no state change.
    pub fn on_raw_input(
        &mut self,
        msg: &RawMessage,
        lock: &CursorLock,
        mods: ModifiersState,
    ) -> (out: DecodeOutcome)
        requires
            old(self).wf(),
            hid_axis_counts_match(*old(self), *msg),
        ensures
            final(self).wf(),
            final(self).window == old(self).window,
            old(self).manager is None ==> *final(self) == *old(self) && !out.handled
                && !out.pass_to_default && out.events@.len() == 0 && out.recenter is None,
            old(self).manager matches Some(m) ==> final(self).manager matches Some(m2)
                && spec_manager_updated(m, m2, *msg) && out.events@ == spec_decoded_events(
                m,
                old(self).window,
                *msg,
                mods,
            ) && out.pass_to_default == spec_pass_to_default(m, *msg) && out.handled
                == !out.pass_to_default,
            out.recenter is Some <==> (old(self).manager is Some && msg.payload is Mouse
                && lock.active),
            out.recenter matches Some(p) ==> p.0 == lock.client_width / 2 && p.1
                == lock.client_height / 2,
    {
        let window = self.window;
        match &mut self.manager {
            None => DecodeOutcome {
                handled: false,
                pass_to_default: false,
                events: Vec::new(),
                recenter: None,
            },
            Some(m) => {
                match &msg.payload {
                    RawPayload::Hid { active_usages, axis_values } => {
                        m.apply_hid_report(msg.device, active_usages, axis_values);
                        DecodeOutcome {
                            handled: true,
                            pass_to_default: false,
                            events: Vec::new(),
                            recenter: None,
                        }
                    },
                    RawPayload::Mouse { data } => {
                        let recenter: Option<(u32, u32)> = if lock.active {
                            Some((lock.client_width / 2, lock.client_height / 2))
                        } else {
                            None
                        };
                        let registered = m.apply_mouse_message(msg.device, data);
                        let events: Vec<Event> = if registered {
                            mouse_message_events(window, msg.device, data, mods)
                        } else {
                            Vec::new()
                        };
                        DecodeOutcome { handled: true, pass_to_default: false, events, recenter }
                    },
                    RawPayload::Keyboard { data } => {
                        if m.find_keyboard(msg.device) {
                            if keyboard_pass_to_default(data) {
                                DecodeOutcome {
                                    handled: false,
                                    pass_to_default: true,
                                    events: Vec::new(),
                                    recenter: None,
                                }
                            } else {
                                let events = keyboard_message_events(window, msg.device, data, mods);
                                DecodeOutcome {
                                    handled: true,
                                    pass_to_default: false,
                                    events,
                                    recenter: None,
                                }
                            }
                        } else {
                            DecodeOutcome {
                                handled: true,
                                pass_to_default: false,
                                events: Vec::new(),
                                recenter: None,
                            }
                        }
                    },
                }
            },
        }
    }

    /// Record a cursor-move notification: the GUI mouse position moves to
    /// the sign-extended coordinate pair packed into the message
    /// parameter.  Without an input target nothing happens.
    pub fn on_gui_update(&mut self, lparam: u64)
        requires
            old(self).wf(),
        ensures
            final(self).wf(),
            final(self).window == old(self).window,
            old(self).manager is None ==> *final(self) == *old(self),
            old(self).manager matches Some(m) ==> final(self).manager matches Some(m2)
                && m2.gui_mouse_x == spec_param_x(lparam) && m2.gui_mouse_y == spec_param_y(lparam)
                && m2.hid@ == m.hid@ && m2.mice@ == m.mice@ && m2.keyboards@ == m.keyboards@,
    {
        let x_word: u16 = #[verifier::truncate] (lparam as u16);
        let y_word: u16 = #[verifier::truncate] ((lparam >> 16) as u16);
        let x: i32 = x_word as i16 as i32;
        let y: i32 = y_word as i16 as i32;
        match &mut self.manager {
            None => (),
            Some(m) => {
                m.set_gui_mouse_pos(x, y);
            },
        }
    }
}

} // verus!
