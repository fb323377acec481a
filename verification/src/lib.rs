//! Raw-input decoding core for a Windows windowing backend.
//!
//! The library turns already-fetched raw-input payloads (HID reports, mouse
//! deltas, keyboard scancodes) into a normalized stream of input events and
//! per-device controller state.  Everything here is plain data and verified
//! logic; the operating-system calls that fetch the buffers, extract HID
//! usages and create windows live in the unverified host layer around the
//! library.

pub mod cursor;
pub mod decoder;
pub mod events;
pub mod hid;
pub mod keyboard;
pub mod manager;
pub mod mouse;
pub mod registration;
pub mod window_rules;
