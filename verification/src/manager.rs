//! The input manager: per-device tables keyed by the raw-input device
//! handle, holding HID capability entries with their controller state,
//! mouse state, registered keyboards and the GUI mouse position.

use vstd::prelude::*;
use crate::hid::{AxisCap, HidDeviceState, hid_after_report};
use crate::mouse::{MouseData, MouseDeviceState, mouse_after_message};

verus! {

/// Process-wide input state, written only from the thread that owns the
/// window message loop.  Every table is keyed directly by the device
/// handle the operating system assigned.
pub struct InputManager {
    /// One entry per enumerated HID controller.
    pub hid: Vec<HidDeviceState>,
    /// One entry per registered mouse.
    pub mice: Vec<MouseDeviceState>,
    /// Handles of the registered keyboards.
    pub keyboards: Vec<u64>,
    /// Last GUI cursor position handed over by the cursor-move
    /// notification channel, in client coordinates.
    pub gui_mouse_x: i32,
    /// See `gui_mouse_x`.
    pub gui_mouse_y: i32,
}

impl InputManager {
    /// Well-formed: handles are unique within each table and every entry
    /// is itself well-formed.
    pub open spec fn wf(self) -> bool {
        &&& forall|i: int, j: int|
            0 <= i < j < self.hid@.len() ==> self.hid@[i].handle != self.hid@[j].handle
        &&& forall|i: int| 0 <= i < self.hid@.len() ==> self.hid@[i].wf()
        &&& forall|i: int, j: int|
            0 <= i < j < self.mice@.len() ==> self.mice@[i].handle != self.mice@[j].handle
        &&& forall|i: int| 0 <= i < self.mice@.len() ==> self.mice@[i].wf()
    }

    /// Whether a HID capability entry exists for `handle`.
    pub open spec fn has_hid(self, handle: u64) -> bool {
        exists|i: int| 0 <= i < self.hid@.len() && self.hid@[i].handle == handle
    }

    /// Index of the HID entry for `handle`; meaningful when `has_hid`.
    pub open spec fn hid_at(self, handle: u64) -> int {
        choose|i: int| 0 <= i < self.hid@.len() && self.hid@[i].handle == handle
    }

    /// Whether a mouse state exists for `handle`.
    pub open spec fn has_mouse(self, handle: u64) -> bool {
        exists|i: int| 0 <= i < self.mice@.len() && self.mice@[i].handle == handle
    }

    /// Index of the mouse state for `handle`; meaningful when `has_mouse`.
    pub open spec fn mouse_at(self, handle: u64) -> int {
        choose|i: int| 0 <= i < self.mice@.len() && self.mice@[i].handle == handle
    }

    /// Whether `handle` is a registered keyboard.
    pub open spec fn has_keyboard(self, handle: u64) -> bool {
        self.keyboards@.contains(handle)
    }

    /// Two HID entries with the same handle are the same entry.
    pub proof fn lemma_hid_index_unique(self, i: int, j: int)
        requires
            self.wf(),
            0 <= i < self.hid@.len(),
            0 <= j < self.hid@.len(),
            self.hid@[i].handle == self.hid@[j].handle,
        ensures
            i == j,
    {
        if i < j {
            assert(self.hid@[i].handle != self.hid@[j].handle);
        } else if j < i {
            assert(self.hid@[j].handle != self.hid@[i].handle);
        }
    }

    /// Two mouse entries with the same handle are the same entry.
    pub proof fn lemma_mouse_index_unique(self, i: int, j: int)
        requires
            self.wf(),
            0 <= i < self.mice@.len(),
            0 <= j < self.mice@.len(),
            self.mice@[i].handle == self.mice@[j].handle,
        ensures
            i == j,
    {
        if i < j {
            assert(self.mice@[i].handle != self.mice@[j].handle);
        } else if j < i {
            assert(self.mice@[j].handle != self.mice@[i].handle);
        }
    }

    /// An empty manager: no device known yet, GUI cursor at the origin.
    pub fn new() -> (r: InputManager)
        ensures
            r.wf(),
            r.hid@.len() == 0,
            r.mice@.len() == 0,
            r.keyboards@.len() == 0,
            r.gui_mouse_x == 0 && r.gui_mouse_y == 0,
    {
        InputManager {
            hid: Vec::new(),
            mice: Vec::new(),
            keyboards: Vec::new(),
            gui_mouse_x: 0,
            gui_mouse_y: 0,
        }
    }

    /// Find the HID entry for `handle`.
    pub fn find_hid(&self, handle: u64) -> (r: Option<usize>)
        requires
            self.wf(),
        ensures
            match r {
                Some(i) => self.has_hid(handle) && i == self.hid_at(handle) && i
                    < self.hid@.len(),
                None => !self.has_hid(handle),
            },
    {
        let n = self.hid.len();
        let mut i: usize = 0;
        while i < n
            invariant
                i <= n,
                n == self.hid@.len(),
                self.wf(),
                forall|j: int| 0 <= j < i ==> self.hid@[j].handle != handle,
            decreases n - i,
        {
            if self.hid[i].handle == handle {
                proof {
                    let w = self.hid_at(handle);
                    self.lemma_hid_index_unique(i as int, w);
                }
                return Some(i);
            }
            i = i + 1;
        }
        None
    }

    /// Find the mouse state for `handle`.
    pub fn find_mouse(&self, handle: u64) -> (r: Option<usize>)
        requires
            self.wf(),
        ensures
            match r {
                Some(i) => self.has_mouse(handle) && i == self.mouse_at(handle) && i
                    < self.mice@.len(),
                None => !self.has_mouse(handle),
            },
    {
        let n = self.mice.len();
        let mut i: usize = 0;
        while i < n
            invariant
                i <= n,
                n == self.mice@.len(),
                self.wf(),
                forall|j: int| 0 <= j < i ==> self.mice@[j].handle != handle,
            decreases n - i,
        {
            if self.mice[i].handle == handle {
                proof {
                    let w = self.mouse_at(handle);
                    self.lemma_mouse_index_unique(i as int, w);
                }
                return Some(i);
            }
            i = i + 1;
        }
        None
    }

    /// Whether `handle` is a registered keyboard.
    pub fn find_keyboard(&self, handle: u64) -> (r: bool)
        ensures
            r == self.has_keyboard(handle),
    {
        let n = self.keyboards.len();
        let mut i: usize = 0;
        while i < n
            invariant
                i <= n,
                n == self.keyboards@.len(),
                forall|j: int| 0 <= j < i ==> self.keyboards@[j] != handle,
            decreases n - i,
        {
            if self.keyboards[i] == handle {
                return true;
            }
            i = i + 1;
        }
        proof {
            assert(!self.keyboards@.contains(handle));
        }
        false
    }

    /// Record the capability entry of a newly enumerated HID device, with
    /// cleared controller state.  Nothing changes and `false` comes back
    /// when the handle is already known.
    pub fn register_hid_device(
        &mut self,
        handle: u64,
        button_usage_page: u16,
        usage_min: u16,
        usage_max: u16,
        axis_caps: Vec<AxisCap>,
    ) -> (r: bool)
        requires
            old(self).wf(),
            usage_min <= usage_max,
        ensures
            final(self).wf(),
            r == !old(self).has_hid(handle),
            final(self).mice@ == old(self).mice@,
            final(self).keyboards@ == old(self).keyboards@,
            final(self).gui_mouse_x == old(self).gui_mouse_x,
            final(self).gui_mouse_y == old(self).gui_mouse_y,
            !r ==> final(self).hid@ == old(self).hid@,
            r ==> final(self).hid@.len() == old(self).hid@.len() + 1 && (forall|j: int|
                0 <= j < old(self).hid@.len() ==> final(self).hid@[j] == old(self).hid@[j]) && {
                let dev = final(self).hid@[old(self).hid@.len() as int];
                &&& dev.wf()
                &&& dev.handle == handle
                &&& dev.button_usage_page == button_usage_page
                &&& dev.usage_min == usage_min
                &&& dev.usage_max == usage_max
                &&& dev.axis_caps@ == axis_caps@
                &&& forall|i: int| 0 <= i < dev.buttons@.len() ==> !dev.buttons@[i]
                &&& forall|i: int| 0 <= i < dev.axes@.len() ==> dev.axes@[i] == 0u32
            },
            final(self).has_hid(handle),
    {
        match self.find_hid(handle) {
            Some(_) => false,
            None => {
                let dev = HidDeviceState::new(
                    handle,
                    button_usage_page,
                    usage_min,
                    usage_max,
                    axis_caps,
                );
                self.hid.push(dev);
                proof {
                    let n = old(self).hid@.len() as int;
                    assert(self.hid@[n].handle == handle);
                    assert forall|i: int, j: int|
                        0 <= i < j < self.hid@.len() implies self.hid@[i].handle
                        != self.hid@[j].handle by {
                        if j < n {
                            assert(old(self).hid@[i].handle != old(self).hid@[j].handle);
                        } else {
                            assert(self.hid@[i] == old(self).hid@[i]);
                            assert(!old(self).has_hid(handle));
                        }
                    }
                }
                true
            },
        }
    }

    /// Register a mouse with fresh state.  Nothing changes and `false`
    /// comes back when the handle is already known.
    pub fn register_mouse(&mut self, handle: u64) -> (r: bool)
        requires
            old(self).wf(),
        ensures
            final(self).wf(),
            r == !old(self).has_mouse(handle),
            final(self).hid@ == old(self).hid@,
            final(self).keyboards@ == old(self).keyboards@,
            final(self).gui_mouse_x == old(self).gui_mouse_x,
            final(self).gui_mouse_y == old(self).gui_mouse_y,
            !r ==> final(self).mice@ == old(self).mice@,
            r ==> final(self).mice@.len() == old(self).mice@.len() + 1 && (forall|j: int|
                0 <= j < old(self).mice@.len() ==> final(self).mice@[j] == old(self).mice@[j]) && {
                let m = final(self).mice@[old(self).mice@.len() as int];
                &&& m.wf()
                &&& m.handle == handle
                &&& m.x == 0 && m.y == 0
                &&& m.wheel_delta == 0
                &&& forall|i: int| 0 <= i < m.buttons@.len() ==> !m.buttons@[i]
            },
            final(self).has_mouse(handle),
    {
        match self.find_mouse(handle) {
            Some(_) => false,
            None => {
                let m = MouseDeviceState::new(handle);
                self.mice.push(m);
                proof {
                    let n = old(self).mice@.len() as int;
                    assert(self.mice@[n].handle == handle);
                    assert forall|i: int, j: int|
                        0 <= i < j < self.mice@.len() implies self.mice@[i].handle
                        != self.mice@[j].handle by {
                        if j < n {
                            assert(old(self).mice@[i].handle != old(self).mice@[j].handle);
                        } else {
                            assert(self.mice@[i] == old(self).mice@[i]);
                            assert(!old(self).has_mouse(handle));
                        }
                    }
                }
                true
            },
        }
    }

    /// Register a keyboard handle.  Nothing changes and `false` comes back
    /// when the handle is already known.
    pub fn register_keyboard(&mut self, handle: u64) -> (r: bool)
        requires
            old(self).wf(),
        ensures
            final(self).wf(),
            r == !old(self).has_keyboard(handle),
            final(self).hid@ == old(self).hid@,
            final(self).mice@ == old(self).mice@,
            final(self).gui_mouse_x == old(self).gui_mouse_x,
            final(self).gui_mouse_y == old(self).gui_mouse_y,
            !r ==> final(self).keyboards@ == old(self).keyboards@,
            r ==> final(self).keyboards@ == old(self).keyboards@.push(handle),
            final(self).has_keyboard(handle),
    {
        if self.find_keyboard(handle) {
            false
        } else {
            self.keyboards.push(handle);
            proof {
                assert(self.keyboards@[old(self).keyboards@.len() as int] == handle);
            }
            true
        }
    }

    /// Record the GUI cursor position handed over by the cursor-move
    /// notification channel.
    pub fn set_gui_mouse_pos(&mut self, x: i32, y: i32)
        ensures
            final(self).gui_mouse_x == x,
            final(self).gui_mouse_y == y,
            final(self).hid@ == old(self).hid@,
            final(self).mice@ == old(self).mice@,
            final(self).keyboards@ == old(self).keyboards@,
    {
        self.gui_mouse_x = x;
        self.gui_mouse_y = y;
    }

    /// Interpret one HID report against the entry for `device`: a full
    /// button replace and an in-order axis overwrite.  A handle with no
    /// capability entry is a cache miss: the report is dropped, nothing
    /// changes, and `false` comes back.
    pub fn apply_hid_report(
        &mut self,
        device: u64,
        active_usages: &Vec<u16>,
        axis_values: &Vec<u32>,
    ) -> (r: bool)
        requires
            old(self).wf(),
            old(self).has_hid(device) ==> axis_values@.len() == old(self).hid@[old(self).hid_at(
                device,
            )].axis_caps@.len(),
        ensures
            final(self).wf(),
            r == old(self).has_hid(device),
            hid_table_updated(*old(self), *final(self), device, active_usages@, axis_values@),
    {
        match self.find_hid(device) {
            Some(i) => {
                let dev = &mut self.hid[i];
                dev.apply_report(active_usages, axis_values);
                proof {
                    assert(self.hid@ =~= old(self).hid@.update(i as int, self.hid@[i as int]));
                    assert forall|a: int, b: int|
                        0 <= a < b < self.hid@.len() implies self.hid@[a].handle
                        != self.hid@[b].handle by {
                        assert(self.hid@[a].handle == old(self).hid@[a].handle);
                        assert(self.hid@[b].handle == old(self).hid@[b].handle);
                    }
                }
                true
            },
            None => false,
        }
    }

    /// Record one mouse message in the state for `device`.  A handle with
    /// no mouse state drops the message: nothing changes, `false` comes
    /// back.
    pub fn apply_mouse_message(&mut self, device: u64, d: &MouseData) -> (r: bool)
        requires
            old(self).wf(),
        ensures
            final(self).wf(),
            r == old(self).has_mouse(device),
            mouse_table_updated(*old(self), *final(self), device, *d),
    {
        match self.find_mouse(device) {
            Some(i) => {
                let m = &mut self.mice[i];
                m.apply_message(d);
                proof {
                    assert(self.mice@ =~= old(self).mice@.update(i as int, self.mice@[i as int]));
                    assert forall|a: int, b: int|
                        0 <= a < b < self.mice@.len() implies self.mice@[a].handle
                        != self.mice@[b].handle by {
                        assert(self.mice@[a].handle == old(self).mice@[a].handle);
                        assert(self.mice@[b].handle == old(self).mice@[b].handle);
                    }
                }
                true
            },
            None => false,
        }
    }
}

/// Relation between manager states for one HID report from `device`: on a
/// capability hit exactly that entry takes the report, on a miss nothing
/// changes; the other tables are untouched either way.
pub open spec fn hid_table_updated(
    pre: InputManager,
    post: InputManager,
    device: u64,
    usages: Seq<u16>,
    values: Seq<u32>,
) -> bool {
    &&& post.mice@ == pre.mice@
    &&& post.keyboards@ == pre.keyboards@
    &&& post.gui_mouse_x == pre.gui_mouse_x
    &&& post.gui_mouse_y == pre.gui_mouse_y
    &&& post.hid@.len() == pre.hid@.len()
    &&& !pre.has_hid(device) ==> post.hid@ == pre.hid@
    &&& pre.has_hid(device) ==> {
        let i = pre.hid_at(device);
        &&& forall|j: int| 0 <= j < pre.hid@.len() && j != i ==> post.hid@[j] == pre.hid@[j]
        &&& hid_after_report(pre.hid@[i], post.hid@[i], usages, values)
    }
}

/// Relation between manager states for one mouse message from `device`: on
/// a hit exactly that mouse state takes the message, on a miss nothing
/// changes; the other tables are untouched either way.
pub open spec fn mouse_table_updated(
    pre: InputManager,
    post: InputManager,
    device: u64,
    d: MouseData,
) -> bool {
    &&& post.hid@ == pre.hid@
    &&& post.keyboards@ == pre.keyboards@
    &&& post.gui_mouse_x == pre.gui_mouse_x
    &&& post.gui_mouse_y == pre.gui_mouse_y
    &&& post.mice@.len() == pre.mice@.len()
    &&& !pre.has_mouse(device) ==> post.mice@ == pre.mice@
    &&& pre.has_mouse(device) ==> {
        let i = pre.mouse_at(device);
        &&& forall|j: int| 0 <= j < pre.mice@.len() && j != i ==> post.mice@[j] == pre.mice@[j]
        &&& mouse_after_message(pre.mice@[i], post.mice@[i], d)
    }
}

} // verus!
