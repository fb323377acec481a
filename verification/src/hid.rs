//! HID report interpretation: per-device capability data, live controller
//! state, and the rule that turns one extracted report into the next button
//! and axis state.
//!
//! Only usage page 0 of the button capability is consulted, and the button
//! usage range is assumed contiguous; a capability expressed as a
//! discontiguous usage set is not supported.  Both are carried here as
//! design constraints of the capability model.

use vstd::prelude::*;

verus! {

/// Declared location of one axis value inside a HID report: the usage page
/// and the (non-range) usage that the extraction call reads it from.
#[derive(Clone, Copy, PartialEq, Eq, Debug)]
pub struct AxisCap {
    pub usage_page: u16,
    pub usage: u16,
}

/// Capability entry and live controller state for one HID device.
///
/// The capability half (`button_usage_page`, `usage_min`, `usage_max`,
/// `axis_caps`) is filled once when the device is enumerated and read-only
/// afterwards; the state half (`buttons`, `axes`) is rebuilt from every
/// report.
#[derive(Debug)]
pub struct HidDeviceState {
    /// Raw-input device handle this entry belongs to.
    pub handle: u64,
    /// Usage page of the button capability consulted for reports.
    pub button_usage_page: u16,
    /// Smallest button usage the device declares.
    pub usage_min: u16,
    /// Largest button usage the device declares.
    pub usage_max: u16,
    /// Declared axes, in declaration order.
    pub axis_caps: Vec<AxisCap>,
    /// One slot per usage in `[usage_min, usage_max]`; slot `i` stands for
    /// usage `usage_min + i`.
    pub buttons: Vec<bool>,
    /// One raw scalar per declared axis, in declaration order.
    pub axes: Vec<u32>,
}

/// True when some reported usage selects button slot `i`: the usage lies in
/// `[usage_min, usage_max]` and its offset from `usage_min` is `i`.
pub open spec fn usage_sets_button(usages: Seq<u16>, usage_min: u16, usage_max: u16, i: int) -> bool {
    exists|j: int|
        0 <= j < usages.len() && usage_min <= usages[j] <= usage_max && usages[j] - usage_min == i
}

/// The button state a report leaves behind: slot `i` is set exactly when a
/// reported usage selects it.  The state the device held before the report
/// does not appear here: every report is a full replace.
pub open spec fn buttons_after_report(
    usages: Seq<u16>,
    usage_min: u16,
    usage_max: u16,
    slots: nat,
) -> Seq<bool> {
    Seq::new(slots, |i: int| usage_sets_button(usages, usage_min, usage_max, i))
}

/// Relation between a device's state before and after one report carrying
/// the extracted active usages and axis values.
pub open spec fn hid_after_report(
    pre: HidDeviceState,
    post: HidDeviceState,
    usages: Seq<u16>,
    values: Seq<u32>,
) -> bool {
    &&& post.handle == pre.handle
    &&& post.button_usage_page == pre.button_usage_page
    &&& post.usage_min == pre.usage_min
    &&& post.usage_max == pre.usage_max
    &&& post.axis_caps@ == pre.axis_caps@
    &&& post.buttons@ == buttons_after_report(usages, pre.usage_min, pre.usage_max, pre.buttons@.len())
    &&& post.axes@ == values
}

impl HidDeviceState {
    /// Well-formed: a contiguous button range, one button slot per usage in
    /// the range, one axis slot per declared axis.
    pub open spec fn wf(self) -> bool {
        &&& self.usage_min <= self.usage_max
        &&& self.buttons@.len() == self.usage_max - self.usage_min + 1
        &&& self.axes@.len() == self.axis_caps@.len()
    }

    /// A freshly enumerated device: capabilities recorded, every button
    /// clear, every axis zero.
    pub fn new(
        handle: u64,
        button_usage_page: u16,
        usage_min: u16,
        usage_max: u16,
        axis_caps: Vec<AxisCap>,
    ) -> (r: HidDeviceState)
        requires
            usage_min <= usage_max,
        ensures
            r.wf(),
            r.handle == handle,
            r.button_usage_page == button_usage_page,
            r.usage_min == usage_min,
            r.usage_max == usage_max,
            r.axis_caps@ == axis_caps@,
            forall|i: int| 0 <= i < r.buttons@.len() ==> !r.buttons@[i],
            forall|i: int| 0 <= i < r.axes@.len() ==> r.axes@[i] == 0u32,
    {
        let slot_count: usize = (usage_max - usage_min) as usize + 1;
        let mut buttons: Vec<bool> = Vec::new();
        let mut i: usize = 0;
        while i < slot_count
            invariant
                i <= slot_count,
                buttons@.len() == i,
                forall|j: int| 0 <= j < i ==> !buttons@[j],
            decreases slot_count - i,
        {
            buttons.push(false);
            i = i + 1;
        }
        let axis_count: usize = axis_caps.len();
        let mut axes: Vec<u32> = Vec::new();
        let mut k: usize = 0;
        while k < axis_count
            invariant
                k <= axis_count,
                axes@.len() == k,
                forall|j: int| 0 <= j < k ==> axes@[j] == 0u32,
            decreases axis_count - k,
        {
            axes.push(0);
            k = k + 1;
        }
        HidDeviceState { handle, button_usage_page, usage_min, usage_max, axis_caps, buttons, axes }
    }

    /// Interpret one report against this device: clear the whole button
    /// state, set exactly the buttons the active usages select, then
    /// overwrite every axis slot in declaration order with its extracted
    /// value.  Each report is authoritative for the full state.
    pub fn apply_report(&mut self, active_usages: &Vec<u16>, axis_values: &Vec<u32>)
        requires
            old(self).wf(),
            axis_values@.len() == old(self).axis_caps@.len(),
        ensures
            final(self).wf(),
            hid_after_report(*old(self), *final(self), active_usages@, axis_values@),
    {
        let slots: usize = self.buttons.len();
        // Full clear: nothing of the previous report survives.
        let mut i: usize = 0;
        while i < slots
            invariant
                i <= slots,
                self.buttons@.len() == slots,
                forall|j: int| 0 <= j < i ==> !self.buttons@[j],
                self.handle == old(self).handle,
                self.button_usage_page == old(self).button_usage_page,
                self.usage_min == old(self).usage_min,
                self.usage_max == old(self).usage_max,
                self.axis_caps@ == old(self).axis_caps@,
                self.axes@ == old(self).axes@,
            decreases slots - i,
        {
            self.buttons.set(i, false);
            i = i + 1;
        }
        // Set the buttons the report names, bounded by the declared range.
        let usage_min = self.usage_min;
        let usage_max = self.usage_max;
        let reported: usize = active_usages.len();
        let mut k: usize = 0;
        while k < reported
            invariant
                k <= reported,
                reported == active_usages@.len(),
                usage_min == old(self).usage_min,
                usage_max == old(self).usage_max,
                usage_min <= usage_max,
                self.buttons@.len() == slots,
                slots == usage_max - usage_min + 1,
                forall|j: int|
                    0 <= j < slots ==> self.buttons@[j] == usage_sets_button(
                        active_usages@.subrange(0, k as int),
                        usage_min,
                        usage_max,
                        j,
                    ),
                self.handle == old(self).handle,
                self.button_usage_page == old(self).button_usage_page,
                self.usage_min == old(self).usage_min,
                self.usage_max == old(self).usage_max,
                self.axis_caps@ == old(self).axis_caps@,
                self.axes@ == old(self).axes@,
            decreases reported - k,
        {
            let usage = active_usages[k];
            proof {
                assert(active_usages@.subrange(0, k as int + 1) =~= active_usages@.subrange(
                    0,
                    k as int,
                ).push(active_usages@[k as int]));
            }
            if usage_min <= usage && usage <= usage_max {
                let offset: usize = (usage - usage_min) as usize;
                self.buttons.set(offset, true);
                proof {
                    let prev = active_usages@.subrange(0, k as int);
                    let cur = active_usages@.subrange(0, k as int + 1);
                    assert forall|j: int| 0 <= j < slots implies self.buttons@[j]
                        == usage_sets_button(cur, usage_min, usage_max, j) by {
                        if j == offset {
                            assert(usage_sets_button(cur, usage_min, usage_max, j)) by {
                                assert(cur[k as int] == usage);
                            }
                        } else {
                            if usage_sets_button(prev, usage_min, usage_max, j) {
                                let w = choose|w: int|
                                    0 <= w < prev.len() && usage_min <= prev[w] <= usage_max
                                        && prev[w] - usage_min == j;
                                assert(cur[w] == prev[w]);
                                assert(usage_sets_button(cur, usage_min, usage_max, j));
                            }
                            if usage_sets_button(cur, usage_min, usage_max, j) {
                                let w = choose|w: int|
                                    0 <= w < cur.len() && usage_min <= cur[w] <= usage_max
                                        && cur[w] - usage_min == j;
                                assert(w < k as int + 1);
                                if w == k as int {
                                    assert(cur[w] == usage);
                                    assert(false);
                                } else {
                                    assert(prev[w] == cur[w]);
                                    assert(usage_sets_button(prev, usage_min, usage_max, j));
                                }
                            }
                        }
                    }
                }
            } else {
                proof {
                    let prev = active_usages@.subrange(0, k as int);
                    let cur = active_usages@.subrange(0, k as int + 1);
                    assert forall|j: int| 0 <= j < slots implies self.buttons@[j]
                        == usage_sets_button(cur, usage_min, usage_max, j) by {
                        if usage_sets_button(prev, usage_min, usage_max, j) {
                            let w = choose|w: int|
                                0 <= w < prev.len() && usage_min <= prev[w] <= usage_max
                                    && prev[w] - usage_min == j;
                            assert(cur[w] == prev[w]);
                            assert(usage_sets_button(cur, usage_min, usage_max, j));
                        }
                        if usage_sets_button(cur, usage_min, usage_max, j) {
                            let w = choose|w: int|
                                0 <= w < cur.len() && usage_min <= cur[w] <= usage_max
                                    && cur[w] - usage_min == j;
                            if w == k as int {
                                assert(cur[w] == usage);
                                assert(false);
                            } else {
                                assert(prev[w] == cur[w]);
                                assert(usage_sets_button(prev, usage_min, usage_max, j));
                            }
                        }
                    }
                }
            }
            k = k + 1;
        }
        proof {
            assert(active_usages@.subrange(0, reported as int) =~= active_usages@);
            assert(self.buttons@ =~= buttons_after_report(
                active_usages@,
                usage_min,
                usage_max,
                slots as nat,
            ));
        }
        // Overwrite every axis slot, in declaration order.
        let axis_count: usize = axis_values.len();
        let mut a: usize = 0;
        while a < axis_count
            invariant
                a <= axis_count,
                axis_count == axis_values@.len(),
                self.axes@.len() == axis_count,
                forall|j: int| 0 <= j < a ==> self.axes@[j] == axis_values@[j],
                self.buttons@ == buttons_after_report(
                    active_usages@,
                    old(self).usage_min,
                    old(self).usage_max,
                    old(self).buttons@.len(),
                ),
                self.handle == old(self).handle,
                self.button_usage_page == old(self).button_usage_page,
                self.usage_min == old(self).usage_min,
                self.usage_max == old(self).usage_max,
                self.axis_caps@ == old(self).axis_caps@,
            decreases axis_count - a,
        {
            let v = axis_values[a];
            self.axes.set(a, v);
            a = a + 1;
        }
        proof {
            assert(self.axes@ =~= axis_values@);
        }
    }
}

/// LAW: a report with no active usages leaves the button set entirely
/// clear, whatever the device held before.
pub proof fn lemma_empty_report_clears(usage_min: u16, usage_max: u16, slots: nat)
    ensures
        forall|i: int|
            0 <= i < slots ==> !buttons_after_report(Seq::<u16>::empty(), usage_min, usage_max, slots)[i],
{
}

/// LAW: after a report the button set equals exactly
/// `{usage - usage_min : usage among the active usages, usage_min <= usage <= usage_max}`,
/// a characterization that does not mention the state before the report:
/// reports replace the full button state and never accumulate.
pub proof fn lemma_report_buttons_exact(
    usages: Seq<u16>,
    usage_min: u16,
    usage_max: u16,
    slots: nat,
    i: int,
)
    requires
        0 <= i < slots,
    ensures
        buttons_after_report(usages, usage_min, usage_max, slots)[i] <==> (exists|j: int|
            0 <= j < usages.len() && usage_min <= usages[j] <= usage_max && usages[j] - usage_min
                == i),
{
}

/// LAW: reports do not accumulate.  If a device takes one report and then a
/// second, its button set is the one the second report dictates on its own:
/// the same set it would hold had the second report arrived first.
pub proof fn lemma_reports_do_not_accumulate(
    s0: HidDeviceState,
    s1: HidDeviceState,
    s2: HidDeviceState,
    first: Seq<u16>,
    second: Seq<u16>,
    values1: Seq<u32>,
    values2: Seq<u32>,
)
    requires
        hid_after_report(s0, s1, first, values1),
        hid_after_report(s1, s2, second, values2),
    ensures
        s2.buttons@ == buttons_after_report(second, s0.usage_min, s0.usage_max, s0.buttons@.len()),
{
}

} // verus!
