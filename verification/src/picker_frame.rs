//! One frame of the picker: in which order its steps are taken, and which of
//! them end the frame.
//!
//! A frame falls into parts, between which a path that was gone to is read.

use vstd::prelude::*;

#[allow(unused_imports)]
use crate::dir_listing::{child_of, parent_of};
use crate::file_picker::{CellAction, FilePicker, PickResult};
#[allow(unused_imports)]
use crate::file_picker::{
    activates, applied, cell_shows, cells_followed, chip_widths_ok, chips_followed, cursor_followed,
    shoulder_followed, thumbs_requested, went_up,
};
use crate::requests::WorkRequest;
use crate::widget::{PadFrame, TouchPoint};

verus! {

/// What the buttons of the pad ask for.
#[derive(Debug)]
pub struct PickerKeys {
    /// How the picker is left.
    pub result: Option<PickResult>,
    /// The frame ends here.
    pub ends: bool,
}

/// What the last part of a frame asks for.
#[derive(Debug)]
pub struct PickerEnd {
    pub requests: Vec<WorkRequest>,
    /// How the picker is left.
    pub result: Option<PickResult>,
}

/// The shortcuts by their steps: the chips (which leave the picker as `c`),
/// then the shoulder buttons.
pub open spec fn shortcut_steps(
    a: FilePicker,
    c: FilePicker,
    b: FilePicker,
    widths: Seq<i32>,
    touches: Seq<TouchPoint>,
    pad: PadFrame,
    chip: bool,
    shoulder: bool,
    unread: bool,
) -> bool {
    &&& chips_followed(a, c, widths, touches, chip)
    &&& shoulder_followed(c, b, pad, shoulder)
    &&& unread == (chip || shoulder)
}

/// The shortcuts; `unread` says whether one was gone to.
pub open spec fn shortcuts_followed(
    a: FilePicker,
    b: FilePicker,
    widths: Seq<i32>,
    touches: Seq<TouchPoint>,
    pad: PadFrame,
    unread: bool,
) -> bool {
    exists|c: FilePicker, chip: bool, shoulder: bool| #[trigger]
        shortcut_steps(a, c, b, widths, touches, pad, chip, shoulder, unread)
}

/// An entry that was activated ends the frame. Behind the last one nothing
/// happens.
pub open spec fn entry_followed(
    a: FilePicker,
    b: FilePicker,
    idx: int,
    act: Option<CellAction>,
    r: Option<PickResult>,
) -> bool {
    &&& activates(a, idx, act)
    &&& match act {
        Some(c) => applied(a, b, c, r),
        None => r is None && b == a,
    }
}

/// The buttons of the pad by their steps: the cursor moves, and the cross
/// activates the entry it is then on, which ends the frame; else the circle is
/// looked at.
pub open spec fn key_steps(
    a: FilePicker,
    b: FilePicker,
    pad: PadFrame,
    act: Option<CellAction>,
    out: PickerKeys,
) -> bool {
    let m = cursor_followed(a, pad);
    if pad.cross && m.cursor < m.entries@.len() {
        &&& act is Some
        &&& entry_followed(m, b, m.cursor as int, act, out.result)
        &&& out.ends
    } else {
        &&& went_up(m, b, pad, out.result)
        &&& out.ends == out.result is Some
    }
}

/// The buttons of the pad.
pub open spec fn keys_followed(a: FilePicker, b: FilePicker, pad: PadFrame, out: PickerKeys) -> bool {
    exists|act: Option<CellAction>| #[trigger] key_steps(a, b, pad, act, out)
}

/// The last part of a frame by its steps: the small pictures are asked for
/// (which leaves the picker as `t`), then a cell may be tapped (which leaves it
/// as `c`) and activated.
pub open spec fn end_steps(
    a: FilePicker,
    t: FilePicker,
    c: FilePicker,
    b: FilePicker,
    touches: Seq<TouchPoint>,
    has_worker: bool,
    tapped: Option<usize>,
    act: Option<CellAction>,
    out: PickerEnd,
) -> bool {
    &&& if has_worker {
        thumbs_requested(a, t, out.requests@)
    } else {
        t == a && out.requests@.len() == 0
    }
    &&& cells_followed(t, c, touches, tapped)
    &&& match tapped {
        Some(i) => entry_followed(c, b, i as int, act, out.result),
        None => out.result is None && b == c,
    }
}

/// The last part of a frame.
pub open spec fn frame_ended(
    a: FilePicker,
    b: FilePicker,
    touches: Seq<TouchPoint>,
    has_worker: bool,
    out: PickerEnd,
) -> bool {
    exists|
        t: FilePicker,
        c: FilePicker,
        tapped: Option<usize>,
        act: Option<CellAction>,
    | #[trigger] end_steps(a, t, c, b, touches, has_worker, tapped, act, out)
}

impl FilePicker {
    /// The first part of a frame: the shortcuts, given the widths of their
    /// labels. `true` means that the path is to be read.
    pub fn frame_start(
        &mut self,
        widths: &Vec<i32>,
        touches: &Vec<TouchPoint>,
        pad: &PadFrame,
    ) -> (unread: bool)
        requires
            old(self).wf(),
            widths@.len() == 3,
            chip_widths_ok(widths@),
        ensures
            final(self).wf(),
            shortcuts_followed(*old(self), *final(self), widths@, touches@, *pad, unread),
    {
        let chip = self.chips(widths, touches);
        let ghost c = *self;
        let shoulder = self.shoulder(pad);
        let unread = chip || shoulder;
        assert(shortcut_steps(
            *old(self),
            c,
            *self,
            widths@,
            touches@,
            *pad,
            chip,
            shoulder,
            unread,
        ));
        unread
    }

    /// The second part of a frame: the other buttons of the pad.
    pub fn frame_keys(&mut self, pad: &PadFrame) -> (r: PickerKeys)
        requires
            old(self).wf(),
        ensures
            final(self).wf(),
            keys_followed(*old(self), *final(self), *pad, r),
    {
        self.move_cursor(pad);
        if pad.cross {
            let act = self.activate(self.cursor);
            match act {
                Some(act) => {
                    let ghost g = act;
                    let result = self.apply(act);
                    let r = PickerKeys { result, ends: true };
                    assert(key_steps(*old(self), *self, *pad, Some(g), r));
                    return r;
                },
                None => {},
            }
        }
        let result = self.go_up(pad);
        let ends = result.is_some();
        let r = PickerKeys { result, ends };
        assert(key_steps(*old(self), *self, *pad, None, r));
        r
    }

    /// The last part of a frame: the small pictures that are to be read, and a
    /// tap on a cell.
    pub fn frame_end(&mut self, touches: &Vec<TouchPoint>, has_worker: bool) -> (r: PickerEnd)
        requires
            old(self).wf(),
        ensures
            final(self).wf(),
            frame_ended(*old(self), *final(self), touches@, has_worker, r),
    {
        let requests = if has_worker {
            self.request_thumbs()
        } else {
            Vec::new()
        };
        let ghost t = *self;
        let tapped = self.tap_cells(touches);
        let ghost c = *self;
        let ghost mut g: Option<CellAction> = None;
        let mut result: Option<PickResult> = None;
        match tapped {
            Some(i) => {
                let act = self.activate(i);
                proof {
                    g = act;
                }
                match act {
                    Some(act) => {
                        result = self.apply(act);
                    },
                    None => {},
                }
            },
            None => {},
        }
        let r = PickerEnd { requests, result };
        assert(end_steps(*old(self), t, c, *self, touches@, has_worker, tapped, g, r));
        r
    }
}

/// Without a button of the pad the picker stays where it is.
pub proof fn lemma_idle_stays(a: FilePicker, b: FilePicker, pad: PadFrame, out: PickerKeys)
    requires
        a.wf(),
        a.entries@.len() > 0 ==> cell_shows(a.cursor as int, a.scroll_row as int),
        !pad.up && !pad.down && !pad.left && !pad.right && !pad.cross && !pad.circle,
        keys_followed(a, b, pad, out),
    ensures
        b == a,
        out.result is None,
        !out.ends,
{
}

/// The picker is left with a picture only by the entry it was on.
pub proof fn lemma_picked_under_cursor(a: FilePicker, b: FilePicker, pad: PadFrame, out: PickerKeys)
    requires
        a.wf(),
        keys_followed(a, b, pad, out),
        out.result is Some,
    ensures
        match out.result {
            Some(PickResult::Picked(path)) => {
                let m = cursor_followed(a, pad);
                &&& pad.cross
                &&& m.cursor < m.entries@.len()
                &&& !m.entries@[m.cursor as int].is_dir
                &&& path@ == child_of(a.path@, m.entries@[m.cursor as int].name@)
            },
            _ => pad.circle && parent_of(a.path@) is None,
        },
{
}

} // verus!
