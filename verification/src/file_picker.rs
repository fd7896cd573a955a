//! The file picker: a grid of directories and pictures, shown on top of the
//! compose screen.
//!
//! The cursor moves over the grid; the cross enters a directory or picks a
//! picture, the circle goes up, or leaves at a drive. Three shortcuts lead to
//! the usual places. Whoever owns the picker reads the directories for it.

use vstd::hash_map::StringHashMap;
use vstd::prelude::*;

use crate::dir_listing::{child_dir, list_entries, parent_dir, DirEntry};
#[allow(unused_imports)]
use crate::dir_listing::{child_of, listing, parent_of};
use crate::requests::WorkRequest;
use crate::text::{chars_of, join2, owned, same_text, string_of};
use crate::widget::{button, px_fits, ButtonState, PadFrame, Rect, TouchPoint};
#[allow(unused_imports)]
use crate::widget::{clicked, ellipsized, fits_px, touched};

verus! {

/// Cells in a row of the grid.
pub const COLS: usize = 4;

/// Rows of the grid that show at once.
pub const VISIBLE_ROWS: usize = 3;

pub const CELL_W: i32 = 225;

pub const CELL_H: i32 = 128;

pub const GRID_TOP: i32 = 78;

/// How a picker is left.
#[derive(Debug)]
pub enum PickResult {
    /// With this picture.
    Picked(String),
    /// Without one.
    Cancelled,
}

/// How far the small picture of a cell has come.
#[derive(Copy, Clone, Debug, PartialEq, Eq, Structural)]
pub enum ThumbState {
    Loading,
    Ready,
    Failed,
}

/// What activating a cell does.
#[derive(Debug)]
pub enum CellAction {
    Enter(String),
    Pick(String),
}

/// A file picker.
pub struct FilePicker {
    pub path: String,
    pub entries: Vec<DirEntry>,
    pub error: Option<String>,
    pub cursor: usize,
    /// The topmost row that shows.
    pub scroll_row: usize,
    /// The entries are those of the path.
    pub loaded: bool,
    pub chip_btns: Vec<ButtonState>,
    pub cell_btns: Vec<ButtonState>,
    /// The small pictures that were asked for, by path.
    pub thumbs: StringHashMap<ThumbState>,
}

/// What stands in place of the grid.
#[derive(Debug)]
pub enum GridBody {
    Problem(String),
    Empty,
    Cells,
}

/// The name of a shortcut.
pub open spec fn shortcut_label(i: int) -> Seq<char> {
    if i == 0 {
        "Photos"@
    } else if i == 1 {
        "Downloads"@
    } else {
        "Browse"@
    }
}

/// Where a shortcut leads.
pub open spec fn shortcut_root(i: int) -> Seq<char> {
    if i == 0 {
        "ux0:picture/"@
    } else if i == 1 {
        "ux0:download/"@
    } else {
        "ux0:"@
    }
}

/// The name of a shortcut.
pub fn chip_label(i: usize) -> (r: String)
    ensures
        r@ == shortcut_label(i as int),
{
    if i == 0 {
        owned("Photos")
    } else if i == 1 {
        owned("Downloads")
    } else {
        owned("Browse")
    }
}

fn chip_root(i: usize) -> (r: String)
    ensures
        r@ == shortcut_root(i as int),
{
    if i == 0 {
        owned("ux0:picture/")
    } else if i == 1 {
        owned("ux0:download/")
    } else {
        owned("ux0:")
    }
}

/// The shortcut that a path is, from `from` on; 3 where it is none.
pub open spec fn shortcut_at(path: Seq<char>, from: int) -> int
    decreases 3 - from,
{
    if from >= 3 {
        3
    } else if shortcut_root(from) == path {
        from
    } else {
        shortcut_at(path, from + 1)
    }
}

/// The shortcut that the shoulder buttons lead to: the next one or the one
/// before, around the ends; from elsewhere the first or the last one.
pub open spec fn next_shortcut(path: Seq<char>, forward: bool) -> int {
    let at = shortcut_at(path, 0);
    if forward {
        if at >= 2 {
            0
        } else {
            at + 1
        }
    } else if at == 0 || at == 3 {
        2
    } else {
        at - 1
    }
}

/// Where the chip of a shortcut starts, given the widths of the labels.
pub open spec fn chip_x(widths: Seq<i32>, i: int) -> int
    decreases i,
{
    if i <= 0 {
        14
    } else {
        chip_x(widths, i - 1) + widths[i - 1] + 34
    }
}

/// The chip of a shortcut.
pub open spec fn chip_rect(widths: Seq<i32>, i: int) -> Rect {
    Rect { x: chip_x(widths, i) as i32, y: 8, w: (widths[i] + 24) as i32, h: 32 }
}

/// The chip of a shortcut, and the place behind it, can be held.
pub open spec fn chip_fits(widths: Seq<i32>, i: int) -> bool {
    fits_px(widths[i] + 24) && fits_px(chip_x(widths, i + 1))
}

/// The places of all chips can be held.
pub open spec fn chip_widths_ok(widths: Seq<i32>) -> bool {
    forall|i: int| 0 <= i < widths.len() ==> #[trigger] chip_fits(widths, i)
}

/// Whether the places of all chips can be held.
pub fn chip_labels_fit(widths: &Vec<i32>) -> (r: bool)
    ensures
        r == chip_widths_ok(widths@),
{
    let mut x: i64 = 14;
    let mut i: usize = 0;
    while i < widths.len()
        invariant
            i <= widths@.len(),
            fits_px(x as int),
            x == chip_x(widths@, i as int),
            forall|k: int| 0 <= k < i ==> #[trigger] chip_fits(widths@, k),
        decreases widths@.len() - i,
    {
        let w: i64 = widths[i] as i64 + 24;
        let next: i64 = x + w + 10;
        let fits = px_fits(w) && px_fits(next);
        assert(fits == chip_fits(widths@, i as int));
        if !fits {
            return false;
        }
        x = next;
        i += 1;
    }
    true
}

/// Cell `idx` shows: its row does.
pub open spec fn cell_shows(idx: int, scroll_row: int) -> bool {
    scroll_row <= idx / 4 < scroll_row + 3
}

/// The place of a cell that shows.
pub open spec fn cell_place(idx: int, scroll_row: int) -> Rect {
    Rect {
        x: (14 + (idx % 4) * 235) as i32,
        y: (78 + (idx / 4 - scroll_row) * 138) as i32,
        w: 225,
        h: 128,
    }
}

/// The cursor after the direction buttons, among `len` cells: each moves it as
/// far as there is a cell in its row or column.
pub open spec fn cursor_moved(cursor: int, pad: PadFrame, len: int) -> int {
    let a = if pad.up && cursor >= 4 {
        cursor - 4
    } else {
        cursor
    };
    let b = if pad.down && a + 4 < len {
        a + 4
    } else {
        a
    };
    let c = if pad.left && b % 4 > 0 {
        b - 1
    } else {
        b
    };
    if pad.right && c % 4 < 3 && c + 1 < len {
        c + 1
    } else {
        c
    }
}

/// The topmost row once the cursor's row shows.
pub open spec fn row_followed(cursor: int, scroll_row: int) -> int {
    let row = cursor / 4;
    if row < scroll_row {
        row
    } else if row >= scroll_row + 3 {
        row - 2
    } else {
        scroll_row
    }
}

/// What activating an entry does.
pub open spec fn activation(path: Seq<char>, e: DirEntry) -> (bool, Seq<char>) {
    (e.is_dir, child_of(path, e.name@))
}

/// The small pictures that were asked for once the first `n` entries were gone
/// through.
pub open spec fn thumbs_after(p: FilePicker, n: int) -> Map<Seq<char>, ThumbState>
    decreases n,
{
    if n <= 0 {
        p.thumbs@
    } else {
        let before = thumbs_after(p, n - 1);
        if p.thumb_due(n - 1, before) {
            before.insert(child_of(p.path@, p.entries@[n - 1].name@), ThumbState::Loading)
        } else {
            before
        }
    }
}

/// The small pictures that are asked for among the first `n` entries.
pub open spec fn thumbs_asked(p: FilePicker, n: int) -> Seq<Seq<char>>
    decreases n,
{
    if n <= 0 {
        Seq::empty()
    } else if p.thumb_due(n - 1, thumbs_after(p, n - 1)) {
        thumbs_asked(p, n - 1).push(child_of(p.path@, p.entries@[n - 1].name@))
    } else {
        thumbs_asked(p, n - 1)
    }
}

/// The files that requests ask for.
pub open spec fn files_read(reqs: Seq<WorkRequest>) -> Seq<Seq<char>> {
    Seq::new(
        reqs.len(),
        |i: int|
            match reqs[i] {
                WorkRequest::ReadImageFile { path } => path@,
                _ => Seq::empty(),
            },
    )
}

/// The place of a cell that shows.
pub fn cell_rect(idx: usize, scroll_row: usize) -> (r: Rect)
    requires
        cell_shows(idx as int, scroll_row as int),
    ensures
        r == cell_place(idx as int, scroll_row as int),
{
    let col: i32 = (idx % COLS) as i32;
    let row: i32 = (idx / COLS - scroll_row) as i32;
    Rect::new(14 + col * 235, 78 + row * 138, CELL_W, CELL_H)
}

/// One frame of the shortcuts, given the widths of their labels: the last one
/// that was tapped is gone to.
pub open spec fn chips_followed(
    a: FilePicker,
    b: FilePicker,
    widths: Seq<i32>,
    touches: Seq<TouchPoint>,
    r: bool,
) -> bool {
    &&& forall|i: int|
        0 <= i < 3 ==> #[trigger] b.chip_btns@[i] == (ButtonState {
            pressed_last: touched(touches, chip_rect(widths, i)),
        })
    &&& match a.chip_tapped(widths, touches, 3) {
        Some(i) => {
            &&& r
            &&& b.path@ == shortcut_root(i)
            &&& b == (FilePicker { chip_btns: b.chip_btns, path: b.path, loaded: false, ..a })
        },
        None => !r && b == (FilePicker { chip_btns: b.chip_btns, ..a }),
    }
}

/// The shoulder buttons go from shortcut to shortcut.
pub open spec fn shoulder_followed(a: FilePicker, b: FilePicker, pad: PadFrame, r: bool) -> bool {
    &&& r == (pad.l1 || pad.r1)
    &&& if r {
        &&& b.path@ == shortcut_root(next_shortcut(a.path@, pad.r1))
        &&& b == (FilePicker { path: b.path, loaded: false, ..a })
    } else {
        b == a
    }
}

/// The direction buttons move the cursor, and the grid follows it.
pub open spec fn cursor_followed(a: FilePicker, pad: PadFrame) -> FilePicker {
    let len = a.entries@.len() as int;
    if len == 0 {
        a
    } else {
        let c = cursor_moved(a.cursor as int, pad, len);
        FilePicker {
            cursor: c as usize,
            scroll_row: row_followed(c, a.scroll_row as int) as usize,
            ..a
        }
    }
}

/// What activating an entry is: a directory is entered, a picture picked.
/// There is nothing to activate behind the last entry.
pub open spec fn activates(p: FilePicker, idx: int, r: Option<CellAction>) -> bool {
    match r {
        None => idx >= p.entries@.len(),
        Some(CellAction::Enter(path)) => idx < p.entries@.len() && activation(
            p.path@,
            p.entries@[idx],
        ) == (true, path@),
        Some(CellAction::Pick(path)) => idx < p.entries@.len() && activation(
            p.path@,
            p.entries@[idx],
        ) == (false, path@),
    }
}

/// An activation followed: a directory is gone to, a picture ends it.
pub open spec fn applied(
    a: FilePicker,
    b: FilePicker,
    act: CellAction,
    r: Option<PickResult>,
) -> bool {
    match act {
        CellAction::Enter(path) => r is None && b == (FilePicker { path, loaded: false, ..a }),
        CellAction::Pick(path) => r == Some(PickResult::Picked(path)) && b == a,
    }
}

/// The circle goes up to the directory around the path; at a drive it leaves.
pub open spec fn went_up(
    a: FilePicker,
    b: FilePicker,
    pad: PadFrame,
    r: Option<PickResult>,
) -> bool {
    match parent_of(a.path@) {
        Some(p) => {
            &&& r is None
            &&& if pad.circle {
                b.path@ == p && b == (FilePicker { path: b.path, loaded: false, ..a })
            } else {
                b == a
            }
        },
        None => {
            &&& b == a
            &&& r == (if pad.circle {
                Some(PickResult::Cancelled)
            } else {
                None
            })
        },
    }
}

/// The small pictures of the cells that show are asked for, each once.
pub open spec fn thumbs_requested(
    a: FilePicker,
    b: FilePicker,
    requests: Seq<WorkRequest>,
) -> bool {
    let n = a.entries@.len() as int;
    &&& files_read(requests) == thumbs_asked(a, n)
    &&& forall|i: int| 0 <= i < requests.len() ==> #[trigger] requests[i] is ReadImageFile
    &&& b.thumbs@ == thumbs_after(a, n)
    &&& b == (FilePicker { thumbs: b.thumbs, ..a })
}

/// One frame of the grid: the cell that was tapped, which the cursor goes to.
/// Without a listing no cell can be tapped.
pub open spec fn cells_followed(
    a: FilePicker,
    b: FilePicker,
    touches: Seq<TouchPoint>,
    r: Option<usize>,
) -> bool {
    if a.error is Some {
        r is None && b == a
    } else {
        let hit = a.cell_tapped(touches, a.entries@.len() as int);
        &&& match hit {
            Some(i) => r == Some(i as usize) && 0 <= i < a.entries@.len(),
            None => r is None,
        }
        &&& b.cell_btns@ == Seq::new(
            a.cell_btns@.len(),
            |i: int| a.cell_pressed(touches, i),
        )
        &&& b == (FilePicker {
            cell_btns: b.cell_btns,
            cursor: match hit {
                Some(i) => i as usize,
                None => a.cursor,
            },
            ..a
        })
    }
}

impl FilePicker {
    /// The cursor is a cell, or 0 without cells, and its row shows; each chip
    /// and cell has its press state.
    pub open spec fn wf(&self) -> bool {
        &&& self.cursor == 0 || self.cursor < self.entries@.len()
        &&& cell_shows(self.cursor as int, self.scroll_row as int)
        &&& self.chip_btns@.len() == 3
        &&& self.cell_btns@.len() == self.entries@.len()
    }

    /// The small picture of an entry is to be asked for: its cell shows, it is
    /// no directory, and it was not asked for yet.
    pub open spec fn thumb_due(&self, idx: int, asked: Map<Seq<char>, ThumbState>) -> bool {
        &&& cell_shows(idx, self.scroll_row as int)
        &&& !self.entries@[idx].is_dir
        &&& !asked.contains_key(child_of(self.path@, self.entries@[idx].name@))
    }

    /// It stands at the first shortcut, with nothing read yet, the cursor at
    /// the start, and nothing pressed.
    pub open spec fn fresh(&self) -> bool {
        &&& self.path@ == shortcut_root(0)
        &&& self.entries@.len() == 0
        &&& self.error is None
        &&& self.cursor == 0
        &&& self.scroll_row == 0
        &&& !self.loaded
        &&& self.chip_btns@.len() == 3
        &&& forall|i: int| 0 <= i < 3 ==> !(#[trigger] self.chip_btns@[i]).pressed_last
        &&& self.cell_btns@.len() == 0
        &&& self.thumbs@ == Map::<Seq<char>, ThumbState>::empty()
    }

    /// A picker at the first shortcut, with nothing read yet.
    pub fn new() -> (r: FilePicker)
        ensures
            r.wf(),
            r.fresh(),
    {
        let mut chips: Vec<ButtonState> = Vec::new();
        chips.push(ButtonState::default());
        chips.push(ButtonState::default());
        chips.push(ButtonState::default());
        FilePicker {
            path: chip_root(0),
            entries: Vec::new(),
            error: None,
            cursor: 0,
            scroll_row: 0,
            loaded: false,
            chip_btns: chips,
            cell_btns: Vec::new(),
            thumbs: StringHashMap::new(),
        }
    }

    /// Goes to a path, which is then to be read.
    pub fn navigate(&mut self, path: String)
        requires
            old(self).wf(),
        ensures
            final(self).wf(),
            *final(self) == (FilePicker { path, loaded: false, ..*old(self) }),
    {
        self.path = path;
        self.loaded = false;
    }

    /// A folder that was read is shown from its top; one that was not says why.
    pub open spec fn loaded(a: Self, b: Self, read: Result<Vec<DirEntry>, String>) -> bool {
        &&& match read {
            Ok(es) => b.entries@ == listing(es@, es@.len() as int) && b.error is None,
            Err(e) => b.entries@.len() == 0 && b.error == Some(e),
        }
        &&& b.thumbs@ == Map::<Seq<char>, ThumbState>::empty()
        &&& forall|i: int|
            0 <= i < b.cell_btns@.len() ==> !(#[trigger] b.cell_btns@[i]).pressed_last
        &&& b == (FilePicker {
            entries: b.entries,
            error: b.error,
            cursor: 0,
            scroll_row: 0,
            loaded: true,
            cell_btns: b.cell_btns,
            thumbs: b.thumbs,
            ..a
        })
    }

    /// Takes what was read of the path: directories and pictures are listed,
    /// or the error kept. Cursor and small pictures start anew.
    pub fn load(&mut self, read: Result<Vec<DirEntry>, String>)
        requires
            old(self).wf(),
        ensures
            final(self).wf(),
            Self::loaded(*old(self), *final(self), read),
    {
        match read {
            Ok(es) => {
                self.entries = list_entries(&es);
                self.error = None;
            },
            Err(e) => {
                self.entries = Vec::new();
                self.error = Some(e);
            },
        }
        let n: usize = self.entries.len();
        let mut btns: Vec<ButtonState> = Vec::new();
        let mut i: usize = 0;
        while i < n
            invariant
                i <= n,
                btns@.len() == i,
                forall|k: int| 0 <= k < i ==> !(#[trigger] btns@[k]).pressed_last,
            decreases n - i,
        {
            btns.push(ButtonState::default());
            i += 1;
        }
        self.cursor = 0;
        self.scroll_row = 0;
        self.cell_btns = btns;
        self.thumbs.clear();
        self.loaded = true;
    }

    /// A small picture that was asked for is ready or failed.
    pub open spec fn thumb_taken(a: Self, b: Self, path: Seq<char>, decoded: bool) -> bool {
        &&& b.thumbs@ == (if a.thumbs@.contains_key(path) {
            a.thumbs@.insert(
                path,
                if decoded {
                    ThumbState::Ready
                } else {
                    ThumbState::Failed
                },
            )
        } else {
            a.thumbs@
        })
        &&& b == (FilePicker { thumbs: b.thumbs, ..a })
    }

    /// Takes a picture that was read, `decoded` or not. One that was not asked
    /// for here is left alone.
    pub fn on_image(&mut self, path: &str, decoded: bool)
        requires
            old(self).wf(),
        ensures
            final(self).wf(),
            Self::thumb_taken(*old(self), *final(self), path@, decoded),
    {
        if self.thumbs.contains_key(path) {
            let state = if decoded {
                ThumbState::Ready
            } else {
                ThumbState::Failed
            };
            self.thumbs.insert(owned(path), state);
        }
    }

    /// Whether a small picture was asked for.
    pub open spec fn thumb_wanted(s: Self, path: Seq<char>, r: bool) -> bool {
        r == s.thumbs@.contains_key(path)
    }

    /// Whether a picture that was read is wanted here.
    pub fn wants_image(&self, path: &str) -> (r: bool)
        ensures
            Self::thumb_wanted(*self, path@, r),
    {
        self.thumbs.contains_key(path)
    }

    /// What is known of an entry's small picture.
    pub open spec fn thumb_is(s: Self, idx: usize, r: Option<ThumbState>) -> bool {
        let p = child_of(s.path@, s.entries@[idx as int].name@);
        r == (if s.thumbs@.contains_key(p) {
            Some(s.thumbs@[p])
        } else {
            None
        })
    }

    /// How far the small picture of an entry has come.
    pub fn thumb_state(&self, idx: usize) -> (r: Option<ThumbState>)
        requires
            idx < self.entries@.len(),
        ensures
            Self::thumb_is(*self, idx, r),
    {
        let p = child_dir(self.path.as_str(), self.entries[idx].name.as_str());
        match self.thumbs.get(p.as_str()) {
            Some(s) => Some(*s),
            None => None,
        }
    }

    /// The last of the first `n` chips that was tapped.
    pub open spec fn chip_tapped(
        &self,
        widths: Seq<i32>,
        touches: Seq<TouchPoint>,
        n: int,
    ) -> Option<int>
        decreases n,
    {
        if n <= 0 {
            None
        } else if clicked(
            true,
            self.chip_btns@[n - 1].pressed_last,
            touched(touches, chip_rect(widths, n - 1)),
            touches.len() > 0,
        ) {
            Some(n - 1)
        } else {
            self.chip_tapped(widths, touches, n - 1)
        }
    }

    /// One frame of the shortcuts, given the widths of their labels; `true`
    /// means that the path is to be read.
    pub fn chips(&mut self, widths: &Vec<i32>, touches: &Vec<TouchPoint>) -> (r: bool)
        requires
            old(self).wf(),
            widths@.len() == 3,
            chip_widths_ok(widths@),
        ensures
            final(self).wf(),
            chips_followed(*old(self), *final(self), widths@, touches@, r),
    {
        let ghost s = *self;
        let mut hit: Option<usize> = None;
        let mut x: i32 = 14;
        let mut i: usize = 0;
        while i < 3
            invariant
                i <= 3,
                s == *old(self),
                s.wf(),
                widths@.len() == 3,
                chip_widths_ok(widths@),
                x == chip_x(widths@, i as int),
                self.chip_btns@.len() == 3,
                *self == (FilePicker { chip_btns: self.chip_btns, ..s }),
                match hit {
                    Some(h) => s.chip_tapped(widths@, touches@, i as int) == Some(h as int),
                    None => s.chip_tapped(widths@, touches@, i as int) is None,
                },
                forall|k: int|
                    0 <= k < i ==> #[trigger] self.chip_btns@[k] == (ButtonState {
                        pressed_last: touched(touches@, chip_rect(widths@, k)),
                    }),
                forall|k: int| i <= k < 3 ==> #[trigger] self.chip_btns@[k] == s.chip_btns@[k],
            decreases 3 - i,
        {
            assert(chip_fits(widths@, i as int));
            let w: i32 = widths[i] + 24;
            let mut state = self.chip_btns[i];
            if button(Rect::new(x, 8, w, 32), &mut state, touches, true) {
                hit = Some(i);
            }
            self.chip_btns[i] = state;
            x = (x as i64 + w as i64 + 10) as i32;
            i += 1;
        }
        match hit {
            Some(i) => {
                self.navigate(chip_root(i));
                true
            },
            None => false,
        }
    }

    /// The shortcut that a chip stands for is the path.
    pub fn chip_active(&self, i: usize) -> (r: bool)
        ensures
            r == (self.path@ == shortcut_root(i as int)),
    {
        same_text(self.path.as_str(), chip_root(i).as_str())
    }

    /// The shoulder buttons go from shortcut to shortcut; `true` means that
    /// the path is to be read.
    pub fn shoulder(&mut self, pad: &PadFrame) -> (r: bool)
        requires
            old(self).wf(),
        ensures
            final(self).wf(),
            shoulder_followed(*old(self), *final(self), *pad, r),
    {
        if !pad.l1 && !pad.r1 {
            return false;
        }
        let mut at: usize = 0;
        while at < 3 && !self.chip_active(at)
            invariant
                at <= 3,
                shortcut_at(self.path@, 0) == shortcut_at(self.path@, at as int),
            decreases 3 - at,
        {
            at += 1;
        }
        let next: usize = if pad.r1 {
            if at >= 2 {
                0
            } else {
                at + 1
            }
        } else if at == 0 || at == 3 {
            2
        } else {
            at - 1
        };
        self.navigate(chip_root(next));
        true
    }

    /// The direction buttons move the cursor, and the grid follows it.
    pub fn move_cursor(&mut self, pad: &PadFrame)
        requires
            old(self).wf(),
        ensures
            final(self).wf(),
            *final(self) == cursor_followed(*old(self), *pad),
    {
        let len: usize = self.entries.len();
        if len == 0 {
            return;
        }
        if pad.up && self.cursor >= COLS {
            self.cursor = self.cursor - COLS;
        }
        if pad.down && len > COLS && self.cursor < len - COLS {
            self.cursor = self.cursor + COLS;
        }
        if pad.left && self.cursor % COLS > 0 {
            self.cursor = self.cursor - 1;
        }
        if pad.right && self.cursor % COLS < COLS - 1 && self.cursor < len - 1 {
            self.cursor = self.cursor + 1;
        }
        self.ensure_cursor_visible();
    }

    /// Keeps the cursor's row within those that show.
    fn ensure_cursor_visible(&mut self)
        requires
            old(self).entries@.len() > 0,
            old(self).cursor < old(self).entries@.len(),
            old(self).scroll_row + 3 <= usize::MAX,
        ensures
            *final(self) == (FilePicker {
                scroll_row: row_followed(
                    old(self).cursor as int,
                    old(self).scroll_row as int,
                ) as usize,
                ..*old(self)
            }),
            cell_shows(final(self).cursor as int, final(self).scroll_row as int),
    {
        let row: usize = self.cursor / COLS;
        if row < self.scroll_row {
            self.scroll_row = row;
        } else if row >= self.scroll_row + VISIBLE_ROWS {
            self.scroll_row = row + 1 - VISIBLE_ROWS;
        }
    }

    /// What activating an entry does: a directory is entered, a picture
    /// picked.
    pub fn activate(&self, idx: usize) -> (r: Option<CellAction>)
        ensures
            activates(*self, idx as int, r),
    {
        if idx >= self.entries.len() {
            return None;
        }
        let e = &self.entries[idx];
        let p = child_dir(self.path.as_str(), e.name.as_str());
        if e.is_dir {
            Some(CellAction::Enter(p))
        } else {
            Some(CellAction::Pick(p))
        }
    }

    /// Follows an activation. A directory is then to be read.
    pub fn apply(&mut self, act: CellAction) -> (r: Option<PickResult>)
        requires
            old(self).wf(),
        ensures
            final(self).wf(),
            applied(*old(self), *final(self), act, r),
    {
        match act {
            CellAction::Enter(path) => {
                self.navigate(path);
                None
            },
            CellAction::Pick(path) => Some(PickResult::Picked(path)),
        }
    }

    /// The circle goes up to the directory around the path, which is then to
    /// be read; at a drive it leaves.
    pub fn go_up(&mut self, pad: &PadFrame) -> (r: Option<PickResult>)
        requires
            old(self).wf(),
        ensures
            final(self).wf(),
            went_up(*old(self), *final(self), *pad, r),
    {
        if !pad.circle {
            return None;
        }
        match parent_dir(self.path.as_str()) {
            Some(p) => {
                self.navigate(p);
                None
            },
            None => Some(PickResult::Cancelled),
        }
    }

    /// Asks for the small pictures of the cells that show, each once.
    pub fn request_thumbs(&mut self) -> (r: Vec<WorkRequest>)
        requires
            old(self).wf(),
        ensures
            final(self).wf(),
            thumbs_requested(*old(self), *final(self), r@),
    {
        let ghost s = *self;
        let mut r: Vec<WorkRequest> = Vec::new();
        assert(files_read(r@) =~= Seq::<Seq<char>>::empty());
        let n: usize = self.entries.len();
        let mut i: usize = 0;
        while i < n
            invariant
                i <= n,
                s == *old(self),
                n == s.entries@.len(),
                s.wf(),
                *self == (FilePicker { thumbs: self.thumbs, ..s }),
                self.thumbs@ == thumbs_after(s, i as int),
                files_read(r@) == thumbs_asked(s, i as int),
                forall|k: int| 0 <= k < r@.len() ==> #[trigger] r@[k] is ReadImageFile,
            decreases n - i,
        {
            let row: usize = i / COLS;
            let ghost before = r@;
            if row >= self.scroll_row && row - self.scroll_row < VISIBLE_ROWS
                && !self.entries[i].is_dir {
                let p = child_dir(self.path.as_str(), self.entries[i].name.as_str());
                if !self.thumbs.contains_key(p.as_str()) {
                    self.thumbs.insert(p.clone(), ThumbState::Loading);
                    r.push(WorkRequest::ReadImageFile { path: p });
                    assert(files_read(r@) =~= files_read(before).push(p@));
                }
            }
            i += 1;
        }
        r
    }

    /// What stands in place of the grid.
    pub open spec fn shown_body(s: Self, r: GridBody) -> bool {
        match s.error {
            Some(e) => r matches GridBody::Problem(t) && t@ == "Can't open: "@ + e@,
            None => if s.entries@.len() == 0 {
                r is Empty
            } else {
                r is Cells
            },
        }
    }

    /// What stands in the grid.
    pub fn body(&self) -> (r: GridBody)
        ensures
            Self::shown_body(*self, r),
    {
        match &self.error {
            Some(e) => GridBody::Problem(join2("Can't open: ", e.as_str())),
            None => if self.entries.len() == 0 {
                GridBody::Empty
            } else {
                GridBody::Cells
            },
        }
    }

    /// The last of the first `n` cells that shows and was tapped.
    pub open spec fn cell_tapped(&self, touches: Seq<TouchPoint>, n: int) -> Option<int>
        decreases n,
    {
        if n <= 0 {
            None
        } else if cell_shows(n - 1, self.scroll_row as int) && clicked(
            true,
            self.cell_btns@[n - 1].pressed_last,
            touched(touches, cell_place(n - 1, self.scroll_row as int)),
            touches.len() > 0,
        ) {
            Some(n - 1)
        } else {
            self.cell_tapped(touches, n - 1)
        }
    }

    /// The press state of a cell after this frame.
    pub open spec fn cell_pressed(&self, touches: Seq<TouchPoint>, i: int) -> ButtonState {
        if cell_shows(i, self.scroll_row as int) {
            ButtonState { pressed_last: touched(touches, cell_place(i, self.scroll_row as int)) }
        } else {
            self.cell_btns@[i]
        }
    }

    /// One frame of the grid: the cell that was tapped, which the cursor goes
    /// to. Without a listing no cell can be tapped.
    pub fn tap_cells(&mut self, touches: &Vec<TouchPoint>) -> (r: Option<usize>)
        requires
            old(self).wf(),
        ensures
            final(self).wf(),
            cells_followed(*old(self), *final(self), touches@, r),
    {
        if self.error.is_some() {
            return None;
        }
        let ghost s = *self;
        let mut hit: Option<usize> = None;
        let n: usize = self.entries.len();
        let mut i: usize = 0;
        while i < n
            invariant
                i <= n,
                s == *old(self),
                s.wf(),
                n == s.entries@.len(),
                self.cell_btns@.len() == n,
                *self == (FilePicker { cell_btns: self.cell_btns, ..s }),
                match hit {
                    Some(h) => {
                        &&& s.cell_tapped(touches@, i as int) == Some(h as int)
                        &&& h < n
                        &&& cell_shows(h as int, s.scroll_row as int)
                    },
                    None => s.cell_tapped(touches@, i as int) is None,
                },
                forall|k: int|
                    0 <= k < i ==> #[trigger] self.cell_btns@[k] == s.cell_pressed(touches@, k),
                forall|k: int| i <= k < n ==> #[trigger] self.cell_btns@[k] == s.cell_btns@[k],
            decreases n - i,
        {
            let row: usize = i / COLS;
            if row >= self.scroll_row && row - self.scroll_row < VISIBLE_ROWS {
                let mut state = self.cell_btns[i];
                if button(cell_rect(i, self.scroll_row), &mut state, touches, true) {
                    hit = Some(i);
                }
                self.cell_btns[i] = state;
            }
            i += 1;
        }
        assert(self.cell_btns@ =~= Seq::new(
            s.cell_btns@.len(),
            |i: int| s.cell_pressed(touches@, i),
        ));
        match hit {
            Some(i) => {
                self.cursor = i;
            },
            None => {},
        }
        hit
    }
}

impl Default for FilePicker {
    fn default() -> (r: FilePicker)
        ensures
            r.wf(),
            r.fresh(),
    {
        FilePicker::new()
    }
}

/// Shortens a name to the width of a cell, from the front: each offer is
/// measured and answered.
pub struct LabelFit {
    text: Vec<char>,
    /// The characters that fit so far; `None` while the whole name is on
    /// offer.
    keep: Option<usize>,
}

impl LabelFit {
    /// The name.
    pub closed spec fn source(&self) -> Seq<char> {
        self.text@
    }

    /// The characters that fit so far.
    pub closed spec fn kept(&self) -> Option<int> {
        match self.keep {
            Some(k) => Some(k as int),
            None => None,
        }
    }

    /// There is another character to try.
    pub closed spec fn wf(&self) -> bool {
        match self.keep {
            Some(k) => k < self.text@.len(),
            None => true,
        }
    }

    /// What is on offer: the whole name, or one character more than fits so
    /// far and an ellipsis.
    pub open spec fn offered(&self) -> Seq<char> {
        match self.kept() {
            None => self.source(),
            Some(k) => ellipsized(self.source(), k + 1),
        }
    }

    /// Starts with the whole name on offer.
    pub fn start(text: &str) -> (r: LabelFit)
        ensures
            r.wf(),
            r.source() == text@,
            r.kept() is None,
    {
        LabelFit { text: chars_of(text), keep: None }
    }

    /// The text on offer.
    pub fn offer(&self) -> (r: String)
        requires
            self.wf(),
        ensures
            r@ == self.offered(),
    {
        let n: usize = self.text.len();
        match self.keep {
            None => {
                let r = string_of(&self.text, 0, self.text.len());
                assert(r@ =~= self.text@);
                r
            },
            Some(k) => {
                assert(k < n);
                let mut r = string_of(&self.text, 0, k + 1);
                r.push('…');
                r
            },
        }
    }

    /// Whether the offer fits leads to the next offer or to the final text.
    pub open spec fn fit_told(a: Self, b: Self, fits: bool, r: Option<String>) -> bool {
        &&& b.source() == a.source()
        &&& ({
            let text = a.source();
            match a.kept() {
                None => if fits {
                    r matches Some(t) && t@ == text
                } else if text.len() == 0 {
                    r matches Some(t) && t@ == ellipsized(text, 0)
                } else {
                    r is None && b.kept() == Some(0int)
                },
                Some(k) => if !fits {
                    r matches Some(t) && t@ == ellipsized(text, k)
                } else if k + 1 == text.len() {
                    r matches Some(t) && t@ == ellipsized(text, k + 1)
                } else {
                    r is None && b.kept() == Some(k + 1)
                },
            }
        })
    }

    /// Takes whether the offer fits. `Some` is the final text: the name, where
    /// it fits, else as much of it as fits with an ellipsis.
    pub fn answer(&mut self, fits: bool) -> (r: Option<String>)
        requires
            old(self).wf(),
        ensures
            final(self).wf(),
            Self::fit_told(*old(self), *final(self), fits, r),
    {
        let n: usize = self.text.len();
        let keep: usize = match self.keep {
            None => {
                if fits {
                    return Some(self.offer());
                }
                if self.text.len() > 0 {
                    self.keep = Some(0);
                    return None;
                }
                0
            },
            Some(k) => {
                assert(k < n);
                if fits && k + 1 < n {
                    self.keep = Some(k + 1);
                    return None;
                }
                if fits {
                    k + 1
                } else {
                    k
                }
            },
        };
        let mut t = string_of(&self.text, 0, keep);
        t.push('…');
        Some(t)
    }
}

/// However the cursor moves, it stays on a cell, and its row shows.
pub proof fn lemma_cursor_stays(cursor: int, pad: PadFrame, len: int, scroll_row: int)
    requires
        0 <= cursor < len,
        0 <= scroll_row,
    ensures
        0 <= cursor_moved(cursor, pad, len) < len,
        ({
            let c = cursor_moved(cursor, pad, len);
            cell_shows(c, row_followed(c, scroll_row))
        }),
{
}

/// The shoulder buttons undo each other on a shortcut.
pub proof fn lemma_shoulders_undo(i: int)
    requires
        0 <= i < 3,
    ensures
        next_shortcut(shortcut_root(next_shortcut(shortcut_root(i), true)), false) == i,
        next_shortcut(shortcut_root(next_shortcut(shortcut_root(i), false)), true) == i,
{
    lemma_shortcuts_differ();
    reveal_with_fuel(shortcut_at, 4);
}

proof fn lemma_shortcuts_differ()
    ensures
        shortcut_root(0) != shortcut_root(1),
        shortcut_root(0) != shortcut_root(2),
        shortcut_root(1) != shortcut_root(2),
{
    reveal_strlit("ux0:picture/");
    reveal_strlit("ux0:download/");
    reveal_strlit("ux0:");
    assert("ux0:picture/"@.len() == 12);
    assert("ux0:download/"@.len() == 13);
    assert("ux0:"@.len() == 4);
}

/// A name that fits is shown whole; one that does not is cut and ends in an
/// ellipsis. The next offer keeps one character more, until it no longer fits.
pub proof fn lemma_label_fits(a: LabelFit, b: LabelFit, fits: bool, r: Option<String>)
    requires
        a.wf(),
        LabelFit::fit_told(a, b, fits, r),
    ensures
        b.source() == a.source(),
        a.kept() is None && fits ==> r is Some && (r->0)@ == a.source(),
        r matches Some(t) ==> t@ != a.source() ==> t@.len() > 0 && t@.last() == '…' && t@.len() - 1
            <= a.source().len() && t@.drop_last() == a.source().take(t@.len() - 1),
        r is None ==> b.kept() == Some(
            match a.kept() {
                None => 0int,
                Some(k) => k + 1,
            },
        ),
{
    if let Some(t) = r {
        if t@ != a.source() {
            assert(t@.drop_last() =~= a.source().take(t@.len() - 1));
        }
    }
}

} // verus!
