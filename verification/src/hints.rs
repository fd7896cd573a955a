//! The bar of control hints: shown on entering a screen, faded after a while,
//! brought back or dismissed by a button.

use vstd::prelude::*;

use crate::tabbar::TAB_BAR_HEIGHT;
#[allow(unused_imports)]
use crate::widget::fits_px;
use crate::widget::{px_fits, SCREEN_HEIGHT};

verus! {

/// Frames for which the bar stays after it was shown.
pub const HIDE_FRAMES: u32 = 180;

/// Height of the bar.
pub const HINT_BAR_H: i32 = 26;

/// Counts the frames since the bar was last shown.
pub struct HintOverlay {
    idle: u32,
}

/// Where one hint is drawn: the dot before it, its button and its action.
#[derive(Copy, Clone, Debug, PartialEq, Eq, Structural)]
pub struct HintSegment {
    pub dot_x: Option<i32>,
    pub button_x: i32,
    pub action_x: i32,
}

/// The widths of one hint's button and action.
#[derive(Copy, Clone, Debug, PartialEq, Eq, Structural)]
pub struct HintWidths {
    pub button_w: i32,
    pub action_w: i32,
}

/// Where the hint bar is drawn, and its hints in it.
#[derive(Debug)]
pub struct HintBar {
    pub y: i32,
    pub baseline: i32,
    pub segments: Vec<HintSegment>,
}

/// Where the drawing position stands behind the first `n` hints.
pub open spec fn hints_end(widths: Seq<HintWidths>, dot_w: int, n: int) -> int
    decreases n, 0int,
{
    if n <= 0 {
        12
    } else {
        hint_start(widths, dot_w, n - 1) + widths[n - 1].button_w + 4 + widths[n - 1].action_w
    }
}

/// Where the button of hint `i` starts.
pub open spec fn hint_start(widths: Seq<HintWidths>, dot_w: int, i: int) -> int
    decreases i, 1int,
{
    if i <= 0 {
        12
    } else {
        hints_end(widths, dot_w, i) + 8 + dot_w + 8
    }
}

/// Where hint `i` is drawn.
pub open spec fn hint_segment(widths: Seq<HintWidths>, dot_w: int, i: int) -> HintSegment {
    HintSegment {
        dot_x: if i > 0 {
            Some((hints_end(widths, dot_w, i) + 8) as i32)
        } else {
            None
        },
        button_x: hint_start(widths, dot_w, i) as i32,
        action_x: (hint_start(widths, dot_w, i) + widths[i].button_w + 4) as i32,
    }
}

/// The positions at which hint `i` is drawn, and the end behind it, can be
/// held.
pub open spec fn hint_fits(widths: Seq<HintWidths>, dot_w: int, i: int) -> bool {
    &&& i > 0 ==> fits_px(hints_end(widths, dot_w, i) + 8)
    &&& fits_px(hint_start(widths, dot_w, i))
    &&& fits_px(hint_start(widths, dot_w, i) + widths[i].button_w + 4)
    &&& fits_px(hints_end(widths, dot_w, i + 1))
}

/// The positions of all hints can be held.
pub open spec fn widths_ok(widths: Seq<HintWidths>, dot_w: int) -> bool {
    forall|i: int| 0 <= i < widths.len() ==> #[trigger] hint_fits(widths, dot_w, i)
}

/// Whether the positions of all hints can be held.
pub fn hints_fit(widths: &Vec<HintWidths>, dot_w: i32) -> (r: bool)
    ensures
        r == widths_ok(widths@, dot_w as int),
{
    let mut cx: i64 = 12;
    let mut i: usize = 0;
    while i < widths.len()
        invariant
            i <= widths@.len(),
            fits_px(cx as int),
            cx == hints_end(widths@, dot_w as int, i as int),
            forall|k: int| 0 <= k < i ==> #[trigger] hint_fits(widths@, dot_w as int, k),
        decreases widths@.len() - i,
    {
        let start: i64 = if i > 0 {
            cx + 8 + dot_w as i64 + 8
        } else {
            cx
        };
        let action_x: i64 = start + widths[i].button_w as i64 + 4;
        let end: i64 = action_x + widths[i].action_w as i64;
        let fits = (i == 0 || px_fits(cx + 8)) && px_fits(start) && px_fits(action_x) && px_fits(
            end,
        );
        assert(fits == hint_fits(widths@, dot_w as int, i as int));
        if !fits {
            return false;
        }
        cx = end;
        i += 1;
    }
    true
}

impl Default for HintOverlay {
    fn default() -> (r: HintOverlay)
        ensures
            r.idle_frames() == 0,
    {
        HintOverlay::new()
    }
}

impl HintOverlay {
    /// Frames since the bar was last shown.
    pub closed spec fn idle_frames(&self) -> int {
        self.idle as int
    }

    /// The bar shows.
    pub open spec fn shows(&self) -> bool {
        self.idle_frames() < HIDE_FRAMES
    }

    /// A bar that was just shown.
    pub open spec fn just_shown(r: HintOverlay) -> bool {
        &&& r.idle_frames() == 0
        &&& r.shows()
    }

    /// Visible, for the first screen.
    pub fn new() -> (r: HintOverlay)
        ensures
            Self::just_shown(r),
    {
        HintOverlay { idle: 0 }
    }

    /// Shows the bar and starts its time anew.
    pub fn show(&mut self)
        ensures
            Self::just_shown(*final(self)),
    {
        self.idle = 0;
    }

    /// The bar shows where it did not, and the other way round.
    pub open spec fn toggled(a: Self, b: Self) -> bool {
        &&& b.shows() == !a.shows()
        &&& b.idle_frames() == (if a.shows() {
            HIDE_FRAMES as int
        } else {
            0
        })
    }

    /// Hides the bar where it shows, and shows it where it does not.
    pub fn toggle(&mut self)
        ensures
            Self::toggled(*old(self), *final(self)),
    {
        if self.visible() {
            self.idle = HIDE_FRAMES;
        } else {
            self.idle = 0;
        }
    }

    /// A frame without a touch passes.
    pub open spec fn ticks(a: Self, b: Self) -> bool {
        &&& b.idle_frames() == ticked(a.idle_frames())
        &&& !a.shows() ==> !b.shows()
    }

    /// One frame passes.
    pub fn tick(&mut self)
        ensures
            Self::ticks(*old(self), *final(self)),
    {
        self.idle = self.idle.saturating_add(1);
    }

    /// Whether the bar shows.
    pub fn visible(&self) -> (r: bool)
        ensures
            r == self.shows(),
    {
        self.idle < HIDE_FRAMES
    }

    /// The bar is drawn while it shows and has something to say.
    pub open spec fn drawn(
        s: Self,
        widths: Vec<HintWidths>,
        dot_w: i32,
        has_tab_bar: bool,
        r: Option<HintBar>,
    ) -> bool {
        &&& r is Some == (s.shows() && widths@.len() > 0)
        &&& r matches Some(bar) ==> {
            &&& bar.y == (if has_tab_bar {
                458int
            } else {
                518
            })
            &&& bar.baseline == bar.y + 18
            &&& bar.segments@ == Seq::new(
                widths@.len(),
                |i: int| hint_segment(widths@, dot_w as int, i),
            )
        }
    }

    /// Where the bar is drawn, for hints of the given widths: nowhere while it
    /// is hidden or a screen has no hints; above the tab bar where there is
    /// one, at the bottom of the display otherwise.
    pub fn draw(&self, widths: &Vec<HintWidths>, dot_w: i32, has_tab_bar: bool) -> (r: Option<
        HintBar,
    >)
        requires
            self.shows() ==> widths_ok(widths@, dot_w as int),
        ensures
            Self::drawn(*self, *widths, dot_w, has_tab_bar, r),
    {
        if !self.visible() || widths.len() == 0 {
            return None;
        }
        let y: i32 = if has_tab_bar {
            SCREEN_HEIGHT - TAB_BAR_HEIGHT - HINT_BAR_H
        } else {
            SCREEN_HEIGHT - HINT_BAR_H
        };
        let mut segments: Vec<HintSegment> = Vec::new();
        let mut cx: i32 = 12;
        let mut i: usize = 0;
        while i < widths.len()
            invariant
                i <= widths@.len(),
                widths_ok(widths@, dot_w as int),
                cx == hints_end(widths@, dot_w as int, i as int),
                segments@.len() == i,
                forall|k: int|
                    0 <= k < i ==> #[trigger] segments@[k] == hint_segment(
                        widths@,
                        dot_w as int,
                        k,
                    ),
            decreases widths@.len() - i,
        {
            assert(hint_fits(widths@, dot_w as int, i as int));
            let mut dot_x: Option<i32> = None;
            let mut at: i64 = cx as i64;
            if i > 0 {
                dot_x = Some((at + 8) as i32);
                at = at + 8 + dot_w as i64 + 8;
            }
            let button_x: i32 = at as i32;
            at = at + widths[i].button_w as i64 + 4;
            let action_x: i32 = at as i32;
            cx = (at + widths[i].action_w as i64) as i32;
            segments.push(HintSegment { dot_x, button_x, action_x });
            i += 1;
        }
        assert(segments@ =~= Seq::new(
            widths@.len(),
            |i: int| hint_segment(widths@, dot_w as int, i),
        ));
        Some(HintBar { y, baseline: y + HINT_BAR_H - 8, segments })
    }
}

/// The idle frames one frame later.
pub open spec fn ticked(idle: int) -> int {
    if idle < u32::MAX {
        idle + 1
    } else {
        idle
    }
}

/// The idle frames `n` frames later.
pub open spec fn idle_after(idle: int, n: nat) -> int
    decreases n,
{
    if n == 0 {
        idle
    } else {
        ticked(idle_after(idle, (n - 1) as nat))
    }
}

/// A bar that was just shown stays for [`HIDE_FRAMES`] frames and is hidden
/// ever after: only showing or toggling brings it back.
pub proof fn lemma_bar_fades(n: nat)
    ensures
        idle_after(0, n) < HIDE_FRAMES <==> n < HIDE_FRAMES,
{
    lemma_idle_after(n);
}

proof fn lemma_idle_after(n: nat)
    ensures
        idle_after(0, n) == (if n < u32::MAX {
            n as int
        } else {
            u32::MAX as int
        }),
    decreases n,
{
    if n > 0 {
        lemma_idle_after((n - 1) as nat);
    }
}

} // verus!
