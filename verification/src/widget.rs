//! Input and the rules shared by everything that can be tapped.
//!
//! A click is a touch that was inside a widget in the last frame, is inside
//! no longer, and is nowhere else either: the finger was lifted. Sliding a
//! finger out of a widget is no click.

use vstd::prelude::*;

#[allow(unused_imports)]
use vstd::utf8::encode_utf8;

use crate::text::{chars_of, owned, string_of};

verus! {

/// Width of the display in pixels.
pub const SCREEN_WIDTH: i32 = 960;

/// Height of the display in pixels.
pub const SCREEN_HEIGHT: i32 = 544;

/// Distance from the middle within which the analog stick counts as at rest.
pub const STICK_DEADZONE: i32 = 32;

/// One finger on the display.
#[derive(Copy, Clone, Debug)]
pub struct TouchPoint {
    pub x: i32,
    pub y: i32,
}

/// The buttons that went down in this frame, and the left stick's vertical
/// position.
#[derive(Copy, Clone, Debug)]
pub struct PadFrame {
    pub up: bool,
    pub down: bool,
    pub left: bool,
    pub right: bool,
    pub cross: bool,
    pub circle: bool,
    pub square: bool,
    pub triangle: bool,
    pub l1: bool,
    pub r1: bool,
    pub stick_y: i8,
}

impl Default for PadFrame {
    /// Nothing pressed, the stick at rest.
    fn default() -> (r: PadFrame)
        ensures
            r == (PadFrame {
                up: false,
                down: false,
                left: false,
                right: false,
                cross: false,
                circle: false,
                square: false,
                triangle: false,
                l1: false,
                r1: false,
                stick_y: 0,
            }),
    {
        PadFrame {
            up: false,
            down: false,
            left: false,
            right: false,
            cross: false,
            circle: false,
            square: false,
            triangle: false,
            l1: false,
            r1: false,
            stick_y: 0,
        }
    }
}

/// An axis-aligned rectangle in display pixels.
#[derive(Copy, Clone, Debug, PartialEq, Eq, Structural)]
pub struct Rect {
    pub x: i32,
    pub y: i32,
    pub w: i32,
    pub h: i32,
}

/// The point lies inside: the left and top edges count, the right and bottom
/// ones do not.
pub open spec fn inside(r: Rect, x: int, y: int) -> bool {
    r.x <= x < r.x + r.w && r.y <= y < r.y + r.h
}

/// Some touch lies inside `r`.
pub open spec fn touched(touches: Seq<TouchPoint>, r: Rect) -> bool {
    exists|i: int|
        0 <= i < touches.len() && inside(r, (#[trigger] touches[i]).x as int, touches[i].y as int)
}

impl Rect {
    /// The rectangle at `(x, y)` of size `w` by `h`.
    pub fn new(x: i32, y: i32, w: i32, h: i32) -> (r: Rect)
        ensures
            r == (Rect { x, y, w, h }),
    {
        Rect { x, y, w, h }
    }

    /// Whether the point lies inside.
    pub fn contains(&self, x: i32, y: i32) -> (r: bool)
        ensures
            r == inside(*self, x as int, y as int),
    {
        x >= self.x && (x as i64) < self.x as i64 + self.w as i64 && y >= self.y && (y as i64)
            < self.y as i64 + self.h as i64
    }

    /// Whether some touch lies inside.
    pub fn touched_by(&self, touches: &Vec<TouchPoint>) -> (r: bool)
        ensures
            r == touched(touches@, *self),
    {
        let mut i: usize = 0;
        while i < touches.len()
            invariant
                i <= touches@.len(),
                forall|k: int|
                    0 <= k < i ==> !inside(
                        *self,
                        (#[trigger] touches@[k]).x as int,
                        touches@[k].y as int,
                    ),
            decreases touches@.len() - i,
        {
            if self.contains(touches[i].x, touches[i].y) {
                return true;
            }
            i += 1;
        }
        false
    }
}

/// A position or a size that can be held.
pub open spec fn fits_px(n: int) -> bool {
    i32::MIN <= n <= i32::MAX
}

/// Whether a position or a size can be held.
pub(crate) fn px_fits(n: i64) -> (r: bool)
    ensures
        r == fits_px(n as int),
{
    i32::MIN as i64 <= n && n <= i32::MAX as i64
}

/// The touches of `touches` with `top <= y < bottom`, in order.
pub open spec fn touches_between(touches: Seq<TouchPoint>, top: int, bottom: int) -> Seq<
    TouchPoint,
> {
    touches.filter(|t: TouchPoint| top <= t.y < bottom)
}

/// The touches within a horizontal band of the display.
pub fn touches_in_band(touches: &Vec<TouchPoint>, top: i32, bottom: i32) -> (r: Vec<TouchPoint>)
    ensures
        r@ == touches_between(touches@, top as int, bottom as int),
{
    let mut r: Vec<TouchPoint> = Vec::new();
    let ghost keep = |t: TouchPoint| top <= t.y < bottom;
    let mut i: usize = 0;
    while i < touches.len()
        invariant
            i <= touches@.len(),
            keep == (|t: TouchPoint| top <= t.y < bottom),
            r@ == touches@.take(i as int).filter(keep),
        decreases touches@.len() - i,
    {
        let t = touches[i];
        proof {
            assert(touches@.take(i + 1).drop_last() =~= touches@.take(i as int));
            reveal_with_fuel(Seq::filter, 2);
        }
        if top <= t.y && t.y < bottom {
            r.push(t);
        }
        i += 1;
    }
    assert(touches@.take(touches@.len() as int) =~= touches@);
    r
}

/// What a tappable area remembers from one frame to the next.
#[derive(Copy, Clone, Debug, PartialEq, Eq, Structural)]
pub struct ButtonState {
    pub pressed_last: bool,
}

impl Default for ButtonState {
    /// Not pressed.
    fn default() -> (r: ButtonState)
        ensures
            r == (ButtonState { pressed_last: false }),
    {
        ButtonState { pressed_last: false }
    }
}

/// The frame in which a press ends as a click.
pub open spec fn clicked(enabled: bool, pressed_last: bool, pressed_now: bool, any_touch: bool) -> bool {
    enabled && pressed_last && !pressed_now && !any_touch
}

impl ButtonState {
    /// One frame of a tappable area: `pressed_now` tells whether a touch is
    /// inside it, `any_touch` whether there is one at all. A disabled area
    /// keeps track of the press and reports no click.
    pub fn track(&mut self, pressed_now: bool, any_touch: bool, enabled: bool) -> (r: bool)
        ensures
            r == clicked(enabled, old(self).pressed_last, pressed_now, any_touch),
            *final(self) == (ButtonState { pressed_last: pressed_now }),
    {
        let r = enabled && self.pressed_last && !pressed_now && !any_touch;
        self.pressed_last = pressed_now;
        r
    }
}

/// A button is clicked where a touch lifts off it.
pub open spec fn pressed(
    rect: Rect,
    state_before: ButtonState,
    state_after: ButtonState,
    touches: Vec<TouchPoint>,
    enabled: bool,
    r: bool,
) -> bool {
    &&& r == clicked(
        enabled,
        state_before.pressed_last,
        touched(touches@, rect),
        touches@.len() > 0,
    )
    &&& state_after == (ButtonState { pressed_last: touched(touches@, rect) })
}

/// One frame of a button: whether it was clicked.
pub fn button(rect: Rect, state: &mut ButtonState, touches: &Vec<TouchPoint>, enabled: bool) -> (r:
    bool)
    ensures
        pressed(rect, *old(state), *final(state), *touches, enabled, r),
{
    let pressed_now = rect.touched_by(touches);
    state.track(pressed_now, touches.len() > 0, enabled)
}

/// A text field: its value, whether it has the focus, and its press state.
pub struct FieldState {
    pub value: String,
    pub focused: bool,
    pub pressed_last: bool,
}

impl Default for FieldState {
    /// Empty, without focus.
    fn default() -> (r: FieldState)
        ensures
            r.value@ == Seq::<char>::empty(),
            !r.focused,
            !r.pressed_last,
    {
        FieldState { value: String::new(), focused: false, pressed_last: false }
    }
}

/// What a text field shows.
#[derive(Debug)]
pub struct FieldText {
    pub text: String,
    /// Drawn muted: the text is the placeholder.
    pub muted: bool,
}

/// The text that a field shows: the placeholder while it is empty, else its
/// value, or one bullet for each byte of it where it is masked.
pub open spec fn field_display(value: Seq<char>, placeholder: Seq<char>, mask: bool) -> Seq<char> {
    if value.len() == 0 {
        placeholder
    } else if mask {
        Seq::new(encode_utf8(value).len(), |i: int| '•')
    } else {
        value
    }
}

/// A field is clicked as a button is, and shows what it holds.
pub open spec fn field_read(
    rect: Rect,
    placeholder: Seq<char>,
    state_before: FieldState,
    state_after: FieldState,
    touches: Vec<TouchPoint>,
    mask: bool,
    enabled: bool,
    r: (bool, FieldText),
) -> bool {
    &&& r.0 == clicked(
        enabled,
        state_before.pressed_last,
        touched(touches@, rect),
        touches@.len() > 0,
    )
    &&& r.1.text@ == field_display(state_before.value@, placeholder, mask)
    &&& r.1.muted == (state_before.value@.len() == 0)
    &&& state_after == (FieldState {
        pressed_last: touched(touches@, rect),
        ..state_before
    })
}

/// One frame of a text field: whether it was tapped, and what it shows.
pub fn text_field(
    rect: Rect,
    placeholder: &str,
    state: &mut FieldState,
    touches: &Vec<TouchPoint>,
    mask: bool,
    enabled: bool,
) -> (r: (bool, FieldText))
    ensures
        field_read(rect, placeholder@, *old(state), *final(state), *touches, mask, enabled, r),
{
    let pressed_now = rect.touched_by(touches);
    let hit = enabled && state.pressed_last && !pressed_now && touches.len() == 0;
    state.pressed_last = pressed_now;
    let shown = if state.value.as_str().is_empty() {
        FieldText { text: owned(placeholder), muted: true }
    } else if mask {
        let bytes = state.value.as_str().as_bytes();
        let n: usize = bytes.len();
        let mut text = String::new();
        let mut i: usize = 0;
        while i < n
            invariant
                i <= n,
                text@ == Seq::new(i as nat, |k: int| '•'),
            decreases n - i,
        {
            text.push('•');
            assert(text@ =~= Seq::new((i + 1) as nat, |k: int| '•'));
            i += 1;
        }
        FieldText { text, muted: false }
    } else {
        FieldText { text: owned(state.value.as_str()), muted: false }
    };
    (hit, shown)
}

/// How far the stick is beyond its dead zone, with its sign: the number of
/// scroll units that one frame adds.
pub open spec fn stick_travel(stick: int) -> int {
    if stick > STICK_DEADZONE {
        stick - STICK_DEADZONE
    } else if stick < -STICK_DEADZONE {
        stick + STICK_DEADZONE
    } else {
        0
    }
}

/// The scroll units that the stick adds in this frame.
pub fn stick_scroll(pad: &PadFrame) -> (r: i32)
    ensures
        r == stick_travel(pad.stick_y as int),
{
    let s: i32 = pad.stick_y as i32;
    if s > STICK_DEADZONE {
        s - STICK_DEADZONE
    } else if s < -STICK_DEADZONE {
        s + STICK_DEADZONE
    } else {
        0
    }
}

/// What a truncation offers next: `keep` leading characters and an ellipsis.
pub open spec fn ellipsized(text: Seq<char>, keep: int) -> Seq<char> {
    text.subrange(0, keep).push('…')
}

/// Shortens a text until its drawn width fits. The widths come from whoever
/// can measure text: each [`Truncation::offer`] is measured and answered.
pub struct Truncation {
    text: Vec<char>,
    /// Leading characters of the current offer; `None` while the whole text
    /// is on offer.
    keep: Option<usize>,
}

impl Truncation {
    /// The text to be shortened.
    pub closed spec fn source(&self) -> Seq<char> {
        self.text@
    }

    /// The leading characters on offer, if the text is already shortened.
    pub closed spec fn kept(&self) -> Option<int> {
        match self.keep {
            Some(k) => Some(k as int),
            None => None,
        }
    }

    /// The offer never keeps more than the text has.
    pub closed spec fn wf(&self) -> bool {
        match self.keep {
            Some(k) => k <= self.text@.len(),
            None => true,
        }
    }

    /// Starts with the whole text on offer.
    pub fn start(text: &str) -> (r: Truncation)
        ensures
            r.wf(),
            r.source() == text@,
            r.kept() is None,
    {
        Truncation { text: chars_of(text), keep: None }
    }

    /// The text on offer.
    pub fn offer(&self) -> (r: String)
        requires
            self.wf(),
        ensures
            r@ == (match self.kept() {
                None => self.source(),
                Some(k) => ellipsized(self.source(), k),
            }),
    {
        match self.keep {
            None => {
                let r = string_of(&self.text, 0, self.text.len());
                assert(r@ =~= self.text@);
                r
            },
            Some(k) => {
                let mut r = string_of(&self.text, 0, k);
                r.push('…');
                r
            },
        }
    }

    /// The width of the offer leads to the next offer or to the final text.
    pub open spec fn cut_told(a: Self, b: Self, width: i32, max_w: i32, r: Option<String>) -> bool {
        &&& b.source() == a.source()
        &&& match r {
            Some(t) => {
                ||| width <= max_w && t@ == (match a.kept() {
                    None => a.source(),
                    Some(k) => ellipsized(a.source(), k),
                })
                ||| width > max_w && t@ == seq!['…'] && (match a.kept() {
                    None => a.source().len() == 0,
                    Some(k) => k == 0,
                })
            },
            None => width > max_w && b.kept() == Some(
                match a.kept() {
                    None => a.source().len() - 1,
                    Some(k) => k - 1,
                },
            ),
        }
    }

    /// Takes the measured width of the offer. `Some` is the final text: the
    /// offer, if it fits, or the bare ellipsis once nothing is left to drop.
    pub fn answer(&mut self, width: i32, max_w: i32) -> (r: Option<String>)
        requires
            old(self).wf(),
        ensures
            final(self).wf(),
            Self::cut_told(*old(self), *final(self), width, max_w, r),
    {
        if width <= max_w {
            return Some(self.offer());
        }
        let left: usize = match self.keep {
            None => self.text.len(),
            Some(k) => k,
        };
        if left == 0 {
            let mut t = String::new();
            t.push('…');
            assert(t@ =~= seq!['…']);
            return Some(t);
        }
        self.keep = Some(left - 1);
        None
    }
}

/// A press, whatever follows it, is never itself a click, and a click needs
/// the touch to have been inside one frame before.
pub proof fn lemma_click_needs_press_and_lift(
    enabled: bool,
    pressed_last: bool,
    pressed_now: bool,
    any_touch: bool,
)
    ensures
        clicked(enabled, pressed_last, pressed_now, any_touch) ==> pressed_last && !any_touch,
        pressed_now ==> !clicked(enabled, pressed_last, pressed_now, any_touch),
{
}

/// Sliding a finger out of a widget without lifting it fires no click, in
/// that frame or in any later one until the widget is pressed again.
pub proof fn lemma_slide_out_is_no_click(
    pressed_last: bool,
    later_any_touch: bool,
    later_enabled: bool,
)
    ensures
        !clicked(true, pressed_last, false, true),
        !clicked(later_enabled, false, false, later_any_touch),
{
}

} // verus!
