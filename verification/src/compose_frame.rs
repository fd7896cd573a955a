//! One frame of the compose screen: which part of it runs, and in which order
//! the steps of the editor are taken.

use vstd::prelude::*;

use crate::compose::{ComposeScreen, HeaderOutcome, KeyboardRequest, StripOutcome};
#[allow(unused_imports)]
use crate::compose::{
    area_followed, begun, header_followed, ime_taken, removal, strip_handled, thread_followed,
    view_opened,
};
use crate::conversation::ImeEvent;
use crate::requests::WorkRequest;
use crate::screen::ScreenAction;
use crate::widget::{PadFrame, TouchPoint};

verus! {

/// The part of the screen that a frame belongs to. Each takes the whole frame.
#[derive(Copy, Clone, Debug, PartialEq, Eq, Structural)]
pub enum ComposePart {
    /// The draft is published: the screen is left.
    Leave,
    Picker,
    Camera,
    /// A picture on the whole display.
    View,
    Editor,
}

/// How a frame starts.
#[derive(Copy, Clone, Debug, PartialEq, Eq, Structural)]
pub struct ComposeStart {
    pub part: ComposePart,
    /// The keyboard is to be closed.
    pub close: bool,
}

/// What the editor asks for.
#[derive(Debug)]
pub struct ComposeEdit {
    pub action: ScreenAction,
    pub request: Option<WorkRequest>,
    /// A keyboard is to be opened.
    pub keyboard: Option<KeyboardRequest>,
    pub open_camera: bool,
}

/// The part that is on display: the picker over the camera over a picture over
/// the editor.
pub open spec fn part_of(s: ComposeScreen) -> ComposePart {
    if s.picker is Some {
        ComposePart::Picker
    } else if s.camera is Some {
        ComposePart::Camera
    } else if s.viewing is Some {
        ComposePart::View
    } else {
        ComposePart::Editor
    }
}

/// How a frame starts by its steps: what the last frame was done with is let go
/// of (which leaves the screen as `m`), then the keyboard is heard.
pub open spec fn start_steps(
    a: ComposeScreen,
    m: ComposeScreen,
    b: ComposeScreen,
    event: ImeEvent,
    out: ComposeStart,
) -> bool {
    &&& begun(a, m)
    &&& ime_taken(m, b, event)
    &&& out == (ComposeStart { part: part_of(b), close: !(event is Idle) })
}

/// How a frame starts. A published draft is left at once, and the keyboard is
/// not heard then.
pub open spec fn frame_started(
    a: ComposeScreen,
    b: ComposeScreen,
    event: ImeEvent,
    out: ComposeStart,
) -> bool {
    if a.done {
        b == a && out == (ComposeStart { part: ComposePart::Leave, close: false })
    } else {
        exists|m: ComposeScreen| #[trigger] start_steps(a, m, b, event, out)
    }
}

/// The editor by its steps, where the circle does not leave it: the header
/// (which leaves the screen as `h`), and unless that leaves it the thread bar
/// (`t`), the text area (`w`) and the strip of pictures.
pub open spec fn edit_steps(
    a: ComposeScreen,
    h: ComposeScreen,
    t: ComposeScreen,
    w: ComposeScreen,
    b: ComposeScreen,
    pad: PadFrame,
    touches: Seq<TouchPoint>,
    ime_active: bool,
    has_worker: bool,
    head: HeaderOutcome,
    strip: StripOutcome,
    out: ComposeEdit,
) -> bool {
    let on = !ime_active && !(a.state is Submitting);
    &&& header_followed(a, h, touches, on, has_worker, head)
    &&& out.request == head.request
    &&& if head.cancel {
        &&& b == h
        &&& out.action is Pop
        &&& out.keyboard is None
        &&& !out.open_camera
    } else {
        &&& thread_followed(h, t, pad, touches, on)
        &&& area_followed(t, w, touches, on, out.keyboard)
        &&& strip_handled(w, b, touches, on, strip)
        &&& out.action is Stay
        &&& out.open_camera == strip.open_camera
    }
}

/// One frame of the editor. While the keyboard is closed the circle leaves it
/// before anything else. While it is open, or the draft is being posted, no
/// button but the one that posts can be pressed.
pub open spec fn edited(
    a: ComposeScreen,
    b: ComposeScreen,
    pad: PadFrame,
    touches: Seq<TouchPoint>,
    ime_active: bool,
    has_worker: bool,
    out: ComposeEdit,
) -> bool {
    if !ime_active && pad.circle {
        &&& b == a
        &&& out.action is Pop
        &&& out.request is None
        &&& out.keyboard is None
        &&& !out.open_camera
    } else {
        exists|
            h: ComposeScreen,
            t: ComposeScreen,
            w: ComposeScreen,
            head: HeaderOutcome,
            strip: StripOutcome,
        | #[trigger]
            edit_steps(a, h, t, w, b, pad, touches, ime_active, has_worker, head, strip, out)
    }
}

impl ComposeScreen {
    /// Starts a frame with what the keyboard reports.
    pub fn frame_start(&mut self, event: ImeEvent) -> (r: ComposeStart)
        requires
            old(self).wf(),
        ensures
            final(self).wf(),
            frame_started(*old(self), *final(self), event, r),
    {
        if self.begin_frame() {
            return ComposeStart { part: ComposePart::Leave, close: false };
        }
        let ghost m = *self;
        let ghost e = event;
        let close = self.take_ime(event);
        let part = if self.picker.is_some() {
            ComposePart::Picker
        } else if self.camera.is_some() {
            ComposePart::Camera
        } else if self.viewing.is_some() {
            ComposePart::View
        } else {
            ComposePart::Editor
        };
        let r = ComposeStart { part, close };
        assert(start_steps(*old(self), m, *self, e, r));
        r
    }

    /// One frame of the editor.
    pub fn edit_frame(
        &mut self,
        pad: &PadFrame,
        touches: &Vec<TouchPoint>,
        ime_active: bool,
        has_worker: bool,
    ) -> (r: ComposeEdit)
        requires
            old(self).wf(),
        ensures
            final(self).wf(),
            edited(*old(self), *final(self), *pad, touches@, ime_active, has_worker, r),
    {
        if !ime_active && pad.circle {
            return ComposeEdit {
                action: ScreenAction::Pop,
                request: None,
                keyboard: None,
                open_camera: false,
            };
        }
        let on = self.interactive(ime_active);
        let head = self.header(touches, on, has_worker);
        let ghost h = *self;
        let ghost g = head;
        if head.cancel {
            let r = ComposeEdit {
                action: ScreenAction::Pop,
                request: head.request,
                keyboard: None,
                open_camera: false,
            };
            assert(edit_steps(
                *old(self),
                h,
                h,
                h,
                *self,
                *pad,
                touches@,
                ime_active,
                has_worker,
                g,
                StripOutcome { open_camera: false },
                r,
            ));
            return r;
        }
        self.thread_bar(pad, touches, on);
        let ghost t = *self;
        let keyboard = self.text_area(touches, on);
        let ghost w = *self;
        let strip = self.attachment_strip(touches, on);
        let r = ComposeEdit {
            action: ScreenAction::Stay,
            request: head.request,
            keyboard,
            open_camera: strip.open_camera,
        };
        assert(edit_steps(
            *old(self),
            h,
            t,
            w,
            *self,
            *pad,
            touches@,
            ime_active,
            has_worker,
            g,
            strip,
            r,
        ));
        r
    }
}

/// The start of a frame keeps the draft within its limits: one to twenty-five
/// posts with at most four pictures each, one of them being written.
pub proof fn lemma_start_keeps_limits(
    a: ComposeScreen,
    b: ComposeScreen,
    event: ImeEvent,
    out: ComposeStart,
)
    requires
        a.wf(),
        frame_started(a, b, event, out),
    ensures
        1 <= b.draft.segments@.len() <= 25,
        b.draft.current < b.draft.segments@.len(),
        forall|i: int|
            0 <= i < b.draft.segments@.len() ==> (#[trigger] b.draft.segments@[i]).attachments@.len()
                <= 4,
{
}

/// A frame of the editor keeps the draft within its limits.
pub proof fn lemma_edit_keeps_limits(
    a: ComposeScreen,
    b: ComposeScreen,
    pad: PadFrame,
    touches: Seq<TouchPoint>,
    ime_active: bool,
    has_worker: bool,
    out: ComposeEdit,
)
    requires
        a.wf(),
        edited(a, b, pad, touches, ime_active, has_worker, out),
    ensures
        1 <= b.draft.segments@.len() <= 25,
        b.draft.current < b.draft.segments@.len(),
        forall|i: int|
            0 <= i < b.draft.segments@.len() ==> (#[trigger] b.draft.segments@[i]).attachments@.len()
                <= 4,
{
    if ime_active || !pad.circle {
        let (h, t, w, head, strip) = choose|
            h: ComposeScreen,
            t: ComposeScreen,
            w: ComposeScreen,
            head: HeaderOutcome,
            strip: StripOutcome,
        | #[trigger]
            edit_steps(a, h, t, w, b, pad, touches, ime_active, has_worker, head, strip, out);
        let was = h.draft.segments@;
        let is = b.draft.segments@;
        assert(was == a.draft.segments@);
        assert forall|i: int| 0 <= i < is.len() implies (#[trigger] is[i]).attachments@.len()
            <= 4 by {
            if !head.cancel && is.len() == was.len() + 1 {
                if i < was.len() {
                    assert(is.drop_last()[i] == was[i]);
                } else {
                    assert(i == b.draft.current);
                }
            } else if !head.cancel && is.len() + 1 == was.len() {
                assert(is[i] == was[i] || is[i] == was[i + 1]);
            } else {
                assert(is[i] == was[i]);
            }
        }
    }
}

/// The whole draft is handed over only where it can be posted, and it is being
/// posted from then on.
pub proof fn lemma_posts_when_ready(
    a: ComposeScreen,
    b: ComposeScreen,
    pad: PadFrame,
    touches: Seq<TouchPoint>,
    ime_active: bool,
    has_worker: bool,
    out: ComposeEdit,
)
    requires
        a.wf(),
        edited(a, b, pad, touches, ime_active, has_worker, out),
        out.request is Some,
    ensures
        a.postable(),
        has_worker,
        b.state is Submitting,
        out.action is Stay,
{
}

/// While a draft is being posted nothing of it changes, and it is not posted
/// again.
pub proof fn lemma_posting_keeps_draft(
    a: ComposeScreen,
    b: ComposeScreen,
    pad: PadFrame,
    touches: Seq<TouchPoint>,
    ime_active: bool,
    has_worker: bool,
    out: ComposeEdit,
)
    requires
        a.wf(),
        a.state is Submitting,
        edited(a, b, pad, touches, ime_active, has_worker, out),
    ensures
        b.draft == a.draft,
        b.state is Submitting,
        out.request is None,
        out.keyboard is None,
        !out.open_camera,
        b.picker == a.picker,
        b.viewing == a.viewing,
{
    if ime_active || !pad.circle {
        let (h, t, w, head, strip) = choose|
            h: ComposeScreen,
            t: ComposeScreen,
            w: ComposeScreen,
            head: HeaderOutcome,
            strip: StripOutcome,
        | #[trigger]
            edit_steps(a, h, t, w, b, pad, touches, ime_active, has_worker, head, strip, out);
        if !head.cancel {
            let n = w.draft.at().attachments@.len() as int;
            lemma_nothing_picked(w, touches, n);
        }
    }
}

proof fn lemma_nothing_picked(s: ComposeScreen, touches: Seq<TouchPoint>, n: int)
    ensures
        removal(
            s.btns.cells,
            s.draft.at().attachments@.len() as int,
            touches,
            false,
            n,
        ) is None,
        view_opened(
            s.btns.cells,
            s.draft.at().attachments@,
            touches,
            false,
            n,
        ) is None,
    decreases n,
{
    if n > 0 {
        lemma_nothing_picked(s, touches, n - 1);
    }
}

} // verus!
