//! The full-screen picture viewer.
//!
//! It shows the full-size picture, or the small one while that is under way,
//! with its description in a band at the bottom. Left and right page through
//! the pictures of a post; a button or a tap closes it.

use vstd::prelude::*;

use crate::embeds::ViewerImage;
use crate::requests::{WorkRequest, WorkResponse};
use crate::screen::ScreenAction;
use crate::text::{decimal_text, is_text, owned};
#[allow(unused_imports)]
use crate::text::{decimal, opt_view};
use crate::widget::{PadFrame, TouchPoint, SCREEN_HEIGHT};

verus! {

pub const BAR_H: i32 = 30;

pub const ALT_BAND_H: i32 = 44;

/// The viewer: the pictures of a post and which of them is shown.
pub struct ImageViewerScreen {
    pub images: Vec<ViewerImage>,
    pub index: usize,
    /// The full-size picture that was asked for.
    pub inflight: Option<String>,
    pub close_pressed_last: bool,
    /// A tap closes only once the touch that opened the viewer has been
    /// lifted.
    pub armed: bool,
}

/// What a frame of the viewer asks for.
#[derive(Debug)]
pub struct ViewerFrame {
    pub request: Option<WorkRequest>,
    pub action: ScreenAction,
}

/// Some touch lies strictly between two heights.
pub open spec fn touch_between(touches: Seq<TouchPoint>, top: int, bottom: int) -> bool {
    exists|i: int| 0 <= i < touches.len() && top < (#[trigger] touches[i]).y < bottom
}

fn any_between(touches: &Vec<TouchPoint>, top: i32, bottom: i32) -> (r: bool)
    ensures
        r == touch_between(touches@, top as int, bottom as int),
{
    let mut i: usize = 0;
    while i < touches.len()
        invariant
            i <= touches@.len(),
            forall|k: int| 0 <= k < i ==> !(top < (#[trigger] touches@[k]).y < bottom),
        decreases touches@.len() - i,
    {
        if top < touches[i].y && touches[i].y < bottom {
            return true;
        }
        i += 1;
    }
    false
}

/// What a frame makes of the viewer, and what comes of it. A tap that was let go
/// closes the viewer, as do the circle and the cross.
pub open spec fn viewed(
    a: ImageViewerScreen,
    b: ImageViewerScreen,
    pad: PadFrame,
    touches: Seq<TouchPoint>,
    cached: bool,
    has_worker: bool,
    r: ViewerFrame,
) -> bool {
    if a.images@.len() == 0 {
        b == a && r.request is None && r.action is Pop
    } else {
        let shown = a.images@[a.index as int];
        let asks = a.must_fetch(cached, has_worker);
        let tapped = a.close_pressed_last && !a.touch_on_image(touches) && touches.len() == 0;
        &&& r.request == (if asks {
            Some(WorkRequest::FetchImage { url: shown.fullsize })
        } else {
            None
        })
        &&& r.action == (if tapped || pad.circle || pad.cross {
            ScreenAction::Pop
        } else {
            ScreenAction::Stay
        })
        &&& b.images == a.images
        &&& b.inflight == (if asks {
            Some(shown.fullsize)
        } else {
            a.inflight
        })
        &&& b.index == a.paged(pad)
        &&& b.armed == (a.armed || touches.len() == 0)
        &&& b.close_pressed_last == a.touch_on_image(touches)
    }
}

impl ImageViewerScreen {
    /// The shown picture is one of them, where there are any.
    pub open spec fn wf(&self) -> bool {
        self.images@.len() == 0 || self.index < self.images@.len()
    }

    /// A viewer that was just opened at a picture.
    pub open spec fn opened(images: Vec<ViewerImage>, index: usize, r: ImageViewerScreen) -> bool {
        &&& r.images == images
        &&& r.index == (if images@.len() == 0 {
            0
        } else if index < images@.len() {
            index as int
        } else {
            images@.len() - 1
        })
        &&& r.inflight is None
        &&& !r.close_pressed_last
        &&& !r.armed
    }

    /// Opens the viewer on a picture; the last one where the index is too big.
    pub fn new(images: Vec<ViewerImage>, index: usize) -> (r: ImageViewerScreen)
        ensures
            r.wf(),
            Self::opened(images, index, r),
    {
        let last: usize = if images.len() == 0 {
            0
        } else {
            images.len() - 1
        };
        let index: usize = if index < last {
            index
        } else {
            last
        };
        ImageViewerScreen { images, index, inflight: None, close_pressed_last: false, armed: false }
    }

    /// The height of the band with the description of the shown picture.
    pub open spec fn band(&self) -> int {
        if self.images@[self.index as int].alt@.len() == 0 {
            0
        } else {
            ALT_BAND_H as int
        }
    }

    /// The height of the band with the description of the shown picture.
    pub fn band_h(&self) -> (r: i32)
        requires
            self.wf(),
            self.images@.len() > 0,
        ensures
            r == self.band(),
    {
        if self.images[self.index].alt.as_str().is_empty() {
            0
        } else {
            ALT_BAND_H
        }
    }

    /// The index after the left and right buttons.
    pub open spec fn paged(&self, pad: PadFrame) -> int {
        let n = self.images@.len() as int;
        let a = if n > 1 && pad.left && self.index > 0 {
            self.index - 1
        } else {
            self.index as int
        };
        if n > 1 && pad.right && a + 1 < n {
            a + 1
        } else {
            a
        }
    }

    /// The full-size picture has to be asked for.
    pub open spec fn must_fetch(&self, cached: bool, has_worker: bool) -> bool {
        !cached && has_worker && opt_view(self.inflight) != Some(
            self.images@[self.index as int].fullsize@,
        )
    }

    /// A touch rests on the picture, and taps count already.
    pub open spec fn touch_on_image(&self, touches: Seq<TouchPoint>) -> bool {
        (self.armed || touches.len() == 0) && touch_between(
            touches,
            BAR_H as int,
            SCREEN_HEIGHT - self.band(),
        )
    }

    /// One frame. `cached` tells whether the full-size picture is at hand.
    pub fn frame(
        &mut self,
        pad: &PadFrame,
        touches: &Vec<TouchPoint>,
        cached: bool,
        has_worker: bool,
    ) -> (r: ViewerFrame)
        requires
            old(self).wf(),
        ensures
            final(self).wf(),
            viewed(*old(self), *final(self), *pad, touches@, cached, has_worker, r),
    {
        if self.images.len() == 0 {
            return ViewerFrame { request: None, action: ScreenAction::Pop };
        }
        let mut request: Option<WorkRequest> = None;
        let bottom: i32 = SCREEN_HEIGHT - self.band_h();
        if !cached && !is_text(&self.inflight, self.images[self.index].fullsize.as_str())
            && has_worker {
            let url = self.images[self.index].fullsize.clone();
            self.inflight = Some(url.clone());
            request = Some(WorkRequest::FetchImage { url });
        }
        let n: usize = self.images.len();
        if n > 1 {
            if pad.left && self.index > 0 {
                self.index = self.index - 1;
            }
            if pad.right && self.index + 1 < n {
                self.index = self.index + 1;
            }
        }
        if touches.len() == 0 {
            self.armed = true;
        }
        let on_image = self.armed && any_between(touches, BAR_H, bottom);
        let tapped = self.close_pressed_last && !on_image && touches.len() == 0;
        self.close_pressed_last = on_image;
        let action = if tapped || pad.circle || pad.cross {
            ScreenAction::Pop
        } else {
            ScreenAction::Stay
        };
        ViewerFrame { request, action }
    }

    /// Which picture is shown, and what the buttons do.
    pub open spec fn hint_told(s: Self, r: String) -> bool {
        r@ == (if s.images@.len() > 1 {
            decimal((s.index + 1) as nat) + " / "@ + decimal(s.images@.len())
                + "    O / X close    ← → switch"@
        } else {
            "O / X close"@
        })
    }

    /// The line in the top bar: which picture of how many, and the controls.
    pub fn hint(&self) -> (r: String)
        requires
            self.wf(),
        ensures
            Self::hint_told(*self, r),
    {
        if self.images.len() > 1 {
            let mut r = decimal_text((self.index + 1) as u64);
            let n = decimal_text(self.images.len() as u64);
            r.append(" / ");
            r.append(n.as_str());
            r.append("    O / X close    ← → switch");
            r
        } else {
            owned("O / X close")
        }
    }

    /// The picture that was waited for came, or failed.
    pub open spec fn responded(a: Self, b: Self, resp: WorkResponse) -> bool {
        b == (ImageViewerScreen {
            inflight: if resp matches WorkResponse::Image { url, .. } && opt_view(
                a.inflight,
            ) == Some(url@) {
                None
            } else {
                a.inflight
            },
            ..a
        })
    }

    /// Takes an answer of the worker: a picture that has come is no longer
    /// under way.
    pub fn handle_worker_response(&mut self, resp: WorkResponse)
        requires
            old(self).wf(),
        ensures
            final(self).wf(),
            Self::responded(*old(self), *final(self), resp),
    {
        match resp {
            WorkResponse::Image { url, .. } => {
                if is_text(&self.inflight, url.as_str()) {
                    self.inflight = None;
                }
            },
            _ => {},
        }
    }
}

/// The touch that opened the viewer cannot close it: as long as it has not
/// been lifted, no touch counts, and the frame in which it is lifted closes
/// nothing.
pub proof fn lemma_opening_touch_never_closes(
    a: ImageViewerScreen,
    b: ImageViewerScreen,
    pad: PadFrame,
    touches: Seq<TouchPoint>,
    cached: bool,
    has_worker: bool,
    r: ViewerFrame,
)
    requires
        viewed(a, b, pad, touches, cached, has_worker, r),
        a.images@.len() > 0,
        !a.armed,
        !a.close_pressed_last,
        !pad.circle && !pad.cross,
    ensures
        r.action is Stay,
        !b.close_pressed_last,
        b.armed == (touches.len() == 0),
{
}

} // verus!
