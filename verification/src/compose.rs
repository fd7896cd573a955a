//! The compose screen: a new post, a reply, or a thread of posts, with
//! pictures.
//!
//! A tap on the text opens the keyboard. Posting sends the whole draft and
//! leaves the screen once it is published; where that fails, the error is
//! shown and the draft stays.

use vstd::prelude::*;

use crate::camera::{CameraCapture, CameraResult};
#[allow(unused_imports)]
use crate::camera::{device_opened, CameraDevice, CameraMode};
use crate::compose_draft::{
    Attachment, Draft, PreparedImage, MAX_IMAGES, MAX_SEGMENTS, POST_LIMIT,
};
#[allow(unused_imports)]
use crate::compose_draft::{image_taken, others_kept, thread_sent, Segment};
use crate::conversation::ImeEvent;
use crate::file_picker::{FilePicker, PickResult};
#[allow(unused_imports)]
use crate::file_picker::ThumbState;
use crate::requests::{ReplyTarget, WorkRequest, WorkResponse};
use crate::text::{decimal_text, head_chars, join2, join3, owned};
#[allow(unused_imports)]
use crate::text::{decimal, first_chars};
use crate::widget::{
    button, touches_in_band, ButtonState, PadFrame, Rect, TouchPoint, SCREEN_HEIGHT, SCREEN_WIDTH,
};
#[allow(unused_imports)]
use crate::widget::{clicked, touched, touches_between};

verus! {

/// The most characters a description may have.
pub const ALT_LIMIT: usize = 1000;

/// Size of the small pictures in the strip.
pub const STRIP_THUMB_W: i32 = 104;

pub const STRIP_THUMB_H: i32 = 78;

/// How far a draft has come.
pub enum ComposeState {
    Editing,
    Submitting,
    Error(String),
}

/// The press states of the screen's buttons.
pub struct ComposeButtons {
    pub cancel: ButtonState,
    pub post: ButtonState,
    pub text_area: ButtonState,
    pub add_image: ButtonState,
    pub camera: ButtonState,
    pub prev_seg: ButtonState,
    pub next_seg: ButtonState,
    pub add_seg: ButtonState,
    pub remove_seg: ButtonState,
    pub cells: CellButtons,
    pub full_close: ButtonState,
    pub edit_alt: ButtonState,
}

/// The press states of the pictures: their bodies, and the corners that drop
/// them.
pub struct CellButtons {
    pub thumbs: Vec<ButtonState>,
    pub removes: Vec<ButtonState>,
}

/// No button is pressed.
pub open spec fn nothing_pressed(b: ComposeButtons) -> bool {
    &&& !b.cancel.pressed_last && !b.post.pressed_last && !b.text_area.pressed_last
    &&& !b.add_image.pressed_last && !b.camera.pressed_last
    &&& !b.prev_seg.pressed_last && !b.next_seg.pressed_last
    &&& !b.add_seg.pressed_last && !b.remove_seg.pressed_last
    &&& !b.full_close.pressed_last && !b.edit_alt.pressed_last
    &&& forall|i: int| 0 <= i < 4 ==> !(#[trigger] b.cells.thumbs@[i]).pressed_last
    &&& forall|i: int| 0 <= i < 4 ==> !(#[trigger] b.cells.removes@[i]).pressed_last
}

/// What was drawn in a frame is let go of in the next one only.
pub struct Deferred {
    pub camera_close: bool,
    pub picker_close: bool,
    pub remove: Option<usize>,
}

/// A draft on screen.
pub struct ComposeScreen {
    pub reply_to: Option<ReplyTarget>,
    /// Whom it replies to.
    pub reply_handle: Option<String>,
    pub draft: Draft,
    pub state: ComposeState,
    pub btns: ComposeButtons,
    pub picker: Option<FilePicker>,
    pub camera: Option<CameraCapture>,
    pub deferred: Deferred,
    /// The picture that is shown on the whole display.
    pub viewing: Option<usize>,
    /// The keyboard is open for a description.
    pub editing_alt: bool,
    /// The draft is published: the next frame leaves.
    pub done: bool,
}

/// A keyboard to be opened.
#[derive(Debug)]
pub struct KeyboardRequest {
    pub title: String,
    pub limit: usize,
    pub initial: String,
}

/// What the header asks for.
#[derive(Debug)]
pub struct HeaderOutcome {
    pub cancel: bool,
    pub request: Option<WorkRequest>,
}

/// What the strip of pictures asks for.
#[derive(Copy, Clone, Debug, PartialEq, Eq, Structural)]
pub struct StripOutcome {
    /// Open the camera.
    pub open_camera: bool,
}

/// Where the thread bar lies: below the header, and below the line that names
/// whom it replies to.
pub open spec fn bar_y(reply_handle: Option<String>) -> int {
    if reply_handle is Some {
        96
    } else {
        68
    }
}

/// Height of the strip of pictures.
pub open spec fn strip_h(n: int) -> int {
    if n == 0 {
        44
    } else {
        94
    }
}

/// Where the strip of pictures lies.
pub open spec fn strip_y(n: int) -> int {
    500 - strip_h(n)
}

/// The text area: between the thread bar and the strip.
pub open spec fn area_rect(reply_handle: Option<String>, n: int) -> Rect {
    let top = bar_y(reply_handle) + 40;
    Rect { x: 12, y: top as i32, w: 936, h: (492 - strip_h(n) - top) as i32 }
}

/// The corner of a small picture that drops it.
pub open spec fn remove_rect(i: int, n: int) -> Rect {
    Rect { x: (12 + 112 * i + 78) as i32, y: strip_y(n) as i32, w: 26, h: 26 }
}

/// The body of a small picture, which shows it on the whole display.
pub open spec fn thumb_rect(i: int, n: int) -> Rect {
    Rect { x: (12 + 112 * i) as i32, y: (strip_y(n) + 26) as i32, w: 104, h: 52 }
}

/// Where the two buttons behind the pictures lie.
pub open spec fn add_y(n: int) -> int {
    if n == 0 {
        strip_y(n)
    } else {
        strip_y(n) + 19
    }
}

/// The button for another picture.
pub open spec fn add_rect(n: int) -> Rect {
    Rect { x: (12 + 112 * n) as i32, y: add_y(n) as i32, w: 72, h: 40 }
}

/// The button for a photograph.
pub open spec fn camera_rect(n: int) -> Rect {
    Rect { x: (92 + 112 * n) as i32, y: add_y(n) as i32, w: 100, h: 40 }
}

/// A click on a button of the screen.
pub open spec fn hit(enabled: bool, b: ButtonState, touches: Seq<TouchPoint>, r: Rect) -> bool {
    clicked(enabled, b.pressed_last, touched(touches, r), touches.len() > 0)
}

/// A button after a frame.
pub open spec fn after(touches: Seq<TouchPoint>, r: Rect) -> ButtonState {
    ButtonState { pressed_last: touched(touches, r) }
}

/// A new picture that is being read from a file.
pub open spec fn is_reading(a: Attachment, path: String) -> bool {
    a.key == path && a.bytes is None && a.mime@.len() == 0 && a.alt@.len() == 0 && !a.previewed
}

/// A new photograph.
pub open spec fn is_photo(a: Attachment, jpeg: Vec<u8>, previewed: bool) -> bool {
    a.key@ == "camera.jpg"@ && a.bytes == Some(jpeg) && a.mime@ == "image/jpeg"@ && a.alt@.len()
        == 0 && a.previewed == previewed
}

/// A picture was attached to the post that is being written, if it can have
/// another one.
pub open spec fn attached(a: Draft, b: Draft) -> bool {
    &&& b.current == a.current
    &&& others_kept(a.segments@, b.segments@, a.current as int)
    &&& b.at().text == a.at().text
    &&& if a.at().attachments@.len() < MAX_IMAGES {
        b.at().attachments@.len() == a.at().attachments@.len() + 1
            && b.at().attachments@.drop_last() == a.at().attachments@
    } else {
        b.at().attachments@ == a.at().attachments@
    }
}

/// The button that makes a thread of a single post.
pub open spec fn thread_rect(y: int) -> Rect {
    Rect { x: 16, y: y as i32, w: 134, h: 32 }
}

pub open spec fn prev_rect(y: int) -> Rect {
    Rect { x: 150, y: y as i32, w: 42, h: 32 }
}

pub open spec fn next_rect(y: int) -> Rect {
    Rect { x: 198, y: y as i32, w: 42, h: 32 }
}

pub open spec fn more_rect(y: int) -> Rect {
    Rect { x: 728, y: y as i32, w: 112, h: 32 }
}

pub open spec fn drop_rect(y: int) -> Rect {
    Rect { x: 848, y: y as i32, w: 104, h: 32 }
}

/// The post of a thread that is being written once the left and right buttons
/// and the arrows have moved on, each as far as there is a post.
pub open spec fn moved_to(
    s: ComposeScreen,
    pad: PadFrame,
    touches: Seq<TouchPoint>,
    on: bool,
) -> int {
    let n = s.draft.segments@.len() as int;
    let y = bar_y(s.reply_handle);
    let c0 = s.draft.current as int;
    let c1 = if on && pad.left && c0 > 0 {
        c0 - 1
    } else {
        c0
    };
    let c2 = if on && pad.right && c1 + 1 < n {
        c1 + 1
    } else {
        c1
    };
    let c3 = if hit(on && c2 > 0, s.btns.prev_seg, touches, prev_rect(y)) {
        c2 - 1
    } else {
        c2
    };
    if hit(on && c3 + 1 < n, s.btns.next_seg, touches, next_rect(y)) {
        c3 + 1
    } else {
        c3
    }
}

/// A draft with an empty post more, which is being written.
pub open spec fn segment_added(a: Draft, b: Draft) -> bool {
    &&& b.segments@.len() == a.segments@.len() + 1
    &&& b.segments@.drop_last() == a.segments@
    &&& b.current == a.segments@.len()
    &&& b.at().text@.len() == 0
    &&& b.at().attachments@.len() == 0
}

/// What the thread bar makes of a draft that is a thread: the post being
/// written is `to`, then one may be added, then the one being written dropped.
pub open spec fn thread_changed(a: Draft, b: Draft, to: int, more: bool, drop: bool) -> bool {
    let n = a.segments@.len() as int;
    if more && drop {
        b.segments@ == a.segments@ && b.current == n - 1
    } else if more {
        segment_added(a, b)
    } else if drop {
        &&& b.segments@ == a.segments@.remove(to)
        &&& b.current == (if to < n - 1 {
            to
        } else {
            n - 2
        })
    } else {
        b == (Draft { current: to as usize, ..a })
    }
}

/// The last of the first `n` of `count` pictures whose corner was clicked.
pub open spec fn removal(
    b: CellButtons,
    count: int,
    touches: Seq<TouchPoint>,
    on: bool,
    n: int,
) -> Option<usize>
    decreases n,
{
    if n <= 0 {
        None
    } else if hit(on, b.removes@[n - 1], touches, remove_rect(n - 1, count)) {
        Some((n - 1) as usize)
    } else {
        removal(b, count, touches, on, n - 1)
    }
}

/// The last of the first `n` pictures that can be shown and was clicked.
pub open spec fn view_opened(
    b: CellButtons,
    atts: Seq<Attachment>,
    touches: Seq<TouchPoint>,
    on: bool,
    n: int,
) -> Option<usize>
    decreases n,
{
    if n <= 0 {
        None
    } else if atts[n - 1].previewed && hit(
        on,
        b.thumbs@[n - 1],
        touches,
        thumb_rect(n - 1, atts.len() as int),
    ) {
        Some((n - 1) as usize)
    } else {
        view_opened(b, atts, touches, on, n - 1)
    }
}

/// The buttons of the pictures after a frame.
#[verifier::opaque]
pub open spec fn cells_tracked(
    a: CellButtons,
    b: CellButtons,
    atts: Seq<Attachment>,
    touches: Seq<TouchPoint>,
) -> bool {
    let n = atts.len() as int;
    &&& b.removes@.len() == a.removes@.len()
    &&& b.thumbs@.len() == a.thumbs@.len()
    &&& forall|i: int|
        0 <= i < a.removes@.len() ==> #[trigger] b.removes@[i] == (if i < n {
            after(touches, remove_rect(i, n))
        } else {
            a.removes@[i]
        })
    &&& forall|i: int|
        0 <= i < a.thumbs@.len() ==> #[trigger] b.thumbs@[i] == (if i < n && atts[i].previewed {
            after(touches, thumb_rect(i, n))
        } else {
            a.thumbs@[i]
        })
}

/// What a frame of the strip of pictures makes of a screen.
pub open spec fn strip_handled(
    s: ComposeScreen,
    t: ComposeScreen,
    touches: Seq<TouchPoint>,
    on: bool,
    r: StripOutcome,
) -> bool {
    let atts = s.draft.at().attachments@;
    let n = atts.len() as int;
    let room = n < MAX_IMAGES;
    &&& r.open_camera == (room && hit(on, s.btns.camera, touches, camera_rect(n)))
    &&& if room && hit(on, s.btns.add_image, touches, add_rect(n)) {
        t.picker matches Some(p) && p.fresh()
    } else {
        t.picker == s.picker
    }
    &&& cells_tracked(s.btns.cells, t.btns.cells, atts, touches)
    &&& t.btns == (ComposeButtons {
        cells: t.btns.cells,
        add_image: if room {
            after(touches, add_rect(n))
        } else {
            s.btns.add_image
        },
        camera: if room {
            after(touches, camera_rect(n))
        } else {
            s.btns.camera
        },
        ..s.btns
    })
    &&& t == (ComposeScreen {
        btns: t.btns,
        picker: t.picker,
        deferred: Deferred {
            remove: match removal(s.btns.cells, n, touches, on, n) {
                Some(i) => Some(i),
                None => s.deferred.remove,
            },
            ..s.deferred
        },
        viewing: match view_opened(s.btns.cells, atts, touches, on, n) {
            Some(i) => Some(i),
            None => s.viewing,
        },
        ..s
    })
}

/// The button that opens the keyboard for a description.
pub open spec fn alt_rect() -> Rect {
    Rect { x: 820, y: 496, w: 130, h: 40 }
}

/// The draft once a picture of it is let go of.
pub open spec fn detached(a: Draft, b: Draft, remove: Option<usize>) -> bool {
    match remove {
        None => b == a,
        Some(i) => {
            &&& b.current == a.current
            &&& others_kept(a.segments@, b.segments@, a.current as int)
            &&& b.at().text == a.at().text
            &&& b.at().attachments@ == (if i < a.at().attachments@.len() {
                a.at().attachments@.remove(i as int)
            } else {
                a.at().attachments@
            })
        },
    }
}

/// How a frame starts: once the draft is published nothing changes, else what
/// the last frame was done with is let go of.
pub open spec fn begun(a: ComposeScreen, b: ComposeScreen) -> bool {
    if a.done {
        b == a
    } else {
        &&& detached(a.draft, b.draft, a.deferred.remove)
        &&& b == (ComposeScreen {
            camera: if a.deferred.camera_close {
                None
            } else {
                a.camera
            },
            picker: if a.deferred.picker_close {
                None
            } else {
                a.picker
            },
            deferred: Deferred { camera_close: false, picker_close: false, remove: None },
            draft: b.draft,
            ..a
        })
    }
}

/// What the keyboard reports goes to the description that is being written,
/// else to the text of the post.
pub open spec fn ime_taken(a: ComposeScreen, b: ComposeScreen, event: ImeEvent) -> bool {
    let d = a.draft;
    &&& b == (ComposeScreen {
        editing_alt: a.editing_alt && event is Idle,
        draft: b.draft,
        ..a
    })
    &&& b.draft.current == d.current
    &&& match event {
        ImeEvent::Finished(t) => if a.editing_alt {
            &&& others_kept(d.segments@, b.draft.segments@, d.current as int)
            &&& b.draft.at().text == d.at().text
            &&& b.draft.at().attachments@ == (match a.viewing {
                Some(i) => if i < d.at().attachments@.len() {
                    d.at().attachments@.update(
                        i as int,
                        Attachment { alt: t, ..d.at().attachments@[i as int] },
                    )
                } else {
                    d.at().attachments@
                },
                None => d.at().attachments@,
            })
        } else {
            b.draft.segments@ == d.segments@.update(
                d.current as int,
                Segment { text: t, ..d.at() },
            )
        },
        _ => b.draft == d,
    }
}

/// What leaving the picker makes of a screen.
pub open spec fn pick_taken(
    a: ComposeScreen,
    b: ComposeScreen,
    result: PickResult,
    has_worker: bool,
    r: Option<WorkRequest>,
) -> bool {
    &&& b == (ComposeScreen {
        deferred: Deferred { picker_close: true, ..a.deferred },
        draft: b.draft,
        ..a
    })
    &&& match result {
        PickResult::Picked(path) => {
            &&& attached(a.draft, b.draft)
            &&& if a.draft.at().attachments@.len() < MAX_IMAGES {
                &&& is_reading(b.draft.at().attachments@.last(), path)
                &&& r == (if has_worker {
                    Some(WorkRequest::ReadImageFile { path })
                } else {
                    None
                })
            } else {
                r is None
            }
        },
        PickResult::Cancelled => r is None && b.draft == a.draft,
    }
}

/// What leaving the camera makes of a screen.
pub open spec fn photo_taken(
    a: ComposeScreen,
    b: ComposeScreen,
    result: CameraResult,
    previewed: bool,
) -> bool {
    &&& b == (ComposeScreen {
        deferred: Deferred { camera_close: true, ..a.deferred },
        draft: b.draft,
        ..a
    })
    &&& match result {
        CameraResult::Confirmed(jpeg) => {
            &&& attached(a.draft, b.draft)
            &&& a.draft.at().attachments@.len() < MAX_IMAGES ==> is_photo(
                b.draft.at().attachments@.last(),
                jpeg,
                previewed,
            )
        },
        CameraResult::Cancelled => b.draft == a.draft,
    }
}

/// One frame of a picture on the whole display.
pub open spec fn view_followed(
    a: ComposeScreen,
    b: ComposeScreen,
    pad: PadFrame,
    touches: Seq<TouchPoint>,
    ime_active: bool,
    r: Option<KeyboardRequest>,
) -> bool {
    let opens = hit(!ime_active, a.btns.edit_alt, touches, alt_rect());
    let on_picture = touches_between(touches, 31, 488).len() > 0;
    let closes = !ime_active && (pad.circle || pad.cross || clicked(
        true,
        a.btns.full_close.pressed_last,
        on_picture,
        touches.len() > 0,
    ));
    &&& match r {
        Some(k) => opens && k.title@ == "Alt text"@ && k.limit == ALT_LIMIT && k.initial@
            == a.shown_alt(),
        None => !opens,
    }
    &&& b == (ComposeScreen {
        editing_alt: a.editing_alt || opens,
        viewing: if closes {
            None
        } else {
            a.viewing
        },
        btns: ComposeButtons {
            edit_alt: after(touches, alt_rect()),
            full_close: if ime_active {
                a.btns.full_close
            } else {
                ButtonState { pressed_last: on_picture && !closes }
            },
            ..a.btns
        },
        ..a
    })
}

/// One frame of the header.
pub open spec fn header_followed(
    a: ComposeScreen,
    b: ComposeScreen,
    touches: Seq<TouchPoint>,
    on: bool,
    has_worker: bool,
    r: HeaderOutcome,
) -> bool {
    let cancel_rect = Rect { x: 8, y: 8, w: 100, h: 40 };
    let post_rect = Rect { x: 852, y: 8, w: 100, h: 40 };
    let cancels = hit(on, a.btns.cancel, touches, cancel_rect);
    let posts = !cancels && has_worker && hit(a.postable(), a.btns.post, touches, post_rect);
    &&& r.cancel == cancels
    &&& match r.request {
        Some(WorkRequest::CreateThread { segments, reply_to }) => posts && thread_sent(
            a.draft.segments@,
            segments@,
        ) && reply_to == a.reply_to,
        Some(_) => false,
        None => !posts,
    }
    &&& b == (ComposeScreen {
        state: if posts {
            ComposeState::Submitting
        } else {
            a.state
        },
        btns: ComposeButtons {
            cancel: after(touches, cancel_rect),
            post: if cancels {
                a.btns.post
            } else {
                after(touches, post_rect)
            },
            ..a.btns
        },
        ..a
    })
}

/// One frame of the thread bar.
pub open spec fn thread_followed(
    a: ComposeScreen,
    b: ComposeScreen,
    pad: PadFrame,
    touches: Seq<TouchPoint>,
    on: bool,
) -> bool {
    let n = a.draft.segments@.len();
    let y = bar_y(a.reply_handle);
    if n == 1 {
        &&& if hit(on, a.btns.add_seg, touches, thread_rect(y)) {
            segment_added(a.draft, b.draft)
        } else {
            b.draft == a.draft
        }
        &&& b == (ComposeScreen {
            draft: b.draft,
            btns: ComposeButtons { add_seg: after(touches, thread_rect(y)), ..a.btns },
            ..a
        })
    } else {
        &&& thread_changed(
            a.draft,
            b.draft,
            moved_to(a, pad, touches, on),
            hit(on && n < MAX_SEGMENTS, a.btns.add_seg, touches, more_rect(y)),
            hit(on, a.btns.remove_seg, touches, drop_rect(y)),
        )
        &&& b == (ComposeScreen {
            draft: b.draft,
            btns: ComposeButtons {
                prev_seg: after(touches, prev_rect(y)),
                next_seg: after(touches, next_rect(y)),
                add_seg: after(touches, more_rect(y)),
                remove_seg: after(touches, drop_rect(y)),
                ..a.btns
            },
            ..a
        })
    }
}

/// One frame of the text area: a tap opens the keyboard for the post that is
/// being written.
pub open spec fn area_followed(
    a: ComposeScreen,
    b: ComposeScreen,
    touches: Seq<TouchPoint>,
    on: bool,
    r: Option<KeyboardRequest>,
) -> bool {
    let rect = area_rect(a.reply_handle, a.draft.at().attachments@.len() as int);
    &&& match r {
        Some(k) => {
            &&& hit(on, a.btns.text_area, touches, rect)
            &&& k.title@ == (if a.reply_to is Some {
                "Reply"@
            } else {
                "New post"@
            })
            &&& k.limit == POST_LIMIT
            &&& k.initial@ == a.draft.at().text@
        },
        None => !hit(on, a.btns.text_area, touches, rect),
    }
    &&& b == (ComposeScreen {
        btns: ComposeButtons { text_area: after(touches, rect), ..a.btns },
        ..a
    })
}

/// What an answer makes of a compose screen. `image` is the picture of the
/// answer, made ready for upload; `thumb` whether a small one could be made.
pub open spec fn compose_responded(
    a: ComposeScreen,
    b: ComposeScreen,
    resp: WorkResponse,
    image: Option<PreparedImage>,
    thumb: bool,
) -> bool {
    match resp {
        WorkResponse::Image { url, bytes } => {
            &&& match a.picker {
                Some(p) => b.picker matches Some(q) && q == (FilePicker {
                    thumbs: q.thumbs,
                    ..p
                }) && q.thumbs@ == (if p.thumbs@.contains_key(url@) {
                    p.thumbs@.insert(
                        url@,
                        if bytes is Ok && thumb {
                            ThumbState::Ready
                        } else {
                            ThumbState::Failed
                        },
                    )
                } else {
                    p.thumbs@
                }),
                None => b.picker is None,
            }
            &&& match (bytes, image) {
                (Ok(_), Some(i)) => {
                    &&& image_taken(a.draft.segments@, b.draft.segments@, url@, i)
                    &&& b.draft.current == a.draft.current
                },
                _ => b.draft == a.draft,
            }
            &&& b == (ComposeScreen { picker: b.picker, draft: b.draft, ..a })
        },
        WorkResponse::PostCreated(Ok(_)) => {
            &&& b.draft.segments@.len() == 1
            &&& b.draft.current == 0
            &&& b.draft.at().text@.len() == 0
            &&& b.draft.at().attachments@.len() == 0
            &&& b == (ComposeScreen {
                state: ComposeState::Editing,
                draft: b.draft,
                done: true,
                ..a
            })
        },
        WorkResponse::PostCreated(Err(e)) => b == (ComposeScreen {
            state: ComposeState::Error(e),
            ..a
        }),
        _ => b == a,
    }
}

fn change_thread(d: &mut Draft, more: bool, drop: bool)
    requires
        old(d).wf(),
        old(d).segments@.len() > 1,
        more ==> old(d).segments@.len() < MAX_SEGMENTS,
    ensures
        final(d).wf(),
        thread_changed(*old(d), *final(d), old(d).current as int, more, drop),
{
    if more {
        d.add_segment();
    }
    let ghost mid = d.segments@;
    if drop {
        d.remove_current_segment();
        assert(more ==> mid.remove(old(d).segments@.len() as int) =~= old(d).segments@);
    }
}

/// One frame of the buttons of the pictures: the one to be dropped, and the
/// one to be shown.
fn track_cells(
    btns: &mut CellButtons,
    atts: &Vec<Attachment>,
    touches: &Vec<TouchPoint>,
    on: bool,
) -> (r: (Option<usize>, Option<usize>))
    requires
        old(btns).removes@.len() == 4,
        old(btns).thumbs@.len() == 4,
        atts@.len() <= 4,
    ensures
        cells_tracked(*old(btns), *final(btns), atts@, touches@),
        final(btns).removes@.len() == 4,
        final(btns).thumbs@.len() == 4,
        r.0 == removal(*old(btns), atts@.len() as int, touches@, on, atts@.len() as int),
        r.1 == view_opened(*old(btns), atts@, touches@, on, atts@.len() as int),
{
    let n: usize = atts.len();
    let y: i32 = 406;
    let mut remove: Option<usize> = None;
    let mut open: Option<usize> = None;
    let mut i: usize = 0;
    while i < n
        invariant
            i <= n <= 4,
            n == atts@.len(),
            y == 406,
            old(btns).removes@.len() == 4,
            old(btns).thumbs@.len() == 4,
            btns.removes@.len() == 4,
            btns.thumbs@.len() == 4,
            remove == removal(*old(btns), n as int, touches@, on, i as int),
            open == view_opened(*old(btns), atts@, touches@, on, i as int),
            forall|k: int|
                0 <= k < 4 ==> #[trigger] btns.removes@[k] == (if k < i {
                    after(touches@, remove_rect(k, n as int))
                } else {
                    old(btns).removes@[k]
                }),
            forall|k: int|
                0 <= k < 4 ==> #[trigger] btns.thumbs@[k] == (if k < i && atts@[k].previewed {
                    after(touches@, thumb_rect(k, n as int))
                } else {
                    old(btns).thumbs@[k]
                }),
        decreases n - i,
    {
        let x: i32 = 12 + 112 * (i as i32);
        let mut state = btns.removes[i];
        if button(Rect::new(x + 78, y, 26, 26), &mut state, touches, on) {
            remove = Some(i);
        }
        btns.removes[i] = state;
        if atts[i].previewed {
            let mut state = btns.thumbs[i];
            if button(
                Rect::new(x, y + 26, STRIP_THUMB_W, STRIP_THUMB_H - 26),
                &mut state,
                touches,
                on,
            ) {
                open = Some(i);
            }
            btns.thumbs[i] = state;
        }
        i += 1;
    }
    reveal(cells_tracked);
    (remove, open)
}

/// One frame of the two buttons behind `n` pictures: whether one is to be
/// picked, and whether one is to be taken.
fn track_adders(btns: &mut ComposeButtons, n: usize, touches: &Vec<TouchPoint>, on: bool) -> (r: (
    bool,
    bool,
))
    requires
        n <= 4,
    ensures
        r.0 == (n < MAX_IMAGES && hit(on, old(btns).add_image, touches@, add_rect(n as int))),
        r.1 == (n < MAX_IMAGES && hit(on, old(btns).camera, touches@, camera_rect(n as int))),
        *final(btns) == (ComposeButtons {
            add_image: if n < MAX_IMAGES {
                after(touches@, add_rect(n as int))
            } else {
                old(btns).add_image
            },
            camera: if n < MAX_IMAGES {
                after(touches@, camera_rect(n as int))
            } else {
                old(btns).camera
            },
            ..*old(btns)
        }),
{
    if n >= MAX_IMAGES {
        return (false, false);
    }
    let x: i32 = 12 + 112 * (n as i32);
    let y: i32 = if n == 0 {
        456
    } else {
        425
    };
    let pick = button(Rect::new(x, y, 72, 40), &mut btns.add_image, touches, on);
    let take = button(Rect::new(x + 80, y, 100, 40), &mut btns.camera, touches, on);
    (pick, take)
}

fn four_buttons() -> (r: Vec<ButtonState>)
    ensures
        r@.len() == 4,
        forall|i: int| 0 <= i < 4 ==> !(#[trigger] r@[i]).pressed_last,
{
    let mut r: Vec<ButtonState> = Vec::new();
    r.push(ButtonState::default());
    r.push(ButtonState::default());
    r.push(ButtonState::default());
    r.push(ButtonState::default());
    r
}

impl ComposeScreen {
    /// The draft and the picker are well formed; each picture has its buttons.
    pub open spec fn wf(&self) -> bool {
        &&& self.draft.wf()
        &&& self.picker matches Some(p) ==> p.wf()
        &&& self.btns.cells.thumbs@.len() == 4
        &&& self.btns.cells.removes@.len() == 4
    }

    /// A draft that was just opened: empty, for this reply or for a post of its own.
    pub open spec fn opened(
        reply_to: Option<ReplyTarget>,
        reply_handle: Option<String>,
        r: ComposeScreen,
    ) -> bool {
        &&& r.reply_to == reply_to
        &&& r.reply_handle == reply_handle
        &&& r.draft.segments@.len() == 1
        &&& r.draft.at().text@.len() == 0
        &&& r.draft.at().attachments@.len() == 0
        &&& r.state is Editing
        &&& r.picker is None
        &&& r.camera is None
        &&& r.deferred == (Deferred { camera_close: false, picker_close: false, remove: None })
        &&& r.viewing is None
        &&& !r.editing_alt
        &&& !r.done
        &&& nothing_pressed(r.btns)
    }

    /// An empty draft: a post, or a reply to someone.
    pub fn new(reply_to: Option<ReplyTarget>, reply_handle: Option<String>) -> (r: ComposeScreen)
        ensures
            r.wf(),
            Self::opened(reply_to, reply_handle, r),
    {
        ComposeScreen {
            reply_to,
            reply_handle,
            draft: Draft::new(),
            state: ComposeState::Editing,
            btns: ComposeButtons {
                cancel: ButtonState::default(),
                post: ButtonState::default(),
                text_area: ButtonState::default(),
                add_image: ButtonState::default(),
                camera: ButtonState::default(),
                prev_seg: ButtonState::default(),
                next_seg: ButtonState::default(),
                add_seg: ButtonState::default(),
                remove_seg: ButtonState::default(),
                cells: CellButtons { thumbs: four_buttons(), removes: four_buttons() },
                full_close: ButtonState::default(),
                edit_alt: ButtonState::default(),
            },
            picker: None,
            camera: None,
            deferred: Deferred { camera_close: false, picker_close: false, remove: None },
            viewing: None,
            editing_alt: false,
            done: false,
        }
    }

    /// The draft can be posted: it is not being posted already, and every post
    /// of it is complete.
    pub open spec fn postable(&self) -> bool {
        !(self.state is Submitting) && self.draft.ready()
    }

    /// Whether the draft can be posted.
    pub fn can_post(&self) -> (r: bool)
        ensures
            r == self.postable(),
    {
        if matches!(self.state, ComposeState::Submitting) {
            return false;
        }
        self.draft.all_valid()
    }

    /// The number of characters of the post that is being written.
    pub fn char_count(&self) -> (r: usize)
        requires
            self.wf(),
        ensures
            r == self.draft.at().text@.len(),
    {
        self.draft.char_count()
    }

    /// Whether something is to be let go of once the frame was shown.
    pub open spec fn releases_due(s: Self, r: bool) -> bool {
        r == (!s.done && (s.deferred.camera_close || s.deferred.picker_close
            || s.deferred.remove is Some))
    }

    /// Whether the next frame lets go of something that was drawn.
    pub fn releases(&self) -> (r: bool)
        ensures
            Self::releases_due(*self, r),
    {
        !self.done && (self.deferred.camera_close || self.deferred.picker_close
            || self.deferred.remove.is_some())
    }

    /// Starts a frame: `true` leaves the screen. Otherwise what the last frame
    /// was done with is let go of.
    pub fn begin_frame(&mut self) -> (pop: bool)
        requires
            old(self).wf(),
        ensures
            final(self).wf(),
            pop == old(self).done,
            begun(*old(self), *final(self)),
    {
        if self.done {
            return true;
        }
        if self.deferred.camera_close {
            self.camera = None;
            self.deferred.camera_close = false;
        }
        if self.deferred.picker_close {
            self.picker = None;
            self.deferred.picker_close = false;
        }
        match self.deferred.remove.take() {
            Some(i) => self.draft.detach(i),
            None => {},
        }
        false
    }

    /// Takes what the keyboard reports: a description while one is being
    /// written, else the text of the post. `true` means that the keyboard is
    /// to be closed.
    pub fn take_ime(&mut self, event: ImeEvent) -> (close: bool)
        requires
            old(self).wf(),
        ensures
            final(self).wf(),
            close == !(event is Idle),
            ime_taken(*old(self), *final(self), event),
    {
        match event {
            ImeEvent::Idle => false,
            ImeEvent::Dismissed => {
                self.editing_alt = false;
                true
            },
            ImeEvent::Finished(t) => {
                if self.editing_alt {
                    match self.viewing {
                        Some(i) => self.draft.set_alt(i, t),
                        None => {},
                    }
                    self.editing_alt = false;
                } else {
                    self.draft.set_text(t);
                }
                true
            },
        }
    }

    /// Takes how the picker was left: a picture is attached, and to be read.
    /// The picker goes with the next frame.
    pub fn picked(&mut self, result: PickResult, has_worker: bool) -> (r: Option<WorkRequest>)
        requires
            old(self).wf(),
        ensures
            final(self).wf(),
            pick_taken(*old(self), *final(self), result, has_worker, r),
    {
        self.deferred.picker_close = true;
        match result {
            PickResult::Picked(path) => {
                let again = path.clone();
                let added = self.draft.attach(
                    Attachment {
                        key: path,
                        bytes: None,
                        mime: String::new(),
                        alt: String::new(),
                        previewed: false,
                    },
                );
                assert(added ==> self.draft.at().attachments@.drop_last() =~= old(
                    self,
                ).draft.at().attachments@);
                if added && has_worker {
                    Some(WorkRequest::ReadImageFile { path: again })
                } else {
                    None
                }
            },
            PickResult::Cancelled => None,
        }
    }

    /// The camera is shown, or why it could not be opened.
    pub open spec fn camera_answered(a: Self, b: Self, opened: Result<(), String>) -> bool {
        &&& b.camera == Some(
            device_opened(
                CameraCapture {
                    device: CameraDevice::Back,
                    open: false,
                    frozen: None,
                    mode: CameraMode::Live,
                    error: None,
                },
                opened,
            ),
        )
        &&& b == (ComposeScreen { camera: b.camera, ..a })
    }

    /// The camera was opened, or not.
    pub fn camera_opened(&mut self, opened: Result<(), String>)
        requires
            old(self).wf(),
        ensures
            final(self).wf(),
            Self::camera_answered(*old(self), *final(self), opened),
    {
        self.camera = Some(CameraCapture::new(opened));
    }

    /// Takes how the camera was left: a photograph is attached. The camera
    /// goes with the next frame.
    pub fn photographed(&mut self, result: CameraResult, previewed: bool)
        requires
            old(self).wf(),
        ensures
            final(self).wf(),
            photo_taken(*old(self), *final(self), result, previewed),
    {
        self.deferred.camera_close = true;
        match result {
            CameraResult::Confirmed(jpeg) => {
                let added = self.draft.attach(
                    Attachment {
                        key: owned("camera.jpg"),
                        bytes: Some(jpeg),
                        mime: owned("image/jpeg"),
                        alt: String::new(),
                        previewed,
                    },
                );
                assert(added ==> self.draft.at().attachments@.drop_last() =~= old(
                    self,
                ).draft.at().attachments@);
            },
            CameraResult::Cancelled => {},
        }
    }

    /// The description of the picture that is shown on the whole display.
    pub open spec fn shown_alt(&self) -> Seq<char> {
        match self.viewing {
            Some(i) => if i < self.draft.at().attachments@.len() {
                self.draft.at().attachments@[i as int].alt@
            } else {
                Seq::empty()
            },
            None => Seq::empty(),
        }
    }

    /// The description of the picture that is shown on the whole display.
    pub fn viewed_alt(&self) -> (r: String)
        requires
            self.wf(),
        ensures
            r@ == self.shown_alt(),
    {
        match self.viewing {
            Some(i) => {
                let atts = &self.draft.segments[self.draft.current].attachments;
                if i < atts.len() {
                    return atts[i].alt.clone();
                }
            },
            None => {},
        }
        String::new()
    }

    /// One frame of a picture on the whole display: its description can be
    /// written, and a tap on it, the circle or the cross closes it. Nothing
    /// happens while the keyboard is open.
    pub fn view_frame(&mut self, pad: &PadFrame, touches: &Vec<TouchPoint>, ime_active: bool) -> (r:
        Option<KeyboardRequest>)
        requires
            old(self).wf(),
        ensures
            final(self).wf(),
            view_followed(*old(self), *final(self), *pad, touches@, ime_active, r),
    {
        let interactive = !ime_active;
        let mut r: Option<KeyboardRequest> = None;
        if button(Rect::new(820, 496, 130, 40), &mut self.btns.edit_alt, touches, interactive) {
            let initial = self.viewed_alt();
            self.editing_alt = true;
            r = Some(KeyboardRequest { title: owned("Alt text"), limit: ALT_LIMIT, initial });
        }
        if interactive {
            let on_picture = touches_in_band(touches, 31, 488).len() > 0;
            let tapped = self.btns.full_close.track(on_picture, touches.len() > 0, true);
            if tapped || pad.circle || pad.cross {
                self.viewing = None;
                self.btns.full_close.pressed_last = false;
            }
        }
        r
    }

    /// Whether the buttons of the screen can be pressed.
    pub fn interactive(&self, ime_active: bool) -> (r: bool)
        ensures
            r == (!ime_active && !(self.state is Submitting)),
    {
        !ime_active && !matches!(self.state, ComposeState::Submitting)
    }

    /// One frame of the header: cancelling, and posting the whole draft.
    pub fn header(&mut self, touches: &Vec<TouchPoint>, interactive: bool, has_worker: bool) -> (r:
        HeaderOutcome)
        requires
            old(self).wf(),
        ensures
            final(self).wf(),
            header_followed(*old(self), *final(self), touches@, interactive, has_worker, r),
    {
        if button(Rect::new(8, 8, 100, 40), &mut self.btns.cancel, touches, interactive) {
            return HeaderOutcome { cancel: true, request: None };
        }
        let can_post = self.can_post();
        let clicked_post = button(
            Rect::new(SCREEN_WIDTH - 108, 8, 100, 40),
            &mut self.btns.post,
            touches,
            can_post,
        );
        if !clicked_post || !has_worker {
            return HeaderOutcome { cancel: false, request: None };
        }
        let segments = self.draft.thread_segments();
        let reply_to = match &self.reply_to {
            Some(t) => Some(t.clone()),
            None => None,
        };
        self.state = ComposeState::Submitting;
        HeaderOutcome {
            cancel: false,
            request: Some(WorkRequest::CreateThread { segments, reply_to }),
        }
    }

    /// One frame of the thread bar. A single post can be made a thread; in a
    /// thread one goes from post to post, adds one at the end, or drops the
    /// one being written.
    pub fn thread_bar(&mut self, pad: &PadFrame, touches: &Vec<TouchPoint>, interactive: bool)
        requires
            old(self).wf(),
        ensures
            final(self).wf(),
            thread_followed(*old(self), *final(self), *pad, touches@, interactive),
    {
        let y: i32 = self.thread_bar_y();
        let n: usize = self.draft.segments.len();
        if n == 1 {
            if button(Rect::new(16, y, 134, 32), &mut self.btns.add_seg, touches, interactive) {
                self.draft.add_segment();
            }
        } else {
            self.move_in_thread(pad, touches, interactive);
            self.edit_thread(touches, interactive);
        }
    }

    fn move_in_thread(&mut self, pad: &PadFrame, touches: &Vec<TouchPoint>, interactive: bool)
        requires
            old(self).wf(),
        ensures
            final(self).wf(),
            ({
                let s = *old(self);
                let y = bar_y(s.reply_handle);
                *final(self) == (ComposeScreen {
                    draft: Draft {
                        current: moved_to(s, *pad, touches@, interactive) as usize,
                        ..s.draft
                    },
                    btns: ComposeButtons {
                        prev_seg: after(touches@, prev_rect(y)),
                        next_seg: after(touches@, next_rect(y)),
                        ..s.btns
                    },
                    ..s
                })
            }),
            0 <= moved_to(*old(self), *pad, touches@, interactive) < old(
                self,
            ).draft.segments@.len(),
    {
        let y: i32 = self.thread_bar_y();
        let n: usize = self.draft.segments.len();
        let mut c: usize = self.draft.current;
        if interactive && pad.left && c > 0 {
            c = c - 1;
        }
        if interactive && pad.right && c + 1 < n {
            c = c + 1;
        }
        let on_prev = interactive && c > 0;
        if button(Rect::new(150, y, 42, 32), &mut self.btns.prev_seg, touches, on_prev) {
            c = c - 1;
        }
        let on_next = interactive && c + 1 < n;
        if button(Rect::new(198, y, 42, 32), &mut self.btns.next_seg, touches, on_next) {
            c = c + 1;
        }
        self.draft.switch_segment(c);
    }

    fn edit_thread(&mut self, touches: &Vec<TouchPoint>, interactive: bool)
        requires
            old(self).wf(),
            old(self).draft.segments@.len() > 1,
        ensures
            final(self).wf(),
            ({
                let s = *old(self);
                let y = bar_y(s.reply_handle);
                &&& thread_changed(
                    s.draft,
                    final(self).draft,
                    s.draft.current as int,
                    hit(
                        interactive && s.draft.segments@.len() < MAX_SEGMENTS,
                        s.btns.add_seg,
                        touches@,
                        more_rect(y),
                    ),
                    hit(interactive, s.btns.remove_seg, touches@, drop_rect(y)),
                )
                &&& *final(self) == (ComposeScreen {
                    draft: final(self).draft,
                    btns: ComposeButtons {
                        add_seg: after(touches@, more_rect(y)),
                        remove_seg: after(touches@, drop_rect(y)),
                        ..s.btns
                    },
                    ..s
                })
            }),
    {
        let y: i32 = self.thread_bar_y();
        let n: usize = self.draft.segments.len();
        let on_more = interactive && n < MAX_SEGMENTS;
        let more = button(
            Rect::new(SCREEN_WIDTH - 232, y, 112, 32),
            &mut self.btns.add_seg,
            touches,
            on_more,
        );
        let drop = button(
            Rect::new(SCREEN_WIDTH - 112, y, 104, 32),
            &mut self.btns.remove_seg,
            touches,
            interactive,
        );
        change_thread(&mut self.draft, more, drop);
    }

    /// One frame of the strip of pictures: each can be dropped, or shown on
    /// the whole display; behind them another one can be picked or taken.
    pub fn attachment_strip(&mut self, touches: &Vec<TouchPoint>, interactive: bool) -> (r:
        StripOutcome)
        requires
            old(self).wf(),
        ensures
            final(self).wf(),
            strip_handled(*old(self), *final(self), touches@, interactive, r),
    {
        let n: usize = self.draft.segments[self.draft.current].attachments.len();
        let (remove, open) = self.track_pictures(touches, interactive);
        let (pick, open_camera) = track_adders(&mut self.btns, n, touches, interactive);
        self.follow_strip(pick, remove, open);
        StripOutcome { open_camera }
    }

    fn track_pictures(&mut self, touches: &Vec<TouchPoint>, interactive: bool) -> (r: (
        Option<usize>,
        Option<usize>,
    ))
        requires
            old(self).wf(),
        ensures
            final(self).wf(),
            old(self).draft.at().attachments@.len() <= 4,
            ({
                let s = *old(self);
                let atts = s.draft.at().attachments@;
                let n = atts.len() as int;
                &&& cells_tracked(s.btns.cells, final(self).btns.cells, atts, touches@)
                &&& r.0 == removal(s.btns.cells, n, touches@, interactive, n)
                &&& r.1 == view_opened(s.btns.cells, atts, touches@, interactive, n)
                &&& *final(self) == (ComposeScreen {
                    btns: ComposeButtons { cells: final(self).btns.cells, ..s.btns },
                    ..s
                })
            }),
    {
        assert(self.draft.at().attachments@.len() <= MAX_IMAGES);
        let atts = &self.draft.segments[self.draft.current].attachments;
        track_cells(&mut self.btns.cells, atts, touches, interactive)
    }

    fn follow_strip(&mut self, pick: bool, remove: Option<usize>, open: Option<usize>)
        requires
            old(self).wf(),
        ensures
            final(self).wf(),
            if pick {
                final(self).picker matches Some(p) && p.fresh()
            } else {
                final(self).picker == old(self).picker
            },
            *final(self) == (ComposeScreen {
                picker: final(self).picker,
                deferred: Deferred {
                    remove: match remove {
                        Some(i) => Some(i),
                        None => old(self).deferred.remove,
                    },
                    ..old(self).deferred
                },
                viewing: match open {
                    Some(i) => Some(i),
                    None => old(self).viewing,
                },
                ..*old(self)
            }),
    {
        if pick {
            self.picker = Some(FilePicker::new());
        }
        if remove.is_some() {
            self.deferred.remove = remove;
        }
        if open.is_some() {
            self.viewing = open;
        }
    }

    /// One frame of the text area: a tap opens the keyboard for the post.
    pub fn text_area(&mut self, touches: &Vec<TouchPoint>, interactive: bool) -> (r: Option<
        KeyboardRequest,
    >)
        requires
            old(self).wf(),
        ensures
            final(self).wf(),
            area_followed(*old(self), *final(self), touches@, interactive, r),
    {
        let rect = self.text_area_rect();
        if !button(rect, &mut self.btns.text_area, touches, interactive) {
            return None;
        }
        Some(
            KeyboardRequest {
                title: self.title(),
                limit: POST_LIMIT,
                initial: self.draft.segments[self.draft.current].text.clone(),
            },
        )
    }

    /// The place of the text area.
    pub fn text_area_rect(&self) -> (r: Rect)
        requires
            self.wf(),
        ensures
            r == area_rect(self.reply_handle, self.draft.at().attachments@.len() as int),
    {
        let top: i32 = self.thread_bar_y() + 40;
        let strip: i32 = if self.draft.segments[self.draft.current].attachments.len() == 0 {
            44
        } else {
            94
        };
        Rect::new(12, top, SCREEN_WIDTH - 24, SCREEN_HEIGHT - 52 - strip - top)
    }

    /// Where the thread bar lies.
    pub fn thread_bar_y(&self) -> (r: i32)
        ensures
            r == bar_y(self.reply_handle),
    {
        if self.reply_handle.is_some() {
            96
        } else {
            68
        }
    }

    /// The heading tells a reply from a post.
    pub open spec fn titled(s: Self, r: String) -> bool {
        r@ == (if s.reply_to is Some {
            "Reply"@
        } else {
            "New post"@
        })
    }

    /// The title: a new post, or a reply.
    pub fn title(&self) -> (r: String)
        ensures
            Self::titled(*self, r),
    {
        if self.reply_to.is_some() {
            owned("Reply")
        } else {
            owned("New post")
        }
    }

    /// Whom a reply goes to.
    pub open spec fn reply_told(s: Self, r: Option<String>) -> bool {
        match s.reply_handle {
            Some(h) => r matches Some(t) && t@ == "Replying to @"@ + h@,
            None => r is None,
        }
    }

    /// The line that names whom it replies to.
    pub fn reply_line(&self) -> (r: Option<String>)
        ensures
            Self::reply_told(*self, r),
    {
        match &self.reply_handle {
            Some(h) => Some(join2("Replying to @", h.as_str())),
            None => None,
        }
    }

    /// The text of the post, or what to do where there is none.
    pub open spec fn body_shown(s: Self, r: String) -> bool {
        r@ == (if s.draft.at().text@.len() > 0 {
            s.draft.at().text@
        } else if s.reply_to is Some {
            "Tap to write your reply…"@
        } else {
            "Tap to write your post…"@
        })
    }

    /// What the text area shows: the text, or what to do while there is none.
    pub fn body_text(&self) -> (r: String)
        requires
            self.wf(),
        ensures
            Self::body_shown(*self, r),
    {
        let text = &self.draft.segments[self.draft.current].text;
        if !text.as_str().is_empty() {
            text.clone()
        } else if self.reply_to.is_some() {
            owned("Tap to write your reply…")
        } else {
            owned("Tap to write your post…")
        }
    }

    /// How much of the room for text is used.
    pub open spec fn count_shown(s: Self, r: String) -> bool {
        r@ == decimal(s.draft.at().text@.len()) + " / 300"@
    }

    /// The counter below the text.
    pub fn counter(&self) -> (r: String)
        requires
            self.wf(),
        ensures
            Self::count_shown(*self, r),
    {
        let n: usize = self.char_count();
        join2(decimal_text(n as u64).as_str(), " / 300")
    }

    /// Which post of the thread is edited.
    pub open spec fn place_shown(s: Self, r: String) -> bool {
        r@ == "Post "@ + decimal((s.draft.current + 1) as nat) + " / "@ + decimal(
            s.draft.segments@.len(),
        )
    }

    /// The name of the post that is being written within its thread.
    pub fn thread_label(&self) -> (r: String)
        requires
            self.wf(),
        ensures
            Self::place_shown(*self, r),
    {
        let a = join3("Post ", decimal_text(self.draft.current as u64 + 1).as_str(), " / ");
        join2(a.as_str(), decimal_text(self.draft.segments.len() as u64).as_str())
    }

    /// Why the draft was not sent.
    pub open spec fn problem_shown(s: Self, r: Option<String>) -> bool {
        match s.state {
            ComposeState::Error(e) => r matches Some(t) && t@ == "Error: "@ + first_chars(
                e@,
                80,
            ),
            _ => r is None,
        }
    }

    /// The line that tells why posting failed.
    pub fn error_line(&self) -> (r: Option<String>)
        ensures
            Self::problem_shown(*self, r),
    {
        match &self.state {
            ComposeState::Error(e) => Some(join2("Error: ", head_chars(e.as_str(), 80).as_str())),
            _ => None,
        }
    }

    /// Takes an answer of the worker, with the picture it brings made ready
    /// for upload, and whether a small one could be made of it.
    pub fn handle_worker_response(
        &mut self,
        resp: WorkResponse,
        image: Option<PreparedImage>,
        thumb: bool,
    )
        requires
            old(self).wf(),
        ensures
            final(self).wf(),
            compose_responded(*old(self), *final(self), resp, image, thumb),
    {
        match resp {
            WorkResponse::Image { url, bytes } => {
                let ok = bytes.is_ok();
                match &mut self.picker {
                    Some(p) => p.on_image(url.as_str(), ok && thumb),
                    None => {},
                }
                if ok {
                    match image {
                        Some(i) => self.draft.take_image(url.as_str(), i),
                        None => {},
                    }
                }
            },
            WorkResponse::PostCreated(Ok(_)) => {
                self.state = ComposeState::Editing;
                self.draft = Draft::new();
                self.done = true;
            },
            WorkResponse::PostCreated(Err(e)) => {
                self.state = ComposeState::Error(e);
            },
            _ => {},
        }
    }
}

/// A published draft leaves with the next frame; a refused one stays as it is,
/// and can be posted again.
pub proof fn lemma_refused_draft_stays(
    a: ComposeScreen,
    b: ComposeScreen,
    resp: WorkResponse,
    image: Option<PreparedImage>,
    thumb: bool,
)
    requires
        compose_responded(a, b, resp, image, thumb),
        resp is PostCreated,
    ensures
        resp matches WorkResponse::PostCreated(Ok(_)) ==> b.done,
        resp matches WorkResponse::PostCreated(Err(_)) ==> b.done == a.done && b.draft == a.draft
            && b.postable() == a.draft.ready(),
{
}

/// While a draft is being posted, it cannot be posted again.
pub proof fn lemma_posted_once(s: ComposeScreen)
    requires
        s.state is Submitting,
    ensures
        !s.postable(),
{
}

} // verus!
