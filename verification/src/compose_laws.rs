//! What becomes of a draft: what is typed, picked or photographed goes where it
//! belongs and nowhere else, and what is posted is the whole of it.

use vstd::prelude::*;

#[allow(unused_imports)]
use crate::camera::CameraResult;
#[allow(unused_imports)]
use crate::compose::{
    add_rect, area_followed, area_rect, attached, begun, camera_rect, compose_responded, drop_rect,
    header_followed, hit, ime_taken, more_rect, next_rect, photo_taken, pick_taken, prev_rect,
    removal, remove_rect, strip_handled, thread_followed, thread_rect, thumb_rect, view_followed,
    view_opened, CellButtons, ComposeScreen, ComposeState, HeaderOutcome, KeyboardRequest,
    StripOutcome,
};
#[allow(unused_imports)]
use crate::compose_draft::{
    decoded_step, encoded_step, first_step, image_taken, mime_of, reading_at, reading_in,
    thread_sent, uploaded_as, Attachment, Draft, FitStep, PreparedImage, Segment,
};
#[allow(unused_imports)]
use crate::conversation::ImeEvent;
#[allow(unused_imports)]
use crate::file_picker::PickResult;
#[allow(unused_imports)]
use crate::requests::{ThreadSegment, WorkRequest, WorkResponse};
#[allow(unused_imports)]
use crate::text::{ascii_lower, ascii_lowered};
#[allow(unused_imports)]
use crate::widget::{PadFrame, Rect, TouchPoint};

verus! {

// ── What is sent ───────────────────────────────────────────────────────

/// What is sent for a draft is the draft: each post with its own text, and each
/// of its pictures in its place, with its bytes, its type and its description.
pub proof fn lemma_draft_sent_whole(segs: Seq<Segment>, sent: Seq<ThreadSegment>, i: int, k: int)
    requires
        thread_sent(segs, sent),
        0 <= i < segs.len(),
    ensures
        sent.len() == segs.len(),
        sent[i].text@ == segs[i].text@,
        sent[i].images@.len() == segs[i].attachments@.len(),
        0 <= k < segs[i].attachments@.len() ==> {
            &&& segs[i].attachments@[k].bytes matches Some(b) ==> sent[i].images@[k].bytes@ == b@
            &&& sent[i].images@[k].mime@ == segs[i].attachments@[k].mime@
            &&& sent[i].images@[k].alt@ == segs[i].attachments@[k].alt@
        },
{
    assert(sent[i].text == segs[i].text);
    assert(0 <= k < segs[i].attachments@.len() ==> sent[i].images@[k].mime
        == segs[i].attachments@[k].mime);
}

/// A draft can be posted where it is not being posted already, and every post of
/// it has something in it, is at most 300 characters long, and has no picture
/// that is still being read.
pub proof fn lemma_when_postable(s: ComposeScreen)
    requires
        s.wf(),
    ensures
        s.postable() <==> {
            &&& !(s.state is Submitting)
            &&& forall|i: int|
                0 <= i < s.draft.segments@.len() ==> (#[trigger] s.draft.segments@[i]).text@.len()
                    <= 300
            &&& forall|i: int|
                0 <= i < s.draft.segments@.len() ==> !((#[trigger] s.draft.segments@[i]).text@.len()
                    == 0 && s.draft.segments@[i].attachments@.len() == 0)
            &&& forall|i: int, k: int|
                0 <= i < s.draft.segments@.len() && 0 <= k
                    < s.draft.segments@[i].attachments@.len() ==> (
                #[trigger] s.draft.segments@[i].attachments@[k]).bytes is Some
        },
        s.draft.segments@.len() <= 25,
        forall|i: int|
            0 <= i < s.draft.segments@.len() ==> (
            #[trigger] s.draft.segments@[i]).attachments@.len() <= 4,
{
    let segs = s.draft.segments@;
    if s.postable() {
        assert forall|i: int, k: int|
            0 <= i < segs.len() && 0 <= k < segs[i].attachments@.len() implies (
        #[trigger] segs[i].attachments@[k]).bytes is Some by {
            assert(segs[i].postable());
            assert(segs[i].attachments@[k].is_loaded());
        }
        assert forall|i: int| 0 <= i < segs.len() implies (#[trigger] segs[i]).text@.len()
            <= 300 by {
            assert(segs[i].postable());
        }
        assert forall|i: int| 0 <= i < segs.len() implies !((#[trigger] segs[i]).text@.len() == 0
            && segs[i].attachments@.len() == 0) by {
            assert(segs[i].postable());
        }
    }
    if !s.postable() && !(s.state is Submitting) {
        let i = choose|i: int| 0 <= i < segs.len() && !(#[trigger] segs[i]).postable();
        if segs[i].text@.len() <= 300 && (segs[i].text@.len() > 0 || segs[i].attachments@.len()
            > 0) {
            let k = choose|k: int|
                0 <= k < segs[i].attachments@.len() && !(
                #[trigger] segs[i].attachments@[k]).is_loaded();
            assert(!(segs[i].attachments@[k].bytes is Some));
        }
    }
}

/// Posting asks for the draft as it stands, as a reply to what it replies to,
/// and for nothing while it cannot be posted, while it is cancelled or while
/// there is nobody to ask. It leaves the draft as it is, and waits.
pub proof fn lemma_posting_asks_for_draft(
    a: ComposeScreen,
    b: ComposeScreen,
    touches: Seq<TouchPoint>,
    on: bool,
    has_worker: bool,
    r: HeaderOutcome,
)
    requires
        header_followed(a, b, touches, on, has_worker, r),
    ensures
        r.request matches Some(q) ==> {
            &&& q is CreateThread
            &&& q->segments@.len() == a.draft.segments@.len()
            &&& q->reply_to == a.reply_to
            &&& forall|i: int|
                0 <= i < a.draft.segments@.len() ==> (#[trigger] q->segments@[i]).text
                    == a.draft.segments@[i].text
            &&& b.state is Submitting
            &&& a.postable()
            &&& has_worker
            &&& a.btns.post.pressed_last
            &&& touches.len() == 0
            &&& !r.cancel
        },
        r.request is None ==> b.state == a.state,
        !r.cancel && a.postable() && has_worker && a.btns.post.pressed_last && touches.len() == 0
            ==> r.request is Some,
        r.cancel <==> on && a.btns.cancel.pressed_last && touches.len() == 0,
        b.draft == a.draft,
        b.reply_to == a.reply_to,
        b.picker == a.picker && b.camera == a.camera && b.viewing == a.viewing,
        b.done == a.done,
        b.btns.post.pressed_last && !r.cancel ==> exists|i: int|
            0 <= i < touches.len() && (#[trigger] touches[i]).x >= 852 && touches[i].y < 48,
{
    match r.request {
        Some(WorkRequest::CreateThread { segments, reply_to }) => {
            assert forall|i: int| 0 <= i < a.draft.segments@.len() implies (
            #[trigger] segments@[i]).text == a.draft.segments@[i].text by {
                lemma_draft_sent_whole(a.draft.segments@, segments@, i, 0);
                assert(crate::compose_draft::segment_sent(a.draft.segments@[i], segments@[i]));
            }
        },
        _ => {},
    }
}

// ── What is typed ──────────────────────────────────────────────────────

/// What is typed becomes the text of the post that is being written, or the
/// description of the picture that is shown while one is being written. No
/// other text, picture or description changes, and an unfinished or a dismissed
/// keyboard changes none at all.
pub proof fn lemma_typed_goes_where_written(
    a: ComposeScreen,
    b: ComposeScreen,
    event: ImeEvent,
    i: int,
    k: int,
)
    requires
        a.wf(),
        ime_taken(a, b, event),
        0 <= i < a.draft.segments@.len(),
        0 <= k < a.draft.segments@[i].attachments@.len(),
    ensures
        b.draft.segments@.len() == a.draft.segments@.len(),
        b.draft.current == a.draft.current,
        b.draft.segments@[i].attachments@.len() == a.draft.segments@[i].attachments@.len(),
        event matches ImeEvent::Finished(t) ==> {
            &&& b.draft.segments@[i].text@ == (if !a.editing_alt && i == a.draft.current {
                t@
            } else {
                a.draft.segments@[i].text@
            })
            &&& b.draft.segments@[i].attachments@[k].alt@ == (if a.editing_alt && i
                == a.draft.current && a.viewing == Some(k as usize) {
                t@
            } else {
                a.draft.segments@[i].attachments@[k].alt@
            })
        },
        b.draft.segments@[i].attachments@[k].bytes == a.draft.segments@[i].attachments@[k].bytes,
        b.draft.segments@[i].attachments@[k].mime == a.draft.segments@[i].attachments@[k].mime,
        b.draft.segments@[i].attachments@[k].key == a.draft.segments@[i].attachments@[k].key,
        !(event is Finished) ==> b.draft == a.draft,
        event is Finished || event is Dismissed ==> !b.editing_alt,
        event is Idle ==> b.editing_alt == a.editing_alt,
        b.state == a.state && b.reply_to == a.reply_to && b.done == a.done,
{
    assert(a.draft.segments@[i].attachments@.len() <= 4);
}

/// The text of the post that is being written is replaced even where it has no
/// pictures.
pub proof fn lemma_typed_text(a: ComposeScreen, b: ComposeScreen, t: String)
    requires
        a.wf(),
        ime_taken(a, b, ImeEvent::Finished(t)),
        !a.editing_alt,
    ensures
        b.draft.segments@.len() == a.draft.segments@.len(),
        b.draft.segments@[a.draft.current as int].text@ == t@,
        b.draft.segments@[a.draft.current as int].attachments
            == a.draft.segments@[a.draft.current as int].attachments,
        forall|i: int|
            0 <= i < a.draft.segments@.len() && i != a.draft.current ==> #[trigger]
            b.draft.segments@[i] == a.draft.segments@[i],
{
}

/// A tap on the text opens the keyboard with the text of the post that is being
/// written, up to 300 characters, under a title that tells a reply from a post.
pub proof fn lemma_keyboard_for_text(
    a: ComposeScreen,
    b: ComposeScreen,
    touches: Seq<TouchPoint>,
    on: bool,
    r: Option<KeyboardRequest>,
)
    requires
        a.wf(),
        area_followed(a, b, touches, on, r),
    ensures
        r is Some <==> on && a.btns.text_area.pressed_last && touches.len() == 0,
        r matches Some(k) ==> {
            &&& k.initial@ == a.draft.segments@[a.draft.current as int].text@
            &&& k.limit == 300
            &&& a.reply_to is Some ==> k.title@ == "Reply"@
            &&& a.reply_to is None ==> k.title@ == "New post"@
        },
        b.draft == a.draft && b.state == a.state && b.reply_to == a.reply_to && b.editing_alt
            == a.editing_alt,
{
}

/// On the whole display the keyboard opens with the description of the picture
/// that is shown, and what it then reports is a description. The picture is left
/// by the circle, the cross or a tap, but not while the keyboard is open.
pub proof fn lemma_keyboard_for_description(
    a: ComposeScreen,
    b: ComposeScreen,
    pad: PadFrame,
    touches: Seq<TouchPoint>,
    ime_active: bool,
    r: Option<KeyboardRequest>,
)
    requires
        a.wf(),
        view_followed(a, b, pad, touches, ime_active, r),
    ensures
        r is Some <==> !ime_active && a.btns.edit_alt.pressed_last && touches.len() == 0,
        r matches Some(k) ==> {
            &&& b.editing_alt
            &&& k.limit == 1000
            &&& k.title@ == "Alt text"@
            &&& a.viewing matches Some(i) ==> i < a.draft.at().attachments@.len() ==> k.initial@
                == a.draft.segments@[a.draft.current as int].attachments@[i as int].alt@
        },
        r is None ==> b.editing_alt == a.editing_alt,
        ime_active ==> b.viewing == a.viewing,
        !ime_active && (pad.circle || pad.cross) ==> b.viewing is None,
        !ime_active && a.btns.full_close.pressed_last && touches.len() == 0 ==> b.viewing is None,
        !pad.circle && !pad.cross && touches.len() > 0 ==> b.viewing == a.viewing,
        b.draft == a.draft && b.state == a.state && b.reply_to == a.reply_to,
{
    reveal(Seq::filter);
}

// ── Pictures ───────────────────────────────────────────────────────────

/// Whatever is attached comes behind the pictures that the post being written
/// already has, never as a fifth one, and every post keeps its text.
pub proof fn lemma_attached_behind(a: Draft, b: Draft)
    requires
        a.wf(),
        attached(a, b),
    ensures
        b.segments@.len() == a.segments@.len(),
        b.current == a.current,
        forall|i: int|
            0 <= i < a.segments@.len() && i != a.current ==> #[trigger] b.segments@[i]
                == a.segments@[i],
        forall|i: int| 0 <= i < a.segments@.len() ==> (#[trigger] b.segments@[i]).text
            == a.segments@[i].text,
        forall|k: int|
            0 <= k < a.at().attachments@.len() ==> #[trigger] b.at().attachments@[k]
                == a.at().attachments@[k],
        b.at().attachments@.len() == if a.at().attachments@.len() < 4 {
            a.at().attachments@.len() + 1
        } else {
            a.at().attachments@.len()
        },
{
    assert(a.segments@[a.current as int].attachments@.len() <= 4);
    if a.at().attachments@.len() < 4 {
        assert forall|k: int| 0 <= k < a.at().attachments@.len() implies #[trigger]
        b.at().attachments@[k] == a.at().attachments@[k] by {
            assert(b.at().attachments@.drop_last()[k] == b.at().attachments@[k]);
        }
    }
}

/// A picked file is asked for, and waits as a picture without bytes until it has
/// been read. A picker that is left without one changes nothing.
pub proof fn lemma_picked_file_is_read(
    a: ComposeScreen,
    b: ComposeScreen,
    result: PickResult,
    has_worker: bool,
    r: Option<WorkRequest>,
)
    requires
        a.wf(),
        pick_taken(a, b, result, has_worker, r),
    ensures
        b.deferred.picker_close,
        b.deferred.remove == a.deferred.remove && b.state == a.state && b.reply_to == a.reply_to,
        result is Cancelled ==> b.draft == a.draft && r is None,
        result matches PickResult::Picked(path) ==> a.draft.at().attachments@.len() < 4 ==> {
            &&& b.draft.at().attachments@.len() == a.draft.at().attachments@.len() + 1
            &&& b.draft.at().attachments@.last().key@ == path@
            &&& b.draft.at().attachments@.last().bytes is None
            &&& b.draft.at().attachments@.last().alt@.len() == 0
            &&& b.draft.at().text == a.draft.at().text
            &&& has_worker ==> r == Some(WorkRequest::ReadImageFile { path })
        },
        result is Picked && a.draft.at().attachments@.len() >= 4 ==> r is None
            && b.draft.at().attachments@ == a.draft.at().attachments@,
        !has_worker ==> r is None,
{
}

/// A photograph is attached with the bytes that were confirmed, as a JPEG; a
/// camera that is left without one changes nothing.
pub proof fn lemma_photograph_is_attached(
    a: ComposeScreen,
    b: ComposeScreen,
    result: CameraResult,
    previewed: bool,
)
    requires
        a.wf(),
        photo_taken(a, b, result, previewed),
    ensures
        b.deferred.camera_close,
        b.state == a.state && b.reply_to == a.reply_to && b.picker == a.picker,
        result is Cancelled ==> b.draft == a.draft,
        result matches CameraResult::Confirmed(jpeg) ==> a.draft.at().attachments@.len() < 4 ==> {
            &&& b.draft.at().attachments@.len() == a.draft.at().attachments@.len() + 1
            &&& b.draft.at().attachments@.last().bytes matches Some(x) && x@ == jpeg@
            &&& b.draft.at().attachments@.last().mime@ == "image/jpeg"@
            &&& b.draft.at().attachments@.last().alt@.len() == 0
            &&& b.draft.at().attachments@.last().previewed == previewed
            &&& b.draft.at().text == a.draft.at().text
        },
        result is Confirmed && a.draft.at().attachments@.len() >= 4
            ==> b.draft.at().attachments@ == a.draft.at().attachments@,
{
}

/// The picture waits for a file.
pub open spec fn waits_for(a: Attachment, key: Seq<char>) -> bool {
    a.bytes is None && a.key@ == key
}

proof fn lemma_reading_in(atts: Seq<Attachment>, key: Seq<char>, from: int)
    requires
        0 <= from <= atts.len(),
    ensures
        from <= reading_in(atts, key, from) <= atts.len(),
        reading_in(atts, key, from) < atts.len() ==> waits_for(
            atts[reading_in(atts, key, from)],
            key,
        ),
        forall|k: int|
            from <= k < reading_in(atts, key, from) ==> !waits_for(#[trigger] atts[k], key),
    decreases atts.len() - from,
{
    if from < atts.len() && !(!atts[from].is_loaded() && atts[from].key@ == key) {
        lemma_reading_in(atts, key, from + 1);
    }
}

proof fn lemma_reading_at(segs: Seq<Segment>, key: Seq<char>, from: int)
    requires
        0 <= from <= segs.len(),
    ensures
        reading_at(segs, key, from) matches Some(p) ==> {
            &&& from <= p.0 < segs.len()
            &&& 0 <= p.1 < segs[p.0].attachments@.len()
            &&& waits_for(segs[p.0].attachments@[p.1], key)
            &&& forall|k: int|
                0 <= k < p.1 ==> !waits_for(#[trigger] segs[p.0].attachments@[k], key)
            &&& forall|s: int, k: int|
                from <= s < p.0 && 0 <= k < segs[s].attachments@.len() ==> !waits_for(
                    #[trigger] segs[s].attachments@[k],
                    key,
                )
        },
        reading_at(segs, key, from) is None ==> forall|s: int, k: int|
            from <= s < segs.len() && 0 <= k < segs[s].attachments@.len() ==> !waits_for(
                #[trigger] segs[s].attachments@[k],
                key,
            ),
    decreases segs.len() - from,
{
    if from < segs.len() {
        lemma_reading_in(segs[from].attachments@, key, 0);
        lemma_reading_at(segs, key, from + 1);
    }
}

/// A picture that was read goes to one that waits for its file, with its bytes
/// and its type, and keeps the description it has by then. One that waits for
/// the file is served if there is any, and every other picture and every text
/// stay as they are.
pub proof fn lemma_read_picture_is_taken(
    a: Seq<Segment>,
    b: Seq<Segment>,
    key: Seq<char>,
    image: PreparedImage,
    s: int,
    k: int,
)
    requires
        image_taken(a, b, key, image),
        0 <= s < a.len(),
        0 <= k < a[s].attachments@.len(),
    ensures
        b.len() == a.len(),
        b[s].text == a[s].text,
        b[s].attachments@.len() == a[s].attachments@.len(),
        b[s].attachments@[k].alt == a[s].attachments@[k].alt,
        b[s].attachments@[k].key == a[s].attachments@[k].key,
        !waits_for(a[s].attachments@[k], key) ==> b[s].attachments@[k] == a[s].attachments@[k],
        b[s].attachments@[k] != a[s].attachments@[k] ==> {
            &&& b[s].attachments@[k].bytes == Some(image.bytes)
            &&& b[s].attachments@[k].mime == image.mime
            &&& b[s].attachments@[k].previewed == image.previewed
        },
        waits_for(a[s].attachments@[k], key) ==> exists|t: int, j: int|
            0 <= t < a.len() && 0 <= j < a[t].attachments@.len() && waits_for(
                a[t].attachments@[j],
                key,
            ) && (#[trigger] b[t].attachments@[j]).bytes == Some(image.bytes),
{
    lemma_reading_at(a, key, 0);
    match reading_at(a, key, 0) {
        Some(p) => {
            assert(b[p.0].attachments@[p.1].bytes == Some(image.bytes));
        },
        None => {},
    }
}

/// A picture that is dropped goes with the next frame, and no other picture, no
/// text and no other post does. A published draft is not touched any more.
pub proof fn lemma_dropped_picture_goes(a: ComposeScreen, b: ComposeScreen, k: int)
    requires
        a.wf(),
        begun(a, b),
        0 <= k < a.draft.at().attachments@.len(),
    ensures
        a.done ==> b == a,
        !a.done ==> {
            &&& b.draft.segments@.len() == a.draft.segments@.len()
            &&& b.draft.current == a.draft.current
            &&& b.draft.at().text == a.draft.at().text
            &&& forall|i: int|
                0 <= i < a.draft.segments@.len() && i != a.draft.current ==> #[trigger]
                b.draft.segments@[i] == a.draft.segments@[i]
            &&& b.deferred.remove is None && !b.deferred.picker_close && !b.deferred.camera_close
            &&& a.deferred.picker_close ==> b.picker is None
            &&& !a.deferred.picker_close ==> b.picker == a.picker
            &&& a.deferred.camera_close ==> b.camera is None
            &&& !a.deferred.camera_close ==> b.camera == a.camera
            &&& b.state == a.state && b.reply_to == a.reply_to && b.viewing == a.viewing
        },
        !a.done && a.deferred.remove is None ==> b.draft == a.draft,
        a.deferred.remove matches Some(i) ==> !a.done && i < a.draft.at().attachments@.len() ==> {
            &&& b.draft.at().attachments@.len() == a.draft.at().attachments@.len() - 1
            &&& k < i ==> b.draft.at().attachments@[k] == a.draft.at().attachments@[k]
            &&& k > i ==> b.draft.at().attachments@[k - 1] == a.draft.at().attachments@[k]
        },
{
}

// ── The strip of pictures ──────────────────────────────────────────────

proof fn lemma_removal(
    b: CellButtons,
    count: int,
    touches: Seq<TouchPoint>,
    on: bool,
    n: int,
    k: int,
)
    ensures
        removal(b, count, touches, on, n) matches Some(i) ==> 0 <= n <= usize::MAX ==> i < n && hit(
            on,
            b.removes@[i as int],
            touches,
            remove_rect(i as int, count),
        ),
        removal(b, count, touches, on, n) is None && 0 <= k < n ==> !hit(
            on,
            b.removes@[k],
            touches,
            remove_rect(k, count),
        ),
    decreases n,
{
    if n > 0 {
        lemma_removal(b, count, touches, on, n - 1, k);
    }
}

proof fn lemma_view_opened(
    b: CellButtons,
    atts: Seq<Attachment>,
    touches: Seq<TouchPoint>,
    on: bool,
    n: int,
    k: int,
)
    ensures
        view_opened(b, atts, touches, on, n) matches Some(i) ==> 0 <= n <= usize::MAX ==> i < n
            && atts[i as int].previewed && hit(
            on,
            b.thumbs@[i as int],
            touches,
            thumb_rect(i as int, atts.len() as int),
        ),
        view_opened(b, atts, touches, on, n) is None && 0 <= k < n && atts[k].previewed ==> !hit(
            on,
            b.thumbs@[k],
            touches,
            thumb_rect(k, atts.len() as int),
        ),
    decreases n,
{
    if n > 0 {
        lemma_view_opened(b, atts, touches, on, n - 1, k);
    }
}

/// In the strip, the corner of a picture drops that picture and its body shows
/// that picture; the two buttons behind them open the picker and the camera
/// while there are fewer than four. Nothing there changes the draft at once.
pub proof fn lemma_strip_does_what_it_shows(
    a: ComposeScreen,
    b: ComposeScreen,
    touches: Seq<TouchPoint>,
    on: bool,
    r: StripOutcome,
    k: int,
)
    requires
        a.wf(),
        strip_handled(a, b, touches, on, r),
        0 <= k < a.draft.at().attachments@.len(),
    ensures
        b.draft == a.draft && b.state == a.state && b.reply_to == a.reply_to,
        b.deferred.remove != a.deferred.remove ==> (b.deferred.remove matches Some(i) && i
            < a.draft.at().attachments@.len() && a.btns.cells.removes@[i as int].pressed_last),
        on && touches.len() == 0 && a.btns.cells.removes@[k].pressed_last ==> b.deferred.remove
            is Some,
        b.viewing != a.viewing ==> (b.viewing matches Some(i) && i
            < a.draft.at().attachments@.len() && a.btns.cells.thumbs@[i as int].pressed_last
            && a.draft.at().attachments@[i as int].previewed),
        on && touches.len() == 0 && a.btns.cells.thumbs@[k].pressed_last
            && a.draft.at().attachments@[k].previewed ==> b.viewing is Some,
        !on || touches.len() > 0 ==> b.deferred == a.deferred && b.viewing == a.viewing && b.picker
            == a.picker && !r.open_camera,
        a.draft.at().attachments@.len() == 4 ==> b.picker == a.picker && !r.open_camera,
        a.draft.at().attachments@.len() < 4 && on && touches.len() == 0 ==> r.open_camera
            == a.btns.camera.pressed_last && (a.btns.add_image.pressed_last ==> b.picker is Some),
        !a.btns.add_image.pressed_last ==> b.picker == a.picker,
        b.deferred.picker_close == a.deferred.picker_close && b.deferred.camera_close
            == a.deferred.camera_close,
{
    let atts = a.draft.at().attachments@;
    let n = atts.len() as int;
    assert(a.draft.segments@[a.draft.current as int].attachments@.len() <= 4);
    lemma_removal(a.btns.cells, n, touches, on, n, k);
    lemma_view_opened(a.btns.cells, atts, touches, on, n, k);
}

/// Two places of the display have no point in common.
pub open spec fn apart(r: Rect, s: Rect) -> bool {
    r.x + r.w <= s.x || s.x + s.w <= r.x || r.y + r.h <= s.y || s.y + s.h <= r.y
}

/// The place lies on the display.
pub open spec fn on_display(r: Rect) -> bool {
    0 <= r.x && 0 <= r.y && 0 < r.w && 0 < r.h && r.x + r.w <= 960 && r.y + r.h <= 544
}

/// Every part of the editor lies on the display, apart from every other, so that
/// one touch never means two of them.
pub proof fn lemma_editor_parts_apart(s: ComposeScreen, i: int, j: int, y: int)
    requires
        s.wf(),
        0 <= i < s.draft.at().attachments@.len(),
        0 <= j < s.draft.at().attachments@.len(),
        y == crate::compose::bar_y(s.reply_handle),
    ensures
        ({
            let n = s.draft.at().attachments@.len() as int;
            let area = area_rect(s.reply_handle, n);
            &&& on_display(area) && on_display(remove_rect(i, n)) && on_display(thumb_rect(i, n))
            &&& n < 4 ==> on_display(add_rect(n)) && on_display(camera_rect(n)) && apart(
                add_rect(n),
                camera_rect(n),
            ) && apart(add_rect(n), thumb_rect(i, n)) && apart(add_rect(n), remove_rect(i, n))
                && apart(camera_rect(n), thumb_rect(i, n)) && apart(
                camera_rect(n),
                remove_rect(i, n),
            ) && apart(add_rect(n), area) && apart(camera_rect(n), area)
            &&& apart(remove_rect(i, n), thumb_rect(j, n))
            &&& i != j ==> apart(remove_rect(i, n), remove_rect(j, n)) && apart(
                thumb_rect(i, n),
                thumb_rect(j, n),
            )
            &&& apart(area, thumb_rect(i, n)) && apart(area, remove_rect(i, n))
            &&& on_display(prev_rect(y)) && on_display(next_rect(y)) && on_display(more_rect(y))
                && on_display(drop_rect(y)) && on_display(thread_rect(y))
            &&& apart(prev_rect(y), next_rect(y)) && apart(next_rect(y), more_rect(y)) && apart(
                more_rect(y),
                drop_rect(y),
            ) && apart(prev_rect(y), more_rect(y)) && apart(prev_rect(y), drop_rect(y)) && apart(
                next_rect(y),
                drop_rect(y),
            )
            &&& apart(area, prev_rect(y)) && apart(area, next_rect(y)) && apart(
                area,
                more_rect(y),
            ) && apart(area, drop_rect(y)) && apart(area, thread_rect(y))
        }),
{
    assert(s.draft.segments@[s.draft.current as int].attachments@.len() <= 4);
}

// ── The thread bar ─────────────────────────────────────────────────────

/// The thread bar never changes what a post says. A post is added at the end and
/// empty, the one being written is dropped alone, and never the last one left;
/// without a click the posts stay, and so does what else is on screen.
pub proof fn lemma_thread_bar_keeps_posts(
    a: ComposeScreen,
    b: ComposeScreen,
    pad: PadFrame,
    touches: Seq<TouchPoint>,
    on: bool,
)
    requires
        a.wf(),
        thread_followed(a, b, pad, touches, on),
    ensures
        ({
            let n = a.draft.segments@.len() as int;
            let m = b.draft.segments@.len() as int;
            &&& m == n || m == n + 1 || m == n - 1
            &&& 1 <= m <= 25
            &&& b.draft.current < m
            &&& !on ==> b.draft.segments@ == a.draft.segments@ && b.draft.current
                == a.draft.current
            &&& m == n ==> b.draft.segments@ == a.draft.segments@
            &&& m == n + 1 ==> {
                &&& a.btns.add_seg.pressed_last
                &&& forall|i: int|
                    0 <= i < n ==> #[trigger] b.draft.segments@[i] == a.draft.segments@[i]
                &&& b.draft.segments@[n].text@.len() == 0
                &&& b.draft.segments@[n].attachments@.len() == 0
                &&& b.draft.current == n
            }
            &&& m == n - 1 ==> a.btns.remove_seg.pressed_last && n > 1
            &&& touches.len() > 0 ==> m == n
            &&& on && touches.len() == 0 && a.btns.add_seg.pressed_last && !(n > 1
                && a.btns.remove_seg.pressed_last) && n < 25 ==> m == n + 1
            &&& on && touches.len() == 0 && a.btns.remove_seg.pressed_last && n > 1 && !(
            a.btns.add_seg.pressed_last && n < 25) ==> m == n - 1
        }),
        b.state == a.state && b.reply_to == a.reply_to && b.done == a.done,
        b.picker == a.picker && b.camera == a.camera && b.viewing == a.viewing && b.deferred
            == a.deferred,
{
    let n = a.draft.segments@.len() as int;
    let segs = a.draft.segments@;
    if b.draft.segments@.len() == n + 1 {
        assert forall|i: int| 0 <= i < n implies #[trigger] b.draft.segments@[i]
            == a.draft.segments@[i] by {
            assert(b.draft.segments@.drop_last()[i] == b.draft.segments@[i]);
        }
    }
}

/// Left and right, and the two arrows, go to the post before and to the one
/// behind, and stay where there is none.
pub proof fn lemma_thread_steps(
    a: ComposeScreen,
    b: ComposeScreen,
    pad: PadFrame,
    touches: Seq<TouchPoint>,
    on: bool,
)
    requires
        a.wf(),
        thread_followed(a, b, pad, touches, on),
        a.draft.segments@.len() > 1,
        touches.len() > 0 || (!a.btns.add_seg.pressed_last && !a.btns.remove_seg.pressed_last),
    ensures
        b.draft.segments@ == a.draft.segments@,
        ({
            let n = a.draft.segments@.len() as int;
            let c = a.draft.current as int;
            let prev = touches.len() == 0 && a.btns.prev_seg.pressed_last;
            let next = touches.len() == 0 && a.btns.next_seg.pressed_last;
            &&& !on ==> b.draft.current == c
            &&& on && pad.left && !pad.right && !prev && !next ==> b.draft.current == if c > 0 {
                c - 1
            } else {
                0
            }
            &&& on && pad.right && !pad.left && !prev && !next ==> b.draft.current == if c + 1
                < n {
                c + 1
            } else {
                n - 1
            }
            &&& on && prev && !next && !pad.left && !pad.right ==> b.draft.current == if c > 0 {
                c - 1
            } else {
                0
            }
            &&& on && next && !prev && !pad.left && !pad.right ==> b.draft.current == if c + 1
                < n {
                c + 1
            } else {
                n - 1
            }
            &&& on && !prev && !next && !pad.left && !pad.right ==> b.draft.current == c
        }),
{
}

/// Dropping the post that is being written keeps every other one, in order.
pub proof fn lemma_dropped_post_alone(
    a: ComposeScreen,
    b: ComposeScreen,
    pad: PadFrame,
    touches: Seq<TouchPoint>,
    i: int,
)
    requires
        a.wf(),
        thread_followed(a, b, pad, touches, true),
        a.draft.segments@.len() > 1,
        touches.len() == 0,
        a.btns.remove_seg.pressed_last,
        !a.btns.add_seg.pressed_last && !a.btns.prev_seg.pressed_last
            && !a.btns.next_seg.pressed_last,
        !pad.left && !pad.right,
        0 <= i < a.draft.segments@.len() - 1,
    ensures
        b.draft.segments@.len() == a.draft.segments@.len() - 1,
        i < a.draft.current ==> b.draft.segments@[i] == a.draft.segments@[i],
        i >= a.draft.current ==> b.draft.segments@[i] == a.draft.segments@[i + 1],
{
}

// ── Answers ────────────────────────────────────────────────────────────

/// A published draft is emptied and left. A refused one stays word for word, and
/// the reason is kept. No other answer changes what is written, but for a
/// picture that is waited for.
pub proof fn lemma_answer_to_draft(
    a: ComposeScreen,
    b: ComposeScreen,
    resp: WorkResponse,
    image: Option<PreparedImage>,
    thumb: bool,
)
    requires
        a.wf(),
        compose_responded(a, b, resp, image, thumb),
    ensures
        resp matches WorkResponse::PostCreated(Ok(_)) ==> b.done && b.draft.segments@.len() == 1
            && b.draft.segments@[0].text@.len() == 0 && b.draft.segments@[0].attachments@.len()
            == 0 && !(b.state is Submitting) && !(b.state is Error),
        resp matches WorkResponse::PostCreated(Err(e)) ==> b.state == ComposeState::Error(e)
            && b.draft == a.draft && b.done == a.done,
        !(resp is PostCreated) ==> b.state == a.state && b.done == a.done,
        !(resp is PostCreated) && !(resp is Image) ==> b == a,
        resp matches WorkResponse::Image { url, bytes } ==> {
            &&& bytes is Err || image is None ==> b.draft == a.draft
            &&& bytes is Ok && image is Some ==> image_taken(
                a.draft.segments@,
                b.draft.segments@,
                url@,
                image->0,
            ) && b.draft.current == a.draft.current
            &&& a.picker is None ==> b.picker is None
            &&& a.picker matches Some(p) ==> (b.picker matches Some(q) && q.thumbs@.dom()
                =~= p.thumbs@.dom())
        },
        b.reply_to == a.reply_to && b.reply_handle == a.reply_handle,
        b.viewing == a.viewing && b.camera == a.camera && b.deferred == a.deferred,
{
}

// ── Uploads ────────────────────────────────────────────────────────────

/// A file of at most a million bytes is uploaded as it is; a larger one is
/// decoded, and one that cannot be decoded is uploaded as it is.
pub proof fn lemma_small_file_stays(size: int, decoded: bool)
    ensures
        size <= 1_000_000 <==> first_step(size) == FitStep::Raw,
        size > 1_000_000 <==> first_step(size) == FitStep::Decode,
        !decoded ==> decoded_step(decoded) == FitStep::Raw,
        decoded ==> decoded_step(decoded) is Encode,
{
}

/// An encoding that fits is uploaded. One that does not, or that failed, is
/// tried again at a lower quality, as long as there is one.
pub proof fn lemma_encoding_that_fits(quality: u8, size: Option<usize>)
    ensures
        size matches Some(n) ==> n <= 1_000_000 ==> encoded_step(quality, size)
            == FitStep::Encoded,
        encoded_step(quality, size) matches FitStep::Encode { quality: q } ==> 55 <= q < quality,
        quality > 55 && (size matches Some(n) ==> n > 1_000_000) ==> encoded_step(
            quality,
            size,
        ) is Encode,
        encoded_step(quality, size) is Encoded ==> size is Some,
        !(encoded_step(quality, size) is Decode),
{
}

/// What is uploaded is what was encoded, as a JPEG, or else the file itself,
/// under the type that its name tells.
pub proof fn lemma_uploaded_bytes(
    raw: Vec<u8>,
    path: Seq<char>,
    encoded: Option<Vec<u8>>,
    r: (Vec<u8>, String),
)
    requires
        uploaded_as(raw, path, encoded, r),
    ensures
        encoded matches Some(j) ==> r.0@ == j@ && r.1@ == "image/jpeg"@,
        encoded is None ==> r.0@ == raw@ && r.1@ == mime_of(path),
{
}

/// A name that ends in `.png`, in whatever case, is a PNG; every other one is
/// taken for a JPEG.
pub proof fn lemma_type_by_name(path: Seq<char>)
    ensures
        ({
            let n = path.len() as int;
            let png = n >= 4 && path[n - 4] == '.' && (path[n - 3] == 'p' || path[n - 3] == 'P')
                && (path[n - 2] == 'n' || path[n - 2] == 'N') && (path[n - 1] == 'g' || path[n - 1]
                == 'G');
            &&& png ==> mime_of(path) == "image/png"@
            &&& !png ==> mime_of(path) == "image/jpeg"@
        }),
{
    reveal_strlit(".png");
    let n = path.len() as int;
    let low = ascii_lowered(path);
    if n >= 4 {
        let tail = low.subrange(n - 4, n);
        assert(tail[0] == ascii_lower(path[n - 4]));
        assert(tail[1] == ascii_lower(path[n - 3]));
        assert(tail[2] == ascii_lower(path[n - 2]));
        assert(tail[3] == ascii_lower(path[n - 1]));
        if path[n - 4] == '.' && tail[1] == 'p' && tail[2] == 'n' && tail[3] == 'g' {
            assert(tail =~= ".png"@);
        }
    }
}

} // verus!
