//! What is remembered of a touch from frame to frame, where the selection goes,
//! and which rows are found.

use vstd::prelude::*;

#[allow(unused_imports)]
use crate::compose::{
    area_followed, area_rect, bar_y, cells_tracked, drop_rect, header_followed, more_rect,
    next_rect, prev_rect, remove_rect, thread_followed, thread_rect, thumb_rect, CellButtons,
    ComposeScreen, HeaderOutcome, KeyboardRequest,
};
#[allow(unused_imports)]
use crate::compose_draft::Attachment;
#[allow(unused_imports)]
use crate::conversation::{
    bar_followed, header_rect, send_rect, text_rect, ComposeBar, ConversationScreen,
};
#[allow(unused_imports)]
use crate::file_picker::{
    cell_place, cell_shows, cells_followed, chip_rect, chips_followed, FilePicker,
};
#[allow(unused_imports)]
use crate::login::{LoginMode, LoginScreen};
#[allow(unused_imports)]
use crate::post_row::TapAction;
#[allow(unused_imports)]
use crate::profile::{
    follow_followed, logout_followed, message_followed, not_at_hand, ProfileScreen,
};
#[allow(unused_imports)]
use crate::profile_frame::{content_followed, content_steps, ProfileInput};
#[allow(unused_imports)]
use crate::requests::WorkRequest;
#[allow(unused_imports)]
use crate::rows::{first_in_band, first_visible, in_band, row_top, step_moves, stepped};
#[allow(unused_imports)]
use crate::screen::ScreenAction;
#[allow(unused_imports)]
use crate::timeline::{pill_on_screen, pill_rect, pills_tracked, Pill, TimelineScreen};
#[allow(unused_imports)]
use crate::widget::{touched, Rect, TouchPoint};

verus! {

// ── Touches ────────────────────────────────────────────────────────────

/// In the picker a cell that shows, and a shortcut, remember whether a touch is
/// on them.
pub proof fn lemma_picker_remembers(
    a: FilePicker,
    b: FilePicker,
    c: FilePicker,
    d: FilePicker,
    widths: Seq<i32>,
    touches: Seq<TouchPoint>,
    tapped: Option<usize>,
    unread: bool,
    i: int,
    k: int,
)
    requires
        cells_followed(a, b, touches, tapped),
        chips_followed(c, d, widths, touches, unread),
        0 <= k < 3,
    ensures
        a.error is None && 0 <= i < a.cell_btns@.len() && cell_shows(i, a.scroll_row as int) ==> (
        b.cell_btns@[i].pressed_last <==> touched(touches, cell_place(i, a.scroll_row as int))),
        a.error is None && 0 <= i < a.cell_btns@.len() && !cell_shows(i, a.scroll_row as int)
            ==> b.cell_btns@[i] == a.cell_btns@[i],
        b.cell_btns@.len() == a.cell_btns@.len(),
        d.chip_btns@[k].pressed_last <==> touched(touches, chip_rect(widths, k)),
{
}

/// In a draft the buttons above the text remember whether a touch is on them, and
/// so does the text.
pub proof fn lemma_draft_remembers(
    a: ComposeScreen,
    h: ComposeScreen,
    t: ComposeScreen,
    w: ComposeScreen,
    pad: crate::widget::PadFrame,
    touches: Seq<TouchPoint>,
    on: bool,
    has_worker: bool,
    head: HeaderOutcome,
    keyboard: Option<KeyboardRequest>,
)
    requires
        header_followed(a, h, touches, on, has_worker, head),
        thread_followed(h, t, pad, touches, on),
        area_followed(t, w, touches, on, keyboard),
    ensures
        ({
            let y = bar_y(a.reply_handle);
            let several = a.draft.segments@.len() != 1;
            &&& h.btns.cancel.pressed_last <==> touched(
                touches,
                Rect { x: 8, y: 8, w: 100, h: 40 },
            )
            &&& !head.cancel ==> (h.btns.post.pressed_last <==> touched(
                touches,
                Rect { x: 852, y: 8, w: 100, h: 40 },
            ))
            &&& several ==> (t.btns.prev_seg.pressed_last <==> touched(touches, prev_rect(y)))
            &&& several ==> (t.btns.next_seg.pressed_last <==> touched(touches, next_rect(y)))
            &&& several ==> (t.btns.add_seg.pressed_last <==> touched(touches, more_rect(y)))
            &&& several ==> (t.btns.remove_seg.pressed_last <==> touched(touches, drop_rect(y)))
            &&& !several ==> (t.btns.add_seg.pressed_last <==> touched(touches, thread_rect(y)))
            &&& w.btns.text_area.pressed_last <==> touched(
                touches,
                area_rect(t.reply_handle, t.draft.at().attachments@.len() as int),
            )
            &&& w.btns.cancel == h.btns.cancel && w.btns.post == h.btns.post
        }),
{
}

/// The pictures of a draft remember whether a touch is on them, and so do the
/// corners that drop them.
pub proof fn lemma_pictures_remember(
    a: CellButtons,
    b: CellButtons,
    atts: Seq<Attachment>,
    touches: Seq<TouchPoint>,
    i: int,
)
    requires
        cells_tracked(a, b, atts, touches),
        0 <= i < atts.len(),
        i < a.removes@.len(),
        i < a.thumbs@.len(),
    ensures
        b.removes@[i].pressed_last <==> touched(touches, remove_rect(i, atts.len() as int)),
        atts[i].previewed ==> (b.thumbs@[i].pressed_last <==> touched(
            touches,
            thumb_rect(i, atts.len() as int),
        )),
        !atts[i].previewed ==> b.thumbs@[i] == a.thumbs@[i],
        b.removes@.len() == a.removes@.len() && b.thumbs@.len() == a.thumbs@.len(),
{
    reveal(cells_tracked);
}

/// A pill that shows remembers whether a touch is on it.
pub proof fn lemma_pills_remember(
    a: TimelineScreen,
    b: TimelineScreen,
    widths: Seq<i32>,
    touches: Seq<TouchPoint>,
    pills: Seq<Pill>,
    tapped: Option<usize>,
    i: int,
)
    requires
        pills_tracked(a, b, widths, touches, pills, tapped),
        0 <= i < a.pill_buttons@.len(),
    ensures
        b.pill_buttons@.len() == a.pill_buttons@.len(),
        i < a.saved_feeds@.len() && pill_on_screen(a.saved_feeds@, widths, i) ==> (
        b.pill_buttons@[i].pressed_last <==> touched(
            touches,
            pill_rect(a.saved_feeds@, widths, i),
        )),
{
}

/// The buttons below a profile's header remember whether a touch is on them.
pub proof fn lemma_header_remembers(
    a: ProfileScreen,
    f: ProfileScreen,
    m: ProfileScreen,
    touches: Seq<TouchPoint>,
    scroll: int,
    now: u64,
    has_worker: bool,
    follow: Option<WorkRequest>,
    message: Option<WorkRequest>,
)
    requires
        a.state is Loaded,
        follow_followed(a, f, touches, scroll, has_worker, follow),
        message_followed(a, m, touches, scroll, has_worker, message),
    ensures
        f.contact.follow_btn.pressed_last <==> touched(
            touches,
            ProfileScreen::follow_rect(scroll),
        ),
        m.contact.message_btn.pressed_last <==> touched(
            touches,
            ProfileScreen::message_rect(scroll),
        ),
        logout_followed(a, touches, scroll, now).logout.btn.pressed_last <==> touched(
            touches,
            ProfileScreen::logout_rect(scroll),
        ),
        f.contact.message_btn == a.contact.message_btn,
        m.contact.follow_btn == a.contact.follow_btn,
{
}

/// The buttons of a conversation remember whether a touch is on them.
pub proof fn lemma_conversation_remembers(
    a: ConversationScreen,
    b: ConversationScreen,
    c: ConversationScreen,
    touches: Vec<TouchPoint>,
    ime_active: bool,
    has_worker: bool,
    bar: Option<ComposeBar>,
    way: ScreenAction,
)
    requires
        a@.phase is Ready,
        bar_followed(a, b, touches@, ime_active, has_worker, bar),
        ConversationScreen::header_tapped(a, c, touches, ime_active, way),
    ensures
        b@.send_btn.pressed_last <==> touched(touches@, send_rect()),
        b@.compose_btn.pressed_last <==> touched(touches@, text_rect()),
        c@.header_btn.pressed_last <==> touched(touches@, header_rect()),
{
}

/// The fields and buttons of the login form remember whether a touch is on them,
/// and keep what was entered.
pub proof fn lemma_form_remembers(s: LoginScreen, touches: Seq<TouchPoint>)
    ensures
        ({
            let t = LoginScreen::form_tracked(s, touches);
            &&& t.handle.pressed_last <==> touched(touches, crate::login::handle_rect())
            &&& s.mode == LoginMode::AppPassword ==> (t.password.pressed_last <==> touched(
                touches,
                crate::login::password_rect(),
            ))
            &&& t.primary_btn.pressed_last <==> touched(touches, crate::login::primary_rect())
            &&& t.toggle_link_btn.pressed_last <==> touched(touches, crate::login::toggle_rect())
            &&& t.handle.value == s.handle.value && t.password.value == s.password.value
            &&& t.state == s.state && t.mode == s.mode
        }),
{
}

// ── Selections and rows ────────────────────────────────────────────────

/// Up goes to the row before, down to the one behind, and both stay at the ends;
/// a step counts as one just where there is a row to go to.
pub proof fn lemma_steps(sel: int, n: int)
    requires
        0 <= sel < n,
    ensures
        stepped(sel, false, false, n) == sel && !step_moves(sel, false, false, n),
        sel > 0 ==> stepped(sel, true, false, n) == sel - 1 && step_moves(sel, true, false, n),
        sel == 0 ==> stepped(sel, true, false, n) == 0 && !step_moves(sel, true, false, n),
        sel + 1 < n ==> stepped(sel, false, true, n) == sel + 1 && step_moves(sel, false, true, n),
        sel + 1 == n ==> stepped(sel, false, true, n) == sel && !step_moves(sel, false, true, n),
        sel > 0 ==> stepped(sel, true, true, n) == sel,
{
}

/// The first row of a band is in it, and none before it is; it is the first of
/// all where none is in the band.
pub proof fn lemma_first_in_band(rows: Seq<i32>, origin: int, band: (int, int), from: int)
    requires
        0 <= from,
    ensures
        ({
            let r = first_in_band(rows, origin, band, from);
            ||| {
                &&& from <= r < rows.len()
                &&& in_band(origin + row_top(rows, r), rows[r] as int, band.0, band.1)
                &&& forall|i: int|
                    from <= i < r ==> !in_band(
                        origin + #[trigger] row_top(rows, i),
                        rows[i] as int,
                        band.0,
                        band.1,
                    )
            }
            ||| {
                &&& r == 0
                &&& forall|i: int|
                    from <= i < rows.len() ==> !in_band(
                        origin + #[trigger] row_top(rows, i),
                        rows[i] as int,
                        band.0,
                        band.1,
                    )
            }
        }),
    decreases rows.len() - from,
{
    if from < rows.len() && !in_band(
        origin + row_top(rows, from),
        rows[from] as int,
        band.0,
        band.1,
    ) {
        lemma_first_in_band(rows, origin, band, from + 1);
    }
}

/// The first row that shows ends below the top of the view, and those before it
/// do not; it is the last one where none does.
pub proof fn lemma_first_visible(rows: Seq<i32>, scroll: int, from: int)
    requires
        0 <= from,
        rows.len() > 0,
    ensures
        ({
            let r = first_visible(rows, scroll, from);
            ||| {
                &&& from <= r < rows.len()
                &&& row_top(rows, r) + rows[r] > scroll
                &&& forall|i: int|
                    from <= i < r ==> #[trigger] row_top(rows, i) + rows[i] <= scroll
            }
            ||| {
                &&& r == rows.len() - 1
                &&& forall|i: int|
                    from <= i < rows.len() ==> #[trigger] row_top(rows, i) + rows[i] <= scroll
            }
        }),
    decreases rows.len() - from,
{
    if from < rows.len() && row_top(rows, from) + rows[from] <= scroll {
        lemma_first_visible(rows, scroll, from + 1);
    }
}

// ── The content of a profile ───────────────────────────────────────────

/// Without a worker the content of a profile asks for nothing. With one the
/// pictures that are not at hand are asked for behind the next page.
pub proof fn lemma_content_asks(
    a: ProfileScreen,
    t: ProfileScreen,
    input: ProfileInput,
    reqs: Seq<WorkRequest>,
    action: ScreenAction,
)
    requires
        content_followed(a, t, input, reqs, action),
    ensures
        !input.has_worker ==> reqs.len() == 0,
        input.has_worker ==> reqs.len() >= not_at_hand(
            input.urls,
            input.cached,
            input.urls.len() as int,
        ).len(),
        action is Stay || action is Push,
        t.state == a.state && t.actor == a.actor && t.contact == a.contact,
{
    let (m, page, images, tap, mark, opened) = choose|
        m: ProfileScreen,
        page: Option<WorkRequest>,
        images: Seq<WorkRequest>,
        tap: Option<TapAction>,
        mark: Option<WorkRequest>,
        opened: ScreenAction,
    | #[trigger] content_steps(a, m, t, input, page, images, tap, mark, opened, reqs, action);
    assert(crate::images::fetched(images).len() == images.len());
}

/// Just the addresses that are not at hand are left over, in their order.
pub proof fn lemma_not_at_hand(urls: Seq<Seq<char>>, cached: Seq<bool>, n: int, u: Seq<char>)
    requires
        0 <= n <= urls.len(),
    ensures
        not_at_hand(urls, cached, n).contains(u) <==> exists|i: int|
            0 <= i < n && #[trigger] urls[i] == u && !cached[i],
    decreases n,
{
    if n > 0 {
        lemma_not_at_hand(urls, cached, n - 1, u);
        let before = not_at_hand(urls, cached, n - 1);
        if !cached[n - 1] {
            let now = before.push(urls[n - 1]);
            if before.contains(u) {
                let k = choose|k: int| 0 <= k < before.len() && before[k] == u;
                assert(now[k] == u);
            }
            if urls[n - 1] == u {
                assert(now[before.len() as int] == u);
            }
            if now.contains(u) && urls[n - 1] != u {
                let k = choose|k: int| 0 <= k < now.len() && now[k] == u;
                assert(before[k] == u);
            }
        }
    }
}

} // verus!
