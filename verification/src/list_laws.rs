//! What the lists show and open: the thread around a post, the notifications and
//! the conversations.

use vstd::prelude::*;

#[allow(unused_imports)]
use crate::conversation::{dm_scope_detail, first_other, is_scope_error};
#[allow(unused_imports)]
use crate::conversations::{
    body_is, convos_responded, face_of, tap_leads, ConversationListScreen, ConvosBody, ListState,
};
#[allow(unused_imports)]
use crate::engagement::{toggle_request_is, EngagementKind};
#[allow(unused_imports)]
use crate::model::{name_or_handle, Author, ConvoView, LastMessage, Notification};
#[allow(unused_imports)]
use crate::notifications::{
    headline_of, notif_target, notifs_responded, row_hit, tap_action, NotifState, NotifTapAction,
    NotificationsScreen,
};
#[allow(unused_imports)]
use crate::post_list::posts_marked;
#[allow(unused_imports)]
use crate::requests::{sent, ThreadBatch, WorkRequest, WorkResponse};
#[allow(unused_imports)]
use crate::rows::{
    lemma_row_top_bounds, lemma_uniform, lemma_visible_rows_exact, row_top, rows_in_band, total,
    uniform, VisibleRow,
};
#[allow(unused_imports)]
use crate::screen::{NextScreen, ScreenAction};
#[allow(unused_imports)]
use crate::thread::{
    begun, buttons_followed, flattened, frame_started, selection_moved, settled, start_steps,
    thread_request, thread_responded, ThreadScreen, ThreadState,
};
#[allow(unused_imports)]
use crate::timeline::{FeedBody, FeedStart, PadOutcome, ScrollSettle};
#[allow(unused_imports)]
use crate::widget::{inside, touched, touches_between, PadFrame, TouchPoint};

verus! {

// ── Threads ────────────────────────────────────────────────────────────

/// A thread is shown whole: what the post answers above it, the root first, then
/// the post, then the replies to it, each with the post as it came. The post is
/// selected, and to be scrolled to.
pub proof fn lemma_thread_shown_whole(
    a: ThreadScreen,
    b: ThreadScreen,
    batch: ThreadBatch,
    i: int,
)
    requires
        thread_responded(a, b, WorkResponse::Thread(Ok(batch))),
    ensures
        b.state is Loaded,
        ({
            let n = batch.parents@.len() as int;
            &&& b.posts().len() == n + 1 + batch.replies@.len()
            &&& 0 <= i < n ==> b.posts()[i].post == batch.parents@[i]
            &&& b.posts()[n].post == batch.main
            &&& 0 <= i < batch.replies@.len() ==> b.posts()[n + 1 + i].post == batch.replies@[i]
            &&& 0 <= i < b.posts().len() ==> b.posts()[i].reason is None
            &&& b.state->list.selected_idx == n
            &&& b.state->main_idx == n
        }),
        b.pending_scroll_to_main,
        b.uri == a.uri && b.dispatched == a.dispatched,
        b.shown_body() is Posts,
{
    let n = batch.parents@.len() as int;
    if 0 <= i < b.posts().len() {
        assert(flattened(batch)[i].reason is None);
    }
}

/// A thread that could not be had is told with its reason; marks of another
/// answer, and pictures, leave the thread in place; anything else changes
/// nothing.
pub proof fn lemma_thread_answers(a: ThreadScreen, b: ThreadScreen, resp: WorkResponse)
    requires
        thread_responded(a, b, resp),
    ensures
        resp matches WorkResponse::Thread(Err(e)) ==> b.state == ThreadState::Error(e)
            && b.shown_body() == FeedBody::Problem(e),
        resp matches WorkResponse::LikeChanged(r) ==> (r is Err || r matches Ok(None)) ==> b == a,
        resp matches WorkResponse::RepostChanged(r) ==> (r is Err || r matches Ok(None)) ==> b
            == a,
        resp is LikeChanged || resp is RepostChanged ==> b.posts().len() == a.posts().len()
            && b.selected() == a.selected(),
        resp matches WorkResponse::Image { url, .. } ==> b.state == a.state
            && !b.inflight_avatars@.contains(url@),
        !(resp is Thread) && !(resp is LikeChanged) && !(resp is RepostChanged) && !(
        resp is Image) ==> b == a,
        b.uri == a.uri,
{
}

/// The thread around the post that the screen was opened for is asked for, once.
pub proof fn lemma_thread_asked_once(s: ThreadScreen, has_worker: bool)
    ensures
        thread_request(s, has_worker) matches Some(q) ==> q == (WorkRequest::FetchThread {
            uri: s.uri,
        }) && !s.dispatched && has_worker,
        has_worker && !s.dispatched ==> thread_request(s, has_worker) is Some,
        thread_request(begun(s, has_worker), has_worker) is None,
        begun(s, has_worker).state == s.state && begun(s, has_worker).uri == s.uri,
{
}

/// In a thread the left shoulder likes, the triangle reposts and the right
/// shoulder replies to the selected post. A reply hangs below the selected post
/// and belongs to the thread of the topmost one.
pub proof fn lemma_thread_buttons(
    a: ThreadScreen,
    b: ThreadScreen,
    pad: PadFrame,
    has_worker: bool,
    out: PadOutcome,
)
    requires
        a.wf(),
        buttons_followed(a, b, pad, has_worker, out),
    ensures
        ({
            let sel = a.selected();
            let some = sel < a.posts().len();
            &&& pad.l1 && has_worker && some ==> toggle_request_is(
                out.like_request,
                a.posts()[sel].post,
                EngagementKind::Like,
            )
            &&& !pad.l1 || !has_worker || !some ==> out.like_request is None
            &&& pad.triangle && has_worker && some ==> toggle_request_is(
                out.repost_request,
                a.posts()[sel].post,
                EngagementKind::Repost,
            )
            &&& !pad.triangle || !has_worker || !some ==> out.repost_request is None
            &&& posts_marked(
                a.posts(),
                b.posts(),
                sel,
                pad.l1 && has_worker,
                pad.triangle && has_worker,
            )
            &&& pad.r1 && some ==> (out.push matches Some(NextScreen::Compose {
                reply: Some(t),
                handle: Some(h),
            }) && t.parent_uri == a.posts()[sel].post.uri && t.parent_cid
                == a.posts()[sel].post.cid && t.root_uri == a.posts()[0].post.uri && t.root_cid
                == a.posts()[0].post.cid && h == a.posts()[sel].post.author.handle)
            &&& !pad.r1 || !some ==> out.push is None
        }),
        b.selected() == a.selected(),
        b.uri == a.uri && b.pending_scroll_to_main == a.pending_scroll_to_main,
{
    if !(a.state is Loaded) {
        assert(b.posts() =~= a.posts());
    }
}

/// In a thread up and down go to the post before and to the one behind, and stay
/// at the ends.
pub proof fn lemma_thread_up_and_down(
    a: ThreadScreen,
    b: ThreadScreen,
    pad: PadFrame,
    changed: bool,
)
    requires
        a.wf(),
        selection_moved(a, b, pad, changed),
        a.state is Loaded,
    ensures
        b.posts() == a.posts() && b.state is Loaded && b.state->main_idx == a.state->main_idx,
        !pad.up && !pad.down ==> b.selected() == a.selected() && !changed,
        pad.down && !pad.up ==> b.selected() == if a.selected() + 1 < a.posts().len() {
            a.selected() + 1
        } else {
            a.selected()
        },
        pad.up && !pad.down ==> b.selected() == if a.selected() > 0 {
            a.selected() - 1
        } else {
            0
        },
        b.selected() != a.selected() ==> changed,
{
    assert(a.state->list.posts.len() == a.posts().len());
}

/// The circle leaves a thread, and then nothing is liked, reposted or opened.
pub proof fn lemma_circle_leaves_thread(
    a: ThreadScreen,
    b: ThreadScreen,
    pad: PadFrame,
    has_worker: bool,
    out: FeedStart,
)
    requires
        frame_started(a, b, pad, has_worker, out),
    ensures
        pad.circle ==> out.action is Pop && b.state == a.state && out.requests@ =~= sent(
            thread_request(a, has_worker),
        ),
        !pad.circle ==> out.action is Stay || out.action is Push,
        !pad.circle && !pad.r1 ==> out.action is Stay,
        has_worker && !a.dispatched ==> out.requests@.len() > 0 && out.requests@[0] is FetchThread,
        !has_worker ==> out.requests@.len() == 0,
        b.uri == a.uri,
{
    if !pad.circle {
        let (m, pads) = choose|m: ThreadScreen, pads: PadOutcome|
            #[trigger] start_steps(a, m, b, pad, has_worker, pads, out);
    }
}

/// Once measured, the post itself comes into the middle of the view as far as
/// the thread allows, once; afterwards the view moves only with the selection,
/// and then so that the selected post can be read.
pub proof fn lemma_thread_settles(
    a: ThreadScreen,
    b: ThreadScreen,
    selection_changed: bool,
    scroll: int,
    r: ScrollSettle,
)
    requires
        a.wf(),
        0 <= scroll,
        settled(a, b, selection_changed, scroll, r),
        a.state is Loaded,
    ensures
        b.state == a.state,
        ({
            let rows = a.state->list.row_heights@;
            let sel = a.selected();
            &&& r.limit == if total(rows) > 504 {
                total(rows) - 504
            } else {
                0
            }
            &&& !selection_changed && !a.pending_scroll_to_main ==> r.target is None
                && !b.pending_scroll_to_main
            &&& a.pending_scroll_to_main && sel < rows.len() ==> !b.pending_scroll_to_main
                && r.target is Some
            &&& a.pending_scroll_to_main && sel >= rows.len() ==> b.pending_scroll_to_main
            &&& a.pending_scroll_to_main && sel < rows.len() && !selection_changed ==> (
            r.target matches Some(t) && 0 <= t <= r.limit && (0 < t < r.limit ==> 2 * (row_top(
                rows,
                sel,
            ) - t) + rows[sel] - 504 <= 1 && 2 * (row_top(rows, sel) - t) + rows[sel] - 504
                >= -1))
            &&& selection_changed && sel < rows.len() && rows[sel] <= 404 ==> {
                let at = match r.target {
                    Some(t) => t as int,
                    None => scroll,
                };
                at <= row_top(rows, sel) && row_top(rows, sel) + rows[sel] <= at + 504
            }
        }),
{
    let rows = a.state->list.row_heights@;
    if a.selected() < rows.len() {
        lemma_row_top_bounds(rows, a.selected());
    }
}

// ── Notifications ──────────────────────────────────────────────────────

/// What a notification says: who did it, and what they did, each in its own
/// words.
pub proof fn lemma_headline_tells_what_happened(n: Notification)
    ensures
        ({
            let who = name_or_handle(n.author.display_name, n.author.handle@);
            &&& n.reason@ == "like"@ ==> headline_of(n) == who + " liked your post"@
            &&& n.reason@ == "repost"@ ==> headline_of(n) == who + " reposted your post"@
            &&& n.reason@ == "follow"@ ==> headline_of(n) == who + " followed you"@
            &&& n.reason@ == "mention"@ ==> headline_of(n) == who + " mentioned you"@
            &&& n.reason@ == "reply"@ ==> headline_of(n) == who + " replied to your post"@
            &&& n.reason@ == "quote"@ ==> headline_of(n) == who + " quoted your post"@
            &&& headline_of(n).len() > who.len()
            &&& headline_of(n).take(who.len() as int) == who
        }),
{
    lemma_reasons_apart();
    reveal_strlit(" liked your post");
    reveal_strlit(" reposted your post");
    reveal_strlit(" followed you");
    reveal_strlit(" mentioned you");
    reveal_strlit(" replied to your post");
    reveal_strlit(" quoted your post");
    reveal_strlit(" (");
    reveal_strlit(")");
    let who = name_or_handle(n.author.display_name, n.author.handle@);
    assert(headline_of(n).take(who.len() as int) =~= who);
}

proof fn lemma_reasons_apart()
    ensures
        "like"@ != "repost"@,
        "like"@ != "follow"@,
        "like"@ != "mention"@,
        "like"@ != "reply"@,
        "like"@ != "quote"@,
        "repost"@ != "follow"@,
        "repost"@ != "mention"@,
        "repost"@ != "reply"@,
        "repost"@ != "quote"@,
        "follow"@ != "mention"@,
        "follow"@ != "reply"@,
        "follow"@ != "quote"@,
        "mention"@ != "reply"@,
        "mention"@ != "quote"@,
        "reply"@ != "quote"@,
{
    reveal_strlit("like");
    reveal_strlit("repost");
    reveal_strlit("follow");
    reveal_strlit("mention");
    reveal_strlit("reply");
    reveal_strlit("quote");
    assert("like"@.len() == 4 && "repost"@.len() == 6 && "follow"@.len() == 6);
    assert("mention"@.len() == 7 && "reply"@.len() == 5 && "quote"@.len() == 5);
    assert("repost"@[0] != "follow"@[0]);
    assert("reply"@[0] != "quote"@[0]);
}

/// What a notification opens: what was liked, reposted or quoted; the mention or
/// reply itself; and the one who follows.
pub proof fn lemma_notification_opens_what_it_is_about(n: Notification)
    ensures
        n.reason@ == "like"@ || n.reason@ == "repost"@ || n.reason@ == "quote"@ ==> (
        n.reason_subject matches Some(uri) ==> notif_target(n) == NotifTapAction::OpenThread(uri)),
        n.reason@ == "mention"@ || n.reason@ == "reply"@ ==> notif_target(n)
            == NotifTapAction::OpenThread(n.uri),
        n.reason@ == "follow"@ ==> notif_target(n) == NotifTapAction::OpenProfile(n.author.handle),
        notif_target(n) matches NotifTapAction::OpenProfile(h) ==> h == n.author.handle,
        notif_target(n) matches NotifTapAction::OpenThread(u) ==> u == n.uri || n.reason_subject
            == Some(u),
{
    lemma_reasons_apart();
}

/// A mention, a reply and a quote show how they begin; a like, a repost and a
/// follow say nothing more.
pub proof fn lemma_notification_snippet(reason: Seq<char>, text: Seq<char>)
    ensures
        ({
            let s = crate::notifications::snippet_of(reason, Some(text));
            let says = reason == "mention"@ || reason == "reply"@ || reason == "quote"@;
            &&& says <==> s is Some
            &&& says && text.len() <= 80 ==> s == Some(text)
            &&& says && text.len() > 80 ==> s->0.len() == 80 && forall|i: int|
                0 <= i < 80 ==> #[trigger] s->0[i] == text[i]
            &&& crate::notifications::snippet_of(reason, None) is None
            &&& reason == "like"@ || reason == "repost"@ || reason == "follow"@ ==> s is None
        }),
{
    lemma_reasons_apart();
}

proof fn lemma_row_hit(shown: Seq<VisibleRow>, touches: Seq<TouchPoint>, from: int)
    requires
        0 <= from,
    ensures
        row_hit(shown, touches, from) matches Some(h) ==> exists|k: int, j: int|
            from <= k < shown.len() && 0 <= j < touches.len() && (#[trigger] shown[k]).index as int
                == h.0 && (h.1 <==> (#[trigger] touches[j]).x < 68) && shown[k].y <= touches[j].y
                < shown[k].y + 68 && 0 <= touches[j].x < 960,
        row_hit(shown, touches, from) is None ==> forall|k: int, j: int|
            from <= k < shown.len() && 0 <= j < touches.len() && (#[trigger] shown[k]).y
                <= (#[trigger] touches[j]).y < shown[k].y + 68 ==> !(0 <= touches[j].x < 960),
    decreases shown.len() - from,
{
    if from < shown.len() {
        let left = crate::notifications::left_zone(shown[from].y as int);
        let right = crate::notifications::right_zone(shown[from].y as int);
        if touched(touches, left) {
            let j = choose|j: int|
                0 <= j < touches.len() && inside(
                    left,
                    (#[trigger] touches[j]).x as int,
                    touches[j].y as int,
                );
            assert(shown[from].index as int == shown[from].index && touches[j].x < 68);
        } else if touched(touches, right) {
            let j = choose|j: int|
                0 <= j < touches.len() && inside(
                    right,
                    (#[trigger] touches[j]).x as int,
                    touches[j].y as int,
                );
            assert(shown[from].index as int == shown[from].index && !(touches[j].x < 68));
        } else {
            lemma_row_hit(shown, touches, from + 1);
            if row_hit(shown, touches, from) is None {
                assert forall|k: int, j: int|
                    from <= k < shown.len() && 0 <= j < touches.len() && (#[trigger] shown[k]).y
                        <= (#[trigger] touches[j]).y < shown[k].y + 68 implies !(0
                    <= touches[j].x < 960) by {
                    if k == from {
                        assert(!inside(left, touches[j].x as int, touches[j].y as int));
                        assert(!inside(right, touches[j].x as int, touches[j].y as int));
                    }
                }
            }
        }
    }
}

/// A touch on a row of a list is on that row: on its picture within the leftmost
/// 68 pixels, beside it otherwise. A touch beyond the rows is on none.
pub proof fn lemma_touch_is_on_its_row(shown: Seq<VisibleRow>, touches: Seq<TouchPoint>)
    ensures
        row_hit(shown, touches, 0) matches Some(h) ==> exists|k: int, j: int|
            0 <= k < shown.len() && 0 <= j < touches.len() && (#[trigger] shown[k]).index as int
                == h.0 && (h.1 <==> (#[trigger] touches[j]).x < 68) && shown[k].y <= touches[j].y
                < shown[k].y + 68,
        row_hit(shown, touches, 0) is None ==> forall|k: int, j: int|
            0 <= k < shown.len() && 0 <= j < touches.len() && (#[trigger] shown[k]).y
                <= (#[trigger] touches[j]).y < shown[k].y + 68 ==> !(0 <= touches[j].x < 960),
        touches.len() == 0 ==> row_hit(shown, touches, 0) is None,
{
    lemma_row_hit(shown, touches, 0);
}

/// A tap on a notification leads where the notification says, and a tap on its
/// picture to the one who did it.
pub proof fn lemma_notification_tap(s: NotificationsScreen, touches: Seq<TouchPoint>, scroll: int)
    ensures
        ({
            let hit = row_hit(s.shown(scroll), touches_between(touches, i32::MIN as int, 484), 0);
            let action = tap_action(s, touches, scroll);
            &&& hit is None ==> action is Stay
            &&& hit matches Some(h) ==> h.1 ==> (action matches ScreenAction::Push(
                NextScreen::Profile { actor: Some(who) },
            ) && who == s.items()[h.0].author.handle)
            &&& hit matches Some(h) ==> !h.1 ==> (match notif_target(s.items()[h.0]) {
                NotifTapAction::OpenThread(u) => action matches ScreenAction::Push(
                    NextScreen::Thread { uri },
                ) && uri == u,
                NotifTapAction::OpenProfile(p) => action matches ScreenAction::Push(
                    NextScreen::Profile { actor: Some(who) },
                ) && who == p,
            })
        }),
{
}

/// The rows of a list lie one below the other, 68 pixels each, from below the
/// header; those that show are exactly those that the display has a part of.
pub proof fn lemma_list_rows_in_order(n: nat, scroll: int, i: int)
    requires
        68 * n <= 2_147_480_000,
        0 <= scroll <= 2_147_480_000,
        0 <= i < n,
    ensures
        ({
            let shown = rows_in_band(uniform(n), 40 - scroll, (40, 484), n as int);
            let y = 40 - scroll + 68 * i;
            &&& (y + 68 > 40 && y < 484) <==> exists|k: int|
                0 <= k < shown.len() && (#[trigger] shown[k]).index == i
            &&& forall|k: int|
                0 <= k < shown.len() ==> (#[trigger] shown[k]).y == 40 - scroll + 68
                    * shown[k].index
            &&& forall|k: int, l: int|
                0 <= k < l < shown.len() ==> (#[trigger] shown[k]).index < (
                #[trigger] shown[l]).index
        }),
{
    lemma_uniform(n, i);
    lemma_visible_rows_exact(uniform(n), 40 - scroll, (40, 484), n as int);
    let shown = rows_in_band(uniform(n), 40 - scroll, (40, 484), n as int);
    assert forall|k: int| 0 <= k < shown.len() implies (#[trigger] shown[k]).y == 40 - scroll + 68
        * shown[k].index by {
        lemma_uniform(n, shown[k].index as int);
    }
}

/// A page of notifications comes whole and in order behind those that are there.
/// A failure is told only where there is nothing yet.
pub proof fn lemma_notifications_shown(
    a: NotificationsScreen,
    b: NotificationsScreen,
    resp: WorkResponse,
    i: int,
)
    requires
        notifs_responded(a, b, resp),
    ensures
        resp matches WorkResponse::Notifications(Ok(batch)) ==> {
            &&& b.items().len() == a.items().len() + batch.notifications@.len()
            &&& 0 <= i < a.items().len() ==> b.items()[i] == a.items()[i]
            &&& 0 <= i < batch.notifications@.len() ==> b.items()[a.items().len() + i]
                == batch.notifications@[i]
            &&& batch.notifications@.len() > 0 || batch.cursor is Some ==> b.state is Loaded
                && b.state->next_cursor == batch.cursor
            &&& !b.fetching_more
        },
        resp matches WorkResponse::Notifications(Err(e)) ==> !b.fetching_more && (
        a.state is Loading ==> b.state == NotifState::Error(e) && b.shown_body()
            == FeedBody::Problem(e)) && (!(a.state is Loading) ==> b.state == a.state),
        !(resp is Notifications) && !(resp is Image) ==> b == a,
        resp is Image ==> b.state == a.state,
        b.selected_idx == a.selected_idx && b.marked_seen == a.marked_seen,
{
}

/// The first page is asked for once, and everything is marked as seen once, as
/// of the time that was told.
pub proof fn lemma_notifications_asked(s: NotificationsScreen, has_worker: bool, now: String)
    ensures
        !has_worker ==> s.first_requests(has_worker, now).len() == 0,
        has_worker && !s.dispatched ==> s.first_requests(has_worker, now).len() > 0
            && s.first_requests(has_worker, now)[0] == (WorkRequest::FetchNotifications {
            cursor: None,
        }),
        has_worker && !s.marked_seen ==> s.first_requests(has_worker, now).len() > 0
            && s.first_requests(has_worker, now).last() == (WorkRequest::MarkSeen {
            seen_at: now,
        }),
        s.marked_seen ==> forall|i: int|
            0 <= i < s.first_requests(has_worker, now).len() ==> !(#[trigger] s.first_requests(
                has_worker,
                now,
            )[i] is MarkSeen),
        s.begun(has_worker).first_requests(has_worker, now).len() == 0,
        s.begun(has_worker).state == s.state,
{
}

/// Later notifications are asked for from where the last page ended, as soon as
/// less than 600 pixels lie below the display, one page at a time.
pub proof fn lemma_more_notifications_asked(s: NotificationsScreen, scroll: int, has_worker: bool)
    requires
        s.wf(),
    ensures
        ({
            let q = crate::notifications::page_request(s, scroll, has_worker);
            &&& q is Some ==> s.state is Loaded && s.state->next_cursor is Some && has_worker
                && !s.fetching_more && q->0 == (WorkRequest::FetchNotifications {
                cursor: s.state->next_cursor,
            })
            &&& has_worker && !s.fetching_more && s.state is Loaded && s.state->next_cursor is Some
                && 68 * s.row_heights@.len() - (scroll + 444) <= 600 ==> q is Some
            &&& 68 * s.row_heights@.len() - (scroll + 444) > 600 ==> q is None
        }),
{
}

/// In a list up and down go to the row before and to the one behind, and stay at
/// the ends; every row is laid out.
pub proof fn lemma_notifications_up_and_down(
    a: NotificationsScreen,
    b: NotificationsScreen,
    pad: PadFrame,
    changed: bool,
)
    requires
        a.wf(),
        crate::notifications::selection_moved(a, b, pad, changed),
    ensures
        b.state == a.state && b.row_heights@.len() == a.items().len(),
        !pad.up && !pad.down ==> b.selected_idx == a.selected_idx && !changed,
        a.items().len() > 0 && pad.down && !pad.up ==> b.selected_idx == if a.selected_idx + 1
            < a.items().len() {
            a.selected_idx + 1
        } else {
            a.selected_idx as int
        },
        a.items().len() > 0 && pad.up && !pad.down ==> b.selected_idx == if a.selected_idx > 0 {
            a.selected_idx - 1
        } else {
            0
        },
        b.selected_idx != a.selected_idx ==> changed,
{
}

// ── Conversations ──────────────────────────────────────────────────────

/// A page of conversations comes whole and in order behind those that are there.
/// A failure is told only where there is nothing yet, and told apart where the
/// app password is to blame.
pub proof fn lemma_conversations_shown(
    a: ConversationListScreen,
    b: ConversationListScreen,
    resp: WorkResponse,
    i: int,
)
    requires
        convos_responded(a, b, resp),
    ensures
        resp matches WorkResponse::Convos(Ok(batch)) ==> {
            &&& b.state is Loaded
            &&& b.items().len() == a.items().len() + batch.convos@.len()
            &&& 0 <= i < a.items().len() ==> b.items()[i] == a.items()[i]
            &&& 0 <= i < batch.convos@.len() ==> b.items()[a.items().len() + i] == batch.convos@[i]
            &&& b.state->next_cursor == batch.cursor
            &&& !b.fetching_more
        },
        resp matches WorkResponse::Convos(Err(e)) ==> !b.fetching_more && (
        a.state is Loading ==> (b.state matches ListState::Error { msg, auth_scope } && msg == e
            && auth_scope == is_scope_error(e@))) && (!(a.state is Loading) ==> b.state
            == a.state),
        !(resp is Convos) && !(resp is Image) ==> b == a,
        resp is Image ==> b.state == a.state,
        b.selected_idx == a.selected_idx && b.own_did == a.own_did,
{
}

/// What stands in place of the list: why there is none, and what to do about it
/// where the app password is to blame.
pub proof fn lemma_list_tells_problem(s: ListState, r: ConvosBody)
    requires
        body_is(s, r),
    ensures
        s matches ListState::Error { msg, auth_scope } ==> (r matches ConvosBody::Problem {
            title,
            detail,
        } && (!auth_scope ==> detail@ == msg@ && title@ == "Could not load conversations"@) && (
        auth_scope ==> detail@ == dm_scope_detail() && title@ == "Direct messages unavailable"@)),
        s matches ListState::Loaded { convos, .. } ==> (r is Rows <==> convos@.len() > 0) && (
        r is Empty <==> convos@.len() == 0),
        s is Loading <==> r is Loading,
{
}

/// The picture of a conversation is that of another member, never the reader's
/// own, and there is one wherever there is another member.
pub proof fn lemma_face_is_another(c: ConvoView, own: Seq<char>, i: int)
    requires
        0 <= i < c.members@.len(),
    ensures
        face_of(c, own) matches Some(m) ==> m.did@ != own && c.members@.contains(m),
        c.members@[i].did@ != own ==> face_of(c, own) is Some,
{
    lemma_first_other(c.members@, own, 0, i);
}

proof fn lemma_first_other(members: Seq<Author>, own: Seq<char>, from: int, i: int)
    requires
        0 <= from,
    ensures
        first_other(members, own, from) matches Some(m) ==> m.did@ != own && members.contains(m),
        from <= i < members.len() && members[i].did@ != own ==> first_other(
            members,
            own,
            from,
        ) is Some,
    decreases members.len() - from,
{
    if from < members.len() && members[from].did@ == own {
        lemma_first_other(members, own, from + 1, i);
    }
}

/// A conversation shows how its last message begins, and says so where that
/// message was deleted; it never calls a message deleted that is there.
pub proof fn lemma_last_message_shown(c: ConvoView)
    ensures
        ({
            let s = crate::conversations::snippet_of(c);
            &&& c.last_message matches Some(LastMessage::Message(m)) ==> {
                &&& m.text@.len() <= 80 ==> s == m.text@
                &&& m.text@.len() > 80 ==> s.len() == 80 && forall|i: int|
                    0 <= i < 80 ==> #[trigger] s[i] == m.text@[i]
            }
            &&& c.last_message matches Some(LastMessage::Deleted(_)) ==> s == "(message deleted)"@
            &&& c.last_message is None ==> s.len() == 0
        }),
{
}

/// A tap on a conversation opens that conversation, and one on its picture the
/// profile of the member it shows.
pub proof fn lemma_conversation_tap(
    s: ConversationListScreen,
    touches: Seq<TouchPoint>,
    scroll: int,
    action: ScreenAction,
)
    requires
        tap_leads(s, touches, scroll, action),
    ensures
        ({
            let hit = row_hit(s.shown(scroll), touches_between(touches, i32::MIN as int, 484), 0);
            &&& hit is None ==> action is Stay
            &&& hit matches Some(h) ==> !h.1 ==> (action matches ScreenAction::Push(
                NextScreen::Conversation { convo },
            ) && convo.id == s.items()[h.0].id && convo.members@ == s.items()[h.0].members@)
            &&& hit matches Some(h) ==> h.1 ==> match face_of(s.items()[h.0], s.own_did@) {
                Some(m) => action matches ScreenAction::Push(NextScreen::Profile {
                    actor: Some(who),
                }) && who == m.handle,
                None => action is Stay,
            }
        }),
{
}

/// The conversations are asked for from the beginning, once, and then from where
/// the last page ended, one page at a time.
pub proof fn lemma_conversations_asked(s: ConversationListScreen, scroll: int, has_worker: bool)
    requires
        s.wf(),
    ensures
        ({
            let first = crate::conversations::first_request(s, has_worker);
            let q = crate::conversations::page_request(s, scroll, has_worker);
            &&& first is Some <==> has_worker && !s.dispatched
            &&& first is Some ==> first->0 == (WorkRequest::FetchConvos { cursor: None })
            &&& crate::conversations::first_request(
                crate::conversations::begun(s, has_worker),
                has_worker,
            ) is None
            &&& q is Some ==> s.state is Loaded && s.state->next_cursor is Some && has_worker
                && !s.fetching_more && q->0 == (WorkRequest::FetchConvos {
                cursor: s.state->next_cursor,
            })
            &&& has_worker && !s.fetching_more && s.state is Loaded && s.state->next_cursor is Some
                && 68 * s.row_heights@.len() - (scroll + 444) <= 600 ==> q is Some
            &&& 68 * s.row_heights@.len() - (scroll + 444) > 600 ==> q is None
        }),
{
}

/// In the list of conversations up and down go to the row before and to the one
/// behind, and stay at the ends.
pub proof fn lemma_conversations_up_and_down(
    a: ConversationListScreen,
    b: ConversationListScreen,
    pad: PadFrame,
    changed: bool,
)
    requires
        a.wf(),
        crate::conversations::selection_moved(a, b, pad, changed),
    ensures
        b.state == a.state && b.row_heights@.len() == a.items().len(),
        !pad.up && !pad.down ==> b.selected_idx == a.selected_idx && !changed,
        a.items().len() > 0 && pad.down && !pad.up ==> b.selected_idx == if a.selected_idx + 1
            < a.items().len() {
            a.selected_idx + 1
        } else {
            a.selected_idx as int
        },
        a.items().len() > 0 && pad.up && !pad.down ==> b.selected_idx == if a.selected_idx > 0 {
            a.selected_idx - 1
        } else {
            0
        },
        b.selected_idx != a.selected_idx ==> changed,
{
}

} // verus!
