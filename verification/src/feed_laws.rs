//! What a feed shows and asks for: its own pages in order, from where the last
//! one ended, and what the buttons, pills and cells stand for.

use vstd::prelude::*;

#[allow(unused_imports)]
use crate::engagement::{toggle_request_is, EngagementKind};
#[allow(unused_imports)]
use crate::images::{asked_for, inflight_after};
#[allow(unused_imports)]
use crate::model::FeedPost;
#[allow(unused_imports)]
use crate::post_list::{post_urls, posts_marked, visible_urls};
#[allow(unused_imports)]
use crate::requests::{sent, FeedSource, WorkRequest, WorkResponse};
#[allow(unused_imports)]
use crate::rows::{first_visible, in_band, lemma_row_top_bounds, row_top, total};
#[allow(unused_imports)]
use crate::screen::{bar_followed, NextScreen, ScreenAction};
#[allow(unused_imports)]
use crate::tabbar::{tab_at, tab_label, tab_rect, TabBar, TopLevel};
#[allow(unused_imports)]
use crate::timeline::{
    begun, buttons_followed, feed_left, feed_responded, first_requests, frame_asked, frame_started,
    page_request, pill_followed, pill_switches, pill_tapped, pill_widths_ok, pill_x, pills_tracked,
    selection_moved, start_steps, FeedBody, FeedFooter, FeedStart, PadOutcome, Pill, ScrollSettle,
    TimelineScreen, TimelineState,
};
#[allow(unused_imports)]
use crate::widget::{inside, touched, PadFrame, TouchPoint};

verus! {

// ── Pages ──────────────────────────────────────────────────────────────

/// A page of the feed that is shown comes whole and in order behind what is
/// there, and tells where the next one begins. The selection and what was
/// measured stay.
pub proof fn lemma_page_shown_whole(
    a: TimelineScreen,
    b: TimelineScreen,
    resp: WorkResponse,
    i: int,
)
    requires
        feed_responded(a, b, resp),
        resp matches WorkResponse::FeedPage { source, batch: Ok(_) } && source@
            == a.current_source@,
    ensures
        resp matches WorkResponse::FeedPage { batch: Ok(page), .. } && {
            &&& b.state is Loaded
            &&& b.posts().len() == a.posts().len() + page.posts@.len()
            &&& 0 <= i < a.posts().len() ==> b.posts()[i] == a.posts()[i]
            &&& 0 <= i < page.posts@.len() ==> b.posts()[a.posts().len() + i] == page.posts@[i]
            &&& b.state->next_cursor == page.cursor
        },
        b.state matches TimelineState::Loaded { list, .. } && list.selected_idx == a.selected()
            && list.row_heights@ == a.rows(),
        !b.fetching_more,
        b.current_source == a.current_source && b.saved_feeds == a.saved_feeds && b.is_pushed
            == a.is_pushed,
{
}

/// A first page that fails is told, with its reason; a later one is not, and
/// takes nothing away. Either way another page can be asked for.
pub proof fn lemma_failed_feed_page(
    a: TimelineScreen,
    b: TimelineScreen,
    source: FeedSource,
    e: String,
)
    requires
        feed_responded(a, b, WorkResponse::FeedPage { source, batch: Err(e) }),
        source@ == a.current_source@,
    ensures
        a.state is Loading ==> b.state == TimelineState::Error(e) && b.shown_body()
            == FeedBody::Problem(e),
        !(a.state is Loading) ==> b.state == a.state,
        !b.fetching_more,
        b.current_source == a.current_source && b.saved_feeds == a.saved_feeds,
{
}

/// The pinned feeds become the pills, each with a button of its own. An answer
/// that is about neither the feed, the pins, a picture nor a mark changes
/// nothing, and nor does one that failed.
pub proof fn lemma_other_answers(a: TimelineScreen, b: TimelineScreen, resp: WorkResponse)
    requires
        feed_responded(a, b, resp),
    ensures
        resp matches WorkResponse::SavedFeeds(Ok(batch)) ==> {
            &&& b.saved_feeds@ == batch.pins@
            &&& b.pill_buttons@.len() == batch.pins@.len()
            &&& forall|i: int|
                0 <= i < b.pill_buttons@.len() ==> !(#[trigger] b.pill_buttons@[i]).pressed_last
            &&& b.state == a.state && b.current_source == a.current_source
        },
        resp matches WorkResponse::SavedFeeds(Err(_)) ==> b == a,
        resp matches WorkResponse::Image { url, bytes } ==> {
            &&& bytes is Err ==> b == a
            &&& bytes is Ok ==> !b.inflight_avatars@.contains(url@)
            &&& forall|u: Seq<char>|
                u != url@ ==> (#[trigger] b.inflight_avatars@.contains(u)
                    <==> a.inflight_avatars@.contains(u))
            &&& b.state == a.state
        },
        resp matches WorkResponse::LikeChanged(r) ==> (r is Err || r matches Ok(None)) ==> b == a,
        resp matches WorkResponse::RepostChanged(r) ==> (r is Err || r matches Ok(None)) ==> b
            == a,
        !(resp is FeedPage) && !(resp is SavedFeeds) && !(resp is Image) && !(resp is LikeChanged)
            && !(resp is RepostChanged) ==> b == a,
        b.current_source == a.current_source,
        b.posts().len() >= a.posts().len(),
{
}

/// The first frame with a worker asks for the first page of the feed that is
/// shown and for the pinned feeds, once each; a screen that was opened for one
/// feed does not ask for the pins.
pub proof fn lemma_first_frame_asks(s: TimelineScreen, has_worker: bool)
    ensures
        !has_worker ==> first_requests(s, has_worker).len() == 0 && begun(s, has_worker) == s,
        has_worker && !s.dispatched ==> first_requests(s, has_worker).len() > 0 && first_requests(
            s,
            has_worker,
        )[0] == (WorkRequest::FetchFeed { source: s.current_source, cursor: None }),
        has_worker && !s.saved_feeds_dispatched && !s.is_pushed ==> first_requests(
            s,
            has_worker,
        ).len() > 0 && first_requests(s, has_worker).last() is FetchSavedFeeds,
        s.is_pushed || s.saved_feeds_dispatched ==> forall|i: int|
            0 <= i < first_requests(s, has_worker).len() ==> !(#[trigger] first_requests(
                s,
                has_worker,
            )[i] is FetchSavedFeeds),
        s.dispatched ==> forall|i: int|
            0 <= i < first_requests(s, has_worker).len() ==> !(#[trigger] first_requests(
                s,
                has_worker,
            )[i] is FetchFeed),
        first_requests(begun(s, has_worker), has_worker).len() == 0,
        begun(s, has_worker).state == s.state && begun(s, has_worker).current_source
            == s.current_source && begun(s, has_worker).fetching_more == s.fetching_more,
{
}

/// The next page is asked for of the feed that is shown, from where the last one
/// ended, as soon as less than 600 pixels lie below the display. It is asked for
/// only where there is one, and not while one is under way.
pub proof fn lemma_next_page_asked(s: TimelineScreen, scroll: int, has_worker: bool)
    ensures
        page_request(s, scroll, has_worker) matches Some(q) ==> {
            &&& q is FetchFeed
            &&& q->FetchFeed_source == s.current_source
            &&& q->FetchFeed_cursor is Some
            &&& s.state is Loaded
            &&& q->FetchFeed_cursor == s.state->next_cursor
            &&& !s.fetching_more && has_worker
        },
        has_worker && !s.fetching_more && s.state is Loaded && s.state->next_cursor is Some
            && total(s.rows()) - (scroll + 394) <= 600 ==> page_request(s, scroll, has_worker)
            is Some,
        total(s.rows()) - (scroll + 394) > 600 ==> page_request(s, scroll, has_worker) is None,
{
}

/// The requests of a frame are the next page, where it is due, and then the
/// pictures that are not at hand; a page that was asked for is noted.
pub proof fn lemma_frame_asks(
    a: TimelineScreen,
    b: TimelineScreen,
    scroll: int,
    urls: Seq<Seq<char>>,
    cached: Seq<bool>,
    has_worker: bool,
    reqs: Seq<WorkRequest>,
)
    requires
        frame_asked(a, b, scroll, urls, cached, has_worker, reqs),
    ensures
        !has_worker ==> reqs.len() == 0 && b == a,
        has_worker && page_request(a, scroll, true) is Some ==> reqs.len() > 0 && reqs[0]
            == page_request(a, scroll, true)->0 && b.fetching_more,
        has_worker && page_request(a, scroll, true) is None ==> b.fetching_more == a.fetching_more,
        forall|i: int|
            0 <= i < reqs.len() ==> (#[trigger] reqs[i] is FetchImage || (i == 0
                && reqs[i] is FetchFeed)),
        b.state == a.state && b.current_source == a.current_source && b.saved_feeds
            == a.saved_feeds,
{
    if has_worker {
        let images = choose|images: Seq<WorkRequest>|
            #[trigger] crate::timeline::request_steps(a, b, scroll, urls, cached, images, reqs);
        let page = page_request(a, scroll, true);
        assert forall|i: int| 0 <= i < reqs.len() implies (#[trigger] reqs[i] is FetchImage || (i
            == 0 && reqs[i] is FetchFeed)) by {
            let k = sent(page).len() as int;
            if i >= k {
                assert(reqs[i] == images[i - k]);
            }
        }
    }
}

// ── Pictures ───────────────────────────────────────────────────────────

/// Every wanted picture that is not at hand has been asked for, now or before.
pub proof fn lemma_wanted_pictures_asked(
    urls: Seq<Seq<char>>,
    cached: Seq<bool>,
    inflight: Set<Seq<char>>,
    n: int,
    k: int,
)
    requires
        0 <= k < n <= urls.len(),
    ensures
        !cached[k] && !inflight.contains(urls[k]) ==> asked_for(
            urls,
            cached,
            inflight,
            n,
        ).contains(urls[k]),
        !cached[k] ==> inflight_after(urls, cached, inflight, n).contains(urls[k]),
        forall|u: Seq<char>| #[trigger]
            inflight_after(urls, cached, inflight, n).contains(u) ==> inflight.contains(u)
                || asked_for(urls, cached, inflight, n).contains(u),
    decreases n,
{
    let before = asked_for(urls, cached, inflight, n - 1);
    let now = asked_for(urls, cached, inflight, n);
    assert forall|u: Seq<char>| before.contains(u) implies now.contains(u) by {
        let i = choose|i: int| 0 <= i < before.len() && before[i] == u;
        assert(now[i] == u);
    }
    if n > 1 {
        lemma_wanted_pictures_asked(
            urls,
            cached,
            inflight,
            n - 1,
            if k < n - 1 {
                k
            } else {
                0
            },
        );
    }
    let noted = inflight_after(urls, cached, inflight, n - 1);
    if !cached[n - 1] && !noted.contains(urls[n - 1]) {
        assert(now.last() == urls[n - 1]);
    }
    assert forall|u: Seq<char>| #[trigger]
        inflight_after(urls, cached, inflight, n).contains(u) implies inflight.contains(u)
        || now.contains(u) by {
        if noted.contains(u) {
            if n == 1 {
                assert(inflight.contains(u));
            }
        } else {
            assert(u == urls[n - 1]);
        }
    }
    if n == 1 {
        assert(noted == inflight);
    }
}

/// A post that shows wants its author's picture and those attached to it, and
/// one that does not show wants none.
pub proof fn lemma_shown_posts_want_pictures(
    posts: Seq<FeedPost>,
    rows: Seq<i32>,
    origin: int,
    band: (int, int),
    n: int,
    i: int,
    k: int,
)
    requires
        0 <= i < n,
        0 <= k < post_urls(posts[i]).len(),
        in_band(origin + row_top(rows, i), rows[i] as int, band.0, band.1),
    ensures
        visible_urls(posts, rows, origin, band, n).contains(post_urls(posts[i])[k]),
    decreases n,
{
    let before = visible_urls(posts, rows, origin, band, n - 1);
    let now = visible_urls(posts, rows, origin, band, n);
    if i == n - 1 {
        assert(now[before.len() + k] == post_urls(posts[i])[k]);
    } else {
        lemma_shown_posts_want_pictures(posts, rows, origin, band, n - 1, i, k);
        let j = choose|j: int| 0 <= j < before.len() && before[j] == post_urls(posts[i])[k];
        assert(now[j] == before[j]);
    }
}

/// Every picture that is wanted is wanted by a post that shows.
pub proof fn lemma_wanted_by_a_shown_post(
    posts: Seq<FeedPost>,
    rows: Seq<i32>,
    origin: int,
    band: (int, int),
    n: int,
    j: int,
) -> (i: int)
    requires
        0 <= j < visible_urls(posts, rows, origin, band, n).len(),
    ensures
        0 <= i < n,
        in_band(origin + row_top(rows, i), rows[i] as int, band.0, band.1),
        post_urls(posts[i]).contains(visible_urls(posts, rows, origin, band, n)[j]),
    decreases n,
{
    let before = visible_urls(posts, rows, origin, band, n - 1);
    let now = visible_urls(posts, rows, origin, band, n);
    if j < before.len() {
        assert(now[j] == before[j]);
        lemma_wanted_by_a_shown_post(posts, rows, origin, band, n - 1, j)
    } else {
        assert(now[j] == post_urls(posts[n - 1])[j - before.len()]);
        n - 1
    }
}

// ── Buttons ────────────────────────────────────────────────────────────

/// The left shoulder likes the selected post, the triangle reposts it, the right
/// shoulder replies to it and the square begins a new post. No other post
/// changes, and without any of them nothing does.
pub proof fn lemma_buttons_do_what_they_say(
    a: TimelineScreen,
    b: TimelineScreen,
    pad: PadFrame,
    has_worker: bool,
    out: PadOutcome,
)
    requires
        a.wf(),
        buttons_followed(a, b, pad, has_worker, out),
    ensures
        ({
            let sel = a.selected();
            let some = sel < a.posts().len();
            let reply = pad.r1 && some;
            &&& pad.l1 && has_worker && some ==> toggle_request_is(
                out.like_request,
                a.posts()[sel].post,
                EngagementKind::Like,
            )
            &&& !pad.l1 || !has_worker || !some ==> out.like_request is None
            &&& pad.triangle && has_worker && some && !reply ==> toggle_request_is(
                out.repost_request,
                a.posts()[sel].post,
                EngagementKind::Repost,
            )
            &&& !pad.triangle || !has_worker || !some || reply ==> out.repost_request is None
            &&& posts_marked(
                a.posts(),
                b.posts(),
                sel,
                pad.l1 && has_worker,
                pad.triangle && has_worker && !reply,
            )
            &&& reply ==> (out.push matches Some(NextScreen::Compose {
                reply: Some(t),
                handle: Some(h),
            }) && t.parent_uri == a.posts()[sel].post.uri && t.parent_cid
                == a.posts()[sel].post.cid && h == a.posts()[sel].post.author.handle)
            &&& !reply && pad.square ==> out.push == Some(
                NextScreen::Compose { reply: None, handle: None },
            )
            &&& !reply && !pad.square ==> out.push is None
            &&& !pad.l1 && !pad.triangle ==> b.posts() == a.posts()
        }),
        b.selected() == a.selected() && b.rows() == a.rows(),
        b.current_source == a.current_source && b.fetching_more == a.fetching_more,
{
    if !pad.l1 && !pad.triangle {
        assert(b.posts() =~= a.posts());
    }
}

/// Up and down go to the post before and to the one behind, and stay where there
/// is none. Where the selected post is out of view they start from the first
/// one in view. Without them the selection stays, and what the feed holds does
/// anyway.
pub proof fn lemma_up_and_down(
    a: TimelineScreen,
    b: TimelineScreen,
    pad: PadFrame,
    scroll: int,
    changed: bool,
)
    requires
        a.wf(),
        selection_moved(a, b, pad, scroll, changed),
        a.posts().len() > 0,
    ensures
        b.posts() == a.posts() && b.current_source == a.current_source,
        !pad.up && !pad.down ==> b.selected() == a.selected() && !changed,
        a.selected_shows(scroll) && pad.down && !pad.up ==> b.selected() == if a.selected() + 1
            < a.posts().len() {
            a.selected() + 1
        } else {
            a.selected()
        },
        a.selected_shows(scroll) && pad.up && !pad.down ==> b.selected() == if a.selected() > 0 {
            a.selected() - 1
        } else {
            0
        },
        changed ==> pad.up || pad.down,
        !a.selected_shows(scroll) && (pad.up || pad.down) ==> changed,
        !a.selected_shows(scroll) && pad.down && !pad.up && first_visible(a.rows(), scroll, 0) + 1
            < a.posts().len() ==> b.selected() == first_visible(a.rows(), scroll, 0) + 1,
        b.selected() != a.selected() ==> changed,
{
}

/// The first part of a frame sends the first requests before those of the
/// buttons, and opens what the buttons open.
pub proof fn lemma_frame_start_asks(
    a: TimelineScreen,
    b: TimelineScreen,
    pad: PadFrame,
    scroll: int,
    has_worker: bool,
    out: FeedStart,
    i: int,
)
    requires
        a.wf(),
        frame_started(a, b, pad, scroll, has_worker, out),
    ensures
        0 <= i < first_requests(a, has_worker).len() ==> i < out.requests@.len()
            && out.requests@[i] == first_requests(a, has_worker)[i],
        !has_worker ==> out.requests@.len() == 0,
        !pad.l1 && !pad.triangle ==> out.requests@ =~= first_requests(a, has_worker),
        !pad.r1 && !pad.square ==> out.action is Stay,
        pad.square && !pad.r1 ==> (out.action matches ScreenAction::Push(NextScreen::Compose {
            reply: None,
            ..
        })),
        b.current_source == a.current_source && b.posts().len() == a.posts().len(),
        has_worker ==> b.dispatched,
{
    let (m, pads) = choose|m: TimelineScreen, pads: PadOutcome|
        #[trigger] start_steps(a, m, b, pad, scroll, has_worker, pads, out);
}

// ── Pills and cells ────────────────────────────────────────────────────

/// A tap on a pill shows that pill's feed from its beginning: what was shown is
/// dropped, and its first page is asked for with the next frame. A tap on the
/// feed that is shown, or on none, changes nothing.
pub proof fn lemma_pill_shows_its_feed(s: TimelineScreen, tapped: Option<usize>)
    ensures
        ({
            let t = pill_followed(s, tapped);
            &&& tapped matches Some(i) ==> i < s.saved_feeds@.len() ==> t.current_source@
                == s.saved_feeds@[i as int].source@
            &&& t.current_source@ != s.current_source@ ==> {
                &&& t.state is Loading
                &&& t.posts().len() == 0
                &&& first_requests(t, true).len() > 0
                &&& first_requests(t, true)[0] == (WorkRequest::FetchFeed {
                    source: t.current_source,
                    cursor: None,
                })
                &&& !t.fetching_more
                &&& pill_switches(s, tapped)
            }
            &&& t.current_source@ == s.current_source@ ==> t == s && !pill_switches(s, tapped)
            &&& tapped is None ==> t == s
            &&& t.saved_feeds == s.saved_feeds && t.is_pushed == s.is_pushed
        }),
{
}

proof fn lemma_pill_tapped(
    s: TimelineScreen,
    widths: Seq<i32>,
    touches: Seq<TouchPoint>,
    n: int,
    k: int,
)
    requires
        0 <= n <= usize::MAX,
    ensures
        pill_tapped(s, widths, touches, n) matches Some(i) ==> i < n
            && crate::timeline::pill_fires(s, widths, touches, i as int),
        pill_tapped(s, widths, touches, n) is None && 0 <= k < n
            ==> !crate::timeline::pill_fires(s, widths, touches, k),
    decreases n,
{
    if n > 0 {
        lemma_pill_tapped(s, widths, touches, n - 1, k);
    }
}

/// The pills stand for the pinned feeds, in their order, and the one of the feed
/// that is shown is marked. The one that counts as tapped was pressed and let go
/// of, is not the one that is shown and lies on the display.
pub proof fn lemma_pills_stand_for_pins(
    a: TimelineScreen,
    b: TimelineScreen,
    widths: Seq<i32>,
    touches: Seq<TouchPoint>,
    pills: Seq<Pill>,
    tapped: Option<usize>,
    k: int,
)
    requires
        pills_tracked(a, b, widths, touches, pills, tapped),
        widths.len() == a.saved_feeds@.len() == a.pill_buttons@.len(),
        widths.len() <= usize::MAX,
        pill_widths_ok(a.saved_feeds@, widths),
        0 <= k < widths.len(),
    ensures
        pills.len() == a.saved_feeds@.len(),
        pills[k].active <==> a.saved_feeds@[k].source@ == a.current_source@,
        tapped matches Some(i) ==> {
            &&& i < a.saved_feeds@.len()
            &&& a.pill_buttons@[i as int].pressed_last
            &&& touches.len() == 0
            &&& a.saved_feeds@[i as int].source@ != a.current_source@
            &&& pills[i as int].rect.x + pills[i as int].rect.w <= 960
        },
        touches.len() == 0 && a.pill_buttons@[k].pressed_last && !pills[k].active
            && pills[k].rect.x + pills[k].rect.w <= 960 ==> tapped is Some,
        b.state == a.state && b.current_source == a.current_source && b.saved_feeds
            == a.saved_feeds,
        k > 0 && widths[k - 1] >= 0 ==> pills[k - 1].rect.x + pills[k - 1].rect.w < pills[k].rect.x,
        pills[k].rect.w == widths[k] + (if a.saved_feeds@[k].avatar_url is Some {
            52int
        } else {
            24
        }),
{
    lemma_pill_tapped(a, widths, touches, widths.len() as int, k);
    assert(crate::timeline::pill_fits(a.saved_feeds@, widths, k));
    lemma_pill_x_fits(a, widths, k);
    match tapped {
        Some(i) => {
            lemma_pill_x_fits(a, widths, i as int);
            assert(crate::timeline::pill_fits(a.saved_feeds@, widths, i as int));
        },
        None => {},
    }
    if k > 0 {
        lemma_pill_x_fits(a, widths, k - 1);
        assert(crate::timeline::pill_fits(a.saved_feeds@, widths, k - 1));
    }
}

proof fn lemma_pill_x_fits(s: TimelineScreen, widths: Seq<i32>, k: int)
    requires
        pill_widths_ok(s.saved_feeds@, widths),
        0 <= k < widths.len(),
    ensures
        i32::MIN <= pill_x(s.saved_feeds@, widths, k) <= i32::MAX,
{
    if k > 0 {
        assert(crate::timeline::pill_fits(s.saved_feeds@, widths, k - 1));
    }
}

/// Each cell of the bar goes to the destination that it names, unless that one
/// is shown already; without a click the screen stays.
pub proof fn lemma_cells_go_where_they_say(
    a: TabBar,
    b: TabBar,
    touches: Seq<TouchPoint>,
    action: ScreenAction,
)
    requires
        bar_followed(a, b, touches, action),
    ensures
        action is Stay || action is SwitchTab,
        action matches ScreenAction::SwitchTab(t) ==> {
            &&& touches.len() == 0
            &&& t != a.active
            &&& t == TopLevel::Home ==> a.home.pressed_last
            &&& t == TopLevel::Search ==> a.search.pressed_last
            &&& t == TopLevel::Notifications ==> a.notifications.pressed_last
            &&& t == TopLevel::Profile ==> a.profile.pressed_last
            &&& t != TopLevel::Messages
        },
        touches.len() == 0 && a.home.pressed_last && a.active != TopLevel::Home
            ==> action is SwitchTab,
        touches.len() == 0 && a.search.pressed_last && a.active != TopLevel::Search
            ==> action is SwitchTab,
        touches.len() == 0 && a.notifications.pressed_last && a.active != TopLevel::Notifications
            ==> action is SwitchTab,
        touches.len() == 0 && a.profile.pressed_last && a.active != TopLevel::Profile
            ==> action is SwitchTab,
        b.active == a.active,
        b.home.pressed_last ==> touched(touches, tab_rect(0)),
        touched(touches, tab_rect(1)) ==> b.search.pressed_last,
        touched(touches, tab_rect(2)) ==> b.notifications.pressed_last,
        touched(touches, tab_rect(3)) ==> b.profile.pressed_last,
{
    assert(b.pressed(0) == touched(touches, tab_rect(0)));
    assert(b.pressed(1) == touched(touches, tab_rect(1)));
    assert(b.pressed(2) == touched(touches, tab_rect(2)));
    assert(b.pressed(3) == touched(touches, tab_rect(3)));
}

/// The four cells share the width of the display at its bottom, from left to
/// right: home, search, notifications, profile.
pub proof fn lemma_cells_side_by_side(x: int, y: int)
    requires
        0 <= x < 960,
        484 <= y < 544,
    ensures
        x < 240 <==> inside(tab_rect(0), x, y),
        240 <= x < 480 <==> inside(tab_rect(1), x, y),
        480 <= x < 720 <==> inside(tab_rect(2), x, y),
        720 <= x <==> inside(tab_rect(3), x, y),
        tab_label(tab_at(0)) == "Home"@,
        tab_label(tab_at(1)) == "Search"@,
        tab_label(tab_at(2)) == "Notifs"@,
        tab_label(tab_at(3)) == "Profile"@,
{
}

/// A screen that was opened for one feed is left by the circle alone and shows
/// no bar; the home screen is left by the bar alone.
pub proof fn lemma_feed_is_left(
    a: TimelineScreen,
    b: TimelineScreen,
    pad: PadFrame,
    touches: Seq<TouchPoint>,
    action: ScreenAction,
)
    requires
        feed_left(a, b, pad, touches, action),
    ensures
        a.is_pushed ==> (action is Pop <==> pad.circle) && (action is Stay <==> !pad.circle),
        !a.is_pushed ==> action is Stay || action is SwitchTab,
        !a.is_pushed && touches.len() > 0 ==> action is Stay,
        b.state == a.state && b.current_source == a.current_source,
{
}

// ── What is shown ──────────────────────────────────────────────────────

proof fn lemma_shown_pin(s: TimelineScreen, from: int)
    requires
        0 <= from,
    ensures
        s.shown_pin(from) matches Some(p) ==> p.source@ == s.current_source@ && exists|i: int|
            from <= i < s.saved_feeds@.len() && #[trigger] s.saved_feeds@[i] == p,
        s.shown_pin(from) is None ==> forall|i: int|
            from <= i < s.saved_feeds@.len() ==> (#[trigger] s.saved_feeds@[i]).source@
                != s.current_source@,
    decreases s.saved_feeds@.len() - from,
{
    if from < s.saved_feeds@.len() && s.saved_feeds@[from].source@ != s.current_source@ {
        lemma_shown_pin(s, from + 1);
    }
}

/// The header names the feed that is shown: by the name of its pin, and as
/// the home feed where it has none.
pub proof fn lemma_header_names_feed(s: TimelineScreen)
    ensures
        (forall|i: int|
            0 <= i < s.saved_feeds@.len() ==> (#[trigger] s.saved_feeds@[i]).source@
                != s.current_source@) ==> s.shown_name() == "Following"@,
        (exists|i: int|
            0 <= i < s.saved_feeds@.len() && (#[trigger] s.saved_feeds@[i]).source@
                == s.current_source@) ==> exists|i: int|
            0 <= i < s.saved_feeds@.len() && (#[trigger] s.saved_feeds@[i]).source@
                == s.current_source@ && s.saved_feeds@[i].display_name@ == s.shown_name(),
{
    lemma_shown_pin(s, 0);
}

/// An empty feed is told from one that is still loading and from one that could
/// not be had; posts are shown where there are any.
pub proof fn lemma_body_tells(s: TimelineScreen)
    ensures
        s.shown_body() is Posts <==> s.posts().len() > 0,
        s.shown_body() is Empty <==> s.state is Loaded && s.posts().len() == 0,
        s.shown_body() is Loading <==> s.state is Loading,
        s.state matches TimelineState::Error(e) ==> s.shown_body() == FeedBody::Problem(e),
{
}

/// Below the last post it says that more is coming while a page is under way,
/// and that this was all once there is no further page; in between it says
/// nothing.
pub proof fn lemma_footer_tells(s: TimelineScreen, scroll: int)
    ensures
        s.shown_footer(scroll) matches Some((w, y)) ==> {
            &&& w == FeedFooter::LoadingMore <==> s.fetching_more
            &&& w == FeedFooter::EndOfFeed ==> s.state->next_cursor is None && s.state is Loaded
            &&& 90 < y < 536
            &&& y == 98 + total(s.rows()) - scroll
            &&& s.posts().len() > 0
        },
        s.posts().len() > 0 && 90 < 98 + total(s.rows()) - scroll < 536 && (s.fetching_more
            || s.state->next_cursor is None) ==> s.shown_footer(scroll) is Some,
{
}

/// The scroll position never goes past the last post, and jumps only where the
/// selection moved: then the selected post comes into view.
pub proof fn lemma_scroll_settles(
    s: TimelineScreen,
    selection_changed: bool,
    scroll: int,
    r: ScrollSettle,
)
    requires
        s.wf(),
        0 <= scroll,
        s.settled(selection_changed, scroll, r),
    ensures
        !selection_changed ==> r.target is None,
        total(s.rows()) > 394 ==> r.limit == total(s.rows()) - 394,
        total(s.rows()) <= 394 ==> r.limit == 0,
        selection_changed && s.selected() < s.rows().len() && s.rows()[s.selected()] <= 294 ==> {
            let at = match r.target {
                Some(t) => t as int,
                None => scroll,
            };
            &&& at <= row_top(s.rows(), s.selected())
            &&& row_top(s.rows(), s.selected()) + s.rows()[s.selected()] <= at + 394
        },
        r.target matches Some(t) ==> t >= 0,
{
    if s.selected() < s.rows().len() {
        lemma_row_top_bounds(s.rows(), s.selected());
    }
}

} // verus!
