//! The feed screen: a scrollable list of posts from the reader's home feed or
//! from one of their pinned feeds.
//!
//! The first frame asks for the first page. Pages are appended as they come;
//! nearing the end asks for the next one. A page of a feed that is no longer
//! shown is dropped.

use vstd::hash_set::StringHashSet;
use vstd::prelude::*;

use crate::cdn::avatar_thumbnail_jpeg;
#[allow(unused_imports)]
use crate::cdn::thumbnail_url;
#[allow(unused_imports)]
use crate::embeds::texts;
use crate::engagement::EngagementKind;
#[allow(unused_imports)]
use crate::engagement::{can_toggle, first_confirmed, toggle_request_is};
use crate::images::request_missing;
#[allow(unused_imports)]
use crate::images::{asked_for, fetched, inflight_after};
use crate::model::clone_text;
#[allow(unused_imports)]
use crate::model::FeedPost;
use crate::post_list::{collect_visible_urls, open_tap, reply_target_for, PostList};
#[allow(unused_imports)]
use crate::post_list::{
    marks_have_room, posts_marked, reply_to, tap_has_room, tap_opens, visible_urls,
};
use crate::post_row::{TapAction, TextHeights};
#[allow(unused_imports)]
use crate::requests::sent;
use crate::requests::{
    push_sent, FeedSource, ReplyTarget, SavedFeedPin, WorkRequest, WorkResponse,
};
use crate::rows::{
    content_height, first_visible_idx, max_scroll, reveal_row, row_visible, step_selection,
    PAGINATION_THRESHOLD,
};
#[allow(unused_imports)]
use crate::rows::{
    first_visible, in_band, lemma_tops_fit, reveal_target, row_top, scroll_limit, step_moves,
    stepped, total, MAX_CONTENT_H,
};
#[allow(unused_imports)]
use crate::screen::{bar_followed, pushed};
use crate::screen::{follow_bar, push_screen, NextScreen, ScreenAction};
use crate::tabbar::{TabBar, TopLevel};
use crate::text::owned;
use crate::widget::{
    px_fits, touches_in_band, ButtonState, PadFrame, Rect, TouchPoint, SCREEN_HEIGHT, SCREEN_WIDTH,
};
#[allow(unused_imports)]
use crate::widget::{clicked, fits_px, touched, touches_between};

verus! {

pub const HEADER_H: i32 = 40;

pub const PILL_ROW_H: i32 = 50;

pub const VIEWPORT_TOP: i32 = 90;

pub const VIEWPORT_BOTTOM: i32 = 484;

pub const VIEWPORT_H: i32 = 394;

/// How far a feed has come.
pub enum TimelineState {
    /// The first page is under way.
    Loading,
    /// At least one page is there. No cursor means that it was the last one.
    Loaded { list: PostList, next_cursor: Option<String> },
    /// The first page could not be had.
    Error(String),
}

/// A feed on screen.
pub struct TimelineScreen {
    pub state: TimelineState,
    pub current_source: FeedSource,
    /// The pinned feeds, the home feed first; empty until they are known.
    pub saved_feeds: Vec<SavedFeedPin>,
    pub pill_buttons: Vec<ButtonState>,
    pub saved_feeds_dispatched: bool,
    pub dispatched: bool,
    pub fetching_more: bool,
    /// Pictures that were asked for. One that failed stays, so that it is not
    /// asked for again and again.
    pub inflight_avatars: StringHashSet,
    pub tab_bar: TabBar,
    /// This screen was opened for one feed: it has no pills and no tab bar.
    pub is_pushed: bool,
}

/// What the buttons of a post list ask for.
#[derive(Debug)]
pub struct PadOutcome {
    pub like_request: Option<WorkRequest>,
    pub repost_request: Option<WorkRequest>,
    pub push: Option<NextScreen>,
}

/// How the scroll position is settled: where it jumps, if it does, and the
/// most it can be.
#[derive(Copy, Clone, Debug, PartialEq, Eq, Structural)]
pub struct ScrollSettle {
    pub target: Option<i32>,
    pub limit: i32,
}

/// One pill of the feed picker.
#[derive(Copy, Clone, Debug, PartialEq, Eq, Structural)]
pub struct Pill {
    pub rect: Rect,
    pub text_x: i32,
    pub active: bool,
}

/// The feed picker: its pills, and the one that was tapped.
#[derive(Debug)]
pub struct PillRow {
    pub pills: Vec<Pill>,
    pub tapped: Option<usize>,
}

/// What the first part of a frame of the feed asks for.
#[derive(Debug)]
pub struct FeedStart {
    pub requests: Vec<WorkRequest>,
    /// The selected post is to be brought into view.
    pub moved: bool,
    /// Anything but staying ends the frame.
    pub action: ScreenAction,
}

/// What the last part of a frame of the feed asks for.
#[derive(Debug)]
pub struct FeedEnd {
    pub pills: Vec<Pill>,
    /// Another feed is shown now, from its top.
    pub switched: bool,
    pub request: Option<WorkRequest>,
    pub action: ScreenAction,
}

/// What the last part of a frame of the feed is given.
pub ghost struct FeedInput {
    pub widths: Seq<i32>,
    pub pad: PadFrame,
    pub touches: Seq<TouchPoint>,
    pub scroll: int,
    pub has_worker: bool,
}

/// What stands in the list area.
#[derive(Debug)]
pub enum FeedBody {
    Loading,
    Empty,
    Posts,
    Problem(String),
}

/// What stands below the last post.
#[derive(Copy, Clone, Debug, PartialEq, Eq, Structural)]
pub enum FeedFooter {
    LoadingMore,
    EndOfFeed,
}

/// The posts of a state.
pub open spec fn state_posts(s: TimelineState) -> Seq<FeedPost> {
    match s {
        TimelineState::Loaded { list, .. } => list.posts@,
        _ => Seq::empty(),
    }
}

/// The measured rows of a state.
pub open spec fn state_rows(s: TimelineState) -> Seq<i32> {
    match s {
        TimelineState::Loaded { list, .. } => list.row_heights@,
        _ => Seq::empty(),
    }
}

/// The selection of a state.
pub open spec fn state_selected(s: TimelineState) -> int {
    match s {
        TimelineState::Loaded { list, .. } => list.selected_idx as int,
        _ => 0,
    }
}

/// The cursor of a state.
pub open spec fn state_cursor(s: TimelineState) -> Option<String> {
    match s {
        TimelineState::Loaded { next_cursor, .. } => next_cursor,
        _ => None,
    }
}

/// The two states differ in their posts alone.
pub open spec fn same_but_posts(a: TimelineState, b: TimelineState) -> bool {
    match a {
        TimelineState::Loaded { list, next_cursor } => {
            &&& b is Loaded
            &&& b->list == (PostList { posts: b->list.posts, ..list })
            &&& b->next_cursor == next_cursor
        },
        _ => b == a,
    }
}

/// The pictures of the first `n` pinned feeds.
pub open spec fn pin_urls(pins: Seq<SavedFeedPin>, n: int) -> Seq<Seq<char>>
    decreases n,
{
    if n <= 0 {
        Seq::empty()
    } else {
        match pins[n - 1].avatar_url {
            Some(a) => pin_urls(pins, n - 1).push(thumbnail_url(a@)),
            None => pin_urls(pins, n - 1),
        }
    }
}

/// Where pill `i` starts, given the widths of the labels before it.
pub open spec fn pill_x(pins: Seq<SavedFeedPin>, widths: Seq<i32>, i: int) -> int
    decreases i,
{
    if i <= 0 {
        6
    } else {
        pill_x(pins, widths, i - 1) + pill_w(pins, widths, i - 1) + 6
    }
}

/// Where the label of a pill starts within it: behind the picture, if any.
pub open spec fn pill_pad(pin: SavedFeedPin) -> int {
    if pin.avatar_url is Some {
        40
    } else {
        12
    }
}

/// How wide pill `i` is.
pub open spec fn pill_w(pins: Seq<SavedFeedPin>, widths: Seq<i32>, i: int) -> int {
    pill_pad(pins[i]) + widths[i] + 12
}

/// The place of pill `i`.
pub open spec fn pill_rect(pins: Seq<SavedFeedPin>, widths: Seq<i32>, i: int) -> Rect {
    Rect {
        x: pill_x(pins, widths, i) as i32,
        y: 47,
        w: pill_w(pins, widths, i) as i32,
        h: 36,
    }
}

/// Pill `i` lies within the display and can be tapped.
pub open spec fn pill_on_screen(pins: Seq<SavedFeedPin>, widths: Seq<i32>, i: int) -> bool {
    pill_x(pins, widths, i) + pill_w(pins, widths, i) <= SCREEN_WIDTH
}

/// The place of pill `i`, of its label, and of what comes behind it can be held.
pub open spec fn pill_fits(pins: Seq<SavedFeedPin>, widths: Seq<i32>, i: int) -> bool {
    let x = pill_x(pins, widths, i);
    &&& fits_px(pill_w(pins, widths, i))
    &&& fits_px(x + pill_pad(pins[i]))
    &&& fits_px(x + pill_w(pins, widths, i))
    &&& fits_px(pill_x(pins, widths, i + 1))
}

/// The places of all pills can be held.
pub open spec fn pill_widths_ok(pins: Seq<SavedFeedPin>, widths: Seq<i32>) -> bool {
    forall|i: int| 0 <= i < widths.len() ==> #[trigger] pill_fits(pins, widths, i)
}

/// Whether the places of all pills can be held.
pub fn pills_fit(pins: &Vec<SavedFeedPin>, widths: &Vec<i32>) -> (r: bool)
    requires
        widths@.len() == pins@.len(),
    ensures
        r == pill_widths_ok(pins@, widths@),
{
    let mut cx: i64 = 6;
    let mut i: usize = 0;
    while i < widths.len()
        invariant
            i <= widths@.len() == pins@.len(),
            fits_px(cx as int),
            cx == pill_x(pins@, widths@, i as int),
            forall|k: int| 0 <= k < i ==> #[trigger] pill_fits(pins@, widths@, k),
        decreases widths@.len() - i,
    {
        let pad: i64 = if pins[i].avatar_url.is_some() {
            40
        } else {
            12
        };
        let w: i64 = pad + widths[i] as i64 + 12;
        let next: i64 = cx + w + 6;
        let fits = px_fits(w) && px_fits(cx + pad) && px_fits(cx + w) && px_fits(next);
        assert(fits == pill_fits(pins@, widths@, i as int));
        if !fits {
            return false;
        }
        cx = next;
        i += 1;
    }
    true
}

/// Pill `i` fires: it can be tapped, was clicked, and is not the shown feed.
pub open spec fn pill_fires(
    s: TimelineScreen,
    widths: Seq<i32>,
    touches: Seq<TouchPoint>,
    i: int,
) -> bool {
    &&& i < s.pill_buttons@.len()
    &&& pill_on_screen(s.saved_feeds@, widths, i)
    &&& clicked(
        true,
        s.pill_buttons@[i].pressed_last,
        touched(touches, pill_rect(s.saved_feeds@, widths, i)),
        touches.len() > 0,
    )
    &&& s.saved_feeds@[i].source@ != s.current_source@
}

/// The last pill among the first `n` that fires.
pub open spec fn pill_tapped(
    s: TimelineScreen,
    widths: Seq<i32>,
    touches: Seq<TouchPoint>,
    n: int,
) -> Option<usize>
    decreases n,
{
    if n <= 0 {
        None
    } else if pill_fires(s, widths, touches, n - 1) {
        Some((n - 1) as usize)
    } else {
        pill_tapped(s, widths, touches, n - 1)
    }
}

/// The press state of pill `i` after this frame.
pub open spec fn pill_pressed(
    s: TimelineScreen,
    widths: Seq<i32>,
    touches: Seq<TouchPoint>,
    i: int,
) -> ButtonState {
    if i < s.saved_feeds@.len() && pill_on_screen(s.saved_feeds@, widths, i) {
        ButtonState { pressed_last: touched(touches, pill_rect(s.saved_feeds@, widths, i)) }
    } else {
        s.pill_buttons@[i]
    }
}

/// Pill `i` as it is drawn.
pub open spec fn pill_at(s: TimelineScreen, widths: Seq<i32>, i: int) -> Pill {
    Pill {
        rect: pill_rect(s.saved_feeds@, widths, i),
        text_x: (pill_x(s.saved_feeds@, widths, i) + pill_pad(s.saved_feeds@[i])) as i32,
        active: s.saved_feeds@[i].source@ == s.current_source@,
    }
}

/// What an answer makes of a feed screen.
pub open spec fn feed_responded(a: TimelineScreen, b: TimelineScreen, resp: WorkResponse) -> bool {
    match resp {
        WorkResponse::FeedPage { source, batch } => if source@ != a.current_source@ {
            b == a
        } else {
            match batch {
                Ok(page) => {
                    &&& b.state is Loaded
                    &&& b.posts() == a.posts() + page.posts@
                    &&& b.rows() == a.rows()
                    &&& b.selected() == a.selected()
                    &&& state_cursor(b.state) == page.cursor
                    &&& b == (TimelineScreen { fetching_more: false, state: b.state, ..a })
                },
                Err(e) => b == (TimelineScreen {
                    fetching_more: false,
                    state: if a.state is Loading {
                        TimelineState::Error(e)
                    } else {
                        a.state
                    },
                    ..a
                }),
            }
        },
        WorkResponse::SavedFeeds(Ok(batch)) => {
            &&& b.pill_buttons@ == Seq::new(
                batch.pins@.len(),
                |i: int| ButtonState { pressed_last: false },
            )
            &&& b == (TimelineScreen {
                saved_feeds: batch.pins,
                pill_buttons: b.pill_buttons,
                ..a
            })
        },
        WorkResponse::Image { url, bytes: Ok(_) } => {
            &&& b.inflight_avatars@ == a.inflight_avatars@.remove(url@)
            &&& b == (TimelineScreen { inflight_avatars: b.inflight_avatars, ..a })
        },
        WorkResponse::LikeChanged(Ok(Some(uri))) => {
            &&& first_confirmed(a.posts(), b.posts(), EngagementKind::Like, uri@)
            &&& same_but_posts(a.state, b.state)
            &&& b == (TimelineScreen { state: b.state, ..a })
        },
        WorkResponse::RepostChanged(Ok(Some(uri))) => {
            &&& first_confirmed(a.posts(), b.posts(), EngagementKind::Repost, uri@)
            &&& same_but_posts(a.state, b.state)
            &&& b == (TimelineScreen { state: b.state, ..a })
        },
        _ => b == a,
    }
}

// ── What one frame does ────────────────────────────────────────────────

/// The screen once its first requests are sent.
pub open spec fn begun(s: TimelineScreen, has_worker: bool) -> TimelineScreen {
    TimelineScreen {
        dispatched: s.dispatched || has_worker,
        saved_feeds_dispatched: s.saved_feeds_dispatched || (has_worker && !s.is_pushed),
        ..s
    }
}

/// The first requests of a screen, as far as they were not sent yet.
pub open spec fn first_requests(s: TimelineScreen, has_worker: bool) -> Seq<WorkRequest> {
    (if has_worker && !s.dispatched {
        seq![WorkRequest::FetchFeed { source: s.current_source, cursor: None }]
    } else {
        Seq::empty()
    }) + (if has_worker && !s.saved_feeds_dispatched && !s.is_pushed {
        seq![WorkRequest::FetchSavedFeeds]
    } else {
        Seq::empty()
    })
}

/// The up and down buttons were followed; `changed` tells whether the selected
/// post is to be brought into view.
pub open spec fn selection_moved(
    a: TimelineScreen,
    b: TimelineScreen,
    pad: PadFrame,
    scroll: int,
    changed: bool,
) -> bool {
    let n = a.posts().len() as int;
    let start = a.snapped(scroll);
    &&& if n > 0 && (pad.up || pad.down) {
        &&& b.selected() == stepped(start, pad.up, pad.down, n)
        &&& changed == (!a.selected_shows(scroll) || step_moves(start, pad.up, pad.down, n))
    } else {
        b.selected() == a.selected() && !changed
    }
    &&& b.posts() == a.posts()
    &&& b.rows() == a.rows()
    &&& b.state is Loaded == a.state is Loaded
    &&& state_cursor(b.state) == state_cursor(a.state)
    &&& a.state is Loaded || b.state == a.state
    &&& b == (TimelineScreen { state: b.state, ..a })
}

/// The buttons for the selected post were followed: like, reply, repost,
/// compose. A reply ends the frame, so that what comes after it does not
/// happen.
pub open spec fn buttons_followed(
    a: TimelineScreen,
    b: TimelineScreen,
    pad: PadFrame,
    has_worker: bool,
    out: PadOutcome,
) -> bool {
    let posts = a.posts();
    let sel = a.selected();
    let replies = pad.r1 && sel < posts.len();
    let like = pad.l1 && has_worker;
    let repost = pad.triangle && !replies && has_worker;
    &&& same_but_posts(a.state, b.state)
    &&& b == (TimelineScreen { state: b.state, ..a })
    &&& posts_marked(posts, b.posts(), sel, like, repost)
    &&& if like && sel < posts.len() {
        toggle_request_is(out.like_request, posts[sel].post, EngagementKind::Like)
    } else {
        out.like_request is None
    }
    &&& if repost && sel < posts.len() {
        toggle_request_is(out.repost_request, posts[sel].post, EngagementKind::Repost)
    } else {
        out.repost_request is None
    }
    &&& out.push == (if replies {
        Some(
            NextScreen::Compose {
                reply: Some(reply_to(posts[sel])),
                handle: Some(posts[sel].post.author.handle),
            },
        )
    } else if pad.square {
        Some(NextScreen::Compose { reply: None, handle: None })
    } else {
        None
    })
}

/// The request for the next page, when it is due.
pub open spec fn page_request(s: TimelineScreen, scroll: int, has_worker: bool) -> Option<
    WorkRequest,
> {
    if has_worker && s.page_due(scroll) {
        Some(
            WorkRequest::FetchFeed { source: s.current_source, cursor: state_cursor(s.state) },
        )
    } else {
        None
    }
}

/// The pictures that are wanted and not at hand were asked for.
pub open spec fn images_asked(
    a: TimelineScreen,
    b: TimelineScreen,
    urls: Seq<Seq<char>>,
    cached: Seq<bool>,
    reqs: Seq<WorkRequest>,
) -> bool {
    let n = urls.len() as int;
    &&& fetched(reqs) == asked_for(urls, cached, a.inflight_avatars@, n)
    &&& forall|i: int| 0 <= i < reqs.len() ==> #[trigger] reqs[i] is FetchImage
    &&& b.inflight_avatars@ == inflight_after(urls, cached, a.inflight_avatars@, n)
    &&& b == (TimelineScreen { inflight_avatars: b.inflight_avatars, ..a })
}

/// One frame of the pills.
pub open spec fn pills_tracked(
    a: TimelineScreen,
    b: TimelineScreen,
    widths: Seq<i32>,
    touches: Seq<TouchPoint>,
    pills: Seq<Pill>,
    tapped: Option<usize>,
) -> bool {
    &&& pills == Seq::new(widths.len(), |i: int| pill_at(a, widths, i))
    &&& tapped == pill_tapped(a, widths, touches, widths.len() as int)
    &&& b.pill_buttons@ == Seq::new(
        a.pill_buttons@.len(),
        |i: int| pill_pressed(a, widths, touches, i),
    )
    &&& b == (TimelineScreen { pill_buttons: b.pill_buttons, ..a })
}

/// A tap on a pill shows another feed.
pub open spec fn pill_switches(s: TimelineScreen, tapped: Option<usize>) -> bool {
    tapped matches Some(i) && i < s.saved_feeds@.len() && s.saved_feeds@[i as int].source@
        != s.current_source@
}

/// The screen once a tap on a pill is followed.
pub open spec fn pill_followed(s: TimelineScreen, tapped: Option<usize>) -> TimelineScreen {
    if pill_switches(s, tapped) {
        TimelineScreen {
            state: TimelineState::Loading,
            current_source: s.saved_feeds@[tapped->0 as int].source,
            dispatched: false,
            fetching_more: false,
            ..s
        }
    } else {
        s
    }
}

/// The bar at the bottom was followed, or the way back where there is none.
pub open spec fn feed_left(
    a: TimelineScreen,
    b: TimelineScreen,
    pad: PadFrame,
    touches: Seq<TouchPoint>,
    action: ScreenAction,
) -> bool {
    if a.is_pushed {
        &&& b == a
        &&& action == (if pad.circle {
            ScreenAction::Pop
        } else {
            ScreenAction::Stay
        })
    } else {
        &&& b == (TimelineScreen { tab_bar: b.tab_bar, ..a })
        &&& bar_followed(a.tab_bar, b.tab_bar, touches, action)
    }
}

/// What a tap on the list asks for. Touches on the bar at the bottom do not
/// count.
pub open spec fn feed_tapped(
    s: TimelineScreen,
    touches: Seq<TouchPoint>,
    scroll: int,
    tap: Option<TapAction>,
) -> bool {
    match s.state {
        TimelineState::Loaded { list, .. } => list.tap_result(
            tap,
            touches_between(touches, i32::MIN as int, VIEWPORT_BOTTOM as int),
            VIEWPORT_TOP - scroll,
            (VIEWPORT_TOP as int, VIEWPORT_BOTTOM as int),
            true,
        ),
        _ => tap is None,
    }
}

/// A tap was followed: marks are toggled in place, anything else opens.
pub open spec fn tap_followed(
    a: TimelineScreen,
    b: TimelineScreen,
    tap: Option<TapAction>,
    has_worker: bool,
    request: Option<WorkRequest>,
    action: ScreenAction,
) -> bool {
    &&& same_but_posts(a.state, b.state)
    &&& b == (TimelineScreen { state: b.state, ..a })
    &&& action == tap_opens(tap)
    &&& match a.state {
        TimelineState::Loaded { list, .. } => PostList::tap_followed(
            list,
            b.state->list,
            tap,
            has_worker,
            request,
        ),
        _ => request is None,
    }
}

/// The first part of a frame by its steps: the first requests, the selection
/// (which leaves the screen as `m`), then the buttons for the selected post.
pub open spec fn start_steps(
    a: TimelineScreen,
    m: TimelineScreen,
    b: TimelineScreen,
    pad: PadFrame,
    scroll: int,
    has_worker: bool,
    pads: PadOutcome,
    out: FeedStart,
) -> bool {
    &&& selection_moved(begun(a, has_worker), m, pad, scroll, out.moved)
    &&& buttons_followed(m, b, pad, has_worker, pads)
    &&& out.requests@ == first_requests(a, has_worker) + sent(pads.like_request) + sent(
        pads.repost_request,
    )
    &&& out.action == pushed(pads.push)
}

/// The first part of a frame, before anything is measured or drawn.
pub open spec fn frame_started(
    a: TimelineScreen,
    b: TimelineScreen,
    pad: PadFrame,
    scroll: int,
    has_worker: bool,
    out: FeedStart,
) -> bool {
    exists|m: TimelineScreen, pads: PadOutcome|
        #[trigger] start_steps(a, m, b, pad, scroll, has_worker, pads, out)
}

/// The requests of a frame once the scroll position is settled: the next page,
/// then the pictures.
pub open spec fn request_steps(
    a: TimelineScreen,
    b: TimelineScreen,
    scroll: int,
    urls: Seq<Seq<char>>,
    cached: Seq<bool>,
    images: Seq<WorkRequest>,
    reqs: Seq<WorkRequest>,
) -> bool {
    let page = page_request(a, scroll, true);
    let m = TimelineScreen { fetching_more: a.fetching_more || page is Some, ..a };
    &&& images_asked(m, b, urls, cached, images)
    &&& reqs == sent(page) + images
}

/// The requests of a frame once the scroll position is settled. Without a
/// worker there are none.
pub open spec fn frame_asked(
    a: TimelineScreen,
    b: TimelineScreen,
    scroll: int,
    urls: Seq<Seq<char>>,
    cached: Seq<bool>,
    has_worker: bool,
    reqs: Seq<WorkRequest>,
) -> bool {
    if has_worker {
        exists|images: Seq<WorkRequest>|
            #[trigger] request_steps(a, b, scroll, urls, cached, images, reqs)
    } else {
        b == a && reqs.len() == 0
    }
}

/// The last part of a frame by its steps: the pills (which leave the screen as
/// `p`), the bar at the bottom (which leaves it as `l`), and a tap on the list
/// where neither leaves the screen.
pub open spec fn end_steps(
    a: TimelineScreen,
    p: TimelineScreen,
    tapped: Option<usize>,
    l: TimelineScreen,
    way: ScreenAction,
    tap: Option<TapAction>,
    b: TimelineScreen,
    input: FeedInput,
    out: FeedEnd,
) -> bool {
    &&& pills_handled(a, p, input.widths, input.touches, out.pills@, tapped)
    &&& out.switched == pill_switches(p, tapped)
    &&& feed_left(pill_followed(p, tapped), l, input.pad, input.touches, way)
    &&& if way is Stay {
        &&& feed_tapped(l, input.touches, input.scroll, tap)
        &&& tap_followed(l, b, tap, input.has_worker, out.request, out.action)
    } else {
        b == l && out.request is None && out.action == way
    }
}

/// The last part of a frame, behind what is drawn.
pub open spec fn frame_ended(
    a: TimelineScreen,
    b: TimelineScreen,
    input: FeedInput,
    out: FeedEnd,
) -> bool {
    exists|
        p: TimelineScreen,
        tapped: Option<usize>,
        l: TimelineScreen,
        way: ScreenAction,
        tap: Option<TapAction>,
    | #[trigger] end_steps(a, p, tapped, l, way, tap, b, input, out)
}

/// What the last part of a frame is given.
pub open spec fn feed_input(
    widths: Seq<i32>,
    pad: PadFrame,
    touches: Seq<TouchPoint>,
    scroll: int,
    has_worker: bool,
) -> FeedInput {
    FeedInput { widths, pad, touches, scroll, has_worker }
}

/// One frame of the pills, which a screen opened for one feed does not have.
pub open spec fn pills_handled(
    a: TimelineScreen,
    b: TimelineScreen,
    widths: Seq<i32>,
    touches: Seq<TouchPoint>,
    pills: Seq<Pill>,
    tapped: Option<usize>,
) -> bool {
    if a.is_pushed {
        b == a && pills.len() == 0 && tapped is None
    } else {
        pills_tracked(a, b, widths, touches, pills, tapped)
    }
}

impl TimelineScreen {
    /// The posts that are there.
    pub open spec fn posts(&self) -> Seq<FeedPost> {
        state_posts(self.state)
    }

    /// The measured rows.
    pub open spec fn rows(&self) -> Seq<i32> {
        state_rows(self.state)
    }

    /// The selected post.
    pub open spec fn selected(&self) -> int {
        state_selected(self.state)
    }

    /// The list of posts is well formed.
    pub open spec fn wf(&self) -> bool {
        self.state matches TimelineState::Loaded { list, .. } ==> list.wf()
    }

    fn with_source(source: FeedSource, is_pushed: bool) -> (r: TimelineScreen)
        ensures
            r.wf(),
            r.state is Loading,
            r.current_source == source,
            r.is_pushed == is_pushed,
            r.saved_feeds@.len() == 0,
            r.pill_buttons@.len() == 0,
            !r.saved_feeds_dispatched,
            !r.dispatched,
            !r.fetching_more,
            r.inflight_avatars@ == Set::<Seq<char>>::empty(),
            r.tab_bar.fresh(TopLevel::Home),
    {
        TimelineScreen {
            state: TimelineState::Loading,
            current_source: source,
            saved_feeds: Vec::new(),
            pill_buttons: Vec::new(),
            saved_feeds_dispatched: false,
            dispatched: false,
            fetching_more: false,
            inflight_avatars: StringHashSet::new(),
            tab_bar: TabBar::new(TopLevel::Home),
            is_pushed,
        }
    }

    /// The home timeline as it is opened, before its posts came.
    pub open spec fn opened_home(r: TimelineScreen) -> bool {
        &&& r.state is Loading
        &&& r.current_source == FeedSource::Following
        &&& !r.is_pushed
        &&& r.saved_feeds@.len() == 0
        &&& !r.saved_feeds_dispatched
        &&& !r.dispatched
        &&& !r.fetching_more
        &&& r.inflight_avatars@ == Set::<Seq<char>>::empty()
        &&& r.pill_buttons@.len() == 0
        &&& r.tab_bar.fresh(TopLevel::Home)
    }

    /// The home feed.
    pub fn new() -> (r: TimelineScreen)
        ensures
            r.wf(),
            Self::opened_home(r),
    {
        TimelineScreen::with_source(FeedSource::Following, false)
    }

    /// A feed as it is opened on top, before its posts came.
    pub open spec fn opened_feed(feed_uri: String, r: TimelineScreen) -> bool {
        &&& r.state is Loading
        &&& r.current_source == FeedSource::Feed(feed_uri)
        &&& r.is_pushed
        &&& r.saved_feeds@.len() == 0
        &&& !r.saved_feeds_dispatched
        &&& !r.dispatched
        &&& !r.fetching_more
        &&& r.inflight_avatars@ == Set::<Seq<char>>::empty()
        &&& r.pill_buttons@.len() == 0
        &&& r.tab_bar.fresh(TopLevel::Home)
    }

    /// One custom feed, opened from elsewhere.
    pub fn with_feed(feed_uri: String) -> (r: TimelineScreen)
        ensures
            r.wf(),
            Self::opened_feed(feed_uri, r),
    {
        TimelineScreen::with_source(FeedSource::Feed(feed_uri), true)
    }

    /// Shows another feed: everything about the old one is dropped, so that
    /// the next frame asks for the first page. `false`: it is shown already.
    pub fn switch_to(&mut self, source: FeedSource) -> (r: bool)
        requires
            old(self).wf(),
        ensures
            final(self).wf(),
            r == (source@ != old(self).current_source@),
            *final(self) == (if r {
                TimelineScreen {
                    state: TimelineState::Loading,
                    current_source: source,
                    dispatched: false,
                    fetching_more: false,
                    ..*old(self)
                }
            } else {
                *old(self)
            }),
    {
        if source.same(&self.current_source) {
            return false;
        }
        self.current_source = source;
        self.state = TimelineState::Loading;
        self.dispatched = false;
        self.fetching_more = false;
        true
    }

    /// The pin of the feed that is shown, from `from` on.
    pub open spec fn shown_pin(&self, from: int) -> Option<SavedFeedPin>
        decreases self.saved_feeds@.len() - from,
    {
        if from >= self.saved_feeds@.len() {
            None
        } else if self.saved_feeds@[from].source@ == self.current_source@ {
            Some(self.saved_feeds@[from])
        } else {
            self.shown_pin(from + 1)
        }
    }

    /// The name of the feed that is shown.
    pub open spec fn shown_name(&self) -> Seq<char> {
        match self.shown_pin(0) {
            Some(p) => p.display_name@,
            None => "Following"@,
        }
    }

    /// The name in the header: that of the pin, or of the home feed as long
    /// as the pins are not known.
    pub fn header_label(&self) -> (r: String)
        ensures
            r@ == self.shown_name(),
    {
        let mut i: usize = 0;
        while i < self.saved_feeds.len()
            invariant
                i <= self.saved_feeds@.len(),
                self.shown_pin(0) == self.shown_pin(i as int),
            decreases self.saved_feeds@.len() - i,
        {
            if self.saved_feeds[i].source.same(&self.current_source) {
                return self.saved_feeds[i].display_name.clone();
            }
            i += 1;
        }
        owned("Following")
    }

    /// The first requests: the first page of the feed, and the pinned feeds
    /// where they are shown. Each is sent once.
    pub fn begin_frame(&mut self, has_worker: bool) -> (r: Vec<WorkRequest>)
        requires
            old(self).wf(),
        ensures
            final(self).wf(),
            *final(self) == begun(*old(self), has_worker),
            r@ == first_requests(*old(self), has_worker),
    {
        let mut r: Vec<WorkRequest> = Vec::new();
        if !self.dispatched && has_worker {
            r.push(WorkRequest::FetchFeed { source: self.current_source.clone(), cursor: None });
            self.dispatched = true;
        }
        if !self.saved_feeds_dispatched && !self.is_pushed && has_worker {
            r.push(WorkRequest::FetchSavedFeeds);
            self.saved_feeds_dispatched = true;
        }
        r
    }

    /// Whether the selected post shows at this scroll position.
    pub open spec fn selected_shows(&self, scroll: int) -> bool {
        self.selected() >= self.rows().len() || in_band(
            row_top(self.rows(), self.selected()),
            self.rows()[self.selected()] as int,
            scroll,
            scroll + VIEWPORT_H,
        )
    }

    /// The selection that the up and down buttons start from: the first post
    /// in view, where the stick has moved the selected one out of view.
    pub open spec fn snapped(&self, scroll: int) -> int {
        if self.selected_shows(scroll) {
            self.selected()
        } else {
            first_visible(self.rows(), scroll, 0)
        }
    }

    /// The selection after the up and down buttons.
    pub open spec fn selected_next(&self, pad: PadFrame, scroll: int) -> int {
        if self.posts().len() > 0 && (pad.up || pad.down) {
            stepped(self.snapped(scroll), pad.up, pad.down, self.posts().len() as int)
        } else {
            self.selected()
        }
    }

    /// The buttons toggle no counter without room, where post `sel` is selected.
    pub open spec fn buttons_fit(&self, pad: PadFrame, sel: int, has_worker: bool) -> bool {
        let replies = pad.r1 && sel < self.posts().len();
        marks_have_room(
            self.posts(),
            sel,
            pad.l1 && has_worker,
            pad.triangle && !replies && has_worker,
        )
    }

    /// Whether the buttons toggle no counter without room, once the up and down
    /// buttons were followed.
    pub fn buttons_room(&self, pad: &PadFrame, scroll: i32, has_worker: bool) -> (r: bool)
        requires
            self.wf(),
            -1000 <= scroll <= MAX_CONTENT_H,
        ensures
            r == self.buttons_fit(*pad, self.selected_next(*pad, scroll as int), has_worker),
    {
        match &self.state {
            TimelineState::Loaded { list, .. } => {
                let n: usize = list.posts.len();
                let mut sel: usize = list.selected_idx;
                if n > 0 && (pad.up || pad.down) {
                    if !row_visible(&list.row_heights, sel, scroll, VIEWPORT_H) {
                        proof {
                            lemma_tops_fit(list.row_heights@);
                        }
                        sel = first_visible_idx(&list.row_heights, scroll);
                    }
                    let (next, _) = step_selection(sel, pad.up, pad.down, n);
                    sel = next;
                }
                let replies = pad.r1 && sel < n;
                list.marks_room(
                    sel,
                    pad.l1 && has_worker,
                    pad.triangle && !replies && has_worker,
                )
            },
            _ => true,
        }
    }

    /// A tap on the list toggles no counter without room.
    pub open spec fn taps_fit(&self, touches: Seq<TouchPoint>, scroll: int) -> bool {
        self.state matches TimelineState::Loaded { list, .. } ==> list.tap_fits(
            touches_between(touches, i32::MIN as int, VIEWPORT_BOTTOM as int),
            VIEWPORT_TOP - scroll,
            (VIEWPORT_TOP as int, VIEWPORT_BOTTOM as int),
            true,
        )
    }

    /// Whether a tap on the list toggles no counter without room.
    pub fn taps_room(&self, touches: &Vec<TouchPoint>, scroll: i32) -> (r: bool)
        requires
            self.wf(),
            0 <= scroll <= MAX_CONTENT_H,
        ensures
            r == self.taps_fit(touches@, scroll as int),
    {
        let inside = touches_in_band(touches, i32::MIN, VIEWPORT_BOTTOM);
        match &self.state {
            TimelineState::Loaded { list, .. } => list.tap_room(
                &inside,
                VIEWPORT_TOP - scroll,
                VIEWPORT_TOP,
                VIEWPORT_BOTTOM,
                true,
            ),
            _ => true,
        }
    }

    /// Moves the selection; `true` means that it is to be brought into view.
    pub fn move_selection(&mut self, pad: &PadFrame, scroll: i32) -> (r: bool)
        requires
            old(self).wf(),
            -1000 <= scroll <= MAX_CONTENT_H,
        ensures
            final(self).wf(),
            selection_moved(*old(self), *final(self), *pad, scroll as int, r),
    {
        match &mut self.state {
            TimelineState::Loaded { list, .. } => {
                if list.posts.len() == 0 || !(pad.up || pad.down) {
                    return false;
                }
                let mut changed = false;
                if !row_visible(&list.row_heights, list.selected_idx, scroll, VIEWPORT_H) {
                    proof {
                        lemma_tops_fit(list.row_heights@);
                    }
                    list.selected_idx = first_visible_idx(&list.row_heights, scroll);
                    changed = true;
                }
                let moved = list.step(pad.up, pad.down);
                changed || moved
            },
            _ => false,
        }
    }

    /// Toggles a mark on a post.
    pub fn toggle_at(&mut self, idx: usize, kind: EngagementKind, has_worker: bool) -> (r: Option<
        WorkRequest,
    >)
        requires
            old(self).wf(),
            has_worker && idx < old(self).posts().len() ==> can_toggle(
                old(self).posts()[idx as int].post,
                kind,
            ),
        ensures
            final(self).wf(),
            same_but_posts(old(self).state, final(self).state),
            *final(self) == (TimelineScreen { state: final(self).state, ..*old(self) }),
            posts_marked(
                old(self).posts(),
                final(self).posts(),
                idx as int,
                has_worker && kind == EngagementKind::Like,
                has_worker && kind == EngagementKind::Repost,
            ),
            if has_worker && idx < old(self).posts().len() {
                toggle_request_is(r, old(self).posts()[idx as int].post, kind)
            } else {
                r is None
            },
    {
        match &mut self.state {
            TimelineState::Loaded { list, .. } => list.toggle_at(idx, kind, has_worker),
            _ => None,
        }
    }

    /// The selected post is the one to reply to.
    pub open spec fn reply_offered(s: Self, r: Option<ReplyTarget>) -> bool {
        r == (if s.selected() < s.posts().len() {
            Some(reply_to(s.posts()[s.selected()]))
        } else {
            None
        })
    }

    /// The reply that the selected post would get.
    pub fn focused_reply_target(&self) -> (r: Option<ReplyTarget>)
        ensures
            Self::reply_offered(*self, r),
    {
        match &self.state {
            TimelineState::Loaded { list, .. } => {
                if list.selected_idx < list.posts.len() {
                    Some(reply_target_for(&list.posts[list.selected_idx]))
                } else {
                    None
                }
            },
            _ => None,
        }
    }

    /// The buttons: like, reply, repost, compose. A reply ends the frame, so
    /// that what comes after it does not happen.
    pub fn pad_actions(&mut self, pad: &PadFrame, has_worker: bool) -> (r: PadOutcome)
        requires
            old(self).wf(),
            old(self).buttons_fit(*pad, old(self).selected(), has_worker),
        ensures
            final(self).wf(),
            buttons_followed(*old(self), *final(self), *pad, has_worker, r),
    {
        let sel: usize = match &self.state {
            TimelineState::Loaded { list, .. } => list.selected_idx,
            _ => 0,
        };
        let mut like_request: Option<WorkRequest> = None;
        let mut repost_request: Option<WorkRequest> = None;
        if pad.l1 {
            like_request = self.toggle_at(sel, EngagementKind::Like, has_worker);
        }
        if pad.r1 {
            match &self.state {
                TimelineState::Loaded { list, .. } => {
                    if sel < list.posts.len() {
                        let reply = reply_target_for(&list.posts[sel]);
                        let handle = list.selected_handle();
                        return PadOutcome {
                            like_request,
                            repost_request,
                            push: Some(NextScreen::Compose { reply: Some(reply), handle }),
                        };
                    }
                },
                _ => {},
            }
        }
        if pad.triangle {
            repost_request = self.toggle_at(sel, EngagementKind::Repost, has_worker);
        }
        let push = if pad.square {
            Some(NextScreen::Compose { reply: None, handle: None })
        } else {
            None
        };
        PadOutcome { like_request, repost_request, push }
    }

    /// Takes the measured text heights of the next post.
    pub fn add_row(&mut self, h: TextHeights)
        requires
            old(self).wf(),
            old(self).state matches TimelineState::Loaded { list, .. } && list.row_fits(h, true),
        ensures
            final(self).wf(),
            final(self).rows() == old(self).rows().push(
                crate::post_row::row_height(
                    old(self).posts()[old(self).rows().len() as int],
                    h,
                    true,
                ) as i32,
            ),
            final(self).posts() == old(self).posts(),
            final(self).selected() == old(self).selected(),
            final(self).state is Loaded,
            state_cursor(final(self).state) == state_cursor(old(self).state),
            *final(self) == (TimelineScreen { state: final(self).state, ..*old(self) }),
    {
        match &mut self.state {
            TimelineState::Loaded { list, .. } => list.add_row(h, true),
            _ => {},
        }
    }

    /// How the scroll position is settled.
    pub open spec fn settled(&self, selection_changed: bool, scroll: int, r: ScrollSettle) -> bool {
        let sel = self.selected();
        let wanted = if selection_changed && sel < self.rows().len() {
            reveal_target(
                row_top(self.rows(), sel),
                self.rows()[sel] as int,
                scroll,
                VIEWPORT_H as int,
                true,
            )
        } else {
            None
        };
        &&& r.limit == scroll_limit(total(self.rows()), VIEWPORT_H as int)
        &&& match r.target {
            Some(t) => wanted == Some(t as int),
            None => wanted is None,
        }
    }

    /// Settles the scroll position: a selection that moved is brought into
    /// view, and the position stays within the content.
    pub fn settle_scroll(&self, selection_changed: bool, scroll: i32) -> (r: ScrollSettle)
        requires
            self.wf(),
            -1000 <= scroll <= MAX_CONTENT_H,
        ensures
            self.settled(selection_changed, scroll as int, r),
    {
        match &self.state {
            TimelineState::Loaded { list, .. } => {
                let limit: i32 = max_scroll(content_height(&list.row_heights), VIEWPORT_H);
                let target = if selection_changed {
                    reveal_row(&list.row_heights, list.selected_idx, scroll, VIEWPORT_H, true)
                } else {
                    None
                };
                ScrollSettle { target, limit }
            },
            _ => ScrollSettle { target: None, limit: 0 },
        }
    }

    /// The next page is due: the end is close, there is one, and none is under
    /// way.
    pub open spec fn page_due(&self, scroll: int) -> bool {
        !self.fetching_more && state_cursor(self.state) is Some && scroll + VIEWPORT_H
            + PAGINATION_THRESHOLD >= total(self.rows())
    }

    /// Asks for the next page when the end is close.
    pub fn paginate(&mut self, scroll: i32, has_worker: bool) -> (r: Option<WorkRequest>)
        requires
            old(self).wf(),
            0 <= scroll <= MAX_CONTENT_H,
        ensures
            final(self).wf(),
            r == page_request(*old(self), scroll as int, has_worker),
            *final(self) == (TimelineScreen {
                fetching_more: old(self).fetching_more || r is Some,
                ..*old(self)
            }),
    {
        if self.fetching_more || !has_worker {
            return None;
        }
        let cursor = match &self.state {
            TimelineState::Loaded { list, next_cursor } => {
                if scroll + VIEWPORT_H + PAGINATION_THRESHOLD < content_height(&list.row_heights) {
                    return None;
                }
                clone_text(next_cursor)
            },
            _ => None,
        };
        if cursor.is_none() {
            return None;
        }
        self.fetching_more = true;
        Some(WorkRequest::FetchFeed { source: self.current_source.clone(), cursor })
    }

    /// The pictures that the visible posts and the pills need.
    pub fn wanted_images(&self, scroll: i32) -> (r: Vec<String>)
        requires
            self.wf(),
            0 <= scroll <= MAX_CONTENT_H,
        ensures
            texts(r@) == visible_urls(
                self.posts(),
                self.rows(),
                VIEWPORT_TOP - scroll,
                (VIEWPORT_TOP as int, SCREEN_HEIGHT as int),
                self.rows().len() as int,
            ) + pin_urls(self.saved_feeds@, self.saved_feeds@.len() as int),
    {
        let mut r: Vec<String> = match &self.state {
            TimelineState::Loaded { list, .. } => collect_visible_urls(
                &list.posts,
                &list.row_heights,
                VIEWPORT_TOP - scroll,
                VIEWPORT_TOP,
                SCREEN_HEIGHT,
            ),
            _ => Vec::new(),
        };
        let ghost from_posts = texts(r@);
        assert(from_posts =~= visible_urls(
            self.posts(),
            self.rows(),
            VIEWPORT_TOP - scroll,
            (VIEWPORT_TOP as int, SCREEN_HEIGHT as int),
            self.rows().len() as int,
        ));
        let mut i: usize = 0;
        assert(texts(r@) =~= from_posts + pin_urls(self.saved_feeds@, 0));
        while i < self.saved_feeds.len()
            invariant
                i <= self.saved_feeds@.len(),
                texts(r@) == from_posts + pin_urls(self.saved_feeds@, i as int),
            decreases self.saved_feeds@.len() - i,
        {
            let ghost before = texts(r@);
            match &self.saved_feeds[i].avatar_url {
                Some(a) => {
                    let url = avatar_thumbnail_jpeg(a.as_str());
                    r.push(url);
                    assert(texts(r@) =~= before.push(url@));
                    assert(texts(r@) =~= from_posts + pin_urls(self.saved_feeds@, i + 1));
                },
                None => {},
            }
            i += 1;
        }
        r
    }

    /// Asks for the wanted pictures that are not at hand.
    pub fn request_images(&mut self, urls: Vec<String>, cached: &Vec<bool>) -> (r: Vec<WorkRequest>)
        requires
            old(self).wf(),
            urls@.len() <= cached@.len(),
        ensures
            final(self).wf(),
            images_asked(*old(self), *final(self), texts(urls@), cached@, r@),
    {
        request_missing(urls, cached, &mut self.inflight_avatars)
    }

    /// What stands in the list area.
    pub open spec fn shown_body(&self) -> FeedBody {
        match self.state {
            TimelineState::Loading => FeedBody::Loading,
            TimelineState::Loaded { list, .. } => if list.posts@.len() == 0 {
                FeedBody::Empty
            } else {
                FeedBody::Posts
            },
            TimelineState::Error(e) => FeedBody::Problem(e),
        }
    }

    /// What stands in the list area.
    pub fn body(&self) -> (r: FeedBody)
        ensures
            r == self.shown_body(),
    {
        match &self.state {
            TimelineState::Loading => FeedBody::Loading,
            TimelineState::Loaded { list, .. } => if list.posts.len() == 0 {
                FeedBody::Empty
            } else {
                FeedBody::Posts
            },
            TimelineState::Error(e) => FeedBody::Problem(e.clone()),
        }
    }

    /// What stands below the last post, and where.
    pub open spec fn shown_footer(&self, scroll: int) -> Option<(FeedFooter, i32)> {
        let y = VIEWPORT_TOP + total(self.rows()) - scroll + 8;
        let word = if self.fetching_more {
            Some(FeedFooter::LoadingMore)
        } else if state_cursor(self.state) is None {
            Some(FeedFooter::EndOfFeed)
        } else {
            None
        };
        if self.posts().len() > 0 && word is Some && VIEWPORT_TOP < y < SCREEN_HEIGHT - 8 {
            Some((word->0, y as i32))
        } else {
            None
        }
    }

    /// What stands below the last post, and where: a word that the next page
    /// is under way, or that there is none. Nothing where that place does not
    /// show.
    pub fn footer(&self, scroll: i32) -> (r: Option<(FeedFooter, i32)>)
        requires
            self.wf(),
            0 <= scroll <= MAX_CONTENT_H,
        ensures
            r == self.shown_footer(scroll as int),
    {
        match &self.state {
            TimelineState::Loaded { list, next_cursor } => {
                if list.posts.len() == 0 {
                    return None;
                }
                let word = if self.fetching_more {
                    FeedFooter::LoadingMore
                } else if next_cursor.is_none() {
                    FeedFooter::EndOfFeed
                } else {
                    return None;
                };
                let y: i32 = content_height(&list.row_heights) - scroll + VIEWPORT_TOP + 8;
                if y > VIEWPORT_TOP && y < SCREEN_HEIGHT - 8 {
                    Some((word, y))
                } else {
                    None
                }
            },
            _ => None,
        }
    }

    /// A feed on top belongs to no tab.
    pub open spec fn tab_of(s: Self, r: Option<TopLevel>) -> bool {
        r == (if s.is_pushed {
            None
        } else {
            Some(TopLevel::Home)
        })
    }

    /// The destination that this screen is, if it is one.
    pub fn top_level(&self) -> (r: Option<TopLevel>)
        ensures
            Self::tab_of(*self, r),
    {
        if self.is_pushed {
            None
        } else {
            Some(TopLevel::Home)
        }
    }

    /// One frame of the feed picker, given the widths of its labels: where the
    /// pills lie, and the pill that was tapped. Pills beyond the right edge
    /// cannot be tapped; a tap on the feed that is shown does nothing.
    pub fn pill_row(&mut self, widths: &Vec<i32>, touches: &Vec<TouchPoint>) -> (r: PillRow)
        requires
            old(self).wf(),
            widths@.len() == old(self).saved_feeds@.len(),
            pill_widths_ok(old(self).saved_feeds@, widths@),
        ensures
            final(self).wf(),
            pills_tracked(*old(self), *final(self), widths@, touches@, r.pills@, r.tapped),
    {
        let ghost a = *self;
        let mut pills: Vec<Pill> = Vec::new();
        let mut tapped: Option<usize> = None;
        let mut cx: i32 = 6;
        let mut i: usize = 0;
        while i < widths.len()
            invariant
                i <= widths@.len(),
                a == *old(self),
                a.wf(),
                self.wf(),
                *self == (TimelineScreen { pill_buttons: self.pill_buttons, ..a }),
                widths@.len() == a.saved_feeds@.len(),
                pill_widths_ok(a.saved_feeds@, widths@),
                cx == pill_x(a.saved_feeds@, widths@, i as int),
                pills@ == Seq::new(i as nat, |k: int| pill_at(a, widths@, k)),
                tapped == pill_tapped(a, widths@, touches@, i as int),
                self.pill_buttons@.len() == a.pill_buttons@.len(),
                forall|k: int|
                    0 <= k < self.pill_buttons@.len() ==> #[trigger] self.pill_buttons@[k] == (if k
                        < i {
                        pill_pressed(a, widths@, touches@, k)
                    } else {
                        a.pill_buttons@[k]
                    }),
            decreases widths@.len() - i,
        {
            let pin = &self.saved_feeds[i];
            let active = pin.source.same(&self.current_source);
            let pad: i32 = if pin.avatar_url.is_some() {
                40
            } else {
                12
            };
            assert(pill_fits(a.saved_feeds@, widths@, i as int));
            let w: i32 = (pad as i64 + widths[i] as i64 + 12) as i32;
            let rect = Rect::new(cx, HEADER_H + 7, w, PILL_ROW_H - 14);
            pills.push(Pill { rect, text_x: cx + pad, active });
            assert(pills@ =~= Seq::new((i + 1) as nat, |k: int| pill_at(a, widths@, k)));
            if cx + w <= SCREEN_WIDTH && i < self.pill_buttons.len() {
                let pressed_now = rect.touched_by(touches);
                let mut state = self.pill_buttons[i];
                let hit = state.track(pressed_now, touches.len() > 0, true);
                self.pill_buttons[i] = state;
                if hit && !active {
                    tapped = Some(i);
                }
            }
            cx = (cx as i64 + w as i64 + 6) as i32;
            i += 1;
        }
        assert(self.pill_buttons@ =~= Seq::new(
            a.pill_buttons@.len(),
            |i: int| pill_pressed(a, widths@, touches@, i),
        ));
        PillRow { pills, tapped }
    }

    /// Follows a tap on a pill; `true` means that another feed is shown now.
    pub fn follow_pill(&mut self, tapped: Option<usize>) -> (r: bool)
        requires
            old(self).wf(),
        ensures
            final(self).wf(),
            r == pill_switches(*old(self), tapped),
            *final(self) == pill_followed(*old(self), tapped),
    {
        match tapped {
            Some(i) => {
                if i < self.saved_feeds.len() {
                    let source = self.saved_feeds[i].source.clone();
                    self.switch_to(source)
                } else {
                    false
                }
            },
            None => false,
        }
    }

    /// The bar at the bottom, or the way back where there is none.
    pub fn leave(&mut self, pad: &PadFrame, touches: &Vec<TouchPoint>) -> (r: ScreenAction)
        requires
            old(self).wf(),
        ensures
            final(self).wf(),
            feed_left(*old(self), *final(self), *pad, touches@, r),
    {
        if self.is_pushed {
            if pad.circle {
                return ScreenAction::Pop;
            }
            return ScreenAction::Stay;
        }
        follow_bar(&mut self.tab_bar, touches)
    }

    /// What a tap on the list asks for. Touches on the bar at the bottom do
    /// not count.
    pub fn tap(&self, touches: &Vec<TouchPoint>, scroll: i32) -> (r: Option<TapAction>)
        requires
            self.wf(),
            0 <= scroll <= MAX_CONTENT_H,
        ensures
            feed_tapped(*self, touches@, scroll as int, r),
    {
        let inside = touches_in_band(touches, i32::MIN, VIEWPORT_BOTTOM);
        match &self.state {
            TimelineState::Loaded { list, .. } => list.tap(
                &inside,
                VIEWPORT_TOP - scroll,
                VIEWPORT_TOP,
                VIEWPORT_BOTTOM,
                true,
            ),
            _ => None,
        }
    }

    /// Follows a tap: marks are toggled in place, anything else opens.
    pub fn follow_tap(&mut self, tap: Option<TapAction>, has_worker: bool) -> (r: (
        Option<WorkRequest>,
        ScreenAction,
    ))
        requires
            old(self).wf(),
            has_worker ==> tap_has_room(old(self).posts(), tap),
        ensures
            final(self).wf(),
            tap_followed(*old(self), *final(self), tap, has_worker, r.0, r.1),
    {
        match &mut self.state {
            TimelineState::Loaded { list, .. } => list.follow_tap(tap, has_worker),
            _ => (None, open_tap(tap)),
        }
    }

    /// The first part of a frame, before anything is measured or drawn.
    pub fn frame_start(&mut self, pad: &PadFrame, scroll: i32, has_worker: bool) -> (r: FeedStart)
        requires
            old(self).wf(),
            -1000 <= scroll <= MAX_CONTENT_H,
            old(self).buttons_fit(
                *pad,
                old(self).selected_next(*pad, scroll as int),
                has_worker,
            ),
        ensures
            final(self).wf(),
            frame_started(*old(self), *final(self), *pad, scroll as int, has_worker, r),
    {
        let mut requests = self.begin_frame(has_worker);
        let moved = self.move_selection(pad, scroll);
        let ghost m = *self;
        let out = self.pad_actions(pad, has_worker);
        let ghost pads = out;
        push_sent(&mut requests, out.like_request);
        push_sent(&mut requests, out.repost_request);
        let r = FeedStart { requests, moved, action: push_screen(out.push) };
        assert(start_steps(*old(self), m, *self, *pad, scroll as int, has_worker, pads, r));
        r
    }

    /// The requests of a frame once the scroll position is settled, given the
    /// pictures that are wanted and which of them are at hand.
    pub fn frame_requests(
        &mut self,
        scroll: i32,
        urls: Vec<String>,
        cached: &Vec<bool>,
        has_worker: bool,
    ) -> (r: Vec<WorkRequest>)
        requires
            old(self).wf(),
            0 <= scroll <= MAX_CONTENT_H,
            urls@.len() <= cached@.len(),
        ensures
            final(self).wf(),
            frame_asked(
                *old(self),
                *final(self),
                scroll as int,
                texts(urls@),
                cached@,
                has_worker,
                r@,
            ),
    {
        let mut r: Vec<WorkRequest> = Vec::new();
        if !has_worker {
            return r;
        }
        let ghost urls_v = texts(urls@);
        let page = self.paginate(scroll, true);
        push_sent(&mut r, page);
        let mut images = self.request_images(urls, cached);
        let ghost asked = images@;
        r.append(&mut images);
        assert(r@ =~= sent(page_request(*old(self), scroll as int, true)) + asked);
        assert(request_steps(*old(self), *self, scroll as int, urls_v, cached@, asked, r@));
        r
    }

    /// The last part of a frame: the pills, the bar at the bottom, then a tap
    /// on the list.
    pub fn frame_end(
        &mut self,
        widths: &Vec<i32>,
        pad: &PadFrame,
        touches: &Vec<TouchPoint>,
        scroll: i32,
        has_worker: bool,
    ) -> (r: FeedEnd)
        requires
            old(self).wf(),
            widths@.len() == old(self).saved_feeds@.len(),
            !old(self).is_pushed ==> pill_widths_ok(old(self).saved_feeds@, widths@),
            0 <= scroll <= MAX_CONTENT_H,
            has_worker ==> old(self).taps_fit(touches@, scroll as int),
        ensures
            final(self).wf(),
            frame_ended(
                *old(self),
                *final(self),
                feed_input(widths@, *pad, touches@, scroll as int, has_worker),
                r,
            ),
    {
        let ghost input = feed_input(widths@, *pad, touches@, scroll as int, has_worker);
        let mut pills: Vec<Pill> = Vec::new();
        let mut tapped: Option<usize> = None;
        if !self.is_pushed {
            let row = self.pill_row(widths, touches);
            pills = row.pills;
            tapped = row.tapped;
        }
        let ghost p = *self;
        let switched = self.follow_pill(tapped);
        let way = self.leave(pad, touches);
        let ghost l = *self;
        let ghost left = way;
        if !matches!(way, ScreenAction::Stay) {
            let r = FeedEnd { pills, switched, request: None, action: way };
            assert(end_steps(*old(self), p, tapped, l, left, None, *self, input, r));
            return r;
        }
        let tap = self.tap(touches, scroll);
        let ghost tap_v = tap;
        assert(self.state is Loaded ==> self.state == old(self).state);
        let (request, action) = self.follow_tap(tap, has_worker);
        let r = FeedEnd { pills, switched, request, action };
        assert(end_steps(*old(self), p, tapped, l, left, tap_v, *self, input, r));
        r
    }

    /// What the buttons do.
    pub open spec fn hints_told(s: Self, r: Vec<(String, String)>) -> bool {
        &&& r@.len() == (if s.is_pushed {
            5int
        } else {
            4
        })
        &&& r@[0].0@ == "SQUARE"@ && r@[0].1@ == "Compose"@
        &&& r@[1].0@ == "L1"@ && r@[1].1@ == "Like"@
        &&& r@[2].0@ == "TRIANGLE"@ && r@[2].1@ == "Repost"@
        &&& r@[3].0@ == "R1"@ && r@[3].1@ == "Reply"@
        &&& s.is_pushed ==> r@[4].0@ == "CIRCLE"@ && r@[4].1@ == "Back"@
    }

    /// The control hints of this screen.
    pub fn control_hints(&self) -> (r: Vec<(String, String)>)
        ensures
            Self::hints_told(*self, r),
    {
        let mut r: Vec<(String, String)> = Vec::new();
        r.push((owned("SQUARE"), owned("Compose")));
        r.push((owned("L1"), owned("Like")));
        r.push((owned("TRIANGLE"), owned("Repost")));
        r.push((owned("R1"), owned("Reply")));
        if self.is_pushed {
            r.push((owned("CIRCLE"), owned("Back")));
        }
        r
    }

    /// Takes an answer of the worker.
    pub fn handle_worker_response(&mut self, resp: WorkResponse)
        requires
            old(self).wf(),
        ensures
            final(self).wf(),
            feed_responded(*old(self), *final(self), resp),
    {
        match resp {
            WorkResponse::FeedPage { source, batch } => {
                if !source.same(&self.current_source) {
                    return;
                }
                self.fetching_more = false;
                match batch {
                    Ok(page) => {
                        match &mut self.state {
                            TimelineState::Loaded { list, next_cursor } => {
                                list.append(page.posts);
                                *next_cursor = page.cursor;
                            },
                            _ => {
                                self.state = TimelineState::Loaded {
                                    list: PostList::new(page.posts, 0),
                                    next_cursor: page.cursor,
                                };
                                assert(self.posts() =~= old(self).posts() + page.posts@);
                                assert(self.rows() =~= old(self).rows());
                            },
                        }
                    },
                    Err(e) => {
                        if matches!(self.state, TimelineState::Loading) {
                            self.state = TimelineState::Error(e);
                        }
                    },
                }
            },
            WorkResponse::SavedFeeds(Ok(batch)) => {
                let n: usize = batch.pins.len();
                let mut buttons: Vec<ButtonState> = Vec::new();
                let mut i: usize = 0;
                while i < n
                    invariant
                        i <= n,
                        buttons@ == Seq::new(
                            i as nat,
                            |k: int| ButtonState { pressed_last: false },
                        ),
                    decreases n - i,
                {
                    buttons.push(ButtonState::default());
                    assert(buttons@ =~= Seq::new(
                        (i + 1) as nat,
                        |k: int| ButtonState { pressed_last: false },
                    ));
                    i += 1;
                }
                self.pill_buttons = buttons;
                self.saved_feeds = batch.pins;
            },
            WorkResponse::Image { url, bytes: Ok(_) } => {
                self.inflight_avatars.remove(url.as_str());
            },
            WorkResponse::LikeChanged(Ok(Some(uri))) => match &mut self.state {
                TimelineState::Loaded { list, .. } => {
                    list.confirm_one(EngagementKind::Like, uri.as_str());
                },
                _ => {},
            },
            WorkResponse::RepostChanged(Ok(Some(uri))) => match &mut self.state {
                TimelineState::Loaded { list, .. } => {
                    list.confirm_one(EngagementKind::Repost, uri.as_str());
                },
                _ => {},
            },
            _ => {},
        }
    }
}

/// A page of a feed that is no longer shown changes nothing.
pub proof fn lemma_stale_page_dropped(a: TimelineScreen, b: TimelineScreen, resp: WorkResponse)
    requires
        feed_responded(a, b, resp),
        resp matches WorkResponse::FeedPage { source, .. } && source@ != a.current_source@,
    ensures
        b == a,
{
}

/// Pages only ever append: what was shown stays where it was.
pub proof fn lemma_pages_append(a: TimelineScreen, b: TimelineScreen, resp: WorkResponse, i: int)
    requires
        feed_responded(a, b, resp),
        resp is FeedPage,
        0 <= i < a.posts().len(),
    ensures
        b.posts().len() >= a.posts().len(),
        b.posts()[i] == a.posts()[i],
{
}

/// A later page that fails leaves the posts that are there.
pub proof fn lemma_later_failure_is_silent(
    a: TimelineScreen,
    b: TimelineScreen,
    resp: WorkResponse,
)
    requires
        feed_responded(a, b, resp),
        resp matches WorkResponse::FeedPage { batch: Err(_), .. },
        a.state is Loaded,
    ensures
        b.state == a.state,
{
}

/// Once a page was asked for, no other one is asked for before its answer.
pub proof fn lemma_one_page_at_a_time(a: TimelineScreen, b: TimelineScreen, scroll: int)
    requires
        b == (TimelineScreen { fetching_more: true, ..a }),
    ensures
        !b.page_due(scroll),
{
}

} // verus!
