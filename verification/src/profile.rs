//! The profile screen: an account's header, its sub-tabs, and what can be done
//! about the account.
//!
//! Without an actor it is the reader's own profile, a top-level destination
//! with a bar at the bottom and a way to log out. With one it is somebody
//! else's, who can be followed and written to.

use vstd::prelude::*;

use crate::cdn::{avatar_thumbnail_jpeg, ensure_jpeg};
#[allow(unused_imports)]
use crate::cdn::{jpeg_url, thumbnail_url};
#[allow(unused_imports)]
use crate::embeds::texts;
use crate::engagement::{pending_text, EngagementKind};
#[allow(unused_imports)]
use crate::engagement::{pending_uri, toggle_request_is, toggled_mark};
#[allow(unused_imports)]
use crate::images::fetched;
use crate::model::{clone_text, ConvoView, ProfileDetail, ProfileViewer};
use crate::post_list::{reply_target_for, PostList};
#[allow(unused_imports)]
use crate::post_list::{
    marks_have_room, posts_marked, reply_to, tap_has_room, tap_opens,
};
use crate::post_row::{TapAction, TextHeights};
#[allow(unused_imports)]
use crate::post_row::row_height;
use crate::profile_tabs::{available_tabs, cycle_tab, ProfileTab, ProfileTabs, ITEM_ROW_H};
#[allow(unused_imports)]
use crate::profile_tabs::{
    answer_fits, source_tab, stepped_items, tab_left, tab_request_is, tab_right, tabs_responded,
    tabs_shown,
};
use crate::profile_text::dm_error_message;
#[allow(unused_imports)]
use crate::profile_text::dm_problem;
use crate::requests::{ReplyTarget, WorkRequest, WorkResponse};
use crate::rows::{
    content_height, first_row_in_band, reveal_at, step_selection, top_of, PAGINATION_THRESHOLD,
};
#[allow(unused_imports)]
use crate::rows::{
    first_in_band, in_band, lemma_row_top_bounds, reveal_target, row_top, step_moves, stepped,
    total, MAX_CONTENT_H,
};
#[allow(unused_imports)]
use crate::screen::bar_followed;
use crate::screen::{follow_bar, NextScreen, ScreenAction};
use crate::tabbar::{TabBar, TopLevel};
use crate::text::{is_text, join2, join3, same_text, tail_after};
#[allow(unused_imports)]
use crate::text::{after_last, opt_view};
use crate::timeline::PadOutcome;
use crate::widget::{
    button, px_fits, touches_in_band, ButtonState, PadFrame, Rect, TouchPoint, SCREEN_HEIGHT,
    SCREEN_WIDTH,
};
#[allow(unused_imports)]
use crate::widget::{clicked, fits_px, touched, touches_between};

verus! {

/// Height of the banner.
pub const BANNER_H: i32 = 120;

/// Where the strip of sub-tabs lies before anything is scrolled. Scrolled
/// further, it stays at the top and the content runs below it.
pub const TAB_STRIP_Y: i32 = 374;

/// Height of the strip of sub-tabs.
pub const TAB_STRIP_H: i32 = 40;

/// Where the content starts before anything is scrolled.
pub const CONTENT_TOP: i32 = 414;

/// Where the content ends on the reader's own profile: above the bar.
pub const OWN_VIEWPORT_BOTTOM: i32 = 484;

/// How long a first tap on the log-out button waits for the second one, in
/// nanoseconds.
pub const LOGOUT_ARMED_NS: u64 = 3_000_000_000;

/// How far a profile has come.
pub enum ProfileState {
    Pending,
    Loaded(Box<ProfileDetail>),
    Error(String),
}

/// Following and writing to somebody.
pub struct Contact {
    pub follow_btn: ButtonState,
    pub message_btn: ButtonState,
    /// A conversation is being opened.
    pub messaging: bool,
    /// Why the last one could not be opened.
    pub dm_error: Option<String>,
    /// A conversation to be shown in the next frame.
    pub pending_open_convo: Option<ConvoView>,
}

/// Logging out takes two taps.
pub struct LogoutButton {
    pub btn: ButtonState,
    /// When the first tap was.
    pub armed_at: Option<u64>,
}

/// The banner, which a tap shows on the whole display.
pub struct BannerView {
    pub viewing: bool,
    pub open_btn: ButtonState,
    pub close_btn: ButtonState,
}

/// A profile on screen.
pub struct ProfileScreen {
    /// Whose profile: a handle or an identifier; absent for the reader's own.
    pub actor: Option<String>,
    pub state: ProfileState,
    pub dispatched: bool,
    pub inflight_avatar: Option<String>,
    pub inflight_banner: Option<String>,
    pub tab_bar: TabBar,
    pub contact: Contact,
    pub logout: LogoutButton,
    pub tab_pill_btns: Vec<ButtonState>,
    /// The identifier of the account, once it is known.
    pub resolved_did: Option<String>,
    pub tabs: ProfileTabs,
    pub banner: BannerView,
}

/// What stands in place of the rows of a sub-tab.
#[derive(Debug)]
pub struct TabNote {
    pub headline: String,
    pub detail: Option<String>,
}

/// One pill of the strip of sub-tabs.
#[derive(Copy, Clone, Debug, PartialEq, Eq, Structural)]
pub struct TabPill {
    pub tab: ProfileTab,
    pub rect: Rect,
    pub active: bool,
}

/// Where the content ends on the display.
pub open spec fn content_end(own: bool) -> int {
    if own {
        484
    } else {
        544
    }
}

/// Where the strip of sub-tabs lies on the display.
pub open spec fn strip_y(scroll: int) -> int {
    if scroll < TAB_STRIP_Y {
        TAB_STRIP_Y - scroll
    } else {
        0
    }
}

/// The part of the display in which content shows: below the strip.
pub open spec fn content_band(own: bool, scroll: int) -> (int, int) {
    (strip_y(scroll) + TAB_STRIP_H, content_end(own))
}

/// Where the first row of the content starts on the display.
pub open spec fn content_y(scroll: int) -> int {
    CONTENT_TOP - scroll
}

/// Where the pill of a sub-tab starts, given the widths of the labels.
pub open spec fn tab_pill_x(widths: Seq<i32>, i: int) -> int
    decreases i,
{
    if i <= 0 {
        8
    } else {
        tab_pill_x(widths, i - 1) + widths[i - 1] + 30
    }
}

/// The pill of the `i`-th sub-tab.
pub open spec fn tab_pill_rect(widths: Seq<i32>, i: int, scroll: int) -> Rect {
    Rect {
        x: tab_pill_x(widths, i) as i32,
        y: (strip_y(scroll) + 4) as i32,
        w: (widths[i] + 24) as i32,
        h: 32,
    }
}

/// The pill of the `i`-th sub-tab, and the place behind it, can be held.
pub open spec fn tab_pill_fits(widths: Seq<i32>, i: int) -> bool {
    fits_px(widths[i] + 24) && fits_px(tab_pill_x(widths, i + 1))
}

/// The places of all pills of the strip can be held.
pub open spec fn tab_widths_ok(widths: Seq<i32>) -> bool {
    forall|i: int| 0 <= i < widths.len() ==> #[trigger] tab_pill_fits(widths, i)
}

/// Whether the places of all pills of the strip can be held.
pub fn tab_labels_fit(widths: &Vec<i32>) -> (r: bool)
    ensures
        r == tab_widths_ok(widths@),
{
    let mut x: i64 = 8;
    let mut i: usize = 0;
    while i < widths.len()
        invariant
            i <= widths@.len(),
            fits_px(x as int),
            x == tab_pill_x(widths@, i as int),
            forall|k: int| 0 <= k < i ==> #[trigger] tab_pill_fits(widths@, k),
        decreases widths@.len() - i,
    {
        let w: i64 = widths[i] as i64 + 24;
        let next: i64 = x + w + 6;
        let fits = px_fits(w) && px_fits(next);
        assert(fits == tab_pill_fits(widths@, i as int));
        if !fits {
            return false;
        }
        x = next;
        i += 1;
    }
    true
}

/// The address that somebody is followed under.
pub open spec fn following_of(p: ProfileDetail) -> Option<Seq<char>> {
    match p.viewer {
        Some(v) => opt_view(v.following),
        None => None,
    }
}

/// The request that following or unfollowing leads to. None while a follow is
/// still being made.
pub open spec fn follow_request_is(r: Option<WorkRequest>, p: ProfileDetail) -> bool {
    match following_of(p) {
        None => r matches Some(WorkRequest::CreateFollow { actor_did }) && actor_did == p.did,
        Some(uri) => if uri == pending_uri() {
            r is None
        } else {
            r matches Some(WorkRequest::DeleteFollow { rkey }) && rkey@ == after_last(uri, '/')
        },
    }
}

/// What following or unfollowing makes of a profile.
pub open spec fn follow_toggled(a: ProfileState, b: ProfileState) -> bool {
    match a {
        ProfileState::Loaded(p) => match b {
            ProfileState::Loaded(q) => {
                &&& following_of(*q) == toggled_mark(following_of(*p))
                &&& *q == (ProfileDetail { viewer: q.viewer, ..*p })
            },
            _ => false,
        },
        _ => b == a,
    }
}

/// A follow that was under way got its address.
pub open spec fn follow_confirmed(a: ProfileState, b: ProfileState, uri: String) -> bool {
    match a {
        ProfileState::Loaded(p) => if following_of(*p) == Some(pending_uri()) {
            match b {
                ProfileState::Loaded(q) => {
                    &&& following_of(*q) == Some(uri@)
                    &&& *q == (ProfileDetail { viewer: q.viewer, ..*p })
                },
                _ => false,
            }
        } else {
            b == a
        },
        _ => b == a,
    }
}

/// The address of the header picture.
pub open spec fn avatar_of(s: ProfileState) -> Option<Seq<char>> {
    match s {
        ProfileState::Loaded(p) => match p.avatar {
            Some(a) => Some(thumbnail_url(a@)),
            None => None,
        },
        _ => None,
    }
}

/// The address of the banner.
pub open spec fn banner_of(s: ProfileState) -> Option<Seq<char>> {
    match s {
        ProfileState::Loaded(p) => match p.banner {
            Some(b) => Some(jpeg_url(b@)),
            None => None,
        },
        _ => None,
    }
}

/// A picture is asked for: it is wanted, not at hand, and not under way.
pub open spec fn picture_due(url: Option<Seq<char>>, cached: bool, inflight: Option<String>) -> bool {
    url is Some && !cached && opt_view(inflight) != url
}

/// The first tap on the log-out button still counts.
pub open spec fn armed(l: LogoutButton, now: u64) -> bool {
    match l.armed_at {
        Some(t) => now < t + LOGOUT_ARMED_NS,
        None => false,
    }
}

/// The word for what a sub-tab holds.
pub open spec fn tab_thing(t: ProfileTab) -> Seq<char> {
    match t {
        ProfileTab::Feeds => "feeds"@,
        ProfileTab::Lists => "lists"@,
        ProfileTab::Packs => "starter packs"@,
        _ => "posts"@,
    }
}

/// The number of things on a sub-tab.
pub open spec fn tab_len(t: ProfileTabs) -> int {
    match t.active {
        ProfileTab::Posts => t.posts.list.posts@.len() as int,
        ProfileTab::Replies => t.replies.list.posts@.len() as int,
        ProfileTab::Media => t.media.list.posts@.len() as int,
        ProfileTab::Likes => t.likes.list.posts@.len() as int,
        ProfileTab::Feeds => t.feeds.items@.len() as int,
        ProfileTab::Lists => t.lists.items@.len() as int,
        ProfileTab::Packs => t.packs.items@.len() as int,
    }
}

/// The error of the active sub-tab.
pub open spec fn tab_problem(t: ProfileTabs) -> Option<String> {
    match t.active {
        ProfileTab::Posts => t.posts.error,
        ProfileTab::Replies => t.replies.error,
        ProfileTab::Media => t.media.error,
        ProfileTab::Likes => t.likes.error,
        ProfileTab::Feeds => t.feeds.error,
        ProfileTab::Lists => t.lists.error,
        ProfileTab::Packs => t.packs.error,
    }
}

/// What stands in place of the rows of the active sub-tab.
pub open spec fn note_is(t: ProfileTabs, r: Option<TabNote>) -> bool {
    let thing = tab_thing(t.active);
    match tab_problem(t) {
        Some(e) => r matches Some(n) && n.headline@ == "Could not load "@ + thing && n.detail
            == Some(e),
        None => if tab_len(t) > 0 {
            r is None
        } else if t.is_fetching(t.active) {
            r matches Some(n) && n.headline@ == "Loading "@ + thing + "…"@ && n.detail is None
        } else {
            r matches Some(n) && n.headline@ == "No "@ + thing + " yet."@ && n.detail is None
        },
    }
}

/// Whether somebody is followed, as the follow button shows it.
pub open spec fn followed(s: ProfileState) -> bool {
    match s {
        ProfileState::Loaded(p) => following_of(*p) is Some,
        _ => false,
    }
}

/// Why a conversation could not be opened, as it is shown on somebody else's
/// profile.
pub open spec fn toast_of(s: ProfileScreen) -> Option<Seq<char>> {
    match s.contact.dm_error {
        Some(e) => if s.own() {
            None
        } else {
            Some(dm_problem(e@))
        },
        None => None,
    }
}

/// The screen once the left and right buttons went from sub-tab to sub-tab.
pub open spec fn cycled(s: ProfileScreen, pad: PadFrame) -> ProfileScreen {
    ProfileScreen {
        tabs: ProfileTabs {
            active: if s.state is Loaded {
                let a = if pad.left {
                    tab_left(s.tabs.active, s.own())
                } else {
                    s.tabs.active
                };
                if pad.right {
                    tab_right(a, s.own())
                } else {
                    a
                }
            } else {
                s.tabs.active
            },
            ..s.tabs
        },
        ..s
    }
}

/// The height of the active sub-tab's rows.
pub open spec fn tab_height(t: ProfileTabs) -> int {
    match t.active_list() {
        Some(l) => total(l.row_heights@),
        None => ITEM_ROW_H * tab_len(t),
    }
}

/// The picture of the `i`-th thing on a sub-tab without posts.
pub open spec fn item_picture(t: ProfileTabs, i: int) -> Option<String> {
    match t.active {
        ProfileTab::Feeds => t.feeds.items@[i].avatar,
        ProfileTab::Lists => t.lists.items@[i].avatar,
        ProfileTab::Packs => t.packs.items@[i].creator_avatar,
        _ => None,
    }
}

/// The pictures that the first `n` things need, as far as they show.
pub open spec fn item_urls(t: ProfileTabs, origin: int, band: (int, int), n: int) -> Seq<Seq<char>>
    decreases n,
{
    if n <= 0 {
        Seq::empty()
    } else {
        let before = item_urls(t, origin, band, n - 1);
        if in_band(origin + ITEM_ROW_H * (n - 1), ITEM_ROW_H as int, band.0, band.1) {
            match item_picture(t, n - 1) {
                Some(a) => before.push(thumbnail_url(a@)),
                None => before,
            }
        } else {
            before
        }
    }
}

/// Those of the first `n` addresses that are not at hand.
pub open spec fn not_at_hand(urls: Seq<Seq<char>>, cached: Seq<bool>, n: int) -> Seq<Seq<char>>
    decreases n,
{
    if n <= 0 {
        Seq::empty()
    } else if cached[n - 1] {
        not_at_hand(urls, cached, n - 1)
    } else {
        not_at_hand(urls, cached, n - 1).push(urls[n - 1])
    }
}

/// The row of a thing without posts, on the display.
pub open spec fn item_rect(origin: int, i: int) -> Rect {
    Rect { x: 0, y: (origin + ITEM_ROW_H * i) as i32, w: 960, h: 80 }
}

/// The first of `n` things from `from` on that shows and is touched.
pub open spec fn item_tapped(
    n: int,
    origin: int,
    band: (int, int),
    touches: Seq<TouchPoint>,
    from: int,
) -> Option<int>
    decreases n - from,
{
    if from >= n {
        None
    } else if in_band(origin + ITEM_ROW_H * from, ITEM_ROW_H as int, band.0, band.1) && touched(
        touches,
        item_rect(origin, from),
    ) {
        Some(from)
    } else {
        item_tapped(n, origin, band, touches, from + 1)
    }
}

/// Asks for the pictures that are not at hand.
pub fn request_each(urls: &Vec<String>, cached: &Vec<bool>) -> (r: Vec<WorkRequest>)
    requires
        urls@.len() <= cached@.len(),
    ensures
        items_asked(texts(urls@), cached@, r@),
{
    let mut r: Vec<WorkRequest> = Vec::new();
    assert(fetched(r@) =~= Seq::<Seq<char>>::empty());
    let mut i: usize = 0;
    while i < urls.len()
        invariant
            i <= urls@.len() <= cached@.len(),
            fetched(r@) == not_at_hand(texts(urls@), cached@, i as int),
            forall|k: int| 0 <= k < r@.len() ==> #[trigger] r@[k] is FetchImage,
        decreases urls@.len() - i,
    {
        let ghost before = r@;
        if !cached[i] {
            r.push(WorkRequest::FetchImage { url: urls[i].clone() });
            assert(fetched(r@) =~= fetched(before).push(urls@[i as int]@));
        }
        i += 1;
    }
    r
}

// ── What one frame does, step by step ──────────────────────────────────

/// The conversation that became ready, if one did, is opened.
pub open spec fn convo_opened(s: ProfileScreen) -> ScreenAction {
    match s.contact.pending_open_convo {
        Some(convo) => ScreenAction::Push(NextScreen::Conversation { convo }),
        None => ScreenAction::Stay,
    }
}

/// The screen once that conversation was handed on.
pub open spec fn convo_taken(s: ProfileScreen) -> ProfileScreen {
    ProfileScreen { contact: Contact { pending_open_convo: None, ..s.contact }, ..s }
}

/// The request for the profile, as long as it was not sent.
pub open spec fn profile_request(s: ProfileScreen, has_worker: bool) -> Option<WorkRequest> {
    if has_worker && !s.dispatched {
        Some(WorkRequest::FetchProfile { actor: s.actor })
    } else {
        None
    }
}

/// The screen once that request is sent.
pub open spec fn begun(s: ProfileScreen, has_worker: bool) -> ProfileScreen {
    ProfileScreen { dispatched: s.dispatched || has_worker, ..s }
}

/// The header picture and the banner were asked for, as far as they are not at
/// hand and not under way.
pub open spec fn pictures_asked(
    a: ProfileScreen,
    b: ProfileScreen,
    avatar_cached: bool,
    banner_cached: bool,
    has_worker: bool,
    reqs: Seq<WorkRequest>,
) -> bool {
    let avatar = has_worker && picture_due(avatar_of(a.state), avatar_cached, a.inflight_avatar);
    let banner = has_worker && picture_due(banner_of(a.state), banner_cached, a.inflight_banner);
    &&& fetched(reqs) == (if avatar {
        seq![avatar_of(a.state)->0]
    } else {
        Seq::empty()
    }) + (if banner {
        seq![banner_of(a.state)->0]
    } else {
        Seq::empty()
    })
    &&& forall|i: int| 0 <= i < reqs.len() ==> #[trigger] reqs[i] is FetchImage
    &&& avatar ==> opt_view(b.inflight_avatar) == avatar_of(a.state)
    &&& !avatar ==> b.inflight_avatar == a.inflight_avatar
    &&& banner ==> opt_view(b.inflight_banner) == banner_of(a.state)
    &&& !banner ==> b.inflight_banner == a.inflight_banner
    &&& b == (ProfileScreen {
        inflight_avatar: b.inflight_avatar,
        inflight_banner: b.inflight_banner,
        ..a
    })
}

/// The screen after a frame of the banner on the whole display: a tap anywhere,
/// or the circle, closes it.
pub open spec fn overlay_followed(
    s: ProfileScreen,
    pad: PadFrame,
    touches: Seq<TouchPoint>,
) -> ProfileScreen {
    let closes = pad.circle || (s.banner.close_btn.pressed_last && touches.len() == 0);
    ProfileScreen {
        banner: BannerView {
            viewing: s.banner.viewing && !closes,
            close_btn: ButtonState { pressed_last: touches.len() > 0 && !closes },
            ..s.banner
        },
        ..s
    }
}

/// The banner is at hand and touched.
pub open spec fn on_banner(
    s: ProfileScreen,
    touches: Seq<TouchPoint>,
    scroll: int,
    banner_cached: bool,
) -> bool {
    banner_of(s.state) is Some && banner_cached && touched(
        touches,
        Rect { x: 0, y: 0, w: 960, h: (BANNER_H - scroll) as i32 },
    )
}

/// A tap on the banner shows it on the whole display.
pub open spec fn banner_opens(
    s: ProfileScreen,
    touches: Seq<TouchPoint>,
    scroll: int,
    banner_cached: bool,
) -> bool {
    s.state is Loaded && clicked(
        true,
        s.banner.open_btn.pressed_last,
        on_banner(s, touches, scroll, banner_cached),
        touches.len() > 0,
    )
}

/// The screen once a tap on the banner was looked for. Before the profile is
/// there no touch counts.
pub open spec fn banner_followed(
    s: ProfileScreen,
    touches: Seq<TouchPoint>,
    scroll: int,
    banner_cached: bool,
) -> ProfileScreen {
    if s.state is Loaded {
        ProfileScreen {
            banner: BannerView {
                viewing: s.banner.viewing || banner_opens(s, touches, scroll, banner_cached),
                open_btn: ButtonState {
                    pressed_last: on_banner(s, touches, scroll, banner_cached),
                },
                ..s.banner
            },
            ..s
        }
    } else {
        s
    }
}

/// The up and down buttons were followed on the active sub-tab; `changed` tells
/// whether the selected post is to be brought into view.
pub open spec fn selection_moved(
    a: ProfileScreen,
    b: ProfileScreen,
    pad: PadFrame,
    scroll: int,
    changed: bool,
) -> bool {
    &&& b == (ProfileScreen { tabs: b.tabs, ..a })
    &&& match a.tabs.active_list() {
        Some(l) => {
            &&& b.tabs == a.tabs.with_list(
                if a.state is Loaded {
                    a.list_stepped(l, pad, scroll)
                } else {
                    l
                },
            )
            &&& changed == (a.state is Loaded && l.posts@.len() > 0 && (pad.up || pad.down) && (
            !a.selected_shows(l, scroll) || step_moves(
                a.snapped(l, scroll),
                pad.up,
                pad.down,
                l.posts@.len() as int,
            )))
        },
        None => {
            &&& !changed
            &&& b.tabs == (if a.state is Loaded {
                match a.tabs.active {
                    ProfileTab::Feeds => ProfileTabs {
                        feeds: stepped_items(a.tabs.feeds, pad.up, pad.down),
                        ..a.tabs
                    },
                    ProfileTab::Lists => ProfileTabs {
                        lists: stepped_items(a.tabs.lists, pad.up, pad.down),
                        ..a.tabs
                    },
                    _ => ProfileTabs {
                        packs: stepped_items(a.tabs.packs, pad.up, pad.down),
                        ..a.tabs
                    },
                }
            } else {
                a.tabs
            })
        },
    }
}

/// Where the view goes so that the selected post can be read.
pub open spec fn reveals(s: ProfileScreen, scroll: int, target: Option<i32>) -> bool {
    let wanted = match s.tabs.active_list() {
        Some(l) => if l.selected_idx < l.row_heights@.len() {
            reveal_target(
                TAB_STRIP_Y + row_top(l.row_heights@, l.selected_idx as int),
                l.row_heights@[l.selected_idx as int] as int,
                scroll,
                content_end(s.own()) - TAB_STRIP_H,
                true,
            )
        } else {
            None
        },
        None => None,
    };
    match target {
        Some(t) => wanted == Some(t as int),
        None => wanted is None,
    }
}

/// The buttons for the selected post were followed: like, repost, and reply.
pub open spec fn buttons_followed(
    a: ProfileScreen,
    b: ProfileScreen,
    pad: PadFrame,
    has_worker: bool,
    out: PadOutcome,
) -> bool {
    &&& b == (ProfileScreen { tabs: b.tabs, ..a })
    &&& match (a.state, a.tabs.active_list()) {
        (ProfileState::Loaded(_), Some(l)) => {
            let m = b.tabs.active_list()->0;
            let sel = l.selected_idx as int;
            let like = pad.l1 && has_worker;
            let repost = pad.triangle && has_worker;
            &&& b.tabs == a.tabs.with_list(m)
            &&& m == (PostList { posts: m.posts, ..l })
            &&& posts_marked(l.posts@, m.posts@, sel, like, repost)
            &&& if like && sel < l.posts@.len() {
                toggle_request_is(out.like_request, l.posts@[sel].post, EngagementKind::Like)
            } else {
                out.like_request is None
            }
            &&& if repost && sel < l.posts@.len() {
                toggle_request_is(out.repost_request, l.posts@[sel].post, EngagementKind::Repost)
            } else {
                out.repost_request is None
            }
            &&& out.push == (if pad.r1 && sel < l.posts@.len() {
                Some(
                    NextScreen::Compose {
                        reply: Some(reply_to(l.posts@[sel])),
                        handle: Some(l.posts@[sel].post.author.handle),
                    },
                )
            } else {
                None
            })
        },
        _ => {
            &&& b == a
            &&& out.like_request is None
            &&& out.repost_request is None
            &&& out.push is None
        },
    }
}

/// The log-out button was clicked.
pub open spec fn logout_hit(s: ProfileScreen, touches: Seq<TouchPoint>, scroll: int) -> bool {
    clicked(
        true,
        s.logout.btn.pressed_last,
        touched(touches, ProfileScreen::logout_rect(scroll)),
        touches.len() > 0,
    )
}

/// The click that logs out: the second one.
pub open spec fn logout_confirmed(
    s: ProfileScreen,
    touches: Seq<TouchPoint>,
    scroll: int,
    now: u64,
) -> bool {
    logout_hit(s, touches, scroll) && armed(s.logout, now)
}

/// The screen after a frame of the log-out button.
pub open spec fn logout_followed(
    s: ProfileScreen,
    touches: Seq<TouchPoint>,
    scroll: int,
    now: u64,
) -> ProfileScreen {
    ProfileScreen {
        logout: LogoutButton {
            btn: ButtonState {
                pressed_last: touched(touches, ProfileScreen::logout_rect(scroll)),
            },
            armed_at: if logout_hit(s, touches, scroll) && !armed(s.logout, now) {
                Some(now)
            } else {
                s.logout.armed_at
            },
        },
        ..s
    }
}

/// One frame of the message button: the request for the conversation. A press
/// while one is being opened does nothing.
pub open spec fn message_followed(
    a: ProfileScreen,
    b: ProfileScreen,
    touches: Seq<TouchPoint>,
    scroll: int,
    has_worker: bool,
    request: Option<WorkRequest>,
) -> bool {
    let on_button = touched(touches, ProfileScreen::message_rect(scroll));
    let hit = has_worker && clicked(
        !a.contact.messaging,
        a.contact.message_btn.pressed_last,
        on_button,
        touches.len() > 0,
    );
    let pressed = Contact { message_btn: ButtonState { pressed_last: on_button }, ..a.contact };
    match a.state {
        ProfileState::Loaded(p) => {
            &&& request is Some == hit
            &&& hit ==> (request matches Some(WorkRequest::GetConvoForMembers { members })
                && members@ == seq![p.did])
            &&& b == (ProfileScreen {
                contact: if hit {
                    Contact { messaging: true, dm_error: None, ..pressed }
                } else {
                    pressed
                },
                ..a
            })
        },
        _ => request is None && b == a,
    }
}

/// One frame of the follow button.
pub open spec fn follow_followed(
    a: ProfileScreen,
    b: ProfileScreen,
    touches: Seq<TouchPoint>,
    scroll: int,
    has_worker: bool,
    request: Option<WorkRequest>,
) -> bool {
    let on_button = touched(touches, ProfileScreen::follow_rect(scroll));
    let hit = has_worker && clicked(
        true,
        a.contact.follow_btn.pressed_last,
        on_button,
        touches.len() > 0,
    );
    match a.state {
        ProfileState::Loaded(p) => {
            &&& b == (ProfileScreen {
                state: b.state,
                contact: Contact {
                    follow_btn: ButtonState { pressed_last: on_button },
                    ..a.contact
                },
                ..a
            })
            &&& if hit {
                follow_toggled(a.state, b.state) && follow_request_is(request, *p)
            } else {
                request is None && b.state == a.state
            }
        },
        _ => request is None && b == a,
    }
}

/// The first page of the active sub-tab was asked for, unless it had been, or
/// the account is not known.
pub open spec fn tab_asked(
    a: ProfileScreen,
    b: ProfileScreen,
    has_worker: bool,
    request: Option<WorkRequest>,
) -> bool {
    let t = a.tabs;
    let due = has_worker && a.resolved_did is Some && !t.was_asked(t.active);
    &&& request is Some == due
    &&& request matches Some(q) ==> tab_request_is(q, t.active, a.resolved_did->0@, None)
    &&& b == (ProfileScreen {
        tabs: if due {
            t.with_flags(t.active, true, true)
        } else {
            t
        },
        ..a
    })
}

/// The next page of the active sub-tab was asked for, when it was due.
pub open spec fn page_asked(
    a: ProfileScreen,
    b: ProfileScreen,
    scroll: int,
    has_worker: bool,
    request: Option<WorkRequest>,
) -> bool {
    let t = a.tabs;
    let due = has_worker && a.resolved_did is Some && a.page_due(scroll);
    &&& request is Some == due
    &&& request matches Some(q) ==> tab_request_is(
        q,
        t.active,
        a.resolved_did->0@,
        t.cursor_of(t.active),
    )
    &&& b == (ProfileScreen {
        tabs: if due {
            t.with_flags(t.active, t.was_asked(t.active), true)
        } else {
            t
        },
        ..a
    })
}

/// The pictures that are not at hand were asked for.
pub open spec fn items_asked(
    urls: Seq<Seq<char>>,
    cached: Seq<bool>,
    reqs: Seq<WorkRequest>,
) -> bool {
    &&& fetched(reqs) == not_at_hand(urls, cached, urls.len() as int)
    &&& forall|i: int| 0 <= i < reqs.len() ==> #[trigger] reqs[i] is FetchImage
}

/// What a tap on the posts of the active sub-tab asks for. Touches on the strip
/// of sub-tabs and on the bar at the bottom do not count.
pub open spec fn post_tapped(
    s: ProfileScreen,
    touches: Seq<TouchPoint>,
    scroll: int,
    tap: Option<TapAction>,
) -> bool {
    let band = content_band(s.own(), scroll);
    match s.tabs.active_list() {
        Some(l) => l.tap_result(
            tap,
            touches_between(touches, band.0, band.1),
            content_y(scroll),
            band,
            true,
        ),
        None => tap is None,
    }
}

/// A tap on a post was followed: marks are toggled in place, anything else
/// opens.
pub open spec fn tap_followed(
    a: ProfileScreen,
    b: ProfileScreen,
    tap: Option<TapAction>,
    has_worker: bool,
    request: Option<WorkRequest>,
    action: ScreenAction,
) -> bool {
    &&& b == (ProfileScreen { tabs: b.tabs, ..a })
    &&& match a.tabs.active_list() {
        Some(l) => {
            let m = b.tabs.active_list()->0;
            &&& b.tabs == a.tabs.with_list(m)
            &&& PostList::tap_followed(l, m, tap, has_worker, request)
            &&& action == tap_opens(tap)
        },
        None => request is None && action is Stay && b.tabs == a.tabs,
    }
}

/// A tap on a custom feed opens it. The lists and packs cannot be opened.
pub open spec fn feed_opened(
    s: ProfileScreen,
    touches: Seq<TouchPoint>,
    scroll: int,
) -> ScreenAction {
    let band = content_band(s.own(), scroll);
    let hit = item_tapped(
        s.tabs.feeds.items@.len() as int,
        content_y(scroll),
        band,
        touches_between(touches, band.0, band.1),
        0,
    );
    if s.tabs.active == ProfileTab::Feeds && hit is Some {
        ScreenAction::Push(NextScreen::Feed { uri: s.tabs.feeds.items@[hit->0].uri })
    } else {
        ScreenAction::Stay
    }
}

/// One frame of the strip of sub-tabs. A tapped one becomes active.
pub open spec fn strip_tracked(
    a: ProfileScreen,
    b: ProfileScreen,
    widths: Seq<i32>,
    touches: Seq<TouchPoint>,
    scroll: int,
    pills: Seq<TabPill>,
) -> bool {
    let n = widths.len();
    &&& pills == Seq::new(
        n,
        |i: int|
            TabPill {
                tab: tabs_shown(a.own())[i],
                rect: tab_pill_rect(widths, i, scroll),
                active: tabs_shown(a.own())[i] == a.tabs.active,
            },
    )
    &&& b.tab_pill_btns@.len() == 7
    &&& forall|i: int|
        0 <= i < n ==> #[trigger] b.tab_pill_btns@[i] == (ButtonState {
            pressed_last: touched(touches, tab_pill_rect(widths, i, scroll)),
        })
    &&& forall|i: int| n <= i < 7 ==> #[trigger] b.tab_pill_btns@[i] == a.tab_pill_btns@[i]
    &&& b == (ProfileScreen {
        tab_pill_btns: b.tab_pill_btns,
        tabs: ProfileTabs { active: a.tab_chosen(widths, touches, scroll, n as int), ..a.tabs },
        ..a
    })
}

/// The bar at the bottom of the reader's own profile was followed, or the way
/// back from somebody else's.
pub open spec fn profile_left(
    a: ProfileScreen,
    b: ProfileScreen,
    pad: PadFrame,
    touches: Seq<TouchPoint>,
    action: ScreenAction,
) -> bool {
    if a.own() {
        &&& b == (ProfileScreen { tab_bar: b.tab_bar, ..a })
        &&& bar_followed(a.tab_bar, b.tab_bar, touches, action)
    } else {
        &&& b == a
        &&& action == (if pad.circle {
            ScreenAction::Pop
        } else {
            ScreenAction::Stay
        })
    }
}

/// What an answer makes of a profile.
pub open spec fn profile_responded(a: ProfileScreen, b: ProfileScreen, resp: WorkResponse) -> bool {
    match resp {
        WorkResponse::Profile(Ok(p)) => b == (ProfileScreen {
            resolved_did: Some(p.did),
            state: ProfileState::Loaded(p),
            ..a
        }),
        WorkResponse::Profile(Err(e)) => b == (ProfileScreen {
            state: ProfileState::Error(e),
            ..a
        }),
        WorkResponse::Image { url, .. } => b == (ProfileScreen {
            inflight_avatar: if opt_view(a.inflight_avatar) == Some(url@) {
                None
            } else {
                a.inflight_avatar
            },
            inflight_banner: if opt_view(a.inflight_banner) == Some(url@) {
                None
            } else {
                a.inflight_banner
            },
            ..a
        }),
        WorkResponse::FollowChanged(Ok(Some(uri))) => {
            &&& follow_confirmed(a.state, b.state, uri)
            &&& b == (ProfileScreen { state: b.state, ..a })
        },
        WorkResponse::ConvoForMembers(Ok(convo)) => b == (ProfileScreen {
            contact: Contact {
                messaging: false,
                dm_error: None,
                pending_open_convo: Some(convo),
                ..a.contact
            },
            ..a
        }),
        WorkResponse::ConvoForMembers(Err(e)) => b == (ProfileScreen {
            contact: Contact { messaging: false, dm_error: Some(e), ..a.contact },
            ..a
        }),
        _ => {
            &&& tabs_responded(a.tabs, b.tabs, resp, opt_view(a.resolved_did))
            &&& b == (ProfileScreen { tabs: b.tabs, ..a })
        },
    }
}

impl Contact {
    /// Takes the conversation that was asked for.
    pub fn take_answer(&mut self, result: Result<ConvoView, String>)
        ensures
            *final(self) == (match result {
                Ok(convo) => Contact {
                    messaging: false,
                    dm_error: None,
                    pending_open_convo: Some(convo),
                    ..*old(self)
                },
                Err(e) => Contact { messaging: false, dm_error: Some(e), ..*old(self) },
            }),
    {
        self.messaging = false;
        match result {
            Ok(convo) => {
                self.dm_error = None;
                self.pending_open_convo = Some(convo);
            },
            Err(e) => {
                self.dm_error = Some(e);
            },
        }
    }
}

impl ProfileScreen {
    /// The sub-tabs are well formed, each with its pill.
    pub open spec fn wf(&self) -> bool {
        &&& self.tabs.wf()
        &&& self.tab_pill_btns@.len() == 7
    }

    /// It is the reader's own profile.
    pub open spec fn own(&self) -> bool {
        self.actor is None
    }

    /// A profile that was just opened, before anything of it came.
    pub open spec fn opened(actor: Option<String>, r: ProfileScreen) -> bool {
        &&& r.actor == actor
        &&& r.state is Pending
        &&& !r.dispatched
        &&& r.inflight_avatar is None
        &&& r.inflight_banner is None
        &&& r.resolved_did is None
        &&& r.tabs.fresh()
        &&& forall|t: ProfileTab| !#[trigger] r.tabs.was_asked(t) && !r.tabs.is_fetching(t)
        &&& !r.contact.messaging
        &&& r.contact.dm_error is None
        &&& r.contact.pending_open_convo is None
        &&& r.logout.armed_at is None
        &&& !r.banner.viewing
        &&& !r.banner.open_btn.pressed_last
        &&& !r.banner.close_btn.pressed_last
        &&& !r.contact.follow_btn.pressed_last
        &&& !r.contact.message_btn.pressed_last
        &&& !r.logout.btn.pressed_last
        &&& r.tab_bar.fresh(TopLevel::Profile)
        &&& forall|i: int| 0 <= i < 7 ==> !(#[trigger] r.tab_pill_btns@[i]).pressed_last
    }

    /// A profile that has not been loaded; the reader's own where `actor` is
    /// absent.
    pub fn new(actor: Option<String>) -> (r: ProfileScreen)
        ensures
            r.wf(),
            Self::opened(actor, r),
    {
        let mut pills: Vec<ButtonState> = Vec::new();
        let mut i: usize = 0;
        while i < 7
            invariant
                i <= 7,
                pills@.len() == i,
                forall|k: int| 0 <= k < i ==> !(#[trigger] pills@[k]).pressed_last,
            decreases 7 - i,
        {
            pills.push(ButtonState::default());
            i += 1;
        }
        ProfileScreen {
            actor,
            state: ProfileState::Pending,
            dispatched: false,
            inflight_avatar: None,
            inflight_banner: None,
            tab_bar: TabBar::new(TopLevel::Profile),
            contact: Contact {
                follow_btn: ButtonState::default(),
                message_btn: ButtonState::default(),
                messaging: false,
                dm_error: None,
                pending_open_convo: None,
            },
            logout: LogoutButton { btn: ButtonState::default(), armed_at: None },
            tab_pill_btns: pills,
            resolved_did: None,
            tabs: ProfileTabs::new(),
            banner: BannerView {
                viewing: false,
                open_btn: ButtonState::default(),
                close_btn: ButtonState::default(),
            },
        }
    }

    /// Whether it is the reader's own profile.
    pub fn is_own(&self) -> (r: bool)
        ensures
            r == self.own(),
    {
        self.actor.is_none()
    }

    /// Where the content ends on the display.
    pub fn viewport_bottom(&self) -> (r: i32)
        ensures
            r == content_end(self.own()),
    {
        if self.is_own() {
            OWN_VIEWPORT_BOTTOM
        } else {
            SCREEN_HEIGHT
        }
    }

    /// Where the strip of sub-tabs ends on the display.
    pub fn pill_bottom_y(scroll: i32) -> (r: i32)
        requires
            -1000 <= scroll,
        ensures
            r == strip_y(scroll as int) + TAB_STRIP_H,
    {
        if scroll < TAB_STRIP_Y {
            TAB_STRIP_Y - scroll + TAB_STRIP_H
        } else {
            TAB_STRIP_H
        }
    }

    /// A conversation that became ready is opened, once.
    pub fn take_convo(&mut self) -> (r: ScreenAction)
        requires
            old(self).wf(),
        ensures
            final(self).wf(),
            r == convo_opened(*old(self)),
            *final(self) == convo_taken(*old(self)),
    {
        match self.contact.pending_open_convo.take() {
            Some(convo) => ScreenAction::Push(NextScreen::Conversation { convo }),
            None => ScreenAction::Stay,
        }
    }

    /// Asks for the profile, once.
    pub fn begin_frame(&mut self, has_worker: bool) -> (r: Option<WorkRequest>)
        requires
            old(self).wf(),
        ensures
            final(self).wf(),
            r == profile_request(*old(self), has_worker),
            *final(self) == begun(*old(self), has_worker),
    {
        if self.dispatched || !has_worker {
            return None;
        }
        self.dispatched = true;
        Some(WorkRequest::FetchProfile { actor: clone_text(&self.actor) })
    }

    /// The address of the header picture.
    pub fn avatar_url(&self) -> (r: Option<String>)
        ensures
            opt_view(r) == avatar_of(self.state),
    {
        match &self.state {
            ProfileState::Loaded(p) => match &p.avatar {
                Some(a) => Some(avatar_thumbnail_jpeg(a.as_str())),
                None => None,
            },
            _ => None,
        }
    }

    /// The address of the banner.
    pub fn banner_url(&self) -> (r: Option<String>)
        ensures
            opt_view(r) == banner_of(self.state),
    {
        match &self.state {
            ProfileState::Loaded(p) => match &p.banner {
                Some(b) => Some(ensure_jpeg(b.as_str())),
                None => None,
            },
            _ => None,
        }
    }

    /// Asks for the header picture and the banner, as far as they are not at
    /// hand and not under way.
    pub fn request_pictures(
        &mut self,
        avatar_cached: bool,
        banner_cached: bool,
        has_worker: bool,
    ) -> (r: Vec<WorkRequest>)
        requires
            old(self).wf(),
        ensures
            final(self).wf(),
            pictures_asked(
                *old(self),
                *final(self),
                avatar_cached,
                banner_cached,
                has_worker,
                r@,
            ),
    {
        let mut r: Vec<WorkRequest> = Vec::new();
        assert(fetched(r@) =~= Seq::<Seq<char>>::empty());
        match self.avatar_url() {
            Some(url) => {
                if !avatar_cached && has_worker && !is_text(&self.inflight_avatar, url.as_str()) {
                    r.push(WorkRequest::FetchImage { url: url.clone() });
                    assert(fetched(r@) =~= seq![url@]);
                    self.inflight_avatar = Some(url);
                }
            },
            None => {},
        }
        let ghost mid = r@;
        match self.banner_url() {
            Some(url) => {
                if !banner_cached && has_worker && !is_text(&self.inflight_banner, url.as_str()) {
                    r.push(WorkRequest::FetchImage { url: url.clone() });
                    assert(fetched(r@) =~= fetched(mid) + seq![url@]);
                    self.inflight_banner = Some(url);
                } else {
                    assert(fetched(r@) =~= fetched(mid) + Seq::<Seq<char>>::empty());
                }
            },
            None => {
                assert(fetched(r@) =~= fetched(mid) + Seq::<Seq<char>>::empty());
            },
        }
        r
    }

    /// One frame of the banner on the whole display: a tap anywhere, or the
    /// circle, closes it.
    pub fn banner_overlay(&mut self, pad: &PadFrame, touches: &Vec<TouchPoint>)
        requires
            old(self).wf(),
        ensures
            final(self).wf(),
            *final(self) == overlay_followed(*old(self), *pad, touches@),
    {
        let pressed_now = touches.len() > 0;
        let tapped = self.banner.close_btn.track(pressed_now, pressed_now, true);
        if tapped || pad.circle {
            self.banner.viewing = false;
            self.banner.close_btn.pressed_last = false;
        }
    }

    /// A tap on the banner, which shows it on the whole display. Nothing
    /// happens before the profile is there; without the banner at hand no
    /// touch counts.
    pub fn banner_tap(&mut self, touches: &Vec<TouchPoint>, scroll: i32, banner_cached: bool) -> (r:
        bool)
        requires
            old(self).wf(),
            0 <= scroll <= MAX_CONTENT_H,
        ensures
            final(self).wf(),
            r == banner_opens(*old(self), touches@, scroll as int, banner_cached),
            *final(self) == banner_followed(*old(self), touches@, scroll as int, banner_cached),
    {
        let has_banner = match &self.state {
            ProfileState::Loaded(p) => p.banner.is_some() && banner_cached,
            _ => {
                return false;
            },
        };
        let on_banner = has_banner && Rect::new(0, 0, SCREEN_WIDTH, BANNER_H - scroll).touched_by(
            touches,
        );
        let tapped = self.banner.open_btn.track(on_banner, touches.len() > 0, true);
        if tapped {
            self.banner.viewing = true;
        }
        tapped
    }

    /// The left and right buttons go from sub-tab to sub-tab.
    pub fn cycle(&mut self, pad: &PadFrame)
        requires
            old(self).wf(),
        ensures
            final(self).wf(),
            *final(self) == cycled(*old(self), *pad),
    {
        if matches!(&self.state, ProfileState::Loaded(_)) {
            let own = self.is_own();
            self.tabs.active = cycle_tab(self.tabs.active, pad.left, pad.right, own);
        }
    }

    /// The next post of the active sub-tab to be measured.
    pub fn next_unmeasured(&self) -> (r: Option<usize>)
        requires
            self.wf(),
        ensures
            r == (match self.tabs.active_list() {
                Some(l) => if self.state is Loaded && l.row_heights@.len() < l.posts@.len() {
                    Some(l.row_heights@.len() as usize)
                } else {
                    None
                },
                None => None,
            }),
    {
        if !matches!(&self.state, ProfileState::Loaded(_)) {
            return None;
        }
        match self.tabs.active_post_state() {
            Some(l) => l.next_unmeasured(),
            None => None,
        }
    }

    /// Takes the measured text heights of the next post.
    pub fn add_row(&mut self, h: TextHeights)
        requires
            old(self).wf(),
            old(self).tabs.active_list() matches Some(l) && l.row_fits(h, true),
        ensures
            final(self).wf(),
            ({
                let l = old(self).tabs.active_list()->0;
                let m = final(self).tabs.active_list()->0;
                &&& final(self).tabs == old(self).tabs.with_list(m)
                &&& m.row_heights@ == l.row_heights@.push(
                    row_height(l.posts@[l.row_heights@.len() as int], h, true) as i32,
                )
                &&& m.text_heights@ == l.text_heights@.push(h)
                &&& m == (PostList {
                    row_heights: m.row_heights,
                    text_heights: m.text_heights,
                    ..l
                })
            }),
            *final(self) == (ProfileScreen { tabs: final(self).tabs, ..*old(self) }),
    {
        match self.tabs.active_post_state_mut() {
            Some(l) => l.add_row(h, true),
            None => {},
        }
    }

    /// Whether the selected post shows.
    pub open spec fn selected_shows(&self, l: PostList, scroll: int) -> bool {
        let band = content_band(self.own(), scroll);
        l.selected_idx >= l.row_heights@.len() || in_band(
            content_y(scroll) + row_top(l.row_heights@, l.selected_idx as int),
            l.row_heights@[l.selected_idx as int] as int,
            band.0,
            band.1,
        )
    }

    /// The selection that the up and down buttons start from: the first post
    /// in view, where the stick has moved the selected one out of view.
    pub open spec fn snapped(&self, l: PostList, scroll: int) -> int {
        if self.selected_shows(l, scroll) {
            l.selected_idx as int
        } else {
            first_in_band(l.row_heights@, content_y(scroll), content_band(self.own(), scroll), 0)
        }
    }

    /// Whether the selected post of the active sub-tab shows.
    pub fn is_selected_row_visible(&self, scroll: i32) -> (r: bool)
        requires
            self.wf(),
            -1000 <= scroll <= MAX_CONTENT_H,
        ensures
            r == (match self.tabs.active_list() {
                Some(l) => self.selected_shows(l, scroll as int),
                None => true,
            }),
    {
        match self.tabs.active_post_state() {
            None => true,
            Some(l) => {
                if l.selected_idx >= l.row_heights.len() {
                    return true;
                }
                let top: i32 = top_of(&l.row_heights, l.selected_idx);
                let h: i32 = l.row_heights[l.selected_idx];
                proof {
                    lemma_row_top_bounds(l.row_heights@, l.selected_idx as int);
                }
                let y: i32 = CONTENT_TOP - scroll + top;
                let band_top: i32 = ProfileScreen::pill_bottom_y(scroll);
                y + h > band_top && y < self.viewport_bottom()
            },
        }
    }

    /// The first post of the active sub-tab that shows; 0 where none does.
    pub fn first_visible_post_idx(&self, scroll: i32) -> (r: usize)
        requires
            self.wf(),
            -1000 <= scroll <= MAX_CONTENT_H,
        ensures
            r == (match self.tabs.active_list() {
                Some(l) => first_in_band(
                    l.row_heights@,
                    content_y(scroll as int),
                    content_band(self.own(), scroll as int),
                    0,
                ),
                None => 0,
            }),
            self.tabs.active_list() matches Some(l) ==> r == 0 || r < l.posts@.len(),
    {
        match self.tabs.active_post_state() {
            None => 0,
            Some(l) => first_row_in_band(
                &l.row_heights,
                CONTENT_TOP - scroll,
                ProfileScreen::pill_bottom_y(scroll),
                self.viewport_bottom(),
            ),
        }
    }

    /// What the up and down buttons make of a list of posts.
    pub open spec fn list_stepped(&self, l: PostList, pad: PadFrame, scroll: int) -> PostList {
        if l.posts@.len() > 0 && (pad.up || pad.down) {
            PostList {
                selected_idx: stepped(
                    self.snapped(l, scroll),
                    pad.up,
                    pad.down,
                    l.posts@.len() as int,
                ) as usize,
                ..l
            }
        } else {
            l
        }
    }

    /// The buttons toggle no counter without room, where `l` is the list of the
    /// active sub-tab.
    pub open spec fn buttons_fit(&self, l: PostList, pad: PadFrame, has_worker: bool) -> bool {
        self.state is Loaded ==> marks_have_room(
            l.posts@,
            l.selected_idx as int,
            pad.l1 && has_worker,
            pad.triangle && has_worker,
        )
    }

    /// The buttons toggle no counter without room, once the up and down buttons
    /// were followed.
    pub open spec fn pads_fit(&self, pad: PadFrame, scroll: int, has_worker: bool) -> bool {
        self.tabs.active_list() matches Some(l) ==> self.buttons_fit(
            self.list_stepped(l, pad, scroll),
            pad,
            has_worker,
        )
    }

    /// Whether the buttons toggle no counter without room, once the up and down
    /// buttons were followed.
    pub fn pads_room(&self, pad: &PadFrame, scroll: i32, has_worker: bool) -> (r: bool)
        requires
            self.wf(),
            -1000 <= scroll <= MAX_CONTENT_H,
        ensures
            r == self.pads_fit(*pad, scroll as int, has_worker),
    {
        if !matches!(&self.state, ProfileState::Loaded(_)) {
            return true;
        }
        let shows = self.is_selected_row_visible(scroll);
        let first: usize = self.first_visible_post_idx(scroll);
        match self.tabs.active_post_state() {
            Some(l) => {
                let n: usize = l.posts.len();
                let mut sel: usize = l.selected_idx;
                if n > 0 && (pad.up || pad.down) {
                    if !shows {
                        sel = first;
                    }
                    let (next, _) = step_selection(sel, pad.up, pad.down, n);
                    sel = next;
                }
                l.marks_room(sel, pad.l1 && has_worker, pad.triangle && has_worker)
            },
            None => true,
        }
    }

    /// A tap on the posts toggles no counter without room.
    pub open spec fn taps_fit(&self, touches: Seq<TouchPoint>, scroll: int) -> bool {
        let band = content_band(self.own(), scroll);
        self.tabs.active_list() matches Some(l) ==> l.tap_fits(
            touches_between(touches, band.0, band.1),
            content_y(scroll),
            band,
            true,
        )
    }

    /// Whether a tap on the posts toggles no counter without room.
    pub fn taps_room(&self, touches: &Vec<TouchPoint>, scroll: i32) -> (r: bool)
        requires
            self.wf(),
            0 <= scroll <= MAX_CONTENT_H,
        ensures
            r == self.taps_fit(touches@, scroll as int),
    {
        let band_top: i32 = ProfileScreen::pill_bottom_y(scroll);
        let band_bottom: i32 = self.viewport_bottom();
        match self.tabs.active_post_state() {
            Some(l) => {
                let inside = touches_in_band(touches, band_top, band_bottom);
                l.tap_room(&inside, CONTENT_TOP - scroll, band_top, band_bottom, true)
            },
            None => true,
        }
    }

    /// Moves the selection; `true` means that it is to be brought into view.
    pub fn move_selection(&mut self, pad: &PadFrame, scroll: i32) -> (r: bool)
        requires
            old(self).wf(),
            -1000 <= scroll <= MAX_CONTENT_H,
        ensures
            final(self).wf(),
            selection_moved(*old(self), *final(self), *pad, scroll as int, r),
    {
        if !matches!(&self.state, ProfileState::Loaded(_)) {
            return false;
        }
        let shows = self.is_selected_row_visible(scroll);
        let first: usize = self.first_visible_post_idx(scroll);
        match self.tabs.active_post_state_mut() {
            Some(l) => {
                if l.posts.len() == 0 || !(pad.up || pad.down) {
                    return false;
                }
                if !shows {
                    l.selected_idx = first;
                }
                let moved = l.step(pad.up, pad.down);
                !shows || moved
            },
            None => {
                self.tabs.step_items(pad.up, pad.down);
                false
            },
        }
    }

    /// Where the view goes so that a selection that moved can be read.
    pub fn auto_scroll_to_selected(&self, scroll: i32) -> (r: Option<i32>)
        requires
            self.wf(),
            -1000 <= scroll <= MAX_CONTENT_H,
        ensures
            reveals(*self, scroll as int, r),
    {
        match self.tabs.active_post_state() {
            Some(l) => {
                if l.selected_idx >= l.row_heights.len() {
                    return None;
                }
                let top: i32 = top_of(&l.row_heights, l.selected_idx);
                proof {
                    lemma_row_top_bounds(l.row_heights@, l.selected_idx as int);
                }
                reveal_at(
                    TAB_STRIP_Y + top,
                    l.row_heights[l.selected_idx],
                    scroll,
                    self.viewport_bottom() - TAB_STRIP_H,
                    true,
                )
            },
            None => None,
        }
    }

    /// The selected post gets or loses its mark.
    pub open spec fn focus_marked(
        a: Self,
        b: Self,
        kind: EngagementKind,
        has_worker: bool,
        r: Option<WorkRequest>,
    ) -> bool {
        &&& b == (ProfileScreen { tabs: b.tabs, ..a })
        &&& match a.tabs.active_list() {
            Some(l) => {
                let m = b.tabs.active_list()->0;
                &&& b.tabs == a.tabs.with_list(m)
                &&& m == (PostList { posts: m.posts, ..l })
                &&& posts_marked(
                    l.posts@,
                    m.posts@,
                    l.selected_idx as int,
                    has_worker && kind == EngagementKind::Like,
                    has_worker && kind == EngagementKind::Repost,
                )
                &&& if has_worker && l.selected_idx < l.posts@.len() {
                    toggle_request_is(r, l.posts@[l.selected_idx as int].post, kind)
                } else {
                    r is None
                }
            },
            None => r is None && b == a,
        }
    }

    /// Toggles a mark on the selected post of the active sub-tab.
    pub fn toggle_focused_engagement(&mut self, kind: EngagementKind, has_worker: bool) -> (r:
        Option<WorkRequest>)
        requires
            old(self).wf(),
            old(self).tabs.active_list() matches Some(l) ==> marks_have_room(
                l.posts@,
                l.selected_idx as int,
                has_worker && kind == EngagementKind::Like,
                has_worker && kind == EngagementKind::Repost,
            ),
        ensures
            final(self).wf(),
            Self::focus_marked(*old(self), *final(self), kind, has_worker, r),
    {
        match self.tabs.active_post_state_mut() {
            Some(l) => {
                let sel: usize = l.selected_idx;
                l.toggle_at(sel, kind, has_worker)
            },
            None => None,
        }
    }

    /// The selected post is the one to reply to.
    pub open spec fn reply_offered(s: Self, r: Option<ReplyTarget>) -> bool {
        r == (match s.tabs.active_list() {
            Some(l) => if l.selected_idx < l.posts@.len() {
                Some(reply_to(l.posts@[l.selected_idx as int]))
            } else {
                None
            },
            None => None,
        })
    }

    /// The reply that the selected post would get.
    pub fn focused_reply_target(&self) -> (r: Option<ReplyTarget>)
        requires
            self.wf(),
        ensures
            Self::reply_offered(*self, r),
    {
        match self.tabs.active_post_state() {
            Some(l) => if l.selected_idx < l.posts.len() {
                Some(reply_target_for(&l.posts[l.selected_idx]))
            } else {
                None
            },
            None => None,
        }
    }

    /// The like and repost buttons, on the selected post of the active sub-tab.
    fn toggle_marks(&mut self, like: bool, repost: bool, has_worker: bool) -> (r: (
        Option<WorkRequest>,
        Option<WorkRequest>,
    ))
        requires
            old(self).wf(),
            old(self).tabs.active_list() matches Some(l) ==> marks_have_room(
                l.posts@,
                l.selected_idx as int,
                like && has_worker,
                repost && has_worker,
            ),
        ensures
            final(self).wf(),
            *final(self) == (ProfileScreen { tabs: final(self).tabs, ..*old(self) }),
            match old(self).tabs.active_list() {
                Some(l) => {
                    let m = final(self).tabs.active_list()->0;
                    let sel = l.selected_idx as int;
                    &&& final(self).tabs.active_list() is Some
                    &&& final(self).tabs == old(self).tabs.with_list(m)
                    &&& m == (PostList { posts: m.posts, ..l })
                    &&& posts_marked(
                        l.posts@,
                        m.posts@,
                        sel,
                        like && has_worker,
                        repost && has_worker,
                    )
                    &&& if like && has_worker && sel < l.posts@.len() {
                        toggle_request_is(r.0, l.posts@[sel].post, EngagementKind::Like)
                    } else {
                        r.0 is None
                    }
                    &&& if repost && has_worker && sel < l.posts@.len() {
                        toggle_request_is(r.1, l.posts@[sel].post, EngagementKind::Repost)
                    } else {
                        r.1 is None
                    }
                },
                None => r.0 is None && r.1 is None && *final(self) == *old(self),
            },
    {
        match self.tabs.active_post_state_mut() {
            Some(l) => {
                let sel: usize = l.selected_idx;
                l.toggle_marks(sel, like, repost, has_worker)
            },
            None => (None, None),
        }
    }

    /// The buttons: like, repost, and reply, which ends the frame.
    pub fn pad_actions(&mut self, pad: &PadFrame, has_worker: bool) -> (r: PadOutcome)
        requires
            old(self).wf(),
            old(self).tabs.active_list() matches Some(l) ==> old(self).buttons_fit(
                l,
                *pad,
                has_worker,
            ),
        ensures
            final(self).wf(),
            buttons_followed(*old(self), *final(self), *pad, has_worker, r),
    {
        let mut push: Option<NextScreen> = None;
        if !matches!(&self.state, ProfileState::Loaded(_)) {
            return PadOutcome { like_request: None, repost_request: None, push };
        }
        let (like_request, repost_request) = self.toggle_marks(
            pad.l1,
            pad.triangle,
            has_worker,
        );
        if pad.r1 {
            match self.focused_reply_target() {
                Some(reply) => {
                    let handle = match self.tabs.active_post_state() {
                        Some(l) => l.selected_handle(),
                        None => None,
                    };
                    push = Some(NextScreen::Compose { reply: Some(reply), handle });
                },
                None => {},
            }
        }
        PadOutcome { like_request, repost_request, push }
    }

    /// Follows or unfollows at once, and gives the request that makes it so.
    pub fn toggle_follow(&mut self, has_worker: bool) -> (r: Option<WorkRequest>)
        requires
            old(self).wf(),
        ensures
            final(self).wf(),
            *final(self) == (ProfileScreen { state: final(self).state, ..*old(self) }),
            match old(self).state {
                ProfileState::Loaded(p) => if has_worker {
                    &&& follow_toggled(old(self).state, final(self).state)
                    &&& follow_request_is(r, *p)
                } else {
                    r is None && final(self).state == old(self).state
                },
                _ => r is None && final(self).state == old(self).state,
            },
    {
        if !has_worker {
            return None;
        }
        match &mut self.state {
            ProfileState::Loaded(p) => {
                let existing = match p.viewer.take() {
                    Some(v) => v.following,
                    None => None,
                };
                match existing {
                    Some(uri) => {
                        p.viewer = Some(ProfileViewer { following: None });
                        if same_text(uri.as_str(), "__pending__") {
                            return None;
                        }
                        Some(WorkRequest::DeleteFollow { rkey: tail_after(uri.as_str(), '/') })
                    },
                    None => {
                        p.viewer = Some(ProfileViewer { following: Some(pending_text()) });
                        Some(WorkRequest::CreateFollow { actor_did: p.did.clone() })
                    },
                }
            },
            _ => None,
        }
    }

    /// The place of the follow button.
    pub open spec fn follow_rect(scroll: int) -> Rect {
        Rect { x: 324, y: (340 - scroll) as i32, w: 150, h: 30 }
    }

    /// The place of the message button.
    pub open spec fn message_rect(scroll: int) -> Rect {
        Rect { x: 486, y: (340 - scroll) as i32, w: 150, h: 30 }
    }

    /// Whether the first tap on the log-out button still counts, so that the
    /// next one logs out.
    pub fn logout_armed(&self, now: u64) -> (r: bool)
        ensures
            r == armed(self.logout, now),
    {
        match self.logout.armed_at {
            Some(t) => now < t || now - t < LOGOUT_ARMED_NS,
            None => false,
        }
    }

    /// The place of the log-out button.
    pub open spec fn logout_rect(scroll: int) -> Rect {
        Rect { x: 400, y: (340 - scroll) as i32, w: 160, h: 30 }
    }

    /// One frame of the log-out button: `true` is the tap that logs out.
    pub fn logout_button(&mut self, touches: &Vec<TouchPoint>, scroll: i32, now: u64) -> (r: bool)
        requires
            old(self).wf(),
            0 <= scroll <= MAX_CONTENT_H,
        ensures
            final(self).wf(),
            r == logout_confirmed(*old(self), touches@, scroll as int, now),
            *final(self) == logout_followed(*old(self), touches@, scroll as int, now),
    {
        let is_armed = self.logout_armed(now);
        let hit = button(
            Rect::new(400, 340 - scroll, 160, 30),
            &mut self.logout.btn,
            touches,
            true,
        );
        if hit && !is_armed {
            self.logout.armed_at = Some(now);
        }
        hit && is_armed
    }

    /// One frame of the message button: the request for the conversation. A
    /// press while one is being opened does nothing.
    pub fn message_button(&mut self, touches: &Vec<TouchPoint>, scroll: i32, has_worker: bool) -> (r:
        Option<WorkRequest>)
        requires
            old(self).wf(),
            0 <= scroll <= MAX_CONTENT_H,
        ensures
            final(self).wf(),
            message_followed(
                *old(self),
                *final(self),
                touches@,
                scroll as int,
                has_worker,
                r,
            ),
    {
        match &self.state {
            ProfileState::Loaded(p) => {
                let hit = button(
                    Rect::new(486, 340 - scroll, 150, 30),
                    &mut self.contact.message_btn,
                    touches,
                    !self.contact.messaging,
                );
                if !hit || !has_worker {
                    return None;
                }
                let mut members: Vec<String> = Vec::new();
                members.push(p.did.clone());
                assert(members@ =~= seq![p.did]);
                self.contact.dm_error = None;
                self.contact.messaging = true;
                Some(WorkRequest::GetConvoForMembers { members })
            },
            _ => None,
        }
    }

    /// One frame of the follow button.
    pub fn follow_button(&mut self, touches: &Vec<TouchPoint>, scroll: i32, has_worker: bool) -> (r:
        Option<WorkRequest>)
        requires
            old(self).wf(),
            0 <= scroll <= MAX_CONTENT_H,
        ensures
            final(self).wf(),
            follow_followed(
                *old(self),
                *final(self),
                touches@,
                scroll as int,
                has_worker,
                r,
            ),
    {
        if !matches!(&self.state, ProfileState::Loaded(_)) {
            return None;
        }
        let hit = button(
            Rect::new(324, 340 - scroll, 150, 30),
            &mut self.contact.follow_btn,
            touches,
            true,
        );
        if hit {
            self.toggle_follow(has_worker)
        } else {
            None
        }
    }

    /// Whether somebody is followed, as the follow button shows it.
    pub fn is_following(&self) -> (r: bool)
        ensures
            r == followed(self.state),
    {
        match &self.state {
            ProfileState::Loaded(p) => match &p.viewer {
                Some(v) => v.following.is_some(),
                None => false,
            },
            _ => false,
        }
    }

    /// Asks for the first page of the active sub-tab, once. Nothing is asked
    /// for before the account is known.
    pub fn maybe_dispatch_active_tab(&mut self, has_worker: bool) -> (r: Option<WorkRequest>)
        requires
            old(self).wf(),
        ensures
            final(self).wf(),
            tab_asked(*old(self), *final(self), has_worker, r),
    {
        if !has_worker {
            return None;
        }
        match &self.resolved_did {
            Some(did) => self.tabs.first_fetch(did.as_str()),
            None => None,
        }
    }

    /// The height of the active sub-tab's rows.
    pub fn content_h(&self) -> (r: i32)
        requires
            self.wf(),
        ensures
            r == tab_height(self.tabs),
            0 <= r <= MAX_CONTENT_H,
    {
        match self.tabs.active {
            ProfileTab::Posts => content_height(&self.tabs.posts.list.row_heights),
            ProfileTab::Replies => content_height(&self.tabs.replies.list.row_heights),
            ProfileTab::Media => content_height(&self.tabs.media.list.row_heights),
            ProfileTab::Likes => content_height(&self.tabs.likes.list.row_heights),
            ProfileTab::Feeds => self.tabs.feeds.items.len() as i32 * ITEM_ROW_H,
            ProfileTab::Lists => self.tabs.lists.items.len() as i32 * ITEM_ROW_H,
            ProfileTab::Packs => self.tabs.packs.items.len() as i32 * ITEM_ROW_H,
        }
    }

    /// The farthest the profile can be scrolled: to where the last row ends at
    /// the end of the content, but always far enough for the strip of sub-tabs
    /// to reach the top.
    pub open spec fn scroll_max(&self) -> int {
        let m = CONTENT_TOP + tab_height(self.tabs) - content_end(self.own());
        if m > TAB_STRIP_Y {
            m
        } else {
            TAB_STRIP_Y as int
        }
    }

    /// The farthest the profile can be scrolled.
    pub fn max_scroll(&self) -> (r: i32)
        requires
            self.wf(),
        ensures
            r == self.scroll_max(),
            0 <= r <= MAX_CONTENT_H,
    {
        let m: i32 = self.content_h() - (self.viewport_bottom() - CONTENT_TOP);
        if m > TAB_STRIP_Y {
            m
        } else {
            TAB_STRIP_Y
        }
    }

    /// The next page of the active sub-tab is due: the end is close, there is
    /// one, and none is under way.
    pub open spec fn page_due(&self, scroll: int) -> bool {
        let t = self.tabs;
        &&& scroll + content_end(self.own()) + PAGINATION_THRESHOLD >= CONTENT_TOP + tab_height(t)
        &&& !t.is_fetching(t.active)
        &&& t.cursor_of(t.active) is Some
    }

    /// Asks for the next page of the active sub-tab when the end is close.
    pub fn paginate(&mut self, scroll: i32, has_worker: bool) -> (r: Option<WorkRequest>)
        requires
            old(self).wf(),
            0 <= scroll <= MAX_CONTENT_H,
        ensures
            final(self).wf(),
            page_asked(*old(self), *final(self), scroll as int, has_worker, r),
    {
        let room: i32 = self.viewport_bottom() + PAGINATION_THRESHOLD - CONTENT_TOP;
        if !has_worker || scroll + room < self.content_h() {
            return None;
        }
        match &self.resolved_did {
            Some(did) => self.tabs.next_page(did.as_str()),
            None => None,
        }
    }

    /// What stands in place of the rows of the active sub-tab: its error, or
    /// that it is under way or empty.
    pub fn tab_note(&self) -> (r: Option<TabNote>)
        ensures
            note_is(self.tabs, r),
    {
        let t = &self.tabs;
        let (problem, n, fetching) = match t.active {
            ProfileTab::Posts => (&t.posts.error, t.posts.list.posts.len(), t.posts.fetching),
            ProfileTab::Replies => (
                &t.replies.error,
                t.replies.list.posts.len(),
                t.replies.fetching,
            ),
            ProfileTab::Media => (&t.media.error, t.media.list.posts.len(), t.media.fetching),
            ProfileTab::Likes => (&t.likes.error, t.likes.list.posts.len(), t.likes.fetching),
            ProfileTab::Feeds => (&t.feeds.error, t.feeds.items.len(), t.feeds.fetching),
            ProfileTab::Lists => (&t.lists.error, t.lists.items.len(), t.lists.fetching),
            ProfileTab::Packs => (&t.packs.error, t.packs.items.len(), t.packs.fetching),
        };
        let thing = match t.active {
            ProfileTab::Feeds => "feeds",
            ProfileTab::Lists => "lists",
            ProfileTab::Packs => "starter packs",
            _ => "posts",
        };
        match problem {
            Some(e) => Some(
                TabNote { headline: join2("Could not load ", thing), detail: Some(e.clone()) },
            ),
            None => if n > 0 {
                None
            } else if fetching {
                Some(TabNote { headline: join3("Loading ", thing, "…"), detail: None })
            } else {
                Some(TabNote { headline: join3("No ", thing, " yet."), detail: None })
            },
        }
    }

    /// The pictures of the items in view, where the tab shows items.
    pub open spec fn items_wanted(s: Self, scroll: i32, r: Vec<String>) -> bool {
        texts(r@) == (if tab_problem(s.tabs) is Some || s.tabs.active_list() is Some {
            Seq::empty()
        } else {
            item_urls(
                s.tabs,
                content_y(scroll as int),
                content_band(s.own(), scroll as int),
                tab_len(s.tabs),
            )
        })
    }

    /// The pictures that the visible rows of a sub-tab without posts need.
    pub fn wanted_item_images(&self, scroll: i32) -> (r: Vec<String>)
        requires
            self.wf(),
            0 <= scroll <= MAX_CONTENT_H,
        ensures
            Self::items_wanted(*self, scroll, r),
    {
        let mut r: Vec<String> = Vec::new();
        assert(texts(r@) =~= Seq::<Seq<char>>::empty());
        let t = &self.tabs;
        let (broken, n) = match t.active {
            ProfileTab::Feeds => (t.feeds.error.is_some(), t.feeds.items.len()),
            ProfileTab::Lists => (t.lists.error.is_some(), t.lists.items.len()),
            ProfileTab::Packs => (t.packs.error.is_some(), t.packs.items.len()),
            _ => {
                return r;
            },
        };
        if broken {
            return r;
        }
        let origin: i32 = CONTENT_TOP - scroll;
        let band_top: i32 = ProfileScreen::pill_bottom_y(scroll);
        let band_bottom: i32 = self.viewport_bottom();
        let ghost band = content_band(self.own(), scroll as int);
        let mut i: usize = 0;
        while i < n
            invariant
                i <= n,
                n == tab_len(*t),
                *t == self.tabs,
                self.wf(),
                self.tabs.active_list() is None,
                ITEM_ROW_H * n <= MAX_CONTENT_H,
                -MAX_CONTENT_H <= origin <= 1000,
                band == (band_top as int, band_bottom as int),
                texts(r@) == item_urls(*t, origin as int, band, i as int),
            decreases n - i,
        {
            let y: i32 = origin + ITEM_ROW_H * (i as i32);
            if y + ITEM_ROW_H > band_top && y < band_bottom {
                let picture = match t.active {
                    ProfileTab::Feeds => &t.feeds.items[i].avatar,
                    ProfileTab::Lists => &t.lists.items[i].avatar,
                    _ => &t.packs.items[i].creator_avatar,
                };
                let ghost before = texts(r@);
                match picture {
                    Some(a) => {
                        let url = avatar_thumbnail_jpeg(a.as_str());
                        r.push(url);
                        assert(texts(r@) =~= before.push(url@));
                    },
                    None => {},
                }
            }
            i += 1;
        }
        r
    }

    /// What a tap on the posts of the active sub-tab asks for. Touches on the
    /// strip of sub-tabs and on the bar at the bottom do not count.
    pub fn tap(&self, touches: &Vec<TouchPoint>, scroll: i32) -> (r: Option<TapAction>)
        requires
            self.wf(),
            0 <= scroll <= MAX_CONTENT_H,
        ensures
            post_tapped(*self, touches@, scroll as int, r),
    {
        let band_top: i32 = ProfileScreen::pill_bottom_y(scroll);
        let band_bottom: i32 = self.viewport_bottom();
        match self.tabs.active_post_state() {
            Some(l) => {
                let inside = touches_in_band(touches, band_top, band_bottom);
                l.tap(&inside, CONTENT_TOP - scroll, band_top, band_bottom, true)
            },
            None => None,
        }
    }

    /// Follows a tap on a post: marks are toggled in place, anything else
    /// opens.
    pub fn follow_tap(&mut self, tap: Option<TapAction>, has_worker: bool) -> (r: (
        Option<WorkRequest>,
        ScreenAction,
    ))
        requires
            old(self).wf(),
            has_worker ==> (old(self).tabs.active_list() matches Some(l) ==> tap_has_room(
                l.posts@,
                tap,
            )),
        ensures
            final(self).wf(),
            tap_followed(*old(self), *final(self), tap, has_worker, r.0, r.1),
    {
        match self.tabs.active_post_state_mut() {
            Some(l) => l.follow_tap(tap, has_worker),
            None => (None, ScreenAction::Stay),
        }
    }

    /// A tap on a custom feed opens it. The lists and packs cannot be opened.
    pub fn feed_tap(&self, touches: &Vec<TouchPoint>, scroll: i32) -> (r: ScreenAction)
        requires
            self.wf(),
            0 <= scroll <= MAX_CONTENT_H,
        ensures
            r == feed_opened(*self, touches@, scroll as int),
    {
        if self.tabs.active != ProfileTab::Feeds {
            return ScreenAction::Stay;
        }
        let band_top: i32 = ProfileScreen::pill_bottom_y(scroll);
        let band_bottom: i32 = self.viewport_bottom();
        let inside = touches_in_band(touches, band_top, band_bottom);
        let origin: i32 = CONTENT_TOP - scroll;
        let ghost band = content_band(self.own(), scroll as int);
        let n: usize = self.tabs.feeds.items.len();
        let mut i: usize = 0;
        while i < n
            invariant
                i <= n,
                n == self.tabs.feeds.items@.len(),
                ITEM_ROW_H * n <= MAX_CONTENT_H,
                -MAX_CONTENT_H <= origin <= 1000,
                origin == content_y(scroll as int),
                band == (band_top as int, band_bottom as int),
                band == content_band(self.own(), scroll as int),
                inside@ == touches_between(touches@, band.0, band.1),
                self.tabs.active == ProfileTab::Feeds,
                item_tapped(n as int, origin as int, band, inside@, 0) == item_tapped(
                    n as int,
                    origin as int,
                    band,
                    inside@,
                    i as int,
                ),
            decreases n - i,
        {
            let y: i32 = origin + ITEM_ROW_H * (i as i32);
            if y + ITEM_ROW_H > band_top && y < band_bottom && Rect::new(
                0,
                y,
                SCREEN_WIDTH,
                ITEM_ROW_H,
            ).touched_by(&inside) {
                return ScreenAction::Push(
                    NextScreen::Feed { uri: self.tabs.feeds.items[i].uri.clone() },
                );
            }
            i += 1;
        }
        ScreenAction::Stay
    }

    /// The pill of the `i`-th sub-tab fires: it was clicked, and is not the
    /// active one.
    pub open spec fn tab_fires(
        &self,
        widths: Seq<i32>,
        touches: Seq<TouchPoint>,
        scroll: int,
        i: int,
    ) -> bool {
        clicked(
            true,
            self.tab_pill_btns@[i].pressed_last,
            touched(touches, tab_pill_rect(widths, i, scroll)),
            touches.len() > 0,
        ) && tabs_shown(self.own())[i] != self.tabs.active
    }

    /// The sub-tab that the first `n` pills lead to: the last one that fires.
    pub open spec fn tab_chosen(
        &self,
        widths: Seq<i32>,
        touches: Seq<TouchPoint>,
        scroll: int,
        n: int,
    ) -> ProfileTab
        decreases n,
    {
        if n <= 0 {
            self.tabs.active
        } else if self.tab_fires(widths, touches, scroll, n - 1) {
            tabs_shown(self.own())[n - 1]
        } else {
            self.tab_chosen(widths, touches, scroll, n - 1)
        }
    }

    /// One frame of the strip of sub-tabs, given the widths of its labels: the
    /// pills as they are drawn. A tapped one becomes active.
    pub fn tab_strip(&mut self, widths: &Vec<i32>, touches: &Vec<TouchPoint>, scroll: i32) -> (r:
        Vec<TabPill>)
        requires
            old(self).wf(),
            0 <= scroll <= MAX_CONTENT_H,
            widths@.len() == tabs_shown(old(self).own()).len(),
            tab_widths_ok(widths@),
        ensures
            final(self).wf(),
            strip_tracked(*old(self), *final(self), widths@, touches@, scroll as int, r@),
    {
        let ghost s = *self;
        let tabs = available_tabs(self.is_own());
        let active = self.tabs.active;
        let mut chosen = active;
        let mut r: Vec<TabPill> = Vec::new();
        let y: i32 = ProfileScreen::pill_bottom_y(scroll) - TAB_STRIP_H + 4;
        let mut x: i32 = 8;
        let n: usize = widths.len();
        let mut i: usize = 0;
        while i < n
            invariant
                i <= n <= 7,
                s == *old(self),
                s.wf(),
                n == widths@.len(),
                tabs@ == tabs_shown(s.own()),
                n == tabs@.len(),
                active == s.tabs.active,
                tab_widths_ok(widths@),
                x == tab_pill_x(widths@, i as int),
                y == strip_y(scroll as int) + 4,
                self.tab_pill_btns@.len() == 7,
                *self == (ProfileScreen { tab_pill_btns: self.tab_pill_btns, ..s }),
                chosen == s.tab_chosen(widths@, touches@, scroll as int, i as int),
                forall|k: int|
                    0 <= k < i ==> #[trigger] self.tab_pill_btns@[k] == (ButtonState {
                        pressed_last: touched(touches@, tab_pill_rect(widths@, k, scroll as int)),
                    }),
                forall|k: int|
                    i <= k < 7 ==> #[trigger] self.tab_pill_btns@[k] == s.tab_pill_btns@[k],
                r@ == Seq::new(
                    i as nat,
                    |k: int|
                        TabPill {
                            tab: tabs_shown(s.own())[k],
                            rect: tab_pill_rect(widths@, k, scroll as int),
                            active: tabs_shown(s.own())[k] == s.tabs.active,
                        },
                ),
            decreases n - i,
        {
            assert(tab_pill_fits(widths@, i as int));
            let w: i32 = widths[i] + 24;
            let rect = Rect::new(x, y, w, 32);
            let is_active = tabs[i] == active;
            let mut state = self.tab_pill_btns[i];
            let hit = button(rect, &mut state, touches, true);
            self.tab_pill_btns[i] = state;
            if hit && !is_active {
                chosen = tabs[i];
            }
            r.push(TabPill { tab: tabs[i], rect, active: is_active });
            assert(r@ =~= Seq::new(
                (i + 1) as nat,
                |k: int|
                    TabPill {
                        tab: tabs_shown(s.own())[k],
                        rect: tab_pill_rect(widths@, k, scroll as int),
                        active: tabs_shown(s.own())[k] == s.tabs.active,
                    },
            ));
            x = (x as i64 + w as i64 + 6) as i32;
            i += 1;
        }
        self.tabs.active = chosen;
        r
    }

    /// Why a conversation could not be opened, as it is shown on somebody
    /// else's profile.
    pub fn toast(&self) -> (r: Option<String>)
        ensures
            opt_view(r) == toast_of(*self),
    {
        if self.is_own() {
            return None;
        }
        match &self.contact.dm_error {
            Some(e) => Some(dm_error_message(e.as_str())),
            None => None,
        }
    }

    /// The bar at the bottom of the reader's own profile, or the way back from
    /// somebody else's.
    pub fn leave(&mut self, pad: &PadFrame, touches: &Vec<TouchPoint>) -> (r: ScreenAction)
        requires
            old(self).wf(),
        ensures
            final(self).wf(),
            profile_left(*old(self), *final(self), *pad, touches@, r),
    {
        if !self.is_own() {
            if pad.circle {
                return ScreenAction::Pop;
            }
            return ScreenAction::Stay;
        }
        follow_bar(&mut self.tab_bar, touches)
    }

    /// Only the own profile is a tab.
    pub open spec fn tab_of(s: Self, r: Option<TopLevel>) -> bool {
        r == (if s.own() {
            Some(TopLevel::Profile)
        } else {
            None
        })
    }

    /// The destination that this screen is, if it is one.
    pub fn top_level(&self) -> (r: Option<TopLevel>)
        ensures
            Self::tab_of(*self, r),
    {
        if self.is_own() {
            Some(TopLevel::Profile)
        } else {
            None
        }
    }

    /// Takes an answer of the worker.
    pub fn handle_worker_response(&mut self, resp: WorkResponse)
        requires
            old(self).wf(),
            answer_fits(old(self).tabs, resp),
        ensures
            final(self).wf(),
            profile_responded(*old(self), *final(self), resp),
    {
        match resp {
            WorkResponse::Profile(result) => self.take_profile(result),
            WorkResponse::Image { url, .. } => self.forget_image(url.as_str()),
            WorkResponse::FollowChanged(Ok(Some(uri))) => self.confirm_follow(uri),
            WorkResponse::ConvoForMembers(result) => self.contact.take_answer(result),
            resp => self.take_tabs_answer(resp),
        }
    }

    fn take_profile(&mut self, result: Result<Box<ProfileDetail>, String>)
        requires
            old(self).wf(),
        ensures
            final(self).wf(),
            *final(self) == (match result {
                Ok(p) => ProfileScreen {
                    resolved_did: Some(p.did),
                    state: ProfileState::Loaded(p),
                    ..*old(self)
                },
                Err(e) => ProfileScreen { state: ProfileState::Error(e), ..*old(self) },
            }),
    {
        match result {
            Ok(p) => {
                self.resolved_did = Some(p.did.clone());
                self.state = ProfileState::Loaded(p);
            },
            Err(e) => {
                self.state = ProfileState::Error(e);
            },
        }
    }

    fn forget_image(&mut self, url: &str)
        requires
            old(self).wf(),
        ensures
            final(self).wf(),
            *final(self) == (ProfileScreen {
                inflight_avatar: if opt_view(old(self).inflight_avatar) == Some(url@) {
                    None
                } else {
                    old(self).inflight_avatar
                },
                inflight_banner: if opt_view(old(self).inflight_banner) == Some(url@) {
                    None
                } else {
                    old(self).inflight_banner
                },
                ..*old(self)
            }),
    {
        if is_text(&self.inflight_avatar, url) {
            self.inflight_avatar = None;
        }
        if is_text(&self.inflight_banner, url) {
            self.inflight_banner = None;
        }
    }

    fn take_tabs_answer(&mut self, resp: WorkResponse)
        requires
            old(self).wf(),
            answer_fits(old(self).tabs, resp),
        ensures
            final(self).wf(),
            tabs_responded(old(self).tabs, final(self).tabs, resp, opt_view(old(self).resolved_did)),
            *final(self) == (ProfileScreen { tabs: final(self).tabs, ..*old(self) }),
    {
        self.tabs.answer(resp, &self.resolved_did);
    }

    fn confirm_follow(&mut self, uri: String)
        requires
            old(self).wf(),
        ensures
            final(self).wf(),
            follow_confirmed(old(self).state, final(self).state, uri),
            *final(self) == (ProfileScreen { state: final(self).state, ..*old(self) }),
    {
        match &mut self.state {
            ProfileState::Loaded(p) => {
                let waiting = match &p.viewer {
                    Some(v) => is_text(&v.following, "__pending__"),
                    None => false,
                };
                if waiting {
                    p.viewer = Some(ProfileViewer { following: Some(uri) });
                }
            },
            _ => {},
        }
    }
}

/// Following somebody and taking it back leaves things as they were, where the
/// follow was confirmed in between.
pub proof fn lemma_follow_round_trip(
    a: ProfileState,
    b: ProfileState,
    c: ProfileState,
    d: ProfileState,
    uri: String,
)
    requires
        a matches ProfileState::Loaded(p) && following_of(*p) is None,
        follow_toggled(a, b),
        follow_confirmed(b, c, uri),
        follow_toggled(c, d),
    ensures
        match (a, d) {
            (ProfileState::Loaded(p), ProfileState::Loaded(q)) => {
                &&& following_of(*q) is None
                &&& *q == (ProfileDetail { viewer: q.viewer, ..*p })
            },
            _ => false,
        },
{
}

/// An answer for another account changes no sub-tab.
pub proof fn lemma_foreign_pages_dropped(
    a: ProfileScreen,
    b: ProfileScreen,
    resp: WorkResponse,
)
    requires
        profile_responded(a, b, resp),
        match resp {
            WorkResponse::FeedPage { source, .. } => match source_tab(source) {
                Some(t) => opt_view(a.resolved_did) != Some(t.1),
                None => true,
            },
            WorkResponse::ActorFeeds { actor, .. } => opt_view(a.resolved_did) != Some(actor@),
            WorkResponse::ActorLists { actor, .. } => opt_view(a.resolved_did) != Some(actor@),
            WorkResponse::ActorStarterPacks { actor, .. } => opt_view(a.resolved_did) != Some(
                actor@,
            ),
            _ => false,
        },
    ensures
        b == a,
{
    reveal(tabs_responded);
}

/// One tap on the log-out button never logs out, and two do so only within
/// the time that the first one counts.
pub proof fn lemma_logout_takes_two_taps(first: u64, second: u64, btn: ButtonState)
    ensures
        !armed(LogoutButton { btn, armed_at: None }, first),
        armed(LogoutButton { btn, armed_at: Some(first) }, second) <==> second < first
            + LOGOUT_ARMED_NS,
{
}

/// The strip of sub-tabs can always be scrolled to the top.
pub proof fn lemma_strip_reaches_top(s: ProfileScreen)
    ensures
        strip_y(s.scroll_max()) == 0,
{
}

} // verus!
