//! What a profile shows, asks for and does: whose it is, what its sub-tabs hold,
//! and what its buttons stand for.

use vstd::prelude::*;

#[allow(unused_imports)]
use crate::cdn::{jpeg_url, thumbnail_url};
#[allow(unused_imports)]
use crate::engagement::{toggle_request_is, EngagementKind};
#[allow(unused_imports)]
use crate::images::fetched;
#[allow(unused_imports)]
use crate::model::ProfileDetail;
#[allow(unused_imports)]
use crate::post_list::{posts_marked, tap_opens, PostList};
#[allow(unused_imports)]
use crate::post_row::TapAction;
#[allow(unused_imports)]
use crate::profile::{
    avatar_of, banner_followed, banner_of, banner_opens, begun, buttons_followed, content_band,
    content_y, convo_opened, convo_taken, cycled, feed_opened, follow_followed, follow_request_is,
    follow_toggled, followed, item_tapped, logout_confirmed, logout_followed, logout_hit,
    message_followed, not_at_hand, note_is, overlay_followed, page_asked, pictures_asked,
    profile_left, profile_request, profile_responded, strip_tracked, strip_y, tab_asked, tab_height,
    tab_pill_rect, tap_followed, toast_of, ProfileScreen, ProfileState, TabNote, TabPill,
};
#[allow(unused_imports)]
use crate::profile_tabs::{
    lemma_cycle, tab_error, tab_place, tab_request_is, tab_word, tabs_shown, ProfileTab,
    ProfileTabs,
};
#[allow(unused_imports)]
use crate::profile_text::{
    bare_site, counts_of, dm_problem, handle_line_of, joined, meta_parts, month_name, stripped,
};
#[allow(unused_imports)]
use crate::requests::{WorkRequest, WorkResponse};
#[allow(unused_imports)]
use crate::rows::in_band;
#[allow(unused_imports)]
use crate::screen::{NextScreen, ScreenAction};
#[allow(unused_imports)]
use crate::text::{contains_text, decimal_int, has_prefix, opt_view};
#[allow(unused_imports)]
use crate::timeline::PadOutcome;
#[allow(unused_imports)]
use crate::widget::{touched, touches_between, PadFrame, TouchPoint};

verus! {

// ── The profile ────────────────────────────────────────────────────────

/// The profile that the screen was opened for is asked for, once; the reader's
/// own where no account was named.
pub proof fn lemma_profile_asked_once(s: ProfileScreen, has_worker: bool)
    ensures
        profile_request(s, has_worker) is Some <==> has_worker && !s.dispatched,
        profile_request(s, has_worker) matches Some(q) ==> (q matches WorkRequest::FetchProfile {
            actor,
        } && actor == s.actor),
        profile_request(begun(s, has_worker), has_worker) is None,
        begun(s, has_worker).state == s.state && begun(s, has_worker).tabs == s.tabs,
{
}

/// A profile that came is shown as it came, and its account is known from then
/// on. A conversation that was asked for is opened with the next frame, or the
/// reason why not is kept; either way one can be asked for again. A failure is
/// kept with its reason.
pub proof fn lemma_profile_answers(a: ProfileScreen, b: ProfileScreen, resp: WorkResponse)
    requires
        profile_responded(a, b, resp),
    ensures
        resp matches WorkResponse::Profile(Ok(p)) ==> b.state == ProfileState::Loaded(p)
            && b.resolved_did == Some(p.did) && b.tabs == a.tabs,
        resp matches WorkResponse::Profile(Err(e)) ==> b.state == ProfileState::Error(e)
            && b.resolved_did == a.resolved_did,
        resp matches WorkResponse::ConvoForMembers(Ok(c)) ==> b.contact.pending_open_convo == Some(
            c,
        ) && b.contact.dm_error is None && !b.contact.messaging && b.state == a.state,
        resp matches WorkResponse::ConvoForMembers(Err(e)) ==> b.contact.dm_error == Some(e)
            && !b.contact.messaging && b.contact.pending_open_convo == a.contact.pending_open_convo
            && b.state == a.state,
        resp matches WorkResponse::Image { url, .. } ==> {
            &&& b.state == a.state && b.tabs == a.tabs
            &&& opt_view(b.inflight_avatar) != Some(url@) && opt_view(b.inflight_banner) != Some(
                url@,
            )
            &&& opt_view(a.inflight_avatar) != Some(url@) ==> b.inflight_avatar
                == a.inflight_avatar
            &&& opt_view(a.inflight_banner) != Some(url@) ==> b.inflight_banner
                == a.inflight_banner
        },
        resp is FeedPage || resp is ActorFeeds || resp is ActorLists || resp is ActorStarterPacks
            || resp is LikeChanged || resp is RepostChanged ==> b.state == a.state && b.contact
            == a.contact,
        b.actor == a.actor && b.tabs.active == a.tabs.active,
{
    reveal(crate::profile_tabs::tabs_responded);
}

/// The conversation that became ready is opened, once; without one the screen
/// stays.
pub proof fn lemma_ready_conversation_opens(s: ProfileScreen)
    ensures
        s.contact.pending_open_convo matches Some(c) ==> (convo_opened(s) matches
            ScreenAction::Push(NextScreen::Conversation { convo }) && convo == c),
        s.contact.pending_open_convo is None ==> convo_opened(s) is Stay && convo_taken(s) == s,
        convo_opened(convo_taken(s)) is Stay,
        convo_taken(s).state == s.state && convo_taken(s).tabs == s.tabs,
{
}

/// The header picture and the banner are asked for where they are wanted, not at
/// hand and not under way, and nothing else is.
pub proof fn lemma_header_pictures(
    a: ProfileScreen,
    b: ProfileScreen,
    avatar_cached: bool,
    banner_cached: bool,
    has_worker: bool,
    reqs: Seq<WorkRequest>,
)
    requires
        pictures_asked(a, b, avatar_cached, banner_cached, has_worker, reqs),
    ensures
        !has_worker ==> reqs.len() == 0 && b == a,
        forall|i: int|
            0 <= i < reqs.len() ==> (#[trigger] reqs[i] is FetchImage && (Some(
                reqs[i]->FetchImage_url@,
            ) == avatar_of(a.state) || Some(reqs[i]->FetchImage_url@) == banner_of(a.state))),
        avatar_cached && banner_cached ==> reqs.len() == 0,
        has_worker && !avatar_cached && avatar_of(a.state) is Some && opt_view(a.inflight_avatar)
            != avatar_of(a.state) ==> reqs.len() > 0 && (reqs[0] matches WorkRequest::FetchImage {
            url,
        } && Some(url@) == avatar_of(a.state)) && opt_view(b.inflight_avatar) == avatar_of(
            a.state,
        ),
        has_worker && !banner_cached && banner_of(a.state) is Some && opt_view(a.inflight_banner)
            != banner_of(a.state) ==> reqs.len() > 0 && (reqs.last() matches
            WorkRequest::FetchImage { url } && Some(url@) == banner_of(a.state)) && opt_view(
            b.inflight_banner,
        ) == banner_of(a.state),
        a.state matches ProfileState::Loaded(p) ==> {
            &&& p.avatar matches Some(u) ==> avatar_of(a.state) == Some(thumbnail_url(u@))
            &&& p.avatar is None ==> avatar_of(a.state) is None
            &&& p.banner matches Some(u) ==> banner_of(a.state) == Some(jpeg_url(u@))
            &&& p.banner is None ==> banner_of(a.state) is None
        },
        b.state == a.state && b.tabs == a.tabs,
{
    let f = fetched(reqs);
    assert(f.len() == reqs.len());
    assert forall|i: int| 0 <= i < reqs.len() implies (#[trigger] reqs[i] is FetchImage && (Some(
        reqs[i]->FetchImage_url@,
    ) == avatar_of(a.state) || Some(reqs[i]->FetchImage_url@) == banner_of(a.state))) by {
        assert(f[i] == reqs[i]->FetchImage_url@);
    }
    if reqs.len() > 0 {
        assert(f[0] == reqs[0]->FetchImage_url@);
        assert(f[reqs.len() - 1] == reqs.last()->FetchImage_url@);
    }
}

// ── Buttons ────────────────────────────────────────────────────────────

/// Two clicks on the log-out button within three seconds log out; one never
/// does, and a click that comes too late counts as a first one.
pub proof fn lemma_logging_out(
    s: ProfileScreen,
    touches: Seq<TouchPoint>,
    scroll: int,
    now: u64,
    later: u64,
)
    ensures
        logout_confirmed(s, touches, scroll, now) ==> {
            &&& s.logout.btn.pressed_last && touches.len() == 0
            &&& s.logout.armed_at matches Some(t) && now < t + 3_000_000_000
        },
        s.logout.armed_at is None ==> !logout_confirmed(s, touches, scroll, now),
        logout_hit(s, touches, scroll) && s.logout.armed_at is None ==> logout_followed(
            s,
            touches,
            scroll,
            now,
        ).logout.armed_at == Some(now),
        !logout_hit(s, touches, scroll) ==> logout_followed(
            s,
            touches,
            scroll,
            now,
        ).logout.armed_at == s.logout.armed_at && !logout_confirmed(s, touches, scroll, now),
        s.logout.armed_at matches Some(t) ==> logout_hit(s, touches, scroll) && later >= t
            + 3_000_000_000 ==> !logout_confirmed(s, touches, scroll, later) && logout_followed(
            s,
            touches,
            scroll,
            later,
        ).logout.armed_at == Some(later),
        s.logout.armed_at matches Some(t) ==> logout_hit(s, touches, scroll) && t <= later < t
            + 3_000_000_000 ==> logout_confirmed(s, touches, scroll, later),
        logout_followed(s, touches, scroll, now).state == s.state && logout_followed(
            s,
            touches,
            scroll,
            now,
        ).tabs == s.tabs,
{
}

/// The message button asks for the conversation with the account that is shown,
/// and with nobody else, and not while one is being opened.
pub proof fn lemma_message_button(
    a: ProfileScreen,
    b: ProfileScreen,
    touches: Seq<TouchPoint>,
    scroll: int,
    has_worker: bool,
    request: Option<WorkRequest>,
)
    requires
        message_followed(a, b, touches, scroll, has_worker, request),
    ensures
        request matches Some(q) ==> {
            &&& q is GetConvoForMembers
            &&& a.state is Loaded
            &&& q->members@.len() == 1
            &&& a.state matches ProfileState::Loaded(p) && q->members@[0] == p.did
            &&& a.contact.message_btn.pressed_last && touches.len() == 0 && !a.contact.messaging
            &&& b.contact.messaging && b.contact.dm_error is None
            &&& has_worker
        },
        a.state is Loaded && has_worker && a.contact.message_btn.pressed_last && touches.len() == 0
            && !a.contact.messaging ==> request is Some,
        request is None ==> b.contact.messaging == a.contact.messaging && b.contact.dm_error
            == a.contact.dm_error,
        b.state == a.state && b.tabs == a.tabs && b.contact.pending_open_convo
            == a.contact.pending_open_convo,
{
}

/// The follow button follows or unfollows the account that is shown; without a
/// click nothing is asked for and nothing changes.
pub proof fn lemma_follow_button(
    a: ProfileScreen,
    b: ProfileScreen,
    touches: Seq<TouchPoint>,
    scroll: int,
    has_worker: bool,
    request: Option<WorkRequest>,
)
    requires
        follow_followed(a, b, touches, scroll, has_worker, request),
    ensures
        ({
            let hit = has_worker && a.contact.follow_btn.pressed_last && touches.len() == 0
                && a.state is Loaded;
            &&& hit ==> follow_toggled(a.state, b.state) && (a.state matches ProfileState::Loaded(
                p,
            ) && follow_request_is(request, *p)) && followed(b.state) == !followed(a.state)
            &&& !hit ==> request is None && b.state == a.state
        }),
        b.tabs == a.tabs && b.contact.messaging == a.contact.messaging && b.actor == a.actor,
{
}

/// A tap on the banner shows it on the whole display, and the circle or another
/// tap closes it again; nothing of the profile changes by that.
pub proof fn lemma_banner_opens_and_closes(
    s: ProfileScreen,
    pad: PadFrame,
    touches: Seq<TouchPoint>,
    scroll: int,
    cached: bool,
)
    ensures
        banner_opens(s, touches, scroll, cached) ==> banner_followed(
            s,
            touches,
            scroll,
            cached,
        ).banner.viewing && s.banner.open_btn.pressed_last && touches.len() == 0,
        !banner_opens(s, touches, scroll, cached) ==> banner_followed(
            s,
            touches,
            scroll,
            cached,
        ).banner.viewing == s.banner.viewing,
        s.state is Loaded && s.banner.open_btn.pressed_last && touches.len() == 0 ==> banner_opens(
            s,
            touches,
            scroll,
            cached,
        ),
        !cached ==> !banner_followed(s, touches, scroll, cached).banner.open_btn.pressed_last || !(
        s.state is Loaded),
        pad.circle ==> !overlay_followed(s, pad, touches).banner.viewing,
        s.banner.close_btn.pressed_last && touches.len() == 0 ==> !overlay_followed(
            s,
            pad,
            touches,
        ).banner.viewing,
        !pad.circle && touches.len() > 0 ==> overlay_followed(s, pad, touches).banner.viewing
            == s.banner.viewing,
        overlay_followed(s, pad, touches).state == s.state && banner_followed(
            s,
            touches,
            scroll,
            cached,
        ).state == s.state,
        overlay_followed(s, pad, touches).tabs == s.tabs && banner_followed(
            s,
            touches,
            scroll,
            cached,
        ).tabs == s.tabs,
{
}

/// On a profile the left shoulder likes, the triangle reposts and the right
/// shoulder replies to the selected post of the sub-tab that is shown, and
/// nothing happens on a sub-tab without posts.
pub proof fn lemma_profile_buttons(
    a: ProfileScreen,
    b: ProfileScreen,
    pad: PadFrame,
    has_worker: bool,
    out: PadOutcome,
)
    requires
        a.wf(),
        buttons_followed(a, b, pad, has_worker, out),
    ensures
        a.tabs.active_list() is None || !(a.state is Loaded) ==> b == a && out.like_request is None
            && out.repost_request is None && out.push is None,
        a.tabs.active_list() matches Some(l) ==> a.state is Loaded ==> {
            let sel = l.selected_idx as int;
            let some = sel < l.posts@.len();
            &&& pad.l1 && has_worker && some ==> toggle_request_is(
                out.like_request,
                l.posts@[sel].post,
                EngagementKind::Like,
            )
            &&& !pad.l1 || !has_worker || !some ==> out.like_request is None
            &&& pad.triangle && has_worker && some ==> toggle_request_is(
                out.repost_request,
                l.posts@[sel].post,
                EngagementKind::Repost,
            )
            &&& !pad.triangle || !has_worker || !some ==> out.repost_request is None
            &&& pad.r1 && some ==> (out.push matches Some(NextScreen::Compose {
                reply: Some(t),
                handle: Some(h),
            }) && t.parent_uri == l.posts@[sel].post.uri && t.parent_cid == l.posts@[sel].post.cid
                && h == l.posts@[sel].post.author.handle)
            &&& !pad.r1 || !some ==> out.push is None
            &&& b.tabs.active_list() matches Some(m) && m.selected_idx == l.selected_idx
                && posts_marked(
                l.posts@,
                m.posts@,
                sel,
                pad.l1 && has_worker,
                pad.triangle && has_worker,
            )
            &&& b.tabs.active == a.tabs.active && b.tabs.feeds == a.tabs.feeds
        },
        b.state == a.state && b.contact == a.contact,
{
}

/// Somebody else's profile is left by the circle, the reader's own by the bar.
pub proof fn lemma_profile_is_left(
    a: ProfileScreen,
    b: ProfileScreen,
    pad: PadFrame,
    touches: Seq<TouchPoint>,
    action: ScreenAction,
)
    requires
        profile_left(a, b, pad, touches, action),
    ensures
        a.actor is Some ==> (action is Pop <==> pad.circle) && (action is Stay <==> !pad.circle)
            && b == a,
        a.actor is None ==> action is Stay || action is SwitchTab,
        a.actor is None && touches.len() > 0 ==> action is Stay,
        b.state == a.state && b.tabs == a.tabs,
{
}

// ── Sub-tabs ───────────────────────────────────────────────────────────

/// The first page of a sub-tab is asked for when it is first shown, once the
/// account is known, and then never again; and for the account that is shown.
pub proof fn lemma_shown_tab_is_asked(
    a: ProfileScreen,
    b: ProfileScreen,
    has_worker: bool,
    request: Option<WorkRequest>,
)
    requires
        tab_asked(a, b, has_worker, request),
    ensures
        request is Some <==> has_worker && a.resolved_did is Some && !a.tabs.was_asked(
            a.tabs.active,
        ),
        request matches Some(q) ==> tab_request_is(q, a.tabs.active, a.resolved_did->0@, None)
            && b.tabs.was_asked(a.tabs.active) && b.tabs.is_fetching(a.tabs.active),
        request is None ==> b == a,
        b.tabs.active == a.tabs.active && b.state == a.state,
        forall|t: ProfileTab|
            t != a.tabs.active ==> #[trigger] b.tabs.was_asked(t) == a.tabs.was_asked(t),
{
}

/// The next page of a sub-tab is asked for from where its last one ended, as
/// soon as less than 600 pixels of it lie below the display, where there is one
/// and none is under way.
pub proof fn lemma_next_tab_page(
    a: ProfileScreen,
    b: ProfileScreen,
    scroll: int,
    has_worker: bool,
    request: Option<WorkRequest>,
)
    requires
        page_asked(a, b, scroll, has_worker, request),
    ensures
        ({
            let t = a.tabs.active;
            let end = if a.actor is None {
                484int
            } else {
                544
            };
            let below = 414 + tab_height(a.tabs) - (scroll + end);
            &&& request is Some <==> has_worker && a.resolved_did is Some && below <= 600
                && !a.tabs.is_fetching(t) && a.tabs.cursor_of(t) is Some
            &&& request matches Some(q) ==> tab_request_is(
                q,
                t,
                a.resolved_did->0@,
                a.tabs.cursor_of(t),
            ) && b.tabs.is_fetching(t)
            &&& request is None ==> b == a
        }),
        b.tabs.active == a.tabs.active && b.state == a.state,
{
}

/// Left and right go to the sub-tab beside the one that is shown, round at the
/// ends, and change nothing else.
pub proof fn lemma_left_and_right(s: ProfileScreen, pad: PadFrame, i: int)
    requires
        0 <= i < tabs_shown(s.own()).len(),
        s.tabs.active == tabs_shown(s.own())[i],
        s.state is Loaded,
    ensures
        ({
            let tabs = tabs_shown(s.own());
            let n = tabs.len() as int;
            let t = cycled(s, pad).tabs.active;
            &&& pad.left && !pad.right ==> t == tabs[if i == 0 {
                n - 1
            } else {
                i - 1
            }]
            &&& pad.right && !pad.left ==> t == tabs[if i == n - 1 {
                0
            } else {
                i + 1
            }]
            &&& !pad.left && !pad.right ==> t == s.tabs.active
            &&& pad.left && pad.right ==> t == s.tabs.active
            &&& cycled(s, pad).state == s.state
            &&& cycled(s, pad).tabs.posts == s.tabs.posts
        }),
{
    let own = s.own();
    let tabs = tabs_shown(own);
    assert(tabs[0] == ProfileTab::Posts && tabs[1] == ProfileTab::Replies && tabs[2]
        == ProfileTab::Media);
    if own {
        assert(tabs[3] == ProfileTab::Likes && tabs[4] == ProfileTab::Feeds && tabs[5]
            == ProfileTab::Lists && tabs[6] == ProfileTab::Packs);
    } else {
        assert(tabs[3] == ProfileTab::Feeds && tabs[4] == ProfileTab::Lists && tabs[5]
            == ProfileTab::Packs);
    }
    assert(tab_place(s.tabs.active, own) == i);
    lemma_cycle(s.tabs.active, own);
}

/// Before the profile is there, left and right do nothing.
pub proof fn lemma_no_cycling_before_profile(s: ProfileScreen, pad: PadFrame)
    requires
        !(s.state is Loaded),
    ensures
        cycled(s, pad) == s,
{
}

/// What stands in place of the rows tells the truth of the sub-tab that is
/// shown: its error with the reason, that it is loading, that it is empty; and
/// there is nothing in their place where there are rows.
pub proof fn lemma_note_tells(t: ProfileTabs, r: Option<TabNote>)
    requires
        note_is(t, r),
    ensures
        t.active == ProfileTab::Posts ==> {
            &&& r is None <==> t.posts.error is None && t.posts.list.posts@.len() > 0
            &&& t.posts.error matches Some(e) ==> r->0.headline@ == "Could not load "@ + "posts"@
                && r->0.detail == Some(e)
            &&& t.posts.error is None && t.posts.list.posts@.len() == 0 && t.posts.fetching
                ==> r->0.headline@ == "Loading "@ + "posts"@ + "…"@
            &&& t.posts.error is None && t.posts.list.posts@.len() == 0 && !t.posts.fetching
                ==> r->0.headline@ == "No "@ + "posts"@ + " yet."@
        },
        t.active == ProfileTab::Feeds ==> {
            &&& r is None <==> t.feeds.error is None && t.feeds.items@.len() > 0
            &&& t.feeds.error matches Some(e) ==> r->0.headline@ == "Could not load "@ + "feeds"@
                && r->0.detail == Some(e)
            &&& t.feeds.error is None && t.feeds.items@.len() == 0 && !t.feeds.fetching
                ==> r->0.headline@ == "No "@ + "feeds"@ + " yet."@
        },
        t.active == ProfileTab::Lists ==> {
            &&& r is None <==> t.lists.error is None && t.lists.items@.len() > 0
            &&& t.lists.error matches Some(e) ==> r->0.headline@ == "Could not load "@ + "lists"@
                && r->0.detail == Some(e)
        },
        t.active == ProfileTab::Packs ==> {
            &&& r is None <==> t.packs.error is None && t.packs.items@.len() > 0
            &&& t.packs.error matches Some(e) ==> r->0.headline@ == "Could not load "@
                + "starter packs"@ && r->0.detail == Some(e)
        },
        t.active == ProfileTab::Replies ==> (r is None <==> t.replies.error is None
            && t.replies.list.posts@.len() > 0),
        t.active == ProfileTab::Media ==> (r is None <==> t.media.error is None
            && t.media.list.posts@.len() > 0),
        t.active == ProfileTab::Likes ==> (r is None <==> t.likes.error is None
            && t.likes.list.posts@.len() > 0),
{
}

/// Likes that are kept private are said to be private; every other error of a
/// sub-tab is shown in the server's words.
pub proof fn lemma_tab_errors(tab: ProfileTab, e: Seq<char>)
    ensures
        tab != ProfileTab::Likes ==> tab_error(tab, e) == e,
        !contains_text(e, "Profile not found"@) ==> tab_error(tab, e) == e,
        tab == ProfileTab::Likes && contains_text(e, "Profile not found"@) ==> tab_error(tab, e)
            == "This user's likes aren't visible."@,
{
}

proof fn lemma_tab_chosen(
    s: ProfileScreen,
    widths: Seq<i32>,
    touches: Seq<TouchPoint>,
    scroll: int,
    n: int,
    k: int,
)
    requires
        0 <= n,
    ensures
        ({
            let t = s.tab_chosen(widths, touches, scroll, n);
            &&& t == s.tabs.active || exists|i: int|
                0 <= i < n && t == #[trigger] tabs_shown(s.own())[i] && s.tab_fires(
                    widths,
                    touches,
                    scroll,
                    i,
                )
            &&& t == s.tabs.active && 0 <= k < n ==> !s.tab_fires(widths, touches, scroll, k)
        }),
    decreases n,
{
    if n > 0 {
        lemma_tab_chosen(s, widths, touches, scroll, n - 1, k);
        if s.tab_fires(widths, touches, scroll, n - 1) {
            assert(s.tab_chosen(widths, touches, scroll, n) == tabs_shown(s.own())[n - 1]);
        }
    }
}

/// The strip shows each sub-tab under its own pill, marks the one that is shown,
/// and a click on a pill shows that pill's sub-tab. A strip that is not touched
/// changes nothing.
pub proof fn lemma_strip_shows_tabs(
    a: ProfileScreen,
    b: ProfileScreen,
    widths: Seq<i32>,
    touches: Seq<TouchPoint>,
    scroll: int,
    pills: Seq<TabPill>,
    k: int,
)
    requires
        strip_tracked(a, b, widths, touches, scroll, pills),
        widths.len() == tabs_shown(a.own()).len(),
        0 <= k < widths.len(),
    ensures
        pills.len() == tabs_shown(a.own()).len(),
        pills[k].tab == tabs_shown(a.own())[k],
        pills[k].active <==> pills[k].tab == a.tabs.active,
        b.tabs.active != a.tabs.active ==> touches.len() == 0 && exists|i: int|
            0 <= i < pills.len() && b.tabs.active == (#[trigger] pills[i]).tab
                && a.tab_pill_btns@[i].pressed_last,
        touches.len() == 0 && a.tab_pill_btns@[k].pressed_last && !pills[k].active
            ==> b.tabs.active != a.tabs.active,
        b.tabs.posts == a.tabs.posts && b.tabs.feeds == a.tabs.feeds && b.state == a.state,
        b.tab_pill_btns@[k].pressed_last == touched(touches, tab_pill_rect(widths, k, scroll)),
{
    lemma_tab_chosen(a, widths, touches, scroll, widths.len() as int, k);
    let t = b.tabs.active;
    if t != a.tabs.active {
        let i = choose|i: int|
            0 <= i < widths.len() && t == #[trigger] tabs_shown(a.own())[i] && a.tab_fires(
                widths,
                touches,
                scroll,
                i,
            );
        assert(pills[i].tab == t);
    }
}

/// Each sub-tab is named for what it holds.
pub proof fn lemma_tab_names()
    ensures
        tab_word(ProfileTab::Posts) == "Posts"@,
        tab_word(ProfileTab::Replies) == "Replies"@,
        tab_word(ProfileTab::Media) == "Media"@,
        tab_word(ProfileTab::Likes) == "Likes"@,
        tab_word(ProfileTab::Feeds) == "Feeds"@,
        tab_word(ProfileTab::Lists) == "Lists"@,
        tab_word(ProfileTab::Packs) == "Packs"@,
{
}

/// The strip lies below the header, moves up with the content and then stays at
/// the top; the content shows below it, and on the reader's own profile above
/// the bar.
pub proof fn lemma_strip_and_content(own: bool, scroll: int)
    requires
        0 <= scroll,
    ensures
        scroll <= 374 ==> strip_y(scroll) == 374 - scroll,
        scroll > 374 ==> strip_y(scroll) == 0,
        content_band(own, scroll).0 == strip_y(scroll) + 40,
        content_band(own, scroll).1 == if own {
            484int
        } else {
            544
        },
        content_y(scroll) == 414 - scroll,
        scroll <= 374 ==> content_y(scroll) == content_band(own, scroll).0,
{
}

proof fn lemma_item_tapped(
    n: int,
    origin: int,
    band: (int, int),
    touches: Seq<TouchPoint>,
    from: int,
    k: int,
)
    requires
        0 <= from,
    ensures
        item_tapped(n, origin, band, touches, from) matches Some(i) ==> from <= i < n && touched(
            touches,
            crate::profile::item_rect(origin, i),
        ) && in_band(origin + 80 * i, 80, band.0, band.1),
        item_tapped(n, origin, band, touches, from) is None && from <= k < n && in_band(
            origin + 80 * k,
            80,
            band.0,
            band.1,
        ) ==> !touched(touches, crate::profile::item_rect(origin, k)),
    decreases n - from,
{
    if from < n {
        lemma_item_tapped(n, origin, band, touches, from + 1, k);
    }
}

/// A tap on a custom feed opens that very feed; lists and packs open nothing.
pub proof fn lemma_feed_tap_opens_feed(
    s: ProfileScreen,
    touches: Seq<TouchPoint>,
    scroll: int,
    k: int,
)
    ensures
        ({
            let band = content_band(s.own(), scroll);
            let seen = touches_between(touches, band.0, band.1);
            let action = feed_opened(s, touches, scroll);
            &&& s.tabs.active != ProfileTab::Feeds ==> action is Stay
            &&& action is Stay || (action matches ScreenAction::Push(NextScreen::Feed { uri })
                && exists|i: int|
                0 <= i < s.tabs.feeds.items@.len() && uri == (
                #[trigger] s.tabs.feeds.items@[i]).uri && touched(
                    seen,
                    crate::profile::item_rect(content_y(scroll), i),
                ))
            &&& action is Stay && s.tabs.active == ProfileTab::Feeds && 0 <= k
                < s.tabs.feeds.items@.len() && in_band(
                content_y(scroll) + 80 * k,
                80,
                band.0,
                band.1,
            ) ==> !touched(seen, crate::profile::item_rect(content_y(scroll), k))
        }),
{
    let band = content_band(s.own(), scroll);
    let seen = touches_between(touches, band.0, band.1);
    let n = s.tabs.feeds.items@.len() as int;
    lemma_item_tapped(n, content_y(scroll), band, seen, 0, k);
    let hit = item_tapped(n, content_y(scroll), band, seen, 0);
    if hit is Some {
        assert(s.tabs.feeds.items@[hit->0].uri == s.tabs.feeds.items@[hit->0].uri);
    }
}

/// A tap on a post of the sub-tab that is shown is followed there, and nowhere
/// else; a sub-tab without posts has none to tap.
pub proof fn lemma_post_tap_stays_in_tab(
    a: ProfileScreen,
    b: ProfileScreen,
    tap: Option<TapAction>,
    has_worker: bool,
    request: Option<WorkRequest>,
    action: ScreenAction,
)
    requires
        tap_followed(a, b, tap, has_worker, request, action),
    ensures
        b.state == a.state && b.contact == a.contact && b.tabs.active == a.tabs.active,
        a.tabs.active_list() matches Some(l) ==> PostList::tap_followed(
            l,
            b.tabs.active_list()->0,
            tap,
            has_worker,
            request,
        ) && action == tap_opens(tap),
        a.tabs.active_list() is None ==> b == a && request is None && action is Stay,
        a.tabs.active != ProfileTab::Posts ==> b.tabs.posts == a.tabs.posts,
        a.tabs.active != ProfileTab::Likes ==> b.tabs.likes == a.tabs.likes,
        a.tabs.active != ProfileTab::Replies ==> b.tabs.replies == a.tabs.replies,
        a.tabs.active != ProfileTab::Media ==> b.tabs.media == a.tabs.media,
{
}

/// The pictures that are asked for are those that are wanted and not at hand.
pub proof fn lemma_missing_pictures(urls: Seq<Seq<char>>, cached: Seq<bool>, n: int, k: int)
    requires
        0 <= k < n <= urls.len(),
    ensures
        !cached[k] ==> not_at_hand(urls, cached, n).contains(urls[k]),
        forall|u: Seq<char>| #[trigger]
            not_at_hand(urls, cached, n).contains(u) ==> exists|i: int|
                0 <= i < n && !cached[i] && #[trigger] urls[i] == u,
    decreases n,
{
    let before = not_at_hand(urls, cached, n - 1);
    let now = not_at_hand(urls, cached, n);
    if n > 1 {
        lemma_missing_pictures(
            urls,
            cached,
            n - 1,
            if k < n - 1 {
                k
            } else {
                0
            },
        );
    }
    if !cached[k] {
        if k == n - 1 {
            assert(now.last() == urls[k]);
        } else {
            let j = choose|j: int| 0 <= j < before.len() && before[j] == urls[k];
            assert(now[j] == urls[k]);
        }
    }
    assert forall|u: Seq<char>| #[trigger] now.contains(u) implies exists|i: int|
        0 <= i < n && !cached[i] && #[trigger] urls[i] == u by {
        let j = choose|j: int| 0 <= j < now.len() && now[j] == u;
        if j < before.len() {
            assert(before[j] == u);
            assert(before.contains(u));
        } else {
            assert(urls[n - 1] == u);
        }
    }
}

// ── Words ──────────────────────────────────────────────────────────────

/// Why a conversation could not be opened is said in words that fit the reason,
/// and only on somebody else's profile.
pub proof fn lemma_message_problem_told(s: ProfileScreen, e: Seq<char>)
    ensures
        has_prefix(e, "DM_SCOPE:"@) ==> dm_problem(e) == "This app password can't access DMs."@,
        !has_prefix(e, "DM_SCOPE:"@) && contains_text(e, "NotFollowedBySender"@) ==> dm_problem(e)
            == "They only accept DMs from people they follow."@,
        !has_prefix(e, "DM_SCOPE:"@) && !contains_text(e, "NotFollowedBySender"@) && (contains_text(
            e,
            "Recipient"@,
        ) || contains_text(e, "disabled"@) || contains_text(e, "cannot"@)) ==> dm_problem(e)
            == "This user isn't accepting messages."@,
        s.actor is None ==> toast_of(s) is None,
        s.actor is Some ==> (s.contact.dm_error matches Some(m) ==> toast_of(s) == Some(
            dm_problem(m@),
        )),
        s.contact.dm_error is None ==> toast_of(s) is None,
{
}

/// The months by their names, in order.
pub proof fn lemma_months(m: int)
    ensures
        month_name(m) is Some <==> 1 <= m <= 12,
        month_name(1) == Some("Jan"@) && month_name(2) == Some("Feb"@) && month_name(3) == Some(
            "Mar"@,
        ) && month_name(4) == Some("Apr"@),
        month_name(5) == Some("May"@) && month_name(6) == Some("Jun"@) && month_name(7) == Some(
            "Jul"@,
        ) && month_name(8) == Some("Aug"@),
        month_name(9) == Some("Sep"@) && month_name(10) == Some("Oct"@) && month_name(11) == Some(
            "Nov"@,
        ) && month_name(12) == Some("Dec"@),
{
}

/// Below the name stands the handle, with the pronouns behind it where there are
/// any; the counters stand under what they count.
pub proof fn lemma_profile_lines(p: ProfileDetail)
    ensures
        p.pronouns is None ==> handle_line_of(p) == "@"@ + p.handle@,
        p.pronouns matches Some(w) ==> (w@.len() > 0 ==> handle_line_of(p) == "@"@ + p.handle@
            + " ("@ + w@ + ")"@) && (w@.len() == 0 ==> handle_line_of(p) == "@"@ + p.handle@),
        p.posts_count matches Some(n) ==> p.followers_count matches Some(f) ==> p.follows_count
            matches Some(g) ==> counts_of(p) == decimal_int(n as int) + " posts     "@
            + decimal_int(f as int) + " followers     "@ + decimal_int(g as int)
            + " following"@,
        p.posts_count is None && p.followers_count is None && p.follows_count is None
            ==> counts_of(p) == decimal_int(0) + " posts     "@ + decimal_int(0)
            + " followers     "@ + decimal_int(0) + " following"@,
{
}

/// The line below the counters tells what is known: when the account was made,
/// its website, and through whose pack it came, in this order.
pub proof fn lemma_meta_line(p: ProfileDetail)
    ensures
        p.created_at is None && p.website is None && p.joined_via is None ==> meta_parts(p).len()
            == 0,
        p.joined_via matches Some(h) ==> meta_parts(p).len() > 0 && meta_parts(p).last() == "via @"@
            + h@ + "'s pack"@,
        p.created_at is None && p.joined_via is None ==> (p.website matches Some(w) ==> w@.len() > 0
            ==> meta_parts(p) =~= seq![bare_site(w@)]),
        p.created_at matches Some(d) ==> crate::profile_text::month_year(d@) matches Some(j)
            ==> meta_parts(p).len() > 0 && meta_parts(p)[0] == "Joined "@ + j,
{
}

/// A website is shown without its scheme, and one without a scheme as it is.
pub proof fn lemma_site_without_scheme(rest: Seq<char>)
    requires
        !has_prefix(rest, "https://"@),
        !has_prefix(rest, "http://"@),
    ensures
        bare_site(rest) == rest,
        bare_site("https://"@ + rest) == rest,
        bare_site("http://"@ + rest) == rest,
{
    reveal_strlit("https://");
    reveal_strlit("http://");
    let s = "https://"@ + rest;
    assert(s.take(8) =~= "https://"@);
    assert(s.subrange(8, s.len() as int) =~= rest);
    assert(stripped(s, "https://"@) == stripped(rest, "https://"@));
    let t = "http://"@ + rest;
    assert(t.take(7) =~= "http://"@);
    assert(t.subrange(7, t.len() as int) =~= rest);
    assert(t[4] == ':');
    if has_prefix(t, "https://"@) {
        assert(t.take(8)[4] == t[4]);
        assert("https://"@[4] == 's');
    }
    assert(stripped(t, "http://"@) == stripped(rest, "http://"@));
}

/// Parts are told one behind the other with the separator between them, each
/// word for word.
pub proof fn lemma_parts_joined(parts: Seq<Seq<char>>, last: Seq<char>, sep: Seq<char>)
    ensures
        joined(seq![last], sep) == last,
        joined(Seq::<Seq<char>>::empty(), sep).len() == 0,
        parts.len() > 0 ==> joined(parts.push(last), sep) == joined(parts, sep) + sep + last,
{
    assert(parts.push(last).drop_last() =~= parts);
}

} // verus!
