//! What a whole frame of a screen leads to, by what was touched and pressed.

use vstd::prelude::*;

#[allow(unused_imports)]
use crate::cdn::thumbnail_url;
#[allow(unused_imports)]
use crate::compose::{ComposeScreen, HeaderOutcome, StripOutcome};
#[allow(unused_imports)]
use crate::compose_frame::{edit_steps, edited, ComposeEdit, ComposeStart};
#[allow(unused_imports)]
use crate::conversation::ImeEvent;
#[allow(unused_imports)]
use crate::conversations::{face_of, face_urls, ConversationListScreen};
#[allow(unused_imports)]
use crate::engagement::{pending_uri, toggle_request_is, EngagementKind};
#[allow(unused_imports)]
use crate::file_picker::FilePicker;
#[allow(unused_imports)]
use crate::images::{asked_for, fetched};
#[allow(unused_imports)]
use crate::interaction_laws::own_follow;
#[allow(unused_imports)]
use crate::model::{ConvoView, FeedPost, Notification};
#[allow(unused_imports)]
use crate::notifications::{notif_urls, tap_action, ListStart, NotificationsScreen};
#[allow(unused_imports)]
use crate::picker_frame::{shortcut_steps, shortcuts_followed};
#[allow(unused_imports)]
use crate::post_list::{tap_opens, PostList};
#[allow(unused_imports)]
use crate::post_row::TapAction;
#[allow(unused_imports)]
use crate::profile::{
    convo_opened, item_picture, item_urls, logout_confirmed, profile_request, ProfileScreen,
    ProfileState,
};
#[allow(unused_imports)]
use crate::profile_frame::{
    contact_steps, content_steps, head_followed, pad_steps, pads_followed, ProfileEnd, ProfileHead,
    ProfileInput, ProfilePads, ProfileStart,
};
#[allow(unused_imports)]
use crate::profile_tabs::{ProfileTab, ProfileTabs};
#[allow(unused_imports)]
use crate::requests::{sent, SavedFeedPin, WorkRequest};
#[allow(unused_imports)]
use crate::rows::{in_band, VisibleRow};
#[allow(unused_imports)]
use crate::screen::{bar_followed, NextScreen, ScreenAction};
#[allow(unused_imports)]
use crate::tabbar::{TabBar, TopLevel};
#[allow(unused_imports)]
use crate::text::after_last;
#[allow(unused_imports)]
use crate::thread::{avatar_urls, ThreadEnd, ThreadInput, ThreadScreen, ThreadState};
#[allow(unused_imports)]
use crate::timeline::{pin_urls, FeedEnd, FeedInput, PadOutcome, TimelineScreen, TimelineState};
#[allow(unused_imports)]
use crate::video::PlayerState;
#[allow(unused_imports)]
use crate::video_player::{state_word, VideoInput, VideoPlayerScreen, VideoStart, VideoState};
#[allow(unused_imports)]
use crate::widget::{touches_between, PadFrame, TouchPoint};

verus! {

/// Some cell of the bar other than the shown tab's was touched and let go of.
pub open spec fn cell_let_go(bar: TabBar, touches: Seq<TouchPoint>) -> bool {
    touches.len() == 0 && ((bar.home.pressed_last && bar.active != TopLevel::Home) || (
    bar.search.pressed_last && bar.active != TopLevel::Search) || (bar.notifications.pressed_last
        && bar.active != TopLevel::Notifications) || (bar.profile.pressed_last && bar.active
        != TopLevel::Profile))
}

proof fn lemma_bar_answers(a: TabBar, b: TabBar, touches: Seq<TouchPoint>, action: ScreenAction)
    requires
        bar_followed(a, b, touches, action),
    ensures
        action is SwitchTab <==> cell_let_go(a, touches),
        action is SwitchTab || action is Stay,
{
    crate::feed_laws::lemma_cells_go_where_they_say(a, b, touches, action);
}

/// A tap does to a post what it says: it opens what it hit, or asks for the mark
/// of that very post.
pub open spec fn tap_answered(
    list: PostList,
    tap: Option<TapAction>,
    has_worker: bool,
    request: Option<WorkRequest>,
    action: ScreenAction,
) -> bool {
    &&& action == tap_opens(tap)
    &&& match tap {
        Some(TapAction::ToggleLike(i)) => if has_worker && i < list.posts@.len() {
            toggle_request_is(request, list.posts@[i as int].post, EngagementKind::Like)
        } else {
            request is None
        },
        Some(TapAction::ToggleRepost(i)) => if has_worker && i < list.posts@.len() {
            toggle_request_is(request, list.posts@[i as int].post, EngagementKind::Repost)
        } else {
            request is None
        },
        _ => request is None,
    }
}

// ── Feeds ──────────────────────────────────────────────────────────────

/// The end of a frame of a feed. A feed that was opened on top goes away with the
/// circle and has no pills; the home timeline is left by its bar. Else a tap on
/// the list, between the pills and the bar, does what it says to the post it hit.
pub proof fn lemma_feed_frame_ends(
    a: TimelineScreen,
    b: TimelineScreen,
    input: FeedInput,
    out: FeedEnd,
)
    requires
        crate::timeline::frame_ended(a, b, input, out),
    ensures
        out.action is Pop <==> a.is_pushed && input.pad.circle,
        out.action is SwitchTab <==> !a.is_pushed && cell_let_go(a.tab_bar, input.touches),
        a.is_pushed ==> out.pills@.len() == 0 && !out.switched,
        !out.switched ==> b.current_source == a.current_source,
        out.switched ==> b.current_source@ != a.current_source@ && b.state is Loading && !b.dispatched,
        out.action is Pop || out.action is SwitchTab ==> out.request is None,
        !out.switched && !(out.action is Pop) && !(out.action is SwitchTab) ==> match a.state {
            TimelineState::Loaded { list, .. } => exists|tap: Option<TapAction>|
                #[trigger] list.tap_result(
                    tap,
                    touches_between(input.touches, i32::MIN as int, 484),
                    90 - input.scroll,
                    (90, 484),
                    true,
                ) && tap_answered(list, tap, input.has_worker, out.request, out.action),
            _ => out.request is None && out.action is Stay && b.state == a.state,
        },
        b.saved_feeds == a.saved_feeds && b.is_pushed == a.is_pushed,
{
    let (p, tapped, l, way, tap) = choose|
        p: TimelineScreen,
        tapped: Option<usize>,
        l: TimelineScreen,
        way: ScreenAction,
        tap: Option<TapAction>,
    | #[trigger] crate::timeline::end_steps(a, p, tapped, l, way, tap, b, input, out);
    let f = crate::timeline::pill_followed(p, tapped);
    if !a.is_pushed {
        lemma_bar_answers(f.tab_bar, l.tab_bar, input.touches, way);
    }
    if way is Stay && !out.switched {
        if let TimelineState::Loaded { list, .. } = a.state {
            assert(list.tap_result(
                tap,
                touches_between(input.touches, i32::MIN as int, 484),
                90 - input.scroll,
                (90, 484),
                true,
            ));
        }
    }
}

// ── Threads ────────────────────────────────────────────────────────────

/// The end of a frame of a thread: a tap below the heading does what it says to
/// the post it hit, and pictures are asked for only while the thread stays and
/// someone is there to be asked.
pub proof fn lemma_thread_frame_ends(
    a: ThreadScreen,
    b: ThreadScreen,
    input: ThreadInput,
    out: ThreadEnd,
)
    requires
        crate::thread::frame_ended(a, b, input, out),
    ensures
        b.uri == a.uri,
        !input.has_worker ==> out.requests@.len() == 0,
        match a.state {
            ThreadState::Loaded { list, .. } => exists|
                tap: Option<TapAction>,
                request: Option<WorkRequest>,
            |
                list.tap_result(
                    tap,
                    input.touches,
                    40 - input.scroll,
                    (40, 544),
                    false,
                ) && #[trigger] tap_answered(list, tap, input.has_worker, request, out.action)
                    && out.requests@.len() >= sent(request).len() && out.requests@.take(
                    sent(request).len() as int,
                ) == sent(request) && (!(out.action is Stay) ==> out.requests@ == sent(request)),
            _ => out.action is Stay && b.state == a.state && forall|i: int|
                0 <= i < out.requests@.len() ==> #[trigger] out.requests@[i] is FetchImage,
        },
{
    let (tap, m, request, images) = choose|
        tap: Option<TapAction>,
        m: ThreadScreen,
        request: Option<WorkRequest>,
        images: Seq<WorkRequest>,
    | #[trigger] crate::thread::end_steps(a, tap, m, request, images, b, input, out);
    assert((sent(request) + images).take(sent(request).len() as int) =~= sent(request));
    assert(sent(request) + Seq::<WorkRequest>::empty() =~= sent(request));
    if !(out.action is Stay) {
        assert(images =~= Seq::<WorkRequest>::empty());
    }
    match a.state {
        ThreadState::Loaded { list, .. } => {
            assert(tap_answered(list, tap, input.has_worker, request, out.action));
            if !input.has_worker {
                assert(request is None);
            }
        },
        _ => {},
    }
}

// ── Lists ──────────────────────────────────────────────────────────────

/// The end of a frame of the notifications: the bar leads to another tab; else a
/// tap on the list opens what it says. The list stays as it is.
pub proof fn lemma_notifications_frame_ends(
    a: NotificationsScreen,
    b: NotificationsScreen,
    touches: Seq<TouchPoint>,
    scroll: int,
    action: ScreenAction,
)
    requires
        crate::notifications::frame_ended(a, b, touches, scroll, action),
    ensures
        action is SwitchTab <==> cell_let_go(a.tab_bar, touches),
        !cell_let_go(a.tab_bar, touches) ==> action == tap_action(a, touches, scroll),
        b.state == a.state && b.selected_idx == a.selected_idx,
{
    let way = choose|way: ScreenAction|
        #[trigger] bar_followed(a.tab_bar, b.tab_bar, touches, way) && action == (
        if way is Stay {
            tap_action(a, touches, scroll)
        } else {
            way
        });
    lemma_bar_answers(a.tab_bar, b.tab_bar, touches, way);
}

/// The end of a frame of the conversations: the bar leads to another tab; else a
/// tap on the list opens what it says. The list stays as it is.
pub proof fn lemma_conversations_frame_ends(
    a: ConversationListScreen,
    b: ConversationListScreen,
    touches: Seq<TouchPoint>,
    scroll: int,
    action: ScreenAction,
)
    requires
        crate::conversations::frame_ended(a, b, touches, scroll, action),
    ensures
        action is SwitchTab <==> cell_let_go(a.tab_bar, touches),
        !cell_let_go(a.tab_bar, touches) ==> crate::conversations::tap_leads(
            a,
            touches,
            scroll,
            action,
        ),
        b.state == a.state && b.selected_idx == a.selected_idx,
{
    let way = choose|way: ScreenAction|
        #[trigger] bar_followed(a.tab_bar, b.tab_bar, touches, way) && if way is Stay {
            crate::conversations::tap_leads(a, touches, scroll, action)
        } else {
            action == way
        };
    lemma_bar_answers(a.tab_bar, b.tab_bar, touches, way);
}

/// The start of a frame of a list asks for what is due first, moves the selection
/// and lets the list scroll no further than to its last row; a row that was newly
/// selected is brought into view with a margin around it.
pub proof fn lemma_notifications_frame_starts(
    a: NotificationsScreen,
    b: NotificationsScreen,
    pad: PadFrame,
    scroll: int,
    has_worker: bool,
    now: String,
    out: ListStart,
)
    requires
        a.wf(),
        crate::notifications::frame_started(a, b, pad, scroll, has_worker, now, out),
    ensures
        out.requests@ == a.first_requests(has_worker, now),
        !pad.up && !pad.down ==> b.selected_idx == a.selected_idx && out.settle.target is None,
        68 * a.items().len() > 444 ==> out.settle.limit == 68 * a.items().len() - 444,
        68 * a.items().len() <= 444 ==> out.settle.limit == 0,
        out.settle.target matches Some(t) ==> {
            let top = 68 * b.selected_idx;
            &&& 0 <= t
            &&& top >= 50 ==> t <= top - 50
            &&& top + 68 + 50 <= t + 444 || t == 0 || t == top - 50
        },
        b.state == a.state,
{
    let changed = choose|changed: bool|
        #[trigger] crate::notifications::selection_moved(a.begun(has_worker), b, pad, changed)
            && crate::notifications::settled(b, changed, scroll, out.settle);
}

/// The conversations start a frame in the same way.
pub proof fn lemma_conversations_frame_starts(
    a: ConversationListScreen,
    b: ConversationListScreen,
    pad: PadFrame,
    scroll: int,
    has_worker: bool,
    out: ListStart,
)
    requires
        a.wf(),
        crate::conversations::frame_started(a, b, pad, scroll, has_worker, out),
    ensures
        out.requests@ == sent(crate::conversations::first_request(a, has_worker)),
        !pad.up && !pad.down ==> b.selected_idx == a.selected_idx && out.settle.target is None,
        68 * a.items().len() > 444 ==> out.settle.limit == 68 * a.items().len() - 444,
        68 * a.items().len() <= 444 ==> out.settle.limit == 0,
        out.settle.target matches Some(t) ==> {
            let top = 68 * b.selected_idx;
            &&& 0 <= t
            &&& top >= 50 ==> t <= top - 50
            &&& top + 68 + 50 <= t + 444 || t == 0 || t == top - 50
        },
        b.state == a.state,
{
    let changed = choose|changed: bool|
        #[trigger] crate::conversations::selection_moved(
            crate::conversations::begun(a, has_worker),
            b,
            pad,
            changed,
        ) && crate::conversations::settled(b, changed, scroll, out.settle);
}

/// Once a list stands still the next page is asked for where it is due, and then
/// the pictures that are wanted and not at hand; without a worker nothing is.
pub proof fn lemma_notifications_frame_asks(
    a: NotificationsScreen,
    b: NotificationsScreen,
    scroll: int,
    urls: Seq<Seq<char>>,
    cached: Seq<bool>,
    has_worker: bool,
    reqs: Seq<WorkRequest>,
)
    requires
        crate::notifications::frame_asked(a, b, scroll, urls, cached, has_worker, reqs),
    ensures
        !has_worker ==> reqs.len() == 0 && b == a,
        has_worker ==> {
            let page = crate::notifications::page_request(a, scroll, true);
            let n = sent(page).len() as int;
            &&& n <= reqs.len() && reqs.take(n) == sent(page)
            &&& fetched(reqs.skip(n)) == asked_for(
                urls,
                cached,
                a.inflight_avatars@,
                urls.len() as int,
            )
            &&& b.fetching_more == (a.fetching_more || page is Some)
            &&& forall|i: int|
                0 <= i < urls.len() && !cached[i] ==> b.inflight_avatars@.contains(
                    #[trigger] urls[i],
                )
        },
        b.state == a.state && b.selected_idx == a.selected_idx,
{
    if has_worker {
        let images = choose|images: Seq<WorkRequest>|
            #[trigger] crate::notifications::request_steps(a, b, scroll, urls, cached, images, reqs);
        let page = crate::notifications::page_request(a, scroll, true);
        let n = sent(page).len() as int;
        assert(reqs.take(n) =~= sent(page));
        assert(reqs.skip(n) =~= images);
        assert forall|i: int| 0 <= i < urls.len() && !cached[i] implies b.inflight_avatars@.contains(
            #[trigger] urls[i],
        ) by {
            crate::feed_laws::lemma_wanted_pictures_asked(
                urls,
                cached,
                a.inflight_avatars@,
                urls.len() as int,
                i,
            );
        }
    }
}

/// The conversations ask in the same way.
pub proof fn lemma_conversations_frame_asks(
    a: ConversationListScreen,
    b: ConversationListScreen,
    scroll: int,
    urls: Seq<Seq<char>>,
    cached: Seq<bool>,
    has_worker: bool,
    reqs: Seq<WorkRequest>,
)
    requires
        crate::conversations::frame_asked(a, b, scroll, urls, cached, has_worker, reqs),
    ensures
        !has_worker ==> reqs.len() == 0 && b == a,
        has_worker ==> {
            let page = crate::conversations::page_request(a, scroll, true);
            let n = sent(page).len() as int;
            &&& n <= reqs.len() && reqs.take(n) == sent(page)
            &&& fetched(reqs.skip(n)) == asked_for(
                urls,
                cached,
                a.inflight_avatars@,
                urls.len() as int,
            )
            &&& b.fetching_more == (a.fetching_more || page is Some)
            &&& forall|i: int|
                0 <= i < urls.len() && !cached[i] ==> b.inflight_avatars@.contains(
                    #[trigger] urls[i],
                )
        },
        b.state == a.state && b.selected_idx == a.selected_idx,
{
    if has_worker {
        let images = choose|images: Seq<WorkRequest>|
            #[trigger] crate::conversations::request_steps(a, b, scroll, urls, cached, images, reqs);
        let page = crate::conversations::page_request(a, scroll, true);
        let n = sent(page).len() as int;
        assert(reqs.take(n) =~= sent(page));
        assert(reqs.skip(n) =~= images);
        assert forall|i: int| 0 <= i < urls.len() && !cached[i] implies b.inflight_avatars@.contains(
            #[trigger] urls[i],
        ) by {
            crate::feed_laws::lemma_wanted_pictures_asked(
                urls,
                cached,
                a.inflight_avatars@,
                urls.len() as int,
                i,
            );
        }
    }
}

// ── Profiles ───────────────────────────────────────────────────────────

/// The start of a frame of a profile: a conversation that became ready opens and
/// nothing else happens; else the profile is asked for, the shown banner takes
/// the frame, and so does a tap that opens it.
pub proof fn lemma_profile_frame_starts(
    a: ProfileScreen,
    b: ProfileScreen,
    pad: PadFrame,
    touches: Seq<TouchPoint>,
    scroll: int,
    cached: (bool, bool),
    has_worker: bool,
    out: ProfileStart,
)
    requires
        crate::profile_frame::frame_started(
            a,
            b,
            pad,
            touches,
            scroll,
            cached,
            has_worker,
            out,
        ),
    ensures
        a.contact.pending_open_convo matches Some(c) ==> {
            &&& out.action matches ScreenAction::Push(NextScreen::Conversation { convo })
                && convo.id == c.id
            &&& !out.goes_on && out.requests@.len() == 0
            &&& b.contact.pending_open_convo is None
        },
        a.contact.pending_open_convo is None ==> {
            &&& out.action is Stay
            &&& out.banner == a.banner.viewing
            &&& a.banner.viewing ==> !out.goes_on
            &&& b.banner.viewing && !a.banner.viewing ==> !out.goes_on
            &&& has_worker && !a.dispatched ==> out.requests@.len() > 0 && out.requests@[0] == (
            WorkRequest::FetchProfile { actor: a.actor })
            &&& !has_worker ==> out.requests@.len() == 0
        },
        b.tabs == a.tabs && b.state == a.state && b.actor == a.actor,
{
    if convo_opened(a) is Stay {
        let (p, images) = choose|p: ProfileScreen, images: Seq<WorkRequest>| #[trigger]
            crate::profile_frame::start_steps(
                a,
                p,
                b,
                pad,
                touches,
                scroll,
                cached,
                has_worker,
                images,
                out,
            );
        if has_worker && !a.dispatched {
            assert(out.requests@[0] == profile_request(a, has_worker)->0);
        }
        assert(fetched(images).len() == images.len());
    }
}

/// The buttons of a profile ask for marks on the selected post and for nothing
/// else; the view moves only where the selection did.
pub proof fn lemma_profile_pads(
    a: ProfileScreen,
    b: ProfileScreen,
    pad: PadFrame,
    scroll: int,
    has_worker: bool,
    out: ProfilePads,
)
    requires
        pads_followed(a, b, pad, scroll, has_worker, out),
    ensures
        !pad.up && !pad.down ==> out.target is None,
        !pad.l1 && !pad.triangle || !has_worker ==> out.requests@.len() == 0,
        out.requests@.len() <= 2,
        forall|i: int|
            0 <= i < out.requests@.len() ==> (#[trigger] out.requests@[i] is CreateLike
                || out.requests@[i] is DeleteLike || out.requests@[i] is CreateRepost
                || out.requests@[i] is DeleteRepost),
        !pad.r1 ==> out.action is Stay,
        out.action is Stay || out.action is Push,
        out.action matches ScreenAction::Push(n) ==> n is Compose && pad.r1,
        b.state == a.state && b.contact == a.contact && b.logout == a.logout && b.banner
            == a.banner,
{
    let (m, changed, pads) = choose|m: ProfileScreen, changed: bool, pads: PadOutcome| #[trigger]
        pad_steps(a, m, b, pad, scroll, has_worker, changed, pads, out);
}

/// The buttons below somebody else's header: a click on follow asks to follow or
/// unfollow that account, one on message for the conversation with it; then the
/// shown tab is asked for. Nobody is logged out there.
pub proof fn lemma_contact_buttons(
    a: ProfileScreen,
    b: ProfileScreen,
    touches: Seq<TouchPoint>,
    scroll: int,
    now: u64,
    has_worker: bool,
    out: ProfileHead,
)
    requires
        head_followed(a, b, touches, scroll, now, has_worker, out),
        !a.own(),
    ensures
        out.action is Stay,
        !(a.state is Loaded) || !has_worker ==> out.requests@.len() == 0,
        a.state matches ProfileState::Loaded(p) ==> has_worker && touches.len() == 0
            && a.contact.follow_btn.pressed_last ==> match own_follow(*p) {
            None => out.requests@.len() > 0 && out.requests@[0] == (WorkRequest::CreateFollow {
                actor_did: p.did,
            }),
            Some(uri) => uri != pending_uri() ==> out.requests@.len() > 0
                && out.requests@[0] is DeleteFollow && (out.requests@[0]->DeleteFollow_rkey)@
                == after_last(uri, '/'),
        },
        a.state is Loaded && has_worker && touches.len() == 0 && a.contact.message_btn.pressed_last
            && !a.contact.messaging ==> b.contact.messaging && exists|i: int|
            0 <= i < out.requests@.len() && #[trigger] out.requests@[i] is GetConvoForMembers
                && out.requests@[i]->members@ == seq![a.state->Loaded_0.did],
        touches.len() > 0 || (!a.contact.follow_btn.pressed_last
            && !a.contact.message_btn.pressed_last) ==> b.state == a.state && forall|i: int|
            0 <= i < out.requests@.len() ==> !(#[trigger] out.requests@[i] is GetConvoForMembers
                || out.requests@[i] is CreateFollow || out.requests@[i] is DeleteFollow),
        b.logout == a.logout,
{
    if a.state is Loaded {
        let (f, m, follow, message, tab) = choose|
            f: ProfileScreen,
            m: ProfileScreen,
            follow: Option<WorkRequest>,
            message: Option<WorkRequest>,
            tab: Option<WorkRequest>,
        | #[trigger]
            contact_steps(a, f, m, b, touches, scroll, has_worker, follow, message, tab, out);
        if message is Some {
            let k = sent(follow).len() as int;
            assert(out.requests@[k] == message->0);
        }
        if follow is Some {
            assert(out.requests@[0] == follow->0);
        }
    }
}

/// On the reader's own profile a confirmed log-out ends the frame and asks for
/// nothing; without it nobody is logged out.
pub proof fn lemma_own_buttons(
    a: ProfileScreen,
    b: ProfileScreen,
    touches: Seq<TouchPoint>,
    scroll: int,
    now: u64,
    has_worker: bool,
    out: ProfileHead,
)
    requires
        head_followed(a, b, touches, scroll, now, has_worker, out),
        a.own(),
    ensures
        out.action is Logout <==> a.state is Loaded && logout_confirmed(a, touches, scroll, now),
        out.action is Logout || out.action is Stay,
        out.action is Logout ==> out.requests@.len() == 0,
        out.requests@.len() <= 1,
        b.state == a.state && b.contact == a.contact,
{
}

/// The end of a frame of a profile: what a tap on the content opens is opened;
/// else the reader's own profile is left by its bar and another one by the
/// circle. Before the profile is there only the way out can be taken.
pub proof fn lemma_profile_frame_ends(
    a: ProfileScreen,
    b: ProfileScreen,
    input: ProfileInput,
    out: ProfileEnd,
)
    requires
        crate::profile_frame::frame_ended(a, b, input, out),
    ensures
        !(a.state is Loaded) ==> out.requests@.len() == 0 && out.pills@.len() == 0,
        out.action is Pop ==> !a.own() && input.pad.circle,
        !a.own() && input.pad.circle ==> out.action is Pop || out.action is Push,
        !(a.state is Loaded) && !a.own() && input.pad.circle ==> out.action is Pop,
        out.action is SwitchTab ==> a.own() && cell_let_go(a.tab_bar, input.touches),
        a.own() && cell_let_go(a.tab_bar, input.touches) ==> out.action is SwitchTab
            || out.action is Push,
        b.actor == a.actor && b.contact == a.contact && b.logout == a.logout,
{
    if a.state is Loaded {
        let (t, s, opened) = choose|t: ProfileScreen, s: ProfileScreen, opened: ScreenAction|
            #[trigger] crate::profile_frame::end_steps(a, t, s, b, input, opened, out);
        let (m, page, images, tap, mark, way) = choose|
            m: ProfileScreen,
            page: Option<WorkRequest>,
            images: Seq<WorkRequest>,
            tap: Option<TapAction>,
            mark: Option<WorkRequest>,
            way: ScreenAction,
        | #[trigger]
            content_steps(a, m, t, input, page, images, tap, mark, way, out.requests@, opened);
        if opened is Stay && a.own() {
            lemma_bar_answers(s.tab_bar, b.tab_bar, input.touches, out.action);
        }
    } else if a.own() {
        lemma_bar_answers(a.tab_bar, b.tab_bar, input.touches, out.action);
    }
}

// ── Pictures ───────────────────────────────────────────────────────────

/// The pictures of the authors whose notifications show are wanted, in the small
/// size, and no others.
pub proof fn lemma_notification_faces(
    items: Seq<Notification>,
    shown: Seq<VisibleRow>,
    n: int,
    u: Seq<char>,
)
    requires
        0 <= n <= shown.len(),
    ensures
        notif_urls(items, shown, n).contains(u) <==> exists|k: int|
            0 <= k < n && items[(#[trigger] shown[k]).index as int].author.avatar is Some
                && thumbnail_url(items[shown[k].index as int].author.avatar->0@) == u,
    decreases n,
{
    if n > 0 {
        lemma_notification_faces(items, shown, n - 1, u);
        let before = notif_urls(items, shown, n - 1);
        let face = items[shown[n - 1].index as int].author.avatar;
        if face is Some {
            lemma_pushed(before, thumbnail_url(face->0@), u);
        }
    }
}

proof fn lemma_pushed(s: Seq<Seq<char>>, x: Seq<char>, u: Seq<char>)
    ensures
        s.push(x).contains(u) <==> s.contains(u) || x == u,
{
    let t = s.push(x);
    if s.contains(u) {
        let k = choose|k: int| 0 <= k < s.len() && s[k] == u;
        assert(t[k] == u);
    }
    if x == u {
        assert(t[s.len() as int] == u);
    }
    if t.contains(u) && x != u {
        let k = choose|k: int| 0 <= k < t.len() && t[k] == u;
        assert(s[k] == u);
    }
}

/// The pictures of the authors whose posts show in a thread are wanted, in the
/// small size, and no others.
pub proof fn lemma_thread_faces(
    posts: Seq<FeedPost>,
    shown: Seq<VisibleRow>,
    n: int,
    u: Seq<char>,
)
    requires
        0 <= n <= shown.len(),
    ensures
        avatar_urls(posts, shown, n).contains(u) <==> exists|k: int|
            0 <= k < n && posts[(#[trigger] shown[k]).index as int].post.author.avatar is Some
                && thumbnail_url(posts[shown[k].index as int].post.author.avatar->0@) == u,
    decreases n,
{
    if n > 0 {
        lemma_thread_faces(posts, shown, n - 1, u);
        let before = avatar_urls(posts, shown, n - 1);
        let face = posts[shown[n - 1].index as int].post.author.avatar;
        if face is Some {
            lemma_pushed(before, thumbnail_url(face->0@), u);
        }
    }
}

/// The picture of the other member is wanted for each conversation that shows, in
/// the small size, and no other.
pub proof fn lemma_conversation_faces(
    items: Seq<ConvoView>,
    own: Seq<char>,
    shown: Seq<VisibleRow>,
    n: int,
    u: Seq<char>,
)
    requires
        0 <= n <= shown.len(),
    ensures
        face_urls(items, own, shown, n).contains(u) <==> exists|k: int|
            0 <= k < n && face_of(items[(#[trigger] shown[k]).index as int], own) is Some && face_of(
                items[shown[k].index as int],
                own,
            )->0.avatar is Some && thumbnail_url(
                face_of(items[shown[k].index as int], own)->0.avatar->0@,
            ) == u,
    decreases n,
{
    if n > 0 {
        lemma_conversation_faces(items, own, shown, n - 1, u);
        let before = face_urls(items, own, shown, n - 1);
        let face = face_of(items[shown[n - 1].index as int], own);
        if face is Some && face->0.avatar is Some {
            lemma_pushed(before, thumbnail_url(face->0.avatar->0@), u);
        }
    }
}

/// The pictures of all pinned feeds are wanted, in the small size.
pub proof fn lemma_pin_pictures(pins: Seq<SavedFeedPin>, n: int, u: Seq<char>)
    requires
        0 <= n <= pins.len(),
    ensures
        pin_urls(pins, n).contains(u) <==> exists|k: int|
            0 <= k < n && (#[trigger] pins[k]).avatar_url is Some && thumbnail_url(
                pins[k].avatar_url->0@,
            ) == u,
    decreases n,
{
    if n > 0 {
        lemma_pin_pictures(pins, n - 1, u);
        let before = pin_urls(pins, n - 1);
        if pins[n - 1].avatar_url is Some {
            lemma_pushed(before, thumbnail_url(pins[n - 1].avatar_url->0@), u);
        }
    }
}

/// The pictures of the feeds, lists or packs that show on the tab are wanted, in
/// the small size, and no others.
pub proof fn lemma_item_pictures(
    t: ProfileTabs,
    origin: int,
    band: (int, int),
    n: int,
    u: Seq<char>,
)
    requires
        0 <= n,
    ensures
        item_urls(t, origin, band, n).contains(u) <==> exists|k: int|
            0 <= k < n && (#[trigger] item_picture(t, k)) is Some && in_band(
                origin + 80 * k,
                80,
                band.0,
                band.1,
            ) && thumbnail_url(item_picture(t, k)->0@) == u,
        t.active == ProfileTab::Feeds ==> item_picture(t, n) == t.feeds.items@[n].avatar,
        t.active == ProfileTab::Lists ==> item_picture(t, n) == t.lists.items@[n].avatar,
        t.active == ProfileTab::Packs ==> item_picture(t, n) == t.packs.items@[n].creator_avatar,
    decreases n,
{
    if n > 0 {
        lemma_item_pictures(t, origin, band, n - 1, u);
        let before = item_urls(t, origin, band, n - 1);
        let face = item_picture(t, n - 1);
        if face is Some {
            lemma_pushed(before, thumbnail_url(face->0@), u);
        }
    }
}

/// A tab that shows items wants their pictures; one that shows posts, or a
/// problem, wants none here.
pub proof fn lemma_items_wanted(s: ProfileScreen, scroll: i32, r: Vec<String>)
    requires
        ProfileScreen::items_wanted(s, scroll, r),
    ensures
        s.tabs.active_list() is Some ==> r@.len() == 0,
        crate::profile::tab_problem(s.tabs) is Some ==> r@.len() == 0,
        s.tabs.active_list() is None && crate::profile::tab_problem(s.tabs) is None ==> r@.len()
            == item_urls(
            s.tabs,
            crate::profile::content_y(scroll as int),
            crate::profile::content_band(s.own(), scroll as int),
            crate::profile::tab_len(s.tabs),
        ).len(),
{
    assert(crate::embeds::texts(r@).len() == r@.len());
}

// ── Drafts ─────────────────────────────────────────────────────────────

/// A frame of a draft starts with what is on display: the picker before the
/// camera, that before a picture, that before the editor. What was done with is
/// gone, what was typed is taken, and a draft that was sent is left at once.
pub proof fn lemma_draft_frame_starts(
    a: ComposeScreen,
    b: ComposeScreen,
    event: ImeEvent,
    out: ComposeStart,
)
    requires
        crate::compose_frame::frame_started(a, b, event, out),
    ensures
        out.part is Leave <==> a.done,
        a.done ==> b == a && !out.close,
        !a.done ==> {
            &&& out.close <==> !(event is Idle)
            &&& out.part is Picker <==> b.picker is Some
            &&& out.part is Camera <==> b.picker is None && b.camera is Some
            &&& out.part is View <==> b.picker is None && b.camera is None && b.viewing is Some
            &&& out.part is Editor <==> b.picker is None && b.camera is None && b.viewing is None
            &&& a.deferred.picker_close ==> b.picker is None
            &&& !a.deferred.picker_close ==> b.picker == a.picker
            &&& a.deferred.camera_close ==> b.camera is None
            &&& !a.deferred.camera_close ==> b.camera == a.camera
            &&& !b.deferred.camera_close && !b.deferred.picker_close && b.deferred.remove is None
        },
        b.reply_to == a.reply_to && b.reply_handle == a.reply_handle,
{
    if !a.done {
        let m = choose|m: ComposeScreen|
            #[trigger] crate::compose_frame::start_steps(a, m, b, event, out);
    }
}

/// A frame of the editor: the circle, while the keyboard is closed, and the
/// cancel button leave it, and then nothing is sent. Only the post button sends
/// the draft, whole, and only the camera button opens the camera.
pub proof fn lemma_draft_edited(
    a: ComposeScreen,
    b: ComposeScreen,
    pad: PadFrame,
    touches: Seq<TouchPoint>,
    ime_active: bool,
    has_worker: bool,
    out: ComposeEdit,
)
    requires
        a.wf(),
        edited(a, b, pad, touches, ime_active, has_worker, out),
    ensures
        !ime_active && pad.circle ==> out.action is Pop && b == a && out.request is None
            && out.keyboard is None && !out.open_camera,
        out.action is Pop <==> !ime_active && (pad.circle || (!(a.state is Submitting)
            && a.btns.cancel.pressed_last && touches.len() == 0)),
        out.action is Pop || out.action is Stay,
        out.action is Pop ==> out.request is None && b.state == a.state,
        out.request matches Some(q) ==> {
            &&& q is CreateThread
            &&& q->segments@.len() == a.draft.segments@.len()
            &&& q->reply_to == a.reply_to
            &&& has_worker && a.postable() && a.btns.post.pressed_last && touches.len() == 0
        },
        has_worker && a.postable() && a.btns.post.pressed_last && touches.len() == 0 && !(
        out.action is Pop) ==> out.request is Some,
        ime_active || a.state is Submitting || touches.len() > 0 ==> !out.open_camera
            && out.keyboard is None && b.picker == a.picker,
        b.reply_to == a.reply_to && b.done == a.done,
{
    if !(!ime_active && pad.circle) {
        let (h, t, w, head, strip) = choose|
            h: ComposeScreen,
            t: ComposeScreen,
            w: ComposeScreen,
            head: HeaderOutcome,
            strip: StripOutcome,
        | #[trigger]
            edit_steps(a, h, t, w, b, pad, touches, ime_active, has_worker, head, strip, out);
        let on = !ime_active && !(a.state is Submitting);
        crate::compose_laws::lemma_posting_asks_for_draft(a, h, touches, on, has_worker, head);
    }
}

// ── Videos ─────────────────────────────────────────────────────────────

/// A frame of a video starts with the circle: it closes the notice, or leaves
/// where there is none, and then nothing is asked for. Else the video is asked
/// for where it has not been, and opened once its file is there.
pub proof fn lemma_video_frame_starts(
    a: VideoPlayerScreen,
    b: VideoPlayerScreen,
    pad: PadFrame,
    pad_changed: bool,
    touching: bool,
    has_worker: bool,
    out: VideoStart,
)
    requires
        crate::video_player::frame_started(a, b, pad, pad_changed, touching, has_worker, out),
    ensures
        out.action is Pop <==> pad.circle && !a.notice.shown,
        out.action is Pop || out.action is Stay,
        out.action is Pop ==> out.request is None && out.open is None && b == a,
        pad.circle && a.notice.shown ==> !b.notice.shown && (out.persist <==> a.notice.dont_show),
        !pad.circle ==> b.notice == a.notice && !out.persist,
        out.action is Stay ==> {
            &&& a.state is Pending && has_worker ==> out.request == Some(
                WorkRequest::FetchVideoBlob { did: a.did, cid: a.cid },
            ) && b.state is Downloading
            &&& !(a.state is Pending) || !has_worker ==> out.request is None && b.state == a.state
            &&& a.state matches VideoState::Ready { file_path } ==> out.open == Some(file_path)
            &&& !(a.state is Ready) ==> out.open is None
        },
        b.did == a.did && b.cid == a.cid,
{
    let (m, input) = choose|m: VideoPlayerScreen, input: VideoInput| #[trigger]
        crate::video_player::start_steps(
            a,
            m,
            b,
            pad,
            pad_changed,
            touching,
            has_worker,
            input,
            out,
        );
}

/// The words for what a player does are told apart.
pub proof fn lemma_player_words()
    ensures
        state_word(PlayerState::Playing) == "playing"@,
        state_word(PlayerState::Paused) == "paused"@,
        state_word(PlayerState::Eof) == "ended"@,
{
}

// ── The picker ─────────────────────────────────────────────────────────

/// A frame of the picker starts with the shortcuts: the folder is read anew just
/// where one was tapped or a shoulder pressed, and the path stays where none was.
pub proof fn lemma_picker_frame_starts(
    a: FilePicker,
    b: FilePicker,
    widths: Seq<i32>,
    touches: Seq<TouchPoint>,
    pad: PadFrame,
    unread: bool,
)
    requires
        shortcuts_followed(a, b, widths, touches, pad, unread),
    ensures
        pad.l1 || pad.r1 ==> unread,
        unread ==> !b.loaded,
        !unread ==> b.path == a.path && b.loaded == a.loaded,
        touches.len() > 0 && !pad.l1 && !pad.r1 ==> !unread,
        touches.len() == 0 && (a.chip_btns@[0].pressed_last || a.chip_btns@[1].pressed_last
            || a.chip_btns@[2].pressed_last) ==> unread,
        b.entries == a.entries && b.cursor == a.cursor && b.thumbs == a.thumbs,
{
    let (c, chip, shoulder) = choose|c: FilePicker, chip: bool, shoulder: bool| #[trigger]
        shortcut_steps(a, c, b, widths, touches, pad, chip, shoulder, unread);
    reveal_with_fuel(FilePicker::chip_tapped, 4);
}

} // verus!
