//! One frame of the profile screen: in which order its steps are taken, and
//! which of them end the frame.
//!
//! A frame falls into parts. Between them text is measured, the scroll position
//! is moved and settled, and the profile is drawn.

use vstd::prelude::*;

#[allow(unused_imports)]
use crate::embeds::texts;
use crate::post_row::TapAction;
use crate::profile::{request_each, ProfileScreen, ProfileState, TabPill};
#[allow(unused_imports)]
use crate::profile::{
    banner_followed, banner_opens, begun, buttons_followed, convo_opened, convo_taken,
    feed_opened, follow_followed, items_asked, logout_confirmed, logout_followed,
    message_followed, overlay_followed, page_asked, pictures_asked, post_tapped, profile_left,
    profile_request, reveals, selection_moved, strip_tracked, tab_asked, tab_widths_ok,
    tap_followed,
};
#[allow(unused_imports)]
use crate::profile_tabs::tabs_shown;
#[allow(unused_imports)]
use crate::requests::sent;
use crate::requests::{push_sent, WorkRequest};
#[allow(unused_imports)]
use crate::rows::MAX_CONTENT_H;
#[allow(unused_imports)]
use crate::screen::pushed;
use crate::screen::{push_screen, ScreenAction};
use crate::timeline::PadOutcome;
use crate::widget::{PadFrame, TouchPoint};

verus! {

/// What the first part of a frame asks for.
#[derive(Debug)]
pub struct ProfileStart {
    pub requests: Vec<WorkRequest>,
    pub action: ScreenAction,
    /// The banner is shown on the whole display, and nothing else.
    pub banner: bool,
    /// The frame goes on.
    pub goes_on: bool,
}

/// What the buttons of the pad ask for.
#[derive(Debug)]
pub struct ProfilePads {
    /// Where the view goes, if it does.
    pub target: Option<i32>,
    pub requests: Vec<WorkRequest>,
    /// Anything but staying ends the frame.
    pub action: ScreenAction,
}

/// What the buttons below the header ask for.
#[derive(Debug)]
pub struct ProfileHead {
    pub requests: Vec<WorkRequest>,
    /// Anything but staying ends the frame.
    pub action: ScreenAction,
}

/// What the last part of a frame asks for.
#[derive(Debug)]
pub struct ProfileEnd {
    pub requests: Vec<WorkRequest>,
    /// The strip of sub-tabs, unless something was opened.
    pub pills: Vec<TabPill>,
    pub action: ScreenAction,
}

/// What the last part of a frame is given.
pub ghost struct ProfileInput {
    pub pad: PadFrame,
    pub touches: Seq<TouchPoint>,
    pub scroll: int,
    /// The pictures that the rows need, and which of them are at hand.
    pub urls: Seq<Seq<char>>,
    pub cached: Seq<bool>,
    /// The widths of the labels of the sub-tabs.
    pub widths: Seq<i32>,
    pub has_worker: bool,
}

/// The first part of a frame by its steps, where no conversation is to be
/// opened: the profile and its pictures are asked for (which leaves the screen
/// as `p`); then the banner takes the frame where it is shown, or a tap on it
/// does.
pub open spec fn start_steps(
    a: ProfileScreen,
    p: ProfileScreen,
    b: ProfileScreen,
    pad: PadFrame,
    touches: Seq<TouchPoint>,
    scroll: int,
    cached: (bool, bool),
    has_worker: bool,
    images: Seq<WorkRequest>,
    out: ProfileStart,
) -> bool {
    &&& pictures_asked(begun(a, has_worker), p, cached.0, cached.1, has_worker, images)
    &&& out.requests@ == sent(profile_request(a, has_worker)) + images
    &&& out.action is Stay
    &&& out.banner == p.banner.viewing
    &&& if p.banner.viewing {
        b == overlay_followed(p, pad, touches) && !out.goes_on
    } else {
        &&& b == banner_followed(p, touches, scroll, cached.1)
        &&& out.goes_on == !banner_opens(p, touches, scroll, cached.1)
    }
}

/// The first part of a frame. A conversation that became ready is opened, and
/// nothing else happens then.
pub open spec fn frame_started(
    a: ProfileScreen,
    b: ProfileScreen,
    pad: PadFrame,
    touches: Seq<TouchPoint>,
    scroll: int,
    cached: (bool, bool),
    has_worker: bool,
    out: ProfileStart,
) -> bool {
    if convo_opened(a) is Stay {
        exists|p: ProfileScreen, images: Seq<WorkRequest>| #[trigger]
            start_steps(a, p, b, pad, touches, scroll, cached, has_worker, images, out)
    } else {
        &&& b == convo_taken(a)
        &&& out.requests@.len() == 0
        &&& out.action == convo_opened(a)
        &&& !out.banner
        &&& !out.goes_on
    }
}

/// The buttons of the pad by their steps: the selection (which leaves the
/// screen as `m`), then like, repost and reply.
pub open spec fn pad_steps(
    a: ProfileScreen,
    m: ProfileScreen,
    b: ProfileScreen,
    pad: PadFrame,
    scroll: int,
    has_worker: bool,
    changed: bool,
    pads: PadOutcome,
    out: ProfilePads,
) -> bool {
    &&& selection_moved(a, m, pad, scroll, changed)
    &&& if changed {
        reveals(m, scroll, out.target)
    } else {
        out.target is None
    }
    &&& buttons_followed(m, b, pad, has_worker, pads)
    &&& out.requests@ == sent(pads.like_request) + sent(pads.repost_request)
    &&& out.action == pushed(pads.push)
}

/// The buttons of the pad.
pub open spec fn pads_followed(
    a: ProfileScreen,
    b: ProfileScreen,
    pad: PadFrame,
    scroll: int,
    has_worker: bool,
    out: ProfilePads,
) -> bool {
    exists|m: ProfileScreen, changed: bool, pads: PadOutcome| #[trigger]
        pad_steps(a, m, b, pad, scroll, has_worker, changed, pads, out)
}

/// The buttons below somebody else's header by their steps: follow (which leaves
/// the screen as `f`), then message (which leaves it as `m`); then the first page
/// of the active sub-tab is asked for.
pub open spec fn contact_steps(
    a: ProfileScreen,
    f: ProfileScreen,
    m: ProfileScreen,
    b: ProfileScreen,
    touches: Seq<TouchPoint>,
    scroll: int,
    has_worker: bool,
    follow: Option<WorkRequest>,
    message: Option<WorkRequest>,
    tab: Option<WorkRequest>,
    out: ProfileHead,
) -> bool {
    &&& follow_followed(a, f, touches, scroll, has_worker, follow)
    &&& message_followed(f, m, touches, scroll, has_worker, message)
    &&& tab_asked(m, b, has_worker, tab)
    &&& out.requests@ == sent(follow) + sent(message) + sent(tab)
    &&& out.action is Stay
}

/// The buttons below the header. On the reader's own profile it is the log-out
/// button, which ends the frame once it is confirmed. There are none before the
/// profile is there.
pub open spec fn head_followed(
    a: ProfileScreen,
    b: ProfileScreen,
    touches: Seq<TouchPoint>,
    scroll: int,
    now: u64,
    has_worker: bool,
    out: ProfileHead,
) -> bool {
    if !(a.state is Loaded) {
        b == a && out.requests@.len() == 0 && out.action is Stay
    } else if !a.own() {
        exists|
            f: ProfileScreen,
            m: ProfileScreen,
            follow: Option<WorkRequest>,
            message: Option<WorkRequest>,
            tab: Option<WorkRequest>,
        | #[trigger]
            contact_steps(
                a,
                f,
                m,
                b,
                touches,
                scroll,
                has_worker,
                follow,
                message,
                tab,
                out,
            )
    } else if logout_confirmed(a, touches, scroll, now) {
        &&& b == logout_followed(a, touches, scroll, now)
        &&& out.requests@.len() == 0
        &&& out.action is Logout
    } else {
        exists|tab: Option<WorkRequest>|
            {
                &&& #[trigger] tab_asked(
                    logout_followed(a, touches, scroll, now),
                    b,
                    has_worker,
                    tab,
                )
                &&& out.requests@ == sent(tab)
                &&& out.action is Stay
            }
    }
}

/// The content of the active sub-tab by its steps: the next page (which leaves
/// the screen as `m`) and the pictures are asked for; then a tap on a post (which
/// leaves it as `t`) or on a custom feed is followed.
pub open spec fn content_steps(
    a: ProfileScreen,
    m: ProfileScreen,
    t: ProfileScreen,
    input: ProfileInput,
    page: Option<WorkRequest>,
    images: Seq<WorkRequest>,
    tap: Option<TapAction>,
    mark: Option<WorkRequest>,
    opened: ScreenAction,
    reqs: Seq<WorkRequest>,
    action: ScreenAction,
) -> bool {
    &&& page_asked(a, m, input.scroll, input.has_worker, page)
    &&& if input.has_worker {
        items_asked(input.urls, input.cached, images)
    } else {
        images.len() == 0
    }
    &&& post_tapped(m, input.touches, input.scroll, tap)
    &&& tap_followed(m, t, tap, input.has_worker, mark, opened)
    &&& reqs == sent(page) + images + sent(mark)
    &&& action == (if opened is Stay {
        feed_opened(t, input.touches, input.scroll)
    } else {
        opened
    })
}

/// The content of the active sub-tab was followed.
pub open spec fn content_followed(
    a: ProfileScreen,
    t: ProfileScreen,
    input: ProfileInput,
    reqs: Seq<WorkRequest>,
    action: ScreenAction,
) -> bool {
    exists|
        m: ProfileScreen,
        page: Option<WorkRequest>,
        images: Seq<WorkRequest>,
        tap: Option<TapAction>,
        mark: Option<WorkRequest>,
        opened: ScreenAction,
    | #[trigger]
        content_steps(a, m, t, input, page, images, tap, mark, opened, reqs, action)
}

/// The last part of a frame by its steps, once the profile is there: the content
/// (which leaves the screen as `t`); where it opens nothing, the strip of
/// sub-tabs (which leaves it as `s`), and then the way out.
pub open spec fn end_steps(
    a: ProfileScreen,
    t: ProfileScreen,
    s: ProfileScreen,
    b: ProfileScreen,
    input: ProfileInput,
    opened: ScreenAction,
    out: ProfileEnd,
) -> bool {
    &&& content_followed(a, t, input, out.requests@, opened)
    &&& if opened is Stay {
        &&& strip_tracked(t, s, input.widths, input.touches, input.scroll, out.pills@)
        &&& profile_left(s, b, input.pad, input.touches, out.action)
    } else {
        b == t && out.pills@.len() == 0 && out.action == opened
    }
}

/// The last part of a frame. Before the profile is there only the way out can be
/// taken.
pub open spec fn frame_ended(
    a: ProfileScreen,
    b: ProfileScreen,
    input: ProfileInput,
    out: ProfileEnd,
) -> bool {
    if a.state is Loaded {
        exists|t: ProfileScreen, s: ProfileScreen, opened: ScreenAction| #[trigger]
            end_steps(a, t, s, b, input, opened, out)
    } else {
        &&& profile_left(a, b, input.pad, input.touches, out.action)
        &&& out.requests@.len() == 0
        &&& out.pills@.len() == 0
    }
}

impl ProfileScreen {
    /// The first part of a frame, before anything is measured or drawn. The
    /// flags tell whether the header picture and the banner are at hand.
    pub fn frame_start(
        &mut self,
        pad: &PadFrame,
        touches: &Vec<TouchPoint>,
        scroll: i32,
        avatar_cached: bool,
        banner_cached: bool,
        has_worker: bool,
    ) -> (r: ProfileStart)
        requires
            old(self).wf(),
            0 <= scroll <= MAX_CONTENT_H,
        ensures
            final(self).wf(),
            frame_started(
                *old(self),
                *final(self),
                *pad,
                touches@,
                scroll as int,
                (avatar_cached, banner_cached),
                has_worker,
                r,
            ),
    {
        let mut requests: Vec<WorkRequest> = Vec::new();
        let convo = self.take_convo();
        if !matches!(convo, ScreenAction::Stay) {
            return ProfileStart { requests, action: convo, banner: false, goes_on: false };
        }
        assert(*self == *old(self));
        let first = self.begin_frame(has_worker);
        push_sent(&mut requests, first);
        let mut images = self.request_pictures(avatar_cached, banner_cached, has_worker);
        let ghost asked = images@;
        let ghost p = *self;
        requests.append(&mut images);
        let banner = self.banner.viewing;
        let mut goes_on = false;
        if banner {
            self.banner_overlay(pad, touches);
        } else {
            goes_on = !self.banner_tap(touches, scroll, banner_cached);
        }
        let r = ProfileStart { requests, action: ScreenAction::Stay, banner, goes_on };
        assert(r.requests@ =~= sent(profile_request(*old(self), has_worker)) + asked);
        assert(start_steps(
            *old(self),
            p,
            *self,
            *pad,
            touches@,
            scroll as int,
            (avatar_cached, banner_cached),
            has_worker,
            asked,
            r,
        ));
        r
    }

    /// The buttons of the pad, once the rows are measured.
    pub fn frame_pads(&mut self, pad: &PadFrame, scroll: i32, has_worker: bool) -> (r: ProfilePads)
        requires
            old(self).wf(),
            -1000 <= scroll <= MAX_CONTENT_H,
            old(self).pads_fit(*pad, scroll as int, has_worker),
        ensures
            final(self).wf(),
            pads_followed(*old(self), *final(self), *pad, scroll as int, has_worker, r),
    {
        let changed = self.move_selection(pad, scroll);
        let ghost m = *self;
        let target = if changed {
            self.auto_scroll_to_selected(scroll)
        } else {
            None
        };
        let out = self.pad_actions(pad, has_worker);
        let ghost pads = out;
        let mut requests: Vec<WorkRequest> = Vec::new();
        push_sent(&mut requests, out.like_request);
        push_sent(&mut requests, out.repost_request);
        let r = ProfilePads { target, requests, action: push_screen(out.push) };
        assert(r.requests@ =~= sent(pads.like_request) + sent(pads.repost_request));
        assert(pad_steps(
            *old(self),
            m,
            *self,
            *pad,
            scroll as int,
            has_worker,
            changed,
            pads,
            r,
        ));
        r
    }

    /// The buttons below the header, and the first page of the active sub-tab.
    pub fn frame_head(
        &mut self,
        touches: &Vec<TouchPoint>,
        scroll: i32,
        now: u64,
        has_worker: bool,
    ) -> (r: ProfileHead)
        requires
            old(self).wf(),
            0 <= scroll <= MAX_CONTENT_H,
        ensures
            final(self).wf(),
            head_followed(
                *old(self),
                *final(self),
                touches@,
                scroll as int,
                now,
                has_worker,
                r,
            ),
    {
        let mut requests: Vec<WorkRequest> = Vec::new();
        if !matches!(&self.state, ProfileState::Loaded(_)) {
            return ProfileHead { requests, action: ScreenAction::Stay };
        }
        if self.is_own() {
            if self.logout_button(touches, scroll, now) {
                return ProfileHead { requests, action: ScreenAction::Logout };
            }
            let tab = self.maybe_dispatch_active_tab(has_worker);
            let ghost first = tab;
            push_sent(&mut requests, tab);
            assert(requests@ =~= sent(first));
            assert(tab_asked(
                logout_followed(*old(self), touches@, scroll as int, now),
                *self,
                has_worker,
                first,
            ));
            return ProfileHead { requests, action: ScreenAction::Stay };
        }
        let follow = self.follow_button(touches, scroll, has_worker);
        let ghost f = *self;
        let message = self.message_button(touches, scroll, has_worker);
        let ghost m = *self;
        let tab = self.maybe_dispatch_active_tab(has_worker);
        let ghost (q1, q2, q3) = (follow, message, tab);
        push_sent(&mut requests, follow);
        push_sent(&mut requests, message);
        push_sent(&mut requests, tab);
        let r = ProfileHead { requests, action: ScreenAction::Stay };
        assert(r.requests@ =~= sent(q1) + sent(q2) + sent(q3));
        assert(contact_steps(
            *old(self),
            f,
            m,
            *self,
            touches@,
            scroll as int,
            has_worker,
            q1,
            q2,
            q3,
            r,
        ));
        r
    }

    /// The content of the active sub-tab: its next page, its pictures, and a tap
    /// on it.
    fn follow_content(
        &mut self,
        pad: &PadFrame,
        touches: &Vec<TouchPoint>,
        scroll: i32,
        urls: &Vec<String>,
        cached: &Vec<bool>,
        widths: &Vec<i32>,
        has_worker: bool,
    ) -> (r: (Vec<WorkRequest>, ScreenAction))
        requires
            old(self).wf(),
            0 <= scroll <= MAX_CONTENT_H,
            urls@.len() <= cached@.len(),
            has_worker ==> old(self).taps_fit(touches@, scroll as int),
        ensures
            final(self).wf(),
            final(self).own() == old(self).own(),
            content_followed(
                *old(self),
                *final(self),
                ProfileInput {
                    pad: *pad,
                    touches: touches@,
                    scroll: scroll as int,
                    urls: texts(urls@),
                    cached: cached@,
                    widths: widths@,
                    has_worker,
                },
                r.0@,
                r.1,
            ),
    {
        let ghost input = ProfileInput {
            pad: *pad,
            touches: touches@,
            scroll: scroll as int,
            urls: texts(urls@),
            cached: cached@,
            widths: widths@,
            has_worker,
        };
        let mut requests: Vec<WorkRequest> = Vec::new();
        let page = self.paginate(scroll, has_worker);
        let ghost next = page;
        let ghost m = *self;
        push_sent(&mut requests, page);
        let ghost mut asked: Seq<WorkRequest> = Seq::empty();
        if has_worker {
            let mut images = request_each(urls, cached);
            proof {
                asked = images@;
            }
            requests.append(&mut images);
        }
        let tap = self.tap(touches, scroll);
        let ghost tapped = tap;
        let (mark, opened) = self.follow_tap(tap, has_worker);
        let ghost marked = mark;
        let ghost leads = opened;
        push_sent(&mut requests, mark);
        assert(requests@ =~= sent(next) + asked + sent(marked));
        let action = if matches!(opened, ScreenAction::Stay) {
            self.feed_tap(touches, scroll)
        } else {
            opened
        };
        assert(content_steps(
            *old(self),
            m,
            *self,
            input,
            next,
            asked,
            tapped,
            marked,
            leads,
            requests@,
            action,
        ));
        (requests, action)
    }

    /// The last part of a frame: the content of the active sub-tab, the strip of
    /// sub-tabs, and the way out.
    pub fn frame_end(
        &mut self,
        pad: &PadFrame,
        touches: &Vec<TouchPoint>,
        scroll: i32,
        urls: &Vec<String>,
        cached: &Vec<bool>,
        widths: &Vec<i32>,
        has_worker: bool,
    ) -> (r: ProfileEnd)
        requires
            old(self).wf(),
            0 <= scroll <= MAX_CONTENT_H,
            urls@.len() <= cached@.len(),
            widths@.len() == tabs_shown(old(self).own()).len(),
            tab_widths_ok(widths@),
            has_worker && old(self).state is Loaded ==> old(self).taps_fit(
                touches@,
                scroll as int,
            ),
        ensures
            final(self).wf(),
            frame_ended(
                *old(self),
                *final(self),
                ProfileInput {
                    pad: *pad,
                    touches: touches@,
                    scroll: scroll as int,
                    urls: texts(urls@),
                    cached: cached@,
                    widths: widths@,
                    has_worker,
                },
                r,
            ),
    {
        let ghost input = ProfileInput {
            pad: *pad,
            touches: touches@,
            scroll: scroll as int,
            urls: texts(urls@),
            cached: cached@,
            widths: widths@,
            has_worker,
        };
        if !matches!(&self.state, ProfileState::Loaded(_)) {
            let action = self.leave(pad, touches);
            return ProfileEnd { requests: Vec::new(), pills: Vec::new(), action };
        }
        let (requests, opened) = self.follow_content(
            pad,
            touches,
            scroll,
            urls,
            cached,
            widths,
            has_worker,
        );
        let ghost t = *self;
        let ghost leads = opened;
        if !matches!(opened, ScreenAction::Stay) {
            let r = ProfileEnd { requests, pills: Vec::new(), action: opened };
            assert(end_steps(*old(self), t, t, *self, input, leads, r));
            return r;
        }
        let pills = self.tab_strip(widths, touches, scroll);
        let ghost s = *self;
        let action = self.leave(pad, touches);
        let r = ProfileEnd { requests, pills, action };
        assert(end_steps(*old(self), t, s, *self, input, leads, r));
        r
    }
}

} // verus!
