//! The notifications screen: what happened, most recent first, and the way to
//! where it happened.

use vstd::hash_set::StringHashSet;
use vstd::prelude::*;

use crate::atproto::{extract_post_text, time_text};
#[allow(unused_imports)]
use crate::atproto::post_record_text;
use crate::cdn::avatar_thumbnail_jpeg;
#[allow(unused_imports)]
use crate::cdn::thumbnail_url;
#[allow(unused_imports)]
use crate::embeds::texts;
use crate::images::request_missing;
#[allow(unused_imports)]
use crate::images::{asked_for, fetched, inflight_after};
use crate::model::{clone_text, display_name_or, Notification};
#[allow(unused_imports)]
use crate::model::name_or_handle;
#[allow(unused_imports)]
use crate::requests::sent;
use crate::requests::{push_sent, WorkRequest, WorkResponse};
use crate::rows::{
    content_height, fill_rows, list_rows_hold, max_scroll, reveal_row, step_selection,
    visible_rows, LIST_ROW_H, PAGINATION_THRESHOLD,
};
#[allow(unused_imports)]
use crate::rows::{
    lemma_uniform, lemma_visible_rows_exact, reveal_target, rows_in_band, scroll_limit, step_moves,
    stepped, uniform, VisibleRow, MAX_CONTENT_H,
};
#[allow(unused_imports)]
use crate::screen::bar_followed;
use crate::screen::{follow_bar, NextScreen, ScreenAction};
use crate::tabbar::{TabBar, TopLevel};
use crate::text::{head_chars, join2, same_text};
#[allow(unused_imports)]
use crate::text::{first_chars, opt_view};
use crate::timeline::{FeedBody, ScrollSettle};
use crate::widget::{touches_in_band, PadFrame, Rect, TouchPoint, SCREEN_WIDTH};
#[allow(unused_imports)]
use crate::widget::{touched, touches_between};

verus! {

pub const HEADER_H: i32 = 40;

pub const VIEWPORT_TOP: i32 = 40;

pub const VIEWPORT_BOTTOM: i32 = 484;

pub const VIEWPORT_H: i32 = 444;

pub const ROW_PAD_X: i32 = 16;

pub const ROW_PAD_Y: i32 = 14;

pub const NOTIF_AVATAR_SIZE: i32 = 40;

pub const ROW_TEXT_LEFT: i32 = 68;

/// What the first part of a frame of a list asks for.
#[derive(Debug)]
pub struct ListStart {
    pub requests: Vec<WorkRequest>,
    pub settle: ScrollSettle,
}

/// How far the notifications have come.
#[derive(Debug)]
pub enum NotifState {
    Loading,
    Loaded { notifications: Vec<Notification>, next_cursor: Option<String> },
    Error(String),
}

/// The notifications on screen.
pub struct NotificationsScreen {
    pub state: NotifState,
    pub selected_idx: usize,
    pub dispatched: bool,
    pub fetching_more: bool,
    pub marked_seen: bool,
    pub row_heights: Vec<i32>,
    pub inflight_avatars: StringHashSet,
    pub tab_bar: TabBar,
}

// ── Words and targets ──────────────────────────────────────────────────

/// What a tap on a notification opens.
#[derive(Debug)]
pub enum NotifTapAction {
    OpenThread(String),
    OpenProfile(String),
}

/// What a notification opens: a mark on a post or a quote of it opens that
/// post; a mention or a reply opens itself; a follow, and anything unknown,
/// opens the one who did it.
pub open spec fn notif_target(n: Notification) -> NotifTapAction {
    if n.reason@ == "like"@ || n.reason@ == "repost"@ || n.reason@ == "quote"@ {
        match n.reason_subject {
            Some(uri) => NotifTapAction::OpenThread(uri),
            None => NotifTapAction::OpenProfile(n.author.handle),
        }
    } else if n.reason@ == "mention"@ || n.reason@ == "reply"@ {
        NotifTapAction::OpenThread(n.uri)
    } else {
        NotifTapAction::OpenProfile(n.author.handle)
    }
}

/// What a notification opens.
pub fn notif_tap_target(notif: &Notification) -> (r: NotifTapAction)
    ensures
        r == notif_target(*notif),
{
    let reason = notif.reason.as_str();
    if same_text(reason, "like") || same_text(reason, "repost") || same_text(reason, "quote") {
        match &notif.reason_subject {
            Some(uri) => NotifTapAction::OpenThread(uri.clone()),
            None => NotifTapAction::OpenProfile(notif.author.handle.clone()),
        }
    } else if same_text(reason, "mention") || same_text(reason, "reply") {
        NotifTapAction::OpenThread(notif.uri.clone())
    } else {
        NotifTapAction::OpenProfile(notif.author.handle.clone())
    }
}

/// What happened, in words.
pub open spec fn headline_of(n: Notification) -> Seq<char> {
    let who = name_or_handle(n.author.display_name, n.author.handle@);
    if n.reason@ == "like"@ {
        who + " liked your post"@
    } else if n.reason@ == "repost"@ {
        who + " reposted your post"@
    } else if n.reason@ == "follow"@ {
        who + " followed you"@
    } else if n.reason@ == "mention"@ {
        who + " mentioned you"@
    } else if n.reason@ == "reply"@ {
        who + " replied to your post"@
    } else if n.reason@ == "quote"@ {
        who + " quoted your post"@
    } else {
        who + " ("@ + n.reason@ + ")"@
    }
}

/// What happened, in words.
pub fn headline(notif: &Notification) -> (r: String)
    ensures
        r@ == headline_of(*notif),
{
    let who = display_name_or(&notif.author.display_name, notif.author.handle.as_str());
    let reason = notif.reason.as_str();
    if same_text(reason, "like") {
        join2(who.as_str(), " liked your post")
    } else if same_text(reason, "repost") {
        join2(who.as_str(), " reposted your post")
    } else if same_text(reason, "follow") {
        join2(who.as_str(), " followed you")
    } else if same_text(reason, "mention") {
        join2(who.as_str(), " mentioned you")
    } else if same_text(reason, "reply") {
        join2(who.as_str(), " replied to your post")
    } else if same_text(reason, "quote") {
        join2(who.as_str(), " quoted your post")
    } else {
        let mut r = join2(who.as_str(), " (");
        r.append(reason);
        r.append(")");
        r
    }
}

/// The second line of a notification: the start of the post, for a mention, a
/// reply or a quote. `text` is what the record turned out to say.
pub open spec fn snippet_of(reason: Seq<char>, text: Option<Seq<char>>) -> Option<Seq<char>> {
    if reason == "mention"@ || reason == "reply"@ || reason == "quote"@ {
        match text {
            Some(t) => Some(first_chars(t, 80)),
            None => None,
        }
    } else {
        None
    }
}

/// The second line of a notification whose record turned out to say `text`.
pub fn snippet_for(reason: &str, text: Option<String>) -> (r: Option<String>)
    ensures
        opt_view(r) == snippet_of(reason@, opt_view(text)),
{
    if same_text(reason, "mention") || same_text(reason, "reply") || same_text(reason, "quote") {
        match text {
            Some(t) => Some(head_chars(t.as_str(), 80)),
            None => None,
        }
    } else {
        None
    }
}

/// The second line of a notification.
pub fn snippet(notif: &Notification) -> (r: Option<String>)
    ensures
        opt_view(r) == snippet_of(notif.reason@, post_record_text(notif.record@)),
{
    snippet_for(notif.reason.as_str(), extract_post_text(notif.record.as_str()))
}

// ── The screen ─────────────────────────────────────────────────────────

/// The notifications of a state.
pub open spec fn notifs_of(s: NotifState) -> Seq<Notification> {
    match s {
        NotifState::Loaded { notifications, .. } => notifications@,
        _ => Seq::empty(),
    }
}

/// The cursor of a state.
pub open spec fn cursor_of(s: NotifState) -> Option<String> {
    match s {
        NotifState::Loaded { next_cursor, .. } => next_cursor,
        _ => None,
    }
}

/// The author pictures of the rows that show.
pub open spec fn notif_urls(items: Seq<Notification>, shown: Seq<VisibleRow>, n: int) -> Seq<
    Seq<char>,
>
    decreases n,
{
    if n <= 0 {
        Seq::empty()
    } else {
        match items[shown[n - 1].index as int].author.avatar {
            Some(a) => notif_urls(items, shown, n - 1).push(thumbnail_url(a@)),
            None => notif_urls(items, shown, n - 1),
        }
    }
}

/// The left part of a row, with the picture.
pub open spec fn left_zone(y: int) -> Rect {
    Rect { x: 0, y: y as i32, w: ROW_TEXT_LEFT, h: LIST_ROW_H }
}

/// The rest of a row.
pub open spec fn right_zone(y: int) -> Rect {
    Rect { x: ROW_TEXT_LEFT, y: y as i32, w: 892, h: LIST_ROW_H }
}

/// Which row of those that show is hit first from `from` on, and whether on
/// its picture.
pub open spec fn row_hit(shown: Seq<VisibleRow>, touches: Seq<TouchPoint>, from: int) -> Option<
    (int, bool),
>
    decreases shown.len() - from,
{
    if from >= shown.len() {
        None
    } else if touched(touches, left_zone(shown[from].y as int)) {
        Some((shown[from].index as int, true))
    } else if touched(touches, right_zone(shown[from].y as int)) {
        Some((shown[from].index as int, false))
    } else {
        row_hit(shown, touches, from + 1)
    }
}

/// The row of those that show that is hit first.
pub(crate) fn find_row_hit(shown: &Vec<VisibleRow>, touches: &Vec<TouchPoint>) -> (r: Option<
    (usize, bool),
>)
    ensures
        match r {
            Some(h) => row_hit(shown@, touches@, 0) == Some((h.0 as int, h.1)),
            None => row_hit(shown@, touches@, 0) is None,
        },
        r matches Some(h) ==> exists|k: int|
            0 <= k < shown@.len() && (#[trigger] shown@[k]).index == h.0,
{
    let mut i: usize = 0;
    while i < shown.len()
        invariant
            i <= shown@.len(),
            row_hit(shown@, touches@, 0) == row_hit(shown@, touches@, i as int),
        decreases shown@.len() - i,
    {
        let v = shown[i];
        assert(shown@[i as int].index == v.index);
        if Rect::new(0, v.y, ROW_TEXT_LEFT, LIST_ROW_H).touched_by(touches) {
            return Some((v.index, true));
        }
        if Rect::new(ROW_TEXT_LEFT, v.y, SCREEN_WIDTH - ROW_TEXT_LEFT, LIST_ROW_H).touched_by(
            touches,
        ) {
            return Some((v.index, false));
        }
        i += 1;
    }
    None
}

/// What an answer makes of the notifications.
pub open spec fn notifs_responded(
    a: NotificationsScreen,
    b: NotificationsScreen,
    resp: WorkResponse,
) -> bool {
    match resp {
        WorkResponse::Notifications(Ok(batch)) => {
            if batch.notifications@.len() == 0 && batch.cursor is None {
                b == (NotificationsScreen { fetching_more: false, ..a })
            } else {
                &&& b.state is Loaded
                &&& b.items() == a.items() + batch.notifications@
                &&& cursor_of(b.state) == batch.cursor
                &&& b == (NotificationsScreen { fetching_more: false, state: b.state, ..a })
            }
        },
        WorkResponse::Notifications(Err(e)) => b == (NotificationsScreen {
            fetching_more: false,
            state: if a.state is Loading {
                NotifState::Error(e)
            } else {
                a.state
            },
            ..a
        }),
        WorkResponse::Image { url, .. } => {
            &&& b.inflight_avatars@ == a.inflight_avatars@.remove(url@)
            &&& b == (NotificationsScreen { inflight_avatars: b.inflight_avatars, ..a })
        },
        _ => b == a,
    }
}

// ── What one frame does ────────────────────────────────────────────────

/// The up and down buttons were followed and the new rows laid out; `changed`
/// tells whether the selected row is to be brought into view.
pub open spec fn selection_moved(a: NotificationsScreen, b: NotificationsScreen, pad: PadFrame, changed: bool) -> bool {
    let n = a.items().len() as int;
    let sel = a.selected_idx as int;
    &&& b.selected_idx == (if n > 0 {
        stepped(sel, pad.up, pad.down, n)
    } else {
        sel
    })
    &&& changed == (n > 0 && step_moves(sel, pad.up, pad.down, n))
    &&& b.row_heights@ == uniform(a.items().len())
    &&& b == (NotificationsScreen { selected_idx: b.selected_idx, row_heights: b.row_heights, ..a })
}

/// How the scroll position is settled: a selection that moved is brought into
/// view, and the position stays within the content.
pub open spec fn settled(s: NotificationsScreen, changed: bool, scroll: int, r: ScrollSettle) -> bool {
    let sel = s.selected_idx as int;
    let wanted = if changed && sel < s.row_heights@.len() {
        reveal_target(LIST_ROW_H * sel, LIST_ROW_H as int, scroll, VIEWPORT_H as int, false)
    } else {
        None
    };
    &&& r.limit == scroll_limit(LIST_ROW_H * s.row_heights@.len(), VIEWPORT_H as int)
    &&& match r.target {
        Some(t) => wanted == Some(t as int),
        None => wanted is None,
    }
}

/// The request for the next page, when it is due.
pub open spec fn page_request(s: NotificationsScreen, scroll: int, has_worker: bool) -> Option<WorkRequest> {
    if has_worker && s.page_due(scroll) {
        Some(WorkRequest::FetchNotifications { cursor: cursor_of(s.state) })
    } else {
        None
    }
}

/// The pictures that are wanted and not at hand were asked for.
pub open spec fn images_asked(
    a: NotificationsScreen,
    b: NotificationsScreen,
    urls: Seq<Seq<char>>,
    cached: Seq<bool>,
    reqs: Seq<WorkRequest>,
) -> bool {
    let n = urls.len() as int;
    &&& fetched(reqs) == asked_for(urls, cached, a.inflight_avatars@, n)
    &&& forall|i: int| 0 <= i < reqs.len() ==> #[trigger] reqs[i] is FetchImage
    &&& b.inflight_avatars@ == inflight_after(urls, cached, a.inflight_avatars@, n)
    &&& b == (NotificationsScreen { inflight_avatars: b.inflight_avatars, ..a })
}

/// The first part of a frame, before anything is drawn: the first requests, the
/// selection, and where the list scrolls to.
pub open spec fn frame_started(
    a: NotificationsScreen,
    b: NotificationsScreen,
    pad: PadFrame,
    scroll: int,
    has_worker: bool,
    now: String,
    out: ListStart,
) -> bool {
    &&& out.requests@ == a.first_requests(has_worker, now)
    &&& exists|changed: bool|
        #[trigger] selection_moved(a.begun(has_worker), b, pad, changed) && settled(
            b,
            changed,
            scroll,
            out.settle,
        )
}

/// The requests of a frame once the scroll position is settled: the next page,
/// then the pictures.
pub open spec fn request_steps(
    a: NotificationsScreen,
    b: NotificationsScreen,
    scroll: int,
    urls: Seq<Seq<char>>,
    cached: Seq<bool>,
    images: Seq<WorkRequest>,
    reqs: Seq<WorkRequest>,
) -> bool {
    let page = page_request(a, scroll, true);
    let m = NotificationsScreen { fetching_more: a.fetching_more || page is Some, ..a };
    &&& images_asked(m, b, urls, cached, images)
    &&& reqs == sent(page) + images
}

/// The requests of a frame once the scroll position is settled. Without a
/// worker there are none.
pub open spec fn frame_asked(
    a: NotificationsScreen,
    b: NotificationsScreen,
    scroll: int,
    urls: Seq<Seq<char>>,
    cached: Seq<bool>,
    has_worker: bool,
    reqs: Seq<WorkRequest>,
) -> bool {
    if has_worker {
        exists|images: Seq<WorkRequest>|
            #[trigger] request_steps(a, b, scroll, urls, cached, images, reqs)
    } else {
        b == a && reqs.len() == 0
    }
}

/// The last part of a frame, behind what is drawn: the bar at the bottom, and a
/// tap on the list where the bar leads nowhere.
pub open spec fn frame_ended(
    a: NotificationsScreen,
    b: NotificationsScreen,
    touches: Seq<TouchPoint>,
    scroll: int,
    action: ScreenAction,
) -> bool {
    &&& b == (NotificationsScreen { tab_bar: b.tab_bar, ..a })
    &&& exists|way: ScreenAction|
        #[trigger] bar_followed(a.tab_bar, b.tab_bar, touches, way) && action == (
        if way is Stay {
            tap_action(a, touches, scroll)
        } else {
            way
        })
}

/// What a tap on the list leads to.
pub open spec fn tap_action(
    s: NotificationsScreen,
    touches: Seq<TouchPoint>,
    scroll: int,
) -> ScreenAction {
    match s.tap_opens(touches, scroll) {
        None => ScreenAction::Stay,
        Some(NotifTapAction::OpenThread(uri)) => ScreenAction::Push(NextScreen::Thread { uri }),
        Some(NotifTapAction::OpenProfile(handle)) => ScreenAction::Push(
            NextScreen::Profile { actor: Some(handle) },
        ),
    }
}

impl NotificationsScreen {
    /// The notifications that are there.
    pub open spec fn items(&self) -> Seq<Notification> {
        notifs_of(self.state)
    }

    /// The rows have one height and belong to the leading notifications, which
    /// are not too many; the selection is one of them, or 0.
    pub open spec fn wf(&self) -> bool {
        &&& self.row_heights@ == uniform(self.row_heights@.len())
        &&& self.row_heights@.len() <= self.items().len()
        &&& LIST_ROW_H * self.items().len() <= MAX_CONTENT_H
        &&& self.selected_idx == 0 || self.selected_idx < self.items().len()
    }

    /// A list that was just opened, of nothing yet.
    pub open spec fn opened(r: NotificationsScreen) -> bool {
        &&& r.state is Loading
        &&& r.selected_idx == 0
        &&& !r.dispatched
        &&& !r.fetching_more
        &&& !r.marked_seen
        &&& r.row_heights@.len() == 0
        &&& r.inflight_avatars@ == Set::<Seq<char>>::empty()
        &&& r.tab_bar.fresh(TopLevel::Notifications)
    }

    /// Notifications that have not been loaded yet.
    pub fn new() -> (r: NotificationsScreen)
        ensures
            r.wf(),
            Self::opened(r),
    {
        let r = NotificationsScreen {
            state: NotifState::Loading,
            selected_idx: 0,
            dispatched: false,
            fetching_more: false,
            marked_seen: false,
            row_heights: Vec::new(),
            inflight_avatars: StringHashSet::new(),
            tab_bar: TabBar::new(TopLevel::Notifications),
        };
        assert(r.row_heights@ =~= uniform(0));
        r
    }

    /// The screen once its first requests were sent.
    pub open spec fn begun(self, has_worker: bool) -> NotificationsScreen {
        NotificationsScreen {
            dispatched: self.dispatched || has_worker,
            marked_seen: self.marked_seen || has_worker,
            ..self
        }
    }

    /// The first requests: the first page, and the mark that everything up to
    /// `now` has been seen. Each is sent once.
    pub open spec fn first_requests(self, has_worker: bool, now: String) -> Seq<WorkRequest> {
        (if has_worker && !self.dispatched {
            seq![WorkRequest::FetchNotifications { cursor: None }]
        } else {
            Seq::empty()
        }) + (if has_worker && !self.marked_seen {
            seq![WorkRequest::MarkSeen { seen_at: now }]
        } else {
            Seq::empty()
        })
    }

    /// The first requests. `now` is the present time in RFC 3339 form.
    pub fn begin_frame(&mut self, has_worker: bool, now: String) -> (r: Vec<WorkRequest>)
        requires
            old(self).wf(),
        ensures
            final(self).wf(),
            *final(self) == old(self).begun(has_worker),
            r@ == old(self).first_requests(has_worker, now),
    {
        let mut r: Vec<WorkRequest> = Vec::new();
        if !self.dispatched && has_worker {
            r.push(WorkRequest::FetchNotifications { cursor: None });
            self.dispatched = true;
        }
        if !self.marked_seen && has_worker {
            r.push(WorkRequest::MarkSeen { seen_at: now });
            self.marked_seen = true;
        }
        r
    }

    /// Moves the selection and lays out the rows that are new; `true` means
    /// that the selection is to be brought into view.
    pub fn move_selection(&mut self, pad: &PadFrame) -> (r: bool)
        requires
            old(self).wf(),
        ensures
            final(self).wf(),
            selection_moved(*old(self), *final(self), *pad, r),
    {
        let n: usize = match &self.state {
            NotifState::Loaded { notifications, .. } => notifications.len(),
            _ => 0,
        };
        let mut moved = false;
        if n > 0 {
            let (s, m) = step_selection(self.selected_idx, pad.up, pad.down, n);
            self.selected_idx = s;
            moved = m;
        }
        fill_rows(&mut self.row_heights, n);
        moved
    }

    /// Settles the scroll position: a selection that moved is brought into
    /// view, and the position stays within the content.
    pub fn settle_scroll(&self, selection_changed: bool, scroll: i32) -> (r: ScrollSettle)
        requires
            self.wf(),
            -1000 <= scroll <= MAX_CONTENT_H,
        ensures
            settled(*self, selection_changed, scroll as int, r),
    {
        proof {
            lemma_uniform(
                self.row_heights@.len(),
                if self.selected_idx < self.row_heights@.len() {
                    self.selected_idx as int
                } else {
                    0
                },
            );
        }
        let limit: i32 = max_scroll(content_height(&self.row_heights), VIEWPORT_H);
        let target = if selection_changed {
            reveal_row(&self.row_heights, self.selected_idx, scroll, VIEWPORT_H, false)
        } else {
            None
        };
        ScrollSettle { target, limit }
    }

    /// The next page is due.
    pub open spec fn page_due(&self, scroll: int) -> bool {
        !self.fetching_more && cursor_of(self.state) is Some && scroll + VIEWPORT_H
            + PAGINATION_THRESHOLD >= LIST_ROW_H * self.row_heights@.len()
    }

    /// Asks for the next page when the end is close.
    pub fn paginate(&mut self, scroll: i32, has_worker: bool) -> (r: Option<WorkRequest>)
        requires
            old(self).wf(),
            0 <= scroll <= MAX_CONTENT_H,
        ensures
            final(self).wf(),
            r == page_request(*old(self), scroll as int, has_worker),
            *final(self) == (NotificationsScreen {
                fetching_more: old(self).fetching_more || r is Some,
                ..*old(self)
            }),
    {
        proof {
            lemma_uniform(self.row_heights@.len(), 0);
        }
        if self.fetching_more || !has_worker {
            return None;
        }
        let cursor = match &self.state {
            NotifState::Loaded { next_cursor, .. } => clone_text(next_cursor),
            _ => None,
        };
        if cursor.is_none() || scroll + VIEWPORT_H + PAGINATION_THRESHOLD < content_height(
            &self.row_heights,
        ) {
            return None;
        }
        self.fetching_more = true;
        Some(WorkRequest::FetchNotifications { cursor })
    }

    /// The rows that show at this scroll position.
    pub open spec fn shown(&self, scroll: int) -> Seq<VisibleRow> {
        rows_in_band(
            self.row_heights@,
            HEADER_H - scroll,
            (VIEWPORT_TOP as int, VIEWPORT_BOTTOM as int),
            self.row_heights@.len() as int,
        )
    }

    /// The rows that show at this scroll position.
    pub fn shown_rows(&self, scroll: i32) -> (r: Vec<VisibleRow>)
        requires
            self.wf(),
            0 <= scroll <= MAX_CONTENT_H,
        ensures
            r@ == self.shown(scroll as int),
            forall|k: int|
                0 <= k < r@.len() ==> (#[trigger] r@[k]).index < self.row_heights@.len(),
    {
        proof {
            lemma_uniform(self.row_heights@.len(), 0);
            lemma_visible_rows_exact(
                self.row_heights@,
                HEADER_H - scroll,
                (VIEWPORT_TOP as int, VIEWPORT_BOTTOM as int),
                self.row_heights@.len() as int,
            );
        }
        visible_rows(
            &self.row_heights,
            self.row_heights.len(),
            HEADER_H - scroll,
            VIEWPORT_TOP,
            VIEWPORT_BOTTOM,
        )
    }

    /// The pictures that the visible rows need.
    pub fn wanted_images(&self, scroll: i32) -> (r: Vec<String>)
        requires
            self.wf(),
            0 <= scroll <= MAX_CONTENT_H,
        ensures
            texts(r@) == notif_urls(
                self.items(),
                self.shown(scroll as int),
                self.shown(scroll as int).len() as int,
            ),
    {
        let shown = self.shown_rows(scroll);
        let mut r: Vec<String> = Vec::new();
        assert(texts(r@) =~= Seq::<Seq<char>>::empty());
        match &self.state {
            NotifState::Loaded { notifications, .. } => {
                let mut i: usize = 0;
                while i < shown.len()
                    invariant
                        i <= shown@.len(),
                        self.wf(),
                        self.items() == notifications@,
                        forall|k: int|
                            0 <= k < shown@.len() ==> (#[trigger] shown@[k]).index
                                < self.row_heights@.len(),
                        texts(r@) == notif_urls(notifications@, shown@, i as int),
                    decreases shown@.len() - i,
                {
                    let ghost before = texts(r@);
                    match &notifications[shown[i].index].author.avatar {
                        Some(a) => {
                            let url = avatar_thumbnail_jpeg(a.as_str());
                            r.push(url);
                            assert(texts(r@) =~= before.push(url@));
                        },
                        None => {},
                    }
                    i += 1;
                }
            },
            _ => {},
        }
        r
    }

    /// Asks for the wanted pictures that are not at hand.
    pub fn request_images(&mut self, urls: Vec<String>, cached: &Vec<bool>) -> (r: Vec<WorkRequest>)
        requires
            old(self).wf(),
            urls@.len() <= cached@.len(),
        ensures
            final(self).wf(),
            images_asked(*old(self), *final(self), texts(urls@), cached@, r@),
    {
        request_missing(urls, cached, &mut self.inflight_avatars)
    }

    /// What stands in the list area.
    pub open spec fn shown_body(&self) -> FeedBody {
        match self.state {
            NotifState::Loading => FeedBody::Loading,
            NotifState::Loaded { notifications, .. } => if notifications@.len() == 0 {
                FeedBody::Empty
            } else {
                FeedBody::Posts
            },
            NotifState::Error(e) => FeedBody::Problem(e),
        }
    }

    /// What stands in the list area.
    pub fn body(&self) -> (r: FeedBody)
        ensures
            r == self.shown_body(),
    {
        match &self.state {
            NotifState::Loading => FeedBody::Loading,
            NotifState::Loaded { notifications, .. } => if notifications.len() == 0 {
                FeedBody::Empty
            } else {
                FeedBody::Posts
            },
            NotifState::Error(e) => FeedBody::Problem(e.clone()),
        }
    }

    /// What a tap opens: the picture opens the one who did it, the rest of the
    /// row what it is about. Touches on the bar at the bottom do not count.
    pub open spec fn tap_opens(&self, touches: Seq<TouchPoint>, scroll: int) -> Option<
        NotifTapAction,
    > {
        match row_hit(
            self.shown(scroll),
            touches_between(touches, i32::MIN as int, VIEWPORT_BOTTOM as int),
            0,
        ) {
            None => None,
            Some(h) => Some(
                if h.1 {
                    NotifTapAction::OpenProfile(self.items()[h.0].author.handle)
                } else {
                    notif_target(self.items()[h.0])
                },
            ),
        }
    }

    /// What a tap opens.
    pub fn tap(&self, touches: &Vec<TouchPoint>, scroll: i32) -> (r: ScreenAction)
        requires
            self.wf(),
            0 <= scroll <= MAX_CONTENT_H,
        ensures
            r == tap_action(*self, touches@, scroll as int),
    {
        let inside = touches_in_band(touches, i32::MIN, VIEWPORT_BOTTOM);
        let shown = self.shown_rows(scroll);
        match (&self.state, find_row_hit(&shown, &inside)) {
            (NotifState::Loaded { notifications, .. }, Some((i, on_picture))) => {
                let action = if on_picture {
                    NotifTapAction::OpenProfile(notifications[i].author.handle.clone())
                } else {
                    notif_tap_target(&notifications[i])
                };
                match action {
                    NotifTapAction::OpenThread(uri) => ScreenAction::Push(
                        NextScreen::Thread { uri },
                    ),
                    NotifTapAction::OpenProfile(handle) => ScreenAction::Push(
                        NextScreen::Profile { actor: Some(handle) },
                    ),
                }
            },
            _ => ScreenAction::Stay,
        }
    }

    /// The first part of a frame, before anything is drawn.
    /// `now` is the present time in RFC 3339 form.
    pub fn frame_start(
        &mut self,
        pad: &PadFrame,
        scroll: i32,
        has_worker: bool,
        now: String,
    ) -> (r: ListStart)
        requires
            old(self).wf(),
            -1000 <= scroll <= MAX_CONTENT_H,
        ensures
            final(self).wf(),
            frame_started(*old(self), *final(self), *pad, scroll as int, has_worker, now, r),
    {
        let requests = self.begin_frame(has_worker, now);
        let moved = self.move_selection(pad);
        let settle = self.settle_scroll(moved, scroll);
        assert(selection_moved(old(self).begun(has_worker), *self, *pad, moved));
        ListStart { requests, settle }
    }

    /// The first part of a frame, by the clock.
    pub fn frame_start_now(&mut self, pad: &PadFrame, scroll: i32, has_worker: bool) -> (r:
        ListStart)
        requires
            old(self).wf(),
            -1000 <= scroll <= MAX_CONTENT_H,
        ensures
            final(self).wf(),
            exists|now: String| #[trigger]
                frame_started(
                    *old(self),
                    *final(self),
                    *pad,
                    scroll as int,
                    has_worker,
                    now,
                    r,
                ),
    {
        let now = time_text();
        let ghost stamp = now;
        let r = self.frame_start(pad, scroll, has_worker, now);
        assert(frame_started(*old(self), *self, *pad, scroll as int, has_worker, stamp, r));
        r
    }

    /// The requests of a frame once the scroll position is settled, given the
    /// pictures that are wanted and which of them are at hand.
    pub fn frame_requests(
        &mut self,
        scroll: i32,
        urls: Vec<String>,
        cached: &Vec<bool>,
        has_worker: bool,
    ) -> (r: Vec<WorkRequest>)
        requires
            old(self).wf(),
            0 <= scroll <= MAX_CONTENT_H,
            urls@.len() <= cached@.len(),
        ensures
            final(self).wf(),
            frame_asked(
                *old(self),
                *final(self),
                scroll as int,
                texts(urls@),
                cached@,
                has_worker,
                r@,
            ),
    {
        let mut r: Vec<WorkRequest> = Vec::new();
        if !has_worker {
            return r;
        }
        let ghost urls_v = texts(urls@);
        let page = self.paginate(scroll, true);
        push_sent(&mut r, page);
        let mut images = self.request_images(urls, cached);
        let ghost asked = images@;
        r.append(&mut images);
        assert(r@ =~= sent(page_request(*old(self), scroll as int, true)) + asked);
        assert(request_steps(*old(self), *self, scroll as int, urls_v, cached@, asked, r@));
        r
    }

    /// The last part of a frame: the bar at the bottom, then a tap on the list.
    pub fn frame_end(&mut self, touches: &Vec<TouchPoint>, scroll: i32) -> (r: ScreenAction)
        requires
            old(self).wf(),
            0 <= scroll <= MAX_CONTENT_H,
        ensures
            final(self).wf(),
            frame_ended(*old(self), *final(self), touches@, scroll as int, r),
    {
        let way = follow_bar(&mut self.tab_bar, touches);
        assert(bar_followed(old(self).tab_bar, self.tab_bar, touches@, way));
        if !matches!(way, ScreenAction::Stay) {
            return way;
        }
        self.tap(touches, scroll)
    }

    /// The notifications are a tab.
    pub open spec fn tab_of(s: Self, r: Option<TopLevel>) -> bool {
        r == Some(TopLevel::Notifications)
    }

    /// The destination that this screen is.
    pub fn top_level(&self) -> (r: Option<TopLevel>)
        ensures
            Self::tab_of(*self, r),
    {
        Some(TopLevel::Notifications)
    }

    /// The notifications of an answer fit behind those that are there.
    pub open spec fn answer_fits(&self, resp: WorkResponse) -> bool {
        resp matches WorkResponse::Notifications(Ok(batch)) ==> LIST_ROW_H * (self.items().len()
            + batch.notifications@.len()) <= MAX_CONTENT_H
    }

    /// Whether the notifications of an answer fit behind those that are there.
    pub fn answer_room(&self, resp: &WorkResponse) -> (r: bool)
        ensures
            r == self.answer_fits(*resp),
    {
        let have: usize = match &self.state {
            NotifState::Loaded { notifications, .. } => notifications.len(),
            _ => 0,
        };
        match resp {
            WorkResponse::Notifications(Ok(batch)) => list_rows_hold(
                have,
                batch.notifications.len(),
            ),
            _ => true,
        }
    }

    /// Takes an answer of the worker. An empty last page, which is also what
    /// the mark of having seen everything is answered with, changes nothing.
    pub fn handle_worker_response(&mut self, resp: WorkResponse)
        requires
            old(self).wf(),
            old(self).answer_fits(resp),
        ensures
            final(self).wf(),
            notifs_responded(*old(self), *final(self), resp),
    {
        match resp {
            WorkResponse::Notifications(Ok(batch)) => {
                self.fetching_more = false;
                if batch.notifications.len() == 0 && batch.cursor.is_none() {
                    return;
                }
                let mut more = batch.notifications;
                match &mut self.state {
                    NotifState::Loaded { notifications, next_cursor } => {
                        notifications.append(&mut more);
                        *next_cursor = batch.cursor;
                    },
                    _ => {
                        self.state = NotifState::Loaded {
                            notifications: more,
                            next_cursor: batch.cursor,
                        };
                        assert(self.items() =~= old(self).items() + batch.notifications@);
                    },
                }
            },
            WorkResponse::Notifications(Err(e)) => {
                self.fetching_more = false;
                if matches!(self.state, NotifState::Loading) {
                    self.state = NotifState::Error(e);
                }
            },
            WorkResponse::Image { url, .. } => {
                self.inflight_avatars.remove(url.as_str());
            },
            _ => {},
        }
    }
}

/// The answer to having marked everything as seen never replaces what is
/// shown.
pub proof fn lemma_seen_mark_changes_nothing(
    a: NotificationsScreen,
    b: NotificationsScreen,
    resp: WorkResponse,
)
    requires
        notifs_responded(a, b, resp),
        resp matches WorkResponse::Notifications(Ok(batch)) && batch.notifications@.len() == 0
            && batch.cursor is None,
    ensures
        b.state == a.state,
{
}

} // verus!
