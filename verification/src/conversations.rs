//! The list of conversations, the latest activity first.

use vstd::hash_set::StringHashSet;
use vstd::prelude::*;

use crate::cdn::avatar_thumbnail_jpeg;
#[allow(unused_imports)]
use crate::cdn::thumbnail_url;
use crate::conversation::{build_title, dm_scope_text, find_other};
#[allow(unused_imports)]
use crate::conversation::{dm_scope_detail, first_other, is_scope_error, title_of};
#[allow(unused_imports)]
use crate::embeds::texts;
use crate::images::request_missing;
#[allow(unused_imports)]
use crate::images::{asked_for, fetched, inflight_after};
#[allow(unused_imports)]
use crate::model::same_convo;
use crate::model::{clone_text, Author, ConvoView, LastMessage};
use crate::notifications::{find_row_hit, ListStart};
#[allow(unused_imports)]
use crate::notifications::row_hit;
#[allow(unused_imports)]
use crate::requests::sent;
use crate::requests::{push_sent, WorkRequest, WorkResponse};
use crate::rows::{
    content_height, fill_rows, list_rows_hold, max_scroll, reveal_row, step_selection,
    visible_rows, LIST_ROW_H, PAGINATION_THRESHOLD,
};
#[allow(unused_imports)]
use crate::rows::{
    lemma_uniform, lemma_visible_rows_exact, reveal_target, rows_in_band, scroll_limit, step_moves,
    stepped, uniform, VisibleRow, MAX_CONTENT_H,
};
#[allow(unused_imports)]
use crate::screen::bar_followed;
use crate::screen::{follow_bar, NextScreen, ScreenAction};
use crate::tabbar::{TabBar, TopLevel};
use crate::text::{head_chars, owned, starts_with};
#[allow(unused_imports)]
use crate::text::first_chars;
use crate::timeline::ScrollSettle;
use crate::widget::{touches_in_band, PadFrame, TouchPoint};
#[allow(unused_imports)]
use crate::widget::touches_between;

verus! {

pub const HEADER_H: i32 = 40;

pub const VIEWPORT_TOP: i32 = 40;

pub const VIEWPORT_BOTTOM: i32 = 484;

pub const VIEWPORT_H: i32 = 444;

/// How far the list has come.
#[derive(Debug)]
pub enum ListState {
    Loading,
    Loaded { convos: Vec<ConvoView>, next_cursor: Option<String> },
    Error { msg: String, auth_scope: bool },
}

/// The conversations on screen.
pub struct ConversationListScreen {
    pub own_did: String,
    pub state: ListState,
    pub selected_idx: usize,
    pub dispatched: bool,
    pub fetching_more: bool,
    pub row_heights: Vec<i32>,
    pub inflight_avatars: StringHashSet,
    pub tab_bar: TabBar,
}

/// What stands in the list area.
#[derive(Debug)]
pub enum ConvosBody {
    Loading,
    Empty,
    Rows,
    Problem { title: String, detail: String },
}

// ── Words ──────────────────────────────────────────────────────────────

/// The member whose picture stands for a conversation: the first one other
/// than the reader. A conversation without another member has none.
pub open spec fn face_of(c: ConvoView, own: Seq<char>) -> Option<Author> {
    first_other(c.members@, own, 0)
}

/// The member whose picture stands for a conversation.
pub fn primary_other<'a>(convo: &'a ConvoView, own_did: &str) -> (r: Option<&'a Author>)
    ensures
        match r {
            Some(m) => face_of(*convo, own_did@) == Some(*m),
            None => face_of(*convo, own_did@) is None,
        },
{
    match find_other(&convo.members, own_did) {
        Some(i) => Some(&convo.members[i]),
        None => None,
    }
}

/// The title of a conversation.
pub fn convo_title(convo: &ConvoView, own_did: &str) -> (r: String)
    ensures
        r@ == title_of(convo.members@, own_did@),
{
    build_title(&convo.members, own_did)
}

/// The second line of a conversation: the start of its last message.
pub open spec fn snippet_of(c: ConvoView) -> Seq<char> {
    match c.last_message {
        Some(LastMessage::Message(m)) => first_chars(m.text@, 80),
        Some(LastMessage::Deleted(_)) => "(message deleted)"@,
        _ => Seq::empty(),
    }
}

/// The second line of a conversation.
pub fn last_message_snippet(convo: &ConvoView) -> (r: String)
    ensures
        r@ == snippet_of(*convo),
{
    match &convo.last_message {
        Some(LastMessage::Message(m)) => head_chars(m.text.as_str(), 80),
        Some(LastMessage::Deleted(_)) => owned("(message deleted)"),
        _ => String::new(),
    }
}

// ── The screen ─────────────────────────────────────────────────────────

/// The conversations of a state.
pub open spec fn convos_of(s: ListState) -> Seq<ConvoView> {
    match s {
        ListState::Loaded { convos, .. } => convos@,
        _ => Seq::empty(),
    }
}

/// The cursor of a state.
pub open spec fn cursor_of(s: ListState) -> Option<String> {
    match s {
        ListState::Loaded { next_cursor, .. } => next_cursor,
        _ => None,
    }
}

/// The pictures of the rows that show.
pub open spec fn face_urls(
    items: Seq<ConvoView>,
    own: Seq<char>,
    shown: Seq<VisibleRow>,
    n: int,
) -> Seq<Seq<char>>
    decreases n,
{
    if n <= 0 {
        Seq::empty()
    } else {
        let before = face_urls(items, own, shown, n - 1);
        match face_of(items[shown[n - 1].index as int], own) {
            Some(m) => match m.avatar {
                Some(a) => before.push(thumbnail_url(a@)),
                None => before,
            },
            None => before,
        }
    }
}

/// What stands in the list area.
pub open spec fn body_is(s: ListState, r: ConvosBody) -> bool {
    match s {
        ListState::Loading => r is Loading,
        ListState::Loaded { convos, .. } => if convos@.len() == 0 {
            r is Empty
        } else {
            r is Rows
        },
        ListState::Error { msg, auth_scope } => {
            &&& r is Problem
            &&& r->title@ == (if auth_scope {
                "Direct messages unavailable"@
            } else {
                "Could not load conversations"@
            })
            &&& r->detail@ == (if auth_scope {
                dm_scope_detail()
            } else {
                msg@
            })
        },
    }
}

/// What an answer makes of the list.
pub open spec fn convos_responded(
    a: ConversationListScreen,
    b: ConversationListScreen,
    resp: WorkResponse,
) -> bool {
    match resp {
        WorkResponse::Convos(Ok(batch)) => {
            &&& b.state is Loaded
            &&& b.items() == a.items() + batch.convos@
            &&& cursor_of(b.state) == batch.cursor
            &&& b == (ConversationListScreen { fetching_more: false, state: b.state, ..a })
        },
        WorkResponse::Convos(Err(e)) => b == (ConversationListScreen {
            fetching_more: false,
            state: if a.state is Loading {
                ListState::Error { msg: e, auth_scope: is_scope_error(e@) }
            } else {
                a.state
            },
            ..a
        }),
        WorkResponse::Image { url, .. } => {
            &&& b.inflight_avatars@ == a.inflight_avatars@.remove(url@)
            &&& b == (ConversationListScreen { inflight_avatars: b.inflight_avatars, ..a })
        },
        _ => b == a,
    }
}

// ── What one frame does ────────────────────────────────────────────────

/// The request for the first page, as long as it was not sent.
pub open spec fn first_request(s: ConversationListScreen, has_worker: bool) -> Option<WorkRequest> {
    if has_worker && !s.dispatched {
        Some(WorkRequest::FetchConvos { cursor: None })
    } else {
        None
    }
}

/// The screen once that request is sent.
pub open spec fn begun(s: ConversationListScreen, has_worker: bool) -> ConversationListScreen {
    ConversationListScreen { dispatched: s.dispatched || has_worker, ..s }
}

/// The up and down buttons were followed and the new rows laid out; `changed`
/// tells whether the selected row is to be brought into view.
pub open spec fn selection_moved(a: ConversationListScreen, b: ConversationListScreen, pad: PadFrame, changed: bool) -> bool {
    let n = a.items().len() as int;
    let sel = a.selected_idx as int;
    &&& b.selected_idx == (if n > 0 {
        stepped(sel, pad.up, pad.down, n)
    } else {
        sel
    })
    &&& changed == (n > 0 && step_moves(sel, pad.up, pad.down, n))
    &&& b.row_heights@ == uniform(a.items().len())
    &&& b == (ConversationListScreen { selected_idx: b.selected_idx, row_heights: b.row_heights, ..a })
}

/// How the scroll position is settled: a selection that moved is brought into
/// view, and the position stays within the content.
pub open spec fn settled(s: ConversationListScreen, changed: bool, scroll: int, r: ScrollSettle) -> bool {
    let sel = s.selected_idx as int;
    let wanted = if changed && sel < s.row_heights@.len() {
        reveal_target(LIST_ROW_H * sel, LIST_ROW_H as int, scroll, VIEWPORT_H as int, false)
    } else {
        None
    };
    &&& r.limit == scroll_limit(LIST_ROW_H * s.row_heights@.len(), VIEWPORT_H as int)
    &&& match r.target {
        Some(t) => wanted == Some(t as int),
        None => wanted is None,
    }
}

/// The request for the next page, when it is due.
pub open spec fn page_request(s: ConversationListScreen, scroll: int, has_worker: bool) -> Option<WorkRequest> {
    if has_worker && s.page_due(scroll) {
        Some(WorkRequest::FetchConvos { cursor: cursor_of(s.state) })
    } else {
        None
    }
}

/// The pictures that are wanted and not at hand were asked for.
pub open spec fn images_asked(
    a: ConversationListScreen,
    b: ConversationListScreen,
    urls: Seq<Seq<char>>,
    cached: Seq<bool>,
    reqs: Seq<WorkRequest>,
) -> bool {
    let n = urls.len() as int;
    &&& fetched(reqs) == asked_for(urls, cached, a.inflight_avatars@, n)
    &&& forall|i: int| 0 <= i < reqs.len() ==> #[trigger] reqs[i] is FetchImage
    &&& b.inflight_avatars@ == inflight_after(urls, cached, a.inflight_avatars@, n)
    &&& b == (ConversationListScreen { inflight_avatars: b.inflight_avatars, ..a })
}

/// The first part of a frame, before anything is drawn: the first requests, the
/// selection, and where the list scrolls to.
pub open spec fn frame_started(
    a: ConversationListScreen,
    b: ConversationListScreen,
    pad: PadFrame,
    scroll: int,
    has_worker: bool,
    out: ListStart,
) -> bool {
    &&& out.requests@ == sent(first_request(a, has_worker))
    &&& exists|changed: bool|
        #[trigger] selection_moved(begun(a, has_worker), b, pad, changed) && settled(
            b,
            changed,
            scroll,
            out.settle,
        )
}

/// The requests of a frame once the scroll position is settled: the next page,
/// then the pictures.
pub open spec fn request_steps(
    a: ConversationListScreen,
    b: ConversationListScreen,
    scroll: int,
    urls: Seq<Seq<char>>,
    cached: Seq<bool>,
    images: Seq<WorkRequest>,
    reqs: Seq<WorkRequest>,
) -> bool {
    let page = page_request(a, scroll, true);
    let m = ConversationListScreen { fetching_more: a.fetching_more || page is Some, ..a };
    &&& images_asked(m, b, urls, cached, images)
    &&& reqs == sent(page) + images
}

/// The requests of a frame once the scroll position is settled. Without a
/// worker there are none.
pub open spec fn frame_asked(
    a: ConversationListScreen,
    b: ConversationListScreen,
    scroll: int,
    urls: Seq<Seq<char>>,
    cached: Seq<bool>,
    has_worker: bool,
    reqs: Seq<WorkRequest>,
) -> bool {
    if has_worker {
        exists|images: Seq<WorkRequest>|
            #[trigger] request_steps(a, b, scroll, urls, cached, images, reqs)
    } else {
        b == a && reqs.len() == 0
    }
}

/// The last part of a frame, behind what is drawn: the bar at the bottom, and a
/// tap on the list where the bar leads nowhere.
pub open spec fn frame_ended(
    a: ConversationListScreen,
    b: ConversationListScreen,
    touches: Seq<TouchPoint>,
    scroll: int,
    action: ScreenAction,
) -> bool {
    &&& b == (ConversationListScreen { tab_bar: b.tab_bar, ..a })
    &&& exists|way: ScreenAction|
        #[trigger] bar_followed(a.tab_bar, b.tab_bar, touches, way) && if way is Stay {
            tap_leads(a, touches, scroll, action)
        } else {
            action == way
        }
}

/// What a tap on the list leads to: the picture opens the member's profile, the
/// rest of the row the conversation. Touches on the bar at the bottom do not
/// count.
pub open spec fn tap_leads(
    s: ConversationListScreen,
    touches: Seq<TouchPoint>,
    scroll: int,
    action: ScreenAction,
) -> bool {
    match row_hit(
        s.shown(scroll),
        touches_between(touches, i32::MIN as int, VIEWPORT_BOTTOM as int),
        0,
    ) {
        None => action is Stay,
        Some(h) => if h.1 {
            action == (match face_of(s.items()[h.0], s.own_did@) {
                Some(m) => ScreenAction::Push(NextScreen::Profile { actor: Some(m.handle) }),
                None => ScreenAction::Stay,
            })
        } else {
            &&& action matches ScreenAction::Push(NextScreen::Conversation { convo })
            &&& same_convo(convo, s.items()[h.0])
        },
    }
}

impl ConversationListScreen {
    /// The conversations that are there.
    pub open spec fn items(&self) -> Seq<ConvoView> {
        convos_of(self.state)
    }

    /// The rows have one height and belong to the leading conversations, which
    /// are not too many; the selection is one of them, or 0.
    pub open spec fn wf(&self) -> bool {
        &&& self.row_heights@ == uniform(self.row_heights@.len())
        &&& self.row_heights@.len() <= self.items().len()
        &&& LIST_ROW_H * self.items().len() <= MAX_CONTENT_H
        &&& self.selected_idx == 0 || self.selected_idx < self.items().len()
    }

    /// A list that was just opened, of nothing yet.
    pub open spec fn opened(own_did: String, r: ConversationListScreen) -> bool {
        &&& r.own_did == own_did
        &&& r.state is Loading
        &&& r.selected_idx == 0
        &&& !r.dispatched
        &&& !r.fetching_more
        &&& r.row_heights@.len() == 0
        &&& r.inflight_avatars@ == Set::<Seq<char>>::empty()
        &&& r.tab_bar.fresh(TopLevel::Messages)
    }

    /// A list that has not been loaded yet.
    pub fn new(own_did: String) -> (r: ConversationListScreen)
        ensures
            r.wf(),
            Self::opened(own_did, r),
    {
        let r = ConversationListScreen {
            own_did,
            state: ListState::Loading,
            selected_idx: 0,
            dispatched: false,
            fetching_more: false,
            row_heights: Vec::new(),
            inflight_avatars: StringHashSet::new(),
            tab_bar: TabBar::new(TopLevel::Messages),
        };
        assert(r.row_heights@ =~= uniform(0));
        r
    }

    /// Asks for the first page, once.
    pub fn begin_frame(&mut self, has_worker: bool) -> (r: Option<WorkRequest>)
        requires
            old(self).wf(),
        ensures
            final(self).wf(),
            r == first_request(*old(self), has_worker),
            *final(self) == begun(*old(self), has_worker),
    {
        if !self.dispatched && has_worker {
            self.dispatched = true;
            return Some(WorkRequest::FetchConvos { cursor: None });
        }
        None
    }

    /// Moves the selection and lays out the rows that are new; `true` means
    /// that the selection is to be brought into view.
    pub fn move_selection(&mut self, pad: &PadFrame) -> (r: bool)
        requires
            old(self).wf(),
        ensures
            final(self).wf(),
            selection_moved(*old(self), *final(self), *pad, r),
    {
        let n: usize = match &self.state {
            ListState::Loaded { convos, .. } => convos.len(),
            _ => 0,
        };
        let mut moved = false;
        if n > 0 {
            let (s, m) = step_selection(self.selected_idx, pad.up, pad.down, n);
            self.selected_idx = s;
            moved = m;
        }
        fill_rows(&mut self.row_heights, n);
        moved
    }

    /// Settles the scroll position: a selection that moved is brought into
    /// view, and the position stays within the content.
    pub fn settle_scroll(&self, selection_changed: bool, scroll: i32) -> (r: ScrollSettle)
        requires
            self.wf(),
            -1000 <= scroll <= MAX_CONTENT_H,
        ensures
            settled(*self, selection_changed, scroll as int, r),
    {
        proof {
            lemma_uniform(
                self.row_heights@.len(),
                if self.selected_idx < self.row_heights@.len() {
                    self.selected_idx as int
                } else {
                    0
                },
            );
        }
        let limit: i32 = max_scroll(content_height(&self.row_heights), VIEWPORT_H);
        let target = if selection_changed {
            reveal_row(&self.row_heights, self.selected_idx, scroll, VIEWPORT_H, false)
        } else {
            None
        };
        ScrollSettle { target, limit }
    }

    /// The next page is due.
    pub open spec fn page_due(&self, scroll: int) -> bool {
        !self.fetching_more && cursor_of(self.state) is Some && scroll + VIEWPORT_H
            + PAGINATION_THRESHOLD >= LIST_ROW_H * self.row_heights@.len()
    }

    /// Asks for the next page when the end is close.
    pub fn paginate(&mut self, scroll: i32, has_worker: bool) -> (r: Option<WorkRequest>)
        requires
            old(self).wf(),
            0 <= scroll <= MAX_CONTENT_H,
        ensures
            final(self).wf(),
            r == page_request(*old(self), scroll as int, has_worker),
            *final(self) == (ConversationListScreen {
                fetching_more: old(self).fetching_more || r is Some,
                ..*old(self)
            }),
    {
        proof {
            lemma_uniform(self.row_heights@.len(), 0);
        }
        if self.fetching_more || !has_worker {
            return None;
        }
        let cursor = match &self.state {
            ListState::Loaded { next_cursor, .. } => clone_text(next_cursor),
            _ => None,
        };
        if cursor.is_none() || scroll + VIEWPORT_H + PAGINATION_THRESHOLD < content_height(
            &self.row_heights,
        ) {
            return None;
        }
        self.fetching_more = true;
        Some(WorkRequest::FetchConvos { cursor })
    }

    /// The rows that show at this scroll position.
    pub open spec fn shown(&self, scroll: int) -> Seq<VisibleRow> {
        rows_in_band(
            self.row_heights@,
            HEADER_H - scroll,
            (VIEWPORT_TOP as int, VIEWPORT_BOTTOM as int),
            self.row_heights@.len() as int,
        )
    }

    /// The rows that show at this scroll position.
    pub fn shown_rows(&self, scroll: i32) -> (r: Vec<VisibleRow>)
        requires
            self.wf(),
            0 <= scroll <= MAX_CONTENT_H,
        ensures
            r@ == self.shown(scroll as int),
            forall|k: int|
                0 <= k < r@.len() ==> (#[trigger] r@[k]).index < self.row_heights@.len(),
    {
        proof {
            lemma_uniform(self.row_heights@.len(), 0);
            lemma_visible_rows_exact(
                self.row_heights@,
                HEADER_H - scroll,
                (VIEWPORT_TOP as int, VIEWPORT_BOTTOM as int),
                self.row_heights@.len() as int,
            );
        }
        visible_rows(
            &self.row_heights,
            self.row_heights.len(),
            HEADER_H - scroll,
            VIEWPORT_TOP,
            VIEWPORT_BOTTOM,
        )
    }

    /// The pictures that the visible rows need.
    pub fn wanted_images(&self, scroll: i32) -> (r: Vec<String>)
        requires
            self.wf(),
            0 <= scroll <= MAX_CONTENT_H,
        ensures
            texts(r@) == face_urls(
                self.items(),
                self.own_did@,
                self.shown(scroll as int),
                self.shown(scroll as int).len() as int,
            ),
    {
        let shown = self.shown_rows(scroll);
        let mut r: Vec<String> = Vec::new();
        assert(texts(r@) =~= Seq::<Seq<char>>::empty());
        match &self.state {
            ListState::Loaded { convos, .. } => {
                let mut i: usize = 0;
                while i < shown.len()
                    invariant
                        i <= shown@.len(),
                        self.wf(),
                        self.items() == convos@,
                        forall|k: int|
                            0 <= k < shown@.len() ==> (#[trigger] shown@[k]).index
                                < self.row_heights@.len(),
                        texts(r@) == face_urls(convos@, self.own_did@, shown@, i as int),
                    decreases shown@.len() - i,
                {
                    let ghost before = texts(r@);
                    match primary_other(&convos[shown[i].index], self.own_did.as_str()) {
                        Some(m) => match &m.avatar {
                            Some(a) => {
                                let url = avatar_thumbnail_jpeg(a.as_str());
                                r.push(url);
                                assert(texts(r@) =~= before.push(url@));
                            },
                            None => {},
                        },
                        None => {},
                    }
                    i += 1;
                }
            },
            _ => {},
        }
        r
    }

    /// Asks for the wanted pictures that are not at hand.
    pub fn request_images(&mut self, urls: Vec<String>, cached: &Vec<bool>) -> (r: Vec<WorkRequest>)
        requires
            old(self).wf(),
            urls@.len() <= cached@.len(),
        ensures
            final(self).wf(),
            images_asked(*old(self), *final(self), texts(urls@), cached@, r@),
    {
        request_missing(urls, cached, &mut self.inflight_avatars)
    }

    /// What stands in the list area.
    pub fn body(&self) -> (r: ConvosBody)
        ensures
            body_is(self.state, r),
    {
        match &self.state {
            ListState::Loading => ConvosBody::Loading,
            ListState::Loaded { convos, .. } => if convos.len() == 0 {
                ConvosBody::Empty
            } else {
                ConvosBody::Rows
            },
            ListState::Error { msg, auth_scope } => if *auth_scope {
                ConvosBody::Problem {
                    title: owned("Direct messages unavailable"),
                    detail: dm_scope_text(),
                }
            } else {
                ConvosBody::Problem {
                    title: owned("Could not load conversations"),
                    detail: msg.clone(),
                }
            },
        }
    }

    /// What a tap on the list leads to.
    pub fn tap(&self, touches: &Vec<TouchPoint>, scroll: i32) -> (r: ScreenAction)
        requires
            self.wf(),
            0 <= scroll <= MAX_CONTENT_H,
        ensures
            tap_leads(*self, touches@, scroll as int, r),
    {
        let inside = touches_in_band(touches, i32::MIN, VIEWPORT_BOTTOM);
        let shown = self.shown_rows(scroll);
        match (&self.state, find_row_hit(&shown, &inside)) {
            (ListState::Loaded { convos, .. }, Some((i, on_picture))) => {
                if on_picture {
                    match primary_other(&convos[i], self.own_did.as_str()) {
                        Some(m) => ScreenAction::Push(
                            NextScreen::Profile { actor: Some(m.handle.clone()) },
                        ),
                        None => ScreenAction::Stay,
                    }
                } else {
                    ScreenAction::Push(NextScreen::Conversation { convo: convos[i].clone() })
                }
            },
            _ => ScreenAction::Stay,
        }
    }

    /// The first part of a frame, before anything is drawn.
    pub fn frame_start(
        &mut self,
        pad: &PadFrame,
        scroll: i32,
        has_worker: bool,
    ) -> (r: ListStart)
        requires
            old(self).wf(),
            -1000 <= scroll <= MAX_CONTENT_H,
        ensures
            final(self).wf(),
            frame_started(*old(self), *final(self), *pad, scroll as int, has_worker, r),
    {
        let mut requests: Vec<WorkRequest> = Vec::new();
        let first = self.begin_frame(has_worker);
        push_sent(&mut requests, first);
        assert(requests@ =~= sent(first_request(*old(self), has_worker)));
        let moved = self.move_selection(pad);
        let settle = self.settle_scroll(moved, scroll);
        assert(selection_moved(begun(*old(self), has_worker), *self, *pad, moved));
        ListStart { requests, settle }
    }

    /// The requests of a frame once the scroll position is settled, given the
    /// pictures that are wanted and which of them are at hand.
    pub fn frame_requests(
        &mut self,
        scroll: i32,
        urls: Vec<String>,
        cached: &Vec<bool>,
        has_worker: bool,
    ) -> (r: Vec<WorkRequest>)
        requires
            old(self).wf(),
            0 <= scroll <= MAX_CONTENT_H,
            urls@.len() <= cached@.len(),
        ensures
            final(self).wf(),
            frame_asked(
                *old(self),
                *final(self),
                scroll as int,
                texts(urls@),
                cached@,
                has_worker,
                r@,
            ),
    {
        let mut r: Vec<WorkRequest> = Vec::new();
        if !has_worker {
            return r;
        }
        let ghost urls_v = texts(urls@);
        let page = self.paginate(scroll, true);
        push_sent(&mut r, page);
        let mut images = self.request_images(urls, cached);
        let ghost asked = images@;
        r.append(&mut images);
        assert(r@ =~= sent(page_request(*old(self), scroll as int, true)) + asked);
        assert(request_steps(*old(self), *self, scroll as int, urls_v, cached@, asked, r@));
        r
    }

    /// The last part of a frame: the bar at the bottom, then a tap on the list.
    pub fn frame_end(&mut self, touches: &Vec<TouchPoint>, scroll: i32) -> (r: ScreenAction)
        requires
            old(self).wf(),
            0 <= scroll <= MAX_CONTENT_H,
        ensures
            final(self).wf(),
            frame_ended(*old(self), *final(self), touches@, scroll as int, r),
    {
        let way = follow_bar(&mut self.tab_bar, touches);
        assert(bar_followed(old(self).tab_bar, self.tab_bar, touches@, way));
        if !matches!(way, ScreenAction::Stay) {
            return way;
        }
        self.tap(touches, scroll)
    }

    /// The conversations are a tab.
    pub open spec fn tab_of(s: Self, r: Option<TopLevel>) -> bool {
        r == Some(TopLevel::Messages)
    }

    /// The destination that this screen is.
    pub fn top_level(&self) -> (r: Option<TopLevel>)
        ensures
            Self::tab_of(*self, r),
    {
        Some(TopLevel::Messages)
    }

    /// The conversations of an answer fit behind those that are there.
    pub open spec fn answer_fits(&self, resp: WorkResponse) -> bool {
        resp matches WorkResponse::Convos(Ok(batch)) ==> LIST_ROW_H * (self.items().len()
            + batch.convos@.len()) <= MAX_CONTENT_H
    }

    /// Whether the conversations of an answer fit behind those that are there.
    pub fn answer_room(&self, resp: &WorkResponse) -> (r: bool)
        ensures
            r == self.answer_fits(*resp),
    {
        let have: usize = match &self.state {
            ListState::Loaded { convos, .. } => convos.len(),
            _ => 0,
        };
        match resp {
            WorkResponse::Convos(Ok(batch)) => list_rows_hold(have, batch.convos.len()),
            _ => true,
        }
    }

    /// Takes an answer of the worker.
    pub fn handle_worker_response(&mut self, resp: WorkResponse)
        requires
            old(self).wf(),
            old(self).answer_fits(resp),
        ensures
            final(self).wf(),
            convos_responded(*old(self), *final(self), resp),
    {
        match resp {
            WorkResponse::Convos(Ok(batch)) => {
                self.fetching_more = false;
                let mut more = batch.convos;
                match &mut self.state {
                    ListState::Loaded { convos, next_cursor } => {
                        convos.append(&mut more);
                        *next_cursor = batch.cursor;
                    },
                    _ => {
                        self.state = ListState::Loaded { convos: more, next_cursor: batch.cursor };
                        assert(self.items() =~= old(self).items() + batch.convos@);
                    },
                }
            },
            WorkResponse::Convos(Err(e)) => {
                self.fetching_more = false;
                if matches!(self.state, ListState::Loading) {
                    let auth_scope = starts_with(e.as_str(), "DM_SCOPE:");
                    self.state = ListState::Error { msg: e, auth_scope };
                }
            },
            WorkResponse::Image { url, .. } => {
                self.inflight_avatars.remove(url.as_str());
            },
            _ => {},
        }
    }
}

} // verus!
