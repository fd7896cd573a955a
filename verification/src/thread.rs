//! The thread screen: the posts above a post, from the root down; the post
//! itself; and the replies to it.

use vstd::hash_set::StringHashSet;
use vstd::prelude::*;

use crate::cdn::avatar_thumbnail_jpeg;
#[allow(unused_imports)]
use crate::cdn::thumbnail_url;
#[allow(unused_imports)]
use crate::embeds::texts;
use crate::engagement::EngagementKind;
#[allow(unused_imports)]
use crate::engagement::{can_toggle, first_confirmed, toggle_request_is};
use crate::images::request_missing;
#[allow(unused_imports)]
use crate::images::{asked_for, fetched, inflight_after};
use crate::model::{FeedPost, PostView};
use crate::post_list::{open_tap, PostList};
#[allow(unused_imports)]
use crate::post_list::{marks_have_room, posts_marked, tap_has_room, tap_opens};
use crate::post_row::{TapAction, TextHeights};
#[allow(unused_imports)]
use crate::post_row::row_height;
#[allow(unused_imports)]
use crate::requests::sent;
use crate::requests::{push_sent, ReplyTarget, ThreadBatch, WorkRequest, WorkResponse};
use crate::rows::{
    content_height, max_scroll, reveal_row, step_selection, top_of, visible_rows,
};
#[allow(unused_imports)]
use crate::rows::{
    lemma_row_top_bounds, lemma_visible_rows_exact, reveal_target, row_top, rows_in_band,
    scroll_limit, step_moves, stepped, total, MAX_CONTENT_H,
};
#[allow(unused_imports)]
use crate::screen::pushed;
use crate::screen::{push_screen, NextScreen, ScreenAction};
use crate::timeline::{FeedBody, FeedStart, PadOutcome, ScrollSettle};
use crate::widget::{PadFrame, TouchPoint, SCREEN_HEIGHT};

verus! {

pub const HEADER_H: i32 = 40;

pub const VIEWPORT_H: i32 = 504;

/// How far a thread has come.
pub enum ThreadState {
    Loading,
    /// The posts above, the post itself at `main_idx`, and the replies.
    Loaded { list: PostList, main_idx: usize },
    Error(String),
}

/// A thread on screen.
pub struct ThreadScreen {
    pub uri: String,
    pub state: ThreadState,
    pub dispatched: bool,
    pub inflight_avatars: StringHashSet,
    /// The view goes to the post itself once its place is known.
    pub pending_scroll_to_main: bool,
}

/// What the last part of a frame of a thread asks for.
#[derive(Debug)]
pub struct ThreadEnd {
    pub requests: Vec<WorkRequest>,
    /// Anything but staying ends the frame.
    pub action: ScreenAction,
}

/// What the last part of a frame of a thread is given.
pub ghost struct ThreadInput {
    pub touches: Seq<TouchPoint>,
    pub scroll: int,
    pub urls: Seq<Seq<char>>,
    pub cached: Seq<bool>,
    pub has_worker: bool,
}

/// A post as an entry of a list: not in a feed for any reason.
pub open spec fn feed_entry(p: PostView) -> FeedPost {
    FeedPost { post: p, reason: None, reply: None }
}

/// A post as an entry of a list.
pub fn post_to_feed(post: PostView) -> (r: FeedPost)
    ensures
        r == feed_entry(post),
{
    FeedPost { post, reason: None, reply: None }
}

/// Posts as entries of a list.
pub open spec fn feed_entries(posts: Seq<PostView>) -> Seq<FeedPost> {
    Seq::new(posts.len(), |i: int| feed_entry(posts[i]))
}

/// A thread as one list: from the root down to the post, then the replies.
pub open spec fn flattened(b: ThreadBatch) -> Seq<FeedPost> {
    feed_entries(b.parents@).push(feed_entry(b.main)) + feed_entries(b.replies@)
}

/// Moves posts to the end of a list.
fn extend_entries(list: &mut Vec<FeedPost>, posts: Vec<PostView>)
    ensures
        final(list)@ == old(list)@ + feed_entries(posts@),
{
    let ghost before = list@;
    let ghost all = posts@;
    let mut rest = posts;
    let mut turned: Vec<PostView> = Vec::new();
    // Turn the posts round, so that each can be taken off the end.
    while rest.len() > 0
        invariant
            rest@.len() <= all.len(),
            rest@ == all.take(rest@.len() as int),
            turned@.len() == all.len() - rest@.len(),
            forall|k: int|
                0 <= k < turned@.len() ==> #[trigger] turned@[k] == all[all.len() - 1 - k],
        decreases rest@.len(),
    {
        match rest.pop() {
            Some(p) => turned.push(p),
            None => {},
        }
    }
    assert(list@ =~= before + feed_entries(all).take(0));
    while turned.len() > 0
        invariant
            turned@.len() <= all.len(),
            forall|k: int|
                0 <= k < turned@.len() ==> #[trigger] turned@[k] == all[all.len() - 1 - k],
            list@ == before + feed_entries(all).take(all.len() - turned@.len()),
        decreases turned@.len(),
    {
        let ghost n = all.len() - turned@.len();
        match turned.pop() {
            Some(p) => {
                list.push(post_to_feed(p));
                assert(feed_entries(all).take(n + 1) =~= feed_entries(all).take(n).push(
                    feed_entries(all)[n],
                ));
                assert(list@ =~= before + feed_entries(all).take(n + 1));
            },
            None => {},
        }
    }
    assert(feed_entries(all).take(all.len() as int) =~= feed_entries(all));
}

/// The thread as one list.
pub fn flatten(batch: ThreadBatch) -> (r: Vec<FeedPost>)
    ensures
        r@ == flattened(batch),
{
    let mut r: Vec<FeedPost> = Vec::new();
    extend_entries(&mut r, batch.parents);
    r.push(post_to_feed(batch.main));
    assert(r@ =~= feed_entries(batch.parents@).push(feed_entry(batch.main)));
    extend_entries(&mut r, batch.replies);
    r
}

/// The author pictures of rows that show.
pub open spec fn avatar_urls(posts: Seq<FeedPost>, shown: Seq<crate::rows::VisibleRow>, n: int) -> Seq<
    Seq<char>,
>
    decreases n,
{
    if n <= 0 {
        Seq::empty()
    } else {
        match posts[shown[n - 1].index as int].post.author.avatar {
            Some(a) => avatar_urls(posts, shown, n - 1).push(thumbnail_url(a@)),
            None => avatar_urls(posts, shown, n - 1),
        }
    }
}

/// A reply within a thread hangs below the selected post; the root is the
/// first post of the thread.
pub open spec fn thread_reply(posts: Seq<FeedPost>, sel: int) -> Option<ReplyTarget> {
    if sel < posts.len() {
        Some(
            ReplyTarget {
                parent_uri: posts[sel].post.uri,
                parent_cid: posts[sel].post.cid,
                root_uri: posts[0].post.uri,
                root_cid: posts[0].post.cid,
            },
        )
    } else {
        None
    }
}

/// The posts of a state.
pub open spec fn thread_posts(s: ThreadState) -> Seq<FeedPost> {
    match s {
        ThreadState::Loaded { list, .. } => list.posts@,
        _ => Seq::empty(),
    }
}

/// The two states differ in their posts alone.
pub open spec fn same_but_posts(a: ThreadState, b: ThreadState) -> bool {
    match a {
        ThreadState::Loaded { list, main_idx } => {
            &&& b is Loaded
            &&& b->list == (PostList { posts: b->list.posts, ..list })
            &&& b->main_idx == main_idx
        },
        _ => b == a,
    }
}

/// What an answer makes of a thread screen.
pub open spec fn thread_responded(a: ThreadScreen, b: ThreadScreen, resp: WorkResponse) -> bool {
    match resp {
        WorkResponse::Thread(Ok(batch)) => {
            &&& b.state is Loaded
            &&& b.state->list.posts@ == flattened(batch)
            &&& b.state->list.row_heights@.len() == 0
            &&& b.state->list.selected_idx == batch.parents@.len()
            &&& b.state->main_idx == batch.parents@.len()
            &&& b == (ThreadScreen { state: b.state, pending_scroll_to_main: true, ..a })
        },
        WorkResponse::Thread(Err(e)) => b == (ThreadScreen { state: ThreadState::Error(e), ..a }),
        WorkResponse::LikeChanged(Ok(Some(uri))) => {
            &&& first_confirmed(a.posts(), b.posts(), EngagementKind::Like, uri@)
            &&& same_but_posts(a.state, b.state)
            &&& b == (ThreadScreen { state: b.state, ..a })
        },
        WorkResponse::RepostChanged(Ok(Some(uri))) => {
            &&& first_confirmed(a.posts(), b.posts(), EngagementKind::Repost, uri@)
            &&& same_but_posts(a.state, b.state)
            &&& b == (ThreadScreen { state: b.state, ..a })
        },
        WorkResponse::Image { url, .. } => {
            &&& b.inflight_avatars@ == a.inflight_avatars@.remove(url@)
            &&& b == (ThreadScreen { inflight_avatars: b.inflight_avatars, ..a })
        },
        _ => b == a,
    }
}

// ── What one frame does ────────────────────────────────────────────────

/// The request for the thread, as long as it was not sent.
pub open spec fn thread_request(s: ThreadScreen, has_worker: bool) -> Option<WorkRequest> {
    if has_worker && !s.dispatched {
        Some(WorkRequest::FetchThread { uri: s.uri })
    } else {
        None
    }
}

/// The screen once that request is sent.
pub open spec fn begun(s: ThreadScreen, has_worker: bool) -> ThreadScreen {
    ThreadScreen { dispatched: s.dispatched || has_worker, ..s }
}

/// The up and down buttons were followed; `changed` tells whether the selected
/// post is to be brought into view.
pub open spec fn selection_moved(
    a: ThreadScreen,
    b: ThreadScreen,
    pad: PadFrame,
    changed: bool,
) -> bool {
    &&& match a.state {
        ThreadState::Loaded { list, main_idx } => {
            let n = list.posts@.len() as int;
            let sel = list.selected_idx as int;
            &&& b.state is Loaded
            &&& b.state->main_idx == main_idx
            &&& b.state->list == (PostList {
                selected_idx: stepped(sel, pad.up, pad.down, n) as usize,
                ..list
            })
            &&& changed == step_moves(sel, pad.up, pad.down, n)
        },
        _ => !changed && b.state == a.state,
    }
    &&& b == (ThreadScreen { state: b.state, ..a })
}

/// The buttons for the selected post were followed: like, repost, reply.
pub open spec fn buttons_followed(
    a: ThreadScreen,
    b: ThreadScreen,
    pad: PadFrame,
    has_worker: bool,
    out: PadOutcome,
) -> bool {
    &&& same_but_posts(a.state, b.state)
    &&& b == (ThreadScreen { state: b.state, ..a })
    &&& match a.state {
        ThreadState::Loaded { list, .. } => {
            let sel = list.selected_idx as int;
            let like = pad.l1 && has_worker;
            let repost = pad.triangle && has_worker;
            &&& posts_marked(list.posts@, b.posts(), sel, like, repost)
            &&& if like && sel < list.posts@.len() {
                toggle_request_is(out.like_request, list.posts@[sel].post, EngagementKind::Like)
            } else {
                out.like_request is None
            }
            &&& if repost && sel < list.posts@.len() {
                toggle_request_is(
                    out.repost_request,
                    list.posts@[sel].post,
                    EngagementKind::Repost,
                )
            } else {
                out.repost_request is None
            }
            &&& out.push == (if pad.r1 && sel < list.posts@.len() {
                Some(
                    NextScreen::Compose {
                        reply: thread_reply(list.posts@, sel),
                        handle: Some(list.posts@[sel].post.author.handle),
                    },
                )
            } else {
                None
            })
        },
        _ => out.like_request is None && out.repost_request is None && out.push is None,
    }
}

/// What a tap asks for: any post can be opened from its row.
pub open spec fn row_tapped(
    s: ThreadScreen,
    touches: Seq<TouchPoint>,
    scroll: int,
    tap: Option<TapAction>,
) -> bool {
    match s.state {
        ThreadState::Loaded { list, .. } => list.tap_result(
            tap,
            touches,
            HEADER_H - scroll,
            (HEADER_H as int, SCREEN_HEIGHT as int),
            false,
        ),
        _ => tap is None,
    }
}

/// A tap was followed: marks are toggled in place, anything else opens.
pub open spec fn tap_followed(
    a: ThreadScreen,
    b: ThreadScreen,
    tap: Option<TapAction>,
    has_worker: bool,
    request: Option<WorkRequest>,
    action: ScreenAction,
) -> bool {
    &&& same_but_posts(a.state, b.state)
    &&& b == (ThreadScreen { state: b.state, ..a })
    &&& action == tap_opens(tap)
    &&& match a.state {
        ThreadState::Loaded { list, .. } => PostList::tap_followed(
            list,
            b.state->list,
            tap,
            has_worker,
            request,
        ),
        _ => request is None,
    }
}

/// The pictures that are wanted and not at hand were asked for.
pub open spec fn images_asked(
    a: ThreadScreen,
    b: ThreadScreen,
    urls: Seq<Seq<char>>,
    cached: Seq<bool>,
    reqs: Seq<WorkRequest>,
) -> bool {
    let n = urls.len() as int;
    &&& fetched(reqs) == asked_for(urls, cached, a.inflight_avatars@, n)
    &&& forall|i: int| 0 <= i < reqs.len() ==> #[trigger] reqs[i] is FetchImage
    &&& b.inflight_avatars@ == inflight_after(urls, cached, a.inflight_avatars@, n)
    &&& b == (ThreadScreen { inflight_avatars: b.inflight_avatars, ..a })
}

/// How the scroll position is settled.
pub open spec fn settled(
    a: ThreadScreen,
    b: ThreadScreen,
    selection_changed: bool,
    scroll: int,
    r: ScrollSettle,
) -> bool {
    match a.state {
        ThreadState::Loaded { list, .. } => {
            let sel = list.selected_idx as int;
            let measured = sel < list.row_heights@.len();
            let centers = a.pending_scroll_to_main && measured;
            let at = if centers {
                ThreadScreen::centered(list)
            } else {
                scroll
            };
            let wanted = if selection_changed && measured {
                reveal_target(
                    row_top(list.row_heights@, sel),
                    list.row_heights@[sel] as int,
                    at,
                    VIEWPORT_H as int,
                    false,
                )
            } else {
                None
            };
            &&& r.limit == scroll_limit(total(list.row_heights@), VIEWPORT_H as int)
            &&& match r.target {
                Some(t) => Some(t as int) == (if wanted is Some {
                    wanted
                } else {
                    Some(at)
                }) && (wanted is Some || centers),
                None => wanted is None && !centers,
            }
            &&& b == (ThreadScreen {
                pending_scroll_to_main: a.pending_scroll_to_main && !measured,
                ..a
            })
        },
        _ => r == (ScrollSettle { target: None, limit: 0 }) && b == a,
    }
}

/// The first part of a frame by its steps: the request for the thread, the
/// selection (which leaves the screen as `m`), then the buttons for the
/// selected post.
pub open spec fn start_steps(
    a: ThreadScreen,
    m: ThreadScreen,
    b: ThreadScreen,
    pad: PadFrame,
    has_worker: bool,
    pads: PadOutcome,
    out: FeedStart,
) -> bool {
    &&& selection_moved(begun(a, has_worker), m, pad, out.moved)
    &&& buttons_followed(m, b, pad, has_worker, pads)
    &&& out.requests@ == sent(thread_request(a, has_worker)) + sent(pads.like_request) + sent(
        pads.repost_request,
    )
    &&& out.action == pushed(pads.push)
}

/// The first part of a frame, before anything is measured or drawn. The circle
/// goes back, and nothing else is followed then.
pub open spec fn frame_started(
    a: ThreadScreen,
    b: ThreadScreen,
    pad: PadFrame,
    has_worker: bool,
    out: FeedStart,
) -> bool {
    if pad.circle {
        &&& b == begun(a, has_worker)
        &&& out.requests@ == sent(thread_request(a, has_worker))
        &&& !out.moved
        &&& out.action == ScreenAction::Pop
    } else {
        exists|m: ThreadScreen, pads: PadOutcome|
            #[trigger] start_steps(a, m, b, pad, has_worker, pads, out)
    }
}

/// The last part of a frame by its steps: a tap (which leaves the screen as
/// `m`), then the pictures, where nothing is opened and there is a worker.
pub open spec fn end_steps(
    a: ThreadScreen,
    tap: Option<TapAction>,
    m: ThreadScreen,
    request: Option<WorkRequest>,
    images: Seq<WorkRequest>,
    b: ThreadScreen,
    input: ThreadInput,
    out: ThreadEnd,
) -> bool {
    &&& row_tapped(a, input.touches, input.scroll, tap)
    &&& tap_followed(a, m, tap, input.has_worker, request, out.action)
    &&& if out.action is Stay && input.has_worker {
        images_asked(m, b, input.urls, input.cached, images)
    } else {
        b == m && images.len() == 0
    }
    &&& out.requests@ == sent(request) + images
}

/// The last part of a frame, once the scroll position is settled.
pub open spec fn frame_ended(
    a: ThreadScreen,
    b: ThreadScreen,
    input: ThreadInput,
    out: ThreadEnd,
) -> bool {
    exists|
        tap: Option<TapAction>,
        m: ThreadScreen,
        request: Option<WorkRequest>,
        images: Seq<WorkRequest>,
    | #[trigger] end_steps(a, tap, m, request, images, b, input, out)
}

/// What the last part of a frame is given.
pub open spec fn thread_input(
    touches: Seq<TouchPoint>,
    scroll: int,
    urls: Seq<Seq<char>>,
    cached: Seq<bool>,
    has_worker: bool,
) -> ThreadInput {
    ThreadInput { touches, scroll, urls, cached, has_worker }
}

impl ThreadScreen {
    /// The posts that are there.
    pub open spec fn posts(&self) -> Seq<FeedPost> {
        thread_posts(self.state)
    }

    /// The list of posts is well formed, and the post itself is in it.
    pub open spec fn wf(&self) -> bool {
        self.state matches ThreadState::Loaded { list, main_idx } ==> list.wf() && main_idx
            < list.posts@.len()
    }

    /// A thread that was just opened, before its posts came.
    pub open spec fn opened(uri: String, r: ThreadScreen) -> bool {
        &&& r.uri == uri
        &&& r.state is Loading
        &&& !r.dispatched
        &&& r.inflight_avatars@ == Set::<Seq<char>>::empty()
        &&& !r.pending_scroll_to_main
    }

    /// The thread around a post.
    pub fn new(uri: String) -> (r: ThreadScreen)
        ensures
            r.wf(),
            Self::opened(uri, r),
    {
        ThreadScreen {
            uri,
            state: ThreadState::Loading,
            dispatched: false,
            inflight_avatars: StringHashSet::new(),
            pending_scroll_to_main: false,
        }
    }

    /// Asks for the thread, once.
    pub fn begin_frame(&mut self, has_worker: bool) -> (r: Option<WorkRequest>)
        requires
            old(self).wf(),
        ensures
            final(self).wf(),
            r == thread_request(*old(self), has_worker),
            *final(self) == begun(*old(self), has_worker),
    {
        if !self.dispatched && has_worker {
            self.dispatched = true;
            return Some(WorkRequest::FetchThread { uri: self.uri.clone() });
        }
        None
    }

    /// Moves the selection; `true` means that it is to be brought into view.
    pub fn move_selection(&mut self, pad: &PadFrame) -> (r: bool)
        requires
            old(self).wf(),
        ensures
            final(self).wf(),
            selection_moved(*old(self), *final(self), *pad, r),
            final(self).selected() == old(self).selected_next(*pad),
    {
        match &mut self.state {
            ThreadState::Loaded { list, .. } => list.step(pad.up, pad.down),
            _ => false,
        }
    }

    /// The selected post is the one to reply to.
    pub open spec fn reply_offered(s: Self, r: Option<ReplyTarget>) -> bool {
        r == (match s.state {
            ThreadState::Loaded { list, .. } => thread_reply(
                list.posts@,
                list.selected_idx as int,
            ),
            _ => None,
        })
    }

    /// The reply that the selected post would get.
    pub fn focused_reply_target(&self) -> (r: Option<ReplyTarget>)
        requires
            self.wf(),
        ensures
            Self::reply_offered(*self, r),
    {
        match &self.state {
            ThreadState::Loaded { list, .. } => {
                if list.selected_idx < list.posts.len() {
                    let parent = &list.posts[list.selected_idx].post;
                    let root = &list.posts[0].post;
                    Some(
                        ReplyTarget {
                            parent_uri: parent.uri.clone(),
                            parent_cid: parent.cid.clone(),
                            root_uri: root.uri.clone(),
                            root_cid: root.cid.clone(),
                        },
                    )
                } else {
                    None
                }
            },
            _ => None,
        }
    }

    /// The selected post.
    pub open spec fn selected(&self) -> int {
        match self.state {
            ThreadState::Loaded { list, .. } => list.selected_idx as int,
            _ => 0,
        }
    }

    /// The selection after the up and down buttons.
    pub open spec fn selected_next(&self, pad: PadFrame) -> int {
        match self.state {
            ThreadState::Loaded { list, .. } => stepped(
                list.selected_idx as int,
                pad.up,
                pad.down,
                list.posts@.len() as int,
            ),
            _ => 0,
        }
    }

    /// The buttons toggle no counter without room, where post `sel` is selected.
    pub open spec fn buttons_fit(&self, pad: PadFrame, sel: int, has_worker: bool) -> bool {
        marks_have_room(self.posts(), sel, pad.l1 && has_worker, pad.triangle && has_worker)
    }

    /// Whether the buttons toggle no counter without room, once the up and down
    /// buttons were followed.
    pub fn buttons_room(&self, pad: &PadFrame, has_worker: bool) -> (r: bool)
        requires
            self.wf(),
        ensures
            r == self.buttons_fit(*pad, self.selected_next(*pad), has_worker),
    {
        match &self.state {
            ThreadState::Loaded { list, .. } => {
                let (sel, _) = step_selection(
                    list.selected_idx,
                    pad.up,
                    pad.down,
                    list.posts.len(),
                );
                list.marks_room(sel, pad.l1 && has_worker, pad.triangle && has_worker)
            },
            _ => true,
        }
    }

    /// A tap toggles no counter without room.
    pub open spec fn taps_fit(&self, touches: Seq<TouchPoint>, scroll: int) -> bool {
        self.state matches ThreadState::Loaded { list, .. } ==> list.tap_fits(
            touches,
            HEADER_H - scroll,
            (HEADER_H as int, SCREEN_HEIGHT as int),
            false,
        )
    }

    /// Whether a tap toggles no counter without room.
    pub fn taps_room(&self, touches: &Vec<TouchPoint>, scroll: i32) -> (r: bool)
        requires
            self.wf(),
            0 <= scroll <= MAX_CONTENT_H,
        ensures
            r == self.taps_fit(touches@, scroll as int),
    {
        match &self.state {
            ThreadState::Loaded { list, .. } => list.tap_room(
                touches,
                HEADER_H - scroll,
                HEADER_H,
                SCREEN_HEIGHT,
                false,
            ),
            _ => true,
        }
    }

    /// Toggles a mark on the selected post.
    pub fn toggle_engagement(&mut self, kind: EngagementKind, has_worker: bool) -> (r: Option<
        WorkRequest,
    >)
        requires
            old(self).wf(),
            has_worker && old(self).selected() < old(self).posts().len() ==> can_toggle(
                old(self).posts()[old(self).selected()].post,
                kind,
            ),
        ensures
            final(self).wf(),
            same_but_posts(old(self).state, final(self).state),
            *final(self) == (ThreadScreen { state: final(self).state, ..*old(self) }),
            match old(self).state {
                ThreadState::Loaded { list, .. } => {
                    let sel = list.selected_idx as int;
                    &&& posts_marked(
                        list.posts@,
                        final(self).posts(),
                        sel,
                        has_worker && kind == EngagementKind::Like,
                        has_worker && kind == EngagementKind::Repost,
                    )
                    &&& if has_worker && sel < list.posts@.len() {
                        toggle_request_is(r, list.posts@[sel].post, kind)
                    } else {
                        r is None
                    }
                },
                _ => r is None,
            },
    {
        match &mut self.state {
            ThreadState::Loaded { list, .. } => {
                let sel: usize = list.selected_idx;
                list.toggle_at(sel, kind, has_worker)
            },
            _ => None,
        }
    }

    /// The buttons: like, repost, reply.
    pub fn pad_actions(&mut self, pad: &PadFrame, has_worker: bool) -> (r: PadOutcome)
        requires
            old(self).wf(),
            old(self).buttons_fit(*pad, old(self).selected(), has_worker),
        ensures
            final(self).wf(),
            buttons_followed(*old(self), *final(self), *pad, has_worker, r),
    {
        let ghost before = self.posts();
        let like_request = if pad.l1 {
            self.toggle_engagement(EngagementKind::Like, has_worker)
        } else {
            None
        };
        let ghost mid = self.posts();
        let repost_request = if pad.triangle {
            self.toggle_engagement(EngagementKind::Repost, has_worker)
        } else {
            None
        };
        let mut push: Option<NextScreen> = None;
        if pad.r1 {
            let reply = self.focused_reply_target();
            match &self.state {
                ThreadState::Loaded { list, .. } => {
                    assert(mid.len() > 0 ==> mid[0].post.uri == before[0].post.uri && mid[0].post.cid
                        == before[0].post.cid);
                    assert(list.posts@.len() > 0 ==> list.posts@[0].post.uri == mid[0].post.uri
                        && list.posts@[0].post.cid == mid[0].post.cid);
                    if reply.is_some() {
                        push = Some(
                            NextScreen::Compose { reply, handle: list.selected_handle() },
                        );
                    }
                },
                _ => {},
            }
        }
        PadOutcome { like_request, repost_request, push }
    }

    /// Takes the measured text heights of the next post.
    pub fn add_row(&mut self, h: TextHeights)
        requires
            old(self).wf(),
            old(self).state matches ThreadState::Loaded { list, .. } && list.row_fits(h, false),
        ensures
            final(self).wf(),
            final(self).state is Loaded,
            final(self).state->main_idx == old(self).state->main_idx,
            final(self).state->list.row_heights@ == old(self).state->list.row_heights@.push(
                row_height(
                    old(self).posts()[old(self).state->list.row_heights@.len() as int],
                    h,
                    false,
                ) as i32,
            ),
            final(self).state->list.posts == old(self).state->list.posts,
            final(self).state->list.selected_idx == old(self).state->list.selected_idx,
            *final(self) == (ThreadScreen { state: final(self).state, ..*old(self) }),
    {
        match &mut self.state {
            ThreadState::Loaded { list, .. } => list.add_row(h, false),
            _ => {},
        }
    }

    /// Where the selected post comes to lie in the middle of the view, as far
    /// as the content allows.
    pub open spec fn centered(list: PostList) -> int {
        let sel = list.selected_idx as int;
        let t = row_top(list.row_heights@, sel) + list.row_heights@[sel] / 2 - VIEWPORT_H / 2;
        let limit = scroll_limit(total(list.row_heights@), VIEWPORT_H as int);
        let at_least = if t > 0 {
            t
        } else {
            0
        };
        if at_least < limit {
            at_least
        } else {
            limit
        }
    }

    /// Settles the scroll position: once to the post itself, then so that a
    /// selection that moved is in view.
    pub fn settle_scroll(&mut self, selection_changed: bool, scroll: i32) -> (r: ScrollSettle)
        requires
            old(self).wf(),
            -1000 <= scroll <= MAX_CONTENT_H,
        ensures
            final(self).wf(),
            settled(*old(self), *final(self), selection_changed, scroll as int, r),
    {
        match &self.state {
            ThreadState::Loaded { list, .. } => {
                let limit: i32 = max_scroll(content_height(&list.row_heights), VIEWPORT_H);
                let mut target: Option<i32> = None;
                let mut at: i32 = scroll;
                if self.pending_scroll_to_main && list.selected_idx < list.row_heights.len() {
                    let top: i32 = top_of(&list.row_heights, list.selected_idx);
                    let height: i32 = list.row_heights[list.selected_idx];
                    proof {
                        lemma_row_top_bounds(list.row_heights@, list.selected_idx as int);
                    }
                    let t: i32 = top + height / 2 - VIEWPORT_H / 2;
                    let at_least: i32 = if t > 0 {
                        t
                    } else {
                        0
                    };
                    at = if at_least < limit {
                        at_least
                    } else {
                        limit
                    };
                    target = Some(at);
                    self.pending_scroll_to_main = false;
                }
                if selection_changed {
                    match reveal_row(&list.row_heights, list.selected_idx, at, VIEWPORT_H, false) {
                        Some(t) => {
                            target = Some(t);
                        },
                        None => {},
                    }
                }
                ScrollSettle { target, limit }
            },
            _ => ScrollSettle { target: None, limit: 0 },
        }
    }

    /// What a tap asks for: any post can be opened from its row.
    pub fn tap(&self, touches: &Vec<TouchPoint>, scroll: i32) -> (r: Option<TapAction>)
        requires
            self.wf(),
            0 <= scroll <= MAX_CONTENT_H,
        ensures
            row_tapped(*self, touches@, scroll as int, r),
    {
        match &self.state {
            ThreadState::Loaded { list, .. } => list.tap(
                touches,
                HEADER_H - scroll,
                HEADER_H,
                SCREEN_HEIGHT,
                false,
            ),
            _ => None,
        }
    }

    /// Follows a tap: marks are toggled in place, anything else opens.
    pub fn follow_tap(&mut self, tap: Option<TapAction>, has_worker: bool) -> (r: (
        Option<WorkRequest>,
        ScreenAction,
    ))
        requires
            old(self).wf(),
            has_worker ==> tap_has_room(old(self).posts(), tap),
        ensures
            final(self).wf(),
            tap_followed(*old(self), *final(self), tap, has_worker, r.0, r.1),
    {
        match &mut self.state {
            ThreadState::Loaded { list, .. } => list.follow_tap(tap, has_worker),
            _ => (None, open_tap(tap)),
        }
    }

    /// The author pictures that the visible posts need.
    pub open spec fn faces(&self, scroll: int) -> Seq<Seq<char>> {
        match self.state {
            ThreadState::Loaded { list, .. } => {
                let shown = rows_in_band(
                    list.row_heights@,
                    HEADER_H - scroll,
                    (HEADER_H as int, SCREEN_HEIGHT as int),
                    list.row_heights@.len() as int,
                );
                avatar_urls(list.posts@, shown, shown.len() as int)
            },
            _ => Seq::empty(),
        }
    }

    /// The author pictures that the visible posts need.
    pub fn wanted_images(&self, scroll: i32) -> (r: Vec<String>)
        requires
            self.wf(),
            0 <= scroll <= MAX_CONTENT_H,
        ensures
            texts(r@) == self.faces(scroll as int),
    {
        match &self.state {
            ThreadState::Loaded { list, .. } => {
                let n: usize = list.row_heights.len();
                let shown = visible_rows(
                    &list.row_heights,
                    n,
                    HEADER_H - scroll,
                    HEADER_H,
                    SCREEN_HEIGHT,
                );
                proof {
                    lemma_visible_rows_exact(
                        list.row_heights@,
                        HEADER_H - scroll,
                        (HEADER_H as int, SCREEN_HEIGHT as int),
                        n as int,
                    );
                }
                let mut r: Vec<String> = Vec::new();
                let mut i: usize = 0;
                assert(texts(r@) =~= Seq::<Seq<char>>::empty());
                while i < shown.len()
                    invariant
                        i <= shown@.len(),
                        forall|k: int|
                            0 <= k < shown@.len() ==> (#[trigger] shown@[k]).index
                                < list.posts@.len(),
                        texts(r@) == avatar_urls(list.posts@, shown@, i as int),
                    decreases shown@.len() - i,
                {
                    let ghost before = texts(r@);
                    match &list.posts[shown[i].index].post.author.avatar {
                        Some(a) => {
                            let url = avatar_thumbnail_jpeg(a.as_str());
                            r.push(url);
                            assert(texts(r@) =~= before.push(url@));
                        },
                        None => {},
                    }
                    i += 1;
                }
                r
            },
            _ => Vec::new(),
        }
    }

    /// Asks for the wanted pictures that are not at hand.
    pub fn request_images(&mut self, urls: Vec<String>, cached: &Vec<bool>) -> (r: Vec<WorkRequest>)
        requires
            old(self).wf(),
            urls@.len() <= cached@.len(),
        ensures
            final(self).wf(),
            images_asked(*old(self), *final(self), texts(urls@), cached@, r@),
    {
        request_missing(urls, cached, &mut self.inflight_avatars)
    }

    /// The first part of a frame, before anything is measured or drawn.
    pub fn frame_start(&mut self, pad: &PadFrame, has_worker: bool) -> (r: FeedStart)
        requires
            old(self).wf(),
            !pad.circle ==> old(self).buttons_fit(
                *pad,
                old(self).selected_next(*pad),
                has_worker,
            ),
        ensures
            final(self).wf(),
            frame_started(*old(self), *final(self), *pad, has_worker, r),
    {
        let mut requests: Vec<WorkRequest> = Vec::new();
        let first = self.begin_frame(has_worker);
        push_sent(&mut requests, first);
        assert(requests@ =~= sent(thread_request(*old(self), has_worker)));
        if pad.circle {
            return FeedStart { requests, moved: false, action: ScreenAction::Pop };
        }
        let moved = self.move_selection(pad);
        let ghost m = *self;
        let out = self.pad_actions(pad, has_worker);
        let ghost pads = out;
        push_sent(&mut requests, out.like_request);
        push_sent(&mut requests, out.repost_request);
        let r = FeedStart { requests, moved, action: push_screen(out.push) };
        assert(start_steps(*old(self), m, *self, *pad, has_worker, pads, r));
        r
    }

    /// The last part of a frame: a tap, then the pictures, given those that are
    /// wanted and which of them are at hand.
    pub fn frame_end(
        &mut self,
        touches: &Vec<TouchPoint>,
        scroll: i32,
        urls: Vec<String>,
        cached: &Vec<bool>,
        has_worker: bool,
    ) -> (r: ThreadEnd)
        requires
            old(self).wf(),
            0 <= scroll <= MAX_CONTENT_H,
            urls@.len() <= cached@.len(),
            has_worker ==> old(self).taps_fit(touches@, scroll as int),
        ensures
            final(self).wf(),
            frame_ended(
                *old(self),
                *final(self),
                thread_input(touches@, scroll as int, texts(urls@), cached@, has_worker),
                r,
            ),
    {
        let ghost input = thread_input(
            touches@,
            scroll as int,
            texts(urls@),
            cached@,
            has_worker,
        );
        let tap = self.tap(touches, scroll);
        let ghost tapped = tap;
        let (request, action) = self.follow_tap(tap, has_worker);
        let ghost m = *self;
        let ghost first = request;
        let mut requests: Vec<WorkRequest> = Vec::new();
        push_sent(&mut requests, request);
        let ghost mut asked: Seq<WorkRequest> = Seq::empty();
        if has_worker && matches!(action, ScreenAction::Stay) {
            let mut images = self.request_images(urls, cached);
            proof {
                asked = images@;
            }
            requests.append(&mut images);
        }
        let r = ThreadEnd { requests, action };
        assert(r.requests@ =~= sent(first) + asked);
        assert(end_steps(*old(self), tapped, m, first, asked, *self, input, r));
        r
    }

    /// What stands in the list area.
    pub open spec fn shown_body(&self) -> FeedBody {
        match self.state {
            ThreadState::Loading => FeedBody::Loading,
            ThreadState::Loaded { .. } => FeedBody::Posts,
            ThreadState::Error(e) => FeedBody::Problem(e),
        }
    }

    /// What stands in the list area.
    pub fn body(&self) -> (r: FeedBody)
        ensures
            r == self.shown_body(),
    {
        match &self.state {
            ThreadState::Loading => FeedBody::Loading,
            ThreadState::Loaded { .. } => FeedBody::Posts,
            ThreadState::Error(e) => FeedBody::Problem(e.clone()),
        }
    }

    /// Takes an answer of the worker.
    pub fn handle_worker_response(&mut self, resp: WorkResponse)
        requires
            old(self).wf(),
        ensures
            final(self).wf(),
            thread_responded(*old(self), *final(self), resp),
    {
        match resp {
            WorkResponse::Thread(Ok(batch)) => {
                let main_idx: usize = batch.parents.len();
                let posts = flatten(batch);
                self.pending_scroll_to_main = true;
                self.state = ThreadState::Loaded {
                    list: PostList::new(posts, main_idx),
                    main_idx,
                };
            },
            WorkResponse::Thread(Err(e)) => {
                self.state = ThreadState::Error(e);
            },
            WorkResponse::LikeChanged(Ok(Some(uri))) => match &mut self.state {
                ThreadState::Loaded { list, .. } => {
                    list.confirm_one(EngagementKind::Like, uri.as_str());
                },
                _ => {},
            },
            WorkResponse::RepostChanged(Ok(Some(uri))) => match &mut self.state {
                ThreadState::Loaded { list, .. } => {
                    list.confirm_one(EngagementKind::Repost, uri.as_str());
                },
                _ => {},
            },
            WorkResponse::Image { url, .. } => {
                self.inflight_avatars.remove(url.as_str());
            },
            _ => {},
        }
    }
}

/// A thread reads from the root down: the posts above come first and in
/// order, the post itself stands right behind them, and the replies follow.
pub proof fn lemma_thread_order(b: ThreadBatch, i: int)
    requires
        0 <= i < flattened(b).len(),
    ensures
        flattened(b).len() == b.parents@.len() + 1 + b.replies@.len(),
        i < b.parents@.len() ==> flattened(b)[i].post == b.parents@[i],
        i == b.parents@.len() ==> flattened(b)[i].post == b.main,
        i > b.parents@.len() ==> flattened(b)[i].post == b.replies@[i - b.parents@.len() - 1],
{
}

/// The root of every reply made in a thread is the thread's topmost post: the
/// first of the posts above, or the post itself where there is none above.
pub proof fn lemma_reply_root_is_topmost(b: ThreadBatch, sel: int)
    requires
        0 <= sel < flattened(b).len(),
    ensures
        ({
            let r = thread_reply(flattened(b), sel)->0;
            let top = if b.parents@.len() > 0 {
                b.parents@[0]
            } else {
                b.main
            };
            r.root_uri == top.uri && r.root_cid == top.cid
        }),
{
    assert(flattened(b)[0].post == (if b.parents@.len() > 0 {
        b.parents@[0]
    } else {
        b.main
    }));
}

} // verus!
