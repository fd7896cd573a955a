//! A list of posts that can be scrolled, selected and marked.

use vstd::prelude::*;

use crate::cdn::avatar_thumbnail_jpeg;
#[allow(unused_imports)]
use crate::cdn::thumbnail_url;
use crate::embeds::embed_image_urls;
#[allow(unused_imports)]
use crate::embeds::{embed_urls, texts};
use crate::engagement::{
    confirm_all, confirm_first, toggle_engagement, toggle_fits, EngagementKind,
};
#[allow(unused_imports)]
use crate::engagement::{
    all_confirmed, can_toggle, count_of, first_confirmed, mark_of, same_post_but_marks,
    toggle_request_is, toggled_count, toggled_mark,
};
use crate::model::FeedPost;
use crate::post_row::{
    detect_post_tap_action, heights_fit, measure_post_row, TapAction, TextHeights,
};
#[allow(unused_imports)]
use crate::post_row::{heights_ok, row_height, tap_is, zone_hit};
use crate::requests::{ReplyTarget, WorkRequest};
use crate::rows::{content_height, step_selection};
#[allow(unused_imports)]
use crate::rows::{
    in_band, lemma_row_top_bounds, row_top, rows_fit, step_moves, stepped, total, MAX_CONTENT_H,
};
use crate::screen::{NextScreen, ScreenAction};
use crate::widget::TouchPoint;

verus! {

/// Posts, the measured heights of the leading ones, and the selected one.
pub struct PostList {
    pub posts: Vec<FeedPost>,
    pub row_heights: Vec<i32>,
    pub text_heights: Vec<TextHeights>,
    pub selected_idx: usize,
}

/// What became of one post after the like and repost buttons.
pub open spec fn marks_applied(a: FeedPost, b: FeedPost, like: bool, repost: bool) -> bool {
    let l = EngagementKind::Like;
    let r = EngagementKind::Repost;
    &&& b == (FeedPost { post: b.post, ..a })
    &&& same_post_but_marks(a.post, b.post)
    &&& mark_of(b.post, l) == (if like {
        toggled_mark(mark_of(a.post, l))
    } else {
        mark_of(a.post, l)
    })
    &&& count_of(b.post, l) == (if like {
        Some(toggled_count(mark_of(a.post, l), count_of(a.post, l)) as i64)
    } else {
        count_of(a.post, l)
    })
    &&& mark_of(b.post, r) == (if repost {
        toggled_mark(mark_of(a.post, r))
    } else {
        mark_of(a.post, r)
    })
    &&& count_of(b.post, r) == (if repost {
        Some(toggled_count(mark_of(a.post, r), count_of(a.post, r)) as i64)
    } else {
        count_of(a.post, r)
    })
}

/// Post `idx` took the given marks, and no other post changed.
pub open spec fn posts_marked(
    a: Seq<FeedPost>,
    b: Seq<FeedPost>,
    idx: int,
    like: bool,
    repost: bool,
) -> bool {
    &&& b.len() == a.len()
    &&& forall|i: int| 0 <= i < a.len() && i != idx ==> #[trigger] b[i] == a[i]
    &&& 0 <= idx < a.len() ==> if like || repost {
        marks_applied(a[idx], b[idx], like, repost)
    } else {
        b[idx] == a[idx]
    }
}

/// A reply to a post hangs below that post, which also stands for the root.
pub open spec fn reply_to(p: FeedPost) -> ReplyTarget {
    ReplyTarget {
        parent_uri: p.post.uri,
        parent_cid: p.post.cid,
        root_uri: p.post.uri,
        root_cid: p.post.cid,
    }
}

/// A reply to a post.
pub(crate) fn reply_target_for(p: &FeedPost) -> (r: ReplyTarget)
    ensures
        r == reply_to(*p),
{
    ReplyTarget {
        parent_uri: p.post.uri.clone(),
        parent_cid: p.post.cid.clone(),
        root_uri: p.post.uri.clone(),
        root_cid: p.post.cid.clone(),
    }
}

/// The pictures that a post needs: its author's, then those attached.
pub open spec fn post_urls(p: FeedPost) -> Seq<Seq<char>> {
    (match p.post.author.avatar {
        Some(a) => seq![thumbnail_url(a@)],
        None => Seq::empty(),
    }) + embed_urls(p.post.embed)
}

/// The pictures that the first `n` rows need, as far as they show in a band;
/// the first row starts at `origin`.
pub open spec fn visible_urls(
    posts: Seq<FeedPost>,
    rows: Seq<i32>,
    origin: int,
    band: (int, int),
    n: int,
) -> Seq<Seq<char>>
    decreases n,
{
    if n <= 0 {
        Seq::empty()
    } else {
        let before = visible_urls(posts, rows, origin, band, n - 1);
        if in_band(origin + row_top(rows, n - 1), rows[n - 1] as int, band.0, band.1) {
            before + post_urls(posts[n - 1])
        } else {
            before
        }
    }
}

/// The pictures that the visible posts of a list need.
pub(crate) fn collect_visible_urls(
    posts: &Vec<FeedPost>,
    rows: &Vec<i32>,
    origin: i32,
    band_top: i32,
    band_bottom: i32,
) -> (r: Vec<String>)
    requires
        rows_fit(rows@),
        rows@.len() <= posts@.len(),
        -MAX_CONTENT_H <= origin <= 1000,
    ensures
        texts(r@) == visible_urls(
            posts@,
            rows@,
            origin as int,
            (band_top as int, band_bottom as int),
            rows@.len() as int,
        ),
{
    let ghost band = (band_top as int, band_bottom as int);
    let mut r: Vec<String> = Vec::new();
    assert(texts(r@) =~= Seq::<Seq<char>>::empty());
    let mut y: i32 = origin;
    let mut i: usize = 0;
    while i < rows.len()
        invariant
            i <= rows@.len() <= posts@.len(),
            rows_fit(rows@),
            -MAX_CONTENT_H <= origin <= 1000,
            y == origin + row_top(rows@, i as int),
            band == (band_top as int, band_bottom as int),
            texts(r@) == visible_urls(posts@, rows@, origin as int, band, i as int),
        decreases rows@.len() - i,
    {
        proof {
            lemma_row_top_bounds(rows@, i as int);
            lemma_row_top_bounds(rows@, i + 1);
        }
        let bottom: i32 = y + rows[i];
        if bottom > band_top && y < band_bottom {
            let ghost before = texts(r@);
            let post = &posts[i];
            match &post.post.author.avatar {
                Some(a) => {
                    let url = avatar_thumbnail_jpeg(a.as_str());
                    r.push(url);
                    assert(texts(r@) =~= before + seq![url@]);
                },
                None => {
                    assert(texts(r@) =~= before + Seq::<Seq<char>>::empty());
                },
            }
            let ghost mid = texts(r@);
            let mut more = embed_image_urls(&post.post.embed);
            let ghost extra = texts(more@);
            r.append(&mut more);
            assert(texts(r@) =~= mid + extra);
            assert(texts(r@) =~= before + post_urls(posts@[i as int]));
        }
        y = bottom;
        i += 1;
    }
    r
}

/// The first row from `from` on that shows in the band and that a tap hits.
pub open spec fn first_tapped(
    posts: Seq<FeedPost>,
    rows: Seq<i32>,
    heights: Seq<TextHeights>,
    origin: int,
    band: (int, int),
    touches: Seq<TouchPoint>,
    show_context: bool,
    from: int,
) -> Option<int>
    decreases rows.len() - from,
{
    if from >= rows.len() {
        None
    } else {
        let y = origin + row_top(rows, from);
        if in_band(y, rows[from] as int, band.0, band.1) && zone_hit(
            posts[from],
            y,
            rows[from] as int,
            touches,
            heights[from],
            show_context,
        ) is Some {
            Some(from)
        } else {
            first_tapped(posts, rows, heights, origin, band, touches, show_context, from + 1)
        }
    }
}

/// What a tap on a list of rows asks for: the first row that is hit decides.
pub(crate) fn tap_in_rows(
    posts: &Vec<FeedPost>,
    rows: &Vec<i32>,
    heights: &Vec<TextHeights>,
    origin: i32,
    band_top: i32,
    band_bottom: i32,
    touches: &Vec<TouchPoint>,
    show_context: bool,
) -> (r: Option<TapAction>)
    requires
        rows_fit(rows@),
        rows@.len() <= posts@.len(),
        rows@.len() == heights@.len(),
        forall|i: int| 0 <= i < heights@.len() ==> heights_ok(#[trigger] heights@[i]),
        -MAX_CONTENT_H <= origin <= 900,
        band_bottom <= 900,
    ensures
        match first_tapped(
            posts@,
            rows@,
            heights@,
            origin as int,
            (band_top as int, band_bottom as int),
            touches@,
            show_context,
            0,
        ) {
            None => r is None,
            Some(i) => tap_is(
                r,
                zone_hit(
                    posts@[i],
                    origin + row_top(rows@, i),
                    rows@[i] as int,
                    touches@,
                    heights@[i],
                    show_context,
                ),
                posts@[i],
                i as usize,
            ),
        },
{
    let ghost band = (band_top as int, band_bottom as int);
    let mut y: i32 = origin;
    let mut i: usize = 0;
    while i < rows.len()
        invariant
            i <= rows@.len() <= posts@.len(),
            rows@.len() == heights@.len(),
            rows_fit(rows@),
            forall|i: int| 0 <= i < heights@.len() ==> heights_ok(#[trigger] heights@[i]),
            -MAX_CONTENT_H <= origin <= 900,
            band_bottom <= 900,
            band == (band_top as int, band_bottom as int),
            y == origin + row_top(rows@, i as int),
            first_tapped(posts@, rows@, heights@, origin as int, band, touches@, show_context, 0)
                == first_tapped(
                posts@,
                rows@,
                heights@,
                origin as int,
                band,
                touches@,
                show_context,
                i as int,
            ),
        decreases rows@.len() - i,
    {
        proof {
            lemma_row_top_bounds(rows@, i as int);
            lemma_row_top_bounds(rows@, i + 1);
        }
        let bottom: i32 = y + rows[i];
        if bottom > band_top && y < band_bottom {
            let tap = detect_post_tap_action(&posts[i], y, rows[i], touches, heights[i], i, show_context);
            if tap.is_some() {
                return tap;
            }
        }
        y = bottom;
        i += 1;
    }
    None
}

/// What a tap opens.
pub open spec fn tap_opens(tap: Option<TapAction>) -> ScreenAction {
    match tap {
        Some(TapAction::OpenProfile(handle)) => ScreenAction::Push(
            NextScreen::Profile { actor: Some(handle) },
        ),
        Some(TapAction::OpenThread(uri)) => ScreenAction::Push(NextScreen::Thread { uri }),
        Some(TapAction::OpenVideo(target)) => ScreenAction::Push(
            NextScreen::Video { did: target.did, cid: target.cid },
        ),
        Some(TapAction::OpenImage { images, index }) => ScreenAction::Push(
            NextScreen::Images { images, index },
        ),
        _ => ScreenAction::Stay,
    }
}

/// What a tap opens.
pub(crate) fn open_tap(tap: Option<TapAction>) -> (r: ScreenAction)
    ensures
        r == tap_opens(tap),
{
    match tap {
        Some(TapAction::OpenProfile(handle)) => ScreenAction::Push(
            NextScreen::Profile { actor: Some(handle) },
        ),
        Some(TapAction::OpenThread(uri)) => ScreenAction::Push(NextScreen::Thread { uri }),
        Some(TapAction::OpenVideo(target)) => ScreenAction::Push(
            NextScreen::Video { did: target.did, cid: target.cid },
        ),
        Some(TapAction::OpenImage { images, index }) => ScreenAction::Push(
            NextScreen::Images { images, index },
        ),
        _ => ScreenAction::Stay,
    }
}

/// The counters of post `sel` have room for the given toggles.
pub open spec fn marks_have_room(
    posts: Seq<FeedPost>,
    sel: int,
    like: bool,
    repost: bool,
) -> bool {
    0 <= sel < posts.len() ==> {
        &&& like ==> can_toggle(posts[sel].post, EngagementKind::Like)
        &&& repost ==> can_toggle(posts[sel].post, EngagementKind::Repost)
    }
}

/// The toggle that a tap asks for, if any, has room in its counter.
pub open spec fn tap_has_room(posts: Seq<FeedPost>, tap: Option<TapAction>) -> bool {
    match tap {
        Some(TapAction::ToggleLike(i)) => i < posts.len() ==> can_toggle(
            posts[i as int].post,
            EngagementKind::Like,
        ),
        Some(TapAction::ToggleRepost(i)) => i < posts.len() ==> can_toggle(
            posts[i as int].post,
            EngagementKind::Repost,
        ),
        _ => true,
    }
}

impl PostList {
    /// The measured rows belong to the leading posts and fit; the selection is
    /// one of the posts, or 0.
    pub open spec fn wf(&self) -> bool {
        &&& self.row_heights@.len() == self.text_heights@.len()
        &&& self.row_heights@.len() <= self.posts@.len()
        &&& rows_fit(self.row_heights@)
        &&& forall|i: int|
            0 <= i < self.text_heights@.len() ==> heights_ok(#[trigger] self.text_heights@[i])
        &&& self.selected_idx == 0 || self.selected_idx < self.posts@.len()
    }

    /// The list with nothing measured and the given post selected.
    pub fn new(posts: Vec<FeedPost>, selected_idx: usize) -> (r: PostList)
        requires
            selected_idx == 0 || selected_idx < posts@.len(),
        ensures
            r.wf(),
            r.posts == posts,
            r.row_heights@.len() == 0,
            r.selected_idx == selected_idx,
    {
        PostList { posts, row_heights: Vec::new(), text_heights: Vec::new(), selected_idx }
    }

    /// Puts a page behind the posts that are there.
    pub fn append(&mut self, more: Vec<FeedPost>)
        requires
            old(self).wf(),
        ensures
            final(self).wf(),
            final(self).posts@ == old(self).posts@ + more@,
            *final(self) == (PostList { posts: final(self).posts, ..*old(self) }),
    {
        let ghost before = self.posts@;
        let ghost extra = more@;
        let mut more = more;
        self.posts.append(&mut more);
        assert(self.posts@ =~= before + extra);
    }

    /// Moves the selection by the up and down buttons; `true` means that one
    /// of them did anything.
    pub fn step(&mut self, up: bool, down: bool) -> (r: bool)
        requires
            old(self).wf(),
        ensures
            final(self).wf(),
            ({
                let n = old(self).posts@.len() as int;
                let sel = old(self).selected_idx as int;
                &&& final(self).selected_idx == (if n > 0 {
                    stepped(sel, up, down, n)
                } else {
                    sel
                })
                &&& r == (n > 0 && step_moves(sel, up, down, n))
            }),
            *final(self) == (PostList { selected_idx: final(self).selected_idx, ..*old(self) }),
    {
        let n: usize = self.posts.len();
        if n == 0 {
            return false;
        }
        let (s, moved) = step_selection(self.selected_idx, up, down, n);
        self.selected_idx = s;
        moved
    }

    /// Toggles a mark on a post.
    pub fn toggle_at(&mut self, idx: usize, kind: EngagementKind, has_worker: bool) -> (r: Option<
        WorkRequest,
    >)
        requires
            old(self).wf(),
            has_worker && idx < old(self).posts@.len() ==> can_toggle(
                old(self).posts@[idx as int].post,
                kind,
            ),
        ensures
            final(self).wf(),
            *final(self) == (PostList { posts: final(self).posts, ..*old(self) }),
            posts_marked(
                old(self).posts@,
                final(self).posts@,
                idx as int,
                has_worker && kind == EngagementKind::Like,
                has_worker && kind == EngagementKind::Repost,
            ),
            if has_worker && idx < old(self).posts@.len() {
                toggle_request_is(r, old(self).posts@[idx as int].post, kind)
            } else {
                r is None
            },
    {
        if !has_worker || idx >= self.posts.len() {
            return None;
        }
        toggle_engagement(&mut self.posts[idx], kind)
    }

    /// Toggles the given marks on a post.
    pub fn toggle_marks(&mut self, idx: usize, like: bool, repost: bool, has_worker: bool) -> (r: (
        Option<WorkRequest>,
        Option<WorkRequest>,
    ))
        requires
            old(self).wf(),
            marks_have_room(
                old(self).posts@,
                idx as int,
                like && has_worker,
                repost && has_worker,
            ),
        ensures
            final(self).wf(),
            *final(self) == (PostList { posts: final(self).posts, ..*old(self) }),
            posts_marked(
                old(self).posts@,
                final(self).posts@,
                idx as int,
                like && has_worker,
                repost && has_worker,
            ),
            if like && has_worker && idx < old(self).posts@.len() {
                toggle_request_is(r.0, old(self).posts@[idx as int].post, EngagementKind::Like)
            } else {
                r.0 is None
            },
            if repost && has_worker && idx < old(self).posts@.len() {
                toggle_request_is(r.1, old(self).posts@[idx as int].post, EngagementKind::Repost)
            } else {
                r.1 is None
            },
    {
        let mut liked: Option<WorkRequest> = None;
        let mut reposted: Option<WorkRequest> = None;
        if like {
            liked = self.toggle_at(idx, EngagementKind::Like, has_worker);
        }
        if repost {
            reposted = self.toggle_at(idx, EngagementKind::Repost, has_worker);
        }
        (liked, reposted)
    }

    /// Whether the counter of a post has room for a toggle.
    pub fn room_at(&self, idx: usize, kind: EngagementKind) -> (r: bool)
        ensures
            r == (idx < self.posts@.len() ==> can_toggle(self.posts@[idx as int].post, kind)),
    {
        idx >= self.posts.len() || toggle_fits(&self.posts[idx].post, kind)
    }

    /// Whether the counters of a post have room for the given toggles.
    pub fn marks_room(&self, sel: usize, like: bool, repost: bool) -> (r: bool)
        ensures
            r == marks_have_room(self.posts@, sel as int, like, repost),
    {
        (!like || self.room_at(sel, EngagementKind::Like)) && (!repost || self.room_at(
            sel,
            EngagementKind::Repost,
        ))
    }

    /// Whether the toggle that a tap asks for, if any, has room in its counter.
    pub fn room_for(&self, tap: &Option<TapAction>) -> (r: bool)
        ensures
            r == tap_has_room(self.posts@, *tap),
    {
        match tap {
            Some(TapAction::ToggleLike(i)) => self.room_at(*i, EngagementKind::Like),
            Some(TapAction::ToggleRepost(i)) => self.room_at(*i, EngagementKind::Repost),
            _ => true,
        }
    }

    /// The handle of the selected post's author.
    pub fn selected_handle(&self) -> (r: Option<String>)
        ensures
            r == (if self.selected_idx < self.posts@.len() {
                Some(self.posts@[self.selected_idx as int].post.author.handle)
            } else {
                None
            }),
    {
        if self.selected_idx < self.posts.len() {
            Some(self.posts[self.selected_idx].post.author.handle.clone())
        } else {
            None
        }
    }

    /// The next post to be measured.
    pub fn next_unmeasured(&self) -> (r: Option<usize>)
        requires
            self.wf(),
        ensures
            r == (if self.row_heights@.len() < self.posts@.len() {
                Some(self.row_heights@.len() as usize)
            } else {
                None
            }),
    {
        if self.row_heights.len() < self.posts.len() {
            Some(self.row_heights.len())
        } else {
            None
        }
    }

    /// The next post can be measured: there is one, and its row still fits.
    pub open spec fn row_fits(&self, h: TextHeights, show_context: bool) -> bool {
        &&& heights_ok(h)
        &&& self.row_heights@.len() < self.posts@.len()
        &&& total(self.row_heights@) + row_height(
            self.posts@[self.row_heights@.len() as int],
            h,
            show_context,
        ) <= MAX_CONTENT_H
    }

    /// Whether the next post can be measured: there is one, and its row still
    /// fits.
    pub fn row_room(&self, h: TextHeights, show_context: bool) -> (r: bool)
        requires
            self.wf(),
        ensures
            r == self.row_fits(h, show_context),
    {
        let i: usize = self.row_heights.len();
        if i >= self.posts.len() || !heights_fit(h) {
            return false;
        }
        let used: i32 = content_height(&self.row_heights);
        let row_h: i32 = measure_post_row(&self.posts[i], h, show_context);
        used as i64 + row_h as i64 <= MAX_CONTENT_H as i64
    }

    /// Takes the measured text heights of the next post.
    pub fn add_row(&mut self, h: TextHeights, show_context: bool)
        requires
            old(self).wf(),
            old(self).row_fits(h, show_context),
        ensures
            final(self).wf(),
            final(self).row_heights@ == old(self).row_heights@.push(
                row_height(
                    old(self).posts@[old(self).row_heights@.len() as int],
                    h,
                    show_context,
                ) as i32,
            ),
            final(self).text_heights@ == old(self).text_heights@.push(h),
            *final(self) == (PostList {
                row_heights: final(self).row_heights,
                text_heights: final(self).text_heights,
                ..*old(self)
            }),
    {
        let i: usize = self.row_heights.len();
        let row_h: i32 = measure_post_row(&self.posts[i], h, show_context);
        self.row_heights.push(row_h);
        self.text_heights.push(h);
        assert(self.row_heights@.drop_last() =~= old(self).row_heights@);
    }

    /// Confirms the first mark that is still being made.
    pub fn confirm_one(&mut self, kind: EngagementKind, uri: &str)
        requires
            old(self).wf(),
        ensures
            final(self).wf(),
            first_confirmed(old(self).posts@, final(self).posts@, kind, uri@),
            *final(self) == (PostList { posts: final(self).posts, ..*old(self) }),
    {
        confirm_first(&mut self.posts, kind, uri);
    }

    /// Confirms every mark that is still being made.
    pub fn confirm_every(&mut self, kind: EngagementKind, uri: &str)
        requires
            old(self).wf(),
        ensures
            final(self).wf(),
            all_confirmed(old(self).posts@, final(self).posts@, kind, uri@),
            *final(self) == (PostList { posts: final(self).posts, ..*old(self) }),
    {
        confirm_all(&mut self.posts, kind, uri);
    }

    /// The row that a tap hits, the first row starting at `origin`.
    pub open spec fn row_tapped(
        &self,
        touches: Seq<TouchPoint>,
        origin: int,
        band: (int, int),
        show_context: bool,
    ) -> Option<int> {
        first_tapped(
            self.posts@,
            self.row_heights@,
            self.text_heights@,
            origin,
            band,
            touches,
            show_context,
            0,
        )
    }

    /// What a tap on the list asks for.
    pub open spec fn tap_result(
        &self,
        r: Option<TapAction>,
        touches: Seq<TouchPoint>,
        origin: int,
        band: (int, int),
        show_context: bool,
    ) -> bool {
        match self.row_tapped(touches, origin, band, show_context) {
            None => r is None,
            Some(i) => tap_is(
                r,
                zone_hit(
                    self.posts@[i],
                    origin + row_top(self.row_heights@, i),
                    self.row_heights@[i] as int,
                    touches,
                    self.text_heights@[i],
                    show_context,
                ),
                self.posts@[i],
                i as usize,
            ),
        }
    }

    /// What a tap on the list asks for.
    pub fn tap(
        &self,
        touches: &Vec<TouchPoint>,
        origin: i32,
        band_top: i32,
        band_bottom: i32,
        show_context: bool,
    ) -> (r: Option<TapAction>)
        requires
            self.wf(),
            -MAX_CONTENT_H <= origin <= 900,
            band_bottom <= 900,
        ensures
            self.tap_result(
                r,
                touches@,
                origin as int,
                (band_top as int, band_bottom as int),
                show_context,
            ),
    {
        tap_in_rows(
            &self.posts,
            &self.row_heights,
            &self.text_heights,
            origin,
            band_top,
            band_bottom,
            touches,
            show_context,
        )
    }

    /// A tap on the list toggles no counter without room.
    pub open spec fn tap_fits(
        &self,
        touches: Seq<TouchPoint>,
        origin: int,
        band: (int, int),
        show_context: bool,
    ) -> bool {
        forall|tap: Option<TapAction>| #[trigger]
            self.tap_result(tap, touches, origin, band, show_context) ==> tap_has_room(
                self.posts@,
                tap,
            )
    }

    /// Whether a tap on the list toggles no counter without room.
    pub fn tap_room(
        &self,
        touches: &Vec<TouchPoint>,
        origin: i32,
        band_top: i32,
        band_bottom: i32,
        show_context: bool,
    ) -> (r: bool)
        requires
            self.wf(),
            -MAX_CONTENT_H <= origin <= 900,
            band_bottom <= 900,
        ensures
            r == self.tap_fits(
                touches@,
                origin as int,
                (band_top as int, band_bottom as int),
                show_context,
            ),
    {
        let tap = self.tap(touches, origin, band_top, band_bottom, show_context);
        let r = self.room_for(&tap);
        let ghost band = (band_top as int, band_bottom as int);
        assert(self.tap_result(tap, touches@, origin as int, band, show_context));
        r
    }

    /// What following a tap makes of a list, and the request it leads to.
    pub open spec fn tap_followed(
        a: PostList,
        b: PostList,
        tap: Option<TapAction>,
        has_worker: bool,
        request: Option<WorkRequest>,
    ) -> bool {
        match tap {
            Some(TapAction::ToggleLike(i)) => {
                &&& posts_marked(a.posts@, b.posts@, i as int, has_worker, false)
                &&& b == (PostList { posts: b.posts, ..a })
                &&& if has_worker && i < a.posts@.len() {
                    toggle_request_is(request, a.posts@[i as int].post, EngagementKind::Like)
                } else {
                    request is None
                }
            },
            Some(TapAction::ToggleRepost(i)) => {
                &&& posts_marked(a.posts@, b.posts@, i as int, false, has_worker)
                &&& b == (PostList { posts: b.posts, ..a })
                &&& if has_worker && i < a.posts@.len() {
                    toggle_request_is(request, a.posts@[i as int].post, EngagementKind::Repost)
                } else {
                    request is None
                }
            },
            _ => request is None && b == a,
        }
    }

    /// Follows a tap: marks are toggled in place, anything else opens.
    pub fn follow_tap(&mut self, tap: Option<TapAction>, has_worker: bool) -> (r: (
        Option<WorkRequest>,
        ScreenAction,
    ))
        requires
            old(self).wf(),
            has_worker ==> tap_has_room(old(self).posts@, tap),
        ensures
            final(self).wf(),
            r.1 == tap_opens(tap),
            PostList::tap_followed(*old(self), *final(self), tap, has_worker, r.0),
    {
        match tap {
            Some(TapAction::ToggleLike(i)) => {
                let request = self.toggle_at(i, EngagementKind::Like, has_worker);
                (request, ScreenAction::Stay)
            },
            Some(TapAction::ToggleRepost(i)) => {
                let request = self.toggle_at(i, EngagementKind::Repost, has_worker);
                (request, ScreenAction::Stay)
            },
            other => (None, open_tap(other)),
        }
    }
}

} // verus!
