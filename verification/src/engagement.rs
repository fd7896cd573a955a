//! Likes and reposts, shown before the server has confirmed them.

use vstd::prelude::*;

use crate::model::{FeedPost, PostView, PostViewer};
use crate::requests::WorkRequest;
use crate::text::{is_text, owned, same_text, tail_after};
#[allow(unused_imports)]
use crate::text::{after_last, opt_view};

verus! {

/// What is toggled.
#[derive(Copy, Clone, Debug, PartialEq, Eq, Structural)]
pub enum EngagementKind {
    Like,
    Repost,
}

/// Stands in for the address of a like, repost or follow that is under way.
pub open spec fn pending_uri() -> Seq<char> {
    "__pending__"@
}

/// The stand-in, as text.
pub(crate) fn pending_text() -> (r: String)
    ensures
        r@ == pending_uri(),
{
    owned("__pending__")
}

/// The reader's own mark on a post.
pub open spec fn mark_of(p: PostView, kind: EngagementKind) -> Option<Seq<char>> {
    match p.viewer {
        None => None,
        Some(v) => match kind {
            EngagementKind::Like => opt_view(v.like),
            EngagementKind::Repost => opt_view(v.repost),
        },
    }
}

/// The counter that goes with a mark.
pub open spec fn count_of(p: PostView, kind: EngagementKind) -> Option<i64> {
    match kind {
        EngagementKind::Like => p.like_count,
        EngagementKind::Repost => p.repost_count,
    }
}

/// A counter that is not known counts as 0.
pub open spec fn counted(c: Option<i64>) -> int {
    match c {
        Some(n) => n as int,
        None => 0,
    }
}

/// The other kind of mark.
pub open spec fn other_kind(kind: EngagementKind) -> EngagementKind {
    match kind {
        EngagementKind::Like => EngagementKind::Repost,
        EngagementKind::Repost => EngagementKind::Like,
    }
}

/// The mark after a toggle: none where there was one, the stand-in where
/// there was none.
pub open spec fn toggled_mark(mark: Option<Seq<char>>) -> Option<Seq<char>> {
    match mark {
        Some(_) => None,
        None => Some(pending_uri()),
    }
}

/// The counter after a toggle: one more, or one less but never below 0.
pub open spec fn toggled_count(mark: Option<Seq<char>>, c: Option<i64>) -> int {
    match mark {
        None => counted(c) + 1,
        Some(_) => if counted(c) >= 1 {
            counted(c) - 1
        } else {
            0
        },
    }
}

/// The request that a toggle leads to: making a mark, or taking it back by the
/// key at the end of its address. None while the mark is still being made.
pub open spec fn toggle_request_is(
    r: Option<WorkRequest>,
    p: PostView,
    kind: EngagementKind,
) -> bool {
    match mark_of(p, kind) {
        None => r == Some(
            match kind {
                EngagementKind::Like => WorkRequest::CreateLike {
                    post_uri: p.uri,
                    post_cid: p.cid,
                },
                EngagementKind::Repost => WorkRequest::CreateRepost {
                    post_uri: p.uri,
                    post_cid: p.cid,
                },
            },
        ),
        Some(uri) => if uri == pending_uri() {
            r is None
        } else {
            match kind {
                EngagementKind::Like => r matches Some(WorkRequest::DeleteLike { rkey }) && rkey@
                    == after_last(uri, '/'),
                EngagementKind::Repost => r matches Some(WorkRequest::DeleteRepost { rkey })
                    && rkey@ == after_last(uri, '/'),
            }
        },
    }
}

/// The counter has room for a toggle.
pub open spec fn can_toggle(p: PostView, kind: EngagementKind) -> bool {
    let n = counted(count_of(p, kind));
    if mark_of(p, kind) is None {
        n < i64::MAX
    } else {
        n > i64::MIN
    }
}

/// Whether the counter of a post has room for a toggle.
pub fn toggle_fits(p: &PostView, kind: EngagementKind) -> (r: bool)
    ensures
        r == can_toggle(*p, kind),
{
    let count: Option<i64> = match kind {
        EngagementKind::Like => p.like_count,
        EngagementKind::Repost => p.repost_count,
    };
    let marked = match &p.viewer {
        Some(v) => match kind {
            EngagementKind::Like => v.like.is_some(),
            EngagementKind::Repost => v.repost.is_some(),
        },
        None => false,
    };
    let n: i64 = match count {
        Some(n) => n,
        None => 0,
    };
    if marked {
        n > i64::MIN
    } else {
        n < i64::MAX
    }
}

/// Everything of a post but its marks and counters is kept.
pub open spec fn same_post_but_marks(a: PostView, b: PostView) -> bool {
    b == (PostView {
        viewer: b.viewer,
        like_count: b.like_count,
        repost_count: b.repost_count,
        ..a
    })
}

/// What a toggle makes of a post.
pub open spec fn post_toggled(a: PostView, b: PostView, kind: EngagementKind) -> bool {
    &&& same_post_but_marks(a, b)
    &&& mark_of(b, kind) == toggled_mark(mark_of(a, kind))
    &&& count_of(b, kind) == Some(toggled_count(mark_of(a, kind), count_of(a, kind)) as i64)
    &&& mark_of(b, other_kind(kind)) == mark_of(a, other_kind(kind))
    &&& count_of(b, other_kind(kind)) == count_of(a, other_kind(kind))
}

/// Toggles a mark at once and gives the request that makes it so.
pub fn toggle_engagement(post: &mut FeedPost, kind: EngagementKind) -> (r: Option<WorkRequest>)
    requires
        can_toggle(old(post).post, kind),
    ensures
        toggle_request_is(r, old(post).post, kind),
        post_toggled(old(post).post, final(post).post, kind),
        can_toggle(final(post).post, kind),
        *final(post) == (FeedPost { post: final(post).post, ..*old(post) }),
{
    let mut like: Option<String> = None;
    let mut repost: Option<String> = None;
    match post.post.viewer.take() {
        Some(v) => {
            like = v.like;
            repost = v.repost;
        },
        None => {},
    }
    let existing = match kind {
        EngagementKind::Like => like.take(),
        EngagementKind::Repost => repost.take(),
    };
    let count: i64 = match kind {
        EngagementKind::Like => match post.post.like_count {
            Some(n) => n,
            None => 0,
        },
        EngagementKind::Repost => match post.post.repost_count {
            Some(n) => n,
            None => 0,
        },
    };
    match existing {
        Some(uri) => {
            let less: i64 = if count >= 1 {
                count - 1
            } else {
                0
            };
            match kind {
                EngagementKind::Like => {
                    post.post.like_count = Some(less);
                },
                EngagementKind::Repost => {
                    post.post.repost_count = Some(less);
                },
            }
            post.post.viewer = Some(PostViewer { like, repost });
            if same_text(uri.as_str(), "__pending__") {
                return None;
            }
            let rkey = tail_after(uri.as_str(), '/');
            match kind {
                EngagementKind::Like => Some(WorkRequest::DeleteLike { rkey }),
                EngagementKind::Repost => Some(WorkRequest::DeleteRepost { rkey }),
            }
        },
        None => {
            match kind {
                EngagementKind::Like => {
                    like = Some(pending_text());
                    post.post.like_count = Some(count + 1);
                },
                EngagementKind::Repost => {
                    repost = Some(pending_text());
                    post.post.repost_count = Some(count + 1);
                },
            }
            post.post.viewer = Some(PostViewer { like, repost });
            let post_uri = post.post.uri.clone();
            let post_cid = post.post.cid.clone();
            match kind {
                EngagementKind::Like => Some(WorkRequest::CreateLike { post_uri, post_cid }),
                EngagementKind::Repost => Some(WorkRequest::CreateRepost { post_uri, post_cid }),
            }
        },
    }
}

/// Whether the mark on a post is still being made.
pub open spec fn is_waiting(p: FeedPost, kind: EngagementKind) -> bool {
    mark_of(p.post, kind) == Some(pending_uri())
}

/// The same post with its mark confirmed under `uri`.
pub open spec fn post_confirmed(
    a: FeedPost,
    b: FeedPost,
    kind: EngagementKind,
    uri: Seq<char>,
) -> bool {
    &&& mark_of(b.post, kind) == Some(uri)
    &&& mark_of(b.post, other_kind(kind)) == mark_of(a.post, other_kind(kind))
    &&& b == (FeedPost { post: PostView { viewer: b.post.viewer, ..a.post }, ..a })
}

/// Confirms the mark on a post where it is still being made.
pub fn confirm_mark(post: &mut FeedPost, kind: EngagementKind, uri: &str) -> (r: bool)
    ensures
        r == is_waiting(*old(post), kind),
        r ==> post_confirmed(*old(post), *final(post), kind, uri@),
        !r ==> *final(post) == *old(post),
{
    let waiting = match &post.post.viewer {
        None => false,
        Some(v) => match kind {
            EngagementKind::Like => is_text(&v.like, "__pending__"),
            EngagementKind::Repost => is_text(&v.repost, "__pending__"),
        },
    };
    if !waiting {
        return false;
    }
    let mut like: Option<String> = None;
    let mut repost: Option<String> = None;
    match post.post.viewer.take() {
        Some(v) => {
            like = v.like;
            repost = v.repost;
        },
        None => {},
    }
    match kind {
        EngagementKind::Like => {
            like = Some(owned(uri));
        },
        EngagementKind::Repost => {
            repost = Some(owned(uri));
        },
    }
    post.post.viewer = Some(PostViewer { like, repost });
    true
}

/// The index of the first post from `from` on whose mark is still being made;
/// the length where there is none.
pub open spec fn first_waiting(posts: Seq<FeedPost>, kind: EngagementKind, from: int) -> int
    decreases posts.len() - from,
{
    if from >= posts.len() {
        posts.len() as int
    } else if is_waiting(posts[from], kind) {
        from
    } else {
        first_waiting(posts, kind, from + 1)
    }
}

/// The posts once the first waiting mark was confirmed.
pub open spec fn first_confirmed(
    a: Seq<FeedPost>,
    b: Seq<FeedPost>,
    kind: EngagementKind,
    uri: Seq<char>,
) -> bool {
    let k = first_waiting(a, kind, 0);
    &&& b.len() == a.len()
    &&& forall|i: int| 0 <= i < a.len() && i != k ==> #[trigger] b[i] == a[i]
    &&& k < a.len() ==> post_confirmed(a[k], b[k], kind, uri)
}

/// Confirms the first mark that is still being made.
pub fn confirm_first(posts: &mut Vec<FeedPost>, kind: EngagementKind, uri: &str)
    ensures
        first_confirmed(old(posts)@, final(posts)@, kind, uri@),
{
    let mut i: usize = 0;
    while i < posts.len()
        invariant
            i <= posts@.len(),
            posts@ == old(posts)@,
            first_waiting(old(posts)@, kind, 0) == first_waiting(old(posts)@, kind, i as int),
        decreases posts@.len() - i,
    {
        let ghost before = posts@;
        if confirm_mark(&mut posts[i], kind, uri) {
            return;
        }
        assert(posts@ =~= before);
        i += 1;
    }
}

/// The posts once every waiting mark was confirmed.
pub open spec fn all_confirmed(
    a: Seq<FeedPost>,
    b: Seq<FeedPost>,
    kind: EngagementKind,
    uri: Seq<char>,
) -> bool {
    &&& b.len() == a.len()
    &&& forall|i: int|
        0 <= i < a.len() ==> if is_waiting(a[i], kind) {
            post_confirmed(a[i], #[trigger] b[i], kind, uri)
        } else {
            b[i] == a[i]
        }
}

/// Confirms every mark that is still being made.
pub fn confirm_all(posts: &mut Vec<FeedPost>, kind: EngagementKind, uri: &str)
    ensures
        all_confirmed(old(posts)@, final(posts)@, kind, uri@),
{
    let mut i: usize = 0;
    while i < posts.len()
        invariant
            i <= posts@.len(),
            posts@.len() == old(posts)@.len(),
            forall|k: int| i <= k < posts@.len() ==> #[trigger] posts@[k] == old(posts)@[k],
            forall|k: int|
                0 <= k < i ==> if is_waiting(old(posts)@[k], kind) {
                    post_confirmed(old(posts)@[k], #[trigger] posts@[k], kind, uri@)
                } else {
                    posts@[k] == old(posts)@[k]
                },
        decreases posts@.len() - i,
    {
        let ghost before = posts@;
        confirm_mark(&mut posts[i], kind, uri);
        assert(forall|k: int| 0 <= k < posts@.len() && k != i ==> #[trigger] posts@[k] == before[k]);
        i += 1;
    }
}

/// Toggling twice leaves a post that had no mark as it was: no mark, and the
/// counter back where it stood.
pub proof fn lemma_toggle_twice(a: PostView, b: PostView, c: PostView, kind: EngagementKind)
    requires
        mark_of(a, kind) is None,
        counted(count_of(a, kind)) >= 0,
        can_toggle(a, kind),
        post_toggled(a, b, kind),
        post_toggled(b, c, kind),
    ensures
        mark_of(c, kind) is None,
        counted(count_of(c, kind)) == counted(count_of(a, kind)),
        same_post_but_marks(a, c),
{
}

/// Taking back a mark before it was confirmed asks the server for nothing;
/// afterwards it is taken back by the key of the confirmed address.
pub proof fn lemma_untoggle_request(p: PostView, kind: EngagementKind, r: Option<WorkRequest>)
    requires
        toggle_request_is(r, p, kind),
        mark_of(p, kind) is Some,
    ensures
        r is None <==> mark_of(p, kind) == Some(pending_uri()),
{
}

} // verus!
