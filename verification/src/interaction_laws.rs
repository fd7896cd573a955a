//! What liking, reposting and following do: at once on the screen, then at the
//! server, and back again.

use vstd::prelude::*;

#[allow(unused_imports)]
use crate::engagement::{
    all_confirmed, can_toggle, first_confirmed, first_waiting, is_waiting, post_confirmed,
    post_toggled, toggle_request_is, EngagementKind,
};
#[allow(unused_imports)]
use crate::model::{FeedPost, PostView, ProfileDetail};
#[allow(unused_imports)]
use crate::post_list::{posts_marked, reply_to, tap_opens, PostList};
#[allow(unused_imports)]
use crate::post_row::TapAction;
#[allow(unused_imports)]
use crate::profile::{follow_confirmed, follow_request_is, follow_toggled, ProfileState};
#[allow(unused_imports)]
use crate::requests::WorkRequest;
#[allow(unused_imports)]
use crate::screen::{NextScreen, ScreenAction};
#[allow(unused_imports)]
use crate::text::{after_last, after_last_pos, opt_view};
#[allow(unused_imports)]
use crate::worker::{planned, Task};

verus! {

// ── Keys ───────────────────────────────────────────────────────────────

proof fn lemma_after_last_pos(head: Seq<char>, key: Seq<char>, n: int)
    requires
        0 <= n <= key.len(),
        forall|i: int| 0 <= i < key.len() ==> #[trigger] key[i] != '/',
    ensures
        after_last_pos(head.push('/') + key.take(n), '/') == head.len() + 1,
    decreases n,
{
    let s = head.push('/') + key.take(n);
    if n > 0 {
        assert(s.last() == key[n - 1]);
        assert(s.drop_last() =~= head.push('/') + key.take(n - 1));
        lemma_after_last_pos(head, key, n - 1);
    } else {
        assert(s.last() == '/');
    }
}

/// The key of a record is what stands behind the last slash of its address.
pub proof fn lemma_key_of_address(head: Seq<char>, key: Seq<char>)
    requires
        forall|i: int| 0 <= i < key.len() ==> #[trigger] key[i] != '/',
    ensures
        after_last(head.push('/') + key, '/') == key,
{
    lemma_after_last_pos(head, key, key.len() as int);
    assert(key.take(key.len() as int) =~= key);
    assert(after_last(head.push('/') + key, '/') =~= key);
}

// ── Toggling ───────────────────────────────────────────────────────────

/// The reader's like or repost of a post, as it stands in the post.
pub open spec fn own_mark(p: PostView, like: bool) -> Option<Seq<char>> {
    match p.viewer {
        None => None,
        Some(v) => opt_view(
            if like {
                v.like
            } else {
                v.repost
            },
        ),
    }
}

/// The number of likes or reposts that a post shows; nothing counts as 0.
pub open spec fn shown_count(p: PostView, like: bool) -> int {
    match (if like {
        p.like_count
    } else {
        p.repost_count
    }) {
        Some(n) => n as int,
        None => 0,
    }
}

/// The number that a post shows once the reader's mark was turned over: one more
/// where it was made, one less, though not below nothing, where it was taken back.
pub open spec fn turned_count(p: PostView, like: bool) -> int {
    if own_mark(p, like) is None {
        shown_count(p, like) + 1
    } else if shown_count(p, like) > 0 {
        shown_count(p, like) - 1
    } else {
        0
    }
}

/// A toggle is of its kind throughout: a like is made and taken back as a like,
/// a repost as a repost, of the post that was toggled; and one that is still
/// being made asks for nothing.
pub proof fn lemma_toggle_asks_for_its_kind(
    r: Option<WorkRequest>,
    p: PostView,
    kind: EngagementKind,
)
    requires
        toggle_request_is(r, p, kind),
    ensures
        kind == EngagementKind::Like ==> !(r matches Some(WorkRequest::CreateRepost { .. })) && !(
        r matches Some(WorkRequest::DeleteRepost { .. })),
        kind == EngagementKind::Repost ==> !(r matches Some(WorkRequest::CreateLike { .. })) && !(
        r matches Some(WorkRequest::DeleteLike { .. })),
        own_mark(p, kind == EngagementKind::Like) == Some("__pending__"@) <==> r is None,
        match r {
            None => true,
            Some(WorkRequest::CreateLike { post_uri, post_cid }) => own_mark(p, true) is None
                && post_uri == p.uri && post_cid == p.cid,
            Some(WorkRequest::CreateRepost { post_uri, post_cid }) => own_mark(p, false) is None
                && post_uri == p.uri && post_cid == p.cid,
            Some(WorkRequest::DeleteLike { rkey }) => own_mark(p, true) matches Some(uri) && rkey@
                == after_last(uri, '/'),
            Some(WorkRequest::DeleteRepost { rkey }) => own_mark(p, false) matches Some(uri)
                && rkey@ == after_last(uri, '/'),
            _ => false,
        },
{
}

/// What a toggle comes down to at the server: a record made or removed in the
/// collection of its kind, under the account that is logged in, or a refusal of
/// that same kind.
pub proof fn lemma_toggle_reaches_its_collection(
    q: WorkRequest,
    p: PostView,
    kind: EngagementKind,
    session: Option<Seq<char>>,
    at: Seq<char>,
    data_dir: Seq<char>,
    t: Task,
)
    requires
        toggle_request_is(Some(q), p, kind),
        planned(q, session, at, data_dir, t),
    ensures
        ({
            let like = kind == EngagementKind::Like;
            let collection = if like {
                "app.bsky.feed.like"@
            } else {
                "app.bsky.feed.repost"@
            };
            match t {
                Task::Like(n) => like && own_mark(p, true) is None && n.collection@ == collection
                    && session == Some(n.repo@),
                Task::Repost(n) => !like && own_mark(p, false) is None && n.collection@
                    == collection && session == Some(n.repo@),
                Task::Unlike(o) => like && o.collection@ == collection && session == Some(o.repo@)
                    && own_mark(p, true) is Some && o.rkey@ == after_last(
                    own_mark(p, true)->0,
                    '/',
                ),
                Task::Unrepost(o) => !like && o.collection@ == collection && session == Some(
                    o.repo@,
                ) && own_mark(p, false) is Some && o.rkey@ == after_last(
                    own_mark(p, false)->0,
                    '/',
                ),
                Task::Answer(w) => if like {
                    w is LikeChanged
                } else {
                    w is RepostChanged
                },
                _ => false,
            }
        }),
{
}

/// A toggle shows at once: a mark that was not there is there and counts one
/// more, one that was there is gone and counts one less, though never below
/// nothing. The other kind and all else of the post stay.
pub proof fn lemma_toggle_shows_at_once(a: PostView, b: PostView, kind: EngagementKind)
    requires
        post_toggled(a, b, kind),
        can_toggle(a, kind),
    ensures
        ({
            let like = kind == EngagementKind::Like;
            &&& own_mark(a, like) is None ==> own_mark(b, like) == Some("__pending__"@)
                && shown_count(b, like) == shown_count(a, like) + 1
            &&& own_mark(a, like) is Some ==> own_mark(b, like) is None && shown_count(b, like) == (
            if shown_count(a, like) >= 1 {
                shown_count(a, like) - 1
            } else {
                0
            })
            &&& own_mark(b, !like) == own_mark(a, !like)
            &&& shown_count(b, !like) == shown_count(a, !like)
            &&& b.uri == a.uri && b.cid == a.cid && b.author == a.author && b.record == a.record
                && b.embed == a.embed && b.reply_count == a.reply_count
        }),
{
}

/// Made, confirmed and taken back: what is removed is the very record that the
/// server told of, of the same kind.
pub proof fn lemma_confirmed_mark_is_taken_back(
    a: FeedPost,
    b: FeedPost,
    kind: EngagementKind,
    head: Seq<char>,
    key: Seq<char>,
    r: Option<WorkRequest>,
)
    requires
        post_confirmed(a, b, kind, head.push('/') + key),
        forall|i: int| 0 <= i < key.len() ==> #[trigger] key[i] != '/',
        head.push('/') + key != "__pending__"@,
        toggle_request_is(r, b.post, kind),
    ensures
        kind == EngagementKind::Like ==> (r matches Some(WorkRequest::DeleteLike { rkey }) && rkey@
            == key),
        kind == EngagementKind::Repost ==> (r matches Some(WorkRequest::DeleteRepost { rkey })
            && rkey@ == key),
{
    lemma_key_of_address(head, key);
}

/// A confirmation settles a waiting mark of its kind under the address it tells,
/// and changes no number, no other mark and no other post.
pub proof fn lemma_confirmation_settles(
    a: Seq<FeedPost>,
    b: Seq<FeedPost>,
    kind: EngagementKind,
    uri: Seq<char>,
    i: int,
)
    requires
        0 <= i < a.len(),
    ensures
        ({
            let like = kind == EngagementKind::Like;
            let waits = own_mark(a[i].post, like) == Some("__pending__"@);
            let settled = {
                &&& own_mark(b[i].post, like) == Some(uri)
                &&& own_mark(b[i].post, !like) == own_mark(a[i].post, !like)
                &&& shown_count(b[i].post, true) == shown_count(a[i].post, true)
                &&& shown_count(b[i].post, false) == shown_count(a[i].post, false)
                &&& b[i].post.uri == a[i].post.uri && b[i].post.author == a[i].post.author
                    && b[i].reason == a[i].reason
            };
            &&& all_confirmed(a, b, kind, uri) ==> b.len() == a.len() && (if waits {
                settled
            } else {
                b[i] == a[i]
            })
            &&& first_confirmed(a, b, kind, uri) ==> {
                let first = waits && forall|k: int|
                    0 <= k < i ==> own_mark((#[trigger] a[k]).post, like) != Some("__pending__"@);
                &&& b.len() == a.len()
                &&& if first {
                    settled
                } else {
                    b[i] == a[i]
                }
            }
        }),
{
    let like = kind == EngagementKind::Like;
    lemma_first_waiting_is_first(a, kind, 0);
    let k = first_waiting(a, kind, 0);
    if i < k {
        assert(!is_waiting(a[i], kind));
    }
    if k < i {
        assert(own_mark(a[k].post, like) == Some("__pending__"@));
    }
    if all_confirmed(a, b, kind, uri) {
        assert(if is_waiting(a[i], kind) {
            post_confirmed(a[i], b[i], kind, uri)
        } else {
            b[i] == a[i]
        });
    }
}

proof fn lemma_first_waiting_is_first(posts: Seq<FeedPost>, kind: EngagementKind, from: int)
    requires
        0 <= from <= posts.len(),
    ensures
        from <= first_waiting(posts, kind, from) <= posts.len(),
        first_waiting(posts, kind, from) < posts.len() ==> is_waiting(
            posts[first_waiting(posts, kind, from)],
            kind,
        ),
        forall|k: int|
            from <= k < first_waiting(posts, kind, from) ==> !is_waiting(#[trigger] posts[k], kind),
    decreases posts.len() - from,
{
    if from < posts.len() && !is_waiting(posts[from], kind) {
        lemma_first_waiting_is_first(posts, kind, from + 1);
    }
}

/// The like and repost buttons touch the selected post and no other: each mark
/// that was asked for is turned over, and the other one stays.
pub proof fn lemma_marks_on_selected_alone(
    a: Seq<FeedPost>,
    b: Seq<FeedPost>,
    sel: int,
    like: bool,
    repost: bool,
    i: int,
)
    requires
        posts_marked(a, b, sel, like, repost),
        0 <= i < a.len(),
    ensures
        b.len() == a.len(),
        i != sel ==> b[i] == a[i],
        i == sel ==> {
            &&& (own_mark(b[i].post, true) is Some) == (if like {
                own_mark(a[i].post, true) is None
            } else {
                own_mark(a[i].post, true) is Some
            })
            &&& (own_mark(b[i].post, false) is Some) == (if repost {
                own_mark(a[i].post, false) is None
            } else {
                own_mark(a[i].post, false) is Some
            })
            &&& !like ==> own_mark(b[i].post, true) == own_mark(a[i].post, true) && shown_count(
                b[i].post,
                true,
            ) == shown_count(a[i].post, true)
            &&& !repost ==> own_mark(b[i].post, false) == own_mark(a[i].post, false)
                && shown_count(b[i].post, false) == shown_count(a[i].post, false)
            &&& like && can_toggle(a[i].post, EngagementKind::Like) ==> shown_count(b[i].post, true)
                == turned_count(a[i].post, true)
            &&& repost && can_toggle(a[i].post, EngagementKind::Repost) ==> shown_count(
                b[i].post,
                false,
            ) == turned_count(a[i].post, false)
            &&& b[i].post.uri == a[i].post.uri && b[i].post.cid == a[i].post.cid
                && b[i].post.record == a[i].post.record && b[i].reason == a[i].reason
        },
{
}

/// A tap is followed by what was tapped: a mark on that post, or the profile,
/// thread, pictures or video that the tap is on; one that is on nothing changes
/// nothing.
pub proof fn lemma_tap_does_what_it_says(
    a: PostList,
    b: PostList,
    tap: Option<TapAction>,
    has_worker: bool,
    request: Option<WorkRequest>,
)
    requires
        PostList::tap_followed(a, b, tap, has_worker, request),
    ensures
        match tap {
            Some(TapAction::ToggleLike(i)) => {
                &&& tap_opens(tap) is Stay
                &&& b.selected_idx == a.selected_idx && b.row_heights == a.row_heights
                &&& posts_marked(a.posts@, b.posts@, i as int, has_worker, false)
                &&& !has_worker ==> request is None
                &&& has_worker && i < a.posts@.len() ==> toggle_request_is(
                    request,
                    a.posts@[i as int].post,
                    EngagementKind::Like,
                )
            },
            Some(TapAction::ToggleRepost(i)) => {
                &&& tap_opens(tap) is Stay
                &&& b.selected_idx == a.selected_idx && b.row_heights == a.row_heights
                &&& posts_marked(a.posts@, b.posts@, i as int, false, has_worker)
                &&& !has_worker ==> request is None
                &&& has_worker && i < a.posts@.len() ==> toggle_request_is(
                    request,
                    a.posts@[i as int].post,
                    EngagementKind::Repost,
                )
            },
            Some(TapAction::OpenProfile(who)) => b == a && request is None && (tap_opens(
                tap,
            ) matches ScreenAction::Push(NextScreen::Profile { actor: Some(h) }) && h == who),
            Some(TapAction::OpenThread(u)) => b == a && request is None && (tap_opens(
                tap,
            ) matches ScreenAction::Push(NextScreen::Thread { uri }) && uri == u),
            Some(TapAction::OpenVideo(v)) => b == a && request is None && (tap_opens(
                tap,
            ) matches ScreenAction::Push(NextScreen::Video { did, cid }) && did == v.did && cid
                == v.cid),
            Some(TapAction::OpenImage { images: pics, index: at }) => b == a && request is None && (
            tap_opens(tap) matches ScreenAction::Push(NextScreen::Images { images, index })
                && images == pics && index == at),
            None => b == a && request is None && tap_opens(tap) is Stay,
        },
{
}

/// A reply answers the post it was begun on.
pub proof fn lemma_reply_to_selected(p: FeedPost)
    ensures
        reply_to(p).parent_uri == p.post.uri && reply_to(p).parent_cid == p.post.cid,
        reply_to(p).root_uri == p.post.uri && reply_to(p).root_cid == p.post.cid,
{
}

// ── Following ──────────────────────────────────────────────────────────

/// Whether the reader follows an account, as it stands in its profile.
pub open spec fn own_follow(p: ProfileDetail) -> Option<Seq<char>> {
    match p.viewer {
        None => None,
        Some(v) => opt_view(v.following),
    }
}

/// Following shows at once and asks for a follow of that account; unfollowing
/// asks for the removal of the follow that was made, by its key. While one is
/// still being made nothing is asked for. Nothing else of the profile changes.
pub proof fn lemma_follow_does_what_it_says(
    p: ProfileDetail,
    b: ProfileState,
    r: Option<WorkRequest>,
    head: Seq<char>,
    key: Seq<char>,
)
    requires
        follow_toggled(ProfileState::Loaded(Box::new(p)), b),
        follow_request_is(r, p),
    ensures
        b matches ProfileState::Loaded(q) && {
            &&& own_follow(p) is None ==> own_follow(*q) == Some("__pending__"@)
            &&& own_follow(p) is Some ==> own_follow(*q) is None
            &&& q.did == p.did && q.handle == p.handle && q.followers_count == p.followers_count
                && q.description == p.description
        },
        own_follow(p) is None ==> (r matches Some(WorkRequest::CreateFollow { actor_did })
            && actor_did == p.did),
        own_follow(p) == Some("__pending__"@) ==> r is None,
        own_follow(p) == Some(head.push('/') + key) && head.push('/') + key != "__pending__"@ && (
        forall|i: int| 0 <= i < key.len() ==> #[trigger] key[i] != '/') ==> (
        r matches Some(WorkRequest::DeleteFollow { rkey }) && rkey@ == key),
{
    if forall|i: int| 0 <= i < key.len() ==> #[trigger] key[i] != '/' {
        lemma_key_of_address(head, key);
    }
}

/// What following comes down to at the server: a record among the follows of the
/// account that is logged in.
pub proof fn lemma_follow_reaches_its_collection(
    q: WorkRequest,
    p: ProfileDetail,
    session: Option<Seq<char>>,
    at: Seq<char>,
    data_dir: Seq<char>,
    t: Task,
)
    requires
        follow_request_is(Some(q), p),
        planned(q, session, at, data_dir, t),
    ensures
        match t {
            Task::Follow(n) => own_follow(p) is None && n.collection@ == "app.bsky.graph.follow"@
                && session == Some(n.repo@),
            Task::Unfollow(o) => own_follow(p) is Some && o.collection@
                == "app.bsky.graph.follow"@ && session == Some(o.repo@) && o.rkey@ == after_last(
                own_follow(p)->0,
                '/',
            ),
            Task::Answer(w) => w is FollowChanged,
            _ => false,
        },
{
}

/// The confirmation of a follow settles one that waits, under the address it
/// tells, and touches no other.
pub proof fn lemma_follow_confirmation_settles(p: ProfileDetail, b: ProfileState, uri: String)
    requires
        follow_confirmed(ProfileState::Loaded(Box::new(p)), b, uri),
    ensures
        b matches ProfileState::Loaded(q) && {
            &&& own_follow(p) == Some("__pending__"@) ==> own_follow(*q) == Some(uri@) && q.did
                == p.did
            &&& own_follow(p) != Some("__pending__"@) ==> *q == p
        },
{
}

} // verus!
