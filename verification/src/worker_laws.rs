//! What a request is dealt with as: each asks the server for what it names, and
//! what comes back goes where it was asked for.

use vstd::prelude::*;

#[allow(unused_imports)]
use crate::downloads::address_problem;
#[allow(unused_imports)]
use crate::identifiers::{account_problem, did_problem};
#[allow(unused_imports)]
use crate::model::{FeedPost, FeedReason};
#[allow(unused_imports)]
use crate::profile_tabs::{
    feed_tab_after, first_pin, source_tab, tab_request_is, tabs_responded, tabs_shown, ProfileTab,
    ProfileTabs, TabFeedState,
};
#[allow(unused_imports)]
use crate::requests::{FeedSource, WorkRequest, WorkResponse};
#[allow(unused_imports)]
use crate::text::opt_view;
#[allow(unused_imports)]
use crate::worker::{bad_member, planned, FeedCall, ItemKind, Task};

verus! {

// ── Requests ───────────────────────────────────────────────────────────

/// Who is asked about: the account that was named, or the reader's own.
pub proof fn lemma_profile_of_whom(
    actor: Option<String>,
    session: Option<Seq<char>>,
    at: Seq<char>,
    data_dir: Seq<char>,
    t: Task,
)
    requires
        planned(WorkRequest::FetchProfile { actor }, session, at, data_dir, t),
    ensures
        t is Profile || t is Answer,
        t matches Task::Profile { actor: who } ==> (if actor is Some {
            who@ == actor->0@
        } else {
            session == Some(who@)
        }) && account_problem(who@) is None,
        actor matches Some(a) && account_problem(a@) is None ==> t is Profile,
        actor is None && session is Some && account_problem(session->0) is None ==> t is Profile,
        t matches Task::Answer(w) ==> w matches WorkResponse::Profile(Err(_)),
{
}

/// A feed is asked for as what it is: the timeline, the custom feed by its
/// address, and an account's posts, replies, media or likes, each from where the
/// last page ended.
pub proof fn lemma_feed_asked_as_it_is(
    source: FeedSource,
    cursor: Option<String>,
    session: Option<Seq<char>>,
    at: Seq<char>,
    data_dir: Seq<char>,
    t: Task,
)
    requires
        planned(WorkRequest::FetchFeed { source, cursor }, session, at, data_dir, t),
    ensures
        source is Following || source is Feed ==> t is Feed,
        t matches Task::Answer(w) ==> (w matches WorkResponse::FeedPage { source: s, batch: Err(_) }
            && s == source),
        t is Feed || t is Answer,
        t matches Task::Feed { source: s, call, cursor: c, limit } ==> {
            &&& s == source
            &&& c == cursor
            &&& limit == 50
            &&& source is Following ==> call is Timeline
            &&& source matches FeedSource::Feed(u) ==> (call matches FeedCall::Feed { uri } && uri@
                == u@)
            &&& source matches FeedSource::AuthorPosts { actor: a } ==> (
            call matches FeedCall::Author { actor, filter, include_pins } && actor@ == a@ && filter@
                == "posts_and_author_threads"@ && include_pins == (cursor is None))
            &&& source matches FeedSource::AuthorReplies { actor: a } ==> (
            call matches FeedCall::Author { actor, filter, include_pins } && actor@ == a@ && filter@
                == "posts_with_replies"@ && !include_pins)
            &&& source matches FeedSource::AuthorMedia { actor: a } ==> (
            call matches FeedCall::Author { actor, filter, include_pins } && actor@ == a@ && filter@
                == "posts_with_media"@ && !include_pins)
            &&& source matches FeedSource::AuthorLikes { actor: a } ==> (
            call matches FeedCall::Likes { actor } && actor@ == a@)
        },
{
}

/// What is only read asks the server for what the request names, from where it
/// says, and nothing is written on that account.
pub proof fn lemma_reads_what_was_named(
    req: WorkRequest,
    session: Option<Seq<char>>,
    at: Seq<char>,
    data_dir: Seq<char>,
    t: Task,
)
    requires
        planned(req, session, at, data_dir, t),
    ensures
        t is Post ==> req is CreateThread,
        t is Like ==> req is CreateLike,
        t is Unlike ==> req is DeleteLike,
        t is Repost ==> req is CreateRepost,
        t is Unrepost ==> req is DeleteRepost,
        t is Follow ==> req is CreateFollow,
        t is Unfollow ==> req is DeleteFollow,
        t matches Task::Send { convo_id: c, text: x } ==> (req matches WorkRequest::SendMessage {
            convo_id,
            text,
        } && c@ == convo_id@ && x@ == text@),
        t matches Task::Read { convo_id: c } ==> (req matches WorkRequest::MarkConvoRead {
            convo_id,
        } && c@ == convo_id@),
        t matches Task::Seen { seen_at: s } ==> (req matches WorkRequest::MarkSeen { seen_at } && s@
            == seen_at@),
        t matches Task::Thread { uri: u, depth, parent_height } ==> (
        req matches WorkRequest::FetchThread { uri } && u@ == uri@ && depth == 2 && parent_height
            == 10),
        t matches Task::Image { url: u } ==> (req matches WorkRequest::FetchImage { url } && u@
            == url@ && address_problem(url@) is None),
        t matches Task::File { path: p } ==> (req matches WorkRequest::ReadImageFile { path } && p@
            == path@),
        t matches Task::Notifications { cursor: c, limit } ==> (
        req matches WorkRequest::FetchNotifications { cursor } && c == cursor && limit == 50),
        t matches Task::Convos { cursor: c, limit } ==> (req matches WorkRequest::FetchConvos {
            cursor,
        } && c == cursor && limit == 50),
        t matches Task::Messages { convo_id: i, cursor: c, limit } ==> (
        req matches WorkRequest::GetConvoMessages { convo_id, cursor } && i@ == convo_id@ && c
            == cursor && limit == 50),
        t matches Task::SearchActors { q: x, cursor: c, limit } ==> (
        req matches WorkRequest::SearchActors { q, cursor } && x@ == q@ && c == cursor && limit
            == 25),
        t matches Task::SearchPosts { q: x, cursor: c, limit } ==> (
        req matches WorkRequest::SearchPosts { q, cursor } && x@ == q@ && c == cursor && limit
            == 25),
        t matches Task::Items { kind, actor: a, cursor: c, limit } ==> limit == 50 && match kind {
            ItemKind::Feeds => req matches WorkRequest::FetchActorFeeds { actor, cursor } && a@
                == actor@ && c == cursor,
            ItemKind::Lists => req matches WorkRequest::FetchActorLists { actor, cursor } && a@
                == actor@ && c == cursor,
            ItemKind::StarterPacks => req matches WorkRequest::FetchActorStarterPacks {
                actor,
                cursor,
            } && a@ == actor@ && c == cursor,
        },
        t matches Task::Video(v) ==> (req matches WorkRequest::FetchVideoBlob { did, cid } && v.did@
            == did@ && v.cid@ == cid@),
        t matches Task::Members { members: m } ==> (req matches WorkRequest::GetConvoForMembers {
            members,
        } && m@ == members@),
        t is SavedFeeds ==> req is FetchSavedFeeds,
        t is Convos || t is Messages || t is Send || t is Read || t is Notifications || t is Seen
            || t is Thread || t is SearchActors || t is SearchPosts || t is File || t is Video
            || t is SavedFeeds <==> req is FetchConvos || req is GetConvoMessages
            || req is SendMessage || req is MarkConvoRead || req is FetchNotifications
            || req is MarkSeen || req is FetchThread || req is SearchActors || req is SearchPosts
            || req is ReadImageFile || req is FetchVideoBlob || req is FetchSavedFeeds,
{
}

/// A request that is refused at once is refused with an error of its own kind,
/// so that whoever asked is told.
pub proof fn lemma_refusal_tells_the_asker(
    req: WorkRequest,
    session: Option<Seq<char>>,
    at: Seq<char>,
    data_dir: Seq<char>,
    w: WorkResponse,
)
    requires
        planned(req, session, at, data_dir, Task::Answer(w)),
    ensures
        match req {
            WorkRequest::FetchProfile { .. } => w matches WorkResponse::Profile(Err(_)),
            WorkRequest::FetchFeed { source, .. } => w matches WorkResponse::FeedPage {
                source: s,
                batch: Err(_),
            } && s == source,
            WorkRequest::FetchImage { url } => w matches WorkResponse::Image { url: u, bytes: Err(_) }
                && u == url && address_problem(url@) is Some,
            WorkRequest::CreateThread { .. } => w matches WorkResponse::PostCreated(Err(_)),
            WorkRequest::CreateLike { .. } => w matches WorkResponse::LikeChanged(Err(_)),
            WorkRequest::DeleteLike { .. } => w matches WorkResponse::LikeChanged(Err(_)),
            WorkRequest::CreateRepost { .. } => w matches WorkResponse::RepostChanged(Err(_)),
            WorkRequest::DeleteRepost { .. } => w matches WorkResponse::RepostChanged(Err(_)),
            WorkRequest::CreateFollow { .. } => w matches WorkResponse::FollowChanged(Err(_)),
            WorkRequest::DeleteFollow { .. } => w matches WorkResponse::FollowChanged(Err(_)),
            WorkRequest::FetchActorFeeds { actor, .. } => w matches WorkResponse::ActorFeeds {
                actor: a,
                batch: Err(_),
            } && a == actor && account_problem(actor@) is Some,
            WorkRequest::FetchActorLists { actor, .. } => w matches WorkResponse::ActorLists {
                actor: a,
                batch: Err(_),
            } && a == actor && account_problem(actor@) is Some,
            WorkRequest::FetchActorStarterPacks { actor, .. } => {
                w matches WorkResponse::ActorStarterPacks { actor: a, batch: Err(_) } && a == actor
                    && account_problem(actor@) is Some
            },
            WorkRequest::GetConvoForMembers { members } => {
                &&& w matches WorkResponse::ConvoForMembers(Err(_))
                &&& exists|i: int|
                    0 <= i < members@.len() && did_problem((#[trigger] members@[i])@) is Some
            },
            _ => false,
        },
{
    if let WorkRequest::GetConvoForMembers { members } = req {
        lemma_bad_member(members@, 0);
    }
}

proof fn lemma_bad_member(members: Seq<String>, from: int)
    requires
        0 <= from <= members.len(),
    ensures
        bad_member(members, from) is Some <==> exists|i: int|
            from <= i < members.len() && did_problem((#[trigger] members[i])@) is Some,
    decreases members.len() - from,
{
    if from < members.len() && did_problem(members[from]@) is None {
        lemma_bad_member(members, from + 1);
    }
}

/// A conversation is looked for where all its members are accounts.
pub proof fn lemma_members_asked(
    members: Vec<String>,
    session: Option<Seq<char>>,
    at: Seq<char>,
    data_dir: Seq<char>,
    t: Task,
)
    requires
        planned(WorkRequest::GetConvoForMembers { members }, session, at, data_dir, t),
        forall|i: int| 0 <= i < members@.len() ==> did_problem((#[trigger] members@[i])@) is None,
    ensures
        t matches Task::Members { members: m } && m@ == members@,
{
    lemma_bad_member(members@, 0);
}

// ── The sub-tabs of a profile ──────────────────────────────────────────

/// The page that a sub-tab asks for comes back to that very sub-tab, and is what
/// the sub-tab is named for.
pub proof fn lemma_tab_page_comes_back(
    r: WorkRequest,
    tab: ProfileTab,
    did: Seq<char>,
    cursor: Option<String>,
    session: Option<Seq<char>>,
    at: Seq<char>,
    data_dir: Seq<char>,
    t: Task,
)
    requires
        tab_request_is(r, tab, did, cursor),
        planned(r, session, at, data_dir, t),
        account_problem(did) is None,
    ensures
        match r {
            WorkRequest::FetchFeed { source, cursor: c } => source_tab(source) == Some((tab, did))
                && c == cursor && (t matches Task::Feed { source: s, call, cursor: d, .. } && s
                == source && d == cursor && match tab {
                ProfileTab::Posts => call matches FeedCall::Author { actor, filter, .. } && actor@
                    == did && filter@ == "posts_and_author_threads"@,
                ProfileTab::Replies => call matches FeedCall::Author { actor, filter, .. } && actor@
                    == did && filter@ == "posts_with_replies"@,
                ProfileTab::Media => call matches FeedCall::Author { actor, filter, .. } && actor@
                    == did && filter@ == "posts_with_media"@,
                ProfileTab::Likes => call matches FeedCall::Likes { actor } && actor@ == did,
                _ => false,
            }),
            WorkRequest::FetchActorFeeds { .. } => tab == ProfileTab::Feeds && (
            t matches Task::Items { kind: ItemKind::Feeds, actor, cursor: c, .. } && actor@ == did
                && c == cursor),
            WorkRequest::FetchActorLists { .. } => tab == ProfileTab::Lists && (
            t matches Task::Items { kind: ItemKind::Lists, actor, cursor: c, .. } && actor@ == did
                && c == cursor),
            WorkRequest::FetchActorStarterPacks { .. } => tab == ProfileTab::Packs && (
            t matches Task::Items { kind: ItemKind::StarterPacks, actor, cursor: c, .. } && actor@
                == did && c == cursor),
            _ => false,
        },
{
}

/// What two sub-tabs ask for is never the same.
pub proof fn lemma_tabs_ask_apart(
    r: WorkRequest,
    a: ProfileTab,
    b: ProfileTab,
    did: Seq<char>,
    cursor: Option<String>,
)
    requires
        tab_request_is(r, a, did, cursor),
        tab_request_is(r, b, did, cursor),
    ensures
        a == b,
{
}

/// A page of posts goes behind what its own sub-tab shows, and to no other: what
/// an account posted to the posts, what it replied to the replies, its media to
/// the media, its likes to the likes.
pub proof fn lemma_feed_page_fills_its_tab(
    a: ProfileTabs,
    b: ProfileTabs,
    source: FeedSource,
    resp: WorkResponse,
    did: Seq<char>,
)
    requires
        tabs_responded(a, b, resp, Some(did)),
        resp matches WorkResponse::FeedPage { source: s, batch: Ok(page) } && s == source,
    ensures
        ({
            let page = resp->FeedPage_batch->Ok_0;
            &&& source matches FeedSource::AuthorPosts { actor } ==> actor@ == did ==> {
                &&& b.posts.list.posts@ == a.posts.list.posts@ + page.posts@
                &&& b.posts.next_cursor == page.cursor && !b.posts.fetching && b.posts.error is None
                &&& b == (ProfileTabs { posts: b.posts, ..a })
            }
            &&& source matches FeedSource::AuthorReplies { actor } ==> actor@ == did ==> {
                &&& b.replies.list.posts@ == a.replies.list.posts@ + page.posts@
                &&& b.replies.next_cursor == page.cursor && !b.replies.fetching
                    && b.replies.error is None
                &&& b == (ProfileTabs { replies: b.replies, ..a })
            }
            &&& source matches FeedSource::AuthorMedia { actor } ==> actor@ == did ==> {
                &&& b.media.list.posts@ == a.media.list.posts@ + page.posts@
                &&& b.media.next_cursor == page.cursor && !b.media.fetching && b.media.error is None
                &&& b == (ProfileTabs { media: b.media, ..a })
            }
            &&& source matches FeedSource::AuthorLikes { actor } ==> actor@ == did ==> {
                &&& b.likes.list.posts@ == a.likes.list.posts@ + page.posts@
                &&& b.likes.next_cursor == page.cursor && !b.likes.fetching && b.likes.error is None
                &&& b == (ProfileTabs { likes: b.likes, ..a })
            }
            &&& source is Following || source is Feed ==> b == a
        }),
{
    reveal(tabs_responded);
}

/// A page of custom feeds, lists or starter packs of the account goes behind
/// those shown, and changes nothing else.
pub proof fn lemma_items_fill_their_tab(
    a: ProfileTabs,
    b: ProfileTabs,
    resp: WorkResponse,
    did: Seq<char>,
)
    requires
        tabs_responded(a, b, resp, Some(did)),
    ensures
        resp matches WorkResponse::ActorFeeds { actor, batch: Ok(p) } ==> actor@ == did ==> {
            &&& b.feeds.items@ == a.feeds.items@ + p.feeds@
            &&& b.feeds.next_cursor == p.cursor && !b.feeds.fetching && b.feeds.error is None
            &&& b.feeds.selected_idx == a.feeds.selected_idx
            &&& b == (ProfileTabs { feeds: b.feeds, ..a })
        },
        resp matches WorkResponse::ActorLists { actor, batch: Ok(p) } ==> actor@ == did ==> {
            &&& b.lists.items@ == a.lists.items@ + p.lists@
            &&& b.lists.next_cursor == p.cursor && !b.lists.fetching && b.lists.error is None
            &&& b.lists.selected_idx == a.lists.selected_idx
            &&& b == (ProfileTabs { lists: b.lists, ..a })
        },
        resp matches WorkResponse::ActorStarterPacks { actor, batch: Ok(p) } ==> actor@ == did ==> {
            &&& b.packs.items@ == a.packs.items@ + p.starter_packs@
            &&& b.packs.next_cursor == p.cursor && !b.packs.fetching && b.packs.error is None
            &&& b.packs.selected_idx == a.packs.selected_idx
            &&& b == (ProfileTabs { packs: b.packs, ..a })
        },
{
    reveal(tabs_responded);
}

/// A page that fails is told on its own sub-tab, and what was shown stays. Likes
/// that are kept private read better than the server's words.
pub proof fn lemma_failed_tab_is_told(
    a: ProfileTabs,
    b: ProfileTabs,
    resp: WorkResponse,
    did: Seq<char>,
)
    requires
        tabs_responded(a, b, resp, Some(did)),
    ensures
        resp matches WorkResponse::FeedPage {
            source: FeedSource::AuthorPosts { actor },
            batch: Err(e),
        } ==> actor@ == did ==> opt_view(b.posts.error) == Some(e@) && b.posts.list == a.posts.list
            && !b.posts.fetching && b.posts.next_cursor == a.posts.next_cursor && b == (
        ProfileTabs { posts: b.posts, ..a }),
        resp matches WorkResponse::FeedPage {
            source: FeedSource::AuthorReplies { actor },
            batch: Err(e),
        } ==> actor@ == did ==> opt_view(b.replies.error) == Some(e@) && b.replies.list
            == a.replies.list && !b.replies.fetching && b == (ProfileTabs {
            replies: b.replies,
            ..a
        }),
        resp matches WorkResponse::FeedPage {
            source: FeedSource::AuthorMedia { actor },
            batch: Err(e),
        } ==> actor@ == did ==> opt_view(b.media.error) == Some(e@) && b.media.list == a.media.list
            && !b.media.fetching && b == (ProfileTabs { media: b.media, ..a }),
        resp matches WorkResponse::FeedPage {
            source: FeedSource::AuthorLikes { actor },
            batch: Err(e),
        } ==> actor@ == did ==> b.likes.error is Some && b.likes.list == a.likes.list
            && !b.likes.fetching && b == (ProfileTabs { likes: b.likes, ..a }),
        resp matches WorkResponse::ActorFeeds { actor, batch: Err(e) } ==> actor@ == did ==> b.feeds.error == Some(e) && b.feeds.items == a.feeds.items && !b.feeds.fetching
            && b == (ProfileTabs { feeds: b.feeds, ..a }),
        resp matches WorkResponse::ActorLists { actor, batch: Err(e) } ==> actor@ == did ==> b.lists.error == Some(e) && b.lists.items == a.lists.items && !b.lists.fetching
            && b == (ProfileTabs { lists: b.lists, ..a }),
        resp matches WorkResponse::ActorStarterPacks { actor, batch: Err(e) } ==> actor@ == did ==> b.packs.error == Some(e) && b.packs.items == a.packs.items && !b.packs.fetching
            && b == (ProfileTabs { packs: b.packs, ..a }),
{
    reveal(tabs_responded);
}

/// The pinned post is marked where it stands: it is pinned, none before it is,
/// and it is looked for on the first page of the posts alone.
pub proof fn lemma_pin_marks_pinned_post(
    a: TabFeedState,
    b: TabFeedState,
    tab: ProfileTab,
    page: crate::requests::TimelineBatch,
)
    requires
        feed_tab_after(a, b, tab, Ok(page)),
        page.posts@.len() <= usize::MAX,
    ensures
        tab != ProfileTab::Posts || a.list.posts@.len() > 0 ==> b.pinned_idx == a.pinned_idx,
        tab == ProfileTab::Posts && a.list.posts@.len() == 0 ==> {
            &&& (exists|i: int|
                0 <= i < page.posts@.len() && (#[trigger] page.posts@[i]).reason == Some(
                    FeedReason::Pin,
                )) ==> {
                &&& b.pinned_idx is Some
                &&& b.pinned_idx->0 < b.list.posts@.len()
                &&& b.list.posts@[b.pinned_idx->0 as int].reason == Some(FeedReason::Pin)
                &&& forall|i: int|
                    0 <= i < b.pinned_idx->0 ==> (#[trigger] b.list.posts@[i]).reason != Some(
                        FeedReason::Pin,
                    )
            }
            &&& (forall|i: int|
                0 <= i < page.posts@.len() ==> (#[trigger] page.posts@[i]).reason != Some(
                    FeedReason::Pin,
                )) ==> b.pinned_idx == a.pinned_idx
        },
{
    lemma_first_pin(page.posts@, 0);
    if a.list.posts@.len() == 0 {
        assert(b.list.posts@ =~= page.posts@);
    }
}

proof fn lemma_first_pin(posts: Seq<FeedPost>, from: int)
    requires
        0 <= from <= posts.len() <= usize::MAX,
    ensures
        first_pin(posts, from) matches Some(k) ==> from <= k < posts.len()
            && posts[k as int].reason == Some(FeedReason::Pin) && forall|i: int|
            from <= i < k ==> (#[trigger] posts[i]).reason != Some(FeedReason::Pin),
        first_pin(posts, from) is None ==> forall|i: int|
            from <= i < posts.len() ==> (#[trigger] posts[i]).reason != Some(FeedReason::Pin),
    decreases posts.len() - from,
{
    if from < posts.len() && posts[from].reason != Some(FeedReason::Pin) {
        lemma_first_pin(posts, from + 1);
    }
}

/// A profile shows its posts first; the reader's own shows every sub-tab, that of
/// another all but the likes, and none twice.
pub proof fn lemma_tabs_of_a_profile(own: bool, t: ProfileTab, i: int, j: int)
    requires
        0 <= i < j < tabs_shown(own).len(),
    ensures
        tabs_shown(own)[0] == ProfileTab::Posts,
        tabs_shown(own)[i] != tabs_shown(own)[j],
        tabs_shown(own).contains(t) <==> own || t != ProfileTab::Likes,
        tabs_shown(own).len() == (if own {
            7int
        } else {
            6
        }),
{
    let s = tabs_shown(own);
    assert(s[0] == ProfileTab::Posts && s[1] == ProfileTab::Replies && s[2] == ProfileTab::Media);
    if own {
        assert(s[3] == ProfileTab::Likes && s[4] == ProfileTab::Feeds && s[5] == ProfileTab::Lists
            && s[6] == ProfileTab::Packs);
    } else {
        assert(s[3] == ProfileTab::Feeds && s[4] == ProfileTab::Lists && s[5] == ProfileTab::Packs);
    }
}

/// The first page of a sub-tab is asked for with the sub-tab marked as asked and
/// under way, and no other.
pub proof fn lemma_asking_marks_one_tab(a: ProfileTabs, t: ProfileTab, u: ProfileTab)
    ensures
        ({
            let b = a.with_flags(t, true, true);
            &&& b.was_asked(t) && b.is_fetching(t)
            &&& u != t ==> b.was_asked(u) == a.was_asked(u) && b.is_fetching(u) == a.is_fetching(u)
            &&& b.cursor_of(u) == a.cursor_of(u)
            &&& b.active == a.active
            &&& b.posts.list == a.posts.list && b.replies.list == a.replies.list && b.media.list
                == a.media.list && b.likes.list == a.likes.list
            &&& b.feeds.items == a.feeds.items && b.lists.items == a.lists.items && b.packs.items
                == a.packs.items
        }),
{
}

/// What is active is what is shown: the list of posts of that sub-tab, and none
/// on the sub-tabs without posts.
pub proof fn lemma_active_list_is_shown(a: ProfileTabs)
    ensures
        a.active == ProfileTab::Posts ==> a.active_list() == Some(a.posts.list),
        a.active == ProfileTab::Replies ==> a.active_list() == Some(a.replies.list),
        a.active == ProfileTab::Media ==> a.active_list() == Some(a.media.list),
        a.active == ProfileTab::Likes ==> a.active_list() == Some(a.likes.list),
        a.active == ProfileTab::Feeds || a.active == ProfileTab::Lists || a.active
            == ProfileTab::Packs ==> a.active_list() is None,
        a.active_list() matches Some(l) ==> a.with_list(l) == a,
        forall|l: crate::post_list::PostList|
            a.active_list() is Some ==> (#[trigger] a.with_list(l)).active_list() == Some(l)
                && a.with_list(l).active == a.active,
{
}

} // verus!
