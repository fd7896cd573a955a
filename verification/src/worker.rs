//! The worker: what each request asks of the network, and how replies are
//! answered.

use crossbeam_channel::{Receiver, Sender};
use vstd::prelude::*;

use crate::atproto::time_text;
use crate::downloads::{address_error, VideoFetch};
#[allow(unused_imports)]
use crate::downloads::{address_problem, video_dir, video_path};
use crate::identifiers::{parse_account, parse_did, quote};
#[allow(unused_imports)]
use crate::identifiers::{account_problem, did_problem, quoted};
use crate::posting::ThreadPoster;
#[allow(unused_imports)]
use crate::posting::begun;
use crate::records::{
    create_engagement_record, create_follow, delete_record, NewRecord, OldRecord,
};
#[allow(unused_imports)]
use crate::records::{follow_record, mark_collection, mark_record, new_view, old_view, removal_of};
use crate::requests::{
    FeedSource, NotificationBatch, ReplyTarget, ThreadSegment, WorkRequest, WorkResponse,
};
use crate::text::{join2, join3, owned};
#[allow(unused_imports)]
use crate::text::opt_view;

verus! {

/// How many entries a page holds.
pub const PAGE: u8 = 50;

/// How many results a page of a search holds.
pub const SEARCH_PAGE: u8 = 25;

/// How many levels of replies below a post are fetched.
pub const THREAD_DEPTH: u16 = 2;

/// How many posts above a post are fetched.
pub const THREAD_HEIGHT: u16 = 10;

/// How a feed is asked for.
#[derive(Debug)]
pub enum FeedCall {
    Timeline,
    Feed { uri: String },
    Author { actor: String, filter: String, include_pins: bool },
    Likes { actor: String },
}

/// What of an account's is asked for.
#[derive(Debug)]
pub enum ItemKind {
    Feeds,
    Lists,
    StarterPacks,
}

/// What a request comes down to.
#[allow(inconsistent_fields)]
#[derive(Debug)]
pub enum Task {
    /// Nothing is to be asked; this is the answer.
    Answer(WorkResponse),
    Profile { actor: String },
    Feed { source: FeedSource, call: FeedCall, cursor: Option<String>, limit: u8 },
    SavedFeeds,
    Image { url: String },
    File { path: String },
    Post(ThreadPoster),
    Like(NewRecord),
    Unlike(OldRecord),
    Repost(NewRecord),
    Unrepost(OldRecord),
    Follow(NewRecord),
    Unfollow(OldRecord),
    Thread { uri: String, depth: u16, parent_height: u16 },
    Items { kind: ItemKind, actor: String, cursor: Option<String>, limit: u8 },
    Notifications { cursor: Option<String>, limit: u8 },
    Seen { seen_at: String },
    SearchActors { q: String, cursor: Option<String>, limit: u8 },
    SearchPosts { q: String, cursor: Option<String>, limit: u8 },
    Video(VideoFetch),
    Convos { cursor: Option<String>, limit: u8 },
    Messages { convo_id: String, cursor: Option<String>, limit: u8 },
    Send { convo_id: String, text: String },
    Read { convo_id: String },
    Members { members: Vec<String> },
}

// ── Profiles ───────────────────────────────────────────────────────────

/// A profile is asked for by the account, or by the reader's own where none is
/// given.
pub open spec fn profile_planned(
    actor: Option<String>,
    session: Option<Seq<char>>,
    t: Task,
) -> bool {
    let who = match actor {
        Some(a) => Some(a@),
        None => session,
    };
    match who {
        None => t matches Task::Answer(WorkResponse::Profile(Err(e))) && e@
            == "agent has no session DID — not logged in"@,
        Some(a) => match account_problem(a) {
            None => t matches Task::Profile { actor: b } && b@ == a,
            Some(p) => t matches Task::Answer(WorkResponse::Profile(Err(e))) && e@
                == "invalid actor identifier "@ + quoted(a) + ": "@ + p,
        },
    }
}

fn invalid(what: &str, actor: &str, e: &str) -> (r: String)
    ensures
        r@ == what@ + quoted(actor@) + ": "@ + e@,
{
    let q = quote(actor);
    let head = join3(what, q.as_str(), ": ");
    join2(head.as_str(), e)
}

fn plan_profile(actor: Option<String>, session: &Option<String>) -> (t: Task)
    ensures
        profile_planned(actor, opt_view(*session), t),
{
    let who = match actor {
        Some(a) => a,
        None => match session {
            Some(d) => d.clone(),
            None => {
                return Task::Answer(
                    WorkResponse::Profile(
                        Err(owned("agent has no session DID — not logged in")),
                    ),
                );
            },
        },
    };
    match parse_account(who.as_str()) {
        Ok(actor) => Task::Profile { actor },
        Err(e) => {
            let m = invalid("invalid actor identifier ", who.as_str(), e.as_str());
            Task::Answer(WorkResponse::Profile(Err(m)))
        },
    }
}

// ── Feeds ──────────────────────────────────────────────────────────────

/// The account whose feed this is, where it is an account's.
pub open spec fn feed_actor(source: FeedSource) -> Option<Seq<char>> {
    match source {
        FeedSource::Following => None,
        FeedSource::Feed(_) => None,
        FeedSource::AuthorPosts { actor } => Some(actor@),
        FeedSource::AuthorReplies { actor } => Some(actor@),
        FeedSource::AuthorMedia { actor } => Some(actor@),
        FeedSource::AuthorLikes { actor } => Some(actor@),
    }
}

/// How a feed is asked for. Pinned posts come with the first page of an
/// account's posts and threads, and with nothing else.
pub open spec fn is_feed_call(source: FeedSource, cursor: Option<String>, call: FeedCall) -> bool {
    match source {
        FeedSource::Following => call is Timeline,
        FeedSource::Feed(u) => call matches FeedCall::Feed { uri } && uri == u,
        FeedSource::AuthorPosts { actor: a } => call matches FeedCall::Author {
            actor,
            filter,
            include_pins,
        } && actor@ == a@ && filter@ == "posts_and_author_threads"@ && include_pins == (
        cursor is None),
        FeedSource::AuthorReplies { actor: a } => call matches FeedCall::Author {
            actor,
            filter,
            include_pins,
        } && actor@ == a@ && filter@ == "posts_with_replies"@ && !include_pins,
        FeedSource::AuthorMedia { actor: a } => call matches FeedCall::Author {
            actor,
            filter,
            include_pins,
        } && actor@ == a@ && filter@ == "posts_with_media"@ && !include_pins,
        FeedSource::AuthorLikes { actor: a } => call matches FeedCall::Likes { actor } && actor@
            == a@,
    }
}

/// A page of a feed is asked for under its source, which the answer repeats.
pub open spec fn feed_planned(source: FeedSource, cursor: Option<String>, t: Task) -> bool {
    let bad = match feed_actor(source) {
        Some(a) => account_problem(a),
        None => None,
    };
    match bad {
        None => t matches Task::Feed { source: s, call, cursor: c, limit } && s == source && c
            == cursor && limit == PAGE && is_feed_call(source, cursor, call),
        Some(p) => t matches Task::Answer(WorkResponse::FeedPage { source: s, batch: Err(e) }) && s
            == source && e@ == "invalid actor "@ + quoted(feed_actor(source)->Some_0) + ": "@ + p,
    }
}

fn feed_call(source: &FeedSource, first: bool, actor: String) -> (call: FeedCall)
    requires
        feed_actor(*source) matches Some(a) ==> actor@ == a,
    ensures
        forall|cursor: Option<String>|
            #![trigger is_feed_call(*source, cursor, call)]
            (cursor is None) == first ==> is_feed_call(*source, cursor, call),
{
    match source {
        FeedSource::Following => FeedCall::Timeline,
        FeedSource::Feed(u) => FeedCall::Feed { uri: u.clone() },
        FeedSource::AuthorPosts { .. } => FeedCall::Author {
            actor,
            filter: owned("posts_and_author_threads"),
            include_pins: first,
        },
        FeedSource::AuthorReplies { .. } => FeedCall::Author {
            actor,
            filter: owned("posts_with_replies"),
            include_pins: false,
        },
        FeedSource::AuthorMedia { .. } => FeedCall::Author {
            actor,
            filter: owned("posts_with_media"),
            include_pins: false,
        },
        FeedSource::AuthorLikes { .. } => FeedCall::Likes { actor },
    }
}

fn actor_of(source: &FeedSource) -> (r: Option<&String>)
    ensures
        match r {
            Some(a) => feed_actor(*source) == Some(a@),
            None => feed_actor(*source) is None,
        },
{
    match source {
        FeedSource::Following => None,
        FeedSource::Feed(_) => None,
        FeedSource::AuthorPosts { actor } => Some(actor),
        FeedSource::AuthorReplies { actor } => Some(actor),
        FeedSource::AuthorMedia { actor } => Some(actor),
        FeedSource::AuthorLikes { actor } => Some(actor),
    }
}

/// What a request for a page of a feed comes down to.
pub fn fetch_feed_page(source: FeedSource, cursor: Option<String>) -> (t: Task)
    ensures
        feed_planned(source, cursor, t),
{
    let checked = match actor_of(&source) {
        None => Ok(String::new()),
        Some(a) => match parse_account(a.as_str()) {
            Ok(id) => Ok(id),
            Err(e) => Err(invalid("invalid actor ", a.as_str(), e.as_str())),
        },
    };
    match checked {
        Ok(actor) => {
            let call = feed_call(&source, cursor.is_none(), actor);
            assert(is_feed_call(source, cursor, call));
            Task::Feed { source, call, cursor, limit: PAGE }
        },
        Err(m) => Task::Answer(WorkResponse::FeedPage { source, batch: Err(m) }),
    }
}

// ── What an account made ───────────────────────────────────────────────

/// Whether an answer tells of this kind, of this account, that it failed.
pub open spec fn items_failed(kind: ItemKind, actor: String, e: Seq<char>, w: WorkResponse) -> bool {
    match kind {
        ItemKind::Feeds => w matches WorkResponse::ActorFeeds { actor: a, batch: Err(m) } && a
            == actor && m@ == e,
        ItemKind::Lists => w matches WorkResponse::ActorLists { actor: a, batch: Err(m) } && a
            == actor && m@ == e,
        ItemKind::StarterPacks => w matches WorkResponse::ActorStarterPacks {
            actor: a,
            batch: Err(m),
        } && a == actor && m@ == e,
    }
}

/// What an account made is asked for under the account, which the answer
/// repeats.
pub open spec fn items_planned(
    kind: ItemKind,
    actor: String,
    cursor: Option<String>,
    t: Task,
) -> bool {
    match account_problem(actor@) {
        None => t == (Task::Items { kind, actor, cursor, limit: PAGE }),
        Some(p) => t matches Task::Answer(w) && items_failed(kind, actor, "invalid actor: "@ + p, w),
    }
}

fn plan_items(kind: ItemKind, actor: String, cursor: Option<String>) -> (t: Task)
    ensures
        items_planned(kind, actor, cursor, t),
{
    match parse_account(actor.as_str()) {
        Ok(_) => Task::Items { kind, actor, cursor, limit: PAGE },
        Err(e) => {
            let m = join2("invalid actor: ", e.as_str());
            Task::Answer(
                match kind {
                    ItemKind::Feeds => WorkResponse::ActorFeeds { actor, batch: Err(m) },
                    ItemKind::Lists => WorkResponse::ActorLists { actor, batch: Err(m) },
                    ItemKind::StarterPacks => WorkResponse::ActorStarterPacks {
                        actor,
                        batch: Err(m),
                    },
                },
            )
        },
    }
}

// ── Marks and follows ──────────────────────────────────────────────────

/// A like or repost that went through is told as just that.
pub open spec fn mark_made(is_like: bool, uri: Option<String>, r: WorkResponse) -> bool {
    r == (if is_like {
        WorkResponse::LikeChanged(Ok(uri))
    } else {
        WorkResponse::RepostChanged(Ok(uri))
    })
}

/// The answer to a like or repost that was made or taken back.
pub fn wrap_engagement_ok(is_like: bool, uri: Option<String>) -> (r: WorkResponse)
    ensures
        mark_made(is_like, uri, r),
{
    if is_like {
        WorkResponse::LikeChanged(Ok(uri))
    } else {
        WorkResponse::RepostChanged(Ok(uri))
    }
}

/// A like or repost that failed is told as just that.
pub open spec fn mark_refused(is_like: bool, msg: String, r: WorkResponse) -> bool {
    r == (if is_like {
        WorkResponse::LikeChanged(Err(msg))
    } else {
        WorkResponse::RepostChanged(Err(msg))
    })
}

/// The answer to a like or repost that failed.
pub fn wrap_engagement_err(is_like: bool, msg: String) -> (r: WorkResponse)
    ensures
        mark_refused(is_like, msg, r),
{
    if is_like {
        WorkResponse::LikeChanged(Err(msg))
    } else {
        WorkResponse::RepostChanged(Err(msg))
    }
}

/// Whether an answer tells that a like or repost failed.
pub open spec fn mark_failed(is_like: bool, e: Seq<char>, w: WorkResponse) -> bool {
    if is_like {
        w matches WorkResponse::LikeChanged(Err(m)) && m@ == e
    } else {
        w matches WorkResponse::RepostChanged(Err(m)) && m@ == e
    }
}

/// A like or repost comes down to its record.
pub open spec fn mark_planned(
    is_like: bool,
    record: Result<(Seq<char>, Seq<char>, Seq<char>), Seq<char>>,
    t: Task,
) -> bool {
    match record {
        Ok(_) => if is_like {
            t matches Task::Like(n) && record == new_view(Ok(n))
        } else {
            t matches Task::Repost(n) && record == new_view(Ok(n))
        },
        Err(e) => t matches Task::Answer(w) && mark_failed(is_like, e, w),
    }
}

/// Taking one back comes down to its record.
pub open spec fn unmark_planned(
    is_like: bool,
    record: Result<(Seq<char>, Seq<char>, Seq<char>), Seq<char>>,
    t: Task,
) -> bool {
    match record {
        Ok(_) => if is_like {
            t matches Task::Unlike(n) && record == old_view(Ok(n))
        } else {
            t matches Task::Unrepost(n) && record == old_view(Ok(n))
        },
        Err(e) => t matches Task::Answer(w) && mark_failed(is_like, e, w),
    }
}

fn plan_mark(
    is_like: bool,
    uri: &str,
    cid: &str,
    session: &Option<String>,
    at: &str,
) -> (t: Task)
    ensures
        mark_planned(is_like, mark_record(opt_view(*session), is_like, uri@, cid@, at@), t),
{
    match create_engagement_record(session, is_like, uri, cid, at) {
        Ok(n) => if is_like {
            Task::Like(n)
        } else {
            Task::Repost(n)
        },
        Err(e) => Task::Answer(wrap_engagement_err(is_like, e)),
    }
}

fn plan_unmark(is_like: bool, rkey: &str, session: &Option<String>) -> (t: Task)
    ensures
        unmark_planned(
            is_like,
            removal_of(opt_view(*session), mark_collection(is_like), rkey@),
            t,
        ),
{
    let collection = if is_like {
        "app.bsky.feed.like"
    } else {
        "app.bsky.feed.repost"
    };
    match delete_record(session, collection, rkey) {
        Ok(n) => if is_like {
            Task::Unlike(n)
        } else {
            Task::Unrepost(n)
        },
        Err(e) => Task::Answer(wrap_engagement_err(is_like, e)),
    }
}

/// A follow comes down to its record.
pub open spec fn follow_planned(
    record: Result<(Seq<char>, Seq<char>, Seq<char>), Seq<char>>,
    t: Task,
) -> bool {
    match record {
        Ok(_) => t matches Task::Follow(n) && record == new_view(Ok(n)),
        Err(e) => t matches Task::Answer(WorkResponse::FollowChanged(Err(m))) && m@ == e,
    }
}

/// Taking a follow back comes down to its record.
pub open spec fn unfollow_planned(
    record: Result<(Seq<char>, Seq<char>, Seq<char>), Seq<char>>,
    t: Task,
) -> bool {
    match record {
        Ok(_) => t matches Task::Unfollow(n) && record == old_view(Ok(n)),
        Err(e) => t matches Task::Answer(WorkResponse::FollowChanged(Err(m))) && m@ == e,
    }
}

fn plan_follow(did: &str, session: &Option<String>, at: &str) -> (t: Task)
    ensures
        follow_planned(follow_record(opt_view(*session), did@, at@), t),
{
    match create_follow(session, did, at) {
        Ok(n) => Task::Follow(n),
        Err(e) => Task::Answer(WorkResponse::FollowChanged(Err(e))),
    }
}

fn plan_unfollow(rkey: &str, session: &Option<String>) -> (t: Task)
    ensures
        unfollow_planned(removal_of(opt_view(*session), "app.bsky.graph.follow"@, rkey@), t),
{
    match delete_record(session, "app.bsky.graph.follow", rkey) {
        Ok(n) => Task::Unfollow(n),
        Err(e) => Task::Answer(WorkResponse::FollowChanged(Err(e))),
    }
}

// ── Posts, pictures, conversations ─────────────────────────────────────

/// A thread is posted, or the answer tells why it cannot be.
pub open spec fn post_planned(
    segments: Vec<ThreadSegment>,
    reply_to: Option<ReplyTarget>,
    session: Option<Seq<char>>,
    t: Task,
) -> bool {
    match t {
        Task::Post(p) => begun(segments, reply_to, session, Ok(p)),
        Task::Answer(w) => begun(segments, reply_to, session, Err(w)),
        _ => false,
    }
}

fn create_thread(
    segments: Vec<ThreadSegment>,
    reply_to: Option<ReplyTarget>,
    session: &Option<String>,
) -> (t: Task)
    ensures
        post_planned(segments, reply_to, opt_view(*session), t),
{
    match ThreadPoster::start(segments, reply_to, session) {
        Ok(p) => Task::Post(p),
        Err(w) => Task::Answer(w),
    }
}

/// A picture is fetched where its address can be asked for.
pub open spec fn image_planned(url: String, t: Task) -> bool {
    match address_problem(url@) {
        None => t == (Task::Image { url }),
        Some(e) => t matches Task::Answer(WorkResponse::Image { url: u, bytes: Err(m) }) && u == url
            && m@ == "invalid request URI: "@ + e,
    }
}

fn plan_image(url: String) -> (t: Task)
    ensures
        image_planned(url, t),
{
    match address_error(url.as_str()) {
        None => Task::Image { url },
        Some(m) => Task::Answer(WorkResponse::Image { url, bytes: Err(m) }),
    }
}

/// The first account from `from` on that is none, and what is wrong with it.
pub open spec fn bad_member(members: Seq<String>, from: int) -> Option<Seq<char>>
    decreases members.len() - from,
{
    if from >= members.len() {
        None
    } else {
        match did_problem(members[from]@) {
            Some(e) => Some("member DID "@ + quoted(members[from]@) + ": "@ + e),
            None => bad_member(members, from + 1),
        }
    }
}

/// A conversation is asked for by its members, all of them accounts.
pub open spec fn members_planned(members: Vec<String>, t: Task) -> bool {
    match bad_member(members@, 0) {
        None => t == (Task::Members { members }),
        Some(e) => t matches Task::Answer(WorkResponse::ConvoForMembers(Err(m))) && m@ == e,
    }
}

fn plan_members(members: Vec<String>) -> (t: Task)
    ensures
        members_planned(members, t),
{
    let mut i: usize = 0;
    while i < members.len()
        invariant
            i <= members@.len(),
            bad_member(members@, 0) == bad_member(members@, i as int),
        decreases members@.len() - i,
    {
        if let Err(e) = parse_did(members[i].as_str()) {
            let m = invalid("member DID ", members[i].as_str(), e.as_str());
            return Task::Answer(WorkResponse::ConvoForMembers(Err(m)));
        }
        i += 1;
    }
    Task::Members { members }
}

fn plan_video(data_dir: &str, did: String, cid: String) -> (t: Task)
    ensures
        t matches Task::Video(v) && is_video(v, data_dir@, did, cid),
{
    Task::Video(VideoFetch::new(data_dir, did, cid))
}

/// A video is looked for in its file first.
pub open spec fn is_video(v: VideoFetch, data_dir: Seq<char>, did: String, cid: String) -> bool {
    &&& v.did == did
    &&& v.cid == cid
    &&& v.dir@ == video_dir(data_dir)
    &&& v.path@ == video_path(data_dir, cid@)
}

// ── All requests ───────────────────────────────────────────────────────

/// What a request comes down to, for the account that is logged in, at a time,
/// with a folder for what is kept.
pub open spec fn planned(
    req: WorkRequest,
    session: Option<Seq<char>>,
    at: Seq<char>,
    data_dir: Seq<char>,
    t: Task,
) -> bool {
    match req {
        WorkRequest::FetchProfile { actor } => profile_planned(actor, session, t),
        WorkRequest::FetchFeed { source, cursor } => feed_planned(source, cursor, t),
        WorkRequest::FetchSavedFeeds => t == Task::SavedFeeds,
        WorkRequest::FetchImage { url } => image_planned(url, t),
        WorkRequest::ReadImageFile { path } => t == (Task::File { path }),
        WorkRequest::CreateThread { segments, reply_to } => post_planned(
            segments,
            reply_to,
            session,
            t,
        ),
        WorkRequest::CreateLike { post_uri, post_cid } => mark_planned(
            true,
            mark_record(session, true, post_uri@, post_cid@, at),
            t,
        ),
        WorkRequest::DeleteLike { rkey } => unmark_planned(
            true,
            removal_of(session, mark_collection(true), rkey@),
            t,
        ),
        WorkRequest::CreateRepost { post_uri, post_cid } => mark_planned(
            false,
            mark_record(session, false, post_uri@, post_cid@, at),
            t,
        ),
        WorkRequest::DeleteRepost { rkey } => unmark_planned(
            false,
            removal_of(session, mark_collection(false), rkey@),
            t,
        ),
        WorkRequest::FetchThread { uri } => t == (Task::Thread {
            uri,
            depth: THREAD_DEPTH,
            parent_height: THREAD_HEIGHT,
        }),
        WorkRequest::CreateFollow { actor_did } => follow_planned(
            follow_record(session, actor_did@, at),
            t,
        ),
        WorkRequest::DeleteFollow { rkey } => unfollow_planned(
            removal_of(session, "app.bsky.graph.follow"@, rkey@),
            t,
        ),
        WorkRequest::FetchNotifications { cursor } => t == (Task::Notifications {
            cursor,
            limit: PAGE,
        }),
        WorkRequest::MarkSeen { seen_at } => t == (Task::Seen { seen_at }),
        WorkRequest::SearchActors { q, cursor } => t == (Task::SearchActors {
            q,
            cursor,
            limit: SEARCH_PAGE,
        }),
        WorkRequest::SearchPosts { q, cursor } => t == (Task::SearchPosts {
            q,
            cursor,
            limit: SEARCH_PAGE,
        }),
        WorkRequest::FetchVideoBlob { did, cid } => t matches Task::Video(v) && is_video(
            v,
            data_dir,
            did,
            cid,
        ),
        WorkRequest::FetchActorFeeds { actor, cursor } => items_planned(
            ItemKind::Feeds,
            actor,
            cursor,
            t,
        ),
        WorkRequest::FetchActorLists { actor, cursor } => items_planned(
            ItemKind::Lists,
            actor,
            cursor,
            t,
        ),
        WorkRequest::FetchActorStarterPacks { actor, cursor } => items_planned(
            ItemKind::StarterPacks,
            actor,
            cursor,
            t,
        ),
        WorkRequest::FetchConvos { cursor } => t == (Task::Convos { cursor, limit: PAGE }),
        WorkRequest::GetConvoMessages { convo_id, cursor } => t == (Task::Messages {
            convo_id,
            cursor,
            limit: PAGE,
        }),
        WorkRequest::SendMessage { convo_id, text } => t == (Task::Send { convo_id, text }),
        WorkRequest::MarkConvoRead { convo_id } => t == (Task::Read { convo_id }),
        WorkRequest::GetConvoForMembers { members } => members_planned(members, t),
    }
}

/// What a request comes down to. `session` is the account that is logged in,
/// `at` the time that a record made for it bears.
pub fn handle_request(
    req: WorkRequest,
    session: &Option<String>,
    at: &str,
    data_dir: &str,
) -> (t: Task)
    ensures
        planned(req, opt_view(*session), at@, data_dir@, t),
{
    match req {
        WorkRequest::FetchProfile { actor } => plan_profile(actor, session),
        WorkRequest::FetchFeed { source, cursor } => fetch_feed_page(source, cursor),
        WorkRequest::FetchSavedFeeds => Task::SavedFeeds,
        WorkRequest::FetchImage { url } => plan_image(url),
        WorkRequest::ReadImageFile { path } => Task::File { path },
        WorkRequest::CreateThread { segments, reply_to } => create_thread(
            segments,
            reply_to,
            session,
        ),
        WorkRequest::CreateLike { post_uri, post_cid } => plan_mark(
            true,
            post_uri.as_str(),
            post_cid.as_str(),
            session,
            at,
        ),
        WorkRequest::DeleteLike { rkey } => plan_unmark(true, rkey.as_str(), session),
        WorkRequest::CreateRepost { post_uri, post_cid } => plan_mark(
            false,
            post_uri.as_str(),
            post_cid.as_str(),
            session,
            at,
        ),
        WorkRequest::DeleteRepost { rkey } => plan_unmark(false, rkey.as_str(), session),
        WorkRequest::FetchThread { uri } => Task::Thread {
            uri,
            depth: THREAD_DEPTH,
            parent_height: THREAD_HEIGHT,
        },
        WorkRequest::CreateFollow { actor_did } => plan_follow(actor_did.as_str(), session, at),
        WorkRequest::DeleteFollow { rkey } => plan_unfollow(rkey.as_str(), session),
        WorkRequest::FetchNotifications { cursor } => Task::Notifications { cursor, limit: PAGE },
        WorkRequest::MarkSeen { seen_at } => Task::Seen { seen_at },
        WorkRequest::SearchActors { q, cursor } => Task::SearchActors {
            q,
            cursor,
            limit: SEARCH_PAGE,
        },
        WorkRequest::SearchPosts { q, cursor } => Task::SearchPosts {
            q,
            cursor,
            limit: SEARCH_PAGE,
        },
        WorkRequest::FetchVideoBlob { did, cid } => plan_video(data_dir, did, cid),
        WorkRequest::FetchActorFeeds { actor, cursor } => plan_items(
            ItemKind::Feeds,
            actor,
            cursor,
        ),
        WorkRequest::FetchActorLists { actor, cursor } => plan_items(
            ItemKind::Lists,
            actor,
            cursor,
        ),
        WorkRequest::FetchActorStarterPacks { actor, cursor } => plan_items(
            ItemKind::StarterPacks,
            actor,
            cursor,
        ),
        WorkRequest::FetchConvos { cursor } => Task::Convos { cursor, limit: PAGE },
        WorkRequest::GetConvoMessages { convo_id, cursor } => Task::Messages {
            convo_id,
            cursor,
            limit: PAGE,
        },
        WorkRequest::SendMessage { convo_id, text } => Task::Send { convo_id, text },
        WorkRequest::MarkConvoRead { convo_id } => Task::Read { convo_id },
        WorkRequest::GetConvoForMembers { members } => plan_members(members),
    }
}

/// What a request comes down to when it is dealt with now.
pub fn handle_request_now(
    req: WorkRequest,
    session: &Option<String>,
    data_dir: &str,
) -> (t: Task)
    ensures
        exists|at: Seq<char>|
            #[trigger] planned(req, opt_view(*session), at, data_dir@, t),
{
    let at = time_text();
    let t = handle_request(req, session, at.as_str(), data_dir);
    assert(planned(req, opt_view(*session), at@, data_dir@, t));
    t
}

/// Nothing is told of a reading mark that was set.
pub open spec fn seen_told(r: WorkResponse) -> bool {
    r matches WorkResponse::Notifications(Ok(b)) && b.notifications@.len() == 0
        && b.cursor is None
}

/// The answer to marking notifications as seen. Nothing is told of what became
/// of it.
pub fn seen_answer() -> (r: WorkResponse)
    ensures
        seen_told(r),
{
    WorkResponse::Notifications(Ok(NotificationBatch { notifications: Vec::new(), cursor: None }))
}

// ── The two channels ───────────────────────────────────────────────────

/// The sending end of a crossbeam channel.
#[verifier::external_type_specification]
#[verifier::external_body]
#[verifier::reject_recursive_types(T)]
pub struct ExSender<T>(crossbeam_channel::Sender<T>);

/// The receiving end of a crossbeam channel.
#[verifier::external_type_specification]
#[verifier::external_body]
#[verifier::reject_recursive_types(T)]
pub struct ExReceiver<T>(crossbeam_channel::Receiver<T>);

/// The two ends belong to one channel of requests: what goes into the first
/// comes out of the second.
pub uninterp spec fn requests_joined(tx: Sender<WorkRequest>, rx: Receiver<WorkRequest>) -> bool;

/// The two ends belong to one channel of answers: what goes into the first
/// comes out of the second.
pub uninterp spec fn answers_joined(tx: Sender<WorkResponse>, rx: Receiver<WorkResponse>) -> bool;

/// `crossbeam_channel::unbounded`, for requests and for answers: the two ends
/// that a call hands out belong to one channel. What the channel holds is not
/// claimed, since it changes through either end, on any thread.
#[verifier::external_body]
fn open_channels() -> (r: (
    (Sender<WorkRequest>, Receiver<WorkRequest>),
    (Sender<WorkResponse>, Receiver<WorkResponse>),
))
    ensures
        requests_joined(r.0.0, r.0.1),
        answers_joined(r.1.0, r.1.1),
{
    (crossbeam_channel::unbounded(), crossbeam_channel::unbounded())
}

/// `Sender::send`. Whether the other end is still there is told; what it does
/// with the value is not claimed.
#[verifier::external_body]
fn send_to<T>(tx: &Sender<T>, value: T) -> (sent: bool) {
    tx.send(value).is_ok()
}

/// `Receiver::try_recv`. What is there depends on the other end; an empty and
/// a closed channel are not told apart.
#[verifier::external_body]
fn take_from<T>(rx: &Receiver<T>) -> (r: Option<T>) {
    rx.try_recv().ok()
}

/// The screens' side of the worker.
pub struct Worker {
    tx: Sender<WorkRequest>,
    rx: Receiver<WorkResponse>,
}

impl Worker {
    /// Whoever holds these ends serves this worker: its requests come out of the
    /// one, and the answers it takes go into the other.
    pub closed spec fn served_by(
        &self,
        requests: Receiver<WorkRequest>,
        responses: Sender<WorkResponse>,
    ) -> bool {
        requests_joined(self.tx, requests) && answers_joined(responses, self.rx)
    }

    /// A worker, and the ends that its thread serves.
    pub fn open() -> (r: (Worker, Receiver<WorkRequest>, Sender<WorkResponse>))
        ensures
            r.0.served_by(r.1, r.2),
    {
        let ((tx, requests), (responses, rx)) = open_channels();
        (Worker { tx, rx }, requests, responses)
    }

    /// Queues a request. Where the thread is gone, the request is dropped.
    pub fn send(&self, req: WorkRequest) {
        let _sent = send_to(&self.tx, req);
    }

    /// The next answer, where one is ready.
    pub fn try_recv(&self) -> (r: Option<WorkResponse>) {
        take_from(&self.rx)
    }
}

// ── Laws ───────────────────────────────────────────────────────────────

/// Without an account that is logged in, nothing is written or removed: every
/// such request is answered with an error at once.
pub proof fn lemma_no_session_writes_nothing(
    req: WorkRequest,
    at: Seq<char>,
    data_dir: Seq<char>,
    t: Task,
)
    requires
        planned(req, None, at, data_dir, t),
    ensures
        !(t is Post || t is Like || t is Unlike || t is Repost || t is Unrepost || t is Follow
            || t is Unfollow),
        req is CreateLike || req is DeleteLike || req is CreateRepost || req is DeleteRepost
            || req is CreateFollow || req is DeleteFollow || req is CreateThread
            ==> t is Answer,
{
}

/// A page of a feed is asked for, or refused, under the source that was asked
/// for.
pub proof fn lemma_feed_source_repeated(source: FeedSource, cursor: Option<String>, t: Task)
    requires
        feed_planned(source, cursor, t),
    ensures
        match t {
            Task::Feed { source: s, .. } => s == source,
            Task::Answer(WorkResponse::FeedPage { source: s, batch }) => s == source && batch is Err,
            _ => false,
        },
{
}

/// Pinned posts are asked for with the first page of an account's posts and
/// never again.
pub proof fn lemma_pins_once(source: FeedSource, cursor: Option<String>, t: Task)
    requires
        feed_planned(source, cursor, t),
    ensures
        t matches Task::Feed { call: FeedCall::Author { include_pins, .. }, .. } ==> (include_pins
            <==> source is AuthorPosts && cursor is None),
{
}

} // verus!
