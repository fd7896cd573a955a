//! What can be asked of the worker, and what it answers.

use vstd::prelude::*;

use crate::model::{
    Author, ConvoView, DeletedMessageView, FeedPost, GeneratorView, ListView, MessageView,
    Notification, PostView, ProfileDetail, StarterPackView,
};
use crate::text::same_text;

verus! {

/// Which feed a request is for.
#[derive(Debug)]
pub enum FeedSource {
    /// The reader's home timeline.
    Following,
    /// A custom feed, by its address.
    Feed(String),
    /// What an account posted, its pinned post first.
    AuthorPosts { actor: String },
    /// What an account posted, replies among it.
    AuthorReplies { actor: String },
    /// What an account posted with pictures or video.
    AuthorMedia { actor: String },
    /// What an account liked.
    AuthorLikes { actor: String },
}

/// A feed source, by its characters.
pub enum FeedSourceV {
    Following,
    Feed(Seq<char>),
    AuthorPosts(Seq<char>),
    AuthorReplies(Seq<char>),
    AuthorMedia(Seq<char>),
    AuthorLikes(Seq<char>),
}

impl View for FeedSource {
    type V = FeedSourceV;

    open spec fn view(&self) -> FeedSourceV {
        match *self {
            FeedSource::Following => FeedSourceV::Following,
            FeedSource::Feed(u) => FeedSourceV::Feed(u@),
            FeedSource::AuthorPosts { actor } => FeedSourceV::AuthorPosts(actor@),
            FeedSource::AuthorReplies { actor } => FeedSourceV::AuthorReplies(actor@),
            FeedSource::AuthorMedia { actor } => FeedSourceV::AuthorMedia(actor@),
            FeedSource::AuthorLikes { actor } => FeedSourceV::AuthorLikes(actor@),
        }
    }
}

impl Clone for FeedSource {
    fn clone(&self) -> (r: FeedSource)
        ensures
            r == *self,
    {
        match self {
            FeedSource::Following => FeedSource::Following,
            FeedSource::Feed(u) => FeedSource::Feed(u.clone()),
            FeedSource::AuthorPosts { actor } => FeedSource::AuthorPosts { actor: actor.clone() },
            FeedSource::AuthorReplies { actor } => FeedSource::AuthorReplies {
                actor: actor.clone(),
            },
            FeedSource::AuthorMedia { actor } => FeedSource::AuthorMedia { actor: actor.clone() },
            FeedSource::AuthorLikes { actor } => FeedSource::AuthorLikes { actor: actor.clone() },
        }
    }
}

impl FeedSource {
    /// Whether two sources are the same feed.
    pub fn same(&self, other: &FeedSource) -> (r: bool)
        ensures
            r == (self@ == other@),
    {
        match (self, other) {
            (FeedSource::Following, FeedSource::Following) => true,
            (FeedSource::Feed(a), FeedSource::Feed(b)) => same_text(a.as_str(), b.as_str()),
            (
                FeedSource::AuthorPosts { actor: a },
                FeedSource::AuthorPosts { actor: b },
            ) => same_text(a.as_str(), b.as_str()),
            (
                FeedSource::AuthorReplies { actor: a },
                FeedSource::AuthorReplies { actor: b },
            ) => same_text(a.as_str(), b.as_str()),
            (
                FeedSource::AuthorMedia { actor: a },
                FeedSource::AuthorMedia { actor: b },
            ) => same_text(a.as_str(), b.as_str()),
            (
                FeedSource::AuthorLikes { actor: a },
                FeedSource::AuthorLikes { actor: b },
            ) => same_text(a.as_str(), b.as_str()),
            _ => false,
        }
    }
}

/// The post that a reply hangs below, and the root of its thread.
#[derive(Debug)]
pub struct ReplyTarget {
    pub parent_uri: String,
    pub parent_cid: String,
    pub root_uri: String,
    pub root_cid: String,
}

impl Clone for ReplyTarget {
    fn clone(&self) -> (r: ReplyTarget)
        ensures
            r == *self,
    {
        ReplyTarget {
            parent_uri: self.parent_uri.clone(),
            parent_cid: self.parent_cid.clone(),
            root_uri: self.root_uri.clone(),
            root_cid: self.root_cid.clone(),
        }
    }
}

/// A picture to attach: its encoded bytes, their type, and a description.
#[derive(Debug)]
pub struct ComposedImage {
    pub bytes: Vec<u8>,
    pub mime: String,
    pub alt: String,
}

/// One post of a thread: its text and its pictures.
#[derive(Debug)]
pub struct ThreadSegment {
    pub text: String,
    pub images: Vec<ComposedImage>,
}

/// What the worker can be asked to do.
#[allow(inconsistent_fields)]
#[derive(Debug)]
pub enum WorkRequest {
    /// A profile; the reader's own where `actor` is absent.
    FetchProfile { actor: Option<String> },
    /// A page of a feed; the first one where `cursor` is absent.
    FetchFeed { source: FeedSource, cursor: Option<String> },
    /// The reader's pinned feeds.
    FetchSavedFeeds,
    /// A picture from the network.
    FetchImage { url: String },
    /// A picture from the local storage.
    ReadImageFile { path: String },
    /// A post, or a chain of posts each replying to the one before.
    CreateThread { segments: Vec<ThreadSegment>, reply_to: Option<ReplyTarget> },
    CreateLike { post_uri: String, post_cid: String },
    DeleteLike { rkey: String },
    CreateRepost { post_uri: String, post_cid: String },
    DeleteRepost { rkey: String },
    /// The thread around a post.
    FetchThread { uri: String },
    CreateFollow { actor_did: String },
    DeleteFollow { rkey: String },
    /// A page of notifications.
    FetchNotifications { cursor: Option<String> },
    /// Everything up to this time (RFC 3339) has been seen.
    MarkSeen { seen_at: String },
    SearchActors { q: String, cursor: Option<String> },
    SearchPosts { q: String, cursor: Option<String> },
    /// A video, to be kept as a local file.
    FetchVideoBlob { did: String, cid: String },
    FetchActorFeeds { actor: String, cursor: Option<String> },
    FetchActorLists { actor: String, cursor: Option<String> },
    FetchActorStarterPacks { actor: String, cursor: Option<String> },
    /// A page of conversations, the latest activity first.
    FetchConvos { cursor: Option<String> },
    /// A page of messages; the newest one where `cursor` is absent.
    GetConvoMessages { convo_id: String, cursor: Option<String> },
    SendMessage { convo_id: String, text: String },
    MarkConvoRead { convo_id: String },
    /// The conversation with these accounts.
    GetConvoForMembers { members: Vec<String> },
}

/// A page of a feed. No cursor means that it was the last one.
#[derive(Debug)]
pub struct TimelineBatch {
    pub posts: Vec<FeedPost>,
    pub cursor: Option<String>,
}

/// A pinned feed with what is needed to show it.
#[derive(Debug)]
pub struct SavedFeedPin {
    pub source: FeedSource,
    pub display_name: String,
    pub avatar_url: Option<String>,
}

/// The pinned feeds in display order. The home timeline always comes first.
#[derive(Debug)]
pub struct SavedFeedsBatch {
    pub pins: Vec<SavedFeedPin>,
}

/// A page of notifications.
#[derive(Debug)]
pub struct NotificationBatch {
    pub notifications: Vec<Notification>,
    pub cursor: Option<String>,
}

/// A page of accounts found.
#[derive(Debug)]
pub struct ActorsBatch {
    pub actors: Vec<Author>,
    pub cursor: Option<String>,
}

/// A page of posts found.
#[derive(Debug)]
pub struct PostsBatch {
    pub posts: Vec<PostView>,
    pub cursor: Option<String>,
}

/// A page of an account's custom feeds.
#[derive(Debug)]
pub struct ActorFeedsBatch {
    pub feeds: Vec<GeneratorView>,
    pub cursor: Option<String>,
}

/// A page of an account's lists.
#[derive(Debug)]
pub struct ActorListsBatch {
    pub lists: Vec<ListView>,
    pub cursor: Option<String>,
}

/// A page of an account's starter packs.
#[derive(Debug)]
pub struct ActorStarterPacksBatch {
    pub starter_packs: Vec<StarterPackView>,
    pub cursor: Option<String>,
}

/// A thread: the posts above, from the root down; the post itself; the
/// replies to it.
#[derive(Debug)]
pub struct ThreadBatch {
    pub parents: Vec<PostView>,
    pub main: PostView,
    pub replies: Vec<PostView>,
}

/// A page of conversations.
#[derive(Debug)]
pub struct ConvosBatch {
    pub convos: Vec<ConvoView>,
    pub cursor: Option<String>,
}

/// A message, or what is left of a deleted one.
#[derive(Debug)]
pub enum MessageItem {
    Message(MessageView),
    Deleted(DeletedMessageView),
}

/// A page of messages, the oldest first. The cursor leads to older ones.
#[derive(Debug)]
pub struct MessagesBatch {
    pub messages: Vec<MessageItem>,
    pub cursor: Option<String>,
}

/// What became of a request.
#[allow(inconsistent_fields)]
#[derive(Debug)]
pub enum WorkResponse {
    Profile(Result<Box<ProfileDetail>, String>),
    FeedPage { source: FeedSource, batch: Result<TimelineBatch, String> },
    SavedFeeds(Result<SavedFeedsBatch, String>),
    Image { url: String, bytes: Result<Vec<u8>, String> },
    PostCreated(Result<String, String>),
    /// The new like's address; nothing where one was taken back.
    LikeChanged(Result<Option<String>, String>),
    RepostChanged(Result<Option<String>, String>),
    FollowChanged(Result<Option<String>, String>),
    Thread(Result<ThreadBatch, String>),
    Notifications(Result<NotificationBatch, String>),
    SearchActors(Result<ActorsBatch, String>),
    SearchPosts(Result<PostsBatch, String>),
    /// The path of the local file.
    VideoBlob { cid: String, result: Result<String, String> },
    ActorFeeds { actor: String, batch: Result<ActorFeedsBatch, String> },
    ActorLists { actor: String, batch: Result<ActorListsBatch, String> },
    ActorStarterPacks { actor: String, batch: Result<ActorStarterPacksBatch, String> },
    Convos(Result<ConvosBatch, String>),
    ConvoMessages { convo_id: String, batch: Result<MessagesBatch, String> },
    MessageSent { convo_id: String, result: Result<MessageView, String> },
    ConvoForMembers(Result<ConvoView, String>),
    ConvoRead(Result<(), String>),
}

/// The requests that are sent where there may be one.
pub open spec fn sent(r: Option<WorkRequest>) -> Seq<WorkRequest> {
    match r {
        Some(q) => seq![q],
        None => Seq::empty(),
    }
}

/// Puts a request behind the others, where there is one.
pub fn push_sent(reqs: &mut Vec<WorkRequest>, r: Option<WorkRequest>)
    ensures
        final(reqs)@ == old(reqs)@ + sent(r),
{
    match r {
        Some(q) => {
            reqs.push(q);
            assert(reqs@ =~= old(reqs)@ + sent(r));
        },
        None => {
            assert(reqs@ =~= old(reqs)@ + sent(r));
        },
    }
}

} // verus!
