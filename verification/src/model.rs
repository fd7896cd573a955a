//! Accounts, posts and conversations, as far as the screens read them.

use vstd::prelude::*;

use crate::text::{join2, owned};

verus! {

/// An account as it stands beside a post or in a conversation.
#[derive(Debug)]
pub struct Author {
    pub did: String,
    pub handle: String,
    pub display_name: Option<String>,
    pub avatar: Option<String>,
}

impl Clone for Author {
    fn clone(&self) -> (r: Author)
        ensures
            r == *self,
    {
        Author {
            did: self.did.clone(),
            handle: self.handle.clone(),
            display_name: clone_text(&self.display_name),
            avatar: clone_text(&self.avatar),
        }
    }
}

/// A copy of an optional text.
pub(crate) fn clone_text(t: &Option<String>) -> (r: Option<String>)
    ensures
        r == *t,
{
    match t {
        Some(s) => Some(s.clone()),
        None => None,
    }
}

/// The display name, where there is one that is not empty.
pub open spec fn shown_name(display_name: Option<String>) -> Option<Seq<char>> {
    match display_name {
        Some(n) => if n@.len() > 0 {
            Some(n@)
        } else {
            None
        },
        None => None,
    }
}

/// The name an account is shown under: its display name, else its handle.
pub open spec fn name_or_handle(display_name: Option<String>, handle: Seq<char>) -> Seq<char> {
    match shown_name(display_name) {
        Some(n) => n,
        None => handle,
    }
}

/// The name that an account is shown under.
pub fn display_name_or(display_name: &Option<String>, handle: &str) -> (r: String)
    ensures
        r@ == name_or_handle(*display_name, handle@),
{
    match display_name {
        Some(n) => if n.as_str().is_empty() {
            owned(handle)
        } else {
            owned(n.as_str())
        },
        None => owned(handle),
    }
}

/// The display name of an account, or its handle behind an at sign.
pub open spec fn name_or_at_handle(a: Author) -> Seq<char> {
    match shown_name(a.display_name) {
        Some(n) => n,
        None => "@"@ + a.handle@,
    }
}

/// Display name, falling back to `@handle` when it is absent or empty.
pub fn display_or_handle(a: &Author) -> (r: String)
    ensures
        r@ == name_or_at_handle(*a),
{
    match &a.display_name {
        Some(n) => if n.as_str().is_empty() {
            join2("@", a.handle.as_str())
        } else {
            owned(n.as_str())
        },
        None => join2("@", a.handle.as_str()),
    }
}

/// One picture of a post. `natural_h` is its height when it is as wide as the
/// post column; `natural_w` its width at the height that is then shown.
#[derive(Debug)]
pub struct ImageView {
    pub thumb: String,
    pub fullsize: String,
    pub alt: String,
    pub natural_h: i32,
    pub natural_w: i32,
}

/// A link card.
#[derive(Debug)]
pub struct ExternalView {
    pub uri: String,
    pub title: String,
    pub thumb: Option<String>,
}

/// A quoted post, as far as it is shown.
#[derive(Debug)]
pub struct QuotedPost {
    pub uri: String,
    pub author: Author,
    /// The quoted record as JSON text.
    pub record: String,
}

/// What a quote embed points at.
#[derive(Debug)]
pub enum RecordView {
    /// A post that can be shown and opened.
    Post(QuotedPost),
    /// Blocked, gone, detached, or not a post.
    Unavailable,
}

/// Pictures, a video or a link.
#[derive(Debug)]
pub enum MediaView {
    Images(Vec<ImageView>),
    Video { cid: String },
    External(ExternalView),
    /// A kind this client does not know.
    Unknown,
}

/// What is attached to a post.
#[derive(Debug)]
pub enum EmbedView {
    Images(Vec<ImageView>),
    External(ExternalView),
    Video { cid: String },
    Record(RecordView),
    RecordWithMedia { record: RecordView, media: MediaView },
    /// A kind this client does not know.
    Unknown,
}

/// The reader's own marks on a post: the addresses of their like and repost.
#[derive(Debug)]
pub struct PostViewer {
    pub like: Option<String>,
    pub repost: Option<String>,
}

/// One post.
#[derive(Debug)]
pub struct PostView {
    pub uri: String,
    pub cid: String,
    pub author: Author,
    /// The post record as JSON text.
    pub record: String,
    pub embed: Option<EmbedView>,
    pub like_count: Option<i64>,
    pub repost_count: Option<i64>,
    pub reply_count: Option<i64>,
    pub viewer: Option<PostViewer>,
}

/// Why a post stands in a feed.
#[derive(Debug)]
pub enum FeedReason {
    /// Someone reposted it.
    Repost { by: Author },
    /// It is pinned to the profile.
    Pin,
    /// A reason this client does not know.
    Unknown,
}

/// The post that a feed entry replies to.
#[derive(Debug)]
pub enum ReplyParent {
    /// A post that can be seen, by this account.
    Post { author: Author },
    /// Gone, blocked or unknown.
    Unavailable,
}

/// One entry of a feed.
#[derive(Debug)]
pub struct FeedPost {
    pub post: PostView,
    pub reason: Option<FeedReason>,
    pub reply: Option<ReplyParent>,
}

/// The reader's relation to an account: the address of their follow.
#[derive(Debug)]
pub struct ProfileViewer {
    pub following: Option<String>,
}

/// A full profile.
#[derive(Debug)]
pub struct ProfileDetail {
    pub did: String,
    pub handle: String,
    pub display_name: Option<String>,
    pub description: Option<String>,
    pub pronouns: Option<String>,
    pub website: Option<String>,
    pub avatar: Option<String>,
    pub banner: Option<String>,
    pub posts_count: Option<i64>,
    pub followers_count: Option<i64>,
    pub follows_count: Option<i64>,
    /// The verification status word, where the account has one.
    pub verified_status: Option<String>,
    /// The date the account was made, in RFC 3339 form.
    pub created_at: Option<String>,
    /// The handle of whoever made the starter pack the account came through.
    pub joined_via: Option<String>,
    pub viewer: Option<ProfileViewer>,
}

/// A custom feed.
#[derive(Debug)]
pub struct GeneratorView {
    pub uri: String,
    pub display_name: String,
    pub avatar: Option<String>,
    pub creator_handle: String,
    pub like_count: Option<i64>,
}

/// A curated list.
#[derive(Debug)]
pub struct ListView {
    pub uri: String,
    pub name: String,
    pub avatar: Option<String>,
    pub creator_handle: String,
    pub list_item_count: Option<i64>,
}

/// A starter pack.
#[derive(Debug)]
pub struct StarterPackView {
    pub uri: String,
    pub creator_handle: String,
    pub creator_avatar: Option<String>,
    pub list_item_count: Option<i64>,
    pub joined_all_time_count: Option<i64>,
}

/// One notification.
#[derive(Debug)]
pub struct Notification {
    pub uri: String,
    pub author: Author,
    pub reason: String,
    pub reason_subject: Option<String>,
    /// The record that caused it, as JSON text.
    pub record: String,
    pub is_read: bool,
}

/// A message as the server holds it.
#[derive(Debug)]
pub struct MessageView {
    pub id: String,
    pub sender_did: String,
    pub text: String,
}

/// A message that was deleted.
#[derive(Debug)]
pub struct DeletedMessageView {
    pub id: String,
    pub sender_did: String,
}

/// The last message of a conversation.
#[derive(Debug)]
pub enum LastMessage {
    Message(MessageView),
    Deleted(DeletedMessageView),
    /// A kind this client does not know.
    Unknown,
}

/// A conversation.
#[derive(Debug)]
pub struct ConvoView {
    pub id: String,
    pub members: Vec<Author>,
    pub unread_count: i64,
    pub last_message: Option<LastMessage>,
}

/// Two views show the same conversation.
pub open spec fn same_convo(a: ConvoView, b: ConvoView) -> bool {
    &&& a.id == b.id
    &&& a.members@ == b.members@
    &&& a.unread_count == b.unread_count
    &&& a.last_message == b.last_message
}

impl Clone for MessageView {
    fn clone(&self) -> (r: MessageView)
        ensures
            r == *self,
    {
        MessageView {
            id: self.id.clone(),
            sender_did: self.sender_did.clone(),
            text: self.text.clone(),
        }
    }
}

impl Clone for DeletedMessageView {
    fn clone(&self) -> (r: DeletedMessageView)
        ensures
            r == *self,
    {
        DeletedMessageView { id: self.id.clone(), sender_did: self.sender_did.clone() }
    }
}

impl Clone for LastMessage {
    fn clone(&self) -> (r: LastMessage)
        ensures
            r == *self,
    {
        match self {
            LastMessage::Message(m) => LastMessage::Message(m.clone()),
            LastMessage::Deleted(d) => LastMessage::Deleted(d.clone()),
            LastMessage::Unknown => LastMessage::Unknown,
        }
    }
}

impl Clone for ConvoView {
    fn clone(&self) -> (r: ConvoView)
        ensures
            same_convo(r, *self),
    {
        let mut members: Vec<Author> = Vec::new();
        let mut i: usize = 0;
        while i < self.members.len()
            invariant
                i <= self.members@.len(),
                members@ == self.members@.take(i as int),
            decreases self.members@.len() - i,
        {
            members.push(self.members[i].clone());
            i += 1;
            assert(members@ =~= self.members@.take(i as int));
        }
        assert(members@ =~= self.members@);
        let last_message = match &self.last_message {
            Some(m) => Some(m.clone()),
            None => None,
        };
        ConvoView { id: self.id.clone(), members, unread_count: self.unread_count, last_message }
    }
}

} // verus!
