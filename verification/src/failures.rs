//! The lines that the log gets for answers that carry an error.

use vstd::prelude::*;

use crate::identifiers::quote;
#[allow(unused_imports)]
use crate::identifiers::quoted;
use crate::requests::{FeedSource, WorkResponse};
#[allow(unused_imports)]
use crate::requests::FeedSourceV;
use crate::text::{join3, owned};
#[allow(unused_imports)]
use crate::text::opt_view;

verus! {

/// The error that an answer carries, if any.
pub open spec fn failure_of(resp: WorkResponse) -> Option<Seq<char>> {
    match resp {
        WorkResponse::Profile(Err(e)) => Some(e@),
        WorkResponse::FeedPage { batch: Err(e), .. } => Some(e@),
        WorkResponse::SavedFeeds(Err(e)) => Some(e@),
        WorkResponse::Image { bytes: Err(e), .. } => Some(e@),
        WorkResponse::PostCreated(Err(e)) => Some(e@),
        WorkResponse::LikeChanged(Err(e)) => Some(e@),
        WorkResponse::RepostChanged(Err(e)) => Some(e@),
        WorkResponse::FollowChanged(Err(e)) => Some(e@),
        WorkResponse::Thread(Err(e)) => Some(e@),
        WorkResponse::Notifications(Err(e)) => Some(e@),
        WorkResponse::SearchActors(Err(e)) => Some(e@),
        WorkResponse::SearchPosts(Err(e)) => Some(e@),
        WorkResponse::VideoBlob { result: Err(e), .. } => Some(e@),
        WorkResponse::ActorFeeds { batch: Err(e), .. } => Some(e@),
        WorkResponse::ActorLists { batch: Err(e), .. } => Some(e@),
        WorkResponse::ActorStarterPacks { batch: Err(e), .. } => Some(e@),
        WorkResponse::Convos(Err(e)) => Some(e@),
        WorkResponse::ConvoMessages { batch: Err(e), .. } => Some(e@),
        WorkResponse::MessageSent { result: Err(e), .. } => Some(e@),
        WorkResponse::ConvoForMembers(Err(e)) => Some(e@),
        WorkResponse::ConvoRead(Err(e)) => Some(e@),
        _ => None,
    }
}

/// A feed, as the log names it.
pub open spec fn source_name(source: FeedSourceV) -> Seq<char> {
    match source {
        FeedSourceV::Following => "Following"@,
        FeedSourceV::Feed(uri) => "Feed("@ + quoted(uri) + ")"@,
        FeedSourceV::AuthorPosts(actor) => "AuthorPosts { actor: "@ + quoted(actor) + " }"@,
        FeedSourceV::AuthorReplies(actor) => "AuthorReplies { actor: "@ + quoted(actor) + " }"@,
        FeedSourceV::AuthorMedia(actor) => "AuthorMedia { actor: "@ + quoted(actor) + " }"@,
        FeedSourceV::AuthorLikes(actor) => "AuthorLikes { actor: "@ + quoted(actor) + " }"@,
    }
}

/// A feed, as the log names it.
fn source_text(source: &FeedSource) -> (r: String)
    ensures
        r@ == source_name(source@),
{
    match source {
        FeedSource::Following => owned("Following"),
        FeedSource::Feed(uri) => join3("Feed(", quote(uri.as_str()).as_str(), ")"),
        FeedSource::AuthorPosts { actor } => join3(
            "AuthorPosts { actor: ",
            quote(actor.as_str()).as_str(),
            " }",
        ),
        FeedSource::AuthorReplies { actor } => join3(
            "AuthorReplies { actor: ",
            quote(actor.as_str()).as_str(),
            " }",
        ),
        FeedSource::AuthorMedia { actor } => join3(
            "AuthorMedia { actor: ",
            quote(actor.as_str()).as_str(),
            " }",
        ),
        FeedSource::AuthorLikes { actor } => join3(
            "AuthorLikes { actor: ",
            quote(actor.as_str()).as_str(),
            " }",
        ),
    }
}

/// What an answer is, as the log names it: its kind and, where there are
/// several of a kind, what it is an answer for.
pub open spec fn answer_name(resp: WorkResponse) -> Seq<char> {
    match resp {
        WorkResponse::Profile(_) => "Profile"@,
        WorkResponse::FeedPage { source, .. } => "FeedPage("@ + source_name(source@) + ")"@,
        WorkResponse::SavedFeeds(_) => "SavedFeeds"@,
        WorkResponse::Image { url, .. } => "Image("@ + url@ + ")"@,
        WorkResponse::PostCreated(_) => "PostCreated"@,
        WorkResponse::LikeChanged(_) => "LikeChanged"@,
        WorkResponse::RepostChanged(_) => "RepostChanged"@,
        WorkResponse::FollowChanged(_) => "FollowChanged"@,
        WorkResponse::Thread(_) => "Thread"@,
        WorkResponse::Notifications(_) => "Notifications"@,
        WorkResponse::SearchActors(_) => "SearchActors"@,
        WorkResponse::SearchPosts(_) => "SearchPosts"@,
        WorkResponse::VideoBlob { cid, .. } => "VideoBlob("@ + cid@ + ")"@,
        WorkResponse::ActorFeeds { actor, .. } => "ActorFeeds("@ + actor@ + ")"@,
        WorkResponse::ActorLists { actor, .. } => "ActorLists("@ + actor@ + ")"@,
        WorkResponse::ActorStarterPacks { actor, .. } => "ActorStarterPacks("@ + actor@ + ")"@,
        WorkResponse::Convos(_) => "Convos"@,
        WorkResponse::ConvoMessages { convo_id, .. } => "ConvoMessages("@ + convo_id@ + ")"@,
        WorkResponse::MessageSent { convo_id, .. } => "MessageSent("@ + convo_id@ + ")"@,
        WorkResponse::ConvoForMembers(_) => "ConvoForMembers"@,
        WorkResponse::ConvoRead(_) => "ConvoRead"@,
    }
}

/// What an answer is, as the log names it.
fn answer_text(resp: &WorkResponse) -> (r: String)
    ensures
        r@ == answer_name(*resp),
{
    match resp {
        WorkResponse::Profile(_) => owned("Profile"),
        WorkResponse::FeedPage { source, .. } => join3(
            "FeedPage(",
            source_text(source).as_str(),
            ")",
        ),
        WorkResponse::SavedFeeds(_) => owned("SavedFeeds"),
        WorkResponse::Image { url, .. } => join3("Image(", url.as_str(), ")"),
        WorkResponse::PostCreated(_) => owned("PostCreated"),
        WorkResponse::LikeChanged(_) => owned("LikeChanged"),
        WorkResponse::RepostChanged(_) => owned("RepostChanged"),
        WorkResponse::FollowChanged(_) => owned("FollowChanged"),
        WorkResponse::Thread(_) => owned("Thread"),
        WorkResponse::Notifications(_) => owned("Notifications"),
        WorkResponse::SearchActors(_) => owned("SearchActors"),
        WorkResponse::SearchPosts(_) => owned("SearchPosts"),
        WorkResponse::VideoBlob { cid, .. } => join3("VideoBlob(", cid.as_str(), ")"),
        WorkResponse::ActorFeeds { actor, .. } => join3("ActorFeeds(", actor.as_str(), ")"),
        WorkResponse::ActorLists { actor, .. } => join3("ActorLists(", actor.as_str(), ")"),
        WorkResponse::ActorStarterPacks { actor, .. } => join3(
            "ActorStarterPacks(",
            actor.as_str(),
            ")",
        ),
        WorkResponse::Convos(_) => owned("Convos"),
        WorkResponse::ConvoMessages { convo_id, .. } => join3(
            "ConvoMessages(",
            convo_id.as_str(),
            ")",
        ),
        WorkResponse::MessageSent { convo_id, .. } => join3(
            "MessageSent(",
            convo_id.as_str(),
            ")",
        ),
        WorkResponse::ConvoForMembers(_) => owned("ConvoForMembers"),
        WorkResponse::ConvoRead(_) => owned("ConvoRead"),
    }
}

/// The error that an answer carries, if any.
fn failure_text(resp: &WorkResponse) -> (r: Option<&String>)
    ensures
        match failure_of(*resp) {
            Some(e) => r matches Some(s) && s@ == e,
            None => r is None,
        },
{
    match resp {
        WorkResponse::Profile(Err(e)) => Some(e),
        WorkResponse::FeedPage { batch: Err(e), .. } => Some(e),
        WorkResponse::SavedFeeds(Err(e)) => Some(e),
        WorkResponse::Image { bytes: Err(e), .. } => Some(e),
        WorkResponse::PostCreated(Err(e)) => Some(e),
        WorkResponse::LikeChanged(Err(e)) => Some(e),
        WorkResponse::RepostChanged(Err(e)) => Some(e),
        WorkResponse::FollowChanged(Err(e)) => Some(e),
        WorkResponse::Thread(Err(e)) => Some(e),
        WorkResponse::Notifications(Err(e)) => Some(e),
        WorkResponse::SearchActors(Err(e)) => Some(e),
        WorkResponse::SearchPosts(Err(e)) => Some(e),
        WorkResponse::VideoBlob { result: Err(e), .. } => Some(e),
        WorkResponse::ActorFeeds { batch: Err(e), .. } => Some(e),
        WorkResponse::ActorLists { batch: Err(e), .. } => Some(e),
        WorkResponse::ActorStarterPacks { batch: Err(e), .. } => Some(e),
        WorkResponse::Convos(Err(e)) => Some(e),
        WorkResponse::ConvoMessages { batch: Err(e), .. } => Some(e),
        WorkResponse::MessageSent { result: Err(e), .. } => Some(e),
        WorkResponse::ConvoForMembers(Err(e)) => Some(e),
        WorkResponse::ConvoRead(Err(e)) => Some(e),
        _ => None,
    }
}

/// The line that the log gets for an answer.
pub open spec fn line_of(resp: WorkResponse) -> Option<Seq<char>> {
    match failure_of(resp) {
        Some(e) => Some("worker: "@ + answer_name(resp) + " err: "@ + e),
        None => None,
    }
}

/// The line that the log gets for an answer: none for one without an error.
pub fn failure_line(resp: &WorkResponse) -> (r: Option<String>)
    ensures
        opt_view(r) == line_of(*resp),
{
    match failure_text(resp) {
        Some(e) => {
            let mut line = join3("worker: ", answer_text(resp).as_str(), " err: ");
            line.append(e.as_str());
            Some(line)
        },
        None => None,
    }
}

/// Every answer that carries an error gets a line, which ends in the error and
/// names what failed; no other answer gets one.
pub proof fn lemma_every_failure_is_logged(resp: WorkResponse, e: String)
    ensures
        resp == WorkResponse::Profile(Err(e)) ==> line_of(resp) == Some(
            "worker: "@ + "Profile"@ + " err: "@ + e@,
        ),
        resp == WorkResponse::PostCreated(Err(e)) ==> line_of(resp) == Some(
            "worker: "@ + "PostCreated"@ + " err: "@ + e@,
        ),
        resp == WorkResponse::LikeChanged(Err(e)) ==> line_of(resp) == Some(
            "worker: "@ + "LikeChanged"@ + " err: "@ + e@,
        ),
        resp == WorkResponse::RepostChanged(Err(e)) ==> line_of(resp) == Some(
            "worker: "@ + "RepostChanged"@ + " err: "@ + e@,
        ),
        resp == WorkResponse::FollowChanged(Err(e)) ==> line_of(resp) == Some(
            "worker: "@ + "FollowChanged"@ + " err: "@ + e@,
        ),
        resp == WorkResponse::Thread(Err(e)) ==> line_of(resp) == Some(
            "worker: "@ + "Thread"@ + " err: "@ + e@,
        ),
        resp == WorkResponse::Notifications(Err(e)) ==> line_of(resp) == Some(
            "worker: "@ + "Notifications"@ + " err: "@ + e@,
        ),
        resp == WorkResponse::SavedFeeds(Err(e)) ==> line_of(resp) == Some(
            "worker: "@ + "SavedFeeds"@ + " err: "@ + e@,
        ),
        resp == WorkResponse::Convos(Err(e)) ==> line_of(resp) == Some(
            "worker: "@ + "Convos"@ + " err: "@ + e@,
        ),
        resp == WorkResponse::ConvoForMembers(Err(e)) ==> line_of(resp) == Some(
            "worker: "@ + "ConvoForMembers"@ + " err: "@ + e@,
        ),
        resp == WorkResponse::ConvoRead(Err(e)) ==> line_of(resp) == Some(
            "worker: "@ + "ConvoRead"@ + " err: "@ + e@,
        ),
        resp == WorkResponse::SearchActors(Err(e)) ==> line_of(resp) == Some(
            "worker: "@ + "SearchActors"@ + " err: "@ + e@,
        ),
        resp == WorkResponse::SearchPosts(Err(e)) ==> line_of(resp) == Some(
            "worker: "@ + "SearchPosts"@ + " err: "@ + e@,
        ),
        resp matches WorkResponse::FeedPage { batch, source } ==> (batch matches Err(m)
            ==> line_of(resp) == Some(
            "worker: "@ + ("FeedPage("@ + source_name(source@) + ")"@) + " err: "@ + m@,
        )) && (batch is Ok ==> line_of(resp) is None),
        resp matches WorkResponse::Image { url, bytes } ==> (bytes matches Err(m) ==> line_of(resp)
            == Some("worker: "@ + ("Image("@ + url@ + ")"@) + " err: "@ + m@)) && (bytes is Ok
            ==> line_of(resp) is None),
        resp matches WorkResponse::VideoBlob { cid, result } ==> (result matches Err(m)
            ==> line_of(resp) == Some(
            "worker: "@ + ("VideoBlob("@ + cid@ + ")"@) + " err: "@ + m@,
        )) && (result is Ok ==> line_of(resp) is None),
        resp matches WorkResponse::ConvoMessages { convo_id, batch } ==> (batch matches Err(m)
            ==> line_of(resp) == Some(
            "worker: "@ + ("ConvoMessages("@ + convo_id@ + ")"@) + " err: "@ + m@,
        )) && (batch is Ok ==> line_of(resp) is None),
        resp matches WorkResponse::MessageSent { convo_id, result } ==> (result matches Err(m)
            ==> line_of(resp) == Some(
            "worker: "@ + ("MessageSent("@ + convo_id@ + ")"@) + " err: "@ + m@,
        )) && (result is Ok ==> line_of(resp) is None),
        resp matches WorkResponse::ActorFeeds { actor, batch } ==> (batch matches Err(m)
            ==> line_of(resp) == Some(
            "worker: "@ + ("ActorFeeds("@ + actor@ + ")"@) + " err: "@ + m@,
        )) && (batch is Ok ==> line_of(resp) is None),
        resp matches WorkResponse::ActorLists { actor, batch } ==> (batch matches Err(m)
            ==> line_of(resp) == Some(
            "worker: "@ + ("ActorLists("@ + actor@ + ")"@) + " err: "@ + m@,
        )) && (batch is Ok ==> line_of(resp) is None),
        resp matches WorkResponse::ActorStarterPacks { actor, batch } ==> (batch matches Err(m)
            ==> line_of(resp) == Some(
            "worker: "@ + ("ActorStarterPacks("@ + actor@ + ")"@) + " err: "@ + m@,
        )) && (batch is Ok ==> line_of(resp) is None),
        resp matches WorkResponse::Profile(r) ==> r is Ok ==> line_of(resp) is None,
        resp matches WorkResponse::PostCreated(r) ==> r is Ok ==> line_of(resp) is None,
        resp matches WorkResponse::LikeChanged(r) ==> r is Ok ==> line_of(resp) is None,
        resp matches WorkResponse::Thread(r) ==> r is Ok ==> line_of(resp) is None,
{
}

/// A feed is named for what it is, with whose it is.
pub proof fn lemma_feeds_told_apart(u: Seq<char>)
    ensures
        source_name(FeedSourceV::Following) == "Following"@,
        source_name(FeedSourceV::Feed(u)) == "Feed("@ + quoted(u) + ")"@,
        source_name(FeedSourceV::AuthorPosts(u)) == "AuthorPosts { actor: "@ + quoted(u) + " }"@,
        source_name(FeedSourceV::AuthorReplies(u)) == "AuthorReplies { actor: "@ + quoted(u)
            + " }"@,
        source_name(FeedSourceV::AuthorMedia(u)) == "AuthorMedia { actor: "@ + quoted(u) + " }"@,
        source_name(FeedSourceV::AuthorLikes(u)) == "AuthorLikes { actor: "@ + quoted(u) + " }"@,
{
}

} // verus!
