//! How each screen starts out, and what it asks for first.

use vstd::prelude::*;

#[allow(unused_imports)]
use crate::compose::ComposeScreen;
#[allow(unused_imports)]
use crate::conversation::{first_request, ConversationScreen};
#[allow(unused_imports)]
use crate::conversations::ConversationListScreen;
#[allow(unused_imports)]
use crate::embeds::ViewerImage;
#[allow(unused_imports)]
use crate::image_viewer::ImageViewerScreen;
#[allow(unused_imports)]
use crate::login::{work_given, LoginScreen, LoginWork};
#[allow(unused_imports)]
use crate::model::ConvoView;
#[allow(unused_imports)]
use crate::notifications::NotificationsScreen;
#[allow(unused_imports)]
use crate::profile::{profile_request, ProfileScreen};
#[allow(unused_imports)]
use crate::profile_tabs::ProfileTab;
#[allow(unused_imports)]
use crate::requests::{FeedSource, ReplyTarget, WorkRequest};
#[allow(unused_imports)]
use crate::tabbar::TopLevel;
#[allow(unused_imports)]
use crate::thread::{thread_request, ThreadScreen};
#[allow(unused_imports)]
use crate::timeline::{first_requests, TimelineScreen};
#[allow(unused_imports)]
use crate::video_player::{video_request, VideoPlayerScreen};

verus! {

/// The home timeline opens as the first tab, shows no posts and asks for the
/// posts of those that the reader follows, from the beginning, and for the
/// pinned feeds.
pub proof fn lemma_home_opens(r: TimelineScreen)
    requires
        TimelineScreen::opened_home(r),
    ensures
        r.state is Loading,
        first_requests(r, true).len() == 2,
        first_requests(r, true)[0] == (WorkRequest::FetchFeed {
            source: FeedSource::Following,
            cursor: None,
        }),
        first_requests(r, true)[1] is FetchSavedFeeds,
        TimelineScreen::tab_of(r, Some(TopLevel::Home)),
        !TimelineScreen::tab_of(r, None),
        r.tab_bar.active == TopLevel::Home,
        r.saved_feeds@.len() == 0,
        !r.fetching_more,
        r.inflight_avatars@ == Set::<Seq<char>>::empty(),
{
}

/// A feed that is opened on top belongs to no tab, shows no posts and asks for
/// its own posts, from the beginning, and for nothing else.
pub proof fn lemma_feed_opens(uri: String, r: TimelineScreen)
    requires
        TimelineScreen::opened_feed(uri, r),
    ensures
        r.state is Loading,
        first_requests(r, true).len() == 1,
        first_requests(r, true)[0] == (WorkRequest::FetchFeed {
            source: FeedSource::Feed(uri),
            cursor: None,
        }),
        TimelineScreen::tab_of(r, None),
        !TimelineScreen::tab_of(r, Some(TopLevel::Home)),
        r.inflight_avatars@ == Set::<Seq<char>>::empty(),
{
}

/// A thread opens without posts and asks for the post it was opened for.
pub proof fn lemma_thread_opens(uri: String, r: ThreadScreen)
    requires
        ThreadScreen::opened(uri, r),
    ensures
        r.state is Loading,
        thread_request(r, true) == Some(WorkRequest::FetchThread { uri }),
        !r.pending_scroll_to_main,
        r.inflight_avatars@ == Set::<Seq<char>>::empty(),
{
}

/// The notifications open as their own tab and ask for the newest ones; all are
/// marked as seen once.
pub proof fn lemma_notifications_open(r: NotificationsScreen, now: String)
    requires
        NotificationsScreen::opened(r),
    ensures
        r.state is Loading,
        r.selected_idx == 0,
        !r.fetching_more && r.inflight_avatars@ == Set::<Seq<char>>::empty(),
        r.first_requests(true, now).len() == 2,
        r.first_requests(true, now)[0] == (WorkRequest::FetchNotifications { cursor: None }),
        r.first_requests(true, now)[1] == (WorkRequest::MarkSeen { seen_at: now }),
        r.tab_bar.active == TopLevel::Notifications,
        forall|t: Option<TopLevel>|
            #[trigger] NotificationsScreen::tab_of(r, t) <==> t == Some(TopLevel::Notifications),
{
}

/// The conversations open as their own tab and ask for the newest ones.
pub proof fn lemma_conversations_open(own_did: String, r: ConversationListScreen)
    requires
        ConversationListScreen::opened(own_did, r),
    ensures
        r.state is Loading,
        r.selected_idx == 0,
        !r.fetching_more && r.inflight_avatars@ == Set::<Seq<char>>::empty(),
        r.own_did == own_did,
        crate::conversations::first_request(r, true) == Some(
            WorkRequest::FetchConvos { cursor: None },
        ),
        r.tab_bar.active == TopLevel::Messages,
        forall|t: Option<TopLevel>|
            #[trigger] ConversationListScreen::tab_of(r, t) <==> t == Some(TopLevel::Messages),
{
}

/// A conversation opens under the names of its members, without messages and
/// with nothing typed, and asks for its own newest messages. It is a group where
/// more than two take part.
pub proof fn lemma_conversation_opens(
    own_did: String,
    convo: ConvoView,
    now: u64,
    r: ConversationScreen,
)
    requires
        ConversationScreen::opened(own_did, convo, now, r),
    ensures
        r@.phase is InitialLoading,
        r@.members == convo.members@,
        r@.own_did == own_did@,
        r@.is_group <==> convo.members@.len() >= 3,
        r@.inbox.msgs.len() == 0,
        r@.draft.len() == 0,
        !r@.send_inflight && !r@.auth_blocked,
        first_request(r, true) == Some(
            WorkRequest::GetConvoMessages { convo_id: convo.id, cursor: None },
        ),
{
}

/// A profile opens with nothing of it shown and asks for the account it was
/// opened for. Its posts are shown first; no tab was asked for yet, and nothing
/// is about to be done to the account.
pub proof fn lemma_profile_opens(actor: Option<String>, r: ProfileScreen, t: ProfileTab)
    requires
        ProfileScreen::opened(actor, r),
    ensures
        r.state is Pending,
        profile_request(r, true) == Some(WorkRequest::FetchProfile { actor }),
        r.tabs.active == ProfileTab::Posts,
        !r.tabs.was_asked(t) && !r.tabs.is_fetching(t),
        r.resolved_did is None,
        !r.banner.viewing,
        r.logout.armed_at is None,
        !r.contact.messaging && r.contact.pending_open_convo is None && r.contact.dm_error is None,
        r.tab_bar.active == TopLevel::Profile,
        ProfileScreen::tab_of(
            r,
            if actor is None {
                Some(TopLevel::Profile)
            } else {
                None
            },
        ),
{
}

/// A video opens with nothing of it there and asks for just this video.
pub proof fn lemma_video_opens(did: String, cid: String, r: VideoPlayerScreen)
    requires
        VideoPlayerScreen::just_opened(did, cid, r),
    ensures
        r.state is Pending,
        video_request(r, true) == Some(WorkRequest::FetchVideoBlob { did, cid }),
        !r.notice.shown && !r.notice.dont_show,
        r.overlay_idle == 0,
{
}

/// A viewer opens at the picture that was tapped, or at the last one where there
/// are fewer, with all of the pictures at hand.
pub proof fn lemma_viewer_opens(images: Vec<ViewerImage>, index: usize, r: ImageViewerScreen)
    requires
        ImageViewerScreen::opened(images, index, r),
    ensures
        r.images@ == images@,
        index < images@.len() ==> r.index == index,
        0 < images@.len() <= index ==> r.index == images@.len() - 1,
        images@.len() == 0 ==> r.index == 0,
        r.inflight is None && !r.armed,
{
}

/// A draft opens as one empty post, for the reply it was opened for.
pub proof fn lemma_draft_opens(
    reply_to: Option<ReplyTarget>,
    reply_handle: Option<String>,
    r: ComposeScreen,
)
    requires
        ComposeScreen::opened(reply_to, reply_handle, r),
    ensures
        r.reply_to == reply_to,
        r.reply_handle == reply_handle,
        r.draft.segments@.len() == 1,
        r.draft.at().text@.len() == 0,
        r.draft.at().attachments@.len() == 0,
        r.state is Editing,
        !r.done,
        r.picker is None && r.camera is None && r.viewing is None,
        ComposeScreen::releases_due(r, false),
{
}

/// The login screen opens with nothing entered, and looks for a saved session
/// before anything else.
pub proof fn lemma_login_opens(r: LoginScreen, b: LoginScreen, work: LoginWork)
    requires
        LoginScreen::just_opened(r),
        work_given(r, b, work),
    ensures
        work is Resume,
        r.handle.value@.len() == 0 && r.password.value@.len() == 0,
        !r.has_client && !r.has_flow,
        !r.pending.cancel && r.pending.ready is None && r.pending.failed is None,
{
}

/// A saved session of the phone ends the login; without one the other kind of
/// session is looked for, and the screen stays as it is.
pub proof fn lemma_session_looked_up(a: LoginScreen, b: LoginScreen, found: bool, next: bool)
    requires
        LoginScreen::session_looked_up(a, b, found, next),
    ensures
        found ==> b.state is Done && !next,
        !found ==> next && b == a,
        b.handle == a.handle && b.password == a.password && b.mode == a.mode,
{
}

} // verus!
