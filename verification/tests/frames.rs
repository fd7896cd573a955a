use bsky_vita::compose::ComposeScreen;
use bsky_vita::compose_frame::ComposePart;
use bsky_vita::conversation::{ConversationScreen, ImeEvent, POLL_INTERVAL_NS};
use bsky_vita::conversations::ConversationListScreen;
use bsky_vita::dir_listing::DirEntry;
use bsky_vita::file_picker::{FilePicker, PickResult};
use bsky_vita::login::{FlowStart, LoginScreen, LoginState, LoginWork};
use bsky_vita::model::{
    Author, ConvoView, FeedPost, Notification, PostView, ProfileDetail,
};
use bsky_vita::notifications::NotificationsScreen;
use bsky_vita::post_row::TextHeights;
use bsky_vita::profile::{ProfileScreen, LOGOUT_ARMED_NS};
use bsky_vita::requests::{
    ConvosBatch, FeedSource, MessagesBatch, NotificationBatch, ThreadBatch, TimelineBatch,
    WorkRequest, WorkResponse,
};
use bsky_vita::screen::{NextScreen, ScreenAction};
use bsky_vita::tabbar::TopLevel;
use bsky_vita::thread::ThreadScreen;
use bsky_vita::timeline::TimelineScreen;
use bsky_vita::video_player::VideoPlayerScreen;
use bsky_vita::widget::{PadFrame, TouchPoint};

const AT: &str = "2024-03-01T12:00:00.000Z";

fn touch(x: i32, y: i32) -> Vec<TouchPoint> {
    vec![TouchPoint { x, y }]
}

fn press(f: impl Fn(&mut PadFrame)) -> PadFrame {
    let mut pad = PadFrame::default();
    f(&mut pad);
    pad
}

fn author(handle: &str) -> Author {
    Author {
        did: format!("did:plc:{handle}"),
        handle: handle.to_string(),
        display_name: None,
        avatar: None,
    }
}

fn view(id: &str) -> PostView {
    PostView {
        uri: format!("at://p/{id}"),
        cid: format!("cid-{id}"),
        author: author("alice"),
        record: "{}".to_string(),
        embed: None,
        like_count: Some(3),
        repost_count: None,
        reply_count: None,
        viewer: None,
    }
}

fn convo(members: &[&str]) -> ConvoView {
    ConvoView {
        id: "c1".to_string(),
        members: members.iter().map(|m| author(m)).collect(),
        unread_count: 0,
        last_message: None,
    }
}

fn page(ids: &[&str], cursor: Option<&str>) -> TimelineBatch {
    TimelineBatch {
        posts: ids
            .iter()
            .map(|i| FeedPost { post: view(i), reason: None, reply: None })
            .collect(),
        cursor: cursor.map(|c| c.to_string()),
    }
}

fn timeline(source: FeedSource, ids: &[&str], cursor: Option<&str>) -> TimelineScreen {
    let mut s = match &source {
        FeedSource::Feed(uri) => TimelineScreen::with_feed(uri.clone()),
        _ => TimelineScreen::new(),
    };
    assert!(!s.frame_start(&PadFrame::default(), 0, true).requests.is_empty());
    s.handle_worker_response(WorkResponse::FeedPage { source, batch: Ok(page(ids, cursor)) });
    for _ in ids {
        s.add_row(TextHeights { body_h: 60, quote_h: 0 });
    }
    s
}

fn detail() -> ProfileDetail {
    ProfileDetail {
        did: "did:plc:bob".to_string(),
        handle: "bob.test".to_string(),
        display_name: None,
        description: None,
        pronouns: None,
        website: None,
        avatar: None,
        banner: Some("https://cdn.bsky.app/img/banner/plain/did:plc:b/x".to_string()),
        posts_count: None,
        followers_count: None,
        follows_count: None,
        verified_status: None,
        created_at: None,
        joined_via: None,
        viewer: None,
    }
}

fn profile(actor: Option<&str>) -> ProfileScreen {
    let mut s = ProfileScreen::new(actor.map(|a| a.to_string()));
    let start = s.frame_start(&PadFrame::default(), &vec![], 0, false, false, true);
    assert!(matches!(&start.requests[0], WorkRequest::FetchProfile { .. }));
    assert!(start.goes_on);
    s.handle_worker_response(WorkResponse::Profile(Ok(Box::new(detail()))));
    s
}

#[test]
fn a_frame_of_the_timeline_starts_with_its_requests() {
    let mut s = TimelineScreen::new();
    let out = s.frame_start(&press(|p| p.square = true), 0, true);
    assert_eq!(out.requests.len(), 2);
    assert!(!out.moved);
    // The buttons count even before the first page is there.
    assert!(matches!(
        out.action,
        ScreenAction::Push(NextScreen::Compose { reply: None, handle: None })
    ));
    assert!(s.frame_start(&PadFrame::default(), 0, true).requests.is_empty());
}

#[test]
fn the_timeline_likes_what_was_just_selected() {
    let mut s = timeline(FeedSource::Following, &["1", "2"], None);
    let pad = press(|p| {
        p.down = true;
        p.l1 = true;
    });
    let out = s.frame_start(&pad, 0, true);
    assert!(out.moved);
    assert_eq!(out.requests.len(), 1);
    assert!(matches!(
        &out.requests[0],
        WorkRequest::CreateLike { post_cid, .. } if post_cid == "cid-2"
    ));
}

#[test]
fn the_timeline_asks_for_the_next_page_and_then_for_pictures() {
    let mut s = timeline(FeedSource::Following, &["1"], Some("n"));
    let urls = vec!["https://x/1".to_string()];
    let r = s.frame_requests(0, urls.clone(), &vec![false], true);
    assert_eq!(r.len(), 2);
    assert!(matches!(&r[0], WorkRequest::FetchFeed { cursor: Some(c), .. } if c == "n"));
    assert!(matches!(&r[1], WorkRequest::FetchImage { url } if url == "https://x/1"));
    assert!(s.frame_requests(0, urls.clone(), &vec![false], true).is_empty());
    assert!(s.frame_requests(0, urls, &vec![false], false).is_empty());
}

#[test]
fn leaving_the_timeline_goes_before_a_tap() {
    let mut s = timeline(FeedSource::Feed("at://f/1".to_string()), &["1"], None);
    let on_post = touch(100, 90 + 40);
    let out = s.frame_end(&vec![], &press(|p| p.circle = true), &on_post, 0, true);
    assert!(matches!(out.action, ScreenAction::Pop));
    assert!(out.pills.is_empty());
    let out = s.frame_end(&vec![], &PadFrame::default(), &on_post, 0, true);
    assert!(matches!(out.action, ScreenAction::Push(_)));
}

#[test]
fn the_timeline_follows_the_bar_at_the_bottom() {
    let mut s = timeline(FeedSource::Following, &["1"], None);
    let n = s.saved_feeds.len();
    let widths = vec![40; n];
    let pad = press(|p| p.circle = true);
    let out = s.frame_end(&widths, &pad, &touch(500, 520), 0, true);
    assert!(matches!(out.action, ScreenAction::Stay));
    let out = s.frame_end(&widths, &pad, &vec![], 0, true);
    assert!(matches!(out.action, ScreenAction::SwitchTab(TopLevel::Notifications)));
    assert!(!out.switched);
}

#[test]
fn a_thread_is_asked_for_even_as_it_is_left() {
    let mut s = ThreadScreen::new("at://t".to_string());
    let out = s.frame_start(&press(|p| p.circle = true), true);
    assert!(matches!(&out.requests[0], WorkRequest::FetchThread { uri } if uri == "at://t"));
    assert!(matches!(out.action, ScreenAction::Pop));
}

#[test]
fn a_tap_in_a_thread_opens_the_post() {
    let mut s = ThreadScreen::new("at://t".to_string());
    s.frame_start(&PadFrame::default(), true);
    s.handle_worker_response(WorkResponse::Thread(Ok(ThreadBatch {
        parents: vec![],
        main: view("me"),
        replies: vec![view("r1")],
    })));
    s.add_row(TextHeights { body_h: 60, quote_h: 0 });
    s.add_row(TextHeights { body_h: 60, quote_h: 0 });
    let out = s.frame_end(&touch(100, 90), 0, vec![], &vec![], true);
    assert!(matches!(
        out.action,
        ScreenAction::Push(NextScreen::Thread { uri }) if uri == "at://p/me"
    ));
    let out = s.frame_end(&vec![], 0, vec!["https://x/1".to_string()], &vec![false], true);
    assert_eq!(out.requests.len(), 1);
    assert!(matches!(out.action, ScreenAction::Stay));
}

#[test]
fn frames_of_the_notifications() {
    let mut s = NotificationsScreen::new();
    let out = s.frame_start(&PadFrame::default(), 0, true, AT.to_string());
    assert_eq!(out.requests.len(), 2);
    s.handle_worker_response(WorkResponse::Notifications(Ok(NotificationBatch {
        notifications: vec![Notification {
            uri: "at://n/1".to_string(),
            author: author("bob"),
            reason: "reply".to_string(),
            reason_subject: None,
            record: "{}".to_string(),
            is_read: true,
        }],
        cursor: Some("n".to_string()),
    })));
    let out = s.frame_start(&PadFrame::default(), 0, true, AT.to_string());
    assert!(out.requests.is_empty());
    let r = s.frame_requests(0, vec![], &vec![], true);
    assert!(matches!(&r[0], WorkRequest::FetchNotifications { cursor: Some(c) } if c == "n"));
    assert!(matches!(
        s.frame_end(&touch(400, 60), 0),
        ScreenAction::Push(NextScreen::Thread { uri }) if uri == "at://n/1"
    ));
    assert!(matches!(s.frame_end(&vec![], 0), ScreenAction::Stay));
    assert!(matches!(s.frame_end(&touch(20, 520), 0), ScreenAction::Stay));
    assert!(matches!(s.frame_end(&vec![], 0), ScreenAction::SwitchTab(TopLevel::Home)));
}

#[test]
fn frames_of_the_list_of_conversations() {
    let mut s = ConversationListScreen::new("did:plc:me".to_string());
    let out = s.frame_start(&PadFrame::default(), 0, true);
    assert!(matches!(&out.requests[0], WorkRequest::FetchConvos { cursor: None }));
    s.handle_worker_response(WorkResponse::Convos(Ok(ConvosBatch {
        convos: vec![convo(&["me", "bob"])],
        cursor: None,
    })));
    assert!(s.frame_start(&PadFrame::default(), 0, true).requests.is_empty());
    let r = s.frame_requests(0, vec!["https://x/1".to_string()], &vec![true], true);
    assert!(r.is_empty());
    assert!(matches!(
        s.frame_end(&touch(400, 60), 0),
        ScreenAction::Push(NextScreen::Conversation { convo }) if convo.id == "c1"
    ));
}

#[test]
fn a_conversation_starts_with_its_request_and_the_keyboard() {
    let mut s = ConversationScreen::new("did:plc:me".to_string(), convo(&["me", "bob"]), 0);
    let out = s.frame_start(ImeEvent::Finished("hello".to_string()), true);
    assert!(matches!(out.request, Some(WorkRequest::GetConvoMessages { cursor: None, .. })));
    assert!(out.close);
    assert_eq!(s.draft, "hello");
    let out = s.frame_start(ImeEvent::Idle, true);
    assert!(out.request.is_none());
    assert!(!out.close);
    s.handle_worker_response(
        WorkResponse::ConvoMessages {
            convo_id: "c1".to_string(),
            batch: Ok(MessagesBatch { messages: vec![], cursor: None }),
        },
        0,
        0,
    );
    assert!(s.fetch_step(false, POLL_INTERVAL_NS, 500, false).is_empty());
    let r = s.fetch_step(false, POLL_INTERVAL_NS, 500, true);
    assert!(matches!(&r[0], WorkRequest::GetConvoMessages { cursor: None, .. }));
}

#[test]
fn a_conversation_that_became_ready_takes_the_frame() {
    let mut s = profile(Some("bob.test"));
    s.frame_head(&touch(500, 345), 0, 0, true);
    let out = s.frame_head(&vec![], 0, 0, true);
    assert!(matches!(&out.requests[0], WorkRequest::GetConvoForMembers { .. }));
    s.handle_worker_response(WorkResponse::ConvoForMembers(Ok(convo(&["bob"]))));
    let out = s.frame_start(&PadFrame::default(), &vec![], 0, false, false, true);
    assert!(matches!(out.action, ScreenAction::Push(NextScreen::Conversation { .. })));
    assert!(!out.goes_on);
    assert!(out.requests.is_empty());
    // The banner is asked for in the next frame only.
    let out = s.frame_start(&PadFrame::default(), &vec![], 0, false, false, true);
    assert_eq!(out.requests.len(), 1);
    assert!(out.goes_on);
}

#[test]
fn the_banner_takes_the_frame_until_it_is_closed() {
    let mut s = profile(Some("bob.test"));
    let idle = PadFrame::default();
    assert!(s.frame_start(&idle, &touch(400, 50), 0, true, true, true).goes_on);
    let out = s.frame_start(&idle, &vec![], 0, true, true, true);
    assert!(!out.goes_on && !out.banner);
    let out = s.frame_start(&idle, &vec![], 0, true, true, true);
    assert!(!out.goes_on && out.banner);
    let out = s.frame_start(&press(|p| p.circle = true), &vec![], 0, true, true, true);
    assert!(!out.goes_on && out.banner);
    assert!(s.frame_start(&idle, &vec![], 0, true, true, true).goes_on);
}

#[test]
fn a_confirmed_log_out_ends_the_frame() {
    let mut s = profile(None);
    let tap = |s: &mut ProfileScreen, now: u64| {
        s.frame_head(&touch(450, 345), 0, now, true);
        s.frame_head(&vec![], 0, now, true)
    };
    let out = tap(&mut s, 10);
    assert!(matches!(out.action, ScreenAction::Stay));
    let out = tap(&mut s, 10 + LOGOUT_ARMED_NS - 1);
    assert!(matches!(out.action, ScreenAction::Logout));
    assert!(out.requests.is_empty());
}

#[test]
fn a_profile_asks_for_its_first_page_and_opens_a_post() {
    let mut s = profile(Some("bob.test"));
    let out = s.frame_head(&vec![], 0, 0, true);
    assert_eq!(out.requests.len(), 1);
    let source = match &out.requests[0] {
        WorkRequest::FetchFeed { source, cursor: None } => source.clone(),
        _ => panic!("a page was expected"),
    };
    s.handle_worker_response(WorkResponse::FeedPage { source, batch: Ok(page(&["1"], Some("n"))) });
    s.add_row(TextHeights { body_h: 60, quote_h: 0 });
    let pads = s.frame_pads(&press(|p| p.l1 = true), 0, true);
    assert!(matches!(
        &pads.requests[0],
        WorkRequest::CreateLike { post_cid, .. } if post_cid == "cid-1"
    ));
    let widths = vec![40; 6];
    let idle = PadFrame::default();
    let out = s.frame_end(&idle, &vec![], 0, &vec![], &vec![], &widths, true);
    assert_eq!(out.pills.len(), 6);
    assert!(matches!(&out.requests[0], WorkRequest::FetchFeed { cursor: Some(c), .. } if c == "n"));
    let out = s.frame_end(&idle, &touch(100, 450), 0, &vec![], &vec![], &widths, true);
    assert!(matches!(out.action, ScreenAction::Push(NextScreen::Thread { .. })));
    assert!(out.pills.is_empty());
    let circle = press(|p| p.circle = true);
    let out = s.frame_end(&circle, &vec![], 0, &vec![], &vec![], &widths, true);
    assert!(matches!(out.action, ScreenAction::Pop));
}

#[test]
fn parts_of_the_compose_screen() {
    let mut s = ComposeScreen::new(None, None);
    let start = s.frame_start(ImeEvent::Finished("hi".to_string()));
    assert!(start.close);
    assert_eq!(start.part, ComposePart::Editor);
    assert_eq!(s.body_text(), "hi");
    let idle = PadFrame::default();
    s.edit_frame(&idle, &touch(20, 470), false, true);
    s.edit_frame(&idle, &vec![], false, true);
    assert_eq!(s.frame_start(ImeEvent::Idle).part, ComposePart::Picker);
    s.picked(PickResult::Cancelled, true);
    // The picker goes with the next frame, and not before.
    assert!(s.picker.is_some());
    assert_eq!(s.frame_start(ImeEvent::Idle).part, ComposePart::Editor);
    s.edit_frame(&idle, &touch(100, 470), false, true);
    assert!(s.edit_frame(&idle, &vec![], false, true).open_camera);
    s.camera_opened(Ok(()));
    assert_eq!(s.frame_start(ImeEvent::Idle).part, ComposePart::Camera);
    s.done = true;
    let start = s.frame_start(ImeEvent::Finished("late".to_string()));
    assert_eq!(start.part, ComposePart::Leave);
    assert!(!start.close);
    assert_eq!(s.body_text(), "hi");
}

#[test]
fn the_editor_posts_once() {
    let mut s = ComposeScreen::new(None, None);
    s.frame_start(ImeEvent::Finished("hi".to_string()));
    let idle = PadFrame::default();
    s.edit_frame(&idle, &touch(900, 20), false, true);
    let out = s.edit_frame(&idle, &vec![], false, true);
    assert!(matches!(out.request, Some(WorkRequest::CreateThread { .. })));
    assert!(matches!(out.action, ScreenAction::Stay));
    s.edit_frame(&idle, &touch(900, 20), false, true);
    assert!(s.edit_frame(&idle, &vec![], false, true).request.is_none());
    // Neither can it be cancelled by touch now, but by the circle it can.
    s.edit_frame(&idle, &touch(50, 20), false, true);
    assert!(matches!(s.edit_frame(&idle, &vec![], false, true).action, ScreenAction::Stay));
    let circle = press(|p| p.circle = true);
    assert!(matches!(s.edit_frame(&circle, &vec![], true, true).action, ScreenAction::Stay));
    assert!(matches!(s.edit_frame(&circle, &vec![], false, true).action, ScreenAction::Pop));
}

#[test]
fn a_tap_on_the_text_opens_the_keyboard() {
    let mut s = ComposeScreen::new(None, None);
    let r = s.text_area_rect();
    let idle = PadFrame::default();
    s.edit_frame(&idle, &touch(r.x + 5, r.y + 5), false, true);
    let k = s.edit_frame(&idle, &vec![], false, true).keyboard.unwrap();
    assert_eq!(k.title, "New post");
    s.edit_frame(&idle, &touch(50, 20), false, true);
    let out = s.edit_frame(&idle, &vec![], false, true);
    assert!(matches!(out.action, ScreenAction::Pop));
}

#[test]
fn frames_of_the_picker() {
    let mut p = FilePicker::new();
    let entry = |name: &str, is_dir: bool| DirEntry { name: name.to_string(), is_dir };
    let widths = vec![60, 60, 60];
    assert!(!p.frame_start(&widths, &vec![], &PadFrame::default()));
    p.load(Ok(vec![entry("a.jpg", false), entry("trip", true)]));
    // The cursor moves before the cross counts.
    let pad = press(|p| {
        p.right = true;
        p.cross = true;
    });
    let out = p.frame_keys(&pad);
    assert!(out.ends);
    assert!(matches!(out.result, Some(PickResult::Picked(f)) if f == "ux0:picture/a.jpg"));
    let out = p.frame_keys(&press(|p| p.left = true));
    assert!(!out.ends && out.result.is_none());
    let out = p.frame_end(&vec![], true);
    assert_eq!(out.requests.len(), 1);
    assert!(p.frame_end(&vec![], false).requests.is_empty());
    p.frame_end(&touch(50, 100), true);
    let out = p.frame_end(&vec![], true);
    assert!(out.result.is_none());
    assert_eq!(p.path, "ux0:picture/trip");
    assert!(!p.loaded);
    p.load(Ok(vec![]));
    let out = p.frame_keys(&press(|p| p.cross = true));
    assert!(!out.ends);
    assert!(p.frame_start(&widths, &vec![], &press(|p| p.r1 = true)));
    assert_eq!(p.path, "ux0:picture/");
}

#[test]
fn frames_of_the_login() {
    let mut s = LoginScreen::idle();
    let idle = PadFrame::default();
    s.frame(&idle, &touch(300, 210), false);
    let out = s.frame(&idle, &vec![], false);
    assert_eq!(out.form.unwrap().edit_handle, Some(String::new()));
    s.take_ime(ImeEvent::Finished("Alice.Test".to_string()));
    // Under the open keyboard nothing can be tapped.
    s.frame(&idle, &touch(300, 380), true);
    s.frame(&idle, &vec![], true);
    assert!(matches!(s.state, LoginState::Idle));
    s.frame(&idle, &touch(300, 380), false);
    s.frame(&idle, &vec![], false);
    assert!(matches!(s.after_present(), LoginWork::StartFlow { .. }));
    s.flow_started(FlowStart::Started { auth_url: "https://x".to_string() });
    let out = s.frame(&idle, &vec![], false);
    assert!(out.form.is_none() && !out.stop);
    let out = s.frame(&press(|p| p.circle = true), &vec![], false);
    assert!(out.stop);
    // The code is shown until the frame was.
    assert!(matches!(s.state, LoginState::OAuthAwaiting { .. }));
    s.after_present();
    assert!(matches!(s.state, LoginState::Idle));
    s.state = LoginState::OAuthExchanging { code: "c".to_string(), iss: "i".to_string() };
    assert!(s.frame(&idle, &vec![], false).form.is_none());
    s.state = LoginState::Done;
    assert!(matches!(s.frame(&idle, &vec![], false).action, ScreenAction::AuthComplete));
    assert!(matches!(s.frame(&idle, &vec![], false).action, ScreenAction::Stay));
}

#[test]
fn frames_of_the_video_player() {
    let mut s = VideoPlayerScreen::new("did:plc:a".to_string(), "bafy".to_string());
    let idle = PadFrame::default();
    let out = s.frame_start(&idle, false, false, true);
    assert!(matches!(out.request, Some(WorkRequest::FetchVideoBlob { .. })));
    assert!(out.open.is_none());
    assert!(s.frame_start(&idle, false, false, true).request.is_none());
    s.handle_worker_response(WorkResponse::VideoBlob {
        cid: "bafy".to_string(),
        result: Ok("ux0:v.mp4".to_string()),
    });
    let out = s.frame_start(&idle, false, false, true);
    assert_eq!(out.open, Some("ux0:v.mp4".to_string()));
    s.opened(Ok(()), false, false);
    s.frame_end(&idle, &touch(190, 300));
    assert!(!s.frame_end(&idle, &vec![]));
    assert!(s.notice.dont_show);
    let circle = press(|p| p.circle = true);
    let out = s.frame_start(&circle, true, false, true);
    assert!(out.persist);
    assert!(matches!(out.action, ScreenAction::Stay));
    assert!(!s.frame_end(&press(|p| p.cross = true), &vec![]));
    let out = s.frame_start(&circle, true, false, true);
    assert!(matches!(out.action, ScreenAction::Pop));
    assert!(out.open.is_none());
}
