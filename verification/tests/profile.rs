use bsky_vita::model::{
    Author, ConvoView, FeedPost, GeneratorView, ListView, PostView, ProfileDetail, ProfileViewer,
    StarterPackView,
};
use bsky_vita::post_row::TextHeights;
use bsky_vita::profile::{tab_labels_fit, ProfileScreen, LOGOUT_ARMED_NS};
use bsky_vita::profile_tabs::{available_tabs, cycle_tab, ProfileTab};
use bsky_vita::profile_text::{
    counts_line, dm_error_message, feed_likes, format_month_year, handle_line, is_verified,
    list_members, made_by, meta_line, pack_line, pack_title, profile_name, DescriptionClip,
};
use bsky_vita::requests::{
    ActorFeedsBatch, FeedSource, TimelineBatch, WorkRequest, WorkResponse,
};
use bsky_vita::screen::{NextScreen, ScreenAction};
use bsky_vita::tabbar::TopLevel;
use bsky_vita::widget::{PadFrame, TouchPoint};

fn detail() -> ProfileDetail {
    ProfileDetail {
        did: "did:plc:bob".to_string(),
        handle: "bob.test".to_string(),
        display_name: Some("Bob".to_string()),
        description: None,
        pronouns: None,
        website: None,
        avatar: Some("https://cdn.bsky.app/img/avatar/plain/did:plc:b/x".to_string()),
        banner: None,
        posts_count: Some(12),
        followers_count: None,
        follows_count: Some(3),
        verified_status: None,
        created_at: None,
        joined_via: None,
        viewer: None,
    }
}

fn post(id: &str) -> FeedPost {
    FeedPost {
        post: PostView {
            uri: format!("at://p/{id}"),
            cid: format!("cid-{id}"),
            author: Author {
                did: "did:plc:bob".to_string(),
                handle: "bob.test".to_string(),
                display_name: None,
                avatar: None,
            },
            record: "{}".to_string(),
            embed: None,
            like_count: None,
            repost_count: None,
            reply_count: None,
            viewer: None,
        },
        reason: None,
        reply: None,
    }
}

fn touch(x: i32, y: i32) -> Vec<TouchPoint> {
    vec![TouchPoint { x, y }]
}

fn loaded(actor: Option<&str>) -> ProfileScreen {
    let mut s = ProfileScreen::new(actor.map(|a| a.to_string()));
    assert!(matches!(s.begin_frame(true), Some(WorkRequest::FetchProfile { .. })));
    assert!(s.begin_frame(true).is_none());
    s.handle_worker_response(WorkResponse::Profile(Ok(Box::new(detail()))));
    s
}

#[test]
fn lines_of_a_profile() {
    let mut p = detail();
    assert_eq!(profile_name(&p), "Bob");
    assert_eq!(handle_line(&p), "@bob.test");
    p.pronouns = Some("they/them".to_string());
    assert_eq!(handle_line(&p), "@bob.test (they/them)");
    assert_eq!(counts_line(&p), "12 posts     0 followers     3 following");
    assert!(!is_verified(&p));
    p.verified_status = Some("valid".to_string());
    assert!(is_verified(&p));
    assert_eq!(meta_line(&p), "");
    p.created_at = Some("2024-03-09T01:02:03.000Z".to_string());
    p.website = Some("https://bob.example".to_string());
    p.joined_via = Some("al".to_string());
    assert_eq!(meta_line(&p), "Joined Mar 2024  ·  bob.example  ·  via @al's pack");
}

#[test]
fn months_and_years() {
    assert_eq!(format_month_year("2024-12-31"), Some("Dec 2024".to_string()));
    assert_eq!(format_month_year("2024-13-31"), None);
    assert_eq!(format_month_year("2024"), None);
    assert_eq!(format_month_year("2024-xx"), None);
}

#[test]
fn problems_with_messages() {
    assert_eq!(dm_error_message("DM_SCOPE: x"), "This app password can't access DMs.");
    assert_eq!(
        dm_error_message("NotFollowedBySender"),
        "They only accept DMs from people they follow."
    );
    assert_eq!(dm_error_message("Recipient has"), "This user isn't accepting messages.");
    assert_eq!(dm_error_message("offline"), "Couldn't open conversation.");
}

#[test]
fn lines_of_what_an_account_made() {
    let feed = GeneratorView {
        uri: "at://f".to_string(),
        display_name: "Cats".to_string(),
        avatar: None,
        creator_handle: "bob.test".to_string(),
        like_count: Some(7),
    };
    assert_eq!(feed_likes(&feed), Some("♥ 7".to_string()));
    assert_eq!(made_by(&feed.creator_handle), "by @bob.test");
    let list = ListView {
        uri: "at://l".to_string(),
        name: "L".to_string(),
        avatar: None,
        creator_handle: "bob.test".to_string(),
        list_item_count: None,
    };
    assert_eq!(list_members(&list), None);
    let pack = StarterPackView {
        uri: "at://s".to_string(),
        creator_handle: "bob.test".to_string(),
        creator_avatar: None,
        list_item_count: Some(4),
        joined_all_time_count: Some(9),
    };
    assert_eq!(pack_title(&pack), "Pack by @bob.test");
    assert_eq!(pack_line(&pack), "4 members  ·  9 joined");
}

#[test]
fn a_description_is_cut_at_a_word() {
    let mut c = DescriptionClip::start("one two\u{3000}three");
    assert_eq!(c.offer(), "one two\u{3000}three");
    let mut shown = None;
    while shown.is_none() {
        let fits = c.offer().chars().count() <= 10;
        shown = c.answer(fits);
    }
    assert_eq!(shown, Some("one two…".to_string()));
}

#[test]
fn a_description_that_fits_is_whole() {
    let mut c = DescriptionClip::start("short");
    assert_eq!(c.answer(true), Some("short".to_string()));
}

#[test]
fn likes_are_shown_to_their_owner_only() {
    assert_eq!(available_tabs(true).len(), 7);
    assert_eq!(available_tabs(false).len(), 6);
    assert!(!available_tabs(false).iter().any(|t| matches!(t, ProfileTab::Likes)));
}

#[test]
fn shoulder_buttons_go_round_the_tabs() {
    let mut t = ProfileTab::Posts;
    for _ in 0..6 {
        t = cycle_tab(t, false, true, false);
    }
    assert!(matches!(t, ProfileTab::Posts));
    assert!(matches!(cycle_tab(ProfileTab::Posts, true, false, true), ProfileTab::Packs));
    assert!(matches!(cycle_tab(ProfileTab::Media, false, true, false), ProfileTab::Feeds));
    assert!(matches!(cycle_tab(ProfileTab::Media, false, true, true), ProfileTab::Likes));
}

#[test]
fn each_tab_is_asked_for_once() {
    let mut s = loaded(Some("bob.test"));
    let r = s.maybe_dispatch_active_tab(true);
    assert!(matches!(
        r,
        Some(WorkRequest::FetchFeed { source: FeedSource::AuthorPosts { actor }, cursor: None })
            if actor == "did:plc:bob"
    ));
    assert!(s.maybe_dispatch_active_tab(true).is_none());
}

#[test]
fn a_page_of_somebody_else_is_dropped() {
    let mut s = loaded(Some("bob.test"));
    s.maybe_dispatch_active_tab(true);
    let page = |actor: &str| WorkResponse::FeedPage {
        source: FeedSource::AuthorPosts { actor: actor.to_string() },
        batch: Ok(TimelineBatch { posts: vec![post("1")], cursor: Some("n".to_string()) }),
    };
    s.handle_worker_response(page("did:plc:eve"));
    assert_eq!(s.tabs.posts.list.posts.len(), 0);
    s.handle_worker_response(page("did:plc:bob"));
    assert_eq!(s.tabs.posts.list.posts.len(), 1);
    s.add_row(TextHeights { body_h: 0, quote_h: 0 });
    assert!(matches!(
        s.paginate(0, true),
        Some(WorkRequest::FetchFeed { cursor: Some(c), .. }) if c == "n"
    ));
    assert!(s.paginate(0, true).is_none());
}

#[test]
fn following_and_unfollowing() {
    let mut s = loaded(Some("bob.test"));
    assert!(!s.is_following());
    assert!(matches!(
        s.toggle_follow(true),
        Some(WorkRequest::CreateFollow { actor_did }) if actor_did == "did:plc:bob"
    ));
    assert!(s.is_following());
    s.handle_worker_response(WorkResponse::FollowChanged(Ok(Some(
        "at://me/app.bsky.graph.follow/3k".to_string(),
    ))));
    assert!(matches!(
        s.toggle_follow(true),
        Some(WorkRequest::DeleteFollow { rkey }) if rkey == "3k"
    ));
    assert!(!s.is_following());
}

#[test]
fn the_follow_button() {
    let mut s = loaded(Some("bob.test"));
    assert!(s.follow_button(&touch(330, 345), 0, true).is_none());
    assert!(matches!(
        s.follow_button(&vec![], 0, true),
        Some(WorkRequest::CreateFollow { .. })
    ));
}

#[test]
fn a_message_opens_a_conversation() {
    let mut s = loaded(Some("bob.test"));
    s.message_button(&touch(500, 345), 0, true);
    let r = s.message_button(&vec![], 0, true);
    assert!(matches!(
        r,
        Some(WorkRequest::GetConvoForMembers { members }) if members == vec!["did:plc:bob"]
    ));
    s.handle_worker_response(WorkResponse::ConvoForMembers(Ok(ConvoView {
        id: "c".to_string(),
        members: vec![],
        unread_count: 0,
        last_message: None,
    })));
    assert!(matches!(
        s.take_convo(),
        ScreenAction::Push(NextScreen::Conversation { convo }) if convo.id == "c"
    ));
    assert!(matches!(s.take_convo(), ScreenAction::Stay));
}

#[test]
fn a_refused_conversation_is_told() {
    let mut s = loaded(Some("bob.test"));
    s.message_button(&touch(500, 345), 0, true);
    s.message_button(&vec![], 0, true);
    s.handle_worker_response(WorkResponse::ConvoForMembers(Err("disabled".to_string())));
    assert_eq!(s.toast(), Some("This user isn't accepting messages.".to_string()));
}

#[test]
fn logging_out_takes_two_taps() {
    let mut s = loaded(None);
    assert!(s.is_own());
    let tap = |s: &mut ProfileScreen, now: u64| {
        s.logout_button(&touch(450, 345), 0, now);
        s.logout_button(&vec![], 0, now)
    };
    assert!(!s.logout_armed(10));
    assert!(!tap(&mut s, 10));
    assert!(s.logout_armed(10));
    assert!(s.logout_armed(9 + LOGOUT_ARMED_NS));
    assert!(!s.logout_armed(10 + LOGOUT_ARMED_NS));
    assert!(!tap(&mut s, 10 + LOGOUT_ARMED_NS));
    assert!(tap(&mut s, 11 + LOGOUT_ARMED_NS));
}

#[test]
fn pictures_of_a_profile() {
    let mut s = loaded(Some("bob.test"));
    let r = s.request_pictures(false, false, true);
    assert_eq!(r.len(), 1);
    assert!(matches!(
        &r[0],
        WorkRequest::FetchImage { url }
            if url == "https://cdn.bsky.app/img/avatar_thumbnail/plain/did:plc:b/x@jpeg"
    ));
    assert!(s.request_pictures(false, false, true).is_empty());
    assert_eq!(s.banner_url(), None);
}

#[test]
fn the_strip_of_tabs() {
    let mut s = loaded(Some("bob.test"));
    let widths = vec![40, 50, 45, 40, 35, 42];
    let pills = s.tab_strip(&widths, &vec![], 0);
    assert_eq!(pills.len(), 6);
    assert!(pills[0].active);
    assert_eq!((pills[0].rect.x, pills[0].rect.y, pills[0].rect.w), (8, 378, 64));
    assert_eq!(pills[1].rect.x, 78);
    s.tab_strip(&widths, &touch(80, 380), 0);
    s.tab_strip(&widths, &vec![], 0);
    assert!(matches!(s.tabs.active, ProfileTab::Replies));
    // Scrolled far enough, the strip stays at the top of the display.
    assert_eq!(s.tab_strip(&widths, &vec![], 5000)[0].rect.y, 4);
}

#[test]
fn a_feed_of_the_account_is_opened() {
    let mut s = loaded(Some("bob.test"));
    let mut pad = PadFrame::default();
    pad.right = true;
    while !matches!(s.tabs.active, ProfileTab::Feeds) {
        s.cycle(&pad);
    }
    assert!(matches!(
        s.maybe_dispatch_active_tab(true),
        Some(WorkRequest::FetchActorFeeds { actor, cursor: None }) if actor == "did:plc:bob"
    ));
    s.handle_worker_response(WorkResponse::ActorFeeds {
        actor: "did:plc:bob".to_string(),
        batch: Ok(ActorFeedsBatch {
            feeds: vec![GeneratorView {
                uri: "at://f/1".to_string(),
                display_name: "Cats".to_string(),
                avatar: None,
                creator_handle: "bob.test".to_string(),
                like_count: None,
            }],
            cursor: None,
        }),
    });
    assert!(matches!(
        s.feed_tap(&touch(100, 430), 0),
        ScreenAction::Push(NextScreen::Feed { uri }) if uri == "at://f/1"
    ));
}

#[test]
fn notes_in_place_of_posts() {
    let mut s = loaded(Some("bob.test"));
    s.maybe_dispatch_active_tab(true);
    assert!(s.tab_note().is_some());
    s.handle_worker_response(WorkResponse::FeedPage {
        source: FeedSource::AuthorPosts { actor: "did:plc:bob".to_string() },
        batch: Ok(TimelineBatch { posts: vec![post("1")], cursor: None }),
    });
    assert!(s.tab_note().is_none());
}

#[test]
fn only_the_own_profile_is_a_tab_of_the_client() {
    assert!(matches!(ProfileScreen::new(None).top_level(), Some(TopLevel::Profile)));
    assert!(ProfileScreen::new(Some("bob.test".to_string())).top_level().is_none());
}

#[test]
fn a_follow_that_stood_before() {
    let mut s = ProfileScreen::new(Some("bob.test".to_string()));
    s.begin_frame(true);
    let mut p = detail();
    p.viewer = Some(ProfileViewer { following: Some("at://me/f/77".to_string()) });
    s.handle_worker_response(WorkResponse::Profile(Ok(Box::new(p))));
    assert!(s.is_following());
    assert!(matches!(
        s.toggle_follow(true),
        Some(WorkRequest::DeleteFollow { rkey }) if rkey == "77"
    ));
}

#[test]
fn labels_of_tabs_as_far_as_they_go() {
    assert!(tab_labels_fit(&vec![200_000; 6]));
    assert!(tab_labels_fit(&vec![i32::MAX - 38]));
    assert!(!tab_labels_fit(&vec![i32::MAX - 37]));
    assert!(!tab_labels_fit(&vec![i32::MAX / 2; 3]));
    let mut s = loaded(Some("bob.test"));
    let pills = s.tab_strip(&vec![200_000; 6], &vec![], 0);
    assert_eq!(pills[5].rect.x, 8 + 5 * 200_030);
}

#[test]
fn a_page_with_a_full_counter_is_shown() {
    let mut s = loaded(Some("bob.test"));
    let mut full = post("1");
    full.post.like_count = Some(i64::MAX);
    let page = WorkResponse::FeedPage {
        source: FeedSource::AuthorPosts { actor: "did:plc:bob".to_string() },
        batch: Ok(TimelineBatch { posts: vec![full, post("2")], cursor: None }),
    };
    assert!(s.tabs.answer_room(&page));
    s.handle_worker_response(page);
    assert_eq!(s.tabs.posts.list.posts.len(), 2);
    let mut pad = PadFrame::default();
    pad.l1 = true;
    assert!(!s.pads_room(&pad, 0, true));
    assert!(s.pads_room(&pad, 0, false));
    pad.down = true;
    assert!(s.pads_room(&pad, 0, true));
    pad.l1 = false;
    pad.down = false;
    pad.triangle = true;
    assert!(s.pads_room(&pad, 0, true));
    assert!(s.taps_room(&touch(100, 430), 0));
}
