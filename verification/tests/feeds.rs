use bsky_vita::embeds::{
    embed_image_urls, host_from_uri, image_cells, measure_embed_block, plan_quote, quote_uri_in_embed,
    video_in_embed, video_thumb,
};
use bsky_vita::engagement::{
    confirm_first, toggle_engagement, toggle_fits, EngagementKind,
};
use bsky_vita::images::request_missing;
use bsky_vita::model::{
    Author, EmbedView, ExternalView, FeedPost, FeedReason, ImageView, MediaView, PostView,
    PostViewer, QuotedPost, RecordView, ReplyParent,
};
use bsky_vita::post_list::PostList;
use bsky_vita::post_row::{
    avatar_initial, count_labels, detect_post_tap_action, measure_post_row, placeholder_color,
    plan_post_row,
    post_context_label, quote_text, TapAction, TextHeights,
};
use bsky_vita::requests::{
    FeedSource, SavedFeedPin, SavedFeedsBatch, ThreadBatch, TimelineBatch, WorkRequest,
    WorkResponse,
};
use bsky_vita::screen::{NextScreen, ScreenAction};
use bsky_vita::thread::{flatten, ThreadScreen};
use bsky_vita::timeline::{pills_fit, FeedBody, FeedFooter, TimelineScreen};
use bsky_vita::widget::{PadFrame, TouchPoint};
use vstd::hash_set::StringHashSet;

fn author(handle: &str) -> Author {
    Author {
        did: format!("did:plc:{handle}"),
        handle: handle.to_string(),
        display_name: None,
        avatar: None,
    }
}

const RECORD: &str =
    "{\"$type\":\"app.bsky.feed.post\",\"createdAt\":\"2024-03-01T12:00:00.000Z\",\"text\":\"hello there\"}";

fn view(id: &str) -> PostView {
    PostView {
        uri: format!("at://did:plc:a/app.bsky.feed.post/{id}"),
        cid: format!("cid-{id}"),
        author: author("alice"),
        record: RECORD.to_string(),
        embed: None,
        like_count: Some(3),
        repost_count: None,
        reply_count: Some(1),
        viewer: None,
    }
}

fn post(id: &str) -> FeedPost {
    FeedPost { post: view(id), reason: None, reply: None }
}

fn image(n: i32) -> ImageView {
    ImageView {
        thumb: format!("https://cdn.bsky.app/img/feed_thumbnail/plain/did:plc:a/i{n}"),
        fullsize: format!("https://cdn.bsky.app/img/feed_fullsize/plain/did:plc:a/i{n}"),
        alt: String::new(),
        natural_h: 500,
        natural_w: 400,
    }
}

fn touch(x: i32, y: i32) -> Vec<TouchPoint> {
    vec![TouchPoint { x, y }]
}

fn page(ids: &[&str], cursor: Option<&str>) -> TimelineBatch {
    TimelineBatch {
        posts: ids.iter().map(|i| post(i)).collect(),
        cursor: cursor.map(|c| c.to_string()),
    }
}

fn feed_page(source: FeedSource, ids: &[&str], cursor: Option<&str>) -> WorkResponse {
    WorkResponse::FeedPage { source, batch: Ok(page(ids, cursor)) }
}

fn loaded(ids: &[&str], cursor: Option<&str>) -> TimelineScreen {
    let mut s = TimelineScreen::new();
    s.begin_frame(true);
    s.handle_worker_response(feed_page(FeedSource::Following, ids, cursor));
    s
}

#[test]
fn a_post_record_gives_its_text() {
    assert_eq!(bsky_vita::atproto::record_text(RECORD), "hello there");
    assert_eq!(bsky_vita::atproto::record_text("{}"), "");
    assert_eq!(bsky_vita::post_row::body_text(&post("1")), "hello there");
}

#[test]
fn context_lines() {
    let mut p = post("1");
    assert_eq!(post_context_label(&p, true), None);
    p.reply = Some(ReplyParent::Post { author: author("bob") });
    assert_eq!(post_context_label(&p, true), Some("Reply to @bob".to_string()));
    assert_eq!(post_context_label(&p, false), None);
    p.reason = Some(FeedReason::Repost { by: author("carol") });
    assert_eq!(post_context_label(&p, true), Some("Reposted by @carol".to_string()));
    p.reason = Some(FeedReason::Pin);
    p.reply = Some(ReplyParent::Post { author: author("alice") });
    assert_eq!(post_context_label(&p, true), None);
}

#[test]
fn counters_in_words() {
    let mut p = post("1");
    p.post.viewer = Some(PostViewer { like: Some("at://x/like/9".to_string()), repost: None });
    let (likes, reposts, replies) = count_labels(&p);
    assert_eq!(likes.text, "3 likes");
    assert!(likes.own);
    assert_eq!(reposts.text, "0 reposts");
    assert!(!reposts.own);
    assert_eq!(replies.text, "1 replies");
}

#[test]
fn a_stand_in_for_a_picture() {
    assert_eq!(avatar_initial("alice"), 'A');
    assert_eq!(avatar_initial(""), '?');
    let c = placeholder_color("alice");
    assert_eq!(c, placeholder_color("alice"));
    // 2166136261 modulo 8 is 5.
    let e = placeholder_color("");
    assert_eq!((e.r, e.g, e.b), (0x9A, 0xA0, 0xF8));
}

#[test]
fn row_heights() {
    let p = post("1");
    // Padding, name, text, gap and counters: 20 + 24 + 60 + 8 + 28.
    assert_eq!(measure_post_row(&p, TextHeights { body_h: 60, quote_h: 0 }, true), 140);
    // Never lower than the picture: 20 + 48 + 28.
    assert_eq!(measure_post_row(&p, TextHeights { body_h: 0, quote_h: 0 }, true), 96);
    let mut r = post("2");
    r.reason = Some(FeedReason::Repost { by: author("carol") });
    assert_eq!(measure_post_row(&r, TextHeights { body_h: 60, quote_h: 0 }, true), 162);
    assert_eq!(measure_post_row(&r, TextHeights { body_h: 60, quote_h: 0 }, false), 140);
    let mut v = post("3");
    v.post.embed = Some(EmbedView::Video { cid: "c".to_string() });
    // The attachment brings 60 + 8 and a larger gap.
    assert_eq!(measure_post_row(&v, TextHeights { body_h: 60, quote_h: 0 }, true), 216);
}

#[test]
fn attachment_heights() {
    let one = Some(EmbedView::Images(vec![image(1)]));
    assert_eq!(measure_embed_block(&one, 0), 328);
    let two = Some(EmbedView::Images(vec![image(1), image(2)]));
    assert_eq!(measure_embed_block(&two, 0), 248);
    let four = Some(EmbedView::Images(vec![image(1), image(2), image(3), image(4)]));
    assert_eq!(measure_embed_block(&four, 0), 376);
    assert_eq!(measure_embed_block(&None, 0), 0);
    assert_eq!(measure_embed_block(&Some(EmbedView::Unknown), 0), 0);
    let gone = Some(EmbedView::Record(RecordView::Unavailable));
    assert_eq!(measure_embed_block(&gone, 0), 48);
    let quote = Some(EmbedView::RecordWithMedia {
        record: RecordView::Unavailable,
        media: MediaView::Video { cid: "c".to_string() },
    });
    assert_eq!(measure_embed_block(&quote, 0), 60 + 8 + 40 + 8);
}

#[test]
fn pictures_in_a_grid() {
    let cells = image_cells(&vec![image(1), image(2), image(3), image(4), image(5)], 72, 100);
    assert_eq!(cells.len(), 4);
    assert_eq!((cells[1].x, cells[1].y, cells[1].w, cells[1].h), (512, 100, 432, 180));
    assert_eq!((cells[2].x, cells[2].y), (72, 288));
    let single = image_cells(&vec![image(1)], 72, 100);
    assert_eq!((single[0].w, single[0].h), (400, 320));
}

#[test]
fn pictures_are_asked_for_as_jpeg() {
    let urls = embed_image_urls(&Some(EmbedView::Images(vec![image(1)])));
    assert_eq!(
        urls,
        vec!["https://cdn.bsky.app/img/feed_thumbnail/plain/did:plc:a/i1@jpeg".to_string()]
    );
    let link = ExternalView {
        uri: "https://example.com/x".to_string(),
        title: String::new(),
        thumb: None,
    };
    assert!(embed_image_urls(&Some(EmbedView::External(link))).is_empty());
}

#[test]
fn where_an_attachment_leads() {
    let mut v = post("1");
    v.post.embed = Some(EmbedView::Video { cid: "c9".to_string() });
    let t = video_in_embed(&v.post.embed, &v.post.author.did).unwrap();
    assert_eq!((t.did.as_str(), t.cid.as_str()), ("did:plc:alice", "c9"));
    let q = QuotedPost {
        uri: "at://q".to_string(),
        author: author("bob"),
        record: RECORD.to_string(),
    };
    let e = Some(EmbedView::Record(RecordView::Post(q)));
    assert_eq!(quote_uri_in_embed(&e), Some("at://q".to_string()));
    let mut p = post("2");
    p.post.embed = e;
    assert_eq!(quote_text(&p), Some("hello there".to_string()));
}

#[test]
fn hosts_of_links() {
    assert_eq!(host_from_uri("https://example.com/a/b"), "example.com");
    assert_eq!(host_from_uri("https://example.com"), "example.com");
    assert_eq!(host_from_uri("no scheme"), "no scheme");
    assert_eq!(host_from_uri(&"x".repeat(100)), "x".repeat(64));
}

#[test]
fn the_triangle_tapers() {
    let t = video_thumb(10, 20);
    assert_eq!((t.disc.x, t.disc.y), (48, 38));
    assert_eq!(t.columns.len(), 12);
    assert_eq!(t.columns[0].h, 24);
    assert_eq!(t.columns[11].h, 2);
}

#[test]
fn taps_on_the_parts_of_a_row() {
    let mut p = post("7");
    p.post.embed = Some(EmbedView::Images(vec![image(1), image(2)]));
    let h = TextHeights { body_h: 60, quote_h: 0 };
    let row_h = measure_post_row(&p, h, true);
    assert_eq!(row_h, 396);
    let tap = |x: i32, y: i32| detect_post_tap_action(&p, 0, row_h, &touch(x, y), h, 5, true);
    assert!(matches!(tap(10, 30), Some(TapAction::OpenProfile(who)) if who == "alice"));
    assert!(matches!(tap(10, 380), Some(TapAction::ToggleLike(5))));
    assert!(matches!(tap(300, 380), Some(TapAction::ToggleRepost(5))));
    match tap(600, 200) {
        Some(TapAction::OpenImage { images, index }) => {
            assert_eq!(index, 1);
            assert_eq!(images.len(), 2);
            assert_eq!(
                images[1].thumb,
                "https://cdn.bsky.app/img/feed_thumbnail/plain/did:plc:a/i2@jpeg"
            );
        }
        _ => panic!("a picture was expected"),
    }
    assert!(matches!(tap(100, 50), Some(TapAction::OpenThread(u)) if u.ends_with("/7")));
    assert!(tap(100, 10).is_none());
}

#[test]
fn a_like_shows_at_once_and_is_undone_by_its_key() {
    let mut p = post("1");
    let r = toggle_engagement(&mut p, EngagementKind::Like);
    assert!(matches!(r, Some(WorkRequest::CreateLike { post_cid, .. }) if post_cid == "cid-1"));
    assert_eq!(p.post.like_count, Some(4));
    // Before the server has answered there is nothing to take back.
    let mut early = post("2");
    toggle_engagement(&mut early, EngagementKind::Like);
    assert!(toggle_engagement(&mut early, EngagementKind::Like).is_none());
    assert_eq!(early.post.like_count, Some(3));
    let mut list = vec![p];
    confirm_first(&mut list, EngagementKind::Like, "at://me/app.bsky.feed.like/3k");
    let r = toggle_engagement(&mut list[0], EngagementKind::Like);
    assert!(matches!(r, Some(WorkRequest::DeleteLike { rkey }) if rkey == "3k"));
    assert_eq!(list[0].post.like_count, Some(3));
}

#[test]
fn a_counter_never_falls_below_nothing() {
    let mut p = post("1");
    p.post.repost_count = Some(0);
    p.post.viewer = Some(PostViewer { like: None, repost: Some("at://x/r/1".to_string()) });
    toggle_engagement(&mut p, EngagementKind::Repost);
    assert_eq!(p.post.repost_count, Some(0));
}

#[test]
fn counters_at_the_end_of_their_range() {
    let mut p = post("1");
    assert!(toggle_fits(&p.post, EngagementKind::Like));
    p.post.like_count = Some(i64::MAX);
    assert!(!toggle_fits(&p.post, EngagementKind::Like));
    assert!(toggle_fits(&p.post, EngagementKind::Repost));
    p.post.viewer = Some(PostViewer { like: Some("at://x/l/1".to_string()), repost: None });
    assert!(toggle_fits(&p.post, EngagementKind::Like));
    toggle_engagement(&mut p, EngagementKind::Like);
    assert_eq!(p.post.like_count, Some(i64::MAX - 1));
    p.post.viewer = Some(PostViewer { like: Some("at://x/l/1".to_string()), repost: None });
    p.post.like_count = Some(i64::MIN);
    assert!(!toggle_fits(&p.post, EngagementKind::Like));
}

#[test]
fn each_picture_is_asked_for_once() {
    let mut inflight = StringHashSet::new();
    let urls: Vec<String> = ["a", "b", "a"].iter().map(|s| s.to_string()).collect();
    let r = request_missing(urls.clone(), &vec![false, true, false], &mut inflight);
    assert_eq!(r.len(), 1);
    assert!(matches!(&r[0], WorkRequest::FetchImage { url } if url == "a"));
    let r = request_missing(urls, &vec![false, false, false], &mut inflight);
    assert_eq!(r.len(), 1);
    assert!(matches!(&r[0], WorkRequest::FetchImage { url } if url == "b"));
}

#[test]
fn a_list_of_posts_grows_and_is_measured() {
    let mut l = PostList::new(vec![post("1")], 0);
    assert_eq!(l.next_unmeasured(), Some(0));
    l.add_row(TextHeights { body_h: 0, quote_h: 0 }, true);
    assert_eq!(l.next_unmeasured(), None);
    l.append(vec![post("2")]);
    assert_eq!(l.next_unmeasured(), Some(1));
    assert!(l.step(false, true));
    assert_eq!(l.selected_idx, 1);
    assert_eq!(l.selected_handle(), Some("alice".to_string()));
    assert!(!l.step(false, true));
}

#[test]
fn the_timeline_asks_for_its_feeds_and_its_first_page() {
    let mut s = TimelineScreen::new();
    assert!(s.begin_frame(false).is_empty());
    let r = s.begin_frame(true);
    assert_eq!(r.len(), 2);
    assert!(r.iter().any(|q| matches!(q, WorkRequest::FetchSavedFeeds)));
    assert!(r.iter().any(|q| matches!(
        q,
        WorkRequest::FetchFeed { source: FeedSource::Following, cursor: None }
    )));
    assert!(s.begin_frame(true).is_empty());
    assert!(matches!(s.body(), FeedBody::Loading));
}

#[test]
fn pages_follow_each_other_until_the_end() {
    let mut s = loaded(&["1", "2"], Some("c1"));
    assert!(matches!(s.body(), FeedBody::Posts));
    s.add_row(TextHeights { body_h: 0, quote_h: 0 });
    s.add_row(TextHeights { body_h: 0, quote_h: 0 });
    let r = s.paginate(0, true);
    assert!(matches!(
        r,
        Some(WorkRequest::FetchFeed { cursor: Some(c), .. }) if c == "c1"
    ));
    assert!(s.paginate(0, true).is_none());
    assert!(matches!(s.footer(0), Some((FeedFooter::LoadingMore, _))));
    s.handle_worker_response(feed_page(FeedSource::Following, &["3"], None));
    s.add_row(TextHeights { body_h: 0, quote_h: 0 });
    assert!(s.paginate(0, true).is_none());
    assert!(matches!(s.footer(0), Some((FeedFooter::EndOfFeed, _))));
}

#[test]
fn a_page_of_another_feed_is_dropped() {
    let mut s = TimelineScreen::with_feed("at://feed/1".to_string());
    s.begin_frame(true);
    s.handle_worker_response(feed_page(FeedSource::Following, &["1"], None));
    assert!(matches!(s.body(), FeedBody::Loading));
    s.handle_worker_response(feed_page(FeedSource::Feed("at://feed/1".to_string()), &[], None));
    assert!(matches!(s.body(), FeedBody::Empty));
}

#[test]
fn a_refused_page_is_told() {
    let mut s = TimelineScreen::new();
    s.begin_frame(true);
    s.handle_worker_response(WorkResponse::FeedPage {
        source: FeedSource::Following,
        batch: Err("offline".to_string()),
    });
    assert!(matches!(s.body(), FeedBody::Problem(e) if e == "offline"));
}

#[test]
fn pills_switch_the_feed() {
    let mut s = loaded(&["1"], None);
    let pin = |source: FeedSource, name: &str| SavedFeedPin {
        source,
        display_name: name.to_string(),
        avatar_url: None,
    };
    s.handle_worker_response(WorkResponse::SavedFeeds(Ok(SavedFeedsBatch {
        pins: vec![
            pin(FeedSource::Following, "Following"),
            pin(FeedSource::Feed("at://f/cats".to_string()), "Cats"),
        ],
    })));
    assert_eq!(s.header_label(), "Following");
    let row = s.pill_row(&vec![80, 40], &vec![]);
    assert_eq!(row.pills.len(), 2);
    assert!(row.pills[0].active);
    let r = row.pills[1].rect;
    s.pill_row(&vec![80, 40], &touch(r.x + 2, r.y + 2));
    let row = s.pill_row(&vec![80, 40], &vec![]);
    assert_eq!(row.tapped, Some(1));
    assert!(s.follow_pill(row.tapped));
    assert_eq!(s.header_label(), "Cats");
    assert!(matches!(s.body(), FeedBody::Loading));
    let again = s.begin_frame(true);
    assert!(matches!(
        &again[0],
        WorkRequest::FetchFeed { source: FeedSource::Feed(u), cursor: None } if u == "at://f/cats"
    ));
}

#[test]
fn buttons_act_on_the_selected_post() {
    let mut s = loaded(&["1", "2"], None);
    let mut pad = PadFrame::default();
    pad.l1 = true;
    pad.triangle = true;
    let out = s.pad_actions(&pad, true);
    assert!(matches!(
        out.like_request,
        Some(WorkRequest::CreateLike { post_cid, .. }) if post_cid == "cid-1"
    ));
    assert!(matches!(
        out.repost_request,
        Some(WorkRequest::CreateRepost { post_cid, .. }) if post_cid == "cid-1"
    ));
    assert!(out.push.is_none());
    let mut pad = PadFrame::default();
    pad.r1 = true;
    pad.triangle = true;
    let out = s.pad_actions(&pad, true);
    assert!(out.repost_request.is_none());
    assert!(matches!(
        out.push,
        Some(NextScreen::Compose { reply: Some(_), handle: Some(h) }) if h == "alice"
    ));
    let mut pad = PadFrame::default();
    pad.square = true;
    let out = s.pad_actions(&pad, true);
    assert!(matches!(out.push, Some(NextScreen::Compose { reply: None, handle: None })));
    let target = s.focused_reply_target().unwrap();
    assert_eq!(target.parent_cid, "cid-1");
    assert_eq!(target.root_cid, "cid-1");
    let r = s.toggle_at(1, EngagementKind::Like, true);
    assert!(matches!(r, Some(WorkRequest::CreateLike { post_cid, .. }) if post_cid == "cid-2"));
    assert!(s.toggle_at(9, EngagementKind::Like, true).is_none());
}

#[test]
fn a_tap_on_the_text_opens_the_thread() {
    let mut s = loaded(&["1"], None);
    s.add_row(TextHeights { body_h: 60, quote_h: 0 });
    let tap = s.tap(&touch(100, 90 + 40), 0);
    let (req, action) = s.follow_tap(tap, true);
    assert!(req.is_none());
    assert!(matches!(
        action,
        ScreenAction::Push(NextScreen::Thread { uri }) if uri.ends_with("/1")
    ));
}

#[test]
fn a_thread_reads_from_its_root_down() {
    let batch = ThreadBatch {
        parents: vec![view("root"), view("up")],
        main: view("me"),
        replies: vec![view("r1")],
    };
    let rows = flatten(batch);
    let ids: Vec<&str> = rows.iter().map(|p| p.post.cid.as_str()).collect();
    assert_eq!(ids, vec!["cid-root", "cid-up", "cid-me", "cid-r1"]);
}

#[test]
fn a_thread_selects_its_post_and_replies_to_the_root() {
    let mut s = ThreadScreen::new("at://t".to_string());
    assert!(matches!(s.begin_frame(true), Some(WorkRequest::FetchThread { uri }) if uri == "at://t"));
    assert!(s.begin_frame(true).is_none());
    s.handle_worker_response(WorkResponse::Thread(Ok(ThreadBatch {
        parents: vec![view("root"), view("up")],
        main: view("me"),
        replies: vec![],
    })));
    let t = s.focused_reply_target().unwrap();
    assert_eq!(t.parent_cid, "cid-me");
    assert_eq!(t.root_cid, "cid-root");
    for _ in 0..3 {
        s.add_row(TextHeights { body_h: 200, quote_h: 0 });
    }
    let settle = s.settle_scroll(false, 0);
    assert!(settle.target.is_some());
    assert!(s.settle_scroll(false, 0).target.is_none());
}

#[test]
fn a_thread_that_is_gone() {
    let mut s = ThreadScreen::new("at://t".to_string());
    s.begin_frame(true);
    s.handle_worker_response(WorkResponse::Thread(Err("post not found".to_string())));
    assert!(matches!(s.body(), FeedBody::Problem(e) if e == "post not found"));
}

#[test]
fn what_is_tapped_is_what_is_drawn() {
    let mut p = post("1");
    let h = TextHeights { body_h: 60, quote_h: 0 };
    let plan = plan_post_row(&p, h, 100, measure_post_row(&p, h, true), 90, true);
    assert_eq!((plan.face.x, plan.face.y, plan.face.w), (16, 120, 48));
    assert_eq!((plan.name_y, plan.body_y, plan.counts_y), (120, 144, 212));
    assert_eq!((plan.handle_x, plan.handle_y), (854, 124));
    assert_eq!(plan.embed_y, None);
    assert_eq!(plan.rule.y, 239);
    p.reason = Some(FeedReason::Repost { by: author("bob") });
    p.post.embed = Some(EmbedView::Images(vec![image(1), image(2)]));
    let row_h = measure_post_row(&p, h, true);
    let plan = plan_post_row(&p, h, 100, row_h, 90, true);
    assert_eq!(plan.context_y, 116);
    assert_eq!(plan.face.y, 142);
    let y = plan.embed_y.unwrap();
    assert_eq!(y, 234);
    let hit = |x: i32, y: i32| detect_post_tap_action(&p, 100, row_h, &touch(x, y), h, 0, true);
    assert!(matches!(hit(plan.face.x, plan.face.y), Some(TapAction::OpenProfile(_))));
    assert!(matches!(hit(80, y), Some(TapAction::OpenImage { index: 0, .. })));
    assert!(matches!(hit(80, y - 1), Some(TapAction::OpenThread(_))));
}

#[test]
fn a_handle_is_drawn_where_there_is_room() {
    let plan = plan_quote(72, 200, 40, 100);
    assert_eq!((plan.card.w, plan.card.h), (872, 100));
    assert_eq!((plan.name_x, plan.name_y, plan.body_y), (110, 224, 252));
    assert_eq!(plan.handle, Some((216, 720)));
    assert_eq!(plan_quote(72, 200, 40, 789).handle, Some((905, 31)));
    assert_eq!(plan_quote(72, 200, 40, 790).handle, None);
}

#[test]
fn a_full_counter_counts_only_where_it_is_toggled() {
    let mut s = TimelineScreen::new();
    s.begin_frame(true);
    let mut full = post("1");
    full.post.like_count = Some(i64::MAX);
    s.handle_worker_response(WorkResponse::FeedPage {
        source: FeedSource::Following,
        batch: Ok(TimelineBatch { posts: vec![full, post("2")], cursor: None }),
    });
    let h = TextHeights { body_h: 60, quote_h: 0 };
    s.add_row(h);
    s.add_row(h);
    let mut pad = PadFrame::default();
    assert!(s.buttons_room(&pad, 0, true));
    pad.l1 = true;
    assert!(!s.buttons_room(&pad, 0, true));
    assert!(s.buttons_room(&pad, 0, false));
    pad.down = true;
    assert!(s.buttons_room(&pad, 0, true));
    let row = measure_post_row(&post("1"), h, true);
    assert!(!s.taps_room(&touch(10, 90 + row - 16), 0));
    assert!(s.taps_room(&touch(300, 90 + row - 16), 0));
    assert!(s.taps_room(&touch(10, 90 + row + row - 16), 0));
    assert!(s.taps_room(&touch(100, 130), 0));
}

#[test]
fn a_thread_with_a_full_counter() {
    let mut s = ThreadScreen::new("at://p/1".to_string());
    let mut main = view("1");
    main.repost_count = Some(i64::MAX);
    s.handle_worker_response(WorkResponse::Thread(Ok(ThreadBatch {
        parents: vec![view("0")],
        main,
        replies: vec![],
    })));
    let mut pad = PadFrame::default();
    pad.triangle = true;
    assert!(!s.buttons_room(&pad, true));
    pad.up = true;
    assert!(s.buttons_room(&pad, true));
    assert!(s.taps_room(&touch(100, 100), 0));
}

#[test]
fn a_thousand_pins_and_more() {
    let mut s = loaded(&["1"], None);
    let pins: Vec<SavedFeedPin> = (0..1200)
        .map(|i| SavedFeedPin {
            source: FeedSource::Feed(format!("at://f/{i}")),
            display_name: format!("{i}"),
            avatar_url: None,
        })
        .collect();
    s.handle_worker_response(WorkResponse::SavedFeeds(Ok(SavedFeedsBatch { pins })));
    let widths = vec![40; 1200];
    assert!(pills_fit(&s.saved_feeds, &widths));
    let row = s.pill_row(&widths, &vec![]);
    assert_eq!(row.pills.len(), 1200);
    assert_eq!(row.pills[1199].rect.x, 6 + 1199 * (12 + 40 + 12 + 6));
    assert!(!pills_fit(&s.saved_feeds, &vec![i32::MAX / 1000; 1200]));
}

#[test]
fn rows_are_measured_while_there_is_room() {
    let h = TextHeights { body_h: 60, quote_h: 0 };
    let mut list = PostList::new(vec![post("1"), post("2")], 0);
    assert!(list.row_room(h, true));
    assert!(!list.row_room(TextHeights { body_h: -1, quote_h: 0 }, true));
    let tall = TextHeights { body_h: 2_000_000_000, quote_h: 0 };
    assert!(list.row_room(tall, true));
    list.add_row(tall, true);
    assert!(!list.row_room(tall, true));
    assert!(list.row_room(h, true));
    list.add_row(h, true);
    assert!(!list.row_room(h, true));
}
