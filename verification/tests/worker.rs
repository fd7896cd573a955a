use bsky_vita::downloads::{address_error, body_of, file_answer, VideoFetch, VideoStep};
use bsky_vita::failures::failure_line;
use bsky_vita::model::{Author, GeneratorView, PostView};
use bsky_vita::posting::{PostStep, ThreadPoster};
use bsky_vita::records::{delete_record, PostRef};
use bsky_vita::requests::{
    ComposedImage, FeedSource, ReplyTarget, ThreadSegment, WorkRequest, WorkResponse,
};
use bsky_vita::saved_feeds::{
    feed_uris, pending_pins, saved_feeds_answer, Preference, SavedItem,
};
use bsky_vita::thread_tree::{thread_answer, ThreadNode, ThreadPost};
use bsky_vita::worker::{
    handle_request, handle_request_now, wrap_engagement_err, wrap_engagement_ok, FeedCall,
    ItemKind, Task, Worker,
};

const AT: &str = "2024-03-01T12:00:00.000Z";
const CID: &str = "bafyreigq4zsipbk5w3uqkbmh2w2633c5tcpwq5utwcwqoyhbemrmsnmwjm";
const CID2: &str = "bafyreidfayvfuwqa7qlnopdjiqrxzs6blmoeu4rujcjtnci5beludirz2a";
const BLOB: &str = "{\"$type\":\"blob\",\"ref\":{\"$link\":\"bafkreibme22gw2h7y2h7tg2fhqotaqjucnbc24deqo72b6mkl2egezxhvy\"},\"mimeType\":\"image/jpeg\",\"size\":5}";

fn me() -> Option<String> {
    Some("did:plc:me".to_string())
}

fn plan(req: WorkRequest) -> Task {
    handle_request(req, &me(), AT, "ux0:data/bsky")
}

fn member<'a>(json: &'a serde_json::Value, path: &[&str]) -> &'a str {
    let mut v = json;
    for p in path {
        v = &v[*p];
    }
    v.as_str().unwrap()
}

fn parsed(json: &str) -> serde_json::Value {
    serde_json::from_str(json).unwrap()
}

fn segment(text: &str, images: usize) -> ThreadSegment {
    ThreadSegment {
        text: text.to_string(),
        images: (0..images)
            .map(|i| ComposedImage {
                bytes: vec![i as u8],
                mime: "image/jpeg".to_string(),
                alt: format!("alt {i}"),
            })
            .collect(),
    }
}

#[test]
fn a_profile_is_asked_for_by_account() {
    let own = plan(WorkRequest::FetchProfile { actor: None });
    assert!(matches!(own, Task::Profile { actor } if actor == "did:plc:me"));
    let other = plan(WorkRequest::FetchProfile { actor: Some("alice.test".to_string()) });
    assert!(matches!(other, Task::Profile { actor } if actor == "alice.test"));
    let lone = handle_request(WorkRequest::FetchProfile { actor: None }, &None, AT, "d");
    assert!(matches!(
        lone,
        Task::Answer(WorkResponse::Profile(Err(e)))
            if e == "agent has no session DID — not logged in"
    ));
    let bad = plan(WorkRequest::FetchProfile { actor: Some("no \"handle\"".to_string()) });
    assert!(matches!(
        bad,
        Task::Answer(WorkResponse::Profile(Err(e)))
            if e == "invalid actor identifier \"no \\\"handle\\\"\": Invalid handle"
    ));
}

#[test]
fn feeds_are_asked_for_by_their_source() {
    let home = plan(WorkRequest::FetchFeed { source: FeedSource::Following, cursor: None });
    assert!(matches!(
        home,
        Task::Feed { source: FeedSource::Following, call: FeedCall::Timeline, limit: 50, .. }
    ));
    let posts = |cursor: Option<String>| {
        plan(WorkRequest::FetchFeed {
            source: FeedSource::AuthorPosts { actor: "did:plc:bob".to_string() },
            cursor,
        })
    };
    assert!(matches!(
        posts(None),
        Task::Feed { call: FeedCall::Author { filter, include_pins: true, .. }, .. }
            if filter == "posts_and_author_threads"
    ));
    assert!(matches!(
        posts(Some("c".to_string())),
        Task::Feed { call: FeedCall::Author { include_pins: false, .. }, cursor: Some(c), .. }
            if c == "c"
    ));
    let media = plan(WorkRequest::FetchFeed {
        source: FeedSource::AuthorMedia { actor: "did:plc:bob".to_string() },
        cursor: None,
    });
    assert!(matches!(
        media,
        Task::Feed { call: FeedCall::Author { filter, include_pins: false, .. }, .. }
            if filter == "posts_with_media"
    ));
    let bad = plan(WorkRequest::FetchFeed {
        source: FeedSource::AuthorLikes { actor: "did:nope".to_string() },
        cursor: None,
    });
    assert!(matches!(
        bad,
        Task::Answer(WorkResponse::FeedPage { source: FeedSource::AuthorLikes { .. }, batch: Err(e) })
            if e.starts_with("invalid actor \"did:nope\": ")
    ));
}

#[test]
fn what_an_account_made() {
    let feeds = plan(WorkRequest::FetchActorFeeds { actor: "bob.test".to_string(), cursor: None });
    assert!(matches!(feeds, Task::Items { kind: ItemKind::Feeds, limit: 50, .. }));
    let bad = plan(WorkRequest::FetchActorLists { actor: "..".to_string(), cursor: None });
    assert!(matches!(
        bad,
        Task::Answer(WorkResponse::ActorLists { actor, batch: Err(e) })
            if actor == ".." && e == "invalid actor: Invalid handle"
    ));
}

#[test]
fn other_requests() {
    assert!(matches!(
        plan(WorkRequest::FetchThread { uri: "at://t".to_string() }),
        Task::Thread { depth: 2, parent_height: 10, .. }
    ));
    assert!(matches!(
        plan(WorkRequest::SearchPosts { q: "cats".to_string(), cursor: None }),
        Task::SearchPosts { limit: 25, .. }
    ));
    assert!(matches!(
        plan(WorkRequest::GetConvoMessages { convo_id: "c".to_string(), cursor: None }),
        Task::Messages { limit: 50, .. }
    ));
    assert!(matches!(plan(WorkRequest::FetchSavedFeeds), Task::SavedFeeds));
}

#[test]
fn a_like_names_its_collection() {
    let t = plan(WorkRequest::CreateLike {
        post_uri: "at://p".to_string(),
        post_cid: CID.to_string(),
    });
    match t {
        Task::Like(n) => {
            assert_eq!(n.repo, "did:plc:me");
            assert_eq!(n.collection, "app.bsky.feed.like");
            let v = parsed(&n.json);
            assert_eq!(member(&v, &["$type"]), "app.bsky.feed.like");
            assert_eq!(member(&v, &["subject", "uri"]), "at://p");
            assert_eq!(member(&v, &["subject", "cid"]), CID);
            assert_eq!(member(&v, &["createdAt"]), AT);
        }
        _ => panic!("a like was expected"),
    }
}

#[test]
fn a_repost_and_a_follow_name_theirs() {
    match plan(WorkRequest::CreateRepost {
        post_uri: "at://p".to_string(),
        post_cid: CID.to_string(),
    }) {
        Task::Repost(n) => {
            let v = parsed(&n.json);
            assert_eq!(member(&v, &["$type"]), "app.bsky.feed.repost");
            assert_eq!(member(&v, &["subject", "cid"]), CID);
        }
        _ => panic!("a repost was expected"),
    }
    match plan(WorkRequest::CreateFollow { actor_did: "did:plc:bob".to_string() }) {
        Task::Follow(n) => {
            assert_eq!(n.collection, "app.bsky.graph.follow");
            let v = parsed(&n.json);
            assert_eq!(member(&v, &["$type"]), "app.bsky.graph.follow");
            assert_eq!(member(&v, &["subject"]), "did:plc:bob");
        }
        _ => panic!("a follow was expected"),
    }
}

#[test]
fn marks_that_cannot_be_made() {
    let like = |cid: &str, session: &Option<String>| {
        handle_request(
            WorkRequest::CreateLike { post_uri: "at://p".to_string(), post_cid: cid.to_string() },
            session,
            AT,
            "d",
        )
    };
    assert!(matches!(
        like(CID, &None),
        Task::Answer(WorkResponse::LikeChanged(Err(e))) if e == "no session DID"
    ));
    assert!(matches!(
        like(CID, &Some("?".to_string())),
        Task::Answer(WorkResponse::LikeChanged(Err(e))) if e == "DID parse: Invalid handle"
    ));
    assert!(matches!(
        like("nope", &me()),
        Task::Answer(WorkResponse::LikeChanged(Err(e))) if e.starts_with("cid parse: ")
    ));
    assert!(matches!(
        plan(WorkRequest::CreateFollow { actor_did: "bob".to_string() }),
        Task::Answer(WorkResponse::FollowChanged(Err(e))) if e.starts_with("actor DID parse: ")
    ));
    let late = handle_request(
        WorkRequest::CreateFollow { actor_did: "did:plc:bob".to_string() },
        &me(),
        "yesterday",
        "d",
    );
    assert!(matches!(
        late,
        Task::Answer(WorkResponse::FollowChanged(Err(e))) if e.starts_with("serialize: ")
    ));
}

#[test]
fn marks_that_are_taken_back() {
    match plan(WorkRequest::DeleteRepost { rkey: "3kabc".to_string() }) {
        Task::Unrepost(o) => {
            assert_eq!(o.repo, "did:plc:me");
            assert_eq!(o.collection, "app.bsky.feed.repost");
            assert_eq!(o.rkey, "3kabc");
        }
        _ => panic!("a removal was expected"),
    }
    assert!(matches!(
        plan(WorkRequest::DeleteLike { rkey: "..".to_string() }),
        Task::Answer(WorkResponse::LikeChanged(Err(e))) if e == "rkey: Disallowed rkey"
    ));
    assert!(matches!(
        plan(WorkRequest::DeleteFollow { rkey: "a b".to_string() }),
        Task::Answer(WorkResponse::FollowChanged(Err(e))) if e == "rkey: Invalid rkey"
    ));
    assert!(matches!(
        plan(WorkRequest::DeleteLike { rkey: "3k".to_string() }),
        Task::Unlike(o) if o.collection == "app.bsky.feed.like"
    ));
    assert!(matches!(
        plan(WorkRequest::DeleteFollow { rkey: "3k".to_string() }),
        Task::Unfollow(o) if o.collection == "app.bsky.graph.follow"
    ));
}

#[test]
fn answers_to_marks() {
    assert!(matches!(
        wrap_engagement_ok(true, None),
        WorkResponse::LikeChanged(Ok(None))
    ));
    assert!(matches!(
        wrap_engagement_err(false, "x".to_string()),
        WorkResponse::RepostChanged(Err(e)) if e == "x"
    ));
}

#[test]
fn members_of_a_conversation() {
    let ok = plan(WorkRequest::GetConvoForMembers { members: vec!["did:plc:bob".to_string()] });
    assert!(matches!(ok, Task::Members { members } if members == vec!["did:plc:bob"]));
    let bad = plan(WorkRequest::GetConvoForMembers {
        members: vec!["did:plc:bob".to_string(), "bob".to_string(), "eve".to_string()],
    });
    assert!(matches!(
        bad,
        Task::Answer(WorkResponse::ConvoForMembers(Err(e)))
            if e.starts_with("member DID \"bob\": ")
    ));
}

#[test]
fn a_request_dealt_with_now_bears_a_time() {
    let t = handle_request_now(
        WorkRequest::CreateFollow { actor_did: "did:plc:bob".to_string() },
        &me(),
        "d",
    );
    match t {
        Task::Follow(n) => assert!(member(&parsed(&n.json), &["createdAt"]).len() >= 20),
        _ => panic!("a follow was expected"),
    }
}

#[test]
fn a_thread_is_posted_as_one_chain() {
    let req = WorkRequest::CreateThread {
        segments: vec![segment("one", 1), segment("two", 0), segment("three", 0)],
        reply_to: None,
    };
    let mut p = match plan(req) {
        Task::Post(p) => p,
        _ => panic!("a thread was expected"),
    };
    assert!(matches!(p.next(AT), PostStep::Upload));
    assert_eq!(p.picture(), &vec![0u8]);
    assert!(p.picture_uploaded(Ok(BLOB.to_string())).is_none());
    let first = match p.next(AT) {
        PostStep::Write(n) => n,
        _ => panic!("a post was expected"),
    };
    assert_eq!(first.collection, "app.bsky.feed.post");
    let v = parsed(&first.json);
    assert_eq!(member(&v, &["$type"]), "app.bsky.feed.post");
    assert_eq!(member(&v, &["text"]), "one");
    assert_eq!(member(&v, &["embed", "$type"]), "app.bsky.embed.images");
    assert_eq!(member(&v["embed"]["images"][0], &["alt"]), "alt 0");
    assert!(v.get("reply").is_none());
    let made = |uri: &str, cid: &str| PostRef { uri: uri.to_string(), cid: cid.to_string() };
    assert!(p.written(Ok(made("at://1", CID))).is_none());
    match p.next(AT) {
        PostStep::Write(n) => {
            let v = parsed(&n.json);
            assert_eq!(member(&v, &["reply", "root", "uri"]), "at://1");
            assert_eq!(member(&v, &["reply", "parent", "uri"]), "at://1");
        }
        _ => panic!("a post was expected"),
    }
    p.written(Ok(made("at://2", CID2)));
    match p.next_now() {
        PostStep::Write(n) => {
            let v = parsed(&n.json);
            assert_eq!(member(&v, &["reply", "root", "uri"]), "at://1");
            assert_eq!(member(&v, &["reply", "root", "cid"]), CID);
            assert_eq!(member(&v, &["reply", "parent", "uri"]), "at://2");
            assert_eq!(member(&v, &["reply", "parent", "cid"]), CID2);
        }
        _ => panic!("a post was expected"),
    }
    p.written(Ok(made("at://3", CID)));
    assert!(matches!(
        p.next(AT),
        PostStep::Answer(WorkResponse::PostCreated(Ok(u))) if u == "at://1"
    ));
}

#[test]
fn a_thread_below_another_post() {
    let reply_to = Some(ReplyTarget {
        parent_uri: "at://parent".to_string(),
        parent_cid: CID2.to_string(),
        root_uri: "at://root".to_string(),
        root_cid: CID.to_string(),
    });
    let mut p = match ThreadPoster::start(vec![segment("a", 0), segment("b", 0)], reply_to, &me()) {
        Ok(p) => p,
        Err(_) => panic!("a thread was expected"),
    };
    match p.next(AT) {
        PostStep::Write(n) => {
            let v = parsed(&n.json);
            assert_eq!(member(&v, &["reply", "root", "uri"]), "at://root");
            assert_eq!(member(&v, &["reply", "parent", "uri"]), "at://parent");
            assert_eq!(member(&v, &["reply", "parent", "cid"]), CID2);
        }
        _ => panic!("a post was expected"),
    }
    p.written(Ok(PostRef { uri: "at://1".to_string(), cid: CID.to_string() }));
    let place = p.place().unwrap();
    assert_eq!((place.0.uri.as_str(), place.1.uri.as_str()), ("at://root", "at://1"));
    assert!(matches!(
        p.written(Err("offline".to_string())),
        Some(WorkResponse::PostCreated(Err(e))) if e == "posted 1/2, then failed: offline"
    ));
}

#[test]
fn threads_that_cannot_be_begun() {
    let begin = |segments: Vec<ThreadSegment>, root: &str, parent: &str, session: &Option<String>| {
        let reply_to = Some(ReplyTarget {
            parent_uri: "at://p".to_string(),
            parent_cid: parent.to_string(),
            root_uri: "at://r".to_string(),
            root_cid: root.to_string(),
        });
        match ThreadPoster::start(segments, reply_to, session) {
            Err(WorkResponse::PostCreated(Err(e))) => e,
            _ => panic!("an error was expected"),
        }
    };
    assert_eq!(begin(vec![], CID, CID, &me()), "empty thread");
    assert_eq!(begin(vec![segment("a", 0)], CID, CID, &None), "not logged in");
    assert!(begin(vec![segment("a", 0)], CID, CID, &Some("x".to_string())).starts_with("DID parse: "));
    assert!(begin(vec![segment("a", 0)], "r", "p", &me()).starts_with("root cid: "));
    assert!(begin(vec![segment("a", 0)], CID, "p", &me()).starts_with("parent cid: "));
}

#[test]
fn a_picture_that_cannot_be_uploaded() {
    let mut p = match ThreadPoster::start(vec![segment("a", 2)], None, &me()) {
        Ok(p) => p,
        Err(_) => panic!("a thread was expected"),
    };
    assert!(matches!(
        p.picture_uploaded(Err("too big".to_string())),
        Some(WorkResponse::PostCreated(Err(e))) if e == "uploadBlob: too big"
    ));
    p.picture_uploaded(Ok("{\"odd\":true}".to_string()));
    p.picture_uploaded(Ok(BLOB.to_string()));
    assert!(matches!(
        p.next(AT),
        PostStep::Answer(WorkResponse::PostCreated(Err(e))) if e.starts_with("serialize: ")
    ));
}

#[test]
fn two_pictures_in_one_post() {
    let mut p = match ThreadPoster::start(vec![segment("a", 2)], None, &me()) {
        Ok(p) => p,
        Err(_) => panic!("a thread was expected"),
    };
    p.picture_uploaded(Ok(BLOB.to_string()));
    p.picture_uploaded(Ok(BLOB.to_string()));
    match p.next(AT) {
        PostStep::Write(n) => {
            let v = parsed(&n.json);
            assert_eq!(v["embed"]["images"].as_array().unwrap().len(), 2);
            assert_eq!(member(&v["embed"]["images"][1], &["alt"]), "alt 1");
        }
        _ => panic!("a post was expected"),
    }
}

#[test]
fn the_home_timeline_comes_first() {
    let item = |pinned: bool, kind: &str, value: &str| SavedItem {
        pinned,
        kind: kind.to_string(),
        value: value.to_string(),
    };
    let prefs = vec![
        Preference::SavedFeedsV1(vec!["at://old".to_string()]),
        Preference::Other,
        Preference::SavedFeedsV2(vec![
            item(true, "feed", "at://did:x/app.bsky.feed.generator/cats"),
            item(true, "timeline", "following"),
            item(false, "feed", "at://unpinned"),
            item(true, "list", "at://list"),
            item(true, "feed", "at://did:x/app.bsky.feed.generator/dogs"),
        ]),
    ];
    let uris = feed_uris(&pending_pins(&prefs));
    assert_eq!(
        uris,
        vec![
            "at://did:x/app.bsky.feed.generator/cats".to_string(),
            "at://did:x/app.bsky.feed.generator/dogs".to_string()
        ]
    );
    let feeds = vec![GeneratorView {
        uri: "at://did:x/app.bsky.feed.generator/cats".to_string(),
        display_name: "Cats!".to_string(),
        avatar: Some("a".to_string()),
        creator_handle: "x".to_string(),
        like_count: None,
    }];
    match saved_feeds_answer(Ok(prefs), Ok(feeds)) {
        WorkResponse::SavedFeeds(Ok(b)) => {
            let names: Vec<&str> = b.pins.iter().map(|p| p.display_name.as_str()).collect();
            assert_eq!(names, vec!["Following", "Cats!", "dogs"]);
            assert!(matches!(b.pins[0].source, FeedSource::Following));
            assert_eq!(b.pins[1].avatar_url, Some("a".to_string()));
            assert_eq!(b.pins[2].avatar_url, None);
        }
        _ => panic!("feeds were expected"),
    }
}

#[test]
fn saved_feeds_in_their_first_form() {
    let prefs = vec![
        Preference::SavedFeedsV1(vec!["at://a/x".to_string()]),
        Preference::SavedFeedsV1(vec!["at://a/y".to_string(), "at://a/z".to_string()]),
    ];
    match saved_feeds_answer(Ok(prefs), Err("offline".to_string())) {
        WorkResponse::SavedFeeds(Ok(b)) => {
            let names: Vec<&str> = b.pins.iter().map(|p| p.display_name.as_str()).collect();
            assert_eq!(names, vec!["Following", "y", "z"]);
        }
        _ => panic!("feeds were expected"),
    }
    assert!(matches!(
        saved_feeds_answer(Err("offline".to_string()), Ok(vec![])),
        WorkResponse::SavedFeeds(Err(e)) if e == "offline"
    ));
}

fn post(id: &str) -> PostView {
    PostView {
        uri: id.to_string(),
        cid: id.to_string(),
        author: Author {
            did: "d".to_string(),
            handle: "h".to_string(),
            display_name: None,
            avatar: None,
        },
        record: "{}".to_string(),
        embed: None,
        like_count: None,
        repost_count: None,
        reply_count: None,
        viewer: None,
    }
}

fn node(id: &str, parent: Option<ThreadNode>) -> ThreadNode {
    ThreadNode::Post(Box::new(ThreadPost { post: post(id), parent, replies: None }))
}

#[test]
fn a_thread_is_flattened() {
    let above = node("up", Some(node("root", Some(ThreadNode::NotFound))));
    let tree = ThreadNode::Post(Box::new(ThreadPost {
        post: post("me"),
        parent: Some(above),
        replies: Some(vec![node("r1", None), ThreadNode::Blocked, node("r2", None)]),
    }));
    match thread_answer(Ok(tree)) {
        WorkResponse::Thread(Ok(b)) => {
            let ids = |v: &Vec<PostView>| v.iter().map(|p| p.uri.clone()).collect::<Vec<_>>();
            assert_eq!(ids(&b.parents), vec!["root", "up"]);
            assert_eq!(b.main.uri, "me");
            assert_eq!(ids(&b.replies), vec!["r1", "r2"]);
        }
        _ => panic!("a thread was expected"),
    }
}

#[test]
fn threads_that_cannot_be_shown() {
    let told = |r: Result<ThreadNode, String>| match thread_answer(r) {
        WorkResponse::Thread(Err(e)) => e,
        _ => panic!("an error was expected"),
    };
    assert_eq!(told(Ok(ThreadNode::NotFound)), "post not found");
    assert_eq!(told(Ok(ThreadNode::Blocked)), "post is blocked");
    assert_eq!(told(Ok(ThreadNode::Unknown)), "unsupported thread variant");
    assert_eq!(told(Err("offline".to_string())), "offline");
}

#[test]
fn addresses_of_pictures() {
    assert_eq!(address_error("https://cdn.bsky.app/x"), None);
    let e = address_error("http://a b").unwrap();
    assert!(e.starts_with("invalid request URI: "));
    assert!(matches!(
        plan(WorkRequest::FetchImage { url: "http://a b".to_string() }),
        Task::Answer(WorkResponse::Image { url, bytes: Err(m) }) if url == "http://a b" && m == e
    ));
    assert!(matches!(
        plan(WorkRequest::FetchImage { url: "https://x/y".to_string() }),
        Task::Image { url } if url == "https://x/y"
    ));
}

#[test]
fn replies_to_a_download() {
    assert_eq!(body_of(200, vec![1]), Ok(vec![1]));
    assert_eq!(body_of(299, vec![1]), Ok(vec![1]));
    assert_eq!(body_of(404, vec![1]), Err("HTTP 404".to_string()));
    assert_eq!(body_of(199, vec![]), Err("HTTP 199".to_string()));
    assert!(matches!(
        file_answer("p".to_string(), Err("gone".to_string())),
        WorkResponse::Image { bytes: Err(e), .. } if e == "read p: gone"
    ));
}

#[test]
fn a_video_is_kept_in_its_file() {
    let v = match plan(WorkRequest::FetchVideoBlob {
        did: "did:plc:bob".to_string(),
        cid: "bafy".to_string(),
    }) {
        Task::Video(v) => v,
        _ => panic!("a video was expected"),
    };
    assert_eq!(v.dir, "ux0:data/bsky/video");
    assert_eq!(v.path, "ux0:data/bsky/video/bafy.mp4");
    assert!(matches!(v.start(None), VideoStep::Resolve));
    assert!(matches!(v.start(Some(0)), VideoStep::Resolve));
    assert!(matches!(
        v.start(Some(9)),
        VideoStep::Answer(WorkResponse::VideoBlob { result: Ok(p), .. }) if p == v.path
    ));
    assert!(matches!(
        v.resolved(Ok("https://pds.example//".to_string())),
        VideoStep::Fetch { url } if url
            == "https://pds.example/xrpc/com.atproto.sync.getBlob?did=did:plc:bob&cid=bafy"
    ));
    assert!(matches!(v.fetched(Ok(vec![7])), VideoStep::MakeDir { bytes } if bytes == vec![7]));
    assert!(matches!(
        v.dir_made(Ok(()), vec![7]),
        VideoStep::Write { bytes } if bytes == vec![7]
    ));
    assert!(matches!(
        v.written(Ok(())),
        VideoStep::Answer(WorkResponse::VideoBlob { result: Ok(_), .. })
    ));
}

#[test]
fn a_video_that_cannot_be_had() {
    let v = VideoFetch::new("d", "did:plc:bob".to_string(), "c".to_string());
    let told = |step: VideoStep| match step {
        VideoStep::Answer(WorkResponse::VideoBlob { cid, result: Err(e) }) => {
            assert_eq!(cid, "c");
            e
        }
        _ => panic!("an error was expected"),
    };
    assert_eq!(told(v.resolved(Err("x".to_string()))), "resolve pds: x");
    assert_eq!(told(v.fetched(Err("HTTP 500".to_string()))), "HTTP 500");
    assert_eq!(told(v.dir_made(Err("x".to_string()), vec![])), "mkdir d/video: x");
    assert_eq!(told(v.written(Err("x".to_string()))), "write d/video/c.mp4: x");
}

#[test]
fn requests_and_answers_cross_the_channels() {
    let (worker, requests, responses) = Worker::open();
    assert!(worker.try_recv().is_none());
    worker.send(WorkRequest::FetchSavedFeeds);
    assert!(matches!(requests.try_recv(), Ok(WorkRequest::FetchSavedFeeds)));
    responses.send(WorkResponse::ConvoRead(Ok(()))).unwrap();
    assert!(matches!(worker.try_recv(), Some(WorkResponse::ConvoRead(Ok(())))));
    drop(responses);
    assert!(worker.try_recv().is_none());
    drop(requests);
    worker.send(WorkRequest::FetchSavedFeeds);
}

#[test]
fn records_are_removed_by_collection_and_key() {
    let gone = delete_record(&me(), "app.bsky.feed.like", "3k").unwrap();
    assert_eq!((gone.collection.as_str(), gone.rkey.as_str()), ("app.bsky.feed.like", "3k"));
    let told = |collection: &str, rkey: &str| delete_record(&me(), collection, rkey).unwrap_err();
    assert_eq!(told("app.like", "3k"), "nsid: Invalid NSID");
    assert_eq!(told("app.bsky.feed.like-it", "3k"), "nsid: Invalid NSID");
    assert_eq!(told(&"a.".repeat(200), "3k"), "nsid: NSID too long");
    assert_eq!(told("app.bsky.feed.like", ".."), "rkey: Disallowed rkey");
    assert_eq!(told("app.bsky.feed.like", "a/b"), "rkey: Invalid rkey");
}

#[test]
fn failures_in_the_log() {
    let e = || "offline".to_string();
    let id = || "x".to_string();
    let line = |resp: WorkResponse| failure_line(&resp).unwrap();
    for (resp, words) in [
        (WorkResponse::Profile(Err(e())), "worker: Profile err: offline"),
        (WorkResponse::SavedFeeds(Err(e())), "worker: SavedFeeds err: offline"),
        (WorkResponse::Image { url: id(), bytes: Err(e()) }, "worker: Image(x) err: offline"),
        (WorkResponse::PostCreated(Err(e())), "worker: PostCreated err: offline"),
        (WorkResponse::LikeChanged(Err(e())), "worker: LikeChanged err: offline"),
        (WorkResponse::RepostChanged(Err(e())), "worker: RepostChanged err: offline"),
        (WorkResponse::FollowChanged(Err(e())), "worker: FollowChanged err: offline"),
        (WorkResponse::Thread(Err(e())), "worker: Thread err: offline"),
        (WorkResponse::Notifications(Err(e())), "worker: Notifications err: offline"),
        (WorkResponse::SearchActors(Err(e())), "worker: SearchActors err: offline"),
        (WorkResponse::SearchPosts(Err(e())), "worker: SearchPosts err: offline"),
        (
            WorkResponse::VideoBlob { cid: id(), result: Err(e()) },
            "worker: VideoBlob(x) err: offline",
        ),
        (
            WorkResponse::ActorFeeds { actor: id(), batch: Err(e()) },
            "worker: ActorFeeds(x) err: offline",
        ),
        (
            WorkResponse::ActorLists { actor: id(), batch: Err(e()) },
            "worker: ActorLists(x) err: offline",
        ),
        (
            WorkResponse::ActorStarterPacks { actor: id(), batch: Err(e()) },
            "worker: ActorStarterPacks(x) err: offline",
        ),
        (WorkResponse::Convos(Err(e())), "worker: Convos err: offline"),
        (
            WorkResponse::ConvoMessages { convo_id: id(), batch: Err(e()) },
            "worker: ConvoMessages(x) err: offline",
        ),
        (
            WorkResponse::MessageSent { convo_id: id(), result: Err(e()) },
            "worker: MessageSent(x) err: offline",
        ),
        (WorkResponse::ConvoForMembers(Err(e())), "worker: ConvoForMembers err: offline"),
        (WorkResponse::ConvoRead(Err(e())), "worker: ConvoRead err: offline"),
    ] {
        assert_eq!(line(resp), words);
    }
    for source in [
        FeedSource::Following,
        FeedSource::Feed("at://f/\"1\"".to_string()),
        FeedSource::AuthorPosts { actor: id() },
        FeedSource::AuthorReplies { actor: id() },
        FeedSource::AuthorMedia { actor: id() },
        FeedSource::AuthorLikes { actor: id() },
    ] {
        let words = format!("worker: FeedPage({source:?}) err: offline");
        assert_eq!(line(WorkResponse::FeedPage { source, batch: Err(e()) }), words);
    }
    assert!(failure_line(&WorkResponse::ConvoRead(Ok(()))).is_none());
    assert!(failure_line(&WorkResponse::LikeChanged(Ok(None))).is_none());
}
