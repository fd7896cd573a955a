use bsky_vita::chat::{
    convos_answer, map_chat_err, members_answer, messages_answer, read_answer, sent_answer,
    RawMessage,
};
use bsky_vita::conversation::{
    bubble_text, build_title, measure_msg, member_name, plan_bubble, short_did, BubbleTone,
    ConversationScreen, ConvoBody, Delivery, ImeEvent, POLL_INTERVAL_NS,
};
use bsky_vita::conversations::{
    last_message_snippet, primary_other, ConversationListScreen, ConvosBody,
};
use bsky_vita::model::{
    Author, ConvoView, DeletedMessageView, LastMessage, MessageView, Notification,
};
use bsky_vita::notifications::{
    headline, notif_tap_target, snippet, NotifTapAction, NotificationsScreen,
};
use bsky_vita::requests::{
    ConvosBatch, MessageItem, MessagesBatch, NotificationBatch, WorkRequest, WorkResponse,
};
use bsky_vita::screen::{NextScreen, ScreenAction};
use bsky_vita::timeline::FeedBody;
use bsky_vita::widget::{PadFrame, TouchPoint};

fn author(handle: &str) -> Author {
    Author {
        did: format!("did:plc:{handle}"),
        handle: handle.to_string(),
        display_name: None,
        avatar: None,
    }
}

fn convo(members: &[&str]) -> ConvoView {
    ConvoView {
        id: "c1".to_string(),
        members: members.iter().map(|m| author(m)).collect(),
        unread_count: 0,
        last_message: None,
    }
}

fn message(id: &str, from: &str, text: &str) -> MessageView {
    MessageView {
        id: id.to_string(),
        sender_did: format!("did:plc:{from}"),
        text: text.to_string(),
    }
}

fn item(id: &str, from: &str, text: &str) -> MessageItem {
    MessageItem::Message(message(id, from, text))
}

fn page(items: Vec<MessageItem>, cursor: Option<&str>) -> WorkResponse {
    WorkResponse::ConvoMessages {
        convo_id: "c1".to_string(),
        batch: Ok(MessagesBatch { messages: items, cursor: cursor.map(|c| c.to_string()) }),
    }
}

fn touch(x: i32, y: i32) -> Vec<TouchPoint> {
    vec![TouchPoint { x, y }]
}

fn open_convo() -> ConversationScreen {
    let mut s = ConversationScreen::new("did:plc:me".to_string(), convo(&["me", "bob"]), 0);
    assert!(matches!(
        s.open_fetch(true),
        Some(WorkRequest::GetConvoMessages { cursor: None, .. })
    ));
    s.handle_worker_response(
        page(vec![item("1", "bob", "hi"), item("2", "me", "hey")], Some("old")),
        0,
        0,
    );
    s
}

fn type_and_send(s: &mut ConversationScreen, text: &str) -> Option<WorkRequest> {
    assert!(s.take_ime(ImeEvent::Finished(text.to_string())));
    s.compose_bar(&touch(900, 510), false, true);
    s.compose_bar(&vec![], false, true).unwrap().request
}

fn notification(reason: &str) -> Notification {
    Notification {
        uri: "at://n/1".to_string(),
        author: author("bob"),
        reason: reason.to_string(),
        reason_subject: Some("at://mine/1".to_string()),
        record: "{\"createdAt\":\"2024-03-01T12:00:00.000Z\",\"text\":\"hello you\"}".to_string(),
        is_read: false,
    }
}

#[test]
fn notifications_in_words() {
    for (reason, words) in [
        ("like", "bob liked your post"),
        ("repost", "bob reposted your post"),
        ("follow", "bob followed you"),
        ("mention", "bob mentioned you"),
        ("reply", "bob replied to your post"),
        ("quote", "bob quoted your post"),
        ("starterpack-joined", "bob (starterpack-joined)"),
    ] {
        assert_eq!(headline(&notification(reason)), words);
    }
}

#[test]
fn where_notifications_lead() {
    let to = |reason: &str| notif_tap_target(&notification(reason));
    assert!(matches!(to("like"), NotifTapAction::OpenThread(u) if u == "at://mine/1"));
    assert!(matches!(to("reply"), NotifTapAction::OpenThread(u) if u == "at://n/1"));
    assert!(matches!(to("follow"), NotifTapAction::OpenProfile(h) if h == "bob"));
    let mut lone = notification("like");
    lone.reason_subject = None;
    assert!(matches!(notif_tap_target(&lone), NotifTapAction::OpenProfile(h) if h == "bob"));
}

#[test]
fn notification_snippets() {
    assert_eq!(snippet(&notification("reply")), Some("hello you".to_string()));
    assert_eq!(snippet(&notification("like")), None);
    let mut odd = notification("reply");
    odd.record = "{}".to_string();
    assert_eq!(snippet(&odd), None);
}

#[test]
fn notifications_are_asked_for_and_marked_once() {
    let mut s = NotificationsScreen::new();
    let r = s.begin_frame(true, "2024-03-01T12:00:00.000Z".to_string());
    assert_eq!(r.len(), 2);
    assert!(matches!(&r[0], WorkRequest::FetchNotifications { cursor: None }));
    assert!(matches!(
        &r[1],
        WorkRequest::MarkSeen { seen_at } if seen_at == "2024-03-01T12:00:00.000Z"
    ));
    assert!(s.begin_frame(true, String::new()).is_empty());
    let mut t = NotificationsScreen::new();
    let r = t.frame_start_now(&PadFrame::default(), 0, true);
    assert!(matches!(&r.requests[1], WorkRequest::MarkSeen { seen_at } if seen_at.len() >= 20));
}

#[test]
fn a_notification_is_opened() {
    let mut s = NotificationsScreen::new();
    s.begin_frame(true, String::new());
    assert!(matches!(s.body(), FeedBody::Loading));
    s.handle_worker_response(WorkResponse::Notifications(Ok(NotificationBatch {
        notifications: vec![notification("like"), notification("reply")],
        cursor: None,
    })));
    s.move_selection(&PadFrame::default());
    let open = s.tap(&touch(400, 40 + 68 + 10), 0);
    assert!(matches!(open, ScreenAction::Push(NextScreen::Thread { uri }) if uri == "at://n/1"));
    let face = s.tap(&touch(20, 50), 0);
    assert!(matches!(
        face,
        ScreenAction::Push(NextScreen::Profile { actor: Some(a) }) if a == "bob"
    ));
}

#[test]
fn the_answer_to_the_mark_adds_nothing() {
    let mut s = NotificationsScreen::new();
    s.begin_frame(true, String::new());
    s.handle_worker_response(WorkResponse::Notifications(Ok(NotificationBatch {
        notifications: vec![notification("like")],
        cursor: Some("next".to_string()),
    })));
    s.handle_worker_response(bsky_vita::worker::seen_answer());
    assert!(matches!(s.body(), FeedBody::Posts));
}

#[test]
fn titles_of_conversations() {
    assert_eq!(build_title(&convo(&["me", "bob"]).members, "did:plc:me"), "bob");
    assert_eq!(build_title(&convo(&["me", "bob", "eve", "al"]).members, "did:plc:me"), "bob +2");
    assert_eq!(build_title(&convo(&["me"]).members, "did:plc:me"), "(you)");
}

#[test]
fn names_of_members() {
    let c = convo(&["me", "bob"]);
    assert_eq!(member_name(&c.members, "did:plc:bob"), "bob");
    assert_eq!(member_name(&c.members, "did:plc:stranger99"), "…ranger99");
    assert_eq!(short_did("did:plc:a"), "did:plc:a");
}

#[test]
fn last_messages() {
    let mut c = convo(&["me", "bob"]);
    assert_eq!(last_message_snippet(&c), "");
    c.last_message = Some(LastMessage::Message(message("1", "bob", &"x".repeat(100))));
    assert_eq!(last_message_snippet(&c), "x".repeat(80));
    c.last_message = Some(LastMessage::Deleted(DeletedMessageView {
        id: "1".to_string(),
        sender_did: "did:plc:bob".to_string(),
    }));
    assert_eq!(last_message_snippet(&c), "(message deleted)");
}

#[test]
fn the_list_of_conversations_opens_one() {
    let mut s = ConversationListScreen::new("did:plc:me".to_string());
    assert!(matches!(s.begin_frame(true), Some(WorkRequest::FetchConvos { cursor: None })));
    s.handle_worker_response(convos_answer(Ok(ConvosBatch {
        convos: vec![convo(&["me", "bob"])],
        cursor: None,
    })));
    s.move_selection(&PadFrame::default());
    assert!(matches!(s.body(), ConvosBody::Rows));
    assert!(matches!(
        s.tap(&touch(400, 60), 0),
        ScreenAction::Push(NextScreen::Conversation { convo })
            if convo.id == "c1" && convo.members.len() == 2
    ));
    assert!(matches!(
        s.tap(&touch(20, 60), 0),
        ScreenAction::Push(NextScreen::Profile { actor: Some(h) }) if h == "bob"
    ));
    assert!(matches!(s.tap(&touch(400, 500), 0), ScreenAction::Stay));
}

#[test]
fn a_password_without_chat_access_is_told_apart() {
    let mut s = ConversationListScreen::new("did:plc:me".to_string());
    s.begin_frame(true);
    s.handle_worker_response(convos_answer(Err("Bad token scope".to_string())));
    assert!(matches!(
        s.body(),
        ConvosBody::Problem { title, .. } if title == "Direct messages unavailable"
    ));
    let mut t = ConversationListScreen::new("did:plc:me".to_string());
    t.begin_frame(true);
    t.handle_worker_response(convos_answer(Err("offline".to_string())));
    assert!(matches!(
        t.body(),
        ConvosBody::Problem { detail, .. } if detail == "offline"
    ));
}

#[test]
fn chat_errors_are_marked() {
    assert_eq!(map_chat_err("Bad Token Scope".to_string()), "DM_SCOPE: Bad Token Scope");
    assert_eq!(map_chat_err("InvalidToken".to_string()), "DM_SCOPE: InvalidToken");
    assert_eq!(map_chat_err("bad token".to_string()), "DM_SCOPE: bad token");
    assert_eq!(map_chat_err("offline".to_string()), "offline");
    assert!(matches!(
        read_answer(Err("x".to_string())),
        WorkResponse::ConvoRead(Err(e)) if e == "x"
    ));
    assert!(matches!(
        members_answer(Err("scope".to_string())),
        WorkResponse::ConvoForMembers(Err(e)) if e == "DM_SCOPE: scope"
    ));
    assert!(matches!(
        sent_answer("c".to_string(), Err("scope".to_string())),
        WorkResponse::MessageSent { result: Err(e), .. } if e == "DM_SCOPE: scope"
    ));
}

#[test]
fn messages_are_put_in_order() {
    let raw = vec![
        RawMessage::Message(message("3", "bob", "c")),
        RawMessage::Unknown,
        RawMessage::Deleted(DeletedMessageView {
            id: "2".to_string(),
            sender_did: "did:plc:bob".to_string(),
        }),
        RawMessage::Message(message("1", "bob", "a")),
    ];
    match messages_answer("c1".to_string(), Ok((raw, Some("older".to_string())))) {
        WorkResponse::ConvoMessages { convo_id, batch: Ok(b) } => {
            assert_eq!(convo_id, "c1");
            assert_eq!(b.cursor, Some("older".to_string()));
            assert_eq!(b.messages.len(), 3);
            assert!(matches!(&b.messages[0], MessageItem::Message(m) if m.id == "1"));
            assert!(matches!(&b.messages[1], MessageItem::Deleted(d) if d.id == "2"));
            assert!(matches!(&b.messages[2], MessageItem::Message(m) if m.id == "3"));
        }
        _ => panic!("a page was expected"),
    }
}

#[test]
fn a_conversation_opens_at_its_end_and_is_marked_as_read() {
    let mut s = open_convo();
    assert!(matches!(s.body(), ConvoBody::Messages));
    assert!(s.settle_scroll().to_bottom);
    let r = s.fetch_step(false, 0, 5000, true);
    assert_eq!(r.len(), 1);
    assert!(matches!(&r[0], WorkRequest::MarkConvoRead { convo_id } if convo_id == "c1"));
}

#[test]
fn the_newest_page_is_looked_at_again() {
    let mut s = open_convo();
    s.fetch_step(false, 0, 5000, true);
    assert!(s.fetch_step(false, POLL_INTERVAL_NS - 1, 5000, true).is_empty());
    assert!(s.fetch_step(true, POLL_INTERVAL_NS, 5000, true).is_empty());
    let r = s.fetch_step(false, POLL_INTERVAL_NS, 5000, true);
    assert!(matches!(&r[0], WorkRequest::GetConvoMessages { cursor: None, .. }));
    s.handle_worker_response(
        page(vec![item("2", "me", "hey"), item("3", "bob", "new")], None),
        0,
        POLL_INTERVAL_NS,
    );
    assert_eq!(s.store.messages.len(), 3);
}

#[test]
fn older_messages_go_on_top() {
    let mut s = open_convo();
    let r = s.fetch_step(false, 0, 0, true);
    assert!(matches!(
        &r[0],
        WorkRequest::GetConvoMessages { cursor: Some(c), .. } if c == "old"
    ));
    s.handle_worker_response(page(vec![item("0", "bob", "first")], None), 0, 1);
    assert_eq!(s.store.messages[0].text, "first");
    assert_eq!(s.store.messages.len(), 3);
    assert!(s.reached_top);
}

#[test]
fn a_sent_message_is_shown_at_once_and_not_twice() {
    let mut s = open_convo();
    let r = type_and_send(&mut s, "yo");
    assert!(matches!(r, Some(WorkRequest::SendMessage { text, .. }) if text == "yo"));
    assert_eq!(s.store.messages.len(), 3);
    assert!(matches!(s.store.messages[2].delivery, Delivery::Sending));
    s.handle_worker_response(sent_answer("c1".to_string(), Ok(message("9", "me", "yo"))), 0, 0);
    assert_eq!(s.store.messages.len(), 3);
    assert!(matches!(s.store.messages[2].delivery, Delivery::Sent));
    s.fetch_step(false, POLL_INTERVAL_NS, 5000, true);
    s.handle_worker_response(page(vec![item("9", "me", "yo")], None), 0, POLL_INTERVAL_NS);
    assert_eq!(s.store.messages.len(), 3);
}

#[test]
fn a_failed_message_comes_back_as_the_draft() {
    let mut s = open_convo();
    type_and_send(&mut s, "yo");
    s.handle_worker_response(
        sent_answer("c1".to_string(), Err("bad token scope".to_string())),
        0,
        0,
    );
    assert_eq!(s.store.messages.len(), 2);
    assert_eq!(s.draft, "yo");
    let bar = s.compose_bar(&vec![], false, true).unwrap();
    assert_eq!(bar.text, "DMs need a chat-enabled app password");
}

#[test]
fn an_answer_for_another_conversation_is_passed_over() {
    let mut s = open_convo();
    s.handle_worker_response(
        sent_answer("c2".to_string(), Ok(message("9", "bob", "?"))),
        0,
        0,
    );
    assert_eq!(s.store.messages.len(), 2);
}

#[test]
fn a_tap_on_the_header_leads_to_the_other_member() {
    let mut s = open_convo();
    assert!(matches!(s.header_tap(&touch(10, 10), false), ScreenAction::Stay));
    assert!(matches!(
        s.header_tap(&vec![], false),
        ScreenAction::Push(NextScreen::Profile { actor: Some(h) }) if h == "bob"
    ));
}

#[test]
fn bubbles() {
    let s = open_convo();
    let theirs = &s.store.messages[0];
    let mine = &s.store.messages[1];
    assert_eq!(bubble_text(theirs), "hi");
    assert_eq!(measure_msg(theirs, 20, 18, false), 20 + 16 + 10);
    assert_eq!(measure_msg(theirs, 20, 18, true), 20 + 16 + 18 + 10);
    let p = plan_bubble(mine, 100, 200, 20, false);
    assert_eq!((p.rect.x, p.rect.y, p.rect.w, p.rect.h), (960 - 12 - 224, 100, 224, 36));
    assert!(matches!(p.tone, BubbleTone::Accent));
    let p = plan_bubble(theirs, 100, 200, 20, true);
    assert_eq!((p.rect.x, p.rect.y), (12, 118));
    assert!(p.named);
}

#[test]
fn the_face_of_a_conversation() {
    let c = convo(&["me", "bob", "eve"]);
    assert_eq!(primary_other(&c, "did:plc:me").map(|m| m.handle.as_str()), Some("bob"));
    assert_eq!(primary_other(&c, "did:plc:bob").map(|m| m.handle.as_str()), Some("me"));
    assert!(primary_other(&convo(&["me"]), "did:plc:me").is_none());
    assert!(primary_other(&convo(&["me", "me"]), "did:plc:me").is_none());
    assert!(primary_other(&convo(&[]), "did:plc:me").is_none());
}

#[test]
fn ordinary_answers_have_room() {
    let n = NotificationsScreen::new();
    assert!(n.answer_room(&WorkResponse::Notifications(Ok(NotificationBatch {
        notifications: vec![notification("like")],
        cursor: None,
    }))));
    let l = ConversationListScreen::new("did:plc:me".to_string());
    assert!(l.answer_room(&WorkResponse::Convos(Ok(ConvosBatch {
        convos: vec![convo(&["me", "bob"])],
        cursor: None,
    }))));
    assert!(l.answer_room(&WorkResponse::ConvoRead(Ok(()))));
}

#[test]
fn keys_of_messages_can_run_out() {
    let mut s = open_convo();
    let more = || page(vec![item("3", "bob", "a"), item("4", "bob", "b")], None);
    assert!(s.answer_room(&more()));
    s.store.next_local_key = u64::MAX - 2;
    assert!(s.answer_room(&more()));
    s.store.next_local_key = u64::MAX - 1;
    assert!(!s.answer_room(&more()));
    assert!(s.answer_room(&WorkResponse::ConvoRead(Ok(()))));
}
