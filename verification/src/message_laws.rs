//! What a conversation shows of what the server sent and of what was typed.

use vstd::prelude::*;

#[allow(unused_imports)]
use crate::conversation::{
    bar_followed, bubble_of, bubble_plan, first_other, first_pending, first_request, first_sent,
    is_pending, lemma_first_pending, msg_height, named_member, others, poll_due, requests_due,
    requests_sent, responded, rows_above, take_one, take_page, title_of, BubbleTone, ComposeBar,
    ComposeTone, ConversationScreen, ConversationV, ConvoBody, ConvoInput, Delivery, Inbox, MsgV,
    PageKind, PhaseV, ScrollPlan,
};
#[allow(unused_imports)]
use crate::model::{name_or_handle, Author};
#[allow(unused_imports)]
use crate::requests::{MessageItem, WorkRequest, WorkResponse};
#[allow(unused_imports)]
use crate::rows::{row_top, rows_fit, total, MAX_CONTENT_H};
#[allow(unused_imports)]
use crate::screen::{NextScreen, ScreenAction};
#[allow(unused_imports)]
use crate::text::opt_view;
#[allow(unused_imports)]
use crate::widget::{PadFrame, TouchPoint};

verus! {

/// A row shows a message of the server as it came: its identity, its sender and
/// its text. A row reads as deleted only where the server's message is.
pub open spec fn shows(row: MsgV, item: MessageItem, own: Seq<char>) -> bool {
    match item {
        MessageItem::Message(m) => {
            &&& row.id == Some(m.id@)
            &&& row.sender == m.sender_did@
            &&& row.text == m.text@
            &&& !row.deleted
            &&& row.is_own == (m.sender_did@ == own)
            &&& row.delivery == Delivery::Sent
            &&& bubble_of(row) == m.text@
        },
        MessageItem::Deleted(d) => {
            &&& row.id == Some(d.id@)
            &&& row.sender == d.sender_did@
            &&& row.deleted
            &&& row.is_own == (d.sender_did@ == own)
            &&& row.delivery == Delivery::Sent
            &&& bubble_of(row) == "(message deleted)"@
        },
    }
}

/// The identity of a message is among those that are known.
pub open spec fn known(seen: Set<Seq<char>>, item: MessageItem) -> bool {
    match item {
        MessageItem::Message(m) => seen.contains(m.id@),
        MessageItem::Deleted(d) => seen.contains(d.id@),
    }
}

/// A row that was there is there still, and reads the same. One that was typed
/// here and waited can have turned out to be the given message, which the reader
/// sent with that very text.
pub open spec fn kept(old: MsgV, new: MsgV, item: MessageItem, own: Seq<char>) -> bool {
    ||| new == old
    ||| {
        &&& old.is_own && old.id is None && old.delivery == Delivery::Sending
        &&& new.delivery == Delivery::Sent
        &&& new.key == old.key && new.text == old.text && new.sender == old.sender && new.is_own
            && new.deleted == old.deleted
        &&& match item {
            MessageItem::Message(m) => m.text@ == old.text && m.sender_did@ == own && new.id
                == Some(m.id@),
            MessageItem::Deleted(d) => old.text.len() == 0 && d.sender_did@ == own && new.id
                == Some(d.id@),
        }
    }
}

/// Whatever page a message comes with: one that is known adds nothing (but on
/// the first page), the reader's own may settle one row that waited for it, and
/// any other is added behind the rest and shown as it came.
pub proof fn lemma_message_is_shown(kind: PageKind, own: Seq<char>, s: Inbox, item: MessageItem)
    ensures
        ({
            let t = take_one(kind, own, s, item);
            &&& known(t.seen, item)
            &&& forall|d: Seq<char>| s.seen.contains(d) ==> #[trigger] t.seen.contains(d)
            &&& t.next_key == s.next_key + 1
            &&& if kind != PageKind::Initial && known(s.seen, item) {
                t.msgs == s.msgs && t.seen == s.seen
            } else if t.msgs.len() == s.msgs.len() {
                &&& kind == PageKind::Poll
                &&& t.msgs != s.msgs
                &&& forall|i: int|
                    0 <= i < s.msgs.len() ==> kept(s.msgs[i], #[trigger] t.msgs[i], item, own)
            } else {
                &&& t.msgs.len() == s.msgs.len() + 1
                &&& t.msgs.drop_last() == s.msgs
                &&& shows(t.msgs.last(), item, own)
                &&& t.msgs.last().key == s.next_key
            }
        }),
{
    let t = take_one(kind, own, s, item);
    let text = match item {
        MessageItem::Message(m) => m.text@,
        MessageItem::Deleted(_) => Seq::empty(),
    };
    lemma_first_pending(s.msgs, Some(text), 0);
    if t.msgs.len() == s.msgs.len() + 1 {
        assert(t.msgs.drop_last() =~= s.msgs);
    }
    if !(kind != PageKind::Initial && known(s.seen, item)) && t.msgs.len() == s.msgs.len() {
        let k = first_pending(s.msgs, Some(text), 0);
        assert(t.msgs[k].id != s.msgs[k].id);
    }
    if kind != PageKind::Initial && known(s.seen, item) {
        assert(t.seen =~= s.seen);
    }
}

/// A message that the reader did not send, and that is not known, is always
/// added.
pub proof fn lemma_message_of_another_is_added(
    kind: PageKind,
    own: Seq<char>,
    s: Inbox,
    item: MessageItem,
)
    requires
        !known(s.seen, item),
        match item {
            MessageItem::Message(m) => m.sender_did@ != own,
            MessageItem::Deleted(d) => d.sender_did@ != own,
        },
    ensures
        take_one(kind, own, s, item).msgs.len() == s.msgs.len() + 1,
        take_one(kind, own, s, item).msgs.drop_last() == s.msgs,
        shows(take_one(kind, own, s, item).msgs.last(), item, own),
{
    assert(take_one(kind, own, s, item).msgs.drop_last() =~= s.msgs);
}

/// The first page is shown whole and in its order.
pub proof fn lemma_first_page_shown_whole(
    own: Seq<char>,
    s: Inbox,
    items: Seq<MessageItem>,
    n: int,
)
    requires
        0 <= n <= items.len(),
    ensures
        ({
            let t = take_page(PageKind::Initial, own, s, items, n);
            &&& t.msgs.len() == s.msgs.len() + n
            &&& t.msgs.take(s.msgs.len() as int) == s.msgs
            &&& forall|i: int|
                0 <= i < n ==> shows(#[trigger] t.msgs[s.msgs.len() + i], items[i], own)
            &&& forall|i: int| 0 <= i < n ==> known(t.seen, #[trigger] items[i])
        }),
    decreases n,
{
    let t = take_page(PageKind::Initial, own, s, items, n);
    if n > 0 {
        lemma_first_page_shown_whole(own, s, items, n - 1);
        let b = take_page(PageKind::Initial, own, s, items, n - 1);
        lemma_message_is_shown(PageKind::Initial, own, b, items[n - 1]);
        assert(t.msgs.take(s.msgs.len() as int) =~= b.msgs.take(s.msgs.len() as int));
        assert forall|i: int| 0 <= i < n implies shows(
            #[trigger] t.msgs[s.msgs.len() + i],
            items[i],
            own,
        ) by {
            if i < n - 1 {
                assert(t.msgs[s.msgs.len() + i] == b.msgs[s.msgs.len() + i]);
            }
        }
    } else {
        assert(t.msgs.take(s.msgs.len() as int) =~= s.msgs);
    }
}

/// The messages of a page are new: none is known, and none comes twice.
pub open spec fn all_new(s: Inbox, items: Seq<MessageItem>) -> bool {
    &&& forall|i: int| 0 <= i < items.len() ==> !known(s.seen, #[trigger] items[i])
    &&& forall|i: int, j: int|
        0 <= i < j < items.len() ==> id_of(#[trigger] items[i]) != id_of(#[trigger] items[j])
}

/// The identity the server gives a message.
pub open spec fn id_of(item: MessageItem) -> Seq<char> {
    match item {
        MessageItem::Message(m) => m.id@,
        MessageItem::Deleted(d) => d.id@,
    }
}

/// The reader sent this message.
pub open spec fn from_reader(item: MessageItem, own: Seq<char>) -> bool {
    match item {
        MessageItem::Message(m) => m.sender_did@ == own,
        MessageItem::Deleted(d) => d.sender_did@ == own,
    }
}

/// New messages of others, from a look at the newest page or from an older one,
/// are all shown, in their order, behind what was there.
pub proof fn lemma_new_messages_shown_in_order(
    kind: PageKind,
    own: Seq<char>,
    s: Inbox,
    items: Seq<MessageItem>,
    n: int,
)
    requires
        kind != PageKind::Initial,
        0 <= n <= items.len(),
        all_new(s, items),
        kind == PageKind::Poll ==> forall|i: int|
            0 <= i < items.len() ==> !from_reader(#[trigger] items[i], own),
    ensures
        ({
            let t = take_page(kind, own, s, items, n);
            &&& t.msgs.len() == s.msgs.len() + n
            &&& t.msgs.take(s.msgs.len() as int) == s.msgs
            &&& forall|i: int|
                0 <= i < n ==> shows(#[trigger] t.msgs[s.msgs.len() + i], items[i], own)
            &&& forall|d: Seq<char>|
                #[trigger] t.seen.contains(d) ==> s.seen.contains(d) || exists|i: int|
                    0 <= i < n && id_of(#[trigger] items[i]) == d
        }),
    decreases n,
{
    let t = take_page(kind, own, s, items, n);
    if n > 0 {
        lemma_new_messages_shown_in_order(kind, own, s, items, n - 1);
        let b = take_page(kind, own, s, items, n - 1);
        let last = items[n - 1];
        assert(!known(b.seen, last)) by {
            if b.seen.contains(id_of(last)) {
                let i = choose|i: int| 0 <= i < n - 1 && id_of(#[trigger] items[i]) == id_of(last);
                assert(id_of(items[i]) != id_of(items[n - 1]));
            }
        }
        lemma_message_is_shown(kind, own, b, last);
        if kind == PageKind::Poll {
            lemma_message_of_another_is_added(kind, own, b, last);
        }
        assert(t.msgs.take(s.msgs.len() as int) =~= b.msgs.take(s.msgs.len() as int));
        assert forall|i: int| 0 <= i < n implies shows(
            #[trigger] t.msgs[s.msgs.len() + i],
            items[i],
            own,
        ) by {
            if i < n - 1 {
                assert(t.msgs[s.msgs.len() + i] == b.msgs[s.msgs.len() + i]);
            }
        }
        assert forall|d: Seq<char>| #[trigger] t.seen.contains(d) implies s.seen.contains(d)
            || exists|i: int| 0 <= i < n && id_of(#[trigger] items[i]) == d by {
            if d == id_of(last) {
                assert(id_of(items[n - 1]) == d);
            } else {
                assert(b.seen.contains(d));
                if !s.seen.contains(d) {
                    let i = choose|i: int| 0 <= i < n - 1 && id_of(#[trigger] items[i]) == d;
                    assert(0 <= i < n && id_of(items[i]) == d);
                }
            }
        }
    } else {
        assert(t.msgs.take(s.msgs.len() as int) =~= s.msgs);
    }
}

/// After any page every message of it is known, and no row that was there has
/// gone, moved or come to read otherwise.
pub proof fn lemma_page_loses_nothing(
    kind: PageKind,
    own: Seq<char>,
    s: Inbox,
    items: Seq<MessageItem>,
    n: int,
)
    requires
        0 <= n <= items.len(),
    ensures
        ({
            let t = take_page(kind, own, s, items, n);
            &&& t.msgs.len() >= s.msgs.len()
            &&& forall|i: int| 0 <= i < n ==> known(t.seen, #[trigger] items[i])
            &&& forall|d: Seq<char>| s.seen.contains(d) ==> #[trigger] t.seen.contains(d)
            &&& forall|i: int|
                0 <= i < s.msgs.len() ==> (#[trigger] t.msgs[i]).text == s.msgs[i].text
                    && t.msgs[i].sender == s.msgs[i].sender && t.msgs[i].key == s.msgs[i].key
                    && t.msgs[i].deleted == s.msgs[i].deleted && bubble_of(t.msgs[i]) == bubble_of(
                    s.msgs[i],
                ) && (s.msgs[i].id is Some ==> t.msgs[i] == s.msgs[i])
        }),
    decreases n,
{
    if n > 0 {
        lemma_page_loses_nothing(kind, own, s, items, n - 1);
        let b = take_page(kind, own, s, items, n - 1);
        let t = take_page(kind, own, s, items, n);
        lemma_message_is_shown(kind, own, b, items[n - 1]);
        assert forall|i: int| 0 <= i < s.msgs.len() implies (#[trigger] t.msgs[i]).text
            == s.msgs[i].text && t.msgs[i].sender == s.msgs[i].sender && t.msgs[i].key
            == s.msgs[i].key && t.msgs[i].deleted == s.msgs[i].deleted && bubble_of(t.msgs[i])
            == bubble_of(s.msgs[i]) && (s.msgs[i].id is Some ==> t.msgs[i] == s.msgs[i]) by {
            if t.msgs.len() == b.msgs.len() + 1 {
                assert(t.msgs.drop_last()[i] == b.msgs[i]);
            } else if t.msgs != b.msgs {
                assert(kept(b.msgs[i], t.msgs[i], items[n - 1], own));
            }
        }
    }
}

// ── Answers ────────────────────────────────────────────────────────────

/// The first page opens the conversation at its end: its messages are shown in
/// order, and where the page says that there are older ones, they can be asked
/// for from there.
pub proof fn lemma_first_page_opens(v: ConversationV, resp: WorkResponse, scroll: int, now: u64)
    requires
        v.initial_inflight,
        v.inbox.msgs.len() == 0,
        resp matches WorkResponse::ConvoMessages { convo_id, batch } && convo_id@ == v.convo_id
            && batch is Ok,
    ensures
        ({
            let w = responded(v, resp, scroll, now);
            let b = resp->ConvoMessages_batch->Ok_0;
            &&& w.phase is Ready
            &&& w.inbox.msgs.len() == b.messages@.len()
            &&& forall|i: int|
                0 <= i < b.messages@.len() ==> shows(
                    #[trigger] w.inbox.msgs[i],
                    b.messages@[i],
                    v.own_did,
                )
            &&& w.to_bottom
            &&& !w.initial_inflight
            &&& w.top_cursor == opt_view(b.cursor)
            &&& w.reached_top <==> b.cursor is None
            &&& b.messages@.len() > 0 ==> w.want_mark_read
            &&& w.draft == v.draft && w.own_did == v.own_did && w.convo_id == v.convo_id
        }),
{
    let b = resp->ConvoMessages_batch->Ok_0;
    let w = responded(v, resp, scroll, now);
    lemma_first_page_shown_whole(v.own_did, v.inbox, b.messages@, b.messages@.len() as int);
    assert forall|i: int| 0 <= i < b.messages@.len() implies shows(
        #[trigger] w.inbox.msgs[i],
        b.messages@[i],
        v.own_did,
    ) by {
        assert(w.inbox.msgs[v.inbox.msgs.len() + i] == w.inbox.msgs[i]);
    }
}

/// Another look at the newest page changes nothing of what was shown and adds
/// behind it. The place where older messages begin stays, and so does the draft.
/// The view follows to the end only where it stood there, or nearly so.
pub proof fn lemma_poll_adds_behind(v: ConversationV, resp: WorkResponse, scroll: int, now: u64)
    requires
        v.poll_inflight,
        !v.initial_inflight && !v.older_inflight,
        resp matches WorkResponse::ConvoMessages { convo_id, batch } && convo_id@ == v.convo_id
            && batch is Ok,
    ensures
        ({
            let w = responded(v, resp, scroll, now);
            let items = resp->ConvoMessages_batch->Ok_0.messages@;
            &&& !w.poll_inflight && w.last_poll == now
            &&& w.phase == v.phase && w.draft == v.draft && w.rows == v.rows
            &&& w.top_cursor == v.top_cursor && w.reached_top == v.reached_top
            &&& w.prepend == v.prepend && w.send_inflight == v.send_inflight
            &&& w.inbox.msgs.len() >= v.inbox.msgs.len()
            &&& forall|i: int|
                0 <= i < v.inbox.msgs.len() ==> bubble_of(#[trigger] w.inbox.msgs[i]) == bubble_of(
                    v.inbox.msgs[i],
                ) && w.inbox.msgs[i].sender == v.inbox.msgs[i].sender && w.inbox.msgs[i].key
                    == v.inbox.msgs[i].key
            &&& forall|i: int| 0 <= i < items.len() ==> known(w.inbox.seen, #[trigger] items[i])
            &&& all_new(v.inbox, items) && (forall|i: int|
                0 <= i < items.len() ==> !from_reader(#[trigger] items[i], v.own_did)) ==> {
                &&& w.inbox.msgs.len() == v.inbox.msgs.len() + items.len()
                &&& forall|i: int|
                    0 <= i < items.len() ==> shows(
                        #[trigger] w.inbox.msgs[v.inbox.msgs.len() + i],
                        items[i],
                        v.own_did,
                    )
            }
            &&& w.inbox.msgs.len() == v.inbox.msgs.len() ==> w.to_bottom == v.to_bottom
                && w.want_mark_read == v.want_mark_read
        }),
{
    let items = resp->ConvoMessages_batch->Ok_0.messages@;
    let n = items.len() as int;
    lemma_page_loses_nothing(PageKind::Poll, v.own_did, v.inbox, items, n);
    if all_new(v.inbox, items) && (forall|i: int|
        0 <= i < items.len() ==> !from_reader(#[trigger] items[i], v.own_did)) {
        lemma_new_messages_shown_in_order(PageKind::Poll, v.own_did, v.inbox, items, n);
    }
}

/// Older messages go on top, in their order: the rows that were there stay
/// below, one by one, and the view is to stay at the one that was first.
pub proof fn lemma_older_go_on_top(v: ConversationV, resp: WorkResponse, scroll: int, now: u64)
    requires
        v.older_inflight,
        !v.initial_inflight,
        resp matches WorkResponse::ConvoMessages { convo_id, batch } && convo_id@ == v.convo_id
            && batch is Ok,
    ensures
        ({
            let w = responded(v, resp, scroll, now);
            let b = resp->ConvoMessages_batch->Ok_0;
            let items = b.messages@;
            let k = w.inbox.msgs.len() - v.inbox.msgs.len();
            &&& !w.older_inflight
            &&& 0 <= k
            &&& w.inbox.msgs.skip(k) == v.inbox.msgs
            &&& w.top_cursor == opt_view(b.cursor) && (w.reached_top <==> b.cursor is None)
            &&& k > 0 && v.inbox.msgs.len() > 0 ==> w.prepend == Some(
                v.inbox.msgs[0].key as u64,
            ) && w.to_bottom == v.to_bottom && w.rows.len() == 0
            &&& k == 0 ==> w.prepend == v.prepend && w.rows == v.rows
            &&& w.phase == v.phase && w.draft == v.draft && w.want_mark_read == v.want_mark_read
            &&& forall|i: int| 0 <= i < items.len() ==> known(w.inbox.seen, #[trigger] items[i])
            &&& all_new(v.inbox, items) ==> {
                &&& k == items.len()
                &&& forall|i: int|
                    0 <= i < items.len() ==> shows(
                        #[trigger] w.inbox.msgs[i],
                        items[i],
                        v.own_did,
                    )
            }
        }),
{
    let w = responded(v, resp, scroll, now);
    let items = resp->ConvoMessages_batch->Ok_0.messages@;
    let n = items.len() as int;
    let start = Inbox { msgs: Seq::empty(), ..v.inbox };
    let top = take_page(PageKind::Older, v.own_did, start, items, n);
    lemma_page_loses_nothing(PageKind::Older, v.own_did, start, items, n);
    assert(w.inbox.msgs.skip(top.msgs.len() as int) =~= v.inbox.msgs);
    if all_new(v.inbox, items) {
        lemma_new_messages_shown_in_order(PageKind::Older, v.own_did, start, items, n);
        assert forall|i: int| 0 <= i < items.len() implies shows(
            #[trigger] w.inbox.msgs[i],
            items[i],
            v.own_did,
        ) by {
            assert(top.msgs[start.msgs.len() + i] == w.inbox.msgs[i]);
        }
    }
}

/// A page that fails loses no message. The first one tells its error in place of
/// the messages; a later one is silent, but a password without chat access
/// blocks sending from then on.
pub proof fn lemma_failed_page(v: ConversationV, resp: WorkResponse, scroll: int, now: u64)
    requires
        v.initial_inflight || v.poll_inflight || v.older_inflight,
        resp matches WorkResponse::ConvoMessages { convo_id, batch } && convo_id@ == v.convo_id
            && batch is Err,
    ensures
        ({
            let w = responded(v, resp, scroll, now);
            let e = resp->ConvoMessages_batch->Err_0@;
            let scope = "DM_SCOPE:"@.len() <= e.len() && e.take("DM_SCOPE:"@.len() as int)
                == "DM_SCOPE:"@;
            &&& w.inbox == v.inbox && w.draft == v.draft && w.top_cursor == v.top_cursor
            &&& v.initial_inflight ==> {
                &&& w.phase == (PhaseV::InitialError { msg: e, auth_scope: scope })
                &&& !w.initial_inflight && w.auth_blocked == v.auth_blocked
            }
            &&& !v.initial_inflight ==> {
                &&& w.phase == v.phase
                &&& w.auth_blocked == (v.auth_blocked || scope)
                &&& !(w.older_inflight && v.older_inflight)
                &&& v.poll_inflight && !v.older_inflight ==> !w.poll_inflight
            }
        }),
{
    let e = resp->ConvoMessages_batch->Err_0@;
    if "DM_SCOPE:"@.len() <= e.len() {
        assert(e.take("DM_SCOPE:"@.len() as int) =~= e.subrange(0, "DM_SCOPE:"@.len() as int));
    }
}

// ── Sending ────────────────────────────────────────────────────────────

/// What is sent shows at once, behind the rest, with the text that was typed and
/// that the server is asked to send; the draft is empty then. Nothing is sent
/// without a draft, while another message is on its way, while the keyboard is
/// open, or without chat access.
pub proof fn lemma_sent_shows_at_once(
    a: ConversationScreen,
    b: ConversationScreen,
    touches: Seq<TouchPoint>,
    ime_active: bool,
    has_worker: bool,
    r: Option<ComposeBar>,
)
    requires
        bar_followed(a, b, touches, ime_active, has_worker, r),
        r matches Some(bar) && bar.request is Some,
    ensures
        ({
            let q = r->0.request->0;
            let n = a@.inbox.msgs.len() as int;
            &&& q matches WorkRequest::SendMessage { convo_id, text } && convo_id@ == a@.convo_id
                && text@ == a@.draft
            &&& a@.draft.len() > 0 && !a@.send_inflight && !a@.auth_blocked && !ime_active
            &&& a@.phase is Ready && has_worker
            &&& touches.len() == 0 && a@.send_btn.pressed_last
            &&& b@.inbox.msgs.len() == n + 1
            &&& b@.inbox.msgs.take(n) == a@.inbox.msgs
            &&& b@.inbox.msgs[n].text == a@.draft && bubble_of(b@.inbox.msgs[n]) == a@.draft
            &&& b@.inbox.msgs[n].is_own && b@.inbox.msgs[n].sender == a@.own_did
            &&& b@.inbox.msgs[n].id is None && b@.inbox.msgs[n].delivery == Delivery::Sending
            &&& b@.inbox.seen == a@.inbox.seen
            &&& b@.draft.len() == 0 && b@.send_inflight && b@.to_bottom
        }),
{
    assert(b@.inbox.msgs.take(a@.inbox.msgs.len() as int) =~= a@.inbox.msgs);
}

/// A frame of the compose bar that sends nothing keeps the messages and the
/// draft, and shows the draft where sending is possible.
pub proof fn lemma_bar_without_sending(
    a: ConversationScreen,
    b: ConversationScreen,
    touches: Seq<TouchPoint>,
    ime_active: bool,
    has_worker: bool,
    r: Option<ComposeBar>,
)
    requires
        bar_followed(a, b, touches, ime_active, has_worker, r),
        touches.len() > 0 || ime_active || a@.draft.len() == 0 || a@.send_inflight
            || a@.auth_blocked || !a@.send_btn.pressed_last,
    ensures
        b@.inbox == a@.inbox && b@.draft == a@.draft && b@.send_inflight == a@.send_inflight,
        r matches Some(bar) ==> {
            &&& bar.request is None
            &&& !a@.auth_blocked && a@.draft.len() > 0 ==> bar.text@ == a@.draft && bar.tone
                == ComposeTone::Plain
            &&& a@.auth_blocked ==> bar.tone == ComposeTone::Error && !bar.open_ime
            &&& ime_active || touches.len() > 0 ==> !bar.open_ime
        },
{
}

/// The echo of a message that is not waited for shows it once, as the reader's
/// own, with its text; where it is known already nothing is added. In any case
/// the next message can be sent.
pub proof fn lemma_echo_shown_once(v: ConversationV, resp: WorkResponse, scroll: int, now: u64)
    requires
        resp matches WorkResponse::MessageSent { convo_id, result } && convo_id@ == v.convo_id
            && result is Ok,
    ensures
        ({
            let w = responded(v, resp, scroll, now);
            let m = resp->MessageSent_result->Ok_0;
            let waited = exists|i: int|
                0 <= i < v.inbox.msgs.len() && is_pending(#[trigger] v.inbox.msgs[i])
                    && v.inbox.msgs[i].text == m.text@;
            &&& !w.send_inflight
            &&& w.draft == v.draft && w.phase == v.phase && w.auth_blocked == v.auth_blocked
            &&& !waited && v.inbox.seen.contains(m.id@) ==> w.inbox == v.inbox
            &&& !waited && !v.inbox.seen.contains(m.id@) ==> {
                &&& w.inbox.msgs.len() == v.inbox.msgs.len() + 1
                &&& w.inbox.msgs.drop_last() == v.inbox.msgs
                &&& w.inbox.msgs.last().id == Some(m.id@)
                &&& bubble_of(w.inbox.msgs.last()) == m.text@
                &&& w.inbox.msgs.last().is_own
                &&& w.inbox.msgs.last().sender == m.sender_did@
                &&& w.inbox.msgs.last().delivery == Delivery::Sent
                &&& w.to_bottom
            }
            &&& waited ==> {
                &&& w.inbox.msgs.len() == v.inbox.msgs.len()
                &&& w.inbox.seen.contains(m.id@)
                &&& w.to_bottom == v.to_bottom
                &&& exists|k: int|
                    0 <= k < w.inbox.msgs.len() && (#[trigger] w.inbox.msgs[k]).id == Some(m.id@)
                        && w.inbox.msgs[k].delivery == Delivery::Sent && w.inbox.msgs[k].text
                        == m.text@ && v.inbox.msgs[k].id is None && forall|i: int|
                        0 <= i < w.inbox.msgs.len() && i != k ==> #[trigger] w.inbox.msgs[i]
                            == v.inbox.msgs[i]
            }
        }),
{
    let w = responded(v, resp, scroll, now);
    let m = resp->MessageSent_result->Ok_0;
    lemma_first_pending(v.inbox.msgs, Some(m.text@), 0);
    let k = first_pending(v.inbox.msgs, Some(m.text@), 0);
    if k < v.inbox.msgs.len() {
        assert(is_pending(v.inbox.msgs[k]));
        assert(w.inbox.msgs[k].id == Some(m.id@));
    } else if !v.inbox.seen.contains(m.id@) {
        assert(w.inbox.msgs.drop_last() =~= v.inbox.msgs);
    }
}

/// A send that fails takes back the first message that waited and no other. Its
/// text comes back as the draft, but never over one that was begun since.
pub proof fn lemma_failed_send_takes_back(
    v: ConversationV,
    resp: WorkResponse,
    scroll: int,
    now: u64,
    k: int,
)
    requires
        resp matches WorkResponse::MessageSent { convo_id, result } && convo_id@ == v.convo_id
            && result is Err,
        0 <= k < v.inbox.msgs.len(),
        is_pending(v.inbox.msgs[k]),
        forall|i: int| 0 <= i < k ==> !is_pending(#[trigger] v.inbox.msgs[i]),
    ensures
        ({
            let w = responded(v, resp, scroll, now);
            &&& !w.send_inflight
            &&& w.inbox.msgs.len() == v.inbox.msgs.len() - 1
            &&& forall|i: int| 0 <= i < k ==> #[trigger] w.inbox.msgs[i] == v.inbox.msgs[i]
            &&& forall|i: int|
                k <= i < w.inbox.msgs.len() ==> #[trigger] w.inbox.msgs[i] == v.inbox.msgs[i + 1]
            &&& w.inbox.seen == v.inbox.seen
            &&& v.draft.len() == 0 ==> w.draft == v.inbox.msgs[k].text
            &&& v.draft.len() > 0 ==> w.draft == v.draft
            &&& w.phase == v.phase
        }),
{
    lemma_first_pending(v.inbox.msgs, None, 0);
    let r = first_pending(v.inbox.msgs, None, 0);
    if r < k {
        assert(is_pending(v.inbox.msgs[r]));
    }
    if r > k {
        assert(!(is_pending(v.inbox.msgs[k])));
    }
}

// ── Keeping up to date ─────────────────────────────────────────────────

/// After a look at the newest page the next one comes four seconds later at the
/// earliest, and none before the conversation is loaded or while the keyboard is
/// open.
pub proof fn lemma_poll_rhythm(
    v: ConversationV,
    resp: WorkResponse,
    scroll: int,
    now: u64,
    ime_active: bool,
    later: u64,
)
    requires
        v.poll_inflight,
        !v.initial_inflight && !v.older_inflight,
        resp matches WorkResponse::ConvoMessages { convo_id, .. } && convo_id@ == v.convo_id,
    ensures
        ({
            let w = responded(v, resp, scroll, now);
            &&& later < now + 4_000_000_000 ==> !poll_due(w, ime_active, later)
            &&& later >= now + 4_000_000_000 && !ime_active && v.phase is Ready ==> poll_due(
                w,
                ime_active,
                later,
            )
            &&& ime_active || !(w.phase is Ready) ==> !poll_due(w, ime_active, later)
        }),
{
}

/// What a frame asks for is asked for this conversation: the newest page without
/// a cursor, older messages from where the shown ones begin, and that it was
/// read; and only the last where nothing else is due.
pub proof fn lemma_requests_are_its_own(
    s: ConversationScreen,
    ime_active: bool,
    now: u64,
    scroll_up: int,
    i: int,
)
    requires
        0 <= i < requests_due(s, ime_active, now, scroll_up).len(),
    ensures
        ({
            let q = requests_due(s, ime_active, now, scroll_up)[i];
            let last = i == requests_due(s, ime_active, now, scroll_up).len() - 1;
            match q {
                WorkRequest::GetConvoMessages { convo_id, cursor } => {
                    &&& convo_id == s.convo_id
                    &&& s@.phase is Ready
                    &&& !s.initial_inflight && !s.poll_inflight && !s.older_inflight
                    &&& cursor is Some ==> {
                        &&& cursor == s.top_cursor && !s.reached_top && scroll_up <= 80
                        &&& requests_sent(s@, ime_active, now, scroll_up).older_inflight
                        &&& !requests_sent(s@, ime_active, now, scroll_up).poll_inflight
                    }
                    &&& cursor is None ==> {
                        &&& !ime_active && now >= s.last_poll + 4_000_000_000
                        &&& requests_sent(s@, ime_active, now, scroll_up).poll_inflight
                        &&& !requests_sent(s@, ime_active, now, scroll_up).older_inflight
                    }
                },
                WorkRequest::MarkConvoRead { convo_id } => {
                    &&& convo_id == s.convo_id
                    &&& s.want_mark_read && last
                    &&& !requests_sent(s@, ime_active, now, scroll_up).want_mark_read
                },
                _ => false,
            }
        }),
{
}

/// What is due is asked for: the mark that it was read, another look once four
/// seconds have passed, and older messages near the top.
pub proof fn lemma_due_is_asked(
    s: ConversationScreen,
    ime_active: bool,
    now: u64,
    scroll_up: int,
)
    ensures
        ({
            let due = requests_due(s, ime_active, now, scroll_up);
            let quiet = s@.phase is Ready && !s.initial_inflight && !s.poll_inflight
                && !s.older_inflight;
            &&& s.want_mark_read ==> due.len() > 0 && due.last() == (WorkRequest::MarkConvoRead {
                convo_id: s.convo_id,
            })
            &&& quiet && !ime_active && now >= s.last_poll + 4_000_000_000 ==> due.len() > 0
                && due[0] == (WorkRequest::GetConvoMessages { convo_id: s.convo_id, cursor: None })
            &&& quiet && now < s.last_poll + 4_000_000_000 && scroll_up <= 80 && !s.reached_top
                && s.top_cursor is Some ==> due.len() > 0 && due[0] == (
            WorkRequest::GetConvoMessages { convo_id: s.convo_id, cursor: s.top_cursor })
            &&& s@.phase is InitialLoading && !s.initial_inflight ==> first_request(s, true)
                == Some(WorkRequest::GetConvoMessages { convo_id: s.convo_id, cursor: None })
                && first_sent(s@, true).initial_inflight
            &&& s@.phase is Ready ==> first_request(s, true) is None
        }),
{
}

// ── Names and bubbles ──────────────────────────────────────────────────

/// A conversation is named after its other member: where there is exactly one,
/// by that one's name alone. Alone with oneself it reads so.
pub proof fn lemma_title_names_the_other(members: Seq<Author>, own: Seq<char>, i: int)
    requires
        0 <= i < members.len(),
        members[i].did@ != own,
        forall|j: int| 0 <= j < i ==> (#[trigger] members[j]).did@ == own,
    ensures
        first_other(members, own, 0) == Some(members[i]),
        others(members, own).len() >= 1,
        others(members, own)[0] == members[i],
        (forall|j: int| 0 <= j < members.len() && j != i ==> (#[trigger] members[j]).did@ == own)
            ==> title_of(members, own) == name_or_handle(
            members[i].display_name,
            members[i].handle@,
        ),
{
    lemma_other_at(members, own, i, 0);
    lemma_others_first(members, own, i);
    if forall|j: int| 0 <= j < members.len() && j != i ==> (#[trigger] members[j]).did@ == own {
        lemma_others_only(members, own, i);
    }
}

proof fn lemma_other_at(members: Seq<Author>, own: Seq<char>, i: int, from: int)
    requires
        0 <= from <= i < members.len(),
        members[i].did@ != own,
        forall|j: int| from <= j < i ==> (#[trigger] members[j]).did@ == own,
    ensures
        first_other(members, own, from) == Some(members[i]),
    decreases i - from,
{
    if from < i {
        assert(members[from].did@ == own);
        lemma_other_at(members, own, i, from + 1);
    }
}

proof fn lemma_others_none(s: Seq<Author>, own: Seq<char>)
    requires
        forall|j: int| 0 <= j < s.len() ==> (#[trigger] s[j]).did@ == own,
    ensures
        others(s, own).len() == 0,
    decreases s.len(),
{
    reveal(Seq::filter);
    if s.len() > 0 {
        assert(s[s.len() - 1].did@ == own);
        assert forall|j: int| 0 <= j < s.drop_last().len() implies (#[trigger] s.drop_last()[j]).did@ == own by {
            assert(s[j].did@ == own);
        }
        lemma_others_none(s.drop_last(), own);
    }
}

proof fn lemma_others_first(s: Seq<Author>, own: Seq<char>, i: int)
    requires
        0 <= i < s.len(),
        s[i].did@ != own,
        forall|j: int| 0 <= j < i ==> (#[trigger] s[j]).did@ == own,
    ensures
        others(s, own).len() >= 1,
        others(s, own)[0] == s[i],
    decreases s.len(),
{
    reveal(Seq::filter);
    if i == s.len() - 1 {
        assert forall|j: int| 0 <= j < s.drop_last().len() implies (#[trigger] s.drop_last()[j]).did@ == own by {
            assert(s[j].did@ == own);
        }
        lemma_others_none(s.drop_last(), own);
    } else {
        assert forall|j: int| 0 <= j < i implies (#[trigger] s.drop_last()[j]).did@ == own by {
            assert(s[j].did@ == own);
        }
        lemma_others_first(s.drop_last(), own, i);
    }
}

proof fn lemma_others_only(s: Seq<Author>, own: Seq<char>, i: int)
    requires
        0 <= i < s.len(),
        s[i].did@ != own,
        forall|j: int| 0 <= j < s.len() && j != i ==> (#[trigger] s[j]).did@ == own,
    ensures
        others(s, own).len() == 1,
    decreases s.len(),
{
    reveal(Seq::filter);
    if i == s.len() - 1 {
        assert forall|j: int| 0 <= j < s.drop_last().len() implies (#[trigger] s.drop_last()[j]).did@ == own by {
            assert(s[j].did@ == own);
        }
        lemma_others_none(s.drop_last(), own);
    } else {
        assert(s[s.len() - 1].did@ == own);
        assert forall|j: int| 0 <= j < s.drop_last().len() && j != i implies (#[trigger] s.drop_last()[j]).did@ == own by {
            assert(s[j].did@ == own);
        }
        lemma_others_only(s.drop_last(), own, i);
    }
}

/// The reader alone.
pub proof fn lemma_title_alone(members: Seq<Author>, own: Seq<char>)
    requires
        forall|j: int| 0 <= j < members.len() ==> (#[trigger] members[j]).did@ == own,
    ensures
        title_of(members, own) == "(you)"@,
{
    lemma_others_none(members, own);
}

/// The sender of a message is called by the name of the member with that
/// account.
pub proof fn lemma_member_found(members: Seq<Author>, i: int, from: int)
    requires
        0 <= from <= i < members.len(),
        forall|j: int| from <= j < i ==> (#[trigger] members[j]).did@ != members[i].did@,
    ensures
        named_member(members, members[i].did@, from) == Some(members[i]),
    decreases i - from,
{
    if from < i {
        assert(members[from].did@ != members[i].did@);
        lemma_member_found(members, i, from + 1);
    }
}

/// The reader's own messages stand at the right, those of others at the left,
/// each within the display where it fits. Names stand in groups alone, above
/// the messages of others.
pub proof fn lemma_bubble_sides(m: MsgV, y: int, content_w: int, block_h: int, is_group: bool)
    requires
        8 <= content_w <= 900,
        0 <= block_h <= 100_000,
        -100_000 <= y <= 100_000,
    ensures
        ({
            let p = bubble_plan(m, y, content_w, block_h, is_group);
            &&& m.is_own ==> p.rect.x + p.rect.w == 948
            &&& !m.is_own ==> p.rect.x == 12
            &&& p.rect.w > content_w && p.rect.h > block_h
            &&& p.named <==> is_group && !m.is_own
            &&& p.named ==> p.rect.y > y
            &&& !p.named ==> p.rect.y == y
            &&& p.muted_text <==> m.deleted
            &&& p.tone == BubbleTone::AccentDim ==> m.is_own && m.delivery == Delivery::Sending
            &&& p.tone == BubbleTone::Accent ==> m.is_own && !m.deleted
            &&& !m.is_own ==> p.tone == BubbleTone::Field
            &&& m.is_own && !m.deleted && m.delivery == Delivery::Sent ==> p.tone
                == BubbleTone::Accent
            &&& msg_height(m, block_h, block_h, is_group) >= p.rect.y - y + p.rect.h
        }),
{
}

// ── The display ────────────────────────────────────────────────────────

/// While the keyboard is open the pad does nothing; else the circle leaves, up
/// and down scroll by the same step towards either end, and the stick scrolls
/// the way it is pushed, once it leaves its middle.
pub proof fn lemma_conversation_pad(pad: PadFrame, ime_active: bool, r: ConvoInput)
    requires
        ConversationScreen::pad_read(pad, ime_active, r),
    ensures
        r.pop <==> pad.circle && !ime_active,
        ime_active || pad.circle ==> r.nudge == 0 && r.stick == 0,
        !ime_active && !pad.circle ==> {
            &&& pad.down && !pad.up ==> r.nudge == 40
            &&& pad.up && !pad.down ==> r.nudge == -40
            &&& pad.up == pad.down ==> r.nudge == 0
            &&& pad.stick_y > 32 ==> r.stick == pad.stick_y - 32
            &&& pad.stick_y < -32 ==> r.stick == pad.stick_y + 32
            &&& -32 <= pad.stick_y <= 32 ==> r.stick == 0
        },
{
}

/// What is due is asked for once, and only where someone is there to be asked:
/// else nothing changes, so that it stays due.
pub proof fn lemma_due_once(
    a: ConversationScreen,
    b: ConversationScreen,
    ime_active: bool,
    now: u64,
    scroll_up: i32,
    has_worker: bool,
    r: Vec<WorkRequest>,
)
    requires
        ConversationScreen::fetched(a, b, ime_active, now, scroll_up, has_worker, r),
    ensures
        !has_worker ==> r@.len() == 0 && b == a,
        has_worker ==> !b@.want_mark_read,
        has_worker && a@.want_mark_read ==> r@.contains(
            WorkRequest::MarkConvoRead { convo_id: a.convo_id },
        ),
        has_worker && poll_due(a@, ime_active, now) ==> b@.poll_inflight && r@.contains(
            WorkRequest::GetConvoMessages { convo_id: a.convo_id, cursor: None },
        ),
        has_worker ==> forall|i: int|
            0 <= i < r@.len() ==> (match #[trigger] r@[i] {
                WorkRequest::GetConvoMessages { convo_id, .. } => convo_id == a.convo_id
                    && a@.phase is Ready,
                WorkRequest::MarkConvoRead { convo_id } => convo_id == a.convo_id
                    && a@.want_mark_read,
                _ => false,
            }),
        b@.inbox == a@.inbox && b@.draft == a@.draft && b@.phase == a@.phase,
{
    if has_worker {
        let due = requests_due(a, ime_active, now, scroll_up as int);
        if a@.want_mark_read {
            assert(due.last() == (WorkRequest::MarkConvoRead { convo_id: a.convo_id }));
        }
        if poll_due(a@, ime_active, now) {
            assert(due[0] == (WorkRequest::GetConvoMessages { convo_id: a.convo_id, cursor: None }));
        }
    }
}

proof fn lemma_rows_above(v: ConversationV, key: u64, from: int)
    requires
        0 <= from,
    ensures
        match rows_above(v, key, from) {
            Some(n) => 0 <= n <= v.rows.len() && exists|i: int|
                from <= i < v.inbox.msgs.len() && (#[trigger] v.inbox.msgs[i]).key == key && (n == i
                    || n == v.rows.len() < i),
            None => forall|i: int|
                from <= i < v.inbox.msgs.len() ==> (#[trigger] v.inbox.msgs[i]).key != key,
        },
    decreases v.inbox.msgs.len() - from,
{
    if from < v.inbox.msgs.len() && v.inbox.msgs[from].key != key {
        lemma_rows_above(v, key, from + 1);
    }
}

/// The list never scrolls further than to its last message. It goes to the end
/// where that was asked for; and where older messages came on top it moves by
/// just what stands above the message that was topmost before, so that what is
/// read stays in place. Each happens once.
pub proof fn lemma_scroll_keeps_place(a: ConversationScreen, b: ConversationScreen, r: ScrollPlan)
    requires
        ConversationScreen::settled(a, b, r),
        rows_fit(a.row_heights@),
    ensures
        total(a.row_heights@) <= 448 ==> r.limit == 0,
        total(a.row_heights@) > 448 ==> r.limit == total(a.row_heights@) - 448,
        r.to_bottom == a@.to_bottom,
        a@.prepend is None ==> r.below_anchor is None,
        a@.prepend matches Some(key) ==> forall|i: int|
            0 <= i < a@.rows.len() && i < a@.inbox.msgs.len() && a@.inbox.msgs[i].key == key && (
            forall|j: int| 0 <= j < i ==> (#[trigger] a@.inbox.msgs[j]).key != key)
                ==> r.below_anchor == Some(#[trigger] row_top(a.row_heights@, i) as i32),
        !b@.to_bottom && b@.prepend is None,
        b@.inbox == a@.inbox && b@.draft == a@.draft,
{
    if let Some(key) = a@.prepend {
        lemma_rows_above(a@, key, 0);
        assert forall|i: int|
            0 <= i < a@.rows.len() && i < a@.inbox.msgs.len() && a@.inbox.msgs[i].key == key && (
            forall|j: int|
                0 <= j < i ==> (#[trigger] a@.inbox.msgs[j]).key != key) implies r.below_anchor
            == Some(#[trigger] row_top(a.row_heights@, i) as i32) by {
            lemma_first_row_above(a@, key, 0, i);
        }
    }
}

proof fn lemma_first_row_above(v: ConversationV, key: u64, from: int, i: int)
    requires
        0 <= from <= i < v.inbox.msgs.len(),
        i < v.rows.len(),
        v.inbox.msgs[i].key == key,
        forall|j: int| from <= j < i ==> (#[trigger] v.inbox.msgs[j]).key != key,
    ensures
        rows_above(v, key, from) == Some(i),
    decreases i - from,
{
    if from < i {
        assert(v.inbox.msgs[from].key != key);
        lemma_first_row_above(v, key, from + 1, i);
    }
}

/// A tap on the heading opens the profile of a member other than the reader, by
/// their handle; without such a member, or while the keyboard is open, nothing
/// opens.
pub proof fn lemma_heading_opens_profile(
    a: ConversationScreen,
    b: ConversationScreen,
    touches: Vec<TouchPoint>,
    ime_active: bool,
    r: ScreenAction,
)
    requires
        ConversationScreen::header_tapped(a, b, touches, ime_active, r),
    ensures
        match r {
            ScreenAction::Push(NextScreen::Profile { actor: Some(h) }) => !ime_active
                && touches@.len() == 0 && a@.header_btn.pressed_last && exists|i: int|
                0 <= i < a.members@.len() && (#[trigger] a.members@[i]).handle == h
                    && a.members@[i].did@ != a.own_did@,
            other => other is Stay && (ime_active || touches@.len() > 0
                || !a@.header_btn.pressed_last || forall|i: int|
                0 <= i < a.members@.len() ==> (#[trigger] a.members@[i]).did@ == a.own_did@),
        },
        b@.inbox == a@.inbox && b@.draft == a@.draft && b@.phase == a@.phase,
{
    lemma_first_other_member(a.members@, a.own_did@, 0);
}

proof fn lemma_first_other_member(members: Seq<Author>, own: Seq<char>, from: int)
    requires
        0 <= from,
    ensures
        match first_other(members, own, from) {
            Some(m) => exists|i: int|
                from <= i < members.len() && #[trigger] members[i] == m && m.did@ != own,
            None => forall|i: int|
                from <= i < members.len() ==> (#[trigger] members[i]).did@ == own,
        },
    decreases members.len() - from,
{
    if from < members.len() && members[from].did@ == own {
        lemma_first_other_member(members, own, from + 1);
    }
}

/// The list is shown as soon as there are messages; until they came, that they
/// are on their way, or why they did not come. A password without chat access is
/// told what to do about it.
pub proof fn lemma_conversation_body(s: ConversationScreen, r: ConvoBody)
    requires
        ConversationScreen::shown_body(s, r),
    ensures
        r is Loading <==> s@.phase is InitialLoading,
        r is Messages <==> s@.phase is Ready && s@.inbox.msgs.len() > 0,
        r is Empty <==> s@.phase is Ready && s@.inbox.msgs.len() == 0,
        r is Problem <==> s@.phase is InitialError,
        s@.phase matches PhaseV::InitialError { msg, auth_scope } ==> {
            &&& !auth_scope ==> (r->title)@ == "Could not load messages"@ && (r->detail)@ == msg
            &&& auth_scope ==> (r->title)@ == "Direct messages unavailable"@ && (r->detail)@
                == "This app password can't access DMs. Create one with chat access enabled in Bluesky settings, then log in again."@
        },
{
}

/// Messages are laid out from the first on, each below the one before, while
/// there is room; a message is as high as its text with its frame, and higher by
/// a line where the sender's name stands above it.
pub proof fn lemma_message_laid_out(
    a: ConversationScreen,
    b: ConversationScreen,
    text_h: i32,
    line_h: i32,
    r: bool,
)
    requires
        ConversationScreen::row_added(a, b, text_h, line_h, r),
        rows_fit(a.row_heights@),
        0 <= text_h <= MAX_CONTENT_H,
        0 <= line_h <= MAX_CONTENT_H,
    ensures
        !r ==> b@ == a@,
        r ==> {
            let i = a@.rows.len() as int;
            let m = a@.inbox.msgs[i];
            &&& i < a@.inbox.msgs.len()
            &&& b@.rows.len() == i + 1
            &&& forall|j: int| 0 <= j < i ==> #[trigger] b@.rows[j] == a@.rows[j]
            &&& m.text.len() > 0 && !m.deleted && (m.is_own || !a@.is_group) ==> b@.rows[i]
                == text_h + 26
            &&& m.text.len() > 0 && !m.deleted && !m.is_own && a@.is_group ==> b@.rows[i] == text_h
                + 44
            &&& b@.inbox == a@.inbox
        },
        a@.rows.len() >= a@.inbox.msgs.len() ==> !r,
{
}

} // verus!
