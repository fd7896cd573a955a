//! What holds of a conversation over any run of frames and answers.

use vstd::prelude::*;

#[allow(unused_imports)]
use crate::conversation::{
    draft_sent, first_pending, first_request, first_sent, ime_taken, is_pending, item_id,
    lemma_first_pending, msg_of, older_due, page_kind, poll_due, reconciled, requests_due,
    requests_sent, responded, send_confirmed, send_failed, take_echo, take_one, take_page,
    take_polled, take_typed, ConversationScreen, ConversationV, Delivery, ImeEvent, Inbox, MsgV,
    PageKind,
};
#[allow(unused_imports)]
use crate::requests::{sent, MessageItem, WorkRequest, WorkResponse};

verus! {

// ── One page at a time ─────────────────────────────────────────────────

/// At most one page of messages is under way, and before the first page has
/// come only the first page can be.
pub open spec fn one_fetch(v: ConversationV) -> bool {
    &&& !(v.initial_inflight && v.poll_inflight)
    &&& !(v.initial_inflight && v.older_inflight)
    &&& !(v.poll_inflight && v.older_inflight)
    &&& !(v.phase is Ready) ==> !v.poll_inflight && !v.older_inflight
}

/// Opening, typing, asking and answering keep it at one page at a time.
pub proof fn lemma_one_fetch_kept(
    v: ConversationV,
    opens: bool,
    ime_active: bool,
    now: u64,
    scroll_up: int,
    resp: WorkResponse,
    scroll: int,
)
    requires
        one_fetch(v),
    ensures
        opens && v.phase is InitialLoading ==> one_fetch(
            ConversationV { initial_inflight: true, ..v },
        ),
        one_fetch(requests_sent(v, ime_active, now, scroll_up)),
        one_fetch(draft_sent(v)),
        one_fetch(responded(v, resp, scroll, now)),
{
}

/// While a page is under way no other one is asked for.
pub proof fn lemma_no_second_fetch(
    v: ConversationV,
    ime_active: bool,
    now: u64,
    scroll_up: int,
)
    requires
        page_kind(v) is Some,
    ensures
        page_kind(requests_sent(v, ime_active, now, scroll_up)) == page_kind(v),
        !poll_due(v, ime_active, now),
        !older_due(v, scroll_up),
{
}

/// How many of some requests ask for a page of messages.
pub open spec fn pages_asked(reqs: Seq<WorkRequest>) -> nat
    decreases reqs.len(),
{
    if reqs.len() == 0 {
        0
    } else if reqs.last() is GetConvoMessages {
        pages_asked(reqs.drop_last()) + 1
    } else {
        pages_asked(reqs.drop_last())
    }
}

proof fn lemma_pages_asked_push(reqs: Seq<WorkRequest>, more: Seq<WorkRequest>)
    requires
        more.len() <= 1,
    ensures
        pages_asked(reqs + more) == pages_asked(reqs) + (if more.len() == 1
            && more[0] is GetConvoMessages {
            1nat
        } else {
            0
        }),
{
    if more.len() == 0 {
        assert(reqs + more =~= reqs);
    } else {
        assert((reqs + more).drop_last() =~= reqs);
    }
}

/// A frame asks for at most one page of messages, and for none while one is
/// under way. `m` is the conversation between the two parts of the frame.
pub proof fn lemma_one_page_a_frame(
    a: ConversationScreen,
    m: ConversationScreen,
    event: ImeEvent,
    ime_active: bool,
    now: u64,
    scroll_up: int,
)
    requires
        one_fetch(a@),
        m@ == ime_taken(first_sent(a@, true), event),
    ensures
        ({
            let asked = pages_asked(
                sent(first_request(a, true)) + requests_due(m, ime_active, now, scroll_up),
            );
            &&& asked <= 1
            &&& page_kind(a@) is Some ==> asked == 0
            &&& one_fetch(requests_sent(m@, ime_active, now, scroll_up))
        }),
{
    let first = sent(first_request(a, true));
    let polls = if poll_due(m@, ime_active, now) {
        seq![WorkRequest::GetConvoMessages { convo_id: m.convo_id, cursor: None }]
    } else {
        Seq::empty()
    };
    let p = ConversationV {
        poll_inflight: m@.poll_inflight || poll_due(m@, ime_active, now),
        ..m@
    };
    let older = if older_due(p, scroll_up) {
        seq![WorkRequest::GetConvoMessages { convo_id: m.convo_id, cursor: m.top_cursor }]
    } else {
        Seq::empty()
    };
    let read = if m@.want_mark_read {
        seq![WorkRequest::MarkConvoRead { convo_id: m.convo_id }]
    } else {
        Seq::empty()
    };
    assert(first + requests_due(m, ime_active, now, scroll_up) =~= Seq::<WorkRequest>::empty()
        + first + polls + older + read);
    lemma_pages_asked_push(Seq::empty(), first);
    lemma_pages_asked_push(Seq::<WorkRequest>::empty() + first, polls);
    lemma_pages_asked_push(Seq::<WorkRequest>::empty() + first + polls, older);
    lemma_pages_asked_push(Seq::<WorkRequest>::empty() + first + polls + older, read);
}

// ── Keys ───────────────────────────────────────────────────────────────

/// No two rows share a key, and every key was handed out already.
pub open spec fn keys_distinct(s: Inbox) -> bool {
    &&& forall|i: int| 0 <= i < s.msgs.len() ==> (#[trigger] s.msgs[i]).key < s.next_key
    &&& forall|i: int, j: int|
        0 <= i < j < s.msgs.len() ==> (#[trigger] s.msgs[i]).key != (#[trigger] s.msgs[j]).key
}

/// A row that takes on its identity keeps its key.
proof fn lemma_reconciled_keys(msgs: Seq<MsgV>, text: Seq<char>, id: Seq<char>)
    ensures
        reconciled(msgs, text, id).len() == msgs.len(),
        forall|i: int|
            0 <= i < msgs.len() ==> (#[trigger] reconciled(msgs, text, id)[i]).key == msgs[i].key,
{
    lemma_first_pending(msgs, Some(text), 0);
}

/// Keys stay distinct whatever message a page brings.
proof fn lemma_keys_one(kind: PageKind, own: Seq<char>, s: Inbox, item: MessageItem)
    requires
        keys_distinct(s),
    ensures
        keys_distinct(take_one(kind, own, s, item)),
        take_one(kind, own, s, item).next_key == s.next_key + 1,
{
    let m = msg_of(item, own, s.next_key);
    lemma_reconciled_keys(s.msgs, m.text, item_id(item));
    let r = reconciled(s.msgs, m.text, item_id(item));
    assert forall|i: int, j: int| 0 <= i < j < r.len() implies (#[trigger] r[i]).key != (
    #[trigger] r[j]).key by {
        assert(r[i].key == s.msgs[i].key && r[j].key == s.msgs[j].key);
    }
    assert forall|i: int| 0 <= i < r.len() implies (#[trigger] r[i]).key < s.next_key by {
        assert(r[i].key == s.msgs[i].key);
    }
}

/// Keys stay distinct whatever page arrives.
pub proof fn lemma_keys_page(
    kind: PageKind,
    own: Seq<char>,
    s: Inbox,
    items: Seq<MessageItem>,
    n: int,
)
    requires
        keys_distinct(s),
        0 <= n,
    ensures
        keys_distinct(take_page(kind, own, s, items, n)),
        take_page(kind, own, s, items, n).next_key == s.next_key + n,
    decreases n,
{
    if n > 0 {
        lemma_keys_page(kind, own, s, items, n - 1);
        lemma_keys_one(kind, own, take_page(kind, own, s, items, n - 1), items[n - 1]);
    }
}

/// Every row of an older page has a key from the page's own range.
proof fn lemma_older_keys(own: Seq<char>, s: Inbox, items: Seq<MessageItem>, n: int)
    requires
        s.msgs.len() == 0,
        0 <= n,
    ensures
        forall|i: int|
            0 <= i < take_page(PageKind::Older, own, s, items, n).msgs.len() ==> s.next_key <= (
            #[trigger] take_page(PageKind::Older, own, s, items, n).msgs[i]).key,
        take_page(PageKind::Older, own, s, items, n).next_key == s.next_key + n,
    decreases n,
{
    if n > 0 {
        lemma_older_keys(own, s, items, n - 1);
    }
}

/// No answer makes two rows share a key.
pub proof fn lemma_keys_stay_distinct(v: ConversationV, resp: WorkResponse, scroll: int, now: u64)
    requires
        keys_distinct(v.inbox),
    ensures
        keys_distinct(responded(v, resp, scroll, now).inbox),
        keys_distinct(draft_sent(v).inbox),
{
    match resp {
        WorkResponse::ConvoMessages { convo_id, batch: Ok(b) } => {
            let items = b.messages@;
            let n = items.len() as int;
            lemma_keys_page(PageKind::Initial, v.own_did, v.inbox, items, n);
            lemma_keys_page(PageKind::Poll, v.own_did, v.inbox, items, n);
            let start = Inbox { msgs: Seq::empty(), ..v.inbox };
            lemma_keys_page(PageKind::Older, v.own_did, start, items, n);
            lemma_older_keys(v.own_did, start, items, n);
        },
        WorkResponse::MessageSent { convo_id, result: Ok(m) } => {
            lemma_reconciled_keys(v.inbox.msgs, m.text@, m.id@);
            let r = reconciled(v.inbox.msgs, m.text@, m.id@);
            assert forall|i: int, j: int| 0 <= i < j < r.len() implies (#[trigger] r[i]).key != (
            #[trigger] r[j]).key by {
                assert(r[i].key == v.inbox.msgs[i].key && r[j].key == v.inbox.msgs[j].key);
            }
            assert forall|i: int| 0 <= i < r.len() implies (#[trigger] r[i]).key
                < v.inbox.next_key by {
                assert(r[i].key == v.inbox.msgs[i].key);
            }
        },
        WorkResponse::MessageSent { convo_id, result: Err(e) } => {
            lemma_first_pending(v.inbox.msgs, None, 0);
        },
        _ => {},
    }
}

// ── Identities ─────────────────────────────────────────────────────────

/// No two rows show the same message, and every shown one is known.
pub open spec fn ids_distinct(s: Inbox) -> bool {
    &&& forall|i: int|
        0 <= i < s.msgs.len() ==> ((#[trigger] s.msgs[i]).id matches Some(d) ==> s.seen.contains(d))
    &&& forall|i: int, j: int|
        0 <= i < j < s.msgs.len() ==> ((#[trigger] s.msgs[i]).id is Some ==> s.msgs[i].id != (
        #[trigger] s.msgs[j]).id)
}

/// Giving a row an identity that is not known yet keeps identities distinct.
proof fn lemma_reconcile_ids(s: Inbox, text: Seq<char>, id: Seq<char>)
    requires
        ids_distinct(s),
        !s.seen.contains(id),
    ensures
        ids_distinct(
            Inbox { msgs: reconciled(s.msgs, text, id), seen: s.seen.insert(id), ..s },
        ),
{
    lemma_first_pending(s.msgs, Some(text), 0);
    let r = reconciled(s.msgs, text, id);
    let k = first_pending(s.msgs, Some(text), 0);
    assert forall|i: int, j: int| 0 <= i < j < r.len() && (#[trigger] r[i]).id is Some implies r[i].id
        != (#[trigger] r[j]).id by {
        if k < s.msgs.len() {
            assert(i != k ==> r[i] == s.msgs[i]);
            assert(j != k ==> r[j] == s.msgs[j]);
        }
    }
    assert forall|i: int| 0 <= i < r.len() implies ((#[trigger] r[i]).id matches Some(d)
        ==> s.seen.insert(id).contains(d)) by {
        if k < s.msgs.len() && i != k {
            assert(r[i] == s.msgs[i]);
        }
    }
}

/// A page brings no message a second time: one that is known is passed over.
proof fn lemma_ids_one(kind: PageKind, own: Seq<char>, s: Inbox, item: MessageItem)
    requires
        ids_distinct(s),
        kind == PageKind::Initial ==> !s.seen.contains(item_id(item)),
    ensures
        ids_distinct(take_one(kind, own, s, item)),
{
    let m = msg_of(item, own, s.next_key);
    if !s.seen.contains(item_id(item)) {
        lemma_reconcile_ids(s, m.text, item_id(item));
    }
}

/// After a look at the newest page, or after an older page, no message shows
/// twice, whatever the page holds.
pub proof fn lemma_pages_never_duplicate(
    kind: PageKind,
    own: Seq<char>,
    s: Inbox,
    items: Seq<MessageItem>,
    n: int,
)
    requires
        ids_distinct(s),
        kind != PageKind::Initial,
        0 <= n,
    ensures
        ids_distinct(take_page(kind, own, s, items, n)),
    decreases n,
{
    if n > 0 {
        lemma_pages_never_duplicate(kind, own, s, items, n - 1);
        lemma_ids_one(kind, own, take_page(kind, own, s, items, n - 1), items[n - 1]);
    }
}

/// The first page shows no message twice where it holds none twice.
pub proof fn lemma_first_page_distinct(own: Seq<char>, s: Inbox, items: Seq<MessageItem>, n: int)
    requires
        ids_distinct(s),
        0 <= n <= items.len(),
        forall|i: int| 0 <= i < n ==> !s.seen.contains(item_id(#[trigger] items[i])),
        forall|i: int, j: int|
            0 <= i < j < n ==> item_id(#[trigger] items[i]) != item_id(#[trigger] items[j]),
    ensures
        ids_distinct(take_page(PageKind::Initial, own, s, items, n)),
        forall|d: Seq<char>|
            take_page(PageKind::Initial, own, s, items, n).seen.contains(d) ==> s.seen.contains(d)
                || exists|i: int| 0 <= i < n && item_id(#[trigger] items[i]) == d,
    decreases n,
{
    if n > 0 {
        lemma_first_page_distinct(own, s, items, n - 1);
        let before = take_page(PageKind::Initial, own, s, items, n - 1);
        let id = item_id(items[n - 1]);
        assert(!before.seen.contains(id)) by {
            if before.seen.contains(id) {
                let i = choose|i: int| 0 <= i < n - 1 && item_id(#[trigger] items[i]) == id;
                assert(item_id(items[i]) != item_id(items[n - 1]));
            }
        }
        lemma_ids_one(PageKind::Initial, own, before, items[n - 1]);
        let after = take_page(PageKind::Initial, own, s, items, n);
        assert forall|d: Seq<char>| after.seen.contains(d) implies s.seen.contains(d) || exists|
            i: int,
        | 0 <= i < n && item_id(#[trigger] items[i]) == d by {
            if d == id {
                assert(item_id(items[n - 1]) == d);
            } else {
                assert(before.seen.contains(d));
                if !s.seen.contains(d) {
                    let i = choose|i: int| 0 <= i < n - 1 && item_id(#[trigger] items[i]) == d;
                    assert(0 <= i < n && item_id(items[i]) == d);
                }
            }
        }
    }
}

/// What goes on top is new: an older page never repeats a row below it.
proof fn lemma_older_rows_are_new(own: Seq<char>, s: Inbox, items: Seq<MessageItem>, n: int)
    requires
        s.msgs.len() == 0,
        0 <= n,
    ensures
        ({
            let t = take_page(PageKind::Older, own, s, items, n);
            &&& forall|i: int|
                0 <= i < t.msgs.len() ==> (#[trigger] t.msgs[i]).id is Some && !s.seen.contains(
                    t.msgs[i].id->0,
                )
            &&& forall|d: Seq<char>| s.seen.contains(d) ==> t.seen.contains(d)
        }),
    decreases n,
{
    if n > 0 {
        lemma_older_rows_are_new(own, s, items, n - 1);
    }
}

/// No answer makes a message show twice: not a look at the newest page, not
/// an older page, not the echo of a message that was not known, not a failed
/// send.
pub proof fn lemma_answers_never_duplicate(
    v: ConversationV,
    resp: WorkResponse,
    scroll: int,
    now: u64,
)
    requires
        ids_distinct(v.inbox),
        page_kind(v) != Some(PageKind::Initial),
        resp matches WorkResponse::MessageSent { result: Ok(m), .. } ==> !v.inbox.seen.contains(
            m.id@,
        ),
    ensures
        ids_distinct(responded(v, resp, scroll, now).inbox),
{
    match resp {
        WorkResponse::ConvoMessages { convo_id, batch: Ok(b) } => {
            let items = b.messages@;
            let n = items.len() as int;
            lemma_pages_never_duplicate(PageKind::Poll, v.own_did, v.inbox, items, n);
            let start = Inbox { msgs: Seq::empty(), ..v.inbox };
            lemma_pages_never_duplicate(PageKind::Older, v.own_did, start, items, n);
            lemma_older_rows_are_new(v.own_did, start, items, n);
        },
        WorkResponse::MessageSent { convo_id, result: Ok(m) } => {
            lemma_reconcile_ids(v.inbox, m.text@, m.id@);
        },
        WorkResponse::MessageSent { convo_id, result: Err(e) } => {
            lemma_first_pending(v.inbox.msgs, None, 0);
            let k = first_pending(v.inbox.msgs, None, 0);
            let r = v.inbox.msgs.remove(k);
            if k < v.inbox.msgs.len() {
                assert forall|i: int| 0 <= i < r.len() implies #[trigger] r[i] == v.inbox.msgs[if i
                    < k {
                    i
                } else {
                    i + 1
                }] by {}
            }
        },
        _ => {},
    }
}

// ── Sending ────────────────────────────────────────────────────────────

/// Nothing typed here waits for its echo.
pub open spec fn none_pending(s: Inbox) -> bool {
    forall|i: int| 0 <= i < s.msgs.len() ==> !is_pending(#[trigger] s.msgs[i])
}

/// The row of a message just typed is the one that is found pending.
proof fn lemma_typed_is_found(s: Inbox, own: Seq<char>, text: Seq<char>, wanted: Option<Seq<char>>)
    requires
        none_pending(s),
        wanted matches Some(t) ==> t == text,
    ensures
        first_pending(take_typed(s, own, text).msgs, wanted, 0) == s.msgs.len(),
{
    let msgs = take_typed(s, own, text).msgs;
    lemma_first_pending(msgs, wanted, 0);
    let r = first_pending(msgs, wanted, 0);
    if r < s.msgs.len() {
        assert(msgs[r] == s.msgs[r]);
    }
    if r > s.msgs.len() {
        assert(is_pending(msgs[s.msgs.len() as int]));
    }
}

/// A send that fails leaves no trace: the messages are as before and the
/// draft is back, ready to be sent again.
pub proof fn lemma_failed_send_restores(v: ConversationV, e: Seq<char>)
    requires
        none_pending(v.inbox),
    ensures
        ({
            let w = send_failed(ConversationV { send_inflight: false, ..draft_sent(v) }, e);
            &&& w.inbox.msgs == v.inbox.msgs
            &&& w.inbox.seen == v.inbox.seen
            &&& w.draft == v.draft
        }),
{
    lemma_typed_is_found(v.inbox, v.own_did, v.draft, None);
    let sent = take_typed(v.inbox, v.own_did, v.draft).msgs;
    assert(sent.remove(v.inbox.msgs.len() as int) =~= v.inbox.msgs);
}

/// The echo of a sent message gives its row an identity and adds no other.
pub proof fn lemma_echo_reconciles(v: ConversationV, id: Seq<char>, sender: Seq<char>)
    requires
        none_pending(v.inbox),
    ensures
        ({
            let sent = ConversationV { send_inflight: false, ..draft_sent(v) };
            let w = send_confirmed(sent, id, sender, v.draft);
            &&& w.inbox.msgs == v.inbox.msgs.push(
                MsgV {
                    id: Some(id),
                    delivery: Delivery::Sent,
                    ..draft_sent(v).inbox.msgs[v.inbox.msgs.len() as int]
                },
            )
            &&& w.inbox.seen.contains(id)
            &&& none_pending(w.inbox)
        }),
{
    lemma_typed_is_found(v.inbox, v.own_did, v.draft, Some(v.draft));
    let sent = ConversationV { send_inflight: false, ..draft_sent(v) };
    let w = send_confirmed(sent, id, sender, v.draft);
    let n = v.inbox.msgs.len() as int;
    assert(w.inbox.msgs =~= v.inbox.msgs.push(
        MsgV { id: Some(id), delivery: Delivery::Sent, ..sent.inbox.msgs[n] },
    ));
}

/// A look at the newest page that shows the sent message reconciles it just
/// as well, and the echo that comes later changes nothing.
pub proof fn lemma_poll_then_echo(v: ConversationV, item: MessageItem)
    requires
        none_pending(v.inbox),
        !v.inbox.seen.contains(item_id(item)),
        item matches MessageItem::Message(m) && m.sender_did@ == v.own_did && m.text@ == v.draft,
    ensures
        ({
            let polled = take_polled(v.own_did, draft_sent(v).inbox, item);
            &&& polled.msgs.len() == v.inbox.msgs.len() + 1
            &&& polled.seen.contains(item_id(item))
            &&& none_pending(polled)
            &&& take_echo(polled, item_id(item), v.own_did, v.draft) == polled
        }),
{
    lemma_typed_is_found(v.inbox, v.own_did, v.draft, Some(v.draft));
    let s = draft_sent(v).inbox;
    let polled = take_polled(v.own_did, s, item);
    let n = v.inbox.msgs.len() as int;
    assert forall|i: int| 0 <= i < polled.msgs.len() implies !is_pending(
        #[trigger] polled.msgs[i],
    ) by {
        if i < n {
            assert(polled.msgs[i] == v.inbox.msgs[i]);
        }
    }
    lemma_first_pending(polled.msgs, Some(v.draft), 0);
}

/// An answer for another conversation changes nothing.
pub proof fn lemma_other_conversation_ignored(
    v: ConversationV,
    resp: WorkResponse,
    scroll: int,
    now: u64,
)
    requires
        match resp {
            WorkResponse::ConvoMessages { convo_id, .. } => convo_id@ != v.convo_id,
            WorkResponse::MessageSent { convo_id, .. } => convo_id@ != v.convo_id,
            _ => true,
        },
    ensures
        responded(v, resp, scroll, now) == v,
{
}

} // verus!
