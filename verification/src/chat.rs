//! What the chat service answers, made ready for the screens.

use vstd::prelude::*;

#[allow(unused_imports)]
use crate::conversation::is_scope_error;
use crate::model::{ConvoView, DeletedMessageView, MessageView};
use crate::requests::{ConvosBatch, MessageItem, MessagesBatch, WorkResponse};
use crate::text::{contains, join2, to_ascii_lower};
#[allow(unused_imports)]
use crate::text::{ascii_lowered, contains_text, occurs_at};

verus! {

/// A message as the chat service hands it out.
#[derive(Debug)]
pub enum RawMessage {
    Message(MessageView),
    Deleted(DeletedMessageView),
    /// A kind this client does not know.
    Unknown,
}

/// Whether an error of the chat service says that the app password does not
/// reach as far as direct messages.
pub open spec fn scope_problem(e: Seq<char>) -> bool {
    let l = ascii_lowered(e);
    contains_text(l, "scope"@) || contains_text(l, "bad token"@) || contains_text(
        l,
        "invalidtoken"@,
    )
}

/// An error of the chat service as the screens are told of it.
pub open spec fn chat_error(e: Seq<char>) -> Seq<char> {
    if scope_problem(e) {
        "DM_SCOPE: "@ + e
    } else {
        e
    }
}

/// An error of the chat service, marked where the app password is to blame.
pub fn map_chat_err(e: String) -> (r: String)
    ensures
        r@ == chat_error(e@),
{
    let l = to_ascii_lower(e.as_str());
    if contains(l.as_str(), "scope") || contains(l.as_str(), "bad token") || contains(
        l.as_str(),
        "invalidtoken",
    ) {
        join2("DM_SCOPE: ", e.as_str())
    } else {
        e
    }
}

/// A message of a kind that the screens know.
pub open spec fn decoded(u: RawMessage) -> Option<MessageItem> {
    match u {
        RawMessage::Message(m) => Some(MessageItem::Message(m)),
        RawMessage::Deleted(d) => Some(MessageItem::Deleted(d)),
        RawMessage::Unknown => None,
    }
}

/// A message of a kind that the screens know; one of another kind is dropped.
pub fn decode_message_item(u: RawMessage) -> (r: Option<MessageItem>)
    ensures
        r == decoded(u),
{
    match u {
        RawMessage::Message(m) => Some(MessageItem::Message(m)),
        RawMessage::Deleted(d) => Some(MessageItem::Deleted(d)),
        RawMessage::Unknown => None,
    }
}

/// The known ones among messages, in the order opposite to theirs.
pub open spec fn oldest_first(raw: Seq<RawMessage>) -> Seq<MessageItem>
    decreases raw.len(),
{
    if raw.len() == 0 {
        Seq::empty()
    } else {
        match decoded(raw[0]) {
            Some(m) => oldest_first(raw.drop_first()).push(m),
            None => oldest_first(raw.drop_first()),
        }
    }
}

/// A page of messages. The chat service gives the newest first; here the
/// oldest comes first.
pub fn order_messages(raw: Vec<RawMessage>) -> (r: Vec<MessageItem>)
    ensures
        r@ == oldest_first(raw@),
{
    let mut raw = raw;
    let mut out: Vec<MessageItem> = Vec::new();
    let ghost all = raw@;
    assert(all.skip(all.len() as int) =~= Seq::<RawMessage>::empty());
    while raw.len() > 0
        invariant
            raw@.len() <= all.len(),
            raw@ == all.take(raw@.len() as int),
            out@ == oldest_first(all.skip(raw@.len() as int)),
        decreases raw@.len(),
    {
        let ghost n = raw@.len() as int;
        proof {
            assert(all.skip(n - 1).drop_first() =~= all.skip(n));
            assert(all.skip(n - 1)[0] == all[n - 1]);
            assert(raw@.drop_last() =~= all.take(n - 1));
            assert(raw@.last() == all[n - 1]);
        }
        if let Some(u) = raw.pop() {
            if let Some(m) = decode_message_item(u) {
                out.push(m);
            }
        }
    }
    assert(all.skip(0) =~= all);
    out
}

/// What the asker is told of conversations.
pub open spec fn convos_told(result: Result<ConvosBatch, String>, r: WorkResponse) -> bool {
    match result {
        Ok(b) => r == WorkResponse::Convos(Ok(b)),
        Err(e) => r matches WorkResponse::Convos(Err(m)) && m@ == chat_error(e@),
    }
}

/// What the asker is told of messages.
pub open spec fn messages_told(
    convo_id: String,
    result: Result<(Vec<RawMessage>, Option<String>), String>,
    r: WorkResponse,
) -> bool {
    r matches WorkResponse::ConvoMessages { convo_id: id, batch } && id == convo_id && match (
        result,
        batch,
    ) {
        (Ok(page), Ok(b)) => b.messages@ == oldest_first(page.0@) && b.cursor == page.1,
        (Err(e), Err(m)) => m@ == chat_error(e@),
        _ => false,
    }
}

/// What the asker is told of a message that was to be sent.
pub open spec fn sent_told(
    convo_id: String,
    result: Result<MessageView, String>,
    r: WorkResponse,
) -> bool {
    match result {
        Ok(v) => r == (WorkResponse::MessageSent { convo_id, result: Ok(v) }),
        Err(e) => r matches WorkResponse::MessageSent { convo_id: id, result: Err(m) } && id
            == convo_id && m@ == chat_error(e@),
    }
}

/// What the asker is told of a conversation that was to be marked as read.
pub open spec fn read_told(result: Result<(), String>, r: WorkResponse) -> bool {
    match result {
        Ok(_) => r == WorkResponse::ConvoRead(Ok(())),
        Err(e) => r matches WorkResponse::ConvoRead(Err(m)) && m@ == chat_error(e@),
    }
}

/// What the asker is told of the conversation with some accounts.
pub open spec fn members_told(result: Result<ConvoView, String>, r: WorkResponse) -> bool {
    match result {
        Ok(c) => r == WorkResponse::ConvoForMembers(Ok(c)),
        Err(e) => r matches WorkResponse::ConvoForMembers(Err(m)) && m@ == chat_error(e@),
    }
}

/// The answer to a request for conversations.
pub fn convos_answer(result: Result<ConvosBatch, String>) -> (r: WorkResponse)
    ensures
        convos_told(result, r),
{
    match result {
        Ok(b) => WorkResponse::Convos(Ok(b)),
        Err(e) => WorkResponse::Convos(Err(map_chat_err(e))),
    }
}

/// The answer to a request for messages, under the conversation asked for.
pub fn messages_answer(
    convo_id: String,
    result: Result<(Vec<RawMessage>, Option<String>), String>,
) -> (r: WorkResponse)
    ensures
        messages_told(convo_id, result, r),
{
    match result {
        Ok((raw, cursor)) => {
            let messages = order_messages(raw);
            WorkResponse::ConvoMessages { convo_id, batch: Ok(MessagesBatch { messages, cursor }) }
        },
        Err(e) => WorkResponse::ConvoMessages { convo_id, batch: Err(map_chat_err(e)) },
    }
}

/// The answer to sending a message, under the conversation it was for.
pub fn sent_answer(convo_id: String, result: Result<MessageView, String>) -> (r: WorkResponse)
    ensures
        sent_told(convo_id, result, r),
{
    match result {
        Ok(v) => WorkResponse::MessageSent { convo_id, result: Ok(v) },
        Err(e) => WorkResponse::MessageSent { convo_id, result: Err(map_chat_err(e)) },
    }
}

/// The answer to marking a conversation as read.
pub fn read_answer(result: Result<(), String>) -> (r: WorkResponse)
    ensures
        read_told(result, r),
{
    match result {
        Ok(_) => WorkResponse::ConvoRead(Ok(())),
        Err(e) => WorkResponse::ConvoRead(Err(map_chat_err(e))),
    }
}

/// The answer to a request for the conversation with some accounts.
pub fn members_answer(result: Result<ConvoView, String>) -> (r: WorkResponse)
    ensures
        members_told(result, r),
{
    match result {
        Ok(c) => WorkResponse::ConvoForMembers(Ok(c)),
        Err(e) => WorkResponse::ConvoForMembers(Err(map_chat_err(e))),
    }
}

// ── Laws ───────────────────────────────────────────────────────────────

/// The screens see an error as one of the app password exactly where it is.
pub proof fn lemma_scope_marked(e: Seq<char>)
    ensures
        is_scope_error(chat_error(e)) <==> scope_problem(e),
{
    reveal_strlit("DM_SCOPE:");
    reveal_strlit("DM_SCOPE: ");
    reveal_strlit("scope");
    if scope_problem(e) {
        assert(("DM_SCOPE: "@ + e).take(9) =~= "DM_SCOPE:"@);
    } else if is_scope_error(e) {
        let l = ascii_lowered(e);
        assert forall|i: int| 0 <= i < 9 implies e[i] == "DM_SCOPE:"@[i] by {
            assert(e.take(9)[i] == e[i]);
        }
        assert(l.subrange(3, 8) =~= "scope"@);
        assert(occurs_at(l, "scope"@, 3));
    }
}

/// No message of a known kind is lost, and each page runs from old to new.
pub proof fn lemma_messages_kept(raw: Seq<RawMessage>)
    requires
        forall|i: int| 0 <= i < raw.len() ==> !(#[trigger] raw[i] is Unknown),
    ensures
        oldest_first(raw).len() == raw.len(),
        forall|i: int|
            0 <= i < raw.len() ==> decoded(#[trigger] raw[i]) == Some(
                oldest_first(raw)[raw.len() - 1 - i],
            ),
    decreases raw.len(),
{
    if raw.len() > 0 {
        let rest = raw.drop_first();
        lemma_messages_kept(rest);
        assert forall|i: int| 0 <= i < raw.len() implies decoded(#[trigger] raw[i]) == Some(
            oldest_first(raw)[raw.len() - 1 - i],
        ) by {
            if i > 0 {
                assert(rest[i - 1] == raw[i]);
            }
        }
    }
}

/// A page is turned round: what comes later in it stands earlier, whatever is
/// left out.
pub proof fn lemma_page_turned_round(a: Seq<RawMessage>, b: Seq<RawMessage>)
    ensures
        oldest_first(a + b) == oldest_first(b) + oldest_first(a),
    decreases a.len(),
{
    if a.len() == 0 {
        assert(a + b =~= b);
        assert(oldest_first(b) + oldest_first(a) =~= oldest_first(b));
    } else {
        assert((a + b).drop_first() =~= a.drop_first() + b);
        lemma_page_turned_round(a.drop_first(), b);
        assert(oldest_first(a + b) =~= oldest_first(b) + oldest_first(a));
    }
}

/// A message is passed on as what it is, word for word: one that is there as a
/// message, one that was deleted as deleted, and only one of an unknown kind is
/// left out.
pub proof fn lemma_message_passed_on(u: RawMessage)
    ensures
        oldest_first(seq![u]).len() == if u is Unknown {
            0nat
        } else {
            1
        },
        u matches RawMessage::Message(m) ==> (oldest_first(seq![u])[0] matches MessageItem::Message(
            n,
        ) && n.id == m.id && n.text == m.text && n.sender_did == m.sender_did),
        u matches RawMessage::Deleted(d) ==> (oldest_first(seq![u])[0] matches MessageItem::Deleted(
            e,
        ) && e == d),
{
    let one = seq![u];
    assert(one.drop_first() =~= Seq::<RawMessage>::empty());
    assert(oldest_first(one.drop_first()) =~= Seq::<MessageItem>::empty());
    assert(one[0] == u);
}

/// An error is told in the words of the chat service, with the mark of the app
/// password before them where that is to blame, and with nothing else.
pub proof fn lemma_error_told(e: Seq<char>)
    ensures
        !scope_problem(e) ==> chat_error(e) == e,
        scope_problem(e) ==> chat_error(e) == "DM_SCOPE: "@ + e,
        ({
            let n = chat_error(e).len() - e.len();
            &&& n >= 0
            &&& chat_error(e).subrange(n, chat_error(e).len() as int) == e
        }),
{
    let n = chat_error(e).len() - e.len();
    assert(chat_error(e).subrange(n, chat_error(e).len() as int) =~= e);
}

/// What the chat service says is told to the one who asked: what was had as it
/// is, under the conversation it is about, and what failed with its reason.
pub proof fn lemma_asker_is_told(
    convo_id: String,
    convos: Result<ConvosBatch, String>,
    page: Result<(Vec<RawMessage>, Option<String>), String>,
    sent: Result<MessageView, String>,
    read: Result<(), String>,
    members: Result<ConvoView, String>,
    r: WorkResponse,
)
    ensures
        convos_told(convos, r) ==> (r matches WorkResponse::Convos(b) && (b is Ok <==> convos
            is Ok) && (convos matches Ok(c) ==> b->Ok_0 == c) && (convos matches Err(e)
            ==> b->Err_0@ == chat_error(e@))),
        messages_told(convo_id, page, r) ==> (r matches WorkResponse::ConvoMessages {
            convo_id: id,
            batch,
        } && id@ == convo_id@ && (batch is Ok <==> page is Ok) && (page matches Ok(p)
            ==> batch->Ok_0.cursor == p.1 && batch->Ok_0.messages@ == oldest_first(p.0@)) && (
        page matches Err(e) ==> batch->Err_0@ == chat_error(e@))),
        sent_told(convo_id, sent, r) ==> (r matches WorkResponse::MessageSent {
            convo_id: id,
            result,
        } && id@ == convo_id@ && (result is Ok <==> sent is Ok) && (sent matches Ok(m)
            ==> result->Ok_0 == m) && (sent matches Err(e) ==> result->Err_0@ == chat_error(e@))),
        read_told(read, r) ==> (r matches WorkResponse::ConvoRead(b) && (b is Ok <==> read is Ok)
            && (read matches Err(e) ==> b->Err_0@ == chat_error(e@))),
        members_told(members, r) ==> (r matches WorkResponse::ConvoForMembers(b) && (b is Ok
            <==> members is Ok) && (members matches Ok(c) ==> b->Ok_0 == c) && (
        members matches Err(e) ==> b->Err_0@ == chat_error(e@))),
{
}

} // verus!
