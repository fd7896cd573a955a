//! One conversation: its messages, the compose bar, and how the two stay in
//! step with the server.
//!
//! Messages are kept oldest first. The newest page is asked for again every
//! few seconds; scrolling to the top asks for older ones. Only one such
//! request is ever under way, which is how an answer, which names just the
//! conversation, is matched to what was asked. Sending shows the message at
//! once; it takes on its identity when the server echoes it.

use vstd::hash_set::StringHashSet;
use vstd::prelude::*;
#[allow(unused_imports)]
use vstd::utf8::{decode_utf8, encode_utf8, encode_utf8_decode_utf8, is_char_boundary};

use crate::model::{clone_text, display_name_or, Author, ConvoView, MessageView};
#[allow(unused_imports)]
use crate::model::name_or_handle;
use crate::requests::{MessageItem, MessagesBatch, WorkRequest, WorkResponse};
use crate::rows::{content_height, max_scroll, top_of, MAX_CONTENT_H};
#[allow(unused_imports)]
use crate::rows::{row_top, rows_fit, scroll_limit, total};
use crate::screen::{NextScreen, ScreenAction};
use crate::text::{decimal_text, join2, join3, owned, same_text, starts_with};
#[allow(unused_imports)]
use crate::text::{decimal, has_prefix, opt_view};
use crate::widget::{button, ButtonState, PadFrame, Rect, TouchPoint, SCREEN_HEIGHT, SCREEN_WIDTH};
#[allow(unused_imports)]
use crate::widget::{clicked, stick_travel, touched};
use crate::widget::stick_scroll;

verus! {

pub const HEADER_H: i32 = 40;

pub const COMPOSE_H: i32 = 56;

pub const VIEWPORT_TOP: i32 = 40;

pub const VIEWPORT_BOTTOM: i32 = 488;

pub const VIEWPORT_H: i32 = 448;

pub const BUBBLE_MARGIN: i32 = 12;

pub const BUBBLE_MAX_W: i32 = 600;

pub const BUBBLE_PAD_X: i32 = 12;

pub const BUBBLE_PAD_Y: i32 = 8;

pub const ROW_GAP: i32 = 10;

pub const NAME_LINE_H: i32 = 18;

/// The longest message that can be typed.
pub const MSG_LIMIT: usize = 1000;

/// This close to the end counts as being at the end.
pub const BOTTOM_STICKY_MARGIN: i32 = 120;

/// This close to the top asks for older messages.
pub const TOP_PAGINATE_MARGIN: i32 = 80;

/// Time between two looks at the newest page, in nanoseconds.
pub const POLL_INTERVAL_NS: u64 = 4_000_000_000;

/// Whether the server is known to hold a message.
#[derive(Copy, Clone, Debug, PartialEq, Eq, Structural)]
pub enum Delivery {
    Sent,
    Sending,
}

/// One message as it is shown. Without an `id` it was typed here and has not
/// been echoed yet.
#[derive(Debug)]
pub struct Msg {
    pub id: Option<String>,
    pub local_key: u64,
    pub sender_did: String,
    pub is_own: bool,
    pub text: String,
    pub deleted: bool,
    pub delivery: Delivery,
}

/// A message, by its characters.
pub struct MsgV {
    pub id: Option<Seq<char>>,
    pub key: int,
    pub sender: Seq<char>,
    pub is_own: bool,
    pub text: Seq<char>,
    pub deleted: bool,
    pub delivery: Delivery,
}

impl View for Msg {
    type V = MsgV;

    open spec fn view(&self) -> MsgV {
        MsgV {
            id: opt_view(self.id),
            key: self.local_key as int,
            sender: self.sender_did@,
            is_own: self.is_own,
            text: self.text@,
            deleted: self.deleted,
            delivery: self.delivery,
        }
    }
}

/// A list of messages, by their characters.
pub open spec fn msgs_of(s: Seq<Msg>) -> Seq<MsgV> {
    Seq::new(s.len(), |i: int| s[i]@)
}

/// The messages of a conversation, the identities that are known, and the
/// key that the next message gets.
pub struct MessageStore {
    pub messages: Vec<Msg>,
    pub seen_ids: StringHashSet,
    pub next_local_key: u64,
}

/// A message store, by its characters.
pub struct Inbox {
    pub msgs: Seq<MsgV>,
    pub seen: Set<Seq<char>>,
    pub next_key: int,
}

impl View for MessageStore {
    type V = Inbox;

    open spec fn view(&self) -> Inbox {
        Inbox {
            msgs: msgs_of(self.messages@),
            seen: self.seen_ids@,
            next_key: self.next_local_key as int,
        }
    }
}

/// How far a conversation has come.
#[derive(Debug)]
pub enum Phase {
    InitialLoading,
    Ready,
    InitialError { msg: String, auth_scope: bool },
}

/// A phase, by its characters.
pub enum PhaseV {
    InitialLoading,
    Ready,
    InitialError { msg: Seq<char>, auth_scope: bool },
}

impl View for Phase {
    type V = PhaseV;

    open spec fn view(&self) -> PhaseV {
        match *self {
            Phase::InitialLoading => PhaseV::InitialLoading,
            Phase::Ready => PhaseV::Ready,
            Phase::InitialError { msg, auth_scope } => PhaseV::InitialError {
                msg: msg@,
                auth_scope,
            },
        }
    }
}

/// A conversation on screen.
pub struct ConversationScreen {
    pub convo_id: String,
    pub own_did: String,
    pub members: Vec<Author>,
    pub title: String,
    pub is_group: bool,
    pub phase: Phase,
    pub store: MessageStore,
    /// The measured heights of the leading messages.
    pub row_heights: Vec<i32>,
    pub top_cursor: Option<String>,
    pub reached_top: bool,
    pub pending_scroll_to_bottom: bool,
    /// The message that stays where it is once older ones stand above it.
    pub pending_prepend: Option<u64>,
    pub initial_inflight: bool,
    pub poll_inflight: bool,
    pub older_inflight: bool,
    pub send_inflight: bool,
    /// When the newest page was last looked at, in nanoseconds.
    pub last_poll: u64,
    pub want_mark_read: bool,
    pub draft: String,
    pub compose_btn: ButtonState,
    pub send_btn: ButtonState,
    pub header_btn: ButtonState,
    pub auth_blocked: bool,
}

/// A conversation on screen, by its characters.
pub struct ConversationV {
    pub convo_id: Seq<char>,
    pub own_did: Seq<char>,
    pub members: Seq<Author>,
    pub title: Seq<char>,
    pub is_group: bool,
    pub phase: PhaseV,
    pub inbox: Inbox,
    pub rows: Seq<i32>,
    pub top_cursor: Option<Seq<char>>,
    pub reached_top: bool,
    pub to_bottom: bool,
    pub prepend: Option<u64>,
    pub initial_inflight: bool,
    pub poll_inflight: bool,
    pub older_inflight: bool,
    pub send_inflight: bool,
    pub last_poll: u64,
    pub want_mark_read: bool,
    pub draft: Seq<char>,
    pub compose_btn: ButtonState,
    pub send_btn: ButtonState,
    pub header_btn: ButtonState,
    pub auth_blocked: bool,
}

impl View for ConversationScreen {
    type V = ConversationV;

    open spec fn view(&self) -> ConversationV {
        ConversationV {
            convo_id: self.convo_id@,
            own_did: self.own_did@,
            members: self.members@,
            title: self.title@,
            is_group: self.is_group,
            phase: self.phase@,
            inbox: self.store@,
            rows: self.row_heights@,
            top_cursor: opt_view(self.top_cursor),
            reached_top: self.reached_top,
            to_bottom: self.pending_scroll_to_bottom,
            prepend: self.pending_prepend,
            initial_inflight: self.initial_inflight,
            poll_inflight: self.poll_inflight,
            older_inflight: self.older_inflight,
            send_inflight: self.send_inflight,
            last_poll: self.last_poll,
            want_mark_read: self.want_mark_read,
            draft: self.draft@,
            compose_btn: self.compose_btn,
            send_btn: self.send_btn,
            header_btn: self.header_btn,
            auth_blocked: self.auth_blocked,
        }
    }
}

// ── What the server's messages become ──────────────────────────────────

/// The identity the server gives a message.
pub open spec fn item_id(item: MessageItem) -> Seq<char> {
    match item {
        MessageItem::Message(m) => m.id@,
        MessageItem::Deleted(d) => d.id@,
    }
}

/// Who sent a message.
pub open spec fn item_sender(item: MessageItem) -> Seq<char> {
    match item {
        MessageItem::Message(m) => m.sender_did@,
        MessageItem::Deleted(d) => d.sender_did@,
    }
}

/// The row that shows a message of the server.
pub open spec fn msg_of(item: MessageItem, own: Seq<char>, key: int) -> MsgV {
    MsgV {
        id: Some(item_id(item)),
        key,
        sender: item_sender(item),
        is_own: item_sender(item) == own,
        text: match item {
            MessageItem::Message(m) => m.text@,
            MessageItem::Deleted(_) => Seq::empty(),
        },
        deleted: item is Deleted,
        delivery: Delivery::Sent,
    }
}

/// A row that was typed here and still waits for its echo.
pub open spec fn is_pending(m: MsgV) -> bool {
    m.is_own && m.id is None && m.delivery == Delivery::Sending
}

/// The first index from `from` on at which a pending row (with this text,
/// where one is given) stands; the length where there is none.
pub open spec fn first_pending(msgs: Seq<MsgV>, text: Option<Seq<char>>, from: int) -> int
    decreases msgs.len() - from,
{
    if from >= msgs.len() {
        msgs.len() as int
    } else if is_pending(msgs[from]) && (text matches Some(t) ==> msgs[from].text == t) {
        from
    } else {
        first_pending(msgs, text, from + 1)
    }
}

/// [`first_pending`] finds a pending row that fits, and passes over none.
pub proof fn lemma_first_pending(msgs: Seq<MsgV>, text: Option<Seq<char>>, from: int)
    requires
        0 <= from <= msgs.len(),
    ensures
        from <= first_pending(msgs, text, from) <= msgs.len(),
        ({
            let r = first_pending(msgs, text, from);
            r < msgs.len() ==> is_pending(msgs[r]) && (text matches Some(t) ==> msgs[r].text == t)
        }),
        forall|i: int|
            from <= i < first_pending(msgs, text, from) ==> !(is_pending(#[trigger] msgs[i]) && (
            text matches Some(t) ==> msgs[i].text == t)),
    decreases msgs.len() - from,
{
    if from < msgs.len() && !(is_pending(msgs[from]) && (text matches Some(t) ==> msgs[from].text
        == t)) {
        lemma_first_pending(msgs, text, from + 1);
    }
}

/// The rows after the first pending one with this text took on an identity.
pub open spec fn reconciled(msgs: Seq<MsgV>, text: Seq<char>, id: Seq<char>) -> Seq<MsgV> {
    let i = first_pending(msgs, Some(text), 0);
    if i < msgs.len() {
        msgs.update(i, MsgV { id: Some(id), delivery: Delivery::Sent, ..msgs[i] })
    } else {
        msgs
    }
}

/// Whether some pending row has this text.
pub open spec fn has_pending(msgs: Seq<MsgV>, text: Seq<char>) -> bool {
    first_pending(msgs, Some(text), 0) < msgs.len()
}

/// One message of the first page: it is appended.
pub open spec fn take_initial(own: Seq<char>, s: Inbox, item: MessageItem) -> Inbox {
    Inbox {
        msgs: s.msgs.push(msg_of(item, own, s.next_key)),
        seen: s.seen.insert(item_id(item)),
        next_key: s.next_key + 1,
    }
}

/// One message of the newest page: known ones are passed over, an own one
/// gives a pending row of the same text its identity, any other is appended.
pub open spec fn take_polled(own: Seq<char>, s: Inbox, item: MessageItem) -> Inbox {
    let m = msg_of(item, own, s.next_key);
    let id = item_id(item);
    if s.seen.contains(id) {
        Inbox { next_key: s.next_key + 1, ..s }
    } else if m.is_own && has_pending(s.msgs, m.text) {
        Inbox {
            msgs: reconciled(s.msgs, m.text, id),
            seen: s.seen.insert(id),
            next_key: s.next_key + 1,
        }
    } else {
        Inbox {
            msgs: s.msgs.push(m),
            seen: s.seen.insert(id),
            next_key: s.next_key + 1,
        }
    }
}

/// One message of an older page: it is appended to the rows that will go on
/// top, unless it is known.
pub open spec fn take_older(own: Seq<char>, s: Inbox, item: MessageItem) -> Inbox {
    if s.seen.contains(item_id(item)) {
        Inbox { next_key: s.next_key + 1, ..s }
    } else {
        take_initial(own, s, item)
    }
}

/// Which page an answer holds.
#[derive(Copy, Clone, Debug, PartialEq, Eq, Structural)]
pub enum PageKind {
    Initial,
    Poll,
    Older,
}

/// One message of a page.
pub open spec fn take_one(kind: PageKind, own: Seq<char>, s: Inbox, item: MessageItem) -> Inbox {
    match kind {
        PageKind::Initial => take_initial(own, s, item),
        PageKind::Poll => take_polled(own, s, item),
        PageKind::Older => take_older(own, s, item),
    }
}

/// The leading `n` messages of a page.
pub open spec fn take_page(
    kind: PageKind,
    own: Seq<char>,
    s: Inbox,
    items: Seq<MessageItem>,
    n: int,
) -> Inbox
    decreases n,
{
    if n <= 0 {
        s
    } else {
        take_one(kind, own, take_page(kind, own, s, items, n - 1), items[n - 1])
    }
}

/// The request that an answer belongs to: the one that is under way.
pub open spec fn page_kind(v: ConversationV) -> Option<PageKind> {
    if v.initial_inflight {
        Some(PageKind::Initial)
    } else if v.older_inflight {
        Some(PageKind::Older)
    } else if v.poll_inflight {
        Some(PageKind::Poll)
    } else {
        None
    }
}

/// The state once the request of this kind is no longer under way.
pub open spec fn answered(v: ConversationV, kind: PageKind, now: u64) -> ConversationV {
    match kind {
        PageKind::Initial => ConversationV { initial_inflight: false, ..v },
        PageKind::Older => ConversationV { older_inflight: false, ..v },
        PageKind::Poll => ConversationV { poll_inflight: false, last_poll: now, ..v },
    }
}

/// Whether the view stands at the end of the messages, or nearly so.
pub open spec fn at_bottom(v: ConversationV, scroll: int) -> bool {
    scroll >= scroll_limit(total(v.rows), VIEWPORT_H as int) - BOTTOM_STICKY_MARGIN
}

/// What a page of messages changes.
pub open spec fn page_arrived(
    v: ConversationV,
    kind: PageKind,
    items: Seq<MessageItem>,
    cursor: Option<Seq<char>>,
    scroll: int,
) -> ConversationV {
    match kind {
        PageKind::Initial => {
            let after = take_page(kind, v.own_did, v.inbox, items, items.len() as int);
            ConversationV {
                inbox: after,
                top_cursor: cursor,
                reached_top: cursor is None,
                phase: PhaseV::Ready,
                to_bottom: true,
                want_mark_read: v.want_mark_read || after.msgs.len() > 0,
                ..v
            }
        },
        PageKind::Poll => {
            let after = take_page(kind, v.own_did, v.inbox, items, items.len() as int);
            let follow = after.msgs.len() > v.inbox.msgs.len() && at_bottom(v, scroll);
            ConversationV {
                inbox: after,
                to_bottom: v.to_bottom || follow,
                want_mark_read: v.want_mark_read || follow,
                ..v
            }
        },
        PageKind::Older => {
            let top = take_page(
                kind,
                v.own_did,
                Inbox { msgs: Seq::empty(), ..v.inbox },
                items,
                items.len() as int,
            );
            let grew = top.msgs.len() > 0;
            let had = v.inbox.msgs.len() > 0;
            ConversationV {
                inbox: Inbox { msgs: top.msgs + v.inbox.msgs, ..top },
                rows: if grew {
                    Seq::empty()
                } else {
                    v.rows
                },
                prepend: if grew && had {
                    Some(v.inbox.msgs[0].key as u64)
                } else {
                    v.prepend
                },
                to_bottom: v.to_bottom || (grew && !had),
                top_cursor: cursor,
                reached_top: cursor is None,
                ..v
            }
        },
    }
}

/// A refusal that a password without chat access earns.
pub open spec fn is_scope_error(e: Seq<char>) -> bool {
    has_prefix(e, "DM_SCOPE:"@)
}

/// What an error in place of a page changes.
pub open spec fn page_failed(v: ConversationV, kind: PageKind, e: Seq<char>) -> ConversationV {
    if kind == PageKind::Initial {
        ConversationV {
            phase: PhaseV::InitialError { msg: e, auth_scope: is_scope_error(e) },
            ..v
        }
    } else {
        ConversationV { auth_blocked: v.auth_blocked || is_scope_error(e), ..v }
    }
}

/// What the echo of a sent message makes of the messages.
pub open spec fn take_echo(s: Inbox, id: Seq<char>, sender: Seq<char>, text: Seq<char>) -> Inbox {
    if has_pending(s.msgs, text) {
        Inbox { msgs: reconciled(s.msgs, text, id), seen: s.seen.insert(id), ..s }
    } else if s.seen.contains(id) {
        s
    } else {
        Inbox {
            msgs: s.msgs.push(
                MsgV {
                    id: Some(id),
                    key: s.next_key,
                    sender,
                    is_own: true,
                    text,
                    deleted: false,
                    delivery: Delivery::Sent,
                },
            ),
            seen: s.seen.insert(id),
            next_key: s.next_key + 1,
        }
    }
}

/// What the echo of a sent message changes.
pub open spec fn send_confirmed(
    v: ConversationV,
    id: Seq<char>,
    sender: Seq<char>,
    text: Seq<char>,
) -> ConversationV {
    let after = take_echo(v.inbox, id, sender, text);
    ConversationV {
        inbox: after,
        to_bottom: v.to_bottom || after.msgs.len() > v.inbox.msgs.len(),
        ..v
    }
}

/// What the failure of a send changes: the pending row goes, and its text
/// comes back as the draft unless another one was begun.
pub open spec fn send_failed(v: ConversationV, e: Seq<char>) -> ConversationV {
    let i = first_pending(v.inbox.msgs, None, 0);
    let blocked = v.auth_blocked || is_scope_error(e);
    if i < v.inbox.msgs.len() {
        ConversationV {
            inbox: Inbox { msgs: v.inbox.msgs.remove(i), ..v.inbox },
            rows: Seq::empty(),
            draft: if v.draft.len() == 0 {
                v.inbox.msgs[i].text
            } else {
                v.draft
            },
            auth_blocked: blocked,
            ..v
        }
    } else {
        ConversationV { auth_blocked: blocked, ..v }
    }
}

/// What any answer changes.
pub open spec fn responded(
    v: ConversationV,
    resp: WorkResponse,
    scroll: int,
    now: u64,
) -> ConversationV {
    match resp {
        WorkResponse::ConvoMessages { convo_id, batch } => {
            if convo_id@ != v.convo_id || page_kind(v) is None {
                v
            } else {
                let kind = page_kind(v)->0;
                let w = answered(v, kind, now);
                match batch {
                    Ok(b) => page_arrived(w, kind, b.messages@, opt_view(b.cursor), scroll),
                    Err(e) => page_failed(w, kind, e@),
                }
            }
        },
        WorkResponse::MessageSent { convo_id, result } => {
            if convo_id@ != v.convo_id {
                v
            } else {
                let w = ConversationV { send_inflight: false, ..v };
                match result {
                    Ok(m) => send_confirmed(w, m.id@, m.sender_did@, m.text@),
                    Err(e) => send_failed(w, e@),
                }
            }
        },
        _ => v,
    }
}

/// The local keys that an answer can use up.
pub open spec fn keys_needed(resp: WorkResponse) -> nat {
    match resp {
        WorkResponse::ConvoMessages { batch: Ok(b), .. } => b.messages@.len(),
        WorkResponse::MessageSent { .. } => 1,
        _ => 0,
    }
}

// ── Names ──────────────────────────────────────────────────────────────

/// The members other than the reader.
pub open spec fn others(members: Seq<Author>, own: Seq<char>) -> Seq<Author> {
    members.filter(|m: Author| m.did@ != own)
}

/// The title of a conversation: the other member's name, and how many more
/// there are.
pub open spec fn title_of(members: Seq<Author>, own: Seq<char>) -> Seq<char> {
    let o = others(members, own);
    if o.len() == 0 {
        "(you)"@
    } else if o.len() == 1 {
        name_or_handle(o[0].display_name, o[0].handle@)
    } else {
        name_or_handle(o[0].display_name, o[0].handle@) + " +"@ + decimal((o.len() - 1) as nat)
    }
}

/// The first member other than the reader, from `from` on.
pub open spec fn first_other(members: Seq<Author>, own: Seq<char>, from: int) -> Option<Author>
    decreases members.len() - from,
{
    if from >= members.len() {
        None
    } else if members[from].did@ != own {
        Some(members[from])
    } else {
        first_other(members, own, from + 1)
    }
}

/// The index of the first member other than the reader.
pub(crate) fn find_other(members: &Vec<Author>, own: &str) -> (r: Option<usize>)
    ensures
        match r {
            Some(i) => i < members@.len() && first_other(members@, own@, 0) == Some(
                members@[i as int],
            ),
            None => first_other(members@, own@, 0) is None,
        },
{
    let mut i: usize = 0;
    while i < members.len()
        invariant
            i <= members@.len(),
            first_other(members@, own@, 0) == first_other(members@, own@, i as int),
        decreases members@.len() - i,
    {
        if !same_text(members[i].did.as_str(), own) {
            return Some(i);
        }
        i += 1;
    }
    None
}

/// The title of a conversation with these members.
pub fn build_title(members: &Vec<Author>, own_did: &str) -> (r: String)
    ensures
        r@ == title_of(members@, own_did@),
{
    let ghost keep = |m: Author| m.did@ != own_did@;
    let mut first: usize = 0;
    let mut count: usize = 0;
    let mut i: usize = 0;
    while i < members.len()
        invariant
            i <= members@.len(),
            count <= i,
            keep == (|m: Author| m.did@ != own_did@),
            count == members@.take(i as int).filter(keep).len(),
            count > 0 ==> first < i && members@.take(i as int).filter(keep)[0]
                == members@[first as int],
        decreases members@.len() - i,
    {
        proof {
            assert(members@.take(i + 1).drop_last() =~= members@.take(i as int));
            reveal_with_fuel(Seq::filter, 2);
        }
        if !same_text(members[i].did.as_str(), own_did) {
            if count == 0 {
                first = i;
            }
            count += 1;
        }
        i += 1;
    }
    assert(members@.take(members@.len() as int) =~= members@);
    if count == 0 {
        return owned("(you)");
    }
    let name = member_display(&members[first]);
    if count == 1 {
        return name;
    }
    let more = decimal_text((count - 1) as u64);
    join3(name.as_str(), " +", more.as_str())
}

/// The name a member is shown under.
pub fn member_display(m: &Author) -> (r: String)
    ensures
        r@ == name_or_handle(m.display_name, m.handle@),
{
    display_name_or(&m.display_name, m.handle.as_str())
}

/// The name of the first member with this identity, from `from` on.
pub open spec fn named_member(members: Seq<Author>, did: Seq<char>, from: int) -> Option<Author>
    decreases members.len() - from,
{
    if from >= members.len() {
        None
    } else if members[from].did@ == did {
        Some(members[from])
    } else {
        named_member(members, did, from + 1)
    }
}

/// An identity, shortened to its last eight bytes where it is long.
pub open spec fn short_form(did: Seq<char>) -> Seq<char> {
    let bytes = encode_utf8(did);
    if bytes.len() > 10 {
        "…"@ + decode_utf8(bytes.subrange(bytes.len() - 8, bytes.len() as int))
    } else {
        did
    }
}

/// A long identity can be cut before its last eight bytes: no character
/// straddles that place.
pub open spec fn can_shorten(did: Seq<char>) -> bool {
    encode_utf8(did).len() > 10 ==> is_char_boundary(
        encode_utf8(did),
        encode_utf8(did).len() - 8,
    )
}

/// A member goes under their name, an unknown account under a short form of it.
pub open spec fn name_told(members: Vec<Author>, did: Seq<char>, r: String) -> bool {
    r@ == (match named_member(members@, did, 0) {
        Some(m) => name_or_handle(m.display_name, m.handle@),
        None => short_form(did),
    })
}

/// Name of the member with this identity; a short form of the identity where
/// there is no such member.
pub fn member_name(members: &Vec<Author>, did: &str) -> (r: String)
    requires
        named_member(members@, did@, 0) is None ==> can_shorten(did@),
    ensures
        name_told(*members, did@, r),
{
    let mut i: usize = 0;
    while i < members.len()
        invariant
            i <= members@.len(),
            named_member(members@, did@, 0) is None ==> can_shorten(did@),
            named_member(members@, did@, 0) == named_member(members@, did@, i as int),
        decreases members@.len() - i,
    {
        if same_text(members[i].did.as_str(), did) {
            return member_display(&members[i]);
        }
        i += 1;
    }
    short_did(did)
}

/// An identity, shortened to its last eight bytes where it is long.
pub fn short_did(did: &str) -> (r: String)
    requires
        can_shorten(did@),
    ensures
        r@ == short_form(did@),
{
    let n: usize = did.as_bytes().len();
    if n > 10 {
        let tail = did.split_at(n - 8).1;
        proof {
            encode_utf8_decode_utf8(tail@);
        }
        join2("…", tail)
    } else {
        owned(did)
    }
}

/// What a message bubble reads.
pub open spec fn bubble_of(m: MsgV) -> Seq<char> {
    if m.deleted {
        "(message deleted)"@
    } else {
        m.text
    }
}

/// What a message bubble reads.
pub fn bubble_text(msg: &Msg) -> (r: String)
    ensures
        r@ == bubble_of(msg@),
{
    if msg.deleted {
        owned("(message deleted)")
    } else {
        msg.text.clone()
    }
}

// ── The screen ─────────────────────────────────────────────────────────

/// What the on-screen keyboard reports.
#[derive(Debug)]
pub enum ImeEvent {
    /// Nothing new.
    Idle,
    /// Closed with this text.
    Finished(String),
    /// Closed without one.
    Dismissed,
}

/// What the pad asks of a conversation.
#[derive(Copy, Clone, Debug, PartialEq, Eq, Structural)]
pub struct ConvoInput {
    /// Leave the screen.
    pub pop: bool,
    /// Pixels to scroll by at once.
    pub nudge: i32,
    /// Stick travel to scroll by.
    pub stick: i32,
}

/// What the first part of a frame of a conversation asks for.
#[derive(Debug)]
pub struct ConvoStart {
    pub request: Option<WorkRequest>,
    /// The keyboard is to be closed.
    pub close: bool,
}

/// How the scroll position is settled before drawing.
#[derive(Copy, Clone, Debug, PartialEq, Eq, Structural)]
pub struct ScrollPlan {
    /// The position can be at most this.
    pub limit: i32,
    /// Go to the end first.
    pub to_bottom: bool,
    /// Then, if present, go this far below the position from before older
    /// messages were put on top.
    pub below_anchor: Option<i32>,
}

/// What the compose bar shows and asks for.
#[derive(Debug)]
pub struct ComposeBar {
    pub text: String,
    pub tone: ComposeTone,
    /// Open the keyboard on the draft.
    pub open_ime: bool,
    pub request: Option<WorkRequest>,
}

/// How the text of the compose bar is drawn.
#[derive(Copy, Clone, Debug, PartialEq, Eq, Structural)]
pub enum ComposeTone {
    Error,
    Muted,
    Plain,
}

/// What stands in place of the messages.
#[derive(Debug)]
pub enum ConvoBody {
    /// The messages themselves.
    Messages,
    Loading,
    Empty,
    Problem { title: String, detail: String },
}

pub open spec fn send_rect() -> Rect {
    Rect { x: 864, y: 496, w: 84, h: 40 }
}

pub open spec fn text_rect() -> Rect {
    Rect { x: 12, y: 496, w: 840, h: 40 }
}

pub open spec fn header_rect() -> Rect {
    Rect { x: 0, y: 0, w: 960, h: 40 }
}

/// Whether the draft may be sent.
pub open spec fn can_send(v: ConversationV, ime_active: bool) -> bool {
    !ime_active && v.draft.len() > 0 && !v.send_inflight && !v.auth_blocked
}

/// The messages with one more that was typed here.
pub open spec fn take_typed(s: Inbox, own: Seq<char>, text: Seq<char>) -> Inbox {
    Inbox {
        msgs: s.msgs.push(
            MsgV {
                id: None,
                key: s.next_key,
                sender: own,
                is_own: true,
                text,
                deleted: false,
                delivery: Delivery::Sending,
            },
        ),
        next_key: s.next_key + 1,
        ..s
    }
}

/// The state once the draft has been sent.
pub open spec fn draft_sent(v: ConversationV) -> ConversationV {
    ConversationV {
        draft: Seq::empty(),
        inbox: take_typed(v.inbox, v.own_did, v.draft),
        send_inflight: true,
        to_bottom: true,
        ..v
    }
}

/// One frame of the compose bar, which a loaded conversation shows.
pub open spec fn bar_followed(
    a: ConversationScreen,
    b: ConversationScreen,
    touches: Seq<TouchPoint>,
    ime_active: bool,
    has_worker: bool,
    r: Option<ComposeBar>,
) -> bool {
    let v = a@;
    if !(v.phase is Ready) {
        r is None && b == a
    } else {
        let bar = r->0;
        let pressed = ConversationV {
            send_btn: ButtonState { pressed_last: touched(touches, send_rect()) },
            compose_btn: ButtonState { pressed_last: touched(touches, text_rect()) },
            ..v
        };
        let sends = clicked(
            can_send(v, ime_active),
            v.send_btn.pressed_last,
            touched(touches, send_rect()),
            touches.len() > 0,
        );
        let taps = clicked(
            !ime_active,
            v.compose_btn.pressed_last,
            touched(touches, text_rect()),
            touches.len() > 0,
        );
        &&& r is Some
        &&& b@ == (if sends {
            draft_sent(pressed)
        } else {
            pressed
        })
        &&& bar.open_ime == (taps && !v.auth_blocked)
        &&& if sends && has_worker {
            bar.request matches Some(WorkRequest::SendMessage { convo_id, text }) && convo_id
                == a.convo_id && text@ == v.draft
        } else {
            bar.request is None
        }
        &&& bar.text@ == (if v.auth_blocked {
            "DMs need a chat-enabled app password"@
        } else if v.draft.len() == 0 {
            "Message…"@
        } else {
            v.draft
        })
        &&& bar.tone == (if v.auth_blocked {
            ComposeTone::Error
        } else if v.draft.len() == 0 {
            ComposeTone::Muted
        } else {
            ComposeTone::Plain
        })
    }
}

/// The state once the keyboard's report has been taken.
pub open spec fn ime_taken(v: ConversationV, event: ImeEvent) -> ConversationV {
    match event {
        ImeEvent::Finished(s) => ConversationV { draft: s@, ..v },
        _ => v,
    }
}

/// The first page is due.
pub open spec fn first_due(v: ConversationV, has_worker: bool) -> bool {
    v.phase is InitialLoading && !v.initial_inflight && has_worker
}

/// The request for the first page, when it is due.
pub open spec fn first_request(s: ConversationScreen, has_worker: bool) -> Option<WorkRequest> {
    if first_due(s@, has_worker) {
        Some(WorkRequest::GetConvoMessages { convo_id: s.convo_id, cursor: None })
    } else {
        None
    }
}

/// The state after the first page has been asked for.
pub open spec fn first_sent(v: ConversationV, has_worker: bool) -> ConversationV {
    ConversationV { initial_inflight: v.initial_inflight || first_due(v, has_worker), ..v }
}

/// No page of messages is under way.
pub open spec fn idle(v: ConversationV) -> bool {
    !v.initial_inflight && !v.poll_inflight && !v.older_inflight
}

/// The newest page is due for another look.
pub open spec fn poll_due(v: ConversationV, ime_active: bool, now: u64) -> bool {
    v.phase is Ready && idle(v) && !ime_active && now - v.last_poll >= POLL_INTERVAL_NS
}

/// Older messages are due.
pub open spec fn older_due(v: ConversationV, scroll_up: int) -> bool {
    v.phase is Ready && idle(v) && !v.reached_top && v.top_cursor is Some && scroll_up
        <= TOP_PAGINATE_MARGIN
}

/// The state after this frame's requests have been sent.
pub open spec fn requests_sent(
    v: ConversationV,
    ime_active: bool,
    now: u64,
    scroll_up: int,
) -> ConversationV {
    let p = ConversationV { poll_inflight: v.poll_inflight || poll_due(v, ime_active, now), ..v };
    ConversationV {
        older_inflight: p.older_inflight || older_due(p, scroll_up),
        want_mark_read: false,
        ..p
    }
}

/// This frame's requests, in order.
pub open spec fn requests_due(
    s: ConversationScreen,
    ime_active: bool,
    now: u64,
    scroll_up: int,
) -> Seq<WorkRequest> {
    let polls = if poll_due(s@, ime_active, now) {
        seq![WorkRequest::GetConvoMessages { convo_id: s.convo_id, cursor: None }]
    } else {
        Seq::empty()
    };
    let p = ConversationV { poll_inflight: s@.poll_inflight || poll_due(s@, ime_active, now), ..s@ };
    let older = if older_due(p, scroll_up) {
        seq![WorkRequest::GetConvoMessages { convo_id: s.convo_id, cursor: s.top_cursor }]
    } else {
        Seq::empty()
    };
    let read = if s@.want_mark_read {
        seq![WorkRequest::MarkConvoRead { convo_id: s.convo_id }]
    } else {
        Seq::empty()
    };
    polls + older + read
}

/// The number of leading rows that stand above the row with this key.
pub open spec fn rows_above(v: ConversationV, key: u64, from: int) -> Option<int>
    decreases v.inbox.msgs.len() - from,
{
    if from >= v.inbox.msgs.len() {
        None
    } else if v.inbox.msgs[from].key == key {
        Some(
            if from <= v.rows.len() {
                from
            } else {
                v.rows.len() as int
            },
        )
    } else {
        rows_above(v, key, from + 1)
    }
}

impl MessageStore {
    /// A fresh local key.
    fn next_key(&mut self) -> (k: u64)
        requires
            old(self).next_local_key < u64::MAX,
        ensures
            k == old(self).next_local_key,
            *final(self) == (MessageStore { next_local_key: (k + 1) as u64, ..*old(self) }),
    {
        let k = self.next_local_key;
        self.next_local_key = k + 1;
        k
    }

    /// The row for a message of the server.
    fn msg_from_item(&mut self, own: &str, item: &MessageItem) -> (m: Msg)
        requires
            old(self).next_local_key < u64::MAX,
        ensures
            m@ == msg_of(*item, own@, old(self).next_local_key as int),
            m.id is Some,
            *final(self) == (MessageStore {
                next_local_key: (old(self).next_local_key + 1) as u64,
                ..*old(self)
            }),
    {
        let key = self.next_key();
        match item {
            MessageItem::Message(m) => Msg {
                id: Some(m.id.clone()),
                local_key: key,
                is_own: same_text(m.sender_did.as_str(), own),
                sender_did: m.sender_did.clone(),
                text: m.text.clone(),
                deleted: false,
                delivery: Delivery::Sent,
            },
            MessageItem::Deleted(d) => Msg {
                id: Some(d.id.clone()),
                local_key: key,
                is_own: same_text(d.sender_did.as_str(), own),
                sender_did: d.sender_did.clone(),
                text: String::new(),
                deleted: true,
                delivery: Delivery::Sent,
            },
        }
    }

    /// The first pending row, with this text where one is given.
    fn find_pending(&self, text: Option<&str>) -> (r: Option<usize>)
        ensures
            ({
                let wanted = match text {
                    Some(t) => Some(t@),
                    None => None,
                };
                match r {
                    Some(i) => i < self.messages@.len() && i == first_pending(
                        self@.msgs,
                        wanted,
                        0,
                    ),
                    None => first_pending(self@.msgs, wanted, 0) == self@.msgs.len(),
                }
            }),
    {
        let ghost wanted = match text {
            Some(t) => Some(t@),
            None => None,
        };
        let mut i: usize = 0;
        while i < self.messages.len()
            invariant
                i <= self.messages@.len(),
                wanted == (match text {
                    Some(t) => Some(t@),
                    None => None,
                }),
                first_pending(self@.msgs, wanted, 0) == first_pending(
                    self@.msgs,
                    wanted,
                    i as int,
                ),
            decreases self.messages@.len() - i,
        {
            let m = &self.messages[i];
            let fits = m.is_own && m.id.is_none() && m.delivery == Delivery::Sending && (
            match text {
                Some(t) => same_text(m.text.as_str(), t),
                None => true,
            });
            assert(self@.msgs[i as int] == m@);
            if fits {
                return Some(i);
            }
            i += 1;
        }
        None
    }

    /// Gives the first pending row with this text its identity.
    fn reconcile_optimistic(&mut self, id: &str, text: &str) -> (r: bool)
        ensures
            r == has_pending(old(self)@.msgs, text@),
            r ==> final(self)@ == (Inbox {
                msgs: reconciled(old(self)@.msgs, text@, id@),
                seen: old(self)@.seen.insert(id@),
                ..old(self)@
            }),
            !r ==> *final(self) == *old(self),
            final(self).next_local_key == old(self).next_local_key,
    {
        match self.find_pending(Some(text)) {
            Some(i) => {
                let ghost before = self@;
                self.messages[i].id = Some(owned(id));
                self.messages[i].delivery = Delivery::Sent;
                self.seen_ids.insert(owned(id));
                assert(self@.msgs =~= reconciled(before.msgs, text@, id@));
                true
            },
            None => false,
        }
    }

    /// Takes one message of a page. An older one that is to go on top comes
    /// back.
    fn take_item(&mut self, kind: PageKind, own: &str, item: &MessageItem) -> (r: Option<Msg>)
        requires
            old(self).next_local_key < u64::MAX,
        ensures
            kind != PageKind::Older ==> r is None && final(self)@ == take_one(
                kind,
                own@,
                old(self)@,
                *item,
            ),
            kind == PageKind::Older ==> ({
                let known = old(self)@.seen.contains(item_id(*item));
                &&& r is None == known
                &&& r matches Some(m) ==> m@ == msg_of(*item, own@, old(self)@.next_key)
                &&& final(self).messages == old(self).messages
                &&& final(self)@.seen == old(self)@.seen.insert(item_id(*item))
            }),
            final(self).next_local_key == old(self).next_local_key + 1,
    {
        let ghost s = self@;
        let m = self.msg_from_item(own, item);
        let id = match item {
            MessageItem::Message(m) => m.id.clone(),
            MessageItem::Deleted(d) => d.id.clone(),
        };
        match kind {
            PageKind::Initial => {
                self.seen_ids.insert(id);
                self.messages.push(m);
                assert(self@.msgs =~= take_one(kind, own@, s, *item).msgs);
                None
            },
            PageKind::Poll => {
                if self.seen_ids.contains(id.as_str()) {
                    return None;
                }
                if m.is_own && self.reconcile_optimistic(id.as_str(), m.text.as_str()) {
                    return None;
                }
                self.seen_ids.insert(id);
                self.messages.push(m);
                assert(self@.msgs =~= take_one(kind, own@, s, *item).msgs);
                None
            },
            PageKind::Older => {
                if self.seen_ids.contains(id.as_str()) {
                    assert(s.seen.insert(item_id(*item)) =~= s.seen);
                    return None;
                }
                self.seen_ids.insert(id);
                Some(m)
            },
        }
    }

    /// Takes the first page, or another look at the newest one.
    fn take_recent(&mut self, kind: PageKind, own: &str, items: &Vec<MessageItem>)
        requires
            kind != PageKind::Older,
            old(self).next_local_key + items@.len() <= u64::MAX,
        ensures
            final(self)@ == take_page(kind, own@, old(self)@, items@, items@.len() as int),
    {
        let mut i: usize = 0;
        while i < items.len()
            invariant
                i <= items@.len(),
                kind != PageKind::Older,
                self.next_local_key + (items@.len() - i) <= u64::MAX,
                self@ == take_page(kind, own@, old(self)@, items@, i as int),
            decreases items@.len() - i,
        {
            self.take_item(kind, own, &items[i]);
            i += 1;
        }
    }

    /// Takes an older page: its unknown messages go on top. The key of the
    /// row that was first before comes back, where anything was put on top.
    fn take_history(&mut self, own: &str, items: &Vec<MessageItem>) -> (r: (bool, Option<u64>))
        requires
            old(self).next_local_key + items@.len() <= u64::MAX,
        ensures
            ({
                let top = take_page(
                    PageKind::Older,
                    own@,
                    Inbox { msgs: Seq::empty(), ..old(self)@ },
                    items@,
                    items@.len() as int,
                );
                &&& final(self)@ == (Inbox { msgs: top.msgs + old(self)@.msgs, ..top })
                &&& r.0 == (top.msgs.len() > 0)
                &&& r.1 == (if old(self)@.msgs.len() > 0 {
                    Some(old(self)@.msgs[0].key as u64)
                } else {
                    None
                })
            }),
    {
        let ghost s = self@;
        let ghost start = Inbox { msgs: Seq::empty(), ..s };
        let mut older: Vec<Msg> = Vec::new();
        assert(msgs_of(older@) =~= start.msgs);
        let mut i: usize = 0;
        while i < items.len()
            invariant
                i <= items@.len(),
                s == old(self)@,
                start == (Inbox { msgs: Seq::empty(), ..s }),
                self.next_local_key + (items@.len() - i) <= u64::MAX,
                self.messages == old(self).messages,
                take_page(PageKind::Older, own@, start, items@, i as int) == (Inbox {
                    msgs: msgs_of(older@),
                    seen: self@.seen,
                    next_key: self@.next_key,
                }),
            decreases items@.len() - i,
        {
            let ghost before = take_page(PageKind::Older, own@, start, items@, i as int);
            let ghost next = take_one(PageKind::Older, own@, before, items@[i as int]);
            match self.take_item(PageKind::Older, own, &items[i]) {
                Some(m) => {
                    older.push(m);
                    assert(msgs_of(older@) =~= next.msgs);
                },
                None => {
                    assert(self@.seen =~= before.seen);
                },
            }
            i += 1;
        }
        let anchor = if self.messages.len() > 0 {
            assert(s.msgs[0] == self.messages@[0]@);
            Some(self.messages[0].local_key)
        } else {
            None
        };
        let grew = older.len() > 0;
        let ghost on_top = msgs_of(older@);
        older.append(&mut self.messages);
        self.messages = older;
        assert(self@.msgs =~= on_top + s.msgs);
        (grew, anchor)
    }

    /// Takes the echo of a sent message; `true` where a row was added.
    fn take_echoed(&mut self, view: MessageView) -> (r: bool)
        requires
            old(self).next_local_key < u64::MAX,
        ensures
            final(self)@ == take_echo(old(self)@, view.id@, view.sender_did@, view.text@),
            r == (final(self)@.msgs.len() > old(self)@.msgs.len()),
    {
        let ghost s = self@;
        if self.reconcile_optimistic(view.id.as_str(), view.text.as_str()) {
            proof {
                lemma_first_pending(s.msgs, Some(view.text@), 0);
            }
            return false;
        }
        if self.seen_ids.contains(view.id.as_str()) {
            return false;
        }
        let key = self.next_key();
        self.seen_ids.insert(view.id.clone());
        self.messages.push(
            Msg {
                id: Some(view.id),
                local_key: key,
                sender_did: view.sender_did,
                is_own: true,
                text: view.text,
                deleted: false,
                delivery: Delivery::Sent,
            },
        );
        assert(self@.msgs =~= s.msgs.push(self.messages@.last()@));
        true
    }

    /// Adds a message that was typed here.
    fn add_typed(&mut self, own: &str, text: &str)
        requires
            old(self).next_local_key < u64::MAX,
        ensures
            final(self)@ == take_typed(old(self)@, own@, text@),
    {
        let ghost s = self@;
        let key = self.next_key();
        self.messages.push(
            Msg {
                id: None,
                local_key: key,
                sender_did: owned(own),
                is_own: true,
                text: owned(text),
                deleted: false,
                delivery: Delivery::Sending,
            },
        );
        assert(self@.msgs =~= s.msgs.push(self.messages@.last()@));
    }

    /// Drops the first pending row: its text.
    fn drop_pending(&mut self) -> (r: Option<String>)
        ensures
            ({
                let i = first_pending(old(self)@.msgs, None, 0);
                if i < old(self)@.msgs.len() {
                    &&& r is Some
                    &&& r->0@ == old(self)@.msgs[i].text
                    &&& final(self)@ == (Inbox { msgs: old(self)@.msgs.remove(i), ..old(self)@ })
                } else {
                    r is None && *final(self) == *old(self)
                }
            }),
    {
        let ghost s = self@;
        match self.find_pending(None) {
            Some(pos) => {
                assert(s.msgs[pos as int] == self.messages@[pos as int]@);
                let failed = self.messages.remove(pos);
                assert(self@.msgs =~= s.msgs.remove(pos as int));
                Some(failed.text)
            },
            None => None,
        }
    }
}

impl ConversationScreen {
    /// A conversation that was just opened, before any of its messages came.
    pub open spec fn opened(
        own_did: String,
        convo: ConvoView,
        now: u64,
        r: ConversationScreen,
    ) -> bool {
        &&& r@ == (ConversationV {
            convo_id: convo.id@,
            own_did: own_did@,
            members: convo.members@,
            title: title_of(convo.members@, own_did@),
            is_group: convo.members@.len() > 2,
            phase: PhaseV::InitialLoading,
            inbox: Inbox { msgs: Seq::empty(), seen: Set::empty(), next_key: 1 },
            rows: Seq::empty(),
            top_cursor: None,
            reached_top: false,
            to_bottom: false,
            prepend: None,
            initial_inflight: false,
            poll_inflight: false,
            older_inflight: false,
            send_inflight: false,
            last_poll: now,
            want_mark_read: false,
            draft: Seq::empty(),
            compose_btn: ButtonState { pressed_last: false },
            send_btn: ButtonState { pressed_last: false },
            header_btn: ButtonState { pressed_last: false },
            auth_blocked: false,
        })
        &&& r.convo_id == convo.id
        &&& r.own_did == own_did
    }

    /// A conversation that has not been loaded yet.
    pub fn new(own_did: String, convo: ConvoView, now: u64) -> (r: ConversationScreen)
        ensures
            Self::opened(own_did, convo, now, r),
    {
        let is_group = convo.members.len() > 2;
        let title = build_title(&convo.members, own_did.as_str());
        let r = ConversationScreen {
            convo_id: convo.id,
            own_did,
            members: convo.members,
            title,
            is_group,
            phase: Phase::InitialLoading,
            store: MessageStore {
                messages: Vec::new(),
                seen_ids: StringHashSet::new(),
                next_local_key: 1,
            },
            row_heights: Vec::new(),
            top_cursor: None,
            reached_top: false,
            pending_scroll_to_bottom: false,
            pending_prepend: None,
            initial_inflight: false,
            poll_inflight: false,
            older_inflight: false,
            send_inflight: false,
            last_poll: now,
            want_mark_read: false,
            draft: String::new(),
            compose_btn: ButtonState::default(),
            send_btn: ButtonState::default(),
            header_btn: ButtonState::default(),
            auth_blocked: false,
        };
        assert(r.store@.msgs =~= Seq::empty());
        r
    }

    /// The handle of the first member other than the reader.
    pub fn primary_other_handle(&self) -> (r: Option<String>)
        ensures
            r == (match first_other(self.members@, self.own_did@, 0) {
                Some(m) => Some(m.handle),
                None => None,
            }),
    {
        match find_other(&self.members, self.own_did.as_str()) {
            Some(i) => Some(self.members[i].handle.clone()),
            None => None,
        }
    }

    /// Takes a page of messages, or the error in its place.
    #[verifier::rlimit(60)]
    fn page_answer(&mut self, kind: PageKind, batch: Result<MessagesBatch, String>, scroll: i32)
        requires
            rows_fit(old(self).row_heights@),
            batch matches Ok(b) ==> old(self).store.next_local_key + b.messages@.len()
                <= u64::MAX,
        ensures
            final(self)@ == (match batch {
                Ok(b) => page_arrived(
                    old(self)@,
                    kind,
                    b.messages@,
                    opt_view(b.cursor),
                    scroll as int,
                ),
                Err(e) => page_failed(old(self)@, kind, e@),
            }),
    {
        match batch {
            Ok(b) => match kind {
                PageKind::Initial => {
                    self.store.take_recent(kind, self.own_did.as_str(), &b.messages);
                    self.top_cursor = b.cursor;
                    self.reached_top = self.top_cursor.is_none();
                    self.phase = Phase::Ready;
                    self.pending_scroll_to_bottom = true;
                    if self.store.messages.len() > 0 {
                        self.want_mark_read = true;
                    }
                },
                PageKind::Poll => {
                    let limit: i32 = max_scroll(content_height(&self.row_heights), VIEWPORT_H);
                    let was_at_bottom = scroll >= limit - BOTTOM_STICKY_MARGIN;
                    let before: usize = self.store.messages.len();
                    self.store.take_recent(kind, self.own_did.as_str(), &b.messages);
                    if self.store.messages.len() > before && was_at_bottom {
                        self.pending_scroll_to_bottom = true;
                        self.want_mark_read = true;
                    }
                },
                PageKind::Older => {
                    let (grew, anchor) = self.store.take_history(
                        self.own_did.as_str(),
                        &b.messages,
                    );
                    if grew {
                        self.row_heights = Vec::new();
                        if anchor.is_some() {
                            self.pending_prepend = anchor;
                        } else {
                            self.pending_scroll_to_bottom = true;
                        }
                    }
                    self.top_cursor = b.cursor;
                    self.reached_top = self.top_cursor.is_none();
                },
            },
            Err(e) => {
                let auth_scope = starts_with(e.as_str(), "DM_SCOPE:");
                match kind {
                    PageKind::Initial => {
                        self.phase = Phase::InitialError { msg: e, auth_scope };
                    },
                    _ => {
                        if auth_scope {
                            self.auth_blocked = true;
                        }
                    },
                }
            },
        }
    }

    /// Takes the echo of a sent message, or the error in its place.
    #[verifier::rlimit(60)]
    fn sent_answer(&mut self, result: Result<MessageView, String>)
        requires
            old(self).store.next_local_key < u64::MAX,
        ensures
            final(self)@ == (match result {
                Ok(m) => send_confirmed(old(self)@, m.id@, m.sender_did@, m.text@),
                Err(e) => send_failed(old(self)@, e@),
            }),
    {
        match result {
            Ok(view) => {
                if self.store.take_echoed(view) {
                    self.pending_scroll_to_bottom = true;
                }
            },
            Err(e) => {
                if starts_with(e.as_str(), "DM_SCOPE:") {
                    self.auth_blocked = true;
                }
                match self.store.drop_pending() {
                    Some(text) => {
                        self.row_heights = Vec::new();
                        if self.draft.as_str().is_empty() {
                            self.draft = text;
                        }
                    },
                    None => {},
                }
            },
        }
    }

    /// Whether the keys that an answer needs can still be given.
    pub fn answer_room(&self, resp: &WorkResponse) -> (r: bool)
        ensures
            r == (self.store.next_local_key + keys_needed(*resp) <= u64::MAX),
    {
        let needed: u64 = match resp {
            WorkResponse::ConvoMessages { batch: Ok(b), .. } => b.messages.len() as u64,
            WorkResponse::MessageSent { .. } => 1,
            _ => 0,
        };
        needed <= u64::MAX - self.store.next_local_key
    }

    /// Takes an answer of the worker. `scroll` is the scroll position rounded
    /// down, `now` the time in nanoseconds.
    pub fn handle_worker_response(&mut self, resp: WorkResponse, scroll: i32, now: u64)
        requires
            rows_fit(old(self).row_heights@),
            old(self).store.next_local_key + keys_needed(resp) <= u64::MAX,
        ensures
            final(self)@ == responded(old(self)@, resp, scroll as int, now),
    {
        match resp {
            WorkResponse::ConvoMessages { convo_id, batch } => {
                if !same_text(convo_id.as_str(), self.convo_id.as_str()) {
                    return;
                }
                if self.initial_inflight {
                    self.initial_inflight = false;
                    self.page_answer(PageKind::Initial, batch, scroll);
                } else if self.older_inflight {
                    self.older_inflight = false;
                    self.page_answer(PageKind::Older, batch, scroll);
                } else if self.poll_inflight {
                    self.poll_inflight = false;
                    self.last_poll = now;
                    self.page_answer(PageKind::Poll, batch, scroll);
                }
            },
            WorkResponse::MessageSent { convo_id, result } => {
                if !same_text(convo_id.as_str(), self.convo_id.as_str()) {
                    return;
                }
                self.send_inflight = false;
                self.sent_answer(result);
            },
            _ => {},
        }
    }

    /// Asks for the first page, once.
    pub fn open_fetch(&mut self, has_worker: bool) -> (r: Option<WorkRequest>)
        ensures
            r == first_request(*old(self), has_worker),
            final(self)@ == first_sent(old(self)@, has_worker),
    {
        let loading = matches!(self.phase, Phase::InitialLoading);
        if loading && !self.initial_inflight && has_worker {
            self.initial_inflight = true;
            return Some(
                WorkRequest::GetConvoMessages { convo_id: self.convo_id.clone(), cursor: None },
            );
        }
        None
    }

    /// Takes what the keyboard reports; `true` means that it is to be closed.
    pub fn take_ime(&mut self, event: ImeEvent) -> (close: bool)
        ensures
            close == !(event is Idle),
            final(self)@ == ime_taken(old(self)@, event),
    {
        match event {
            ImeEvent::Finished(s) => {
                self.draft = s;
                true
            },
            ImeEvent::Dismissed => true,
            ImeEvent::Idle => false,
        }
    }

    /// What the pad asks for.
    pub open spec fn pad_read(pad: PadFrame, ime_active: bool, r: ConvoInput) -> bool {
        r == (if ime_active {
            ConvoInput { pop: false, nudge: 0, stick: 0 }
        } else if pad.circle {
            ConvoInput { pop: true, nudge: 0, stick: 0 }
        } else {
            ConvoInput {
                pop: false,
                nudge: ((if pad.down {
                    40int
                } else {
                    0
                }) - (if pad.up {
                    40int
                } else {
                    0
                })) as i32,
                stick: stick_travel(pad.stick_y as int) as i32,
            }
        })
    }

    /// What the pad asks for. Nothing, while the keyboard is open.
    pub fn input(pad: &PadFrame, ime_active: bool) -> (r: ConvoInput)
        ensures
            Self::pad_read(*pad, ime_active, r),
    {
        if ime_active {
            return ConvoInput { pop: false, nudge: 0, stick: 0 };
        }
        if pad.circle {
            return ConvoInput { pop: true, nudge: 0, stick: 0 };
        }
        let up: i32 = if pad.up {
            40
        } else {
            0
        };
        let down: i32 = if pad.down {
            40
        } else {
            0
        };
        ConvoInput { pop: false, nudge: down - up, stick: stick_scroll(pad) }
    }

    /// The first part of a frame, before the pad is looked at: the first page is
    /// asked for, and what the keyboard reports is taken.
    pub fn frame_start(&mut self, event: ImeEvent, has_worker: bool) -> (r: ConvoStart)
        ensures
            r.request == first_request(*old(self), has_worker),
            r.close == !(event is Idle),
            final(self)@ == ime_taken(first_sent(old(self)@, has_worker), event),
    {
        let request = self.open_fetch(has_worker);
        let close = self.take_ime(event);
        ConvoStart { request, close }
    }

    /// What is due is asked for; without a worker nothing is.
    pub open spec fn fetched(
        a: Self,
        b: Self,
        ime_active: bool,
        now: u64,
        scroll_up: i32,
        has_worker: bool,
        r: Vec<WorkRequest>,
    ) -> bool {
        &&& has_worker ==> r@ == requests_due(a, ime_active, now, scroll_up as int)
        &&& has_worker ==> b@ == requests_sent(
            a@,
            ime_active,
            now,
            scroll_up as int,
        )
        &&& !has_worker ==> r@.len() == 0 && b == a
    }

    /// This frame's requests: another look at the newest page, or older
    /// messages, and the mark that everything has been read. `scroll_up` is
    /// the scroll position rounded up, `now` the time in nanoseconds. Without a
    /// worker there are none, and they stay due.
    pub fn fetch_step(
        &mut self,
        ime_active: bool,
        now: u64,
        scroll_up: i32,
        has_worker: bool,
    ) -> (r: Vec<WorkRequest>)
        ensures
            Self::fetched(*old(self), *final(self), ime_active, now, scroll_up, has_worker, r),
    {
        let mut r: Vec<WorkRequest> = Vec::new();
        if !has_worker {
            return r;
        }
        let ready = matches!(self.phase, Phase::Ready);
        if ready && !self.initial_inflight && !self.older_inflight && !self.poll_inflight
            && !ime_active && now >= self.last_poll && now - self.last_poll >= POLL_INTERVAL_NS {
            r.push(
                WorkRequest::GetConvoMessages { convo_id: self.convo_id.clone(), cursor: None },
            );
            self.poll_inflight = true;
        }
        if ready && !self.initial_inflight && !self.older_inflight && !self.poll_inflight
            && !self.reached_top && self.top_cursor.is_some() && scroll_up <= TOP_PAGINATE_MARGIN {
            r.push(
                WorkRequest::GetConvoMessages {
                    convo_id: self.convo_id.clone(),
                    cursor: clone_text(&self.top_cursor),
                },
            );
            self.older_inflight = true;
        }
        if self.want_mark_read {
            r.push(WorkRequest::MarkConvoRead { convo_id: self.convo_id.clone() });
            self.want_mark_read = false;
        }
        assert(r@ =~= requests_due(*old(self), ime_active, now, scroll_up as int));
        r
    }

    /// The next message gets its height while there is room.
    pub open spec fn row_added(a: Self, b: Self, text_h: i32, line_h: i32, r: bool) -> bool {
        ({
            let v = a@;
            let i = v.rows.len() as int;
            let h = msg_height(v.inbox.msgs[i], text_h as int, line_h as int, v.is_group);
            &&& r == (i < v.inbox.msgs.len() && total(v.rows) + h <= MAX_CONTENT_H)
            &&& b@ == (if r {
                ConversationV { rows: v.rows.push(h as i32), ..v }
            } else {
                v
            })
        })
    }

    /// Takes the measured height of the next message's text, and of a line;
    /// `false` means that every message is laid out, or that no more fits.
    pub fn add_row(&mut self, text_h: i32, line_h: i32) -> (r: bool)
        requires
            rows_fit(old(self).row_heights@),
            0 <= text_h <= MAX_CONTENT_H,
            0 <= line_h <= MAX_CONTENT_H,
        ensures
            rows_fit(final(self).row_heights@),
            Self::row_added(*old(self), *final(self), text_h, line_h, r),
    {
        let i: usize = self.row_heights.len();
        if i >= self.store.messages.len() {
            return false;
        }
        let h: i32 = measure_msg(&self.store.messages[i], text_h, line_h, self.is_group);
        if h > MAX_CONTENT_H - content_height(&self.row_heights) {
            return false;
        }
        let ghost before = self.row_heights@;
        self.row_heights.push(h);
        assert(self.row_heights@.drop_last() =~= before);
        true
    }

    /// Where the list is to be scrolled to, once.
    pub open spec fn settled(a: Self, b: Self, r: ScrollPlan) -> bool {
        &&& r.limit == scroll_limit(total(a.row_heights@), VIEWPORT_H as int)
        &&& r.to_bottom == a@.to_bottom
        &&& match (match a@.prepend {
            Some(key) => rows_above(a@, key, 0),
            None => None,
        }) {
            Some(n) => r.below_anchor == Some(row_top(a.row_heights@, n) as i32),
            None => r.below_anchor is None,
        }
        &&& b@ == (ConversationV { to_bottom: false, prepend: None, ..a@ })
    }

    /// Settles the scroll position: the limit, and the two one-time moves.
    pub fn settle_scroll(&mut self) -> (r: ScrollPlan)
        requires
            rows_fit(old(self).row_heights@),
        ensures
            Self::settled(*old(self), *final(self), r),
    {
        let limit: i32 = max_scroll(content_height(&self.row_heights), VIEWPORT_H);
        let to_bottom = self.pending_scroll_to_bottom;
        self.pending_scroll_to_bottom = false;
        let mut below_anchor: Option<i32> = None;
        match self.pending_prepend {
            Some(key) => {
                self.pending_prepend = None;
                let ghost v = old(self)@;
                let mut i: usize = 0;
                let mut done = false;
                while i < self.store.messages.len() && !done
                    invariant
                        i <= self.store.messages@.len(),
                        rows_fit(self.row_heights@),
                        v.inbox == self.store@,
                        v.rows == self.row_heights@,
                        !done ==> rows_above(v, key, 0) == rows_above(v, key, i as int),
                        !done ==> below_anchor is None,
                        done ==> rows_above(v, key, 0) is Some && below_anchor == Some(
                            row_top(v.rows, rows_above(v, key, 0)->0) as i32,
                        ),
                    decreases self.store.messages@.len() - i + (if done {
                        0int
                    } else {
                        1
                    }),
                {
                    assert(v.inbox.msgs[i as int] == self.store.messages@[i as int]@);
                    if self.store.messages[i].local_key == key {
                        let n: usize = if i <= self.row_heights.len() {
                            i
                        } else {
                            self.row_heights.len()
                        };
                        below_anchor = Some(top_of(&self.row_heights, n));
                        done = true;
                    } else {
                        i += 1;
                    }
                }
            },
            None => {},
        }
        ScrollPlan { limit, to_bottom, below_anchor }
    }

    /// One frame of the compose bar, which a loaded conversation shows.
    pub fn compose_bar(&mut self, touches: &Vec<TouchPoint>, ime_active: bool, has_worker: bool)
        -> (r: Option<ComposeBar>)
        requires
            old(self).store.next_local_key < u64::MAX,
        ensures
            bar_followed(
                *old(self),
                *final(self),
                touches@,
                ime_active,
                has_worker,
                r,
            ),
    {
        if !matches!(self.phase, Phase::Ready) {
            return None;
        }
        let send_w: i32 = 84;
        let send_x: i32 = SCREEN_WIDTH - send_w - 12;
        let btn_y: i32 = SCREEN_HEIGHT - COMPOSE_H + 8;
        let text_x: i32 = 12;
        let text_w: i32 = send_x - 12 - text_x;
        let interactive = !ime_active;
        let allowed = interactive && !self.draft.as_str().is_empty() && !self.send_inflight
            && !self.auth_blocked;
        let sends = button(
            Rect::new(send_x, btn_y, send_w, 40),
            &mut self.send_btn,
            touches,
            allowed,
        );
        let (text, tone) = if self.auth_blocked {
            (owned("DMs need a chat-enabled app password"), ComposeTone::Error)
        } else if self.draft.as_str().is_empty() {
            (owned("Message…"), ComposeTone::Muted)
        } else {
            (self.draft.clone(), ComposeTone::Plain)
        };
        let taps = button(
            Rect::new(text_x, btn_y, text_w, 40),
            &mut self.compose_btn,
            touches,
            interactive,
        );
        let open_ime = taps && !self.auth_blocked;
        let mut request: Option<WorkRequest> = None;
        if sends {
            let mut text = String::new();
            core::mem::swap(&mut text, &mut self.draft);
            self.store.add_typed(self.own_did.as_str(), text.as_str());
            self.send_inflight = true;
            self.pending_scroll_to_bottom = true;
            if has_worker {
                request = Some(
                    WorkRequest::SendMessage { convo_id: self.convo_id.clone(), text },
                );
            }
        }
        Some(ComposeBar { text, tone, open_ime, request })
    }

    /// A tap on the heading opens the profile of the other member.
    pub open spec fn header_tapped(
        a: Self,
        b: Self,
        touches: Vec<TouchPoint>,
        ime_active: bool,
        r: ScreenAction,
    ) -> bool {
        &&& r == (if clicked(
            !ime_active,
            a@.header_btn.pressed_last,
            touched(touches@, header_rect()),
            touches@.len() > 0,
        ) {
            match first_other(a.members@, a.own_did@, 0) {
                Some(m) => ScreenAction::Push(NextScreen::Profile { actor: Some(m.handle) }),
                None => ScreenAction::Stay,
            }
        } else {
            ScreenAction::Stay
        })
        &&& b@ == (ConversationV {
            header_btn: ButtonState { pressed_last: touched(touches@, header_rect()) },
            ..a@
        })
    }

    /// A tap on the header opens the other member's profile.
    pub fn header_tap(&mut self, touches: &Vec<TouchPoint>, ime_active: bool) -> (r: ScreenAction)
        ensures
            Self::header_tapped(*old(self), *final(self), *touches, ime_active, r),
    {
        let hit = button(
            Rect::new(0, 0, SCREEN_WIDTH, HEADER_H),
            &mut self.header_btn,
            touches,
            !ime_active,
        );
        if !hit {
            return ScreenAction::Stay;
        }
        match self.primary_other_handle() {
            Some(handle) => ScreenAction::Push(NextScreen::Profile { actor: Some(handle) }),
            None => ScreenAction::Stay,
        }
    }

    /// What stands in place of the list.
    pub open spec fn shown_body(s: Self, r: ConvoBody) -> bool {
        match s@.phase {
            PhaseV::InitialLoading => r is Loading,
            PhaseV::InitialError { msg, auth_scope } => {
                &&& r is Problem
                &&& r->title@ == (if auth_scope {
                    "Direct messages unavailable"@
                } else {
                    "Could not load messages"@
                })
                &&& r->detail@ == (if auth_scope {
                    dm_scope_detail()
                } else {
                    msg
                })
            },
            PhaseV::Ready => if s@.inbox.msgs.len() == 0 {
                r is Empty
            } else {
                r is Messages
            },
        }
    }

    /// What stands in the message area.
    pub fn body(&self) -> (r: ConvoBody)
        ensures
            Self::shown_body(*self, r),
    {
        match &self.phase {
            Phase::InitialLoading => ConvoBody::Loading,
            Phase::InitialError { msg, auth_scope } => {
                if *auth_scope {
                    ConvoBody::Problem {
                        title: owned("Direct messages unavailable"),
                        detail: dm_scope_text(),
                    }
                } else {
                    ConvoBody::Problem {
                        title: owned("Could not load messages"),
                        detail: msg.clone(),
                    }
                }
            },
            Phase::Ready => {
                if self.store.messages.len() == 0 {
                    ConvoBody::Empty
                } else {
                    ConvoBody::Messages
                }
            },
        }
    }
}

/// What to do about a password without chat access.
pub open spec fn dm_scope_detail() -> Seq<char> {
    "This app password can't access DMs. Create one with chat access enabled in Bluesky settings, then log in again."@
}

/// What to do about a password without chat access.
pub(crate) fn dm_scope_text() -> (r: String)
    ensures
        r@ == dm_scope_detail(),
{
    owned(
        "This app password can't access DMs. Create one with chat access enabled in Bluesky settings, then log in again.",
    )
}

/// The height of a message row: the bubble around text of height `text_h`
/// (or one line of height `line_h` where there is no text), the sender's name
/// in a group, and the gap below.
pub open spec fn msg_height(m: MsgV, text_h: int, line_h: int, is_group: bool) -> int {
    (if bubble_of(m).len() == 0 {
        line_h
    } else {
        text_h
    }) + 2 * BUBBLE_PAD_Y + (if is_group && !m.is_own {
        NAME_LINE_H as int
    } else {
        0
    }) + ROW_GAP
}

/// The height of a message row.
pub fn measure_msg(msg: &Msg, text_h: i32, line_h: i32, is_group: bool) -> (r: i32)
    requires
        0 <= text_h <= MAX_CONTENT_H,
        0 <= line_h <= MAX_CONTENT_H,
    ensures
        r == msg_height(msg@, text_h as int, line_h as int, is_group),
{
    let text = bubble_text(msg);
    let block: i32 = if text.as_str().is_empty() {
        line_h
    } else {
        text_h
    };
    let mut h: i32 = block + 2 * BUBBLE_PAD_Y;
    if is_group && !msg.is_own {
        h = h + NAME_LINE_H;
    }
    h + ROW_GAP
}

/// The colour of a bubble.
#[derive(Copy, Clone, Debug, PartialEq, Eq, Structural)]
pub enum BubbleTone {
    /// The plain field colour.
    Field,
    /// The accent colour.
    Accent,
    /// The accent colour, dimmed while the message is on its way.
    AccentDim,
}

/// Where and how a bubble is drawn.
#[derive(Copy, Clone, Debug, PartialEq, Eq, Structural)]
pub struct BubblePlan {
    pub rect: Rect,
    pub tone: BubbleTone,
    /// The sender's name stands above.
    pub named: bool,
    pub muted_text: bool,
}

/// The bubble of a message whose row starts at `y_top`, around content of the
/// given size: own messages to the right, others to the left.
pub open spec fn bubble_plan(m: MsgV, y_top: int, content_w: int, block_h: int, is_group: bool) -> BubblePlan {
    let w = (if content_w > 8 {
        content_w
    } else {
        8
    }) + 2 * BUBBLE_PAD_X;
    let named = is_group && !m.is_own;
    BubblePlan {
        rect: Rect {
            x: (if m.is_own {
                SCREEN_WIDTH - BUBBLE_MARGIN - w
            } else {
                BUBBLE_MARGIN as int
            }) as i32,
            y: (y_top + (if named {
                NAME_LINE_H as int
            } else {
                0
            })) as i32,
            w: w as i32,
            h: (block_h + 2 * BUBBLE_PAD_Y) as i32,
        },
        tone: if m.deleted || !m.is_own {
            BubbleTone::Field
        } else if m.delivery == Delivery::Sending {
            BubbleTone::AccentDim
        } else {
            BubbleTone::Accent
        },
        named,
        muted_text: m.deleted,
    }
}

/// Where and how the bubble of a message is drawn.
pub fn plan_bubble(msg: &Msg, y_top: i32, content_w: i32, block_h: i32, is_group: bool) -> (r:
    BubblePlan)
    requires
        is_group && !msg.is_own ==> y_top + NAME_LINE_H <= i32::MAX,
        content_w + 2 * BUBBLE_PAD_X <= i32::MAX,
        block_h + 2 * BUBBLE_PAD_Y <= i32::MAX,
    ensures
        r == bubble_plan(msg@, y_top as int, content_w as int, block_h as int, is_group),
{
    let inner: i32 = if content_w > 8 {
        content_w
    } else {
        8
    };
    let w: i32 = inner + 2 * BUBBLE_PAD_X;
    let named = is_group && !msg.is_own;
    let y: i32 = if named {
        y_top + NAME_LINE_H
    } else {
        y_top
    };
    let x: i32 = if msg.is_own {
        SCREEN_WIDTH - BUBBLE_MARGIN - w
    } else {
        BUBBLE_MARGIN
    };
    let tone = if msg.deleted || !msg.is_own {
        BubbleTone::Field
    } else if msg.delivery == Delivery::Sending {
        BubbleTone::AccentDim
    } else {
        BubbleTone::Accent
    };
    BubblePlan {
        rect: Rect { x, y, w, h: block_h + 2 * BUBBLE_PAD_Y },
        tone,
        named,
        muted_text: msg.deleted,
    }
}

} // verus!
