//! Identifiers of the AT Protocol: accounts, collections, record keys and
//! content hashes. The protocol crates check them; here is what they accept.

use std::str::FromStr;

use atrium_api::types::string::{AtIdentifier, Cid, Did, Nsid, RecordKey};
use vstd::prelude::*;
#[allow(unused_imports)]
use vstd::utf8::{encode_utf8, is_ascii_chars, is_ascii_chars_encode_utf8};

#[allow(unused_imports)]
use crate::text::has_prefix;

verus! {

/// A result by its characters.
pub open spec fn res_view(r: Result<String, String>) -> Result<Seq<char>, Seq<char>> {
    match r {
        Ok(t) => Ok(t@),
        Err(e) => Err(e@),
    }
}

/// An ASCII letter.
pub open spec fn is_letter(c: char) -> bool {
    ('a' <= c && c <= 'z') || ('A' <= c && c <= 'Z')
}

/// An ASCII letter or digit.
pub open spec fn is_alnum(c: char) -> bool {
    is_letter(c) || ('0' <= c && c <= '9')
}

// ── Accounts ───────────────────────────────────────────────────────────

/// The first colon from `from` on; the length where there is none.
pub open spec fn colon_at(s: Seq<char>, from: int) -> int
    decreases s.len() - from,
{
    if from >= s.len() {
        s.len() as int
    } else if s[from] == ':' {
        from
    } else {
        colon_at(s, from + 1)
    }
}

/// The form of a decentralised identifier: `did:`, a method in small letters,
/// a colon, and a name that does not end in a colon or per cent sign.
pub open spec fn did_form(s: Seq<char>) -> bool {
    let k = colon_at(s, 4);
    &&& has_prefix(s, "did:"@)
    &&& 4 < k < s.len() - 1
    &&& forall|i: int| 4 <= i < k ==> 'a' <= #[trigger] s[i] && s[i] <= 'z'
    &&& forall|i: int|
        k < i < s.len() ==> is_alnum(#[trigger] s[i]) || s[i] == '.' || s[i] == '_' || s[i] == ':'
            || s[i] == '%' || s[i] == '-'
    &&& s.last() != ':' && s.last() != '%'
}

/// What is said of a text that is to be a decentralised identifier: nothing
/// where it is one.
pub open spec fn did_problem(s: Seq<char>) -> Option<Seq<char>> {
    if encode_utf8(s).len() > 2048 {
        Some("DID too long"@)
    } else if !did_form(s) {
        Some("Invalid DID"@)
    } else {
        None
    }
}

/// The first dot from `from` on; the length where there is none.
pub open spec fn dot_at(s: Seq<char>, from: int) -> int
    decreases s.len() - from,
{
    if from >= s.len() {
        s.len() as int
    } else if s[from] == '.' {
        from
    } else {
        dot_at(s, from + 1)
    }
}

/// One label of a domain name: letters, digits and hyphens, no hyphen at its
/// ends, at most 63 of them.
pub open spec fn label_form(s: Seq<char>, from: int, to: int) -> bool {
    &&& 1 <= to - from <= 63
    &&& is_alnum(s[from])
    &&& is_alnum(s[to - 1])
    &&& forall|i: int| from <= i < to ==> is_alnum(#[trigger] s[i]) || s[i] == '-'
}

/// The labels from `from` on, the last of which starts with a letter.
pub open spec fn labels_form(s: Seq<char>, from: int) -> bool
    decreases s.len() - from,
{
    let to = dot_at(s, from);
    if from < 0 || to < from {
        false
    } else if to >= s.len() {
        label_form(s, from, to) && is_letter(s[from])
    } else {
        label_form(s, from, to) && labels_form(s, to + 1)
    }
}

/// The form of a handle: a domain name of at least two labels.
pub open spec fn handle_form(s: Seq<char>) -> bool {
    dot_at(s, 0) < s.len() && labels_form(s, 0)
}

/// What is said of a text that is to be an identifier of an account, either
/// kind: nothing where it is one.
pub open spec fn account_problem(s: Seq<char>) -> Option<Seq<char>> {
    if did_problem(s) is None {
        None
    } else if encode_utf8(s).len() > 253 {
        Some("Handle too long"@)
    } else if !handle_form(s) {
        Some("Invalid handle"@)
    } else {
        None
    }
}

/// `Did::from_str`, by what comes back as text: the text itself where it has
/// the form of a decentralised identifier of at most 2048 bytes, else the
/// reason why it is none.
#[verifier::external_body]
pub(crate) fn parse_did(s: &str) -> (r: Result<String, String>)
    ensures
        match r {
            Ok(t) => did_problem(s@) is None && t@ == s@,
            Err(e) => did_problem(s@) == Some(e@),
        },
{
    match Did::from_str(s) {
        Ok(d) => Ok(String::from(d)),
        Err(e) => Err(e.to_string()),
    }
}

/// `AtIdentifier::from_str`, by what comes back as text: the text itself where
/// it is a decentralised identifier or else a handle of at most 253 bytes, and
/// otherwise the reason why it is no handle.
#[verifier::external_body]
pub(crate) fn parse_account(s: &str) -> (r: Result<String, String>)
    ensures
        match r {
            Ok(t) => account_problem(s@) is None && t@ == s@,
            Err(e) => account_problem(s@) == Some(e@),
        },
{
    match AtIdentifier::from_str(s) {
        Ok(a) => Ok(String::from(a)),
        Err(e) => Err(e.to_string()),
    }
}

// ── Collections and keys ───────────────────────────────────────────────

/// The last part of a collection's name, from `from` on: letters and digits,
/// at most 63 of them, a letter first.
pub open spec fn last_part_form(s: Seq<char>, from: int) -> bool {
    &&& 0 <= from
    &&& 1 <= s.len() - from <= 63
    &&& is_letter(s[from])
    &&& forall|i: int| from <= i < s.len() ==> is_alnum(#[trigger] s[i])
}

/// The parts of a collection's name from `from` on: one label or more, and the
/// last part.
pub open spec fn parts_form(s: Seq<char>, from: int) -> bool
    decreases s.len() - from,
{
    let to = dot_at(s, from);
    if from < 0 || to < from || to >= s.len() {
        false
    } else {
        label_form(s, from, to) && (last_part_form(s, to + 1) || parts_form(s, to + 1))
    }
}

/// The form of a collection's name: a domain name back to front, whose first
/// label starts with a letter, and the last part.
pub open spec fn collection_form(s: Seq<char>) -> bool {
    let to = dot_at(s, 0);
    &&& to < s.len()
    &&& label_form(s, 0, to)
    &&& is_letter(s[0])
    &&& parts_form(s, to + 1)
}

/// What is said of a text that is to be the name of a collection: nothing where
/// it is one.
pub open spec fn collection_problem(s: Seq<char>) -> Option<Seq<char>> {
    if encode_utf8(s).len() > 317 {
        Some("NSID too long"@)
    } else if !collection_form(s) {
        Some("Invalid NSID"@)
    } else {
        None
    }
}

/// `Nsid::from_str`, by what comes back as text: the text itself where it has
/// the form of a namespaced identifier of at most 317 bytes, else the reason
/// why it is none.
#[verifier::external_body]
pub(crate) fn parse_collection(s: &str) -> (r: Result<String, String>)
    ensures
        match r {
            Ok(t) => collection_problem(s@) is None && t@ == s@,
            Err(e) => collection_problem(s@) == Some(e@),
        },
{
    match Nsid::from_str(s) {
        Ok(n) => Ok(String::from(n)),
        Err(e) => Err(e.to_string()),
    }
}

/// Letters in four parts with dots between them are the name of a collection,
/// where each part has at most 63 of them.
pub proof fn lemma_four_parts(s: Seq<char>, a: int, b: int, c: int)
    requires
        0 < a <= 63,
        a + 1 < b <= a + 64,
        b + 1 < c <= b + 64,
        c + 1 < s.len() <= c + 64,
        s[a] == '.' && s[b] == '.' && s[c] == '.',
        forall|i: int|
            0 <= i < s.len() && i != a && i != b && i != c ==> is_letter(#[trigger] s[i]),
    ensures
        collection_problem(s) is None,
{
    assert(is_ascii_chars(s));
    is_ascii_chars_encode_utf8(s);
    lemma_dot_at(s, 0, a);
    lemma_dot_at(s, a + 1, b);
    lemma_dot_at(s, b + 1, c);
    assert(last_part_form(s, c + 1));
    assert(parts_form(s, b + 1));
    assert(parts_form(s, a + 1));
}

proof fn lemma_dot_at(s: Seq<char>, from: int, to: int)
    requires
        0 <= from <= to < s.len(),
        s[to] == '.',
        forall|i: int| from <= i < to ==> #[trigger] s[i] != '.',
    ensures
        dot_at(s, from) == to,
    decreases to - from,
{
    if from < to {
        lemma_dot_at(s, from + 1, to);
    }
}

/// The form of a record key.
pub open spec fn key_form(s: Seq<char>) -> bool {
    &&& 1 <= s.len() <= 512
    &&& forall|i: int|
        0 <= i < s.len() ==> is_alnum(#[trigger] s[i]) || s[i] == '.' || s[i] == '-' || s[i] == '_'
            || s[i] == ':' || s[i] == '~'
}

/// What is said of a text that is to be a record key: nothing where it is one.
pub open spec fn key_problem(s: Seq<char>) -> Option<Seq<char>> {
    if s == "."@ || s == ".."@ {
        Some("Disallowed rkey"@)
    } else if !key_form(s) {
        Some("Invalid rkey"@)
    } else {
        None
    }
}

/// `RecordKey::from_str`, by what comes back as text: the text itself where it
/// has the form of a record key and is not one or two dots, else the reason
/// why it is none.
#[verifier::external_body]
pub(crate) fn parse_key(s: &str) -> (r: Result<String, String>)
    ensures
        match r {
            Ok(t) => key_problem(s@) is None && t@ == s@,
            Err(e) => key_problem(s@) == Some(e@),
        },
{
    match RecordKey::from_str(s) {
        Ok(k) => Ok(String::from(k)),
        Err(e) => Err(e.to_string()),
    }
}

// ── Content hashes ─────────────────────────────────────────────────────

/// What reading a content hash gives: the hash as it is written, or why it
/// cannot be read.
pub uninterp spec fn hash_read(s: Seq<char>) -> Result<Seq<char>, Seq<char>>;

/// `Cid::from_str`, by what comes back as text: the hash in the form in which
/// it is written again, or the reason why it cannot be read. What that form is
/// and which texts can be read is left to the name.
#[verifier::external_body]
pub(crate) fn parse_cid(s: &str) -> (r: Result<String, String>)
    ensures
        res_view(r) == hash_read(s@),
{
    match Cid::from_str(s) {
        Ok(c) => Ok(c.as_ref().to_string()),
        Err(e) => Err(e.to_string()),
    }
}

/// A text in quotation marks, what is unusual in it escaped.
pub uninterp spec fn quoted(s: Seq<char>) -> Seq<char>;

/// A text as its `Debug` form writes it. How that escapes a character is left
/// to the name.
#[verifier::external_body]
pub(crate) fn quote(s: &str) -> (r: String)
    ensures
        r@ == quoted(s@),
{
    format!("{s:?}")
}

} // verus!
