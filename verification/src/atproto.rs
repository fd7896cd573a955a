//! Calls into the AT Protocol crates.

use atrium_api::app::bsky::feed::post::RecordData;
use atrium_api::types::string::Datetime;
use vstd::prelude::*;

#[allow(unused_imports)]
use crate::text::opt_view;

verus! {

/// The text of a post record given as JSON, where the JSON is one.
pub uninterp spec fn post_record_text(record: Seq<char>) -> Option<Seq<char>>;

/// `serde_json::from_str` into atrium's post record, of which the text is
/// kept. Nothing comes back where the JSON is no post record.
#[verifier::external_body]
pub(crate) fn extract_post_text(record: &str) -> (r: Option<String>)
    ensures
        opt_view(r) == post_record_text(record@),
{
    serde_json::from_str::<RecordData>(record).ok().map(|r| r.text)
}

/// `Datetime::now` as text. It depends on the clock: nothing is claimed of it.
#[verifier::external_body]
pub(crate) fn time_text() -> (r: String) {
    Datetime::now().as_str().to_string()
}

/// The text that is shown for a record: nothing where it is no post.
pub open spec fn shown_text(text: Option<Seq<char>>) -> Seq<char> {
    match text {
        Some(t) => t,
        None => Seq::empty(),
    }
}

/// The text that is shown for what a record turned out to be.
pub fn text_or_empty(text: Option<String>) -> (r: String)
    ensures
        r@ == shown_text(opt_view(text)),
{
    match text {
        Some(t) => t,
        None => String::new(),
    }
}

/// The text that is shown for a record given as JSON.
pub fn record_text(record: &str) -> (r: String)
    ensures
        r@ == shown_text(post_record_text(record@)),
{
    text_or_empty(extract_post_text(record))
}

} // verus!
