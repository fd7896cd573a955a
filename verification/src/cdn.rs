//! Addresses on the Bluesky image servers.
//!
//! An account's avatar address names the full-size picture in a format that
//! the display cannot decode. The small JPEG variant lives beside it.

use vstd::prelude::*;

use crate::text::{ends_with, join2, owned, starts_with};
#[allow(unused_imports)]
use crate::text::{has_prefix, has_suffix};

verus! {

/// The formats that an address can select by itself.
pub open spec fn keeps_format(url: Seq<char>) -> bool {
    has_suffix(url, "@jpeg"@) || has_suffix(url, "@png"@)
}

/// The formats that must be replaced.
pub open spec fn foreign_format(url: Seq<char>) -> bool {
    has_suffix(url, "@webp"@) || has_suffix(url, "@avif"@)
}

/// `url` with a decodable format selected.
pub open spec fn jpeg_url(url: Seq<char>) -> Seq<char> {
    if keeps_format(url) {
        url
    } else if foreign_format(url) {
        url.subrange(0, url.len() - 5) + "@jpeg"@
    } else {
        url + "@jpeg"@
    }
}

/// The address of the small avatar that belongs to `url`.
pub open spec fn thumbnail_url(url: Seq<char>) -> Seq<char> {
    if has_prefix(url, "https://cdn.bsky.app/img/avatar/plain/"@) {
        jpeg_url(
            "https://cdn.bsky.app/img/avatar_thumbnail/plain/"@ + url.subrange(
                "https://cdn.bsky.app/img/avatar/plain/"@.len() as int,
                url.len() as int,
            ),
        )
    } else {
        url
    }
}

/// The small JPEG variant of a Bluesky avatar. An address of another kind
/// comes back as it is.
pub fn avatar_thumbnail_jpeg(url: &str) -> (r: String)
    ensures
        r@ == thumbnail_url(url@),
{
    let plain = "https://cdn.bsky.app/img/avatar/plain/";
    if !starts_with(url, plain) {
        return owned(url);
    }
    let n: usize = url.unicode_len();
    let k: usize = plain.unicode_len();
    let path = join2(
        "https://cdn.bsky.app/img/avatar_thumbnail/plain/",
        url.substring_char(k, n),
    );
    ensure_jpeg(path.as_str())
}

/// Selects JPEG where the address does not already select JPEG or PNG.
pub fn ensure_jpeg(url: &str) -> (r: String)
    ensures
        r@ == jpeg_url(url@),
{
    proof {
        reveal_strlit("@webp");
        reveal_strlit("@avif");
    }
    if ends_with(url, "@jpeg") || ends_with(url, "@png") {
        owned(url)
    } else if ends_with(url, "@webp") || ends_with(url, "@avif") {
        let n: usize = url.unicode_len();
        join2(url.substring_char(0, n - 5), "@jpeg")
    } else {
        join2(url, "@jpeg")
    }
}

/// A text that ends in `b` has the suffix `b`.
proof fn lemma_suffix_of_concat(a: Seq<char>, b: Seq<char>)
    ensures
        has_suffix(a + b, b),
{
    assert((a + b).subrange(a.len() as int, (a + b).len() as int) =~= b);
}

/// Selecting a format is idempotent: an address that was already coerced is
/// left alone.
pub proof fn lemma_ensure_jpeg_idempotent(url: Seq<char>)
    ensures
        jpeg_url(jpeg_url(url)) == jpeg_url(url),
{
    lemma_suffix_of_concat(url.subrange(0, url.len() - 5), "@jpeg"@);
    lemma_suffix_of_concat(url, "@jpeg"@);
}

/// What comes out always selects JPEG or PNG.
pub proof fn lemma_ensure_jpeg_decodable(url: Seq<char>)
    ensures
        keeps_format(jpeg_url(url)),
{
    lemma_suffix_of_concat(url.subrange(0, url.len() - 5), "@jpeg"@);
    lemma_suffix_of_concat(url, "@jpeg"@);
}

/// Taking the small variant is idempotent: the small variant is not itself
/// an address of the full-size kind.
pub proof fn lemma_thumbnail_idempotent(url: Seq<char>)
    ensures
        thumbnail_url(thumbnail_url(url)) == thumbnail_url(url),
{
    reveal_strlit("https://cdn.bsky.app/img/avatar/plain/");
    reveal_strlit("https://cdn.bsky.app/img/avatar_thumbnail/plain/");
    reveal_strlit("@jpeg");
    reveal_strlit("@webp");
    reveal_strlit("@avif");
    let full = "https://cdn.bsky.app/img/avatar/plain/"@;
    let t = thumbnail_url(url);
    if has_prefix(url, full) && has_prefix(t, full) {
        // The two prefixes differ behind the word "avatar".
        assert(t[31] == '_');
        assert(t.subrange(0, full.len() as int)[31] == t[31]);
        assert(full[31] == '/');
    }
}

} // verus!
