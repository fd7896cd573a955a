//! The words of a profile.

use vstd::prelude::*;
#[allow(unused_imports)]
use vstd::utf8::{
    decode_utf8, encode_utf8, encode_utf8_decode_utf8, is_char_boundary,
};

use crate::model::{
    display_name_or, GeneratorView, ListView, ProfileDetail, StarterPackView,
};
#[allow(unused_imports)]
use crate::model::{name_or_handle, shown_name};
use crate::text::{
    char_is_space, chars_of, contains, decimal_int_text, join2, join3, owned, same_text, starts_with, string_of,
};
#[allow(unused_imports)]
use crate::text::{contains_text, decimal_int, has_prefix, is_space, opt_view, trimmed_end};

verus! {

/// What is said when a conversation could not be opened. `e` is the error.
pub open spec fn dm_problem(e: Seq<char>) -> Seq<char> {
    if has_prefix(e, "DM_SCOPE:"@) {
        "This app password can't access DMs."@
    } else if contains_text(e, "NotFollowedBySender"@) {
        "They only accept DMs from people they follow."@
    } else if contains_text(e, "Recipient"@) || contains_text(e, "disabled"@) || contains_text(
        e,
        "cannot"@,
    ) {
        "This user isn't accepting messages."@
    } else {
        "Couldn't open conversation."@
    }
}

/// What is said when a conversation could not be opened.
pub fn dm_error_message(err: &str) -> (r: String)
    ensures
        r@ == dm_problem(err@),
{
    if starts_with(err, "DM_SCOPE:") {
        owned("This app password can't access DMs.")
    } else if contains(err, "NotFollowedBySender") {
        owned("They only accept DMs from people they follow.")
    } else if contains(err, "Recipient") || contains(err, "disabled") || contains(err, "cannot") {
        owned("This user isn't accepting messages.")
    } else {
        owned("Couldn't open conversation.")
    }
}

/// The short name of a month.
pub open spec fn month_name(m: int) -> Option<Seq<char>> {
    if m == 1 {
        Some("Jan"@)
    } else if m == 2 {
        Some("Feb"@)
    } else if m == 3 {
        Some("Mar"@)
    } else if m == 4 {
        Some("Apr"@)
    } else if m == 5 {
        Some("May"@)
    } else if m == 6 {
        Some("Jun"@)
    } else if m == 7 {
        Some("Jul"@)
    } else if m == 8 {
        Some("Aug"@)
    } else if m == 9 {
        Some("Sep"@)
    } else if m == 10 {
        Some("Oct"@)
    } else if m == 11 {
        Some("Nov"@)
    } else if m == 12 {
        Some("Dec"@)
    } else {
        None
    }
}

fn month_text(m: u8) -> (r: Option<String>)
    ensures
        opt_view(r) == month_name(m as int),
{
    if m == 1 {
        Some(owned("Jan"))
    } else if m == 2 {
        Some(owned("Feb"))
    } else if m == 3 {
        Some(owned("Mar"))
    } else if m == 4 {
        Some(owned("Apr"))
    } else if m == 5 {
        Some(owned("May"))
    } else if m == 6 {
        Some(owned("Jun"))
    } else if m == 7 {
        Some(owned("Jul"))
    } else if m == 8 {
        Some(owned("Aug"))
    } else if m == 9 {
        Some(owned("Sep"))
    } else if m == 10 {
        Some(owned("Oct"))
    } else if m == 11 {
        Some(owned("Nov"))
    } else if m == 12 {
        Some(owned("Dec"))
    } else {
        None
    }
}

/// A byte is a decimal digit.
pub open spec fn is_digit(b: u8) -> bool {
    48 <= b <= 57
}

/// The number that two bytes write: two digits, or a plus sign and one digit.
pub open spec fn two_digits(a: u8, b: u8) -> Option<int> {
    if is_digit(a) && is_digit(b) {
        Some((a - 48) * 10 + (b - 48))
    } else if a == 43 && is_digit(b) {
        Some(b - 48)
    } else {
        None
    }
}

/// Month and year of an RFC 3339 date, such as "Mar 2024"; nothing where its
/// leading bytes do not have that form.
pub open spec fn month_year(date: Seq<char>) -> Option<Seq<char>> {
    let b = encode_utf8(date);
    if b.len() >= 7 && is_char_boundary(b, 4) && is_char_boundary(b, 5) && is_char_boundary(b, 7) {
        match two_digits(b[5], b[6]) {
            Some(m) => match month_name(m) {
                Some(name) => Some(name + " "@ + decode_utf8(b.subrange(0, 4))),
                None => None,
            },
            None => None,
        }
    } else {
        None
    }
}

/// Month and year of an RFC 3339 date.
pub fn format_month_year(date: &str) -> (r: Option<String>)
    ensures
        opt_view(r) == month_year(date@),
{
    let bytes = date.as_bytes();
    if bytes.len() < 7 {
        return None;
    }
    if !date.is_char_boundary(4) || !date.is_char_boundary(5) || !date.is_char_boundary(7) {
        return None;
    }
    let a: u8 = bytes[5];
    let b: u8 = bytes[6];
    let b_digit = b >= 48 && b <= 57;
    let m: u8 = if a >= 48 && a <= 57 && b_digit {
        (a - 48) * 10 + (b - 48)
    } else if a == 43 && b_digit {
        b - 48
    } else {
        return None;
    };
    let year = date.split_at(4).0;
    proof {
        encode_utf8_decode_utf8(year@);
    }
    match month_text(m) {
        Some(name) => Some(join3(name.as_str(), " ", year)),
        None => None,
    }
}

/// `s` without any number of `p` in front.
pub open spec fn stripped(s: Seq<char>, p: Seq<char>) -> Seq<char>
    decreases s.len(),
{
    if p.len() > 0 && has_prefix(s, p) {
        stripped(s.subrange(p.len() as int, s.len() as int), p)
    } else {
        s
    }
}

fn strip_all(s: &str, p: &str) -> (r: String)
    requires
        p@.len() > 0,
    ensures
        r@ == stripped(s@, p@),
{
    let k: usize = p.unicode_len();
    let mut r = owned(s);
    while starts_with(r.as_str(), p)
        invariant
            k == p@.len(),
            k > 0,
            stripped(s@, p@) == stripped(r@, p@),
        decreases r@.len(),
    {
        let n: usize = r.as_str().unicode_len();
        let rest = owned(r.as_str().substring_char(k, n));
        r = rest;
    }
    r
}

/// An address without its scheme.
pub open spec fn bare_site(site: Seq<char>) -> Seq<char> {
    stripped(stripped(site, "https://"@), "http://"@)
}

/// The parts of the line below the counters: when the account was made, its
/// website, and the starter pack it came through.
pub open spec fn meta_parts(p: ProfileDetail) -> Seq<Seq<char>> {
    (match (match p.created_at {
        Some(d) => month_year(d@),
        None => None,
    }) {
        Some(j) => seq!["Joined "@ + j],
        None => Seq::empty(),
    }) + (match shown_name(p.website) {
        Some(w) => seq![bare_site(w)],
        None => Seq::empty(),
    }) + (match p.joined_via {
        Some(h) => seq!["via @"@ + h@ + "'s pack"@],
        None => Seq::empty(),
    })
}

/// Parts with a separator between them.
pub open spec fn joined(parts: Seq<Seq<char>>, sep: Seq<char>) -> Seq<char>
    decreases parts.len(),
{
    if parts.len() == 0 {
        Seq::empty()
    } else if parts.len() == 1 {
        parts[0]
    } else {
        joined(parts.drop_last(), sep) + sep + parts.last()
    }
}

/// Joins parts with a separator between them.
pub(crate) fn join_all(parts: &Vec<String>, sep: &str) -> (r: String)
    ensures
        r@ == joined(crate::embeds::texts(parts@), sep@),
{
    let ghost all = crate::embeds::texts(parts@);
    let mut r = String::new();
    let mut i: usize = 0;
    while i < parts.len()
        invariant
            i <= parts@.len(),
            all == crate::embeds::texts(parts@),
            r@ == joined(all.take(i as int), sep@),
        decreases parts@.len() - i,
    {
        proof {
            assert(all.take(i + 1).drop_last() =~= all.take(i as int));
            assert(all.take(i + 1).last() == parts@[i as int]@);
        }
        if i > 0 {
            r.append(sep);
        }
        r.append(parts[i].as_str());
        proof {
            if i == 0 {
                assert(r@ =~= all.take(1)[0]);
            }
        }
        i += 1;
    }
    assert(all.take(all.len() as int) =~= all);
    r
}

/// The line below the counters of a profile; empty where nothing is known.
pub fn meta_line(p: &ProfileDetail) -> (r: String)
    ensures
        r@ == joined(meta_parts(*p), "  ·  "@),
{
    let mut parts: Vec<String> = Vec::new();
    let made = match &p.created_at {
        Some(d) => format_month_year(d.as_str()),
        None => None,
    };
    match made {
        Some(j) => {
            parts.push(join2("Joined ", j.as_str()));
        },
        None => {},
    }
    match &p.website {
        Some(w) => {
            if !w.as_str().is_empty() {
                proof {
                    reveal_strlit("https://");
                    reveal_strlit("http://");
                }
                let once = strip_all(w.as_str(), "https://");
                parts.push(strip_all(once.as_str(), "http://"));
            }
        },
        None => {},
    }
    match &p.joined_via {
        Some(h) => {
            parts.push(join3("via @", h.as_str(), "'s pack"));
        },
        None => {},
    }
    assert(crate::embeds::texts(parts@) =~= meta_parts(*p));
    join_all(&parts, "  ·  ")
}

/// The handle of a profile, with its pronouns where there are any.
pub open spec fn handle_line_of(p: ProfileDetail) -> Seq<char> {
    match shown_name(p.pronouns) {
        Some(pron) => "@"@ + p.handle@ + " ("@ + pron + ")"@,
        None => "@"@ + p.handle@,
    }
}

/// The handle of a profile, with its pronouns where there are any.
pub fn handle_line(p: &ProfileDetail) -> (r: String)
    ensures
        r@ == handle_line_of(*p),
{
    let mut r = join2("@", p.handle.as_str());
    match &p.pronouns {
        Some(pron) => {
            if !pron.as_str().is_empty() {
                r.append(" (");
                r.append(pron.as_str());
                r.append(")");
            }
        },
        None => {},
    }
    r
}

/// A counter that is not known counts as 0.
pub open spec fn known(n: Option<i64>) -> int {
    match n {
        Some(k) => k as int,
        None => 0,
    }
}

fn known_text(n: Option<i64>) -> (r: String)
    ensures
        r@ == decimal_int(known(n)),
{
    match n {
        Some(k) => decimal_int_text(k),
        None => decimal_int_text(0),
    }
}

/// The counters of a profile in one line.
pub open spec fn counts_of(p: ProfileDetail) -> Seq<char> {
    decimal_int(known(p.posts_count)) + " posts     "@ + decimal_int(known(p.followers_count))
        + " followers     "@ + decimal_int(known(p.follows_count)) + " following"@
}

/// The counters of a profile in one line.
pub fn counts_line(p: &ProfileDetail) -> (r: String)
    ensures
        r@ == counts_of(*p),
{
    let mut r = known_text(p.posts_count);
    r.append(" posts     ");
    let b = known_text(p.followers_count);
    r.append(b.as_str());
    r.append(" followers     ");
    let c = known_text(p.follows_count);
    r.append(c.as_str());
    r.append(" following");
    r
}

/// An account goes under its name, or its handle where it has none.
pub open spec fn named(p: ProfileDetail, r: String) -> bool {
    r@ == name_or_handle(p.display_name, p.handle@)
}

/// The name of a profile.
pub fn profile_name(p: &ProfileDetail) -> (r: String)
    ensures
        named(*p, r),
{
    display_name_or(&p.display_name, p.handle.as_str())
}

/// Whether the account is verified.
pub open spec fn verified(p: ProfileDetail, r: bool) -> bool {
    r == (opt_view(p.verified_status) == Some("valid"@))
}

/// Whether a profile carries the verified mark.
pub fn is_verified(p: &ProfileDetail) -> (r: bool)
    ensures
        verified(*p, r),
{
    match &p.verified_status {
        Some(s) => same_text(s.as_str(), "valid"),
        None => false,
    }
}

/// Who made an item.
pub open spec fn maker_told(handle: Seq<char>, r: String) -> bool {
    r@ == "by @"@ + handle
}

/// The second line of a custom feed or list: who made it.
pub fn made_by(handle: &str) -> (r: String)
    ensures
        maker_told(handle@, r),
{
    join2("by @", handle)
}

/// How many like a feed, where that is known.
pub open spec fn likes_told(item: GeneratorView, r: Option<String>) -> bool {
    opt_view(r) == (match item.like_count {
        Some(n) => Some("♥ "@ + decimal_int(n as int)),
        None => None,
    })
}

/// The likes of a custom feed.
pub fn feed_likes(item: &GeneratorView) -> (r: Option<String>)
    ensures
        likes_told(*item, r),
{
    match item.like_count {
        Some(n) => {
            let d = decimal_int_text(n);
            Some(join2("♥ ", d.as_str()))
        },
        None => None,
    }
}

/// How many are on a list, where that is known.
pub open spec fn members_told(item: ListView, r: Option<String>) -> bool {
    opt_view(r) == (match item.list_item_count {
        Some(n) => Some(decimal_int(n as int) + " members"@),
        None => None,
    })
}

/// The members of a list.
pub fn list_members(item: &ListView) -> (r: Option<String>)
    ensures
        members_told(*item, r),
{
    match item.list_item_count {
        Some(n) => {
            let d = decimal_int_text(n);
            Some(join2(d.as_str(), " members"))
        },
        None => None,
    }
}

/// Who made a starter pack.
pub open spec fn pack_titled(item: StarterPackView, r: String) -> bool {
    r@ == "Pack by @"@ + item.creator_handle@
}

/// The title of a starter pack.
pub fn pack_title(item: &StarterPackView) -> (r: String)
    ensures
        pack_titled(*item, r),
{
    join2("Pack by @", item.creator_handle.as_str())
}

/// The parts of the second line of a starter pack.
pub open spec fn pack_parts(item: StarterPackView) -> Seq<Seq<char>> {
    (match item.list_item_count {
        Some(n) => seq![decimal_int(n as int) + " members"@],
        None => Seq::empty(),
    }) + (match item.joined_all_time_count {
        Some(n) => seq![decimal_int(n as int) + " joined"@],
        None => Seq::empty(),
    })
}

/// The members of a starter pack and how many joined, as far as known.
pub open spec fn pack_told(item: StarterPackView, r: String) -> bool {
    r@ == joined(pack_parts(item), "  ·  "@)
}

/// The second line of a starter pack.
pub fn pack_line(item: &StarterPackView) -> (r: String)
    ensures
        pack_told(*item, r),
{
    let mut parts: Vec<String> = Vec::new();
    match item.list_item_count {
        Some(n) => {
            let d = decimal_int_text(n);
            parts.push(join2(d.as_str(), " members"));
        },
        None => {},
    }
    match item.joined_all_time_count {
        Some(n) => {
            let d = decimal_int_text(n);
            parts.push(join2(d.as_str(), " joined"));
        },
        None => {},
    }
    assert(crate::embeds::texts(parts@) =~= pack_parts(*item));
    join_all(&parts, "  ·  ")
}

// ── The description ────────────────────────────────────────────────────

/// One step shorter: a character less, and an ellipsis that then ends the text
/// goes with it.
pub open spec fn shorter(text: Seq<char>, keep: int) -> int {
    if keep >= 2 && text[keep - 2] == '…' {
        keep - 2
    } else {
        keep - 1
    }
}

/// The length of the leading part of `text[..keep]` that ends in white space.
pub open spec fn word_end(text: Seq<char>, keep: int) -> int
    decreases keep,
{
    if keep <= 0 || is_space(text[keep - 1]) {
        keep
    } else {
        word_end(text, keep - 1)
    }
}

/// The text as it is shown once `keep` characters of it fit: all of it, or its
/// whole words with an ellipsis.
pub open spec fn clip_result(text: Seq<char>, keep: int) -> Seq<char> {
    if keep < text.len() {
        text.subrange(0, trimmed_end(text, word_end(text, keep))).push('…')
    } else {
        text
    }
}

/// Shortens a description until it fits into its lines. The heights come from
/// whoever can measure text: each [`DescriptionClip::offer`] is measured and
/// answered.
pub struct DescriptionClip {
    text: Vec<char>,
    keep: usize,
}

impl DescriptionClip {
    /// The whole description.
    pub closed spec fn source(&self) -> Seq<char> {
        self.text@
    }

    /// How many leading characters are on offer.
    pub closed spec fn kept(&self) -> int {
        self.keep as int
    }

    /// No more is on offer than there is.
    pub closed spec fn wf(&self) -> bool {
        self.keep <= self.text@.len()
    }

    /// Starts with the whole description on offer.
    pub fn start(text: &str) -> (r: DescriptionClip)
        ensures
            r.wf(),
            r.source() == text@,
            r.kept() == text@.len(),
    {
        let text = chars_of(text);
        let keep: usize = text.len();
        DescriptionClip { text, keep }
    }

    /// The text on offer.
    pub fn offer(&self) -> (r: String)
        requires
            self.wf(),
        ensures
            0 <= self.kept() <= self.source().len(),
            r@ == self.source().subrange(0, self.kept()),
    {
        string_of(&self.text, 0, self.keep)
    }

    /// Whether the offer fits leads to the next offer or to the final text.
    pub open spec fn cut_told(a: Self, b: Self, fits: bool, r: Option<String>) -> bool {
        &&& b.source() == a.source()
        &&& match r {
            Some(t) => {
                ||| fits && t@ == clip_result(a.source(), a.kept())
                ||| !fits && (a.kept() == 0 || shorter(
                    a.source(),
                    a.kept(),
                ) == 0) && t@ == clip_result(a.source(), 0)
            },
            None => !fits && b.kept() == shorter(
                a.source(),
                a.kept(),
            ) && b.kept() > 0,
        }
    }

    /// Takes whether the offer fits. `Some` is the final text: the offer if it
    /// fits or nothing is left to drop.
    pub fn answer(&mut self, fits: bool) -> (r: Option<String>)
        requires
            old(self).wf(),
        ensures
            final(self).wf(),
            Self::cut_told(*old(self), *final(self), fits, r),
    {
        if fits {
            return Some(self.finish());
        }
        if self.keep > 0 {
            self.keep = self.keep - 1;
            if self.keep > 0 && self.text[self.keep - 1] == '…' {
                self.keep = self.keep - 1;
            }
        }
        if self.keep == 0 {
            return Some(self.finish());
        }
        None
    }

    fn finish(&self) -> (r: String)
        requires
            self.wf(),
        ensures
            r@ == clip_result(self.source(), self.kept()),
    {
        let n: usize = self.text.len();
        if self.keep >= n {
            let r = string_of(&self.text, 0, n);
            assert(r@ =~= self.text@);
            return r;
        }
        let mut k: usize = self.keep;
        while k > 0 && !char_is_space(self.text[k - 1])
            invariant
                k <= self.keep <= self.text@.len(),
                word_end(self.text@, self.keep as int) == word_end(self.text@, k as int),
            decreases k,
        {
            k = k - 1;
        }
        let ghost at = k as int;
        while k > 0 && char_is_space(self.text[k - 1])
            invariant
                k <= self.keep <= self.text@.len(),
                trimmed_end(self.text@, at) == trimmed_end(self.text@, k as int),
            decreases k,
        {
            k = k - 1;
        }
        let mut r = string_of(&self.text, 0, k);
        r.push('…');
        r
    }
}

proof fn lemma_word_end(text: Seq<char>, keep: int)
    requires
        0 <= keep <= text.len(),
    ensures
        0 <= word_end(text, keep) <= keep,
        word_end(text, keep) > 0 ==> is_space(text[word_end(text, keep) - 1]),
    decreases keep,
{
    if keep > 0 && !is_space(text[keep - 1]) {
        lemma_word_end(text, keep - 1);
    }
}

proof fn lemma_trimmed_end(text: Seq<char>, keep: int)
    requires
        0 <= keep <= text.len(),
    ensures
        0 <= trimmed_end(text, keep) <= keep,
        trimmed_end(text, keep) > 0 ==> !is_space(text[trimmed_end(text, keep) - 1]),
        forall|i: int| trimmed_end(text, keep) <= i < keep ==> is_space(text[i]),
    decreases keep,
{
    if keep > 0 && is_space(text[keep - 1]) {
        lemma_trimmed_end(text, keep - 1);
    }
}

/// A description that fits is shown whole. Else less and less of it is tried, and
/// what is shown are its first whole words with an ellipsis behind the last one.
pub proof fn lemma_description_cut(
    a: DescriptionClip,
    b: DescriptionClip,
    fits: bool,
    r: Option<String>,
)
    requires
        a.wf(),
        DescriptionClip::cut_told(a, b, fits, r),
    ensures
        b.source() == a.source(),
        fits ==> r is Some,
        fits && a.kept() == a.source().len() ==> (r->0)@ == a.source(),
        r matches Some(t) ==> t@ != a.source() ==> {
            let m = t@.len() - 1;
            &&& 0 <= m <= a.source().len()
            &&& t@ == a.source().take(m).push('…')
            &&& m > 0 ==> !is_space(a.source()[m - 1]) && m < a.source().len() && is_space(
                a.source()[m],
            )
        },
        r is None ==> 0 < b.kept() < a.kept(),
{
    let text = a.source();
    if let Some(t) = r {
        let keep = if fits {
            a.kept()
        } else {
            0
        };
        if keep < text.len() {
            lemma_word_end(text, keep);
            lemma_trimmed_end(text, word_end(text, keep));
            let m = trimmed_end(text, word_end(text, keep));
            assert(text.subrange(0, m) =~= text.take(m));
        }
    }
}

} // verus!
