//! The reader's pinned feeds, out of their preferences.

use vstd::prelude::*;

#[allow(unused_imports)]
use crate::embeds::texts;
use crate::model::{clone_text, GeneratorView};
use crate::requests::{FeedSource, SavedFeedPin, SavedFeedsBatch, WorkResponse};
#[allow(unused_imports)]
use crate::requests::FeedSourceV;
use crate::text::{owned, same_text, tail_after};
#[allow(unused_imports)]
use crate::text::after_last;

verus! {

/// A saved feed, as the preferences hold it.
#[derive(Debug)]
pub struct SavedItem {
    pub pinned: bool,
    /// `timeline`, `feed`, `list` or a word this client does not know.
    pub kind: String,
    pub value: String,
}

/// One of the reader's preferences.
#[derive(Debug)]
pub enum Preference {
    /// The saved feeds.
    SavedFeedsV2(Vec<SavedItem>),
    /// The saved feeds in their first form: the addresses of the pinned ones.
    SavedFeedsV1(Vec<String>),
    Other,
}

/// A pinned feed before its name is known.
#[derive(Debug)]
pub enum PendingPin {
    Following,
    Feed(String),
}

/// A pinned feed: its address, or nothing for the home timeline.
pub open spec fn pin_view(p: PendingPin) -> Option<Seq<char>> {
    match p {
        PendingPin::Following => None,
        PendingPin::Feed(u) => Some(u@),
    }
}

/// Pinned feeds, in the same way.
pub open spec fn pins_view(pins: Seq<PendingPin>) -> Seq<Option<Seq<char>>> {
    Seq::new(pins.len(), |i: int| pin_view(pins[i]))
}

/// The pinned ones among the first `n` saved feeds, but for lists and what is
/// not known.
pub open spec fn pinned_items(items: Seq<SavedItem>, n: int) -> Seq<Option<Seq<char>>>
    decreases n,
{
    if n <= 0 {
        Seq::empty()
    } else {
        let before = pinned_items(items, n - 1);
        let it = items[n - 1];
        if it.pinned && it.kind@ == "timeline"@ {
            before.push(None)
        } else if it.pinned && it.kind@ == "feed"@ {
            before.push(Some(it.value@))
        } else {
            before
        }
    }
}

/// The first preference from `from` on that holds the saved feeds.
pub open spec fn v2_from(prefs: Seq<Preference>, from: int) -> Option<Seq<SavedItem>>
    decreases prefs.len() - from,
{
    if from >= prefs.len() {
        None
    } else {
        match prefs[from] {
            Preference::SavedFeedsV2(items) => Some(items@),
            _ => v2_from(prefs, from + 1),
        }
    }
}

/// The last of the first `n` preferences that holds the saved feeds in their
/// first form.
pub open spec fn v1_before(prefs: Seq<Preference>, n: int) -> Option<Seq<String>>
    decreases n,
{
    if n <= 0 {
        None
    } else {
        match prefs[n - 1] {
            Preference::SavedFeedsV1(pinned) => Some(pinned@),
            _ => v1_before(prefs, n - 1),
        }
    }
}

/// The feeds that the preferences pin, in their order.
pub open spec fn pinned_in(prefs: Seq<Preference>) -> Seq<Option<Seq<char>>> {
    match v2_from(prefs, 0) {
        Some(items) => pinned_items(items, items.len() as int),
        None => match v1_before(prefs, prefs.len() as int) {
            Some(pinned) => Seq::new(pinned.len(), |i: int| Some(pinned[i]@)),
            None => Seq::empty(),
        },
    }
}

/// The first place of the home timeline from `from` on; the length where it is
/// not there.
pub open spec fn following_at(pins: Seq<Option<Seq<char>>>, from: int) -> int
    decreases pins.len() - from,
{
    if from >= pins.len() {
        pins.len() as int
    } else if pins[from] is None {
        from
    } else {
        following_at(pins, from + 1)
    }
}

/// The pins with the home timeline first: moved there where it is pinned
/// further down, and added where it is not pinned.
pub open spec fn following_first(pins: Seq<Option<Seq<char>>>) -> Seq<Option<Seq<char>>> {
    let at = following_at(pins, 0);
    if at < pins.len() {
        seq![None] + pins.remove(at)
    } else {
        seq![None] + pins
    }
}

fn pins_of_items(items: &Vec<SavedItem>) -> (r: Vec<PendingPin>)
    ensures
        pins_view(r@) == pinned_items(items@, items@.len() as int),
{
    let mut r: Vec<PendingPin> = Vec::new();
    let mut i: usize = 0;
    assert(pins_view(r@) =~= Seq::empty());
    while i < items.len()
        invariant
            i <= items@.len(),
            pins_view(r@) == pinned_items(items@, i as int),
        decreases items@.len() - i,
    {
        let ghost before = r@;
        let it = &items[i];
        if it.pinned {
            if same_text(it.kind.as_str(), "timeline") {
                r.push(PendingPin::Following);
                assert(pins_view(r@) =~= pins_view(before).push(None));
            } else if same_text(it.kind.as_str(), "feed") {
                r.push(PendingPin::Feed(it.value.clone()));
                assert(pins_view(r@) =~= pins_view(before).push(Some(it.value@)));
            }
        }
        i += 1;
    }
    r
}

fn pins_of_addresses(pinned: &Vec<String>) -> (r: Vec<PendingPin>)
    ensures
        pins_view(r@) == Seq::new(pinned@.len(), |i: int| Some(pinned@[i]@)),
{
    let mut r: Vec<PendingPin> = Vec::new();
    let mut i: usize = 0;
    while i < pinned.len()
        invariant
            i <= pinned@.len(),
            r@.len() == i,
            forall|k: int| 0 <= k < i ==> pin_view(#[trigger] r@[k]) == Some(pinned@[k]@),
        decreases pinned@.len() - i,
    {
        r.push(PendingPin::Feed(pinned[i].clone()));
        i += 1;
    }
    assert(pins_view(r@) =~= Seq::new(pinned@.len(), |i: int| Some(pinned@[i]@)));
    r
}

fn pinned_by(prefs: &Vec<Preference>) -> (r: Vec<PendingPin>)
    ensures
        pins_view(r@) == pinned_in(prefs@),
{
    let mut v1: Option<usize> = None;
    let mut i: usize = 0;
    while i < prefs.len()
        invariant
            i <= prefs@.len(),
            v2_from(prefs@, 0) == v2_from(prefs@, i as int),
            match v1 {
                Some(k) => k < prefs@.len() && (prefs@[k as int] matches Preference::SavedFeedsV1(p)
                    && v1_before(prefs@, i as int) == Some(p@)),
                None => v1_before(prefs@, i as int) is None,
            },
        decreases prefs@.len() - i,
    {
        match &prefs[i] {
            Preference::SavedFeedsV2(items) => {
                return pins_of_items(items);
            },
            Preference::SavedFeedsV1(_) => {
                v1 = Some(i);
            },
            Preference::Other => {},
        }
        i += 1;
    }
    if let Some(k) = v1 {
        if let Preference::SavedFeedsV1(pinned) = &prefs[k] {
            return pins_of_addresses(pinned);
        }
    }
    let r: Vec<PendingPin> = Vec::new();
    assert(pins_view(r@) =~= Seq::empty());
    r
}

/// The pinned feeds in display order. The home timeline always comes first.
pub fn pending_pins(prefs: &Vec<Preference>) -> (r: Vec<PendingPin>)
    ensures
        pins_view(r@) == following_first(pinned_in(prefs@)),
{
    let mut pins = pinned_by(prefs);
    let ghost all = pins@;
    let mut at: usize = 0;
    while at < pins.len() && !matches!(pins[at], PendingPin::Following)
        invariant
            pins@ == all,
            at <= all.len(),
            following_at(pins_view(all), 0) == following_at(pins_view(all), at as int),
        decreases all.len() - at,
    {
        at += 1;
    }
    if at < pins.len() {
        pins.remove(at);
        assert(pins_view(pins@) =~= pins_view(all).remove(at as int));
    }
    let ghost rest = pins@;
    pins.insert(0, PendingPin::Following);
    assert(pins_view(pins@) =~= seq![None] + pins_view(rest));
    pins
}

/// The addresses among the first `n` pins.
pub open spec fn addresses(pins: Seq<Option<Seq<char>>>, n: int) -> Seq<Seq<char>>
    decreases n,
{
    if n <= 0 {
        Seq::empty()
    } else {
        match pins[n - 1] {
            Some(u) => addresses(pins, n - 1).push(u),
            None => addresses(pins, n - 1),
        }
    }
}

/// The addresses whose names are to be asked for.
pub fn feed_uris(pending: &Vec<PendingPin>) -> (r: Vec<String>)
    ensures
        texts(r@) == addresses(pins_view(pending@), pending@.len() as int),
{
    let mut r: Vec<String> = Vec::new();
    let mut i: usize = 0;
    assert(texts(r@) =~= Seq::empty());
    while i < pending.len()
        invariant
            i <= pending@.len(),
            texts(r@) == addresses(pins_view(pending@), i as int),
        decreases pending@.len() - i,
    {
        if let PendingPin::Feed(u) = &pending[i] {
            let ghost before = r@;
            r.push(u.clone());
            assert(texts(r@) =~= texts(before).push(u@));
        }
        i += 1;
    }
    r
}

/// The last of the first `n` feeds that has this address.
pub open spec fn feed_named(feeds: Seq<GeneratorView>, uri: Seq<char>, n: int) -> Option<
    GeneratorView,
>
    decreases n,
{
    if n <= 0 {
        None
    } else if feeds[n - 1].uri@ == uri {
        Some(feeds[n - 1])
    } else {
        feed_named(feeds, uri, n - 1)
    }
}

/// Whether a pin is shown as it should be: the home timeline under its name;
/// another feed under its own name and picture, or under the end of its
/// address where nothing is known of it.
pub open spec fn is_pin(p: SavedFeedPin, pin: Option<Seq<char>>, feeds: Seq<GeneratorView>) -> bool {
    match pin {
        None => {
            &&& p.source@ == FeedSourceV::Following
            &&& p.display_name@ == "Following"@
            &&& p.avatar_url is None
        },
        Some(u) => {
            &&& p.source@ == FeedSourceV::Feed(u)
            &&& match feed_named(feeds, u, feeds.len() as int) {
                Some(f) => p.display_name@ == f.display_name@ && p.avatar_url == f.avatar,
                None => p.display_name@ == after_last(u, '/') && p.avatar_url is None,
            }
        },
    }
}

fn find_feed(feeds: &Vec<GeneratorView>, uri: &str) -> (r: Option<usize>)
    ensures
        match r {
            Some(k) => k < feeds@.len() && feed_named(feeds@, uri@, feeds@.len() as int) == Some(
                feeds@[k as int],
            ),
            None => feed_named(feeds@, uri@, feeds@.len() as int) is None,
        },
{
    let mut n: usize = feeds.len();
    while n > 0
        invariant
            n <= feeds@.len(),
            feed_named(feeds@, uri@, feeds@.len() as int) == feed_named(feeds@, uri@, n as int),
        decreases n,
    {
        if same_text(feeds[n - 1].uri.as_str(), uri) {
            return Some(n - 1);
        }
        n -= 1;
    }
    None
}

/// The pins with their names and pictures. `feeds` is what is known of the
/// feeds; it is empty where asking for them failed.
pub fn materialize(pending: Vec<PendingPin>, feeds: &Vec<GeneratorView>) -> (r: SavedFeedsBatch)
    ensures
        r.pins@.len() == pending@.len(),
        forall|i: int|
            0 <= i < pending@.len() ==> is_pin(
                #[trigger] r.pins@[i],
                pin_view(pending@[i]),
                feeds@,
            ),
{
    let mut pins: Vec<SavedFeedPin> = Vec::new();
    let mut i: usize = 0;
    while i < pending.len()
        invariant
            i <= pending@.len(),
            pins@.len() == i,
            forall|k: int|
                0 <= k < i ==> is_pin(#[trigger] pins@[k], pin_view(pending@[k]), feeds@),
        decreases pending@.len() - i,
    {
        let pin = match &pending[i] {
            PendingPin::Following => SavedFeedPin {
                source: FeedSource::Following,
                display_name: owned("Following"),
                avatar_url: None,
            },
            PendingPin::Feed(u) => {
                let (display_name, avatar_url) = match find_feed(feeds, u.as_str()) {
                    Some(k) => (feeds[k].display_name.clone(), clone_text(&feeds[k].avatar)),
                    None => (tail_after(u.as_str(), '/'), None),
                };
                SavedFeedPin { source: FeedSource::Feed(u.clone()), display_name, avatar_url }
            },
        };
        pins.push(pin);
        i += 1;
    }
    SavedFeedsBatch { pins }
}

/// What is known of the feeds: nothing where asking for them failed.
pub open spec fn known_feeds(feeds: Result<Vec<GeneratorView>, String>) -> Seq<GeneratorView> {
    match feeds {
        Ok(f) => f@,
        Err(_) => Seq::empty(),
    }
}

/// The answer holds the pins of the preferences, the home timeline first, each
/// under the name that is known of it; it fails where the preferences are not
/// to be had.
pub open spec fn pins_told(
    prefs: Result<Vec<Preference>, String>,
    feeds: Result<Vec<GeneratorView>, String>,
    r: WorkResponse,
) -> bool {
    match prefs {
        Err(e) => r == WorkResponse::SavedFeeds(Err(e)),
        Ok(prefs) => r matches WorkResponse::SavedFeeds(Ok(b)) && {
            let pins = following_first(pinned_in(prefs@));
            &&& b.pins@.len() == pins.len()
            &&& forall|i: int|
                0 <= i < pins.len() ==> is_pin(
                    #[trigger] b.pins@[i],
                    pins[i],
                    known_feeds(feeds),
                )
        },
    }
}

/// The answer to a request for the pinned feeds. `prefs` is what became of
/// asking for the preferences, `feeds` of asking for the feeds; without the
/// latter the pins are still shown.
pub fn saved_feeds_answer(
    prefs: Result<Vec<Preference>, String>,
    feeds: Result<Vec<GeneratorView>, String>,
) -> (r: WorkResponse)
    ensures
        pins_told(prefs, feeds, r),
{
    match prefs {
        Err(e) => WorkResponse::SavedFeeds(Err(e)),
        Ok(prefs) => {
            let pending = pending_pins(&prefs);
            let ghost view = pins_view(pending@);
            let feeds = match feeds {
                Ok(f) => f,
                Err(_) => Vec::new(),
            };
            let ghost pins = pending@;
            let batch = materialize(pending, &feeds);
            assert forall|i: int| 0 <= i < view.len() implies is_pin(
                #[trigger] batch.pins@[i],
                view[i],
                feeds@,
            ) by {
                assert(view[i] == pin_view(pins[i]));
            }
            assert(feeds@.len() == 0 ==> feeds@ =~= Seq::empty());
            WorkResponse::SavedFeeds(Ok(batch))
        },
    }
}

// ── Laws ───────────────────────────────────────────────────────────────

/// The home timeline is always the first pin, whatever the preferences hold.
pub proof fn lemma_following_leads(prefs: Seq<Preference>)
    ensures
        following_first(pinned_in(prefs)).len() > 0,
        following_first(pinned_in(prefs))[0] is None,
{
}

proof fn lemma_following_at(pins: Seq<Option<Seq<char>>>, from: int)
    requires
        0 <= from <= pins.len(),
    ensures
        from <= following_at(pins, from) <= pins.len(),
        following_at(pins, from) < pins.len() ==> pins[following_at(pins, from)] is None,
        forall|k: int| from <= k < following_at(pins, from) ==> #[trigger] pins[k] is Some,
    decreases pins.len() - from,
{
    if from < pins.len() && pins[from] is Some {
        lemma_following_at(pins, from + 1);
    }
}

/// Every feed that is pinned is shown, in the order of the pins.
pub proof fn lemma_pins_kept(pins: Seq<Option<Seq<char>>>)
    ensures
        addresses(following_first(pins), following_first(pins).len() as int) == addresses(
            pins,
            pins.len() as int,
        ),
{
    let at = following_at(pins, 0);
    lemma_following_at(pins, 0);
    let shown = following_first(pins);
    let rest = if at < pins.len() {
        pins.remove(at)
    } else {
        pins
    };
    assert(shown =~= seq![None] + rest);
    lemma_addresses_shift(rest, rest.len() as int);
    if at < pins.len() {
        lemma_addresses_skip(pins, at, rest.len() as int);
    }
}

proof fn lemma_addresses_shift(rest: Seq<Option<Seq<char>>>, n: int)
    requires
        0 <= n <= rest.len(),
    ensures
        addresses(seq![None] + rest, n + 1) == addresses(rest, n),
    decreases n,
{
    reveal_with_fuel(addresses, 2);
    if n > 0 {
        lemma_addresses_shift(rest, n - 1);
        assert((seq![None] + rest)[n] == rest[n - 1]);
    } else {
        assert((seq![None::<Seq<char>>] + rest)[0] is None);
    }
}

proof fn lemma_addresses_skip(pins: Seq<Option<Seq<char>>>, at: int, n: int)
    requires
        0 <= at < pins.len(),
        pins[at] is None,
        0 <= n < pins.len(),
    ensures
        n < at ==> addresses(pins.remove(at), n) == addresses(pins, n),
        n >= at ==> addresses(pins.remove(at), n) == addresses(pins, n + 1),
    decreases n,
{
    let rest = pins.remove(at);
    if n > 0 {
        lemma_addresses_skip(pins, at, n - 1);
        if n - 1 < at {
            assert(rest[n - 1] == pins[n - 1]);
        } else {
            assert(rest[n - 1] == pins[n]);
        }
        if n == at {
            assert(addresses(pins, n + 1) == addresses(pins, n));
        }
    } else if n == at {
        assert(addresses(pins, 1) == addresses(pins, 0));
    }
}

proof fn lemma_item_place(items: Seq<SavedItem>, i: int, n: int)
    requires
        0 <= i < n <= items.len(),
        items[i].pinned,
        items[i].kind@ == "feed"@,
    ensures
        pinned_items(items, i).len() < pinned_items(items, n).len(),
        pinned_items(items, n)[pinned_items(items, i).len() as int] == Some(items[i].value@),
    decreases n,
{
    reveal_strlit("timeline");
    reveal_strlit("feed");
    assert("timeline"@.len() != "feed"@.len());
    if i < n - 1 {
        lemma_item_place(items, i, n - 1);
    }
}

proof fn lemma_pin_has_item(items: Seq<SavedItem>, n: int, p: int)
    requires
        0 <= n <= items.len(),
        0 <= p < pinned_items(items, n).len(),
        pinned_items(items, n)[p] is Some,
    ensures
        exists|i: int|
            0 <= i < n && #[trigger] items[i].pinned && items[i].kind@ == "feed"@
                && pinned_items(items, n)[p] == Some(items[i].value@),
    decreases n,
{
    if n > 0 {
        let before = pinned_items(items, n - 1);
        if p < before.len() {
            lemma_pin_has_item(items, n - 1, p);
            let i = choose|i: int|
                0 <= i < n - 1 && #[trigger] items[i].pinned && items[i].kind@ == "feed"@
                    && before[p] == Some(items[i].value@);
            assert(items[i].pinned);
        } else {
            assert(items[n - 1].pinned);
        }
    }
}

proof fn lemma_v2_found(prefs: Seq<Preference>, from: int, k: int)
    requires
        0 <= from <= k < prefs.len(),
        prefs[k] is SavedFeedsV2,
        forall|j: int| from <= j < k ==> !(#[trigger] prefs[j] is SavedFeedsV2),
    ensures
        v2_from(prefs, from) == Some((prefs[k]->SavedFeedsV2_0)@),
    decreases k - from,
{
    if from < k {
        assert(!(prefs[from] is SavedFeedsV2));
        lemma_v2_found(prefs, from + 1, k);
    }
}

proof fn lemma_v2_missing(prefs: Seq<Preference>, from: int)
    requires
        0 <= from <= prefs.len(),
        forall|j: int| from <= j < prefs.len() ==> !(#[trigger] prefs[j] is SavedFeedsV2),
    ensures
        v2_from(prefs, from) is None,
    decreases prefs.len() - from,
{
    if from < prefs.len() {
        assert(!(prefs[from] is SavedFeedsV2));
        lemma_v2_missing(prefs, from + 1);
    }
}

proof fn lemma_v1_found(prefs: Seq<Preference>, k: int, n: int)
    requires
        0 <= k < n <= prefs.len(),
        prefs[k] is SavedFeedsV1,
        forall|j: int| k < j < n ==> !(#[trigger] prefs[j] is SavedFeedsV1),
    ensures
        v1_before(prefs, n) == Some((prefs[k]->SavedFeedsV1_0)@),
    decreases n,
{
    if k < n - 1 {
        assert(!(prefs[n - 1] is SavedFeedsV1));
        lemma_v1_found(prefs, k, n - 1);
    }
}

/// Where a pin stands among the shown ones.
pub open spec fn shown_at(pins: Seq<Option<Seq<char>>>, q: int) -> int {
    if q > following_at(pins, 0) {
        q
    } else {
        q + 1
    }
}

proof fn lemma_shown_at(pins: Seq<Option<Seq<char>>>, q: int)
    requires
        0 <= q < pins.len(),
        pins[q] is Some,
    ensures
        0 < shown_at(pins, q) < following_first(pins).len(),
        following_first(pins)[shown_at(pins, q)] == pins[q],
{
    lemma_following_at(pins, 0);
}

/// Of two pinned feeds, in the newest form of the preferences, both are shown,
/// the one that was pinned first ahead of the other.
pub proof fn lemma_pinned_feeds_shown(
    prefs: Vec<Preference>,
    feeds: Result<Vec<GeneratorView>, String>,
    r: WorkResponse,
    k: int,
    items: Vec<SavedItem>,
    i: int,
    j: int,
)
    requires
        pins_told(Ok(prefs), feeds, r),
        0 <= k < prefs@.len(),
        prefs@[k] == Preference::SavedFeedsV2(items),
        forall|n: int| 0 <= n < k ==> !(#[trigger] prefs@[n] is SavedFeedsV2),
        0 <= i <= j < items@.len(),
        items@[i].pinned && items@[i].kind@ == "feed"@,
        items@[j].pinned && items@[j].kind@ == "feed"@,
    ensures
        r matches WorkResponse::SavedFeeds(Ok(b)) && exists|p: int, q: int|
            0 < p <= q < b.pins@.len() && (i < j ==> p < q) && (#[trigger] b.pins@[p]).source@
                == FeedSourceV::Feed(items@[i].value@) && (#[trigger] b.pins@[q]).source@
                == FeedSourceV::Feed(items@[j].value@),
{
    lemma_v2_found(prefs@, 0, k);
    let n = items@.len() as int;
    let pins = pinned_items(items@, n);
    lemma_item_place(items@, i, n);
    lemma_item_place(items@, j, n);
    let a = pinned_items(items@, i).len() as int;
    let c = pinned_items(items@, j).len() as int;
    if i < j {
        lemma_item_place(items@, i, j);
    }
    lemma_shown_at(pins, a);
    lemma_shown_at(pins, c);
    let p = shown_at(pins, a);
    let q = shown_at(pins, c);
    lemma_following_at(pins, 0);
    let b = r->SavedFeeds_0->Ok_0;
    assert(is_pin(b.pins@[p], following_first(pins)[p], known_feeds(feeds)));
    assert(is_pin(b.pins@[q], following_first(pins)[q], known_feeds(feeds)));
}

/// Nothing is shown but the home timeline and what was pinned as a feed.
pub proof fn lemma_only_pinned_feeds_shown(
    prefs: Vec<Preference>,
    feeds: Result<Vec<GeneratorView>, String>,
    r: WorkResponse,
    k: int,
    items: Vec<SavedItem>,
    p: int,
)
    requires
        pins_told(Ok(prefs), feeds, r),
        0 <= k < prefs@.len(),
        prefs@[k] == Preference::SavedFeedsV2(items),
        forall|n: int| 0 <= n < k ==> !(#[trigger] prefs@[n] is SavedFeedsV2),
    ensures
        r matches WorkResponse::SavedFeeds(Ok(b)) && (0 <= p < b.pins@.len() ==> match b.pins@[p].source@ {
            FeedSourceV::Feed(u) => exists|i: int|
                0 <= i < items@.len() && #[trigger] items@[i].pinned && items@[i].kind@ == "feed"@
                    && items@[i].value@ == u,
            other => other == FeedSourceV::Following && b.pins@[p].display_name@ == "Following"@,
        }),
{
    lemma_v2_found(prefs@, 0, k);
    let pins = pinned_items(items@, items@.len() as int);
    let b = r->SavedFeeds_0->Ok_0;
    lemma_following_at(pins, 0);
    if 0 <= p < b.pins@.len() {
        let shown = following_first(pins);
        assert(is_pin(b.pins@[p], shown[p], known_feeds(feeds)));
        if shown[p] is Some {
            let at = following_at(pins, 0);
            let q = if p > at {
                p
            } else {
                p - 1
            };
            assert(shown[p] == pins[q]);
            lemma_pin_has_item(items@, items@.len() as int, q);
        }
    }
}

/// The first form of the preferences pins feeds by their addresses. It counts
/// only where the newest form is missing, and the last such preference does.
pub proof fn lemma_older_pins_shown(
    prefs: Vec<Preference>,
    feeds: Result<Vec<GeneratorView>, String>,
    r: WorkResponse,
    k: int,
    pinned: Vec<String>,
    i: int,
)
    requires
        pins_told(Ok(prefs), feeds, r),
        0 <= k < prefs@.len(),
        prefs@[k] == Preference::SavedFeedsV1(pinned),
        forall|n: int| 0 <= n < prefs@.len() ==> !(#[trigger] prefs@[n] is SavedFeedsV2),
        forall|n: int| k < n < prefs@.len() ==> !(#[trigger] prefs@[n] is SavedFeedsV1),
        0 <= i < pinned@.len(),
    ensures
        r matches WorkResponse::SavedFeeds(Ok(b)) && b.pins@.len() == pinned@.len() + 1
            && b.pins@[i + 1].source@ == FeedSourceV::Feed(pinned@[i]@),
{
    lemma_v2_missing(prefs@, 0);
    lemma_v1_found(prefs@, k, prefs@.len() as int);
    let pins = pinned_in(prefs@);
    lemma_following_at(pins, 0);
    assert(following_at(pins, 0) == pins.len()) by {
        if following_at(pins, 0) < pins.len() {
            assert(pins[following_at(pins, 0)] is Some);
        }
    }
    let b = r->SavedFeeds_0->Ok_0;
    assert(is_pin(b.pins@[i + 1], following_first(pins)[i + 1], known_feeds(feeds)));
    assert(following_first(pins)[i + 1] == pins[i]);
}

proof fn lemma_feed_named(feeds: Seq<GeneratorView>, uri: Seq<char>, n: int)
    requires
        0 <= n <= feeds.len(),
    ensures
        match feed_named(feeds, uri, n) {
            Some(f) => exists|i: int| 0 <= i < n && #[trigger] feeds[i] == f && f.uri@ == uri,
            None => forall|i: int| 0 <= i < n ==> (#[trigger] feeds[i]).uri@ != uri,
        },
    decreases n,
{
    if n > 0 {
        lemma_feed_named(feeds, uri, n - 1);
    }
}

/// Every answer begins with the home timeline. A feed goes under the name and
/// picture that were told for its own address, and under the last part of the
/// address where none was told.
pub proof fn lemma_pins_named(
    prefs: Vec<Preference>,
    feeds: Result<Vec<GeneratorView>, String>,
    r: WorkResponse,
    p: int,
)
    requires
        pins_told(Ok(prefs), feeds, r),
    ensures
        r matches WorkResponse::SavedFeeds(Ok(b)) && {
            &&& b.pins@.len() > 0
            &&& b.pins@[0].source@ == FeedSourceV::Following
            &&& b.pins@[0].display_name@ == "Following"@
            &&& 0 <= p < b.pins@.len() ==> match b.pins@[p].source@ {
                FeedSourceV::Feed(u) => {
                    ||| feeds matches Ok(fs) && exists|i: int|
                        0 <= i < fs@.len() && (#[trigger] fs@[i]).uri@ == u
                            && b.pins@[p].display_name@ == fs@[i].display_name@
                            && b.pins@[p].avatar_url == fs@[i].avatar
                    ||| {
                        &&& feeds matches Ok(fs) ==> forall|i: int|
                            0 <= i < fs@.len() ==> (#[trigger] fs@[i]).uri@ != u
                        &&& b.pins@[p].display_name@ == after_last(u, '/')
                        &&& b.pins@[p].avatar_url is None
                    }
                },
                _ => b.pins@[p].display_name@ == "Following"@ && b.pins@[p].avatar_url is None,
            }
        },
{
    let pins = pinned_in(prefs@);
    let b = r->SavedFeeds_0->Ok_0;
    let shown = following_first(pins);
    assert(is_pin(b.pins@[0], shown[0], known_feeds(feeds)));
    if 0 <= p < b.pins@.len() {
        assert(is_pin(b.pins@[p], shown[p], known_feeds(feeds)));
        if shown[p] is Some {
            let known = known_feeds(feeds);
            lemma_feed_named(known, shown[p]->0, known.len() as int);
        }
    }
}

/// Pins that could not be read are told as such, in the words that came.
pub proof fn lemma_pins_fail(
    e: String,
    feeds: Result<Vec<GeneratorView>, String>,
    r: WorkResponse,
)
    requires
        pins_told(Err(e), feeds, r),
    ensures
        r == WorkResponse::SavedFeeds(Err(e)),
{
}

proof fn lemma_addresses_in(pins: Seq<Option<Seq<char>>>, n: int, u: Seq<char>)
    requires
        0 <= n <= pins.len(),
    ensures
        addresses(pins, n).contains(u) <==> exists|i: int|
            0 <= i < n && #[trigger] pins[i] == Some(u),
    decreases n,
{
    if n > 0 {
        lemma_addresses_in(pins, n - 1, u);
        let before = addresses(pins, n - 1);
        match pins[n - 1] {
            Some(w) => {
                let all = before.push(w);
                if before.contains(u) {
                    let i = choose|i: int| 0 <= i < before.len() && before[i] == u;
                    assert(all[i] == u);
                }
                if w == u {
                    assert(all[before.len() as int] == u);
                }
            },
            None => {},
        }
    }
}

/// The names of just the pinned feeds are asked for, one address for each.
pub proof fn lemma_names_asked_for_pins(pins: Seq<Option<Seq<char>>>, u: Seq<char>)
    ensures
        addresses(pins, pins.len() as int).contains(u) <==> pins.contains(Some(u)),
        addresses(pins, pins.len() as int).len() <= pins.len(),
{
    lemma_addresses_in(pins, pins.len() as int, u);
    lemma_addresses_few(pins, pins.len() as int);
}

proof fn lemma_addresses_few(pins: Seq<Option<Seq<char>>>, n: int)
    requires
        0 <= n <= pins.len(),
    ensures
        addresses(pins, n).len() <= n,
    decreases n,
{
    if n > 0 {
        lemma_addresses_few(pins, n - 1);
    }
}

} // verus!
