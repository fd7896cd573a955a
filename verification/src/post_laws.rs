//! What a post shows and what a tap on it opens; the words, numbers and pictures
//! that it is made of.

use vstd::prelude::*;

#[allow(unused_imports)]
use crate::cdn::{jpeg_url, thumbnail_url};
#[allow(unused_imports)]
use crate::embeds::{
    cell_rect, cells_shown, embed_quote, embed_span, embed_urls, embed_video, fitted, grid_height,
    host_part, is_first_at, next_pos,
};
#[allow(unused_imports)]
use crate::model::{
    EmbedView, FeedPost, FeedReason, ImageView, MediaView, QuotedPost, RecordView, ReplyParent,
};
#[allow(unused_imports)]
use crate::post_list::{first_tapped, post_urls, PostList};
#[allow(unused_imports)]
use crate::post_row::{
    author_zone, body_zone, context_height, context_label, counts_are, embed_zone,
    first_image_touched, image_zone, images_shown, initial_of, likes_zone, quote_of, quoted_record,
    reposts_zone, row_height, tap_is, zone_hit, CountLabel, TapAction, TapZone, TextHeights,
};
#[allow(unused_imports)]
use crate::rows::{in_band, row_top};
#[allow(unused_imports)]
use crate::text::{
    decimal, decimal_int, has_prefix, has_suffix, is_space, occurs_at, trimmed, trimmed_end,
    trimmed_start,
};
#[allow(unused_imports)]
use crate::widget::{inside, touched, TouchPoint};

verus! {

// ── Words ──────────────────────────────────────────────────────────────

/// A repost says who reposted it; a reply to somebody else says to whom; every
/// other post says nothing above it.
pub proof fn lemma_why_in_feed(p: FeedPost)
    ensures
        context_label(p, false) is None,
        p.reason matches Some(FeedReason::Repost { by }) ==> {
            &&& by.display_name matches Some(n) ==> n@.len() > 0 ==> context_label(p, true) == Some(
                "Reposted by "@ + n@,
            )
            &&& by.display_name is None ==> context_label(p, true) == Some(
                "Reposted by "@ + ("@"@ + by.handle@),
            )
        },
        !(p.reason matches Some(FeedReason::Repost { .. })) ==> {
            &&& p.reply matches Some(ReplyParent::Post { author }) ==> author.did@
                != p.post.author.did@ ==> context_label(p, true) == Some(
                "Reply to @"@ + author.handle@,
            )
            &&& p.reply matches Some(ReplyParent::Post { author }) ==> author.did@
                == p.post.author.did@ ==> context_label(p, true) is None
            &&& !(p.reply matches Some(ReplyParent::Post { .. })) ==> context_label(p, true) is None
        },
        context_label(p, true) is Some ==> context_height(p, true) == 22,
        context_label(p, true) is None ==> context_height(p, true) == 0,
        context_height(p, false) == 0,
{
}

/// Each counter stands before its own word, one that is not known as 0, and a
/// counter is the reader's own exactly where they are part of it.
pub proof fn lemma_counters(p: FeedPost, r: (CountLabel, CountLabel, CountLabel))
    requires
        counts_are(p, r),
    ensures
        p.post.like_count matches Some(n) ==> r.0.text@ == decimal_int(n as int) + " likes"@,
        p.post.like_count is None ==> r.0.text@ == decimal_int(0) + " likes"@,
        p.post.repost_count matches Some(n) ==> r.1.text@ == decimal_int(n as int) + " reposts"@,
        p.post.repost_count is None ==> r.1.text@ == decimal_int(0) + " reposts"@,
        p.post.reply_count matches Some(n) ==> r.2.text@ == decimal_int(n as int) + " replies"@,
        p.post.reply_count is None ==> r.2.text@ == decimal_int(0) + " replies"@,
        p.post.viewer is None ==> !r.0.own && !r.1.own,
        p.post.viewer matches Some(v) ==> (r.0.own <==> v.like is Some) && (r.1.own
            <==> v.repost is Some),
        !r.2.own,
{
}

/// The text of a quote is that of the post that is quoted, with media beside it
/// or without; there is none where nothing is quoted.
pub proof fn lemma_quote_text(e: Option<EmbedView>, q: QuotedPost)
    ensures
        e == Some(EmbedView::Record(RecordView::Post(q))) ==> quoted_record(e) == Some(q.record)
            && embed_quote(e) == Some(q.uri),
        e matches Some(EmbedView::RecordWithMedia { record, .. }) ==> record == RecordView::Post(q)
            ==> quoted_record(e) == Some(q.record) && embed_quote(e) == Some(q.uri),
        e is None ==> quoted_record(e) is None && embed_quote(e) is None,
        e matches Some(v) ==> v is Images || v is External || v is Video || v is Unknown
            ==> quoted_record(e) is None && embed_quote(e) is None,
        quoted_record(e) is None <==> quote_of(e) is None,
{
}

/// The letter in place of a picture is the first of the name, as a capital.
pub proof fn lemma_initial(name: Seq<char>)
    ensures
        name.len() == 0 ==> initial_of(name) == '?',
        name.len() > 0 && !('a' <= name[0] <= 'z') ==> initial_of(name) == name[0],
        name.len() > 0 && name[0] == 'a' ==> initial_of(name) == 'A',
        name.len() > 0 && name[0] == 'z' ==> initial_of(name) == 'Z',
        name.len() > 0 && 'a' <= name[0] <= 'z' ==> initial_of(name) as u32 + 32 == name[0] as u32,
{
}

/// The value of decimal digits.
pub open spec fn value_of(s: Seq<char>) -> int
    decreases s.len(),
{
    if s.len() == 0 {
        0
    } else {
        value_of(s.drop_last()) * 10 + (s.last() as int - 48)
    }
}

/// A number is written with digits alone and reads back as that number, without
/// a leading zero.
pub proof fn lemma_number_reads_back(n: nat)
    ensures
        value_of(decimal(n)) == n,
        decimal(n).len() > 0,
        forall|i: int| 0 <= i < decimal(n).len() ==> '0' <= #[trigger] decimal(n)[i] <= '9',
        n > 0 ==> decimal(n)[0] != '0',
        n == 0 ==> decimal(n) == seq!['0'],
    decreases n,
{
    if n < 10 {
        let s = decimal(n);
        assert(s.drop_last() =~= Seq::<char>::empty());
        assert(value_of(s.drop_last()) == 0);
        assert(s.last() as int == 48 + n);
    } else {
        lemma_number_reads_back(n / 10);
        let s = decimal(n);
        assert(s.drop_last() =~= decimal(n / 10));
        assert(s.last() as int == 48 + n % 10);
        assert(n == (n / 10) * 10 + n % 10) by (nonlinear_arith);
        assert forall|i: int| 0 <= i < s.len() implies '0' <= #[trigger] s[i] <= '9' by {
            if i < s.len() - 1 {
                assert(s[i] == decimal(n / 10)[i]);
            }
        }
        assert(s[0] == decimal(n / 10)[0]);
    }
}

/// A negative number is written with its sign.
pub proof fn lemma_sign(n: int)
    ensures
        n >= 0 ==> decimal_int(n) == decimal(n as nat),
        n < 0 ==> decimal_int(n) == seq!['-'] + decimal((-n) as nat),
{
}

proof fn lemma_trimmed_end(s: Seq<char>, keep: int)
    requires
        0 <= keep <= s.len(),
    ensures
        0 <= trimmed_end(s, keep) <= keep,
        trimmed_end(s, keep) > 0 ==> !is_space(s[trimmed_end(s, keep) - 1]),
        forall|i: int| trimmed_end(s, keep) <= i < keep ==> is_space(#[trigger] s[i]),
    decreases keep,
{
    if keep > 0 && is_space(s[keep - 1]) {
        lemma_trimmed_end(s, keep - 1);
    }
}

proof fn lemma_trimmed_start(s: Seq<char>, from: int, to: int)
    requires
        0 <= from <= to <= s.len(),
    ensures
        from <= trimmed_start(s, from, to) <= to,
        trimmed_start(s, from, to) < to ==> !is_space(s[trimmed_start(s, from, to)]),
        forall|i: int| from <= i < trimmed_start(s, from, to) ==> is_space(#[trigger] s[i]),
    decreases to - from,
{
    if from < to && is_space(s[from]) {
        lemma_trimmed_start(s, from + 1, to);
    }
}

/// Trimming takes white space from both ends and nothing else: what is left
/// begins and ends otherwise, and what was taken was white space.
pub proof fn lemma_trimming(s: Seq<char>) -> (cut: (int, int))
    ensures
        0 <= cut.0 <= cut.1 <= s.len(),
        trimmed(s) == s.subrange(cut.0, cut.1),
        forall|i: int| 0 <= i < cut.0 ==> is_space(#[trigger] s[i]),
        forall|i: int| cut.1 <= i < s.len() ==> is_space(#[trigger] s[i]),
        trimmed(s).len() > 0 ==> !is_space(trimmed(s)[0]) && !is_space(trimmed(s).last()),
{
    let to = trimmed_end(s, s.len() as int);
    lemma_trimmed_end(s, s.len() as int);
    let from = trimmed_start(s, 0, to);
    lemma_trimmed_start(s, 0, to);
    (from, to)
}

proof fn lemma_next_pos(s: Seq<char>, c: char, from: int)
    requires
        0 <= from <= s.len(),
    ensures
        from <= next_pos(s, c, from) <= s.len(),
        next_pos(s, c, from) < s.len() ==> s[next_pos(s, c, from)] == c,
        forall|i: int| from <= i < next_pos(s, c, from) ==> #[trigger] s[i] != c,
    decreases s.len() - from,
{
    if from < s.len() && s[from] != c {
        lemma_next_pos(s, c, from + 1);
    }
}

/// The host of a link is what stands between its scheme and the next slash.
pub proof fn lemma_host_of_link(scheme: Seq<char>, host: Seq<char>, rest: Seq<char>)
    requires
        forall|i: int| 0 <= i < scheme.len() ==> #[trigger] scheme[i] != ':',
        forall|i: int| 0 <= i < host.len() ==> #[trigger] host[i] != '/',
        rest.len() > 0 ==> rest[0] == '/',
    ensures
        ({
            let uri = scheme + "://"@ + host + rest;
            let i = Some(scheme.len() as int);
            is_first_at(uri, "://"@, i) && host_part(uri, i) == host
        }),
{
    reveal_strlit("://");
    let uri = scheme + "://"@ + host + rest;
    let k = scheme.len() as int;
    assert(uri.subrange(k, k + 3) =~= "://"@);
    assert forall|j: int| 0 <= j < k implies !#[trigger] occurs_at(uri, "://"@, j) by {
        assert(uri[j] == scheme[j]);
        if occurs_at(uri, "://"@, j) {
            assert(uri.subrange(j, j + 3)[0] == uri[j]);
            assert("://"@[0] == ':');
        }
    }
    lemma_next_pos(uri, '/', k + 3);
    let end = next_pos(uri, '/', k + 3);
    let stop = k + 3 + host.len();
    if end < stop {
        assert(uri[end] == host[end - k - 3]);
    }
    if end > stop {
        assert(uri[stop] == rest[0]);
    }
    assert(uri.subrange(k + 3, end) =~= host);
}

// ── Taps ───────────────────────────────────────────────────────────────

/// What a tap on a post opens is what it hits: the author's profile, the likes
/// and reposts of that very post, its video, the post it quotes, the picture that
/// was hit among those shown, or the post itself.
pub proof fn lemma_tap_opens_what_it_hits(
    r: Option<TapAction>,
    zone: Option<TapZone>,
    p: FeedPost,
    idx: usize,
)
    requires
        tap_is(r, zone, p, idx),
    ensures
        r is None <==> zone is None,
        r matches Some(TapAction::OpenProfile(h)) ==> zone == Some(TapZone::Author) && h
            == p.post.author.handle,
        r matches Some(TapAction::ToggleLike(i)) ==> zone == Some(TapZone::Likes) && i == idx,
        r matches Some(TapAction::ToggleRepost(i)) ==> zone == Some(TapZone::Reposts) && i == idx,
        r matches Some(TapAction::OpenVideo(v)) ==> zone == Some(TapZone::Video) && v.did
            == p.post.author.did && (embed_video(p.post.embed) matches Some(c) ==> v.cid == c),
        r matches Some(TapAction::OpenThread(u)) ==> (zone == Some(TapZone::Body) && u
            == p.post.uri) || (zone == Some(TapZone::Quote) && (embed_quote(p.post.embed) matches
            Some(q) ==> u == q)),
        r matches Some(TapAction::OpenImage { images, index }) ==> (zone matches Some(
            TapZone::Image(i),
        ) && index == i) && images@.len() == images_shown(p.post.embed),
        zone == Some(TapZone::Author) ==> r is Some && r->0 is OpenProfile,
        zone == Some(TapZone::Likes) ==> r is Some && r->0 is ToggleLike,
        zone == Some(TapZone::Reposts) ==> r is Some && r->0 is ToggleRepost,
        zone == Some(TapZone::Video) ==> r is Some && r->0 is OpenVideo,
        zone == Some(TapZone::Quote) || zone == Some(TapZone::Body) ==> r is Some
            && r->0 is OpenThread,
{
}

/// The pictures that open are those of the post, each with its own small and
/// large address and its own description.
pub proof fn lemma_opened_pictures(
    r: Option<TapAction>,
    i: int,
    p: FeedPost,
    idx: usize,
    k: int,
)
    requires
        tap_is(r, Some(TapZone::Image(i)), p, idx),
        0 <= k < images_shown(p.post.embed),
    ensures
        p.post.embed matches Some(EmbedView::Images(v)) && (r matches Some(TapAction::OpenImage {
            images,
            ..
        }) && images@[k].thumb@ == jpeg_url(v@[k].thumb@) && images@[k].fullsize@ == jpeg_url(
            v@[k].fullsize@,
        ) && images@[k].alt == v@[k].alt),
{
    match r {
        Some(TapAction::OpenImage { images, .. }) => {
            assert(images@[k].alt == images@[k].alt);
        },
        _ => {},
    }
}

proof fn lemma_first_image(
    e: Option<EmbedView>,
    content_y: int,
    body_h: int,
    touches: Seq<TouchPoint>,
    from: int,
    k: int,
)
    requires
        0 <= from <= images_shown(e),
    ensures
        from <= first_image_touched(e, content_y, body_h, touches, from) <= images_shown(e),
        first_image_touched(e, content_y, body_h, touches, from) < images_shown(e) ==> touched(
            touches,
            image_zone(
                e,
                first_image_touched(e, content_y, body_h, touches, from),
                content_y,
                body_h,
            ),
        ),
        from <= k < first_image_touched(e, content_y, body_h, touches, from) ==> !touched(
            touches,
            image_zone(e, k, content_y, body_h),
        ),
    decreases images_shown(e) - from,
{
    if from < images_shown(e) && !touched(touches, image_zone(e, from, content_y, body_h)) {
        lemma_first_image(e, content_y, body_h, touches, from + 1, k);
    }
}

/// A tap hits what lies under it: the picture of the author at the left, the
/// likes and reposts at the bottom, what is attached below the text, the picture
/// that was touched, and the text itself. A touch outside of a row hits nothing
/// of it.
pub proof fn lemma_zone_is_touched(
    p: FeedPost,
    row_y: int,
    row_h: int,
    touches: Seq<TouchPoint>,
    h: TextHeights,
    show_context: bool,
)
    ensures
        ({
            let zone = zone_hit(p, row_y, row_h, touches, h, show_context);
            let ctx = context_height(p, show_context);
            let y = row_y + ctx;
            let span = embed_span(p.post.embed, y, h.body_h as int, h.quote_h as int);
            &&& zone == Some(TapZone::Author) <==> touched(touches, author_zone(y))
            &&& zone == Some(TapZone::Likes) ==> touched(touches, likes_zone(row_y, row_h))
            &&& touched(touches, likes_zone(row_y, row_h)) && !touched(touches, author_zone(y))
                ==> zone == Some(TapZone::Likes)
            &&& zone == Some(TapZone::Reposts) ==> touched(touches, reposts_zone(row_y, row_h))
            &&& touched(touches, reposts_zone(row_y, row_h)) && !touched(touches, author_zone(y))
                && !touched(touches, likes_zone(row_y, row_h)) ==> zone == Some(TapZone::Reposts)
            &&& zone == Some(TapZone::Video) ==> embed_video(p.post.embed) is Some && span is Some
                && touched(touches, embed_zone(span->0))
            &&& zone == Some(TapZone::Quote) ==> embed_quote(p.post.embed) is Some && span is Some
                && touched(touches, embed_zone(span->0)) && embed_video(p.post.embed) is None
            &&& zone matches Some(TapZone::Image(i)) ==> 0 <= i < images_shown(p.post.embed)
                && touched(touches, image_zone(p.post.embed, i, y, h.body_h as int))
            &&& zone == Some(TapZone::Body) ==> touched(touches, body_zone(y, row_h, ctx))
            &&& zone is None ==> !touched(touches, body_zone(y, row_h, ctx)) && !touched(
                touches,
                author_zone(y),
            ) && !touched(touches, likes_zone(row_y, row_h))
            &&& touches.len() == 0 ==> zone is None
        }),
{
    let y = row_y + context_height(p, show_context);
    lemma_first_image(p.post.embed, y, h.body_h as int, touches, 0, 0);
}

proof fn lemma_first_tapped(
    posts: Seq<FeedPost>,
    rows: Seq<i32>,
    heights: Seq<TextHeights>,
    origin: int,
    band: (int, int),
    touches: Seq<TouchPoint>,
    show_context: bool,
    from: int,
    k: int,
)
    requires
        0 <= from,
    ensures
        first_tapped(posts, rows, heights, origin, band, touches, show_context, from) matches Some(
            i,
        ) ==> from <= i < rows.len() && zone_hit(
            posts[i],
            origin + row_top(rows, i),
            rows[i] as int,
            touches,
            heights[i],
            show_context,
        ) is Some && in_band(origin + row_top(rows, i), rows[i] as int, band.0, band.1),
        first_tapped(posts, rows, heights, origin, band, touches, show_context, from) is None
            && from <= k < rows.len() && in_band(
            origin + row_top(rows, k),
            rows[k] as int,
            band.0,
            band.1,
        ) ==> zone_hit(
            posts[k],
            origin + row_top(rows, k),
            rows[k] as int,
            touches,
            heights[k],
            show_context,
        ) is None,
    decreases rows.len() - from,
{
    if from < rows.len() {
        lemma_first_tapped(
            posts,
            rows,
            heights,
            origin,
            band,
            touches,
            show_context,
            from + 1,
            k,
        );
    }
}

/// A tap on a list of posts is a tap on a post that shows, under that post's own
/// index; where none that shows is hit, nothing is asked for.
pub proof fn lemma_list_tap(
    list: PostList,
    r: Option<TapAction>,
    touches: Seq<TouchPoint>,
    origin: int,
    band: (int, int),
    show_context: bool,
    k: int,
) -> (i: int)
    requires
        list.wf(),
        list.tap_result(r, touches, origin, band, show_context),
    ensures
        r is Some ==> {
            &&& 0 <= i < list.row_heights@.len()
            &&& in_band(
                origin + row_top(list.row_heights@, i),
                list.row_heights@[i] as int,
                band.0,
                band.1,
            )
            &&& tap_is(
                r,
                zone_hit(
                    list.posts@[i],
                    origin + row_top(list.row_heights@, i),
                    list.row_heights@[i] as int,
                    touches,
                    list.text_heights@[i],
                    show_context,
                ),
                list.posts@[i],
                i as usize,
            )
            &&& r matches Some(TapAction::ToggleLike(n)) ==> n == i as usize
            &&& r matches Some(TapAction::OpenProfile(who)) ==> who
                == list.posts@[i].post.author.handle
        },
        r is None && 0 <= k < list.row_heights@.len() && in_band(
            origin + row_top(list.row_heights@, k),
            list.row_heights@[k] as int,
            band.0,
            band.1,
        ) ==> zone_hit(
            list.posts@[k],
            origin + row_top(list.row_heights@, k),
            list.row_heights@[k] as int,
            touches,
            list.text_heights@[k],
            show_context,
        ) is None,
{
    lemma_first_tapped(
        list.posts@,
        list.row_heights@,
        list.text_heights@,
        origin,
        band,
        touches,
        show_context,
        0,
        k,
    );
    match list.row_tapped(touches, origin, band, show_context) {
        Some(i) => i,
        None => 0,
    }
}

/// The parts of a row that can be tapped lie apart where they could be confused:
/// the likes and reposts side by side at its bottom, the author's picture at the
/// left of the text.
pub proof fn lemma_zones_apart(row_y: int, row_h: int, ctx: int, px: int, py: int)
    requires
        -2_000_000_000 <= row_y <= 900,
        96 + ctx <= row_h <= 2_000_000_000,
        0 <= ctx <= 22,
    ensures
        !(inside(likes_zone(row_y, row_h), px, py) && inside(reposts_zone(row_y, row_h), px, py)),
        !(inside(author_zone(row_y + ctx), px, py) && inside(
            body_zone(row_y + ctx, row_h, ctx),
            px,
            py,
        )),
        !(inside(author_zone(row_y + ctx), px, py) && inside(likes_zone(row_y, row_h), px, py)),
        inside(likes_zone(row_y, row_h), px, py) ==> row_y <= py < row_y + row_h && 0 <= px < 280,
        inside(reposts_zone(row_y, row_h), px, py) ==> row_y <= py < row_y + row_h && 280 <= px
            < 560,
        inside(author_zone(row_y + ctx), px, py) ==> row_y <= py < row_y + row_h && 0 <= px < 72,
        inside(body_zone(row_y + ctx, row_h, ctx), px, py) ==> row_y <= py < row_y + row_h && px
            >= 72,
{
}

// ── Pictures ───────────────────────────────────────────────────────────

/// Every picture that a post shows is asked for: its author's, the pictures
/// attached to it, the one beside a link, and that of whom it quotes.
pub proof fn lemma_post_pictures(p: FeedPost, k: int)
    ensures
        p.post.author.avatar matches Some(a) ==> post_urls(p).len() > 0 && post_urls(p)[0]
            == thumbnail_url(a@),
        p.post.embed matches Some(EmbedView::Images(v)) ==> 0 <= k < v@.len() ==> post_urls(
            p,
        ).contains(jpeg_url(v@[k].thumb@)),
        p.post.embed matches Some(EmbedView::External(x)) ==> x.thumb matches Some(t) ==> post_urls(
            p,
        ).contains(jpeg_url(t@)),
        p.post.embed matches Some(EmbedView::Record(RecordView::Post(q))) ==> q.author.avatar
            matches Some(a) ==> post_urls(p).contains(thumbnail_url(a@)),
        p.post.embed matches Some(EmbedView::RecordWithMedia { record: RecordView::Post(q), .. })
            ==> q.author.avatar matches Some(a) ==> post_urls(p).contains(thumbnail_url(a@)),
        p.post.embed matches Some(EmbedView::RecordWithMedia { media: MediaView::Images(v), .. })
            ==> 0 <= k < v@.len() ==> post_urls(p).contains(jpeg_url(v@[k].thumb@)),
        p.post.embed is None && p.post.author.avatar is None ==> post_urls(p).len() == 0,
{
    let own: Seq<Seq<char>> = match p.post.author.avatar {
        Some(a) => seq![thumbnail_url(a@)],
        None => Seq::empty(),
    };
    let n = own.len() as int;
    assert(post_urls(p) =~= own + embed_urls(p.post.embed));
    match p.post.embed {
        Some(EmbedView::Images(v)) => {
            if 0 <= k < v@.len() {
                assert(post_urls(p)[n + k] == jpeg_url(v@[k].thumb@));
            }
        },
        Some(EmbedView::External(x)) => {
            if x.thumb is Some {
                assert(post_urls(p)[n] == jpeg_url(x.thumb->0@));
            }
        },
        Some(EmbedView::Record(RecordView::Post(q))) => {
            if q.author.avatar is Some {
                assert(post_urls(p)[n] == thumbnail_url(q.author.avatar->0@));
            }
        },
        Some(EmbedView::RecordWithMedia { record, media }) => {
            let m = crate::embeds::media_urls(media);
            if let MediaView::Images(v) = media {
                if 0 <= k < v@.len() {
                    assert(m[k] == jpeg_url(v@[k].thumb@));
                    assert(post_urls(p)[n + k] == m[k]);
                }
            }
            if let RecordView::Post(q) = record {
                if q.author.avatar is Some {
                    assert(post_urls(p)[n + m.len()] == thumbnail_url(q.author.avatar->0@));
                }
            }
        },
        _ => {},
    }
}

/// The video of a post is the one attached to it, beside a quote or alone, and no
/// other attachment counts as one.
pub proof fn lemma_video_of_post(e: Option<EmbedView>)
    ensures
        e matches Some(EmbedView::Video { cid }) ==> embed_video(e) == Some(cid),
        e matches Some(EmbedView::RecordWithMedia { media: MediaView::Video { cid }, .. })
            ==> embed_video(e) == Some(cid),
        e is None ==> embed_video(e) is None,
        e matches Some(v) ==> v is Images || v is External || v is Record || v is Unknown
            ==> embed_video(e) is None,
{
}

/// An address that selects a format which cannot be shown selects JPEG instead;
/// one that selects none gets JPEG; JPEG and PNG stay.
pub proof fn lemma_format_selected(base: Seq<char>)
    ensures
        jpeg_url(base + "@jpeg"@) == base + "@jpeg"@,
        jpeg_url(base + "@png"@) == base + "@png"@,
        jpeg_url(base + "@webp"@) == base + "@jpeg"@,
        jpeg_url(base + "@avif"@) == base + "@jpeg"@,
        !has_suffix(base, "@jpeg"@) && !has_suffix(base, "@png"@) && !has_suffix(base, "@webp"@)
            && !has_suffix(base, "@avif"@) ==> jpeg_url(base) == base + "@jpeg"@,
{
    reveal_strlit("@jpeg");
    reveal_strlit("@png");
    reveal_strlit("@webp");
    reveal_strlit("@avif");
    let n = base.len() as int;
    let j = base + "@jpeg"@;
    assert(j.subrange(n, n + 5) =~= "@jpeg"@);
    let p = base + "@png"@;
    assert(p.subrange(n, n + 4) =~= "@png"@);
    let w = base + "@webp"@;
    assert(w.subrange(n, n + 5) =~= "@webp"@);
    assert(w.last() == 'p');
    assert(w.subrange(0, n) =~= base);
    if has_suffix(w, "@jpeg"@) {
        assert(w.subrange(n, n + 5)[4] == 'g');
    }
    if has_suffix(w, "@png"@) {
        assert(w.subrange(n + 1, n + 5)[3] == 'g');
    }
    let a = base + "@avif"@;
    assert(a.subrange(n, n + 5) =~= "@avif"@);
    assert(a.subrange(0, n) =~= base);
    if has_suffix(a, "@jpeg"@) {
        assert(a.subrange(n, n + 5)[4] == 'g');
    }
    if has_suffix(a, "@png"@) {
        assert(a.subrange(n + 1, n + 5)[3] == 'g');
    }
}

/// The small picture of an account lies beside the large one, under the same
/// name; an address of another kind is left alone.
pub proof fn lemma_small_picture(rest: Seq<char>, other: Seq<char>)
    ensures
        thumbnail_url("https://cdn.bsky.app/img/avatar/plain/"@ + rest) == jpeg_url(
            "https://cdn.bsky.app/img/avatar_thumbnail/plain/"@ + rest,
        ),
        !has_prefix(other, "https://cdn.bsky.app/img/avatar/plain/"@) ==> thumbnail_url(other)
            == other,
{
    let head = "https://cdn.bsky.app/img/avatar/plain/"@;
    let url = head + rest;
    assert(url.subrange(0, head.len() as int) =~= head);
    assert(url.subrange(head.len() as int, url.len() as int) =~= rest);
}

// ── Heights ────────────────────────────────────────────────────────────

/// A single picture is shown at its own height between 80 and 320 pixels; two or
/// three stand in one row, four in two, and of more than four the first four are
/// shown.
pub proof fn lemma_picture_heights(images: Seq<ImageView>, h: int)
    ensures
        80 <= fitted(h) <= 320,
        80 <= h <= 320 ==> fitted(h) == h,
        h < 80 ==> fitted(h) == 80,
        h > 320 ==> fitted(h) == 320,
        images.len() == 0 ==> grid_height(images) == 0,
        images.len() == 1 ==> grid_height(images) == fitted(images[0].natural_h as int),
        2 <= images.len() <= 3 ==> grid_height(images) == 240,
        images.len() >= 4 ==> grid_height(images) == 368,
        cells_shown(images.len() as int) == if images.len() > 4 {
            4
        } else {
            images.len() as int
        },
{
}

/// The pictures of a group lie within its height and the width of the text.
pub proof fn lemma_pictures_within(images: Seq<ImageView>, i: int, x: int, y: int)
    requires
        0 <= i < cells_shown(images.len() as int),
        0 <= x <= 100,
        -2_000_000_000 <= y <= 2_000_000_000,
        images.len() == 1 ==> images[0].natural_w >= 0,
    ensures
        ({
            let c = cell_rect(images, i, x, y);
            &&& x <= c.x && c.x + c.w <= x + 872
            &&& y <= c.y && c.y + c.h <= y + grid_height(images)
        }),
{
}

/// What is attached lies below the text and above the counters of its row, and
/// is never taller than 368 pixels; without an attachment there is none.
pub proof fn lemma_attachment_in_row(
    p: FeedPost,
    row_y: int,
    h: TextHeights,
    show_context: bool,
)
    requires
        crate::post_row::heights_ok(h),
    ensures
        ({
            let y = row_y + context_height(p, show_context);
            let span = embed_span(p.post.embed, y, h.body_h as int, h.quote_h as int);
            &&& p.post.embed is None ==> span is None
            &&& span matches Some(s) ==> s.0 == y + 44 + h.body_h + 8 && 0 <= s.1 <= 368 && s.0
                + s.1 + 28 <= row_y + row_height(p, h, show_context)
        }),
        row_height(p, h, show_context) >= 96 + context_height(p, show_context),
        row_height(p, h, show_context) >= 44 + h.body_h + 8 + 28 + context_height(p, show_context),
{
}

} // verus!
