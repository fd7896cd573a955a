//! One row of a feed: its height, its words, and what a tap on it means.

use vstd::prelude::*;

use crate::atproto::record_text;
#[allow(unused_imports)]
use crate::atproto::{post_record_text, shown_text};
use crate::embeds::{
    embed_rect, image_tap_cells, measure_embed_block, quote_uri_in_embed, video_in_embed,
    VideoTarget, ViewerImage, EMBED_BOTTOM_GAP, EMBED_GAP,
};
#[allow(unused_imports)]
use crate::embeds::{
    cell_rect, cells_shown, embed_block_height, embed_quote, embed_span, embed_video,
    viewer_image_of, TEXT_TOP,
};
use crate::model::{display_or_handle, EmbedView, FeedPost, FeedReason, RecordView, ReplyParent};
#[allow(unused_imports)]
use crate::model::name_or_at_handle;
#[allow(unused_imports)]
use crate::rows::MAX_CONTENT_H;
use crate::text::{decimal_int_text, join2, same_text, to_ascii_upper};
#[allow(unused_imports)]
use crate::text::{ascii_upper, decimal_int, opt_view};
use crate::widget::{Rect, TouchPoint, SCREEN_WIDTH};
#[allow(unused_imports)]
use crate::widget::touched;
#[allow(unused_imports)]
use vstd::utf8::encode_utf8;

verus! {

pub const ROW_PAD_X: i32 = 16;

pub const AVATAR_SIZE: i32 = 48;

pub const TEXT_LEFT: i32 = 72;

pub const ROW_PAD_Y: i32 = 20;

pub const TOP_LINE_H: i32 = 24;

pub const BODY_GAP: i32 = 8;

pub const FOOTER_H: i32 = 28;

pub const CONTEXT_LINE_H: i32 = 22;

/// The measured heights of a post's text and of a text it quotes.
#[derive(Copy, Clone, Debug, PartialEq, Eq, Structural)]
pub struct TextHeights {
    pub body_h: i32,
    pub quote_h: i32,
}

/// Measured heights lie in the range of a content height.
pub open spec fn heights_ok(h: TextHeights) -> bool {
    0 <= h.body_h <= MAX_CONTENT_H - 1000 && 0 <= h.quote_h <= MAX_CONTENT_H
}

/// Whether the heights of a post's texts can be measured with.
pub fn heights_fit(h: TextHeights) -> (r: bool)
    ensures
        r == heights_ok(h),
{
    0 <= h.body_h && h.body_h <= MAX_CONTENT_H - 1000 && 0 <= h.quote_h && h.quote_h
        <= MAX_CONTENT_H
}

// ── Words ──────────────────────────────────────────────────────────────

/// The line above a post that says why it is in the feed. A repost says who
/// reposted it, even where it is also a reply. A reply to someone else says to
/// whom; a reply to oneself, to something that cannot be seen, a pinned post
/// and an ordinary one say nothing.
pub open spec fn context_label(p: FeedPost, show_context: bool) -> Option<Seq<char>> {
    if !show_context {
        None
    } else {
        match p.reason {
            Some(FeedReason::Repost { by }) => Some("Reposted by "@ + name_or_at_handle(by)),
            _ => match p.reply {
                Some(ReplyParent::Post { author }) => if author.did@ != p.post.author.did@ {
                    Some("Reply to @"@ + author.handle@)
                } else {
                    None
                },
                _ => None,
            },
        }
    }
}

/// The line above a post that says why it is in the feed.
pub fn post_context_label(post: &FeedPost, show_context: bool) -> (r: Option<String>)
    ensures
        opt_view(r) == context_label(*post, show_context),
{
    if !show_context {
        return None;
    }
    match &post.reason {
        Some(FeedReason::Repost { by }) => {
            let name = display_or_handle(by);
            return Some(join2("Reposted by ", name.as_str()));
        },
        _ => {},
    }
    match &post.reply {
        Some(ReplyParent::Post { author }) => {
            if !same_text(author.did.as_str(), post.post.author.did.as_str()) {
                return Some(join2("Reply to @", author.handle.as_str()));
            }
        },
        _ => {},
    }
    None
}

/// The height that the line above a post takes.
pub open spec fn context_height(p: FeedPost, show_context: bool) -> int {
    if context_label(p, show_context) is Some {
        CONTEXT_LINE_H as int
    } else {
        0
    }
}

/// The height that the line above a post takes.
pub fn context_line_height(post: &FeedPost, show_context: bool) -> (r: i32)
    ensures
        r == context_height(*post, show_context),
{
    if post_context_label(post, show_context).is_some() {
        CONTEXT_LINE_H
    } else {
        0
    }
}

/// The text of a post as it is shown.
pub fn body_text(post: &FeedPost) -> (r: String)
    ensures
        r@ == shown_text(post_record_text(post.post.record@)),
{
    record_text(post.post.record.as_str())
}

/// The record of a quoted post, where one is shown.
pub open spec fn quoted_record(e: Option<EmbedView>) -> Option<String> {
    match e {
        Some(EmbedView::Record(RecordView::Post(p))) => Some(p.record),
        Some(EmbedView::RecordWithMedia { record: RecordView::Post(p), .. }) => Some(p.record),
        _ => None,
    }
}

/// The text of a quoted post as it is shown; nothing without a quote.
pub open spec fn quote_of(e: Option<EmbedView>) -> Option<Seq<char>> {
    match quoted_record(e) {
        Some(record) => Some(shown_text(post_record_text(record@))),
        None => None,
    }
}

/// The text of a quoted post as it is shown; nothing without a quote.
pub fn quote_text(post: &FeedPost) -> (r: Option<String>)
    ensures
        opt_view(r) == quote_of(post.post.embed),
{
    match &post.post.embed {
        Some(EmbedView::Record(RecordView::Post(p))) => Some(record_text(p.record.as_str())),
        Some(EmbedView::RecordWithMedia { record: RecordView::Post(p), .. }) => Some(
            record_text(p.record.as_str()),
        ),
        _ => None,
    }
}

/// One counter of a post and whether the reader is part of it.
#[derive(Debug)]
pub struct CountLabel {
    pub text: String,
    pub own: bool,
}

/// A counter with its word.
pub open spec fn count_words(n: Option<i64>, word: Seq<char>) -> Seq<char> {
    decimal_int(
        match n {
            Some(k) => k as int,
            None => 0,
        },
    ) + word
}

fn count_label(n: Option<i64>, word: &str, own: bool) -> (r: CountLabel)
    ensures
        r.text@ == count_words(n, word@),
        r.own == own,
{
    let k: i64 = match n {
        Some(k) => k,
        None => 0,
    };
    let digits = decimal_int_text(k);
    CountLabel { text: join2(digits.as_str(), word), own }
}

/// The likes, reposts and replies of a post, in words.
pub open spec fn counts_are(p: FeedPost, r: (CountLabel, CountLabel, CountLabel)) -> bool {
    &&& r.0.text@ == count_words(p.post.like_count, " likes"@)
    &&& r.0.own == (p.post.viewer matches Some(v) && v.like is Some)
    &&& r.1.text@ == count_words(p.post.repost_count, " reposts"@)
    &&& r.1.own == (p.post.viewer matches Some(v) && v.repost is Some)
    &&& r.2.text@ == count_words(p.post.reply_count, " replies"@)
    &&& !r.2.own
}

/// The likes, reposts and replies of a post, in words.
pub fn count_labels(post: &FeedPost) -> (r: (CountLabel, CountLabel, CountLabel))
    ensures
        counts_are(*post, r),
{
    let (liked, reposted) = match &post.post.viewer {
        Some(v) => (v.like.is_some(), v.repost.is_some()),
        None => (false, false),
    };
    (
        count_label(post.post.like_count, " likes", liked),
        count_label(post.post.repost_count, " reposts", reposted),
        count_label(post.post.reply_count, " replies", false),
    )
}

/// The letter that stands in for a picture: the first of the name, or of the
/// handle without one, as a capital; a question mark where there is none.
pub open spec fn initial_of(name: Seq<char>) -> char {
    if name.len() == 0 {
        '?'
    } else {
        ascii_upper(name[0])
    }
}

/// The letter that stands in for a picture.
pub fn avatar_initial(name: &str) -> (r: char)
    ensures
        r == initial_of(name@),
{
    if name.is_empty() {
        '?'
    } else {
        let c = name.get_char(0);
        to_ascii_upper(c)
    }
}

/// A colour.
#[derive(Copy, Clone, Debug, PartialEq, Eq, Structural)]
pub struct Rgb {
    pub r: u8,
    pub g: u8,
    pub b: u8,
}

/// The colours that stand in for a picture.
pub open spec fn palette(i: int) -> Rgb {
    if i == 0 {
        Rgb { r: 0xF8, g: 0x9A, b: 0x9A }
    } else if i == 1 {
        Rgb { r: 0xF8, g: 0xC1, b: 0x9A }
    } else if i == 2 {
        Rgb { r: 0xF8, g: 0xE8, b: 0x9A }
    } else if i == 3 {
        Rgb { r: 0x9A, g: 0xF8, b: 0xA0 }
    } else if i == 4 {
        Rgb { r: 0x9A, g: 0xE0, b: 0xF8 }
    } else if i == 5 {
        Rgb { r: 0x9A, g: 0xA0, b: 0xF8 }
    } else if i == 6 {
        Rgb { r: 0xC4, g: 0x9A, b: 0xF8 }
    } else {
        Rgb { r: 0xF8, g: 0x9A, b: 0xE0 }
    }
}

/// A number that scatters names: multiply, wrap, and mix in the next byte.
pub open spec fn name_hash(bytes: Seq<u8>) -> u32
    decreases bytes.len(),
{
    if bytes.len() == 0 {
        2166136261
    } else {
        (((name_hash(bytes.drop_last()) * 16777619) % 0x1_0000_0000) as u32) ^ (bytes.last() as u32)
    }
}

/// The colour that stands in for the picture of an account, the same one for
/// the same handle.
pub fn placeholder_color(handle: &str) -> (r: Rgb)
    ensures
        r == palette((name_hash(encode_utf8(handle@)) % 8) as int),
{
    let bytes = handle.as_bytes();
    let mut h: u32 = 2166136261;
    let mut i: usize = 0;
    while i < bytes.len()
        invariant
            i <= bytes@.len(),
            h == name_hash(bytes@.take(i as int)),
        decreases bytes@.len() - i,
    {
        assert(bytes@.take(i + 1).drop_last() =~= bytes@.take(i as int));
        h = h.wrapping_mul(16777619) ^ (bytes[i] as u32);
        i += 1;
    }
    assert(bytes@.take(bytes@.len() as int) =~= bytes@);
    let k: u32 = h % 8;
    if k == 0 {
        Rgb { r: 0xF8, g: 0x9A, b: 0x9A }
    } else if k == 1 {
        Rgb { r: 0xF8, g: 0xC1, b: 0x9A }
    } else if k == 2 {
        Rgb { r: 0xF8, g: 0xE8, b: 0x9A }
    } else if k == 3 {
        Rgb { r: 0x9A, g: 0xF8, b: 0xA0 }
    } else if k == 4 {
        Rgb { r: 0x9A, g: 0xE0, b: 0xF8 }
    } else if k == 5 {
        Rgb { r: 0x9A, g: 0xA0, b: 0xF8 }
    } else if k == 6 {
        Rgb { r: 0xC4, g: 0x9A, b: 0xF8 }
    } else {
        Rgb { r: 0xF8, g: 0x9A, b: 0xE0 }
    }
}

// ── Height ─────────────────────────────────────────────────────────────

/// The height of a post row: its padding, name line, text, attachment, gap and
/// counters, but at least the height of its picture; and the line above it.
pub open spec fn row_height(p: FeedPost, h: TextHeights, show_context: bool) -> int {
    let embed_h = embed_block_height(p.post.embed, h.quote_h as int);
    let gap = if embed_h > 0 {
        EMBED_BOTTOM_GAP as int
    } else {
        BODY_GAP as int
    };
    let text_block = ROW_PAD_Y + TOP_LINE_H + h.body_h + embed_h + gap + FOOTER_H;
    let avatar_block = ROW_PAD_Y + AVATAR_SIZE + FOOTER_H;
    (if text_block > avatar_block {
        text_block
    } else {
        avatar_block
    }) + context_height(p, show_context)
}

/// The height of a post row, given the heights of its texts.
pub fn measure_post_row(post: &FeedPost, h: TextHeights, show_context: bool) -> (r: i32)
    requires
        heights_ok(h),
    ensures
        r == row_height(*post, h, show_context),
        96 <= r,
{
    let embed_h: i32 = measure_embed_block(&post.post.embed, h.quote_h);
    let gap: i32 = if embed_h > 0 {
        EMBED_BOTTOM_GAP
    } else {
        BODY_GAP
    };
    let text_block: i32 = ROW_PAD_Y + TOP_LINE_H + h.body_h + embed_h + gap + FOOTER_H;
    let avatar_block: i32 = ROW_PAD_Y + AVATAR_SIZE + FOOTER_H;
    let block: i32 = if text_block > avatar_block {
        text_block
    } else {
        avatar_block
    };
    block + context_line_height(post, show_context)
}

// ── Places ─────────────────────────────────────────────────────────────

/// Where the parts of a post row are drawn.
#[derive(Copy, Clone, Debug, PartialEq, Eq, Structural)]
pub struct PostRowPlan {
    /// The line above the post.
    pub context_y: i32,
    pub face: Rect,
    pub name_y: i32,
    /// The handle, which ends at the right margin.
    pub handle_x: i32,
    pub handle_y: i32,
    pub body_y: i32,
    /// What is attached, where anything of it is drawn.
    pub embed_y: Option<i32>,
    pub counts_y: i32,
    /// The line below the row.
    pub rule: Rect,
}

/// Where the parts of a post row are drawn: the line above it shifts the rest
/// down; below the name line come the text, what is attached, and the counters.
pub open spec fn row_plan(
    p: FeedPost,
    h: TextHeights,
    row_y: int,
    row_h: int,
    handle_w: int,
    show_context: bool,
) -> PostRowPlan {
    let top = row_y + context_height(p, show_context) + ROW_PAD_Y;
    let body_y = top + TOP_LINE_H;
    let embed_h = embed_block_height(p.post.embed, h.quote_h as int);
    PostRowPlan {
        context_y: (row_y + 16) as i32,
        face: Rect { x: ROW_PAD_X, y: top as i32, w: AVATAR_SIZE, h: AVATAR_SIZE },
        name_y: top as i32,
        handle_x: (SCREEN_WIDTH - ROW_PAD_X - handle_w) as i32,
        handle_y: (top + 4) as i32,
        body_y: body_y as i32,
        embed_y: if embed_h > 0 {
            Some((body_y + h.body_h + EMBED_GAP) as i32)
        } else {
            None
        },
        counts_y: (body_y + h.body_h + embed_h + (if embed_h > 0 {
            EMBED_BOTTOM_GAP
        } else {
            BODY_GAP
        })) as i32,
        rule: Rect { x: 0, y: (row_y + row_h - 1) as i32, w: SCREEN_WIDTH, h: 1 },
    }
}

/// Where the parts of a post row are drawn. The row starts at `row_y` and is
/// `row_h` tall; its handle is `handle_w` wide.
pub fn plan_post_row(
    post: &FeedPost,
    h: TextHeights,
    row_y: i32,
    row_h: i32,
    handle_w: i32,
    show_context: bool,
) -> (r: PostRowPlan)
    requires
        heights_ok(h),
        -MAX_CONTENT_H <= row_y <= 900,
        0 <= row_h <= MAX_CONTENT_H,
        0 <= handle_w <= MAX_CONTENT_H,
    ensures
        r == row_plan(
            *post,
            h,
            row_y as int,
            row_h as int,
            handle_w as int,
            show_context,
        ),
{
    let top: i32 = row_y + context_line_height(post, show_context) + ROW_PAD_Y;
    let body_y: i32 = top + TOP_LINE_H;
    let embed_h: i32 = measure_embed_block(&post.post.embed, h.quote_h);
    let (embed_y, gap): (Option<i32>, i32) = if embed_h > 0 {
        (Some(body_y + h.body_h + EMBED_GAP), EMBED_BOTTOM_GAP)
    } else {
        (None, BODY_GAP)
    };
    PostRowPlan {
        context_y: row_y + 16,
        face: Rect::new(ROW_PAD_X, top, AVATAR_SIZE, AVATAR_SIZE),
        name_y: top,
        handle_x: SCREEN_WIDTH - ROW_PAD_X - handle_w,
        handle_y: top + 4,
        body_y,
        embed_y,
        counts_y: body_y + h.body_h + embed_h + gap,
        rule: Rect::new(0, row_y + row_h - 1, SCREEN_WIDTH, 1),
    }
}

// ── Taps ───────────────────────────────────────────────────────────────

/// What a tap on a post row asks for.
#[derive(Debug)]
pub enum TapAction {
    OpenProfile(String),
    OpenThread(String),
    ToggleLike(usize),
    ToggleRepost(usize),
    OpenVideo(VideoTarget),
    OpenImage { images: Vec<ViewerImage>, index: usize },
}

/// Which part of a post row a tap hits.
pub enum TapZone {
    Author,
    Likes,
    Reposts,
    Video,
    Quote,
    Image(int),
    Body,
}

pub open spec fn author_zone(content_y: int) -> Rect {
    Rect { x: 0, y: (content_y + ROW_PAD_Y) as i32, w: TEXT_LEFT, h: AVATAR_SIZE }
}

pub open spec fn likes_zone(row_y: int, row_h: int) -> Rect {
    Rect { x: 0, y: (row_y + row_h - FOOTER_H + 4) as i32, w: 280, h: 24 }
}

pub open spec fn reposts_zone(row_y: int, row_h: int) -> Rect {
    Rect { x: 280, y: (row_y + row_h - FOOTER_H + 4) as i32, w: 280, h: 24 }
}

pub open spec fn embed_zone(span: (int, int)) -> Rect {
    Rect { x: TEXT_LEFT, y: span.0 as i32, w: 872, h: span.1 as i32 }
}

pub open spec fn body_zone(content_y: int, row_h: int, ctx_h: int) -> Rect {
    Rect {
        x: TEXT_LEFT,
        y: (content_y + ROW_PAD_Y) as i32,
        w: 872,
        h: (row_h - ctx_h - ROW_PAD_Y - FOOTER_H) as i32,
    }
}

/// Where picture `i` of a post lies.
pub open spec fn image_zone(e: Option<EmbedView>, i: int, content_y: int, body_h: int) -> Rect {
    match e {
        Some(EmbedView::Images(v)) => cell_rect(
            v@,
            i,
            TEXT_LEFT as int,
            content_y + TEXT_TOP + body_h + EMBED_GAP,
        ),
        _ => Rect { x: 0, y: 0, w: 0, h: 0 },
    }
}

/// How many pictures of a post can be tapped.
pub open spec fn images_shown(e: Option<EmbedView>) -> int {
    match e {
        Some(EmbedView::Images(v)) => cells_shown(v@.len() as int),
        _ => 0,
    }
}

/// The first picture from `from` on that is touched; the number of pictures
/// where none is.
pub open spec fn first_image_touched(
    e: Option<EmbedView>,
    content_y: int,
    body_h: int,
    touches: Seq<TouchPoint>,
    from: int,
) -> int
    decreases images_shown(e) - from,
{
    if from >= images_shown(e) {
        images_shown(e)
    } else if touched(touches, image_zone(e, from, content_y, body_h)) {
        from
    } else {
        first_image_touched(e, content_y, body_h, touches, from + 1)
    }
}

/// The part of a post row that is hit. The author comes first, then the
/// counters, then a video, a quote and the pictures, and the text last.
pub open spec fn zone_hit(
    p: FeedPost,
    row_y: int,
    row_h: int,
    touches: Seq<TouchPoint>,
    h: TextHeights,
    show_context: bool,
) -> Option<TapZone> {
    let ctx_h = context_height(p, show_context);
    let content_y = row_y + ctx_h;
    let span = embed_span(p.post.embed, content_y, h.body_h as int, h.quote_h as int);
    let on_embed = span is Some && touched(touches, embed_zone(span->0));
    let image = first_image_touched(p.post.embed, content_y, h.body_h as int, touches, 0);
    if touched(touches, author_zone(content_y)) {
        Some(TapZone::Author)
    } else if touched(touches, likes_zone(row_y, row_h)) {
        Some(TapZone::Likes)
    } else if touched(touches, reposts_zone(row_y, row_h)) {
        Some(TapZone::Reposts)
    } else if embed_video(p.post.embed) is Some && on_embed {
        Some(TapZone::Video)
    } else if embed_quote(p.post.embed) is Some && on_embed {
        Some(TapZone::Quote)
    } else if image < images_shown(p.post.embed) {
        Some(TapZone::Image(image))
    } else if touched(touches, body_zone(content_y, row_h, ctx_h)) {
        Some(TapZone::Body)
    } else {
        None
    }
}

/// What a hit on a part of the post with this index asks for.
pub open spec fn tap_is(r: Option<TapAction>, zone: Option<TapZone>, p: FeedPost, idx: usize) -> bool {
    match zone {
        None => r is None,
        Some(TapZone::Author) => r == Some(TapAction::OpenProfile(p.post.author.handle)),
        Some(TapZone::Likes) => r == Some(TapAction::ToggleLike(idx)),
        Some(TapZone::Reposts) => r == Some(TapAction::ToggleRepost(idx)),
        Some(TapZone::Video) => r == Some(
            TapAction::OpenVideo(
                VideoTarget { did: p.post.author.did, cid: embed_video(p.post.embed)->0 },
            ),
        ),
        Some(TapZone::Quote) => r == Some(TapAction::OpenThread(embed_quote(p.post.embed)->0)),
        Some(TapZone::Image(i)) => {
            &&& r matches Some(TapAction::OpenImage { images, index })
            &&& index == i
            &&& images@.len() == images_shown(p.post.embed)
            &&& p.post.embed matches Some(EmbedView::Images(v))
            &&& forall|k: int|
                0 <= k < images@.len() ==> viewer_image_of(#[trigger] images@[k], v@[k])
        },
        Some(TapZone::Body) => r == Some(TapAction::OpenThread(p.post.uri)),
    }
}

/// Finds out what a tap on a post row asks for. The row starts at `row_y` and
/// is `row_h` tall; `h` holds the heights of its texts.
pub fn detect_post_tap_action(
    post: &FeedPost,
    row_y: i32,
    row_h: i32,
    touches: &Vec<TouchPoint>,
    h: TextHeights,
    idx: usize,
    show_context: bool,
) -> (r: Option<TapAction>)
    requires
        heights_ok(h),
        -MAX_CONTENT_H <= row_y <= 900,
        0 <= row_h <= MAX_CONTENT_H,
    ensures
        tap_is(
            r,
            zone_hit(*post, row_y as int, row_h as int, touches@, h, show_context),
            *post,
            idx,
        ),
{
    let ctx_h: i32 = context_line_height(post, show_context);
    let content_y: i32 = row_y + ctx_h;
    if Rect::new(0, content_y + ROW_PAD_Y, TEXT_LEFT, AVATAR_SIZE).touched_by(touches) {
        return Some(TapAction::OpenProfile(post.post.author.handle.clone()));
    }
    let counts_y: i32 = row_y + row_h - FOOTER_H + 4;
    if Rect::new(0, counts_y, 280, 24).touched_by(touches) {
        return Some(TapAction::ToggleLike(idx));
    }
    if Rect::new(280, counts_y, 280, 24).touched_by(touches) {
        return Some(TapAction::ToggleRepost(idx));
    }
    let inner_w: i32 = SCREEN_WIDTH - TEXT_LEFT - ROW_PAD_X;
    let span = embed_rect(&post.post.embed, content_y, h.body_h, h.quote_h);
    let on_embed = match span {
        Some((ey, eh)) => Rect::new(TEXT_LEFT, ey, inner_w, eh).touched_by(touches),
        None => false,
    };
    match video_in_embed(&post.post.embed, &post.post.author.did) {
        Some(target) => {
            if on_embed {
                return Some(TapAction::OpenVideo(target));
            }
        },
        None => {},
    }
    match quote_uri_in_embed(&post.post.embed) {
        Some(uri) => {
            if on_embed {
                return Some(TapAction::OpenThread(uri));
            }
        },
        None => {},
    }
    match image_tap_cells(&post.post.embed, content_y, h.body_h, h.quote_h) {
        Some(cells) => {
            let n: usize = cells.rects.len();
            let ghost e = post.post.embed;
            let mut i: usize = 0;
            while i < n
                invariant
                    n == cells.rects@.len(),
                    n == images_shown(e),
                    i <= n,
                    e == post.post.embed,
                    forall|k: int|
                        0 <= k < n ==> #[trigger] cells.rects@[k] == image_zone(
                            e,
                            k,
                            content_y as int,
                            h.body_h as int,
                        ),
                    first_image_touched(e, content_y as int, h.body_h as int, touches@, 0)
                        == first_image_touched(
                        e,
                        content_y as int,
                        h.body_h as int,
                        touches@,
                        i as int,
                    ),
                    cells.images@.len() == n,
                    zone_hit(*post, row_y as int, row_h as int, touches@, h, show_context) == (
                    if first_image_touched(e, content_y as int, h.body_h as int, touches@, 0) < n {
                        Some(
                            TapZone::Image(
                                first_image_touched(
                                    e,
                                    content_y as int,
                                    h.body_h as int,
                                    touches@,
                                    0,
                                ),
                            ),
                        )
                    } else if touched(touches@, body_zone(content_y as int, row_h as int, ctx_h as int)) {
                        Some(TapZone::Body)
                    } else {
                        None
                    }),
                    e matches Some(EmbedView::Images(v)) && forall|k: int|
                        0 <= k < n ==> viewer_image_of(#[trigger] cells.images@[k], v@[k]),
                decreases n - i,
            {
                if cells.rects[i].touched_by(touches) {
                    return Some(TapAction::OpenImage { images: cells.images, index: i });
                }
                i += 1;
            }
        },
        None => {},
    }
    let body = Rect::new(
        TEXT_LEFT,
        content_y + ROW_PAD_Y,
        inner_w,
        row_h - ctx_h - ROW_PAD_Y - FOOTER_H,
    );
    if body.touched_by(touches) {
        return Some(TapAction::OpenThread(post.post.uri.clone()));
    }
    None
}

/// What is tapped is what is drawn: the picture of the author lies in the zone
/// of the author, the zone of what is attached starts where it is drawn, and all
/// of a row that was measured so is drawn within it, above the line below it.
pub proof fn lemma_drawn_where_tapped(
    p: FeedPost,
    h: TextHeights,
    row_y: int,
    handle_w: int,
    show_context: bool,
)
    requires
        heights_ok(h),
        -MAX_CONTENT_H <= row_y <= 900,
        0 <= row_height(p, h, show_context) <= MAX_CONTENT_H,
        0 <= handle_w <= MAX_CONTENT_H,
    ensures
        ({
            let row_h = row_height(p, h, show_context);
            let plan = row_plan(p, h, row_y, row_h, handle_w, show_context);
            let content_y = row_y + context_height(p, show_context);
            let zone = author_zone(content_y);
            let span = embed_span(p.post.embed, content_y, h.body_h as int, h.quote_h as int);
            &&& zone.x <= plan.face.x && plan.face.x + plan.face.w <= zone.x + zone.w
            &&& plan.face.y == zone.y && plan.face.h == zone.h
            &&& match (plan.embed_y, span) {
                (Some(y), Some(s)) => y == s.0,
                (None, None) => true,
                _ => false,
            }
            &&& row_y <= plan.name_y <= plan.body_y <= plan.counts_y
            &&& plan.counts_y + FOOTER_H <= row_y + row_h
            &&& plan.face.y + plan.face.h <= plan.rule.y
        }),
{
}

/// A row is never lower than its picture and counters need, so that the zones
/// of a tap lie within the row.
pub proof fn lemma_row_height_at_least(p: FeedPost, h: TextHeights, show_context: bool)
    requires
        heights_ok(h),
    ensures
        row_height(p, h, show_context) >= ROW_PAD_Y + AVATAR_SIZE + FOOTER_H + context_height(
            p,
            show_context,
        ),
{
}

} // verus!
