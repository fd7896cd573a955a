//! What is attached to a post: how tall it is, where its parts lie, which
//! pictures it needs, and what a tap on it opens.

use vstd::prelude::*;

use crate::cdn::{avatar_thumbnail_jpeg, ensure_jpeg};
#[allow(unused_imports)]
use crate::cdn::{jpeg_url, thumbnail_url};
use crate::model::{EmbedView, ImageView, MediaView, RecordView};
#[allow(unused_imports)]
use crate::model::QuotedPost;
#[allow(unused_imports)]
use crate::rows::MAX_CONTENT_H;
use crate::text::{chars_of, find, head_chars, owned, string_of};
#[allow(unused_imports)]
use crate::text::{contains_text, first_chars, occurs_at};
use crate::widget::Rect;

verus! {

/// Gap between the text of a post and what is attached to it.
pub const EMBED_GAP: i32 = 8;

/// Gap below what is attached.
pub const EMBED_BOTTOM_GAP: i32 = 16;

/// What is attached is never taller than this.
pub const EMBED_MAX_H: i32 = 368;

/// Where the text of a post starts.
pub const TEXT_LEFT: i32 = 72;

/// Width of the text of a post.
pub const INNER_W: i32 = 872;

/// From the top of a post to the top of its text.
pub const TEXT_TOP: i32 = 44;

pub const GRID_GAP: i32 = 8;

pub const SINGLE_IMG_MIN_H: i32 = 80;

pub const SINGLE_IMG_MAX_H: i32 = 320;

pub const GRID_ROW_H: i32 = 240;

/// Width of a picture where two stand side by side, with a gap between them.
pub const GRID_2_CELL_W: i32 = 432;

/// Width of a picture where three stand side by side, with gaps between them.
pub const GRID_3_CELL_W: i32 = 285;

pub const GRID_4_CELL_H: i32 = 180;

pub const GRID_4_TOTAL_H: i32 = 368;

pub const EXTERNAL_CARD_H: i32 = 76;

pub const EXTERNAL_THUMB: i32 = 60;

pub const VIDEO_PLACEHOLDER_W: i32 = 100;

pub const VIDEO_PLACEHOLDER_H: i32 = 60;

pub const QUOTE_PAD: i32 = 8;

pub const QUOTE_AVATAR: i32 = 24;

pub const QUOTE_HEADER_H: i32 = 44;

pub const PLACEHOLDER_QUOTE_H: i32 = 40;

/// One picture in the full-screen viewer.
#[derive(Debug)]
pub struct ViewerImage {
    pub thumb: String,
    pub fullsize: String,
    pub alt: String,
}

/// A video that can be played: whose it is, and which one.
#[derive(Debug)]
pub struct VideoTarget {
    pub did: String,
    pub cid: String,
}

// ── Heights ────────────────────────────────────────────────────────────

/// The height a single picture is shown at.
pub open spec fn fitted(natural_h: int) -> int {
    if natural_h < SINGLE_IMG_MIN_H {
        SINGLE_IMG_MIN_H as int
    } else if natural_h > SINGLE_IMG_MAX_H {
        SINGLE_IMG_MAX_H as int
    } else {
        natural_h
    }
}

/// The height a single picture is shown at, given its height at full width.
pub fn fit_height(natural_h: i32) -> (r: i32)
    ensures
        r == fitted(natural_h as int),
{
    if natural_h < SINGLE_IMG_MIN_H {
        SINGLE_IMG_MIN_H
    } else if natural_h > SINGLE_IMG_MAX_H {
        SINGLE_IMG_MAX_H
    } else {
        natural_h
    }
}

/// The height of a group of pictures.
pub open spec fn grid_height(images: Seq<ImageView>) -> int {
    if images.len() == 0 {
        0
    } else if images.len() == 1 {
        fitted(images[0].natural_h as int)
    } else if images.len() <= 3 {
        GRID_ROW_H as int
    } else {
        GRID_4_TOTAL_H as int
    }
}

/// The height of pictures, a video or a link.
pub open spec fn media_height(m: MediaView) -> int {
    match m {
        MediaView::Images(v) => grid_height(v@),
        MediaView::Video { .. } => VIDEO_PLACEHOLDER_H as int,
        MediaView::External(_) => EXTERNAL_CARD_H as int,
        MediaView::Unknown => 0,
    }
}

/// The height of a quote whose text is `body_h` tall.
pub open spec fn quote_height(r: RecordView, body_h: int) -> int {
    match r {
        RecordView::Post(_) => QUOTE_PAD + QUOTE_HEADER_H + body_h + QUOTE_PAD,
        RecordView::Unavailable => PLACEHOLDER_QUOTE_H as int,
    }
}

/// The height of an attachment before it is capped, where it is known.
pub open spec fn embed_natural_height(e: EmbedView, quote_body_h: int) -> Option<int> {
    match e {
        EmbedView::Images(v) => Some(grid_height(v@)),
        EmbedView::External(_) => Some(EXTERNAL_CARD_H as int),
        EmbedView::Video { .. } => Some(VIDEO_PLACEHOLDER_H as int),
        EmbedView::Record(r) => Some(quote_height(r, quote_body_h)),
        EmbedView::RecordWithMedia { record, media } => Some(
            media_height(media) + GRID_GAP + quote_height(record, quote_body_h),
        ),
        EmbedView::Unknown => None,
    }
}

/// The height of the attachment together with the gap above it; 0 where
/// nothing is shown.
pub open spec fn embed_block_height(e: Option<EmbedView>, quote_body_h: int) -> int {
    match e {
        None => 0,
        Some(v) => match embed_natural_height(v, quote_body_h) {
            None => 0,
            Some(h) => (if h < EMBED_MAX_H {
                h
            } else {
                EMBED_MAX_H as int
            }) + EMBED_GAP,
        },
    }
}

/// The height of a group of pictures.
pub fn measure_image_grid(images: &Vec<ImageView>) -> (r: i32)
    ensures
        r == grid_height(images@),
        0 <= r <= EMBED_MAX_H,
{
    let n: usize = images.len();
    if n == 0 {
        0
    } else if n == 1 {
        fit_height(images[0].natural_h)
    } else if n <= 3 {
        GRID_ROW_H
    } else {
        GRID_4_TOTAL_H
    }
}

/// The height of pictures, a video or a link.
pub fn measure_media(media: &MediaView) -> (r: i32)
    ensures
        r == media_height(*media),
        0 <= r <= EMBED_MAX_H,
{
    match media {
        MediaView::Images(v) => measure_image_grid(v),
        MediaView::Video { .. } => VIDEO_PLACEHOLDER_H,
        MediaView::External(_) => EXTERNAL_CARD_H,
        MediaView::Unknown => 0,
    }
}

/// The height of a quote whose text is `body_h` tall.
pub fn measure_record_view(record: &RecordView, body_h: i32) -> (r: i32)
    requires
        0 <= body_h <= MAX_CONTENT_H,
    ensures
        r == quote_height(*record, body_h as int),
        0 <= r,
{
    match record {
        RecordView::Post(_) => QUOTE_PAD + QUOTE_HEADER_H + body_h + QUOTE_PAD,
        RecordView::Unavailable => PLACEHOLDER_QUOTE_H,
    }
}

/// The height of the attachment together with the gap above it; 0 where
/// nothing is shown. `quote_body_h` is the height of a quoted text.
pub fn measure_embed_block(embed: &Option<EmbedView>, quote_body_h: i32) -> (r: i32)
    requires
        0 <= quote_body_h <= MAX_CONTENT_H,
    ensures
        r == embed_block_height(*embed, quote_body_h as int),
        0 <= r <= EMBED_MAX_H + EMBED_GAP,
        r == 0 <==> (embed matches Some(e) ==> e is Unknown),
{
    let h: i32 = match embed {
        None => {
            return 0;
        },
        Some(EmbedView::Unknown) => {
            return 0;
        },
        Some(EmbedView::Images(v)) => measure_image_grid(v),
        Some(EmbedView::External(_)) => EXTERNAL_CARD_H,
        Some(EmbedView::Video { .. }) => VIDEO_PLACEHOLDER_H,
        Some(EmbedView::Record(r)) => measure_record_view(r, quote_body_h),
        Some(EmbedView::RecordWithMedia { record, media }) => measure_media(media) + GRID_GAP
            + measure_record_view(record, quote_body_h),
    };
    (if h < EMBED_MAX_H {
        h
    } else {
        EMBED_MAX_H
    }) + EMBED_GAP
}

/// Where the parts of a quoted post are drawn.
#[derive(Copy, Clone, Debug)]
pub struct QuotePlan {
    pub card: Rect,
    pub face: Rect,
    pub name_x: i32,
    pub name_y: i32,
    /// Where the handle starts and how wide it may be, where there is room
    /// for it beside the name.
    pub handle: Option<(i32, i32)>,
    pub body_x: i32,
    pub body_y: i32,
}

/// Where the parts of a quoted post at this place are drawn, whose text is
/// `body_h` tall and whose name is `name_w` wide as it is drawn.
pub open spec fn quote_plan(x: int, y: int, body_h: int, name_w: int) -> QuotePlan {
    let name_x = x + QUOTE_PAD + QUOTE_AVATAR + 6;
    let handle_x = name_x + name_w + 6;
    let room = INNER_W - (handle_x - x) - QUOTE_PAD;
    QuotePlan {
        card: Rect {
            x: x as i32,
            y: y as i32,
            w: INNER_W,
            h: (QUOTE_PAD + QUOTE_HEADER_H + body_h + QUOTE_PAD) as i32,
        },
        face: Rect {
            x: (x + QUOTE_PAD) as i32,
            y: (y + QUOTE_PAD) as i32,
            w: QUOTE_AVATAR,
            h: QUOTE_AVATAR,
        },
        name_x: name_x as i32,
        name_y: (y + QUOTE_PAD + 16) as i32,
        handle: if room > 30 {
            Some((handle_x as i32, room as i32))
        } else {
            None
        },
        body_x: (x + QUOTE_PAD) as i32,
        body_y: (y + QUOTE_PAD + QUOTE_HEADER_H) as i32,
    }
}

/// Where the parts of a quoted post are drawn.
pub fn plan_quote(x: i32, y: i32, body_h: i32, name_w: i32) -> (r: QuotePlan)
    requires
        0 <= x <= 1000,
        -MAX_CONTENT_H <= y <= MAX_CONTENT_H,
        0 <= body_h <= MAX_CONTENT_H,
        0 <= name_w <= MAX_CONTENT_H,
    ensures
        r == quote_plan(x as int, y as int, body_h as int, name_w as int),
{
    let name_x: i32 = x + QUOTE_PAD + QUOTE_AVATAR + 6;
    let handle_x: i32 = name_x + name_w + 6;
    let room: i32 = INNER_W - (handle_x - x) - QUOTE_PAD;
    QuotePlan {
        card: Rect::new(x, y, INNER_W, QUOTE_PAD + QUOTE_HEADER_H + body_h + QUOTE_PAD),
        face: Rect::new(x + QUOTE_PAD, y + QUOTE_PAD, QUOTE_AVATAR, QUOTE_AVATAR),
        name_x,
        name_y: y + QUOTE_PAD + 16,
        handle: if room > 30 {
            Some((handle_x, room))
        } else {
            None
        },
        body_x: x + QUOTE_PAD,
        body_y: y + QUOTE_PAD + QUOTE_HEADER_H,
    }
}

/// The card around a quoted post is as tall as a quoted post is measured, its
/// parts lie within it, and a handle that is drawn ends before its padding.
pub proof fn lemma_quote_in_card(p: QuotedPost, x: int, y: int, body_h: int, name_w: int)
    requires
        0 <= x <= 1000,
        -MAX_CONTENT_H <= y <= MAX_CONTENT_H,
        0 <= body_h <= MAX_CONTENT_H,
        0 <= name_w <= MAX_CONTENT_H,
    ensures
        ({
            let plan = quote_plan(x, y, body_h, name_w);
            &&& plan.card.h == quote_height(RecordView::Post(p), body_h)
            &&& plan.face.y + plan.face.h <= plan.body_y
            &&& plan.body_y + body_h + QUOTE_PAD == plan.card.y + plan.card.h
            &&& plan.handle matches Some((hx, w)) ==> hx + w + QUOTE_PAD == plan.card.x
                + plan.card.w
        }),
{
}

/// Where the attachment of a post lies, as its top and height.
pub open spec fn embed_span(
    e: Option<EmbedView>,
    row_top: int,
    body_h: int,
    quote_body_h: int,
) -> Option<(int, int)> {
    let block = embed_block_height(e, quote_body_h);
    if block == 0 {
        None
    } else {
        Some((row_top + TEXT_TOP + body_h + EMBED_GAP, block - EMBED_GAP))
    }
}

/// Where the attachment of a post lies: its top and height. The post starts
/// at `row_top` and its text is `body_h` tall.
pub fn embed_rect(embed: &Option<EmbedView>, row_top: i32, body_h: i32, quote_body_h: i32) -> (r:
    Option<(i32, i32)>)
    requires
        -MAX_CONTENT_H <= row_top <= 1000,
        0 <= body_h <= MAX_CONTENT_H,
        0 <= quote_body_h <= MAX_CONTENT_H,
    ensures
        match r {
            Some(p) => embed_span(*embed, row_top as int, body_h as int, quote_body_h as int)
                == Some((p.0 as int, p.1 as int)),
            None => embed_span(*embed, row_top as int, body_h as int, quote_body_h as int) is None,
        },
{
    let block: i32 = measure_embed_block(embed, quote_body_h);
    if block == 0 {
        return None;
    }
    Some((row_top + TEXT_TOP + body_h + EMBED_GAP, block - EMBED_GAP))
}

// ── Pictures ───────────────────────────────────────────────────────────

/// How many pictures of a group are shown.
pub open spec fn cells_shown(n: int) -> int {
    if n < 4 {
        n
    } else {
        4
    }
}

/// Where picture `i` of a group lies, the group being at `(x, y)`.
pub open spec fn cell_rect(images: Seq<ImageView>, i: int, x: int, y: int) -> Rect {
    if images.len() == 1 {
        Rect {
            x: x as i32,
            y: y as i32,
            w: (if images[0].natural_w < INNER_W {
                images[0].natural_w as int
            } else {
                INNER_W as int
            }) as i32,
            h: fitted(images[0].natural_h as int) as i32,
        }
    } else if images.len() == 2 {
        Rect { x: (x + i * 440) as i32, y: y as i32, w: 432, h: 240 }
    } else if images.len() == 3 {
        Rect { x: (x + i * 293) as i32, y: y as i32, w: 285, h: 240 }
    } else {
        Rect { x: (x + (i % 2) * 440) as i32, y: (y + (i / 2) * 188) as i32, w: 432, h: 180 }
    }
}

/// The places of the pictures that are shown, in order.
pub fn image_cells(images: &Vec<ImageView>, x: i32, y: i32) -> (r: Vec<Rect>)
    requires
        -MAX_CONTENT_H <= x <= MAX_CONTENT_H,
        -MAX_CONTENT_H <= y <= MAX_CONTENT_H + 1100,
    ensures
        r@ == Seq::new(
            cells_shown(images@.len() as int) as nat,
            |i: int| cell_rect(images@, i, x as int, y as int),
        ),
{
    let n: usize = images.len();
    let shown: usize = if n < 4 {
        n
    } else {
        4
    };
    let mut r: Vec<Rect> = Vec::new();
    let mut i: usize = 0;
    while i < shown
        invariant
            n == images@.len(),
            shown == cells_shown(n as int),
            i <= shown,
            -MAX_CONTENT_H <= x <= MAX_CONTENT_H,
            -MAX_CONTENT_H <= y <= MAX_CONTENT_H + 1100,
            r@ == Seq::new(i as nat, |k: int| cell_rect(images@, k, x as int, y as int)),
        decreases shown - i,
    {
        let k: i32 = i as i32;
        let c = if n == 1 {
            let w: i32 = if images[0].natural_w < INNER_W {
                images[0].natural_w
            } else {
                INNER_W
            };
            Rect::new(x, y, w, fit_height(images[0].natural_h))
        } else if n == 2 {
            Rect::new(x + k * 440, y, GRID_2_CELL_W, GRID_ROW_H)
        } else if n == 3 {
            Rect::new(x + k * 293, y, GRID_3_CELL_W, GRID_ROW_H)
        } else {
            Rect::new(x + (k % 2) * 440, y + (k / 2) * 188, GRID_2_CELL_W, GRID_4_CELL_H)
        };
        r.push(c);
        assert(r@ =~= Seq::new((i + 1) as nat, |k: int| cell_rect(images@, k, x as int, y as int)));
        i += 1;
    }
    r
}

/// A picture as the viewer shows it.
pub open spec fn viewer_image_of(v: ViewerImage, img: ImageView) -> bool {
    v.thumb@ == jpeg_url(img.thumb@) && v.fullsize@ == jpeg_url(img.fullsize@) && v.alt == img.alt
}

/// The shown pictures of a group, for the viewer.
pub fn viewer_images(images: &Vec<ImageView>) -> (r: Vec<ViewerImage>)
    ensures
        r@.len() == cells_shown(images@.len() as int),
        forall|i: int| 0 <= i < r@.len() ==> viewer_image_of(#[trigger] r@[i], images@[i]),
{
    let n: usize = images.len();
    let shown: usize = if n < 4 {
        n
    } else {
        4
    };
    let mut r: Vec<ViewerImage> = Vec::new();
    let mut i: usize = 0;
    while i < shown
        invariant
            shown == cells_shown(images@.len() as int),
            shown <= images@.len(),
            i <= shown,
            r@.len() == i,
            forall|k: int| 0 <= k < i ==> viewer_image_of(#[trigger] r@[k], images@[k]),
        decreases shown - i,
    {
        let img = &images[i];
        r.push(
            ViewerImage {
                thumb: ensure_jpeg(img.thumb.as_str()),
                fullsize: ensure_jpeg(img.fullsize.as_str()),
                alt: img.alt.clone(),
            },
        );
        i += 1;
    }
    r
}

/// Pictures, and where each of them lies.
#[derive(Debug)]
pub struct TapCells {
    pub images: Vec<ViewerImage>,
    pub rects: Vec<Rect>,
}

/// The pictures of a post that has some, with the place of each: what a tap
/// on one of them opens.
pub fn image_tap_cells(
    embed: &Option<EmbedView>,
    row_top: i32,
    body_h: i32,
    quote_body_h: i32,
) -> (r: Option<TapCells>)
    requires
        -MAX_CONTENT_H <= row_top <= 1000,
        0 <= body_h <= MAX_CONTENT_H,
        0 <= quote_body_h <= MAX_CONTENT_H,
    ensures
        match embed {
            Some(EmbedView::Images(v)) => if v@.len() == 0 {
                r is None
            } else {
                &&& r is Some
                &&& r->0.images@.len() == cells_shown(v@.len() as int)
                &&& forall|i: int|
                    0 <= i < r->0.images@.len() ==> viewer_image_of(#[trigger] r->0.images@[i], v@[i])
                &&& r->0.rects@ == Seq::new(
                    cells_shown(v@.len() as int) as nat,
                    |i: int|
                        cell_rect(
                            v@,
                            i,
                            TEXT_LEFT as int,
                            row_top + TEXT_TOP + body_h + EMBED_GAP,
                        ),
                )
            },
            _ => r is None,
        },
{
    match embed {
        Some(EmbedView::Images(v)) => {
            if v.len() == 0 {
                return None;
            }
            let top: i32 = row_top + TEXT_TOP + body_h + EMBED_GAP;
            Some(TapCells { images: viewer_images(v), rects: image_cells(v, TEXT_LEFT, top) })
        },
        _ => None,
    }
}

/// The addresses of a group of pictures.
pub open spec fn thumb_urls(images: Seq<ImageView>) -> Seq<Seq<char>> {
    Seq::new(images.len(), |i: int| jpeg_url(images[i].thumb@))
}

/// The picture beside a link.
pub open spec fn link_urls(thumb: Option<String>) -> Seq<Seq<char>> {
    match thumb {
        Some(t) => seq![jpeg_url(t@)],
        None => Seq::empty(),
    }
}

/// The pictures that a quote needs: its author's.
pub open spec fn quote_urls(r: RecordView) -> Seq<Seq<char>> {
    match r {
        RecordView::Post(p) => match p.author.avatar {
            Some(a) => seq![thumbnail_url(a@)],
            None => Seq::empty(),
        },
        RecordView::Unavailable => Seq::empty(),
    }
}

/// The pictures that pictures, a video or a link need. A video shows none.
pub open spec fn media_urls(m: MediaView) -> Seq<Seq<char>> {
    match m {
        MediaView::Images(v) => thumb_urls(v@),
        MediaView::External(e) => link_urls(e.thumb),
        _ => Seq::empty(),
    }
}

/// The pictures that an attachment needs.
pub open spec fn embed_urls(e: Option<EmbedView>) -> Seq<Seq<char>> {
    match e {
        Some(EmbedView::Images(v)) => thumb_urls(v@),
        Some(EmbedView::External(x)) => link_urls(x.thumb),
        Some(EmbedView::Record(r)) => quote_urls(r),
        Some(EmbedView::RecordWithMedia { record, media }) => media_urls(media) + quote_urls(
            record,
        ),
        _ => Seq::empty(),
    }
}

/// Texts, by their characters.
pub open spec fn texts(v: Seq<String>) -> Seq<Seq<char>> {
    Seq::new(v.len(), |i: int| v[i]@)
}

fn collect_thumbs(images: &Vec<ImageView>, out: &mut Vec<String>)
    ensures
        texts(final(out)@) == texts(old(out)@) + thumb_urls(images@),
{
    let ghost before = texts(out@);
    let mut i: usize = 0;
    assert(texts(out@) =~= before + thumb_urls(images@).take(0));
    while i < images.len()
        invariant
            i <= images@.len(),
            before == texts(old(out)@),
            texts(out@) == before + thumb_urls(images@).take(i as int),
        decreases images@.len() - i,
    {
        let ghost prev = texts(out@);
        let url = ensure_jpeg(images[i].thumb.as_str());
        out.push(url);
        assert(texts(out@) =~= prev.push(url@));
        assert(before + thumb_urls(images@).take(i + 1) =~= (before + thumb_urls(images@).take(
            i as int,
        )).push(thumb_urls(images@)[i as int]));
        i += 1;
    }
    assert(thumb_urls(images@).take(images@.len() as int) =~= thumb_urls(images@));
}

fn collect_link(thumb: &Option<String>, out: &mut Vec<String>)
    ensures
        texts(final(out)@) == texts(old(out)@) + link_urls(*thumb),
{
    match thumb {
        Some(t) => {
            let url = ensure_jpeg(t.as_str());
            out.push(url);
            assert(texts(out@) =~= texts(old(out)@) + link_urls(*thumb));
        },
        None => {
            assert(texts(out@) =~= texts(old(out)@) + link_urls(*thumb));
        },
    }
}

fn collect_record_urls(record: &RecordView, out: &mut Vec<String>)
    ensures
        texts(final(out)@) == texts(old(out)@) + quote_urls(*record),
{
    match record {
        RecordView::Post(p) => match &p.author.avatar {
            Some(a) => {
                let url = avatar_thumbnail_jpeg(a.as_str());
                out.push(url);
            },
            None => {},
        },
        RecordView::Unavailable => {},
    }
    assert(texts(out@) =~= texts(old(out)@) + quote_urls(*record));
}

fn collect_media_urls(media: &MediaView, out: &mut Vec<String>)
    ensures
        texts(final(out)@) == texts(old(out)@) + media_urls(*media),
{
    match media {
        MediaView::Images(v) => collect_thumbs(v, out),
        MediaView::External(e) => collect_link(&e.thumb, out),
        _ => {
            assert(texts(out@) =~= texts(old(out)@) + media_urls(*media));
        },
    }
}

/// Every picture that an attachment needs, in order.
pub fn embed_image_urls(embed: &Option<EmbedView>) -> (r: Vec<String>)
    ensures
        texts(r@) == embed_urls(*embed),
{
    let mut out: Vec<String> = Vec::new();
    let ghost none = Seq::<Seq<char>>::empty();
    assert(texts(out@) =~= none);
    match embed {
        Some(EmbedView::Images(v)) => collect_thumbs(v, &mut out),
        Some(EmbedView::External(e)) => collect_link(&e.thumb, &mut out),
        Some(EmbedView::Record(r)) => collect_record_urls(r, &mut out),
        Some(EmbedView::RecordWithMedia { record, media }) => {
            collect_media_urls(media, &mut out);
            collect_record_urls(record, &mut out);
        },
        _ => {},
    }
    assert(texts(out@) =~= embed_urls(*embed));
    out
}

// ── What a tap opens ───────────────────────────────────────────────────

/// The video of an attachment.
pub open spec fn embed_video(e: Option<EmbedView>) -> Option<String> {
    match e {
        Some(EmbedView::Video { cid }) => Some(cid),
        Some(EmbedView::RecordWithMedia { media: MediaView::Video { cid }, .. }) => Some(cid),
        _ => None,
    }
}

/// The video of an attachment, if it has one, as its author's.
pub fn video_in_embed(embed: &Option<EmbedView>, author_did: &String) -> (r: Option<VideoTarget>)
    ensures
        r == (match embed_video(*embed) {
            Some(cid) => Some(VideoTarget { did: *author_did, cid }),
            None => None,
        }),
{
    match embed {
        Some(EmbedView::Video { cid }) => Some(
            VideoTarget { did: author_did.clone(), cid: cid.clone() },
        ),
        Some(EmbedView::RecordWithMedia { media: MediaView::Video { cid }, .. }) => Some(
            VideoTarget { did: author_did.clone(), cid: cid.clone() },
        ),
        _ => None,
    }
}

/// The address of the quoted post, where it can be opened.
pub open spec fn embed_quote(e: Option<EmbedView>) -> Option<String> {
    match e {
        Some(EmbedView::Record(RecordView::Post(p))) => Some(p.uri),
        Some(EmbedView::RecordWithMedia { record: RecordView::Post(p), .. }) => Some(p.uri),
        _ => None,
    }
}

/// The address of the quoted post. Nothing for an attachment without a quote
/// and for a quote that cannot be shown.
pub fn quote_uri_in_embed(embed: &Option<EmbedView>) -> (r: Option<String>)
    ensures
        r == embed_quote(*embed),
{
    match embed {
        Some(EmbedView::Record(RecordView::Post(p))) => Some(p.uri.clone()),
        Some(EmbedView::RecordWithMedia { record: RecordView::Post(p), .. }) => Some(
            p.uri.clone(),
        ),
        _ => None,
    }
}

// ── Words and shapes ───────────────────────────────────────────────────

/// The position of the first `c` of `s` from `from` on, or the length.
pub open spec fn next_pos(s: Seq<char>, c: char, from: int) -> int
    decreases s.len() - from,
{
    if from >= s.len() {
        s.len() as int
    } else if s[from] == c {
        from
    } else {
        next_pos(s, c, from + 1)
    }
}

/// The host of an address; the start of one that has no scheme. `i` is where
/// the first `://` stands, if anywhere.
pub open spec fn host_part(uri: Seq<char>, i: Option<int>) -> Seq<char> {
    match i {
        Some(k) => uri.subrange(k + 3, next_pos(uri, '/', k + 3)),
        None => first_chars(uri, 64),
    }
}

/// `i` is the first position of `p` in `s`, or absent where there is none.
pub open spec fn is_first_at(s: Seq<char>, p: Seq<char>, i: Option<int>) -> bool {
    match i {
        Some(k) => occurs_at(s, p, k) && forall|j: int| 0 <= j < k ==> !#[trigger] occurs_at(
            s,
            p,
            j,
        ),
        None => !contains_text(s, p),
    }
}

/// The host of an address: what stands between the first `://` and the next
/// slash; the first 64 characters of an address without a scheme.
pub fn host_from_uri(uri: &str) -> (r: String)
    ensures
        exists|i: Option<int>|
            #[trigger] is_first_at(uri@, "://"@, i) && r@ == host_part(uri@, i),
{
    match find(uri, "://") {
        Some(k) => {
            proof {
                reveal_strlit("://");
            }
            let x = chars_of(uri);
            let n: usize = x.len();
            assert(k + 3 <= n);
            let from: usize = k + 3;
            let mut end: usize = from;
            while end < x.len() && x[end] != '/'
                invariant
                    from <= end <= x@.len(),
                    x@ == uri@,
                    next_pos(uri@, '/', from as int) == next_pos(uri@, '/', end as int),
                decreases x@.len() - end,
            {
                end += 1;
            }
            assert(is_first_at(uri@, "://"@, Some(k as int)));
            string_of(&x, from, end)
        },
        None => {
            assert(is_first_at(uri@, "://"@, None));
            head_chars(uri, 64)
        },
    }
}

/// The first position of a text is unique, and so is the host.
pub proof fn lemma_first_at_unique(s: Seq<char>, p: Seq<char>, a: Option<int>, b: Option<int>)
    requires
        is_first_at(s, p, a),
        is_first_at(s, p, b),
    ensures
        a == b,
{
}

/// The shapes of a video placeholder.
#[derive(Debug)]
pub struct VideoThumb {
    pub frame: Rect,
    pub disc: Rect,
    /// The columns of the triangle, from left to right.
    pub columns: Vec<Rect>,
}

/// Column `i` of the triangle around `(cx, cy)`.
pub open spec fn triangle_column(cx: int, cy: int, i: int) -> Rect {
    Rect {
        x: (cx - 6 + i) as i32,
        y: (cy - (12 - i)) as i32,
        w: 1,
        h: ((12 - i) * 2) as i32,
    }
}

/// The shapes of a video placeholder at `(x, y)`: a frame, a disc in its
/// middle, and a triangle that tapers to the right.
pub fn video_thumb(x: i32, y: i32) -> (r: VideoThumb)
    requires
        -MAX_CONTENT_H <= x <= MAX_CONTENT_H,
        -MAX_CONTENT_H <= y <= MAX_CONTENT_H,
    ensures
        r.frame == (Rect { x, y, w: VIDEO_PLACEHOLDER_W, h: VIDEO_PLACEHOLDER_H }),
        r.disc == (Rect { x: (x + 38) as i32, y: (y + 18) as i32, w: 24, h: 24 }),
        r.columns@ == Seq::new(12, |i: int| triangle_column(x + 50, y + 30, i)),
{
    let glyph: i32 = 24;
    let cx: i32 = x + VIDEO_PLACEHOLDER_W / 2;
    let cy: i32 = y + VIDEO_PLACEHOLDER_H / 2;
    let half: i32 = glyph / 2;
    let mut columns: Vec<Rect> = Vec::new();
    let mut i: i32 = 0;
    while i < 12
        invariant
            0 <= i <= 12,
            cx == x + 50,
            cy == y + 30,
            -MAX_CONTENT_H <= x <= MAX_CONTENT_H,
            -MAX_CONTENT_H <= y <= MAX_CONTENT_H,
            columns@ == Seq::new(i as nat, |k: int| triangle_column(x + 50, y + 30, k)),
        decreases 12 - i,
    {
        let bw: i32 = (12 - i) * 2;
        columns.push(Rect::new(cx - 6 + i, cy - bw / 2, 1, bw));
        assert(columns@ =~= Seq::new((i + 1) as nat, |k: int| triangle_column(x + 50, y + 30, k)));
        i += 1;
    }
    VideoThumb {
        frame: Rect::new(x, y, VIDEO_PLACEHOLDER_W, VIDEO_PLACEHOLDER_H),
        disc: Rect::new(cx - half, cy - half, glyph, glyph),
        columns,
    }
}

/// What is told of a quoted post that is gone.
pub open spec fn unavailable_told(r: String) -> bool {
    r@ == "Post unavailable"@
}

/// What is said in place of a quote that cannot be shown.
pub fn unavailable_text() -> (r: String)
    ensures
        unavailable_told(r),
{
    owned("Post unavailable")
}

/// Every picture of a group that is drawn is also asked for, under the same
/// address.
pub proof fn lemma_drawn_images_are_fetched(images: Seq<ImageView>, v: Seq<ViewerImage>, i: int)
    requires
        v.len() == cells_shown(images.len() as int),
        forall|k: int| 0 <= k < v.len() ==> viewer_image_of(#[trigger] v[k], images[k]),
        0 <= i < v.len(),
    ensures
        thumb_urls(images).contains(v[i].thumb@),
{
    assert(viewer_image_of(v[i], images[i]));
    assert(thumb_urls(images)[i] == v[i].thumb@);
}

/// The pictures of a group do not overlap: no point lies in two of them.
pub proof fn lemma_cells_disjoint(images: Seq<ImageView>, i: int, j: int, x: int, y: int)
    requires
        0 <= i < j < cells_shown(images.len() as int),
        -MAX_CONTENT_H <= x <= MAX_CONTENT_H,
        -MAX_CONTENT_H <= y <= MAX_CONTENT_H,
    ensures
        forall|px: int, py: int|
            !(crate::widget::inside(cell_rect(images, i, x, y), px, py) && crate::widget::inside(
                cell_rect(images, j, x, y),
                px,
                py,
            )),
{
}

} // verus!
