//! A draft: one post or a thread of posts, each with its text and pictures;
//! and how a picture is made ready for upload.

use vstd::prelude::*;

use crate::requests::{ComposedImage, ThreadSegment};
use crate::text::{chars_of, ends_with, owned, same_text, to_ascii_lower};
#[allow(unused_imports)]
use crate::text::{ascii_lowered, has_suffix};

verus! {

/// The most characters a post may have.
pub const POST_LIMIT: usize = 300;

/// The most pictures a post may have.
pub const MAX_IMAGES: usize = 4;

/// The most posts a thread may have.
pub const MAX_SEGMENTS: usize = 25;

/// The most bytes a picture may have.
pub const MAX_UPLOAD_BYTES: usize = 1_000_000;

/// The longest edge of a picture that has to be made smaller.
pub const DOWNSCALE_EDGE: u32 = 1600;

// ── Pictures ───────────────────────────────────────────────────────────

/// A picture of a draft. It has no bytes while it is being read.
#[derive(Debug)]
pub struct Attachment {
    /// The file it is read from; a made-up name for a photograph.
    pub key: String,
    pub bytes: Option<Vec<u8>>,
    pub mime: String,
    pub alt: String,
    /// It could be decoded, so that a small one can be shown.
    pub previewed: bool,
}

impl Attachment {
    /// It has been read.
    pub open spec fn is_loaded(&self) -> bool {
        self.bytes is Some
    }

    /// Whether it has been read.
    pub fn loaded(&self) -> (r: bool)
        ensures
            r == self.is_loaded(),
    {
        self.bytes.is_some()
    }
}

/// A picture that was made ready for upload.
#[derive(Debug)]
pub struct PreparedImage {
    pub bytes: Vec<u8>,
    pub mime: String,
    pub previewed: bool,
}

/// The type of a picture, by the ending of its path.
pub open spec fn mime_of(path: Seq<char>) -> Seq<char> {
    if has_suffix(ascii_lowered(path), ".png"@) {
        "image/png"@
    } else {
        "image/jpeg"@
    }
}

/// The type of a picture, by the ending of its path.
pub fn mime_from_path(path: &str) -> (r: String)
    ensures
        r@ == mime_of(path@),
{
    let l = to_ascii_lower(path);
    if ends_with(l.as_str(), ".png") {
        owned("image/png")
    } else {
        owned("image/jpeg")
    }
}

/// The next step on the way to an upload.
#[derive(Copy, Clone, Debug, PartialEq, Eq, Structural)]
pub enum FitStep {
    /// Upload the bytes as they are.
    Raw,
    /// Decode them, and make the picture smaller.
    Decode,
    /// Encode the smaller picture this well.
    Encode { quality: u8 },
    /// Upload what was encoded last.
    Encoded,
}

/// What is tried when an encoding is too large or fails: the next lower
/// quality, and in the end the bytes as they are.
pub open spec fn worse(quality: u8) -> FitStep {
    if quality > 70 {
        FitStep::Encode { quality: 70 }
    } else if quality > 55 {
        FitStep::Encode { quality: 55 }
    } else {
        FitStep::Raw
    }
}

/// An encoding is good enough: it is small, or there is no lower quality.
pub open spec fn good_enough(quality: u8, size: int) -> bool {
    size <= MAX_UPLOAD_BYTES || quality == 55
}

/// The first step for a file of this many bytes.
pub open spec fn first_step(size: int) -> FitStep {
    if size <= MAX_UPLOAD_BYTES {
        FitStep::Raw
    } else {
        FitStep::Decode
    }
}

/// The step after decoding.
pub open spec fn decoded_step(decoded: bool) -> FitStep {
    if decoded {
        FitStep::Encode { quality: 85 }
    } else {
        FitStep::Raw
    }
}

/// The step after encoding.
pub open spec fn encoded_step(quality: u8, size: Option<usize>) -> FitStep {
    match size {
        Some(n) => if good_enough(quality, n as int) {
            FitStep::Encoded
        } else {
            worse(quality)
        },
        None => worse(quality),
    }
}

/// The bytes and the type that are uploaded.
pub open spec fn uploaded_as(
    raw: Vec<u8>,
    path: Seq<char>,
    encoded: Option<Vec<u8>>,
    r: (Vec<u8>, String),
) -> bool {
    match encoded {
        Some(jpeg) => r.0 == jpeg && r.1@ == "image/jpeg"@,
        None => r.0 == raw && r.1@ == mime_of(path),
    }
}

/// The first step for a file of this many bytes: a small one stays as it is.
pub fn fit_start(size: usize) -> (r: FitStep)
    ensures
        r == first_step(size as int),
{
    if size <= MAX_UPLOAD_BYTES {
        FitStep::Raw
    } else {
        FitStep::Decode
    }
}

/// The step after decoding. A file that cannot be decoded stays as it is.
pub fn fit_decoded(decoded: bool) -> (r: FitStep)
    ensures
        r == decoded_step(decoded),
{
    if decoded {
        FitStep::Encode { quality: 85 }
    } else {
        FitStep::Raw
    }
}

/// The step after encoding, which gave this many bytes or failed.
pub fn fit_encoded(quality: u8, size: Option<usize>) -> (r: FitStep)
    ensures
        r == encoded_step(quality, size),
{
    match size {
        Some(n) => {
            if n <= MAX_UPLOAD_BYTES || quality == 55 {
                return FitStep::Encoded;
            }
        },
        None => {},
    }
    if quality > 70 {
        FitStep::Encode { quality: 70 }
    } else if quality > 55 {
        FitStep::Encode { quality: 55 }
    } else {
        FitStep::Raw
    }
}

/// What is uploaded: what was encoded, or else the file as it is, with its
/// type.
pub fn fit_for_upload(raw: Vec<u8>, path: &str, encoded: Option<Vec<u8>>) -> (r: (Vec<u8>, String))
    ensures
        uploaded_as(raw, path@, encoded, r),
{
    match encoded {
        Some(jpeg) => (jpeg, owned("image/jpeg")),
        None => {
            let mime = mime_from_path(path);
            (raw, mime)
        },
    }
}

/// Whatever the encoder gives for each quality (`None` where it fails), making
/// a picture smaller ends: with what was encoded, which is small unless the
/// lowest quality was needed, or with the file as it is.
pub open spec fn fit_end(sizes: spec_fn(u8) -> Option<usize>, quality: u8) -> (FitStep, u8)
    decreases quality,
{
    let next = encoded_step(quality, sizes(quality));
    match next {
        FitStep::Encode { quality: q } => if q < quality {
            fit_end(sizes, q)
        } else {
            (next, quality)
        },
        _ => (next, quality),
    }
}

/// Trying lower and lower qualities ends, with an encoding that is small or of
/// the lowest quality, or with the file as it is.
pub proof fn lemma_fit_ends(sizes: spec_fn(u8) -> Option<usize>)
    ensures
        ({
            let (step, quality) = fit_end(sizes, 85);
            ||| step == FitStep::Raw
            ||| step == FitStep::Encoded && sizes(quality) is Some && good_enough(
                quality,
                sizes(quality)->0 as int,
            )
        }),
{
    reveal_with_fuel(fit_end, 4);
}

// ── Posts ──────────────────────────────────────────────────────────────

/// One post of a draft.
#[derive(Debug)]
pub struct Segment {
    pub text: String,
    pub attachments: Vec<Attachment>,
}

impl Segment {
    /// Every picture has been read.
    pub open spec fn all_loaded(&self) -> bool {
        forall|i: int|
            0 <= i < self.attachments@.len() ==> (#[trigger] self.attachments@[i]).is_loaded()
    }

    /// It can be posted: it has a text that is not too long, or pictures, and
    /// every picture has been read.
    pub open spec fn postable(&self) -> bool {
        &&& self.text@.len() <= POST_LIMIT
        &&& self.text@.len() > 0 || self.attachments@.len() > 0
        &&& self.all_loaded()
    }

    /// An empty post.
    pub fn new() -> (r: Segment)
        ensures
            r.text@.len() == 0,
            r.attachments@.len() == 0,
    {
        Segment { text: String::new(), attachments: Vec::new() }
    }

    /// Whether it can be posted.
    pub fn valid(&self) -> (r: bool)
        ensures
            r == self.postable(),
    {
        let n: usize = chars_of(self.text.as_str()).len();
        if n > POST_LIMIT || (n == 0 && self.attachments.len() == 0) {
            return false;
        }
        let mut i: usize = 0;
        while i < self.attachments.len()
            invariant
                i <= self.attachments@.len(),
                forall|k: int| 0 <= k < i ==> (#[trigger] self.attachments@[k]).is_loaded(),
            decreases self.attachments@.len() - i,
        {
            if !self.attachments[i].loaded() {
                assert(!self.attachments@[i as int].is_loaded());
                return false;
            }
            i += 1;
        }
        true
    }
}

/// A draft: its posts, and the one that is being written.
pub struct Draft {
    pub segments: Vec<Segment>,
    pub current: usize,
}

/// The two threads differ in the post at `at` alone.
pub open spec fn others_kept(a: Seq<Segment>, b: Seq<Segment>, at: int) -> bool {
    &&& a.len() == b.len()
    &&& forall|i: int| 0 <= i < a.len() && i != at ==> #[trigger] b[i] == a[i]
}

/// The first picture from `from` on that is being read from `key`; their
/// number where there is none.
pub open spec fn reading_in(atts: Seq<Attachment>, key: Seq<char>, from: int) -> int
    decreases atts.len() - from,
{
    if from >= atts.len() {
        atts.len() as int
    } else if !atts[from].is_loaded() && atts[from].key@ == key {
        from
    } else {
        reading_in(atts, key, from + 1)
    }
}

/// The first picture of any post from `from` on that is being read from `key`.
pub open spec fn reading_at(segs: Seq<Segment>, key: Seq<char>, from: int) -> Option<(int, int)>
    decreases segs.len() - from,
{
    if from >= segs.len() {
        None
    } else {
        let i = reading_in(segs[from].attachments@, key, 0);
        if i < segs[from].attachments@.len() {
            Some((from, i))
        } else {
            reading_at(segs, key, from + 1)
        }
    }
}

/// What is sent for a post: its text, and each picture with its bytes.
pub open spec fn segment_sent(s: Segment, t: ThreadSegment) -> bool {
    &&& t.text == s.text
    &&& t.images@.len() == s.attachments@.len()
    &&& forall|i: int|
        0 <= i < s.attachments@.len() ==> {
            &&& (#[trigger] t.images@[i]).bytes@ == s.attachments@[i].bytes->0@
            &&& t.images@[i].mime == s.attachments@[i].mime
            &&& t.images@[i].alt == s.attachments@[i].alt
        }
}

/// What is sent for a thread: its posts in order.
pub open spec fn thread_sent(segs: Seq<Segment>, sent: Seq<ThreadSegment>) -> bool {
    &&& sent.len() == segs.len()
    &&& forall|i: int| 0 <= i < segs.len() ==> segment_sent(segs[i], #[trigger] sent[i])
}

fn send_segment(s: &Segment) -> (r: ThreadSegment)
    requires
        s.all_loaded(),
    ensures
        segment_sent(*s, r),
{
    let mut images: Vec<ComposedImage> = Vec::new();
    let mut i: usize = 0;
    while i < s.attachments.len()
        invariant
            i <= s.attachments@.len(),
            s.all_loaded(),
            images@.len() == i,
            forall|k: int|
                0 <= k < i ==> {
                    &&& (#[trigger] images@[k]).bytes@ == s.attachments@[k].bytes->0@
                    &&& images@[k].mime == s.attachments@[k].mime
                    &&& images@[k].alt == s.attachments@[k].alt
                },
        decreases s.attachments@.len() - i,
    {
        let a = &s.attachments[i];
        assert(s.attachments@[i as int].is_loaded());
        match &a.bytes {
            Some(b) => {
                let bytes = b.clone();
                assert(bytes@ =~= b@);
                images.push(ComposedImage { bytes, mime: a.mime.clone(), alt: a.alt.clone() });
            },
            None => {},
        }
        i += 1;
    }
    ThreadSegment { text: s.text.clone(), images }
}

impl Draft {
    /// There is a post, not too many of them, the one being written is one of
    /// them, and none has too many pictures.
    pub open spec fn wf(&self) -> bool {
        &&& 1 <= self.segments@.len() <= MAX_SEGMENTS
        &&& self.current < self.segments@.len()
        &&& forall|i: int|
            0 <= i < self.segments@.len() ==> (#[trigger] self.segments@[i]).attachments@.len()
                <= MAX_IMAGES
    }

    /// The post that is being written.
    pub open spec fn at(&self) -> Segment {
        self.segments@[self.current as int]
    }

    /// Every post can be posted.
    pub open spec fn ready(&self) -> bool {
        forall|i: int| 0 <= i < self.segments@.len() ==> (#[trigger] self.segments@[i]).postable()
    }

    /// A draft of one empty post.
    pub fn new() -> (r: Draft)
        ensures
            r.wf(),
            r.current == 0,
            r.segments@.len() == 1,
            r.segments@[0].text@.len() == 0,
            r.segments@[0].attachments@.len() == 0,
    {
        let mut segments: Vec<Segment> = Vec::new();
        segments.push(Segment::new());
        Draft { segments, current: 0 }
    }

    /// The number of characters of the post that is being written.
    pub fn char_count(&self) -> (r: usize)
        requires
            self.wf(),
        ensures
            r == self.at().text@.len(),
    {
        chars_of(self.segments[self.current].text.as_str()).len()
    }

    /// Whether every post can be posted.
    pub fn all_valid(&self) -> (r: bool)
        ensures
            r == self.ready(),
    {
        let mut i: usize = 0;
        while i < self.segments.len()
            invariant
                i <= self.segments@.len(),
                forall|k: int| 0 <= k < i ==> (#[trigger] self.segments@[k]).postable(),
            decreases self.segments@.len() - i,
        {
            if !self.segments[i].valid() {
                assert(!self.segments@[i as int].postable());
                return false;
            }
            i += 1;
        }
        true
    }

    /// What is sent for the draft.
    pub fn thread_segments(&self) -> (r: Vec<ThreadSegment>)
        requires
            self.ready(),
        ensures
            thread_sent(self.segments@, r@),
    {
        let mut r: Vec<ThreadSegment> = Vec::new();
        let mut i: usize = 0;
        while i < self.segments.len()
            invariant
                i <= self.segments@.len(),
                self.ready(),
                r@.len() == i,
                forall|k: int| 0 <= k < i ==> segment_sent(self.segments@[k], #[trigger] r@[k]),
            decreases self.segments@.len() - i,
        {
            assert(self.segments@[i as int].postable());
            r.push(send_segment(&self.segments[i]));
            i += 1;
        }
        r
    }

    /// Writes on at another post, or at the last one where there is none there.
    pub fn switch_segment(&mut self, to: usize)
        requires
            old(self).wf(),
        ensures
            final(self).wf(),
            *final(self) == (Draft {
                current: if to < old(self).segments@.len() {
                    to
                } else {
                    (old(self).segments@.len() - 1) as usize
                },
                ..*old(self)
            }),
    {
        let n: usize = self.segments.len();
        self.current = if to < n {
            to
        } else {
            n - 1
        };
    }

    /// Adds an empty post at the end and writes on there.
    pub fn add_segment(&mut self)
        requires
            old(self).wf(),
            old(self).segments@.len() < MAX_SEGMENTS,
        ensures
            final(self).wf(),
            final(self).segments@.len() == old(self).segments@.len() + 1,
            final(self).segments@.drop_last() == old(self).segments@,
            final(self).current == old(self).segments@.len(),
            final(self).at().text@.len() == 0,
            final(self).at().attachments@.len() == 0,
    {
        let n: usize = self.segments.len();
        self.segments.push(Segment::new());
        assert(self.segments@.drop_last() =~= old(self).segments@);
        self.current = n;
    }

    /// Drops the post that is being written, unless it is the only one.
    pub fn remove_current_segment(&mut self)
        requires
            old(self).wf(),
        ensures
            final(self).wf(),
            if old(self).segments@.len() > 1 {
                &&& final(self).segments@ == old(self).segments@.remove(old(self).current as int)
                &&& final(self).current == (if old(self).current < old(self).segments@.len() - 1 {
                    old(self).current as int
                } else {
                    old(self).segments@.len() - 2
                })
            } else {
                *final(self) == *old(self)
            },
    {
        if self.segments.len() <= 1 {
            return;
        }
        let _ = self.segments.remove(self.current);
        if self.current >= self.segments.len() {
            self.current = self.segments.len() - 1;
        }
    }

    /// Replaces the text of the post that is being written.
    pub fn set_text(&mut self, text: String)
        requires
            old(self).wf(),
        ensures
            final(self).wf(),
            final(self).segments@ == old(self).segments@.update(
                old(self).current as int,
                Segment { text, ..old(self).at() },
            ),
            final(self).current == old(self).current,
    {
        let c: usize = self.current;
        self.segments[c].text = text;
    }

    /// Replaces the description of a picture, where there is one.
    pub fn set_alt(&mut self, i: usize, alt: String)
        requires
            old(self).wf(),
        ensures
            final(self).wf(),
            final(self).current == old(self).current,
            others_kept(
                old(self).segments@,
                final(self).segments@,
                old(self).current as int,
            ),
            final(self).at().text == old(self).at().text,
            final(self).at().attachments@ == (if i < old(self).at().attachments@.len() {
                old(self).at().attachments@.update(
                    i as int,
                    Attachment { alt, ..old(self).at().attachments@[i as int] },
                )
            } else {
                old(self).at().attachments@
            }),
    {
        let c: usize = self.current;
        if i < self.segments[c].attachments.len() {
            self.segments[c].attachments[i].alt = alt;
        }
    }

    /// Attaches a picture to the post that is being written, where it can have
    /// another one.
    pub fn attach(&mut self, a: Attachment) -> (r: bool)
        requires
            old(self).wf(),
        ensures
            final(self).wf(),
            r == (old(self).at().attachments@.len() < MAX_IMAGES),
            final(self).current == old(self).current,
            others_kept(
                old(self).segments@,
                final(self).segments@,
                old(self).current as int,
            ),
            final(self).at().text == old(self).at().text,
            final(self).at().attachments@ == (if r {
                old(self).at().attachments@.push(a)
            } else {
                old(self).at().attachments@
            }),
    {
        let c: usize = self.current;
        if self.segments[c].attachments.len() >= MAX_IMAGES {
            return false;
        }
        self.segments[c].attachments.push(a);
        true
    }

    /// Drops a picture of the post that is being written, where there is one.
    pub fn detach(&mut self, i: usize)
        requires
            old(self).wf(),
        ensures
            final(self).wf(),
            final(self).current == old(self).current,
            others_kept(
                old(self).segments@,
                final(self).segments@,
                old(self).current as int,
            ),
            final(self).at().text == old(self).at().text,
            final(self).at().attachments@ == (if i < old(self).at().attachments@.len() {
                old(self).at().attachments@.remove(i as int)
            } else {
                old(self).at().attachments@
            }),
    {
        let c: usize = self.current;
        if i < self.segments[c].attachments.len() {
            let _ = self.segments[c].attachments.remove(i);
        }
    }

    /// The picture that is being read from a file, in any post.
    pub fn find_reading(&self, key: &str) -> (r: Option<(usize, usize)>)
        ensures
            match r {
                Some(p) => reading_at(self.segments@, key@, 0) == Some((p.0 as int, p.1 as int))
                    && p.0 < self.segments@.len() && p.1
                    < self.segments@[p.0 as int].attachments@.len(),
                None => reading_at(self.segments@, key@, 0) is None,
            },
    {
        let mut s: usize = 0;
        while s < self.segments.len()
            invariant
                s <= self.segments@.len(),
                reading_at(self.segments@, key@, 0) == reading_at(self.segments@, key@, s as int),
            decreases self.segments@.len() - s,
        {
            let atts = &self.segments[s].attachments;
            let mut i: usize = 0;
            while i < atts.len()
                invariant
                    i <= atts@.len(),
                    s < self.segments@.len(),
                    atts == self.segments@[s as int].attachments,
                    reading_in(atts@, key@, 0) == reading_in(atts@, key@, i as int),
                    reading_at(self.segments@, key@, 0) == reading_at(
                        self.segments@,
                        key@,
                        s as int,
                    ),
                decreases atts@.len() - i,
            {
                if !atts[i].loaded() && same_text(atts[i].key.as_str(), key) {
                    return Some((s, i));
                }
                i += 1;
            }
            s += 1;
        }
        None
    }

    /// Takes a picture that was read from a file. It goes to the first one
    /// that waits for that file, in any post.
    pub fn take_image(&mut self, key: &str, image: PreparedImage)
        requires
            old(self).wf(),
        ensures
            final(self).wf(),
            final(self).current == old(self).current,
            image_taken(old(self).segments@, final(self).segments@, key@, image),
    {
        match self.find_reading(key) {
            Some((s, i)) => {
                self.segments[s].attachments[i].bytes = Some(image.bytes);
                self.segments[s].attachments[i].mime = image.mime;
                self.segments[s].attachments[i].previewed = image.previewed;
                assert(self.segments@[s as int].attachments@ =~= old(
                    self,
                ).segments@[s as int].attachments@.update(
                    i as int,
                    Attachment {
                        bytes: Some(image.bytes),
                        mime: image.mime,
                        previewed: image.previewed,
                        ..old(self).segments@[s as int].attachments@[i as int]
                    },
                ));
            },
            None => {},
        }
    }
}

/// What a picture that was read makes of a thread.
pub open spec fn image_taken(
    a: Seq<Segment>,
    b: Seq<Segment>,
    key: Seq<char>,
    image: PreparedImage,
) -> bool {
    match reading_at(a, key, 0) {
        Some(p) => {
            &&& others_kept(a, b, p.0)
            &&& b[p.0].text == a[p.0].text
            &&& b[p.0].attachments@ == a[p.0].attachments@.update(
                p.1,
                Attachment {
                    bytes: Some(image.bytes),
                    mime: image.mime,
                    previewed: image.previewed,
                    ..a[p.0].attachments@[p.1]
                },
            )
        },
        None => b == a,
    }
}

/// An empty draft cannot be posted.
pub proof fn lemma_empty_draft_not_ready(d: Draft)
    requires
        d.wf(),
        d.at().text@.len() == 0,
        d.at().attachments@.len() == 0,
    ensures
        !d.ready(),
{
    assert(!d.segments@[d.current as int].postable());
}

/// What is sent never exceeds the limits: at most 25 posts of at most 300
/// characters and four pictures each, and none of them empty.
pub proof fn lemma_sent_within_limits(d: Draft, sent: Seq<ThreadSegment>, i: int)
    requires
        d.wf(),
        d.ready(),
        thread_sent(d.segments@, sent),
        0 <= i < sent.len(),
    ensures
        1 <= sent.len() <= MAX_SEGMENTS,
        sent[i].text@.len() <= POST_LIMIT,
        sent[i].images@.len() <= MAX_IMAGES,
        sent[i].text@.len() > 0 || sent[i].images@.len() > 0,
{
    assert(d.segments@[i].postable());
    assert(segment_sent(d.segments@[i], sent[i]));
}

/// Adding a post and dropping it again leaves the posts as they were.
pub proof fn lemma_add_then_remove(a: Seq<Segment>, b: Seq<Segment>)
    requires
        b.len() == a.len() + 1,
        b.drop_last() == a,
    ensures
        b.remove(b.len() - 1) == a,
{
    assert(b.remove(b.len() - 1) =~= b.drop_last());
}

} // verus!
