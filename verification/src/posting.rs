//! Posting a thread: one post after the other, each with its pictures.

use vstd::prelude::*;

use crate::atproto::time_text;
use crate::identifiers::{parse_account, parse_cid};
#[allow(unused_imports)]
use crate::identifiers::{account_problem, hash_read};
use crate::records::{create_one_post, NewRecord, PostRef, UploadedImage};
#[allow(unused_imports)]
use crate::records::{new_view, post_record};
use crate::requests::{ReplyTarget, ThreadSegment, WorkResponse};
use crate::text::{decimal_text, join2, join3, owned};
#[allow(unused_imports)]
use crate::text::{decimal, opt_view};

verus! {

/// What is to be done next for a thread.
#[derive(Debug)]
pub enum PostStep {
    /// Upload the picture that `picture` gives.
    Upload,
    /// Write this record.
    Write(NewRecord),
    /// There is nothing left to do; this is the answer.
    Answer(WorkResponse),
}

/// A thread while it is posted.
#[derive(Debug)]
pub struct ThreadPoster {
    pub repo: String,
    pub segments: Vec<ThreadSegment>,
    /// The root and the post above, where the whole thread is a reply.
    pub above: Option<(PostRef, PostRef)>,
    /// The posts made so far.
    pub made: Vec<PostRef>,
    /// The pictures of the next post that were uploaded so far.
    pub uploaded: Vec<UploadedImage>,
}

/// The place of the next post: the root of its thread and the post above. All
/// posts share one root; each replies to the one before.
pub open spec fn place_of(above: Option<(PostRef, PostRef)>, made: Seq<PostRef>) -> Option<
    (PostRef, PostRef),
> {
    if made.len() == 0 {
        above
    } else {
        match above {
            Some(a) => Some((a.0, made.last())),
            None => Some((made[0], made.last())),
        }
    }
}

/// What is said where the post after `made` others could not be made.
pub open spec fn failure(made: nat, total: nat, e: Seq<char>) -> Seq<char> {
    if made == 0 {
        e
    } else {
        "posted "@ + decimal(made) + "/"@ + decimal(total) + ", then failed: "@ + e
    }
}

/// Why a thread cannot be begun; nothing where it can.
pub open spec fn start_problem(
    segments: Seq<ThreadSegment>,
    reply_to: Option<ReplyTarget>,
    session: Option<Seq<char>>,
) -> Option<Seq<char>> {
    if segments.len() == 0 {
        Some("empty thread"@)
    } else {
        match session {
            None => Some("not logged in"@),
            Some(me) => match account_problem(me) {
                Some(e) => Some("DID parse: "@ + e),
                None => match reply_to {
                    None => None,
                    Some(t) => match hash_read(t.root_cid@) {
                        Err(e) => Some("root cid: "@ + e),
                        Ok(_) => match hash_read(t.parent_cid@) {
                            Err(e) => Some("parent cid: "@ + e),
                            Ok(_) => None,
                        },
                    },
                },
            },
        }
    }
}

/// The place that a reply target stands for.
pub open spec fn is_place(above: Option<(PostRef, PostRef)>, reply_to: Option<ReplyTarget>) -> bool {
    match reply_to {
        None => above is None,
        Some(t) => match above {
            None => false,
            Some(a) => {
                &&& a.0.uri == t.root_uri
                &&& hash_read(t.root_cid@) == Ok::<Seq<char>, Seq<char>>(a.0.cid@)
                &&& a.1.uri == t.parent_uri
                &&& hash_read(t.parent_cid@) == Ok::<Seq<char>, Seq<char>>(a.1.cid@)
            },
        },
    }
}

/// How a thread begins: with nothing made of it, or with the answer where it
/// cannot.
pub open spec fn begun(
    segments: Vec<ThreadSegment>,
    reply_to: Option<ReplyTarget>,
    session: Option<Seq<char>>,
    r: Result<ThreadPoster, WorkResponse>,
) -> bool {
    match r {
        Ok(p) => {
            &&& start_problem(segments@, reply_to, session) is None
            &&& p.wf()
            &&& p.segments == segments
            &&& session == Some(p.repo@)
            &&& is_place(p.above, reply_to)
            &&& p.made@ == Seq::<PostRef>::empty()
            &&& p.uploaded@ == Seq::<UploadedImage>::empty()
        },
        Err(w) => match w {
            WorkResponse::PostCreated(Err(e)) => start_problem(segments@, reply_to, session)
                == Some(e@),
            _ => false,
        },
    }
}

/// What became of an upload: the picture is behind those uploaded before it,
/// with its description; where it failed, the answer tells so.
pub open spec fn upload_taken(
    a: ThreadPoster,
    b: ThreadPoster,
    result: Result<String, String>,
    r: Option<WorkResponse>,
) -> bool {
    &&& b == (ThreadPoster { uploaded: b.uploaded, ..a })
    &&& match result {
        Ok(blob) => {
            &&& r is None
            &&& b.uploaded@.len() == a.uploaded@.len() + 1
            &&& b.uploaded@.drop_last() == a.uploaded@
            &&& b.uploaded@.last().blob == blob
            &&& b.uploaded@.last().alt
                == a.segments@[a.made@.len() as int].images@[a.uploaded@.len() as int].alt
        },
        Err(e) => {
            &&& b.uploaded == a.uploaded
            &&& r matches Some(WorkResponse::PostCreated(Err(m)))
            &&& m@ == failure(a.made@.len(), a.segments@.len(), "uploadBlob: "@ + e@)
        },
    }
}

/// What became of a post that was written: it is made, and the next one has no
/// pictures yet; where it failed, the answer tells so.
pub open spec fn write_taken(
    a: ThreadPoster,
    b: ThreadPoster,
    result: Result<PostRef, String>,
    r: Option<WorkResponse>,
) -> bool {
    match result {
        Ok(post) => {
            &&& r is None
            &&& b == (ThreadPoster { made: b.made, uploaded: b.uploaded, ..a })
            &&& b.made@ == a.made@.push(post)
            &&& b.uploaded@ == Seq::<UploadedImage>::empty()
        },
        Err(e) => {
            &&& b == a
            &&& r matches Some(WorkResponse::PostCreated(Err(m)))
            &&& m@ == failure(a.made@.len(), a.segments@.len(), e@)
        },
    }
}

impl ThreadPoster {
    /// No more was made than there is to make, nor uploaded than there is to
    /// upload.
    pub open spec fn wf(self) -> bool {
        &&& self.segments@.len() > 0
        &&& self.made@.len() <= self.segments@.len()
        &&& self.made@.len() < self.segments@.len() ==> self.uploaded@.len()
            <= self.segments@[self.made@.len() as int].images@.len()
    }

    /// Whether a picture is to be uploaded next.
    pub open spec fn wants_upload(self) -> bool {
        &&& self.made@.len() < self.segments@.len()
        &&& self.uploaded@.len() < self.segments@[self.made@.len() as int].images@.len()
    }

    /// Whether a post is to be written next.
    pub open spec fn wants_write(self) -> bool {
        &&& self.made@.len() < self.segments@.len()
        &&& self.uploaded@.len() == self.segments@[self.made@.len() as int].images@.len()
    }

    /// What is to be done next, at a time.
    pub open spec fn is_next(self, at: Seq<char>, r: PostStep) -> bool {
        if self.made@.len() == self.segments@.len() {
            r matches PostStep::Answer(WorkResponse::PostCreated(Ok(u))) && u@
                == self.made@[0].uri@
        } else if self.wants_upload() {
            r is Upload
        } else {
            let record = post_record(
                self.repo@,
                self.segments@[self.made@.len() as int].text@,
                place_of(self.above, self.made@),
                self.uploaded@,
                at,
            );
            match r {
                PostStep::Write(n) => record == new_view(Ok(n)),
                PostStep::Answer(WorkResponse::PostCreated(Err(m))) => {
                    &&& record is Err
                    &&& m@ == failure(self.made@.len(), self.segments@.len(), record->Err_0)
                },
                _ => false,
            }
        }
    }

    /// Begins a thread of the account that is logged in.
    pub fn start(
        segments: Vec<ThreadSegment>,
        reply_to: Option<ReplyTarget>,
        session: &Option<String>,
    ) -> (r: Result<ThreadPoster, WorkResponse>)
        ensures
            begun(segments, reply_to, opt_view(*session), r),
    {
        if segments.len() == 0 {
            return Err(WorkResponse::PostCreated(Err(owned("empty thread"))));
        }
        let me = match session {
            Some(d) => d,
            None => {
                return Err(WorkResponse::PostCreated(Err(owned("not logged in"))));
            },
        };
        let repo = match parse_account(me.as_str()) {
            Ok(a) => a,
            Err(e) => {
                return Err(WorkResponse::PostCreated(Err(join2("DID parse: ", e.as_str()))));
            },
        };
        let above = match reply_to {
            None => None,
            Some(t) => {
                let root = match parse_cid(t.root_cid.as_str()) {
                    Ok(c) => c,
                    Err(e) => {
                        return Err(
                            WorkResponse::PostCreated(Err(join2("root cid: ", e.as_str()))),
                        );
                    },
                };
                let parent = match parse_cid(t.parent_cid.as_str()) {
                    Ok(c) => c,
                    Err(e) => {
                        return Err(
                            WorkResponse::PostCreated(Err(join2("parent cid: ", e.as_str()))),
                        );
                    },
                };
                Some(
                    (
                        PostRef { uri: t.root_uri, cid: root },
                        PostRef { uri: t.parent_uri, cid: parent },
                    ),
                )
            },
        };
        Ok(ThreadPoster { repo, segments, above, made: Vec::new(), uploaded: Vec::new() })
    }

    /// The place of the next post.
    pub fn place(&self) -> (r: Option<(PostRef, PostRef)>)
        ensures
            r == place_of(self.above, self.made@),
    {
        let n: usize = self.made.len();
        if n == 0 {
            match &self.above {
                None => None,
                Some((root, parent)) => Some((root.clone(), parent.clone())),
            }
        } else {
            let root = match &self.above {
                Some((root, _)) => root.clone(),
                None => self.made[0].clone(),
            };
            Some((root, self.made[n - 1].clone()))
        }
    }

    fn failed(&self, e: String) -> (r: WorkResponse)
        ensures
            match r {
                WorkResponse::PostCreated(Err(m)) => m@ == failure(
                    self.made@.len(),
                    self.segments@.len(),
                    e@,
                ),
                _ => false,
            },
    {
        let made: usize = self.made.len();
        let total: usize = self.segments.len();
        if made == 0 {
            WorkResponse::PostCreated(Err(e))
        } else {
            let made = decimal_text(made as u64);
            let total = decimal_text(total as u64);
            let head = join3("posted ", made.as_str(), "/");
            let head = join3(head.as_str(), total.as_str(), ", then failed: ");
            let m = join2(head.as_str(), e.as_str());
            WorkResponse::PostCreated(Err(m))
        }
    }

    /// What is to be done next. `at` is the time that a post written now bears.
    /// Where all posts are made, the answer is the address of the first one.
    pub fn next(&self, at: &str) -> (r: PostStep)
        requires
            self.wf(),
        ensures
            self.is_next(at@, r),
    {
        let i: usize = self.made.len();
        if i == self.segments.len() {
            return PostStep::Answer(WorkResponse::PostCreated(Ok(self.made[0].uri.clone())));
        }
        if self.uploaded.len() < self.segments[i].images.len() {
            return PostStep::Upload;
        }
        let place = self.place();
        match create_one_post(
            self.repo.as_str(),
            self.segments[i].text.as_str(),
            &place,
            &self.uploaded,
            at,
        ) {
            Ok(n) => PostStep::Write(n),
            Err(e) => PostStep::Answer(self.failed(e)),
        }
    }

    /// What is to be done next, now.
    pub fn next_now(&self) -> (r: PostStep)
        requires
            self.wf(),
        ensures
            exists|at: Seq<char>| #[trigger] self.is_next(at, r),
    {
        let at = time_text();
        let r = self.next(at.as_str());
        assert(self.is_next(at@, r));
        r
    }

    /// The picture to be uploaded next.
    pub open spec fn picture_is(s: Self, r: Vec<u8>) -> bool {
        r == s.segments@[s.made@.len() as int].images@[s.uploaded@.len() as int].bytes
    }

    /// The picture to be uploaded next.
    pub fn picture(&self) -> (r: &Vec<u8>)
        requires
            self.wants_upload(),
        ensures
            Self::picture_is(*self, *r),
    {
        let i: usize = self.made.len();
        let k: usize = self.uploaded.len();
        &self.segments[i].images[k].bytes
    }

    /// What became of an upload. Where it failed, this is the answer.
    pub fn picture_uploaded(&mut self, result: Result<String, String>) -> (r: Option<WorkResponse>)
        requires
            old(self).wf(),
            old(self).wants_upload(),
        ensures
            final(self).wf(),
            upload_taken(*old(self), *final(self), result, r),
    {
        match result {
            Ok(blob) => {
                let i: usize = self.made.len();
                let k: usize = self.uploaded.len();
                let alt = self.segments[i].images[k].alt.clone();
                self.uploaded.push(UploadedImage { blob, alt });
                assert(self.uploaded@.drop_last() =~= old(self).uploaded@);
                None
            },
            Err(e) => Some(self.failed(join2("uploadBlob: ", e.as_str()))),
        }
    }

    /// What became of a post that was written. Where it failed, this is the
    /// answer.
    pub fn written(&mut self, result: Result<PostRef, String>) -> (r: Option<WorkResponse>)
        requires
            old(self).wf(),
            old(self).wants_write(),
        ensures
            final(self).wf(),
            write_taken(*old(self), *final(self), result, r),
    {
        match result {
            Ok(post) => {
                self.made.push(post);
                self.uploaded = Vec::new();
                None
            },
            Err(e) => Some(self.failed(e)),
        }
    }
}

// ── Laws ───────────────────────────────────────────────────────────────

/// In a thread, every post after the first replies to the one before, and all
/// of them share one root: the root of the post that the whole thread replies
/// to, or else the first post.
pub proof fn lemma_one_chain(above: Option<(PostRef, PostRef)>, made: Seq<PostRef>, i: int)
    requires
        0 < i <= made.len(),
    ensures
        place_of(above, made.take(i)) matches Some(place) && place.1 == made[i - 1] && place.0 == (
        match above {
            Some(a) => a.0,
            None => made[0],
        }),
{
    assert(made.take(i).last() == made[i - 1]);
    assert(made.take(i)[0] == made[0]);
}

} // verus!
