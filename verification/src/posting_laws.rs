//! What is written to the reader's repository: each record of its own
//! collection, with all that it was made of.

use vstd::prelude::*;

#[allow(unused_imports)]
use crate::identifiers::{account_problem, collection_problem, did_problem, hash_read, key_problem};
#[allow(unused_imports)]
use crate::posting::{begun, failure, place_of, upload_taken, write_taken, PostStep, ThreadPoster};
#[allow(unused_imports)]
use crate::records::{
    attached, follow_json, follow_record, image_json, image_list, images_json, json_insert,
    like_json, mark_record, placed, post_json, post_record, record_problem, removal_of, reply_json,
    repost_json, NewRecord, PostRef, UploadedImage,
};
#[allow(unused_imports)]
use crate::requests::{ReplyTarget, ThreadSegment, WorkResponse};

verus! {

// ── Posts ──────────────────────────────────────────────────────────────

/// Texts with a comma between each two.
pub open spec fn comma_joined(parts: Seq<Seq<char>>) -> Seq<char>
    decreases parts.len(),
{
    if parts.len() == 0 {
        Seq::empty()
    } else if parts.len() == 1 {
        parts[0]
    } else {
        comma_joined(parts.drop_last()) + ","@ + parts.last()
    }
}

/// The pictures in their order, each with its own description.
pub open spec fn written_pictures(images: Seq<UploadedImage>, parts: Seq<Seq<char>>) -> bool {
    &&& parts.len() == images.len()
    &&& forall|i: int|
        0 <= i < images.len() ==> image_json(images[i].alt@, images[i].blob@) == Ok::<
            Seq<char>,
            Seq<char>,
        >(#[trigger] parts[i])
}

/// What a post has attached: its pictures, all of them, or nothing without any.
pub open spec fn embed_fits(images: Seq<UploadedImage>, embed: Option<Seq<char>>) -> bool {
    match embed {
        None => images.len() == 0,
        Some(t) => images.len() > 0 && exists|parts: Seq<Seq<char>>|
            #[trigger] written_pictures(images, parts) && images_json(
                "["@ + comma_joined(parts) + "]"@,
            ) == Ok::<Seq<char>, Seq<char>>(t),
    }
}

/// The place that a post is given: below its parent, in the thread of its root;
/// none only where it is no reply.
pub open spec fn place_fits(reply: Option<(PostRef, PostRef)>, place: Option<Seq<char>>) -> bool {
    match reply {
        None => place is None,
        Some(r) => place is Some && reply_json(r.0.uri@, r.0.cid@, r.1.uri@, r.1.cid@) == Ok::<
            Seq<char>,
            Seq<char>,
        >(place->0),
    }
}

proof fn lemma_image_list(images: Seq<UploadedImage>, parts: Seq<Seq<char>>, n: int)
    requires
        written_pictures(images, parts),
        0 <= n <= images.len(),
    ensures
        image_list(images, n) == Ok::<Seq<char>, Seq<char>>(comma_joined(parts.take(n))),
    decreases n,
{
    if n > 0 {
        lemma_image_list(images, parts, n - 1);
        assert(parts.take(n).drop_last() =~= parts.take(n - 1));
        assert(image_json(images[n - 1].alt@, images[n - 1].blob@) == Ok::<Seq<char>, Seq<char>>(
            parts[n - 1],
        ));
    }
}

proof fn lemma_image_parts(images: Seq<UploadedImage>, n: int) -> (parts: Seq<Seq<char>>)
    requires
        0 <= n <= images.len(),
        image_list(images, n) is Ok,
    ensures
        written_pictures(images.take(n), parts),
    decreases n,
{
    if n == 0 {
        Seq::empty()
    } else {
        let before = lemma_image_parts(images, n - 1);
        let parts = before.push(image_json(images[n - 1].alt@, images[n - 1].blob@)->Ok_0);
        assert forall|i: int| 0 <= i < n implies image_json(
            images.take(n)[i].alt@,
            images.take(n)[i].blob@,
        ) == Ok::<Seq<char>, Seq<char>>(#[trigger] parts[i]) by {
            if i < n - 1 {
                assert(image_json(images.take(n - 1)[i].alt@, images.take(n - 1)[i].blob@) == Ok::<
                    Seq<char>,
                    Seq<char>,
                >(before[i]));
            }
        }
        parts
    }
}

/// A post is written with its text, its time, its place and its pictures,
/// whatever it has of each; its record names the collection of posts, to which it
/// is written.
pub proof fn lemma_post_written_whole(
    repo: Seq<char>,
    text: Seq<char>,
    reply: Option<(PostRef, PostRef)>,
    images: Seq<UploadedImage>,
    at: Seq<char>,
    place: Option<Seq<char>>,
    embed: Option<Seq<char>>,
    json: Seq<char>,
    record: Seq<char>,
)
    requires
        place_fits(reply, place),
        embed_fits(images, embed),
        post_json(text, at, place, embed) == Ok::<Seq<char>, Seq<char>>(json),
        json_insert(json, "$type"@, "app.bsky.feed.post"@) == Some(record),
        record_problem(record) is None,
    ensures
        post_record(repo, text, reply, images, at) == Ok::<
            (Seq<char>, Seq<char>, Seq<char>),
            Seq<char>,
        >((repo, "app.bsky.feed.post"@, record)),
{
    if images.len() > 0 {
        let parts = choose|parts: Seq<Seq<char>>|
            #[trigger] written_pictures(images, parts) && images_json(
                "["@ + comma_joined(parts) + "]"@,
            ) == Ok::<Seq<char>, Seq<char>>(embed->0);
        lemma_image_list(images, parts, images.len() as int);
        assert(parts.take(images.len() as int) =~= parts);
    }
}

/// No post is written without its place or without one of its pictures: what is
/// written was made of all of them.
pub proof fn lemma_post_holds_all(
    repo: Seq<char>,
    text: Seq<char>,
    reply: Option<(PostRef, PostRef)>,
    images: Seq<UploadedImage>,
    at: Seq<char>,
)
    ensures
        post_record(repo, text, reply, images, at) matches Ok(r) ==> {
            &&& r.0 == repo
            &&& r.1 == "app.bsky.feed.post"@
            &&& exists|place: Option<Seq<char>>, embed: Option<Seq<char>>| #[trigger]
                post_json(text, at, place, embed) is Ok && place_fits(reply, place) && embed_fits(
                    images,
                    embed,
                ) && json_insert(
                    post_json(text, at, place, embed)->Ok_0,
                    "$type"@,
                    "app.bsky.feed.post"@,
                ) == Some(r.2)
        },
{
    if post_record(repo, text, reply, images, at) is Ok {
        let place = placed(reply)->Ok_0;
        let embed = attached(images)->Ok_0;
        if images.len() > 0 {
            let n = images.len() as int;
            let parts = lemma_image_parts(images, n);
            assert(images.take(n) =~= images);
            lemma_image_list(images, parts, n);
            assert(parts.take(n) =~= parts);
            assert(written_pictures(images, parts));
        }
        assert(place_fits(reply, place) && embed_fits(images, embed));
        assert(post_json(text, at, place, embed) is Ok);
    }
}

// ── Threads ────────────────────────────────────────────────────────────

/// A post of a thread is written once all of its pictures are uploaded: with the
/// text of its part, below the post written before it, the first one where the
/// whole thread was placed. What is attached are the uploaded pictures.
pub proof fn lemma_thread_post_in_place(p: ThreadPoster, at: Seq<char>, n: NewRecord)
    requires
        p.wf(),
        p.is_next(at, PostStep::Write(n)),
    ensures
        ({
            let i = p.made@.len() as int;
            let reply = if i == 0 {
                p.above
            } else {
                Some(
                    (
                        if p.above is Some {
                            p.above.unwrap().0
                        } else {
                            p.made@[0]
                        },
                        p.made@[i - 1],
                    ),
                )
            };
            &&& i < p.segments@.len()
            &&& p.uploaded@.len() == p.segments@[i].images@.len()
            &&& n.repo@ == p.repo@
            &&& n.collection@ == "app.bsky.feed.post"@
            &&& exists|place: Option<Seq<char>>, embed: Option<Seq<char>>| #[trigger]
                post_json(p.segments@[i].text@, at, place, embed) is Ok && place_fits(reply, place)
                    && embed_fits(p.uploaded@, embed) && json_insert(
                    post_json(p.segments@[i].text@, at, place, embed)->Ok_0,
                    "$type"@,
                    "app.bsky.feed.post"@,
                ) == Some(n.json@)
        }),
{
    let i = p.made@.len() as int;
    lemma_post_holds_all(
        p.repo@,
        p.segments@[i].text@,
        place_of(p.above, p.made@),
        p.uploaded@,
        at,
    );
}

/// A thread ends well only when all its posts are made, and then tells the
/// address of the first. Until then it uploads what is not uploaded, or writes,
/// or says why it cannot.
pub proof fn lemma_thread_goes_on(p: ThreadPoster, at: Seq<char>, r: PostStep)
    requires
        p.wf(),
        p.is_next(at, r),
    ensures
        r matches PostStep::Answer(WorkResponse::PostCreated(Ok(u))) ==> p.made@.len()
            == p.segments@.len() && u@ == p.made@[0].uri@,
        p.made@.len() == p.segments@.len() ==> (r matches PostStep::Answer(
            WorkResponse::PostCreated(Ok(u)),
        ) && u@ == p.made@[0].uri@),
        r is Upload <==> p.made@.len() < p.segments@.len() && p.uploaded@.len()
            < p.segments@[p.made@.len() as int].images@.len(),
        r matches PostStep::Answer(w) ==> w is PostCreated,
{
}

/// The pictures uploaded so far bear the descriptions of the first pictures of
/// the post, one by one.
pub open spec fn described(p: ThreadPoster) -> bool {
    p.made@.len() < p.segments@.len() ==> forall|k: int|
        0 <= k < p.uploaded@.len() ==> (#[trigger] p.uploaded@[k]).alt
            == p.segments@[p.made@.len() as int].images@[k].alt
}

/// From its beginning a thread keeps each description with its picture, and each
/// picture in its place: an upload adds the server's reference behind the
/// others, and a post that was written starts the next with none.
pub proof fn lemma_descriptions_stay(
    a: ThreadPoster,
    b: ThreadPoster,
    upload: Result<String, String>,
    written: Result<PostRef, String>,
    r: Option<WorkResponse>,
)
    requires
        described(a),
    ensures
        a.wants_upload() && upload_taken(a, b, upload, r) ==> {
            &&& described(b)
            &&& b.made == a.made && b.segments == a.segments && b.above == a.above && b.repo
                == a.repo
            &&& upload matches Ok(blob) ==> r is None && b.uploaded@.len() == a.uploaded@.len() + 1
                && b.uploaded@.take(a.uploaded@.len() as int) == a.uploaded@
                && b.uploaded@[a.uploaded@.len() as int].blob == blob
            &&& upload is Err ==> r is Some && b.uploaded@ == a.uploaded@
        },
        a.wants_write() && write_taken(a, b, written, r) ==> {
            &&& described(b)
            &&& b.segments == a.segments && b.above == a.above && b.repo == a.repo
            &&& written matches Ok(post) ==> r is None && b.made@.len() == a.made@.len() + 1
                && b.made@.take(a.made@.len() as int) == a.made@ && b.made@.last() == post
                && b.uploaded@.len() == 0
            &&& written is Err ==> r is Some && b.made@ == a.made@
        },
{
    if a.wants_upload() && upload_taken(a, b, upload, r) && upload is Ok {
        assert(b.uploaded@.take(a.uploaded@.len() as int) =~= b.uploaded@.drop_last());
        assert forall|k: int| 0 <= k < b.uploaded@.len() implies (#[trigger] b.uploaded@[k]).alt
            == b.segments@[b.made@.len() as int].images@[k].alt by {
            if k < a.uploaded@.len() {
                assert(b.uploaded@.drop_last()[k] == a.uploaded@[k]);
            }
        }
    }
    if a.wants_write() && write_taken(a, b, written, r) && written is Ok {
        assert(b.made@.take(a.made@.len() as int) =~= a.made@);
    }
}

/// A thread begins with nothing made, all of its parts to come, and below the
/// post that it replies to, if any.
pub proof fn lemma_thread_begins(
    segments: Vec<ThreadSegment>,
    reply_to: Option<ReplyTarget>,
    session: Option<Seq<char>>,
    p: ThreadPoster,
)
    requires
        begun(segments, reply_to, session, Ok(p)),
    ensures
        p.made@.len() == 0 && p.uploaded@.len() == 0,
        p.segments@ == segments@ && segments@.len() > 0,
        session == Some(p.repo@) && account_problem(p.repo@) is None,
        described(p),
        reply_to is None <==> p.above is None,
        reply_to matches Some(t) ==> {
            &&& p.above.unwrap().0.uri@ == t.root_uri@
            &&& p.above.unwrap().1.uri@ == t.parent_uri@
            &&& hash_read(t.root_cid@) == Ok::<Seq<char>, Seq<char>>(p.above.unwrap().0.cid@)
            &&& hash_read(t.parent_cid@) == Ok::<Seq<char>, Seq<char>>(p.above.unwrap().1.cid@)
        },
{
}

/// A thread cannot be begun without a part, without an account, or below a post
/// whose hash cannot be read; in any other case it can.
pub proof fn lemma_thread_can_begin(
    segments: Vec<ThreadSegment>,
    reply_to: Option<ReplyTarget>,
    session: Option<Seq<char>>,
    r: Result<ThreadPoster, WorkResponse>,
)
    requires
        begun(segments, reply_to, session, r),
    ensures
        r is Ok <==> {
            &&& segments@.len() > 0
            &&& session is Some && account_problem(session->0) is None
            &&& reply_to matches Some(t) ==> hash_read(t.root_cid@) is Ok && hash_read(
                t.parent_cid@,
            ) is Ok
        },
        r matches Err(w) ==> w matches WorkResponse::PostCreated(Err(_)),
{
}

/// A failure is told as it came; behind posts that were made it also says how
/// many of how many.
pub proof fn lemma_failure_tells_reason(made: nat, total: nat, e: Seq<char>)
    ensures
        failure(made, total, e).len() >= e.len(),
        failure(made, total, e).skip(failure(made, total, e).len() - e.len()) == e,
        made == 0 ==> failure(made, total, e) == e,
        made > 0 ==> failure(made, total, e).len() > e.len() && failure(made, total, e).take(
            "posted "@.len() as int,
        ) == "posted "@,
{
    reveal_strlit("posted ");
    let f = failure(made, total, e);
    assert(f.skip(f.len() - e.len()) =~= e);
    if made > 0 {
        assert(f.take("posted "@.len() as int) =~= "posted "@);
    }
}

// ── Marks and follows ──────────────────────────────────────────────────

/// A like is written among the likes and a repost among the reposts, of the post
/// they were asked for, under the reader's account.
pub proof fn lemma_marks_written(
    me: Seq<char>,
    uri: Seq<char>,
    cid: Seq<char>,
    hash: Seq<char>,
    at: Seq<char>,
    json: Seq<char>,
    record: Seq<char>,
)
    requires
        account_problem(me) is None,
        hash_read(cid) == Ok::<Seq<char>, Seq<char>>(hash),
        record_problem(record) is None,
    ensures
        like_json(at, uri, hash) == Ok::<Seq<char>, Seq<char>>(json) && json_insert(
            json,
            "$type"@,
            "app.bsky.feed.like"@,
        ) == Some(record) ==> mark_record(Some(me), true, uri, cid, at) == Ok::<
            (Seq<char>, Seq<char>, Seq<char>),
            Seq<char>,
        >((me, "app.bsky.feed.like"@, record)),
        repost_json(at, uri, hash) == Ok::<Seq<char>, Seq<char>>(json) && json_insert(
            json,
            "$type"@,
            "app.bsky.feed.repost"@,
        ) == Some(record) ==> mark_record(Some(me), false, uri, cid, at) == Ok::<
            (Seq<char>, Seq<char>, Seq<char>),
            Seq<char>,
        >((me, "app.bsky.feed.repost"@, record)),
{
}

/// A follow is written among the follows, of the account it was asked for, under
/// the reader's.
pub proof fn lemma_follow_written(
    me: Seq<char>,
    did: Seq<char>,
    at: Seq<char>,
    json: Seq<char>,
    record: Seq<char>,
)
    requires
        account_problem(me) is None,
        did_problem(did) is None,
        follow_json(at, did) == Ok::<Seq<char>, Seq<char>>(json),
        json_insert(json, "$type"@, "app.bsky.graph.follow"@) == Some(record),
        record_problem(record) is None,
    ensures
        follow_record(Some(me), did, at) == Ok::<(Seq<char>, Seq<char>, Seq<char>), Seq<char>>(
            (me, "app.bsky.graph.follow"@, record),
        ),
{
}

/// What is taken back is the record with that key, in that collection, of the
/// reader's account; only a key or an account without form is refused.
pub proof fn lemma_removed_by_key(
    session: Option<Seq<char>>,
    collection: Seq<char>,
    rkey: Seq<char>,
)
    ensures
        removal_of(session, collection, rkey) matches Ok(r) ==> session == Some(r.0) && r.1
            == collection && r.2 == rkey,
        removal_of(session, collection, rkey) is Ok <==> session is Some && account_problem(
            session->0,
        ) is None && collection_problem(collection) is None && key_problem(rkey) is None,
{
}

/// Nothing is written for an account that is not logged in.
pub proof fn lemma_unwritten_without_session(
    like: bool,
    uri: Seq<char>,
    cid: Seq<char>,
    did: Seq<char>,
    at: Seq<char>,
)
    ensures
        mark_record(None, like, uri, cid, at) is Err,
        follow_record(None, did, at) is Err,
        hash_read(cid) is Err ==> forall|s: Option<Seq<char>>|
            #[trigger] mark_record(s, like, uri, cid, at) is Err,
        did_problem(did) is Some ==> forall|s: Option<Seq<char>>|
            #[trigger] follow_record(s, did, at) is Err,
{
}

} // verus!
