//! The records that are written to the reader's repository, as JSON.
//!
//! The protocol crates write each record; none of them names its own
//! collection, which the server asks for, so that it is put in here.

use std::str::FromStr;

use atrium_api::app::bsky::embed::images::{Image, ImageData, MainData as ImagesData};
use atrium_api::app::bsky::feed::like::RecordData as LikeData;
use atrium_api::app::bsky::feed::post::{RecordData as PostData, RecordEmbedRefs};
use atrium_api::app::bsky::feed::post::{ReplyRef, ReplyRefData};
use atrium_api::app::bsky::feed::repost::RecordData as RepostData;
use atrium_api::app::bsky::graph::follow::RecordData as FollowData;
use atrium_api::com::atproto::repo::strong_ref::MainData as StrongRefData;
use atrium_api::types::string::{Cid, Datetime, Did};
use atrium_api::types::{BlobRef, Union, Unknown};
use vstd::prelude::*;

use crate::identifiers::{parse_account, parse_cid, parse_collection, parse_did, parse_key};
#[allow(unused_imports)]
use crate::identifiers::{
    account_problem, collection_problem, did_problem, hash_read, key_problem, lemma_four_parts,
    res_view,
};
use crate::text::{join2, join3, owned};
#[allow(unused_imports)]
use crate::text::opt_view;

verus! {

// ── What the protocol crates write ─────────────────────────────────────

/// A member of a JSON object replaced or added, as text; nothing where the
/// JSON is no object.
pub uninterp spec fn json_insert(json: Seq<char>, key: Seq<char>, value: Seq<char>) -> Option<
    Seq<char>,
>;

/// `serde_json::Map::insert` of a text, on a JSON object given as text, which
/// is written again. Where the JSON is no object, nothing comes back.
#[verifier::external_body]
fn insert_member(json: &str, key: &str, value: &str) -> (r: Option<String>)
    ensures
        opt_view(r) == json_insert(json@, key@, value@),
{
    let mut m = serde_json::from_str::<serde_json::Map<String, serde_json::Value>>(json).ok()?;
    m.insert(key.to_string(), serde_json::Value::String(value.to_string()));
    Some(serde_json::Value::Object(m).to_string())
}

/// Why a JSON text cannot be sent as a record; nothing where it can.
pub uninterp spec fn record_problem(json: Seq<char>) -> Option<Seq<char>>;

/// `serde_json::from_str` as atrium's `Unknown`, the form in which any record
/// is sent: the reason where it fails. Which texts can be read so is left to
/// the name.
#[verifier::external_body]
fn check_record(json: &str) -> (r: Option<String>)
    ensures
        opt_view(r) == record_problem(json@),
{
    serde_json::from_str::<Unknown>(json).err().map(|e| e.to_string())
}

/// A follow as JSON: when it was made, and whom it is of.
pub uninterp spec fn follow_json(at: Seq<char>, did: Seq<char>) -> Result<Seq<char>, Seq<char>>;

/// `serde_json::to_string` of atrium's follow record. Its time and account are
/// read from text first; where that or writing fails, the reason comes back.
#[verifier::external_body]
fn write_follow(at: &str, did: &str) -> (r: Result<String, String>)
    ensures
        res_view(r) == follow_json(at@, did@),
{
    let created_at = Datetime::from_str(at).map_err(|e| e.to_string())?;
    let subject = Did::from_str(did).map_err(|e| e.to_string())?;
    serde_json::to_string(&FollowData { created_at, subject }).map_err(|e| e.to_string())
}

/// A like as JSON: when it was made, and the post it is of.
pub uninterp spec fn like_json(at: Seq<char>, uri: Seq<char>, cid: Seq<char>) -> Result<
    Seq<char>,
    Seq<char>,
>;

/// `serde_json::to_string` of atrium's like record. Its time and the post's
/// hash are read from text first; where that or writing fails, the reason
/// comes back.
#[verifier::external_body]
fn write_like(at: &str, uri: &str, cid: &str) -> (r: Result<String, String>)
    ensures
        res_view(r) == like_json(at@, uri@, cid@),
{
    let created_at = Datetime::from_str(at).map_err(|e| e.to_string())?;
    let cid = Cid::from_str(cid).map_err(|e| e.to_string())?;
    let subject = StrongRefData { cid, uri: uri.to_string() }.into();
    let record = LikeData { created_at, subject, via: None };
    serde_json::to_string(&record).map_err(|e| e.to_string())
}

/// A repost as JSON: when it was made, and the post it is of.
pub uninterp spec fn repost_json(at: Seq<char>, uri: Seq<char>, cid: Seq<char>) -> Result<
    Seq<char>,
    Seq<char>,
>;

/// `serde_json::to_string` of atrium's repost record. Its time and the post's
/// hash are read from text first; where that or writing fails, the reason
/// comes back.
#[verifier::external_body]
fn write_repost(at: &str, uri: &str, cid: &str) -> (r: Result<String, String>)
    ensures
        res_view(r) == repost_json(at@, uri@, cid@),
{
    let created_at = Datetime::from_str(at).map_err(|e| e.to_string())?;
    let cid = Cid::from_str(cid).map_err(|e| e.to_string())?;
    let subject = StrongRefData { cid, uri: uri.to_string() }.into();
    let record = RepostData { created_at, subject, via: None };
    serde_json::to_string(&record).map_err(|e| e.to_string())
}

/// The place of a reply as JSON: the root of its thread, and the post above.
pub uninterp spec fn reply_json(
    root_uri: Seq<char>,
    root_cid: Seq<char>,
    parent_uri: Seq<char>,
    parent_cid: Seq<char>,
) -> Result<Seq<char>, Seq<char>>;

/// `serde_json::to_string` of atrium's reply reference. The two hashes are
/// read from text first; where that or writing fails, the reason comes back.
#[verifier::external_body]
fn write_reply(root_uri: &str, root_cid: &str, parent_uri: &str, parent_cid: &str) -> (r: Result<
    String,
    String,
>)
    ensures
        res_view(r) == reply_json(root_uri@, root_cid@, parent_uri@, parent_cid@),
{
    let cid = Cid::from_str(root_cid).map_err(|e| e.to_string())?;
    let root = StrongRefData { cid, uri: root_uri.to_string() }.into();
    let cid = Cid::from_str(parent_cid).map_err(|e| e.to_string())?;
    let parent = StrongRefData { cid, uri: parent_uri.to_string() }.into();
    serde_json::to_string(&ReplyRefData { parent, root }).map_err(|e| e.to_string())
}

/// A picture of a post as JSON: its description, and the uploaded bytes.
pub uninterp spec fn image_json(alt: Seq<char>, blob: Seq<char>) -> Result<Seq<char>, Seq<char>>;

/// `serde_json::to_string` of atrium's picture. The uploaded bytes are a
/// reference that is read from JSON first; where that or writing fails, the
/// reason comes back.
#[verifier::external_body]
fn write_image(alt: &str, blob: &str) -> (r: Result<String, String>)
    ensures
        res_view(r) == image_json(alt@, blob@),
{
    let image = serde_json::from_str::<BlobRef>(blob).map_err(|e| e.to_string())?;
    let data = ImageData { alt: alt.to_string(), aspect_ratio: None, image };
    serde_json::to_string(&data).map_err(|e| e.to_string())
}

/// What is attached to a post as JSON: a list of pictures.
pub uninterp spec fn images_json(list: Seq<char>) -> Result<Seq<char>, Seq<char>>;

/// `serde_json::to_string` of atrium's attached pictures. The list of them is
/// read from JSON first; where that or writing fails, the reason comes back.
#[verifier::external_body]
fn write_images(list: &str) -> (r: Result<String, String>)
    ensures
        res_view(r) == images_json(list@),
{
    let images = serde_json::from_str::<Vec<Image>>(list).map_err(|e| e.to_string())?;
    let main = Box::new(ImagesData { images }.into());
    let embed = Union::Refs(RecordEmbedRefs::AppBskyEmbedImagesMain(main));
    serde_json::to_string(&embed).map_err(|e| e.to_string())
}

/// A post as JSON: its text, when it was made, its place where it is a reply,
/// and what is attached.
pub uninterp spec fn post_json(
    text: Seq<char>,
    at: Seq<char>,
    reply: Option<Seq<char>>,
    embed: Option<Seq<char>>,
) -> Result<Seq<char>, Seq<char>>;

/// `serde_json::to_string` of atrium's post record. Its time is read from text
/// first, and its place and what is attached from JSON; where that or writing
/// fails, the reason comes back.
#[verifier::external_body]
fn write_post(text: &str, at: &str, reply: &Option<String>, embed: &Option<String>) -> (r: Result<
    String,
    String,
>)
    ensures
        res_view(r) == post_json(text@, at@, opt_view(*reply), opt_view(*embed)),
{
    let reply = reply.as_deref().map(serde_json::from_str::<ReplyRef>);
    let reply = reply.transpose().map_err(|e| e.to_string())?;
    let embed = embed.as_deref().map(serde_json::from_str::<Union<RecordEmbedRefs>>);
    let embed = embed.transpose().map_err(|e| e.to_string())?;
    let created_at = Datetime::from_str(at).map_err(|e| e.to_string())?;
    let (entities, facets, labels, langs, tags) = (None, None, None, None, None);
    let text = text.to_string();
    let post = PostData {
        created_at, embed, entities, facets, labels, langs, reply, tags, text,
    };
    serde_json::to_string(&post).map_err(|e| e.to_string())
}

// ── Records ────────────────────────────────────────────────────────────

/// A post by its address and hash.
#[derive(Debug)]
pub struct PostRef {
    pub uri: String,
    pub cid: String,
}

impl Clone for PostRef {
    fn clone(&self) -> (r: PostRef)
        ensures
            r == *self,
    {
        PostRef { uri: self.uri.clone(), cid: self.cid.clone() }
    }
}

/// A record to be written.
#[derive(Debug)]
pub struct NewRecord {
    pub repo: String,
    pub collection: String,
    /// The record as JSON, which names its collection.
    pub json: String,
}

/// A record to be removed.
#[derive(Debug)]
pub struct OldRecord {
    pub repo: String,
    pub collection: String,
    pub rkey: String,
}

/// The collection of the likes or of the reposts.
pub open spec fn mark_collection(like: bool) -> Seq<char> {
    if like {
        "app.bsky.feed.like"@
    } else {
        "app.bsky.feed.repost"@
    }
}

/// The collections that are written to have the form of one.
pub proof fn lemma_collections_have_form()
    ensures
        collection_problem("app.bsky.graph.follow"@) is None,
        collection_problem("app.bsky.feed.like"@) is None,
        collection_problem("app.bsky.feed.repost"@) is None,
        collection_problem("app.bsky.feed.post"@) is None,
{
    reveal_strlit("app.bsky.graph.follow");
    reveal_strlit("app.bsky.feed.like");
    reveal_strlit("app.bsky.feed.repost");
    reveal_strlit("app.bsky.feed.post");
    lemma_four_parts("app.bsky.graph.follow"@, 3, 8, 14);
    lemma_four_parts("app.bsky.feed.like"@, 3, 8, 13);
    lemma_four_parts("app.bsky.feed.repost"@, 3, 8, 13);
    lemma_four_parts("app.bsky.feed.post"@, 3, 8, 13);
}

/// The record with its collection named in it, where it is an object.
pub open spec fn typed(json: Seq<char>, collection: Seq<char>) -> Seq<char> {
    match json_insert(json, "$type"@, collection) {
        Some(t) => t,
        None => json,
    }
}

/// The record of a follow: nothing is made where a step before it failed, and
/// the first failure is told.
pub open spec fn follow_record(
    session: Option<Seq<char>>,
    did: Seq<char>,
    at: Seq<char>,
) -> Result<(Seq<char>, Seq<char>, Seq<char>), Seq<char>> {
    let collection = "app.bsky.graph.follow"@;
    match session {
        None => Err("no session DID"@),
        Some(me) => match account_problem(me) {
            Some(e) => Err("DID parse: "@ + e),
            None => match did_problem(did) {
                Some(e) => Err("actor DID parse: "@ + e),
                None => match follow_json(at, did) {
                    Err(e) => Err("serialize: "@ + e),
                    Ok(json) => match record_problem(typed(json, collection)) {
                        Some(e) => Err("re-deserialize: "@ + e),
                        None => Ok((me, collection, typed(json, collection))),
                    },
                },
            },
        },
    }
}

/// The record of a like or repost, in the same way.
pub open spec fn mark_record(
    session: Option<Seq<char>>,
    like: bool,
    uri: Seq<char>,
    cid: Seq<char>,
    at: Seq<char>,
) -> Result<(Seq<char>, Seq<char>, Seq<char>), Seq<char>> {
    let collection = mark_collection(like);
    match session {
        None => Err("no session DID"@),
        Some(me) => match account_problem(me) {
            Some(e) => Err("DID parse: "@ + e),
            None => match hash_read(cid) {
                Err(e) => Err("cid parse: "@ + e),
                Ok(c) => match (if like {
                    like_json(at, uri, c)
                } else {
                    repost_json(at, uri, c)
                }) {
                    Err(e) => Err("serialize: "@ + e),
                    Ok(json) => match record_problem(typed(json, collection)) {
                        Some(e) => Err("re-deserialize: "@ + e),
                        None => Ok((me, collection, typed(json, collection))),
                    },
                },
            },
        },
    }
}

/// A record of a collection that is to be removed, in the same way.
pub open spec fn removal_of(
    session: Option<Seq<char>>,
    collection: Seq<char>,
    rkey: Seq<char>,
) -> Result<(Seq<char>, Seq<char>, Seq<char>), Seq<char>> {
    match session {
        None => Err("no session DID"@),
        Some(me) => match account_problem(me) {
            Some(e) => Err("DID parse: "@ + e),
            None => match collection_problem(collection) {
                Some(e) => Err("nsid: "@ + e),
                None => match key_problem(rkey) {
                    Some(e) => Err("rkey: "@ + e),
                    None => Ok((me, collection, rkey)),
                },
            },
        },
    }
}

/// A record to be written, by its characters.
pub open spec fn new_view(r: Result<NewRecord, String>) -> Result<
    (Seq<char>, Seq<char>, Seq<char>),
    Seq<char>,
> {
    match r {
        Ok(n) => Ok((n.repo@, n.collection@, n.json@)),
        Err(e) => Err(e@),
    }
}

/// A record to be removed, by its characters.
pub open spec fn old_view(r: Result<OldRecord, String>) -> Result<
    (Seq<char>, Seq<char>, Seq<char>),
    Seq<char>,
> {
    match r {
        Ok(n) => Ok((n.repo@, n.collection@, n.rkey@)),
        Err(e) => Err(e@),
    }
}

fn add_type(json: String, collection: &str) -> (r: String)
    ensures
        r@ == typed(json@, collection@),
{
    match insert_member(json.as_str(), "$type", collection) {
        Some(t) => t,
        None => json,
    }
}

/// The record of a follow.
pub fn create_follow(session: &Option<String>, did: &str, at: &str) -> (r: Result<
    NewRecord,
    String,
>)
    ensures
        new_view(r) == follow_record(opt_view(*session), did@, at@),
{
    let me = match session {
        Some(d) => d,
        None => {
            return Err(owned("no session DID"));
        },
    };
    let repo = match parse_account(me.as_str()) {
        Ok(a) => a,
        Err(e) => {
            return Err(join2("DID parse: ", e.as_str()));
        },
    };
    let subject = match parse_did(did) {
        Ok(d) => d,
        Err(e) => {
            return Err(join2("actor DID parse: ", e.as_str()));
        },
    };
    let json = match write_follow(at, subject.as_str()) {
        Ok(j) => j,
        Err(e) => {
            return Err(join2("serialize: ", e.as_str()));
        },
    };
    let json = add_type(json, "app.bsky.graph.follow");
    if let Some(e) = check_record(json.as_str()) {
        return Err(join2("re-deserialize: ", e.as_str()));
    }
    proof {
        lemma_collections_have_form();
    }
    match parse_collection("app.bsky.graph.follow") {
        Ok(collection) => Ok(NewRecord { repo, collection, json }),
        Err(e) => Err(join2("nsid: ", e.as_str())),
    }
}

/// The record of a like or repost.
pub fn create_engagement_record(
    session: &Option<String>,
    like: bool,
    uri: &str,
    cid: &str,
    at: &str,
) -> (r: Result<NewRecord, String>)
    ensures
        new_view(r) == mark_record(opt_view(*session), like, uri@, cid@, at@),
{
    let me = match session {
        Some(d) => d,
        None => {
            return Err(owned("no session DID"));
        },
    };
    let repo = match parse_account(me.as_str()) {
        Ok(a) => a,
        Err(e) => {
            return Err(join2("DID parse: ", e.as_str()));
        },
    };
    let hash = match parse_cid(cid) {
        Ok(c) => c,
        Err(e) => {
            return Err(join2("cid parse: ", e.as_str()));
        },
    };
    let name = if like {
        "app.bsky.feed.like"
    } else {
        "app.bsky.feed.repost"
    };
    proof {
        lemma_collections_have_form();
    }
    let collection = match parse_collection(name) {
        Ok(c) => c,
        Err(e) => {
            return Err(join2("nsid: ", e.as_str()));
        },
    };
    let written = if like {
        write_like(at, uri, hash.as_str())
    } else {
        write_repost(at, uri, hash.as_str())
    };
    let json = match written {
        Ok(j) => j,
        Err(e) => {
            return Err(join2("serialize: ", e.as_str()));
        },
    };
    let json = add_type(json, collection.as_str());
    match check_record(json.as_str()) {
        Some(e) => Err(join2("re-deserialize: ", e.as_str())),
        None => Ok(NewRecord { repo, collection, json }),
    }
}

/// A record of a collection that is to be removed.
pub fn delete_record(session: &Option<String>, collection: &str, rkey: &str) -> (r: Result<
    OldRecord,
    String,
>)
    ensures
        old_view(r) == removal_of(opt_view(*session), collection@, rkey@),
{
    let me = match session {
        Some(d) => d,
        None => {
            return Err(owned("no session DID"));
        },
    };
    let repo = match parse_account(me.as_str()) {
        Ok(a) => a,
        Err(e) => {
            return Err(join2("DID parse: ", e.as_str()));
        },
    };
    let collection = match parse_collection(collection) {
        Ok(c) => c,
        Err(e) => {
            return Err(join2("nsid: ", e.as_str()));
        },
    };
    let rkey = match parse_key(rkey) {
        Ok(k) => k,
        Err(e) => {
            return Err(join2("rkey: ", e.as_str()));
        },
    };
    Ok(OldRecord { repo, collection, rkey })
}

// ── Posts ──────────────────────────────────────────────────────────────

/// A picture that was uploaded: the server's reference to it as JSON, and its
/// description.
#[derive(Debug)]
pub struct UploadedImage {
    pub blob: String,
    pub alt: String,
}

/// The first `n` pictures as a JSON list without its brackets, or the first
/// reason why one cannot be written.
pub open spec fn image_list(images: Seq<UploadedImage>, n: int) -> Result<Seq<char>, Seq<char>>
    decreases n,
{
    if n <= 0 {
        Ok(Seq::empty())
    } else {
        match image_list(images, n - 1) {
            Err(e) => Err(e),
            Ok(before) => match image_json(images[n - 1].alt@, images[n - 1].blob@) {
                Err(e) => Err(e),
                Ok(i) => if n == 1 {
                    Ok(i)
                } else {
                    Ok(before + ","@ + i)
                },
            },
        }
    }
}

/// What is attached to a post: nothing without pictures.
pub open spec fn attached(images: Seq<UploadedImage>) -> Result<Option<Seq<char>>, Seq<char>> {
    if images.len() == 0 {
        Ok(None)
    } else {
        match image_list(images, images.len() as int) {
            Err(e) => Err(e),
            Ok(list) => match images_json("["@ + list + "]"@) {
                Err(e) => Err(e),
                Ok(t) => Ok(Some(t)),
            },
        }
    }
}

/// The place of a reply.
pub open spec fn placed(reply: Option<(PostRef, PostRef)>) -> Result<Option<Seq<char>>, Seq<char>> {
    match reply {
        None => Ok(None),
        Some(r) => match reply_json(r.0.uri@, r.0.cid@, r.1.uri@, r.1.cid@) {
            Err(e) => Err(e),
            Ok(t) => Ok(Some(t)),
        },
    }
}

/// The record of a post. `reply` is the root of its thread and the post above.
pub open spec fn post_record(
    repo: Seq<char>,
    text: Seq<char>,
    reply: Option<(PostRef, PostRef)>,
    images: Seq<UploadedImage>,
    at: Seq<char>,
) -> Result<(Seq<char>, Seq<char>, Seq<char>), Seq<char>> {
    let collection = "app.bsky.feed.post"@;
    match attached(images) {
        Err(e) => Err("serialize: "@ + e),
        Ok(embed) => match placed(reply) {
            Err(e) => Err("serialize: "@ + e),
            Ok(place) => match post_json(text, at, place, embed) {
                Err(e) => Err("serialize: "@ + e),
                Ok(json) => match json_insert(json, "$type"@, collection) {
                    None => Err("post record didn't serialize as a JSON object"@),
                    Some(t) => match record_problem(t) {
                        Some(e) => Err("re-deserialize: "@ + e),
                        None => Ok((repo, collection, t)),
                    },
                },
            },
        },
    }
}

fn attach(images: &Vec<UploadedImage>) -> (r: Result<Option<String>, String>)
    ensures
        match r {
            Ok(t) => attached(images@) == Ok::<Option<Seq<char>>, Seq<char>>(opt_view(t)),
            Err(e) => attached(images@) == Err::<Option<Seq<char>>, Seq<char>>(e@),
        },
{
    if images.len() == 0 {
        return Ok(None);
    }
    let mut list = String::new();
    let mut i: usize = 0;
    assert(list@ =~= Seq::<char>::empty());
    while i < images.len()
        invariant
            i <= images@.len(),
            image_list(images@, i as int) == Ok::<Seq<char>, Seq<char>>(list@),
        decreases images@.len() - i,
    {
        let written = write_image(images[i].alt.as_str(), images[i].blob.as_str());
        match written {
            Ok(t) => {
                list = if i == 0 {
                    t
                } else {
                    join3(list.as_str(), ",", t.as_str())
                };
            },
            Err(e) => {
                proof {
                    lemma_list_fails(images@, i + 1, images@.len() as int, e@);
                }
                return Err(e);
            },
        }
        i += 1;
    }
    let all = join3("[", list.as_str(), "]");
    match write_images(all.as_str()) {
        Ok(t) => Ok(Some(t)),
        Err(e) => Err(e),
    }
}

proof fn lemma_list_fails(images: Seq<UploadedImage>, from: int, to: int, e: Seq<char>)
    requires
        0 <= from <= to,
        image_list(images, from) == Err::<Seq<char>, Seq<char>>(e),
    ensures
        image_list(images, to) == Err::<Seq<char>, Seq<char>>(e),
    decreases to - from,
{
    if from < to {
        lemma_list_fails(images, from, to - 1, e);
    }
}

/// The place of a reply: the root of its thread, and the post above.
pub fn build_reply_ref(reply: &Option<(PostRef, PostRef)>) -> (r: Result<Option<String>, String>)
    ensures
        match r {
            Ok(t) => placed(*reply) == Ok::<Option<Seq<char>>, Seq<char>>(opt_view(t)),
            Err(e) => placed(*reply) == Err::<Option<Seq<char>>, Seq<char>>(e@),
        },
{
    match reply {
        None => Ok(None),
        Some((root, parent)) => match write_reply(
            root.uri.as_str(),
            root.cid.as_str(),
            parent.uri.as_str(),
            parent.cid.as_str(),
        ) {
            Ok(t) => Ok(Some(t)),
            Err(e) => Err(e),
        },
    }
}

/// The record of a post.
pub fn create_one_post(
    repo: &str,
    text: &str,
    reply: &Option<(PostRef, PostRef)>,
    images: &Vec<UploadedImage>,
    at: &str,
) -> (r: Result<NewRecord, String>)
    ensures
        new_view(r) == post_record(repo@, text@, *reply, images@, at@),
{
    let embed = match attach(images) {
        Ok(t) => t,
        Err(e) => {
            return Err(join2("serialize: ", e.as_str()));
        },
    };
    let place = match build_reply_ref(reply) {
        Ok(t) => t,
        Err(e) => {
            return Err(join2("serialize: ", e.as_str()));
        },
    };
    let json = match write_post(text, at, &place, &embed) {
        Ok(j) => j,
        Err(e) => {
            return Err(join2("serialize: ", e.as_str()));
        },
    };
    let json = match insert_member(json.as_str(), "$type", "app.bsky.feed.post") {
        Some(t) => t,
        None => {
            return Err(owned("post record didn't serialize as a JSON object"));
        },
    };
    if let Some(e) = check_record(json.as_str()) {
        return Err(join2("re-deserialize: ", e.as_str()));
    }
    proof {
        lemma_collections_have_form();
    }
    match parse_collection("app.bsky.feed.post") {
        Ok(collection) => Ok(NewRecord { repo: owned(repo), collection, json }),
        Err(e) => Err(join2("nsid parse: ", e.as_str())),
    }
}

/// A like or repost that is written names the collection it is written to, and
/// is of the post's hash as the protocol reads it.
pub proof fn lemma_record_names_collection(
    session: Option<Seq<char>>,
    like: bool,
    uri: Seq<char>,
    cid: Seq<char>,
    at: Seq<char>,
)
    ensures
        mark_record(session, like, uri, cid, at) matches Ok(r) ==> {
            &&& session == Some(r.0)
            &&& r.1 == mark_collection(like)
            &&& exists|json: Seq<char>|
                r.2 == #[trigger] typed(json, mark_collection(like)) && (if like {
                    like_json(at, uri, hash_read(cid)->Ok_0)
                } else {
                    repost_json(at, uri, hash_read(cid)->Ok_0)
                }) == Ok::<Seq<char>, Seq<char>>(json)
        },
{
    if mark_record(session, like, uri, cid, at) is Ok {
        let written = if like {
            like_json(at, uri, hash_read(cid)->Ok_0)
        } else {
            repost_json(at, uri, hash_read(cid)->Ok_0)
        };
        let t = typed(written->Ok_0, mark_collection(like));
        assert(mark_record(session, like, uri, cid, at)->Ok_0.2 == t);
    }
}

} // verus!
