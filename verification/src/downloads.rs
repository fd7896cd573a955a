//! Pictures and videos from the network.

use atrium_xrpc::http::Request;
use vstd::prelude::*;

use crate::requests::WorkResponse;
use crate::text::{chars_of, decimal_text, join2, join3, string_of};
#[allow(unused_imports)]
use crate::text::{decimal, opt_view};

verus! {

// ── One request ────────────────────────────────────────────────────────

/// Why no request can be made for an address; nothing where one can.
pub uninterp spec fn address_problem(url: Seq<char>) -> Option<Seq<char>>;

/// `http::Request::builder` with an address and an empty body: the reason
/// where no request comes of it. Which addresses it takes is left to the name.
#[verifier::external_body]
fn check_address(url: &str) -> (r: Option<String>)
    ensures
        opt_view(r) == address_problem(url@),
{
    let req = Request::builder().method("GET").uri(url).body(Vec::<u8>::new());
    req.err().map(|e| e.to_string())
}

/// What is told of an address that no request can be made for.
pub open spec fn refusal(problem: Option<Seq<char>>) -> Option<Seq<char>> {
    match problem {
        Some(e) => Some("invalid request URI: "@ + e),
        None => None,
    }
}

/// Why an address cannot be asked for; nothing where it can.
pub fn address_error(url: &str) -> (r: Option<String>)
    ensures
        opt_view(r) == refusal(address_problem(url@)),
{
    match check_address(url) {
        Some(e) => Some(join2("invalid request URI: ", e.as_str())),
        None => None,
    }
}

/// A reply gives its body where its status tells of success, else the status.
pub open spec fn reply_taken(status: u16, body: Vec<u8>, r: Result<Vec<u8>, String>) -> bool {
    match r {
        Ok(b) => 200 <= status < 300 && b == body,
        Err(e) => !(200 <= status < 300) && e@ == "HTTP "@ + decimal(status as nat),
    }
}

/// What comes of a reply: its body where its status tells of success, else
/// the status.
pub fn body_of(status: u16, body: Vec<u8>) -> (r: Result<Vec<u8>, String>)
    ensures
        reply_taken(status, body, r),
{
    if 200 <= status && status < 300 {
        Ok(body)
    } else {
        let n = decimal_text(status as u64);
        Err(join2("HTTP ", n.as_str()))
    }
}

/// The answer for a picture in the local storage: its bytes, or why it could
/// not be read.
pub open spec fn file_told(path: String, bytes: Result<Vec<u8>, String>, r: WorkResponse) -> bool {
    match bytes {
        Ok(b) => r == (WorkResponse::Image { url: path, bytes: Ok(b) }),
        Err(e) => r matches WorkResponse::Image { url, bytes: Err(m) } && url == path && m@
            == "read "@ + path@ + ": "@ + e@,
    }
}

/// The answer to a request for a picture in the local storage, under its path.
pub fn file_answer(path: String, bytes: Result<Vec<u8>, String>) -> (r: WorkResponse)
    ensures
        file_told(path, bytes, r),
{
    match bytes {
        Ok(b) => WorkResponse::Image { url: path, bytes: Ok(b) },
        Err(e) => {
            let m = told("read ", path.as_str(), e.as_str());
            WorkResponse::Image { url: path, bytes: Err(m) }
        },
    }
}

fn told(what: &str, path: &str, e: &str) -> (r: String)
    ensures
        r@ == what@ + path@ + ": "@ + e@,
{
    let head = join3(what, path, ": ");
    join2(head.as_str(), e)
}

// ── Videos ─────────────────────────────────────────────────────────────

/// An address without the slashes it ends in.
pub open spec fn without_slashes(s: Seq<char>) -> Seq<char>
    decreases s.len(),
{
    if s.len() > 0 && s.last() == '/' {
        without_slashes(s.drop_last())
    } else {
        s
    }
}

fn cut_slashes(s: &str) -> (r: String)
    ensures
        r@ == without_slashes(s@),
{
    let x = chars_of(s);
    let mut n: usize = x.len();
    assert(x@.take(n as int) =~= s@);
    while n > 0 && x[n - 1] == '/'
        invariant
            n <= x@.len(),
            x@ == s@,
            without_slashes(s@) == without_slashes(x@.take(n as int)),
        decreases n,
    {
        assert(x@.take(n as int).drop_last() =~= x@.take(n - 1));
        n -= 1;
    }
    assert(x@.subrange(0, n as int) =~= x@.take(n as int));
    string_of(&x, 0, n)
}

/// The folder that videos are kept in.
pub open spec fn video_dir(data_dir: Seq<char>) -> Seq<char> {
    data_dir + "/video"@
}

/// The file that a video is kept in.
pub open spec fn video_path(data_dir: Seq<char>, cid: Seq<char>) -> Seq<char> {
    video_dir(data_dir) + "/"@ + cid + ".mp4"@
}

/// The address of a video on its author's server.
pub open spec fn video_url(pds: Seq<char>, did: Seq<char>, cid: Seq<char>) -> Seq<char> {
    without_slashes(pds) + "/xrpc/com.atproto.sync.getBlob?did="@ + did + "&cid="@ + cid
}

/// A video to be fetched and kept.
#[derive(Debug)]
pub struct VideoFetch {
    pub did: String,
    pub cid: String,
    /// The folder it is kept in.
    pub dir: String,
    /// The file it is kept in.
    pub path: String,
}

/// What is to be done next for a video.
#[derive(Debug)]
pub enum VideoStep {
    /// Ask for its author's server.
    Resolve,
    /// Fetch this address.
    Fetch { url: String },
    /// Make the folder, for these bytes.
    MakeDir { bytes: Vec<u8> },
    /// Write these bytes to the file.
    Write { bytes: Vec<u8> },
    /// Nothing more; this is the answer.
    Answer(WorkResponse),
}

impl VideoFetch {
    /// The answer to a request for this video fails in these words.
    pub open spec fn fails(self, w: WorkResponse, e: Seq<char>) -> bool {
        w matches WorkResponse::VideoBlob { cid, result: Err(m) } && cid == self.cid && m@ == e
    }

    /// The answer that hands out the file.
    pub open spec fn found(self) -> WorkResponse {
        WorkResponse::VideoBlob { cid: self.cid, result: Ok(self.path) }
    }

    /// A file that is there and not empty is the answer. `size` is that of the
    /// file, where there is one.
    pub open spec fn looked(self, size: Option<u64>, next: VideoStep) -> bool {
        if size matches Some(n) && n > 0 {
            next == VideoStep::Answer(self.found())
        } else {
            next is Resolve
        }
    }

    /// The author's server has the video.
    pub open spec fn resolves(self, pds: Result<String, String>, next: VideoStep) -> bool {
        match pds {
            Ok(p) => next matches VideoStep::Fetch { url } && url@ == video_url(
                p@,
                self.did@,
                self.cid@,
            ),
            Err(e) => next matches VideoStep::Answer(w) && self.fails(w, "resolve pds: "@ + e@),
        }
    }

    /// The bytes are kept in the folder.
    pub open spec fn fetches(self, got: Result<Vec<u8>, String>, next: VideoStep) -> bool {
        match got {
            Ok(bytes) => next == (VideoStep::MakeDir { bytes }),
            Err(e) => next matches VideoStep::Answer(w) && self.fails(w, e@),
        }
    }

    /// The bytes are written once the folder is there.
    pub open spec fn makes_dir(
        self,
        made: Result<(), String>,
        bytes: Vec<u8>,
        next: VideoStep,
    ) -> bool {
        match made {
            Ok(_) => next == (VideoStep::Write { bytes }),
            Err(e) => next matches VideoStep::Answer(w) && self.fails(
                w,
                "mkdir "@ + self.dir@ + ": "@ + e@,
            ),
        }
    }

    /// The file is the answer once it was written.
    pub open spec fn writes(self, written: Result<(), String>, next: VideoStep) -> bool {
        match written {
            Ok(_) => next == VideoStep::Answer(self.found()),
            Err(e) => next matches VideoStep::Answer(w) && self.fails(
                w,
                "write "@ + self.path@ + ": "@ + e@,
            ),
        }
    }

    /// This is the video of an account, kept below a folder.
    pub open spec fn is_for(self, data_dir: Seq<char>, did: String, cid: String) -> bool {
        &&& self.did == did
        &&& self.cid == cid
        &&& self.dir@ == video_dir(data_dir)
        &&& self.path@ == video_path(data_dir, cid@)
    }

    /// A video of an account, which is kept below a folder.
    pub fn new(data_dir: &str, did: String, cid: String) -> (r: VideoFetch)
        ensures
            r.is_for(data_dir@, did, cid),
    {
        let dir = join2(data_dir, "/video");
        let head = join3(dir.as_str(), "/", cid.as_str());
        let path = join2(head.as_str(), ".mp4");
        VideoFetch { did, cid, dir, path }
    }

    fn answer(&self, result: Result<String, String>) -> (r: VideoStep)
        ensures
            r == VideoStep::Answer(WorkResponse::VideoBlob { cid: self.cid, result }),
    {
        VideoStep::Answer(WorkResponse::VideoBlob { cid: self.cid.clone(), result })
    }

    /// The first step, given the size of the file, where there is one.
    pub fn start(&self, size: Option<u64>) -> (next: VideoStep)
        ensures
            self.looked(size, next),
    {
        match size {
            Some(n) => if n > 0 {
                self.answer(Ok(self.path.clone()))
            } else {
                VideoStep::Resolve
            },
            None => VideoStep::Resolve,
        }
    }

    /// What follows once the author's server is known or not.
    pub fn resolved(&self, pds: Result<String, String>) -> (next: VideoStep)
        ensures
            self.resolves(pds, next),
    {
        match pds {
            Ok(p) => {
                let host = cut_slashes(p.as_str());
                let head = join3(
                    host.as_str(),
                    "/xrpc/com.atproto.sync.getBlob?did=",
                    self.did.as_str(),
                );
                VideoStep::Fetch { url: join3(head.as_str(), "&cid=", self.cid.as_str()) }
            },
            Err(e) => self.answer(Err(join2("resolve pds: ", e.as_str()))),
        }
    }

    /// What follows once the bytes were fetched or not.
    pub fn fetched(&self, got: Result<Vec<u8>, String>) -> (next: VideoStep)
        ensures
            self.fetches(got, next),
    {
        match got {
            Ok(bytes) => VideoStep::MakeDir { bytes },
            Err(e) => self.answer(Err(e)),
        }
    }

    /// What follows once the folder was made or not.
    pub fn dir_made(&self, made: Result<(), String>, bytes: Vec<u8>) -> (next: VideoStep)
        ensures
            self.makes_dir(made, bytes, next),
    {
        match made {
            Ok(_) => VideoStep::Write { bytes },
            Err(e) => self.answer(Err(told("mkdir ", self.dir.as_str(), e.as_str()))),
        }
    }

    /// What follows once the file was written or not.
    pub fn written(&self, written: Result<(), String>) -> (next: VideoStep)
        ensures
            self.writes(written, next),
    {
        match written {
            Ok(_) => self.answer(Ok(self.path.clone())),
            Err(e) => self.answer(Err(told("write ", self.path.as_str(), e.as_str()))),
        }
    }
}

// ── Laws ───────────────────────────────────────────────────────────────

/// The server's address may end in slashes or not: the video's address is the
/// same.
pub proof fn lemma_slash_is_no_matter(pds: Seq<char>, did: Seq<char>, cid: Seq<char>)
    ensures
        video_url(pds.push('/'), did, cid) == video_url(pds, did, cid),
{
    assert(pds.push('/').drop_last() =~= pds);
}

/// A video that has to be fetched is handed out only once its very bytes were
/// written: whatever the outside says, the steps from the author's server to the
/// file come in this order, and each is taken only where the one before
/// succeeded.
pub proof fn lemma_written_before_handed_out(
    v: VideoFetch,
    pds: Result<String, String>,
    got: Result<Vec<u8>, String>,
    made: Result<(), String>,
    written: Result<(), String>,
    after_pds: VideoStep,
    after_fetch: VideoStep,
    after_dir: VideoStep,
    last: VideoStep,
)
    requires
        v.resolves(pds, after_pds),
        after_pds is Fetch ==> v.fetches(got, after_fetch),
        after_pds is Answer ==> after_fetch == after_pds,
        match after_fetch {
            VideoStep::MakeDir { bytes } => v.makes_dir(made, bytes, after_dir),
            _ => after_dir == after_fetch,
        },
        if after_dir is Write {
            v.writes(written, last)
        } else {
            last == after_dir
        },
    ensures
        last is Answer,
        last == VideoStep::Answer(v.found()) <==> pds is Ok && got is Ok && made is Ok && written
            is Ok,
        pds is Ok && got is Ok && made is Ok ==> after_dir == (VideoStep::Write {
            bytes: got->Ok_0,
        }),
{
}

/// Two videos are kept in two files.
pub proof fn lemma_one_file_each(data_dir: Seq<char>, a: Seq<char>, b: Seq<char>)
    requires
        video_path(data_dir, a) == video_path(data_dir, b),
    ensures
        a == b,
{
    let head = video_dir(data_dir) + "/"@;
    let tail = ".mp4"@;
    assert((head + a + tail).len() == (head + b + tail).len());
    assert forall|i: int| 0 <= i < a.len() implies a[i] == b[i] by {
        assert((head + a + tail)[head.len() + i] == a[i]);
        assert((head + b + tail)[head.len() + i] == b[i]);
    }
    assert(a =~= b);
}

/// A reply is good just where its status is of the two hundreds, and then its
/// very body comes out; else the status is told.
pub proof fn lemma_good_reply(status: u16, body: Vec<u8>, r: Result<Vec<u8>, String>)
    requires
        reply_taken(status, body, r),
    ensures
        r is Ok <==> status / 100 == 2,
        r is Ok ==> (r->Ok_0)@ == body@,
        r is Err ==> (r->Err_0)@ == "HTTP "@ + decimal(status as nat),
{
}

/// An address is refused just where no request can be made for it, and the
/// reason is told whole.
pub proof fn lemma_refusal_tells(problem: Option<Seq<char>>)
    ensures
        refusal(problem) is Some <==> problem is Some,
        problem matches Some(e) ==> refusal(problem) == Some("invalid request URI: "@ + e),
{
}

/// A picture from the local storage comes under the path it was asked for by,
/// with the file's very bytes; a failure tells the path and the reason.
pub proof fn lemma_file_told(path: String, bytes: Result<Vec<u8>, String>, r: WorkResponse)
    requires
        file_told(path, bytes, r),
    ensures
        r matches WorkResponse::Image { url, bytes: got } && {
            &&& url == path
            &&& got is Ok <==> bytes is Ok
            &&& bytes is Ok ==> got == bytes
            &&& bytes matches Err(e) ==> (got->Err_0)@ == "read "@ + path@ + ": "@ + e@
        },
{
}

/// A video is asked for by the account and the hash it was made for, and kept
/// under the hash as an mp4 file in the video folder.
pub proof fn lemma_video_kept_by_hash(v: VideoFetch, data_dir: Seq<char>, did: String, cid: String)
    requires
        v.is_for(data_dir, did, cid),
    ensures
        v.did@ == did@,
        v.cid@ == cid@,
        v.path@ == v.dir@ + "/"@ + cid@ + ".mp4"@,
        v.dir@ == data_dir + "/video"@,
{
}

/// A kept file is handed out without asking anyone; one that is missing or
/// empty is fetched.
pub proof fn lemma_kept_video_is_used(v: VideoFetch, size: Option<u64>, next: VideoStep)
    requires
        v.looked(size, next),
    ensures
        match next {
            VideoStep::Answer(w) => size is Some && size->0 > 0 && w == (WorkResponse::VideoBlob {
                cid: v.cid,
                result: Ok(v.path),
            }),
            other => other is Resolve && (size is None || size->0 == 0),
        },
{
}

proof fn lemma_without_slashes(s: Seq<char>)
    ensures
        without_slashes(s).len() <= s.len(),
        without_slashes(s) == s.take(without_slashes(s).len() as int),
        without_slashes(s).len() > 0 ==> without_slashes(s).last() != '/',
        forall|i: int| without_slashes(s).len() <= i < s.len() ==> s[i] == '/',
    decreases s.len(),
{
    if s.len() > 0 && s.last() == '/' {
        let t = s.drop_last();
        lemma_without_slashes(t);
        assert(t.take(without_slashes(t).len() as int) =~= s.take(without_slashes(t).len() as int));
        assert forall|i: int| without_slashes(s).len() <= i < s.len() implies s[i] == '/' by {
            if i < t.len() {
                assert(t[i] == '/');
            }
        }
    } else {
        assert(s.take(s.len() as int) =~= s);
    }
}

/// The bytes of a video are asked for at its author's server, by its account
/// and its hash. Nothing of the server's address is lost but slashes at its end.
pub proof fn lemma_video_asked_of_author(v: VideoFetch, pds: String, next: VideoStep)
    requires
        v.resolves(Ok(pds), next),
    ensures
        next is Fetch,
        exists|n: int|
            0 <= n <= pds@.len() && (forall|i: int| n <= i < pds@.len() ==> pds@[i] == '/') && (n
                > 0 ==> pds@[n - 1] != '/') && (next->url)@ == #[trigger] pds@.take(n)
                + "/xrpc/com.atproto.sync.getBlob?did="@ + v.did@ + "&cid="@ + v.cid@,
{
    lemma_without_slashes(pds@);
    let n = without_slashes(pds@).len() as int;
    assert(pds@.take(n) == without_slashes(pds@));
    if n > 0 {
        assert(without_slashes(pds@).last() == pds@[n - 1]);
    }
}

/// Where a step fails nothing more is done: the answer is for this video, and
/// its words end in the reason.
pub proof fn lemma_video_failure_told(v: VideoFetch, e: String, bytes: Vec<u8>, next: VideoStep)
    requires
        v.resolves(Err(e), next) || v.fetches(Err(e), next) || v.makes_dir(Err(e), bytes, next)
            || v.writes(Err(e), next),
    ensures
        next matches VideoStep::Answer(WorkResponse::VideoBlob { cid, result: Err(m) }) && {
            &&& cid == v.cid
            &&& m@.len() >= e@.len()
            &&& m@.skip(m@.len() - e@.len()) == e@
        },
{
    assert(next is Answer);
    let m = next->Answer_0->VideoBlob_result->Err_0;
    let heads = seq![
        "resolve pds: "@,
        Seq::<char>::empty(),
        "mkdir "@ + v.dir@ + ": "@,
        "write "@ + v.path@ + ": "@,
    ];
    assert(m@ =~= heads[0] + e@ || m@ =~= heads[1] + e@ || m@ =~= heads[2] + e@ || m@ =~= heads[3]
        + e@);
    assert(m@.skip(m@.len() - e@.len()) =~= e@);
}

} // verus!
