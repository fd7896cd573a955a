//! A thread as the server gives it, made into the rows of the thread screen.

use vstd::prelude::*;

use crate::model::PostView;
use crate::requests::{ThreadBatch, WorkResponse};
use crate::text::owned;

verus! {

/// A place in a thread.
#[derive(Debug)]
pub enum ThreadNode {
    Post(Box<ThreadPost>),
    NotFound,
    Blocked,
    /// A kind this client does not know.
    Unknown,
}

/// A post with what stands above and below it.
#[derive(Debug)]
pub struct ThreadPost {
    pub post: PostView,
    pub parent: Option<ThreadNode>,
    pub replies: Option<Vec<ThreadNode>>,
}

/// The posts above, from the topmost down. The line ends at a place that is
/// not a post.
pub open spec fn ancestors(parent: Option<ThreadNode>) -> Seq<PostView>
    decreases parent,
{
    match parent {
        Some(ThreadNode::Post(p)) => ancestors(p.parent).push(p.post),
        _ => Seq::empty(),
    }
}

/// The posts among the first `n` places.
pub open spec fn posts_among(nodes: Seq<ThreadNode>, n: int) -> Seq<PostView>
    decreases n,
{
    if n <= 0 {
        Seq::empty()
    } else {
        match nodes[n - 1] {
            ThreadNode::Post(p) => posts_among(nodes, n - 1).push(p.post),
            _ => posts_among(nodes, n - 1),
        }
    }
}

/// The replies that are posts.
pub open spec fn reply_posts(replies: Option<Vec<ThreadNode>>) -> Seq<PostView> {
    match replies {
        Some(nodes) => posts_among(nodes@, nodes@.len() as int),
        None => Seq::empty(),
    }
}

/// The posts above, from the topmost down.
pub fn walk_parents(parent: Option<ThreadNode>) -> (r: Vec<PostView>)
    ensures
        r@ == ancestors(parent),
    decreases parent,
{
    match parent {
        Some(ThreadNode::Post(p)) => {
            let ThreadPost { post, parent, replies: _ } = *p;
            let mut above = walk_parents(parent);
            above.push(post);
            above
        },
        _ => Vec::new(),
    }
}

fn posts_of(replies: Option<Vec<ThreadNode>>) -> (r: Vec<PostView>)
    ensures
        r@ == reply_posts(replies),
{
    let mut nodes = match replies {
        Some(n) => n,
        None => {
            return Vec::new();
        },
    };
    let ghost all = nodes@;
    let mut back: Vec<PostView> = Vec::new();
    assert(posts_among(all, all.len() as int) =~= posts_among(all, all.len() as int)
        + back@.reverse());
    while nodes.len() > 0
        invariant
            nodes@.len() <= all.len(),
            nodes@ == all.take(nodes@.len() as int),
            posts_among(all, all.len() as int) == posts_among(all, nodes@.len() as int)
                + back@.reverse(),
        decreases nodes@.len(),
    {
        let ghost n = nodes@.len() as int;
        let ghost before = back@;
        proof {
            assert(nodes@.last() == all[n - 1]);
            assert(nodes@.drop_last() =~= all.take(n - 1));
        }
        if let Some(node) = nodes.pop() {
            if let ThreadNode::Post(p) = node {
                let ThreadPost { post, parent: _, replies: _ } = *p;
                back.push(post);
                assert(back@.reverse() =~= seq![post] + before.reverse());
                assert(posts_among(all, n) + before.reverse() =~= posts_among(all, n - 1)
                    + back@.reverse());
            }
        }
    }
    let mut r: Vec<PostView> = Vec::new();
    let ghost whole = back@;
    while back.len() > 0
        invariant
            back@.len() <= whole.len(),
            back@ == whole.take(back@.len() as int),
            r@ + back@.reverse() == whole.reverse(),
        decreases back@.len(),
    {
        let ghost prior = back@;
        let ghost done = r@;
        if let Some(p) = back.pop() {
            r.push(p);
            assert(prior.reverse() =~= seq![p] + back@.reverse());
            assert(r@ + back@.reverse() =~= done + prior.reverse());
            assert(back@ =~= whole.take(back@.len() as int));
        }
    }
    assert(r@ =~= whole.reverse());
    assert(posts_among(all, 0) + whole.reverse() =~= whole.reverse());
    r
}

/// The answer for a thread: the post with what stands above it and the replies
/// to it, or why there is none.
pub open spec fn thread_told(result: Result<ThreadNode, String>, r: WorkResponse) -> bool {
    match result {
        Err(e) => r == WorkResponse::Thread(Err(e)),
        Ok(ThreadNode::Post(p)) => r matches WorkResponse::Thread(Ok(b)) && b.main == p.post
            && b.parents@ == ancestors(p.parent) && b.replies@ == reply_posts(p.replies),
        Ok(ThreadNode::NotFound) => r matches WorkResponse::Thread(Err(e)) && e@
            == "post not found"@,
        Ok(ThreadNode::Blocked) => r matches WorkResponse::Thread(Err(e)) && e@
            == "post is blocked"@,
        Ok(ThreadNode::Unknown) => r matches WorkResponse::Thread(Err(e)) && e@
            == "unsupported thread variant"@,
    }
}

/// The answer to a request for a thread.
pub fn thread_answer(result: Result<ThreadNode, String>) -> (r: WorkResponse)
    ensures
        thread_told(result, r),
{
    match result {
        Err(e) => WorkResponse::Thread(Err(e)),
        Ok(ThreadNode::Post(p)) => {
            let ThreadPost { post, parent, replies } = *p;
            let parents = walk_parents(parent);
            let replies = posts_of(replies);
            WorkResponse::Thread(Ok(ThreadBatch { parents, main: post, replies }))
        },
        Ok(ThreadNode::NotFound) => WorkResponse::Thread(Err(owned("post not found"))),
        Ok(ThreadNode::Blocked) => WorkResponse::Thread(Err(owned("post is blocked"))),
        Ok(ThreadNode::Unknown) => WorkResponse::Thread(Err(owned("unsupported thread variant"))),
    }
}

// ── Laws ───────────────────────────────────────────────────────────────

/// The post right above comes last of those above, so that a thread reads from
/// its root down to the post itself.
pub proof fn lemma_reads_downward(p: ThreadPost)
    ensures
        p.parent matches Some(ThreadNode::Post(above)) ==> ancestors(p.parent).last() == above.post
            && ancestors(p.parent).drop_last() == ancestors(above.parent),
{
    if let Some(ThreadNode::Post(above)) = p.parent {
        assert(ancestors(p.parent).drop_last() =~= ancestors(above.parent));
    }
}

/// How many of the first `n` places are posts.
pub open spec fn posts_counted(nodes: Seq<ThreadNode>, n: int) -> nat
    decreases n,
{
    if n <= 0 {
        0
    } else {
        posts_counted(nodes, n - 1) + (if nodes[n - 1] is Post {
            1nat
        } else {
            0
        })
    }
}

/// A line of posts above ends only at a place that is no post: above a post there
/// are all those above it and itself.
pub proof fn lemma_ancestors_complete(node: ThreadNode)
    ensures
        ancestors(None).len() == 0,
        !(node is Post) ==> ancestors(Some(node)).len() == 0,
        node matches ThreadNode::Post(p) ==> {
            &&& ancestors(Some(node)).len() == ancestors(p.parent).len() + 1
            &&& ancestors(Some(node)).last() == p.post
            &&& forall|i: int|
                0 <= i < ancestors(p.parent).len() ==> #[trigger] ancestors(Some(node))[i]
                    == ancestors(p.parent)[i]
        },
{
}

/// Every place below that is a post is kept, in its order, whatever stands above
/// or below it in turn; a place is left out only where it is no post.
pub proof fn lemma_replies_complete(nodes: Seq<ThreadNode>, n: int, i: int)
    requires
        0 <= i < n <= nodes.len(),
    ensures
        posts_among(nodes, n).len() == posts_counted(nodes, n),
        nodes[i] matches ThreadNode::Post(p) ==> {
            &&& posts_counted(nodes, i) < posts_counted(nodes, n)
            &&& posts_among(nodes, n)[posts_counted(nodes, i) as int] == p.post
        },
    decreases n,
{
    if n == 1 {
        assert(posts_among(nodes, 0).len() == 0);
        assert(posts_counted(nodes, 0) == 0);
    } else if i < n - 1 {
        lemma_replies_complete(nodes, n - 1, i);
    } else {
        lemma_replies_complete(nodes, n - 1, n - 2);
    }
}

/// Where every place below is a post, the replies are those posts, one for one.
pub proof fn lemma_all_replies_shown(nodes: Vec<ThreadNode>, i: int)
    requires
        0 <= i < nodes@.len(),
        forall|k: int| 0 <= k < nodes@.len() ==> (#[trigger] nodes@[k]) is Post,
    ensures
        reply_posts(Some(nodes)).len() == nodes@.len(),
        nodes@[i] matches ThreadNode::Post(p) && reply_posts(Some(nodes))[i] == p.post,
{
    let n = nodes@.len() as int;
    lemma_replies_complete(nodes@, n, i);
    lemma_all_counted(nodes@, i);
    lemma_all_counted(nodes@, n);
}

proof fn lemma_all_counted(nodes: Seq<ThreadNode>, n: int)
    requires
        0 <= n <= nodes.len(),
        forall|k: int| 0 <= k < nodes.len() ==> (#[trigger] nodes[k]) is Post,
    ensures
        posts_counted(nodes, n) == n,
    decreases n,
{
    if n > 0 {
        lemma_all_counted(nodes, n - 1);
        assert(nodes[n - 1] is Post);
    }
}

/// A thread is answered with the very post that was asked for, with the post
/// right above it last of those above, and with all that reply to it; where
/// there is no such post the answer fails and says which way it is missing.
pub proof fn lemma_thread_told(result: Result<ThreadNode, String>, r: WorkResponse, i: int)
    requires
        thread_told(result, r),
    ensures
        r is Thread,
        (r->Thread_0) is Ok <==> result is Ok && result->Ok_0 is Post,
        result matches Ok(ThreadNode::Post(p)) ==> {
            let b = r->Thread_0->Ok_0;
            &&& b.main == p.post
            &&& p.parent matches Some(ThreadNode::Post(above)) ==> b.parents@.len() > 0
                && b.parents@.last() == above.post
            &&& !(p.parent is Some && p.parent->0 is Post) ==> b.parents@.len() == 0
            &&& p.replies is None ==> b.replies@.len() == 0
            &&& p.replies matches Some(nodes) ==> (0 <= i < nodes@.len() ==> (
            nodes@[i] matches ThreadNode::Post(q) ==> b.replies@.contains(q.post)))
        },
        result matches Err(e) ==> (r->Thread_0)->Err_0 == e,
        result matches Ok(n) ==> {
            &&& n is NotFound ==> ((r->Thread_0)->Err_0)@ == "post not found"@
            &&& n is Blocked ==> ((r->Thread_0)->Err_0)@ == "post is blocked"@
            &&& n is Unknown ==> ((r->Thread_0)->Err_0)@ == "unsupported thread variant"@
        },
{
    if let Ok(ThreadNode::Post(p)) = result {
        let b = r->Thread_0->Ok_0;
        lemma_reads_downward(*p);
        if let Some(above) = p.parent {
            lemma_ancestors_complete(above);
        } else {
            lemma_ancestors_complete(ThreadNode::Unknown);
        }
        if let Some(nodes) = p.replies {
            if 0 <= i < nodes@.len() {
                let n = nodes@.len() as int;
                lemma_replies_complete(nodes@, n, i);
                if let ThreadNode::Post(q) = nodes@[i] {
                    assert(b.replies@[posts_counted(nodes@, i) as int] == q.post);
                }
            }
        }
    }
}

} // verus!
