//! Which pictures are asked for: each once, and none that is at hand.

use vstd::hash_set::StringHashSet;
use vstd::prelude::*;

use crate::requests::WorkRequest;

verus! {

/// The addresses asked for by requests, in order.
pub open spec fn fetched(reqs: Seq<WorkRequest>) -> Seq<Seq<char>> {
    Seq::new(
        reqs.len(),
        |i: int|
            match reqs[i] {
                WorkRequest::FetchImage { url } => url@,
                _ => Seq::empty(),
            },
    )
}

/// The addresses that have been asked for once the first `n` wanted ones were
/// gone through.
pub open spec fn inflight_after(
    urls: Seq<Seq<char>>,
    cached: Seq<bool>,
    inflight: Set<Seq<char>>,
    n: int,
) -> Set<Seq<char>>
    decreases n,
{
    if n <= 0 {
        inflight
    } else {
        let before = inflight_after(urls, cached, inflight, n - 1);
        if cached[n - 1] {
            before
        } else {
            before.insert(urls[n - 1])
        }
    }
}

/// What is asked for, of the first `n` wanted addresses: those that are
/// neither at hand nor asked for already.
pub open spec fn asked_for(
    urls: Seq<Seq<char>>,
    cached: Seq<bool>,
    inflight: Set<Seq<char>>,
    n: int,
) -> Seq<Seq<char>>
    decreases n,
{
    if n <= 0 {
        Seq::empty()
    } else {
        let before = asked_for(urls, cached, inflight, n - 1);
        if cached[n - 1] || inflight_after(urls, cached, inflight, n - 1).contains(urls[n - 1]) {
            before
        } else {
            before.push(urls[n - 1])
        }
    }
}

/// Asks for the wanted pictures that are not at hand (`cached`, by position)
/// and not asked for yet, and notes them as asked for.
pub fn request_missing(urls: Vec<String>, cached: &Vec<bool>, inflight: &mut StringHashSet) -> (r:
    Vec<WorkRequest>)
    requires
        urls@.len() <= cached@.len(),
    ensures
        ({
            let wanted = crate::embeds::texts(urls@);
            &&& fetched(r@) == asked_for(wanted, cached@, old(inflight)@, urls@.len() as int)
            &&& final(inflight)@ == inflight_after(
                wanted,
                cached@,
                old(inflight)@,
                urls@.len() as int,
            )
        }),
        forall|i: int| 0 <= i < r@.len() ==> #[trigger] r@[i] is FetchImage,
{
    let ghost wanted = crate::embeds::texts(urls@);
    let mut r: Vec<WorkRequest> = Vec::new();
    assert(fetched(r@) =~= Seq::<Seq<char>>::empty());
    let mut i: usize = 0;
    while i < urls.len()
        invariant
            i <= urls@.len() <= cached@.len(),
            wanted == crate::embeds::texts(urls@),
            fetched(r@) == asked_for(wanted, cached@, old(inflight)@, i as int),
            inflight@ == inflight_after(wanted, cached@, old(inflight)@, i as int),
            forall|k: int| 0 <= k < r@.len() ==> #[trigger] r@[k] is FetchImage,
        decreases urls@.len() - i,
    {
        let url = &urls[i];
        let ghost before = r@;
        if !cached[i] {
            if !inflight.contains(url.as_str()) {
                r.push(WorkRequest::FetchImage { url: url.clone() });
                inflight.insert(url.clone());
                assert(fetched(r@) =~= fetched(before).push(url@));
            } else {
                assert(inflight@.insert(url@) =~= inflight@);
            }
        }
        i += 1;
    }
    r
}

/// Nothing that is at hand, and nothing that was asked for before, is asked
/// for; and nothing is asked for twice.
pub proof fn lemma_each_picture_once(
    urls: Seq<Seq<char>>,
    cached: Seq<bool>,
    inflight: Set<Seq<char>>,
    n: int,
)
    requires
        0 <= n <= urls.len(),
    ensures
        ({
            let r = asked_for(urls, cached, inflight, n);
            let after = inflight_after(urls, cached, inflight, n);
            &&& forall|i: int| 0 <= i < r.len() ==> !inflight.contains(#[trigger] r[i])
            &&& forall|i: int| 0 <= i < r.len() ==> after.contains(#[trigger] r[i])
            &&& forall|i: int, j: int| 0 <= i < j < r.len() ==> #[trigger] r[i] != #[trigger] r[j]
            &&& forall|u: Seq<char>| inflight.contains(u) ==> #[trigger] after.contains(u)
            &&& forall|i: int|
                0 <= i < r.len() ==> exists|k: int|
                    0 <= k < n && !cached[k] && #[trigger] urls[k] == #[trigger] r[i]
        }),
    decreases n,
{
    if n > 0 {
        lemma_each_picture_once(urls, cached, inflight, n - 1);
        let r0 = asked_for(urls, cached, inflight, n - 1);
        let a0 = inflight_after(urls, cached, inflight, n - 1);
        let r = asked_for(urls, cached, inflight, n);
        let after = inflight_after(urls, cached, inflight, n);
        assert forall|i: int| 0 <= i < r.len() implies !inflight.contains(#[trigger] r[i])
            && after.contains(r[i]) by {
            if i < r0.len() {
                assert(r[i] == r0[i]);
                assert(a0.contains(r0[i]));
            }
        }
        assert forall|i: int, j: int| 0 <= i < j < r.len() implies #[trigger] r[i]
            != #[trigger] r[j] by {
            assert(r[i] == r0[i]);
            assert(a0.contains(r0[i]));
            if j < r0.len() {
                assert(r[j] == r0[j]);
            }
        }
        assert forall|i: int| 0 <= i < r.len() implies exists|k: int|
            0 <= k < n && !cached[k] && #[trigger] urls[k] == #[trigger] r[i] by {
            if i < r0.len() {
                assert(r[i] == r0[i]);
                let k = choose|k: int|
                    0 <= k < n - 1 && !cached[k] && #[trigger] urls[k] == #[trigger] r0[i];
                assert(0 <= k < n && !cached[k] && urls[k] == r[i]);
            } else {
                assert(!cached[n - 1] && urls[n - 1] == r[i]);
            }
        }
    }
}

/// Asking again at once, with the same pictures wanted, asks for nothing.
pub proof fn lemma_asking_again_asks_nothing(
    urls: Seq<Seq<char>>,
    cached: Seq<bool>,
    inflight: Set<Seq<char>>,
    n: int,
    m: int,
)
    requires
        0 <= n <= m <= urls.len(),
    ensures
        asked_for(urls, cached, inflight_after(urls, cached, inflight, m), n).len() == 0,
        inflight_after(urls, cached, inflight_after(urls, cached, inflight, m), n)
            == inflight_after(urls, cached, inflight, m),
    decreases n,
{
    let all = inflight_after(urls, cached, inflight, m);
    if n > 0 {
        lemma_asking_again_asks_nothing(urls, cached, inflight, n - 1, m);
        lemma_wanted_is_noted(urls, cached, inflight, n - 1, m);
        if !cached[n - 1] {
            assert(all.insert(urls[n - 1]) =~= all);
        }
    }
}

proof fn lemma_wanted_is_noted(
    urls: Seq<Seq<char>>,
    cached: Seq<bool>,
    inflight: Set<Seq<char>>,
    k: int,
    m: int,
)
    requires
        0 <= k < m,
    ensures
        !cached[k] ==> inflight_after(urls, cached, inflight, m).contains(urls[k]),
    decreases m,
{
    if k < m - 1 {
        lemma_wanted_is_noted(urls, cached, inflight, k, m - 1);
    }
}

} // verus!
