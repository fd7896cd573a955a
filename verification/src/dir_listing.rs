//! Directory listings and paths on the console's drives.
//!
//! A path is a drive, `ux0:`, with the names of directories behind it, which
//! slashes separate.

use vstd::prelude::*;

use crate::text::{chars_of, ends_with, join2, join3, string_of, to_ascii_lower};
#[allow(unused_imports)]
use crate::text::{after_last_pos, ascii_lowered, has_suffix, opt_view};

verus! {

/// One entry of a directory.
#[derive(Debug)]
pub struct DirEntry {
    pub name: String,
    pub is_dir: bool,
}

impl Clone for DirEntry {
    fn clone(&self) -> (r: DirEntry)
        ensures
            r == *self,
    {
        DirEntry { name: self.name.clone(), is_dir: self.is_dir }
    }
}

// ── Names ──────────────────────────────────────────────────────────────

/// The name is that of a picture, by its ending.
pub open spec fn image_name(name: Seq<char>) -> bool {
    let l = ascii_lowered(name);
    has_suffix(l, ".jpg"@) || has_suffix(l, ".jpeg"@) || has_suffix(l, ".png"@)
}

/// Whether the name is that of a picture.
pub fn is_image(name: &str) -> (r: bool)
    ensures
        r == image_name(name@),
{
    let l = to_ascii_lower(name);
    ends_with(l.as_str(), ".jpg") || ends_with(l.as_str(), ".jpeg") || ends_with(
        l.as_str(),
        ".png",
    )
}

/// `a` comes before `b` in the order of a dictionary, from position `i` on.
pub open spec fn comes_before(a: Seq<char>, b: Seq<char>, i: int) -> bool
    decreases b.len() - i,
{
    if i >= b.len() {
        false
    } else if i >= a.len() {
        true
    } else if a[i] == b[i] {
        comes_before(a, b, i + 1)
    } else {
        a[i] < b[i]
    }
}

fn name_before(a: &str, b: &str) -> (r: bool)
    ensures
        r == comes_before(a@, b@, 0),
{
    let x = chars_of(a);
    let y = chars_of(b);
    let mut i: usize = 0;
    while i < x.len() && i < y.len() && x[i] == y[i]
        invariant
            i <= x@.len(),
            i <= y@.len(),
            comes_before(x@, y@, 0) == comes_before(x@, y@, i as int),
        decreases y@.len() - i,
    {
        i += 1;
    }
    if i >= y.len() {
        false
    } else if i >= x.len() {
        true
    } else {
        x[i] < y[i]
    }
}

/// Entry `a` is listed before `b`: directories first, then by name, capitals
/// or not.
pub open spec fn entry_before(a: DirEntry, b: DirEntry) -> bool {
    if a.is_dir != b.is_dir {
        a.is_dir
    } else {
        comes_before(ascii_lowered(a.name@), ascii_lowered(b.name@), 0)
    }
}

fn is_entry_before(a: &DirEntry, b: &DirEntry) -> (r: bool)
    ensures
        r == entry_before(*a, *b),
{
    if a.is_dir != b.is_dir {
        return a.is_dir;
    }
    let x = to_ascii_lower(a.name.as_str());
    let y = to_ascii_lower(b.name.as_str());
    name_before(x.as_str(), y.as_str())
}

// ── Listings ───────────────────────────────────────────────────────────

/// The entry is shown: a directory or a picture.
pub open spec fn shown(e: DirEntry) -> bool {
    e.is_dir || image_name(e.name@)
}

/// The first place from `from` on before which `e` belongs.
pub open spec fn place_of(s: Seq<DirEntry>, e: DirEntry, from: int) -> int
    decreases s.len() - from,
{
    if from >= s.len() {
        s.len() as int
    } else if entry_before(e, s[from]) {
        from
    } else {
        place_of(s, e, from + 1)
    }
}

/// The first `n` entries as they are listed: those that are shown, in order,
/// equals in the order in which they came.
pub open spec fn listing(es: Seq<DirEntry>, n: int) -> Seq<DirEntry>
    decreases n,
{
    if n <= 0 {
        Seq::empty()
    } else {
        let before = listing(es, n - 1);
        let e = es[n - 1];
        if shown(e) {
            before.insert(place_of(before, e, 0), e)
        } else {
            before
        }
    }
}

/// The entries of a directory as they are listed.
pub fn list_entries(es: &Vec<DirEntry>) -> (r: Vec<DirEntry>)
    ensures
        r@ == listing(es@, es@.len() as int),
{
    let mut r: Vec<DirEntry> = Vec::new();
    let mut i: usize = 0;
    while i < es.len()
        invariant
            i <= es@.len(),
            r@ == listing(es@, i as int),
        decreases es@.len() - i,
    {
        let e = es[i].clone();
        if e.is_dir || is_image(e.name.as_str()) {
            let mut at: usize = 0;
            while at < r.len() && !is_entry_before(&e, &r[at])
                invariant
                    at <= r@.len(),
                    place_of(r@, e, 0) == place_of(r@, e, at as int),
                decreases r@.len() - at,
            {
                at += 1;
            }
            r.insert(at, e);
        }
        i += 1;
    }
    r
}

/// The entries stand in order.
pub open spec fn in_order(s: Seq<DirEntry>) -> bool {
    forall|i: int, j: int|
        0 <= i < j < s.len() ==> !entry_before(#[trigger] s[j], #[trigger] s[i])
}

proof fn lemma_before_irreflexive(a: Seq<char>, i: int)
    ensures
        !comes_before(a, a, i),
    decreases a.len() - i,
{
    if i < a.len() {
        lemma_before_irreflexive(a, i + 1);
    }
}

proof fn lemma_before_transitive(a: Seq<char>, b: Seq<char>, c: Seq<char>, i: int)
    requires
        comes_before(a, b, i),
        comes_before(b, c, i),
    ensures
        comes_before(a, c, i),
    decreases c.len() - i,
{
    if i < a.len() && i < b.len() && i < c.len() && a[i] == b[i] && b[i] == c[i] {
        lemma_before_transitive(a, b, c, i + 1);
    }
}

proof fn lemma_entries_transitive(a: DirEntry, b: DirEntry, c: DirEntry)
    requires
        entry_before(a, b),
        entry_before(b, c),
    ensures
        entry_before(a, c),
{
    if a.is_dir == b.is_dir && b.is_dir == c.is_dir {
        lemma_before_transitive(
            ascii_lowered(a.name@),
            ascii_lowered(b.name@),
            ascii_lowered(c.name@),
            0,
        );
    }
}

proof fn lemma_place_of(s: Seq<DirEntry>, e: DirEntry, from: int)
    requires
        0 <= from <= s.len(),
    ensures
        ({
            let p = place_of(s, e, from);
            &&& from <= p <= s.len()
            &&& forall|k: int| from <= k < p ==> !entry_before(e, #[trigger] s[k])
            &&& p < s.len() ==> entry_before(e, s[p])
        }),
    decreases s.len() - from,
{
    if from < s.len() && !entry_before(e, s[from]) {
        lemma_place_of(s, e, from + 1);
    }
}

/// A listing stands in order, and holds exactly the entries that are shown,
/// each as often as the directory does.
pub proof fn lemma_listing(es: Seq<DirEntry>, n: int)
    requires
        0 <= n <= es.len(),
    ensures
        in_order(listing(es, n)),
        listing(es, n).to_multiset() =~= es.take(n).filter(|e: DirEntry| shown(e)).to_multiset(),
        listing(es, n).len() <= n,
    decreases n,
{
    broadcast use vstd::seq_lib::group_to_multiset_ensures;

    reveal_with_fuel(Seq::filter, 2);
    let keep = |e: DirEntry| shown(e);
    if n == 0 {
        assert(es.take(0) =~= Seq::<DirEntry>::empty());
        assert(es.take(0).filter(keep) =~= Seq::<DirEntry>::empty());
    } else {
        lemma_listing(es, n - 1);
        let before = listing(es, n - 1);
        let e = es[n - 1];
        assert(es.take(n).drop_last() =~= es.take(n - 1));
        assert(es.take(n).last() == e);
        if shown(e) {
            let p = place_of(before, e, 0);
            lemma_place_of(before, e, 0);
            let after = before.insert(p, e);
            assert(after =~= listing(es, n));
            assert forall|i: int, j: int| 0 <= i < j < after.len() implies !entry_before(
                #[trigger] after[j],
                #[trigger] after[i],
            ) by {
                if j == p {
                    assert(after[i] == before[i]);
                } else if i == p {
                    assert(after[j] == before[j - 1]);
                    if entry_before(after[j], e) {
                        lemma_entries_transitive(after[j], e, before[p]);
                        if j - 1 == p {
                            lemma_before_irreflexive(ascii_lowered(before[p].name@), 0);
                        } else {
                            assert(!entry_before(before[j - 1], before[p]));
                        }
                    }
                } else {
                    let a = if i < p {
                        i
                    } else {
                        i - 1
                    };
                    let b = if j < p {
                        j
                    } else {
                        j - 1
                    };
                    assert(after[i] == before[a] && after[j] == before[b]);
                    assert(!entry_before(before[b], before[a]));
                }
            }
            before.to_multiset_ensures();
            assert(after.to_multiset() =~= before.to_multiset().insert(e));
            assert(es.take(n).filter(keep) =~= es.take(n - 1).filter(keep).push(e));
        } else {
            assert(es.take(n).filter(keep) =~= es.take(n - 1).filter(keep));
        }
    }
}

// ── Paths ──────────────────────────────────────────────────────────────

/// The first `c` of `s` from `from` on; its length where there is none.
pub open spec fn first_pos(s: Seq<char>, c: char, from: int) -> int
    decreases s.len() - from,
{
    if from >= s.len() {
        s.len() as int
    } else if s[from] == c {
        from
    } else {
        first_pos(s, c, from + 1)
    }
}

/// A path without the slash at its end.
pub open spec fn without_slash(p: Seq<char>) -> Seq<char> {
    if p.len() > 0 && p.last() == '/' {
        p.drop_last()
    } else {
        p
    }
}

/// The directory that a path lies in; none for a drive.
pub open spec fn parent_of(path: Seq<char>) -> Option<Seq<char>> {
    let p = without_slash(path);
    let behind = after_last_pos(p, '/');
    let colon = first_pos(p, ':', 0);
    if behind >= 2 {
        Some(p.subrange(0, behind - 1))
    } else if colon + 1 < p.len() {
        Some(p.subrange(0, colon + 1))
    } else {
        None
    }
}

/// A name within a directory.
pub open spec fn child_of(path: Seq<char>, name: Seq<char>) -> Seq<char> {
    if path.len() > 0 && (path.last() == ':' || path.last() == '/') {
        path + name
    } else {
        path + "/"@ + name
    }
}

/// The directory that a path lies in. `ux0:` lies in none; `ux0:data` lies in
/// `ux0:`, `ux0:a/b` in `ux0:a`, and `ux0:picture/` in `ux0:`.
pub fn parent_dir(path: &str) -> (r: Option<String>)
    ensures
        opt_view(r) == parent_of(path@),
{
    let all = chars_of(path);
    let n: usize = if all.len() > 0 && all[all.len() - 1] == '/' {
        all.len() - 1
    } else {
        all.len()
    };
    let ghost p = without_slash(path@);
    assert(all@.take(n as int) =~= p);
    let mut behind: usize = n;
    assert(p.take(n as int) =~= p);
    while behind > 0 && all[behind - 1] != '/'
        invariant
            behind <= n <= all@.len(),
            p == all@.take(n as int),
            after_last_pos(p.take(behind as int), '/') == after_last_pos(p, '/'),
        decreases behind,
    {
        assert(p.take(behind as int).drop_last() =~= p.take(behind - 1));
        behind -= 1;
    }
    proof {
        if behind > 0 {
            assert(p.take(behind as int).last() == all@[behind - 1]);
        }
    }
    if behind >= 2 {
        let r = string_of(&all, 0, behind - 1);
        assert(r@ =~= p.subrange(0, behind - 1));
        return Some(r);
    }
    let mut colon: usize = 0;
    while colon < n && all[colon] != ':'
        invariant
            colon <= n <= all@.len(),
            p == all@.take(n as int),
            first_pos(p, ':', 0) == first_pos(p, ':', colon as int),
        decreases n - colon,
    {
        colon += 1;
    }
    if colon < n && colon + 1 < n {
        let r = string_of(&all, 0, colon + 1);
        assert(r@ =~= p.subrange(0, colon + 1));
        Some(r)
    } else {
        None
    }
}

/// A name within a directory.
pub fn child_dir(path: &str, name: &str) -> (r: String)
    ensures
        r@ == child_of(path@, name@),
{
    let all = chars_of(path);
    if all.len() > 0 && (all[all.len() - 1] == ':' || all[all.len() - 1] == '/') {
        join2(path, name)
    } else {
        join3(path, "/", name)
    }
}

proof fn lemma_after_last_none(s: Seq<char>, c: char)
    requires
        !s.contains(c),
    ensures
        after_last_pos(s, c) == 0,
    decreases s.len(),
{
    if s.len() > 0 {
        assert(s[s.len() - 1] == s.last());
        assert forall|x: char| s.drop_last().contains(x) implies s.contains(x) by {
            let k = choose|k: int| 0 <= k < s.drop_last().len() && s.drop_last()[k] == x;
            assert(s[k] == x);
        }
        lemma_after_last_none(s.drop_last(), c);
    }
}

proof fn lemma_after_last_behind(s: Seq<char>, t: Seq<char>, c: char)
    requires
        s.len() > 0,
        s.last() == c,
        !t.contains(c),
    ensures
        after_last_pos(s + t, c) == s.len(),
    decreases t.len(),
{
    if t.len() == 0 {
        assert(s + t =~= s);
    } else {
        assert(t[t.len() - 1] == t.last());
        assert((s + t).last() == t.last());
        assert((s + t).drop_last() =~= s + t.drop_last());
        assert forall|x: char| t.drop_last().contains(x) implies t.contains(x) by {
            let k = choose|k: int| 0 <= k < t.drop_last().len() && t.drop_last()[k] == x;
            assert(t[k] == x);
        }
        lemma_after_last_behind(s, t.drop_last(), c);
    }
}

proof fn lemma_first_pos_skip(s: Seq<char>, c: char, from: int, to: int)
    requires
        0 <= from <= to < s.len(),
        s[to] == c,
        forall|k: int| from <= k < to ==> #[trigger] s[k] != c,
    ensures
        first_pos(s, c, from) == to,
    decreases to - from,
{
    if from < to {
        assert(s[from] != c);
        lemma_first_pos_skip(s, c, from + 1, to);
    }
}

/// Going up from a directory that was entered leads back: to the drive, or to
/// the directory, by its name without a slash at the end.
pub proof fn lemma_up_undoes_enter(path: Seq<char>, name: Seq<char>)
    requires
        name.len() > 0,
        !name.contains('/'),
        ({
            ||| path.len() > 0 && path.last() == ':' && !path.contains('/') && first_pos(
                path,
                ':',
                0,
            ) == path.len() - 1
            ||| without_slash(path).len() > 0 && path.last() != ':'
        }),
    ensures
        parent_of(child_of(path, name)) == Some(without_slash(path)),
{
    reveal_strlit("/");
    let child = child_of(path, name);
    assert(name[name.len() - 1] == name.last());
    assert(child.last() == name.last());
    assert(without_slash(child) =~= child);
    if path.last() == ':' {
        assert(child =~= path + name);
        assert(!child.contains('/')) by {
            if child.contains('/') {
                let k = choose|k: int| 0 <= k < child.len() && child[k] == '/';
                if k < path.len() {
                    assert(path[k] == '/');
                } else {
                    assert(name[k - path.len()] == '/');
                }
            }
        }
        lemma_after_last_none(child, '/');
        lemma_first_colon(path, 0);
        assert(child[path.len() - 1] == ':');
        assert forall|k: int| 0 <= k < path.len() - 1 implies #[trigger] child[k] != ':' by {
            assert(path[k] != ':');
        }
        lemma_first_pos_skip(child, ':', 0, path.len() - 1);
        assert(child.subrange(0, path.len() as int) =~= path);
        assert(without_slash(path) =~= path);
    } else {
        let dir = without_slash(path).push('/');
        assert(child =~= dir + name);
        lemma_after_last_behind(dir, name, '/');
        assert(child.subrange(0, dir.len() - 1) =~= without_slash(path));
    }
}

proof fn lemma_first_colon(s: Seq<char>, from: int)
    requires
        0 <= from <= s.len(),
    ensures
        from <= first_pos(s, ':', from) <= s.len(),
        forall|k: int| from <= k < first_pos(s, ':', from) ==> #[trigger] s[k] != ':',
    decreases s.len() - from,
{
    if from < s.len() && s[from] != ':' {
        lemma_first_colon(s, from + 1);
    }
}

} // verus!
