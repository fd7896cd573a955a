//! Rows of measured heights, one below the other, seen through a viewport.

use vstd::prelude::*;

verus! {

/// The largest content height for which no position on the way to it can
/// leave the range of `i32`.
pub const MAX_CONTENT_H: i32 = 2_147_480_000;

/// How far a selected row is kept away from the edges of the viewport.
pub const SCROLL_MARGIN: i32 = 50;

/// The next page is asked for when the end is this close.
pub const PAGINATION_THRESHOLD: i32 = 600;

/// The heights of all rows together.
pub open spec fn total(rows: Seq<i32>) -> int
    decreases rows.len(),
{
    if rows.len() == 0 {
        0
    } else {
        total(rows.drop_last()) + rows.last()
    }
}

/// The distance from the top of the first row to the top of row `i`.
pub open spec fn row_top(rows: Seq<i32>, i: int) -> int {
    total(rows.take(i))
}

/// No row has a negative height, and together they fit.
pub open spec fn rows_fit(rows: Seq<i32>) -> bool {
    &&& forall|i: int| 0 <= i < rows.len() ==> 0 <= #[trigger] rows[i]
    &&& total(rows) <= MAX_CONTENT_H
}

/// The top and the bottom of every row can be told in pixels.
pub open spec fn tops_fit(rows: Seq<i32>) -> bool {
    forall|i: int|
        0 <= i <= rows.len() ==> i32::MIN <= #[trigger] row_top(rows, i) <= i32::MAX
}

/// A row that starts at `top` shares a pixel with the band `band_top..band_bottom`.
pub open spec fn in_band(top: int, height: int, band_top: int, band_bottom: int) -> bool {
    top + height > band_top && top < band_bottom
}

/// The tops of rows grow with their index, and stay within the content.
pub proof fn lemma_row_top_bounds(rows: Seq<i32>, i: int)
    requires
        rows_fit(rows),
        0 <= i <= rows.len(),
    ensures
        0 <= row_top(rows, i) <= total(rows) <= MAX_CONTENT_H,
        i < rows.len() ==> row_top(rows, i + 1) == row_top(rows, i) + rows[i],
        i < rows.len() ==> row_top(rows, i) + rows[i] <= total(rows),
    decreases rows.len() - i,
{
    lemma_total_nonneg(rows.take(i));
    if i == rows.len() {
        assert(rows.take(i) =~= rows);
    } else {
        assert(rows.take(i + 1).drop_last() =~= rows.take(i));
        lemma_row_top_bounds(rows, i + 1);
    }
}

/// Where rows fit, so do their tops.
pub proof fn lemma_tops_fit(rows: Seq<i32>)
    requires
        rows_fit(rows),
    ensures
        tops_fit(rows),
{
    assert forall|i: int| 0 <= i <= rows.len() implies i32::MIN <= #[trigger] row_top(rows, i)
        <= i32::MAX by {
        lemma_row_top_bounds(rows, i);
    }
}

proof fn lemma_total_nonneg(rows: Seq<i32>)
    requires
        forall|i: int| 0 <= i < rows.len() ==> 0 <= #[trigger] rows[i],
    ensures
        total(rows) >= 0,
    decreases rows.len(),
{
    if rows.len() > 0 {
        let d = rows.drop_last();
        assert forall|i: int| 0 <= i < d.len() implies 0 <= #[trigger] d[i] by {
            assert(d[i] == rows[i]);
        }
        lemma_total_nonneg(d);
        assert(rows.last() == rows[rows.len() - 1]);
    }
}

/// Row tops are ordered as the rows are.
pub proof fn lemma_row_top_monotone(rows: Seq<i32>, i: int, j: int)
    requires
        rows_fit(rows),
        0 <= i <= j <= rows.len(),
    ensures
        row_top(rows, i) <= row_top(rows, j),
    decreases j - i,
{
    if i < j {
        lemma_row_top_bounds(rows, j - 1);
        lemma_row_top_monotone(rows, i, j - 1);
        assert(0 <= rows[j - 1]);
    }
}

/// The distance to the top of row `upto`.
pub fn top_of(rows: &Vec<i32>, upto: usize) -> (r: i32)
    requires
        rows_fit(rows@),
        upto <= rows@.len(),
    ensures
        r == row_top(rows@, upto as int),
        0 <= r <= total(rows@),
{
    let mut sum: i32 = 0;
    let mut i: usize = 0;
    while i < upto
        invariant
            i <= upto <= rows@.len(),
            rows_fit(rows@),
            sum == row_top(rows@, i as int),
        decreases upto - i,
    {
        proof {
            lemma_row_top_bounds(rows@, i as int);
            lemma_row_top_bounds(rows@, i + 1);
        }
        sum = sum + rows[i];
        i += 1;
    }
    proof {
        lemma_row_top_bounds(rows@, upto as int);
    }
    sum
}

/// The height of the whole content.
pub fn content_height(rows: &Vec<i32>) -> (r: i32)
    requires
        rows_fit(rows@),
    ensures
        r == total(rows@),
        0 <= r <= MAX_CONTENT_H,
{
    let r: i32 = top_of(rows, rows.len());
    assert(rows@.take(rows@.len() as int) =~= rows@);
    proof {
        lemma_row_top_bounds(rows@, rows@.len() as int);
    }
    r
}

/// How far the content can be scrolled in a viewport of height `view_h`.
pub open spec fn scroll_limit(content: int, view_h: int) -> int {
    if content > view_h {
        content - view_h
    } else {
        0
    }
}

/// How far the content can be scrolled.
pub fn max_scroll(content: i32, view_h: i32) -> (r: i32)
    requires
        0 <= content,
        0 <= view_h,
    ensures
        r == scroll_limit(content as int, view_h as int),
{
    if content > view_h {
        content - view_h
    } else {
        0
    }
}

/// Where the viewport goes so that a row that was just selected can be read:
/// its top is pinned where the row starts too high (or, with `pin_tall`, is
/// taller than the viewport), its bottom where it ends too low, and nothing
/// moves otherwise.
pub open spec fn reveal_target(
    top: int,
    height: int,
    scroll: int,
    view_h: int,
    pin_tall: bool,
) -> Option<int> {
    if (pin_tall && height > view_h) || top < scroll + SCROLL_MARGIN {
        Some(
            if top > SCROLL_MARGIN {
                top - SCROLL_MARGIN
            } else {
                0
            },
        )
    } else if top + height > scroll + view_h - SCROLL_MARGIN {
        Some(
            if top + height + SCROLL_MARGIN > view_h {
                top + height + SCROLL_MARGIN - view_h
            } else {
                0
            },
        )
    } else {
        None
    }
}

/// [`reveal_target`] for a row at `top`.
pub fn reveal_at(top: i32, height: i32, scroll: i32, view_h: i32, pin_tall: bool) -> (r: Option<
    i32,
>)
    requires
        0 <= top,
        0 <= height,
        top + height <= MAX_CONTENT_H + 1000,
        -1000 <= scroll <= MAX_CONTENT_H,
        0 <= view_h <= 1000,
    ensures
        match r {
            Some(t) => reveal_target(
                top as int,
                height as int,
                scroll as int,
                view_h as int,
                pin_tall,
            ) == Some(t as int),
            None => reveal_target(
                top as int,
                height as int,
                scroll as int,
                view_h as int,
                pin_tall,
            ) is None,
        },
        r matches Some(t) ==> 0 <= t,
{
    if (pin_tall && height > view_h) || top < scroll + SCROLL_MARGIN {
        Some(
            if top > SCROLL_MARGIN {
                top - SCROLL_MARGIN
            } else {
                0
            },
        )
    } else if top + height > scroll + view_h - SCROLL_MARGIN {
        Some(
            if top + height + SCROLL_MARGIN > view_h {
                top + height + SCROLL_MARGIN - view_h
            } else {
                0
            },
        )
    } else {
        None
    }
}

/// [`reveal_target`] for row `selected`, in a viewport of height `view_h`
/// that shows the content from `scroll` on. A row that has not been measured
/// yet moves nothing.
pub fn reveal_row(
    rows: &Vec<i32>,
    selected: usize,
    scroll: i32,
    view_h: i32,
    pin_tall: bool,
) -> (r: Option<i32>)
    requires
        rows_fit(rows@),
        -1000 <= scroll <= MAX_CONTENT_H,
        0 <= view_h <= 1000,
    ensures
        selected < rows@.len() ==> (match r {
            Some(t) => reveal_target(
                row_top(rows@, selected as int),
                rows@[selected as int] as int,
                scroll as int,
                view_h as int,
                pin_tall,
            ) == Some(t as int),
            None => reveal_target(
                row_top(rows@, selected as int),
                rows@[selected as int] as int,
                scroll as int,
                view_h as int,
                pin_tall,
            ) is None,
        }),
        selected >= rows@.len() ==> r is None,
        r matches Some(t) ==> 0 <= t,
{
    if selected >= rows.len() {
        return None;
    }
    let top: i32 = top_of(rows, selected);
    proof {
        lemma_row_top_bounds(rows@, selected as int);
    }
    reveal_at(top, rows[selected], scroll, view_h, pin_tall)
}

/// The first row whose bottom lies below `scroll`; where there is none, the
/// last row (or 0 without rows).
pub open spec fn is_first_visible(rows: Seq<i32>, scroll: int, r: int) -> bool {
    let below = |i: int| row_top(rows, i) + rows[i] > scroll;
    if exists|i: int| 0 <= i < rows.len() && #[trigger] below(i) {
        &&& 0 <= r < rows.len()
        &&& below(r)
        &&& forall|i: int| 0 <= i < r ==> !#[trigger] below(i)
    } else {
        r == (if rows.len() > 0 {
            rows.len() - 1
        } else {
            0
        })
    }
}

/// The first row from `from` on whose bottom lies below `scroll`; where there
/// is none, the last row (or 0 without rows).
pub open spec fn first_visible(rows: Seq<i32>, scroll: int, from: int) -> int
    decreases rows.len() - from,
{
    if from >= rows.len() {
        if rows.len() > 0 {
            rows.len() - 1
        } else {
            0
        }
    } else if row_top(rows, from) + rows[from] > scroll {
        from
    } else {
        first_visible(rows, scroll, from + 1)
    }
}

/// The first row that shows at the given scroll position.
pub fn first_visible_idx(rows: &Vec<i32>, scroll: i32) -> (r: usize)
    requires
        tops_fit(rows@),
    ensures
        r == first_visible(rows@, scroll as int, 0),
        is_first_visible(rows@, scroll as int, r as int),
{
    let ghost below = |i: int| row_top(rows@, i) + rows@[i] > scroll;
    let mut y: i32 = 0;
    let mut i: usize = 0;
    while i < rows.len()
        invariant
            i <= rows@.len(),
            tops_fit(rows@),
            y == row_top(rows@, i as int),
            first_visible(rows@, scroll as int, 0) == first_visible(
                rows@,
                scroll as int,
                i as int,
            ),
            below == (|i: int| row_top(rows@, i) + rows@[i] > scroll),
            forall|k: int| 0 <= k < i ==> !#[trigger] below(k),
        decreases rows@.len() - i,
    {
        assert(rows@.take(i + 1).drop_last() =~= rows@.take(i as int));
        assert(i32::MIN <= row_top(rows@, i + 1) <= i32::MAX);
        if y + rows[i] > scroll {
            assert(below(i as int));
            return i;
        }
        assert(!below(i as int));
        y = y + rows[i];
        i += 1;
    }
    if rows.len() == 0 {
        0
    } else {
        rows.len() - 1
    }
}

/// The first row from `from` on that shares a pixel with a band, the first row
/// of all starting at `origin`; 0 where there is none.
pub open spec fn first_in_band(rows: Seq<i32>, origin: int, band: (int, int), from: int) -> int
    decreases rows.len() - from,
{
    if from >= rows.len() {
        0
    } else if in_band(origin + row_top(rows, from), rows[from] as int, band.0, band.1) {
        from
    } else {
        first_in_band(rows, origin, band, from + 1)
    }
}

/// The first row that shows in a band of the display; 0 where there is none.
pub fn first_row_in_band(rows: &Vec<i32>, origin: i32, band_top: i32, band_bottom: i32) -> (r:
    usize)
    requires
        rows_fit(rows@),
        -MAX_CONTENT_H <= origin <= 2000,
    ensures
        r == first_in_band(rows@, origin as int, (band_top as int, band_bottom as int), 0),
        r == 0 || r < rows@.len(),
{
    let ghost band = (band_top as int, band_bottom as int);
    let mut y: i32 = origin;
    let mut i: usize = 0;
    while i < rows.len()
        invariant
            i <= rows@.len(),
            rows_fit(rows@),
            -MAX_CONTENT_H <= origin <= 2000,
            y == origin + row_top(rows@, i as int),
            band == (band_top as int, band_bottom as int),
            first_in_band(rows@, origin as int, band, 0) == first_in_band(
                rows@,
                origin as int,
                band,
                i as int,
            ),
        decreases rows@.len() - i,
    {
        proof {
            lemma_row_top_bounds(rows@, i as int);
            lemma_row_top_bounds(rows@, i + 1);
        }
        let bottom: i32 = y + rows[i];
        if bottom > band_top && y < band_bottom {
            return i;
        }
        y = bottom;
        i += 1;
    }
    0
}

/// Whether row `selected` shares a pixel with a viewport of height `view_h`
/// at `scroll`. A row that has not been measured counts as visible.
pub fn row_visible(rows: &Vec<i32>, selected: usize, scroll: i32, view_h: i32) -> (r: bool)
    requires
        rows_fit(rows@),
        -1000 <= scroll <= MAX_CONTENT_H,
        0 <= view_h <= 1000,
    ensures
        r == (selected >= rows@.len() || in_band(
            row_top(rows@, selected as int),
            rows@[selected as int] as int,
            scroll as int,
            scroll + view_h,
        )),
{
    if selected >= rows.len() {
        return true;
    }
    let top: i32 = top_of(rows, selected);
    proof {
        lemma_row_top_bounds(rows@, selected as int);
    }
    let height: i32 = rows[selected];
    top + height > scroll && top < scroll + view_h
}

/// The selection after the up and down buttons, among `n` rows: up first,
/// then down, each only as far as there is a row.
pub open spec fn stepped(sel: int, up: bool, down: bool, n: int) -> int {
    let a = if up && sel > 0 {
        sel - 1
    } else {
        sel
    };
    if down && a + 1 < n {
        a + 1
    } else {
        a
    }
}

/// Whether the up and down buttons did anything.
pub open spec fn step_moves(sel: int, up: bool, down: bool, n: int) -> bool {
    let a = if up && sel > 0 {
        sel - 1
    } else {
        sel
    };
    (up && sel > 0) || (down && a + 1 < n)
}

/// Moves a selection by the up and down buttons: where it goes, and whether a
/// button did anything.
pub fn step_selection(sel: usize, up: bool, down: bool, n: usize) -> (r: (usize, bool))
    ensures
        r.0 == stepped(sel as int, up, down, n as int),
        r.1 == step_moves(sel as int, up, down, n as int),
        sel < n ==> r.0 < n,
{
    let mut s: usize = sel;
    let mut moved = false;
    if up && s > 0 {
        s = s - 1;
        moved = true;
    }
    if down && s < n && s + 1 < n {
        s = s + 1;
        moved = true;
    }
    (s, moved)
}

/// Height of a row with a small picture and two lines beside it.
pub const LIST_ROW_H: i32 = 68;

/// Whether so many such rows, and more behind them, can be drawn.
pub(crate) fn list_rows_hold(have: usize, more: usize) -> (r: bool)
    ensures
        r == (LIST_ROW_H * (have + more) <= MAX_CONTENT_H),
{
    (have as u128 + more as u128) * LIST_ROW_H as u128 <= MAX_CONTENT_H as u128
}

/// `n` such rows.
pub open spec fn uniform(n: nat) -> Seq<i32> {
    Seq::new(n, |i: int| LIST_ROW_H)
}

/// Rows of one height fit if there are not too many; each starts where the
/// ones before it end.
pub proof fn lemma_uniform(n: nat, i: int)
    requires
        LIST_ROW_H * n <= MAX_CONTENT_H,
        0 <= i <= n,
    ensures
        total(uniform(n)) == LIST_ROW_H * n,
        row_top(uniform(n), i) == LIST_ROW_H * i,
        rows_fit(uniform(n)),
{
    lemma_uniform_total(n);
    lemma_uniform_total(i as nat);
    assert(uniform(n).take(i) =~= uniform(i as nat));
}

proof fn lemma_uniform_total(n: nat)
    ensures
        total(uniform(n)) == LIST_ROW_H * n,
    decreases n,
{
    if n > 0 {
        lemma_uniform_total((n - 1) as nat);
        assert(uniform(n).drop_last() =~= uniform((n - 1) as nat));
    }
}

/// Adds rows until there are `n`.
pub fn fill_rows(rows: &mut Vec<i32>, n: usize)
    requires
        old(rows)@ == uniform(old(rows)@.len()),
        old(rows)@.len() <= n,
    ensures
        final(rows)@ == uniform(n as nat),
{
    while rows.len() < n
        invariant
            rows@ == uniform(rows@.len()),
            rows@.len() <= n,
        decreases n - rows@.len(),
    {
        let ghost before = rows@;
        rows.push(LIST_ROW_H);
        assert(rows@ =~= uniform(before.len() + 1));
    }
}

/// A row that shows, and where it starts on the display.
#[derive(Copy, Clone, Debug, PartialEq, Eq, Structural)]
pub struct VisibleRow {
    pub index: usize,
    pub y: i32,
}

/// The rows among the first `n` that share a pixel with a band, the first row
/// of all starting at `origin`.
pub open spec fn rows_in_band(rows: Seq<i32>, origin: int, band: (int, int), n: int) -> Seq<
    VisibleRow,
>
    decreases n,
{
    if n <= 0 {
        Seq::empty()
    } else {
        let before = rows_in_band(rows, origin, band, n - 1);
        let y = origin + row_top(rows, n - 1);
        if in_band(y, rows[n - 1] as int, band.0, band.1) {
            before.push(VisibleRow { index: (n - 1) as usize, y: y as i32 })
        } else {
            before
        }
    }
}

/// The rows among the first `count` that show in a band of the display.
pub fn visible_rows(rows: &Vec<i32>, count: usize, origin: i32, band_top: i32, band_bottom: i32)
    -> (r: Vec<VisibleRow>)
    requires
        rows_fit(rows@),
        -MAX_CONTENT_H <= origin <= 1000,
    ensures
        r@ == rows_in_band(
            rows@,
            origin as int,
            (band_top as int, band_bottom as int),
            if count <= rows@.len() {
                count as int
            } else {
                rows@.len() as int
            },
        ),
{
    let n: usize = if count <= rows.len() {
        count
    } else {
        rows.len()
    };
    let mut r: Vec<VisibleRow> = Vec::new();
    let mut y: i32 = origin;
    let mut i: usize = 0;
    while i < n
        invariant
            i <= n <= rows@.len(),
            rows_fit(rows@),
            -MAX_CONTENT_H <= origin <= 1000,
            y == origin + row_top(rows@, i as int),
            r@ == rows_in_band(
                rows@,
                origin as int,
                (band_top as int, band_bottom as int),
                i as int,
            ),
        decreases n - i,
    {
        proof {
            lemma_row_top_bounds(rows@, i as int);
            lemma_row_top_bounds(rows@, i + 1);
        }
        let bottom: i32 = y + rows[i];
        if bottom > band_top && y < band_bottom {
            r.push(VisibleRow { index: i, y });
        }
        y = bottom;
        i += 1;
    }
    r
}

proof fn lemma_shown_row(rows: Seq<i32>, origin: int, band: (int, int), n: int, k: int)
    requires
        rows_fit(rows),
        -MAX_CONTENT_H <= origin <= 1000,
        0 <= n <= rows.len() <= usize::MAX,
        0 <= k < rows_in_band(rows, origin, band, n).len(),
    ensures
        ({
            let v = rows_in_band(rows, origin, band, n);
            &&& v[k].index < n
            &&& v[k].y == origin + row_top(rows, v[k].index as int)
            &&& in_band(v[k].y as int, rows[v[k].index as int] as int, band.0, band.1)
        }),
    decreases n,
{
    if n > 0 {
        lemma_row_top_bounds(rows, n - 1);
        if k < rows_in_band(rows, origin, band, n - 1).len() {
            lemma_shown_row(rows, origin, band, n - 1, k);
        }
    }
}

proof fn lemma_shown_in_order(
    rows: Seq<i32>,
    origin: int,
    band: (int, int),
    n: int,
    j: int,
    k: int,
)
    requires
        rows_fit(rows),
        -MAX_CONTENT_H <= origin <= 1000,
        0 <= n <= rows.len() <= usize::MAX,
        0 <= j < k < rows_in_band(rows, origin, band, n).len(),
    ensures
        rows_in_band(rows, origin, band, n)[j].index < rows_in_band(
            rows,
            origin,
            band,
            n,
        )[k].index,
    decreases n,
{
    if n > 0 {
        lemma_shown_row(rows, origin, band, n - 1, j);
        if k < rows_in_band(rows, origin, band, n - 1).len() {
            lemma_shown_in_order(rows, origin, band, n - 1, j, k);
        }
    }
}

proof fn lemma_row_is_shown(rows: Seq<i32>, origin: int, band: (int, int), n: int, i: int) -> (k:
    int)
    requires
        0 <= i < n <= rows.len() <= usize::MAX,
        in_band(origin + row_top(rows, i), rows[i] as int, band.0, band.1),
    ensures
        0 <= k < rows_in_band(rows, origin, band, n).len(),
        rows_in_band(rows, origin, band, n)[k].index == i,
    decreases n,
{
    if i < n - 1 {
        lemma_row_is_shown(rows, origin, band, n - 1, i)
    } else {
        rows_in_band(rows, origin, band, n).len() - 1
    }
}

/// Each row that shows comes once, in order, at its own place; and no row that
/// shows is left out.
pub proof fn lemma_visible_rows_exact(rows: Seq<i32>, origin: int, band: (int, int), n: int)
    requires
        rows_fit(rows),
        -MAX_CONTENT_H <= origin <= 1000,
        0 <= n <= rows.len() <= usize::MAX,
    ensures
        ({
            let v = rows_in_band(rows, origin, band, n);
            &&& forall|k: int|
                0 <= k < v.len() ==> {
                    &&& (#[trigger] v[k]).index < n
                    &&& v[k].y == origin + row_top(rows, v[k].index as int)
                    &&& in_band(v[k].y as int, rows[v[k].index as int] as int, band.0, band.1)
                }
            &&& forall|j: int, k: int|
                0 <= j < k < v.len() ==> (#[trigger] v[j]).index < (#[trigger] v[k]).index
            &&& forall|i: int|
                0 <= i < n && in_band(origin + row_top(rows, i), rows[i] as int, band.0, band.1)
                    ==> exists|k: int| 0 <= k < v.len() && (#[trigger] v[k]).index == i
        }),
{
    let v = rows_in_band(rows, origin, band, n);
    assert forall|k: int| 0 <= k < v.len() implies {
        &&& (#[trigger] v[k]).index < n
        &&& v[k].y == origin + row_top(rows, v[k].index as int)
        &&& in_band(v[k].y as int, rows[v[k].index as int] as int, band.0, band.1)
    } by {
        lemma_shown_row(rows, origin, band, n, k);
    }
    assert forall|j: int, k: int| 0 <= j < k < v.len() implies (#[trigger] v[j]).index < (
    #[trigger] v[k]).index by {
        lemma_shown_in_order(rows, origin, band, n, j, k);
    }
    assert forall|i: int|
        0 <= i < n && in_band(
            origin + row_top(rows, i),
            rows[i] as int,
            band.0,
            band.1,
        ) implies exists|k: int| 0 <= k < v.len() && (#[trigger] v[k]).index == i by {
        let k = lemma_row_is_shown(rows, origin, band, n, i);
        assert(v[k].index == i);
    }
}

/// Following a reveal, a row that fits into the viewport with its margins lies
/// within it.
pub proof fn lemma_reveal_shows_row(
    top: int,
    height: int,
    scroll: int,
    view_h: int,
    pin_tall: bool,
)
    requires
        0 <= top,
        0 <= height,
        0 <= scroll,
        height + 2 * SCROLL_MARGIN <= view_h,
    ensures
        match reveal_target(top, height, scroll, view_h, pin_tall) {
            Some(t) => t <= top && top + height <= t + view_h,
            None => scroll <= top && top + height <= scroll + view_h,
        },
{
}

} // verus!
