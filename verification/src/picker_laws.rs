//! What the file picker lists, enters and picks.

use vstd::prelude::*;

#[allow(unused_imports)]
use crate::dir_listing::{
    child_of, comes_before, entry_before, image_name, lemma_listing, listing, parent_of, place_of,
    shown, DirEntry,
};
#[allow(unused_imports)]
use crate::file_picker::{
    cell_place, cell_shows, chips_followed, cursor_followed, files_read, shortcut_at,
    shortcut_label, shortcut_root, shoulder_followed, thumbs_after, thumbs_asked, thumbs_requested,
    FilePicker, GridBody, PickResult, ThumbState,
};
#[allow(unused_imports)]
use crate::picker_frame::{frame_ended, keys_followed, PickerEnd, PickerKeys};
#[allow(unused_imports)]
use crate::requests::WorkRequest;
#[allow(unused_imports)]
use crate::text::{ascii_lower, ascii_lowered, has_suffix};
#[allow(unused_imports)]
use crate::widget::{PadFrame, TouchPoint, Truncation};

verus! {

// ── Listings ───────────────────────────────────────────────────────────

/// A name is that of a picture where it ends in one of three endings, in small
/// letters or capitals.
pub proof fn lemma_picture_names(stem: Seq<char>, name: Seq<char>)
    ensures
        image_name(stem + ".jpg"@) && image_name(stem + ".jpeg"@) && image_name(stem + ".png"@),
        image_name(ascii_lowered(name)) <==> image_name(name),
        image_name(name) ==> name.len() >= 4 && (name[name.len() - 4] == '.' || (name.len() >= 5
            && name[name.len() - 5] == '.')),
{
    reveal_strlit(".jpg");
    reveal_strlit(".jpeg");
    reveal_strlit(".png");
    assert(ascii_lowered(ascii_lowered(name)) =~= ascii_lowered(name));
    let a = ascii_lowered(stem + ".jpg"@);
    assert(a.subrange(a.len() - 4, a.len() as int) =~= ".jpg"@);
    let b = ascii_lowered(stem + ".jpeg"@);
    assert(b.subrange(b.len() - 5, b.len() as int) =~= ".jpeg"@);
    let c = ascii_lowered(stem + ".png"@);
    assert(c.subrange(c.len() - 4, c.len() as int) =~= ".png"@);
    let l = ascii_lowered(name);
    if has_suffix(l, ".jpg"@) {
        assert(l.subrange(l.len() - 4, l.len() as int)[0] == '.');
    } else if has_suffix(l, ".png"@) {
        assert(l.subrange(l.len() - 4, l.len() as int)[0] == '.');
    } else if has_suffix(l, ".jpeg"@) {
        assert(l.subrange(l.len() - 5, l.len() as int)[0] == '.');
    }
    if image_name(name) {
        assert(forall|i: int| 0 <= i < name.len() && l[i] == '.' ==> name[i] == '.') by {
            assert forall|i: int| 0 <= i < name.len() && l[i] == '.' implies name[i] == '.' by {
                assert(l[i] == ascii_lower(name[i]));
            }
        }
    }
}

/// A name comes before another where it is a shorter beginning of it, or has the
/// smaller letter at the first place where they differ.
pub proof fn lemma_dictionary_order(a: Seq<char>, b: Seq<char>, k: int)
    requires
        0 <= k <= a.len(),
        k <= b.len(),
        forall|i: int| 0 <= i < k ==> #[trigger] a[i] == b[i],
        k == a.len() || k == b.len() || a[k] != b[k],
    ensures
        comes_before(a, b, 0) <==> k < b.len() && (k == a.len() || a[k] < b[k]),
{
    lemma_same_until(a, b, 0, k);
}

proof fn lemma_same_until(a: Seq<char>, b: Seq<char>, from: int, k: int)
    requires
        0 <= from <= k <= a.len(),
        k <= b.len(),
        forall|i: int| from <= i < k ==> #[trigger] a[i] == b[i],
    ensures
        comes_before(a, b, from) == comes_before(a, b, k),
    decreases k - from,
{
    if from < k {
        assert(a[from] == b[from]);
        lemma_same_until(a, b, from + 1, k);
    }
}

/// A folder that was read shows its folders and its pictures, each as often as
/// it is there, and no other file; folders stand before pictures, and names in
/// the order of a dictionary, capitals or not. The cursor starts at the first.
pub proof fn lemma_folder_shown(a: FilePicker, b: FilePicker, es: Vec<DirEntry>, e: DirEntry, i: int, j: int)
    requires
        FilePicker::loaded(a, b, Ok(es)),
    ensures
        b.entries@.contains(e) <==> es@.contains(e) && (e.is_dir || image_name(e.name@)),
        0 <= i < j < b.entries@.len() ==> {
            &&& b.entries@[j].is_dir ==> b.entries@[i].is_dir
            &&& b.entries@[i].is_dir == b.entries@[j].is_dir ==> !comes_before(
                ascii_lowered(b.entries@[j].name@),
                ascii_lowered(b.entries@[i].name@),
                0,
            )
        },
        b.error is None,
        b.loaded && b.cursor == 0 && b.scroll_row == 0,
        b.path == a.path,
        b.thumbs@ == Map::<Seq<char>, ThumbState>::empty(),
{
    let n = es@.len() as int;
    lemma_listing(es@, n);
    lemma_listed(es@, n, e);
    assert(es@.take(n) =~= es@);
    if 0 <= i < j < b.entries@.len() {
        assert(!entry_before(b.entries@[j], b.entries@[i]));
    }
}

proof fn lemma_listed(es: Seq<DirEntry>, n: int, e: DirEntry)
    requires
        0 <= n <= es.len(),
    ensures
        listing(es, n).contains(e) <==> es.take(n).contains(e) && shown(e),
    decreases n,
{
    if n > 0 {
        lemma_listed(es, n - 1, e);
        let before = listing(es, n - 1);
        let x = es[n - 1];
        let p = place_of(before, x, 0);
        lemma_place_bounds(before, x, 0);
        let after = before.insert(p, x);
        assert(es.take(n) =~= es.take(n - 1).push(x));
        let read = es.take(n - 1);
        if read.contains(e) {
            let k = choose|k: int| 0 <= k < read.len() && read[k] == e;
            assert(es.take(n)[k] == e);
        }
        if e == x {
            assert(es.take(n)[n - 1] == e);
        }
        if shown(x) {
            assert(after[p] == x);
            if before.contains(e) {
                let k = choose|k: int| 0 <= k < before.len() && before[k] == e;
                assert(after[if k < p {
                    k
                } else {
                    k + 1
                }] == e);
            }
            if after.contains(e) && e != x {
                let k = choose|k: int| 0 <= k < after.len() && after[k] == e;
                assert(before[if k < p {
                    k
                } else {
                    k - 1
                }] == e);
            }
        }
    }
}

proof fn lemma_place_bounds(s: Seq<DirEntry>, e: DirEntry, from: int)
    requires
        0 <= from <= s.len(),
    ensures
        from <= place_of(s, e, from) <= s.len(),
    decreases s.len() - from,
{
    if from < s.len() && !entry_before(e, s[from]) {
        lemma_place_bounds(s, e, from + 1);
    }
}

/// A folder that could not be read shows nothing but the reason.
pub proof fn lemma_unread_folder(a: FilePicker, b: FilePicker, e: String, r: GridBody)
    requires
        FilePicker::loaded(a, b, Err(e)),
        FilePicker::shown_body(b, r),
    ensures
        b.entries@.len() == 0,
        r matches GridBody::Problem(t) && t@ == "Can't open: "@ + e@,
        b.loaded && b.path == a.path,
{
}

/// The grid shows cells just where a folder was read that holds any.
pub proof fn lemma_grid_body(s: FilePicker, r: GridBody)
    requires
        FilePicker::shown_body(s, r),
    ensures
        r is Problem <==> s.error is Some,
        r is Cells <==> s.error is None && s.entries@.len() > 0,
        r is Empty <==> s.error is None && s.entries@.len() == 0,
{
}

// ── Shortcuts ──────────────────────────────────────────────────────────

/// Each shortcut leads to the folder of its name, and the picker starts at the
/// photos, with nothing read yet.
pub proof fn lemma_shortcuts(i: int, p: FilePicker)
    requires
        0 <= i < 3,
        p.fresh(),
    ensures
        shortcut_root(i) == "ux0:picture/"@ <==> shortcut_label(i) == "Photos"@,
        shortcut_root(i) == "ux0:download/"@ <==> shortcut_label(i) == "Downloads"@,
        shortcut_root(i) == "ux0:"@ <==> shortcut_label(i) == "Browse"@,
        shortcut_label(0) == "Photos"@ && shortcut_label(1) == "Downloads"@ && shortcut_label(2)
            == "Browse"@,
        p.path@ == "ux0:picture/"@,
        !p.loaded && p.entries@.len() == 0 && p.error is None,
{
    lemma_shortcut_texts();
}

proof fn lemma_shortcut_texts()
    ensures
        "ux0:picture/"@ != "ux0:download/"@,
        "ux0:picture/"@ != "ux0:"@,
        "ux0:download/"@ != "ux0:"@,
        "Photos"@ != "Downloads"@,
        "Photos"@ != "Browse"@,
        "Downloads"@ != "Browse"@,
{
    reveal_strlit("ux0:picture/");
    reveal_strlit("ux0:download/");
    reveal_strlit("ux0:");
    reveal_strlit("Photos");
    reveal_strlit("Downloads");
    reveal_strlit("Browse");
    assert("ux0:picture/"@.len() == 12);
    assert("ux0:download/"@.len() == 13);
    assert("ux0:"@.len() == 4);
    assert("Photos"@[0] == 'P');
    assert("Downloads"@[0] == 'D');
    assert("Browse"@[0] == 'B');
}

/// The right shoulder goes from the photos to the downloads, on to the drive and
/// back to the photos; the left one goes the other way round. From elsewhere the
/// right one leads to the photos and the left one to the drive. The folder is
/// read anew.
pub proof fn lemma_shoulders(a: FilePicker, b: FilePicker, pad: PadFrame, r: bool)
    requires
        shoulder_followed(a, b, pad, r),
    ensures
        r <==> pad.l1 || pad.r1,
        !r ==> b == a,
        r ==> !b.loaded && b.entries == a.entries,
        pad.r1 ==> {
            &&& a.path@ == "ux0:picture/"@ ==> b.path@ == "ux0:download/"@
            &&& a.path@ == "ux0:download/"@ ==> b.path@ == "ux0:"@
            &&& a.path@ != "ux0:picture/"@ && a.path@ != "ux0:download/"@ ==> b.path@
                == "ux0:picture/"@
        },
        pad.l1 && !pad.r1 ==> {
            &&& a.path@ == "ux0:"@ ==> b.path@ == "ux0:download/"@
            &&& a.path@ == "ux0:download/"@ ==> b.path@ == "ux0:picture/"@
            &&& a.path@ != "ux0:"@ && a.path@ != "ux0:download/"@ ==> b.path@ == "ux0:"@
        },
{
    lemma_shortcut_texts();
    reveal_with_fuel(shortcut_at, 4);
}

/// The shortcut that a touch lifts off is gone to; without such a touch the
/// picker stays where it is.
pub proof fn lemma_chip_taps(
    a: FilePicker,
    b: FilePicker,
    widths: Seq<i32>,
    touches: Seq<TouchPoint>,
    r: bool,
    i: int,
)
    requires
        chips_followed(a, b, widths, touches, r),
        0 <= i < 3,
    ensures
        touches.len() > 0 ==> !r,
        !r ==> b.path == a.path && b.loaded == a.loaded,
        r ==> !b.loaded,
        touches.len() == 0 && a.chip_btns@[i].pressed_last && (forall|j: int|
            0 <= j < 3 && j != i ==> !(#[trigger] a.chip_btns@[j]).pressed_last) ==> r && b.path@
            == shortcut_root(i),
        (forall|j: int| 0 <= j < 3 ==> !(#[trigger] a.chip_btns@[j]).pressed_last) ==> !r,
        b.entries == a.entries && b.cursor == a.cursor,
{
    reveal_with_fuel(FilePicker::chip_tapped, 4);
    assert(a.chip_btns@[0].pressed_last || !a.chip_btns@[0].pressed_last);
    assert(a.chip_btns@[1].pressed_last || !a.chip_btns@[1].pressed_last);
    assert(a.chip_btns@[2].pressed_last || !a.chip_btns@[2].pressed_last);
}

// ── The grid ───────────────────────────────────────────────────────────

/// Each direction moves the cursor by one cell that way, four cells to a row, and
/// not where there is none; the row of the cursor shows.
pub proof fn lemma_cursor_moves(a: FilePicker, pad: PadFrame)
    requires
        a.wf(),
        a.entries@.len() > 0,
    ensures
        ({
            let b = cursor_followed(a, pad);
            let c = a.cursor as int;
            let n = a.entries@.len() as int;
            &&& pad.right && !pad.left && !pad.up && !pad.down ==> b.cursor == (if c % 4 < 3 && c + 1
                < n {
                c + 1
            } else {
                c
            })
            &&& pad.left && !pad.right && !pad.up && !pad.down ==> b.cursor == (if c % 4 > 0 {
                c - 1
            } else {
                c
            })
            &&& pad.down && !pad.up && !pad.left && !pad.right ==> b.cursor == (if c + 4 < n {
                c + 4
            } else {
                c
            })
            &&& pad.up && !pad.down && !pad.left && !pad.right ==> b.cursor == (if c >= 4 {
                c - 4
            } else {
                c
            })
            &&& cell_shows(b.cursor as int, b.scroll_row as int)
            &&& b.entries == a.entries && b.path == a.path && b.loaded == a.loaded
        }),
{
    assert(a.entries.len() == a.entries@.len());
}

/// The cross enters the folder under the cursor and picks the picture under it,
/// by its whole path.
pub proof fn lemma_cross_activates(a: FilePicker, b: FilePicker, pad: PadFrame, out: PickerKeys)
    requires
        a.wf(),
        keys_followed(a, b, pad, out),
        pad.cross,
        a.entries@.len() > 0,
    ensures
        ({
            let m = cursor_followed(a, pad);
            let e = a.entries@[m.cursor as int];
            &&& out.ends
            &&& e.is_dir ==> out.result is None && b.path@ == child_of(a.path@, e.name@)
                && !b.loaded
            &&& !e.is_dir ==> (out.result matches Some(PickResult::Picked(p)) && p@ == child_of(
                a.path@,
                e.name@,
            )) && b.path == a.path
        }),
{
    lemma_cursor_moves(a, pad);
    lemma_cursor_inside(a, pad);
}

proof fn lemma_cursor_inside(a: FilePicker, pad: PadFrame)
    requires
        a.wf(),
        a.entries@.len() > 0,
    ensures
        cursor_followed(a, pad).cursor < a.entries@.len(),
{
    assert(a.entries.len() == a.entries@.len());
}

/// The circle goes up to the folder around, which is read; from a drive it leaves
/// the picker. Without it nothing is left.
pub proof fn lemma_circle_goes_up(a: FilePicker, b: FilePicker, pad: PadFrame, out: PickerKeys)
    requires
        a.wf(),
        keys_followed(a, b, pad, out),
        !pad.cross,
    ensures
        pad.circle ==> match parent_of(a.path@) {
            Some(p) => out.result is None && b.path@ == p && !b.loaded,
            None => out.result == Some(PickResult::Cancelled) && b.path == a.path,
        },
        !pad.circle ==> out.result is None && b.path == a.path && b.loaded == a.loaded,
        b.entries == a.entries,
        out.ends <==> out.result is Some,
{
}

/// A name below a folder is the folder's path and the name, with one slash
/// between them, or none behind a drive.
pub proof fn lemma_path_of_child(path: Seq<char>, name: Seq<char>)
    ensures
        path.len() > 0 && path.last() == ':' ==> child_of(path, name) == path + name,
        path.len() > 0 && path.last() == '/' ==> child_of(path, name) == path + name,
        path.len() == 0 || (path.last() != ':' && path.last() != '/') ==> child_of(path, name)
            == path.push('/') + name,
{
    reveal_strlit("/");
    assert(path + "/"@ + name =~= path.push('/') + name);
}

proof fn lemma_cell_tapped(a: FilePicker, touches: Seq<TouchPoint>, n: int)
    requires
        0 <= n <= a.cell_btns@.len(),
    ensures
        match a.cell_tapped(touches, n) {
            Some(i) => {
                &&& 0 <= i < n
                &&& cell_shows(i, a.scroll_row as int)
                &&& a.cell_btns@[i].pressed_last
                &&& touches.len() == 0
                &&& forall|j: int|
                    i < j < n && cell_shows(j, a.scroll_row as int) ==> !(
                    #[trigger] a.cell_btns@[j]).pressed_last
            },
            None => touches.len() > 0 || forall|j: int|
                0 <= j < n && cell_shows(j, a.scroll_row as int) ==> !(
                #[trigger] a.cell_btns@[j]).pressed_last,
        },
    decreases n,
{
    if n > 0 {
        lemma_cell_tapped(a, touches, n - 1);
    }
}

/// The cell that a touch lifts off is activated: a folder is entered, a picture
/// picked. While a touch lasts, and where no cell that shows was touched, nothing
/// is.
pub proof fn lemma_cell_taps(
    a: FilePicker,
    b: FilePicker,
    touches: Seq<TouchPoint>,
    has_worker: bool,
    out: PickerEnd,
    i: int,
)
    requires
        a.wf(),
        frame_ended(a, b, touches, has_worker, out),
    ensures
        touches.len() > 0 || a.error is Some ==> out.result is None && b.path == a.path,
        out.result matches Some(r) ==> (r matches PickResult::Picked(p) && exists|k: int|
            0 <= k < a.entries@.len() && cell_shows(k, a.scroll_row as int)
                && a.cell_btns@[k].pressed_last && !(#[trigger] a.entries@[k]).is_dir && p@
                == child_of(a.path@, a.entries@[k].name@)),
        0 <= i < a.entries@.len() && touches.len() == 0 && a.error is None && cell_shows(
            i,
            a.scroll_row as int,
        ) && a.cell_btns@[i].pressed_last && (forall|j: int|
            0 <= j < a.entries@.len() && j != i ==> !(#[trigger] a.cell_btns@[j]).pressed_last)
            ==> {
            let e = a.entries@[i];
            &&& e.is_dir ==> out.result is None && b.path@ == child_of(a.path@, e.name@)
                && !b.loaded
            &&& !e.is_dir ==> (out.result matches Some(PickResult::Picked(p)) && p@ == child_of(
                a.path@,
                e.name@,
            ))
        },
{
    assert(a.entries.len() == a.entries@.len());
    assert forall|t: FilePicker|
        t.cell_btns == a.cell_btns && t.entries == a.entries && t.scroll_row
            == a.scroll_row implies #[trigger] t.cell_tapped(touches, a.entries@.len() as int)
        == a.cell_tapped(touches, a.entries@.len() as int) by {
        lemma_tap_by_cells(a, t, touches, a.entries@.len() as int);
    }
    lemma_cell_tapped(a, touches, a.entries@.len() as int);
}

proof fn lemma_tap_by_cells(a: FilePicker, t: FilePicker, touches: Seq<TouchPoint>, n: int)
    requires
        t.cell_btns == a.cell_btns,
        t.scroll_row == a.scroll_row,
    ensures
        t.cell_tapped(touches, n) == a.cell_tapped(touches, n),
    decreases n,
{
    if n > 0 {
        lemma_tap_by_cells(a, t, touches, n - 1);
    }
}

/// The twelve cells that show lie apart and on the display.
pub proof fn lemma_cells_apart(i: int, j: int, scroll_row: int)
    requires
        0 <= i,
        0 <= j,
        0 <= scroll_row,
        i != j,
        cell_shows(i, scroll_row),
        cell_shows(j, scroll_row),
    ensures
        ({
            let a = cell_place(i, scroll_row);
            let b = cell_place(j, scroll_row);
            &&& a.x + a.w <= b.x || b.x + b.w <= a.x || a.y + a.h <= b.y || b.y + b.h <= a.y
            &&& 0 <= a.x && a.x + a.w <= 960 && 0 <= a.y && a.y + a.h <= 544
        }),
{
    assert(i == 4 * (i / 4) + i % 4);
    assert(j == 4 * (j / 4) + j % 4);
}

// ── Small pictures ─────────────────────────────────────────────────────

proof fn lemma_thumbs(p: FilePicker, n: int)
    requires
        0 <= n <= p.entries@.len(),
    ensures
        forall|i: int|
            0 <= i < n && cell_shows(i, p.scroll_row as int) && !(
            #[trigger] p.entries@[i]).is_dir && !p.thumbs@.contains_key(
                child_of(p.path@, p.entries@[i].name@),
            ) ==> thumbs_asked(p, n).contains(child_of(p.path@, p.entries@[i].name@)),
        forall|path: Seq<char>|
            #![trigger thumbs_after(p, n).contains_key(path)]
            thumbs_after(p, n).contains_key(path) <==> p.thumbs@.contains_key(path)
                || thumbs_asked(p, n).contains(path),
        forall|path: Seq<char>|
            p.thumbs@.contains_key(path) ==> #[trigger] thumbs_after(p, n)[path] == p.thumbs@[path],
        forall|j: int, k: int|
            0 <= j < k < thumbs_asked(p, n).len() ==> #[trigger] thumbs_asked(p, n)[j]
                != #[trigger] thumbs_asked(p, n)[k],
    decreases n,
{
    if n > 0 {
        lemma_thumbs(p, n - 1);
        let before = thumbs_asked(p, n - 1);
        let after = thumbs_asked(p, n);
        let path = child_of(p.path@, p.entries@[n - 1].name@);
        assert(forall|x: Seq<char>| before.contains(x) ==> after.contains(x)) by {
            assert forall|x: Seq<char>| before.contains(x) implies after.contains(x) by {
                let k = choose|k: int| 0 <= k < before.len() && before[k] == x;
                assert(after[k] == x);
            }
        }
        if p.thumb_due(n - 1, thumbs_after(p, n - 1)) {
            assert(after == before.push(path));
            assert(after[before.len() as int] == path);
            assert forall|j: int, k: int| 0 <= j < k < after.len() implies #[trigger] after[j]
                != #[trigger] after[k] by {
                assert(after[j] == before[j]);
                if k == before.len() {
                    assert(before.contains(before[j]));
                }
            }
            assert forall|x: Seq<char>| after.contains(x) implies before.contains(x) || x == path by {
                let k = choose|k: int| 0 <= k < after.len() && after[k] == x;
                if k < before.len() {
                    assert(before[k] == x);
                }
            }
        }
    }
}

proof fn lemma_asked_for_entry(p: FilePicker, n: int, k: int) -> (i: int)
    requires
        0 <= n <= p.entries@.len(),
        0 <= k < thumbs_asked(p, n).len(),
    ensures
        0 <= i < n,
        cell_shows(i, p.scroll_row as int),
        !p.entries@[i].is_dir,
        thumbs_asked(p, n)[k] == child_of(p.path@, p.entries@[i].name@),
        !p.thumbs@.contains_key(thumbs_asked(p, n)[k]),
    decreases n,
{
    lemma_thumbs(p, n - 1);
    if k < thumbs_asked(p, n - 1).len() {
        lemma_asked_for_entry(p, n - 1, k)
    } else {
        n - 1
    }
}

/// The small pictures of the pictures that show are asked for by their paths,
/// each once and never again; no folder and no hidden cell is asked for.
pub proof fn lemma_small_pictures_asked(
    a: FilePicker,
    b: FilePicker,
    requests: Seq<WorkRequest>,
    i: int,
    k: int,
)
    requires
        thumbs_requested(a, b, requests),
    ensures
        0 <= i < a.entries@.len() && cell_shows(i, a.scroll_row as int) && !a.entries@[i].is_dir ==> {
            let p = child_of(a.path@, a.entries@[i].name@);
            &&& b.thumbs@.contains_key(p)
            &&& !a.thumbs@.contains_key(p) ==> files_read(requests).contains(p)
            &&& a.thumbs@.contains_key(p) ==> b.thumbs@[p] == a.thumbs@[p] && !files_read(
                requests,
            ).contains(p)
        },
        0 <= k < requests.len() ==> requests[k] is ReadImageFile && exists|j: int|
            0 <= j < a.entries@.len() && cell_shows(j, a.scroll_row as int) && !(
            #[trigger] a.entries@[j]).is_dir && (requests[k]->ReadImageFile_path)@ == child_of(
                a.path@,
                a.entries@[j].name@,
            ),
        b.path == a.path && b.entries == a.entries && b.cursor == a.cursor,
{
    let n = a.entries@.len() as int;
    lemma_thumbs(a, n);
    let asked = thumbs_asked(a, n);
    assert(asked.len() == requests.len());
    if 0 <= k < requests.len() {
        assert(files_read(requests)[k] == asked[k]);
        assert(requests[k] is ReadImageFile);
        let j = lemma_asked_for_entry(a, n, k);
        assert(!a.entries@[j].is_dir);
    }
    if 0 <= i < n && cell_shows(i, a.scroll_row as int) && !a.entries@[i].is_dir {
        let p = child_of(a.path@, a.entries@[i].name@);
        assert(thumbs_after(a, n).contains_key(p));
        if a.thumbs@.contains_key(p) && asked.contains(p) {
            let m = choose|m: int| 0 <= m < asked.len() && asked[m] == p;
            let j = lemma_asked_for_entry(a, n, m);
        }
    }
}

/// A small picture that came is ready, one that failed says so, and the others
/// stay as they are; one that was not asked for is not kept.
pub proof fn lemma_small_picture_came(
    a: FilePicker,
    b: FilePicker,
    path: Seq<char>,
    decoded: bool,
    other: Seq<char>,
)
    requires
        FilePicker::thumb_taken(a, b, path, decoded),
    ensures
        a.thumbs@.contains_key(path) && decoded ==> b.thumbs@[path] is Ready,
        a.thumbs@.contains_key(path) && !decoded ==> b.thumbs@[path] is Failed,
        b.thumbs@.contains_key(path) <==> a.thumbs@.contains_key(path),
        other != path ==> (b.thumbs@.contains_key(other) <==> a.thumbs@.contains_key(other)),
        other != path && a.thumbs@.contains_key(other) ==> b.thumbs@[other] == a.thumbs@[other],
        b.entries == a.entries && b.path == a.path && b.cursor == a.cursor,
{
}

/// What is known of the small picture of an entry is looked up by its own path.
pub proof fn lemma_small_picture_of(s: FilePicker, idx: usize, r: Option<ThumbState>, wanted: bool)
    requires
        idx < s.entries@.len(),
        FilePicker::thumb_is(s, idx, r),
        FilePicker::thumb_wanted(s, child_of(s.path@, s.entries@[idx as int].name@), wanted),
    ensures
        r is Some <==> wanted,
        r matches Some(t) ==> t == s.thumbs@[child_of(s.path@, s.entries@[idx as int].name@)],
{
}

// ── Labels ─────────────────────────────────────────────────────────────

/// A text that fits is shown whole; else the last character is dropped, one at a
/// time, until what is left fits with its ellipsis.
pub proof fn lemma_text_cut(a: Truncation, b: Truncation, width: i32, max_w: i32, r: Option<String>)
    requires
        a.wf(),
        Truncation::cut_told(a, b, width, max_w, r),
    ensures
        b.source() == a.source(),
        a.kept() is None && width <= max_w ==> r is Some && (r->0)@ == a.source(),
        a.kept() matches Some(k) ==> width <= max_w ==> r is Some && (r->0)@ == a.source().take(
            k,
        ).push('…'),
        r is None ==> width > max_w && b.kept() == Some(
            match a.kept() {
                None => a.source().len() - 1,
                Some(k) => k - 1,
            },
        ),
        width > max_w && r is Some ==> (r->0)@ == seq!['…'],
{
    if let Some(k) = a.kept() {
        assert(a.source().subrange(0, k) =~= a.source().take(k));
    }
}

} // verus!
