//! What the screens say, and what their small parts do.

use vstd::prelude::*;

#[allow(unused_imports)]
use crate::camera::CameraDevice;
#[allow(unused_imports)]
use crate::compose::{ComposeScreen, ComposeState};
#[allow(unused_imports)]
use crate::conversation::{name_told, named_member, short_form};
#[allow(unused_imports)]
use crate::engagement::{toggle_request_is, EngagementKind};
#[allow(unused_imports)]
use crate::hints::{HintBar, HintOverlay, HintWidths};
#[allow(unused_imports)]
use crate::image_viewer::ImageViewerScreen;
#[allow(unused_imports)]
use crate::model::{name_or_handle, Author, GeneratorView, ListView, ProfileDetail, StarterPackView};
#[allow(unused_imports)]
use crate::post_row::palette;
#[allow(unused_imports)]
use crate::posting::ThreadPoster;
#[allow(unused_imports)]
use crate::profile::ProfileScreen;
#[allow(unused_imports)]
use crate::profile_text::{
    likes_told, maker_told, members_told, named, pack_parts, pack_titled, pack_told, verified,
};
#[allow(unused_imports)]
use crate::requests::{ReplyTarget, WorkRequest, WorkResponse};
#[allow(unused_imports)]
use crate::tabbar::{tab_at, tab_label, tab_rect, TopLevel};
#[allow(unused_imports)]
use crate::text::{decimal, decimal_int};
#[allow(unused_imports)]
use crate::thread::{ThreadScreen, ThreadState};
#[allow(unused_imports)]
use crate::timeline::TimelineScreen;
#[allow(unused_imports)]
use crate::video::{
    code_text, frame_sized, granted, laid_out, samples_counted, VideoError, VideoPlayer,
};
#[allow(unused_imports)]
use crate::video_player::{VideoPlayerScreen, VideoState};
#[allow(unused_imports)]
use crate::widget::{
    field_read, inside, pressed, ButtonState, FieldState, FieldText, PadFrame, Rect, TouchPoint,
};
#[allow(unused_imports)]
use crate::worker::{mark_made, mark_refused, seen_told};

verus! {

// ── Drafts ─────────────────────────────────────────────────────────────

/// A draft says whether it is a reply and to whom, shows what was typed, or what
/// to do where nothing was, and counts it against the room there is.
pub proof fn lemma_draft_reads(
    s: ComposeScreen,
    title: String,
    line: Option<String>,
    body: String,
    count: String,
    place: String,
)
    requires
        ComposeScreen::titled(s, title),
        ComposeScreen::reply_told(s, line),
        ComposeScreen::body_shown(s, body),
        ComposeScreen::count_shown(s, count),
        ComposeScreen::place_shown(s, place),
    ensures
        s.reply_to is Some ==> title@ == "Reply"@,
        s.reply_to is None ==> title@ == "New post"@,
        line is Some <==> s.reply_handle is Some,
        s.reply_handle matches Some(h) ==> (line->0)@ == "Replying to @"@ + h@,
        s.draft.at().text@.len() > 0 ==> body@ == s.draft.at().text@,
        s.draft.at().text@.len() == 0 && s.reply_to is Some ==> body@ == "Tap to write your reply…"@,
        s.draft.at().text@.len() == 0 && s.reply_to is None ==> body@ == "Tap to write your post…"@,
        count@ == decimal(s.draft.at().text@.len()) + " / 300"@,
        place@ == "Post "@ + decimal((s.draft.current + 1) as nat) + " / "@ + decimal(
            s.draft.segments@.len(),
        ),
{
}

/// Why a draft was not sent is told, from its beginning and as far as 80
/// characters go; nothing is told while there is no such reason.
pub proof fn lemma_draft_problem(s: ComposeScreen, line: Option<String>)
    requires
        ComposeScreen::problem_shown(s, line),
    ensures
        line is Some <==> s.state is Error,
        s.state matches ComposeState::Error(e) ==> {
            &&& e@.len() <= 80 ==> (line->0)@ == "Error: "@ + e@
            &&& e@.len() > 80 ==> (line->0)@ == "Error: "@ + e@.take(80)
        },
{
    if let ComposeState::Error(e) = s.state {
        if e@.len() <= 80 {
            assert(e@.take(e@.len() as int) =~= e@);
        }
    }
}

/// Something is let go of just where the camera, the picker or a picture is no
/// longer wanted and the screen stays.
pub proof fn lemma_letting_go(s: ComposeScreen, r: bool)
    requires
        ComposeScreen::releases_due(s, r),
    ensures
        s.done ==> !r,
        !s.done && s.deferred.camera_close ==> r,
        !s.done && s.deferred.picker_close ==> r,
        !s.done && s.deferred.remove is Some ==> r,
        !s.deferred.camera_close && !s.deferred.picker_close && s.deferred.remove is None ==> !r,
{
}

/// The camera on the back opens for a draft, live; where it does not open, the
/// reason is told. The draft stays as it is.
pub proof fn lemma_camera_for_draft(a: ComposeScreen, b: ComposeScreen, opened: Result<(), String>)
    requires
        ComposeScreen::camera_answered(a, b, opened),
    ensures
        b.camera is Some,
        b.camera->0.device == CameraDevice::Back,
        b.camera->0.mode is Live,
        b.camera->0.frozen is None,
        b.camera->0.open <==> opened is Ok,
        opened is Err <==> b.camera->0.error is Some,
        b.draft == a.draft && b.state == a.state && b.reply_to == a.reply_to && b.done == a.done,
{
}

// ── Replies ────────────────────────────────────────────────────────────

/// The post to reply to is the selected one. In a thread the reply belongs to
/// the thread of the topmost post, elsewhere to that of the post itself.
pub proof fn lemma_reply_to_focus(
    t: TimelineScreen,
    in_feed: Option<ReplyTarget>,
    p: ProfileScreen,
    in_profile: Option<ReplyTarget>,
    h: ThreadScreen,
    in_thread: Option<ReplyTarget>,
)
    requires
        TimelineScreen::reply_offered(t, in_feed),
        ProfileScreen::reply_offered(p, in_profile),
        ThreadScreen::reply_offered(h, in_thread),
    ensures
        in_feed is Some <==> t.selected() < t.posts().len(),
        in_feed matches Some(r) ==> {
            let x = t.posts()[t.selected()].post;
            r.parent_uri == x.uri && r.parent_cid == x.cid && r.root_uri == x.uri && r.root_cid
                == x.cid
        },
        in_profile is Some <==> p.tabs.active_list() is Some && p.tabs.active_list()->0.selected_idx
            < p.tabs.active_list()->0.posts@.len(),
        in_profile matches Some(r) ==> {
            let l = p.tabs.active_list()->0;
            let x = l.posts@[l.selected_idx as int].post;
            r.parent_uri == x.uri && r.parent_cid == x.cid && r.root_uri == x.uri && r.root_cid
                == x.cid
        },
        !(h.state is Loaded) ==> in_thread is None,
        h.state matches ThreadState::Loaded { list, .. } ==> {
            &&& in_thread is Some <==> list.selected_idx < list.posts@.len()
            &&& in_thread matches Some(r) ==> {
                let x = list.posts@[list.selected_idx as int].post;
                let top = list.posts@[0].post;
                r.parent_uri == x.uri && r.parent_cid == x.cid && r.root_uri == top.uri
                    && r.root_cid == top.cid
            }
        },
{
}

/// The mark of the selected post is asked for by that post, or taken back, and
/// shows on that post alone; where no post is selected nothing changes.
pub proof fn lemma_focus_marked(
    a: ProfileScreen,
    b: ProfileScreen,
    kind: EngagementKind,
    has_worker: bool,
    r: Option<WorkRequest>,
    i: int,
)
    requires
        ProfileScreen::focus_marked(a, b, kind, has_worker, r),
    ensures
        a.tabs.active_list() is None ==> r is None && b == a,
        !has_worker ==> r is None,
        a.tabs.active_list() matches Some(l) ==> {
            &&& has_worker && l.selected_idx < l.posts@.len() ==> toggle_request_is(
                r,
                l.posts@[l.selected_idx as int].post,
                kind,
            )
            &&& l.selected_idx >= l.posts@.len() ==> r is None
            &&& 0 <= i < l.posts@.len() && i != l.selected_idx
                ==> b.tabs.active_list()->0.posts@[i] == l.posts@[i]
        },
        b.state == a.state && b.contact == a.contact && b.logout == a.logout,
{
}

/// Four buttons act on the posts of a feed, each as told; on a feed that was
/// opened on top the circle leads back.
pub proof fn lemma_feed_hints(s: TimelineScreen, r: Vec<(String, String)>)
    requires
        TimelineScreen::hints_told(s, r),
    ensures
        r@.len() == 4 || r@.len() == 5,
        r@.len() == 5 <==> s.is_pushed,
        r@[0].0@ == "SQUARE"@ && r@[0].1@ == "Compose"@,
        r@[1].0@ == "L1"@ && r@[1].1@ == "Like"@,
        r@[2].0@ == "TRIANGLE"@ && r@[2].1@ == "Repost"@,
        r@[3].0@ == "R1"@ && r@[3].1@ == "Reply"@,
        s.is_pushed ==> r@[4].0@ == "CIRCLE"@ && r@[4].1@ == "Back"@,
{
}

// ── Accounts and their items ───────────────────────────────────────────

proof fn lemma_named_member(members: Seq<Author>, did: Seq<char>, from: int)
    requires
        0 <= from,
    ensures
        match named_member(members, did, from) {
            Some(m) => exists|i: int|
                from <= i < members.len() && #[trigger] members[i] == m && m.did@ == did,
            None => forall|i: int| from <= i < members.len() ==> (#[trigger] members[i]).did@ != did,
        },
    decreases members.len() - from,
{
    if from < members.len() && members[from].did@ != did {
        lemma_named_member(members, did, from + 1);
    }
}

/// A member of a conversation goes under the name of the very account, and an
/// account that is no member under the end of its own identity.
pub proof fn lemma_member_named(members: Vec<Author>, did: Seq<char>, r: String)
    requires
        name_told(members, did, r),
    ensures
        (exists|i: int|
            0 <= i < members@.len() && (#[trigger] members@[i]).did@ == did && r@ == name_or_handle(
                members@[i].display_name,
                members@[i].handle@,
            )) || ((forall|i: int|
            0 <= i < members@.len() ==> (#[trigger] members@[i]).did@ != did) && r@ == short_form(
            did,
        )),
{
    lemma_named_member(members@, did, 0);
}

/// An account goes under its name, and under its handle where it has none or an
/// empty one.
pub proof fn lemma_account_named(p: ProfileDetail, r: String)
    requires
        named(p, r),
    ensures
        p.display_name matches Some(n) ==> n@.len() > 0 ==> r@ == n@,
        p.display_name is None || p.display_name->0@.len() == 0 ==> r@ == p.handle@,
{
}

/// An account is shown as verified just where its status says so.
pub proof fn lemma_verified(p: ProfileDetail, r: bool)
    requires
        verified(p, r),
    ensures
        r <==> p.verified_status is Some && p.verified_status->0@ == "valid"@,
{
}

/// A feed tells its likes and a list its members, where the number is known; all
/// items tell who made them.
pub proof fn lemma_items_tell(
    feed: GeneratorView,
    likes: Option<String>,
    list: ListView,
    members: Option<String>,
    handle: Seq<char>,
    maker: String,
)
    requires
        likes_told(feed, likes),
        members_told(list, members),
        maker_told(handle, maker),
    ensures
        likes is Some <==> feed.like_count is Some,
        feed.like_count matches Some(n) ==> (likes->0)@ == "♥ "@ + decimal_int(n as int),
        members is Some <==> list.list_item_count is Some,
        list.list_item_count matches Some(n) ==> (members->0)@ == decimal_int(n as int)
            + " members"@,
        maker@ == "by @"@ + handle,
{
}

/// A starter pack tells who made it, how many are on it and how many joined by
/// it, as far as known.
pub proof fn lemma_pack_tells(item: StarterPackView, title: String, line: String)
    requires
        pack_titled(item, title),
        pack_told(item, line),
    ensures
        title@ == "Pack by @"@ + item.creator_handle@,
        match (item.list_item_count, item.joined_all_time_count) {
            (Some(n), Some(m)) => line@ == decimal_int(n as int) + " members"@ + "  ·  "@ + (
            decimal_int(m as int) + " joined"@),
            (Some(n), None) => line@ == decimal_int(n as int) + " members"@,
            (None, Some(m)) => line@ == decimal_int(m as int) + " joined"@,
            (None, None) => line@.len() == 0,
        },
{
    reveal_with_fuel(crate::profile_text::joined, 3);
    let parts = pack_parts(item);
    if item.list_item_count is Some && item.joined_all_time_count is Some {
        assert(parts.len() == 2);
        assert(parts.drop_last().len() == 1);
        assert(parts.drop_last()[0] == parts[0]);
    }
}

/// The eight colours that stand in for a picture are told apart.
pub proof fn lemma_colours_differ(i: int, j: int)
    requires
        0 <= i < j < 8,
    ensures
        palette(i) != palette(j),
{
}

// ── Pictures and videos ────────────────────────────────────────────────

/// Among several pictures the viewer tells which one is shown, counted from one,
/// and how many there are.
pub proof fn lemma_viewer_hint(s: ImageViewerScreen, r: String)
    requires
        ImageViewerScreen::hint_told(s, r),
    ensures
        s.images@.len() > 1 ==> r@ == decimal((s.index + 1) as nat) + " / "@ + decimal(
            s.images@.len(),
        ) + "    O / X close    ← → switch"@,
        s.images@.len() <= 1 ==> r@ == "O / X close"@,
{
}

/// The picture that the viewer waits for is no longer waited for once it came or
/// failed; anything else changes nothing.
pub proof fn lemma_viewer_waits(a: ImageViewerScreen, b: ImageViewerScreen, resp: WorkResponse)
    requires
        ImageViewerScreen::responded(a, b, resp),
    ensures
        b.images == a.images && b.index == a.index && b.armed == a.armed,
        resp matches WorkResponse::Image { url, .. } ==> {
            &&& a.inflight is Some && a.inflight->0@ == url@ ==> b.inflight is None
            &&& a.inflight is None || a.inflight->0@ != url@ ==> b.inflight == a.inflight
        },
        !(resp is Image) ==> b == a,
{
}

/// Each failure of a video names the call that failed, with the code it gave.
pub proof fn lemma_video_errors(e: VideoError, r: String)
    requires
        VideoError::told(e, r),
    ensures
        match e {
            VideoError::InitFailed(c) => r@ == "sceAvPlayerInit failed: "@ + code_text(c),
            VideoError::AddSourceFailed(c) => r@ == "sceAvPlayerAddSource failed: "@ + code_text(c),
            VideoError::AudioOpenFailed(c) => r@ == "sceAudioOutOpenPort failed: "@ + code_text(c),
            VideoError::InvalidPath => r@ == "video path contains a NUL byte"@,
            VideoError::NotOnVita => r@ == "video playback is only available on Vita"@,
        },
{
}

/// A path is refused just where it holds a NUL character.
pub proof fn lemma_path_refused(path: Seq<char>, r: Result<(), VideoError>)
    requires
        VideoPlayer::path_checked(path, r),
    ensures
        r is Err <==> exists|i: int| 0 <= i < path.len() && #[trigger] path[i] == '\0',
        r is Err ==> r->Err_0 is InvalidPath,
{
}

/// A player comes of a handle and a source that are both good, and plays at
/// once; else the failure holds the code that was given.
pub proof fn lemma_player_made(handle: i32, source: i32, r: Result<VideoPlayer, VideoError>)
    requires
        VideoPlayer::player_made(handle, source, r),
    ensures
        r is Ok <==> handle != 0 && source >= 0,
        r matches Ok(p) ==> p.state is Playing && !p.seen_frame && p.video_w == 0 && p.video_h == 0,
        handle == 0 ==> r == Err::<VideoPlayer, VideoError>(VideoError::InitFailed(handle)),
        handle != 0 && source < 0 ==> r == Err::<VideoPlayer, VideoError>(
            VideoError::AddSourceFailed(source),
        ),
{
}

/// A player that was paused and goes on again is as it was while it played.
pub proof fn lemma_pause_and_resume(a: VideoPlayer, b: VideoPlayer, c: VideoPlayer)
    requires
        VideoPlayer::paused(a, b),
        VideoPlayer::resumed(b, c),
    ensures
        b.state is Paused,
        c.state is Playing,
        a.state is Playing ==> c == a,
        b.video_w == a.video_w && b.video_h == a.video_h && b.seen_frame == a.seen_frame,
{
}

/// A frame takes a byte for each pixel, and half as many for the colours.
pub proof fn lemma_frame_sized(width: u32, height: u32, r: Option<usize>)
    requires
        frame_sized(width, height, r),
    ensures
        r matches Some(n) ==> n == width * height + width * (height / 2),
        r is None ==> width * height + width * (height / 2) > usize::MAX,
{
}

/// A block has room for what was asked for behind a header of 16 bytes, and is
/// aligned as asked for, by 16 at least. On the graphics memory it is made of
/// whole granules, and of no more than needed.
pub proof fn lemma_blocks(alignment: u32, size: u32, r: (u64, u32), granules: u64)
    requires
        laid_out(alignment, size, r),
        granted(size, granules),
    ensures
        r.0 == size + 16,
        r.1 >= 16 && r.1 >= alignment,
        r.1 == 16 || r.1 == alignment,
        granules >= size,
        granules % 0x10_0000 == 0,
        granules < size + 0x10_0000,
{
}

/// The picture of a video is made anew where its size is not that of the video,
/// and once it is made it fits.
pub proof fn lemma_picture_fits(
    a: VideoPlayerScreen,
    b: VideoPlayerScreen,
    width: u32,
    height: u32,
    again: bool,
)
    requires
        VideoPlayerScreen::pictured(a, b, width, height),
        VideoPlayerScreen::outgrown(b, width, height, again),
    ensures
        !again,
        a.state is Playing ==> b.state is Playing && b.state->greyscale == a.state->greyscale,
        !(a.state is Playing) ==> b == a,
        b.cid == a.cid && b.did == a.did && b.notice == a.notice,
{
}

/// A video that plays in another size outgrew its picture.
pub proof fn lemma_outgrown(s: VideoPlayerScreen, width: u32, height: u32, r: bool)
    requires
        VideoPlayerScreen::outgrown(s, width, height, r),
    ensures
        !(s.state is Playing) ==> !r,
        s.state matches VideoState::Playing { tex_w, tex_h, .. } ==> (r <==> tex_w != width || tex_h
            != height),
{
}

/// Nothing happens to a video at the end of a frame unless the notice shows, and
/// nothing is kept then.
pub proof fn lemma_no_notice(
    a: VideoPlayerScreen,
    b: VideoPlayerScreen,
    pad: PadFrame,
    touches: Vec<TouchPoint>,
    persist: bool,
)
    requires
        VideoPlayerScreen::notice_ended(a, b, pad, touches, persist),
        !a.notice.shown,
    ensures
        b == a,
        !persist,
{
}

/// Two bytes make a sample of sound; a byte that is left over makes none.
pub proof fn lemma_samples_counted(bytes: usize, r: usize)
    requires
        samples_counted(bytes, r),
    ensures
        2 * r <= bytes < 2 * r + 2,
{
}

// ── The worker's answers ───────────────────────────────────────────────

/// What became of a like is told as a like, of a repost as a repost, with the
/// record that was made or the reason why not.
pub proof fn lemma_mark_told(
    is_like: bool,
    uri: Option<String>,
    e: String,
    made: WorkResponse,
    refused: WorkResponse,
)
    requires
        mark_made(is_like, uri, made),
        mark_refused(is_like, e, refused),
    ensures
        is_like ==> made == WorkResponse::LikeChanged(Ok(uri)) && refused
            == WorkResponse::LikeChanged(Err(e)),
        !is_like ==> made == WorkResponse::RepostChanged(Ok(uri)) && refused
            == WorkResponse::RepostChanged(Err(e)),
{
}

/// Marking as seen brings no notifications and leads on to none.
pub proof fn lemma_seen_told(r: WorkResponse)
    requires
        seen_told(r),
    ensures
        r is Notifications && r->Notifications_0 is Ok,
        r->Notifications_0->Ok_0.notifications@.len() == 0,
        r->Notifications_0->Ok_0.cursor is None,
{
}

/// The picture to be uploaded is the first one of the post at hand that was not
/// uploaded yet.
pub proof fn lemma_next_picture(p: ThreadPoster, r: Vec<u8>)
    requires
        ThreadPoster::picture_is(p, r),
    ensures
        r@ == p.segments@[p.made@.len() as int].images@[p.uploaded@.len() as int].bytes@,
{
}

// ── The bars ───────────────────────────────────────────────────────────

/// The tabs stand side by side over the whole width of the display, in their
/// order, each under a name of its own.
pub proof fn lemma_tabs_side_by_side(i: int, j: int)
    requires
        0 <= i < j < 4,
    ensures
        tab_at(i) != tab_at(j),
        tab_rect(i).x + tab_rect(i).w <= tab_rect(j).x,
        j == i + 1 ==> tab_rect(i).x + tab_rect(i).w == tab_rect(j).x,
        tab_rect(0).x == 0,
        tab_rect(3).x + tab_rect(3).w == 960,
        tab_rect(i).y == tab_rect(j).y && tab_rect(i).h == tab_rect(j).h,
        tab_at(0) == TopLevel::Home && tab_label(TopLevel::Home) == "Home"@,
        tab_at(1) == TopLevel::Search && tab_label(TopLevel::Search) == "Search"@,
        tab_at(2) == TopLevel::Notifications && tab_label(TopLevel::Notifications) == "Notifs"@,
        tab_at(3) == TopLevel::Profile && tab_label(TopLevel::Profile) == "Profile"@,
        tab_label(TopLevel::Messages) == "DMs"@,
{
}

/// The bar with the hints shows from the beginning and for three seconds of
/// sixty frames; a toggle hides or shows it, and hidden it stays hidden while
/// frames pass.
pub proof fn lemma_hints_come_and_go(a: HintOverlay, b: HintOverlay, c: HintOverlay)
    requires
        HintOverlay::toggled(a, b),
        HintOverlay::ticks(b, c),
    ensures
        b.shows() <==> !a.shows(),
        a.shows() ==> !c.shows(),
        b.shows() ==> c.shows(),
        forall|s: HintOverlay|
            #[trigger] HintOverlay::just_shown(s) ==> s.shows() && s.idle_frames() == 0,
        a.shows() <==> a.idle_frames() < 3 * 60,
{
}

/// The hints are drawn while they show and there are any, one segment for each,
/// above the tabs where there are tabs.
pub proof fn lemma_hints_drawn(
    s: HintOverlay,
    widths: Vec<HintWidths>,
    dot_w: i32,
    has_tab_bar: bool,
    r: Option<HintBar>,
)
    requires
        HintOverlay::drawn(s, widths, dot_w, has_tab_bar, r),
    ensures
        r is Some <==> s.shows() && widths@.len() > 0,
        r matches Some(bar) ==> {
            &&& bar.segments@.len() == widths@.len()
            &&& has_tab_bar ==> bar.y + 26 == tab_rect(0).y
            &&& !has_tab_bar ==> bar.y + 26 == 544
            &&& bar.y < bar.baseline < bar.y + 26
        },
{
}

// ── Buttons and fields ─────────────────────────────────────────────────

/// A button is clicked where the last touch lifts off it, while it is enabled;
/// a touch on it is remembered for the next frame.
pub proof fn lemma_button_clicked(
    rect: Rect,
    before: ButtonState,
    after: ButtonState,
    touches: Vec<TouchPoint>,
    enabled: bool,
    r: bool,
)
    requires
        pressed(rect, before, after, touches, enabled, r),
    ensures
        r <==> enabled && before.pressed_last && touches@.len() == 0,
        after.pressed_last <==> exists|i: int|
            0 <= i < touches@.len() && inside(
                rect,
                (#[trigger] touches@[i]).x as int,
                touches@[i].y as int,
            ),
{
}

/// A field shows what it holds, or its placeholder while it is empty; a hidden
/// one shows a dot in place of every byte. It is clicked as a button is and keeps
/// what it holds.
pub proof fn lemma_field_reads(
    rect: Rect,
    placeholder: Seq<char>,
    before: FieldState,
    after: FieldState,
    touches: Vec<TouchPoint>,
    mask: bool,
    enabled: bool,
    r: (bool, FieldText),
    i: int,
)
    requires
        field_read(rect, placeholder, before, after, touches, mask, enabled, r),
    ensures
        r.0 <==> enabled && before.pressed_last && touches@.len() == 0,
        before.value@.len() == 0 ==> r.1.text@ == placeholder && r.1.muted,
        before.value@.len() > 0 ==> !r.1.muted,
        before.value@.len() > 0 && !mask ==> r.1.text@ == before.value@,
        before.value@.len() > 0 && mask && 0 <= i < r.1.text@.len() ==> r.1.text@[i] == '•',
        after.value == before.value,
{
}

} // verus!
