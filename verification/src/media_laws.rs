//! Pictures, videos and photographs: what is fetched, shown and played, and what
//! the buttons do.

use vstd::prelude::*;

#[allow(unused_imports)]
use crate::camera::{
    camera_after, camera_step_is, device_opened, problem_of, shot_encoded, CameraCapture,
    CameraMode, CameraResult, CameraStep,
};
#[allow(unused_imports)]
use crate::image_viewer::{viewed, ImageViewerScreen, ViewerFrame};
#[allow(unused_imports)]
use crate::requests::{WorkRequest, WorkResponse};
#[allow(unused_imports)]
use crate::text::{decimal, opt_view};
#[allow(unused_imports)]
use crate::video::{
    audio_plan, code_bits, frame_taken, hex, hex_digit, port_taken, AudioChunk, AudioOut, AudioPlan,
    PlayerState, RawFrame, VideoPlayer, YuvFrame,
};
#[allow(unused_imports)]
use crate::video_player::{
    advanced, answered, begun, clock, file_opened, file_ready, input_followed, keys_live,
    notice_followed, play_action, rewound, video_request, PlayAction, VideoInput, VideoPlayerScreen,
    VideoState,
};
#[allow(unused_imports)]
use crate::widget::{PadFrame, TouchPoint};

verus! {

// ── Pictures ───────────────────────────────────────────────────────────

/// The viewer asks for the full-size picture that it shows, where that is not at
/// hand and not under way; left and right go to the picture beside it, as far as
/// there is one; the circle, the cross and a tap on the picture leave.
pub proof fn lemma_viewer_frame(
    a: ImageViewerScreen,
    b: ImageViewerScreen,
    pad: PadFrame,
    touches: Seq<TouchPoint>,
    cached: bool,
    has_worker: bool,
    r: ViewerFrame,
)
    requires
        a.wf(),
        viewed(a, b, pad, touches, cached, has_worker, r),
    ensures
        b.images == a.images,
        a.images@.len() == 0 ==> r.action is Pop && r.request is None,
        a.images@.len() > 0 ==> {
            let n = a.images@.len() as int;
            let url = a.images@[a.index as int].fullsize;
            &&& r.request matches Some(q) ==> q == (WorkRequest::FetchImage { url })
                && b.inflight == Some(url) && !cached && has_worker
            &&& has_worker && !cached && opt_view(a.inflight) != Some(url@) ==> r.request is Some
            &&& cached || !has_worker || opt_view(a.inflight) == Some(url@) ==> r.request is None
                && b.inflight == a.inflight
            &&& pad.circle || pad.cross ==> r.action is Pop
            &&& a.close_pressed_last && touches.len() == 0 ==> r.action is Pop
            &&& !pad.circle && !pad.cross && !a.close_pressed_last ==> r.action is Stay
            &&& !pad.circle && !pad.cross && touches.len() > 0 ==> r.action is Stay
            &&& pad.left && !pad.right ==> b.index == if a.index > 0 {
                a.index - 1
            } else {
                0
            }
            &&& pad.right && !pad.left ==> b.index == if a.index + 1 < n {
                a.index + 1
            } else {
                n - 1
            }
            &&& !pad.left && !pad.right ==> b.index == a.index
            &&& b.index < n
            &&& !a.armed && touches.len() > 0 ==> !b.close_pressed_last && !b.armed
            &&& touches.len() == 0 ==> b.armed
        },
{
}

// ── Videos ─────────────────────────────────────────────────────────────

/// The video of the post is asked for, once, under its author and its own name.
pub proof fn lemma_video_asked(s: VideoPlayerScreen, has_worker: bool)
    ensures
        video_request(s, has_worker) matches Some(q) ==> q == (WorkRequest::FetchVideoBlob {
            did: s.did,
            cid: s.cid,
        }) && s.state is Pending && has_worker,
        s.state is Pending && has_worker ==> video_request(s, has_worker) is Some && begun(
            s,
            has_worker,
        ).state is Downloading,
        video_request(s, has_worker) is None ==> begun(s, has_worker) == s,
        video_request(begun(s, has_worker), has_worker) is None,
        begun(s, has_worker).did == s.did && begun(s, has_worker).cid == s.cid,
{
}

/// The file of this video is opened once it is there, and a failure is kept with
/// its reason; an answer for another video, or of another kind, changes nothing.
pub proof fn lemma_video_answer(s: VideoPlayerScreen, resp: WorkResponse)
    ensures
        resp matches WorkResponse::VideoBlob { cid, result } ==> cid@ == s.cid@ ==> {
            &&& result matches Ok(p) ==> answered(s, resp).state == (VideoState::Ready {
                file_path: p,
            }) && file_ready(answered(s, resp)) == Some(p)
            &&& result matches Err(e) ==> answered(s, resp).state == VideoState::Error(e)
                && file_ready(answered(s, resp)) is None
        },
        resp matches WorkResponse::VideoBlob { cid, .. } ==> cid@ != s.cid@ ==> answered(s, resp)
            == s,
        !(resp is VideoBlob) ==> answered(s, resp) == s,
        answered(s, resp).cid == s.cid && answered(s, resp).notice == s.notice,
{
}

/// A file that was opened plays; where it plays without colour that is said,
/// unless the reader does not want to be told again. One that could not be opened
/// tells why.
pub proof fn lemma_file_opened(
    s: VideoPlayerScreen,
    result: Result<(), String>,
    color: bool,
    dismissed: bool,
)
    ensures
        ({
            let t = file_opened(s, result, color, dismissed);
            &&& t.state is Playing <==> result is Ok
            &&& result matches Err(e) ==> t.state == VideoState::Error(e) && t.notice == s.notice
            &&& result is Ok ==> (t.state matches VideoState::Playing { greyscale, .. } && greyscale
                == !color)
            &&& result is Ok && !color && !dismissed ==> t.notice.shown
            &&& color || dismissed ==> t.notice.shown == s.notice.shown
            &&& t.did == s.did && t.cid == s.cid
        }),
{
}

/// The transport buttons count once the video plays and while nothing lies over
/// it: the square, and left and right for back and forward.
pub proof fn lemma_transport_keys(s: VideoPlayerScreen, pad: PadFrame)
    ensures
        keys_live(s, pad).toggle <==> pad.square && s.state is Playing && !s.notice.shown,
        keys_live(s, pad).back <==> pad.left && s.state is Playing && !s.notice.shown,
        keys_live(s, pad).forward <==> pad.right && s.state is Playing && !s.notice.shown,
{
}

/// The square pauses what plays, goes on with what is paused, and starts what has
/// ended anew. Left goes ten seconds back, though not before the start; right
/// goes ten seconds on, and left from there leads back.
pub proof fn lemma_square_and_seek(now: u64, there: u64)
    ensures
        play_action(PlayerState::Playing) == PlayAction::Pause,
        play_action(PlayerState::Paused) == PlayAction::Resume,
        play_action(PlayerState::Eof) == PlayAction::Restart,
        now >= 10_000_000 ==> rewound(now) == now - 10_000_000,
        now < 10_000_000 ==> rewound(now) == 0,
        advanced(now) == now + 10_000_000,
        there == advanced(now) ==> rewound(there) == now,
{
}

/// The notice is closed by its button, the cross or the circle, and is remembered
/// only where its box is ticked by then; a click on the box ticks it or not.
pub proof fn lemma_notice(
    a: VideoPlayerScreen,
    b: VideoPlayerScreen,
    pad: PadFrame,
    touches: Seq<TouchPoint>,
    persist: bool,
)
    requires
        notice_followed(a, b, pad, touches, persist),
        a.notice.shown,
    ensures
        ({
            let ticks = a.notice.check.pressed_last && touches.len() == 0;
            &&& b.notice.dont_show == (if ticks {
                !a.notice.dont_show
            } else {
                a.notice.dont_show
            })
            &&& !b.notice.shown <==> pad.cross || (a.notice.ok_btn.pressed_last && touches.len()
                == 0)
            &&& persist <==> !b.notice.shown && b.notice.dont_show
        }),
        b.state == a.state && b.overlay_idle == a.overlay_idle,
{
}

/// The circle leaves a video, or closes the notice that lies over it; the bar
/// comes back with every button and goes with a tap.
pub proof fn lemma_video_input(
    a: VideoPlayerScreen,
    b: VideoPlayerScreen,
    pad: PadFrame,
    pad_changed: bool,
    touching: bool,
    r: VideoInput,
)
    requires
        input_followed(a, b, pad, pad_changed, touching, r),
    ensures
        r.pop <==> pad.circle && !a.notice.shown,
        pad.circle && a.notice.shown ==> !b.notice.shown && (r.persist <==> a.notice.dont_show),
        !pad.circle ==> !r.persist && b.notice == a.notice,
        r.pop ==> b == a,
        !r.pop && pad_changed ==> b.overlay_idle == 0,
        !r.pop ==> b.tap.pressed_last == touching,
        !r.pop && !pad_changed && !touching && !a.tap.pressed_last && a.overlay_idle < 1000
            ==> b.overlay_idle == a.overlay_idle + 1,
        b.state == a.state && b.cid == a.cid,
{
}

/// A time reads as minutes and two digits of seconds.
pub proof fn lemma_clock(min: nat, sec: nat, us: u64)
    requires
        sec < 60,
        us as int / 1_000_000 == 60 * min + sec,
    ensures
        sec < 10 ==> clock(us) == decimal(min) + ":0"@ + decimal(sec),
        sec >= 10 ==> clock(us) == decimal(min) + ":"@ + decimal(sec),
{
    assert((60 * min + sec) / 60 == min) by (nonlinear_arith)
        requires
            sec < 60,
    ;
    assert((60 * min + sec) % 60 == sec) by (nonlinear_arith)
        requires
            sec < 60,
    ;
}

/// What the decoder hands out is shown as it is: its size, its time and its two
/// planes, the brightness first. Without a frame nothing is shown, and a stream
/// ends only once a frame was seen and the decoder has stopped.
pub proof fn lemma_decoded_frame(
    a: VideoPlayer,
    b: VideoPlayer,
    got: Option<RawFrame>,
    active: bool,
    r: Option<YuvFrame>,
)
    requires
        frame_taken(a, b, got, active, r),
    ensures
        r is Some <==> got is Some,
        got matches Some(g) ==> {
            &&& r->0.width == g.width && r->0.height == g.height && r->0.timestamp_us
                == g.timestamp_us
            &&& r->0.y_pitch == g.width && r->0.uv_pitch == g.width
            &&& b.video_w == g.width && b.video_h == g.height && b.seen_frame && b.state == a.state
            &&& r->0.y@ == g.data@.subrange(0, g.width * g.height)
            &&& r->0.uv@ == g.data@.subrange(
                g.width * g.height,
                g.width * g.height + g.width * (g.height as int / 2),
            )
        },
        got is None && a.seen_frame && !active ==> b.state == PlayerState::Eof,
        got is None && (active || !a.seen_frame) ==> b == a,
{
}

/// Samples go out through a port that was opened for chunks like theirs; for
/// others the port is opened anew, and the old one released. An empty chunk asks
/// for nothing.
pub proof fn lemma_samples_go_out(out: AudioOut, chunk: AudioChunk, port: i32)
    requires
        chunk.samples@.len() <= u32::MAX,
    ensures
        chunk.samples@.len() == 0 ==> audio_plan(out, chunk) == AudioPlan::Nothing,
        audio_plan(out, chunk) matches AudioPlan::Output { port: p } ==> p == out.port && p >= 0
            && out.sample_rate == chunk.sample_rate && out.channel_count == chunk.channel_count,
        audio_plan(out, chunk) matches AudioPlan::Reopen { release, sample_rate, stereo, .. } ==> {
            &&& sample_rate == chunk.sample_rate
            &&& stereo <==> chunk.channel_count >= 2
            &&& out.port >= 0 ==> release == Some(out.port)
            &&& out.port < 0 ==> release is None
        },
        chunk.samples@.len() > 0 && (out.port < 0 || out.sample_rate != chunk.sample_rate
            || out.channel_count != chunk.channel_count) ==> audio_plan(out, chunk) is Reopen,
        port >= 0 && chunk.samples@.len() > 0 ==> audio_plan(port_taken(out, port, chunk), chunk)
            == (AudioPlan::Output { port }),
        port < 0 ==> port_taken(out, port, chunk).port < 0,
{
    let c = if chunk.channel_count == 0 {
        1int
    } else {
        chunk.channel_count as int
    };
    assert(0 <= chunk.samples@.len() as int / c <= chunk.samples@.len()) by (nonlinear_arith)
        requires
            c >= 1,
    ;
}

/// The value of hexadecimal digits.
pub open spec fn hex_value(s: Seq<char>) -> int
    decreases s.len(),
{
    if s.len() == 0 {
        0
    } else {
        let d = s.last() as int;
        hex_value(s.drop_last()) * 16 + (if d >= 97 {
            d - 87
        } else {
            d - 48
        })
    }
}

/// A code reads back as itself from its hexadecimal digits, a negative one as
/// the 32 bits that it is held in.
pub proof fn lemma_code_reads_back(code: i32)
    ensures
        hex_value(hex(code_bits(code))) == if code < 0 {
            code + 0x1_0000_0000
        } else {
            code as int
        },
{
    lemma_hex_reads_back(code_bits(code));
}

proof fn lemma_hex_reads_back(n: nat)
    ensures
        hex_value(hex(n)) == n,
    decreases n,
{
    let s = hex(n);
    if n < 16 {
        assert(s.drop_last() =~= Seq::<char>::empty());
        assert(s.last() == hex_digit(n as int));
        assert(hex_value(s.drop_last()) == 0);
    } else {
        lemma_hex_reads_back(n / 16);
        assert(s.drop_last() =~= hex(n / 16));
        assert(s.last() == hex_digit((n % 16) as int));
        assert(n == (n / 16) * 16 + n % 16) by (nonlinear_arith);
    }
}

// ── Photographs ────────────────────────────────────────────────────────

/// The square takes what the camera sees, the triangle goes to the other camera,
/// the circle leaves without a picture; with a shot, the cross uses it and the
/// circle or the square drops it.
pub proof fn lemma_camera_buttons(
    a: CameraCapture,
    pad: PadFrame,
    frame: Option<Vec<u8>>,
    r: CameraStep,
)
    requires
        camera_step_is(r, a, pad),
    ensures
        ({
            let b = camera_after(a, pad, frame);
            let live = a.error is None && a.mode == CameraMode::Live;
            let shot = a.error is None && a.mode == CameraMode::Captured;
            &&& live && pad.square && a.open && frame is Some ==> b.frozen == frame && b.mode
                == CameraMode::Captured
            &&& live && !(pad.square && a.open && frame is Some) ==> b.frozen == a.frozen && b.mode
                == CameraMode::Live
            &&& live && pad.triangle ==> b.device != a.device && r.switch_to == Some(b.device)
                && !b.open
            &&& live && !pad.triangle ==> b.device == a.device && r.switch_to is None && b.open
                == a.open
            &&& (live || a.error is Some) && pad.circle ==> r.result == Some(
                CameraResult::Cancelled,
            )
            &&& (live || a.error is Some) && !pad.circle ==> r.result is None
            &&& live || a.error is Some ==> r.encode is None
            &&& shot && pad.cross ==> r.encode == a.frozen && r.result is None
            &&& shot && !pad.cross ==> r.encode is None && r.result is None
            &&& shot && !pad.cross && (pad.circle || pad.square) ==> b.frozen is None && b.mode
                == CameraMode::Live
            &&& shot && !pad.cross && !pad.circle && !pad.square ==> b == a
            &&& shot ==> b.device == a.device && r.switch_to is None
            &&& a.error is Some ==> b == a
        }),
{
}

/// A shot that was encoded is handed on as it was encoded; one that could not be
/// is not, and the reason is shown.
pub proof fn lemma_shot_handed_on(
    a: CameraCapture,
    b: CameraCapture,
    result: Result<Vec<u8>, String>,
    pad: PadFrame,
    r: Option<CameraResult>,
)
    requires
        shot_encoded(a, b, result, pad, r),
    ensures
        result matches Ok(bytes) ==> r == Some(CameraResult::Confirmed(bytes)) && b == a,
        result matches Err(e) ==> r is None && problem_of(b) == Some(
            "Camera unavailable: "@ + ("encode: "@ + e@),
        ) && b.device == a.device,
{
}

/// A camera that was opened shows what it sees, and one that could not be opened
/// tells why.
pub proof fn lemma_camera_opened(a: CameraCapture, opened: Result<(), String>)
    ensures
        device_opened(a, opened).open <==> opened is Ok,
        opened is Ok ==> problem_of(device_opened(a, opened)) is None,
        opened matches Err(e) ==> problem_of(device_opened(a, opened)) == Some(
            "Camera unavailable: "@ + e@,
        ),
        device_opened(a, opened).device == a.device && device_opened(a, opened).mode == a.mode
            && device_opened(a, opened).frozen == a.frozen,
{
}

} // verus!
