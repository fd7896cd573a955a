//! The video player screen: the video is fetched to a local file, opened, and
//! played.
//!
//! While it plays, the square pauses and goes on, left and right seek, the
//! circle leaves, and a tap shows or hides the transport bar, which hides by
//! itself after a while.

use vstd::prelude::*;

use crate::requests::{WorkRequest, WorkResponse};
use crate::screen::ScreenAction;
use crate::text::{decimal_text, join3, owned, same_text};
#[allow(unused_imports)]
use crate::text::decimal;
use crate::video::PlayerState;
use crate::widget::{button, ButtonState, PadFrame, Rect, TouchPoint};
#[allow(unused_imports)]
use crate::widget::{clicked, touched};

verus! {

/// How far one press seeks, in microseconds.
pub const SEEK_STEP_US: u64 = 10_000_000;

/// Frames after which the transport bar hides.
pub const OVERLAY_HIDE_FRAMES: u32 = 180;

/// How far a video has come.
pub enum VideoState {
    Pending,
    /// The video is being fetched.
    Downloading,
    /// It is there, and to be opened.
    Ready { file_path: String },
    /// It plays, in pictures of this size.
    Playing { greyscale: bool, tex_w: u32, tex_h: u32 },
    Error(String),
}

/// The notice that a video plays without colour.
pub struct GreyscaleNotice {
    pub shown: bool,
    /// It is not to be shown again.
    pub dont_show: bool,
    pub ok_btn: ButtonState,
    pub check: ButtonState,
}

/// A video on screen.
pub struct VideoPlayerScreen {
    pub did: String,
    pub cid: String,
    pub state: VideoState,
    /// Frames since the transport bar was last called for.
    pub overlay_idle: u32,
    pub tap: ButtonState,
    pub notice: GreyscaleNotice,
}

/// What the circle and the notice ask for.
#[derive(Copy, Clone, Debug, PartialEq, Eq, Structural)]
pub struct VideoInput {
    pub pop: bool,
    /// Remember that the notice is not to be shown again.
    pub persist: bool,
}

/// What the first part of a frame asks for.
#[derive(Debug)]
pub struct VideoStart {
    /// Anything but staying ends the frame.
    pub action: ScreenAction,
    /// Remember that the notice is not to be shown again.
    pub persist: bool,
    pub request: Option<WorkRequest>,
    /// The file that is to be opened.
    pub open: Option<String>,
}

/// The transport buttons that count in a frame.
#[derive(Copy, Clone, Debug, PartialEq, Eq, Structural)]
pub struct TransportKeys {
    pub toggle: bool,
    pub back: bool,
    pub forward: bool,
}

/// What the square does.
#[derive(Copy, Clone, Debug, PartialEq, Eq, Structural)]
pub enum PlayAction {
    Pause,
    Resume,
    /// Go to the start, and play from there.
    Restart,
}

/// The transport bar shows.
pub open spec fn bar_shows(idle: int) -> bool {
    idle < OVERLAY_HIDE_FRAMES
}

/// The frames since the transport bar was last called for, after this one. A
/// button calls for it; a tap shows it or hides it; a finger that rests keeps
/// it. Under the notice any input calls for it.
pub open spec fn idle_after(s: VideoPlayerScreen, pad_changed: bool, touching: bool) -> int {
    if pad_changed || (s.notice.shown && touching) {
        0
    } else if touching {
        s.overlay_idle as int
    } else if s.tap.pressed_last && !s.notice.shown {
        if bar_shows(s.overlay_idle as int) {
            OVERLAY_HIDE_FRAMES as int
        } else {
            0
        }
    } else if s.overlay_idle < u32::MAX {
        s.overlay_idle + 1
    } else {
        u32::MAX as int
    }
}

/// The notice is closed.
pub open spec fn notice_closed(s: VideoPlayerScreen) -> VideoPlayerScreen {
    VideoPlayerScreen { notice: GreyscaleNotice { shown: false, ..s.notice }, ..s }
}

/// The box that keeps the notice from being shown again.
pub open spec fn check_rect() -> Rect {
    Rect { x: 184, y: 292, w: 300, h: 34 }
}

/// The button that closes the notice.
pub open spec fn ok_rect() -> Rect {
    Rect { x: 640, y: 338, w: 136, h: 40 }
}

/// The circle closes the notice, or leaves where there is none. `pad_changed`
/// tells whether any button went down or up.
pub open spec fn input_followed(
    a: VideoPlayerScreen,
    b: VideoPlayerScreen,
    pad: PadFrame,
    pad_changed: bool,
    touching: bool,
    r: VideoInput,
) -> bool {
    let closes = pad.circle && a.notice.shown;
    let t = if closes {
        notice_closed(a)
    } else {
        a
    };
    &&& r.pop == (pad.circle && !a.notice.shown)
    &&& r.persist == (closes && a.notice.dont_show)
    &&& b == (if r.pop {
        a
    } else {
        VideoPlayerScreen {
            overlay_idle: idle_after(t, pad_changed, touching) as u32,
            tap: ButtonState { pressed_last: touching },
            ..t
        }
    })
}

/// The request for the video, where it was not asked for yet.
pub open spec fn video_request(s: VideoPlayerScreen, has_worker: bool) -> Option<WorkRequest> {
    if s.state is Pending && has_worker {
        Some(WorkRequest::FetchVideoBlob { did: s.did, cid: s.cid })
    } else {
        None
    }
}

/// The screen once the video was asked for.
pub open spec fn begun(s: VideoPlayerScreen, has_worker: bool) -> VideoPlayerScreen {
    if s.state is Pending && has_worker {
        VideoPlayerScreen { state: VideoState::Downloading, ..s }
    } else {
        s
    }
}

/// The file that is to be opened.
pub open spec fn file_ready(s: VideoPlayerScreen) -> Option<String> {
    match s.state {
        VideoState::Ready { file_path } => Some(file_path),
        _ => None,
    }
}

/// The screen once the file was opened, or not.
pub open spec fn file_opened(
    s: VideoPlayerScreen,
    result: Result<(), String>,
    color: bool,
    notice_dismissed: bool,
) -> VideoPlayerScreen {
    match result {
        Ok(_) => VideoPlayerScreen {
            state: VideoState::Playing { greyscale: !color, tex_w: 0, tex_h: 0 },
            notice: GreyscaleNotice {
                shown: s.notice.shown || (!color && !notice_dismissed),
                ..s.notice
            },
            ..s
        },
        Err(e) => VideoPlayerScreen { state: VideoState::Error(e), ..s },
    }
}

/// The transport buttons that count.
pub open spec fn keys_live(s: VideoPlayerScreen, pad: PadFrame) -> TransportKeys {
    let live = s.state is Playing && !s.notice.shown;
    TransportKeys {
        toggle: live && pad.square,
        back: live && pad.left,
        forward: live && pad.right,
    }
}

/// What an answer makes of a screen.
pub open spec fn answered(s: VideoPlayerScreen, resp: WorkResponse) -> VideoPlayerScreen {
    match resp {
        WorkResponse::VideoBlob { cid, result } => if cid@ == s.cid@ {
            VideoPlayerScreen {
                state: match result {
                    Ok(file_path) => VideoState::Ready { file_path },
                    Err(e) => VideoState::Error(e),
                },
                ..s
            }
        } else {
            s
        },
        _ => s,
    }
}

/// One frame of the notice: the box is ticked or not, the button or the cross
/// closes it.
pub open spec fn notice_followed(
    a: VideoPlayerScreen,
    b: VideoPlayerScreen,
    pad: PadFrame,
    touches: Seq<TouchPoint>,
    persist: bool,
) -> bool {
    let n = a.notice;
    let toggled = clicked(
        true,
        n.check.pressed_last,
        touched(touches, check_rect()),
        touches.len() > 0,
    );
    let closes = pad.cross || clicked(
        true,
        n.ok_btn.pressed_last,
        touched(touches, ok_rect()),
        touches.len() > 0,
    );
    let dont_show = if toggled {
        !n.dont_show
    } else {
        n.dont_show
    };
    &&& persist == (closes && dont_show)
    &&& b == (VideoPlayerScreen {
        notice: GreyscaleNotice {
            shown: n.shown && !closes,
            dont_show,
            check: ButtonState { pressed_last: touched(touches, check_rect()) },
            ok_btn: ButtonState { pressed_last: touched(touches, ok_rect()) },
        },
        ..a
    })
}

/// The first part of a frame by its steps: the circle and the touches (which
/// leave the screen as `m`); unless that leaves it, the video is asked for, and
/// a file that is there is to be opened.
pub open spec fn start_steps(
    a: VideoPlayerScreen,
    m: VideoPlayerScreen,
    b: VideoPlayerScreen,
    pad: PadFrame,
    pad_changed: bool,
    touching: bool,
    has_worker: bool,
    input: VideoInput,
    out: VideoStart,
) -> bool {
    &&& input_followed(a, m, pad, pad_changed, touching, input)
    &&& out.persist == input.persist
    &&& if input.pop {
        &&& b == m
        &&& out.action is Pop
        &&& out.request is None
        &&& out.open is None
    } else {
        &&& b == begun(m, has_worker)
        &&& out.action is Stay
        &&& out.request == video_request(m, has_worker)
        &&& out.open == file_ready(b)
    }
}

/// The first part of a frame.
pub open spec fn frame_started(
    a: VideoPlayerScreen,
    b: VideoPlayerScreen,
    pad: PadFrame,
    pad_changed: bool,
    touching: bool,
    has_worker: bool,
    out: VideoStart,
) -> bool {
    exists|m: VideoPlayerScreen, input: VideoInput| #[trigger]
        start_steps(a, m, b, pad, pad_changed, touching, has_worker, input, out)
}

/// A time as minutes and seconds, the seconds with two digits.
pub open spec fn clock(us: u64) -> Seq<char> {
    let secs = us as int / 1_000_000;
    let s = secs % 60;
    decimal((secs / 60) as nat) + (if s < 10 {
        ":0"@
    } else {
        ":"@
    }) + decimal(s as nat)
}

/// The word for what a player does.
pub open spec fn state_word(p: PlayerState) -> Seq<char> {
    match p {
        PlayerState::Playing => "playing"@,
        PlayerState::Paused => "paused"@,
        PlayerState::Eof => "ended"@,
    }
}

/// A time as minutes and seconds.
pub fn format_us(us: u64) -> (r: String)
    ensures
        r@ == clock(us),
{
    let secs: u64 = us / 1_000_000;
    let s: u64 = secs % 60;
    let sep = if s < 10 {
        ":0"
    } else {
        ":"
    };
    join3(decimal_text(secs / 60).as_str(), sep, decimal_text(s).as_str())
}

/// The words in the transport bar.
pub fn transport_label(now_us: u64, state: PlayerState) -> (r: String)
    ensures
        r@ == clock(now_us) + "  ·  "@ + state_word(state),
{
    let word = match state {
        PlayerState::Playing => owned("playing"),
        PlayerState::Paused => owned("paused"),
        PlayerState::Eof => owned("ended"),
    };
    join3(format_us(now_us).as_str(), "  ·  ", word.as_str())
}

/// What the square does.
pub open spec fn play_action(state: PlayerState) -> PlayAction {
    match state {
        PlayerState::Playing => PlayAction::Pause,
        PlayerState::Paused => PlayAction::Resume,
        PlayerState::Eof => PlayAction::Restart,
    }
}

/// Where seeking back leads.
pub open spec fn rewound(now_us: u64) -> int {
    if now_us > SEEK_STEP_US {
        now_us - SEEK_STEP_US
    } else {
        0
    }
}

/// Where seeking forward leads.
pub open spec fn advanced(now_us: u64) -> int {
    now_us + SEEK_STEP_US
}

/// What the square does: it pauses, goes on, or starts anew at the end.
pub fn toggle_play(state: PlayerState) -> (r: PlayAction)
    ensures
        r == play_action(state),
{
    match state {
        PlayerState::Playing => PlayAction::Pause,
        PlayerState::Paused => PlayAction::Resume,
        PlayerState::Eof => PlayAction::Restart,
    }
}

/// Where seeking back leads: not before the start.
pub fn seek_back(now_us: u64) -> (r: u64)
    ensures
        r == rewound(now_us),
{
    if now_us > SEEK_STEP_US {
        now_us - SEEK_STEP_US
    } else {
        0
    }
}

/// Where seeking forward leads.
pub fn seek_forward(now_us: u64) -> (r: u64)
    requires
        now_us + SEEK_STEP_US <= u64::MAX,
    ensures
        r == advanced(now_us),
{
    now_us + SEEK_STEP_US
}

impl VideoPlayerScreen {
    /// A video that was just opened, before anything of it came.
    pub open spec fn just_opened(did: String, cid: String, r: VideoPlayerScreen) -> bool {
        r == (VideoPlayerScreen {
            did,
            cid,
            state: VideoState::Pending,
            overlay_idle: 0,
            tap: ButtonState { pressed_last: false },
            notice: GreyscaleNotice {
                shown: false,
                dont_show: false,
                ok_btn: ButtonState { pressed_last: false },
                check: ButtonState { pressed_last: false },
            },
        })
    }

    /// A video that has not been fetched.
    pub fn new(did: String, cid: String) -> (r: VideoPlayerScreen)
        ensures
            Self::just_opened(did, cid, r),
    {
        VideoPlayerScreen {
            did,
            cid,
            state: VideoState::Pending,
            overlay_idle: 0,
            tap: ButtonState::default(),
            notice: GreyscaleNotice {
                shown: false,
                dont_show: false,
                ok_btn: ButtonState::default(),
                check: ButtonState::default(),
            },
        }
    }

    /// Whether the transport bar shows.
    pub fn show_overlay(&self) -> (r: bool)
        ensures
            r == bar_shows(self.overlay_idle as int),
    {
        self.overlay_idle < OVERLAY_HIDE_FRAMES
    }

    /// Closes the notice; `true` means that it is not to be shown again.
    pub fn dismiss_notice(&mut self) -> (persist: bool)
        ensures
            persist == old(self).notice.dont_show,
            *final(self) == notice_closed(*old(self)),
    {
        self.notice.shown = false;
        self.notice.dont_show
    }

    /// Starts a frame: the circle closes the notice, or leaves where there is
    /// none. `pad_changed` tells whether any button went down or up.
    pub fn input(&mut self, pad: &PadFrame, pad_changed: bool, touching: bool) -> (r: VideoInput)
        ensures
            input_followed(*old(self), *final(self), *pad, pad_changed, touching, r),
    {
        let mut persist = false;
        if pad.circle {
            if !self.notice.shown {
                return VideoInput { pop: true, persist: false };
            }
            persist = self.dismiss_notice();
        }
        if pad_changed || (self.notice.shown && touching) {
            self.overlay_idle = 0;
        } else if touching {
        } else if self.tap.pressed_last && !self.notice.shown {
            self.overlay_idle = if self.overlay_idle < OVERLAY_HIDE_FRAMES {
                OVERLAY_HIDE_FRAMES
            } else {
                0
            };
        } else if self.overlay_idle < u32::MAX {
            self.overlay_idle = self.overlay_idle + 1;
        }
        self.tap.pressed_last = touching;
        VideoInput { pop: false, persist }
    }

    /// Asks for the video, once.
    pub fn begin(&mut self, has_worker: bool) -> (r: Option<WorkRequest>)
        ensures
            r == video_request(*old(self), has_worker),
            *final(self) == begun(*old(self), has_worker),
    {
        if !has_worker || !matches!(&self.state, VideoState::Pending) {
            return None;
        }
        self.state = VideoState::Downloading;
        Some(WorkRequest::FetchVideoBlob { did: self.did.clone(), cid: self.cid.clone() })
    }

    /// The file that is to be opened.
    pub fn to_open(&self) -> (r: Option<String>)
        ensures
            r == file_ready(*self),
    {
        match &self.state {
            VideoState::Ready { file_path } => Some(file_path.clone()),
            _ => None,
        }
    }

    /// The first part of a frame, up to where a file is opened. `pad_changed`
    /// tells whether any button went down or up.
    pub fn frame_start(
        &mut self,
        pad: &PadFrame,
        pad_changed: bool,
        touching: bool,
        has_worker: bool,
    ) -> (r: VideoStart)
        ensures
            frame_started(
                *old(self),
                *final(self),
                *pad,
                pad_changed,
                touching,
                has_worker,
                r,
            ),
    {
        let input = self.input(pad, pad_changed, touching);
        let ghost m = *self;
        let r = if input.pop {
            VideoStart {
                action: ScreenAction::Pop,
                persist: input.persist,
                request: None,
                open: None,
            }
        } else {
            let request = self.begin(has_worker);
            VideoStart {
                action: ScreenAction::Stay,
                persist: input.persist,
                request,
                open: self.to_open(),
            }
        };
        assert(start_steps(
            *old(self),
            m,
            *self,
            *pad,
            pad_changed,
            touching,
            has_worker,
            input,
            r,
        ));
        r
    }

    /// The notice is followed while it shows.
    pub open spec fn notice_ended(
        a: Self,
        b: Self,
        pad: PadFrame,
        touches: Vec<TouchPoint>,
        persist: bool,
    ) -> bool {
        if a.notice.shown {
            notice_followed(a, b, pad, touches@, persist)
        } else {
            !persist && b == a
        }
    }

    /// The last part of a frame: the notice, where it is shown. `true` means
    /// that it is not to be shown again.
    pub fn frame_end(&mut self, pad: &PadFrame, touches: &Vec<TouchPoint>) -> (persist: bool)
        ensures
            Self::notice_ended(*old(self), *final(self), *pad, *touches, persist),
    {
        if self.notice.shown {
            self.notice_frame(pad, touches)
        } else {
            false
        }
    }

    /// Takes whether the file could be opened. Without colour, the notice is
    /// shown, unless it is not to be shown again.
    pub fn opened(&mut self, result: Result<(), String>, color: bool, notice_dismissed: bool)
        ensures
            *final(self) == file_opened(*old(self), result, color, notice_dismissed),
    {
        match result {
            Ok(_) => {
                if !color && !notice_dismissed {
                    self.notice.shown = true;
                }
                self.state = VideoState::Playing { greyscale: !color, tex_w: 0, tex_h: 0 };
            },
            Err(e) => {
                self.state = VideoState::Error(e);
            },
        }
    }

    /// The transport buttons that count: none before the video plays, and none
    /// under the notice.
    pub fn transport(&self, pad: &PadFrame) -> (r: TransportKeys)
        ensures
            r == keys_live(*self, *pad),
    {
        let live = matches!(&self.state, VideoState::Playing { .. }) && !self.notice.shown;
        TransportKeys {
            toggle: live && pad.square,
            back: live && pad.left,
            forward: live && pad.right,
        }
    }

    /// Whether the picture no longer fits the video.
    pub open spec fn outgrown(s: Self, width: u32, height: u32, r: bool) -> bool {
        r == (s.state matches VideoState::Playing { tex_w, tex_h, .. } && (tex_w != width
            || tex_h != height))
    }

    /// Whether a frame of this size needs another texture.
    pub fn size_changed(&self, width: u32, height: u32) -> (r: bool)
        ensures
            Self::outgrown(*self, width, height, r),
    {
        match &self.state {
            VideoState::Playing { tex_w, tex_h, .. } => *tex_w != width || *tex_h != height,
            _ => false,
        }
    }

    /// The picture has the size that was made.
    pub open spec fn pictured(a: Self, b: Self, width: u32, height: u32) -> bool {
        b == (VideoPlayerScreen {
            state: match a.state {
                VideoState::Playing { greyscale, .. } => VideoState::Playing {
                    greyscale,
                    tex_w: width,
                    tex_h: height,
                },
                s => s,
            },
            ..a
        })
    }

    /// A texture of this size was made.
    pub fn texture_made(&mut self, width: u32, height: u32)
        ensures
            Self::pictured(*old(self), *final(self), width, height),
    {
        match &mut self.state {
            VideoState::Playing { tex_w, tex_h, .. } => {
                *tex_w = width;
                *tex_h = height;
            },
            _ => {},
        }
    }

    /// One frame of the notice: the box is ticked or not, the button or the
    /// cross closes it. `true` means that it is not to be shown again.
    pub fn notice_frame(&mut self, pad: &PadFrame, touches: &Vec<TouchPoint>) -> (persist: bool)
        ensures
            notice_followed(*old(self), *final(self), *pad, touches@, persist),
    {
        if button(Rect::new(184, 292, 300, 34), &mut self.notice.check, touches, true) {
            self.notice.dont_show = !self.notice.dont_show;
        }
        let hit = button(Rect::new(640, 338, 136, 40), &mut self.notice.ok_btn, touches, true);
        if hit || pad.cross {
            self.dismiss_notice()
        } else {
            false
        }
    }

    /// Takes an answer of the worker. One for another video is dropped.
    pub fn handle_worker_response(&mut self, resp: WorkResponse)
        ensures
            *final(self) == answered(*old(self), resp),
    {
        match resp {
            WorkResponse::VideoBlob { cid, result } => {
                if same_text(cid.as_str(), self.cid.as_str()) {
                    self.state = match result {
                        Ok(file_path) => VideoState::Ready { file_path },
                        Err(e) => VideoState::Error(e),
                    };
                }
            },
            _ => {},
        }
    }
}

/// A video is asked for once: from then on it is no longer pending.
pub proof fn lemma_asked_once(
    a: VideoPlayerScreen,
    b: VideoPlayerScreen,
    pad: PadFrame,
    pad_changed: bool,
    touching: bool,
    has_worker: bool,
    out: VideoStart,
)
    requires
        frame_started(a, b, pad, pad_changed, touching, has_worker, out),
        out.request is Some,
    ensures
        a.state is Pending,
        video_request(b, true) is None,
{
}

/// The circle closes the notice and stays, or leaves where there is none.
pub proof fn lemma_circle_closes_first(
    a: VideoPlayerScreen,
    b: VideoPlayerScreen,
    pad: PadFrame,
    pad_changed: bool,
    touching: bool,
    has_worker: bool,
    out: VideoStart,
)
    requires
        frame_started(a, b, pad, pad_changed, touching, has_worker, out),
        pad.circle,
    ensures
        out.action is Pop <==> !a.notice.shown,
        a.notice.shown ==> !b.notice.shown,
{
}

/// Two taps leave the transport bar as it was, shown or hidden, where nothing
/// else is pressed.
pub proof fn lemma_two_taps(s: VideoPlayerScreen, t: VideoPlayerScreen)
    requires
        !s.notice.shown,
        s.tap.pressed_last,
        t == (VideoPlayerScreen { overlay_idle: idle_after(s, false, false) as u32, ..s }),
    ensures
        bar_shows(idle_after(s, false, false)) == !bar_shows(s.overlay_idle as int),
        bar_shows(idle_after(t, false, false)) == bar_shows(s.overlay_idle as int),
{
}

/// Left to itself, the transport bar hides: every frame without input counts,
/// and a bar that is hidden stays so.
pub proof fn lemma_bar_hides(s: VideoPlayerScreen)
    requires
        !s.tap.pressed_last,
    ensures
        bar_shows(s.overlay_idle as int) ==> idle_after(s, false, false) == s.overlay_idle + 1,
        !bar_shows(s.overlay_idle as int) ==> !bar_shows(idle_after(s, false, false)),
{
}

} // verus!
