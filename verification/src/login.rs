//! The login screen: signing in on the phone by a code that is shown, or with
//! an app password.
//!
//! What the network has to do is asked for after a frame was shown, one step
//! at a time, and the answer decides where the screen goes:
//!
//! - a saved session is looked for first, then the form is shown;
//! - with an app password, the reader is logged in at once;
//! - on the phone, a flow is started, its code shown until the phone reports
//!   back, and what it reports is exchanged for a session.

use vstd::prelude::*;

use crate::conversation::ImeEvent;
use crate::screen::ScreenAction;
use crate::text::{join2, owned, to_lower, trim};
#[allow(unused_imports)]
use crate::text::{lowercase_of, opt_view, trimmed};
use crate::widget::{
    button, text_field, ButtonState, FieldState, FieldText, PadFrame, Rect, TouchPoint,
};
#[allow(unused_imports)]
use crate::widget::{clicked, field_display, touched};

verus! {

/// The field that the keyboard is open for.
#[derive(Copy, Clone, Debug, PartialEq, Eq, Structural)]
pub enum LoginFocus {
    Nowhere,
    Handle,
    Password,
}

/// How the reader signs in.
#[derive(Copy, Clone, Debug, PartialEq, Eq, Structural)]
pub enum LoginMode {
    /// On the phone.
    OAuth,
    /// With an app password.
    AppPassword,
}

/// How far signing in has come.
pub enum LoginState {
    /// A saved session is looked for.
    CheckingSession,
    /// The form.
    Idle,
    /// The app password is being checked.
    Authenticating,
    /// Signed in.
    Done,
    /// Signed in, and left.
    Left,
    /// Signing in failed.
    Error(String),
    /// The flow on the phone is being started.
    OAuthBeginning,
    /// The code is shown, and the phone is waited for.
    OAuthAwaiting { auth_url: String },
    /// What the phone reported is being exchanged.
    OAuthExchanging { code: String, iss: String },
}

/// What the phone reports.
#[derive(Debug)]
pub enum PollOutcome {
    Ready { code: String, iss: String },
    Timeout,
    Failed(String),
}

/// What was put off until a frame was shown, so that the code is not let go of
/// while it is still being drawn.
pub struct LoginDeferred {
    pub cancel: bool,
    pub ready: Option<(String, String)>,
    pub failed: Option<String>,
}

/// The login screen.
pub struct LoginScreen {
    pub handle: FieldState,
    pub password: FieldState,
    pub primary_btn: ButtonState,
    pub toggle_link_btn: ButtonState,
    pub cancel_btn: ButtonState,
    pub focus: LoginFocus,
    pub mode: LoginMode,
    pub state: LoginState,
    /// There is a client that started a flow.
    pub has_client: bool,
    /// There is a flow that was started.
    pub has_flow: bool,
    pub pending: LoginDeferred,
}

/// What is to be done over the network.
#[derive(Debug)]
pub enum LoginWork {
    Nothing,
    /// Look for a saved session.
    Resume,
    /// Log in.
    LogIn { handle: String, password: String },
    /// Start a flow on the phone.
    StartFlow { handle: String },
    /// Exchange what the phone reported.
    Exchange { code: String, iss: String },
}

/// What became of starting a flow.
#[derive(Debug)]
pub enum FlowStart {
    /// There is no client for it.
    NoClient(String),
    /// It could not be started.
    Failed(String),
    /// Its address could not be made a code.
    NoCode(String),
    Started { auth_url: String },
}

/// What the form asks for, and how its fields look.
#[derive(Debug)]
pub struct LoginForm {
    pub handle: FieldText,
    /// Only with an app password.
    pub password: Option<FieldText>,
    /// Open the keyboard for the handle, with this text in it.
    pub edit_handle: Option<String>,
    /// Open the keyboard for the password.
    pub edit_password: bool,
}

/// What a frame asks for.
#[derive(Debug)]
pub struct LoginFrame {
    /// The phone is not to be waited for any more.
    pub stop: bool,
    /// The form, where it is on display.
    pub form: Option<LoginForm>,
    pub action: ScreenAction,
}

/// The reader can do something.
pub open spec fn form_live(s: LoginScreen, ime_active: bool) -> bool {
    (s.state is Idle || s.state is Error) && !ime_active
}

pub open spec fn handle_rect() -> Rect {
    Rect { x: 200, y: 200, w: 560, h: 40 }
}

pub open spec fn password_rect() -> Rect {
    Rect { x: 200, y: 280, w: 560, h: 40 }
}

pub open spec fn primary_rect() -> Rect {
    Rect { x: 200, y: 370, w: 560, h: 50 }
}

pub open spec fn toggle_rect() -> Rect {
    Rect { x: 200, y: 440, w: 560, h: 28 }
}

pub open spec fn cancel_rect() -> Rect {
    Rect { x: 380, y: 488, w: 200, h: 40 }
}

/// A touch on an error clears it.
pub open spec fn error_cleared(s: LoginState) -> LoginState {
    if s is Error {
        LoginState::Idle
    } else {
        s
    }
}

/// The handle as it is sent: without white space around it, in small letters.
pub open spec fn sent_handle(value: Seq<char>) -> Seq<char> {
    lowercase_of(trimmed(value))
}

/// The state after the main button: an error where something is missing, else
/// the first step of signing in.
pub open spec fn submitted_is(s: LoginScreen, state: LoginState) -> bool {
    match s.mode {
        LoginMode::AppPassword => if trimmed(s.handle.value@).len() == 0 || s.password.value@.len()
            == 0 {
            state matches LoginState::Error(e) && e@ == "Handle and app password are required"@
        } else {
            state is Authenticating
        },
        LoginMode::OAuth => if trimmed(s.handle.value@).len() == 0 {
            state matches LoginState::Error(e) && e@ == "Handle is required"@
        } else {
            state is OAuthBeginning
        },
    }
}

/// The other way to sign in.
pub open spec fn other_mode(m: LoginMode) -> LoginMode {
    match m {
        LoginMode::OAuth => LoginMode::AppPassword,
        LoginMode::AppPassword => LoginMode::OAuth,
    }
}

/// What the keyboard reports goes to the field that has the focus, a handle as
/// it is sent; then no field has it.
pub open spec fn ime_taken(a: LoginScreen, b: LoginScreen, event: ImeEvent) -> bool {
    &&& match event {
        ImeEvent::Finished(v) => {
            &&& a.focus == LoginFocus::Handle ==> b.handle.value@ == sent_handle(v@)
            &&& a.focus != LoginFocus::Handle ==> b.handle.value == a.handle.value
            &&& b.password.value == (if a.focus == LoginFocus::Password {
                v
            } else {
                a.password.value
            })
        },
        _ => b.handle.value == a.handle.value && b.password.value == a.password.value,
    }
    &&& b == (if event is Idle {
        a
    } else {
        LoginScreen {
            handle: FieldState { value: b.handle.value, focused: false, ..a.handle },
            password: FieldState { value: b.password.value, focused: false, ..a.password },
            focus: LoginFocus::Nowhere,
            ..a
        }
    })
}

/// The screen once a reader who is signed in has left it.
pub open spec fn finished(s: LoginScreen) -> LoginScreen {
    if s.state is Done {
        LoginScreen { state: LoginState::Left, ..s }
    } else {
        s
    }
}

/// The phone is not waited for any more: the circle, or a click that cancels.
pub open spec fn stops(s: LoginScreen, pad: PadFrame, touches: Seq<TouchPoint>) -> bool {
    pad.circle || clicked(
        true,
        s.cancel_btn.pressed_last,
        touched(touches, cancel_rect()),
        touches.len() > 0,
    )
}

/// The screen after a frame in which the phone is waited for.
pub open spec fn awaited(
    s: LoginScreen,
    pad: PadFrame,
    touches: Seq<TouchPoint>,
) -> LoginScreen {
    LoginScreen {
        cancel_btn: ButtonState { pressed_last: touched(touches, cancel_rect()) },
        pending: LoginDeferred {
            cancel: s.pending.cancel || stops(s, pad, touches),
            ..s.pending
        },
        ..s
    }
}

/// One frame: a reader who is signed in leaves; while the phone is waited for
/// it can be cancelled; while its report is exchanged nothing happens; else the
/// form is on display.
pub open spec fn framed(
    a: LoginScreen,
    b: LoginScreen,
    pad: PadFrame,
    touches: Seq<TouchPoint>,
    ime_active: bool,
    out: LoginFrame,
) -> bool {
    match a.state {
        LoginState::Done => {
            &&& b == finished(a)
            &&& out.action is AuthComplete
            &&& out.form is None
            &&& !out.stop
        },
        LoginState::OAuthAwaiting { .. } => {
            &&& b == awaited(a, pad, touches)
            &&& out.action is Stay
            &&& out.form is None
            &&& out.stop == stops(a, pad, touches)
        },
        LoginState::OAuthExchanging { .. } => {
            &&& b == a
            &&& out.action is Stay
            &&& out.form is None
            &&& !out.stop
        },
        _ => {
            &&& out.form matches Some(f) && LoginScreen::form_followed(
                a,
                b,
                touches,
                ime_active,
                f,
            )
            &&& out.action is Stay
            &&& !out.stop
        },
    }
}

/// The state once what was put off has been taken up.
pub open spec fn deferred_taken(a: LoginScreen, b: LoginScreen) -> bool {
    if a.pending.cancel {
        b == (LoginScreen {
            pending: LoginDeferred { cancel: false, ready: None, failed: None },
            has_client: false,
            has_flow: false,
            state: LoginState::Idle,
            ..a
        })
    } else {
        match a.pending.ready {
            Some(r) => b == (LoginScreen {
                pending: LoginDeferred { ready: None, ..a.pending },
                state: LoginState::OAuthExchanging { code: r.0, iss: r.1 },
                ..a
            }),
            None => match a.pending.failed {
                Some(e) => b == (LoginScreen {
                    pending: LoginDeferred { failed: None, ..a.pending },
                    has_client: false,
                    has_flow: false,
                    state: LoginState::Error(e),
                    ..a
                }),
                None => b == a,
            },
        }
    }
}

/// What is to be done for a state, and what that makes of it.
pub open spec fn work_given(a: LoginScreen, b: LoginScreen, work: LoginWork) -> bool {
    match a.state {
        LoginState::CheckingSession => work is Resume && b == a,
        LoginState::Authenticating => {
            &&& work matches LoginWork::LogIn { handle, password } && handle@ == sent_handle(
                a.handle.value@,
            ) && password == a.password.value
            &&& b == a
        },
        LoginState::OAuthBeginning => {
            &&& work matches LoginWork::StartFlow { handle } && handle@ == sent_handle(
                a.handle.value@,
            )
            &&& b == a
        },
        LoginState::OAuthExchanging { code, iss } => if !a.has_client {
            &&& work is Nothing
            &&& b.state matches LoginState::Error(e) && e@ == "internal: missing OAuth client"@
            &&& b == (LoginScreen { state: b.state, ..a })
        } else if !a.has_flow {
            &&& work is Nothing
            &&& b.state matches LoginState::Error(e) && e@ == "internal: missing pending flow"@
            &&& b == (LoginScreen { state: b.state, ..a })
        } else {
            &&& work == (LoginWork::Exchange { code, iss })
            &&& b == (LoginScreen { has_flow: false, ..a })
        },
        _ => work is Nothing && b == a,
    }
}

/// What a report of the phone makes of a screen: it counts only while the phone
/// is waited for, and what follows from it is put off.
pub open spec fn polled(a: LoginScreen, b: LoginScreen, outcome: PollOutcome) -> bool {
    if a.state is OAuthAwaiting {
        let p = a.pending;
        let q = b.pending;
        &&& match outcome {
            PollOutcome::Ready { code, iss } => q == (LoginDeferred {
                ready: Some((code, iss)),
                ..p
            }),
            PollOutcome::Timeout => {
                &&& opt_view(q.failed) == Some("Sign-in timed out — please try again."@)
                &&& q == (LoginDeferred { failed: q.failed, ..p })
            },
            PollOutcome::Failed(m) => {
                &&& opt_view(q.failed) == Some("Broker: "@ + m@)
                &&& q == (LoginDeferred { failed: q.failed, ..p })
            },
        }
        &&& b == (LoginScreen { pending: q, ..a })
    } else {
        b == a
    }
}

/// What follows once a frame was shown: what was put off is taken up, and then
/// comes what is to be done, unless signing in just ended.
pub open spec fn presented(a: LoginScreen, b: LoginScreen, work: LoginWork) -> bool {
    if a.pending.cancel || (a.pending.ready is None && a.pending.failed is Some) {
        work is Nothing && deferred_taken(a, b)
    } else {
        exists|mid: LoginScreen| #[trigger] deferred_taken(a, mid) && work_given(mid, b, work)
    }
}

/// What looking for a saved session makes of a screen.
pub open spec fn resume_taken(
    a: LoginScreen,
    b: LoginScreen,
    result: Result<bool, String>,
) -> bool {
    &&& match result {
        Ok(found) => b.state == (if found {
            LoginState::Done
        } else {
            LoginState::Idle
        }),
        Err(e) => b.state matches LoginState::Error(m) && m@ == "resume failed: "@ + e@,
    }
    &&& b == (LoginScreen { state: b.state, ..a })
}

/// What checking the app password makes of a screen.
pub open spec fn login_taken(a: LoginScreen, b: LoginScreen, result: Result<(), String>) -> bool {
    b == (LoginScreen {
        state: match result {
            Ok(_) => LoginState::Done,
            Err(e) => LoginState::Error(e),
        },
        ..a
    })
}

/// What starting a flow makes of a screen.
pub open spec fn flow_taken(a: LoginScreen, b: LoginScreen, result: FlowStart) -> bool {
    match result {
        FlowStart::Started { auth_url } => b == (LoginScreen {
            has_client: true,
            has_flow: true,
            state: LoginState::OAuthAwaiting { auth_url },
            ..a
        }),
        FlowStart::NoClient(e) => {
            &&& b.state matches LoginState::Error(m) && m@ == "OAuth client init: "@ + e@
            &&& b == (LoginScreen { state: b.state, ..a })
        },
        FlowStart::Failed(e) => {
            &&& b.state matches LoginState::Error(m) && m@ == "OAuth start: "@ + e@
            &&& b == (LoginScreen { state: b.state, ..a })
        },
        FlowStart::NoCode(e) => {
            &&& b.state matches LoginState::Error(m) && m@ == "QR encode: "@ + e@
            &&& b == (LoginScreen { state: b.state, ..a })
        },
    }
}

/// What the exchange makes of a screen.
pub open spec fn exchange_taken(
    a: LoginScreen,
    b: LoginScreen,
    result: Result<(), String>,
) -> bool {
    &&& match result {
        Ok(_) => b.state is Done,
        Err(e) => b.state matches LoginState::Error(m) && m@ == "OAuth exchange: "@ + e@,
    }
    &&& b == (LoginScreen { has_client: false, state: b.state, ..a })
}

/// What is said on top of the form while something is under way.
pub open spec fn overlay_of(s: LoginState) -> Option<Seq<char>> {
    match s {
        LoginState::CheckingSession => Some("Checking saved session…"@),
        LoginState::Authenticating => Some("Authenticating…"@),
        LoginState::OAuthBeginning => Some("Starting OAuth flow…"@),
        LoginState::OAuthExchanging { .. } => Some("Completing sign-in…"@),
        LoginState::Done => Some("Authenticating…"@),
        _ => None,
    }
}

/// The line that tells why signing in failed.
pub open spec fn error_of(s: LoginState) -> Option<Seq<char>> {
    match s {
        LoginState::Error(e) => Some("Error: "@ + e@),
        _ => None,
    }
}

/// The words on the main button.
pub open spec fn primary_word(m: LoginMode) -> Seq<char> {
    match m {
        LoginMode::AppPassword => "Log in"@,
        LoginMode::OAuth => "Sign in with Bluesky"@,
    }
}

/// The words on the link to the other way.
pub open spec fn toggle_word(m: LoginMode) -> Seq<char> {
    match m {
        LoginMode::AppPassword => "Sign in with Bluesky (recommended)"@,
        LoginMode::OAuth => "Use an app password instead"@,
    }
}

impl LoginScreen {
    /// No field has the focus, and nothing is pressed.
    pub open spec fn untouched(&self) -> bool {
        &&& !self.handle.focused && !self.handle.pressed_last
        &&& !self.password.focused && !self.password.pressed_last
        &&& !self.primary_btn.pressed_last
        &&& !self.toggle_link_btn.pressed_last
        &&& !self.cancel_btn.pressed_last
    }

    /// Nothing was entered, pressed, started or put off yet; the way in is that
    /// over the phone.
    pub open spec fn blank(&self) -> bool {
        &&& self.mode == LoginMode::OAuth
        &&& self.focus == LoginFocus::Nowhere
        &&& self.handle.value@.len() == 0
        &&& self.password.value@.len() == 0
        &&& !self.has_client
        &&& !self.has_flow
        &&& self.pending == (LoginDeferred { cancel: false, ready: None, failed: None })
        &&& self.untouched()
    }

    /// A screen with nothing entered, about to look for a saved session.
    pub open spec fn just_opened(r: LoginScreen) -> bool {
        &&& r.state is CheckingSession
        &&& r.blank()
    }

    /// A screen that looks for a saved session first.
    pub fn new() -> (r: LoginScreen)
        ensures
            Self::just_opened(r),
    {
        LoginScreen {
            handle: FieldState::default(),
            password: FieldState::default(),
            primary_btn: ButtonState::default(),
            toggle_link_btn: ButtonState::default(),
            cancel_btn: ButtonState::default(),
            focus: LoginFocus::Nowhere,
            mode: LoginMode::OAuth,
            state: LoginState::CheckingSession,
            has_client: false,
            has_flow: false,
            pending: LoginDeferred { cancel: false, ready: None, failed: None },
        }
    }

    /// A screen that shows the form at once: the session was just forgotten.
    pub fn idle() -> (r: LoginScreen)
        ensures
            r.state is Idle,
            r.blank(),
    {
        let mut s = LoginScreen::new();
        s.state = LoginState::Idle;
        s
    }

    /// Takes what the keyboard reports; `true` means that it is to be closed.
    /// A handle is put into the form that is sent.
    pub fn take_ime(&mut self, event: ImeEvent) -> (close: bool)
        ensures
            close == !(event is Idle),
            ime_taken(*old(self), *final(self), event),
    {
        match event {
            ImeEvent::Idle => {
                return false;
            },
            ImeEvent::Finished(v) => match self.focus {
                LoginFocus::Handle => {
                    self.handle.value = to_lower(trim(v.as_str()).as_str());
                },
                LoginFocus::Password => {
                    self.password.value = v;
                },
                LoginFocus::Nowhere => {},
            },
            ImeEvent::Dismissed => {},
        }
        self.handle.focused = false;
        self.password.focused = false;
        self.focus = LoginFocus::Nowhere;
        true
    }

    /// Takes what the phone reports, while it is waited for. What follows from
    /// it is put off until the frame was shown.
    pub fn take_poll(&mut self, outcome: PollOutcome)
        ensures
            polled(*old(self), *final(self), outcome),
    {
        if !matches!(&self.state, LoginState::OAuthAwaiting { .. }) {
            return;
        }
        match outcome {
            PollOutcome::Ready { code, iss } => {
                self.pending.ready = Some((code, iss));
            },
            PollOutcome::Timeout => {
                self.pending.failed = Some(owned("Sign-in timed out — please try again."));
            },
            PollOutcome::Failed(m) => {
                self.pending.failed = Some(join2("Broker: ", m.as_str()));
            },
        }
    }

    /// Leaves once the reader is signed in.
    pub fn finish(&mut self) -> (r: ScreenAction)
        ensures
            r == (if old(self).state is Done {
                ScreenAction::AuthComplete
            } else {
                ScreenAction::Stay
            }),
            *final(self) == finished(*old(self)),
    {
        if matches!(&self.state, LoginState::Done) {
            self.state = LoginState::Left;
            ScreenAction::AuthComplete
        } else {
            ScreenAction::Stay
        }
    }

    /// One frame while the phone is waited for: `true` means that it was
    /// cancelled, so that the phone need not be waited for any more. The rest
    /// is put off until the frame was shown.
    pub fn awaiting_frame(&mut self, pad: &PadFrame, touches: &Vec<TouchPoint>) -> (stop: bool)
        ensures
            stop == stops(*old(self), *pad, touches@),
            *final(self) == awaited(*old(self), *pad, touches@),
    {
        let hit = button(Rect::new(380, 488, 200, 40), &mut self.cancel_btn, touches, true);
        if hit || pad.circle {
            self.pending.cancel = true;
            true
        } else {
            false
        }
    }

    /// An error is forgotten.
    pub fn transition_to_idle(&mut self)
        ensures
            *final(self) == (LoginScreen {
                state: error_cleared(old(self).state),
                ..*old(self)
            }),
    {
        if matches!(&self.state, LoginState::Error(_)) {
            self.state = LoginState::Idle;
        }
    }

    /// The main button: starts to sign in, where nothing is missing.
    pub fn handle_primary(&mut self)
        ensures
            submitted_is(*old(self), final(self).state),
            *final(self) == (LoginScreen { state: final(self).state, ..*old(self) }),
    {
        let no_handle = trim(self.handle.value.as_str()).as_str().is_empty();
        self.state = match self.mode {
            LoginMode::AppPassword => if no_handle || self.password.value.as_str().is_empty() {
                LoginState::Error(owned("Handle and app password are required"))
            } else {
                LoginState::Authenticating
            },
            LoginMode::OAuth => if no_handle {
                LoginState::Error(owned("Handle is required"))
            } else {
                LoginState::OAuthBeginning
            },
        };
    }

    /// A click in the form.
    pub open spec fn form_hit(
        s: LoginScreen,
        pressed: bool,
        touches: Seq<TouchPoint>,
        r: Rect,
        ime_active: bool,
    ) -> bool {
        clicked(form_live(s, ime_active), pressed, touched(touches, r), touches.len() > 0)
    }

    /// The handle was tapped.
    pub open spec fn taps_handle(s: LoginScreen, touches: Seq<TouchPoint>, ime: bool) -> bool {
        Self::form_hit(s, s.handle.pressed_last, touches, handle_rect(), ime)
    }

    /// The password was tapped.
    pub open spec fn taps_password(s: LoginScreen, touches: Seq<TouchPoint>, ime: bool) -> bool {
        s.mode == LoginMode::AppPassword && Self::form_hit(
            s,
            s.password.pressed_last,
            touches,
            password_rect(),
            ime,
        )
    }

    /// The main button was tapped.
    pub open spec fn taps_primary(s: LoginScreen, touches: Seq<TouchPoint>, ime: bool) -> bool {
        Self::form_hit(s, s.primary_btn.pressed_last, touches, primary_rect(), ime)
    }

    /// The link to the other way was tapped.
    pub open spec fn taps_toggle(s: LoginScreen, touches: Seq<TouchPoint>, ime: bool) -> bool {
        Self::form_hit(s, s.toggle_link_btn.pressed_last, touches, toggle_rect(), ime)
    }

    /// The form's press states after a frame.
    pub open spec fn form_tracked(s: LoginScreen, touches: Seq<TouchPoint>) -> LoginScreen {
        LoginScreen {
            handle: FieldState { pressed_last: touched(touches, handle_rect()), ..s.handle },
            password: if s.mode == LoginMode::AppPassword {
                FieldState { pressed_last: touched(touches, password_rect()), ..s.password }
            } else {
                s.password
            },
            primary_btn: ButtonState { pressed_last: touched(touches, primary_rect()) },
            toggle_link_btn: ButtonState { pressed_last: touched(touches, toggle_rect()) },
            ..s
        }
    }

    /// The form once the taps on its fields were followed.
    pub open spec fn fields_followed(s: LoginScreen, h: bool, p: bool) -> LoginScreen {
        let a = if h {
            LoginScreen {
                state: error_cleared(s.state),
                handle: FieldState { focused: true, ..s.handle },
                focus: LoginFocus::Handle,
                ..s
            }
        } else {
            s
        };
        if p {
            LoginScreen {
                state: error_cleared(a.state),
                password: FieldState { focused: true, ..a.password },
                focus: LoginFocus::Password,
                ..a
            }
        } else {
            a
        }
    }

    /// The fields as they look: the password shows as bullets, and only where
    /// it is needed.
    pub open spec fn fields_shown(s: LoginScreen, form: LoginForm) -> bool {
        &&& form.handle.text@ == field_display(s.handle.value@, "alice.bsky.social"@, false)
        &&& form.handle.muted == (s.handle.value@.len() == 0)
        &&& match form.password {
            Some(f) => {
                &&& s.mode == LoginMode::AppPassword
                &&& f.text@ == field_display(
                    s.password.value@,
                    "app password (xxxx-xxxx-xxxx-xxxx)"@,
                    true,
                )
                &&& f.muted == (s.password.value@.len() == 0)
            },
            None => s.mode == LoginMode::OAuth,
        }
    }

    /// One frame of the form's widgets.
    fn track_form(&mut self, touches: &Vec<TouchPoint>, ime_active: bool) -> (r: (
        LoginForm,
        bool,
        bool,
    ))
        ensures
            ({
                let s = *old(self);
                &&& *final(self) == Self::form_tracked(s, touches@)
                &&& Self::fields_shown(s, r.0)
                &&& match r.0.edit_handle {
                    Some(t) => Self::taps_handle(s, touches@, ime_active) && t == s.handle.value,
                    None => !Self::taps_handle(s, touches@, ime_active),
                }
                &&& r.0.edit_password == Self::taps_password(s, touches@, ime_active)
                &&& r.1 == Self::taps_primary(s, touches@, ime_active)
                &&& r.2 == Self::taps_toggle(s, touches@, ime_active)
            }),
    {
        let live = matches!(&self.state, LoginState::Idle | LoginState::Error(_)) && !ime_active;
        let (h, handle) = text_field(
            Rect::new(200, 200, 560, 40),
            "alice.bsky.social",
            &mut self.handle,
            touches,
            false,
            live,
        );
        let mut p = false;
        let mut password: Option<FieldText> = None;
        if self.mode == LoginMode::AppPassword {
            let (hit, shown) = text_field(
                Rect::new(200, 280, 560, 40),
                "app password (xxxx-xxxx-xxxx-xxxx)",
                &mut self.password,
                touches,
                true,
                live,
            );
            p = hit;
            password = Some(shown);
        }
        let primary = button(Rect::new(200, 370, 560, 50), &mut self.primary_btn, touches, live);
        let toggle = button(Rect::new(200, 440, 560, 28), &mut self.toggle_link_btn, touches, live);
        let edit_handle = if h {
            Some(self.handle.value.clone())
        } else {
            None
        };
        (LoginForm { handle, password, edit_handle, edit_password: p }, primary, toggle)
    }

    fn follow_fields(&mut self, h: bool, p: bool)
        ensures
            *final(self) == Self::fields_followed(*old(self), h, p),
    {
        if h {
            self.transition_to_idle();
            self.handle.focused = true;
            self.focus = LoginFocus::Handle;
        }
        if p {
            self.transition_to_idle();
            self.password.focused = true;
            self.focus = LoginFocus::Password;
        }
    }

    /// What the main button and the link make of a form.
    pub open spec fn buttons_followed(
        a: LoginScreen,
        b: LoginScreen,
        primary: bool,
        toggle: bool,
    ) -> bool {
        &&& b == (LoginScreen {
            state: b.state,
            mode: if toggle {
                other_mode(a.mode)
            } else {
                a.mode
            },
            ..a
        })
        &&& if primary {
            exists|mid: LoginState| #[trigger]
                submitted_is(a, mid) && b.state == (if toggle {
                    error_cleared(mid)
                } else {
                    mid
                })
        } else {
            b.state == (if toggle {
                error_cleared(a.state)
            } else {
                a.state
            })
        }
    }

    fn follow_buttons(&mut self, primary: bool, toggle: bool)
        ensures
            Self::buttons_followed(*old(self), *final(self), primary, toggle),
    {
        if primary {
            self.handle_primary();
            assert(submitted_is(*old(self), self.state));
        }
        if toggle {
            self.mode = match self.mode {
                LoginMode::OAuth => LoginMode::AppPassword,
                LoginMode::AppPassword => LoginMode::OAuth,
            };
            self.transition_to_idle();
        }
    }

    /// One frame of the form by the widgets that were tapped: its fields are
    /// followed before its buttons.
    pub open spec fn form_followed(
        a: LoginScreen,
        b: LoginScreen,
        touches: Seq<TouchPoint>,
        ime_active: bool,
        r: LoginForm,
    ) -> bool {
        let h = Self::taps_handle(a, touches, ime_active);
        let p = Self::taps_password(a, touches, ime_active);
        &&& Self::buttons_followed(
            Self::fields_followed(Self::form_tracked(a, touches), h, p),
            b,
            Self::taps_primary(a, touches, ime_active),
            Self::taps_toggle(a, touches, ime_active),
        )
        &&& Self::fields_shown(a, r)
        &&& match r.edit_handle {
            Some(t) => h && t == a.handle.value,
            None => !h,
        }
        &&& r.edit_password == p
    }

    /// One frame of the form. A tap on a field opens the keyboard for it and
    /// forgets an error; the main button starts to sign in; the link goes to
    /// the other way.
    pub fn form_frame(&mut self, touches: &Vec<TouchPoint>, ime_active: bool) -> (r: LoginForm)
        ensures
            Self::form_followed(*old(self), *final(self), touches@, ime_active, r),
    {
        let (form, primary, toggle) = self.track_form(touches, ime_active);
        self.follow_fields(form.edit_handle.is_some(), form.edit_password);
        self.follow_buttons(primary, toggle);
        form
    }

    /// One frame, once the keyboard was heard.
    pub fn frame(&mut self, pad: &PadFrame, touches: &Vec<TouchPoint>, ime_active: bool) -> (r:
        LoginFrame)
        ensures
            framed(*old(self), *final(self), *pad, touches@, ime_active, r),
    {
        match &self.state {
            LoginState::Done => LoginFrame { stop: false, form: None, action: self.finish() },
            LoginState::OAuthAwaiting { .. } => {
                let stop = self.awaiting_frame(pad, touches);
                LoginFrame { stop, form: None, action: ScreenAction::Stay }
            },
            LoginState::OAuthExchanging { .. } => LoginFrame {
                stop: false,
                form: None,
                action: ScreenAction::Stay,
            },
            _ => {
                let form = self.form_frame(touches, ime_active);
                LoginFrame { stop: false, form: Some(form), action: ScreenAction::Stay }
            },
        }
    }

    /// What is to be done once a frame was shown.
    pub fn after_present(&mut self) -> (r: LoginWork)
        ensures
            presented(*old(self), *final(self), r),
    {
        if self.pending.cancel {
            self.pending = LoginDeferred { cancel: false, ready: None, failed: None };
            self.has_client = false;
            self.has_flow = false;
            self.state = LoginState::Idle;
            return LoginWork::Nothing;
        }
        match self.pending.ready.take() {
            Some((code, iss)) => {
                self.state = LoginState::OAuthExchanging { code, iss };
            },
            None => match self.pending.failed.take() {
                Some(e) => {
                    self.has_client = false;
                    self.has_flow = false;
                    self.state = LoginState::Error(e);
                    return LoginWork::Nothing;
                },
                None => {},
            },
        }
        assert(deferred_taken(*old(self), *self));
        self.next_work()
    }

    fn next_work(&mut self) -> (r: LoginWork)
        ensures
            work_given(*old(self), *final(self), r),
    {
        match &self.state {
            LoginState::CheckingSession => LoginWork::Resume,
            LoginState::Authenticating => LoginWork::LogIn {
                handle: to_lower(trim(self.handle.value.as_str()).as_str()),
                password: self.password.value.clone(),
            },
            LoginState::OAuthBeginning => LoginWork::StartFlow {
                handle: to_lower(trim(self.handle.value.as_str()).as_str()),
            },
            LoginState::OAuthExchanging { code, iss } => {
                if !self.has_client {
                    self.state = LoginState::Error(owned("internal: missing OAuth client"));
                    LoginWork::Nothing
                } else if !self.has_flow {
                    self.state = LoginState::Error(owned("internal: missing pending flow"));
                    LoginWork::Nothing
                } else {
                    let work = LoginWork::Exchange { code: code.clone(), iss: iss.clone() };
                    self.has_flow = false;
                    work
                }
            },
            _ => LoginWork::Nothing,
        }
    }

    /// A kept session is taken up; without one the password session is looked for.
    pub open spec fn session_looked_up(a: Self, b: Self, found: bool, next: bool) -> bool {
        &&& next == !found
        &&& b == (if found {
            LoginScreen { state: LoginState::Done, ..a }
        } else {
            a
        })
    }

    /// Takes whether a session from the phone was saved; `true` means that one
    /// from an app password is to be looked for.
    pub fn oauth_resumed(&mut self, found: bool) -> (next: bool)
        ensures
            Self::session_looked_up(*old(self), *final(self), found, next),
    {
        if found {
            self.state = LoginState::Done;
        }
        !found
    }

    /// Takes whether a session from an app password was saved.
    pub fn session_resumed(&mut self, result: Result<bool, String>)
        ensures
            resume_taken(*old(self), *final(self), result),
    {
        self.state = match result {
            Ok(found) => if found {
                LoginState::Done
            } else {
                LoginState::Idle
            },
            Err(e) => LoginState::Error(join2("resume failed: ", e.as_str())),
        };
    }

    /// Takes whether the app password was right.
    pub fn logged_in(&mut self, result: Result<(), String>)
        ensures
            login_taken(*old(self), *final(self), result),
    {
        self.state = match result {
            Ok(_) => LoginState::Done,
            Err(e) => LoginState::Error(e),
        };
    }

    /// Takes what became of starting a flow.
    pub fn flow_started(&mut self, result: FlowStart)
        ensures
            flow_taken(*old(self), *final(self), result),
    {
        match result {
            FlowStart::Started { auth_url } => {
                self.has_client = true;
                self.has_flow = true;
                self.state = LoginState::OAuthAwaiting { auth_url };
            },
            FlowStart::NoClient(e) => {
                self.state = LoginState::Error(join2("OAuth client init: ", e.as_str()));
            },
            FlowStart::Failed(e) => {
                self.state = LoginState::Error(join2("OAuth start: ", e.as_str()));
            },
            FlowStart::NoCode(e) => {
                self.state = LoginState::Error(join2("QR encode: ", e.as_str()));
            },
        }
    }

    /// Takes whether what the phone reported could be exchanged.
    pub fn exchanged(&mut self, result: Result<(), String>)
        ensures
            exchange_taken(*old(self), *final(self), result),
    {
        self.has_client = false;
        self.state = match result {
            Ok(_) => LoginState::Done,
            Err(e) => LoginState::Error(join2("OAuth exchange: ", e.as_str())),
        };
    }

    /// What is said on top of the form while something is under way.
    pub fn overlay(&self) -> (r: Option<String>)
        ensures
            opt_view(r) == overlay_of(self.state),
    {
        match &self.state {
            LoginState::CheckingSession => Some(owned("Checking saved session…")),
            LoginState::Authenticating => Some(owned("Authenticating…")),
            LoginState::OAuthBeginning => Some(owned("Starting OAuth flow…")),
            LoginState::OAuthExchanging { .. } => Some(owned("Completing sign-in…")),
            LoginState::Done => Some(owned("Authenticating…")),
            _ => None,
        }
    }

    /// The line that tells why signing in failed.
    pub fn error_line(&self) -> (r: Option<String>)
        ensures
            opt_view(r) == error_of(self.state),
    {
        match &self.state {
            LoginState::Error(e) => Some(join2("Error: ", e.as_str())),
            _ => None,
        }
    }

    /// The words on the main button.
    pub fn primary_label(&self) -> (r: String)
        ensures
            r@ == primary_word(self.mode),
    {
        match self.mode {
            LoginMode::AppPassword => owned("Log in"),
            LoginMode::OAuth => owned("Sign in with Bluesky"),
        }
    }

    /// The words on the link to the other way.
    pub fn toggle_label(&self) -> (r: String)
        ensures
            r@ == toggle_word(self.mode),
    {
        match self.mode {
            LoginMode::AppPassword => owned("Sign in with Bluesky (recommended)"),
            LoginMode::OAuth => owned("Use an app password instead"),
        }
    }
}

impl Default for LoginScreen {
    fn default() -> (r: LoginScreen)
        ensures
            r.state is CheckingSession,
            r.blank(),
    {
        LoginScreen::new()
    }
}

/// Cancelling while the phone is waited for leads back to the form, with
/// nothing left of the flow, a report that came in the same frame among it, and
/// nothing to be done.
pub proof fn lemma_cancel_returns_to_form(a: LoginScreen, b: LoginScreen)
    requires
        a.pending.cancel,
        deferred_taken(a, b),
    ensures
        b.state is Idle,
        !b.has_client && !b.has_flow,
        !b.pending.cancel && b.pending.ready is None && b.pending.failed is None,
        work_given(b, b, LoginWork::Nothing),
{
}

/// What the phone reports is exchanged in the same step, once.
pub proof fn lemma_report_is_exchanged(a: LoginScreen, b: LoginScreen, c: LoginScreen, w: LoginWork)
    requires
        !a.pending.cancel,
        a.pending.ready matches Some(r),
        a.has_client,
        a.has_flow,
        deferred_taken(a, b),
        work_given(b, c, w),
    ensures
        a.pending.ready matches Some(r) && w == (LoginWork::Exchange { code: r.0, iss: r.1 }),
        c.pending.ready is None,
        !c.has_flow,
{
}

/// Going to the other way twice leads back.
pub proof fn lemma_toggle_twice(m: LoginMode)
    ensures
        other_mode(other_mode(m)) == m,
{
}

/// Signing in over the phone, step by step: the flow is started for the handle
/// of the form, its address is shown, what the phone reports is exchanged, and
/// the reader is signed in once that succeeds. Each failure is told with its
/// reason, and a report that nobody waits for changes nothing.
pub proof fn lemma_phone_sign_in(
    a: LoginScreen,
    b: LoginScreen,
    outcome: PollOutcome,
    start: FlowStart,
    result: Result<(), String>,
)
    ensures
        flow_taken(a, b, start) ==> match start {
            FlowStart::Started { auth_url } => b.state == (LoginState::OAuthAwaiting { auth_url })
                && b.has_client && b.has_flow,
            FlowStart::NoClient(e) => error_of(b.state) == Some(
                "Error: "@ + ("OAuth client init: "@ + e@),
            ),
            FlowStart::Failed(e) => error_of(b.state) == Some(
                "Error: "@ + ("OAuth start: "@ + e@),
            ),
            FlowStart::NoCode(e) => error_of(b.state) == Some("Error: "@ + ("QR encode: "@ + e@)),
        },
        polled(a, b, outcome) && !(a.state is OAuthAwaiting) ==> b == a,
        polled(a, b, outcome) && a.state is OAuthAwaiting ==> {
            &&& b.state == a.state && b.has_client == a.has_client && b.has_flow == a.has_flow
            &&& b.pending.cancel == a.pending.cancel
            &&& outcome matches PollOutcome::Ready { code, iss } ==> b.pending.ready matches Some(
                r,
            ) && r.0 == code && r.1 == iss && b.pending.failed == a.pending.failed
            &&& !(outcome is Ready) ==> b.pending.failed is Some && b.pending.ready
                == a.pending.ready
            &&& outcome matches PollOutcome::Failed(m) ==> b.pending.failed->0@ == "Broker: "@ + m@
        },
        exchange_taken(a, b, result) ==> (b.state is Done <==> result is Ok) && !b.has_client && (
        result matches Err(e) ==> error_of(b.state) == Some(
            "Error: "@ + ("OAuth exchange: "@ + e@),
        )),
{
}

/// Signing in with an app password: the reader is signed in exactly where the
/// password was right, and told why not otherwise. A saved session signs the
/// reader in, and the form is shown where there is none.
pub proof fn lemma_password_sign_in(
    a: LoginScreen,
    b: LoginScreen,
    result: Result<(), String>,
    found: Result<bool, String>,
)
    ensures
        login_taken(a, b, result) ==> (b.state is Done <==> result is Ok) && (result matches Err(e)
            ==> error_of(b.state) == Some("Error: "@ + e@)),
        resume_taken(a, b, found) ==> (b.state is Done <==> found == Ok::<bool, String>(true)) && (
        b.state is Idle <==> found == Ok::<bool, String>(false)) && (found matches Err(e)
            ==> error_of(b.state) == Some("Error: "@ + ("resume failed: "@ + e@))),
        login_taken(a, b, result) || resume_taken(a, b, found) ==> b.handle == a.handle
            && b.password == a.password && b.mode == a.mode && b.pending == a.pending,
{
}

/// What is done over the network is what the state of signing in calls for: the
/// app password is checked under the handle that was entered, with the password
/// as it was entered; the phone is asked for that handle; and where nothing is
/// under way nothing is done.
pub proof fn lemma_work_fits_state(a: LoginScreen, b: LoginScreen, work: LoginWork)
    requires
        work_given(a, b, work),
    ensures
        work is Resume <==> a.state is CheckingSession,
        work is LogIn <==> a.state is Authenticating,
        work is StartFlow <==> a.state is OAuthBeginning,
        work is Exchange <==> a.state is OAuthExchanging && a.has_client && a.has_flow,
        work matches LoginWork::LogIn { handle, password } ==> handle@ == lowercase_of(
            trimmed(a.handle.value@),
        ) && password@ == a.password.value@,
        work matches LoginWork::StartFlow { handle } ==> handle@ == lowercase_of(
            trimmed(a.handle.value@),
        ),
        work matches LoginWork::Exchange { code, iss } ==> a.state == (
        LoginState::OAuthExchanging { code, iss }) && !b.has_flow,
        a.state is OAuthExchanging && !(work is Exchange) ==> b.state is Error,
        !(a.state is OAuthExchanging) ==> b == a,
        b.handle == a.handle && b.password == a.password && b.mode == a.mode,
{
}

/// What was put off is taken up once: a report of the phone leads on to the
/// exchange of what it says, a failure to its reason; without either the screen
/// stays, and what is entered stays in any case.
pub proof fn lemma_put_off_is_taken_up(a: LoginScreen, b: LoginScreen)
    requires
        deferred_taken(a, b),
    ensures
        !a.pending.cancel && a.pending.ready is Some ==> b.state == (LoginState::OAuthExchanging {
            code: a.pending.ready.unwrap().0,
            iss: a.pending.ready.unwrap().1,
        }) && b.pending.ready is None && b.has_flow == a.has_flow,
        !a.pending.cancel && a.pending.ready is None ==> (a.pending.failed matches Some(e)
            ==> b.state == LoginState::Error(e) && b.pending.failed is None && !b.has_flow),
        !a.pending.cancel && a.pending.ready is None && a.pending.failed is None ==> b == a,
        a.pending.cancel ==> b.state is Idle,
        b.handle == a.handle && b.password == a.password && b.mode == a.mode,
{
}

/// After a frame: a cancelled or failed attempt does nothing more; else the
/// state, with what was put off taken up, says what is done.
pub proof fn lemma_after_a_frame(a: LoginScreen, b: LoginScreen, work: LoginWork)
    requires
        presented(a, b, work),
    ensures
        a.pending.cancel ==> work is Nothing && b.state is Idle,
        !a.pending.cancel && a.pending.ready is None && a.pending.failed is Some ==> work is Nothing
            && b.state is Error,
        !a.pending.cancel && a.pending.ready is None && a.pending.failed is None ==> work_given(
            a,
            b,
            work,
        ),
        a.pending.ready matches Some(r) ==> !a.pending.cancel && a.has_client && a.has_flow
            ==> work == (LoginWork::Exchange { code: r.0, iss: r.1 }) && !b.has_flow,
        b.handle == a.handle && b.password == a.password && b.mode == a.mode,
{
    if !(a.pending.cancel || (a.pending.ready is None && a.pending.failed is Some)) {
        let mid = choose|mid: LoginScreen| #[trigger]
            deferred_taken(a, mid) && work_given(mid, b, work);
        lemma_put_off_is_taken_up(a, mid);
    }
}

/// The main button: signing in begins in the way that is chosen once nothing is
/// missing, and what is missing is told otherwise. Over the phone no password is
/// needed.
pub proof fn lemma_submitting(s: LoginScreen, state: LoginState)
    requires
        submitted_is(s, state),
    ensures
        ({
            let handle = trimmed(s.handle.value@).len() > 0;
            let password = s.password.value@.len() > 0;
            &&& s.mode == LoginMode::OAuth && handle ==> state is OAuthBeginning
            &&& s.mode == LoginMode::OAuth && !handle ==> error_of(state) == Some(
                "Error: "@ + "Handle is required"@,
            )
            &&& s.mode == LoginMode::AppPassword && handle && password ==> state is Authenticating
            &&& s.mode == LoginMode::AppPassword && !(handle && password) ==> error_of(state)
                == Some("Error: "@ + "Handle and app password are required"@)
        }),
{
}

/// What is typed goes to the field that the keyboard was opened for, the handle
/// in the form it is sent in, the password as it is; the other field stays, and
/// a dismissed keyboard changes neither.
pub proof fn lemma_typed_goes_to_field(a: LoginScreen, b: LoginScreen, event: ImeEvent)
    requires
        ime_taken(a, b, event),
    ensures
        event matches ImeEvent::Finished(v) ==> {
            &&& a.focus == LoginFocus::Handle ==> b.handle.value@ == lowercase_of(trimmed(v@))
                && b.password.value == a.password.value
            &&& a.focus == LoginFocus::Password ==> b.password.value@ == v@ && b.handle.value
                == a.handle.value
            &&& a.focus == LoginFocus::Nowhere ==> b.handle.value == a.handle.value
                && b.password.value == a.password.value
        },
        !(event is Finished) ==> b.handle.value == a.handle.value && b.password.value
            == a.password.value,
        !(event is Idle) ==> b.focus == LoginFocus::Nowhere && !b.handle.focused
            && !b.password.focused,
        event is Idle ==> b == a,
        b.state == a.state && b.mode == a.mode && b.pending == a.pending,
{
}

/// The form: a tap on a field opens the keyboard for that field, the link goes to
/// the other way to sign in, and the password is asked for, as bullets, only with
/// an app password. Nothing of it answers while something is under way.
pub proof fn lemma_form_does_what_it_shows(
    a: LoginScreen,
    b: LoginScreen,
    touches: Seq<TouchPoint>,
    ime_active: bool,
    r: LoginForm,
)
    requires
        LoginScreen::form_followed(a, b, touches, ime_active, r),
    ensures
        ({
            let live = (a.state is Idle || a.state is Error) && !ime_active && touches.len() == 0;
            &&& r.edit_handle is Some <==> live && a.handle.pressed_last
            &&& r.edit_handle matches Some(t) ==> t == a.handle.value
            &&& r.edit_password <==> live && a.password.pressed_last && a.mode
                == LoginMode::AppPassword
            &&& r.edit_handle is Some && !r.edit_password ==> b.focus == LoginFocus::Handle
            &&& r.edit_password ==> b.focus == LoginFocus::Password
            &&& r.edit_handle is None && !r.edit_password ==> b.focus == a.focus
            &&& b.mode != a.mode <==> live && a.toggle_link_btn.pressed_last
            &&& !live ==> b.state == a.state
            &&& live && a.primary_btn.pressed_last && !a.toggle_link_btn.pressed_last
                && !a.handle.pressed_last && !(a.password.pressed_last && a.mode
                == LoginMode::AppPassword) ==> submitted_is(a, b.state)
            &&& live && !a.primary_btn.pressed_last && a.state is Idle ==> b.state is Idle
            &&& live && !a.primary_btn.pressed_last && (a.handle.pressed_last
                || a.toggle_link_btn.pressed_last) ==> b.state is Idle
        }),
        b.handle.value == a.handle.value && b.password.value == a.password.value,
        r.password is Some <==> a.mode == LoginMode::AppPassword,
        a.handle.value@.len() > 0 ==> r.handle.text@ == a.handle.value@,
        r.password matches Some(f) ==> a.password.value@.len() > 0 ==> forall|i: int|
            0 <= i < f.text@.len() ==> #[trigger] f.text@[i] == '•',
{
    let h = LoginScreen::taps_handle(a, touches, ime_active);
    let p = LoginScreen::taps_password(a, touches, ime_active);
    let m = LoginScreen::fields_followed(LoginScreen::form_tracked(a, touches), h, p);
    if LoginScreen::taps_primary(a, touches, ime_active) {
        let mid = choose|mid: LoginState| #[trigger]
            submitted_is(m, mid) && b.state == (if LoginScreen::taps_toggle(
                a,
                touches,
                ime_active,
            ) {
                error_cleared(mid)
            } else {
                mid
            });
        assert(submitted_is(m, mid) == submitted_is(a, mid));
    }
}

/// A frame completes signing in exactly once the reader is signed in; while the
/// phone is waited for the circle and the button stop it, and nothing else.
pub proof fn lemma_login_frame(
    a: LoginScreen,
    b: LoginScreen,
    pad: PadFrame,
    touches: Seq<TouchPoint>,
    ime_active: bool,
    out: LoginFrame,
)
    requires
        framed(a, b, pad, touches, ime_active, out),
    ensures
        out.action is AuthComplete <==> a.state is Done,
        out.action is AuthComplete || out.action is Stay,
        a.state is Done ==> b.state is Left,
        out.stop <==> a.state is OAuthAwaiting && (pad.circle || (a.cancel_btn.pressed_last
            && touches.len() == 0)),
        out.stop ==> b.pending.cancel,
        a.state is OAuthAwaiting ==> b.state == a.state && b.pending.ready == a.pending.ready,
        a.state is OAuthExchanging ==> b == a,
        out.form is Some <==> !(a.state is Done) && !(a.state is OAuthAwaiting) && !(
        a.state is OAuthExchanging),
{
}

/// What the buttons say tells the two ways apart, and an overlay stands exactly
/// while something is under way.
pub proof fn lemma_login_words(m: LoginMode, s: LoginState)
    ensures
        primary_word(LoginMode::AppPassword) == "Log in"@,
        primary_word(LoginMode::OAuth) == "Sign in with Bluesky"@,
        toggle_word(LoginMode::AppPassword) == "Sign in with Bluesky (recommended)"@,
        toggle_word(LoginMode::OAuth) == "Use an app password instead"@,
        other_mode(m) != m,
        overlay_of(s) is None <==> s is Idle || s is Error || s is OAuthAwaiting || s is Left,
        s is Authenticating ==> overlay_of(s) == Some("Authenticating…"@),
        s is CheckingSession ==> overlay_of(s) == Some("Checking saved session…"@),
        s is OAuthBeginning ==> overlay_of(s) == Some("Starting OAuth flow…"@),
        s is OAuthExchanging ==> overlay_of(s) == Some("Completing sign-in…"@),
        error_of(s) is Some <==> s is Error,
{
}

} // verus!
