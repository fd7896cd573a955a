use bsky_vita::conversation::ImeEvent;
use bsky_vita::embeds::ViewerImage;
use bsky_vita::image_viewer::ImageViewerScreen;
use bsky_vita::login::{
    FlowStart, LoginFocus, LoginMode, LoginScreen, LoginState, LoginWork, PollOutcome,
};
use bsky_vita::requests::{WorkRequest, WorkResponse};
use bsky_vita::screen::ScreenAction;
use bsky_vita::video::{
    block_layout, frame_len, sample_count, texture_block, AudioChunk, AudioOut, AudioPlan,
    PlayerState, RawFrame, VideoError, VideoPlayer, YuvFrame,
};
use bsky_vita::video_player::{
    format_us, seek_back, seek_forward, toggle_play, transport_label, PlayAction,
    VideoPlayerScreen, VideoState,
};
use bsky_vita::widget::{PadFrame, TouchPoint};

fn touch(x: i32, y: i32) -> Vec<TouchPoint> {
    vec![TouchPoint { x, y }]
}

fn tap_form(s: &mut LoginScreen, x: i32, y: i32) {
    s.form_frame(&touch(x, y), false);
    s.form_frame(&vec![], false);
}

fn with_handle(mode_password: bool) -> LoginScreen {
    let mut s = LoginScreen::idle();
    if mode_password {
        tap_form(&mut s, 300, 450);
    }
    tap_form(&mut s, 300, 210);
    assert!(matches!(s.focus, LoginFocus::Handle));
    assert!(s.take_ime(ImeEvent::Finished("  Alice.Test\u{a0}".to_string())));
    s
}

#[test]
fn a_saved_session_is_looked_for_first() {
    let mut s = LoginScreen::new();
    assert!(matches!(s.after_present(), LoginWork::Resume));
    assert!(s.oauth_resumed(false));
    s.session_resumed(Ok(true));
    assert!(matches!(s.finish(), ScreenAction::AuthComplete));
    let mut t = LoginScreen::default();
    t.session_resumed(Ok(false));
    assert!(matches!(t.state, LoginState::Idle));
}

#[test]
fn handles_are_put_into_form() {
    let s = with_handle(false);
    assert_eq!(s.handle.value, "alice.test");
    assert!(matches!(s.focus, LoginFocus::Nowhere));
}

#[test]
fn something_is_missing() {
    let mut s = LoginScreen::idle();
    s.handle_primary();
    assert!(matches!(&s.state, LoginState::Error(e) if e == "Handle is required"));
    assert!(s.error_line().is_some());
    let mut t = with_handle(true);
    assert!(matches!(t.mode, LoginMode::AppPassword));
    t.handle_primary();
    assert!(matches!(&t.state, LoginState::Error(e) if e == "Handle and app password are required"));
}

#[test]
fn an_app_password_logs_in() {
    let mut s = with_handle(true);
    tap_form(&mut s, 300, 290);
    s.take_ime(ImeEvent::Finished("abcd-efgh".to_string()));
    tap_form(&mut s, 300, 380);
    match s.after_present() {
        LoginWork::LogIn { handle, password } => {
            assert_eq!(handle, "alice.test");
            assert_eq!(password, "abcd-efgh");
        }
        _ => panic!("a login was expected"),
    }
    s.logged_in(Err("wrong".to_string()));
    assert!(matches!(&s.state, LoginState::Error(_)));
    s.logged_in(Ok(()));
    assert!(matches!(s.finish(), ScreenAction::AuthComplete));
}

#[test]
fn a_flow_on_the_phone() {
    let mut s = with_handle(false);
    tap_form(&mut s, 300, 380);
    assert!(matches!(s.after_present(), LoginWork::StartFlow { handle } if handle == "alice.test"));
    s.flow_started(FlowStart::Started { auth_url: "https://x".to_string() });
    assert!(matches!(s.state, LoginState::OAuthAwaiting { .. }));
    s.take_poll(PollOutcome::Ready { code: "c".to_string(), iss: "i".to_string() });
    match s.after_present() {
        LoginWork::Exchange { code, iss } => assert_eq!((code.as_str(), iss.as_str()), ("c", "i")),
        _ => panic!("an exchange was expected"),
    }
    s.exchanged(Ok(()));
    assert!(matches!(s.finish(), ScreenAction::AuthComplete));
}

#[test]
fn a_flow_that_ends_badly() {
    for (outcome, words) in [
        (PollOutcome::Timeout, "Sign-in timed out — please try again."),
        (PollOutcome::Failed("no".to_string()), "Broker: no"),
    ] {
        let mut s = with_handle(false);
        tap_form(&mut s, 300, 380);
        s.after_present();
        s.flow_started(FlowStart::Started { auth_url: "https://x".to_string() });
        s.take_poll(outcome);
        s.after_present();
        assert!(matches!(&s.state, LoginState::Error(e) if e == words));
    }
    let mut t = with_handle(false);
    t.flow_started(FlowStart::NoClient("none".to_string()));
    assert!(matches!(&t.state, LoginState::Error(_)));
}

#[test]
fn cancelling_returns_to_the_form() {
    let mut s = with_handle(false);
    tap_form(&mut s, 300, 380);
    s.after_present();
    s.flow_started(FlowStart::Started { auth_url: "https://x".to_string() });
    let pad = PadFrame::default();
    s.awaiting_frame(&pad, &touch(400, 500));
    s.awaiting_frame(&pad, &vec![]);
    s.after_present();
    assert!(matches!(s.state, LoginState::Idle));
}

#[test]
fn an_exchange_without_a_client() {
    let mut s = LoginScreen::idle();
    s.state = LoginState::OAuthExchanging { code: "c".to_string(), iss: "i".to_string() };
    assert!(matches!(s.after_present(), LoginWork::Nothing));
    assert!(matches!(&s.state, LoginState::Error(e) if e == "internal: missing OAuth client"));
}

#[test]
fn toggling_the_mode_twice() {
    let mut s = LoginScreen::idle();
    let before = s.toggle_label();
    tap_form(&mut s, 300, 450);
    assert!(matches!(s.mode, LoginMode::AppPassword));
    assert_ne!(s.toggle_label(), before);
    tap_form(&mut s, 300, 450);
    assert!(matches!(s.mode, LoginMode::OAuth));
    assert_eq!(s.toggle_label(), before);
}

#[test]
fn errors_of_the_video_player_in_words() {
    let told = |e: VideoError| e.message();
    assert_eq!(told(VideoError::InitFailed(-1)), "sceAvPlayerInit failed: 0xffffffff");
    assert_eq!(told(VideoError::AddSourceFailed(16)), "sceAvPlayerAddSource failed: 0x10");
    assert_eq!(told(VideoError::InvalidPath), "video path contains a NUL byte");
    assert_eq!(told(VideoError::AudioOpenFailed(0)), "sceAudioOutOpenPort failed: 0x0");
    assert_eq!(told(VideoError::NotOnVita), "video playback is only available on Vita");
}

#[test]
fn a_frame_is_two_planes() {
    assert_eq!(frame_len(4, 2), Some(12));
    let data: Vec<u8> = (0..12).collect();
    let f = YuvFrame::of_buffer(4, 2, 7, &data);
    assert_eq!(f.y, &data[0..8]);
    assert_eq!(f.uv, &data[8..12]);
    assert_eq!((f.y_pitch, f.uv_pitch), (4, 4));
    assert_eq!(sample_count(7), 3);
}

#[test]
fn a_player_opens_plays_and_ends() {
    assert!(VideoPlayer::check_path("ux0:a.mp4").is_ok());
    assert!(VideoPlayer::check_path("a\0b").is_err());
    assert!(matches!(VideoPlayer::open(0, 0), Err(VideoError::InitFailed(0))));
    assert!(matches!(VideoPlayer::open(1, -4), Err(VideoError::AddSourceFailed(-4))));
    let mut p = match VideoPlayer::open(1, 0) {
        Ok(p) => p,
        Err(_) => panic!("a player was expected"),
    };
    // Before the first frame a player that is not active warms up.
    assert!(p.next_video_frame(None, false).is_none());
    assert!(matches!(p.state(), PlayerState::Playing));
    let data: Vec<u8> = (0..12).collect();
    let raw = RawFrame { width: 4, height: 2, timestamp_us: 7, data: &data };
    let frame = p.next_video_frame(Some(raw), false).unwrap();
    assert_eq!((frame.timestamp_us, frame.uv), (7, &data[8..12]));
    assert_eq!(p.video_dimensions(), (4, 2));
    p.pause();
    assert!(matches!(p.state(), PlayerState::Paused));
    p.resume();
    assert!(p.next_video_frame(None, true).is_none());
    assert!(matches!(p.state(), PlayerState::Playing));
    p.tick_eof(false);
    assert!(matches!(p.state(), PlayerState::Eof));
}

#[test]
fn sound_goes_through_a_port_that_fits() {
    let mut out = AudioOut::new();
    let samples = [0i16; 2048];
    let chunk = AudioChunk { samples: &samples, sample_rate: 48000, channel_count: 2 };
    assert!(matches!(
        out.plan(&chunk),
        AudioPlan::Reopen { release: None, granularity: 1024, sample_rate: 48000, stereo: true }
    ));
    assert!(matches!(out.opened(-5, &chunk), Err(VideoError::AudioOpenFailed(-5))));
    assert!(out.opened(3, &chunk).is_ok());
    assert!(matches!(out.plan(&chunk), AudioPlan::Output { port: 3 }));
    let other = AudioChunk { samples: &samples, sample_rate: 44100, channel_count: 2 };
    assert!(matches!(out.plan(&other), AudioPlan::Reopen { release: Some(3), .. }));
    let empty = AudioChunk { samples: &[], sample_rate: 44100, channel_count: 2 };
    assert!(matches!(out.plan(&empty), AudioPlan::Nothing));
}

#[test]
fn memory_for_the_decoder() {
    assert_eq!(block_layout(4, 100), (116, 16));
    assert_eq!(block_layout(64, 100), (116, 64));
    assert_eq!(texture_block(1), 1_048_576);
    assert_eq!(texture_block(1_048_576), 1_048_576);
    assert_eq!(texture_block(1_048_577), 2_097_152);
}

#[test]
fn times_of_a_video() {
    assert_eq!(format_us(0), "0:00");
    assert_eq!(format_us(65_999_999), "1:05");
    assert_eq!(format_us(3_600_000_000), "60:00");
    assert!(transport_label(65_000_000, PlayerState::Paused).contains("1:05"));
    assert_eq!(seek_back(4), 0);
    assert_eq!(seek_back(12_000_000), 2_000_000);
    assert_eq!(seek_forward(4), 10_000_004);
    assert!(matches!(toggle_play(PlayerState::Playing), PlayAction::Pause));
    assert!(matches!(toggle_play(PlayerState::Paused), PlayAction::Resume));
    assert!(matches!(toggle_play(PlayerState::Eof), PlayAction::Restart));
}

#[test]
fn a_video_is_fetched_opened_and_watched() {
    let mut s = VideoPlayerScreen::new("did:plc:a".to_string(), "bafy".to_string());
    assert!(matches!(
        s.begin(true),
        Some(WorkRequest::FetchVideoBlob { did, cid }) if did == "did:plc:a" && cid == "bafy"
    ));
    assert!(s.begin(true).is_none());
    s.handle_worker_response(WorkResponse::VideoBlob {
        cid: "other".to_string(),
        result: Ok("x".to_string()),
    });
    assert!(s.to_open().is_none());
    s.handle_worker_response(WorkResponse::VideoBlob {
        cid: "bafy".to_string(),
        result: Ok("ux0:v.mp4".to_string()),
    });
    assert_eq!(s.to_open(), Some("ux0:v.mp4".to_string()));
    s.opened(Ok(()), true, false);
    assert!(s.size_changed(10, 10));
    s.texture_made(10, 10);
    assert!(!s.size_changed(10, 10));
    let mut pad = PadFrame::default();
    pad.square = true;
    assert!(s.transport(&pad).toggle);
}

#[test]
fn a_tap_hides_the_bar_and_another_brings_it_back() {
    let mut s = VideoPlayerScreen::new("d".to_string(), "c".to_string());
    let pad = PadFrame::default();
    assert!(s.show_overlay());
    s.input(&pad, false, true);
    s.input(&pad, false, false);
    assert!(!s.show_overlay());
    s.input(&pad, false, true);
    s.input(&pad, false, false);
    assert!(s.show_overlay());
}

#[test]
fn the_notice_without_colour() {
    let mut s = VideoPlayerScreen::new("d".to_string(), "c".to_string());
    s.opened(Ok(()), false, false);
    assert!(s.notice.shown);
    let mut pad = PadFrame::default();
    pad.circle = true;
    let r = s.input(&pad, true, false);
    assert!(!r.pop);
    assert!(!s.notice.shown);
    assert!(s.input(&pad, true, false).pop);
    let mut t = VideoPlayerScreen::new("d".to_string(), "c".to_string());
    t.opened(Ok(()), false, true);
    assert!(!t.notice.shown);
    t.opened(Err("broken".to_string()), false, true);
    assert!(matches!(&t.state, VideoState::Error(e) if e == "broken"));
}

#[test]
fn pictures_are_paged_through() {
    let image = |n: i32| ViewerImage {
        thumb: format!("t{n}"),
        fullsize: format!("f{n}"),
        alt: String::new(),
    };
    let mut v = ImageViewerScreen::new(vec![image(0), image(1)], 7);
    assert_eq!(v.index, 1);
    let pad = PadFrame::default();
    let f = v.frame(&pad, &vec![], false, true);
    assert!(matches!(f.request, Some(WorkRequest::FetchImage { url }) if url == "f1"));
    assert!(v.frame(&pad, &vec![], false, true).request.is_none());
    let mut left = PadFrame::default();
    left.left = true;
    v.frame(&left, &vec![], true, true);
    v.frame(&left, &vec![], true, true);
    assert_eq!(v.index, 0);
    v.frame(&pad, &touch(400, 300), true, true);
    assert!(matches!(v.frame(&pad, &vec![], true, true).action, ScreenAction::Pop));
}

#[test]
fn cancelling_drops_a_report_of_the_same_frame() {
    let mut s = with_handle(false);
    tap_form(&mut s, 300, 380);
    s.after_present();
    s.flow_started(FlowStart::Started { auth_url: "https://x".to_string() });
    let pad = PadFrame::default();
    s.awaiting_frame(&pad, &touch(400, 500));
    s.awaiting_frame(&pad, &vec![]);
    s.take_poll(PollOutcome::Ready { code: "c".to_string(), iss: "i".to_string() });
    assert!(matches!(s.after_present(), LoginWork::Nothing));
    assert!(matches!(s.state, LoginState::Idle));
    assert!(matches!(s.after_present(), LoginWork::Nothing));
    assert!(matches!(s.state, LoginState::Idle));
}

#[test]
fn the_touch_that_opened_a_picture_does_not_close_it() {
    let image = ViewerImage {
        thumb: "t".to_string(),
        fullsize: "f".to_string(),
        alt: String::new(),
    };
    let mut v = ImageViewerScreen::new(vec![image], 0);
    let pad = PadFrame::default();
    let stays = |v: &mut ImageViewerScreen, touches: &Vec<TouchPoint>| {
        matches!(v.frame(&pad, touches, true, true).action, ScreenAction::Stay)
    };
    assert!(stays(&mut v, &touch(400, 300)));
    assert!(stays(&mut v, &touch(400, 300)));
    assert!(stays(&mut v, &vec![]));
    assert!(stays(&mut v, &touch(400, 300)));
    assert!(!stays(&mut v, &vec![]));
}

#[test]
fn white_space_round_a_handle_is_dropped() {
    for space in [
        '\t', '\n', '\u{b}', '\u{c}', '\r', ' ', '\u{85}', '\u{a0}', '\u{1680}', '\u{2000}',
        '\u{200a}', '\u{2028}', '\u{2029}', '\u{202f}', '\u{205f}', '\u{3000}',
    ] {
        let mut s = LoginScreen::idle();
        s.handle.value = format!("{space}Alice.test{space}{space}");
        s.state = LoginState::OAuthBeginning;
        assert!(matches!(
            s.after_present(),
            LoginWork::StartFlow { handle } if handle == "alice.test"
        ));
    }
    let mut s = LoginScreen::idle();
    s.handle.value = "\u{200b}a\u{feff}".to_string();
    s.state = LoginState::OAuthBeginning;
    assert!(matches!(
        s.after_present(),
        LoginWork::StartFlow { handle } if handle == "\u{200b}a\u{feff}"
    ));
}
