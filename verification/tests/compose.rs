use bsky_vita::camera::{CameraCapture, CameraDevice, CameraMode, CameraResult};
use bsky_vita::compose::ComposeScreen;
use bsky_vita::compose_draft::{
    fit_decoded, fit_encoded, fit_for_upload, fit_start, mime_from_path, Attachment, Draft, FitStep,
    PreparedImage, MAX_SEGMENTS,
};
use bsky_vita::conversation::ImeEvent;
use bsky_vita::dir_listing::{child_dir, is_image, list_entries, parent_dir, DirEntry};
use bsky_vita::file_picker::{
    cell_rect, chip_label, chip_labels_fit, CellAction, FilePicker, GridBody, LabelFit, PickResult,
    ThumbState,
};
use bsky_vita::requests::{ReplyTarget, WorkRequest, WorkResponse};
use bsky_vita::widget::{PadFrame, TouchPoint};

fn touch(x: i32, y: i32) -> Vec<TouchPoint> {
    vec![TouchPoint { x, y }]
}

fn entry(name: &str, is_dir: bool) -> DirEntry {
    DirEntry { name: name.to_string(), is_dir }
}

fn photo(bytes: Option<Vec<u8>>) -> Attachment {
    Attachment {
        key: "k".to_string(),
        bytes,
        mime: "image/jpeg".to_string(),
        alt: String::new(),
        previewed: false,
    }
}

fn target() -> ReplyTarget {
    ReplyTarget {
        parent_uri: "at://p".to_string(),
        parent_cid: "pc".to_string(),
        root_uri: "at://r".to_string(),
        root_cid: "rc".to_string(),
    }
}

fn press(f: impl Fn(&mut PadFrame)) -> PadFrame {
    let mut pad = PadFrame::default();
    f(&mut pad);
    pad
}

fn write_text(s: &mut ComposeScreen, text: &str) {
    let r = s.text_area_rect();
    s.text_area(&touch(r.x + 5, r.y + 5), true);
    assert!(s.text_area(&vec![], true).is_some());
    assert!(s.take_ime(ImeEvent::Finished(text.to_string())));
}

fn submit(s: &mut ComposeScreen) -> Option<WorkRequest> {
    for x in [840, 860, 880, 900, 920] {
        s.header(&touch(x, 20), true, true);
        if let Some(r) = s.header(&vec![], true, true).request {
            return Some(r);
        }
    }
    None
}

#[test]
fn entries_are_listed_directories_first() {
    let es = vec![
        entry("b.JPG", false),
        entry("notes.txt", false),
        entry("Zoo", true),
        entry("a.png", false),
        entry("apples", true),
    ];
    let names: Vec<String> = list_entries(&es).iter().map(|e| e.name.clone()).collect();
    assert_eq!(names, vec!["apples", "Zoo", "a.png", "b.JPG"]);
}

#[test]
fn pictures_by_their_ending() {
    assert!(is_image("x.JPEG"));
    assert!(!is_image("x.gif"));
    assert!(!is_image("jpg"));
}

#[test]
fn going_up_undoes_entering() {
    assert_eq!(parent_dir("ux0:picture/ALL"), Some("ux0:picture".to_string()));
    assert_eq!(parent_dir("ux0:picture/"), Some("ux0:".to_string()));
    assert_eq!(parent_dir("ux0:picture"), Some("ux0:".to_string()));
    assert_eq!(parent_dir("ux0:"), None);
    assert_eq!(child_dir("ux0:", "picture"), "ux0:picture");
    assert_eq!(child_dir("ux0:picture", "a"), "ux0:picture/a");
    assert_eq!(child_dir("ux0:picture/", "a"), "ux0:picture/a");
    assert_eq!(parent_dir(&child_dir("ux0:picture", "a")), Some("ux0:picture".to_string()));
}

#[test]
fn the_picker_reads_and_picks() {
    let mut p = FilePicker::new();
    assert_eq!(p.path, "ux0:picture/");
    p.load(Ok(vec![entry("a.jpg", false), entry("trip", true)]));
    assert!(matches!(p.body(), GridBody::Cells));
    let asked = p.request_thumbs();
    assert_eq!(asked.len(), 1);
    assert!(matches!(
        &asked[0],
        WorkRequest::ReadImageFile { path } if path == "ux0:picture/a.jpg"
    ));
    assert!(p.request_thumbs().is_empty());
    assert!(p.wants_image("ux0:picture/a.jpg"));
    p.on_image("ux0:picture/a.jpg", true);
    assert!(matches!(p.thumb_state(1), Some(ThumbState::Ready)));
    match p.activate(0) {
        Some(CellAction::Enter(to)) => {
            assert_eq!(to, "ux0:picture/trip");
            assert!(p.apply(CellAction::Enter(to)).is_none());
        }
        _ => panic!("a directory was expected"),
    }
    assert!(!p.loaded);
    p.load(Ok(vec![entry("b.png", false)]));
    let act = p.activate(0).unwrap();
    assert!(matches!(
        p.apply(act),
        Some(PickResult::Picked(f)) if f == "ux0:picture/trip/b.png"
    ));
}

#[test]
fn the_circle_goes_up_and_then_leaves() {
    let mut p = FilePicker::new();
    let circle = press(|p| p.circle = true);
    assert!(p.go_up(&circle).is_none());
    assert_eq!(p.path, "ux0:");
    assert!(matches!(p.go_up(&circle), Some(PickResult::Cancelled)));
}

#[test]
fn a_directory_that_cannot_be_read() {
    let mut p = FilePicker::new();
    p.load(Err("no such folder".to_string()));
    assert!(matches!(p.body(), GridBody::Problem(_)));
    let mut q = FilePicker::default();
    q.load(Ok(vec![]));
    assert!(matches!(q.body(), GridBody::Empty));
}

#[test]
fn the_cursor_moves_in_the_grid() {
    let mut p = FilePicker::new();
    let es: Vec<DirEntry> = (0..30).map(|i| entry(&format!("p{i:02}.jpg"), false)).collect();
    p.load(Ok(es));
    let down = press(|p| p.down = true);
    for _ in 0..3 {
        p.move_cursor(&down);
    }
    assert_eq!(p.cursor, 12);
    assert_eq!(p.scroll_row, 1);
    p.move_cursor(&press(|p| p.left = true));
    assert_eq!(p.cursor, 12);
    p.move_cursor(&press(|p| p.right = true));
    assert_eq!(p.cursor, 13);
    let r = cell_rect(13, 1);
    assert_eq!((r.x, r.y), (14 + 235, 78 + 2 * 138));
}

#[test]
fn shoulders_go_round_the_shortcuts() {
    let mut p = FilePicker::new();
    assert!(p.chip_active(0));
    assert!(p.shoulder(&press(|p| p.r1 = true)));
    assert_eq!(p.path, "ux0:download/");
    assert!(p.shoulder(&press(|p| p.l1 = true)));
    assert_eq!(p.path, "ux0:picture/");
    assert!(p.shoulder(&press(|p| p.l1 = true)));
    assert_eq!(p.path, "ux0:");
    assert_eq!(chip_label(1), "Downloads");
}

#[test]
fn labels_are_cut() {
    let mut l = LabelFit::start("holiday.jpg");
    let mut shown = None;
    while shown.is_none() {
        let fits = l.offer().chars().count() <= 6;
        shown = l.answer(fits);
    }
    let shown = shown.unwrap();
    assert!(shown.chars().count() <= 6);
    assert!(shown.starts_with("holi"));
}

#[test]
fn the_camera_shoots_and_hands_over() {
    let mut c = CameraCapture::new(Ok(()));
    assert!(matches!(c.device, CameraDevice::Back));
    c.render(&press(|p| p.square = true), Some(vec![1, 2]));
    assert!(matches!(c.mode, CameraMode::Captured));
    let step = c.render(&press(|p| p.cross = true), None);
    assert_eq!(step.encode, Some(vec![1, 2]));
    assert!(matches!(
        c.encoded(Ok(vec![9]), &PadFrame::default()),
        Some(CameraResult::Confirmed(b)) if b == vec![9]
    ));
}

#[test]
fn a_shot_is_dropped_and_the_other_camera_opened() {
    let mut c = CameraCapture::new(Ok(()));
    c.render(&press(|p| p.square = true), Some(vec![1]));
    c.render(&press(|p| p.circle = true), None);
    assert!(matches!(c.mode, CameraMode::Live));
    let step = c.render(&press(|p| p.triangle = true), None);
    assert!(matches!(step.switch_to, Some(CameraDevice::Front)));
    c.reopened(Err("busy".to_string()));
    assert_eq!(c.problem(), Some("Camera unavailable: busy".to_string()));
    let step = c.render(&press(|p| p.circle = true), None);
    assert!(matches!(step.result, Some(CameraResult::Cancelled)));
}

#[test]
fn a_shot_that_cannot_be_encoded() {
    let mut c = CameraCapture::new(Ok(()));
    assert!(c.encoded(Err("full".to_string()), &PadFrame::default()).is_none());
    assert_eq!(c.problem(), Some("Camera unavailable: encode: full".to_string()));
}

#[test]
fn large_pictures_are_made_smaller() {
    assert!(matches!(fit_start(1_000_000), FitStep::Raw));
    assert!(matches!(fit_start(1_000_001), FitStep::Decode));
    assert!(matches!(fit_decoded(false), FitStep::Raw));
    assert!(matches!(fit_decoded(true), FitStep::Encode { quality: 85 }));
    assert!(matches!(fit_encoded(85, Some(2_000_000)), FitStep::Encode { quality: 70 }));
    assert!(matches!(fit_encoded(70, None), FitStep::Encode { quality: 55 }));
    assert!(matches!(fit_encoded(55, Some(2_000_000)), FitStep::Encoded));
    assert!(matches!(fit_encoded(55, None), FitStep::Raw));
    assert!(matches!(fit_encoded(85, Some(10)), FitStep::Encoded));
    assert_eq!(fit_for_upload(vec![1], "a.PNG", None), (vec![1], "image/png".to_string()));
    assert_eq!(
        fit_for_upload(vec![1], "a.png", Some(vec![2])),
        (vec![2], "image/jpeg".to_string())
    );
    assert_eq!(mime_from_path("x.jpg"), "image/jpeg");
}

#[test]
fn a_draft_becomes_ready() {
    let mut d = Draft::new();
    assert!(!d.all_valid());
    d.set_text("hello".to_string());
    assert_eq!(d.char_count(), 5);
    assert!(d.all_valid());
    assert!(d.attach(photo(None)));
    assert!(!d.all_valid());
    d.take_image("k", PreparedImage { bytes: vec![7], mime: "image/png".to_string(), previewed: true });
    assert!(d.all_valid());
    let sent = d.thread_segments();
    assert_eq!(sent.len(), 1);
    assert_eq!(sent[0].images[0].bytes, vec![7]);
    assert_eq!(sent[0].images[0].mime, "image/png");
    d.set_text("x".repeat(301));
    assert!(!d.all_valid());
}

#[test]
fn a_draft_grows_and_shrinks() {
    let mut d = Draft::new();
    d.set_text("one".to_string());
    d.add_segment();
    assert_eq!(d.current, 1);
    d.set_text("two".to_string());
    d.switch_segment(0);
    d.remove_current_segment();
    assert_eq!(d.segments.len(), 1);
    assert_eq!(d.segments[0].text, "two");
    while d.segments.len() < MAX_SEGMENTS {
        d.add_segment();
    }
    assert_eq!(d.current, 24);
}

#[test]
fn four_pictures_and_no_more() {
    let mut d = Draft::new();
    for _ in 0..4 {
        assert!(d.attach(photo(Some(vec![1]))));
    }
    assert!(!d.attach(photo(Some(vec![1]))));
    d.set_alt(3, "a cat".to_string());
    d.detach(0);
    assert_eq!(d.segments[0].attachments.len(), 3);
    assert_eq!(d.segments[0].attachments[2].alt, "a cat");
    assert!(d.find_reading("k").is_none());
}

#[test]
fn a_post_is_written_and_sent() {
    let mut s = ComposeScreen::new(Some(target()), Some("bob".to_string()));
    assert!(!s.can_post());
    assert!(submit(&mut s).is_none());
    write_text(&mut s, "hello");
    assert_eq!(s.body_text(), "hello");
    assert!(s.can_post());
    match submit(&mut s) {
        Some(WorkRequest::CreateThread { segments, reply_to }) => {
            assert_eq!(segments.len(), 1);
            assert_eq!(segments[0].text, "hello");
            assert_eq!(reply_to.unwrap().root_cid, "rc");
        }
        _ => panic!("a thread was expected"),
    }
    assert!(!s.can_post());
    assert!(submit(&mut s).is_none());
    s.handle_worker_response(WorkResponse::PostCreated(Ok("at://new".to_string())), None, false);
    assert!(s.begin_frame());
}

#[test]
fn a_refused_post_stays() {
    let mut s = ComposeScreen::new(None, None);
    write_text(&mut s, "hello");
    assert!(submit(&mut s).is_some());
    s.handle_worker_response(WorkResponse::PostCreated(Err("offline".to_string())), None, false);
    assert!(!s.begin_frame());
    assert_eq!(s.body_text(), "hello");
    assert!(s.error_line().unwrap().contains("offline"));
    assert!(s.can_post());
}

#[test]
fn a_photograph_is_attached() {
    let mut s = ComposeScreen::new(None, None);
    s.camera_opened(Ok(()));
    s.photographed(CameraResult::Confirmed(vec![5]), true);
    s.begin_frame();
    assert!(s.can_post());
    match submit(&mut s) {
        Some(WorkRequest::CreateThread { segments, reply_to }) => {
            assert!(reply_to.is_none());
            assert_eq!(segments[0].images[0].bytes, vec![5]);
        }
        _ => panic!("a thread was expected"),
    }
}

#[test]
fn a_picked_file_is_read_and_attached() {
    let mut s = ComposeScreen::new(None, None);
    let r = s.picked(PickResult::Picked("ux0:picture/a.png".to_string()), true);
    assert!(matches!(
        r,
        Some(WorkRequest::ReadImageFile { path }) if path == "ux0:picture/a.png"
    ));
    assert!(!s.can_post());
    s.handle_worker_response(
        WorkResponse::Image { url: "ux0:picture/a.png".to_string(), bytes: Ok(vec![3]) },
        Some(PreparedImage { bytes: vec![3], mime: "image/png".to_string(), previewed: true }),
        false,
    );
    assert!(s.can_post());
}

#[test]
fn a_thread_is_written_post_by_post() {
    let mut s = ComposeScreen::new(None, None);
    write_text(&mut s, "one");
    let y = s.thread_bar_y();
    s.thread_bar(&PadFrame::default(), &touch(20, y + 5), true);
    s.thread_bar(&PadFrame::default(), &vec![], true);
    assert_eq!(s.draft.segments.len(), 2);
    write_text(&mut s, "two");
    s.thread_bar(&press(|p| p.left = true), &vec![], true);
    assert_eq!(s.body_text(), "one");
    match submit(&mut s) {
        Some(WorkRequest::CreateThread { segments, .. }) => {
            assert_eq!(segments.len(), 2);
            assert_eq!(segments[1].text, "two");
        }
        _ => panic!("a thread was expected"),
    }
}

#[test]
fn labels_of_shortcuts_as_far_as_they_go() {
    assert!(chip_labels_fit(&vec![200_000; 3]));
    assert!(chip_labels_fit(&vec![i32::MAX - 14 - 34]));
    assert!(!chip_labels_fit(&vec![i32::MAX - 14 - 33]));
    let mut p = FilePicker::default();
    assert!(!p.frame_start(&vec![200_000; 3], &vec![], &PadFrame::default()));
    assert_eq!((p.cursor, p.scroll_row, p.loaded), (0, 0, false));
}
