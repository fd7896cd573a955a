use bsky_vita::hints::{hints_fit, HintOverlay, HintWidths, HIDE_FRAMES};
use bsky_vita::rows::{
    content_height, first_row_in_band, first_visible_idx, max_scroll, reveal_row, row_visible,
    step_selection, top_of, visible_rows,
};
use bsky_vita::tabbar::{TabBar, TopLevel};
use bsky_vita::widget::{
    button, stick_scroll, text_field, touches_in_band, ButtonState, FieldState, PadFrame, Rect,
    TouchPoint, Truncation,
};

fn at(x: i32, y: i32) -> Vec<TouchPoint> {
    vec![TouchPoint { x, y }]
}

#[test]
fn rect_contains_inclusive_top_left_exclusive_bottom_right() {
    let r = Rect::new(10, 20, 100, 30); // x: 10..110, y: 20..50
    assert!(r.contains(10, 20));
    assert!(r.contains(50, 35));
    assert!(r.contains(109, 49));
    assert!(!r.contains(110, 49));
    assert!(!r.contains(50, 50));
    assert!(!r.contains(9, 35));
    assert!(!r.contains(50, 19));
}

#[test]
fn rect_contains_negative_coords() {
    let r = Rect::new(0, 0, 10, 10);
    assert!(!r.contains(-1, 5));
    assert!(!r.contains(5, -1));
}

#[test]
fn rect_at_the_edge_of_the_range() {
    let r = Rect::new(i32::MAX - 1, 0, 100, 1);
    assert!(r.contains(i32::MAX, 0));
}

#[test]
fn lifting_the_finger_clicks() {
    let r = Rect::new(0, 0, 10, 10);
    let mut s = ButtonState::default();
    assert!(!button(r, &mut s, &at(5, 5), true));
    assert!(s.pressed_last);
    assert!(button(r, &mut s, &vec![], true));
    assert!(!button(r, &mut s, &vec![], true));
}

#[test]
fn sliding_out_is_no_click() {
    let r = Rect::new(0, 0, 10, 10);
    let mut s = ButtonState::default();
    button(r, &mut s, &at(5, 5), true);
    assert!(!button(r, &mut s, &at(50, 5), true));
    assert!(!button(r, &mut s, &vec![], true));
}

#[test]
fn a_disabled_button_keeps_silent() {
    let r = Rect::new(0, 0, 10, 10);
    let mut s = ButtonState::default();
    button(r, &mut s, &at(5, 5), false);
    assert!(!button(r, &mut s, &vec![], false));
}

#[test]
fn a_field_shows_placeholder_value_or_bullets() {
    let r = Rect::new(0, 0, 10, 10);
    let mut s = FieldState::default();
    let (_, shown) = text_field(r, "handle", &mut s, &vec![], false, true);
    assert_eq!(shown.text, "handle");
    assert!(shown.muted);
    s.value = "é1".to_string();
    let (_, shown) = text_field(r, "handle", &mut s, &vec![], false, true);
    assert_eq!(shown.text, "é1");
    let (_, shown) = text_field(r, "handle", &mut s, &at(1, 1), true, true);
    assert_eq!(shown.text, "•••");
    assert!(!shown.muted);
    let (tapped, _) = text_field(r, "handle", &mut s, &vec![], true, true);
    assert!(tapped);
}

#[test]
fn touches_in_a_band() {
    let t = vec![
        TouchPoint { x: 1, y: 10 },
        TouchPoint { x: 2, y: 40 },
        TouchPoint { x: 3, y: 39 },
    ];
    let b = touches_in_band(&t, 10, 40);
    assert_eq!(b.len(), 2);
    assert_eq!(b[0].x, 1);
    assert_eq!(b[1].x, 3);
}

#[test]
fn the_stick_has_a_dead_zone() {
    let mut pad = PadFrame::default();
    for (stick, travel) in [(0, 0), (32, 0), (33, 1), (-32, 0), (-128, -96), (127, 95)] {
        pad.stick_y = stick;
        assert_eq!(stick_scroll(&pad), travel);
    }
}

#[test]
fn text_is_shortened_until_it_fits() {
    let mut t = Truncation::start("abcd");
    assert_eq!(t.offer(), "abcd");
    assert_eq!(t.answer(100, 30), None);
    let mut last = t.offer();
    loop {
        assert!(last.ends_with('…'));
        let width = last.chars().count() as i32 * 10;
        match t.answer(width, 30) {
            Some(done) => {
                assert_eq!(done, "ab…");
                break;
            }
            None => last = t.offer(),
        }
    }
}

#[test]
fn text_that_fits_is_kept() {
    let mut t = Truncation::start("abc");
    assert_eq!(t.answer(30, 30), Some("abc".to_string()));
}

#[test]
fn the_hint_bar_hides_after_its_time() {
    let mut h = HintOverlay::new();
    for _ in 0..HIDE_FRAMES {
        assert!(h.visible());
        h.tick();
    }
    assert!(!h.visible());
    h.show();
    assert!(h.visible());
}

#[test]
fn toggling_the_hint_bar_twice_brings_it_back() {
    let mut h = HintOverlay::default();
    h.toggle();
    assert!(!h.visible());
    assert!(h.draw(&vec![], 4, false).is_none());
    h.toggle();
    assert!(h.visible());
}

#[test]
fn hints_stand_one_behind_the_other() {
    let h = HintOverlay::new();
    let widths = vec![
        HintWidths { button_w: 10, action_w: 30 },
        HintWidths { button_w: 12, action_w: 20 },
    ];
    let bar = h.draw(&widths, 5, true).unwrap();
    assert_eq!(bar.y, 544 - 60 - 26);
    assert_eq!(bar.segments[0].dot_x, None);
    assert_eq!(bar.segments[0].button_x, 12);
    assert_eq!(bar.segments[0].action_x, 26);
    assert_eq!(bar.segments[1].dot_x, Some(64));
    assert_eq!(bar.segments[1].button_x, 77);
    assert_eq!(bar.segments[1].action_x, 93);
    assert_eq!(h.draw(&widths, 5, false).unwrap().y, 544 - 26);
}

#[test]
fn tabs_switch_but_not_to_themselves() {
    let mut bar = TabBar::new(TopLevel::Home);
    assert!(bar.render(&at(10, 500)).is_none());
    assert!(bar.render(&vec![]).is_none());
    assert!(bar.render(&at(500, 500)).is_none());
    assert!(matches!(bar.render(&vec![]), Some(TopLevel::Notifications)));
    assert!(bar.render(&at(959, 543)).is_none());
    assert!(matches!(bar.render(&vec![]), Some(TopLevel::Profile)));
}

#[test]
fn tab_labels() {
    assert_eq!(TopLevel::Home.label(), "Home");
    assert_eq!(TopLevel::Notifications.label(), "Notifs");
    assert_eq!(TopLevel::Messages.label(), "DMs");
}

#[test]
fn rows_are_laid_out_from_the_top() {
    let rows = vec![100, 50, 200];
    assert_eq!(top_of(&rows, 0), 0);
    assert_eq!(top_of(&rows, 2), 150);
    assert_eq!(content_height(&rows), 350);
    assert_eq!(max_scroll(350, 300), 50);
    assert_eq!(max_scroll(100, 300), 0);
}

#[test]
fn a_row_is_brought_into_view_with_a_margin() {
    let rows = vec![100, 100, 100, 100, 100, 100];
    // Above the view: its top comes under the margin.
    assert_eq!(reveal_row(&rows, 1, 300, 300, false), Some(50));
    assert_eq!(reveal_row(&rows, 0, 300, 300, false), Some(0));
    // Below the view: its bottom comes over the margin.
    assert_eq!(reveal_row(&rows, 4, 0, 300, false), Some(250));
    // Comfortably in view.
    assert_eq!(reveal_row(&rows, 2, 100, 300, false), None);
    // A row taller than the view is pinned to its top.
    assert_eq!(reveal_row(&vec![100, 900], 1, 60, 300, true), Some(50));
}

#[test]
fn the_first_row_in_view() {
    let rows = vec![100, 100, 100];
    assert_eq!(first_visible_idx(&rows, 0), 0);
    assert_eq!(first_visible_idx(&rows, 99), 0);
    assert_eq!(first_visible_idx(&rows, 100), 1);
    assert_eq!(first_visible_idx(&rows, 5000), 2);
    assert_eq!(first_visible_idx(&vec![], 0), 0);
    assert_eq!(first_row_in_band(&rows, -150, 0, 50), 1);
    assert!(row_visible(&rows, 1, 150, 100));
    assert!(!row_visible(&rows, 0, 150, 100));
}

#[test]
fn selection_stays_in_the_list() {
    assert_eq!(step_selection(0, true, false, 3), (0, false));
    assert_eq!(step_selection(2, false, true, 3), (2, false));
    assert_eq!(step_selection(1, true, false, 3), (0, true));
    assert_eq!(step_selection(1, false, true, 3), (2, true));
}

#[test]
fn rows_in_a_band_of_the_display() {
    let rows = vec![100, 100, 100];
    let shown = visible_rows(&rows, 3, 40 - 120, 40, 200);
    assert_eq!(shown.len(), 2);
    assert_eq!(shown[0].index, 1);
    assert_eq!(shown[0].y, 20);
    assert_eq!(shown[1].index, 2);
    assert_eq!(shown[1].y, 120);
}

#[test]
fn the_first_row_in_view_among_odd_heights() {
    assert_eq!(first_visible_idx(&vec![-50, 20, 100], 60), 2);
    assert_eq!(first_visible_idx(&vec![-50, 20, 100], -40), 1);
    assert_eq!(first_visible_idx(&vec![100, -200], 150), 1);
    assert_eq!(first_visible_idx(&vec![i32::MAX, -1], i32::MAX - 1), 0);
    assert_eq!(first_visible_idx(&vec![i32::MIN], 0), 0);
}

#[test]
fn many_hints_are_drawn_as_far_as_they_go() {
    let h = HintOverlay::new();
    let widths = vec![HintWidths { button_w: 20_000, action_w: 10 }; 150];
    assert!(hints_fit(&widths, 4));
    let bar = h.draw(&widths, 4, false).unwrap();
    assert_eq!(bar.segments.len(), 150);
    assert_eq!(bar.segments[149].button_x, 12 + 149 * (20_000 + 4 + 10 + 8 + 4 + 8));
    assert!(hints_fit(&vec![HintWidths { button_w: i32::MAX - 16, action_w: 0 }], 4));
    assert!(!hints_fit(&vec![HintWidths { button_w: i32::MAX - 16, action_w: 1 }], 4));
    assert!(!hints_fit(&vec![HintWidths { button_w: i32::MAX - 15, action_w: 0 }], 4));
}
