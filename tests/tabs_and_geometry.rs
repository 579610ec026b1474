use alacritty::{
    BarGeometry, TermTabCollection, centered_title_x, ellipsis_tab_title, ghost_index, hit_test, is_detached,
    is_on_close_button, tab_left, ClickState, SelectionType, next_click_state, selection_for,
    MultiWindowPlatform,
};

fn titles(c: &TermTabCollection) -> Vec<String> {
    (0..c.tab_count()).map(|i| c.tab(i).title.clone()).collect()
}

fn ptys(c: &TermTabCollection) -> Vec<u64> {
    (0..c.tab_count()).map(|i| c.tab(i).pty).collect()
}

fn assert_dense(c: &TermTabCollection) {
    for i in 0..c.tab_count() {
        assert_eq!(c.tab(i).handle.tab_id, i);
        assert_eq!(c.tab(i).handle.window_id, c.window_id());
    }
}

fn collection(window_id: u64, n: u64) -> TermTabCollection {
    let mut c = TermTabCollection::new(window_id);
    for p in 0..n {
        c.add_tab(100 + p);
        c.set_title(p as usize, format!("t{}", p));
    }
    c
}

#[test]
fn add_tab_assigns_dense_ids() {
    let c = collection(7, 3);
    assert_eq!(c.tab_count(), 3);
    assert_dense(&c);
    assert_eq!(ptys(&c), vec![100, 101, 102]);
    assert_eq!(c.active_index(), 0);
}

#[test]
fn close_tab_shifts_later_tabs_down() {
    let mut c = collection(1, 4);
    c.activate_tab(3);
    assert_eq!(c.close_tab(1), Some(101));
    assert_eq!(titles(&c), vec!["t0", "t2", "t3"]);
    assert_dense(&c);
    assert_eq!(c.active_index(), 2);
}

#[test]
fn close_tab_active_follows_its_tab() {
    let mut c = collection(1, 3);
    c.activate_tab(1);
    assert_eq!(c.close_tab(0), Some(100));
    assert_eq!(c.active_index(), 0);
    assert_eq!(titles(&c), vec!["t1", "t2"]);
}

#[test]
fn close_last_active_tab_clamps() {
    let mut c = collection(1, 3);
    c.activate_tab(2);
    assert_eq!(c.close_current_tab(), Some(102));
    assert_eq!(c.active_index(), 1);
    assert_dense(&c);
}

#[test]
fn close_tab_out_of_range_is_noop() {
    let mut c = collection(1, 2);
    assert_eq!(c.close_tab(5), None);
    assert_eq!(c.tab_count(), 2);
}

#[test]
fn close_only_tab_empties() {
    let mut c = collection(1, 1);
    assert_eq!(c.close_tab(0), Some(100));
    assert!(c.is_empty());
    assert!(c.active_tab().is_none());
    assert_eq!(c.close_current_tab(), None);
}

#[test]
fn move_tab_forward_keeps_others_in_order() {
    let mut c = collection(2, 4);
    c.activate_tab(0);
    c.move_tab(0, 2);
    assert_eq!(titles(&c), vec!["t1", "t2", "t0", "t3"]);
    assert_dense(&c);
    assert_eq!(c.active_index(), 2);
}

#[test]
fn move_tab_backward_active_other_tab_follows() {
    let mut c = collection(2, 4);
    c.activate_tab(1);
    c.move_tab(3, 0);
    assert_eq!(titles(&c), vec!["t3", "t0", "t1", "t2"]);
    assert_eq!(c.active_index(), 2);
    assert_dense(&c);
}

#[test]
fn move_tab_out_of_range_is_noop() {
    let mut c = collection(2, 3);
    c.move_tab(0, 3);
    assert_eq!(titles(&c), vec!["t0", "t1", "t2"]);
}

#[test]
fn activate_out_of_range_is_noop() {
    let mut c = collection(2, 2);
    c.activate_tab(1);
    c.activate_tab(9);
    assert_eq!(c.active_index(), 1);
}

#[test]
fn close_all_tabs_returns_ptys_in_order() {
    let mut c = collection(3, 3);
    assert_eq!(c.close_all_tabs(), vec![100, 101, 102]);
    assert!(c.is_empty());
}

#[test]
fn hit_test_two_tabs_at_double_density() {
    // Bar height 24 and a window 800 wide at a pixel ratio of 2.
    let geo = BarGeometry { window_width: 1600, bar_height: 48 };
    assert_eq!(hit_test(401 * 2, 10 * 2, 2, geo), Some(1));
    assert_eq!(hit_test(399 * 2, 10 * 2, 2, geo), Some(0));
    assert_eq!(hit_test(401 * 2, 60 * 2, 2, geo), None);
}

#[test]
fn hit_test_hidden_with_one_tab() {
    let geo = BarGeometry { window_width: 800, bar_height: 24 };
    assert_eq!(hit_test(10, 10, 1, geo), None);
    assert_eq!(hit_test(10, 10, 0, geo), None);
}

#[test]
fn hit_test_beside_window_or_below_strip_is_none() {
    let geo = BarGeometry { window_width: 800, bar_height: 24 };
    assert_eq!(hit_test(-1, 10, 3, geo), None);
    assert_eq!(hit_test(800, 10, 3, geo), None);
    // Above the window the strip still counts: a drag may leave it upwards.
    assert_eq!(hit_test(10, -1, 3, geo), Some(0));
    assert_eq!(hit_test(10, 24, 3, geo), None);
}

#[test]
fn hit_test_always_in_range() {
    let geo = BarGeometry { window_width: 997, bar_height: 30 };
    for n in 2..9usize {
        for x in 0..997i32 {
            let expected = (x as usize * n) / 997;
            assert_eq!(hit_test(x, 5, n, geo), Some(expected));
            assert!(expected < n);
        }
    }
}

#[test]
fn tab_left_edges() {
    assert_eq!(tab_left(0, 3, 300), 0);
    assert_eq!(tab_left(2, 3, 300), 200);
    assert_eq!(tab_left(1, 3, 100), 33);
}

#[test]
fn close_button_hotspot() {
    // Tabs are 100 wide; the hotspot of tab 1 spans 110..130.
    assert!(!is_on_close_button(109, 1, 3, 300));
    assert!(is_on_close_button(110, 1, 3, 300));
    assert!(is_on_close_button(129, 1, 3, 300));
    assert!(!is_on_close_button(130, 1, 3, 300));
    assert!(!is_on_close_button(105, 1, 3, 300));
}

#[test]
fn detach_threshold() {
    // One and a half times a 48-pixel strip is 72.
    assert!(is_detached(73, 48));
    assert!(!is_detached(72, 48));
    assert!(!is_detached(71, 48));
    assert!(!is_detached(-200, 48));
    // With an odd height the threshold lies between two pixels.
    assert!(is_detached(38, 25));
    assert!(!is_detached(37, 25));
}

#[test]
fn ghost_index_rounds_and_clamps() {
    assert_eq!(ghost_index(0, 150, 100, 3), 2);
    assert_eq!(ghost_index(0, 149, 100, 3), 1);
    assert_eq!(ghost_index(0, 50, 100, 3), 1);
    assert_eq!(ghost_index(0, 49, 100, 3), 0);
    assert_eq!(ghost_index(2, -151, 100, 3), 0);
    assert_eq!(ghost_index(2, -149, 100, 3), 1);
    assert_eq!(ghost_index(1, 1000, 100, 3), 2);
    assert_eq!(ghost_index(1, -1000, 100, 3), 0);
}

fn chars(s: &str) -> Vec<char> {
    s.chars().collect()
}

#[test]
fn ellipsis_keeps_fitting_title() {
    let t = chars("hello");
    assert_eq!(ellipsis_tab_title(&t, 10, 20, 90), t);
    assert_eq!(ellipsis_tab_title(&t, 10, 20, 200), t);
}

#[test]
fn ellipsis_cuts_long_title() {
    let t = chars("hello world");
    // Room for (100 - 40) / 10 = 6 cells: three letters and the dots.
    assert_eq!(ellipsis_tab_title(&t, 10, 20, 100), chars("hel..."));
    assert_eq!(ellipsis_tab_title(&t, 10, 20, 50), chars("..."));
}

#[test]
fn ellipsis_is_idempotent() {
    let t = chars("a rather long title");
    let once = ellipsis_tab_title(&t, 7, 10, 90);
    let twice = ellipsis_tab_title(&once, 7, 10, 90);
    assert_eq!(once, twice);
    assert!(once.ends_with(&['.', '.', '.']));
}

#[test]
fn ellipsis_empty_title() {
    let t: Vec<char> = Vec::new();
    assert_eq!(ellipsis_tab_title(&t, 10, 20, 100), t);
}

#[test]
fn click_series() {
    let s = next_click_state(ClickState::NoClick, true);
    assert_eq!(s, ClickState::Click);
    let s = next_click_state(s, true);
    assert_eq!(s, ClickState::DoubleClick);
    let s = next_click_state(s, true);
    assert_eq!(s, ClickState::TripleClick);
    assert_eq!(next_click_state(s, true), ClickState::Click);
    assert_eq!(next_click_state(ClickState::DoubleClick, false), ClickState::Click);
}

#[test]
fn selection_kinds() {
    assert_eq!(selection_for(ClickState::Click, false), Some(SelectionType::Simple));
    assert_eq!(selection_for(ClickState::Click, true), Some(SelectionType::Block));
    assert_eq!(selection_for(ClickState::DoubleClick, false), Some(SelectionType::Semantic));
    assert_eq!(selection_for(ClickState::TripleClick, true), Some(SelectionType::Lines));
    assert_eq!(selection_for(ClickState::NoClick, false), None);
}

#[test]
fn platform_cascade_requested_once() {
    let mut p = MultiWindowPlatform::new(4);
    assert!(!p.take_cascade_request());
    p.initialize();
    assert!(p.take_cascade_request());
    assert!(!p.take_cascade_request());
    assert_eq!(p.window_id(), 4);
}

#[test]
fn title_centred_in_tab() {
    // A 100-wide tab at 200 holding 4 cells of 10: 200 + 50 - 20.
    assert_eq!(centered_title_x(200, 100, 4, 10), 230);
    // Wider than the tab at the left edge: clamped to the window.
    assert_eq!(centered_title_x(0, 100, 30, 10), 0);
}
