use playcore::setting_ui::SettingWindow;
use playcore::ui_state::PlayList;
use playcore::utils::RcCell;

fn list(names: &[&str], current: Option<usize>, looping: bool) -> PlayList {
    PlayList {
        entries: names.iter().map(|s| s.to_string()).collect(),
        current_idx: current,
        looping,
    }
}

#[test]
fn empty_playlist_yields_nothing() {
    let mut l = list(&[], None, false);
    assert_eq!(l.current_filename(0), None);
    assert_eq!(l.current_filename(1), None);
}

#[test]
fn first_pick_is_the_first_entry() {
    let mut l = list(&["a.mp4", "b.mp4"], None, false);
    assert_eq!(l.current_filename(1), Some("a.mp4".to_string()));
    assert_eq!(l.current_idx, Some(0));
}

#[test]
fn next_and_previous_move_the_cursor() {
    let mut l = list(&["a", "b", "c"], Some(1), false);
    assert_eq!(l.current_filename(1), Some("c".to_string()));
    assert_eq!(l.current_idx, Some(2));
    assert_eq!(l.current_filename(-1), Some("b".to_string()));
    assert_eq!(l.current_filename(-1), Some("a".to_string()));
    assert_eq!(l.current_filename(0), Some("a".to_string()));
}

#[test]
fn ends_stop_without_looping() {
    let mut l = list(&["a", "b"], Some(1), false);
    assert_eq!(l.current_filename(1), None);
    assert_eq!(l.current_idx, Some(1));
    let mut l = list(&["a", "b"], Some(0), false);
    assert_eq!(l.current_filename(-1), None);
    assert_eq!(l.current_idx, Some(0));
}

#[test]
fn looping_wraps_forward() {
    let mut l = list(&["a", "b", "c"], Some(2), true);
    assert_eq!(l.current_filename(1), Some("a".to_string()));
    assert_eq!(l.current_idx, Some(0));
}

#[test]
fn looping_backward_from_first_finds_nothing() {
    // the backward wrap lands on a negative remainder, which picks no file
    let mut l = list(&["a", "b", "c"], Some(0), true);
    assert_eq!(l.current_filename(-1), None);
    assert_eq!(l.current_idx, Some(0));
}

#[test]
fn setting_window_toggles_and_recentres() {
    let mut w = SettingWindow::default();
    assert!(!w.open);
    // a closed window's tick draws nothing and changes nothing
    assert!(!w.show_tick());
    w.trigger_show();
    assert!(w.open && w.first_open);
    // the first two drawn frames re-anchor the window, later ones settle
    assert!(w.show_tick());
    assert!(!w.first_open);
    assert!(w.show_tick());
    assert!(!w.show_tick());
    assert_eq!(w.frame, 3);
    w.trigger_show();
    assert!(!w.open);
    w.trigger_show();
    assert!(w.open && w.first_open);
}

#[test]
fn cell_hands_out_its_contents() {
    let mut c = RcCell::new(41);
    assert_eq!(*c.as_ref(), 41);
    *c.as_mut() += 1;
    assert_eq!(*c.as_ref(), 42);
    assert_eq!(c.cell, 42);
}
