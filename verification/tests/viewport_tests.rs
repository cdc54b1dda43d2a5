use polyview::input::{dispatch, Command, KeyEvent};
use polyview::viewport::ViewportState;

#[test]
fn scroll_up_at_top_is_a_noop() {
    let mut v = ViewportState::new(5, 10, 20, 40);
    assert_eq!(v.row_offset, 0);
    v.apply(Command::ScrollUp);
    assert_eq!(v.row_offset, 0);
}

#[test]
fn scroll_down_stops_once_the_last_row_is_visible() {
    let mut v = ViewportState::new(5, 10, 8, 40);
    for _ in 0..10 {
        v.apply(Command::ScrollDown);
    }
    // 8 content rows, 5 visible: the offset can reach 3 and no further.
    assert_eq!(v.row_offset, 3);
    v.apply(Command::ScrollDown);
    assert_eq!(v.row_offset, 3);
    // And scrolling back up stops at 0.
    for _ in 0..10 {
        v.apply(Command::ScrollUp);
    }
    assert_eq!(v.row_offset, 0);
}

#[test]
fn horizontal_scrolling_respects_the_width_bounds() {
    let mut v = ViewportState::new(5, 10, 20, 13);
    v.apply(Command::ScrollLeft);
    assert_eq!(v.col_offset, 0);
    for _ in 0..20 {
        v.apply(Command::ScrollRight);
    }
    assert_eq!(v.col_offset, 3);
    v.apply(Command::ScrollLeft);
    assert_eq!(v.col_offset, 2);
}

#[test]
fn content_smaller_than_the_pane_never_scrolls() {
    let mut v = ViewportState::new(10, 10, 4, 4);
    v.apply(Command::ScrollDown);
    v.apply(Command::ScrollRight);
    assert_eq!(v.row_offset, 0);
    assert_eq!(v.col_offset, 0);
}

#[test]
fn quit_and_ignore_leave_the_viewport_unchanged() {
    let mut v = ViewportState::new(5, 10, 20, 40);
    v.apply(Command::ScrollDown);
    v.apply(Command::ScrollRight);
    let before = v;
    v.apply(Command::Quit);
    assert_eq!(v, before);
    v.apply(Command::Ignore);
    assert_eq!(v, before);
}

#[test]
fn keys_map_to_commands() {
    assert_eq!(dispatch(KeyEvent::Up), Command::ScrollUp);
    assert_eq!(dispatch(KeyEvent::Down), Command::ScrollDown);
    assert_eq!(dispatch(KeyEvent::Left), Command::ScrollLeft);
    assert_eq!(dispatch(KeyEvent::Right), Command::ScrollRight);
    assert_eq!(dispatch(KeyEvent::WheelUp), Command::ScrollLeft);
    assert_eq!(dispatch(KeyEvent::WheelDown), Command::ScrollRight);
    assert_eq!(dispatch(KeyEvent::Glyph('q')), Command::Quit);
    assert_eq!(dispatch(KeyEvent::Glyph('Q')), Command::Quit);
    assert_eq!(dispatch(KeyEvent::Glyph('x')), Command::Ignore);
    assert_eq!(dispatch(KeyEvent::NoInput), Command::Ignore);
}
