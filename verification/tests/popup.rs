use helix_term::geometry::{Position, Rect};
use helix_term::input::{Event, KeyCode, KeyEvent, KeyModifiers};
use helix_term::popup::{max_contents_size, Popup, PopupEventResult};

fn key(code: KeyCode, shift: bool, control: bool, alt: bool) -> Event {
    Event::Key(KeyEvent { code, modifiers: KeyModifiers { shift, control, alt } })
}

fn ctrl(c: char) -> Event {
    key(KeyCode::Char(c), false, true, false)
}

fn viewport() -> Rect {
    Rect::new(0, 0, 80, 24)
}

fn sized(width: u16, height: u16) -> Popup<()> {
    let mut p = Popup::new(());
    assert_eq!(p.required_size((width, height)), Some((width, height)));
    p
}

#[test]
fn new_popup_has_no_size() {
    let p = Popup::new(7u32);
    assert_eq!(p.get_size(), (0, 0));
    assert_eq!(*p.contents(), 7);
}

#[test]
fn contents_mut_changes_the_contents() {
    let mut p = Popup::new(1u32);
    *p.contents_mut() = 5;
    assert_eq!(*p.contents(), 5);
}

#[test]
fn max_contents_size_is_120_by_26() {
    assert_eq!(max_contents_size(), (120, 26));
}

#[test]
fn popup_goes_below_the_cursor() {
    let mut p = sized(10, 5);
    assert_eq!(p.get_rel_position(viewport(), Some(Position { row: 3, col: 5 })), (5, 4));
}

#[test]
fn popup_moves_left_at_the_right_edge() {
    let mut p = sized(10, 5);
    assert_eq!(p.get_rel_position(viewport(), Some(Position { row: 3, col: 75 })), (70, 4));
}

#[test]
fn popup_wider_than_viewport_starts_at_column_zero() {
    let mut p = sized(100, 5);
    assert_eq!(p.get_rel_position(viewport(), Some(Position { row: 3, col: 30 })), (0, 4));
}

#[test]
fn popup_goes_above_near_the_bottom() {
    let mut p = sized(10, 5);
    assert_eq!(p.get_rel_position(viewport(), Some(Position { row: 20, col: 5 })), (5, 15));
}

#[test]
fn popup_without_room_above_starts_at_the_top() {
    let mut p = sized(10, 5);
    let small = Rect::new(0, 0, 80, 5);
    assert_eq!(p.get_rel_position(small, Some(Position { row: 2, col: 0 })), (0, 0));
}

#[test]
fn popup_without_cursor_is_anchored_at_origin() {
    let mut p = sized(10, 5);
    assert_eq!(p.get_rel_position(viewport(), None), (0, 1));
}

#[test]
fn anchor_sticks_once_placed() {
    let mut p = sized(10, 5);
    let first = p.get_rel_position(viewport(), Some(Position { row: 3, col: 5 }));
    let second = p.get_rel_position(viewport(), Some(Position { row: 10, col: 40 }));
    assert_eq!(first, second);
}

#[test]
fn set_position_overrides_cursor() {
    let mut p = sized(10, 5);
    p.set_position(Some(Position { row: 7, col: 2 }));
    assert_eq!(p.get_rel_position(viewport(), Some(Position { row: 3, col: 5 })), (2, 8));
    p.set_position(None);
    assert_eq!(p.get_rel_position(viewport(), Some(Position { row: 3, col: 5 })), (5, 4));
}

#[test]
fn escape_and_ctrl_c_close() {
    let mut p = sized(10, 5);
    assert_eq!(p.handle_event(&key(KeyCode::Esc, false, false, false)), PopupEventResult::Close);
    assert_eq!(p.handle_event(&ctrl('c')), PopupEventResult::Close);
}

#[test]
fn modified_escape_and_other_keys_go_to_contents() {
    let mut p = sized(10, 5);
    assert_eq!(p.handle_event(&key(KeyCode::Esc, true, false, false)), PopupEventResult::Delegate);
    assert_eq!(p.handle_event(&key(KeyCode::Char('c'), false, true, true)), PopupEventResult::Delegate);
    assert_eq!(p.handle_event(&key(KeyCode::Char('a'), false, false, false)), PopupEventResult::Delegate);
    assert_eq!(p.handle_event(&key(KeyCode::Enter, false, false, false)), PopupEventResult::Delegate);
}

#[test]
fn non_key_events_are_ignored() {
    let mut p = sized(10, 5);
    assert_eq!(p.handle_event(&Event::Resize(10, 10)), PopupEventResult::Ignored);
    assert_eq!(p.handle_event(&Event::Mouse), PopupEventResult::Ignored);
    assert_eq!(p.handle_event(&Event::FocusGained), PopupEventResult::Ignored);
}

#[test]
fn ctrl_d_and_ctrl_u_scroll_by_half_the_height() {
    let mut p = sized(10, 9);
    assert_eq!(p.handle_event(&ctrl('d')), PopupEventResult::Consumed);
    assert_eq!(p.render(viewport(), None, (10, 9)).scroll, 4);
    assert_eq!(p.handle_event(&ctrl('d')), PopupEventResult::Consumed);
    assert_eq!(p.render(viewport(), None, (10, 9)).scroll, 8);
    assert_eq!(p.handle_event(&ctrl('u')), PopupEventResult::Consumed);
    assert_eq!(p.render(viewport(), None, (10, 9)).scroll, 4);
    p.handle_event(&ctrl('u'));
    p.handle_event(&ctrl('u'));
    assert_eq!(p.render(viewport(), None, (10, 9)).scroll, 0);
}

#[test]
fn scroll_down_then_up_returns() {
    let mut p = sized(10, 5);
    p.scroll(3, true);
    p.scroll(7, true);
    p.scroll(7, false);
    assert_eq!(p.render(viewport(), None, (10, 5)).scroll, 3);
    p.scroll(10, false);
    assert_eq!(p.render(viewport(), None, (10, 5)).scroll, 0);
}

#[test]
fn render_area_is_clipped_to_viewport() {
    let mut p = Popup::new(());
    let frame = p.render(viewport(), Some(Position { row: 3, col: 5 }), (10, 5));
    assert_eq!(frame.area, Rect::new(5, 4, 10, 5));
    assert_eq!(p.get_size(), (10, 5));
    let mut q = Popup::new(());
    let narrow = Rect::new(0, 0, 8, 24);
    let frame = q.render(narrow, Some(Position { row: 3, col: 5 }), (10, 5));
    assert_eq!(frame.area, Rect::new(0, 4, 8, 5));
}

#[test]
fn intersection_of_disjoint_rects_is_empty() {
    let a = Rect::new(0, 0, 10, 10);
    let b = Rect::new(20, 20, 5, 5);
    let i = a.intersection(b);
    assert_eq!(i.width, 0);
    assert_eq!(i.height, 0);
    assert_eq!(a.intersection(Rect::new(5, 2, 10, 3)), Rect::new(5, 2, 5, 3));
}

#[test]
fn right_and_bottom_saturate() {
    let r = Rect::new(65530, 65535, 10, 1);
    assert_eq!(r.right(), 65535);
    assert_eq!(r.bottom(), 65535);
}

#[test]
fn position_ignores_viewport_origin() {
    let mut p = sized(10, 5);
    let mut q = sized(10, 5);
    let cursor = Some(Position { row: 20, col: 75 });
    assert_eq!(
        p.get_rel_position(Rect::new(0, 0, 80, 24), cursor),
        q.get_rel_position(Rect::new(7, 3, 80, 24), cursor)
    );
}
