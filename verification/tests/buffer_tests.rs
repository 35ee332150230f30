use editor::buffer::{Action, Buffer, Motion};

fn type_str(b: &mut Buffer, s: &str) {
    for c in s.chars() {
        b.apply(&Action::Insert(c));
    }
}

#[test]
fn empty_buffer_starts_at_origin() {
    let b = Buffer::new();
    assert_eq!(b.text(), "");
    assert_eq!(b.cursor_position(), (0, 0));
    assert_eq!(b.selected_text(), None);
}

#[test]
fn insert_advances_cursor() {
    let mut b = Buffer::new();
    type_str(&mut b, "hi");
    assert_eq!(b.text(), "hi");
    assert_eq!(b.cursor_position(), (0, 2));
}

#[test]
fn newline_moves_to_next_line() {
    let mut b = Buffer::new();
    type_str(&mut b, "a\nbc");
    assert_eq!(b.text(), "a\nbc");
    assert_eq!(b.cursor_position(), (1, 2));
}

#[test]
fn paste_inserts_whole_string() {
    let mut b = Buffer::new();
    type_str(&mut b, "ad");
    b.apply(&Action::Move(Motion::Left));
    b.apply(&Action::Paste("bc".to_string()));
    assert_eq!(b.text(), "abcd");
    assert_eq!(b.cursor_position(), (0, 3));
}

#[test]
fn backspace_deletes_before_cursor() {
    let mut b = Buffer::new();
    type_str(&mut b, "ab");
    b.apply(&Action::Backspace);
    assert_eq!(b.text(), "a");
    assert_eq!(b.cursor_position(), (0, 1));
}

#[test]
fn backspace_at_start_is_noop() {
    let mut b = Buffer::new();
    type_str(&mut b, "ab");
    b.apply(&Action::Move(Motion::DocumentStart));
    b.apply(&Action::Backspace);
    assert_eq!(b.text(), "ab");
    assert_eq!(b.cursor_position(), (0, 0));
}

#[test]
fn delete_removes_under_cursor() {
    let mut b = Buffer::new();
    type_str(&mut b, "ab");
    b.apply(&Action::Move(Motion::DocumentStart));
    b.apply(&Action::Delete);
    assert_eq!(b.text(), "b");
    assert_eq!(b.cursor_position(), (0, 0));
}

#[test]
fn delete_at_end_is_noop() {
    let mut b = Buffer::new();
    type_str(&mut b, "ab");
    b.apply(&Action::Delete);
    assert_eq!(b.text(), "ab");
}

#[test]
fn home_and_end_move_within_line() {
    let mut b = Buffer::new();
    type_str(&mut b, "ab\ncd");
    b.apply(&Action::Move(Motion::Home));
    assert_eq!(b.cursor_position(), (1, 0));
    b.apply(&Action::Move(Motion::End));
    assert_eq!(b.cursor_position(), (1, 2));
}

#[test]
fn word_left_stops_at_word_start() {
    let mut b = Buffer::new();
    type_str(&mut b, "hello world");
    b.apply(&Action::Move(Motion::WordLeft));
    assert_eq!(b.cursor_position(), (0, 6));
    b.apply(&Action::Move(Motion::WordLeft));
    assert_eq!(b.cursor_position(), (0, 0));
}

#[test]
fn word_right_stops_at_word_end() {
    let mut b = Buffer::new();
    type_str(&mut b, "hello world");
    b.apply(&Action::Move(Motion::DocumentStart));
    b.apply(&Action::Move(Motion::WordRight));
    assert_eq!(b.cursor_position(), (0, 5));
    b.apply(&Action::Move(Motion::WordRight));
    assert_eq!(b.cursor_position(), (0, 11));
}

#[test]
fn document_bounds_motions() {
    let mut b = Buffer::new();
    type_str(&mut b, "ab\ncd");
    b.apply(&Action::Move(Motion::DocumentStart));
    assert_eq!(b.cursor_position(), (0, 0));
    b.apply(&Action::Move(Motion::DocumentEnd));
    assert_eq!(b.cursor_position(), (1, 2));
}

#[test]
fn select_all_selects_everything() {
    let mut b = Buffer::new();
    type_str(&mut b, "abc");
    b.apply(&Action::SelectAll);
    assert_eq!(b.selected_text(), Some("abc".to_string()));
}

#[test]
fn select_range_takes_middle() {
    let mut b = Buffer::new();
    type_str(&mut b, "hello");
    b.apply(&Action::SelectRange(1, 4));
    assert_eq!(b.selected_text(), Some("ell".to_string()));
}

#[test]
fn select_range_clamps_to_text() {
    let mut b = Buffer::new();
    type_str(&mut b, "abc");
    b.apply(&Action::SelectRange(1, 99));
    assert_eq!(b.selected_text(), Some("bc".to_string()));
}

#[test]
fn select_motion_extends_selection() {
    let mut b = Buffer::new();
    type_str(&mut b, "abc");
    b.apply(&Action::Select(Motion::Left));
    b.apply(&Action::Select(Motion::Left));
    assert_eq!(b.selected_text(), Some("bc".to_string()));
}

#[test]
fn move_drops_selection() {
    let mut b = Buffer::new();
    type_str(&mut b, "abc");
    b.apply(&Action::SelectAll);
    b.apply(&Action::Move(Motion::Right));
    assert_eq!(b.selected_text(), None);
}

#[test]
fn insert_replaces_selection() {
    let mut b = Buffer::new();
    type_str(&mut b, "abcd");
    b.apply(&Action::SelectRange(1, 3));
    b.apply(&Action::Insert('X'));
    assert_eq!(b.text(), "aXd");
    assert_eq!(b.cursor_position(), (0, 2));
}

#[test]
fn backspace_removes_selection() {
    let mut b = Buffer::new();
    type_str(&mut b, "abcd");
    b.apply(&Action::SelectRange(1, 3));
    b.apply(&Action::Backspace);
    assert_eq!(b.text(), "ad");
    assert_eq!(b.cursor_position(), (0, 1));
}

#[test]
fn replace_all_resets_cursor_and_selection() {
    let mut b = Buffer::new();
    type_str(&mut b, "old text");
    b.apply(&Action::SelectAll);
    b.replace_all("xyz");
    assert_eq!(b.text(), "xyz");
    assert_eq!(b.cursor_position(), (0, 0));
    assert_eq!(b.selected_text(), None);
}

#[test]
fn actions_classify_as_edit_or_navigation() {
    assert!(Action::Insert('a').is_edit());
    assert!(Action::Paste("x".to_string()).is_edit());
    assert!(Action::Backspace.is_edit());
    assert!(Action::Delete.is_edit());
    assert!(!Action::Move(Motion::Left).is_edit());
    assert!(!Action::Select(Motion::Right).is_edit());
    assert!(!Action::SelectRange(0, 1).is_edit());
    assert!(!Action::SelectAll.is_edit());
}
