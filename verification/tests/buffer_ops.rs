use reditor::buffer::Buffer;
use reditor::editor::{Cursor, Direction, Mode};

fn row(s: &str) -> Vec<char> {
    s.chars().collect()
}

fn rows(b: &Buffer) -> Vec<String> {
    b.content.iter().map(|l| l.iter().collect()).collect()
}

fn buf(lines: &[&str], x: usize, y: usize) -> Buffer {
    Buffer { name: None, content: lines.iter().map(|s| row(s)).collect(), cursor: Cursor::new(x, y) }
}

#[test]
fn mock_is_the_two_line_seed() {
    let b = Buffer::mock();
    assert_eq!(rows(&b), vec!["Hello".to_string(), "Hi".to_string()]);
    assert_eq!(b.cursor, Cursor::new(0, 0));
    assert!(b.name.is_none());
}

#[test]
fn line_width_in_and_out_of_range() {
    let b = Buffer::mock();
    assert_eq!(b.line_width(0), Some(5));
    assert_eq!(b.line_width(1), Some(2));
    assert_eq!(b.line_width(2), None);
}

#[test]
fn current_line_width_follows_cursor() {
    let mut b = Buffer::mock();
    assert_eq!(b.current_line_width(), Some(5));
    b.cursor = Cursor::new(0, 1);
    assert_eq!(b.current_line_width(), Some(2));
    b.cursor = Cursor::new(0, 9);
    assert_eq!(b.current_line_width(), None);
}

#[test]
fn height_counts_rows() {
    assert_eq!(Buffer::mock().height(), 2);
    assert_eq!(buf(&["a"], 0, 0).height(), 1);
}

#[test]
fn insert_at_mid_row() {
    let mut b = buf(&["Hello", "Hi"], 3, 0);
    b.insert_at('X');
    assert_eq!(rows(&b), vec!["HelXlo".to_string(), "Hi".to_string()]);
    assert_eq!(b.cursor, Cursor::new(3, 0));
}

#[test]
fn insert_at_end_of_line_slot() {
    let mut b = buf(&["Hi"], 2, 0);
    b.insert_at('!');
    assert_eq!(rows(&b), vec!["Hi!".to_string()]);
}

#[test]
fn insert_at_out_of_range_is_a_no_op() {
    let mut b = buf(&["Hi"], 0, 5);
    b.insert_at('X');
    assert_eq!(rows(&b), vec!["Hi".to_string()]);
    let mut b = buf(&["Hi"], 3, 0);
    b.insert_at('X');
    assert_eq!(rows(&b), vec!["Hi".to_string()]);
}

#[test]
fn new_line_shifts_rows_down() {
    let mut b = buf(&["a", "b"], 0, 0);
    b.new_line(1);
    assert_eq!(rows(&b), vec!["a".to_string(), "".to_string(), "b".to_string()]);
}

#[test]
fn new_line_at_bounds() {
    let mut b = buf(&["a"], 0, 0);
    b.new_line(0);
    assert_eq!(rows(&b), vec!["".to_string(), "a".to_string()]);
    b.new_line(2);
    assert_eq!(rows(&b), vec!["".to_string(), "a".to_string(), "".to_string()]);
    b.new_line(9);
    assert_eq!(b.height(), 3);
}

#[test]
fn break_line_splits_at_cursor() {
    let mut b = buf(&["Hello", "Hi"], 2, 0);
    b.break_line();
    assert_eq!(rows(&b), vec!["He".to_string(), "llo".to_string(), "Hi".to_string()]);
    assert_eq!(b.cursor, Cursor::new(2, 0));
}

#[test]
fn break_line_at_end_opens_empty_row() {
    let mut b = buf(&["Hello", "Hi"], 5, 0);
    b.break_line();
    assert_eq!(rows(&b), vec!["Hello".to_string(), "".to_string(), "Hi".to_string()]);
}

#[test]
fn break_line_out_of_range_is_a_no_op() {
    let mut b = buf(&["Hello"], 6, 0);
    b.break_line();
    assert_eq!(rows(&b), vec!["Hello".to_string()]);
    let mut b = buf(&["Hello"], 0, 1);
    b.break_line();
    assert_eq!(rows(&b), vec!["Hello".to_string()]);
}

#[test]
fn delete_at_without_direction_removes_under_cursor() {
    let mut b = buf(&["Hello"], 1, 0);
    b.delete_at(None);
    assert_eq!(rows(&b), vec!["Hllo".to_string()]);
}

#[test]
fn delete_at_left_removes_before_cursor() {
    let mut b = buf(&["Hello"], 2, 0);
    b.delete_at(Some(Direction::Left));
    assert_eq!(rows(&b), vec!["Hllo".to_string()]);
    assert_eq!(b.cursor, Cursor::new(2, 0));
}

#[test]
fn delete_at_vertical_targets_neighbour_rows() {
    let mut b = buf(&["ab", "cd", "ef"], 1, 1);
    b.delete_at(Some(Direction::Up));
    assert_eq!(rows(&b), vec!["a".to_string(), "cd".to_string(), "ef".to_string()]);
    b.delete_at(Some(Direction::Down));
    assert_eq!(rows(&b), vec!["a".to_string(), "cd".to_string(), "e".to_string()]);
}

#[test]
fn delete_at_right_removes_after_cursor() {
    let mut b = buf(&["abc"], 0, 0);
    b.delete_at(Some(Direction::Right));
    assert_eq!(rows(&b), vec!["ac".to_string()]);
}

#[test]
fn delete_at_out_of_range_is_a_no_op() {
    let mut b = buf(&["ab"], 0, 0);
    b.delete_at(Some(Direction::Up));
    assert_eq!(rows(&b), vec!["ab".to_string()]);
    let mut b = buf(&["ab"], 0, 0);
    b.delete_at(Some(Direction::Left));
    assert_eq!(rows(&b), vec!["ab".to_string()]);
    let mut b = buf(&["ab"], 2, 0);
    b.delete_at(None);
    assert_eq!(rows(&b), vec!["ab".to_string()]);
    let mut b = buf(&["ab"], 0, 1);
    b.delete_at(Some(Direction::Down));
    assert_eq!(rows(&b), vec!["ab".to_string()]);
}

#[test]
fn concat_lines_joins_onto_previous() {
    let mut b = buf(&["Hello", "Hi"], 0, 1);
    b.concat_lines(1, 0);
    assert_eq!(rows(&b), vec!["HelloHi".to_string()]);
}

#[test]
fn concat_lines_missing_target_drops_text() {
    let mut b = buf(&["only"], 0, 0);
    b.concat_lines(0, 5);
    assert_eq!(b.height(), 0);
}

#[test]
fn concat_lines_missing_source_is_a_no_op() {
    let mut b = buf(&["a", "b"], 0, 0);
    b.concat_lines(2, 0);
    assert_eq!(rows(&b), vec!["a".to_string(), "b".to_string()]);
}

#[test]
fn delete_line_removes_a_row() {
    let mut b = buf(&["a", "b", "c"], 0, 0);
    b.delete_line(1);
    assert_eq!(rows(&b), vec!["a".to_string(), "c".to_string()]);
}

#[test]
fn delete_line_never_leaves_zero_rows() {
    let mut b = buf(&["only"], 0, 0);
    b.delete_line(0);
    assert_eq!(rows(&b), vec!["".to_string()]);
}

#[test]
fn delete_line_out_of_range_is_a_no_op() {
    let mut b = buf(&["a"], 0, 0);
    b.delete_line(3);
    assert_eq!(rows(&b), vec!["a".to_string()]);
}

#[test]
fn move_cursor_start_and_end_of_the_line() {
    let mut b = buf(&["Hello"], 3, 0);
    b.move_cursor_start_of_the_line();
    assert_eq!(b.cursor, Cursor::new(0, 0));
    b.move_cursor_end_of_the_line();
    assert_eq!(b.cursor, Cursor::new(5, 0));
    b.cursor = Cursor::new(2, 7);
    b.move_cursor_end_of_the_line();
    assert_eq!(b.cursor, Cursor::new(0, 7));
}

#[test]
fn movement_up_clamps_column_to_target_row() {
    let mut b = buf(&["Hi", "Hello"], 4, 1);
    b.handle_cursor_movment(Mode::Normal, Direction::Up);
    assert_eq!(b.cursor, Cursor::new(1, 0));
}

#[test]
fn movement_up_at_top_stays() {
    let mut b = buf(&["Hello", "Hi"], 4, 0);
    b.handle_cursor_movment(Mode::Normal, Direction::Up);
    assert_eq!(b.cursor, Cursor::new(4, 0));
}

#[test]
fn movement_down_clamps_row_and_column() {
    let mut b = buf(&["Hello", "Hi"], 4, 0);
    b.handle_cursor_movment(Mode::Normal, Direction::Down);
    assert_eq!(b.cursor, Cursor::new(1, 1));
    b.handle_cursor_movment(Mode::Normal, Direction::Down);
    assert_eq!(b.cursor, Cursor::new(1, 1));
}

#[test]
fn movement_left_stops_at_zero() {
    let mut b = buf(&["Hello"], 1, 0);
    b.handle_cursor_movment(Mode::Normal, Direction::Left);
    assert_eq!(b.cursor, Cursor::new(0, 0));
    b.handle_cursor_movment(Mode::Normal, Direction::Left);
    assert_eq!(b.cursor, Cursor::new(0, 0));
}

#[test]
fn movement_right_normal_stops_on_last_character() {
    let mut b = buf(&["Hi"], 0, 0);
    b.handle_cursor_movment(Mode::Normal, Direction::Right);
    assert_eq!(b.cursor, Cursor::new(1, 0));
    b.handle_cursor_movment(Mode::Normal, Direction::Right);
    assert_eq!(b.cursor, Cursor::new(1, 0));
}

#[test]
fn movement_right_insert_reaches_end_of_line_slot() {
    let mut b = buf(&["Hi"], 1, 0);
    b.handle_cursor_movment(Mode::Insert, Direction::Right);
    assert_eq!(b.cursor, Cursor::new(2, 0));
    b.handle_cursor_movment(Mode::Insert, Direction::Right);
    assert_eq!(b.cursor, Cursor::new(2, 0));
}

#[test]
fn movement_right_on_empty_row_stays_at_zero() {
    let mut b = buf(&[""], 0, 0);
    b.handle_cursor_movment(Mode::Normal, Direction::Right);
    assert_eq!(b.cursor, Cursor::new(0, 0));
    b.handle_cursor_movment(Mode::Insert, Direction::Right);
    assert_eq!(b.cursor, Cursor::new(0, 0));
}

#[test]
fn break_then_concat_restores_the_row() {
    let mut b = buf(&["Hello", "Hi"], 2, 0);
    b.break_line();
    b.concat_lines(1, 0);
    assert_eq!(rows(&b), vec!["Hello".to_string(), "Hi".to_string()]);
    assert_eq!(b.cursor, Cursor::new(2, 0));
}

#[test]
fn insert_then_delete_restores_the_row() {
    let mut b = buf(&["Hello"], 3, 0);
    b.insert_at('Z');
    b.delete_at(None);
    assert_eq!(rows(&b), vec!["Hello".to_string()]);
    assert_eq!(b.cursor, Cursor::new(3, 0));
}
