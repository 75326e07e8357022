use cli_te::buffer::Buffer;

fn chars(s: &str) -> Vec<char> {
    s.chars().collect()
}

fn buf(lines: &[&str]) -> Buffer {
    let v: Vec<Vec<char>> = lines.iter().map(|s| chars(s)).collect();
    Buffer::from_lines(v)
}

fn lines_of(b: &Buffer) -> Vec<String> {
    let mut out: Vec<String> = Vec::new();
    let mut i = 0;
    while i < b.line_count() {
        out.push(b.line(i).iter().collect());
        i += 1;
    }
    out
}

#[test]
fn empty_buffer_has_one_empty_line() {
    let b = Buffer::empty();
    assert_eq!(lines_of(&b), vec![String::new()]);
    assert_eq!(b.cursor_line(), 0);
    assert_eq!(b.cursor_col(), 0);
}

#[test]
fn backspace_three_times_empties_line() {
    let mut b = buf(&["abc"]);
    b.move_right();
    b.move_right();
    b.move_right();
    assert_eq!((b.cursor_line(), b.cursor_col()), (0, 3));
    b.delete_before_cursor();
    b.delete_before_cursor();
    b.delete_before_cursor();
    assert_eq!(lines_of(&b), vec![String::new()]);
    assert_eq!((b.cursor_line(), b.cursor_col()), (0, 0));
}

#[test]
fn enter_at_end_of_first_line_splits() {
    let mut b = buf(&["ab", "cd"]);
    b.move_right();
    b.move_right();
    assert_eq!((b.cursor_line(), b.cursor_col()), (0, 2));
    b.split_line();
    assert_eq!(lines_of(&b), vec!["ab".to_string(), String::new(), "cd".to_string()]);
    assert_eq!((b.cursor_line(), b.cursor_col()), (1, 0));
}

#[test]
fn backspace_at_buffer_start_is_noop() {
    let mut b = buf(&["ab"]);
    b.delete_before_cursor();
    assert_eq!(lines_of(&b), vec!["ab".to_string()]);
    assert_eq!((b.cursor_line(), b.cursor_col()), (0, 0));
}

#[test]
fn backspace_at_column_zero_joins_lines() {
    let mut b = buf(&["ab", "cd"]);
    b.move_down();
    assert_eq!((b.cursor_line(), b.cursor_col()), (1, 0));
    b.delete_before_cursor();
    assert_eq!(lines_of(&b), vec!["abcd".to_string()]);
    assert_eq!((b.cursor_line(), b.cursor_col()), (0, 2));
}

#[test]
fn move_left_at_buffer_start_is_noop() {
    let mut b = buf(&["ab", "cd"]);
    b.move_left();
    assert_eq!(lines_of(&b), vec!["ab".to_string(), "cd".to_string()]);
    assert_eq!((b.cursor_line(), b.cursor_col()), (0, 0));
}

#[test]
fn move_right_at_buffer_end_is_noop() {
    let mut b = buf(&["ab"]);
    b.move_right();
    b.move_right();
    assert_eq!((b.cursor_line(), b.cursor_col()), (0, 2));
    b.move_right();
    assert_eq!((b.cursor_line(), b.cursor_col()), (0, 2));
}

#[test]
fn move_left_wraps_to_end_of_previous_line() {
    let mut b = buf(&["abc", "d"]);
    b.move_down();
    b.move_left();
    assert_eq!((b.cursor_line(), b.cursor_col()), (0, 3));
}

#[test]
fn move_right_wraps_to_start_of_next_line() {
    let mut b = buf(&["a", "bc"]);
    b.move_right();
    b.move_right();
    assert_eq!((b.cursor_line(), b.cursor_col()), (1, 0));
}

#[test]
fn vertical_moves_clamp_column_to_line_length() {
    let mut b = buf(&["abcd", "x", "wxyz"]);
    b.move_right();
    b.move_right();
    b.move_right();
    b.move_right();
    assert_eq!((b.cursor_line(), b.cursor_col()), (0, 4));
    b.move_down();
    assert_eq!((b.cursor_line(), b.cursor_col()), (1, 1));
    b.move_down();
    assert_eq!((b.cursor_line(), b.cursor_col()), (2, 1));
    b.move_up();
    assert_eq!((b.cursor_line(), b.cursor_col()), (1, 1));
}

#[test]
fn move_up_at_first_line_is_noop() {
    let mut b = buf(&["ab", "cd"]);
    b.move_up();
    assert_eq!((b.cursor_line(), b.cursor_col()), (0, 0));
}

#[test]
fn move_down_at_last_line_is_noop() {
    let mut b = buf(&["ab"]);
    b.move_down();
    assert_eq!((b.cursor_line(), b.cursor_col()), (0, 0));
}

#[test]
fn insert_char_inserts_at_cursor_and_advances() {
    let mut b = buf(&["ac"]);
    b.move_right();
    b.insert_char('b');
    assert_eq!(lines_of(&b), vec!["abc".to_string()]);
    assert_eq!((b.cursor_line(), b.cursor_col()), (0, 2));
}

#[test]
fn insert_into_empty_line() {
    let mut b = Buffer::empty();
    b.insert_char('a');
    assert_eq!(lines_of(&b), vec!["a".to_string()]);
    assert_eq!((b.cursor_line(), b.cursor_col()), (0, 1));
}

#[test]
fn split_in_middle_of_line() {
    let mut b = buf(&["abcd"]);
    b.move_right();
    b.move_right();
    b.split_line();
    assert_eq!(lines_of(&b), vec!["ab".to_string(), "cd".to_string()]);
    assert_eq!((b.cursor_line(), b.cursor_col()), (1, 0));
}

#[test]
fn split_then_backspace_restores_line_and_cursor() {
    let mut b = buf(&["hello"]);
    b.move_right();
    b.move_right();
    b.move_right();
    b.split_line();
    assert_eq!(lines_of(&b), vec!["hel".to_string(), "lo".to_string()]);
    b.delete_before_cursor();
    assert_eq!(lines_of(&b), vec!["hello".to_string()]);
    assert_eq!((b.cursor_line(), b.cursor_col()), (0, 3));
}
