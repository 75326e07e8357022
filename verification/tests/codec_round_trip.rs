use cli_te::buffer::Buffer;
use cli_te::codec::load;
use cli_te::codec::save;

fn chars(s: &str) -> Vec<char> {
    s.chars().collect()
}

fn lines_of(b: &Buffer) -> Vec<String> {
    let mut out: Vec<String> = Vec::new();
    let mut i = 0;
    while i < b.line_count() {
        out.push(b.line(i).iter().collect());
        i += 1;
    }
    out
}

fn saved(b: &Buffer) -> String {
    save(b).iter().collect()
}

#[test]
fn load_splits_on_line_breaks() {
    let b = load(&chars("ab\ncd"));
    assert_eq!(lines_of(&b), vec!["ab".to_string(), "cd".to_string()]);
    assert_eq!((b.cursor_line(), b.cursor_col()), (0, 0));
}

#[test]
fn load_empty_content_gives_one_empty_line() {
    let b = load(&chars(""));
    assert_eq!(lines_of(&b), vec![String::new()]);
}

#[test]
fn load_drops_empty_piece_after_trailing_break() {
    let b = load(&chars("ab\ncd\n"));
    assert_eq!(lines_of(&b), vec!["ab".to_string(), "cd".to_string()]);
}

#[test]
fn load_keeps_inner_blank_lines() {
    let b = load(&chars("a\n\nb"));
    assert_eq!(lines_of(&b), vec!["a".to_string(), String::new(), "b".to_string()]);
}

#[test]
fn load_single_break_gives_one_empty_line() {
    let b = load(&chars("\n"));
    assert_eq!(lines_of(&b), vec![String::new()]);
}

#[test]
fn save_joins_with_single_breaks_and_no_trailing_break() {
    let b = load(&chars("ab\ncd"));
    assert_eq!(saved(&b), "ab\ncd");
}

#[test]
fn save_single_line_adds_nothing() {
    let b = load(&chars("abc"));
    assert_eq!(saved(&b), "abc");
}

#[test]
fn load_then_save_reproduces_content_without_trailing_break() {
    for content in ["", "a", "ab\ncd", "a\n\nb", "x\ny\nz"] {
        let b = load(&chars(content));
        assert_eq!(saved(&b), content);
    }
}

#[test]
fn load_then_save_normalizes_one_trailing_break() {
    for (content, normalized) in [("ab\n", "ab"), ("ab\ncd\n", "ab\ncd"), ("\n", ""), ("a\n\n", "a\n")] {
        let b = load(&chars(content));
        assert_eq!(saved(&b), normalized);
    }
}

#[test]
fn save_after_edits_reflects_buffer() {
    let mut b = load(&chars("ab\ncd"));
    b.insert_char('x');
    assert_eq!(saved(&b), "xab\ncd");
    b.split_line();
    assert_eq!(saved(&b), "x\nab\ncd");
}
