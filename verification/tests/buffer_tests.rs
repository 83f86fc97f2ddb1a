use edcore::buffer::EditBuffer;

fn cs(s: &str) -> Vec<char> {
    s.chars().collect()
}

fn loaded(s: &str) -> EditBuffer {
    let mut b = EditBuffer::new();
    b.load(&cs(s));
    b
}

#[test]
fn new_buffer_is_empty() {
    let b = EditBuffer::new();
    assert!(b.is_empty());
    assert_eq!(b.num_lines(), 0);
}

#[test]
fn load_three_lines() {
    let b = loaded("a\nb\nc");
    assert_eq!(b.num_lines(), 3);
    assert_eq!(b.line_copy(0), cs("a"));
    assert_eq!(b.line_copy(1), cs("b"));
    assert_eq!(b.line_copy(2), cs("c"));
}

#[test]
fn load_trailing_newline_keeps_empty_line() {
    let b = loaded("a\nb\n");
    assert_eq!(b.num_lines(), 3);
    assert_eq!(b.line_copy(0), cs("a"));
    assert_eq!(b.line_copy(1), cs("b"));
    assert_eq!(b.line_copy(2), cs(""));
}

#[test]
fn load_empty_text_is_one_empty_line() {
    let b = loaded("");
    assert_eq!(b.num_lines(), 1);
    assert_eq!(b.line_copy(0), cs(""));
    assert!(!b.is_empty());
}

#[test]
fn load_replaces_previous_content() {
    let mut b = loaded("old text\nhere");
    b.load(&cs("x"));
    assert_eq!(b.num_lines(), 1);
    assert_eq!(b.line_copy(0), cs("x"));
}

#[test]
fn insert_char_middle_and_append() {
    let mut b = loaded("hello");
    b.insert_char(0, 2, 'X');
    assert_eq!(b.line_copy(0), cs("heXllo"));
    b.insert_char(0, 6, 'Y');
    assert_eq!(b.line_copy(0), cs("heXlloY"));
}

#[test]
fn remove_char_shrinks_line() {
    let mut b = loaded("abc");
    b.remove_char(0, 1);
    assert_eq!(b.line_copy(0), cs("ac"));
}

#[test]
fn split_line_in_middle() {
    let mut b = loaded("hello");
    b.split_line(0, 2);
    assert_eq!(b.num_lines(), 2);
    assert_eq!(b.line_copy(0), cs("he"));
    assert_eq!(b.line_copy(1), cs("llo"));
}

#[test]
fn split_line_on_empty_buffer_makes_two_empty_lines() {
    let mut b = EditBuffer::new();
    b.split_line(0, 0);
    assert_eq!(b.num_lines(), 2);
    assert_eq!(b.line_copy(0), cs(""));
    assert_eq!(b.line_copy(1), cs(""));
}

#[test]
fn merge_with_previous_joins_lines_and_reports_offset() {
    let mut b = loaded("foo\nbar");
    let prev_len = b.merge_with_previous(1);
    assert_eq!(prev_len, 3);
    assert_eq!(b.num_lines(), 1);
    assert_eq!(b.line_copy(0), cs("foobar"));
}

#[test]
fn split_then_merge_round_trips() {
    for col in 0..6 {
        let mut b = loaded("hello");
        b.split_line(0, col);
        let prev_len = b.merge_with_previous(1);
        assert_eq!(prev_len, col);
        assert_eq!(b.num_lines(), 1);
        assert_eq!(b.line_copy(0), cs("hello"));
    }
}

#[test]
fn set_path_keeps_text() {
    let mut b = loaded("abc");
    b.set_path(&cs("notes.txt"));
    assert_eq!(b.num_lines(), 1);
    assert_eq!(b.line_copy(0), cs("abc"));
}

#[test]
fn char_at_and_line_len() {
    let b = loaded("wide\nw");
    assert_eq!(b.line_len(0), 4);
    assert_eq!(b.line_len(1), 1);
    assert_eq!(b.char_at(0, 3), 'e');
    assert_eq!(b.char_at(1, 0), 'w');
}
