use edcore::editor::Editor;
use edcore::geom::clamp;
use edcore::input::{Command, Key, KeyInput, Mods, decode_key};

fn cs(s: &str) -> Vec<char> {
    s.chars().collect()
}

fn editor_with(text: &str, w: usize, h: usize) -> Editor {
    let mut e = Editor::new();
    e.buffer.load(&cs(text));
    e.on_resize(w, h);
    e
}

fn key(k: Key, m: Mods) -> KeyInput {
    KeyInput { key: k, mods: m }
}

#[test]
fn clamp_picks_the_nearest_bound() {
    assert_eq!(clamp(5, 0, 3), 3);
    assert_eq!(clamp(1, 2, 9), 2);
    assert_eq!(clamp(4, 0, 9), 4);
}

#[test]
fn new_editor_starts_at_origin() {
    let e = Editor::new();
    assert!(!e.exit);
    assert_eq!((e.cursor.x, e.cursor.y), (0, 0));
    assert_eq!(e.buffer.num_lines(), 0);
}

#[test]
fn set_cursor_clamps_out_of_range_targets() {
    let mut e = editor_with("ab", 10, 5);
    let changed = e.set_cursor(100, 100);
    assert!(changed);
    assert_eq!((e.cursor.x, e.cursor.y), (2, 0));
    // the cursor stays inside the viewport
    assert!(e.view.pos.x <= e.cursor.x && e.cursor.x < e.view.pos.x + e.view.size.x);
    assert!(e.view.pos.y <= e.cursor.y && e.cursor.y < e.view.pos.y + e.view.size.y);
}

#[test]
fn set_cursor_on_empty_buffer_stays_at_origin() {
    let mut e = editor_with("", 10, 5);
    // "" loads as one empty line; a truly empty buffer is a fresh editor
    let mut empty = Editor::new();
    empty.on_resize(10, 5);
    let changed = empty.set_cursor(7, 3);
    assert!(!changed);
    assert_eq!((empty.cursor.x, empty.cursor.y), (0, 0));
    // one empty line: column clamps to 0
    let changed = e.set_cursor(7, 3);
    assert!(!changed);
    assert_eq!((e.cursor.x, e.cursor.y), (0, 0));
}

#[test]
fn set_cursor_twice_reports_no_change() {
    let mut e = editor_with("hello\nworld", 10, 5);
    let first = e.set_cursor(3, 1);
    let second = e.set_cursor(3, 1);
    assert!(first);
    assert!(!second);
    assert_eq!((e.cursor.x, e.cursor.y), (3, 1));
}

#[test]
fn moving_down_past_window_scrolls_minimally() {
    let mut e = editor_with("hello\nworld", 10, 1);
    let changed = e.offset_cursor(0, 1);
    assert!(changed);
    assert_eq!((e.cursor.x, e.cursor.y), (0, 1));
    assert_eq!(e.view.pos.y, 1);
}

#[test]
fn moving_up_scrolls_back_to_cursor() {
    let mut e = editor_with("a\nb\nc", 10, 1);
    e.offset_cursor(0, 2);
    assert_eq!(e.view.pos.y, 2);
    e.offset_cursor(0, -2);
    assert_eq!((e.cursor.x, e.cursor.y), (0, 0));
    assert_eq!(e.view.pos.y, 0);
}

#[test]
fn moving_to_shorter_line_clamps_column() {
    let mut e = editor_with("abcdef\nxy", 10, 5);
    e.set_cursor(6, 0);
    let changed = e.offset_cursor(0, 1);
    assert!(changed);
    assert_eq!((e.cursor.x, e.cursor.y), (2, 1));
}

#[test]
fn insert_char_at_end_of_line() {
    let mut e = editor_with("hello", 10, 5);
    e.set_cursor(5, 0);
    e.insert_char('X');
    assert_eq!(e.buffer.line_copy(0), cs("helloX"));
    assert_eq!((e.cursor.x, e.cursor.y), (6, 0));
}

#[test]
fn insert_char_on_empty_buffer_makes_first_line() {
    let mut e = Editor::new();
    e.on_resize(10, 5);
    e.insert_char('X');
    assert_eq!(e.buffer.num_lines(), 1);
    assert_eq!(e.buffer.line_copy(0), cs("X"));
    assert_eq!((e.cursor.x, e.cursor.y), (1, 0));
}

#[test]
fn enter_splits_line_at_cursor() {
    let mut e = editor_with("hello", 10, 5);
    e.set_cursor(2, 0);
    e.key_enter();
    assert_eq!(e.buffer.num_lines(), 2);
    assert_eq!(e.buffer.line_copy(0), cs("he"));
    assert_eq!(e.buffer.line_copy(1), cs("llo"));
    assert_eq!((e.cursor.x, e.cursor.y), (0, 1));
}

#[test]
fn enter_on_empty_buffer_makes_two_blank_lines() {
    let mut e = Editor::new();
    e.on_resize(10, 5);
    e.key_enter();
    assert_eq!(e.buffer.num_lines(), 2);
    assert_eq!(e.buffer.line_copy(0), cs(""));
    assert_eq!(e.buffer.line_copy(1), cs(""));
    assert_eq!((e.cursor.x, e.cursor.y), (0, 1));
}

#[test]
fn backspace_at_line_start_merges_lines() {
    let mut e = editor_with("foo\nbar", 10, 5);
    e.set_cursor(0, 1);
    let redraw = e.key_backspace();
    assert!(redraw);
    assert_eq!(e.buffer.num_lines(), 1);
    assert_eq!(e.buffer.line_copy(0), cs("foobar"));
    assert_eq!((e.cursor.x, e.cursor.y), (3, 0));
}

#[test]
fn backspace_mid_line_removes_previous_char() {
    let mut e = editor_with("abc", 10, 5);
    e.set_cursor(2, 0);
    let redraw = e.key_backspace();
    assert!(redraw);
    assert_eq!(e.buffer.line_copy(0), cs("ac"));
    assert_eq!((e.cursor.x, e.cursor.y), (1, 0));
}

#[test]
fn backspace_at_document_start_does_nothing() {
    let mut e = editor_with("abc", 10, 5);
    let redraw = e.key_backspace();
    assert!(!redraw);
    assert_eq!(e.buffer.line_copy(0), cs("abc"));
    assert_eq!((e.cursor.x, e.cursor.y), (0, 0));
}

#[test]
fn split_then_backspace_round_trips() {
    let mut e = editor_with("hello", 10, 5);
    e.set_cursor(2, 0);
    e.key_enter();
    let redraw = e.key_backspace();
    assert!(redraw);
    assert_eq!(e.buffer.num_lines(), 1);
    assert_eq!(e.buffer.line_copy(0), cs("hello"));
    assert_eq!((e.cursor.x, e.cursor.y), (2, 0));
}

#[test]
fn decode_control_c_quits() {
    assert_eq!(decode_key(key(Key::Char('c'), Mods::Control)), Command::Quit);
    assert_eq!(decode_key(key(Key::Char('x'), Mods::Control)), Command::Ignore);
}

#[test]
fn decode_plain_and_shifted_chars_insert() {
    assert_eq!(decode_key(key(Key::Char('q'), Mods::Plain)), Command::Insert('q'));
    assert_eq!(decode_key(key(Key::Char('Q'), Mods::Shift)), Command::Insert('Q'));
    assert_eq!(decode_key(key(Key::Char('q'), Mods::Other)), Command::Ignore);
}

#[test]
fn decode_tab_inserts_literal_tab() {
    assert_eq!(decode_key(key(Key::Tab, Mods::Plain)), Command::Insert('\t'));
    assert_eq!(decode_key(key(Key::Tab, Mods::Shift)), Command::Insert('\t'));
}

#[test]
fn decode_movement_keys() {
    assert_eq!(decode_key(key(Key::Down, Mods::Plain)), Command::MoveBy { dx: 0, dy: 1 });
    assert_eq!(decode_key(key(Key::Up, Mods::Plain)), Command::MoveBy { dx: 0, dy: -1 });
    assert_eq!(decode_key(key(Key::Left, Mods::Plain)), Command::MoveBy { dx: -1, dy: 0 });
    assert_eq!(decode_key(key(Key::Right, Mods::Plain)), Command::MoveBy { dx: 1, dy: 0 });
    assert_eq!(decode_key(key(Key::PageDown, Mods::Plain)), Command::PageDown);
    assert_eq!(decode_key(key(Key::PageUp, Mods::Plain)), Command::PageUp);
    assert_eq!(decode_key(key(Key::Home, Mods::Plain)), Command::Home);
    assert_eq!(decode_key(key(Key::End, Mods::Plain)), Command::End);
    assert_eq!(decode_key(key(Key::Enter, Mods::Plain)), Command::SplitLine);
    assert_eq!(decode_key(key(Key::Backspace, Mods::Plain)), Command::MergeBack);
    assert_eq!(decode_key(key(Key::Other, Mods::Plain)), Command::Ignore);
    assert_eq!(decode_key(key(Key::Down, Mods::Control)), Command::Ignore);
}

#[test]
fn on_key_event_quit_sets_exit_without_redraw() {
    let mut e = editor_with("abc", 10, 5);
    let redraw = e.on_key_event(key(Key::Char('c'), Mods::Control));
    assert!(!redraw);
    assert!(e.exit);
}

#[test]
fn on_key_event_typing_inserts_and_redraws() {
    let mut e = editor_with("abc", 10, 5);
    let redraw = e.on_key_event(key(Key::Char('Z'), Mods::Plain));
    assert!(redraw);
    assert_eq!(e.buffer.line_copy(0), cs("Zabc"));
}

#[test]
fn on_key_event_home_and_end() {
    let mut e = editor_with("hello", 10, 5);
    let redraw = e.on_key_event(key(Key::End, Mods::Plain));
    assert!(redraw);
    assert_eq!((e.cursor.x, e.cursor.y), (5, 0));
    let redraw = e.on_key_event(key(Key::Home, Mods::Plain));
    assert!(redraw);
    assert_eq!((e.cursor.x, e.cursor.y), (0, 0));
    // a second Home is a move to where the cursor already is
    let redraw = e.on_key_event(key(Key::Home, Mods::Plain));
    assert!(!redraw);
}

#[test]
fn page_down_moves_by_height_less_one() {
    let mut e = editor_with("a\nb\nc\nd\ne\nf\ng\nh", 10, 3);
    let redraw = e.on_key_event(key(Key::PageDown, Mods::Plain));
    assert!(redraw);
    assert_eq!(e.cursor.y, 2);
    let redraw = e.on_key_event(key(Key::PageDown, Mods::Plain));
    assert!(redraw);
    assert_eq!(e.cursor.y, 4);
}

#[test]
fn page_up_moves_by_height_plus_two() {
    let mut e = editor_with("a\nb\nc\nd\ne\nf\ng\nh", 10, 3);
    e.set_cursor(0, 7);
    let redraw = e.on_key_event(key(Key::PageUp, Mods::Plain));
    assert!(redraw);
    assert_eq!(e.cursor.y, 2);
}

#[test]
fn on_resize_sets_viewport_size() {
    let mut e = Editor::new();
    e.on_resize(80, 24);
    assert_eq!(e.view.size.x, 80);
    assert_eq!(e.view.size.y, 24);
    assert_eq!((e.view.pos.x, e.view.pos.y), (0, 0));
}

#[test]
fn on_idle_changes_nothing() {
    let mut e = editor_with("abc", 10, 5);
    e.set_cursor(1, 0);
    e.on_idle();
    assert_eq!((e.cursor.x, e.cursor.y), (1, 0));
    assert_eq!(e.buffer.num_lines(), 1);
    assert!(!e.exit);
}

#[test]
fn horizontal_scroll_follows_cursor() {
    let mut e = editor_with("abcdefghij", 4, 2);
    e.set_cursor(9, 0);
    assert_eq!((e.cursor.x, e.cursor.y), (9, 0));
    // origin scrolls so that column 9 is the last visible cell
    assert_eq!(e.view.pos.x, 6);
    e.set_cursor(0, 0);
    assert_eq!(e.view.pos.x, 0);
}
