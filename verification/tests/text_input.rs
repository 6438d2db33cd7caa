use plantui::text_input::TextInput;

fn buf(text: &str, row: usize, col: usize) -> TextInput {
    let lines: Vec<Vec<char>> = text.split('\n').map(|l| l.chars().collect()).collect();
    let mut t = TextInput::from_lines(lines);
    t.cursor_position = (row, col);
    t
}

fn text_of(t: &TextInput) -> String {
    let lines: Vec<String> = t.lines.iter().map(|l| l.iter().collect()).collect();
    lines.join("\n")
}

#[test]
fn insert_char_advances_cursor() {
    let mut t = buf("Alice -> Bob: Hello", 0, 5);
    t.enter_char('X');
    assert_eq!(text_of(&t), "AliceX -> Bob: Hello");
    assert_eq!(t.cursor_position, (0, 6));
}

#[test]
fn insert_then_delete_backward_restores_buffer() {
    let mut t = buf("Alice -> Bob: Hello", 0, 5);
    t.enter_char('X');
    t.delete_char_backward();
    assert_eq!(text_of(&t), "Alice -> Bob: Hello");
    assert_eq!(t.cursor_position, (0, 5));
}

#[test]
fn insert_then_delete_backward_restores_multiline_buffer() {
    let mut t = buf("one\ntwo\nthree", 1, 2);
    t.enter_char('z');
    t.delete_char_backward();
    assert_eq!(text_of(&t), "one\ntwo\nthree");
    assert_eq!(t.cursor_position, (1, 2));
}

#[test]
fn enter_newline_splits_line() {
    let mut t = buf("hello world", 0, 5);
    t.enter_char('\n');
    assert_eq!(text_of(&t), "hello\n world");
    assert_eq!(t.cursor_position, (0, 5));
}

#[test]
fn delete_backward_at_document_start_is_noop() {
    let mut t = buf("abc\ndef", 0, 0);
    t.delete_char_backward();
    assert_eq!(text_of(&t), "abc\ndef");
    assert_eq!(t.cursor_position, (0, 0));
}

#[test]
fn delete_backward_at_line_start_joins_lines() {
    let mut t = buf("abc\ndef", 1, 0);
    t.delete_char_backward();
    assert_eq!(text_of(&t), "abcdef");
    assert_eq!(t.cursor_position, (0, 3));
}

#[test]
fn delete_forward_at_document_end_is_noop() {
    let mut t = buf("abc\ndef", 1, 3);
    t.delete_char_forward();
    assert_eq!(text_of(&t), "abc\ndef");
    assert_eq!(t.cursor_position, (1, 3));
}

#[test]
fn delete_forward_at_line_end_joins_next_line_up() {
    let mut t = buf("abc\ndef", 0, 3);
    t.delete_char_forward();
    assert_eq!(text_of(&t), "abcdef");
    assert_eq!(t.cursor_position, (0, 3));
}

#[test]
fn delete_forward_removes_character_at_cursor() {
    let mut t = buf("abc", 0, 1);
    t.delete_char_forward();
    assert_eq!(text_of(&t), "ac");
    assert_eq!(t.cursor_position, (0, 1));
}

#[test]
fn move_right_clamps_to_line_length() {
    let mut t = buf("Alice -> Bob: Hello", 0, 5);
    t.move_cursor_right();
    t.move_cursor_right();
    t.move_cursor_right();
    t.move_cursor_right();
    assert_eq!(t.cursor_position, (0, 9));
    for _ in 0..30 {
        t.move_cursor_right();
    }
    assert_eq!(t.cursor_position, (0, 19));
}

#[test]
fn move_left_clamps_at_zero() {
    let mut t = buf("ab", 0, 1);
    t.move_cursor_left();
    assert_eq!(t.cursor_position, (0, 0));
    t.move_cursor_left();
    assert_eq!(t.cursor_position, (0, 0));
}

#[test]
fn move_up_and_down_clamp_column_to_line_length() {
    let mut t = buf("long line here\nab\nanother long line", 0, 10);
    t.move_cursor_down();
    assert_eq!(t.cursor_position, (1, 2));
    t.move_cursor_down();
    assert_eq!(t.cursor_position, (2, 2));
    t.move_cursor_down();
    assert_eq!(t.cursor_position, (2, 2));
    t.move_cursor_up();
    t.move_cursor_up();
    assert_eq!(t.cursor_position, (0, 2));
    t.move_cursor_up();
    assert_eq!(t.cursor_position, (0, 2));
}

#[test]
fn line_start_is_idempotent() {
    let mut t = buf("hello", 0, 4);
    t.move_cursor_line_start();
    let once = t.cursor_position;
    t.move_cursor_line_start();
    assert_eq!(t.cursor_position, once);
    assert_eq!(once, (0, 0));
}

#[test]
fn line_end_sets_column_to_length() {
    let mut t = buf("hello\nworld!", 1, 1);
    t.move_cursor_line_end();
    assert_eq!(t.cursor_position, (1, 6));
}

#[test]
fn enter_str_types_each_character() {
    let mut t = buf("", 0, 0);
    t.enter_str("xyz");
    assert_eq!(text_of(&t), "xyz");
    assert_eq!(t.cursor_position, (0, 3));
}

#[test]
fn enter_str_with_newline_leaves_cursor_on_upper_line() {
    // Inserting a line break does not move the cursor down, so the
    // characters after it still land on the upper line.
    let mut t = buf("", 0, 0);
    t.enter_str("ab\ncd");
    assert_eq!(text_of(&t), "abcd\n");
    assert_eq!(t.cursor_position, (0, 4));
}

#[test]
fn multibyte_characters_count_as_single_columns() {
    let mut t = buf("héllo", 0, 2);
    t.delete_char_backward();
    assert_eq!(text_of(&t), "hllo");
    assert_eq!(t.cursor_position, (0, 1));
    t.enter_char('é');
    assert_eq!(text_of(&t), "héllo");
    assert_eq!(t.cursor_position, (0, 2));
}

#[test]
fn invariants_hold_over_an_edit_sequence() {
    let mut t = buf("abc\ndef", 0, 0);
    let keep = |t: &TextInput| {
        assert!(!t.lines.is_empty());
        assert!(t.cursor_position.0 < t.lines.len());
        assert!(t.cursor_position.1 <= t.lines[t.cursor_position.0].len());
    };
    for c in "xy\nz".chars() {
        t.enter_char(c);
        keep(&t);
    }
    for _ in 0..10 {
        t.delete_char_backward();
        keep(&t);
    }
    for _ in 0..10 {
        t.delete_char_forward();
        keep(&t);
    }
}

#[test]
fn new_buffer_is_one_empty_line() {
    let t = TextInput::new();
    assert_eq!(t.lines.len(), 1);
    assert!(t.lines[0].is_empty());
    assert_eq!(t.cursor_position, (0, 0));
}

#[test]
fn from_lines_of_nothing_is_one_empty_line() {
    let t = TextInput::from_lines(Vec::new());
    assert_eq!(t.lines.len(), 1);
    assert!(t.lines[0].is_empty());
    assert_eq!(t.cursor_position, (0, 0));
}

#[test]
fn reset_input_clears_document() {
    let mut t = buf("abc\ndef", 1, 2);
    t.reset_input();
    assert_eq!(text_of(&t), "");
    assert_eq!(t.cursor_position, (0, 0));
}
