use plantui::text_input::TextInput;
use plantui::viewport::{Rect, ScreenPosition};

fn buf(text: &str, row: usize, col: usize) -> TextInput {
    let lines: Vec<Vec<char>> = text.split('\n').map(|l| l.chars().collect()).collect();
    let mut t = TextInput::from_lines(lines);
    t.cursor_position = (row, col);
    t
}

fn many_lines(n: usize) -> String {
    let lines: Vec<String> = (0..n).map(|i| format!("line {}", i)).collect();
    lines.join("\n")
}

#[test]
fn no_scrolling_near_the_top_left() {
    let t = buf("a\nb\nc", 1, 0);
    let (v, h) = t.calculate_scroll_offset(10, 20);
    assert_eq!((v, h), (0, 0));
}

#[test]
fn vertical_offset_centers_cursor() {
    // 40 lines, viewport 10 high, cursor on row 20: offset = 20 - 5 = 15.
    let t = buf(&many_lines(40), 20, 0);
    let (v, _) = t.calculate_scroll_offset(10, 20);
    assert_eq!(v, 15);
}

#[test]
fn vertical_offset_stops_at_document_end() {
    // 12 lines, viewport 10 high, cursor on last row: offset capped at 2.
    let t = buf(&many_lines(12), 11, 0);
    let (v, _) = t.calculate_scroll_offset(10, 20);
    assert_eq!(v, 2);
}

#[test]
fn vertical_offset_zero_when_document_fits() {
    let t = buf(&many_lines(5), 4, 0);
    let (v, _) = t.calculate_scroll_offset(10, 20);
    assert_eq!(v, 0);
}

#[test]
fn horizontal_offset_follows_cursor_past_half_width() {
    let t = buf("abcdefghijklmnopqrstuvwxyz", 0, 26);
    // width 20: threshold is col > 11, offset = col - 10 = 16.
    let (_, h) = t.calculate_scroll_offset(10, 20);
    assert_eq!(h, 16);
    // col exactly at the threshold stays unscrolled.
    let t = buf("abcdefghijklmnopqrstuvwxyz", 0, 11);
    let (_, h) = t.calculate_scroll_offset(10, 20);
    assert_eq!(h, 0);
    let t = buf("abcdefghijklmnopqrstuvwxyz", 0, 12);
    let (_, h) = t.calculate_scroll_offset(10, 20);
    assert_eq!(h, 2);
}

#[test]
fn cursor_projects_into_the_area() {
    let t = buf("hello\nworld", 1, 3);
    let area = Rect { x: 2, y: 1, width: 20, height: 10 };
    let p = t.get_cursor_screen_position(area, 0, 0);
    assert_eq!(p, Some(ScreenPosition { x: 5, y: 2 }));
}

#[test]
fn cursor_projection_subtracts_offsets() {
    let t = buf(&many_lines(40), 20, 4);
    let area = Rect { x: 0, y: 0, width: 20, height: 10 };
    let p = t.get_cursor_screen_position(area, 15, 0);
    assert_eq!(p, Some(ScreenPosition { x: 4, y: 5 }));
}

#[test]
fn cursor_out_of_view_is_not_drawn() {
    let t = buf(&many_lines(40), 20, 0);
    // Not scrolled: row 20 falls outside a 10-row viewport.
    let area = Rect { x: 0, y: 0, width: 20, height: 10 };
    assert_eq!(t.get_cursor_screen_position(area, 0, 0), None);
    // Column past the width with no horizontal scroll.
    let t = buf("abcdefghijklmnopqrstuvwxyz", 0, 25);
    let area = Rect { x: 0, y: 0, width: 10, height: 5 };
    assert_eq!(t.get_cursor_screen_position(area, 0, 0), None);
}

#[test]
fn clamp_cursor_width_caps_at_line_length() {
    let t = buf("abc\nlonger line", 0, 0);
    assert_eq!(t.clamp_cursor_width(0, 2), 2);
    assert_eq!(t.clamp_cursor_width(0, 7), 3);
    assert_eq!(t.clamp_cursor_width(1, 7), 7);
}
