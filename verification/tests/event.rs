use plantui::event::{handle_event, AppCommand, InputEvent};
use plantui::text_input::TextInput;

fn buf(text: &str, row: usize, col: usize) -> TextInput {
    let lines: Vec<Vec<char>> = text.split('\n').map(|l| l.chars().collect()).collect();
    let mut t = TextInput::from_lines(lines);
    t.cursor_position = (row, col);
    t
}

fn text_of(t: &TextInput) -> String {
    let lines: Vec<String> = t.lines.iter().map(|l| l.iter().collect()).collect();
    lines.join("\n")
}

#[test]
fn typing_a_character_edits_and_renders() {
    let mut t = buf("ab", 0, 1);
    let r = handle_event(&mut t, InputEvent::Char('x'));
    assert_eq!(text_of(&t), "axb");
    assert_eq!(t.cursor_position, (0, 2));
    assert!(r.should_render);
    assert!(!r.missed_input);
    assert!(r.command.is_none());
}

#[test]
fn enter_splits_and_moves_down() {
    let mut t = buf("hello", 0, 2);
    let r = handle_event(&mut t, InputEvent::Enter);
    assert_eq!(text_of(&t), "he\nllo");
    assert_eq!(t.cursor_position, (1, 2));
    assert!(r.should_render);
}

#[test]
fn deletions_render_and_moves_do_not() {
    let mut t = buf("abc", 0, 1);
    let r = handle_event(&mut t, InputEvent::Backspace);
    assert_eq!(text_of(&t), "bc");
    assert!(r.should_render);
    let r = handle_event(&mut t, InputEvent::Delete);
    assert_eq!(text_of(&t), "c");
    assert!(r.should_render);
    let r = handle_event(&mut t, InputEvent::Right);
    assert_eq!(t.cursor_position, (0, 1));
    assert!(!r.should_render);
    let r = handle_event(&mut t, InputEvent::Home);
    assert_eq!(t.cursor_position, (0, 0));
    assert!(!r.should_render);
    let r = handle_event(&mut t, InputEvent::End);
    assert_eq!(t.cursor_position, (0, 1));
    assert!(!r.should_render);
}

#[test]
fn session_keys_become_commands_without_touching_the_buffer() {
    let mut t = buf("abc", 0, 1);
    let cases = [
        (InputEvent::CtrlC, AppCommand::Quit),
        (InputEvent::CtrlY, AppCommand::CopyToClipboard),
        (InputEvent::AltLeft, AppCommand::ShrinkLeftArea),
        (InputEvent::AltRight, AppCommand::ExpandLeftArea),
        (InputEvent::CtrlShiftD, AppCommand::ToggleDarkMode),
    ];
    for (ev, cmd) in cases {
        let r = handle_event(&mut t, ev);
        assert_eq!(r.command, Some(cmd));
        assert!(!r.should_render);
        assert!(!r.missed_input);
        assert_eq!(text_of(&t), "abc");
        assert_eq!(t.cursor_position, (0, 1));
    }
}

#[test]
fn unknown_keys_are_missed_input() {
    let mut t = buf("abc", 0, 1);
    let r = handle_event(&mut t, InputEvent::Other);
    assert!(r.missed_input);
    assert!(!r.should_render);
    assert!(r.command.is_none());
    assert_eq!(text_of(&t), "abc");
}
