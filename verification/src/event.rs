//! The mapping from one input key to what it does: an edit or cursor move
//! on the buffer, a session-level command for the surrounding application,
//! or nothing at all.
use vstd::prelude::*;

use crate::text_input::{
    delete_backward_m, delete_forward_m, insert_char_m, line_end_m, line_start_m, move_down_m,
    move_left_m, move_right_m, move_up_m, TextInput,
};

verus! {

/// One keystroke, already decoded into the combinations the editor knows.
pub enum InputEvent {
    CtrlC,
    CtrlY,
    AltLeft,
    AltRight,
    CtrlShiftD,
    Delete,
    Backspace,
    Enter,
    Home,
    End,
    Up,
    Down,
    Left,
    Right,
    Char(char),
    Other,
}

/// A session-level request the buffer cannot satisfy itself; the
/// surrounding application carries it out.
#[derive(Clone, Copy, PartialEq, Eq, Structural, Debug)]
pub enum AppCommand {
    Quit,
    CopyToClipboard,
    ShrinkLeftArea,
    ExpandLeftArea,
    ToggleDarkMode,
}

/// What one keystroke asked for: whether the key meant nothing here,
/// whether the document changed and must be re-rendered, and any
/// session-level command.
pub struct EventOutcome {
    pub missed_input: bool,
    pub should_render: bool,
    pub command: Option<AppCommand>,
}

/// What the buffer looks like after one keystroke: unchanged for anything
/// but the editing and cursor keys, and the corresponding buffer operation
/// for those. The enter key inserts a line break and then moves the cursor
/// down onto the freshly split-off line.
pub open spec fn buffer_after_event(
    m: crate::text_input::BufferModel,
    event: InputEvent,
) -> crate::text_input::BufferModel {
    match event {
        InputEvent::Delete => delete_forward_m(m),
        InputEvent::Backspace => delete_backward_m(m),
        InputEvent::Enter => move_down_m(insert_char_m(m, '\n')),
        InputEvent::Home => line_start_m(m),
        InputEvent::End => line_end_m(m),
        InputEvent::Up => move_up_m(m),
        InputEvent::Down => move_down_m(m),
        InputEvent::Left => move_left_m(m),
        InputEvent::Right => move_right_m(m),
        InputEvent::Char(c) => insert_char_m(m, c),
        _ => m,
    }
}

/// Whether a keystroke changes the document and so requires a fresh render.
pub open spec fn event_renders(event: InputEvent) -> bool {
    match event {
        InputEvent::Delete => true,
        InputEvent::Backspace => true,
        InputEvent::Enter => true,
        InputEvent::Char(_) => true,
        _ => false,
    }
}

/// The session-level command a keystroke asks for, if any.
pub open spec fn event_command(event: InputEvent) -> Option<AppCommand> {
    match event {
        InputEvent::CtrlC => Some(AppCommand::Quit),
        InputEvent::CtrlY => Some(AppCommand::CopyToClipboard),
        InputEvent::AltLeft => Some(AppCommand::ShrinkLeftArea),
        InputEvent::AltRight => Some(AppCommand::ExpandLeftArea),
        InputEvent::CtrlShiftD => Some(AppCommand::ToggleDarkMode),
        _ => None,
    }
}

/// Applies one keystroke to the buffer and says what else it asked for.
/// Only an unrecognised key counts as missed input.
pub fn handle_event(input: &mut TextInput, event: InputEvent) -> (r: EventOutcome)
    requires
        old(input)@.wf(),
    ensures
        final(input)@ == buffer_after_event(old(input)@, event),
        final(input)@.wf(),
        r.should_render == event_renders(event),
        r.command == event_command(event),
        r.missed_input == (event is Other),
{
    match event {
        InputEvent::CtrlC => EventOutcome {
            missed_input: false,
            should_render: false,
            command: Some(AppCommand::Quit),
        },
        InputEvent::CtrlY => EventOutcome {
            missed_input: false,
            should_render: false,
            command: Some(AppCommand::CopyToClipboard),
        },
        InputEvent::AltLeft => EventOutcome {
            missed_input: false,
            should_render: false,
            command: Some(AppCommand::ShrinkLeftArea),
        },
        InputEvent::AltRight => EventOutcome {
            missed_input: false,
            should_render: false,
            command: Some(AppCommand::ExpandLeftArea),
        },
        InputEvent::CtrlShiftD => EventOutcome {
            missed_input: false,
            should_render: false,
            command: Some(AppCommand::ToggleDarkMode),
        },
        InputEvent::Delete => {
            input.delete_char_forward();
            EventOutcome { missed_input: false, should_render: true, command: None }
        },
        InputEvent::Backspace => {
            input.delete_char_backward();
            EventOutcome { missed_input: false, should_render: true, command: None }
        },
        InputEvent::Enter => {
            input.enter_char('\n');
            input.move_cursor_down();
            EventOutcome { missed_input: false, should_render: true, command: None }
        },
        InputEvent::Home => {
            input.move_cursor_line_start();
            EventOutcome { missed_input: false, should_render: false, command: None }
        },
        InputEvent::End => {
            input.move_cursor_line_end();
            EventOutcome { missed_input: false, should_render: false, command: None }
        },
        InputEvent::Up => {
            input.move_cursor_up();
            EventOutcome { missed_input: false, should_render: false, command: None }
        },
        InputEvent::Down => {
            input.move_cursor_down();
            EventOutcome { missed_input: false, should_render: false, command: None }
        },
        InputEvent::Left => {
            input.move_cursor_left();
            EventOutcome { missed_input: false, should_render: false, command: None }
        },
        InputEvent::Right => {
            input.move_cursor_right();
            EventOutcome { missed_input: false, should_render: false, command: None }
        },
        InputEvent::Char(c) => {
            input.enter_char(c);
            EventOutcome { missed_input: false, should_render: true, command: None }
        },
        InputEvent::Other => EventOutcome {
            missed_input: true,
            should_render: false,
            command: None,
        },
    }
}

} // verus!
