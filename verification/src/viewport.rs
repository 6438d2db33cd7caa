//! Viewport scrolling: the scroll offsets that keep the cursor near the
//! middle of the visible area, and the projection of the cursor onto screen
//! coordinates.
use vstd::prelude::*;

use crate::text_input::{min_int, BufferModel, TextInput};

verus! {

/// A rectangular screen area, in terminal cells.
#[derive(Clone, Copy, PartialEq, Eq, Structural, Debug)]
pub struct Rect {
    pub x: u16,
    pub y: u16,
    pub width: u16,
    pub height: u16,
}

/// An absolute terminal cell position.
#[derive(Clone, Copy, PartialEq, Eq, Structural, Debug)]
pub struct ScreenPosition {
    pub x: u16,
    pub y: u16,
}

pub open spec fn max_int(a: int, b: int) -> int {
    if a > b {
        a
    } else {
        b
    }
}

/// The vertical scroll offset: once the cursor row passes the middle of the
/// viewport, scroll so the cursor stays near mid-screen, but never past the
/// end of the document.
pub open spec fn vertical_offset_m(row: int, viewport_height: int, total_lines: int) -> int {
    if row >= viewport_height / 2 {
        min_int(row - viewport_height / 2, max_int(0, total_lines - viewport_height))
    } else {
        0
    }
}

/// The horizontal scroll offset: once the cursor column passes one more than
/// half the viewport width, scroll by the excess over the half width.
pub open spec fn horizontal_offset_m(col: int, viewport_width: int) -> int {
    if col > viewport_width / 2 + 1 {
        col - viewport_width / 2
    } else {
        0
    }
}

/// Where the cursor lands on screen: subtract the scroll offsets (never
/// below zero) and translate into the area; the cursor is visible only if
/// the result falls strictly inside the area.
pub open spec fn project_cursor_m(
    m: BufferModel,
    area: Rect,
    vertical_offset: int,
    horizontal_offset: int,
) -> Option<ScreenPosition> {
    let screen_y = max_int(m.row - vertical_offset, 0);
    let screen_x = max_int(m.col - horizontal_offset, 0);
    if screen_y < area.height && screen_x < area.width {
        Some(
            ScreenPosition {
                x: (area.x + screen_x) as u16,
                y: (area.y + screen_y) as u16,
            },
        )
    } else {
        None
    }
}

impl TextInput {
    /// The (vertical, horizontal) scroll offsets for a viewport of the given
    /// size, keeping the cursor vertically near mid-screen without scrolling
    /// past the end of the document, and horizontally in view.
    pub fn calculate_scroll_offset(&self, viewport_height: usize, viewport_width: usize) -> (r: (
        usize,
        usize,
    ))
        requires
            self@.wf(),
        ensures
            r.0 as int == vertical_offset_m(
                self@.row,
                viewport_height as int,
                self@.lines.len() as int,
            ),
            r.1 as int == horizontal_offset_m(self@.col, viewport_width as int),
    {
        let cursor_y = self.cursor_position.0;
        let cursor_x = self.cursor_position.1;
        let total_lines = self.lines.len();

        let half_height = viewport_height / 2;
        let vertical_offset = if cursor_y >= half_height {
            let desired_offset = cursor_y - half_height;
            let max_offset = if total_lines > viewport_height {
                total_lines - viewport_height
            } else {
                0
            };
            if desired_offset < max_offset {
                desired_offset
            } else {
                max_offset
            }
        } else {
            0
        };

        let half_width = viewport_width / 2;
        let horizontal_offset = if cursor_x > half_width + 1 {
            cursor_x - half_width
        } else {
            0
        };

        (vertical_offset, horizontal_offset)
    }

    /// The cursor's absolute position on screen for the given area and
    /// scroll offsets, or `None` when the cursor is scrolled out of view and
    /// no cursor marker must be drawn.
    pub fn get_cursor_screen_position(
        &self,
        area: Rect,
        vertical_offset: usize,
        horizontal_offset: usize,
    ) -> (r: Option<ScreenPosition>)
        requires
            self@.wf(),
            area.x + area.width <= u16::MAX,
            area.y + area.height <= u16::MAX,
        ensures
            r == project_cursor_m(self@, area, vertical_offset as int, horizontal_offset as int),
    {
        let cursor_y = self.cursor_position.0;
        let cursor_x = self.cursor_position.1;

        let screen_y = if cursor_y > vertical_offset {
            cursor_y - vertical_offset
        } else {
            0
        };
        let screen_x = if cursor_x > horizontal_offset {
            cursor_x - horizontal_offset
        } else {
            0
        };

        if screen_y < area.height as usize && screen_x < area.width as usize {
            let absolute_x = area.x + screen_x as u16;
            let absolute_y = area.y + screen_y as u16;
            Some(ScreenPosition { x: absolute_x, y: absolute_y })
        } else {
            None
        }
    }
}

} // verus!
