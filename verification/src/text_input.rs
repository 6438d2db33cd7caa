//! The document buffer: a sequence of lines addressed in character units,
//! with a cursor that every edit and navigation operation keeps inside the
//! document.
use vstd::prelude::*;
use vstd::string::StrSliceExecFns;

verus! {

/// Mathematical model of the buffer: the lines as sequences of characters
/// and the cursor as a (row, column) pair in character units.
#[verifier::ext_equal]
pub struct BufferModel {
    pub lines: Seq<Seq<char>>,
    pub row: int,
    pub col: int,
}

impl BufferModel {
    /// The buffer invariant: at least one line, the cursor row on an existing
    /// line, and the column at most the current line's length (a column equal
    /// to the length means "after the last character").
    pub open spec fn wf(self) -> bool {
        &&& self.lines.len() >= 1
        &&& 0 <= self.row < self.lines.len()
        &&& 0 <= self.col <= self.lines[self.row].len()
    }

    pub open spec fn current_line(self) -> Seq<char> {
        self.lines[self.row]
    }

    /// The cursor sits at row 0, column 0.
    pub open spec fn at_document_start(self) -> bool {
        self.row == 0 && self.col == 0
    }

    /// The cursor sits at the end of the last line.
    pub open spec fn at_document_end(self) -> bool {
        self.row == self.lines.len() - 1 && self.col == self.current_line().len()
    }
}

pub open spec fn min_int(a: int, b: int) -> int {
    if a < b {
        a
    } else {
        b
    }
}

/// Inserting a character before the cursor. A line break splits the current
/// line at the cursor and leaves the cursor at the end of the upper half;
/// any other character lands at the cursor and the cursor advances one column.
pub open spec fn insert_char_m(m: BufferModel, c: char) -> BufferModel {
    if c == '\n' {
        BufferModel {
            lines: m.lines.subrange(0, m.row) + seq![
                m.current_line().subrange(0, m.col),
                m.current_line().subrange(m.col, m.current_line().len() as int),
            ] + m.lines.subrange(m.row + 1, m.lines.len() as int),
            row: m.row,
            col: m.col,
        }
    } else {
        BufferModel {
            lines: m.lines.update(m.row, m.current_line().insert(m.col, c)),
            row: m.row,
            col: m.col + 1,
        }
    }
}

/// Deleting backward: a no-op at the document start; at column 0 of a later
/// line it joins the line onto the previous one and puts the cursor at the
/// join; otherwise it removes the character left of the cursor.
pub open spec fn delete_backward_m(m: BufferModel) -> BufferModel {
    if m.at_document_start() {
        m
    } else if m.col == 0 {
        BufferModel {
            lines: m.lines.subrange(0, m.row - 1) + seq![
                m.lines[m.row - 1] + m.lines[m.row],
            ] + m.lines.subrange(m.row + 1, m.lines.len() as int),
            row: m.row - 1,
            col: m.lines[m.row - 1].len() as int,
        }
    } else {
        BufferModel {
            lines: m.lines.update(m.row, m.current_line().remove(m.col - 1)),
            row: m.row,
            col: m.col - 1,
        }
    }
}

/// Deleting forward: a no-op at the end of the last line; at the end of an
/// earlier line it joins the next line upward; otherwise it removes the
/// character at the cursor. The cursor never moves.
pub open spec fn delete_forward_m(m: BufferModel) -> BufferModel {
    if m.col == m.current_line().len() {
        if m.row == m.lines.len() - 1 {
            m
        } else {
            BufferModel {
                lines: m.lines.subrange(0, m.row) + seq![
                    m.lines[m.row] + m.lines[m.row + 1],
                ] + m.lines.subrange(m.row + 2, m.lines.len() as int),
                row: m.row,
                col: m.col,
            }
        }
    } else {
        BufferModel {
            lines: m.lines.update(m.row, m.current_line().remove(m.col)),
            row: m.row,
            col: m.col,
        }
    }
}

pub open spec fn move_up_m(m: BufferModel) -> BufferModel {
    let r: int = if m.row > 0 {
        m.row - 1
    } else {
        0
    };
    BufferModel { lines: m.lines, row: r, col: min_int(m.col, m.lines[r].len() as int) }
}

pub open spec fn move_down_m(m: BufferModel) -> BufferModel {
    let r: int = if m.row + 1 < m.lines.len() {
        m.row + 1
    } else {
        m.row
    };
    BufferModel { lines: m.lines, row: r, col: min_int(m.col, m.lines[r].len() as int) }
}

pub open spec fn move_left_m(m: BufferModel) -> BufferModel {
    let c: int = if m.col > 0 {
        m.col - 1
    } else {
        0
    };
    BufferModel { lines: m.lines, row: m.row, col: min_int(c, m.current_line().len() as int) }
}

pub open spec fn move_right_m(m: BufferModel) -> BufferModel {
    BufferModel {
        lines: m.lines,
        row: m.row,
        col: min_int(m.col + 1, m.current_line().len() as int),
    }
}

pub open spec fn line_start_m(m: BufferModel) -> BufferModel {
    BufferModel { lines: m.lines, row: m.row, col: 0 }
}

pub open spec fn line_end_m(m: BufferModel) -> BufferModel {
    BufferModel { lines: m.lines, row: m.row, col: m.current_line().len() as int }
}

/// Inserting a whole string, one character at a time, front to back.
pub open spec fn insert_str_m(m: BufferModel, s: Seq<char>) -> BufferModel
    decreases s.len(),
{
    if s.len() == 0 {
        m
    } else {
        insert_str_m(insert_char_m(m, s[0]), s.skip(1))
    }
}

pub proof fn lemma_insert_str_snoc(m: BufferModel, s: Seq<char>, c: char)
    ensures
        insert_str_m(m, s.push(c)) == insert_char_m(insert_str_m(m, s), c),
    decreases s.len(),
{
    let t = s.push(c);
    assert(t.len() == s.len() + 1);
    assert(insert_str_m(m, t) == insert_str_m(insert_char_m(m, t[0]), t.skip(1)));
    if s.len() == 0 {
        assert(t[0] == c);
        assert(t.skip(1) =~= Seq::<char>::empty());
        assert(insert_str_m(insert_char_m(m, c), t.skip(1)) == insert_char_m(m, c));
        assert(insert_str_m(m, s) == m);
    } else {
        assert(t[0] == s[0]);
        assert(t.skip(1) =~= s.skip(1).push(c));
        lemma_insert_str_snoc(insert_char_m(m, s[0]), s.skip(1), c);
        assert(insert_str_m(insert_char_m(m, s[0]), t.skip(1)) == insert_char_m(
            insert_str_m(insert_char_m(m, s[0]), s.skip(1)),
            c,
        ));
        assert(insert_str_m(m, s) == insert_str_m(insert_char_m(m, s[0]), s.skip(1)));
    }
}

/// The editable document with its cursor. The first component of
/// `cursor_position` is the row, the second the column, both in character
/// units.
pub struct TextInput {
    pub lines: Vec<Vec<char>>,
    pub cursor_position: (usize, usize),
}

impl View for TextInput {
    type V = BufferModel;

    open spec fn view(&self) -> BufferModel {
        BufferModel {
            lines: Seq::new(self.lines@.len(), |i: int| self.lines@[i]@),
            row: self.cursor_position.0 as int,
            col: self.cursor_position.1 as int,
        }
    }
}

impl TextInput {
    /// An empty document: one empty line, cursor at the start.
    pub fn new() -> (r: TextInput)
        ensures
            r@.wf(),
            r@.lines =~= seq![Seq::<char>::empty()],
            r@.row == 0 && r@.col == 0,
    {
        let mut lines: Vec<Vec<char>> = Vec::new();
        lines.push(Vec::new());
        let r = TextInput { lines, cursor_position: (0, 0) };
        proof {
            assert(r@.lines =~~= seq![Seq::<char>::empty()]);
        }
        r
    }

    /// Builds a buffer from already split lines, with the cursor at the
    /// start; an empty split stands for the empty document, which is one
    /// empty line.
    pub fn from_lines(lines: Vec<Vec<char>>) -> (r: TextInput)
        ensures
            r@.wf(),
            lines@.len() > 0 ==> r@.lines =~= Seq::new(lines@.len(), |i: int| lines@[i]@),
            lines@.len() == 0 ==> r@.lines =~= seq![Seq::<char>::empty()],
            r@.row == 0 && r@.col == 0,
    {
        let mut lines = lines;
        if lines.len() == 0 {
            lines.push(Vec::new());
        }
        TextInput { lines, cursor_position: (0, 0) }
    }

    /// The length, in characters, of line `y`, clamped no lower than `x`;
    /// this is the column the cursor keeps when it arrives on line `y`
    /// asking for column `x`.
    pub fn clamp_cursor_width(&self, y: usize, x: usize) -> (r: usize)
        requires
            y < self@.lines.len(),
        ensures
            r as int == min_int(x as int, self@.lines[y as int].len() as int),
    {
        let max_line_size = self.lines[y].len();
        if x < max_line_size {
            x
        } else {
            max_line_size
        }
    }

    pub fn move_cursor_up(&mut self)
        requires
            old(self)@.wf(),
        ensures
            final(self)@ == move_up_m(old(self)@),
            final(self)@.wf(),
    {
        let row = self.cursor_position.0;
        let new_row = if row > 0 {
            row - 1
        } else {
            0
        };
        let new_col = self.clamp_cursor_width(new_row, self.cursor_position.1);
        self.cursor_position = (new_row, new_col);
    }

    pub fn move_cursor_down(&mut self)
        requires
            old(self)@.wf(),
        ensures
            final(self)@ == move_down_m(old(self)@),
            final(self)@.wf(),
    {
        let row = self.cursor_position.0;
        let count = self.lines.len();
        let new_row = if row + 1 < count {
            row + 1
        } else {
            row
        };
        let new_col = self.clamp_cursor_width(new_row, self.cursor_position.1);
        self.cursor_position = (new_row, new_col);
    }

    pub fn move_cursor_left(&mut self)
        requires
            old(self)@.wf(),
        ensures
            final(self)@ == move_left_m(old(self)@),
            final(self)@.wf(),
    {
        let col = self.cursor_position.1;
        let moved = if col > 0 {
            col - 1
        } else {
            0
        };
        let new_col = self.clamp_cursor_width(self.cursor_position.0, moved);
        self.cursor_position = (self.cursor_position.0, new_col);
    }

    pub fn move_cursor_right(&mut self)
        requires
            old(self)@.wf(),
        ensures
            final(self)@ == move_right_m(old(self)@),
            final(self)@.wf(),
    {
        let col = self.cursor_position.1;
        let line_len = self.lines[self.cursor_position.0].len();
        let new_col = if col < line_len {
            col + 1
        } else {
            line_len
        };
        self.cursor_position = (self.cursor_position.0, new_col);
    }

    pub fn move_cursor_line_start(&mut self)
        requires
            old(self)@.wf(),
        ensures
            final(self)@ == line_start_m(old(self)@),
            final(self)@.wf(),
    {
        self.cursor_position = (self.cursor_position.0, 0);
    }

    pub fn move_cursor_line_end(&mut self)
        requires
            old(self)@.wf(),
        ensures
            final(self)@ == line_end_m(old(self)@),
            final(self)@.wf(),
    {
        let line_len = self.lines[self.cursor_position.0].len();
        self.cursor_position = (self.cursor_position.0, line_len);
    }

    pub fn enter_char(&mut self, new_char: char)
        requires
            old(self)@.wf(),
        ensures
            final(self)@ == insert_char_m(old(self)@, new_char),
            final(self)@.wf(),
    {
        let row = self.cursor_position.0;
        let col = self.cursor_position.1;
        if new_char == '\n' {
            let mut line = self.lines.remove(row);
            let rest = line.split_off(col);
            self.lines.insert(row, rest);
            self.lines.insert(row, line);
            proof {
                assert(self@.lines =~~= insert_char_m(old(self)@, new_char).lines);
            }
        } else {
            let mut line = self.lines.remove(row);
            line.insert(col, new_char);
            let new_len = line.len();
            self.lines.insert(row, line);
            self.cursor_position = (row, if col < new_len { col + 1 } else { new_len });
            proof {
                assert(self@.lines =~~= insert_char_m(old(self)@, new_char).lines);
            }
        }
    }

    /// Types a string: each of its characters is inserted in order, as if
    /// entered one keystroke at a time.
    pub fn enter_str(&mut self, string: &str)
        requires
            old(self)@.wf(),
        ensures
            final(self)@ == insert_str_m(old(self)@, string@),
            final(self)@.wf(),
    {
        let n = string.unicode_len();
        let mut i: usize = 0;
        while i < n
            invariant
                i <= n,
                n == string@.len(),
                self@.wf(),
                self@ == insert_str_m(old(self)@, string@.subrange(0, i as int)),
            decreases n - i,
        {
            let c = string.get_char(i);
            self.enter_char(c);
            i = i + 1;
            proof {
                let s = string@;
                assert(s.subrange(0, i as int) =~= s.subrange(0, i - 1).push(s[i - 1]));
                lemma_insert_str_snoc(old(self)@, s.subrange(0, i - 1), s[i - 1]);
            }
        }
        proof {
            assert(string@.subrange(0, n as int) =~= string@);
        }
    }

    pub fn delete_char_backward(&mut self)
        requires
            old(self)@.wf(),
        ensures
            final(self)@ == delete_backward_m(old(self)@),
            final(self)@.wf(),
    {
        let row = self.cursor_position.0;
        let col = self.cursor_position.1;
        if row == 0 && col == 0 {
            // Can't delete at the very beginning of the document.
        } else if col == 0 {
            let mut tail = self.lines.remove(row);
            let mut prev = self.lines.remove(row - 1);
            let prev_line_len = prev.len();
            prev.append(&mut tail);
            self.lines.insert(row - 1, prev);
            self.cursor_position = (row - 1, prev_line_len);
            proof {
                assert(self@.lines =~~= delete_backward_m(old(self)@).lines);
            }
        } else {
            let mut line = self.lines.remove(row);
            line.remove(col - 1);
            self.lines.insert(row, line);
            self.cursor_position = (row, col - 1);
            proof {
                assert(self@.lines =~~= delete_backward_m(old(self)@).lines);
            }
        }
    }

    pub fn delete_char_forward(&mut self)
        requires
            old(self)@.wf(),
        ensures
            final(self)@ == delete_forward_m(old(self)@),
            final(self)@.wf(),
    {
        let row = self.cursor_position.0;
        let col = self.cursor_position.1;
        let line_len = self.lines[row].len();
        let count = self.lines.len();
        if col >= line_len {
            if row + 1 >= count {
                // At the end of the last line: nothing to delete.
            } else {
                let mut next = self.lines.remove(row + 1);
                let mut line = self.lines.remove(row);
                line.append(&mut next);
                self.lines.insert(row, line);
                proof {
                    assert(self@.lines =~~= delete_forward_m(old(self)@).lines);
                }
            }
        } else {
            let mut line = self.lines.remove(row);
            line.remove(col);
            self.lines.insert(row, line);
            proof {
                assert(self@.lines =~~= delete_forward_m(old(self)@).lines);
            }
        }
    }

    pub fn reset_cursor(&mut self)
        ensures
            final(self)@.lines == old(self)@.lines,
            final(self)@.row == 0 && final(self)@.col == 0,
    {
        self.cursor_position = (0, 0);
    }

    /// Clears the document back to one empty line with the cursor at the
    /// start.
    pub fn reset_input(&mut self)
        ensures
            final(self)@.wf(),
            final(self)@.lines =~= seq![Seq::<char>::empty()],
            final(self)@.row == 0 && final(self)@.col == 0,
    {
        self.lines.clear();
        self.lines.push(Vec::new());
        self.reset_cursor();
        proof {
            assert(self@.lines =~~= seq![Seq::<char>::empty()]);
        }
    }
}

/// One editing keystroke, for stating laws over whole edit histories.
pub enum EditOp {
    Insert(char),
    DeleteBackward,
    DeleteForward,
}

pub open spec fn apply_edit(m: BufferModel, op: EditOp) -> BufferModel {
    match op {
        EditOp::Insert(c) => insert_char_m(m, c),
        EditOp::DeleteBackward => delete_backward_m(m),
        EditOp::DeleteForward => delete_forward_m(m),
    }
}

pub open spec fn apply_edits(m: BufferModel, ops: Seq<EditOp>) -> BufferModel
    decreases ops.len(),
{
    if ops.len() == 0 {
        m
    } else {
        apply_edits(apply_edit(m, ops[0]), ops.skip(1))
    }
}

/// Each single edit keeps the buffer invariant.
pub proof fn lemma_edit_preserves_wf(m: BufferModel, op: EditOp)
    requires
        m.wf(),
    ensures
        apply_edit(m, op).wf(),
{
    match op {
        EditOp::Insert(c) => {
            let m1 = insert_char_m(m, c);
            if c == '\n' {
                assert(m1.lines[m.row] == m.current_line().subrange(0, m.col));
            } else {
                assert(m1.lines[m.row] == m.current_line().insert(m.col, c));
            }
        },
        EditOp::DeleteBackward => {
            let m1 = delete_backward_m(m);
            if m.at_document_start() {
            } else if m.col == 0 {
                assert(m1.lines[m.row - 1] == m.lines[m.row - 1] + m.lines[m.row]);
            } else {
                assert(m1.lines[m.row] == m.current_line().remove(m.col - 1));
            }
        },
        EditOp::DeleteForward => {
            let m1 = delete_forward_m(m);
            if m.col == m.current_line().len() {
                if m.row == m.lines.len() - 1 {
                } else {
                    assert(m1.lines[m.row] == m.lines[m.row] + m.lines[m.row + 1]);
                }
            } else {
                assert(m1.lines[m.row] == m.current_line().remove(m.col));
            }
        },
    }
}

/// After any sequence of insertions and deletions applied to a well-formed
/// buffer, the buffer invariant still holds: at least one line remains, the
/// cursor row is on an existing line, and the column is within the line.
pub proof fn lemma_edits_preserve_wf(m: BufferModel, ops: Seq<EditOp>)
    requires
        m.wf(),
    ensures
        apply_edits(m, ops).wf(),
    decreases ops.len(),
{
    if ops.len() > 0 {
        lemma_edit_preserves_wf(m, ops[0]);
        lemma_edits_preserve_wf(apply_edit(m, ops[0]), ops.skip(1));
    }
}

/// Inserting any character other than a line break and deleting backward
/// immediately afterwards restores the buffer, text and cursor both, exactly.
pub proof fn lemma_insert_delete_roundtrip(m: BufferModel, c: char)
    requires
        m.wf(),
        c != '\n',
    ensures
        delete_backward_m(insert_char_m(m, c)) == m,
{
    let m1 = insert_char_m(m, c);
    assert(m1.current_line() == m.current_line().insert(m.col, c));
    assert(m.current_line().insert(m.col, c).remove(m.col) =~= m.current_line());
    assert(delete_backward_m(m1).lines =~~= m.lines);
    assert(delete_backward_m(m1) =~~= m);
}

/// Moving to the start of the line is idempotent: a second call leaves the
/// cursor exactly where the first one put it.
pub proof fn lemma_line_start_idempotent(m: BufferModel)
    ensures
        line_start_m(line_start_m(m)) == line_start_m(m),
{
}

/// Deleting backward at the very start of the document changes nothing.
pub proof fn lemma_delete_backward_at_start_noop(m: BufferModel)
    requires
        m.at_document_start(),
    ensures
        delete_backward_m(m) == m,
{
}

/// Deleting forward at the end of the last line changes nothing.
pub proof fn lemma_delete_forward_at_end_noop(m: BufferModel)
    requires
        m.wf(),
        m.at_document_end(),
    ensures
        delete_forward_m(m) == m,
{
}

} // verus!
