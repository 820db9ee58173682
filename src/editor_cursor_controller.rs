use vstd::prelude::*;
use crate::editor_rows::EditorRows;
use crate::keyboard::Command;

verus! {

/// Length of line `y` of the document, or 0 past its last line.
pub open spec fn line_len(doc: Seq<Seq<char>>, y: int) -> int {
    if 0 <= y < doc.len() {
        doc[y].len() as int
    } else {
        0
    }
}

pub open spec fn min_int(a: int, b: int) -> int {
    if a <= b {
        a
    } else {
        b
    }
}

/// The cursor `(x, y)` after one single-step command, before the final clamp.
pub open spec fn raw_step(doc: Seq<Seq<char>>, cmd: Command, x: int, y: int) -> (int, int) {
    let n = doc.len() as int;
    match cmd {
        Command::Up => (x, if y > 0 { y - 1 } else { 0 }),
        Command::Down => (x, if y < n { y + 1 } else { y }),
        Command::Left => {
            if x > 0 {
                (x - 1, y)
            } else if y > 0 {
                (line_len(doc, y - 1), y - 1)
            } else {
                (x, y)
            }
        },
        Command::Right => {
            if y < n && x < line_len(doc, y) {
                (x + 1, y)
            } else if y < n && x == line_len(doc, y) {
                (0, y + 1)
            } else {
                (x, y)
            }
        },
        Command::Home => (0, y),
        Command::End => (if y < n { line_len(doc, y) } else { x }, y),
        _ => (x, y),
    }
}

/// One single-step command followed by the clamp of `x` to the current line.
pub open spec fn step(doc: Seq<Seq<char>>, cmd: Command, x: int, y: int) -> (int, int) {
    let (x1, y1) = raw_step(doc, cmd, x, y);
    (min_int(x1, line_len(doc, y1)), y1)
}

/// `k` repetitions of one single-step command.
pub open spec fn steps(doc: Seq<Seq<char>>, cmd: Command, x: int, y: int, k: nat) -> (int, int)
    decreases k,
{
    if k == 0 {
        (x, y)
    } else {
        let (x1, y1) = step(doc, cmd, x, y);
        steps(doc, cmd, x1, y1, (k - 1) as nat)
    }
}

/// The cursor position after a command: a page is `page` single steps, quit
/// leaves the cursor alone, and an unrecognized command only clamps `x`.
pub open spec fn position_after(
    doc: Seq<Seq<char>>,
    cmd: Command,
    x: int,
    y: int,
    page: nat,
) -> (int, int) {
    match cmd {
        Command::PageUp => steps(doc, Command::Up, x, y, page),
        Command::PageDown => steps(doc, Command::Down, x, y, page),
        Command::Quit => (x, y),
        _ => step(doc, cmd, x, y),
    }
}

/// The smallest change of a viewport offset that brings `pos` into a window
/// of `size` cells.
pub open spec fn scrolled(offset: int, pos: int, size: int) -> int {
    let o = min_int(offset, pos);
    if pos >= o + size {
        pos - size + 1
    } else {
        o
    }
}

/// `(x, y)` is a valid cursor in the document: on a line or just past the
/// last one, and within the line's raw content.
pub open spec fn in_document(doc: Seq<Seq<char>>, x: int, y: int) -> bool {
    0 <= y <= doc.len() && 0 <= x <= line_len(doc, y)
}

/// The cursor after each command of `cmds` in turn, pages being `page` steps.
pub open spec fn run_commands(
    doc: Seq<Seq<char>>,
    cmds: Seq<Command>,
    x: int,
    y: int,
    page: nat,
) -> (int, int)
    decreases cmds.len(),
{
    if cmds.len() == 0 {
        (x, y)
    } else {
        let (x1, y1) = run_commands(doc, cmds.drop_last(), x, y, page);
        position_after(doc, cmds.last(), x1, y1, page)
    }
}

/// One single-step command keeps a valid cursor valid.
pub proof fn lemma_step_in_document(doc: Seq<Seq<char>>, cmd: Command, x: int, y: int)
    requires
        in_document(doc, x, y),
    ensures
        in_document(doc, step(doc, cmd, x, y).0, step(doc, cmd, x, y).1),
{
}

/// Repeated single steps keep a valid cursor valid.
pub proof fn lemma_steps_in_document(doc: Seq<Seq<char>>, cmd: Command, x: int, y: int, k: nat)
    requires
        in_document(doc, x, y),
    ensures
        in_document(doc, steps(doc, cmd, x, y, k).0, steps(doc, cmd, x, y, k).1),
    decreases k,
{
    if k > 0 {
        lemma_step_in_document(doc, cmd, x, y);
        let (x1, y1) = step(doc, cmd, x, y);
        lemma_steps_in_document(doc, cmd, x1, y1, (k - 1) as nat);
    }
}

/// Any command keeps a valid cursor valid.
pub proof fn lemma_position_after_in_document(
    doc: Seq<Seq<char>>,
    cmd: Command,
    x: int,
    y: int,
    page: nat,
)
    requires
        in_document(doc, x, y),
    ensures
        in_document(
            doc,
            position_after(doc, cmd, x, y, page).0,
            position_after(doc, cmd, x, y, page).1,
        ),
{
    match cmd {
        Command::PageUp => lemma_steps_in_document(doc, Command::Up, x, y, page),
        Command::PageDown => lemma_steps_in_document(doc, Command::Down, x, y, page),
        Command::Quit => {},
        _ => lemma_step_in_document(doc, cmd, x, y),
    }
}

/// From a valid cursor, every prefix of any sequence of commands (Left and
/// Right among them) leaves `y` within `[0, count]` and `x` within the raw
/// length of line `y`.
pub proof fn lemma_commands_stay_in_document(
    doc: Seq<Seq<char>>,
    cmds: Seq<Command>,
    x: int,
    y: int,
    page: nat,
)
    requires
        in_document(doc, x, y),
    ensures
        forall|k: int|
            0 <= k <= cmds.len() ==> #[trigger] in_document(
                doc,
                run_commands(doc, cmds.take(k), x, y, page).0,
                run_commands(doc, cmds.take(k), x, y, page).1,
            ),
    decreases cmds.len(),
{
    if cmds.len() > 0 {
        let init = cmds.drop_last();
        lemma_commands_stay_in_document(doc, init, x, y, page);
        assert forall|k: int| 0 <= k <= cmds.len() implies #[trigger] in_document(
            doc,
            run_commands(doc, cmds.take(k), x, y, page).0,
            run_commands(doc, cmds.take(k), x, y, page).1,
        ) by {
            if k < cmds.len() {
                assert(cmds.take(k) =~= init.take(k));
            } else {
                assert(cmds.take(k) =~= cmds);
                assert(init.take(init.len() as int) =~= init);
                let (x1, y1) = run_commands(doc, init, x, y, page);
                lemma_position_after_in_document(doc, cmds.last(), x1, y1, page);
            }
        }
    } else {
        assert forall|k: int| 0 <= k <= cmds.len() implies #[trigger] in_document(
            doc,
            run_commands(doc, cmds.take(k), x, y, page).0,
            run_commands(doc, cmds.take(k), x, y, page).1,
        ) by {
            assert(cmds.take(k).len() == 0);
        }
    }
}

/// Left at the start of line `k > 0` goes to the end of line `k - 1`; Right
/// at the end of line `k` goes to the start of line `k + 1`.
pub proof fn lemma_horizontal_wrap(doc: Seq<Seq<char>>, k: int)
    requires
        0 <= k < doc.len(),
    ensures
        k > 0 ==> step(doc, Command::Left, 0, k) == (doc[k - 1].len() as int, k - 1),
        step(doc, Command::Right, doc[k].len() as int, k) == (0int, k + 1),
{
}

/// Scrolling twice with no move in between gives the offsets of scrolling once.
pub proof fn lemma_scroll_idempotent(offset: int, pos: int, size: int)
    requires
        size > 0,
    ensures
        scrolled(scrolled(offset, pos, size), pos, size) == scrolled(offset, pos, size),
{
}

pub struct CursorController {
    pub x: usize,
    pub y: usize,
    pub screen_columns: usize,
    pub screen_rows: usize,
    pub row_offset: usize,
    pub column_offset: usize,
}

impl CursorController {
    /// The screen has at least one row and one column.
    pub open spec fn wf(&self) -> bool {
        self.screen_rows > 0 && self.screen_columns > 0
    }

    /// The viewport shows the cursor.
    pub open spec fn cursor_visible(&self) -> bool {
        &&& self.row_offset <= self.y < self.row_offset + self.screen_rows
        &&& self.column_offset <= self.x < self.column_offset + self.screen_columns
    }

    /// `win_size` is `(columns, rows)`.
    pub fn new(win_size: (usize, usize)) -> (r: CursorController)
        requires
            win_size.0 > 0,
            win_size.1 > 0,
        ensures
            r.wf(),
            r.x == 0 && r.y == 0,
            r.row_offset == 0 && r.column_offset == 0,
            r.screen_columns == win_size.0,
            r.screen_rows == win_size.1,
    {
        CursorController {
            x: 0,
            y: 0,
            screen_columns: win_size.0,
            screen_rows: win_size.1,
            row_offset: 0,
            column_offset: 0,
        }
    }

    fn row_len(editor_rows: &EditorRows, y: usize) -> (r: usize)
        requires
            y < editor_rows@.len(),
        ensures
            r == editor_rows@[y as int].len(),
    {
        editor_rows.get_row(y).raw_len()
    }

    /// Applies one single-step command and clamps `x` to the current line.
    fn move_once(&mut self, direction: Command, editor_rows: &EditorRows)
        requires
            old(self).y <= editor_rows@.len(),
        ensures
            (final(self).x as int, final(self).y as int) == step(
                editor_rows@,
                direction,
                old(self).x as int,
                old(self).y as int,
            ),
            in_document(editor_rows@, final(self).x as int, final(self).y as int),
            final(self).screen_rows == old(self).screen_rows,
            final(self).screen_columns == old(self).screen_columns,
            final(self).row_offset == old(self).row_offset,
            final(self).column_offset == old(self).column_offset,
    {
        let number_of_rows = editor_rows.number_of_rows();
        match direction {
            Command::Up => {
                if self.y > 0 {
                    self.y = self.y - 1;
                }
            },
            Command::Left => {
                if self.x != 0 {
                    self.x = self.x - 1;
                } else if self.y > 0 {
                    self.y = self.y - 1;
                    self.x = Self::row_len(editor_rows, self.y);
                }
            },
            Command::Down => {
                if self.y < number_of_rows {
                    self.y = self.y + 1;
                }
            },
            Command::Right => {
                if self.y < number_of_rows {
                    let len = Self::row_len(editor_rows, self.y);
                    if self.x < len {
                        self.x = self.x + 1;
                    } else if self.x == len {
                        self.y = self.y + 1;
                        self.x = 0;
                    }
                }
            },
            Command::End => {
                if self.y < number_of_rows {
                    self.x = Self::row_len(editor_rows, self.y);
                }
            },
            Command::Home => {
                self.x = 0;
            },
            _ => {},
        }
        let row_len = if self.y < number_of_rows {
            Self::row_len(editor_rows, self.y)
        } else {
            0
        };
        if row_len < self.x {
            self.x = row_len;
        }
    }

    /// Applies a command to the cursor, then brings the viewport back over it.
    pub fn move_cursor(&mut self, direction: Command, editor_rows: &EditorRows)
        requires
            old(self).wf(),
            old(self).y <= editor_rows@.len(),
        ensures
            final(self).wf(),
            (final(self).x as int, final(self).y as int) == position_after(
                editor_rows@,
                direction,
                old(self).x as int,
                old(self).y as int,
                old(self).screen_rows as nat,
            ),
            final(self).screen_rows == old(self).screen_rows,
            final(self).screen_columns == old(self).screen_columns,
            final(self).row_offset == scrolled(
                old(self).row_offset as int,
                final(self).y as int,
                final(self).screen_rows as int,
            ),
            final(self).column_offset == scrolled(
                old(self).column_offset as int,
                final(self).x as int,
                final(self).screen_columns as int,
            ),
            final(self).cursor_visible(),
            direction != Command::Quit ==> in_document(
                editor_rows@,
                final(self).x as int,
                final(self).y as int,
            ),
    {
        match direction {
            Command::PageUp | Command::PageDown => {
                let single = if direction == Command::PageUp {
                    Command::Up
                } else {
                    Command::Down
                };
                let ghost x0 = self.x as int;
                let ghost y0 = self.y as int;
                let mut k: usize = 0;
                while k < self.screen_rows
                    invariant
                        k <= self.screen_rows,
                        self.y <= editor_rows@.len(),
                        self.screen_rows == old(self).screen_rows,
                        self.screen_columns == old(self).screen_columns,
                        self.row_offset == old(self).row_offset,
                        self.column_offset == old(self).column_offset,
                        k > 0 ==> in_document(editor_rows@, self.x as int, self.y as int),
                        steps(editor_rows@, single, x0, y0, self.screen_rows as nat) == steps(
                            editor_rows@,
                            single,
                            self.x as int,
                            self.y as int,
                            (self.screen_rows - k) as nat,
                        ),
                    decreases self.screen_rows - k,
                {
                    self.move_once(single, editor_rows);
                    k = k + 1;
                }
            },
            Command::Quit => {},
            _ => {
                self.move_once(direction, editor_rows);
            },
        }
        self.scroll();
    }

    /// Moves the viewport offsets the least amount that shows the cursor.
    pub fn scroll(&mut self)
        requires
            old(self).wf(),
        ensures
            final(self).x == old(self).x,
            final(self).y == old(self).y,
            final(self).screen_rows == old(self).screen_rows,
            final(self).screen_columns == old(self).screen_columns,
            final(self).row_offset == scrolled(
                old(self).row_offset as int,
                old(self).y as int,
                old(self).screen_rows as int,
            ),
            final(self).column_offset == scrolled(
                old(self).column_offset as int,
                old(self).x as int,
                old(self).screen_columns as int,
            ),
            final(self).cursor_visible(),
    {
        if self.y < self.row_offset {
            self.row_offset = self.y;
        }
        if self.y - self.row_offset >= self.screen_rows {
            self.row_offset = self.y - self.screen_rows + 1;
        }
        if self.x < self.column_offset {
            self.column_offset = self.x;
        }
        if self.x - self.column_offset >= self.screen_columns {
            self.column_offset = self.x - self.screen_columns + 1;
        }
    }
}

} // verus!
