use vstd::prelude::*;
use crossterm::Command as _;
use crate::editor_content::EditorContent;
use crate::editor_cursor_controller::{in_document, position_after, scrolled, CursorController};
use crate::editor_rows::{expand, spaces, EditorRows};
use crate::keyboard::Command;

verus! {

/// The title shown on an empty document.
pub const TITLE: &'static str = "Twin Planets Editor";

/// Escape sequence that hides the terminal cursor.
pub open spec fn hide_code() -> Seq<char> {
    seq!['\u{1b}', '[', '?', '2', '5', 'l']
}

/// Escape sequence that shows the terminal cursor.
pub open spec fn show_code() -> Seq<char> {
    seq!['\u{1b}', '[', '?', '2', '5', 'h']
}

/// Escape sequence that clears the screen line from the cursor to its end.
pub open spec fn clear_line_code() -> Seq<char> {
    seq!['\u{1b}', '[', 'K']
}

/// The largest screen side that the terminal reports.
pub const MAX_SCREEN: usize = 65535;

/// The decimal digits of `n`, most significant first, without leading zeros.
pub open spec fn decimal(n: nat) -> Seq<char>
    decreases n,
{
    let digits = seq!['0', '1', '2', '3', '4', '5', '6', '7', '8', '9'];
    if n < 10 {
        seq![digits[n as int]]
    } else {
        decimal(n / 10).push(digits[(n % 10) as int])
    }
}

/// The escape sequence that puts the terminal cursor at a 0-based column and
/// row: `CSI row;column H`, both counted from 1.
pub open spec fn move_to_code(column: u16, row: u16) -> Seq<char> {
    seq!['\u{1b}', '['] + decimal(row as nat + 1) + seq![';'] + decimal(column as nat + 1)
        + seq!['H']
}

/// Relies on crossterm's `cursor::Hide`, whose ANSI form is `CSI ?25l`.
#[verifier::external_body]
fn hide_cursor() -> (r: String)
    ensures
        r@ == hide_code(),
{
    let mut s = String::new();
    let _ = crossterm::cursor::Hide.write_ansi(&mut s);
    s
}

/// Relies on crossterm's `cursor::Show`, whose ANSI form is `CSI ?25h`.
#[verifier::external_body]
fn show_cursor() -> (r: String)
    ensures
        r@ == show_code(),
{
    let mut s = String::new();
    let _ = crossterm::cursor::Show.write_ansi(&mut s);
    s
}

/// Relies on crossterm's `terminal::Clear(ClearType::UntilNewLine)`, whose
/// ANSI form is `CSI K`.
#[verifier::external_body]
fn clear_until_new_line() -> (r: String)
    ensures
        r@ == clear_line_code(),
{
    let mut s = String::new();
    let _ = crossterm::terminal::Clear(crossterm::terminal::ClearType::UntilNewLine).write_ansi(
        &mut s,
    );
    s
}

/// Relies on crossterm's `cursor::MoveTo`, whose ANSI form is
/// `CSI {row + 1};{column + 1}H`; the additions are on `u16`.
#[verifier::external_body]
fn move_to(column: u16, row: u16) -> (r: String)
    requires
        column < 65535,
        row < 65535,
    ensures
        r@ == move_to_code(column, row),
{
    let mut s = String::new();
    let _ = crossterm::cursor::MoveTo(column, row).write_ansi(&mut s);
    s
}

/// The welcome banner of an empty document on a screen `cols` wide: the
/// title, clipped to the width, centred behind a filler marker.
pub open spec fn banner(title: Seq<char>, cols: nat) -> Seq<char> {
    let t = if title.len() > cols {
        title.subrange(0, cols as int)
    } else {
        title
    };
    let padding = (cols - t.len()) as nat / 2;
    if padding == 0 {
        t
    } else {
        seq!['~'] + spaces((padding - 1) as nat) + t
    }
}

/// The part of a render line that a viewport starting at column `co` and
/// `cols` wide shows.
pub open spec fn visible_slice(render: Seq<char>, co: nat, cols: nat) -> Seq<char> {
    if render.len() <= co {
        Seq::empty()
    } else if render.len() <= co + cols {
        render.subrange(co as int, render.len() as int)
    } else {
        render.subrange(co as int, (co + cols) as int)
    }
}

/// The text of screen row `r`.
pub open spec fn row_text(
    doc: Seq<Seq<char>>,
    row_offset: nat,
    column_offset: nat,
    rows: nat,
    cols: nat,
    r: nat,
) -> Seq<char> {
    let file_row = r + row_offset;
    if file_row >= doc.len() {
        if doc.len() == 0 && r == rows / 8 {
            banner(TITLE@, cols)
        } else {
            seq!['~']
        }
    } else {
        visible_slice(expand(doc[file_row as int]), column_offset, cols)
    }
}

/// The first `k` screen rows of a frame, each cleared to its end and all but
/// the last of the screen followed by a line break.
pub open spec fn frame_rows(
    doc: Seq<Seq<char>>,
    row_offset: nat,
    column_offset: nat,
    rows: nat,
    cols: nat,
    k: nat,
) -> Seq<char>
    decreases k,
{
    if k == 0 {
        Seq::empty()
    } else {
        let r = (k - 1) as nat;
        let tail = if r + 1 < rows {
            seq!['\r', '\n']
        } else {
            Seq::empty()
        };
        frame_rows(doc, row_offset, column_offset, rows, cols, r) + row_text(
            doc,
            row_offset,
            column_offset,
            rows,
            cols,
            r,
        ) + clear_line_code() + tail
    }
}

pub struct Output {
    pub win_size: (usize, usize),
    pub content: EditorContent,
    pub cursor: CursorController,
    pub rows: EditorRows,
}

impl Output {
    /// The parts agree on the screen size, the document is loaded and the
    /// cursor is a valid position in it.
    pub open spec fn wf(&self) -> bool {
        &&& self.rows.wf()
        &&& self.cursor.wf()
        &&& self.win_size.0 <= MAX_SCREEN
        &&& self.win_size.1 <= MAX_SCREEN
        &&& self.cursor.screen_columns == self.win_size.0
        &&& self.cursor.screen_rows == self.win_size.1
        &&& in_document(self.rows@, self.cursor.x as int, self.cursor.y as int)
    }

    /// The frame that the current state paints.
    pub open spec fn frame(&self) -> Seq<char> {
        frame_rows(
            self.rows@,
            self.cursor.row_offset as nat,
            self.cursor.column_offset as nat,
            self.win_size.1 as nat,
            self.win_size.0 as nat,
            self.win_size.1 as nat,
        )
    }

    /// `win_size` is `(columns, rows)`.
    pub fn new(win_size: (usize, usize), rows: EditorRows) -> (r: Output)
        requires
            0 < win_size.0 <= MAX_SCREEN,
            0 < win_size.1 <= MAX_SCREEN,
            rows.wf(),
        ensures
            r.wf(),
            r.win_size == win_size,
            r.content@ == Seq::<char>::empty(),
            r.rows@ == rows@,
            r.cursor.x == 0 && r.cursor.y == 0,
            r.cursor.row_offset == 0 && r.cursor.column_offset == 0,
    {
        Output {
            win_size,
            content: EditorContent::new(),
            cursor: CursorController::new(win_size),
            rows,
        }
    }

    pub fn move_cursor(&mut self, direction: Command)
        requires
            old(self).wf(),
        ensures
            final(self).wf(),
            final(self).win_size == old(self).win_size,
            final(self).content == old(self).content,
            final(self).rows == old(self).rows,
            (final(self).cursor.x as int, final(self).cursor.y as int) == position_after(
                old(self).rows@,
                direction,
                old(self).cursor.x as int,
                old(self).cursor.y as int,
                old(self).win_size.1 as nat,
            ),
            final(self).cursor.row_offset == scrolled(
                old(self).cursor.row_offset as int,
                final(self).cursor.y as int,
                final(self).win_size.1 as int,
            ),
            final(self).cursor.column_offset == scrolled(
                old(self).cursor.column_offset as int,
                final(self).cursor.x as int,
                final(self).win_size.0 as int,
            ),
    {
        self.cursor.move_cursor(direction, &self.rows);
    }

    /// Appends the welcome banner for a screen `screen_columns` wide.
    fn draw_banner(&mut self, screen_columns: usize)
        ensures
            final(self).content@ == old(self).content@ + banner(TITLE@, screen_columns as nat),
            final(self).win_size == old(self).win_size,
            final(self).cursor == old(self).cursor,
            final(self).rows == old(self).rows,
    {
        let title_len = TITLE.unicode_len();
        let welcome = if title_len > screen_columns {
            TITLE.substring_char(0, screen_columns)
        } else {
            TITLE
        };
        let welcome_len = welcome.unicode_len();
        let ghost start = self.content@;
        let mut padding = (screen_columns - welcome_len) / 2;
        if padding != 0 {
            self.content.push('~');
            padding = padding - 1;
        }
        let ghost marked = self.content@;
        let mut k: usize = 0;
        while k < padding
            invariant
                k <= padding,
                self.content@ == marked + spaces(k as nat),
                self.win_size == old(self).win_size,
                self.cursor == old(self).cursor,
                self.rows == old(self).rows,
            decreases padding - k,
        {
            self.content.push(' ');
            k = k + 1;
            assert(self.content@ =~= marked + spaces(k as nat));
        }
        self.content.push_str(welcome);
        assert(self.content@ =~= start + banner(TITLE@, screen_columns as nat));
    }

    /// Appends the visible part of document line `file_row`.
    fn draw_line(&mut self, file_row: usize)
        requires
            old(self).rows.wf(),
            file_row < old(self).rows@.len(),
        ensures
            final(self).content@ == old(self).content@ + visible_slice(
                expand(old(self).rows@[file_row as int]),
                old(self).cursor.column_offset as nat,
                old(self).win_size.0 as nat,
            ),
            final(self).win_size == old(self).win_size,
            final(self).cursor == old(self).cursor,
            final(self).rows == old(self).rows,
    {
        let screen_columns = self.win_size.0;
        let column_offset = self.cursor.column_offset;
        let row = self.rows.get_render(file_row).as_str();
        let row_len = row.unicode_len();
        let len = if row_len <= column_offset {
            0
        } else if row_len - column_offset < screen_columns {
            row_len - column_offset
        } else {
            screen_columns
        };
        let start = if len == 0 {
            0
        } else {
            column_offset
        };
        let slice = row.substring_char(start, start + len);
        self.content.push_str(slice);
        assert(self.content@ =~= old(self).content@ + visible_slice(
            expand(old(self).rows@[file_row as int]),
            column_offset as nat,
            screen_columns as nat,
        ));
    }

    /// Appends one frame: each screen row's text, cleared to the end of the
    /// line, with a line break after every row but the last.
    pub fn draw_rows(&mut self)
        requires
            old(self).rows.wf(),
        ensures
            final(self).content@ == old(self).content@ + old(self).frame(),
            final(self).win_size == old(self).win_size,
            final(self).cursor == old(self).cursor,
            final(self).rows == old(self).rows,
    {
        let screen_rows = self.win_size.1;
        let screen_columns = self.win_size.0;
        let number_of_rows = self.rows.number_of_rows();
        let row_offset = self.cursor.row_offset;
        let ghost doc = self.rows@;
        let ghost start = self.content@;
        let mut row: usize = 0;
        while row < screen_rows
            invariant
                row <= screen_rows,
                screen_rows == self.win_size.1,
                screen_columns == self.win_size.0,
                number_of_rows == doc.len(),
                row_offset == self.cursor.row_offset,
                doc == self.rows@,
                self.rows.wf(),
                self.win_size == old(self).win_size,
                self.cursor == old(self).cursor,
                self.rows == old(self).rows,
                self.content@ == start + frame_rows(
                    doc,
                    row_offset as nat,
                    self.cursor.column_offset as nat,
                    screen_rows as nat,
                    screen_columns as nat,
                    row as nat,
                ),
            decreases screen_rows - row,
        {
            let past_end = if row_offset >= number_of_rows {
                true
            } else {
                row >= number_of_rows - row_offset
            };
            if past_end {
                if number_of_rows == 0 && row == screen_rows / 8 {
                    self.draw_banner(screen_columns);
                } else {
                    self.content.push('~');
                }
            } else {
                self.draw_line(row + row_offset);
            }
            let clear = clear_until_new_line();
            self.content.push_str(clear.as_str());
            if row + 1 < screen_rows {
                self.content.push('\r');
                self.content.push('\n');
            }
            row = row + 1;
            assert(self.content@ =~= start + frame_rows(
                doc,
                row_offset as nat,
                self.cursor.column_offset as nat,
                screen_rows as nat,
                screen_columns as nat,
                row as nat,
            ));
        }
    }

    /// Brings the viewport over the cursor and appends a whole screen
    /// refresh: hide the cursor, go home, paint the frame, put the cursor at
    /// its place in the viewport and show it again.
    pub fn refresh_screen(&mut self)
        requires
            old(self).wf(),
        ensures
            final(self).wf(),
            final(self).win_size == old(self).win_size,
            final(self).rows == old(self).rows,
            final(self).cursor.x == old(self).cursor.x,
            final(self).cursor.y == old(self).cursor.y,
            final(self).cursor.cursor_visible(),
            final(self).cursor.row_offset == scrolled(
                old(self).cursor.row_offset as int,
                old(self).cursor.y as int,
                old(self).win_size.1 as int,
            ),
            final(self).cursor.column_offset == scrolled(
                old(self).cursor.column_offset as int,
                old(self).cursor.x as int,
                old(self).win_size.0 as int,
            ),
            final(self).content@ == old(self).content@ + hide_code() + move_to_code(0, 0)
                + final(self).frame() + move_to_code(
                (final(self).cursor.x - final(self).cursor.column_offset) as u16,
                (final(self).cursor.y - final(self).cursor.row_offset) as u16,
            ) + show_code(),
    {
        self.cursor.scroll();
        let hide = hide_cursor();
        self.content.push_str(hide.as_str());
        let home = move_to(0, 0);
        self.content.push_str(home.as_str());
        self.draw_rows();
        let cursor_x = self.cursor.x - self.cursor.column_offset;
        let cursor_y = self.cursor.y - self.cursor.row_offset;
        let place = move_to(cursor_x as u16, cursor_y as u16);
        self.content.push_str(place.as_str());
        let show = show_cursor();
        self.content.push_str(show.as_str());
    }
}

} // verus!
