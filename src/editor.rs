use vstd::prelude::*;
use crate::editor_cursor_controller::{position_after, scrolled};
use crate::editor_output::{hide_code, move_to_code, show_code, Output, MAX_SCREEN};
use crate::editor_rows::EditorRows;
use crate::keyboard::{command_of, decode, Command, KeyPress, Keyboard};

verus! {

/// The viewer: its key source and the document on screen. One cycle paints
/// a frame with `refresh_screen`, then hands the next key press to
/// `process_keypress`, which says whether to go on.
pub struct Editor {
    pub keyboard: Keyboard,
    pub document: Output,
}

impl Editor {
    pub open spec fn wf(&self) -> bool {
        self.document.wf()
    }

    /// `win_size` is `(columns, rows)`.
    pub fn new(win_size: (usize, usize), rows: EditorRows) -> (r: Editor)
        requires
            0 < win_size.0 <= MAX_SCREEN,
            0 < win_size.1 <= MAX_SCREEN,
            rows.wf(),
        ensures
            r.wf(),
            r.document.win_size == win_size,
            r.document.rows@ == rows@,
            r.document.content@ == Seq::<char>::empty(),
            r.document.cursor.x == 0 && r.document.cursor.y == 0,
            r.document.cursor.row_offset == 0 && r.document.cursor.column_offset == 0,
    {
        Editor { keyboard: Keyboard::new(), document: Output::new(win_size, rows) }
    }

    /// Paints the current state into the document's paint buffer.
    pub fn refresh_screen(&mut self)
        requires
            old(self).wf(),
        ensures
            final(self).wf(),
            final(self).document.win_size == old(self).document.win_size,
            final(self).document.rows == old(self).document.rows,
            final(self).document.cursor.x == old(self).document.cursor.x,
            final(self).document.cursor.y == old(self).document.cursor.y,
            final(self).document.cursor.cursor_visible(),
            final(self).document.cursor.row_offset == scrolled(
                old(self).document.cursor.row_offset as int,
                old(self).document.cursor.y as int,
                old(self).document.win_size.1 as int,
            ),
            final(self).document.cursor.column_offset == scrolled(
                old(self).document.cursor.column_offset as int,
                old(self).document.cursor.x as int,
                old(self).document.win_size.0 as int,
            ),
            final(self).document.content@ == old(self).document.content@ + {
                let d = final(self).document;
                hide_code() + move_to_code(0, 0)
                    + d.frame() + move_to_code(
                    (d.cursor.x - d.cursor.column_offset) as u16,
                    (d.cursor.y - d.cursor.row_offset) as u16,
                ) + show_code()
            },
    {
        self.document.refresh_screen();
    }

    /// Applies one key press. Returns `false` for the quit command, leaving
    /// the state as it was; otherwise moves the cursor and returns `true`.
    pub fn process_keypress(&mut self, press: KeyPress) -> (r: bool)
        requires
            old(self).wf(),
        ensures
            final(self).wf(),
            r == (command_of(press) != Command::Quit),
            final(self).document.win_size == old(self).document.win_size,
            final(self).document.rows == old(self).document.rows,
            final(self).document.content == old(self).document.content,
            !r ==> final(self).document.cursor == old(self).document.cursor,
            r ==> (final(self).document.cursor.x as int, final(self).document.cursor.y as int)
                == position_after(
                old(self).document.rows@,
                command_of(press),
                old(self).document.cursor.x as int,
                old(self).document.cursor.y as int,
                old(self).document.win_size.1 as nat,
            ),
            r ==> final(self).document.cursor.row_offset == scrolled(
                old(self).document.cursor.row_offset as int,
                final(self).document.cursor.y as int,
                final(self).document.win_size.1 as int,
            ),
            r ==> final(self).document.cursor.column_offset == scrolled(
                old(self).document.cursor.column_offset as int,
                final(self).document.cursor.x as int,
                final(self).document.win_size.0 as int,
            ),
    {
        let command = decode(press);
        match command {
            Command::Quit => false,
            _ => {
                self.document.move_cursor(command);
                true
            },
        }
    }
}

} // verus!
