use tp_editor_core::editor::Editor;
use tp_editor_core::editor_content::EditorContent;
use tp_editor_core::editor_cursor_controller::CursorController;
use tp_editor_core::editor_output::Output;
use tp_editor_core::editor_rows::{EditorRows, Row};
use tp_editor_core::keyboard::{decode, Command, Key, KeyPress, Keyboard, CONTROL, NO_MODIFIERS};

fn doc(lines: &[&str]) -> EditorRows {
    EditorRows::new(lines.iter().map(|s| s.to_string()).collect())
}

fn press(code: Key, modifiers: u8) -> KeyPress {
    KeyPress { code, modifiers }
}

const CLEAR: &str = "\x1b[K";

fn frame_of(rows: &[String]) -> String {
    let mut s = String::new();
    for (i, r) in rows.iter().enumerate() {
        s.push_str(r);
        s.push_str(CLEAR);
        if i + 1 < rows.len() {
            s.push_str("\r\n");
        }
    }
    s
}

#[test]
fn content_buffer_collects_and_clears() {
    let mut c = EditorContent::new();
    assert_eq!(c.as_str(), "");
    c.push('a');
    c.push_str("bc\t");
    assert_eq!(c.as_str(), "abc\t");
    c.clear();
    assert_eq!(c.as_str(), "");
}

#[test]
fn render_without_tabs_is_raw() {
    let rows = doc(&["hello world", "", "x y  z"]);
    assert_eq!(rows.number_of_rows(), 3);
    for i in 0..3 {
        assert_eq!(rows.get_render(i).as_str(), rows.get_row(i).row_content.as_str());
    }
}

#[test]
fn tab_at_column_zero_takes_eight() {
    let rows = doc(&["\tX"]);
    assert_eq!(rows.get_render(0).as_str(), "        X");
}

#[test]
fn tab_at_column_six_takes_two() {
    let rows = doc(&["abcdef\tX"]);
    assert_eq!(rows.get_render(0).as_str(), "abcdef  X");
}

#[test]
fn tab_at_column_seven_takes_one_and_tabs_chain() {
    let rows = doc(&["abcdefg\tX", "\t\tY", "ab\tc\td"]);
    assert_eq!(rows.get_render(0).as_str(), "abcdefg X");
    assert_eq!(rows.get_render(1).as_str(), "                Y");
    assert_eq!(rows.get_render(2).as_str(), "ab      c       d");
}

#[test]
fn render_is_a_function_of_raw() {
    let a = doc(&["a\tb\tc"]);
    let b = doc(&["a\tb\tc", "a\tb\tc"]);
    assert_eq!(a.get_render(0), b.get_render(0));
    assert_eq!(b.get_render(0), b.get_render(1));
    assert!(a.get_render(0).len() >= a.get_row(0).row_content.len());
}

#[test]
fn raw_length_counts_characters() {
    let rows = doc(&["h\u{e9}llo"]);
    assert_eq!(rows.get_row(0).raw_len(), 5);
}

#[test]
fn left_wraps_to_end_of_previous_line() {
    let rows = doc(&["abcd", "xy"]);
    let mut c = CursorController::new((80, 24));
    c.move_cursor(Command::Down, &rows);
    assert_eq!((c.x, c.y), (0, 1));
    c.move_cursor(Command::Left, &rows);
    assert_eq!((c.x, c.y), (4, 0));
    c.move_cursor(Command::Left, &rows);
    assert_eq!((c.x, c.y), (3, 0));
}

#[test]
fn right_wraps_to_start_of_next_line() {
    let rows = doc(&["ab", "xyz", "q"]);
    let mut c = CursorController::new((80, 24));
    c.move_cursor(Command::End, &rows);
    assert_eq!((c.x, c.y), (2, 0));
    c.move_cursor(Command::Right, &rows);
    assert_eq!((c.x, c.y), (0, 1));
    c.move_cursor(Command::End, &rows);
    c.move_cursor(Command::Right, &rows);
    c.move_cursor(Command::End, &rows);
    c.move_cursor(Command::Right, &rows);
    assert_eq!((c.x, c.y), (0, 3));
    c.move_cursor(Command::Right, &rows);
    assert_eq!((c.x, c.y), (0, 3));
}

#[test]
fn left_and_right_stay_in_bounds() {
    let rows = doc(&["abc", "", "\tz"]);
    let mut c = CursorController::new((4, 2));
    let seq = [
        Command::Left, Command::Right, Command::Right, Command::Right, Command::Right,
        Command::Right, Command::Right, Command::Right, Command::Right, Command::Right,
        Command::Right, Command::Left, Command::Left, Command::Left, Command::Left,
        Command::Left, Command::Left, Command::Left, Command::Left, Command::Left,
    ];
    for cmd in seq {
        c.move_cursor(cmd, &rows);
        assert!(c.y <= rows.number_of_rows());
        let len = if c.y < rows.number_of_rows() { rows.get_row(c.y).raw_len() } else { 0 };
        assert!(c.x <= len);
        assert!(c.row_offset <= c.y && c.y < c.row_offset + 2);
        assert!(c.column_offset <= c.x && c.x < c.column_offset + 4);
    }
    assert_eq!((c.x, c.y), (0, 0));
}

#[test]
fn up_down_home_end_at_edges() {
    let rows = doc(&["abc", "de"]);
    let mut c = CursorController::new((80, 24));
    c.move_cursor(Command::Up, &rows);
    assert_eq!((c.x, c.y), (0, 0));
    c.move_cursor(Command::Down, &rows);
    c.move_cursor(Command::Down, &rows);
    c.move_cursor(Command::Down, &rows);
    assert_eq!((c.x, c.y), (0, 2));
    c.move_cursor(Command::End, &rows);
    assert_eq!((c.x, c.y), (0, 2));
    c.move_cursor(Command::Up, &rows);
    c.move_cursor(Command::End, &rows);
    assert_eq!((c.x, c.y), (2, 1));
    c.move_cursor(Command::Home, &rows);
    assert_eq!((c.x, c.y), (0, 1));
}

// The column is clamped to the new line on every vertical move and is not
// restored when a longer line is reached again: this is intended.
#[test]
fn vertical_move_clamps_column_without_memory() {
    let rows = doc(&["abcdef", "ab", "abcdef"]);
    let mut c = CursorController::new((80, 24));
    c.move_cursor(Command::End, &rows);
    assert_eq!(c.x, 6);
    c.move_cursor(Command::Down, &rows);
    assert_eq!((c.x, c.y), (2, 1));
    c.move_cursor(Command::Down, &rows);
    assert_eq!((c.x, c.y), (2, 2));
    c.move_cursor(Command::Up, &rows);
    c.move_cursor(Command::Up, &rows);
    assert_eq!((c.x, c.y), (2, 0));
}

#[test]
fn quit_and_unrecognized_leave_cursor() {
    let rows = doc(&["abc"]);
    let mut c = CursorController::new((80, 24));
    c.move_cursor(Command::End, &rows);
    c.move_cursor(Command::Quit, &rows);
    assert_eq!((c.x, c.y), (3, 0));
    c.move_cursor(Command::Unrecognized, &rows);
    assert_eq!((c.x, c.y), (3, 0));
}

#[test]
fn page_down_from_top_of_long_document() {
    let lines: Vec<String> = (0..100).map(|i| format!("line {}", i)).collect();
    let rows = EditorRows::new(lines);
    assert_eq!(rows.number_of_rows(), 100);
    let mut c = CursorController::new((80, 20));
    c.move_cursor(Command::PageDown, &rows);
    assert_eq!(c.y, 20);
    assert_eq!(c.row_offset, 1);
    c.move_cursor(Command::PageUp, &rows);
    assert_eq!(c.y, 0);
    assert_eq!(c.row_offset, 0);
}

#[test]
fn page_down_stops_past_last_line() {
    let rows = doc(&["a", "b", "c"]);
    let mut c = CursorController::new((80, 20));
    c.move_cursor(Command::PageDown, &rows);
    assert_eq!((c.x, c.y), (0, 3));
    assert_eq!(c.row_offset, 0);
}

#[test]
fn scroll_keeps_cursor_on_screen_and_is_idempotent() {
    let mut c = CursorController::new((10, 5));
    c.y = 12;
    c.x = 30;
    c.scroll();
    assert_eq!((c.row_offset, c.column_offset), (8, 21));
    c.scroll();
    assert_eq!((c.row_offset, c.column_offset), (8, 21));
    c.y = 3;
    c.x = 2;
    c.scroll();
    assert_eq!((c.row_offset, c.column_offset), (3, 2));
    c.scroll();
    assert_eq!((c.row_offset, c.column_offset), (3, 2));
}

#[test]
fn empty_document_shows_banner_on_row_three() {
    let mut out = Output::new((80, 24), EditorRows::new(Vec::new()));
    out.draw_rows();
    let title = "Twin Planets Editor";
    let padding = (80 - title.len()) / 2;
    let banner = format!("~{}{}", " ".repeat(padding - 1), title);
    let rows: Vec<String> =
        (0..24).map(|r| if r == 3 { banner.clone() } else { "~".to_string() }).collect();
    assert_eq!(out.content.as_str(), frame_of(&rows));
}

#[test]
fn banner_is_clipped_on_narrow_screen() {
    let mut out = Output::new((10, 8), EditorRows::new(Vec::new()));
    out.draw_rows();
    let rows: Vec<String> =
        (0..8).map(|r| if r == 1 { "Twin Plane".to_string() } else { "~".to_string() }).collect();
    assert_eq!(out.content.as_str(), frame_of(&rows));
}

#[test]
fn banner_with_one_column_spare() {
    let mut out = Output::new((21, 3), EditorRows::new(Vec::new()));
    out.draw_rows();
    let rows = vec!["~Twin Planets Editor".to_string(), "~".to_string(), "~".to_string()];
    assert_eq!(out.content.as_str(), frame_of(&rows));
}

#[test]
fn short_document_on_small_screen() {
    let mut out = Output::new((10, 5), doc(&["abc", "\tdef"]));
    out.draw_rows();
    let rows: Vec<String> = vec!["abc", "        de", "~", "~", "~"]
        .into_iter()
        .map(|s| s.to_string())
        .collect();
    assert_eq!(out.content.as_str(), frame_of(&rows));
}

#[test]
fn column_offset_slices_render() {
    let mut out = Output::new((3, 2), doc(&["abcdef", "ab"]));
    out.move_cursor(Command::End);
    assert_eq!(out.cursor.x, 6);
    assert_eq!(out.cursor.column_offset, 4);
    out.draw_rows();
    let rows = vec!["ef".to_string(), "".to_string()];
    assert_eq!(out.content.as_str(), frame_of(&rows));
}

#[test]
fn refresh_wraps_frame_in_cursor_codes() {
    let mut out = Output::new((10, 3), doc(&["abc", "defgh"]));
    out.move_cursor(Command::Down);
    out.move_cursor(Command::End);
    out.content.clear();
    out.refresh_screen();
    let rows = vec!["abc".to_string(), "defgh".to_string(), "~".to_string()];
    let expected = format!("\x1b[?25l\x1b[1;1H{}\x1b[2;6H\x1b[?25h", frame_of(&rows));
    assert_eq!(out.content.as_str(), expected);
}

#[test]
fn keys_decode_to_commands() {
    assert_eq!(decode(press(Key::Char('q'), CONTROL)), Command::Quit);
    assert_eq!(decode(press(Key::Char('q'), NO_MODIFIERS)), Command::Unrecognized);
    assert_eq!(decode(press(Key::Up, NO_MODIFIERS)), Command::Up);
    assert_eq!(decode(press(Key::Down, NO_MODIFIERS)), Command::Down);
    assert_eq!(decode(press(Key::Left, NO_MODIFIERS)), Command::Left);
    assert_eq!(decode(press(Key::Right, NO_MODIFIERS)), Command::Right);
    assert_eq!(decode(press(Key::Home, NO_MODIFIERS)), Command::Home);
    assert_eq!(decode(press(Key::End, NO_MODIFIERS)), Command::End);
    assert_eq!(decode(press(Key::PageUp, NO_MODIFIERS)), Command::PageUp);
    assert_eq!(decode(press(Key::PageDown, NO_MODIFIERS)), Command::PageDown);
    assert_eq!(decode(press(Key::Up, 1)), Command::Unrecognized);
    assert_eq!(decode(press(Key::Other, NO_MODIFIERS)), Command::Unrecognized);
    assert_eq!(decode(press(Key::Char('q'), CONTROL | 4)), Command::Unrecognized);
}

#[test]
fn editor_cycle_moves_and_quits() {
    let _keyboard = Keyboard::new();
    let mut editor = Editor::new((80, 24), doc(&["one", "two"]));
    editor.refresh_screen();
    assert!(editor.document.content.as_str().starts_with("\x1b[?25l\x1b[1;1Hone\x1b[K\r\ntwo"));
    assert!(editor.process_keypress(press(Key::Down, NO_MODIFIERS)));
    assert!(editor.process_keypress(press(Key::End, NO_MODIFIERS)));
    assert_eq!((editor.document.cursor.x, editor.document.cursor.y), (3, 1));
    assert!(editor.process_keypress(press(Key::Char('x'), NO_MODIFIERS)));
    assert!(!editor.process_keypress(press(Key::Char('q'), CONTROL)));
    assert_eq!((editor.document.cursor.x, editor.document.cursor.y), (3, 1));
}

#[test]
fn unrecognized_clamps_column_to_line() {
    let rows = doc(&["abc"]);
    let mut c = CursorController::new((80, 24));
    c.x = 10;
    c.move_cursor(Command::Unrecognized, &rows);
    assert_eq!((c.x, c.y), (3, 0));
    c.x = 10;
    c.move_cursor(Command::Quit, &rows);
    assert_eq!((c.x, c.y), (10, 0));
}

#[test]
fn render_row_ignores_previous_render() {
    let mut a = Row::new("no tabs here".to_string(), "stale".to_string());
    EditorRows::render_row(&mut a);
    let mut b = Row::new("no tabs here".to_string(), String::new());
    EditorRows::render_row(&mut b);
    let rows = doc(&["no tabs here"]);
    assert_eq!(rows.get_render(0).as_str(), "no tabs here");
    let mut t = Row::new("a\tb".to_string(), "x".to_string());
    EditorRows::render_row(&mut t);
    assert_eq!(t.row_content.as_str(), "a\tb");
    assert_eq!(a.raw_len(), b.raw_len());
}

#[test]
fn refresh_places_cursor_with_two_digit_position() {
    let lines: Vec<String> = (0..30).map(|_| "abcdefghijklmnop".to_string()).collect();
    let mut out = Output::new((12, 10), EditorRows::new(lines));
    for _ in 0..14 {
        out.move_cursor(Command::Down);
    }
    out.move_cursor(Command::End);
    assert_eq!((out.cursor.x, out.cursor.y), (16, 14));
    out.content.clear();
    out.refresh_screen();
    assert_eq!((out.cursor.row_offset, out.cursor.column_offset), (5, 5));
    assert!(out.content.as_str().ends_with("\x1b[10;12H\x1b[?25h"));
}
