use vedit::edit::{Coord, Editor};
use vedit::file::{load_file, File};
use vedit::nav::Key;
use vedit::row::Row;
use vedit::term::{title, title_for_len, DrawOp, Terminal};

fn term(width: u16) -> Terminal {
    Terminal { height: 24, width }
}

fn editor_on(text: &str) -> Editor {
    Editor::new("notes.txt".to_string(), Some(text.to_string()), term(80))
}

fn at(ed: &mut Editor, row: usize, col: usize) {
    ed.cursor_pos = Coord { row, col };
}

fn pos(ed: &Editor) -> (usize, usize) {
    (ed.cursor_pos.row, ed.cursor_pos.col)
}

#[test]
fn row_len_counts_graphemes() {
    assert_eq!(Row::from("").len(), 0);
    assert_eq!(Row::from("abc").len(), 3);
    assert_eq!(Row::from("e\u{301}x").len(), 2);
    assert_eq!(Row::from("\u{1F1EB}\u{1F1F7}").len(), 1);
}

#[test]
fn file_is_empty_matches_line_count() {
    assert!(File::empty().is_empty());
    assert!(!load_file(Some(String::new())).is_empty());
}

#[test]
fn load_missing_file_is_empty() {
    let f = load_file(None);
    assert_eq!(f.lines.len(), 0);
    assert!(!f.dirty);
}

#[test]
fn load_splits_lines_in_order() {
    let f = load_file(Some("a\nbb\nccc".to_string()));
    let lens: Vec<usize> = f.lines.iter().map(|r| r.len()).collect();
    assert_eq!(lens, vec![1, 2, 3]);
    assert_eq!(f.lines[0].text(), "a");
    assert_eq!(f.lines[2].text(), "ccc");
    assert!(!f.dirty);
}

#[test]
fn load_trailing_newline_gives_empty_last_line() {
    let f = load_file(Some("x\n".to_string()));
    assert_eq!(f.lines.len(), 2);
    assert_eq!(f.lines[1].text(), "");
    assert_eq!(load_file(Some(String::new())).lines.len(), 1);
}

#[test]
fn title_exact_width_has_no_padding() {
    let bar = title("abcde", 5);
    assert_eq!(bar.text, "abcde");
    assert!(bar.newline);
}

#[test]
fn title_centres_with_remainder_after() {
    let bar = title("abc", 8);
    assert_eq!(bar.text, "  abc   ");
    assert!(bar.newline);
}

#[test]
fn title_too_long_keeps_last_characters() {
    let bar = title("abcdefghij", 6);
    assert_eq!(bar.text, "...hij");
    assert!(!bar.newline);
    let bar = title_for_len("abcdefghij", 10, 7);
    assert_eq!(bar.text, "...ghij");
}

#[test]
fn title_measures_graphemes() {
    // Three clusters in four characters: fits a width of three.
    let bar = title("e\u{301}ab", 3);
    assert_eq!(bar.text, "e\u{301}ab");
    assert!(bar.newline);
}

#[test]
fn title_on_degenerate_terminal_is_a_dot() {
    assert_eq!(title("abc", 1).text, ".");
    assert_eq!(title("", 0).text, ".");
    assert!(!title("abc", 1).newline);
}

#[test]
fn new_without_name_is_unnamed_and_empty() {
    let ed = Editor::new(String::new(), Some("ignored".to_string()), term(80));
    assert_eq!(ed.file_name, "[Unnamed]");
    assert!(ed.file.is_empty());
    assert_eq!(pos(&ed), (2, 1));
    assert!(!ed.should_exit);
}

#[test]
fn new_with_name_loads_contents() {
    let ed = editor_on("one\ntwo");
    assert_eq!(ed.file_name, "notes.txt");
    assert_eq!(ed.file.lines.len(), 2);
    assert_eq!(Coord::default(), Coord { row: 2, col: 1 });
    let missing = Editor::new("gone.txt".to_string(), None, term(80));
    assert!(missing.file.is_empty());
}

#[test]
fn initialize_draws_title_and_lines() {
    let mut ed = Editor::new("ab".to_string(), Some("x\nyz".to_string()), term(6));
    let ops = ed.initialize();
    assert_eq!(
        ops,
        vec![
            DrawOp::ClearScreen,
            DrawOp::ResetForeground,
            DrawOp::Inverse,
            DrawOp::Print("  ab  ".to_string()),
            DrawOp::NewLine,
            DrawOp::ResetColors,
            DrawOp::HideCursor,
            DrawOp::Print("x".to_string()),
            DrawOp::NewLine,
            DrawOp::Print("yz".to_string()),
        ]
    );
    assert_eq!(pos(&ed), (2, 2));
}

#[test]
fn initialize_on_empty_buffer_keeps_cursor() {
    let mut ed = Editor::new(String::new(), None, term(4));
    let ops = ed.initialize();
    assert_eq!(ops.len(), 6);
    assert_eq!(ops[3], DrawOp::Print("...]".to_string()));
    assert_eq!(ops[4], DrawOp::ResetColors);
    assert_eq!(pos(&ed), (2, 1));
}

#[test]
fn up_and_down_clamp_column() {
    let mut ed = editor_on("abcdef\nab\nabcd");
    at(&mut ed, 2, 6);
    ed.proc_key(Key::Down);
    assert_eq!(pos(&ed), (3, 3));
    ed.proc_key(Key::Down);
    assert_eq!(pos(&ed), (4, 3));
    ed.proc_key(Key::Down);
    assert_eq!(pos(&ed), (4, 3));
    at(&mut ed, 4, 5);
    ed.proc_key(Key::Up);
    assert_eq!(pos(&ed), (3, 3));
    ed.proc_key(Key::Up);
    assert_eq!(pos(&ed), (2, 3));
    ed.proc_key(Key::Up);
    assert_eq!(pos(&ed), (2, 3));
}

#[test]
fn left_wraps_to_end_of_previous_line() {
    let mut ed = editor_on("abc\nde");
    at(&mut ed, 3, 2);
    ed.proc_key(Key::Left);
    assert_eq!(pos(&ed), (3, 1));
    ed.proc_key(Key::Left);
    assert_eq!(pos(&ed), (2, 4));
}

#[test]
fn left_at_start_of_first_line_stays() {
    let mut ed = editor_on("abc\nde");
    at(&mut ed, 2, 1);
    ed.proc_key(Key::Left);
    assert_eq!(pos(&ed), (2, 1));
}

#[test]
fn right_wraps_to_start_of_next_line() {
    let mut ed = editor_on("ab\nc");
    at(&mut ed, 2, 2);
    ed.proc_key(Key::Right);
    assert_eq!(pos(&ed), (2, 3));
    ed.proc_key(Key::Right);
    assert_eq!(pos(&ed), (3, 1));
    ed.proc_key(Key::Right);
    assert_eq!(pos(&ed), (3, 2));
    ed.proc_key(Key::Right);
    assert_eq!(pos(&ed), (3, 2));
}

#[test]
fn end_on_empty_line_is_column_one_and_home_is_zero() {
    let mut ed = editor_on("abc\n\nxy");
    at(&mut ed, 3, 1);
    ed.proc_key(Key::End);
    assert_eq!(pos(&ed), (3, 1));
    at(&mut ed, 2, 2);
    ed.proc_key(Key::End);
    assert_eq!(pos(&ed), (2, 4));
    ed.proc_key(Key::Home);
    assert_eq!(pos(&ed), (2, 0));
}

#[test]
fn arrows_do_nothing_on_empty_buffer() {
    let mut ed = Editor::new(String::new(), None, term(80));
    for k in [Key::Up, Key::Down, Key::Left, Key::Right, Key::PageUp, Key::PageDown, Key::Other] {
        ed.proc_key(k);
        assert_eq!(pos(&ed), (2, 1));
    }
    ed.proc_key(Key::End);
    assert_eq!(pos(&ed), (2, 1));
}

#[test]
fn moves_keep_cursor_within_lines() {
    let mut ed = editor_on("hello\n\nwo\nrld!");
    let keys = [
        Key::Down, Key::End, Key::Right, Key::Right, Key::Down, Key::Left, Key::Left,
        Key::Left, Key::Up, Key::Up, Key::Up, Key::End, Key::Down, Key::Down, Key::Down,
        Key::Right, Key::Right, Key::Right, Key::Right, Key::Right, Key::Right,
    ];
    let widths = [5usize, 0, 2, 4];
    for k in keys {
        ed.proc_key(k);
        let (row, col) = pos(&ed);
        assert!((2..=5).contains(&row));
        assert!(col >= 1 && col <= widths[row - 2] + 1);
    }
}

#[test]
fn exit_key_ends_session_and_keeps_cursor() {
    let mut ed = editor_on("abc");
    at(&mut ed, 2, 3);
    let ops = ed.handle(Key::Ctrl('q'));
    assert!(ed.should_exit);
    assert_eq!(ops, vec![DrawOp::Goto { row: 2, col: 3 }, DrawOp::ShowCursor]);
    let again = ed.handle(Key::Ctrl('q'));
    assert!(ed.should_exit);
    assert_eq!(pos(&ed), (2, 3));
    assert_eq!(again, ops);
}

#[test]
fn other_ctrl_keys_do_not_exit() {
    let mut ed = editor_on("abc");
    let ops = ed.handle(Key::Ctrl('x'));
    assert!(!ed.should_exit);
    assert_eq!(ops, vec![DrawOp::Goto { row: 2, col: 1 }]);
    assert_eq!(ed.refresh(), DrawOp::Goto { row: 2, col: 1 });
}
