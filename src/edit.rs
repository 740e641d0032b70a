//! The editor: a buffer, its name, the terminal's size and the cursor, driven
//! one key at a time.
use crate::file::{load_file, splits_into, File};
use crate::nav::{ended, line_width, step, Key, FIRST_ROW};
use crate::term::{drawn, lemma_drawn_push, title, title_breaks, title_of, DrawOp, Drawn, Terminal};
use crate::row::grapheme_count;
use vstd::prelude::*;

verus! {

/// A cursor position: 1-based terminal row and column.
#[derive(Clone, Copy, Debug, PartialEq, Eq, Structural)]
pub struct Coord {
    pub row: usize,
    pub col: usize,
}

impl Default for Coord {
    /// The first line's row, at column 1.
    fn default() -> (r: Coord)
        ensures
            r.row == FIRST_ROW,
            r.col == 1,
    {
        Coord { row: FIRST_ROW, col: 1 }
    }
}

/// The commands that draw `texts` one under another: a line break after each
/// line.
pub open spec fn lines_with_breaks(texts: Seq<Seq<char>>) -> Seq<Drawn>
    decreases texts.len(),
{
    if texts.len() == 0 {
        Seq::empty()
    } else {
        lines_with_breaks(texts.drop_last()) + seq![Drawn::Print(texts.last()), Drawn::NewLine]
    }
}

/// The commands that draw the buffer's lines: a line break after every line
/// but the last, so the caret rests at the end of the last line.
pub open spec fn body(texts: Seq<Seq<char>>) -> Seq<Drawn> {
    if texts.len() == 0 {
        Seq::empty()
    } else {
        lines_with_breaks(texts.drop_last()) + seq![Drawn::Print(texts.last())]
    }
}

/// The commands that clear the screen and draw the title bar for a name of
/// `len` clusters, then hide the caret.
pub open spec fn header(name: Seq<char>, len: nat, width: nat) -> Seq<Drawn> {
    seq![Drawn::ClearScreen, Drawn::ResetForeground, Drawn::Inverse, Drawn::Print(title_of(name, len, width))]
        + (if title_breaks(len, width) { seq![Drawn::NewLine] } else { Seq::empty() })
        + seq![Drawn::ResetColors, Drawn::HideCursor]
}

/// The editor's state.
pub struct Editor {
    pub should_exit: bool,
    pub terminal: Terminal,
    pub cursor_pos: Coord,
    pub file_name: String,
    pub file: File,
}

impl Editor {
    /// An editor for the file named `filename`, whose contents reading gave as
    /// `contents` (`None` where it could not be read). An empty name gives an
    /// unnamed editor on the empty buffer, whatever `contents` holds. The
    /// cursor starts on the first line's row, at column 1.
    pub fn new(filename: String, contents: Option<String>, terminal: Terminal) -> (r: Editor)
        ensures
            !r.should_exit,
            r.terminal == terminal,
            r.cursor_pos.row == FIRST_ROW,
            r.cursor_pos.col == 1,
            !r.file.dirty,
            filename@.len() == 0 ==> r.file_name@ == "[Unnamed]"@ && r.file.lines@.len() == 0,
            filename@.len() > 0 ==> r.file_name@ == filename@,
            filename@.len() > 0 && contents is None ==> r.file.lines@.len() == 0,
            filename@.len() > 0 && contents is Some ==> splits_into(contents->0@, r.file.texts()),
    {
        if filename.as_str().is_empty() {
            return Editor {
                should_exit: false,
                terminal,
                cursor_pos: Coord::default(),
                file_name: String::from_str("[Unnamed]"),
                file: File::empty(),
            };
        }
        Editor {
            should_exit: false,
            terminal,
            cursor_pos: Coord::default(),
            file: load_file(contents),
            file_name: filename,
        }
    }

    /// The length of the line shown on `row`, or 0 where no line is shown.
    fn width_at(&self, row: usize) -> (r: usize)
        ensures
            r as nat == line_width(self.file.widths(), row as nat),
    {
        if row >= FIRST_ROW && row - FIRST_ROW < self.file.lines.len() {
            self.file.lines[row - FIRST_ROW].len()
        } else {
            0
        }
    }

    /// Moves the cursor, or marks the session ended, as key `key` asks.
    pub fn proc_key(&mut self, key: Key)
        ensures
            final(self).should_exit == ended(old(self).should_exit, key),
            (final(self).cursor_pos.row as nat, final(self).cursor_pos.col as nat) == step(
                old(self).file.widths(),
                old(self).cursor_pos.row as nat,
                old(self).cursor_pos.col as nat,
                key,
            ),
            final(self).terminal == old(self).terminal,
            final(self).file_name == old(self).file_name,
            final(self).file == old(self).file,
    {
        let ghost ws = self.file.widths();
        let n = self.file.lines.len();
        let mut row = self.cursor_pos.row;
        let mut col = self.cursor_pos.col;
        match key {
            Key::Ctrl(c) => {
                if c == 'q' {
                    self.should_exit = true;
                }
            },
            Key::Up => {
                if n > 0 && row > FIRST_ROW {
                    row = row - 1;
                    let w = self.width_at(row);
                    if col > w {
                        col = w + 1;
                    }
                }
            },
            Key::Down => {
                if n > 0 && row <= n && row < usize::MAX {
                    row = row + 1;
                    let w = self.width_at(row);
                    if col > w {
                        col = w + 1;
                    }
                }
            },
            Key::Left => {
                if n > 0 && col > 1 {
                    col = col - 1;
                } else if n > 0 && row > FIRST_ROW {
                    row = row - 1;
                    if row - FIRST_ROW < n {
                        col = self.width_at(row).saturating_add(1);
                    } else {
                        col = 0;
                    }
                }
            },
            Key::Right => {
                let w = self.width_at(row);
                if n > 0 && col < w.saturating_add(1) {
                    col = col + 1;
                } else if n > 0 && row <= n && row < usize::MAX {
                    row = row + 1;
                    col = 1;
                }
            },
            Key::Home => {
                col = 0;
            },
            Key::End => {
                col = self.width_at(row).saturating_add(1);
            },
            _ => {},
        }
        self.cursor_pos = Coord { row, col };
    }

    /// The commands that draw the title bar and the buffer on a cleared
    /// screen. On a non-empty buffer the cursor is then placed at the row
    /// numbered by the line count and the column numbered by the last line's
    /// length; on an empty one it stays where it was.
    pub fn initialize(&mut self) -> (r: Vec<DrawOp>)
        ensures
            drawn(r@) == header(
                old(self).file_name@,
                grapheme_count(old(self).file_name@),
                old(self).terminal.width as nat,
            ) + body(old(self).file.texts()),
            old(self).file.lines@.len() > 0 ==> final(self).cursor_pos.row == old(self).file.lines@.len()
                && final(self).cursor_pos.col as nat == old(self).file.lines@.last().width(),
            old(self).file.lines@.len() == 0 ==> final(self).cursor_pos == old(self).cursor_pos,
            final(self).should_exit == old(self).should_exit,
            final(self).terminal == old(self).terminal,
            final(self).file_name == old(self).file_name,
            final(self).file == old(self).file,
    {
        let ghost texts = self.file.texts();
        let bar = title(self.file_name.as_str(), self.terminal.width);
        let mut ops: Vec<DrawOp> = Vec::new();
        ops.push(DrawOp::ClearScreen);
        ops.push(DrawOp::ResetForeground);
        ops.push(DrawOp::Inverse);
        ops.push(DrawOp::Print(bar.text));
        if bar.newline {
            ops.push(DrawOp::NewLine);
        }
        ops.push(DrawOp::ResetColors);
        ops.push(DrawOp::HideCursor);
        let ghost head = drawn(ops@);
        assert(head =~= header(
            self.file_name@,
            grapheme_count(self.file_name@),
            self.terminal.width as nat,
        ));
        let n = self.file.lines.len();
        if n > 0 {
            let mut i: usize = 0;
            while i < n - 1
                invariant
                    n == self.file.lines@.len(),
                    n > 0,
                    i <= n - 1,
                    texts == self.file.texts(),
                    drawn(ops@) == head + lines_with_breaks(texts.take(i as int)),
                decreases n - 1 - i,
            {
                let text = self.file.lines[i].content.clone();
                assert(text@ == texts[i as int]);
                let ghost before = ops@;
                ops.push(DrawOp::Print(text));
                proof {
                    lemma_drawn_push(before, DrawOp::Print(text));
                    lemma_drawn_push(before.push(DrawOp::Print(text)), DrawOp::NewLine);
                }
                ops.push(DrawOp::NewLine);
                proof {
                    assert(texts.take(i + 1).drop_last() =~= texts.take(i as int));
                    assert(texts.take(i + 1).last() == texts[i as int]);
                }
                i += 1;
                assert(drawn(ops@) =~= head + lines_with_breaks(texts.take(i as int)));
            }
            let text = self.file.lines[n - 1].content.clone();
            assert(text@ == texts.last());
            let ghost before = ops@;
            ops.push(DrawOp::Print(text));
            proof {
                lemma_drawn_push(before, DrawOp::Print(text));
            }
            assert(texts.take(n - 1) =~= texts.drop_last());
            assert(drawn(ops@) =~= head + body(texts));
            let last = self.file.lines[n - 1].len();
            self.cursor_pos = Coord { row: n, col: last };
        } else {
            assert(drawn(ops@) =~= head + body(texts));
        }
        ops
    }

    /// Takes one key: moves the cursor or ends the session, and gives the
    /// commands that show the result: the caret put at the cursor, and shown
    /// again once the session has ended.
    pub fn handle(&mut self, key: Key) -> (r: Vec<DrawOp>)
        ensures
            final(self).should_exit == ended(old(self).should_exit, key),
            (final(self).cursor_pos.row as nat, final(self).cursor_pos.col as nat) == step(
                old(self).file.widths(),
                old(self).cursor_pos.row as nat,
                old(self).cursor_pos.col as nat,
                key,
            ),
            final(self).terminal == old(self).terminal,
            final(self).file_name == old(self).file_name,
            final(self).file == old(self).file,
            final(self).should_exit ==> drawn(r@) == seq![
                Drawn::Goto(final(self).cursor_pos.row as nat, final(self).cursor_pos.col as nat),
                Drawn::ShowCursor,
            ],
            !final(self).should_exit ==> drawn(r@) == seq![
                Drawn::Goto(final(self).cursor_pos.row as nat, final(self).cursor_pos.col as nat),
            ],
    {
        self.proc_key(key);
        let mut ops: Vec<DrawOp> = Vec::new();
        ops.push(self.refresh());
        if self.should_exit {
            ops.push(DrawOp::ShowCursor);
        }
        assert(drawn(ops@) =~= if self.should_exit {
            seq![Drawn::Goto(self.cursor_pos.row as nat, self.cursor_pos.col as nat), Drawn::ShowCursor]
        } else {
            seq![Drawn::Goto(self.cursor_pos.row as nat, self.cursor_pos.col as nat)]
        });
        ops
    }

    /// The command that puts the terminal's caret where the cursor is.
    pub fn refresh(&self) -> (r: DrawOp)
        ensures
            r@ == Drawn::Goto(self.cursor_pos.row as nat, self.cursor_pos.col as nat),
    {
        DrawOp::Goto { row: self.cursor_pos.row, col: self.cursor_pos.col }
    }
}

} // verus!
