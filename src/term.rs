//! What the editor asks of the terminal, as data: its size, and the drawing
//! commands that the caller carries out on the real device in order.
use crate::row::{count_graphemes, grapheme_count};
use vstd::prelude::*;
use vstd::string::*;

verus! {

/// The terminal's size in character cells, taken once at startup.
#[derive(Clone, Copy, Debug)]
pub struct Terminal {
    pub height: u16,
    pub width: u16,
}

/// One command to the terminal. Each one that moves the caret or writes text
/// is flushed before the next is carried out.
#[derive(Clone, Debug, PartialEq, Eq)]
pub enum DrawOp {
    /// Erase every cell and put the caret at row 1, column 1.
    ClearScreen,
    /// Set the foreground colour back to the terminal's default.
    ResetForeground,
    /// Black text on a white background, for the title bar.
    Inverse,
    /// Set both colours back to the terminal's defaults.
    ResetColors,
    /// Write the text at the caret.
    Print(String),
    /// Start a new line.
    NewLine,
    /// Put the caret at a 1-based row and column.
    Goto { row: usize, col: usize },
    HideCursor,
    ShowCursor,
}

/// What a drawing command does, with its text as characters.
pub enum Drawn {
    ClearScreen,
    ResetForeground,
    Inverse,
    ResetColors,
    Print(Seq<char>),
    NewLine,
    Goto(nat, nat),
    HideCursor,
    ShowCursor,
}

impl View for DrawOp {
    type V = Drawn;

    open spec fn view(&self) -> Drawn {
        match self {
            DrawOp::ClearScreen => Drawn::ClearScreen,
            DrawOp::ResetForeground => Drawn::ResetForeground,
            DrawOp::Inverse => Drawn::Inverse,
            DrawOp::ResetColors => Drawn::ResetColors,
            DrawOp::Print(s) => Drawn::Print(s@),
            DrawOp::NewLine => Drawn::NewLine,
            DrawOp::Goto { row, col } => Drawn::Goto(*row as nat, *col as nat),
            DrawOp::HideCursor => Drawn::HideCursor,
            DrawOp::ShowCursor => Drawn::ShowCursor,
        }
    }
}

/// What a list of drawing commands does, in order.
pub open spec fn drawn(ops: Seq<DrawOp>) -> Seq<Drawn> {
    ops.map_values(|o: DrawOp| o@)
}

/// Adding a command to a list adds what it does to what the list does.
pub proof fn lemma_drawn_push(ops: Seq<DrawOp>, op: DrawOp)
    ensures
        drawn(ops.push(op)) == drawn(ops).push(op@),
{
    assert(drawn(ops.push(op)) =~= drawn(ops).push(op@));
}

/// The title bar: its text, and whether a line break follows it.
#[derive(Clone, Debug, PartialEq, Eq)]
pub struct TitleBar {
    pub text: String,
    pub newline: bool,
}

/// `n` spaces.
pub open spec fn spaces(n: nat) -> Seq<char> {
    Seq::new(n, |i: int| ' ')
}

/// The title for a name of `name.len()` characters and `len` grapheme clusters
/// on a terminal `width` cells wide. A name wider than the terminal keeps its
/// last `width - 3` characters (none where that is below zero, all where the
/// name has fewer) behind `"..."`; one that fits is centred, the
/// odd space going after it; a terminal of one cell or none shows `"."`.
pub open spec fn title_of(name: Seq<char>, len: nat, width: nat) -> Seq<char> {
    if width <= 1 {
        seq!['.']
    } else if len > width {
        let room: nat = if width >= 3 { (width - 3) as nat } else { 0 };
        let keep = if name.len() < room { name.len() } else { room };
        seq!['.', '.', '.'] + name.subrange(name.len() - keep, name.len() as int)
    } else {
        let front = ((width - len) as nat) / 2;
        let back = (width - front - len) as nat;
        spaces(front) + name + spaces(back)
    }
}

/// Whether the title for a name of `len` clusters is followed by a line break:
/// only a centred one is.
pub open spec fn title_breaks(len: nat, width: nat) -> bool {
    width > 1 && len <= width
}

/// `n` spaces, as a string.
fn space_string(n: usize) -> (r: String)
    ensures
        r@ == spaces(n as nat),
{
    let mut s = String::new();
    let mut i: usize = 0;
    while i < n
        invariant
            i <= n,
            s@ == spaces(i as nat),
        decreases n - i,
    {
        proof {
            reveal_strlit(" ");
        }
        s.append(" ");
        i += 1;
        assert(s@ =~= spaces(i as nat));
    }
    s
}

/// The title bar for `name`, given its length `len` in grapheme clusters.
pub fn title_for_len(name: &str, len: usize, width: u16) -> (r: TitleBar)
    ensures
        r.text@ == title_of(name@, len as nat, width as nat),
        r.newline == title_breaks(len as nat, width as nat),
{
    if width <= 1 {
        proof {
            reveal_strlit(".");
        }
        let text = String::from_str(".");
        assert(text@ =~= seq!['.']);
        TitleBar { text, newline: false }
    } else if len > width as usize {
        let n = name.unicode_len();
        let room: usize = if width >= 3 { width as usize - 3 } else { 0 };
        let keep: usize = if n < room { n } else { room };
        let tail = name.substring_char(n - keep, n);
        proof {
            reveal_strlit("...");
        }
        let mut text = String::from_str("...");
        text.append(tail);
        assert(text@ =~= title_of(name@, len as nat, width as nat));
        TitleBar { text, newline: false }
    } else {
        let front = (width as usize - len) / 2;
        let back = width as usize - front - len;
        let mut text = space_string(front);
        text.append(name);
        let after = space_string(back);
        text.append(after.as_str());
        assert(text@ =~= title_of(name@, len as nat, width as nat));
        TitleBar { text, newline: true }
    }
}

/// The title bar for `name` on a terminal `width` cells wide, measuring the
/// name in grapheme clusters.
pub fn title(name: &str, width: u16) -> (r: TitleBar)
    ensures
        r.text@ == title_of(name@, grapheme_count(name@), width as nat),
        r.newline == title_breaks(grapheme_count(name@), width as nat),
{
    let len = count_graphemes(name);
    title_for_len(name, len, width)
}


/// A name exactly as wide as the terminal is shown with no padding on either
/// side, followed by a line break.
pub proof fn lemma_title_exact_fit(name: Seq<char>, len: nat, width: nat)
    requires
        len == width,
        width > 1,
    ensures
        title_of(name, len, width) == name,
        title_breaks(len, width),
{
    assert(spaces(0) =~= Seq::<char>::empty());
    assert(spaces(0) + name + spaces(0) =~= name);
}

/// A name `d` clusters wider than the terminal is shown as `"..."` and its
/// last `width - 3` characters, so that the title fills the terminal's width
/// in characters, with no line break after it.
pub proof fn lemma_title_truncates(name: Seq<char>, len: nat, width: nat, d: nat)
    requires
        width >= 3,
        d > 0,
        len == width + d,
        len <= name.len(),
    ensures
        title_of(name, len, width) == seq!['.', '.', '.'] + name.subrange(
            name.len() - (width - 3),
            name.len() as int,
        ),
        title_of(name, len, width).len() == width,
        !title_breaks(len, width),
{
}

} // verus!
