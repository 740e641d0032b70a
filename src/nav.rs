//! Cursor navigation over a buffer, as a function of the line lengths alone.
//!
//! Rows and columns are 1-based terminal positions. Row 1 holds the title bar,
//! so the line at index `i` is shown on row `i + 2`.
use vstd::prelude::*;

verus! {

/// The row of the first line of the buffer.
pub const FIRST_ROW: usize = 2;

/// A key event, as far as navigation tells keys apart.
#[derive(Clone, Copy, Debug, PartialEq, Eq, Structural)]
pub enum Key {
    Up,
    Down,
    Left,
    Right,
    Home,
    End,
    PageUp,
    PageDown,
    /// A printable key pressed with Ctrl.
    Ctrl(char),
    /// Any key that navigation ignores.
    Other,
}

/// The key that ends the session.
pub open spec fn is_exit(k: Key) -> bool {
    k == Key::Ctrl('q')
}

/// Whether `k` moves the cursor along the buffer: an arrow key or End.
pub open spec fn is_move(k: Key) -> bool {
    k == Key::Up || k == Key::Down || k == Key::Left || k == Key::Right || k == Key::End
}

/// One past `n`, where that fits in a `usize`; else `n`. The column just past
/// the end of a line of `n` characters, and the last row of a buffer of `n`
/// lines, are both this.
pub open spec fn past(n: nat) -> nat {
    if n < usize::MAX {
        n + 1
    } else {
        n
    }
}

/// The row of the last line of a buffer of `n` lines.
pub open spec fn last_row(n: nat) -> nat {
    past(n)
}

/// The length of the line shown on `row`, or 0 where no line is shown there.
pub open spec fn line_width(ws: Seq<nat>, row: nat) -> nat {
    if FIRST_ROW <= row && row - 2 < ws.len() {
        ws[row - 2]
    } else {
        0
    }
}

/// `col`, moved back to just past the end of a line of `w` characters if it
/// lies beyond that.
pub open spec fn clamp_col(col: nat, w: nat) -> nat {
    if col > w + 1 {
        w + 1
    } else {
        col
    }
}

/// The cursor after key `k`, on a buffer whose line lengths are `ws`, from
/// row `row` and column `col`. The arrow keys move only on a non-empty buffer.
/// Up and Down change the row within the buffer and pull the column back to
/// just past the end of the new line. Left at column 1 goes to just past the
/// end of the line above; Right just past the end of a line goes to column 1
/// of the line below. Home goes to column 0, End to just past the end of the
/// line. Every other key, Page Up and Page Down among them, leaves the cursor.
pub open spec fn step(ws: Seq<nat>, row: nat, col: nat, k: Key) -> (nat, nat) {
    let n = ws.len();
    match k {
        Key::Up => if n > 0 && row > FIRST_ROW {
            ((row - 1) as nat, clamp_col(col, line_width(ws, (row - 1) as nat)))
        } else {
            (row, col)
        },
        Key::Down => if n > 0 && row < last_row(n) {
            (row + 1, clamp_col(col, line_width(ws, row + 1)))
        } else {
            (row, col)
        },
        Key::Left => if n > 0 && col > 1 {
            (row, (col - 1) as nat)
        } else if n > 0 && row > FIRST_ROW {
            let up = (row - 1) as nat;
            if up - 2 < n {
                (up, past(line_width(ws, up)))
            } else {
                (up, 0)
            }
        } else {
            (row, col)
        },
        Key::Right => if n > 0 && col < past(line_width(ws, row)) {
            (row, col + 1)
        } else if n > 0 && row < last_row(n) {
            (row + 1, 1)
        } else {
            (row, col)
        },
        Key::Home => (row, 0),
        Key::End => (row, past(line_width(ws, row))),
        _ => (row, col),
    }
}

/// The cursor after the keys `ks`, in order.
pub open spec fn steps(ws: Seq<nat>, row: nat, col: nat, ks: Seq<Key>) -> (nat, nat)
    decreases ks.len(),
{
    if ks.len() == 0 {
        (row, col)
    } else {
        let (r, c) = steps(ws, row, col, ks.drop_last());
        step(ws, r, c, ks.last())
    }
}

/// A cursor that stands on a line of the buffer (on a non-empty one), at a
/// column from 1 to just past the end of that line.
pub open spec fn valid_cursor(ws: Seq<nat>, row: nat, col: nat) -> bool {
    &&& ws.len() > 0 ==> FIRST_ROW <= row <= last_row(ws.len())
    &&& 1 <= col <= line_width(ws, row) + 1
}

/// Moving with the arrow keys and End keeps a valid cursor valid, after any
/// number of keys, on any buffer.
pub proof fn lemma_moves_keep_cursor_valid(ws: Seq<nat>, row: nat, col: nat, ks: Seq<Key>)
    requires
        valid_cursor(ws, row, col),
        forall|i: int| 0 <= i < ks.len() ==> is_move(#[trigger] ks[i]),
    ensures
        valid_cursor(ws, steps(ws, row, col, ks).0, steps(ws, row, col, ks).1),
    decreases ks.len(),
{
    if ks.len() > 0 {
        let front = ks.drop_last();
        assert forall|i: int| 0 <= i < front.len() implies is_move(#[trigger] front[i]) by {
            assert(front[i] == ks[i]);
        }
        lemma_moves_keep_cursor_valid(ws, row, col, front);
        assert(is_move(ks[ks.len() - 1]));
    }
}

/// End on an empty line puts the cursor at column 1; Home puts it at column 0
/// from any column. Neither changes the row.
pub proof fn lemma_end_and_home(ws: Seq<nat>, row: nat, col: nat)
    ensures
        line_width(ws, row) == 0 ==> step(ws, row, col, Key::End) == (row, 1nat),
        step(ws, row, col, Key::Home) == (row, 0nat),
{
}

/// Left at column 1 of the first row leaves the cursor where it is.
pub proof fn lemma_left_at_start(ws: Seq<nat>)
    ensures
        step(ws, FIRST_ROW as nat, 1, Key::Left) == (FIRST_ROW as nat, 1nat),
{
}

/// Whether the session has ended after key `k`, where `exited` says whether it
/// had before.
pub open spec fn ended(exited: bool, k: Key) -> bool {
    exited || is_exit(k)
}

/// The exit key ends the session from any state without moving the cursor,
/// and pressing it again changes nothing.
pub proof fn lemma_exit_idempotent(ws: Seq<nat>, exited: bool, row: nat, col: nat, k: Key)
    requires
        is_exit(k),
    ensures
        ended(exited, k),
        step(ws, row, col, k) == (row, col),
        ended(ended(exited, k), k) == ended(exited, k),
        step(ws, step(ws, row, col, k).0, step(ws, row, col, k).1, k) == step(ws, row, col, k),
{
}

} // verus!
