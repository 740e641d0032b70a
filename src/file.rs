//! The line buffer: the lines of a document in order.
use crate::row::Row;
use vstd::prelude::*;

verus! {

/// The text made of `parts` with a newline between each two.
pub open spec fn join_lines(parts: Seq<Seq<char>>) -> Seq<char>
    decreases parts.len(),
{
    if parts.len() == 0 {
        Seq::empty()
    } else if parts.len() == 1 {
        parts[0]
    } else {
        join_lines(parts.drop_last()) + seq!['\n'] + parts.last()
    }
}

/// The pieces of `text` between newlines: joined back with newlines they give
/// the text, and none holds a newline.
pub open spec fn splits_into(text: Seq<char>, parts: Seq<Seq<char>>) -> bool {
    &&& parts.len() >= 1
    &&& join_lines(parts) == text
    &&& forall|i: int, j: int|
        0 <= i < parts.len() && 0 <= j < parts[i].len() ==> #[trigger] parts[i][j] != '\n'
}

/// Relies on `str::split('\n')`: it yields the pieces of the text between
/// newline characters, in order, at least one (the whole text when it has no
/// newline); each piece is copied into a `String`.
#[verifier::external_body]
fn split_at_newlines(text: &str) -> (r: Vec<String>)
    ensures
        splits_into(text@, r@.map_values(|s: String| s@)),
{
    text.split('\n').map(String::from).collect()
}

/// A buffer of lines. `dirty` is kept for edit tracking and stays false here,
/// since nothing changes the lines once loaded.
#[derive(Clone)]
pub struct File {
    pub lines: Vec<Row>,
    pub dirty: bool,
}

impl File {
    /// The text of each line, in order.
    pub open spec fn texts(&self) -> Seq<Seq<char>> {
        self.lines@.map_values(|r: Row| r@)
    }

    /// The length of each line in grapheme clusters, in order.
    pub open spec fn widths(&self) -> Seq<nat> {
        self.lines@.map_values(|r: Row| r.width())
    }

    /// The buffer with no lines.
    pub fn empty() -> (r: File)
        ensures
            r.lines@.len() == 0,
            !r.dirty,
    {
        File { lines: Vec::new(), dirty: false }
    }

    /// Whether the buffer has no lines.
    pub fn is_empty(&self) -> (r: bool)
        ensures
            r == (self.lines@.len() == 0),
    {
        self.lines.len() == 0
    }
}

/// The buffer for what reading a file gave: `None` where it could not be read,
/// which gives the empty buffer; else the text's lines split at each newline
/// (a text that ends in a newline ends in an empty line).
pub fn load_file(contents: Option<String>) -> (r: File)
    ensures
        !r.dirty,
        contents is None ==> r.lines@.len() == 0,
        contents is Some ==> splits_into(contents->0@, r.texts()),
{
    match contents {
        None => File::empty(),
        Some(text) => {
            let parts = split_at_newlines(text.as_str());
            let mut lines: Vec<Row> = Vec::new();
            let mut i: usize = 0;
            while i < parts.len()
                invariant
                    i <= parts@.len(),
                    lines@.len() == i,
                    forall|k: int| 0 <= k < i ==> #[trigger] lines@[k]@ == parts@[k]@,
                decreases parts@.len() - i,
            {
                lines.push(Row::from(parts[i].as_str()));
                i += 1;
            }
            let r = File { lines, dirty: false };
            assert(r.texts() =~= parts@.map_values(|s: String| s@));
            r
        },
    }
}

} // verus!
