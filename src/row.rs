//! One line of text, measured in user-perceived characters.
use unicode_segmentation::UnicodeSegmentation;
use vstd::prelude::*;

verus! {

/// The number of extended grapheme clusters in a text.
pub uninterp spec fn grapheme_count(s: Seq<char>) -> nat;

/// Relies on `UnicodeSegmentation::graphemes(true)` of unicode-segmentation,
/// counted: every cluster it yields is a non-empty slice of the text, so there
/// are no more clusters than characters, and at least one in a non-empty text.
#[verifier::external_body]
pub(crate) fn count_graphemes(s: &str) -> (r: usize)
    ensures
        r as nat == grapheme_count(s@),
        r <= s@.len(),
        r == 0 <==> s@.len() == 0,
{
    s.graphemes(true).count()
}

/// A line of text. Its length is the number of grapheme clusters it holds,
/// which is what the terminal shows as characters.
#[derive(Clone, Debug)]
pub struct Row {
    pub content: String,
}

impl View for Row {
    type V = Seq<char>;

    open spec fn view(&self) -> Seq<char> {
        self.content@
    }
}

impl Row {
    /// The length of the line in grapheme clusters.
    pub open spec fn width(&self) -> nat {
        grapheme_count(self@)
    }

    /// A line holding a copy of `x`.
    pub fn from(x: &str) -> (r: Row)
        ensures
            r@ == x@,
    {
        Row { content: x.to_string() }
    }

    /// The text of the line, as it is shown.
    pub fn text(&self) -> (r: &str)
        ensures
            r@ == self@,
    {
        self.content.as_str()
    }

    /// The number of grapheme clusters in the line.
    pub fn len(&self) -> (r: usize)
        ensures
            r as nat == self.width(),
            r <= self@.len(),
            r == 0 <==> self@.len() == 0,
    {
        count_graphemes(self.content.as_str())
    }
}

} // verus!
