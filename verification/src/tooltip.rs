use vstd::prelude::*;
use crate::util::lemma_split_len;
use crate::util::spec_split;
use crate::util::split_on;

verus! {

/// A tooltip card: a title line and the body lines under it.
#[derive(Debug)]
pub struct ToolTipCard {
    pub title: String,
    pub lines: Vec<String>,
}

impl ToolTipCard {
    pub fn new(title: String, lines: Vec<String>) -> (r: Self)
        ensures
            r.title == title,
            r.lines == lines,
    {
        ToolTipCard { title, lines }
    }

    /// Builds a card from one string: the text up to the first newline is
    /// the title, and each following newline opens another body line.
    pub fn from_string(full_string: &str) -> (r: Self)
        ensures
            r.title@ == spec_split(full_string@, '\n')[0],
            r.lines@.len() == spec_split(full_string@, '\n').len() - 1,
            forall|i: int|
                0 <= i < r.lines@.len() ==> (#[trigger] r.lines@[i])@ == spec_split(
                    full_string@,
                    '\n',
                )[i + 1],
    {
        let mut parts = split_on(full_string, '\n');
        proof {
            lemma_split_len(full_string@, '\n');
        }
        let title = parts.remove(0);
        ToolTipCard { title, lines: parts }
    }
}

} // verus!
