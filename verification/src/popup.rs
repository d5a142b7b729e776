use vstd::prelude::*;

verus! {

/// Where a popup card is anchored on screen.
#[derive(Debug, Clone, Copy, PartialEq, Eq, Structural)]
pub enum PopupLocation {
    Top,
    Bottom,
    BottomLeft,
    BottomRight,
}

/// A popup card: a title, its body lines, and where it sits on screen.
#[derive(Debug)]
pub struct PopupCard {
    pub title: String,
    pub lines: Vec<String>,
    pub location: PopupLocation,
}

impl PopupCard {
    pub fn new(title: String, lines: Vec<String>, location: PopupLocation) -> (r: Self)
        ensures
            r.title == title,
            r.lines == lines,
            r.location == location,
    {
        Self { title, lines, location }
    }
}

} // verus!
