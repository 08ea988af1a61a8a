//! Style properties that a node hands down to the content inside it.

use vstd::prelude::*;
use crate::alignment::Align;

verus! {

/// A set of style properties. A property that is not set is taken from the surroundings.
#[derive(Debug, Clone, Copy, PartialEq, Eq, Structural, Hash)]
pub struct Styles {
    /// How the lines of a paragraph are aligned.
    pub par_align: Option<Align>,
}

impl Styles {
    /// Makes a set in which no property is set.
    pub fn new() -> (styles: Styles)
        ensures
            styles == (Styles { par_align: None }),
    {
        Styles { par_align: None }
    }

    /// Sets the alignment of the lines of paragraphs.
    pub fn set_par_align(&mut self, align: Align)
        ensures
            *final(self) == (Styles { par_align: Some(align) }),
    {
        self.par_align = Some(align);
    }
}

} // verus!
