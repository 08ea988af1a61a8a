//! The arguments of a call in a document, before anything is known of their shape.

use vstd::prelude::*;
use crate::alignment::Align;
use crate::axes::AxisPair;

verus! {

/// A value that an author can pass to a function. `C` is the type of content.
#[derive(Debug, PartialEq, Eq, Hash)]
pub enum Value<C> {
    /// A truth value.
    Bool(bool),
    /// A whole number.
    Int(i64),
    /// An alignment along one axis.
    Align(Align),
    /// An alignment along both axes.
    Aligns(AxisPair<Align>),
    /// A piece of content.
    Content(C),
}

/// What is wrong with the arguments of a call.
#[derive(Debug, Clone, Copy, PartialEq, Eq, Structural, Hash)]
pub enum ArgumentError {
    /// No argument is left where the body is expected.
    MissingBody,
    /// The argument that stands where the body is expected is no content. An argument that
    /// was meant as an alignment, but is neither an alignment along one axis nor one along
    /// both, ends up there.
    Unrecognized,
}

/// The arguments of a call that have not been taken yet, in the order in which they were
/// written.
#[derive(Debug, PartialEq, Eq, Hash)]
pub struct Args<C> {
    /// The arguments.
    pub items: Vec<Value<C>>,
}

/// An alignment along one axis as a requested alignment: present on the axis that the
/// alignment belongs to, absent on the other.
pub open spec fn spec_promote(align: Align) -> AxisPair<Option<Align>> {
    (AxisPair { x: None, y: None }).spec_set(align.spec_axis(), Some(align))
}

/// Turns an alignment along one axis into a requested alignment, with nothing requested
/// for the other axis.
pub fn promote(align: Align) -> (aligns: AxisPair<Option<Align>>)
    ensures
        aligns == spec_promote(align),
{
    let mut aligns = AxisPair::new(None, None);
    aligns.set(align.axis(), Some(align));
    aligns
}

/// Turns an alignment along both axes into a requested alignment that is present on both.
pub fn pass_through(aligns: AxisPair<Align>) -> (requested: AxisPair<Option<Align>>)
    ensures
        requested == aligns.spec_present(),
{
    aligns.map(|align: Align| -> (present: Option<Align>)
        ensures
            present == Some(align),
        { Some(align) })
}

impl<C> Value<C> {
    /// The requested alignment that the value stands for, if it has one of the two shapes
    /// of an alignment.
    pub open spec fn spec_aligns(self) -> Option<AxisPair<Option<Align>>> {
        match self {
            Value::Align(align) => Some(spec_promote(align)),
            Value::Aligns(aligns) => Some(aligns.spec_present()),
            _ => None,
        }
    }

    /// Reads the value as a requested alignment. An alignment along one axis and one along
    /// both axes are accepted, nothing else is.
    pub fn aligns(&self) -> (requested: Option<AxisPair<Option<Align>>>)
        ensures
            requested == self.spec_aligns(),
    {
        match self {
            Value::Align(align) => Some(promote(*align)),
            Value::Aligns(aligns) => Some(pass_through(*aligns)),
            _ => None,
        }
    }
}

/// The place of the first argument that has the shape of an alignment, or the number of
/// arguments where none has.
pub open spec fn alignment_position<C>(items: Seq<Value<C>>) -> int
    decreases items.len(),
{
    if items.len() == 0 || items[0].spec_aligns() is Some {
        0
    } else {
        1 + alignment_position(items.drop_first())
    }
}

/// `alignment_position` is the place of the first alignment: it lies within the arguments
/// or just behind them, no argument before it is an alignment, and the argument at it is
/// one, if there is an argument.
pub proof fn lemma_alignment_position<C>(items: Seq<Value<C>>)
    ensures
        0 <= alignment_position(items) <= items.len(),
        forall|j: int|
            0 <= j < alignment_position(items) ==> (#[trigger] items[j]).spec_aligns() is None,
        alignment_position(items) < items.len() ==> items[alignment_position(
            items,
        )].spec_aligns() is Some,
    decreases items.len(),
{
    if items.len() == 0 || items[0].spec_aligns() is Some {
    } else {
        let rest = items.drop_first();
        lemma_alignment_position(rest);
        assert forall|j: int| 0 <= j < alignment_position(items) implies (#[trigger] items[
            j
        ]).spec_aligns() is None by {
            if j > 0 {
                assert(items[j] == rest[j - 1]);
            }
        }
        if alignment_position(rest) < rest.len() {
            assert(items[alignment_position(items)] == rest[alignment_position(rest)]);
        }
    }
}

/// The requested alignment among the arguments: that of the first argument with the shape
/// of an alignment, if there is one.
pub open spec fn found_aligns<C>(items: Seq<Value<C>>) -> Option<AxisPair<Option<Align>>> {
    if alignment_position(items) < items.len() {
        items[alignment_position(items)].spec_aligns()
    } else {
        None
    }
}

/// The arguments that are left when the first alignment has been taken.
pub open spec fn without_aligns<C>(items: Seq<Value<C>>) -> Seq<Value<C>> {
    if alignment_position(items) < items.len() {
        items.remove(alignment_position(items))
    } else {
        items
    }
}

impl<C> Args<C> {
    /// Takes the first argument that has the shape of an alignment, wherever it stands,
    /// and hands out what it requests. Where no argument has that shape, nothing is
    /// taken.
    pub fn find_aligns(&mut self) -> (requested: Option<AxisPair<Option<Align>>>)
        ensures
            requested == found_aligns(old(self).items@),
            final(self).items@ == without_aligns(old(self).items@),
    {
        let mut i: usize = 0;
        while i < self.items.len()
            invariant
                self.items@ == old(self).items@,
                i <= self.items@.len(),
                forall|j: int| 0 <= j < i ==> (#[trigger] self.items@[j]).spec_aligns() is None,
            decreases self.items@.len() - i,
        {
            if let Some(requested) = self.items[i].aligns() {
                proof {
                    lemma_alignment_position(self.items@);
                }
                self.items.remove(i);
                return Some(requested);
            }
            i += 1;
        }
        proof {
            lemma_alignment_position(self.items@);
        }
        None
    }

    /// Takes the first argument as the body of the call. Fails where no argument is left,
    /// and where the first one is no content; it is taken all the same.
    pub fn expect_body(&mut self) -> (body: Result<C, ArgumentError>)
        ensures
            body == spec_body(old(self).items@),
            final(self).items@ == without_body(old(self).items@),
    {
        if self.items.len() == 0 {
            return Err(ArgumentError::MissingBody);
        }
        match self.items.remove(0) {
            Value::Content(content) => Ok(content),
            _ => Err(ArgumentError::Unrecognized),
        }
    }
}

/// The body among the arguments: the first argument, which has to be content.
pub open spec fn spec_body<C>(items: Seq<Value<C>>) -> Result<C, ArgumentError> {
    if items.len() == 0 {
        Err(ArgumentError::MissingBody)
    } else {
        match items[0] {
            Value::Content(content) => Ok(content),
            _ => Err(ArgumentError::Unrecognized),
        }
    }
}

/// The arguments that are left when the body has been taken.
pub open spec fn without_body<C>(items: Seq<Value<C>>) -> Seq<Value<C>> {
    if items.len() == 0 {
        items
    } else {
        items.remove(0)
    }
}

} // verus!
