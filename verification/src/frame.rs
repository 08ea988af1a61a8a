//! Frames: the sized output of layout, and how one is fitted into a larger or smaller box.

use std::rc::Rc;
use vstd::prelude::*;
use crate::alignment::Align;
use crate::axes::{AxisPair, Point, Size};

verus! {

/// A piece of finished content inside a frame. Layout moves it about and never looks inside.
#[derive(Debug, Clone, Copy, PartialEq, Eq, Structural, Hash)]
pub struct Element {
    /// The name under which the content is known to whoever draws it.
    pub id: u64,
}

/// A finished piece of layout: a box of a given size, and the content placed in it.
#[derive(Debug, PartialEq, Eq, Hash)]
pub struct Frame {
    /// The width and height of the box.
    pub size: Size,
    /// The content, each piece with the offset of its origin from the top left corner of the
    /// box, in drawing order.
    pub elements: Vec<(Point, Element)>,
}

/// What a frame is, apart from where it is stored.
pub ghost struct FrameView {
    /// The width and height of the box.
    pub size: Size,
    /// The content with its offsets, in drawing order.
    pub elements: Seq<(Point, Element)>,
}

impl View for Frame {
    type V = FrameView;

    open spec fn view(&self) -> FrameView {
        FrameView { size: self.size, elements: self.elements@ }
    }
}

impl FrameView {
    /// The frame with every piece of content moved by `offset`. The box stays as it is.
    pub open spec fn translated(self, offset: Point) -> FrameView {
        FrameView {
            size: self.size,
            elements: Seq::new(
                self.elements.len(),
                |i: int| (self.elements[i].0.spec_plus(offset), self.elements[i].1),
            ),
        }
    }

    /// How far the content moves when the box takes the size `target`: on each axis the
    /// alignment decides which share of the room gained (or lost) lies before the content.
    pub open spec fn resize_offset(self, target: Size, aligns: AxisPair<Align>) -> Point {
        let slack = target.spec_minus(self.size);
        AxisPair { x: aligns.x.spec_resolve(slack.x), y: aligns.y.spec_resolve(slack.y) }
    }

    /// The frame with its box set to `target` and its content moved as `aligns` asks.
    pub open spec fn resized(self, target: Size, aligns: AxisPair<Align>) -> FrameView {
        FrameView {
            size: target,
            elements: self.translated(self.resize_offset(target, aligns)).elements,
        }
    }
}

impl Clone for Frame {
    /// Makes a second frame with the same box and the same content.
    fn clone(&self) -> (copy: Frame)
        ensures
            copy@ == self@,
    {
        let mut elements: Vec<(Point, Element)> = Vec::with_capacity(self.elements.len());
        let mut i: usize = 0;
        while i < self.elements.len()
            invariant
                i <= self.elements.len(),
                elements@ == self.elements@.take(i as int),
            decreases self.elements.len() - i,
        {
            elements.push(self.elements[i]);
            assert(self.elements@.take(i as int).push(self.elements@[i as int])
                =~= self.elements@.take(i + 1));
            i += 1;
        }
        assert(self.elements@.take(i as int) =~= self.elements@);
        Frame { size: self.size, elements }
    }
}

impl Frame {
    /// Makes an empty frame of the given size.
    pub fn new(size: Size) -> (frame: Frame)
        ensures
            frame@ == (FrameView { size, elements: Seq::empty() }),
    {
        Frame { size, elements: Vec::new() }
    }

    /// Takes a frame out of shared ownership so that it can be changed. A frame that nobody
    /// else holds is handed over as it is. One that is shared is copied, and the other
    /// holders keep theirs.
    pub fn into_unique(shared: Rc<Frame>) -> (frame: Frame)
        ensures
            frame@ == shared@,
    {
        match Rc::try_unwrap(shared) {
            Ok(frame) => frame,
            Err(shared) => (*shared).clone(),
        }
    }

    /// Adds a piece of content on top of what the frame holds, at offset `pos`.
    pub fn push(&mut self, pos: Point, element: Element)
        ensures
            final(self)@ == (FrameView {
                size: old(self)@.size,
                elements: old(self)@.elements.push((pos, element)),
            }),
    {
        self.elements.push((pos, element));
    }

    /// Moves all content by `offset`.
    pub fn translate(&mut self, offset: Point)
        ensures
            final(self)@ == old(self)@.translated(offset),
    {
        let n = self.elements.len();
        let mut i: usize = 0;
        while i < n
            invariant
                i <= n,
                n == old(self).elements@.len(),
                self.size == old(self).size,
                self.elements@.len() == n,
                forall|j: int|
                    0 <= j < i ==> self.elements@[j] == old(self)@.translated(offset).elements[j],
                forall|j: int| i <= j < n ==> self.elements@[j] == old(self).elements@[j],
            decreases n - i,
        {
            let (pos, element) = self.elements[i];
            self.elements.set(i, (pos.plus(offset), element));
            i += 1;
        }
        assert(self.elements@ =~= old(self)@.translated(offset).elements);
    }

    /// Sets the size of the box to `target`. The room gained or lost on an axis goes after the
    /// content where that axis is aligned to its start, before the content where it is
    /// aligned to its end, and half of it to either side where it is centered.
    pub fn resize(&mut self, target: Size, aligns: AxisPair<Align>)
        ensures
            final(self)@ == old(self)@.resized(target, aligns),
    {
        if self.size.x != target.x || self.size.y != target.y {
            let slack = target.minus(self.size);
            let offset = AxisPair::new(aligns.x.resolve(slack.x), aligns.y.resolve(slack.y));
            self.size = target;
            self.translate(offset);
        } else {
            assert(self@.resized(target, aligns).elements =~= self@.elements);
        }
    }
}

} // verus!
