use std::rc::Rc;

use align_layout::alignment::Align;
use align_layout::axes::{Axis, AxisPair, Size};
use align_layout::constraints::Constraints;
use align_layout::frame::{Element, Frame};
use align_layout::length::{half, minus, plus};
use align_layout::regions::Region;

#[test]
fn sums_and_differences_saturate() {
    assert_eq!(plus(30, 12), 42);
    assert_eq!(plus(-30, 12), -18);
    assert_eq!(plus(i64::MAX, 1), i64::MAX);
    assert_eq!(plus(i64::MIN, -1), i64::MIN);
    assert_eq!(plus(i64::MAX, i64::MIN), -1);
    assert_eq!(minus(100, 30), 70);
    assert_eq!(minus(30, 100), -70);
    assert_eq!(minus(i64::MAX, -1), i64::MAX);
    assert_eq!(minus(i64::MIN, 1), i64::MIN);
    assert_eq!(minus(0, i64::MIN), i64::MAX);
}

#[test]
fn half_rounds_down() {
    assert_eq!(half(70), 35);
    assert_eq!(half(7), 3);
    assert_eq!(half(1), 0);
    assert_eq!(half(0), 0);
    assert_eq!(half(-1), -1);
    assert_eq!(half(-4), -2);
    assert_eq!(half(-5), -3);
    assert_eq!(half(i64::MAX), 4611686018427387903);
    assert_eq!(half(i64::MIN), -4611686018427387904);
}

#[test]
fn alignments_belong_to_their_axis() {
    assert_eq!(Align::Left.axis(), Axis::Horizontal);
    assert_eq!(Align::Center.axis(), Axis::Horizontal);
    assert_eq!(Align::Right.axis(), Axis::Horizontal);
    assert_eq!(Align::Top.axis(), Axis::Vertical);
    assert_eq!(Align::Horizon.axis(), Axis::Vertical);
    assert_eq!(Align::Bottom.axis(), Axis::Vertical);
}

#[test]
fn alignments_resolve_slack() {
    assert_eq!(Align::Left.resolve(70), 0);
    assert_eq!(Align::Top.resolve(70), 0);
    assert_eq!(Align::Center.resolve(70), 35);
    assert_eq!(Align::Horizon.resolve(41), 20);
    assert_eq!(Align::Right.resolve(70), 70);
    assert_eq!(Align::Bottom.resolve(-8), -8);
    assert_eq!(Align::Center.resolve(-7), -4);
}

#[test]
fn pairs_are_handled_axis_by_axis() {
    let mut pair = AxisPair::new(1, 2);
    pair.set(Axis::Vertical, 5);
    assert_eq!(pair, AxisPair::new(1, 5));
    pair.set(Axis::Horizontal, 9);
    assert_eq!(pair, AxisPair::new(9, 5));
    assert_eq!(pair.map(|v| v * 2), AxisPair::new(18, 10));
    assert_eq!(pair.filter(AxisPair::new(true, false)), AxisPair::new(Some(9), None));
    assert_eq!(pair.filter(AxisPair::new(false, true)), AxisPair::new(None, Some(5)));

    let partial = AxisPair::new(Some(3), None);
    assert_eq!(partial.map_is_none(), AxisPair::new(false, true));
    assert_eq!(partial.map_is_some(), AxisPair::new(true, false));
    assert_eq!(partial.unwrap_or(AxisPair::new(7, 8)), AxisPair::new(3, 8));

    assert_eq!(
        partial.merge(AxisPair::new(Some(7), Some(8))),
        AxisPair::new(Some(3), Some(8))
    );
    assert_eq!(partial.merge(AxisPair::new(None, None)), partial);
    assert_eq!(AxisPair::new(None, None).merge(partial), partial);

    let flags = AxisPair::new(true, false);
    assert_eq!(flags.select(AxisPair::new(1, 2), AxisPair::new(3, 4)), AxisPair::new(1, 4));
    assert_eq!(flags.and(AxisPair::new(true, true)), AxisPair::new(true, false));
    assert_eq!(flags.and(AxisPair::new(false, true)), AxisPair::new(false, false));
    assert_eq!(flags.or(AxisPair::new(false, true)), AxisPair::new(true, true));
    assert_eq!(flags.or(AxisPair::new(false, false)), AxisPair::new(true, false));

    assert_eq!(AxisPair::new(1, 2).plus(AxisPair::new(10, -20)), AxisPair::new(11, -18));
    assert_eq!(AxisPair::new(1, 2).minus(AxisPair::new(10, -20)), AxisPair::new(-9, 22));
    assert_eq!(
        AxisPair::new(i64::MAX, i64::MIN).plus(AxisPair::new(1, -1)),
        AxisPair::new(i64::MAX, i64::MIN)
    );
}

fn sample() -> Frame {
    let mut frame = Frame::new(Size::new(30, 10));
    frame.push(AxisPair::new(0, 0), Element { id: 1 });
    frame.push(AxisPair::new(5, 2), Element { id: 2 });
    frame
}

#[test]
fn frame_starts_empty() {
    let frame = Frame::new(Size::new(30, 10));
    assert_eq!(frame.size, Size::new(30, 10));
    assert!(frame.elements.is_empty());
}

#[test]
fn translate_moves_every_element() {
    let mut frame = sample();
    frame.translate(AxisPair::new(3, -4));
    assert_eq!(frame.size, Size::new(30, 10));
    assert_eq!(
        frame.elements,
        vec![
            (AxisPair::new(3, -4), Element { id: 1 }),
            (AxisPair::new(8, -2), Element { id: 2 }),
        ]
    );
}

#[test]
fn resize_at_the_start_keeps_offsets() {
    let mut frame = sample();
    frame.resize(Size::new(100, 50), AxisPair::new(Align::Left, Align::Top));
    assert_eq!(frame.size, Size::new(100, 50));
    assert_eq!(frame.elements, sample().elements);
}

#[test]
fn resize_at_the_end_moves_by_the_slack() {
    let mut frame = sample();
    frame.resize(Size::new(100, 50), AxisPair::new(Align::Right, Align::Bottom));
    assert_eq!(frame.size, Size::new(100, 50));
    assert_eq!(
        frame.elements,
        vec![
            (AxisPair::new(70, 40), Element { id: 1 }),
            (AxisPair::new(75, 42), Element { id: 2 }),
        ]
    );
}

#[test]
fn resize_in_the_middle_moves_by_half_the_slack() {
    let mut frame = sample();
    frame.resize(Size::new(100, 51), AxisPair::new(Align::Center, Align::Horizon));
    assert_eq!(frame.size, Size::new(100, 51));
    assert_eq!(
        frame.elements,
        vec![
            (AxisPair::new(35, 20), Element { id: 1 }),
            (AxisPair::new(40, 22), Element { id: 2 }),
        ]
    );
}

#[test]
fn resize_to_a_smaller_box_moves_content_back() {
    let mut frame = sample();
    frame.resize(Size::new(20, 5), AxisPair::new(Align::Right, Align::Horizon));
    assert_eq!(frame.size, Size::new(20, 5));
    assert_eq!(
        frame.elements,
        vec![
            (AxisPair::new(-10, -3), Element { id: 1 }),
            (AxisPair::new(-5, -1), Element { id: 2 }),
        ]
    );
}

#[test]
fn resize_to_the_same_size_changes_nothing() {
    let mut frame = sample();
    frame.resize(Size::new(30, 10), AxisPair::new(Align::Right, Align::Bottom));
    assert_eq!(frame, sample());
}

#[test]
fn resize_saturates_at_the_ends_of_the_range() {
    let mut frame = Frame::new(Size::new(i64::MIN, 0));
    frame.push(AxisPair::new(10, i64::MAX), Element { id: 1 });
    frame.resize(Size::new(i64::MAX, 5), AxisPair::new(Align::Right, Align::Bottom));
    assert_eq!(frame.size, Size::new(i64::MAX, 5));
    assert_eq!(frame.elements, vec![(AxisPair::new(i64::MAX, i64::MAX), Element { id: 1 })]);
}

#[test]
fn clone_copies_box_and_content() {
    let frame = sample();
    let copy = frame.clone();
    assert_eq!(copy, frame);
}

#[test]
fn into_unique_hands_over_or_copies() {
    let alone = Rc::new(sample());
    assert_eq!(Frame::into_unique(alone), sample());

    let shared = Rc::new(sample());
    let other = shared.clone();
    let mut mine = Frame::into_unique(shared);
    mine.translate(AxisPair::new(1, 1));
    assert_eq!(*other, sample());
    assert_eq!(mine.elements[0].0, AxisPair::new(1, 1));
}

#[test]
fn constraints_are_checked_against_a_region() {
    let target = Region::new(Size::new(100, 50), Size::new(200, 150), AxisPair::new(true, false));
    let mut cts = Constraints::new(AxisPair::new(true, false));
    assert_eq!(cts.base, AxisPair::new(None, None));
    assert_eq!(cts.exact, AxisPair::new(None, None));
    assert!(cts.check(&target));
    assert!(!Constraints::new(AxisPair::new(true, true)).check(&target));
    assert!(!Constraints::new(AxisPair::new(false, false)).check(&target));

    cts.exact = AxisPair::new(Some(100), None);
    cts.base = AxisPair::new(None, Some(150));
    assert!(cts.check(&target));
    cts.exact = AxisPair::new(Some(100), Some(51));
    assert!(!cts.check(&target));
    cts.exact = AxisPair::new(Some(99), None);
    assert!(!cts.check(&target));
    cts.exact = AxisPair::new(None, None);
    cts.base = AxisPair::new(Some(201), None);
    assert!(!cts.check(&target));
    cts.base = AxisPair::new(None, Some(149));
    assert!(!cts.check(&target));
}
