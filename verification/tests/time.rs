use dvs_studio::{EditorError, SourceOffset, TimelineDuration, TimelinePosition, TimelineRange};

#[test]
fn zero_position_is_valid() {
    assert_eq!(TimelinePosition::from_micros(0).as_micros(), 0);
}

#[test]
fn zero_duration_is_rejected() {
    assert_eq!(
        TimelineDuration::from_micros(0),
        Err(EditorError::ZeroDuration)
    );
}

#[test]
fn valid_addition() {
    let start = TimelinePosition::from_micros(1_000);
    let duration = TimelineDuration::from_micros(500).expect("duration");
    assert_eq!(start.checked_add(duration).expect("sum").as_micros(), 1_500);
}

#[test]
fn addition_overflow_is_rejected() {
    let start = TimelinePosition::from_micros(u64::MAX);
    let duration = TimelineDuration::from_micros(1).expect("duration");
    assert_eq!(start.checked_add(duration), Err(EditorError::TimeOverflow));
}

#[test]
fn range_end_and_adjacency() {
    let a = TimelineRange::new(
        TimelinePosition::from_micros(0),
        TimelineDuration::from_micros(10).expect("d"),
    );
    let b = TimelineRange::new(
        TimelinePosition::from_micros(10),
        TimelineDuration::from_micros(5).expect("d"),
    );
    assert_eq!(a.end().expect("end").as_micros(), 10);
    assert!(!a.overlaps(b).expect("overlap"));
    let c = TimelineRange::new(
        TimelinePosition::from_micros(9),
        TimelineDuration::from_micros(2).expect("d"),
    );
    assert!(a.overlaps(c).expect("overlap"));
}

#[test]
fn subtraction_and_underflow() {
    let start = TimelinePosition::from_micros(30);
    let d = TimelineDuration::from_micros(12).expect("d");
    assert_eq!(start.checked_sub(d).expect("sub").as_micros(), 18);
    let big = TimelineDuration::from_micros(31).expect("d");
    assert_eq!(start.checked_sub(big), Err(EditorError::InvalidRange));
}

#[test]
fn duration_until_requires_a_later_end() {
    let a = TimelinePosition::from_micros(100);
    let b = TimelinePosition::from_micros(160);
    assert_eq!(a.checked_duration_until(b).expect("span").as_micros(), 60);
    assert_eq!(b.checked_duration_until(a), Err(EditorError::InvalidRange));
    assert_eq!(a.checked_duration_until(a), Err(EditorError::InvalidRange));
}

#[test]
fn duration_and_offset_addition() {
    let d = TimelineDuration::from_micros(u64::MAX - 1).expect("d");
    let one = TimelineDuration::from_micros(1).expect("one");
    assert_eq!(d.checked_add(one).expect("sum").as_micros(), u64::MAX);
    assert_eq!(
        TimelineDuration::from_micros(u64::MAX).expect("max").checked_add(one),
        Err(EditorError::TimeOverflow)
    );
    assert_eq!(
        SourceOffset::from_micros(7).checked_add(one).expect("offset").as_micros(),
        8
    );
    assert_eq!(
        SourceOffset::from_micros(u64::MAX).checked_add(one),
        Err(EditorError::TimeOverflow)
    );
}

#[test]
fn range_end_overflow_is_reported() {
    let r = TimelineRange::new(
        TimelinePosition::from_micros(u64::MAX),
        TimelineDuration::from_micros(1).expect("d"),
    );
    assert_eq!(r.end(), Err(EditorError::TimeOverflow));
    assert_eq!(r.start().as_micros(), u64::MAX);
    assert_eq!(r.duration().as_micros(), 1);
}
