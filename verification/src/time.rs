//! Timeline time types in integer microseconds.
//!
//! These values describe editorial positions on the project timeline. They are
//! independent of playback timestamps.

use vstd::prelude::*;

use crate::error::EditorError;

verus! {

/// Absolute position on the project timeline, in microseconds.
///
/// Zero is valid. Negative positions are not representable.
#[derive(Debug, Clone, Copy, PartialEq, Eq, PartialOrd, Ord, Hash, Structural)]
pub struct TimelinePosition(u64);

/// Strictly positive duration on the project timeline, in microseconds.
#[derive(Debug, Clone, Copy, PartialEq, Eq, PartialOrd, Ord, Hash, Structural)]
pub struct TimelineDuration(u64);

/// Offset into a media source, in microseconds.
///
/// Zero is valid. This is editorial media time, not a playback PTS.
#[derive(Debug, Clone, Copy, PartialEq, Eq, PartialOrd, Ord, Hash, Structural)]
pub struct SourceOffset(u64);

/// Half-open timeline span `[start, start + duration)`.
#[derive(Debug, Clone, Copy, PartialEq, Eq, Hash, Structural)]
pub struct TimelineRange {
    start: TimelinePosition,
    duration: TimelineDuration,
}

impl View for TimelinePosition {
    type V = u64;

    closed spec fn view(&self) -> u64 {
        self.0
    }
}

impl View for TimelineDuration {
    type V = u64;

    closed spec fn view(&self) -> u64 {
        self.0
    }
}

impl View for SourceOffset {
    type V = u64;

    closed spec fn view(&self) -> u64 {
        self.0
    }
}

impl View for TimelineRange {
    type V = (u64, u64);

    closed spec fn view(&self) -> (u64, u64) {
        (self.start@, self.duration@)
    }
}

/// Whether `start + duration` is representable in microseconds.
pub open spec fn end_fits(start: u64, duration: u64) -> bool {
    start + duration <= u64::MAX
}

/// Whether two half-open spans share any timeline sample.
pub open spec fn spans_overlap(a_start: u64, a_dur: u64, b_start: u64, b_dur: u64) -> bool {
    a_start < b_start + b_dur && b_start < a_start + a_dur
}

/// Result of comparing two spans the way [`TimelineRange::overlaps`] does:
/// the ends of both spans must be representable, `a` being checked first.
pub open spec fn overlap_check(a_start: u64, a_dur: u64, b_start: u64, b_dur: u64) -> Result<
    bool,
    EditorError,
> {
    if !end_fits(a_start, a_dur) || !end_fits(b_start, b_dur) {
        Err(EditorError::TimeOverflow)
    } else {
        Ok(spans_overlap(a_start, a_dur, b_start, b_dur))
    }
}

impl TimelinePosition {
    /// Two positions are equal exactly when their microsecond values are.
    pub broadcast proof fn lemma_view_injective(a: TimelinePosition, b: TimelinePosition)
        ensures
            (#[trigger] a@ == #[trigger] b@) <==> a == b,
    {
    }

    /// Creates a timeline position from a non-negative microsecond value.
    pub fn from_micros(micros: u64) -> (p: Self)
        ensures
            p@ == micros,
    {
        TimelinePosition(micros)
    }

    /// Returns the position in microseconds.
    pub fn as_micros(self) -> (us: u64)
        ensures
            us == self@,
    {
        self.0
    }

    /// Adds a duration with overflow checking.
    pub fn checked_add(self, duration: TimelineDuration) -> (r: Result<Self, EditorError>)
        ensures
            end_fits(self@, duration@) <==> r is Ok,
            r matches Ok(p) ==> p@ == self@ + duration@,
            r matches Err(e) ==> e == EditorError::TimeOverflow,
    {
        match self.0.checked_add(duration.as_micros()) {
            Some(sum) => Ok(TimelinePosition(sum)),
            None => Err(EditorError::TimeOverflow),
        }
    }

    /// Subtracts a duration with underflow checking.
    pub fn checked_sub(self, duration: TimelineDuration) -> (r: Result<Self, EditorError>)
        ensures
            duration@ <= self@ <==> r is Ok,
            r matches Ok(p) ==> p@ == self@ - duration@,
            r matches Err(e) ==> e == EditorError::InvalidRange,
    {
        match self.0.checked_sub(duration.as_micros()) {
            Some(diff) => Ok(TimelinePosition(diff)),
            None => Err(EditorError::InvalidRange),
        }
    }

    /// Distance to a later position as a duration.
    pub fn checked_duration_until(self, end: Self) -> (r: Result<TimelineDuration, EditorError>)
        ensures
            self@ < end@ <==> r is Ok,
            r matches Ok(d) ==> d@ == end@ - self@,
            r matches Err(e) ==> e == EditorError::InvalidRange,
    {
        if end.0 <= self.0 {
            return Err(EditorError::InvalidRange);
        }
        Ok(TimelineDuration::from_positive(end.0 - self.0))
    }
}

impl TimelineDuration {
    #[verifier::type_invariant]
    spec fn positive(self) -> bool {
        self.0 > 0
    }

    /// Two durations are equal exactly when their microsecond values are.
    pub broadcast proof fn lemma_view_injective(a: TimelineDuration, b: TimelineDuration)
        ensures
            (#[trigger] a@ == #[trigger] b@) <==> a == b,
    {
    }

    /// Creates a duration from microseconds. Zero is rejected.
    pub fn from_micros(micros: u64) -> (r: Result<Self, EditorError>)
        ensures
            micros > 0 <==> r is Ok,
            r matches Ok(d) ==> d@ == micros,
            r matches Err(e) ==> e == EditorError::ZeroDuration,
    {
        if micros == 0 {
            Err(EditorError::ZeroDuration)
        } else {
            Ok(TimelineDuration(micros))
        }
    }

    /// Builds a duration from a value already known to be positive.
    pub(crate) fn from_positive(micros: u64) -> (d: Self)
        requires
            micros > 0,
        ensures
            d@ == micros,
    {
        TimelineDuration(micros)
    }

    /// Returns the duration in microseconds; it is never zero.
    pub fn as_micros(self) -> (us: u64)
        ensures
            us == self@,
            us > 0,
    {
        proof {
            use_type_invariant(&self);
        }
        self.0
    }

    /// Adds two durations with overflow checking.
    pub fn checked_add(self, other: Self) -> (r: Result<Self, EditorError>)
        ensures
            self@ + other@ <= u64::MAX <==> r is Ok,
            r matches Ok(d) ==> d@ == self@ + other@,
            r matches Err(e) ==> e == EditorError::TimeOverflow,
    {
        proof {
            use_type_invariant(&self);
        }
        match self.0.checked_add(other.0) {
            Some(sum) => Ok(TimelineDuration(sum)),
            None => Err(EditorError::TimeOverflow),
        }
    }
}

impl SourceOffset {
    /// Two offsets are equal exactly when their microsecond values are.
    pub broadcast proof fn lemma_view_injective(a: SourceOffset, b: SourceOffset)
        ensures
            (#[trigger] a@ == #[trigger] b@) <==> a == b,
    {
    }

    /// Creates a source offset from microseconds.
    pub fn from_micros(micros: u64) -> (o: Self)
        ensures
            o@ == micros,
    {
        SourceOffset(micros)
    }

    /// Returns the offset in microseconds.
    pub fn as_micros(self) -> (us: u64)
        ensures
            us == self@,
    {
        self.0
    }

    /// Advances the offset by a duration with overflow checking.
    pub fn checked_add(self, duration: TimelineDuration) -> (r: Result<Self, EditorError>)
        ensures
            end_fits(self@, duration@) <==> r is Ok,
            r matches Ok(o) ==> o@ == self@ + duration@,
            r matches Err(e) ==> e == EditorError::TimeOverflow,
    {
        match self.0.checked_add(duration.as_micros()) {
            Some(sum) => Ok(SourceOffset(sum)),
            None => Err(EditorError::TimeOverflow),
        }
    }
}

impl TimelineRange {
    /// Creates a range from a start position and positive duration.
    pub fn new(start: TimelinePosition, duration: TimelineDuration) -> (r: Self)
        ensures
            r@ == (start@, duration@),
    {
        TimelineRange { start, duration }
    }

    /// Returns the inclusive start.
    pub fn start(self) -> (p: TimelinePosition)
        ensures
            p@ == self@.0,
    {
        self.start
    }

    /// Returns the duration.
    pub fn duration(self) -> (d: TimelineDuration)
        ensures
            d@ == self@.1,
    {
        self.duration
    }

    /// Returns the exclusive end position.
    pub fn end(self) -> (r: Result<TimelinePosition, EditorError>)
        ensures
            end_fits(self@.0, self@.1) <==> r is Ok,
            r matches Ok(p) ==> p@ == self@.0 + self@.1,
            r matches Err(e) ==> e == EditorError::TimeOverflow,
    {
        self.start.checked_add(self.duration)
    }

    /// Returns true when the ranges share any timeline sample.
    ///
    /// Adjacent ranges (`a.end == b.start`) do not overlap. Either end
    /// overflowing yields [`EditorError::TimeOverflow`].
    pub fn overlaps(self, other: Self) -> (r: Result<bool, EditorError>)
        ensures
            r == overlap_check(self@.0, self@.1, other@.0, other@.1),
    {
        let a_end = self.end()?;
        let b_end = other.end()?;
        Ok(self.start.0 < b_end.0 && other.start.0 < a_end.0)
    }
}

} // verus!
