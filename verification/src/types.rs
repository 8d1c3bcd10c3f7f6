//! Value records shared by the detection and capture layers.

use vstd::prelude::*;

verus! {

/// Detection strength as the exact fraction `numerator / denominator`.
///
/// A well-formed confidence lies in `[0, 1]`: the numerator never exceeds the
/// denominator, and the denominator is positive.
#[derive(Debug, Clone, Copy, PartialEq, Eq, Structural)]
pub struct Confidence {
    pub numerator: u32,
    pub denominator: u32,
}

impl Confidence {
    /// The fraction lies in `[0, 1]`.
    pub open spec fn wf(self) -> bool {
        0 < self.denominator && self.numerator <= self.denominator
    }

    /// The fraction equals one.
    pub open spec fn is_full(self) -> bool {
        self.numerator == self.denominator
    }

    /// `min(count / normalizer, 1)` as a fraction over `normalizer`.
    pub open spec fn saturating(count: nat, normalizer: u32) -> Confidence {
        Confidence {
            numerator: if count < normalizer { count as u32 } else { normalizer },
            denominator: normalizer,
        }
    }

    /// Builds `min(count / normalizer, 1)`.
    pub fn from_count(count: usize, normalizer: u32) -> (c: Confidence)
        ensures
            c == Confidence::saturating(count as nat, normalizer),
            normalizer > 0 ==> c.wf(),
    {
        let numerator: u32 = if count < normalizer as usize { count as u32 } else { normalizer };
        Confidence { numerator, denominator: normalizer }
    }
}

/// The confidence is a saturating function of the count: it lies in
/// `[0, 1]`, it is `count / normalizer` below the normalizer, and it is one
/// from the normalizer on.
pub proof fn lemma_confidence_saturates(count: nat, normalizer: u32)
    requires
        normalizer > 0,
    ensures
        Confidence::saturating(count, normalizer).wf(),
        Confidence::saturating(count, normalizer).denominator == normalizer,
        count < normalizer ==> Confidence::saturating(count, normalizer).numerator == count,
        count >= normalizer <==> Confidence::saturating(count, normalizer).is_full(),
{
}

/// The confidence never falls when the count grows.
pub proof fn lemma_confidence_monotone(fewer: nat, more: nat, normalizer: u32)
    requires
        fewer <= more,
    ensures
        Confidence::saturating(fewer, normalizer).numerator <= Confidence::saturating(
            more,
            normalizer,
        ).numerator,
        Confidence::saturating(fewer, normalizer).denominator == Confidence::saturating(
            more,
            normalizer,
        ).denominator,
{
}

/// Where a cue was found and how strongly.
#[derive(Debug, Clone, Copy, PartialEq, Eq, Structural)]
pub struct Point {
    pub x: i32,
    pub y: i32,
    pub confidence: Confidence,
}

impl Point {
    /// The point of a located cue.
    pub open spec fn of(found: (i32, i32, Confidence)) -> Point {
        Point { x: found.0, y: found.1, confidence: found.2 }
    }

    /// The point of a located cue, or nothing for a cue that was not found.
    pub open spec fn of_option(found: Option<(i32, i32, Confidence)>) -> Option<Point> {
        match found {
            Some(found) => Some(Point::of(found)),
            None => None,
        }
    }

    /// Turns what a locator reports into a point.
    pub fn from_found(found: Option<(i32, i32, Confidence)>) -> (point: Option<Point>)
        ensures
            point == Point::of_option(found),
    {
        match found {
            Some((x, y, confidence)) => Some(Point { x, y, confidence }),
            None => None,
        }
    }
}

/// The outcome of analysing one frame: the two cues, where found, and the
/// durations of capture and detection in milliseconds.
#[derive(Debug, Clone, Copy, PartialEq, Eq, Structural)]
pub struct DetectionResult {
    pub arrow: Option<Point>,
    pub highlight: Option<Point>,
    pub capture_ms: u64,
    pub detect_ms: u64,
}

impl DetectionResult {
    /// No cue and no time spent.
    pub open spec fn is_empty(&self) -> bool {
        &&& self.arrow is None
        &&& self.highlight is None
        &&& self.capture_ms == 0
        &&& self.detect_ms == 0
    }

    /// The outcome that holds no cue and no time spent.
    pub fn empty() -> (result: DetectionResult)
        ensures
            result.is_empty(),
    {
        DetectionResult { arrow: None, highlight: None, capture_ms: 0, detect_ms: 0 }
    }
}

} // verus!
