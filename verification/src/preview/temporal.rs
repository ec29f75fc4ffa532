//! When a decoded frame is shown: its presentation interval, and whether it covers the
//! time that was asked for.

use vstd::prelude::*;

verus! {

/// What established the presentation interval of a frame.
#[derive(Debug, Clone, Copy, PartialEq, Eq, Structural, Default)]
pub enum PreviewTemporalExtentSource {
    /// Nothing: only its start is known.
    #[default]
    Unknown,
    /// The duration that the frame came with.
    FrameDuration,
    /// The start of the next frame.
    SuccessorBoundary,
}

/// The presentation interval that was selected for a request.
#[derive(Debug, Clone, Copy, PartialEq, Eq, Structural)]
pub struct PreviewDecodeTemporalSelection {
    pub requested_pts: i64,
    /// First timestamp of the interval.
    pub selected_pts: i64,
    /// Its length, which is positive.
    pub selected_duration_pts: i64,
    pub extent_source: PreviewTemporalExtentSource,
    /// Whether another frame than the requested one was selected on purpose.
    pub temporal_approximation: bool,
}

/// The presentation interval of a decoded frame, as far as it is known.
#[derive(Debug, Clone, Copy, PartialEq, Eq, Structural)]
pub struct DecodedTemporalExtent {
    pub start_pts: i64,
    pub duration_pts: Option<i64>,
    pub source: PreviewTemporalExtentSource,
}

/// An interval of which only the start is known.
pub open spec fn point(start: i64) -> DecodedTemporalExtent {
    DecodedTemporalExtent {
        start_pts: start,
        duration_pts: None,
        source: PreviewTemporalExtentSource::Unknown,
    }
}

/// The interval of a frame with a duration. One that is not positive, or leads out of
/// 64 bits, says nothing.
pub open spec fn lasting(start: i64, duration: i64) -> DecodedTemporalExtent {
    if duration <= 0 || start + duration > i64::MAX {
        point(start)
    } else {
        DecodedTemporalExtent {
            start_pts: start,
            duration_pts: Some(duration),
            source: PreviewTemporalExtentSource::FrameDuration,
        }
    }
}

/// The interval of a frame whose successor is known: the frame is held until then,
/// whatever duration it came with.
pub open spec fn followed(extent: DecodedTemporalExtent, successor: i64) -> DecodedTemporalExtent {
    if successor <= extent.start_pts || successor - extent.start_pts > i64::MAX {
        extent
    } else {
        DecodedTemporalExtent {
            start_pts: extent.start_pts,
            duration_pts: Some((successor - extent.start_pts) as i64),
            source: PreviewTemporalExtentSource::SuccessorBoundary,
        }
    }
}

impl DecodedTemporalExtent {
    /// Where the interval ends, where that is known and fits.
    pub open spec fn spec_end(&self) -> Option<int> {
        match self.duration_pts {
            Some(duration) => if i64::MIN <= self.start_pts + duration <= i64::MAX {
                Some(self.start_pts + duration)
            } else {
                None
            },
            None => None,
        }
    }

    /// Whether a time lies in the interval. The start always does.
    pub open spec fn spec_covers(&self, requested: int) -> bool {
        requested == self.start_pts || (requested > self.start_pts && (self.spec_end() matches Some(
            end,
        ) && requested < end))
    }

    /// An interval of which only the start is known.
    pub fn point(start_pts: i64) -> (r: DecodedTemporalExtent)
        ensures
            r == point(start_pts),
    {
        DecodedTemporalExtent {
            start_pts,
            duration_pts: None,
            source: PreviewTemporalExtentSource::Unknown,
        }
    }

    /// The interval of a frame with a duration.
    pub fn from_duration(start_pts: i64, duration_pts: i64) -> (r: DecodedTemporalExtent)
        ensures
            r == lasting(start_pts, duration_pts),
    {
        if duration_pts <= 0 || start_pts.checked_add(duration_pts).is_none() {
            return DecodedTemporalExtent::point(start_pts);
        }
        DecodedTemporalExtent {
            start_pts,
            duration_pts: Some(duration_pts),
            source: PreviewTemporalExtentSource::FrameDuration,
        }
    }

    /// The interval of a frame whose successor is known.
    pub fn with_successor(self, successor_pts: i64) -> (r: DecodedTemporalExtent)
        ensures
            r == followed(self, successor_pts),
    {
        match successor_pts.checked_sub(self.start_pts) {
            None => self,
            Some(duration) => {
                if duration <= 0 {
                    return self;
                }
                DecodedTemporalExtent {
                    start_pts: self.start_pts,
                    duration_pts: Some(duration),
                    source: PreviewTemporalExtentSource::SuccessorBoundary,
                }
            },
        }
    }

    /// Where the interval ends.
    pub fn end_pts(self) -> (r: Option<i64>)
        ensures
            match (r, self.spec_end()) {
                (Some(end), Some(expected)) => end == expected,
                (None, None) => true,
                _ => false,
            },
    {
        match self.duration_pts {
            Some(duration) => self.start_pts.checked_add(duration),
            None => None,
        }
    }

    /// Whether a time lies in the interval.
    pub fn covers(self, requested_pts: i64) -> (r: bool)
        ensures
            r == self.spec_covers(requested_pts as int),
    {
        requested_pts == self.start_pts || (requested_pts > self.start_pts && match self.end_pts() {
            Some(end) => requested_pts < end,
            None => false,
        })
    }

    /// How far a time is from the start of the interval, as far as 64 bits hold it.
    pub fn distance_to(self, requested_pts: i64) -> (r: i64)
        ensures
            r == ({
                let distance = if self.start_pts < requested_pts {
                    requested_pts - self.start_pts
                } else {
                    self.start_pts - requested_pts
                };
                if distance > i64::MAX {
                    i64::MAX as int
                } else {
                    distance
                }
            }),
            r >= 0,
            r == 0 <==> requested_pts == self.start_pts,
            r < i64::MAX ==> self.start_pts + r == requested_pts || self.start_pts - r
                == requested_pts,
    {
        let difference: i128 = self.start_pts as i128 - requested_pts as i128;
        let distance: i128 = if difference < 0 {
            -difference
        } else {
            difference
        };
        if distance > 0x7fff_ffff_ffff_ffff {
            i64::MAX
        } else {
            distance as i64
        }
    }
}

/// Whether a selected interval does not cover the time that was asked for.
pub open spec fn approximates(requested: i64, selected: Option<DecodedTemporalExtent>) -> bool {
    selected matches Some(extent) && !extent.spec_covers(requested as int)
}

/// Whether a selected interval does not cover the time that was asked for. Nothing
/// selected approximates nothing.
pub fn temporal_selection_is_approximate(
    requested_pts: i64,
    selected_extent: Option<DecodedTemporalExtent>,
) -> (r: bool)
    ensures
        r == approximates(requested_pts, selected_extent),
{
    match selected_extent {
        Some(extent) => !extent.covers(requested_pts),
        None => false,
    }
}

/// Intervals of successive frames do not overlap: a time before the successor belongs to
/// the frame, from its start on, and the successor's own start does not.
pub proof fn successors_bound_frames(extent: DecodedTemporalExtent, successor: i64, time: i64)
    requires
        extent.start_pts < successor,
        successor - extent.start_pts <= i64::MAX,
    ensures
        followed(extent, successor).spec_covers(time as int) <==> extent.start_pts <= time
            < successor,
{
}

/// What is known of an interval never claims more than it shows: without an end only the
/// start is covered.
pub proof fn points_cover_themselves(start: i64, time: i64, duration: i64)
    ensures
        point(start).spec_covers(time as int) <==> time == start,
        lasting(start, duration).spec_covers(start as int),
        duration > 0 && start + duration <= i64::MAX ==> (lasting(start, duration).spec_covers(
            time as int,
        ) <==> start <= time < start + duration),
{
}

/// An interval holds the times from its start up to its end, without the end. One of which
/// only the start is known holds that alone.
pub proof fn intervals_hold_their_times(start: i64, duration: i64, time: i64)
    ensures
        duration > 0 && start + duration <= i64::MAX ==> (lasting(start, duration).spec_covers(
            time as int,
        ) <==> start <= time < start + duration),
        duration <= 0 || start + duration > i64::MAX ==> lasting(start, duration) == point(start),
        point(start).spec_covers(time as int) <==> time == start,
        point(start).spec_end() is None,
        lasting(start, duration).start_pts == start,
        approximates(time, Some(point(start))) <==> time != start,
        duration > 0 && start + duration <= i64::MAX ==> (approximates(
            time,
            Some(lasting(start, duration)),
        ) <==> time < start || time >= start + duration),
        !approximates(time, None),
{
}

/// A frame is held until its successor, whatever duration it came with. A successor that does
/// not lie ahead says nothing.
pub proof fn frames_last_until_their_successor(
    extent: DecodedTemporalExtent,
    successor: i64,
    time: i64,
)
    ensures
        successor <= extent.start_pts ==> followed(extent, successor) == extent,
        extent.start_pts < successor && successor - extent.start_pts <= i64::MAX ==> {
            &&& followed(extent, successor).spec_end() == Some(successor as int)
            &&& followed(extent, successor).source is SuccessorBoundary
            &&& followed(extent, successor).spec_covers(time as int) <==> extent.start_pts <= time
                < successor
        },
        followed(extent, successor).start_pts == extent.start_pts,
{
}

} // verus!