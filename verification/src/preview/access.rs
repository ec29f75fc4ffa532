//! Access policies: how far a decode session may run ahead, how it seeks, and how much it
//! may decode for one frame.

use crate::preview::vocabulary::{
    PreviewDecodeAccessMode, PreviewDecodeAdaptiveHints, PreviewDecodeSeekStrategy,
    PreviewScrubAdaptiveClass, PreviewSeekIndexSource,
};
use vstd::prelude::*;

verus! {

pub const PREVIEW_EXACT_FORWARD_DECODE_BUDGET_FRAMES: usize = 1800;
pub const PREVIEW_SCRUB_FORWARD_DECODE_BUDGET_FRAMES: usize = 240;
pub const PREVIEW_SCRUB_UNINDEXED_FORWARD_DECODE_BUDGET_FRAMES: usize = 96;
pub const PREVIEW_SCRUB_MIN_FORWARD_DECODE_BUDGET_FRAMES: usize = 12;
/// Frames that a threaded decoder may hold back after a seek.
pub const PREVIEW_SCRUB_SEEK_BUDGET_PADDING_FRAMES: usize = 16;
pub const PREVIEW_SCRUB_HOT_FORWARD_DECODE_BUDGET_FRAMES: usize = 72;
pub const PREVIEW_SCRUB_RECOVERY_FORWARD_DECODE_BUDGET_FRAMES: usize = 48;
pub const PREVIEW_SCRUB_HOT_ANY_SEEK_WINDOW_MS: u64 = 250;
pub const PREVIEW_SCRUB_RECOVERY_ANY_SEEK_WINDOW_MS: u64 = 180;
pub const PREVIEW_PLAYBACK_FORWARD_REUSE_FRAMES: i64 = 48;
pub const PREVIEW_SCRUB_FORWARD_REUSE_FRAMES: i64 = 2;
pub const PREVIEW_SCRUB_ANY_SEEK_WINDOW_MS: u64 = 500;

/// How a decode session may go about one request.
#[derive(Debug, Clone, Copy, PartialEq, Eq, Structural)]
pub struct PreviewDecodeAccessPolicy {
    pub access_mode: PreviewDecodeAccessMode,
    /// Frames that a session may run forward to reach its target without a seek.
    pub forward_reuse_frame_window: i64,
    /// Frames that may be decoded for one target.
    pub forward_decode_budget_frames: usize,
    pub use_playback_ring: bool,
    pub keyframe_only: bool,
    pub seek_strategy: PreviewDecodeSeekStrategy,
    pub any_seek_window_ms: u64,
    pub scrub_adaptive_class: PreviewScrubAdaptiveClass,
}

/// The policy of an access mode.
pub open spec fn mode_policy(access_mode: PreviewDecodeAccessMode) -> PreviewDecodeAccessPolicy {
    let exact = PreviewDecodeAccessPolicy {
        access_mode,
        forward_reuse_frame_window: 0,
        forward_decode_budget_frames: 1800,
        use_playback_ring: false,
        keyframe_only: false,
        seek_strategy: PreviewDecodeSeekStrategy::KeyframeBefore,
        any_seek_window_ms: 0,
        scrub_adaptive_class: PreviewScrubAdaptiveClass::Normal,
    };
    match access_mode {
        PreviewDecodeAccessMode::RandomAccessStillFrame => exact,
        PreviewDecodeAccessMode::PlaybackCursor => PreviewDecodeAccessPolicy {
            forward_reuse_frame_window: 48,
            use_playback_ring: true,
            ..exact
        },
        PreviewDecodeAccessMode::ScrubCursor => PreviewDecodeAccessPolicy {
            forward_reuse_frame_window: 2,
            forward_decode_budget_frames: 240,
            keyframe_only: true,
            seek_strategy: PreviewDecodeSeekStrategy::BoundedAnyFrame,
            any_seek_window_ms: 500,
            ..exact
        },
    }
}

/// The smaller of two counts.
pub open spec fn at_most(count: usize, limit: usize) -> usize {
    if limit < count {
        limit
    } else {
        count
    }
}

/// The smaller of two times.
pub open spec fn within(window: u64, limit: u64) -> u64 {
    if limit < window {
        limit
    } else {
        window
    }
}

/// A policy under a scrub pressure: budget and seek window shrink with it.
pub open spec fn under_pressure(
    policy: PreviewDecodeAccessPolicy,
    class: PreviewScrubAdaptiveClass,
) -> PreviewDecodeAccessPolicy {
    let noted = PreviewDecodeAccessPolicy { scrub_adaptive_class: class, ..policy };
    if !(policy.access_mode is ScrubCursor) {
        policy
    } else {
        match class {
            PreviewScrubAdaptiveClass::Normal => noted,
            PreviewScrubAdaptiveClass::HotRegion => PreviewDecodeAccessPolicy {
                forward_decode_budget_frames: at_most(policy.forward_decode_budget_frames, 72),
                any_seek_window_ms: within(policy.any_seek_window_ms, 250),
                ..noted
            },
            PreviewScrubAdaptiveClass::SlowLatency | PreviewScrubAdaptiveClass::Recovery => PreviewDecodeAccessPolicy {
                forward_decode_budget_frames: at_most(policy.forward_decode_budget_frames, 48),
                any_seek_window_ms: within(policy.any_seek_window_ms, 180),
                ..noted
            },
        }
    }
}

/// The length of a frame, at least one tick.
pub open spec fn tick(frame_duration_pts: i64) -> int {
    if frame_duration_pts < 1 {
        1
    } else {
        frame_duration_pts as int
    }
}

/// Frames that a distance takes, rounded up, as far as they can be counted.
pub open spec fn frames_of(distance: int, frame_duration_pts: i64) -> int {
    let frames = (distance + tick(frame_duration_pts) - 1) / tick(frame_duration_pts);
    if distance <= 0 {
        0
    } else if frames > usize::MAX {
        usize::MAX as int
    } else {
        frames
    }
}

/// Frames that a distance takes, rounded up.
pub fn pts_distance_to_frames(distance_pts: i64, frame_duration_pts: i64) -> (r: usize)
    ensures
        r == frames_of(distance_pts as int, frame_duration_pts),
{
    if distance_pts <= 0 {
        return 0;
    }
    let duration: u128 = if frame_duration_pts < 1 {
        1
    } else {
        frame_duration_pts as u128
    };
    let distance: u128 = distance_pts as u128;
    let frames: u128 = (distance + (duration - 1)) / duration;
    if frames > usize::MAX as u128 {
        usize::MAX
    } else {
        frames as usize
    }
}

/// What is known of keyframes around a target.
#[derive(Debug, Clone, Copy, PartialEq, Eq, Structural)]
pub struct SeekAnchors {
    pub source: PreviewSeekIndexSource,
    /// The last keyframe at or before the target.
    pub before: Option<i64>,
    /// The first keyframe after it.
    pub after: Option<i64>,
}

/// The difference of two timestamps, as far as 64 bits hold it.
pub open spec fn pts_difference(a: i64, b: i64) -> int {
    if a - b > i64::MAX {
        i64::MAX as int
    } else if a - b < i64::MIN {
        i64::MIN as int
    } else {
        a - b
    }
}

fn saturating_difference(a: i64, b: i64) -> (r: i64)
    ensures
        r == pts_difference(a, b),
{
    let difference: i128 = a as i128 - b as i128;
    if difference > 0x7fff_ffff_ffff_ffff {
        i64::MAX
    } else if difference < -0x8000_0000_0000_0000 {
        i64::MIN
    } else {
        difference as i64
    }
}

/// Frames with room for those that a threaded decoder holds back.
pub open spec fn padded(frames: int) -> int {
    if frames + 16 > usize::MAX {
        usize::MAX as int
    } else {
        frames + 16
    }
}

/// Frames that scrubbing may decode from a keyframe to its target. A container's index
/// bounds them by the group of pictures; what a session has seen bounds them less.
pub open spec fn anchored_budget(anchors: SeekAnchors, anchor: i64, target: i64, duration: i64) -> int {
    let to_target = padded(frames_of(pts_difference(target, anchor), duration));
    match anchors.source {
        PreviewSeekIndexSource::ProbeBacked => match anchors.after {
            Some(next) => {
                let group = padded(frames_of(pts_difference(next, anchor), duration));
                if group < to_target {
                    group
                } else {
                    to_target
                }
            },
            None => to_target,
        },
        PreviewSeekIndexSource::SessionObserved => if to_target < 12 {
            12
        } else if to_target > 96 {
            96
        } else {
            to_target
        },
        PreviewSeekIndexSource::Absent => 96,
    }
}

/// The policy of a request. Only scrubbing adapts: to its pressure, and to what is known
/// of keyframes. Its budget never falls below that of an unknown stream on that account.
pub open spec fn adapted(
    policy: PreviewDecodeAccessPolicy,
    anchors: SeekAnchors,
    target: i64,
    duration: i64,
    class: PreviewScrubAdaptiveClass,
) -> PreviewDecodeAccessPolicy {
    if !(policy.access_mode is ScrubCursor) {
        policy
    } else {
        let pressed = under_pressure(policy, class);
        let limit = match anchors.before {
            None => 96,
            Some(anchor) => {
                let budget = anchored_budget(anchors, anchor, target, duration);
                if budget < 96 {
                    96
                } else {
                    budget
                }
            },
        };
        PreviewDecodeAccessPolicy {
            forward_decode_budget_frames: at_most(
                pressed.forward_decode_budget_frames,
                limit as usize,
            ),
            ..pressed
        }
    }
}

/// Whether a session at one timestamp may run forward to another: only to a later one,
/// within its window, and not past the end.
pub open spec fn continues(
    policy: PreviewDecodeAccessPolicy,
    last: i64,
    target: i64,
    duration: i64,
    reached_eof: bool,
) -> bool {
    let distance = tick(duration) * policy.forward_reuse_frame_window;
    &&& !reached_eof
    &&& policy.forward_reuse_frame_window > 0
    &&& target > last
    &&& pts_difference(target, last) <= (if distance > i64::MAX {
        i64::MAX as int
    } else {
        distance
    })
}

impl PreviewDecodeAccessPolicy {
    /// The policy of an access mode.
    pub fn for_access_mode(access_mode: PreviewDecodeAccessMode) -> (r: PreviewDecodeAccessPolicy)
        ensures
            r == mode_policy(access_mode),
    {
        match access_mode {
            PreviewDecodeAccessMode::PlaybackCursor => PreviewDecodeAccessPolicy {
                access_mode,
                forward_reuse_frame_window: PREVIEW_PLAYBACK_FORWARD_REUSE_FRAMES,
                forward_decode_budget_frames: PREVIEW_EXACT_FORWARD_DECODE_BUDGET_FRAMES,
                use_playback_ring: true,
                keyframe_only: false,
                seek_strategy: PreviewDecodeSeekStrategy::KeyframeBefore,
                any_seek_window_ms: 0,
                scrub_adaptive_class: PreviewScrubAdaptiveClass::Normal,
            },
            PreviewDecodeAccessMode::ScrubCursor => PreviewDecodeAccessPolicy {
                access_mode,
                forward_reuse_frame_window: PREVIEW_SCRUB_FORWARD_REUSE_FRAMES,
                forward_decode_budget_frames: PREVIEW_SCRUB_FORWARD_DECODE_BUDGET_FRAMES,
                use_playback_ring: false,
                keyframe_only: true,
                seek_strategy: PreviewDecodeSeekStrategy::BoundedAnyFrame,
                any_seek_window_ms: PREVIEW_SCRUB_ANY_SEEK_WINDOW_MS,
                scrub_adaptive_class: PreviewScrubAdaptiveClass::Normal,
            },
            PreviewDecodeAccessMode::RandomAccessStillFrame => PreviewDecodeAccessPolicy {
                access_mode,
                forward_reuse_frame_window: 0,
                forward_decode_budget_frames: PREVIEW_EXACT_FORWARD_DECODE_BUDGET_FRAMES,
                use_playback_ring: false,
                keyframe_only: false,
                seek_strategy: PreviewDecodeSeekStrategy::KeyframeBefore,
                any_seek_window_ms: 0,
                scrub_adaptive_class: PreviewScrubAdaptiveClass::Normal,
            },
        }
    }

    /// This policy under the pressure that a caller sees.
    pub fn apply_adaptive_hints(self, adaptive_hints: PreviewDecodeAdaptiveHints) -> (r:
        PreviewDecodeAccessPolicy)
        ensures
            r == under_pressure(self, adaptive_hints.scrub_class),
    {
        if self.access_mode != PreviewDecodeAccessMode::ScrubCursor {
            return self;
        }
        let mut policy = self;
        policy.scrub_adaptive_class = adaptive_hints.scrub_class;
        let (budget, window): (usize, u64) = match adaptive_hints.scrub_class {
            PreviewScrubAdaptiveClass::Normal => {
                return policy;
            },
            PreviewScrubAdaptiveClass::HotRegion => (
                PREVIEW_SCRUB_HOT_FORWARD_DECODE_BUDGET_FRAMES,
                PREVIEW_SCRUB_HOT_ANY_SEEK_WINDOW_MS,
            ),
            PreviewScrubAdaptiveClass::SlowLatency | PreviewScrubAdaptiveClass::Recovery => (
                PREVIEW_SCRUB_RECOVERY_FORWARD_DECODE_BUDGET_FRAMES,
                PREVIEW_SCRUB_RECOVERY_ANY_SEEK_WINDOW_MS,
            ),
        };
        if budget < policy.forward_decode_budget_frames {
            policy.forward_decode_budget_frames = budget;
        }
        if window < policy.any_seek_window_ms {
            policy.any_seek_window_ms = window;
        }
        policy
    }

    /// Whether a session may run forward to its target instead of a seek.
    pub fn can_continue_forward(
        self,
        last_pts: i64,
        target_pts: i64,
        frame_duration_pts: i64,
        reached_eof: bool,
    ) -> (r: bool)
        ensures
            r == continues(self, last_pts, target_pts, frame_duration_pts, reached_eof),
    {
        if reached_eof || self.forward_reuse_frame_window <= 0 || target_pts <= last_pts {
            return false;
        }
        let duration: i128 = if frame_duration_pts < 1 {
            1
        } else {
            frame_duration_pts as i128
        };
        let window: i128 = self.forward_reuse_frame_window as i128;
        proof {
            assert(0 < duration * window < 0x4000_0000_0000_0000_0000_0000_0000_0000)
                by (nonlinear_arith)
                requires
                    0 < duration < 0x8000_0000_0000_0000,
                    0 < window < 0x8000_0000_0000_0000,
            ;
        }
        let distance: i128 = duration * window;
        let limit: i64 = if distance > 0x7fff_ffff_ffff_ffff {
            i64::MAX
        } else {
            distance as i64
        };
        saturating_difference(target_pts, last_pts) <= limit
    }

    /// Whether no further frame may be decoded for the target.
    pub fn forward_decode_budget_exhausted(self, frames_decoded: usize) -> (r: bool)
        ensures
            r == (frames_decoded >= self.forward_decode_budget_frames),
    {
        frames_decoded >= self.forward_decode_budget_frames
    }

    /// The timestamp that is decoded to: the requested one, in every access mode. A nearby
    /// keyframe may start a seek, but never replaces the target.
    pub fn decode_target_pts(self, requested_pts: i64) -> (r: i64)
        ensures
            r == requested_pts,
    {
        requested_pts
    }

    /// The policy of one request.
    pub fn adapt_for_request(
        self,
        anchors: SeekAnchors,
        target_pts: i64,
        frame_duration_pts: i64,
        adaptive_hints: PreviewDecodeAdaptiveHints,
    ) -> (r: PreviewDecodeAccessPolicy)
        ensures
            r == adapted(self, anchors, target_pts, frame_duration_pts, adaptive_hints.scrub_class),
    {
        if self.access_mode != PreviewDecodeAccessMode::ScrubCursor {
            return self;
        }
        let mut policy = self.apply_adaptive_hints(adaptive_hints);
        let limit: usize = match anchors.before {
            None => PREVIEW_SCRUB_UNINDEXED_FORWARD_DECODE_BUDGET_FRAMES,
            Some(anchor) => {
                let to_target: usize = pts_distance_to_frames(
                    saturating_difference(target_pts, anchor),
                    frame_duration_pts,
                ).saturating_add(PREVIEW_SCRUB_SEEK_BUDGET_PADDING_FRAMES);
                let budget: usize = match anchors.source {
                    PreviewSeekIndexSource::ProbeBacked => match anchors.after {
                        Some(next) => {
                            let group: usize = pts_distance_to_frames(
                                saturating_difference(next, anchor),
                                frame_duration_pts,
                            ).saturating_add(PREVIEW_SCRUB_SEEK_BUDGET_PADDING_FRAMES);
                            if group < to_target {
                                group
                            } else {
                                to_target
                            }
                        },
                        None => to_target,
                    },
                    PreviewSeekIndexSource::SessionObserved => {
                        if to_target < PREVIEW_SCRUB_MIN_FORWARD_DECODE_BUDGET_FRAMES {
                            PREVIEW_SCRUB_MIN_FORWARD_DECODE_BUDGET_FRAMES
                        } else if to_target > PREVIEW_SCRUB_UNINDEXED_FORWARD_DECODE_BUDGET_FRAMES {
                            PREVIEW_SCRUB_UNINDEXED_FORWARD_DECODE_BUDGET_FRAMES
                        } else {
                            to_target
                        }
                    },
                    PreviewSeekIndexSource::Absent => {
                        PREVIEW_SCRUB_UNINDEXED_FORWARD_DECODE_BUDGET_FRAMES
                    },
                };
                if budget < PREVIEW_SCRUB_UNINDEXED_FORWARD_DECODE_BUDGET_FRAMES {
                    PREVIEW_SCRUB_UNINDEXED_FORWARD_DECODE_BUDGET_FRAMES
                } else {
                    budget
                }
            },
        };
        if limit < policy.forward_decode_budget_frames {
            policy.forward_decode_budget_frames = limit;
        }
        policy
    }
}

/// Adapting a policy never widens it, and leaves exact access alone.
pub proof fn adapting_only_narrows(
    policy: PreviewDecodeAccessPolicy,
    anchors: SeekAnchors,
    target: i64,
    duration: i64,
    class: PreviewScrubAdaptiveClass,
)
    ensures
        adapted(policy, anchors, target, duration, class).forward_decode_budget_frames
            <= policy.forward_decode_budget_frames,
        adapted(policy, anchors, target, duration, class).any_seek_window_ms
            <= policy.any_seek_window_ms,
        !(policy.access_mode is ScrubCursor) ==> adapted(policy, anchors, target, duration, class)
            == policy,
        adapted(policy, anchors, target, duration, class).access_mode == policy.access_mode,
{
}

/// A session never counts its own position, or an earlier one, as ahead; and exact still
/// frames are never reached by running forward.
pub proof fn continuing_is_strict(
    policy: PreviewDecodeAccessPolicy,
    last: i64,
    target: i64,
    duration: i64,
    reached_eof: bool,
)
    ensures
        continues(policy, last, target, duration, reached_eof) ==> target > last && !reached_eof,
        !continues(
            mode_policy(PreviewDecodeAccessMode::RandomAccessStillFrame),
            last,
            target,
            duration,
            reached_eof,
        ),
{
}

/// Frames are counted so that they reach as far as the distance, and one fewer would not.
pub proof fn frame_counts_round_up(distance: int, frame_duration_pts: i64)
    requires
        frames_of(distance, frame_duration_pts) < usize::MAX,
    ensures
        distance <= 0 ==> frames_of(distance, frame_duration_pts) == 0,
        distance > 0 ==> {
            &&& frames_of(distance, frame_duration_pts) >= 1
            &&& frames_of(distance, frame_duration_pts) * tick(frame_duration_pts) >= distance
            &&& (frames_of(distance, frame_duration_pts) - 1) * tick(frame_duration_pts) < distance
        },
        frame_duration_pts >= 1 ==> tick(frame_duration_pts) == frame_duration_pts,
        frame_duration_pts < 1 ==> tick(frame_duration_pts) == 1,
{
    let t = tick(frame_duration_pts);
    let frames = (distance + t - 1) / t;
    if distance > 0 {
        assert(frames >= 1 && frames * t >= distance && (frames - 1) * t < distance)
            by (nonlinear_arith)
            requires
                t >= 1,
                distance > 0,
                frames == (distance + t - 1) / t,
        ;
    }
}

/// Exact access seeks to a keyframe and may decode far; playback moreover goes on from where
/// it stands, over 48 frames, and keeps a ring. Scrubbing decodes keyframes near where it
/// seeks, and goes on over 2 frames.
pub proof fn modes_do_what_they_are_for(mode: PreviewDecodeAccessMode)
    ensures
        mode_policy(mode).access_mode == mode,
        mode_policy(mode).use_playback_ring <==> mode is PlaybackCursor,
        mode_policy(mode).keyframe_only <==> mode is ScrubCursor,
        mode_policy(mode).seek_strategy is BoundedAnyFrame <==> mode is ScrubCursor,
        mode_policy(mode).seek_strategy is KeyframeBefore <==> !(mode is ScrubCursor),
        mode_policy(mode).any_seek_window_ms == if mode is ScrubCursor {
            500int
        } else {
            0
        },
        mode_policy(mode).forward_decode_budget_frames == if mode is ScrubCursor {
            240int
        } else {
            1800
        },
        mode_policy(mode).forward_reuse_frame_window == match mode {
            PreviewDecodeAccessMode::PlaybackCursor => 48int,
            PreviewDecodeAccessMode::ScrubCursor => 2,
            PreviewDecodeAccessMode::RandomAccessStillFrame => 0,
        },
        mode_policy(mode).scrub_adaptive_class is Normal,
{
}

/// The more a scrub is pressed, the less it may decode and the nearer it seeks. A hot region
/// has 72 frames and a quarter of a second, a slow or recovering scrub 48 frames and 180
/// milliseconds.
pub proof fn pressure_narrows(policy: PreviewDecodeAccessPolicy, class: PreviewScrubAdaptiveClass)
    requires
        policy.access_mode is ScrubCursor,
    ensures
        ({
            let pressed = under_pressure(policy, class);
            let hot = under_pressure(policy, PreviewScrubAdaptiveClass::HotRegion);
            let slow = under_pressure(policy, PreviewScrubAdaptiveClass::SlowLatency);
            let recovering = under_pressure(policy, PreviewScrubAdaptiveClass::Recovery);
            &&& pressed.scrub_adaptive_class == class
            &&& pressed.keyframe_only == policy.keyframe_only
            &&& pressed.seek_strategy == policy.seek_strategy
            &&& pressed.forward_reuse_frame_window == policy.forward_reuse_frame_window
            &&& class is Normal ==> pressed.forward_decode_budget_frames
                == policy.forward_decode_budget_frames && pressed.any_seek_window_ms
                == policy.any_seek_window_ms
            &&& policy.forward_decode_budget_frames >= 72 ==> hot.forward_decode_budget_frames == 72
            &&& policy.any_seek_window_ms >= 250 ==> hot.any_seek_window_ms == 250
            &&& policy.forward_decode_budget_frames >= 48
                ==> slow.forward_decode_budget_frames == 48
            &&& policy.any_seek_window_ms >= 180 ==> slow.any_seek_window_ms == 180
            &&& recovering.forward_decode_budget_frames == slow.forward_decode_budget_frames
            &&& recovering.any_seek_window_ms == slow.any_seek_window_ms
            &&& slow.forward_decode_budget_frames <= hot.forward_decode_budget_frames
                <= policy.forward_decode_budget_frames
            &&& slow.any_seek_window_ms <= hot.any_seek_window_ms <= policy.any_seek_window_ms
            &&& policy.forward_decode_budget_frames <= 48 ==> pressed.forward_decode_budget_frames
                == policy.forward_decode_budget_frames
        }),
{
}

/// A scrub may always decode as far as one of an unknown stream, 96 frames, unless its
/// pressure allows less. Where a container's index knows the keyframe before the target, it
/// may decode up to the target and 16 frames more, but no further than the next keyframe
/// allows.
pub proof fn scrubs_reach_their_target(
    policy: PreviewDecodeAccessPolicy,
    anchors: SeekAnchors,
    target: i64,
    duration: i64,
    class: PreviewScrubAdaptiveClass,
)
    requires
        policy.access_mode is ScrubCursor,
    ensures
        ({
            let pressed = under_pressure(policy, class).forward_decode_budget_frames;
            let budget = adapted(policy, anchors, target, duration, class).forward_decode_budget_frames;
            &&& budget <= pressed
            &&& pressed <= 96 ==> budget == pressed
            &&& pressed >= 96 ==> budget >= 96
            &&& pressed >= 96 && (anchors.before is None || !(anchors.source is ProbeBacked))
                ==> budget == 96
            &&& anchors.before is Some && anchors.source is ProbeBacked ==> {
                let needed = frames_of(pts_difference(target, anchors.before->0), duration);
                &&& anchors.after is None && needed + 16 <= usize::MAX ==> (budget >= needed + 16
                    || budget == pressed) && (budget <= needed + 16 || budget <= 96)
                &&& anchors.after is Some ==> {
                    let group = frames_of(
                        pts_difference(anchors.after->0, anchors.before->0),
                        duration,
                    );
                    &&& group + 16 <= usize::MAX ==> budget <= group + 16 || budget <= 96
                    &&& needed + 16 <= usize::MAX && group + 16 <= usize::MAX && needed <= group
                        ==> budget >= needed + 16 || budget == pressed
                }
            }
            &&& adapted(policy, anchors, target, duration, class).any_seek_window_ms
                == under_pressure(policy, class).any_seek_window_ms
        }),
{
}

/// A session goes on to a target that lies ahead of it by no more frames than it may go on
/// over, and to no other.
pub proof fn sessions_go_on_within_their_window(
    policy: PreviewDecodeAccessPolicy,
    last: i64,
    target: i64,
    duration: i64,
)
    requires
        duration >= 1,
        duration * policy.forward_reuse_frame_window <= i64::MAX,
        target - last <= i64::MAX,
    ensures
        continues(policy, last, target, duration, false) <==> 0 < target - last <= duration
            * policy.forward_reuse_frame_window,
        !continues(policy, last, target, duration, true),
{
    let window = policy.forward_reuse_frame_window;
    assert(tick(duration) == duration);
    if window <= 0 {
        assert(duration * window <= 0) by (nonlinear_arith)
            requires
                duration >= 1,
                window <= 0,
        ;
    }
}

} // verus!
