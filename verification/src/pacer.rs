//! The frame pacer's per-tick decisions.
//!
//! The pacer runs once per display refresh. On the streaming path it polls
//! the decoder for a frame under a deadline of eight tenths of the frame
//! interval, synthesizes a fallback at the predicted vsync time when none
//! arrives, and reprojects the displayed frame with the views that were
//! predicted for its timestamp — found in the history by exact match, or the
//! previous tick's views when the timestamp is unknown. A latency report is
//! due only for a real (non-fallback) frame and only when the runtime clock
//! could be read.

use vstd::prelude::*;
use crate::history::ViewHistory;
use crate::history::ViewSet;
use crate::history::lookup_spec;

verus! {

/// The decoder poll deadline is this fraction of the frame interval.
pub const DECODER_TIMEOUT_NUM: u64 = 8;

/// Denominator of the decoder timeout fraction.
pub const DECODER_TIMEOUT_DEN: u64 = 10;

/// A frame the decoder handed over: its target timestamp and the buffer
/// handle the renderer consumes.
#[derive(Clone, Copy, PartialEq, Eq, Structural, Debug)]
pub struct DecodedFrame {
    pub timestamp_ns: u64,
    pub buffer_handle: u64,
}

/// What one poll iteration decides: hand a frame on, poll again, or give up
/// and fall back.
#[derive(Clone, Copy, PartialEq, Eq, Structural, Debug)]
pub enum PollVerdict {
    Deliver(DecodedFrame),
    Poll,
    TimedOut,
}

/// Everything the streaming path decides for one displayed frame.
#[derive(Clone, Copy, PartialEq, Eq, Structural, Debug)]
pub struct StreamFramePlan {
    pub display_time_ns: u64,
    pub views: ViewSet,
    pub real_frame: bool,
    pub report_latency_ns: Option<u64>,
}

/// When the decoder poll must give up, as an instant: eight tenths of the
/// frame interval past the moment polling began.
pub open spec fn decoder_deadline_spec(now_ns: u64, frame_interval_ns: u64) -> int {
    now_ns + frame_interval_ns * DECODER_TIMEOUT_NUM / (DECODER_TIMEOUT_DEN as int)
}

/// Computes the decoder poll deadline.
pub fn decoder_deadline_ns(now_ns: u64, frame_interval_ns: u64) -> (r: u64)
    requires
        frame_interval_ns <= 2_000_000_000_000,
        now_ns + frame_interval_ns <= u64::MAX,
    ensures
        r == decoder_deadline_spec(now_ns, frame_interval_ns),
{
    now_ns + frame_interval_ns * DECODER_TIMEOUT_NUM / DECODER_TIMEOUT_DEN
}

/// What one poll iteration must decide, given what the decoder returned and
/// the clock against the deadline.
pub open spec fn poll_verdict_spec(
    result: Option<DecodedFrame>,
    now_ns: u64,
    deadline_ns: u64,
) -> PollVerdict {
    match result {
        Some(f) => PollVerdict::Deliver(f),
        None => if now_ns < deadline_ns {
            PollVerdict::Poll
        } else {
            PollVerdict::TimedOut
        },
    }
}

/// One iteration of the decoder poll: a frame is always delivered; with no
/// frame the poll continues only while the deadline has not passed.
pub fn poll_step(result: Option<DecodedFrame>, now_ns: u64, deadline_ns: u64) -> (v: PollVerdict)
    ensures
        v == poll_verdict_spec(result, now_ns, deadline_ns),
{
    match result {
        Some(f) => PollVerdict::Deliver(f),
        None => {
            if now_ns < deadline_ns {
                PollVerdict::Poll
            } else {
                PollVerdict::TimedOut
            }
        },
    }
}

/// The decoder poll is time-boxed: from the deadline on — eight tenths of the
/// frame interval after polling began — the verdict is never to poll again,
/// whether or not a frame ever becomes ready.
pub proof fn lemma_poll_timeboxed(
    result: Option<DecodedFrame>,
    start_ns: u64,
    frame_interval_ns: u64,
    deadline_ns: u64,
    t_ns: u64,
)
    requires
        deadline_ns == decoder_deadline_spec(start_ns, frame_interval_ns),
        t_ns >= deadline_ns,
    ensures
        poll_verdict_spec(result, t_ns, deadline_ns) != PollVerdict::Poll,
        t_ns as int - start_ns as int >= frame_interval_ns * DECODER_TIMEOUT_NUM
            / (DECODER_TIMEOUT_DEN as int) ==> poll_verdict_spec(result, t_ns, deadline_ns)
            != PollVerdict::Poll,
{
}

/// The timestamp the displayed frame is attributed to, and whether it is a
/// real decoded frame: on timeout the fallback is the predicted vsync time
/// with no buffer.
pub open spec fn resolved_timestamp(result: Option<DecodedFrame>, vsync_ns: u64) -> u64 {
    match result {
        Some(f) => f.timestamp_ns,
        None => vsync_ns,
    }
}

/// State the pacer carries across refreshes: the views last adopted from the
/// history, reused whenever a frame's timestamp is not found.
#[derive(Clone, Copy, PartialEq, Eq, Structural, Debug)]
pub struct PacerState {
    pub last_good_views: ViewSet,
}

impl PacerState {
    /// A fresh pacer with the given initial views (the client starts from a
    /// neutral forward-facing view set).
    pub fn new(initial_views: ViewSet) -> (r: PacerState)
        ensures
            r == (PacerState { last_good_views: initial_views }),
    {
        PacerState { last_good_views: initial_views }
    }

    /// Chooses the views a streamed frame is reprojected with: the history
    /// entry whose timestamp matches exactly — remembered as last-good — or
    /// the previous last-good views unchanged when no entry matches.
    pub fn select_stream_views(&mut self, history: &ViewHistory, timestamp_ns: u64) -> (views:
        ViewSet)
        ensures
            views == match lookup_spec(history@, timestamp_ns) {
                Some(v) => v,
                None => old(self).last_good_views,
            },
            final(self).last_good_views == views,
    {
        match history.lookup(timestamp_ns) {
            Some(v) => {
                self.last_good_views = v;
                v
            },
            None => self.last_good_views,
        }
    }

    /// The whole streaming-path decision for one refresh: resolve the frame
    /// (or its fallback), choose the reprojection views, and decide whether a
    /// submission-latency report is due — only for a real frame, and only
    /// when the runtime clock could be read.
    pub fn plan_stream_frame(
        &mut self,
        history: &ViewHistory,
        result: Option<DecodedFrame>,
        vsync_ns: u64,
        clock_ns: Option<u64>,
    ) -> (p: StreamFramePlan)
        ensures
            p.display_time_ns == resolved_timestamp(result, vsync_ns),
            p.real_frame == (result is Some),
            p.views == match lookup_spec(history@, resolved_timestamp(result, vsync_ns)) {
                Some(v) => v,
                None => old(self).last_good_views,
            },
            final(self).last_good_views == p.views,
            p.report_latency_ns == match (result, clock_ns) {
                (Some(_), Some(now)) => Some(
                    (if vsync_ns >= now {
                        (vsync_ns - now) as u64
                    } else {
                        0u64
                    }),
                ),
                _ => None::<u64>,
            },
    {
        let (display_time_ns, real_frame) = match result {
            Some(f) => (f.timestamp_ns, true),
            None => (vsync_ns, false),
        };
        let views = self.select_stream_views(history, display_time_ns);
        let report_latency_ns = if real_frame {
            match clock_ns {
                Some(now) => Some(
                    if vsync_ns >= now {
                        vsync_ns - now
                    } else {
                        0
                    },
                ),
                None => None,
            }
        } else {
            None
        };
        StreamFramePlan { display_time_ns, views, real_frame, report_latency_ns }
    }
}

/// The neutral forward-facing view set the pacer starts from before any
/// history entry has been adopted: identity orientation at the origin, with a
/// narrow symmetric field of view (a tenth of a radian each way).
pub fn default_view_set() -> (r: ViewSet)
    ensures
        r == default_view_set_spec(),
{
    let pose = crate::math::Pose {
        orientation: crate::math::Quat { x: 0, y: 0, z: 0, w: 1_000_000 },
        position: crate::math::Vec3 { x: 0, y: 0, z: 0 },
    };
    let fov = crate::math::Fov { left: -100_000, right: 100_000, up: 100_000, down: -100_000 };
    let eye = crate::history::EyeView { pose, fov };
    ViewSet { left: eye, right: eye }
}

/// The neutral view set, written out.
pub open spec fn default_view_set_spec() -> ViewSet {
    let pose = crate::math::Pose {
        orientation: crate::math::Quat { x: 0, y: 0, z: 0, w: 1_000_000 },
        position: crate::math::Vec3 { x: 0, y: 0, z: 0 },
    };
    let fov = crate::math::Fov {
        left: -100_000i32,
        right: 100_000i32,
        up: 100_000i32,
        down: -100_000i32,
    };
    let eye = crate::history::EyeView { pose, fov };
    ViewSet { left: eye, right: eye }
}

/// The frame interval negotiated from a refresh rate given in millihertz.
pub fn refresh_interval_ns(refresh_millihz: u32) -> (r: u64)
    requires
        refresh_millihz > 0,
    ensures
        r == 1_000_000_000_000u64 / refresh_millihz as u64,
{
    1_000_000_000_000u64 / (refresh_millihz as u64)
}

} // verus!
