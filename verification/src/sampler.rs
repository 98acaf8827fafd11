//! The predictive tracking sampler's per-tick logic.
//!
//! The sampler runs three times per displayed frame on its own thread, paced
//! by an absolute deadline accumulator so per-tick overhead does not drift the
//! schedule. Each tick locates the stereo views at a predicted target time,
//! gates everything head-related on the runtime's validity flags, derives the
//! IPD and deduplicates its change notifications under an epsilon, appends
//! the prediction to the view history, and assembles the device-motion batch
//! (head always when valid, each hand independently when tracked).

use vstd::prelude::*;
use crate::history::HistoryEntry;
use crate::history::ViewHistory;
use crate::history::ViewSet;
use crate::history::push_spec;
use crate::math::COORD_LIMIT_UM;
use crate::math::Fov;
use crate::math::Pose;
use crate::math::Vec3;
use crate::math::abs_diff;
use crate::math::dist_sq;
use crate::math::distance_um;
use crate::math::floor_sqrt;
use crate::math::midpoint;
use crate::math::midpoint_coord;
use crate::math::u64_abs_diff;

verus! {

/// IPD changes smaller than this (in micrometers) are not re-notified.
pub const IPD_CHANGE_EPS_UM: u64 = 1000;

/// The sampler oversamples the display refresh by this factor.
pub const SAMPLER_TICKS_PER_FRAME: u64 = 3;

/// A device the tracking batch can carry a motion for.
#[derive(Clone, Copy, PartialEq, Eq, Structural, Debug)]
pub enum DeviceKind {
    Head,
    LeftHand,
    RightHand,
}

/// A tracked device's motion: pose plus velocities.
#[derive(Clone, Copy, PartialEq, Eq, Structural, Debug)]
pub struct DeviceMotion {
    pub pose: Pose,
    pub linear_velocity: Vec3,
    pub angular_velocity: Vec3,
}

/// Per-stream sampler configuration, negotiated at stream start.
#[derive(Clone, Copy, PartialEq, Eq, Structural, Debug)]
pub struct SamplerConfig {
    pub frame_interval_ns: u64,
    pub head_prediction_offset_ns: u64,
    pub tracker_prediction_offset_ns: u64,
    pub ipd_change_eps_um: u64,
    pub face_tracking: bool,
}

/// State the sampler carries from tick to tick.
#[derive(Clone, Copy, PartialEq, Eq, Structural, Debug)]
pub struct SamplerState {
    pub last_ipd_um: u64,
    pub last_left_hand: Vec3,
    pub last_right_hand: Vec3,
}

impl SamplerState {
    /// The state at stream start: no IPD notified yet, hands at the origin.
    pub fn new() -> (r: SamplerState)
        ensures
            r == (SamplerState {
                last_ipd_um: 0,
                last_left_hand: Vec3 { x: 0, y: 0, z: 0 },
                last_right_hand: Vec3 { x: 0, y: 0, z: 0 },
            }),
    {
        SamplerState {
            last_ipd_um: 0,
            last_left_hand: Vec3 { x: 0, y: 0, z: 0 },
            last_right_hand: Vec3 { x: 0, y: 0, z: 0 },
        }
    }
}

/// What the runtime reported for one tick, already reduced to plain values.
#[derive(Clone, Copy, PartialEq, Eq, Structural, Debug)]
pub struct TickInput {
    pub now_ns: u64,
    pub position_valid: bool,
    pub orientation_valid: bool,
    pub views: ViewSet,
    pub left_hand: Option<DeviceMotion>,
    pub right_hand: Option<DeviceMotion>,
    pub changed_buttons: u64,
}

/// The views-configuration notification: both fields of view and the IPD.
#[derive(Clone, Copy, PartialEq, Eq, Structural, Debug)]
pub struct ViewsConfig {
    pub left_fov: Fov,
    pub right_fov: Fov,
    pub ipd_um: u64,
}

/// Everything one tick decides to emit.
pub struct TickOutput {
    pub target_timestamp_ns: u64,
    pub ipd_notification: Option<ViewsConfig>,
    pub motions: Vec<(DeviceKind, DeviceMotion)>,
    pub sample_face: bool,
    pub send_buttons: bool,
}

/// The sampler period: a third of the display's frame interval.
pub fn sampler_period_ns(frame_interval_ns: u64) -> (r: u64)
    ensures
        r == frame_interval_ns / SAMPLER_TICKS_PER_FRAME,
{
    frame_interval_ns / SAMPLER_TICKS_PER_FRAME
}

/// The next absolute deadline: the previous one plus the period, so per-tick
/// overhead never accumulates.
pub fn advance_deadline_ns(deadline_ns: u64, period_ns: u64) -> (r: u64)
    requires
        deadline_ns + period_ns <= u64::MAX,
    ensures
        r == deadline_ns + period_ns,
{
    deadline_ns + period_ns
}

/// How long to sleep until an absolute deadline; zero when it has passed.
pub fn sleep_until_ns(deadline_ns: u64, now_ns: u64) -> (r: u64)
    ensures
        r == if deadline_ns > now_ns { deadline_ns - now_ns } else { 0int },
{
    if deadline_ns > now_ns {
        deadline_ns - now_ns
    } else {
        0
    }
}

/// The predicted target time the head views are located at.
pub fn head_target_ns(now_ns: u64, cfg: &SamplerConfig) -> (r: u64)
    requires
        now_ns + cfg.head_prediction_offset_ns <= u64::MAX,
    ensures
        r == now_ns + cfg.head_prediction_offset_ns,
{
    now_ns + cfg.head_prediction_offset_ns
}

/// The predicted target time the hand poses are located at.
pub fn tracker_target_ns(now_ns: u64, cfg: &SamplerConfig) -> (r: u64)
    requires
        now_ns + cfg.tracker_prediction_offset_ns <= u64::MAX,
    ensures
        r == now_ns + cfg.tracker_prediction_offset_ns,
{
    now_ns + cfg.tracker_prediction_offset_ns
}

/// The runtime clock is trusted only when positive; a tick with no clock is
/// abandoned.
pub fn normalize_clock(time_nanos: i64) -> (r: Option<u64>)
    ensures
        r == if time_nanos > 0 {
            Some(time_nanos as u64)
        } else {
            None::<u64>
        },
{
    if time_nanos > 0 {
        Some(time_nanos as u64)
    } else {
        None
    }
}

/// The IPD derived from a view set: the distance between the eye positions.
pub open spec fn ipd_of(views: ViewSet) -> int {
    floor_sqrt(dist_sq(views.left.pose.position, views.right.pose.position))
}

/// One IPD reading against the last notified value: `.0` says whether to
/// notify, `.1` is the reference value afterwards (updated only on notify).
pub open spec fn ipd_step(last: u64, reading: u64, eps: u64) -> (bool, u64) {
    if abs_diff(reading as int, last as int) > eps {
        (true, reading)
    } else {
        (false, last)
    }
}

/// Both validity flags must be set before anything head-related is trusted.
pub open spec fn views_valid(input: TickInput) -> bool {
    input.position_valid && input.orientation_valid
}

/// The head pose approximated from the eyes: position at the midpoint of the
/// eye positions, orientation taken from the left eye (the eyes are assumed
/// coplanar and co-oriented).
pub open spec fn head_motion_of(views: ViewSet) -> DeviceMotion {
    DeviceMotion {
        pose: Pose {
            orientation: views.left.pose.orientation,
            position: Vec3 {
                x: midpoint_coord(
                    views.left.pose.position.x as int,
                    views.right.pose.position.x as int,
                ) as i64,
                y: midpoint_coord(
                    views.left.pose.position.y as int,
                    views.right.pose.position.y as int,
                ) as i64,
                z: midpoint_coord(
                    views.left.pose.position.z as int,
                    views.right.pose.position.z as int,
                ) as i64,
            },
        },
        linear_velocity: Vec3 { x: 0, y: 0, z: 0 },
        angular_velocity: Vec3 { x: 0, y: 0, z: 0 },
    }
}

/// The motion batch one tick emits: the head first (only when the views were
/// valid), then each hand that was tracked, left before right.
pub open spec fn expected_motions(input: TickInput) -> Seq<(DeviceKind, DeviceMotion)> {
    (if views_valid(input) {
        seq![(DeviceKind::Head, head_motion_of(input.views))]
    } else {
        Seq::empty()
    }) + (match input.left_hand {
        Some(m) => seq![(DeviceKind::LeftHand, m)],
        None => Seq::empty(),
    }) + (match input.right_hand {
        Some(m) => seq![(DeviceKind::RightHand, m)],
        None => Seq::empty(),
    })
}

/// Positions a tick reads must be bounded so the fixed-point geometry is
/// exact.
pub open spec fn input_bounded(input: TickInput) -> bool {
    &&& input.views.left.pose.position.bounded(COORD_LIMIT_UM as int)
    &&& input.views.right.pose.position.bounded(COORD_LIMIT_UM as int)
}

/// One sampler tick.
///
/// When either validity flag is unset, everything head-related is abandoned:
/// no IPD notification, no head motion, no history append, and the IPD
/// reference value is untouched — while hand samples are still carried and
/// face sampling is still attempted. When the views are valid, the prediction
/// is appended to the history, the IPD-change notification is emitted exactly
/// when the new reading differs from the last notified value by more than the
/// epsilon, and the head motion is approximated from the eye poses.
pub fn sampler_tick(
    state: &mut SamplerState,
    history: &mut ViewHistory,
    cfg: &SamplerConfig,
    input: &TickInput,
) -> (out: TickOutput)
    requires
        old(history).wf(),
        input.now_ns + cfg.head_prediction_offset_ns <= u64::MAX,
        input_bounded(*input),
    ensures
        final(history).wf(),
        out.target_timestamp_ns == input.now_ns + cfg.head_prediction_offset_ns,
        out.motions@ == expected_motions(*input),
        out.sample_face == cfg.face_tracking,
        out.send_buttons == (input.changed_buttons > 0),
        views_valid(*input) ==> {
            let ipd = ipd_of(input.views);
            let step = ipd_step(old(state).last_ipd_um, ipd as u64, cfg.ipd_change_eps_um);
            &&& final(history)@ == push_spec(
                old(history)@,
                HistoryEntry { timestamp_ns: out.target_timestamp_ns, views: input.views },
            )
            &&& final(state).last_ipd_um == step.1
            &&& out.ipd_notification == if step.0 {
                Some(ViewsConfig {
                    left_fov: input.views.left.fov,
                    right_fov: input.views.right.fov,
                    ipd_um: ipd as u64,
                })
            } else {
                None::<ViewsConfig>
            }
        },
        !views_valid(*input) ==> {
            &&& final(history)@ == old(history)@
            &&& final(state).last_ipd_um == old(state).last_ipd_um
            &&& out.ipd_notification is None
        },
        final(state).last_left_hand == match input.left_hand {
            Some(m) => m.pose.position,
            None => old(state).last_left_hand,
        },
        final(state).last_right_hand == match input.right_hand {
            Some(m) => m.pose.position,
            None => old(state).last_right_hand,
        },
{
    let target_timestamp_ns = head_target_ns(input.now_ns, cfg);
    let valid = input.position_valid && input.orientation_valid;

    let mut ipd_notification: Option<ViewsConfig> = None;
    let mut motions: Vec<(DeviceKind, DeviceMotion)> = Vec::new();

    if valid {
        let ipd_um = distance_um(input.views.left.pose.position, input.views.right.pose.position);
        if u64_abs_diff(ipd_um, state.last_ipd_um) > cfg.ipd_change_eps_um {
            ipd_notification = Some(ViewsConfig {
                left_fov: input.views.left.fov,
                right_fov: input.views.right.fov,
                ipd_um,
            });
            state.last_ipd_um = ipd_um;
        }

        let head_position = midpoint(
            input.views.left.pose.position,
            input.views.right.pose.position,
        );
        let head = DeviceMotion {
            pose: Pose { orientation: input.views.left.pose.orientation, position: head_position },
            linear_velocity: Vec3::zero(),
            angular_velocity: Vec3::zero(),
        };
        motions.push((DeviceKind::Head, head));

        history.push(HistoryEntry { timestamp_ns: target_timestamp_ns, views: input.views });
    }

    if let Some(m) = input.left_hand {
        motions.push((DeviceKind::LeftHand, m));
        state.last_left_hand = m.pose.position;
    }
    if let Some(m) = input.right_hand {
        motions.push((DeviceKind::RightHand, m));
        state.last_right_hand = m.pose.position;
    }

    proof {
        assert(motions@ =~= expected_motions(*input));
    }

    TickOutput {
        target_timestamp_ns,
        ipd_notification,
        motions,
        sample_face: cfg.face_tracking,
        send_buttons: input.changed_buttons > 0,
    }
}

/// The reference value after a whole run of IPD readings.
pub open spec fn ipd_run_last(last: u64, readings: Seq<u64>, eps: u64) -> u64
    decreases readings.len(),
{
    if readings.len() == 0 {
        last
    } else {
        ipd_run_last(ipd_step(last, readings[0], eps).1, readings.skip(1), eps)
    }
}

/// How many notifications a whole run of IPD readings emits.
pub open spec fn ipd_notification_count(last: u64, readings: Seq<u64>, eps: u64) -> nat
    decreases readings.len(),
{
    if readings.len() == 0 {
        0
    } else {
        (if ipd_step(last, readings[0], eps).0 {
            1nat
        } else {
            0nat
        }) + ipd_notification_count(ipd_step(last, readings[0], eps).1, readings.skip(1), eps)
    }
}

/// Readings all within the epsilon of the current reference emit nothing and
/// leave the reference unchanged.
pub proof fn lemma_ipd_all_near(last: u64, readings: Seq<u64>, eps: u64)
    requires
        forall|i: int|
            0 <= i < readings.len() ==> abs_diff((#[trigger] readings[i]) as int, last as int)
                <= eps,
    ensures
        ipd_notification_count(last, readings, eps) == 0,
        ipd_run_last(last, readings, eps) == last,
    decreases readings.len(),
{
    if readings.len() > 0 {
        assert(ipd_step(last, readings[0], eps) == (false, last));
        assert forall|i: int| 0 <= i < readings.skip(1).len() implies abs_diff(
            (#[trigger] readings.skip(1)[i]) as int,
            last as int,
        ) <= eps by {
            assert(readings.skip(1)[i] == readings[i + 1]);
        }
        lemma_ipd_all_near(last, readings.skip(1), eps);
    }
}

/// IPD deduplication: for a run of readings all within the epsilon of the
/// first, exactly one notification is emitted — by the first reading — and it
/// becomes the reference value.
pub proof fn lemma_ipd_dedup(last0: u64, readings: Seq<u64>, eps: u64)
    requires
        readings.len() >= 1,
        abs_diff(readings[0] as int, last0 as int) > eps,
        forall|i: int|
            0 <= i < readings.len() ==> abs_diff((#[trigger] readings[i]) as int, readings[0] as int)
                <= eps,
    ensures
        ipd_notification_count(last0, readings, eps) == 1,
        ipd_run_last(last0, readings, eps) == readings[0],
{
    assert(ipd_step(last0, readings[0], eps) == (true, readings[0]));
    assert forall|i: int| 0 <= i < readings.skip(1).len() implies abs_diff(
        (#[trigger] readings.skip(1)[i]) as int,
        readings[0] as int,
    ) <= eps by {
        assert(readings.skip(1)[i] == readings[i + 1]);
    }
    lemma_ipd_all_near(readings[0], readings.skip(1), eps);
}

/// Splitting a run of readings: the notifications add up, and the reference
/// value threads through.
pub proof fn lemma_ipd_run_concat(last: u64, a: Seq<u64>, b: Seq<u64>, eps: u64)
    ensures
        ipd_notification_count(last, a + b, eps) == ipd_notification_count(last, a, eps)
            + ipd_notification_count(ipd_run_last(last, a, eps), b, eps),
        ipd_run_last(last, a + b, eps) == ipd_run_last(ipd_run_last(last, a, eps), b, eps),
    decreases a.len(),
{
    if a.len() == 0 {
        assert(a + b =~= b);
    } else {
        assert((a + b)[0] == a[0]);
        assert((a + b).skip(1) =~= a.skip(1) + b);
        lemma_ipd_run_concat(ipd_step(last, a[0], eps).1, a.skip(1), b, eps);
    }
}

/// A later reading past the epsilon emits exactly one further notification
/// and updates the reference value to it.
pub proof fn lemma_ipd_renotify(last0: u64, readings: Seq<u64>, eps: u64, far: u64)
    requires
        readings.len() >= 1,
        abs_diff(readings[0] as int, last0 as int) > eps,
        forall|i: int|
            0 <= i < readings.len() ==> abs_diff((#[trigger] readings[i]) as int, readings[0] as int)
                <= eps,
        abs_diff(far as int, readings[0] as int) > eps,
    ensures
        ipd_notification_count(last0, readings.push(far), eps) == 2,
        ipd_run_last(last0, readings.push(far), eps) == far,
{
    lemma_ipd_dedup(last0, readings, eps);
    assert(readings.push(far) =~= readings + seq![far]);
    lemma_ipd_run_concat(last0, readings, seq![far], eps);
    assert(ipd_step(readings[0], far, eps) == (true, far));
    assert(seq![far].skip(1) == Seq::<u64>::empty()) by {
        assert(seq![far].skip(1) =~= Seq::<u64>::empty());
    }
    assert(ipd_notification_count(far, Seq::<u64>::empty(), eps) == 0);
    assert(ipd_run_last(far, Seq::<u64>::empty(), eps) == far);
    assert(seq![far][0] == far);
    assert(ipd_notification_count(readings[0], seq![far], eps) == 1);
    assert(ipd_run_last(readings[0], seq![far], eps) == far);
}

} // verus!
