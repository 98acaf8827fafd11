use vr_pipeline::history::HistoryEntry;
use vr_pipeline::history::ViewHistory;
use vr_pipeline::math::Vec3;
use vr_pipeline::pacer::decoder_deadline_ns;
use vr_pipeline::pacer::default_view_set;
use vr_pipeline::pacer::poll_step;
use vr_pipeline::pacer::refresh_interval_ns;
use vr_pipeline::pacer::DecodedFrame;
use vr_pipeline::pacer::PacerState;
use vr_pipeline::pacer::PollVerdict;

#[test]
fn decoder_deadline_is_eight_tenths_of_the_interval() {
    // 90 Hz: 11.11 ms frame interval gives an 8.888 ms budget.
    assert_eq!(decoder_deadline_ns(0, 11_110_000), 8_888_000);
    assert_eq!(decoder_deadline_ns(1_000, 10), 1_008);
}

#[test]
fn poll_gives_up_at_the_deadline() {
    let deadline = decoder_deadline_ns(100, 11_110_000);
    assert_eq!(poll_step(None, 100, deadline), PollVerdict::Poll);
    assert_eq!(poll_step(None, deadline - 1, deadline), PollVerdict::Poll);
    assert_eq!(poll_step(None, deadline, deadline), PollVerdict::TimedOut);
    assert_eq!(poll_step(None, deadline + 1, deadline), PollVerdict::TimedOut);

    let frame = DecodedFrame { timestamp_ns: 7, buffer_handle: 3 };
    assert_eq!(poll_step(Some(frame), deadline + 1, deadline), PollVerdict::Deliver(frame));
}

#[test]
fn matching_timestamp_adopts_the_stored_views() {
    let mut history = ViewHistory::new();
    let mut stored = default_view_set();
    stored.left.pose.position = Vec3 { x: 11, y: 22, z: 33 };
    history.push(HistoryEntry { timestamp_ns: 5_000, views: stored });

    let mut pacer = PacerState::new(default_view_set());
    let frame = DecodedFrame { timestamp_ns: 5_000, buffer_handle: 9 };
    let plan = pacer.plan_stream_frame(&history, Some(frame), 6_000, Some(5_500));

    assert_eq!(plan.display_time_ns, 5_000);
    assert!(plan.real_frame);
    assert_eq!(plan.views, stored);
    assert_eq!(pacer.last_good_views, stored);
    assert_eq!(plan.report_latency_ns, Some(500));
}

#[test]
fn unknown_timestamp_reuses_last_good_not_freshest() {
    let mut history = ViewHistory::new();
    let mut older = default_view_set();
    older.left.pose.position = Vec3 { x: 1, y: 0, z: 0 };
    let mut freshest = default_view_set();
    freshest.left.pose.position = Vec3 { x: 2, y: 0, z: 0 };
    history.push(HistoryEntry { timestamp_ns: 5_000, views: older });
    history.push(HistoryEntry { timestamp_ns: 6_000, views: freshest });

    let mut pacer = PacerState::new(default_view_set());
    // Adopt the older entry first.
    let match_frame = DecodedFrame { timestamp_ns: 5_000, buffer_handle: 1 };
    pacer.plan_stream_frame(&history, Some(match_frame), 6_000, None);
    assert_eq!(pacer.last_good_views, older);

    // A timestamp found nowhere keeps the previous views, not the freshest.
    let unknown = DecodedFrame { timestamp_ns: 5_500, buffer_handle: 2 };
    let plan = pacer.plan_stream_frame(&history, Some(unknown), 7_000, None);
    assert_eq!(plan.views, older);
    assert_eq!(pacer.last_good_views, older);
}

#[test]
fn timeout_synthesizes_fallback_at_vsync() {
    let history = ViewHistory::new();
    let mut pacer = PacerState::new(default_view_set());
    let plan = pacer.plan_stream_frame(&history, None, 9_000, Some(8_000));

    assert_eq!(plan.display_time_ns, 9_000);
    assert!(!plan.real_frame);
    assert_eq!(plan.views, default_view_set());
    // A fallback frame never reports submission latency.
    assert_eq!(plan.report_latency_ns, None);
}

#[test]
fn latency_report_needs_a_clock() {
    let history = ViewHistory::new();
    let mut pacer = PacerState::new(default_view_set());
    let frame = DecodedFrame { timestamp_ns: 100, buffer_handle: 4 };

    let no_clock = pacer.plan_stream_frame(&history, Some(frame), 9_000, None);
    assert_eq!(no_clock.report_latency_ns, None);

    // A clock past the vsync saturates to zero rather than going negative.
    let late = pacer.plan_stream_frame(&history, Some(frame), 9_000, Some(9_500));
    assert_eq!(late.report_latency_ns, Some(0));
}

#[test]
fn refresh_rate_to_interval() {
    assert_eq!(refresh_interval_ns(90_000), 11_111_111);
    assert_eq!(refresh_interval_ns(72_000), 13_888_888);
    assert_eq!(refresh_interval_ns(120_000), 8_333_333);
}
