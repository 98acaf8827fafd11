//! Frame-synchronization and predictive-tracking pipeline for a split-rendering
//! VR headset client.
//!
//! The library holds the decision logic of the client's real-time control loop:
//! the session lifecycle state machine, the bounded view-history buffer that
//! lets a late-arriving remote frame be reprojected with the pose that was
//! active when it was produced, the tracking-sampler tick (validity gating,
//! IPD deduplication, head-pose approximation), and the frame-pacing policy.
//! All quantities are carried as fixed-point integers: times in nanoseconds,
//! lengths in micrometers, angles in microradians. The platform runtime, the
//! GPU backend and the streaming transport are driven by a thin outer layer
//! that performs the actions these functions decide on.

pub mod history;
pub mod math;
pub mod pacer;
pub mod platform;
pub mod sampler;
pub mod session;
