use vr_pipeline::session::ClientEvent;
use vr_pipeline::session::HandSide;
use vr_pipeline::session::LoopDirective;
use vr_pipeline::session::RuntimeEvent;
use vr_pipeline::session::SessionAction;
use vr_pipeline::session::SessionController;
use vr_pipeline::session::SessionState;

fn started_event() -> ClientEvent {
    ClientEvent::StreamingStarted {
        view_width: 2064,
        view_height: 2208,
        refresh_millihz: 90_000,
        face_tracking: false,
    }
}

#[test]
fn ready_creates_lobby_swapchains_once() {
    let mut c = SessionController::new(false);
    let (acts, dir) = c.handle_runtime_event(RuntimeEvent::StateChanged(SessionState::Ready));
    assert_eq!(
        acts,
        vec![
            SessionAction::BeginSession,
            SessionAction::CreateLobbySwapchains,
            SessionAction::ResumeRenderer,
            SessionAction::ResumeCore,
        ]
    );
    assert_eq!(dir, LoopDirective::Carry);
    assert!(c.lobby_swapchains);

    // A repeated Ready never creates a second pair.
    let (acts2, _) = c.handle_runtime_event(RuntimeEvent::StateChanged(SessionState::Ready));
    assert_eq!(
        acts2,
        vec![
            SessionAction::BeginSession,
            SessionAction::ResumeRenderer,
            SessionAction::ResumeCore,
        ]
    );
    assert!(!acts2.contains(&SessionAction::CreateLobbySwapchains));
}

#[test]
fn stopping_tears_streaming_down_in_order() {
    let mut c = SessionController::new(true);
    c.handle_runtime_event(RuntimeEvent::StateChanged(SessionState::Ready));
    c.handle_client_event(started_event());
    assert!(c.streaming);
    assert!(c.sampler_alive);
    assert!(c.stream_swapchains);

    let (acts, _) = c.handle_runtime_event(RuntimeEvent::StateChanged(SessionState::Stopping));
    assert_eq!(
        acts,
        vec![
            SessionAction::ClearStreamingFlag,
            SessionAction::JoinSampler,
            SessionAction::DestroyStreamSwapchains,
            SessionAction::PauseCore,
            SessionAction::PauseRenderer,
            SessionAction::DestroyLobbySwapchains,
            SessionAction::EndSession,
        ]
    );
    let join = acts.iter().position(|a| *a == SessionAction::JoinSampler).unwrap();
    let destroy = acts
        .iter()
        .position(|a| *a == SessionAction::DestroyStreamSwapchains)
        .unwrap();
    assert!(join < destroy);
    assert!(!c.streaming);
    assert!(!c.sampler_alive);
    assert!(!c.stream_swapchains);
    assert!(!c.lobby_swapchains);
}

#[test]
fn stream_stop_joins_sampler_before_destroying_swapchains() {
    let mut c = SessionController::new(false);
    c.handle_runtime_event(RuntimeEvent::StateChanged(SessionState::Ready));
    c.handle_client_event(started_event());

    let acts = c.handle_client_event(ClientEvent::StreamingStopped);
    assert_eq!(
        acts,
        vec![
            SessionAction::ClearStreamingFlag,
            SessionAction::JoinSampler,
            SessionAction::DestroyStreamSwapchains,
        ]
    );
    assert!(!c.streaming);
    assert!(!c.sampler_alive);
    // The lobby pair survives a stream stop.
    assert!(c.lobby_swapchains);
}

#[test]
fn streaming_started_actions_and_state() {
    let mut c = SessionController::new(true);
    c.handle_runtime_event(RuntimeEvent::StateChanged(SessionState::Ready));
    let acts = c.handle_client_event(ClientEvent::StreamingStarted {
        view_width: 1920,
        view_height: 1824,
        refresh_millihz: 72_000,
        face_tracking: true,
    });
    assert_eq!(
        acts,
        vec![
            SessionAction::RequestRefreshRate { refresh_millihz: 72_000 },
            SessionAction::SetStreamingFlag,
            SessionAction::InitFaceInput,
            SessionAction::SpawnSampler,
            SessionAction::CreateStreamSwapchains,
            SessionAction::StartStreamRenderer,
            SessionAction::SendPlayspace,
        ]
    );
    assert!(c.streaming && c.sampler_alive && c.stream_swapchains);
    assert_eq!(c.stream_width, 1920);
    assert_eq!(c.stream_height, 1824);

    // A second start while already streaming spawns nothing further.
    let acts2 = c.handle_client_event(started_event());
    assert!(acts2.is_empty());
}

#[test]
fn loss_and_exit_directives() {
    let mut c = SessionController::new(false);
    let (acts, dir) = c.handle_runtime_event(RuntimeEvent::StateChanged(SessionState::LossPending));
    assert!(acts.is_empty());
    assert_eq!(dir, LoopDirective::ExitRenderLoop);

    let (_, dir2) = c.handle_runtime_event(RuntimeEvent::StateChanged(SessionState::Exiting));
    assert_eq!(dir2, LoopDirective::ExitSessionLoop);

    let (_, dir3) = c.handle_runtime_event(RuntimeEvent::InstanceLossPending);
    assert_eq!(dir3, LoopDirective::ExitSessionLoop);

    let (acts4, dir4) = c.handle_runtime_event(RuntimeEvent::EventsLost(3));
    assert!(acts4.is_empty());
    assert_eq!(dir4, LoopDirective::Carry);
}

#[test]
fn reference_space_change_propagates_bounds() {
    let mut c = SessionController::new(false);
    let before = c;
    let (acts, dir) = c.handle_runtime_event(RuntimeEvent::ReferenceSpaceChangePending);
    assert_eq!(
        acts,
        vec![SessionAction::RecreateReferenceSpace, SessionAction::SendPlayspace]
    );
    assert_eq!(dir, LoopDirective::Carry);
    assert_eq!(c, before);
}

#[test]
fn haptics_routed_to_the_addressed_hand() {
    let mut c = SessionController::new(false);
    let acts = c.handle_client_event(ClientEvent::Haptics {
        hand: HandSide::Right,
        duration_ns: 20_000_000,
        frequency_mhz: 160_000,
        amplitude_milli: 500,
    });
    assert_eq!(
        acts,
        vec![SessionAction::ApplyHaptics {
            hand: HandSide::Right,
            duration_ns: 20_000_000,
            frequency_mhz: 160_000,
            amplitude_milli: 500,
        }]
    );

    let acts2 = c.handle_client_event(ClientEvent::HudMessageUpdated);
    assert_eq!(acts2, vec![SessionAction::UpdateHud]);
}

#[test]
fn sampler_alive_tracks_streaming_flag() {
    let mut c = SessionController::new(false);
    assert_eq!(c.sampler_alive, c.streaming);
    c.handle_runtime_event(RuntimeEvent::StateChanged(SessionState::Ready));
    assert_eq!(c.sampler_alive, c.streaming);
    c.handle_client_event(started_event());
    assert_eq!(c.sampler_alive, c.streaming);
    c.handle_client_event(ClientEvent::StreamingStopped);
    assert_eq!(c.sampler_alive, c.streaming);
    c.handle_client_event(started_event());
    c.handle_runtime_event(RuntimeEvent::StateChanged(SessionState::Stopping));
    assert_eq!(c.sampler_alive, c.streaming);
}
