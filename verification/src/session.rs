//! The session lifecycle state machine.
//!
//! One runtime or streaming-engine event is consumed per call; the handler
//! updates the controller's model of the session (which swapchain sets exist,
//! whether the streaming flag is set, whether a sampler thread is alive) and
//! returns the list of actions the outer layer must perform, in order. The
//! teardown ordering lives here: on stream stop the streaming flag is cleared
//! and the sampler joined before any streaming swapchain is destroyed.

use vstd::prelude::*;

verus! {

/// Lifecycle states the runtime reports for a session.
#[derive(Clone, Copy, PartialEq, Eq, Structural, Debug)]
pub enum SessionState {
    Idle,
    Ready,
    Synchronized,
    Visible,
    Focused,
    Stopping,
    LossPending,
    Exiting,
}

/// One event drained from the runtime's event queue.
#[derive(Clone, Copy, PartialEq, Eq, Structural, Debug)]
pub enum RuntimeEvent {
    StateChanged(SessionState),
    ReferenceSpaceChangePending,
    InstanceLossPending,
    EventsLost(u64),
    Other,
}

/// The hand a haptics request or a hand sample addresses.
#[derive(Clone, Copy, PartialEq, Eq, Structural, Debug)]
pub enum HandSide {
    Left,
    Right,
}

/// One cross-thread event from the streaming engine.
#[derive(Clone, Copy, PartialEq, Eq, Structural, Debug)]
pub enum ClientEvent {
    StreamingStarted {
        view_width: u32,
        view_height: u32,
        refresh_millihz: u32,
        face_tracking: bool,
    },
    StreamingStopped,
    Haptics { hand: HandSide, duration_ns: u64, frequency_mhz: u32, amplitude_milli: u32 },
    HudMessageUpdated,
}

/// An action the outer layer performs on the runtime, the renderer, the
/// streaming core or the sampler thread. Handlers return these in the order
/// they must run.
#[derive(Clone, Copy, PartialEq, Eq, Structural, Debug)]
pub enum SessionAction {
    BeginSession,
    CreateLobbySwapchains,
    ResumeRenderer,
    ResumeCore,
    ClearStreamingFlag,
    JoinSampler,
    DestroyStreamSwapchains,
    PauseCore,
    PauseRenderer,
    DestroyLobbySwapchains,
    EndSession,
    RecreateReferenceSpace,
    SendPlayspace,
    RequestRefreshRate { refresh_millihz: u32 },
    SetStreamingFlag,
    InitFaceInput,
    SpawnSampler,
    CreateStreamSwapchains,
    StartStreamRenderer,
    ApplyHaptics { hand: HandSide, duration_ns: u64, frequency_mhz: u32, amplitude_milli: u32 },
    UpdateHud,
}

/// Where control goes after an event: carry on; leave the render loop so a
/// fresh session can be acquired; or leave the session loop entirely.
#[derive(Clone, Copy, PartialEq, Eq, Structural, Debug)]
pub enum LoopDirective {
    Carry,
    ExitRenderLoop,
    ExitSessionLoop,
}

/// The controller's model of the session: the reported lifecycle state, which
/// resources exist, and whether the sampler thread is alive.
#[derive(Clone, Copy, PartialEq, Eq, Structural, Debug)]
pub struct SessionController {
    pub state: SessionState,
    pub lobby_swapchains: bool,
    pub stream_swapchains: bool,
    pub streaming: bool,
    pub sampler_alive: bool,
    pub refresh_rate_ext: bool,
    pub stream_width: u32,
    pub stream_height: u32,
}

impl SessionController {
    /// Exactly one sampler thread is alive whenever the streaming flag is
    /// set, and none when it is clear.
    pub open spec fn wf(self) -> bool {
        self.sampler_alive == self.streaming
    }

    /// A fresh controller: idle, nothing allocated, not streaming.
    pub fn new(refresh_rate_ext: bool) -> (r: SessionController)
        ensures
            r == (SessionController {
                state: SessionState::Idle,
                lobby_swapchains: false,
                stream_swapchains: false,
                streaming: false,
                sampler_alive: false,
                refresh_rate_ext: refresh_rate_ext,
                stream_width: 0,
                stream_height: 0,
            }),
            r.wf(),
    {
        SessionController {
            state: SessionState::Idle,
            lobby_swapchains: false,
            stream_swapchains: false,
            streaming: false,
            sampler_alive: false,
            refresh_rate_ext,
            stream_width: 0,
            stream_height: 0,
        }
    }

    /// Actions for a `Ready` report: begin the session, lazily create the
    /// lobby swapchain pair (never a second one), resume renderer and core.
    pub open spec fn ready_actions(self) -> Seq<SessionAction> {
        seq![SessionAction::BeginSession] + if !self.lobby_swapchains {
            seq![SessionAction::CreateLobbySwapchains]
        } else {
            Seq::empty()
        } + seq![SessionAction::ResumeRenderer, SessionAction::ResumeCore]
    }

    /// Actions for a `Stopping` report: streaming-only resources go first
    /// (flag, sampler, streaming swapchains, in that order), then the
    /// renderer is paused, the lobby released and the session ended.
    pub open spec fn stopping_actions(self) -> Seq<SessionAction> {
        self.stream_teardown_actions() + seq![
            SessionAction::PauseCore,
            SessionAction::PauseRenderer,
        ] + if self.lobby_swapchains {
            seq![SessionAction::DestroyLobbySwapchains]
        } else {
            Seq::empty()
        } + seq![SessionAction::EndSession]
    }

    /// Streaming teardown: clear the flag, join the sampler if one is alive,
    /// and only then destroy the streaming swapchains if they exist.
    pub open spec fn stream_teardown_actions(self) -> Seq<SessionAction> {
        seq![SessionAction::ClearStreamingFlag] + if self.sampler_alive {
            seq![SessionAction::JoinSampler]
        } else {
            Seq::empty()
        } + if self.stream_swapchains {
            seq![SessionAction::DestroyStreamSwapchains]
        } else {
            Seq::empty()
        }
    }

    /// The controller after one runtime event.
    pub open spec fn runtime_next(self, e: RuntimeEvent) -> SessionController {
        match e {
            RuntimeEvent::StateChanged(s) => match s {
                SessionState::Ready => SessionController {
                    state: s,
                    lobby_swapchains: true,
                    ..self
                },
                SessionState::Stopping => SessionController {
                    state: s,
                    lobby_swapchains: false,
                    stream_swapchains: false,
                    streaming: false,
                    sampler_alive: false,
                    ..self
                },
                _ => SessionController { state: s, ..self },
            },
            _ => self,
        }
    }

    /// The actions one runtime event demands.
    pub open spec fn runtime_actions(self, e: RuntimeEvent) -> Seq<SessionAction> {
        match e {
            RuntimeEvent::StateChanged(s) => match s {
                SessionState::Ready => self.ready_actions(),
                SessionState::Stopping => self.stopping_actions(),
                _ => Seq::empty(),
            },
            RuntimeEvent::ReferenceSpaceChangePending => seq![
                SessionAction::RecreateReferenceSpace,
                SessionAction::SendPlayspace,
            ],
            _ => Seq::empty(),
        }
    }

    /// The controller after one streaming-engine event.
    pub open spec fn client_next(self, e: ClientEvent) -> SessionController {
        match e {
            ClientEvent::StreamingStarted { view_width, view_height, .. } => {
                if self.streaming {
                    self
                } else {
                    SessionController {
                        streaming: true,
                        sampler_alive: true,
                        stream_swapchains: true,
                        stream_width: view_width,
                        stream_height: view_height,
                        ..self
                    }
                }
            },
            ClientEvent::StreamingStopped => SessionController {
                streaming: false,
                sampler_alive: false,
                stream_swapchains: false,
                ..self
            },
            _ => self,
        }
    }

    /// The actions one streaming-engine event demands.
    pub open spec fn client_actions(self, e: ClientEvent) -> Seq<SessionAction> {
        match e {
            ClientEvent::StreamingStarted { refresh_millihz, face_tracking, .. } => {
                if self.streaming {
                    Seq::empty()
                } else {
                    (if self.refresh_rate_ext {
                        seq![SessionAction::RequestRefreshRate { refresh_millihz }]
                    } else {
                        Seq::empty()
                    }) + seq![SessionAction::SetStreamingFlag] + (if face_tracking {
                        seq![SessionAction::InitFaceInput]
                    } else {
                        Seq::empty()
                    }) + seq![SessionAction::SpawnSampler] + (if !self.stream_swapchains {
                        seq![SessionAction::CreateStreamSwapchains]
                    } else {
                        Seq::empty()
                    }) + seq![SessionAction::StartStreamRenderer, SessionAction::SendPlayspace]
                }
            },
            ClientEvent::StreamingStopped => self.stream_teardown_actions(),
            ClientEvent::Haptics { hand, duration_ns, frequency_mhz, amplitude_milli } => seq![
                SessionAction::ApplyHaptics { hand, duration_ns, frequency_mhz, amplitude_milli },
            ],
            ClientEvent::HudMessageUpdated => seq![SessionAction::UpdateHud],
        }
    }

    /// Consumes one runtime event: updates the model and returns the actions
    /// to perform plus where control goes next.
    pub fn handle_runtime_event(&mut self, e: RuntimeEvent) -> (r: (
        Vec<SessionAction>,
        LoopDirective,
    ))
        requires
            old(self).wf(),
        ensures
            *final(self) == old(self).runtime_next(e),
            r.0@ == old(self).runtime_actions(e),
            r.1 == runtime_directive(e),
            final(self).wf(),
    {
        let mut acts: Vec<SessionAction> = Vec::new();
        let mut dir = LoopDirective::Carry;
        match e {
            RuntimeEvent::StateChanged(s) => {
                match s {
                    SessionState::Ready => {
                        acts.push(SessionAction::BeginSession);
                        if !self.lobby_swapchains {
                            acts.push(SessionAction::CreateLobbySwapchains);
                        }
                        acts.push(SessionAction::ResumeRenderer);
                        acts.push(SessionAction::ResumeCore);
                        self.state = SessionState::Ready;
                        self.lobby_swapchains = true;
                        proof {
                            assert(acts@ =~= old(self).ready_actions());
                        }
                    },
                    SessionState::Stopping => {
                        acts.push(SessionAction::ClearStreamingFlag);
                        if self.sampler_alive {
                            acts.push(SessionAction::JoinSampler);
                        }
                        if self.stream_swapchains {
                            acts.push(SessionAction::DestroyStreamSwapchains);
                        }
                        acts.push(SessionAction::PauseCore);
                        acts.push(SessionAction::PauseRenderer);
                        if self.lobby_swapchains {
                            acts.push(SessionAction::DestroyLobbySwapchains);
                        }
                        acts.push(SessionAction::EndSession);
                        self.state = SessionState::Stopping;
                        self.lobby_swapchains = false;
                        self.stream_swapchains = false;
                        self.streaming = false;
                        self.sampler_alive = false;
                        proof {
                            assert(acts@ =~= old(self).stopping_actions());
                        }
                    },
                    _ => {
                        self.state = s;
                        if matches!(s, SessionState::Exiting) {
                            dir = LoopDirective::ExitSessionLoop;
                        } else if matches!(s, SessionState::LossPending) {
                            dir = LoopDirective::ExitRenderLoop;
                        }
                    },
                }
            },
            RuntimeEvent::ReferenceSpaceChangePending => {
                acts.push(SessionAction::RecreateReferenceSpace);
                acts.push(SessionAction::SendPlayspace);
            },
            RuntimeEvent::InstanceLossPending => {
                dir = LoopDirective::ExitSessionLoop;
            },
            RuntimeEvent::EventsLost(_) => {},
            RuntimeEvent::Other => {},
        }
        (acts, dir)
    }

    /// Consumes one streaming-engine event: updates the model and returns the
    /// actions to perform, in order.
    pub fn handle_client_event(&mut self, e: ClientEvent) -> (acts: Vec<SessionAction>)
        requires
            old(self).wf(),
        ensures
            *final(self) == old(self).client_next(e),
            acts@ == old(self).client_actions(e),
            final(self).wf(),
    {
        let mut acts: Vec<SessionAction> = Vec::new();
        match e {
            ClientEvent::StreamingStarted { view_width, view_height, refresh_millihz, face_tracking } => {
                if !self.streaming {
                    if self.refresh_rate_ext {
                        acts.push(SessionAction::RequestRefreshRate { refresh_millihz });
                    }
                    acts.push(SessionAction::SetStreamingFlag);
                    if face_tracking {
                        acts.push(SessionAction::InitFaceInput);
                    }
                    acts.push(SessionAction::SpawnSampler);
                    if !self.stream_swapchains {
                        acts.push(SessionAction::CreateStreamSwapchains);
                    }
                    acts.push(SessionAction::StartStreamRenderer);
                    acts.push(SessionAction::SendPlayspace);
                    self.streaming = true;
                    self.sampler_alive = true;
                    self.stream_swapchains = true;
                    self.stream_width = view_width;
                    self.stream_height = view_height;
                    proof {
                        assert(acts@ =~= old(self).client_actions(e));
                    }
                }
            },
            ClientEvent::StreamingStopped => {
                acts.push(SessionAction::ClearStreamingFlag);
                if self.sampler_alive {
                    acts.push(SessionAction::JoinSampler);
                }
                if self.stream_swapchains {
                    acts.push(SessionAction::DestroyStreamSwapchains);
                }
                self.streaming = false;
                self.sampler_alive = false;
                self.stream_swapchains = false;
                proof {
                    assert(acts@ =~= old(self).stream_teardown_actions());
                }
            },
            ClientEvent::Haptics { hand, duration_ns, frequency_mhz, amplitude_milli } => {
                acts.push(SessionAction::ApplyHaptics {
                    hand,
                    duration_ns,
                    frequency_mhz,
                    amplitude_milli,
                });
            },
            ClientEvent::HudMessageUpdated => {
                acts.push(SessionAction::UpdateHud);
            },
        }
        acts
    }
}

/// Where one runtime event sends control.
pub open spec fn runtime_directive(e: RuntimeEvent) -> LoopDirective {
    match e {
        RuntimeEvent::StateChanged(SessionState::Exiting) => LoopDirective::ExitSessionLoop,
        RuntimeEvent::StateChanged(SessionState::LossPending) => LoopDirective::ExitRenderLoop,
        RuntimeEvent::InstanceLossPending => LoopDirective::ExitSessionLoop,
        _ => LoopDirective::Carry,
    }
}

/// Repeated `Ready` reports never create a second lobby swapchain pair: once
/// the pair exists, a further `Ready` emits no creation action, and the pair
/// is carried along unchanged.
pub proof fn lemma_ready_idempotent(m: SessionController)
    requires
        m.wf(),
    ensures
        ({
            let m1 = m.runtime_next(RuntimeEvent::StateChanged(SessionState::Ready));
            let acts1 = m1.runtime_actions(RuntimeEvent::StateChanged(SessionState::Ready));
            &&& m1.lobby_swapchains
            &&& !acts1.contains(SessionAction::CreateLobbySwapchains)
            &&& m1.runtime_next(RuntimeEvent::StateChanged(SessionState::Ready)) == m1
        }),
{
    let m1 = m.runtime_next(RuntimeEvent::StateChanged(SessionState::Ready));
    let acts1 = m1.runtime_actions(RuntimeEvent::StateChanged(SessionState::Ready));
    assert(acts1 =~= seq![
        SessionAction::BeginSession,
        SessionAction::ResumeRenderer,
        SessionAction::ResumeCore,
    ]);
    assert(!acts1.contains(SessionAction::CreateLobbySwapchains)) by {
        assert(forall|i: int| 0 <= i < acts1.len() ==> acts1[i] != SessionAction::CreateLobbySwapchains);
    }
}

/// Teardown ordering on a `Stopping` report: wherever both occur, the sampler
/// join comes strictly before any streaming-swapchain destruction.
pub proof fn lemma_stopping_teardown_order(m: SessionController)
    requires
        m.wf(),
    ensures
        ({
            let acts = m.runtime_actions(RuntimeEvent::StateChanged(SessionState::Stopping));
            forall|i: int, j: int|
                0 <= i < acts.len() && 0 <= j < acts.len() && acts[i] == SessionAction::JoinSampler
                    && acts[j] == SessionAction::DestroyStreamSwapchains ==> i < j
        }),
{
    lemma_teardown_order_general(m.stream_teardown_actions(), m.stopping_actions(), m);
}

/// Teardown ordering on a stream-stop event from the streaming engine: the
/// sampler join comes strictly before any streaming-swapchain destruction.
pub proof fn lemma_stop_event_teardown_order(m: SessionController)
    requires
        m.wf(),
    ensures
        ({
            let acts = m.client_actions(ClientEvent::StreamingStopped);
            forall|i: int, j: int|
                0 <= i < acts.len() && 0 <= j < acts.len() && acts[i] == SessionAction::JoinSampler
                    && acts[j] == SessionAction::DestroyStreamSwapchains ==> i < j
        }),
{
    let acts = m.client_actions(ClientEvent::StreamingStopped);
    assert forall|i: int, j: int|
        0 <= i < acts.len() && 0 <= j < acts.len() && acts[i] == SessionAction::JoinSampler
            && acts[j] == SessionAction::DestroyStreamSwapchains implies i < j by {
        teardown_index_facts(m);
    }
}

proof fn lemma_teardown_order_general(
    teardown: Seq<SessionAction>,
    acts: Seq<SessionAction>,
    m: SessionController,
)
    requires
        teardown == m.stream_teardown_actions(),
        acts == m.stopping_actions(),
    ensures
        forall|i: int, j: int|
            0 <= i < acts.len() && 0 <= j < acts.len() && acts[i] == SessionAction::JoinSampler
                && acts[j] == SessionAction::DestroyStreamSwapchains ==> i < j,
{
    assert forall|i: int, j: int|
        0 <= i < acts.len() && 0 <= j < acts.len() && acts[i] == SessionAction::JoinSampler
            && acts[j] == SessionAction::DestroyStreamSwapchains implies i < j by {
        teardown_index_facts(m);
        stopping_index_facts(m);
    }
}

/// In the teardown list, a join can only stand at index 1 and a destruction
/// only at the last position, behind any join.
proof fn teardown_index_facts(m: SessionController)
    ensures
        ({
            let t = m.stream_teardown_actions();
            &&& t.len() <= 3
            &&& forall|i: int|
                0 <= i < t.len() && t[i] == SessionAction::JoinSampler ==> i == 1 && m.sampler_alive
            &&& forall|j: int|
                0 <= j < t.len() && t[j] == SessionAction::DestroyStreamSwapchains ==> j + 1
                    == t.len() && m.stream_swapchains && (m.sampler_alive ==> j == 2)
        }),
{
    let t = m.stream_teardown_actions();
    if m.sampler_alive {
        if m.stream_swapchains {
            assert(t =~= seq![
                SessionAction::ClearStreamingFlag,
                SessionAction::JoinSampler,
                SessionAction::DestroyStreamSwapchains,
            ]);
        } else {
            assert(t =~= seq![SessionAction::ClearStreamingFlag, SessionAction::JoinSampler]);
        }
    } else {
        if m.stream_swapchains {
            assert(t =~= seq![
                SessionAction::ClearStreamingFlag,
                SessionAction::DestroyStreamSwapchains,
            ]);
        } else {
            assert(t =~= seq![SessionAction::ClearStreamingFlag]);
        }
    }
}

/// In the stopping list, joins and destructions occur only inside the leading
/// teardown prefix.
proof fn stopping_index_facts(m: SessionController)
    ensures
        ({
            let t = m.stream_teardown_actions();
            let acts = m.stopping_actions();
            &&& acts.len() == t.len() + (if m.lobby_swapchains { 4int } else { 3int })
            &&& forall|i: int| 0 <= i < t.len() ==> acts[i] == t[i]
            &&& forall|i: int|
                t.len() <= i < acts.len() ==> acts[i] != SessionAction::JoinSampler && acts[i]
                    != SessionAction::DestroyStreamSwapchains
        }),
{
    let t = m.stream_teardown_actions();
    let acts = m.stopping_actions();
    let tail = if m.lobby_swapchains {
        seq![
            SessionAction::PauseCore,
            SessionAction::PauseRenderer,
            SessionAction::DestroyLobbySwapchains,
            SessionAction::EndSession,
        ]
    } else {
        seq![SessionAction::PauseCore, SessionAction::PauseRenderer, SessionAction::EndSession]
    };
    assert(acts =~= t + tail);
    assert(forall|i: int| 0 <= i < t.len() ==> acts[i] == t[i]);
    assert forall|i: int| t.len() <= i < acts.len() implies acts[i] != SessionAction::JoinSampler
        && acts[i] != SessionAction::DestroyStreamSwapchains by {
        assert(acts[i] == tail[i - t.len()]);
    }
}

} // verus!
