//! Bringing the robot up: connect, switch torque on at every actuator in
//! turn, show the face.
//!
//! Bring-up is all or nothing. The first failure ends it for good, and no
//! robot is handed out unless every step has succeeded.

use vstd::prelude::*;
use crate::config::Config;
use crate::error::{ControlError, RpcError};
use crate::face::{frame, frame_of, Face};
use crate::link::{configure, enable_torque, ActuatorSettings, ConfigureActuatorRequest};
use crate::robot::{KBot, Robot};

verus! {

/// Where bring-up stands.
#[derive(Debug, Clone, Copy, PartialEq, Eq, Hash)]
pub enum StartupPhase {
    /// The connection is being made.
    Connecting,
    /// The actuator at this place of the list is being configured; those
    /// before it have acknowledged.
    Configuring(usize),
    /// The face is being written.
    ShowingFace,
    /// Every step has succeeded.
    Ready,
    /// A step has failed.
    Failed(ControlError),
}

/// What happened outside bring-up.
#[derive(Debug, Clone, Copy, PartialEq, Eq, Hash)]
pub enum StartupEvent {
    /// The attempt to connect came back.
    Connected(Result<(), RpcError>),
    /// The configuration of one actuator came back.
    Configured(Result<(), RpcError>),
    /// The write of the face came back.
    FaceShown(Result<(), RpcError>),
}

/// What bring-up wants done next.
#[derive(Debug, Clone, PartialEq, Eq)]
pub enum StartupAction {
    /// Connect to this address and hand back `StartupEvent::Connected`.
    Connect(String),
    /// Send this request and hand back `StartupEvent::Configured`.
    Configure(ConfigureActuatorRequest),
    /// Write this frame to the matrix and hand back
    /// `StartupEvent::FaceShown`.
    ShowFace(Vec<u8>),
    /// The robot is up.
    Ready,
    /// Bring-up has failed; the robot must not be commanded.
    Abort(ControlError),
    /// The event did not belong to the phase bring-up is in: nothing
    /// changed.
    Ignored,
}

/// An action of bring-up as the contracts read it.
pub enum StartupActionView {
    Connect(Seq<char>),
    Configure(ConfigureActuatorRequest),
    ShowFace(Seq<u8>),
    Ready,
    Abort(ControlError),
    Ignored,
}

impl View for StartupAction {
    type V = StartupActionView;

    open spec fn view(&self) -> StartupActionView {
        match *self {
            StartupAction::Connect(addr) => StartupActionView::Connect(addr@),
            StartupAction::Configure(request) => StartupActionView::Configure(request),
            StartupAction::ShowFace(buffer) => StartupActionView::ShowFace(buffer@),
            StartupAction::Ready => StartupActionView::Ready,
            StartupAction::Abort(e) => StartupActionView::Abort(e),
            StartupAction::Ignored => StartupActionView::Ignored,
        }
    }
}

/// Bring-up in progress.
#[derive(Debug)]
pub struct Startup {
    config: Config,
    ids: Vec<u32>,
    greets: bool,
    phase: StartupPhase,
}

/// Bring-up as the contracts read it.
pub struct StartupView {
    /// The actuators to configure, in order.
    pub ids: Seq<u32>,
    /// Whether the face is shown once the actuators are configured.
    pub greets: bool,
    /// Where bring-up stands.
    pub phase: StartupPhase,
}

impl StartupView {
    /// What every bring-up satisfies: the list fits in memory, and an
    /// actuator that is being configured is one of the list.
    pub open spec fn wf(self) -> bool {
        &&& self.ids.len() <= usize::MAX
        &&& self.phase matches StartupPhase::Configuring(k) ==> k < self.ids.len()
    }

    /// Bring-up in another phase.
    pub open spec fn at(self, phase: StartupPhase) -> StartupView {
        StartupView { phase, ..self }
    }

    /// What follows once the actuators before place `k` have acknowledged:
    /// the configuration of the actuator at `k`, or, past the end of the
    /// list, the face or readiness.
    pub open spec fn proceed(self, k: int) -> (StartupView, StartupActionView) {
        if k < self.ids.len() {
            (
                self.at(StartupPhase::Configuring(k as usize)),
                StartupActionView::Configure(enable_torque(self.ids[k])),
            )
        } else if self.greets {
            (
                self.at(StartupPhase::ShowingFace),
                StartupActionView::ShowFace(frame_of(Face::EyesOpen)),
            )
        } else {
            (self.at(StartupPhase::Ready), StartupActionView::Ready)
        }
    }

    /// Bring-up failing with `e`.
    pub open spec fn fail(self, e: RpcError) -> (StartupView, StartupActionView) {
        (
            self.at(StartupPhase::Failed(ControlError::Rpc(e))),
            StartupActionView::Abort(ControlError::Rpc(e)),
        )
    }

    /// The transition of bring-up, for every state and every event.
    pub open spec fn step(self, event: StartupEvent) -> (StartupView, StartupActionView) {
        match (self.phase, event) {
            (StartupPhase::Ready, _) => (self, StartupActionView::Ready),
            (StartupPhase::Failed(e), _) => (self, StartupActionView::Abort(e)),
            (StartupPhase::Connecting, StartupEvent::Connected(Ok(_))) => self.proceed(0),
            (StartupPhase::Connecting, StartupEvent::Connected(Err(e))) => self.fail(e),
            (StartupPhase::Configuring(k), StartupEvent::Configured(Ok(_))) => self.proceed(k + 1),
            (StartupPhase::Configuring(_), StartupEvent::Configured(Err(e))) => self.fail(e),
            (StartupPhase::ShowingFace, StartupEvent::FaceShown(Ok(_))) => (
                self.at(StartupPhase::Ready),
                StartupActionView::Ready,
            ),
            (StartupPhase::ShowingFace, StartupEvent::FaceShown(Err(e))) => self.fail(e),
            _ => (self, StartupActionView::Ignored),
        }
    }

    /// How many actuators have acknowledged their configuration.
    pub open spec fn configured(self) -> int {
        match self.phase {
            StartupPhase::Connecting => 0,
            StartupPhase::Configuring(k) => k as int,
            StartupPhase::ShowingFace | StartupPhase::Ready => self.ids.len() as int,
            StartupPhase::Failed(_) => 0,
        }
    }
}

impl Startup {
    /// Bring-up as the contracts read it.
    pub closed spec fn view(&self) -> StartupView {
        StartupView { ids: self.ids@, greets: self.greets, phase: self.phase }
    }

    /// The settings the robot will hold.
    pub closed spec fn config(&self) -> Config {
        self.config
    }

    /// What every bring-up satisfies: its view is well formed, and its
    /// list is that of the humanoid.
    #[verifier::type_invariant]
    closed spec fn inv(&self) -> bool {
        &&& self@.wf()
        &&& self.ids@ == KBot::actuator_ids()
    }

    /// Where bring-up stands.
    pub fn phase(&self) -> (phase: StartupPhase)
        ensures
            phase == self@.phase,
    {
        self.phase
    }

    /// Says what to do once the actuators before place `k` have
    /// acknowledged.
    fn proceed(&mut self, k: usize) -> (action: StartupAction)
        ensures
            final(self).config() == old(self).config(),
            (final(self)@, action@) == old(self)@.proceed(k as int),
    {
        proof {
            use_type_invariant(&*self);
        }
        if k < self.ids.len() {
            self.phase = StartupPhase::Configuring(k);
            StartupAction::Configure(configure(self.ids[k], ActuatorSettings::torque_on()))
        } else if self.greets {
            self.phase = StartupPhase::ShowingFace;
            StartupAction::ShowFace(frame(Face::EyesOpen))
        } else {
            self.phase = StartupPhase::Ready;
            StartupAction::Ready
        }
    }

    /// Takes one event and says what to do next.
    ///
    /// Bring-up moves exactly as `StartupView::step` says, for every state
    /// and every event.
    pub fn step(&mut self, event: StartupEvent) -> (action: StartupAction)
        ensures
            old(self)@.wf(),
            old(self)@.ids == KBot::actuator_ids(),
            final(self)@.wf(),
            final(self).config() == old(self).config(),
            (final(self)@, action@) == old(self)@.step(event),
    {
        proof {
            use_type_invariant(&*self);
        }
        match self.phase {
            StartupPhase::Ready => StartupAction::Ready,
            StartupPhase::Failed(e) => StartupAction::Abort(e),
            StartupPhase::Connecting => match event {
                StartupEvent::Connected(Ok(_)) => self.proceed(0),
                StartupEvent::Connected(Err(e)) => {
                    self.phase = StartupPhase::Failed(ControlError::Rpc(e));
                    StartupAction::Abort(ControlError::Rpc(e))
                },
                _ => StartupAction::Ignored,
            },
            StartupPhase::Configuring(k) => match event {
                StartupEvent::Configured(Ok(_)) => self.proceed(k + 1),
                StartupEvent::Configured(Err(e)) => {
                    self.phase = StartupPhase::Failed(ControlError::Rpc(e));
                    StartupAction::Abort(ControlError::Rpc(e))
                },
                _ => StartupAction::Ignored,
            },
            StartupPhase::ShowingFace => match event {
                StartupEvent::FaceShown(Ok(_)) => {
                    self.phase = StartupPhase::Ready;
                    StartupAction::Ready
                },
                StartupEvent::FaceShown(Err(e)) => {
                    self.phase = StartupPhase::Failed(ControlError::Rpc(e));
                    StartupAction::Abort(ControlError::Rpc(e))
                },
                _ => StartupAction::Ignored,
            },
        }
    }

    /// Hands out the robot once bring-up is done, and the bring-up itself
    /// back while it is not.
    pub fn finish(self) -> (robot: Result<KBot, Startup>)
        ensures
            match robot {
                Ok(bot) => self@.phase is Ready && bot.config == self.config(),
                Err(unfinished) => !(self@.phase is Ready) && unfinished == self,
            },
    {
        match self.phase {
            StartupPhase::Ready => Ok(KBot { config: self.config }),
            _ => Err(self),
        }
    }
}

impl KBot {
    /// Begins the whole bring-up towards the service at `addr`: connect,
    /// configure every actuator, show the face.
    pub fn connect(addr: String, config: Config) -> (begun: (Startup, StartupAction))
        ensures
            begun.0.config() == config,
            begun.0@ == (StartupView {
                ids: KBot::actuator_ids(),
                greets: true,
                phase: StartupPhase::Connecting,
            }),
            begun.1@ == StartupActionView::Connect(addr@),
    {
        let startup = Startup {
            config,
            ids: KBot::list_actuator_ids(),
            greets: true,
            phase: StartupPhase::Connecting,
        };
        (startup, StartupAction::Connect(addr))
    }

    /// Begins the configuration of the actuators over a connection that
    /// is already made: torque is switched on at each actuator of the
    /// list, in the order of the list, and the first failure ends it.
    pub fn initialize(config: Config) -> (begun: (Startup, StartupAction))
        ensures
            begun.0.config() == config,
            begun.0@ == (StartupView {
                ids: KBot::actuator_ids(),
                greets: false,
                phase: StartupPhase::Configuring(0),
            }),
            begun.1@ == StartupActionView::Configure(enable_torque(KBot::actuator_ids()[0])),
    {
        let mut startup = Startup {
            config,
            ids: KBot::list_actuator_ids(),
            greets: false,
            phase: StartupPhase::Connecting,
        };
        let action = startup.proceed(0);
        (startup, action)
    }
}

/// Bring-up keeps to the list. Every event leaves it well formed and
/// leaves the list as it was; whenever it asks for a configuration, that
/// is torque on for the actuator at the place it has then reached; and it
/// reaches a place only from the place before, by an acknowledgement, or
/// the first place from the connection.
pub proof fn lemma_startup_keeps_to_the_list(s: StartupView, event: StartupEvent)
    requires
        s.wf(),
    ensures
        s.step(event).0.wf(),
        s.step(event).0.ids == s.ids,
        s.step(event).0.greets == s.greets,
        s.step(event).1 matches StartupActionView::Configure(request) ==> (s.step(
            event,
        ).0.phase matches StartupPhase::Configuring(k) && request == enable_torque(s.ids[k as int])
            && (if k == 0 {
            s.phase is Connecting && event matches StartupEvent::Connected(Ok(_))
        } else {
            s.phase == StartupPhase::Configuring((k - 1) as usize) && acknowledges(event)
        })),
        s.step(event).0.configured() <= s.configured() + (if acknowledges(event) {
            1int
        } else {
            0int
        }),
{
}

/// Whether `event` acknowledges the configuration of an actuator.
pub open spec fn acknowledges(event: StartupEvent) -> bool {
    event matches StartupEvent::Configured(Ok(_))
}

/// Where bring-up stands after a run of events.
pub open spec fn run(s: StartupView, events: Seq<StartupEvent>) -> StartupView
    decreases events.len(),
{
    if events.len() == 0 {
        s
    } else {
        run(s, events.drop_last()).step(events.last()).0
    }
}

/// How many configurations a run of events acknowledges.
pub open spec fn acknowledgements(events: Seq<StartupEvent>) -> int
    decreases events.len(),
{
    if events.len() == 0 {
        0
    } else {
        acknowledgements(events.drop_last()) + (if acknowledges(events.last()) {
            1int
        } else {
            0int
        })
    }
}

/// Bring-up is ready only after every actuator of the list has
/// acknowledged its configuration: however the events run, it has never
/// counted more actuators as configured than were acknowledged.
pub proof fn lemma_ready_means_all_acknowledged(s: StartupView, events: Seq<StartupEvent>)
    requires
        s.wf(),
        s.phase is Connecting,
    ensures
        run(s, events).wf(),
        run(s, events).ids == s.ids,
        run(s, events).configured() <= acknowledgements(events),
        run(s, events).phase is Ready ==> acknowledgements(events) >= s.ids.len(),
    decreases events.len(),
{
    if events.len() > 0 {
        lemma_ready_means_all_acknowledged(s, events.drop_last());
        lemma_startup_keeps_to_the_list(run(s, events.drop_last()), events.last());
    }
}

/// A failure is final: whatever comes after it, bring-up stays failed
/// with the same error and asks for nothing but to abort. In particular
/// no actuator is configured after one has failed.
pub proof fn lemma_failure_is_final(s: StartupView, e: RpcError, later: StartupEvent)
    requires
        s.wf(),
        s.phase is Connecting || s.phase is Configuring || s.phase is ShowingFace,
    ensures
        ({
            let failing = match s.phase {
                StartupPhase::Connecting => StartupEvent::Connected(Err(e)),
                StartupPhase::Configuring(_) => StartupEvent::Configured(Err(e)),
                _ => StartupEvent::FaceShown(Err(e)),
            };
            let (failed, action) = s.step(failing);
            &&& failed.phase == StartupPhase::Failed(ControlError::Rpc(e))
            &&& action == StartupActionView::Abort(ControlError::Rpc(e))
            &&& failed.step(later) == (failed, StartupActionView::Abort(ControlError::Rpc(e)))
        }),
{
}

/// Whether `event` is the one that `action` asks to be handed back.
pub open spec fn answers(action: StartupActionView, event: StartupEvent) -> bool {
    match action {
        StartupActionView::Connect(_) => event is Connected,
        StartupActionView::Configure(_) => event is Configured,
        StartupActionView::ShowFace(_) => event is FaceShown,
        StartupActionView::Ready => true,
        StartupActionView::Abort(_) => true,
        StartupActionView::Ignored => false,
    }
}

/// A driver that answers each action with the event that the action asks
/// for is never ignored, from the answer to the first action onwards.
pub proof fn lemma_an_answered_action_is_taken(
    s: StartupView,
    event: StartupEvent,
    answer: StartupEvent,
)
    requires
        s.wf(),
        !(s.step(event).1 is Ignored),
        answers(s.step(event).1, answer),
    ensures
        !(s.step(event).0.step(answer).1 is Ignored),
        s.phase is Connecting && event is Connected ==> !(s.step(event).1 is Ignored),
        s.phase is Configuring && event is Configured ==> !(s.step(event).1 is Ignored),
{
}

} // verus!
