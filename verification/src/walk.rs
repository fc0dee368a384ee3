//! The closed-loop walk controller as a state machine.
//!
//! The loop does no I/O. It is driven by events and answers each with the
//! next thing to do: read the inertial unit, read the actuator states, ask
//! the policy, dispatch the commands, rest until the next tick, or halt.
//! Within a tick these follow each other strictly, one outstanding at a
//! time, so the actuator link is never held while the policy is asked.
//!
//! Failures stay within their tick. A read that fails, of the inertial
//! unit or of the actuator states, and a policy step that fails each skip
//! the rest of the tick: nothing is dispatched and the walk goes on with
//! the next tick. A dispatch that fails ends its tick as failed, since
//! some actuators may have moved, and the walk goes on as well. The walk
//! ends only at a tick boundary, by cancellation or by its deadline.

use vstd::prelude::*;
use crate::command::{
    actuator, all_resolve, dispatch_verdict, join_dispatch, requests_view, resolution,
    resolve_all, single_request, JointTarget,
};
use crate::error::{ControlError, InferenceError, RpcError};
use crate::joint::{Axis, Dof, Joint};
use crate::link::{
    lemma_read_lines_up, read_outcome, read_states, reply_view, state_request, ActuatorCommand,
    ActuatorState, CommandActuatorsRequest, GetActuatorsStateRequest, JointCommand,
};
use crate::policy::{decode_targets, decoded, PolicyOutput};
use crate::robot::KBot;
use crate::scalar::{Scalar, Triple, SIX_TENTHS_BITS};

verus! {

/// One reading of the inertial unit.
#[derive(Debug, Clone, Copy, PartialEq, Eq, Structural, Hash)]
pub struct ImuValues {
    /// Angular velocity.
    pub gyro: Triple,
    /// Linear acceleration.
    pub accel: Triple,
}

/// What the policy is shown in one tick. The three per-joint vectors are
/// in the order of the loop's degrees of freedom.
#[derive(Debug, Clone, PartialEq, Eq)]
pub struct Observation {
    /// Angular velocity of the base, from the inertial unit.
    pub base_ang_vel: Triple,
    /// Linear acceleration, from the inertial unit; it goes to the policy
    /// as `projected_gravity_or_accel`.
    pub accel: Triple,
    /// The intent: forward, sideways, turn.
    pub commands: Triple,
    /// The angle of each joint.
    pub dof_pos: Vec<Scalar>,
    /// The rate of each joint.
    pub dof_vel: Vec<Scalar>,
    /// What the policy asked of each joint in the tick before.
    pub actions: Vec<Scalar>,
}

/// An observation as the contracts read it.
pub struct ObservationView {
    pub base_ang_vel: Triple,
    pub accel: Triple,
    pub commands: Triple,
    pub dof_pos: Seq<Scalar>,
    pub dof_vel: Seq<Scalar>,
    pub actions: Seq<Scalar>,
}

impl View for Observation {
    type V = ObservationView;

    open spec fn view(&self) -> ObservationView {
        ObservationView {
            base_ang_vel: self.base_ang_vel,
            accel: self.accel,
            commands: self.commands,
            dof_pos: self.dof_pos@,
            dof_vel: self.dof_vel@,
            actions: self.actions@,
        }
    }
}

/// The options of a walk.
#[derive(Debug, Clone, PartialEq, Eq)]
pub struct WalkConfig {
    /// The walk halts at the first tick boundary at which more whole
    /// seconds than this have passed.
    pub duration_secs: u64,
    /// The degrees of freedom the policy drives, in the order shared by
    /// every vector exchanged with it.
    pub dof_set: Vec<Dof>,
    /// Where the policy is asked.
    pub inference_endpoint: String,
    /// Milliseconds from one tick boundary to the next; zero starts each
    /// tick as soon as the last is over.
    pub tick_period_ms: u64,
}

/// The longest a single remote call or policy step may take, in
/// milliseconds. One that takes longer is handed to the loop as failed, so
/// that a slow service cannot stall actuation.
pub const CALL_TIMEOUT_MS: u64 = 1000;

/// How a tick ended.
#[derive(Debug, Clone, Copy, PartialEq, Eq, Hash)]
pub enum TickOutcome {
    /// Every command was dispatched and acknowledged.
    Completed,
    /// The inertial unit could not be read; nothing was dispatched.
    ImuFailed(RpcError),
    /// The actuator states could not be read; nothing was dispatched.
    StatesFailed(RpcError),
    /// The policy gave no usable answer; nothing was dispatched.
    InferenceFailed(InferenceError),
    /// Commands were dispatched and not all of them succeeded: some
    /// actuators may have moved.
    DispatchFailed(ControlError),
}

/// Where a tick stands.
#[derive(Debug, Clone, Copy, PartialEq, Eq, Structural, Hash)]
pub enum Stage {
    /// The inertial unit is being read.
    ReadingImu,
    /// The actuator states are being read; the inertial reading is kept.
    ReadingStates(ImuValues),
    /// The policy is being asked.
    Inferring,
    /// The commands are on their way.
    Dispatching,
}

/// Where the loop stands.
#[derive(Debug, Clone, Copy, PartialEq, Eq, Structural, Hash)]
pub enum Phase {
    /// Between two ticks.
    Armed,
    /// In a tick.
    Ticking(Stage),
    /// Halted for good.
    Stopped,
}

/// What happened outside the loop.
#[derive(Debug, PartialEq, Eq)]
pub enum Event {
    /// A tick boundary was reached, `elapsed_secs` whole seconds after the
    /// walk began; `cancelled` tells whether a stop was asked for.
    Boundary { elapsed_secs: u64, cancelled: bool },
    /// The read of the inertial unit came back.
    Imu(Result<ImuValues, RpcError>),
    /// The read of the actuator states came back.
    States(Result<Vec<ActuatorState>, RpcError>),
    /// The policy answered, or could not be asked.
    Inference(Result<PolicyOutput, InferenceError>),
    /// Every dispatched request has completed; one outcome per request.
    Dispatched(Vec<Result<(), RpcError>>),
}

/// An event as the contracts read it.
pub enum EventView {
    Boundary { elapsed_secs: u64, cancelled: bool },
    Imu(Result<ImuValues, RpcError>),
    States(Result<Seq<ActuatorState>, RpcError>),
    Inference(Result<Seq<(Seq<char>, Scalar)>, InferenceError>),
    Dispatched(Seq<Result<(), RpcError>>),
}

impl View for Event {
    type V = EventView;

    open spec fn view(&self) -> EventView {
        match *self {
            Event::Boundary { elapsed_secs, cancelled } => EventView::Boundary {
                elapsed_secs,
                cancelled,
            },
            Event::Imu(r) => EventView::Imu(r),
            Event::States(r) => EventView::States(reply_view(r)),
            Event::Inference(r) => EventView::Inference(
                match r {
                    Ok(output) => Ok(output@),
                    Err(e) => Err(e),
                },
            ),
            Event::Dispatched(outcomes) => EventView::Dispatched(outcomes@),
        }
    }
}

/// What the loop wants done next.
#[derive(Debug, Clone, PartialEq, Eq)]
pub enum Action {
    /// Read the inertial unit and hand back `Event::Imu`.
    ReadImu,
    /// Send this one request over the actuator link, release the link,
    /// and hand back `Event::States`.
    ReadStates(GetActuatorsStateRequest),
    /// Ask the policy with this observation and hand back
    /// `Event::Inference`. The actuator link is not in use.
    Infer(Observation),
    /// Send these requests, wait for all of them to complete, and hand
    /// back `Event::Dispatched`.
    Dispatch(Vec<CommandActuatorsRequest>),
    /// The tick is over; hand back `Event::Boundary` at the next boundary.
    Rest(TickOutcome),
    /// The walk is over.
    Halt,
    /// The event did not belong to the phase the loop is in: nothing
    /// changed, and what was outstanding still is.
    Ignored,
}

/// An action as the contracts read it.
pub enum ActionView {
    ReadImu,
    ReadStates(Seq<u32>),
    Infer(ObservationView),
    Dispatch(Seq<Seq<ActuatorCommand>>),
    Rest(TickOutcome),
    Halt,
    Ignored,
}

impl View for Action {
    type V = ActionView;

    open spec fn view(&self) -> ActionView {
        match *self {
            Action::ReadImu => ActionView::ReadImu,
            Action::ReadStates(request) => ActionView::ReadStates(request.actuator_ids@),
            Action::Infer(observation) => ActionView::Infer(observation@),
            Action::Dispatch(requests) => ActionView::Dispatch(requests_view(requests@)),
            Action::Rest(outcome) => ActionView::Rest(outcome),
            Action::Halt => ActionView::Halt,
            Action::Ignored => ActionView::Ignored,
        }
    }
}

/// The closed-loop walk controller.
#[derive(Debug)]
pub struct WalkLoop {
    config: WalkConfig,
    actuators: Vec<u32>,
    phase: Phase,
    previous_action: Vec<Scalar>,
}

/// The loop as the contracts read it.
pub struct WalkView {
    /// The deadline, in whole seconds.
    pub duration_secs: u64,
    /// The degrees of freedom the policy drives, in their one order.
    pub dofs: Seq<Dof>,
    /// Where the loop stands.
    pub phase: Phase,
    /// What the policy last asked for, in the order of `dofs`: the only
    /// state that survives from one tick to the next.
    pub previous_action: Seq<Scalar>,
}

/// The degrees of freedom that the policy drives unless told otherwise:
/// hips, knees and ankles, right before left.
pub open spec fn canonical_dofs() -> Seq<Dof> {
    seq![
        Dof { joint: Joint::RightHip, axis: Some(Axis::Pitch) },
        Dof { joint: Joint::LeftHip, axis: Some(Axis::Pitch) },
        Dof { joint: Joint::RightHip, axis: Some(Axis::Yaw) },
        Dof { joint: Joint::LeftHip, axis: Some(Axis::Yaw) },
        Dof { joint: Joint::RightHip, axis: Some(Axis::Roll) },
        Dof { joint: Joint::LeftHip, axis: Some(Axis::Roll) },
        Dof { joint: Joint::RightKnee, axis: Some(Axis::Pitch) },
        Dof { joint: Joint::LeftKnee, axis: Some(Axis::Pitch) },
        Dof { joint: Joint::RightAnkle, axis: Some(Axis::Pitch) },
        Dof { joint: Joint::LeftAnkle, axis: Some(Axis::Pitch) },
    ]
}

/// The default degrees of freedom are ten of the humanoid's, no two the
/// same, so a tick with the default options reads and commands ten
/// different actuators.
pub proof fn lemma_canonical_dofs_are_ten_different_joints(i: int, j: int)
    requires
        0 <= i < j < canonical_dofs().len(),
    ensures
        canonical_dofs().len() == 10,
        all_resolve(canonical_dofs()),
        canonical_dofs()[i] != canonical_dofs()[j],
        actuator(canonical_dofs()[i]) != actuator(canonical_dofs()[j]),
{
}

/// The actuators of `dofs`, in the order of `dofs`.
pub open spec fn actuators_of(dofs: Seq<Dof>) -> Seq<u32> {
    Seq::new(dofs.len(), |i: int| actuator(dofs[i]))
}

/// As many zeros as `n`.
pub open spec fn zeros(n: nat) -> Seq<Scalar> {
    Seq::new(n, |i: int| Scalar::spec_zero())
}

/// The intent handed to the policy: forward at six tenths, no sideways
/// motion, no turn.
pub open spec fn intent() -> Triple {
    Triple {
        x: Scalar { bits: SIX_TENTHS_BITS },
        y: Scalar::spec_zero(),
        z: Scalar::spec_zero(),
    }
}

/// The observation of one tick: the inertial reading, the intent, the
/// angle and rate of each state in the order the states are in, and the
/// previous action.
pub open spec fn observe(imu: ImuValues, states: Seq<ActuatorState>, previous: Seq<Scalar>)
    -> ObservationView {
    ObservationView {
        base_ang_vel: imu.gyro,
        accel: imu.accel,
        commands: intent(),
        dof_pos: Seq::new(states.len(), |i: int| states[i].spec_position()),
        dof_vel: Seq::new(states.len(), |i: int| states[i].spec_velocity()),
        actions: previous,
    }
}

/// The targets that ask each of `dofs` for the angle at its place in
/// `angles`, leaving rate and torque alone.
pub open spec fn position_targets(dofs: Seq<Dof>, angles: Seq<Scalar>) -> Seq<JointTarget> {
    Seq::new(
        dofs.len(),
        |i: int| JointTarget { dof: dofs[i], command: JointCommand::spec_position(angles[i]) },
    )
}

/// The requests that carry `angles` to `dofs`: one per degree of freedom,
/// in the order of `dofs`.
pub open spec fn position_requests(dofs: Seq<Dof>, angles: Seq<Scalar>) -> Seq<
    Seq<ActuatorCommand>,
> {
    Seq::new(dofs.len(), |i: int| single_request(position_targets(dofs, angles)[i]))
}

/// How a tick that dispatched `sent` requests ended, given what came back.
pub open spec fn dispatch_outcome(sent: nat, outcomes: Seq<Result<(), RpcError>>) -> TickOutcome {
    match dispatch_verdict(sent, outcomes) {
        Ok(_) => TickOutcome::Completed,
        Err(e) => TickOutcome::DispatchFailed(e),
    }
}

impl WalkView {
    /// What every loop satisfies: each degree of freedom is one of the
    /// humanoid's, and the previous action has one entry for each.
    pub open spec fn wf(self) -> bool {
        &&& all_resolve(self.dofs)
        &&& self.previous_action.len() == self.dofs.len()
    }

    /// The loop in another phase.
    pub open spec fn at(self, phase: Phase) -> WalkView {
        WalkView { phase, ..self }
    }

    /// The loop as it is made: armed, with zeros for the previous action.
    pub open spec fn initial(duration_secs: u64, dofs: Seq<Dof>) -> WalkView {
        WalkView { duration_secs, dofs, phase: Phase::Armed, previous_action: zeros(dofs.len()) }
    }

    /// The transition of the loop: its next state and what it wants done,
    /// for every state and every event.
    pub open spec fn step(self, event: EventView) -> (WalkView, ActionView) {
        match (self.phase, event) {
            (Phase::Stopped, _) => (self, ActionView::Halt),
            (Phase::Armed, EventView::Boundary { elapsed_secs, cancelled }) => {
                if cancelled || elapsed_secs > self.duration_secs {
                    (self.at(Phase::Stopped), ActionView::Halt)
                } else {
                    (self.at(Phase::Ticking(Stage::ReadingImu)), ActionView::ReadImu)
                }
            },
            (Phase::Ticking(Stage::ReadingImu), EventView::Imu(Ok(imu))) => (
                self.at(Phase::Ticking(Stage::ReadingStates(imu))),
                ActionView::ReadStates(actuators_of(self.dofs)),
            ),
            (Phase::Ticking(Stage::ReadingImu), EventView::Imu(Err(e))) => (
                self.at(Phase::Armed),
                ActionView::Rest(TickOutcome::ImuFailed(e)),
            ),
            (Phase::Ticking(Stage::ReadingStates(imu)), EventView::States(reply)) => {
                match read_outcome(actuators_of(self.dofs), reply) {
                    Ok(states) => (
                        self.at(Phase::Ticking(Stage::Inferring)),
                        ActionView::Infer(observe(imu, states, self.previous_action)),
                    ),
                    Err(e) => (
                        self.at(Phase::Armed),
                        ActionView::Rest(TickOutcome::StatesFailed(e)),
                    ),
                }
            },
            (Phase::Ticking(Stage::Inferring), EventView::Inference(Ok(output))) => {
                match decoded(self.dofs, output) {
                    Ok(angles) => (
                        WalkView {
                            phase: Phase::Ticking(Stage::Dispatching),
                            previous_action: angles,
                            ..self
                        },
                        ActionView::Dispatch(position_requests(self.dofs, angles)),
                    ),
                    Err(e) => (
                        self.at(Phase::Armed),
                        ActionView::Rest(TickOutcome::InferenceFailed(e)),
                    ),
                }
            },
            (Phase::Ticking(Stage::Inferring), EventView::Inference(Err(e))) => (
                self.at(Phase::Armed),
                ActionView::Rest(TickOutcome::InferenceFailed(e)),
            ),
            (Phase::Ticking(Stage::Dispatching), EventView::Dispatched(outcomes)) => (
                self.at(Phase::Armed),
                ActionView::Rest(dispatch_outcome(self.dofs.len(), outcomes)),
            ),
            _ => (self, ActionView::Ignored),
        }
    }
}

/// Copies a vector of scalars.
fn copy_scalars(source: &Vec<Scalar>) -> (copy: Vec<Scalar>)
    ensures
        copy@ == source@,
{
    let mut copy: Vec<Scalar> = Vec::new();
    let mut i: usize = 0;
    while i < source.len()
        invariant
            i <= source@.len(),
            copy@ == source@.take(i as int),
        decreases source@.len() - i,
    {
        copy.push(source[i]);
        assert(source@.take(i as int).push(source@[i as int]) =~= source@.take(i + 1));
        i += 1;
    }
    assert(source@.take(source@.len() as int) =~= source@);
    copy
}

/// Assembles the observation of one tick.
pub fn assemble(
    imu: ImuValues,
    states: &Vec<ActuatorState>,
    previous: &Vec<Scalar>,
) -> (observation: Observation)
    ensures
        observation@ == observe(imu, states@, previous@),
{
    let mut dof_pos: Vec<Scalar> = Vec::new();
    let mut dof_vel: Vec<Scalar> = Vec::new();
    let mut i: usize = 0;
    while i < states.len()
        invariant
            i <= states@.len(),
            dof_pos@.len() == i,
            dof_vel@.len() == i,
            forall|k: int| 0 <= k < i ==> #[trigger] dof_pos@[k] == states@[k].spec_position(),
            forall|k: int| 0 <= k < i ==> #[trigger] dof_vel@[k] == states@[k].spec_velocity(),
        decreases states@.len() - i,
    {
        let state = states[i];
        dof_pos.push(state.position());
        dof_vel.push(state.velocity());
        i += 1;
    }
    let observation = Observation {
        base_ang_vel: imu.gyro,
        accel: imu.accel,
        commands: Triple {
            x: Scalar::from_bits(SIX_TENTHS_BITS),
            y: Scalar::zero(),
            z: Scalar::zero(),
        },
        dof_pos,
        dof_vel,
        actions: copy_scalars(previous),
    };
    assert(observation@.dof_pos =~= observe(imu, states@, previous@).dof_pos);
    assert(observation@.dof_vel =~= observe(imu, states@, previous@).dof_vel);
    observation
}

/// Pairs each degree of freedom with the angle at its place.
fn targets_for(dofs: &Vec<Dof>, angles: &Vec<Scalar>) -> (targets: Vec<JointTarget>)
    requires
        angles@.len() == dofs@.len(),
    ensures
        targets@ == position_targets(dofs@, angles@),
{
    let mut targets: Vec<JointTarget> = Vec::new();
    let mut i: usize = 0;
    while i < dofs.len()
        invariant
            i <= dofs@.len(),
            angles@.len() == dofs@.len(),
            targets@.len() == i,
            forall|k: int|
                0 <= k < i ==> #[trigger] targets@[k] == position_targets(dofs@, angles@)[k],
        decreases dofs@.len() - i,
    {
        targets.push(JointTarget { dof: dofs[i], command: JointCommand::position(angles[i]) });
        i += 1;
    }
    assert(targets@ =~= position_targets(dofs@, angles@));
    targets
}

impl WalkLoop {
    /// The loop as the contracts read it.
    pub closed spec fn view(&self) -> WalkView {
        WalkView {
            duration_secs: self.config.duration_secs,
            dofs: self.config.dof_set@,
            phase: self.phase,
            previous_action: self.previous_action@,
        }
    }

    /// The options the loop was made with.
    pub closed spec fn options(&self) -> WalkConfig {
        self.config
    }

    /// What every loop satisfies: its view is well formed, and the
    /// actuators it holds are those of its degrees of freedom.
    #[verifier::type_invariant]
    closed spec fn inv(&self) -> bool {
        &&& self@.wf()
        &&& self.actuators@ == actuators_of(self.config.dof_set@)
    }

    /// Makes a loop for `config`: armed, with zeros for the previous action.
    ///
    /// The degrees of freedom are resolved once, here. A set with a member
    /// that the humanoid does not have is refused with `UnknownJoint`,
    /// which names the first such member.
    pub fn new(config: WalkConfig) -> (made: Result<WalkLoop, ControlError>)
        ensures
            match made {
                Ok(w) => w@.wf() && w.options() == config && w@ == WalkView::initial(
                    config.duration_secs,
                    config.dof_set@,
                ) && resolution(config.dof_set@) is Ok,
                Err(e) => resolution(config.dof_set@) == Err::<Seq<u32>, ControlError>(e),
            },
    {
        match resolve_all(&config.dof_set) {
            Err(e) => Err(e),
            Ok(actuators) => {
                let mut previous_action: Vec<Scalar> = Vec::new();
                let mut i: usize = 0;
                while i < config.dof_set.len()
                    invariant
                        i <= config.dof_set@.len(),
                        previous_action@.len() == i,
                        forall|k: int|
                            0 <= k < i ==> #[trigger] previous_action@[k] == Scalar::spec_zero(),
                    decreases config.dof_set@.len() - i,
                {
                    previous_action.push(Scalar::zero());
                    i += 1;
                }
                assert(previous_action@ =~= zeros(config.dof_set@.len()));
                Ok(WalkLoop { config, actuators, phase: Phase::Armed, previous_action })
            },
        }
    }

    /// Where the loop stands.
    pub fn phase(&self) -> (phase: Phase)
        ensures
            phase == self@.phase,
    {
        self.phase
    }

    /// What the policy last asked for, in the order of the degrees of
    /// freedom; zeros before the first answer.
    pub fn previous_action(&self) -> (action: &Vec<Scalar>)
        ensures
            action@ == self@.previous_action,
    {
        &self.previous_action
    }

    /// The options the loop was made with.
    pub fn config(&self) -> (config: &WalkConfig)
        ensures
            *config == self.options(),
            config.duration_secs == self@.duration_secs,
            config.dof_set@ == self@.dofs,
    {
        &self.config
    }

    /// The actuators the loop reads and commands, in the order of its
    /// degrees of freedom.
    pub fn actuators(&self) -> (ids: &Vec<u32>)
        ensures
            ids@ == actuators_of(self@.dofs),
    {
        proof {
            use_type_invariant(self);
        }
        &self.actuators
    }

    /// Takes one event and says what to do next.
    ///
    /// The loop moves exactly as `WalkView::step` says, for every state
    /// and every event. The commands of a tick are prepared through
    /// `kbot`.
    pub fn step(&mut self, kbot: &KBot, event: Event) -> (action: Action)
        ensures
            old(self)@.wf(),
            final(self)@.wf(),
            final(self).options() == old(self).options(),
            (final(self)@, action@) == old(self)@.step(event@),
    {
        proof {
            use_type_invariant(&*self);
        }
        match self.phase {
            Phase::Stopped => Action::Halt,
            Phase::Armed => match event {
                Event::Boundary { elapsed_secs, cancelled } => {
                    if cancelled || elapsed_secs > self.config.duration_secs {
                        self.phase = Phase::Stopped;
                        Action::Halt
                    } else {
                        self.phase = Phase::Ticking(Stage::ReadingImu);
                        Action::ReadImu
                    }
                },
                _ => Action::Ignored,
            },
            Phase::Ticking(Stage::ReadingImu) => match event {
                Event::Imu(Ok(imu)) => {
                    self.phase = Phase::Ticking(Stage::ReadingStates(imu));
                    Action::ReadStates(state_request(&self.actuators))
                },
                Event::Imu(Err(e)) => {
                    self.phase = Phase::Armed;
                    Action::Rest(TickOutcome::ImuFailed(e))
                },
                _ => Action::Ignored,
            },
            Phase::Ticking(Stage::ReadingStates(imu)) => match event {
                Event::States(reply) => match read_states(&self.actuators, reply) {
                    Ok(states) => {
                        self.phase = Phase::Ticking(Stage::Inferring);
                        Action::Infer(assemble(imu, &states, &self.previous_action))
                    },
                    Err(e) => {
                        self.phase = Phase::Armed;
                        Action::Rest(TickOutcome::StatesFailed(e))
                    },
                },
                _ => Action::Ignored,
            },
            Phase::Ticking(Stage::Inferring) => match event {
                Event::Inference(Ok(output)) => match decode_targets(
                    &self.config.dof_set,
                    &output,
                ) {
                    Ok(angles) => {
                        let targets = targets_for(&self.config.dof_set, &angles);
                        match kbot.command_many(&targets) {
                            Ok(requests) => {
                                assert(requests_view(requests@) =~= position_requests(
                                    self.config.dof_set@,
                                    angles@,
                                ));
                                self.previous_action = angles;
                                self.phase = Phase::Ticking(Stage::Dispatching);
                                Action::Dispatch(requests)
                            },
                            Err(_) => {
                                assert(false);
                                vstd::pervasive::unreached()
                            },
                        }
                    },
                    Err(e) => {
                        self.phase = Phase::Armed;
                        Action::Rest(TickOutcome::InferenceFailed(e))
                    },
                },
                Event::Inference(Err(e)) => {
                    self.phase = Phase::Armed;
                    Action::Rest(TickOutcome::InferenceFailed(e))
                },
                _ => Action::Ignored,
            },
            Phase::Ticking(Stage::Dispatching) => match event {
                Event::Dispatched(outcomes) => {
                    self.phase = Phase::Armed;
                    match join_dispatch(self.config.dof_set.len(), &outcomes) {
                        Ok(_) => Action::Rest(TickOutcome::Completed),
                        Err(e) => Action::Rest(TickOutcome::DispatchFailed(e)),
                    }
                },
                _ => Action::Ignored,
            },
        }
    }
}

/// The degrees of freedom that the policy drives unless told otherwise,
/// in their order.
pub fn canonical_dof_set() -> (dofs: Vec<Dof>)
    ensures
        dofs@ == canonical_dofs(),
        all_resolve(dofs@),
{
    let dofs: Vec<Dof> = vec![
        Dof { joint: Joint::RightHip, axis: Some(Axis::Pitch) },
        Dof { joint: Joint::LeftHip, axis: Some(Axis::Pitch) },
        Dof { joint: Joint::RightHip, axis: Some(Axis::Yaw) },
        Dof { joint: Joint::LeftHip, axis: Some(Axis::Yaw) },
        Dof { joint: Joint::RightHip, axis: Some(Axis::Roll) },
        Dof { joint: Joint::LeftHip, axis: Some(Axis::Roll) },
        Dof { joint: Joint::RightKnee, axis: Some(Axis::Pitch) },
        Dof { joint: Joint::LeftKnee, axis: Some(Axis::Pitch) },
        Dof { joint: Joint::RightAnkle, axis: Some(Axis::Pitch) },
        Dof { joint: Joint::LeftAnkle, axis: Some(Axis::Pitch) },
    ];
    assert(dofs@ =~= canonical_dofs());
    dofs
}

impl WalkConfig {
    /// How long to rest before the next tick boundary, in milliseconds,
    /// when `spent_ms` have passed since the last one: what is left of the
    /// period, or nothing if the tick overran it.
    pub open spec fn spec_rest_ms(&self, spent_ms: u64) -> u64 {
        if spent_ms >= self.tick_period_ms {
            0
        } else {
            (self.tick_period_ms - spent_ms) as u64
        }
    }

    /// How long to rest before the next tick boundary, in milliseconds,
    /// when `spent_ms` have passed since the last one.
    #[verifier::when_used_as_spec(spec_rest_ms)]
    pub fn rest_ms(&self, spent_ms: u64) -> (rest: u64)
        ensures
            rest == self.spec_rest_ms(spent_ms),
            spent_ms + rest >= self.tick_period_ms,
            rest <= self.tick_period_ms,
    {
        if spent_ms >= self.tick_period_ms {
            0
        } else {
            self.tick_period_ms - spent_ms
        }
    }
}

impl Default for WalkConfig {
    /// Five seconds over hips, knees and ankles, asking the policy on
    /// this machine, each tick as soon as the last is over.
    fn default() -> (config: WalkConfig)
        ensures
            config.duration_secs == 5,
            config.dof_set@ == canonical_dofs(),
            config.inference_endpoint@ == "http://localhost:4242/infer"@,
            config.tick_period_ms == 0,
    {
        WalkConfig {
            duration_secs: 5,
            dof_set: canonical_dof_set(),
            inference_endpoint: "http://localhost:4242/infer".to_owned(),
            tick_period_ms: 0,
        }
    }
}

/// Arms a walk with the default options.
pub fn walk() -> (armed: WalkLoop)
    ensures
        armed@.wf(),
        armed@ == WalkView::initial(5, canonical_dofs()),
        armed.options().duration_secs == 5,
        armed.options().dof_set@ == canonical_dofs(),
        armed.options().inference_endpoint@ == "http://localhost:4242/infer"@,
        armed.options().tick_period_ms == 0,
{
    match WalkLoop::new(WalkConfig::default()) {
        Ok(armed) => armed,
        Err(_) => {
            assert(false);
            vstd::pervasive::unreached()
        },
    }
}

/// Prepares the commands that carry the policy's answer to hips, knees
/// and ankles.
///
/// The answer is read by joint name, and the requests come out in the
/// order in which the states of those joints are shown to the policy: one
/// request per joint, each asking for an angle only. An answer that lacks
/// one of those joints is `Malformed`, and then there is no request.
pub fn command_all_joints(joints: &PolicyOutput, kbot: &KBot) -> (plan: Result<
    Vec<CommandActuatorsRequest>,
    InferenceError,
>)
    ensures
        match decoded(canonical_dofs(), joints@) {
            Ok(angles) => plan matches Ok(requests) && requests_view(requests@)
                == position_requests(canonical_dofs(), angles),
            Err(e) => plan == Err::<Vec<CommandActuatorsRequest>, InferenceError>(e),
        },
{
    let dofs = canonical_dof_set();
    match decode_targets(&dofs, joints) {
        Err(e) => Err(e),
        Ok(angles) => {
            let targets = targets_for(&dofs, &angles);
            match kbot.command_many(&targets) {
                Ok(requests) => {
                    assert(requests_view(requests@) =~= position_requests(dofs@, angles@));
                    Ok(requests)
                },
                Err(_) => {
                    assert(false);
                    vstd::pervasive::unreached()
                },
            }
        },
    }
}

/// A state read that fails skips the tick and nothing more: nothing is
/// dispatched, the previous action stays as it was, and the loop is armed
/// again rather than halted. The next boundary, unless it is cancelled or
/// past the deadline, starts the next tick.
pub proof fn lemma_failed_state_read_skips_the_tick(
    w: WalkView,
    imu: ImuValues,
    reply: Result<Seq<ActuatorState>, RpcError>,
    elapsed_secs: u64,
)
    requires
        w.wf(),
        w.phase == Phase::Ticking(Stage::ReadingStates(imu)),
        read_outcome(actuators_of(w.dofs), reply) is Err,
    ensures
        w.step(EventView::States(reply)).1 == ActionView::Rest(
            TickOutcome::StatesFailed(read_outcome(actuators_of(w.dofs), reply)->Err_0),
        ),
        w.step(EventView::States(reply)).0 == w.at(Phase::Armed),
        elapsed_secs <= w.duration_secs ==> w.step(EventView::States(reply)).0.step(
            EventView::Boundary { elapsed_secs, cancelled: false },
        ) == (w.at(Phase::Ticking(Stage::ReadingImu)), ActionView::ReadImu),
{
}

/// One order from end to end. In a tick whose state read and policy step
/// succeed, place `i` of the angles and rates shown to the policy, place
/// `i` of the requests dispatched and place `i` of the action remembered
/// for the next tick all belong to the actuator of the loop's `i`-th
/// degree of freedom.
pub proof fn lemma_one_order_end_to_end(
    w: WalkView,
    imu: ImuValues,
    reply: Result<Seq<ActuatorState>, RpcError>,
    output: Seq<(Seq<char>, Scalar)>,
    i: int,
)
    requires
        w.wf(),
        w.phase == Phase::Ticking(Stage::ReadingStates(imu)),
        read_outcome(actuators_of(w.dofs), reply) is Ok,
        decoded(w.dofs, output) is Ok,
        0 <= i < w.dofs.len(),
    ensures
        ({
            let states = read_outcome(actuators_of(w.dofs), reply)->Ok_0;
            let angles = decoded(w.dofs, output)->Ok_0;
            let (inferring, shown) = w.step(EventView::States(reply));
            let (dispatching, sent) = inferring.step(EventView::Inference(Ok(output)));
            &&& states.len() == w.dofs.len()
            &&& states[i].actuator_id == actuator(w.dofs[i])
            &&& shown matches ActionView::Infer(observation)
            &&& observation.dof_pos.len() == w.dofs.len()
            &&& observation.dof_vel.len() == w.dofs.len()
            &&& observation.actions.len() == w.dofs.len()
            &&& observation.dof_pos[i] == states[i].spec_position()
            &&& observation.dof_vel[i] == states[i].spec_velocity()
            &&& sent matches ActionView::Dispatch(requests)
            &&& requests.len() == w.dofs.len()
            &&& requests[i] == seq![
                ActuatorCommand {
                    actuator_id: actuator(w.dofs[i]),
                    position: Some(angles[i]),
                    velocity: None,
                    torque: None,
                },
            ]
            &&& dispatching.previous_action.len() == w.dofs.len()
            &&& dispatching.previous_action[i] == angles[i]
            &&& dispatching.dofs == w.dofs
        }),
{
    lemma_read_lines_up(actuators_of(w.dofs), reply->Ok_0);
}

/// The action that the policy is shown in a tick is the one it gave in
/// the tick before, whether or not that tick's dispatch succeeded.
pub proof fn lemma_previous_action_is_fed_back(
    w: WalkView,
    output: Seq<(Seq<char>, Scalar)>,
    outcomes: Seq<Result<(), RpcError>>,
    elapsed_secs: u64,
    imu: ImuValues,
    reply: Result<Seq<ActuatorState>, RpcError>,
)
    requires
        w.wf(),
        w.phase == Phase::Ticking(Stage::Inferring),
        decoded(w.dofs, output) is Ok,
        elapsed_secs <= w.duration_secs,
        read_outcome(actuators_of(w.dofs), reply) is Ok,
    ensures
        ({
            let dispatching = w.step(EventView::Inference(Ok(output))).0;
            let armed = dispatching.step(EventView::Dispatched(outcomes)).0;
            let reading = armed.step(EventView::Boundary { elapsed_secs, cancelled: false }).0;
            let waiting = reading.step(EventView::Imu(Ok(imu))).0;
            let shown = waiting.step(EventView::States(reply)).1;
            &&& armed.phase == Phase::Armed
            &&& shown matches ActionView::Infer(observation)
            &&& observation.actions == decoded(w.dofs, output)->Ok_0
        }),
{
}

/// Whether `event` is an answer of the policy that the loop `w` is
/// waiting for and can read in full.
pub open spec fn usable_answer(w: WalkView, event: EventView) -> bool {
    &&& w.phase == Phase::Ticking(Stage::Inferring)
    &&& event matches EventView::Inference(Ok(output))
    &&& decoded(w.dofs, output) is Ok
}

/// Only a usable answer of the policy, taken while the loop is asking it,
/// writes the previous action; nothing else does. No event changes the
/// degrees of freedom or the deadline, and every event leaves the loop
/// well formed.
pub proof fn lemma_previous_action_has_one_writer(w: WalkView, event: EventView)
    requires
        w.wf(),
    ensures
        w.step(event).0.previous_action != w.previous_action ==> usable_answer(w, event),
        w.step(event).0.dofs == w.dofs,
        w.step(event).0.duration_secs == w.duration_secs,
        w.step(event).0.wf(),
{
}

/// Commands leave the loop only as the answer to a usable policy output,
/// and the policy is asked only as the answer to a state read that came
/// back: the actuator link is idle whenever the policy is asked.
pub proof fn lemma_actions_follow_their_events(w: WalkView, event: EventView)
    ensures
        w.step(event).1 is Dispatch ==> usable_answer(w, event),
        w.step(event).1 is Infer ==> (w.phase matches Phase::Ticking(stage) && stage
            is ReadingStates) && event is States,
        w.step(event).1 is ReadStates ==> w.phase == Phase::Ticking(Stage::ReadingImu)
            && event is Imu,
        w.step(event).1 is ReadImu ==> w.phase == Phase::Armed && event is Boundary,
{
}

/// Whether `event` is a boundary at which the loop `w` is to halt: one
/// that is cancelled or lies past the deadline.
pub open spec fn halting(w: WalkView, event: EventView) -> bool {
    &&& event matches EventView::Boundary { elapsed_secs, cancelled }
    &&& cancelled || elapsed_secs > w.duration_secs
}

/// A tick is never cut short: a boundary or a cancellation that arrives
/// in the middle of a tick changes nothing. The loop halts only at a
/// boundary between two ticks, and once halted it stays halted.
pub proof fn lemma_halts_only_between_ticks(w: WalkView, event: EventView)
    ensures
        w.phase is Ticking && event is Boundary ==> w.step(event) == (w, ActionView::Ignored),
        w.phase is Ticking ==> !(w.step(event).0.phase is Stopped),
        w.phase is Stopped ==> w.step(event) == (w, ActionView::Halt),
        w.phase is Armed ==> (w.step(event).0.phase is Stopped <==> halting(w, event)),
{
}

/// Where the loop stands after a run of events.
pub open spec fn run(w: WalkView, events: Seq<EventView>) -> WalkView
    decreases events.len(),
{
    if events.len() == 0 {
        w
    } else {
        run(w, events.drop_last()).step(events.last()).0
    }
}

/// However the events run, the loop stays well formed and keeps the
/// degrees of freedom it was made with, in their order, and its deadline:
/// the one order holds in every tick of a walk. A loop that has halted
/// stays halted.
pub proof fn lemma_order_is_kept_for_good(w: WalkView, events: Seq<EventView>)
    requires
        w.wf(),
    ensures
        run(w, events).wf(),
        run(w, events).dofs == w.dofs,
        run(w, events).duration_secs == w.duration_secs,
        w.phase is Stopped ==> run(w, events) == w,
    decreases events.len(),
{
    if events.len() > 0 {
        lemma_order_is_kept_for_good(w, events.drop_last());
        lemma_previous_action_has_one_writer(run(w, events.drop_last()), events.last());
    }
}

/// Whether `event` is the one that `action` asks to be handed back.
pub open spec fn answers(action: ActionView, event: EventView) -> bool {
    match action {
        ActionView::ReadImu => event is Imu,
        ActionView::ReadStates(_) => event is States,
        ActionView::Infer(_) => event is Inference,
        ActionView::Dispatch(_) => event is Dispatched,
        ActionView::Rest(_) => event is Boundary,
        ActionView::Halt => true,
        ActionView::Ignored => false,
    }
}

/// A driver that answers each action with the event that the action asks
/// for is never ignored: the loop takes every such event, from the first
/// boundary onwards.
pub proof fn lemma_an_answered_action_is_taken(w: WalkView, event: EventView, answer: EventView)
    requires
        !(w.step(event).1 is Ignored),
        answers(w.step(event).1, answer),
    ensures
        !(w.step(event).0.step(answer).1 is Ignored),
        w.phase is Armed && event is Boundary ==> !(w.step(event).1 is Ignored),
{
}

} // verus!
