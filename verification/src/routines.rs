//! Canned poses and probes: fixed sequences of joint commands.
//!
//! Each routine yields its requests in the order in which they are to be
//! sent. `routine_step` says how they are sent: one at a time, each only
//! after the one before it was acknowledged, and none after a failure.

use vstd::prelude::*;
use crate::command::{actuator, all_resolve, dofs_of, requests_view, single_request, JointTarget};
use crate::error::{ControlError, RpcError};
use crate::joint::{Axis, Dof, Joint};
use crate::link::{
    ActuatorCommand, CommandActuatorsRequest, GetActuatorsStateRequest, JointCommand,
};
use crate::robot::{all_dofs, KBot, Robot};
use crate::scalar::{
    Scalar, HALF_TURN_BITS, MINUS_NINETY_BITS, MINUS_TEN_BITS, MINUS_TWENTY_BITS, NINETY_BITS,
    THIRTY_BITS, TWENTY_BITS, ZERO_BITS,
};

verus! {

/// The requests of a routine: one per target, in the order of `targets`,
/// each carrying its target alone.
pub open spec fn routine(targets: Seq<JointTarget>) -> Seq<Seq<ActuatorCommand>> {
    Seq::new(targets.len(), |i: int| single_request(targets[i]))
}

/// The target that asks `joint` about `axis` for the angle with the bit
/// pattern `bits`.
pub open spec fn pose_of(joint: Joint, axis: Axis, bits: u64) -> JointTarget {
    JointTarget::spec_position(joint, Some(axis), Scalar { bits })
}

/// The targets of the dab: right arm up and bent, left arm out.
pub open spec fn dab_targets() -> Seq<JointTarget> {
    seq![
        pose_of(Joint::RightShoulder, Axis::Pitch, NINETY_BITS),
        pose_of(Joint::RightShoulder, Axis::Yaw, MINUS_TEN_BITS),
        pose_of(Joint::RightElbow, Axis::Yaw, MINUS_NINETY_BITS),
        pose_of(Joint::LeftShoulder, Axis::Pitch, ZERO_BITS),
        pose_of(Joint::LeftShoulder, Axis::Yaw, MINUS_TWENTY_BITS),
        pose_of(Joint::LeftElbow, Axis::Yaw, THIRTY_BITS),
    ]
}

/// The targets of the flex: right arm raised and folded, left arm out.
pub open spec fn muscles_targets() -> Seq<JointTarget> {
    seq![
        pose_of(Joint::RightElbow, Axis::Yaw, HALF_TURN_BITS),
        pose_of(Joint::RightShoulder, Axis::Yaw, NINETY_BITS),
        pose_of(Joint::RightShoulder, Axis::Pitch, ZERO_BITS),
        pose_of(Joint::LeftShoulder, Axis::Pitch, ZERO_BITS),
        pose_of(Joint::LeftShoulder, Axis::Yaw, MINUS_NINETY_BITS),
        pose_of(Joint::LeftElbow, Axis::Yaw, THIRTY_BITS),
    ]
}

/// The targets of the rest pose: every degree of freedom of the humanoid
/// at angle zero.
pub open spec fn zero_targets() -> Seq<JointTarget> {
    Seq::new(
        all_dofs().len(),
        |i: int|
            JointTarget {
                dof: all_dofs()[i],
                command: JointCommand::spec_position(Scalar::spec_zero()),
            },
    )
}

/// The target of the probe: the left ankle at twenty degrees.
pub open spec fn test_targets() -> Seq<JointTarget> {
    seq![pose_of(Joint::LeftAnkle, Axis::Pitch, TWENTY_BITS)]
}

/// Every canned routine names only degrees of freedom that the humanoid
/// has, so none of them is ever refused.
pub proof fn lemma_routines_resolve()
    ensures
        all_resolve(dofs_of(dab_targets())),
        all_resolve(dofs_of(muscles_targets())),
        all_resolve(dofs_of(zero_targets())),
        all_resolve(dofs_of(test_targets())),
{
}

/// Builds the target that asks `joint` about `axis` for the angle with the
/// bit pattern `bits`.
fn pose(joint: Joint, axis: Axis, bits: u64) -> (target: JointTarget)
    ensures
        target == pose_of(joint, axis, bits),
{
    JointTarget::position(joint, Some(axis), Scalar::from_bits(bits))
}

/// Prepares the requests of a routine whose targets all resolve.
fn prepare(kbot: &KBot, targets: &Vec<JointTarget>) -> (requests: Vec<CommandActuatorsRequest>)
    requires
        all_resolve(dofs_of(targets@)),
    ensures
        requests_view(requests@) == routine(targets@),
{
    match kbot.command_many(targets) {
        Ok(requests) => requests,
        Err(_) => {
            assert(false);
            vstd::pervasive::unreached()
        },
    }
}

/// The dab.
pub fn dab(kbot: &KBot) -> (requests: Vec<CommandActuatorsRequest>)
    ensures
        requests_view(requests@) == routine(dab_targets()),
{
    let targets: Vec<JointTarget> = vec![
        pose(Joint::RightShoulder, Axis::Pitch, NINETY_BITS),
        pose(Joint::RightShoulder, Axis::Yaw, MINUS_TEN_BITS),
        pose(Joint::RightElbow, Axis::Yaw, MINUS_NINETY_BITS),
        pose(Joint::LeftShoulder, Axis::Pitch, ZERO_BITS),
        pose(Joint::LeftShoulder, Axis::Yaw, MINUS_TWENTY_BITS),
        pose(Joint::LeftElbow, Axis::Yaw, THIRTY_BITS),
    ];
    assert(targets@ =~= dab_targets());
    proof {
        lemma_routines_resolve();
    }
    prepare(kbot, &targets)
}

/// The flex.
pub fn muscles(kbot: &KBot) -> (requests: Vec<CommandActuatorsRequest>)
    ensures
        requests_view(requests@) == routine(muscles_targets()),
{
    let targets: Vec<JointTarget> = vec![
        pose(Joint::RightElbow, Axis::Yaw, HALF_TURN_BITS),
        pose(Joint::RightShoulder, Axis::Yaw, NINETY_BITS),
        pose(Joint::RightShoulder, Axis::Pitch, ZERO_BITS),
        pose(Joint::LeftShoulder, Axis::Pitch, ZERO_BITS),
        pose(Joint::LeftShoulder, Axis::Yaw, MINUS_NINETY_BITS),
        pose(Joint::LeftElbow, Axis::Yaw, THIRTY_BITS),
    ];
    assert(targets@ =~= muscles_targets());
    proof {
        lemma_routines_resolve();
    }
    prepare(kbot, &targets)
}

/// The rest pose: every joint to zero, arms before legs.
pub fn zero(kbot: &KBot) -> (requests: Vec<CommandActuatorsRequest>)
    ensures
        requests_view(requests@) == routine(zero_targets()),
{
    let dofs = KBot::list_dofs();
    let mut targets: Vec<JointTarget> = Vec::new();
    let mut i: usize = 0;
    while i < dofs.len()
        invariant
            dofs@ == all_dofs(),
            i <= dofs@.len(),
            targets@.len() == i,
            forall|k: int| 0 <= k < i ==> #[trigger] targets@[k] == zero_targets()[k],
        decreases dofs@.len() - i,
    {
        targets.push(JointTarget::position(dofs[i].joint, dofs[i].axis, Scalar::zero()));
        i += 1;
    }
    assert(targets@ =~= zero_targets());
    proof {
        lemma_routines_resolve();
    }
    prepare(kbot, &targets)
}

/// The probe: one command to the left ankle.
pub fn test(kbot: &KBot) -> (requests: Vec<CommandActuatorsRequest>)
    ensures
        requests_view(requests@) == routine(test_targets()),
{
    let targets: Vec<JointTarget> = vec![
        pose(Joint::LeftAnkle, Axis::Pitch, TWENTY_BITS),
    ];
    assert(targets@ =~= test_targets());
    proof {
        lemma_routines_resolve();
    }
    prepare(kbot, &targets)
}

/// The state request of the diagnostic read: the left hip in pitch.
pub fn info() -> (request: GetActuatorsStateRequest)
    ensures
        request.actuator_ids@ == seq![33u32],
        request.actuator_ids@ == seq![
            actuator(Dof { joint: Joint::LeftHip, axis: Some(Axis::Pitch) }),
        ],
{
    let ids: Vec<u32> = vec![33];
    assert(ids@ =~= seq![33u32]);
    GetActuatorsStateRequest { actuator_ids: ids }
}

/// What is to be done next in a routine.
#[derive(Debug, Clone, Copy, PartialEq, Eq, Hash)]
pub enum RoutineAction {
    /// Send the request at this place and wait for its outcome.
    Send(usize),
    /// Every request was sent and acknowledged.
    Done,
    /// A send failed: nothing more is sent, and the routine has not been
    /// carried out.
    Abort(ControlError),
}

/// What is to be done in a routine of `len` requests of which the first
/// `sent` have been sent, `last` being the outcome of the latest send, if
/// there was one.
pub open spec fn routine_action(len: usize, sent: usize, last: Option<Result<(), RpcError>>)
    -> RoutineAction {
    match last {
        Some(Err(e)) => RoutineAction::Abort(ControlError::Rpc(e)),
        _ => if sent < len {
            RoutineAction::Send(sent)
        } else {
            RoutineAction::Done
        },
    }
}

/// Says what is to be done next in a routine of `len` requests of which
/// the first `sent` have been sent, `last` being the outcome of the latest
/// send, if there was one.
///
/// A failed send ends the routine with its error. Otherwise the next
/// request in order is sent, or the routine is done once none is left.
pub fn routine_step(len: usize, sent: usize, last: Option<Result<(), RpcError>>) -> (action:
    RoutineAction)
    ensures
        action == routine_action(len, sent, last),
{
    match last {
        Some(Err(e)) => RoutineAction::Abort(ControlError::Rpc(e)),
        _ => if sent < len {
            RoutineAction::Send(sent)
        } else {
            RoutineAction::Done
        },
    }
}

/// What is to be done in a routine of `len` requests once `outcomes` have
/// come back, one for each request sent so far.
pub open spec fn after(len: usize, outcomes: Seq<Result<(), RpcError>>) -> RoutineAction {
    routine_action(
        len,
        outcomes.len() as usize,
        if outcomes.len() == 0 {
            None
        } else {
            Some(outcomes.last())
        },
    )
}

/// A routine stops at its first failure. While the sends succeed, the
/// requests go out in order, each only after the outcomes of all before it
/// are in; the outcome that is a failure ends the routine with that error,
/// so no later request is sent and the routine does not end as done.
pub proof fn lemma_routine_stops_at_the_first_failure(
    len: usize,
    outcomes: Seq<Result<(), RpcError>>,
    k: int,
)
    requires
        0 <= k < len,
        k < outcomes.len(),
        forall|j: int| 0 <= j < k ==> #[trigger] outcomes[j] is Ok,
        outcomes[k] is Err,
    ensures
        forall|j: int|
            0 <= j <= k ==> #[trigger] after(len, outcomes.take(j)) == RoutineAction::Send(
                j as usize,
            ),
        after(len, outcomes.take(k + 1)) == RoutineAction::Abort(
            ControlError::Rpc(outcomes[k]->Err_0),
        ),
{
    assert forall|j: int| 0 <= j <= k implies #[trigger] after(len, outcomes.take(j))
        == RoutineAction::Send(j as usize) by {
        if j > 0 {
            assert(outcomes.take(j).last() == outcomes[j - 1]);
        }
    }
    assert(outcomes.take(k + 1).last() == outcomes[k]);
}

/// A routine whose sends all succeed sends every request, in order, and
/// is done after the last.
pub proof fn lemma_routine_runs_to_the_end(len: usize, outcomes: Seq<Result<(), RpcError>>)
    requires
        outcomes.len() == len,
        forall|j: int| 0 <= j < len ==> #[trigger] outcomes[j] is Ok,
    ensures
        forall|j: int|
            0 <= j < len ==> #[trigger] after(len, outcomes.take(j)) == RoutineAction::Send(
                j as usize,
            ),
        after(len, outcomes) == RoutineAction::Done,
{
    assert forall|j: int| 0 <= j < len implies #[trigger] after(len, outcomes.take(j))
        == RoutineAction::Send(j as usize) by {
        if j > 0 {
            assert(outcomes.take(j).last() == outcomes[j - 1]);
        }
    }
}

} // verus!
