//! Commanding joints: from logical targets to the requests that carry
//! them, and from the outcomes of those requests to one verdict.

use vstd::prelude::*;
use crate::error::{ControlError, RpcError};
use crate::joint::{Axis, Dof, Joint};
use crate::link::{
    command_batch, wire_command, ActuatorCommand, CommandActuatorsRequest, JointCommand,
};
use crate::robot::{KBot, Robot};
use crate::scalar::Scalar;

verus! {

/// A command together with the degree of freedom it is meant for.
#[derive(Debug, Clone, Copy, PartialEq, Eq, Hash)]
pub struct JointTarget {
    pub dof: Dof,
    pub command: JointCommand,
}

impl JointCommand {
    /// The command that asks for an angle and leaves rate and torque alone.
    pub open spec fn spec_position(angle: Scalar) -> JointCommand {
        JointCommand { position: Some(angle), velocity: None, torque: None }
    }

    /// The command that asks for an angle and leaves rate and torque alone.
    #[verifier::when_used_as_spec(spec_position)]
    pub fn position(angle: Scalar) -> (command: JointCommand)
        ensures
            command == JointCommand::spec_position(angle),
    {
        JointCommand { position: Some(angle), velocity: None, torque: None }
    }
}

impl JointTarget {
    /// The target that asks the joint at `joint` about `axis` for `angle`.
    pub open spec fn spec_position(joint: Joint, axis: Option<Axis>, angle: Scalar) -> JointTarget {
        JointTarget { dof: Dof { joint, axis }, command: JointCommand::spec_position(angle) }
    }

    /// The target that asks the joint at `joint` about `axis` for `angle`.
    #[verifier::when_used_as_spec(spec_position)]
    pub fn position(joint: Joint, axis: Option<Axis>, angle: Scalar) -> (target: JointTarget)
        ensures
            target == JointTarget::spec_position(joint, axis, angle),
    {
        JointTarget { dof: Dof { joint, axis }, command: JointCommand::position(angle) }
    }
}

/// Whether the humanoid has the degree of freedom `dof`.
pub open spec fn resolves(dof: Dof) -> bool {
    KBot::actuator_of(dof.joint, dof.axis) is Some
}

/// The actuator that drives `dof`.
pub open spec fn actuator(dof: Dof) -> u32
    recommends
        resolves(dof),
{
    KBot::actuator_of(dof.joint, dof.axis)->0
}

/// Whether every one of `dofs` is a degree of freedom of the humanoid.
pub open spec fn all_resolve(dofs: Seq<Dof>) -> bool {
    forall|i: int| 0 <= i < dofs.len() ==> resolves(#[trigger] dofs[i])
}

/// Whether `k` is the place of the first of `dofs` that is no degree of
/// freedom of the humanoid.
pub open spec fn first_unknown(dofs: Seq<Dof>, k: int) -> bool {
    &&& 0 <= k < dofs.len()
    &&& !resolves(dofs[k])
    &&& forall|j: int| 0 <= j < k ==> resolves(#[trigger] dofs[j])
}

/// The actuators that drive `dofs`, in the order of `dofs`, or the refusal
/// of the whole sequence because of its first unknown member.
pub open spec fn resolution(dofs: Seq<Dof>) -> Result<Seq<u32>, ControlError> {
    if all_resolve(dofs) {
        Ok(Seq::new(dofs.len(), |i: int| actuator(dofs[i])))
    } else {
        let k = choose|k: int| first_unknown(dofs, k);
        Err(ControlError::UnknownJoint { joint: dofs[k].joint, axis: dofs[k].axis })
    }
}

/// The degrees of freedom that `targets` are meant for.
pub open spec fn dofs_of(targets: Seq<JointTarget>) -> Seq<Dof> {
    Seq::new(targets.len(), |i: int| targets[i].dof)
}

/// The request that carries `target` alone to its actuator.
pub open spec fn single_request(target: JointTarget) -> Seq<ActuatorCommand>
    recommends
        resolves(target.dof),
{
    seq![wire_command(actuator(target.dof), target.command)]
}

/// What commanding `targets` comes to before anything is sent: the
/// requests to dispatch, one per target and in their order, or the refusal
/// of the whole set because of its first unknown target.
pub open spec fn dispatch_plan(targets: Seq<JointTarget>) -> Result<
    Seq<Seq<ActuatorCommand>>,
    ControlError,
> {
    match resolution(dofs_of(targets)) {
        Ok(_) => Ok(Seq::new(targets.len(), |i: int| single_request(targets[i]))),
        Err(e) => Err(e),
    }
}

/// Requests as the contracts read them.
pub open spec fn requests_view(requests: Seq<CommandActuatorsRequest>) -> Seq<
    Seq<ActuatorCommand>,
> {
    Seq::new(requests.len(), |i: int| requests[i].commands@)
}

/// A plan as the contracts read it.
pub open spec fn plan_view(plan: Result<Vec<CommandActuatorsRequest>, ControlError>) -> Result<
    Seq<Seq<ActuatorCommand>>,
    ControlError,
> {
    match plan {
        Ok(requests) => Ok(requests_view(requests@)),
        Err(e) => Err(e),
    }
}

/// A resolution as the contracts read it.
pub open spec fn ids_view(ids: Result<Vec<u32>, ControlError>) -> Result<Seq<u32>, ControlError> {
    match ids {
        Ok(found) => Ok(found@),
        Err(e) => Err(e),
    }
}

/// Whether `k` is the place of the first failed outcome.
pub open spec fn first_failure(outcomes: Seq<Result<(), RpcError>>, k: int) -> bool {
    &&& 0 <= k < outcomes.len()
    &&& outcomes[k] is Err
    &&& forall|j: int| 0 <= j < k ==> #[trigger] outcomes[j] is Ok
}

/// What a set of dispatches comes to once all of them have completed:
/// success only if each of the `sent` requests came back and succeeded;
/// otherwise the first failure, or a transient failure where an outcome is
/// missing.
pub open spec fn dispatch_verdict(sent: nat, outcomes: Seq<Result<(), RpcError>>) -> Result<
    (),
    ControlError,
> {
    if exists|i: int| 0 <= i < outcomes.len() && #[trigger] outcomes[i] is Err {
        let k = choose|k: int| first_failure(outcomes, k);
        Err(ControlError::Rpc(outcomes[k]->Err_0))
    } else if outcomes.len() == sent {
        Ok(())
    } else {
        Err(ControlError::Rpc(RpcError::Transient))
    }
}

/// A sequence has at most one first unknown member.
pub proof fn lemma_first_unknown_is_unique(dofs: Seq<Dof>, k: int)
    requires
        first_unknown(dofs, k),
    ensures
        forall|m: int| first_unknown(dofs, m) ==> m == k,
        (choose|m: int| first_unknown(dofs, m)) == k,
        !all_resolve(dofs),
{
    assert forall|m: int| first_unknown(dofs, m) implies m == k by {
        if m < k {
            assert(resolves(dofs[m]));
        } else if k < m {
            assert(resolves(dofs[k]));
        }
    }
}

/// A sequence with an unknown member has a first unknown member.
pub proof fn lemma_first_unknown_exists(dofs: Seq<Dof>, k: int)
    requires
        0 <= k < dofs.len(),
        !resolves(dofs[k]),
    ensures
        exists|m: int| 0 <= m <= k && first_unknown(dofs, m),
    decreases k,
{
    if forall|j: int| 0 <= j < k ==> resolves(#[trigger] dofs[j]) {
        assert(first_unknown(dofs, k));
    } else {
        let j = choose|j: int| 0 <= j < k && !resolves(#[trigger] dofs[j]);
        lemma_first_unknown_exists(dofs, j);
    }
}

/// One unknown joint refuses the whole set. Where any target names a
/// degree of freedom that the humanoid does not have, commanding the set
/// yields no request at all, however many of the other targets are valid,
/// and the refusal names a target of the set that does not resolve.
pub proof fn lemma_one_unknown_refuses_all(targets: Seq<JointTarget>, k: int)
    requires
        0 <= k < targets.len(),
        !resolves(targets[k].dof),
    ensures
        dispatch_plan(targets) matches Err(ControlError::UnknownJoint { joint, axis }) && !resolves(
            Dof { joint, axis },
        ) && exists|m: int| 0 <= m <= k && #[trigger] targets[m].dof == (Dof { joint, axis }),
{
    let dofs = dofs_of(targets);
    assert(dofs[k] == targets[k].dof);
    lemma_first_unknown_exists(dofs, k);
    let m = choose|m: int| 0 <= m <= k && first_unknown(dofs, m);
    lemma_first_unknown_is_unique(dofs, m);
    assert(targets[m].dof == dofs[m]);
}

/// A sequence of outcomes has at most one first failure.
pub proof fn lemma_first_failure_is_unique(outcomes: Seq<Result<(), RpcError>>, k: int)
    requires
        first_failure(outcomes, k),
    ensures
        forall|m: int| first_failure(outcomes, m) ==> m == k,
        (choose|m: int| first_failure(outcomes, m)) == k,
{
    assert forall|m: int| first_failure(outcomes, m) implies m == k by {
        if m < k {
            assert(outcomes[m] is Ok);
        } else if k < m {
            assert(outcomes[k] is Ok);
        }
    }
}

/// Resolves every one of `dofs` to its actuator, or refuses them all.
///
/// The result is in the order of `dofs`. A single unknown member refuses
/// the whole sequence; the error names the first one.
pub fn resolve_all(dofs: &Vec<Dof>) -> (ids: Result<Vec<u32>, ControlError>)
    ensures
        ids_view(ids) == resolution(dofs@),
        ids is Ok <==> all_resolve(dofs@),
{
    let mut ids: Vec<u32> = Vec::new();
    let mut i: usize = 0;
    while i < dofs.len()
        invariant
            i <= dofs@.len(),
            ids@.len() == i,
            forall|k: int| 0 <= k < i ==> resolves(#[trigger] dofs@[k]),
            forall|k: int| 0 <= k < i ==> #[trigger] ids@[k] == actuator(dofs@[k]),
        decreases dofs@.len() - i,
    {
        let dof = dofs[i];
        match KBot::get_actuator_id(dof.joint, dof.axis) {
            None => {
                proof {
                    assert(first_unknown(dofs@, i as int));
                    lemma_first_unknown_is_unique(dofs@, i as int);
                }
                return Err(ControlError::UnknownJoint { joint: dof.joint, axis: dof.axis });
            },
            Some(id) => {
                ids.push(id);
            },
        }
        i += 1;
    }
    assert(ids@ =~= Seq::new(dofs@.len(), |i: int| actuator(dofs@[i])));
    Ok(ids)
}

impl KBot {
    /// Prepares the command of one joint.
    ///
    /// Returns the single-command request for the actuator that drives
    /// `joint` about `axis`, or `UnknownJoint` where the humanoid has no
    /// such degree of freedom.
    pub fn command_joint(
        &self,
        joint: Joint,
        axis: Option<Axis>,
        command: JointCommand,
    ) -> (request: Result<CommandActuatorsRequest, ControlError>)
        ensures
            match request {
                Ok(r) => KBot::actuator_of(joint, axis) is Some && r.commands@ == single_request(
                    JointTarget { dof: Dof { joint, axis }, command },
                ),
                Err(e) => KBot::actuator_of(joint, axis) is None && e == (
                ControlError::UnknownJoint { joint, axis }),
            },
    {
        match KBot::get_actuator_id(joint, axis) {
            None => Err(ControlError::UnknownJoint { joint, axis }),
            Some(actuator_id) => {
                let mut batch: Vec<(u32, JointCommand)> = Vec::new();
                batch.push((actuator_id, command));
                let request = command_batch(&batch);
                assert(request.commands@ =~= single_request(
                    JointTarget { dof: Dof { joint, axis }, command },
                ));
                Ok(request)
            },
        }
    }

    /// Prepares the commands of several joints.
    ///
    /// Every target is resolved before any request is built, so a set with
    /// one unknown joint yields no request at all: the error names the
    /// first unknown target. Otherwise there is one single-command request
    /// per target, in the order of `targets`; they are independent and may
    /// be sent concurrently.
    pub fn command_many(&self, targets: &Vec<JointTarget>) -> (plan: Result<
        Vec<CommandActuatorsRequest>,
        ControlError,
    >)
        ensures
            plan_view(plan) == dispatch_plan(targets@),
            plan is Ok <==> all_resolve(dofs_of(targets@)),
            plan matches Ok(requests) ==> requests@.len() == targets@.len(),
    {
        let mut dofs: Vec<Dof> = Vec::new();
        let mut i: usize = 0;
        while i < targets.len()
            invariant
                i <= targets@.len(),
                dofs@.len() == i,
                forall|k: int| 0 <= k < i ==> #[trigger] dofs@[k] == targets@[k].dof,
            decreases targets@.len() - i,
        {
            dofs.push(targets[i].dof);
            i += 1;
        }
        assert(dofs@ =~= dofs_of(targets@));
        let ids = match resolve_all(&dofs) {
            Err(e) => {
                return Err(e);
            },
            Ok(ids) => ids,
        };
        let mut requests: Vec<CommandActuatorsRequest> = Vec::new();
        let mut n: usize = 0;
        while n < targets.len()
            invariant
                n <= targets@.len(),
                ids@.len() == targets@.len(),
                requests@.len() == n,
                forall|k: int|
                    0 <= k < targets@.len() ==> #[trigger] ids@[k] == actuator(targets@[k].dof),
                forall|k: int|
                    0 <= k < n ==> (#[trigger] requests@[k]).commands@ == single_request(
                        targets@[k],
                    ),
            decreases targets@.len() - n,
        {
            let mut batch: Vec<(u32, JointCommand)> = Vec::new();
            batch.push((ids[n], targets[n].command));
            let request = command_batch(&batch);
            assert(request.commands@ =~= single_request(targets@[n as int]));
            requests.push(request);
            n += 1;
        }
        assert(requests_view(requests@) =~= Seq::new(
            targets@.len(),
            |i: int| single_request(targets@[i]),
        ));
        Ok(requests)
    }
}

/// Judges a set of dispatches once all of them have completed.
///
/// `sent` is the number of requests that were dispatched and `outcomes`
/// what came back, one outcome per request. The set succeeded only if
/// every request came back and none failed; a single failure fails the
/// whole set, even though other actuators may already have moved.
pub fn join_dispatch(sent: usize, outcomes: &Vec<Result<(), RpcError>>) -> (verdict: Result<
    (),
    ControlError,
>)
    ensures
        verdict == dispatch_verdict(sent as nat, outcomes@),
        verdict is Ok <==> outcomes@.len() == sent && forall|i: int|
            0 <= i < outcomes@.len() ==> #[trigger] outcomes@[i] is Ok,
{
    let mut i: usize = 0;
    while i < outcomes.len()
        invariant
            i <= outcomes@.len(),
            forall|k: int| 0 <= k < i ==> #[trigger] outcomes@[k] is Ok,
        decreases outcomes@.len() - i,
    {
        match outcomes[i] {
            Err(e) => {
                proof {
                    assert(first_failure(outcomes@, i as int));
                    lemma_first_failure_is_unique(outcomes@, i as int);
                }
                return Err(ControlError::Rpc(e));
            },
            Ok(_) => {},
        }
        i += 1;
    }
    if outcomes.len() == sent {
        Ok(())
    } else {
        Err(ControlError::Rpc(RpcError::Transient))
    }
}

} // verus!
