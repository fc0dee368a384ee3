//! The actuator link: the wire requests of the actuator service and the
//! reading of its replies.
//!
//! The functions here fix what goes into a single remote call. The caller
//! holds the connection exclusively for exactly one such call at a time.

use vstd::prelude::*;
use crate::error::RpcError;
use crate::scalar::Scalar;

verus! {

/// Three optional targets for one joint. A field left unset asks for no
/// change on that channel; a command with no field set is allowed.
#[derive(Debug, Clone, Copy, PartialEq, Eq, Hash)]
pub struct JointCommand {
    /// Target angle in degrees.
    pub position: Option<Scalar>,
    /// Target rate in degrees per second.
    pub velocity: Option<Scalar>,
    /// Target torque.
    pub torque: Option<Scalar>,
}

/// A command addressed to one actuator, as the service takes it.
#[derive(Debug, Clone, Copy, PartialEq, Eq, Hash)]
pub struct ActuatorCommand {
    pub actuator_id: u32,
    pub position: Option<Scalar>,
    pub velocity: Option<Scalar>,
    pub torque: Option<Scalar>,
}

/// One request that commands several actuators together.
#[derive(Debug, Clone, PartialEq, Eq)]
pub struct CommandActuatorsRequest {
    pub commands: Vec<ActuatorCommand>,
}

/// One request that sets an actuator's parameters. A field left unset
/// keeps the parameter as it is.
#[derive(Debug, Clone, Copy, PartialEq, Eq, Hash)]
pub struct ConfigureActuatorRequest {
    pub actuator_id: u32,
    pub kp: Option<Scalar>,
    pub kd: Option<Scalar>,
    pub ki: Option<Scalar>,
    pub max_torque: Option<Scalar>,
    pub protective_torque: Option<Scalar>,
    /// Seconds, in single precision, by its 32-bit pattern.
    pub protection_time: Option<u32>,
    pub torque_enabled: Option<bool>,
    pub new_actuator_id: Option<u32>,
    pub zero_position: Option<bool>,
}

/// One request for the state of several actuators.
#[derive(Debug, Clone, PartialEq, Eq)]
pub struct GetActuatorsStateRequest {
    pub actuator_ids: Vec<u32>,
}

/// What one actuator reported when it was asked: a snapshot, never cached.
#[derive(Debug, Clone, Copy, PartialEq, Eq, Hash)]
pub struct ActuatorState {
    pub actuator_id: u32,
    /// Angle in degrees, where the actuator reported one.
    pub position: Option<Scalar>,
    /// Rate in degrees per second, where the actuator reported one.
    pub velocity: Option<Scalar>,
}

impl ActuatorState {
    /// The reported angle, or zero where none was reported.
    pub open spec fn spec_position(self) -> Scalar {
        match self.position {
            Some(p) => p,
            None => Scalar::spec_zero(),
        }
    }

    /// The reported rate, or zero where none was reported.
    pub open spec fn spec_velocity(self) -> Scalar {
        match self.velocity {
            Some(v) => v,
            None => Scalar::spec_zero(),
        }
    }

    /// The reported angle, or zero where none was reported.
    #[verifier::when_used_as_spec(spec_position)]
    pub fn position(self) -> (p: Scalar)
        ensures
            p == self.spec_position(),
    {
        match self.position {
            Some(p) => p,
            None => Scalar::zero(),
        }
    }

    /// The reported rate, or zero where none was reported.
    #[verifier::when_used_as_spec(spec_velocity)]
    pub fn velocity(self) -> (v: Scalar)
        ensures
            v == self.spec_velocity(),
    {
        match self.velocity {
            Some(v) => v,
            None => Scalar::zero(),
        }
    }
}

/// The command for actuator `id` that carries the targets of `command`.
pub open spec fn wire_command(id: u32, command: JointCommand) -> ActuatorCommand {
    ActuatorCommand {
        actuator_id: id,
        position: command.position,
        velocity: command.velocity,
        torque: command.torque,
    }
}

/// What can be set at an actuator: gains, limits, and whether torque is
/// on. A field left unset keeps what the actuator has.
#[derive(Debug, Clone, Copy, PartialEq, Eq, Hash)]
pub struct ActuatorSettings {
    /// Proportional gain.
    pub kp: Option<Scalar>,
    /// Derivative gain.
    pub kd: Option<Scalar>,
    /// Integral gain.
    pub ki: Option<Scalar>,
    /// Torque limit.
    pub max_torque: Option<Scalar>,
    /// Torque above which protection sets in.
    pub protective_torque: Option<Scalar>,
    /// Seconds until protection sets in, in single precision, by its
    /// 32-bit pattern.
    pub protection_time: Option<u32>,
    /// Whether torque is on.
    pub torque_enabled: Option<bool>,
}

impl ActuatorSettings {
    /// Torque on, everything else as it is.
    pub open spec fn spec_torque_on() -> ActuatorSettings {
        ActuatorSettings {
            kp: None,
            kd: None,
            ki: None,
            max_torque: None,
            protective_torque: None,
            protection_time: None,
            torque_enabled: Some(true),
        }
    }

    /// Torque on, everything else as it is.
    #[verifier::when_used_as_spec(spec_torque_on)]
    pub fn torque_on() -> (settings: ActuatorSettings)
        ensures
            settings == ActuatorSettings::spec_torque_on(),
    {
        ActuatorSettings {
            kp: None,
            kd: None,
            ki: None,
            max_torque: None,
            protective_torque: None,
            protection_time: None,
            torque_enabled: Some(true),
        }
    }
}

/// The request that sets `settings` at actuator `id`. It neither renames
/// the actuator nor zeroes its position.
pub open spec fn configuration(id: u32, settings: ActuatorSettings) -> ConfigureActuatorRequest {
    ConfigureActuatorRequest {
        actuator_id: id,
        kp: settings.kp,
        kd: settings.kd,
        ki: settings.ki,
        max_torque: settings.max_torque,
        protective_torque: settings.protective_torque,
        protection_time: settings.protection_time,
        torque_enabled: settings.torque_enabled,
        new_actuator_id: None,
        zero_position: None,
    }
}

/// The request that switches torque on for actuator `id` and leaves every
/// other parameter as it is.
pub open spec fn enable_torque(id: u32) -> ConfigureActuatorRequest {
    configuration(id, ActuatorSettings::spec_torque_on())
}

/// Builds the single request that sets `settings` at one actuator.
pub fn configure(actuator_id: u32, settings: ActuatorSettings) -> (request:
    ConfigureActuatorRequest)
    ensures
        request == configuration(actuator_id, settings),
{
    ConfigureActuatorRequest {
        actuator_id,
        kp: settings.kp,
        kd: settings.kd,
        ki: settings.ki,
        max_torque: settings.max_torque,
        protective_torque: settings.protective_torque,
        protection_time: settings.protection_time,
        torque_enabled: settings.torque_enabled,
        new_actuator_id: None,
        zero_position: None,
    }
}

/// Builds the single request that carries all of `commands`, in their
/// order: either every addressed actuator receives it, or, if the call
/// fails, none does.
pub fn command_batch(commands: &Vec<(u32, JointCommand)>) -> (request: CommandActuatorsRequest)
    ensures
        request.commands@.len() == commands@.len(),
        forall|i: int|
            0 <= i < commands@.len() ==> request.commands@[i] == wire_command(
                commands@[i].0,
                commands@[i].1,
            ),
{
    let mut wire: Vec<ActuatorCommand> = Vec::new();
    let mut i: usize = 0;
    while i < commands.len()
        invariant
            i <= commands@.len(),
            wire@.len() == i,
            forall|k: int|
                0 <= k < i ==> wire@[k] == wire_command(commands@[k].0, commands@[k].1),
        decreases commands@.len() - i,
    {
        let id: u32 = commands[i].0;
        let command = commands[i].1;
        wire.push(
            ActuatorCommand {
                actuator_id: id,
                position: command.position,
                velocity: command.velocity,
                torque: command.torque,
            },
        );
        i += 1;
    }
    CommandActuatorsRequest { commands: wire }
}

/// Whether `reply` holds a report for actuator `id`.
pub open spec fn reports(reply: Seq<ActuatorState>, id: u32) -> bool {
    exists|j: int| 0 <= j < reply.len() && #[trigger] reply[j].actuator_id == id
}

/// The place of the first report for actuator `id` in `reply`, or the
/// length of `reply` where there is none.
pub open spec fn first_report(reply: Seq<ActuatorState>, id: u32) -> int
    decreases reply.len(),
{
    if reply.len() == 0 {
        0
    } else if reply[0].actuator_id == id {
        0
    } else {
        1 + first_report(reply.drop_first(), id)
    }
}

/// `first_report` is the least place at which `id` is reported.
pub proof fn lemma_first_report(reply: Seq<ActuatorState>, id: u32)
    ensures
        0 <= first_report(reply, id) <= reply.len(),
        forall|j: int|
            0 <= j < first_report(reply, id) ==> (#[trigger] reply[j]).actuator_id != id,
        first_report(reply, id) < reply.len() ==> reply[first_report(reply, id)].actuator_id
            == id,
        reports(reply, id) <==> first_report(reply, id) < reply.len(),
    decreases reply.len(),
{
    if reply.len() == 0 {
    } else if reply[0].actuator_id == id {
    } else {
        let rest = reply.drop_first();
        lemma_first_report(rest, id);
        let f = first_report(rest, id);
        assert forall|j: int| 0 <= j < 1 + f implies (#[trigger] reply[j]).actuator_id != id by {
            if j > 0 {
                assert(reply[j] == rest[j - 1]);
            }
        }
        if f < rest.len() {
            assert(reply[1 + f] == rest[f]);
        }
        if reports(reply, id) {
            let j = choose|j: int| 0 <= j < reply.len() && #[trigger] reply[j].actuator_id == id;
            assert(rest[j - 1] == reply[j]);
            assert(rest[j - 1].actuator_id == id);
        }
        if reports(rest, id) {
            let j = choose|j: int| 0 <= j < rest.len() && #[trigger] rest[j].actuator_id == id;
            assert(reply[j + 1] == rest[j]);
            assert(reply[j + 1].actuator_id == id);
        }
    }
}

/// The states of `ids`, in the order of `ids`, picked out of `reply`
/// whatever order the service answered in.
pub open spec fn aligned(ids: Seq<u32>, reply: Seq<ActuatorState>) -> Seq<ActuatorState> {
    Seq::new(ids.len(), |i: int| reply[first_report(reply, ids[i])])
}

/// Whether `reply` holds a report for each of `ids`.
pub open spec fn covers(reply: Seq<ActuatorState>, ids: Seq<u32>) -> bool {
    forall|i: int| 0 <= i < ids.len() ==> reports(reply, #[trigger] ids[i])
}

/// What a state read of `ids` comes to, given what the service answered.
pub open spec fn read_outcome(ids: Seq<u32>, reply: Result<Seq<ActuatorState>, RpcError>) -> Result<
    Seq<ActuatorState>,
    RpcError,
> {
    match reply {
        Err(e) => Err(e),
        Ok(states) => if covers(states, ids) {
            Ok(aligned(ids, states))
        } else {
            Err(RpcError::Transient)
        },
    }
}

/// Whether no actuator is reported twice in `reply`.
pub open spec fn distinct_reports(reply: Seq<ActuatorState>) -> bool {
    forall|i: int, j: int|
        0 <= i < j < reply.len() ==> (#[trigger] reply[i]).actuator_id != (
        #[trigger] reply[j]).actuator_id
}

/// What a state read yields lines up with what was asked: it has one
/// state per identifier, entry `i` is a report that the service gave, and
/// it is a report for `ids[i]`, wherever the service put it in its answer.
pub proof fn lemma_read_lines_up(ids: Seq<u32>, reply: Seq<ActuatorState>)
    ensures
        read_outcome(ids, Ok(reply)) is Ok <==> covers(reply, ids),
        read_outcome(ids, Ok(reply)) matches Ok(states) ==> states.len() == ids.len() && forall|
            i: int,
        |
            0 <= i < ids.len() ==> (#[trigger] states[i]).actuator_id == ids[i] && reply.contains(
                states[i],
            ),
{
    if covers(reply, ids) {
        let states = aligned(ids, reply);
        assert forall|i: int| 0 <= i < ids.len() implies (#[trigger] states[i]).actuator_id
            == ids[i] && reply.contains(states[i]) by {
            assert(reports(reply, ids[i]));
            lemma_first_report(reply, ids[i]);
        }
    }
}

/// A state read does not depend on the order in which the service
/// answers: two answers that hold the same reports, each actuator at most
/// once, read the same.
pub proof fn lemma_read_ignores_reply_order(
    ids: Seq<u32>,
    first: Seq<ActuatorState>,
    second: Seq<ActuatorState>,
)
    requires
        distinct_reports(first),
        distinct_reports(second),
        forall|s: ActuatorState| first.contains(s) <==> second.contains(s),
    ensures
        read_outcome(ids, Ok(first)) == read_outcome(ids, Ok(second)),
{
    assert forall|id: u32| reports(first, id) implies reports(second, id) by {
        let j = choose|j: int| 0 <= j < first.len() && #[trigger] first[j].actuator_id == id;
        assert(first.contains(first[j]));
        assert(second.contains(first[j]));
        let k = choose|k: int| 0 <= k < second.len() && second[k] == first[j];
        assert(second[k].actuator_id == id);
    }
    assert forall|id: u32| reports(second, id) implies reports(first, id) by {
        let j = choose|j: int| 0 <= j < second.len() && #[trigger] second[j].actuator_id == id;
        assert(second.contains(second[j]));
        assert(first.contains(second[j]));
        let k = choose|k: int| 0 <= k < first.len() && first[k] == second[j];
        assert(first[k].actuator_id == id);
    }
    if covers(first, ids) {
        assert forall|i: int| 0 <= i < ids.len() implies reports(second, #[trigger] ids[i]) by {
            assert(reports(first, ids[i]));
        }
        assert forall|i: int| 0 <= i < ids.len() implies #[trigger] aligned(ids, first)[i]
            == aligned(ids, second)[i] by {
            let id = ids[i];
            assert(reports(first, id));
            assert(reports(second, id));
            lemma_first_report(first, id);
            lemma_first_report(second, id);
            let one = first[first_report(first, id)];
            assert(first.contains(one));
            assert(second.contains(one));
            let k = choose|k: int| 0 <= k < second.len() && second[k] == one;
            let f = first_report(second, id);
            if k < f {
                assert(second[k].actuator_id != second[f].actuator_id);
            } else if f < k {
                assert(second[f].actuator_id != second[k].actuator_id);
            }
        }
        assert(aligned(ids, first) =~= aligned(ids, second));
    } else {
        if covers(second, ids) {
            assert forall|i: int| 0 <= i < ids.len() implies reports(first, #[trigger] ids[i]) by {
                assert(reports(second, ids[i]));
            }
        }
    }
}

/// Builds the single request for the states of `ids`, in their order.
pub fn state_request(ids: &Vec<u32>) -> (request: GetActuatorsStateRequest)
    ensures
        request.actuator_ids@ == ids@,
{
    let mut wanted: Vec<u32> = Vec::new();
    let mut i: usize = 0;
    while i < ids.len()
        invariant
            i <= ids@.len(),
            wanted@ == ids@.take(i as int),
        decreases ids@.len() - i,
    {
        wanted.push(ids[i]);
        assert(ids@.take(i as int).push(ids@[i as int]) =~= ids@.take(i + 1));
        i += 1;
    }
    assert(ids@.take(ids@.len() as int) =~= ids@);
    GetActuatorsStateRequest { actuator_ids: wanted }
}

/// Finds the first report for actuator `id`.
fn find_report(reply: &Vec<ActuatorState>, id: u32) -> (at: usize)
    ensures
        at == first_report(reply@, id),
{
    let mut j: usize = 0;
    proof {
        lemma_first_report(reply@, id);
    }
    while j < reply.len() && reply[j].actuator_id != id
        invariant
            j <= reply@.len(),
            j <= first_report(reply@, id) <= reply@.len(),
            forall|k: int|
                0 <= k < first_report(reply@, id) ==> (#[trigger] reply@[k]).actuator_id != id,
            first_report(reply@, id) < reply@.len() ==> reply@[first_report(
                reply@,
                id,
            )].actuator_id == id,
        decreases reply@.len() - j,
    {
        j += 1;
    }
    j
}

/// Reads the answer to a state request for `ids`.
///
/// The result lines up with `ids` position by position: entry `i` is the
/// first report in the answer that names `ids[i]`, wherever the service put
/// it. A failed call stays the failure it was; an answer that lacks a
/// report for one of `ids` is a transient failure.
pub fn read_states(ids: &Vec<u32>, reply: Result<Vec<ActuatorState>, RpcError>) -> (states: Result<
    Vec<ActuatorState>,
    RpcError,
>)
    ensures
        reply_view(states) == read_outcome(ids@, reply_view(reply)),
        states matches Ok(found) ==> found@.len() == ids@.len() && forall|i: int|
            0 <= i < ids@.len() ==> (#[trigger] found@[i]).actuator_id == ids@[i],
{
    match reply {
        Err(e) => Err(e),
        Ok(reported) => {
            let mut found: Vec<ActuatorState> = Vec::new();
            let mut i: usize = 0;
            while i < ids.len()
                invariant
                    i <= ids@.len(),
                    found@.len() == i,
                    reply_view(reply) == Ok::<Seq<ActuatorState>, RpcError>(reported@),
                    forall|k: int| 0 <= k < i ==> reports(reported@, #[trigger] ids@[k]),
                    forall|k: int|
                        0 <= k < i ==> #[trigger] found@[k] == reported@[first_report(
                            reported@,
                            ids@[k],
                        )],
                    forall|k: int| 0 <= k < i ==> (#[trigger] found@[k]).actuator_id == ids@[k],
                decreases ids@.len() - i,
            {
                let at = find_report(&reported, ids[i]);
                proof {
                    lemma_first_report(reported@, ids@[i as int]);
                }
                if at >= reported.len() {
                    assert(!reports(reported@, ids@[i as int]));
                    assert(!covers(reported@, ids@));
                    return Err(RpcError::Transient);
                }
                found.push(reported[at]);
                i += 1;
            }
            assert(covers(reported@, ids@));
            assert(found@ =~= aligned(ids@, reported@));
            Ok(found)
        },
    }
}

/// A reply as the contracts read it.
pub open spec fn reply_view(reply: Result<Vec<ActuatorState>, RpcError>) -> Result<
    Seq<ActuatorState>,
    RpcError,
> {
    match reply {
        Ok(states) => Ok(states@),
        Err(e) => Err(e),
    }
}

} // verus!
