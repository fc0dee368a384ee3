//! The exchange with the policy: how joints are named in it, and how its
//! answer is read.
//!
//! Naming convention. A joint is named by its side (`L` or `R`), its site
//! and its axis, joined by underscores, and the axis in a name is the axis
//! of the degree of freedom itself: `R_Hip_Yaw` is the right hip about the
//! yaw axis, `R_Hip_Roll` the right hip about the roll axis. The same
//! table names a joint when its state is sent and when its target is read
//! back, so a target always returns to the joint whose state was sent
//! under that name. The choice is made in one place, `label_of`; a policy
//! that uses the yaw and roll names of a hip the other way round is not
//! served by this table.

use vstd::prelude::*;
use crate::error::InferenceError;
use crate::joint::{Axis, Dof, Joint};
use crate::robot::has_dof;
use crate::scalar::Scalar;

verus! {

/// The name of the degree of freedom at `joint` about `axis` in the
/// exchange with the policy, where the humanoid has that degree of freedom.
pub open spec fn label_of(joint: Joint, axis: Option<Axis>) -> Option<Seq<char>> {
    match (joint, axis) {
        (Joint::LeftShoulder, Some(Axis::Yaw)) => Some("L_Shoulder_Yaw"@),
        (Joint::LeftShoulder, Some(Axis::Pitch)) => Some("L_Shoulder_Pitch"@),
        (Joint::LeftElbow, Some(Axis::Yaw)) => Some("L_Elbow_Yaw"@),
        (Joint::LeftGripper, None) => Some("L_Gripper"@),
        (Joint::RightShoulder, Some(Axis::Yaw)) => Some("R_Shoulder_Yaw"@),
        (Joint::RightShoulder, Some(Axis::Pitch)) => Some("R_Shoulder_Pitch"@),
        (Joint::RightElbow, Some(Axis::Yaw)) => Some("R_Elbow_Yaw"@),
        (Joint::RightGripper, None) => Some("R_Gripper"@),
        (Joint::LeftHip, Some(Axis::Yaw)) => Some("L_Hip_Yaw"@),
        (Joint::LeftHip, Some(Axis::Roll)) => Some("L_Hip_Roll"@),
        (Joint::LeftHip, Some(Axis::Pitch)) => Some("L_Hip_Pitch"@),
        (Joint::LeftKnee, Some(Axis::Pitch)) => Some("L_Knee_Pitch"@),
        (Joint::LeftAnkle, Some(Axis::Pitch)) => Some("L_Ankle_Pitch"@),
        (Joint::RightHip, Some(Axis::Yaw)) => Some("R_Hip_Yaw"@),
        (Joint::RightHip, Some(Axis::Roll)) => Some("R_Hip_Roll"@),
        (Joint::RightHip, Some(Axis::Pitch)) => Some("R_Hip_Pitch"@),
        (Joint::RightKnee, Some(Axis::Pitch)) => Some("R_Knee_Pitch"@),
        (Joint::RightAnkle, Some(Axis::Pitch)) => Some("R_Ankle_Pitch"@),
        _ => None,
    }
}

/// A name as the contracts read it.
pub open spec fn name_view(name: Option<&'static str>) -> Option<Seq<char>> {
    match name {
        Some(s) => Some(s@),
        None => None,
    }
}

/// The name of a degree of freedom in the exchange with the policy.
pub fn joint_label(joint: Joint, axis: Option<Axis>) -> (name: Option<&'static str>)
    ensures
        name_view(name) == label_of(joint, axis),
{
    match (joint, axis) {
        (Joint::LeftShoulder, Some(Axis::Yaw)) => Some("L_Shoulder_Yaw"),
        (Joint::LeftShoulder, Some(Axis::Pitch)) => Some("L_Shoulder_Pitch"),
        (Joint::LeftElbow, Some(Axis::Yaw)) => Some("L_Elbow_Yaw"),
        (Joint::LeftGripper, None) => Some("L_Gripper"),
        (Joint::RightShoulder, Some(Axis::Yaw)) => Some("R_Shoulder_Yaw"),
        (Joint::RightShoulder, Some(Axis::Pitch)) => Some("R_Shoulder_Pitch"),
        (Joint::RightElbow, Some(Axis::Yaw)) => Some("R_Elbow_Yaw"),
        (Joint::RightGripper, None) => Some("R_Gripper"),
        (Joint::LeftHip, Some(Axis::Yaw)) => Some("L_Hip_Yaw"),
        (Joint::LeftHip, Some(Axis::Roll)) => Some("L_Hip_Roll"),
        (Joint::LeftHip, Some(Axis::Pitch)) => Some("L_Hip_Pitch"),
        (Joint::LeftKnee, Some(Axis::Pitch)) => Some("L_Knee_Pitch"),
        (Joint::LeftAnkle, Some(Axis::Pitch)) => Some("L_Ankle_Pitch"),
        (Joint::RightHip, Some(Axis::Yaw)) => Some("R_Hip_Yaw"),
        (Joint::RightHip, Some(Axis::Roll)) => Some("R_Hip_Roll"),
        (Joint::RightHip, Some(Axis::Pitch)) => Some("R_Hip_Pitch"),
        (Joint::RightKnee, Some(Axis::Pitch)) => Some("R_Knee_Pitch"),
        (Joint::RightAnkle, Some(Axis::Pitch)) => Some("R_Ankle_Pitch"),
        _ => None,
    }
}

/// Exactly the degrees of freedom of the humanoid have a name.
pub proof fn lemma_names_cover_the_dofs(joint: Joint, axis: Option<Axis>)
    ensures
        label_of(joint, axis) is Some <==> has_dof(joint, axis),
{
}

/// Two different degrees of freedom never share a name, so a target can
/// only return to the joint whose state was sent under that name.
pub proof fn lemma_names_are_distinct(j1: Joint, a1: Option<Axis>, j2: Joint, a2: Option<Axis>)
    requires
        label_of(j1, a1) is Some,
        label_of(j1, a1) == label_of(j2, a2),
    ensures
        j1 == j2,
        a1 == a2,
{
    reveal_strlit("L_Shoulder_Yaw");
    reveal_strlit("L_Shoulder_Pitch");
    reveal_strlit("L_Elbow_Yaw");
    reveal_strlit("L_Gripper");
    reveal_strlit("R_Shoulder_Yaw");
    reveal_strlit("R_Shoulder_Pitch");
    reveal_strlit("R_Elbow_Yaw");
    reveal_strlit("R_Gripper");
    reveal_strlit("L_Hip_Yaw");
    reveal_strlit("L_Hip_Roll");
    reveal_strlit("L_Hip_Pitch");
    reveal_strlit("L_Knee_Pitch");
    reveal_strlit("L_Ankle_Pitch");
    reveal_strlit("R_Hip_Yaw");
    reveal_strlit("R_Hip_Roll");
    reveal_strlit("R_Hip_Pitch");
    reveal_strlit("R_Knee_Pitch");
    reveal_strlit("R_Ankle_Pitch");
    assert("L_Shoulder_Yaw"@.len() == 14);
    assert("L_Shoulder_Yaw"@[0] == 'L' && "L_Shoulder_Yaw"@[2] == 'S');
    assert("L_Shoulder_Pitch"@.len() == 16);
    assert("L_Shoulder_Pitch"@[0] == 'L' && "L_Shoulder_Pitch"@[2] == 'S');
    assert("L_Elbow_Yaw"@.len() == 11);
    assert("L_Elbow_Yaw"@[0] == 'L' && "L_Elbow_Yaw"@[2] == 'E');
    assert("L_Gripper"@.len() == 9);
    assert("L_Gripper"@[0] == 'L' && "L_Gripper"@[2] == 'G');
    assert("R_Shoulder_Yaw"@.len() == 14);
    assert("R_Shoulder_Yaw"@[0] == 'R' && "R_Shoulder_Yaw"@[2] == 'S');
    assert("R_Shoulder_Pitch"@.len() == 16);
    assert("R_Shoulder_Pitch"@[0] == 'R' && "R_Shoulder_Pitch"@[2] == 'S');
    assert("R_Elbow_Yaw"@.len() == 11);
    assert("R_Elbow_Yaw"@[0] == 'R' && "R_Elbow_Yaw"@[2] == 'E');
    assert("R_Gripper"@.len() == 9);
    assert("R_Gripper"@[0] == 'R' && "R_Gripper"@[2] == 'G');
    assert("L_Hip_Yaw"@.len() == 9);
    assert("L_Hip_Yaw"@[0] == 'L' && "L_Hip_Yaw"@[2] == 'H');
    assert("L_Hip_Roll"@.len() == 10);
    assert("L_Hip_Roll"@[0] == 'L' && "L_Hip_Roll"@[2] == 'H');
    assert("L_Hip_Pitch"@.len() == 11);
    assert("L_Hip_Pitch"@[0] == 'L' && "L_Hip_Pitch"@[2] == 'H');
    assert("L_Knee_Pitch"@.len() == 12);
    assert("L_Knee_Pitch"@[0] == 'L' && "L_Knee_Pitch"@[2] == 'K');
    assert("L_Ankle_Pitch"@.len() == 13);
    assert("L_Ankle_Pitch"@[0] == 'L' && "L_Ankle_Pitch"@[2] == 'A');
    assert("R_Hip_Yaw"@.len() == 9);
    assert("R_Hip_Yaw"@[0] == 'R' && "R_Hip_Yaw"@[2] == 'H');
    assert("R_Hip_Roll"@.len() == 10);
    assert("R_Hip_Roll"@[0] == 'R' && "R_Hip_Roll"@[2] == 'H');
    assert("R_Hip_Pitch"@.len() == 11);
    assert("R_Hip_Pitch"@[0] == 'R' && "R_Hip_Pitch"@[2] == 'H');
    assert("R_Knee_Pitch"@.len() == 12);
    assert("R_Knee_Pitch"@[0] == 'R' && "R_Knee_Pitch"@[2] == 'K');
    assert("R_Ankle_Pitch"@.len() == 13);
    assert("R_Ankle_Pitch"@[0] == 'R' && "R_Ankle_Pitch"@[2] == 'A');
}

/// One entry of the policy's answer: a joint name and the angle the policy
/// wants that joint at, in degrees.
#[derive(Debug, Clone, PartialEq, Eq)]
pub struct PolicyTarget {
    pub name: String,
    pub angle: Scalar,
}

/// The policy's answer: target angles by joint name.
#[derive(Debug, Clone, PartialEq, Eq)]
pub struct PolicyOutput {
    pub targets: Vec<PolicyTarget>,
}

impl View for PolicyOutput {
    type V = Seq<(Seq<char>, Scalar)>;

    open spec fn view(&self) -> Seq<(Seq<char>, Scalar)> {
        Seq::new(self.targets@.len(), |i: int| (self.targets@[i].name@, self.targets@[i].angle))
    }
}

/// The place of the first entry named `name`, or the number of entries
/// where there is none.
pub open spec fn first_named(entries: Seq<(Seq<char>, Scalar)>, name: Seq<char>) -> int
    decreases entries.len(),
{
    if entries.len() == 0 {
        0
    } else if entries[0].0 == name {
        0
    } else {
        1 + first_named(entries.drop_first(), name)
    }
}

/// `first_named` is the least place at which `name` occurs.
pub proof fn lemma_first_named(entries: Seq<(Seq<char>, Scalar)>, name: Seq<char>)
    ensures
        0 <= first_named(entries, name) <= entries.len(),
        forall|j: int| 0 <= j < first_named(entries, name) ==> (#[trigger] entries[j]).0 != name,
        first_named(entries, name) < entries.len() ==> entries[first_named(entries, name)].0
            == name,
    decreases entries.len(),
{
    if entries.len() == 0 {
    } else if entries[0].0 == name {
    } else {
        let rest = entries.drop_first();
        lemma_first_named(rest, name);
        let f = first_named(rest, name);
        assert forall|j: int| 0 <= j < 1 + f implies (#[trigger] entries[j]).0 != name by {
            if j > 0 {
                assert(entries[j] == rest[j - 1]);
            }
        }
        if f < rest.len() {
            assert(entries[1 + f] == rest[f]);
        }
    }
}

/// The angle the answer gives under `name`: that of the first entry so
/// named.
pub open spec fn angle_named(entries: Seq<(Seq<char>, Scalar)>, name: Seq<char>) -> Option<
    Scalar,
> {
    if first_named(entries, name) < entries.len() {
        Some(entries[first_named(entries, name)].1)
    } else {
        None
    }
}

/// The angle the answer gives for a degree of freedom: the one under its
/// name, if it has a name and the answer holds it.
pub open spec fn target_of(entries: Seq<(Seq<char>, Scalar)>, dof: Dof) -> Option<Scalar> {
    match label_of(dof.joint, dof.axis) {
        Some(name) => angle_named(entries, name),
        None => None,
    }
}

/// What the answer comes to for the degrees of freedom `dofs`: one angle
/// per degree of freedom, in the order of `dofs`, or `Malformed` where a
/// target is missing. Entries under other names are ignored.
pub open spec fn decoded(dofs: Seq<Dof>, entries: Seq<(Seq<char>, Scalar)>) -> Result<
    Seq<Scalar>,
    InferenceError,
> {
    if forall|i: int| 0 <= i < dofs.len() ==> target_of(entries, #[trigger] dofs[i]) is Some {
        Ok(Seq::new(dofs.len(), |i: int| target_of(entries, dofs[i])->0))
    } else {
        Err(InferenceError::Malformed)
    }
}

/// Angles as the contracts read them.
pub open spec fn angles_view(angles: Result<Vec<Scalar>, InferenceError>) -> Result<
    Seq<Scalar>,
    InferenceError,
> {
    match angles {
        Ok(a) => Ok(a@),
        Err(e) => Err(e),
    }
}

/// Finds the angle that the answer gives under `name`.
pub fn find_angle(output: &PolicyOutput, name: &str) -> (angle: Option<Scalar>)
    ensures
        angle == angle_named(output@, name@),
{
    let wanted = name.to_owned();
    let mut j: usize = 0;
    proof {
        lemma_first_named(output@, name@);
    }
    while j < output.targets.len() && !(output.targets[j].name == wanted)
        invariant
            wanted@ == name@,
            j <= output.targets@.len(),
            output@.len() == output.targets@.len(),
            j <= first_named(output@, name@) <= output@.len(),
            forall|k: int|
                0 <= k < first_named(output@, name@) ==> (#[trigger] output@[k]).0 != name@,
            first_named(output@, name@) < output@.len() ==> output@[first_named(
                output@,
                name@,
            )].0 == name@,
        decreases output.targets@.len() - j,
    {
        assert(output@[j as int].0 == output.targets@[j as int].name@);
        j += 1;
    }
    if j < output.targets.len() {
        assert(output@[j as int].0 == output.targets@[j as int].name@);
        assert(output@[j as int].1 == output.targets@[j as int].angle);
        Some(output.targets[j].angle)
    } else {
        None
    }
}

/// Reads the policy's answer for the degrees of freedom `dofs`.
///
/// Entry `i` of the result is the angle that the answer gives under the
/// name of `dofs[i]`, so the result is in the order of `dofs` whatever
/// order the answer is in. The answer is `Malformed` exactly when it lacks
/// a target for one of `dofs`.
pub fn decode_targets(dofs: &Vec<Dof>, output: &PolicyOutput) -> (angles: Result<
    Vec<Scalar>,
    InferenceError,
>)
    ensures
        angles_view(angles) == decoded(dofs@, output@),
        angles matches Ok(a) ==> a@.len() == dofs@.len(),
{
    let mut angles: Vec<Scalar> = Vec::new();
    let mut i: usize = 0;
    while i < dofs.len()
        invariant
            i <= dofs@.len(),
            angles@.len() == i,
            forall|k: int|
                0 <= k < i ==> target_of(output@, #[trigger] dofs@[k]) == Some(angles@[k]),
        decreases dofs@.len() - i,
    {
        let dof = dofs[i];
        let found = match joint_label(dof.joint, dof.axis) {
            Some(name) => find_angle(output, name),
            None => None,
        };
        match found {
            Some(angle) => {
                angles.push(angle);
            },
            None => {
                assert(target_of(output@, dofs@[i as int]) is None);
                return Err(InferenceError::Malformed);
            },
        }
        i += 1;
    }
    assert(angles@ =~= Seq::new(dofs@.len(), |i: int| target_of(output@, dofs@[i])->0));
    Ok(angles)
}

} // verus!
