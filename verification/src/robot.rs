//! The joint registry: which actuator drives which degree of freedom.

use vstd::prelude::*;
use crate::config::Config;
use crate::joint::{Axis, Dof, Joint};

verus! {

/// A robot as a registry of actuators: a partial map from degrees of
/// freedom to actuator identifiers, and the list of actuators it is built
/// with.
pub trait Robot: Sized {
    /// The actuator that drives `joint` about `axis`, where the robot has one.
    spec fn actuator_of(joint: Joint, axis: Option<Axis>) -> Option<u32>;

    /// The actuators the robot is built with, in the order in which they are
    /// configured.
    spec fn actuator_ids() -> Seq<u32>;

    /// No actuator drives two degrees of freedom, and identifiers are positive.
    proof fn registry_is_injective(j1: Joint, a1: Option<Axis>, j2: Joint, a2: Option<Axis>)
        requires
            Self::actuator_of(j1, a1) is Some,
            Self::actuator_of(j1, a1) == Self::actuator_of(j2, a2),
        ensures
            j1 == j2,
            a1 == a2,
            Self::actuator_of(j1, a1)->0 > 0,
    ;

    /// Every actuator that the registry hands out is in the list.
    proof fn every_actuator_is_listed(joint: Joint, axis: Option<Axis>)
        requires
            Self::actuator_of(joint, axis) is Some,
        ensures
            Self::actuator_ids().contains(Self::actuator_of(joint, axis)->0),
    ;

    fn list_actuator_ids() -> (ids: Vec<u32>)
        ensures
            ids@ == Self::actuator_ids(),
    ;

    fn get_actuator_id(joint: Joint, axis: Option<Axis>) -> (id: Option<u32>)
        ensures
            id == Self::actuator_of(joint, axis),
    ;
}

/// The humanoid this crate drives.
///
/// Its registry knows eighteen degrees of freedom, each with an actuator
/// of its own, and every one of those actuators is listed for bring-up.
#[derive(Debug, Clone, PartialEq, Eq)]
pub struct KBot {
    pub config: Config,
}

/// Whether the humanoid has a degree of freedom at `joint` about `axis`:
/// shoulders turn in yaw and pitch, elbows in yaw, hips about all three
/// axes, knees and ankles in pitch, and grippers have no axis.
pub open spec fn has_dof(joint: Joint, axis: Option<Axis>) -> bool {
    match joint {
        Joint::LeftShoulder | Joint::RightShoulder => axis == Some(Axis::Yaw) || axis == Some(
            Axis::Pitch,
        ),
        Joint::LeftElbow | Joint::RightElbow => axis == Some(Axis::Yaw),
        Joint::LeftGripper | Joint::RightGripper => axis is None,
        Joint::LeftHip | Joint::RightHip => axis is Some,
        Joint::LeftKnee | Joint::RightKnee | Joint::LeftAnkle | Joint::RightAnkle => axis == Some(
            Axis::Pitch,
        ),
    }
}

impl Robot for KBot {
    open spec fn actuator_of(joint: Joint, axis: Option<Axis>) -> Option<u32> {
        match (joint, axis) {
            (Joint::LeftShoulder, Some(Axis::Yaw)) => Some(11u32),
            (Joint::LeftShoulder, Some(Axis::Pitch)) => Some(12u32),
            (Joint::LeftElbow, Some(Axis::Yaw)) => Some(13u32),
            (Joint::LeftGripper, None) => Some(14u32),
            (Joint::RightShoulder, Some(Axis::Yaw)) => Some(21u32),
            (Joint::RightShoulder, Some(Axis::Pitch)) => Some(22u32),
            (Joint::RightElbow, Some(Axis::Yaw)) => Some(23u32),
            (Joint::RightGripper, None) => Some(24u32),
            (Joint::LeftHip, Some(Axis::Yaw)) => Some(31u32),
            (Joint::LeftHip, Some(Axis::Roll)) => Some(32u32),
            (Joint::LeftHip, Some(Axis::Pitch)) => Some(33u32),
            (Joint::LeftKnee, Some(Axis::Pitch)) => Some(34u32),
            (Joint::LeftAnkle, Some(Axis::Pitch)) => Some(35u32),
            (Joint::RightHip, Some(Axis::Yaw)) => Some(41u32),
            (Joint::RightHip, Some(Axis::Roll)) => Some(42u32),
            (Joint::RightHip, Some(Axis::Pitch)) => Some(43u32),
            (Joint::RightKnee, Some(Axis::Pitch)) => Some(44u32),
            (Joint::RightAnkle, Some(Axis::Pitch)) => Some(45u32),
            _ => None,
        }
    }

    open spec fn actuator_ids() -> Seq<u32> {
        seq![
            11u32, 12u32, 13u32, 14u32,
            21u32, 22u32, 23u32, 24u32,
            31u32, 32u32, 33u32, 34u32, 35u32,
            41u32, 42u32, 43u32, 44u32, 45u32,
        ]
    }

    proof fn registry_is_injective(j1: Joint, a1: Option<Axis>, j2: Joint, a2: Option<Axis>) {
    }

    proof fn every_actuator_is_listed(joint: Joint, axis: Option<Axis>) {
        lemma_listed_exactly_when_registered(Self::actuator_of(joint, axis)->0);
    }

    fn list_actuator_ids() -> (ids: Vec<u32>) {
        let ids: Vec<u32> = vec![
            11, 12, 13, 14,
            21, 22, 23, 24,
            31, 32, 33, 34, 35,
            41, 42, 43, 44, 45,
        ];
        assert(ids@ =~= Self::actuator_ids());
        ids
    }

    fn get_actuator_id(joint: Joint, axis: Option<Axis>) -> (id: Option<u32>) {
        match (joint, axis) {
            (Joint::LeftShoulder, Some(Axis::Yaw)) => Some(11),
            (Joint::LeftShoulder, Some(Axis::Pitch)) => Some(12),
            (Joint::LeftElbow, Some(Axis::Yaw)) => Some(13),
            (Joint::LeftGripper, None) => Some(14),
            (Joint::RightShoulder, Some(Axis::Yaw)) => Some(21),
            (Joint::RightShoulder, Some(Axis::Pitch)) => Some(22),
            (Joint::RightElbow, Some(Axis::Yaw)) => Some(23),
            (Joint::RightGripper, None) => Some(24),
            (Joint::LeftHip, Some(Axis::Yaw)) => Some(31),
            (Joint::LeftHip, Some(Axis::Roll)) => Some(32),
            (Joint::LeftHip, Some(Axis::Pitch)) => Some(33),
            (Joint::LeftKnee, Some(Axis::Pitch)) => Some(34),
            (Joint::LeftAnkle, Some(Axis::Pitch)) => Some(35),
            (Joint::RightHip, Some(Axis::Yaw)) => Some(41),
            (Joint::RightHip, Some(Axis::Roll)) => Some(42),
            (Joint::RightHip, Some(Axis::Pitch)) => Some(43),
            (Joint::RightKnee, Some(Axis::Pitch)) => Some(44),
            (Joint::RightAnkle, Some(Axis::Pitch)) => Some(45),
            _ => None,
        }
    }
}

/// The degree of freedom that actuator `id` drives: the registry read
/// backwards.
pub open spec fn dof_of(id: u32) -> Option<Dof> {
    if exists|joint: Joint, axis: Option<Axis>| KBot::actuator_of(joint, axis) == Some(id) {
        let (joint, axis) = choose|joint: Joint, axis: Option<Axis>|
            KBot::actuator_of(joint, axis) == Some(id);
        Some(Dof { joint, axis })
    } else {
        None
    }
}

impl KBot {
    /// Lists every degree of freedom of the humanoid.
    pub fn list_dofs() -> (dofs: Vec<Dof>)
        ensures
            dofs@ == all_dofs(),
    {
        let dofs: Vec<Dof> = vec![
            Dof { joint: Joint::LeftShoulder, axis: Some(Axis::Yaw) },
            Dof { joint: Joint::LeftShoulder, axis: Some(Axis::Pitch) },
            Dof { joint: Joint::LeftElbow, axis: Some(Axis::Yaw) },
            Dof { joint: Joint::LeftGripper, axis: None },
            Dof { joint: Joint::RightShoulder, axis: Some(Axis::Yaw) },
            Dof { joint: Joint::RightShoulder, axis: Some(Axis::Pitch) },
            Dof { joint: Joint::RightElbow, axis: Some(Axis::Yaw) },
            Dof { joint: Joint::RightGripper, axis: None },
            Dof { joint: Joint::LeftHip, axis: Some(Axis::Yaw) },
            Dof { joint: Joint::LeftHip, axis: Some(Axis::Roll) },
            Dof { joint: Joint::LeftHip, axis: Some(Axis::Pitch) },
            Dof { joint: Joint::LeftKnee, axis: Some(Axis::Pitch) },
            Dof { joint: Joint::LeftAnkle, axis: Some(Axis::Pitch) },
            Dof { joint: Joint::RightHip, axis: Some(Axis::Yaw) },
            Dof { joint: Joint::RightHip, axis: Some(Axis::Roll) },
            Dof { joint: Joint::RightHip, axis: Some(Axis::Pitch) },
            Dof { joint: Joint::RightKnee, axis: Some(Axis::Pitch) },
            Dof { joint: Joint::RightAnkle, axis: Some(Axis::Pitch) },
        ];
        assert(dofs@ =~= all_dofs());
        dofs
    }

    /// Looks an actuator up in the registry read backwards, for diagnostics.
    pub fn joint_of_actuator(id: u32) -> (dof: Option<Dof>)
        ensures
            dof == dof_of(id),
            dof matches Some(d) ==> KBot::actuator_of(d.joint, d.axis) == Some(id),
            dof is None ==> forall|joint: Joint, axis: Option<Axis>|
                KBot::actuator_of(joint, axis) != Some(id),
    {
        let found = match id {
            11 => Some(Dof { joint: Joint::LeftShoulder, axis: Some(Axis::Yaw) }),
            12 => Some(Dof { joint: Joint::LeftShoulder, axis: Some(Axis::Pitch) }),
            13 => Some(Dof { joint: Joint::LeftElbow, axis: Some(Axis::Yaw) }),
            14 => Some(Dof { joint: Joint::LeftGripper, axis: None }),
            21 => Some(Dof { joint: Joint::RightShoulder, axis: Some(Axis::Yaw) }),
            22 => Some(Dof { joint: Joint::RightShoulder, axis: Some(Axis::Pitch) }),
            23 => Some(Dof { joint: Joint::RightElbow, axis: Some(Axis::Yaw) }),
            24 => Some(Dof { joint: Joint::RightGripper, axis: None }),
            31 => Some(Dof { joint: Joint::LeftHip, axis: Some(Axis::Yaw) }),
            32 => Some(Dof { joint: Joint::LeftHip, axis: Some(Axis::Roll) }),
            33 => Some(Dof { joint: Joint::LeftHip, axis: Some(Axis::Pitch) }),
            34 => Some(Dof { joint: Joint::LeftKnee, axis: Some(Axis::Pitch) }),
            35 => Some(Dof { joint: Joint::LeftAnkle, axis: Some(Axis::Pitch) }),
            41 => Some(Dof { joint: Joint::RightHip, axis: Some(Axis::Yaw) }),
            42 => Some(Dof { joint: Joint::RightHip, axis: Some(Axis::Roll) }),
            43 => Some(Dof { joint: Joint::RightHip, axis: Some(Axis::Pitch) }),
            44 => Some(Dof { joint: Joint::RightKnee, axis: Some(Axis::Pitch) }),
            45 => Some(Dof { joint: Joint::RightAnkle, axis: Some(Axis::Pitch) }),
            _ => None,
        };
        proof {
            match found {
                Some(d) => {
                    assert(KBot::actuator_of(d.joint, d.axis) == Some(id));
                    let (joint, axis) = choose|joint: Joint, axis: Option<Axis>|
                        KBot::actuator_of(joint, axis) == Some(id);
                    KBot::registry_is_injective(joint, axis, d.joint, d.axis);
                },
                None => {
                    assert forall|joint: Joint, axis: Option<Axis>|
                        KBot::actuator_of(joint, axis) != Some(id) by {}
                },
            }
        }
        found
    }
}

/// Every degree of freedom of the humanoid, arms before legs and left
/// before right, each limb from the trunk outwards.
pub open spec fn all_dofs() -> Seq<Dof> {
    seq![
        Dof { joint: Joint::LeftShoulder, axis: Some(Axis::Yaw) },
        Dof { joint: Joint::LeftShoulder, axis: Some(Axis::Pitch) },
        Dof { joint: Joint::LeftElbow, axis: Some(Axis::Yaw) },
        Dof { joint: Joint::LeftGripper, axis: None },
        Dof { joint: Joint::RightShoulder, axis: Some(Axis::Yaw) },
        Dof { joint: Joint::RightShoulder, axis: Some(Axis::Pitch) },
        Dof { joint: Joint::RightElbow, axis: Some(Axis::Yaw) },
        Dof { joint: Joint::RightGripper, axis: None },
        Dof { joint: Joint::LeftHip, axis: Some(Axis::Yaw) },
        Dof { joint: Joint::LeftHip, axis: Some(Axis::Roll) },
        Dof { joint: Joint::LeftHip, axis: Some(Axis::Pitch) },
        Dof { joint: Joint::LeftKnee, axis: Some(Axis::Pitch) },
        Dof { joint: Joint::LeftAnkle, axis: Some(Axis::Pitch) },
        Dof { joint: Joint::RightHip, axis: Some(Axis::Yaw) },
        Dof { joint: Joint::RightHip, axis: Some(Axis::Roll) },
        Dof { joint: Joint::RightHip, axis: Some(Axis::Pitch) },
        Dof { joint: Joint::RightKnee, axis: Some(Axis::Pitch) },
        Dof { joint: Joint::RightAnkle, axis: Some(Axis::Pitch) },
    ]
}

/// `all_dofs` holds exactly the degrees of freedom of the humanoid, each
/// of them once.
pub proof fn lemma_all_dofs_is_complete(joint: Joint, axis: Option<Axis>, i: int, j: int)
    ensures
        has_dof(joint, axis) <==> all_dofs().contains(Dof { joint, axis }),
        0 <= i < j < all_dofs().len() ==> all_dofs()[i] != all_dofs()[j],
{
    let d = Dof { joint, axis };
    if has_dof(joint, axis) {
        let at: int = match (joint, axis) {
            (Joint::LeftShoulder, Some(Axis::Yaw)) => 0,
            (Joint::LeftShoulder, _) => 1,
            (Joint::LeftElbow, _) => 2,
            (Joint::LeftGripper, _) => 3,
            (Joint::RightShoulder, Some(Axis::Yaw)) => 4,
            (Joint::RightShoulder, _) => 5,
            (Joint::RightElbow, _) => 6,
            (Joint::RightGripper, _) => 7,
            (Joint::LeftHip, Some(Axis::Yaw)) => 8,
            (Joint::LeftHip, Some(Axis::Roll)) => 9,
            (Joint::LeftHip, _) => 10,
            (Joint::LeftKnee, _) => 11,
            (Joint::LeftAnkle, _) => 12,
            (Joint::RightHip, Some(Axis::Yaw)) => 13,
            (Joint::RightHip, Some(Axis::Roll)) => 14,
            (Joint::RightHip, _) => 15,
            (Joint::RightKnee, _) => 16,
            (Joint::RightAnkle, _) => 17,
        };
        assert(all_dofs()[at] == d);
    }
    if all_dofs().contains(d) {
        let k = choose|k: int| 0 <= k < all_dofs().len() && all_dofs()[k] == d;
        assert(has_dof(all_dofs()[k].joint, all_dofs()[k].axis));
    }
}

/// Every degree of freedom the humanoid has resolves to exactly one
/// actuator, and two different degrees of freedom never share one.
pub proof fn lemma_defined_pairs_resolve_uniquely(
    j1: Joint,
    a1: Option<Axis>,
    j2: Joint,
    a2: Option<Axis>,
)
    requires
        has_dof(j1, a1),
        has_dof(j2, a2),
    ensures
        KBot::actuator_of(j1, a1) is Some,
        KBot::actuator_of(j2, a2) is Some,
        KBot::actuator_of(j1, a1) == KBot::actuator_of(j2, a2) ==> j1 == j2 && a1 == a2,
{
}

/// A pair that is no degree of freedom of the humanoid resolves to nothing.
pub proof fn lemma_undefined_pairs_are_rejected(joint: Joint, axis: Option<Axis>)
    requires
        !has_dof(joint, axis),
    ensures
        KBot::actuator_of(joint, axis) is None,
{
}

/// The actuators the humanoid is built with are listed in strictly
/// increasing order, so none is listed twice, and each of them drives a
/// degree of freedom.
pub proof fn lemma_listed_actuators_are_registered(i: int, j: int)
    requires
        0 <= i < j < KBot::actuator_ids().len(),
    ensures
        KBot::actuator_ids()[i] < KBot::actuator_ids()[j],
        dof_of(KBot::actuator_ids()[i]) is Some,
        dof_of(KBot::actuator_ids()[j]) is Some,
{
    lemma_listed(i);
    lemma_listed(j);
}

/// An identifier is listed exactly when some degree of freedom resolves
/// to it: the list holds every actuator of the registry and nothing else.
/// It holds them in the order of `all_dofs`.
pub proof fn lemma_listed_exactly_when_registered(id: u32)
    ensures
        KBot::actuator_ids().contains(id) <==> exists|joint: Joint, axis: Option<Axis>|
            KBot::actuator_of(joint, axis) == Some(id),
        KBot::actuator_ids().contains(id) <==> dof_of(id) is Some,
        KBot::actuator_ids().len() == all_dofs().len(),
        forall|i: int|
            0 <= i < all_dofs().len() ==> KBot::actuator_of(
                all_dofs()[i].joint,
                all_dofs()[i].axis,
            ) == Some(#[trigger] KBot::actuator_ids()[i]),
{
    let ids = KBot::actuator_ids();
    if ids.contains(id) {
        let i = choose|i: int| 0 <= i < ids.len() && ids[i] == id;
        lemma_listed(i);
    }
    if exists|joint: Joint, axis: Option<Axis>| KBot::actuator_of(joint, axis) == Some(id) {
        let at: int = if id < 20 {
            id - 11
        } else if id < 30 {
            id - 21 + 4
        } else if id < 40 {
            id - 31 + 8
        } else {
            id - 41 + 13
        };
        assert(ids[at] == id);
    }
}

proof fn lemma_listed(i: int)
    requires
        0 <= i < KBot::actuator_ids().len(),
    ensures
        dof_of(KBot::actuator_ids()[i]) is Some,
        i > 0 ==> KBot::actuator_ids()[i - 1] < KBot::actuator_ids()[i],
{
    assert(KBot::actuator_of(Joint::LeftShoulder, Some(Axis::Yaw)) == Some(11u32));
    assert(KBot::actuator_of(Joint::LeftShoulder, Some(Axis::Pitch)) == Some(12u32));
    assert(KBot::actuator_of(Joint::LeftElbow, Some(Axis::Yaw)) == Some(13u32));
    assert(KBot::actuator_of(Joint::LeftGripper, None) == Some(14u32));
    assert(KBot::actuator_of(Joint::RightShoulder, Some(Axis::Yaw)) == Some(21u32));
    assert(KBot::actuator_of(Joint::RightShoulder, Some(Axis::Pitch)) == Some(22u32));
    assert(KBot::actuator_of(Joint::RightElbow, Some(Axis::Yaw)) == Some(23u32));
    assert(KBot::actuator_of(Joint::RightGripper, None) == Some(24u32));
    assert(KBot::actuator_of(Joint::LeftHip, Some(Axis::Yaw)) == Some(31u32));
    assert(KBot::actuator_of(Joint::LeftHip, Some(Axis::Roll)) == Some(32u32));
    assert(KBot::actuator_of(Joint::LeftHip, Some(Axis::Pitch)) == Some(33u32));
    assert(KBot::actuator_of(Joint::LeftKnee, Some(Axis::Pitch)) == Some(34u32));
    assert(KBot::actuator_of(Joint::LeftAnkle, Some(Axis::Pitch)) == Some(35u32));
    assert(KBot::actuator_of(Joint::RightHip, Some(Axis::Yaw)) == Some(41u32));
    assert(KBot::actuator_of(Joint::RightHip, Some(Axis::Roll)) == Some(42u32));
    assert(KBot::actuator_of(Joint::RightHip, Some(Axis::Pitch)) == Some(43u32));
    assert(KBot::actuator_of(Joint::RightKnee, Some(Axis::Pitch)) == Some(44u32));
    assert(KBot::actuator_of(Joint::RightAnkle, Some(Axis::Pitch)) == Some(45u32));
}

} // verus!
