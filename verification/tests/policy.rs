use kbot_control::policy::{decode_targets, find_angle, joint_label};
use kbot_control::robot::Robot;
use kbot_control::walk::canonical_dof_set;
use kbot_control::{Axis, Dof, InferenceError, Joint, KBot, PolicyOutput, PolicyTarget, Scalar};

fn num(x: f64) -> Scalar {
    Scalar::from_bits(x.to_bits())
}

fn answer(entries: &[(&str, f64)]) -> PolicyOutput {
    PolicyOutput {
        targets: entries
            .iter()
            .map(|(name, angle)| PolicyTarget { name: name.to_string(), angle: num(*angle) })
            .collect(),
    }
}

#[test]
fn leg_joints_carry_the_names_the_policy_uses() {
    assert_eq!(joint_label(Joint::RightHip, Some(Axis::Pitch)), Some("R_Hip_Pitch"));
    assert_eq!(joint_label(Joint::LeftHip, Some(Axis::Pitch)), Some("L_Hip_Pitch"));
    assert_eq!(joint_label(Joint::RightHip, Some(Axis::Yaw)), Some("R_Hip_Yaw"));
    assert_eq!(joint_label(Joint::LeftHip, Some(Axis::Yaw)), Some("L_Hip_Yaw"));
    assert_eq!(joint_label(Joint::RightHip, Some(Axis::Roll)), Some("R_Hip_Roll"));
    assert_eq!(joint_label(Joint::LeftHip, Some(Axis::Roll)), Some("L_Hip_Roll"));
    assert_eq!(joint_label(Joint::RightKnee, Some(Axis::Pitch)), Some("R_Knee_Pitch"));
    assert_eq!(joint_label(Joint::LeftKnee, Some(Axis::Pitch)), Some("L_Knee_Pitch"));
    assert_eq!(joint_label(Joint::RightAnkle, Some(Axis::Pitch)), Some("R_Ankle_Pitch"));
    assert_eq!(joint_label(Joint::LeftAnkle, Some(Axis::Pitch)), Some("L_Ankle_Pitch"));
}

#[test]
fn arm_joints_are_named_by_the_same_rule() {
    assert_eq!(joint_label(Joint::LeftShoulder, Some(Axis::Yaw)), Some("L_Shoulder_Yaw"));
    assert_eq!(joint_label(Joint::LeftShoulder, Some(Axis::Pitch)), Some("L_Shoulder_Pitch"));
    assert_eq!(joint_label(Joint::LeftElbow, Some(Axis::Yaw)), Some("L_Elbow_Yaw"));
    assert_eq!(joint_label(Joint::LeftGripper, None), Some("L_Gripper"));
    assert_eq!(joint_label(Joint::RightShoulder, Some(Axis::Yaw)), Some("R_Shoulder_Yaw"));
    assert_eq!(joint_label(Joint::RightShoulder, Some(Axis::Pitch)), Some("R_Shoulder_Pitch"));
    assert_eq!(joint_label(Joint::RightElbow, Some(Axis::Yaw)), Some("R_Elbow_Yaw"));
    assert_eq!(joint_label(Joint::RightGripper, None), Some("R_Gripper"));
}

#[test]
fn a_pair_has_a_name_exactly_when_it_has_an_actuator() {
    let joints = [
        Joint::LeftShoulder,
        Joint::LeftElbow,
        Joint::LeftGripper,
        Joint::RightShoulder,
        Joint::RightElbow,
        Joint::RightGripper,
        Joint::LeftHip,
        Joint::LeftKnee,
        Joint::LeftAnkle,
        Joint::RightHip,
        Joint::RightKnee,
        Joint::RightAnkle,
    ];
    let axes = [None, Some(Axis::Pitch), Some(Axis::Yaw), Some(Axis::Roll)];
    let mut names: Vec<&str> = Vec::new();
    for joint in joints {
        for axis in axes {
            let name = joint_label(joint, axis);
            assert_eq!(name.is_some(), KBot::get_actuator_id(joint, axis).is_some());
            if let Some(n) = name {
                assert!(!names.contains(&n), "{} names two joints", n);
                names.push(n);
            }
        }
    }
    assert_eq!(names.len(), 18);
}

#[test]
fn an_angle_is_found_under_its_name() {
    let output = answer(&[("L_Hip_Yaw", 1.5), ("R_Hip_Yaw", -2.5), ("L_Hip_Yaw", 9.0)]);
    assert_eq!(find_angle(&output, "R_Hip_Yaw"), Some(num(-2.5)));
    assert_eq!(find_angle(&output, "L_Hip_Yaw"), Some(num(1.5)));
    assert_eq!(find_angle(&output, "L_Hip_Roll"), None);
    assert_eq!(find_angle(&output, "l_hip_yaw"), None);
    assert_eq!(find_angle(&output, ""), None);
    assert_eq!(find_angle(&answer(&[]), "L_Hip_Yaw"), None);
}

#[test]
fn targets_come_out_in_the_order_of_the_joints_not_of_the_answer() {
    let output = answer(&[
        ("L_Ankle_Pitch", 1.0),
        ("L_Hip_Pitch", 2.0),
        ("L_Hip_Yaw", 3.0),
        ("L_Hip_Roll", 4.0),
        ("L_Knee_Pitch", 5.0),
        ("R_Ankle_Pitch", 6.0),
        ("R_Hip_Pitch", 7.0),
        ("R_Hip_Yaw", 8.0),
        ("R_Hip_Roll", 9.0),
        ("R_Knee_Pitch", 10.0),
    ]);
    let angles = decode_targets(&canonical_dof_set(), &output).expect("every joint is answered");
    let read: Vec<f64> = angles.iter().map(|a| f64::from_bits(a.to_bits())).collect();
    assert_eq!(read, vec![7.0, 2.0, 8.0, 3.0, 9.0, 4.0, 10.0, 5.0, 6.0, 1.0]);
}

#[test]
fn yaw_and_roll_targets_go_to_the_axes_they_are_named_after() {
    let dofs = vec![
        Dof { joint: Joint::RightHip, axis: Some(Axis::Yaw) },
        Dof { joint: Joint::RightHip, axis: Some(Axis::Roll) },
        Dof { joint: Joint::LeftHip, axis: Some(Axis::Yaw) },
        Dof { joint: Joint::LeftHip, axis: Some(Axis::Roll) },
    ];
    let output = answer(&[
        ("L_Hip_Roll", 32.0),
        ("L_Hip_Yaw", 31.0),
        ("R_Hip_Roll", 42.0),
        ("R_Hip_Yaw", 41.0),
    ]);
    assert_eq!(
        decode_targets(&dofs, &output),
        Ok(vec![num(41.0), num(42.0), num(31.0), num(32.0)])
    );
}

#[test]
fn an_answer_that_lacks_a_joint_is_malformed() {
    let dofs = canonical_dof_set();
    let mut entries: Vec<(&str, f64)> = vec![
        ("L_Ankle_Pitch", 0.0),
        ("L_Hip_Pitch", 0.0),
        ("L_Hip_Yaw", 0.0),
        ("L_Hip_Roll", 0.0),
        ("L_Knee_Pitch", 0.0),
        ("R_Ankle_Pitch", 0.0),
        ("R_Hip_Pitch", 0.0),
        ("R_Hip_Yaw", 0.0),
        ("R_Hip_Roll", 0.0),
    ];
    assert_eq!(decode_targets(&dofs, &answer(&entries)), Err(InferenceError::Malformed));
    assert_eq!(decode_targets(&dofs, &answer(&[])), Err(InferenceError::Malformed));
    entries.push(("R_Knee_Pitch", 0.0));
    assert!(decode_targets(&dofs, &answer(&entries)).is_ok());
}

#[test]
fn names_the_joints_do_not_use_are_ignored() {
    let dofs = vec![Dof { joint: Joint::LeftKnee, axis: Some(Axis::Pitch) }];
    let output = answer(&[("Tail_Wag", 99.0), ("L_Knee_Pitch", 5.0), ("R_Knee_Pitch", 6.0)]);
    assert_eq!(decode_targets(&dofs, &output), Ok(vec![num(5.0)]));
}

#[test]
fn a_pair_that_is_no_joint_cannot_be_answered() {
    let dofs = vec![Dof { joint: Joint::LeftKnee, axis: Some(Axis::Yaw) }];
    let output = answer(&[("L_Knee_Pitch", 5.0), ("L_Knee_Yaw", 6.0)]);
    assert_eq!(decode_targets(&dofs, &output), Err(InferenceError::Malformed));
}

#[test]
fn asking_for_no_joint_reads_no_target() {
    assert_eq!(decode_targets(&Vec::new(), &answer(&[("L_Knee_Pitch", 5.0)])), Ok(Vec::new()));
}
