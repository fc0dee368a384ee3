use kbot_control::walk::{assemble, canonical_dof_set, CALL_TIMEOUT_MS};
use kbot_control::{
    command_all_joints, walk, Action, ActuatorCommand, ActuatorState, Axis, Config, ControlError,
    Dof, Event, ImuValues, InferenceError, Joint, KBot, Phase,
    PolicyOutput, PolicyTarget, RpcError, Scalar, Stage, TickOutcome, Triple, WalkConfig, WalkLoop,
};

const NAMES: [&str; 10] = [
    "R_Hip_Pitch",
    "L_Hip_Pitch",
    "R_Hip_Yaw",
    "L_Hip_Yaw",
    "R_Hip_Roll",
    "L_Hip_Roll",
    "R_Knee_Pitch",
    "L_Knee_Pitch",
    "R_Ankle_Pitch",
    "L_Ankle_Pitch",
];

const IDS: [u32; 10] = [43, 33, 41, 31, 42, 32, 44, 34, 45, 35];

fn bot() -> KBot {
    KBot { config: Config { server_url: "example.com".to_string(), imu_poll_interval_ms: 1000 } }
}

fn num(x: f64) -> Scalar {
    Scalar::from_bits(x.to_bits())
}

fn triple(x: f64, y: f64, z: f64) -> Triple {
    Triple { x: num(x), y: num(y), z: num(z) }
}

fn still() -> ImuValues {
    ImuValues { gyro: triple(0.0, 0.0, 0.0), accel: triple(0.0, 0.0, 9.8) }
}

fn states(position: impl Fn(usize) -> f64, velocity: impl Fn(usize) -> f64) -> Vec<ActuatorState> {
    (0..10)
        .map(|i| ActuatorState {
            actuator_id: IDS[i],
            position: Some(num(position(i))),
            velocity: Some(num(velocity(i))),
        })
        .collect()
}

fn answer(angle: impl Fn(usize) -> f64) -> PolicyOutput {
    PolicyOutput {
        targets: (0..10)
            .map(|i| PolicyTarget { name: NAMES[i].to_string(), angle: num(angle(i)) })
            .collect(),
    }
}

fn tick_now() -> Event {
    Event::Boundary { elapsed_secs: 0, cancelled: false }
}

/// Drives `w` from armed to the point where the policy is asked.
fn up_to_inference(w: &mut WalkLoop, kbot: &KBot, reported: Vec<ActuatorState>) -> Action {
    assert_eq!(w.step(kbot, tick_now()), Action::ReadImu);
    match w.step(kbot, Event::Imu(Ok(still()))) {
        Action::ReadStates(_) => {}
        other => panic!("expected a state read, got {:?}", other),
    }
    w.step(kbot, Event::States(Ok(reported)))
}

#[test]
fn a_walk_is_armed_with_zeros_and_the_default_options() {
    let w = walk();
    assert_eq!(w.phase(), Phase::Armed);
    assert_eq!(w.previous_action(), &vec![num(0.0); 10]);
    assert_eq!(w.actuators(), &IDS.to_vec());
    assert_eq!(w.config(), &WalkConfig::default());
}

#[test]
fn the_rest_before_a_boundary_is_what_is_left_of_the_period() {
    let mut config = WalkConfig::default();
    assert_eq!(config.rest_ms(0), 0);
    assert_eq!(config.rest_ms(17), 0);
    config.tick_period_ms = 20;
    assert_eq!(config.rest_ms(0), 20);
    assert_eq!(config.rest_ms(7), 13);
    assert_eq!(config.rest_ms(20), 0);
    assert_eq!(config.rest_ms(21), 0);
    assert_eq!(config.rest_ms(u64::MAX), 0);
    config.tick_period_ms = u64::MAX;
    assert_eq!(config.rest_ms(1), u64::MAX - 1);
}

#[test]
fn a_remote_call_may_take_a_second() {
    assert_eq!(CALL_TIMEOUT_MS, 1000);
}

#[test]
fn the_default_options_are_five_seconds_over_the_legs() {
    let config = WalkConfig::default();
    assert_eq!(config.duration_secs, 5);
    assert_eq!(config.tick_period_ms, 0);
    assert_eq!(config.inference_endpoint, "http://localhost:4242/infer");
    assert_eq!(config.dof_set, canonical_dof_set());
    assert_eq!(
        config.dof_set,
        vec![
            Dof { joint: Joint::RightHip, axis: Some(Axis::Pitch) },
            Dof { joint: Joint::LeftHip, axis: Some(Axis::Pitch) },
            Dof { joint: Joint::RightHip, axis: Some(Axis::Yaw) },
            Dof { joint: Joint::LeftHip, axis: Some(Axis::Yaw) },
            Dof { joint: Joint::RightHip, axis: Some(Axis::Roll) },
            Dof { joint: Joint::LeftHip, axis: Some(Axis::Roll) },
            Dof { joint: Joint::RightKnee, axis: Some(Axis::Pitch) },
            Dof { joint: Joint::LeftKnee, axis: Some(Axis::Pitch) },
            Dof { joint: Joint::RightAnkle, axis: Some(Axis::Pitch) },
            Dof { joint: Joint::LeftAnkle, axis: Some(Axis::Pitch) },
        ]
    );
}

#[test]
fn a_full_tick_at_rest_dispatches_ten_zero_position_commands() {
    let kbot = bot();
    let mut w = walk();

    assert_eq!(w.step(&kbot, tick_now()), Action::ReadImu);
    assert_eq!(w.phase(), Phase::Ticking(Stage::ReadingImu));

    let imu = ImuValues { gyro: triple(0.0, 0.0, 0.0), accel: triple(0.0, 0.0, 9.8) };
    match w.step(&kbot, Event::Imu(Ok(imu))) {
        Action::ReadStates(request) => assert_eq!(request.actuator_ids, IDS.to_vec()),
        other => panic!("expected a state read, got {:?}", other),
    }
    assert_eq!(w.phase(), Phase::Ticking(Stage::ReadingStates(imu)));

    match w.step(&kbot, Event::States(Ok(states(|_| 0.0, |_| 0.0)))) {
        Action::Infer(observation) => {
            assert_eq!(observation.base_ang_vel, triple(0.0, 0.0, 0.0));
            assert_eq!(observation.accel, triple(0.0, 0.0, 9.8));
            assert_eq!(observation.commands, triple(0.6, 0.0, 0.0));
            assert_eq!(observation.dof_pos, vec![num(0.0); 10]);
            assert_eq!(observation.dof_vel, vec![num(0.0); 10]);
            assert_eq!(observation.actions, vec![num(0.0); 10]);
        }
        other => panic!("expected a policy step, got {:?}", other),
    }
    assert_eq!(w.phase(), Phase::Ticking(Stage::Inferring));

    match w.step(&kbot, Event::Inference(Ok(answer(|_| 0.0)))) {
        Action::Dispatch(requests) => {
            assert_eq!(requests.len(), 10);
            for (i, request) in requests.iter().enumerate() {
                assert_eq!(
                    request.commands,
                    vec![ActuatorCommand {
                        actuator_id: IDS[i],
                        position: Some(num(0.0)),
                        velocity: None,
                        torque: None,
                    }]
                );
            }
        }
        other => panic!("expected a dispatch, got {:?}", other),
    }
    assert_eq!(w.phase(), Phase::Ticking(Stage::Dispatching));

    assert_eq!(
        w.step(&kbot, Event::Dispatched(vec![Ok(()); 10])),
        Action::Rest(TickOutcome::Completed)
    );
    assert_eq!(w.phase(), Phase::Armed);
}

#[test]
fn a_failed_state_read_skips_the_tick_and_the_next_tick_runs() {
    let kbot = bot();
    let mut w = walk();
    for _ in 0..3 {
        assert_eq!(w.step(&kbot, tick_now()), Action::ReadImu);
        assert!(matches!(w.step(&kbot, Event::Imu(Ok(still()))), Action::ReadStates(_)));
        assert_eq!(
            w.step(&kbot, Event::States(Err(RpcError::Transient))),
            Action::Rest(TickOutcome::StatesFailed(RpcError::Transient))
        );
        assert_eq!(w.phase(), Phase::Armed);
        assert_eq!(w.previous_action(), &vec![num(0.0); 10]);
    }
    let shown = up_to_inference(&mut w, &kbot, states(|_| 0.0, |_| 0.0));
    assert!(matches!(shown, Action::Infer(_)));
    assert!(matches!(
        w.step(&kbot, Event::Inference(Ok(answer(|_| 0.0)))),
        Action::Dispatch(_)
    ));
}

#[test]
fn a_state_reply_that_lacks_an_actuator_skips_the_tick() {
    let kbot = bot();
    let mut w = walk();
    let mut reported = states(|_| 0.0, |_| 0.0);
    reported.remove(4);
    assert_eq!(
        up_to_inference(&mut w, &kbot, reported),
        Action::Rest(TickOutcome::StatesFailed(RpcError::Transient))
    );
    assert_eq!(w.phase(), Phase::Armed);
}

#[test]
fn a_failed_inertial_read_skips_the_tick() {
    let kbot = bot();
    let mut w = walk();
    assert_eq!(w.step(&kbot, tick_now()), Action::ReadImu);
    assert_eq!(
        w.step(&kbot, Event::Imu(Err(RpcError::Transient))),
        Action::Rest(TickOutcome::ImuFailed(RpcError::Transient))
    );
    assert_eq!(w.phase(), Phase::Armed);
    assert_eq!(w.step(&kbot, tick_now()), Action::ReadImu);
}

#[test]
fn a_policy_that_cannot_be_reached_skips_the_tick() {
    let kbot = bot();
    let mut w = walk();
    assert!(matches!(up_to_inference(&mut w, &kbot, states(|_| 0.0, |_| 0.0)), Action::Infer(_)));
    assert_eq!(
        w.step(&kbot, Event::Inference(Err(InferenceError::Unreachable))),
        Action::Rest(TickOutcome::InferenceFailed(InferenceError::Unreachable))
    );
    assert_eq!(w.phase(), Phase::Armed);
    assert_eq!(w.previous_action(), &vec![num(0.0); 10]);
    assert_eq!(w.step(&kbot, tick_now()), Action::ReadImu);
}

#[test]
fn a_policy_answer_that_lacks_a_joint_skips_the_tick() {
    let kbot = bot();
    let mut w = walk();
    assert!(matches!(up_to_inference(&mut w, &kbot, states(|_| 0.0, |_| 0.0)), Action::Infer(_)));
    let mut output = answer(|i| i as f64);
    output.targets.remove(7);
    assert_eq!(
        w.step(&kbot, Event::Inference(Ok(output))),
        Action::Rest(TickOutcome::InferenceFailed(InferenceError::Malformed))
    );
    assert_eq!(w.phase(), Phase::Armed);
    assert_eq!(w.previous_action(), &vec![num(0.0); 10]);
}

#[test]
fn a_failed_dispatch_is_reported_and_the_loop_goes_on() {
    let kbot = bot();
    let mut w = walk();
    assert!(matches!(up_to_inference(&mut w, &kbot, states(|_| 0.0, |_| 0.0)), Action::Infer(_)));
    assert!(matches!(
        w.step(&kbot, Event::Inference(Ok(answer(|i| i as f64)))),
        Action::Dispatch(_)
    ));
    let mut outcomes = vec![Ok(()); 10];
    outcomes[3] = Err(RpcError::Transient);
    assert_eq!(
        w.step(&kbot, Event::Dispatched(outcomes)),
        Action::Rest(TickOutcome::DispatchFailed(ControlError::Rpc(RpcError::Transient)))
    );
    assert_eq!(w.phase(), Phase::Armed);
    assert_eq!(w.step(&kbot, tick_now()), Action::ReadImu);
}

#[test]
fn a_dispatch_with_a_missing_outcome_is_a_failure() {
    let kbot = bot();
    let mut w = walk();
    assert!(matches!(up_to_inference(&mut w, &kbot, states(|_| 0.0, |_| 0.0)), Action::Infer(_)));
    assert!(matches!(
        w.step(&kbot, Event::Inference(Ok(answer(|_| 0.0)))),
        Action::Dispatch(_)
    ));
    assert_eq!(
        w.step(&kbot, Event::Dispatched(vec![Ok(()); 9])),
        Action::Rest(TickOutcome::DispatchFailed(ControlError::Rpc(RpcError::Transient)))
    );
}

#[test]
fn every_vector_of_a_tick_is_in_the_one_order_of_the_joints() {
    let kbot = bot();
    let mut w = walk();
    let mut reported = states(|i| 100.0 + i as f64, |i| 200.0 + i as f64);
    reported.reverse();
    match up_to_inference(&mut w, &kbot, reported) {
        Action::Infer(observation) => {
            let expected_pos: Vec<Scalar> = (0..10).map(|i| num(100.0 + i as f64)).collect();
            let expected_vel: Vec<Scalar> = (0..10).map(|i| num(200.0 + i as f64)).collect();
            assert_eq!(observation.dof_pos, expected_pos);
            assert_eq!(observation.dof_vel, expected_vel);
        }
        other => panic!("expected a policy step, got {:?}", other),
    }
    let mut output = answer(|i| 300.0 + i as f64);
    output.targets.reverse();
    match w.step(&kbot, Event::Inference(Ok(output))) {
        Action::Dispatch(requests) => {
            let sent: Vec<(u32, Option<Scalar>)> = requests
                .iter()
                .map(|r| (r.commands[0].actuator_id, r.commands[0].position))
                .collect();
            let expected: Vec<(u32, Option<Scalar>)> =
                (0..10).map(|i| (IDS[i], Some(num(300.0 + i as f64)))).collect();
            assert_eq!(sent, expected);
        }
        other => panic!("expected a dispatch, got {:?}", other),
    }
    let remembered: Vec<Scalar> = (0..10).map(|i| num(300.0 + i as f64)).collect();
    assert_eq!(w.previous_action(), &remembered);
}

#[test]
fn the_previous_action_is_shown_to_the_policy_in_the_next_tick() {
    let kbot = bot();
    let mut w = walk();
    match up_to_inference(&mut w, &kbot, states(|_| 0.0, |_| 0.0)) {
        Action::Infer(observation) => assert_eq!(observation.actions, vec![num(0.0); 10]),
        other => panic!("expected a policy step, got {:?}", other),
    }
    assert!(matches!(
        w.step(&kbot, Event::Inference(Ok(answer(|i| 1.5 * i as f64)))),
        Action::Dispatch(_)
    ));
    assert_eq!(
        w.step(&kbot, Event::Dispatched(vec![Ok(()); 10])),
        Action::Rest(TickOutcome::Completed)
    );
    let given: Vec<Scalar> = (0..10).map(|i| num(1.5 * i as f64)).collect();
    match up_to_inference(&mut w, &kbot, states(|_| 0.0, |_| 0.0)) {
        Action::Infer(observation) => assert_eq!(observation.actions, given),
        other => panic!("expected a policy step, got {:?}", other),
    }
    assert_eq!(
        w.step(&kbot, Event::Inference(Err(InferenceError::Unreachable))),
        Action::Rest(TickOutcome::InferenceFailed(InferenceError::Unreachable))
    );
    match up_to_inference(&mut w, &kbot, states(|_| 0.0, |_| 0.0)) {
        Action::Infer(observation) => assert_eq!(observation.actions, given),
        other => panic!("expected a policy step, got {:?}", other),
    }
}

#[test]
fn the_walk_halts_at_the_first_boundary_past_the_deadline() {
    let kbot = bot();
    let mut w = walk();
    assert_eq!(w.step(&kbot, Event::Boundary { elapsed_secs: 5, cancelled: false }), Action::ReadImu);
    assert_eq!(
        w.step(&kbot, Event::Imu(Err(RpcError::Transient))),
        Action::Rest(TickOutcome::ImuFailed(RpcError::Transient))
    );
    assert_eq!(w.step(&kbot, Event::Boundary { elapsed_secs: 6, cancelled: false }), Action::Halt);
    assert_eq!(w.phase(), Phase::Stopped);
}

#[test]
fn the_walk_halts_at_a_boundary_when_cancelled() {
    let kbot = bot();
    let mut w = walk();
    assert_eq!(w.step(&kbot, Event::Boundary { elapsed_secs: 0, cancelled: true }), Action::Halt);
    assert_eq!(w.phase(), Phase::Stopped);
}

#[test]
fn a_halted_walk_stays_halted() {
    let kbot = bot();
    let mut w = walk();
    assert_eq!(w.step(&kbot, Event::Boundary { elapsed_secs: 60, cancelled: false }), Action::Halt);
    assert_eq!(w.step(&kbot, tick_now()), Action::Halt);
    assert_eq!(w.step(&kbot, Event::Imu(Ok(still()))), Action::Halt);
    assert_eq!(w.step(&kbot, Event::States(Ok(states(|_| 0.0, |_| 0.0)))), Action::Halt);
    assert_eq!(w.step(&kbot, Event::Inference(Ok(answer(|_| 0.0)))), Action::Halt);
    assert_eq!(w.step(&kbot, Event::Dispatched(vec![Ok(()); 10])), Action::Halt);
    assert_eq!(w.phase(), Phase::Stopped);
}

#[test]
fn a_tick_is_never_cut_short() {
    let kbot = bot();
    let mut w = walk();
    let stop = || Event::Boundary { elapsed_secs: 99, cancelled: true };
    assert_eq!(w.step(&kbot, tick_now()), Action::ReadImu);
    assert_eq!(w.step(&kbot, stop()), Action::Ignored);
    assert_eq!(w.phase(), Phase::Ticking(Stage::ReadingImu));
    assert!(matches!(w.step(&kbot, Event::Imu(Ok(still()))), Action::ReadStates(_)));
    assert_eq!(w.step(&kbot, stop()), Action::Ignored);
    assert!(matches!(
        w.step(&kbot, Event::States(Ok(states(|_| 0.0, |_| 0.0)))),
        Action::Infer(_)
    ));
    assert_eq!(w.step(&kbot, stop()), Action::Ignored);
    assert!(matches!(
        w.step(&kbot, Event::Inference(Ok(answer(|_| 0.0)))),
        Action::Dispatch(_)
    ));
    assert_eq!(w.step(&kbot, stop()), Action::Ignored);
    assert_eq!(w.phase(), Phase::Ticking(Stage::Dispatching));
    assert_eq!(
        w.step(&kbot, Event::Dispatched(vec![Ok(()); 10])),
        Action::Rest(TickOutcome::Completed)
    );
    assert_eq!(w.step(&kbot, stop()), Action::Halt);
}

#[test]
fn events_out_of_turn_change_nothing() {
    let kbot = bot();
    let mut w = walk();
    assert_eq!(w.step(&kbot, Event::Imu(Ok(still()))), Action::Ignored);
    assert_eq!(w.step(&kbot, Event::Inference(Ok(answer(|_| 7.0)))), Action::Ignored);
    assert_eq!(w.step(&kbot, Event::Dispatched(vec![Ok(()); 10])), Action::Ignored);
    assert_eq!(w.phase(), Phase::Armed);
    assert_eq!(w.previous_action(), &vec![num(0.0); 10]);
    assert_eq!(w.step(&kbot, tick_now()), Action::ReadImu);
    assert_eq!(w.step(&kbot, Event::States(Ok(states(|_| 0.0, |_| 0.0)))), Action::Ignored);
    assert_eq!(w.step(&kbot, Event::Inference(Ok(answer(|_| 7.0)))), Action::Ignored);
    assert_eq!(w.phase(), Phase::Ticking(Stage::ReadingImu));
    assert_eq!(w.previous_action(), &vec![num(0.0); 10]);
}

#[test]
fn a_walk_over_an_unknown_joint_is_refused() {
    let config = WalkConfig {
        duration_secs: 1,
        dof_set: vec![
            Dof { joint: Joint::LeftKnee, axis: Some(Axis::Pitch) },
            Dof { joint: Joint::LeftKnee, axis: Some(Axis::Yaw) },
            Dof { joint: Joint::LeftGripper, axis: Some(Axis::Yaw) },
        ],
        inference_endpoint: "http://policy.test/infer".to_string(),
        tick_period_ms: 20,
    };
    match WalkLoop::new(config) {
        Err(e) => assert_eq!(
            e,
            ControlError::UnknownJoint { joint: Joint::LeftKnee, axis: Some(Axis::Yaw) }
        ),
        Ok(w) => panic!("expected a refusal, got {:?}", w),
    }
}

#[test]
fn a_walk_over_chosen_joints_keeps_their_order() {
    let kbot = bot();
    let config = WalkConfig {
        duration_secs: 2,
        dof_set: vec![
            Dof { joint: Joint::LeftGripper, axis: None },
            Dof { joint: Joint::RightShoulder, axis: Some(Axis::Pitch) },
        ],
        inference_endpoint: "http://policy.test/infer".to_string(),
        tick_period_ms: 20,
    };
    let mut w = WalkLoop::new(config).expect("both joints exist");
    assert_eq!(w.actuators(), &vec![14, 22]);
    assert_eq!(w.previous_action(), &vec![num(0.0); 2]);
    assert_eq!(w.step(&kbot, Event::Boundary { elapsed_secs: 2, cancelled: false }), Action::ReadImu);
    match w.step(&kbot, Event::Imu(Ok(still()))) {
        Action::ReadStates(request) => assert_eq!(request.actuator_ids, vec![14, 22]),
        other => panic!("expected a state read, got {:?}", other),
    }
    let reported = vec![
        ActuatorState { actuator_id: 22, position: Some(num(2.0)), velocity: None },
        ActuatorState { actuator_id: 14, position: None, velocity: Some(num(4.0)) },
    ];
    match w.step(&kbot, Event::States(Ok(reported))) {
        Action::Infer(observation) => {
            assert_eq!(observation.dof_pos, vec![num(0.0), num(2.0)]);
            assert_eq!(observation.dof_vel, vec![num(4.0), num(0.0)]);
        }
        other => panic!("expected a policy step, got {:?}", other),
    }
    let output = PolicyOutput {
        targets: vec![
            PolicyTarget { name: "R_Shoulder_Pitch".to_string(), angle: num(22.0) },
            PolicyTarget { name: "L_Gripper".to_string(), angle: num(14.0) },
        ],
    };
    match w.step(&kbot, Event::Inference(Ok(output))) {
        Action::Dispatch(requests) => {
            assert_eq!(requests.len(), 2);
            assert_eq!(requests[0].commands[0].actuator_id, 14);
            assert_eq!(requests[0].commands[0].position, Some(num(14.0)));
            assert_eq!(requests[1].commands[0].actuator_id, 22);
            assert_eq!(requests[1].commands[0].position, Some(num(22.0)));
        }
        other => panic!("expected a dispatch, got {:?}", other),
    }
    assert_eq!(
        w.step(&kbot, Event::Dispatched(vec![Ok(()), Ok(())])),
        Action::Rest(TickOutcome::Completed)
    );
    assert_eq!(w.step(&kbot, Event::Boundary { elapsed_secs: 3, cancelled: false }), Action::Halt);
}

#[test]
fn an_observation_takes_angles_and_rates_in_the_order_of_the_states() {
    let imu = ImuValues { gyro: triple(1.0, 2.0, 3.0), accel: triple(4.0, 5.0, 6.0) };
    let reported = vec![
        ActuatorState { actuator_id: 1, position: Some(num(10.0)), velocity: Some(num(-10.0)) },
        ActuatorState { actuator_id: 2, position: None, velocity: Some(num(-20.0)) },
        ActuatorState { actuator_id: 3, position: Some(num(30.0)), velocity: None },
    ];
    let previous = vec![num(7.0), num(8.0), num(9.0)];
    let observation = assemble(imu, &reported, &previous);
    assert_eq!(observation.base_ang_vel, triple(1.0, 2.0, 3.0));
    assert_eq!(observation.accel, triple(4.0, 5.0, 6.0));
    assert_eq!(observation.commands, triple(0.6, 0.0, 0.0));
    assert_eq!(observation.dof_pos, vec![num(10.0), num(0.0), num(30.0)]);
    assert_eq!(observation.dof_vel, vec![num(-10.0), num(-20.0), num(0.0)]);
    assert_eq!(observation.actions, previous);
}

#[test]
fn the_answer_of_the_policy_is_carried_to_the_legs() {
    let kbot = bot();
    let mut output = answer(|i| 10.0 * i as f64);
    output.targets.rotate_left(3);
    let requests = command_all_joints(&output, &kbot).expect("every leg joint is answered");
    let sent: Vec<(u32, Option<Scalar>, Option<Scalar>, Option<Scalar>)> = requests
        .iter()
        .map(|r| {
            assert_eq!(r.commands.len(), 1);
            let c = r.commands[0];
            (c.actuator_id, c.position, c.velocity, c.torque)
        })
        .collect();
    let expected: Vec<(u32, Option<Scalar>, Option<Scalar>, Option<Scalar>)> =
        (0..10).map(|i| (IDS[i], Some(num(10.0 * i as f64)), None, None)).collect();
    assert_eq!(sent, expected);
}

#[test]
fn an_answer_that_lacks_a_leg_joint_carries_nothing() {
    let kbot = bot();
    let mut output = answer(|_| 0.0);
    output.targets.pop();
    assert_eq!(command_all_joints(&output, &kbot), Err(InferenceError::Malformed));
}
