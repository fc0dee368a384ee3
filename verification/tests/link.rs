use kbot_control::link::{configure, read_states, state_request};
use kbot_control::{ActuatorSettings, ActuatorState, RpcError, Scalar};

fn num(x: f64) -> Scalar {
    Scalar::from_bits(x.to_bits())
}

fn report(id: u32, position: f64, velocity: f64) -> ActuatorState {
    ActuatorState { actuator_id: id, position: Some(num(position)), velocity: Some(num(velocity)) }
}

#[test]
fn states_line_up_with_the_identifiers_asked_about() {
    let ids = vec![43, 33, 41];
    let reply = vec![report(43, 1.0, 10.0), report(33, 2.0, 20.0), report(41, 3.0, 30.0)];
    assert_eq!(read_states(&ids, Ok(reply.clone())), Ok(reply));
}

#[test]
fn states_line_up_whatever_order_the_service_answers_in() {
    let ids = vec![43, 33, 41];
    let expected = vec![report(43, 1.0, 10.0), report(33, 2.0, 20.0), report(41, 3.0, 30.0)];
    let orders: Vec<Vec<usize>> = vec![
        vec![0, 1, 2],
        vec![0, 2, 1],
        vec![1, 0, 2],
        vec![1, 2, 0],
        vec![2, 0, 1],
        vec![2, 1, 0],
    ];
    for order in orders {
        let reply: Vec<ActuatorState> = order.iter().map(|&i| expected[i]).collect();
        assert_eq!(read_states(&ids, Ok(reply)), Ok(expected.clone()));
    }
}

#[test]
fn reports_nobody_asked_for_are_left_out() {
    let ids = vec![34, 35];
    let reply = vec![report(11, 9.0, 9.0), report(35, 5.0, 50.0), report(34, 4.0, 40.0), report(45, 7.0, 7.0)];
    assert_eq!(
        read_states(&ids, Ok(reply)),
        Ok(vec![report(34, 4.0, 40.0), report(35, 5.0, 50.0)])
    );
}

#[test]
fn the_first_report_for_an_actuator_is_the_one_read() {
    let ids = vec![34];
    let reply = vec![report(35, 0.0, 0.0), report(34, 4.0, 40.0), report(34, 8.0, 80.0)];
    assert_eq!(read_states(&ids, Ok(reply)), Ok(vec![report(34, 4.0, 40.0)]));
}

#[test]
fn an_identifier_asked_about_twice_is_read_twice() {
    let ids = vec![34, 34];
    let reply = vec![report(34, 4.0, 40.0)];
    assert_eq!(
        read_states(&ids, Ok(reply)),
        Ok(vec![report(34, 4.0, 40.0), report(34, 4.0, 40.0)])
    );
}

#[test]
fn a_missing_report_is_a_transient_failure() {
    let ids = vec![43, 33, 41];
    let reply = vec![report(43, 1.0, 10.0), report(41, 3.0, 30.0)];
    assert_eq!(read_states(&ids, Ok(reply)), Err(RpcError::Transient));
    assert_eq!(read_states(&ids, Ok(Vec::new())), Err(RpcError::Transient));
}

#[test]
fn a_failed_call_stays_the_failure_it_was() {
    let ids = vec![43];
    assert_eq!(read_states(&ids, Err(RpcError::Transient)), Err(RpcError::Transient));
    assert_eq!(read_states(&ids, Err(RpcError::Connect)), Err(RpcError::Connect));
    assert_eq!(read_states(&Vec::new(), Err(RpcError::Connect)), Err(RpcError::Connect));
}

#[test]
fn asking_about_nothing_reads_nothing() {
    assert_eq!(read_states(&Vec::new(), Ok(vec![report(43, 1.0, 1.0)])), Ok(Vec::new()));
}

#[test]
fn a_state_request_names_its_actuators_in_order() {
    let ids = vec![45, 11, 33, 11];
    assert_eq!(state_request(&ids).actuator_ids, ids);
    assert_eq!(state_request(&Vec::new()).actuator_ids, Vec::<u32>::new());
}

#[test]
fn configuration_switches_torque_on_and_touches_nothing_else() {
    let request = configure(33, ActuatorSettings::torque_on());
    assert_eq!(request.actuator_id, 33);
    assert_eq!(request.torque_enabled, Some(true));
    assert_eq!(request.kp, None);
    assert_eq!(request.kd, None);
    assert_eq!(request.ki, None);
    assert_eq!(request.max_torque, None);
    assert_eq!(request.protective_torque, None);
    assert_eq!(request.protection_time, None);
    assert_eq!(request.new_actuator_id, None);
    assert_eq!(request.zero_position, None);
}

#[test]
fn an_unreported_angle_or_rate_reads_as_zero() {
    let silent = ActuatorState { actuator_id: 31, position: None, velocity: None };
    assert_eq!(silent.position(), num(0.0));
    assert_eq!(silent.velocity(), num(0.0));
    let loud = report(31, -7.25, 3.5);
    assert_eq!(f64::from_bits(loud.position().to_bits()), -7.25);
    assert_eq!(f64::from_bits(loud.velocity().to_bits()), 3.5);
}

#[test]
fn configuration_carries_gains_and_limits_as_given() {
    let settings = ActuatorSettings {
        kp: Some(num(32.0)),
        kd: Some(num(0.5)),
        ki: None,
        max_torque: Some(num(80.0)),
        protective_torque: None,
        protection_time: Some(1.5f32.to_bits()),
        torque_enabled: Some(false),
    };
    let request = configure(45, settings);
    assert_eq!(request.actuator_id, 45);
    assert_eq!(request.kp, Some(num(32.0)));
    assert_eq!(request.kd, Some(num(0.5)));
    assert_eq!(request.ki, None);
    assert_eq!(request.max_torque, Some(num(80.0)));
    assert_eq!(request.protective_torque, None);
    assert_eq!(request.protection_time.map(f32::from_bits), Some(1.5));
    assert_eq!(request.torque_enabled, Some(false));
    assert_eq!(request.new_actuator_id, None);
    assert_eq!(request.zero_position, None);
}
