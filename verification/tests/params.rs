use mqtt_sweep::params::{
    check_range, ActorState, Applied, ControlMessage, Parameter, RangeError, DELAY_LONGEST,
    UNCHANGED,
};

#[test]
fn actor_starts_at_the_lowest_values() {
    let state = ActorState::new();
    assert_eq!(state.current_qos, 0);
    assert_eq!(state.current_delay, 0);
}

#[test]
fn qos_in_range_is_adopted() {
    for q in 0..=2 {
        let mut state = ActorState { current_qos: 1, current_delay: 20 };
        assert_eq!(state.apply(ControlMessage::qos(q), DELAY_LONGEST), Applied::QosAdopted(q));
        assert_eq!(state, ActorState { current_qos: q, current_delay: 20 });
    }
}

#[test]
fn qos_out_of_range_is_rejected_and_changes_nothing() {
    for q in [-2147483648, -2, -1, 3, 4, 100, 2147483647] {
        let mut state = ActorState { current_qos: 1, current_delay: 20 };
        let expected = RangeError { parameter: Parameter::Qos, value: q, low: 0, high: 2 };
        assert_eq!(state.apply(ControlMessage::qos(q), DELAY_LONGEST), Applied::Rejected(expected));
        assert_eq!(state, ActorState { current_qos: 1, current_delay: 20 });
    }
}

#[test]
fn delay_in_range_is_adopted() {
    for d in [0, 1, 10, 20, 50, 100, 499, 500] {
        let mut state = ActorState { current_qos: 2, current_delay: 7 };
        assert_eq!(state.apply(ControlMessage::delay(d), 500), Applied::DelayAdopted(d));
        assert_eq!(state, ActorState { current_qos: 2, current_delay: d });
    }
}

#[test]
fn delay_out_of_range_is_rejected_and_changes_nothing() {
    for d in [-2147483648, -5, -1, 501, 1000, 2147483647] {
        let mut state = ActorState { current_qos: 2, current_delay: 7 };
        let expected = RangeError { parameter: Parameter::Delay, value: d, low: 0, high: 500 };
        assert_eq!(state.apply(ControlMessage::delay(d), 500), Applied::Rejected(expected));
        assert_eq!(state, ActorState { current_qos: 2, current_delay: 7 });
    }
}

#[test]
fn delay_range_follows_the_configured_maximum() {
    let mut state = ActorState::new();
    assert_eq!(state.apply(ControlMessage::delay(501), 1000), Applied::DelayAdopted(501));
    assert_eq!(state.current_delay, 501);
    let mut state = ActorState::new();
    assert!(matches!(state.apply(ControlMessage::delay(0), -1), Applied::Rejected(_)));
    assert_eq!(state.current_delay, 0);
}

#[test]
fn level_is_looked_at_before_delay() {
    let mut state = ActorState::new();
    let both = ControlMessage { qos: Some(2), delay: Some(50) };
    assert_eq!(state.apply(both, 500), Applied::QosAdopted(2));
    assert_eq!(state, ActorState { current_qos: 2, current_delay: 0 });
    let bad_level = ControlMessage { qos: Some(9), delay: Some(50) };
    assert!(matches!(state.apply(bad_level, 500), Applied::Rejected(_)));
    assert_eq!(state, ActorState { current_qos: 2, current_delay: 0 });
}

#[test]
fn empty_message_changes_nothing() {
    let mut state = ActorState { current_qos: 1, current_delay: 10 };
    assert_eq!(state.apply(ControlMessage { qos: None, delay: None }, 500), Applied::Unchanged);
    assert_eq!(state, ActorState { current_qos: 1, current_delay: 10 });
}

#[test]
fn pairs_use_minus_one_for_unchanged() {
    assert_eq!(UNCHANGED, -1);
    assert_eq!(ControlMessage::from_pair(1, -1), ControlMessage::qos(1));
    assert_eq!(ControlMessage::from_pair(-1, 50), ControlMessage::delay(50));
    assert_eq!(ControlMessage::from_pair(-1, -1), ControlMessage { qos: None, delay: None });
    assert_eq!(ControlMessage::from_pair(-2, 3), ControlMessage { qos: Some(-2), delay: Some(3) });
    assert_eq!(ControlMessage::qos(1).to_pair(), (1, -1));
    assert_eq!(ControlMessage::delay(50).to_pair(), (-1, 50));
    assert_eq!(ControlMessage { qos: None, delay: None }.to_pair(), (-1, -1));
}

#[test]
fn check_range_hands_the_value_back_or_the_error() {
    assert_eq!(check_range(Parameter::Qos, 0, 0, 2), Ok(0));
    assert_eq!(check_range(Parameter::Qos, 2, 0, 2), Ok(2));
    assert_eq!(
        check_range(Parameter::Delay, 501, 0, 500),
        Err(RangeError { parameter: Parameter::Delay, value: 501, low: 0, high: 500 })
    );
}

#[test]
fn range_error_reports_itself() {
    let error = RangeError { parameter: Parameter::Qos, value: 7, low: 0, high: 2 };
    assert_eq!(error.message(), "QoS was not within range 0..=2: 7");
    let error = RangeError { parameter: Parameter::Delay, value: -3, low: 0, high: 500 };
    assert_eq!(error.message(), "Delay was not within range 0..=500: -3");
    assert_eq!(error.message(), format!("{} was not within range {:?}: {}", "Delay", 0..=500, -3));
}
