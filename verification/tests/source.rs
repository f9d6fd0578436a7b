use mqtt_sweep::fatal::Fatal;
use mqtt_sweep::params::ControlMessage;
use mqtt_sweep::plan::SweepPlan;
use mqtt_sweep::source::{SourceAction, SourceEvent, SourcePhase, Stage, SweepSource, SETTLE_MILLIS};

fn outcome_of(action: &SourceAction) -> SourceEvent {
    match action {
        SourceAction::Connect => SourceEvent::Connected,
        SourceAction::Notify(_) => SourceEvent::Notified,
        SourceAction::Publish { .. } => SourceEvent::Published,
        SourceAction::Rest { .. } => SourceEvent::Rested,
        other => panic!("{:?}", other),
    }
}

fn walk(plan: SweepPlan) -> Vec<SourceAction> {
    let mut source = SweepSource::new(plan);
    let mut actions = Vec::new();
    let mut action = source.step(SourceEvent::Started);
    while action != SourceAction::Disconnect {
        let event = outcome_of(&action);
        actions.push(action);
        action = source.step(event);
    }
    assert_eq!(source.phase(), SourcePhase::Disconnected);
    actions
}

fn publish(topic: &str, payload: &str, qos: i32) -> SourceAction {
    SourceAction::Publish { topic: String::from(topic), payload: String::from(payload), qos }
}

#[test]
fn one_level_two_delays() {
    let actions = walk(SweepPlan::new(vec![1], vec![0, 10]));
    assert_eq!(
        actions,
        vec![
            SourceAction::Connect,
            SourceAction::Notify(ControlMessage::qos(1)),
            publish("request/qos", "0", 1),
            SourceAction::Notify(ControlMessage::delay(0)),
            SourceAction::Rest { millis: 2000 },
            publish("request/delay", "0", 1),
            SourceAction::Rest { millis: 80000 },
            SourceAction::Notify(ControlMessage::delay(10)),
            SourceAction::Rest { millis: 2000 },
            publish("request/delay", "10", 1),
            SourceAction::Rest { millis: 80000 },
        ]
    );
    assert_eq!(SETTLE_MILLIS, 2000);
}

#[test]
fn standard_plan_announces_every_point_in_order() {
    let actions = walk(SweepPlan::standard());
    let notices: Vec<ControlMessage> = actions
        .iter()
        .filter_map(|action| match action {
            SourceAction::Notify(message) => Some(*message),
            _ => None,
        })
        .collect();
    let mut expected = Vec::new();
    for qos in [0, 1, 2] {
        for delay in [0, 10, 20, 50, 100, 500] {
            if delay == 0 {
                expected.push(ControlMessage::from_pair(qos, -1));
            }
            expected.push(ControlMessage::from_pair(-1, delay));
        }
    }
    assert_eq!(notices, expected);
    assert_eq!(notices.len(), 21);
    let dwell: Vec<u64> = actions
        .iter()
        .filter_map(|action| match action {
            SourceAction::Rest { millis } if *millis != 2000 => Some(*millis),
            _ => None,
        })
        .collect();
    assert_eq!(dwell.len(), 18);
    assert_eq!(dwell[0], 40000);
    assert_eq!(dwell[6], 80000);
    assert_eq!(dwell[17], 120000);
}

#[test]
fn empty_plan_ends_at_once() {
    assert_eq!(walk(SweepPlan::new(vec![], vec![0])), vec![SourceAction::Connect]);
    assert_eq!(walk(SweepPlan::new(vec![0], vec![])), vec![SourceAction::Connect]);
}

#[test]
fn closed_channel_ends_the_sweep() {
    let mut source = SweepSource::new(SweepPlan::standard());
    assert_eq!(source.step(SourceEvent::Started), SourceAction::Connect);
    assert_eq!(source.step(SourceEvent::Connected), SourceAction::Notify(ControlMessage::qos(0)));
    assert_eq!(source.step(SourceEvent::NotifyFailed), SourceAction::Disconnect);
    assert_eq!(source.phase(), SourcePhase::Disconnected);
}

#[test]
fn publish_failure_moves_on_to_the_next_level() {
    let mut source = SweepSource::new(SweepPlan::new(vec![0, 2], vec![0, 10]));
    source.step(SourceEvent::Started);
    assert_eq!(source.step(SourceEvent::Connected), SourceAction::Notify(ControlMessage::qos(0)));
    assert_eq!(source.step(SourceEvent::Notified), publish("request/qos", "0", 0));
    assert_eq!(source.step(SourceEvent::PublishFailed), SourceAction::Notify(ControlMessage::qos(2)));
    assert_eq!(source.phase(), SourcePhase::At { level: 1, delay: 0, stage: Stage::AnnounceQos });
    assert_eq!(source.step(SourceEvent::Notified), publish("request/qos", "0", 2));
    assert_eq!(source.step(SourceEvent::Published), SourceAction::Notify(ControlMessage::delay(0)));
    assert_eq!(source.step(SourceEvent::Notified), SourceAction::Rest { millis: 2000 });
    assert_eq!(source.step(SourceEvent::Rested), publish("request/delay", "0", 2));
    assert_eq!(source.step(SourceEvent::PublishFailed), SourceAction::Disconnect);
}

#[test]
fn connect_failure_and_stray_events_are_fatal() {
    let mut source = SweepSource::new(SweepPlan::standard());
    source.step(SourceEvent::Started);
    assert_eq!(source.step(SourceEvent::ConnectFailed), SourceAction::Abort(Fatal::ConnectFailed));
    let mut source = SweepSource::new(SweepPlan::standard());
    assert_eq!(source.step(SourceEvent::Rested), SourceAction::Abort(Fatal::OutOfTurn));
    let mut source = SweepSource::new(SweepPlan::standard());
    source.step(SourceEvent::Started);
    source.step(SourceEvent::Connected);
    assert_eq!(source.step(SourceEvent::Published), SourceAction::Abort(Fatal::OutOfTurn));
    assert_eq!(source.phase(), SourcePhase::Disconnected);
}

#[test]
fn delay_zero_anywhere_announces_the_level() {
    let actions = walk(SweepPlan::new(vec![2], vec![10, 0]));
    let notices: Vec<ControlMessage> = actions
        .iter()
        .filter_map(|action| match action {
            SourceAction::Notify(message) => Some(*message),
            _ => None,
        })
        .collect();
    assert_eq!(
        notices,
        vec![ControlMessage::delay(10), ControlMessage::qos(2), ControlMessage::delay(0)]
    );
}
