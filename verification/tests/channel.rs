use mqtt_sweep::channel::{Closed, ControlChannel};
use mqtt_sweep::params::ControlMessage;

#[test]
fn messages_arrive_in_the_order_of_sending() {
    let mut channel = ControlChannel::new();
    assert_eq!(channel.send(ControlMessage::qos(1)), Ok(()));
    assert_eq!(channel.send(ControlMessage::delay(50)), Ok(()));
    assert_eq!(channel.waiting(), 2);
    assert_eq!(channel.receive(), Ok(Some(ControlMessage::qos(1))));
    assert_eq!(channel.receive(), Ok(Some(ControlMessage::delay(50))));
    assert_eq!(channel.receive(), Ok(None));
    assert_eq!(channel.waiting(), 0);
}

#[test]
fn nothing_is_doubled_or_lost() {
    let mut channel = ControlChannel::new();
    let mut sent = Vec::new();
    let mut received = Vec::new();
    for round in 0..20 {
        let message = if round % 2 == 0 { ControlMessage::qos(round % 3) } else { ControlMessage::delay(round * 10) };
        assert_eq!(channel.send(message), Ok(()));
        sent.push(message);
        if round % 3 == 0 {
            received.push(channel.receive().unwrap().unwrap());
        }
    }
    while let Ok(Some(message)) = channel.receive() {
        received.push(message);
    }
    assert_eq!(sent, received);
}

#[test]
fn send_fails_once_the_receiver_is_gone() {
    let mut channel = ControlChannel::new();
    assert_eq!(channel.send(ControlMessage::qos(1)), Ok(()));
    channel.close_receiver();
    assert!(!channel.is_open());
    assert_eq!(channel.send(ControlMessage::qos(2)), Err(Closed));
    assert_eq!(channel.waiting(), 1);
    assert_eq!(channel.receive(), Err(Closed));
}

#[test]
fn waiting_messages_outlive_the_sender() {
    let mut channel = ControlChannel::new();
    assert_eq!(channel.send(ControlMessage::delay(10)), Ok(()));
    channel.close_sender();
    assert_eq!(channel.send(ControlMessage::delay(20)), Err(Closed));
    assert_eq!(channel.receive(), Ok(Some(ControlMessage::delay(10))));
    assert_eq!(channel.receive(), Err(Closed));
    assert_eq!(channel.receive(), Err(Closed));
}

#[test]
fn empty_open_channel_has_nothing_yet() {
    let mut channel = ControlChannel::new();
    assert!(channel.is_open());
    assert_eq!(channel.receive(), Ok(None));
    channel.close_sender();
    assert_eq!(channel.receive(), Err(Closed));
}
