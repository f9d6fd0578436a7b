use mqtt_sweep::channel::ControlChannel;
use mqtt_sweep::config::{Client, Config, Credentials, PublisherConnection, SubscriberConnection};
use mqtt_sweep::driver::{Driver, DriverAction, DriverEvent};
use mqtt_sweep::marker::payload;
use mqtt_sweep::plan::SweepPlan;
use mqtt_sweep::probe::{Probe, ProbeAction, ProbeEvent, ProbeMode};
use mqtt_sweep::source::{SourceAction, SourceEvent, SweepSource};

fn configuration(subscriber_topics: Vec<&str>, message_quantity: i32) -> Config {
    Config {
        broker: String::from("tcp://localhost:1883"),
        creds: Credentials { username: String::from("user"), password: String::from("pass") },
        client: Client { keep_alive: 20000, timeout: 5000, clean_session: true },
        subscriber_connection: SubscriberConnection {
            id: String::from("sub"),
            retries: 3,
            retry_duration: 2500,
            topics: subscriber_topics.into_iter().map(String::from).collect(),
        },
        publisher_connection: PublisherConnection {
            id: String::from("pub"),
            topics: vec![String::from("counter/{qos}/{delay}")],
            message_quantity,
        },
    }
}

/// The watching side: the actor that follows the source from topic to topic.
struct Watcher {
    probe: Probe,
    channel: ControlChannel,
    topic: Option<String>,
    heard: Vec<(String, usize)>,
    count: usize,
}

impl Watcher {
    fn settle(&mut self, mut action: ProbeAction) {
        loop {
            let event = match action {
                ProbeAction::Receive { report } => {
                    assert_eq!(report, None);
                    match self.channel.receive() {
                        Ok(Some(message)) => ProbeEvent::Received(message),
                        Ok(None) => return,
                        Err(_) => ProbeEvent::ChannelClosed,
                    }
                }
                ProbeAction::Connect => ProbeEvent::Connected,
                ProbeAction::Subscribe { topics, qos } => {
                    assert_eq!(topics.len(), 1);
                    assert_eq!(qos, vec![2]);
                    self.topic = Some(topics[0].clone());
                    self.count = 0;
                    ProbeEvent::Subscribed
                }
                ProbeAction::Consume => return,
                ProbeAction::Release => {
                    let topic = self.topic.take().unwrap();
                    self.heard.push((topic, self.count));
                    ProbeEvent::Released
                }
                ProbeAction::Disconnect => return,
                other => panic!("{:?}", other),
            };
            action = self.probe.step(event);
        }
    }

    fn deliver(&mut self, topic: &str, payload: &str, qos: i32) {
        if self.topic.as_deref() == Some(topic) {
            self.count += 1;
            let action = self.probe.hear(topic, payload, qos);
            self.settle(action);
        }
    }
}

/// The steered side: the actor that listens for requests, and the actor that publishes.
struct Steered {
    probe: Probe,
    driver: Driver,
    channel: ControlChannel,
    published: Vec<(String, i32, i32)>,
}

impl Steered {
    fn request(&mut self, topic: &str, body: &str, qos: i32, watcher: &mut Watcher) {
        match self.probe.hear(topic, body, qos) {
            ProbeAction::Forward(message) => {
                self.channel.send(message).unwrap();
                assert_eq!(self.probe.step(ProbeEvent::Forwarded), ProbeAction::Consume);
            }
            other => panic!("{:?}", other),
        }
        let mut action = DriverAction::Receive { report: None };
        loop {
            let event = match action {
                DriverAction::Receive { report } => {
                    assert_eq!(report, None);
                    match self.channel.receive() {
                        Ok(Some(message)) => DriverEvent::Received(message),
                        Ok(None) => return,
                        Err(_) => DriverEvent::ChannelClosed,
                    }
                }
                DriverAction::Publish { topic, index, qos } => {
                    self.published.push((topic.clone(), index, qos));
                    watcher.deliver(&topic, &payload(index, "2020-01-01T00:00:00Z"), qos);
                    DriverEvent::Published
                }
                DriverAction::Rest { .. } => DriverEvent::Rested,
                other => panic!("{:?}", other),
            };
            action = self.driver.step(event);
        }
    }
}

#[test]
fn standard_sweep_runs_from_end_to_end() {
    let quantity = 3;
    let watching = configuration(vec!["counter/{qos}/{delay}"], quantity);
    let steering = configuration(vec!["request/qos", "request/delay"], quantity);

    let mut source = SweepSource::new(SweepPlan::standard());
    let mut watcher = Watcher {
        probe: Probe::new(&watching),
        channel: ControlChannel::new(),
        topic: None,
        heard: Vec::new(),
        count: 0,
    };
    assert_eq!(watcher.probe.mode(), ProbeMode::Templated);
    let first = watcher.probe.step(ProbeEvent::Started);
    watcher.settle(first);

    let mut steered = Steered {
        probe: Probe::new(&steering),
        driver: Driver::new(&steering),
        channel: ControlChannel::new(),
        published: Vec::new(),
    };
    assert_eq!(steered.probe.mode(), ProbeMode::Static);
    assert_eq!(steered.probe.step(ProbeEvent::Started), ProbeAction::Connect);
    assert!(matches!(steered.probe.step(ProbeEvent::Connected), ProbeAction::Subscribe { .. }));
    assert_eq!(steered.probe.step(ProbeEvent::Subscribed), ProbeAction::Consume);
    assert_eq!(steered.driver.step(DriverEvent::Started), DriverAction::Connect);
    assert_eq!(steered.driver.step(DriverEvent::Connected), DriverAction::Receive { report: None });

    let mut action = source.step(SourceEvent::Started);
    loop {
        let event = match action {
            SourceAction::Connect => SourceEvent::Connected,
            SourceAction::Notify(message) => {
                watcher.channel.send(message).unwrap();
                watcher.settle(ProbeAction::Receive { report: None });
                SourceEvent::Notified
            }
            SourceAction::Publish { topic, payload, qos } => {
                steered.request(&topic, &payload, qos, &mut watcher);
                SourceEvent::Published
            }
            SourceAction::Rest { .. } => SourceEvent::Rested,
            SourceAction::Disconnect => break,
            other => panic!("{:?}", other),
        };
        action = source.step(event);
    }

    let mut expected_heard = Vec::new();
    let mut expected_published = Vec::new();
    for qos in [0, 1, 2] {
        for delay in [0, 10, 20, 50, 100, 500] {
            let topic = format!("counter/{}/{}", qos, delay);
            expected_heard.push((topic.clone(), 3));
            for index in 0..3 {
                expected_published.push((topic.clone(), index, qos));
            }
        }
    }
    assert_eq!(watcher.heard, expected_heard);
    assert_eq!(steered.published, expected_published);
    assert_eq!(watcher.heard.len(), 18);
}
