use mqtt_sweep::config::{Client, Config, Credentials, PublisherConnection, SubscriberConnection};
use mqtt_sweep::connector::{publisher_settings, subscriber_settings, LastWill};
use mqtt_sweep::coordinator::{conclude, Exit, Publishing, Role, SweepCoordinator, Verdict};
use mqtt_sweep::driver::DriverPhase;
use mqtt_sweep::fatal::Fatal;
use mqtt_sweep::probe::{ProbeMode, ProbePhase};
use mqtt_sweep::source::SourcePhase;

fn config(subscriber_topics: Vec<&str>) -> Config {
    Config {
        broker: String::from("tcp://broker:1883"),
        creds: Credentials { username: String::from("user"), password: String::from("pass") },
        client: Client { keep_alive: 20000, timeout: 5000, clean_session: false },
        subscriber_connection: SubscriberConnection {
            id: String::from("sub"),
            retries: 3,
            retry_duration: 2500,
            topics: subscriber_topics.into_iter().map(String::from).collect(),
        },
        publisher_connection: PublisherConnection {
            id: String::from("pub"),
            topics: vec![String::from("counter/{qos}/{delay}")],
            message_quantity: 10,
        },
    }
}

#[test]
fn clean_exits_complete_the_run() {
    assert_eq!(conclude(Exit::Clean, Exit::Clean), Verdict::Completed);
}

#[test]
fn no_failure_is_passed_over() {
    let exits = [Exit::Clean, Exit::Panicked, Exit::Aborted(Fatal::ConnectFailed), Exit::Aborted(Fatal::MissingTopic)];
    for driver in exits {
        for probe in exits {
            let verdict = conclude(driver, probe);
            if driver != Exit::Clean {
                assert_eq!(verdict, Verdict::Failed { role: Role::Driver, exit: driver });
            } else if probe != Exit::Clean {
                assert_eq!(verdict, Verdict::Failed { role: Role::Probe, exit: probe });
            } else {
                assert_eq!(verdict, Verdict::Completed);
            }
        }
    }
}

#[test]
fn templated_probe_is_wired_to_a_source() {
    let mut run = SweepCoordinator::new(&config(vec!["counter/{qos}/{delay}"]));
    assert_eq!(run.probe.mode(), ProbeMode::Templated);
    assert_eq!(run.probe.phase(), ProbePhase::Idle);
    assert!(run.channel.is_open());
    assert_eq!(run.channel.receive(), Ok(None));
    match run.publishing {
        Publishing::Source(source) => assert_eq!(source.phase(), SourcePhase::Idle),
        Publishing::Controlled(_) => panic!("expected a source"),
    }
}

#[test]
fn static_probe_is_wired_to_a_controlled_driver() {
    let run = SweepCoordinator::new(&config(vec!["request/qos", "request/delay"]));
    assert_eq!(run.probe.mode(), ProbeMode::Static);
    match run.publishing {
        Publishing::Controlled(driver) => assert_eq!(driver.phase(), DriverPhase::Idle),
        Publishing::Source(_) => panic!("expected a controlled driver"),
    }
}

#[test]
fn settings_come_from_the_configuration() {
    let config = config(vec!["request/qos", "request/delay"]);
    let publisher = publisher_settings(&config);
    assert_eq!(publisher.server_uri, "tcp://broker:1883");
    assert_eq!(publisher.client_id, "pub");
    assert_eq!(publisher.keep_alive, 20000);
    assert!(!publisher.clean_session);
    assert_eq!(publisher.user_name, "user");
    assert_eq!(publisher.password, "pass");
    assert_eq!(publisher.connect_timeout, 5000);
    assert_eq!(publisher.will, None);
    let subscriber = subscriber_settings(&config);
    assert_eq!(subscriber.client_id, "sub");
    assert_eq!(subscriber.server_uri, "tcp://broker:1883");
    assert_eq!(subscriber.keep_alive, 20000);
    assert_eq!(subscriber.connect_timeout, 5000);
    assert_eq!(
        subscriber.will,
        Some(LastWill { topic: String::from("test"), payload: String::from("Consumer lost connection") })
    );
}
