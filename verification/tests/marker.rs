use mqtt_sweep::config::{Client, Config, Credentials, PublisherConnection, SubscriberConnection};
use mqtt_sweep::marker::{
    final_index_in, final_marker_for, is_final_message, is_readable, payload, read_final_marker,
};
use std::sync::Arc;

fn config_with_quantity(message_quantity: i32) -> Arc<Config> {
    Arc::new(Config {
        broker: String::from("tcp://localhost:1883"),
        creds: Credentials { username: String::from("user"), password: String::from("pass") },
        client: Client { keep_alive: 20000, timeout: 5000, clean_session: true },
        subscriber_connection: SubscriberConnection {
            id: String::from("sub"),
            retries: 3,
            retry_duration: 10,
            topics: vec![String::from("counter/{qos}/{delay}")],
        },
        publisher_connection: PublisherConnection {
            id: String::from("pub"),
            topics: vec![String::from("counter/{qos}/{delay}")],
            message_quantity,
        },
    })
}

#[test]
fn payload_joins_index_and_stamp() {
    assert_eq!(payload(0, "2020-01-01T00:00:00Z"), "0 :: 2020-01-01T00:00:00Z");
    assert_eq!(payload(41, ""), "41 :: ");
    assert_eq!(payload(-3, "x"), "-3 :: x");
}

#[test]
fn last_index_marks_the_end_of_a_burst() {
    let config = config_with_quantity(10);
    assert!(is_final_message("9 :: 2020-01-01T00:00:00Z", config.clone()));
    assert!(!is_final_message("8 :: 2020-01-01T00:00:00Z", config.clone()));
    assert!(!is_final_message("10 :: 2020-01-01T00:00:00Z", config.clone()));
    assert!(is_final_message(&payload(9, "stamp"), config));
}

#[test]
fn payload_without_separator_marks_nothing() {
    let config = config_with_quantity(10);
    assert!(!is_final_message("9", config.clone()));
    assert!(!is_final_message("9::x", config.clone()));
    assert!(!is_final_message("9 ::x", config.clone()));
    assert!(!is_final_message("", config.clone()));
    assert_eq!(read_final_marker("9 : : x", config), Some(false));
}

#[test]
fn separator_takes_any_white_space() {
    let config = config_with_quantity(3);
    assert!(is_final_message("2\t::\nrest", config.clone()));
    assert!(is_final_message("2\u{a0}::\u{2003}rest", config));
}

#[test]
fn only_the_first_piece_is_read() {
    let config = config_with_quantity(5);
    assert!(is_final_message("4 :: 7 :: 9", config.clone()));
    assert!(!is_final_message("7 :: 4 :: 4", config));
}

#[test]
fn unreadable_index_is_reported() {
    let config = config_with_quantity(10);
    assert_eq!(read_final_marker("nine :: x", config.clone()), None);
    assert_eq!(read_final_marker(" :: x", config.clone()), None);
    assert_eq!(read_final_marker("9  :: x", config.clone()), None);
    assert_eq!(read_final_marker("9 :: x", config.clone()), Some(true));
    assert_eq!(read_final_marker("3 :: x", config.clone()), Some(false));
    assert_eq!(read_final_marker("plain", config), Some(false));
}

#[test]
fn quantity_at_the_edge_of_the_integers() {
    let config = config_with_quantity(i32::MIN);
    assert_eq!(read_final_marker("2147483647 :: x", config.clone()), Some(false));
    assert_eq!(read_final_marker("-2147483648 :: x", config), Some(false));
    let config = config_with_quantity(i32::MAX);
    assert_eq!(read_final_marker("2147483646 :: x", config), Some(true));
}

#[test]
fn final_index_in_reads_the_first_piece() {
    assert_eq!(final_index_in(&vec![], 1), None);
    assert_eq!(final_index_in(&vec![String::from("0")], 1), Some(true));
    assert_eq!(final_index_in(&vec![String::from("0"), String::from("5")], 6), Some(false));
    assert_eq!(final_index_in(&vec![String::from("x")], 1), None);
}

#[test]
fn readable_payloads_are_told_apart() {
    assert!(is_readable("plain"));
    assert!(is_readable("4 :: x"));
    assert!(!is_readable("four :: x"));
    assert!(!is_readable(" :: "));
    assert_eq!(final_marker_for("4 :: x", 5), Some(true));
    assert_eq!(final_marker_for("4 :: x", 4), Some(false));
    assert_eq!(final_marker_for("x :: 4", 5), None);
    assert_eq!(final_marker_for("", 5), Some(false));
}
