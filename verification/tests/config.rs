use mqtt_sweep::config::{
    find_defect, get_count, get_flag, get_list, get_natural, get_property, is_readable_as,
    read_config, read_count, read_flag, read_list, read_natural, read_property, Config,
    PropertyKind,
};
use mqtt_sweep::exceptions::{
    ConfigPropertiesError, InvalidConfigPropertyKeyError, MissingConfigPropertyError,
};

const COMPLETE: &str = "\
# analyser
broker.host = localhost
broker.port = 1883
creds.username = user
creds.password = secret
client.keep_alive = 20000
client.timeout = 5000
client.clean_session = true
subscriber_connection.id = probe
subscriber_connection.retries = 3
subscriber_connection.retry_duration = 2500
subscriber_connection.topics = request/qos, request/delay
publisher_connection.id = driver
publisher_connection.topics = counter/{qos}/{delay}
publisher_connection.message_quantity = 10
";

fn without(key: &str) -> String {
    COMPLETE.lines().filter(|line| !line.starts_with(key)).map(|line| format!("{}\n", line)).collect()
}

fn with(key: &str, value: &str) -> String {
    format!("{}{} = {}\n", without(key), key, value)
}

fn missing(key: &str) -> ConfigPropertiesError {
    ConfigPropertiesError::MissingConfigPropertyError(MissingConfigPropertyError {
        property: String::from(key),
    })
}

fn invalid(key: &str) -> ConfigPropertiesError {
    ConfigPropertiesError::InvalidConfigPropertyKeyError(InvalidConfigPropertyKeyError {
        key: String::from(key),
    })
}

#[test]
fn complete_properties_give_a_configuration() {
    let config = Config::new(COMPLETE.as_bytes()).unwrap();
    assert_eq!(config.broker, "tcp://localhost:1883");
    assert_eq!(config.creds.username, "user");
    assert_eq!(config.creds.password, "secret");
    assert_eq!(config.client.keep_alive, 20000);
    assert_eq!(config.client.timeout, 5000);
    assert!(config.client.clean_session);
    assert_eq!(config.subscriber_connection.id, "probe");
    assert_eq!(config.subscriber_connection.retries, 3);
    assert_eq!(config.subscriber_connection.retry_duration, 2500);
    assert_eq!(config.subscriber_connection.topics, vec!["request/qos", "request/delay"]);
    assert_eq!(config.publisher_connection.id, "driver");
    assert_eq!(config.publisher_connection.topics, vec!["counter/{qos}/{delay}"]);
    assert_eq!(config.publisher_connection.message_quantity, 10);
}

#[test]
fn each_missing_key_is_named() {
    for key in [
        "broker.host",
        "broker.port",
        "creds.username",
        "creds.password",
        "client.keep_alive",
        "client.timeout",
        "client.clean_session",
        "subscriber_connection.id",
        "subscriber_connection.retries",
        "subscriber_connection.retry_duration",
        "subscriber_connection.topics",
        "publisher_connection.id",
        "publisher_connection.topics",
        "publisher_connection.message_quantity",
    ] {
        assert_eq!(Config::new(without(key).as_bytes()), Err(missing(key)), "{}", key);
    }
}

#[test]
fn first_defect_in_reading_order_wins() {
    let text = without("creds.password");
    let text: String = text.lines().filter(|line| !line.starts_with("broker.port")).map(|line| format!("{}\n", line)).collect();
    assert_eq!(Config::new(text.as_bytes()), Err(missing("broker.port")));
}

#[test]
fn unreadable_values_are_invalid() {
    assert_eq!(Config::new(with("client.keep_alive", "soon").as_bytes()), Err(invalid("client.keep_alive")));
    assert_eq!(Config::new(with("client.timeout", "-1").as_bytes()), Err(invalid("client.timeout")));
    assert_eq!(Config::new(with("client.clean_session", "yes").as_bytes()), Err(invalid("client.clean_session")));
    assert_eq!(Config::new(with("client.clean_session", "True").as_bytes()), Err(invalid("client.clean_session")));
    assert_eq!(Config::new(with("subscriber_connection.retries", "3.5").as_bytes()), Err(invalid("subscriber_connection.retries")));
    assert_eq!(Config::new(with("publisher_connection.message_quantity", "2147483648").as_bytes()), Err(invalid("publisher_connection.message_quantity")));
    assert_eq!(Config::new(with("publisher_connection.message_quantity", "-4").as_bytes()).unwrap().publisher_connection.message_quantity, -4);
}

#[test]
fn bytes_that_are_no_properties_describe_nothing() {
    assert!(read_config(b"key = \\u00zz\n").is_empty());
    assert_eq!(Config::new(b"broker.host = \\u00zz\n"), Err(missing("broker.host")));
    assert_eq!(Config::new(b""), Err(missing("broker.host")));
}

#[test]
fn lists_are_parted_at_commas() {
    let config = Config::new(with("subscriber_connection.topics", "a,b, c,  d,,e").as_bytes()).unwrap();
    assert_eq!(config.subscriber_connection.topics, vec!["a", "b", "c", " d", "", "e"]);
    let config = Config::new(with("publisher_connection.topics", "").as_bytes()).unwrap();
    assert_eq!(config.publisher_connection.topics, vec![""]);
}

#[test]
fn empty_key_is_invalid() {
    let properties = vec![(String::from("a"), String::from("1"))];
    assert_eq!(read_property(&properties, ""), Err(invalid("")));
    assert_eq!(read_property(&properties, "a"), Ok(String::from("1")));
    assert_eq!(read_property(&properties, "b"), Err(missing("b")));
    assert_eq!(get_property(&properties, "a"), "1");
}

#[test]
fn first_of_two_equal_keys_counts() {
    let properties = vec![
        (String::from("a"), String::from("1")),
        (String::from("a"), String::from("2")),
    ];
    assert_eq!(get_property(&properties, "a"), "1");
    assert_eq!(read_property(&properties, "a"), Ok(String::from("1")));
}

#[test]
fn errors_report_themselves() {
    assert_eq!(missing("broker.host").message(), "property does not exist in configuration: broker.host");
    assert_eq!(invalid("").message(), "invalid configuration properties key: ");
    assert_eq!(
        MissingConfigPropertyError { property: String::from("k") }.message(),
        "property does not exist in configuration: k"
    );
    assert_eq!(
        InvalidConfigPropertyKeyError { key: String::from("k") }.message(),
        "invalid configuration properties key: k"
    );
}

#[test]
fn later_line_of_a_file_overrides_an_earlier_one() {
    let text = format!("{}creds.username = other\n", COMPLETE);
    assert_eq!(Config::new(text.as_bytes()).unwrap().creds.username, "other");
}

#[test]
fn file_bytes_are_read_as_latin_text() {
    let properties = read_config(b"name = caf\xe9\nkey\\ with\\ space : v\n# note\n");
    assert_eq!(get_property(&properties, "name"), "caf\u{e9}");
    assert_eq!(get_property(&properties, "key with space"), "v");
    assert_eq!(properties.len(), 2);
}

#[test]
fn from_properties_takes_pairs_in_any_order() {
    let mut properties = read_config(COMPLETE.as_bytes());
    properties.sort();
    let sorted = Config::from_properties(&properties);
    properties.reverse();
    assert_eq!(sorted, Config::from_properties(&properties));
    assert_eq!(sorted, Config::new(COMPLETE.as_bytes()));
    assert!(sorted.is_ok());
}

fn pairs(entries: &[(&str, &str)]) -> Vec<(String, String)> {
    entries.iter().map(|(key, value)| (String::from(*key), String::from(*value))).collect()
}

#[test]
fn readers_hand_out_the_value_of_a_sound_property() {
    let properties = pairs(&[
        ("n", "18446744073709551615"),
        ("c", "-12"),
        ("f", "false"),
        ("l", "a, b,c"),
        ("t", " any text "),
    ]);
    assert_eq!(get_natural(&properties, "n"), u64::MAX);
    assert_eq!(get_count(&properties, "c"), -12);
    assert!(!get_flag(&properties, "f"));
    assert_eq!(get_list(&properties, "l"), vec!["a", "b", "c"]);
    assert_eq!(get_property(&properties, "t"), " any text ");
    assert_eq!(read_natural(&properties, "n"), Ok(u64::MAX));
    assert_eq!(read_count(&properties, "c"), Ok(-12));
    assert_eq!(read_flag(&properties, "f"), Ok(false));
    assert_eq!(read_list(&properties, "l"), Ok(vec![String::from("a"), String::from("b"), String::from("c")]));
}

#[test]
fn readers_say_what_is_wrong_with_a_property() {
    let properties = pairs(&[("n", "abc"), ("c", "1.5"), ("f", "maybe")]);
    assert_eq!(read_natural(&properties, "n"), Err(invalid("n")));
    assert_eq!(read_count(&properties, "c"), Err(invalid("c")));
    assert_eq!(read_flag(&properties, "f"), Err(invalid("f")));
    assert_eq!(read_natural(&properties, "x"), Err(missing("x")));
    assert_eq!(read_count(&properties, "x"), Err(missing("x")));
    assert_eq!(read_flag(&properties, "x"), Err(missing("x")));
    assert_eq!(read_list(&properties, "x"), Err(missing("x")));
    assert_eq!(read_list(&properties, ""), Err(invalid("")));
    assert_eq!(read_natural(&properties, ""), Err(invalid("")));
}

#[test]
fn defects_are_found_before_a_value_is_read() {
    let properties = pairs(&[("n", "7"), ("w", "seven")]);
    assert_eq!(find_defect(&properties, "n", PropertyKind::Natural), None);
    assert_eq!(find_defect(&properties, "w", PropertyKind::Text), None);
    assert_eq!(find_defect(&properties, "w", PropertyKind::Natural), Some(invalid("w")));
    assert_eq!(find_defect(&properties, "w", PropertyKind::Count), Some(invalid("w")));
    assert_eq!(find_defect(&properties, "w", PropertyKind::Flag), Some(invalid("w")));
    assert_eq!(find_defect(&properties, "w", PropertyKind::List), None);
    assert_eq!(find_defect(&properties, "", PropertyKind::Text), Some(invalid("")));
    assert_eq!(find_defect(&properties, "q", PropertyKind::Text), Some(missing("q")));
    assert!(is_readable_as("true", PropertyKind::Flag));
    assert!(!is_readable_as("true", PropertyKind::Count));
    assert!(is_readable_as("-3", PropertyKind::Count));
    assert!(!is_readable_as("-3", PropertyKind::Natural));
    assert!(is_readable_as("", PropertyKind::List));
}
