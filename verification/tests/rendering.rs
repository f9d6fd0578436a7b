use mqtt_sweep::params::{ActorState, Parameter};
use mqtt_sweep::decimal::{decimal_string, parse_i32, parse_u64};
use mqtt_sweep::text::replace_all;
use mqtt_sweep::topic::{render_topic, TopicError};

#[test]
fn decimal_string_writes_what_std_writes() {
    for n in [0, 1, 9, 10, 11, 99, 100, 500, 2147483647, -1, -9, -10, -2147483648] {
        assert_eq!(decimal_string(n), format!("{}", n));
    }
}

#[test]
fn replace_all_agrees_with_std() {
    let cases = [
        ("counter/{qos}/{delay}", "{qos}", "2"),
        ("aaaa", "aa", "b"),
        ("aaa", "aa", "b"),
        ("", "x", "y"),
        ("abc", "", "y"),
        ("xx{qos}{qos}", "{qos}", ""),
    ];
    for (text, pattern, replacement) in cases {
        if pattern.is_empty() {
            assert_eq!(replace_all(text, pattern, replacement), text);
        } else {
            assert_eq!(replace_all(text, pattern, replacement), text.replace(pattern, replacement));
        }
    }
}

#[test]
fn parse_agrees_with_std() {
    for text in ["0", "7", "-7", "+7", "", "-", "+", "2147483647", "2147483648", "-2147483648",
        "-2147483649", "0005", " 5", "5 ", "1_0", "٣", "99999999999999999999999"] {
        assert_eq!(parse_i32(text), text.parse::<i32>().ok(), "{:?}", text);
        assert_eq!(parse_u64(text), text.parse::<u64>().ok(), "{:?}", text);
    }
    assert_eq!(parse_u64("18446744073709551615"), Some(u64::MAX));
    assert_eq!(parse_u64("18446744073709551616"), None);
}

#[test]
fn render_topic_fills_both_placeholders() {
    let state = ActorState { current_qos: 1, current_delay: 50 };
    assert_eq!(render_topic("counter/{qos}/{delay}", &state), Ok(String::from("counter/1/50")));
    assert_eq!(render_topic("counter/{delay}", &state), Err(TopicError::MissingPlaceholder(Parameter::Qos)));
    assert_eq!(render_topic("counter/{qos}", &state), Err(TopicError::MissingPlaceholder(Parameter::Delay)));
}

#[test]
fn rendering_twice_gives_the_same_topic() {
    for (qos, delay) in [(0, 0), (1, 50), (2, 500), (-1, 2147483647)] {
        let state = ActorState { current_qos: qos, current_delay: delay };
        for template in ["counter/{qos}/{delay}", "{delay}{qos}{delay}", "{qos}", "plain", "{{qos}}/{{delay}}"] {
            assert_eq!(render_topic(template, &state), render_topic(template, &state));
        }
    }
}

#[test]
fn every_placeholder_is_filled() {
    let state = ActorState { current_qos: 2, current_delay: 100 };
    assert_eq!(render_topic("{qos}/{delay}/{qos}/{delay}", &state), Ok(String::from("2/100/2/100")));
    assert_eq!(render_topic("{{qos}}{delay}", &state), Ok(String::from("{2}100")));
    let negative = ActorState { current_qos: -7, current_delay: -2147483648 };
    assert_eq!(render_topic("a{qos}b{delay}c", &negative), Ok(String::from("a-7b-2147483648c")));
}

#[test]
fn rendered_topic_holds_no_placeholder() {
    for template in ["counter/{qos}/{delay}", "{q{qos}os}{delay}", "{{delay}qos}{qos}", "{qos{delay}}"] {
        for (qos, delay) in [(0, 0), (2, 500), (-1, -20)] {
            let state = ActorState { current_qos: qos, current_delay: delay };
            if let Ok(topic) = render_topic(template, &state) {
                assert!(!topic.contains("{qos}"), "{}", topic);
                assert!(!topic.contains("{delay}"), "{}", topic);
            }
        }
    }
}

#[test]
fn decimal_text_reads_back() {
    let mut n: i64 = -2147483648;
    while n <= 2147483647 {
        let value = n as i32;
        assert_eq!(parse_i32(&decimal_string(value)), Some(value));
        n += 16777213;
    }
    for value in [i32::MIN, -1, 0, 1, i32::MAX] {
        assert_eq!(parse_i32(&decimal_string(value)), Some(value));
    }
}
