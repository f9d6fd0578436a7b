use mqtt_sweep::decimal::{decimal_string, parse_i32, parse_u64};
use mqtt_sweep::text::{chars_of, contains_text, parse_bool, replace_all, same_text};

/// A small fixed walk through texts over a few characters.
fn samples() -> Vec<String> {
    let alphabet = ['a', 'b', '{', '}', 'é', '1', '-'];
    let mut out = vec![String::new()];
    let mut seed: u64 = 0x9e3779b97f4a7c15;
    for _ in 0..400 {
        seed = seed.wrapping_mul(6364136223846793005).wrapping_add(1442695040888963407);
        let length = (seed >> 60) as usize % 9;
        let mut text = String::new();
        let mut bits = seed;
        for _ in 0..length {
            text.push(alphabet[(bits % 7) as usize]);
            bits /= 7;
        }
        out.push(text);
    }
    out
}

#[test]
fn chars_of_lists_the_characters() {
    assert_eq!(chars_of(""), Vec::<char>::new());
    assert_eq!(chars_of("aé{"), vec!['a', 'é', '{']);
    for text in samples() {
        assert_eq!(chars_of(&text), text.chars().collect::<Vec<char>>());
    }
}

#[test]
fn same_text_is_equality() {
    let texts = samples();
    for a in texts.iter().take(60) {
        for b in texts.iter().take(60) {
            assert_eq!(same_text(a, b), a == b);
        }
    }
    assert!(same_text("", ""));
    assert!(!same_text("a", "A"));
}

#[test]
fn contains_text_agrees_with_std() {
    let texts = samples();
    for text in texts.iter() {
        for pattern in ["", "a", "ab", "{a}", "é", "1-", "ba"] {
            assert_eq!(contains_text(text, pattern), text.contains(pattern), "{:?} {:?}", text, pattern);
        }
    }
}

#[test]
fn replace_all_agrees_with_std_on_samples() {
    for text in samples() {
        for pattern in ["a", "ab", "aa", "{a}", "é", "1-", "}"] {
            for replacement in ["", "x", "aa", "{a}"] {
                assert_eq!(
                    replace_all(&text, pattern, replacement),
                    text.replace(pattern, replacement),
                    "{:?} {:?} {:?}",
                    text,
                    pattern,
                    replacement
                );
            }
        }
    }
}

#[test]
fn parse_bool_takes_two_words() {
    assert_eq!(parse_bool("true"), Some(true));
    assert_eq!(parse_bool("false"), Some(false));
    for text in ["", "True", "FALSE", " true", "true ", "1", "0", "yes", "truee", "fals"] {
        assert_eq!(parse_bool(text), text.parse::<bool>().ok(), "{:?}", text);
        assert_eq!(parse_bool(text), None);
    }
}

#[test]
fn numbers_agree_with_std_on_samples() {
    for text in samples() {
        assert_eq!(parse_i32(&text), text.parse::<i32>().ok(), "{:?}", text);
        assert_eq!(parse_u64(&text), text.parse::<u64>().ok(), "{:?}", text);
    }
    for text in ["-0", "+0", "00", "-00012", "+4294967296", "4294967295", "-2147483648", "--1", "+-1", "1+", "١"] {
        assert_eq!(parse_i32(text), text.parse::<i32>().ok(), "{:?}", text);
        assert_eq!(parse_u64(text), text.parse::<u64>().ok(), "{:?}", text);
    }
    let mut n: i64 = -2147483648;
    while n <= 2147483647 {
        assert_eq!(decimal_string(n as i32), (n as i32).to_string());
        n += 7654321;
    }
}
