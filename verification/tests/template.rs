use noti::notification::{replace_template_variables, NotificationData};
use noti::text::{replace_all, u8_to_string};

fn network(ssid: &str, signal_strength: u8) -> NotificationData {
    NotificationData::Network { ssid: String::from(ssid), signal_strength }
}

#[test]
fn template_without_tokens_renders_unchanged() {
    let data = network("home", 70);
    assert_eq!(replace_template_variables("plain text, no tokens.", &data), "plain text, no tokens.");
    assert_eq!(replace_template_variables("", &data), "");
    let device = NotificationData::Device { name: String::from("n") };
    assert_eq!(replace_template_variables("Device", &device), "Device");
}

#[test]
fn recognized_keys_substituted_every_occurrence() {
    let data = network("home", 70);
    assert_eq!(replace_template_variables("$ssid and $ssid", &data), "home and home");
    assert_eq!(
        replace_template_variables("Connected to $ssid ($signal_strength%)", &data),
        "Connected to home (70%)"
    );
    let power = NotificationData::Power { percentage: 5, charging: String::from("Charging") };
    assert_eq!(
        replace_template_variables("$percentage $charging $percentage", &power),
        "5 Charging 5"
    );
    let custom = NotificationData::Custom { name: String::from("m"), value: String::from("v") };
    assert_eq!(replace_template_variables("$value$value", &custom), "vv");
}

#[test]
fn out_of_scope_keys_left_verbatim() {
    let data = network("home", 70);
    assert_eq!(replace_template_variables("$name is $unknown", &data), "$name is $unknown");
    let device = NotificationData::Device { name: String::from("mouse") };
    assert_eq!(replace_template_variables("$ssid $name", &device), "$ssid mouse");
}

#[test]
fn literal_dollar_passes_through() {
    let data = network("home", 70);
    assert_eq!(replace_template_variables("costs $5, $ alone", &data), "costs $5, $ alone");
    assert_eq!(replace_template_variables("$", &data), "$");
}

#[test]
fn replace_all_exact_values() {
    assert_eq!(replace_all("aaa", "a", "bb"), "bbbbbb");
    assert_eq!(replace_all("abcabc", "abc", "x"), "xx");
    assert_eq!(replace_all("no match here", "zz", "x"), "no match here");
    assert_eq!(replace_all("", "zz", "x"), "");
    // Leftmost, non-overlapping: the second "aa" starts after the first match.
    assert_eq!(replace_all("aaa", "aa", "b"), "ba");
    // Substituted text is not rescanned beyond the remainder.
    assert_eq!(replace_all("ab", "ab", "ab"), "ab");
}

#[test]
fn decimal_rendering_exact_values() {
    assert_eq!(u8_to_string(0), "0");
    assert_eq!(u8_to_string(7), "7");
    assert_eq!(u8_to_string(10), "10");
    assert_eq!(u8_to_string(42), "42");
    assert_eq!(u8_to_string(100), "100");
    assert_eq!(u8_to_string(255), "255");
}
